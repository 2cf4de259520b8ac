//! Reconnection policy of the event stream: exponential backoff with a cap
//! and an optional retry limit.

use vstd::prelude::*;

verus! {

/// Exponential backoff configuration for WebSocket reconnection, in
/// milliseconds.
#[derive(Debug, Clone)]
pub struct ReconnectConfig {
    /// Delay before the first reconnection attempt. Default: 1 s.
    pub initial_delay_ms: u64,
    /// Upper bound on the backoff delay. Default: 30 s.
    pub max_delay_ms: u64,
    /// Maximum reconnection attempts before giving up; `None` retries
    /// forever.
    pub max_retries: Option<u32>,
}

impl Default for ReconnectConfig {
    fn default() -> (r: Self)
        ensures
            r.initial_delay_ms == 1000,
            r.max_delay_ms == 30000,
            r.max_retries is None,
    {
        ReconnectConfig { initial_delay_ms: 1000, max_delay_ms: 30000, max_retries: None }
    }
}

/// `initial` doubled `n` times.
pub open spec fn doubled(initial: nat, n: nat) -> nat
    decreases n,
{
    if n == 0 {
        initial
    } else {
        2 * doubled(initial, (n - 1) as nat)
    }
}

/// The backoff before reconnect attempt number `attempt` (counted from 0):
/// the initial delay doubled once per earlier attempt, capped at the maximum.
pub open spec fn backoff_ms(initial: nat, max: nat, attempt: nat) -> nat {
    if doubled(initial, attempt) < max {
        doubled(initial, attempt)
    } else {
        max
    }
}

/// Doubling never shrinks a delay.
pub proof fn lemma_doubled_monotone(initial: nat, i: nat, j: nat)
    requires
        i <= j,
    ensures
        doubled(initial, i) <= doubled(initial, j),
    decreases j,
{
    if i < j {
        lemma_doubled_monotone(initial, i, (j - 1) as nat);
    }
}

/// The delay (milliseconds) to wait before reconnect attempt `attempt`.
/// The random-looking jitter that the running client multiplies in is
/// floating-point work done by the caller.
pub fn calculate_backoff(attempt: u32, config: &ReconnectConfig) -> (d: u64)
    ensures
        d == backoff_ms(config.initial_delay_ms as nat, config.max_delay_ms as nat, attempt as nat),
{
    let max = config.max_delay_ms;
    let mut d: u64 = config.initial_delay_ms;
    let ghost initial = config.initial_delay_ms as nat;
    if d >= max {
        proof {
            lemma_doubled_monotone(initial, 0, attempt as nat);
        }
        return max;
    }
    if d == 0 {
        proof {
            assert forall|n: nat| doubled(0, n) == 0 by {
                lemma_doubled_zero(n);
            }
        }
        return 0;
    }
    let mut i: u32 = 0;
    while i < attempt
        invariant
            0 < d < max,
            max == config.max_delay_ms,
            initial == config.initial_delay_ms,
            d as nat == doubled(initial, i as nat),
            i <= attempt,
        decreases attempt - i,
    {
        if d >= max - d {
            proof {
                assert(doubled(initial, (i + 1) as nat) == 2 * d);
                lemma_doubled_monotone(initial, (i + 1) as nat, attempt as nat);
            }
            return max;
        }
        d = d + d;
        i = i + 1;
    }
    d
}

proof fn lemma_doubled_zero(n: nat)
    ensures
        doubled(0, n) == 0,
    decreases n,
{
    if n > 0 {
        lemma_doubled_zero((n - 1) as nat);
    }
}

/// Backoff delays never shrink from one attempt to a later one.
pub proof fn law_backoff_monotone(initial: nat, max: nat, a: nat, b: nat)
    requires
        a <= b,
    ensures
        backoff_ms(initial, max, a) <= backoff_ms(initial, max, b),
{
    lemma_doubled_monotone(initial, a, b);
}

/// The first reconnect waits the initial delay (or the maximum, if that is
/// smaller), and a delay never drops below the initial one unless the
/// maximum is smaller.
pub proof fn law_backoff_starts_at_initial(initial: nat, max: nat, a: nat)
    ensures
        backoff_ms(initial, max, 0) == if initial < max { initial } else { max },
        backoff_ms(initial, max, a) >= if initial < max { initial } else { max },
{
    lemma_doubled_monotone(initial, 0, a);
}

/// No backoff delay exceeds the configured maximum.
pub proof fn law_backoff_capped(initial: nat, max: nat, a: nat)
    ensures
        backoff_ms(initial, max, a) <= max,
{
}

/// Each further attempt doubles the previous delay until the cap is reached.
pub proof fn law_backoff_doubles(initial: nat, max: nat, a: nat)
    ensures
        backoff_ms(initial, max, a + 1) == if 2 * backoff_ms(initial, max, a) < max {
            2 * backoff_ms(initial, max, a)
        } else {
            max
        },
{
    assert(doubled(initial, a + 1) == 2 * doubled(initial, a));
}

/// What the reconnect loop does after a failed connection.
#[derive(Debug, Clone, Copy, PartialEq, Eq, Structural)]
pub enum ReconnectStep {
    /// The retry limit is reached: stop reconnecting.
    GiveUp,
    /// Sleep `delay_ms` (before jitter), then try again as `next_attempt`.
    Retry { delay_ms: u64, next_attempt: u32 },
}

/// Decides what follows the failure of connection attempt `attempt`: give
/// up once `max_retries` attempts have failed, otherwise back off and retry.
pub fn step_after_failure(attempt: u32, config: &ReconnectConfig) -> (s: ReconnectStep)
    requires
        config.max_retries is None ==> attempt < u32::MAX,
    ensures
        match config.max_retries {
            Some(max) => attempt >= max ==> s == ReconnectStep::GiveUp,
            None => true,
        },
        !(config.max_retries matches Some(max) && attempt >= max) ==> s == (ReconnectStep::Retry {
            delay_ms: backoff_ms(config.initial_delay_ms as nat, config.max_delay_ms as nat, attempt as nat) as u64,
            next_attempt: (attempt + 1) as u32,
        }),
{
    if let Some(max) = config.max_retries {
        if attempt >= max {
            return ReconnectStep::GiveUp;
        }
    }
    let delay_ms = calculate_backoff(attempt, config);
    ReconnectStep::Retry { delay_ms, next_attempt: attempt + 1 }
}

/// Decides what follows the end of one connection: after a clean close the
/// stream reconnects at once and the attempt counter starts over; after a
/// failure it goes as `step_after_failure` says.
pub fn step_after_connection(attempt: u32, ended_cleanly: bool, config: &ReconnectConfig) -> (s: ReconnectStep)
    requires
        !ended_cleanly && config.max_retries is None ==> attempt < u32::MAX,
    ensures
        ended_cleanly ==> s == (ReconnectStep::Retry { delay_ms: 0, next_attempt: 0 }),
        !ended_cleanly && (config.max_retries matches Some(max) && attempt >= max) ==> s == ReconnectStep::GiveUp,
        !ended_cleanly && !(config.max_retries matches Some(max) && attempt >= max) ==> s == (ReconnectStep::Retry {
            delay_ms: backoff_ms(config.initial_delay_ms as nat, config.max_delay_ms as nat, attempt as nat) as u64,
            next_attempt: (attempt + 1) as u32,
        }),
{
    if ended_cleanly {
        ReconnectStep::Retry { delay_ms: 0, next_attempt: 0 }
    } else {
        step_after_failure(attempt, config)
    }
}

} // verus!
