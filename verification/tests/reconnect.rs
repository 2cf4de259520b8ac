use unifly::backoff::{calculate_backoff, step_after_failure, ReconnectConfig, ReconnectStep};

#[test]
fn default_reconnect_config() {
    let config = ReconnectConfig::default();
    assert_eq!(config.initial_delay_ms, 1000);
    assert_eq!(config.max_delay_ms, 30000);
    assert!(config.max_retries.is_none());
}

#[test]
fn backoff_increases_exponentially() {
    let config = ReconnectConfig::default();

    let d0 = calculate_backoff(0, &config);
    let d1 = calculate_backoff(1, &config);
    let d2 = calculate_backoff(2, &config);

    assert!(d1 > d0, "d1 ({d1:?}) should be greater than d0 ({d0:?})");
    assert!(d2 > d1, "d2 ({d2:?}) should be greater than d1 ({d1:?})");
}

#[test]
fn backoff_caps_at_max_delay() {
    let config = ReconnectConfig {
        initial_delay_ms: 1000,
        max_delay_ms: 10000,
        max_retries: None,
    };

    let d10 = calculate_backoff(10, &config);
    assert!(
        d10 <= 13000,
        "delay at attempt 10 ({d10:?}) should be capped near max_delay"
    );
}

#[test]
fn backoff_doubles_exactly_until_the_cap() {
    let config = ReconnectConfig::default();
    let delays: Vec<u64> = (0..8).map(|a| calculate_backoff(a, &config)).collect();
    assert_eq!(delays, vec![1000, 2000, 4000, 8000, 16000, 30000, 30000, 30000]);
}

#[test]
fn backoff_survives_huge_attempt_numbers() {
    let config = ReconnectConfig::default();
    assert_eq!(calculate_backoff(u32::MAX, &config), 30000);
    let zero = ReconnectConfig { initial_delay_ms: 0, max_delay_ms: 5, max_retries: None };
    assert_eq!(calculate_backoff(7, &zero), 0);
    let tiny_cap = ReconnectConfig { initial_delay_ms: 50, max_delay_ms: 20, max_retries: None };
    assert_eq!(calculate_backoff(0, &tiny_cap), 20);
}

#[test]
fn retry_limit_gives_up_after_max_failures() {
    let config = ReconnectConfig { initial_delay_ms: 100, max_delay_ms: 1000, max_retries: Some(2) };
    assert_eq!(
        step_after_failure(0, &config),
        ReconnectStep::Retry { delay_ms: 100, next_attempt: 1 }
    );
    assert_eq!(
        step_after_failure(1, &config),
        ReconnectStep::Retry { delay_ms: 200, next_attempt: 2 }
    );
    assert_eq!(step_after_failure(2, &config), ReconnectStep::GiveUp);
}

#[test]
fn unlimited_retries_never_give_up() {
    let config = ReconnectConfig::default();
    assert_eq!(
        step_after_failure(40, &config),
        ReconnectStep::Retry { delay_ms: 30000, next_attempt: 41 }
    );
}
