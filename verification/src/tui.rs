//! Decisions of the terminal dashboard: connection status, session
//! settings, and the live traffic chart's sampling and peaks.

use vstd::prelude::*;

use crate::model::{Bandwidth, Client, Device, DeviceType, HealthSummary};
use crate::parsed_url::{parse_url, url_accepts, ParsedUrl};
use crate::support::TlsVerification;
use crate::text::{concat2, decimal, decimal_string, str_is};

verus! {

/// Connection status as seen by the dashboard.
#[derive(Debug, Clone, PartialEq, Eq, Structural)]
pub enum ConnectionStatus {
    Disconnected,
    Connecting,
    Connected,
    Reconnecting { attempt: u32 },
}

impl Default for ConnectionStatus {
    fn default() -> (s: Self)
        ensures
            s == ConnectionStatus::Disconnected,
    {
        ConnectionStatus::Disconnected
    }
}

/// Whether visual effects run this session: the first "off" wins among the
/// `--no-effects` flag, the `NO_EFFECTS` variable and the config, and they
/// default to on.
pub fn resolve_effects_enabled(no_effects_flag: bool, no_effects_env: bool, config_effects: Option<bool>) -> (b: bool)
    ensures
        b == (!no_effects_flag && !no_effects_env && config_effects != Some(false)),
{
    if no_effects_flag {
        return false;
    }
    if no_effects_env {
        return false;
    }
    match config_effects {
        Some(e) => e,
        None => true,
    }
}

/// Background timing of a controller connection.
#[derive(Debug, Clone, Copy, PartialEq, Eq, Structural)]
pub struct ConnectionTiming {
    pub refresh_interval_secs: u64,
    pub websocket_enabled: bool,
    pub polling_interval_secs: u64,
}

/// Cloud connections refresh every 60 s, poll statistics every 30 s and
/// open no WebSocket; local ones refresh and poll every 10 s over a
/// WebSocket.
pub fn connection_timing(is_cloud: bool) -> (t: ConnectionTiming)
    ensures
        t.refresh_interval_secs == (if is_cloud { 60u64 } else { 10u64 }),
        t.websocket_enabled == !is_cloud,
        t.polling_interval_secs == (if is_cloud { 30u64 } else { 10u64 }),
{
    ConnectionTiming {
        refresh_interval_secs: if is_cloud { 60 } else { 10 },
        websocket_enabled: !is_cloud,
        polling_interval_secs: if is_cloud { 30 } else { 10 },
    }
}

/// Certificate checking for a connection built from flags: cloud
/// connections use the system roots; `--insecure` accepts anything.
pub fn direct_tls(is_cloud: bool, insecure: Option<bool>) -> (t: TlsVerification)
    ensures
        is_cloud ==> t is SystemDefaults,
        !is_cloud && insecure == Some(true) ==> t is DangerAcceptInvalid,
        !is_cloud && insecure != Some(true) ==> t is SystemDefaults,
{
    if is_cloud {
        TlsVerification::SystemDefaults
    } else if insecure == Some(true) {
        TlsVerification::DangerAcceptInvalid
    } else {
        TlsVerification::SystemDefaults
    }
}

/// The profile a connection uses: the `--profile` flag, else the
/// configured default profile, else `"default"`.
pub fn profile_name<'a>(flag: Option<&'a str>, default_profile: Option<&'a str>) -> (n: &'a str)
    ensures
        n@ == match flag {
            Some(f) => f@,
            None => match default_profile {
                Some(d) => d@,
                None => "default"@,
            },
        },
{
    match flag {
        Some(f) => f,
        None => match default_profile {
            Some(d) => d,
            None => "default",
        },
    }
}

/// How a connection built from flags authenticates.
#[derive(Debug)]
pub enum DirectAuth {
    /// Through the cloud connector to the console `host_id`.
    Cloud { host_id: String },
    /// The API key together with the profile's session credentials.
    Hybrid,
    /// The API key alone.
    ApiKey,
}

/// The settings of a connection built from command-line flags.
#[derive(Debug)]
pub struct DirectConnection {
    /// The controller URL, with the text it was parsed from.
    pub url: ParsedUrl,
    pub auth: DirectAuth,
    pub site: String,
    pub tls: TlsVerification,
    pub timing: ConnectionTiming,
    pub no_session_cache: bool,
}

/// The controller URL text a flag connection uses: the `--controller` flag,
/// else the cloud connector's URL for a cloud (`--host-id`) connection.
pub open spec fn direct_url_text(controller: Option<&str>, is_cloud: bool, cloud_url: Seq<char>) -> Option<Seq<char>> {
    match controller {
        Some(c) => Some(c@),
        None => if is_cloud {
            Some(cloud_url)
        } else {
            None
        },
    }
}

/// Builds a connection from command-line flags, bypassing the config
/// profile: a URL (the flag's, or the cloud connector's for a cloud
/// connection) that parses and an API key are needed. A cloud connection
/// goes through the connector with system certificates, refreshes every
/// 60 s, polls every 30 s, opens no WebSocket and caches no session; a
/// local one upgrades to hybrid authentication where the profile has
/// session credentials.
pub fn direct_connection(
    controller: Option<&str>,
    host_id: Option<&str>,
    cloud_url: &str,
    has_api_key: bool,
    hybrid_available: bool,
    site: Option<&str>,
    insecure: Option<bool>,
    no_cache: bool,
) -> (r: Option<DirectConnection>)
    ensures
        r is Some <==> (direct_url_text(controller, host_id is Some, cloud_url@) matches Some(t)
            && url_accepts(t) && has_api_key),
        r matches Some(c) ==> {
            &&& direct_url_text(controller, host_id is Some, cloud_url@) == Some(c.url@)
            &&& match host_id {
                Some(h) => c.auth matches DirectAuth::Cloud { host_id } && host_id@ == h@,
                None => if hybrid_available { c.auth is Hybrid } else { c.auth is ApiKey },
            }
            &&& c.site@ == crate::parser::text_or(site, "default"@)
            &&& (host_id is Some ==> c.tls is SystemDefaults)
            &&& (host_id is None && insecure == Some(true) ==> c.tls is DangerAcceptInvalid)
            &&& (host_id is None && insecure != Some(true) ==> c.tls is SystemDefaults)
            &&& c.timing.refresh_interval_secs == (if host_id is Some { 60u64 } else { 10u64 })
            &&& c.timing.websocket_enabled == (host_id is None)
            &&& c.timing.polling_interval_secs == (if host_id is Some { 30u64 } else { 10u64 })
            &&& c.no_session_cache == (no_cache || host_id is Some)
        },
{
    let is_cloud = host_id.is_some();
    let url_text = match controller {
        Some(c) => c,
        None => if is_cloud {
            cloud_url
        } else {
            return None;
        },
    };
    let url = match parse_url(url_text) {
        Some(u) => u,
        None => return None,
    };
    if !has_api_key {
        return None;
    }
    let auth = match host_id {
        Some(h) => DirectAuth::Cloud { host_id: h.to_owned() },
        None => if hybrid_available {
            DirectAuth::Hybrid
        } else {
            DirectAuth::ApiKey
        },
    };
    let site = match site {
        Some(s) => s.to_owned(),
        None => "default".to_owned(),
    };
    Some(DirectConnection {
        url,
        auth,
        site,
        tls: direct_tls(is_cloud, insecure),
        timing: connection_timing(is_cloud),
        no_session_cache: no_cache || is_cloud,
    })
}

// ── Live traffic chart ───────────────────────────────────────────────

/// A throughput reading and when (ms on a monotonic clock) it was taken.
#[derive(Debug, Clone, Copy, PartialEq, Eq, Structural)]
pub struct BandwidthSample {
    pub tx_bps: u64,
    pub rx_bps: u64,
    pub captured_at_ms: u64,
}

/// The throughput to chart: the more recent of the gateway reading and the
/// WAN health reading, the health reading winning a tie.
pub open spec fn current_of(device: Option<BandwidthSample>, health: Option<BandwidthSample>) -> Option<(u64, u64)> {
    match (device, health) {
        (Some(d), Some(h)) => if h.captured_at_ms >= d.captured_at_ms {
            Some((h.tx_bps, h.rx_bps))
        } else {
            Some((d.tx_bps, d.rx_bps))
        },
        (Some(d), None) => Some((d.tx_bps, d.rx_bps)),
        (None, Some(h)) => Some((h.tx_bps, h.rx_bps)),
        (None, None) => None,
    }
}

/// Peak transmit and receive rates seen so far.
#[derive(Debug, Clone, Copy, PartialEq, Eq, Structural)]
pub struct Peaks {
    pub tx: u64,
    pub rx: u64,
}

/// The larger of two rates.
pub open spec fn max2(a: u64, b: u64) -> u64 {
    if a >= b {
        a
    } else {
        b
    }
}

/// Raises the peaks to a new reading and tells whether the overall peak
/// (the larger of the two) grew.
pub fn update_peaks(peaks: &mut Peaks, tx_bps: u64, rx_bps: u64) -> (grew: bool)
    ensures
        final(peaks).tx == max2(old(peaks).tx, tx_bps),
        final(peaks).rx == max2(old(peaks).rx, rx_bps),
        grew == (max2(final(peaks).tx, final(peaks).rx) > max2(old(peaks).tx, old(peaks).rx)),
{
    let previous = if peaks.tx >= peaks.rx { peaks.tx } else { peaks.rx };
    if tx_bps > peaks.tx {
        peaks.tx = tx_bps;
    }
    if rx_bps > peaks.rx {
        peaks.rx = rx_bps;
    }
    let now = if peaks.tx >= peaks.rx { peaks.tx } else { peaks.rx };
    now > previous
}

/// A chart sample is due unless one was taken less than `interval_ms` ago
/// (a sample stamped after `now_ms` counts as just taken).
pub open spec fn sample_is_due(last_sample_ms: Option<u64>, now_ms: u64, interval_ms: u64) -> bool {
    !(last_sample_ms matches Some(t) && (if now_ms >= t { now_ms - t } else { 0 }) < interval_ms)
}

/// Whether a chart sample is due.
pub fn sample_due(last_sample_ms: Option<u64>, now_ms: u64, interval_ms: u64) -> (due: bool)
    ensures
        due == sample_is_due(last_sample_ms, now_ms, interval_ms),
{
    match last_sample_ms {
        Some(t) => {
            let elapsed = if now_ms >= t { now_ms - t } else { 0 };
            elapsed >= interval_ms
        },
        None => true,
    }
}

/// What a dashboard tick asks of the application.
#[derive(Debug, Clone, Copy, PartialEq, Eq, Structural)]
pub enum TickSignal {
    /// A new peak was charted: play the peak effect.
    ChartPeak,
    /// Redraw so the chart keeps scrolling.
    Invalidate,
}

/// The signal of a tick: only a focused dashboard signals; a sample that
/// raised the peak plays the peak effect, and otherwise any sample taken or
/// any charted history asks for a redraw.
pub open spec fn tick_outcome(focused: bool, sampled: Option<bool>, has_history: bool) -> Option<TickSignal> {
    if !focused {
        None
    } else if sampled == Some(true) {
        Some(TickSignal::ChartPeak)
    } else if sampled is Some || has_history {
        Some(TickSignal::Invalidate)
    } else {
        None
    }
}

/// Computes the signal of a tick.
pub fn tick_signal(focused: bool, sampled: Option<bool>, has_history: bool) -> (s: Option<TickSignal>)
    ensures
        s == tick_outcome(focused, sampled, has_history),
{
    if focused {
        if sampled == Some(true) {
            return Some(TickSignal::ChartPeak);
        }
        if sampled.is_some() || has_history {
            return Some(TickSignal::Invalidate);
        }
    }
    None
}

} // verus!

verus! {

/// Samples kept in the chart: a one-minute window at one sample a second.
pub const LIVE_CHART_WINDOW_SAMPLES: usize = 60;

/// Most recent samples that set the chart's scale.
pub const BANDWIDTH_SCALE_WINDOW_SAMPLES: usize = 48;

/// Percentile of the recent samples that sets the chart's scale.
pub const BANDWIDTH_SCALE_PERCENTILE: usize = 85;

/// `s` with `x` inserted before its first element not below `x`.
pub open spec fn insert_sorted(s: Seq<u64>, x: u64) -> Seq<u64>
    decreases s.len(),
{
    if s.len() == 0 {
        seq![x]
    } else if x <= s[0] {
        seq![x] + s
    } else {
        seq![s[0]] + insert_sorted(s.drop_first(), x)
    }
}

/// `w` in ascending order (insertion sort).
pub open spec fn sorted_values(w: Seq<u64>) -> Seq<u64>
    decreases w.len(),
{
    if w.len() == 0 {
        Seq::empty()
    } else {
        insert_sorted(sorted_values(w.drop_last()), w.last())
    }
}

/// The positive values among `w`, in order.
pub open spec fn positives(w: Seq<u64>) -> Seq<u64>
    decreases w.len(),
{
    if w.len() == 0 {
        Seq::empty()
    } else if w.last() > 0 {
        positives(w.drop_last()).push(w.last())
    } else {
        positives(w.drop_last())
    }
}

/// The most recent (at most 48) values of a series.
pub open spec fn scale_window(values: Seq<u64>) -> Seq<u64> {
    if values.len() <= BANDWIDTH_SCALE_WINDOW_SAMPLES {
        values
    } else {
        values.skip(values.len() - BANDWIDTH_SCALE_WINDOW_SAMPLES)
    }
}

/// The reference value that scales a chart: the 85th percentile of the
/// positive values among the most recent 48 (by index into the sorted
/// values), raised to the latest value; zero when no recent value is
/// positive.
pub open spec fn scale_reference(values: Seq<u64>) -> u64 {
    let w = positives(scale_window(values));
    if w.len() == 0 {
        0
    } else {
        let k = ((w.len() - 1) * BANDWIDTH_SCALE_PERCENTILE) / 100;
        let p = sorted_values(w)[k];
        let current = values.last();
        if p >= current {
            p
        } else {
            current
        }
    }
}

proof fn lemma_insert_at(s: Seq<u64>, x: u64, j: int)
    requires
        0 <= j <= s.len(),
        forall|i: int| 0 <= i < j ==> s[i] < x,
        j < s.len() ==> x <= s[j],
    ensures
        insert_sorted(s, x) == s.insert(j, x),
        insert_sorted(s, x).len() == s.len() + 1,
    decreases s.len(),
{
    if s.len() == 0 {
        assert(s.insert(j, x) =~= seq![x]);
    } else if j == 0 {
        assert(s.insert(0, x) =~= seq![x] + s);
    } else {
        lemma_insert_at(s.drop_first(), x, j - 1);
        assert(s.insert(j, x) =~= seq![s[0]] + s.drop_first().insert(j - 1, x));
    }
}

fn insert_in_order(v: &mut Vec<u64>, x: u64)
    ensures
        final(v)@ == insert_sorted(old(v)@, x),
{
    let mut j: usize = 0;
    while j < v.len() && v[j] < x
        invariant
            j <= v@.len(),
            forall|i: int| 0 <= i < j ==> v@[i] < x,
        decreases v@.len() - j,
    {
        j = j + 1;
    }
    proof {
        lemma_insert_at(v@, x, j as int);
    }
    v.insert(j, x);
}

/// The values of a chart series of `(sample number, value)` points.
pub open spec fn series_values(series: Seq<(u64, u64)>) -> Seq<u64> {
    series.map_values(|p: (u64, u64)| p.1)
}

/// Computes the reference value that scales a bandwidth chart from its
/// series of `(sample number, bytes per second)` points, oldest first.
pub fn bandwidth_scale_reference(series: &Vec<(u64, u64)>) -> (r: u64)
    ensures
        r == scale_reference(series_values(series@)),
{
    let ghost values = series_values(series@);
    let n = series.len();
    let start: usize = if n <= BANDWIDTH_SCALE_WINDOW_SAMPLES { 0 } else { n - BANDWIDTH_SCALE_WINDOW_SAMPLES };
    let ghost win = scale_window(values);
    assert(win =~= values.subrange(start as int, n as int));
    let mut w: Vec<u64> = Vec::new();
    let mut sorted: Vec<u64> = Vec::new();
    let mut i: usize = start;
    while i < n
        invariant
            start <= i <= n,
            n == series@.len(),
            values == series_values(series@),
            win == values.subrange(start as int, n as int),
            w@ == positives(win.take(i - start)),
            sorted@ == sorted_values(w@),
            w@.len() <= i - start,
            n - start <= BANDWIDTH_SCALE_WINDOW_SAMPLES,
        decreases n - i,
    {
        proof {
            assert(win.take(i - start + 1).drop_last() =~= win.take(i - start));
            assert(win.take(i - start + 1).last() == values[i as int]);
        }
        let x = series[i].1;
        if x > 0 {
            let ghost before = w@;
            w.push(x);
            insert_in_order(&mut sorted, x);
            proof {
                assert(w@.drop_last() =~= before);
            }
        }
        i = i + 1;
    }
    assert(win.take(n - start) =~= win);
    if w.len() == 0 {
        return 0;
    }
    proof {
        lemma_sorted_len(w@);
    }
    let k = ((w.len() - 1) * BANDWIDTH_SCALE_PERCENTILE) / 100;
    let p = sorted[k];
    let current = series[n - 1].1;
    if p >= current {
        p
    } else {
        current
    }
}

proof fn lemma_sorted_len(w: Seq<u64>)
    ensures
        sorted_values(w).len() == w.len(),
    decreases w.len(),
{
    if w.len() > 0 {
        lemma_sorted_len(w.drop_last());
        lemma_insert_len(sorted_values(w.drop_last()), w.last());
    }
}

proof fn lemma_insert_len(s: Seq<u64>, x: u64)
    ensures
        insert_sorted(s, x).len() == s.len() + 1,
    decreases s.len(),
{
    if s.len() > 0 && x > s[0] {
        lemma_insert_len(s.drop_first(), x);
    }
}

/// The traffic chart's history: `(sample number, bytes per second)` points
/// for each direction, the sample counter, and the peaks.
#[derive(Debug)]
pub struct BandwidthHistory {
    pub tx: Vec<(u64, u64)>,
    pub rx: Vec<(u64, u64)>,
    pub sample_counter: u64,
    pub peaks: Peaks,
}

/// A series with a new point, keeping only the last 60.
pub open spec fn pushed(series: Seq<(u64, u64)>, point: (u64, u64)) -> Seq<(u64, u64)> {
    let s = series.push(point);
    if s.len() > LIVE_CHART_WINDOW_SAMPLES {
        s.drop_first()
    } else {
        s
    }
}

/// Records one sample: both series get a point at the next sample number
/// (the oldest point leaves a full window) and the peaks rise to it.
/// Tells whether the overall peak grew.
pub fn push_bandwidth_sample(h: &mut BandwidthHistory, tx_bps: u64, rx_bps: u64) -> (grew: bool)
    requires
        old(h).sample_counter < u64::MAX,
        old(h).tx@.len() == old(h).rx@.len(),
        old(h).tx@.len() <= LIVE_CHART_WINDOW_SAMPLES,
    ensures
        final(h).sample_counter == old(h).sample_counter + 1,
        final(h).tx@ == pushed(old(h).tx@, (final(h).sample_counter, tx_bps)),
        final(h).rx@ == pushed(old(h).rx@, (final(h).sample_counter, rx_bps)),
        final(h).tx@.len() == final(h).rx@.len(),
        final(h).tx@.len() <= LIVE_CHART_WINDOW_SAMPLES,
        final(h).peaks.tx == max2(old(h).peaks.tx, tx_bps),
        final(h).peaks.rx == max2(old(h).peaks.rx, rx_bps),
        grew == (max2(final(h).peaks.tx, final(h).peaks.rx) > max2(old(h).peaks.tx, old(h).peaks.rx)),
{
    h.sample_counter = h.sample_counter + 1;
    let c = h.sample_counter;
    h.tx.push((c, tx_bps));
    h.rx.push((c, rx_bps));
    let grew = update_peaks(&mut h.peaks, tx_bps, rx_bps);
    if h.tx.len() > LIVE_CHART_WINDOW_SAMPLES {
        h.tx.remove(0);
        h.rx.remove(0);
    }
    grew
}

} // verus!

verus! {

proof fn lemma_positives_last(w: Seq<u64>)
    requires
        w.len() > 0,
        w.last() > 0,
    ensures
        positives(w).len() > 0,
{
}

/// The chart's scale never clips the latest sample: the reference is at
/// least the most recent value.
pub proof fn law_scale_covers_latest(values: Seq<u64>)
    requires
        values.len() > 0,
    ensures
        scale_reference(values) >= values.last(),
{
    let win = scale_window(values);
    assert(win.len() > 0 && win.last() == values.last()) by {
        if values.len() > BANDWIDTH_SCALE_WINDOW_SAMPLES {
            assert(win.last() == values[values.len() - 1]);
        }
    }
    if values.last() > 0 {
        lemma_positives_last(win);
    }
}

/// Ascending order.
pub open spec fn ascending(s: Seq<u64>) -> bool {
    forall|i: int, j: int| 0 <= i < j < s.len() ==> s[i] <= s[j]
}

proof fn lemma_insert_ascending(s: Seq<u64>, x: u64)
    requires
        ascending(s),
    ensures
        ascending(insert_sorted(s, x)),
        forall|i: int| 0 <= i < insert_sorted(s, x).len() ==> (#[trigger] insert_sorted(s, x)[i] == x
            || s.contains(insert_sorted(s, x)[i])),
    decreases s.len(),
{
    lemma_insert_len(s, x);
    if s.len() > 0 && x > s[0] {
        let t = s.drop_first();
        lemma_insert_ascending(t, x);
        lemma_insert_len(t, x);
        let r = insert_sorted(s, x);
        assert(r == seq![s[0]] + insert_sorted(t, x));
        assert forall|i: int| 0 <= i < r.len() implies (#[trigger] r[i] == x || s.contains(r[i])) by {
            if i > 0 {
                let v = insert_sorted(t, x)[i - 1];
                assert(r[i] == v);
                if v != x {
                    let k = choose|k: int| 0 <= k < t.len() && t[k] == v;
                    assert(s[k + 1] == v);
                }
            }
        }
        assert forall|i: int, j: int| 0 <= i < j < r.len() implies r[i] <= r[j] by {
            if i == 0 {
                let v = insert_sorted(t, x)[j - 1];
                if v != x {
                    let k = choose|k: int| 0 <= k < t.len() && t[k] == v;
                    assert(s[0] <= s[k + 1]);
                }
            }
        }
    } else if s.len() > 0 {
        assert(insert_sorted(s, x) =~= seq![x] + s);
        assert forall|i: int| 0 <= i < insert_sorted(s, x).len() implies (#[trigger] insert_sorted(s, x)[i] == x
            || s.contains(insert_sorted(s, x)[i])) by {
            if i > 0 {
                assert(insert_sorted(s, x)[i] == s[i - 1]);
            }
        }
    }
}

proof fn lemma_insert_multiset(s: Seq<u64>, x: u64)
    ensures
        insert_sorted(s, x).to_multiset() =~= s.to_multiset().insert(x),
    decreases s.len(),
{
    broadcast use vstd::seq_lib::to_multiset_build, vstd::seq_lib::to_multiset_insert;
    if s.len() == 0 {
        assert(insert_sorted(s, x) =~= s.push(x));
    } else if x <= s[0] {
        assert(insert_sorted(s, x) =~= s.insert(0, x));
    } else {
        let t = s.drop_first();
        lemma_insert_multiset(t, x);
        assert(insert_sorted(s, x) =~= insert_sorted(t, x).insert(0, s[0]));
        assert(s =~= t.insert(0, s[0]));
        assert(insert_sorted(s, x).to_multiset() =~= t.to_multiset().insert(x).insert(s[0]));
        assert(s.to_multiset() =~= t.to_multiset().insert(s[0]));
        assert(t.to_multiset().insert(x).insert(s[0]) =~= t.to_multiset().insert(s[0]).insert(x));
    }
}

/// The percentile is read from the values themselves, truly in ascending
/// order: the sorted values are a rearrangement of the window's values.
pub proof fn law_sorted_values_ascending(w: Seq<u64>)
    ensures
        ascending(sorted_values(w)),
        sorted_values(w).len() == w.len(),
        sorted_values(w).to_multiset() =~= w.to_multiset(),
    decreases w.len(),
{
    broadcast use vstd::seq_lib::to_multiset_build;
    lemma_sorted_len(w);
    if w.len() > 0 {
        law_sorted_values_ascending(w.drop_last());
        lemma_insert_ascending(sorted_values(w.drop_last()), w.last());
        lemma_insert_multiset(sorted_values(w.drop_last()), w.last());
        assert(w =~= w.drop_last().push(w.last()));
    } else {
        assert(sorted_values(w) =~= w);
    }
}

} // verus!

// ── Dashboard screen ─────────────────────────────────────────────────

verus! {

/// How often (ms) the live traffic chart records a sample.
pub const LIVE_CHART_SAMPLE_INTERVAL_MS: u64 = 1000;

/// Events kept on the dashboard.
pub const DASHBOARD_EVENT_CAP: usize = 100;

/// The dashboard's state: the latest data it shows, the traffic chart and
/// the throughput readings it samples from. Times are ms on a monotonic
/// clock. `N` is the network record and `E` the event record type.
#[derive(Debug)]
pub struct DashboardScreen<N, E> {
    pub focused: bool,
    pub devices: Vec<Device>,
    pub clients: Vec<Client>,
    pub networks: Vec<N>,
    pub events: Vec<E>,
    pub health: Vec<HealthSummary>,
    pub history: BandwidthHistory,
    pub device_bandwidth: Option<BandwidthSample>,
    pub health_bandwidth: Option<BandwidthSample>,
    pub last_chart_sample_ms: Option<u64>,
    pub last_data_update_ms: Option<u64>,
}

/// What the dashboard is told.
#[derive(Debug)]
pub enum DashboardAction<N, E> {
    /// The periodic tick.
    Tick,
    DevicesUpdated(Vec<Device>),
    ClientsUpdated(Vec<Client>),
    NetworksUpdated(Vec<N>),
    EventReceived(E),
    HealthUpdated(Vec<HealthSummary>),
    /// Any action the dashboard does not handle.
    Other,
}

/// The first gateway among the devices.
pub open spec fn first_gateway(devs: Seq<Device>) -> Option<Device>
    decreases devs.len(),
{
    if devs.len() == 0 {
        None
    } else if devs[0].device_type == DeviceType::Gateway {
        Some(devs[0])
    } else {
        first_gateway(devs.drop_first())
    }
}

/// The uplink throughput of the first gateway, if it reports one.
pub open spec fn gateway_bandwidth(devs: Seq<Device>) -> Option<Bandwidth> {
    match first_gateway(devs) {
        Some(d) => d.stats.uplink_bandwidth,
        None => None,
    }
}

/// The health summary of the first `wan` subsystem.
pub open spec fn first_wan(hs: Seq<HealthSummary>) -> Option<HealthSummary>
    decreases hs.len(),
{
    if hs.len() == 0 {
        None
    } else if hs[0].subsystem@ == "wan"@ {
        Some(hs[0])
    } else {
        first_wan(hs.drop_first())
    }
}

/// A rate, zero when not reported.
pub open spec fn rate_or_zero(r: Option<u64>) -> u64 {
    match r {
        Some(v) => v,
        None => 0,
    }
}

/// The WAN throughput of the health summaries (missing rates read zero).
pub open spec fn wan_rates(hs: Seq<HealthSummary>) -> Option<(u64, u64)> {
    match first_wan(hs) {
        Some(h) => Some((rate_or_zero(h.tx_bytes_r), rate_or_zero(h.rx_bytes_r))),
        None => None,
    }
}

/// A reading taken at `now`.
pub open spec fn reading_at(rates: Option<(u64, u64)>, now: u64) -> Option<BandwidthSample> {
    match rates {
        Some((tx, rx)) => Some(BandwidthSample { tx_bps: tx, rx_bps: rx, captured_at_ms: now }),
        None => None,
    }
}

/// The rates of a gateway throughput.
pub open spec fn bandwidth_rates(b: Option<Bandwidth>) -> Option<(u64, u64)> {
    match b {
        Some(bw) => Some((bw.tx_bytes_per_sec, bw.rx_bytes_per_sec)),
        None => None,
    }
}

/// The peaks raised to a reading.
pub open spec fn raised(p: Peaks, tx: u64, rx: u64) -> Peaks {
    Peaks { tx: max2(p.tx, tx), rx: max2(p.rx, rx) }
}

/// The overall peak.
pub open spec fn peak_of(p: Peaks) -> u64 {
    max2(p.tx, p.rx)
}

/// The state after the current throughput was offered to the peaks.
pub open spec fn peaks_offered<N, E>(s: DashboardScreen<N, E>) -> DashboardScreen<N, E> {
    match current_of(s.device_bandwidth, s.health_bandwidth) {
        Some((tx, rx)) => DashboardScreen {
            history: BandwidthHistory { peaks: raised(s.history.peaks, tx, rx), ..s.history },
            ..s
        },
        None => s,
    }
}

/// The signal after new data: a focused dashboard whose overall peak grew
/// plays the peak effect.
pub open spec fn data_signal<N, E>(before: Peaks, s: DashboardScreen<N, E>) -> Option<TickSignal> {
    match current_of(s.device_bandwidth, s.health_bandwidth) {
        Some((tx, rx)) => if s.focused && peak_of(raised(before, tx, rx)) > peak_of(before) {
            Some(TickSignal::ChartPeak)
        } else {
            None
        },
        None => None,
    }
}

/// The event list with a new event, keeping only the last 100.
pub open spec fn events_with<E>(events: Seq<E>, e: E) -> Seq<E> {
    let s = events.push(e);
    if s.len() > DASHBOARD_EVENT_CAP {
        s.drop_first()
    } else {
        s
    }
}

/// The chart holds two series of equal length, at most a window long, and
/// the sample counter can still advance.
pub open spec fn chart_ok(h: BandwidthHistory) -> bool {
    &&& h.tx@.len() == h.rx@.len()
    &&& h.tx@.len() <= LIVE_CHART_WINDOW_SAMPLES
    &&& h.sample_counter < u64::MAX
}

/// The history `after` is `before` with one sample of `(tx, rx)` recorded.
pub open spec fn sample_recorded(before: BandwidthHistory, after: BandwidthHistory, tx: u64, rx: u64) -> bool {
    &&& after.sample_counter == before.sample_counter + 1
    &&& after.tx@ == pushed(before.tx@, (after.sample_counter, tx))
    &&& after.rx@ == pushed(before.rx@, (after.sample_counter, rx))
    &&& after.peaks == raised(before.peaks, tx, rx)
}

/// The age of the shown data as the title bar reads it, from the seconds
/// since the last update.
pub open spec fn age_text(elapsed_secs: Option<nat>) -> Seq<char> {
    match elapsed_secs {
        None => "no data"@,
        Some(secs) => if secs < 5 {
            "just now"@
        } else if secs < 60 {
            decimal(secs) + "s ago"@
        } else {
            decimal(secs / 60) + "m ago"@
        },
    }
}

/// Time (ms) from `at` to `now`, zero when `at` lies ahead.
pub open spec fn ms_since(now: u64, at: u64) -> nat {
    if now >= at {
        (now - at) as nat
    } else {
        0
    }
}

fn gateway_bandwidth_of(devs: &Vec<Device>) -> (r: Option<Bandwidth>)
    ensures
        r == gateway_bandwidth(devs@),
{
    let mut i: usize = 0;
    assert(devs@.skip(0) =~= devs@);
    while i < devs.len()
        invariant
            i <= devs@.len(),
            first_gateway(devs@) == first_gateway(devs@.skip(i as int)),
        decreases devs@.len() - i,
    {
        proof {
            assert(devs@.skip(i as int).drop_first() =~= devs@.skip(i + 1));
            assert(devs@.skip(i as int)[0] == devs@[i as int]);
        }
        if devs[i].device_type == DeviceType::Gateway {
            return devs[i].stats.uplink_bandwidth;
        }
        i = i + 1;
    }
    assert(devs@.skip(i as int) =~= Seq::<Device>::empty());
    None
}

fn wan_rates_of(hs: &Vec<HealthSummary>) -> (r: Option<(u64, u64)>)
    ensures
        r == wan_rates(hs@),
{
    let mut i: usize = 0;
    assert(hs@.skip(0) =~= hs@);
    while i < hs.len()
        invariant
            i <= hs@.len(),
            first_wan(hs@) == first_wan(hs@.skip(i as int)),
        decreases hs@.len() - i,
    {
        proof {
            assert(hs@.skip(i as int).drop_first() =~= hs@.skip(i + 1));
            assert(hs@.skip(i as int)[0] == hs@[i as int]);
        }
        if str_is(hs[i].subsystem.as_str(), "wan") {
            let tx = match hs[i].tx_bytes_r {
                Some(v) => v,
                None => 0,
            };
            let rx = match hs[i].rx_bytes_r {
                Some(v) => v,
                None => 0,
            };
            return Some((tx, rx));
        }
        i = i + 1;
    }
    assert(hs@.skip(i as int) =~= Seq::<HealthSummary>::empty());
    None
}

impl<N, E> DashboardScreen<N, E> {
    /// An unfocused dashboard with no data and an empty chart.
    pub fn new() -> (s: Self)
        ensures
            !s.focused,
            s.devices@.len() == 0,
            s.clients@.len() == 0,
            s.networks@.len() == 0,
            s.events@.len() == 0,
            s.health@.len() == 0,
            s.history.tx@.len() == 0,
            s.history.rx@.len() == 0,
            s.history.sample_counter == 0,
            s.history.peaks == (Peaks { tx: 0, rx: 0 }),
            s.device_bandwidth is None,
            s.health_bandwidth is None,
            s.last_chart_sample_ms is None,
            s.last_data_update_ms is None,
    {
        DashboardScreen {
            focused: false,
            devices: Vec::new(),
            clients: Vec::new(),
            networks: Vec::new(),
            events: Vec::new(),
            health: Vec::new(),
            history: BandwidthHistory { tx: Vec::new(), rx: Vec::new(), sample_counter: 0, peaks: Peaks { tx: 0, rx: 0 } },
            device_bandwidth: None,
            health_bandwidth: None,
            last_chart_sample_ms: None,
            last_data_update_ms: None,
        }
    }

    /// The throughput to chart: the more recent of the gateway reading and
    /// the WAN health reading, the health reading winning a tie.
    pub fn current_bandwidth(&self) -> (r: Option<(u64, u64)>)
        ensures
            r == current_of(self.device_bandwidth, self.health_bandwidth),
    {
        match (self.device_bandwidth, self.health_bandwidth) {
            (Some(d), Some(h)) => if h.captured_at_ms >= d.captured_at_ms {
                Some((h.tx_bps, h.rx_bps))
            } else {
                Some((d.tx_bps, d.rx_bps))
            },
            (Some(d), None) => Some((d.tx_bps, d.rx_bps)),
            (None, Some(h)) => Some((h.tx_bps, h.rx_bps)),
            (None, None) => None,
        }
    }

    /// The age of the shown data for the title bar: "no data", "just now"
    /// under 5 s, seconds under a minute, whole minutes beyond.
    pub fn refresh_age_str(&self, now_ms: u64) -> (s: String)
        ensures
            s@ == age_text(match self.last_data_update_ms {
                Some(t) => Some(ms_since(now_ms, t) / 1000),
                None => None,
            }),
    {
        match self.last_data_update_ms {
            None => String::from_str("no data"),
            Some(t) => {
                let secs = (if now_ms >= t { now_ms - t } else { 0 }) / 1000;
                if secs < 5 {
                    String::from_str("just now")
                } else if secs < 60 {
                    let n = decimal_string(secs);
                    concat2(n.as_str(), "s ago")
                } else {
                    let n = decimal_string(secs / 60);
                    concat2(n.as_str(), "m ago")
                }
            },
        }
    }

    /// Takes a chart sample of the current throughput if one is due and a
    /// reading exists; tells whether the overall peak grew (`None`: no
    /// sample taken, nothing changed).
    pub fn sample_bandwidth_if_due(&mut self, now_ms: u64) -> (r: Option<bool>)
        requires
            chart_ok(old(self).history),
        ensures
            final(self).history.tx@.len() == final(self).history.rx@.len(),
            final(self).history.tx@.len() <= LIVE_CHART_WINDOW_SAMPLES,
            !sample_is_due(old(self).last_chart_sample_ms, now_ms, LIVE_CHART_SAMPLE_INTERVAL_MS)
                || current_of(old(self).device_bandwidth, old(self).health_bandwidth) is None
                ==> r is None && *final(self) == *old(self),
            match current_of(old(self).device_bandwidth, old(self).health_bandwidth) {
                Some((tx, rx)) => sample_is_due(old(self).last_chart_sample_ms, now_ms, LIVE_CHART_SAMPLE_INTERVAL_MS) ==> {
                    &&& sample_recorded(old(self).history, final(self).history, tx, rx)
                    &&& r == Some(peak_of(raised(old(self).history.peaks, tx, rx)) > peak_of(old(self).history.peaks))
                    &&& *final(self) == (DashboardScreen {
                        history: final(self).history,
                        last_chart_sample_ms: Some(now_ms),
                        ..*old(self)
                    })
                },
                None => true,
            },
    {
        if !sample_due(self.last_chart_sample_ms, now_ms, LIVE_CHART_SAMPLE_INTERVAL_MS) {
            return None;
        }
        let (tx, rx) = match self.current_bandwidth() {
            Some(c) => c,
            None => return None,
        };
        let grew = push_bandwidth_sample(&mut self.history, tx, rx);
        self.last_chart_sample_ms = Some(now_ms);
        Some(grew)
    }

    /// Offers the current throughput to the peaks; a focused dashboard
    /// whose overall peak grew asks for the peak effect.
    fn offer_current_to_peaks(&mut self) -> (signal: Option<TickSignal>)
        ensures
            *final(self) == peaks_offered(*old(self)),
            signal == data_signal(old(self).history.peaks, *old(self)),
    {
        match self.current_bandwidth() {
            Some((tx, rx)) => {
                let grew = update_peaks(&mut self.history.peaks, tx, rx);
                if grew && self.focused {
                    Some(TickSignal::ChartPeak)
                } else {
                    None
                }
            },
            None => None,
        }
    }

    /// Applies an action to the dashboard and tells what it asks of the
    /// application. A tick samples the chart when due and, on a focused
    /// dashboard, asks for the peak effect or a redraw; new devices or
    /// health data replace the gateway or WAN reading and raise the peaks;
    /// events are kept up to the last 100; other data is stored as given.
    pub fn apply_action(&mut self, action: DashboardAction<N, E>, now_ms: u64) -> (signal: Option<TickSignal>)
        requires
            chart_ok(old(self).history),
        ensures
            final(self).history.tx@.len() == final(self).history.rx@.len(),
            final(self).history.tx@.len() <= LIVE_CHART_WINDOW_SAMPLES,
            old(self).events@.len() <= DASHBOARD_EVENT_CAP ==> final(self).events@.len() <= DASHBOARD_EVENT_CAP,
            final(self).history.peaks.tx >= old(self).history.peaks.tx,
            final(self).history.peaks.rx >= old(self).history.peaks.rx,
            !old(self).focused ==> signal is None,
            final(self).focused == old(self).focused,
            match action {
                DashboardAction::Tick => match current_of(old(self).device_bandwidth, old(self).health_bandwidth) {
                    Some((tx, rx)) => if sample_is_due(old(self).last_chart_sample_ms, now_ms, LIVE_CHART_SAMPLE_INTERVAL_MS) {
                        &&& sample_recorded(old(self).history, final(self).history, tx, rx)
                        &&& *final(self) == (DashboardScreen {
                            history: final(self).history,
                            last_chart_sample_ms: Some(now_ms),
                            ..*old(self)
                        })
                        &&& signal == tick_outcome(
                            old(self).focused,
                            Some(peak_of(raised(old(self).history.peaks, tx, rx)) > peak_of(old(self).history.peaks)),
                            true,
                        )
                    } else {
                        &&& *final(self) == *old(self)
                        &&& signal == tick_outcome(old(self).focused, None, old(self).history.tx@.len() > 0)
                    },
                    None => {
                        &&& *final(self) == *old(self)
                        &&& signal == tick_outcome(old(self).focused, None, old(self).history.tx@.len() > 0)
                    },
                },
                DashboardAction::DevicesUpdated(devs) => {
                    let s1 = DashboardScreen {
                        devices: devs,
                        device_bandwidth: reading_at(bandwidth_rates(gateway_bandwidth(devs@)), now_ms),
                        last_data_update_ms: Some(now_ms),
                        ..*old(self)
                    };
                    &&& *final(self) == peaks_offered(s1)
                    &&& signal == data_signal(old(self).history.peaks, s1)
                },
                DashboardAction::HealthUpdated(hs) => {
                    let s1 = DashboardScreen {
                        health: hs,
                        health_bandwidth: reading_at(wan_rates(hs@), now_ms),
                        last_data_update_ms: Some(now_ms),
                        ..*old(self)
                    };
                    &&& *final(self) == peaks_offered(s1)
                    &&& signal == data_signal(old(self).history.peaks, s1)
                },
                DashboardAction::ClientsUpdated(c) => {
                    &&& *final(self) == (DashboardScreen { clients: c, ..*old(self) })
                    &&& signal is None
                },
                DashboardAction::NetworksUpdated(n) => {
                    &&& *final(self) == (DashboardScreen { networks: n, ..*old(self) })
                    &&& signal is None
                },
                DashboardAction::EventReceived(e) => {
                    &&& final(self).events@ == events_with(old(self).events@, e)
                    &&& *final(self) == (DashboardScreen { events: final(self).events, ..*old(self) })
                    &&& signal is None
                },
                DashboardAction::Other => {
                    &&& *final(self) == *old(self)
                    &&& signal is None
                },
            },
    {
        match action {
            DashboardAction::Tick => {
                let sampled = self.sample_bandwidth_if_due(now_ms);
                let has_history = self.history.tx.len() > 0;
                tick_signal(self.focused, sampled, has_history)
            },
            DashboardAction::DevicesUpdated(devs) => {
                let bw = gateway_bandwidth_of(&devs);
                self.devices = devs;
                self.last_data_update_ms = Some(now_ms);
                self.device_bandwidth = match bw {
                    Some(b) => Some(BandwidthSample { tx_bps: b.tx_bytes_per_sec, rx_bps: b.rx_bytes_per_sec, captured_at_ms: now_ms }),
                    None => None,
                };
                self.offer_current_to_peaks()
            },
            DashboardAction::HealthUpdated(hs) => {
                let rates = wan_rates_of(&hs);
                self.health = hs;
                self.last_data_update_ms = Some(now_ms);
                self.health_bandwidth = match rates {
                    Some((tx, rx)) => Some(BandwidthSample { tx_bps: tx, rx_bps: rx, captured_at_ms: now_ms }),
                    None => None,
                };
                self.offer_current_to_peaks()
            },
            DashboardAction::ClientsUpdated(c) => {
                self.clients = c;
                None
            },
            DashboardAction::NetworksUpdated(n) => {
                self.networks = n;
                None
            },
            DashboardAction::EventReceived(e) => {
                let ghost before = self.events@;
                self.events.push(e);
                if self.events.len() > DASHBOARD_EVENT_CAP {
                    self.events.remove(0);
                    assert(self.events@ =~= before.push(e).drop_first());
                }
                None
            },
            DashboardAction::Other => None,
        }
    }
}

} // verus!
