//! Records of the controller's Session API, as the library reads them.
//!
//! Decoding JSON into these records is the caller's work (the records carry
//! no serde derives here); the lenient readings of scalars that the
//! controller sends in several shapes are provided in `lenient`.

use vstd::prelude::*;

verus! {

/// Standard session API response envelope: `{ "meta": {...}, "data": [...] }`.
#[derive(Debug)]
pub struct SessionResponse<T> {
    pub meta: Meta,
    pub data: Vec<T>,
}

/// Metadata from the session envelope. `rc == "ok"` means success.
#[derive(Debug)]
pub struct Meta {
    pub rc: String,
    pub msg: Option<String>,
}

/// Uplink summary nested inside a session device record.
#[derive(Debug, Clone, Default)]
pub struct SessionUplink {
    pub uplink_mac: Option<String>,
    pub uplink_remote_port: Option<u32>,
}

/// WAN block nested inside a session device record; only IPv6 is retained,
/// as the string items of the JSON value (a lone value counts as a one-item
/// list, and an item that is no string is `None`).
#[derive(Debug, Clone, Default)]
pub struct SessionWan {
    pub ipv6: Option<Vec<Option<String>>>,
}

/// One row of a device's `port_table`.
#[derive(Debug, Clone, Default)]
pub struct SessionPortEntry {
    pub port_idx: Option<u32>,
    pub up: Option<bool>,
    pub name: Option<String>,
    pub speed: Option<u32>,
    /// `"GE"`, `"FE"`, `"SFP"`, `"SFP+"`.
    pub media: Option<String>,
    pub port_poe: Option<bool>,
    pub poe_caps: Option<u64>,
    pub poe_enable: Option<bool>,
    pub poe_good: Option<bool>,
}

/// One row of a device's `radio_table`.
#[derive(Debug, Clone, Default)]
pub struct SessionRadioEntry {
    /// Band token: `"ng"`, `"na"`, `"6e"`.
    pub radio: Option<String>,
    pub channel: Option<u32>,
    /// Channel width in MHz, sent as a string (`"20"`, `"40"`, `"80"`).
    pub ht: Option<String>,
}

/// One row of a device's `radio_table_stats` (the band and its channel).
#[derive(Debug, Clone, Default)]
pub struct SessionRadioStats {
    pub radio: Option<String>,
    pub channel: Option<u32>,
}

/// System statistics nested inside a session device record.
#[derive(Debug, Clone)]
pub struct SysStats {
    pub load_1: Option<String>,
    pub load_5: Option<String>,
    pub load_15: Option<String>,
    pub mem_total: Option<i64>,
    pub mem_used: Option<i64>,
    pub cpu: Option<String>,
}

/// Device record from `stat/device` (the fields the library reads).
#[derive(Debug, Clone)]
pub struct SessionDevice {
    pub id: String,
    pub mac: String,
    pub device_type: String,
    pub ip: Option<String>,
    pub name: Option<String>,
    pub model: Option<String>,
    pub version: Option<String>,
    pub adopted: bool,
    /// 0=offline, 1=online, 2=pending, 4=upgrading, 5=provisioning
    pub state: i32,
    pub sys_stats: Option<SysStats>,
    pub uptime: Option<i64>,
    pub num_sta: Option<i32>,
    pub serial: Option<String>,
    pub site_id: Option<String>,
    pub last_seen: Option<i64>,
    pub upgradable: Option<bool>,
    pub user_num_sta: Option<i32>,
    pub guest_num_sta: Option<i32>,
    pub uplink: Option<SessionUplink>,
    pub wan1: Option<SessionWan>,
    /// Device-level IPv6 address(es), read as for `SessionWan::ipv6`.
    pub ipv6: Option<Vec<Option<String>>>,
    pub port_table: Vec<SessionPortEntry>,
    pub radio_table: Vec<SessionRadioEntry>,
    pub radio_table_stats: Vec<SessionRadioStats>,
}

/// Connected client from `stat/sta`.
#[derive(Debug, Clone)]
pub struct SessionClientEntry {
    pub id: String,
    pub mac: String,
    pub hostname: Option<String>,
    pub ip: Option<String>,
    pub oui: Option<String>,
    pub name: Option<String>,
    pub is_guest: Option<bool>,
    pub is_wired: Option<bool>,
    pub authorized: Option<bool>,
    pub blocked: Option<bool>,
    pub signal: Option<i32>,
    pub tx_bytes: Option<i64>,
    pub rx_bytes: Option<i64>,
    pub tx_rate: Option<i64>,
    pub rx_rate: Option<i64>,
    pub uptime: Option<i64>,
    pub first_seen: Option<i64>,
    pub last_seen: Option<i64>,
    pub site_id: Option<String>,
    pub essid: Option<String>,
    pub bssid: Option<String>,
    pub channel: Option<i32>,
    pub radio: Option<String>,
    pub rssi: Option<i32>,
    pub noise: Option<i32>,
    pub satisfaction: Option<i32>,
    pub ap_mac: Option<String>,
    pub network: Option<String>,
    pub network_id: Option<String>,
    pub sw_mac: Option<String>,
    pub sw_port: Option<i32>,
}

/// User object from `rest/user` (known clients and DHCP reservations).
#[derive(Debug, Clone)]
pub struct SessionUserEntry {
    pub id: String,
    pub mac: String,
    pub name: Option<String>,
    pub hostname: Option<String>,
    pub use_fixedip: Option<bool>,
    pub fixed_ip: Option<String>,
    pub network_id: Option<String>,
    pub site_id: Option<String>,
    pub noted: Option<bool>,
    pub note: Option<String>,
}

/// A JSON value, carried through unread.
#[verifier::external_type_specification]
#[verifier::external_body]
pub struct ExJsonValue(serde_json::Value);

/// A JSON object, carried through unread.
#[verifier::external_type_specification]
#[verifier::external_body]
#[verifier::reject_recursive_types(K)]
#[verifier::reject_recursive_types(V)]
pub struct ExJsonMap<K, V>(serde_json::Map<K, V>);

/// Site object from `/api/self/sites`.
#[derive(Debug)]
pub struct SessionSite {
    pub id: String,
    pub name: String,
    pub desc: Option<String>,
    pub role: Option<String>,
    /// Catch-all for undocumented fields.
    pub extra: serde_json::Map<String, serde_json::Value>,
}

/// Event object from `stat/event`.
#[derive(Debug)]
pub struct SessionEvent {
    pub id: String,
    pub key: Option<String>,
    pub msg: Option<String>,
    pub datetime: Option<String>,
    pub subsystem: Option<String>,
    pub site_id: Option<String>,
    /// Catch-all for undocumented fields.
    pub extra: serde_json::Map<String, serde_json::Value>,
}

/// Alarm object from `stat/alarm`.
#[derive(Debug)]
pub struct SessionAlarm {
    pub id: String,
    pub key: Option<String>,
    pub msg: Option<String>,
    pub datetime: Option<String>,
    pub archived: Option<bool>,
    /// Catch-all for undocumented fields.
    pub extra: serde_json::Map<String, serde_json::Value>,
}

/// Neighboring / rogue access point from `stat/rogueap`, as seen by one of
/// the site's access points (`ap_mac`).
#[derive(Debug)]
pub struct RogueAp {
    pub bssid: String,
    pub essid: Option<String>,
    pub channel: Option<i32>,
    pub freq: Option<i32>,
    pub signal: Option<i32>,
    pub rssi: Option<i32>,
    pub noise: Option<i32>,
    pub security: Option<String>,
    pub radio: Option<String>,
    pub age: Option<i64>,
    pub is_rogue: bool,
    pub ap_mac: Option<String>,
    /// Catch-all for undocumented fields.
    pub extra: serde_json::Map<String, serde_json::Value>,
}

/// Country-level regulatory channel data from `stat/current-channel`: one
/// record per country with per-band channel lists.
#[derive(Debug)]
pub struct ChannelAvailability {
    /// ISO 3166-1 numeric country code (e.g. `"840"` for the US).
    pub code: Option<String>,
    /// Two-letter country key (e.g. `"US"`).
    pub key: Option<String>,
    pub name: Option<String>,
    /// 2.4 GHz channels.
    pub channels_ng: Option<Vec<i32>>,
    /// 5 GHz channels.
    pub channels_na: Option<Vec<i32>>,
    /// 5 GHz DFS channels.
    pub channels_na_dfs: Option<Vec<i32>>,
    /// 6 GHz channels.
    pub channels_6e: Option<Vec<i32>>,
    /// Catch-all for width-specific lists, AFC data, etc.
    pub extra: serde_json::Map<String, serde_json::Value>,
}

} // verus!

// ── Lenient readings of scalar texts ────────────────────────────────

verus! {

/// The boolean a lenient text names: `true`/`1`/`yes` or `false`/`0`/`no`,
/// ignoring surrounding white space and ASCII case.
pub open spec fn lenient_bool_of(text: Seq<char>) -> Option<bool> {
    let t = crate::text::ascii_fold(crate::text::trim(text));
    if t == "true"@ || t == "1"@ || t == "yes"@ {
        Some(true)
    } else if t == "false"@ || t == "0"@ || t == "no"@ {
        Some(false)
    } else {
        None
    }
}

fn fold_chars(s: &Vec<char>) -> (r: Vec<char>)
    ensures
        r@ == crate::text::ascii_fold(s@),
{
    let mut r: Vec<char> = Vec::new();
    let mut i: usize = 0;
    while i < s.len()
        invariant
            i <= s@.len(),
            r@ == crate::text::ascii_fold(s@.take(i as int)),
        decreases s@.len() - i,
    {
        r.push(crate::text::ascii_lower(s[i]));
        i = i + 1;
        assert(r@ =~= crate::text::ascii_fold(s@.take(i as int)));
    }
    assert(s@.take(s@.len() as int) =~= s@);
    r
}

/// Reads a boolean sent as text, as the controller's lenient fields allow.
pub fn lenient_bool_text(text: &str) -> (r: Option<bool>)
    ensures
        r == lenient_bool_of(text@),
{
    let t = fold_chars(&crate::text::trim_chars(&crate::text::chars_of(text)));
    let is = |lit: &str| -> (b: bool)
        ensures
            b == (t@ == lit@),
        { crate::text::chars_eq(&t, &crate::text::chars_of(lit)) };
    if is("true") || is("1") || is("yes") {
        Some(true)
    } else if is("false") || is("0") || is("no") {
        Some(false)
    } else {
        None
    }
}

/// Reads a `u64` sent as text: the trimmed text as `str::parse::<u64>`
/// reads it.
pub fn lenient_u64_text(text: &str) -> (r: Option<u64>)
    ensures
        match crate::text::parse_unsigned(crate::text::trim(text@), u64::MAX as nat) {
            Some(v) => r == Some(v as u64),
            None => r is None,
        },
{
    let t = crate::text::trim_chars(&crate::text::chars_of(text));
    crate::text::parse_unsigned_chars(&t, u64::MAX)
}

/// Narrows a lenient `u64` reading to `u32`, dropping values that do not
/// fit.
pub fn lenient_u32_of(v: Option<u64>) -> (r: Option<u32>)
    ensures
        r == match v {
            Some(x) => if x <= u32::MAX as u64 {
                Some(x as u32)
            } else {
                None
            },
            None => None,
        },
{
    match v {
        Some(x) => if x <= u32::MAX as u64 { Some(x as u32) } else { None },
        None => None,
    }
}

} // verus!
