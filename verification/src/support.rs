//! Helpers of the controller layer: picking a device's public IPv6, TLS
//! settings, and the errors for unavailable operations.

use vstd::prelude::*;

use crate::error::CoreError;
use crate::model::HealthSummary;
use crate::net::{ip_display, ip_text, ipv6_parse, is_link_local, is_unicast_link_local, parse_ipv6, IpAddress};
use crate::session::opt_view;
use crate::text::{chars_of, string_from_chars, trim, trim_chars};

verus! {

/// `s` up to its first occurrence of `c` (all of `s` when `c` is absent),
/// as `str::split(c).next()` gives it.
pub open spec fn before_first(s: Seq<char>, c: char) -> Seq<char> {
    if exists|i: int| 0 <= i < s.len() && s[i] == c {
        s.take(choose|i: int| crate::session::first_at(s, c, i))
    } else {
        s
    }
}

/// The candidate text of an IPv6 field: trimmed, cut at the first `/`
/// (dropping a prefix length), and trimmed again.
pub open spec fn ipv6_candidate(raw: Seq<char>) -> Seq<char> {
    trim(before_first(trim(raw), '/'))
}

fn before_first_chars(s: &Vec<char>, c: char) -> (r: Vec<char>)
    ensures
        r@ == before_first(s@, c),
{
    let mut out: Vec<char> = Vec::new();
    let mut i: usize = 0;
    while i < s.len()
        invariant
            i <= s@.len(),
            out@ == s@.take(i as int),
            forall|j: int| 0 <= j < i ==> s@[j] != c,
        decreases s@.len() - i,
    {
        if s[i] == c {
            proof {
                assert(crate::session::first_at(s@, c, i as int));
                let k = choose|k: int| crate::session::first_at(s@, c, k);
                assert(crate::session::first_at(s@, c, k));
                assert(k == i);
                assert(s@[i as int] == c);
            }
            return out;
        }
        out.push(s[i]);
        i = i + 1;
        assert(out@ =~= s@.take(i as int));
    }
    assert(s@.take(s@.len() as int) =~= s@);
    out
}

/// Reads an IPv6 address from a field's text, ignoring surrounding white
/// space and a `/prefix` suffix.
pub fn parse_ipv6_text(raw: &str) -> (r: Option<u128>)
    ensures
        r == ipv6_parse(ipv6_candidate(raw@)),
{
    let t = trim_chars(&chars_of(raw));
    let head = before_first_chars(&t, '/');
    let cand = trim_chars(&head);
    let text = string_from_chars(&cand);
    parse_ipv6(text.as_str())
}

/// The IPv6 address read from item `i`, if it is a string holding one.
pub open spec fn item_ipv6(items: Seq<Option<String>>, i: int) -> Option<u128> {
    match items[i] {
        Some(t) => ipv6_parse(ipv6_candidate(t@)),
        None => None,
    }
}

/// Item `i` holds an IPv6 address that is (`global`) or is not link-local.
pub open spec fn item_kind(items: Seq<Option<String>>, i: int, global: bool) -> bool {
    item_ipv6(items, i) matches Some(a) && is_link_local(a) != global
}

/// `i` is the first item of the given kind.
pub open spec fn first_of_kind(items: Seq<Option<String>>, i: int, global: bool) -> bool {
    &&& 0 <= i < items.len()
    &&& item_kind(items, i, global)
    &&& forall|j: int| 0 <= j < i ==> !item_kind(items, j, global)
}

/// The address picked from a field's items: the first address that is not
/// link-local, else the first link-local one.
pub open spec fn picked_ipv6(items: Seq<Option<String>>) -> Option<u128> {
    if exists|i: int| first_of_kind(items, i, true) {
        item_ipv6(items, choose|i: int| first_of_kind(items, i, true))
    } else if exists|i: int| first_of_kind(items, i, false) {
        item_ipv6(items, choose|i: int| first_of_kind(items, i, false))
    } else {
        None
    }
}

/// The text of the picked address, as `Ipv6Addr`'s `Display` writes it.
pub open spec fn picked_text(items: Seq<Option<String>>) -> Option<Seq<char>> {
    match picked_ipv6(items) {
        Some(a) => Some(ip_display(IpAddress::V6(a))),
        None => None,
    }
}

proof fn lemma_first_unique(items: Seq<Option<String>>, i: int, j: int, global: bool)
    requires
        first_of_kind(items, i, global),
        first_of_kind(items, j, global),
    ensures
        i == j,
{
}

proof fn lemma_exists_first(items: Seq<Option<String>>, i: int, global: bool)
    requires
        0 <= i < items.len(),
        item_kind(items, i, global),
    ensures
        exists|k: int| first_of_kind(items, k, global),
    decreases i,
{
    if forall|j: int| 0 <= j < i ==> !item_kind(items, j, global) {
        assert(first_of_kind(items, i, global));
    } else {
        let j = choose|j: int| 0 <= j < i && item_kind(items, j, global);
        lemma_exists_first(items, j, global);
    }
}

/// Picks the public IPv6 of a field's items (a lone string counts as one
/// item): the first address that is not link-local, else the first
/// link-local one, in `Ipv6Addr`'s display form.
pub fn pick_ipv6_from_value(items: &Vec<Option<String>>) -> (r: Option<String>)
    ensures
        opt_view(r) == picked_text(items@),
{
    let ghost s = items@;
    let mut first_link_local: Option<u128> = None;
    let ghost mut ll_at: int = -1;
    let mut i: usize = 0;
    while i < items.len()
        invariant
            s == items@,
            i <= s.len(),
            forall|j: int| 0 <= j < i ==> !item_kind(s, j, true),
            match first_link_local {
                None => forall|j: int| 0 <= j < i ==> !item_kind(s, j, false),
                Some(a) => first_of_kind(s, ll_at, false) && ll_at < i && item_ipv6(s, ll_at) == Some(a),
            },
        decreases s.len() - i,
    {
        let parsed = match &items[i] {
            Some(t) => parse_ipv6_text(t.as_str()),
            None => None,
        };
        assert(parsed == item_ipv6(s, i as int));
        if let Some(a) = parsed {
            if !is_unicast_link_local(a) {
                proof {
                    assert(first_of_kind(s, i as int, true));
                    let k = choose|k: int| first_of_kind(s, k, true);
                    lemma_first_unique(s, k, i as int, true);
                }
                return Some(ip_text(&IpAddress::V6(a)));
            }
            if first_link_local.is_none() {
                proof {
                    ll_at = i as int;
                }
                first_link_local = Some(a);
            }
        }
        i = i + 1;
    }
    assert(!exists|k: int| first_of_kind(s, k, true));
    match first_link_local {
        Some(a) => {
            proof {
                let k = choose|k: int| first_of_kind(s, k, false);
                lemma_first_unique(s, k, ll_at, false);
            }
            Some(ip_text(&IpAddress::V6(a)))
        },
        None => {
            proof {
                if exists|k: int| first_of_kind(s, k, false) {
                    let k = choose|k: int| first_of_kind(s, k, false);
                    assert(item_kind(s, k, false));
                }
            }
            None
        },
    }
}

/// The public IPv6 of a session device record: picked from `wan1.ipv6`
/// first, then from the top-level `ipv6` field.
pub open spec fn device_wan_ipv6(
    wan1_ipv6: Option<Seq<Option<String>>>,
    ipv6: Option<Seq<Option<String>>>,
) -> Option<Seq<char>> {
    let from_wan = match wan1_ipv6 {
        Some(items) => picked_text(items),
        None => None,
    };
    if from_wan is Some {
        from_wan
    } else {
        match ipv6 {
            Some(items) => picked_text(items),
            None => None,
        }
    }
}

/// The item views of an optional field.
pub open spec fn opt_items(f: Option<&Vec<Option<String>>>) -> Option<Seq<Option<String>>> {
    match f {
        Some(v) => Some(v@),
        None => None,
    }
}

/// Picks the device's public IPv6 from `wan1.ipv6` first, then the
/// top-level `ipv6` field.
pub fn parse_session_device_wan_ipv6(
    wan1_ipv6: Option<&Vec<Option<String>>>,
    ipv6: Option<&Vec<Option<String>>>,
) -> (r: Option<String>)
    ensures
        opt_view(r) == device_wan_ipv6(opt_items(wan1_ipv6), opt_items(ipv6)),
{
    if let Some(items) = wan1_ipv6 {
        let v = pick_ipv6_from_value(items);
        if v.is_some() {
            return v;
        }
    }
    match ipv6 {
        Some(items) => pick_ipv6_from_value(items),
        None => None,
    }
}

} // verus!

verus! {

/// Identifier of an entity: an Integration API UUID or a legacy
/// Session API id.
#[derive(Debug, Clone)]
pub enum EntityId {
    Uuid(u128),
    Legacy(String),
}

/// The error for an operation that needs an API surface not configured.
pub open spec fn is_unsupported(e: CoreError, operation: Seq<char>, required: Seq<char>) -> bool {
    e matches CoreError::Unsupported { operation: o, required: r } && o@ == operation && r@ == required
}

/// Extracts the UUID of an entity, refusing legacy ids.
pub fn require_uuid(id: &EntityId) -> (r: Result<u128, CoreError>)
    ensures
        match id {
            EntityId::Uuid(u) => r == Ok::<u128, CoreError>(*u),
            EntityId::Legacy(_) => r matches Err(e) && is_unsupported(
                e,
                "Integration API operation on legacy ID"@,
                "UUID-based entity ID"@,
            ),
        },
{
    match id {
        EntityId::Uuid(u) => Ok(*u),
        EntityId::Legacy(_) => Err(
            CoreError::Unsupported {
                operation: String::from_str("Integration API operation on legacy ID"),
                required: String::from_str("UUID-based entity ID"),
            },
        ),
    }
}

/// Hands back the Session API client, or the error for its absence.
pub fn require_session<T>(session: Option<&T>) -> (r: Result<&T, CoreError>)
    ensures
        match session {
            Some(s) => r == Ok::<&T, CoreError>(s),
            None => r matches Err(e) && is_unsupported(
                e,
                "Session API operation"@,
                "Session API credentials (session or hybrid auth mode)"@,
            ),
        },
{
    match session {
        Some(s) => Ok(s),
        None => Err(
            CoreError::Unsupported {
                operation: String::from_str("Session API operation"),
                required: String::from_str("Session API credentials (session or hybrid auth mode)"),
            },
        ),
    }
}

/// The error for `operation` when the Integration API is unavailable.
pub fn unsupported(operation: &str) -> (e: CoreError)
    ensures
        is_unsupported(e, operation@, "Integration API"@),
{
    CoreError::Unsupported { operation: operation.to_owned(), required: String::from_str("Integration API") }
}

/// Hands back the Integration client and site, or the error for
/// `operation` when either is missing.
pub fn require_integration<'a, T>(integration: Option<&'a T>, site_id: Option<u128>, operation: &str) -> (r: Result<(&'a T, u128), CoreError>)
    ensures
        match (integration, site_id) {
            (Some(c), Some(s)) => r == Ok::<(&'a T, u128), CoreError>((c, s)),
            _ => r matches Err(e) && is_unsupported(e, operation@, "Integration API"@),
        },
{
    let client = match integration {
        Some(c) => c,
        None => return Err(unsupported(operation)),
    };
    let sid = match site_id {
        Some(s) => s,
        None => return Err(unsupported(operation)),
    };
    Ok((client, sid))
}

/// How certificates are checked, as configured.
#[derive(Debug, Clone)]
pub enum TlsVerification {
    SystemDefaults,
    CustomCa(String),
    DangerAcceptInvalid,
}

/// How the transport checks certificates.
#[derive(Debug, Clone)]
pub enum TlsMode {
    System,
    CustomCa(String),
    DangerAcceptInvalid,
}

/// Maps the configured certificate checking onto the transport's.
pub fn tls_to_transport(tls: &TlsVerification) -> (m: TlsMode)
    ensures
        match *tls {
            TlsVerification::SystemDefaults => m is System,
            TlsVerification::CustomCa(p) => m matches TlsMode::CustomCa(q) && q == p,
            TlsVerification::DangerAcceptInvalid => m is DangerAcceptInvalid,
        },
{
    match tls {
        TlsVerification::SystemDefaults => TlsMode::System,
        TlsVerification::CustomCa(path) => TlsMode::CustomCa(path.clone()),
        TlsVerification::DangerAcceptInvalid => TlsMode::DangerAcceptInvalid,
    }
}

/// Transport settings of a controller connection.
#[derive(Debug, Clone)]
pub struct TransportConfig {
    pub tls: TlsMode,
    pub timeout_secs: u64,
    /// Whether the transport brings its own cookie jar (the session client
    /// adds one when it does not).
    pub cookie_jar: bool,
}

/// The transport of a controller connection: its certificate checking and
/// timeout, without a cookie jar of its own.
pub fn build_transport(tls: &TlsVerification, timeout_secs: u64) -> (t: TransportConfig)
    ensures
        match *tls {
            TlsVerification::SystemDefaults => t.tls is System,
            TlsVerification::CustomCa(p) => t.tls matches TlsMode::CustomCa(q) && q == p,
            TlsVerification::DangerAcceptInvalid => t.tls is DangerAcceptInvalid,
        },
        t.timeout_secs == timeout_secs,
        !t.cookie_jar,
{
    TransportConfig { tls: tls_to_transport(tls), timeout_secs, cookie_jar: false }
}

} // verus!

// ── Site health ─────────────────────────────────────────────────────

verus! {

/// The fields of a raw health record that a summary is built from; a field
/// is `None` when the record lacks it or holds another JSON kind (for the
/// counters: anything but an unsigned integer). `gateways` lists the
/// array's items, `None` for an item that is no string.
#[derive(Debug, Clone)]
pub struct HealthFields {
    pub subsystem: Option<String>,
    pub status: Option<String>,
    pub num_adopted: Option<u64>,
    pub num_sta: Option<u64>,
    pub tx_bytes_r: Option<u64>,
    pub rx_bytes_r: Option<u64>,
    pub wan_ip: Option<String>,
    pub gateways: Option<Vec<Option<String>>>,
}

/// The text of an optional field, or `default`.
pub open spec fn text_or_default(o: Option<String>, default: Seq<char>) -> Seq<char> {
    match o {
        Some(t) => t@,
        None => default,
    }
}

/// A counter cut to 32 bits, as `as u32` does.
pub open spec fn low_u32(o: Option<u64>) -> Option<u32> {
    match o {
        Some(n) => Some(n as u32),
        None => None,
    }
}

/// The texts of the items that are strings, in order.
pub open spec fn present_texts(items: Seq<Option<String>>) -> Seq<Seq<char>>
    decreases items.len(),
{
    if items.len() == 0 {
        Seq::empty()
    } else {
        let rest = present_texts(items.drop_last());
        match items.last() {
            Some(t) => rest.push(t@),
            None => rest,
        }
    }
}

/// The views of a list of strings.
pub open spec fn texts(v: Seq<String>) -> Seq<Seq<char>> {
    v.map_values(|t: String| t@)
}

/// `h` is the summary of the raw record `f`: missing names read
/// `"unknown"`, counters are cut to 32 bits, and of the gateways only the
/// string items are kept.
pub open spec fn health_converted(h: HealthSummary, f: HealthFields) -> bool {
    &&& h.subsystem@ == text_or_default(f.subsystem, "unknown"@)
    &&& h.status@ == text_or_default(f.status, "unknown"@)
    &&& h.num_adopted == low_u32(f.num_adopted)
    &&& h.num_sta == low_u32(f.num_sta)
    &&& h.tx_bytes_r == f.tx_bytes_r
    &&& h.rx_bytes_r == f.rx_bytes_r
    &&& opt_view(h.wan_ip) == opt_view(f.wan_ip)
    &&& match f.gateways {
        Some(items) => h.gateways matches Some(g) && texts(g@) == present_texts(items@),
        None => h.gateways is None,
    }
}

fn text_or_owned(o: Option<String>, default: &str) -> (r: String)
    ensures
        r@ == text_or_default(o, default@),
{
    match o {
        Some(t) => t,
        None => default.to_owned(),
    }
}

fn cut_u32(o: Option<u64>) -> (r: Option<u32>)
    ensures
        r == low_u32(o),
{
    match o {
        Some(n) => Some(n as u32),
        None => None,
    }
}

fn strings_of(items: Vec<Option<String>>) -> (r: Vec<String>)
    ensures
        texts(r@) == present_texts(items@),
{
    let ghost src = items@;
    let mut out: Vec<String> = Vec::new();
    for item in it: items.into_iter()
        invariant
            it.seq() == src,
            texts(out@) == present_texts(src.take(it.index() as int)),
    {
        proof {
            assert(src.take(it.index() + 1).drop_last() =~= src.take(it.index() as int));
        }
        let ghost before = out@;
        match item {
            Some(t) => {
                out.push(t);
                assert(texts(out@) =~= texts(before).push(out@.last()@));
            },
            None => {},
        }
    }
    proof {
        assert(src.take(src.len() as int) =~= src);
    }
    out
}

fn convert_health(f: HealthFields) -> (h: HealthSummary)
    ensures
        health_converted(h, f),
{
    let gateways = match f.gateways {
        Some(items) => Some(strings_of(items)),
        None => None,
    };
    HealthSummary {
        subsystem: text_or_owned(f.subsystem, "unknown"),
        status: text_or_owned(f.status, "unknown"),
        num_adopted: cut_u32(f.num_adopted),
        num_sta: cut_u32(f.num_sta),
        tx_bytes_r: f.tx_bytes_r,
        rx_bytes_r: f.rx_bytes_r,
        wan_ip: f.wan_ip,
        gateways,
    }
}

/// Builds the site health summaries from the raw health records, one per
/// record, in order.
pub fn convert_health_summaries(raw: Vec<HealthFields>) -> (r: Vec<HealthSummary>)
    ensures
        r@.len() == raw@.len(),
        forall|i: int| 0 <= i < raw@.len() ==> health_converted(#[trigger] r@[i], raw@[i]),
{
    let ghost src = raw@;
    let mut out: Vec<HealthSummary> = Vec::new();
    for f in it: raw.into_iter()
        invariant
            it.seq() == src,
            out@.len() == it.index(),
            forall|i: int| 0 <= i < out@.len() ==> health_converted(#[trigger] out@[i], src[i]),
    {
        out.push(convert_health(f));
    }
    out
}

} // verus!
