//! Merging of Session API records into the Integration API model: traffic
//! and identity of clients, DHCP reservations, and device details that the
//! Integration API leaves out. Every merge fills only what is missing.

use vstd::prelude::*;

use crate::interface::{
    banded_rows, indexed_rows, parse_session_ports, parse_session_radios, ports_from_rows,
    radio_from_session, Port, Radio,
};
use crate::model::{mac_view, Client, Device, MacAddress, WirelessInfo};
use crate::models::{SessionClientEntry, SessionDevice, SessionUserEntry};
use crate::net::{ip_display, ip_parse, ip_text, parse_ip, IpAddress};
use crate::session::opt_view;
use crate::support::{device_wan_ipv6, opt_items, parse_session_device_wan_ipv6};
use crate::text::{chars_eq, chars_of};

verus! {

// ── Shared helpers ───────────────────────────────────────────────────

/// A signed count read as unsigned; negative counts are dropped.
pub open spec fn nonneg_u64(v: Option<i64>) -> Option<u64> {
    match v {
        Some(x) => if x >= 0 {
            Some(x as u64)
        } else {
            None
        },
        None => None,
    }
}

/// A signed number read as a `u32`; negative numbers are dropped.
pub open spec fn nonneg_u32(v: Option<i32>) -> Option<u32> {
    match v {
        Some(x) => if x >= 0 {
            Some(x as u32)
        } else {
            None
        },
        None => None,
    }
}

fn to_u64(v: Option<i64>) -> (r: Option<u64>)
    ensures
        r == nonneg_u64(v),
{
    match v {
        Some(x) => if x >= 0 { Some(x as u64) } else { None },
        None => None,
    }
}

fn to_u32(v: Option<i32>) -> (r: Option<u32>)
    ensures
        r == nonneg_u32(v),
{
    match v {
        Some(x) => if x >= 0 { Some(x as u32) } else { None },
        None => None,
    }
}

fn opt_str_eq(a: &Option<String>, key: &Vec<char>) -> (b: bool)
    ensures
        b == (opt_view(*a) == Some(key@)),
{
    match a {
        Some(t) => chars_eq(&chars_of(t.as_str()), key),
        None => false,
    }
}

fn mac_from(s: &Option<String>) -> (m: Option<MacAddress>)
    ensures
        mac_view(m) == opt_view(*s),
{
    match s {
        Some(t) => Some(MacAddress::new(t.as_str())),
        None => None,
    }
}

// ── Client traffic, by IP ────────────────────────────────────────────

/// Session client `s` reports the address whose text is `key`.
pub open spec fn ip_matches(s: SessionClientEntry, key: Seq<char>) -> bool {
    opt_view(s.ip) == Some(key)
}

/// `i` is the last session client reporting address text `key` (a later
/// record replaces an earlier one in the lookup by IP).
pub open spec fn last_ip_match(sessions: Seq<SessionClientEntry>, key: Seq<char>, i: int) -> bool {
    &&& 0 <= i < sessions.len()
    &&& ip_matches(sessions[i], key)
    &&& forall|j: int| i < j < sessions.len() ==> !ip_matches(sessions[j], key)
}

/// The session record that a client's traffic is merged from: the last one
/// whose IP text equals the client's address as displayed.
pub open spec fn traffic_source(sessions: Seq<SessionClientEntry>, c: Client) -> Option<SessionClientEntry> {
    match c.ip {
        Some(ip) => if exists|i: int| last_ip_match(sessions, ip_display(ip), i) {
            Some(sessions[choose|i: int| last_ip_match(sessions, ip_display(ip), i)])
        } else {
            None
        },
        None => None,
    }
}

/// Whether a session client is wired.
pub open spec fn wired(s: SessionClientEntry) -> bool {
    s.is_wired == Some(true)
}

/// The radio link a session record describes: none for a wired client;
/// otherwise its SSID, BSSID, channel (negative channels dropped), band,
/// signal, RSSI, noise and satisfaction as reported.
pub open spec fn session_wireless(s: SessionClientEntry) -> Option<WirelessInfo> {
    if wired(s) {
        None
    } else {
        Some(WirelessInfo {
            ssid: s.essid,
            bssid: s.bssid,
            channel: nonneg_u32(s.channel),
            radio: s.radio,
            signal_dbm: s.signal,
            rssi: s.rssi,
            noise_dbm: s.noise,
            satisfaction: s.satisfaction,
        })
    }
}

/// Builds the radio link that a session record describes.
pub fn wireless_from_session(s: &SessionClientEntry) -> (w: Option<WirelessInfo>)
    ensures
        w == session_wireless(*s),
{
    let is_wired = match s.is_wired {
        Some(b) => b,
        None => false,
    };
    if is_wired {
        None
    } else {
        Some(WirelessInfo {
            ssid: s.essid.clone(),
            bssid: s.bssid.clone(),
            channel: to_u32(s.channel),
            radio: s.radio.clone(),
            signal_dbm: s.signal,
            rssi: s.rssi,
            noise_dbm: s.noise,
            satisfaction: s.satisfaction,
        })
    }
}

/// `new` is `old` with the gaps filled from session record `s`.
pub open spec fn traffic_merged(new: Client, old: Client, s: SessionClientEntry) -> bool {
    &&& new.mac == old.mac
    &&& new.ip == old.ip
    &&& new.use_fixedip == old.use_fixedip
    &&& new.fixed_ip == old.fixed_ip
    &&& new.tx_bytes == if old.tx_bytes is Some { old.tx_bytes } else { nonneg_u64(s.tx_bytes) }
    &&& new.rx_bytes == if old.rx_bytes is Some { old.rx_bytes } else { nonneg_u64(s.rx_bytes) }
    &&& new.hostname == if old.hostname is Some { old.hostname } else { s.hostname }
    &&& if old.uplink_device_mac is Some {
        new.uplink_device_mac == old.uplink_device_mac
    } else {
        mac_view(new.uplink_device_mac) == opt_view(if wired(s) { s.sw_mac } else { s.ap_mac })
    }
    &&& new.switch_port == if old.switch_port is None && wired(s) { nonneg_u32(s.sw_port) } else { old.switch_port }
    &&& new.wireless == if old.wireless is Some { old.wireless } else { session_wireless(s) }
}

fn last_by_ip(sessions: &Vec<SessionClientEntry>, key: &Vec<char>) -> (r: Option<usize>)
    ensures
        match r {
            Some(i) => last_ip_match(sessions@, key@, i as int),
            None => forall|i: int| 0 <= i < sessions@.len() ==> !ip_matches(#[trigger] sessions@[i], key@),
        },
{
    let mut j: usize = sessions.len();
    while j > 0
        invariant
            j <= sessions@.len(),
            forall|i: int| j <= i < sessions@.len() ==> !ip_matches(#[trigger] sessions@[i], key@),
        decreases j,
    {
        if opt_str_eq(&sessions[j - 1].ip, key) {
            return Some(j - 1);
        }
        j = j - 1;
    }
    None
}

proof fn lemma_last_unique(sessions: Seq<SessionClientEntry>, key: Seq<char>, i: int, k: int)
    requires
        last_ip_match(sessions, key, i),
        last_ip_match(sessions, key, k),
    ensures
        i == k,
{
}

fn merge_one_client(c: Client, sessions: &Vec<SessionClientEntry>) -> (n: Client)
    ensures
        match traffic_source(sessions@, c) {
            Some(s) => traffic_merged(n, c, s),
            None => n == c,
        },
{
    let ip = match c.ip {
        Some(ip) => ip,
        None => return c,
    };
    let key = chars_of(ip_text(&ip).as_str());
    let j = match last_by_ip(sessions, &key) {
        Some(j) => j,
        None => return c,
    };
    proof {
        let k = choose|i: int| last_ip_match(sessions@, ip_display(ip), i);
        lemma_last_unique(sessions@, ip_display(ip), k, j as int);
    }
    let s = &sessions[j];
    let is_wired = match s.is_wired {
        Some(w) => w,
        None => false,
    };
    let uplink_device_mac = if c.uplink_device_mac.is_none() {
        if is_wired { mac_from(&s.sw_mac) } else { mac_from(&s.ap_mac) }
    } else {
        c.uplink_device_mac
    };
    let switch_port = if c.switch_port.is_none() && is_wired { to_u32(s.sw_port) } else { c.switch_port };
    Client {
        mac: c.mac,
        ip: c.ip,
        hostname: if c.hostname.is_none() { s.hostname.clone() } else { c.hostname },
        tx_bytes: if c.tx_bytes.is_none() { to_u64(s.tx_bytes) } else { c.tx_bytes },
        rx_bytes: if c.rx_bytes.is_none() { to_u64(s.rx_bytes) } else { c.rx_bytes },
        uplink_device_mac,
        switch_port,
        use_fixedip: c.use_fixedip,
        fixed_ip: c.fixed_ip,
        wireless: if c.wireless.is_none() { wireless_from_session(s) } else { c.wireless },
    }
}

/// Fills each client's missing traffic counters, hostname, radio link,
/// uplink device and switch port from the session record with the same IP (the last such
/// record). The uplink is the switch for a wired client and the access
/// point otherwise; the switch port is taken only for wired clients.
pub fn merge_client_traffic(clients: &mut Vec<Client>, session_clients: &Vec<SessionClientEntry>)
    ensures
        final(clients)@.len() == old(clients)@.len(),
        forall|i: int| #![trigger final(clients)@[i]] 0 <= i < old(clients)@.len() ==> {
            let (c, n) = (old(clients)@[i], final(clients)@[i]);
            &&& n.mac == c.mac && n.ip == c.ip && n.use_fixedip == c.use_fixedip && n.fixed_ip == c.fixed_ip
            &&& (c.tx_bytes is Some ==> n.tx_bytes == c.tx_bytes)
            &&& (c.rx_bytes is Some ==> n.rx_bytes == c.rx_bytes)
            &&& (c.hostname is Some ==> n.hostname == c.hostname)
            &&& (c.wireless is Some ==> n.wireless == c.wireless)
            &&& (c.uplink_device_mac is Some ==> n.uplink_device_mac == c.uplink_device_mac)
            &&& (c.switch_port is Some ==> n.switch_port == c.switch_port)
        },
        forall|i: int| 0 <= i < old(clients)@.len() ==> match traffic_source(session_clients@, old(clients)@[i]) {
            Some(s) => traffic_merged(#[trigger] final(clients)@[i], old(clients)@[i], s),
            None => final(clients)@[i] == old(clients)@[i],
        },
{
    if session_clients.len() == 0 {
        return;
    }
    let mut taken: Vec<Client> = Vec::new();
    core::mem::swap(clients, &mut taken);
    let ghost orig = taken@;
    let mut out: Vec<Client> = Vec::new();
    for c in it: taken.into_iter()
        invariant
            it.seq() == orig,
            out@.len() == it.index(),
            forall|i: int| 0 <= i < it.index() ==> match traffic_source(session_clients@, orig[i]) {
                Some(s) => traffic_merged(#[trigger] out@[i], orig[i], s),
                None => out@[i] == orig[i],
            },
    {
        let n = merge_one_client(c, session_clients);
        out.push(n);
    }
    *clients = out;
}

// ── DHCP reservations, by MAC ────────────────────────────────────────

/// The text that `str::to_lowercase` makes of `s`.
pub uninterp spec fn lowercase_text(s: Seq<char>) -> Seq<char>;

/// Lower-cases with `str::to_lowercase`; the contract names the result and
/// claims no more.
#[verifier::external_body]
fn to_lowercase(s: &str) -> (r: String)
    ensures
        r@ == lowercase_text(s@),
{
    s.to_lowercase()
}

/// User `u` belongs to the MAC whose lower-cased text is `key`.
pub open spec fn user_matches(u: SessionUserEntry, key: Seq<char>) -> bool {
    lowercase_text(u.mac@) == key
}

/// `i` is the last user for `key` (later users replace earlier ones in the
/// lookup by MAC).
pub open spec fn last_user(users: Seq<SessionUserEntry>, key: Seq<char>, i: int) -> bool {
    &&& 0 <= i < users.len()
    &&& user_matches(users[i], key)
    &&& forall|j: int| i < j < users.len() ==> !user_matches(users[j], key)
}

/// The user for the lower-cased MAC `key`, if any.
pub open spec fn user_by_key(users: Seq<SessionUserEntry>, key: Seq<char>) -> Option<SessionUserEntry> {
    if exists|i: int| last_user(users, key, i) {
        Some(users[choose|i: int| last_user(users, key, i)])
    } else {
        None
    }
}

/// `i` is the first session client reporting address text `key`.
pub open spec fn first_ip_match(sessions: Seq<SessionClientEntry>, key: Seq<char>, i: int) -> bool {
    &&& 0 <= i < sessions.len()
    &&& ip_matches(sessions[i], key)
    &&& forall|j: int| 0 <= j < i ==> !ip_matches(sessions[j], key)
}

/// The user record a client's reservation is read from: the user with the
/// client's MAC, else the user with the MAC of the first session client
/// sharing the client's IP.
pub open spec fn reservation_source(
    users: Seq<SessionUserEntry>,
    sessions: Seq<SessionClientEntry>,
    c: Client,
) -> Option<SessionUserEntry> {
    let direct = user_by_key(users, lowercase_text(c.mac.text@));
    if direct is Some {
        direct
    } else {
        match c.ip {
            Some(ip) => if exists|i: int| first_ip_match(sessions, ip_display(ip), i) {
                user_by_key(
                    users,
                    lowercase_text(sessions[choose|i: int| first_ip_match(sessions, ip_display(ip), i)].mac@),
                )
            } else {
                None
            },
            None => None,
        }
    }
}

/// `new` is `old` with the reservation of user `u` applied.
pub open spec fn reservation_applied(new: Client, old: Client, u: SessionUserEntry) -> bool {
    &&& new.use_fixedip == (u.use_fixedip == Some(true))
    &&& new.fixed_ip == match u.fixed_ip {
        Some(t) => ip_parse(t@),
        None => None,
    }
    &&& new.mac == old.mac
    &&& new.ip == old.ip
    &&& new.hostname == old.hostname
    &&& new.tx_bytes == old.tx_bytes
    &&& new.rx_bytes == old.rx_bytes
    &&& new.uplink_device_mac == old.uplink_device_mac
    &&& new.switch_port == old.switch_port
    &&& new.wireless == old.wireless
}

fn find_user(users: &Vec<SessionUserEntry>, key: &Vec<char>) -> (r: Option<usize>)
    ensures
        match r {
            Some(i) => last_user(users@, key@, i as int),
            None => forall|i: int| 0 <= i < users@.len() ==> !user_matches(#[trigger] users@[i], key@),
        },
{
    let mut j: usize = users.len();
    while j > 0
        invariant
            j <= users@.len(),
            forall|i: int| j <= i < users@.len() ==> !user_matches(#[trigger] users@[i], key@),
        decreases j,
    {
        let lower = chars_of(to_lowercase(users[j - 1].mac.as_str()).as_str());
        if chars_eq(&lower, key) {
            return Some(j - 1);
        }
        j = j - 1;
    }
    None
}

fn user_lookup(users: &Vec<SessionUserEntry>, mac: &str) -> (r: Option<usize>)
    ensures
        match user_by_key(users@, lowercase_text(mac@)) {
            Some(u) => r matches Some(i) && i < users@.len() && users@[i as int] == u,
            None => r is None,
        },
{
    let key = chars_of(to_lowercase(mac).as_str());
    let r = find_user(users, &key);
    proof {
        if let Some(i) = r {
            let k = choose|k: int| last_user(users@, key@, k);
            assert(last_user(users@, key@, k));
        }
    }
    r
}

fn first_by_ip(sessions: &Vec<SessionClientEntry>, key: &Vec<char>) -> (r: Option<usize>)
    ensures
        match r {
            Some(i) => first_ip_match(sessions@, key@, i as int),
            None => forall|i: int| 0 <= i < sessions@.len() ==> !ip_matches(#[trigger] sessions@[i], key@),
        },
{
    let mut j: usize = 0;
    while j < sessions.len()
        invariant
            j <= sessions@.len(),
            forall|i: int| 0 <= i < j ==> !ip_matches(#[trigger] sessions@[i], key@),
        decreases sessions@.len() - j,
    {
        if opt_str_eq(&sessions[j].ip, key) {
            return Some(j);
        }
        j = j + 1;
    }
    None
}

fn reservation_for(users: &Vec<SessionUserEntry>, sessions: &Vec<SessionClientEntry>, c: &Client) -> (r: Option<usize>)
    ensures
        match reservation_source(users@, sessions@, *c) {
            Some(u) => r matches Some(i) && i < users@.len() && users@[i as int] == u,
            None => r is None,
        },
{
    let direct = user_lookup(users, c.mac.as_str());
    if direct.is_some() {
        return direct;
    }
    let ip = match c.ip {
        Some(ip) => ip,
        None => return None,
    };
    let key = chars_of(ip_text(&ip).as_str());
    match first_by_ip(sessions, &key) {
        Some(i) => {
            proof {
                let k = choose|k: int| first_ip_match(sessions@, ip_display(ip), k);
                assert(first_ip_match(sessions@, ip_display(ip), k));
                assert(k == i);
            }
            user_lookup(users, sessions[i].mac.as_str())
        },
        None => None,
    }
}

/// Applies DHCP reservations: a client whose user record is found (by MAC,
/// else through the session client sharing its IP) takes the user's
/// `use_fixedip` flag (false when absent) and fixed IP (when it parses).
/// Clients without a user record are left unchanged.
pub fn merge_user_reservations(
    clients: &mut Vec<Client>,
    session_clients: &Vec<SessionClientEntry>,
    session_users: &Vec<SessionUserEntry>,
)
    ensures
        final(clients)@.len() == old(clients)@.len(),
        forall|i: int| 0 <= i < old(clients)@.len() ==> match reservation_source(session_users@, session_clients@, old(clients)@[i]) {
            Some(u) => reservation_applied(#[trigger] final(clients)@[i], old(clients)@[i], u),
            None => final(clients)@[i] == old(clients)@[i],
        },
{
    if session_users.len() == 0 {
        proof {
            assert forall|i: int| 0 <= i < old(clients)@.len() implies reservation_source(session_users@, session_clients@, old(clients)@[i]) is None by {
                let c = old(clients)@[i];
                assert(!exists|k: int| last_user(session_users@, lowercase_text(c.mac.text@), k));
                if let Some(ip) = c.ip {
                    if exists|k: int| first_ip_match(session_clients@, ip_display(ip), k) {
                        let k = choose|k: int| first_ip_match(session_clients@, ip_display(ip), k);
                        assert(!exists|m: int| last_user(session_users@, lowercase_text(session_clients@[k].mac@), m));
                    }
                }
            }
        }
        return;
    }
    let mut taken: Vec<Client> = Vec::new();
    core::mem::swap(clients, &mut taken);
    let ghost orig = taken@;
    let mut out: Vec<Client> = Vec::new();
    for c in it: taken.into_iter()
        invariant
            it.seq() == orig,
            out@.len() == it.index(),
            forall|i: int| 0 <= i < it.index() ==> match reservation_source(session_users@, session_clients@, orig[i]) {
                Some(u) => reservation_applied(#[trigger] out@[i], orig[i], u),
                None => out@[i] == orig[i],
            },
    {
        match reservation_for(session_users, session_clients, &c) {
            Some(k) => {
                let u = &session_users[k];
                let use_fixedip = match u.use_fixedip {
                    Some(b) => b,
                    None => false,
                };
                let fixed_ip = match &u.fixed_ip {
                    Some(t) => parse_ip(t.as_str()),
                    None => None,
                };
                out.push(Client { use_fixedip, fixed_ip, ..c });
            },
            None => {
                out.push(c);
            },
        }
    }
    *clients = out;
}

/// Merges session clients and users into the Integration clients: traffic
/// and identity by IP first, then DHCP reservations.
pub fn merge_session_clients(
    clients: &mut Vec<Client>,
    session_clients: &Vec<SessionClientEntry>,
    session_users: &Vec<SessionUserEntry>,
)
    ensures
        final(clients)@.len() == old(clients)@.len(),
        exists|mid: Seq<Client>|
            #![trigger mid.len()]
            mid.len() == old(clients)@.len() && (forall|i: int| 0 <= i < mid.len() ==> match traffic_source(session_clients@, old(clients)@[i]) {
                Some(s) => traffic_merged(#[trigger] mid[i], old(clients)@[i], s),
                None => mid[i] == old(clients)@[i],
            }) && (forall|i: int| 0 <= i < mid.len() ==> match reservation_source(session_users@, session_clients@, mid[i]) {
                Some(u) => reservation_applied(#[trigger] final(clients)@[i], mid[i], u),
                None => final(clients)@[i] == mid[i],
            }),
{
    merge_client_traffic(clients, session_clients);
    let ghost mid = clients@;
    merge_user_reservations(clients, session_clients, session_users);
    assert(mid.len() == old(clients)@.len());
}

} // verus!

// ── Devices, by MAC ──────────────────────────────────────────────────

verus! {

/// `i` is the last session device whose MAC text is `mac`.
pub open spec fn last_device(sessions: Seq<SessionDevice>, mac: Seq<char>, i: int) -> bool {
    &&& 0 <= i < sessions.len()
    &&& sessions[i].mac@ == mac
    &&& forall|j: int| i < j < sessions.len() ==> sessions[j].mac@ != mac
}

/// The session record a device is completed from: the last one with the
/// device's MAC text.
pub open spec fn device_source(sessions: Seq<SessionDevice>, d: Device) -> Option<SessionDevice> {
    if exists|i: int| last_device(sessions, d.mac.text@, i) {
        Some(sessions[choose|i: int| last_device(sessions, d.mac.text@, i)])
    } else {
        None
    }
}

/// The IPv6 items of a session device's `wan1` block.
pub open spec fn wan1_items(s: SessionDevice) -> Option<Seq<Option<String>>> {
    match s.wan1 {
        Some(w) => match w.ipv6 {
            Some(v) => Some(v@),
            None => None,
        },
        None => None,
    }
}

/// The IPv6 items of a session device's top-level `ipv6` field.
pub open spec fn top_items(s: SessionDevice) -> Option<Seq<Option<String>>> {
    match s.ipv6 {
        Some(v) => Some(v@),
        None => None,
    }
}

/// The uplink MAC text a session device reports.
pub open spec fn uplink_mac_of(s: SessionDevice) -> Option<Seq<char>> {
    match s.uplink {
        Some(u) => opt_view(u.uplink_mac),
        None => None,
    }
}

/// The uplink port a session device reports.
pub open spec fn uplink_port_of(s: SessionDevice) -> Option<u32> {
    match s.uplink {
        Some(u) => u.uplink_remote_port,
        None => None,
    }
}

/// `radios` converts the banded radio rows of `s` one for one.
pub open spec fn radios_from(radios: Seq<Radio>, s: SessionDevice) -> bool {
    &&& radios.len() == banded_rows(s.radio_table@).len()
    &&& forall|i: int| 0 <= i < radios.len() ==> radio_from_session(#[trigger] radios[i], banded_rows(s.radio_table@)[i], s.radio_table_stats@)
}

/// Whether a device still lacks ports, radios or its uplink.
pub open spec fn needs_parts(d: Device) -> bool {
    d.ports@.len() == 0 || d.radios@.len() == 0 || d.uplink_device_mac is None || d.uplink_port_idx is None
}

/// `new` is `old` completed from session record `s`: a missing client count
/// (non-negative `num_sta`), WAN IPv6, ports, radios and uplink are taken
/// from the record; everything present is kept.
pub open spec fn device_merged(new: Device, old: Device, s: SessionDevice) -> bool {
    &&& new.mac == old.mac
    &&& new.device_type == old.device_type
    &&& new.stats == old.stats
    &&& new.client_count == if old.client_count is Some { old.client_count } else { nonneg_u32(s.num_sta) }
    &&& if old.wan_ipv6 is Some {
        new.wan_ipv6 == old.wan_ipv6
    } else {
        opt_view(new.wan_ipv6) == device_wan_ipv6(wan1_items(s), top_items(s))
    }
    &&& if needs_parts(old) && old.ports@.len() == 0 && indexed_rows(s.port_table@).len() > 0 {
        ports_from_rows(new.ports@, indexed_rows(s.port_table@))
    } else {
        new.ports == old.ports
    }
    &&& if needs_parts(old) && old.radios@.len() == 0 && banded_rows(s.radio_table@).len() > 0 {
        radios_from(new.radios@, s)
    } else {
        new.radios == old.radios
    }
    &&& if old.uplink_device_mac is None {
        mac_view(new.uplink_device_mac) == uplink_mac_of(s)
    } else {
        new.uplink_device_mac == old.uplink_device_mac
    }
    &&& new.uplink_port_idx == if old.uplink_port_idx is None { uplink_port_of(s) } else { old.uplink_port_idx }
}

fn last_device_by_mac(sessions: &Vec<SessionDevice>, mac: &Vec<char>) -> (r: Option<usize>)
    ensures
        match r {
            Some(i) => last_device(sessions@, mac@, i as int),
            None => forall|i: int| 0 <= i < sessions@.len() ==> (#[trigger] sessions@[i]).mac@ != mac@,
        },
{
    let mut j: usize = sessions.len();
    while j > 0
        invariant
            j <= sessions@.len(),
            forall|i: int| j <= i < sessions@.len() ==> (#[trigger] sessions@[i]).mac@ != mac@,
        decreases j,
    {
        if chars_eq(&chars_of(sessions[j - 1].mac.as_str()), mac) {
            return Some(j - 1);
        }
        j = j - 1;
    }
    None
}

fn wan1_field(s: &SessionDevice) -> (r: Option<&Vec<Option<String>>>)
    ensures
        opt_items(r) == wan1_items(*s),
{
    match &s.wan1 {
        Some(w) => match &w.ipv6 {
            Some(v) => Some(v),
            None => None,
        },
        None => None,
    }
}

fn merge_one_device(d: Device, sessions: &Vec<SessionDevice>) -> (n: Device)
    ensures
        match device_source(sessions@, d) {
            Some(s) => device_merged(n, d, s),
            None => n == d,
        },
{
    let mac = chars_of(d.mac.as_str());
    let j = match last_device_by_mac(sessions, &mac) {
        Some(j) => j,
        None => return d,
    };
    proof {
        let k = choose|i: int| last_device(sessions@, d.mac.text@, i);
        assert(last_device(sessions@, d.mac.text@, k));
        assert(k == j);
    }
    let s = &sessions[j];
    let client_count = if d.client_count.is_none() { to_u32(s.num_sta) } else { d.client_count };
    let wan_ipv6 = if d.wan_ipv6.is_none() {
        let top: Option<&Vec<Option<String>>> = match &s.ipv6 {
            Some(v) => Some(v),
            None => None,
        };
        parse_session_device_wan_ipv6(wan1_field(s), top)
    } else {
        d.wan_ipv6
    };
    let mut ports = d.ports;
    let mut radios = d.radios;
    let mut uplink_device_mac = d.uplink_device_mac;
    let mut uplink_port_idx = d.uplink_port_idx;
    if ports.len() == 0 || radios.len() == 0 || uplink_device_mac.is_none() || uplink_port_idx.is_none() {
        let session_ports = parse_session_ports(&s.port_table);
        let session_radios = parse_session_radios(&s.radio_table, &s.radio_table_stats);
        if ports.len() == 0 && session_ports.len() > 0 {
            ports = session_ports;
        }
        if radios.len() == 0 && session_radios.len() > 0 {
            radios = session_radios;
        }
        if uplink_device_mac.is_none() {
            uplink_device_mac = match &s.uplink {
                Some(u) => mac_from(&u.uplink_mac),
                None => None,
            };
        }
        if uplink_port_idx.is_none() {
            uplink_port_idx = match &s.uplink {
                Some(u) => u.uplink_remote_port,
                None => None,
            };
        }
    }
    Device {
        mac: d.mac,
        device_type: d.device_type,
        client_count,
        wan_ipv6,
        ports,
        radios,
        uplink_device_mac,
        uplink_port_idx,
        stats: d.stats,
    }
}

/// Completes each device from the session record with its MAC (the last
/// such record): a missing client count, WAN IPv6, port table, radio table
/// and uplink are filled in; present values are kept.
pub fn merge_session_devices(devices: &mut Vec<Device>, session_devices: &Vec<SessionDevice>)
    ensures
        final(devices)@.len() == old(devices)@.len(),
        forall|i: int| #![trigger final(devices)@[i]] 0 <= i < old(devices)@.len() ==> {
            let (d, n) = (old(devices)@[i], final(devices)@[i]);
            &&& n.mac == d.mac && n.device_type == d.device_type && n.stats == d.stats
            &&& (d.client_count is Some ==> n.client_count == d.client_count)
            &&& (d.wan_ipv6 is Some ==> n.wan_ipv6 == d.wan_ipv6)
            &&& (d.ports@.len() > 0 ==> n.ports == d.ports)
            &&& (d.radios@.len() > 0 ==> n.radios == d.radios)
            &&& (d.uplink_device_mac is Some ==> n.uplink_device_mac == d.uplink_device_mac)
            &&& (d.uplink_port_idx is Some ==> n.uplink_port_idx == d.uplink_port_idx)
        },
        forall|i: int| 0 <= i < old(devices)@.len() ==> match device_source(session_devices@, old(devices)@[i]) {
            Some(s) => device_merged(#[trigger] final(devices)@[i], old(devices)@[i], s),
            None => final(devices)@[i] == old(devices)@[i],
        },
{
    if session_devices.len() == 0 {
        return;
    }
    let mut taken: Vec<Device> = Vec::new();
    core::mem::swap(devices, &mut taken);
    let ghost orig = taken@;
    let mut out: Vec<Device> = Vec::new();
    for d in it: taken.into_iter()
        invariant
            it.seq() == orig,
            out@.len() == it.index(),
            forall|i: int| 0 <= i < it.index() ==> match device_source(session_devices@, orig[i]) {
                Some(s) => device_merged(#[trigger] out@[i], orig[i], s),
                None => out@[i] == orig[i],
            },
    {
        let n = merge_one_device(d, session_devices);
        out.push(n);
    }
    *devices = out;
}

} // verus!

verus! {

/// Merging the same session clients again changes nothing more: the second
/// merge finds the same record and every field it could fill is either
/// already filled or still unavailable.
pub proof fn law_traffic_merge_settles(sessions: Seq<SessionClientEntry>, c: Client, once: Client, twice: Client)
    requires
        match traffic_source(sessions, c) {
            Some(s) => traffic_merged(once, c, s),
            None => once == c,
        },
        match traffic_source(sessions, once) {
            Some(s) => traffic_merged(twice, once, s),
            None => twice == once,
        },
    ensures
        twice.mac == once.mac,
        twice.ip == once.ip,
        twice.tx_bytes == once.tx_bytes,
        twice.rx_bytes == once.rx_bytes,
        twice.hostname == once.hostname,
        mac_view(twice.uplink_device_mac) == mac_view(once.uplink_device_mac),
        twice.switch_port == once.switch_port,
        twice.use_fixedip == once.use_fixedip,
        twice.fixed_ip == once.fixed_ip,
        twice.wireless == once.wireless,
{
}

/// Applying the same reservations again changes nothing.
pub proof fn law_reservations_settle(
    users: Seq<SessionUserEntry>,
    sessions: Seq<SessionClientEntry>,
    c: Client,
    once: Client,
    twice: Client,
)
    requires
        match reservation_source(users, sessions, c) {
            Some(u) => reservation_applied(once, c, u),
            None => once == c,
        },
        match reservation_source(users, sessions, once) {
            Some(u) => reservation_applied(twice, once, u),
            None => twice == once,
        },
    ensures
        twice == once,
{
}

/// Completing devices from the same session records again changes nothing
/// more.
pub proof fn law_device_merge_settles(sessions: Seq<SessionDevice>, d: Device, once: Device, twice: Device)
    requires
        match device_source(sessions, d) {
            Some(s) => device_merged(once, d, s),
            None => once == d,
        },
        match device_source(sessions, once) {
            Some(s) => device_merged(twice, once, s),
            None => twice == once,
        },
    ensures
        twice.mac == once.mac,
        twice.stats == once.stats,
        twice.client_count == once.client_count,
        opt_view(twice.wan_ipv6) == opt_view(once.wan_ipv6),
        twice.ports@.len() == once.ports@.len(),
        twice.radios@.len() == once.radios@.len(),
        mac_view(twice.uplink_device_mac) == mac_view(once.uplink_device_mac),
        twice.uplink_port_idx == once.uplink_port_idx,
{
}

/// A traffic merge fills only what a client lacks: every field the client
/// already has is kept, its identity and reservation are untouched, and a
/// missing field takes the session record's value (counters only when not
/// negative; the switch port only for a wired record).
pub proof fn law_traffic_fills_only_missing(n: Client, c: Client, s: SessionClientEntry)
    requires
        traffic_merged(n, c, s),
    ensures
        n.mac == c.mac && n.ip == c.ip && n.use_fixedip == c.use_fixedip && n.fixed_ip == c.fixed_ip,
        c.tx_bytes is Some ==> n.tx_bytes == c.tx_bytes,
        c.rx_bytes is Some ==> n.rx_bytes == c.rx_bytes,
        c.hostname is Some ==> n.hostname == c.hostname,
        c.wireless is Some ==> n.wireless == c.wireless,
        c.uplink_device_mac is Some ==> n.uplink_device_mac == c.uplink_device_mac,
        c.switch_port is Some ==> n.switch_port == c.switch_port,
        c.hostname is None ==> n.hostname == s.hostname,
        c.tx_bytes is None && s.tx_bytes is Some && s.tx_bytes->0 >= 0 ==> n.tx_bytes == Some(s.tx_bytes->0 as u64),
        c.tx_bytes is None && s.tx_bytes is Some && s.tx_bytes->0 < 0 ==> n.tx_bytes is None,
        c.rx_bytes is None && s.rx_bytes is Some && s.rx_bytes->0 >= 0 ==> n.rx_bytes == Some(s.rx_bytes->0 as u64),
        c.switch_port is None && s.is_wired != Some(true) ==> n.switch_port is None,
        c.switch_port is None && s.is_wired == Some(true) && s.sw_port is Some && s.sw_port->0 >= 0
            ==> n.switch_port == Some(s.sw_port->0 as u32),
        c.uplink_device_mac is None && s.is_wired == Some(true) ==> mac_view(n.uplink_device_mac) == opt_view(s.sw_mac),
        c.uplink_device_mac is None && s.is_wired != Some(true) ==> mac_view(n.uplink_device_mac) == opt_view(s.ap_mac),
        c.wireless is None && s.is_wired == Some(true) ==> n.wireless is None,
        c.wireless is None && s.is_wired != Some(true) ==> n.wireless is Some && n.wireless->0.ssid == s.essid
            && n.wireless->0.bssid == s.bssid && n.wireless->0.signal_dbm == s.signal,
{
}

/// A device merge fills only what a device lacks: a present client count,
/// WAN IPv6, port table, radio table or uplink is kept, its identity and
/// live statistics are untouched, and a missing client count takes the
/// session record's count when it is not negative.
pub proof fn law_device_fills_only_missing(n: Device, d: Device, s: SessionDevice)
    requires
        device_merged(n, d, s),
    ensures
        n.mac == d.mac && n.device_type == d.device_type && n.stats == d.stats,
        d.client_count is Some ==> n.client_count == d.client_count,
        d.wan_ipv6 is Some ==> n.wan_ipv6 == d.wan_ipv6,
        d.ports@.len() > 0 ==> n.ports == d.ports,
        d.radios@.len() > 0 ==> n.radios == d.radios,
        d.uplink_device_mac is Some ==> n.uplink_device_mac == d.uplink_device_mac,
        d.uplink_port_idx is Some ==> n.uplink_port_idx == d.uplink_port_idx,
        d.client_count is None && s.num_sta is Some && s.num_sta->0 >= 0 ==> n.client_count == Some(s.num_sta->0 as u32),
        d.client_count is None && s.num_sta is Some && s.num_sta->0 < 0 ==> n.client_count is None,
{
}

} // verus!
