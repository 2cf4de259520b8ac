//! Live device statistics from `device:sync` stream frames, and the
//! choice of which refreshed events are new.

use vstd::prelude::*;

use crate::model::{Bandwidth, Device, DeviceStats};
use crate::session::opt_view;
use crate::support::{device_wan_ipv6, opt_items, parse_session_device_wan_ipv6};
use crate::text::{chars_eq, chars_of};

verus! {

/// The integer readings of a `device:sync` frame. A field is `None` when
/// the frame lacks it, and `Some(None)` when it is present but does not
/// read as a whole number of the required sign.
#[derive(Debug, Clone)]
pub struct DeviceSyncCounters {
    pub uplink_tx_bytes_r: Option<Option<u64>>,
    pub uplink_rx_bytes_r: Option<Option<u64>>,
    pub tx_bytes_r: Option<Option<u64>>,
    pub rx_bytes_r: Option<Option<u64>>,
    pub underscore_uptime: Option<Option<i64>>,
    pub uptime: Option<Option<i64>>,
    pub num_sta: Option<Option<u64>>,
    pub wan1_ipv6: Option<Vec<Option<String>>>,
    pub ipv6: Option<Vec<Option<String>>>,
}

/// The item views of an optional IPv6 field.
pub open spec fn field_items(o: Option<Vec<Option<String>>>) -> Option<Seq<Option<String>>> {
    match o {
        Some(v) => Some(v@),
        None => None,
    }
}

/// The reading of the first present field: `first` wins over `second`.
pub open spec fn first_present<T>(first: Option<Option<T>>, second: Option<Option<T>>) -> Option<T> {
    match first {
        Some(v) => v,
        None => match second {
            Some(v) => v,
            None => None,
        },
    }
}

fn pick_first<T: Copy>(first: Option<Option<T>>, second: Option<Option<T>>) -> (r: Option<T>)
    ensures
        r == first_present(first, second),
{
    match first {
        Some(v) => v,
        None => match second {
            Some(v) => v,
            None => None,
        },
    }
}

/// Uplink throughput from a frame: taken only when both rates read and one
/// is non-zero, otherwise the device keeps its previous value.
pub open spec fn synced_bandwidth(existing: Option<Bandwidth>, d: DeviceSyncCounters) -> Option<Bandwidth> {
    match (first_present(d.uplink_tx_bytes_r, d.tx_bytes_r), first_present(d.uplink_rx_bytes_r, d.rx_bytes_r)) {
        (Some(tx), Some(rx)) => if tx > 0 || rx > 0 {
            Some(Bandwidth { tx_bytes_per_sec: tx, rx_bytes_per_sec: rx })
        } else {
            existing
        },
        _ => existing,
    }
}

/// Uptime from a frame (`_uptime` before `uptime`, non-negative), else the
/// previous value.
pub open spec fn synced_uptime(existing: Option<u64>, d: DeviceSyncCounters) -> Option<u64> {
    match first_present(d.underscore_uptime, d.uptime) {
        Some(v) => if v >= 0 {
            Some(v as u64)
        } else {
            existing
        },
        None => existing,
    }
}

/// Client count from a frame, saturated to `u32::MAX`, else the previous
/// value.
pub open spec fn synced_client_count(existing: Option<u32>, d: DeviceSyncCounters) -> Option<u32> {
    match d.num_sta {
        Some(Some(n)) => Some(if n <= u32::MAX as u64 { n as u32 } else { u32::MAX }),
        _ => existing,
    }
}

/// `d` is `existing` with the integer readings of a sync frame applied.
pub open spec fn device_synced(d: Device, existing: Device, data: DeviceSyncCounters) -> bool {
    &&& d.stats.uplink_bandwidth == synced_bandwidth(existing.stats.uplink_bandwidth, data)
    &&& d.stats.uptime_secs == synced_uptime(existing.stats.uptime_secs, data)
    &&& d.client_count == synced_client_count(existing.client_count, data)
    &&& match device_wan_ipv6(field_items(data.wan1_ipv6), field_items(data.ipv6)) {
        Some(t) => opt_view(d.wan_ipv6) == Some(t),
        None => d.wan_ipv6 == existing.wan_ipv6,
    }
    &&& d.mac == existing.mac
    &&& d.device_type == existing.device_type
    &&& d.ports == existing.ports
    &&& d.radios == existing.radios
    &&& d.uplink_device_mac == existing.uplink_device_mac
    &&& d.uplink_port_idx == existing.uplink_port_idx
}

/// Applies the integer readings of a `device:sync` frame to a device:
/// uplink throughput, uptime, client count and WAN IPv6 are updated where
/// the frame provides them; nothing else changes.
pub fn apply_device_sync(existing: Device, data: &DeviceSyncCounters) -> (d: Device)
    ensures
        device_synced(d, existing, *data),
        data.underscore_uptime is Some && data.underscore_uptime->0 is Some && data.underscore_uptime->0->0 >= 0
            ==> d.stats.uptime_secs == Some(data.underscore_uptime->0->0 as u64),
        data.underscore_uptime is None && data.uptime is Some && data.uptime->0 is Some && data.uptime->0->0 >= 0
            ==> d.stats.uptime_secs == Some(data.uptime->0->0 as u64),
        data.underscore_uptime is None && data.uptime is None ==> d.stats.uptime_secs == existing.stats.uptime_secs,
        data.num_sta is None ==> d.client_count == existing.client_count,
        data.num_sta is Some && data.num_sta->0 is Some && data.num_sta->0->0 <= u32::MAX
            ==> d.client_count == Some(data.num_sta->0->0 as u32),
{
    let tx = pick_first(data.uplink_tx_bytes_r, data.tx_bytes_r);
    let rx = pick_first(data.uplink_rx_bytes_r, data.rx_bytes_r);
    let bandwidth = match (tx, rx) {
        (Some(t), Some(r)) => if t > 0 || r > 0 {
            Some(Bandwidth { tx_bytes_per_sec: t, rx_bytes_per_sec: r })
        } else {
            existing.stats.uplink_bandwidth
        },
        _ => existing.stats.uplink_bandwidth,
    };
    let uptime = match pick_first(data.underscore_uptime, data.uptime) {
        Some(v) => if v >= 0 { Some(v as u64) } else { existing.stats.uptime_secs },
        None => existing.stats.uptime_secs,
    };
    let client_count = match data.num_sta {
        Some(Some(n)) => Some(if n <= u32::MAX as u64 { n as u32 } else { u32::MAX }),
        _ => existing.client_count,
    };
    let wan = parse_session_device_wan_ipv6(data.wan1_ipv6.as_ref(), data.ipv6.as_ref());
    let wan_ipv6 = match wan {
        Some(w) => Some(w),
        None => existing.wan_ipv6,
    };
    Device {
        mac: existing.mac,
        device_type: existing.device_type,
        client_count,
        wan_ipv6,
        ports: existing.ports,
        radios: existing.radios,
        uplink_device_mac: existing.uplink_device_mac,
        uplink_port_idx: existing.uplink_port_idx,
        stats: DeviceStats { uplink_bandwidth: bandwidth, uptime_secs: uptime },
    }
}

/// Uptime from a sync frame: `_uptime` when the frame carries it, else
/// `uptime`; a reading that is present and not negative replaces the
/// device's uptime, and a frame with neither key keeps it.
pub proof fn law_uptime_prefers_underscore_then_uptime(d: Device, existing: Device, data: DeviceSyncCounters)
    requires
        device_synced(d, existing, data),
    ensures
        data.underscore_uptime is Some && data.underscore_uptime->0 is Some && data.underscore_uptime->0->0 >= 0
            ==> d.stats.uptime_secs == Some(data.underscore_uptime->0->0 as u64),
        data.underscore_uptime is None && data.uptime is Some && data.uptime->0 is Some && data.uptime->0->0 >= 0
            ==> d.stats.uptime_secs == Some(data.uptime->0->0 as u64),
        data.underscore_uptime is None && data.uptime is None ==> d.stats.uptime_secs == existing.stats.uptime_secs,
        data.underscore_uptime is Some && data.underscore_uptime->0 is Some && data.underscore_uptime->0->0 < 0
            ==> d.stats.uptime_secs == existing.stats.uptime_secs,
        data.num_sta is None ==> d.client_count == existing.client_count,
        data.num_sta is Some && data.num_sta->0 is Some && data.num_sta->0->0 <= u32::MAX
            ==> d.client_count == Some(data.num_sta->0->0 as u32),
        d.mac == existing.mac && d.ports == existing.ports && d.radios == existing.radios,
{
}

/// Uplink throughput from a sync frame: each rate is read from the
/// frame's `uplink` when that carries it, else from the top level; both
/// rates must read and one be non-zero for the device's throughput to be
/// replaced, otherwise it is kept.
pub proof fn law_bandwidth_from_frame(d: Device, existing: Device, data: DeviceSyncCounters, tx: u64, rx: u64)
    requires
        device_synced(d, existing, data),
    ensures
        data.uplink_tx_bytes_r == Some(Some(tx)) && data.uplink_rx_bytes_r == Some(Some(rx)) && (tx > 0 || rx > 0)
            ==> d.stats.uplink_bandwidth == Some(Bandwidth { tx_bytes_per_sec: tx, rx_bytes_per_sec: rx }),
        data.uplink_tx_bytes_r is None && data.uplink_rx_bytes_r is None && data.tx_bytes_r == Some(Some(tx))
            && data.rx_bytes_r == Some(Some(rx)) && (tx > 0 || rx > 0)
            ==> d.stats.uplink_bandwidth == Some(Bandwidth { tx_bytes_per_sec: tx, rx_bytes_per_sec: rx }),
        data.uplink_tx_bytes_r == Some(Some(0u64)) && data.uplink_rx_bytes_r == Some(Some(0u64))
            ==> d.stats.uplink_bandwidth == existing.stats.uplink_bandwidth,
        data.uplink_tx_bytes_r is None && data.tx_bytes_r is None ==> d.stats.uplink_bandwidth == existing.stats.uplink_bandwidth,
        data.uplink_tx_bytes_r == Some(None::<u64>) ==> d.stats.uplink_bandwidth == existing.stats.uplink_bandwidth,
{
}

/// `i` is the first device whose MAC text is `mac`.
pub open spec fn first_with_mac(devs: Seq<Device>, mac: Seq<char>, i: int) -> bool {
    &&& 0 <= i < devs.len()
    &&& devs[i].mac.text@ == mac
    &&& forall|j: int| 0 <= j < i ==> devs[j].mac.text@ != mac
}

/// Applies a sync frame to the device it names (by `mac`, the frame's MAC
/// field) among the known devices: that device is replaced by its synced
/// form and every other device is left as it was. A frame without a MAC,
/// or naming no known device, changes nothing.
pub fn sync_device_in(devices: &mut Vec<Device>, mac: Option<&str>, data: &DeviceSyncCounters)
    ensures
        final(devices)@.len() == old(devices)@.len(),
        match mac {
            Some(m) => if exists|i: int| 0 <= i < old(devices)@.len() && old(devices)@[i].mac.text@ == m@ {
                exists|k: int|
                    first_with_mac(old(devices)@, m@, k) && device_synced(final(devices)@[k], old(devices)@[k], *data)
                        && forall|j: int| 0 <= j < old(devices)@.len() && j != k ==> final(devices)@[j] == old(devices)@[j]
            } else {
                final(devices)@ == old(devices)@
            },
            None => final(devices)@ == old(devices)@,
        },
{
    let m = match mac {
        Some(m) => m,
        None => return,
    };
    let key = chars_of(m);
    let mut k: usize = 0;
    while k < devices.len()
        invariant
            k <= devices@.len(),
            devices@ == old(devices)@,
            mac == Some(m),
            key@ == m@,
            forall|j: int| 0 <= j < k ==> devices@[j].mac.text@ != m@,
        decreases devices@.len() - k,
    {
        if chars_eq(&chars_of(devices[k].mac.as_str()), &key) {
            let ghost before = devices@;
            let existing = devices.remove(k);
            let synced = apply_device_sync(existing, data);
            devices.insert(k, synced);
            proof {
                assert(first_with_mac(before, m@, k as int));
                assert(devices@ =~= before.update(k as int, synced));
            }
            return;
        }
        k = k + 1;
    }
}

// ── New events of a refresh ──────────────────────────────────────────

/// Incoming event `i` is new: its key is neither stored nor carried by an
/// earlier incoming event.
pub open spec fn is_fresh(stored: Seq<Seq<char>>, keys: Seq<Seq<char>>, i: int) -> bool {
    !stored.contains(keys[i]) && forall|j: int| 0 <= j < i ==> keys[j] != keys[i]
}

/// The positions of the new events among the first `n`, in order.
pub open spec fn fresh_positions(stored: Seq<Seq<char>>, keys: Seq<Seq<char>>, n: int) -> Seq<usize>
    decreases n,
{
    if n <= 0 {
        Seq::empty()
    } else {
        let rest = fresh_positions(stored, keys, n - 1);
        if is_fresh(stored, keys, n - 1) {
            rest.push((n - 1) as usize)
        } else {
            rest
        }
    }
}

/// The text views of a list of strings.
pub open spec fn views(v: Seq<String>) -> Seq<Seq<char>> {
    v.map_values(|s: String| s@)
}

fn contains_key(keys: &Vec<String>, upto: usize, key: &Vec<char>) -> (b: bool)
    requires
        upto <= keys@.len(),
    ensures
        b == exists|j: int| 0 <= j < upto && keys@[j]@ == key@,
{
    let mut j: usize = 0;
    while j < upto
        invariant
            upto <= keys@.len(),
            j <= upto,
            forall|k: int| 0 <= k < j ==> keys@[k]@ != key@,
        decreases upto - j,
    {
        if chars_eq(&chars_of(keys[j].as_str()), key) {
            return true;
        }
        j = j + 1;
    }
    false
}

/// Picks, by storage key, the refreshed events that are new: those whose
/// key the store does not hold yet, keeping only the first of several
/// events that share a key. Returns their positions in order.
pub fn unseen_events(stored_keys: &Vec<String>, event_keys: &Vec<String>) -> (r: Vec<usize>)
    ensures
        r@ == fresh_positions(views(stored_keys@), views(event_keys@), event_keys@.len() as int),
{
    let ghost st = views(stored_keys@);
    let ghost ks = views(event_keys@);
    let mut out: Vec<usize> = Vec::new();
    let mut i: usize = 0;
    while i < event_keys.len()
        invariant
            i <= event_keys@.len(),
            st == views(stored_keys@),
            ks == views(event_keys@),
            out@ == fresh_positions(st, ks, i as int),
        decreases event_keys@.len() - i,
    {
        let key = chars_of(event_keys[i].as_str());
        let in_store = contains_key(stored_keys, stored_keys.len(), &key);
        let earlier = contains_key(event_keys, i, &key);
        proof {
            assert(ks[i as int] == key@);
            assert(in_store == st.contains(key@)) by {
                if in_store {
                    let j = choose|j: int| 0 <= j < stored_keys@.len() && stored_keys@[j]@ == key@;
                    assert(st[j] == key@);
                }
                if st.contains(key@) {
                    let j = choose|j: int| 0 <= j < st.len() && st[j] == key@;
                    assert(stored_keys@[j]@ == key@);
                }
            }
            assert(earlier == !(forall|j: int| 0 <= j < i ==> ks[j] != ks[i as int])) by {
                if earlier {
                    let j = choose|j: int| 0 <= j < i && event_keys@[j]@ == key@;
                    assert(ks[j] == ks[i as int]);
                }
            }
        }
        if !in_store && !earlier {
            out.push(i);
        }
        i = i + 1;
    }
    out
}

proof fn lemma_fresh_positions(stored: Seq<Seq<char>>, keys: Seq<Seq<char>>, n: int)
    requires
        0 <= n <= keys.len(),
        keys.len() <= usize::MAX,
    ensures
        forall|k: int| 0 <= k < fresh_positions(stored, keys, n).len() ==> {
            let p = #[trigger] fresh_positions(stored, keys, n)[k] as int;
            0 <= p < n && is_fresh(stored, keys, p)
        },
        forall|p: int| 0 <= p < n && is_fresh(stored, keys, p) ==> fresh_positions(stored, keys, n).contains(p as usize),
        forall|a: int, b: int| 0 <= a < b < fresh_positions(stored, keys, n).len() ==> fresh_positions(stored, keys, n)[a] < fresh_positions(stored, keys, n)[b],
    decreases n,
{
    if n > 0 {
        lemma_fresh_positions(stored, keys, n - 1);
        let rest = fresh_positions(stored, keys, n - 1);
        if is_fresh(stored, keys, n - 1) {
            assert(fresh_positions(stored, keys, n) == rest.push((n - 1) as usize));
            assert(((n - 1) as usize) as int == n - 1);
            assert forall|p: int| 0 <= p < n && is_fresh(stored, keys, p) implies fresh_positions(stored, keys, n).contains(p as usize) by {
                if p < n - 1 {
                    let k = choose|k: int| 0 <= k < rest.len() && rest[k] == p as usize;
                    assert(fresh_positions(stored, keys, n)[k] == p as usize);
                } else {
                    assert(fresh_positions(stored, keys, n)[rest.len() as int] == p as usize);
                }
            }
        }
    }
}

/// The events published after a refresh are new: no two share a key, none
/// is already stored, and every incoming key that is not stored is
/// published once, at its first occurrence.
pub proof fn law_published_events_are_new(stored: Seq<Seq<char>>, keys: Seq<Seq<char>>)
    requires
        keys.len() <= usize::MAX,
    ensures
        ({
            let r = fresh_positions(stored, keys, keys.len() as int);
            &&& forall|a: int, b: int| 0 <= a < b < r.len() ==> keys[r[a] as int] != keys[r[b] as int]
            &&& forall|a: int| 0 <= a < r.len() ==> !stored.contains(#[trigger] keys[r[a] as int])
            &&& forall|p: int| 0 <= p < keys.len() && !stored.contains(keys[p]) ==> exists|q: int|
                0 <= q <= p && keys[q] == keys[p] && r.contains(q as usize)
        }),
{
    let r = fresh_positions(stored, keys, keys.len() as int);
    lemma_fresh_positions(stored, keys, keys.len() as int);
    assert forall|a: int, b: int| 0 <= a < b < r.len() implies keys[r[a] as int] != keys[r[b] as int] by {
        assert(r[a] < r[b]);
        assert(is_fresh(stored, keys, r[b] as int));
    }
    assert forall|a: int| 0 <= a < r.len() implies !stored.contains(#[trigger] keys[r[a] as int]) by {
        assert(is_fresh(stored, keys, r[a] as int));
    }
    assert forall|p: int| 0 <= p < keys.len() && !stored.contains(keys[p]) implies exists|q: int|
        0 <= q <= p && keys[q] == keys[p] && r.contains(q as usize) by {
        lemma_first_occurrence(stored, keys, p, p);
    }
}

proof fn lemma_first_occurrence(stored: Seq<Seq<char>>, keys: Seq<Seq<char>>, p: int, c: int)
    requires
        0 <= c <= p < keys.len(),
        keys.len() <= usize::MAX,
        keys[c] == keys[p],
        !stored.contains(keys[p]),
        forall|k: int| 0 <= k < fresh_positions(stored, keys, keys.len() as int).len() ==> {
            let x = #[trigger] fresh_positions(stored, keys, keys.len() as int)[k] as int;
            0 <= x < keys.len() && is_fresh(stored, keys, x)
        },
        forall|x: int| 0 <= x < keys.len() && is_fresh(stored, keys, x) ==> fresh_positions(stored, keys, keys.len() as int).contains(x as usize),
    ensures
        exists|q: int| 0 <= q <= p && keys[q] == keys[p] && fresh_positions(stored, keys, keys.len() as int).contains(q as usize),
    decreases c,
{
    if is_fresh(stored, keys, c) {
        assert(fresh_positions(stored, keys, keys.len() as int).contains(c as usize));
    } else {
        let j = choose|j: int| 0 <= j < c && keys[j] == keys[c];
        lemma_first_occurrence(stored, keys, p, j);
    }
}

} // verus!
