//! Decisions of the periodic refresh: which API path to take, and how an
//! optional endpoint's failure degrades.

use vstd::prelude::*;

verus! {

/// Which snapshot a full refresh takes.
#[derive(Debug, Clone, Copy, PartialEq, Eq, Structural)]
pub enum RefreshPath {
    /// Integration API data for this site, completed from the Session API.
    Integration { site_id: u128 },
    /// Session API data alone.
    Session,
}

/// The Integration path is taken when both its client and a resolved site
/// are available; otherwise the Session API alone is used.
pub fn refresh_path(has_integration: bool, site_id: Option<u128>) -> (p: RefreshPath)
    ensures
        p == (if has_integration && site_id is Some {
            RefreshPath::Integration { site_id: site_id->0 }
        } else {
            RefreshPath::Session
        }),
{
    match site_id {
        Some(s) => if has_integration { RefreshPath::Integration { site_id: s } } else { RefreshPath::Session },
        None => RefreshPath::Session,
    }
}

/// The statistics poll runs only with an Integration client, a resolved site
/// and at least one device in the store.
pub fn stats_poll_applies(has_integration: bool, site_id: Option<u128>, device_count: usize) -> (b: bool)
    ensures
        b == (has_integration && site_id is Some && device_count > 0),
{
    has_integration && site_id.is_some() && device_count > 0
}

/// The converted items: the successes, in order, of converting each item.
pub open spec fn kept<D>(outs: Seq<Option<D>>) -> Seq<D>
    decreases outs.len(),
{
    if outs.len() == 0 {
        Seq::empty()
    } else {
        let rest = kept(outs.drop_last());
        match outs.last() {
            Some(d) => rest.push(d),
            None => rest,
        }
    }
}

/// Downgrades a failed fetch of an optional endpoint to an empty list, so
/// that one endpoint cannot abort the whole refresh; a successful fetch is
/// converted item by item, dropping the items that `convert` rejects.
pub fn unwrap_or_empty_with<S, D, E, F: Fn(S) -> Option<D>>(result: Result<Vec<S>, E>, convert: F) -> (r: Vec<D>)
    requires
        forall|s: S| #[trigger] convert.requires((s,)),
    ensures
        match result {
            Ok(items) => exists|outs: Seq<Option<D>>|
                outs.len() == items@.len() && (forall|i: int| 0 <= i < outs.len() ==> convert.ensures((items@[i],), #[trigger] outs[i]))
                && r@ == kept(outs),
            Err(_) => r@.len() == 0,
        },
{
    match result {
        Ok(items) => {
            let ghost src = items@;
            let ghost mut outs: Seq<Option<D>> = Seq::empty();
            let mut out: Vec<D> = Vec::new();
            for item in it: items.into_iter()
                invariant
                    it.seq() == src,
                    forall|s: S| #[trigger] convert.requires((s,)),
                    outs.len() == it.index(),
                    forall|i: int| 0 <= i < outs.len() ==> convert.ensures((src[i],), #[trigger] outs[i]),
                    out@ == kept(outs),
            {
                let c = convert(item);
                proof {
                    let prev = outs;
                    outs = outs.push(c);
                    assert(outs.drop_last() =~= prev);
                }
                match c {
                    Some(d) => out.push(d),
                    None => {},
                }
            }
            proof {
                assert(exists|o: Seq<Option<D>>|
                    o.len() == src.len() && (forall|i: int| 0 <= i < o.len() ==> convert.ensures((src[i],), #[trigger] o[i]))
                    && out@ == kept(o)) by {
                    assert(outs.len() == src.len());
                }
            }
            out
        },
        Err(_) => Vec::new(),
    }
}

/// Downgrades a failed fetch of an optional endpoint to an empty list; a
/// successful fetch is converted item by item with `From`.
pub fn unwrap_or_empty<S, D: From<S>, E>(result: Result<Vec<S>, E>) -> (r: Vec<D>)
    ensures
        match result {
            Ok(items) => r@.len() == items@.len() && forall|i: int|
                0 <= i < items@.len() ==> call_ensures(D::from, (items@[i],), #[trigger] r@[i]),
            Err(_) => r@.len() == 0,
        },
{
    match result {
        Ok(items) => {
            let ghost src = items@;
            let mut out: Vec<D> = Vec::new();
            for item in it: items.into_iter()
                invariant
                    it.seq() == src,
                    out@.len() == it.index(),
                    forall|i: int| 0 <= i < out@.len() ==> call_ensures(D::from, (src[i],), #[trigger] out@[i]),
            {
                out.push(D::from(item));
            }
            out
        },
        Err(_) => Vec::new(),
    }
}

/// The required listings of an integration refresh, once all are fetched.
#[derive(Debug)]
pub struct RequiredListings<D, C, N, W, S, T> {
    pub devices: Vec<D>,
    pub clients: Vec<C>,
    pub networks: Vec<N>,
    pub wifi: Vec<W>,
    pub sites: Vec<S>,
    pub traffic_matching_lists: Vec<T>,
}

/// Settles the required listings of an integration refresh: any failure
/// aborts the refresh with the error of the first failed listing, in the
/// order devices, clients, networks, WiFi broadcasts, sites, traffic
/// matching lists; otherwise every listing is kept as fetched. (The
/// optional listings degrade through `unwrap_or_empty`.)
pub fn required_listings<D, C, N, W, S, T, E>(
    devices: Result<Vec<D>, E>,
    clients: Result<Vec<C>, E>,
    networks: Result<Vec<N>, E>,
    wifi: Result<Vec<W>, E>,
    sites: Result<Vec<S>, E>,
    traffic_matching_lists: Result<Vec<T>, E>,
) -> (r: Result<RequiredListings<D, C, N, W, S, T>, E>)
    ensures
        match (devices, clients, networks, wifi, sites, traffic_matching_lists) {
            (Ok(d), Ok(c), Ok(n), Ok(w), Ok(s), Ok(t)) => r matches Ok(l) && l.devices == d && l.clients == c
                && l.networks == n && l.wifi == w && l.sites == s && l.traffic_matching_lists == t,
            (Err(e), _, _, _, _, _) => r matches Err(x) && x == e,
            (Ok(_), Err(e), _, _, _, _) => r matches Err(x) && x == e,
            (Ok(_), Ok(_), Err(e), _, _, _) => r matches Err(x) && x == e,
            (Ok(_), Ok(_), Ok(_), Err(e), _, _) => r matches Err(x) && x == e,
            (Ok(_), Ok(_), Ok(_), Ok(_), Err(e), _) => r matches Err(x) && x == e,
            (Ok(_), Ok(_), Ok(_), Ok(_), Ok(_), Err(e)) => r matches Err(x) && x == e,
        },
{
    let devices = match devices {
        Ok(v) => v,
        Err(e) => return Err(e),
    };
    let clients = match clients {
        Ok(v) => v,
        Err(e) => return Err(e),
    };
    let networks = match networks {
        Ok(v) => v,
        Err(e) => return Err(e),
    };
    let wifi = match wifi {
        Ok(v) => v,
        Err(e) => return Err(e),
    };
    let sites = match sites {
        Ok(v) => v,
        Err(e) => return Err(e),
    };
    let traffic_matching_lists = match traffic_matching_lists {
        Ok(v) => v,
        Err(e) => return Err(e),
    };
    Ok(RequiredListings { devices, clients, networks, wifi, sites, traffic_matching_lists })
}

} // verus!
