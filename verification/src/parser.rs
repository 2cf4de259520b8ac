//! Classification of frames received on the controller's event stream.

use vstd::prelude::*;

use crate::text::str_is;

verus! {

/// Whether a stream key names a live device-statistics frame.
pub open spec fn spec_is_device_sync(key: Seq<char>) -> bool {
    key == "device:sync"@ || key == "device:update"@
}

/// Whether a WebSocket key is a live device-stats frame.
pub fn is_device_sync(key: &str) -> (r: bool)
    ensures
        r == spec_is_device_sync(key@),
{
    str_is(key, "device:sync") || str_is(key, "device:update")
}

} // verus!

verus! {

/// Whether a stream frame's items are decoded as typed events: only frames
/// whose `meta.message` is `"events"` are; every other frame is built from
/// its raw items.
pub fn frame_items_are_events(message: Option<&str>) -> (b: bool)
    ensures
        b == (match message {
            Some(m) => m@ == "events"@,
            None => false,
        }),
{
    match message {
        Some(m) => str_is(m, "events"),
        None => false,
    }
}

/// The core fields of an event built from an untyped frame item.
#[derive(Debug)]
pub struct EventHeader {
    pub key: String,
    pub subsystem: String,
    pub site_id: String,
    pub message: Option<String>,
    pub datetime: Option<String>,
    /// Whether the item's whole payload is kept. Live device-stats frames
    /// carry the full device record, so only their stats subset is kept.
    pub keeps_payload: bool,
}

/// Text view of an optional `&str`.
pub open spec fn opt_text(s: Option<&str>) -> Option<Seq<char>> {
    match s {
        Some(t) => Some(t@),
        None => None,
    }
}

/// A field's text, or the given default.
pub open spec fn text_or(s: Option<&str>, default: Seq<char>) -> Seq<char> {
    match s {
        Some(t) => t@,
        None => default,
    }
}

fn owned_or(s: Option<&str>, default: &str) -> (r: String)
    ensures
        r@ == text_or(s, default@),
{
    match s {
        Some(t) => t.to_owned(),
        None => default.to_owned(),
    }
}

fn owned(s: Option<&str>) -> (r: Option<String>)
    ensures
        crate::session::opt_view(r) == opt_text(s),
{
    match s {
        Some(t) => Some(t.to_owned()),
        None => None,
    }
}

/// Builds the core fields of an event from the string fields of an untyped
/// frame item (`None` where a field is absent or no string): the key falls
/// back to the frame's message type, the subsystem to `"unknown"`, the site
/// to the empty text; `msg` is preferred to `message`.
pub fn event_header(
    msg_type: &str,
    key: Option<&str>,
    subsystem: Option<&str>,
    site_id: Option<&str>,
    msg: Option<&str>,
    message: Option<&str>,
    datetime: Option<&str>,
) -> (h: EventHeader)
    ensures
        h.key@ == text_or(key, msg_type@),
        h.subsystem@ == text_or(subsystem, "unknown"@),
        h.site_id@ == text_or(site_id, ""@),
        crate::session::opt_view(h.message) == (if msg is Some { opt_text(msg) } else { opt_text(message) }),
        crate::session::opt_view(h.datetime) == opt_text(datetime),
        h.keeps_payload == !spec_is_device_sync(h.key@),
{
    let key = owned_or(key, msg_type);
    let keeps_payload = !is_device_sync(key.as_str());
    EventHeader {
        key,
        subsystem: owned_or(subsystem, "unknown"),
        site_id: owned_or(site_id, ""),
        message: if msg.is_some() { owned(msg) } else { owned(message) },
        datetime: owned(datetime),
        keeps_payload,
    }
}

} // verus!
