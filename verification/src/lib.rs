//! Verified core logic of a UniFi network controller client: site
//! resolution, session-response classification, re-authentication
//! bookkeeping, reconnect backoff and merging of session data into the
//! integration model.

pub mod text;
pub mod parser;
pub mod error;
pub mod site;
pub mod backoff;
pub mod models;
pub mod parsed_url;
pub mod session;
pub mod interface;
pub mod merge;
pub mod model;
pub mod net;
pub mod refresh;
pub mod support;
pub mod sync;
pub mod tui;
