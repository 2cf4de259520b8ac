//! Errors surfaced by the controller layer.

use vstd::prelude::*;

verus! {

/// A site as shown in error hints: its slug and its display name.
#[derive(Debug, Clone)]
pub struct SiteHint {
    pub internal_reference: String,
    pub display_name: String,
}

/// Failures of controller-level operations.
#[derive(Debug)]
pub enum CoreError {
    /// The controller is not connected.
    ControllerDisconnected,
    /// No site matched the requested identifier.
    SiteNotFound { name: String, available: Vec<SiteHint> },
    /// More than one distinct site matched the requested identifier.
    SiteAmbiguous { name: String, matches: Vec<SiteHint> },
    /// The operation needs an API surface that is not configured.
    Unsupported { operation: String, required: String },
    /// No device carries the given identifier.
    DeviceNotFound { identifier: String },
    /// No client carries the given identifier.
    ClientNotFound { identifier: String },
}

} // verus!
