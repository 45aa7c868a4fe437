//! Error taxonomy of the relay client core.
use vstd::prelude::*;

verus! {

/// Failures that the core itself can detect and report.
///
/// Transport-level failures during submission and probe failures are
/// produced by the embedding application's I/O layer, not here.
#[derive(Clone, Copy, Debug, PartialEq, Eq, Structural)]
pub enum RelayError {
    /// The requested region has no entry in the provider's registry.
    RegionNotFound,
    /// The HTTP transport could not be constructed.
    TransportBuildFailed,
    /// A configured tip address failed to decode to a 32-byte key.
    TipAddressInvalid,
}

impl RelayError {
    /// A short human-readable description, in place of `Display`.
    pub fn describe(&self) -> (r: &'static str)
        ensures
            r@ == match self {
                RelayError::RegionNotFound => "region not found in registry"@,
                RelayError::TransportBuildFailed => "failed to build HTTP client"@,
                RelayError::TipAddressInvalid => "tip address is not a valid key"@,
            },
    {
        match self {
            RelayError::RegionNotFound => "region not found in registry",
            RelayError::TransportBuildFailed => "failed to build HTTP client",
            RelayError::TipAddressInvalid => "tip address is not a valid key",
        }
    }
}

} // verus!
