use vstd::prelude::*;

verus! {

/// The error kinds a gateway request can end with.
///
/// Every gateway-path error aborts the single request that produced it;
/// no failure affects any other in-flight request.
#[derive(Clone, Copy, Debug, PartialEq, Eq, Structural)]
pub enum GatewayError {
    /// Missing, malformed, invalid, expired or audience-mismatched
    /// session credential; the request ends with no backend call made.
    Unauthorized,
    /// Catalog miss: the logical resource name is not registered.
    ResourceNotFound,
    /// Serialization failure or unexpected backing-store failure
    /// during token rotation.
    General,
    /// Failure to reach a backend over the network.
    Transport,
}

/// Why verification of a signed token failed.
#[derive(Clone, Copy, Debug, PartialEq, Eq, Structural)]
pub enum TokenError {
    /// The token is malformed or its signature does not verify
    /// under the configured public key.
    InvalidSignature,
    /// The token was issued for a different audience.
    AudienceMismatch,
    /// The token's expiry instant has been reached (zero leeway).
    Expired,
}

} // verus!
