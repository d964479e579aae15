//! The closed failure taxonomy of the access layer.
use vstd::prelude::*;

verus! {

/// Every way a call through the access layer can fail.
///
/// Exactly one of a decoded response or one of these values comes back
/// from a dispatch; nothing is retried internally, and each variant
/// carries enough context to diagnose the failure without re-issuing
/// the call.
#[derive(Debug, Clone)]
pub enum Error {
    /// A named process setting was absent at construction time.
    MissingEnv { variable: String },
    /// The transport failed before an HTTP status was available; carries
    /// the network-level cause as the transport reported it.
    Transport { cause: String },
    /// A success response body could not be decoded into the declared
    /// response type; carries the parser's cause and a diagnostic
    /// message describing what was being decoded.
    Decode { cause: String, msg: String },
    /// The service answered with a client-side status; carries the exact
    /// numeric code and the raw body text verbatim.
    ClientError(u16, String),
    /// The service answered with a server-side status; carries the exact
    /// numeric code and the raw body text verbatim.
    ServerError(u16, String),
}

} // verus!
