use vstd::prelude::*;

verus! {

/// Failure outcomes of one encryption call.
///
/// Every error aborts the whole call: no partial payload is ever returned.
#[derive(Clone, Copy, Debug, PartialEq, Eq, Structural)]
pub enum WebPushError {
    /// The plaintext exceeds the protocol's fixed ceiling; detected before
    /// any key material is touched.
    ContentTooLong,
    /// The requested content coding has no implementation.
    NotImplemented,
    /// An underlying agreement, derivation or sealing primitive failed
    /// (for example an invalid peer public key). Deliberately opaque.
    CryptoUnspecified,
    /// The secure random source failed to produce salt or ephemeral key
    /// material.
    RandomnessFailure,
}

} // verus!
