use vstd::prelude::*;

verus! {

/// Failure taxonomy of the credential core.
///
/// Every check fails fast and returns the first error met; nothing is
/// retried, since verification is a pure function of its inputs.
#[derive(Debug, PartialEq, Eq)]
pub enum AuthError {
    /// A required field is empty or absent: the caller's fault, never retried.
    MissingData(String),
    /// A field has a length the scheme forbids.
    InvalidLength(String),
    /// The cryptographic check returned false, or the oracle itself errored:
    /// an authoritative rejection.
    Signature(String),
    /// The credential id is not registered in the store.
    NotFound,
    /// A precondition failed, such as a missing address prefix.
    Generic(String),
}

} // verus!
