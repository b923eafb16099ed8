pub mod caller;
pub mod cosmos;
pub mod credential;
pub mod crypto;
pub mod ed25519;
pub mod encodings;
pub mod eth;
pub mod errors;
pub mod hashes;
pub mod host;
pub mod msgs;
pub mod passkey;
pub mod secp256k1;
pub mod secp256r1;
pub mod storage;
pub mod types;
pub mod utils;

use vstd::prelude::*;

use crate::errors::AuthError;

verus! {

/// Identifier of a credential: the signer's raw public key bytes, or, for a
/// caller credential, the bytes of a chain-native sender address string.
pub type CredentialId = Vec<u8>;

/// The shared capability every credential scheme implements: an identifier,
/// cheap structural checks, and the cryptographic check itself.
pub trait Verifiable: Sized {
    /// The identifier of this credential.
    spec fn id_spec(&self) -> Seq<u8>;

    /// The chain address prefix bound to this credential, for the schemes
    /// that carry one.
    spec fn hrp_spec(&self) -> Option<Seq<char>>;

    /// The structural checks `validate` performs: non-empty fields, minimum
    /// lengths, forbidden values.
    spec fn valid_spec(&self) -> bool;

    /// The exact condition under which `verify` succeeds.
    spec fn verify_ok_spec(&self) -> bool;

    /// Which error `validate` returns on this credential when it fails.
    spec fn validate_err_spec(&self, e: AuthError) -> bool;

    /// Which error `verify` returns on this credential when it fails.
    spec fn verify_err_spec(&self, e: AuthError) -> bool;

    fn id(&self) -> (r: CredentialId)
        ensures
            r@ == self.id_spec(),
    ;

    fn hrp(&self) -> (r: Option<String>)
        ensures
            (r matches Some(s) ==> self.hrp_spec() == Some(s@)),
            (r is None ==> self.hrp_spec() is None),
    ;

    fn validate(&self) -> (r: Result<(), AuthError>)
        ensures
            r is Ok <==> self.valid_spec(),
            (r matches Err(e) ==> self.validate_err_spec(e)),
    ;

    fn verify(&self) -> (r: Result<(), AuthError>)
        ensures
            r is Ok <==> self.verify_ok_spec(),
            (r matches Err(e) ==> self.verify_err_spec(e)),
    ;
}

} // verus!
