use vstd::prelude::*;

use crate::crypto::{
    ed25519_raw, ed25519_verify_oracle, secp256k1_raw, secp256k1_recover_oracle,
    secp256k1_recover_raw, secp256k1_verify_oracle, secp256r1_raw, secp256r1_verify_oracle,
};
use crate::errors::AuthError;

verus! {

/// The host capabilities the core is handed: raw elliptic-curve checks and
/// address humanization. Each method's outcome is described by a spec
/// function of the same host, so that what a verification run established
/// can be stated against the very capability that performed it.
pub trait HostApi: Sized {
    /// Outcome of this host's Ed25519 check: `None` when the host refuses
    /// the input, `Some(b)` for a completed check.
    spec fn ed25519_spec(&self, msg: Seq<u8>, sig: Seq<u8>, pk: Seq<u8>) -> Option<bool>;

    /// Outcome of this host's secp256k1 check over a message hash.
    spec fn secp256k1_spec(&self, hash: Seq<u8>, sig: Seq<u8>, pk: Seq<u8>) -> Option<bool>;

    /// Outcome of this host's secp256r1 check over a message hash.
    spec fn secp256r1_spec(&self, hash: Seq<u8>, sig: Seq<u8>, pk: Seq<u8>) -> Option<bool>;

    /// The public key this host recovers from a hash, a compact signature
    /// and a recovery parameter.
    spec fn recover_secp256k1_spec(&self, hash: Seq<u8>, sig: Seq<u8>, param: u8) -> Option<
        Seq<u8>,
    >;

    /// The textual address this host derives from a canonical binary
    /// address, when it can.
    spec fn humanize_spec(&self, canonical: Seq<u8>) -> Option<Seq<char>>;

    fn ed25519_verify(&self, msg: &[u8], sig: &[u8], pk: &[u8]) -> (r: Result<bool, AuthError>)
        ensures
            (r matches Ok(b) ==> self.ed25519_spec(msg@, sig@, pk@) == Some(b)),
            (r is Err ==> self.ed25519_spec(msg@, sig@, pk@) is None),
    ;

    fn secp256k1_verify(&self, hash: &[u8], sig: &[u8], pk: &[u8]) -> (r: Result<bool, AuthError>)
        ensures
            (r matches Ok(b) ==> self.secp256k1_spec(hash@, sig@, pk@) == Some(b)),
            (r is Err ==> self.secp256k1_spec(hash@, sig@, pk@) is None),
    ;

    fn secp256r1_verify(&self, hash: &[u8], sig: &[u8], pk: &[u8]) -> (r: Result<bool, AuthError>)
        ensures
            (r matches Ok(b) ==> self.secp256r1_spec(hash@, sig@, pk@) == Some(b)),
            (r is Err ==> self.secp256r1_spec(hash@, sig@, pk@) is None),
    ;

    fn secp256k1_recover_pubkey(&self, hash: &[u8], sig: &[u8], param: u8) -> (r: Result<
        Vec<u8>,
        AuthError,
    >)
        ensures
            (r matches Ok(pk) ==> self.recover_secp256k1_spec(hash@, sig@, param) == Some(pk@)),
            (r is Err ==> self.recover_secp256k1_spec(hash@, sig@, param) is None),
    ;

    fn addr_humanize(&self, canonical: &[u8]) -> (r: Result<String, AuthError>)
        ensures
            (r matches Ok(s) ==> self.humanize_spec(canonical@) == Some(s@)),
            (r is Err ==> self.humanize_spec(canonical@) is None),
    ;
}

/// The self-contained host: elliptic-curve checks performed in-process by
/// the bundled crypto provider. It cannot humanize addresses, since no
/// ambient chain prefix exists outside a concrete chain.
pub struct NativeApi;

impl HostApi for NativeApi {
    open spec fn ed25519_spec(&self, msg: Seq<u8>, sig: Seq<u8>, pk: Seq<u8>) -> Option<bool> {
        ed25519_raw(msg, sig, pk)
    }

    open spec fn secp256k1_spec(&self, hash: Seq<u8>, sig: Seq<u8>, pk: Seq<u8>) -> Option<bool> {
        secp256k1_raw(hash, sig, pk)
    }

    open spec fn secp256r1_spec(&self, hash: Seq<u8>, sig: Seq<u8>, pk: Seq<u8>) -> Option<bool> {
        secp256r1_raw(hash, sig, pk)
    }

    open spec fn recover_secp256k1_spec(&self, hash: Seq<u8>, sig: Seq<u8>, param: u8) -> Option<
        Seq<u8>,
    > {
        secp256k1_recover_raw(hash, sig, param)
    }

    open spec fn humanize_spec(&self, canonical: Seq<u8>) -> Option<Seq<char>> {
        None
    }

    fn ed25519_verify(&self, msg: &[u8], sig: &[u8], pk: &[u8]) -> (r: Result<bool, AuthError>) {
        match ed25519_verify_oracle(msg, sig, pk) {
            Ok(b) => Ok(b),
            Err(_) => Err(AuthError::Signature("ed25519 check refused the input".to_string())),
        }
    }

    fn secp256k1_verify(&self, hash: &[u8], sig: &[u8], pk: &[u8]) -> (r: Result<
        bool,
        AuthError,
    >) {
        match secp256k1_verify_oracle(hash, sig, pk) {
            Ok(b) => Ok(b),
            Err(_) => Err(AuthError::Signature("secp256k1 check refused the input".to_string())),
        }
    }

    fn secp256r1_verify(&self, hash: &[u8], sig: &[u8], pk: &[u8]) -> (r: Result<
        bool,
        AuthError,
    >) {
        match secp256r1_verify_oracle(hash, sig, pk) {
            Ok(b) => Ok(b),
            Err(_) => Err(AuthError::Signature("secp256r1 check refused the input".to_string())),
        }
    }

    fn secp256k1_recover_pubkey(&self, hash: &[u8], sig: &[u8], param: u8) -> (r: Result<
        Vec<u8>,
        AuthError,
    >) {
        match secp256k1_recover_oracle(hash, sig, param) {
            Ok(pk) => Ok(pk),
            Err(_) => Err(AuthError::Signature("public key recovery failed".to_string())),
        }
    }

    fn addr_humanize(&self, canonical: &[u8]) -> (r: Result<String, AuthError>) {
        Err(AuthError::Generic("this host cannot humanize an address".to_string()))
    }
}

} // verus!
