use vstd::prelude::*;

use crate::encodings::{base64_of, to_base64};
use crate::errors::AuthError;
use crate::hashes::{sha256, sha256_of};
use crate::host::{HostApi, NativeApi};
use crate::types::{CredentialInfo, CredentialName};
use crate::{CredentialId, Verifiable};

verus! {

/// A secp256r1 credential: a SEC1-encoded public key, the signed message,
/// and the compact signature over sha256(message).
#[derive(Debug)]
pub struct Secp256r1 {
    pub pubkey: Vec<u8>,
    pub message: Vec<u8>,
    pub signature: Vec<u8>,
}

impl Secp256r1 {
    /// The digest the signature is checked against: sha256(message).
    pub open spec fn digest_spec(&self) -> Seq<u8> {
        sha256_of(self.message@)
    }

    /// Whether the given host's secp256r1 check accepts this credential.
    pub open spec fn verify_ok_with<A: HostApi>(&self, api: &A) -> bool {
        api.secp256r1_spec(self.digest_spec(), self.signature@, self.pubkey@) == Some(true)
    }

    /// The public key under base64, as a readable identifier.
    pub fn human_id(&self) -> (r: String)
        ensures
            r@ == base64_of(self.pubkey@),
    {
        to_base64(self.pubkey.as_slice())
    }

    /// What registration persists for this scheme: its tag alone, with no
    /// prefix and no auxiliary data.
    pub fn info(&self) -> (r: CredentialInfo)
        ensures
            r.name == CredentialName::Secp256r1,
            r.hrp is None,
            r.extension is None,
    {
        CredentialInfo { name: CredentialName::Secp256r1, hrp: None, extension: None }
    }

    /// The message bytes this credential signs.
    pub fn message(&self) -> (r: Vec<u8>)
        ensures
            r@ == self.message@,
    {
        self.message.clone()
    }

    /// Check the signature against sha256(message) under the given host's
    /// secp256r1 capability. Succeeds exactly when that check accepts; any
    /// refusal or mismatch is a signature error.
    pub fn verify_with<A: HostApi>(&self, api: &A) -> (r: Result<(), AuthError>)
        ensures
            r is Ok <==> self.verify_ok_with(api),
            (r matches Err(e) ==> e is Signature),
    {
        let digest = sha256(self.message.as_slice());
        match api.secp256r1_verify(
            digest.as_slice(),
            self.signature.as_slice(),
            self.pubkey.as_slice(),
        ) {
            Ok(true) => Ok(()),
            Ok(false) => Err(AuthError::Signature("signature verification failed".to_string())),
            Err(_) => Err(AuthError::Signature("signature verification failed".to_string())),
        }
    }
}

impl Verifiable for Secp256r1 {
    open spec fn id_spec(&self) -> Seq<u8> {
        self.pubkey@
    }

    open spec fn hrp_spec(&self) -> Option<Seq<char>> {
        None
    }

    open spec fn valid_spec(&self) -> bool {
        self.signature@.len() > 0 && self.message@.len() > 0 && self.pubkey@.len() > 0
    }

    open spec fn verify_ok_spec(&self) -> bool {
        self.verify_ok_with(&NativeApi)
    }

    open spec fn validate_err_spec(&self, e: AuthError) -> bool {
        e is MissingData
    }

    open spec fn verify_err_spec(&self, e: AuthError) -> bool {
        e is Signature
    }

    fn id(&self) -> (r: CredentialId) {
        self.pubkey.clone()
    }

    fn hrp(&self) -> (r: Option<String>) {
        None
    }

    fn validate(&self) -> (r: Result<(), AuthError>) {
        if self.signature.len() > 0 && self.message.len() > 0 && self.pubkey.len() > 0 {
            Ok(())
        } else {
            Err(AuthError::MissingData("empty credential data".to_string()))
        }
    }

    fn verify(&self) -> (r: Result<(), AuthError>) {
        self.verify_with(&NativeApi)
    }
}

} // verus!
