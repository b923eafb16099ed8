use vstd::prelude::*;
use vstd::string::StrSliceExecFns;

use crate::errors::AuthError;
use crate::types::ChainEnv;
use crate::{CredentialId, Verifiable};

verus! {

/// A caller credential: no signature at all. The identity it asserts is the
/// sender of the current transaction, which the host context vouches for;
/// an unset caller carries no identifier yet.
#[derive(Debug)]
pub struct Caller {
    pub id: Option<Vec<u8>>,
}

impl Caller {
    /// A caller credential bound to the sender of the given chain context.
    pub fn from_env(env: &ChainEnv) -> (r: Caller)
        ensures
            r.id matches Some(v) && v@ == vstd::utf8::encode_utf8(env.sender@),
    {
        let bytes = env.sender.as_str().as_bytes_vec();
        Caller { id: Some(bytes) }
    }
}

impl Verifiable for Caller {
    open spec fn id_spec(&self) -> Seq<u8> {
        match self.id {
            Some(v) => v@,
            None => Seq::empty(),
        }
    }

    open spec fn hrp_spec(&self) -> Option<Seq<char>> {
        None
    }

    open spec fn valid_spec(&self) -> bool {
        true
    }

    open spec fn verify_ok_spec(&self) -> bool {
        true
    }

    open spec fn validate_err_spec(&self, e: AuthError) -> bool {
        false
    }

    open spec fn verify_err_spec(&self, e: AuthError) -> bool {
        false
    }

    fn id(&self) -> (r: CredentialId) {
        match &self.id {
            Some(v) => v.clone(),
            None => Vec::new(),
        }
    }

    fn hrp(&self) -> (r: Option<String>) {
        None
    }

    /// The caller scheme has no structure to check: it always passes.
    fn validate(&self) -> (r: Result<(), AuthError>) {
        Ok(())
    }

    /// Trivially authorized: the caller identity is asserted by the host
    /// transaction context, not by a signature.
    fn verify(&self) -> (r: Result<(), AuthError>) {
        Ok(())
    }
}

} // verus!
