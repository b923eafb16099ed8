use vstd::prelude::*;
use vstd::string::StringExecFns;

use crate::encodings::{base64_of, to_base64};
use crate::errors::AuthError;
use crate::hashes::{sha256, sha256_of};
use crate::host::{HostApi, NativeApi};
use crate::types::{CredentialInfo, CredentialName};
use crate::utils::{address_of, pubkey_to_address, valid_hrp};
use crate::{CredentialId, Verifiable};

verus! {

/// The ADR-36 arbitrary-sign envelope: a fixed JSON template embedding the
/// signer address and the base64 payload under the `sign/MsgSignData`
/// schema, with every other field pinned to its neutral value. Any
/// deviation from this exact text makes the hash, and so the signature
/// check, fail closed.
pub open spec fn preamble_spec(signer: Seq<char>, data: Seq<char>) -> Seq<char> {
    "{\"account_number\":\"0\",\"chain_id\":\"\",\"fee\":{\"amount\":[],\"gas\":\"0\"},\"memo\":\"\",\"msgs\":[{\"type\":\"sign/MsgSignData\",\"value\":{\"data\":\""@
        + data + "\",\"signer\":\""@ + signer + "\"}}],\"sequence\":\"0\"}"@
}

/// Build the ADR-36 preamble for a signer address and a base64 payload,
/// character for character as the chain's own arbitrary-sign convention
/// writes it.
pub fn preamble_msg_arb_036(signer: &str, data: &str) -> (r: String)
    ensures
        r@ == preamble_spec(signer@, data@),
{
    let mut s = String::new();
    s.append(
        "{\"account_number\":\"0\",\"chain_id\":\"\",\"fee\":{\"amount\":[],\"gas\":\"0\"},\"memo\":\"\",\"msgs\":[{\"type\":\"sign/MsgSignData\",\"value\":{\"data\":\"",
    );
    s.append(data);
    s.append("\",\"signer\":\"");
    s.append(signer);
    s.append("\"}}],\"sequence\":\"0\"}");
    proof {
        assert(s@ =~= preamble_spec(signer@, data@));
    }
    s
}

/// A chain-arbitrary-sign credential: a secp256k1 public key, the signed
/// message bytes, the compact signature, and the chain address prefix the
/// signer address is derived under.
#[derive(Debug)]
pub struct CosmosArbitrary {
    pub pubkey: Vec<u8>,
    pub signature: Vec<u8>,
    pub message: Vec<u8>,
    pub hrp: Option<String>,
}

impl CosmosArbitrary {
    /// The prefix characters, when a prefix is present.
    pub open spec fn hrp_chars(&self) -> Seq<char> {
        match self.hrp {
            Some(h) => h@,
            None => Seq::empty(),
        }
    }

    /// Whether a prefix is present and acceptable to the address encoder.
    pub open spec fn derivable_spec(&self) -> bool {
        self.hrp is Some && valid_hrp(self.hrp_chars())
    }

    /// The digest the signature is checked against: sha256 of the ADR-36
    /// preamble built from the derived signer address and the base64 of
    /// the message.
    pub open spec fn digest_spec(&self) -> Seq<u8> {
        sha256_of(
            vstd::utf8::encode_utf8(
                preamble_spec(
                    address_of(self.pubkey@, self.hrp_chars()),
                    base64_of(self.message@),
                ),
            ),
        )
    }

    /// Whether the given host's secp256k1 check accepts the ADR-36 digest
    /// of this credential.
    pub open spec fn verify_ok_with<A: HostApi>(&self, api: &A) -> bool {
        self.derivable_spec() && api.secp256k1_spec(self.digest_spec(), self.signature@, self.pubkey@)
            == Some(true)
    }

    /// The public key under base64, as a readable identifier.
    pub fn human_id(&self) -> (r: String)
        ensures
            r@ == base64_of(self.pubkey@),
    {
        to_base64(self.pubkey.as_slice())
    }

    /// What registration persists for this scheme: its tag and the address
    /// prefix it was supplied with.
    pub fn info(&self) -> (r: CredentialInfo)
        ensures
            r.name == CredentialName::CosmosArbitrary,
            (r.hrp matches Some(h) ==> self.hrp matches Some(m) && h@ == m@),
            (r.hrp is None ==> self.hrp is None),
            r.extension is None,
    {
        let hrp = match &self.hrp {
            Some(h) => Some(h.clone()),
            None => None,
        };
        CredentialInfo { name: CredentialName::CosmosArbitrary, hrp, extension: None }
    }

    /// The message bytes this credential signs.
    pub fn message(&self) -> (r: Vec<u8>)
        ensures
            r@ == self.message@,
    {
        self.message.clone()
    }

    /// The ADR-36 digest of this credential: derive the signer address
    /// from the public key and prefix, wrap the base64 of the message in
    /// the preamble, and hash it. Fails exactly when the prefix is absent
    /// or unacceptable to the address encoder.
    pub fn message_digest(&self) -> (r: Result<Vec<u8>, AuthError>)
        ensures
            r is Ok <==> self.derivable_spec(),
            (r matches Ok(d) ==> d@ == self.digest_spec()),
            (r matches Err(e) ==> e is Generic),
    {
        let hrp = match &self.hrp {
            Some(h) => h,
            None => {
                return Err(
                    AuthError::Generic("must provide a prefix for the public key".to_string()),
                );
            },
        };
        let address = match pubkey_to_address(self.pubkey.as_slice(), hrp.as_str()) {
            Ok(a) => a,
            Err(e) => {
                return Err(e);
            },
        };
        let data = to_base64(self.message.as_slice());
        let preamble = preamble_msg_arb_036(address.as_str(), data.as_str());
        Ok(sha256(preamble.as_str().as_bytes()))
    }

    /// Check the signature against the ADR-36 digest under the given
    /// host's secp256k1 capability. Succeeds exactly when the address is
    /// derivable and that check accepts.
    pub fn verify_with<A: HostApi>(&self, api: &A) -> (r: Result<(), AuthError>)
        ensures
            r is Ok <==> self.verify_ok_with(api),
            (r matches Err(e) ==> (if self.derivable_spec() {
                e is Signature
            } else {
                e is Generic
            })),
    {
        let digest = match self.message_digest() {
            Ok(d) => d,
            Err(e) => {
                return Err(e);
            },
        };
        match api.secp256k1_verify(
            digest.as_slice(),
            self.signature.as_slice(),
            self.pubkey.as_slice(),
        ) {
            Ok(true) => Ok(()),
            Ok(false) => Err(AuthError::Signature("signature verification failed".to_string())),
            Err(_) => Err(AuthError::Signature("signature verification failed".to_string())),
        }
    }
}

impl Verifiable for CosmosArbitrary {
    open spec fn id_spec(&self) -> Seq<u8> {
        self.pubkey@
    }

    open spec fn hrp_spec(&self) -> Option<Seq<char>> {
        match self.hrp {
            Some(h) => Some(h@),
            None => None,
        }
    }

    open spec fn valid_spec(&self) -> bool {
        self.signature@.len() > 0 && self.message@.len() > 0 && self.pubkey@.len() > 0
            && self.hrp is Some
    }

    open spec fn verify_ok_spec(&self) -> bool {
        self.verify_ok_with(&NativeApi)
    }

    open spec fn validate_err_spec(&self, e: AuthError) -> bool {
        if self.signature@.len() == 0 || self.message@.len() == 0 || self.pubkey@.len() == 0 {
            e is MissingData
        } else {
            e is Generic
        }
    }

    open spec fn verify_err_spec(&self, e: AuthError) -> bool {
        if self.derivable_spec() {
            e is Signature
        } else {
            e is Generic
        }
    }

    fn id(&self) -> (r: CredentialId) {
        self.pubkey.clone()
    }

    fn hrp(&self) -> (r: Option<String>) {
        match &self.hrp {
            Some(h) => Some(h.clone()),
            None => None,
        }
    }

    fn validate(&self) -> (r: Result<(), AuthError>) {
        if !(self.signature.len() > 0 && self.message.len() > 0 && self.pubkey.len() > 0) {
            Err(AuthError::MissingData("empty credential data".to_string()))
        } else if self.hrp.is_none() {
            Err(AuthError::Generic("must provide a prefix for the public key".to_string()))
        } else {
            Ok(())
        }
    }

    fn verify(&self) -> (r: Result<(), AuthError>) {
        self.verify_with(&NativeApi)
    }
}

} // verus!
