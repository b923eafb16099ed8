use vstd::prelude::*;
use vstd::string::StrSliceExecFns;

use crate::encodings::{base64_of, to_base64};
use crate::errors::AuthError;
use crate::hashes::{keccak256, keccak256_of};
use crate::host::{HostApi, NativeApi};
use crate::types::{CredentialInfo, CredentialName};
use crate::{CredentialId, Verifiable};

verus! {

/// The decimal digits of a number, most significant first, as ASCII bytes.
pub open spec fn dec_digits(n: nat) -> Seq<u8>
    decreases n,
{
    if n < 10 {
        seq![(48 + n) as u8]
    } else {
        dec_digits(n / 10) + seq![(48 + n % 10) as u8]
    }
}

/// Render a length as its ASCII decimal digits.
pub fn dec_bytes(n: usize) -> (r: Vec<u8>)
    ensures
        r@ == dec_digits(n as nat),
    decreases n,
{
    if n < 10 {
        let mut v: Vec<u8> = Vec::new();
        v.push(48 + (n as u8));
        proof {
            assert(v@ =~= dec_digits(n as nat));
        }
        v
    } else {
        let mut v = dec_bytes(n / 10);
        v.push(48 + ((n % 10) as u8));
        proof {
            assert(v@ =~= dec_digits(n as nat));
        }
        v
    }
}

/// The fixed prefix of the Ethereum personal-sign convention.
pub open spec fn eth_prefix_spec() -> Seq<u8> {
    vstd::utf8::encode_utf8("\x19Ethereum Signed Message:\n"@)
}

/// The bytes the Ethereum personal-sign convention hashes: the fixed
/// prefix, the decimal length of the message, and the message itself.
pub open spec fn eth_preimage_spec(msg: Seq<u8>) -> Seq<u8> {
    eth_prefix_spec() + dec_digits(msg.len()) + msg
}

/// The personal-sign digest: keccak256 over the prefixed message.
pub open spec fn eth_digest_spec(msg: Seq<u8>) -> Seq<u8> {
    keccak256_of(eth_preimage_spec(msg))
}

/// Compute the personal-sign digest of a message.
pub fn eth_personal_digest(msg: &[u8]) -> (r: Vec<u8>)
    ensures
        r@ == eth_digest_spec(msg@),
        r@.len() == 32,
{
    let mut preimage: Vec<u8> = "\x19Ethereum Signed Message:\n".as_bytes_vec();
    let mut digits = dec_bytes(msg.len());
    preimage.append(&mut digits);
    let mut body = vstd::slice::slice_to_vec(msg);
    preimage.append(&mut body);
    proof {
        assert(preimage@ =~= eth_preimage_spec(msg@));
    }
    keccak256(preimage.as_slice())
}

/// The recovery parameter encoded in the last signature byte: the
/// personal-sign convention writes 27 or 28, which stand for 0 and 1.
pub open spec fn rec_param_spec(v: u8) -> u8 {
    if v >= 27 {
        (v - 27) as u8
    } else {
        v
    }
}

/// Whether two byte strings hold the same bytes.
pub fn bytes_equal(a: &[u8], b: &[u8]) -> (r: bool)
    ensures
        r == (a@ == b@),
{
    if a.len() != b.len() {
        return false;
    }
    let n = a.len();
    let mut i: usize = 0;
    while i < n
        invariant
            n == a@.len(),
            n == b@.len(),
            i <= n,
            forall|j: int| 0 <= j < i ==> a@[j] == b@[j],
        decreases n - i,
    {
        if a[i] != b[i] {
            return false;
        }
        i = i + 1;
    }
    proof {
        assert(a@ =~= b@);
    }
    true
}

/// An externally-signed personal message: the signer's uncompressed
/// secp256k1 public key, the signed message, and the 65-byte recoverable
/// signature (64 compact bytes and a recovery byte).
#[derive(Debug)]
pub struct EthPersonalSign {
    pub pubkey: Vec<u8>,
    pub message: Vec<u8>,
    pub signature: Vec<u8>,
}

impl EthPersonalSign {
    /// Whether the given host recovers exactly the stated public key from
    /// the personal-sign digest and the signature.
    pub open spec fn verify_ok_with<A: HostApi>(&self, api: &A) -> bool {
        self.signature@.len() == 65 && api.recover_secp256k1_spec(
            eth_digest_spec(self.message@),
            self.signature@.subrange(0, 64),
            rec_param_spec(self.signature@[64]),
        ) == Some(self.pubkey@)
    }

    /// The public key under base64, as a readable identifier.
    pub fn human_id(&self) -> (r: String)
        ensures
            r@ == base64_of(self.pubkey@),
    {
        to_base64(self.pubkey.as_slice())
    }

    /// What registration persists for this scheme: its tag alone.
    pub fn info(&self) -> (r: CredentialInfo)
        ensures
            r.name == CredentialName::EthPersonalSign,
            r.hrp is None,
            r.extension is None,
    {
        CredentialInfo { name: CredentialName::EthPersonalSign, hrp: None, extension: None }
    }

    /// The message bytes this credential signs.
    pub fn message(&self) -> (r: Vec<u8>)
        ensures
            r@ == self.message@,
    {
        self.message.clone()
    }

    /// Recover the signer of the personal-sign digest under the given
    /// host's capability and compare it with the stated public key.
    /// Succeeds exactly when the recovered key matches.
    pub fn verify_with<A: HostApi>(&self, api: &A) -> (r: Result<(), AuthError>)
        ensures
            r is Ok <==> self.verify_ok_with(api),
            (r matches Err(e) ==> (if self.signature@.len() == 65 {
                e is Signature
            } else {
                e is InvalidLength
            })),
    {
        if self.signature.len() != 65 {
            return Err(
                AuthError::InvalidLength("the signature must hold 65 bytes".to_string()),
            );
        }
        let digest = eth_personal_digest(self.message.as_slice());
        let sig64 = vstd::slice::slice_subrange(self.signature.as_slice(), 0, 64);
        let v = self.signature[64];
        let param = if v >= 27 {
            v - 27
        } else {
            v
        };
        match api.secp256k1_recover_pubkey(digest.as_slice(), sig64, param) {
            Ok(recovered) => {
                if bytes_equal(recovered.as_slice(), self.pubkey.as_slice()) {
                    Ok(())
                } else {
                    Err(AuthError::Signature("the recovered key does not match".to_string()))
                }
            },
            Err(_) => Err(AuthError::Signature("public key recovery failed".to_string())),
        }
    }
}

impl Verifiable for EthPersonalSign {
    open spec fn id_spec(&self) -> Seq<u8> {
        self.pubkey@
    }

    open spec fn hrp_spec(&self) -> Option<Seq<char>> {
        None
    }

    open spec fn valid_spec(&self) -> bool {
        self.signature@.len() > 0 && self.message@.len() > 0 && self.pubkey@.len() > 0
    }

    open spec fn verify_ok_spec(&self) -> bool {
        self.verify_ok_with(&NativeApi)
    }

    open spec fn validate_err_spec(&self, e: AuthError) -> bool {
        e is MissingData
    }

    open spec fn verify_err_spec(&self, e: AuthError) -> bool {
        e is Signature || e is InvalidLength
    }

    fn id(&self) -> (r: CredentialId) {
        self.pubkey.clone()
    }

    fn hrp(&self) -> (r: Option<String>) {
        None
    }

    fn validate(&self) -> (r: Result<(), AuthError>) {
        if self.signature.len() > 0 && self.message.len() > 0 && self.pubkey.len() > 0 {
            Ok(())
        } else {
            Err(AuthError::MissingData("empty credential data".to_string()))
        }
    }

    fn verify(&self) -> (r: Result<(), AuthError>) {
        self.verify_with(&NativeApi)
    }
}

} // verus!
