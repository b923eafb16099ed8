use vstd::prelude::*;

verus! {

/// The error type of the host crypto provider, opaque to the core.
#[verifier::external_type_specification]
#[verifier::external_body]
pub struct ExCryptoError(cosmwasm_crypto::CryptoError);

/// Outcome of an Ed25519 check over (message, signature, public key), as
/// cosmwasm_crypto::ed25519_verify computes it: `None` stands for the
/// provider refusing the input shape, `Some(b)` for a completed check.
/// A function of the arguments alone.
pub uninterp spec fn ed25519_raw(msg: Seq<u8>, sig: Seq<u8>, pubkey: Seq<u8>) -> Option<bool>;

/// Outcome of a secp256k1 check over (message hash, signature, public key),
/// as cosmwasm_crypto::secp256k1_verify computes it. A function of the
/// arguments alone.
pub uninterp spec fn secp256k1_raw(msg_hash: Seq<u8>, sig: Seq<u8>, pubkey: Seq<u8>) -> Option<bool>;

/// Outcome of a secp256r1 check over (message hash, signature, public key),
/// as cosmwasm_crypto::secp256r1_verify computes it. A function of the
/// arguments alone.
pub uninterp spec fn secp256r1_raw(msg_hash: Seq<u8>, sig: Seq<u8>, pubkey: Seq<u8>) -> Option<bool>;

/// The public key cosmwasm_crypto::secp256k1_recover_pubkey recovers from a
/// message hash, a 64-byte compact signature and a recovery parameter:
/// `None` when recovery fails, otherwise the uncompressed SEC1 encoding.
/// A function of the arguments alone.
pub uninterp spec fn secp256k1_recover_raw(msg_hash: Seq<u8>, sig: Seq<u8>, param: u8) -> Option<Seq<u8>>;

/// Relies on cosmwasm_crypto::ed25519_verify: it errors exactly when the
/// signature is not 64 bytes or the public key is not 32 bytes, and
/// otherwise returns the outcome of the Ed25519 check.
#[verifier::external_body]
pub fn ed25519_verify_oracle(msg: &[u8], sig: &[u8], pubkey: &[u8]) -> (r: Result<
    bool,
    cosmwasm_crypto::CryptoError,
>)
    ensures
        r is Err <==> !(sig@.len() == 64 && pubkey@.len() == 32),
        r matches Ok(b) ==> ed25519_raw(msg@, sig@, pubkey@) == Some(b),
        r is Err ==> ed25519_raw(msg@, sig@, pubkey@) is None,
{
    cosmwasm_crypto::ed25519_verify(msg, sig, pubkey)
}

/// Relies on cosmwasm_crypto::secp256k1_verify: it refuses a hash that is
/// not 32 bytes, a signature that is not 64 bytes, and a public key that is
/// neither a 33-byte compressed nor a 65-byte uncompressed SEC1 encoding;
/// on other inputs it may still refuse a malformed signature or point, and
/// otherwise returns the outcome of the secp256k1 check.
#[verifier::external_body]
pub fn secp256k1_verify_oracle(msg_hash: &[u8], sig: &[u8], pubkey: &[u8]) -> (r: Result<
    bool,
    cosmwasm_crypto::CryptoError,
>)
    ensures
        r matches Ok(b) ==> secp256k1_raw(msg_hash@, sig@, pubkey@) == Some(b),
        r is Err ==> secp256k1_raw(msg_hash@, sig@, pubkey@) is None,
        msg_hash@.len() != 32 || sig@.len() != 64 ==> r is Err,
{
    cosmwasm_crypto::secp256k1_verify(msg_hash, sig, pubkey)
}

/// Relies on cosmwasm_crypto::secp256r1_verify, with the same input shape
/// rules as the secp256k1 check.
#[verifier::external_body]
pub fn secp256r1_verify_oracle(msg_hash: &[u8], sig: &[u8], pubkey: &[u8]) -> (r: Result<
    bool,
    cosmwasm_crypto::CryptoError,
>)
    ensures
        r matches Ok(b) ==> secp256r1_raw(msg_hash@, sig@, pubkey@) == Some(b),
        r is Err ==> secp256r1_raw(msg_hash@, sig@, pubkey@) is None,
        msg_hash@.len() != 32 || sig@.len() != 64 ==> r is Err,
{
    cosmwasm_crypto::secp256r1_verify(msg_hash, sig, pubkey)
}

/// Relies on cosmwasm_crypto::secp256k1_recover_pubkey: it errors on a hash
/// that is not 32 bytes, a signature that is not 64 bytes, a recovery
/// parameter other than 0 or 1, and on failed recovery; on success it
/// returns the recovered key as a 65-byte uncompressed SEC1 encoding.
#[verifier::external_body]
pub fn secp256k1_recover_oracle(msg_hash: &[u8], sig: &[u8], param: u8) -> (r: Result<
    Vec<u8>,
    cosmwasm_crypto::CryptoError,
>)
    ensures
        r matches Ok(pk) ==> secp256k1_recover_raw(msg_hash@, sig@, param) == Some(pk@)
            && pk@.len() == 65,
        r is Err ==> secp256k1_recover_raw(msg_hash@, sig@, param) is None,
        msg_hash@.len() != 32 || sig@.len() != 64 || param > 1 ==> r is Err,
{
    cosmwasm_crypto::secp256k1_recover_pubkey(msg_hash, sig, param)
}

} // verus!
