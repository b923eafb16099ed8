use smart_account_auth::credential::Credential;
use smart_account_auth::ed25519::Ed25519;
use smart_account_auth::errors::AuthError;
use smart_account_auth::eth::EthPersonalSign;
use smart_account_auth::passkey::{ClientData, PasskeyCredential};
use smart_account_auth::secp256k1::Secp256k1;
use smart_account_auth::Verifiable;

use sha2::Digest;

fn ed25519_fixture(message: &[u8]) -> Ed25519 {
    let sk = ed25519_zebra::SigningKey::from([1u8; 32]);
    let vk = ed25519_zebra::VerificationKey::from(&sk);
    let pk_bytes: [u8; 32] = vk.into();
    let digest = sha2::Sha256::digest(message);
    let signature = sk.sign(digest.as_slice());
    Ed25519 {
        pubkey: pk_bytes.to_vec(),
        message: message.to_vec(),
        signature: signature.to_bytes().to_vec(),
    }
}

#[test]
fn ed25519_verifies_a_conforming_signature() {
    let cred = ed25519_fixture(b"hello");
    assert!(cred.validate().is_ok());
    assert!(cred.verify().is_ok());
}

#[test]
fn ed25519_end_to_end_through_the_facade() {
    let cred = Credential::Ed25519(ed25519_fixture(b"hello"));
    assert!(cred.verify().is_ok());
}

#[test]
fn ed25519_rejects_a_truncated_signature_with_a_signature_error() {
    let mut cred = ed25519_fixture(b"hello");
    cred.signature.pop();
    assert!(cred.validate().is_ok());
    match cred.verify() {
        Err(AuthError::Signature(_)) => {}
        other => panic!("expected a signature error, got {:?}", other),
    }
}

#[test]
fn ed25519_rejects_a_flipped_signature_bit() {
    let mut cred = ed25519_fixture(b"hello");
    cred.signature[0] ^= 0x01;
    assert!(matches!(cred.verify(), Err(AuthError::Signature(_))));
}

#[test]
fn ed25519_rejects_a_flipped_message_bit() {
    let mut cred = ed25519_fixture(b"hello");
    cred.message[0] ^= 0x01;
    assert!(matches!(cred.verify(), Err(AuthError::Signature(_))));
}

fn secp256k1_fixture(message: &[u8]) -> Secp256k1 {
    let sk = k256::ecdsa::SigningKey::from_slice(&[7u8; 32]).unwrap();
    let digest = sha2::Sha256::digest(message);
    let signature: k256::ecdsa::Signature =
        k256::ecdsa::signature::hazmat::PrehashSigner::sign_prehash(&sk, digest.as_slice())
            .unwrap();
    let pubkey = sk.verifying_key().to_encoded_point(true).as_bytes().to_vec();
    Secp256k1 {
        pubkey,
        message: message.to_vec(),
        signature: signature.to_bytes().to_vec(),
    }
}

#[test]
fn secp256k1_verifies_a_conforming_signature() {
    let cred = secp256k1_fixture(b"hello");
    assert!(cred.validate().is_ok());
    assert!(cred.verify().is_ok());
}

#[test]
fn secp256k1_rejects_a_flipped_message_bit() {
    let mut cred = secp256k1_fixture(b"hello");
    cred.message[0] ^= 0x01;
    assert!(matches!(cred.verify(), Err(AuthError::Signature(_))));
}

fn eth_fixture(message: &[u8]) -> EthPersonalSign {
    let sk = k256::ecdsa::SigningKey::from_slice(&[11u8; 32]).unwrap();
    let mut preimage = b"\x19Ethereum Signed Message:\n".to_vec();
    preimage.extend_from_slice(message.len().to_string().as_bytes());
    preimage.extend_from_slice(message);
    let digest = sha3::Keccak256::digest(&preimage);
    let (signature, recovery_id) = sk.sign_prehash_recoverable(digest.as_slice()).unwrap();
    let mut sig65 = signature.to_bytes().to_vec();
    sig65.push(recovery_id.to_byte() + 27);
    let pubkey = sk.verifying_key().to_encoded_point(false).as_bytes().to_vec();
    EthPersonalSign {
        pubkey,
        message: message.to_vec(),
        signature: sig65,
    }
}

#[test]
fn eth_personal_sign_verifies_a_conforming_signature() {
    let cred = eth_fixture(b"hello");
    assert!(cred.validate().is_ok());
    assert!(cred.verify().is_ok());
}

#[test]
fn eth_personal_sign_rejects_a_flipped_message_bit() {
    let mut cred = eth_fixture(b"hello");
    cred.message[0] ^= 0x01;
    assert!(matches!(cred.verify(), Err(AuthError::Signature(_))));
}

#[test]
fn eth_personal_sign_rejects_a_short_signature() {
    let mut cred = eth_fixture(b"hello");
    cred.signature.pop();
    assert!(matches!(cred.verify(), Err(AuthError::InvalidLength(_))));
}

fn passkey_fixture() -> PasskeyCredential {
    let authenticator_data = vec![1u8; 37];
    let sk = p256::ecdsa::SigningKey::from_slice(&[9u8; 32]).unwrap();
    let digest = sha2::Sha256::digest(&authenticator_data);
    let signature: p256::ecdsa::Signature =
        p256::ecdsa::signature::hazmat::PrehashSigner::sign_prehash(&sk, digest.as_slice())
            .unwrap();
    let id = sk.verifying_key().to_encoded_point(true).as_bytes().to_vec();
    PasskeyCredential {
        id,
        pubkey: None,
        signature: signature.to_bytes().to_vec(),
        authenticator_data,
        client_data: ClientData {
            ty: String::from("webauthn.create"),
            cross_origin: Some(false),
            challenge: String::from("aGVsbG8"),
            origin: String::from("https://wallet.example"),
        },
        user_handle: None,
    }
}

#[test]
fn passkey_verifies_a_conforming_assertion() {
    let cred = passkey_fixture();
    assert!(cred.validate().is_ok());
    assert!(cred.verify().is_ok());
}

#[test]
fn passkey_rejects_a_flipped_authenticator_byte() {
    let mut cred = passkey_fixture();
    cred.authenticator_data[5] ^= 0x01;
    assert!(matches!(cred.verify(), Err(AuthError::Signature(_))));
}

#[test]
fn passkey_message_decodes_the_challenge() {
    let cred = passkey_fixture();
    assert_eq!(cred.message().unwrap(), b"hello".to_vec());
}
