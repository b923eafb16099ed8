use smart_account_auth::cosmos::{preamble_msg_arb_036, CosmosArbitrary};
use smart_account_auth::credential::Credential;
use smart_account_auth::encodings::to_base64;
use smart_account_auth::errors::AuthError;
use smart_account_auth::passkey::{ClientData, PasskeyCredential};
use smart_account_auth::types::CredentialName;
use smart_account_auth::utils::pubkey_to_address;
use smart_account_auth::Verifiable;

use sha2::Digest;

fn signed_cosmos_arbitrary(message: &[u8], hrp: &str) -> CosmosArbitrary {
    let sk = k256::ecdsa::SigningKey::from_slice(&[13u8; 32]).unwrap();
    let pubkey = sk.verifying_key().to_encoded_point(true).as_bytes().to_vec();
    let address = pubkey_to_address(&pubkey, hrp).unwrap();
    let preamble = preamble_msg_arb_036(&address, &to_base64(message));
    let digest = sha2::Sha256::digest(preamble.as_bytes());
    let signature: k256::ecdsa::Signature =
        k256::ecdsa::signature::hazmat::PrehashSigner::sign_prehash(&sk, digest.as_slice())
            .unwrap();
    CosmosArbitrary {
        pubkey,
        signature: signature.to_bytes().to_vec(),
        message: message.to_vec(),
        hrp: Some(String::from(hrp)),
    }
}

#[test]
fn cosmos_arbitrary_verifies_a_conforming_signature() {
    let cred = signed_cosmos_arbitrary(b"hello", "cosmos");
    assert!(cred.validate().is_ok());
    assert!(cred.verify().is_ok());
}

#[test]
fn cosmos_arbitrary_rejects_a_flipped_signature_bit() {
    let mut cred = signed_cosmos_arbitrary(b"hello", "cosmos");
    cred.signature[3] ^= 0x01;
    assert!(matches!(cred.verify(), Err(AuthError::Signature(_))));
}

#[test]
fn cosmos_arbitrary_bound_to_another_prefix_fails() {
    let mut cred = signed_cosmos_arbitrary(b"hello", "cosmos");
    cred.hrp = Some(String::from("osmo"));
    assert!(matches!(cred.verify(), Err(AuthError::Signature(_))));
}

#[test]
fn cosmos_arbitrary_without_a_prefix_fails_with_a_generic_error() {
    let mut cred = signed_cosmos_arbitrary(b"hello", "cosmos");
    cred.hrp = None;
    assert!(matches!(cred.verify(), Err(AuthError::Generic(_))));
}

fn passkey() -> PasskeyCredential {
    PasskeyCredential {
        id: vec![1, 2, 3],
        pubkey: None,
        signature: vec![4],
        authenticator_data: vec![0u8; 37],
        client_data: ClientData {
            ty: String::from("webauthn.create"),
            cross_origin: Some(false),
            challenge: String::from("aGVsbG8"),
            origin: String::from("https://wallet.example"),
        },
        user_handle: None,
    }
}

#[test]
fn the_passkey_extension_record_is_rendered_verbatim() {
    let cred = Credential::Passkey(passkey());
    let ext = cred.extension().unwrap().unwrap();
    assert_eq!(
        String::from_utf8(ext).unwrap(),
        "{\"origin\":\"https://wallet.example\",\"cross_origin\":false,\
         \"pubkey\":null,\"user_handle\":null}"
    );
}

#[test]
fn the_passkey_record_persists_its_extension() {
    let cred = Credential::Passkey(passkey());
    let info = cred.info();
    assert_eq!(info.name, CredentialName::Passkey);
    assert!(info.hrp.is_none());
    assert!(info.extension.is_some());
}

#[test]
fn non_passkey_credentials_have_no_extension() {
    let cred = Credential::CosmosArbitrary(signed_cosmos_arbitrary(b"hello", "cosmos"));
    assert!(cred.extension().unwrap().is_none());
    let info = cred.info();
    assert_eq!(info.name, CredentialName::CosmosArbitrary);
    assert_eq!(info.hrp.as_deref(), Some("cosmos"));
}
