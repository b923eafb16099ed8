use smart_account_auth::caller::Caller;
use smart_account_auth::cosmos::CosmosArbitrary;
use smart_account_auth::ed25519::Ed25519;
use smart_account_auth::errors::AuthError;
use smart_account_auth::eth::EthPersonalSign;
use smart_account_auth::passkey::{ClientData, PasskeyCredential};
use smart_account_auth::secp256k1::Secp256k1;
use smart_account_auth::secp256r1::Secp256r1;
use smart_account_auth::Verifiable;

fn client_data(ty: &str, challenge: &str) -> ClientData {
    ClientData {
        ty: String::from(ty),
        cross_origin: None,
        challenge: String::from(challenge),
        origin: String::from("https://wallet.example"),
    }
}

#[test]
fn ed25519_validate_rejects_every_empty_field() {
    let good = Ed25519 { pubkey: vec![1], message: vec![2], signature: vec![3] };
    assert!(good.validate().is_ok());
    let no_pk = Ed25519 { pubkey: vec![], message: vec![2], signature: vec![3] };
    assert!(matches!(no_pk.validate(), Err(AuthError::MissingData(_))));
    let no_msg = Ed25519 { pubkey: vec![1], message: vec![], signature: vec![3] };
    assert!(matches!(no_msg.validate(), Err(AuthError::MissingData(_))));
    let no_sig = Ed25519 { pubkey: vec![1], message: vec![2], signature: vec![] };
    assert!(matches!(no_sig.validate(), Err(AuthError::MissingData(_))));
}

#[test]
fn secp256k1_validate_rejects_every_empty_field() {
    let no_pk = Secp256k1 { pubkey: vec![], message: vec![2], signature: vec![3] };
    let no_msg = Secp256k1 { pubkey: vec![1], message: vec![], signature: vec![3] };
    let no_sig = Secp256k1 { pubkey: vec![1], message: vec![2], signature: vec![] };
    assert!(matches!(no_pk.validate(), Err(AuthError::MissingData(_))));
    assert!(matches!(no_msg.validate(), Err(AuthError::MissingData(_))));
    assert!(matches!(no_sig.validate(), Err(AuthError::MissingData(_))));
}

#[test]
fn secp256r1_validate_rejects_every_empty_field() {
    let no_pk = Secp256r1 { pubkey: vec![], message: vec![2], signature: vec![3] };
    let no_msg = Secp256r1 { pubkey: vec![1], message: vec![], signature: vec![3] };
    let no_sig = Secp256r1 { pubkey: vec![1], message: vec![2], signature: vec![] };
    assert!(matches!(no_pk.validate(), Err(AuthError::MissingData(_))));
    assert!(matches!(no_msg.validate(), Err(AuthError::MissingData(_))));
    assert!(matches!(no_sig.validate(), Err(AuthError::MissingData(_))));
}

#[test]
fn eth_validate_rejects_every_empty_field() {
    let no_pk = EthPersonalSign { pubkey: vec![], message: vec![2], signature: vec![3] };
    let no_msg = EthPersonalSign { pubkey: vec![1], message: vec![], signature: vec![3] };
    let no_sig = EthPersonalSign { pubkey: vec![1], message: vec![2], signature: vec![] };
    assert!(matches!(no_pk.validate(), Err(AuthError::MissingData(_))));
    assert!(matches!(no_msg.validate(), Err(AuthError::MissingData(_))));
    assert!(matches!(no_sig.validate(), Err(AuthError::MissingData(_))));
}

#[test]
fn cosmos_arbitrary_validate_rejects_empty_fields_and_a_missing_prefix() {
    let no_sig = CosmosArbitrary {
        pubkey: vec![1],
        signature: vec![],
        message: vec![2],
        hrp: Some(String::from("cosmos")),
    };
    assert!(matches!(no_sig.validate(), Err(AuthError::MissingData(_))));
    let no_hrp = CosmosArbitrary {
        pubkey: vec![1],
        signature: vec![3],
        message: vec![2],
        hrp: None,
    };
    assert!(matches!(no_hrp.validate(), Err(AuthError::Generic(_))));
    let good = CosmosArbitrary {
        pubkey: vec![1],
        signature: vec![3],
        message: vec![2],
        hrp: Some(String::from("cosmos")),
    };
    assert!(good.validate().is_ok());
}

#[test]
fn caller_validate_always_passes() {
    assert!(Caller { id: None }.validate().is_ok());
    assert!(Caller { id: Some(b"alice".to_vec()) }.validate().is_ok());
}

#[test]
fn passkey_validate_rejects_short_authenticator_data() {
    let cred = PasskeyCredential {
        id: vec![1],
        pubkey: None,
        signature: vec![2],
        authenticator_data: vec![0u8; 36],
        client_data: client_data("webauthn.create", "aGVsbG8"),
        user_handle: None,
    };
    assert!(matches!(cred.validate(), Err(AuthError::InvalidLength(_))));
}

#[test]
fn passkey_validate_accepts_exactly_37_authenticator_bytes() {
    let cred = PasskeyCredential {
        id: vec![1],
        pubkey: None,
        signature: vec![2],
        authenticator_data: vec![0u8; 37],
        client_data: client_data("webauthn.create", "aGVsbG8"),
        user_handle: None,
    };
    assert!(cred.validate().is_ok());
}

#[test]
fn passkey_validate_rejects_the_disallowed_client_data_type() {
    let cred = PasskeyCredential {
        id: vec![1],
        pubkey: None,
        signature: vec![2],
        authenticator_data: vec![0u8; 37],
        client_data: client_data("webauthn.get", "aGVsbG8"),
        user_handle: None,
    };
    assert!(matches!(cred.validate(), Err(AuthError::Generic(_))));
}

#[test]
fn passkey_validate_rejects_an_empty_signature_and_challenge() {
    let no_sig = PasskeyCredential {
        id: vec![1],
        pubkey: None,
        signature: vec![],
        authenticator_data: vec![0u8; 37],
        client_data: client_data("webauthn.create", "aGVsbG8"),
        user_handle: None,
    };
    assert!(matches!(no_sig.validate(), Err(AuthError::MissingData(_))));
    let no_challenge = PasskeyCredential {
        id: vec![1],
        pubkey: None,
        signature: vec![2],
        authenticator_data: vec![0u8; 37],
        client_data: client_data("webauthn.create", ""),
        user_handle: None,
    };
    assert!(matches!(no_challenge.validate(), Err(AuthError::MissingData(_))));
}
