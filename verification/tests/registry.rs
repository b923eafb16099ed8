use smart_account_auth::caller::Caller;
use smart_account_auth::credential::Credential;
use smart_account_auth::ed25519::Ed25519;
use smart_account_auth::errors::AuthError;
use smart_account_auth::host::NativeApi;
use smart_account_auth::msgs::{parse_msg, render_msg, MsgDataToVerify};
use smart_account_auth::storage::CredentialStore;
use smart_account_auth::types::{ChainEnv, CredentialInfo, CredentialName};
use smart_account_auth::utils::pubkey_to_address;
use smart_account_auth::Verifiable;

use sha2::Digest;

fn env() -> ChainEnv {
    ChainEnv {
        chain_id: String::from("test-chain"),
        contract_address: String::from("contract1"),
        sender: String::from("alice"),
    }
}

fn signed_ed25519(message: Vec<u8>) -> Ed25519 {
    let sk = ed25519_zebra::SigningKey::from([2u8; 32]);
    let vk = ed25519_zebra::VerificationKey::from(&sk);
    let pk_bytes: [u8; 32] = vk.into();
    let digest = sha2::Sha256::digest(&message);
    let signature = sk.sign(digest.as_slice());
    Ed25519 { pubkey: pk_bytes.to_vec(), message, signature: signature.to_bytes().to_vec() }
}

#[test]
fn an_unregistered_credential_is_not_found() {
    let store = CredentialStore::new();
    let cred = Credential::Caller(Caller { id: Some(b"alice".to_vec()) });
    let r = cred.assert_cosmwasm(&NativeApi, &store, &env(), false);
    assert!(matches!(r, Err(AuthError::NotFound)));
}

#[test]
fn a_saved_credential_is_found_with_the_same_record() {
    let mut store = CredentialStore::new();
    let cred = Credential::Caller(Caller { id: Some(b"alice".to_vec()) });
    store.save_credential(cred.id(), cred.info());
    assert!(store.has_credential(&cred.id()));
    let r = cred.save_cosmwasm(&NativeApi, &mut store, &env(), false);
    assert!(r.is_ok());
    let found = store.get_credential(&cred.id()).unwrap();
    assert_eq!(found.name, CredentialName::Caller);
    assert!(found.hrp.is_none());
    assert!(found.extension.is_none());
    // A second lookup returns the same record.
    let again = store.get_credential(&cred.id()).unwrap();
    assert_eq!(again.name, found.name);
}

#[test]
fn saving_a_caller_credential_remembers_the_sender() {
    let mut store = CredentialStore::new();
    let cred = Credential::Caller(Caller { id: Some(b"alice".to_vec()) });
    store.save_credential(cred.id(), cred.info());
    cred.save_cosmwasm(&NativeApi, &mut store, &env(), false).unwrap();
    assert_eq!(store.get_caller().as_deref(), Some("alice"));
}

#[test]
fn the_envelope_round_trips_through_render_and_parse() {
    let msg = MsgDataToVerify {
        chain_id: b"test-chain".to_vec(),
        contract_address: b"contract1".to_vec(),
        nonce: 42,
    };
    let bytes = render_msg(&msg);
    assert_eq!(
        bytes,
        b"{\"chain_id\":\"test-chain\",\"contract_address\":\"contract1\",\"nonce\":42}".to_vec()
    );
    let parsed = parse_msg(&bytes).unwrap();
    assert_eq!(parsed.chain_id, msg.chain_id);
    assert_eq!(parsed.contract_address, msg.contract_address);
    assert_eq!(parsed.nonce, 42);
}

#[test]
fn a_later_record_supersedes_an_earlier_one() {
    let mut store = CredentialStore::new();
    store.save_credential(
        b"key".to_vec(),
        CredentialInfo { name: CredentialName::Caller, hrp: None, extension: None },
    );
    store.save_credential(
        b"key".to_vec(),
        CredentialInfo {
            name: CredentialName::Ed25519,
            hrp: Some(String::from("cosmos")),
            extension: None,
        },
    );
    let found = store.get_credential(b"key").unwrap();
    assert_eq!(found.name, CredentialName::Ed25519);
    assert_eq!(found.hrp.as_deref(), Some("cosmos"));
}

#[test]
fn the_largest_nonce_round_trips() {
    let msg = MsgDataToVerify {
        chain_id: b"c".to_vec(),
        contract_address: b"a".to_vec(),
        nonce: u64::MAX,
    };
    let parsed = parse_msg(&render_msg(&msg)).unwrap();
    assert_eq!(parsed.nonce, u64::MAX);
}

#[test]
fn a_nonce_beyond_the_counter_width_is_refused() {
    // One more than the largest representable counter value.
    let bytes = b"{\"chain_id\":\"c\",\"contract_address\":\"a\",\"nonce\":18446744073709551616}";
    assert!(parse_msg(bytes).is_err());
}

#[test]
fn malformed_envelopes_are_refused() {
    assert!(parse_msg(b"").is_err());
    assert!(parse_msg(b"{\"chain_id\":\"x\"}").is_err());
    assert!(parse_msg(b"{\"chain_id\":\"x\",\"contract_address\":\"y\",\"nonce\":007}").is_err());
    assert!(parse_msg(b"{\"chain_id\":\"x\",\"contract_address\":\"y\",\"nonce\":1} ").is_err());
}

#[test]
fn a_sequence_bound_message_is_accepted_once_and_replayed_never() {
    let chain_env = env();
    let envelope = render_msg(&MsgDataToVerify {
        chain_id: b"test-chain".to_vec(),
        contract_address: b"contract1".to_vec(),
        nonce: 0,
    });
    let cred = Credential::Ed25519(signed_ed25519(envelope));
    let mut store = CredentialStore::new();
    store.save_credential(cred.id(), cred.info());
    assert_eq!(store.get_account_number(), 0);

    // First use: the nonce matches the counter, so the save succeeds and
    // advances the counter.
    cred.save_cosmwasm(&NativeApi, &mut store, &chain_env, true).unwrap();
    assert_eq!(store.get_account_number(), 1);

    // Second use of the very same message: the counter has moved on.
    let replayed = cred.assert_cosmwasm(&NativeApi, &store, &chain_env, true);
    assert!(matches!(replayed, Err(AuthError::Generic(_))));
}

#[test]
fn a_message_bound_to_another_chain_is_refused() {
    let chain_env = env();
    let envelope = render_msg(&MsgDataToVerify {
        chain_id: b"other-chain".to_vec(),
        contract_address: b"contract1".to_vec(),
        nonce: 0,
    });
    let cred = Credential::Ed25519(signed_ed25519(envelope));
    let mut store = CredentialStore::new();
    store.save_credential(cred.id(), cred.info());
    let r = cred.assert_cosmwasm(&NativeApi, &store, &chain_env, true);
    assert!(matches!(r, Err(AuthError::Generic(_))));
    assert_eq!(store.get_account_number(), 0);
}

#[test]
fn a_failing_signature_aborts_the_save_without_commits() {
    let chain_env = env();
    let mut scheme = signed_ed25519(b"hello".to_vec());
    scheme.signature[0] ^= 0x01;
    let cred = Credential::Ed25519(scheme);
    let mut store = CredentialStore::new();
    store.save_credential(cred.id(), cred.info());
    let r = cred.save_cosmwasm(&NativeApi, &mut store, &chain_env, false);
    assert!(matches!(r, Err(AuthError::Signature(_))));
    assert_eq!(store.get_account_number(), 0);
    assert!(store.get_caller().is_none());
}

#[test]
fn the_facade_reports_names_and_messages() {
    let caller = Credential::Caller(Caller { id: Some(b"alice".to_vec()) });
    assert_eq!(caller.name(), CredentialName::Caller);
    assert_eq!(caller.message().unwrap(), Vec::<u8>::new());
    let ed = Credential::Ed25519(signed_ed25519(b"hello".to_vec()));
    assert_eq!(ed.name(), CredentialName::Ed25519);
    assert_eq!(ed.message().unwrap(), b"hello".to_vec());
    assert_eq!(ed.id(), signed_ed25519(b"hello".to_vec()).pubkey);
}

#[test]
fn the_caller_cosmos_address_is_its_own_identifier() {
    let caller = Credential::Caller(Caller { id: Some(b"cosmos1sender".to_vec()) });
    let addr = caller.cosmos_address(&NativeApi).unwrap();
    assert_eq!(addr, "cosmos1sender");
}

#[test]
fn a_prefixed_credential_derives_its_bech32_address() {
    let cred = Credential::CosmosArbitrary(smart_account_auth::cosmos::CosmosArbitrary {
        pubkey: vec![4u8; 33],
        signature: vec![1],
        message: vec![1],
        hrp: Some(String::from("cosmos")),
    });
    let addr = cred.cosmos_address(&NativeApi).unwrap();
    assert_eq!(addr, pubkey_to_address(&[4u8; 33], "cosmos").unwrap());
    assert!(cred.is_cosmos_derivable());
}

#[test]
fn without_a_prefix_the_native_host_cannot_humanize() {
    let cred = Credential::Ed25519(signed_ed25519(b"hello".to_vec()));
    assert!(!cred.is_cosmos_derivable());
    assert!(matches!(cred.cosmos_address(&NativeApi), Err(AuthError::Generic(_))));
}
