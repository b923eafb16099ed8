use smart_account_auth::utils::{prefix_from_address, pubkey_to_address, pubkey_to_canonical};
use smart_account_auth::errors::AuthError;

use ripemd::Digest as RipemdDigest;
use sha2::Digest as Sha2Digest;

#[test]
fn prefix_stops_at_the_first_separator() {
    assert_eq!(prefix_from_address("cosmos1xyzabc"), String::from("cosmos"));
    assert_eq!(prefix_from_address("osmo1a1b1c"), String::from("osmo"));
}

#[test]
fn prefix_of_an_address_without_separator_is_the_whole_address() {
    assert_eq!(prefix_from_address("nodigitshere"), String::from("nodigitshere"));
    assert_eq!(prefix_from_address(""), String::from(""));
}

#[test]
fn address_derivation_is_deterministic() {
    let pk = vec![4u8; 33];
    let a = pubkey_to_address(&pk, "cosmos").unwrap();
    let b = pubkey_to_address(&pk, "cosmos").unwrap();
    assert_eq!(a, b);
}

#[test]
fn changing_the_prefix_keeps_the_payload() {
    let pk = vec![4u8; 33];
    let a = pubkey_to_address(&pk, "cosmos").unwrap();
    let b = pubkey_to_address(&pk, "osmo").unwrap();
    assert!(a.starts_with("cosmos1"));
    assert!(b.starts_with("osmo1"));
    // The base32 data characters between the separator and the six
    // checksum characters depend on the key alone.
    let payload_a = &a["cosmos1".len()..a.len() - 6];
    let payload_b = &b["osmo1".len()..b.len() - 6];
    assert_eq!(payload_a, payload_b);
}

#[test]
fn the_address_encodes_the_canonical_hash() {
    let pk = vec![4u8; 33];
    let addr = pubkey_to_address(&pk, "cosmos").unwrap();
    let (hrp, data) = bech32::decode(&addr).unwrap();
    assert_eq!(hrp.to_lowercase(), "cosmos");
    let expected = ripemd::Ripemd160::digest(sha2::Sha256::digest(&pk));
    assert_eq!(data, expected.to_vec());
}

#[test]
fn the_canonical_address_is_ripemd_of_sha256() {
    let pk = vec![4u8; 33];
    let canonical = pubkey_to_canonical(&pk);
    let expected = ripemd::Ripemd160::digest(sha2::Sha256::digest(&pk));
    assert_eq!(canonical, expected.to_vec());
    assert_eq!(canonical.len(), 20);
}

#[test]
fn an_unacceptable_prefix_is_refused() {
    let pk = vec![4u8; 33];
    assert!(matches!(pubkey_to_address(&pk, ""), Err(AuthError::Generic(_))));
    assert!(matches!(pubkey_to_address(&pk, "COSMOS"), Err(AuthError::Generic(_))));
    assert!(matches!(pubkey_to_address(&pk, "with space"), Err(AuthError::Generic(_))));
}
