use smart_account_auth::cosmos::preamble_msg_arb_036;
use smart_account_auth::encodings::{from_base64, to_base64, url_to_base64};

#[test]
fn the_preamble_matches_the_reference_envelope_byte_for_byte() {
    let built = preamble_msg_arb_036("cosmos1signeraddress", "aGVsbG8=");
    let golden = "{\"account_number\":\"0\",\"chain_id\":\"\",\"fee\":{\"amount\":[],\"gas\":\"0\"},\"memo\":\"\",\"msgs\":[{\"type\":\"sign/MsgSignData\",\"value\":{\"data\":\"aGVsbG8=\",\"signer\":\"cosmos1signeraddress\"}}],\"sequence\":\"0\"}";
    assert_eq!(built, golden);
}

#[test]
fn the_preamble_embeds_data_before_signer() {
    let built = preamble_msg_arb_036("addr", "DATA");
    let data_at = built.find("DATA").unwrap();
    let signer_at = built.find("addr").unwrap();
    assert!(data_at < signer_at);
}

#[test]
fn base64_round_trips() {
    let bytes = b"hello".to_vec();
    let encoded = to_base64(&bytes);
    assert_eq!(encoded, "aGVsbG8=");
    assert_eq!(from_base64(&encoded).unwrap(), bytes);
}

#[test]
fn base64_rejects_what_nothing_encodes_to() {
    assert!(from_base64("not base64!").is_err());
    assert!(from_base64("aGVsbG8").is_err());
}

#[test]
fn url_safe_challenges_are_reencoded_as_standard_base64() {
    assert_eq!(url_to_base64("PDw_Pz4-"), String::from("PDw/Pz4+"));
    assert_eq!(url_to_base64("aGVsbG8"), String::from("aGVsbG8="));
    assert_eq!(url_to_base64(""), String::from(""));
    assert_eq!(url_to_base64("AA"), String::from("AA=="));
}

#[test]
fn reencoded_challenges_decode_to_the_original_bytes() {
    let restored = from_base64(&url_to_base64("PDw_Pz4-")).unwrap();
    assert_eq!(restored, b"<<??>>".to_vec());
}
