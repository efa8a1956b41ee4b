use nft_bridge::api::GetIssueTxReq;
use nft_bridge::derivation::{derivation_bytes, derive_asset_code};
use nft_bridge::errors::Rejection;
use nft_bridge::issuance::{
    bridge_asset_rules, parse_sequence_id, plan_issuance, sequence_or_rejection, ASSET_DECIMALS,
};
use nft_bridge::store::IssuanceStore;

fn word(last: u8) -> [u8; 32] {
    let mut out = [0u8; 32];
    out[31] = last;
    out
}

fn request(id: &str) -> GetIssueTxReq {
    GetIssueTxReq {
        id: String::from(id),
        receive_public_key: String::from("key"),
        signature: String::from("sig"),
        chainid: String::from("1"),
        token_address: String::from("aa"),
        tokenid: String::from("1"),
        is_721: true,
        rand_str: None,
    }
}

#[test]
fn derivation_bytes_are_laid_out_in_fixed_widths() {
    let data = derivation_bytes(&[0xaa; 20], &word(1), &word(2), None);
    assert_eq!(data.len(), 84);
    assert_eq!(&data[..20], &[0xaa; 20]);
    assert_eq!(&data[20..52], &word(1));
    assert_eq!(&data[52..84], &word(2));

    let salted = derivation_bytes(&[0xaa; 20], &word(1), &word(2), Some("salt"));
    assert_eq!(salted.len(), 88);
    assert_eq!(&salted[..84], &data[..]);
    assert_eq!(&salted[84..], b"salt");
}

#[test]
fn empty_salt_is_no_salt() {
    assert_eq!(
        derivation_bytes(&[0xaa; 20], &word(1), &word(2), Some("")),
        derivation_bytes(&[0xaa; 20], &word(1), &word(2), None)
    );
    assert_eq!(
        derive_asset_code(&[0xaa; 20], &word(1), &word(2), Some("")),
        derive_asset_code(&[0xaa; 20], &word(1), &word(2), None)
    );
}

#[test]
fn asset_code_is_the_hash_of_the_layout() {
    let mut data = vec![0xaa; 20];
    data.extend_from_slice(&word(1));
    data.extend_from_slice(&word(1));
    let expected = ethers::utils::keccak256(&data);
    assert_eq!(derive_asset_code(&[0xaa; 20], &word(1), &word(1), None), expected);

    data.extend_from_slice("sälz".as_bytes());
    let expected = ethers::utils::keccak256(&data);
    assert_eq!(derive_asset_code(&[0xaa; 20], &word(1), &word(1), Some("sälz")), expected);
}

#[test]
fn asset_code_is_the_same_on_every_call() {
    let first = derive_asset_code(&[0xaa; 20], &word(1), &word(1), Some("s"));
    for _ in 0..10 {
        assert_eq!(derive_asset_code(&[0xaa; 20], &word(1), &word(1), Some("s")), first);
    }
}

#[test]
fn asset_code_tells_tokens_apart() {
    let base = derive_asset_code(&[0xaa; 20], &word(1), &word(1), None);
    assert_ne!(derive_asset_code(&[0xab; 20], &word(1), &word(1), None), base);
    assert_ne!(derive_asset_code(&[0xaa; 20], &word(2), &word(1), None), base);
    assert_ne!(derive_asset_code(&[0xaa; 20], &word(1), &word(2), None), base);
    assert_ne!(derive_asset_code(&[0xaa; 20], &word(1), &word(1), Some("x")), base);
    assert_ne!(
        derive_asset_code(&[0xaa; 20], &word(2), &word(1), None),
        derive_asset_code(&[0xaa; 20], &word(1), &word(2), None)
    );
}

#[test]
fn bridge_rules_are_fixed() {
    let rules = bridge_asset_rules();
    assert_eq!(rules.decimals, 6);
    assert_eq!(ASSET_DECIMALS, 6);
    assert_eq!(rules.max_units, None);
    assert!(rules.transferable);
}

#[test]
fn plan_defines_then_issues() {
    let plan = plan_issuance([1u8; 32], [2u8; 32], 77, 42);
    assert_eq!(plan.define.code, [1u8; 32]);
    assert_eq!(plan.define.rules.decimals, 6);
    assert_eq!(plan.define.rules.max_units, None);
    assert!(plan.define.rules.transferable);
    assert_eq!(plan.define.memo, "");
    assert_eq!(plan.issue.code, [2u8; 32]);
    assert_eq!(plan.issue.seq_id, 77);
    assert_eq!(plan.issue.amount, 42);
    assert!(!plan.issue.confidential_amount);
    assert!(!plan.issue.confidential_type);
}

#[test]
fn sequence_id_is_the_middle_of_the_triple() {
    assert_eq!(parse_sequence_id(br#"[{"a":1},42,"sig"]"#), Ok(42));
    assert_eq!(parse_sequence_id(b"[null, 18446744073709551615, null]"), Ok(u64::MAX));
    assert_eq!(parse_sequence_id(b" [ [1,2] , 0 , {} ] "), Ok(0));
}

#[test]
fn sequence_id_is_refused_in_any_other_shape() {
    assert_eq!(parse_sequence_id(b""), Err(Rejection::SequenceFetch));
    assert_eq!(parse_sequence_id(b"42"), Err(Rejection::SequenceFetch));
    assert_eq!(parse_sequence_id(b"[1,2]"), Err(Rejection::SequenceFetch));
    assert_eq!(parse_sequence_id(b"[1,2,3,4]"), Err(Rejection::SequenceFetch));
    assert_eq!(parse_sequence_id(b"[1,-2,3]"), Err(Rejection::SequenceFetch));
    assert_eq!(parse_sequence_id(b"[1,\"2\",3]"), Err(Rejection::SequenceFetch));
    assert_eq!(parse_sequence_id(b"[1,18446744073709551616,3]"), Err(Rejection::SequenceFetch));
    assert_eq!(parse_sequence_id(b"[1,2,3"), Err(Rejection::SequenceFetch));
    assert_eq!(Rejection::SequenceFetch.code(), -25);
}

#[test]
fn sequence_or_rejection_maps_both_outcomes() {
    assert_eq!(sequence_or_rejection(Some(5)), Ok(5));
    assert_eq!(sequence_or_rejection(None), Err(Rejection::SequenceFetch));
}

#[test]
fn new_store_holds_nothing() {
    let store = IssuanceStore::new();
    assert_eq!(store.len(), 0);
    assert!(!store.is_committed(&[1u8; 32]));
    assert!(store.lookup(&[1u8; 32]).is_none());
}

#[test]
fn commit_records_once() {
    let mut store = IssuanceStore::new();
    assert_eq!(store.commit([1u8; 32], request("a"), String::from("tx-a")), Ok(()));
    assert_eq!(store.len(), 1);
    assert!(store.is_committed(&[1u8; 32]));
    let record = store.lookup(&[1u8; 32]).unwrap();
    assert_eq!(record.code, [1u8; 32]);
    assert_eq!(record.request.id, "a");
    assert_eq!(record.transaction, "tx-a");
}

#[test]
fn second_commit_under_a_code_is_refused() {
    let mut store = IssuanceStore::new();
    store.commit([1u8; 32], request("a"), String::from("tx-a")).unwrap();
    let got = store.commit([1u8; 32], request("b"), String::from("tx-b"));
    assert_eq!(got, Err(Rejection::AlreadyIssued));
    assert_eq!(store.len(), 1);
    let record = store.lookup(&[1u8; 32]).unwrap();
    assert_eq!(record.request.id, "a");
    assert_eq!(record.transaction, "tx-a");
}

#[test]
fn commits_under_other_codes_are_kept_apart() {
    let mut store = IssuanceStore::new();
    store.commit([1u8; 32], request("a"), String::from("tx-a")).unwrap();
    store.commit([2u8; 32], request("b"), String::from("tx-b")).unwrap();
    assert_eq!(store.len(), 2);
    assert_eq!(store.lookup(&[1u8; 32]).unwrap().request.id, "a");
    assert_eq!(store.lookup(&[2u8; 32]).unwrap().request.id, "b");
    assert!(store.lookup(&[3u8; 32]).is_none());
}

#[test]
fn key_is_the_lower_case_hex_of_the_code() {
    assert_eq!(IssuanceStore::key(&[0xab; 32]), "ab".repeat(32));
    let mut code = [0u8; 32];
    code[0] = 0x0f;
    code[31] = 0xf0;
    let key = IssuanceStore::key(&code);
    assert_eq!(key.len(), 64);
    assert!(key.starts_with("0f00"));
    assert!(key.ends_with("00f0"));
}

#[test]
fn lookup_by_key_takes_the_key_with_or_without_prefix() {
    let mut store = IssuanceStore::new();
    store.commit([0xab; 32], request("a"), String::from("tx-a")).unwrap();
    let key = IssuanceStore::key(&[0xab; 32]);
    assert_eq!(store.lookup_by_key(&key).unwrap().request.id, "a");
    assert_eq!(store.lookup_by_key(&format!("0x{}", key)).unwrap().request.id, "a");
}

#[test]
fn lookup_by_key_finds_nothing_under_other_texts() {
    let mut store = IssuanceStore::new();
    store.commit([0xab; 32], request("a"), String::from("tx-a")).unwrap();
    assert!(store.lookup_by_key(&"AB".repeat(32)).is_none());
    assert!(store.lookup_by_key(&"ab".repeat(31)).is_none());
    assert!(store.lookup_by_key(&"ab".repeat(33)).is_none());
    assert!(store.lookup_by_key(&"cd".repeat(32)).is_none());
    assert!(store.lookup_by_key(&"zz".repeat(32)).is_none());
    assert!(store.lookup_by_key("").is_none());
    assert!(store.lookup_by_key("0x").is_none());
}
