use nft_bridge::balance::{
    assess_balance, balance_value, decode_balance, decode_reply, encode_balance_call,
    normalize_balance, AbiValue, TokenStandard,
};
use nft_bridge::errors::{ErrorKind, Rejection};
use nft_bridge::registry::{ChainRegistry, RegistryError};

use ethers::abi::{Function, Param, ParamType, StateMutability, Token};
use ethers::types::{H160, U256};

fn word(last: u8) -> [u8; 32] {
    let mut out = [0u8; 32];
    out[31] = last;
    out
}

fn two_chains() -> ChainRegistry {
    let mut registry = ChainRegistry::new();
    registry
        .register(word(1), String::from("http://one"), vec![[0xaa; 20], [0xab; 20]])
        .unwrap();
    registry.register(word(56), String::from("http://two"), vec![[0xbb; 20]]).unwrap();
    registry
}

#[test]
fn new_registry_is_empty() {
    let registry = ChainRegistry::new();
    assert_eq!(registry.len(), 0);
    assert_eq!(registry.position(&word(1)), None);
    assert_eq!(registry.resolve(&word(1)).unwrap_err(), Rejection::ChainNotSupported);
}

#[test]
fn register_keeps_the_order() {
    let registry = two_chains();
    assert_eq!(registry.len(), 2);
    assert_eq!(registry.entry(0).chain_id, word(1));
    assert_eq!(registry.entry(0).endpoint, "http://one");
    assert_eq!(registry.entry(0).contracts, vec![[0xaa; 20], [0xab; 20]]);
    assert_eq!(registry.entry(1).chain_id, word(56));
    assert_eq!(registry.position(&word(1)), Some(0));
    assert_eq!(registry.position(&word(56)), Some(1));
}

#[test]
fn register_refuses_a_second_endpoint_for_a_chain() {
    let mut registry = two_chains();
    let got = registry.register(word(1), String::from("http://other"), vec![[0xcc; 20]]);
    assert_eq!(got, Err(RegistryError::ChainIdCollision));
    assert_eq!(registry.len(), 2);
    assert_eq!(registry.entry(0).endpoint, "http://one");
    assert!(!registry.holds(&[0xcc; 20]));
}

#[test]
fn register_refuses_a_contract_of_another_chain() {
    let mut registry = two_chains();
    let got = registry.register(word(3), String::from("http://three"), vec![[0xcc; 20], [0xbb; 20]]);
    assert_eq!(got, Err(RegistryError::ContractCollision));
    assert_eq!(registry.len(), 2);
    assert_eq!(registry.position(&word(3)), None);
}

#[test]
fn register_reports_the_chain_collision_first() {
    let mut registry = two_chains();
    let got = registry.register(word(1), String::from("http://other"), vec![[0xbb; 20]]);
    assert_eq!(got, Err(RegistryError::ChainIdCollision));
}

#[test]
fn register_takes_an_entry_without_contracts() {
    let mut registry = two_chains();
    assert_eq!(registry.register(word(3), String::from("http://three"), vec![]), Ok(()));
    assert_eq!(registry.len(), 3);
    assert!(!registry.entry(2).is_admitted(&[0xaa; 20]));
}

#[test]
fn resolve_finds_the_entry_of_a_chain() {
    let registry = two_chains();
    let entry = registry.resolve(&word(56)).unwrap();
    assert_eq!(entry.chain_id, word(56));
    assert_eq!(entry.endpoint, "http://two");
    assert_eq!(registry.resolve(&word(2)).unwrap_err(), Rejection::ChainNotSupported);
    assert_eq!(Rejection::ChainNotSupported.kind(), ErrorKind::AdmissionDenied);
}

#[test]
fn is_admitted_goes_by_the_chains_own_list() {
    let registry = two_chains();
    assert!(registry.entry(0).is_admitted(&[0xaa; 20]));
    assert!(registry.entry(0).is_admitted(&[0xab; 20]));
    assert!(!registry.entry(0).is_admitted(&[0xbb; 20]));
    assert!(registry.entry(1).is_admitted(&[0xbb; 20]));
    assert!(registry.holds(&[0xbb; 20]));
    assert!(!registry.holds(&[0xcc; 20]));
}

#[test]
fn admitted_entry_tells_chain_from_contract() {
    let registry = two_chains();
    assert_eq!(registry.admitted_entry(&word(1), &[0xaa; 20]).unwrap().endpoint, "http://one");
    assert_eq!(
        registry.admitted_entry(&word(2), &[0xaa; 20]).unwrap_err(),
        Rejection::ChainNotSupported
    );
    assert_eq!(
        registry.admitted_entry(&word(1), &[0xbb; 20]).unwrap_err(),
        Rejection::ContractNotSupported
    );
    assert_eq!(
        registry.admitted_entry(&word(56), &[0xaa; 20]).unwrap_err(),
        Rejection::ContractNotSupported
    );
}

#[allow(deprecated)]
fn balance_of(with_id: bool) -> Function {
    let mut inputs = vec![Param {
        name: String::from("account"),
        kind: ParamType::Address,
        internal_type: Some(String::from("address")),
    }];
    if with_id {
        inputs.push(Param {
            name: String::from("id"),
            kind: ParamType::Uint(256),
            internal_type: Some(String::from("uint256")),
        });
    }
    Function {
        name: String::from("balanceOf"),
        inputs,
        outputs: vec![Param {
            name: String::new(),
            kind: ParamType::Uint(256),
            internal_type: Some(String::from("uint256")),
        }],
        constant: None,
        state_mutability: StateMutability::Payable,
    }
}

#[test]
fn call_data_for_one_balance_per_owner() {
    let owner = [0x11; 20];
    let data = encode_balance_call(TokenStandard::Erc721, &owner, &word(9));
    assert_eq!(data.len(), 36);
    assert_eq!(&data[..4], &[0x70, 0xa0, 0x82, 0x31]);
    assert_eq!(&data[4..16], &[0u8; 12]);
    assert_eq!(&data[16..], &owner);
    let expected = balance_of(false).encode_input(&[Token::Address(H160(owner))]).unwrap();
    assert_eq!(data, expected);
}

#[test]
fn call_data_for_one_balance_per_owner_and_id() {
    let owner = [0x22; 20];
    let id = word(9);
    let data = encode_balance_call(TokenStandard::Erc1155, &owner, &id);
    assert_eq!(data.len(), 68);
    assert_eq!(&data[..4], &[0x00, 0xfd, 0xd5, 0x8e]);
    assert_eq!(&data[4..16], &[0u8; 12]);
    assert_eq!(&data[16..36], &owner);
    assert_eq!(&data[36..], &id);
    let expected = balance_of(true)
        .encode_input(&[Token::Address(H160(owner)), Token::Uint(U256::from(9))])
        .unwrap();
    assert_eq!(data, expected);
}

#[test]
fn decode_balance_takes_the_first_word() {
    let mut reply = word(42).to_vec();
    assert_eq!(decode_balance(&reply), Ok(word(42)));
    reply.extend_from_slice(&[0xff; 10]);
    assert_eq!(decode_balance(&reply), Ok(word(42)));
    let decoded = balance_of(false).decode_output(&reply).unwrap();
    assert_eq!(decoded, vec![Token::Uint(U256::from(42))]);
}

#[test]
fn decode_balance_refuses_short_replies() {
    assert_eq!(decode_balance(&[]), Err(Rejection::BalanceDecode));
    assert_eq!(decode_balance(&[0u8; 1]), Err(Rejection::BalanceDecode));
    assert_eq!(decode_balance(&[0u8; 31]), Err(Rejection::BalanceDecode));
    assert!(balance_of(false).decode_output(&[]).is_err());
    assert!(balance_of(false).decode_output(&[0u8; 31]).is_err());
    assert_eq!(Rejection::BalanceDecode.code(), -13);
}

#[test]
fn decode_reply_holds_one_unsigned_integer() {
    let values = decode_reply(&word(42)).unwrap();
    assert_eq!(values.len(), 1);
    assert!(matches!(values[0], AbiValue::Uint(w) if w == word(42)));
    let mut longer = word(7).to_vec();
    longer.extend_from_slice(&word(8));
    let values = decode_reply(&longer).unwrap();
    assert_eq!(values.len(), 1);
    assert!(matches!(values[0], AbiValue::Uint(w) if w == word(7)));
    assert_eq!(decode_reply(&[0u8; 31]).unwrap_err(), Rejection::BalanceDecode);
}

#[test]
fn balance_value_is_the_first_value() {
    assert_eq!(balance_value(&[]), Err(Rejection::BalanceMissing));
    assert_eq!(balance_value(&[AbiValue::Address([1u8; 20])]), Err(Rejection::BalanceType));
    assert_eq!(balance_value(&[AbiValue::Uint(word(5))]), Ok(word(5)));
    assert_eq!(
        balance_value(&[AbiValue::Uint(word(5)), AbiValue::Address([1u8; 20])]),
        Ok(word(5))
    );
    assert_eq!(
        balance_value(&[AbiValue::Address([1u8; 20]), AbiValue::Uint(word(5))]),
        Err(Rejection::BalanceType)
    );
    assert_eq!(Rejection::BalanceMissing.code(), -14);
    assert_eq!(Rejection::BalanceType.code(), -15);
}

#[test]
fn zero_balance_is_refused() {
    let got = normalize_balance(&[0u8; 32]);
    assert_eq!(got, Err(Rejection::ZeroBalance));
    assert_eq!(got.unwrap_err().kind(), ErrorKind::OwnershipInsufficient);
    assert_eq!(got.unwrap_err().code(), -36);
}

#[test]
fn balance_within_64_bits_is_kept() {
    assert_eq!(normalize_balance(&word(1)), Ok(1));
    assert_eq!(normalize_balance(&word(42)), Ok(42));
    let mut balance = [0u8; 32];
    balance[30] = 0x01;
    balance[31] = 0x02;
    assert_eq!(normalize_balance(&balance), Ok(258));
    let mut balance = [0u8; 32];
    for b in balance[24..].iter_mut() {
        *b = 0xff;
    }
    assert_eq!(normalize_balance(&balance), Ok(u64::MAX));
    balance[31] = 0xfe;
    assert_eq!(normalize_balance(&balance), Ok(u64::MAX - 1));
    let mut balance = [0u8; 32];
    balance[24] = 0x01;
    assert_eq!(normalize_balance(&balance), Ok(1u64 << 56));
}

#[test]
fn balance_above_64_bits_is_capped() {
    let mut balance = [0u8; 32];
    balance[23] = 0x01;
    assert_eq!(normalize_balance(&balance), Ok(u64::MAX));
    balance[31] = 0x01;
    assert_eq!(normalize_balance(&balance), Ok(u64::MAX));
    assert_eq!(normalize_balance(&[0xff; 32]), Ok(u64::MAX));
    let mut balance = [0u8; 32];
    balance[0] = 0x80;
    assert_eq!(normalize_balance(&balance), Ok(u64::MAX));
}

#[test]
fn assess_balance_reads_then_applies_the_policy() {
    assert_eq!(assess_balance(None), Err(Rejection::BalanceCall));
    assert_eq!(assess_balance(Some(&[])), Err(Rejection::BalanceDecode));
    assert_eq!(assess_balance(Some(&[1, 2, 3])), Err(Rejection::BalanceDecode));
    assert_eq!(assess_balance(Some(&[0u8; 32])), Err(Rejection::ZeroBalance));
    assert_eq!(assess_balance(Some(&word(42))), Ok(42));
    assert_eq!(assess_balance(Some(&[0xff; 32])), Ok(u64::MAX));
    assert_eq!(Rejection::BalanceCall.code(), -12);
}
