//! The asset code of a token: a hash of the token's contract, its id, its
//! chain and an optional salt, and of nothing else.

use vstd::prelude::*;
use vstd::string::StringSliceAdditionalSpecFns;
use crate::bytes::append_bytes;
use crate::digest::{keccak256, keccak256_digest};
use crate::hexcode::{Address, Word};

verus! {

/// The bytes of the salt: none where there is no salt.
pub open spec fn salt_bytes(salt: Option<&str>) -> Seq<u8> {
    match salt {
        Some(text) => text.spec_bytes(),
        None => Seq::empty(),
    }
}

/// What is hashed: the contract (20 bytes), the token id (32 bytes), the chain
/// id (32 bytes) and the salt, one after the other.
pub open spec fn derivation_input(
    contract: Seq<u8>,
    token_id: Seq<u8>,
    chain_id: Seq<u8>,
    salt: Seq<u8>,
) -> Seq<u8> {
    contract + token_id + chain_id + salt
}

/// The asset code of a token.
pub open spec fn derived_asset_code(
    contract: Seq<u8>,
    token_id: Seq<u8>,
    chain_id: Seq<u8>,
    salt: Seq<u8>,
) -> Seq<u8> {
    keccak256_digest(derivation_input(contract, token_id, chain_id, salt))
}

/// The bytes that are hashed for a token.
pub fn derivation_bytes(
    contract: &Address,
    token_id: &Word,
    chain_id: &Word,
    salt: Option<&str>,
) -> (r: Vec<u8>)
    ensures
        r@ == derivation_input(contract@, token_id@, chain_id@, salt_bytes(salt)),
        r@.len() == 84 + salt_bytes(salt).len(),
{
    let mut data: Vec<u8> = Vec::new();
    append_bytes(&mut data, contract.as_slice());
    append_bytes(&mut data, token_id.as_slice());
    append_bytes(&mut data, chain_id.as_slice());
    match salt {
        Some(text) => {
            append_bytes(&mut data, text.as_bytes());
        },
        None => {
            assert(data@ =~= data@ + Seq::<u8>::empty());
        },
    }
    data
}

/// The asset code of a token: the same code for the same contract, token id,
/// chain id and salt, whenever and wherever it is computed.
pub fn derive_asset_code(
    contract: &Address,
    token_id: &Word,
    chain_id: &Word,
    salt: Option<&str>,
) -> (r: Word)
    ensures
        r@ == derived_asset_code(contract@, token_id@, chain_id@, salt_bytes(salt)),
{
    let data = derivation_bytes(contract, token_id, chain_id, salt);
    keccak256(data.as_slice())
}

/// Two tokens are hashed from the same bytes only if they agree in contract,
/// token id, chain id and salt: the fields have fixed widths, so no two
/// different tokens share an input.
pub proof fn derivation_input_is_injective(
    contract_a: Seq<u8>,
    token_id_a: Seq<u8>,
    chain_id_a: Seq<u8>,
    salt_a: Seq<u8>,
    contract_b: Seq<u8>,
    token_id_b: Seq<u8>,
    chain_id_b: Seq<u8>,
    salt_b: Seq<u8>,
)
    requires
        contract_a.len() == 20,
        contract_b.len() == 20,
        token_id_a.len() == 32,
        token_id_b.len() == 32,
        chain_id_a.len() == 32,
        chain_id_b.len() == 32,
        derivation_input(contract_a, token_id_a, chain_id_a, salt_a) == derivation_input(
            contract_b,
            token_id_b,
            chain_id_b,
            salt_b,
        ),
    ensures
        contract_a == contract_b,
        token_id_a == token_id_b,
        chain_id_a == chain_id_b,
        salt_a == salt_b,
{
    let a = derivation_input(contract_a, token_id_a, chain_id_a, salt_a);
    let b = derivation_input(contract_b, token_id_b, chain_id_b, salt_b);
    assert(contract_a =~= a.subrange(0, 20));
    assert(contract_b =~= b.subrange(0, 20));
    assert(token_id_a =~= a.subrange(20, 52));
    assert(token_id_b =~= b.subrange(20, 52));
    assert(chain_id_a =~= a.subrange(52, 84));
    assert(chain_id_b =~= b.subrange(52, 84));
    assert(salt_a =~= a.subrange(84, a.len() as int));
    assert(salt_b =~= b.subrange(84, b.len() as int));
}

/// Derivation is a function of its four inputs: equal inputs give equal codes.
pub proof fn derivation_is_deterministic(
    contract_a: Seq<u8>,
    token_id_a: Seq<u8>,
    chain_id_a: Seq<u8>,
    salt_a: Seq<u8>,
    contract_b: Seq<u8>,
    token_id_b: Seq<u8>,
    chain_id_b: Seq<u8>,
    salt_b: Seq<u8>,
)
    requires
        contract_a == contract_b,
        token_id_a == token_id_b,
        chain_id_a == chain_id_b,
        salt_a == salt_b,
    ensures
        derived_asset_code(contract_a, token_id_a, chain_id_a, salt_a) == derived_asset_code(
            contract_b,
            token_id_b,
            chain_id_b,
            salt_b,
        ),
{
}

} // verus!
