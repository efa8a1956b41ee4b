//! The balance query: the call that asks a token contract how much an owner
//! holds, the reading of its reply, and the policy on the amount.

use vstd::prelude::*;
use crate::bytes::append_bytes;
use crate::digest::{keccak256, keccak256_digest};
use crate::errors::Rejection;
use crate::hexcode::{Address, Word};

verus! {

/// The token standard that a contract follows.
#[derive(Clone, Copy, Debug, PartialEq, Eq, Structural)]
pub enum TokenStandard {
    /// One balance for each owner.
    Erc721,
    /// One balance for each owner and token id.
    Erc1155,
}

/// The text `balanceOf(address)`.
pub open spec fn owner_signature() -> Seq<u8> {
    seq![
        98u8, 97u8, 108u8, 97u8, 110u8, 99u8, 101u8, 79u8, 102u8, 40u8, 97u8, 100u8, 100u8, 114u8,
        101u8, 115u8, 115u8, 41u8,
    ]
}

/// The text `balanceOf(address,uint256)`.
pub open spec fn owner_and_id_signature() -> Seq<u8> {
    seq![
        98u8, 97u8, 108u8, 97u8, 110u8, 99u8, 101u8, 79u8, 102u8, 40u8, 97u8, 100u8, 100u8, 114u8,
        101u8, 115u8, 115u8, 44u8, 117u8, 105u8, 110u8, 116u8, 50u8, 53u8, 54u8, 41u8,
    ]
}

/// The signature of the view function that `standard` offers for balances.
pub open spec fn balance_signature(standard: TokenStandard) -> Seq<u8> {
    match standard {
        TokenStandard::Erc721 => owner_signature(),
        TokenStandard::Erc1155 => owner_and_id_signature(),
    }
}

/// Twelve zero bytes: what pads an address to a 32-byte word.
pub open spec fn address_padding() -> Seq<u8> {
    Seq::new(12, |i: int| 0u8)
}

/// The data of the balance call: the first four bytes of the hash of the
/// function's signature, the owner as a word, and for `Erc1155` the token id.
pub open spec fn balance_call_data(standard: TokenStandard, owner: Seq<u8>, token_id: Seq<u8>)
    -> Seq<u8> {
    let head = keccak256_digest(balance_signature(standard)).subrange(0, 4) + address_padding()
        + owner;
    match standard {
        TokenStandard::Erc721 => head,
        TokenStandard::Erc1155 => head + token_id,
    }
}

/// The number that the bytes `digits` stand for, most significant first.
pub open spec fn be_value(digits: Seq<u8>) -> nat
    decreases digits.len(),
{
    if digits.len() == 0 {
        0
    } else {
        be_value(digits.drop_last()) * 256 + digits.last() as nat
    }
}

/// The amount to issue for a balance: the balance itself, or the largest
/// 64-bit number where the balance is above it.
pub open spec fn capped_amount(balance: Seq<u8>) -> nat {
    if be_value(balance) > u64::MAX {
        u64::MAX as nat
    } else {
        be_value(balance)
    }
}

/// A value in the reply to a call.
#[derive(Clone, Copy, Debug)]
pub enum AbiValue {
    /// An unsigned integer of 256 bits.
    Uint(Word),
    /// An address.
    Address(Address),
}

/// Whether `value` is the unsigned integer with the bytes `bytes`.
pub open spec fn is_uint_of(value: AbiValue, bytes: Seq<u8>) -> bool {
    match value {
        AbiValue::Uint(word) => word@ == bytes,
        AbiValue::Address(_) => false,
    }
}

/// The balance in the reply to a balance call: its first 32 bytes. A shorter
/// reply cannot be read.
pub open spec fn reply_balance(reply: Seq<u8>) -> Result<Seq<u8>, Rejection> {
    if reply.len() < 32 {
        Err(Rejection::BalanceDecode)
    } else {
        Ok(reply.subrange(0, 32))
    }
}

/// The amount that a balance allows to issue, or `ZeroBalance`.
pub open spec fn balance_amount(balance: Seq<u8>) -> Result<u64, Rejection> {
    if be_value(balance) == 0 {
        Err(Rejection::ZeroBalance)
    } else {
        Ok(capped_amount(balance) as u64)
    }
}

/// The amount that the outcome of a balance call allows to issue: `None`
/// stands for a call that failed at the endpoint.
pub open spec fn reply_amount(reply: Option<Seq<u8>>) -> Result<u64, Rejection> {
    match reply {
        None => Err(Rejection::BalanceCall),
        Some(data) => match reply_balance(data) {
            Err(e) => Err(e),
            Ok(balance) => balance_amount(balance),
        },
    }
}

/// One more digit on the right multiplies by 256 and adds the digit.
pub proof fn be_value_push(digits: Seq<u8>, digit: u8)
    ensures
        be_value(digits.push(digit)) == be_value(digits) * 256 + digit as nat,
{
    assert(digits.push(digit).drop_last() =~= digits);
}

/// The data of the call that asks `standard`'s balance function for what
/// `owner` holds (of `token_id`, under `Erc1155`).
pub fn encode_balance_call(standard: TokenStandard, owner: &Address, token_id: &Word) -> (r: Vec<
    u8,
>)
    ensures
        r@ == balance_call_data(standard, owner@, token_id@),
{
    let signature: Vec<u8> = match standard {
        TokenStandard::Erc721 => vec![
            98u8, 97u8, 108u8, 97u8, 110u8, 99u8, 101u8, 79u8, 102u8, 40u8, 97u8, 100u8, 100u8,
            114u8, 101u8, 115u8, 115u8, 41u8,
        ],
        TokenStandard::Erc1155 => vec![
            98u8, 97u8, 108u8, 97u8, 110u8, 99u8, 101u8, 79u8, 102u8, 40u8, 97u8, 100u8, 100u8,
            114u8, 101u8, 115u8, 115u8, 44u8, 117u8, 105u8, 110u8, 116u8, 50u8, 53u8, 54u8, 41u8,
        ],
    };
    assert(signature@ =~= balance_signature(standard));
    let hash = keccak256(signature.as_slice());
    let mut data: Vec<u8> = Vec::new();
    data.push(hash[0]);
    data.push(hash[1]);
    data.push(hash[2]);
    data.push(hash[3]);
    assert(data@ =~= hash@.subrange(0, 4));
    let mut i: usize = 0;
    while i < 12
        invariant
            i <= 12,
            data@ == hash@.subrange(0, 4) + Seq::new(i as nat, |k: int| 0u8),
        decreases 12 - i,
    {
        data.push(0u8);
        i += 1;
        assert(data@ =~= hash@.subrange(0, 4) + Seq::new(i as nat, |k: int| 0u8));
    }
    append_bytes(&mut data, owner.as_slice());
    match standard {
        TokenStandard::Erc721 => {},
        TokenStandard::Erc1155 => {
            append_bytes(&mut data, token_id.as_slice());
        },
    }
    data
}

/// Reads the values in the reply to a balance call: one unsigned integer,
/// from the first 32 bytes. A shorter reply is refused with `BalanceDecode`.
pub fn decode_reply(reply: &[u8]) -> (r: Result<Vec<AbiValue>, Rejection>)
    ensures
        reply@.len() < 32 ==> r == Err::<Vec<AbiValue>, Rejection>(Rejection::BalanceDecode),
        reply@.len() >= 32 ==> r.is_ok() && r.unwrap()@.len() == 1 && is_uint_of(
            r.unwrap()@[0],
            reply@.subrange(0, 32),
        ),
{
    if reply.len() < 32 {
        Err(Rejection::BalanceDecode)
    } else {
        let mut balance: Word = [0u8; 32];
        let mut i: usize = 0;
        while i < 32
            invariant
                i <= 32,
                reply@.len() >= 32,
                forall|k: int| 0 <= k < i ==> balance@[k] == reply@[k],
            decreases 32 - i,
        {
            balance[i] = reply[i];
            i += 1;
        }
        assert(balance@ =~= reply@.subrange(0, 32));
        let mut values: Vec<AbiValue> = Vec::new();
        values.push(AbiValue::Uint(balance));
        Ok(values)
    }
}

/// The balance among the values of a reply: the first value, which must be an
/// unsigned integer. Without any value the balance is missing
/// (`BalanceMissing`); a first value of another type is refused
/// (`BalanceType`).
pub fn balance_value(values: &[AbiValue]) -> (r: Result<Word, Rejection>)
    ensures
        values@.len() == 0 ==> r == Err::<Word, Rejection>(Rejection::BalanceMissing),
        values@.len() > 0 ==> match values@[0] {
            AbiValue::Uint(word) => r == Ok::<Word, Rejection>(word),
            AbiValue::Address(_) => r == Err::<Word, Rejection>(Rejection::BalanceType),
        },
{
    if values.len() == 0 {
        Err(Rejection::BalanceMissing)
    } else {
        match values[0] {
            AbiValue::Uint(word) => Ok(word),
            AbiValue::Address(_) => Err(Rejection::BalanceType),
        }
    }
}

/// Reads the balance from the reply to a balance call.
pub fn decode_balance(reply: &[u8]) -> (r: Result<Word, Rejection>)
    ensures
        match r {
            Ok(balance) => reply_balance(reply@) == Ok::<Seq<u8>, Rejection>(balance@),
            Err(e) => reply_balance(reply@) == Err::<Seq<u8>, Rejection>(e),
        },
{
    match decode_reply(reply) {
        Err(e) => Err(e),
        Ok(values) => balance_value(values.as_slice()),
    }
}

/// The amount to issue for `balance`: a balance of zero is refused, and one
/// above the 64-bit range counts as the largest 64-bit number.
pub fn normalize_balance(balance: &Word) -> (r: Result<u64, Rejection>)
    ensures
        r == balance_amount(balance@),
        be_value(balance@) == 0 <==> r == Err::<u64, Rejection>(Rejection::ZeroBalance),
        be_value(balance@) > u64::MAX ==> r == Ok::<u64, Rejection>(u64::MAX),
        0 < be_value(balance@) <= u64::MAX ==> r == Ok::<u64, Rejection>(be_value(balance@) as u64),
{
    let mut low: u64 = 0;
    let mut above: bool = false;
    let mut i: usize = 0;
    while i < 32
        invariant
            i <= 32,
            above ==> be_value(balance@.subrange(0, i as int)) > u64::MAX,
            !above ==> be_value(balance@.subrange(0, i as int)) == low,
        decreases 32 - i,
    {
        let digit: u8 = balance[i];
        proof {
            be_value_push(balance@.subrange(0, i as int), digit);
            assert(balance@.subrange(0, i + 1) =~= balance@.subrange(0, i as int).push(digit));
        }
        if !above {
            if low > 0x00ff_ffff_ffff_ffff {
                above = true;
            } else {
                low = low * 256 + digit as u64;
            }
        }
        i += 1;
    }
    assert(balance@.subrange(0, 32) =~= balance@);
    if above {
        Ok(u64::MAX)
    } else if low == 0 {
        Err(Rejection::ZeroBalance)
    } else {
        Ok(low)
    }
}

/// The amount that the outcome of a balance call allows to issue. `None`
/// stands for a call that failed at the endpoint.
pub fn assess_balance(reply: Option<&[u8]>) -> (r: Result<u64, Rejection>)
    ensures
        r == reply_amount(
            match reply {
                Some(data) => Some(data@),
                None => None,
            },
        ),
{
    match reply {
        None => Err(Rejection::BalanceCall),
        Some(data) => match decode_balance(data) {
            Err(e) => Err(e),
            Ok(balance) => normalize_balance(&balance),
        },
    }
}

/// The balance gate: a balance of exactly zero is refused for want of
/// ownership, and a balance above the 64-bit range is issued as exactly the
/// largest 64-bit number; any other balance is issued as it is.
pub proof fn balance_gate(balance: Seq<u8>)
    ensures
        be_value(balance) == 0 ==> balance_amount(balance) == Err::<u64, Rejection>(
            Rejection::ZeroBalance,
        ) && Rejection::ZeroBalance.spec_kind() == crate::errors::ErrorKind::OwnershipInsufficient,
        be_value(balance) > u64::MAX ==> balance_amount(balance) == Ok::<u64, Rejection>(u64::MAX),
        0 < be_value(balance) <= u64::MAX ==> balance_amount(balance).is_ok() && balance_amount(
            balance,
        ).unwrap() == be_value(balance),
{
}

} // verus!
