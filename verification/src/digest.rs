//! The two hashes and the signer recovery that the protocol takes from the
//! Ethereum tool kit.

use vstd::prelude::*;
use ethers::types::Signature;
use crate::hexcode::{Address, Word};

verus! {

/// The Keccak-256 hash of `data`: 32 bytes.
pub uninterp spec fn keccak256_digest(data: Seq<u8>) -> Seq<u8>;

/// The address whose key made `signature` (65 bytes: r, s, v) over the 32-byte
/// `digest`, where there is one.
pub uninterp spec fn recovered_signer(signature: Seq<u8>, digest: Seq<u8>) -> Option<Seq<u8>>;

/// `n` in decimal digits, without leading zeros.
pub open spec fn decimal_text(n: nat) -> Seq<u8>
    decreases n,
{
    if n < 10 {
        seq![(48 + n) as u8]
    } else {
        decimal_text(n / 10).push((48 + n % 10) as u8)
    }
}

/// The bytes `\x19Ethereum Signed Message:\n`.
pub open spec fn personal_prefix() -> Seq<u8> {
    seq![
        25u8, 69u8, 116u8, 104u8, 101u8, 114u8, 101u8, 117u8, 109u8, 32u8, 83u8, 105u8, 103u8,
        110u8, 101u8, 100u8, 32u8, 77u8, 101u8, 115u8, 115u8, 97u8, 103u8, 101u8, 58u8, 10u8,
    ]
}

/// What is hashed when `message` is signed as a personal message: the prefix,
/// the message's length in decimal, and the message.
pub open spec fn personal_envelope(message: Seq<u8>) -> Seq<u8> {
    personal_prefix() + decimal_text(message.len()) + message
}

/// `ethers::utils::keccak256`: the hash depends on the bytes alone.
#[verifier::external_body]
pub(crate) fn keccak256(data: &[u8]) -> (r: Word)
    ensures
        r@ == keccak256_digest(data@),
{
    ethers::utils::keccak256(data)
}

/// `ethers::utils::hash_message`: the Keccak-256 hash of the message in its
/// personal-message envelope.
#[verifier::external_body]
pub(crate) fn personal_hash(message: &[u8]) -> (r: Word)
    ensures
        r@ == keccak256_digest(personal_envelope(message@)),
{
    ethers::utils::hash_message(message).0
}

/// `Signature::recover` of `ethers` on a precomputed hash, the signature first
/// read from its bytes by `Signature::try_from`, which refuses every length but
/// 65. The signer depends on the signature and the hash alone.
#[verifier::external_body]
pub(crate) fn recover_signer(signature: &[u8], digest: &Word) -> (r: Option<Address>)
    ensures
        signature@.len() != 65 ==> r.is_none(),
        signature@.len() == 65 ==> (r.is_some() <==> recovered_signer(
            signature@,
            digest@,
        ).is_some()),
        signature@.len() == 65 ==> (r.is_some() ==> r.unwrap()@ == recovered_signer(
            signature@,
            digest@,
        ).unwrap()),
{
    match Signature::try_from(signature) {
        Ok(parsed) => match parsed.recover(*digest) {
            Ok(address) => Some(address.0),
            Err(_) => None,
        },
        Err(_) => None,
    }
}

} // verus!
