//! Hexadecimal text: what a text decodes to, how bytes are written, and the two
//! fixed-width readings (a 256-bit integer and a 20-byte address).

use vstd::prelude::*;
use vstd::slice::slice_subrange;
use vstd::string::StringSliceAdditionalSpecFns;
use ethers::types::{H160, U256};
use std::str::FromStr;

verus! {

/// A 20-byte account or contract address.
pub type Address = [u8; 20];

/// A 256-bit unsigned integer, most significant byte first.
pub type Word = [u8; 32];

/// Whether `b` is one of `0-9`, `a-f`, `A-F`.
pub open spec fn is_hex_digit(b: u8) -> bool {
    (48 <= b && b <= 57) || (97 <= b && b <= 102) || (65 <= b && b <= 70)
}

/// The number that the hexadecimal digit `b` stands for.
pub open spec fn hex_digit_value(b: u8) -> int {
    if 48 <= b && b <= 57 {
        b - 48
    } else if 97 <= b && b <= 102 {
        b - 87
    } else {
        b - 55
    }
}

/// Whether every byte of `text` is a hexadecimal digit.
pub open spec fn all_hex(text: Seq<u8>) -> bool {
    forall|i: int| 0 <= i < text.len() ==> is_hex_digit(#[trigger] text[i])
}

/// The bytes that the digit pairs of `text` stand for.
pub open spec fn hex_decoded(text: Seq<u8>) -> Seq<u8> {
    Seq::new(
        text.len() / 2,
        |i: int| (16 * hex_digit_value(text[2 * i]) + hex_digit_value(text[2 * i + 1])) as u8,
    )
}

/// The lower-case hexadecimal digit for `n`, which is below 16.
pub open spec fn lower_hex_digit(n: int) -> char {
    if n < 10 {
        (48 + n) as u8 as char
    } else {
        (87 + n) as u8 as char
    }
}

/// `data` written as lower-case hexadecimal text, two digits for each byte.
pub open spec fn hex_text(data: Seq<u8>) -> Seq<char> {
    Seq::new(
        2 * data.len(),
        |i: int|
            if i % 2 == 0 {
                lower_hex_digit(data[i / 2] as int / 16)
            } else {
                lower_hex_digit(data[i / 2] as int % 16)
            },
    )
}

/// `text` with a leading `0x` removed, if it has one.
pub open spec fn without_0x(text: Seq<u8>) -> Seq<u8> {
    if text.len() >= 2 && text[0] == 48 && text[1] == 120 {
        text.subrange(2, text.len() as int)
    } else {
        text
    }
}

/// Whether `text` reads as a 256-bit integer: after an optional `0x`, at most
/// 64 hexadecimal digits (none at all reads as zero).
pub open spec fn is_word_text(text: Seq<u8>) -> bool {
    without_0x(text).len() <= 64 && all_hex(without_0x(text))
}

/// The 32 bytes of the integer that `text` reads as.
pub open spec fn word_of_text(text: Seq<u8>) -> Seq<u8> {
    let digits = without_0x(text);
    hex_decoded(Seq::new((64 - digits.len()) as nat, |i: int| 48u8) + digits)
}

/// Whether `b` is a space, a carriage return, a line feed or a tab.
pub open spec fn is_blank(b: u8) -> bool {
    b == 32 || b == 13 || b == 10 || b == 9
}

/// The bytes of `text` that count when it is read as an address: what follows
/// an optional `0x`, blanks left out.
pub open spec fn address_digits(text: Seq<u8>) -> Seq<u8> {
    without_0x(text).filter(|b: u8| !is_blank(b))
}

/// Whether `text` reads as an address: exactly 40 hexadecimal digits.
pub open spec fn is_address_text(text: Seq<u8>) -> bool {
    address_digits(text).len() == 40 && all_hex(address_digits(text))
}

/// The 20 bytes of the address that `text` reads as.
pub open spec fn address_of_text(text: Seq<u8>) -> Seq<u8> {
    hex_decoded(address_digits(text))
}

/// `hex::decode`: succeeds exactly on an even number of hexadecimal digits, and
/// then returns one byte for each pair, the first digit of a pair being the
/// high half.
#[verifier::external_body]
pub(crate) fn hex_decode(text: &[u8]) -> (r: Option<Vec<u8>>)
    ensures
        r.is_some() <==> (text@.len() % 2 == 0 && all_hex(text@)),
        r.is_some() ==> r.unwrap()@ == hex_decoded(text@),
{
    match hex::decode(text) {
        Ok(bytes) => Some(bytes),
        Err(_) => None,
    }
}

/// `hex::encode`: two lower-case digits for each byte, high half first.
#[verifier::external_body]
pub(crate) fn hex_encode(data: &[u8]) -> (r: String)
    ensures
        r@ == hex_text(data@),
{
    hex::encode(data)
}

/// `U256::from_str` of `ethers`: reads hexadecimal text of at most 64 digits,
/// with or without `0x`, as an integer padded with zeros on the left.
#[verifier::external_body]
pub(crate) fn word_from_str(text: &str) -> (r: Option<Word>)
    ensures
        r.is_some() <==> is_word_text(text.spec_bytes()),
        r.is_some() ==> r.unwrap()@ == word_of_text(text.spec_bytes()),
{
    match U256::from_str(text) {
        Ok(value) => {
            let mut out = [0u8; 32];
            value.to_big_endian(&mut out);
            Some(out)
        },
        Err(_) => None,
    }
}

/// `H160::from_str` of `ethers`: reads exactly 40 hexadecimal digits, with or
/// without `0x`, passing over blanks between them.
#[verifier::external_body]
pub(crate) fn address_from_str(text: &str) -> (r: Option<Address>)
    ensures
        r.is_some() <==> is_address_text(text.spec_bytes()),
        r.is_some() ==> r.unwrap()@ == address_of_text(text.spec_bytes()),
{
    match H160::from_str(text) {
        Ok(value) => Some(value.0),
        Err(_) => None,
    }
}

/// `text` without its leading `0x`, if it has one.
pub fn strip_0x(text: &[u8]) -> (r: &[u8])
    ensures
        r@ == without_0x(text@),
{
    if text.len() >= 2 && text[0] == 48 && text[1] == 120 {
        slice_subrange(text, 2, text.len())
    } else {
        text
    }
}

/// Decodes hexadecimal text that may begin with `0x`. `None` exactly when what
/// follows the prefix is not an even number of hexadecimal digits.
pub fn decode_prefixed(text: &str) -> (r: Option<Vec<u8>>)
    ensures
        r.is_some() <==> without_0x(text.spec_bytes()).len() % 2 == 0 && all_hex(
            without_0x(text.spec_bytes()),
        ),
        r.is_some() ==> r.unwrap()@ == hex_decoded(without_0x(text.spec_bytes())),
{
    hex_decode(strip_0x(text.as_bytes()))
}

} // verus!
