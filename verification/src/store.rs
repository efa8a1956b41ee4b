//! The record of what has been issued: at most one entry for each asset code,
//! written once and never changed.

use vstd::prelude::*;
use vstd::string::StringSliceAdditionalSpecFns;
use vstd::utf8::{encode_utf8, is_ascii_chars_encode_utf8};
use crate::api::GetIssueTxReq;
use crate::bytes::same_bytes;
use crate::errors::Rejection;
use crate::hexcode::{
    all_hex, hex_decode, hex_decoded, hex_digit_value, hex_encode, hex_text, lower_hex_digit,
    strip_0x, without_0x, Word,
};

verus! {

/// One issuance: the asset code, the request that led to it, and the
/// transaction that was built for it.
#[derive(Debug)]
pub struct IssuanceRecord {
    /// The asset code, which is the record's key.
    pub code: Word,
    /// The request as it was received.
    pub request: GetIssueTxReq,
    /// The serialized transaction.
    pub transaction: String,
}

/// Whether `records` has an entry for `code`.
pub open spec fn holds(records: Seq<IssuanceRecord>, code: Seq<u8>) -> bool {
    exists|i: int| 0 <= i < records.len() && (#[trigger] records[i]).code@ == code
}

/// Whether no two entries of `records` have the same code.
pub open spec fn distinct(records: Seq<IssuanceRecord>) -> bool {
    forall|i: int, j: int|
        0 <= i < j < records.len() ==> (#[trigger] records[i]).code@ != (#[trigger] records[j]).code@
}

/// `records` after an attempt to commit `record`: one entry more, or `None`
/// when its code already has an entry.
pub open spec fn after_commit(records: Seq<IssuanceRecord>, record: IssuanceRecord) -> Option<
    Seq<IssuanceRecord>,
> {
    if holds(records, record.code@) {
        None
    } else {
        Some(records.push(record))
    }
}

/// Whether `body` is lower-case hexadecimal text of 64 digits.
pub open spec fn is_key_text(body: Seq<u8>) -> bool {
    body.len() == 64 && forall|i: int|
        0 <= i < body.len() ==> (48 <= #[trigger] body[i] <= 57 || 97 <= body[i] <= 102)
}

/// The text under which the record of `code` is filed: `code` in lower-case
/// hexadecimal.
pub open spec fn key_text(code: Seq<u8>) -> Seq<char> {
    hex_text(code)
}

/// The issuance records.
#[derive(Debug)]
pub struct IssuanceStore {
    records: Vec<IssuanceRecord>,
}

impl IssuanceStore {
    /// The records, in the order in which they were committed.
    pub closed spec fn records(&self) -> Seq<IssuanceRecord> {
        self.records@
    }

    /// No code has two records.
    pub open spec fn wf(&self) -> bool {
        distinct(self.records())
    }

    /// Whether `code` has a record.
    pub open spec fn contains(&self, code: Seq<u8>) -> bool {
        holds(self.records(), code)
    }

    /// A store without records.
    pub fn new() -> (r: Self)
        ensures
            r.wf(),
            r.records().len() == 0,
    {
        IssuanceStore { records: Vec::new() }
    }

    /// The number of records.
    pub fn len(&self) -> (n: usize)
        ensures
            n == self.records().len(),
    {
        self.records.len()
    }

    /// Whether `code` has a record.
    pub fn is_committed(&self, code: &Word) -> (r: bool)
        ensures
            r == self.contains(code@),
    {
        self.lookup(code).is_some()
    }

    /// The record of `code`, if it has one.
    pub fn lookup(&self, code: &Word) -> (r: Option<&IssuanceRecord>)
        ensures
            r.is_some() <==> self.contains(code@),
            r.is_some() ==> r.unwrap().code@ == code@ && self.records().contains(*r.unwrap()),
    {
        let mut i: usize = 0;
        while i < self.records.len()
            invariant
                i <= self.records().len(),
                forall|k: int| 0 <= k < i ==> (#[trigger] self.records()[k]).code@ != code@,
            decreases self.records().len() - i,
        {
            if same_bytes(self.records[i].code.as_slice(), code.as_slice()) {
                assert(self.records()[i as int] == self.records[i as int]);
                return Some(&self.records[i]);
            }
            i += 1;
        }
        None
    }

    /// The record that is filed under `hex_code`, which may begin with `0x`.
    /// Only the lower-case hexadecimal text of a recorded code finds one.
    pub fn lookup_by_key(&self, hex_code: &str) -> (r: Option<&IssuanceRecord>)
        ensures
            r.is_some() <==> is_key_text(without_0x(hex_code.spec_bytes())) && self.contains(
                hex_decoded(without_0x(hex_code.spec_bytes())),
            ),
            r.is_some() ==> r.unwrap().code@ == hex_decoded(without_0x(hex_code.spec_bytes()))
                && self.records().contains(*r.unwrap()),
    {
        let body = strip_0x(hex_code.as_bytes());
        if body.len() != 64 {
            return None;
        }
        let mut i: usize = 0;
        while i < 64
            invariant
                i <= 64,
                body@.len() == 64,
                body@ == without_0x(hex_code.spec_bytes()),
                forall|k: int| 0 <= k < i ==> (48 <= #[trigger] body@[k] <= 57 || 97 <= body@[k] <= 102),
            decreases 64 - i,
        {
            let b: u8 = body[i];
            if !((48 <= b && b <= 57) || (97 <= b && b <= 102)) {
                assert(!is_key_text(body@)) by {
                    assert(body@[i as int] == b);
                }
                return None;
            }
            i += 1;
        }
        assert(all_hex(body@));
        match hex_decode(body) {
            None => None,
            Some(bytes) => {
                let mut code: Word = [0u8; 32];
                let mut k: usize = 0;
                while k < 32
                    invariant
                        k <= 32,
                        bytes@.len() == 32,
                        forall|m: int| 0 <= m < k ==> code@[m] == bytes@[m],
                    decreases 32 - k,
                {
                    code[k] = bytes[k];
                    k += 1;
                }
                assert(code@ =~= bytes@);
                self.lookup(&code)
            },
        }
    }

    /// The text under which the record of `code` is filed.
    pub fn key(code: &Word) -> (r: String)
        ensures
            r@ == key_text(code@),
    {
        hex_encode(code.as_slice())
    }

    /// Commits the record of an issuance. Refused with `AlreadyIssued`, and
    /// the store left as it was, when the code already has a record.
    pub fn commit(&mut self, code: Word, request: GetIssueTxReq, transaction: String) -> (r:
        Result<(), Rejection>)
        requires
            old(self).wf(),
        ensures
            final(self).wf(),
            r.is_ok() <==> !old(self).contains(code@),
            r.is_err() ==> r.unwrap_err() == Rejection::AlreadyIssued,
            r.is_err() ==> final(self).records() == old(self).records(),
            r.is_ok() ==> after_commit(
                old(self).records(),
                IssuanceRecord { code, request, transaction },
            ) == Some(final(self).records()),
    {
        if self.is_committed(&code) {
            return Err(Rejection::AlreadyIssued);
        }
        self.records.push(IssuanceRecord { code, request, transaction });
        Ok(())
    }
}

/// A code is recorded at most once: after a record has been committed, a
/// second commit under the same code is refused, the first record is the one
/// that the code finds, and no code has two records.
pub proof fn commit_is_write_once(
    records: Seq<IssuanceRecord>,
    first: IssuanceRecord,
    second: IssuanceRecord,
)
    requires
        distinct(records),
        first.code@ == second.code@,
        after_commit(records, first).is_some(),
    ensures
        distinct(after_commit(records, first).unwrap()),
        holds(after_commit(records, first).unwrap(), first.code@),
        after_commit(after_commit(records, first).unwrap(), second).is_none(),
        forall|i: int|
            0 <= i < after_commit(records, first).unwrap().len() && (
            #[trigger] after_commit(records, first).unwrap()[i]).code@ == first.code@
                ==> after_commit(records, first).unwrap()[i] == first,
{
    let after = records.push(first);
    assert(after[records.len() as int] == first);
    assert forall|i: int, j: int| 0 <= i < j < after.len() implies (#[trigger] after[i]).code@ != (
    #[trigger] after[j]).code@ by {
        if j == records.len() {
            assert(records[i].code@ != first.code@);
        }
    }
    assert forall|i: int| 0 <= i < after.len() && (#[trigger] after[i]).code@ == first.code@ implies after[i]
        == first by {
        if i < records.len() {
            assert(records[i].code@ == first.code@);
        }
    }
}

/// A commit that is refused changes nothing, and one that is accepted keeps
/// every earlier record in its place.
pub proof fn commit_keeps_earlier_records(records: Seq<IssuanceRecord>, record: IssuanceRecord)
    ensures
        match after_commit(records, record) {
            Some(after) => after.len() == records.len() + 1 && forall|i: int|
                0 <= i < records.len() ==> #[trigger] after[i] == records[i],
            None => holds(records, record.code@),
        },
{
}

/// The key of a code is 64 lower-case hexadecimal digits that decode to the
/// code: a record is found under the key that it was filed under.
pub proof fn key_decodes_to_its_code(code: Seq<u8>)
    requires
        code.len() == 32,
    ensures
        is_key_text(without_0x(encode_utf8(key_text(code)))),
        hex_decoded(without_0x(encode_utf8(key_text(code)))) == code,
{
    let chars = key_text(code);
    assert forall|i: int| 0 <= i < chars.len() implies '\0' <= #[trigger] chars[i] <= '\u{7f}' by {
        digit_of_half(code[i / 2] as int / 16);
        digit_of_half(code[i / 2] as int % 16);
    }
    is_ascii_chars_encode_utf8(chars);
    let text = encode_utf8(chars);
    assert forall|i: int| 0 <= i < text.len() implies (48 <= #[trigger] text[i] <= 57 || 97
        <= text[i] <= 102) && hex_digit_value(text[i]) == if i % 2 == 0 {
        code[i / 2] as int / 16
    } else {
        code[i / 2] as int % 16
    } by {
        digit_of_half(code[i / 2] as int / 16);
        digit_of_half(code[i / 2] as int % 16);
        assert(text[i] == chars[i] as u8);
    }
    assert(text[1] != 120);
    assert(without_0x(text) == text);
    assert forall|k: int| 0 <= k < 32 implies #[trigger] hex_decoded(text)[k] == code[k] by {
        assert(hex_digit_value(text[2 * k]) == code[k] as int / 16);
        assert(hex_digit_value(text[2 * k + 1]) == code[k] as int % 16);
    }
    assert(hex_decoded(text) =~= code);
}

/// The lower-case digit of a number below 16 is an ASCII character, one of
/// `0-9` and `a-f`, and stands for that number.
proof fn digit_of_half(n: int)
    requires
        0 <= n < 16,
    ensures
        '\0' <= lower_hex_digit(n) <= '\u{7f}',
        48 <= lower_hex_digit(n) as u8 <= 57 || 97 <= lower_hex_digit(n) as u8 <= 102,
        hex_digit_value(lower_hex_digit(n) as u8) == n,
{
}

} // verus!
