//! Proof of identity: the caller signs its receiving key, and the address that
//! made the signature is recovered from it.

use vstd::prelude::*;
use vstd::string::StringSliceAdditionalSpecFns;
use crate::bytes::append_bytes;
use crate::digest::{
    keccak256, keccak256_digest, personal_envelope, personal_hash, recover_signer,
    recovered_signer,
};
use crate::errors::Rejection;
use crate::hexcode::{all_hex, decode_prefixed, hex_decoded, without_0x, Address, Word};

verus! {

/// How the signed message is bound to the receiving key.
#[derive(Debug)]
pub enum MessageBinding {
    /// The signature is over a typed record that holds the receiving key as
    /// bytes, under the given domain separator and type hash.
    TypedData { domain_separator: Word, type_hash: Word },
    /// The signature is over the receiving key's text as a personal message.
    PersonalMessage,
}

/// What a verified request has shown: the address that signed, and the
/// receiving key that it signed for. It lives for one request.
#[derive(Debug)]
pub struct OwnershipProof {
    /// The address recovered from the signature.
    pub address: Address,
    /// The receiving key: its 32 bytes under the typed binding, the bytes of
    /// its text under the personal one.
    pub public_key: Vec<u8>,
}

/// Whether `text` is hexadecimal, with or without `0x`.
pub open spec fn is_prefixed_hex(text: Seq<u8>) -> bool {
    without_0x(text).len() % 2 == 0 && all_hex(without_0x(text))
}

/// The bytes that hexadecimal `text` stands for.
pub open spec fn prefixed_hex_bytes(text: Seq<u8>) -> Seq<u8> {
    hex_decoded(without_0x(text))
}

/// The signer of `digest` by the signature written in `signature`, or the
/// reason why there is none.
pub open spec fn signer_of(signature: Seq<u8>, digest: Seq<u8>) -> Result<Seq<u8>, Rejection> {
    if !is_prefixed_hex(signature) {
        Err(Rejection::SignatureNotHex)
    } else if prefixed_hex_bytes(signature).len() != 65 {
        Err(Rejection::SignatureLength)
    } else {
        match recovered_signer(prefixed_hex_bytes(signature), digest) {
            Some(address) => Ok(address),
            None => Err(Rejection::SignatureUnrecoverable),
        }
    }
}

/// What is hashed for a typed record that holds `key` as its one field of
/// bytes: the marker `0x19 0x01`, the domain separator, and the hash of the
/// type hash followed by the hash of the key.
pub open spec fn typed_envelope(domain_separator: Seq<u8>, type_hash: Seq<u8>, key: Seq<u8>) -> Seq<
    u8,
> {
    seq![25u8, 1u8] + domain_separator + keccak256_digest(type_hash + keccak256_digest(key))
}

/// The outcome of verification under the typed binding.
pub open spec fn typed_outcome(
    domain_separator: Seq<u8>,
    type_hash: Seq<u8>,
    key_text: Seq<u8>,
    signature: Seq<u8>,
) -> Result<(Seq<u8>, Seq<u8>), Rejection> {
    if !is_prefixed_hex(signature) {
        Err(Rejection::SignatureNotHex)
    } else if prefixed_hex_bytes(signature).len() != 65 {
        Err(Rejection::SignatureLength)
    } else if !is_prefixed_hex(key_text) || prefixed_hex_bytes(key_text).len() != 32 {
        Err(Rejection::PublicKeyInvalid)
    } else {
        let key = prefixed_hex_bytes(key_text);
        match signer_of(
            signature,
            keccak256_digest(typed_envelope(domain_separator, type_hash, key)),
        ) {
            Ok(address) => Ok((address, key)),
            Err(e) => Err(e),
        }
    }
}

/// The outcome of verification under the personal binding.
pub open spec fn personal_outcome(message: Seq<u8>, signature: Seq<u8>) -> Result<
    Seq<u8>,
    Rejection,
> {
    signer_of(signature, keccak256_digest(personal_envelope(message)))
}

/// The outcome of verification under `binding`: the signer and the key.
pub open spec fn proof_outcome(binding: MessageBinding, key_text: Seq<u8>, signature: Seq<u8>)
    -> Result<(Seq<u8>, Seq<u8>), Rejection> {
    match binding {
        MessageBinding::TypedData { domain_separator, type_hash } => typed_outcome(
            domain_separator@,
            type_hash@,
            key_text,
            signature,
        ),
        MessageBinding::PersonalMessage => match personal_outcome(key_text, signature) {
            Ok(address) => Ok((address, key_text)),
            Err(e) => Err(e),
        },
    }
}

/// Whether the executable outcome `r` is the outcome `expected`.
pub open spec fn is_signer(r: Result<Address, Rejection>, expected: Result<Seq<u8>, Rejection>)
    -> bool {
    match r {
        Ok(address) => expected == Ok::<Seq<u8>, Rejection>(address@),
        Err(e) => expected == Err::<Seq<u8>, Rejection>(e),
    }
}

/// Whether the executable outcome `r` is the outcome `expected`.
pub open spec fn is_proof(
    r: Result<OwnershipProof, Rejection>,
    expected: Result<(Seq<u8>, Seq<u8>), Rejection>,
) -> bool {
    match r {
        Ok(proof) => expected == Ok::<(Seq<u8>, Seq<u8>), Rejection>(
            (proof.address@, proof.public_key@),
        ),
        Err(e) => expected == Err::<(Seq<u8>, Seq<u8>), Rejection>(e),
    }
}

/// Reads the signature from its text: hexadecimal, with or without `0x`, and
/// exactly 65 bytes long.
pub fn decode_signature(signature: &str) -> (r: Result<Vec<u8>, Rejection>)
    ensures
        r.is_ok() <==> is_prefixed_hex(signature.spec_bytes()) && prefixed_hex_bytes(
            signature.spec_bytes(),
        ).len() == 65,
        r.is_ok() ==> r.unwrap()@ == prefixed_hex_bytes(signature.spec_bytes()),
        r.is_err() ==> r.unwrap_err() == if is_prefixed_hex(signature.spec_bytes()) {
            Rejection::SignatureLength
        } else {
            Rejection::SignatureNotHex
        },
{
    match decode_prefixed(signature) {
        None => Err(Rejection::SignatureNotHex),
        Some(bytes) => {
            if bytes.len() != 65 {
                Err(Rejection::SignatureLength)
            } else {
                Ok(bytes)
            }
        },
    }
}

/// Whether the executable outcome `r` is the signer of `digest` by the 65
/// bytes of `signature`, or `SignatureUnrecoverable` where there is none.
pub open spec fn is_recovery(r: Result<Address, Rejection>, signature: Seq<u8>, digest: Seq<u8>)
    -> bool {
    match recovered_signer(signature, digest) {
        Some(address) => r.is_ok() && r.unwrap()@ == address,
        None => r == Err::<Address, Rejection>(Rejection::SignatureUnrecoverable),
    }
}

/// The signer of the 32-byte `digest` by the 65 bytes of `signature`.
pub fn signer_from_bytes(digest: &Word, signature: &[u8]) -> (r: Result<Address, Rejection>)
    ensures
        signature@.len() != 65 ==> r == Err::<Address, Rejection>(Rejection::SignatureLength),
        signature@.len() == 65 ==> is_recovery(r, signature@, digest@),
{
    if signature.len() != 65 {
        return Err(Rejection::SignatureLength);
    }
    match recover_signer(signature, digest) {
        Some(address) => Ok(address),
        None => Err(Rejection::SignatureUnrecoverable),
    }
}

/// The signer of the 32-byte `digest` by the signature written in `signature`.
pub fn recover_from_digest(digest: &Word, signature: &str) -> (r: Result<Address, Rejection>)
    ensures
        is_signer(r, signer_of(signature.spec_bytes(), digest@)),
{
    match decode_signature(signature) {
        Err(e) => Err(e),
        Ok(bytes) => signer_from_bytes(digest, bytes.as_slice()),
    }
}

/// The address that signed `message` as a personal message.
pub fn get_address_and_pub_key(message: &str, signature: &str) -> (r: Result<Address, Rejection>)
    ensures
        is_signer(r, personal_outcome(message.spec_bytes(), signature.spec_bytes())),
{
    let digest = personal_hash(message.as_bytes());
    recover_from_digest(&digest, signature)
}

/// The hash that a typed-data signature signs for a record whose one field
/// holds `key`.
pub fn typed_data_digest(domain_separator: &Word, type_hash: &Word, key: &[u8]) -> (r: Word)
    ensures
        r@ == keccak256_digest(typed_envelope(domain_separator@, type_hash@, key@)),
{
    let key_hash = keccak256(key);
    let mut record: Vec<u8> = Vec::new();
    append_bytes(&mut record, type_hash.as_slice());
    append_bytes(&mut record, key_hash.as_slice());
    let record_hash = keccak256(record.as_slice());
    let mut envelope: Vec<u8> = Vec::new();
    envelope.push(25u8);
    envelope.push(1u8);
    append_bytes(&mut envelope, domain_separator.as_slice());
    append_bytes(&mut envelope, record_hash.as_slice());
    assert(record@ =~= type_hash@ + keccak256_digest(key@));
    assert(envelope@ =~= typed_envelope(domain_separator@, type_hash@, key@));
    keccak256(envelope.as_slice())
}

/// Verifies a typed-data signature over the receiving key written in
/// `key_text`, which must be 32 bytes of hexadecimal text.
pub fn verify_typed_data(
    domain_separator: &Word,
    type_hash: &Word,
    key_text: &str,
    signature: &str,
) -> (r: Result<OwnershipProof, Rejection>)
    ensures
        is_proof(
            r,
            typed_outcome(
                domain_separator@,
                type_hash@,
                key_text.spec_bytes(),
                signature.spec_bytes(),
            ),
        ),
{
    match decode_signature(signature) {
        Err(e) => Err(e),
        Ok(bytes) => match decode_prefixed(key_text) {
            None => Err(Rejection::PublicKeyInvalid),
            Some(key) => {
                if key.len() != 32 {
                    Err(Rejection::PublicKeyInvalid)
                } else {
                    let digest = typed_data_digest(domain_separator, type_hash, key.as_slice());
                    match signer_from_bytes(&digest, bytes.as_slice()) {
                        Ok(address) => Ok(OwnershipProof { address, public_key: key }),
                        Err(e) => Err(e),
                    }
                }
            },
        },
    }
}

/// Verifies the caller's signature over its receiving key under `binding`.
pub fn verify(binding: &MessageBinding, key_text: &str, signature: &str) -> (r: Result<
    OwnershipProof,
    Rejection,
>)
    ensures
        is_proof(r, proof_outcome(*binding, key_text.spec_bytes(), signature.spec_bytes())),
{
    match binding {
        MessageBinding::TypedData { domain_separator, type_hash } => verify_typed_data(
            domain_separator,
            type_hash,
            key_text,
            signature,
        ),
        MessageBinding::PersonalMessage => match get_address_and_pub_key(key_text, signature) {
            Ok(address) => Ok(
                OwnershipProof { address, public_key: key_text.as_bytes_vec() },
            ),
            Err(e) => Err(e),
        },
    }
}

/// The signature boundary: under either binding, a signature that is not
/// hexadecimal text, or that does not decode to exactly 65 bytes, is refused
/// as malformed input.
pub proof fn malformed_signature_is_refused(
    binding: MessageBinding,
    key_text: Seq<u8>,
    signature: Seq<u8>,
)
    requires
        !is_prefixed_hex(signature) || prefixed_hex_bytes(signature).len() != 65,
    ensures
        proof_outcome(binding, key_text, signature) == Err::<(Seq<u8>, Seq<u8>), Rejection>(
            if is_prefixed_hex(signature) {
                Rejection::SignatureLength
            } else {
                Rejection::SignatureNotHex
            },
        ),
        Rejection::SignatureLength.spec_kind() == crate::errors::ErrorKind::MalformedInput,
        Rejection::SignatureNotHex.spec_kind() == crate::errors::ErrorKind::MalformedInput,
{
}

/// The signature boundary: a signature of 65 bytes from which no signer can
/// be recovered is refused as an unverified identity. Under the typed binding
/// this is said of requests whose key is 32 bytes of hexadecimal text.
pub proof fn unrecoverable_signature_is_refused(
    binding: MessageBinding,
    key_text: Seq<u8>,
    signature: Seq<u8>,
)
    requires
        is_prefixed_hex(signature),
        prefixed_hex_bytes(signature).len() == 65,
        match binding {
            MessageBinding::PersonalMessage => recovered_signer(
                prefixed_hex_bytes(signature),
                keccak256_digest(personal_envelope(key_text)),
            ).is_none(),
            MessageBinding::TypedData { domain_separator, type_hash } => is_prefixed_hex(key_text)
                && prefixed_hex_bytes(key_text).len() == 32 && recovered_signer(
                prefixed_hex_bytes(signature),
                keccak256_digest(
                    typed_envelope(domain_separator@, type_hash@, prefixed_hex_bytes(key_text)),
                ),
            ).is_none(),
        },
    ensures
        proof_outcome(binding, key_text, signature) == Err::<(Seq<u8>, Seq<u8>), Rejection>(
            Rejection::SignatureUnrecoverable,
        ),
        Rejection::SignatureUnrecoverable.spec_kind()
            == crate::errors::ErrorKind::IdentityUnverified,
{
}

} // verus!
