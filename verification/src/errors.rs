//! The ways a request can fail, each with its stable numeric code and its kind.

use vstd::prelude::*;

verus! {

/// The coarse class of a failure.
#[derive(Clone, Copy, Debug, PartialEq, Eq, Structural)]
pub enum ErrorKind {
    /// A field of the request is not in the expected textual form.
    MalformedInput,
    /// The caller did not prove control of a signing key.
    IdentityUnverified,
    /// The chain or the token contract is not admitted.
    AdmissionDenied,
    /// The caller holds none of the token.
    OwnershipInsufficient,
    /// The balance query could not be made or understood.
    OracleFailure,
    /// The ledger did not canonicalize the raw asset code.
    DerivationFailure,
    /// The issuance transaction could not be assembled.
    BuilderFailure,
    /// The issuance record could not be written.
    PersistenceFailure,
    /// The asset code already has a committed issuance record.
    DuplicateIssuance,
}

/// Every terminal outcome of a request other than success.
#[derive(Clone, Copy, Debug, PartialEq, Eq, Structural)]
pub enum Rejection {
    /// The signature text is not hexadecimal.
    SignatureNotHex,
    /// The signature does not decode to exactly 65 bytes.
    SignatureLength,
    /// No signer can be recovered from the signature.
    SignatureUnrecoverable,
    /// The receiving public key is not 32 bytes of hexadecimal text.
    PublicKeyInvalid,
    /// The balance call failed at the endpoint.
    BalanceCall,
    /// The reply to the balance call is shorter than a 256-bit word.
    BalanceDecode,
    /// The reply to the balance call holds no value.
    BalanceMissing,
    /// The first value in the reply to the balance call is no unsigned integer.
    BalanceType,
    /// The ledger did not return a canonical asset code.
    DerivationUnavailable,
    /// The asset rules were refused.
    AssetRules,
    /// No mnemonic could be generated.
    Mnemonic,
    /// No key pair could be restored from the mnemonic.
    Keypair,
    /// The ledger's sequence id could not be fetched.
    SequenceFetch,
    /// The operation that defines the asset type was refused.
    DefineAsset,
    /// The operation that issues the units was refused.
    IssueUnits,
    /// The chain id text is not a 256-bit hexadecimal integer.
    ChainIdFormat,
    /// The token contract text is not a 20-byte hexadecimal address.
    TokenAddressFormat,
    /// The chain id is not registered.
    ChainNotSupported,
    /// The token contract is not on the chain's allow-list.
    ContractNotSupported,
    /// The token id text is not a 256-bit hexadecimal integer.
    TokenIdFormat,
    /// The caller's balance is zero.
    ZeroBalance,
    /// The asset code already has a committed record.
    AlreadyIssued,
    /// The built transaction could not be serialized.
    Serialize,
    /// The record's file could not be created.
    RecordCreate,
    /// The request could not be serialized for the record.
    RecordSerialize,
    /// The record's file could not be written.
    RecordWrite,
}

impl Rejection {
    /// The numeric code that the response carries for this failure.
    pub open spec fn spec_code(self) -> int {
        match self {
            Rejection::SignatureNotHex => -3,
            Rejection::SignatureLength => -4,
            Rejection::SignatureUnrecoverable => -5,
            Rejection::PublicKeyInvalid => -6,
            Rejection::BalanceCall => -12,
            Rejection::BalanceDecode => -13,
            Rejection::BalanceMissing => -14,
            Rejection::BalanceType => -15,
            Rejection::DerivationUnavailable => -21,
            Rejection::AssetRules => -22,
            Rejection::Mnemonic => -23,
            Rejection::Keypair => -24,
            Rejection::SequenceFetch => -25,
            Rejection::DefineAsset => -26,
            Rejection::IssueUnits => -27,
            Rejection::ChainIdFormat => -30,
            Rejection::TokenAddressFormat => -31,
            Rejection::ChainNotSupported => -32,
            Rejection::ContractNotSupported => -33,
            Rejection::TokenIdFormat => -35,
            Rejection::ZeroBalance => -36,
            Rejection::AlreadyIssued => -37,
            Rejection::Serialize => -50,
            Rejection::RecordCreate => -60,
            Rejection::RecordSerialize => -70,
            Rejection::RecordWrite => -80,
        }
    }

    /// The kind that this failure belongs to.
    pub open spec fn spec_kind(self) -> ErrorKind {
        match self {
            Rejection::SignatureNotHex
            | Rejection::SignatureLength
            | Rejection::ChainIdFormat
            | Rejection::TokenAddressFormat
            | Rejection::TokenIdFormat => ErrorKind::MalformedInput,
            Rejection::SignatureUnrecoverable | Rejection::PublicKeyInvalid => {
                ErrorKind::IdentityUnverified
            },
            Rejection::ChainNotSupported | Rejection::ContractNotSupported => {
                ErrorKind::AdmissionDenied
            },
            Rejection::ZeroBalance => ErrorKind::OwnershipInsufficient,
            Rejection::BalanceCall
            | Rejection::BalanceDecode
            | Rejection::BalanceMissing
            | Rejection::BalanceType => ErrorKind::OracleFailure,
            Rejection::DerivationUnavailable => ErrorKind::DerivationFailure,
            Rejection::AssetRules
            | Rejection::Mnemonic
            | Rejection::Keypair
            | Rejection::SequenceFetch
            | Rejection::DefineAsset
            | Rejection::IssueUnits
            | Rejection::Serialize => ErrorKind::BuilderFailure,
            Rejection::RecordCreate | Rejection::RecordSerialize | Rejection::RecordWrite => {
                ErrorKind::PersistenceFailure
            },
            Rejection::AlreadyIssued => ErrorKind::DuplicateIssuance,
        }
    }

    /// The text that the response carries for this failure.
    pub open spec fn spec_message(self) -> Seq<char> {
        match self {
            Rejection::SignatureNotHex => "signature is not hexadecimal"@,
            Rejection::SignatureLength => "signature is not 65 bytes long"@,
            Rejection::SignatureUnrecoverable => "signature has no signer"@,
            Rejection::PublicKeyInvalid => "receive_public_key is not a 32-byte key"@,
            Rejection::BalanceCall => "balance call failed"@,
            Rejection::BalanceDecode => "balance reply is too short"@,
            Rejection::BalanceMissing => "balance not found"@,
            Rejection::BalanceType => "balance return type error"@,
            Rejection::DerivationUnavailable => "derived asset code unavailable"@,
            Rejection::AssetRules => "asset rules refused"@,
            Rejection::Mnemonic => "mnemonic generation failed"@,
            Rejection::Keypair => "keypair restoration failed"@,
            Rejection::SequenceFetch => "sequence id unavailable"@,
            Rejection::DefineAsset => "create asset operation refused"@,
            Rejection::IssueUnits => "issue asset operation refused"@,
            Rejection::ChainIdFormat => "chainid format error"@,
            Rejection::TokenAddressFormat => "token_address format error"@,
            Rejection::ChainNotSupported => "chain not support"@,
            Rejection::ContractNotSupported => "token_address not support"@,
            Rejection::TokenIdFormat => "tokenid format error"@,
            Rejection::ZeroBalance => "balance is zero"@,
            Rejection::AlreadyIssued => "asset code already issued"@,
            Rejection::Serialize => "transaction serialization failed"@,
            Rejection::RecordCreate => "save file error: create"@,
            Rejection::RecordSerialize => "save file error: serialize"@,
            Rejection::RecordWrite => "save file error: write"@,
        }
    }

    /// The numeric code that the response carries for this failure.
    pub fn code(&self) -> (c: i32)
        ensures
            c == self.spec_code(),
            c < 0,
    {
        match self {
            Rejection::SignatureNotHex => -3,
            Rejection::SignatureLength => -4,
            Rejection::SignatureUnrecoverable => -5,
            Rejection::PublicKeyInvalid => -6,
            Rejection::BalanceCall => -12,
            Rejection::BalanceDecode => -13,
            Rejection::BalanceMissing => -14,
            Rejection::BalanceType => -15,
            Rejection::DerivationUnavailable => -21,
            Rejection::AssetRules => -22,
            Rejection::Mnemonic => -23,
            Rejection::Keypair => -24,
            Rejection::SequenceFetch => -25,
            Rejection::DefineAsset => -26,
            Rejection::IssueUnits => -27,
            Rejection::ChainIdFormat => -30,
            Rejection::TokenAddressFormat => -31,
            Rejection::ChainNotSupported => -32,
            Rejection::ContractNotSupported => -33,
            Rejection::TokenIdFormat => -35,
            Rejection::ZeroBalance => -36,
            Rejection::AlreadyIssued => -37,
            Rejection::Serialize => -50,
            Rejection::RecordCreate => -60,
            Rejection::RecordSerialize => -70,
            Rejection::RecordWrite => -80,
        }
    }

    /// The text that the response carries for this failure.
    pub fn message(&self) -> (m: String)
        ensures
            m@ == self.spec_message(),
    {
        match self {
            Rejection::SignatureNotHex => "signature is not hexadecimal".to_owned(),
            Rejection::SignatureLength => "signature is not 65 bytes long".to_owned(),
            Rejection::SignatureUnrecoverable => "signature has no signer".to_owned(),
            Rejection::PublicKeyInvalid => "receive_public_key is not a 32-byte key".to_owned(),
            Rejection::BalanceCall => "balance call failed".to_owned(),
            Rejection::BalanceDecode => "balance reply is too short".to_owned(),
            Rejection::BalanceMissing => "balance not found".to_owned(),
            Rejection::BalanceType => "balance return type error".to_owned(),
            Rejection::DerivationUnavailable => "derived asset code unavailable".to_owned(),
            Rejection::AssetRules => "asset rules refused".to_owned(),
            Rejection::Mnemonic => "mnemonic generation failed".to_owned(),
            Rejection::Keypair => "keypair restoration failed".to_owned(),
            Rejection::SequenceFetch => "sequence id unavailable".to_owned(),
            Rejection::DefineAsset => "create asset operation refused".to_owned(),
            Rejection::IssueUnits => "issue asset operation refused".to_owned(),
            Rejection::ChainIdFormat => "chainid format error".to_owned(),
            Rejection::TokenAddressFormat => "token_address format error".to_owned(),
            Rejection::ChainNotSupported => "chain not support".to_owned(),
            Rejection::ContractNotSupported => "token_address not support".to_owned(),
            Rejection::TokenIdFormat => "tokenid format error".to_owned(),
            Rejection::ZeroBalance => "balance is zero".to_owned(),
            Rejection::AlreadyIssued => "asset code already issued".to_owned(),
            Rejection::Serialize => "transaction serialization failed".to_owned(),
            Rejection::RecordCreate => "save file error: create".to_owned(),
            Rejection::RecordSerialize => "save file error: serialize".to_owned(),
            Rejection::RecordWrite => "save file error: write".to_owned(),
        }
    }

    /// The kind that this failure belongs to.
    pub fn kind(&self) -> (k: ErrorKind)
        ensures
            k == self.spec_kind(),
    {
        match self {
            Rejection::SignatureNotHex
            | Rejection::SignatureLength
            | Rejection::ChainIdFormat
            | Rejection::TokenAddressFormat
            | Rejection::TokenIdFormat => ErrorKind::MalformedInput,
            Rejection::SignatureUnrecoverable | Rejection::PublicKeyInvalid => {
                ErrorKind::IdentityUnverified
            },
            Rejection::ChainNotSupported | Rejection::ContractNotSupported => {
                ErrorKind::AdmissionDenied
            },
            Rejection::ZeroBalance => ErrorKind::OwnershipInsufficient,
            Rejection::BalanceCall
            | Rejection::BalanceDecode
            | Rejection::BalanceMissing
            | Rejection::BalanceType => ErrorKind::OracleFailure,
            Rejection::DerivationUnavailable => ErrorKind::DerivationFailure,
            Rejection::AssetRules
            | Rejection::Mnemonic
            | Rejection::Keypair
            | Rejection::SequenceFetch
            | Rejection::DefineAsset
            | Rejection::IssueUnits
            | Rejection::Serialize => ErrorKind::BuilderFailure,
            Rejection::RecordCreate | Rejection::RecordSerialize | Rejection::RecordWrite => {
                ErrorKind::PersistenceFailure
            },
            Rejection::AlreadyIssued => ErrorKind::DuplicateIssuance,
        }
    }
}

/// Distinct failures carry distinct codes.
pub proof fn codes_are_distinct(a: Rejection, b: Rejection)
    ensures
        a.spec_code() == b.spec_code() <==> a == b,
{
}

} // verus!
