//! The issuance transaction: what its two operations hold, and how the steps
//! that assemble it can fail.

use vstd::prelude::*;
use crate::errors::Rejection;
use crate::hexcode::Word;

verus! {

/// The decimal precision of every asset that the bridge defines.
pub const ASSET_DECIMALS: u8 = 6;

/// The rules of an asset type.
#[derive(Debug)]
pub struct AssetRules {
    /// The number of decimal places.
    pub decimals: u8,
    /// The largest supply; `None` for an unlimited one.
    pub max_units: Option<u64>,
    /// Whether units can be transferred.
    pub transferable: bool,
}

/// The operation that defines the asset type.
#[derive(Debug)]
pub struct DefineAsset {
    /// The raw asset code that the type is bound to.
    pub code: Word,
    /// The rules of the type.
    pub rules: AssetRules,
    /// The memo, which is empty.
    pub memo: String,
}

/// The operation that issues units of the asset type.
#[derive(Debug)]
pub struct IssueUnits {
    /// The asset code under which the units are issued.
    pub code: Word,
    /// The ledger's sequence id at which they are issued.
    pub seq_id: u64,
    /// The number of units.
    pub amount: u64,
    /// Whether the amount is hidden. It never is.
    pub confidential_amount: bool,
    /// Whether the asset type is hidden. It never is.
    pub confidential_type: bool,
}

/// The two operations of an issuance transaction, in their order.
#[derive(Debug)]
pub struct IssuancePlan {
    /// First the asset type is defined.
    pub define: DefineAsset,
    /// Then units of it are issued.
    pub issue: IssueUnits,
}

/// The step of assembling the transaction that failed.
#[derive(Clone, Copy, Debug, PartialEq, Eq, Structural)]
pub enum BuildFailure {
    /// The asset rules were refused.
    AssetRules,
    /// No mnemonic could be generated.
    Mnemonic,
    /// No key pair could be restored from the mnemonic.
    Keypair,
    /// The ledger's sequence id could not be fetched.
    SequenceFetch,
    /// The operation that defines the asset type was refused.
    DefineAsset,
    /// The operation that issues the units was refused.
    IssueUnits,
    /// The assembled transaction could not be serialized.
    Serialize,
}

impl BuildFailure {
    /// The rejection that the request ends with when this step fails.
    pub open spec fn spec_rejection(self) -> Rejection {
        match self {
            BuildFailure::AssetRules => Rejection::AssetRules,
            BuildFailure::Mnemonic => Rejection::Mnemonic,
            BuildFailure::Keypair => Rejection::Keypair,
            BuildFailure::SequenceFetch => Rejection::SequenceFetch,
            BuildFailure::DefineAsset => Rejection::DefineAsset,
            BuildFailure::IssueUnits => Rejection::IssueUnits,
            BuildFailure::Serialize => Rejection::Serialize,
        }
    }

    /// The rejection that the request ends with when this step fails.
    pub fn rejection(&self) -> (r: Rejection)
        ensures
            r == self.spec_rejection(),
            r.spec_kind() == crate::errors::ErrorKind::BuilderFailure,
    {
        match self {
            BuildFailure::AssetRules => Rejection::AssetRules,
            BuildFailure::Mnemonic => Rejection::Mnemonic,
            BuildFailure::Keypair => Rejection::Keypair,
            BuildFailure::SequenceFetch => Rejection::SequenceFetch,
            BuildFailure::DefineAsset => Rejection::DefineAsset,
            BuildFailure::IssueUnits => Rejection::IssueUnits,
            BuildFailure::Serialize => Rejection::Serialize,
        }
    }
}

/// The sequence id in the ledger's answer to a query for its global state: a
/// JSON array of three values, the second of them an unsigned 64-bit integer.
pub uninterp spec fn global_state_sequence(body: Seq<u8>) -> Option<u64>;

/// `serde_json::from_slice` at the type of a triple whose middle is a `u64`:
/// what it reads depends on the bytes alone.
#[verifier::external_body]
pub(crate) fn sequence_from_json(body: &[u8]) -> (r: Option<u64>)
    ensures
        r == global_state_sequence(body@),
{
    match serde_json::from_slice::<(serde_json::Value, u64, serde_json::Value)>(body) {
        Ok(state) => Some(state.1),
        Err(_) => None,
    }
}

/// What the answer `body` yields: the sequence id, or `SequenceFetch`.
pub open spec fn sequence_outcome(body: Option<u64>) -> Result<u64, Rejection> {
    match body {
        Some(seq_id) => Ok(seq_id),
        None => Err(Rejection::SequenceFetch),
    }
}

/// Turns what was read from the ledger's answer into the sequence id, or into
/// `SequenceFetch` where nothing could be read.
pub fn sequence_or_rejection(read: Option<u64>) -> (r: Result<u64, Rejection>)
    ensures
        r == sequence_outcome(read),
{
    match read {
        Some(seq_id) => Ok(seq_id),
        None => Err(Rejection::SequenceFetch),
    }
}

/// Reads the sequence id from the ledger's answer to a query for its global
/// state.
pub fn parse_sequence_id(body: &[u8]) -> (r: Result<u64, Rejection>)
    ensures
        r == sequence_outcome(global_state_sequence(body@)),
{
    sequence_or_rejection(sequence_from_json(body))
}

/// The rules of every asset that the bridge defines: six decimal places, an
/// unlimited supply, transferable.
pub fn bridge_asset_rules() -> (r: AssetRules)
    ensures
        r.decimals == 6,
        r.max_units.is_none(),
        r.transferable,
{
    AssetRules { decimals: ASSET_DECIMALS, max_units: None, transferable: true }
}

/// The two operations that issue `amount` units: the asset type is defined
/// under `raw_code` with the bridge's rules and an empty memo, and the units
/// are issued under `asset_code` at `seq_id`, amount and type in the clear.
pub fn plan_issuance(raw_code: Word, asset_code: Word, seq_id: u64, amount: u64) -> (r:
    IssuancePlan)
    ensures
        r.define.code == raw_code,
        r.define.rules.decimals == 6,
        r.define.rules.max_units.is_none(),
        r.define.rules.transferable,
        r.define.memo@.len() == 0,
        r.issue.code == asset_code,
        r.issue.seq_id == seq_id,
        r.issue.amount == amount,
        !r.issue.confidential_amount,
        !r.issue.confidential_type,
{
    IssuancePlan {
        define: DefineAsset { code: raw_code, rules: bridge_asset_rules(), memo: String::new() },
        issue: IssueUnits {
            code: asset_code,
            seq_id,
            amount,
            confidential_amount: false,
            confidential_type: false,
        },
    }
}

} // verus!
