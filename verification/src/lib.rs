//! Bridges ownership of a token on an EVM chain to a one-time issuance of an
//! asset on a separate ledger: identity proof by signature, admission of chain
//! and contract, balance policy, deterministic asset codes, and exactly-once
//! issuance records.

pub mod errors;
pub mod hexcode;
pub mod digest;
pub mod bytes;
pub mod identity;
pub mod registry;
pub mod balance;
pub mod derivation;
pub mod issuance;
pub mod api;
pub mod store;
