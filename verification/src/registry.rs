//! The chains and token contracts that the bridge admits. The registry is built
//! once, when the service starts, and only read afterwards.

use vstd::prelude::*;
use crate::bytes::same_bytes;
use crate::errors::Rejection;
use crate::hexcode::{Address, Word};

verus! {

/// One admitted chain: its id, the endpoint that answers balance queries for
/// it, and the token contracts admitted on it.
#[derive(Debug)]
pub struct ChainEntry {
    /// The chain id that the endpoint reports.
    pub chain_id: Word,
    /// The endpoint's location.
    pub endpoint: String,
    /// The admitted token contracts.
    pub contracts: Vec<Address>,
}

/// Why an entry cannot be added to the registry.
#[derive(Clone, Copy, Debug, PartialEq, Eq, Structural)]
pub enum RegistryError {
    /// Another endpoint already reports this chain id.
    ChainIdCollision,
    /// One of the contracts is already admitted on another chain.
    ContractCollision,
}

/// Whether `contract` is one of `contracts`.
pub open spec fn lists(contracts: Seq<Address>, contract: Seq<u8>) -> bool {
    exists|i: int| 0 <= i < contracts.len() && (#[trigger] contracts[i])@ == contract
}

impl ChainEntry {
    /// Whether `contract` is on this chain's allow-list.
    pub open spec fn admits(&self, contract: Seq<u8>) -> bool {
        lists(self.contracts@, contract)
    }

    /// Whether `contract` is on this chain's allow-list.
    pub fn is_admitted(&self, contract: &Address) -> (r: bool)
        ensures
            r == self.admits(contract@),
    {
        let mut i: usize = 0;
        while i < self.contracts.len()
            invariant
                i <= self.contracts@.len(),
                forall|k: int| 0 <= k < i ==> (#[trigger] self.contracts@[k])@ != contract@,
            decreases self.contracts@.len() - i,
        {
            if same_bytes(self.contracts[i].as_slice(), contract.as_slice()) {
                return true;
            }
            i += 1;
        }
        false
    }
}

/// The admitted chains, no two with the same id and no contract on two of them.
#[derive(Debug)]
pub struct ChainRegistry {
    entries: Vec<ChainEntry>,
}

impl ChainRegistry {
    /// The entries, in the order in which they were registered.
    pub closed spec fn entries(&self) -> Seq<ChainEntry> {
        self.entries@
    }

    /// Whether some entry has the chain id `chain`.
    pub open spec fn supports(&self, chain: Seq<u8>) -> bool {
        exists|i: int|
            0 <= i < self.entries().len() && (#[trigger] self.entries()[i]).chain_id@ == chain
    }

    /// Whether some entry admits `contract`.
    pub open spec fn holds_contract(&self, contract: Seq<u8>) -> bool {
        exists|i: int|
            0 <= i < self.entries().len() && (#[trigger] self.entries()[i]).admits(contract)
    }

    /// Whether `contract` is admitted on the chain `chain`.
    pub open spec fn admits(&self, chain: Seq<u8>, contract: Seq<u8>) -> bool {
        exists|i: int|
            0 <= i < self.entries().len() && (#[trigger] self.entries()[i]).chain_id@ == chain
                && self.entries()[i].admits(contract)
    }

    /// Chain ids are pairwise distinct, and every admitted contract belongs to
    /// exactly one entry.
    pub open spec fn wf(&self) -> bool {
        &&& forall|i: int, j: int|
            0 <= i < j < self.entries().len() ==> (#[trigger] self.entries()[i]).chain_id@ != (
            #[trigger] self.entries()[j]).chain_id@
        &&& forall|i: int, j: int, c: Seq<u8>|
            #![trigger self.entries()[i].admits(c), self.entries()[j].admits(c)]
            0 <= i < self.entries().len() && 0 <= j < self.entries().len() && i != j
                && self.entries()[i].admits(c) ==> !self.entries()[j].admits(c)
    }

    /// Whether any of `contracts` is already admitted by some entry.
    pub open spec fn holds_any(&self, contracts: Seq<Address>) -> bool {
        exists|k: int| 0 <= k < contracts.len() && self.holds_contract((#[trigger] contracts[k])@)
    }

    /// A registry without entries.
    pub fn new() -> (r: Self)
        ensures
            r.wf(),
            r.entries().len() == 0,
    {
        ChainRegistry { entries: Vec::new() }
    }

    /// The number of entries.
    pub fn len(&self) -> (n: usize)
        ensures
            n == self.entries().len(),
    {
        self.entries.len()
    }

    /// The entry at `index`.
    pub fn entry(&self, index: usize) -> (e: &ChainEntry)
        requires
            index < self.entries().len(),
        ensures
            *e == self.entries()[index as int],
    {
        &self.entries[index]
    }

    /// Where the entry with the chain id `chain_id` stands, if there is one.
    pub fn position(&self, chain_id: &Word) -> (r: Option<usize>)
        ensures
            r.is_some() <==> self.supports(chain_id@),
            r.is_some() ==> r.unwrap() < self.entries().len() && self.entries()[r.unwrap() as int].chain_id@
                == chain_id@,
    {
        let mut i: usize = 0;
        while i < self.entries.len()
            invariant
                i <= self.entries().len(),
                forall|k: int| 0 <= k < i ==> (#[trigger] self.entries()[k]).chain_id@ != chain_id@,
            decreases self.entries().len() - i,
        {
            if same_bytes(self.entries[i].chain_id.as_slice(), chain_id.as_slice()) {
                return Some(i);
            }
            i += 1;
        }
        None
    }

    /// Whether some entry admits `contract`.
    pub fn holds(&self, contract: &Address) -> (r: bool)
        ensures
            r == self.holds_contract(contract@),
    {
        let mut i: usize = 0;
        while i < self.entries.len()
            invariant
                i <= self.entries().len(),
                forall|k: int| 0 <= k < i ==> !(#[trigger] self.entries()[k]).admits(contract@),
            decreases self.entries().len() - i,
        {
            if self.entries[i].is_admitted(contract) {
                return true;
            }
            i += 1;
        }
        false
    }

    /// The entry for `chain_id`, or `ChainNotSupported` when no entry has it.
    pub fn resolve(&self, chain_id: &Word) -> (r: Result<&ChainEntry, Rejection>)
        ensures
            r.is_ok() <==> self.supports(chain_id@),
            r.is_ok() ==> r.unwrap().chain_id@ == chain_id@ && self.entries().contains(
                *r.unwrap(),
            ),
            r.is_err() ==> r.unwrap_err() == Rejection::ChainNotSupported,
    {
        match self.position(chain_id) {
            Some(i) => {
                assert(self.entries()[i as int] == self.entries[i as int]);
                Ok(&self.entries[i])
            },
            None => Err(Rejection::ChainNotSupported),
        }
    }

    /// The entry on which `contract` is admitted for `chain_id`, or why there is
    /// none: `ChainNotSupported` when no entry has the chain id,
    /// `ContractNotSupported` when the chain's entry does not list the contract.
    pub fn admitted_entry(&self, chain_id: &Word, contract: &Address) -> (r: Result<&ChainEntry, Rejection>)
        requires
            self.wf(),
        ensures
            r.is_ok() <==> self.admits(chain_id@, contract@),
            r.is_ok() ==> r.unwrap().chain_id@ == chain_id@ && r.unwrap().admits(contract@)
                && self.entries().contains(*r.unwrap()),
            r.is_err() ==> r.unwrap_err() == if self.supports(chain_id@) {
                Rejection::ContractNotSupported
            } else {
                Rejection::ChainNotSupported
            },
    {
        match self.position(chain_id) {
            None => Err(Rejection::ChainNotSupported),
            Some(i) => {
                assert(self.entries()[i as int] == self.entries[i as int]);
                if self.entries[i].is_admitted(contract) {
                    Ok(&self.entries[i])
                } else {
                    assert(!self.admits(chain_id@, contract@)) by {
                        if self.admits(chain_id@, contract@) {
                            let j = choose|j: int|
                                0 <= j < self.entries().len() && (#[trigger] self.entries()[j]).chain_id@
                                    == chain_id@ && self.entries()[j].admits(contract@);
                            assert(j == i);
                        }
                    }
                    Err(Rejection::ContractNotSupported)
                }
            },
        }
    }

    /// Adds an entry. Refused, and the registry left as it was, when the chain
    /// id is already registered or when a contract is already admitted on
    /// another chain.
    pub fn register(&mut self, chain_id: Word, endpoint: String, contracts: Vec<Address>) -> (r:
        Result<(), RegistryError>)
        requires
            old(self).wf(),
        ensures
            final(self).wf(),
            r.is_ok() <==> !old(self).supports(chain_id@) && !old(self).holds_any(contracts@),
            r.is_ok() ==> final(self).entries() == old(self).entries().push(
                ChainEntry { chain_id, endpoint, contracts },
            ),
            r.is_err() ==> final(self).entries() == old(self).entries(),
            r.is_err() ==> r.unwrap_err() == if old(self).supports(chain_id@) {
                RegistryError::ChainIdCollision
            } else {
                RegistryError::ContractCollision
            },
    {
        if self.position(&chain_id).is_some() {
            return Err(RegistryError::ChainIdCollision);
        }
        let mut k: usize = 0;
        while k < contracts.len()
            invariant
                k <= contracts@.len(),
                self.entries() == old(self).entries(),
                self.wf(),
                !self.supports(chain_id@),
                forall|m: int| 0 <= m < k ==> !self.holds_contract((#[trigger] contracts@[m])@),
            decreases contracts@.len() - k,
        {
            if self.holds(&contracts[k]) {
                return Err(RegistryError::ContractCollision);
            }
            k += 1;
        }
        let entry = ChainEntry { chain_id, endpoint, contracts };
        let ghost before = self.entries();
        self.entries.push(entry);
        proof {
            let after = self.entries();
            let n = before.len() as int;
            assert(after == before.push(entry));
            assert forall|i: int, j: int| 0 <= i < j < after.len() implies (#[trigger] after[i]).chain_id@
                != (#[trigger] after[j]).chain_id@ by {
                if j == n {
                    assert(before[i].chain_id@ != chain_id@);
                }
            }
            assert forall|i: int, j: int, c: Seq<u8>|
                #![trigger after[i].admits(c), after[j].admits(c)]
                0 <= i < after.len() && 0 <= j < after.len() && i != j && after[i].admits(
                    c,
                ) implies !after[j].admits(c) by {
                if i == n {
                    if after[j].admits(c) {
                        let m = choose|m: int|
                            0 <= m < contracts@.len() && (#[trigger] contracts@[m])@ == c;
                        assert(before[j].admits(c));
                        assert(old(self).holds_contract(contracts@[m]@));
                    }
                } else if j == n {
                    if after[j].admits(c) {
                        let m = choose|m: int|
                            0 <= m < contracts@.len() && (#[trigger] contracts@[m])@ == c;
                        assert(before[i].admits(c));
                        assert(old(self).holds_contract(contracts@[m]@));
                    }
                } else {
                    assert(before[i].admits(c));
                }
            }
        }
        Ok(())
    }
}

} // verus!
