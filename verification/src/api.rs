//! The bridge's one operation, issuing against a proof of ownership, laid out
//! as the decisions between the outside calls that the service makes.

use vstd::prelude::*;
use vstd::utf8::encode_utf8;
use crate::balance::{
    assess_balance, balance_call_data, encode_balance_call, reply_amount, TokenStandard,
};
use crate::derivation::{derive_asset_code, derived_asset_code};
use crate::errors::Rejection;
use crate::hexcode::{
    address_from_str, address_of_text, is_address_text, is_word_text, word_from_str,
    word_of_text,
    Address, Word,
};
use crate::identity::{proof_outcome, verify, MessageBinding};
use crate::issuance::BuildFailure;
use crate::registry::ChainRegistry;
use crate::store::{key_text, IssuanceRecord, IssuanceStore};

verus! {

/// The build that answers a version query.
#[derive(Clone, Debug)]
pub struct VersionResp {
    pub git_commit: String,
    pub git_semver: String,
    pub rustc_commit: String,
    pub rustc_semver: String,
}

/// A request to issue against ownership of a token.
#[derive(Clone, Debug)]
pub struct GetIssueTxReq {
    /// Chosen by the caller and echoed in the response.
    pub id: String,
    /// The receiving key that the caller signed.
    pub receive_public_key: String,
    /// The caller's signature: 65 bytes in hexadecimal.
    pub signature: String,
    /// The chain id, as a hexadecimal integer.
    pub chainid: String,
    /// The token contract, as a hexadecimal address.
    pub token_address: String,
    /// The token id, as a hexadecimal integer.
    pub tokenid: String,
    /// Whether the contract keeps one balance for each owner, rather than one
    /// for each owner and token id.
    pub is_721: bool,
    /// A salt that is mixed into the asset code.
    pub rand_str: Option<String>,
}

/// The response to a request: `code` is zero on success, when `msg` holds the
/// serialized transaction, and negative on failure, when `msg` says why.
#[derive(Clone, Debug)]
pub struct GetIssueTxResp {
    pub id: String,
    pub code: i32,
    pub msg: String,
}

/// What a request has been admitted for.
#[derive(Debug)]
pub struct Admission {
    /// The address that signed the request.
    pub owner: Address,
    /// The receiving key that it signed for.
    pub public_key: Vec<u8>,
    /// The chain of the token.
    pub chain_id: Word,
    /// The token's contract.
    pub contract: Address,
    /// The token's id.
    pub token_id: Word,
    /// The standard that the contract follows.
    pub standard: TokenStandard,
    /// The endpoint that answers balance queries for the chain.
    pub endpoint: String,
}

/// The step of writing the issuance record that failed.
#[derive(Clone, Copy, Debug, PartialEq, Eq, Structural)]
pub enum PersistFailure {
    /// The record's file could not be created.
    Create,
    /// The request could not be serialized.
    Serialize,
    /// The record's file could not be written.
    Write,
}

impl PersistFailure {
    /// The rejection whose code the response carries when this step fails.
    pub open spec fn spec_rejection(self) -> Rejection {
        match self {
            PersistFailure::Create => Rejection::RecordCreate,
            PersistFailure::Serialize => Rejection::RecordSerialize,
            PersistFailure::Write => Rejection::RecordWrite,
        }
    }

    /// The rejection whose code the response carries when this step fails.
    pub fn rejection(&self) -> (r: Rejection)
        ensures
            r == self.spec_rejection(),
            r.spec_kind() == crate::errors::ErrorKind::PersistenceFailure,
    {
        match self {
            PersistFailure::Create => Rejection::RecordCreate,
            PersistFailure::Serialize => Rejection::RecordSerialize,
            PersistFailure::Write => Rejection::RecordWrite,
        }
    }
}

/// An admitted request. Next, the balance call in `call_data` is made to
/// `admission.contract` at `admission.endpoint`.
#[derive(Debug)]
pub struct AwaitingBalance {
    pub request: GetIssueTxReq,
    pub admission: Admission,
    pub call_data: Vec<u8>,
}

/// A request whose owner holds `amount`. Next, the ledger is asked for the
/// asset code that `raw_code` stands for.
#[derive(Debug)]
pub struct AwaitingAssetCode {
    pub request: GetIssueTxReq,
    pub raw_code: Word,
    pub amount: u64,
}

/// A request whose asset code has no record yet. Next, the transaction is
/// assembled: the asset type is defined under `raw_code`, and `amount` units
/// are issued under `asset_code`.
#[derive(Debug)]
pub struct AwaitingBuild {
    pub request: GetIssueTxReq,
    pub raw_code: Word,
    pub asset_code: Word,
    pub amount: u64,
}

/// A request whose transaction has been built and recorded. Next, the record
/// is written to durable storage under `key`.
#[derive(Debug)]
pub struct AwaitingRecord {
    pub id: String,
    pub asset_code: Word,
    pub key: String,
    pub transaction: String,
}

/// The bridge: where the ledger answers, which chains and contracts are
/// admitted, where records are kept, how signatures are bound, and what has
/// been issued.
#[derive(Debug)]
pub struct Api {
    pub findora_query_url: String,
    pub support_chain: ChainRegistry,
    pub dir_path: String,
    pub binding: MessageBinding,
    pub issued: IssuanceStore,
}

/// The standard of a request's contract.
pub open spec fn standard_of(is_721: bool) -> TokenStandard {
    if is_721 {
        TokenStandard::Erc721
    } else {
        TokenStandard::Erc1155
    }
}

/// The bytes of a request's salt: none where it has no salt.
pub open spec fn request_salt(req: GetIssueTxReq) -> Seq<u8> {
    match req.rand_str {
        Some(text) => encode_utf8(text@),
        None => Seq::empty(),
    }
}

/// Whether `resp` is the response that rejects the request `id` for `reason`.
pub open spec fn is_rejection(resp: GetIssueTxResp, id: String, reason: Rejection) -> bool {
    &&& resp.id == id
    &&& resp.code == reason.spec_code()
    &&& resp.msg@ == reason.spec_message()
}

/// Whether `resp` is the response that delivers `transaction` for the request
/// `id` with the code `code`.
pub open spec fn is_delivery(resp: GetIssueTxResp, id: String, code: int, transaction: String)
    -> bool {
    &&& resp.id == id
    &&& resp.code == code
    &&& resp.msg == transaction
}

/// The outcome of a balance call as a value: `None` for a call that failed.
pub open spec fn reply_view(reply: Option<Vec<u8>>) -> Option<Seq<u8>> {
    match reply {
        Some(data) => Some(data@),
        None => None,
    }
}

/// The response that rejects the request `id` for `reason`.
pub fn reject(id: String, reason: Rejection) -> (resp: GetIssueTxResp)
    ensures
        is_rejection(resp, id, reason),
        resp.code < 0,
{
    GetIssueTxResp { id, code: reason.code(), msg: reason.message() }
}

impl AwaitingBalance {
    /// Takes the outcome of the balance call (`None` when the call failed) and
    /// either rejects the request or fixes the amount and the raw asset code.
    /// A balance of zero is refused; one above the 64-bit range counts as the
    /// largest 64-bit number.
    pub fn on_balance(self, reply: Option<Vec<u8>>) -> (r: Result<AwaitingAssetCode, GetIssueTxResp>)
        ensures
            match r {
                Err(resp) => match reply_amount(reply_view(reply)) {
                    Err(reason) => is_rejection(resp, self.request.id, reason),
                    Ok(_) => false,
                },
                Ok(next) => {
                    &&& reply_amount(reply_view(reply)) == Ok::<u64, Rejection>(next.amount)
                    &&& next.amount > 0
                    &&& next.request == self.request
                    &&& next.raw_code@ == derived_asset_code(
                        self.admission.contract@,
                        self.admission.token_id@,
                        self.admission.chain_id@,
                        request_salt(self.request),
                    )
                },
            },
    {
        let assessed = match &reply {
            Some(data) => assess_balance(Some(data.as_slice())),
            None => assess_balance(None),
        };
        match assessed {
            Err(reason) => Err(reject(self.request.id, reason)),
            Ok(amount) => {
                let raw_code = match &self.request.rand_str {
                    Some(text) => derive_asset_code(
                        &self.admission.contract,
                        &self.admission.token_id,
                        &self.admission.chain_id,
                        Some(text.as_str()),
                    ),
                    None => derive_asset_code(
                        &self.admission.contract,
                        &self.admission.token_id,
                        &self.admission.chain_id,
                        None,
                    ),
                };
                Ok(AwaitingAssetCode { request: self.request, raw_code, amount })
            },
        }
    }
}

impl AwaitingRecord {
    /// Takes the outcome of writing the record and gives the response. The
    /// transaction is delivered either way: with code zero when the record was
    /// written, with the failure's code when it was not.
    pub fn on_recorded(self, outcome: Result<(), PersistFailure>) -> (resp: GetIssueTxResp)
        ensures
            match outcome {
                Ok(_) => is_delivery(resp, self.id, 0, self.transaction),
                Err(failure) => is_delivery(
                    resp,
                    self.id,
                    failure.spec_rejection().spec_code(),
                    self.transaction,
                ),
            },
    {
        match outcome {
            Ok(_) => GetIssueTxResp { id: self.id, code: 0, msg: self.transaction },
            Err(failure) => GetIssueTxResp {
                id: self.id,
                code: failure.rejection().code(),
                msg: self.transaction,
            },
        }
    }
}

impl Api {
    /// The registry and the store are well formed.
    pub open spec fn wf(&self) -> bool {
        self.support_chain.wf() && self.issued.wf()
    }

    /// The signer and the receiving key that `req` proves, or why it proves
    /// none.
    pub open spec fn identity(&self, req: GetIssueTxReq) -> Result<(Seq<u8>, Seq<u8>), Rejection> {
        proof_outcome(
            self.binding,
            encode_utf8(req.receive_public_key@),
            encode_utf8(req.signature@),
        )
    }

    /// Why `req` is rejected before any balance is queried, or `None` when it
    /// is admitted. The checks come in this order: the signature, the chain
    /// id's form, the contract's form, the chain, the contract, the token
    /// id's form.
    pub open spec fn refusal(&self, req: GetIssueTxReq) -> Option<Rejection> {
        if let Err(reason) = self.identity(req) {
            Some(reason)
        } else if !is_word_text(encode_utf8(req.chainid@)) {
            Some(Rejection::ChainIdFormat)
        } else if !is_address_text(encode_utf8(req.token_address@)) {
            Some(Rejection::TokenAddressFormat)
        } else if !self.support_chain.supports(word_of_text(encode_utf8(req.chainid@))) {
            Some(Rejection::ChainNotSupported)
        } else if !self.support_chain.admits(
            word_of_text(encode_utf8(req.chainid@)),
            address_of_text(encode_utf8(req.token_address@)),
        ) {
            Some(Rejection::ContractNotSupported)
        } else if !is_word_text(encode_utf8(req.tokenid@)) {
            Some(Rejection::TokenIdFormat)
        } else {
            None
        }
    }

    /// Whether `admission` is what `req` is admitted for.
    pub open spec fn admission_matches(&self, req: GetIssueTxReq, admission: Admission) -> bool {
        &&& self.identity(req) == Ok::<(Seq<u8>, Seq<u8>), Rejection>(
            (admission.owner@, admission.public_key@),
        )
        &&& admission.chain_id@ == word_of_text(encode_utf8(req.chainid@))
        &&& admission.contract@ == address_of_text(encode_utf8(req.token_address@))
        &&& admission.token_id@ == word_of_text(encode_utf8(req.tokenid@))
        &&& admission.standard == standard_of(req.is_721)
        &&& exists|i: int|
            0 <= i < self.support_chain.entries().len() && (
            #[trigger] self.support_chain.entries()[i]).chain_id@ == admission.chain_id@
                && self.support_chain.entries()[i].endpoint == admission.endpoint
    }

    /// A bridge that has issued nothing yet.
    pub fn new(
        findora_query_url: String,
        support_chain: ChainRegistry,
        dir_path: String,
        binding: MessageBinding,
    ) -> (r: Self)
        requires
            support_chain.wf(),
        ensures
            r.wf(),
            r.findora_query_url == findora_query_url,
            r.support_chain == support_chain,
            r.dir_path == dir_path,
            r.binding == binding,
            r.issued.records().len() == 0,
    {
        Api { findora_query_url, support_chain, dir_path, binding, issued: IssuanceStore::new() }
    }

    /// The answer to a ping.
    pub fn ping() -> (r: String)
        ensures
            r@ == "pong"@,
    {
        "pong".to_owned()
    }

    /// The admitted chains with their admitted contracts, in the order of
    /// registration.
    pub fn get_support_chain(&self) -> (r: Vec<(Word, Vec<Address>)>)
        ensures
            r@.len() == self.support_chain.entries().len(),
            forall|i: int|
                0 <= i < r@.len() ==> (#[trigger] r@[i]).0 == self.support_chain.entries()[i].chain_id
                    && r@[i].1@ == self.support_chain.entries()[i].contracts@,
    {
        let mut chains: Vec<(Word, Vec<Address>)> = Vec::new();
        let mut i: usize = 0;
        while i < self.support_chain.len()
            invariant
                i <= self.support_chain.entries().len(),
                chains@.len() == i,
                forall|k: int|
                    0 <= k < i ==> (#[trigger] chains@[k]).0 == self.support_chain.entries()[k].chain_id
                        && chains@[k].1@ == self.support_chain.entries()[k].contracts@,
            decreases self.support_chain.entries().len() - i,
        {
            let entry = self.support_chain.entry(i);
            let mut contracts: Vec<Address> = Vec::new();
            let mut k: usize = 0;
            while k < entry.contracts.len()
                invariant
                    k <= entry.contracts@.len(),
                    contracts@ == entry.contracts@.subrange(0, k as int),
                decreases entry.contracts@.len() - k,
            {
                contracts.push(entry.contracts[k]);
                k += 1;
                assert(contracts@ =~= entry.contracts@.subrange(0, k as int));
            }
            assert(contracts@ =~= entry.contracts@);
            chains.push((entry.chain_id, contracts));
            i += 1;
        }
        chains
    }

    /// The record that is filed under `hex_code`, which may begin with `0x`.
    pub fn get_issue_info(&self, hex_code: &str) -> (r: Option<&IssuanceRecord>)
        ensures
            r.is_some() ==> self.issued.records().contains(*r.unwrap()),
            r.is_some() <==> crate::store::is_key_text(
                crate::hexcode::without_0x(encode_utf8(hex_code@)),
            ) && self.issued.contains(
                crate::hexcode::hex_decoded(crate::hexcode::without_0x(encode_utf8(hex_code@))),
            ),
            r.is_some() ==> r.unwrap().code@ == crate::hexcode::hex_decoded(
                crate::hexcode::without_0x(encode_utf8(hex_code@)),
            ),
    {
        self.issued.lookup_by_key(hex_code)
    }

    /// Begins a request: proves the caller's identity, reads the chain, the
    /// contract and the token id, and admits chain and contract. The request is
    /// either rejected, and then no balance is queried, or handed on with the
    /// balance call to make.
    pub fn get_issue_transaction(&self, req: GetIssueTxReq) -> (r: Result<
        AwaitingBalance,
        GetIssueTxResp,
    >)
        requires
            self.wf(),
        ensures
            match r {
                Err(resp) => match self.refusal(req) {
                    Some(reason) => is_rejection(resp, req.id, reason),
                    None => false,
                },
                Ok(next) => {
                    &&& self.refusal(req).is_none()
                    &&& next.request == req
                    &&& self.admission_matches(req, next.admission)
                    &&& self.support_chain.admits(
                        next.admission.chain_id@,
                        next.admission.contract@,
                    )
                    &&& next.call_data@ == balance_call_data(
                        next.admission.standard,
                        next.admission.owner@,
                        next.admission.token_id@,
                    )
                },
            },
    {
        let proved = match verify(
            &self.binding,
            req.receive_public_key.as_str(),
            req.signature.as_str(),
        ) {
            Ok(proved) => proved,
            Err(reason) => {
                return Err(reject(req.id, reason));
            },
        };
        let chain_id = match word_from_str(req.chainid.as_str()) {
            Some(chain_id) => chain_id,
            None => {
                return Err(reject(req.id, Rejection::ChainIdFormat));
            },
        };
        let contract = match address_from_str(req.token_address.as_str()) {
            Some(contract) => contract,
            None => {
                return Err(reject(req.id, Rejection::TokenAddressFormat));
            },
        };
        let endpoint = match self.support_chain.admitted_entry(&chain_id, &contract) {
            Ok(entry) => entry.endpoint.clone(),
            Err(reason) => {
                return Err(reject(req.id, reason));
            },
        };
        let token_id = match word_from_str(req.tokenid.as_str()) {
            Some(token_id) => token_id,
            None => {
                return Err(reject(req.id, Rejection::TokenIdFormat));
            },
        };
        let standard = if req.is_721 {
            TokenStandard::Erc721
        } else {
            TokenStandard::Erc1155
        };
        let call_data = encode_balance_call(standard, &proved.address, &token_id);
        let admission = Admission {
            owner: proved.address,
            public_key: proved.public_key,
            chain_id,
            contract,
            token_id,
            standard,
            endpoint,
        };
        Ok(AwaitingBalance { request: req, admission, call_data })
    }

    /// Takes the ledger's answer to the query for the asset code (`None` when
    /// there was none) and either rejects the request, when the answer is
    /// missing or the code already has a record, or hands it on to be built.
    pub fn on_asset_code(&self, state: AwaitingAssetCode, reply: Option<Word>) -> (r: Result<
        AwaitingBuild,
        GetIssueTxResp,
    >)
        ensures
            match reply {
                None => r.is_err() && is_rejection(
                    r.unwrap_err(),
                    state.request.id,
                    Rejection::DerivationUnavailable,
                ),
                Some(code) => if self.issued.contains(code@) {
                    r.is_err() && is_rejection(
                        r.unwrap_err(),
                        state.request.id,
                        Rejection::AlreadyIssued,
                    )
                } else {
                    &&& r.is_ok()
                    &&& r.unwrap().request == state.request
                    &&& r.unwrap().raw_code == state.raw_code
                    &&& r.unwrap().asset_code == code
                    &&& r.unwrap().amount == state.amount
                },
            },
    {
        match reply {
            None => Err(reject(state.request.id, Rejection::DerivationUnavailable)),
            Some(code) => {
                if self.issued.is_committed(&code) {
                    Err(reject(state.request.id, Rejection::AlreadyIssued))
                } else {
                    Ok(
                        AwaitingBuild {
                            request: state.request,
                            raw_code: state.raw_code,
                            asset_code: code,
                            amount: state.amount,
                        },
                    )
                }
            },
        }
    }

    /// Takes the outcome of assembling the transaction. A failed step rejects
    /// the request and records nothing. A built transaction is recorded under
    /// the asset code together with the request, unless the code has a record
    /// by now: then the request is rejected and the earlier record stays.
    pub fn on_built(&mut self, state: AwaitingBuild, outcome: Result<String, BuildFailure>) -> (r:
        Result<AwaitingRecord, GetIssueTxResp>)
        requires
            old(self).wf(),
        ensures
            final(self).wf(),
            final(self).findora_query_url == old(self).findora_query_url,
            final(self).support_chain == old(self).support_chain,
            final(self).dir_path == old(self).dir_path,
            final(self).binding == old(self).binding,
            match outcome {
                Err(failure) => {
                    &&& r.is_err()
                    &&& is_rejection(r.unwrap_err(), state.request.id, failure.spec_rejection())
                    &&& final(self).issued.records() == old(self).issued.records()
                },
                Ok(transaction) => if old(self).issued.contains(state.asset_code@) {
                    &&& r.is_err()
                    &&& is_rejection(r.unwrap_err(), state.request.id, Rejection::AlreadyIssued)
                    &&& final(self).issued.records() == old(self).issued.records()
                } else {
                    &&& r.is_ok()
                    &&& r.unwrap().id == state.request.id
                    &&& r.unwrap().asset_code == state.asset_code
                    &&& r.unwrap().key@ == key_text(state.asset_code@)
                    &&& r.unwrap().transaction == transaction
                    &&& final(self).issued.contains(state.asset_code@)
                    &&& final(self).issued.records() == old(self).issued.records().push(
                        IssuanceRecord {
                            code: state.asset_code,
                            request: state.request,
                            transaction,
                        },
                    )
                },
            },
    {
        match outcome {
            Err(failure) => Err(reject(state.request.id, failure.rejection())),
            Ok(transaction) => {
                let id = state.request.id.clone();
                let kept = transaction.clone();
                match self.issued.commit(state.asset_code, state.request, transaction) {
                    Err(reason) => Err(reject(id, reason)),
                    Ok(_) => {
                        proof {
                            let n = old(self).issued.records().len() as int;
                            assert(self.issued.records()[n].code@ == state.asset_code@);
                        }
                        Ok(
                            AwaitingRecord {
                                id,
                                asset_code: state.asset_code,
                                key: IssuanceStore::key(&state.asset_code),
                                transaction: kept,
                            },
                        )
                    },
                }
            },
        }
    }
}

/// The admission gate: a request is handed on to the balance query only if
/// its chain is registered and its contract is listed on that chain. Every
/// other request is rejected first.
pub proof fn only_admitted_requests_reach_the_oracle(api: Api, req: GetIssueTxReq)
    ensures
        api.refusal(req).is_none() ==> is_word_text(encode_utf8(req.chainid@)) && is_address_text(
            encode_utf8(req.token_address@),
        ) && api.support_chain.supports(word_of_text(encode_utf8(req.chainid@)))
            && api.support_chain.admits(
            word_of_text(encode_utf8(req.chainid@)),
            address_of_text(encode_utf8(req.token_address@)),
        ),
{
}

/// The admission gate: a request that proves an identity and names, in well
/// formed text, a chain that is not registered is rejected with
/// `ChainNotSupported`; one that names a registered chain and a contract that
/// the chain does not list is rejected with `ContractNotSupported`. Both are
/// denials of admission.
pub proof fn unadmitted_requests_are_denied(api: Api, req: GetIssueTxReq)
    requires
        api.identity(req).is_ok(),
        is_word_text(encode_utf8(req.chainid@)),
        is_address_text(encode_utf8(req.token_address@)),
        !api.support_chain.admits(
            word_of_text(encode_utf8(req.chainid@)),
            address_of_text(encode_utf8(req.token_address@)),
        ),
    ensures
        api.refusal(req).is_some(),
        api.refusal(req).unwrap().spec_kind() == crate::errors::ErrorKind::AdmissionDenied,
        api.refusal(req).unwrap() == if api.support_chain.supports(
            word_of_text(encode_utf8(req.chainid@)),
        ) {
            Rejection::ContractNotSupported
        } else {
            Rejection::ChainNotSupported
        },
{
    if !api.support_chain.supports(word_of_text(encode_utf8(req.chainid@))) {
        assert(!api.support_chain.admits(
            word_of_text(encode_utf8(req.chainid@)),
            address_of_text(encode_utf8(req.token_address@)),
        ));
    }
}

} // verus!
