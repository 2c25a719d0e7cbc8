use vstd::prelude::*;
use vstd::string::*;
use crate::codec::{decimal, decimal_text};
use crate::listing::{key_views, lemma_sorted_keys, lists_keys, sorted_keys};
use crate::model::LedgerView;
use crate::state;
use crate::state::Ledger;
use crate::transaction::{decode_record, StoredTxV1, TxRecord};
use crate::types::{
    account_key, copy_bytes, principal_debug_text, principal_text, principal_to_debug_text,
    principal_to_text, Account, AccountView, TokenId,
};
use crate::validation::{
    account_fault, fault_text, first_of, token_id_fault, validate_account, validate_token_id,
    ValidationError, ValidationFault,
};

verus! {

/// A token's metadata as queries return it.
#[derive(Clone, Debug)]
pub struct TokenMetadata {
    pub name: String,
    pub symbol: String,
    pub decimals: u8,
    pub total_supply: u128,
    pub fee: u128,
    pub logo: Option<String>,
    pub description: Option<String>,
}

/// An account with its balance.
#[derive(Clone, Debug)]
pub struct Balance {
    pub account: Account,
    pub balance: u128,
}

/// An allowance with its two accounts and its expiry.
#[derive(Clone, Debug)]
pub struct Allowance {
    pub owner: Account,
    pub spender: Account,
    pub allowance: u128,
    pub expires_at: Option<u64>,
}

/// A token with its metadata, its time of creation and its controller.
#[derive(Clone, Debug)]
pub struct TokenInfo {
    pub token_id: TokenId,
    pub metadata: TokenMetadata,
    pub created_at: u64,
    pub controller: Vec<u8>,
}

/// What a query error says.
pub enum QueryFault {
    TokenNotFound,
    InvalidInput(Seq<char>),
    InternalError(Seq<char>),
}

/// Why a query was refused.
#[derive(Clone, Debug, PartialEq, Eq)]
pub enum QueryError {
    TokenNotFound,
    InvalidInput(String),
    InternalError(String),
}

impl View for QueryError {
    type V = QueryFault;

    open spec fn view(&self) -> QueryFault {
        match self {
            QueryError::TokenNotFound => QueryFault::TokenNotFound,
            QueryError::InvalidInput(m) => QueryFault::InvalidInput(m@),
            QueryError::InternalError(m) => QueryFault::InternalError(m@),
        }
    }
}

impl From<ValidationError> for QueryError {
    /// The error for input that failed validation, with the validation
    /// error's text.
    fn from(err: ValidationError) -> (e: QueryError)
        ensures
            e@ == invalid_query(err@),
    {
        QueryError::InvalidInput(err.to_text())
    }
}

/// The conversion from a validation error builds a text, which no function of
/// the model can: what it returns is stated on `from` itself.
impl vstd::std_specs::convert::FromSpecImpl<ValidationError> for QueryError {
    open spec fn obeys_from_spec() -> bool {
        false
    }

    open spec fn from_spec(err: ValidationError) -> QueryError {
        arbitrary()
    }
}


/// A query whose input fails validation is refused with the text of the
/// validation error.
pub open spec fn invalid_query(f: ValidationFault) -> QueryFault {
    QueryFault::InvalidInput(fault_text(f))
}

/// What is found of a token id and the accounts of a query.
pub open spec fn query_fault(faults: Option<ValidationFault>) -> Option<QueryFault> {
    match faults {
        Some(f) => Some(invalid_query(f)),
        None => None,
    }
}

/// The fault of a query on a token that must be registered.
pub open spec fn token_query_fault(view: LedgerView, token_id: Seq<u8>) -> Option<QueryFault> {
    if token_id_fault(token_id).is_some() {
        query_fault(token_id_fault(token_id))
    } else if !view.tokens.contains_key(token_id) {
        Some(QueryFault::TokenNotFound)
    } else {
        None
    }
}

/// Validates the token id of a query.
fn check_token_id(token_id: &TokenId) -> (r: Result<(), QueryError>)
    ensures
        match r {
            Ok(_) => token_id_fault(token_id@).is_none(),
            Err(e) => query_fault(token_id_fault(token_id@)) == Some(e@),
        },
{
    match validate_token_id(token_id) {
        Err(e) => Err(QueryError::from(e)),
        Ok(_) => Ok(()),
    }
}

/// Validates an account of a query.
fn check_account(account: &Account) -> (r: Result<(), QueryError>)
    ensures
        match r {
            Ok(_) => account_fault(account@).is_none(),
            Err(e) => query_fault(account_fault(account@)) == Some(e@),
        },
{
    match validate_account(account) {
        Err(e) => Err(QueryError::from(e)),
        Ok(_) => Ok(()),
    }
}

/// The balance of an account in a token.
pub fn get_balance(ledger: &Ledger, token_id: TokenId, account: Account) -> (r: Result<
    u128,
    QueryError,
>)
    ensures
        ({
            let fault = query_fault(first_of(token_id_fault(token_id@), account_fault(account@)));
            match r {
                Ok(balance) => fault.is_none() && balance == ledger@.balance(
                    token_id@,
                    account_key(account@),
                ),
                Err(e) => fault == Some(e@),
            }
        }),
{
    match check_token_id(&token_id) {
        Err(e) => {
            return Err(e);
        },
        Ok(_) => {},
    }
    match check_account(&account) {
        Err(e) => {
            return Err(e);
        },
        Ok(_) => {},
    }
    let account_key = account.to_key();
    Ok(state::get_balance(ledger, token_id, account_key))
}

/// What `spender` may still spend of `owner`'s tokens.
pub fn get_allowance(ledger: &Ledger, token_id: TokenId, owner: Account, spender: Account) -> (r:
    Result<u128, QueryError>)
    ensures
        ({
            let fault = query_fault(
                first_of(
                    token_id_fault(token_id@),
                    first_of(account_fault(owner@), account_fault(spender@)),
                ),
            );
            match r {
                Ok(allowance) => fault.is_none() && allowance == ledger@.allowance(
                    token_id@,
                    account_key(owner@),
                    account_key(spender@),
                ),
                Err(e) => fault == Some(e@),
            }
        }),
{
    match check_token_id(&token_id) {
        Err(e) => {
            return Err(e);
        },
        Ok(_) => {},
    }
    match check_account(&owner) {
        Err(e) => {
            return Err(e);
        },
        Ok(_) => {},
    }
    match check_account(&spender) {
        Err(e) => {
            return Err(e);
        },
        Ok(_) => {},
    }
    let owner_key = owner.to_key();
    let spender_key = spender.to_key();
    Ok(state::get_allowance(ledger, token_id, owner_key, spender_key))
}

/// An allowance with its two accounts and its expiry.
pub fn get_allowance_details(
    ledger: &Ledger,
    token_id: TokenId,
    owner: Account,
    spender: Account,
) -> (r: Result<Allowance, QueryError>)
    ensures
        ({
            let fault = query_fault(
                first_of(
                    token_id_fault(token_id@),
                    first_of(account_fault(owner@), account_fault(spender@)),
                ),
            );
            match r {
                Ok(details) => fault.is_none() && details.owner@ == owner@ && details.spender@
                    == spender@ && details.allowance == ledger@.allowance(
                    token_id@,
                    account_key(owner@),
                    account_key(spender@),
                ) && details.expires_at == ledger@.allowance_expiry(
                    token_id@,
                    account_key(owner@),
                    account_key(spender@),
                ),
                Err(e) => fault == Some(e@),
            }
        }),
{
    match check_token_id(&token_id) {
        Err(e) => {
            return Err(e);
        },
        Ok(_) => {},
    }
    match check_account(&owner) {
        Err(e) => {
            return Err(e);
        },
        Ok(_) => {},
    }
    match check_account(&spender) {
        Err(e) => {
            return Err(e);
        },
        Ok(_) => {},
    }
    let owner_key = owner.to_key();
    let spender_key = spender.to_key();
    let allowance_amount = state::get_allowance(ledger, token_id, owner_key, spender_key);
    let expires_at = state::get_allowance_expiry(ledger, token_id, owner_key, spender_key);
    Ok(Allowance { owner, spender, allowance: allowance_amount, expires_at })
}

/// The total supply of a registered token.
pub fn get_total_supply(ledger: &Ledger, token_id: TokenId) -> (r: Result<u128, QueryError>)
    ensures
        match r {
            Ok(supply) => token_query_fault(ledger@, token_id@).is_none() && supply
                == ledger@.total_supply(token_id@),
            Err(e) => token_query_fault(ledger@, token_id@) == Some(e@),
        },
{
    match check_token_id(&token_id) {
        Err(e) => {
            return Err(e);
        },
        Ok(_) => {},
    }
    match state::get_token_metadata(ledger, token_id) {
        Some(metadata) => Ok(metadata.total_supply),
        None => Err(QueryError::TokenNotFound),
    }
}

/// The number of holders of a registered token.
pub fn get_holder_count(ledger: &Ledger, token_id: TokenId) -> (r: Result<u64, QueryError>)
    ensures
        match r {
            Ok(count) => token_query_fault(ledger@, token_id@).is_none() && count
                == ledger@.holder_count(token_id@),
            Err(e) => token_query_fault(ledger@, token_id@) == Some(e@),
        },
{
    match check_token_id(&token_id) {
        Err(e) => {
            return Err(e);
        },
        Ok(_) => {},
    }
    if !state::token_exists(ledger, token_id) {
        return Err(QueryError::TokenNotFound);
    }
    Ok(state::get_holder_count(ledger, token_id))
}

/// The metadata of a registered token.
pub fn get_token_metadata(ledger: &Ledger, token_id: TokenId) -> (r: Result<
    TokenMetadata,
    QueryError,
>)
    ensures
        match r {
            Ok(m) => {
                let stored = ledger@.tokens[token_id@];
                &&& token_query_fault(ledger@, token_id@).is_none()
                &&& m.name@ == stored.name
                &&& m.symbol@ == stored.symbol
                &&& m.decimals == stored.decimals
                &&& m.total_supply == stored.total_supply
                &&& m.fee == stored.fee
                &&& crate::operations::optional_text(m.logo) == stored.logo
                &&& crate::operations::optional_text(m.description) == stored.description
            },
            Err(e) => token_query_fault(ledger@, token_id@) == Some(e@),
        },
{
    match check_token_id(&token_id) {
        Err(e) => {
            return Err(e);
        },
        Ok(_) => {},
    }
    match state::get_token_metadata(ledger, token_id) {
        Some(stored) => Ok(
            TokenMetadata {
                name: stored.name,
                symbol: stored.symbol,
                decimals: stored.decimals,
                total_supply: stored.total_supply,
                fee: stored.fee,
                logo: stored.logo,
                description: stored.description,
            },
        ),
        None => Err(QueryError::TokenNotFound),
    }
}

/// The number of records in the transaction log.
pub fn get_transaction_count(ledger: &Ledger) -> (r: u64)
    ensures
        r == ledger@.log.len(),
{
    state::get_transaction_count(ledger)
}

/// The most records that one query returns.
pub const MAX_RESULTS: u64 = 1000;

/// The number of records that a query looks at where it names no length.
pub const DEFAULT_RESULTS: u64 = 100;

/// How many records a query looks at: the length asked for, or the default,
/// capped.
pub open spec fn page_length(length: Option<u64>) -> u64 {
    let asked = match length {
        Some(n) => n,
        None => DEFAULT_RESULTS,
    };
    if asked < MAX_RESULTS {
        asked
    } else {
        MAX_RESULTS
    }
}

/// The index after the last record that a query looks at.
pub open spec fn page_end(total: int, start: int, length: Option<u64>) -> int {
    if start >= total {
        start
    } else if start + page_length(length) < total {
        start + page_length(length)
    } else {
        total
    }
}

/// Whether a log entry is a record that the filter lets pass.
pub open spec fn passes(entry: Seq<u8>, filter: Option<Seq<u8>>) -> bool {
    entry.len() == 256 && (filter.is_none() || decode_record(entry).token_id == filter.unwrap())
}

/// The records among the log entries from `start` up to `end` that the
/// filter lets pass, in the order of the log.
pub open spec fn selected(log: Seq<Seq<u8>>, filter: Option<Seq<u8>>, start: int, end: int) -> Seq<
    TxRecord,
>
    decreases end - start,
{
    if start >= end {
        Seq::empty()
    } else {
        let rest = selected(log, filter, start, end - 1);
        if passes(log[end - 1], filter) {
            rest.push(decode_record(log[end - 1]))
        } else {
            rest
        }
    }
}

/// What a vector of records says.
pub open spec fn records(v: Seq<StoredTxV1>) -> Seq<TxRecord> {
    Seq::new(v.len(), |i: int| v[i]@)
}

/// The id that a filter names.
pub open spec fn filter_bytes(token_id: Option<TokenId>) -> Option<Seq<u8>> {
    match token_id {
        Some(t) => Some(t@),
        None => None,
    }
}

/// A page of the transaction log: of the records from `start` on, as many as
/// `length` says (100 where it says nothing, at most 1000), those of the
/// token where one is named.
pub fn get_transactions(
    ledger: &Ledger,
    token_id: Option<TokenId>,
    start: Option<u64>,
    length: Option<u64>,
) -> (r: Result<Vec<StoredTxV1>, QueryError>)
    ensures
        ({
            let fault = match token_id {
                Some(t) => query_fault(token_id_fault(t@)),
                None => None,
            };
            let first = match start {
                Some(s) => s as int,
                None => 0,
            };
            match r {
                Ok(list) => fault.is_none() && records(list@) == selected(
                    ledger@.log,
                    filter_bytes(token_id),
                    first,
                    page_end(ledger@.log.len() as int, first, length),
                ),
                Err(e) => fault == Some(e@),
            }
        }),
{
    match token_id {
        Some(tid) => match check_token_id(&tid) {
            Err(e) => {
                return Err(e);
            },
            Ok(_) => {},
        },
        None => {},
    }
    let total_count = state::get_transaction_count(ledger);
    let start_idx = match start {
        Some(s) => s,
        None => 0,
    };
    let asked = match length {
        Some(n) => n,
        None => DEFAULT_RESULTS,
    };
    let requested_length = if asked < MAX_RESULTS {
        asked
    } else {
        MAX_RESULTS
    };
    let mut results: Vec<StoredTxV1> = Vec::new();
    if start_idx >= total_count {
        return Ok(results);
    }
    let end_idx = if total_count - start_idx > requested_length {
        start_idx + requested_length
    } else {
        total_count
    };
    let ghost filter = filter_bytes(token_id);
    let mut idx = start_idx;
    while idx < end_idx
        invariant
            start_idx <= idx <= end_idx <= ledger@.log.len(),
            filter == filter_bytes(token_id),
            records(results@) == selected(ledger@.log, filter, start_idx as int, idx as int),
        decreases end_idx - idx,
    {
        match state::get_transaction(ledger, idx) {
            Some(tx) => {
                let keep = match token_id {
                    Some(filter_token_id) => crate::types::bytes_equal(
                        tx.token_id.as_slice(),
                        filter_token_id.as_slice(),
                    ),
                    None => true,
                };
                if keep {
                    results.push(tx);
                }
            },
            None => {},
        }
        idx += 1;
    }
    Ok(results)
}

/// The name and version in a health report.
pub open spec fn health_prefix() -> Seq<char> {
    "ICRC-151 Canister v0.1.0 - Controller: "@
}

/// How the primary controller is printed in a health report.
pub open spec fn controller_debug(controller: Option<Seq<u8>>) -> Seq<char> {
    match controller {
        Some(p) => "Some("@ + principal_debug_text(p) + ")"@,
        None => "None"@,
    }
}

/// A line on the ledger's health: name and version, the primary controller
/// and the number of transactions.
pub fn health_check(ledger: &Ledger) -> (r: String)
    ensures
        r@ == health_prefix() + controller_debug(ledger@.primary_controller())
            + " - Transactions: "@ + decimal_text(ledger@.log.len() as u128),
{
    let controller = match state::get_controller(ledger) {
        Some(p) => String::from_str("Some(").concat(
            principal_to_debug_text(p.as_slice()).as_str(),
        ).concat(")"),
        None => String::from_str("None"),
    };
    let count = decimal(state::get_transaction_count(ledger) as u128);
    String::from_str("ICRC-151 Canister v0.1.0 - Controller: ").concat(controller.as_str()).concat(
        " - Transactions: ",
    ).concat(count.as_str())
}

/// What the ledger says of itself.
#[derive(Clone, Debug)]
pub struct CanisterInfo {
    pub name: String,
    pub version: String,
    pub controller: String,
    pub transaction_count: u64,
    pub global_tx_count: u64,
}

/// Name and version of the ledger, the primary controller in its text form
/// ("None" where there is none), the length of the log and the global
/// transaction counter.
pub fn get_info(ledger: &Ledger) -> (r: CanisterInfo)
    ensures
        r.name@ == "ICRC-151 Multi-Token Ledger"@,
        r.version@ == "0.1.0"@,
        r.controller@ == (match ledger@.primary_controller() {
            Some(p) => principal_text(p),
            None => "None"@,
        }),
        r.transaction_count == ledger@.log.len(),
        r.global_tx_count == ledger@.tx_count(),
{
    CanisterInfo {
        name: String::from_str("ICRC-151 Multi-Token Ledger"),
        version: String::from_str("0.1.0"),
        controller: match state::get_controller(ledger) {
            Some(p) => principal_to_text(p.as_slice()),
            None => String::from_str("None"),
        },
        transaction_count: state::get_transaction_count(ledger),
        global_tx_count: state::get_global_tx_count(ledger),
    }
}

/// The ids of all registered tokens, in ascending order.
pub fn list_tokens(ledger: &Ledger) -> (r: Vec<TokenId>)
    ensures
        lists_keys(key_views(r@), ledger@.tokens.dom()),
        key_views(r@) == sorted_keys(ledger@.tokens.dom()),
{
    state::list_token_ids(ledger)
}

/// A token with the balance that an account holds of it.
#[derive(Clone, Debug)]
pub struct TokenBalance {
    pub token_id: TokenId,
    pub balance: u128,
}

/// The balances of an account key in the listed tokens, in the order of the
/// list; a token in which the balance is zero is passed over.
pub open spec fn holdings(view: LedgerView, token_ids: Seq<Seq<u8>>, account: Seq<u8>) -> Seq<
    (Seq<u8>, u128),
>
    decreases token_ids.len(),
{
    if token_ids.len() == 0 {
        Seq::empty()
    } else {
        let rest = holdings(view, token_ids.drop_last(), account);
        let token_id = token_ids.last();
        if view.balance(token_id, account) > 0 {
            rest.push((token_id, view.balance(token_id, account)))
        } else {
            rest
        }
    }
}

/// What a vector of token balances says.
pub open spec fn token_balances(v: Seq<TokenBalance>) -> Seq<(Seq<u8>, u128)> {
    Seq::new(v.len(), |i: int| (v[i].token_id@, v[i].balance))
}

/// The balances of an account that are not zero, over all registered tokens
/// in ascending order of their ids.
pub fn get_balances_for(ledger: &Ledger, owner: &[u8], subaccount: Option<Vec<u8>>) -> (r: Vec<
    TokenBalance,
>)
    ensures
        token_balances(r@) == holdings(
            ledger@,
            sorted_keys(ledger@.tokens.dom()),
            account_key(
                AccountView {
                    owner: owner@,
                    subaccount: crate::operations::optional_bytes(subaccount),
                },
            ),
        ),
{
    let account = Account { owner: copy_bytes(owner), subaccount };
    let account_key = account.to_key();
    let token_ids = state::list_token_ids(ledger);
    let ghost ids = key_views(token_ids@);
    let mut results: Vec<TokenBalance> = Vec::new();
    let mut i: usize = 0;
    while i < token_ids.len()
        invariant
            i <= token_ids@.len(),
            ids == key_views(token_ids@),
            token_balances(results@) == holdings(ledger@, ids.subrange(0, i as int), account_key@),
        decreases token_ids@.len() - i,
    {
        let token_id = token_ids[i];
        assert(ids.subrange(0, i + 1).drop_last() =~= ids.subrange(0, i as int));
        let amount = state::get_balance(ledger, token_id, account_key);
        if amount > 0 {
            results.push(TokenBalance { token_id, balance: amount });
        }
        i += 1;
    }
    assert(ids.subrange(0, i as int) =~= ids);
    results
}

/// The sizes of the ledger's structures.
#[derive(Clone, Debug)]
pub struct StorageStats {
    pub transaction_log_size: u64,
    pub dedup_map_size: u64,
    pub allowance_expiry_size: u64,
    pub extended_memos_size: u64,
    pub holder_counts_size: u64,
    pub token_count: u64,
    pub estimated_memory_bytes: u64,
}

/// The estimate of the memory in use: 256 bytes for each log record, 40 for
/// each dedup entry, expiry entry and holder count, 100 for each full memo.
pub open spec fn memory_estimate(
    transactions: u64,
    dedup: u64,
    expiry: u64,
    memos: u64,
    holder_counts: u64,
) -> int {
    transactions * 256 + dedup * 40 + expiry * 40 + memos * 100 + holder_counts * 40
}

/// A number as `u64`; the largest `u64` where it is larger.
pub open spec fn capped(n: int) -> u64 {
    if n <= u64::MAX {
        n as u64
    } else {
        u64::MAX
    }
}

/// The sizes of the ledger's structures and an estimate of the memory they
/// use, capped at the largest `u64`.
pub fn get_storage_stats(ledger: &Ledger) -> (r: StorageStats)
    ensures
        r.transaction_log_size == ledger@.log.len(),
        r.dedup_map_size == ledger@.dedup.dom().len(),
        r.allowance_expiry_size == ledger@.expiry.dom().len(),
        r.extended_memos_size == ledger@.memos.dom().len(),
        r.holder_counts_size == ledger@.holders.dom().len(),
        r.token_count == sorted_keys(ledger@.tokens.dom()).len(),
        r.estimated_memory_bytes == capped(
            memory_estimate(
                r.transaction_log_size,
                r.dedup_map_size,
                r.allowance_expiry_size,
                r.extended_memos_size,
                r.holder_counts_size,
            ),
        ),
{
    let tx_count = state::get_transaction_count(ledger);
    let dedup_size = state::get_dedup_map_size(ledger);
    let expiry_size = state::get_allowance_expiry_size(ledger);
    let memo_size = state::get_extended_memos_size(ledger);
    let holder_counts_size = state::get_holder_counts_size(ledger);
    let token_ids = state::list_token_ids(ledger);
    let token_count = token_ids.len() as u64;
    let estimate: u128 = (tx_count as u128) * 256 + (dedup_size as u128) * 40 + (expiry_size as u128)
        * 40 + (memo_size as u128) * 100 + (holder_counts_size as u128) * 40;
    let estimated_memory: u64 = if estimate <= u64::MAX as u128 {
        estimate as u64
    } else {
        u64::MAX
    };
    StorageStats {
        transaction_log_size: tx_count,
        dedup_map_size: dedup_size,
        allowance_expiry_size: expiry_size,
        extended_memos_size: memo_size,
        holder_counts_size,
        token_count,
        estimated_memory_bytes: estimated_memory,
    }
}

} // verus!
