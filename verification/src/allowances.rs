use vstd::prelude::*;
use vstd::string::*;
use crate::model::LedgerView;
use crate::operations::{
    apply_movement, charged_fee, check_movement, counter_overflow, created_in_future,
    created_too_long_ago, fee_fault, generic_fault, invalid_input, lemma_logged_then_moved,
    optional_bytes, settled, stamp, time_fault, token_not_found, transfer_outcome, Fault, Overflow,
    TransferError, TransferResult,
};
use crate::state;
use crate::state::{dedup_key, expired_at, Ledger};
use crate::transaction::{approve_record, memo_bytes, transfer_from_record, StoredTxV1, TxRecord};
use crate::types::{account_key, copy_bytes, Account, AccountView, TokenId};
use crate::validation::{
    account_fault, amount_fault, approve_params_fault, fault_text, first_of, optional_memo_fault,
    token_id_fault, validate_account, validate_amount, validate_approve_params, validate_memo,
    validate_token_id, ValidationError,
};

verus! {

/// The arguments of an approval.
#[derive(Clone, Debug)]
pub struct Icrc151ApproveArgs {
    pub token_id: TokenId,
    pub spender: Account,
    pub amount: u128,
    pub expires_at: Option<u64>,
    pub expected_allowance: Option<u128>,
    pub memo: Option<Vec<u8>>,
    pub fee: Option<u128>,
    pub from_subaccount: Option<Vec<u8>>,
    pub created_at_time: Option<u64>,
}

/// The result of an approval: the index of the new log record, or the error.
pub type ApproveResult = Result<u64, ApproveError>;

/// Why an approval was refused.
#[derive(Clone, Debug, PartialEq, Eq)]
pub enum ApproveError {
    BadFee { expected_fee: u128 },
    InsufficientFunds { balance: u128 },
    AllowanceChanged { current_allowance: u128 },
    Expired { ledger_time: u64 },
    TooOld,
    CreatedInFuture { ledger_time: u64 },
    Duplicate { duplicate_of: u64 },
    TemporarilyUnavailable,
    GenericError { error_code: u64, message: String },
}

impl View for ApproveError {
    type V = Fault;

    open spec fn view(&self) -> Fault {
        match self {
            ApproveError::BadFee { expected_fee } => Fault::BadFee { expected_fee: *expected_fee },
            ApproveError::InsufficientFunds { balance } => Fault::InsufficientFunds {
                balance: *balance,
            },
            ApproveError::AllowanceChanged { current_allowance } => Fault::AllowanceChanged {
                current_allowance: *current_allowance,
            },
            ApproveError::Expired { ledger_time } => Fault::Expired { ledger_time: *ledger_time },
            ApproveError::TooOld => Fault::TooOld,
            ApproveError::CreatedInFuture { ledger_time } => Fault::CreatedInFuture {
                ledger_time: *ledger_time,
            },
            ApproveError::Duplicate { duplicate_of } => Fault::Duplicate {
                duplicate_of: *duplicate_of,
            },
            ApproveError::TemporarilyUnavailable => Fault::TemporarilyUnavailable,
            ApproveError::GenericError { error_code, message } => Fault::GenericError {
                error_code: *error_code,
                message: message@,
            },
        }
    }
}

impl From<ValidationError> for ApproveError {
    /// The error for input that failed validation, with the validation
    /// error's text.
    fn from(err: ValidationError) -> (e: ApproveError)
        ensures
            e@ == invalid_input(err@),
    {
        ApproveError::GenericError { error_code: 400, message: err.to_text() }
    }
}

/// The conversion from a validation error builds a text, which no function of
/// the model can: what it returns is stated on `from` itself.
impl vstd::std_specs::convert::FromSpecImpl<ValidationError> for ApproveError {
    open spec fn obeys_from_spec() -> bool {
        false
    }

    open spec fn from_spec(err: ValidationError) -> ApproveError {
        arbitrary()
    }
}

impl ApproveError {
    fn generic(error_code: u64, message: &str) -> (e: ApproveError)
        ensures
            e@ == generic_fault(error_code, message@),
    {
        ApproveError::GenericError { error_code, message: String::from_str(message) }
    }
}

/// What an approve result says: the transaction index, or the fault.
pub open spec fn approve_outcome(r: ApproveResult) -> Result<u64, Fault> {
    match r {
        Ok(index) => Ok(index),
        Err(e) => Err(e@),
    }
}

/// The arguments of a transfer by a spender.
#[derive(Clone, Debug)]
pub struct Icrc151TransferFromArgs {
    pub token_id: TokenId,
    pub spender_subaccount: Option<Vec<u8>>,
    pub from: Account,
    pub to: Account,
    pub amount: u128,
    pub fee: Option<u128>,
    pub memo: Option<Vec<u8>>,
    pub created_at_time: Option<u64>,
}

/// An approval as the ledger sees it.
pub struct ApproveCall {
    pub token_id: Seq<u8>,
    pub owner: AccountView,
    pub spender: AccountView,
    pub amount: u128,
    pub expires_at: Option<u64>,
    pub expected_allowance: Option<u128>,
    pub fee: Option<u128>,
    pub memo: Option<Seq<u8>>,
    pub created_at_time: Option<u64>,
    pub now: u64,
}

impl ApproveCall {
    pub open spec fn fee_amount(self, pre: LedgerView) -> u128 {
        charged_fee(pre.tokens[self.token_id].fee, self.fee)
    }

    pub open spec fn timestamp(self) -> u64 {
        stamp(self.created_at_time, self.now)
    }

    pub open spec fn owner_key(self) -> Seq<u8> {
        account_key(self.owner)
    }

    pub open spec fn spender_key(self) -> Seq<u8> {
        account_key(self.spender)
    }

    /// The fingerprint of the request: the caller is the owner.
    pub open spec fn fingerprint(self) -> Seq<u8> {
        dedup_key(self.owner.owner, self.token_id, self.timestamp(), self.memo)
    }

    /// The allowance that stands before the approval.
    pub open spec fn current_allowance(self, pre: LedgerView) -> u128 {
        pre.allowance(self.token_id, self.owner_key(), self.spender_key())
    }

    /// The ledger after the allowance, and its expiry where one is given,
    /// were written. No balance changes: the fee of an approval is recorded
    /// in the log and charged to nobody.
    pub open spec fn granted(self, pre: LedgerView) -> LedgerView {
        let allowed = pre.with_allowance(
            self.token_id,
            self.owner_key(),
            self.spender_key(),
            self.amount,
        );
        match self.expires_at {
            Some(exp) => allowed.with_expiry(self.token_id, self.owner_key(), self.spender_key(), exp),
            None => allowed,
        }
    }

    pub open spec fn record(self, pre: LedgerView) -> TxRecord {
        approve_record(
            self.token_id,
            self.owner_key(),
            self.spender_key(),
            self.amount,
            self.fee_amount(pre),
            self.timestamp(),
            self.memo,
        )
    }

    /// What is found of the approval before it is looked up among the writes
    /// that were made: the first check that fails.
    pub open spec fn precondition_fault(self, pre: LedgerView) -> Option<Fault> {
        let input = first_of(
            token_id_fault(self.token_id),
            approve_params_fault(self.owner, self.spender, self.amount, self.memo),
        );
        if input.is_some() {
            Some(invalid_input(input.unwrap()))
        } else if !pre.tokens.contains_key(self.token_id) {
            Some(token_not_found())
        } else if fee_fault(pre.tokens[self.token_id].fee, self.fee).is_some() {
            fee_fault(pre.tokens[self.token_id].fee, self.fee)
        } else if time_fault(self.created_at_time, self.now).is_some() {
            time_fault(self.created_at_time, self.now)
        } else if self.expires_at.is_some() && self.expires_at.unwrap() <= self.timestamp() {
            Some(Fault::Expired { ledger_time: self.timestamp() })
        } else if self.expected_allowance.is_some() && self.expected_allowance.unwrap()
            != self.current_allowance(pre) {
            Some(Fault::AllowanceChanged { current_allowance: self.current_allowance(pre) })
        } else {
            None
        }
    }

    /// What stands in the way of committing the approval: the transaction
    /// counter that cannot take it.
    pub open spec fn capacity_fault(self, pre: LedgerView) -> Option<Fault> {
        if pre.tx_count() == u64::MAX {
            Some(counter_overflow())
        } else {
            None
        }
    }

    /// Why the approval is refused, if it is: the first check that fails, in
    /// the order of the pipeline.
    pub open spec fn fault(self, pre: LedgerView) -> Option<Fault> {
        if self.precondition_fault(pre).is_some() {
            self.precondition_fault(pre)
        } else if pre.duplicate_of(self.fingerprint()).is_some() {
            Some(Fault::Duplicate { duplicate_of: pre.duplicate_of(self.fingerprint()).unwrap() })
        } else {
            self.capacity_fault(pre)
        }
    }

    /// The ledger after the approval: the allowance overwritten, its expiry
    /// recorded where one is given, and the transaction logged.
    pub open spec fn effect(self, pre: LedgerView) -> LedgerView {
        self.granted(pre).logged(self.record(pre), self.memo, self.fingerprint())
    }
}

/// Logging a transaction and writing an allowance or its expiry do not touch
/// the same parts of the ledger: they can be done in either order.
pub proof fn lemma_logged_then_allowance(
    pre: LedgerView,
    record: TxRecord,
    memo: Option<Seq<u8>>,
    dedup: Seq<u8>,
    token_id: Seq<u8>,
    owner: Seq<u8>,
    spender: Seq<u8>,
    amount: u128,
    expires_at: u64,
)
    ensures
        pre.logged(record, memo, dedup).with_allowance(token_id, owner, spender, amount)
            == pre.with_allowance(token_id, owner, spender, amount).logged(record, memo, dedup),
        pre.logged(record, memo, dedup).with_expiry(token_id, owner, spender, expires_at)
            == pre.with_expiry(token_id, owner, spender, expires_at).logged(record, memo, dedup),
{
}

/// Sets the allowance of `spender` on the account `owner`, which is the
/// caller's. No balance changes.
pub fn approve_internal(
    ledger: &mut Ledger,
    now: u64,
    token_id: TokenId,
    owner: Account,
    spender: Account,
    amount: u128,
    expires_at: Option<u64>,
    expected_allowance: Option<u128>,
    fee: Option<u128>,
    memo: Option<&[u8]>,
    created_at_time: Option<u64>,
) -> (r: Result<u64, ApproveError>)
    ensures
        ({
            let call = ApproveCall {
                token_id: token_id@,
                owner: owner@,
                spender: spender@,
                amount,
                expires_at,
                expected_allowance,
                fee,
                memo: memo_bytes(memo),
                created_at_time,
                now,
            };
            &&& settled(
                old(ledger)@,
                final(ledger)@,
                approve_outcome(r),
                call.fault(old(ledger)@),
                call.effect(old(ledger)@),
            )
            &&& r is Ok ==> call.record(old(ledger)@).wf()
        }),
{
    let ghost pre = ledger@;
    let ghost call = ApproveCall {
        token_id: token_id@,
        owner: owner@,
        spender: spender@,
        amount,
        expires_at,
        expected_allowance,
        fee,
        memo: memo_bytes(memo),
        created_at_time,
        now,
    };
    match validate_token_id(&token_id) {
        Err(e) => {
            return Err(ApproveError::from(e));
        },
        Ok(_) => {},
    }
    match validate_approve_params(&owner, &spender, amount, fee, memo) {
        Err(e) => {
            return Err(ApproveError::from(e));
        },
        Ok(_) => {},
    }
    let metadata = match state::get_token_metadata(ledger, token_id) {
        Some(m) => m,
        None => {
            return Err(ApproveError::generic(404, "Token not found"));
        },
    };
    let expected_fee = metadata.fee;
    let fee_amount = match fee {
        Some(provided_fee) => {
            if provided_fee != expected_fee {
                return Err(ApproveError::BadFee { expected_fee });
            }
            provided_fee
        },
        None => expected_fee,
    };
    if created_in_future(created_at_time, now) {
        return Err(ApproveError::CreatedInFuture { ledger_time: now });
    }
    if created_too_long_ago(created_at_time, now) {
        return Err(ApproveError::TooOld);
    }
    let timestamp = match created_at_time {
        Some(t) => t,
        None => now,
    };
    match expires_at {
        Some(exp_time) => {
            if exp_time <= timestamp {
                return Err(ApproveError::Expired { ledger_time: timestamp });
            }
        },
        None => {},
    }
    let owner_key = owner.to_key();
    let spender_key = spender.to_key();
    let current_allowance = state::get_allowance(ledger, token_id, owner_key, spender_key);
    match expected_allowance {
        Some(expected) => {
            if current_allowance != expected {
                return Err(ApproveError::AllowanceChanged { current_allowance });
            }
        },
        None => {},
    }
    let dedup_key = state::compute_dedup_key(owner.owner.as_slice(), token_id, timestamp, memo);
    match state::check_duplicate(ledger, dedup_key) {
        Some(duplicate_of) => {
            return Err(ApproveError::Duplicate { duplicate_of });
        },
        None => {},
    }
    if state::get_global_tx_count(ledger) == u64::MAX {
        return Err(ApproveError::generic(500, "Transaction count overflow"));
    }
    let tx = StoredTxV1::new_approve(
        token_id,
        owner_key,
        spender_key,
        amount,
        fee_amount,
        timestamp,
        memo,
    );
    proof {
        crate::invariants::lemma_record_roundtrip(tx);
    }
    let tx_index = match state::log_transaction(ledger, tx, memo, dedup_key) {
        Some(index) => index,
        None => {
            return Err(ApproveError::generic(500, "Failed to append transaction"));
        },
    };
    let ghost record = call.record(pre);
    let ghost dk = call.fingerprint();
    state::set_allowance(ledger, token_id, owner_key, spender_key, amount);
    proof {
        lemma_logged_then_allowance(
            pre,
            record,
            call.memo,
            dk,
            call.token_id,
            call.owner_key(),
            call.spender_key(),
            amount,
            0,
        );
    }
    match expires_at {
        Some(exp_time) => {
            state::set_allowance_expiry(ledger, token_id, owner_key, spender_key, exp_time);
            proof {
                lemma_logged_then_allowance(
                    pre.with_allowance(
                        call.token_id,
                        call.owner_key(),
                        call.spender_key(),
                        amount,
                    ),
                    record,
                    call.memo,
                    dk,
                    call.token_id,
                    call.owner_key(),
                    call.spender_key(),
                    amount,
                    exp_time,
                );
            }
        },
        None => {},
    }
    Ok(tx_index)
}

/// The approval that `caller` asks for with `args` at time `now`.
pub open spec fn approve_call(caller: Seq<u8>, now: u64, args: Icrc151ApproveArgs) -> ApproveCall {
    ApproveCall {
        token_id: args.token_id@,
        owner: AccountView { owner: caller, subaccount: optional_bytes(args.from_subaccount) },
        spender: args.spender@,
        amount: args.amount,
        expires_at: args.expires_at,
        expected_allowance: args.expected_allowance,
        fee: args.fee,
        memo: optional_bytes(args.memo),
        created_at_time: args.created_at_time,
        now,
    }
}

/// Lets a spender spend from the caller's account, up to an amount.
pub fn approve(ledger: &mut Ledger, caller: &[u8], now: u64, args: Icrc151ApproveArgs) -> (r:
    ApproveResult)
    ensures
        settled(
            old(ledger)@,
            final(ledger)@,
            approve_outcome(r),
            approve_call(caller@, now, args).fault(old(ledger)@),
            approve_call(caller@, now, args).effect(old(ledger)@),
        ),
{
    let owner_account = Account { owner: copy_bytes(caller), subaccount: args.from_subaccount };
    let memo: Option<&[u8]> = match &args.memo {
        Some(m) => Some(m.as_slice()),
        None => None,
    };
    approve_internal(
        ledger,
        now,
        args.token_id,
        owner_account,
        args.spender,
        args.amount,
        args.expires_at,
        args.expected_allowance,
        args.fee,
        memo,
        args.created_at_time,
    )
}

/// A transfer by a spender as the ledger sees it.
pub struct TransferFromCall {
    pub token_id: Seq<u8>,
    pub spender: AccountView,
    pub from: AccountView,
    pub to: AccountView,
    pub amount: u128,
    pub fee: Option<u128>,
    pub memo: Option<Seq<u8>>,
    pub created_at_time: Option<u64>,
    pub now: u64,
}

impl TransferFromCall {
    pub open spec fn fee_amount(self, pre: LedgerView) -> u128 {
        charged_fee(pre.tokens[self.token_id].fee, self.fee)
    }

    pub open spec fn total(self, pre: LedgerView) -> int {
        self.amount + self.fee_amount(pre)
    }

    pub open spec fn timestamp(self) -> u64 {
        stamp(self.created_at_time, self.now)
    }

    pub open spec fn spender_key(self) -> Seq<u8> {
        account_key(self.spender)
    }

    pub open spec fn from_key(self) -> Seq<u8> {
        account_key(self.from)
    }

    pub open spec fn to_key(self) -> Seq<u8> {
        account_key(self.to)
    }

    pub open spec fn fee_key(self, pre: LedgerView) -> Seq<u8> {
        account_key(pre.tokens[self.token_id].fee_recipient)
    }

    /// The fingerprint of the request: the caller is the spender.
    pub open spec fn fingerprint(self) -> Seq<u8> {
        dedup_key(self.spender.owner, self.token_id, self.timestamp(), self.memo)
    }

    /// The allowance that the spender has from the sender.
    pub open spec fn current_allowance(self, pre: LedgerView) -> u128 {
        pre.allowance(self.token_id, self.from_key(), self.spender_key())
    }

    /// What is found of the inputs: the first of a fault of the token id, of
    /// the spender, of the sender, of the receiver, of the amount, of the memo.
    pub open spec fn input_fault(self) -> Option<Seq<char>> {
        if token_id_fault(self.token_id).is_some() {
            Some(fault_text(token_id_fault(self.token_id).unwrap()))
        } else if account_fault(self.spender).is_some() {
            Some(fault_text(account_fault(self.spender).unwrap()))
        } else if account_fault(self.from).is_some() {
            Some(fault_text(account_fault(self.from).unwrap()))
        } else if account_fault(self.to).is_some() {
            Some(fault_text(account_fault(self.to).unwrap()))
        } else if self.amount == 0 {
            Some("Amount must be greater than 0"@)
        } else if amount_fault(self.amount, false).is_some() {
            Some(fault_text(amount_fault(self.amount, false).unwrap()))
        } else if optional_memo_fault(self.memo).is_some() {
            Some(fault_text(optional_memo_fault(self.memo).unwrap()))
        } else {
            None
        }
    }

    /// The ledger after the payment.
    pub open spec fn paid(self, pre: LedgerView) -> LedgerView {
        pre.moved(
            self.token_id,
            self.from_key(),
            self.to_key(),
            self.fee_key(pre),
            self.amount,
            self.fee_amount(pre),
        )
    }

    pub open spec fn record(self, pre: LedgerView) -> TxRecord {
        transfer_from_record(
            self.token_id,
            self.from_key(),
            self.to_key(),
            self.spender_key(),
            self.amount,
            self.fee_amount(pre),
            self.timestamp(),
            self.memo,
        )
    }

    /// What is found of the transfer before it is looked up among the writes
    /// that were made: the first check that fails.
    pub open spec fn precondition_fault(self, pre: LedgerView) -> Option<Fault> {
        let balance = pre.balance(self.token_id, self.from_key());
        if self.input_fault().is_some() {
            Some(generic_fault(400, self.input_fault().unwrap()))
        } else if !pre.tokens.contains_key(self.token_id) {
            Some(token_not_found())
        } else if fee_fault(pre.tokens[self.token_id].fee, self.fee).is_some() {
            fee_fault(pre.tokens[self.token_id].fee, self.fee)
        } else if time_fault(self.created_at_time, self.now).is_some() {
            time_fault(self.created_at_time, self.now)
        } else if self.total(pre) > u128::MAX {
            Some(generic_fault(500, "Amount + fee overflow"@))
        } else if expired_at(
            pre.allowance_expiry(self.token_id, self.from_key(), self.spender_key()),
            self.now,
        ) {
            Some(generic_fault(403, "Allowance expired"@))
        } else if self.current_allowance(pre) < self.total(pre) {
            Some(Fault::InsufficientFunds { balance: self.current_allowance(pre) })
        } else if balance < self.total(pre) {
            Some(Fault::InsufficientFunds { balance })
        } else {
            None
        }
    }

    /// What stands in the way of committing the transfer: a balance, the supply
    /// or the transaction counter that cannot take it.
    pub open spec fn capacity_fault(self, pre: LedgerView) -> Option<Fault> {
        if pre.receiver_overflows(
            self.token_id,
            self.from_key(),
            self.to_key(),
            self.amount,
            self.fee_amount(pre),
        ) {
            Some(generic_fault(500, "Recipient balance overflow"@))
        } else if pre.fee_receiver_overflows(
            self.token_id,
            self.from_key(),
            self.to_key(),
            self.fee_key(pre),
            self.amount,
            self.fee_amount(pre),
        ) {
            Some(generic_fault(500, "Fee recipient balance overflow"@))
        } else if pre.tx_count() == u64::MAX {
            Some(counter_overflow())
        } else {
            None
        }
    }

    /// Why the transfer is refused, if it is: the first check that fails, in
    /// the order of the pipeline.
    pub open spec fn fault(self, pre: LedgerView) -> Option<Fault> {
        if self.precondition_fault(pre).is_some() {
            self.precondition_fault(pre)
        } else if pre.duplicate_of(self.fingerprint()).is_some() {
            Some(Fault::Duplicate { duplicate_of: pre.duplicate_of(self.fingerprint()).unwrap() })
        } else {
            self.capacity_fault(pre)
        }
    }

    /// The ledger after the transfer: the payment made, the allowance
    /// lowered by amount and fee, and the transaction logged. The expiry of
    /// the allowance stays as it is.
    pub open spec fn effect(self, pre: LedgerView) -> LedgerView {
        self.paid(pre).with_allowance(
            self.token_id,
            self.from_key(),
            self.spender_key(),
            (self.current_allowance(pre) - self.total(pre)) as u128,
        ).logged(self.record(pre), self.memo, self.fingerprint())
    }
}

/// Validates the inputs of a transfer by a spender.
fn check_transfer_from_input(
    token_id: &TokenId,
    spender: &Account,
    from: &Account,
    to: &Account,
    amount: u128,
    memo: Option<&[u8]>,
) -> (r: Result<(), String>)
    ensures
        ({
            let call = TransferFromCall {
                token_id: token_id@,
                spender: spender@,
                from: from@,
                to: to@,
                amount,
                fee: None,
                memo: memo_bytes(memo),
                created_at_time: None,
                now: 0,
            };
            match r {
                Ok(_) => call.input_fault().is_none(),
                Err(msg) => call.input_fault() == Some(msg@),
            }
        }),
{
    match validate_token_id(token_id) {
        Err(e) => {
            return Err(e.to_text());
        },
        Ok(_) => {},
    }
    match validate_account(spender) {
        Err(e) => {
            return Err(e.to_text());
        },
        Ok(_) => {},
    }
    match validate_account(from) {
        Err(e) => {
            return Err(e.to_text());
        },
        Ok(_) => {},
    }
    match validate_account(to) {
        Err(e) => {
            return Err(e.to_text());
        },
        Ok(_) => {},
    }
    if amount == 0 {
        return Err(String::from_str("Amount must be greater than 0"));
    }
    match validate_amount(amount, false) {
        Err(e) => {
            return Err(e.to_text());
        },
        Ok(_) => {},
    }
    match memo {
        Some(m) => match validate_memo(m) {
            Err(e) => {
                return Err(e.to_text());
            },
            Ok(_) => {},
        },
        None => {},
    }
    Ok(())
}

/// Transfers tokens from `from` to `to` on behalf of `spender`, which is the
/// caller, out of the allowance that `from` gave it.
pub fn transfer_from_internal(
    ledger: &mut Ledger,
    now: u64,
    token_id: TokenId,
    spender: Account,
    from: Account,
    to: Account,
    amount: u128,
    fee: Option<u128>,
    memo: Option<&[u8]>,
    created_at_time: Option<u64>,
) -> (r: Result<u64, TransferError>)
    ensures
        ({
            let call = TransferFromCall {
                token_id: token_id@,
                spender: spender@,
                from: from@,
                to: to@,
                amount,
                fee,
                memo: memo_bytes(memo),
                created_at_time,
                now,
            };
            &&& settled(
                old(ledger)@,
                final(ledger)@,
                transfer_outcome(r),
                call.fault(old(ledger)@),
                call.effect(old(ledger)@),
            )
            &&& r is Ok ==> call.record(old(ledger)@).wf()
        }),
{
    let ghost pre = ledger@;
    let ghost call = TransferFromCall {
        token_id: token_id@,
        spender: spender@,
        from: from@,
        to: to@,
        amount,
        fee,
        memo: memo_bytes(memo),
        created_at_time,
        now,
    };
    match check_transfer_from_input(&token_id, &spender, &from, &to, amount, memo) {
        Err(message) => {
            return Err(TransferError::GenericError { error_code: 400, message });
        },
        Ok(_) => {},
    }
    let metadata = match state::get_token_metadata(ledger, token_id) {
        Some(m) => m,
        None => {
            return Err(
                TransferError::generic(404, "Token not found"),
            );
        },
    };
    let expected_fee = metadata.fee;
    let fee_amount = match fee {
        Some(provided_fee) => {
            if provided_fee != expected_fee {
                return Err(TransferError::BadFee { expected_fee });
            }
            provided_fee
        },
        None => expected_fee,
    };
    if created_in_future(created_at_time, now) {
        return Err(TransferError::CreatedInFuture { ledger_time: now });
    }
    if created_too_long_ago(created_at_time, now) {
        return Err(TransferError::TooOld);
    }
    let timestamp = match created_at_time {
        Some(t) => t,
        None => now,
    };
    let spender_key = spender.to_key();
    let from_key = from.to_key();
    let to_key = to.to_key();
    let fee_recipient_key = metadata.fee_recipient.to_key();
    if amount > u128::MAX - fee_amount {
        return Err(
            TransferError::generic(500, "Amount + fee overflow"),
        );
    }
    let total_amount = amount + fee_amount;
    let expiry = state::get_allowance_expiry(ledger, token_id, from_key, spender_key);
    if state::is_allowance_expired(expiry, now) {
        return Err(
            TransferError::generic(403, "Allowance expired"),
        );
    }
    let current_allowance = state::get_allowance(ledger, token_id, from_key, spender_key);
    if current_allowance < total_amount {
        return Err(TransferError::InsufficientFunds { balance: current_allowance });
    }
    let from_balance = state::get_balance(ledger, token_id, from_key);
    if from_balance < total_amount {
        return Err(TransferError::InsufficientFunds { balance: from_balance });
    }
    let dedup_key = state::compute_dedup_key(spender.owner.as_slice(), token_id, timestamp, memo);
    match state::check_duplicate(ledger, dedup_key) {
        Some(duplicate_of) => {
            return Err(TransferError::Duplicate { duplicate_of });
        },
        None => {},
    }
    match check_movement(ledger, token_id, from_key, to_key, fee_recipient_key, amount, fee_amount) {
        Some(Overflow::Receiver) => {
            return Err(
                TransferError::generic(500, "Recipient balance overflow"),
            );
        },
        Some(Overflow::FeeReceiver) => {
            return Err(
                TransferError::generic(500, "Fee recipient balance overflow"),
            );
        },
        None => {},
    }
    if state::get_global_tx_count(ledger) == u64::MAX {
        return Err(
            TransferError::generic(500, "Transaction count overflow"),
        );
    }
    let tx = StoredTxV1::new_transfer_from(
        token_id,
        from_key,
        to_key,
        spender_key,
        amount,
        fee_amount,
        timestamp,
        memo,
    );
    proof {
        crate::invariants::lemma_record_roundtrip(tx);
    }
    let tx_index = match state::log_transaction(ledger, tx, memo, dedup_key) {
        Some(index) => index,
        None => {
            return Err(
                TransferError::generic(500, "Failed to append transaction"),
            );
        },
    };
    proof {
        lemma_logged_then_moved(
            pre,
            call.record(pre),
            call.memo,
            call.fingerprint(),
            call.token_id,
            call.from_key(),
            call.to_key(),
            call.fee_key(pre),
            amount,
            fee_amount,
        );
    }
    apply_movement(ledger, token_id, from_key, to_key, fee_recipient_key, amount, fee_amount);
    state::set_allowance(ledger, token_id, from_key, spender_key, current_allowance - total_amount);
    proof {
        lemma_logged_then_allowance(
            call.paid(pre),
            call.record(pre),
            call.memo,
            call.fingerprint(),
            call.token_id,
            call.from_key(),
            call.spender_key(),
            (current_allowance - total_amount) as u128,
            0,
        );
    }
    Ok(tx_index)
}

/// The transfer that `caller` asks for as a spender with `args` at time `now`.
pub open spec fn transfer_from_call(
    caller: Seq<u8>,
    now: u64,
    args: Icrc151TransferFromArgs,
) -> TransferFromCall {
    TransferFromCall {
        token_id: args.token_id@,
        spender: AccountView { owner: caller, subaccount: optional_bytes(args.spender_subaccount) },
        from: args.from@,
        to: args.to@,
        amount: args.amount,
        fee: args.fee,
        memo: optional_bytes(args.memo),
        created_at_time: args.created_at_time,
        now,
    }
}

/// Transfers tokens from another account, out of what its owner has allowed
/// the caller to spend.
pub fn transfer_from(
    ledger: &mut Ledger,
    caller: &[u8],
    now: u64,
    args: Icrc151TransferFromArgs,
) -> (r: TransferResult)
    ensures
        settled(
            old(ledger)@,
            final(ledger)@,
            transfer_outcome(r),
            transfer_from_call(caller@, now, args).fault(old(ledger)@),
            transfer_from_call(caller@, now, args).effect(old(ledger)@),
        ),
{
    let spender_account = Account { owner: copy_bytes(caller), subaccount: args.spender_subaccount };
    let memo: Option<&[u8]> = match &args.memo {
        Some(m) => Some(m.as_slice()),
        None => None,
    };
    transfer_from_internal(
        ledger,
        now,
        args.token_id,
        spender_account,
        args.from,
        args.to,
        args.amount,
        args.fee,
        memo,
        args.created_at_time,
    )
}

} // verus!
