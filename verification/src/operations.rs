use vstd::prelude::*;
use vstd::string::*;
use crate::codec::{decimal, decimal_text, numbered, numbered_text};
use crate::model::{storable_principal, LedgerView};
use crate::state;
use crate::state::{bad_principal_text, byte_strings, dedup_key, listed_controllers, Ledger};
use crate::transaction::{
    burn_record, memo_bytes, mint_record, transfer_record, StoredTxV1, TxRecord,
};
use crate::types::{
    account_key, bytes_equal, copy_bytes, derive_token_id, hash_balance_key, token_id_of, Account,
    AccountKey, AccountView, StoredTokenMetadata, StoredTokenMetadataView, TokenId,
};
use crate::types::constants::{MAX_FUTURE_DRIFT, MAX_PAST_DRIFT};
use crate::validation::{
    account_fault, amount_fault, fault_text, first_of, optional_memo_fault, token_id_fault,
    transfer_params_fault, validate_account, validate_amount, validate_token_id,
    validate_transfer_params, ValidationError, ValidationFault,
};

verus! {

/// Why a write was refused, as the typed errors say it.
pub enum Fault {
    BadFee { expected_fee: u128 },
    BadBurn { min_burn_amount: u128 },
    InsufficientFunds { balance: u128 },
    AllowanceChanged { current_allowance: u128 },
    Expired { ledger_time: u64 },
    TooOld,
    CreatedInFuture { ledger_time: u64 },
    Duplicate { duplicate_of: u64 },
    TemporarilyUnavailable,
    GenericError { error_code: u64, message: Seq<char> },
}

/// Why a transfer was refused.
#[derive(Clone, Debug, PartialEq, Eq)]
pub enum TransferError {
    BadFee { expected_fee: u128 },
    BadBurn { min_burn_amount: u128 },
    InsufficientFunds { balance: u128 },
    TooOld,
    CreatedInFuture { ledger_time: u64 },
    Duplicate { duplicate_of: u64 },
    TemporarilyUnavailable,
    GenericError { error_code: u64, message: String },
}

impl View for TransferError {
    type V = Fault;

    open spec fn view(&self) -> Fault {
        match self {
            TransferError::BadFee { expected_fee } => Fault::BadFee { expected_fee: *expected_fee },
            TransferError::BadBurn { min_burn_amount } => Fault::BadBurn {
                min_burn_amount: *min_burn_amount,
            },
            TransferError::InsufficientFunds { balance } => Fault::InsufficientFunds {
                balance: *balance,
            },
            TransferError::TooOld => Fault::TooOld,
            TransferError::CreatedInFuture { ledger_time } => Fault::CreatedInFuture {
                ledger_time: *ledger_time,
            },
            TransferError::Duplicate { duplicate_of } => Fault::Duplicate {
                duplicate_of: *duplicate_of,
            },
            TransferError::TemporarilyUnavailable => Fault::TemporarilyUnavailable,
            TransferError::GenericError { error_code, message } => Fault::GenericError {
                error_code: *error_code,
                message: message@,
            },
        }
    }
}

impl From<ValidationError> for TransferError {
    /// The error for input that failed validation, with the validation
    /// error's text.
    fn from(err: ValidationError) -> (e: TransferError)
        ensures
            e@ == invalid_input(err@),
    {
        TransferError::GenericError { error_code: 400, message: err.to_text() }
    }
}

/// The conversion from a validation error builds a text, which no function of
/// the model can: what it returns is stated on `from` itself.
impl vstd::std_specs::convert::FromSpecImpl<ValidationError> for TransferError {
    open spec fn obeys_from_spec() -> bool {
        false
    }

    open spec fn from_spec(err: ValidationError) -> TransferError {
        arbitrary()
    }
}

impl TransferError {
    pub(crate) fn generic(error_code: u64, message: &str) -> (e: TransferError)
        ensures
            e@ == generic_fault(error_code, message@),
    {
        TransferError::GenericError { error_code, message: String::from_str(message) }
    }
}

/// The result of a transfer: the index of the new log record, or the error.
pub type TransferResult = Result<u64, TransferError>;

/// What a transfer result says: the transaction index, or the fault.
pub open spec fn transfer_outcome(r: TransferResult) -> Result<u64, Fault> {
    match r {
        Ok(index) => Ok(index),
        Err(e) => Err(e@),
    }
}

/// The arguments of a transfer.
#[derive(Clone, Debug)]
pub struct Icrc151TransferArgs {
    pub token_id: TokenId,
    pub from_subaccount: Option<Vec<u8>>,
    pub to: Account,
    pub amount: u128,
    pub fee: Option<u128>,
    pub memo: Option<Vec<u8>>,
    pub created_at_time: Option<u64>,
}

/// The fault with a code and a message.
pub open spec fn generic_fault(error_code: u64, message: Seq<char>) -> Fault {
    Fault::GenericError { error_code, message }
}

/// A request that fails validation is refused with code 400 and the text of
/// the validation error.
pub open spec fn invalid_input(f: ValidationFault) -> Fault {
    generic_fault(400, fault_text(f))
}

/// A request for a token that is not registered is refused with code 404.
pub open spec fn token_not_found() -> Fault {
    generic_fault(404, "Token not found"@)
}

/// What is returned where the log's memory cannot grow.
pub open spec fn log_failure() -> Fault {
    generic_fault(500, "Failed to append transaction"@)
}

/// What is returned where the global transaction counter cannot grow.
pub open spec fn counter_overflow() -> Fault {
    generic_fault(500, "Transaction count overflow"@)
}

/// The fee that is charged: the one the caller gave, else the token's.
pub open spec fn charged_fee(token_fee: u128, fee: Option<u128>) -> u128 {
    match fee {
        Some(f) => f,
        None => token_fee,
    }
}

/// A fee that the caller gave must be the token's fee.
pub open spec fn fee_fault(token_fee: u128, fee: Option<u128>) -> Option<Fault> {
    if fee.is_some() && fee.unwrap() != token_fee {
        Some(Fault::BadFee { expected_fee: token_fee })
    } else {
        None
    }
}

/// The time that a write is stamped with: the creation time that the caller
/// gave, else the ledger's time.
pub open spec fn stamp(created_at_time: Option<u64>, now: u64) -> u64 {
    match created_at_time {
        Some(t) => t,
        None => now,
    }
}

/// A creation time that the caller gave may lie at most 300 seconds after
/// the ledger's time and at most 600 seconds before it.
pub open spec fn time_fault(created_at_time: Option<u64>, now: u64) -> Option<Fault> {
    match created_at_time {
        Some(t) => if t > now + MAX_FUTURE_DRIFT {
            Some(Fault::CreatedInFuture { ledger_time: now })
        } else if t < now - MAX_PAST_DRIFT {
            Some(Fault::TooOld)
        } else {
            None
        },
        None => None,
    }
}

/// Whether a creation time lies too far after the ledger's time.
pub(crate) fn created_in_future(created_at_time: Option<u64>, now: u64) -> (r: bool)
    ensures
        r == (time_fault(created_at_time, now) == Some(Fault::CreatedInFuture { ledger_time: now })),
{
    match created_at_time {
        Some(t) => t > MAX_FUTURE_DRIFT && t - MAX_FUTURE_DRIFT > now,
        None => false,
    }
}

/// Whether a creation time lies too far before the ledger's time.
pub(crate) fn created_too_long_ago(created_at_time: Option<u64>, now: u64) -> (r: bool)
    ensures
        r == (time_fault(created_at_time, now) == Some(Fault::TooOld)),
{
    match created_at_time {
        Some(t) => !(t > MAX_FUTURE_DRIFT && t - MAX_FUTURE_DRIFT > now) && now > MAX_PAST_DRIFT
            && t < now - MAX_PAST_DRIFT,
        None => false,
    }
}

/// How a write ended, against what the rules say of it: a success returns
/// the index of the new log record and leaves the ledger as the effect says;
/// a refusal returns the fault and leaves the ledger as it was. Where the
/// rules find no fault, the write may still fail because the log's memory
/// cannot grow.
pub open spec fn settled(
    pre: LedgerView,
    post: LedgerView,
    outcome: Result<u64, Fault>,
    fault: Option<Fault>,
    effect: LedgerView,
) -> bool {
    match outcome {
        Ok(index) => fault.is_none() && index == pre.log.len() && post == effect,
        Err(e) => post == pre && (match fault {
            Some(f) => e == f,
            None => e == log_failure(),
        }),
    }
}

/// What is returned on the administrative paths where the log's memory
/// cannot grow.
pub open spec fn log_failure_text() -> Seq<char> {
    "Failed to append transaction"@
}

/// What an administrative result says: its value, or the error's text.
pub open spec fn text_outcome<T>(r: Result<T, String>) -> Result<T, Seq<char>> {
    match r {
        Ok(v) => Ok(v),
        Err(msg) => Err(msg@),
    }
}

/// How a write on an administrative path ended, against what the rules say
/// of it; as `settled`, with errors that are texts.
pub open spec fn settled_text(
    pre: LedgerView,
    post: LedgerView,
    outcome: Result<u64, Seq<char>>,
    fault: Option<Seq<char>>,
    effect: LedgerView,
) -> bool {
    match outcome {
        Ok(index) => fault.is_none() && index == pre.log.len() && post == effect,
        Err(e) => post == pre && (match fault {
            Some(f) => e == f,
            None => e == log_failure_text(),
        }),
    }
}

/// A transfer as the ledger sees it.
pub struct TransferCall {
    pub token_id: Seq<u8>,
    pub from: AccountView,
    pub to: AccountView,
    pub amount: u128,
    pub fee: Option<u128>,
    pub memo: Option<Seq<u8>>,
    pub created_at_time: Option<u64>,
    pub now: u64,
}

impl TransferCall {
    pub open spec fn fee_amount(self, pre: LedgerView) -> u128 {
        charged_fee(pre.tokens[self.token_id].fee, self.fee)
    }

    pub open spec fn total(self, pre: LedgerView) -> int {
        self.amount + self.fee_amount(pre)
    }

    pub open spec fn timestamp(self) -> u64 {
        stamp(self.created_at_time, self.now)
    }

    pub open spec fn from_key(self) -> Seq<u8> {
        account_key(self.from)
    }

    pub open spec fn to_key(self) -> Seq<u8> {
        account_key(self.to)
    }

    pub open spec fn fee_key(self, pre: LedgerView) -> Seq<u8> {
        account_key(pre.tokens[self.token_id].fee_recipient)
    }

    /// The fingerprint of the request: the caller is the sender's owner.
    pub open spec fn fingerprint(self) -> Seq<u8> {
        dedup_key(self.from.owner, self.token_id, self.timestamp(), self.memo)
    }

    /// The ledger after the payment.
    pub open spec fn paid(self, pre: LedgerView) -> LedgerView {
        pre.moved(
            self.token_id,
            self.from_key(),
            self.to_key(),
            self.fee_key(pre),
            self.amount,
            self.fee_amount(pre),
        )
    }

    pub open spec fn record(self, pre: LedgerView) -> TxRecord {
        transfer_record(
            self.token_id,
            self.from_key(),
            self.to_key(),
            self.amount,
            self.fee_amount(pre),
            self.timestamp(),
            self.memo,
        )
    }

    /// What is found of the transfer before it is looked up among the writes
    /// that were made: the first check that fails.
    pub open spec fn precondition_fault(self, pre: LedgerView) -> Option<Fault> {
        let input = first_of(
            token_id_fault(self.token_id),
            transfer_params_fault(self.from, self.to, self.amount, self.memo),
        );
        if input.is_some() {
            Some(invalid_input(input.unwrap()))
        } else if !pre.tokens.contains_key(self.token_id) {
            Some(token_not_found())
        } else if fee_fault(pre.tokens[self.token_id].fee, self.fee).is_some() {
            fee_fault(pre.tokens[self.token_id].fee, self.fee)
        } else if time_fault(self.created_at_time, self.now).is_some() {
            time_fault(self.created_at_time, self.now)
        } else if self.total(pre) > u128::MAX {
            Some(generic_fault(500, "Amount + fee overflow"@))
        } else if pre.balance(self.token_id, self.from_key()) < self.total(pre) {
            Some(Fault::InsufficientFunds { balance: pre.balance(self.token_id, self.from_key()) })
        } else {
            None
        }
    }

    /// What stands in the way of committing the transfer: a balance, the supply
    /// or the transaction counter that cannot take it.
    pub open spec fn capacity_fault(self, pre: LedgerView) -> Option<Fault> {
        if pre.receiver_overflows(
            self.token_id,
            self.from_key(),
            self.to_key(),
            self.amount,
            self.fee_amount(pre),
        ) {
            Some(generic_fault(500, "Recipient balance overflow"@))
        } else if pre.fee_receiver_overflows(
            self.token_id,
            self.from_key(),
            self.to_key(),
            self.fee_key(pre),
            self.amount,
            self.fee_amount(pre),
        ) {
            Some(generic_fault(500, "Fee recipient balance overflow"@))
        } else if pre.tx_count() == u64::MAX {
            Some(counter_overflow())
        } else {
            None
        }
    }

    /// Why the transfer is refused, if it is: the first check that fails, in
    /// the order of the pipeline.
    pub open spec fn fault(self, pre: LedgerView) -> Option<Fault> {
        if self.precondition_fault(pre).is_some() {
            self.precondition_fault(pre)
        } else if pre.duplicate_of(self.fingerprint()).is_some() {
            Some(Fault::Duplicate { duplicate_of: pre.duplicate_of(self.fingerprint()).unwrap() })
        } else {
            self.capacity_fault(pre)
        }
    }

    /// The ledger after the transfer: sender debited by amount and fee,
    /// receiver credited by the amount, fee recipient credited by the fee,
    /// and the transaction logged.
    pub open spec fn effect(self, pre: LedgerView) -> LedgerView {
        self.paid(pre).logged(self.record(pre), self.memo, self.fingerprint())
    }
}

/// The balance of `account` once the balance of `other` has been set to
/// `value`.
pub(crate) fn balance_after_set(
    ledger: &Ledger,
    token_id: TokenId,
    account: AccountKey,
    other: AccountKey,
    value: u128,
) -> (r: u128)
    ensures
        r == ledger@.with_balance(token_id@, other@, value).balance(token_id@, account@),
{
    let key = hash_balance_key(token_id, account);
    let other_key = hash_balance_key(token_id, other);
    if bytes_equal(key.as_slice(), other_key.as_slice()) {
        value
    } else {
        state::get_balance(ledger, token_id, account)
    }
}

/// The balance of `account` once the balance of `first` has been set to
/// `first_value` and then that of `second` to `second_value`.
pub(crate) fn balance_after_two_sets(
    ledger: &Ledger,
    token_id: TokenId,
    account: AccountKey,
    first: AccountKey,
    first_value: u128,
    second: AccountKey,
    second_value: u128,
) -> (r: u128)
    ensures
        r == ledger@.with_balance(token_id@, first@, first_value).with_balance(
            token_id@,
            second@,
            second_value,
        ).balance(token_id@, account@),
{
    let key = hash_balance_key(token_id, account);
    let second_key = hash_balance_key(token_id, second);
    if bytes_equal(key.as_slice(), second_key.as_slice()) {
        second_value
    } else {
        balance_after_set(ledger, token_id, account, first, first_value)
    }
}

/// Which balance cannot take what a payment would add to it.
pub enum Overflow {
    Receiver,
    FeeReceiver,
}

/// Looks ahead at a payment: whether the receiver's balance, or that of the
/// fee's recipient, would overflow. The ledger is not changed.
pub(crate) fn check_movement(
    ledger: &Ledger,
    token_id: TokenId,
    from_key: AccountKey,
    to_key: AccountKey,
    fee_key: AccountKey,
    amount: u128,
    fee: u128,
) -> (r: Option<Overflow>)
    requires
        amount + fee <= ledger@.balance(token_id@, from_key@),
    ensures
        match r {
            Some(Overflow::Receiver) => ledger@.receiver_overflows(
                token_id@,
                from_key@,
                to_key@,
                amount,
                fee,
            ),
            Some(Overflow::FeeReceiver) => !ledger@.receiver_overflows(
                token_id@,
                from_key@,
                to_key@,
                amount,
                fee,
            ) && ledger@.fee_receiver_overflows(
                token_id@,
                from_key@,
                to_key@,
                fee_key@,
                amount,
                fee,
            ),
            None => !ledger@.receiver_overflows(token_id@, from_key@, to_key@, amount, fee)
                && !ledger@.fee_receiver_overflows(
                token_id@,
                from_key@,
                to_key@,
                fee_key@,
                amount,
                fee,
            ),
        },
{
    let from_balance = state::get_balance(ledger, token_id, from_key);
    let new_from_balance = from_balance - (amount + fee);
    let to_balance = balance_after_set(ledger, token_id, to_key, from_key, new_from_balance);
    if to_balance > u128::MAX - amount {
        return Some(Overflow::Receiver);
    }
    let new_to_balance = to_balance + amount;
    let fee_balance = balance_after_two_sets(
        ledger,
        token_id,
        fee_key,
        from_key,
        new_from_balance,
        to_key,
        new_to_balance,
    );
    if fee > 0 && fee_balance > u128::MAX - fee {
        return Some(Overflow::FeeReceiver);
    }
    None
}

/// Makes a payment: debits the sender by amount and fee, credits the
/// receiver by the amount and, where the fee is not zero, the fee's recipient
/// by the fee.
pub(crate) fn apply_movement(
    ledger: &mut Ledger,
    token_id: TokenId,
    from_key: AccountKey,
    to_key: AccountKey,
    fee_key: AccountKey,
    amount: u128,
    fee: u128,
)
    requires
        amount + fee <= old(ledger)@.balance(token_id@, from_key@),
        !old(ledger)@.receiver_overflows(token_id@, from_key@, to_key@, amount, fee),
        !old(ledger)@.fee_receiver_overflows(token_id@, from_key@, to_key@, fee_key@, amount, fee),
    ensures
        final(ledger)@ == old(ledger)@.moved(token_id@, from_key@, to_key@, fee_key@, amount, fee),
{
    let from_balance = state::get_balance(ledger, token_id, from_key);
    state::set_balance(ledger, token_id, from_key, from_balance - (amount + fee));
    let to_balance = state::get_balance(ledger, token_id, to_key);
    state::set_balance(ledger, token_id, to_key, to_balance + amount);
    if fee > 0 {
        let fee_balance = state::get_balance(ledger, token_id, fee_key);
        state::set_balance(ledger, token_id, fee_key, fee_balance + fee);
    }
}

/// Logging a transaction and making a payment do not touch the same parts
/// of the ledger: they can be done in either order.
pub proof fn lemma_logged_then_moved(
    pre: LedgerView,
    record: TxRecord,
    memo: Option<Seq<u8>>,
    dedup: Seq<u8>,
    token_id: Seq<u8>,
    from: Seq<u8>,
    to: Seq<u8>,
    fee_to: Seq<u8>,
    amount: u128,
    fee: u128,
)
    ensures
        pre.logged(record, memo, dedup).moved(token_id, from, to, fee_to, amount, fee)
            == pre.moved(token_id, from, to, fee_to, amount, fee).logged(record, memo, dedup),
        pre.logged(record, memo, dedup).balance(token_id, from) == pre.balance(token_id, from),
        pre.logged(record, memo, dedup).receiver_overflows(token_id, from, to, amount, fee)
            == pre.receiver_overflows(token_id, from, to, amount, fee),
        pre.logged(record, memo, dedup).fee_receiver_overflows(
            token_id,
            from,
            to,
            fee_to,
            amount,
            fee,
        ) == pre.fee_receiver_overflows(token_id, from, to, fee_to, amount, fee),
{
    let total = (amount + fee) as u128;
    lemma_logged_then_balance(
        pre,
        record,
        memo,
        dedup,
        token_id,
        from,
        (pre.balance(token_id, from) - total) as u128,
    );
    let debited = pre.debited(token_id, from, total);
    lemma_logged_then_balance(
        debited,
        record,
        memo,
        dedup,
        token_id,
        to,
        (debited.balance(token_id, to) + amount) as u128,
    );
    let credited = debited.credited(token_id, to, amount);
    lemma_logged_then_balance(
        credited,
        record,
        memo,
        dedup,
        token_id,
        fee_to,
        (credited.balance(token_id, fee_to) + fee) as u128,
    );
}

/// Logging a transaction and setting a balance do not touch the same parts
/// of the ledger: they can be done in either order.
pub proof fn lemma_logged_then_balance(
    pre: LedgerView,
    record: TxRecord,
    memo: Option<Seq<u8>>,
    dedup: Seq<u8>,
    token_id: Seq<u8>,
    account: Seq<u8>,
    value: u128,
)
    ensures
        pre.logged(record, memo, dedup).with_balance(token_id, account, value) == pre.with_balance(
            token_id,
            account,
            value,
        ).logged(record, memo, dedup),
{
}

/// Transfers tokens from `from`, which is the caller's account, to `to`.
pub fn transfer_internal(
    ledger: &mut Ledger,
    now: u64,
    token_id: TokenId,
    from: Account,
    to: Account,
    amount: u128,
    fee: Option<u128>,
    memo: Option<&[u8]>,
    created_at_time: Option<u64>,
) -> (r: Result<u64, TransferError>)
    ensures
        ({
            let call = TransferCall {
                token_id: token_id@,
                from: from@,
                to: to@,
                amount,
                fee,
                memo: memo_bytes(memo),
                created_at_time,
                now,
            };
            &&& settled(
                old(ledger)@,
                final(ledger)@,
                transfer_outcome(r),
                call.fault(old(ledger)@),
                call.effect(old(ledger)@),
            )
            &&& r is Ok ==> call.record(old(ledger)@).wf()
        }),
{
    let ghost pre = ledger@;
    let ghost call = TransferCall {
        token_id: token_id@,
        from: from@,
        to: to@,
        amount,
        fee,
        memo: memo_bytes(memo),
        created_at_time,
        now,
    };
    match validate_token_id(&token_id) {
        Err(e) => {
            return Err(TransferError::from(e));
        },
        Ok(_) => {},
    }
    match validate_transfer_params(&from, &to, amount, fee, memo) {
        Err(e) => {
            return Err(TransferError::from(e));
        },
        Ok(_) => {},
    }
    let metadata = match state::get_token_metadata(ledger, token_id) {
        Some(m) => m,
        None => {
            return Err(TransferError::generic(404, "Token not found"));
        },
    };
    let expected_fee = metadata.fee;
    let fee_amount = match fee {
        Some(provided_fee) => {
            if provided_fee != expected_fee {
                return Err(TransferError::BadFee { expected_fee });
            }
            provided_fee
        },
        None => expected_fee,
    };
    if created_in_future(created_at_time, now) {
        return Err(TransferError::CreatedInFuture { ledger_time: now });
    }
    if created_too_long_ago(created_at_time, now) {
        return Err(TransferError::TooOld);
    }
    let timestamp = match created_at_time {
        Some(t) => t,
        None => now,
    };
    let from_key = from.to_key();
    let to_key = to.to_key();
    let fee_recipient_key = metadata.fee_recipient.to_key();
    if amount > u128::MAX - fee_amount {
        return Err(TransferError::generic(500, "Amount + fee overflow"));
    }
    let total_amount = amount + fee_amount;
    let from_balance = state::get_balance(ledger, token_id, from_key);
    if from_balance < total_amount {
        return Err(TransferError::InsufficientFunds { balance: from_balance });
    }
    let dedup_key = state::compute_dedup_key(from.owner.as_slice(), token_id, timestamp, memo);
    match state::check_duplicate(ledger, dedup_key) {
        Some(duplicate_of) => {
            return Err(TransferError::Duplicate { duplicate_of });
        },
        None => {},
    }
    match check_movement(ledger, token_id, from_key, to_key, fee_recipient_key, amount, fee_amount) {
        Some(Overflow::Receiver) => {
            return Err(TransferError::generic(500, "Recipient balance overflow"));
        },
        Some(Overflow::FeeReceiver) => {
            return Err(TransferError::generic(500, "Fee recipient balance overflow"));
        },
        None => {},
    }
    if state::get_global_tx_count(ledger) == u64::MAX {
        return Err(TransferError::generic(500, "Transaction count overflow"));
    }
    let tx = StoredTxV1::new_transfer(
        token_id,
        from_key,
        to_key,
        amount,
        fee_amount,
        timestamp,
        memo,
    );
    proof {
        crate::invariants::lemma_record_roundtrip(tx);
    }
    let tx_index = match state::log_transaction(ledger, tx, memo, dedup_key) {
        Some(index) => index,
        None => {
            return Err(TransferError::generic(500, "Failed to append transaction"));
        },
    };
    proof {
        lemma_logged_then_moved(
            pre,
            call.record(pre),
            call.memo,
            call.fingerprint(),
            call.token_id,
            call.from_key(),
            call.to_key(),
            call.fee_key(pre),
            amount,
            fee_amount,
        );
    }
    apply_movement(ledger, token_id, from_key, to_key, fee_recipient_key, amount, fee_amount);
    Ok(tx_index)
}

/// The bytes of an optional owned memo or subaccount.
pub open spec fn optional_bytes(v: Option<Vec<u8>>) -> Option<Seq<u8>> {
    match v {
        Some(b) => Some(b@),
        None => None,
    }
}

/// The transfer that `caller` asks for with `args` at time `now`.
pub open spec fn transfer_call(caller: Seq<u8>, now: u64, args: Icrc151TransferArgs) -> TransferCall {
    TransferCall {
        token_id: args.token_id@,
        from: AccountView { owner: caller, subaccount: optional_bytes(args.from_subaccount) },
        to: args.to@,
        amount: args.amount,
        fee: args.fee,
        memo: optional_bytes(args.memo),
        created_at_time: args.created_at_time,
        now,
    }
}

/// Transfers tokens from the caller's account.
pub fn transfer(ledger: &mut Ledger, caller: &[u8], now: u64, args: Icrc151TransferArgs) -> (r:
    TransferResult)
    ensures
        settled(
            old(ledger)@,
            final(ledger)@,
            transfer_outcome(r),
            transfer_call(caller@, now, args).fault(old(ledger)@),
            transfer_call(caller@, now, args).effect(old(ledger)@),
        ),
{
    let from_account = Account { owner: copy_bytes(caller), subaccount: args.from_subaccount };
    let memo: Option<&[u8]> = match &args.memo {
        Some(m) => Some(m.as_slice()),
        None => None,
    };
    transfer_internal(
        ledger,
        now,
        args.token_id,
        from_account,
        args.to,
        args.amount,
        args.fee,
        memo,
        args.created_at_time,
    )
}

/// What a creation time that is refused is called on the administrative
/// paths.
pub open spec fn time_fault_text(created_at_time: Option<u64>, now: u64) -> Option<Seq<char>> {
    match time_fault(created_at_time, now) {
        Some(Fault::CreatedInFuture { .. }) => Some("Transaction created in the future"@),
        Some(_) => Some("Transaction too old"@),
        None => None,
    }
}

/// What is found of the inputs of a mint or a burn: the first of a fault of
/// the token id, of the account, of the amount, of the memo.
pub open spec fn supply_input_fault(
    token_id: Seq<u8>,
    account: AccountView,
    amount: u128,
    memo: Option<Seq<u8>>,
) -> Option<Seq<char>> {
    if token_id_fault(token_id).is_some() {
        Some(fault_text(token_id_fault(token_id).unwrap()))
    } else if account_fault(account).is_some() {
        Some(fault_text(account_fault(account).unwrap()))
    } else if amount == 0 {
        Some("Amount must be greater than 0"@)
    } else if amount_fault(amount, false).is_some() {
        Some(fault_text(amount_fault(amount, false).unwrap()))
    } else if optional_memo_fault(memo).is_some() {
        Some(fault_text(optional_memo_fault(memo).unwrap()))
    } else {
        None
    }
}

/// Validates the inputs of a mint or a burn.
fn check_supply_input(token_id: &TokenId, account: &Account, amount: u128, memo: Option<&[u8]>) -> (r:
    Result<(), String>)
    ensures
        match r {
            Ok(_) => supply_input_fault(token_id@, account@, amount, memo_bytes(memo)).is_none(),
            Err(msg) => supply_input_fault(token_id@, account@, amount, memo_bytes(memo)) == Some(
                msg@,
            ),
        },
{
    match validate_token_id(token_id) {
        Err(e) => {
            return Err(e.to_text());
        },
        Ok(_) => {},
    }
    match validate_account(account) {
        Err(e) => {
            return Err(e.to_text());
        },
        Ok(_) => {},
    }
    if amount == 0 {
        return Err(String::from_str("Amount must be greater than 0"));
    }
    match validate_amount(amount, false) {
        Err(e) => {
            return Err(e.to_text());
        },
        Ok(_) => {},
    }
    match memo {
        Some(m) => match crate::validation::validate_memo(m) {
            Err(e) => {
                return Err(e.to_text());
            },
            Ok(_) => {},
        },
        None => {},
    }
    Ok(())
}

/// A mint as the ledger sees it.
pub struct MintCall {
    pub caller: Seq<u8>,
    pub token_id: Seq<u8>,
    pub to: AccountView,
    pub amount: u128,
    pub memo: Option<Seq<u8>>,
    pub created_at_time: Option<u64>,
    pub now: u64,
}

impl MintCall {
    pub open spec fn timestamp(self) -> u64 {
        stamp(self.created_at_time, self.now)
    }

    pub open spec fn to_key(self) -> Seq<u8> {
        account_key(self.to)
    }

    pub open spec fn fingerprint(self) -> Seq<u8> {
        dedup_key(self.caller, self.token_id, self.timestamp(), self.memo)
    }

    pub open spec fn record(self) -> TxRecord {
        mint_record(self.token_id, self.to_key(), self.amount, self.timestamp(), self.memo)
    }

    /// What is found of the mint before it is looked up among the writes
    /// that were made: the first check that fails.
    pub open spec fn precondition_fault(self, pre: LedgerView) -> Option<Seq<char>> {
        let input = supply_input_fault(self.token_id, self.to, self.amount, self.memo);
        if input.is_some() {
            input
        } else if !pre.tokens.contains_key(self.token_id) {
            Some("Token not found"@)
        } else if time_fault(self.created_at_time, self.now).is_some() {
            time_fault_text(self.created_at_time, self.now)
        } else {
            None
        }
    }

    /// What stands in the way of committing the mint: a balance, the supply
    /// or the transaction counter that cannot take it.
    pub open spec fn capacity_fault(self, pre: LedgerView) -> Option<Seq<char>> {
        if !pre.can_credit(self.token_id, self.to_key(), self.amount) {
            Some("Balance overflow"@)
        } else if pre.total_supply(self.token_id) + self.amount > u128::MAX {
            Some("Total supply overflow"@)
        } else if pre.tx_count() == u64::MAX {
            Some("Transaction count overflow"@)
        } else {
            None
        }
    }

    /// Why the mint is refused, if it is: the first check that fails.
    pub open spec fn fault(self, pre: LedgerView) -> Option<Seq<char>> {
        if self.precondition_fault(pre).is_some() {
            self.precondition_fault(pre)
        } else if pre.duplicate_of(self.fingerprint()).is_some() {
            Some(
                numbered_text(
                    "Duplicate mint transaction, original tx_index: "@,
                    pre.duplicate_of(self.fingerprint()).unwrap() as u128,
                    ""@,
                ),
            )
        } else {
            self.capacity_fault(pre)
        }
    }

    /// The ledger after the mint: the account credited, the total supply
    /// raised by the amount, and the transaction logged.
    pub open spec fn effect(self, pre: LedgerView) -> LedgerView {
        pre.credited(self.token_id, self.to_key(), self.amount).with_supply(
            self.token_id,
            (pre.total_supply(self.token_id) + self.amount) as u128,
        ).logged(self.record(), self.memo, self.fingerprint())
    }
}

/// Logging a transaction and writing a token's supply do not touch the same
/// parts of the ledger: they can be done in either order.
pub proof fn lemma_logged_then_supply(
    pre: LedgerView,
    record: TxRecord,
    memo: Option<Seq<u8>>,
    dedup: Seq<u8>,
    token_id: Seq<u8>,
    supply: u128,
)
    ensures
        pre.logged(record, memo, dedup).with_supply(token_id, supply) == pre.with_supply(
            token_id,
            supply,
        ).logged(record, memo, dedup),
{
}

/// Mints tokens to an account. `caller` is the principal that asked for it.
pub fn mint_internal(
    ledger: &mut Ledger,
    caller: &[u8],
    now: u64,
    token_id: TokenId,
    to: Account,
    amount: u128,
    memo: Option<&[u8]>,
    created_at_time: Option<u64>,
) -> (r: Result<u64, String>)
    ensures
        ({
            let call = MintCall {
                caller: caller@,
                token_id: token_id@,
                to: to@,
                amount,
                memo: memo_bytes(memo),
                created_at_time,
                now,
            };
            &&& settled_text(
                old(ledger)@,
                final(ledger)@,
                text_outcome(r),
                call.fault(old(ledger)@),
                call.effect(old(ledger)@),
            )
            &&& r is Ok ==> call.record().wf()
        }),
{
    let ghost pre = ledger@;
    let ghost call = MintCall {
        caller: caller@,
        token_id: token_id@,
        to: to@,
        amount,
        memo: memo_bytes(memo),
        created_at_time,
        now,
    };
    match check_supply_input(&token_id, &to, amount, memo) {
        Err(msg) => {
            return Err(msg);
        },
        Ok(_) => {},
    }
    let metadata = match state::get_token_metadata(ledger, token_id) {
        Some(m) => m,
        None => {
            return Err(String::from_str("Token not found"));
        },
    };
    if created_in_future(created_at_time, now) {
        return Err(String::from_str("Transaction created in the future"));
    }
    if created_too_long_ago(created_at_time, now) {
        return Err(String::from_str("Transaction too old"));
    }
    let timestamp = match created_at_time {
        Some(t) => t,
        None => now,
    };
    let to_key = to.to_key();
    let dedup_key = state::compute_dedup_key(caller, token_id, timestamp, memo);
    match state::check_duplicate(ledger, dedup_key) {
        Some(duplicate_of) => {
            return Err(
                numbered("Duplicate mint transaction, original tx_index: ", duplicate_of as u128, ""),
            );
        },
        None => {},
    }
    let current_balance = state::get_balance(ledger, token_id, to_key);
    if current_balance > u128::MAX - amount {
        return Err(String::from_str("Balance overflow"));
    }
    if metadata.total_supply > u128::MAX - amount {
        return Err(String::from_str("Total supply overflow"));
    }
    if state::get_global_tx_count(ledger) == u64::MAX {
        return Err(String::from_str("Transaction count overflow"));
    }
    let tx = StoredTxV1::new_mint(token_id, to_key, amount, timestamp, memo);
    proof {
        crate::invariants::lemma_record_roundtrip(tx);
    }
    let tx_index = match state::log_transaction(ledger, tx, memo, dedup_key) {
        Some(index) => index,
        None => {
            return Err(String::from_str("Failed to append transaction"));
        },
    };
    state::set_balance(ledger, token_id, to_key, current_balance + amount);
    let _ = state::update_total_supply(ledger, token_id, metadata.total_supply + amount);
    proof {
        let record = call.record();
        let dk = call.fingerprint();
        let credited = pre.credited(call.token_id, call.to_key(), amount);
        lemma_logged_then_balance(
            pre,
            record,
            call.memo,
            dk,
            call.token_id,
            call.to_key(),
            (current_balance + amount) as u128,
        );
        lemma_logged_then_supply(
            credited,
            record,
            call.memo,
            dk,
            call.token_id,
            (metadata.total_supply + amount) as u128,
        );
    }
    Ok(tx_index)
}

/// Mints tokens to an account. Only a controller may do so.
pub fn mint_tokens(
    ledger: &mut Ledger,
    caller: &[u8],
    now: u64,
    token_id: TokenId,
    to: Account,
    amount: u128,
    memo: Option<Vec<u8>>,
) -> (r: Result<u64, String>)
    ensures
        ({
            let call = MintCall {
                caller: caller@,
                token_id: token_id@,
                to: to@,
                amount,
                memo: optional_bytes(memo),
                created_at_time: None,
                now,
            };
            &&& settled_text(
                old(ledger)@,
                final(ledger)@,
                text_outcome(r),
                if old(ledger)@.is_controller(caller@) {
                    call.fault(old(ledger)@)
                } else {
                    Some("Only controller can perform this operation"@)
                },
                call.effect(old(ledger)@),
            )
            &&& r is Ok ==> call.record().wf()
        }),
{
    match state::require_controller(ledger, caller) {
        Err(msg) => {
            return Err(msg);
        },
        Ok(_) => {},
    }
    let memo_ref: Option<&[u8]> = match &memo {
        Some(m) => Some(m.as_slice()),
        None => None,
    };
    mint_internal(ledger, caller, now, token_id, to, amount, memo_ref, None)
}

/// A burn as the ledger sees it.
pub struct BurnCall {
    pub caller: Seq<u8>,
    pub token_id: Seq<u8>,
    pub from: AccountView,
    pub amount: u128,
    pub memo: Option<Seq<u8>>,
    pub created_at_time: Option<u64>,
    pub now: u64,
}

impl BurnCall {
    pub open spec fn timestamp(self) -> u64 {
        stamp(self.created_at_time, self.now)
    }

    pub open spec fn from_key(self) -> Seq<u8> {
        account_key(self.from)
    }

    pub open spec fn fingerprint(self) -> Seq<u8> {
        dedup_key(self.caller, self.token_id, self.timestamp(), self.memo)
    }

    pub open spec fn record(self) -> TxRecord {
        burn_record(self.token_id, self.from_key(), self.amount, self.timestamp(), self.memo)
    }

    /// What is found of the burn before it is looked up among the writes
    /// that were made: the first check that fails.
    pub open spec fn precondition_fault(self, pre: LedgerView) -> Option<Seq<char>> {
        let input = supply_input_fault(self.token_id, self.from, self.amount, self.memo);
        let balance = pre.balance(self.token_id, self.from_key());
        if input.is_some() {
            input
        } else if !pre.tokens.contains_key(self.token_id) {
            Some("Token not found"@)
        } else if time_fault(self.created_at_time, self.now).is_some() {
            time_fault_text(self.created_at_time, self.now)
        } else if balance < self.amount {
            Some(
                "Insufficient balance: "@ + decimal_text(balance) + " < "@ + decimal_text(
                    self.amount,
                ),
            )
        } else {
            None
        }
    }

    /// What stands in the way of committing the burn: a balance, the supply
    /// or the transaction counter that cannot take it.
    pub open spec fn capacity_fault(self, pre: LedgerView) -> Option<Seq<char>> {
        if pre.total_supply(self.token_id) < self.amount {
            Some("Total supply underflow"@)
        } else if pre.tx_count() == u64::MAX {
            Some("Transaction count overflow"@)
        } else {
            None
        }
    }

    /// Why the burn is refused, if it is: the first check that fails.
    pub open spec fn fault(self, pre: LedgerView) -> Option<Seq<char>> {
        if self.precondition_fault(pre).is_some() {
            self.precondition_fault(pre)
        } else if pre.duplicate_of(self.fingerprint()).is_some() {
            Some(
                numbered_text(
                    "Duplicate burn transaction, original tx_index: "@,
                    pre.duplicate_of(self.fingerprint()).unwrap() as u128,
                    ""@,
                ),
            )
        } else {
            self.capacity_fault(pre)
        }
    }

    /// The ledger after the burn: the account debited, the total supply
    /// lowered by the amount, and the transaction logged. No fee is charged.
    pub open spec fn effect(self, pre: LedgerView) -> LedgerView {
        pre.debited(self.token_id, self.from_key(), self.amount).with_supply(
            self.token_id,
            (pre.total_supply(self.token_id) - self.amount) as u128,
        ).logged(self.record(), self.memo, self.fingerprint())
    }
}

/// Burns tokens of an account. `caller` is the principal that asked for it.
pub fn burn_internal(
    ledger: &mut Ledger,
    caller: &[u8],
    now: u64,
    token_id: TokenId,
    from: Account,
    amount: u128,
    memo: Option<&[u8]>,
    created_at_time: Option<u64>,
) -> (r: Result<u64, String>)
    ensures
        ({
            let call = BurnCall {
                caller: caller@,
                token_id: token_id@,
                from: from@,
                amount,
                memo: memo_bytes(memo),
                created_at_time,
                now,
            };
            &&& settled_text(
                old(ledger)@,
                final(ledger)@,
                text_outcome(r),
                call.fault(old(ledger)@),
                call.effect(old(ledger)@),
            )
            &&& r is Ok ==> call.record().wf()
        }),
{
    let ghost pre = ledger@;
    let ghost call = BurnCall {
        caller: caller@,
        token_id: token_id@,
        from: from@,
        amount,
        memo: memo_bytes(memo),
        created_at_time,
        now,
    };
    match check_supply_input(&token_id, &from, amount, memo) {
        Err(msg) => {
            return Err(msg);
        },
        Ok(_) => {},
    }
    let metadata = match state::get_token_metadata(ledger, token_id) {
        Some(m) => m,
        None => {
            return Err(String::from_str("Token not found"));
        },
    };
    if created_in_future(created_at_time, now) {
        return Err(String::from_str("Transaction created in the future"));
    }
    if created_too_long_ago(created_at_time, now) {
        return Err(String::from_str("Transaction too old"));
    }
    let timestamp = match created_at_time {
        Some(t) => t,
        None => now,
    };
    let from_key = from.to_key();
    let current_balance = state::get_balance(ledger, token_id, from_key);
    if current_balance < amount {
        let msg = String::from_str("Insufficient balance: ").concat(
            decimal(current_balance).as_str(),
        ).concat(" < ").concat(decimal(amount).as_str());
        return Err(msg);
    }
    let dedup_key = state::compute_dedup_key(caller, token_id, timestamp, memo);
    match state::check_duplicate(ledger, dedup_key) {
        Some(duplicate_of) => {
            return Err(
                numbered("Duplicate burn transaction, original tx_index: ", duplicate_of as u128, ""),
            );
        },
        None => {},
    }
    if metadata.total_supply < amount {
        return Err(String::from_str("Total supply underflow"));
    }
    if state::get_global_tx_count(ledger) == u64::MAX {
        return Err(String::from_str("Transaction count overflow"));
    }
    let tx = StoredTxV1::new_burn(token_id, from_key, amount, timestamp, memo);
    proof {
        crate::invariants::lemma_record_roundtrip(tx);
    }
    let tx_index = match state::log_transaction(ledger, tx, memo, dedup_key) {
        Some(index) => index,
        None => {
            return Err(String::from_str("Failed to append transaction"));
        },
    };
    state::set_balance(ledger, token_id, from_key, current_balance - amount);
    let _ = state::update_total_supply(ledger, token_id, metadata.total_supply - amount);
    proof {
        let record = call.record();
        let dk = call.fingerprint();
        let debited = pre.debited(call.token_id, call.from_key(), amount);
        lemma_logged_then_balance(
            pre,
            record,
            call.memo,
            dk,
            call.token_id,
            call.from_key(),
            (current_balance - amount) as u128,
        );
        lemma_logged_then_supply(
            debited,
            record,
            call.memo,
            dk,
            call.token_id,
            (metadata.total_supply - amount) as u128,
        );
    }
    Ok(tx_index)
}

/// Burns tokens of the caller's main account.
pub fn burn_tokens(
    ledger: &mut Ledger,
    caller: &[u8],
    now: u64,
    token_id: TokenId,
    amount: u128,
    memo: Option<Vec<u8>>,
) -> (r: Result<u64, String>)
    ensures
        ({
            let call = BurnCall {
                caller: caller@,
                token_id: token_id@,
                from: AccountView { owner: caller@, subaccount: None },
                amount,
                memo: optional_bytes(memo),
                created_at_time: None,
                now,
            };
            &&& settled_text(
                old(ledger)@,
                final(ledger)@,
                text_outcome(r),
                call.fault(old(ledger)@),
                call.effect(old(ledger)@),
            )
            &&& r is Ok ==> call.record().wf()
        }),
{
    let from_account = Account { owner: copy_bytes(caller), subaccount: None };
    let memo_ref: Option<&[u8]> = match &memo {
        Some(m) => Some(m.as_slice()),
        None => None,
    };
    burn_internal(ledger, caller, now, token_id, from_account, amount, memo_ref, None)
}

/// Burns tokens of any account. Only a controller may do so.
pub fn burn_tokens_from(
    ledger: &mut Ledger,
    caller: &[u8],
    now: u64,
    token_id: TokenId,
    from: Account,
    amount: u128,
    memo: Option<Vec<u8>>,
) -> (r: Result<u64, String>)
    ensures
        ({
            let call = BurnCall {
                caller: caller@,
                token_id: token_id@,
                from: from@,
                amount,
                memo: optional_bytes(memo),
                created_at_time: None,
                now,
            };
            &&& settled_text(
                old(ledger)@,
                final(ledger)@,
                text_outcome(r),
                if old(ledger)@.is_controller(caller@) {
                    call.fault(old(ledger)@)
                } else {
                    Some("Only controller can call this method"@)
                },
                call.effect(old(ledger)@),
            )
            &&& r is Ok ==> call.record().wf()
        }),
{
    match state::only_controller(ledger, caller) {
        Err(msg) => {
            return Err(msg);
        },
        Ok(_) => {},
    }
    let memo_ref: Option<&[u8]> = match &memo {
        Some(m) => Some(m.as_slice()),
        None => None,
    };
    burn_internal(ledger, caller, now, token_id, from, amount, memo_ref, None)
}

/// The fee of a token that is created without one.
pub const DEFAULT_FEE: u128 = 10_000;

/// A token's name has 1 to 255 characters.
pub open spec fn name_fault(name: Seq<char>) -> Option<Seq<char>> {
    if name.len() == 0 || name.len() > 255 {
        Some("Invalid token name length"@)
    } else {
        None
    }
}

/// A token's symbol has 1 to 32 characters.
pub open spec fn symbol_fault(symbol: Seq<char>) -> Option<Seq<char>> {
    if symbol.len() == 0 || symbol.len() > 32 {
        Some("Invalid token symbol length"@)
    } else {
        None
    }
}

/// Checks the length of a token's name.
pub fn validate_token_name(name: &str) -> (r: Result<(), String>)
    ensures
        match r {
            Ok(_) => name_fault(name@).is_none(),
            Err(msg) => name_fault(name@) == Some(msg@),
        },
{
    let n = name.unicode_len();
    if n == 0 || n > 255 {
        return Err(String::from_str("Invalid token name length"));
    }
    Ok(())
}

/// Checks the length of a token's symbol.
pub fn validate_token_symbol(symbol: &str) -> (r: Result<(), String>)
    ensures
        match r {
            Ok(_) => symbol_fault(symbol@).is_none(),
            Err(msg) => symbol_fault(symbol@) == Some(msg@),
        },
{
    let n = symbol.unicode_len();
    if n == 0 || n > 32 {
        return Err(String::from_str("Invalid token symbol length"));
    }
    Ok(())
}

/// The characters of an optional text.
pub open spec fn optional_text(v: Option<String>) -> Option<Seq<char>> {
    match v {
        Some(s) => Some(s@),
        None => None,
    }
}

/// The creation of a token as the ledger sees it.
pub struct CreateCall {
    pub caller: Seq<u8>,
    pub ledger_principal: Seq<u8>,
    pub now: u64,
    pub name: Seq<char>,
    pub symbol: Seq<char>,
    pub decimals: u8,
    pub initial_supply: Option<u128>,
    pub fee: Option<u128>,
    pub logo: Option<Seq<char>>,
    pub description: Option<Seq<char>>,
}

impl CreateCall {
    /// Why no token is created, if none is: the caller is no controller, a
    /// bound on name, symbol or decimals is broken, or no nonce is left.
    pub open spec fn refusal(self, pre: LedgerView) -> Option<Seq<char>> {
        if !pre.is_controller(self.caller) {
            Some("Only controller can perform this operation"@)
        } else if name_fault(self.name).is_some() {
            name_fault(self.name)
        } else if symbol_fault(self.symbol).is_some() {
            symbol_fault(self.symbol)
        } else if self.decimals > 18 {
            Some("Decimals cannot exceed 18"@)
        } else if pre.token_nonce() == u64::MAX {
            Some("Token nonce overflow"@)
        } else {
            None
        }
    }

    /// The id of the new token: derived from the ledger's principal and the
    /// next nonce.
    pub open spec fn token_id(self, pre: LedgerView) -> Seq<u8> {
        token_id_of(self.ledger_principal, pre.token_nonce())
    }

    /// The metadata of the new token. Fee recipient and token controller are
    /// the calling controller; the supply starts at zero.
    pub open spec fn metadata(self) -> StoredTokenMetadataView {
        StoredTokenMetadataView {
            name: self.name,
            symbol: self.symbol,
            decimals: self.decimals,
            total_supply: 0,
            fee: match self.fee {
                Some(f) => f,
                None => DEFAULT_FEE,
            },
            fee_recipient: AccountView { owner: self.caller, subaccount: None },
            logo: self.logo,
            description: self.description,
            created_at: self.now,
            controller: self.caller,
        }
    }

    /// The ledger with the nonce taken and the token registered.
    pub open spec fn registered(self, pre: LedgerView) -> LedgerView {
        pre.with_token_nonce((pre.token_nonce() + 1) as u64).with_token(
            self.token_id(pre),
            self.metadata(),
        )
    }

    /// Whether an initial supply is minted.
    pub open spec fn mints(self) -> bool {
        self.initial_supply.is_some() && self.initial_supply.unwrap() > 0
    }

    /// The mint of the initial supply, to the calling controller.
    pub open spec fn mint(self, pre: LedgerView) -> MintCall {
        MintCall {
            caller: self.caller,
            token_id: self.token_id(pre),
            to: AccountView { owner: self.caller, subaccount: None },
            amount: self.initial_supply.unwrap(),
            memo: None,
            created_at_time: None,
            now: self.now,
        }
    }
}

/// Creates a token. Only a controller may do so. The token is registered
/// first; where an initial supply is asked for, it is then minted to the
/// caller. Where that mint is refused, the error is returned and the token
/// stays registered with no supply.
pub fn create_token(
    ledger: &mut Ledger,
    caller: &[u8],
    ledger_principal: &[u8],
    now: u64,
    name: String,
    symbol: String,
    decimals: u8,
    initial_supply: Option<u128>,
    fee: Option<u128>,
    logo: Option<String>,
    description: Option<String>,
) -> (r: Result<TokenId, String>)
    ensures
        ({
            let pre = old(ledger)@;
            let call = CreateCall {
                caller: caller@,
                ledger_principal: ledger_principal@,
                now,
                name: name@,
                symbol: symbol@,
                decimals,
                initial_supply,
                fee,
                logo: optional_text(logo),
                description: optional_text(description),
            };
            let registered = call.registered(pre);
            match r {
                Ok(id) => call.refusal(pre).is_none() && id@ == call.token_id(pre) && (if call.mints() {
                    call.mint(pre).fault(registered).is_none() && final(ledger)@ == call.mint(
                        pre,
                    ).effect(registered)
                } else {
                    final(ledger)@ == registered
                }),
                Err(msg) => match call.refusal(pre) {
                    Some(m) => msg@ == m && final(ledger)@ == pre,
                    None => call.mints() && final(ledger)@ == registered && (match call.mint(
                        pre,
                    ).fault(registered) {
                        Some(m) => msg@ == m,
                        None => msg@ == log_failure_text(),
                    }),
                },
            }
        }),
{
    match state::require_controller(ledger, caller) {
        Err(msg) => {
            return Err(msg);
        },
        Ok(_) => {},
    }
    match validate_token_name(name.as_str()) {
        Err(msg) => {
            return Err(msg);
        },
        Ok(_) => {},
    }
    match validate_token_symbol(symbol.as_str()) {
        Err(msg) => {
            return Err(msg);
        },
        Ok(_) => {},
    }
    if decimals > 18 {
        return Err(String::from_str("Decimals cannot exceed 18"));
    }
    if state::peek_token_nonce(ledger) == u64::MAX {
        return Err(String::from_str("Token nonce overflow"));
    }
    let nonce = state::next_token_nonce(ledger);
    let token_id = derive_token_id(ledger_principal, nonce);
    let fee_amount = match fee {
        Some(f) => f,
        None => DEFAULT_FEE,
    };
    let metadata = StoredTokenMetadata {
        name,
        symbol,
        decimals,
        total_supply: 0,
        fee: fee_amount,
        fee_recipient: Account { owner: copy_bytes(caller), subaccount: None },
        logo,
        description,
        created_at: now,
        controller: copy_bytes(caller),
    };
    state::register_token(ledger, token_id, metadata);
    match initial_supply {
        Some(supply_amount) => {
            if supply_amount > 0 {
                let controller_account = Account { owner: copy_bytes(caller), subaccount: None };
                match mint_internal(
                    ledger,
                    caller,
                    now,
                    token_id,
                    controller_account,
                    supply_amount,
                    None,
                    None,
                ) {
                    Err(msg) => {
                        return Err(msg);
                    },
                    Ok(_) => {},
                }
            }
        },
        None => {},
    }
    Ok(token_id)
}

/// Makes `new_controller` the primary controller and a member of the set of
/// controllers. Only a controller may do so.
pub fn set_controller(ledger: &mut Ledger, caller: &[u8], new_controller: &[u8]) -> (r: Result<
    (),
    String,
>)
    ensures
        match r {
            Ok(_) => old(ledger)@.is_controller(caller@) && storable_principal(new_controller@)
                && final(ledger)@ == old(ledger)@.with_primary_controller(
                new_controller@,
            ).with_controller(new_controller@),
            Err(msg) => final(ledger)@ == old(ledger)@ && (if !old(ledger)@.is_controller(
                caller@,
            ) {
                msg@ == "Only controller can perform this operation"@
            } else {
                !storable_principal(new_controller@) && msg@ == bad_principal_text(
                    new_controller@,
                )
            }),
        },
{
    state::set_controller(ledger, caller, new_controller)
}

/// Adds a principal to the set of controllers. Only a controller may do so.
pub fn add_controller(ledger: &mut Ledger, caller: &[u8], p: &[u8]) -> (r: Result<(), String>)
    ensures
        match r {
            Ok(_) => old(ledger)@.is_controller(caller@) && storable_principal(p@) && final(ledger)@ == old(ledger)@.with_controller(p@),
            Err(msg) => final(ledger)@ == old(ledger)@ && (if !old(ledger)@.is_controller(
                caller@,
            ) {
                msg@ == "Only controller can perform this operation"@
            } else {
                !storable_principal(p@) && msg@ == bad_principal_text(p@)
            }),
        },
{
    match state::require_controller(ledger, caller) {
        Err(msg) => {
            return Err(msg);
        },
        Ok(_) => {},
    }
    state::add_controller_internal(ledger, p)
}

/// Whether `p` is the last of the listed controllers: no other is listed.
pub open spec fn is_last_of(listed: Seq<Seq<u8>>, p: Seq<u8>) -> bool {
    listed.len() <= 1 && listed.contains(p)
}

/// Whether a list of principals holds `p`.
fn holds_principal(list: &Vec<Vec<u8>>, p: &[u8]) -> (r: bool)
    ensures
        r == byte_strings(list@).contains(p@),
{
    let mut i: usize = 0;
    while i < list.len()
        invariant
            i <= list@.len(),
            forall|j: int| 0 <= j < i ==> byte_strings(list@)[j] != p@,
        decreases list@.len() - i,
    {
        if bytes_equal(list[i].as_slice(), p) {
            assert(byte_strings(list@)[i as int] == p@);
            return true;
        }
        i += 1;
    }
    false
}

/// Why a controller is not removed, if it is not: the caller is no
/// controller, the principal is the last controller that is listed, or its
/// length cannot be stored.
pub open spec fn removal_fault(pre: LedgerView, caller: Seq<u8>, p: Seq<u8>) -> Option<Seq<char>> {
    if !pre.is_controller(caller) {
        Some("Only controller can perform this operation"@)
    } else if is_last_of(listed_controllers(pre), p) {
        Some("Cannot remove the last controller"@)
    } else if !storable_principal(p) {
        Some(bad_principal_text(p))
    } else {
        None
    }
}

/// Removes a principal from the set of controllers. Only a controller may
/// do so, and the last controller that is listed cannot be removed.
pub fn remove_controller(ledger: &mut Ledger, caller: &[u8], p: &[u8]) -> (r: Result<(), String>)
    ensures
        match r {
            Ok(_) => removal_fault(old(ledger)@, caller@, p@).is_none() && final(ledger)@ == old(ledger)@.without_controller(p@),
            Err(msg) => removal_fault(old(ledger)@, caller@, p@) == Some(msg@) && final(ledger)@
                == old(ledger)@,
        },
{
    match state::require_controller(ledger, caller) {
        Err(msg) => {
            return Err(msg);
        },
        Ok(_) => {},
    }
    let controllers = state::list_controllers(ledger);
    if controllers.len() <= 1 && holds_principal(&controllers, p) {
        return Err(String::from_str("Cannot remove the last controller"));
    }
    state::remove_controller_internal(ledger, p)
}

/// The controllers: the principals of the stored forms in the set, in
/// ascending order of the stored forms.
pub fn list_controllers(ledger: &Ledger) -> (r: Vec<Vec<u8>>)
    ensures
        byte_strings(r@) == listed_controllers(ledger@),
{
    state::list_controllers(ledger)
}

/// Writes the fee of a token. Only a controller may do so.
pub fn set_token_fee(ledger: &mut Ledger, caller: &[u8], token_id: TokenId, new_fee: u128) -> (r:
    Result<(), String>)
    ensures
        match r {
            Ok(_) => old(ledger)@.is_controller(caller@) && old(ledger)@.tokens.contains_key(
                token_id@,
            ) && final(ledger)@ == old(ledger)@.with_fee(token_id@, new_fee),
            Err(msg) => final(ledger)@ == old(ledger)@ && (if !old(ledger)@.is_controller(
                caller@,
            ) {
                msg@ == "Only controller can perform this operation"@
            } else {
                !old(ledger)@.tokens.contains_key(token_id@) && msg@ == "Token not found"@
            }),
        },
{
    match state::require_controller(ledger, caller) {
        Err(msg) => {
            return Err(msg);
        },
        Ok(_) => {},
    }
    state::update_token_fee(ledger, token_id, new_fee)
}

} // verus!
