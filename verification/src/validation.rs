use vstd::prelude::*;
use vstd::string::*;
use crate::codec::{numbered, numbered_text};
use crate::types::{
    anonymous, anonymous_principal, bytes_equal, management_canister, management_canister_principal,
    Account, AccountKey, AccountView, TokenId,
};
use crate::types::constants::MAX_FUTURE_DRIFT;

verus! {

/// What a validation error says: its kind and its message.
pub enum ValidationFault {
    InvalidAccount(Seq<char>),
    InvalidAmount(Seq<char>),
    InvalidTokenId(Seq<char>),
    InvalidPrincipal(Seq<char>),
    InvalidMemo(Seq<char>),
    InvalidFee(Seq<char>),
    InvalidTimestamp(Seq<char>),
}

/// Why an input was refused.
#[derive(Debug, Clone, PartialEq)]
pub enum ValidationError {
    InvalidAccount(String),
    InvalidAmount(String),
    InvalidTokenId(String),
    InvalidPrincipal(String),
    InvalidMemo(String),
    InvalidFee(String),
    InvalidTimestamp(String),
}

impl View for ValidationError {
    type V = ValidationFault;

    open spec fn view(&self) -> ValidationFault {
        match self {
            ValidationError::InvalidAccount(m) => ValidationFault::InvalidAccount(m@),
            ValidationError::InvalidAmount(m) => ValidationFault::InvalidAmount(m@),
            ValidationError::InvalidTokenId(m) => ValidationFault::InvalidTokenId(m@),
            ValidationError::InvalidPrincipal(m) => ValidationFault::InvalidPrincipal(m@),
            ValidationError::InvalidMemo(m) => ValidationFault::InvalidMemo(m@),
            ValidationError::InvalidFee(m) => ValidationFault::InvalidFee(m@),
            ValidationError::InvalidTimestamp(m) => ValidationFault::InvalidTimestamp(m@),
        }
    }
}

/// The text of a validation error: its kind in words, then its message.
pub open spec fn fault_text(f: ValidationFault) -> Seq<char> {
    match f {
        ValidationFault::InvalidAccount(m) => "Invalid account: "@ + m,
        ValidationFault::InvalidAmount(m) => "Invalid amount: "@ + m,
        ValidationFault::InvalidTokenId(m) => "Invalid token ID: "@ + m,
        ValidationFault::InvalidPrincipal(m) => "Invalid principal: "@ + m,
        ValidationFault::InvalidMemo(m) => "Invalid memo: "@ + m,
        ValidationFault::InvalidFee(m) => "Invalid fee: "@ + m,
        ValidationFault::InvalidTimestamp(m) => "Invalid timestamp: "@ + m,
    }
}

impl ValidationError {
    /// The error as text: its kind in words, then its message.
    pub fn to_text(&self) -> (s: String)
        ensures
            s@ == fault_text(self@),
    {
        match self {
            ValidationError::InvalidAccount(m) => String::from_str("Invalid account: ").concat(
                m.as_str(),
            ),
            ValidationError::InvalidAmount(m) => String::from_str("Invalid amount: ").concat(
                m.as_str(),
            ),
            ValidationError::InvalidTokenId(m) => String::from_str("Invalid token ID: ").concat(
                m.as_str(),
            ),
            ValidationError::InvalidPrincipal(m) => String::from_str("Invalid principal: ").concat(
                m.as_str(),
            ),
            ValidationError::InvalidMemo(m) => String::from_str("Invalid memo: ").concat(
                m.as_str(),
            ),
            ValidationError::InvalidFee(m) => String::from_str("Invalid fee: ").concat(m.as_str()),
            ValidationError::InvalidTimestamp(m) => String::from_str("Invalid timestamp: ").concat(
                m.as_str(),
            ),
        }
    }
}

/// What a validator found: nothing, or the fault.
pub open spec fn outcome(r: Result<(), ValidationError>) -> Option<ValidationFault> {
    match r {
        Ok(_) => None,
        Err(e) => Some(e@),
    }
}

/// The first of two findings.
pub open spec fn first_of(a: Option<ValidationFault>, b: Option<ValidationFault>) -> Option<
    ValidationFault,
> {
    if a.is_some() {
        a
    } else {
        b
    }
}

/// An account is refused where its owner is the anonymous principal or has
/// no bytes or more than 29, and where its subaccount has not 32 bytes.
pub open spec fn account_fault(a: AccountView) -> Option<ValidationFault> {
    if a.owner == anonymous() {
        Some(ValidationFault::InvalidAccount("Anonymous principal not allowed"@))
    } else if a.owner.len() == 0 || a.owner.len() > 29 {
        Some(
            ValidationFault::InvalidAccount(
                numbered_text("Principal length "@, a.owner.len() as u128, " not in range 1-29"@),
            ),
        )
    } else if a.subaccount.is_some() && a.subaccount.unwrap().len() != 32 {
        Some(
            ValidationFault::InvalidAccount(
                numbered_text(
                    "Subaccount must be exactly 32 bytes, got "@,
                    a.subaccount.unwrap().len() as u128,
                    ""@,
                ),
            ),
        )
    } else {
        None
    }
}

pub fn validate_account(account: &Account) -> (r: Result<(), ValidationError>)
    ensures
        outcome(r) == account_fault(account@),
{
    let anon = anonymous_principal();
    if bytes_equal(account.owner.as_slice(), anon.as_slice()) {
        return Err(
            ValidationError::InvalidAccount(String::from_str("Anonymous principal not allowed")),
        );
    }
    let n = account.owner.len();
    if n == 0 || n > 29 {
        return Err(
            ValidationError::InvalidAccount(
                numbered("Principal length ", n as u128, " not in range 1-29"),
            ),
        );
    }
    match &account.subaccount {
        Some(sub) => {
            if sub.len() != 32 {
                return Err(
                    ValidationError::InvalidAccount(
                        numbered("Subaccount must be exactly 32 bytes, got ", sub.len() as u128, ""),
                    ),
                );
            }
        },
        None => {},
    }
    Ok(())
}

/// The largest amount that is accepted: half of the largest `u128`.
pub open spec fn max_amount() -> u128 {
    u128::MAX / 2
}

/// An amount is refused where it is zero and zero is not allowed, and where
/// it is more than half of the largest `u128`.
pub open spec fn amount_fault(amount: u128, allow_zero: bool) -> Option<ValidationFault> {
    if !allow_zero && amount == 0 {
        Some(ValidationFault::InvalidAmount("Amount must be greater than 0"@))
    } else if amount > max_amount() {
        Some(ValidationFault::InvalidAmount("Amount too large, may cause overflow"@))
    } else {
        None
    }
}

pub fn validate_amount(amount: u128, allow_zero: bool) -> (r: Result<(), ValidationError>)
    ensures
        outcome(r) == amount_fault(amount, allow_zero),
{
    if !allow_zero && amount == 0 {
        return Err(
            ValidationError::InvalidAmount(String::from_str("Amount must be greater than 0")),
        );
    }
    if amount > u128::MAX / 2 {
        return Err(
            ValidationError::InvalidAmount(String::from_str("Amount too large, may cause overflow")),
        );
    }
    Ok(())
}

/// A transfer's fee is not bounded by the amount: every fee passes.
pub fn validate_transfer_fee(_fee: u128, _amount: u128) -> (r: Result<(), ValidationError>)
    ensures
        r is Ok,
{
    Ok(())
}

/// Every fee of an approval passes.
pub fn validate_approve_fee(_fee: u128) -> (r: Result<(), ValidationError>)
    ensures
        r is Ok,
{
    Ok(())
}

/// Whether `bytes` is well-formed UTF-8, by `std::str::from_utf8`. Nothing is
/// proved of this function: the contract states that the standard library
/// accepts exactly the byte strings that are valid UTF-8.
#[verifier::external_body]
fn is_utf8(bytes: &[u8]) -> (r: bool)
    ensures
        r == vstd::utf8::valid_utf8(bytes@),
{
    std::str::from_utf8(bytes).is_ok()
}

/// Whether a memo of this length is looked at as text.
pub open spec fn is_short_memo(memo: Seq<u8>) -> bool {
    0 < memo.len() <= 1024
}

/// A memo is refused where it has more than 64 KiB, and where it has at most
/// 1 KiB, is well-formed UTF-8 and holds a zero byte.
pub open spec fn memo_fault(memo: Seq<u8>) -> Option<ValidationFault> {
    if memo.len() > 65536 {
        Some(
            ValidationFault::InvalidMemo(
                numbered_text("Memo size "@, memo.len() as u128, " exceeds 64KB limit"@),
            ),
        )
    } else if is_short_memo(memo) && vstd::utf8::valid_utf8(memo) && memo.contains(0u8) {
        Some(ValidationFault::InvalidMemo("Text memo contains null bytes"@))
    } else {
        None
    }
}

/// Whether `bytes` holds a zero byte.
fn has_zero_byte(bytes: &[u8]) -> (r: bool)
    ensures
        r == bytes@.contains(0u8),
{
    let mut i: usize = 0;
    while i < bytes.len()
        invariant
            i <= bytes@.len(),
            forall|j: int| 0 <= j < i ==> bytes@[j] != 0u8,
        decreases bytes@.len() - i,
    {
        if bytes[i] == 0 {
            return true;
        }
        i += 1;
    }
    false
}

pub fn validate_memo(memo: &[u8]) -> (r: Result<(), ValidationError>)
    ensures
        outcome(r) == memo_fault(memo@),
{
    if memo.len() > 65536 {
        return Err(
            ValidationError::InvalidMemo(
                numbered("Memo size ", memo.len() as u128, " exceeds 64KB limit"),
            ),
        );
    }
    if memo.len() > 0 && memo.len() <= 1024 {
        if is_utf8(memo) && has_zero_byte(memo) {
            return Err(
                ValidationError::InvalidMemo(String::from_str("Text memo contains null bytes")),
            );
        }
    }
    Ok(())
}

/// Whether every byte is zero.
pub open spec fn all_zero(bytes: Seq<u8>) -> bool {
    forall|i: int| 0 <= i < bytes.len() ==> bytes[i] == 0u8
}

/// Whether every byte is zero.
fn is_all_zero(bytes: &[u8; 32]) -> (r: bool)
    ensures
        r == all_zero(bytes@),
{
    let mut i: usize = 0;
    while i < 32
        invariant
            i <= 32,
            forall|j: int| 0 <= j < i ==> bytes@[j] == 0u8,
        decreases 32 - i,
    {
        if bytes[i] != 0 {
            return false;
        }
        i += 1;
    }
    true
}

/// The token id of 32 zero bytes is refused.
pub open spec fn token_id_fault(token_id: Seq<u8>) -> Option<ValidationFault> {
    if all_zero(token_id) {
        Some(ValidationFault::InvalidTokenId("Token ID cannot be all zeros"@))
    } else {
        None
    }
}

pub fn validate_token_id(token_id: &TokenId) -> (r: Result<(), ValidationError>)
    ensures
        outcome(r) == token_id_fault(token_id@),
{
    if is_all_zero(token_id) {
        return Err(
            ValidationError::InvalidTokenId(String::from_str("Token ID cannot be all zeros")),
        );
    }
    Ok(())
}

/// The account key of 32 zero bytes is refused.
pub open spec fn account_key_fault(account_key: Seq<u8>) -> Option<ValidationFault> {
    if all_zero(account_key) {
        Some(ValidationFault::InvalidAccount("Account key cannot be all zeros"@))
    } else {
        None
    }
}

pub fn validate_account_key(account_key: &AccountKey) -> (r: Result<(), ValidationError>)
    ensures
        outcome(r) == account_key_fault(account_key@),
{
    if is_all_zero(account_key) {
        return Err(
            ValidationError::InvalidAccount(String::from_str("Account key cannot be all zeros")),
        );
    }
    Ok(())
}

/// The earliest timestamp that is accepted, in nanoseconds.
pub const MIN_TIMESTAMP: u64 = 1_600_000_000_000_000_000;

/// A timestamp is refused where it lies before the earliest accepted one, and
/// where it lies more than the allowed drift after the current time.
pub open spec fn timestamp_fault(timestamp: u64, current_time: u64) -> Option<ValidationFault> {
    if timestamp < MIN_TIMESTAMP {
        Some(ValidationFault::InvalidTimestamp("Timestamp too far in the past"@))
    } else if timestamp > current_time + MAX_FUTURE_DRIFT {
        Some(ValidationFault::InvalidTimestamp("Timestamp too far in the future"@))
    } else {
        None
    }
}

pub fn validate_timestamp(timestamp: u64, current_time: u64) -> (r: Result<(), ValidationError>)
    ensures
        outcome(r) == timestamp_fault(timestamp, current_time),
{
    if timestamp < MIN_TIMESTAMP {
        return Err(
            ValidationError::InvalidTimestamp(String::from_str("Timestamp too far in the past")),
        );
    }
    if timestamp - MAX_FUTURE_DRIFT > current_time {
        return Err(
            ValidationError::InvalidTimestamp(String::from_str("Timestamp too far in the future")),
        );
    }
    Ok(())
}

/// A principal cannot administer where it is the anonymous principal or the
/// management canister, or has more than 29 bytes.
pub open spec fn admin_principal_fault(principal: Seq<u8>) -> Option<ValidationFault> {
    if principal == anonymous() {
        Some(ValidationFault::InvalidPrincipal("Anonymous principal cannot be admin"@))
    } else if principal == management_canister() {
        Some(ValidationFault::InvalidPrincipal("Management canister cannot be admin"@))
    } else if principal.len() == 0 || principal.len() > 29 {
        Some(
            ValidationFault::InvalidPrincipal(
                numbered_text("Principal length "@, principal.len() as u128, " not in range 1-29"@),
            ),
        )
    } else {
        None
    }
}

pub fn validate_admin_principal(principal: &[u8]) -> (r: Result<(), ValidationError>)
    ensures
        outcome(r) == admin_principal_fault(principal@),
{
    let anon = anonymous_principal();
    if bytes_equal(principal, anon.as_slice()) {
        return Err(
            ValidationError::InvalidPrincipal(
                String::from_str("Anonymous principal cannot be admin"),
            ),
        );
    }
    let management = management_canister_principal();
    if bytes_equal(principal, management.as_slice()) {
        return Err(
            ValidationError::InvalidPrincipal(
                String::from_str("Management canister cannot be admin"),
            ),
        );
    }
    let n = principal.len();
    if n == 0 || n > 29 {
        return Err(
            ValidationError::InvalidPrincipal(
                numbered("Principal length ", n as u128, " not in range 1-29"),
            ),
        );
    }
    Ok(())
}

/// What is found of an optional memo: of no memo, nothing.
pub open spec fn optional_memo_fault(memo: Option<Seq<u8>>) -> Option<ValidationFault> {
    match memo {
        Some(m) => memo_fault(m),
        None => None,
    }
}

/// Validates a memo, where there is one.
fn validate_optional_memo(memo: Option<&[u8]>) -> (r: Result<(), ValidationError>)
    ensures
        outcome(r) == optional_memo_fault(crate::transaction::memo_bytes(memo)),
{
    match memo {
        Some(m) => validate_memo(m),
        None => Ok(()),
    }
}

/// A transfer is refused for the first of: a fault of the sender, of the
/// receiver, of the amount (zero is not allowed), of the memo; sender and
/// receiver being the same account.
pub open spec fn transfer_params_fault(
    from: AccountView,
    to: AccountView,
    amount: u128,
    memo: Option<Seq<u8>>,
) -> Option<ValidationFault> {
    first_of(
        account_fault(from),
        first_of(
            account_fault(to),
            first_of(
                amount_fault(amount, false),
                first_of(
                    optional_memo_fault(memo),
                    if from == to {
                        Some(ValidationFault::InvalidAccount("Cannot transfer to same account"@))
                    } else {
                        None
                    },
                ),
            ),
        ),
    )
}

pub fn validate_transfer_params(
    from: &Account,
    to: &Account,
    amount: u128,
    fee: Option<u128>,
    memo: Option<&[u8]>,
) -> (r: Result<(), ValidationError>)
    ensures
        outcome(r) == transfer_params_fault(
            from@,
            to@,
            amount,
            crate::transaction::memo_bytes(memo),
        ),
{
    match validate_account(from) {
        Err(e) => {
            return Err(e);
        },
        Ok(_) => {},
    }
    match validate_account(to) {
        Err(e) => {
            return Err(e);
        },
        Ok(_) => {},
    }
    match validate_amount(amount, false) {
        Err(e) => {
            return Err(e);
        },
        Ok(_) => {},
    }
    match fee {
        Some(fee_amount) => {
            let _ = validate_transfer_fee(fee_amount, amount);
        },
        None => {},
    }
    match validate_optional_memo(memo) {
        Err(e) => {
            return Err(e);
        },
        Ok(_) => {},
    }
    if from.same_as(to) {
        return Err(
            ValidationError::InvalidAccount(String::from_str("Cannot transfer to same account")),
        );
    }
    Ok(())
}

/// An approval is refused for the first of: a fault of the owner, of the
/// spender, of the amount (zero is allowed), of the memo; owner and spender
/// being the same account.
pub open spec fn approve_params_fault(
    owner: AccountView,
    spender: AccountView,
    amount: u128,
    memo: Option<Seq<u8>>,
) -> Option<ValidationFault> {
    first_of(
        account_fault(owner),
        first_of(
            account_fault(spender),
            first_of(
                amount_fault(amount, true),
                first_of(
                    optional_memo_fault(memo),
                    if owner == spender {
                        Some(ValidationFault::InvalidAccount("Cannot approve spending to self"@))
                    } else {
                        None
                    },
                ),
            ),
        ),
    )
}

pub fn validate_approve_params(
    owner: &Account,
    spender: &Account,
    amount: u128,
    fee: Option<u128>,
    memo: Option<&[u8]>,
) -> (r: Result<(), ValidationError>)
    ensures
        outcome(r) == approve_params_fault(
            owner@,
            spender@,
            amount,
            crate::transaction::memo_bytes(memo),
        ),
{
    match validate_account(owner) {
        Err(e) => {
            return Err(e);
        },
        Ok(_) => {},
    }
    match validate_account(spender) {
        Err(e) => {
            return Err(e);
        },
        Ok(_) => {},
    }
    match validate_amount(amount, true) {
        Err(e) => {
            return Err(e);
        },
        Ok(_) => {},
    }
    match fee {
        Some(fee_amount) => {
            let _ = validate_approve_fee(fee_amount);
        },
        None => {},
    }
    match validate_optional_memo(memo) {
        Err(e) => {
            return Err(e);
        },
        Ok(_) => {},
    }
    if owner.same_as(spender) {
        return Err(
            ValidationError::InvalidAccount(String::from_str("Cannot approve spending to self")),
        );
    }
    Ok(())
}

/// A mint or a burn is refused for the first of: a fault of the account, of
/// the amount (zero is not allowed), of the memo.
pub open spec fn supply_params_fault(
    account: AccountView,
    amount: u128,
    memo: Option<Seq<u8>>,
) -> Option<ValidationFault> {
    first_of(
        account_fault(account),
        first_of(amount_fault(amount, false), optional_memo_fault(memo)),
    )
}

pub fn validate_mint_params(to: &Account, amount: u128, memo: Option<&[u8]>) -> (r: Result<
    (),
    ValidationError,
>)
    ensures
        outcome(r) == supply_params_fault(to@, amount, crate::transaction::memo_bytes(memo)),
{
    match validate_account(to) {
        Err(e) => {
            return Err(e);
        },
        Ok(_) => {},
    }
    match validate_amount(amount, false) {
        Err(e) => {
            return Err(e);
        },
        Ok(_) => {},
    }
    validate_optional_memo(memo)
}

pub fn validate_burn_params(from: &Account, amount: u128, memo: Option<&[u8]>) -> (r: Result<
    (),
    ValidationError,
>)
    ensures
        outcome(r) == supply_params_fault(from@, amount, crate::transaction::memo_bytes(memo)),
{
    match validate_account(from) {
        Err(e) => {
            return Err(e);
        },
        Ok(_) => {},
    }
    match validate_amount(amount, false) {
        Err(e) => {
            return Err(e);
        },
        Ok(_) => {},
    }
    validate_optional_memo(memo)
}

} // verus!
