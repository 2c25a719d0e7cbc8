use candid::Principal;
use icrc151::allowances::ApproveError;
use icrc151::operations::TransferError;
use icrc151::queries::QueryError;
use icrc151::types::Account;
use icrc151::validation::{
    validate_account, validate_account_key, validate_admin_principal, validate_amount,
    validate_approve_params, validate_burn_params, validate_memo, validate_mint_params,
    validate_timestamp, validate_token_id, validate_transfer_fee, validate_transfer_params,
    ValidationError,
};

fn account_of(principal: Principal, subaccount: Option<Vec<u8>>) -> Account {
    Account { owner: principal.as_slice().to_vec(), subaccount }
}

#[test]
fn test_validate_account() {
    let principal_bytes = vec![0x00, 0x00, 0x00, 0x00, 0x00, 0x00, 0x04, 0xD2];
    let valid_account = account_of(Principal::from_slice(&principal_bytes), None);
    assert!(validate_account(&valid_account).is_ok());

    let account_with_sub = account_of(Principal::from_slice(&principal_bytes), Some(vec![1u8; 32]));
    assert!(validate_account(&account_with_sub).is_ok());

    let anonymous_account = account_of(Principal::anonymous(), None);
    assert!(validate_account(&anonymous_account).is_err());

    let invalid_sub = account_of(Principal::from_slice(&principal_bytes), Some(vec![1u8; 31]));
    assert!(validate_account(&invalid_sub).is_err());
}

#[test]
fn test_validate_amount() {
    assert!(validate_amount(1000, false).is_ok());
    assert!(validate_amount(0, true).is_ok());
    assert!(validate_amount(0, false).is_err());
    assert!(validate_amount(u128::MAX, false).is_err());
}

#[test]
fn test_validate_transfer_fee() {
    assert!(validate_transfer_fee(10, 1000).is_ok());
    assert!(validate_transfer_fee(0, 1000).is_ok());
    assert!(validate_transfer_fee(1000, 1000).is_ok());
    assert!(validate_transfer_fee(5000, 1000).is_ok());
    assert!(validate_transfer_fee(10000, 1000).is_ok());
    assert!(validate_transfer_fee(10001, 1000).is_ok());
    assert!(validate_transfer_fee(u128::MAX, u128::MAX).is_ok());
}

#[test]
fn test_validate_memo() {
    assert!(validate_memo(b"valid memo").is_ok());
    assert!(validate_memo(&[]).is_ok());
    assert!(validate_memo(&vec![1u8; 1000]).is_ok());
    assert!(validate_memo(&vec![0u8; 70000]).is_err());
    assert!(validate_memo(b"invalid\0memo").is_err());
}

#[test]
fn test_validate_token_id() {
    let valid_id = [1u8; 32];
    let zero_id = [0u8; 32];

    assert!(validate_token_id(&valid_id).is_ok());
    assert!(validate_token_id(&zero_id).is_err());
}

#[test]
fn test_validate_transfer_params() {
    let principal_bytes1 = vec![0x00, 0x00, 0x00, 0x00, 0x00, 0x00, 0x04, 0xD2];
    let principal_bytes2 = vec![0x00, 0x00, 0x00, 0x00, 0x00, 0x00, 0x04, 0xD3];

    let from = account_of(Principal::from_slice(&principal_bytes1), None);
    let to = account_of(Principal::from_slice(&principal_bytes2), None);

    assert!(validate_transfer_params(&from, &to, 1000, Some(10), None).is_ok());
    assert!(validate_transfer_params(&from, &from, 1000, Some(10), None).is_err());
    assert!(validate_transfer_params(&from, &to, 0, Some(10), None).is_err());
}

#[test]
fn test_approve_validation() {
    let principal_bytes1 = vec![0x00, 0x00, 0x00, 0x00, 0x00, 0x00, 0x04, 0xD2];
    let principal_bytes2 = vec![0x00, 0x00, 0x00, 0x00, 0x00, 0x00, 0x04, 0xD3];

    let owner = account_of(Principal::from_slice(&principal_bytes1), None);
    let spender = account_of(Principal::from_slice(&principal_bytes2), None);
    let token_id = [1u8; 32];

    assert!(validate_token_id(&token_id).is_ok());
    assert!(validate_approve_params(&owner, &spender, 1000, Some(10), None).is_ok());
}

#[test]
fn test_transfer_validation() {
    let principal_bytes1 = vec![0x00, 0x00, 0x00, 0x00, 0x00, 0x00, 0x04, 0xD2];
    let principal_bytes2 = vec![0x00, 0x00, 0x00, 0x00, 0x00, 0x00, 0x04, 0xD3];

    let from = account_of(Principal::from_slice(&principal_bytes1), None);
    let to = account_of(Principal::from_slice(&principal_bytes2), None);
    let token_id = [1u8; 32];

    assert!(validate_token_id(&token_id).is_ok());
    assert!(validate_transfer_params(&from, &to, 1000, Some(10), None).is_ok());
}

#[test]
fn account_errors_carry_their_messages() {
    let anonymous = account_of(Principal::anonymous(), None);
    assert_eq!(
        validate_account(&anonymous),
        Err(ValidationError::InvalidAccount("Anonymous principal not allowed".to_string()))
    );
    let empty = account_of(Principal::management_canister(), None);
    assert_eq!(
        validate_account(&empty),
        Err(ValidationError::InvalidAccount("Principal length 0 not in range 1-29".to_string()))
    );
    let long = Account { owner: vec![1u8; 30], subaccount: None };
    assert_eq!(
        validate_account(&long),
        Err(ValidationError::InvalidAccount("Principal length 30 not in range 1-29".to_string()))
    );
    let short_sub = Account { owner: vec![1u8; 29], subaccount: Some(vec![0u8; 31]) };
    assert_eq!(
        validate_account(&short_sub),
        Err(ValidationError::InvalidAccount(
            "Subaccount must be exactly 32 bytes, got 31".to_string()
        ))
    );
    let widest = Account { owner: vec![1u8; 29], subaccount: Some(vec![0u8; 32]) };
    assert_eq!(validate_account(&widest), Ok(()));
    assert_eq!(
        validate_account(&anonymous).unwrap_err().to_text(),
        "Invalid account: Anonymous principal not allowed"
    );
}

#[test]
fn amount_bounds_are_exact() {
    assert_eq!(validate_amount(u128::MAX / 2, false), Ok(()));
    assert_eq!(
        validate_amount(u128::MAX / 2 + 1, true),
        Err(ValidationError::InvalidAmount("Amount too large, may cause overflow".to_string()))
    );
    assert_eq!(
        validate_amount(0, false),
        Err(ValidationError::InvalidAmount("Amount must be greater than 0".to_string()))
    );
    assert_eq!(validate_amount(1, false), Ok(()));
}

#[test]
fn memo_bounds_are_exact() {
    assert_eq!(validate_memo(&vec![1u8; 65536]), Ok(()));
    assert_eq!(
        validate_memo(&vec![1u8; 65537]),
        Err(ValidationError::InvalidMemo("Memo size 65537 exceeds 64KB limit".to_string()))
    );
    // A zero byte is refused in a short memo that is text.
    let mut text = vec![b'a'; 1024];
    text[1000] = 0;
    assert_eq!(
        validate_memo(&text),
        Err(ValidationError::InvalidMemo("Text memo contains null bytes".to_string()))
    );
    // Not in one of 1025 bytes.
    let mut longer = vec![b'a'; 1025];
    longer[1000] = 0;
    assert_eq!(validate_memo(&longer), Ok(()));
    // Nor in a short memo that is not text.
    assert_eq!(validate_memo(&[0xff, 0x00, 0xfe]), Ok(()));
    assert_eq!(validate_memo(&[0xc3, 0xa9, 0x00]).is_err(), true);
    assert_eq!(validate_memo(&[0xc3, 0x00]), Ok(()));
}

#[test]
fn key_and_timestamp_validators() {
    assert!(validate_account_key(&[0u8; 32]).is_err());
    let mut key = [0u8; 32];
    key[31] = 1;
    assert!(validate_account_key(&key).is_ok());
    assert!(validate_token_id(&key).is_ok());

    let now = 1_700_000_000_000_000_000u64;
    assert_eq!(validate_timestamp(now, now), Ok(()));
    assert_eq!(validate_timestamp(now + 300_000_000_000, now), Ok(()));
    assert_eq!(
        validate_timestamp(now + 300_000_000_001, now),
        Err(ValidationError::InvalidTimestamp("Timestamp too far in the future".to_string()))
    );
    assert_eq!(
        validate_timestamp(1_599_999_999_999_999_999, now),
        Err(ValidationError::InvalidTimestamp("Timestamp too far in the past".to_string()))
    );
    assert_eq!(validate_timestamp(1_600_000_000_000_000_000, now), Ok(()));
    assert_eq!(validate_timestamp(u64::MAX, u64::MAX), Ok(()));
}

#[test]
fn admin_principal_validator() {
    assert_eq!(
        validate_admin_principal(Principal::anonymous().as_slice()),
        Err(ValidationError::InvalidPrincipal("Anonymous principal cannot be admin".to_string()))
    );
    assert_eq!(
        validate_admin_principal(Principal::management_canister().as_slice()),
        Err(ValidationError::InvalidPrincipal("Management canister cannot be admin".to_string()))
    );
    assert_eq!(
        validate_admin_principal(&[1u8; 30]),
        Err(ValidationError::InvalidPrincipal("Principal length 30 not in range 1-29".to_string()))
    );
    assert_eq!(validate_admin_principal(&[1u8; 29]), Ok(()));
    assert_eq!(validate_admin_principal(&[4u8, 0]), Ok(()));
}

#[test]
fn parameter_validators_report_the_first_fault() {
    let a = Account { owner: vec![1], subaccount: None };
    let b = Account { owner: vec![2], subaccount: None };
    let bad = Account { owner: vec![], subaccount: None };
    assert_eq!(
        validate_transfer_params(&bad, &b, 0, None, None),
        Err(ValidationError::InvalidAccount("Principal length 0 not in range 1-29".to_string()))
    );
    assert_eq!(
        validate_transfer_params(&a, &a, 0, None, None),
        Err(ValidationError::InvalidAmount("Amount must be greater than 0".to_string()))
    );
    assert_eq!(
        validate_transfer_params(&a, &a, 1, None, Some(b"a\0")),
        Err(ValidationError::InvalidMemo("Text memo contains null bytes".to_string()))
    );
    assert_eq!(
        validate_transfer_params(&a, &a, 1, None, Some(b"a")),
        Err(ValidationError::InvalidAccount("Cannot transfer to same account".to_string()))
    );
    assert_eq!(validate_approve_params(&a, &b, 0, None, None), Ok(()));
    assert_eq!(
        validate_approve_params(&a, &a, 0, None, None),
        Err(ValidationError::InvalidAccount("Cannot approve spending to self".to_string()))
    );
    assert_eq!(validate_mint_params(&a, 1, None), Ok(()));
    assert!(validate_mint_params(&a, 0, None).is_err());
    assert!(validate_mint_params(&bad, 1, None).is_err());
    assert_eq!(validate_burn_params(&a, 1, Some(b"memo")), Ok(()));
    assert!(validate_burn_params(&a, 1, Some(&vec![1u8; 70000])).is_err());
}

#[test]
fn validation_errors_convert_into_the_errors_of_each_path() {

    let e = ValidationError::InvalidMemo("too long".to_string());
    assert_eq!(e.to_text(), "Invalid memo: too long");
    assert_eq!(
        TransferError::from(e.clone()),
        TransferError::GenericError {
            error_code: 400,
            message: "Invalid memo: too long".to_string()
        }
    );
    assert_eq!(
        ApproveError::from(e.clone()),
        ApproveError::GenericError {
            error_code: 400,
            message: "Invalid memo: too long".to_string()
        }
    );
    assert_eq!(QueryError::from(e), QueryError::InvalidInput("Invalid memo: too long".to_string()));
    assert_eq!(
        ValidationError::InvalidTokenId("a".to_string()).to_text(),
        "Invalid token ID: a"
    );
    assert_eq!(
        ValidationError::InvalidPrincipal("b".to_string()).to_text(),
        "Invalid principal: b"
    );
    assert_eq!(ValidationError::InvalidFee("c".to_string()).to_text(), "Invalid fee: c");
    assert_eq!(
        ValidationError::InvalidTimestamp("d".to_string()).to_text(),
        "Invalid timestamp: d"
    );
    assert_eq!(ValidationError::InvalidAmount("e".to_string()).to_text(), "Invalid amount: e");
}
