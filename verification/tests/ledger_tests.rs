use candid::Principal;
use icrc151::allowances::{
    approve, approve_internal, transfer_from, transfer_from_internal, ApproveError,
    Icrc151ApproveArgs, Icrc151TransferFromArgs,
};
use icrc151::operations::{
    add_controller, burn_tokens, burn_tokens_from, create_token, list_controllers, mint_tokens,
    remove_controller, set_controller, set_token_fee, transfer, transfer_internal,
    validate_token_name, validate_token_symbol, Icrc151TransferArgs, TransferError,
};
use icrc151::state::{
    self, get_allowance, get_balance, get_global_tx_count, get_holder_count, get_token_metadata,
    get_transaction, get_transaction_count, init_state, Ledger,
};
use icrc151::types::{derive_token_id, Account, TokenId};
use num_traits::cast::ToPrimitive;

const NOW: u64 = 1_700_000_000_000_000_000;
const SECOND: u64 = 1_000_000_000;
/// When the token of the tests is created, and its initial supply minted.
const CREATED: u64 = NOW - 1000;

fn principal(n: u8) -> Vec<u8> {
    vec![0, 0, 0, 0, 0, 0, 4, n]
}

fn account(n: u8) -> Account {
    Account { owner: principal(n), subaccount: None }
}

fn ledger_principal() -> Vec<u8> {
    vec![9, 9, 9]
}

/// A ledger with controller 1 and a token with fee 10 of which the
/// controller holds `supply`.
fn ledger_with_token(supply: u128) -> (Ledger, TokenId) {
    let mut ledger = Ledger::open().unwrap();
    init_state(&mut ledger, &principal(1));
    let token_id = create_token(
        &mut ledger,
        &principal(1),
        &ledger_principal(),
        CREATED,
        "Token".to_string(),
        "TKN".to_string(),
        8,
        Some(supply),
        Some(10),
        None,
        None,
    )
    .unwrap();
    (ledger, token_id)
}

fn transfer_args(token_id: TokenId, to: Account, amount: u128) -> Icrc151TransferArgs {
    Icrc151TransferArgs {
        token_id,
        from_subaccount: None,
        to,
        amount,
        fee: None,
        memo: None,
        created_at_time: None,
    }
}

fn balance(ledger: &Ledger, token_id: TokenId, n: u8) -> u128 {
    get_balance(ledger, token_id, account(n).to_key())
}

fn generic(code: u64, message: &str) -> TransferError {
    TransferError::GenericError { error_code: code, message: message.to_string() }
}

#[test]
fn test_token_creation_validation() {
    assert!(validate_token_name("").is_err());
    assert!(validate_token_name(&"a".repeat(256)).is_err());
    assert!(validate_token_name("Valid Token").is_ok());

    assert!(validate_token_symbol("").is_err());
    assert!(validate_token_symbol(&"A".repeat(33)).is_err());
    assert!(validate_token_symbol("VALID").is_ok());
}

#[test]
fn test_transfer_args_conversion() {
    let amount_nat = candid::Nat::from(1000u64);
    let fee_nat = Some(candid::Nat::from(10u64));
    let args = Icrc151TransferArgs {
        token_id: [1u8; 32],
        from_subaccount: None,
        to: Account {
            owner: Principal::from_slice(&[0x00, 0x00, 0x00, 0x00, 0x00, 0x00, 0x04, 0xD2])
                .as_slice()
                .to_vec(),
            subaccount: None,
        },
        amount: amount_nat.0.to_u128().unwrap_or(0),
        fee: fee_nat.as_ref().map(|f| f.0.to_u128().unwrap_or(0)),
        memo: Some(b"test".to_vec()),
        created_at_time: None,
    };

    assert_eq!(args.amount, 1000);
    assert_eq!(args.fee, Some(10));
}

#[test]
fn test_approve_args_conversion() {
    let amount_nat = candid::Nat::from(1000u64);
    let fee_nat = Some(candid::Nat::from(10u64));
    let expected_nat = Some(candid::Nat::from(0u64));
    let args = Icrc151ApproveArgs {
        token_id: [1u8; 32],
        spender: Account {
            owner: Principal::from_slice(&[0x00, 0x00, 0x00, 0x00, 0x00, 0x00, 0x04, 0xD2])
                .as_slice()
                .to_vec(),
            subaccount: None,
        },
        amount: amount_nat.0.to_u128().unwrap_or(0),
        expires_at: None,
        expected_allowance: expected_nat.as_ref().map(|a| a.0.to_u128().unwrap_or(0)),
        memo: Some(b"test".to_vec()),
        fee: fee_nat.as_ref().map(|f| f.0.to_u128().unwrap_or(0)),
        from_subaccount: None,
        created_at_time: None,
    };

    assert_eq!(args.amount, 1000);
    assert_eq!(args.fee, Some(10));
    assert_eq!(args.expected_allowance, Some(0));
}

#[test]
fn test_transfer_from_args_conversion() {
    let principal_bytes1 = vec![0x00, 0x00, 0x00, 0x00, 0x00, 0x00, 0x04, 0xD2];
    let principal_bytes2 = vec![0x00, 0x00, 0x00, 0x00, 0x00, 0x00, 0x04, 0xD3];
    let amount_nat = candid::Nat::from(1000u64);
    let fee_nat = Some(candid::Nat::from(10u64));

    let args = Icrc151TransferFromArgs {
        token_id: [1u8; 32],
        spender_subaccount: None,
        from: Account {
            owner: Principal::from_slice(&principal_bytes1).as_slice().to_vec(),
            subaccount: None,
        },
        to: Account {
            owner: Principal::from_slice(&principal_bytes2).as_slice().to_vec(),
            subaccount: None,
        },
        amount: amount_nat.0.to_u128().unwrap_or(0),
        fee: fee_nat.as_ref().map(|f| f.0.to_u128().unwrap_or(0)),
        memo: Some(b"transfer_from_test".to_vec()),
        created_at_time: None,
    };

    assert_eq!(args.amount, 1000);
    assert_eq!(args.fee, Some(10));
}

#[test]
fn mint_then_transfer() {
    let (mut ledger, t) = ledger_with_token(1000);
    assert_eq!(balance(&ledger, t, 1), 1000);
    assert_eq!(get_transaction_count(&ledger), 1);

    let r = transfer(&mut ledger, &principal(1), NOW, transfer_args(t, account(2), 100));
    assert_eq!(r, Ok(1));

    assert_eq!(balance(&ledger, t, 1), 900);
    assert_eq!(balance(&ledger, t, 2), 100);
    assert_eq!(get_token_metadata(&ledger, t).unwrap().total_supply, 1000);
    assert_eq!(get_holder_count(&ledger, t), 2);
    assert_eq!(get_transaction_count(&ledger), 2);
    assert_eq!(get_global_tx_count(&ledger), 2);

    let mint = get_transaction(&ledger, 0).unwrap();
    assert_eq!(mint.op, 1);
    assert_eq!(mint.token_id, t);
    assert_eq!(mint.to_key, account(1).to_key());
    assert_eq!(mint.get_amount(), 1000);
    let sent = get_transaction(&ledger, 1).unwrap();
    assert_eq!(sent.op, 0);
    assert_eq!(sent.token_id, t);
    assert_eq!(sent.from_key, account(1).to_key());
    assert_eq!(sent.to_key, account(2).to_key());
    assert_eq!(sent.get_amount(), 100);
    assert_eq!(sent.get_fee(), 10);
    assert_eq!(sent.get_timestamp(), NOW);
    assert!(get_transaction(&ledger, 2).is_none());
}

#[test]
fn bad_fee_changes_nothing() {
    let (mut ledger, t) = ledger_with_token(1000);
    let mut args = transfer_args(t, account(2), 100);
    args.fee = Some(5);
    let r = transfer(&mut ledger, &principal(1), NOW, args);
    assert_eq!(r, Err(TransferError::BadFee { expected_fee: 10 }));
    assert_eq!(balance(&ledger, t, 1), 1000);
    assert_eq!(balance(&ledger, t, 2), 0);
    assert_eq!(get_holder_count(&ledger, t), 1);
    assert_eq!(get_transaction_count(&ledger), 1);
    assert_eq!(get_global_tx_count(&ledger), 1);
}

#[test]
fn approve_then_transfer_from() {
    let (mut ledger, t) = ledger_with_token(1000);
    // Account 2 gets a balance of 500 by a mint.
    assert_eq!(mint_tokens(&mut ledger, &principal(1), NOW, t, account(2), 500, None), Ok(1));
    assert_eq!(balance(&ledger, t, 2), 500);

    let approve_args = Icrc151ApproveArgs {
        token_id: t,
        spender: account(3),
        amount: 300,
        expires_at: None,
        expected_allowance: None,
        memo: None,
        fee: None,
        from_subaccount: None,
        created_at_time: None,
    };
    assert_eq!(approve(&mut ledger, &principal(2), NOW, approve_args), Ok(2));
    assert_eq!(get_allowance(&ledger, t, account(2).to_key(), account(3).to_key()), 300);
    assert_eq!(balance(&ledger, t, 2), 500);
    let approval = get_transaction(&ledger, 2).unwrap();
    assert_eq!(approval.op, 3);
    assert_eq!(approval.from_key, account(2).to_key());
    assert_eq!(approval.spender_key, account(3).to_key());
    assert_eq!(approval.get_amount(), 300);

    let fee_recipient_before = balance(&ledger, t, 1);
    let args = Icrc151TransferFromArgs {
        token_id: t,
        spender_subaccount: None,
        from: account(2),
        to: account(4),
        amount: 200,
        fee: Some(10),
        memo: None,
        created_at_time: None,
    };
    assert_eq!(transfer_from(&mut ledger, &principal(3), NOW + 1, args), Ok(3));
    assert_eq!(get_allowance(&ledger, t, account(2).to_key(), account(3).to_key()), 90);
    assert_eq!(balance(&ledger, t, 2), 290);
    assert_eq!(balance(&ledger, t, 4), 200);
    assert_eq!(balance(&ledger, t, 1), fee_recipient_before + 10);
    assert_eq!(get_token_metadata(&ledger, t).unwrap().total_supply, 1500);
    let spent = get_transaction(&ledger, 3).unwrap();
    assert_eq!(spent.op, 4);
    assert_eq!(spent.from_key, account(2).to_key());
    assert_eq!(spent.to_key, account(4).to_key());
    assert_eq!(spent.spender_key, account(3).to_key());
    assert!(spent.has_spender());
}

#[test]
fn allowance_changed() {
    let (mut ledger, t) = ledger_with_token(1000);
    let first = approve_internal(
        &mut ledger, NOW, t, account(2), account(3), 300, None, None, None, None, None,
    );
    assert_eq!(first, Ok(1));
    let second = approve_internal(
        &mut ledger, NOW + 1, t, account(2), account(3), 50, None, Some(0), None, None, None,
    );
    assert_eq!(second, Err(ApproveError::AllowanceChanged { current_allowance: 300 }));
    assert_eq!(get_allowance(&ledger, t, account(2).to_key(), account(3).to_key()), 300);
    let third = approve_internal(
        &mut ledger, NOW + 2, t, account(2), account(3), 50, None, Some(300), None, None, None,
    );
    assert_eq!(third, Ok(2));
    assert_eq!(get_allowance(&ledger, t, account(2).to_key(), account(3).to_key()), 50);
}

#[test]
fn expired_allowance() {
    let (mut ledger, t) = ledger_with_token(1000);
    let granted = approve_internal(
        &mut ledger,
        NOW,
        t,
        account(1),
        account(3),
        100,
        Some(NOW + SECOND),
        None,
        None,
        None,
        None,
    );
    assert_eq!(granted, Ok(1));
    assert_eq!(
        state::get_allowance_expiry(&ledger, t, account(1).to_key(), account(3).to_key()),
        Some(NOW + SECOND)
    );
    let late = transfer_from_internal(
        &mut ledger,
        NOW + 2 * SECOND,
        t,
        account(3),
        account(1),
        account(4),
        50,
        None,
        None,
        None,
    );
    assert_eq!(late, Err(generic(403, "Allowance expired")));
    assert_eq!(balance(&ledger, t, 1), 1000);
    assert_eq!(balance(&ledger, t, 4), 0);
    // Just before the expiry the allowance still holds.
    let in_time = transfer_from_internal(
        &mut ledger,
        NOW + SECOND - 1,
        t,
        account(3),
        account(1),
        account(4),
        50,
        None,
        None,
        None,
    );
    assert_eq!(in_time, Ok(2));
    assert_eq!(balance(&ledger, t, 4), 50);
    // An expiry that is not after the time of the approval is refused.
    let stale = approve_internal(
        &mut ledger, NOW, t, account(1), account(5), 100, Some(NOW), None, None, None, None,
    );
    assert_eq!(stale, Err(ApproveError::Expired { ledger_time: NOW }));
}

#[test]
fn duplicate_is_refused() {
    let (mut ledger, t) = ledger_with_token(1000);
    for i in 0..4u8 {
        let r = transfer(&mut ledger, &principal(1), NOW + i as u64, transfer_args(t, account(2), 1));
        assert_eq!(r, Ok(1 + i as u64));
    }
    let stamp = NOW + 100;
    let memo = b"memo".to_vec();
    let request = |memo: Vec<u8>, at: u64| Icrc151TransferArgs {
        token_id: t,
        from_subaccount: None,
        to: account(2),
        amount: 50,
        fee: None,
        memo: Some(memo),
        created_at_time: Some(at),
    };
    assert_eq!(transfer(&mut ledger, &principal(1), NOW, request(memo.clone(), stamp)), Ok(5));
    let before = balance(&ledger, t, 1);
    assert_eq!(
        transfer(&mut ledger, &principal(1), NOW, request(memo.clone(), stamp)),
        Err(TransferError::Duplicate { duplicate_of: 5 })
    );
    assert_eq!(balance(&ledger, t, 1), before);
    assert_eq!(get_transaction_count(&ledger), 6);
    // One byte of the memo changed, or the time: no duplicate.
    assert_eq!(transfer(&mut ledger, &principal(1), NOW, request(b"memp".to_vec(), stamp)), Ok(6));
    assert_eq!(transfer(&mut ledger, &principal(1), NOW, request(memo.clone(), stamp + 1)), Ok(7));
    assert_eq!(state::check_duplicate(
        &ledger,
        state::compute_dedup_key(&principal(1), t, stamp, Some(&memo))
    ), Some(5));
}

#[test]
fn transfer_errors_each_with_its_input() {
    let (mut ledger, t) = ledger_with_token(1000);
    let me = principal(1);

    let zero_token = transfer(&mut ledger, &me, NOW, transfer_args([0u8; 32], account(2), 1));
    assert_eq!(zero_token, Err(generic(400, "Invalid token ID: Token ID cannot be all zeros")));

    let to_self = transfer(&mut ledger, &me, NOW, transfer_args(t, account(1), 1));
    assert_eq!(to_self, Err(generic(400, "Invalid account: Cannot transfer to same account")));

    let nothing = transfer(&mut ledger, &me, NOW, transfer_args(t, account(2), 0));
    assert_eq!(nothing, Err(generic(400, "Invalid amount: Amount must be greater than 0")));

    let unknown = transfer(&mut ledger, &me, NOW, transfer_args([7u8; 32], account(2), 1));
    assert_eq!(unknown, Err(generic(404, "Token not found")));

    let mut early = transfer_args(t, account(2), 1);
    early.created_at_time = Some(NOW + 300 * SECOND + 1);
    assert_eq!(
        transfer(&mut ledger, &me, NOW, early),
        Err(TransferError::CreatedInFuture { ledger_time: NOW })
    );
    let mut edge = transfer_args(t, account(2), 1);
    edge.created_at_time = Some(NOW + 300 * SECOND);
    assert_eq!(transfer(&mut ledger, &me, NOW, edge), Ok(1));

    let mut late = transfer_args(t, account(2), 1);
    late.created_at_time = Some(NOW - 600 * SECOND - 1);
    assert_eq!(transfer(&mut ledger, &me, NOW, late), Err(TransferError::TooOld));
    let mut old_edge = transfer_args(t, account(2), 1);
    old_edge.created_at_time = Some(NOW - 600 * SECOND);
    assert_eq!(transfer(&mut ledger, &me, NOW, old_edge), Ok(2));

    let poor = transfer(&mut ledger, &principal(3), NOW, transfer_args(t, account(2), 1));
    assert_eq!(poor, Err(TransferError::InsufficientFunds { balance: 0 }));

    let too_much = transfer(&mut ledger, &me, NOW, transfer_args(t, account(2), 1000));
    assert_eq!(too_much, Err(TransferError::InsufficientFunds { balance: 1000 - 2 }));

    let huge = transfer(&mut ledger, &me, NOW, transfer_args(t, account(2), u128::MAX / 2 + 1));
    assert_eq!(
        huge,
        Err(generic(400, "Invalid amount: Amount too large, may cause overflow"))
    );
    assert_eq!(get_transaction_count(&ledger), 3);
}

#[test]
fn transfer_to_the_fee_recipient_and_from_it() {
    let (mut ledger, t) = ledger_with_token(1000);
    assert_eq!(
        transfer(&mut ledger, &principal(1), NOW, transfer_args(t, account(2), 500)),
        Ok(1)
    );
    assert_eq!(balance(&ledger, t, 1), 500);
    assert_eq!(balance(&ledger, t, 2), 500);
    // Account 2 pays amount and fee to the fee recipient.
    assert_eq!(
        transfer(&mut ledger, &principal(2), NOW, transfer_args(t, account(1), 490)),
        Ok(2)
    );
    assert_eq!(balance(&ledger, t, 1), 1000);
    assert_eq!(balance(&ledger, t, 2), 0);
    assert_eq!(get_holder_count(&ledger, t), 1);
}

#[test]
fn transfer_internal_with_subaccounts_and_long_memo() {
    let (mut ledger, t) = ledger_with_token(1000);
    let sub = Account { owner: principal(1), subaccount: Some(vec![7u8; 32]) };
    let memo = vec![5u8; 40];
    let r = transfer_internal(
        &mut ledger, NOW, t, account(1), sub.clone(), 100, None, Some(&memo), None,
    );
    assert_eq!(r, Ok(1));
    assert_eq!(get_balance(&ledger, t, sub.to_key()), 100);
    assert_eq!(balance(&ledger, t, 1), 900);
    assert_eq!(state::get_extended_memo(&ledger, 1), Some(memo.clone()));
    assert_eq!(state::get_extended_memo(&ledger, 0), None);
    let tx = get_transaction(&ledger, 1).unwrap();
    assert!(tx.has_extended_memo());
    assert_eq!(&tx.memo[..], &memo[..32]);
    let short = transfer_internal(
        &mut ledger, NOW + 1, t, account(1), sub, 100, None, Some(&memo[..32]), None,
    );
    assert_eq!(short, Ok(2));
    assert_eq!(state::get_extended_memo(&ledger, 2), None);
}

#[test]
fn mint_and_burn_change_the_supply_by_the_amount() {
    let (mut ledger, t) = ledger_with_token(1000);
    assert_eq!(mint_tokens(&mut ledger, &principal(1), NOW + 1, t, account(2), 250, None), Ok(1));
    assert_eq!(get_token_metadata(&ledger, t).unwrap().total_supply, 1250);
    assert_eq!(balance(&ledger, t, 2), 250);
    assert_eq!(get_holder_count(&ledger, t), 2);

    assert_eq!(burn_tokens(&mut ledger, &principal(2), NOW + 2, t, 50, None), Ok(2));
    assert_eq!(get_token_metadata(&ledger, t).unwrap().total_supply, 1200);
    assert_eq!(balance(&ledger, t, 2), 200);
    // A burn charges no fee.
    assert_eq!(balance(&ledger, t, 1), 1000);
    let burn = get_transaction(&ledger, 2).unwrap();
    assert_eq!(burn.op, 2);
    assert_eq!(burn.get_fee(), 0);
    assert_eq!(burn.to_key, [0u8; 32]);

    assert_eq!(
        burn_tokens_from(&mut ledger, &principal(1), NOW + 3, t, account(2), 200, None),
        Ok(3)
    );
    assert_eq!(balance(&ledger, t, 2), 0);
    assert_eq!(get_holder_count(&ledger, t), 1);
    assert_eq!(get_token_metadata(&ledger, t).unwrap().total_supply, 1000);
}

#[test]
fn mint_and_burn_errors() {
    let (mut ledger, t) = ledger_with_token(1000);
    let c = principal(1);
    assert_eq!(
        mint_tokens(&mut ledger, &principal(2), NOW, t, account(2), 1, None),
        Err("Only controller can perform this operation".to_string())
    );
    assert_eq!(
        burn_tokens_from(&mut ledger, &principal(2), NOW, t, account(1), 1, None),
        Err("Only controller can call this method".to_string())
    );
    assert_eq!(
        mint_tokens(&mut ledger, &c, NOW, [0u8; 32], account(2), 1, None),
        Err("Invalid token ID: Token ID cannot be all zeros".to_string())
    );
    assert_eq!(
        mint_tokens(&mut ledger, &c, NOW, t, account(2), 0, None),
        Err("Amount must be greater than 0".to_string())
    );
    assert_eq!(
        mint_tokens(&mut ledger, &c, NOW, t, account(2), u128::MAX, None),
        Err("Invalid amount: Amount too large, may cause overflow".to_string())
    );
    assert_eq!(
        mint_tokens(&mut ledger, &c, NOW, [3u8; 32], account(2), 1, None),
        Err("Token not found".to_string())
    );
    // The initial supply was minted by the controller at that time, without
    // a memo.
    assert_eq!(
        mint_tokens(&mut ledger, &c, CREATED, t, account(2), 1, None),
        Err("Duplicate mint transaction, original tx_index: 0".to_string())
    );
    assert_eq!(
        burn_tokens(&mut ledger, &principal(2), NOW, t, 5, None),
        Err("Insufficient balance: 0 < 5".to_string())
    );
    assert_eq!(burn_tokens(&mut ledger, &c, NOW + 1, t, 5, Some(b"m".to_vec())), Ok(1));
    assert_eq!(
        burn_tokens(&mut ledger, &c, NOW + 1, t, 5, Some(b"m".to_vec())),
        Err("Duplicate burn transaction, original tx_index: 1".to_string())
    );
    assert_eq!(get_transaction_count(&ledger), 2);
    assert_eq!(get_token_metadata(&ledger, t).unwrap().total_supply, 995);
}

#[test]
fn transfer_from_errors() {
    let (mut ledger, t) = ledger_with_token(1000);
    let none = transfer_from_internal(
        &mut ledger, NOW, t, account(3), account(1), account(4), 50, None, None, None,
    );
    assert_eq!(none, Err(TransferError::InsufficientFunds { balance: 0 }));
    assert_eq!(
        approve_internal(
            &mut ledger, NOW, t, account(1), account(3), 2000, None, None, None, None, None
        ),
        Ok(1)
    );
    let more_than_held = transfer_from_internal(
        &mut ledger, NOW, t, account(3), account(1), account(4), 1500, None, None, None,
    );
    assert_eq!(more_than_held, Err(TransferError::InsufficientFunds { balance: 1000 }));
    let zero = transfer_from_internal(
        &mut ledger, NOW, t, account(3), account(1), account(4), 0, None, None, None,
    );
    assert_eq!(zero, Err(generic(400, "Amount must be greater than 0")));
    let wrong_fee = transfer_from_internal(
        &mut ledger, NOW, t, account(3), account(1), account(4), 10, Some(11), None, None,
    );
    assert_eq!(wrong_fee, Err(TransferError::BadFee { expected_fee: 10 }));
    let anonymous = Account { owner: Principal::anonymous().as_slice().to_vec(), subaccount: None };
    let by_nobody = transfer_from_internal(
        &mut ledger, NOW, t, anonymous, account(1), account(4), 10, None, None, None,
    );
    assert_eq!(
        by_nobody,
        Err(generic(400, "Invalid account: Anonymous principal not allowed"))
    );
    // The whole allowance can be spent; its entry is then gone.
    assert_eq!(
        approve_internal(
            &mut ledger, NOW + 1, t, account(1), account(3), 110, None, None, None, None, None
        ),
        Ok(2)
    );
    let all = transfer_from_internal(
        &mut ledger, NOW + 2, t, account(3), account(1), account(4), 100, None, None, None,
    );
    assert_eq!(all, Ok(3));
    assert_eq!(get_allowance(&ledger, t, account(1).to_key(), account(3).to_key()), 0);
    assert_eq!(balance(&ledger, t, 4), 100);
    assert_eq!(balance(&ledger, t, 1), 900);
}

#[test]
fn approve_errors() {
    let (mut ledger, t) = ledger_with_token(1000);
    let to_self = approve_internal(
        &mut ledger, NOW, t, account(1), account(1), 5, None, None, None, None, None,
    );
    assert_eq!(
        to_self,
        Err(ApproveError::GenericError {
            error_code: 400,
            message: "Invalid account: Cannot approve spending to self".to_string()
        })
    );
    let unknown = approve_internal(
        &mut ledger, NOW, [5u8; 32], account(1), account(2), 5, None, None, None, None, None,
    );
    assert_eq!(
        unknown,
        Err(ApproveError::GenericError { error_code: 404, message: "Token not found".to_string() })
    );
    let wrong_fee = approve_internal(
        &mut ledger, NOW, t, account(1), account(2), 5, None, None, Some(9), None, None,
    );
    assert_eq!(wrong_fee, Err(ApproveError::BadFee { expected_fee: 10 }));
    let early = approve_internal(
        &mut ledger, NOW, t, account(1), account(2), 5, None, None, None, None,
        Some(NOW + 301 * SECOND),
    );
    assert_eq!(early, Err(ApproveError::CreatedInFuture { ledger_time: NOW }));
    let late = approve_internal(
        &mut ledger, NOW, t, account(1), account(2), 5, None, None, None, None,
        Some(NOW - 601 * SECOND),
    );
    assert_eq!(late, Err(ApproveError::TooOld));
    // An allowance of zero is allowed, and is not stored.
    let zero = approve_internal(
        &mut ledger, NOW, t, account(1), account(2), 0, None, None, None, None, None,
    );
    assert_eq!(zero, Ok(1));
    let again = approve_internal(
        &mut ledger, NOW, t, account(1), account(2), 0, None, None, None, None, None,
    );
    assert_eq!(again, Err(ApproveError::Duplicate { duplicate_of: 1 }));
    assert_eq!(get_transaction_count(&ledger), 2);
}

#[test]
fn create_token_rules() {
    let mut ledger = Ledger::open().unwrap();
    init_state(&mut ledger, &principal(1));
    let create = |ledger: &mut Ledger, caller: u8, name: &str, symbol: &str, decimals: u8| {
        create_token(
            ledger,
            &principal(caller),
            &ledger_principal(),
            NOW,
            name.to_string(),
            symbol.to_string(),
            decimals,
            None,
            None,
            None,
            None,
        )
    };
    assert_eq!(
        create(&mut ledger, 2, "Token", "TKN", 8),
        Err("Only controller can perform this operation".to_string())
    );
    assert_eq!(create(&mut ledger, 1, "", "TKN", 8), Err("Invalid token name length".to_string()));
    assert_eq!(
        create(&mut ledger, 1, &"n".repeat(256), "TKN", 8),
        Err("Invalid token name length".to_string())
    );
    assert_eq!(
        create(&mut ledger, 1, "Token", "", 8),
        Err("Invalid token symbol length".to_string())
    );
    assert_eq!(
        create(&mut ledger, 1, "Token", &"S".repeat(33), 8),
        Err("Invalid token symbol length".to_string())
    );
    assert_eq!(
        create(&mut ledger, 1, "Token", "TKN", 19),
        Err("Decimals cannot exceed 18".to_string())
    );
    assert!(state::list_token_ids(&ledger).is_empty());

    let first = create(&mut ledger, 1, &"n".repeat(255), &"S".repeat(32), 18).unwrap();
    assert_eq!(first, derive_token_id(&ledger_principal(), 0));
    let second = create(&mut ledger, 1, "Token", "TKN", 0).unwrap();
    assert_eq!(second, derive_token_id(&ledger_principal(), 1));
    assert_ne!(first, second);
    let metadata = get_token_metadata(&ledger, second).unwrap();
    assert_eq!(metadata.fee, 10_000);
    assert_eq!(metadata.total_supply, 0);
    assert_eq!(metadata.fee_recipient, account(1));
    assert_eq!(metadata.controller, principal(1));
    assert_eq!(metadata.created_at, NOW);
    assert_eq!(get_transaction_count(&ledger), 0);
    let mut listed = state::list_token_ids(&ledger);
    let mut expected = vec![first, second];
    expected.sort();
    assert_eq!(listed, expected);
    listed.sort();
    assert_eq!(listed, expected);

    assert_eq!(set_token_fee(&mut ledger, &principal(1), second, 7), Ok(()));
    assert_eq!(get_token_metadata(&ledger, second).unwrap().fee, 7);
    assert_eq!(
        set_token_fee(&mut ledger, &principal(2), second, 7),
        Err("Only controller can perform this operation".to_string())
    );
    assert_eq!(
        set_token_fee(&mut ledger, &principal(1), [1u8; 32], 7),
        Err("Token not found".to_string())
    );
}

#[test]
fn controllers_are_added_and_removed_but_not_the_last() {
    let mut ledger = Ledger::open().unwrap();
    init_state(&mut ledger, &principal(1));
    assert_eq!(state::get_controller(&ledger), Some(principal(1)));
    assert_eq!(list_controllers(&ledger), vec![principal(1)]);
    assert!(state::is_controller(&ledger, &principal(1)));
    assert!(!state::is_controller(&ledger, &principal(2)));
    assert!(!state::is_controller(&ledger, &[]));

    assert_eq!(
        remove_controller(&mut ledger, &principal(1), &principal(1)),
        Err("Cannot remove the last controller".to_string())
    );
    assert_eq!(
        add_controller(&mut ledger, &principal(2), &principal(2)),
        Err("Only controller can perform this operation".to_string())
    );
    assert_eq!(add_controller(&mut ledger, &principal(1), &principal(2)), Ok(()));
    assert_eq!(
        add_controller(&mut ledger, &principal(1), &[]),
        Err("Invalid principal length: 0".to_string())
    );
    assert_eq!(list_controllers(&ledger), vec![principal(1), principal(2)]);
    assert_eq!(remove_controller(&mut ledger, &principal(2), &principal(1)), Ok(()));
    assert_eq!(list_controllers(&ledger), vec![principal(2)]);
    assert_eq!(
        remove_controller(&mut ledger, &principal(2), &principal(2)),
        Err("Cannot remove the last controller".to_string())
    );
    // Removing one that is no controller changes nothing.
    assert_eq!(remove_controller(&mut ledger, &principal(2), &principal(5)), Ok(()));
    assert_eq!(list_controllers(&ledger), vec![principal(2)]);

    assert_eq!(set_controller(&mut ledger, &principal(2), &principal(3)), Ok(()));
    assert_eq!(state::get_controller(&ledger), Some(principal(3)));
    assert_eq!(list_controllers(&ledger), vec![principal(2), principal(3)]);
    assert_eq!(
        set_controller(&mut ledger, &principal(1), &principal(4)),
        Err("Only controller can perform this operation".to_string())
    );
    assert_eq!(state::only_controller(&ledger, &principal(3)), Ok(()));
    assert_eq!(
        state::only_controller(&ledger, &principal(1)),
        Err("Only controller can call this method".to_string())
    );
}

#[test]
fn books_stay_balanced_over_a_run_of_writes() {
    let (mut ledger, t) = ledger_with_token(1_000_000);
    let mut now = NOW;
    for round in 0..20u8 {
        now += 1;
        let from = 1 + round % 4;
        let to = 1 + (round + 1) % 4;
        let _ = transfer(&mut ledger, &principal(from), now, transfer_args(t, account(to), 1000 + round as u128));
        now += 1;
        let _ = mint_tokens(&mut ledger, &principal(1), now, t, account(to), round as u128, None);
        now += 1;
        let _ = burn_tokens(&mut ledger, &principal(from), now, t, 3, None);
    }
    let mut sum = 0u128;
    let mut holders = 0u64;
    for n in 1..=4u8 {
        let b = balance(&ledger, t, n);
        sum += b;
        if b > 0 {
            holders += 1;
        }
    }
    assert_eq!(sum, get_token_metadata(&ledger, t).unwrap().total_supply);
    assert_eq!(holders, get_holder_count(&ledger, t));
    assert_eq!(get_transaction_count(&ledger), get_global_tx_count(&ledger));
}

#[test]
fn overflows_are_refused_before_anything_is_written() {
    let (mut ledger, t) = ledger_with_token(1000);
    let c = principal(1);
    // A receiver whose balance cannot take the amount.
    state::set_balance(&mut ledger, t, account(2).to_key(), u128::MAX);
    let r = transfer(&mut ledger, &c, NOW, transfer_args(t, account(2), 5));
    assert_eq!(r, Err(generic(500, "Recipient balance overflow")));
    assert_eq!(balance(&ledger, t, 1), 1000);
    assert_eq!(
        mint_tokens(&mut ledger, &c, NOW, t, account(2), 1, None),
        Err("Balance overflow".to_string())
    );
    state::set_balance(&mut ledger, t, account(2).to_key(), 0);

    // A fee recipient whose balance cannot take the fee: account 1 is the
    // recipient, account 3 pays.
    state::set_balance(&mut ledger, t, account(3).to_key(), 100);
    state::set_balance(&mut ledger, t, account(1).to_key(), u128::MAX);
    let r = transfer(&mut ledger, &principal(3), NOW, transfer_args(t, account(4), 5));
    assert_eq!(r, Err(generic(500, "Fee recipient balance overflow")));
    assert_eq!(balance(&ledger, t, 3), 100);
    assert_eq!(balance(&ledger, t, 4), 0);
    let r = transfer_from_internal(
        &mut ledger, NOW, t, account(3), account(3), account(4), 5, None, None, None,
    );
    assert_eq!(r, Err(TransferError::InsufficientFunds { balance: 0 }));
    state::set_balance(&mut ledger, t, account(1).to_key(), 1000);

    // A fee that cannot be added to the amount.
    assert_eq!(set_token_fee(&mut ledger, &c, t, u128::MAX), Ok(()));
    let r = transfer(&mut ledger, &c, NOW, transfer_args(t, account(4), 5));
    assert_eq!(r, Err(generic(500, "Amount + fee overflow")));
    assert_eq!(set_token_fee(&mut ledger, &c, t, 0), Ok(()));

    // A supply that cannot take the amount, and one that is smaller than
    // what is burned.
    assert_eq!(state::update_total_supply(&mut ledger, t, u128::MAX - 1), Ok(()));
    assert_eq!(
        mint_tokens(&mut ledger, &c, NOW, t, account(4), 2, None),
        Err("Total supply overflow".to_string())
    );
    assert_eq!(state::update_total_supply(&mut ledger, t, 3), Ok(()));
    assert_eq!(
        burn_tokens(&mut ledger, &principal(3), NOW, t, 4, None),
        Err("Total supply underflow".to_string())
    );
    assert_eq!(balance(&ledger, t, 3), 100);
    assert_eq!(get_transaction_count(&ledger), 1);
    assert_eq!(get_global_tx_count(&ledger), 1);
    // With no fee, no fee is recorded and nobody is credited.
    assert_eq!(transfer(&mut ledger, &principal(3), NOW, transfer_args(t, account(4), 5)), Ok(1));
    assert_eq!(balance(&ledger, t, 3), 95);
    assert_eq!(balance(&ledger, t, 4), 5);
    assert_eq!(balance(&ledger, t, 1), 1000);
    assert!(!get_transaction(&ledger, 1).unwrap().has_fee());
}
