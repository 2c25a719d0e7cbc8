use icrc151::state::{
    add_transaction, book_appended, check_duplicate, get_allowance, get_allowance_expiry,
    get_allowance_expiry_size, get_balance, get_extended_memo, get_global_tx_count,
    get_holder_count, get_token_metadata, get_transaction, get_transaction_count,
    increment_tx_count, init_state, is_allowance_expired, list_token_ids, log_transaction,
    next_token_nonce, peek_token_nonce, register_token, set_allowance, set_allowance_expiry,
    set_balance, token_exists, update_token_fee, update_total_supply, Ledger,
};
use icrc151::transaction::StoredTxV1;
use icrc151::types::{Account, StoredTokenMetadata};

#[test]
fn test_controller_management() {}

#[test]
fn test_balance_operations() {
    let mut ledger = Ledger::open().unwrap();
    let token_id = [1u8; 32];
    let account_key = [2u8; 32];

    assert_eq!(get_balance(&ledger, token_id, account_key), 0);

    set_balance(&mut ledger, token_id, account_key, 1000);
    assert_eq!(get_balance(&ledger, token_id, account_key), 1000);

    set_balance(&mut ledger, token_id, account_key, 0);
    assert_eq!(get_balance(&ledger, token_id, account_key), 0);
}

#[test]
fn test_allowance_operations() {
    let mut ledger = Ledger::open().unwrap();
    let token_id = [1u8; 32];
    let owner_key = [2u8; 32];
    let spender_key = [3u8; 32];

    assert_eq!(get_allowance(&ledger, token_id, owner_key, spender_key), 0);

    set_allowance(&mut ledger, token_id, owner_key, spender_key, 500);
    assert_eq!(get_allowance(&ledger, token_id, owner_key, spender_key), 500);

    set_allowance(&mut ledger, token_id, owner_key, spender_key, 0);
    assert_eq!(get_allowance(&ledger, token_id, owner_key, spender_key), 0);
}

#[test]
fn registered_metadata_is_read_back() {
    let mut ledger = Ledger::open().unwrap();
    let token_id = [7u8; 32];
    let metadata = StoredTokenMetadata {
        name: "Token".to_string(),
        symbol: "TKN".to_string(),
        decimals: 8,
        total_supply: 12345,
        fee: 10,
        fee_recipient: Account { owner: vec![1, 2, 3], subaccount: Some(vec![9u8; 32]) },
        logo: None,
        description: Some("a token".to_string()),
        created_at: 1_700_000_000_000_000_000,
        controller: vec![1, 2, 3],
    };
    assert!(get_token_metadata(&ledger, token_id).is_none());
    register_token(&mut ledger, token_id, metadata);
    let read = get_token_metadata(&ledger, token_id).unwrap();
    assert_eq!(read.name, "Token");
    assert_eq!(read.symbol, "TKN");
    assert_eq!(read.decimals, 8);
    assert_eq!(read.total_supply, 12345);
    assert_eq!(read.fee, 10);
    assert_eq!(read.fee_recipient, Account { owner: vec![1, 2, 3], subaccount: Some(vec![9u8; 32]) });
    assert_eq!(read.logo, None);
    assert_eq!(read.description, Some("a token".to_string()));
    assert_eq!(read.created_at, 1_700_000_000_000_000_000);
    assert_eq!(read.controller, vec![1, 2, 3]);
}

#[test]
fn counters_start_at_zero_and_count_up() {
    let mut ledger = Ledger::open().unwrap();
    assert_eq!(get_global_tx_count(&ledger), 0);
    assert_eq!(peek_token_nonce(&ledger), 0);
    init_state(&mut ledger, &[1, 2, 3]);
    assert_eq!(get_global_tx_count(&ledger), 0);
    assert_eq!(next_token_nonce(&mut ledger), 0);
    assert_eq!(next_token_nonce(&mut ledger), 1);
    assert_eq!(peek_token_nonce(&ledger), 2);
    assert_eq!(increment_tx_count(&mut ledger), 1);
    assert_eq!(increment_tx_count(&mut ledger), 2);
    assert_eq!(get_global_tx_count(&ledger), 2);
}

#[test]
fn the_log_returns_what_was_appended() {
    let mut ledger = Ledger::open().unwrap();
    assert_eq!(get_transaction_count(&ledger), 0);
    assert!(get_transaction(&ledger, 0).is_none());
    let first = StoredTxV1::new_mint([1u8; 32], [2u8; 32], 5, 7, Some(b"a"));
    let second = StoredTxV1::new_burn([1u8; 32], [2u8; 32], 3, 8, None);
    assert_eq!(add_transaction(&mut ledger, first), Some(0));
    assert_eq!(add_transaction(&mut ledger, second), Some(1));
    assert_eq!(get_transaction_count(&ledger), 2);
    assert_eq!(get_transaction(&ledger, 0).unwrap().to_bytes(), first.to_bytes());
    assert_eq!(get_transaction(&ledger, 1).unwrap().to_bytes(), second.to_bytes());
    assert!(get_transaction(&ledger, 2).is_none());
}

#[test]
fn holder_count_follows_balances_from_and_to_zero() {
    let mut ledger = Ledger::open().unwrap();
    let t = [1u8; 32];
    set_balance(&mut ledger, t, [2u8; 32], 5);
    set_balance(&mut ledger, t, [3u8; 32], 5);
    set_balance(&mut ledger, t, [3u8; 32], 6);
    assert_eq!(get_holder_count(&ledger, t), 2);
    assert_eq!(get_holder_count(&ledger, [9u8; 32]), 0);
    set_balance(&mut ledger, t, [2u8; 32], 0);
    set_balance(&mut ledger, t, [2u8; 32], 0);
    assert_eq!(get_holder_count(&ledger, t), 1);
    set_balance(&mut ledger, t, [3u8; 32], 0);
    assert_eq!(get_holder_count(&ledger, t), 0);
    assert_eq!(icrc151::state::get_holder_counts_size(&ledger), 1);
}

#[test]
fn allowance_expiry_is_kept_apart_from_the_allowance() {
    let mut ledger = Ledger::open().unwrap();
    let (t, a, b) = ([1u8; 32], [2u8; 32], [3u8; 32]);
    assert_eq!(get_allowance_expiry(&ledger, t, a, b), None);
    set_allowance(&mut ledger, t, a, b, 10);
    set_allowance_expiry(&mut ledger, t, a, b, 1000);
    set_allowance(&mut ledger, t, a, b, 0);
    assert_eq!(get_allowance_expiry(&ledger, t, a, b), Some(1000));
    assert_eq!(get_allowance_expiry(&ledger, t, b, a), None);
    assert_eq!(get_allowance_expiry_size(&ledger), 1);
    assert!(!is_allowance_expired(None, u64::MAX));
    assert!(!is_allowance_expired(Some(1000), 999));
    assert!(is_allowance_expired(Some(1000), 1000));
    assert!(is_allowance_expired(Some(1000), 1001));
}

#[test]
fn token_metadata_is_updated_in_place() {
    let mut ledger = Ledger::open().unwrap();
    let token_id = [7u8; 32];
    assert_eq!(
        update_token_fee(&mut ledger, token_id, 1),
        Err("Token not found".to_string())
    );
    assert_eq!(
        update_total_supply(&mut ledger, token_id, 1),
        Err("Token not found in registry".to_string())
    );
    assert!(!token_exists(&ledger, token_id));
    let metadata = StoredTokenMetadata {
        name: "Token".to_string(),
        symbol: "TKN".to_string(),
        decimals: 8,
        total_supply: 0,
        fee: 10,
        fee_recipient: Account { owner: vec![1], subaccount: None },
        logo: Some("l".to_string()),
        description: None,
        created_at: 1,
        controller: vec![1],
    };
    register_token(&mut ledger, token_id, metadata);
    assert!(token_exists(&ledger, token_id));
    assert_eq!(update_token_fee(&mut ledger, token_id, 25), Ok(()));
    assert_eq!(update_total_supply(&mut ledger, token_id, 99), Ok(()));
    let read = get_token_metadata(&ledger, token_id).unwrap();
    assert_eq!(read.fee, 25);
    assert_eq!(read.total_supply, 99);
    assert_eq!(read.name, "Token");
    assert_eq!(read.logo, Some("l".to_string()));
    assert_eq!(list_token_ids(&ledger), vec![token_id]);
}

#[test]
fn a_new_ledger_is_empty_until_it_is_written() {
    let mut ledger = Ledger::open().unwrap();
    assert!(ledger.is_empty());
    set_allowance(&mut ledger, [1u8; 32], [2u8; 32], [3u8; 32], 0);
    assert!(ledger.is_empty());
    set_allowance(&mut ledger, [1u8; 32], [2u8; 32], [3u8; 32], 1);
    assert!(!ledger.is_empty());
    set_allowance(&mut ledger, [1u8; 32], [2u8; 32], [3u8; 32], 0);
    assert!(ledger.is_empty());
    init_state(&mut ledger, &[1]);
    assert!(!ledger.is_empty());

    let mut other = Ledger::open().unwrap();
    assert!(other.is_empty());
    assert_eq!(add_transaction(&mut other, StoredTxV1::new_mint([1u8; 32], [2u8; 32], 1, 1, None)), Some(0));
    assert!(!other.is_empty());
}

#[test]
fn booking_an_append_counts_it_and_records_its_fingerprint() {
    let mut ledger = Ledger::open().unwrap();
    let long = [1u8; 40];
    // An append that gave no index leaves nothing to book.
    assert_eq!(book_appended(&mut ledger, None, Some(&long), [7u8; 32]), None);
    assert!(ledger.is_empty());

    let tx = StoredTxV1::new_mint([1u8; 32], [2u8; 32], 5, 7, Some(&long));
    let appended = add_transaction(&mut ledger, tx);
    assert_eq!(appended, Some(0));
    assert_eq!(get_global_tx_count(&ledger), 0);
    assert_eq!(book_appended(&mut ledger, appended, Some(&long), [7u8; 32]), Some(0));
    assert_eq!(get_global_tx_count(&ledger), 1);
    assert_eq!(get_transaction_count(&ledger), 1);
    assert_eq!(check_duplicate(&ledger, [7u8; 32]), Some(0));
    assert_eq!(check_duplicate(&ledger, [8u8; 32]), None);
    assert_eq!(get_extended_memo(&ledger, 0), Some(long.to_vec()));

    // A memo of 32 bytes is not stored in full, and no memo neither.
    let short = [2u8; 32];
    let tx = StoredTxV1::new_burn([1u8; 32], [2u8; 32], 5, 8, Some(&short));
    assert_eq!(log_transaction(&mut ledger, tx, Some(&short), [8u8; 32]), Some(1));
    let tx = StoredTxV1::new_burn([1u8; 32], [2u8; 32], 5, 9, None);
    assert_eq!(log_transaction(&mut ledger, tx, None, [9u8; 32]), Some(2));
    assert_eq!(get_extended_memo(&ledger, 1), None);
    assert_eq!(get_extended_memo(&ledger, 2), None);
    assert_eq!(get_global_tx_count(&ledger), 3);
    assert_eq!(get_transaction_count(&ledger), 3);
    assert_eq!(check_duplicate(&ledger, [8u8; 32]), Some(1));
    assert_eq!(check_duplicate(&ledger, [9u8; 32]), Some(2));
    assert_eq!(get_transaction(&ledger, 2).unwrap().to_bytes(), tx.to_bytes());
}
