use candid::Principal;
use icrc151::operations::{create_token, transfer_internal};
use icrc151::queries::{
    get_allowance, get_allowance_details, get_balance, get_balances_for, get_holder_count,
    get_info, get_storage_stats, get_token_metadata, get_total_supply, get_transaction_count,
    get_transactions, health_check, list_tokens, QueryError,
};
use icrc151::state::{init_state, Ledger};
use icrc151::types::{Account, TokenId};

const NOW: u64 = 1_700_000_000_000_000_000;

fn account_of(principal: Principal) -> Account {
    Account { owner: principal.as_slice().to_vec(), subaccount: None }
}

fn principal(n: u8) -> Vec<u8> {
    vec![0, 0, 0, 0, 0, 0, 4, n]
}

fn account(n: u8) -> Account {
    Account { owner: principal(n), subaccount: None }
}

fn new_token(ledger: &mut Ledger, supply: u128) -> TokenId {
    create_token(
        ledger,
        &principal(1),
        &[9, 9, 9],
        NOW - 1000,
        "Token".to_string(),
        "TKN".to_string(),
        8,
        Some(supply),
        Some(10),
        Some("logo".to_string()),
        None,
    )
    .unwrap()
}

#[test]
fn test_balance_queries() {
    let ledger = Ledger::open().unwrap();
    let principal_bytes = vec![0x00, 0x00, 0x00, 0x00, 0x00, 0x00, 0x04, 0xD2];
    let account = account_of(Principal::from_slice(&principal_bytes));

    let token_id = [1u8; 32];
    assert_eq!(get_balance(&ledger, token_id, account.clone()).unwrap(), 0);
}

#[test]
fn test_allowance_queries() {
    let ledger = Ledger::open().unwrap();
    let principal_bytes1 = vec![0x00, 0x00, 0x00, 0x00, 0x00, 0x00, 0x04, 0xD2];
    let principal_bytes2 = vec![0x00, 0x00, 0x00, 0x00, 0x00, 0x00, 0x04, 0xD3];

    let owner = account_of(Principal::from_slice(&principal_bytes1));
    let spender = account_of(Principal::from_slice(&principal_bytes2));

    let token_id = [1u8; 32];
    assert_eq!(get_allowance(&ledger, token_id, owner, spender).unwrap(), 0);
}

#[test]
fn test_validation_errors() {
    let ledger = Ledger::open().unwrap();
    let zero_token = [0u8; 32];
    let valid_account =
        account_of(Principal::from_slice(&[0x00, 0x00, 0x00, 0x00, 0x00, 0x00, 0x04, 0xD2]));

    assert!(get_balance(&ledger, zero_token, valid_account).is_err());
}

#[test]
fn queries_on_a_token() {
    let mut ledger = Ledger::open().unwrap();
    init_state(&mut ledger, &principal(1));
    let t = new_token(&mut ledger, 1000);
    assert_eq!(get_balance(&ledger, t, account(1)), Ok(1000));
    assert_eq!(get_total_supply(&ledger, t), Ok(1000));
    assert_eq!(get_holder_count(&ledger, t), Ok(1));
    let metadata = get_token_metadata(&ledger, t).unwrap();
    assert_eq!(metadata.name, "Token");
    assert_eq!(metadata.symbol, "TKN");
    assert_eq!(metadata.decimals, 8);
    assert_eq!(metadata.total_supply, 1000);
    assert_eq!(metadata.fee, 10);
    assert_eq!(metadata.logo, Some("logo".to_string()));
    assert_eq!(metadata.description, None);

    assert_eq!(get_total_supply(&ledger, [3u8; 32]), Err(QueryError::TokenNotFound));
    assert_eq!(get_holder_count(&ledger, [3u8; 32]), Err(QueryError::TokenNotFound));
    assert_eq!(get_token_metadata(&ledger, [3u8; 32]).unwrap_err(), QueryError::TokenNotFound);
    assert_eq!(
        get_total_supply(&ledger, [0u8; 32]),
        Err(QueryError::InvalidInput("Invalid token ID: Token ID cannot be all zeros".to_string()))
    );
    let bad = Account { owner: vec![], subaccount: None };
    assert_eq!(
        get_balance(&ledger, t, bad.clone()),
        Err(QueryError::InvalidInput(
            "Invalid account: Principal length 0 not in range 1-29".to_string()
        ))
    );
    assert!(get_allowance(&ledger, t, account(1), bad.clone()).is_err());
    assert!(get_allowance_details(&ledger, t, bad, account(1)).is_err());
    let details = get_allowance_details(&ledger, t, account(1), account(2)).unwrap();
    assert_eq!(details.owner, account(1));
    assert_eq!(details.spender, account(2));
    assert_eq!(details.allowance, 0);
    assert_eq!(details.expires_at, None);
}

#[test]
fn pages_of_the_log() {
    let mut ledger = Ledger::open().unwrap();
    init_state(&mut ledger, &principal(1));
    let a = new_token(&mut ledger, 100_000);
    let b = new_token(&mut ledger, 100_000);
    assert_ne!(a, b);
    // Records 0 and 1 are the two mints; then transfers of a and b in turn.
    for i in 0..10u64 {
        let t = if i % 2 == 0 { a } else { b };
        let r = transfer_internal(
            &mut ledger, NOW + 1 + i, t, account(1), account(2), 1 + i as u128, None, None, None,
        );
        assert_eq!(r, Ok(2 + i));
    }
    assert_eq!(get_transaction_count(&ledger), 12);
    assert_eq!(get_transactions(&ledger, None, None, None).unwrap().len(), 12);
    assert_eq!(get_transactions(&ledger, None, Some(12), None).unwrap().len(), 0);
    assert_eq!(get_transactions(&ledger, None, Some(100), Some(5)).unwrap().len(), 0);
    let page = get_transactions(&ledger, None, Some(3), Some(4)).unwrap();
    assert_eq!(page.len(), 4);
    assert_eq!(page[0].get_amount(), 2);
    assert_eq!(page[3].get_amount(), 5);
    assert_eq!(get_transactions(&ledger, None, Some(10), Some(50)).unwrap().len(), 2);
    assert_eq!(get_transactions(&ledger, None, None, Some(0)).unwrap().len(), 0);
    assert_eq!(get_transactions(&ledger, None, Some(0), Some(u64::MAX)).unwrap().len(), 12);
    let of_a = get_transactions(&ledger, Some(a), None, None).unwrap();
    assert_eq!(of_a.len(), 6);
    assert!(of_a.iter().all(|tx| tx.token_id == a));
    assert_eq!(of_a[0].op, 1);
    assert_eq!(of_a[1].get_amount(), 1);
    // The filter applies within the page.
    let of_b = get_transactions(&ledger, Some(b), Some(2), Some(3)).unwrap();
    assert_eq!(of_b.len(), 1);
    assert_eq!(of_b[0].get_amount(), 2);
    assert!(get_transactions(&ledger, Some([0u8; 32]), None, None).is_err());
}

#[test]
fn a_page_has_at_most_a_thousand_records() {
    let mut ledger = Ledger::open().unwrap();
    init_state(&mut ledger, &principal(1));
    let t = new_token(&mut ledger, 1_000_000);
    for i in 0..1004u64 {
        let r = transfer_internal(
            &mut ledger, NOW + 1 + i, t, account(1), account(2), 1, Some(0), None, None,
        );
        assert_eq!(r, Err(icrc151::operations::TransferError::BadFee { expected_fee: 10 }));
        let r = transfer_internal(
            &mut ledger, NOW + 1 + i, t, account(1), account(2), 1, None, None, None,
        );
        assert_eq!(r, Ok(1 + i));
    }
    assert_eq!(get_transaction_count(&ledger), 1005);
    assert_eq!(get_transactions(&ledger, None, None, None).unwrap().len(), 100);
    assert_eq!(get_transactions(&ledger, None, None, Some(5000)).unwrap().len(), 1000);
    assert_eq!(get_transactions(&ledger, None, Some(10), Some(1000)).unwrap().len(), 995);
}

#[test]
fn balances_of_an_account_over_all_tokens() {
    let mut ledger = Ledger::open().unwrap();
    init_state(&mut ledger, &principal(1));
    let a = new_token(&mut ledger, 1000);
    let b = new_token(&mut ledger, 0);
    let c = new_token(&mut ledger, 30);
    let mut listed = list_tokens(&ledger);
    let mut expected = vec![a, b, c];
    expected.sort();
    assert_eq!(listed, expected);
    listed.sort();
    let held = get_balances_for(&ledger, &principal(1), None);
    assert_eq!(held.len(), 2);
    let mut pairs: Vec<(TokenId, u128)> = held.iter().map(|h| (h.token_id, h.balance)).collect();
    let mut want = vec![(a, 1000u128), (c, 30u128)];
    want.sort();
    assert_eq!(pairs, want);
    pairs.sort();
    assert!(get_balances_for(&ledger, &principal(2), None).is_empty());
    assert!(get_balances_for(&ledger, &principal(1), Some(vec![1u8; 32])).is_empty());
}

#[test]
fn info_health_and_statistics() {
    let mut ledger = Ledger::open().unwrap();
    let before = get_info(&ledger);
    assert_eq!(before.controller, "None");
    assert_eq!(
        health_check(&ledger),
        "ICRC-151 Canister v0.1.0 - Controller: None - Transactions: 0"
    );
    init_state(&mut ledger, &principal(1));
    let t = new_token(&mut ledger, 1000);
    let memo = vec![1u8; 33];
    assert_eq!(
        transfer_internal(&mut ledger, NOW + 1, t, account(1), account(2), 5, None, Some(&memo), None),
        Ok(1)
    );
    let info = get_info(&ledger);
    assert_eq!(info.name, "ICRC-151 Multi-Token Ledger");
    assert_eq!(info.version, "0.1.0");
    assert_eq!(info.controller, Principal::from_slice(&principal(1)).to_text());
    assert_eq!(info.transaction_count, 2);
    assert_eq!(info.global_tx_count, 2);
    assert_eq!(
        health_check(&ledger),
        format!(
            "ICRC-151 Canister v0.1.0 - Controller: {:?} - Transactions: {}",
            Some(Principal::from_slice(&principal(1))),
            2
        )
    );
    let stats = get_storage_stats(&ledger);
    assert_eq!(stats.transaction_log_size, 2);
    assert_eq!(stats.dedup_map_size, 2);
    assert_eq!(stats.allowance_expiry_size, 0);
    assert_eq!(stats.extended_memos_size, 1);
    assert_eq!(stats.holder_counts_size, 1);
    assert_eq!(stats.token_count, 1);
    assert_eq!(stats.estimated_memory_bytes, 2 * 256 + 2 * 40 + 100 + 40);
}
