use icrc151::transaction::{
    StoredTxV1, FLAG_HAS_FEE, FLAG_HAS_MEMO, FLAG_HAS_SPENDER, FLAG_MEMO_EXTENDED,
};

#[test]
fn test_stored_tx_size() {
    assert_eq!(std::mem::size_of::<StoredTxV1>(), 256);
}

#[test]
fn test_transfer_creation() {
    let token_id = [1u8; 32];
    let from_key = [2u8; 32];
    let to_key = [3u8; 32];
    let amount = 1000u128;
    let fee = 10u128;
    let timestamp = 1693564800000000000u64;

    let tx = StoredTxV1::new_transfer(
        token_id,
        from_key,
        to_key,
        amount,
        fee,
        timestamp,
        Some(b"test memo"),
    );

    assert_eq!(tx.op, 0);
    assert_eq!(tx.flags, FLAG_HAS_FEE | FLAG_HAS_MEMO);
    assert_eq!(tx.token_id, token_id);
    assert_eq!(tx.from_key, from_key);
    assert_eq!(tx.to_key, to_key);
    assert_eq!(tx.get_amount(), amount);
    assert_eq!(tx.get_fee(), fee);
    assert_eq!(tx.get_timestamp(), timestamp);
    assert!(tx.has_fee());
    assert!(tx.has_memo());
    assert!(!tx.has_spender());
    assert!(!tx.has_extended_memo());
}

#[test]
fn test_serialization_roundtrip() {
    let token_id = [1u8; 32];
    let from_key = [2u8; 32];
    let to_key = [3u8; 32];

    let tx = StoredTxV1::new_transfer(
        token_id,
        from_key,
        to_key,
        1000,
        10,
        1693564800000000000,
        Some(b"test"),
    );

    let bytes = tx.to_bytes();
    let tx2 = StoredTxV1::from_bytes(&bytes);

    assert_eq!(tx.op, tx2.op);
    assert_eq!(tx.flags, tx2.flags);
    assert_eq!(tx.token_id, tx2.token_id);
    assert_eq!(tx.from_key, tx2.from_key);
    assert_eq!(tx.to_key, tx2.to_key);
    assert_eq!(tx.amount, tx2.amount);
    assert_eq!(tx.fee, tx2.fee);
    assert_eq!(tx.timestamp, tx2.timestamp);
    assert_eq!(tx.memo, tx2.memo);
}

#[test]
fn packed_record_has_the_documented_layout() {
    let mut memo = vec![0u8; 40];
    for (i, b) in memo.iter_mut().enumerate() {
        *b = i as u8 + 1;
    }
    let tx = StoredTxV1::new_transfer_from(
        [0x11; 32],
        [0x22; 32],
        [0x33; 32],
        [0x44; 32],
        0x0102_0304_0506_0708_090a_0b0c_0d0e_0f10,
        0x2122,
        0x3132_3334_3536_3738,
        Some(&memo),
    );
    let bytes = tx.to_bytes();
    assert_eq!(bytes[0], 4);
    assert_eq!(bytes[1], FLAG_HAS_FEE | FLAG_HAS_MEMO | FLAG_HAS_SPENDER | FLAG_MEMO_EXTENDED);
    assert_eq!(&bytes[2..34], &[0x11u8; 32][..]);
    assert_eq!(&bytes[34..66], &[0x22u8; 32][..]);
    assert_eq!(&bytes[66..98], &[0x33u8; 32][..]);
    assert_eq!(&bytes[98..130], &[0x44u8; 32][..]);
    assert_eq!(
        &bytes[130..146],
        &[0x10u8, 0x0f, 0x0e, 0x0d, 0x0c, 0x0b, 0x0a, 0x09, 0x08, 0x07, 0x06, 0x05, 0x04, 0x03, 0x02, 0x01][..]
    );
    assert_eq!(&bytes[146..148], &[0x22u8, 0x21][..]);
    assert_eq!(&bytes[148..162], &[0u8; 14][..]);
    assert_eq!(&bytes[162..170], &[0x38u8, 0x37, 0x36, 0x35, 0x34, 0x33, 0x32, 0x31][..]);
    assert_eq!(&bytes[170..202], &memo[..32]);
    assert_eq!(&bytes[202..256], &[0u8; 54][..]);
}

#[test]
fn each_kind_of_record_has_its_operation_and_flags() {
    let t = [1u8; 32];
    let a = [2u8; 32];
    let b = [3u8; 32];
    let zero = [0u8; 32];

    let mint = StoredTxV1::new_mint(t, b, 5, 7, None);
    assert_eq!(mint.op, 1);
    assert_eq!(mint.flags, 0);
    assert_eq!(mint.from_key, zero);
    assert_eq!(mint.to_key, b);
    assert_eq!(mint.get_fee(), 0);
    assert_eq!(mint.memo, [0u8; 32]);

    let burn = StoredTxV1::new_burn(t, a, 5, 7, Some(b"x"));
    assert_eq!(burn.op, 2);
    assert_eq!(burn.flags, FLAG_HAS_MEMO);
    assert_eq!(burn.from_key, a);
    assert_eq!(burn.to_key, zero);
    assert_eq!(burn.get_fee(), 0);
    assert_eq!(burn.memo[0], b'x');
    assert_eq!(&burn.memo[1..], &[0u8; 31][..]);

    let approve = StoredTxV1::new_approve(t, a, b, 5, 0, 7, None);
    assert_eq!(approve.op, 3);
    assert_eq!(approve.flags, FLAG_HAS_SPENDER);
    assert_eq!(approve.from_key, a);
    assert_eq!(approve.to_key, zero);
    assert_eq!(approve.spender_key, b);
    assert!(approve.has_spender());
    assert!(!approve.has_fee());

    let transfer = StoredTxV1::new_transfer(t, a, b, 5, 0, 7, Some(&[9u8; 33]));
    assert_eq!(transfer.op, 0);
    assert_eq!(transfer.flags, FLAG_HAS_MEMO | FLAG_MEMO_EXTENDED);
    assert_eq!(transfer.spender_key, zero);
    assert!(transfer.has_extended_memo());
    assert_eq!(transfer.memo, [9u8; 32]);

    let exact = StoredTxV1::new_transfer(t, a, b, 5, 1, 7, Some(&[9u8; 32]));
    assert_eq!(exact.flags, FLAG_HAS_FEE | FLAG_HAS_MEMO);
    assert!(!exact.has_extended_memo());
}

#[test]
fn unpacking_any_bytes_and_packing_again_gives_the_bytes() {
    let mut bytes = [0u8; 256];
    for (i, b) in bytes.iter_mut().enumerate() {
        *b = (i * 7 + 3) as u8;
    }
    let tx = StoredTxV1::from_bytes(&bytes);
    assert_eq!(tx.op, 3);
    assert_eq!(tx.flags, 10);
    assert_eq!(tx.to_bytes(), bytes);
}
