use candid::Principal;
use icrc151::state::compute_dedup_key;
use icrc151::types::{
    derive_token_id, encode_account_token_key, encode_allowance_expiry_key, encode_archive_key,
    encode_token_account_key, encode_tx_index_key, hash_allowance_key, hash_balance_key, Account,
    StoredPrincipal,
};
use sha2::{Digest, Sha256};

fn digest(parts: &[&[u8]]) -> [u8; 32] {
    let mut hasher = Sha256::new();
    for p in parts {
        hasher.update(p);
    }
    hasher.finalize().into()
}

#[test]
fn account_key_is_the_digest_of_domain_owner_and_subaccount() {
    let owner = Principal::from_slice(&[0, 0, 0, 0, 0, 0, 4, 0xD2]);
    let plain = Account { owner: owner.as_slice().to_vec(), subaccount: None };
    assert_eq!(plain.to_key(), digest(&[b"icrc151:account:v1", owner.as_slice(), &[0u8; 32]]));
    let with_sub = Account { owner: owner.as_slice().to_vec(), subaccount: Some(vec![7u8; 32]) };
    assert_eq!(with_sub.to_key(), digest(&[b"icrc151:account:v1", owner.as_slice(), &[7u8; 32]]));
    assert_ne!(plain.to_key(), with_sub.to_key());
    let zero_sub = Account { owner: owner.as_slice().to_vec(), subaccount: Some(vec![0u8; 32]) };
    assert_eq!(plain.to_key(), zero_sub.to_key());
    assert!(!plain.same_as(&zero_sub));
    assert!(plain.same_as(&plain.duplicate()));
    assert!(!plain.same_as(&with_sub));
}

#[test]
fn derived_keys_are_domain_separated_digests() {
    let t = [1u8; 32];
    let a = [2u8; 32];
    let b = [3u8; 32];
    assert_eq!(hash_balance_key(t, a), digest(&[b"icrc151:balance:v1", &t, &a]));
    assert_eq!(hash_allowance_key(t, a, b), digest(&[b"icrc151:allowance:v1", &t, &a, &b]));
    assert_ne!(hash_allowance_key(t, a, b), hash_allowance_key(t, b, a));
    assert_eq!(
        derive_token_id(&[9, 8, 7], 0x0102030405060708),
        digest(&[b"icrc151:token:v1", &[9, 8, 7], &[1, 2, 3, 4, 5, 6, 7, 8]])
    );
    assert_eq!(
        compute_dedup_key(&[5, 5], t, 0x1122334455667788, Some(b"memo")),
        digest(&[
            b"icrc151:dedup:v1",
            &[5, 5],
            &t,
            &[0x11, 0x22, 0x33, 0x44, 0x55, 0x66, 0x77, 0x88],
            b"memo"
        ])
    );
    assert_eq!(
        compute_dedup_key(&[5, 5], t, 1, None),
        digest(&[b"icrc151:dedup:v1", &[5, 5], &t, &[0, 0, 0, 0, 0, 0, 0, 1]])
    );
    assert_eq!(
        compute_dedup_key(&[5, 5], t, 1, None),
        compute_dedup_key(&[5, 5], t, 1, Some(b""))
    );
}

#[test]
fn composite_keys_have_their_layout() {
    let t = [1u8; 32];
    let a = [2u8; 32];
    let key = encode_tx_index_key(t, 0x0102030405060708);
    assert_eq!(&key[0..4], b"txl/");
    assert_eq!(&key[4..36], &t);
    assert_eq!(&key[36..44], &[1, 2, 3, 4, 5, 6, 7, 8]);
    let key = encode_archive_key(258);
    assert_eq!(&key[0..4], b"arc/");
    assert_eq!(&key[4..12], &[0, 0, 0, 0, 0, 0, 1, 2]);
    let key = encode_token_account_key(t, a);
    assert_eq!(&key[0..32], &t);
    assert_eq!(&key[32..64], &a);
    let key = encode_account_token_key(a, t);
    assert_eq!(&key[0..32], &a);
    assert_eq!(&key[32..64], &t);
    let key = encode_allowance_expiry_key(u64::MAX - 1, a);
    assert_eq!(&key[0..8], &[0xff, 0xff, 0xff, 0xff, 0xff, 0xff, 0xff, 0xfe]);
    assert_eq!(&key[8..40], &a);
}

#[test]
fn stored_principal_round_trips() {
    let p = Principal::from_slice(&[1, 2, 3]);
    let stored = StoredPrincipal::from_principal(p.as_slice()).unwrap();
    assert_eq!(stored.len, 3);
    assert_eq!(&stored.bytes[..3], &[1, 2, 3]);
    assert_eq!(&stored.bytes[3..], &[0u8; 26]);
    assert_eq!(stored.to_principal(), Ok(vec![1, 2, 3]));
    let bytes = stored.to_bytes();
    assert_eq!(bytes[0], 3);
    assert_eq!(&bytes[1..4], &[1, 2, 3]);
    assert_eq!(&bytes[4..], &[0u8; 26]);
    assert_eq!(StoredPrincipal::from_bytes(&bytes), stored);

    assert_eq!(
        StoredPrincipal::from_principal(&[]),
        Err("Invalid principal length: 0".to_string())
    );
    assert_eq!(
        StoredPrincipal::from_principal(&[1u8; 30]),
        Err("Invalid principal length: 30".to_string())
    );
    assert!(StoredPrincipal::from_principal(&[1u8; 29]).is_ok());
    let broken = StoredPrincipal { len: 30, bytes: [0u8; 29] };
    assert_eq!(broken.to_principal(), Err("Invalid stored principal length: 30".to_string()));
    let empty = StoredPrincipal { len: 0, bytes: [0u8; 29] };
    assert_eq!(empty.to_principal(), Err("Invalid stored principal length: 0".to_string()));
}
