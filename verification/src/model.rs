use vstd::prelude::*;
use crate::codec::{u64_be, u64_from_be, zeros};
use crate::transaction::{encode_record, TxRecord};
use crate::types::{allowance_key, balance_key, StoredTokenMetadataView};

verus! {

/// What a ledger holds, as mathematical maps and a sequence.
pub struct LedgerView {
    /// Token id to metadata.
    pub tokens: Map<Seq<u8>, StoredTokenMetadataView>,
    /// Balance key to balance.
    pub balances: Map<Seq<u8>, u128>,
    /// Allowance key to allowance.
    pub allowances: Map<Seq<u8>, u128>,
    /// Allowance key to the time at which the allowance expires.
    pub expiry: Map<Seq<u8>, u64>,
    /// Token id to the number of holders.
    pub holders: Map<Seq<u8>, u64>,
    /// The packed records of the transaction log.
    pub log: Seq<Seq<u8>>,
    /// The system state: controller handle and counters.
    pub system: Map<Seq<u8>, Seq<u8>>,
    /// The stored forms of the controllers.
    pub controllers: Map<Seq<u8>, u8>,
    /// Dedup key to transaction index.
    pub dedup: Map<Seq<u8>, u64>,
    /// Transaction index to the full memo.
    pub memos: Map<u64, Seq<u8>>,
}

/// The amount stored under `key`; zero where there is no entry.
pub open spec fn amount_at(m: Map<Seq<u8>, u128>, key: Seq<u8>) -> u128 {
    if m.contains_key(key) {
        m[key]
    } else {
        0
    }
}

/// The map with `value` stored under `key`; a zero is not stored, the entry
/// is removed instead.
pub open spec fn put_amount(m: Map<Seq<u8>, u128>, key: Seq<u8>, value: u128) -> Map<
    Seq<u8>,
    u128,
> {
    if value == 0 {
        m.remove(key)
    } else {
        m.insert(key, value)
    }
}

/// The number stored under `key`; zero where there is no entry.
pub open spec fn number_at(m: Map<Seq<u8>, u64>, key: Seq<u8>) -> u64 {
    if m.contains_key(key) {
        m[key]
    } else {
        0
    }
}

/// The entry stored under `key`, if there is one.
pub open spec fn entry_at<V>(m: Map<Seq<u8>, V>, key: Seq<u8>) -> Option<V> {
    if m.contains_key(key) {
        Some(m[key])
    } else {
        None
    }
}

/// The bytes of "icrc151:controller:v1", padded with zeros to 32.
pub open spec fn controller_slot() -> Seq<u8> {
    seq![
        105u8, 99, 114, 99, 49, 53, 49, 58, 99, 111, 110, 116, 114, 111, 108, 108, 101, 114, 58,
        118, 49, 0, 0, 0, 0, 0, 0, 0, 0, 0, 0, 0,
    ]
}

/// The bytes of "icrc151:next_token_nonce:v1", padded with zeros to 32.
pub open spec fn nonce_slot() -> Seq<u8> {
    seq![
        105u8, 99, 114, 99, 49, 53, 49, 58, 110, 101, 120, 116, 95, 116, 111, 107, 101, 110, 95,
        110, 111, 110, 99, 101, 58, 118, 49, 0, 0, 0, 0, 0,
    ]
}

/// The bytes of "icrc151:global_tx_count:v1", padded with zeros to 32.
pub open spec fn tx_count_slot() -> Seq<u8> {
    seq![
        105u8, 99, 114, 99, 49, 53, 49, 58, 103, 108, 111, 98, 97, 108, 95, 116, 120, 95, 99, 111,
        117, 110, 116, 58, 118, 49, 0, 0, 0, 0, 0, 0,
    ]
}

/// The counter that the system state holds in `slot`: the number in the
/// first eight bytes of the entry, most significant byte first; zero where
/// there is no entry or the entry is shorter.
pub open spec fn counter_at(system: Map<Seq<u8>, Seq<u8>>, slot: Seq<u8>) -> u64 {
    if system.contains_key(slot) && system[slot].len() >= 8 {
        u64_from_be(system[slot].subrange(0, 8))
    } else {
        0
    }
}

/// The stored form of a principal: its length, its bytes, zeros up to 30
/// bytes in all.
pub open spec fn stored_blob(principal: Seq<u8>) -> Seq<u8> {
    seq![principal.len() as u8] + principal + zeros((29 - principal.len()) as nat)
}

/// Whether a principal has a length that can be stored.
pub open spec fn storable_principal(principal: Seq<u8>) -> bool {
    1 <= principal.len() <= 29
}

/// The principal that a stored form of 30 bytes holds, where its length byte
/// is valid.
pub open spec fn blob_principal(blob: Seq<u8>) -> Option<Seq<u8>> {
    if blob.len() == 30 && 1 <= blob[0] <= 29 {
        Some(blob.subrange(1, 1 + blob[0] as int))
    } else {
        None
    }
}

/// The principals that a list of stored forms holds, in the order of the
/// list; a stored form with an invalid length byte is passed over.
pub open spec fn principals_of(blobs: Seq<Seq<u8>>) -> Seq<Seq<u8>>
    decreases blobs.len(),
{
    if blobs.len() == 0 {
        Seq::empty()
    } else {
        let rest = principals_of(blobs.drop_last());
        match blob_principal(blobs.last()) {
            Some(p) => rest.push(p),
            None => rest,
        }
    }
}

/// One more holder; the count stays where it cannot grow.
pub open spec fn one_more(count: u64) -> u64 {
    if count < u64::MAX {
        (count + 1) as u64
    } else {
        count
    }
}

impl LedgerView {
    /// The ledger that holds nothing.
    pub open spec fn empty() -> LedgerView {
        LedgerView {
            tokens: Map::empty(),
            balances: Map::empty(),
            allowances: Map::empty(),
            expiry: Map::empty(),
            holders: Map::empty(),
            log: Seq::empty(),
            system: Map::empty(),
            controllers: Map::empty(),
            dedup: Map::empty(),
            memos: Map::empty(),
        }
    }

    /// The balance of an account key in a token.
    pub open spec fn balance(self, token_id: Seq<u8>, account: Seq<u8>) -> u128 {
        amount_at(self.balances, balance_key(token_id, account))
    }

    /// What `spender` may still spend of `owner`'s tokens.
    pub open spec fn allowance(self, token_id: Seq<u8>, owner: Seq<u8>, spender: Seq<u8>) -> u128 {
        amount_at(self.allowances, allowance_key(token_id, owner, spender))
    }

    /// The time at which the allowance expires, if one is recorded.
    pub open spec fn allowance_expiry(
        self,
        token_id: Seq<u8>,
        owner: Seq<u8>,
        spender: Seq<u8>,
    ) -> Option<u64> {
        entry_at(self.expiry, allowance_key(token_id, owner, spender))
    }

    /// The recorded number of holders of a token.
    pub open spec fn holder_count(self, token_id: Seq<u8>) -> u64 {
        number_at(self.holders, token_id)
    }

    /// The metadata of a token, if it is registered.
    pub open spec fn metadata(self, token_id: Seq<u8>) -> Option<StoredTokenMetadataView> {
        entry_at(self.tokens, token_id)
    }

    /// The recorded total supply of a token; zero where it is not registered.
    pub open spec fn total_supply(self, token_id: Seq<u8>) -> u128 {
        if self.tokens.contains_key(token_id) {
            self.tokens[token_id].total_supply
        } else {
            0
        }
    }

    /// The global transaction counter.
    pub open spec fn tx_count(self) -> u64 {
        counter_at(self.system, tx_count_slot())
    }

    /// The nonce that the last new token got.
    pub open spec fn token_nonce(self) -> u64 {
        counter_at(self.system, nonce_slot())
    }

    /// The primary controller, where the system state holds a valid one.
    pub open spec fn primary_controller(self) -> Option<Seq<u8>> {
        if self.system.contains_key(controller_slot()) {
            blob_principal(self.system[controller_slot()])
        } else {
            None
        }
    }

    /// Whether a principal is in the set of controllers.
    pub open spec fn is_controller(self, principal: Seq<u8>) -> bool {
        storable_principal(principal) && self.controllers.contains_key(stored_blob(principal))
    }

    /// The transaction index recorded for a dedup key, if there is one.
    pub open spec fn duplicate_of(self, dedup_key: Seq<u8>) -> Option<u64> {
        entry_at(self.dedup, dedup_key)
    }

    /// The ledger after a balance was set: a zero balance is not stored, and
    /// the holder count follows the balance from and to zero.
    pub open spec fn with_balance(self, token_id: Seq<u8>, account: Seq<u8>, amount: u128) -> Self {
        let key = balance_key(token_id, account);
        let before = self.balance(token_id, account);
        let count = self.holder_count(token_id);
        LedgerView {
            balances: put_amount(self.balances, key, amount),
            holders: if before == 0 && amount > 0 {
                self.holders.insert(token_id, one_more(count))
            } else if before > 0 && amount == 0 && count > 0 {
                self.holders.insert(token_id, (count - 1) as u64)
            } else {
                self.holders
            },
            ..self
        }
    }

    /// The ledger after `amount` was added to a balance.
    pub open spec fn credited(self, token_id: Seq<u8>, account: Seq<u8>, amount: u128) -> Self {
        self.with_balance(token_id, account, (self.balance(token_id, account) + amount) as u128)
    }

    /// Whether `amount` can be added to a balance.
    pub open spec fn can_credit(self, token_id: Seq<u8>, account: Seq<u8>, amount: u128) -> bool {
        self.balance(token_id, account) + amount <= u128::MAX
    }

    /// The ledger after `amount` was taken from a balance.
    pub open spec fn debited(self, token_id: Seq<u8>, account: Seq<u8>, amount: u128) -> Self {
        self.with_balance(token_id, account, (self.balance(token_id, account) - amount) as u128)
    }

    /// The ledger after a payment: the sender debited by amount and fee,
    /// then the receiver credited by the amount, then, where the fee is not
    /// zero, the fee's recipient credited by the fee.
    pub open spec fn moved(
        self,
        token_id: Seq<u8>,
        from: Seq<u8>,
        to: Seq<u8>,
        fee_to: Seq<u8>,
        amount: u128,
        fee: u128,
    ) -> Self {
        let debited = self.debited(token_id, from, (amount + fee) as u128);
        let credited = debited.credited(token_id, to, amount);
        if fee > 0 {
            credited.credited(token_id, fee_to, fee)
        } else {
            credited
        }
    }

    /// Whether the receiver's balance cannot take the amount of a payment.
    pub open spec fn receiver_overflows(
        self,
        token_id: Seq<u8>,
        from: Seq<u8>,
        to: Seq<u8>,
        amount: u128,
        fee: u128,
    ) -> bool {
        !self.debited(token_id, from, (amount + fee) as u128).can_credit(token_id, to, amount)
    }

    /// Whether the balance of the fee's recipient cannot take the fee of a
    /// payment.
    pub open spec fn fee_receiver_overflows(
        self,
        token_id: Seq<u8>,
        from: Seq<u8>,
        to: Seq<u8>,
        fee_to: Seq<u8>,
        amount: u128,
        fee: u128,
    ) -> bool {
        fee > 0 && !self.debited(token_id, from, (amount + fee) as u128).credited(
            token_id,
            to,
            amount,
        ).can_credit(token_id, fee_to, fee)
    }

    /// The ledger after an allowance was set: a zero allowance is not stored.
    pub open spec fn with_allowance(
        self,
        token_id: Seq<u8>,
        owner: Seq<u8>,
        spender: Seq<u8>,
        amount: u128,
    ) -> Self {
        LedgerView {
            allowances: put_amount(
                self.allowances,
                allowance_key(token_id, owner, spender),
                amount,
            ),
            ..self
        }
    }

    /// The ledger after the expiry of an allowance was recorded.
    pub open spec fn with_expiry(
        self,
        token_id: Seq<u8>,
        owner: Seq<u8>,
        spender: Seq<u8>,
        expires_at: u64,
    ) -> Self {
        LedgerView {
            expiry: self.expiry.insert(allowance_key(token_id, owner, spender), expires_at),
            ..self
        }
    }

    /// The ledger after a token was registered, or its metadata replaced.
    pub open spec fn with_token(self, token_id: Seq<u8>, metadata: StoredTokenMetadataView) -> Self {
        LedgerView { tokens: self.tokens.insert(token_id, metadata), ..self }
    }

    /// The ledger after the total supply of a registered token was written.
    pub open spec fn with_supply(self, token_id: Seq<u8>, supply: u128) -> Self {
        self.with_token(
            token_id,
            StoredTokenMetadataView { total_supply: supply, ..self.tokens[token_id] },
        )
    }

    /// The ledger after the fee of a registered token was written.
    pub open spec fn with_fee(self, token_id: Seq<u8>, fee: u128) -> Self {
        self.with_token(token_id, StoredTokenMetadataView { fee, ..self.tokens[token_id] })
    }

    /// The ledger after a record was appended to the log.
    pub open spec fn with_record(self, record: Seq<u8>) -> Self {
        LedgerView { log: self.log.push(record), ..self }
    }

    /// The ledger after the global transaction counter was written.
    pub open spec fn with_tx_count(self, count: u64) -> Self {
        LedgerView { system: self.system.insert(tx_count_slot(), u64_be(count)), ..self }
    }

    /// The ledger after the token nonce was written.
    pub open spec fn with_token_nonce(self, nonce: u64) -> Self {
        LedgerView { system: self.system.insert(nonce_slot(), u64_be(nonce)), ..self }
    }

    /// The ledger after the primary controller was written.
    pub open spec fn with_primary_controller(self, principal: Seq<u8>) -> Self {
        LedgerView {
            system: self.system.insert(controller_slot(), stored_blob(principal)),
            ..self
        }
    }

    /// The ledger after a principal was added to the set of controllers.
    pub open spec fn with_controller(self, principal: Seq<u8>) -> Self {
        LedgerView { controllers: self.controllers.insert(stored_blob(principal), 1u8), ..self }
    }

    /// The ledger after a principal was removed from the set of controllers.
    pub open spec fn without_controller(self, principal: Seq<u8>) -> Self {
        LedgerView { controllers: self.controllers.remove(stored_blob(principal)), ..self }
    }

    /// The ledger after a full memo was stored for a transaction.
    pub open spec fn with_memo(self, tx_index: u64, memo: Seq<u8>) -> Self {
        LedgerView { memos: self.memos.insert(tx_index, memo), ..self }
    }

    /// The ledger after a dedup key was recorded for a transaction.
    pub open spec fn with_dedup(self, dedup_key: Seq<u8>, tx_index: u64) -> Self {
        LedgerView { dedup: self.dedup.insert(dedup_key, tx_index), ..self }
    }

    /// The index that the next record of the log gets.
    pub open spec fn next_index(self) -> u64 {
        self.log.len() as u64
    }

    /// The ledger after a record that was appended at `index` was booked:
    /// the global counter goes up by one, a memo of more than 32 bytes is
    /// stored in full under the index, and the dedup key is recorded for it.
    pub open spec fn booked(self, index: u64, memo: Option<Seq<u8>>, dedup_key: Seq<u8>) -> Self {
        let counted = self.with_tx_count((self.tx_count() + 1) as u64);
        let noted = if memo.is_some() && memo.unwrap().len() > 32 {
            counted.with_memo(index, memo.unwrap())
        } else {
            counted
        };
        noted.with_dedup(dedup_key, index)
    }

    /// The ledger after a transaction was logged: the record is appended,
    /// the global counter goes up by one, a memo of more than 32 bytes is
    /// stored in full under the record's index, and the dedup key is recorded
    /// for that index.
    pub open spec fn logged(self, record: TxRecord, memo: Option<Seq<u8>>, dedup_key: Seq<u8>) -> Self {
        let index = self.next_index();
        let appended = self.with_record(encode_record(record)).with_tx_count(
            (self.tx_count() + 1) as u64,
        );
        let noted = if memo.is_some() && memo.unwrap().len() > 32 {
            appended.with_memo(index, memo.unwrap())
        } else {
            appended
        };
        noted.with_dedup(dedup_key, index)
    }
}

} // verus!
