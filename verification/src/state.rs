use vstd::prelude::*;
use vstd::string::*;
use crate::codec::{sha256, sha256_digest, u64_be, u64_from_be_bytes, u64_to_be_bytes};
use crate::listing::{key_views, lemma_sorted_keys, lists_keys, sorted_keys};
use crate::model::{
    blob_principal, controller_slot, counter_at, nonce_slot, principals_of, storable_principal,
    stored_blob, tx_count_slot, LedgerView,
};
use crate::storage::{
    amount_entries, amount_map_get, amount_map_insert, amount_map_is_empty, amount_map_region,
    amount_map_remove, blob_entries, blob_map_get, blob_map_insert, blob_map_is_empty,
    blob_map_region, index_entries, index_map_get, index_map_insert, index_map_is_empty,
    index_map_len, index_map_region, log_entries, memo_entries, memo_map_get, memo_map_insert,
    memo_map_is_empty, memo_map_len, memo_map_region, open_amount_map, open_blob_map,
    open_index_map, open_memo_map, open_principal_map, open_record_log, open_regions,
    open_token_map, principal_entries, principal_map_contains, principal_map_insert,
    principal_map_is_empty, principal_map_keys, principal_map_region, principal_map_remove,
    record_log_append, record_log_data_region, record_log_get, record_log_index_region,
    record_log_len, token_entries, token_map_contains, token_map_get, token_map_insert,
    token_map_is_empty, token_map_keys, token_map_region, AmountMap, BlobMap, IndexMap, MemoMap,
    PrincipalMap, RecordLog, TokenMap,
};
use crate::transaction::{decode_record, encode_record, memo_bytes, StoredTxV1};
use crate::types::{
    copy_bytes, hash_allowance_key, hash_balance_key, memory_ids, AccountKey, StoredPrincipal,
    StoredTokenMetadata, TokenId,
};

verus! {

/// The ledger's persistent state: one stable structure for each region.
pub struct Ledger {
    token_registry: TokenMap,
    balance_storage: AmountMap,
    allowance_storage: AmountMap,
    transaction_log: RecordLog,
    system_state: BlobMap,
    controllers: PrincipalMap,
    dedup_map: IndexMap,
    allowance_expiry: IndexMap,
    extended_memos: MemoMap,
    holder_counts: IndexMap,
}

impl View for Ledger {
    type V = LedgerView;

    closed spec fn view(&self) -> LedgerView {
        LedgerView {
            tokens: token_entries(self.token_registry),
            balances: amount_entries(self.balance_storage),
            allowances: amount_entries(self.allowance_storage),
            expiry: index_entries(self.allowance_expiry),
            holders: index_entries(self.holder_counts),
            log: log_entries(self.transaction_log),
            system: blob_entries(self.system_state),
            controllers: principal_entries(self.controllers),
            dedup: index_entries(self.dedup_map),
            memos: memo_entries(self.extended_memos),
        }
    }
}

/// Where the structures of a ledger lie: for each the number of its memory
/// region.
pub struct RegionLayout {
    pub token_registry: u8,
    pub balance_storage: u8,
    pub allowance_storage: u8,
    pub transaction_log: u8,
    pub system_state: u8,
    pub extended_memos: u8,
    pub allowance_expiry: u8,
    pub tx_index_buffer: u8,
    pub dedup_map: u8,
    pub controllers: u8,
    pub holder_counts: u8,
}

/// The layout of the persisted state: token registry 0, balances 1,
/// allowances 2, the records of the transaction log 3, system state 6,
/// extended memos 9, allowance expiry 10, the offsets of the records of the
/// log 11, dedup map 12, controllers 13, holder counts 14.
pub open spec fn persisted_layout() -> RegionLayout {
    RegionLayout {
        token_registry: memory_ids::TOKEN_REGISTRY,
        balance_storage: memory_ids::BALANCE_STORAGE,
        allowance_storage: memory_ids::ALLOWANCE_STORAGE,
        transaction_log: memory_ids::TRANSACTION_LOG,
        system_state: memory_ids::SYSTEM_STATE,
        extended_memos: memory_ids::EXTENDED_MEMOS,
        allowance_expiry: memory_ids::ALLOWANCE_EXPIRY_INDEX,
        tx_index_buffer: memory_ids::TX_INDEX_BUFFER,
        dedup_map: memory_ids::DEDUP_MAP,
        controllers: memory_ids::CONTROLLERS,
        holder_counts: memory_ids::HOLDER_COUNTS,
    }
}

impl Ledger {
    /// The regions in which the structures of the ledger were opened.
    pub closed spec fn layout(&self) -> RegionLayout {
        RegionLayout {
            token_registry: token_map_region(self.token_registry),
            balance_storage: amount_map_region(self.balance_storage),
            allowance_storage: amount_map_region(self.allowance_storage),
            transaction_log: record_log_data_region(self.transaction_log),
            system_state: blob_map_region(self.system_state),
            extended_memos: memo_map_region(self.extended_memos),
            allowance_expiry: index_map_region(self.allowance_expiry),
            tx_index_buffer: record_log_index_region(self.transaction_log),
            dedup_map: index_map_region(self.dedup_map),
            controllers: principal_map_region(self.controllers),
            holder_counts: index_map_region(self.holder_counts),
        }
    }

    /// Opens the ledger on the default stable memory: each structure in the
    /// region that the layout of the persisted state gives it, loaded where
    /// the region holds one and empty where it holds none. `None` where the
    /// regions of the log hold a log of another layout. What the ledger
    /// holds, and whether the log can be opened, is a matter of what the
    /// memory held: nothing is known of it here, and `is_empty` tells whether
    /// the ledger is new.
    pub fn open() -> (r: Option<Ledger>)
        ensures
            r matches Some(ledger) ==> ledger.layout() == persisted_layout(),
    {
        let regions = open_regions();
        let transaction_log = match open_record_log(
            &regions,
            memory_ids::TRANSACTION_LOG,
            memory_ids::TX_INDEX_BUFFER,
        ) {
            Some(log) => log,
            None => {
                return None;
            },
        };
        Some(
            Ledger {
                token_registry: open_token_map(&regions, memory_ids::TOKEN_REGISTRY),
                balance_storage: open_amount_map(&regions, memory_ids::BALANCE_STORAGE),
                allowance_storage: open_amount_map(&regions, memory_ids::ALLOWANCE_STORAGE),
                transaction_log,
                system_state: open_blob_map(&regions, memory_ids::SYSTEM_STATE),
                controllers: open_principal_map(&regions, memory_ids::CONTROLLERS),
                dedup_map: open_index_map(&regions, memory_ids::DEDUP_MAP),
                allowance_expiry: open_index_map(&regions, memory_ids::ALLOWANCE_EXPIRY_INDEX),
                extended_memos: open_memo_map(&regions, memory_ids::EXTENDED_MEMOS),
                holder_counts: open_index_map(&regions, memory_ids::HOLDER_COUNTS),
            },
        )
    }

    /// Whether the ledger holds nothing at all, as a new one does.
    pub fn is_empty(&self) -> (r: bool)
        ensures
            r == (self@ == LedgerView::empty()),
    {
        let no_records = record_log_len(&self.transaction_log) == 0;
        proof {
            assert(no_records == (self@.log =~= Seq::<Seq<u8>>::empty()));
        }
        token_map_is_empty(&self.token_registry) && amount_map_is_empty(&self.balance_storage)
            && amount_map_is_empty(&self.allowance_storage) && no_records && blob_map_is_empty(
            &self.system_state,
        ) && principal_map_is_empty(&self.controllers) && index_map_is_empty(&self.dedup_map)
            && index_map_is_empty(&self.allowance_expiry) && memo_map_is_empty(
            &self.extended_memos,
        ) && index_map_is_empty(&self.holder_counts)
    }
}

/// The key of the primary controller in the system state.
fn key_controller() -> (key: [u8; 32])
    ensures
        key@ == controller_slot(),
{
    let key: [u8; 32] = [
        105u8, 99, 114, 99, 49, 53, 49, 58, 99, 111, 110, 116, 114, 111, 108, 108, 101, 114, 58,
        118, 49, 0, 0, 0, 0, 0, 0, 0, 0, 0, 0, 0,
    ];
    key
}

/// The key of the token nonce in the system state.
fn key_next_token_nonce() -> (key: [u8; 32])
    ensures
        key@ == nonce_slot(),
{
    let key: [u8; 32] = [
        105u8, 99, 114, 99, 49, 53, 49, 58, 110, 101, 120, 116, 95, 116, 111, 107, 101, 110, 95,
        110, 111, 110, 99, 101, 58, 118, 49, 0, 0, 0, 0, 0,
    ];
    key
}

/// The key of the global transaction counter in the system state.
fn key_global_tx_count() -> (key: [u8; 32])
    ensures
        key@ == tx_count_slot(),
{
    let key: [u8; 32] = [
        105u8, 99, 114, 99, 49, 53, 49, 58, 103, 108, 111, 98, 97, 108, 95, 116, 120, 95, 99, 111,
        117, 110, 116, 58, 118, 49, 0, 0, 0, 0, 0, 0,
    ];
    key
}

/// The stored form of a principal whose length can be stored.
fn stored_key(p: &[u8]) -> (r: Option<[u8; 30]>)
    ensures
        match r {
            Some(key) => storable_principal(p@) && key@ == stored_blob(p@),
            None => !storable_principal(p@),
        },
{
    match StoredPrincipal::from_principal(p) {
        Ok(stored) => {
            let key = stored.to_bytes();
            Some(key)
        },
        Err(_) => None,
    }
}

/// Reads the counter in `slot` of the system state.
fn read_counter(ledger: &Ledger, slot: &[u8; 32]) -> (r: u64)
    ensures
        r == counter_at(ledger@.system, slot@),
{
    match blob_map_get(&ledger.system_state, slot) {
        Some(bytes) => {
            if bytes.len() >= 8 {
                let mut first: Vec<u8> = Vec::new();
                let mut i: usize = 0;
                while i < 8
                    invariant
                        i <= 8,
                        bytes@.len() >= 8,
                        first@.len() == i,
                        forall|j: int| 0 <= j < i ==> first@[j] == bytes@[j],
                    decreases 8 - i,
                {
                    first.push(bytes[i]);
                    i += 1;
                }
                assert(first@ =~= bytes@.subrange(0, 8));
                u64_from_be_bytes(first.as_slice())
            } else {
                0
            }
        },
        None => 0,
    }
}

/// Sets up the system state of a new ledger: the primary controller, both
/// counters at zero, and the controller as the one member of the set of
/// controllers.
pub fn init_state(ledger: &mut Ledger, controller: &[u8])
    requires
        storable_principal(controller@),
    ensures
        final(ledger)@ == old(ledger)@.with_primary_controller(controller@).with_token_nonce(
            0,
        ).with_tx_count(0).with_controller(controller@),
{
    match stored_key(controller) {
        Some(key) => {
            blob_map_insert(&mut ledger.system_state, key_controller(), copy_bytes(key.as_slice()));
            blob_map_insert(
                &mut ledger.system_state,
                key_next_token_nonce(),
                copy_bytes(u64_to_be_bytes(0).as_slice()),
            );
            blob_map_insert(
                &mut ledger.system_state,
                key_global_tx_count(),
                copy_bytes(u64_to_be_bytes(0).as_slice()),
            );
            principal_map_insert(&mut ledger.controllers, key, 1u8);
        },
        None => {},
    }
}

/// The primary controller, where the system state holds a valid one.
pub fn get_controller(ledger: &Ledger) -> (r: Option<Vec<u8>>)
    ensures
        match r {
            Some(p) => ledger@.primary_controller() == Some(p@),
            None => ledger@.primary_controller().is_none(),
        },
{
    match blob_map_get(&ledger.system_state, &key_controller()) {
        Some(bytes) => blob_to_principal(bytes.as_slice()),
        None => None,
    }
}

/// The principal that a stored form holds, where it has 30 bytes and a valid
/// length byte.
fn blob_to_principal(bytes: &[u8]) -> (r: Option<Vec<u8>>)
    ensures
        match r {
            Some(p) => blob_principal(bytes@) == Some(p@),
            None => blob_principal(bytes@).is_none(),
        },
{
    if bytes.len() != 30 {
        return None;
    }
    let mut blob = [0u8; 30];
    crate::codec::write_bytes(&mut blob, 0, bytes);
    let stored = StoredPrincipal::from_bytes(&blob);
    match stored.to_principal() {
        Ok(p) => Some(p),
        Err(_) => None,
    }
}

/// Whether `caller` is a controller; the error says that it is not.
pub fn only_controller(ledger: &Ledger, caller: &[u8]) -> (r: Result<(), String>)
    ensures
        match r {
            Ok(_) => ledger@.is_controller(caller@),
            Err(msg) => !ledger@.is_controller(caller@) && msg@
                == "Only controller can call this method"@,
        },
{
    if !is_controller(ledger, caller) {
        return Err(String::from_str("Only controller can call this method"));
    }
    Ok(())
}

/// Whether `caller` is a controller; the error says that it is not.
pub fn require_controller(ledger: &Ledger, caller: &[u8]) -> (r: Result<(), String>)
    ensures
        match r {
            Ok(_) => ledger@.is_controller(caller@),
            Err(msg) => !ledger@.is_controller(caller@) && msg@
                == "Only controller can perform this operation"@,
        },
{
    if !is_controller(ledger, caller) {
        return Err(String::from_str("Only controller can perform this operation"));
    }
    Ok(())
}

/// Whether a principal is in the set of controllers.
pub fn is_controller(ledger: &Ledger, p: &[u8]) -> (r: bool)
    ensures
        r == ledger@.is_controller(p@),
{
    match stored_key(p) {
        Some(key) => principal_map_contains(&ledger.controllers, &key),
        None => false,
    }
}

/// The message for a principal whose length cannot be stored.
pub open spec fn bad_principal_text(p: Seq<u8>) -> Seq<char> {
    crate::codec::numbered_text("Invalid principal length: "@, p.len() as u128, ""@)
}

/// Makes `new_controller` the primary controller and a member of the set of
/// controllers. Only a controller may do so.
pub fn set_controller(ledger: &mut Ledger, caller: &[u8], new_controller: &[u8]) -> (r: Result<
    (),
    String,
>)
    ensures
        match r {
            Ok(_) => old(ledger)@.is_controller(caller@) && storable_principal(new_controller@)
                && final(ledger)@ == old(ledger)@.with_primary_controller(
                new_controller@,
            ).with_controller(new_controller@),
            Err(msg) => final(ledger)@ == old(ledger)@ && (if !old(ledger)@.is_controller(
                caller@,
            ) {
                msg@ == "Only controller can perform this operation"@
            } else {
                !storable_principal(new_controller@) && msg@ == bad_principal_text(
                    new_controller@,
                )
            }),
        },
{
    match require_controller(ledger, caller) {
        Err(msg) => {
            return Err(msg);
        },
        Ok(_) => {},
    }
    match StoredPrincipal::from_principal(new_controller) {
        Err(msg) => Err(msg),
        Ok(stored) => {
            let key = stored.to_bytes();
            assert(key@ =~= stored_blob(new_controller@));
            blob_map_insert(&mut ledger.system_state, key_controller(), copy_bytes(key.as_slice()));
            principal_map_insert(&mut ledger.controllers, key, 1u8);
            Ok(())
        },
    }
}

/// Takes the next token nonce: returns the counter's value and counts one up.
pub fn next_token_nonce(ledger: &mut Ledger) -> (nonce: u64)
    requires
        old(ledger)@.token_nonce() < u64::MAX,
    ensures
        nonce == old(ledger)@.token_nonce(),
        final(ledger)@ == old(ledger)@.with_token_nonce((nonce + 1) as u64),
{
    let key = key_next_token_nonce();
    let current = read_counter(ledger, &key);
    blob_map_insert(
        &mut ledger.system_state,
        key,
        copy_bytes(u64_to_be_bytes(current + 1).as_slice()),
    );
    current
}

/// The nonce that the next new token gets.
pub fn peek_token_nonce(ledger: &Ledger) -> (r: u64)
    ensures
        r == ledger@.token_nonce(),
{
    read_counter(ledger, &key_next_token_nonce())
}

/// The global transaction counter.
pub fn get_global_tx_count(ledger: &Ledger) -> (r: u64)
    ensures
        r == ledger@.tx_count(),
{
    read_counter(ledger, &key_global_tx_count())
}

/// Counts one more transaction.
pub fn increment_tx_count(ledger: &mut Ledger) -> (next: u64)
    requires
        old(ledger)@.tx_count() < u64::MAX,
    ensures
        next == old(ledger)@.tx_count() + 1,
        final(ledger)@ == old(ledger)@.with_tx_count(next),
{
    let key = key_global_tx_count();
    let current = read_counter(ledger, &key);
    let next = current + 1;
    blob_map_insert(&mut ledger.system_state, key, copy_bytes(u64_to_be_bytes(next).as_slice()));
    next
}

/// The balance of an account key in a token; zero where none is stored.
pub fn get_balance(ledger: &Ledger, token_id: TokenId, account_key: AccountKey) -> (r: u128)
    ensures
        r == ledger@.balance(token_id@, account_key@),
{
    let balance_key = hash_balance_key(token_id, account_key);
    match amount_map_get(&ledger.balance_storage, &balance_key) {
        Some(v) => v,
        None => 0,
    }
}

/// Sets a balance. A zero balance is removed, not stored; the token's holder
/// count goes up where the balance leaves zero and down where it reaches it.
pub fn set_balance(ledger: &mut Ledger, token_id: TokenId, account_key: AccountKey, amount: u128)
    ensures
        final(ledger)@ == old(ledger)@.with_balance(token_id@, account_key@, amount),
{
    let balance_key = hash_balance_key(token_id, account_key);
    let old_balance = match amount_map_get(&ledger.balance_storage, &balance_key) {
        Some(v) => v,
        None => 0,
    };
    if amount == 0 {
        amount_map_remove(&mut ledger.balance_storage, &balance_key);
    } else {
        amount_map_insert(&mut ledger.balance_storage, balance_key, amount);
    }
    if old_balance == 0 && amount > 0 {
        increment_holder_count(ledger, token_id);
    } else if old_balance > 0 && amount == 0 {
        decrement_holder_count(ledger, token_id);
    }
}

/// Counts one more holder of a token; the count stays where it cannot grow.
fn increment_holder_count(ledger: &mut Ledger, token_id: TokenId)
    ensures
        final(ledger)@ == (LedgerView {
            holders: old(ledger)@.holders.insert(
                token_id@,
                crate::model::one_more(old(ledger)@.holder_count(token_id@)),
            ),
            ..old(ledger)@
        }),
{
    let current = get_holder_count(ledger, token_id);
    let next = if current < u64::MAX {
        current + 1
    } else {
        current
    };
    index_map_insert(&mut ledger.holder_counts, token_id, next);
}

/// Counts one holder of a token less; a count of zero stays.
fn decrement_holder_count(ledger: &mut Ledger, token_id: TokenId)
    ensures
        final(ledger)@ == (if old(ledger)@.holder_count(token_id@) > 0 {
            LedgerView {
                holders: old(ledger)@.holders.insert(
                    token_id@,
                    (old(ledger)@.holder_count(token_id@) - 1) as u64,
                ),
                ..old(ledger)@
            }
        } else {
            old(ledger)@
        }),
{
    let current = get_holder_count(ledger, token_id);
    if current > 0 {
        index_map_insert(&mut ledger.holder_counts, token_id, current - 1);
    }
}

/// The recorded number of holders of a token.
pub fn get_holder_count(ledger: &Ledger, token_id: TokenId) -> (r: u64)
    ensures
        r == ledger@.holder_count(token_id@),
{
    match index_map_get(&ledger.holder_counts, &token_id) {
        Some(v) => v,
        None => 0,
    }
}

/// What `spender_key` may still spend of the tokens of `owner_key`; zero where
/// nothing is stored.
pub fn get_allowance(
    ledger: &Ledger,
    token_id: TokenId,
    owner_key: AccountKey,
    spender_key: AccountKey,
) -> (r: u128)
    ensures
        r == ledger@.allowance(token_id@, owner_key@, spender_key@),
{
    let allowance_key = hash_allowance_key(token_id, owner_key, spender_key);
    match amount_map_get(&ledger.allowance_storage, &allowance_key) {
        Some(v) => v,
        None => 0,
    }
}

/// Sets an allowance. A zero allowance is removed, not stored.
pub fn set_allowance(
    ledger: &mut Ledger,
    token_id: TokenId,
    owner_key: AccountKey,
    spender_key: AccountKey,
    amount: u128,
)
    ensures
        final(ledger)@ == old(ledger)@.with_allowance(
            token_id@,
            owner_key@,
            spender_key@,
            amount,
        ),
{
    let allowance_key = hash_allowance_key(token_id, owner_key, spender_key);
    if amount == 0 {
        amount_map_remove(&mut ledger.allowance_storage, &allowance_key);
    } else {
        amount_map_insert(&mut ledger.allowance_storage, allowance_key, amount);
    }
}

/// Appends a record to the transaction log and returns its index. `None`
/// where the log's memory cannot grow; the ledger is then as before. The
/// global counter is not touched.
pub fn add_transaction(ledger: &mut Ledger, tx: StoredTxV1) -> (r: Option<u64>)
    ensures
        match r {
            Some(index) => index == old(ledger)@.log.len()
                && final(ledger)@ == old(ledger)@.with_record(encode_record(tx@)),
            None => final(ledger)@ == old(ledger)@,
        },
{
    let bytes = tx.to_bytes();
    record_log_append(&mut ledger.transaction_log, copy_bytes(bytes.as_slice()))
}

/// The number of records in the transaction log.
pub fn get_transaction_count(ledger: &Ledger) -> (r: u64)
    ensures
        r == ledger@.log.len(),
{
    record_log_len(&ledger.transaction_log)
}

/// The record at `index` of the log. `None` where the log is not that long,
/// or the entry has not the 256 bytes of a record.
pub fn get_transaction(ledger: &Ledger, index: u64) -> (r: Option<StoredTxV1>)
    ensures
        match r {
            Some(tx) => index < ledger@.log.len() && ledger@.log[index as int].len() == 256 && tx@
                == decode_record(ledger@.log[index as int]),
            None => index >= ledger@.log.len() || ledger@.log[index as int].len() != 256,
        },
{
    match record_log_get(&ledger.transaction_log, index) {
        Some(bytes) => {
            if bytes.len() != 256 {
                return None;
            }
            let mut buf = [0u8; 256];
            crate::codec::write_bytes(&mut buf, 0, bytes.as_slice());
            assert(buf@ =~= bytes@);
            Some(StoredTxV1::from_bytes(&buf))
        },
        None => None,
    }
}

/// Adds a principal to the set of controllers. A principal whose length
/// cannot be stored is refused.
pub fn add_controller_internal(ledger: &mut Ledger, p: &[u8]) -> (r: Result<(), String>)
    ensures
        match r {
            Ok(_) => storable_principal(p@) && final(ledger)@ == old(ledger)@.with_controller(p@),
            Err(msg) => !storable_principal(p@) && final(ledger)@ == old(ledger)@ && msg@
                == bad_principal_text(p@),
        },
{
    match StoredPrincipal::from_principal(p) {
        Err(msg) => Err(msg),
        Ok(stored) => {
            let key = stored.to_bytes();
            assert(key@ =~= stored_blob(p@));
            principal_map_insert(&mut ledger.controllers, key, 1u8);
            Ok(())
        },
    }
}

/// Removes a principal from the set of controllers. A principal whose length
/// cannot be stored is refused.
pub fn remove_controller_internal(ledger: &mut Ledger, p: &[u8]) -> (r: Result<(), String>)
    ensures
        match r {
            Ok(_) => storable_principal(p@) && final(ledger)@ == old(ledger)@.without_controller(
                p@,
            ),
            Err(msg) => !storable_principal(p@) && final(ledger)@ == old(ledger)@ && msg@
                == bad_principal_text(p@),
        },
{
    match StoredPrincipal::from_principal(p) {
        Err(msg) => Err(msg),
        Ok(stored) => {
            let key = stored.to_bytes();
            assert(key@ =~= stored_blob(p@));
            principal_map_remove(&mut ledger.controllers, &key);
            Ok(())
        },
    }
}

/// Books what the append of a record gave: where it gave an index, counts
/// the transaction, stores a memo of more than 32 bytes in full under the
/// index, records the dedup key for it, and hands the index on; where it gave
/// none, changes nothing and hands on none.
pub fn book_appended(
    ledger: &mut Ledger,
    appended: Option<u64>,
    memo: Option<&[u8]>,
    dedup_key: [u8; 32],
) -> (r: Option<u64>)
    requires
        old(ledger)@.tx_count() < u64::MAX,
    ensures
        r == appended,
        final(ledger)@ == (match appended {
            Some(index) => old(ledger)@.booked(index, memo_bytes(memo), dedup_key@),
            None => old(ledger)@,
        }),
{
    let tx_index = match appended {
        Some(index) => index,
        None => {
            return None;
        },
    };
    increment_tx_count(ledger);
    match memo {
        Some(memo_data) => {
            if memo_data.len() > 32 {
                store_extended_memo(ledger, tx_index, copy_bytes(memo_data));
            }
        },
        None => {},
    }
    record_transaction_dedup(ledger, dedup_key, tx_index);
    Some(tx_index)
}

/// Logs a transaction: appends its record, counts it, stores a memo of more
/// than 32 bytes in full, and records the dedup key. `None` where the log's
/// memory cannot grow; the ledger is then as before. Whether the log can
/// grow is for the append to say; what is done with its answer is
/// `book_appended`.
pub fn log_transaction(
    ledger: &mut Ledger,
    tx: StoredTxV1,
    memo: Option<&[u8]>,
    dedup_key: [u8; 32],
) -> (r: Option<u64>)
    requires
        old(ledger)@.tx_count() < u64::MAX,
    ensures
        match r {
            Some(index) => index == old(ledger)@.next_index() && index == old(ledger)@.log.len()
                && final(ledger)@ == old(ledger)@.logged(tx@, memo_bytes(memo), dedup_key@),
            None => final(ledger)@ == old(ledger)@,
        },
{
    let appended = add_transaction(ledger, tx);
    book_appended(ledger, appended, memo, dedup_key)
}

/// The byte strings that a vector of vectors holds.
pub open spec fn byte_strings(v: Seq<Vec<u8>>) -> Seq<Seq<u8>> {
    Seq::new(v.len(), |i: int| v[i]@)
}

/// The controllers as they are listed: the principals of the stored forms in
/// the set, in ascending order of the stored forms.
pub open spec fn listed_controllers(view: LedgerView) -> Seq<Seq<u8>> {
    principals_of(sorted_keys(view.controllers.dom()))
}

/// The controllers, in ascending order of their stored forms.
pub fn list_controllers(ledger: &Ledger) -> (r: Vec<Vec<u8>>)
    ensures
        byte_strings(r@) == listed_controllers(ledger@),
{
    let keys = principal_map_keys(&ledger.controllers);
    let ghost blobs = key_views(keys@);
    let mut out: Vec<Vec<u8>> = Vec::new();
    let mut i: usize = 0;
    while i < keys.len()
        invariant
            i <= keys@.len(),
            blobs == key_views(keys@),
            byte_strings(out@) == principals_of(blobs.subrange(0, i as int)),
        decreases keys@.len() - i,
    {
        let key = keys[i];
        assert(blobs.subrange(0, i + 1).drop_last() =~= blobs.subrange(0, i as int));
        match blob_to_principal(key.as_slice()) {
            Some(p) => {
                out.push(p);
            },
            None => {},
        }
        i += 1;
    }
    proof {
        assert(blobs.subrange(0, i as int) =~= blobs);
        lemma_sorted_keys(blobs, ledger@.controllers.dom());
    }
    out
}

/// The bytes of "icrc151:dedup:v1".
pub open spec fn dedup_domain() -> Seq<u8> {
    seq![105u8, 99, 114, 99, 49, 53, 49, 58, 100, 101, 100, 117, 112, 58, 118, 49]
}

/// The fingerprint of a write: the digest of the dedup domain, the caller's
/// bytes, the token id, the creation time (most significant byte first) and
/// the memo, where there is one.
pub open spec fn dedup_key(
    caller: Seq<u8>,
    token_id: Seq<u8>,
    created_at_time: u64,
    memo: Option<Seq<u8>>,
) -> Seq<u8> {
    sha256(
        dedup_domain() + caller + token_id + u64_be(created_at_time) + match memo {
            Some(m) => m,
            None => Seq::empty(),
        },
    )
}

/// The fingerprint of a write.
pub fn compute_dedup_key(
    caller: &[u8],
    token_id: TokenId,
    created_at_time: u64,
    memo: Option<&[u8]>,
) -> (key: [u8; 32])
    ensures
        key@ == dedup_key(caller@, token_id@, created_at_time, memo_bytes(memo)),
{
    let tag: [u8; 16] = [105u8, 99, 114, 99, 49, 53, 49, 58, 100, 101, 100, 117, 112, 58, 118, 49];
    let be = u64_to_be_bytes(created_at_time);
    let mut buf: Vec<u8> = Vec::new();
    buf.extend_from_slice(tag.as_slice());
    buf.extend_from_slice(caller);
    buf.extend_from_slice(token_id.as_slice());
    buf.extend_from_slice(be.as_slice());
    match memo {
        Some(memo_data) => {
            buf.extend_from_slice(memo_data);
            assert(buf@ =~= dedup_domain() + caller@ + token_id@ + u64_be(created_at_time)
                + memo_data@);
        },
        None => {
            assert(buf@ =~= dedup_domain() + caller@ + token_id@ + u64_be(created_at_time)
                + Seq::<u8>::empty());
        },
    }
    sha256_digest(buf.as_slice())
}

/// The index of the transaction that was recorded for a fingerprint, if one was.
pub fn check_duplicate(ledger: &Ledger, dedup_key: [u8; 32]) -> (r: Option<u64>)
    ensures
        r == ledger@.duplicate_of(dedup_key@),
{
    index_map_get(&ledger.dedup_map, &dedup_key)
}

/// Records a fingerprint for a transaction. Nothing is ever evicted.
pub fn record_transaction_dedup(ledger: &mut Ledger, dedup_key: [u8; 32], tx_index: u64)
    ensures
        final(ledger)@ == old(ledger)@.with_dedup(dedup_key@, tx_index),
{
    index_map_insert(&mut ledger.dedup_map, dedup_key, tx_index);
}

/// Registers a token, or replaces the metadata of a registered one.
pub fn register_token(ledger: &mut Ledger, token_id: TokenId, metadata: StoredTokenMetadata)
    ensures
        final(ledger)@ == old(ledger)@.with_token(token_id@, metadata@),
{
    token_map_insert(&mut ledger.token_registry, token_id, metadata);
}

/// The metadata of a token, if it is registered.
pub fn get_token_metadata(ledger: &Ledger, token_id: TokenId) -> (r: Option<StoredTokenMetadata>)
    ensures
        match r {
            Some(m) => ledger@.metadata(token_id@) == Some(m@),
            None => ledger@.metadata(token_id@).is_none(),
        },
{
    token_map_get(&ledger.token_registry, &token_id)
}

/// Whether a token is registered.
pub fn token_exists(ledger: &Ledger, token_id: TokenId) -> (r: bool)
    ensures
        r == ledger@.tokens.contains_key(token_id@),
{
    token_map_contains(&ledger.token_registry, &token_id)
}

/// The ids of all registered tokens, in ascending order.
pub fn list_token_ids(ledger: &Ledger) -> (r: Vec<TokenId>)
    ensures
        lists_keys(key_views(r@), ledger@.tokens.dom()),
        key_views(r@) == sorted_keys(ledger@.tokens.dom()),
{
    let ids = token_map_keys(&ledger.token_registry);
    proof {
        lemma_sorted_keys(key_views(ids@), ledger@.tokens.dom());
    }
    ids
}

/// Writes the fee of a registered token.
pub fn update_token_fee(ledger: &mut Ledger, token_id: TokenId, new_fee: u128) -> (r: Result<
    (),
    String,
>)
    ensures
        match r {
            Ok(_) => old(ledger)@.tokens.contains_key(token_id@) && final(ledger)@ == old(ledger)@.with_fee(token_id@, new_fee),
            Err(msg) => !old(ledger)@.tokens.contains_key(token_id@) && final(ledger)@ == old(ledger)@ && msg@ == "Token not found"@,
        },
{
    match token_map_get(&ledger.token_registry, &token_id) {
        Some(metadata) => {
            let mut metadata = metadata;
            metadata.fee = new_fee;
            token_map_insert(&mut ledger.token_registry, token_id, metadata);
            Ok(())
        },
        None => Err(String::from_str("Token not found")),
    }
}

/// Writes the total supply of a registered token.
pub fn update_total_supply(ledger: &mut Ledger, token_id: TokenId, new_supply: u128) -> (r: Result<
    (),
    String,
>)
    ensures
        match r {
            Ok(_) => old(ledger)@.tokens.contains_key(token_id@) && final(ledger)@ == old(ledger)@.with_supply(token_id@, new_supply),
            Err(msg) => !old(ledger)@.tokens.contains_key(token_id@) && final(ledger)@ == old(ledger)@ && msg@ == "Token not found in registry"@,
        },
{
    match token_map_get(&ledger.token_registry, &token_id) {
        Some(metadata) => {
            let mut metadata = metadata;
            metadata.total_supply = new_supply;
            token_map_insert(&mut ledger.token_registry, token_id, metadata);
            Ok(())
        },
        None => Err(String::from_str("Token not found in registry")),
    }
}

/// Records when an allowance expires.
pub fn set_allowance_expiry(
    ledger: &mut Ledger,
    token_id: TokenId,
    owner_key: AccountKey,
    spender_key: AccountKey,
    expires_at: u64,
)
    ensures
        final(ledger)@ == old(ledger)@.with_expiry(
            token_id@,
            owner_key@,
            spender_key@,
            expires_at,
        ),
{
    let expiry_key = hash_allowance_key(token_id, owner_key, spender_key);
    index_map_insert(&mut ledger.allowance_expiry, expiry_key, expires_at);
}

/// When an allowance expires, if an expiry is recorded.
pub fn get_allowance_expiry(
    ledger: &Ledger,
    token_id: TokenId,
    owner_key: AccountKey,
    spender_key: AccountKey,
) -> (r: Option<u64>)
    ensures
        r == ledger@.allowance_expiry(token_id@, owner_key@, spender_key@),
{
    let expiry_key = hash_allowance_key(token_id, owner_key, spender_key);
    index_map_get(&ledger.allowance_expiry, &expiry_key)
}

/// An allowance has expired at `now` where it has an expiry and `now` is not
/// before it.
pub open spec fn expired_at(expires_at: Option<u64>, now: u64) -> bool {
    match expires_at {
        Some(exp) => now >= exp,
        None => false,
    }
}

/// Whether an allowance with this expiry has expired at `now`.
pub fn is_allowance_expired(expires_at: Option<u64>, now: u64) -> (r: bool)
    ensures
        r == expired_at(expires_at, now),
{
    match expires_at {
        Some(exp) => now >= exp,
        None => false,
    }
}

/// Stores the full memo of a transaction.
pub fn store_extended_memo(ledger: &mut Ledger, tx_index: u64, memo: Vec<u8>)
    ensures
        final(ledger)@ == old(ledger)@.with_memo(tx_index, memo@),
{
    memo_map_insert(&mut ledger.extended_memos, tx_index, memo);
}

/// The full memo of a transaction, if one is stored.
pub fn get_extended_memo(ledger: &Ledger, tx_index: u64) -> (r: Option<Vec<u8>>)
    ensures
        match r {
            Some(m) => ledger@.memos.contains_key(tx_index) && m@ == ledger@.memos[tx_index],
            None => !ledger@.memos.contains_key(tx_index),
        },
{
    memo_map_get(&ledger.extended_memos, tx_index)
}

/// The number of fingerprints that are recorded.
pub fn get_dedup_map_size(ledger: &Ledger) -> (r: u64)
    ensures
        r == ledger@.dedup.dom().len(),
{
    index_map_len(&ledger.dedup_map)
}

/// The number of expiries that are recorded.
pub fn get_allowance_expiry_size(ledger: &Ledger) -> (r: u64)
    ensures
        r == ledger@.expiry.dom().len(),
{
    index_map_len(&ledger.allowance_expiry)
}

/// The number of full memos that are stored.
pub fn get_extended_memos_size(ledger: &Ledger) -> (r: u64)
    ensures
        r == ledger@.memos.dom().len(),
{
    memo_map_len(&ledger.extended_memos)
}

/// The number of tokens for which a holder count is stored.
pub fn get_holder_counts_size(ledger: &Ledger) -> (r: u64)
    ensures
        r == ledger@.holders.dom().len(),
{
    index_map_len(&ledger.holder_counts)
}

} // verus!
