use vstd::prelude::*;
use ic_stable_structures::{DefaultMemoryImpl, Log, StableBTreeMap};
use ic_stable_structures::memory_manager::{MemoryId, MemoryManager, VirtualMemory};
use crate::listing::{key_views, lists_keys};
use crate::types::{Account, StoredTokenMetadata, StoredTokenMetadataView};

verus! {

/// The stable memory, split into numbered regions by
/// `ic_stable_structures::memory_manager::MemoryManager`.
#[verifier::external_body]
pub struct MemoryRegions {
    inner: MemoryManager<DefaultMemoryImpl>,
}

/// A stable map from 32-byte keys to amounts.
///
/// This and the structures below hold a structure of `ic_stable_structures`
/// in a private field. Verus does not look inside: what a structure holds has
/// a name (`amount_entries` and the like), and each method that the ledger
/// calls has a function here whose contract says over that name what the
/// method does. None of these contracts is proved.
#[verifier::external_body]
pub struct AmountMap {
    inner: StableBTreeMap<[u8; 32], u128, VirtualMemory<DefaultMemoryImpl>>,
}

/// A stable map from 32-byte keys to 64-bit numbers.
#[verifier::external_body]
pub struct IndexMap {
    inner: StableBTreeMap<[u8; 32], u64, VirtualMemory<DefaultMemoryImpl>>,
}

/// A stable map from 32-byte keys to byte strings.
#[verifier::external_body]
pub struct BlobMap {
    inner: StableBTreeMap<[u8; 32], Vec<u8>, VirtualMemory<DefaultMemoryImpl>>,
}

/// A stable map from transaction indices to byte strings.
#[verifier::external_body]
pub struct MemoMap {
    inner: StableBTreeMap<u64, Vec<u8>, VirtualMemory<DefaultMemoryImpl>>,
}

/// A stable map whose keys are principals in their stored form of 30 bytes.
#[verifier::external_body]
pub struct PrincipalMap {
    inner: StableBTreeMap<[u8; 30], u8, VirtualMemory<DefaultMemoryImpl>>,
}

/// A stable map from token ids to token metadata. A record is stored as
/// nested triples of its fields.
#[verifier::external_body]
pub struct TokenMap {
    inner: StableBTreeMap<
        [u8; 32],
        (
            (String, String, u8),
            (u128, u128, u64),
            ((Vec<u8>, Option<Vec<u8>>, Vec<u8>), Option<String>, Option<String>),
        ),
        VirtualMemory<DefaultMemoryImpl>,
    >,
}

/// A stable append-only log of byte strings.
#[verifier::external_body]
pub struct RecordLog {
    inner: Log<Vec<u8>, VirtualMemory<DefaultMemoryImpl>, VirtualMemory<DefaultMemoryImpl>>,
}

/// The entries of an amount map.
pub uninterp spec fn amount_entries(m: AmountMap) -> Map<Seq<u8>, u128>;

/// The entries of an index map.
pub uninterp spec fn index_entries(m: IndexMap) -> Map<Seq<u8>, u64>;

/// The entries of a blob map.
pub uninterp spec fn blob_entries(m: BlobMap) -> Map<Seq<u8>, Seq<u8>>;

/// The entries of a memo map.
pub uninterp spec fn memo_entries(m: MemoMap) -> Map<u64, Seq<u8>>;

/// The entries of a principal map.
pub uninterp spec fn principal_entries(m: PrincipalMap) -> Map<Seq<u8>, u8>;

/// The entries of a token map.
pub uninterp spec fn token_entries(m: TokenMap) -> Map<Seq<u8>, StoredTokenMetadataView>;

/// The entries of a record log, in the order in which they were appended.
pub uninterp spec fn log_entries(l: RecordLog) -> Seq<Seq<u8>>;

/// The number of the memory region that an amount map was opened on.
pub uninterp spec fn amount_map_region(m: AmountMap) -> u8;

/// The number of the memory region that an index map was opened on.
pub uninterp spec fn index_map_region(m: IndexMap) -> u8;

/// The number of the memory region that a blob map was opened on.
pub uninterp spec fn blob_map_region(m: BlobMap) -> u8;

/// The number of the memory region that a memo map was opened on.
pub uninterp spec fn memo_map_region(m: MemoMap) -> u8;

/// The number of the memory region that a principal map was opened on.
pub uninterp spec fn principal_map_region(m: PrincipalMap) -> u8;

/// The number of the memory region that a token map was opened on.
pub uninterp spec fn token_map_region(m: TokenMap) -> u8;

/// The number of the memory region that holds the entries of a record log.
pub uninterp spec fn record_log_data_region(l: RecordLog) -> u8;

/// The number of the memory region that holds the offsets of the entries of
/// a record log.
pub uninterp spec fn record_log_index_region(l: RecordLog) -> u8;

/// `MemoryManager::init` on the default memory. Nothing is promised of what
/// the regions hold: that depends on what the memory held before.
#[verifier::external_body]
pub(crate) fn open_regions() -> MemoryRegions {
    MemoryRegions { inner: MemoryManager::init(DefaultMemoryImpl::default()) }
}

/// `StableBTreeMap::init` on the memory that `MemoryManager::get` gives for
/// region `id`: loads the map that the region holds, or makes an empty one.
/// The map lies in that region; nothing is promised of its entries.
#[verifier::external_body]
pub(crate) fn open_amount_map(regions: &MemoryRegions, id: u8) -> (m: AmountMap)
    requires
        id < 255,
    ensures
        amount_map_region(m) == id,
{
    AmountMap { inner: StableBTreeMap::init(regions.inner.get(MemoryId::new(id))) }
}

/// `StableBTreeMap::init` on the memory that `MemoryManager::get` gives for
/// region `id`. The map lies in that region; nothing is promised of its
/// entries.
#[verifier::external_body]
pub(crate) fn open_index_map(regions: &MemoryRegions, id: u8) -> (m: IndexMap)
    requires
        id < 255,
    ensures
        index_map_region(m) == id,
{
    IndexMap { inner: StableBTreeMap::init(regions.inner.get(MemoryId::new(id))) }
}

/// `StableBTreeMap::init` on the memory that `MemoryManager::get` gives for
/// region `id`. The map lies in that region; nothing is promised of its
/// entries.
#[verifier::external_body]
pub(crate) fn open_blob_map(regions: &MemoryRegions, id: u8) -> (m: BlobMap)
    requires
        id < 255,
    ensures
        blob_map_region(m) == id,
{
    BlobMap { inner: StableBTreeMap::init(regions.inner.get(MemoryId::new(id))) }
}

/// `StableBTreeMap::init` on the memory that `MemoryManager::get` gives for
/// region `id`. The map lies in that region; nothing is promised of its
/// entries.
#[verifier::external_body]
pub(crate) fn open_memo_map(regions: &MemoryRegions, id: u8) -> (m: MemoMap)
    requires
        id < 255,
    ensures
        memo_map_region(m) == id,
{
    MemoMap { inner: StableBTreeMap::init(regions.inner.get(MemoryId::new(id))) }
}

/// `StableBTreeMap::init` on the memory that `MemoryManager::get` gives for
/// region `id`. The map lies in that region; nothing is promised of its
/// entries.
#[verifier::external_body]
pub(crate) fn open_principal_map(regions: &MemoryRegions, id: u8) -> (m: PrincipalMap)
    requires
        id < 255,
    ensures
        principal_map_region(m) == id,
{
    PrincipalMap { inner: StableBTreeMap::init(regions.inner.get(MemoryId::new(id))) }
}

/// `StableBTreeMap::init` on the memory that `MemoryManager::get` gives for
/// region `id`. The map lies in that region; nothing is promised of its
/// entries.
#[verifier::external_body]
pub(crate) fn open_token_map(regions: &MemoryRegions, id: u8) -> (m: TokenMap)
    requires
        id < 255,
    ensures
        token_map_region(m) == id,
{
    TokenMap { inner: StableBTreeMap::init(regions.inner.get(MemoryId::new(id))) }
}

/// `Log::init` with region `data` for the entries and region `index` for
/// their offsets. `None` where the regions hold a log of another layout:
/// that depends on what the memory held before. A log that is returned lies
/// in these two regions; nothing is promised of its entries.
#[verifier::external_body]
pub(crate) fn open_record_log(regions: &MemoryRegions, data: u8, index: u8) -> (r: Option<
    RecordLog,
>)
    requires
        data < 255,
        index < 255,
    ensures
        r matches Some(l) ==> record_log_data_region(l) == data && record_log_index_region(l)
            == index,
{
    let index_memory = regions.inner.get(MemoryId::new(index));
    let data_memory = regions.inner.get(MemoryId::new(data));
    Log::init(index_memory, data_memory).ok().map(|inner| RecordLog { inner })
}

/// `StableBTreeMap::get`: the value stored under `key`, if there is one.
#[verifier::external_body]
pub(crate) fn amount_map_get(m: &AmountMap, key: &[u8; 32]) -> (r: Option<u128>)
    ensures
        r == (if amount_entries(*m).contains_key(key@) {
            Some(amount_entries(*m)[key@])
        } else {
            None
        }),
{
    m.inner.get(key)
}

/// `StableBTreeMap::insert`: afterwards `key` maps to `value`, and every
/// other key to what it mapped to before. The call traps where stable memory
/// cannot grow; the contract speaks of the calls that return.
#[verifier::external_body]
pub(crate) fn amount_map_insert(m: &mut AmountMap, key: [u8; 32], value: u128)
    ensures
        amount_entries(*final(m)) == amount_entries(*old(m)).insert(key@, value),
{
    m.inner.insert(key, value);
}

/// `StableBTreeMap::remove`: afterwards `key` has no entry, and every other
/// key maps to what it mapped to before.
#[verifier::external_body]
pub(crate) fn amount_map_remove(m: &mut AmountMap, key: &[u8; 32])
    ensures
        amount_entries(*final(m)) == amount_entries(*old(m)).remove(key@),
{
    m.inner.remove(key);
}

/// `StableBTreeMap::get`: the value stored under `key`, if there is one.
#[verifier::external_body]
pub(crate) fn index_map_get(m: &IndexMap, key: &[u8; 32]) -> (r: Option<u64>)
    ensures
        r == (if index_entries(*m).contains_key(key@) {
            Some(index_entries(*m)[key@])
        } else {
            None
        }),
{
    m.inner.get(key)
}

/// `StableBTreeMap::insert`: afterwards `key` maps to `value`, and every
/// other key to what it mapped to before. The call traps where stable memory
/// cannot grow; the contract speaks of the calls that return.
#[verifier::external_body]
pub(crate) fn index_map_insert(m: &mut IndexMap, key: [u8; 32], value: u64)
    ensures
        index_entries(*final(m)) == index_entries(*old(m)).insert(key@, value),
{
    m.inner.insert(key, value);
}

/// `StableBTreeMap::len`: the number of entries.
#[verifier::external_body]
pub(crate) fn index_map_len(m: &IndexMap) -> (r: u64)
    ensures
        r == index_entries(*m).dom().len(),
{
    m.inner.len()
}

/// `StableBTreeMap::get`: the value stored under `key`, if there is one.
#[verifier::external_body]
pub(crate) fn blob_map_get(m: &BlobMap, key: &[u8; 32]) -> (r: Option<Vec<u8>>)
    ensures
        match r {
            Some(v) => blob_entries(*m).contains_key(key@) && v@ == blob_entries(*m)[key@],
            None => !blob_entries(*m).contains_key(key@),
        },
{
    m.inner.get(key)
}

/// `StableBTreeMap::insert`: afterwards `key` maps to `value`, and every
/// other key to what it mapped to before. The call traps where stable memory
/// cannot grow; the contract speaks of the calls that return.
#[verifier::external_body]
pub(crate) fn blob_map_insert(m: &mut BlobMap, key: [u8; 32], value: Vec<u8>)
    ensures
        blob_entries(*final(m)) == blob_entries(*old(m)).insert(key@, value@),
{
    m.inner.insert(key, value);
}

/// `StableBTreeMap::get`: the value stored under `key`, if there is one.
#[verifier::external_body]
pub(crate) fn memo_map_get(m: &MemoMap, key: u64) -> (r: Option<Vec<u8>>)
    ensures
        match r {
            Some(v) => memo_entries(*m).contains_key(key) && v@ == memo_entries(*m)[key],
            None => !memo_entries(*m).contains_key(key),
        },
{
    m.inner.get(&key)
}

/// `StableBTreeMap::insert`: afterwards `key` maps to `value`, and every
/// other key to what it mapped to before. The call traps where stable memory
/// cannot grow; the contract speaks of the calls that return.
#[verifier::external_body]
pub(crate) fn memo_map_insert(m: &mut MemoMap, key: u64, value: Vec<u8>)
    ensures
        memo_entries(*final(m)) == memo_entries(*old(m)).insert(key, value@),
{
    m.inner.insert(key, value);
}

/// `StableBTreeMap::len`: the number of entries.
#[verifier::external_body]
pub(crate) fn memo_map_len(m: &MemoMap) -> (r: u64)
    ensures
        r == memo_entries(*m).dom().len(),
{
    m.inner.len()
}

/// `StableBTreeMap::contains_key`: whether `key` has an entry.
#[verifier::external_body]
pub(crate) fn principal_map_contains(m: &PrincipalMap, key: &[u8; 30]) -> (r: bool)
    ensures
        r == principal_entries(*m).contains_key(key@),
{
    m.inner.contains_key(key)
}

/// `StableBTreeMap::insert`: afterwards `key` maps to `value`, and every
/// other key to what it mapped to before. The call traps where stable memory
/// cannot grow; the contract speaks of the calls that return.
#[verifier::external_body]
pub(crate) fn principal_map_insert(m: &mut PrincipalMap, key: [u8; 30], value: u8)
    ensures
        principal_entries(*final(m)) == principal_entries(*old(m)).insert(key@, value),
{
    m.inner.insert(key, value);
}

/// `StableBTreeMap::remove`: afterwards `key` has no entry, and every other
/// key maps to what it mapped to before.
#[verifier::external_body]
pub(crate) fn principal_map_remove(m: &mut PrincipalMap, key: &[u8; 30])
    ensures
        principal_entries(*final(m)) == principal_entries(*old(m)).remove(key@),
{
    m.inner.remove(key);
}

/// `StableBTreeMap::keys`, collected: every key once, in ascending order.
#[verifier::external_body]
pub(crate) fn principal_map_keys(m: &PrincipalMap) -> (r: Vec<[u8; 30]>)
    ensures
        lists_keys(key_views(r@), principal_entries(*m).dom()),
{
    m.inner.keys().collect()
}

/// `StableBTreeMap::get`: the metadata stored under `key`, if there is one.
#[verifier::external_body]
pub(crate) fn token_map_get(m: &TokenMap, key: &[u8; 32]) -> (r: Option<StoredTokenMetadata>)
    ensures
        match r {
            Some(v) => token_entries(*m).contains_key(key@) && v@ == token_entries(*m)[key@],
            None => !token_entries(*m).contains_key(key@),
        },
{
    let ((name, symbol, decimals), (total_supply, fee, created_at), (who, logo, description)) =
        m.inner.get(key)?;
    let (owner, subaccount, controller) = who;
    let fee_recipient = Account { owner, subaccount };
    Some(StoredTokenMetadata {
        name, symbol, decimals, total_supply, fee, fee_recipient, logo, description,
        created_at, controller,
    })
}

/// `StableBTreeMap::insert`: afterwards `key` maps to `value`, and every
/// other key to what it mapped to before. The call traps where stable memory
/// cannot grow; the contract speaks of the calls that return.
#[verifier::external_body]
pub(crate) fn token_map_insert(m: &mut TokenMap, key: [u8; 32], value: StoredTokenMetadata)
    ensures
        token_entries(*final(m)) == token_entries(*old(m)).insert(key@, value@),
{
    let Account { owner, subaccount } = value.fee_recipient;
    let names = (value.name, value.symbol, value.decimals);
    let numbers = (value.total_supply, value.fee, value.created_at);
    let rest = ((owner, subaccount, value.controller), value.logo, value.description);
    m.inner.insert(key, (names, numbers, rest));
}

/// `StableBTreeMap::contains_key`: whether `key` has an entry.
#[verifier::external_body]
pub(crate) fn token_map_contains(m: &TokenMap, key: &[u8; 32]) -> (r: bool)
    ensures
        r == token_entries(*m).contains_key(key@),
{
    m.inner.contains_key(key)
}

/// `StableBTreeMap::keys`, collected: every key once, in ascending order.
#[verifier::external_body]
pub(crate) fn token_map_keys(m: &TokenMap) -> (r: Vec<[u8; 32]>)
    ensures
        lists_keys(key_views(r@), token_entries(*m).dom()),
{
    m.inner.keys().collect()
}

/// `StableBTreeMap::is_empty`: whether the map has no entry.
#[verifier::external_body]
pub(crate) fn amount_map_is_empty(m: &AmountMap) -> (r: bool)
    ensures
        r == (amount_entries(*m) == Map::<Seq<u8>, u128>::empty()),
{
    m.inner.is_empty()
}

/// `StableBTreeMap::is_empty`: whether the map has no entry.
#[verifier::external_body]
pub(crate) fn index_map_is_empty(m: &IndexMap) -> (r: bool)
    ensures
        r == (index_entries(*m) == Map::<Seq<u8>, u64>::empty()),
{
    m.inner.is_empty()
}

/// `StableBTreeMap::is_empty`: whether the map has no entry.
#[verifier::external_body]
pub(crate) fn blob_map_is_empty(m: &BlobMap) -> (r: bool)
    ensures
        r == (blob_entries(*m) == Map::<Seq<u8>, Seq<u8>>::empty()),
{
    m.inner.is_empty()
}

/// `StableBTreeMap::is_empty`: whether the map has no entry.
#[verifier::external_body]
pub(crate) fn memo_map_is_empty(m: &MemoMap) -> (r: bool)
    ensures
        r == (memo_entries(*m) == Map::<u64, Seq<u8>>::empty()),
{
    m.inner.is_empty()
}

/// `StableBTreeMap::is_empty`: whether the map has no entry.
#[verifier::external_body]
pub(crate) fn principal_map_is_empty(m: &PrincipalMap) -> (r: bool)
    ensures
        r == (principal_entries(*m) == Map::<Seq<u8>, u8>::empty()),
{
    m.inner.is_empty()
}

/// `StableBTreeMap::is_empty`: whether the map has no entry.
#[verifier::external_body]
pub(crate) fn token_map_is_empty(m: &TokenMap) -> (r: bool)
    ensures
        r == (token_entries(*m) == Map::<Seq<u8>, StoredTokenMetadataView>::empty()),
{
    m.inner.is_empty()
}

/// `Log::append`: where it succeeds, the entry is added at the end and its
/// index, the length before, is returned; where the memory cannot grow, it
/// fails and the log is as before.
#[verifier::external_body]
pub(crate) fn record_log_append(l: &mut RecordLog, entry: Vec<u8>) -> (r: Option<u64>)
    ensures
        match r {
            Some(i) => i == log_entries(*old(l)).len() && log_entries(*final(l)) == log_entries(
                *old(l),
            ).push(entry@),
            None => log_entries(*final(l)) == log_entries(*old(l)),
        },
{
    l.inner.append(&entry).ok()
}

/// `Log::get`: the entry at `index`, if the log is that long.
#[verifier::external_body]
pub(crate) fn record_log_get(l: &RecordLog, index: u64) -> (r: Option<Vec<u8>>)
    ensures
        match r {
            Some(v) => index < log_entries(*l).len() && v@ == log_entries(*l)[index as int],
            None => index >= log_entries(*l).len(),
        },
{
    l.inner.get(index)
}

/// `Log::len`: the number of entries.
#[verifier::external_body]
pub(crate) fn record_log_len(l: &RecordLog) -> (r: u64)
    ensures
        r == log_entries(*l).len(),
{
    l.inner.len()
}

} // verus!
