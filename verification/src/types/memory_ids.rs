use vstd::prelude::*;

verus! {

/// Token id to token metadata.
pub const TOKEN_REGISTRY: u8 = 0;

/// Balance key to balance.
pub const BALANCE_STORAGE: u8 = 1;

/// Allowance key to allowance.
pub const ALLOWANCE_STORAGE: u8 = 2;

/// The records of the transaction log.
pub const TRANSACTION_LOG: u8 = 3;

/// Kept free for an index of recent transactions.
pub const TX_INDEX_RECENT: u8 = 4;

/// Kept free for an index of archives.
pub const ARCHIVE_INDEX: u8 = 5;

/// Controller handle and counters.
pub const SYSTEM_STATE: u8 = 6;

/// Kept free for a mapping from tokens to accounts.
pub const TOKEN_ACCOUNTS_INDEX: u8 = 7;

/// Kept free for a mapping from accounts to tokens.
pub const ACCOUNT_TOKENS_INDEX: u8 = 8;

/// Transaction index to the full memo, where the memo is longer than 32 bytes.
pub const EXTENDED_MEMOS: u8 = 9;

/// Allowance key to the time at which the allowance expires.
pub const ALLOWANCE_EXPIRY_INDEX: u8 = 10;

/// The offsets of the records of the transaction log.
pub const TX_INDEX_BUFFER: u8 = 11;

/// Dedup key to transaction index.
pub const DEDUP_MAP: u8 = 12;

/// The set of controllers.
pub const CONTROLLERS: u8 = 13;

/// Token id to the number of accounts that hold the token.
pub const HOLDER_COUNTS: u8 = 14;

/// The first id that no region uses.
pub const RESERVED_START: u8 = 15;

} // verus!
