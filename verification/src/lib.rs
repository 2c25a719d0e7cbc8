//! A ledger for many fungible tokens: balances, allowances and an
//! append-only log of transactions, held in stable memory, with every
//! write checked, applied in full or not at all, and answered with the
//! index of its log record.
//!
//! - `types`: accounts, keys and their derivation, stored forms.
//! - `transaction`: the 256-byte log record and its packing.
//! - `validation`: the checks on the inputs of a request.
//! - `storage`: the stable maps and the log, as far as the ledger uses them.
//! - `model`: the ledger as mathematical maps, and what each write does to it.
//! - `state`: the ledger itself and the reads and writes of its parts.
//! - `operations`, `allowances`: transfer, mint, burn, token creation and
//!   controllers; approve and transfer by a spender.
//! - `queries`: the read-only views.
//! - `invariants`: what holds of the ledger after every write.
//! - `listing`, `codec`: ordered lists of keys; bytes, digests and numbers.

pub mod allowances;
pub mod codec;
pub mod invariants;
pub mod listing;
pub mod model;
pub mod operations;
pub mod queries;
pub mod state;
pub mod storage;
pub mod transaction;
pub mod types;
pub mod validation;

pub use types::{Account, TokenId};
