use vstd::prelude::*;

verus! {

/// How far ahead of the ledger's clock a request's creation time may lie, in nanoseconds.
pub const MAX_FUTURE_DRIFT: u64 = 300_000_000_000;

/// How far behind the ledger's clock a request's creation time may lie, in nanoseconds.
pub const MAX_PAST_DRIFT: u64 = 600_000_000_000;

} // verus!
