use vstd::prelude::*;
use crate::allowances::{ApproveCall, TransferFromCall};
use crate::codec::{lemma_u64_be_roundtrip, u64_be};
use crate::listing::{lemma_lt_irreflexive, lists_keys, sorted_keys};
use crate::model::{
    blob_principal, counter_at, principals_of, storable_principal, stored_blob, tx_count_slot,
    LedgerView,
};
use crate::operations::{
    is_last_of, removal_fault, settled, settled_text, BurnCall, CreateCall, Fault, MintCall,
    TransferCall,
};
use crate::state::listed_controllers;
use crate::transaction::{decode_record, encode_record, lemma_decode_encode, StoredTxV1, TxRecord};
use crate::types::balance_key;

verus! {

/// No balance and no allowance of zero is stored.
pub open spec fn canonical(v: LedgerView) -> bool {
    &&& forall|k: Seq<u8>| v.balances.contains_key(k) ==> v.balances[k] > 0
    &&& forall|k: Seq<u8>| v.allowances.contains_key(k) ==> v.allowances[k] > 0
}

/// The global transaction counter is the length of the log.
pub open spec fn counted(v: LedgerView) -> bool {
    v.tx_count() == v.log.len()
}

/// Every index that the dedup map holds is the index of a record of the log.
pub open spec fn dedup_in_log(v: LedgerView) -> bool {
    forall|k: Seq<u8>| v.dedup.contains_key(k) ==> v.dedup[k] < v.log.len()
}

/// What holds of the ledger's books whatever its keys are: nothing of zero
/// is stored, the counter follows the log, and the dedup map points into the
/// log.
pub open spec fn well_kept(v: LedgerView) -> bool {
    canonical(v) && counted(v) && dedup_in_log(v)
}

/// A counter that was written is read back.
pub proof fn lemma_counter_written(system: Map<Seq<u8>, Seq<u8>>, slot: Seq<u8>, n: u64)
    ensures
        counter_at(system.insert(slot, u64_be(n)), slot) == n,
{
    lemma_u64_be_roundtrip(n);
    assert(u64_be(n).subrange(0, 8) =~= u64_be(n));
}

/// The books of a ledger that holds nothing are well kept, also once its
/// system state has been set up.
pub proof fn lemma_new_ledger_well_kept(controller: Seq<u8>)
    ensures
        well_kept(LedgerView::empty()),
        well_kept(
            LedgerView::empty().with_primary_controller(controller).with_token_nonce(
                0,
            ).with_tx_count(0).with_controller(controller),
        ),
{
    let v = LedgerView::empty().with_primary_controller(controller).with_token_nonce(0);
    lemma_counter_written(v.system, tx_count_slot(), 0);
}

/// Setting a balance or an allowance keeps the books well kept: a zero is
/// removed, not stored.
pub proof fn lemma_set_keeps_well_kept(
    v: LedgerView,
    token_id: Seq<u8>,
    a: Seq<u8>,
    b: Seq<u8>,
    amount: u128,
)
    requires
        well_kept(v),
    ensures
        well_kept(v.with_balance(token_id, a, amount)),
        well_kept(v.with_allowance(token_id, a, b, amount)),
{
}

/// What logging a transaction does: the packed record is the new last entry
/// of the log, the counter goes up by one, the dedup key points to the new
/// record, and balances, allowances, holder counts and tokens stay.
pub proof fn lemma_logged(v: LedgerView, record: TxRecord, memo: Option<Seq<u8>>, dedup: Seq<u8>)
    requires
        v.tx_count() < u64::MAX,
        v.log.len() <= u64::MAX,
    ensures
        ({
            let post = v.logged(record, memo, dedup);
            &&& post.log == v.log.push(encode_record(record))
            &&& post.log[v.next_index() as int] == encode_record(record)
            &&& post.tx_count() == v.tx_count() + 1
            &&& post.duplicate_of(dedup) == Some(v.next_index())
            &&& post.balances == v.balances
            &&& post.allowances == v.allowances
            &&& post.expiry == v.expiry
            &&& post.holders == v.holders
            &&& post.tokens == v.tokens
            &&& well_kept(v) ==> well_kept(post)
        }),
{
    lemma_counter_written(v.system, tx_count_slot(), (v.tx_count() + 1) as u64);
}

/// Every record in memory has fields of the widths of the layout, and is
/// what its packed bytes unpack to.
pub proof fn lemma_record_roundtrip(tx: StoredTxV1)
    ensures
        tx@.wf(),
        decode_record(encode_record(tx@)) == tx@,
{
    lemma_decode_encode(tx@);
}

/// The tokens and account keys that a statement on sums is about.
pub struct Universe {
    pub tokens: Set<Seq<u8>>,
    pub accounts: Seq<Seq<u8>>,
}

impl Universe {
    /// No two different pairs of a token and an account of the universe have
    /// the same balance key; in particular no account is listed twice.
    pub open spec fn collision_free(self) -> bool {
        forall|t1: Seq<u8>, t2: Seq<u8>, i: int, j: int|
            self.tokens.contains(t1) && self.tokens.contains(t2) && 0 <= i < self.accounts.len()
                && 0 <= j < self.accounts.len() && #[trigger] balance_key(t1, self.accounts[i])
                == #[trigger] balance_key(t2, self.accounts[j]) ==> t1 == t2 && i == j
    }

    /// The universe is free of collisions and its accounts can be counted in
    /// 64 bits.
    pub open spec fn wf(self) -> bool {
        self.collision_free() && self.accounts.len() <= u64::MAX
    }

    /// Whether the universe holds the account key.
    pub open spec fn has_account(self, account: Seq<u8>) -> bool {
        self.accounts.contains(account)
    }
}

/// The sum of the balances in a token of the first `n` listed accounts.
pub open spec fn balance_sum(v: LedgerView, token_id: Seq<u8>, accounts: Seq<Seq<u8>>, n: int) -> int
    decreases n,
{
    if n <= 0 {
        0
    } else {
        balance_sum(v, token_id, accounts, n - 1) + v.balance(token_id, accounts[n - 1])
    }
}

/// How many of the first `n` listed accounts hold the token.
pub open spec fn holder_tally(v: LedgerView, token_id: Seq<u8>, accounts: Seq<Seq<u8>>, n: int) -> int
    decreases n,
{
    if n <= 0 {
        0
    } else {
        holder_tally(v, token_id, accounts, n - 1) + if v.balance(token_id, accounts[n - 1]) > 0 {
            1int
        } else {
            0int
        }
    }
}

/// The balances of every token of the universe, summed over its accounts,
/// are the token's total supply.
pub open spec fn supply_matches(v: LedgerView, u: Universe) -> bool {
    forall|t: Seq<u8>|
        u.tokens.contains(t) ==> #[trigger] balance_sum(v, t, u.accounts, u.accounts.len() as int)
            == v.total_supply(t)
}

/// The holder count of every token of the universe is the number of its
/// accounts with a balance in the token that is not zero.
pub open spec fn holders_match(v: LedgerView, u: Universe) -> bool {
    forall|t: Seq<u8>|
        u.tokens.contains(t) ==> #[trigger] holder_tally(v, t, u.accounts, u.accounts.len() as int)
            == v.holder_count(t)
}

/// One if the amount is not zero, else zero.
pub open spec fn nonzero(amount: u128) -> int {
    if amount > 0 {
        1
    } else {
        0
    }
}

/// A tally counts at most the accounts it looks at.
proof fn lemma_tally_bounds(v: LedgerView, token_id: Seq<u8>, accounts: Seq<Seq<u8>>, n: int, i: int)
    requires
        0 <= i < n <= accounts.len(),
    ensures
        0 <= holder_tally(v, token_id, accounts, n) <= n,
        v.balance(token_id, accounts[i]) == 0 ==> holder_tally(v, token_id, accounts, n) <= n - 1,
        v.balance(token_id, accounts[i]) > 0 ==> holder_tally(v, token_id, accounts, n) >= 1,
    decreases n,
{
    if n - 1 > i {
        lemma_tally_bounds(v, token_id, accounts, n - 1, i);
    } else {
        lemma_tally_range(v, token_id, accounts, n - 1);
    }
}

/// A tally is at least zero and at most the number of accounts it looks at.
proof fn lemma_tally_range(v: LedgerView, token_id: Seq<u8>, accounts: Seq<Seq<u8>>, n: int)
    requires
        0 <= n <= accounts.len(),
    ensures
        0 <= holder_tally(v, token_id, accounts, n) <= n,
    decreases n,
{
    if n > 0 {
        lemma_tally_range(v, token_id, accounts, n - 1);
    }
}

/// Two ledgers with the same balances have the same sums and tallies.
proof fn lemma_same_balances(
    v: LedgerView,
    w: LedgerView,
    token_id: Seq<u8>,
    accounts: Seq<Seq<u8>>,
    n: int,
)
    requires
        v.balances == w.balances,
    ensures
        balance_sum(v, token_id, accounts, n) == balance_sum(w, token_id, accounts, n),
        holder_tally(v, token_id, accounts, n) == holder_tally(w, token_id, accounts, n),
    decreases n,
{
    if n > 0 {
        lemma_same_balances(v, w, token_id, accounts, n - 1);
    }
}

/// Setting the balance of one pair of the universe changes the sum and the
/// tally of its token by what the balance changes, and no other.
proof fn lemma_point_update(
    v: LedgerView,
    u: Universe,
    t0: Seq<u8>,
    i0: int,
    amount: u128,
    t: Seq<u8>,
    n: int,
)
    requires
        u.collision_free(),
        u.tokens.contains(t0),
        u.tokens.contains(t),
        0 <= i0 < u.accounts.len(),
        0 <= n <= u.accounts.len(),
    ensures
        ({
            let w = v.with_balance(t0, u.accounts[i0], amount);
            let before = v.balance(t0, u.accounts[i0]);
            &&& balance_sum(w, t, u.accounts, n) == balance_sum(v, t, u.accounts, n) + (if t == t0
                && i0 < n {
                amount - before
            } else {
                0
            })
            &&& holder_tally(w, t, u.accounts, n) == holder_tally(v, t, u.accounts, n) + (if t
                == t0 && i0 < n {
                nonzero(amount) - nonzero(before)
            } else {
                0
            })
        }),
    decreases n,
{
    if n > 0 {
        lemma_point_update(v, u, t0, i0, amount, t, n - 1);
        // Only the pair that is set has the key that is set.
        assert(balance_key(t, u.accounts[n - 1]) == balance_key(t0, u.accounts[i0]) ==> t == t0
            && n - 1 == i0);
    }
}

/// What setting a balance of the universe does to the sums, and that it
/// keeps the holder counts true.
pub proof fn lemma_with_balance(v: LedgerView, u: Universe, t0: Seq<u8>, a0: Seq<u8>, amount: u128)
    requires
        u.wf(),
        u.tokens.contains(t0),
        u.has_account(a0),
    ensures
        ({
            let w = v.with_balance(t0, a0, amount);
            let n = u.accounts.len() as int;
            &&& forall|t: Seq<u8>|
                u.tokens.contains(t) ==> #[trigger] balance_sum(w, t, u.accounts, n) == balance_sum(
                    v,
                    t,
                    u.accounts,
                    n,
                ) + (if t == t0 {
                    amount - v.balance(t0, a0)
                } else {
                    0
                })
            &&& holders_match(v, u) ==> holders_match(w, u)
            &&& w.tokens == v.tokens
            &&& w.balance(t0, a0) == amount
        }),
{
    let w = v.with_balance(t0, a0, amount);
    let n = u.accounts.len() as int;
    let i0 = choose|i: int| 0 <= i < u.accounts.len() && u.accounts[i] == a0;
    let before = v.balance(t0, a0);
    assert forall|t: Seq<u8>| u.tokens.contains(t) implies #[trigger] balance_sum(
        w,
        t,
        u.accounts,
        n,
    ) == balance_sum(v, t, u.accounts, n) + (if t == t0 {
        amount - before
    } else {
        0
    }) by {
        lemma_point_update(v, u, t0, i0, amount, t, n);
    }
    if holders_match(v, u) {
        assert forall|t: Seq<u8>| u.tokens.contains(t) implies #[trigger] holder_tally(
            w,
            t,
            u.accounts,
            n,
        ) == w.holder_count(t) by {
            lemma_point_update(v, u, t0, i0, amount, t, n);
            lemma_tally_bounds(v, t0, u.accounts, n, i0);
        }
    }
}

/// A change that leaves balances, holder counts and tokens as they are
/// leaves the sums and the holder counts true.
pub proof fn lemma_frame(v: LedgerView, w: LedgerView, u: Universe)
    requires
        w.balances == v.balances,
        w.holders == v.holders,
        w.tokens == v.tokens,
    ensures
        supply_matches(v, u) ==> supply_matches(w, u),
        holders_match(v, u) ==> holders_match(w, u),
{
    let n = u.accounts.len() as int;
    assert forall|t: Seq<u8>| u.tokens.contains(t) implies #[trigger] balance_sum(
        w,
        t,
        u.accounts,
        n,
    ) == balance_sum(v, t, u.accounts, n) by {
        lemma_same_balances(v, w, t, u.accounts, n);
    }
    assert forall|t: Seq<u8>| u.tokens.contains(t) implies #[trigger] holder_tally(
        w,
        t,
        u.accounts,
        n,
    ) == holder_tally(v, t, u.accounts, n) by {
        lemma_same_balances(v, w, t, u.accounts, n);
    }
}

/// Where the sums stay and the tokens stay, the sums stay true.
proof fn lemma_supply_same(v: LedgerView, w: LedgerView, u: Universe)
    requires
        w.tokens == v.tokens,
        forall|t: Seq<u8>|
            u.tokens.contains(t) ==> #[trigger] balance_sum(
                w,
                t,
                u.accounts,
                u.accounts.len() as int,
            ) == balance_sum(v, t, u.accounts, u.accounts.len() as int),
    ensures
        supply_matches(v, u) ==> supply_matches(w, u),
{
}

/// A change that leaves balances and holder counts as they are leaves the
/// holder counts true.
proof fn lemma_holders_frame(v: LedgerView, w: LedgerView, u: Universe)
    requires
        w.balances == v.balances,
        w.holders == v.holders,
    ensures
        holders_match(v, u) ==> holders_match(w, u),
{
    let n = u.accounts.len() as int;
    if holders_match(v, u) {
        assert forall|t: Seq<u8>| u.tokens.contains(t) implies #[trigger] holder_tally(
            w,
            t,
            u.accounts,
            n,
        ) == w.holder_count(t) by {
            lemma_same_balances(v, w, t, u.accounts, n);
        }
    }
}

/// A payment between accounts of the universe leaves the sum of every token
/// as it is and keeps the holder counts true.
pub proof fn lemma_moved(
    v: LedgerView,
    u: Universe,
    token_id: Seq<u8>,
    from: Seq<u8>,
    to: Seq<u8>,
    fee_to: Seq<u8>,
    amount: u128,
    fee: u128,
)
    requires
        u.wf(),
        u.tokens.contains(token_id),
        u.has_account(from),
        u.has_account(to),
        u.has_account(fee_to),
        amount + fee <= v.balance(token_id, from),
        !v.receiver_overflows(token_id, from, to, amount, fee),
        !v.fee_receiver_overflows(token_id, from, to, fee_to, amount, fee),
    ensures
        ({
            let w = v.moved(token_id, from, to, fee_to, amount, fee);
            let n = u.accounts.len() as int;
            &&& forall|t: Seq<u8>|
                u.tokens.contains(t) ==> #[trigger] balance_sum(w, t, u.accounts, n) == balance_sum(
                    v,
                    t,
                    u.accounts,
                    n,
                )
            &&& holders_match(v, u) ==> holders_match(w, u)
            &&& w.tokens == v.tokens
        }),
{
    let total = (amount + fee) as u128;
    let debited = v.debited(token_id, from, total);
    let credited = debited.credited(token_id, to, amount);
    lemma_with_balance(v, u, token_id, from, (v.balance(token_id, from) - total) as u128);
    lemma_with_balance(
        debited,
        u,
        token_id,
        to,
        (debited.balance(token_id, to) + amount) as u128,
    );
    if fee > 0 {
        lemma_with_balance(
            credited,
            u,
            token_id,
            fee_to,
            (credited.balance(token_id, fee_to) + fee) as u128,
        );
    }
}

/// A ledger whose supply of one token changed by what the sum of its
/// balances in that token changed keeps the sums true.
proof fn lemma_supply_follows(
    v: LedgerView,
    mid: LedgerView,
    w: LedgerView,
    u: Universe,
    token_id: Seq<u8>,
    change: int,
)
    requires
        v.tokens.contains_key(token_id),
        u.tokens.contains(token_id),
        0 <= v.total_supply(token_id) + change <= u128::MAX,
        mid.tokens == v.tokens,
        forall|t: Seq<u8>|
            u.tokens.contains(t) ==> #[trigger] balance_sum(
                mid,
                t,
                u.accounts,
                u.accounts.len() as int,
            ) == balance_sum(v, t, u.accounts, u.accounts.len() as int) + (if t == token_id {
                change
            } else {
                0
            }),
        w.balances == mid.balances,
        w.tokens == mid.with_supply(token_id, (v.total_supply(token_id) + change) as u128).tokens,
    ensures
        supply_matches(v, u) ==> supply_matches(w, u),
        w.total_supply(token_id) == v.total_supply(token_id) + change,
        forall|t: Seq<u8>| t != token_id ==> w.total_supply(t) == v.total_supply(t),
{
    let n = u.accounts.len() as int;
    if supply_matches(v, u) {
        assert forall|t: Seq<u8>| u.tokens.contains(t) implies #[trigger] balance_sum(
            w,
            t,
            u.accounts,
            n,
        ) == w.total_supply(t) by {
            lemma_same_balances(mid, w, t, u.accounts, n);
        }
    }
}

/// A transfer that is not refused appends its record to the log, counts it,
/// records its fingerprint for the record's index, changes no total supply
/// and keeps the books well kept.
pub proof fn lemma_transfer_commits(pre: LedgerView, call: TransferCall)
    requires
        call.fault(pre).is_none(),
        pre.log.len() <= u64::MAX,
    ensures
        ({
            let post = call.effect(pre);
            &&& post.log == pre.log.push(encode_record(call.record(pre)))
            &&& call.record(pre).wf() ==> decode_record(post.log[pre.next_index() as int])
                == call.record(pre)
            &&& post.tx_count() == pre.tx_count() + 1
            &&& post.duplicate_of(call.fingerprint()) == Some(pre.next_index())
            &&& post.tokens == pre.tokens
            &&& well_kept(pre) ==> well_kept(post)
        }),
{
    let paid = call.paid(pre);
    lemma_logged(paid, call.record(pre), call.memo, call.fingerprint());
    if call.record(pre).wf() {
        lemma_decode_encode(call.record(pre));
    }
    if well_kept(pre) {
        let total = call.total(pre) as u128;
        let debited = pre.debited(call.token_id, call.from_key(), total);
        lemma_set_keeps_well_kept(
            pre,
            call.token_id,
            call.from_key(),
            call.from_key(),
            (pre.balance(call.token_id, call.from_key()) - total) as u128,
        );
        lemma_set_keeps_well_kept(
            debited,
            call.token_id,
            call.to_key(),
            call.to_key(),
            (debited.balance(call.token_id, call.to_key()) + call.amount) as u128,
        );
        let credited = debited.credited(call.token_id, call.to_key(), call.amount);
        lemma_set_keeps_well_kept(
            credited,
            call.token_id,
            call.fee_key(pre),
            call.fee_key(pre),
            (credited.balance(call.token_id, call.fee_key(pre)) + call.fee_amount(pre)) as u128,
        );
    }
}

/// A transfer between accounts of the universe keeps the sum of the balances
/// of every token equal to its total supply, and every holder count equal
/// to the number of accounts that hold the token.
pub proof fn lemma_transfer_keeps_books(pre: LedgerView, call: TransferCall, u: Universe)
    requires
        call.fault(pre).is_none(),
        u.wf(),
        u.tokens.contains(call.token_id),
        u.has_account(call.from_key()),
        u.has_account(call.to_key()),
        u.has_account(call.fee_key(pre)),
    ensures
        supply_matches(pre, u) ==> supply_matches(call.effect(pre), u),
        holders_match(pre, u) ==> holders_match(call.effect(pre), u),
{
    let paid = call.paid(pre);
    lemma_moved(
        pre,
        u,
        call.token_id,
        call.from_key(),
        call.to_key(),
        call.fee_key(pre),
        call.amount,
        call.fee_amount(pre),
    );
    lemma_supply_same(pre, paid, u);
    lemma_frame(paid, call.effect(pre), u);
}

/// A write with the fingerprint of a transfer that was made is refused as a
/// duplicate of that transfer, where it is not refused for another reason
/// before that.
pub proof fn lemma_transfer_replay(pre: LedgerView, first: TransferCall, second: TransferCall)
    requires
        first.fault(pre).is_none(),
        pre.log.len() <= u64::MAX,
        second.fingerprint() == first.fingerprint(),
        second.precondition_fault(first.effect(pre)).is_none(),
    ensures
        second.fault(first.effect(pre)) == Some(
            Fault::Duplicate { duplicate_of: pre.next_index() },
        ),
{
    lemma_transfer_commits(pre, first);
}

/// A transfer by a spender that is not refused appends its record to the
/// log, counts it, records its fingerprint for the record's index, lowers
/// the allowance by amount and fee, changes no total supply and keeps the
/// books well kept.
pub proof fn lemma_transfer_from_commits(pre: LedgerView, call: TransferFromCall)
    requires
        call.fault(pre).is_none(),
        pre.log.len() <= u64::MAX,
    ensures
        ({
            let post = call.effect(pre);
            &&& post.log == pre.log.push(encode_record(call.record(pre)))
            &&& call.record(pre).wf() ==> decode_record(post.log[pre.next_index() as int])
                == call.record(pre)
            &&& post.tx_count() == pre.tx_count() + 1
            &&& post.duplicate_of(call.fingerprint()) == Some(pre.next_index())
            &&& post.tokens == pre.tokens
            &&& post.allowance(call.token_id, call.from_key(), call.spender_key())
                == call.current_allowance(pre) - call.total(pre)
            &&& well_kept(pre) ==> well_kept(post)
        }),
{
    let paid = call.paid(pre);
    let allowed = paid.with_allowance(
        call.token_id,
        call.from_key(),
        call.spender_key(),
        (call.current_allowance(pre) - call.total(pre)) as u128,
    );
    lemma_logged(allowed, call.record(pre), call.memo, call.fingerprint());
    if call.record(pre).wf() {
        lemma_decode_encode(call.record(pre));
    }
    if well_kept(pre) {
        let total = call.total(pre) as u128;
        let debited = pre.debited(call.token_id, call.from_key(), total);
        lemma_set_keeps_well_kept(
            pre,
            call.token_id,
            call.from_key(),
            call.from_key(),
            (pre.balance(call.token_id, call.from_key()) - total) as u128,
        );
        lemma_set_keeps_well_kept(
            debited,
            call.token_id,
            call.to_key(),
            call.to_key(),
            (debited.balance(call.token_id, call.to_key()) + call.amount) as u128,
        );
        let credited = debited.credited(call.token_id, call.to_key(), call.amount);
        lemma_set_keeps_well_kept(
            credited,
            call.token_id,
            call.fee_key(pre),
            call.fee_key(pre),
            (credited.balance(call.token_id, call.fee_key(pre)) + call.fee_amount(pre)) as u128,
        );
        lemma_set_keeps_well_kept(
            paid,
            call.token_id,
            call.from_key(),
            call.spender_key(),
            (call.current_allowance(pre) - call.total(pre)) as u128,
        );
    }
}

/// A transfer by a spender between accounts of the universe keeps the sum
/// of the balances of every token equal to its total supply, and every
/// holder count equal to the number of accounts that hold the token.
pub proof fn lemma_transfer_from_keeps_books(pre: LedgerView, call: TransferFromCall, u: Universe)
    requires
        call.fault(pre).is_none(),
        u.wf(),
        u.tokens.contains(call.token_id),
        u.has_account(call.from_key()),
        u.has_account(call.to_key()),
        u.has_account(call.fee_key(pre)),
    ensures
        supply_matches(pre, u) ==> supply_matches(call.effect(pre), u),
        holders_match(pre, u) ==> holders_match(call.effect(pre), u),
{
    let paid = call.paid(pre);
    lemma_moved(
        pre,
        u,
        call.token_id,
        call.from_key(),
        call.to_key(),
        call.fee_key(pre),
        call.amount,
        call.fee_amount(pre),
    );
    lemma_supply_same(pre, paid, u);
    lemma_frame(paid, call.effect(pre), u);
}

/// A write with the fingerprint of a transfer by a spender that was made is
/// refused as a duplicate of that transfer, where it is not refused for
/// another reason before that.
pub proof fn lemma_transfer_from_replay(
    pre: LedgerView,
    first: TransferFromCall,
    second: TransferFromCall,
)
    requires
        first.fault(pre).is_none(),
        pre.log.len() <= u64::MAX,
        second.fingerprint() == first.fingerprint(),
        second.precondition_fault(first.effect(pre)).is_none(),
    ensures
        second.fault(first.effect(pre)) == Some(
            Fault::Duplicate { duplicate_of: pre.next_index() },
        ),
{
    lemma_transfer_from_commits(pre, first);
}

/// An approval that is not refused appends its record to the log, counts
/// it, records its fingerprint for the record's index, overwrites the
/// allowance, changes no balance and no total supply, and keeps the books
/// well kept.
pub proof fn lemma_approve_commits(pre: LedgerView, call: ApproveCall)
    requires
        call.fault(pre).is_none(),
        pre.log.len() <= u64::MAX,
    ensures
        ({
            let post = call.effect(pre);
            &&& post.log == pre.log.push(encode_record(call.record(pre)))
            &&& call.record(pre).wf() ==> decode_record(post.log[pre.next_index() as int])
                == call.record(pre)
            &&& post.tx_count() == pre.tx_count() + 1
            &&& post.duplicate_of(call.fingerprint()) == Some(pre.next_index())
            &&& post.tokens == pre.tokens
            &&& post.balances == pre.balances
            &&& post.holders == pre.holders
            &&& post.allowance(call.token_id, call.owner_key(), call.spender_key()) == call.amount
            &&& well_kept(pre) ==> well_kept(post)
        }),
{
    let granted = call.granted(pre);
    lemma_logged(granted, call.record(pre), call.memo, call.fingerprint());
    if call.record(pre).wf() {
        lemma_decode_encode(call.record(pre));
    }
    if well_kept(pre) {
        lemma_set_keeps_well_kept(
            pre,
            call.token_id,
            call.owner_key(),
            call.spender_key(),
            call.amount,
        );
    }
}

/// An approval keeps the sum of the balances of every token equal to its
/// total supply, and every holder count equal to the number of accounts that
/// hold the token: it changes no balance.
pub proof fn lemma_approve_keeps_books(pre: LedgerView, call: ApproveCall, u: Universe)
    requires
        call.fault(pre).is_none(),
    ensures
        supply_matches(pre, u) ==> supply_matches(call.effect(pre), u),
        holders_match(pre, u) ==> holders_match(call.effect(pre), u),
{
    lemma_frame(pre, call.effect(pre), u);
}

/// A write with the fingerprint of an approval that was made is refused as
/// a duplicate of that approval, where it is not refused for another reason
/// before that.
pub proof fn lemma_approve_replay(pre: LedgerView, first: ApproveCall, second: ApproveCall)
    requires
        first.fault(pre).is_none(),
        pre.log.len() <= u64::MAX,
        second.fingerprint() == first.fingerprint(),
        second.precondition_fault(first.effect(pre)).is_none(),
    ensures
        second.fault(first.effect(pre)) == Some(
            Fault::Duplicate { duplicate_of: pre.next_index() },
        ),
{
    lemma_approve_commits(pre, first);
}

/// A mint that is not refused appends its record to the log, counts it,
/// records its fingerprint for the record's index, raises the total supply
/// of its token by exactly the amount and keeps the books well kept.
pub proof fn lemma_mint_commits(pre: LedgerView, call: MintCall)
    requires
        call.fault(pre).is_none(),
        pre.log.len() <= u64::MAX,
    ensures
        ({
            let post = call.effect(pre);
            &&& post.log == pre.log.push(encode_record(call.record()))
            &&& call.record().wf() ==> decode_record(post.log[pre.next_index() as int])
                == call.record()
            &&& post.tx_count() == pre.tx_count() + 1
            &&& post.duplicate_of(call.fingerprint()) == Some(pre.next_index())
            &&& post.total_supply(call.token_id) == pre.total_supply(call.token_id) + call.amount
            &&& forall|t: Seq<u8>| t != call.token_id ==> post.total_supply(t) == pre.total_supply(t)
            &&& well_kept(pre) ==> well_kept(post)
        }),
{
    let credited = pre.credited(call.token_id, call.to_key(), call.amount);
    let supplied = credited.with_supply(
        call.token_id,
        (pre.total_supply(call.token_id) + call.amount) as u128,
    );
    lemma_logged(supplied, call.record(), call.memo, call.fingerprint());
    if call.record().wf() {
        lemma_decode_encode(call.record());
    }
    if well_kept(pre) {
        lemma_set_keeps_well_kept(
            pre,
            call.token_id,
            call.to_key(),
            call.to_key(),
            (pre.balance(call.token_id, call.to_key()) + call.amount) as u128,
        );
    }
}

/// A mint to an account of the universe keeps the sum of the balances of
/// every token equal to its total supply, and every holder count equal to
/// the number of accounts that hold the token.
pub proof fn lemma_mint_keeps_books(pre: LedgerView, call: MintCall, u: Universe)
    requires
        call.fault(pre).is_none(),
        u.wf(),
        u.tokens.contains(call.token_id),
        u.has_account(call.to_key()),
    ensures
        supply_matches(pre, u) ==> supply_matches(call.effect(pre), u),
        holders_match(pre, u) ==> holders_match(call.effect(pre), u),
{
    let credited = pre.credited(call.token_id, call.to_key(), call.amount);
    lemma_with_balance(
        pre,
        u,
        call.token_id,
        call.to_key(),
        (pre.balance(call.token_id, call.to_key()) + call.amount) as u128,
    );
    lemma_supply_follows(pre, credited, call.effect(pre), u, call.token_id, call.amount as int);
    lemma_holders_frame(credited, call.effect(pre), u);
}

/// A write with the fingerprint of a mint that was made is refused as a
/// duplicate of that mint, where it is not refused for another reason before
/// that.
pub proof fn lemma_mint_replay(pre: LedgerView, first: MintCall, second: MintCall)
    requires
        first.fault(pre).is_none(),
        pre.log.len() <= u64::MAX,
        second.fingerprint() == first.fingerprint(),
        second.precondition_fault(first.effect(pre)).is_none(),
    ensures
        second.fault(first.effect(pre)) == Some(
            crate::codec::numbered_text(
                "Duplicate mint transaction, original tx_index: "@,
                pre.next_index() as u128,
                ""@,
            ),
        ),
{
    lemma_mint_commits(pre, first);
}

/// A burn that is not refused appends its record to the log, counts it,
/// records its fingerprint for the record's index, lowers the total supply
/// of its token by exactly the amount and keeps the books well kept.
pub proof fn lemma_burn_commits(pre: LedgerView, call: BurnCall)
    requires
        call.fault(pre).is_none(),
        pre.log.len() <= u64::MAX,
    ensures
        ({
            let post = call.effect(pre);
            &&& post.log == pre.log.push(encode_record(call.record()))
            &&& call.record().wf() ==> decode_record(post.log[pre.next_index() as int])
                == call.record()
            &&& post.tx_count() == pre.tx_count() + 1
            &&& post.duplicate_of(call.fingerprint()) == Some(pre.next_index())
            &&& post.total_supply(call.token_id) == pre.total_supply(call.token_id) - call.amount
            &&& forall|t: Seq<u8>| t != call.token_id ==> post.total_supply(t) == pre.total_supply(t)
            &&& well_kept(pre) ==> well_kept(post)
        }),
{
    let debited = pre.debited(call.token_id, call.from_key(), call.amount);
    let supplied = debited.with_supply(
        call.token_id,
        (pre.total_supply(call.token_id) - call.amount) as u128,
    );
    lemma_logged(supplied, call.record(), call.memo, call.fingerprint());
    if call.record().wf() {
        lemma_decode_encode(call.record());
    }
    if well_kept(pre) {
        lemma_set_keeps_well_kept(
            pre,
            call.token_id,
            call.from_key(),
            call.from_key(),
            (pre.balance(call.token_id, call.from_key()) - call.amount) as u128,
        );
    }
}

/// A burn from an account of the universe keeps the sum of the balances of
/// every token equal to its total supply, and every holder count equal to
/// the number of accounts that hold the token.
pub proof fn lemma_burn_keeps_books(pre: LedgerView, call: BurnCall, u: Universe)
    requires
        call.fault(pre).is_none(),
        u.wf(),
        u.tokens.contains(call.token_id),
        u.has_account(call.from_key()),
    ensures
        supply_matches(pre, u) ==> supply_matches(call.effect(pre), u),
        holders_match(pre, u) ==> holders_match(call.effect(pre), u),
{
    let debited = pre.debited(call.token_id, call.from_key(), call.amount);
    lemma_with_balance(
        pre,
        u,
        call.token_id,
        call.from_key(),
        (pre.balance(call.token_id, call.from_key()) - call.amount) as u128,
    );
    lemma_supply_follows(pre, debited, call.effect(pre), u, call.token_id, -(call.amount as int));
    lemma_holders_frame(debited, call.effect(pre), u);
}

/// A write with the fingerprint of a burn that was made is refused as a
/// duplicate of that burn, where it is not refused for another reason before
/// that.
pub proof fn lemma_burn_replay(pre: LedgerView, first: BurnCall, second: BurnCall)
    requires
        first.fault(pre).is_none(),
        pre.log.len() <= u64::MAX,
        second.fingerprint() == first.fingerprint(),
        second.precondition_fault(first.effect(pre)).is_none(),
    ensures
        second.fault(first.effect(pre)) == Some(
            crate::codec::numbered_text(
                "Duplicate burn transaction, original tx_index: "@,
                pre.next_index() as u128,
                ""@,
            ),
        ),
{
    lemma_burn_commits(pre, first);
}

/// In a ledger that holds nothing every sum and every tally is zero.
proof fn lemma_empty_sums(token_id: Seq<u8>, accounts: Seq<Seq<u8>>, n: int)
    ensures
        balance_sum(LedgerView::empty(), token_id, accounts, n) == 0,
        holder_tally(LedgerView::empty(), token_id, accounts, n) == 0,
    decreases n,
{
    if n > 0 {
        lemma_empty_sums(token_id, accounts, n - 1);
    }
}

/// In a ledger that holds nothing every sum of balances is zero, as every
/// total supply is, and no token has a holder.
pub proof fn lemma_new_ledger_keeps_books(u: Universe)
    ensures
        supply_matches(LedgerView::empty(), u),
        holders_match(LedgerView::empty(), u),
{
    let v = LedgerView::empty();
    let n = u.accounts.len() as int;
    assert forall|t: Seq<u8>| u.tokens.contains(t) implies #[trigger] balance_sum(
        v,
        t,
        u.accounts,
        n,
    ) == v.total_supply(t) by {
        lemma_empty_sums(t, u.accounts, n);
    }
    assert forall|t: Seq<u8>| u.tokens.contains(t) implies #[trigger] holder_tally(
        v,
        t,
        u.accounts,
        n,
    ) == v.holder_count(t) by {
        lemma_empty_sums(t, u.accounts, n);
    }
}

/// Registering a token under an id that no token has keeps the sums and the
/// holder counts true, and the books well kept: the new token starts with no
/// supply.
pub proof fn lemma_registered_keeps_books(pre: LedgerView, call: CreateCall, u: Universe)
    requires
        call.refusal(pre).is_none(),
        !pre.tokens.contains_key(call.token_id(pre)),
    ensures
        supply_matches(pre, u) ==> supply_matches(call.registered(pre), u),
        holders_match(pre, u) ==> holders_match(call.registered(pre), u),
        well_kept(pre) ==> well_kept(call.registered(pre)),
        forall|t: Seq<u8>| call.registered(pre).total_supply(t) == pre.total_supply(t),
{
    let post = call.registered(pre);
    let n = u.accounts.len() as int;
    lemma_holders_frame(pre, post, u);
    if supply_matches(pre, u) {
        assert forall|t: Seq<u8>| u.tokens.contains(t) implies #[trigger] balance_sum(
            post,
            t,
            u.accounts,
            n,
        ) == post.total_supply(t) by {
            lemma_same_balances(pre, post, t, u.accounts, n);
        }
    }
    if well_kept(pre) {
        crate::codec::lemma_u64_be_roundtrip((pre.token_nonce() + 1) as u64);
    }
}

/// However a transfer ends: a refusal leaves the ledger as it was, a success
/// puts the packed record at the returned index of the log; the books stay
/// well kept; and within a universe that is free of collisions, the sums of
/// balances stay the total supplies and the holder counts stay the numbers
/// of holders.
pub proof fn lemma_transfer_settles(
    pre: LedgerView,
    post: LedgerView,
    outcome: Result<u64, Fault>,
    call: TransferCall,
    u: Universe,
)
    requires
        settled(pre, post, outcome, call.fault(pre), call.effect(pre)),
    ensures
        outcome is Err ==> post == pre,
        outcome is Ok ==> post.log.len() == pre.log.len() + 1 && post.log[outcome->Ok_0 as int]
            == encode_record(call.record(pre)),
        well_kept(pre) ==> well_kept(post),
        u.wf() && Write::Transfer(call).within(pre, u) ==> (supply_matches(pre, u)
            ==> supply_matches(post, u)) && (holders_match(pre, u) ==> holders_match(post, u)),
{
    if outcome is Ok {
        lemma_transfer_commits(pre, call);
        if u.wf() && Write::Transfer(call).within(pre, u) {
            lemma_transfer_keeps_books(pre, call, u);
        }
    }
}

/// However a transfer by a spender ends: a refusal leaves the ledger as it was, a success
/// puts the packed record at the returned index of the log; the books stay
/// well kept; and within a universe that is free of collisions, the sums of
/// balances stay the total supplies and the holder counts stay the numbers
/// of holders.
pub proof fn lemma_transfer_from_settles(
    pre: LedgerView,
    post: LedgerView,
    outcome: Result<u64, Fault>,
    call: TransferFromCall,
    u: Universe,
)
    requires
        settled(pre, post, outcome, call.fault(pre), call.effect(pre)),
    ensures
        outcome is Err ==> post == pre,
        outcome is Ok ==> post.log.len() == pre.log.len() + 1 && post.log[outcome->Ok_0 as int]
            == encode_record(call.record(pre)),
        well_kept(pre) ==> well_kept(post),
        u.wf() && Write::TransferFrom(call).within(pre, u) ==> (supply_matches(pre, u)
            ==> supply_matches(post, u)) && (holders_match(pre, u) ==> holders_match(post, u)),
{
    if outcome is Ok {
        lemma_transfer_from_commits(pre, call);
        if u.wf() && Write::TransferFrom(call).within(pre, u) {
            lemma_transfer_from_keeps_books(pre, call, u);
        }
    }
}

/// However an approval ends: a refusal leaves the ledger as it was, a success
/// puts the packed record at the returned index of the log; the books stay
/// well kept; and within a universe that is free of collisions, the sums of
/// balances stay the total supplies and the holder counts stay the numbers
/// of holders.
pub proof fn lemma_approve_settles(
    pre: LedgerView,
    post: LedgerView,
    outcome: Result<u64, Fault>,
    call: ApproveCall,
    u: Universe,
)
    requires
        settled(pre, post, outcome, call.fault(pre), call.effect(pre)),
    ensures
        outcome is Err ==> post == pre,
        outcome is Ok ==> post.log.len() == pre.log.len() + 1 && post.log[outcome->Ok_0 as int]
            == encode_record(call.record(pre)),
        well_kept(pre) ==> well_kept(post),
        u.wf() && Write::Approve(call).within(pre, u) ==> (supply_matches(pre, u)
            ==> supply_matches(post, u)) && (holders_match(pre, u) ==> holders_match(post, u)),
{
    if outcome is Ok {
        lemma_approve_commits(pre, call);
        if u.wf() && Write::Approve(call).within(pre, u) {
            lemma_approve_keeps_books(pre, call, u);
        }
    }
}

/// However a mint ends: a refusal leaves the ledger as it was, a success
/// puts the packed record at the returned index of the log; the books stay
/// well kept; and within a universe that is free of collisions, the sums of
/// balances stay the total supplies and the holder counts stay the numbers
/// of holders.
pub proof fn lemma_mint_settles(
    pre: LedgerView,
    post: LedgerView,
    outcome: Result<u64, Seq<char>>,
    call: MintCall,
    u: Universe,
)
    requires
        settled_text(pre, post, outcome, call.fault(pre), call.effect(pre)),
    ensures
        outcome is Err ==> post == pre,
        outcome is Ok ==> post.log.len() == pre.log.len() + 1 && post.log[outcome->Ok_0 as int]
            == encode_record(call.record()),
        well_kept(pre) ==> well_kept(post),
        u.wf() && Write::Mint(call).within(pre, u) ==> (supply_matches(pre, u)
            ==> supply_matches(post, u)) && (holders_match(pre, u) ==> holders_match(post, u)),
{
    if outcome is Ok {
        lemma_mint_commits(pre, call);
        if u.wf() && Write::Mint(call).within(pre, u) {
            lemma_mint_keeps_books(pre, call, u);
        }
    }
}

/// However a burn ends: a refusal leaves the ledger as it was, a success
/// puts the packed record at the returned index of the log; the books stay
/// well kept; and within a universe that is free of collisions, the sums of
/// balances stay the total supplies and the holder counts stay the numbers
/// of holders.
pub proof fn lemma_burn_settles(
    pre: LedgerView,
    post: LedgerView,
    outcome: Result<u64, Seq<char>>,
    call: BurnCall,
    u: Universe,
)
    requires
        settled_text(pre, post, outcome, call.fault(pre), call.effect(pre)),
    ensures
        outcome is Err ==> post == pre,
        outcome is Ok ==> post.log.len() == pre.log.len() + 1 && post.log[outcome->Ok_0 as int]
            == encode_record(call.record()),
        well_kept(pre) ==> well_kept(post),
        u.wf() && Write::Burn(call).within(pre, u) ==> (supply_matches(pre, u)
            ==> supply_matches(post, u)) && (holders_match(pre, u) ==> holders_match(post, u)),
{
    if outcome is Ok {
        lemma_burn_commits(pre, call);
        if u.wf() && Write::Burn(call).within(pre, u) {
            lemma_burn_keeps_books(pre, call, u);
        }
    }
}

/// Creating a token under an id that no token has, with or without an
/// initial supply, keeps the books well kept and, over a universe that holds
/// the new token and the caller's account, the sums of balances the total
/// supplies and the holder counts the numbers of holders.
pub proof fn lemma_create_keeps_books(pre: LedgerView, call: CreateCall, u: Universe)
    requires
        call.refusal(pre).is_none(),
        !pre.tokens.contains_key(call.token_id(pre)),
        pre.log.len() <= u64::MAX,
        call.mints() ==> call.mint(pre).fault(call.registered(pre)).is_none(),
        call.mints() ==> u.wf() && u.tokens.contains(call.token_id(pre)) && u.has_account(
            call.mint(pre).to_key(),
        ),
    ensures
        ({
            let post = if call.mints() {
                call.mint(pre).effect(call.registered(pre))
            } else {
                call.registered(pre)
            };
            &&& well_kept(pre) ==> well_kept(post)
            &&& supply_matches(pre, u) ==> supply_matches(post, u)
            &&& holders_match(pre, u) ==> holders_match(post, u)
        }),
{
    lemma_registered_keeps_books(pre, call, u);
    if call.mints() {
        lemma_mint_commits(call.registered(pre), call.mint(pre));
        lemma_mint_keeps_books(call.registered(pre), call.mint(pre), u);
    }
}

/// A write to the ledger: one of the five operations with its arguments.
pub enum Write {
    Transfer(TransferCall),
    TransferFrom(TransferFromCall),
    Approve(ApproveCall),
    Mint(MintCall),
    Burn(BurnCall),
}

impl Write {
    /// Whether the write is refused.
    pub open spec fn refused(self, pre: LedgerView) -> bool {
        match self {
            Write::Transfer(call) => call.fault(pre).is_some(),
            Write::TransferFrom(call) => call.fault(pre).is_some(),
            Write::Approve(call) => call.fault(pre).is_some(),
            Write::Mint(call) => call.fault(pre).is_some(),
            Write::Burn(call) => call.fault(pre).is_some(),
        }
    }

    /// The ledger after the write: as before where it is refused, else as
    /// the operation's effect says.
    pub open spec fn after(self, pre: LedgerView) -> LedgerView {
        if self.refused(pre) {
            pre
        } else {
            match self {
                Write::Transfer(call) => call.effect(pre),
                Write::TransferFrom(call) => call.effect(pre),
                Write::Approve(call) => call.effect(pre),
                Write::Mint(call) => call.effect(pre),
                Write::Burn(call) => call.effect(pre),
            }
        }
    }

    /// Whether the universe holds the token of the write and the accounts
    /// whose balances it changes.
    pub open spec fn within(self, pre: LedgerView, u: Universe) -> bool {
        match self {
            Write::Transfer(call) => u.tokens.contains(call.token_id) && u.has_account(
                call.from_key(),
            ) && u.has_account(call.to_key()) && u.has_account(call.fee_key(pre)),
            Write::TransferFrom(call) => u.tokens.contains(call.token_id) && u.has_account(
                call.from_key(),
            ) && u.has_account(call.to_key()) && u.has_account(call.fee_key(pre)),
            Write::Approve(call) => true,
            Write::Mint(call) => u.tokens.contains(call.token_id) && u.has_account(call.to_key()),
            Write::Burn(call) => u.tokens.contains(call.token_id) && u.has_account(
                call.from_key(),
            ),
        }
    }
}

/// The ledger after a sequence of writes, each made on what the writes
/// before it left.
pub open spec fn run(pre: LedgerView, writes: Seq<Write>) -> LedgerView
    decreases writes.len(),
{
    if writes.len() == 0 {
        pre
    } else {
        writes.last().after(run(pre, writes.drop_last()))
    }
}

/// Whether every write of a sequence stays within the universe.
pub open spec fn run_within(pre: LedgerView, writes: Seq<Write>, u: Universe) -> bool
    decreases writes.len(),
{
    if writes.len() == 0 {
        true
    } else {
        run_within(pre, writes.drop_last(), u) && writes.last().within(
            run(pre, writes.drop_last()),
            u,
        )
    }
}

/// One write keeps the books well kept and, within a universe, the sums of
/// balances equal to the total supplies and the holder counts true.
pub proof fn lemma_write_keeps_books(pre: LedgerView, write: Write, u: Universe)
    requires
        u.wf(),
        write.within(pre, u),
    ensures
        well_kept(pre) ==> well_kept(write.after(pre)),
        supply_matches(pre, u) ==> supply_matches(write.after(pre), u),
        holders_match(pre, u) ==> holders_match(write.after(pre), u),
{
    if !write.refused(pre) {
        match write {
            Write::Transfer(call) => {
                if well_kept(pre) {
                    lemma_transfer_commits(pre, call);
                }
                lemma_transfer_keeps_books(pre, call, u);
            },
            Write::TransferFrom(call) => {
                if well_kept(pre) {
                    lemma_transfer_from_commits(pre, call);
                }
                lemma_transfer_from_keeps_books(pre, call, u);
            },
            Write::Approve(call) => {
                if well_kept(pre) {
                    lemma_approve_commits(pre, call);
                }
                lemma_approve_keeps_books(pre, call, u);
            },
            Write::Mint(call) => {
                if well_kept(pre) {
                    lemma_mint_commits(pre, call);
                }
                lemma_mint_keeps_books(pre, call, u);
            },
            Write::Burn(call) => {
                if well_kept(pre) {
                    lemma_burn_commits(pre, call);
                }
                lemma_burn_keeps_books(pre, call, u);
            },
        }
    }
}

/// Whatever writes are made in whatever order, within a universe that is
/// free of collisions: the sum of the balances of every token stays its
/// total supply, every holder count stays the number of accounts that hold
/// the token, nothing of zero is stored, and the counter follows the log.
pub proof fn lemma_run_keeps_books(pre: LedgerView, writes: Seq<Write>, u: Universe)
    requires
        u.wf(),
        run_within(pre, writes, u),
    ensures
        well_kept(pre) ==> well_kept(run(pre, writes)),
        supply_matches(pre, u) ==> supply_matches(run(pre, writes), u),
        holders_match(pre, u) ==> holders_match(run(pre, writes), u),
    decreases writes.len(),
{
    if writes.len() > 0 {
        lemma_run_keeps_books(pre, writes.drop_last(), u);
        lemma_write_keeps_books(run(pre, writes.drop_last()), writes.last(), u);
    }
}

/// Every key of the set of controllers is the stored form of a principal,
/// and the set can be listed.
pub open spec fn controllers_well_formed(v: LedgerView) -> bool {
    &&& forall|k: Seq<u8>|
        v.controllers.contains_key(k) ==> exists|p: Seq<u8>|
            storable_principal(p) && #[trigger] stored_blob(p) == k
    &&& lists_keys(sorted_keys(v.controllers.dom()), v.controllers.dom())
}

/// Whether the ledger has a controller.
pub open spec fn has_controller(v: LedgerView) -> bool {
    exists|p: Seq<u8>| #[trigger] v.is_controller(p)
}

/// A stored form holds the principal it was made of, and no other.
pub proof fn lemma_stored_blob(p: Seq<u8>, q: Seq<u8>)
    requires
        storable_principal(p),
        storable_principal(q),
    ensures
        blob_principal(stored_blob(p)) == Some(p),
        stored_blob(p) == stored_blob(q) ==> p == q,
{
    // The first byte of a stored form is the length, the bytes after it the
    // principal.
    assert(stored_blob(p).subrange(1, 1 + p.len() as int) =~= p);
    assert(stored_blob(q).subrange(1, 1 + q.len() as int) =~= q);
}

/// The principal of every listed stored form is among the listed
/// principals.
proof fn lemma_listed_holds(blobs: Seq<Seq<u8>>, i: int)
    requires
        0 <= i < blobs.len(),
        blob_principal(blobs[i]).is_some(),
    ensures
        principals_of(blobs).contains(blob_principal(blobs[i]).unwrap()),
    decreases blobs.len(),
{
    let rest = principals_of(blobs.drop_last());
    if i == blobs.len() - 1 {
        let p = blob_principal(blobs.last()).unwrap();
        assert(rest.push(p)[rest.len() as int] == p);
    } else {
        lemma_listed_holds(blobs.drop_last(), i);
        let p = blob_principal(blobs[i]).unwrap();
        let j = choose|j: int| 0 <= j < rest.len() && rest[j] == p;
        match blob_principal(blobs.last()) {
            Some(q) => {
                assert(rest.push(q)[j] == p);
            },
            None => {},
        }
    }
}

/// Where at most the stored form at `i` holds a principal, at most one
/// principal is listed.
proof fn lemma_listed_one(blobs: Seq<Seq<u8>>, i: int)
    requires
        forall|j: int| 0 <= j < blobs.len() && j != i ==> blob_principal(blobs[j]).is_none(),
    ensures
        principals_of(blobs).len() <= 1,
        !(0 <= i < blobs.len()) ==> principals_of(blobs).len() == 0,
    decreases blobs.len(),
{
    if blobs.len() > 0 {
        let init = blobs.drop_last();
        lemma_listed_one(init, i);
    }
}

/// A ledger that was set up has a controller.
pub proof fn lemma_init_has_controller(pre: LedgerView, controller: Seq<u8>)
    requires
        storable_principal(controller),
    ensures
        has_controller(
            pre.with_primary_controller(controller).with_token_nonce(0).with_tx_count(
                0,
            ).with_controller(controller),
        ),
{
    let post = pre.with_primary_controller(controller).with_token_nonce(0).with_tx_count(
        0,
    ).with_controller(controller);
    assert(post.is_controller(controller));
}

/// Adding a controller leaves a ledger with a controller.
pub proof fn lemma_add_has_controller(pre: LedgerView, p: Seq<u8>)
    requires
        storable_principal(p),
    ensures
        has_controller(pre.with_controller(p)),
        has_controller(pre.with_primary_controller(p).with_controller(p)),
{
    assert(pre.with_controller(p).is_controller(p));
    assert(pre.with_primary_controller(p).with_controller(p).is_controller(p));
}

/// A removal that is not refused leaves a ledger with a controller: the
/// last controller is never removed.
pub proof fn lemma_remove_keeps_a_controller(pre: LedgerView, caller: Seq<u8>, p: Seq<u8>)
    requires
        controllers_well_formed(pre),
        removal_fault(pre, caller, p).is_none(),
    ensures
        has_controller(pre.without_controller(p)),
        forall|k: Seq<u8>|
            pre.without_controller(p).controllers.contains_key(k) ==> exists|q: Seq<u8>|
                storable_principal(q) && #[trigger] stored_blob(q) == k,
{
    let post = pre.without_controller(p);
    let dom = pre.controllers.dom();
    let keys = sorted_keys(dom);
    if caller != p {
        lemma_stored_blob(caller, p);
        assert(post.is_controller(caller));
    } else {
        lemma_stored_blob(p, p);
        let i = choose|i: int| 0 <= i < keys.len() && keys[i] == stored_blob(p);
        lemma_listed_holds(keys, i);
        if forall|j: int| 0 <= j < keys.len() && j != i ==> blob_principal(keys[j]).is_none() {
            lemma_listed_one(keys, i);
        }
        let j = choose|j: int| 0 <= j < keys.len() && j != i && blob_principal(keys[j]).is_some();
        let q = choose|q: Seq<u8>| storable_principal(q) && #[trigger] stored_blob(q) == keys[j];
        lemma_lt_irreflexive(keys[i]);
        assert(post.is_controller(q));
    }
}

} // verus!
