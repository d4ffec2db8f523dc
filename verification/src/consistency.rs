//! Consistency between the protocol ledger and the depositor ledgers.
//!
//! At every quiescent point the protocol's `total_deposits` equals the sum
//! of all depositors' `deposited_amount`, and its
//! `pending_cross_chain_amount` equals the sum of all depositors'
//! `pending_cross_chain_transfers`. The lemmas here show that every
//! operation preserves this invariant, over the same transition spec
//! functions the executable operations are proved against.

use vstd::prelude::*;
use crate::state::{fresh_user_state, GlobalState, Key, UserState};
use crate::ops::claim_yield_result;
use crate::history::{apply_op, apply_ops, LedgerOp};

verus! {

/// The sum of all depositors' withdrawable principal.
pub open spec fn sum_deposited(users: Seq<UserState>) -> int
    decreases users.len(),
{
    if users.len() == 0 {
        0
    } else {
        users[0].deposited_amount + sum_deposited(users.drop_first())
    }
}

/// The sum of all depositors' in-flight bridge reservations.
pub open spec fn sum_pending(users: Seq<UserState>) -> int
    decreases users.len(),
{
    if users.len() == 0 {
        0
    } else {
        users[0].pending_cross_chain_transfers + sum_pending(users.drop_first())
    }
}

/// The protocol-wide accumulators agree with the per-depositor records.
pub open spec fn ledger_consistent(g: GlobalState, users: Seq<UserState>) -> bool {
    &&& g.total_deposits == sum_deposited(users)
    &&& g.pending_cross_chain_amount == sum_pending(users)
}

/// Replacing one depositor record shifts the principal sum by exactly
/// that record's change.
pub proof fn lemma_sum_deposited_update(users: Seq<UserState>, i: int, v: UserState)
    requires
        0 <= i < users.len(),
    ensures
        sum_deposited(users.update(i, v)) == sum_deposited(users) - users[i].deposited_amount
            + v.deposited_amount,
    decreases users.len(),
{
    if i == 0 {
        assert(users.update(0, v).drop_first() =~= users.drop_first());
    } else {
        assert(users.update(i, v).drop_first() =~= users.drop_first().update(i - 1, v));
        lemma_sum_deposited_update(users.drop_first(), i - 1, v);
    }
}

/// Replacing one depositor record shifts the reservation sum by exactly
/// that record's change.
pub proof fn lemma_sum_pending_update(users: Seq<UserState>, i: int, v: UserState)
    requires
        0 <= i < users.len(),
    ensures
        sum_pending(users.update(i, v)) == sum_pending(users)
            - users[i].pending_cross_chain_transfers + v.pending_cross_chain_transfers,
    decreases users.len(),
{
    if i == 0 {
        assert(users.update(0, v).drop_first() =~= users.drop_first());
    } else {
        assert(users.update(i, v).drop_first() =~= users.drop_first().update(i - 1, v));
        lemma_sum_pending_update(users.drop_first(), i - 1, v);
    }
}

/// Appending a record adds its balances to the sums.
proof fn lemma_sums_push(users: Seq<UserState>, v: UserState)
    ensures
        sum_deposited(users.push(v)) == sum_deposited(users) + v.deposited_amount,
        sum_pending(users.push(v)) == sum_pending(users) + v.pending_cross_chain_transfers,
    decreases users.len(),
{
    if users.len() == 0 {
        assert(users.push(v)[0] == v);
        assert(users.push(v).drop_first() =~= users);
    } else {
        assert(users.push(v).drop_first() =~= users.drop_first().push(v));
        lemma_sums_push(users.drop_first(), v);
    }
}

/// Creating a depositor record on first deposit preserves consistency:
/// the fresh record carries no principal and no reservation.
pub proof fn lemma_new_depositor_preserves_consistency(
    g: GlobalState,
    users: Seq<UserState>,
    user: Key,
)
    requires
        ledger_consistent(g, users),
    ensures
        ledger_consistent(g, users.push(fresh_user_state(user))),
{
    lemma_sums_push(users, fresh_user_state(user));
}

/// Every balance-moving operation on one depositor preserves consistency:
/// each changes the depositor's balances and the protocol accumulators by
/// the same amounts.
pub proof fn lemma_apply_op_preserves_consistency(
    g: GlobalState,
    users: Seq<UserState>,
    i: int,
    op: LedgerOp,
)
    requires
        ledger_consistent(g, users),
        0 <= i < users.len(),
        apply_op(g, users[i], op) is Some,
    ensures
        ({
            let next = apply_op(g, users[i], op).unwrap();
            ledger_consistent(next.0, users.update(i, next.1))
        }),
{
    let next = apply_op(g, users[i], op).unwrap();
    lemma_sum_deposited_update(users, i, next.1);
    lemma_sum_pending_update(users, i, next.1);
}

/// A yield claim touches only the yield accumulators, never the principal
/// or reservation counters, so consistency is preserved.
pub proof fn lemma_claim_yield_preserves_consistency(
    g: GlobalState,
    users: Seq<UserState>,
    i: int,
    amount: u64,
    now: i64,
)
    requires
        ledger_consistent(g, users),
        0 <= i < users.len(),
    ensures
        ({
            let next = claim_yield_result(g, users[i], amount, now);
            ledger_consistent(next.0, users.update(i, next.1))
        }),
{
    let next = claim_yield_result(g, users[i], amount, now);
    lemma_sum_deposited_update(users, i, next.1);
    lemma_sum_pending_update(users, i, next.1);
}

/// Consistency holds at every quiescent point: a whole run of
/// balance-moving operations on one depositor, each applied at a time,
/// leaves the protocol ledger agreeing with the depositor ledgers.
pub proof fn lemma_run_preserves_consistency(
    g: GlobalState,
    users: Seq<UserState>,
    i: int,
    ops: Seq<LedgerOp>,
)
    requires
        ledger_consistent(g, users),
        0 <= i < users.len(),
        apply_ops(g, users[i], ops) is Some,
    ensures
        ({
            let fin = apply_ops(g, users[i], ops).unwrap();
            ledger_consistent(fin.0, users.update(i, fin.1))
        }),
    decreases ops.len(),
{
    if ops.len() == 0 {
        assert(users.update(i, users[i]) =~= users);
    } else {
        let next = apply_op(g, users[i], ops[0]).unwrap();
        let fin = apply_ops(g, users[i], ops).unwrap();
        lemma_apply_op_preserves_consistency(g, users, i, ops[0]);
        lemma_run_preserves_consistency(next.0, users.update(i, next.1), i, ops.drop_first());
        assert(users.update(i, next.1).update(i, fin.1) =~= users.update(i, fin.1));
    }
}

/// Consistency reads only the two accumulator fields, so publishing
/// rates, ingesting oracle data or reassigning the authority — none of
/// which touch those fields — preserves it.
pub proof fn lemma_consistency_depends_only_on_totals(
    g1: GlobalState,
    g2: GlobalState,
    users: Seq<UserState>,
)
    requires
        ledger_consistent(g1, users),
        g2.total_deposits == g1.total_deposits,
        g2.pending_cross_chain_amount == g1.pending_cross_chain_amount,
    ensures
        ledger_consistent(g2, users),
{
}

} // verus!
