//! Laws over sequences of balance-moving operations on one depositor.
//!
//! `LedgerOp` names the four operations that move a depositor's balances;
//! applying one is defined by the same transition spec functions the
//! executable operations are proved against, so everything shown here
//! holds of any run of those operations.

use vstd::prelude::*;
use crate::state::{BridgeRequest, BridgeStatus, GlobalState, Key, UserState};
use crate::ops::{can_complete, can_deposit, can_initiate, can_withdraw, complete_result,
    deposit_result, initiate_result, new_bridge_request, withdraw_result};

verus! {

/// One balance-moving operation on a single depositor, with the inputs
/// the hosting environment hands it.
pub enum LedgerOp {
    Deposit { user: Key, amount: u64, now: i64 },
    Withdraw { amount: u64, now: i64 },
    InitiateTransfer { amount: u64, now: i64 },
    CompleteTransfer { request: BridgeRequest, success: bool, now: i64 },
}

/// The outcome of one operation: the updated records when it succeeds and
/// fits in the 64-bit accumulators, `None` otherwise. A refused operation
/// leaves the records untouched, so a run that hits `None` is simply a
/// shorter run.
pub open spec fn apply_op(g: GlobalState, u: UserState, op: LedgerOp) -> Option<
    (GlobalState, UserState),
> {
    match op {
        LedgerOp::Deposit { user, amount, now } => if can_deposit(g, u, amount) {
            Some(deposit_result(g, u, user, amount, now))
        } else {
            None
        },
        LedgerOp::Withdraw { amount, now } => if can_withdraw(g, u, amount) {
            Some(withdraw_result(g, u, amount, now))
        } else {
            None
        },
        LedgerOp::InitiateTransfer { amount, .. } => if can_initiate(g, u, amount) {
            Some(initiate_result(g, u, amount))
        } else {
            None
        },
        LedgerOp::CompleteTransfer { request, success, now } => if can_complete(
            g,
            u,
            request,
            success,
        ) {
            Some(
                (
                    complete_result(g, u, request, success, now).0,
                    complete_result(g, u, request, success, now).1,
                ),
            )
        } else {
            None
        },
    }
}

/// The records after a whole run, `None` as soon as one step is refused.
pub open spec fn apply_ops(g: GlobalState, u: UserState, ops: Seq<LedgerOp>) -> Option<
    (GlobalState, UserState),
>
    decreases ops.len(),
{
    if ops.len() == 0 {
        Some((g, u))
    } else {
        match apply_op(g, u, ops[0]) {
            Some(next) => apply_ops(next.0, next.1, ops.drop_first()),
            None => None,
        }
    }
}

/// Everything a run deposits.
pub open spec fn total_deposited(ops: Seq<LedgerOp>) -> int
    decreases ops.len(),
{
    if ops.len() == 0 {
        0
    } else {
        (match ops[0] {
            LedgerOp::Deposit { amount, .. } => amount as int,
            _ => 0,
        }) + total_deposited(ops.drop_first())
    }
}

/// Everything a run withdraws.
pub open spec fn total_withdrawn(ops: Seq<LedgerOp>) -> int
    decreases ops.len(),
{
    if ops.len() == 0 {
        0
    } else {
        (match ops[0] {
            LedgerOp::Withdraw { amount, .. } => amount as int,
            _ => 0,
        }) + total_withdrawn(ops.drop_first())
    }
}

/// Everything a run reserves for bridging, net of failed-transfer refunds.
pub open spec fn net_reserved(ops: Seq<LedgerOp>) -> int
    decreases ops.len(),
{
    if ops.len() == 0 {
        0
    } else {
        (match ops[0] {
            LedgerOp::InitiateTransfer { amount, .. } => amount as int,
            LedgerOp::CompleteTransfer { request, success, .. } => if success {
                0
            } else {
                -(request.amount as int)
            },
            _ => 0,
        }) + net_reserved(ops.drop_first())
    }
}

/// After any run of balance-moving operations, the depositor's principal
/// equals its starting value plus net deposits, minus net withdrawals,
/// minus net bridge reservations — and, being unsigned, never goes
/// negative: every step that would overdraw is refused.
pub proof fn lemma_deposited_amount_tracks_net_flow(
    g: GlobalState,
    u: UserState,
    ops: Seq<LedgerOp>,
)
    requires
        apply_ops(g, u, ops) is Some,
    ensures
        apply_ops(g, u, ops).unwrap().1.deposited_amount == u.deposited_amount
            + total_deposited(ops) - total_withdrawn(ops) - net_reserved(ops),
        apply_ops(g, u, ops).unwrap().1.deposited_amount >= 0,
    decreases ops.len(),
{
    if ops.len() > 0 {
        let next = apply_op(g, u, ops[0]).unwrap();
        lemma_deposited_amount_tracks_net_flow(next.0, next.1, ops.drop_first());
    }
}

/// Initiating a transfer and completing it with the success flag set
/// moves exactly `amount` from the pending reservation into confirmed
/// cross-chain deposits: the principal stays where initiation left it and
/// the pending counters return to their starting values.
pub proof fn lemma_initiate_then_complete_success(
    g: GlobalState,
    u: UserState,
    user: Key,
    target_chain: u8,
    amount: u64,
    target_address: Key,
    initiated_at: i64,
    completed_at: i64,
)
    requires
        can_initiate(g, u, amount),
        u.cross_chain_deposits + amount <= u64::MAX,
        g.total_cross_chain_deposits + amount <= u64::MAX,
    ensures
        ({
            let request = new_bridge_request(user, target_chain, amount, target_address,
                initiated_at);
            let mid = initiate_result(g, u, amount);
            let done = complete_result(mid.0, mid.1, request, true, completed_at);
            &&& can_complete(mid.0, mid.1, request, true)
            &&& done.1.deposited_amount == mid.1.deposited_amount
            &&& done.1.deposited_amount == u.deposited_amount - amount
            &&& done.1.pending_cross_chain_transfers == u.pending_cross_chain_transfers
            &&& done.1.cross_chain_deposits == u.cross_chain_deposits + amount
            &&& done.0.total_deposits == g.total_deposits - amount
            &&& done.0.pending_cross_chain_amount == g.pending_cross_chain_amount
            &&& done.0.total_cross_chain_deposits == g.total_cross_chain_deposits + amount
            &&& done.2.status == BridgeStatus::Completed
        }),
{
}

/// Initiating a transfer and completing it with the success flag cleared
/// refunds the reservation: principal, pending counters and cross-chain
/// totals all return exactly to their pre-initiation values.
pub proof fn lemma_initiate_then_complete_failure(
    g: GlobalState,
    u: UserState,
    user: Key,
    target_chain: u8,
    amount: u64,
    target_address: Key,
    initiated_at: i64,
    completed_at: i64,
)
    requires
        can_initiate(g, u, amount),
    ensures
        ({
            let request = new_bridge_request(user, target_chain, amount, target_address,
                initiated_at);
            let mid = initiate_result(g, u, amount);
            let done = complete_result(mid.0, mid.1, request, false, completed_at);
            &&& can_complete(mid.0, mid.1, request, false)
            &&& done.1.deposited_amount == u.deposited_amount
            &&& done.1.pending_cross_chain_transfers == u.pending_cross_chain_transfers
            &&& done.1.cross_chain_deposits == u.cross_chain_deposits
            &&& done.0.total_deposits == g.total_deposits
            &&& done.0.pending_cross_chain_amount == g.pending_cross_chain_amount
            &&& done.0.total_cross_chain_deposits == g.total_cross_chain_deposits
            &&& done.2.status == BridgeStatus::Failed
        }),
{
}

} // verus!
