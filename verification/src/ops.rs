//! The callable operations of the ledger.
//!
//! Each operation is the decision-and-mutation core of one entry point:
//! the hosting environment authenticates the caller, fetches the records,
//! reads the clock, invokes the operation, and commits records and token
//! movement atomically — a failed operation must leave every record as it
//! was, which the error paths here guarantee by not mutating at all.
//!
//! Every operation's full effect is pinned down by a transition spec
//! function, so that laws relating several operations can be stated over
//! the same definitions the contracts use.

use vstd::prelude::*;
use crate::state::{BridgeRequest, BridgeStatus, ErrorCode, GlobalState, Key, OracleData,
    UserState};
use crate::yield_calc::{accrued, calculate_yield};

verus! {

broadcast use vstd::array::group_array_axioms;

/// Byte-for-byte equality of two identities.
pub fn key_eq(a: &Key, b: &Key) -> (r: bool)
    ensures
        r == (*a == *b),
{
    let mut i: usize = 0;
    while i < 32
        invariant
            0 <= i <= 32,
            forall|j: int| 0 <= j < i ==> a@[j] == b@[j],
        decreases 32 - i,
    {
        if a[i] != b[i] {
            assert(a@[i as int] != b@[i as int]);
            return false;
        }
        i += 1;
    }
    assert(*a =~= *b);
    true
}

/// The protocol ledger as `initialize` creates it: the given authority,
/// every accumulator and rate zero, and an all-zero oracle snapshot.
pub open spec fn initial_global_state(authority: Key) -> GlobalState {
    GlobalState {
        authority,
        total_deposits: 0,
        total_yield_earned: 0,
        solana_yield_rate: 0,
        ethereum_yield_rate: 0,
        polygon_yield_rate: 0,
        last_yield_update: 0,
        pending_cross_chain_amount: 0,
        total_cross_chain_deposits: 0,
        oracle_data: OracleData {
            source_chain: 0,
            timestamp: 0,
            yield_rates: [0u64, 0u64, 0u64, 0u64, 0u64, 0u64, 0u64, 0u64, 0u64, 0u64],
            total_value_locked: 0,
            apy_data: [0u64, 0u64, 0u64, 0u64, 0u64, 0u64, 0u64, 0u64, 0u64, 0u64],
        },
        last_oracle_update: 0,
    }
}

/// Creates the protocol ledger, owned by the given authority. Called once
/// for the whole system; the durable store guarantees a single instance.
pub fn initialize(authority: Key) -> (g: GlobalState)
    ensures
        g == initial_global_state(authority),
{
    GlobalState {
        authority,
        total_deposits: 0,
        total_yield_earned: 0,
        solana_yield_rate: 0,
        ethereum_yield_rate: 0,
        polygon_yield_rate: 0,
        last_yield_update: 0,
        pending_cross_chain_amount: 0,
        total_cross_chain_deposits: 0,
        oracle_data: OracleData {
            source_chain: 0,
            timestamp: 0,
            yield_rates: [0u64, 0u64, 0u64, 0u64, 0u64, 0u64, 0u64, 0u64, 0u64, 0u64],
            total_value_locked: 0,
            apy_data: [0u64, 0u64, 0u64, 0u64, 0u64, 0u64, 0u64, 0u64, 0u64, 0u64],
        },
        last_oracle_update: 0,
    }
}

/// A deposit fits when neither accumulator would overflow.
pub open spec fn can_deposit(g: GlobalState, u: UserState, amount: u64) -> bool {
    &&& u.deposited_amount + amount <= u64::MAX
    &&& g.total_deposits + amount <= u64::MAX
}

/// The two records after a successful deposit.
pub open spec fn deposit_result(
    g: GlobalState,
    u: UserState,
    user: Key,
    amount: u64,
    now: i64,
) -> (GlobalState, UserState) {
    (
        GlobalState { total_deposits: (g.total_deposits + amount) as u64, ..g },
        UserState {
            user,
            deposited_amount: (u.deposited_amount + amount) as u64,
            last_deposit_timestamp: now,
            ..u
        },
    )
}

/// Credits a deposit whose token transfer into the vault has succeeded:
/// the depositor's principal and the protocol total each grow by `amount`.
/// There is no error path; transfer failure aborts before this point.
pub fn deposit(
    global_state: &mut GlobalState,
    user_state: &mut UserState,
    user: Key,
    amount: u64,
    now: i64,
) -> (result: Result<(), ErrorCode>)
    requires
        can_deposit(*old(global_state), *old(user_state), amount),
    ensures
        result is Ok,
        (*final(global_state), *final(user_state))
            == deposit_result(*old(global_state), *old(user_state), user, amount, now),
{
    user_state.user = user;
    user_state.deposited_amount = user_state.deposited_amount + amount;
    user_state.last_deposit_timestamp = now;
    global_state.total_deposits = global_state.total_deposits + amount;
    Ok(())
}

/// A withdrawal fits when the depositor holds the amount; the protocol
/// total covers it whenever the ledgers are consistent.
pub open spec fn can_withdraw(g: GlobalState, u: UserState, amount: u64) -> bool {
    &&& amount <= u.deposited_amount
    &&& amount <= g.total_deposits
}

/// The two records after a successful withdrawal.
pub open spec fn withdraw_result(
    g: GlobalState,
    u: UserState,
    amount: u64,
    now: i64,
) -> (GlobalState, UserState) {
    (
        GlobalState { total_deposits: (g.total_deposits - amount) as u64, ..g },
        UserState {
            deposited_amount: (u.deposited_amount - amount) as u64,
            last_withdrawal_timestamp: now,
            ..u
        },
    )
}

/// Debits a withdrawal: the depositor's principal and the protocol total
/// each shrink by `amount`. The host then moves `amount` from the vault to
/// the depositor, committing both or neither. Fails with
/// `InsufficientBalance`, mutating nothing, exactly when the depositor
/// holds less than `amount`.
pub fn withdraw(
    global_state: &mut GlobalState,
    user_state: &mut UserState,
    amount: u64,
    now: i64,
) -> (result: Result<(), ErrorCode>)
    requires
        amount <= old(user_state).deposited_amount
            ==> amount <= old(global_state).total_deposits,
    ensures
        match result {
            Ok(()) => {
                &&& amount <= old(user_state).deposited_amount
                &&& (*final(global_state), *final(user_state))
                    == withdraw_result(*old(global_state), *old(user_state), amount, now)
            },
            Err(e) => {
                &&& e == ErrorCode::InsufficientBalance
                &&& amount > old(user_state).deposited_amount
                &&& *final(global_state) == *old(global_state)
                &&& *final(user_state) == *old(user_state)
            },
        },
{
    if user_state.deposited_amount < amount {
        return Err(ErrorCode::InsufficientBalance);
    }
    user_state.deposited_amount = user_state.deposited_amount - amount;
    user_state.last_withdrawal_timestamp = now;
    global_state.total_deposits = global_state.total_deposits - amount;
    Ok(())
}

/// The yield owed to a depositor at `now`: accrual on the current
/// principal over the time since the last claim, at the published rate of
/// the primary chain. Only that one of the three published rates is
/// consulted.
pub open spec fn claimable_yield(g: GlobalState, u: UserState, now: i64) -> u64 {
    accrued(u.deposited_amount, (now - u.last_yield_claim) as i64, g.solana_yield_rate)
}

/// A claim fits when the elapsed time is representable and neither yield
/// accumulator would overflow.
pub open spec fn can_claim_yield(g: GlobalState, u: UserState, now: i64) -> bool {
    &&& i64::MIN <= now - u.last_yield_claim <= i64::MAX
    &&& u.total_yield_claimed + claimable_yield(g, u, now) <= u64::MAX
    &&& g.total_yield_earned + claimable_yield(g, u, now) <= u64::MAX
}

/// The two records after a successful claim of `amount`.
pub open spec fn claim_yield_result(
    g: GlobalState,
    u: UserState,
    amount: u64,
    now: i64,
) -> (GlobalState, UserState) {
    (
        GlobalState { total_yield_earned: (g.total_yield_earned + amount) as u64, ..g },
        UserState {
            total_yield_claimed: (u.total_yield_claimed + amount) as u64,
            last_yield_claim: now,
            ..u
        },
    )
}

/// Pays out accrued yield: on success returns the amount the host must
/// move from the vault to the depositor, recorded in both ledgers, and
/// resets the claim clock. Fails with `NoYieldToClaim`, mutating nothing,
/// exactly when the accrual computes to zero.
pub fn claim_yield(
    global_state: &mut GlobalState,
    user_state: &mut UserState,
    now: i64,
) -> (result: Result<u64, ErrorCode>)
    requires
        can_claim_yield(*old(global_state), *old(user_state), now),
    ensures
        match result {
            Ok(amount) => {
                &&& amount == claimable_yield(*old(global_state), *old(user_state), now)
                &&& amount > 0
                &&& (*final(global_state), *final(user_state))
                    == claim_yield_result(*old(global_state), *old(user_state), amount, now)
            },
            Err(e) => {
                &&& e == ErrorCode::NoYieldToClaim
                &&& claimable_yield(*old(global_state), *old(user_state), now) == 0
                &&& *final(global_state) == *old(global_state)
                &&& *final(user_state) == *old(user_state)
            },
        },
{
    let time_delta: i64 = now - user_state.last_yield_claim;
    let yield_earned: u64 = calculate_yield(
        user_state.deposited_amount,
        time_delta,
        global_state.solana_yield_rate,
    );
    if yield_earned == 0 {
        return Err(ErrorCode::NoYieldToClaim);
    }
    user_state.total_yield_claimed = user_state.total_yield_claimed + yield_earned;
    user_state.last_yield_claim = now;
    global_state.total_yield_earned = global_state.total_yield_earned + yield_earned;
    Ok(yield_earned)
}

/// The protocol ledger after a rate publication.
pub open spec fn update_yield_data_result(
    g: GlobalState,
    solana_yield: u64,
    ethereum_yield: u64,
    polygon_yield: u64,
    now: i64,
) -> GlobalState {
    GlobalState {
        solana_yield_rate: solana_yield,
        ethereum_yield_rate: ethereum_yield,
        polygon_yield_rate: polygon_yield,
        last_yield_update: now,
        ..g
    }
}

/// Publishes the three per-chain rates. Fails with `Unauthorized`,
/// mutating nothing, exactly when the caller is not the stored authority.
pub fn update_yield_data(
    global_state: &mut GlobalState,
    caller: Key,
    solana_yield: u64,
    ethereum_yield: u64,
    polygon_yield: u64,
    now: i64,
) -> (result: Result<(), ErrorCode>)
    ensures
        match result {
            Ok(()) => {
                &&& caller == old(global_state).authority
                &&& *final(global_state) == update_yield_data_result(
                    *old(global_state), solana_yield, ethereum_yield, polygon_yield, now)
            },
            Err(e) => {
                &&& e == ErrorCode::Unauthorized
                &&& caller != old(global_state).authority
                &&& *final(global_state) == *old(global_state)
            },
        },
{
    if !key_eq(&caller, &global_state.authority) {
        return Err(ErrorCode::Unauthorized);
    }
    global_state.solana_yield_rate = solana_yield;
    global_state.ethereum_yield_rate = ethereum_yield;
    global_state.polygon_yield_rate = polygon_yield;
    global_state.last_yield_update = now;
    Ok(())
}

/// Reassigns the authority. Fails with `Unauthorized`, mutating nothing,
/// exactly when the caller is not the stored authority; on success all
/// subsequent privileged operations answer to `new_authority`.
pub fn set_authority(
    global_state: &mut GlobalState,
    caller: Key,
    new_authority: Key,
) -> (result: Result<(), ErrorCode>)
    ensures
        match result {
            Ok(()) => {
                &&& caller == old(global_state).authority
                &&& *final(global_state)
                    == (GlobalState { authority: new_authority, ..*old(global_state) })
            },
            Err(e) => {
                &&& e == ErrorCode::Unauthorized
                &&& caller != old(global_state).authority
                &&& *final(global_state) == *old(global_state)
            },
        },
{
    if !key_eq(&caller, &global_state.authority) {
        return Err(ErrorCode::Unauthorized);
    }
    global_state.authority = new_authority;
    Ok(())
}

/// The protocol ledger after an oracle ingestion.
pub open spec fn update_oracle_data_result(
    g: GlobalState,
    oracle_data: OracleData,
    now: i64,
) -> GlobalState {
    GlobalState { oracle_data, last_oracle_update: now, ..g }
}

/// Wholesale-replaces the oracle snapshot. Fails with `Unauthorized`,
/// mutating nothing, exactly when the caller is not the stored authority.
pub fn update_oracle_data(
    global_state: &mut GlobalState,
    caller: Key,
    oracle_data: OracleData,
    now: i64,
) -> (result: Result<(), ErrorCode>)
    ensures
        match result {
            Ok(()) => {
                &&& caller == old(global_state).authority
                &&& *final(global_state)
                    == update_oracle_data_result(*old(global_state), oracle_data, now)
            },
            Err(e) => {
                &&& e == ErrorCode::Unauthorized
                &&& caller != old(global_state).authority
                &&& *final(global_state) == *old(global_state)
            },
        },
{
    if !key_eq(&caller, &global_state.authority) {
        return Err(ErrorCode::Unauthorized);
    }
    global_state.oracle_data = oracle_data;
    global_state.last_oracle_update = now;
    Ok(())
}

/// An initiation fits when the depositor holds the amount and neither
/// reservation accumulator would overflow.
pub open spec fn can_initiate(g: GlobalState, u: UserState, amount: u64) -> bool {
    &&& amount <= u.deposited_amount
    &&& amount <= g.total_deposits
    &&& u.pending_cross_chain_transfers + amount <= u64::MAX
    &&& g.pending_cross_chain_amount + amount <= u64::MAX
}

/// The bridge request a successful initiation creates.
pub open spec fn new_bridge_request(
    user: Key,
    target_chain: u8,
    amount: u64,
    target_address: Key,
    now: i64,
) -> BridgeRequest {
    BridgeRequest {
        user,
        target_chain,
        amount,
        target_address,
        status: BridgeStatus::Pending,
        created_at: now,
        completed_at: 0,
    }
}

/// The two ledger records after a successful initiation: `amount` moves
/// from withdrawable principal into the pending reservation counters.
pub open spec fn initiate_result(
    g: GlobalState,
    u: UserState,
    amount: u64,
) -> (GlobalState, UserState) {
    (
        GlobalState {
            total_deposits: (g.total_deposits - amount) as u64,
            pending_cross_chain_amount: (g.pending_cross_chain_amount + amount) as u64,
            ..g
        },
        UserState {
            deposited_amount: (u.deposited_amount - amount) as u64,
            pending_cross_chain_transfers: (u.pending_cross_chain_transfers + amount) as u64,
            ..u
        },
    )
}

/// Reserves `amount` for a cross-chain transfer: creates a `Pending`
/// bridge request and moves the amount from withdrawable principal into
/// the pending counters. No external chain is contacted; resolution is a
/// later, authority-driven step. Fails with `InsufficientBalance`,
/// mutating nothing, exactly when the depositor holds less than `amount`.
/// The store admits at most one outstanding request per depositor; the
/// host must refuse an initiation while one exists.
pub fn initiate_cross_chain_transfer(
    global_state: &mut GlobalState,
    user_state: &mut UserState,
    user: Key,
    target_chain: u8,
    amount: u64,
    target_address: Key,
    now: i64,
) -> (result: Result<BridgeRequest, ErrorCode>)
    requires
        amount <= old(user_state).deposited_amount ==> {
            &&& amount <= old(global_state).total_deposits
            &&& old(user_state).pending_cross_chain_transfers + amount <= u64::MAX
            &&& old(global_state).pending_cross_chain_amount + amount <= u64::MAX
        },
    ensures
        match result {
            Ok(request) => {
                &&& amount <= old(user_state).deposited_amount
                &&& request == new_bridge_request(user, target_chain, amount, target_address, now)
                &&& (*final(global_state), *final(user_state))
                    == initiate_result(*old(global_state), *old(user_state), amount)
            },
            Err(e) => {
                &&& e == ErrorCode::InsufficientBalance
                &&& amount > old(user_state).deposited_amount
                &&& *final(global_state) == *old(global_state)
                &&& *final(user_state) == *old(user_state)
            },
        },
{
    if user_state.deposited_amount < amount {
        return Err(ErrorCode::InsufficientBalance);
    }
    let request = BridgeRequest {
        user,
        target_chain,
        amount,
        target_address,
        status: BridgeStatus::Pending,
        created_at: now,
        completed_at: 0,
    };
    user_state.deposited_amount = user_state.deposited_amount - amount;
    user_state.pending_cross_chain_transfers = user_state.pending_cross_chain_transfers + amount;
    global_state.total_deposits = global_state.total_deposits - amount;
    global_state.pending_cross_chain_amount = global_state.pending_cross_chain_amount + amount;
    Ok(request)
}

/// A resolution fits when the pending counters cover the request and the
/// crediting accumulator of the chosen outcome would not overflow.
pub open spec fn can_complete(
    g: GlobalState,
    u: UserState,
    request: BridgeRequest,
    success: bool,
) -> bool {
    &&& request.amount <= u.pending_cross_chain_transfers
    &&& request.amount <= g.pending_cross_chain_amount
    &&& success ==> {
        &&& u.cross_chain_deposits + request.amount <= u64::MAX
        &&& g.total_cross_chain_deposits + request.amount <= u64::MAX
    }
    &&& !success ==> {
        &&& u.deposited_amount + request.amount <= u64::MAX
        &&& g.total_deposits + request.amount <= u64::MAX
    }
}

/// The three records after a resolution: on success the reservation is
/// reclassified as a confirmed cross-chain deposit, on failure it is
/// refunded into withdrawable principal.
pub open spec fn complete_result(
    g: GlobalState,
    u: UserState,
    request: BridgeRequest,
    success: bool,
    now: i64,
) -> (GlobalState, UserState, BridgeRequest) {
    let amount = request.amount;
    if success {
        (
            GlobalState {
                pending_cross_chain_amount: (g.pending_cross_chain_amount - amount) as u64,
                total_cross_chain_deposits: (g.total_cross_chain_deposits + amount) as u64,
                ..g
            },
            UserState {
                pending_cross_chain_transfers: (u.pending_cross_chain_transfers - amount) as u64,
                cross_chain_deposits: (u.cross_chain_deposits + amount) as u64,
                ..u
            },
            BridgeRequest { status: BridgeStatus::Completed, completed_at: now, ..request },
        )
    } else {
        (
            GlobalState {
                pending_cross_chain_amount: (g.pending_cross_chain_amount - amount) as u64,
                total_deposits: (g.total_deposits + amount) as u64,
                ..g
            },
            UserState {
                pending_cross_chain_transfers: (u.pending_cross_chain_transfers - amount) as u64,
                deposited_amount: (u.deposited_amount + amount) as u64,
                ..u
            },
            BridgeRequest { status: BridgeStatus::Failed, completed_at: now, ..request },
        )
    }
}

/// Resolves a bridge request. On `success` the reservation becomes a
/// confirmed cross-chain deposit; otherwise it is refunded to the
/// depositor's principal. No tokens move here — the amount left the
/// principal at initiation; resolution only reclassifies it. Fails with
/// `Unauthorized`, mutating nothing, exactly when the caller is not the
/// stored authority.
pub fn complete_cross_chain_transfer(
    global_state: &mut GlobalState,
    user_state: &mut UserState,
    bridge_request: &mut BridgeRequest,
    caller: Key,
    success: bool,
    now: i64,
) -> (result: Result<(), ErrorCode>)
    requires
        caller == old(global_state).authority
            ==> can_complete(*old(global_state), *old(user_state), *old(bridge_request), success),
    ensures
        match result {
            Ok(()) => {
                &&& caller == old(global_state).authority
                &&& (*final(global_state), *final(user_state), *final(bridge_request))
                    == complete_result(
                        *old(global_state),
                        *old(user_state),
                        *old(bridge_request),
                        success,
                        now,
                    )
            },
            Err(e) => {
                &&& e == ErrorCode::Unauthorized
                &&& caller != old(global_state).authority
                &&& *final(global_state) == *old(global_state)
                &&& *final(user_state) == *old(user_state)
                &&& *final(bridge_request) == *old(bridge_request)
            },
        },
{
    if !key_eq(&caller, &global_state.authority) {
        return Err(ErrorCode::Unauthorized);
    }
    let amount = bridge_request.amount;
    if success {
        bridge_request.status = BridgeStatus::Completed;
        user_state.pending_cross_chain_transfers =
            user_state.pending_cross_chain_transfers - amount;
        user_state.cross_chain_deposits = user_state.cross_chain_deposits + amount;
    } else {
        bridge_request.status = BridgeStatus::Failed;
        user_state.pending_cross_chain_transfers =
            user_state.pending_cross_chain_transfers - amount;
        user_state.deposited_amount = user_state.deposited_amount + amount;
    }
    bridge_request.completed_at = now;
    global_state.pending_cross_chain_amount = global_state.pending_cross_chain_amount - amount;
    if success {
        global_state.total_cross_chain_deposits =
            global_state.total_cross_chain_deposits + amount;
    } else {
        global_state.total_deposits = global_state.total_deposits + amount;
    }
    Ok(())
}

} // verus!
