use cross_chain_yield_aggregator::ops::{claim_yield, deposit, initialize, set_authority,
    update_oracle_data, update_yield_data, withdraw};
use cross_chain_yield_aggregator::state::{ErrorCode, OracleData, UserState};

fn key(b: u8) -> [u8; 32] {
    [b; 32]
}

#[test]
fn initialize_sets_authority_and_zeroes_everything() {
    let g = initialize(key(1));
    assert_eq!(g.authority, key(1));
    assert_eq!(g.total_deposits, 0);
    assert_eq!(g.total_yield_earned, 0);
    assert_eq!(g.solana_yield_rate, 0);
    assert_eq!(g.ethereum_yield_rate, 0);
    assert_eq!(g.polygon_yield_rate, 0);
    assert_eq!(g.pending_cross_chain_amount, 0);
    assert_eq!(g.total_cross_chain_deposits, 0);
    assert_eq!(g.oracle_data.yield_rates, [0u64; 10]);
    assert_eq!(g.oracle_data.total_value_locked, 0);
}

#[test]
fn deposit_credits_depositor_and_protocol() {
    let mut g = initialize(key(1));
    let mut u = UserState::new(key(2));
    let r = deposit(&mut g, &mut u, key(2), 1000, 77);
    assert!(r.is_ok());
    assert_eq!(u.user, key(2));
    assert_eq!(u.deposited_amount, 1000);
    assert_eq!(u.last_deposit_timestamp, 77);
    assert_eq!(g.total_deposits, 1000);
}

#[test]
fn deposits_accumulate() {
    let mut g = initialize(key(1));
    let mut u = UserState::new(key(2));
    deposit(&mut g, &mut u, key(2), 1000, 10).unwrap();
    deposit(&mut g, &mut u, key(2), 250, 20).unwrap();
    assert_eq!(u.deposited_amount, 1250);
    assert_eq!(g.total_deposits, 1250);
    assert_eq!(u.last_deposit_timestamp, 20);
}

#[test]
fn withdraw_debits_depositor_and_protocol() {
    let mut g = initialize(key(1));
    let mut u = UserState::new(key(2));
    deposit(&mut g, &mut u, key(2), 500, 10).unwrap();
    let r = withdraw(&mut g, &mut u, 200, 11);
    assert!(r.is_ok());
    assert_eq!(u.deposited_amount, 300);
    assert_eq!(u.last_withdrawal_timestamp, 11);
    assert_eq!(g.total_deposits, 300);
}

#[test]
fn overdrawing_withdrawal_fails_and_changes_nothing() {
    let mut g = initialize(key(1));
    let mut u = UserState::new(key(2));
    deposit(&mut g, &mut u, key(2), 500, 10).unwrap();
    let g_before = g;
    let u_before = u;
    let r = withdraw(&mut g, &mut u, 600, 11);
    assert_eq!(r, Err(ErrorCode::InsufficientBalance));
    assert_eq!(g, g_before);
    assert_eq!(u, u_before);
}

#[test]
fn withdrawing_the_exact_balance_empties_it() {
    let mut g = initialize(key(1));
    let mut u = UserState::new(key(2));
    deposit(&mut g, &mut u, key(2), 500, 10).unwrap();
    withdraw(&mut g, &mut u, 500, 11).unwrap();
    assert_eq!(u.deposited_amount, 0);
    assert_eq!(g.total_deposits, 0);
}

#[test]
fn claim_pays_one_year_of_yield_then_nothing_more() {
    let mut g = initialize(key(1));
    let mut u = UserState::new(key(2));
    update_yield_data(&mut g, key(1), 500, 300, 400, 0).unwrap();
    deposit(&mut g, &mut u, key(2), 1000, 0).unwrap();
    let r = claim_yield(&mut g, &mut u, 31536000);
    assert_eq!(r, Ok(50));
    assert_eq!(u.total_yield_claimed, 50);
    assert_eq!(u.last_yield_claim, 31536000);
    assert_eq!(g.total_yield_earned, 50);
    // Claiming again immediately: no time has elapsed, so nothing accrues.
    let g_before = g;
    let u_before = u;
    let r2 = claim_yield(&mut g, &mut u, 31536000);
    assert_eq!(r2, Err(ErrorCode::NoYieldToClaim));
    assert_eq!(g, g_before);
    assert_eq!(u, u_before);
}

#[test]
fn claim_with_zero_rate_fails() {
    let mut g = initialize(key(1));
    let mut u = UserState::new(key(2));
    deposit(&mut g, &mut u, key(2), 1000, 0).unwrap();
    let r = claim_yield(&mut g, &mut u, 31536000);
    assert_eq!(r, Err(ErrorCode::NoYieldToClaim));
}

#[test]
fn claim_consults_only_the_primary_chain_rate() {
    let mut g = initialize(key(1));
    let mut u = UserState::new(key(2));
    update_yield_data(&mut g, key(1), 0, 9999, 9999, 0).unwrap();
    deposit(&mut g, &mut u, key(2), 1000, 0).unwrap();
    let r = claim_yield(&mut g, &mut u, 31536000);
    assert_eq!(r, Err(ErrorCode::NoYieldToClaim));
}

#[test]
fn update_yield_data_publishes_rates() {
    let mut g = initialize(key(1));
    let r = update_yield_data(&mut g, key(1), 500, 300, 400, 123);
    assert!(r.is_ok());
    assert_eq!(g.solana_yield_rate, 500);
    assert_eq!(g.ethereum_yield_rate, 300);
    assert_eq!(g.polygon_yield_rate, 400);
    assert_eq!(g.last_yield_update, 123);
}

#[test]
fn update_yield_data_by_stranger_fails_and_changes_nothing() {
    let mut g = initialize(key(1));
    let g_before = g;
    let r = update_yield_data(&mut g, key(9), 500, 300, 400, 123);
    assert_eq!(r, Err(ErrorCode::Unauthorized));
    assert_eq!(g, g_before);
}

#[test]
fn set_authority_hands_over_the_role() {
    let mut g = initialize(key(1));
    set_authority(&mut g, key(1), key(7)).unwrap();
    assert_eq!(g.authority, key(7));
    // The old authority is a stranger now; the new one is obeyed.
    assert_eq!(update_yield_data(&mut g, key(1), 1, 2, 3, 4), Err(ErrorCode::Unauthorized));
    assert!(update_yield_data(&mut g, key(7), 1, 2, 3, 4).is_ok());
}

#[test]
fn set_authority_by_stranger_fails_and_changes_nothing() {
    let mut g = initialize(key(1));
    let g_before = g;
    let r = set_authority(&mut g, key(9), key(9));
    assert_eq!(r, Err(ErrorCode::Unauthorized));
    assert_eq!(g, g_before);
}

#[test]
fn update_oracle_data_replaces_the_snapshot() {
    let mut g = initialize(key(1));
    let snapshot = OracleData {
        source_chain: 2,
        timestamp: 555,
        yield_rates: [1, 2, 3, 4, 5, 6, 7, 8, 9, 10],
        total_value_locked: 777,
        apy_data: [10, 9, 8, 7, 6, 5, 4, 3, 2, 1],
    };
    let r = update_oracle_data(&mut g, key(1), snapshot, 556);
    assert!(r.is_ok());
    assert_eq!(g.oracle_data, snapshot);
    assert_eq!(g.last_oracle_update, 556);
}

#[test]
fn update_oracle_data_by_stranger_fails_and_changes_nothing() {
    let mut g = initialize(key(1));
    let g_before = g;
    let snapshot = OracleData {
        source_chain: 2,
        timestamp: 555,
        yield_rates: [0; 10],
        total_value_locked: 777,
        apy_data: [0; 10],
    };
    let r = update_oracle_data(&mut g, key(9), snapshot, 556);
    assert_eq!(r, Err(ErrorCode::Unauthorized));
    assert_eq!(g, g_before);
}
