use cross_chain_yield_aggregator::ops::{complete_cross_chain_transfer, deposit, initialize,
    initiate_cross_chain_transfer, withdraw};
use cross_chain_yield_aggregator::state::{BridgeStatus, ErrorCode, UserState};

fn key(b: u8) -> [u8; 32] {
    [b; 32]
}

#[test]
fn initiation_reserves_funds_and_records_the_request() {
    let mut g = initialize(key(1));
    let mut u = UserState::new(key(2));
    deposit(&mut g, &mut u, key(2), 1000, 10).unwrap();
    let r = initiate_cross_chain_transfer(&mut g, &mut u, key(2), 3, 400, key(8), 20);
    let request = r.unwrap();
    assert_eq!(request.user, key(2));
    assert_eq!(request.target_chain, 3);
    assert_eq!(request.amount, 400);
    assert_eq!(request.target_address, key(8));
    assert_eq!(request.status, BridgeStatus::Pending);
    assert_eq!(request.created_at, 20);
    assert_eq!(u.deposited_amount, 600);
    assert_eq!(u.pending_cross_chain_transfers, 400);
    assert_eq!(g.total_deposits, 600);
    assert_eq!(g.pending_cross_chain_amount, 400);
}

#[test]
fn overdrawing_initiation_fails_and_changes_nothing() {
    let mut g = initialize(key(1));
    let mut u = UserState::new(key(2));
    deposit(&mut g, &mut u, key(2), 300, 10).unwrap();
    let g_before = g;
    let u_before = u;
    let r = initiate_cross_chain_transfer(&mut g, &mut u, key(2), 3, 400, key(8), 20);
    assert_eq!(r, Err(ErrorCode::InsufficientBalance));
    assert_eq!(g, g_before);
    assert_eq!(u, u_before);
}

#[test]
fn successful_completion_reclassifies_the_reservation() {
    let mut g = initialize(key(1));
    let mut u = UserState::new(key(2));
    deposit(&mut g, &mut u, key(2), 1000, 10).unwrap();
    let mut request =
        initiate_cross_chain_transfer(&mut g, &mut u, key(2), 3, 400, key(8), 20).unwrap();
    let r = complete_cross_chain_transfer(&mut g, &mut u, &mut request, key(1), true, 30);
    assert!(r.is_ok());
    // Exactly the amount moved from pending to confirmed; principal untouched.
    assert_eq!(u.deposited_amount, 600);
    assert_eq!(u.pending_cross_chain_transfers, 0);
    assert_eq!(u.cross_chain_deposits, 400);
    assert_eq!(g.total_deposits, 600);
    assert_eq!(g.pending_cross_chain_amount, 0);
    assert_eq!(g.total_cross_chain_deposits, 400);
    assert_eq!(request.status, BridgeStatus::Completed);
    assert_eq!(request.completed_at, 30);
}

#[test]
fn failed_completion_refunds_the_principal_exactly() {
    let mut g = initialize(key(1));
    let mut u = UserState::new(key(2));
    deposit(&mut g, &mut u, key(2), 1000, 10).unwrap();
    let mut request =
        initiate_cross_chain_transfer(&mut g, &mut u, key(2), 3, 400, key(8), 20).unwrap();
    let r = complete_cross_chain_transfer(&mut g, &mut u, &mut request, key(1), false, 30);
    assert!(r.is_ok());
    // Everything is back where it was before initiation.
    assert_eq!(u.deposited_amount, 1000);
    assert_eq!(u.pending_cross_chain_transfers, 0);
    assert_eq!(u.cross_chain_deposits, 0);
    assert_eq!(g.total_deposits, 1000);
    assert_eq!(g.pending_cross_chain_amount, 0);
    assert_eq!(g.total_cross_chain_deposits, 0);
    assert_eq!(request.status, BridgeStatus::Failed);
    assert_eq!(request.completed_at, 30);
}

#[test]
fn completion_by_stranger_fails_and_changes_nothing() {
    let mut g = initialize(key(1));
    let mut u = UserState::new(key(2));
    deposit(&mut g, &mut u, key(2), 1000, 10).unwrap();
    let mut request =
        initiate_cross_chain_transfer(&mut g, &mut u, key(2), 3, 400, key(8), 20).unwrap();
    let g_before = g;
    let u_before = u;
    let request_before = request;
    let r = complete_cross_chain_transfer(&mut g, &mut u, &mut request, key(9), true, 30);
    assert_eq!(r, Err(ErrorCode::Unauthorized));
    assert_eq!(g, g_before);
    assert_eq!(u, u_before);
    assert_eq!(request, request_before);
}

#[test]
fn refunded_funds_are_withdrawable_again() {
    let mut g = initialize(key(1));
    let mut u = UserState::new(key(2));
    deposit(&mut g, &mut u, key(2), 500, 10).unwrap();
    let mut request =
        initiate_cross_chain_transfer(&mut g, &mut u, key(2), 2, 500, key(8), 20).unwrap();
    assert_eq!(withdraw(&mut g, &mut u, 1, 25), Err(ErrorCode::InsufficientBalance));
    complete_cross_chain_transfer(&mut g, &mut u, &mut request, key(1), false, 30).unwrap();
    assert!(withdraw(&mut g, &mut u, 500, 40).is_ok());
    assert_eq!(u.deposited_amount, 0);
}

#[test]
fn principal_tracks_net_flow_across_a_run() {
    let mut g = initialize(key(1));
    let mut u = UserState::new(key(2));
    deposit(&mut g, &mut u, key(2), 1000, 1).unwrap();
    withdraw(&mut g, &mut u, 300, 2).unwrap();
    deposit(&mut g, &mut u, key(2), 200, 3).unwrap();
    let mut request =
        initiate_cross_chain_transfer(&mut g, &mut u, key(2), 2, 250, key(8), 4).unwrap();
    // 1000 - 300 + 200 - 250
    assert_eq!(u.deposited_amount, 650);
    complete_cross_chain_transfer(&mut g, &mut u, &mut request, key(1), false, 5).unwrap();
    // The failed reservation flows back: 1000 - 300 + 200.
    assert_eq!(u.deposited_amount, 900);
    assert_eq!(g.total_deposits, 900);
    // Protocol and depositor ledgers agree throughout.
    assert_eq!(g.pending_cross_chain_amount, u.pending_cross_chain_transfers);
}
