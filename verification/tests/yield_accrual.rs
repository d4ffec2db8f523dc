use cross_chain_yield_aggregator::yield_calc::{calculate_yield, BPS_DENOMINATOR,
    SECONDS_PER_YEAR};

#[test]
fn one_year_at_five_percent_on_1000_yields_50() {
    assert_eq!(calculate_yield(1000, 31536000, 500), 50);
}

#[test]
fn zero_principal_accrues_nothing() {
    assert_eq!(calculate_yield(0, 31536000, 500), 0);
}

#[test]
fn zero_rate_accrues_nothing() {
    assert_eq!(calculate_yield(1000, 31536000, 0), 0);
}

#[test]
fn zero_elapsed_accrues_nothing() {
    assert_eq!(calculate_yield(1000, 0, 500), 0);
}

#[test]
fn negative_elapsed_accrues_nothing() {
    assert_eq!(calculate_yield(1000, -31536000, 500), 0);
}

#[test]
fn accrual_truncates_toward_zero() {
    // 1_000_000 * 1000 * 86400 / 315_360_000_000 = 273.97..., truncated.
    assert_eq!(calculate_yield(1_000_000, 86400, 1000), 273);
}

#[test]
fn full_rate_full_year_returns_principal() {
    assert_eq!(calculate_yield(123_456_789, SECONDS_PER_YEAR as i64, BPS_DENOMINATOR),
        123_456_789);
}

#[test]
fn sub_unit_accrual_is_zero() {
    // One second at 1 bps on a tiny principal rounds down to zero.
    assert_eq!(calculate_yield(1000, 1, 1), 0);
}

#[test]
fn enormous_inputs_saturate() {
    assert_eq!(calculate_yield(u64::MAX, i64::MAX, u64::MAX), u64::MAX);
}

#[test]
fn accrual_is_monotonic_in_each_argument() {
    let base = calculate_yield(1000, 31536000, 500);
    assert!(calculate_yield(2000, 31536000, 500) >= base);
    assert!(calculate_yield(1000, 63072000, 500) >= base);
    assert!(calculate_yield(1000, 31536000, 600) >= base);
}
