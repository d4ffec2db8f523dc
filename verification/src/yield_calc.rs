//! Time-based yield accrual.
//!
//! Accrual is computed in exact integer arithmetic with truncating
//! division: `principal * rate_bps * elapsed / (10000 * seconds_per_year)`.
//! A result that exceeds `u64::MAX` saturates to `u64::MAX`.

use vstd::prelude::*;
use vstd::arithmetic::div_mod::{lemma_div_is_ordered, lemma_div_multiples_vanish,
    lemma_div_pos_is_pos};
use vstd::arithmetic::mul::lemma_mul_inequality;

verus! {

/// Seconds in the 365-day year used to annualize rates.
pub const SECONDS_PER_YEAR: u64 = 31536000;

/// Basis points in the whole: a rate of 10000 bps is 100%.
pub const BPS_DENOMINATOR: u64 = 10000;

/// The combined divisor of the accrual formula:
/// `BPS_DENOMINATOR * SECONDS_PER_YEAR`.
pub open spec fn accrual_divisor() -> int {
    (BPS_DENOMINATOR * SECONDS_PER_YEAR) as int
}

/// The untruncated quotient of the accrual formula, over unbounded integers.
pub open spec fn accrued_exact(principal: int, rate_bps: int, elapsed: int) -> int {
    (principal * rate_bps * elapsed) / accrual_divisor()
}

/// What one accrual returns: zero whenever the principal or the rate is
/// zero or no time has elapsed, else the exact integer quotient, saturated
/// at `u64::MAX`.
pub open spec fn accrued(principal: u64, elapsed: i64, rate_bps: u64) -> u64 {
    if principal == 0 || elapsed <= 0 || rate_bps == 0 {
        0u64
    } else if accrued_exact(principal as int, rate_bps as int, elapsed as int) > u64::MAX {
        u64::MAX
    } else {
        accrued_exact(principal as int, rate_bps as int, elapsed as int) as u64
    }
}

/// Maps (principal, elapsed seconds, annualized rate in basis points) to
/// the accrued yield amount. Pure and deterministic.
pub fn calculate_yield(deposited_amount: u64, time_delta: i64, yield_rate: u64) -> (amount: u64)
    ensures
        amount == accrued(deposited_amount, time_delta, yield_rate),
{
    if deposited_amount == 0 || time_delta <= 0 || yield_rate == 0 {
        return 0;
    }
    proof {
        assert((deposited_amount as int) * (yield_rate as int) <= u128::MAX as int)
            by (nonlinear_arith)
            requires
                0 <= deposited_amount as int <= u64::MAX as int,
                0 <= yield_rate as int <= u64::MAX as int,
        ;
        assert((BPS_DENOMINATOR as int) * (SECONDS_PER_YEAR as int) == 315360000000int);
    }
    let scaled: u128 = (deposited_amount as u128) * (yield_rate as u128);
    let denominator: u128 = (BPS_DENOMINATOR as u128) * (SECONDS_PER_YEAR as u128);
    match scaled.checked_mul(time_delta as u128) {
        Some(numerator) => {
            let quotient: u128 = numerator / denominator;
            if quotient > u64::MAX as u128 {
                u64::MAX
            } else {
                quotient as u64
            }
        },
        None => {
            proof {
                lemma_numerator_overflow_saturates(
                    deposited_amount as int,
                    yield_rate as int,
                    time_delta as int,
                );
            }
            u64::MAX
        },
    }
}

/// When the 128-bit numerator overflows, the exact quotient already
/// exceeds `u64::MAX`, so saturating is the correct result.
proof fn lemma_numerator_overflow_saturates(p: int, r: int, t: int)
    requires
        0 <= p,
        0 <= r,
        0 <= t,
        p * r * t > u128::MAX,
    ensures
        accrued_exact(p, r, t) > u64::MAX,
{
    let d = accrual_divisor();
    let bound = u64::MAX as int + 1;
    assert(d == 315360000000int);
    assert(d * bound <= u128::MAX as int) by (nonlinear_arith)
        requires
            d == 315360000000int,
            bound == u64::MAX as int + 1,
    ;
    lemma_div_is_ordered(d * bound, p * r * t, d);
    lemma_div_multiples_vanish(bound, d);
}

/// Accrual is zero whenever the principal or the rate is zero or the
/// elapsed time is not positive.
pub proof fn lemma_accrued_zero(principal: u64, elapsed: i64, rate_bps: u64)
    requires
        principal == 0 || elapsed <= 0 || rate_bps == 0,
    ensures
        accrued(principal, elapsed, rate_bps) == 0,
{
}

/// Shared step: with componentwise-ordered positive factors, the
/// saturated quotient is ordered too.
proof fn lemma_accrued_products_ordered(p1: u64, r1: u64, t1: i64, p2: u64, r2: u64, t2: i64)
    requires
        0 < p1 <= p2,
        0 < r1 <= r2,
        0 < t1 <= t2,
    ensures
        accrued(p1, t1, r1) <= accrued(p2, t2, r2),
{
    let d = accrual_divisor();
    lemma_mul_inequality(p1 as int, p2 as int, r1 as int);
    lemma_mul_inequality(r1 as int, r2 as int, p2 as int);
    assert(p1 as int * r1 as int <= p2 as int * r2 as int);
    lemma_mul_inequality(p1 as int * r1 as int, p2 as int * r2 as int, t1 as int);
    lemma_mul_inequality(t1 as int, t2 as int, p2 as int * r2 as int);
    assert(p1 as int * r1 as int * t1 as int <= p2 as int * r2 as int * t2 as int);
    lemma_div_is_ordered(
        p1 as int * r1 as int * t1 as int,
        p2 as int * r2 as int * t2 as int,
        d,
    );
    assert(p1 as int * r1 as int * t1 as int >= 0) by (nonlinear_arith)
        requires
            0 < p1 && 0 < r1 && 0 < t1,
    ;
    lemma_div_pos_is_pos(p1 as int * r1 as int * t1 as int, d);
}

/// Accrual is monotonically non-decreasing in the principal.
pub proof fn lemma_accrued_monotonic_in_principal(p1: u64, p2: u64, elapsed: i64, rate_bps: u64)
    requires
        p1 <= p2,
    ensures
        accrued(p1, elapsed, rate_bps) <= accrued(p2, elapsed, rate_bps),
{
    if p1 == 0 || elapsed <= 0 || rate_bps == 0 {
        lemma_accrued_zero(p1, elapsed, rate_bps);
    } else {
        lemma_accrued_products_ordered(p1, rate_bps, elapsed, p2, rate_bps, elapsed);
    }
}

/// Accrual is monotonically non-decreasing in the elapsed time.
pub proof fn lemma_accrued_monotonic_in_elapsed(principal: u64, t1: i64, t2: i64, rate_bps: u64)
    requires
        t1 <= t2,
    ensures
        accrued(principal, t1, rate_bps) <= accrued(principal, t2, rate_bps),
{
    if principal == 0 || t1 <= 0 || rate_bps == 0 {
        lemma_accrued_zero(principal, t1, rate_bps);
    } else {
        lemma_accrued_products_ordered(principal, rate_bps, t1, principal, rate_bps, t2);
    }
}

/// Accrual is monotonically non-decreasing in the rate.
pub proof fn lemma_accrued_monotonic_in_rate(principal: u64, elapsed: i64, r1: u64, r2: u64)
    requires
        r1 <= r2,
    ensures
        accrued(principal, elapsed, r1) <= accrued(principal, elapsed, r2),
{
    if principal == 0 || elapsed <= 0 || r1 == 0 {
        lemma_accrued_zero(principal, elapsed, r1);
    } else {
        lemma_accrued_products_ordered(principal, r1, elapsed, principal, r2, elapsed);
    }
}

} // verus!
