//! Continuous yield at an annual rate in basis points.
use vstd::prelude::*;

verus! {

/// Basis points in one whole (100%).
pub const BPS_DENOMINATOR: u128 = 10000;

/// Seconds in a (365-day) year, the period over which the rate applies.
pub const SECONDS_IN_YEAR: u128 = 365 * 24 * 60 * 60;

/// Yield earned by `principal` at an annual rate of `rate_bps` basis points
/// between `last` and `now`, rounded down. Nothing accrues when time has not
/// moved forward.
pub open spec fn accrued_yield(principal: int, rate_bps: int, last: int, now: int) -> int {
    if principal == 0 || rate_bps == 0 || now <= last {
        0
    } else {
        principal * rate_bps * (now - last) / (BPS_DENOMINATOR * SECONDS_IN_YEAR) as int
    }
}

/// Dividing by the basis-point denominator and then by the year length is
/// dividing by their product.
pub proof fn lemma_two_step_division(x: int)
    requires
        0 <= x,
    ensures
        x / BPS_DENOMINATOR as int / SECONDS_IN_YEAR as int == x / (BPS_DENOMINATOR
            * SECONDS_IN_YEAR) as int,
{
    vstd::arithmetic::div_mod::lemma_div_denominator(
        x,
        BPS_DENOMINATOR as int,
        SECONDS_IN_YEAR as int,
    );
}

/// A product that does not fit in 128 bits gives a yield that does not fit in
/// 64 bits.
pub proof fn lemma_wide_product_overflows(x: int)
    requires
        x > u128::MAX,
    ensures
        x / (BPS_DENOMINATOR * SECONDS_IN_YEAR) as int > u64::MAX,
{
    let d = (BPS_DENOMINATOR * SECONDS_IN_YEAR) as int;
    let q = u64::MAX as int + 1;
    assert(q * d <= x);
    vstd::arithmetic::div_mod::lemma_div_is_ordered(q * d, x, d);
    vstd::arithmetic::div_mod::lemma_div_multiples_vanish(q, d);
}

/// The yield is never negative, and is zero when the clock has not moved
/// forward.
pub proof fn lemma_accrued_nonnegative(principal: u64, rate_bps: u16, last: i64, now: i64)
    ensures
        accrued_yield(principal as int, rate_bps as int, last as int, now as int) >= 0,
        now <= last ==> accrued_yield(principal as int, rate_bps as int, last as int, now as int)
            == 0,
{
    if !(principal == 0 || rate_bps == 0 || now <= last) {
        let x = principal * rate_bps * (now - last);
        assert(x >= 0) by (nonlinear_arith)
            requires
                x == principal * rate_bps * (now - last),
                principal >= 0,
                rate_bps >= 0,
                now - last > 0,
        ;
    }
}

} // verus!
