//! Decimal helpers of the governance contract, which work at nine decimal places.

use crate::decimal::{Decimal, mul_floor, mul_uint, ratio_atomics, DECIMAL_FRACTIONAL};
use vstd::prelude::*;

verus! {

/// The precision of the governance contract's decimal helpers (10^9).
pub const GOV_FRACTIONAL: u128 = 1_000_000_000u128;

/// A decimal scaled to nine decimal places and rounded down: `d * 10^9`.
pub open spec fn scaled(atomics: int) -> int {
    mul_floor(GOV_FRACTIONAL as int, atomics)
}

/// `a / b` as the governance contract computes it: `b` is first rounded down to
/// nine decimal places, the quotient taken as a decimal and rounded down to nine
/// places again.
pub open spec fn gov_division(a: int, b_atomics: int) -> int {
    mul_floor(GOV_FRACTIONAL as int, ratio_atomics(a, scaled(b_atomics)))
}

/// `a - b` of two decimals, each first rounded down to nine decimal places.
pub open spec fn gov_subtraction(a_atomics: int, b_atomics: int) -> int {
    ratio_atomics(scaled(a_atomics) - scaled(b_atomics), GOV_FRACTIONAL as int)
}

proof fn lemma_scaled_bounds(x: int)
    requires
        0 <= x,
    ensures
        0 <= scaled(x) <= x,
        scaled(x) * (GOV_FRACTIONAL as int) <= x,
{
    let g = GOV_FRACTIONAL as int;
    let f = DECIMAL_FRACTIONAL as int;
    assert(f == g * g);
    assert(0 <= g * x / f <= x) by (nonlinear_arith)
        requires 0 <= x, g == 1_000_000_000, f == g * g;
    assert((g * x / f) * g <= x) by (nonlinear_arith)
        requires 0 <= x, g == 1_000_000_000, f == g * g;
}

/// Returns `a / b`, computed at nine decimal places.
pub fn decimal_division(a: u128, b: Decimal) -> (r: u128)
    requires
        scaled(b.atomics as int) > 0,
        ratio_atomics(a as int, scaled(b.atomics as int)) <= u128::MAX,
    ensures
        r == gov_division(a as int, b.atomics as int),
{
    proof { lemma_scaled_bounds(b.atomics as int); }
    let denom = mul_uint(GOV_FRACTIONAL, b);
    let decimal = Decimal::from_ratio(a, denom);
    proof { lemma_scaled_bounds(decimal.atomics as int); }
    mul_uint(GOV_FRACTIONAL, decimal)
}

/// Returns `a - b`, computed at nine decimal places.
pub fn decimal_subtraction(a: Decimal, b: Decimal) -> (r: Decimal)
    requires
        scaled(a.atomics as int) >= scaled(b.atomics as int),
    ensures
        r.atomics == gov_subtraction(a.atomics as int, b.atomics as int),
        r.atomics == (scaled(a.atomics as int) - scaled(b.atomics as int)) * (GOV_FRACTIONAL as int),
{
    proof {
        lemma_scaled_bounds(a.atomics as int);
        lemma_scaled_bounds(b.atomics as int);
        let c = scaled(a.atomics as int) - scaled(b.atomics as int);
        let g = GOV_FRACTIONAL as int;
        assert(c * (DECIMAL_FRACTIONAL as int) / g == c * g) by (nonlinear_arith)
            requires g == 1_000_000_000, DECIMAL_FRACTIONAL as int == g * g;
    }
    let c = mul_uint(GOV_FRACTIONAL, a) - mul_uint(GOV_FRACTIONAL, b);
    Decimal::from_ratio(c, GOV_FRACTIONAL)
}

} // verus!
