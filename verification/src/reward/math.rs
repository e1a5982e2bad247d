//! Decimal arithmetic at twelve decimal places, as the reward contract does it.

use crate::decimal::{Decimal, mul_floor, mul_uint, ratio_atomics};
use vstd::prelude::*;

verus! {

/// The scale (10^12) the reward contract multiplies decimals by.
pub const REWARD_FRACTIONAL: u128 = 1_000_000_000_000u128;

/// A decimal truncated to twelve decimal places, in units of 10^-12.
pub open spec fn at_twelve_places(d: Decimal) -> int {
    mul_floor(REWARD_FRACTIONAL as int, d.atomics as int)
}

proof fn lemma_twelve_places(a: u128)
    ensures
        mul_floor(REWARD_FRACTIONAL as int, a as int) == a as int / 1_000_000,
        0 <= a as int / 1_000_000 <= a,
{
    assert(1_000_000_000_000int * (a as int) / 1_000_000_000_000_000_000int == (a as int) / 1_000_000) by (nonlinear_arith);
}

proof fn lemma_scale_back(x: int)
    requires
        x >= 0,
    ensures
        ratio_atomics(x, REWARD_FRACTIONAL as int) == x * 1_000_000,
{
    assert(x * 1_000_000_000_000_000_000int / 1_000_000_000_000int == x * 1_000_000) by (nonlinear_arith);
}

/// `a * b` computed at twelve decimal places: `a` truncated to twelve places,
/// multiplied by `b` and rounded down.
pub fn decimal_multiplication(a: Decimal, b: Decimal) -> (r: Decimal)
    requires
        mul_floor(at_twelve_places(a), b.atomics as int) * 1_000_000 <= u128::MAX,
    ensures
        r.atomics == mul_floor(at_twelve_places(a), b.atomics as int) * 1_000_000,
{
    proof { lemma_twelve_places(a.atomics); }
    let x = mul_uint(REWARD_FRACTIONAL, a);
    proof {
        assert(mul_floor(x as int, b.atomics as int) >= 0) by (nonlinear_arith)
            requires x >= 0, b.atomics >= 0;
        assert(mul_floor(x as int, b.atomics as int) <= u128::MAX) by (nonlinear_arith)
            requires mul_floor(x as int, b.atomics as int) * 1_000_000 <= u128::MAX,
                mul_floor(x as int, b.atomics as int) >= 0;
    }
    let y = mul_uint(x, b);
    proof { lemma_scale_back(y as int); }
    Decimal::from_ratio(y, REWARD_FRACTIONAL)
}

/// `a + b`, each truncated to twelve decimal places first.
pub fn decimal_summation(a: Decimal, b: Decimal) -> (r: Decimal)
    requires
        (at_twelve_places(a) + at_twelve_places(b)) * 1_000_000 <= u128::MAX,
    ensures
        r.atomics == (at_twelve_places(a) + at_twelve_places(b)) * 1_000_000,
{
    proof { lemma_twelve_places(a.atomics); lemma_twelve_places(b.atomics); }
    let x = mul_uint(REWARD_FRACTIONAL, a);
    let y = mul_uint(REWARD_FRACTIONAL, b);
    let one = Decimal::one();
    proof {
        assert(mul_floor(REWARD_FRACTIONAL as int, one.atomics as int) == REWARD_FRACTIONAL) by (nonlinear_arith)
            requires one.atomics == 1_000_000_000_000_000_000u128;
    }
    let den = mul_uint(REWARD_FRACTIONAL, one);
    let d = x + y;
    proof { lemma_scale_back(d as int); }
    Decimal::from_ratio(d, den)
}

/// `a - b`, each truncated to twelve decimal places first.
pub fn decimal_subtraction(a: Decimal, b: Decimal) -> (r: Decimal)
    requires
        at_twelve_places(a) >= at_twelve_places(b),
    ensures
        r.atomics == (at_twelve_places(a) - at_twelve_places(b)) * 1_000_000,
{
    proof { lemma_twelve_places(a.atomics); lemma_twelve_places(b.atomics); }
    let x = mul_uint(REWARD_FRACTIONAL, a);
    let y = mul_uint(REWARD_FRACTIONAL, b);
    let one = Decimal::one();
    proof {
        assert(mul_floor(REWARD_FRACTIONAL as int, one.atomics as int) == REWARD_FRACTIONAL) by (nonlinear_arith)
            requires one.atomics == 1_000_000_000_000_000_000u128;
    }
    let den = mul_uint(REWARD_FRACTIONAL, one);
    let c = x - y;
    proof {
        lemma_scale_back(c as int);
        assert(c * 1_000_000 <= a.atomics) by (nonlinear_arith)
            requires c <= x, x == a.atomics as int / 1_000_000;
    }
    Decimal::from_ratio(c, den)
}

} // verus!
