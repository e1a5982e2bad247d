//! Division of an amount by an exchange rate.

use crate::decimal::{Decimal, DECIMAL_FRACTIONAL, mul_uint, mul_floor};
use vstd::prelude::*;

verus! {

/// `a / b` rounded down: `a * 10^18 / b.atomics`.
pub open spec fn div_by_rate(a: int, b_atomics: int) -> int {
    a * (DECIMAL_FRACTIONAL as int) / b_atomics
}

/// Returns `a / b` rounded down to a whole amount.
pub fn decimal_division(a: u128, b: Decimal) -> (r: u128)
    requires
        b.atomics > 0,
        div_by_rate(a as int, b.atomics as int) <= u128::MAX,
    ensures
        r == div_by_rate(a as int, b.atomics as int),
{
    let f = DECIMAL_FRACTIONAL;
    proof {
        assert(mul_floor(f as int, b.atomics as int) == b.atomics) by (nonlinear_arith)
            requires f == 1_000_000_000_000_000_000u128;
    }
    let denom = mul_uint(f, b);
    let decimal = Decimal::from_ratio(a, denom);
    proof {
        let x = decimal.atomics;
        assert(mul_floor(f as int, x as int) == x) by (nonlinear_arith)
            requires f == 1_000_000_000_000_000_000u128;
    }
    mul_uint(f, decimal)
}

/// `decimal_division(a, b)`, or `None` when `b` is zero or the quotient does not fit.
pub fn checked_decimal_division(a: u128, b: Decimal) -> (r: Option<u128>)
    ensures
        r == (if b.atomics > 0 && div_by_rate(a as int, b.atomics as int) <= u128::MAX {
            Some(div_by_rate(a as int, b.atomics as int) as u128)
        } else {
            None::<u128>
        }),
{
    if b.atomics == 0 {
        return None;
    }
    match crate::decimal::checked_multiply_ratio(a, DECIMAL_FRACTIONAL, b.atomics) {
        Some(q) => Some(q),
        None => None,
    }
}

} // verus!
