//! Terra's stability tax on native transfers, and the protocol fee.

use crate::decimal::{Decimal, DECIMAL_FRACTIONAL, mul_floor, ratio_floor, checked_mul_uint, multiply_ratio};
use vstd::prelude::*;

verus! {

/// The tax on sending `amount`: the part of `amount` above `amount / (1 + rate)`,
/// capped at `cap`.
pub open spec fn tax_of(amount: int, rate_atomics: int, cap: int) -> int {
    let net = ratio_floor(amount, DECIMAL_FRACTIONAL as int, rate_atomics + DECIMAL_FRACTIONAL as int);
    let tax = amount - net;
    if tax < cap { tax } else { cap }
}

proof fn lemma_net_bounds(amount: int, rate_atomics: int)
    requires
        0 <= amount,
        0 <= rate_atomics,
    ensures
        0 <= ratio_floor(amount, DECIMAL_FRACTIONAL as int, rate_atomics + DECIMAL_FRACTIONAL as int) <= amount,
{
    let f = DECIMAL_FRACTIONAL as int;
    assert(amount * f / (rate_atomics + f) <= amount) by (nonlinear_arith)
        requires 0 <= amount, 0 <= rate_atomics, f > 0;
    assert(amount * f / (rate_atomics + f) >= 0) by (nonlinear_arith)
        requires 0 <= amount, 0 <= rate_atomics, f > 0;
}

/// The tax is never negative, never more than the amount sent, and never more than the cap.
pub proof fn lemma_tax_bounds(amount: int, rate_atomics: int, cap: int)
    requires
        0 <= amount,
        0 <= rate_atomics,
        0 <= cap,
    ensures
        0 <= tax_of(amount, rate_atomics, cap) <= amount,
        tax_of(amount, rate_atomics, cap) <= cap,
{
    lemma_net_bounds(amount, rate_atomics);
}

/// The tax on sending `amount` at `tax_rate` with the denom's `tax_cap`.
/// `None` when `1 + tax_rate` does not fit in `u128`.
pub fn compute_tax(amount: u128, tax_rate: Decimal, tax_cap: u128) -> (r: Option<u128>)
    ensures
        r == (if tax_rate.atomics + DECIMAL_FRACTIONAL <= u128::MAX {
            Some(tax_of(amount as int, tax_rate.atomics as int, tax_cap as int) as u128)
        } else {
            None::<u128>
        }),
        r matches Some(t) ==> t <= amount && t <= tax_cap,
{
    let f = DECIMAL_FRACTIONAL;
    proof {
        assert(mul_floor(f as int, tax_rate.atomics as int) == tax_rate.atomics) by (nonlinear_arith)
            requires f == 1_000_000_000_000_000_000u128;
    }
    let scaled_rate = crate::decimal::mul_uint(f, tax_rate);
    if scaled_rate > u128::MAX - f {
        return None;
    }
    proof { lemma_net_bounds(amount as int, tax_rate.atomics as int); }
    let net = multiply_ratio(amount, f, scaled_rate + f);
    let tax = amount - net;
    Some(if tax < tax_cap { tax } else { tax_cap })
}

/// `amount` less the tax on sending it.
pub fn deduct_tax(amount: u128, tax_rate: Decimal, tax_cap: u128) -> (r: Option<u128>)
    ensures
        r == (if tax_rate.atomics + DECIMAL_FRACTIONAL <= u128::MAX {
            Some((amount - tax_of(amount as int, tax_rate.atomics as int, tax_cap as int)) as u128)
        } else {
            None::<u128>
        }),
        r matches Some(v) ==> v <= amount,
{
    proof { lemma_net_bounds(amount as int, tax_rate.atomics as int); }
    match compute_tax(amount, tax_rate, tax_cap) {
        Some(t) => Some(amount - t),
        None => None,
    }
}

/// The protocol fee on `amount` at `fee_rate`, rounded down; `None` when it exceeds `u128`.
pub fn compute_lido_fee(amount: u128, fee_rate: Decimal) -> (r: Option<u128>)
    ensures
        r == (if mul_floor(amount as int, fee_rate.atomics as int) <= u128::MAX {
            Some(mul_floor(amount as int, fee_rate.atomics as int) as u128)
        } else {
            None::<u128>
        }),
{
    checked_mul_uint(amount, fee_rate)
}

} // verus!
