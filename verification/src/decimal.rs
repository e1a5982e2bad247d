//! Fixed-point decimals with 18 fractional digits and the `Uint128`
//! arithmetic of `cosmwasm_std` that the contracts rely on.

use cosmwasm_std::Fraction;
use vstd::prelude::*;

verus! {

/// Number of atomics in one unit (10^18).
pub const DECIMAL_FRACTIONAL: u128 = 1_000_000_000_000_000_000u128;

/// A decimal number `atomics / 10^18`, the plain-value form of `cosmwasm_std::Decimal`.
#[derive(Clone, Copy, Debug, PartialEq, Eq, Structural)]
pub struct Decimal {
    pub atomics: u128,
}

/// `floor(num * 10^18 / den)`: the atomics of `num / den`.
pub open spec fn ratio_atomics(num: int, den: int) -> int {
    num * (DECIMAL_FRACTIONAL as int) / den
}

/// `floor(u * d)` for `d = atomics / 10^18`.
pub open spec fn mul_floor(u: int, atomics: int) -> int {
    u * atomics / (DECIMAL_FRACTIONAL as int)
}

/// `floor(a * num / den)`.
pub open spec fn ratio_floor(a: int, num: int, den: int) -> int {
    a * num / den
}

/// Calls `cosmwasm_std::Decimal::from_ratio(num, den)`, which computes
/// `num * 10^18 / den` rounded down in 256 bits and panics when `den` is zero
/// or the quotient exceeds `u128`; the result is given back by its atomics.
#[verifier::external_body]
fn cw_decimal_from_ratio(num: u128, den: u128) -> (r: u128)
    requires
        den > 0,
        ratio_atomics(num as int, den as int) <= u128::MAX,
    ensures
        r == ratio_atomics(num as int, den as int),
{
    cosmwasm_std::Decimal::from_ratio(num, den).numerator()
}

/// Calls `Uint128 * cosmwasm_std::Decimal`, which is zero when either side is
/// zero and otherwise `u.multiply_ratio(atomics, 10^18)`: the product rounded
/// down, panicking when it exceeds `u128`.
#[verifier::external_body]
fn cw_uint_mul_decimal(u: u128, atomics: u128) -> (r: u128)
    requires
        mul_floor(u as int, atomics as int) <= u128::MAX,
    ensures
        r == mul_floor(u as int, atomics as int),
{
    let d = cosmwasm_std::Decimal::from_ratio(atomics, cosmwasm_std::Decimal::one().numerator());
    (cosmwasm_std::Uint128::new(u) * d).u128()
}

/// Calls `cosmwasm_std::Uint128::multiply_ratio(a, num, den)`: `a * num / den`
/// rounded down in 256 bits, panicking when `den` is zero or the result exceeds `u128`.
#[verifier::external_body]
fn cw_multiply_ratio(a: u128, num: u128, den: u128) -> (r: u128)
    requires
        den > 0,
        ratio_floor(a as int, num as int, den as int) <= u128::MAX,
    ensures
        r == ratio_floor(a as int, num as int, den as int),
{
    cosmwasm_std::Uint128::new(a).multiply_ratio(num, den).u128()
}

/// Computes `a * num / den` rounded down with `cosmwasm_std`'s 256-bit
/// arithmetic (`Uint128::full_mul`, then division of the `Uint256`) and narrows
/// it back to `Uint128`; `None` when the quotient does not fit in `u128`.
#[verifier::external_body]
fn cw_checked_multiply_ratio(a: u128, num: u128, den: u128) -> (r: Option<u128>)
    requires
        den > 0,
    ensures
        r == (if ratio_floor(a as int, num as int, den as int) <= u128::MAX {
            Some(ratio_floor(a as int, num as int, den as int) as u128)
        } else {
            None::<u128>
        }),
{
    let wide = cosmwasm_std::Uint128::new(a).full_mul(num) / cosmwasm_std::Uint256::from(den);
    match std::convert::TryInto::<cosmwasm_std::Uint128>::try_into(wide) {
        Ok(v) => Some(v.u128()),
        Err(_) => None,
    }
}

/// The decimal digit `d` (between zero and nine) as a character.
pub open spec fn digit_char(d: int) -> char {
    (48 + d) as char
}

/// The decimal digits of `n`, without leading zeros (`0` for zero).
pub open spec fn decimal_digits(n: nat) -> Seq<char>
    decreases n,
{
    if n < 10 {
        seq![digit_char(n as int)]
    } else {
        decimal_digits(n / 10).push(digit_char((n % 10) as int))
    }
}

/// The last `width` decimal digits of `n`, padded with leading zeros.
pub open spec fn padded_digits(n: nat, width: nat) -> Seq<char>
    decreases width,
{
    if width == 0 {
        Seq::empty()
    } else {
        padded_digits(n / 10, (width - 1) as nat).push(digit_char((n % 10) as int))
    }
}

/// The text without its trailing `0` characters.
pub open spec fn trim_trailing_zeros(s: Seq<char>) -> Seq<char>
    decreases s.len(),
{
    if s.len() > 0 && s.last() == '0' {
        trim_trailing_zeros(s.drop_last())
    } else {
        s
    }
}

/// How a decimal with these atomics is written: the whole part, and when the
/// fractional part is not zero, a point and its eighteen digits without the
/// trailing zeros.
pub open spec fn decimal_text(atomics: u128) -> Seq<char> {
    let whole = atomics / DECIMAL_FRACTIONAL;
    let fractional = atomics % DECIMAL_FRACTIONAL;
    if fractional == 0 {
        decimal_digits(whole as nat)
    } else {
        decimal_digits(whole as nat) + seq!['.'] + trim_trailing_zeros(padded_digits(fractional as nat, 18))
    }
}

/// Calls `to_string` (the `Display` impl) of the `cosmwasm_std::Decimal` with
/// these atomics, which writes the whole part with `{}` and, when the fractional
/// part is not zero, a point and the fractional part padded with zeros to
/// eighteen places, its trailing zeros trimmed (`decimal_text`).
#[verifier::external_body]
fn cw_decimal_text(atomics: u128) -> (r: String)
    ensures
        r@ == decimal_text(atomics),
{
    cosmwasm_std::Decimal::from_ratio(atomics, cosmwasm_std::Decimal::one().numerator()).to_string()
}

/// `a * num / den` rounded down, or `None` when it does not fit in `u128`.
pub fn checked_multiply_ratio(a: u128, num: u128, den: u128) -> (r: Option<u128>)
    requires
        den > 0,
    ensures
        r == (if ratio_floor(a as int, num as int, den as int) <= u128::MAX {
            Some(ratio_floor(a as int, num as int, den as int) as u128)
        } else {
            None::<u128>
        }),
{
    cw_checked_multiply_ratio(a, num, den)
}

/// `u * d` rounded down, or `None` when it does not fit in `u128`.
pub fn checked_mul_uint(u: u128, d: Decimal) -> (r: Option<u128>)
    ensures
        r == (if mul_floor(u as int, d.atomics as int) <= u128::MAX {
            Some(mul_floor(u as int, d.atomics as int) as u128)
        } else {
            None::<u128>
        }),
{
    cw_checked_multiply_ratio(u, d.atomics, DECIMAL_FRACTIONAL)
}

/// `num / den` as a decimal, or `None` when `den` is zero or the quotient does not fit.
pub fn checked_from_ratio(num: u128, den: u128) -> (r: Option<Decimal>)
    ensures
        r == (if den > 0 && ratio_atomics(num as int, den as int) <= u128::MAX {
            Some(Decimal { atomics: ratio_atomics(num as int, den as int) as u128 })
        } else {
            None::<Decimal>
        }),
{
    if den == 0 {
        None
    } else {
        match cw_checked_multiply_ratio(num, DECIMAL_FRACTIONAL, den) {
            Some(a) => Some(Decimal { atomics: a }),
            None => None,
        }
    }
}

/// `part / total` is at most one when `part <= total`.
pub proof fn lemma_ratio_at_most_one(part: int, total: int)
    requires
        0 <= part <= total,
        total > 0,
    ensures
        0 <= ratio_atomics(part, total) <= DECIMAL_FRACTIONAL as int,
{
    assert(part * (DECIMAL_FRACTIONAL as int) <= total * (DECIMAL_FRACTIONAL as int)) by (nonlinear_arith)
        requires part <= total, 0 <= part;
    assert((total * (DECIMAL_FRACTIONAL as int)) / total == DECIMAL_FRACTIONAL as int) by (nonlinear_arith)
        requires total > 0;
    assert(part * (DECIMAL_FRACTIONAL as int) / total <= (total * (DECIMAL_FRACTIONAL as int)) / total) by (nonlinear_arith)
        requires part * (DECIMAL_FRACTIONAL as int) <= total * (DECIMAL_FRACTIONAL as int), total > 0;
    assert(0 <= part * (DECIMAL_FRACTIONAL as int) / total) by (nonlinear_arith)
        requires 0 <= part, total > 0;
}

/// `u * r <= u` when `r` is at most one.
pub proof fn lemma_mul_floor_at_most(u: int, atomics: int)
    requires
        0 <= u,
        0 <= atomics <= DECIMAL_FRACTIONAL as int,
    ensures
        0 <= mul_floor(u, atomics) <= u,
{
    assert(u * atomics <= u * (DECIMAL_FRACTIONAL as int)) by (nonlinear_arith)
        requires 0 <= u, atomics <= DECIMAL_FRACTIONAL as int;
    assert((u * (DECIMAL_FRACTIONAL as int)) / (DECIMAL_FRACTIONAL as int) == u) by (nonlinear_arith);
    assert(u * atomics / (DECIMAL_FRACTIONAL as int) <= (u * (DECIMAL_FRACTIONAL as int)) / (DECIMAL_FRACTIONAL as int)) by (nonlinear_arith)
        requires u * atomics <= u * (DECIMAL_FRACTIONAL as int);
    assert(0 <= u * atomics / (DECIMAL_FRACTIONAL as int)) by (nonlinear_arith)
        requires 0 <= u, 0 <= atomics;
}

impl Decimal {
    pub open spec fn value_atomics(self) -> int {
        self.atomics as int
    }

    /// 1.0
    pub fn one() -> (r: Decimal)
        ensures
            r.atomics == DECIMAL_FRACTIONAL,
    {
        Decimal { atomics: DECIMAL_FRACTIONAL }
    }

    /// 0.0
    pub fn zero() -> (r: Decimal)
        ensures
            r.atomics == 0,
    {
        Decimal { atomics: 0 }
    }

    /// The decimal with the given atomics.
    pub fn raw(atomics: u128) -> (r: Decimal)
        ensures
            r.atomics == atomics,
    {
        Decimal { atomics }
    }

    /// `x / 100`
    pub fn percent(x: u64) -> (r: Decimal)
        ensures
            r.atomics == x * 10_000_000_000_000_000,
    {
        Decimal { atomics: (x as u128) * 10_000_000_000_000_000u128 }
    }

    /// `x / 1000`
    pub fn permille(x: u64) -> (r: Decimal)
        ensures
            r.atomics == x * 1_000_000_000_000_000,
    {
        Decimal { atomics: (x as u128) * 1_000_000_000_000_000u128 }
    }

    pub fn is_zero(&self) -> (r: bool)
        ensures
            r == (self.atomics == 0),
    {
        self.atomics == 0
    }

    /// `num / den` rounded down to 18 decimal places.
    pub fn from_ratio(num: u128, den: u128) -> (r: Decimal)
        requires
            den > 0,
            ratio_atomics(num as int, den as int) <= u128::MAX,
        ensures
            r.atomics == ratio_atomics(num as int, den as int),
    {
        Decimal { atomics: cw_decimal_from_ratio(num, den) }
    }

    /// The decimal written out: the whole part, then a point and the
    /// fractional digits without trailing zeros when there are any.
    pub fn to_string(&self) -> (r: String)
        ensures
            r@ == decimal_text(self.atomics),
    {
        cw_decimal_text(self.atomics)
    }

    /// `self < other`
    pub fn lt(&self, other: &Decimal) -> (r: bool)
        ensures
            r == (self.atomics < other.atomics),
    {
        self.atomics < other.atomics
    }

    /// `self + other`
    pub fn add(self, other: Decimal) -> (r: Decimal)
        requires
            self.atomics + other.atomics <= u128::MAX,
        ensures
            r.atomics == self.atomics + other.atomics,
    {
        Decimal { atomics: self.atomics + other.atomics }
    }

    /// `self - other`
    pub fn sub(self, other: Decimal) -> (r: Decimal)
        requires
            self.atomics >= other.atomics,
        ensures
            r.atomics == self.atomics - other.atomics,
    {
        Decimal { atomics: self.atomics - other.atomics }
    }
}

/// `u * d` rounded down (the `Uint128 * Decimal` product).
pub fn mul_uint(u: u128, d: Decimal) -> (r: u128)
    requires
        mul_floor(u as int, d.atomics as int) <= u128::MAX,
    ensures
        r == mul_floor(u as int, d.atomics as int),
{
    cw_uint_mul_decimal(u, d.atomics)
}

/// `a * num / den` rounded down.
pub fn multiply_ratio(a: u128, num: u128, den: u128) -> (r: u128)
    requires
        den > 0,
        ratio_floor(a as int, num as int, den as int) <= u128::MAX,
    ensures
        r == ratio_floor(a as int, num as int, den as int),
{
    cw_multiply_ratio(a, num, den)
}

} // verus!
