use anchor_basset::decimal::{checked_from_ratio, checked_mul_uint, checked_multiply_ratio, mul_uint, Decimal};
use anchor_basset::hub::math::{checked_decimal_division, decimal_division};
use anchor_basset::reward::math::{decimal_multiplication, decimal_subtraction, decimal_summation};
use anchor_basset::tax::{compute_lido_fee, compute_tax, deduct_tax};

#[test]
fn test_decimal_division() {
    let a = 100u128;
    let b = Decimal::from_ratio(10, 50);
    let res = decimal_division(a, b);
    assert_eq!(res, 500u128);
}

#[test]
fn test_decimal_multiplication() {
    let a = 100u128;
    let b = Decimal::from_ratio(1111111, 10000000);
    let multiplication = decimal_multiplication(Decimal::from_ratio(a, 1), b);
    assert_eq!(multiplication.to_string(), "11.11111");
}

#[test]
fn test_decimal_sumation() {
    let a = Decimal::from_ratio(20, 50);
    let b = Decimal::from_ratio(10, 50);
    let res = decimal_summation(a, b);
    assert_eq!(res.to_string(), "0.6");
}

#[test]
fn test_decimal_subtraction() {
    let a = Decimal::from_ratio(20, 50);
    let b = Decimal::from_ratio(10, 50);
    let res = decimal_subtraction(a, b);
    assert_eq!(res.to_string(), "0.2");
}

#[test]
fn decimal_text_of_whole_and_fraction() {
    assert_eq!(Decimal::one().to_string(), "1");
    assert_eq!(Decimal::zero().to_string(), "0");
    assert_eq!(Decimal::percent(150).to_string(), "1.5");
    assert_eq!(Decimal::raw(1).to_string(), "0.000000000000000001");
}

#[test]
fn decimal_constructors() {
    assert_eq!(Decimal::percent(5).atomics, 50_000_000_000_000_000);
    assert_eq!(Decimal::permille(5).atomics, 5_000_000_000_000_000);
    assert_eq!(Decimal::from_ratio(1, 3).atomics, 333_333_333_333_333_333);
    assert!(Decimal::zero().is_zero());
    assert!(Decimal::percent(1).lt(&Decimal::percent(2)));
    assert_eq!(Decimal::percent(20).add(Decimal::percent(30)), Decimal::percent(50));
    assert_eq!(Decimal::percent(50).sub(Decimal::percent(20)), Decimal::percent(30));
}

#[test]
fn uint_times_decimal_rounds_down() {
    assert_eq!(mul_uint(10, Decimal::from_ratio(1, 3)), 3);
    assert_eq!(mul_uint(1000, Decimal::percent(5)), 50);
    assert_eq!(checked_mul_uint(u128::MAX, Decimal::percent(200)), None);
    assert_eq!(checked_mul_uint(7, Decimal::one()), Some(7));
}

#[test]
fn multiply_ratio_in_wide_arithmetic() {
    assert_eq!(checked_multiply_ratio(u128::MAX, 2, 4), Some(u128::MAX / 2));
    assert_eq!(checked_multiply_ratio(u128::MAX, 3, 2), None);
    assert_eq!(checked_from_ratio(1, 0), None);
    assert_eq!(checked_from_ratio(1, 4), Some(Decimal::percent(25)));
}

#[test]
fn division_by_rate_checks_zero_and_overflow() {
    assert_eq!(checked_decimal_division(100, Decimal::zero()), None);
    assert_eq!(checked_decimal_division(u128::MAX, Decimal::percent(50)), None);
    assert_eq!(checked_decimal_division(3, Decimal::from_ratio(3, 2)), Some(2));
}

#[test]
fn tax_is_deducted_and_capped() {
    // 1% tax: 200 - floor(200 / 1.01) = 200 - 198 = 2
    assert_eq!(compute_tax(200, Decimal::percent(1), 1_000_000), Some(2));
    assert_eq!(deduct_tax(200, Decimal::percent(1), 1_000_000), Some(198));
    // capped at 1
    assert_eq!(compute_tax(200, Decimal::percent(1), 1), Some(1));
    assert_eq!(deduct_tax(200, Decimal::percent(1), 1), Some(199));
    assert_eq!(compute_tax(200, Decimal::raw(u128::MAX), 1), None);
}

#[test]
fn lido_fee_is_rate_times_amount() {
    assert_eq!(compute_lido_fee(200, Decimal::percent(5)), Some(10));
    assert_eq!(compute_lido_fee(u128::MAX, Decimal::percent(200)), None);
}
