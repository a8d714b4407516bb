use otc::arith::{BPS_DENOMINATOR, MAX_POW10_EXPONENT};
use otc::{
    apply_discount, discounted_usd_8d, mul_div_ceil_u128, mul_div_u128, native_asset_amount,
    pow10, quote_asset_amount, usd_value_8d, OtcError,
};

#[test]
fn pow10_small_and_largest() {
    assert_eq!(pow10(0), 1);
    assert_eq!(pow10(1), 10);
    assert_eq!(pow10(9), 1_000_000_000);
    assert_eq!(pow10(MAX_POW10_EXPONENT), 100_000_000_000_000_000_000_000_000_000_000_000_000);
}

#[test]
fn mul_div_rounds_down() {
    assert_eq!(mul_div_u128(7, 3, 2), Ok(10));
    assert_eq!(mul_div_u128(0, 3, 2), Ok(0));
    assert_eq!(mul_div_u128(6, 3, 2), Ok(9));
}

#[test]
fn mul_div_fails_on_zero_divisor_and_on_overflow() {
    assert_eq!(mul_div_u128(7, 3, 0), Err(OtcError::Overflow));
    assert_eq!(mul_div_u128(u128::MAX, 2, 2), Err(OtcError::Overflow));
    assert_eq!(mul_div_u128(u128::MAX, 1, 1), Ok(u128::MAX));
}

#[test]
fn mul_div_ceil_rounds_up() {
    assert_eq!(mul_div_ceil_u128(7, 3, 2), Ok(11));
    assert_eq!(mul_div_ceil_u128(8, 3, 2), Ok(12));
    assert_eq!(mul_div_ceil_u128(0, 3, 2), Ok(0));
    assert_eq!(mul_div_ceil_u128(1, 1, 1_000_000), Ok(1));
    assert_eq!(mul_div_ceil_u128(u128::MAX, 1, 1), Ok(u128::MAX));
    assert_eq!(mul_div_ceil_u128(u128::MAX, 1, 2), Ok(u128::MAX / 2 + 1));
}

#[test]
fn mul_div_ceil_fails_on_zero_divisor_and_on_overflow() {
    assert_eq!(mul_div_ceil_u128(7, 3, 0), Err(OtcError::Overflow));
    assert_eq!(mul_div_ceil_u128(u128::MAX, 2, 2), Err(OtcError::Overflow));
}

#[test]
fn mul_div_ceil_is_the_least_cover() {
    let cases: [(u128, u128, u128); 5] = [(7, 3, 2), (10, 10, 7), (1, 1, 3), (99, 1, 100), (100, 1, 100)];
    for (a, b, d) in cases {
        let q = mul_div_ceil_u128(a, b, d).unwrap();
        assert!(q * d >= a * b);
        assert!(q == 0 || (q - 1) * d < a * b);
    }
}

#[test]
fn usd_value_scales_by_token_decimals() {
    // 2.5 tokens of nine decimals at 4 USD
    assert_eq!(usd_value_8d(2_500_000_000, 400_000_000, 9), Ok(1_000_000_000));
    // whole tokens
    assert_eq!(usd_value_8d(1000, 100_000_000, 0), Ok(100_000_000_000));
    // rounds down
    assert_eq!(usd_value_8d(1, 199, 2), Ok(1));
    assert_eq!(usd_value_8d(0, 100_000_000, 9), Ok(0));
}

#[test]
fn usd_value_overflow() {
    assert_eq!(usd_value_8d(u64::MAX, u64::MAX, 0), Err(OtcError::Overflow));
    assert_eq!(usd_value_8d(u64::MAX, 2, 0), Err(OtcError::Overflow));
    assert_eq!(usd_value_8d(u64::MAX, 1, 0), Ok(u64::MAX));
    assert_eq!(usd_value_8d(1, 1, 39), Err(OtcError::Overflow));
    assert_eq!(usd_value_8d(1, 1, 38), Ok(0));
    assert_eq!(usd_value_8d(1, 1, 255), Err(OtcError::Overflow));
}

#[test]
fn discount_in_basis_points() {
    assert_eq!(apply_discount(100_000_000_000, 500), Ok(95_000_000_000));
    assert_eq!(apply_discount(100_000_000_000, 0), Ok(100_000_000_000));
    assert_eq!(apply_discount(100_000_000_000, 10_000), Ok(0));
    assert_eq!(apply_discount(3, 3333), Ok(2));
    assert_eq!(BPS_DENOMINATOR, 10_000);
}

#[test]
fn discount_above_all_or_too_large_a_total_overflows() {
    assert_eq!(apply_discount(100, 10_001), Err(OtcError::Overflow));
    assert_eq!(apply_discount(u64::MAX, 0), Err(OtcError::Overflow));
    assert_eq!(apply_discount(u64::MAX / 10_000, 0), Ok(u64::MAX / 10_000));
    assert_eq!(apply_discount(u64::MAX, 10_000), Ok(0));
}

#[test]
fn discounted_value_composes_both_steps() {
    assert_eq!(discounted_usd_8d(1000, 100_000_000, 0, 500), Ok(95_000_000_000));
    assert_eq!(discounted_usd_8d(1000, 100_000_000, 40, 500), Err(OtcError::Overflow));
    assert_eq!(discounted_usd_8d(1000, 100_000_000, 0, 10_001), Err(OtcError::Overflow));
}

#[test]
fn quote_asset_amount_drops_two_decimals_rounding_up() {
    assert_eq!(quote_asset_amount(95_000_000_000), Ok(950_000_000));
    assert_eq!(quote_asset_amount(100), Ok(1));
    assert_eq!(quote_asset_amount(101), Ok(2));
    assert_eq!(quote_asset_amount(1), Ok(1));
    assert_eq!(quote_asset_amount(0), Ok(0));
    assert_eq!(quote_asset_amount(u64::MAX), Ok(u64::MAX / 100 + 1));
}

#[test]
fn native_asset_amount_at_a_price() {
    // 950 USD at 100 USD per native unit is 9.5 units of nine decimals
    assert_eq!(native_asset_amount(95_000_000_000, 10_000_000_000), Ok(9_500_000_000));
    // rounds up
    assert_eq!(native_asset_amount(1, 3), Ok(333_333_334));
    assert_eq!(native_asset_amount(0, 3), Ok(0));
}

#[test]
fn native_asset_amount_overflow() {
    assert_eq!(native_asset_amount(1, 0), Err(OtcError::Overflow));
    assert_eq!(native_asset_amount(u64::MAX, 1), Err(OtcError::Overflow));
    assert_eq!(native_asset_amount(u64::MAX, 1_000_000_000), Ok(u64::MAX));
}
