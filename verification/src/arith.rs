//! Fixed-point settlement arithmetic.
//!
//! Percentages are basis points out of 10 000. USD amounts carry eight
//! decimals. Every multiply-then-divide step either returns the exact
//! quotient or fails with [`OtcError::Overflow`]; nothing wraps around and
//! nothing is cut down to fit.

use crate::errors::OtcError;
use vstd::arithmetic::div_mod::lemma_fundamental_div_mod;
use vstd::arithmetic::power::{lemma_pow_increases, lemma_pow_positive, pow};
use vstd::prelude::*;

verus! {

/// One hundred percent, in basis points.
pub const BPS_DENOMINATOR: u64 = 10_000;

/// The largest exponent whose power of ten fits in 128 bits.
pub const MAX_POW10_EXPONENT: u32 = 38;

/// One whole USD in eight-decimal fixed point.
pub const USD_SCALE_8D: u128 = 100_000_000;

/// One whole unit of the quote asset, which has six decimals.
pub const QUOTE_ASSET_SCALE: u128 = 1_000_000;

/// One whole unit of the native asset, which has nine decimals.
pub const NATIVE_ASSET_SCALE: u128 = 1_000_000_000;

/// The quotient of `p` by `d`, rounded up.
pub open spec fn ceil_div(p: nat, d: nat) -> nat
    recommends
        d > 0,
{
    ((p + d - 1) / (d as int)) as nat
}

/// `ceil_div(p, d)` parts of size `d` cover `p`, and it is the floor
/// quotient plus one exactly where the division leaves a remainder.
pub proof fn lemma_ceil_div_covers(p: nat, d: nat)
    requires
        d > 0,
    ensures
        ceil_div(p, d) * d >= p,
        p % d == 0 ==> ceil_div(p, d) == p / d,
        p % d != 0 ==> ceil_div(p, d) == p / d + 1,
{
    let c = ceil_div(p, d);
    let s = (p + d - 1) as int;
    lemma_fundamental_div_mod(p as int, d as int);
    let k = p as int / d as int;
    let m = p as int % d as int;
    if m == 0 {
        assert(s / (d as int) == k) by (nonlinear_arith)
            requires
                s == d * k + (d - 1),
                d > 0,
        ;
    } else {
        assert(d * (k + 1) == d * k + d) by (nonlinear_arith);
        assert(s / (d as int) == k + 1) by (nonlinear_arith)
            requires
                s == d * (k + 1) + (m - 1),
                0 < m < d,
        ;
    }
    assert(c * d >= p) by (nonlinear_arith)
        requires
            p == d * k + m,
            0 <= m < d,
            m == 0 ==> c == k,
            m != 0 ==> c == k + 1,
    ;
}

/// No fewer than `ceil_div(p, d)` parts of size `d` cover `p`.
pub proof fn lemma_ceil_div_is_least(p: nat, d: nat, q: nat)
    requires
        d > 0,
        q * d >= p,
    ensures
        q >= ceil_div(p, d),
{
    let c = ceil_div(p, d);
    lemma_ceil_div_covers(p, d);
    lemma_fundamental_div_mod(p as int, d as int);
    let k = p as int / d as int;
    let m = p as int % d as int;
    assert(q >= c) by (nonlinear_arith)
        requires
            q * d >= p,
            p == d * k + m,
            0 <= m < d,
            d > 0,
            m == 0 ==> c == k,
            m != 0 ==> c == k + 1,
    ;
}

/// Ten to the power 38 written out; it is below 2^128.
proof fn lemma_pow10_top()
    ensures
        pow(10, 38) == 100_000_000_000_000_000_000_000_000_000_000_000_000int,
{
    reveal_with_fuel(pow, 39);
}

/// Every power of ten up to the 38th is positive and fits in 128 bits.
pub proof fn lemma_pow10_fits(exp: nat)
    requires
        exp <= 38,
    ensures
        1 <= pow(10, exp) <= 100_000_000_000_000_000_000_000_000_000_000_000_000int,
        pow(10, exp) <= u128::MAX,
{
    lemma_pow10_top();
    lemma_pow_positive(10, exp);
    lemma_pow_increases(10, exp, 38);
}

/// Ten to the power `exp`.
pub fn pow10(exp: u32) -> (r: u128)
    requires
        exp <= MAX_POW10_EXPONENT,
    ensures
        r == pow(10, exp as nat),
{
    let mut r: u128 = 1;
    let mut i: u32 = 0;
    proof {
        reveal(pow);
    }
    while i < exp
        invariant
            i <= exp <= 38,
            r == pow(10, i as nat),
        decreases exp - i,
    {
        proof {
            reveal(pow);
            lemma_pow10_fits((i + 1) as nat);
            assert(pow(10, (i + 1) as nat) == 10 * pow(10, i as nat));
        }
        r = r * 10;
        i += 1;
    }
    r
}

/// `a * b / d`, rounded down; fails where the product does not fit in 128
/// bits or `d` is zero.
pub open spec fn spec_mul_div(a: u128, b: u128, d: u128) -> Result<u128, OtcError> {
    if a * b > u128::MAX || d == 0 {
        Err(OtcError::Overflow)
    } else {
        Ok(((a * b) / (d as int)) as u128)
    }
}

/// `a * b / d`, rounded up; fails where the product does not fit in 128
/// bits or `d` is zero.
pub open spec fn spec_mul_div_ceil(a: u128, b: u128, d: u128) -> Result<u128, OtcError> {
    if a * b > u128::MAX || d == 0 {
        Err(OtcError::Overflow)
    } else {
        Ok(ceil_div((a * b) as nat, d as nat) as u128)
    }
}

/// Scaled multiply-divide, rounding down.
pub fn mul_div_u128(a: u128, b: u128, d: u128) -> (r: Result<u128, OtcError>)
    ensures
        r == spec_mul_div(a, b, d),
{
    match a.checked_mul(b) {
        None => Err(OtcError::Overflow),
        Some(prod) => match prod.checked_div(d) {
            None => Err(OtcError::Overflow),
            Some(q) => Ok(q),
        },
    }
}

/// Scaled multiply-divide, rounding up: the payer never pays less than the
/// exact amount.
pub fn mul_div_ceil_u128(a: u128, b: u128, d: u128) -> (r: Result<u128, OtcError>)
    ensures
        r == spec_mul_div_ceil(a, b, d),
{
    if d == 0 {
        return Err(OtcError::Overflow);
    }
    match a.checked_mul(b) {
        None => Err(OtcError::Overflow),
        Some(prod) => {
            let q = prod / d;
            let rem = prod % d;
            proof {
                lemma_ceil_div_covers(prod as nat, d as nat);
                if rem != 0 {
                    lemma_fundamental_div_mod(prod as int, d as int);
                    assert(q < u128::MAX) by (nonlinear_arith)
                        requires
                            prod == d * q + rem,
                            0 < rem < d,
                            prod <= u128::MAX,
                            q >= 0,
                    ;
                }
            }
            Ok(
                if rem == 0 {
                    q
                } else {
                    q + 1
                },
            )
        },
    }
}

/// The USD value, in eight decimals, of `amount` base units of a token that
/// has `decimals` decimals and costs `price_8d` per whole token, rounded
/// down.
pub open spec fn spec_usd_value(amount: u64, price_8d: u64, decimals: u8) -> int {
    (amount * price_8d) / pow(10, decimals as nat)
}

/// [`spec_usd_value`], or `Overflow` where the token's scale does not fit in
/// 128 bits or the value does not fit in 64.
pub open spec fn spec_usd_value_8d(amount: u64, price_8d: u64, decimals: u8) -> Result<
    u64,
    OtcError,
> {
    if decimals > MAX_POW10_EXPONENT || spec_usd_value(amount, price_8d, decimals) > u64::MAX {
        Err(OtcError::Overflow)
    } else {
        Ok(spec_usd_value(amount, price_8d, decimals) as u64)
    }
}

/// The product of two 64-bit numbers fits in 128 bits.
proof fn lemma_u64_product_fits(a: u64, b: u64)
    ensures
        0 <= a * b <= u128::MAX,
{
    assert(0 <= a * b <= 0xffff_ffff_ffff_ffff * 0xffff_ffff_ffff_ffff) by (nonlinear_arith)
        requires
            0 <= a <= 0xffff_ffff_ffff_ffff,
            0 <= b <= 0xffff_ffff_ffff_ffff,
    ;
}

/// USD value of a token amount at a price, in eight decimals.
pub fn usd_value_8d(amount: u64, price_8d: u64, decimals: u8) -> (r: Result<u64, OtcError>)
    ensures
        r == spec_usd_value_8d(amount, price_8d, decimals),
{
    if decimals as u32 > MAX_POW10_EXPONENT {
        return Err(OtcError::Overflow);
    }
    let scale = pow10(decimals as u32);
    proof {
        lemma_u64_product_fits(amount, price_8d);
        lemma_pow10_fits(decimals as nat);
    }
    let value = mul_div_u128(amount as u128, price_8d as u128, scale)?;
    if value > u64::MAX as u128 {
        Err(OtcError::Overflow)
    } else {
        Ok(value as u64)
    }
}

/// What is left of `total` after a discount of `discount_bps` basis points,
/// rounded down.
pub open spec fn spec_discounted(total: int, discount_bps: int) -> int {
    total * (BPS_DENOMINATOR - discount_bps) / (BPS_DENOMINATOR as int)
}

/// [`spec_discounted`], or `Overflow` where the discount is above one
/// hundred percent or the intermediate product does not fit in 64 bits.
pub open spec fn spec_apply_discount(total: u64, discount_bps: u16) -> Result<u64, OtcError> {
    if discount_bps > BPS_DENOMINATOR || total * (BPS_DENOMINATOR - discount_bps) > u64::MAX {
        Err(OtcError::Overflow)
    } else {
        Ok(spec_discounted(total as int, discount_bps as int) as u64)
    }
}

/// Takes a discount in basis points off a USD total.
pub fn apply_discount(total: u64, discount_bps: u16) -> (r: Result<u64, OtcError>)
    ensures
        r == spec_apply_discount(total, discount_bps),
{
    if discount_bps as u64 > BPS_DENOMINATOR {
        return Err(OtcError::Overflow);
    }
    let keep: u64 = BPS_DENOMINATOR - discount_bps as u64;
    match total.checked_mul(keep) {
        None => Err(OtcError::Overflow),
        Some(scaled) => Ok(scaled / BPS_DENOMINATOR),
    }
}

/// The discounted USD value of a token amount: [`spec_usd_value_8d`], then
/// [`spec_apply_discount`].
pub open spec fn spec_discounted_usd_8d(
    amount: u64,
    price_8d: u64,
    decimals: u8,
    discount_bps: u16,
) -> Result<u64, OtcError> {
    match spec_usd_value_8d(amount, price_8d, decimals) {
        Err(e) => Err(e),
        Ok(total) => spec_apply_discount(total, discount_bps),
    }
}

/// The discounted USD value, in eight decimals, of a token amount at a
/// price.
pub fn discounted_usd_8d(amount: u64, price_8d: u64, decimals: u8, discount_bps: u16) -> (r:
    Result<u64, OtcError>)
    ensures
        r == spec_discounted_usd_8d(amount, price_8d, decimals, discount_bps),
{
    let total = usd_value_8d(amount, price_8d, decimals)?;
    apply_discount(total, discount_bps)
}

/// The quote-asset charge, in six-decimal units, for a USD amount in eight
/// decimals, rounded up.
pub open spec fn spec_quote_asset_amount(usd_8d: u64) -> nat {
    ceil_div((usd_8d * QUOTE_ASSET_SCALE) as nat, USD_SCALE_8D as nat)
}

/// Converts a USD amount to quote-asset units. It always fits.
pub fn quote_asset_amount(usd_8d: u64) -> (r: Result<u64, OtcError>)
    ensures
        r == Ok::<u64, OtcError>(spec_quote_asset_amount(usd_8d) as u64),
        spec_quote_asset_amount(usd_8d) <= usd_8d,
{
    let units = mul_div_ceil_u128(usd_8d as u128, QUOTE_ASSET_SCALE, USD_SCALE_8D)?;
    Ok(units as u64)
}

/// The native-asset charge, in nine-decimal units, for a USD amount at a
/// native-asset price, both in eight decimals, rounded up.
pub open spec fn spec_native_asset_amount(usd_8d: u64, native_usd_8d: u64) -> nat
    recommends
        native_usd_8d > 0,
{
    ceil_div((usd_8d * NATIVE_ASSET_SCALE) as nat, native_usd_8d as nat)
}

/// [`spec_native_asset_amount`], or `Overflow` where the price is zero or
/// the charge does not fit in 64 bits.
pub open spec fn spec_native_asset_charge(usd_8d: u64, native_usd_8d: u64) -> Result<
    u64,
    OtcError,
> {
    if native_usd_8d == 0 || spec_native_asset_amount(usd_8d, native_usd_8d) > u64::MAX {
        Err(OtcError::Overflow)
    } else {
        Ok(spec_native_asset_amount(usd_8d, native_usd_8d) as u64)
    }
}

/// Converts a USD amount to native-asset units at a native-asset price.
pub fn native_asset_amount(usd_8d: u64, native_usd_8d: u64) -> (r: Result<u64, OtcError>)
    ensures
        r == spec_native_asset_charge(usd_8d, native_usd_8d),
{
    let units = mul_div_ceil_u128(usd_8d as u128, NATIVE_ASSET_SCALE, native_usd_8d as u128)?;
    if units > u64::MAX as u128 {
        Err(OtcError::Overflow)
    } else {
        Ok(units as u64)
    }
}

} // verus!
