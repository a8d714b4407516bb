//! Prices: oracle quotes rescaled to eight-decimal USD, the bounds on a
//! manual price, the deviation guard, and the two ways the desk's cached
//! prices are replaced.

use crate::arith::{lemma_pow10_fits, pow10};
use crate::desk::{only_owner, Desk};
use crate::errors::OtcError;
use crate::events::PricesUpdated;
use crate::identity::{bytes32_eq, zero_bytes32, Identity};
use anchor_lang::prelude::{Clock, Pubkey};
use pyth_solana_receiver_sdk::error::GetPriceError;
use pyth_solana_receiver_sdk::price_update::{PriceFeedMessage, PriceUpdateV2, VerificationLevel};
use vstd::arithmetic::power::pow;
use vstd::prelude::*;

verus! {

/// The decimals of every USD price the desk keeps.
pub const PRICE_DECIMALS: i64 = 8;

/// The most decimal places a rescale moves a quote, either way.
pub const MAX_EXPONENT_SHIFT: i64 = 38;

/// The highest manual token price: 10 000 USD.
pub const MAX_TOKEN_USD_8D: u64 = 1_000_000_000_000;

/// The lowest manual native-asset price: 0.01 USD.
pub const MIN_SOL_USD_8D: u64 = 1_000_000;

/// The highest manual native-asset price: 100 000 USD.
pub const MAX_SOL_USD_8D: u64 = 10_000_000_000_000;

/// How many decimal places a quote with the given exponent moves up to
/// reach eight decimals; down where the number is negative.
pub open spec fn spec_exponent_shift(exponent: i32) -> int {
    PRICE_DECIMALS + exponent
}

/// The quote `price * 10^exponent` in eight-decimal fixed point, rounded
/// down: `price * 10^(8 + exponent)`. A quote coarser than eight decimals is
/// multiplied, a finer one divided.
pub open spec fn spec_rescaled_price(price: i64, exponent: i32) -> int {
    let shift = spec_exponent_shift(exponent);
    if shift >= 0 {
        price * pow(10, shift as nat)
    } else {
        (price as int) / pow(10, (-shift) as nat)
    }
}

/// [`spec_rescaled_price`] for a positive quote that moves at most
/// [`MAX_EXPONENT_SHIFT`] places and whose rescaled value fits in 64 bits;
/// `BadPrice` for the first two failures, `Overflow` for the last.
pub open spec fn spec_convert_pyth_price(price: i64, exponent: i32) -> Result<u64, OtcError> {
    let shift = spec_exponent_shift(exponent);
    if price <= 0 || shift > MAX_EXPONENT_SHIFT || shift < -MAX_EXPONENT_SHIFT {
        Err(OtcError::BadPrice)
    } else if spec_rescaled_price(price, exponent) > u64::MAX {
        Err(OtcError::Overflow)
    } else {
        Ok(spec_rescaled_price(price, exponent) as u64)
    }
}

/// A quote that already has eight decimals is its own price.
pub proof fn lemma_eight_decimal_quote_is_kept(price: i64)
    requires
        price > 0,
    ensures
        spec_convert_pyth_price(price, -8i32) == Ok::<u64, OtcError>(price as u64),
{
    assert(pow(10, 0) == 1) by {
        reveal(pow);
    }
}

/// Rescales an oracle quote, worth `price * 10^exponent` USD as the
/// oracle's reader gives it, to an eight-decimal USD price.
pub fn convert_pyth_price(price: i64, exponent: i32) -> (r: Result<u64, OtcError>)
    ensures
        r == spec_convert_pyth_price(price, exponent),
{
    if price <= 0 {
        return Err(OtcError::BadPrice);
    }
    let shift: i64 = PRICE_DECIMALS + exponent as i64;
    if shift > MAX_EXPONENT_SHIFT || shift < -MAX_EXPONENT_SHIFT {
        return Err(OtcError::BadPrice);
    }
    let quote = price as u128;
    let rescaled: u128 = if shift >= 0 {
        let scale = pow10(shift as u32);
        match quote.checked_mul(scale) {
            None => {
                return Err(OtcError::Overflow);
            },
            Some(v) => v,
        }
    } else {
        let scale = pow10((-shift) as u32);
        proof {
            lemma_pow10_fits((-shift) as nat);
        }
        quote / scale
    };
    if rescaled > u64::MAX as u128 {
        Err(OtcError::Overflow)
    } else {
        Ok(rescaled as u64)
    }
}

/// Whether `new_price` is further from `old_price` than `max_deviation_bps`
/// basis points of `old_price`. With no old price, or no cap, nothing is too
/// far.
pub open spec fn spec_deviation_too_large(
    old_price: u64,
    new_price: u64,
    max_deviation_bps: u16,
) -> bool {
    let distance = if new_price > old_price {
        new_price - old_price
    } else {
        old_price - new_price
    };
    old_price > 0 && max_deviation_bps > 0 && distance * 10_000 > old_price * max_deviation_bps
}

/// The guard as a result: `PriceDeviationTooLarge` where the new price is
/// too far from the old one.
pub open spec fn spec_apply_deviation_guard(
    old_price: u64,
    new_price: u64,
    max_deviation_bps: u16,
) -> Result<(), OtcError> {
    if spec_deviation_too_large(old_price, new_price, max_deviation_bps) {
        Err(OtcError::PriceDeviationTooLarge)
    } else {
        Ok(())
    }
}

/// With an old price and a cap, the guard passes exactly the prices in the
/// band of `max_deviation_bps` basis points around the old price, ends
/// included.
pub proof fn lemma_deviation_band(old_price: u64, new_price: u64, max_deviation_bps: u16)
    requires
        old_price > 0,
        max_deviation_bps > 0,
    ensures
        !spec_deviation_too_large(old_price, new_price, max_deviation_bps) <==> old_price * (10_000
            - max_deviation_bps) <= new_price * 10_000 <= old_price * (10_000 + max_deviation_bps),
{
    assert(old_price * (10_000 - max_deviation_bps) == old_price * 10_000 - old_price
        * max_deviation_bps) by (nonlinear_arith);
    assert(old_price * (10_000 + max_deviation_bps) == old_price * 10_000 + old_price
        * max_deviation_bps) by (nonlinear_arith);
}

/// Rejects a new price that is too far from the old one.
pub fn apply_deviation_guard(old_price: u64, new_price: u64, max_deviation_bps: u16) -> (r: Result<
    (),
    OtcError,
>)
    ensures
        r == spec_apply_deviation_guard(old_price, new_price, max_deviation_bps),
{
    if old_price > 0 && max_deviation_bps > 0 {
        let distance = if new_price > old_price {
            new_price - old_price
        } else {
            old_price - new_price
        };
        assert(old_price * max_deviation_bps <= 0xffff_ffff_ffff_ffff * 0xffff) by (nonlinear_arith)
            requires
                0 <= old_price <= 0xffff_ffff_ffff_ffff,
                0 <= max_deviation_bps <= 0xffff,
        ;
        let max_distance = (old_price as u128 * max_deviation_bps as u128) / 10_000u128;
        if distance as u128 > max_distance {
            return Err(OtcError::PriceDeviationTooLarge);
        }
    }
    Ok(())
}

/// Whether `caller` may set the given prices by hand: the owner, with a
/// non-negative maximum age, a token price above zero and at most
/// [`MAX_TOKEN_USD_8D`], and a native-asset price between
/// [`MIN_SOL_USD_8D`] and [`MAX_SOL_USD_8D`].
pub open spec fn spec_set_prices_check(
    desk: &Desk,
    caller: Identity,
    token_usd_8d: u64,
    sol_usd_8d: u64,
    max_age: i64,
) -> Result<(), OtcError> {
    if !desk.is_owner(caller) {
        Err(OtcError::NotOwner)
    } else if max_age < 0 {
        Err(OtcError::AmountRange)
    } else if token_usd_8d == 0 || token_usd_8d > MAX_TOKEN_USD_8D {
        Err(OtcError::BadPrice)
    } else if sol_usd_8d < MIN_SOL_USD_8D || sol_usd_8d > MAX_SOL_USD_8D {
        Err(OtcError::BadPrice)
    } else {
        Ok(())
    }
}

/// Sets both cached prices and the maximum price age by hand, stamped with
/// the current time `now`. Owner only. The time the caller claims for the
/// prices, `_updated_at`, is not used.
pub fn set_prices(
    desk: &mut Desk,
    caller: &Identity,
    token_usd_8d: u64,
    sol_usd_8d: u64,
    _updated_at: i64,
    max_age: i64,
    now: i64,
) -> (r: Result<PricesUpdated, OtcError>)
    ensures
        match r {
            Ok(event) => {
                &&& spec_set_prices_check(old(desk), *caller, token_usd_8d, sol_usd_8d, max_age)
                    is Ok
                &&& *final(desk) == (Desk {
                    token_usd_price_8d: token_usd_8d,
                    sol_usd_price_8d: sol_usd_8d,
                    prices_updated_at: now,
                    max_price_age_secs: max_age,
                    ..*old(desk)
                })
                &&& event == (PricesUpdated { token_usd_8d, sol_usd_8d, updated_at: now, max_age })
            },
            Err(e) => {
                &&& spec_set_prices_check(old(desk), *caller, token_usd_8d, sol_usd_8d, max_age)
                    == Err::<(), OtcError>(e)
                &&& *final(desk) == *old(desk)
            },
        },
        old(desk).wf() ==> final(desk).wf(),
{
    only_owner(desk, caller)?;
    if max_age < 0 {
        return Err(OtcError::AmountRange);
    }
    if !(token_usd_8d > 0 && token_usd_8d <= MAX_TOKEN_USD_8D) {
        return Err(OtcError::BadPrice);
    }
    if !(sol_usd_8d >= MIN_SOL_USD_8D && sol_usd_8d <= MAX_SOL_USD_8D) {
        return Err(OtcError::BadPrice);
    }
    desk.token_usd_price_8d = token_usd_8d;
    desk.sol_usd_price_8d = sol_usd_8d;
    desk.prices_updated_at = now;
    desk.max_price_age_secs = max_age;
    Ok(PricesUpdated { token_usd_8d, sol_usd_8d, updated_at: now, max_age })
}

/// Records the oracle feeds that price the token and the native asset.
/// Owner only.
pub fn set_pyth_feeds(
    desk: &mut Desk,
    caller: &Identity,
    token_feed_id: [u8; 32],
    sol_feed_id: [u8; 32],
) -> (r: Result<(), OtcError>)
    ensures
        r == crate::desk::spec_only_owner(old(desk), *caller),
        r is Ok ==> *final(desk) == (Desk {
            token_price_feed_id: token_feed_id,
            sol_price_feed_id: sol_feed_id,
            ..*old(desk)
        }),
        r is Err ==> *final(desk) == *old(desk),
        old(desk).wf() ==> final(desk).wf(),
{
    only_owner(desk, caller)?;
    desk.token_price_feed_id = token_feed_id;
    desk.sol_price_feed_id = sol_feed_id;
    Ok(())
}

/// How far the signatures on an oracle update have been checked.
#[derive(Clone, Copy, Debug, PartialEq, Eq)]
pub enum Verification {
    /// Only `num_signatures` guardian signatures were checked.
    Partial { num_signatures: u8 },
    /// Two thirds of the guardians' signatures were checked.
    Full,
}

/// What an oracle price-update record holds of one feed.
#[derive(Clone, Copy, Debug, PartialEq, Eq)]
pub struct PriceUpdate {
    pub verification: Verification,
    pub feed_id: [u8; 32],
    pub price: i64,
    pub conf: u64,
    pub exponent: i32,
    pub publish_time: i64,
}

/// What the oracle's reader gives for one feed: a price of
/// `price * 10^exponent` USD with its confidence, and the time it was
/// published.
#[derive(Clone, Copy, Debug, PartialEq, Eq)]
pub struct OraclePrice {
    pub price: i64,
    pub conf: u64,
    pub exponent: i32,
    pub publish_time: i64,
}

/// The error of the oracle reader. Nothing is read from it.
#[verifier::external_type_specification]
#[verifier::external_body]
pub struct ExGetPriceError(GetPriceError);

/// The price that a fully verified update of the feed `feed_id` gives at
/// the time `now`, unless it was published more than `maximum_age` seconds
/// before.
pub open spec fn spec_price_no_older_than(
    update: PriceUpdate,
    now: i64,
    maximum_age: u64,
    feed_id: [u8; 32],
) -> Option<OraclePrice> {
    if update.verification is Full && update.feed_id == feed_id && update.publish_time + maximum_age
        >= now {
        Some(
            OraclePrice {
                price: update.price,
                conf: update.conf,
                exponent: update.exponent,
                publish_time: update.publish_time,
            },
        )
    } else {
        None
    }
}

/// Calls `PriceUpdateV2::get_price_no_older_than` of the oracle's reader on
/// a record built from `update` and a clock that shows `now`. Not proved:
/// that the reader returns the update's price, confidence, exponent and
/// publish time exactly where the update is fully verified, is of the feed
/// asked for, and is no older than `maximum_age` seconds, and an error
/// everywhere else. The reader does not return for a `maximum_age` above
/// the largest signed 64-bit number.
#[verifier::external_body]
fn price_no_older_than(update: &PriceUpdate, now: i64, maximum_age: u64, feed_id: &[u8; 32]) -> (r:
    Result<OraclePrice, GetPriceError>)
    requires
        maximum_age <= i64::MAX,
    ensures
        match r {
            Ok(p) => spec_price_no_older_than(*update, now, maximum_age, *feed_id) == Some(p),
            Err(_) => spec_price_no_older_than(*update, now, maximum_age, *feed_id) is None,
        },
{
    let price_message = PriceFeedMessage {
        feed_id: update.feed_id, price: update.price, conf: update.conf, exponent: update.exponent,
        publish_time: update.publish_time, prev_publish_time: 0, ema_price: 0, ema_conf: 0,
    };
    let verification_level = match update.verification {
        Verification::Full => VerificationLevel::Full,
        Verification::Partial { num_signatures } => VerificationLevel::Partial { num_signatures },
    };
    let record = PriceUpdateV2 { write_authority: Pubkey::default(), verification_level, price_message, posted_slot: 0 };
    let clock = Clock { unix_timestamp: now, ..Clock::default() };
    let price = record.get_price_no_older_than(&clock, maximum_age, feed_id)?;
    Ok(OraclePrice { price: price.price, conf: price.conf, exponent: price.exponent, publish_time: price.publish_time })
}

/// [`spec_price_no_older_than`] as a result: `StalePrice` where the update
/// gives no price.
pub open spec fn spec_read_oracle_price(
    update: PriceUpdate,
    now: i64,
    max_age_secs: i64,
    feed_id: [u8; 32],
) -> Result<OraclePrice, OtcError> {
    match spec_price_no_older_than(update, now, max_age_secs as u64, feed_id) {
        Some(p) => Ok(p),
        None => Err(OtcError::StalePrice),
    }
}

/// Reads the price of the feed `feed_id` from an oracle update, accepting
/// only a fully verified update published at most `max_age_secs` seconds
/// before `now`.
pub fn read_oracle_price(update: &PriceUpdate, now: i64, max_age_secs: i64, feed_id: &[u8; 32]) -> (r:
    Result<OraclePrice, OtcError>)
    requires
        max_age_secs >= 0,
    ensures
        r == spec_read_oracle_price(*update, now, max_age_secs, *feed_id),
{
    match price_no_older_than(update, now, max_age_secs as u64, feed_id) {
        Ok(p) => Ok(p),
        Err(_) => Err(OtcError::StalePrice),
    }
}

/// The prices that an oracle pull puts on the desk, or why it fails.
///
/// Both feeds must be configured (`FeedNotConfigured`) and be the ones the
/// caller names (`BadState`). Both updates must give a price no older than
/// the desk's maximum age (`StalePrice`). Both prices must rescale to eight
/// decimals (`BadPrice`, `Overflow`), the token's first. Neither may be too
/// far from the price on record (`PriceDeviationTooLarge`).
pub open spec fn spec_update_prices_from_pyth(
    desk: &Desk,
    token_feed_id: [u8; 32],
    sol_feed_id: [u8; 32],
    max_price_deviation_bps: u16,
    token_update: PriceUpdate,
    sol_update: PriceUpdate,
    now: i64,
) -> Result<PricesUpdated, OtcError> {
    if desk.token_price_feed_id == zero_bytes32() || desk.sol_price_feed_id == zero_bytes32() {
        Err(OtcError::FeedNotConfigured)
    } else if desk.token_price_feed_id != token_feed_id || desk.sol_price_feed_id != sol_feed_id {
        Err(OtcError::BadState)
    } else {
        match (
            spec_read_oracle_price(
                token_update,
                now,
                desk.max_price_age_secs,
                desk.token_price_feed_id,
            ),
            spec_read_oracle_price(sol_update, now, desk.max_price_age_secs, desk.sol_price_feed_id),
        ) {
            (Ok(token_price), Ok(sol_price)) => match (
                spec_convert_pyth_price(token_price.price, token_price.exponent),
                spec_convert_pyth_price(sol_price.price, sol_price.exponent),
            ) {
                (Err(e), _) => Err(e),
                (Ok(_), Err(e)) => Err(e),
                (Ok(token_usd_8d), Ok(sol_usd_8d)) => if spec_deviation_too_large(
                    desk.token_usd_price_8d,
                    token_usd_8d,
                    max_price_deviation_bps,
                ) || spec_deviation_too_large(
                    desk.sol_usd_price_8d,
                    sol_usd_8d,
                    max_price_deviation_bps,
                ) {
                    Err(OtcError::PriceDeviationTooLarge)
                } else {
                    Ok(
                        PricesUpdated {
                            token_usd_8d,
                            sol_usd_8d,
                            updated_at: now,
                            max_age: desk.max_price_age_secs,
                        },
                    )
                },
            },
            _ => Err(OtcError::StalePrice),
        }
    }
}

/// Replaces both cached prices with what the oracle updates give, stamped
/// with the current time `now`. Anyone may call it. The desk's maximum
/// price age must not be negative: the oracle's reader takes no negative
/// age.
pub fn update_prices_from_pyth(
    desk: &mut Desk,
    token_feed_id: [u8; 32],
    sol_feed_id: [u8; 32],
    max_price_deviation_bps: u16,
    token_update: &PriceUpdate,
    sol_update: &PriceUpdate,
    now: i64,
) -> (r: Result<PricesUpdated, OtcError>)
    requires
        old(desk).max_price_age_secs >= 0,
    ensures
        r == spec_update_prices_from_pyth(
            old(desk),
            token_feed_id,
            sol_feed_id,
            max_price_deviation_bps,
            *token_update,
            *sol_update,
            now,
        ),
        match r {
            Ok(event) => *final(desk) == (Desk {
                token_usd_price_8d: event.token_usd_8d,
                sol_usd_price_8d: event.sol_usd_8d,
                prices_updated_at: now,
                ..*old(desk)
            }),
            Err(_) => *final(desk) == *old(desk),
        },
        old(desk).wf() ==> final(desk).wf(),
{
    let unset = zero_bytes32();
    if bytes32_eq(&desk.token_price_feed_id, &unset) || bytes32_eq(&desk.sol_price_feed_id, &unset) {
        return Err(OtcError::FeedNotConfigured);
    }
    if !(bytes32_eq(&desk.token_price_feed_id, &token_feed_id) && bytes32_eq(
        &desk.sol_price_feed_id,
        &sol_feed_id,
    )) {
        return Err(OtcError::BadState);
    }
    let max_age = desk.max_price_age_secs;
    let token_price = read_oracle_price(token_update, now, max_age, &desk.token_price_feed_id)?;
    let sol_price = read_oracle_price(sol_update, now, max_age, &desk.sol_price_feed_id)?;
    let token_usd_8d = convert_pyth_price(token_price.price, token_price.exponent)?;
    let sol_usd_8d = convert_pyth_price(sol_price.price, sol_price.exponent)?;
    apply_deviation_guard(desk.token_usd_price_8d, token_usd_8d, max_price_deviation_bps)?;
    apply_deviation_guard(desk.sol_usd_price_8d, sol_usd_8d, max_price_deviation_bps)?;
    desk.token_usd_price_8d = token_usd_8d;
    desk.sol_usd_price_8d = sol_usd_8d;
    desk.prices_updated_at = now;
    Ok(PricesUpdated { token_usd_8d, sol_usd_8d, updated_at: now, max_age })
}

} // verus!
