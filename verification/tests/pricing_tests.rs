use otc::pricing::{MAX_SOL_USD_8D, MAX_TOKEN_USD_8D, MIN_SOL_USD_8D};
use otc::{
    apply_deviation_guard, convert_pyth_price, init_desk, read_oracle_price, set_prices,
    set_pyth_feeds, update_prices_from_pyth, Desk, Identity, OraclePrice, OtcError, PriceUpdate,
    PricesUpdated, Verification,
};

fn price_id(n: u8) -> Identity {
    Identity { bytes: [n; 32] }
}

const TOKEN_FEED: [u8; 32] = [0xAA; 32];
const SOL_FEED: [u8; 32] = [0xBB; 32];

fn priced_desk() -> Desk {
    let mut desk =
        init_desk(price_id(1), price_id(2), price_id(3), 6, price_id(4), 9, 500_000_000, 1800)
            .unwrap();
    set_pyth_feeds(&mut desk, &price_id(1), TOKEN_FEED, SOL_FEED).unwrap();
    desk
}

fn update_of(feed_id: [u8; 32], price: i64, exponent: i32, publish_time: i64) -> PriceUpdate {
    PriceUpdate { verification: Verification::Full, feed_id, price, conf: 17, exponent, publish_time }
}

#[test]
fn convert_keeps_an_eight_decimal_quote() {
    // half a dollar, as the oracle quotes it
    assert_eq!(convert_pyth_price(50_000_000, -8), Ok(50_000_000));
    assert_eq!(convert_pyth_price(1, -8), Ok(1));
    assert_eq!(convert_pyth_price(i64::MAX, -8), Ok(i64::MAX as u64));
}

#[test]
fn convert_scales_up_a_coarser_quote() {
    assert_eq!(convert_pyth_price(5, 0), Ok(500_000_000));
    assert_eq!(convert_pyth_price(1234, -2), Ok(1_234_000_000));
    assert_eq!(convert_pyth_price(3, 2), Ok(30_000_000_000));
    assert_eq!(convert_pyth_price(15, -1), Ok(150_000_000));
}

#[test]
fn convert_scales_down_a_finer_quote_rounding_down() {
    assert_eq!(convert_pyth_price(123_456_789_012, -11), Ok(123_456_789));
    assert_eq!(convert_pyth_price(123_456_789, -10), Ok(1_234_567));
    assert_eq!(convert_pyth_price(99, -10), Ok(0));
    assert_eq!(convert_pyth_price(100, -10), Ok(1));
    assert_eq!(convert_pyth_price(199, -10), Ok(1));
    assert_eq!(convert_pyth_price(i64::MAX, -46), Ok(0));
}

#[test]
fn convert_rejects_a_price_that_is_not_positive() {
    assert_eq!(convert_pyth_price(0, -8), Err(OtcError::BadPrice));
    assert_eq!(convert_pyth_price(-1, -8), Err(OtcError::BadPrice));
    assert_eq!(convert_pyth_price(i64::MIN, -8), Err(OtcError::BadPrice));
    // the price is looked at before the exponent
    assert_eq!(convert_pyth_price(0, i32::MAX), Err(OtcError::BadPrice));
}

#[test]
fn convert_rejects_an_exponent_out_of_range() {
    // moves of 39 places, either way
    assert_eq!(convert_pyth_price(1, 31), Err(OtcError::BadPrice));
    assert_eq!(convert_pyth_price(1, -47), Err(OtcError::BadPrice));
    assert_eq!(convert_pyth_price(1, i32::MIN), Err(OtcError::BadPrice));
    assert_eq!(convert_pyth_price(1, i32::MAX), Err(OtcError::BadPrice));
    // moves of 38 places are taken
    assert_eq!(convert_pyth_price(1, -46), Ok(0));
    assert_eq!(convert_pyth_price(1, 30), Err(OtcError::Overflow));
}

#[test]
fn convert_overflows_past_64_bits() {
    assert_eq!(convert_pyth_price(184_467_440_737, 0), Ok(18_446_744_073_700_000_000));
    assert_eq!(convert_pyth_price(184_467_440_738, 0), Err(OtcError::Overflow));
    assert_eq!(convert_pyth_price(i64::MAX, 0), Err(OtcError::Overflow));
    assert_eq!(convert_pyth_price(18_446_744_073, 1), Ok(18_446_744_073_000_000_000));
    assert_eq!(convert_pyth_price(18_446_744_074, 1), Err(OtcError::Overflow));
    // the product does not even fit in 128 bits
    assert_eq!(convert_pyth_price(i64::MAX, 30), Err(OtcError::Overflow));
}

#[test]
fn deviation_guard_passes_the_band_with_its_ends() {
    assert_eq!(apply_deviation_guard(100_000_000, 100_000_000, 500), Ok(()));
    assert_eq!(apply_deviation_guard(100_000_000, 105_000_000, 500), Ok(()));
    assert_eq!(apply_deviation_guard(100_000_000, 95_000_000, 500), Ok(()));
    assert_eq!(
        apply_deviation_guard(100_000_000, 105_000_001, 500),
        Err(OtcError::PriceDeviationTooLarge)
    );
    assert_eq!(
        apply_deviation_guard(100_000_000, 94_999_999, 500),
        Err(OtcError::PriceDeviationTooLarge)
    );
    assert_eq!(apply_deviation_guard(100_000_000, 0, 500), Err(OtcError::PriceDeviationTooLarge));
    assert_eq!(
        apply_deviation_guard(100_000_000, u64::MAX, 500),
        Err(OtcError::PriceDeviationTooLarge)
    );
}

#[test]
fn deviation_guard_is_off_without_an_old_price_or_a_cap() {
    assert_eq!(apply_deviation_guard(0, 1_000_000_000, 500), Ok(()));
    assert_eq!(apply_deviation_guard(100_000_000, 1, 0), Ok(()));
    assert_eq!(apply_deviation_guard(0, u64::MAX, 0), Ok(()));
}

#[test]
fn deviation_guard_compares_exactly() {
    // one basis point of 3 is 0.0003: only the old price itself passes
    assert_eq!(apply_deviation_guard(3, 3, 1), Ok(()));
    assert_eq!(apply_deviation_guard(3, 4, 1), Err(OtcError::PriceDeviationTooLarge));
    assert_eq!(apply_deviation_guard(3, 2, 1), Err(OtcError::PriceDeviationTooLarge));
    // a cap above one hundred percent lets the price fall to nothing
    assert_eq!(apply_deviation_guard(10, 0, 10_000), Ok(()));
    assert_eq!(apply_deviation_guard(10, 20, 10_000), Ok(()));
    assert_eq!(apply_deviation_guard(10, 21, 10_000), Err(OtcError::PriceDeviationTooLarge));
    assert_eq!(apply_deviation_guard(u64::MAX, u64::MAX - 1, u16::MAX), Ok(()));
}

#[test]
fn set_prices_stamps_the_current_time() {
    let mut desk = priced_desk();
    let before = desk.clone();
    let event = set_prices(&mut desk, &price_id(1), 100_000_000, 15_000_000_000, 42, 600, 1_000);
    assert_eq!(
        event,
        Ok(PricesUpdated {
            token_usd_8d: 100_000_000,
            sol_usd_8d: 15_000_000_000,
            updated_at: 1_000,
            max_age: 600,
        })
    );
    let mut expected = before;
    expected.token_usd_price_8d = 100_000_000;
    expected.sol_usd_price_8d = 15_000_000_000;
    expected.prices_updated_at = 1_000;
    expected.max_price_age_secs = 600;
    assert_eq!(desk, expected);
}

#[test]
fn set_prices_bounds() {
    let mut desk = priced_desk();
    let before = desk.clone();
    let owner = price_id(1);
    let ok_sol = 15_000_000_000;
    assert_eq!(set_prices(&mut desk, &owner, 0, ok_sol, 0, 600, 1), Err(OtcError::BadPrice));
    assert_eq!(
        set_prices(&mut desk, &owner, MAX_TOKEN_USD_8D + 1, ok_sol, 0, 600, 1),
        Err(OtcError::BadPrice)
    );
    assert_eq!(
        set_prices(&mut desk, &owner, 1, MIN_SOL_USD_8D - 1, 0, 600, 1),
        Err(OtcError::BadPrice)
    );
    assert_eq!(
        set_prices(&mut desk, &owner, 1, MAX_SOL_USD_8D + 1, 0, 600, 1),
        Err(OtcError::BadPrice)
    );
    assert_eq!(set_prices(&mut desk, &owner, 1, ok_sol, 0, -1, 1), Err(OtcError::AmountRange));
    // the age is looked at before the prices, the caller before everything
    assert_eq!(set_prices(&mut desk, &owner, 0, 0, 0, -1, 1), Err(OtcError::AmountRange));
    assert_eq!(set_prices(&mut desk, &price_id(2), 0, 0, 0, -1, 1), Err(OtcError::NotOwner));
    assert_eq!(desk, before);
    assert!(set_prices(&mut desk, &owner, 1, MIN_SOL_USD_8D, 0, 0, 1).is_ok());
    assert!(set_prices(&mut desk, &owner, MAX_TOKEN_USD_8D, MAX_SOL_USD_8D, 0, i64::MAX, 1).is_ok());
    assert_eq!(MAX_TOKEN_USD_8D, 1_000_000_000_000);
    assert_eq!(MIN_SOL_USD_8D, 1_000_000);
    assert_eq!(MAX_SOL_USD_8D, 10_000_000_000_000);
}

#[test]
fn set_pyth_feeds_is_for_the_owner() {
    let mut desk = priced_desk();
    assert_eq!(desk.token_price_feed_id, TOKEN_FEED);
    assert_eq!(desk.sol_price_feed_id, SOL_FEED);
    let before = desk.clone();
    assert_eq!(set_pyth_feeds(&mut desk, &price_id(2), [1; 32], [2; 32]), Err(OtcError::NotOwner));
    assert_eq!(desk, before);
}

#[test]
fn oracle_price_is_read_from_a_fresh_full_update() {
    let update = update_of(TOKEN_FEED, 123, -5, 1_000);
    let expected = OraclePrice { price: 123, conf: 17, exponent: -5, publish_time: 1_000 };
    assert_eq!(read_oracle_price(&update, 1_000, 0, &TOKEN_FEED), Ok(expected));
    assert_eq!(read_oracle_price(&update, 1_600, 600, &TOKEN_FEED), Ok(expected));
    assert_eq!(read_oracle_price(&update, 900, 0, &TOKEN_FEED), Ok(expected));
    assert_eq!(read_oracle_price(&update, i64::MAX, i64::MAX, &TOKEN_FEED), Ok(expected));
}

#[test]
fn oracle_price_is_refused_when_old_foreign_or_partly_verified() {
    let update = update_of(TOKEN_FEED, 123, -5, 1_000);
    assert_eq!(read_oracle_price(&update, 1_601, 600, &TOKEN_FEED), Err(OtcError::StalePrice));
    assert_eq!(read_oracle_price(&update, 1_001, 0, &TOKEN_FEED), Err(OtcError::StalePrice));
    assert_eq!(read_oracle_price(&update, 1_000, 600, &SOL_FEED), Err(OtcError::StalePrice));
    let mut partial = update;
    partial.verification = Verification::Partial { num_signatures: 255 };
    assert_eq!(read_oracle_price(&partial, 1_000, 600, &TOKEN_FEED), Err(OtcError::StalePrice));
}

#[test]
fn oracle_pull_replaces_both_prices() {
    let mut desk = priced_desk();
    let before = desk.clone();
    let token = update_of(TOKEN_FEED, 250, -2, 990);
    let sol = update_of(SOL_FEED, 150_123_456_789, -9, 995);
    let event = update_prices_from_pyth(&mut desk, TOKEN_FEED, SOL_FEED, 500, &token, &sol, 1_000);
    assert_eq!(
        event,
        Ok(PricesUpdated {
            token_usd_8d: 250_000_000,
            sol_usd_8d: 15_012_345_678,
            updated_at: 1_000,
            max_age: 3600,
        })
    );
    let mut expected = before;
    expected.token_usd_price_8d = 250_000_000;
    expected.sol_usd_price_8d = 15_012_345_678;
    expected.prices_updated_at = 1_000;
    assert_eq!(desk, expected);
}

#[test]
fn oracle_pull_wants_the_configured_feeds() {
    let token = update_of(TOKEN_FEED, 250, -2, 990);
    let sol = update_of(SOL_FEED, 150, 0, 995);
    let mut desk =
        init_desk(price_id(1), price_id(2), price_id(3), 6, price_id(4), 9, 500_000_000, 1800)
            .unwrap();
    let r = update_prices_from_pyth(&mut desk, TOKEN_FEED, SOL_FEED, 0, &token, &sol, 1_000);
    assert_eq!(r, Err(OtcError::FeedNotConfigured));
    desk.token_price_feed_id = TOKEN_FEED;
    let r = update_prices_from_pyth(&mut desk, TOKEN_FEED, SOL_FEED, 0, &token, &sol, 1_000);
    assert_eq!(r, Err(OtcError::FeedNotConfigured));
    desk.sol_price_feed_id = SOL_FEED;
    let before = desk.clone();
    let r = update_prices_from_pyth(&mut desk, SOL_FEED, SOL_FEED, 0, &token, &sol, 1_000);
    assert_eq!(r, Err(OtcError::BadState));
    let r = update_prices_from_pyth(&mut desk, TOKEN_FEED, TOKEN_FEED, 0, &token, &sol, 1_000);
    assert_eq!(r, Err(OtcError::BadState));
    assert_eq!(desk, before);
    let r = update_prices_from_pyth(&mut desk, TOKEN_FEED, SOL_FEED, 0, &token, &sol, 1_000);
    assert!(r.is_ok());
}

#[test]
fn oracle_pull_refuses_stale_updates() {
    let mut desk = priced_desk();
    let before = desk.clone();
    let fresh_token = update_of(TOKEN_FEED, 250, -2, 1_000);
    let fresh_sol = update_of(SOL_FEED, 150, 0, 1_000);
    let old_token = update_of(TOKEN_FEED, 250, -2, 1_000 - 3_601);
    let old_sol = update_of(SOL_FEED, 150, 0, 1_000 - 3_601);
    let swapped = update_of(SOL_FEED, 250, -2, 1_000);
    let f = update_prices_from_pyth;
    assert_eq!(
        f(&mut desk, TOKEN_FEED, SOL_FEED, 0, &old_token, &fresh_sol, 1_000),
        Err(OtcError::StalePrice)
    );
    assert_eq!(
        f(&mut desk, TOKEN_FEED, SOL_FEED, 0, &fresh_token, &old_sol, 1_000),
        Err(OtcError::StalePrice)
    );
    assert_eq!(
        f(&mut desk, TOKEN_FEED, SOL_FEED, 0, &swapped, &fresh_sol, 1_000),
        Err(OtcError::StalePrice)
    );
    assert_eq!(desk, before);
    // exactly at the maximum age an update is still taken
    let edge = update_of(TOKEN_FEED, 250, -2, 1_000 - 3_600);
    assert!(f(&mut desk, TOKEN_FEED, SOL_FEED, 0, &edge, &fresh_sol, 1_000).is_ok());
}

#[test]
fn oracle_pull_reports_a_bad_quote() {
    let mut desk = priced_desk();
    let before = desk.clone();
    let good = update_of(SOL_FEED, 150, 0, 1_000);
    let negative = update_of(TOKEN_FEED, -5, -8, 1_000);
    let huge = update_of(TOKEN_FEED, i64::MAX, 0, 1_000);
    let f = update_prices_from_pyth;
    assert_eq!(
        f(&mut desk, TOKEN_FEED, SOL_FEED, 0, &negative, &good, 1_000),
        Err(OtcError::BadPrice)
    );
    assert_eq!(f(&mut desk, TOKEN_FEED, SOL_FEED, 0, &huge, &good, 1_000), Err(OtcError::Overflow));
    // the token's quote is converted first
    let bad_sol = update_of(SOL_FEED, 0, 0, 1_000);
    assert_eq!(
        f(&mut desk, TOKEN_FEED, SOL_FEED, 0, &huge, &bad_sol, 1_000),
        Err(OtcError::Overflow)
    );
    let good_token = update_of(TOKEN_FEED, 5, -8, 1_000);
    assert_eq!(
        f(&mut desk, TOKEN_FEED, SOL_FEED, 0, &good_token, &bad_sol, 1_000),
        Err(OtcError::BadPrice)
    );
    assert_eq!(desk, before);
}

#[test]
fn oracle_pull_guards_both_prices_against_jumps() {
    let mut desk = priced_desk();
    desk.token_usd_price_8d = 100_000_000;
    desk.sol_usd_price_8d = 10_000_000_000;
    let before = desk.clone();
    let f = update_prices_from_pyth;
    let sol_same = update_of(SOL_FEED, 10_000_000_000, -8, 1_000);
    let token_same = update_of(TOKEN_FEED, 100_000_000, -8, 1_000);
    let token_far = update_of(TOKEN_FEED, 105_000_001, -8, 1_000);
    let sol_far = update_of(SOL_FEED, 9_499_999_999, -8, 1_000);
    assert_eq!(
        f(&mut desk, TOKEN_FEED, SOL_FEED, 500, &token_far, &sol_same, 1_000),
        Err(OtcError::PriceDeviationTooLarge)
    );
    assert_eq!(
        f(&mut desk, TOKEN_FEED, SOL_FEED, 500, &token_same, &sol_far, 1_000),
        Err(OtcError::PriceDeviationTooLarge)
    );
    assert_eq!(desk, before);
    // with no cap the jump goes through
    assert!(f(&mut desk, TOKEN_FEED, SOL_FEED, 0, &token_far, &sol_far, 1_000).is_ok());
    assert_eq!(desk.token_usd_price_8d, 105_000_001);
    assert_eq!(desk.sol_usd_price_8d, 9_499_999_999);
    // at the ends of the band the new prices are taken
    desk.token_usd_price_8d = 100_000_000;
    desk.sol_usd_price_8d = 10_000_000_000;
    let token_edge = update_of(TOKEN_FEED, 105_000_000, -8, 1_000);
    let sol_edge = update_of(SOL_FEED, 9_500_000_000, -8, 1_000);
    assert!(f(&mut desk, TOKEN_FEED, SOL_FEED, 500, &token_edge, &sol_edge, 1_000).is_ok());
}

#[test]
fn oracle_pull_takes_fresh_quotes_at_eight_decimals() {
    let mut desk = priced_desk();
    // 0.5 USD and 152.25 USD, both at exponent -8
    let token = update_of(TOKEN_FEED, 50_000_000, -8, 1_000);
    let sol = update_of(SOL_FEED, 15_225_000_000, -8, 1_000);
    let event = update_prices_from_pyth(&mut desk, TOKEN_FEED, SOL_FEED, 500, &token, &sol, 1_000);
    assert_eq!(
        event,
        Ok(PricesUpdated {
            token_usd_8d: 50_000_000,
            sol_usd_8d: 15_225_000_000,
            updated_at: 1_000,
            max_age: 3600,
        })
    );
    assert_eq!(desk.token_usd_price_8d, 50_000_000);
    assert_eq!(desk.sol_usd_price_8d, 15_225_000_000);
}
