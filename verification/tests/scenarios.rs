use otc::{
    apply_deviation_guard, approve_offer, available_inventory, claim, create_consignment,
    create_offer_from_consignment, emergency_refund_sol, emergency_refund_usdc,
    fulfill_offer_sol, fulfill_offer_usdc, init_desk, register_token, Consignment, Desk, Identity,
    Offer, OtcError, TokenRegistry,
};

fn party(n: u8) -> Identity {
    Identity { bytes: [n; 32] }
}

const DAY: i64 = 86_400;
const NOW: i64 = 1_750_000_000;

fn scene(min_usd_amount_8d: u64, token_decimals: u8) -> (Desk, Consignment, TokenRegistry) {
    let mut desk = init_desk(
        party(1), party(2), party(3), 6, party(4), token_decimals, min_usd_amount_8d, 3_600,
    )
    .unwrap();
    desk.sol_usd_price_8d = 20_000_000_000;
    let lot = create_consignment(
        &mut desk, party(9), party(4), party(30), NOW, 1_000_000, true, 0, 0, 0, 1_000, 0, 180, 1,
        1_000_000, false, false, 0, 0,
    )
    .unwrap();
    let mut registry =
        register_token(&desk, party(9), &party(1), party(4), token_decimals, [7; 32]).unwrap();
    registry.token_usd_price_8d = 100_000_000;
    registry.prices_updated_at = NOW;
    (desk, lot, registry)
}

fn paid_offer(desk: &mut Desk, lot: &mut Consignment, registry: &TokenRegistry, currency: u8, lockup: i64) -> Offer {
    let mut offer = Offer::blank();
    create_offer_from_consignment(
        desk, lot, registry, &mut offer, party(9), party(60), party(40), NOW, 1, 1_000, 500,
        currency, lockup,
    )
    .unwrap();
    approve_offer(desk, &mut offer, party(60), &party(2), 1).unwrap();
    if currency == 1 {
        fulfill_offer_usdc(desk, &mut offer, party(60), &party(41), 1_000_000, NOW, 1).unwrap();
    } else {
        fulfill_offer_sol(desk, &mut offer, party(60), &party(41), 1_000_000, NOW, 1).unwrap();
    }
    offer
}

#[test]
fn below_the_desk_minimum_creation_fails_and_above_it_succeeds() {
    // a minimum of 100 USD, a token at 1 USD, no discount
    let (mut desk, mut lot, registry) = scene(10_000_000_000, 0);
    let before = (desk.clone(), lot);
    let r = create_offer_from_consignment(
        &mut desk, &mut lot, &registry, &mut Offer::blank(), party(9), party(60), party(40), NOW, 1, 99, 0, 1, 0,
    );
    assert_eq!(r, Err(OtcError::MinUsd));
    assert_eq!((desk.clone(), lot), before);
    let r = create_offer_from_consignment(
        &mut desk, &mut lot, &registry, &mut Offer::blank(), party(9), party(60), party(40), NOW, 1, 101, 0, 1, 0,
    );
    assert!(r.is_ok());
    assert_eq!(lot.remaining_amount, 1_000_000 - 101);
    // exactly the minimum is enough
    let r = create_offer_from_consignment(
        &mut desk, &mut lot, &registry, &mut Offer::blank(), party(9), party(60), party(40), NOW, 1, 100, 0, 1, 0,
    );
    assert!(r.is_ok());
}

#[test]
fn the_minimum_applies_to_the_discounted_value() {
    let (mut desk, mut lot, registry) = scene(10_000_000_000, 0);
    // 105 tokens at 5 percent off are worth 99.75 USD
    let r = create_offer_from_consignment(
        &mut desk, &mut lot, &registry, &mut Offer::blank(), party(9), party(60), party(40), NOW, 1, 105, 500, 1, 0,
    );
    assert_eq!(r, Err(OtcError::MinUsd));
    let r = create_offer_from_consignment(
        &mut desk, &mut lot, &registry, &mut Offer::blank(), party(9), party(60), party(40), NOW, 1, 106, 500, 1, 0,
    );
    assert!(r.is_ok());
}

#[test]
fn a_thousand_tokens_at_five_percent_off_cost_950_units_of_quote_asset() {
    let (mut desk, mut lot, registry) = scene(1, 0);
    let mut offer = Offer::blank();
    create_offer_from_consignment(
        &mut desk, &mut lot, &registry, &mut offer, party(9), party(60), party(40), NOW, 1, 1_000,
        500, 1, 0,
    )
    .unwrap();
    assert_eq!(offer.discount_bps, 500);
    assert_eq!(offer.price_usd_per_token_8d, 100_000_000);
    assert_eq!(offer.token_amount, 1_000);
    approve_offer(&desk, &mut offer, party(60), &party(2), 1).unwrap();
    let event =
        fulfill_offer_usdc(&mut desk, &mut offer, party(60), &party(41), 1_000_000, NOW, 1).unwrap();
    assert_eq!(event.amount, 950_000_000);
    assert_eq!(offer.amount_paid, 950_000_000);
}

#[test]
fn the_charge_uses_the_price_frozen_at_creation() {
    let (mut desk, mut lot, mut registry) = scene(1, 0);
    let mut offer = Offer::blank();
    create_offer_from_consignment(
        &mut desk, &mut lot, &registry, &mut offer, party(9), party(60), party(40), NOW, 1, 1_000,
        500, 1, 0,
    )
    .unwrap();
    registry.token_usd_price_8d = 900_000_000;
    desk.token_usd_price_8d = 900_000_000;
    approve_offer(&desk, &mut offer, party(60), &party(2), 1).unwrap();
    let event =
        fulfill_offer_usdc(&mut desk, &mut offer, party(60), &party(41), 1_000_000, NOW, 1).unwrap();
    assert_eq!(event.amount, 950_000_000);
}

#[test]
fn the_deviation_guard_passes_five_percent_either_way_and_no_more() {
    let old = 100_000_000;
    for new in [95_000_000, 95_000_001, 99_999_999, 100_000_000, 104_999_999, 105_000_000] {
        assert_eq!(apply_deviation_guard(old, new, 500), Ok(()));
    }
    for new in [0, 1, 94_999_999, 105_000_001, 200_000_000, u64::MAX] {
        assert_eq!(apply_deviation_guard(old, new, 500), Err(OtcError::PriceDeviationTooLarge));
    }
}

#[test]
fn a_refund_before_both_deadlines_is_too_early() {
    for currency in [0u8, 1u8] {
        let (mut desk, mut lot, registry) = scene(1, 0);
        desk.emergency_refund_enabled = true;
        desk.emergency_refund_deadline_secs = 45 * DAY;
        let mut offer = paid_offer(&mut desk, &mut lot, &registry, currency, 10 * DAY);
        let before = (desk.clone(), offer);
        // the deadlines are 45 days after creation and 40 days after creation
        for now in [NOW, NOW + 10 * DAY, NOW + 40 * DAY - 1] {
            let r = if currency == 1 {
                emergency_refund_usdc(&mut desk, &mut offer, &party(40), now, 1)
            } else {
                emergency_refund_sol(&mut desk, &mut offer, &party(40), now, 1)
            };
            assert_eq!(r, Err(OtcError::TooEarlyForRefund));
            assert_eq!((desk.clone(), offer), before);
        }
        let r = if currency == 1 {
            emergency_refund_usdc(&mut desk, &mut offer, &party(40), NOW + 40 * DAY, 1)
        } else {
            emergency_refund_sol(&mut desk, &mut offer, &party(40), NOW + 40 * DAY, 1)
        };
        assert_eq!(r, Ok(offer.amount_paid));
    }
}

#[test]
fn a_refund_is_refused_to_a_stranger_whatever_the_time() {
    let (mut desk, mut lot, registry) = scene(1, 0);
    desk.emergency_refund_enabled = true;
    let mut offer = paid_offer(&mut desk, &mut lot, &registry, 1, 10 * DAY);
    let before = (desk.clone(), offer);
    for now in [i64::MIN, 0, NOW, NOW + 30 * DAY - 1, NOW + 30 * DAY, NOW + 400 * DAY, i64::MAX] {
        for stranger in [party(30), party(77), Identity::zero()] {
            assert_eq!(
                emergency_refund_usdc(&mut desk, &mut offer, &stranger, now, 1),
                Err(OtcError::NotOwner)
            );
        }
    }
    assert_eq!((desk.clone(), offer), before);
}

#[test]
fn a_claim_before_the_unlock_time_is_locked() {
    let (mut desk, mut lot, registry) = scene(1, 0);
    let mut offer = paid_offer(&mut desk, &mut lot, &registry, 1, 10 * DAY);
    let key = party(9);
    let before = (desk.clone(), offer);
    for now in [i64::MIN, NOW, NOW + 10 * DAY - 1] {
        assert_eq!(
            claim(&mut desk, &mut offer, party(60), &key, &key, &party(40), now, 1),
            Err(OtcError::Locked)
        );
    }
    assert_eq!((desk.clone(), offer), before);
    assert!(claim(&mut desk, &mut offer, party(60), &key, &key, &party(40), NOW + 10 * DAY, 1)
        .is_ok());
}

#[test]
fn a_claim_by_anyone_but_the_beneficiary_fails_whatever_the_time() {
    let (mut desk, mut lot, registry) = scene(1, 0);
    let mut offer = paid_offer(&mut desk, &mut lot, &registry, 1, 10 * DAY);
    let key = party(9);
    let before = (desk.clone(), offer);
    for now in [i64::MIN, NOW, NOW + 10 * DAY - 1, NOW + 10 * DAY, i64::MAX] {
        // the payer, the owner, the agent, the consigner, a stranger
        for other in [party(41), party(1), party(2), party(30), party(77)] {
            assert_eq!(
                claim(&mut desk, &mut offer, party(60), &key, &key, &other, now, 1),
                Err(OtcError::NotOwner)
            );
        }
    }
    assert_eq!((desk.clone(), offer), before);
}

#[test]
fn available_inventory_round_trip() {
    let (mut desk, _, _) = scene(1, 0);
    for reserved in [0u64, 1, 500, u64::MAX] {
        desk.token_reserved = reserved;
        assert_eq!(available_inventory(&desk, reserved), 0);
        for balance in [0u64, 1, 499, 500, 501, u64::MAX] {
            let available = available_inventory(&desk, balance);
            assert!(available <= balance);
            assert_eq!(available, balance.saturating_sub(reserved));
        }
    }
    desk.token_reserved = 0;
    for balance in [0u64, 1, 12_345, u64::MAX] {
        assert_eq!(available_inventory(&desk, balance), balance);
    }
}
