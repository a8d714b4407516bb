use otc::{
    create_consignment, init_desk, register_token, withdraw_consignment, Consignment, Desk,
    Identity, OtcError, TokenRegistry,
};

fn lot_id(n: u8) -> Identity {
    Identity { bytes: [n; 32] }
}

fn lot_desk() -> Desk {
    init_desk(lot_id(1), lot_id(2), lot_id(3), 6, lot_id(4), 9, 500_000_000, 1800).unwrap()
}

fn consign(desk: &mut Desk, amount: u64, deal: (u64, u64), disc: (u16, u16), days: (u32, u32)) -> Result<Consignment, OtcError> {
    create_consignment(
        desk, lot_id(9), lot_id(4), lot_id(30), 5_000, amount, true, 100, 7, disc.0, disc.1,
        days.0, days.1, deal.0, deal.1, false, true, 250, 3_600,
    )
}

#[test]
fn register_token_records_an_unpriced_active_token() {
    let desk = lot_desk();
    let r = register_token(&desk, lot_id(9), &lot_id(1), lot_id(4), 9, [0xAA; 32]);
    assert_eq!(
        r,
        Ok(TokenRegistry {
            desk: lot_id(9),
            token_mint: lot_id(4),
            decimals: 9,
            price_feed_id: [0xAA; 32],
            is_active: true,
            token_usd_price_8d: 0,
            prices_updated_at: 0,
        })
    );
    let r = register_token(&desk, lot_id(9), &lot_id(2), lot_id(4), 9, [0xAA; 32]);
    assert_eq!(r, Err(OtcError::NotOwner));
}

#[test]
fn create_consignment_records_the_lot() {
    let mut desk = lot_desk();
    let before = desk.clone();
    let lot = consign(&mut desk, 1_000, (10, 500), (0, 2_000), (0, 365)).unwrap();
    assert_eq!(
        lot,
        Consignment {
            desk: lot_id(9),
            id: 1,
            token_mint: lot_id(4),
            consigner: lot_id(30),
            total_amount: 1_000,
            remaining_amount: 1_000,
            is_negotiable: true,
            fixed_discount_bps: 100,
            fixed_lockup_days: 7,
            min_discount_bps: 0,
            max_discount_bps: 2_000,
            min_lockup_days: 0,
            max_lockup_days: 365,
            min_deal_amount: 10,
            max_deal_amount: 500,
            is_fractionalized: false,
            is_private: true,
            max_price_volatility_bps: 250,
            max_time_to_execute_secs: 3_600,
            is_active: true,
            created_at: 5_000,
        }
    );
    let mut expected = before;
    expected.next_consignment_id = 2;
    assert_eq!(desk, expected);
}

#[test]
fn consignment_ids_increase_by_one() {
    let mut desk = lot_desk();
    for expected in 1..6 {
        let lot = consign(&mut desk, 1, (0, 0), (0, 0), (0, 0)).unwrap();
        assert_eq!(lot.id, expected);
    }
    assert_eq!(desk.next_consignment_id, 6);
    desk.next_consignment_id = u64::MAX;
    let before = desk.clone();
    assert_eq!(consign(&mut desk, 1, (0, 0), (0, 0), (0, 0)), Err(OtcError::Overflow));
    assert_eq!(desk, before);
}

#[test]
fn create_consignment_rejects_inverted_bounds_and_nothing() {
    let mut desk = lot_desk();
    let before = desk.clone();
    assert_eq!(consign(&mut desk, 0, (1, 2), (1, 2), (1, 2)), Err(OtcError::AmountRange));
    assert_eq!(consign(&mut desk, 5, (3, 2), (1, 2), (1, 2)), Err(OtcError::AmountRange));
    assert_eq!(consign(&mut desk, 5, (1, 2), (3, 2), (1, 2)), Err(OtcError::Discount));
    assert_eq!(consign(&mut desk, 5, (1, 2), (1, 2), (3, 2)), Err(OtcError::LockupTooLong));
    // in this order
    assert_eq!(consign(&mut desk, 5, (3, 2), (3, 2), (3, 2)), Err(OtcError::AmountRange));
    assert_eq!(consign(&mut desk, 5, (1, 2), (3, 2), (3, 2)), Err(OtcError::Discount));
    assert_eq!(desk, before);
    // equal bounds are in order
    assert!(consign(&mut desk, 5, (2, 2), (2, 2), (2, 2)).is_ok());
    desk.paused = true;
    assert_eq!(consign(&mut desk, 0, (3, 2), (3, 2), (3, 2)), Err(OtcError::Paused));
}

#[test]
fn withdraw_consignment_returns_what_remains() {
    let mut desk = lot_desk();
    let mut lot = consign(&mut desk, 1_000, (10, 500), (0, 2_000), (0, 365)).unwrap();
    lot.remaining_amount = 400;
    let before = lot;
    assert_eq!(withdraw_consignment(&mut lot, &lot_id(1), 1), Err(OtcError::NotOwner));
    assert_eq!(lot, before);
    assert_eq!(withdraw_consignment(&mut lot, &lot_id(30), 1), Ok(400));
    let mut expected = before;
    expected.remaining_amount = 0;
    expected.is_active = false;
    assert_eq!(lot, expected);
    // a second withdrawal finds the lot closed
    assert_eq!(withdraw_consignment(&mut lot, &lot_id(30), 1), Err(OtcError::BadState));
    assert_eq!(lot, expected);
}

#[test]
fn withdraw_consignment_with_nothing_left() {
    let mut desk = lot_desk();
    let mut lot = consign(&mut desk, 1_000, (10, 500), (0, 2_000), (0, 365)).unwrap();
    lot.remaining_amount = 0;
    assert_eq!(withdraw_consignment(&mut lot, &lot_id(30), 1), Err(OtcError::AmountRange));
    assert!(lot.is_active);
    // the caller is looked at first, then the state
    lot.is_active = false;
    assert_eq!(withdraw_consignment(&mut lot, &lot_id(31), 1), Err(OtcError::NotOwner));
    assert_eq!(withdraw_consignment(&mut lot, &lot_id(30), 1), Err(OtcError::BadState));
}
