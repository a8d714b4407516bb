//! Consignments: lots of tokens that a consigner hands to the desk with a
//! pricing policy of their own, and the registry record of a token.

use crate::desk::{only_owner, Desk};
use crate::errors::OtcError;
use crate::identity::Identity;
use vstd::prelude::*;

verus! {

/// What the desk knows of one token: its decimals, its feed and its price.
#[derive(Clone, Copy, Debug, PartialEq, Eq)]
pub struct TokenRegistry {
    pub desk: Identity,
    pub token_mint: Identity,
    pub decimals: u8,
    pub price_feed_id: [u8; 32],
    pub is_active: bool,
    pub token_usd_price_8d: u64,
    pub prices_updated_at: i64,
}

/// The registry record of a token that was just registered: active, with no
/// price yet.
pub open spec fn spec_new_registry(
    desk_key: Identity,
    token_mint: Identity,
    decimals: u8,
    price_feed_id: [u8; 32],
) -> TokenRegistry {
    TokenRegistry {
        desk: desk_key,
        token_mint,
        decimals,
        price_feed_id,
        is_active: true,
        token_usd_price_8d: 0,
        prices_updated_at: 0,
    }
}

/// Registers a token with the desk at the address `desk_key`. Owner only.
pub fn register_token(
    desk: &Desk,
    desk_key: Identity,
    caller: &Identity,
    token_mint: Identity,
    decimals: u8,
    price_feed_id: [u8; 32],
) -> (r: Result<TokenRegistry, OtcError>)
    ensures
        r == if desk.is_owner(*caller) {
            Ok::<TokenRegistry, OtcError>(
                spec_new_registry(desk_key, token_mint, decimals, price_feed_id),
            )
        } else {
            Err::<TokenRegistry, OtcError>(OtcError::NotOwner)
        },
{
    only_owner(desk, caller)?;
    Ok(
        TokenRegistry {
            desk: desk_key,
            token_mint,
            decimals,
            price_feed_id,
            is_active: true,
            token_usd_price_8d: 0,
            prices_updated_at: 0,
        },
    )
}

/// A lot of tokens on consignment. Offers draw it down; the consigner can
/// take back what remains.
#[derive(Clone, Copy, Debug, PartialEq, Eq)]
pub struct Consignment {
    pub desk: Identity,
    pub id: u64,
    pub token_mint: Identity,
    pub consigner: Identity,
    pub total_amount: u64,
    pub remaining_amount: u64,
    pub is_negotiable: bool,
    pub fixed_discount_bps: u16,
    pub fixed_lockup_days: u32,
    pub min_discount_bps: u16,
    pub max_discount_bps: u16,
    pub min_lockup_days: u32,
    pub max_lockup_days: u32,
    pub min_deal_amount: u64,
    pub max_deal_amount: u64,
    pub is_fractionalized: bool,
    pub is_private: bool,
    pub max_price_volatility_bps: u16,
    pub max_time_to_execute_secs: i64,
    pub is_active: bool,
    pub created_at: i64,
}

impl Consignment {
    /// What holds of a consignment from its creation on: no more remains
    /// than was consigned, an active lot is not empty, and each pair of
    /// bounds is in order.
    pub open spec fn wf(&self) -> bool {
        &&& self.remaining_amount <= self.total_amount
        &&& self.is_active ==> self.remaining_amount > 0
        &&& self.min_deal_amount <= self.max_deal_amount
        &&& self.min_discount_bps <= self.max_discount_bps
        &&& self.min_lockup_days <= self.max_lockup_days
    }
}

/// Whether a consignment of `amount` tokens with the given bounds is
/// accepted: the desk is not paused, the amount is not zero, no pair of
/// bounds is inverted, and the desk has an id left to give.
pub open spec fn spec_create_consignment_check(
    desk: &Desk,
    amount: u64,
    min_discount_bps: u16,
    max_discount_bps: u16,
    min_lockup_days: u32,
    max_lockup_days: u32,
    min_deal_amount: u64,
    max_deal_amount: u64,
) -> Result<(), OtcError> {
    if desk.paused {
        Err(OtcError::Paused)
    } else if amount == 0 {
        Err(OtcError::AmountRange)
    } else if min_deal_amount > max_deal_amount {
        Err(OtcError::AmountRange)
    } else if min_discount_bps > max_discount_bps {
        Err(OtcError::Discount)
    } else if min_lockup_days > max_lockup_days {
        Err(OtcError::LockupTooLong)
    } else if desk.next_consignment_id + 1 > u64::MAX {
        Err(OtcError::Overflow)
    } else {
        Ok(())
    }
}

/// Receives `amount` tokens on consignment and records the lot under the
/// desk's next consignment id. On success the caller moves `amount` from
/// the consigner to the treasury.
pub fn create_consignment(
    desk: &mut Desk,
    desk_key: Identity,
    token_mint: Identity,
    consigner: Identity,
    now: i64,
    amount: u64,
    is_negotiable: bool,
    fixed_discount_bps: u16,
    fixed_lockup_days: u32,
    min_discount_bps: u16,
    max_discount_bps: u16,
    min_lockup_days: u32,
    max_lockup_days: u32,
    min_deal_amount: u64,
    max_deal_amount: u64,
    is_fractionalized: bool,
    is_private: bool,
    max_price_volatility_bps: u16,
    max_time_to_execute_secs: i64,
) -> (r: Result<Consignment, OtcError>)
    ensures
        match r {
            Ok(lot) => {
                &&& spec_create_consignment_check(
                    old(desk),
                    amount,
                    min_discount_bps,
                    max_discount_bps,
                    min_lockup_days,
                    max_lockup_days,
                    min_deal_amount,
                    max_deal_amount,
                ) is Ok
                &&& lot == (Consignment {
                    desk: desk_key,
                    id: old(desk).next_consignment_id,
                    token_mint,
                    consigner,
                    total_amount: amount,
                    remaining_amount: amount,
                    is_negotiable,
                    fixed_discount_bps,
                    fixed_lockup_days,
                    min_discount_bps,
                    max_discount_bps,
                    min_lockup_days,
                    max_lockup_days,
                    min_deal_amount,
                    max_deal_amount,
                    is_fractionalized,
                    is_private,
                    max_price_volatility_bps,
                    max_time_to_execute_secs,
                    is_active: true,
                    created_at: now,
                })
                &&& lot.wf()
                &&& *final(desk) == (Desk {
                    next_consignment_id: (old(desk).next_consignment_id + 1) as u64,
                    ..*old(desk)
                })
            },
            Err(e) => {
                &&& spec_create_consignment_check(
                    old(desk),
                    amount,
                    min_discount_bps,
                    max_discount_bps,
                    min_lockup_days,
                    max_lockup_days,
                    min_deal_amount,
                    max_deal_amount,
                ) == Err::<(), OtcError>(e)
                &&& *final(desk) == *old(desk)
            },
        },
        old(desk).wf() ==> final(desk).wf(),
{
    if desk.paused {
        return Err(OtcError::Paused);
    }
    if amount == 0 {
        return Err(OtcError::AmountRange);
    }
    if min_deal_amount > max_deal_amount {
        return Err(OtcError::AmountRange);
    }
    if min_discount_bps > max_discount_bps {
        return Err(OtcError::Discount);
    }
    if min_lockup_days > max_lockup_days {
        return Err(OtcError::LockupTooLong);
    }
    let consignment_id = desk.next_consignment_id;
    let next_id = match consignment_id.checked_add(1) {
        None => {
            return Err(OtcError::Overflow);
        },
        Some(n) => n,
    };
    desk.next_consignment_id = next_id;
    Ok(
        Consignment {
            desk: desk_key,
            id: consignment_id,
            token_mint,
            consigner,
            total_amount: amount,
            remaining_amount: amount,
            is_negotiable,
            fixed_discount_bps,
            fixed_lockup_days,
            min_discount_bps,
            max_discount_bps,
            min_lockup_days,
            max_lockup_days,
            min_deal_amount,
            max_deal_amount,
            is_fractionalized,
            is_private,
            max_price_volatility_bps,
            max_time_to_execute_secs,
            is_active: true,
            created_at: now,
        },
    )
}

/// What the consigner gets back on withdrawal: all that remains of an
/// active lot. `NotOwner` for anyone but the consigner, `BadState` for an
/// inactive lot, `AmountRange` where nothing remains.
pub open spec fn spec_withdraw_consignment(consignment: &Consignment, caller: Identity) -> Result<
    u64,
    OtcError,
> {
    if consignment.consigner != caller {
        Err(OtcError::NotOwner)
    } else if !consignment.is_active {
        Err(OtcError::BadState)
    } else if consignment.remaining_amount == 0 {
        Err(OtcError::AmountRange)
    } else {
        Ok(consignment.remaining_amount)
    }
}

/// Closes a lot and returns what remains of it. On success the caller moves
/// the returned amount from the treasury to the consigner.
pub fn withdraw_consignment(consignment: &mut Consignment, caller: &Identity, _consignment_id: u64) -> (r:
    Result<u64, OtcError>)
    ensures
        r == spec_withdraw_consignment(old(consignment), *caller),
        r is Ok ==> *final(consignment) == (Consignment {
            is_active: false,
            remaining_amount: 0,
            ..*old(consignment)
        }),
        r is Err ==> *final(consignment) == *old(consignment),
        old(consignment).wf() ==> final(consignment).wf(),
        final(consignment).remaining_amount <= old(consignment).remaining_amount,
{
    if consignment.consigner != *caller {
        return Err(OtcError::NotOwner);
    }
    if !consignment.is_active {
        return Err(OtcError::BadState);
    }
    let withdraw_amount = consignment.remaining_amount;
    if withdraw_amount == 0 {
        return Err(OtcError::AmountRange);
    }
    consignment.is_active = false;
    consignment.remaining_amount = 0;
    Ok(withdraw_amount)
}

} // verus!
