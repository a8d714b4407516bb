//! The life of an offer: created against a consignment, approved, paid,
//! claimed after the lockup; or cancelled before payment; or refunded after
//! a deadline when the beneficiary never claims.
//!
//! Each transition checks everything first and changes the records only
//! once nothing can fail any more: a failed transition leaves the desk, the
//! consignment and the offer as they were.

use crate::arith::{
    discounted_usd_8d, native_asset_amount, quote_asset_amount, spec_discounted_usd_8d,
    spec_native_asset_charge, spec_quote_asset_amount,
};
use crate::consignment::{Consignment, TokenRegistry};
use crate::desk::{available_inventory, is_operator, must_be_approver, spec_available_inventory, Desk};
use crate::errors::OtcError;
use crate::events::{OfferApproved, OfferCancelled, OfferCreated, OfferPaid, TokensClaimed};
use crate::identity::Identity;
use vstd::prelude::*;

verus! {

/// The currency selector of an offer paid in the native asset.
pub const CURRENCY_SOL: u8 = 0;

/// The currency selector of an offer paid in the quote asset.
pub const CURRENCY_USDC: u8 = 1;

/// The length of a lockup day in seconds.
pub const SECONDS_PER_DAY: i64 = 86_400;

/// How long after the unlock time an unclaimed offer becomes refundable
/// whatever the desk's own deadline: 30 days.
pub const REFUND_GRACE_AFTER_UNLOCK_SECS: i64 = 2_592_000;

/// The most offers one batch may name.
pub const MAX_BATCH_OFFERS: usize = 10;

/// Where an offer stands in its life.
///
/// An offer is created, approved, paid and at last fulfilled by the
/// beneficiary's claim. It can be cancelled until it is paid; a paid offer
/// that is never claimed ends cancelled by an emergency refund.
#[derive(Clone, Copy, Debug, PartialEq, Eq, Structural)]
pub enum Stage {
    Created,
    Approved,
    Paid,
    Fulfilled,
    Cancelled,
}

/// One trade ticket.
#[derive(Clone, Copy, Debug, PartialEq, Eq)]
pub struct Offer {
    pub desk: Identity,
    pub consignment_id: u64,
    pub token_mint: Identity,
    pub id: u64,
    pub beneficiary: Identity,
    pub token_amount: u64,
    pub discount_bps: u16,
    pub created_at: i64,
    pub unlock_time: i64,
    pub price_usd_per_token_8d: u64,
    pub max_price_deviation_bps: u16,
    pub sol_usd_price_8d: u64,
    pub currency: u8,
    pub approved: bool,
    pub paid: bool,
    pub fulfilled: bool,
    pub cancelled: bool,
    pub payer: Identity,
    pub amount_paid: u64,
}

impl Offer {
    /// What holds of an offer from its creation on: a fulfilled offer was
    /// paid and is not cancelled, and a paid offer was approved. So at most
    /// one of fulfilled and cancelled ever holds.
    pub open spec fn wf(&self) -> bool {
        &&& self.fulfilled ==> self.paid && !self.cancelled
        &&& self.paid ==> self.approved
    }

    /// Paid, and neither claimed nor cancelled: the tokens are reserved and
    /// wait for the beneficiary.
    pub open spec fn awaiting_claim(&self) -> bool {
        self.paid && !self.fulfilled && !self.cancelled
    }

    /// A record that holds no offer yet: every number zero, every flag
    /// down, every identity nobody.
    pub open spec fn spec_blank() -> Offer {
        Offer {
            desk: Identity::zero(),
            consignment_id: 0,
            token_mint: Identity::zero(),
            id: 0,
            beneficiary: Identity::zero(),
            token_amount: 0,
            discount_bps: 0,
            created_at: 0,
            unlock_time: 0,
            price_usd_per_token_8d: 0,
            max_price_deviation_bps: 0,
            sol_usd_price_8d: 0,
            currency: 0,
            approved: false,
            paid: false,
            fulfilled: false,
            cancelled: false,
            payer: Identity::zero(),
            amount_paid: 0,
        }
    }

    /// A record that holds no offer yet.
    #[verifier::when_used_as_spec(spec_blank)]
    pub fn blank() -> (r: Offer)
        ensures
            r == Self::spec_blank(),
            r.wf(),
            !r.paid,
    {
        Offer {
            desk: Identity::zero(),
            consignment_id: 0,
            token_mint: Identity::zero(),
            id: 0,
            beneficiary: Identity::zero(),
            token_amount: 0,
            discount_bps: 0,
            created_at: 0,
            unlock_time: 0,
            price_usd_per_token_8d: 0,
            max_price_deviation_bps: 0,
            sol_usd_price_8d: 0,
            currency: 0,
            approved: false,
            paid: false,
            fulfilled: false,
            cancelled: false,
            payer: Identity::zero(),
            amount_paid: 0,
        }
    }

    /// The stage that the four flags stand for.
    pub open spec fn spec_stage(&self) -> Stage {
        if self.cancelled {
            Stage::Cancelled
        } else if self.fulfilled {
            Stage::Fulfilled
        } else if self.paid {
            Stage::Paid
        } else if self.approved {
            Stage::Approved
        } else {
            Stage::Created
        }
    }

    /// The stage that the four flags stand for.
    #[verifier::when_used_as_spec(spec_stage)]
    pub fn stage(&self) -> (r: Stage)
        ensures
            r == self.spec_stage(),
    {
        if self.cancelled {
            Stage::Cancelled
        } else if self.fulfilled {
            Stage::Fulfilled
        } else if self.paid {
            Stage::Paid
        } else if self.approved {
            Stage::Approved
        } else {
            Stage::Created
        }
    }
}

/// The whole days in a lockup that is not negative.
pub open spec fn spec_lockup_days(lockup_secs: i64) -> int
    recommends
        lockup_secs >= 0,
{
    lockup_secs / SECONDS_PER_DAY
}

/// Whether a consignment takes a lockup: it is not negative, and its whole
/// days are within the lot's range on a negotiable lot, or are the lot's
/// fixed days on a fixed one.
pub open spec fn spec_lockup_is_taken(consignment: &Consignment, lockup_secs: i64) -> bool {
    let lockup_days = spec_lockup_days(lockup_secs);
    &&& lockup_secs >= 0
    &&& if consignment.is_negotiable {
        consignment.min_lockup_days <= lockup_days <= consignment.max_lockup_days
    } else {
        lockup_days == consignment.fixed_lockup_days
    }
}

/// Whether a consignment takes a discount: within the lot's range on a
/// negotiable lot, the lot's fixed discount on a fixed one.
pub open spec fn spec_discount_is_taken(consignment: &Consignment, discount_bps: u16) -> bool {
    if consignment.is_negotiable {
        consignment.min_discount_bps <= discount_bps <= consignment.max_discount_bps
    } else {
        discount_bps == consignment.fixed_discount_bps
    }
}

/// Whether a consignment takes an offer of the given terms.
///
/// The lot must be active (`BadState`). The amount must be within the
/// lot's deal bounds (`AmountRange`) and within what remains (`InsuffInv`).
/// The lot must take the discount (`Discount`) and the lockup
/// (`LockupTooLong`); a negative lockup is never taken.
pub open spec fn spec_offer_terms_check(
    consignment: &Consignment,
    token_amount: u64,
    discount_bps: u16,
    lockup_secs: i64,
) -> Result<(), OtcError> {
    if !consignment.is_active {
        Err(OtcError::BadState)
    } else if token_amount < consignment.min_deal_amount || token_amount
        > consignment.max_deal_amount {
        Err(OtcError::AmountRange)
    } else if token_amount > consignment.remaining_amount {
        Err(OtcError::InsuffInv)
    } else if !spec_discount_is_taken(consignment, discount_bps) {
        Err(OtcError::Discount)
    } else if !spec_lockup_is_taken(consignment, lockup_secs) {
        Err(OtcError::LockupTooLong)
    } else {
        Ok(())
    }
}

/// Whether the token has a usable price at the time `now`: one is on record
/// (`NoPrice`) and, if it was ever stamped, it is no older than the desk's
/// maximum age (`StalePrice`).
pub open spec fn spec_price_check(desk: &Desk, registry: &TokenRegistry, now: i64) -> Result<
    (),
    OtcError,
> {
    if registry.token_usd_price_8d == 0 {
        Err(OtcError::NoPrice)
    } else if registry.prices_updated_at > 0 && now - registry.prices_updated_at
        > desk.max_price_age_secs {
        Err(OtcError::StalePrice)
    } else {
        Ok(())
    }
}

/// Whether an offer can be created, in the order in which the failures are
/// reported: the desk is paused, the currency is unknown, the consignment
/// refuses the terms ([`spec_offer_terms_check`]), the price is missing or
/// stale ([`spec_price_check`]), the discounted value overflows or is below
/// the desk minimum (`MinUsd`), the desk has no offer id left, the unlock
/// time does not fit (`Overflow`), the record to write holds a paid offer
/// (`BadState`).
pub open spec fn spec_create_offer_check(
    desk: &Desk,
    consignment: &Consignment,
    registry: &TokenRegistry,
    record: &Offer,
    token_amount: u64,
    discount_bps: u16,
    currency: u8,
    lockup_secs: i64,
    now: i64,
) -> Result<(), OtcError> {
    if desk.paused {
        Err(OtcError::Paused)
    } else if currency != CURRENCY_SOL && currency != CURRENCY_USDC {
        Err(OtcError::UnsupportedCurrency)
    } else if spec_offer_terms_check(consignment, token_amount, discount_bps, lockup_secs)
        is Err {
        spec_offer_terms_check(consignment, token_amount, discount_bps, lockup_secs)
    } else if spec_price_check(desk, registry, now) is Err {
        spec_price_check(desk, registry, now)
    } else {
        match spec_discounted_usd_8d(
            token_amount,
            registry.token_usd_price_8d,
            registry.decimals,
            discount_bps,
        ) {
            Err(e) => Err(e),
            Ok(total_usd) => if total_usd < desk.min_usd_amount_8d {
                Err(OtcError::MinUsd)
            } else if desk.next_offer_id + 1 > u64::MAX {
                Err(OtcError::Overflow)
            } else if now + lockup_secs > i64::MAX || now + lockup_secs < i64::MIN {
                Err(OtcError::Overflow)
            } else if record.paid {
                Err(OtcError::BadState)
            } else {
                Ok(())
            },
        }
    }
}

/// The offer that a successful creation records. Both prices are frozen
/// here: the token's from the registry, and for an offer in the native
/// asset the desk's native-asset price.
pub open spec fn spec_new_offer(
    desk: &Desk,
    desk_key: Identity,
    consignment: &Consignment,
    registry: &TokenRegistry,
    consignment_id: u64,
    beneficiary: Identity,
    token_amount: u64,
    discount_bps: u16,
    currency: u8,
    lockup_secs: i64,
    now: i64,
) -> Offer {
    Offer {
        desk: desk_key,
        consignment_id,
        token_mint: consignment.token_mint,
        id: desk.next_offer_id,
        beneficiary,
        token_amount,
        discount_bps,
        created_at: now,
        unlock_time: (now + lockup_secs) as i64,
        price_usd_per_token_8d: registry.token_usd_price_8d,
        max_price_deviation_bps: consignment.max_price_volatility_bps,
        sol_usd_price_8d: if currency == CURRENCY_SOL {
            desk.sol_usd_price_8d
        } else {
            0
        },
        currency,
        approved: false,
        paid: false,
        fulfilled: false,
        cancelled: false,
        payer: Identity::zero(),
        amount_paid: 0,
    }
}

/// The consignment after an offer has drawn `token_amount` from it; a lot
/// drawn down to nothing is closed.
pub open spec fn spec_drawn_down(consignment: Consignment, token_amount: u64) -> Consignment {
    Consignment {
        remaining_amount: (consignment.remaining_amount - token_amount) as u64,
        is_active: consignment.remaining_amount - token_amount != 0,
        ..consignment
    }
}

/// On a negotiable lot, terms within the lot's bounds are taken, and terms
/// outside them are refused with the error of the first bound they break:
/// the deal size, what remains, the discount range, the lockup range. A
/// negative lockup is outside every range.
pub proof fn lemma_negotiable_terms(
    consignment: &Consignment,
    token_amount: u64,
    discount_bps: u16,
    lockup_secs: i64,
)
    requires
        consignment.is_active,
        consignment.is_negotiable,
    ensures
        ({
            let amount_ok = consignment.min_deal_amount <= token_amount
                <= consignment.max_deal_amount;
            let remains = token_amount <= consignment.remaining_amount;
            let discount_ok = consignment.min_discount_bps <= discount_bps
                <= consignment.max_discount_bps;
            let lockup_ok = lockup_secs >= 0 && consignment.min_lockup_days * SECONDS_PER_DAY
                <= lockup_secs < (consignment.max_lockup_days + 1) * SECONDS_PER_DAY;
            let verdict = spec_offer_terms_check(
                consignment,
                token_amount,
                discount_bps,
                lockup_secs,
            );
            &&& verdict is Ok <==> amount_ok && remains && discount_ok && lockup_ok
            &&& !amount_ok ==> verdict == Err::<(), OtcError>(OtcError::AmountRange)
            &&& amount_ok && !remains ==> verdict == Err::<(), OtcError>(OtcError::InsuffInv)
            &&& amount_ok && remains && !discount_ok ==> verdict == Err::<(), OtcError>(
                OtcError::Discount,
            )
            &&& amount_ok && remains && discount_ok && !lockup_ok ==> verdict == Err::<
                (),
                OtcError,
            >(OtcError::LockupTooLong)
        }),
{
}

/// Creation against a negotiable lot succeeds for all terms within the
/// lot's bounds, provided nothing else stands in the way: the desk is not
/// paused, the currency is known, the price is there and fresh, the
/// discounted value reaches the desk minimum, neither the offer id nor the
/// unlock time overflows, and the record to write holds no paid offer. The
/// lot then holds exactly `token_amount` less. Terms outside the bounds fail
/// with the error of the bound.
pub proof fn lemma_create_offer_within_bounds(
    desk: &Desk,
    consignment: &Consignment,
    registry: &TokenRegistry,
    record: &Offer,
    token_amount: u64,
    discount_bps: u16,
    currency: u8,
    lockup_secs: i64,
    now: i64,
)
    requires
        !desk.paused,
        currency == CURRENCY_SOL || currency == CURRENCY_USDC,
        consignment.is_active,
        consignment.is_negotiable,
    ensures
        ({
            let in_bounds = {
                &&& consignment.min_deal_amount <= token_amount <= consignment.max_deal_amount
                &&& token_amount <= consignment.remaining_amount
                &&& consignment.min_discount_bps <= discount_bps <= consignment.max_discount_bps
                &&& lockup_secs >= 0
                &&& consignment.min_lockup_days <= spec_lockup_days(lockup_secs)
                    <= consignment.max_lockup_days
            };
            let unhindered = {
                &&& spec_price_check(desk, registry, now) is Ok
                &&& spec_discounted_usd_8d(
                    token_amount,
                    registry.token_usd_price_8d,
                    registry.decimals,
                    discount_bps,
                ) matches Ok(total_usd) && total_usd >= desk.min_usd_amount_8d
                &&& desk.next_offer_id < u64::MAX
                &&& now + lockup_secs <= i64::MAX
                &&& !record.paid
            };
            let verdict = spec_create_offer_check(
                desk,
                consignment,
                registry,
                record,
                token_amount,
                discount_bps,
                currency,
                lockup_secs,
                now,
            );
            &&& in_bounds && unhindered ==> verdict is Ok
            &&& in_bounds ==> spec_drawn_down(*consignment, token_amount).remaining_amount
                == consignment.remaining_amount - token_amount
            &&& !in_bounds ==> verdict is Err && verdict == spec_offer_terms_check(
                consignment,
                token_amount,
                discount_bps,
                lockup_secs,
            )
        }),
{
    lemma_negotiable_terms(consignment, token_amount, discount_bps, lockup_secs);
}

/// No lot takes a negative lockup: whatever its policy, the terms are
/// refused, and with `LockupTooLong` where amount and discount are in
/// order. So no offer unlocks before it was created.
pub proof fn lemma_negative_lockup_is_refused(
    consignment: &Consignment,
    token_amount: u64,
    discount_bps: u16,
    lockup_secs: i64,
)
    requires
        lockup_secs < 0,
    ensures
        spec_offer_terms_check(consignment, token_amount, discount_bps, lockup_secs) is Err,
        consignment.is_active && consignment.min_deal_amount <= token_amount
            <= consignment.max_deal_amount && token_amount <= consignment.remaining_amount
            && spec_discount_is_taken(consignment, discount_bps) ==> spec_offer_terms_check(
            consignment,
            token_amount,
            discount_bps,
            lockup_secs,
        ) == Err::<(), OtcError>(OtcError::LockupTooLong),
{
}

/// The run-time form of [`spec_offer_terms_check`].
fn offer_terms_check(
    consignment: &Consignment,
    token_amount: u64,
    discount_bps: u16,
    lockup_secs: i64,
) -> (r: Result<(), OtcError>)
    ensures
        r == spec_offer_terms_check(consignment, token_amount, discount_bps, lockup_secs),
{
    if !consignment.is_active {
        return Err(OtcError::BadState);
    }
    if !(token_amount >= consignment.min_deal_amount && token_amount
        <= consignment.max_deal_amount) {
        return Err(OtcError::AmountRange);
    }
    if token_amount > consignment.remaining_amount {
        return Err(OtcError::InsuffInv);
    }
    if consignment.is_negotiable {
        if !(discount_bps >= consignment.min_discount_bps && discount_bps
            <= consignment.max_discount_bps) {
            return Err(OtcError::Discount);
        }
    } else {
        if discount_bps != consignment.fixed_discount_bps {
            return Err(OtcError::Discount);
        }
    }
    if lockup_secs < 0 {
        return Err(OtcError::LockupTooLong);
    }
    let lockup_days: i64 = lockup_secs / SECONDS_PER_DAY;
    if consignment.is_negotiable {
        if !(lockup_days >= consignment.min_lockup_days as i64 && lockup_days
            <= consignment.max_lockup_days as i64) {
            return Err(OtcError::LockupTooLong);
        }
    } else {
        if lockup_days != consignment.fixed_lockup_days as i64 {
            return Err(OtcError::LockupTooLong);
        }
    }
    Ok(())
}

/// The run-time form of [`spec_price_check`].
fn price_check(desk: &Desk, registry: &TokenRegistry, now: i64) -> (r: Result<(), OtcError>)
    ensures
        r == spec_price_check(desk, registry, now),
{
    if registry.token_usd_price_8d == 0 {
        return Err(OtcError::NoPrice);
    }
    if registry.prices_updated_at > 0 {
        let age: i128 = now as i128 - registry.prices_updated_at as i128;
        if age > desk.max_price_age_secs as i128 {
            return Err(OtcError::StalePrice);
        }
    }
    Ok(())
}

/// Creates an offer for `beneficiary` against a consignment, at the price
/// on record at the time `now`, and draws the amount from the lot.
///
/// `offer` is the record to write, with what it holds now: a blank record,
/// or an earlier offer that was never paid. A record that holds a paid
/// offer is not written over. `desk_key` and `offer_key` are the addresses
/// of the desk and of the record. Returns the notification to publish.
pub fn create_offer_from_consignment(
    desk: &mut Desk,
    consignment: &mut Consignment,
    registry: &TokenRegistry,
    offer: &mut Offer,
    desk_key: Identity,
    offer_key: Identity,
    beneficiary: Identity,
    now: i64,
    consignment_id: u64,
    token_amount: u64,
    discount_bps: u16,
    currency: u8,
    lockup_secs: i64,
) -> (r: Result<OfferCreated, OtcError>)
    ensures
        match r {
            Ok(event) => {
                &&& spec_create_offer_check(
                    old(desk),
                    old(consignment),
                    registry,
                    old(offer),
                    token_amount,
                    discount_bps,
                    currency,
                    lockup_secs,
                    now,
                ) is Ok
                &&& *final(offer) == spec_new_offer(
                    old(desk),
                    desk_key,
                    old(consignment),
                    registry,
                    consignment_id,
                    beneficiary,
                    token_amount,
                    discount_bps,
                    currency,
                    lockup_secs,
                    now,
                )
                &&& final(offer).wf()
                &&& final(offer).unlock_time >= final(offer).created_at
                &&& event == (OfferCreated {
                    desk: desk_key,
                    offer: offer_key,
                    beneficiary,
                    token_amount,
                    discount_bps,
                    currency,
                })
                &&& *final(consignment) == spec_drawn_down(*old(consignment), token_amount)
                &&& final(consignment).remaining_amount == old(consignment).remaining_amount
                    - token_amount
                &&& *final(desk) == (Desk {
                    next_offer_id: (old(desk).next_offer_id + 1) as u64,
                    ..*old(desk)
                })
            },
            Err(e) => {
                &&& spec_create_offer_check(
                    old(desk),
                    old(consignment),
                    registry,
                    old(offer),
                    token_amount,
                    discount_bps,
                    currency,
                    lockup_secs,
                    now,
                ) == Err::<(), OtcError>(e)
                &&& *final(offer) == *old(offer)
                &&& *final(consignment) == *old(consignment)
                &&& *final(desk) == *old(desk)
            },
        },
        old(desk).wf() ==> final(desk).wf(),
        old(consignment).wf() ==> final(consignment).wf(),
        final(consignment).remaining_amount <= old(consignment).remaining_amount,
        old(offer).paid ==> final(offer).paid,
{
    if desk.paused {
        return Err(OtcError::Paused);
    }
    if !(currency == CURRENCY_SOL || currency == CURRENCY_USDC) {
        return Err(OtcError::UnsupportedCurrency);
    }
    offer_terms_check(consignment, token_amount, discount_bps, lockup_secs)?;
    price_check(desk, registry, now)?;
    let price_8d = registry.token_usd_price_8d;
    let total_usd_disc = discounted_usd_8d(token_amount, price_8d, registry.decimals, discount_bps)?;
    if total_usd_disc < desk.min_usd_amount_8d {
        return Err(OtcError::MinUsd);
    }
    let remaining = consignment.remaining_amount - token_amount;
    let offer_id = desk.next_offer_id;
    let next_offer_id = match offer_id.checked_add(1) {
        None => {
            return Err(OtcError::Overflow);
        },
        Some(n) => n,
    };
    let unlock_time = match now.checked_add(lockup_secs) {
        None => {
            return Err(OtcError::Overflow);
        },
        Some(t) => t,
    };
    if offer.paid {
        return Err(OtcError::BadState);
    }
    consignment.remaining_amount = remaining;
    if remaining == 0 {
        consignment.is_active = false;
    }
    desk.next_offer_id = next_offer_id;
    *offer = Offer {
        desk: desk_key,
        consignment_id,
        token_mint: consignment.token_mint,
        id: offer_id,
        beneficiary,
        token_amount,
        discount_bps,
        created_at: now,
        unlock_time,
        price_usd_per_token_8d: price_8d,
        max_price_deviation_bps: consignment.max_price_volatility_bps,
        sol_usd_price_8d: if currency == CURRENCY_SOL {
            desk.sol_usd_price_8d
        } else {
            0
        },
        currency,
        approved: false,
        paid: false,
        fulfilled: false,
        cancelled: false,
        payer: Identity::zero(),
        amount_paid: 0,
    };
    let event = OfferCreated {
        desk: desk_key,
        offer: offer_key,
        beneficiary,
        token_amount,
        discount_bps,
        currency,
    };
    Ok(event)
}

/// Whether `approver` may approve the offer: the desk is not paused, the
/// caller is agent or approver (`NotApprover`), the offer is neither
/// cancelled nor paid (`BadState`) and not approved yet
/// (`AlreadyApproved`).
pub open spec fn spec_approve_offer_check(desk: &Desk, offer: &Offer, approver: Identity) -> Result<
    (),
    OtcError,
> {
    if desk.paused {
        Err(OtcError::Paused)
    } else if !desk.is_approver(approver) {
        Err(OtcError::NotApprover)
    } else if offer.cancelled || offer.paid {
        Err(OtcError::BadState)
    } else if offer.approved {
        Err(OtcError::AlreadyApproved)
    } else {
        Ok(())
    }
}

/// The offer once approved.
pub open spec fn spec_approved(offer: Offer) -> Offer {
    Offer { approved: true, ..offer }
}

/// The offer after an attempt to approve it: approved where the attempt
/// goes through, untouched where it fails.
pub open spec fn spec_after_approve(desk: &Desk, offer: Offer, approver: Identity) -> Offer {
    if spec_approve_offer_check(desk, &offer, approver) is Ok {
        spec_approved(offer)
    } else {
        offer
    }
}

/// Approves an offer.
pub fn approve_offer(
    desk: &Desk,
    offer: &mut Offer,
    offer_key: Identity,
    approver: &Identity,
    _offer_id: u64,
) -> (r: Result<OfferApproved, OtcError>)
    ensures
        match r {
            Ok(event) => {
                &&& spec_approve_offer_check(desk, old(offer), *approver) is Ok
                &&& *final(offer) == spec_approved(*old(offer))
                &&& event == (OfferApproved { offer: offer_key, approver: *approver })
            },
            Err(e) => {
                &&& spec_approve_offer_check(desk, old(offer), *approver) == Err::<(), OtcError>(e)
                &&& *final(offer) == *old(offer)
            },
        },
        *final(offer) == spec_after_approve(desk, *old(offer), *approver),
        old(offer).wf() ==> final(offer).wf(),
        old(offer).paid ==> final(offer).paid,
{
    if desk.paused {
        return Err(OtcError::Paused);
    }
    must_be_approver(desk, approver)?;
    if !(!offer.cancelled && !offer.paid) {
        return Err(OtcError::BadState);
    }
    if offer.approved {
        return Err(OtcError::AlreadyApproved);
    }
    offer.approved = true;
    Ok(OfferApproved { offer: offer_key, approver: *approver })
}

/// Approving twice fails the second time: once an approval has gone
/// through, another attempt on the same desk by the same approver is
/// refused with `AlreadyApproved`, and the offer stays as the first
/// approval left it.
pub proof fn lemma_approve_twice(desk: &Desk, offer: Offer, approver: Identity)
    requires
        spec_approve_offer_check(desk, &offer, approver) is Ok,
    ensures
        ({
            let once = spec_after_approve(desk, offer, approver);
            &&& spec_approve_offer_check(desk, &once, approver) == Err::<(), OtcError>(
                OtcError::AlreadyApproved,
            )
            &&& spec_after_approve(desk, once, approver) == once
        }),
{
}

/// Whether `caller` may cancel the offer at the time `now`.
///
/// The desk must not be paused and the offer neither paid nor fulfilled
/// (`BadState`). Owner, agent and approvers may cancel at any time, also
/// where one of them is the beneficiary. A beneficiary who is none of them
/// may cancel once the quote has expired (`NotExpired` before; `Overflow`
/// where the expiry time does not fit). Anyone else is refused with
/// `NotApprover`.
pub open spec fn spec_cancel_offer_check(desk: &Desk, offer: &Offer, caller: Identity, now: i64) -> Result<
    (),
    OtcError,
> {
    if desk.paused {
        Err(OtcError::Paused)
    } else if offer.paid || offer.fulfilled {
        Err(OtcError::BadState)
    } else if desk.is_operator(caller) {
        Ok(())
    } else if caller == offer.beneficiary {
        if offer.created_at + desk.quote_expiry_secs > i64::MAX || offer.created_at
            + desk.quote_expiry_secs < i64::MIN {
            Err(OtcError::Overflow)
        } else if now < offer.created_at + desk.quote_expiry_secs {
            Err(OtcError::NotExpired)
        } else {
            Ok(())
        }
    } else {
        Err(OtcError::NotApprover)
    }
}

/// Owner, agent and approvers cancel an unpaid offer at any time, whoever
/// its beneficiary is.
pub proof fn lemma_operator_cancels_at_any_time(
    desk: &Desk,
    offer: &Offer,
    caller: Identity,
    now: i64,
)
    requires
        !desk.paused,
        !offer.paid,
        !offer.fulfilled,
        desk.is_operator(caller),
    ensures
        spec_cancel_offer_check(desk, offer, caller, now) is Ok,
{
}

/// The offer once cancelled.
pub open spec fn spec_cancelled(offer: Offer) -> Offer {
    Offer { cancelled: true, ..offer }
}

/// Cancels an unpaid offer.
pub fn cancel_offer(desk: &Desk, offer: &mut Offer, offer_key: Identity, caller: &Identity, now: i64) -> (r:
    Result<OfferCancelled, OtcError>)
    ensures
        match r {
            Ok(event) => {
                &&& spec_cancel_offer_check(desk, old(offer), *caller, now) is Ok
                &&& *final(offer) == spec_cancelled(*old(offer))
                &&& event == (OfferCancelled { offer: offer_key, by: *caller })
            },
            Err(e) => {
                &&& spec_cancel_offer_check(desk, old(offer), *caller, now) == Err::<(), OtcError>(
                    e,
                )
                &&& *final(offer) == *old(offer)
            },
        },
        old(offer).wf() ==> final(offer).wf(),
        old(offer).paid ==> final(offer).paid,
        old(offer).fulfilled ==> r is Err,
{
    if desk.paused {
        return Err(OtcError::Paused);
    }
    if !(!offer.paid && !offer.fulfilled) {
        return Err(OtcError::BadState);
    }
    if !is_operator(desk, caller) {
        if *caller != offer.beneficiary {
            return Err(OtcError::NotApprover);
        }
        let expiry = match offer.created_at.checked_add(desk.quote_expiry_secs) {
            None => {
                return Err(OtcError::Overflow);
            },
            Some(t) => t,
        };
        if now < expiry {
            return Err(OtcError::NotExpired);
        }
    }
    offer.cancelled = true;
    Ok(OfferCancelled { offer: offer_key, by: *caller })
}

/// What payment of an offer in `currency` is worth in USD, or why the
/// offer cannot be paid by `payer` at the time `now`.
///
/// In the order of the failures: the desk is paused; the offer is in
/// another currency (`BadState`); it is not approved (`NotApproved`); it is
/// cancelled, paid or fulfilled (`BadState`); the quote has expired
/// (`Expired`; `Overflow` where the expiry time does not fit); the live
/// treasury holds fewer unreserved tokens than the offer is for
/// (`InsuffInv`); payment is restricted and the payer is neither the
/// beneficiary nor an operator (`FulfillRestricted`); the discounted value
/// at the frozen price overflows.
pub open spec fn spec_payment_due_usd(
    desk: &Desk,
    offer: &Offer,
    payer: Identity,
    treasury_balance: u64,
    now: i64,
    currency: u8,
) -> Result<u64, OtcError> {
    if desk.paused {
        Err(OtcError::Paused)
    } else if offer.currency != currency {
        Err(OtcError::BadState)
    } else if !offer.approved {
        Err(OtcError::NotApproved)
    } else if offer.cancelled || offer.paid || offer.fulfilled {
        Err(OtcError::BadState)
    } else if offer.created_at + desk.quote_expiry_secs > i64::MAX || offer.created_at
        + desk.quote_expiry_secs < i64::MIN {
        Err(OtcError::Overflow)
    } else if now > offer.created_at + desk.quote_expiry_secs {
        Err(OtcError::Expired)
    } else if spec_available_inventory(desk.token_reserved as int, treasury_balance as int)
        < offer.token_amount {
        Err(OtcError::InsuffInv)
    } else if desk.restrict_fulfill && !(payer == offer.beneficiary || desk.is_operator(payer)) {
        Err(OtcError::FulfillRestricted)
    } else {
        spec_discounted_usd_8d(
            offer.token_amount,
            offer.price_usd_per_token_8d,
            desk.token_decimals,
            offer.discount_bps,
        )
    }
}

/// The native-asset price an offer is paid at: the one frozen in the
/// offer, or the desk's where none was frozen.
pub open spec fn spec_native_price(desk: &Desk, offer: &Offer) -> u64 {
    if offer.sol_usd_price_8d > 0 {
        offer.sol_usd_price_8d
    } else {
        desk.sol_usd_price_8d
    }
}

/// What `payer` owes for the offer in quote-asset units:
/// [`spec_payment_due_usd`] in six decimals, rounded up.
pub open spec fn spec_fulfill_offer_usdc(
    desk: &Desk,
    offer: &Offer,
    payer: Identity,
    treasury_balance: u64,
    now: i64,
) -> Result<u64, OtcError> {
    match spec_payment_due_usd(desk, offer, payer, treasury_balance, now, CURRENCY_USDC) {
        Err(e) => Err(e),
        Ok(usd_8d) => Ok(spec_quote_asset_amount(usd_8d) as u64),
    }
}

/// What `payer` owes for the offer in native-asset units:
/// [`spec_payment_due_usd`] at [`spec_native_price`], rounded up; `NoPrice`
/// where that price is zero; `Overflow` where the charge does not fit.
pub open spec fn spec_fulfill_offer_sol(
    desk: &Desk,
    offer: &Offer,
    payer: Identity,
    treasury_balance: u64,
    now: i64,
) -> Result<u64, OtcError> {
    match spec_payment_due_usd(desk, offer, payer, treasury_balance, now, CURRENCY_SOL) {
        Err(e) => Err(e),
        Ok(usd_8d) => if spec_native_price(desk, offer) == 0 {
            Err(OtcError::NoPrice)
        } else {
            spec_native_asset_charge(usd_8d, spec_native_price(desk, offer))
        },
    }
}

/// An offer that can be paid leaves room in the reserved total: its
/// tokens, added to what is reserved, are covered by the treasury's
/// balance.
pub proof fn lemma_payable_offer_can_be_reserved(
    desk: &Desk,
    offer: &Offer,
    payer: Identity,
    treasury_balance: u64,
    now: i64,
    currency: u8,
)
    requires
        spec_payment_due_usd(desk, offer, payer, treasury_balance, now, currency) is Ok,
    ensures
        desk.token_reserved + offer.token_amount <= u64::MAX,
        offer.token_amount > 0 ==> desk.token_reserved + offer.token_amount <= treasury_balance,
{
}

/// The offer once `payer` has paid `amount`.
pub open spec fn spec_paid(offer: Offer, payer: Identity, amount: u64) -> Offer {
    Offer { amount_paid: amount, payer, paid: true, ..offer }
}

/// The desk once the tokens of a paid offer are reserved.
pub open spec fn spec_reserved(desk: Desk, token_amount: u64) -> Desk {
    Desk { token_reserved: (desk.token_reserved + token_amount) as u64, ..desk }
}

/// The desk once the reservation of an offer is released.
pub open spec fn spec_released(desk: Desk, token_amount: u64) -> Desk {
    Desk { token_reserved: (desk.token_reserved - token_amount) as u64, ..desk }
}

/// The run-time form of [`spec_payment_due_usd`].
fn payment_due_usd(
    desk: &Desk,
    offer: &Offer,
    payer: &Identity,
    treasury_balance: u64,
    now: i64,
    currency: u8,
) -> (r: Result<u64, OtcError>)
    ensures
        r == spec_payment_due_usd(desk, offer, *payer, treasury_balance, now, currency),
{
    if desk.paused {
        return Err(OtcError::Paused);
    }
    if offer.currency != currency {
        return Err(OtcError::BadState);
    }
    if !offer.approved {
        return Err(OtcError::NotApproved);
    }
    if !(!offer.cancelled && !offer.paid && !offer.fulfilled) {
        return Err(OtcError::BadState);
    }
    let expiry = match offer.created_at.checked_add(desk.quote_expiry_secs) {
        None => {
            return Err(OtcError::Overflow);
        },
        Some(t) => t,
    };
    if now > expiry {
        return Err(OtcError::Expired);
    }
    let available = available_inventory(desk, treasury_balance);
    if available < offer.token_amount {
        return Err(OtcError::InsuffInv);
    }
    if desk.restrict_fulfill {
        if !(*payer == offer.beneficiary || is_operator(desk, payer)) {
            return Err(OtcError::FulfillRestricted);
        }
    }
    discounted_usd_8d(
        offer.token_amount,
        offer.price_usd_per_token_8d,
        desk.token_decimals,
        offer.discount_bps,
    )
}

/// Pays an offer in the quote asset and reserves its tokens.
///
/// `treasury_balance` is the live token balance of the treasury. On success
/// the caller moves the notification's `amount` of quote asset from the
/// payer to the desk.
pub fn fulfill_offer_usdc(
    desk: &mut Desk,
    offer: &mut Offer,
    offer_key: Identity,
    payer: &Identity,
    treasury_balance: u64,
    now: i64,
    _offer_id: u64,
) -> (r: Result<OfferPaid, OtcError>)
    ensures
        match r {
            Ok(event) => {
                &&& spec_fulfill_offer_usdc(old(desk), old(offer), *payer, treasury_balance, now)
                    == Ok::<u64, OtcError>(event.amount)
                &&& event == (OfferPaid {
                    offer: offer_key,
                    payer: *payer,
                    amount: event.amount,
                    currency: CURRENCY_USDC,
                })
                &&& *final(offer) == spec_paid(*old(offer), *payer, event.amount)
                &&& *final(desk) == spec_reserved(*old(desk), old(offer).token_amount)
            },
            Err(e) => {
                &&& spec_fulfill_offer_usdc(old(desk), old(offer), *payer, treasury_balance, now)
                    == Err::<u64, OtcError>(e)
                &&& *final(offer) == *old(offer)
                &&& *final(desk) == *old(desk)
            },
        },
        old(offer).wf() ==> final(offer).wf(),
        old(desk).wf() ==> final(desk).wf(),
        old(offer).paid ==> final(offer).paid,
{
    let usd_8d = payment_due_usd(desk, offer, payer, treasury_balance, now, CURRENCY_USDC)?;
    let usdc_amount = quote_asset_amount(usd_8d)?;
    proof {
        lemma_payable_offer_can_be_reserved(
            desk,
            offer,
            *payer,
            treasury_balance,
            now,
            CURRENCY_USDC,
        );
    }
    offer.amount_paid = usdc_amount;
    offer.payer = *payer;
    offer.paid = true;
    desk.token_reserved = desk.token_reserved + offer.token_amount;
    Ok(OfferPaid { offer: offer_key, payer: *payer, amount: usdc_amount, currency: CURRENCY_USDC })
}

/// Pays an offer in the native asset and reserves its tokens.
///
/// `treasury_balance` is the live token balance of the treasury. On success
/// the caller moves the notification's `amount` of native asset from the
/// payer to the desk.
pub fn fulfill_offer_sol(
    desk: &mut Desk,
    offer: &mut Offer,
    offer_key: Identity,
    payer: &Identity,
    treasury_balance: u64,
    now: i64,
    _offer_id: u64,
) -> (r: Result<OfferPaid, OtcError>)
    ensures
        match r {
            Ok(event) => {
                &&& spec_fulfill_offer_sol(old(desk), old(offer), *payer, treasury_balance, now)
                    == Ok::<u64, OtcError>(event.amount)
                &&& event == (OfferPaid {
                    offer: offer_key,
                    payer: *payer,
                    amount: event.amount,
                    currency: CURRENCY_SOL,
                })
                &&& *final(offer) == spec_paid(*old(offer), *payer, event.amount)
                &&& *final(desk) == spec_reserved(*old(desk), old(offer).token_amount)
            },
            Err(e) => {
                &&& spec_fulfill_offer_sol(old(desk), old(offer), *payer, treasury_balance, now)
                    == Err::<u64, OtcError>(e)
                &&& *final(offer) == *old(offer)
                &&& *final(desk) == *old(desk)
            },
        },
        old(offer).wf() ==> final(offer).wf(),
        old(desk).wf() ==> final(desk).wf(),
        old(offer).paid ==> final(offer).paid,
{
    let usd_8d = payment_due_usd(desk, offer, payer, treasury_balance, now, CURRENCY_SOL)?;
    let sol_usd = if offer.sol_usd_price_8d > 0 {
        offer.sol_usd_price_8d
    } else {
        desk.sol_usd_price_8d
    };
    if sol_usd == 0 {
        return Err(OtcError::NoPrice);
    }
    let lamports_req = native_asset_amount(usd_8d, sol_usd)?;
    proof {
        lemma_payable_offer_can_be_reserved(desk, offer, *payer, treasury_balance, now, CURRENCY_SOL);
    }
    offer.amount_paid = lamports_req;
    offer.payer = *payer;
    offer.paid = true;
    desk.token_reserved = desk.token_reserved + offer.token_amount;
    Ok(OfferPaid { offer: offer_key, payer: *payer, amount: lamports_req, currency: CURRENCY_SOL })
}

/// Whether `beneficiary` may claim the offer at the time `now`.
///
/// In the order of the failures: the desk is paused; the desk's own
/// signature is missing (`NotOwner`); the claimant is not the offer's
/// beneficiary (`NotOwner`); the offer is not paid, or is cancelled or
/// claimed already (`BadState`); the lockup has not ended (`Locked`); the
/// reserved total is less than the offer's tokens (`Overflow`).
pub open spec fn spec_claim_check(
    desk: &Desk,
    offer: &Offer,
    desk_key: Identity,
    desk_signer: Identity,
    beneficiary: Identity,
    now: i64,
) -> Result<(), OtcError> {
    if desk.paused {
        Err(OtcError::Paused)
    } else if desk_signer != desk_key {
        Err(OtcError::NotOwner)
    } else if beneficiary != offer.beneficiary {
        Err(OtcError::NotOwner)
    } else if !offer.awaiting_claim() {
        Err(OtcError::BadState)
    } else if now < offer.unlock_time {
        Err(OtcError::Locked)
    } else if desk.token_reserved < offer.token_amount {
        Err(OtcError::Overflow)
    } else {
        Ok(())
    }
}

/// The offer once claimed.
pub open spec fn spec_claimed(offer: Offer) -> Offer {
    Offer { fulfilled: true, ..offer }
}

/// Releases the tokens of a paid offer to its beneficiary once the lockup
/// has ended. On success the caller moves the notification's `amount` of
/// tokens from the treasury to the beneficiary.
pub fn claim(
    desk: &mut Desk,
    offer: &mut Offer,
    offer_key: Identity,
    desk_key: &Identity,
    desk_signer: &Identity,
    beneficiary: &Identity,
    now: i64,
    _offer_id: u64,
) -> (r: Result<TokensClaimed, OtcError>)
    ensures
        match r {
            Ok(event) => {
                &&& spec_claim_check(
                    old(desk),
                    old(offer),
                    *desk_key,
                    *desk_signer,
                    *beneficiary,
                    now,
                ) is Ok
                &&& event == (TokensClaimed {
                    offer: offer_key,
                    beneficiary: old(offer).beneficiary,
                    amount: old(offer).token_amount,
                })
                &&& *final(offer) == spec_claimed(*old(offer))
                &&& *final(desk) == spec_released(*old(desk), old(offer).token_amount)
            },
            Err(e) => {
                &&& spec_claim_check(
                    old(desk),
                    old(offer),
                    *desk_key,
                    *desk_signer,
                    *beneficiary,
                    now,
                ) == Err::<(), OtcError>(e)
                &&& *final(offer) == *old(offer)
                &&& *final(desk) == *old(desk)
            },
        },
        old(offer).wf() ==> final(offer).wf(),
        old(desk).wf() ==> final(desk).wf(),
        old(offer).paid ==> final(offer).paid,
{
    if desk.paused {
        return Err(OtcError::Paused);
    }
    if *desk_signer != *desk_key {
        return Err(OtcError::NotOwner);
    }
    if *beneficiary != offer.beneficiary {
        return Err(OtcError::NotOwner);
    }
    if !(offer.paid && !offer.cancelled && !offer.fulfilled) {
        return Err(OtcError::BadState);
    }
    if now < offer.unlock_time {
        return Err(OtcError::Locked);
    }
    let reserved = match desk.token_reserved.checked_sub(offer.token_amount) {
        None => {
            return Err(OtcError::Overflow);
        },
        Some(rest) => rest,
    };
    desk.token_reserved = reserved;
    offer.fulfilled = true;
    Ok(
        TokensClaimed {
            offer: offer_key,
            beneficiary: offer.beneficiary,
            amount: offer.token_amount,
        },
    )
}

/// Whether `who` has a stake in the offer's refund: its payer, its
/// beneficiary, or an operator of the desk.
pub open spec fn spec_is_stakeholder(desk: &Desk, offer: &Offer, who: Identity) -> bool {
    who == offer.payer || who == offer.beneficiary || desk.is_operator(who)
}

/// Whether the time `now` is past one of the two refund deadlines: the
/// desk's deadline counted from the offer's creation, or the grace period
/// counted from its unlock time.
pub open spec fn spec_refund_is_due(desk: &Desk, offer: &Offer, now: i64) -> bool {
    now >= offer.created_at + desk.emergency_refund_deadline_secs || now >= offer.unlock_time
        + REFUND_GRACE_AFTER_UNLOCK_SECS
}

/// What is refunded to the payer of an offer in `currency`, or why
/// `caller` gets no refund at the time `now`.
///
/// In the order of the failures: refunds are not enabled (`BadState`); the
/// offer is not paid, or is claimed or cancelled (`BadState`); it is in
/// another currency (`BadState`); the caller has no stake in it
/// (`NotOwner`); a deadline does not fit (`Overflow`); neither deadline has
/// passed (`TooEarlyForRefund`); the reserved total is less than the
/// offer's tokens (`Overflow`).
pub open spec fn spec_emergency_refund(
    desk: &Desk,
    offer: &Offer,
    caller: Identity,
    now: i64,
    currency: u8,
) -> Result<u64, OtcError> {
    if !desk.emergency_refund_enabled {
        Err(OtcError::BadState)
    } else if !offer.awaiting_claim() {
        Err(OtcError::BadState)
    } else if offer.currency != currency {
        Err(OtcError::BadState)
    } else if !spec_is_stakeholder(desk, offer, caller) {
        Err(OtcError::NotOwner)
    } else if offer.created_at + desk.emergency_refund_deadline_secs > i64::MAX || offer.created_at
        + desk.emergency_refund_deadline_secs < i64::MIN {
        Err(OtcError::Overflow)
    } else if offer.unlock_time + REFUND_GRACE_AFTER_UNLOCK_SECS > i64::MAX {
        Err(OtcError::Overflow)
    } else if !spec_refund_is_due(desk, offer, now) {
        Err(OtcError::TooEarlyForRefund)
    } else if desk.token_reserved < offer.token_amount {
        Err(OtcError::Overflow)
    } else {
        Ok(offer.amount_paid)
    }
}

/// The shared body of the two refunds.
fn emergency_refund(desk: &mut Desk, offer: &mut Offer, caller: &Identity, now: i64, currency: u8) -> (r:
    Result<u64, OtcError>)
    ensures
        r == spec_emergency_refund(old(desk), old(offer), *caller, now, currency),
        r is Ok ==> *final(offer) == spec_cancelled(*old(offer)) && *final(desk) == spec_released(
            *old(desk),
            old(offer).token_amount,
        ),
        r is Err ==> *final(offer) == *old(offer) && *final(desk) == *old(desk),
{
    if !desk.emergency_refund_enabled {
        return Err(OtcError::BadState);
    }
    if !(offer.paid && !offer.fulfilled && !offer.cancelled) {
        return Err(OtcError::BadState);
    }
    if offer.currency != currency {
        return Err(OtcError::BadState);
    }
    if !(*caller == offer.payer || *caller == offer.beneficiary || is_operator(desk, caller)) {
        return Err(OtcError::NotOwner);
    }
    let deadline = match offer.created_at.checked_add(desk.emergency_refund_deadline_secs) {
        None => {
            return Err(OtcError::Overflow);
        },
        Some(t) => t,
    };
    let unlock_deadline = match offer.unlock_time.checked_add(REFUND_GRACE_AFTER_UNLOCK_SECS) {
        None => {
            return Err(OtcError::Overflow);
        },
        Some(t) => t,
    };
    if !(now >= deadline || now >= unlock_deadline) {
        return Err(OtcError::TooEarlyForRefund);
    }
    let reserved = match desk.token_reserved.checked_sub(offer.token_amount) {
        None => {
            return Err(OtcError::Overflow);
        },
        Some(rest) => rest,
    };
    offer.cancelled = true;
    desk.token_reserved = reserved;
    Ok(offer.amount_paid)
}

/// Refunds a paid but unclaimed offer in the native asset, cancels it and
/// releases its reservation. On success the caller moves the returned
/// amount of native asset from the desk to the offer's payer.
pub fn emergency_refund_sol(
    desk: &mut Desk,
    offer: &mut Offer,
    caller: &Identity,
    now: i64,
    _offer_id: u64,
) -> (r: Result<u64, OtcError>)
    ensures
        r == spec_emergency_refund(old(desk), old(offer), *caller, now, CURRENCY_SOL),
        r is Ok ==> *final(offer) == spec_cancelled(*old(offer)) && *final(desk) == spec_released(
            *old(desk),
            old(offer).token_amount,
        ),
        r is Err ==> *final(offer) == *old(offer) && *final(desk) == *old(desk),
        old(offer).wf() ==> final(offer).wf(),
        old(desk).wf() ==> final(desk).wf(),
        old(offer).paid ==> final(offer).paid,
{
    emergency_refund(desk, offer, caller, now, CURRENCY_SOL)
}

/// Refunds a paid but unclaimed offer in the quote asset, cancels it and
/// releases its reservation. On success the caller moves the returned
/// amount of quote asset from the desk to the offer's payer.
pub fn emergency_refund_usdc(
    desk: &mut Desk,
    offer: &mut Offer,
    caller: &Identity,
    now: i64,
    _offer_id: u64,
) -> (r: Result<u64, OtcError>)
    ensures
        r == spec_emergency_refund(old(desk), old(offer), *caller, now, CURRENCY_USDC),
        r is Ok ==> *final(offer) == spec_cancelled(*old(offer)) && *final(desk) == spec_released(
            *old(desk),
            old(offer).token_amount,
        ),
        r is Err ==> *final(offer) == *old(offer) && *final(desk) == *old(desk),
        old(offer).wf() ==> final(offer).wf(),
        old(desk).wf() ==> final(desk).wf(),
        old(offer).paid ==> final(offer).paid,
{
    emergency_refund(desk, offer, caller, now, CURRENCY_USDC)
}

/// Whether a batch claim is accepted: the desk is not paused, the caller is
/// agent or approver, and the batch names at most [`MAX_BATCH_OFFERS`]
/// offers.
pub open spec fn spec_auto_claim(desk: &Desk, approver: Identity, offer_ids: Seq<u64>) -> Result<
    (),
    OtcError,
> {
    if desk.paused {
        Err(OtcError::Paused)
    } else if !desk.is_approver(approver) {
        Err(OtcError::NotApprover)
    } else if offer_ids.len() > MAX_BATCH_OFFERS {
        Err(OtcError::TooManyOffers)
    } else {
        Ok(())
    }
}

/// Admits a batch of offers to be claimed one by one. It changes nothing:
/// the caller claims each offer with [`claim`].
pub fn auto_claim(desk: &Desk, approver: &Identity, offer_ids: Vec<u64>) -> (r: Result<
    (),
    OtcError,
>)
    ensures
        r == spec_auto_claim(desk, *approver, offer_ids@),
{
    if desk.paused {
        return Err(OtcError::Paused);
    }
    must_be_approver(desk, approver)?;
    if offer_ids.len() > MAX_BATCH_OFFERS {
        return Err(OtcError::TooManyOffers);
    }
    Ok(())
}

/// Prices are frozen when the offer is created: what is due for an offer
/// in the quote asset does not depend on the token price that the desk
/// holds when the offer is paid, and for an offer that froze a native-asset
/// price the charge in the native asset depends on neither of the desk's
/// prices.
pub proof fn lemma_charge_ignores_later_prices(
    desk: Desk,
    offer: &Offer,
    payer: Identity,
    treasury_balance: u64,
    now: i64,
    token_usd_8d: u64,
    sol_usd_8d: u64,
)
    ensures
        ({
            let repriced = Desk {
                token_usd_price_8d: token_usd_8d,
                sol_usd_price_8d: sol_usd_8d,
                ..desk
            };
            &&& spec_fulfill_offer_usdc(&repriced, offer, payer, treasury_balance, now)
                == spec_fulfill_offer_usdc(&desk, offer, payer, treasury_balance, now)
            &&& offer.sol_usd_price_8d > 0 ==> spec_fulfill_offer_sol(
                &repriced,
                offer,
                payer,
                treasury_balance,
                now,
            ) == spec_fulfill_offer_sol(&desk, offer, payer, treasury_balance, now)
        }),
{
}

/// The edges of the life of an offer. Approval takes a created offer to
/// approved, payment an approved one to paid, the claim a paid one to
/// fulfilled, the refund a paid one to cancelled; cancelling takes an
/// offer that is not yet paid to cancelled. No transition goes through from
/// any other stage.
pub proof fn lemma_lifecycle(
    desk: &Desk,
    offer: Offer,
    caller: Identity,
    desk_key: Identity,
    desk_signer: Identity,
    treasury_balance: u64,
    amount: u64,
    now: i64,
    currency: u8,
)
    requires
        offer.wf(),
    ensures
        spec_approve_offer_check(desk, &offer, caller) is Ok ==> offer.stage() == Stage::Created
            && spec_approved(offer).stage() == Stage::Approved,
        spec_cancel_offer_check(desk, &offer, caller, now) is Ok ==> (offer.stage()
            == Stage::Created || offer.stage() == Stage::Approved || offer.stage()
            == Stage::Cancelled) && spec_cancelled(offer).stage() == Stage::Cancelled,
        spec_payment_due_usd(desk, &offer, caller, treasury_balance, now, currency) is Ok
            ==> offer.stage() == Stage::Approved && spec_paid(offer, caller, amount).stage()
            == Stage::Paid,
        spec_claim_check(desk, &offer, desk_key, desk_signer, caller, now) is Ok ==> offer.stage()
            == Stage::Paid && spec_claimed(offer).stage() == Stage::Fulfilled,
        spec_emergency_refund(desk, &offer, caller, now, currency) is Ok ==> offer.stage()
            == Stage::Paid && spec_cancelled(offer).stage() == Stage::Cancelled,
{
}

/// No transition takes a payment back: whatever a transition makes of a
/// paid offer is still paid. And a claimed offer cannot be cancelled: by
/// whomever and whenever it is tried, cancelling fails.
pub proof fn lemma_paid_is_final(
    desk: &Desk,
    offer: Offer,
    caller: Identity,
    payer: Identity,
    amount: u64,
    now: i64,
)
    ensures
        offer.paid ==> spec_approved(offer).paid,
        offer.paid ==> spec_cancelled(offer).paid,
        offer.paid ==> spec_paid(offer, payer, amount).paid,
        offer.paid ==> spec_claimed(offer).paid,
        offer.fulfilled ==> spec_cancel_offer_check(desk, &offer, caller, now) is Err,
        offer.fulfilled && !desk.paused ==> spec_cancel_offer_check(desk, &offer, caller, now)
            == Err::<(), OtcError>(OtcError::BadState),
{
}

/// Creation takes no payment back either: a record that holds a paid offer
/// is never written over, whatever the terms of the new offer.
pub proof fn lemma_paid_record_is_kept(
    desk: &Desk,
    consignment: &Consignment,
    registry: &TokenRegistry,
    record: &Offer,
    token_amount: u64,
    discount_bps: u16,
    currency: u8,
    lockup_secs: i64,
    now: i64,
)
    requires
        record.paid,
    ensures
        spec_create_offer_check(
            desk,
            consignment,
            registry,
            record,
            token_amount,
            discount_bps,
            currency,
            lockup_secs,
            now,
        ) is Err,
{
}

} // verus!
