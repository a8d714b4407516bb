//! Notifications that successful transitions hand back for the caller to
//! publish. Each also tells the caller what to carry out: an offer-paid
//! notification names the amount to collect, a tokens-claimed notification
//! the amount to release.

use crate::identity::Identity;
use vstd::prelude::*;

verus! {

/// An offer was created.
#[derive(Clone, Copy, Debug, PartialEq, Eq)]
pub struct OfferCreated {
    pub desk: Identity,
    pub offer: Identity,
    pub beneficiary: Identity,
    pub token_amount: u64,
    pub discount_bps: u16,
    pub currency: u8,
}

/// An offer was approved.
#[derive(Clone, Copy, Debug, PartialEq, Eq)]
pub struct OfferApproved {
    pub offer: Identity,
    pub approver: Identity,
}

/// An offer was cancelled.
#[derive(Clone, Copy, Debug, PartialEq, Eq)]
pub struct OfferCancelled {
    pub offer: Identity,
    pub by: Identity,
}

/// An offer was paid: `amount` units of `currency` are due from `payer`.
#[derive(Clone, Copy, Debug, PartialEq, Eq)]
pub struct OfferPaid {
    pub offer: Identity,
    pub payer: Identity,
    pub amount: u64,
    pub currency: u8,
}

/// An offer was claimed: `amount` tokens are due to `beneficiary`.
#[derive(Clone, Copy, Debug, PartialEq, Eq)]
pub struct TokensClaimed {
    pub offer: Identity,
    pub beneficiary: Identity,
    pub amount: u64,
}

/// The desk limits were replaced.
#[derive(Clone, Copy, Debug, PartialEq, Eq)]
pub struct LimitsUpdated {
    pub min_usd_amount_8d: u64,
    pub max_token_per_order: u64,
    pub quote_expiry_secs: i64,
    pub default_unlock_delay_secs: i64,
    pub max_lockup_secs: i64,
}

/// The cached prices were replaced.
#[derive(Clone, Copy, Debug, PartialEq, Eq)]
pub struct PricesUpdated {
    pub token_usd_8d: u64,
    pub sol_usd_8d: u64,
    pub updated_at: i64,
    pub max_age: i64,
}

/// Restricted fulfillment was switched on or off.
#[derive(Clone, Copy, Debug, PartialEq, Eq)]
pub struct RestrictFulfillUpdated {
    pub enabled: bool,
}

/// The desk was paused or unpaused.
#[derive(Clone, Copy, Debug, PartialEq, Eq)]
pub struct Paused {
    pub paused: bool,
}

} // verus!
