use vstd::prelude::*;

verus! {

/// Every way a transition can fail. A failed transition leaves all records
/// as they were.
#[derive(Clone, Copy, Debug, PartialEq, Eq, Structural)]
pub enum OtcError {
    /// The quote asset does not have six decimals.
    UsdcDecimals,
    /// An amount or a limit is outside its allowed range.
    AmountRange,
    /// A discount is outside its allowed range.
    Discount,
    /// The price on record is older than the maximum age.
    StalePrice,
    /// No price is on record.
    NoPrice,
    /// The discounted value is below the desk minimum.
    MinUsd,
    /// Not enough unreserved tokens.
    InsuffInv,
    /// An arithmetic result does not fit its type.
    Overflow,
    /// A lockup is outside its allowed range.
    LockupTooLong,
    /// The record is not in a state that allows the transition.
    BadState,
    /// The offer is approved already.
    AlreadyApproved,
    /// The offer is not approved.
    NotApproved,
    /// The quote has expired.
    Expired,
    /// Payment is restricted and the payer is not entitled.
    FulfillRestricted,
    /// The lockup has not ended.
    Locked,
    /// The caller is not the owner, or not the party the transition is for.
    NotOwner,
    /// The caller is neither agent nor approver.
    NotApprover,
    /// The approver list is full.
    TooManyApprovers,
    /// The currency selector is not one of the two supported values.
    UnsupportedCurrency,
    /// The desk is paused.
    Paused,
    /// The quote has not expired yet.
    NotExpired,
    /// The oracle price is not positive, or its exponent is out of range.
    BadPrice,
    /// The new price is too far from the old one.
    PriceDeviationTooLarge,
    /// No oracle feeds are configured.
    FeedNotConfigured,
    /// Neither refund deadline has passed.
    TooEarlyForRefund,
    /// A batch names too many offers.
    TooManyOffers,
}

} // verus!
