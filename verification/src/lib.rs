//! Settlement core of an over-the-counter token desk.
//!
//! A desk holds a token inventory and sells it at a discount to a reference
//! price. Buyers receive allocations that vest after a lockup. This crate
//! holds the rules of that trade: how a consignment lot becomes a priced
//! offer, and how the offer is approved, paid, claimed, cancelled or
//! refunded. Every transition is a function from the current records and
//! the caller's inputs to a result; on failure no record changes.
//!
//! Moving assets, reading the clock and loading records are left to the
//! caller, who hands in balances and timestamps and carries out what a
//! successful transition returns.

pub mod arith;
pub mod consignment;
pub mod desk;
pub mod errors;
pub mod events;
pub mod identity;
pub mod offer;
pub mod pricing;

pub use arith::{
    apply_discount, discounted_usd_8d, mul_div_ceil_u128, mul_div_u128, native_asset_amount, pow10,
    quote_asset_amount, usd_value_8d,
};
pub use consignment::{
    create_consignment, register_token, withdraw_consignment, Consignment, TokenRegistry,
};
pub use desk::{
    approver_position, available_inventory, deposit_tokens, init_desk, is_operator,
    must_be_approver, only_owner, pause, set_agent, set_approver, set_emergency_refund, set_limits,
    set_restrict_fulfill, unpause, withdraw_sol, withdraw_tokens, withdraw_usdc, Desk,
};
pub use errors::OtcError;
pub use events::{
    LimitsUpdated, OfferApproved, OfferCancelled, OfferCreated, OfferPaid, Paused, PricesUpdated,
    RestrictFulfillUpdated, TokensClaimed,
};
pub use identity::{bytes32_eq, zero_bytes32, Identity};
pub use offer::{
    approve_offer, auto_claim, cancel_offer, claim, create_offer_from_consignment,
    emergency_refund_sol, emergency_refund_usdc, fulfill_offer_sol, fulfill_offer_usdc, Offer,
    Stage,
};
pub use pricing::{
    apply_deviation_guard, convert_pyth_price, read_oracle_price, set_prices, set_pyth_feeds,
    update_prices_from_pyth, OraclePrice, PriceUpdate, Verification,
};
