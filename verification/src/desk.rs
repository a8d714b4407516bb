//! The desk: configuration, roles and the token ledger.
//!
//! The owner configures the desk, the agent acts for the owner, and the
//! approvers are a bounded list of parties who may approve and cancel like
//! the agent. The role checks are pure: they read the desk and the caller's
//! identity and change nothing.

use crate::errors::OtcError;
use crate::events::{LimitsUpdated, Paused, RestrictFulfillUpdated};
use crate::identity::{zero_bytes32, Identity};
use vstd::arithmetic::power::{lemma_pow_increases, pow};
use vstd::prelude::*;

verus! {

/// The most approvers a desk can list.
pub const MAX_APPROVERS: usize = 32;

/// The decimals the quote asset must have.
pub const QUOTE_ASSET_DECIMALS: u8 = 6;

/// The maximum price age a new desk starts with: one hour.
pub const DEFAULT_MAX_PRICE_AGE_SECS: i64 = 3_600;

/// The maximum lockup a new desk starts with: 365 days.
pub const DEFAULT_MAX_LOCKUP_SECS: i64 = 31_536_000;

/// The emergency-refund deadline a new desk starts with: 30 days.
pub const DEFAULT_EMERGENCY_REFUND_DEADLINE_SECS: i64 = 2_592_000;

/// The per-order cap a new desk starts with, in whole tokens.
pub const DEFAULT_ORDER_CAP_TOKENS: u64 = 10_000;

/// Configuration and ledger root of one market.
#[derive(Clone, Debug, PartialEq, Eq)]
pub struct Desk {
    pub owner: Identity,
    pub agent: Identity,
    pub usdc_mint: Identity,
    pub usdc_decimals: u8,
    pub min_usd_amount_8d: u64,
    pub quote_expiry_secs: i64,
    pub max_price_age_secs: i64,
    pub restrict_fulfill: bool,
    pub approvers: Vec<Identity>,
    pub next_consignment_id: u64,
    pub next_offer_id: u64,
    pub paused: bool,
    pub sol_price_feed_id: [u8; 32],
    pub sol_usd_price_8d: u64,
    pub prices_updated_at: i64,
    pub token_mint: Identity,
    pub token_decimals: u8,
    pub token_deposited: u64,
    pub token_reserved: u64,
    pub token_price_feed_id: [u8; 32],
    pub token_usd_price_8d: u64,
    pub default_unlock_delay_secs: i64,
    pub max_lockup_secs: i64,
    pub max_token_per_order: u64,
    pub emergency_refund_enabled: bool,
    pub emergency_refund_deadline_secs: i64,
}

impl Desk {
    /// What holds of a desk from its creation on: six quote decimals, a
    /// non-negative price age, at most [`MAX_APPROVERS`] approvers with none
    /// listed twice, counters that start at one, and limits in order.
    pub open spec fn wf(&self) -> bool {
        &&& self.usdc_decimals == QUOTE_ASSET_DECIMALS
        &&& self.max_price_age_secs >= 0
        &&& self.approvers@.len() <= MAX_APPROVERS
        &&& self.approvers@.no_duplicates()
        &&& self.next_consignment_id >= 1
        &&& self.next_offer_id >= 1
        &&& 0 <= self.default_unlock_delay_secs <= self.max_lockup_secs
        &&& self.max_token_per_order > 0
    }

    /// Whether `who` is the owner.
    pub open spec fn is_owner(&self, who: Identity) -> bool {
        who == self.owner
    }

    /// Whether `who` may approve: the agent, or a listed approver.
    pub open spec fn is_approver(&self, who: Identity) -> bool {
        who == self.agent || self.approvers@.contains(who)
    }

    /// Whether `who` runs the desk in any role: owner, agent or approver.
    pub open spec fn is_operator(&self, who: Identity) -> bool {
        who == self.owner || self.is_approver(who)
    }

    /// Whether the desk equals `pre` in everything but the approver list.
    pub open spec fn same_but_approvers(&self, pre: Desk) -> bool {
        *self == (Desk { approvers: self.approvers, ..pre })
    }

    /// The run-time test of [`Desk::wf`].
    pub fn is_wf(&self) -> (r: bool)
        ensures
            r == self.wf(),
    {
        if !(self.usdc_decimals == QUOTE_ASSET_DECIMALS && self.max_price_age_secs >= 0
            && self.approvers.len() <= MAX_APPROVERS && self.next_consignment_id >= 1
            && self.next_offer_id >= 1 && 0 <= self.default_unlock_delay_secs
            && self.default_unlock_delay_secs <= self.max_lockup_secs && self.max_token_per_order
            > 0) {
            return false;
        }
        let n = self.approvers.len();
        let mut i: usize = 0;
        while i < n
            invariant
                i <= n == self.approvers@.len(),
                forall|a: int, b: int| 0 <= a < b < i ==> self.approvers@[a] != self.approvers@[b],
            decreases n - i,
        {
            let mut j: usize = 0;
            while j < i
                invariant
                    j <= i < n == self.approvers@.len(),
                    forall|a: int| 0 <= a < j ==> self.approvers@[a] != self.approvers@[i as int],
                decreases i - j,
            {
                if self.approvers[j] == self.approvers[i] {
                    return false;
                }
                j += 1;
            }
            i += 1;
        }
        true
    }
}

/// Where `who` first stands in `approvers`, if anywhere.
pub fn approver_position(approvers: &Vec<Identity>, who: &Identity) -> (r: Option<usize>)
    ensures
        match r {
            Some(i) => i < approvers@.len() && approvers@[i as int] == *who && forall|j: int|
                0 <= j < i ==> approvers@[j] != *who,
            None => !approvers@.contains(*who),
        },
{
    let mut i: usize = 0;
    while i < approvers.len()
        invariant
            i <= approvers@.len(),
            forall|j: int| 0 <= j < i ==> approvers@[j] != *who,
        decreases approvers@.len() - i,
    {
        if approvers[i] == *who {
            return Some(i);
        }
        i += 1;
    }
    None
}

/// The owner check as a result: `NotOwner` for anyone else.
pub open spec fn spec_only_owner(desk: &Desk, who: Identity) -> Result<(), OtcError> {
    if desk.is_owner(who) {
        Ok(())
    } else {
        Err(OtcError::NotOwner)
    }
}

/// The approver check as a result: `NotApprover` for anyone who is neither
/// agent nor listed approver.
pub open spec fn spec_must_be_approver(desk: &Desk, who: Identity) -> Result<(), OtcError> {
    if desk.is_approver(who) {
        Ok(())
    } else {
        Err(OtcError::NotApprover)
    }
}

/// Passes for the owner only.
pub fn only_owner(desk: &Desk, who: &Identity) -> (r: Result<(), OtcError>)
    ensures
        r == spec_only_owner(desk, *who),
{
    if *who == desk.owner {
        Ok(())
    } else {
        Err(OtcError::NotOwner)
    }
}

/// Passes for the agent and for every listed approver.
pub fn must_be_approver(desk: &Desk, who: &Identity) -> (r: Result<(), OtcError>)
    ensures
        r == spec_must_be_approver(desk, *who),
{
    if *who == desk.agent || approver_position(&desk.approvers, who).is_some() {
        Ok(())
    } else {
        Err(OtcError::NotApprover)
    }
}

/// Whether `who` is owner, agent or a listed approver.
pub fn is_operator(desk: &Desk, who: &Identity) -> (r: bool)
    ensures
        r == desk.is_operator(*who),
{
    *who == desk.owner || *who == desk.agent || approver_position(&desk.approvers, who).is_some()
}

/// What of the treasury is free to sell or withdraw: the live balance less
/// the reserved total, and nothing where the balance has fallen below it.
pub open spec fn spec_available_inventory(reserved: int, treasury_balance: int) -> int {
    if treasury_balance < reserved {
        0
    } else {
        treasury_balance - reserved
    }
}

/// Available inventory is never negative, is zero where exactly the
/// reserved total is held, and is the whole balance where nothing is
/// reserved.
pub proof fn lemma_available_inventory(reserved: nat, treasury_balance: nat)
    ensures
        spec_available_inventory(reserved as int, treasury_balance as int) >= 0,
        spec_available_inventory(reserved as int, reserved as int) == 0,
        spec_available_inventory(0, treasury_balance as int) == treasury_balance,
        spec_available_inventory(reserved as int, treasury_balance as int) <= treasury_balance,
{
}

/// Tokens in the treasury that no paid offer has a claim on. The treasury
/// balance is read live by the caller; the desk's own deposit counter plays
/// no part.
pub fn available_inventory(desk: &Desk, treasury_balance: u64) -> (r: u64)
    ensures
        r == spec_available_inventory(desk.token_reserved as int, treasury_balance as int),
{
    if treasury_balance < desk.token_reserved {
        return 0;
    }
    treasury_balance - desk.token_reserved
}

/// The per-order cap of a new desk in base units: ten thousand whole
/// tokens.
pub open spec fn spec_default_order_cap(token_decimals: u8) -> int {
    DEFAULT_ORDER_CAP_TOKENS * pow(10, token_decimals as nat)
}

/// Whether a desk can be created: the quote asset has six decimals and the
/// default per-order cap fits in 64 bits.
pub open spec fn spec_init_desk_check(usdc_decimals: u8, token_decimals: u8) -> Result<
    (),
    OtcError,
> {
    if usdc_decimals != QUOTE_ASSET_DECIMALS {
        Err(OtcError::UsdcDecimals)
    } else if spec_default_order_cap(token_decimals) > u64::MAX {
        Err(OtcError::Overflow)
    } else {
        Ok(())
    }
}

/// Whether `desk` is what [`init_desk`] makes of the given arguments.
pub open spec fn is_new_desk(
    desk: Desk,
    owner: Identity,
    agent: Identity,
    usdc_mint: Identity,
    token_mint: Identity,
    token_decimals: u8,
    min_usd_amount_8d: u64,
    quote_expiry_secs: i64,
) -> bool {
    &&& desk.owner == owner
    &&& desk.agent == agent
    &&& desk.usdc_mint == usdc_mint
    &&& desk.usdc_decimals == QUOTE_ASSET_DECIMALS
    &&& desk.min_usd_amount_8d == min_usd_amount_8d
    &&& desk.quote_expiry_secs == quote_expiry_secs
    &&& desk.max_price_age_secs == DEFAULT_MAX_PRICE_AGE_SECS
    &&& !desk.restrict_fulfill
    &&& desk.approvers@ == Seq::<Identity>::empty()
    &&& desk.next_consignment_id == 1
    &&& desk.next_offer_id == 1
    &&& !desk.paused
    &&& desk.sol_price_feed_id == zero_bytes32()
    &&& desk.sol_usd_price_8d == 0
    &&& desk.prices_updated_at == 0
    &&& desk.token_mint == token_mint
    &&& desk.token_decimals == token_decimals
    &&& desk.token_deposited == 0
    &&& desk.token_reserved == 0
    &&& desk.token_price_feed_id == zero_bytes32()
    &&& desk.token_usd_price_8d == 0
    &&& desk.default_unlock_delay_secs == 0
    &&& desk.max_lockup_secs == DEFAULT_MAX_LOCKUP_SECS
    &&& desk.max_token_per_order == spec_default_order_cap(token_decimals)
    &&& !desk.emergency_refund_enabled
    &&& desk.emergency_refund_deadline_secs == DEFAULT_EMERGENCY_REFUND_DEADLINE_SECS
}

/// Ten thousand times a power of ten fits in 64 bits up to the fifteenth
/// power and no further.
proof fn lemma_default_order_cap(token_decimals: u8)
    ensures
        token_decimals <= 15 ==> 0 < spec_default_order_cap(token_decimals)
            <= 10_000_000_000_000_000_000,
        token_decimals > 15 ==> spec_default_order_cap(token_decimals) > u64::MAX,
{
    assert(pow(10, 15) == 1_000_000_000_000_000 && pow(10, 16) == 10_000_000_000_000_000) by {
        reveal_with_fuel(pow, 17);
    }
    if token_decimals <= 15 {
        lemma_pow_increases(10, 0, token_decimals as nat);
        lemma_pow_increases(10, token_decimals as nat, 15);
        assert(pow(10, 0) == 1) by {
            reveal(pow);
        }
    } else {
        lemma_pow_increases(10, 16, token_decimals as nat);
    }
}

/// Creates the desk of one market with its default limits: no approvers, no
/// prices, nothing deposited or reserved, not paused.
pub fn init_desk(
    owner: Identity,
    agent: Identity,
    usdc_mint: Identity,
    usdc_decimals: u8,
    token_mint: Identity,
    token_decimals: u8,
    min_usd_amount_8d: u64,
    quote_expiry_secs: i64,
) -> (r: Result<Desk, OtcError>)
    ensures
        match r {
            Ok(desk) => {
                &&& spec_init_desk_check(usdc_decimals, token_decimals) is Ok
                &&& is_new_desk(
                    desk,
                    owner,
                    agent,
                    usdc_mint,
                    token_mint,
                    token_decimals,
                    min_usd_amount_8d,
                    quote_expiry_secs,
                )
                &&& desk.wf()
            },
            Err(e) => spec_init_desk_check(usdc_decimals, token_decimals) == Err::<(), OtcError>(e),
        },
{
    if usdc_decimals != QUOTE_ASSET_DECIMALS {
        return Err(OtcError::UsdcDecimals);
    }
    proof {
        lemma_default_order_cap(token_decimals);
    }
    if token_decimals > 15 {
        return Err(OtcError::Overflow);
    }
    let max_token_per_order = DEFAULT_ORDER_CAP_TOKENS * (crate::arith::pow10(
        token_decimals as u32,
    ) as u64);
    Ok(
        Desk {
            owner,
            agent,
            usdc_mint,
            usdc_decimals,
            min_usd_amount_8d,
            quote_expiry_secs,
            max_price_age_secs: DEFAULT_MAX_PRICE_AGE_SECS,
            restrict_fulfill: false,
            approvers: Vec::new(),
            next_consignment_id: 1,
            next_offer_id: 1,
            paused: false,
            sol_price_feed_id: zero_bytes32(),
            sol_usd_price_8d: 0,
            prices_updated_at: 0,
            token_mint,
            token_decimals,
            token_deposited: 0,
            token_reserved: 0,
            token_price_feed_id: zero_bytes32(),
            token_usd_price_8d: 0,
            default_unlock_delay_secs: 0,
            max_lockup_secs: DEFAULT_MAX_LOCKUP_SECS,
            max_token_per_order,
            emergency_refund_enabled: false,
            emergency_refund_deadline_secs: DEFAULT_EMERGENCY_REFUND_DEADLINE_SECS,
        },
    )
}

/// Whether new limits are accepted from `caller`: the owner, with a positive
/// minimum, cap and quote expiry, and a default unlock delay between zero
/// and the maximum lockup.
pub open spec fn spec_set_limits_check(
    desk: &Desk,
    caller: Identity,
    min_usd_amount_8d: u64,
    max_token_per_order: u64,
    quote_expiry_secs: i64,
    default_unlock_delay_secs: i64,
    max_lockup_secs: i64,
) -> Result<(), OtcError> {
    if !desk.is_owner(caller) {
        Err(OtcError::NotOwner)
    } else if min_usd_amount_8d == 0 || max_token_per_order == 0 || quote_expiry_secs <= 0
        || max_lockup_secs < 0 || default_unlock_delay_secs < 0 || default_unlock_delay_secs
        > max_lockup_secs {
        Err(OtcError::AmountRange)
    } else {
        Ok(())
    }
}

/// Replaces the desk limits. Owner only.
pub fn set_limits(
    desk: &mut Desk,
    caller: &Identity,
    min_usd_amount_8d: u64,
    max_token_per_order: u64,
    quote_expiry_secs: i64,
    default_unlock_delay_secs: i64,
    max_lockup_secs: i64,
) -> (r: Result<LimitsUpdated, OtcError>)
    ensures
        match r {
            Ok(event) => {
                &&& spec_set_limits_check(
                    old(desk),
                    *caller,
                    min_usd_amount_8d,
                    max_token_per_order,
                    quote_expiry_secs,
                    default_unlock_delay_secs,
                    max_lockup_secs,
                ) is Ok
                &&& *final(desk) == (Desk {
                    min_usd_amount_8d,
                    max_token_per_order,
                    quote_expiry_secs,
                    default_unlock_delay_secs,
                    max_lockup_secs,
                    ..*old(desk)
                })
                &&& event == (LimitsUpdated {
                    min_usd_amount_8d,
                    max_token_per_order,
                    quote_expiry_secs,
                    default_unlock_delay_secs,
                    max_lockup_secs,
                })
            },
            Err(e) => {
                &&& spec_set_limits_check(
                    old(desk),
                    *caller,
                    min_usd_amount_8d,
                    max_token_per_order,
                    quote_expiry_secs,
                    default_unlock_delay_secs,
                    max_lockup_secs,
                ) == Err::<(), OtcError>(e)
                &&& *final(desk) == *old(desk)
            },
        },
        old(desk).wf() ==> final(desk).wf(),
{
    only_owner(desk, caller)?;
    if min_usd_amount_8d == 0 {
        return Err(OtcError::AmountRange);
    }
    if max_token_per_order == 0 {
        return Err(OtcError::AmountRange);
    }
    if quote_expiry_secs <= 0 {
        return Err(OtcError::AmountRange);
    }
    if max_lockup_secs < 0 {
        return Err(OtcError::AmountRange);
    }
    if default_unlock_delay_secs < 0 || default_unlock_delay_secs > max_lockup_secs {
        return Err(OtcError::AmountRange);
    }
    desk.min_usd_amount_8d = min_usd_amount_8d;
    desk.max_token_per_order = max_token_per_order;
    desk.quote_expiry_secs = quote_expiry_secs;
    desk.default_unlock_delay_secs = default_unlock_delay_secs;
    desk.max_lockup_secs = max_lockup_secs;
    Ok(
        LimitsUpdated {
            min_usd_amount_8d,
            max_token_per_order,
            quote_expiry_secs,
            default_unlock_delay_secs,
            max_lockup_secs,
        },
    )
}

/// Names a new agent. Owner only.
pub fn set_agent(desk: &mut Desk, caller: &Identity, new_agent: Identity) -> (r: Result<
    (),
    OtcError,
>)
    ensures
        r == spec_only_owner(old(desk), *caller),
        r is Ok ==> *final(desk) == (Desk { agent: new_agent, ..*old(desk) }),
        r is Err ==> *final(desk) == *old(desk),
        old(desk).wf() ==> final(desk).wf(),
{
    only_owner(desk, caller)?;
    desk.agent = new_agent;
    Ok(())
}

/// Switches restricted fulfillment on or off. Owner only.
pub fn set_restrict_fulfill(desk: &mut Desk, caller: &Identity, enabled: bool) -> (r: Result<
    RestrictFulfillUpdated,
    OtcError,
>)
    ensures
        match r {
            Ok(event) => {
                &&& old(desk).is_owner(*caller)
                &&& *final(desk) == (Desk { restrict_fulfill: enabled, ..*old(desk) })
                &&& event == (RestrictFulfillUpdated { enabled })
            },
            Err(e) => {
                &&& spec_only_owner(old(desk), *caller) == Err::<(), OtcError>(e)
                &&& *final(desk) == *old(desk)
            },
        },
        old(desk).wf() ==> final(desk).wf(),
{
    only_owner(desk, caller)?;
    desk.restrict_fulfill = enabled;
    Ok(RestrictFulfillUpdated { enabled })
}

/// Pauses the desk. Owner only.
pub fn pause(desk: &mut Desk, caller: &Identity) -> (r: Result<Paused, OtcError>)
    ensures
        match r {
            Ok(event) => {
                &&& old(desk).is_owner(*caller)
                &&& *final(desk) == (Desk { paused: true, ..*old(desk) })
                &&& event == (Paused { paused: true })
            },
            Err(e) => {
                &&& spec_only_owner(old(desk), *caller) == Err::<(), OtcError>(e)
                &&& *final(desk) == *old(desk)
            },
        },
        old(desk).wf() ==> final(desk).wf(),
{
    only_owner(desk, caller)?;
    desk.paused = true;
    Ok(Paused { paused: true })
}

/// Lifts the pause. Owner only.
pub fn unpause(desk: &mut Desk, caller: &Identity) -> (r: Result<Paused, OtcError>)
    ensures
        match r {
            Ok(event) => {
                &&& old(desk).is_owner(*caller)
                &&& *final(desk) == (Desk { paused: false, ..*old(desk) })
                &&& event == (Paused { paused: false })
            },
            Err(e) => {
                &&& spec_only_owner(old(desk), *caller) == Err::<(), OtcError>(e)
                &&& *final(desk) == *old(desk)
            },
        },
        old(desk).wf() ==> final(desk).wf(),
{
    only_owner(desk, caller)?;
    desk.paused = false;
    Ok(Paused { paused: false })
}

/// The approver list after `who` is allowed or disallowed. Allowing someone
/// listed, or disallowing someone not listed, changes nothing; a new
/// approver goes to the end; a full list takes no one new.
pub open spec fn spec_set_approver(approvers: Seq<Identity>, who: Identity, allowed: bool) -> Result<
    Seq<Identity>,
    OtcError,
> {
    if allowed {
        if approvers.contains(who) {
            Ok(approvers)
        } else if approvers.len() >= MAX_APPROVERS {
            Err(OtcError::TooManyApprovers)
        } else {
            Ok(approvers.push(who))
        }
    } else {
        Ok(approvers.remove_value(who))
    }
}

/// After a successful change `who` is an approver exactly if `allowed`, and
/// everyone else's standing is as before.
pub proof fn lemma_set_approver_membership(
    approvers: Seq<Identity>,
    who: Identity,
    allowed: bool,
    other: Identity,
)
    requires
        approvers.no_duplicates(),
        spec_set_approver(approvers, who, allowed) is Ok,
    ensures
        spec_set_approver(approvers, who, allowed)->Ok_0.no_duplicates(),
        spec_set_approver(approvers, who, allowed)->Ok_0.contains(who) == allowed,
        other != who ==> spec_set_approver(approvers, who, allowed)->Ok_0.contains(other)
            == approvers.contains(other),
{
    let after = spec_set_approver(approvers, who, allowed)->Ok_0;
    approvers.index_of_first_ensures(who);
    if allowed {
        if !approvers.contains(who) {
            assert(after[approvers.len() as int] == who);
            if approvers.contains(other) {
                let k = choose|k: int| 0 <= k < approvers.len() && approvers[k] == other;
                assert(after[k] == other);
            }
        }
    } else {
        if approvers.contains(who) {
            let i = approvers.index_of_first(who)->Some_0;
            assert forall|a: int, b: int| 0 <= a < b < after.len() implies after[a] != after[b] by {
                let a0 = if a < i {
                    a
                } else {
                    a + 1
                };
                let b0 = if b < i {
                    b
                } else {
                    b + 1
                };
                assert(approvers[a0] != approvers[b0]);
            }
            if after.contains(who) {
                let k = choose|k: int| 0 <= k < after.len() && after[k] == who;
                let k0 = if k < i {
                    k
                } else {
                    k + 1
                };
                assert(approvers[k0] == approvers[i]);
            }
            if other != who {
                if approvers.contains(other) {
                    let k = choose|k: int| 0 <= k < approvers.len() && approvers[k] == other;
                    let k1 = if k < i {
                        k
                    } else {
                        k - 1
                    };
                    assert(after[k1] == other);
                }
                if after.contains(other) {
                    let k = choose|k: int| 0 <= k < after.len() && after[k] == other;
                    let k0 = if k < i {
                        k
                    } else {
                        k + 1
                    };
                    assert(approvers[k0] == other);
                }
            }
        }
    }
}

/// [`spec_set_approver`] on the desk's list, for the owner only.
pub open spec fn spec_set_approver_check(
    desk: &Desk,
    caller: Identity,
    who: Identity,
    allowed: bool,
) -> Result<Seq<Identity>, OtcError> {
    if !desk.is_owner(caller) {
        Err(OtcError::NotOwner)
    } else {
        spec_set_approver(desk.approvers@, who, allowed)
    }
}

/// Adds `who` to the approver list or takes them off it. Owner only.
pub fn set_approver(desk: &mut Desk, caller: &Identity, who: Identity, allowed: bool) -> (r:
    Result<(), OtcError>)
    ensures
        match r {
            Ok(_) => {
                &&& spec_set_approver_check(old(desk), *caller, who, allowed) == Ok::<
                    Seq<Identity>,
                    OtcError,
                >(final(desk).approvers@)
                &&& final(desk).same_but_approvers(*old(desk))
            },
            Err(e) => {
                &&& spec_set_approver_check(old(desk), *caller, who, allowed) == Err::<
                    Seq<Identity>,
                    OtcError,
                >(e)
                &&& *final(desk) == *old(desk)
            },
        },
        old(desk).wf() ==> final(desk).wf(),
{
    only_owner(desk, caller)?;
    let found = approver_position(&desk.approvers, &who);
    proof {
        desk.approvers@.index_of_first_ensures(who);
        if desk.approvers@.no_duplicates() && spec_set_approver(desk.approvers@, who, allowed)
            is Ok {
            lemma_set_approver_membership(desk.approvers@, who, allowed, who);
        }
    }
    if allowed {
        if found.is_none() {
            if desk.approvers.len() >= MAX_APPROVERS {
                return Err(OtcError::TooManyApprovers);
            }
            desk.approvers.push(who);
        }
    } else {
        match found {
            Some(i) => {
                desk.approvers.remove(i);
            },
            None => {},
        }
    }
    Ok(())
}

/// Switches the emergency refund on or off and sets its deadline. Owner
/// only.
pub fn set_emergency_refund(
    desk: &mut Desk,
    caller: &Identity,
    enabled: bool,
    deadline_secs: i64,
) -> (r: Result<(), OtcError>)
    ensures
        r == spec_only_owner(old(desk), *caller),
        r is Ok ==> *final(desk) == (Desk {
            emergency_refund_enabled: enabled,
            emergency_refund_deadline_secs: deadline_secs,
            ..*old(desk)
        }),
        r is Err ==> *final(desk) == *old(desk),
        old(desk).wf() ==> final(desk).wf(),
{
    only_owner(desk, caller)?;
    desk.emergency_refund_enabled = enabled;
    desk.emergency_refund_deadline_secs = deadline_secs;
    Ok(())
}

/// Whether the owner's deposit of `amount` tokens is accepted: the desk is
/// not paused, the caller is the owner, and the deposit counter has room.
pub open spec fn spec_deposit_tokens_check(desk: &Desk, caller: Identity, amount: u64) -> Result<
    (),
    OtcError,
> {
    if desk.paused {
        Err(OtcError::Paused)
    } else if !desk.is_owner(caller) {
        Err(OtcError::NotOwner)
    } else if desk.token_deposited + amount > u64::MAX {
        Err(OtcError::Overflow)
    } else {
        Ok(())
    }
}

/// Records the owner's deposit of `amount` tokens. On success the caller
/// moves `amount` from the owner to the treasury.
pub fn deposit_tokens(desk: &mut Desk, caller: &Identity, amount: u64) -> (r: Result<
    (),
    OtcError,
>)
    ensures
        r == spec_deposit_tokens_check(old(desk), *caller, amount),
        r is Ok ==> *final(desk) == (Desk {
            token_deposited: (old(desk).token_deposited + amount) as u64,
            ..*old(desk)
        }),
        r is Err ==> *final(desk) == *old(desk),
        old(desk).wf() ==> final(desk).wf(),
{
    if desk.paused {
        return Err(OtcError::Paused);
    }
    only_owner(desk, caller)?;
    match desk.token_deposited.checked_add(amount) {
        None => Err(OtcError::Overflow),
        Some(total) => {
            desk.token_deposited = total;
            Ok(())
        },
    }
}

/// Whether the owner may take `amount` tokens out of the treasury: only the
/// owner, with the desk's own signature, and only what leaves the reserved
/// total covered.
pub open spec fn spec_withdraw_tokens(
    desk: &Desk,
    caller: Identity,
    desk_key: Identity,
    desk_signer: Identity,
    treasury_balance: u64,
    amount: u64,
) -> Result<(), OtcError> {
    if !desk.is_owner(caller) {
        Err(OtcError::NotOwner)
    } else if desk_signer != desk_key {
        Err(OtcError::NotOwner)
    } else if amount > treasury_balance {
        Err(OtcError::Overflow)
    } else if treasury_balance - amount < desk.token_reserved {
        Err(OtcError::InsuffInv)
    } else {
        Ok(())
    }
}

/// Decides an owner withdrawal of unreserved tokens. On success the caller
/// moves `amount` from the treasury to the owner.
pub fn withdraw_tokens(
    desk: &Desk,
    caller: &Identity,
    desk_key: &Identity,
    desk_signer: &Identity,
    treasury_balance: u64,
    amount: u64,
) -> (r: Result<(), OtcError>)
    ensures
        r == spec_withdraw_tokens(
            desk,
            *caller,
            *desk_key,
            *desk_signer,
            treasury_balance,
            amount,
        ),
        r is Ok ==> amount <= spec_available_inventory(
            desk.token_reserved as int,
            treasury_balance as int,
        ),
{
    only_owner(desk, caller)?;
    if *desk_signer != *desk_key {
        return Err(OtcError::NotOwner);
    }
    match treasury_balance.checked_sub(amount) {
        None => Err(OtcError::Overflow),
        Some(after_amount) => {
            if after_amount >= desk.token_reserved {
                Ok(())
            } else {
                Err(OtcError::InsuffInv)
            }
        },
    }
}

/// Whether the owner may take quote asset out of the desk: only the owner,
/// with the desk's own signature.
pub open spec fn spec_withdraw_usdc(
    desk: &Desk,
    caller: Identity,
    desk_key: Identity,
    desk_signer: Identity,
) -> Result<(), OtcError> {
    if !desk.is_owner(caller) || desk_signer != desk_key {
        Err(OtcError::NotOwner)
    } else {
        Ok(())
    }
}

/// Decides an owner withdrawal of quote asset. On success the caller moves
/// `amount` from the desk's quote treasury to the destination.
pub fn withdraw_usdc(
    desk: &Desk,
    caller: &Identity,
    desk_key: &Identity,
    desk_signer: &Identity,
    amount: u64,
) -> (r: Result<(), OtcError>)
    ensures
        r == spec_withdraw_usdc(desk, *caller, *desk_key, *desk_signer),
{
    only_owner(desk, caller)?;
    if *desk_signer != *desk_key {
        return Err(OtcError::NotOwner);
    }
    Ok(())
}

/// Whether the owner may take `lamports` of native asset out of the desk:
/// only the owner, with the desk's own signature, and only what leaves the
/// desk's balance at or above the minimum it must keep.
pub open spec fn spec_withdraw_sol(
    desk: &Desk,
    caller: Identity,
    desk_key: Identity,
    desk_signer: Identity,
    min_balance: u64,
    current_balance: u64,
    lamports: u64,
) -> Result<(), OtcError> {
    if !desk.is_owner(caller) || desk_signer != desk_key {
        Err(OtcError::NotOwner)
    } else if lamports > current_balance {
        Err(OtcError::Overflow)
    } else if current_balance - lamports < min_balance {
        Err(OtcError::BadState)
    } else {
        Ok(())
    }
}

/// Decides an owner withdrawal of native asset. `min_balance` is the floor
/// that the ledger sets for the desk record and `current_balance` what the
/// record holds now. On success the caller moves `lamports` out of the desk.
pub fn withdraw_sol(
    desk: &Desk,
    caller: &Identity,
    desk_key: &Identity,
    desk_signer: &Identity,
    min_balance: u64,
    current_balance: u64,
    lamports: u64,
) -> (r: Result<(), OtcError>)
    ensures
        r == spec_withdraw_sol(
            desk,
            *caller,
            *desk_key,
            *desk_signer,
            min_balance,
            current_balance,
            lamports,
        ),
{
    only_owner(desk, caller)?;
    if *desk_signer != *desk_key {
        return Err(OtcError::NotOwner);
    }
    match current_balance.checked_sub(lamports) {
        None => Err(OtcError::Overflow),
        Some(after) => {
            if after >= min_balance {
                Ok(())
            } else {
                Err(OtcError::BadState)
            }
        },
    }
}

} // verus!
