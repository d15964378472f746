//! Reward accounting for staked positions, as the reward-farm
//! collaborator computes it: emissions accrue per block into a global
//! reward-per-share accumulator, and a position's accrued reward is its
//! principal times the accumulator growth since it entered,
//! floor-rounded, with any remainder left unclaimed in the pool.

use vstd::prelude::*;
use num_bigint::BigUint;
use crate::bigint::{big_val, big_from_u64, big_add, big_sub, big_mul, big_div, big_lt};

verus! {

/// The attributes bundle a position carries: the accumulator snapshot
/// taken when it entered, the epoch it entered, and its principal.
pub struct FarmTokenAttributes {
    pub reward_per_share: BigUint,
    pub entering_epoch: u64,
    pub initial_farming_amount: BigUint,
}

/// What the accumulator becomes when `emitted` reward units are spread
/// over `total_principal` staked units, at fixed-point scale
/// `division_safety`.
pub open spec fn reward_per_share_after(
    reward_per_share: nat,
    emitted: nat,
    total_principal: nat,
    division_safety: nat,
) -> nat
    recommends
        total_principal > 0,
{
    reward_per_share + emitted * division_safety / total_principal
}

/// A position's accrued reward for the accumulator growth from
/// `snapshot` to `current`, floor-rounded; a stale accumulator accrues
/// nothing.
pub open spec fn rewards_for_position_val(
    principal: nat,
    snapshot: nat,
    current: nat,
    division_safety: nat,
) -> nat
    recommends
        division_safety > 0,
{
    if current > snapshot {
        principal * ((current - snapshot) as nat) / division_safety
    } else {
        0
    }
}

/// Spreads `emitted` reward units over the staked total, growing the
/// global reward-per-share accumulator.
pub fn update_reward_per_share(
    reward_per_share: &BigUint,
    emitted: &BigUint,
    total_principal: &BigUint,
    division_safety: &BigUint,
) -> (r: BigUint)
    requires
        big_val(*total_principal) > 0,
    ensures
        big_val(r) == reward_per_share_after(
            big_val(*reward_per_share),
            big_val(*emitted),
            big_val(*total_principal),
            big_val(*division_safety),
        ),
{
    big_add(reward_per_share, &big_div(&big_mul(emitted, division_safety), total_principal))
}

/// The reward a position may claim, given the current accumulator: its
/// principal times the accumulator growth since its snapshot, scaled
/// back down by the division-safety constant.
pub fn calculate_rewards_for_given_position(
    farm_token_amount: &BigUint,
    attributes: &FarmTokenAttributes,
    current_reward_per_share: &BigUint,
    division_safety: &BigUint,
) -> (r: BigUint)
    requires
        big_val(*division_safety) > 0,
    ensures
        big_val(r) == rewards_for_position_val(
            big_val(*farm_token_amount),
            big_val(attributes.reward_per_share),
            big_val(*current_reward_per_share),
            big_val(*division_safety),
        ),
{
    if big_lt(&attributes.reward_per_share, current_reward_per_share) {
        let growth = big_sub(current_reward_per_share, &attributes.reward_per_share);
        big_div(&big_mul(farm_token_amount, &growth), division_safety)
    } else {
        big_from_u64(0)
    }
}

} // verus!
