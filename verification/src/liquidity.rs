//! Liquidity engine: optimal deposit ratios, minting and burning of LP
//! shares, and the minimum-liquidity bootstrap rule.
//!
//! Minting rule for the very first deposit: the pool's share supply
//! starts as the smaller of the two deposited amounts, all of it minted
//! to the seeder, and the seed is refused below `MINIMUM_LIQUIDITY`
//! shares. A removal must leave at least `MINIMUM_LIQUIDITY` shares
//! outstanding, so a seeded pool can never be drained to zero.

use vstd::prelude::*;
use num_bigint::BigUint;
use crate::bigint::{
    big_val, big_from_u64, big_clone, big_add, big_sub, big_mul, big_div, big_lt, big_le, big_eq,
};
use crate::amm::quote_val;
use crate::contexts::{AddLiquidityContext, RemoveLiquidityContext};
use crate::errors::Error;
use crate::state::{PoolModel, StorageCache};

verus! {

/// Least share supply a seed must create, and least share supply a
/// removal must leave outstanding.
pub const MINIMUM_LIQUIDITY: u64 = 1_000;

/// The smaller of two naturals.
pub open spec fn nat_min(a: nat, b: nat) -> nat {
    if a <= b {
        a
    } else {
        b
    }
}

/// Shares created by the first deposit: the smaller deposited amount.
pub open spec fn initial_liquidity_val(first_amount: nat, second_amount: nat) -> nat {
    nat_min(first_amount, second_amount)
}

/// Shares minted for a subsequent deposit: the proportional mint of
/// whichever side is worth fewer shares, floor-rounded.
pub open spec fn minted_shares_val(
    lp_supply: nat,
    first_reserve: nat,
    second_reserve: nat,
    first_amount: nat,
    second_amount: nat,
) -> nat
    recommends
        first_reserve > 0,
        second_reserve > 0,
{
    nat_min(lp_supply * first_amount / first_reserve, lp_supply * second_amount / second_reserve)
}

/// Amount of one reserve paid out for burning `shares` of `lp_supply`,
/// floor-rounded in the pool's favor.
pub open spec fn removal_amount_val(reserve: nat, shares: nat, lp_supply: nat) -> nat
    recommends
        lp_supply > 0,
{
    reserve * shares / lp_supply
}

/// The pair of deposit amounts that matches the current reserve ratio:
/// the side that is proportionally scarcer is taken in full and the
/// other side is derived by a spot quote.
pub open spec fn optimal_amounts_val(
    first_desired: nat,
    second_desired: nat,
    first_reserve: nat,
    second_reserve: nat,
) -> (nat, nat)
    recommends
        first_reserve > 0,
        second_reserve > 0,
{
    if first_desired * second_reserve <= second_desired * first_reserve {
        (first_desired, quote_val(first_desired, first_reserve, second_reserve))
    } else {
        (quote_val(second_desired, second_reserve, first_reserve), second_desired)
    }
}

/// The smaller of two amounts, as a fresh value.
pub fn biguint_min(a: &BigUint, b: &BigUint) -> (r: BigUint)
    ensures
        big_val(r) == nat_min(big_val(*a), big_val(*b)),
{
    if big_le(a, b) {
        big_clone(a)
    } else {
        big_clone(b)
    }
}

/// Seeds the pool: the reserves become exactly the two deposited
/// amounts and the share supply becomes the smaller amount, refused
/// below `MINIMUM_LIQUIDITY`.
pub fn pool_add_initial_liquidity(
    first_token_optimal_amount: &BigUint,
    second_token_optimal_amount: &BigUint,
    storage_cache: &mut StorageCache,
) -> (r: Result<BigUint, Error>)
    ensures
        ({
            let liq = initial_liquidity_val(
                big_val(*first_token_optimal_amount),
                big_val(*second_token_optimal_amount),
            );
            &&& liq < MINIMUM_LIQUIDITY <==> r == Result::<BigUint, Error>::Err(Error::ZeroAmount)
            &&& r is Err ==> final(storage_cache)@ == old(storage_cache)@
            &&& liq >= MINIMUM_LIQUIDITY ==> (r matches Ok(l) && big_val(l) == liq
                && final(storage_cache)@ == (PoolModel {
                first_token_reserve: old(storage_cache)@.first_token_reserve + big_val(
                    *first_token_optimal_amount,
                ),
                second_token_reserve: old(storage_cache)@.second_token_reserve + big_val(
                    *second_token_optimal_amount,
                ),
                lp_token_supply: liq,
                ..old(storage_cache)@
            }))
        }),
{
    let liq = biguint_min(first_token_optimal_amount, second_token_optimal_amount);
    let minimum_liquidity = big_from_u64(MINIMUM_LIQUIDITY);
    if big_lt(&liq, &minimum_liquidity) {
        return Err(Error::ZeroAmount);
    }
    storage_cache.lp_token_supply = big_clone(&liq);
    storage_cache.first_token_reserve = big_add(
        &storage_cache.first_token_reserve,
        first_token_optimal_amount,
    );
    storage_cache.second_token_reserve = big_add(
        &storage_cache.second_token_reserve,
        second_token_optimal_amount,
    );
    Ok(liq)
}

/// Mints shares for a subsequent deposit at the current reserve ratio
/// and credits both deposited amounts to the reserves.
pub fn pool_add_liquidity(
    first_token_optimal_amount: &BigUint,
    second_token_optimal_amount: &BigUint,
    storage_cache: &mut StorageCache,
) -> (r: Result<BigUint, Error>)
    requires
        old(storage_cache)@.first_token_reserve > 0,
        old(storage_cache)@.second_token_reserve > 0,
        old(storage_cache)@.lp_token_supply > 0,
    ensures
        ({
            let minted = minted_shares_val(
                old(storage_cache)@.lp_token_supply,
                old(storage_cache)@.first_token_reserve,
                old(storage_cache)@.second_token_reserve,
                big_val(*first_token_optimal_amount),
                big_val(*second_token_optimal_amount),
            );
            &&& minted == 0 <==> r == Result::<BigUint, Error>::Err(Error::ZeroAmount)
            &&& r is Err ==> final(storage_cache)@ == old(storage_cache)@
            &&& minted > 0 ==> (r matches Ok(l) && big_val(l) == minted && final(storage_cache)@
                == (PoolModel {
                first_token_reserve: old(storage_cache)@.first_token_reserve + big_val(
                    *first_token_optimal_amount,
                ),
                second_token_reserve: old(storage_cache)@.second_token_reserve + big_val(
                    *second_token_optimal_amount,
                ),
                lp_token_supply: old(storage_cache)@.lp_token_supply + minted,
                ..old(storage_cache)@
            }))
        }),
{
    let first_potential = big_div(
        &big_mul(&storage_cache.lp_token_supply, first_token_optimal_amount),
        &storage_cache.first_token_reserve,
    );
    let second_potential = big_div(
        &big_mul(&storage_cache.lp_token_supply, second_token_optimal_amount),
        &storage_cache.second_token_reserve,
    );
    let liquidity = biguint_min(&first_potential, &second_potential);
    let zero = big_from_u64(0);
    if big_eq(&liquidity, &zero) {
        return Err(Error::ZeroAmount);
    }
    storage_cache.lp_token_supply = big_add(&storage_cache.lp_token_supply, &liquidity);
    storage_cache.first_token_reserve = big_add(
        &storage_cache.first_token_reserve,
        first_token_optimal_amount,
    );
    storage_cache.second_token_reserve = big_add(
        &storage_cache.second_token_reserve,
        second_token_optimal_amount,
    );
    Ok(liquidity)
}

/// Burns the LP shares of the context's payment and pays out the
/// proportional slice of each reserve, floor-rounded.
pub fn pool_remove_liquidity(
    context: &mut RemoveLiquidityContext,
    storage_cache: &mut StorageCache,
) -> (r: Result<(), Error>)
    ensures
        ({
            let shares = old(context)@.lp_token_payment.amount;
            let lp_supply = old(storage_cache)@.lp_token_supply;
            let first_out = removal_amount_val(
                old(storage_cache)@.first_token_reserve,
                shares,
                lp_supply,
            );
            let second_out = removal_amount_val(
                old(storage_cache)@.second_token_reserve,
                shares,
                lp_supply,
            );
            &&& r is Err ==> final(storage_cache)@ == old(storage_cache)@ && final(context)@ == old(context)@
            &&& r is Err ==> (r == Result::<(), Error>::Err(Error::InsufficientReserve) || r
                == Result::<(), Error>::Err(Error::SlippageExceeded))
            &&& shares + MINIMUM_LIQUIDITY > lp_supply <==> r == Result::<(), Error>::Err(
                Error::InsufficientReserve,
            )
            &&& shares + MINIMUM_LIQUIDITY <= lp_supply ==> ((first_out
                < old(context)@.first_token_amount_min || second_out < old(
                context,
            )@.second_token_amount_min) <==> r == Result::<(), Error>::Err(
                Error::SlippageExceeded,
            ))
            &&& r is Ok ==> (final(storage_cache)@ == (PoolModel {
                first_token_reserve: (old(storage_cache)@.first_token_reserve - first_out) as nat,
                second_token_reserve: (old(storage_cache)@.second_token_reserve
                    - second_out) as nat,
                lp_token_supply: (lp_supply - shares) as nat,
                ..old(storage_cache)@
            }) && final(context)@ == (crate::contexts::RemoveLiquidityContextModel {
                first_token_amount_removed: first_out,
                second_token_amount_removed: second_out,
                ..old(context)@
            }))
        }),
{
    let shares_plus_floor = big_add(
        &context.lp_token_payment.amount,
        &big_from_u64(MINIMUM_LIQUIDITY),
    );
    if !big_le(&shares_plus_floor, &storage_cache.lp_token_supply) {
        return Err(Error::InsufficientReserve);
    }
    let first_out = big_div(
        &big_mul(
            &storage_cache.first_token_reserve,
            &context.lp_token_payment.amount,
        ),
        &storage_cache.lp_token_supply,
    );
    let second_out = big_div(
        &big_mul(
            &storage_cache.second_token_reserve,
            &context.lp_token_payment.amount,
        ),
        &storage_cache.lp_token_supply,
    );
    if big_lt(&first_out, &context.first_token_amount_min) || big_lt(
        &second_out,
        &context.second_token_amount_min,
    ) {
        return Err(Error::SlippageExceeded);
    }
    proof {
        let lp_supply = old(storage_cache)@.lp_token_supply;
        let first_reserve = old(storage_cache)@.first_token_reserve;
        let second_reserve = old(storage_cache)@.second_token_reserve;
        let shares = old(context)@.lp_token_payment.amount;
        let first_removed = big_val(first_out);
        let second_removed = big_val(second_out);
        crate::laws::lemma_div_bounds(first_reserve * shares, lp_supply);
        crate::laws::lemma_div_bounds(second_reserve * shares, lp_supply);
        assert(first_removed <= first_reserve && second_removed <= second_reserve)
            by (nonlinear_arith)
            requires
                lp_supply > 0,
                shares <= lp_supply,
                first_removed >= 0,
                second_removed >= 0,
                lp_supply * first_removed <= first_reserve * shares,
                lp_supply * second_removed <= second_reserve * shares,
                first_reserve >= 0,
                second_reserve >= 0,
        ;
    }
    storage_cache.lp_token_supply = big_sub(
        &storage_cache.lp_token_supply,
        &context.lp_token_payment.amount,
    );
    storage_cache.first_token_reserve = big_sub(&storage_cache.first_token_reserve, &first_out);
    storage_cache.second_token_reserve = big_sub(&storage_cache.second_token_reserve, &second_out);
    context.first_token_amount_removed = first_out;
    context.second_token_amount_removed = second_out;
    Ok(())
}

/// Fills the context's optimal deposit amounts: the held-fixed side is
/// taken in full, the other side is quoted from the reserve ratio and
/// checked against the caller's floor for that side.
pub fn set_optimal_amounts(
    context: &mut AddLiquidityContext,
    storage_cache: &StorageCache,
) -> (r: Result<(), Error>)
    requires
        storage_cache@.first_token_reserve > 0,
        storage_cache@.second_token_reserve > 0,
    ensures
        ({
            let first_desired = old(context)@.first_payment.amount;
            let second_desired = old(context)@.second_payment.amount;
            let pair = optimal_amounts_val(
                first_desired,
                second_desired,
                storage_cache@.first_token_reserve,
                storage_cache@.second_token_reserve,
            );
            &&& r is Err ==> final(context)@ == old(context)@ && r == Result::<(), Error>::Err(
                Error::SlippageExceeded,
            )
            &&& (if first_desired * storage_cache@.second_token_reserve <= second_desired
                * storage_cache@.first_token_reserve {
                pair.1 < old(context)@.second_token_amount_min
            } else {
                pair.0 < old(context)@.first_token_amount_min
            }) <==> r == Result::<(), Error>::Err(Error::SlippageExceeded)
            &&& r is Ok ==> (final(context)@ == (crate::contexts::AddLiquidityContextModel {
                first_token_optimal_amount: pair.0,
                second_token_optimal_amount: pair.1,
                ..old(context)@
            }) && pair.0 <= first_desired && pair.1 <= second_desired)
        }),
{
    let first_scaled = big_mul(&context.first_payment.amount, &storage_cache.second_token_reserve);
    let second_scaled = big_mul(&context.second_payment.amount, &storage_cache.first_token_reserve);
    if big_le(&first_scaled, &second_scaled) {
        let second_optimal = big_div(&first_scaled, &storage_cache.first_token_reserve);
        proof {
            vstd::arithmetic::div_mod::lemma_div_is_ordered(
                big_val(first_scaled) as int,
                big_val(second_scaled) as int,
                storage_cache@.first_token_reserve as int,
            );
            vstd::arithmetic::div_mod::lemma_div_by_multiple(
                old(context)@.second_payment.amount as int,
                storage_cache@.first_token_reserve as int,
            );
        }
        if big_lt(&second_optimal, &context.second_token_amount_min) {
            return Err(Error::SlippageExceeded);
        }
        context.first_token_optimal_amount = big_clone(&context.first_payment.amount);
        context.second_token_optimal_amount = second_optimal;
        Ok(())
    } else {
        let first_optimal = big_div(&second_scaled, &storage_cache.second_token_reserve);
        proof {
            vstd::arithmetic::div_mod::lemma_div_is_ordered(
                big_val(second_scaled) as int,
                big_val(first_scaled) as int,
                storage_cache@.second_token_reserve as int,
            );
            vstd::arithmetic::div_mod::lemma_div_by_multiple(
                old(context)@.first_payment.amount as int,
                storage_cache@.second_token_reserve as int,
            );
        }
        if big_lt(&first_optimal, &context.first_token_amount_min) {
            return Err(Error::SlippageExceeded);
        }
        context.first_token_optimal_amount = first_optimal;
        context.second_token_optimal_amount = big_clone(&context.second_payment.amount);
        Ok(())
    }
}

/// The slice of each reserve a given share count is worth right now,
/// floor-rounded; the read-only counterpart of a removal.
pub fn get_both_tokens_for_given_position(
    liquidity: &BigUint,
    storage_cache: &StorageCache,
) -> (r: Result<(BigUint, BigUint), Error>)
    ensures
        storage_cache@.lp_token_supply == 0 <==> r == Result::<(BigUint, BigUint), Error>::Err(
            Error::NotSeeded,
        ),
        storage_cache@.lp_token_supply > 0 ==> (r matches Ok(pair) && big_val(pair.0)
            == removal_amount_val(
            storage_cache@.first_token_reserve,
            big_val(*liquidity),
            storage_cache@.lp_token_supply,
        ) && big_val(pair.1) == removal_amount_val(
            storage_cache@.second_token_reserve,
            big_val(*liquidity),
            storage_cache@.lp_token_supply,
        )),
{
    let zero = big_from_u64(0);
    if big_eq(&storage_cache.lp_token_supply, &zero) {
        return Err(Error::NotSeeded);
    }
    let first_amount = big_div(
        &big_mul(&storage_cache.first_token_reserve, liquidity),
        &storage_cache.lp_token_supply,
    );
    let second_amount = big_div(
        &big_mul(&storage_cache.second_token_reserve, liquidity),
        &storage_cache.lp_token_supply,
    );
    Ok((first_amount, second_amount))
}

} // verus!
