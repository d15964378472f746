//! Time-weighted price oracle.
//!
//! Before a pool operation changes the reserves, the oracle accumulates
//! `spot_price * elapsed_blocks` into a running integral, at most once
//! per block: later operations within the same block see an unchanged
//! observation, so intra-block reserve manipulation cannot inflate the
//! time-weighted average.

use vstd::prelude::*;
use num_bigint::BigUint;
use crate::bigint::{big_val, big_from_u64, big_add, big_sub, big_mul, big_div, big_eq, big_le};
use crate::errors::Error;

verus! {

/// Fixed-point scale of the spot price: one unit of the first token is
/// quoted as `second_reserve * PRICE_SCALE / first_reserve`.
pub const PRICE_SCALE: u64 = 1_000_000_000_000_000_000;

/// A persistent price observation, mutated at most once per block.
pub struct PriceObservation {
    pub cumulative_price_integral: BigUint,
    pub last_update_block: u64,
    pub last_reserve_ratio: BigUint,
}

/// The mathematical value of a price observation.
pub ghost struct ObservationModel {
    pub cumulative_price_integral: nat,
    pub last_update_block: u64,
    pub last_reserve_ratio: nat,
}

impl View for PriceObservation {
    type V = ObservationModel;

    open spec fn view(&self) -> ObservationModel {
        ObservationModel {
            cumulative_price_integral: big_val(self.cumulative_price_integral),
            last_update_block: self.last_update_block,
            last_reserve_ratio: big_val(self.last_reserve_ratio),
        }
    }
}

/// The scaled spot price of the first token in units of the second.
pub open spec fn spot_price_val(first_reserve: nat, second_reserve: nat) -> nat
    recommends
        first_reserve > 0,
{
    second_reserve * (PRICE_SCALE as nat) / first_reserve
}

/// What an observation becomes when a pool touched at `current_block`
/// reports reserves `(first_reserve, second_reserve)`: accumulate once
/// per block, and only while both sides are seeded.
pub open spec fn observation_after(
    o: ObservationModel,
    first_reserve: nat,
    second_reserve: nat,
    current_block: u64,
) -> ObservationModel {
    if current_block > o.last_update_block && first_reserve > 0 && second_reserve > 0 {
        let price = spot_price_val(first_reserve, second_reserve);
        ObservationModel {
            cumulative_price_integral: o.cumulative_price_integral + price * (current_block
                - o.last_update_block) as nat,
            last_update_block: current_block,
            last_reserve_ratio: price,
        }
    } else {
        o
    }
}

impl PriceObservation {
    /// A fresh observation with an empty integral.
    pub fn new() -> (r: PriceObservation)
        ensures
            r@ == (ObservationModel {
                cumulative_price_integral: 0,
                last_update_block: 0,
                last_reserve_ratio: 0,
            }),
    {
        PriceObservation {
            cumulative_price_integral: big_from_u64(0),
            last_update_block: 0,
            last_reserve_ratio: big_from_u64(0),
        }
    }

    /// Accumulates the time-weighted price of the reserves as they stand
    /// before the current operation mutates them.
    pub fn update(
        &mut self,
        first_reserve: &BigUint,
        second_reserve: &BigUint,
        current_block: u64,
    )
        ensures
            final(self)@ == observation_after(
                old(self)@,
                big_val(*first_reserve),
                big_val(*second_reserve),
                current_block,
            ),
    {
        if current_block <= self.last_update_block {
            return ;
        }
        let zero = big_from_u64(0);
        if big_eq(first_reserve, &zero) || big_eq(second_reserve, &zero) {
            return ;
        }
        let price = big_div(&big_mul(second_reserve, &big_from_u64(PRICE_SCALE)), first_reserve);
        let elapsed = big_from_u64(current_block - self.last_update_block);
        let weighted = big_mul(&price, &elapsed);
        self.cumulative_price_integral = big_add(&self.cumulative_price_integral, &weighted);
        self.last_update_block = current_block;
        self.last_reserve_ratio = price;
    }

    /// The time-weighted average price between two recorded checkpoints:
    /// the difference of the integrals over the elapsed blocks.
    pub fn average_price(
        integral_start: &BigUint,
        block_start: u64,
        integral_end: &BigUint,
        block_end: u64,
    ) -> (r: Result<BigUint, Error>)
        ensures
            (block_start >= block_end || big_val(*integral_end) < big_val(*integral_start)) <==> r
                == Result::<BigUint, Error>::Err(Error::ZeroAmount),
            block_start < block_end && big_val(*integral_start) <= big_val(*integral_end) ==> (
            r matches Ok(p) && big_val(p) == (big_val(*integral_end) - big_val(
                *integral_start,
            )) as nat / (block_end - block_start) as nat),
    {
        if block_start >= block_end {
            return Err(Error::ZeroAmount);
        }
        if !big_le(integral_start, integral_end) {
            return Err(Error::ZeroAmount);
        }
        let delta = big_sub(integral_end, integral_start);
        let blocks = big_from_u64(block_end - block_start);
        Ok(big_div(&delta, &blocks))
    }
}

} // verus!
