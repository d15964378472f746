//! A constant-product automated market maker for a two-token liquidity pool.
//!
//! The pool keeps two token reserves, issues fungible LP shares against
//! contributed liquidity, and executes swaps under the constant-product
//! invariant `K = first_reserve * second_reserve` with a configurable fee
//! split between liquidity providers and a protocol treasury.
//!
//! All ledger amounts are arbitrary-precision natural numbers; the
//! contracts of every operation are stated over their mathematical values.

use vstd::prelude::*;

pub mod amm;
pub mod bigint;
pub mod contexts;
pub mod errors;
pub mod fee;
pub mod liquidity;
pub mod laws;
pub mod pair;
pub mod pausing;
pub mod rewards;
pub mod safe_price;
pub mod state;

verus! {

/// Common denominator of the fixed-point fee rates: a `total_fee_rate` of
/// `MAX_RATE` would mean the whole input is taken as fee.
pub const MAX_RATE: u64 = 100_000;

} // verus!
