//! Fixed-point AMM math: swap output/input and spot quotes from reserves
//! and a fee rate. Pure functions, no state.
//!
//! All divisions are truncating (floor) and all formulas round in the
//! pool's favor: `get_amount_out` floors the output, `get_amount_in`
//! takes the floor plus one.

use vstd::prelude::*;
use num_bigint::BigUint;
use crate::bigint::{big_val, big_from_u64, big_add, big_mul, big_div, big_lt, big_eq};
use crate::errors::Error;
use crate::MAX_RATE;

verus! {

/// The constant product of the two reserves.
pub open spec fn k_val(first_reserve: nat, second_reserve: nat) -> nat {
    first_reserve * second_reserve
}

/// Fee-free spot conversion: `amount_in * reserve_out / reserve_in`.
pub open spec fn quote_val(amount_in: nat, reserve_in: nat, reserve_out: nat) -> nat
    recommends
        reserve_in > 0,
{
    amount_in * reserve_out / reserve_in
}

/// Output of a fixed-input swap: the fee-reduced input is exchanged at
/// the constant-product rate, floor-rounded.
pub open spec fn amount_out_val(
    amount_in: nat,
    reserve_in: nat,
    reserve_out: nat,
    fee_rate: nat,
) -> nat
    recommends
        fee_rate <= MAX_RATE,
        reserve_in > 0,
{
    let amount_in_with_fee = amount_in * ((MAX_RATE - fee_rate) as nat);
    amount_in_with_fee * reserve_out / (reserve_in * (MAX_RATE as nat) + amount_in_with_fee)
}

/// Output of the fee-free privileged swap: `amount_in * reserve_out /
/// (reserve_in + amount_in)`, floor-rounded.
pub open spec fn amount_out_no_fee_val(amount_in: nat, reserve_in: nat, reserve_out: nat) -> nat
    recommends
        reserve_in + amount_in > 0,
{
    amount_in * reserve_out / (reserve_in + amount_in)
}

/// Input of a fixed-output swap: the exact inverse of `amount_out_val`,
/// rounded up by taking the floor plus one.
pub open spec fn amount_in_val(
    amount_out: nat,
    reserve_in: nat,
    reserve_out: nat,
    fee_rate: nat,
) -> nat
    recommends
        fee_rate < MAX_RATE,
        amount_out < reserve_out,
{
    let numerator = reserve_in * amount_out * (MAX_RATE as nat);
    let denominator = ((reserve_out - amount_out) as nat) * ((MAX_RATE - fee_rate) as nat);
    numerator / denominator + 1
}

/// The protocol's slice of a swap input: `amount_in * special_fee_rate /
/// MAX_RATE`, floor-rounded.
pub open spec fn special_fee_val(amount_in: nat, special_fee_rate: nat) -> nat {
    amount_in * special_fee_rate / (MAX_RATE as nat)
}

/// The constant product `K` of the two reserves.
pub fn calculate_k_constant(first_reserve: &BigUint, second_reserve: &BigUint) -> (r: BigUint)
    ensures
        big_val(r) == k_val(big_val(*first_reserve), big_val(*second_reserve)),
{
    big_mul(first_reserve, second_reserve)
}

/// Fee-free spot conversion of `amount_in` units of the input token into
/// the output token, at the current reserve ratio.
///
/// Refuses a zero `amount_in`; an unseeded side quotes as zero.
pub fn quote(amount_in: &BigUint, reserve_in: &BigUint, reserve_out: &BigUint) -> (r: Result<
    BigUint,
    Error,
>)
    ensures
        big_val(*amount_in) == 0 <==> r == Result::<BigUint, Error>::Err(Error::ZeroAmount),
        big_val(*amount_in) > 0 && (big_val(*reserve_in) == 0 || big_val(*reserve_out) == 0)
            ==> (r matches Ok(q) && big_val(q) == 0),
        big_val(*amount_in) > 0 && big_val(*reserve_in) > 0 && big_val(*reserve_out) > 0 ==> (
        r matches Ok(q) && big_val(q) == quote_val(
            big_val(*amount_in),
            big_val(*reserve_in),
            big_val(*reserve_out),
        )),
{
    let zero = big_from_u64(0);
    if big_eq(amount_in, &zero) {
        return Err(Error::ZeroAmount);
    }
    if big_eq(reserve_in, &zero) || big_eq(reserve_out, &zero) {
        return Ok(zero);
    }
    Ok(big_div(&big_mul(amount_in, reserve_out), reserve_in))
}

/// Output granted for a fixed input of `amount_in`, after the total fee.
pub fn get_amount_out(
    amount_in: &BigUint,
    reserve_in: &BigUint,
    reserve_out: &BigUint,
    total_fee_rate: u64,
) -> (r: BigUint)
    requires
        total_fee_rate <= MAX_RATE,
        big_val(*reserve_in) > 0,
    ensures
        big_val(r) == amount_out_val(
            big_val(*amount_in),
            big_val(*reserve_in),
            big_val(*reserve_out),
            total_fee_rate as nat,
        ),
{
    let max_rate = big_from_u64(MAX_RATE);
    let fee_complement = big_from_u64(MAX_RATE - total_fee_rate);
    let amount_in_with_fee = big_mul(amount_in, &fee_complement);
    let numerator = big_mul(&amount_in_with_fee, reserve_out);
    let denominator = big_add(&big_mul(reserve_in, &max_rate), &amount_in_with_fee);
    proof {
        vstd::arithmetic::mul::lemma_mul_strictly_positive(
            big_val(*reserve_in) as int,
            MAX_RATE as int,
        );
    }
    big_div(&numerator, &denominator)
}

/// Output granted for a fixed input of `amount_in` on the fee-free path.
pub fn get_amount_out_no_fee(
    amount_in: &BigUint,
    reserve_in: &BigUint,
    reserve_out: &BigUint,
) -> (r: BigUint)
    requires
        big_val(*amount_in) > 0 || big_val(*reserve_in) > 0,
    ensures
        big_val(r) == amount_out_no_fee_val(
            big_val(*amount_in),
            big_val(*reserve_in),
            big_val(*reserve_out),
        ),
{
    let numerator = big_mul(amount_in, reserve_out);
    let denominator = big_add(reserve_in, amount_in);
    big_div(&numerator, &denominator)
}

/// Input demanded for a fixed output of `amount_out`, after the total fee.
///
/// Refuses the request when the output reserve cannot cover it.
pub fn get_amount_in(
    amount_out: &BigUint,
    reserve_in: &BigUint,
    reserve_out: &BigUint,
    total_fee_rate: u64,
) -> (r: Result<BigUint, Error>)
    requires
        total_fee_rate < MAX_RATE,
    ensures
        big_val(*amount_out) >= big_val(*reserve_out) <==> r == Result::<BigUint, Error>::Err(
            Error::InsufficientReserve,
        ),
        big_val(*amount_out) < big_val(*reserve_out) ==> (r matches Ok(a) && big_val(a)
            == amount_in_val(
            big_val(*amount_out),
            big_val(*reserve_in),
            big_val(*reserve_out),
            total_fee_rate as nat,
        )),
{
    if !big_lt(amount_out, reserve_out) {
        return Err(Error::InsufficientReserve);
    }
    let max_rate = big_from_u64(MAX_RATE);
    let fee_complement = big_from_u64(MAX_RATE - total_fee_rate);
    let numerator = big_mul(&big_mul(reserve_in, amount_out), &max_rate);
    let remaining_out = crate::bigint::big_sub(reserve_out, amount_out);
    let denominator = big_mul(&remaining_out, &fee_complement);
    proof {
        vstd::arithmetic::mul::lemma_mul_strictly_positive(
            big_val(remaining_out) as int,
            (MAX_RATE - total_fee_rate) as int,
        );
    }
    let one = big_from_u64(1);
    Ok(big_add(&big_div(&numerator, &denominator), &one))
}

/// The protocol's ("special") slice of a swap input.
pub fn get_special_fee_from_input(amount_in: &BigUint, special_fee_rate: u64) -> (r: BigUint)
    ensures
        big_val(r) == special_fee_val(big_val(*amount_in), special_fee_rate as nat),
{
    let rate = big_from_u64(special_fee_rate);
    let max_rate = big_from_u64(MAX_RATE);
    big_div(&big_mul(amount_in, &rate), &max_rate)
}

} // verus!
