//! Arbitrary-precision natural numbers for ledger amounts.
//!
//! Every reserve, share count and payment amount in the pool is a
//! `num_bigint::BigUint`, so no ledger operation can overflow or wrap.
//! The verifier sees such a value only through `big_val`, its mathematical
//! value, and through the small trusted wrappers below, one per arithmetic
//! operation of the outside crate.

use vstd::prelude::*;
use num_bigint::BigUint;

verus! {

#[verifier::external_type_specification]
#[verifier::external_body]
pub struct ExBigUint(BigUint);

/// The natural number that a `BigUint` holds.
pub uninterp spec fn big_val(a: BigUint) -> nat;

/// Relies on `impl From<u64> for BigUint`: builds the number with that value.
#[verifier::external_body]
pub fn big_from_u64(x: u64) -> (r: BigUint)
    ensures
        big_val(r) == x as nat,
{
    BigUint::from(x)
}

/// Relies on `impl Clone for BigUint`: the copy holds the same value.
#[verifier::external_body]
pub fn big_clone(a: &BigUint) -> (r: BigUint)
    ensures
        big_val(r) == big_val(*a),
{
    a.clone()
}

/// Relies on `impl Add for &BigUint`: exact addition.
#[verifier::external_body]
pub fn big_add(a: &BigUint, b: &BigUint) -> (r: BigUint)
    ensures
        big_val(r) == big_val(*a) + big_val(*b),
{
    a + b
}

/// Relies on `impl Sub for &BigUint`: exact subtraction. The outside
/// implementation panics when the result would be negative, so that case
/// is excluded here.
#[verifier::external_body]
pub fn big_sub(a: &BigUint, b: &BigUint) -> (r: BigUint)
    requires
        big_val(*b) <= big_val(*a),
    ensures
        big_val(r) == big_val(*a) - big_val(*b),
{
    a - b
}

/// Relies on `impl Mul for &BigUint`: exact multiplication.
#[verifier::external_body]
pub fn big_mul(a: &BigUint, b: &BigUint) -> (r: BigUint)
    ensures
        big_val(r) == big_val(*a) * big_val(*b),
{
    a * b
}

/// Relies on `impl Div for &BigUint`: quotient rounded towards zero, which
/// on natural numbers is the floor. The outside implementation panics on a
/// zero divisor, so that case is excluded here.
#[verifier::external_body]
pub fn big_div(a: &BigUint, b: &BigUint) -> (r: BigUint)
    requires
        big_val(*b) > 0,
    ensures
        big_val(r) == big_val(*a) / big_val(*b),
{
    a / b
}

/// Relies on `PartialOrd::lt` for `BigUint`, whose `Ord` implementation
/// orders by numeric value.
#[verifier::external_body]
pub fn big_lt(a: &BigUint, b: &BigUint) -> (r: bool)
    ensures
        r == (big_val(*a) < big_val(*b)),
{
    a < b
}

/// Relies on `PartialOrd::le` for `BigUint`, whose `Ord` implementation
/// orders by numeric value.
#[verifier::external_body]
pub fn big_le(a: &BigUint, b: &BigUint) -> (r: bool)
    ensures
        r == (big_val(*a) <= big_val(*b)),
{
    a <= b
}

/// Relies on `PartialEq::eq` for `BigUint`: equality of numeric values.
#[verifier::external_body]
pub fn big_eq(a: &BigUint, b: &BigUint) -> (r: bool)
    ensures
        r == (big_val(*a) == big_val(*b)),
{
    a == b
}

} // verus!
