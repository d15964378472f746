//! The pool's activation state, payments, and the per-call state cache.
//!
//! Token identifiers are plain numeric identifiers; `0` stands for an
//! identifier that is not set (the LP token before it is issued) and is
//! never a usable token.

use vstd::prelude::*;
use num_bigint::BigUint;
use crate::bigint::{big_val, big_clone};

verus! {

/// Which operations the pool currently permits: swaps need `Active`,
/// liquidity operations need `PartialActive` or `Active`.
#[derive(Clone, Copy, Debug, PartialEq, Eq, Structural)]
pub enum State {
    Inactive,
    PartialActive,
    Active,
}

/// A token payment: an identifier and an amount.
pub struct Payment {
    pub token_id: u64,
    pub amount: BigUint,
}

/// The mathematical value of a payment.
pub ghost struct PaymentModel {
    pub token_id: u64,
    pub amount: nat,
}

impl View for Payment {
    type V = PaymentModel;

    open spec fn view(&self) -> PaymentModel {
        PaymentModel { token_id: self.token_id, amount: big_val(self.amount) }
    }
}

impl Payment {
    /// A payment of the given token with amount zero.
    pub fn zero(token_id: u64) -> (r: Payment)
        ensures
            r@.token_id == token_id,
            r@.amount == 0,
    {
        Payment { token_id, amount: crate::bigint::big_from_u64(0) }
    }

    pub fn clone_payment(&self) -> (r: Payment)
        ensures
            r@ == self@,
    {
        Payment { token_id: self.token_id, amount: big_clone(&self.amount) }
    }
}

/// Per-call snapshot of the pool's persistent state: loaded once at call
/// entry, mutated in memory, committed at most once at call exit.
pub struct StorageCache {
    pub first_token_id: u64,
    pub second_token_id: u64,
    pub lp_token_id: u64,
    pub first_token_reserve: BigUint,
    pub second_token_reserve: BigUint,
    pub lp_token_supply: BigUint,
    pub contract_state: State,
}

/// The mathematical value of the cached pool state.
pub ghost struct PoolModel {
    pub first_token_id: u64,
    pub second_token_id: u64,
    pub lp_token_id: u64,
    pub first_token_reserve: nat,
    pub second_token_reserve: nat,
    pub lp_token_supply: nat,
    pub contract_state: State,
}

impl View for StorageCache {
    type V = PoolModel;

    open spec fn view(&self) -> PoolModel {
        PoolModel {
            first_token_id: self.first_token_id,
            second_token_id: self.second_token_id,
            lp_token_id: self.lp_token_id,
            first_token_reserve: big_val(self.first_token_reserve),
            second_token_reserve: big_val(self.second_token_reserve),
            lp_token_supply: big_val(self.lp_token_supply),
            contract_state: self.contract_state,
        }
    }
}

} // verus!
