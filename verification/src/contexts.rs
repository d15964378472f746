//! Per-call working aggregates: one context per liquidity addition,
//! liquidity removal or swap. A context is created at operation entry
//! and discarded at operation exit; it never outlives a single call.

use vstd::prelude::*;
use num_bigint::BigUint;
use crate::bigint::{big_val, big_from_u64, big_clone};
use crate::state::{Payment, PaymentModel};

verus! {

/// Working state of one add-liquidity call.
pub struct AddLiquidityContext {
    pub first_payment: Payment,
    pub second_payment: Payment,
    pub first_token_amount_min: BigUint,
    pub second_token_amount_min: BigUint,
    pub first_token_optimal_amount: BigUint,
    pub second_token_optimal_amount: BigUint,
    pub liq_added: BigUint,
}

pub ghost struct AddLiquidityContextModel {
    pub first_payment: PaymentModel,
    pub second_payment: PaymentModel,
    pub first_token_amount_min: nat,
    pub second_token_amount_min: nat,
    pub first_token_optimal_amount: nat,
    pub second_token_optimal_amount: nat,
    pub liq_added: nat,
}

impl View for AddLiquidityContext {
    type V = AddLiquidityContextModel;

    open spec fn view(&self) -> AddLiquidityContextModel {
        AddLiquidityContextModel {
            first_payment: self.first_payment@,
            second_payment: self.second_payment@,
            first_token_amount_min: big_val(self.first_token_amount_min),
            second_token_amount_min: big_val(self.second_token_amount_min),
            first_token_optimal_amount: big_val(self.first_token_optimal_amount),
            second_token_optimal_amount: big_val(self.second_token_optimal_amount),
            liq_added: big_val(self.liq_added),
        }
    }
}

impl AddLiquidityContext {
    /// A fresh context: the optimal amounts and the minted share count
    /// start at zero and are filled in as the call progresses.
    pub fn new(
        first_payment: Payment,
        second_payment: Payment,
        first_token_amount_min: BigUint,
        second_token_amount_min: BigUint,
    ) -> (r: AddLiquidityContext)
        ensures
            r@.first_payment == first_payment@,
            r@.second_payment == second_payment@,
            r@.first_token_amount_min == big_val(first_token_amount_min),
            r@.second_token_amount_min == big_val(second_token_amount_min),
            r@.first_token_optimal_amount == 0,
            r@.second_token_optimal_amount == 0,
            r@.liq_added == 0,
    {
        AddLiquidityContext {
            first_payment,
            second_payment,
            first_token_amount_min,
            second_token_amount_min,
            first_token_optimal_amount: big_from_u64(0),
            second_token_optimal_amount: big_from_u64(0),
            liq_added: big_from_u64(0),
        }
    }
}

/// Working state of one remove-liquidity call.
pub struct RemoveLiquidityContext {
    pub lp_token_payment: Payment,
    pub first_token_amount_min: BigUint,
    pub second_token_amount_min: BigUint,
    pub first_token_amount_removed: BigUint,
    pub second_token_amount_removed: BigUint,
}

pub ghost struct RemoveLiquidityContextModel {
    pub lp_token_payment: PaymentModel,
    pub first_token_amount_min: nat,
    pub second_token_amount_min: nat,
    pub first_token_amount_removed: nat,
    pub second_token_amount_removed: nat,
}

impl View for RemoveLiquidityContext {
    type V = RemoveLiquidityContextModel;

    open spec fn view(&self) -> RemoveLiquidityContextModel {
        RemoveLiquidityContextModel {
            lp_token_payment: self.lp_token_payment@,
            first_token_amount_min: big_val(self.first_token_amount_min),
            second_token_amount_min: big_val(self.second_token_amount_min),
            first_token_amount_removed: big_val(self.first_token_amount_removed),
            second_token_amount_removed: big_val(self.second_token_amount_removed),
        }
    }
}

impl RemoveLiquidityContext {
    /// A fresh context: the removed amounts start at zero.
    pub fn new(
        lp_token_payment: Payment,
        first_token_amount_min: BigUint,
        second_token_amount_min: BigUint,
    ) -> (r: RemoveLiquidityContext)
        ensures
            r@.lp_token_payment == lp_token_payment@,
            r@.first_token_amount_min == big_val(first_token_amount_min),
            r@.second_token_amount_min == big_val(second_token_amount_min),
            r@.first_token_amount_removed == 0,
            r@.second_token_amount_removed == 0,
    {
        RemoveLiquidityContext {
            lp_token_payment,
            first_token_amount_min,
            second_token_amount_min,
            first_token_amount_removed: big_from_u64(0),
            second_token_amount_removed: big_from_u64(0),
        }
    }
}

/// Working state of one swap call. For a fixed-input swap,
/// `input_amount` is the exact input and `output_amount` the caller's
/// minimum; for a fixed-output swap, `input_amount` is the caller's
/// maximum and `output_amount` the exact output.
pub struct SwapContext {
    pub input_token_id: u64,
    pub output_token_id: u64,
    pub input_amount: BigUint,
    pub output_amount: BigUint,
    pub reserve_in: BigUint,
    pub reserve_out: BigUint,
    pub fee_amount: BigUint,
    pub final_input_amount: BigUint,
    pub final_output_amount: BigUint,
}

pub ghost struct SwapContextModel {
    pub input_token_id: u64,
    pub output_token_id: u64,
    pub input_amount: nat,
    pub output_amount: nat,
    pub reserve_in: nat,
    pub reserve_out: nat,
    pub fee_amount: nat,
    pub final_input_amount: nat,
    pub final_output_amount: nat,
}

impl View for SwapContext {
    type V = SwapContextModel;

    open spec fn view(&self) -> SwapContextModel {
        SwapContextModel {
            input_token_id: self.input_token_id,
            output_token_id: self.output_token_id,
            input_amount: big_val(self.input_amount),
            output_amount: big_val(self.output_amount),
            reserve_in: big_val(self.reserve_in),
            reserve_out: big_val(self.reserve_out),
            fee_amount: big_val(self.fee_amount),
            final_input_amount: big_val(self.final_input_amount),
            final_output_amount: big_val(self.final_output_amount),
        }
    }
}

impl SwapContext {
    /// A fresh context over the given amounts and loaded reserves.
    pub fn new(
        input_token_id: u64,
        output_token_id: u64,
        input_amount: BigUint,
        output_amount: BigUint,
        reserve_in: &BigUint,
        reserve_out: &BigUint,
    ) -> (r: SwapContext)
        ensures
            r@.input_token_id == input_token_id,
            r@.output_token_id == output_token_id,
            r@.input_amount == big_val(input_amount),
            r@.output_amount == big_val(output_amount),
            r@.reserve_in == big_val(*reserve_in),
            r@.reserve_out == big_val(*reserve_out),
            r@.fee_amount == 0,
            r@.final_input_amount == 0,
            r@.final_output_amount == 0,
    {
        SwapContext {
            input_token_id,
            output_token_id,
            input_amount,
            output_amount,
            reserve_in: big_clone(reserve_in),
            reserve_out: big_clone(reserve_out),
            fee_amount: big_from_u64(0),
            final_input_amount: big_from_u64(0),
            final_output_amount: big_from_u64(0),
        }
    }
}

} // verus!
