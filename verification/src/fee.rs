//! Fee policy: the total swap fee rate, the protocol's ("special") slice
//! of it, and the toggle for fee collection.
//!
//! Both rates are fixed-point fractions of `MAX_RATE`. The special rate
//! is always payable out of the total rate's revenue, never additional.

use vstd::prelude::*;
use crate::MAX_RATE;

verus! {

/// The pool's fee configuration.
pub struct FeeConfig {
    pub total_fee_rate: u64,
    pub special_fee_rate: u64,
    pub fee_enabled: bool,
}

/// The mathematical value of a fee configuration.
pub ghost struct FeeConfigModel {
    pub total_fee_rate: nat,
    pub special_fee_rate: nat,
    pub fee_enabled: bool,
}

impl View for FeeConfig {
    type V = FeeConfigModel;

    open spec fn view(&self) -> FeeConfigModel {
        FeeConfigModel {
            total_fee_rate: self.total_fee_rate as nat,
            special_fee_rate: self.special_fee_rate as nat,
            fee_enabled: self.fee_enabled,
        }
    }
}

/// The configuration invariant: `0 <= special <= total < MAX_RATE`. The
/// total rate stays strictly below `MAX_RATE` so that a swap never takes
/// the whole input as fee and the fixed-output formula never divides by
/// zero.
pub open spec fn fee_config_well_formed(c: FeeConfigModel) -> bool {
    c.special_fee_rate <= c.total_fee_rate < MAX_RATE
}

impl FeeConfig {
    /// Sets the two fee rates. Callers must present rates that satisfy
    /// the configuration invariant.
    pub fn set_fee_percents(total_fee_rate: u64, special_fee_rate: u64, fee_enabled: bool) -> (r:
        FeeConfig)
        requires
            special_fee_rate <= total_fee_rate < MAX_RATE,
        ensures
            r@ == (FeeConfigModel {
                total_fee_rate: total_fee_rate as nat,
                special_fee_rate: special_fee_rate as nat,
                fee_enabled,
            }),
            fee_config_well_formed(r@),
    {
        FeeConfig { total_fee_rate, special_fee_rate, fee_enabled }
    }

    /// Whether the protocol fee slice is currently collected.
    pub fn is_fee_enabled(&self) -> (r: bool)
        ensures
            r == self@.fee_enabled,
    {
        self.fee_enabled
    }
}

} // verus!
