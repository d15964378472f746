//! The pool itself: persistent state and the guarded operations.
//!
//! Every mutating operation loads a per-call snapshot of the pool state,
//! computes on it, validates the constant-product invariant, and commits
//! at most once: on any error the pool is left exactly as it was found.

use vstd::prelude::*;
use num_bigint::BigUint;
use crate::bigint::{big_val, big_from_u64, big_clone, big_add, big_sub, big_lt, big_le, big_eq};
use crate::amm;
use crate::amm::{amount_in_val, amount_out_no_fee_val, amount_out_val, k_val, quote_val, special_fee_val};
use crate::contexts::{AddLiquidityContext, RemoveLiquidityContext, SwapContext};
use crate::errors::Error;
use crate::fee::{fee_config_well_formed, FeeConfig, FeeConfigModel};
use crate::liquidity;
use crate::liquidity::{
    initial_liquidity_val, minted_shares_val, optimal_amounts_val, removal_amount_val,
    MINIMUM_LIQUIDITY,
};
use crate::safe_price::{observation_after, ObservationModel, PriceObservation};
use crate::state::{Payment, PoolModel, State, StorageCache};
use crate::MAX_RATE;

verus! {

/// A two-token constant-product pool with its fee policy, privileged
/// caller whitelist and price oracle.
pub struct Pair {
    pub first_token_id: u64,
    pub second_token_id: u64,
    pub lp_token_id: u64,
    pub first_token_reserve: BigUint,
    pub second_token_reserve: BigUint,
    pub lp_token_supply: BigUint,
    pub contract_state: State,
    pub fee_config: FeeConfig,
    pub router_address: u64,
    pub router_owner_address: u64,
    pub whitelist: Vec<u64>,
    pub initial_liquidity_adder: Option<u64>,
    pub price_observation: PriceObservation,
}

/// The mathematical value of the whole pool.
pub ghost struct PairModel {
    pub pool: PoolModel,
    pub fee: FeeConfigModel,
    pub router_address: u64,
    pub router_owner_address: u64,
    pub whitelist: Seq<u64>,
    pub initial_liquidity_adder: Option<u64>,
    pub observation: ObservationModel,
}

impl View for Pair {
    type V = PairModel;

    open spec fn view(&self) -> PairModel {
        PairModel {
            pool: PoolModel {
                first_token_id: self.first_token_id,
                second_token_id: self.second_token_id,
                lp_token_id: self.lp_token_id,
                first_token_reserve: big_val(self.first_token_reserve),
                second_token_reserve: big_val(self.second_token_reserve),
                lp_token_supply: big_val(self.lp_token_supply),
                contract_state: self.contract_state,
            },
            fee: self.fee_config@,
            router_address: self.router_address,
            router_owner_address: self.router_owner_address,
            whitelist: self.whitelist@,
            initial_liquidity_adder: self.initial_liquidity_adder,
            observation: self.price_observation@,
        }
    }
}

/// The pool's data invariant. It holds after `init` and after every
/// operation: the token pair is two distinct usable tokens, the LP token
/// never collides with the pair, the fee configuration is valid, and a
/// seeded pool is never one-sided nor below the minimum share supply,
/// while an unseeded pool holds nothing.
pub open spec fn pair_well_formed(m: PairModel) -> bool {
    &&& fee_config_well_formed(m.fee)
    &&& m.pool.first_token_id != 0
    &&& m.pool.second_token_id != 0
    &&& m.pool.first_token_id != m.pool.second_token_id
    &&& m.pool.lp_token_id != m.pool.first_token_id
    &&& m.pool.lp_token_id != m.pool.second_token_id
    &&& m.pool.lp_token_supply == 0 ==> m.pool.first_token_reserve == 0
        && m.pool.second_token_reserve == 0
    &&& m.pool.lp_token_supply > 0 ==> m.pool.first_token_reserve > 0
        && m.pool.second_token_reserve > 0 && m.pool.lp_token_supply >= MINIMUM_LIQUIDITY
        && m.pool.lp_token_id != 0
}

/// Whether a swap direction names exactly the pool's pair.
pub open spec fn swap_tokens_match(p: PoolModel, token_in: u64, token_out: u64) -> bool {
    ||| (token_in == p.first_token_id && token_out == p.second_token_id)
    ||| (token_in == p.second_token_id && token_out == p.first_token_id)
}

/// The reserve held for `token`, which must be one of the pair.
pub open spec fn reserve_of(p: PoolModel, token: u64) -> nat {
    if token == p.first_token_id {
        p.first_token_reserve
    } else {
        p.second_token_reserve
    }
}

/// The pool with the reserves replaced according to a swap direction.
pub open spec fn pool_after_swap(
    p: PoolModel,
    token_in: u64,
    new_reserve_in: nat,
    new_reserve_out: nat,
) -> PoolModel {
    if token_in == p.first_token_id {
        PoolModel {
            first_token_reserve: new_reserve_in,
            second_token_reserve: new_reserve_out,
            ..p
        }
    } else {
        PoolModel {
            first_token_reserve: new_reserve_out,
            second_token_reserve: new_reserve_in,
            ..p
        }
    }
}

/// Whether membership of `x` in a plain vector holds.
pub fn vec_contains(v: &Vec<u64>, x: u64) -> (r: bool)
    ensures
        r == v@.contains(x),
{
    let mut i: usize = 0;
    while i < v.len()
        invariant
            i <= v@.len(),
            forall|k: int| 0 <= k < i ==> v@[k] != x,
        decreases v@.len() - i,
    {
        if v[i] == x {
            assert(v@.contains(x));
            return true;
        }
        i += 1;
    }
    false
}

/// Minted shares plus the two surplus refunds of an add-liquidity call.
pub struct AddLiquidityResultType {
    pub lp_payment: Payment,
    pub first_refund: Payment,
    pub second_refund: Payment,
}

/// The two reserve slices paid out by a remove-liquidity call.
pub struct RemoveLiquidityResultType {
    pub first_payment_out: Payment,
    pub second_payment_out: Payment,
}

/// The bought output plus the unspent input of a fixed-output swap.
pub struct SwapTokensFixedOutputResultType {
    pub output_payment: Payment,
    pub input_refund: Payment,
}

impl Pair {
    /// Creates the pool over a distinct token pair with the given fee
    /// policy and privileged addresses. The pool starts `Inactive`,
    /// unseeded, with no LP token, an empty whitelist, and collection
    /// of the protocol fee slice switched off.
    pub fn init(
        first_token_id: u64,
        second_token_id: u64,
        router_address: u64,
        router_owner_address: u64,
        total_fee_rate: u64,
        special_fee_rate: u64,
        initial_liquidity_adder: Option<u64>,
    ) -> (r: Result<Pair, Error>)
        requires
            special_fee_rate <= total_fee_rate < MAX_RATE,
        ensures
            ({
                let e = if first_token_id == 0 || second_token_id == 0 || first_token_id
                    == second_token_id {
                    Some(Error::InvalidToken)
                } else {
                    None
                };
                match r {
                    Ok(p) => e is None && pair_well_formed(p@) && p@ == (PairModel {
                        pool: PoolModel {
                            first_token_id,
                            second_token_id,
                            lp_token_id: 0,
                            first_token_reserve: 0,
                            second_token_reserve: 0,
                            lp_token_supply: 0,
                            contract_state: State::Inactive,
                        },
                        fee: FeeConfigModel {
                            total_fee_rate: total_fee_rate as nat,
                            special_fee_rate: special_fee_rate as nat,
                            fee_enabled: false,
                        },
                        router_address,
                        router_owner_address,
                        whitelist: Seq::<u64>::empty(),
                        initial_liquidity_adder,
                        observation: ObservationModel {
                            cumulative_price_integral: 0,
                            last_update_block: 0,
                            last_reserve_ratio: 0,
                        },
                    }),
                    Err(actual) => Some(actual) == e,
                }
            }),
    {
        if first_token_id == 0 || second_token_id == 0 || first_token_id == second_token_id {
            return Err(Error::InvalidToken);
        }
        let pair = Pair {
            first_token_id,
            second_token_id,
            lp_token_id: 0,
            first_token_reserve: big_from_u64(0),
            second_token_reserve: big_from_u64(0),
            lp_token_supply: big_from_u64(0),
            contract_state: State::Inactive,
            fee_config: FeeConfig::set_fee_percents(total_fee_rate, special_fee_rate, false),
            router_address,
            router_owner_address,
            whitelist: Vec::new(),
            initial_liquidity_adder,
            price_observation: PriceObservation::new(),
        };
        assert(pair@.whitelist =~= Seq::<u64>::empty());
        Ok(pair)
    }

    /// Loads the per-call snapshot of the pool state.
    fn load_cache(&self) -> (c: StorageCache)
        ensures
            c@ == self@.pool,
    {
        StorageCache {
            first_token_id: self.first_token_id,
            second_token_id: self.second_token_id,
            lp_token_id: self.lp_token_id,
            first_token_reserve: big_clone(&self.first_token_reserve),
            second_token_reserve: big_clone(&self.second_token_reserve),
            lp_token_supply: big_clone(&self.lp_token_supply),
            contract_state: self.contract_state,
        }
    }

    /// Commits a mutated snapshot back into the pool, atomically from
    /// the caller's point of view: this is the single write of a
    /// successful operation.
    fn commit_cache(&mut self, cache: StorageCache)
        ensures
            final(self)@ == (PairModel { pool: cache@, ..old(self)@ }),
    {
        self.first_token_id = cache.first_token_id;
        self.second_token_id = cache.second_token_id;
        self.lp_token_id = cache.lp_token_id;
        self.first_token_reserve = cache.first_token_reserve;
        self.second_token_reserve = cache.second_token_reserve;
        self.lp_token_supply = cache.lp_token_supply;
        self.contract_state = cache.contract_state;
    }

    /// Whether liquidity operations are permitted in `state`.
    pub fn is_state_active(&self, state: State) -> (r: bool)
        ensures
            r == (state == State::Active || state == State::PartialActive),
    {
        match state {
            State::Active => true,
            State::PartialActive => true,
            State::Inactive => false,
        }
    }

    /// Whether swaps are permitted in `state`.
    pub fn can_swap(&self, state: State) -> (r: bool)
        ensures
            r == (state == State::Active),
    {
        match state {
            State::Active => true,
            _ => false,
        }
    }

    /// Halts all gated operations.
    pub fn pause(&mut self)
        ensures
            final(self)@ == (PairModel {
                pool: PoolModel { contract_state: State::Inactive, ..old(self)@.pool },
                ..old(self)@
            }),
    {
        self.contract_state = State::Inactive;
    }

    /// Enables all operations, swaps included.
    pub fn resume(&mut self)
        ensures
            final(self)@ == (PairModel {
                pool: PoolModel { contract_state: State::Active, ..old(self)@.pool },
                ..old(self)@
            }),
    {
        self.contract_state = State::Active;
    }

    /// Registers the pool's LP token, once, before the pool is seeded.
    /// Only the router or its owner may do so, and the identifier must
    /// be usable and distinct from the pool pair.
    pub fn set_lp_token_identifier(&mut self, caller: u64, token_identifier: u64) -> (r: Result<
        (),
        Error,
    >)
        ensures
            r is Err ==> final(self)@ == old(self)@,
            ({
                let e = if caller != old(self)@.router_address && caller != old(
                    self,
                )@.router_owner_address {
                    Some(Error::PermissionDenied)
                } else if old(self)@.pool.lp_token_id != 0 {
                    Some(Error::InvalidToken)
                } else if token_identifier == 0 || token_identifier == old(
                    self,
                )@.pool.first_token_id || token_identifier == old(self)@.pool.second_token_id {
                    Some(Error::InvalidToken)
                } else {
                    None
                };
                match r {
                    Ok(u) => e is None && final(self)@ == (PairModel {
                        pool: PoolModel {
                            lp_token_id: token_identifier,
                            ..old(self)@.pool
                        },
                        ..old(self)@
                    }),
                    Err(actual) => e == Some(actual),
                }
            }),
    {
        if caller != self.router_address && caller != self.router_owner_address {
            return Err(Error::PermissionDenied);
        }
        if self.lp_token_id != 0 {
            return Err(Error::InvalidToken);
        }
        if token_identifier == 0 || token_identifier == self.first_token_id || token_identifier
            == self.second_token_id {
            return Err(Error::InvalidToken);
        }
        self.lp_token_id = token_identifier;
        Ok(())
    }

    /// Turns collection of the protocol fee slice on or off. Only the
    /// router or its owner may do so.
    pub fn set_fee_on(&mut self, caller: u64, enabled: bool) -> (r: Result<(), Error>)
        ensures
            r is Err ==> final(self)@ == old(self)@,
            ({
                let e = if caller != old(self)@.router_address && caller != old(
                    self,
                )@.router_owner_address {
                    Some(Error::PermissionDenied)
                } else {
                    None
                };
                match r {
                    Ok(u) => e is None && final(self)@ == (PairModel {
                        fee: FeeConfigModel { fee_enabled: enabled, ..old(self)@.fee },
                        ..old(self)@
                    }),
                    Err(actual) => Some(actual) == e,
                }
            }),
    {
        if caller != self.router_address && caller != self.router_owner_address {
            return Err(Error::PermissionDenied);
        }
        self.fee_config.fee_enabled = enabled;
        Ok(())
    }

    /// Admits `address` to the privileged fee-free swap whitelist. Only
    /// the router or its owner may do so; admitting twice changes
    /// nothing.
    pub fn add_whitelist(&mut self, caller: u64, address: u64) -> (r: Result<(), Error>)
        ensures
            r is Err ==> final(self)@ == old(self)@,
            ({
                let e = if caller != old(self)@.router_address && caller != old(
                    self,
                )@.router_owner_address {
                    Some(Error::PermissionDenied)
                } else {
                    None
                };
                match r {
                    Ok(u) => e is None && final(self)@ == (PairModel {
                        whitelist: if old(self)@.whitelist.contains(address) {
                            old(self)@.whitelist
                        } else {
                            old(self)@.whitelist.push(address)
                        },
                        ..old(self)@
                    }),
                    Err(actual) => Some(actual) == e,
                }
            }),
    {
        if caller != self.router_address && caller != self.router_owner_address {
            return Err(Error::PermissionDenied);
        }
        if !vec_contains(&self.whitelist, address) {
            self.whitelist.push(address);
        }
        Ok(())
    }

    /// The reserves of the two pool tokens and the LP share supply.
    pub fn get_reserves_and_total_supply(&self) -> (r: (BigUint, BigUint, BigUint))
        ensures
            big_val(r.0) == self@.pool.first_token_reserve,
            big_val(r.1) == self@.pool.second_token_reserve,
            big_val(r.2) == self@.pool.lp_token_supply,
    {
        (
            big_clone(&self.first_token_reserve),
            big_clone(&self.second_token_reserve),
            big_clone(&self.lp_token_supply),
        )
    }

    /// The slice of each reserve that `liquidity` LP shares are worth
    /// right now, floor-rounded.
    pub fn get_tokens_for_given_position(&self, liquidity: &BigUint) -> (r: Result<
        (Payment, Payment),
        Error,
    >)
        ensures
            self@.pool.lp_token_supply == 0 <==> r == Result::<(Payment, Payment), Error>::Err(
                Error::NotSeeded,
            ),
            self@.pool.lp_token_supply > 0 ==> (r matches Ok(pair) && pair.0@.token_id
                == self@.pool.first_token_id && pair.0@.amount == removal_amount_val(
                self@.pool.first_token_reserve,
                big_val(*liquidity),
                self@.pool.lp_token_supply,
            ) && pair.1@.token_id == self@.pool.second_token_id && pair.1@.amount
                == removal_amount_val(
                self@.pool.second_token_reserve,
                big_val(*liquidity),
                self@.pool.lp_token_supply,
            )),
    {
        let cache = self.load_cache();
        match liquidity::get_both_tokens_for_given_position(liquidity, &cache) {
            Ok((first_amount, second_amount)) => Ok(
                (
                    Payment { token_id: self.first_token_id, amount: first_amount },
                    Payment { token_id: self.second_token_id, amount: second_amount },
                ),
            ),
            Err(e) => Err(e),
        }
    }
}

impl crate::pausing::Pausable for Pair {
    fn pause(&mut self) {
        Pair::pause(self)
    }

    fn resume(&mut self) {
        Pair::resume(self)
    }
}

/// The protocol fee slice taken from a swap input, zero while fee
/// collection is disabled.
pub open spec fn swap_input_fee_val(m: PairModel, amount: nat) -> nat {
    if m.fee.fee_enabled {
        special_fee_val(amount, m.fee.special_fee_rate)
    } else {
        0
    }
}

/// The first check a fixed-input swap fails, if any, in evaluation
/// order.
pub open spec fn swap_fixed_input_error(
    m: PairModel,
    token_in: u64,
    amount_in: nat,
    token_out: u64,
    amount_out_min: nat,
) -> Option<Error> {
    if amount_in == 0 {
        Some(Error::ZeroAmount)
    } else if m.pool.contract_state != State::Active {
        Some(Error::SwapNotEnabled)
    } else if !swap_tokens_match(m.pool, token_in, token_out) {
        Some(Error::InvalidToken)
    } else {
        let reserve_in = reserve_of(m.pool, token_in);
        let reserve_out = reserve_of(m.pool, token_out);
        if reserve_out <= amount_out_min {
            Some(Error::InsufficientReserve)
        } else {
            let y = amount_out_val(amount_in, reserve_in, reserve_out, m.fee.total_fee_rate);
            if y < amount_out_min {
                Some(Error::SlippageExceeded)
            } else if y >= reserve_out {
                Some(Error::InsufficientReserve)
            } else if y == 0 {
                Some(Error::ZeroAmount)
            } else {
                None
            }
        }
    }
}

/// The pool after a successful fixed-input swap.
pub open spec fn swap_fixed_input_state(
    m: PairModel,
    token_in: u64,
    amount_in: nat,
    token_out: u64,
    current_block: u64,
) -> PairModel {
    let reserve_in = reserve_of(m.pool, token_in);
    let reserve_out = reserve_of(m.pool, token_out);
    let y = amount_out_val(amount_in, reserve_in, reserve_out, m.fee.total_fee_rate);
    let fee = swap_input_fee_val(m, amount_in);
    PairModel {
        pool: pool_after_swap(
            m.pool,
            token_in,
            (reserve_in + amount_in - fee) as nat,
            (reserve_out - y) as nat,
        ),
        observation: observation_after(
            m.observation,
            m.pool.first_token_reserve,
            m.pool.second_token_reserve,
            current_block,
        ),
        ..m
    }
}

/// The first check a fixed-output swap fails, if any, in evaluation
/// order.
pub open spec fn swap_fixed_output_error(
    m: PairModel,
    token_in: u64,
    amount_in_max: nat,
    token_out: u64,
    amount_out: nat,
) -> Option<Error> {
    if amount_out == 0 || amount_in_max == 0 {
        Some(Error::ZeroAmount)
    } else if m.pool.contract_state != State::Active {
        Some(Error::SwapNotEnabled)
    } else if !swap_tokens_match(m.pool, token_in, token_out) {
        Some(Error::InvalidToken)
    } else {
        let reserve_in = reserve_of(m.pool, token_in);
        let reserve_out = reserve_of(m.pool, token_out);
        if reserve_out <= amount_out {
            Some(Error::InsufficientReserve)
        } else {
            let z = amount_in_val(amount_out, reserve_in, reserve_out, m.fee.total_fee_rate);
            if z > amount_in_max {
                Some(Error::SlippageExceeded)
            } else if z == 0 {
                Some(Error::ZeroAmount)
            } else {
                None
            }
        }
    }
}

/// The pool after a successful fixed-output swap.
pub open spec fn swap_fixed_output_state(
    m: PairModel,
    token_in: u64,
    token_out: u64,
    amount_out: nat,
    current_block: u64,
) -> PairModel {
    let reserve_in = reserve_of(m.pool, token_in);
    let reserve_out = reserve_of(m.pool, token_out);
    let z = amount_in_val(amount_out, reserve_in, reserve_out, m.fee.total_fee_rate);
    let fee = swap_input_fee_val(m, z);
    PairModel {
        pool: pool_after_swap(
            m.pool,
            token_in,
            (reserve_in + z - fee) as nat,
            (reserve_out - amount_out) as nat,
        ),
        observation: observation_after(
            m.observation,
            m.pool.first_token_reserve,
            m.pool.second_token_reserve,
            current_block,
        ),
        ..m
    }
}

/// The first check a privileged fee-free swap fails, if any, in
/// evaluation order.
pub open spec fn swap_no_fee_error(
    m: PairModel,
    caller: u64,
    token_in: u64,
    amount_in: nat,
    token_out: u64,
) -> Option<Error> {
    if !m.whitelist.contains(caller) {
        Some(Error::PermissionDenied)
    } else if amount_in == 0 {
        Some(Error::ZeroAmount)
    } else if m.pool.contract_state != State::Active {
        Some(Error::SwapNotEnabled)
    } else if !swap_tokens_match(m.pool, token_in, token_out) {
        Some(Error::InvalidToken)
    } else {
        let reserve_in = reserve_of(m.pool, token_in);
        let reserve_out = reserve_of(m.pool, token_out);
        let y = amount_out_no_fee_val(amount_in, reserve_in, reserve_out);
        if y == 0 {
            Some(Error::ZeroAmount)
        } else {
            None
        }
    }
}

/// The pool after a successful fee-free swap; the whole input is
/// credited to the reserve and the output leaves the pool.
pub open spec fn swap_no_fee_state(
    m: PairModel,
    token_in: u64,
    amount_in: nat,
    token_out: u64,
    current_block: u64,
) -> PairModel {
    let reserve_in = reserve_of(m.pool, token_in);
    let reserve_out = reserve_of(m.pool, token_out);
    let y = amount_out_no_fee_val(amount_in, reserve_in, reserve_out);
    PairModel {
        pool: pool_after_swap(m.pool, token_in, reserve_in + amount_in, (reserve_out - y) as nat),
        observation: observation_after(
            m.observation,
            m.pool.first_token_reserve,
            m.pool.second_token_reserve,
            current_block,
        ),
        ..m
    }
}

impl Pair {
    /// Runs the computing half of a fixed-input swap on a loaded
    /// context: quotes the output, validates it, takes the protocol fee
    /// slice out of the input and moves both reserves.
    pub fn perform_swap_fixed_input(&self, context: &mut SwapContext) -> (r: Result<(), Error>)
        requires
            fee_config_well_formed(self@.fee),
            old(context)@.reserve_in > 0,
        ensures
            r is Err ==> final(context)@ == old(context)@,
            ({
                let y = amount_out_val(
                    old(context)@.input_amount,
                    old(context)@.reserve_in,
                    old(context)@.reserve_out,
                    self@.fee.total_fee_rate,
                );
                let fee = swap_input_fee_val(self@, old(context)@.input_amount);
                let e = if y < old(context)@.output_amount {
                    Some(Error::SlippageExceeded)
                } else if y >= old(context)@.reserve_out {
                    Some(Error::InsufficientReserve)
                } else if y == 0 {
                    Some(Error::ZeroAmount)
                } else {
                    None
                };
                match r {
                    Ok(u) => e is None && final(context)@
                        == (crate::contexts::SwapContextModel {
                        reserve_in: (old(context)@.reserve_in + old(context)@.input_amount
                            - fee) as nat,
                        reserve_out: (old(context)@.reserve_out - y) as nat,
                        fee_amount: fee,
                        final_input_amount: old(context)@.input_amount,
                        final_output_amount: y,
                        ..old(context)@
                    }),
                    Err(actual) => e == Some(actual),
                }
            }),
    {
        let amount_out = amm::get_amount_out(
            &context.input_amount,
            &context.reserve_in,
            &context.reserve_out,
            self.fee_config.total_fee_rate,
        );
        if big_lt(&amount_out, &context.output_amount) {
            return Err(Error::SlippageExceeded);
        }
        if !big_lt(&amount_out, &context.reserve_out) {
            return Err(Error::InsufficientReserve);
        }
        let zero = big_from_u64(0);
        if big_eq(&amount_out, &zero) {
            return Err(Error::ZeroAmount);
        }
        let fee_amount = if self.fee_config.is_fee_enabled() {
            amm::get_special_fee_from_input(&context.input_amount, self.fee_config.special_fee_rate)
        } else {
            big_from_u64(0)
        };
        proof {
            crate::laws::lemma_special_fee_le_input(
                old(context)@.input_amount,
                self@.fee.special_fee_rate,
            );
        }
        let amount_in_after_fee = big_sub(&context.input_amount, &fee_amount);
        context.final_input_amount = big_clone(&context.input_amount);
        context.reserve_in = big_add(&context.reserve_in, &amount_in_after_fee);
        context.reserve_out = big_sub(&context.reserve_out, &amount_out);
        context.final_output_amount = amount_out;
        context.fee_amount = fee_amount;
        Ok(())
    }

    /// Runs the computing half of a fixed-output swap on a loaded
    /// context: quotes the input, validates it against the caller's
    /// maximum, takes the protocol fee slice and moves both reserves.
    pub fn perform_swap_fixed_output(&self, context: &mut SwapContext) -> (r: Result<(), Error>)
        requires
            fee_config_well_formed(self@.fee),
            old(context)@.output_amount < old(context)@.reserve_out,
        ensures
            r is Err ==> final(context)@ == old(context)@,
            ({
                let z = amount_in_val(
                    old(context)@.output_amount,
                    old(context)@.reserve_in,
                    old(context)@.reserve_out,
                    self@.fee.total_fee_rate,
                );
                let fee = swap_input_fee_val(self@, z);
                let e = if z > old(context)@.input_amount {
                    Some(Error::SlippageExceeded)
                } else if z == 0 {
                    Some(Error::ZeroAmount)
                } else {
                    None
                };
                match r {
                    Ok(u) => e is None && final(context)@
                        == (crate::contexts::SwapContextModel {
                        reserve_in: (old(context)@.reserve_in + z - fee) as nat,
                        reserve_out: (old(context)@.reserve_out
                            - old(context)@.output_amount) as nat,
                        fee_amount: fee,
                        final_input_amount: z,
                        final_output_amount: old(context)@.output_amount,
                        ..old(context)@
                    }),
                    Err(actual) => e == Some(actual),
                }
            }),
    {
        let amount_in_optimal = match amm::get_amount_in(
            &context.output_amount,
            &context.reserve_in,
            &context.reserve_out,
            self.fee_config.total_fee_rate,
        ) {
            Ok(a) => a,
            Err(e) => {
                return Err(e);
            },
        };
        if big_lt(&context.input_amount, &amount_in_optimal) {
            return Err(Error::SlippageExceeded);
        }
        let zero = big_from_u64(0);
        if big_eq(&amount_in_optimal, &zero) {
            return Err(Error::ZeroAmount);
        }
        let fee_amount = if self.fee_config.is_fee_enabled() {
            amm::get_special_fee_from_input(&amount_in_optimal, self.fee_config.special_fee_rate)
        } else {
            big_from_u64(0)
        };
        proof {
            crate::laws::lemma_special_fee_le_input(
                big_val(amount_in_optimal),
                self@.fee.special_fee_rate,
            );
        }
        let amount_in_after_fee = big_sub(&amount_in_optimal, &fee_amount);
        context.reserve_in = big_add(&context.reserve_in, &amount_in_after_fee);
        context.reserve_out = big_sub(&context.reserve_out, &context.output_amount);
        context.final_output_amount = big_clone(&context.output_amount);
        context.final_input_amount = amount_in_optimal;
        context.fee_amount = fee_amount;
        Ok(())
    }
}

impl Pair {
    /// Swaps an exact input for the other token of the pair: the caller
    /// pays `amount_in` of `token_in` and receives the quoted output,
    /// refused below `amount_out_min`. The protocol fee slice is taken
    /// out of the input before the reserve is credited.
    pub fn swap_tokens_fixed_input(
        &mut self,
        token_in: u64,
        amount_in: BigUint,
        token_out: u64,
        amount_out_min: BigUint,
        current_block: u64,
    ) -> (r: Result<Payment, Error>)
        requires
            pair_well_formed(old(self)@),
        ensures
            pair_well_formed(final(self)@),
            r is Err ==> final(self)@ == old(self)@,
            ({
                let e = swap_fixed_input_error(
                    old(self)@,
                    token_in,
                    big_val(amount_in),
                    token_out,
                    big_val(amount_out_min),
                );
                match r {
                    Ok(p) => e is None && p@.token_id == token_out && p@.amount == amount_out_val(
                        big_val(amount_in),
                        reserve_of(old(self)@.pool, token_in),
                        reserve_of(old(self)@.pool, token_out),
                        old(self)@.fee.total_fee_rate,
                    ) && final(self)@ == swap_fixed_input_state(
                        old(self)@,
                        token_in,
                        big_val(amount_in),
                        token_out,
                        current_block,
                    ),
                    Err(actual) => Some(actual) == e,
                }
            }),
            r is Ok ==> k_val(
                final(self)@.pool.first_token_reserve,
                final(self)@.pool.second_token_reserve,
            ) >= k_val(
                old(self)@.pool.first_token_reserve,
                old(self)@.pool.second_token_reserve,
            ),
    {
        let ghost input_val = big_val(amount_in);
        let zero = big_from_u64(0);
        if big_eq(&amount_in, &zero) {
            return Err(Error::ZeroAmount);
        }
        let state = self.contract_state;
        if !self.can_swap(state) {
            return Err(Error::SwapNotEnabled);
        }
        let direction_first = token_in == self.first_token_id && token_out
            == self.second_token_id;
        let direction_second = token_in == self.second_token_id && token_out
            == self.first_token_id;
        if !direction_first && !direction_second {
            return Err(Error::InvalidToken);
        }
        let mut storage_cache = self.load_cache();
        let (reserve_in, reserve_out) = if direction_first {
            (
                big_clone(&storage_cache.first_token_reserve),
                big_clone(&storage_cache.second_token_reserve),
            )
        } else {
            (
                big_clone(&storage_cache.second_token_reserve),
                big_clone(&storage_cache.first_token_reserve),
            )
        };
        proof {
            assert(big_val(reserve_in) == reserve_of(old(self)@.pool, token_in));
            assert(big_val(reserve_out) == reserve_of(old(self)@.pool, token_out));
        }
        if !big_lt(&amount_out_min, &reserve_out) {
            return Err(Error::InsufficientReserve);
        }
        proof {
            assert(big_val(reserve_out) > 0);
            assert(old(self)@.pool.lp_token_supply > 0);
            assert(big_val(reserve_in) > 0);
        }
        let initial_k = amm::calculate_k_constant(&reserve_in, &reserve_out);
        let mut context = SwapContext::new(
            token_in,
            token_out,
            amount_in,
            amount_out_min,
            &reserve_in,
            &reserve_out,
        );
        match self.perform_swap_fixed_input(&mut context) {
            Ok(()) => {},
            Err(e) => {
                return Err(e);
            },
        }
        let new_k = amm::calculate_k_constant(&context.reserve_in, &context.reserve_out);
        proof {
            let rin = big_val(reserve_in);
            let rout = big_val(reserve_out);
            let total = old(self)@.fee.total_fee_rate;
            let fsp_used: nat = if old(self)@.fee.fee_enabled {
                old(self)@.fee.special_fee_rate
            } else {
                0
            };
            assert(special_fee_val(input_val, 0) == 0);
            crate::laws::lemma_swap_fixed_input_preserves_k(rin, rout, input_val, total, fsp_used);
            let y = amount_out_val(input_val, rin, rout, total);
            let s = swap_input_fee_val(old(self)@, input_val);
            assert(s == special_fee_val(input_val, fsp_used));
            assert(big_val(new_k) >= big_val(initial_k));
        }
        if !big_le(&initial_k, &new_k) {
            return Err(Error::InvariantViolation);
        }
        self.price_observation.update(
            &storage_cache.first_token_reserve,
            &storage_cache.second_token_reserve,
            current_block,
        );
        let SwapContext { reserve_in: updated_reserve_in, reserve_out: updated_reserve_out,
            final_output_amount, .. } = context;
        if direction_first {
            storage_cache.first_token_reserve = updated_reserve_in;
            storage_cache.second_token_reserve = updated_reserve_out;
        } else {
            storage_cache.first_token_reserve = updated_reserve_out;
            storage_cache.second_token_reserve = updated_reserve_in;
        }
        self.commit_cache(storage_cache);
        Ok(Payment { token_id: token_out, amount: final_output_amount })
    }

    /// Swaps for an exact output: the caller receives `amount_out` of
    /// `token_out` and pays the quoted input, refused above
    /// `amount_in_max`; the unspent input is returned.
    pub fn swap_tokens_fixed_output(
        &mut self,
        token_in: u64,
        amount_in_max: BigUint,
        token_out: u64,
        amount_out: BigUint,
        current_block: u64,
    ) -> (r: Result<SwapTokensFixedOutputResultType, Error>)
        requires
            pair_well_formed(old(self)@),
        ensures
            pair_well_formed(final(self)@),
            r is Err ==> final(self)@ == old(self)@,
            ({
                let e = swap_fixed_output_error(
                    old(self)@,
                    token_in,
                    big_val(amount_in_max),
                    token_out,
                    big_val(amount_out),
                );
                let z = amount_in_val(
                    big_val(amount_out),
                    reserve_of(old(self)@.pool, token_in),
                    reserve_of(old(self)@.pool, token_out),
                    old(self)@.fee.total_fee_rate,
                );
                match r {
                    Ok(out) => e is None && out.output_payment@.token_id == token_out
                        && out.output_payment@.amount == big_val(amount_out)
                        && out.input_refund@.token_id == token_in && out.input_refund@.amount == (
                    big_val(amount_in_max) - z) as nat && final(self)@ == swap_fixed_output_state(
                        old(self)@,
                        token_in,
                        token_out,
                        big_val(amount_out),
                        current_block,
                    ),
                    Err(actual) => Some(actual) == e,
                }
            }),
            r is Ok ==> k_val(
                final(self)@.pool.first_token_reserve,
                final(self)@.pool.second_token_reserve,
            ) >= k_val(
                old(self)@.pool.first_token_reserve,
                old(self)@.pool.second_token_reserve,
            ),
    {
        let ghost max_input_val = big_val(amount_in_max);
        let ghost output_val = big_val(amount_out);
        let zero = big_from_u64(0);
        if big_eq(&amount_out, &zero) || big_eq(&amount_in_max, &zero) {
            return Err(Error::ZeroAmount);
        }
        let state = self.contract_state;
        if !self.can_swap(state) {
            return Err(Error::SwapNotEnabled);
        }
        let direction_first = token_in == self.first_token_id && token_out
            == self.second_token_id;
        let direction_second = token_in == self.second_token_id && token_out
            == self.first_token_id;
        if !direction_first && !direction_second {
            return Err(Error::InvalidToken);
        }
        let mut storage_cache = self.load_cache();
        let (reserve_in, reserve_out) = if direction_first {
            (
                big_clone(&storage_cache.first_token_reserve),
                big_clone(&storage_cache.second_token_reserve),
            )
        } else {
            (
                big_clone(&storage_cache.second_token_reserve),
                big_clone(&storage_cache.first_token_reserve),
            )
        };
        proof {
            assert(big_val(reserve_in) == reserve_of(old(self)@.pool, token_in));
            assert(big_val(reserve_out) == reserve_of(old(self)@.pool, token_out));
        }
        if !big_lt(&amount_out, &reserve_out) {
            return Err(Error::InsufficientReserve);
        }
        proof {
            assert(big_val(reserve_out) > 0);
            assert(old(self)@.pool.lp_token_supply > 0);
            assert(big_val(reserve_in) > 0);
        }
        let initial_k = amm::calculate_k_constant(&reserve_in, &reserve_out);
        let mut context = SwapContext::new(
            token_in,
            token_out,
            amount_in_max,
            amount_out,
            &reserve_in,
            &reserve_out,
        );
        match self.perform_swap_fixed_output(&mut context) {
            Ok(()) => {},
            Err(e) => {
                return Err(e);
            },
        }
        let new_k = amm::calculate_k_constant(&context.reserve_in, &context.reserve_out);
        proof {
            let rin = big_val(reserve_in);
            let rout = big_val(reserve_out);
            let total = old(self)@.fee.total_fee_rate;
            let fsp_used: nat = if old(self)@.fee.fee_enabled {
                old(self)@.fee.special_fee_rate
            } else {
                0
            };
            let z = amount_in_val(output_val, rin, rout, total);
            assert(special_fee_val(z, 0) == 0);
            crate::laws::lemma_swap_fixed_output_preserves_k(rin, rout, output_val, total, fsp_used);
            let s = swap_input_fee_val(old(self)@, z);
            assert(s == special_fee_val(z, fsp_used));
            assert(big_val(new_k) >= big_val(initial_k));
        }
        if !big_le(&initial_k, &new_k) {
            return Err(Error::InvariantViolation);
        }
        self.price_observation.update(
            &storage_cache.first_token_reserve,
            &storage_cache.second_token_reserve,
            current_block,
        );
        let refund_amount = big_sub(&context.input_amount, &context.final_input_amount);
        let SwapContext { reserve_in: updated_reserve_in, reserve_out: updated_reserve_out,
            final_output_amount, .. } = context;
        if direction_first {
            storage_cache.first_token_reserve = updated_reserve_in;
            storage_cache.second_token_reserve = updated_reserve_out;
        } else {
            storage_cache.first_token_reserve = updated_reserve_out;
            storage_cache.second_token_reserve = updated_reserve_in;
        }
        self.commit_cache(storage_cache);
        Ok(
            SwapTokensFixedOutputResultType {
                output_payment: Payment { token_id: token_out, amount: final_output_amount },
                input_refund: Payment { token_id: token_in, amount: refund_amount },
            },
        )
    }

    /// The privileged fee-free swap: a whitelisted caller forwards an
    /// input through the pool at the plain constant-product rate, with
    /// no fee taken; the output leaves the pool for the collaborator
    /// that burns or forwards it.
    pub fn swap_no_fee(
        &mut self,
        caller: u64,
        token_in: u64,
        amount_in: BigUint,
        token_out: u64,
        current_block: u64,
    ) -> (r: Result<Payment, Error>)
        requires
            pair_well_formed(old(self)@),
        ensures
            pair_well_formed(final(self)@),
            r is Err ==> final(self)@ == old(self)@,
            ({
                let e = swap_no_fee_error(
                    old(self)@,
                    caller,
                    token_in,
                    big_val(amount_in),
                    token_out,
                );
                match r {
                    Ok(p) => e is None && p@.token_id == token_out && p@.amount
                        == amount_out_no_fee_val(
                        big_val(amount_in),
                        reserve_of(old(self)@.pool, token_in),
                        reserve_of(old(self)@.pool, token_out),
                    ) && final(self)@ == swap_no_fee_state(
                        old(self)@,
                        token_in,
                        big_val(amount_in),
                        token_out,
                        current_block,
                    ),
                    Err(actual) => Some(actual) == e,
                }
            }),
            r is Ok ==> k_val(
                final(self)@.pool.first_token_reserve,
                final(self)@.pool.second_token_reserve,
            ) >= k_val(
                old(self)@.pool.first_token_reserve,
                old(self)@.pool.second_token_reserve,
            ),
    {
        let ghost input_val = big_val(amount_in);
        if !vec_contains(&self.whitelist, caller) {
            return Err(Error::PermissionDenied);
        }
        let zero = big_from_u64(0);
        if big_eq(&amount_in, &zero) {
            return Err(Error::ZeroAmount);
        }
        let state = self.contract_state;
        if !self.can_swap(state) {
            return Err(Error::SwapNotEnabled);
        }
        let direction_first = token_in == self.first_token_id && token_out
            == self.second_token_id;
        let direction_second = token_in == self.second_token_id && token_out
            == self.first_token_id;
        if !direction_first && !direction_second {
            return Err(Error::InvalidToken);
        }
        let mut storage_cache = self.load_cache();
        let (reserve_in, reserve_out) = if direction_first {
            (
                big_clone(&storage_cache.first_token_reserve),
                big_clone(&storage_cache.second_token_reserve),
            )
        } else {
            (
                big_clone(&storage_cache.second_token_reserve),
                big_clone(&storage_cache.first_token_reserve),
            )
        };
        proof {
            assert(big_val(reserve_in) == reserve_of(old(self)@.pool, token_in));
            assert(big_val(reserve_out) == reserve_of(old(self)@.pool, token_out));
        }
        let amount_out = amm::get_amount_out_no_fee(&amount_in, &reserve_in, &reserve_out);
        if big_eq(&amount_out, &zero) {
            return Err(Error::ZeroAmount);
        }
        proof {
            let rin = big_val(reserve_in);
            let rout = big_val(reserve_out);
            if rout == 0 {
                assert(input_val * rout == 0) by (nonlinear_arith)
                    requires
                        rout == 0,
                ;
                vstd::arithmetic::div_mod::lemma_div_of0((rin + input_val) as int);
                assert(amount_out_no_fee_val(input_val, rin, rout) == 0);
            }
            assert(rout > 0);
            assert(old(self)@.pool.lp_token_supply > 0);
            assert(rin > 0);
            crate::laws::lemma_swap_no_fee_k_exact(rin, rout, input_val);
        }
        let initial_k = amm::calculate_k_constant(&reserve_in, &reserve_out);
        let new_reserve_in = big_add(&reserve_in, &amount_in);
        let new_reserve_out = big_sub(&reserve_out, &amount_out);
        let new_k = amm::calculate_k_constant(&new_reserve_in, &new_reserve_out);
        proof {
            assert(big_val(new_k) >= big_val(initial_k));
            vstd::arithmetic::mul::lemma_mul_is_commutative(
                big_val(new_reserve_in) as int,
                big_val(new_reserve_out) as int,
            );
            vstd::arithmetic::mul::lemma_mul_is_commutative(
                big_val(reserve_in) as int,
                big_val(reserve_out) as int,
            );
        }
        if !big_le(&initial_k, &new_k) {
            return Err(Error::InvariantViolation);
        }
        self.price_observation.update(
            &storage_cache.first_token_reserve,
            &storage_cache.second_token_reserve,
            current_block,
        );
        if direction_first {
            storage_cache.first_token_reserve = new_reserve_in;
            storage_cache.second_token_reserve = new_reserve_out;
        } else {
            storage_cache.first_token_reserve = new_reserve_out;
            storage_cache.second_token_reserve = new_reserve_in;
        }
        self.commit_cache(storage_cache);
        Ok(Payment { token_id: token_out, amount: amount_out })
    }
}

/// The first check a seeding call fails, if any, in evaluation order.
pub open spec fn add_initial_liquidity_error(
    m: PairModel,
    caller: u64,
    first: crate::state::PaymentModel,
    second: crate::state::PaymentModel,
) -> Option<Error> {
    if (m.initial_liquidity_adder matches Some(adder) && caller != adder) {
        Some(Error::PermissionDenied)
    } else if first.token_id != m.pool.first_token_id || second.token_id
        != m.pool.second_token_id {
        Some(Error::InvalidToken)
    } else if first.amount == 0 || second.amount == 0 {
        Some(Error::ZeroAmount)
    } else if m.pool.contract_state != State::Inactive {
        Some(Error::AlreadySeeded)
    } else if m.pool.lp_token_supply != 0 {
        Some(Error::AlreadySeeded)
    } else if m.pool.lp_token_id == 0 {
        Some(Error::InvalidToken)
    } else if initial_liquidity_val(first.amount, second.amount) < MINIMUM_LIQUIDITY {
        Some(Error::ZeroAmount)
    } else {
        None
    }
}

/// The pool after a successful seeding call.
pub open spec fn add_initial_liquidity_state(
    m: PairModel,
    first_amount: nat,
    second_amount: nat,
    current_block: u64,
) -> PairModel {
    PairModel {
        pool: PoolModel {
            first_token_reserve: m.pool.first_token_reserve + first_amount,
            second_token_reserve: m.pool.second_token_reserve + second_amount,
            lp_token_supply: initial_liquidity_val(first_amount, second_amount),
            contract_state: State::PartialActive,
            ..m.pool
        },
        observation: observation_after(
            m.observation,
            m.pool.first_token_reserve,
            m.pool.second_token_reserve,
            current_block,
        ),
        ..m
    }
}

/// The first check an add-liquidity call fails, if any, in evaluation
/// order.
pub open spec fn add_liquidity_error(
    m: PairModel,
    first: crate::state::PaymentModel,
    second: crate::state::PaymentModel,
    first_token_amount_min: nat,
    second_token_amount_min: nat,
) -> Option<Error> {
    if first_token_amount_min == 0 || second_token_amount_min == 0 {
        Some(Error::ZeroAmount)
    } else if first.token_id != m.pool.first_token_id || second.token_id
        != m.pool.second_token_id {
        Some(Error::InvalidToken)
    } else if first.amount == 0 || second.amount == 0 {
        Some(Error::ZeroAmount)
    } else if m.pool.contract_state != State::Active && m.pool.contract_state
        != State::PartialActive {
        Some(Error::InactiveState)
    } else if m.pool.lp_token_id == 0 {
        Some(Error::InvalidToken)
    } else if m.pool.lp_token_supply == 0 {
        Some(Error::NotSeeded)
    } else {
        let pair = optimal_amounts_val(
            first.amount,
            second.amount,
            m.pool.first_token_reserve,
            m.pool.second_token_reserve,
        );
        if (if first.amount * m.pool.second_token_reserve <= second.amount
            * m.pool.first_token_reserve {
            pair.1 < second_token_amount_min
        } else {
            pair.0 < first_token_amount_min
        }) {
            Some(Error::SlippageExceeded)
        } else if minted_shares_val(
            m.pool.lp_token_supply,
            m.pool.first_token_reserve,
            m.pool.second_token_reserve,
            pair.0,
            pair.1,
        ) == 0 {
            Some(Error::ZeroAmount)
        } else {
            None
        }
    }
}

/// The pool after a successful add-liquidity call.
pub open spec fn add_liquidity_state(
    m: PairModel,
    first_desired: nat,
    second_desired: nat,
    current_block: u64,
) -> PairModel {
    let pair = optimal_amounts_val(
        first_desired,
        second_desired,
        m.pool.first_token_reserve,
        m.pool.second_token_reserve,
    );
    let minted = minted_shares_val(
        m.pool.lp_token_supply,
        m.pool.first_token_reserve,
        m.pool.second_token_reserve,
        pair.0,
        pair.1,
    );
    PairModel {
        pool: PoolModel {
            first_token_reserve: m.pool.first_token_reserve + pair.0,
            second_token_reserve: m.pool.second_token_reserve + pair.1,
            lp_token_supply: m.pool.lp_token_supply + minted,
            ..m.pool
        },
        observation: observation_after(
            m.observation,
            m.pool.first_token_reserve,
            m.pool.second_token_reserve,
            current_block,
        ),
        ..m
    }
}

/// The first check a remove-liquidity call fails, if any, in evaluation
/// order.
pub open spec fn remove_liquidity_error(
    m: PairModel,
    payment: crate::state::PaymentModel,
    first_token_amount_min: nat,
    second_token_amount_min: nat,
) -> Option<Error> {
    if first_token_amount_min == 0 || second_token_amount_min == 0 {
        Some(Error::ZeroAmount)
    } else if m.pool.contract_state != State::Active && m.pool.contract_state
        != State::PartialActive {
        Some(Error::InactiveState)
    } else if m.pool.lp_token_id == 0 {
        Some(Error::InvalidToken)
    } else if payment.token_id != m.pool.lp_token_id {
        Some(Error::InvalidToken)
    } else if payment.amount == 0 {
        Some(Error::ZeroAmount)
    } else if payment.amount + MINIMUM_LIQUIDITY > m.pool.lp_token_supply {
        Some(Error::InsufficientReserve)
    } else if removal_amount_val(
        m.pool.first_token_reserve,
        payment.amount,
        m.pool.lp_token_supply,
    ) < first_token_amount_min || removal_amount_val(
        m.pool.second_token_reserve,
        payment.amount,
        m.pool.lp_token_supply,
    ) < second_token_amount_min {
        Some(Error::SlippageExceeded)
    } else {
        None
    }
}

/// The pool after a successful remove-liquidity call.
pub open spec fn remove_liquidity_state(m: PairModel, shares: nat, current_block: u64) -> PairModel {
    let first_out = removal_amount_val(
        m.pool.first_token_reserve,
        shares,
        m.pool.lp_token_supply,
    );
    let second_out = removal_amount_val(
        m.pool.second_token_reserve,
        shares,
        m.pool.lp_token_supply,
    );
    PairModel {
        pool: PoolModel {
            first_token_reserve: (m.pool.first_token_reserve - first_out) as nat,
            second_token_reserve: (m.pool.second_token_reserve - second_out) as nat,
            lp_token_supply: (m.pool.lp_token_supply - shares) as nat,
            ..m.pool
        },
        observation: observation_after(
            m.observation,
            m.pool.first_token_reserve,
            m.pool.second_token_reserve,
            current_block,
        ),
        ..m
    }
}

impl Pair {
    /// Seeds an inactive, empty pool with its first liquidity: the
    /// reserves become exactly the two payments, the share supply
    /// becomes the smaller amount, and the pool moves to
    /// `PartialActive`. Restricted to the configured initial adder, if
    /// one is set.
    pub fn add_initial_liquidity(
        &mut self,
        caller: u64,
        first_payment: Payment,
        second_payment: Payment,
        current_block: u64,
    ) -> (r: Result<AddLiquidityResultType, Error>)
        requires
            pair_well_formed(old(self)@),
        ensures
            pair_well_formed(final(self)@),
            r is Err ==> final(self)@ == old(self)@,
            ({
                let e = add_initial_liquidity_error(
                    old(self)@,
                    caller,
                    first_payment@,
                    second_payment@,
                );
                match r {
                    Ok(out) => e is None && out.lp_payment@.token_id == old(
                        self,
                    )@.pool.lp_token_id && out.lp_payment@.amount == initial_liquidity_val(
                        first_payment@.amount,
                        second_payment@.amount,
                    ) && out.first_refund@.token_id == first_payment@.token_id
                        && out.first_refund@.amount == 0 && out.second_refund@.token_id
                        == second_payment@.token_id && out.second_refund@.amount == 0 && final(self)@ == add_initial_liquidity_state(
                        old(self)@,
                        first_payment@.amount,
                        second_payment@.amount,
                        current_block,
                    ),
                    Err(actual) => Some(actual) == e,
                }
            }),
    {
        if let Some(adder) = self.initial_liquidity_adder {
            if caller != adder {
                return Err(Error::PermissionDenied);
            }
        }
        if first_payment.token_id != self.first_token_id || second_payment.token_id
            != self.second_token_id {
            return Err(Error::InvalidToken);
        }
        let zero = big_from_u64(0);
        if big_eq(&first_payment.amount, &zero) || big_eq(&second_payment.amount, &zero) {
            return Err(Error::ZeroAmount);
        }
        let state = self.contract_state;
        if self.is_state_active(state) {
            return Err(Error::AlreadySeeded);
        }
        let supply_is_zero = big_eq(&self.lp_token_supply, &zero);
        if !supply_is_zero {
            return Err(Error::AlreadySeeded);
        }
        if self.lp_token_id == 0 {
            return Err(Error::InvalidToken);
        }
        let mut storage_cache = self.load_cache();
        let liq_added = match liquidity::pool_add_initial_liquidity(
            &first_payment.amount,
            &second_payment.amount,
            &mut storage_cache,
        ) {
            Ok(l) => l,
            Err(e) => {
                return Err(e);
            },
        };
        storage_cache.contract_state = State::PartialActive;
        self.commit_cache(storage_cache);
        Ok(
            AddLiquidityResultType {
                lp_payment: Payment { token_id: self.lp_token_id, amount: liq_added },
                first_refund: Payment::zero(first_payment.token_id),
                second_refund: Payment::zero(second_payment.token_id),
            },
        )
    }

    /// Adds liquidity to a seeded pool at the current reserve ratio:
    /// the scarcer side of the two payments is taken in full, the other
    /// side pro rata, the surplus is refunded, and shares are minted in
    /// proportion to what was contributed.
    pub fn add_liquidity(
        &mut self,
        first_payment: Payment,
        second_payment: Payment,
        first_token_amount_min: BigUint,
        second_token_amount_min: BigUint,
        current_block: u64,
    ) -> (r: Result<AddLiquidityResultType, Error>)
        requires
            pair_well_formed(old(self)@),
        ensures
            pair_well_formed(final(self)@),
            r is Err ==> final(self)@ == old(self)@,
            ({
                let e = add_liquidity_error(
                    old(self)@,
                    first_payment@,
                    second_payment@,
                    big_val(first_token_amount_min),
                    big_val(second_token_amount_min),
                );
                let pair = optimal_amounts_val(
                    first_payment@.amount,
                    second_payment@.amount,
                    old(self)@.pool.first_token_reserve,
                    old(self)@.pool.second_token_reserve,
                );
                match r {
                    Ok(out) => e is None && out.lp_payment@.token_id == old(
                        self,
                    )@.pool.lp_token_id && out.lp_payment@.amount == minted_shares_val(
                        old(self)@.pool.lp_token_supply,
                        old(self)@.pool.first_token_reserve,
                        old(self)@.pool.second_token_reserve,
                        pair.0,
                        pair.1,
                    ) && out.first_refund@.token_id == first_payment@.token_id
                        && out.first_refund@.amount == (first_payment@.amount - pair.0) as nat
                        && out.second_refund@.token_id == second_payment@.token_id
                        && out.second_refund@.amount == (second_payment@.amount - pair.1) as nat
                        && final(self)@ == add_liquidity_state(
                        old(self)@,
                        first_payment@.amount,
                        second_payment@.amount,
                        current_block,
                    ),
                    Err(actual) => Some(actual) == e,
                }
            }),
            r is Ok ==> k_val(
                final(self)@.pool.first_token_reserve,
                final(self)@.pool.second_token_reserve,
            ) >= k_val(
                old(self)@.pool.first_token_reserve,
                old(self)@.pool.second_token_reserve,
            ),
    {
        let zero = big_from_u64(0);
        if big_eq(&first_token_amount_min, &zero) || big_eq(&second_token_amount_min, &zero) {
            return Err(Error::ZeroAmount);
        }
        if first_payment.token_id != self.first_token_id || second_payment.token_id
            != self.second_token_id {
            return Err(Error::InvalidToken);
        }
        if big_eq(&first_payment.amount, &zero) || big_eq(&second_payment.amount, &zero) {
            return Err(Error::ZeroAmount);
        }
        let state = self.contract_state;
        if !self.is_state_active(state) {
            return Err(Error::InactiveState);
        }
        if self.lp_token_id == 0 {
            return Err(Error::InvalidToken);
        }
        if big_eq(&self.lp_token_supply, &zero) {
            return Err(Error::NotSeeded);
        }
        let ghost first_desired = first_payment@.amount;
        let ghost second_desired = second_payment@.amount;
        let mut storage_cache = self.load_cache();
        let initial_k = amm::calculate_k_constant(
            &storage_cache.first_token_reserve,
            &storage_cache.second_token_reserve,
        );
        let mut add_liq_context = AddLiquidityContext::new(
            first_payment,
            second_payment,
            first_token_amount_min,
            second_token_amount_min,
        );
        match liquidity::set_optimal_amounts(&mut add_liq_context, &storage_cache) {
            Ok(()) => {},
            Err(e) => {
                return Err(e);
            },
        }
        let liq_added = match liquidity::pool_add_liquidity(
            &add_liq_context.first_token_optimal_amount,
            &add_liq_context.second_token_optimal_amount,
            &mut storage_cache,
        ) {
            Ok(l) => l,
            Err(e) => {
                return Err(e);
            },
        };
        let new_k = amm::calculate_k_constant(
            &storage_cache.first_token_reserve,
            &storage_cache.second_token_reserve,
        );
        proof {
            crate::laws::lemma_add_increases_k(
                old(self)@.pool.first_token_reserve,
                old(self)@.pool.second_token_reserve,
                add_liq_context@.first_token_optimal_amount,
                add_liq_context@.second_token_optimal_amount,
            );
            assert(big_val(new_k) >= big_val(initial_k));
        }
        if !big_le(&initial_k, &new_k) {
            return Err(Error::InvariantViolation);
        }
        self.price_observation.update(
            &self.first_token_reserve,
            &self.second_token_reserve,
            current_block,
        );
        self.commit_cache(storage_cache);
        let first_refund_amount = big_sub(
            &add_liq_context.first_payment.amount,
            &add_liq_context.first_token_optimal_amount,
        );
        let second_refund_amount = big_sub(
            &add_liq_context.second_payment.amount,
            &add_liq_context.second_token_optimal_amount,
        );
        Ok(
            AddLiquidityResultType {
                lp_payment: Payment { token_id: self.lp_token_id, amount: liq_added },
                first_refund: Payment {
                    token_id: self.first_token_id,
                    amount: first_refund_amount,
                },
                second_refund: Payment {
                    token_id: self.second_token_id,
                    amount: second_refund_amount,
                },
            },
        )
    }

    /// Burns an LP-share payment and pays out the proportional slice of
    /// both reserves, each refused below the caller's floor. A removal
    /// must leave at least `MINIMUM_LIQUIDITY` shares outstanding.
    pub fn remove_liquidity(
        &mut self,
        payment: Payment,
        first_token_amount_min: BigUint,
        second_token_amount_min: BigUint,
        current_block: u64,
    ) -> (r: Result<RemoveLiquidityResultType, Error>)
        requires
            pair_well_formed(old(self)@),
        ensures
            pair_well_formed(final(self)@),
            r is Err ==> final(self)@ == old(self)@,
            ({
                let e = remove_liquidity_error(
                    old(self)@,
                    payment@,
                    big_val(first_token_amount_min),
                    big_val(second_token_amount_min),
                );
                match r {
                    Ok(out) => e is None && out.first_payment_out@.token_id == old(
                        self,
                    )@.pool.first_token_id && out.first_payment_out@.amount == removal_amount_val(
                        old(self)@.pool.first_token_reserve,
                        payment@.amount,
                        old(self)@.pool.lp_token_supply,
                    ) && out.second_payment_out@.token_id == old(self)@.pool.second_token_id
                        && out.second_payment_out@.amount == removal_amount_val(
                        old(self)@.pool.second_token_reserve,
                        payment@.amount,
                        old(self)@.pool.lp_token_supply,
                    ) && final(self)@ == remove_liquidity_state(
                        old(self)@,
                        payment@.amount,
                        current_block,
                    ),
                    Err(actual) => Some(actual) == e,
                }
            }),
            r is Ok ==> k_val(
                final(self)@.pool.first_token_reserve,
                final(self)@.pool.second_token_reserve,
            ) <= k_val(
                old(self)@.pool.first_token_reserve,
                old(self)@.pool.second_token_reserve,
            ),
            r is Ok ==> k_val(
                final(self)@.pool.first_token_reserve,
                final(self)@.pool.second_token_reserve,
            ) * (old(self)@.pool.lp_token_supply * old(self)@.pool.lp_token_supply) >= k_val(
                old(self)@.pool.first_token_reserve,
                old(self)@.pool.second_token_reserve,
            ) * (((old(self)@.pool.lp_token_supply - payment@.amount) as nat) * ((old(
                self,
            )@.pool.lp_token_supply - payment@.amount) as nat)),
    {
        let zero = big_from_u64(0);
        if big_eq(&first_token_amount_min, &zero) || big_eq(&second_token_amount_min, &zero) {
            return Err(Error::ZeroAmount);
        }
        let state = self.contract_state;
        if !self.is_state_active(state) {
            return Err(Error::InactiveState);
        }
        if self.lp_token_id == 0 {
            return Err(Error::InvalidToken);
        }
        if payment.token_id != self.lp_token_id {
            return Err(Error::InvalidToken);
        }
        if big_eq(&payment.amount, &zero) {
            return Err(Error::ZeroAmount);
        }
        let ghost shares = payment@.amount;
        let mut storage_cache = self.load_cache();
        let initial_k = amm::calculate_k_constant(
            &storage_cache.first_token_reserve,
            &storage_cache.second_token_reserve,
        );
        let mut remove_liq_context = RemoveLiquidityContext::new(
            payment,
            first_token_amount_min,
            second_token_amount_min,
        );
        match liquidity::pool_remove_liquidity(&mut remove_liq_context, &mut storage_cache) {
            Ok(()) => {},
            Err(e) => {
                return Err(e);
            },
        }
        let new_k = amm::calculate_k_constant(
            &storage_cache.first_token_reserve,
            &storage_cache.second_token_reserve,
        );
        proof {
            let r1 = old(self)@.pool.first_token_reserve;
            let r2 = old(self)@.pool.second_token_reserve;
            let lp = old(self)@.pool.lp_token_supply;
            crate::laws::lemma_remove_liquidity_k_bounds(r1, r2, lp, shares);
            assert(big_val(new_k) <= big_val(initial_k));
            crate::laws::lemma_removal_amounts_strict(r1, r2, lp, shares);
        }
        if !big_le(&new_k, &initial_k) {
            return Err(Error::InvariantViolation);
        }
        self.price_observation.update(
            &self.first_token_reserve,
            &self.second_token_reserve,
            current_block,
        );
        self.commit_cache(storage_cache);
        let RemoveLiquidityContext {
            first_token_amount_removed,
            second_token_amount_removed,
            ..
        } = remove_liq_context;
        Ok(
            RemoveLiquidityResultType {
                first_payment_out: Payment {
                    token_id: self.first_token_id,
                    amount: first_token_amount_removed,
                },
                second_payment_out: Payment {
                    token_id: self.second_token_id,
                    amount: second_token_amount_removed,
                },
            },
        )
    }
}

/// The first check a privileged remove-and-burn call fails, if any, in
/// evaluation order.
pub open spec fn remove_and_burn_error(
    m: PairModel,
    caller: u64,
    payment: crate::state::PaymentModel,
) -> Option<Error> {
    if !m.whitelist.contains(caller) {
        Some(Error::PermissionDenied)
    } else if m.pool.lp_token_id == 0 {
        Some(Error::InvalidToken)
    } else if payment.token_id != m.pool.lp_token_id {
        Some(Error::InvalidToken)
    } else if payment.amount == 0 {
        Some(Error::ZeroAmount)
    } else if payment.amount + MINIMUM_LIQUIDITY > m.pool.lp_token_supply {
        Some(Error::InsufficientReserve)
    } else if removal_amount_val(
        m.pool.first_token_reserve,
        payment.amount,
        m.pool.lp_token_supply,
    ) < 1 || removal_amount_val(
        m.pool.second_token_reserve,
        payment.amount,
        m.pool.lp_token_supply,
    ) < 1 {
        Some(Error::SlippageExceeded)
    } else {
        None
    }
}

/// What a fixed-input quote returns for each input, in evaluation
/// order.
pub open spec fn amount_out_view_val(m: PairModel, token_in: u64, amount_in: nat) -> Result<
    nat,
    Error,
> {
    if amount_in == 0 {
        Err(Error::ZeroAmount)
    } else if token_in == m.pool.first_token_id {
        if m.pool.second_token_reserve == 0 {
            Err(Error::InsufficientReserve)
        } else {
            let y = amount_out_val(
                amount_in,
                m.pool.first_token_reserve,
                m.pool.second_token_reserve,
                m.fee.total_fee_rate,
            );
            if y >= m.pool.second_token_reserve {
                Err(Error::InsufficientReserve)
            } else {
                Ok(y)
            }
        }
    } else if token_in == m.pool.second_token_id {
        if m.pool.first_token_reserve == 0 {
            Err(Error::InsufficientReserve)
        } else {
            let y = amount_out_val(
                amount_in,
                m.pool.second_token_reserve,
                m.pool.first_token_reserve,
                m.fee.total_fee_rate,
            );
            if y >= m.pool.first_token_reserve {
                Err(Error::InsufficientReserve)
            } else {
                Ok(y)
            }
        }
    } else {
        Err(Error::InvalidToken)
    }
}

/// What a fixed-output quote returns for each request, in evaluation
/// order.
pub open spec fn amount_in_view_val(m: PairModel, token_wanted: u64, amount_wanted: nat) -> Result<
    nat,
    Error,
> {
    if amount_wanted == 0 {
        Err(Error::ZeroAmount)
    } else if token_wanted == m.pool.first_token_id {
        if m.pool.first_token_reserve <= amount_wanted {
            Err(Error::InsufficientReserve)
        } else {
            Ok(
                amount_in_val(
                    amount_wanted,
                    m.pool.second_token_reserve,
                    m.pool.first_token_reserve,
                    m.fee.total_fee_rate,
                ),
            )
        }
    } else if token_wanted == m.pool.second_token_id {
        if m.pool.second_token_reserve <= amount_wanted {
            Err(Error::InsufficientReserve)
        } else {
            Ok(
                amount_in_val(
                    amount_wanted,
                    m.pool.first_token_reserve,
                    m.pool.second_token_reserve,
                    m.fee.total_fee_rate,
                ),
            )
        }
    } else {
        Err(Error::InvalidToken)
    }
}

/// What a fee-free spot quote returns for each input, in evaluation
/// order; an unseeded pool quotes zero.
pub open spec fn equivalent_val(m: PairModel, token_in: u64, amount_in: nat) -> Result<
    nat,
    Error,
> {
    if amount_in == 0 {
        Err(Error::ZeroAmount)
    } else if token_in != m.pool.first_token_id && token_in != m.pool.second_token_id {
        Err(Error::InvalidToken)
    } else if m.pool.first_token_reserve == 0 || m.pool.second_token_reserve == 0 {
        Ok(0)
    } else if token_in == m.pool.first_token_id {
        Ok(quote_val(amount_in, m.pool.first_token_reserve, m.pool.second_token_reserve))
    } else {
        Ok(quote_val(amount_in, m.pool.second_token_reserve, m.pool.first_token_reserve))
    }
}

impl Pair {
    /// The privileged removal path: a whitelisted caller burns an
    /// LP-share payment and receives the proportional slice of both
    /// reserves, to forward to the buy-back-and-burn collaborator. No
    /// caller-chosen floors: each side must only be at least one unit.
    pub fn remove_liquidity_and_burn_token(
        &mut self,
        caller: u64,
        payment: Payment,
        current_block: u64,
    ) -> (r: Result<RemoveLiquidityResultType, Error>)
        requires
            pair_well_formed(old(self)@),
        ensures
            pair_well_formed(final(self)@),
            r is Err ==> final(self)@ == old(self)@,
            ({
                let e = remove_and_burn_error(old(self)@, caller, payment@);
                match r {
                    Ok(out) => e is None && out.first_payment_out@.token_id == old(
                        self,
                    )@.pool.first_token_id && out.first_payment_out@.amount == removal_amount_val(
                        old(self)@.pool.first_token_reserve,
                        payment@.amount,
                        old(self)@.pool.lp_token_supply,
                    ) && out.second_payment_out@.token_id == old(self)@.pool.second_token_id
                        && out.second_payment_out@.amount == removal_amount_val(
                        old(self)@.pool.second_token_reserve,
                        payment@.amount,
                        old(self)@.pool.lp_token_supply,
                    ) && final(self)@ == remove_liquidity_state(
                        old(self)@,
                        payment@.amount,
                        current_block,
                    ),
                    Err(actual) => Some(actual) == e,
                }
            }),
            r is Ok ==> k_val(
                final(self)@.pool.first_token_reserve,
                final(self)@.pool.second_token_reserve,
            ) <= k_val(
                old(self)@.pool.first_token_reserve,
                old(self)@.pool.second_token_reserve,
            ),
    {
        if !vec_contains(&self.whitelist, caller) {
            return Err(Error::PermissionDenied);
        }
        if self.lp_token_id == 0 {
            return Err(Error::InvalidToken);
        }
        if payment.token_id != self.lp_token_id {
            return Err(Error::InvalidToken);
        }
        let zero = big_from_u64(0);
        if big_eq(&payment.amount, &zero) {
            return Err(Error::ZeroAmount);
        }
        let ghost shares = payment@.amount;
        let mut storage_cache = self.load_cache();
        let initial_k = amm::calculate_k_constant(
            &storage_cache.first_token_reserve,
            &storage_cache.second_token_reserve,
        );
        let one = big_from_u64(1);
        let mut remove_liq_context = RemoveLiquidityContext::new(
            payment,
            one,
            big_from_u64(1),
        );
        match liquidity::pool_remove_liquidity(&mut remove_liq_context, &mut storage_cache) {
            Ok(()) => {},
            Err(e) => {
                return Err(e);
            },
        }
        let new_k = amm::calculate_k_constant(
            &storage_cache.first_token_reserve,
            &storage_cache.second_token_reserve,
        );
        proof {
            let r1 = old(self)@.pool.first_token_reserve;
            let r2 = old(self)@.pool.second_token_reserve;
            let lp = old(self)@.pool.lp_token_supply;
            crate::laws::lemma_remove_liquidity_k_bounds(r1, r2, lp, shares);
            assert(big_val(new_k) <= big_val(initial_k));
            crate::laws::lemma_removal_amounts_strict(r1, r2, lp, shares);
        }
        if !big_le(&new_k, &initial_k) {
            return Err(Error::InvariantViolation);
        }
        self.price_observation.update(
            &self.first_token_reserve,
            &self.second_token_reserve,
            current_block,
        );
        self.commit_cache(storage_cache);
        let RemoveLiquidityContext {
            first_token_amount_removed,
            second_token_amount_removed,
            ..
        } = remove_liq_context;
        Ok(
            RemoveLiquidityResultType {
                first_payment_out: Payment {
                    token_id: self.first_token_id,
                    amount: first_token_amount_removed,
                },
                second_payment_out: Payment {
                    token_id: self.second_token_id,
                    amount: second_token_amount_removed,
                },
            },
        )
    }

    /// Read-only quote: what a fixed-input swap of `amount_in` would
    /// return right now, after the total fee.
    pub fn get_amount_out_view(&self, token_in: u64, amount_in: &BigUint) -> (r: Result<
        BigUint,
        Error,
    >)
        requires
            pair_well_formed(self@),
        ensures
            match r {
                Ok(a) => amount_out_view_val(self@, token_in, big_val(*amount_in)) == Result::<
                    nat,
                    Error,
                >::Ok(big_val(a)),
                Err(e) => amount_out_view_val(self@, token_in, big_val(*amount_in)) == Result::<
                    nat,
                    Error,
                >::Err(e),
            },
    {
        let zero = big_from_u64(0);
        if big_eq(amount_in, &zero) {
            return Err(Error::ZeroAmount);
        }
        if token_in == self.first_token_id {
            if big_eq(&self.second_token_reserve, &zero) {
                return Err(Error::InsufficientReserve);
            }
            let amount_out = amm::get_amount_out(
                amount_in,
                &self.first_token_reserve,
                &self.second_token_reserve,
                self.fee_config.total_fee_rate,
            );
            if !big_lt(&amount_out, &self.second_token_reserve) {
                return Err(Error::InsufficientReserve);
            }
            Ok(amount_out)
        } else if token_in == self.second_token_id {
            if big_eq(&self.first_token_reserve, &zero) {
                return Err(Error::InsufficientReserve);
            }
            let amount_out = amm::get_amount_out(
                amount_in,
                &self.second_token_reserve,
                &self.first_token_reserve,
                self.fee_config.total_fee_rate,
            );
            if !big_lt(&amount_out, &self.first_token_reserve) {
                return Err(Error::InsufficientReserve);
            }
            Ok(amount_out)
        } else {
            Err(Error::InvalidToken)
        }
    }

    /// Read-only quote: what a fixed-output swap for `amount_wanted`
    /// would cost right now, after the total fee.
    pub fn get_amount_in_view(&self, token_wanted: u64, amount_wanted: &BigUint) -> (r: Result<
        BigUint,
        Error,
    >)
        requires
            pair_well_formed(self@),
        ensures
            match r {
                Ok(a) => amount_in_view_val(self@, token_wanted, big_val(*amount_wanted))
                    == Result::<nat, Error>::Ok(big_val(a)),
                Err(e) => amount_in_view_val(self@, token_wanted, big_val(*amount_wanted))
                    == Result::<nat, Error>::Err(e),
            },
    {
        let zero = big_from_u64(0);
        if big_eq(amount_wanted, &zero) {
            return Err(Error::ZeroAmount);
        }
        if token_wanted == self.first_token_id {
            if !big_lt(amount_wanted, &self.first_token_reserve) {
                return Err(Error::InsufficientReserve);
            }
            amm::get_amount_in(
                amount_wanted,
                &self.second_token_reserve,
                &self.first_token_reserve,
                self.fee_config.total_fee_rate,
            )
        } else if token_wanted == self.second_token_id {
            if !big_lt(amount_wanted, &self.second_token_reserve) {
                return Err(Error::InsufficientReserve);
            }
            amm::get_amount_in(
                amount_wanted,
                &self.first_token_reserve,
                &self.second_token_reserve,
                self.fee_config.total_fee_rate,
            )
        } else {
            Err(Error::InvalidToken)
        }
    }

    /// Read-only fee-free spot conversion at the current reserve ratio.
    pub fn get_equivalent(&self, token_in: u64, amount_in: &BigUint) -> (r: Result<BigUint, Error>)
        requires
            pair_well_formed(self@),
        ensures
            match r {
                Ok(a) => equivalent_val(self@, token_in, big_val(*amount_in)) == Result::<
                    nat,
                    Error,
                >::Ok(big_val(a)),
                Err(e) => equivalent_val(self@, token_in, big_val(*amount_in)) == Result::<
                    nat,
                    Error,
                >::Err(e),
            },
    {
        let zero = big_from_u64(0);
        if big_eq(amount_in, &zero) {
            return Err(Error::ZeroAmount);
        }
        if token_in == self.first_token_id {
            crate::amm::quote(amount_in, &self.first_token_reserve, &self.second_token_reserve)
        } else if token_in == self.second_token_id {
            crate::amm::quote(amount_in, &self.second_token_reserve, &self.first_token_reserve)
        } else {
            Err(Error::InvalidToken)
        }
    }
}

} // verus!
