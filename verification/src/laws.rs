//! The pool's arithmetic laws, proved once over the mathematical values
//! and invoked by the operations.
//!
//! The central fact is that the constant product `K` of the reserves
//! never decreases across a swap or a liquidity addition, and decreases
//! across a liquidity removal by at most the proportional share burned.

use vstd::prelude::*;
use crate::amm::{amount_in_val, amount_out_no_fee_val, amount_out_val, k_val, special_fee_val};
use crate::MAX_RATE;

verus! {

/// Floor division bounds: `d * (n / d)` is at most `n` and misses it by
/// less than `d`.
pub(crate) proof fn lemma_div_bounds(n: nat, d: nat)
    requires
        d > 0,
    ensures
        d * (n / d) <= n,
        n < d * (n / d) + d,
{
    vstd::arithmetic::div_mod::lemma_fundamental_div_mod(n as int, d as int);
    vstd::arithmetic::div_mod::lemma_mod_bound(n as int, d as int);
}

/// Nonlinear core of the fixed-input K law, over the floor facts alone:
/// `y` is any value below the exact quotient, `s` any value with
/// `s * m <= x * fsp`.
proof fn lemma_fixed_input_k_core(
    rin: int,
    rout: int,
    x: int,
    m: int,
    e: int,
    fsp: int,
    y: int,
    s: int,
) by (nonlinear_arith)
    requires
        rin > 0,
        rout > 0,
        x > 0,
        m > 0,
        0 <= e <= m,
        0 <= fsp <= m - e,
        y >= 0,
        s >= 0,
        y * (rin * m + x * e) <= x * e * rout,
        s * m <= x * fsp,
    ensures
        y < rout,
        s <= x,
        (rin + x - s) * (rout - y) >= rin * rout,
{
}

/// Nonlinear core of the fixed-output K law: `z` is any value strictly
/// above the exact quotient `rin * y * m / ((rout - y) * e)`.
proof fn lemma_fixed_output_k_core(
    rin: int,
    rout: int,
    y: int,
    m: int,
    e: int,
    fsp: int,
    z: int,
    s: int,
) by (nonlinear_arith)
    requires
        rin > 0,
        rout > y >= 0,
        m > 0,
        0 < e <= m,
        0 <= fsp <= m - e,
        z >= 0,
        s >= 0,
        z * ((rout - y) * e) > rin * y * m,
        s * m <= z * fsp,
    ensures
        s <= z,
        (rin + z - s) * (rout - y) >= rin * rout,
{
}

/// For every valid fixed-input swap the constant product does not
/// decrease: the input credited to the reserve (input less the protocol
/// fee slice) is worth at least the output taken out.
pub proof fn lemma_swap_fixed_input_preserves_k(
    reserve_in: nat,
    reserve_out: nat,
    amount_in: nat,
    total_fee_rate: nat,
    special_fee_rate: nat,
)
    requires
        reserve_in > 0,
        reserve_out > 0,
        amount_in > 0,
        special_fee_rate <= total_fee_rate <= MAX_RATE,
    ensures
        ({
            let y = amount_out_val(amount_in, reserve_in, reserve_out, total_fee_rate);
            let s = special_fee_val(amount_in, special_fee_rate);
            &&& y < reserve_out
            &&& s <= amount_in
            &&& (reserve_in + amount_in - s) * (reserve_out - y) >= k_val(reserve_in, reserve_out)
        }),
{
    let m = MAX_RATE as nat;
    let e = (m - total_fee_rate) as nat;
    let numerator = (amount_in * e) * reserve_out;
    let denominator = reserve_in * m + amount_in * e;
    assert(denominator > 0) by (nonlinear_arith)
        requires
            reserve_in > 0,
            m > 0,
            denominator == reserve_in * m + amount_in * e,
            amount_in * e >= 0,
    ;
    let y = amount_out_val(amount_in, reserve_in, reserve_out, total_fee_rate);
    assert(y == numerator / denominator);
    lemma_div_bounds(numerator, denominator);
    assert(denominator * y <= numerator);
    let s = special_fee_val(amount_in, special_fee_rate);
    lemma_div_bounds(amount_in * special_fee_rate, m);
    assert(m * s <= amount_in * special_fee_rate);
    lemma_fixed_input_k_core(
        reserve_in as int,
        reserve_out as int,
        amount_in as int,
        m as int,
        e as int,
        special_fee_rate as int,
        y as int,
        s as int,
    );
}

/// For every valid fixed-output swap the constant product does not
/// decrease.
pub proof fn lemma_swap_fixed_output_preserves_k(
    reserve_in: nat,
    reserve_out: nat,
    amount_out: nat,
    total_fee_rate: nat,
    special_fee_rate: nat,
)
    requires
        reserve_in > 0,
        amount_out < reserve_out,
        special_fee_rate <= total_fee_rate < MAX_RATE,
    ensures
        ({
            let z = amount_in_val(amount_out, reserve_in, reserve_out, total_fee_rate);
            let s = special_fee_val(z, special_fee_rate);
            &&& s <= z
            &&& (reserve_in + z - s) * (reserve_out - amount_out) >= k_val(reserve_in, reserve_out)
        }),
{
    let m = MAX_RATE as nat;
    let e = (m - total_fee_rate) as nat;
    let numerator = reserve_in * amount_out * m;
    let denominator = ((reserve_out - amount_out) as nat) * e;
    assert(denominator > 0) by (nonlinear_arith)
        requires
            reserve_out - amount_out > 0,
            e > 0,
            denominator == ((reserve_out - amount_out) as nat) * e,
    ;
    let z = amount_in_val(amount_out, reserve_in, reserve_out, total_fee_rate);
    assert(z == numerator / denominator + 1);
    lemma_div_bounds(numerator, denominator);
    assert(numerator < denominator * (numerator / denominator) + denominator);
    assert(z * denominator > numerator) by (nonlinear_arith)
        requires
            denominator > 0,
            z == numerator / denominator + 1,
            numerator < denominator * (numerator / denominator) + denominator,
    ;
    let s = special_fee_val(z, special_fee_rate);
    lemma_div_bounds(z * special_fee_rate, m);
    assert(m * s <= z * special_fee_rate);
    lemma_fixed_output_k_core(
        reserve_in as int,
        reserve_out as int,
        amount_out as int,
        m as int,
        e as int,
        special_fee_rate as int,
        z as int,
        s as int,
    );
}

/// For the fee-free formula the constant product does not decrease, and
/// the increase is below one smallest output unit: granting even one more
/// unit of output would push `K` under its starting value.
pub proof fn lemma_swap_no_fee_k_exact(reserve_in: nat, reserve_out: nat, amount_in: nat)
    requires
        reserve_in > 0,
        reserve_out > 0,
        amount_in > 0,
    ensures
        ({
            let y = amount_out_no_fee_val(amount_in, reserve_in, reserve_out);
            &&& y < reserve_out
            &&& (reserve_in + amount_in) * (reserve_out - y) >= k_val(reserve_in, reserve_out)
            &&& (reserve_in + amount_in) * (reserve_out - y) < k_val(reserve_in, reserve_out)
                + (reserve_in + amount_in)
        }),
{
    let d = reserve_in + amount_in;
    let numerator = amount_in * reserve_out;
    let y = amount_out_no_fee_val(amount_in, reserve_in, reserve_out);
    assert(y == numerator / d);
    lemma_div_bounds(numerator, d);
    assert({
        &&& y < reserve_out
        &&& (reserve_in + amount_in) * (reserve_out - y) >= reserve_in * reserve_out
        &&& (reserve_in + amount_in) * (reserve_out - y) < reserve_in * reserve_out + (reserve_in
            + amount_in)
    }) by (nonlinear_arith)
        requires
            reserve_in > 0,
            reserve_out > 0,
            amount_in > 0,
            d == reserve_in + amount_in,
            numerator == amount_in * reserve_out,
            y >= 0,
            d * y <= numerator,
            numerator < d * y + d,
    ;
}

/// At a zero fee rate the fixed-input formula collapses to the plain
/// constant-product formula: the fee factors cancel.
pub proof fn lemma_amount_out_zero_fee(amount_in: nat, reserve_in: nat, reserve_out: nat)
    requires
        reserve_in > 0,
    ensures
        amount_out_val(amount_in, reserve_in, reserve_out, 0) == amount_out_no_fee_val(
            amount_in,
            reserve_in,
            reserve_out,
        ),
{
    let m = MAX_RATE as nat;
    assert((amount_in * m) * reserve_out == m * (amount_in * reserve_out)) by (nonlinear_arith);
    assert(reserve_in * m + amount_in * m == m * ((reserve_in + amount_in) as int))
        by (nonlinear_arith);
    vstd::arithmetic::div_mod::lemma_div_multiples_vanish_quotient(
        m as int,
        (amount_in * reserve_out) as int,
        (reserve_in + amount_in) as int,
    );
}

/// With the fee disabled entirely, a fixed-input swap changes the
/// constant product by less than one smallest output unit: `K` does not
/// decrease, and granting one more output unit would make it decrease.
pub proof fn lemma_swap_fixed_input_zero_fee_exact(
    reserve_in: nat,
    reserve_out: nat,
    amount_in: nat,
)
    requires
        reserve_in > 0,
        reserve_out > 0,
        amount_in > 0,
    ensures
        ({
            let y = amount_out_val(amount_in, reserve_in, reserve_out, 0);
            &&& y < reserve_out
            &&& (reserve_in + amount_in) * (reserve_out - y) >= k_val(reserve_in, reserve_out)
            &&& (reserve_in + amount_in) * (reserve_out - y) < k_val(reserve_in, reserve_out)
                + (reserve_in + amount_in)
        }),
{
    lemma_amount_out_zero_fee(amount_in, reserve_in, reserve_out);
    lemma_swap_no_fee_k_exact(reserve_in, reserve_out, amount_in);
}

/// Paying the input quoted for a fixed output always yields at least that
/// output: the two swap formulas round against the trader consistently.
pub proof fn lemma_amount_in_covers_amount_out(
    reserve_in: nat,
    reserve_out: nat,
    amount_out: nat,
    total_fee_rate: nat,
)
    requires
        reserve_in > 0,
        amount_out < reserve_out,
        total_fee_rate < MAX_RATE,
    ensures
        amount_out_val(
            amount_in_val(amount_out, reserve_in, reserve_out, total_fee_rate),
            reserve_in,
            reserve_out,
            total_fee_rate,
        ) >= amount_out,
{
    let m = MAX_RATE as nat;
    let e = (m - total_fee_rate) as nat;
    let numerator = reserve_in * amount_out * m;
    let denominator = ((reserve_out - amount_out) as nat) * e;
    assert(denominator > 0) by (nonlinear_arith)
        requires
            reserve_out - amount_out > 0,
            e > 0,
            denominator == ((reserve_out - amount_out) as nat) * e,
    ;
    let z = amount_in_val(amount_out, reserve_in, reserve_out, total_fee_rate);
    lemma_div_bounds(numerator, denominator);
    assert(z * denominator > numerator) by (nonlinear_arith)
        requires
            denominator > 0,
            z == numerator / denominator + 1,
            numerator < denominator * (numerator / denominator) + denominator,
    ;
    let numerator2 = (z * e) * reserve_out;
    let denominator2 = reserve_in * m + z * e;
    assert(denominator2 > 0) by (nonlinear_arith)
        requires
            reserve_in > 0,
            m > 0,
            denominator2 == reserve_in * m + z * e,
            z * e >= 0,
    ;
    lemma_div_bounds(numerator2, denominator2);
    // From z * (rout - y) * e > rin * y * m it follows that
    // z * e * rout >= y * (rin * m + z * e), so the floor is at least y.
    assert(numerator2 / denominator2 >= amount_out) by (nonlinear_arith)
        requires
            reserve_in > 0,
            reserve_out > amount_out >= 0,
            m > 0,
            0 < e <= m,
            z >= 0,
            z * (((reserve_out - amount_out) as nat) * e) > reserve_in * amount_out * m,
            numerator2 == (z * e) * reserve_out,
            denominator2 == reserve_in * m + z * e,
            denominator2 * (numerator2 / denominator2) <= numerator2,
            numerator2 < denominator2 * (numerator2 / denominator2) + denominator2,
    ;
}

/// The protocol fee slice never exceeds the input it is taken from.
pub proof fn lemma_special_fee_le_input(amount: nat, special_fee_rate: nat)
    requires
        special_fee_rate <= MAX_RATE,
    ensures
        special_fee_val(amount, special_fee_rate) <= amount,
{
    let m = MAX_RATE as nat;
    lemma_div_bounds(amount * special_fee_rate, m);
    assert(amount * special_fee_rate / m <= amount) by (nonlinear_arith)
        requires
            m > 0,
            special_fee_rate <= m,
            amount >= 0,
            m * (amount * special_fee_rate / m) <= amount * special_fee_rate,
            amount * special_fee_rate / m >= 0,
    ;
}

/// Burning strictly fewer shares than the whole supply leaves part of
/// each reserve behind: both proportional payouts are strictly below
/// their reserves.
pub proof fn lemma_removal_amounts_strict(
    first_reserve: nat,
    second_reserve: nat,
    lp_supply: nat,
    shares: nat,
)
    requires
        0 < first_reserve,
        0 < second_reserve,
        shares < lp_supply,
    ensures
        crate::liquidity::removal_amount_val(first_reserve, shares, lp_supply) < first_reserve,
        crate::liquidity::removal_amount_val(second_reserve, shares, lp_supply) < second_reserve,
{
    let first_out = crate::liquidity::removal_amount_val(first_reserve, shares, lp_supply);
    let second_out = crate::liquidity::removal_amount_val(second_reserve, shares, lp_supply);
    lemma_div_bounds(first_reserve * shares, lp_supply);
    lemma_div_bounds(second_reserve * shares, lp_supply);
    assert(first_out < first_reserve && second_out < second_reserve) by (nonlinear_arith)
        requires
            lp_supply > 0,
            shares < lp_supply,
            first_reserve > 0,
            second_reserve > 0,
            first_out >= 0,
            second_out >= 0,
            lp_supply * first_out <= first_reserve * shares,
            lp_supply * second_out <= second_reserve * shares,
            first_out == first_reserve * shares / lp_supply,
            second_out == second_reserve * shares / lp_supply,
    ;
}

/// Growing both reserves never shrinks the constant product.
pub proof fn lemma_add_increases_k(
    first_reserve: nat,
    second_reserve: nat,
    first_added: nat,
    second_added: nat,
) by (nonlinear_arith)
    ensures
        k_val(first_reserve + first_added, second_reserve + second_added) >= k_val(
            first_reserve,
            second_reserve,
        ),
{
}

/// Burning `shares` of `lp_supply` takes at most the proportional slice
/// of each reserve: the constant product does not grow, and shrinks by
/// no more than the proportional share burned (twice, once per side).
pub proof fn lemma_remove_liquidity_k_bounds(
    first_reserve: nat,
    second_reserve: nat,
    lp_supply: nat,
    shares: nat,
)
    requires
        0 < lp_supply,
        shares <= lp_supply,
    ensures
        ({
            let first_out = first_reserve * shares / lp_supply;
            let second_out = second_reserve * shares / lp_supply;
            &&& first_out <= first_reserve
            &&& second_out <= second_reserve
            &&& k_val((first_reserve - first_out) as nat, (second_reserve - second_out) as nat)
                <= k_val(first_reserve, second_reserve)
            &&& k_val((first_reserve - first_out) as nat, (second_reserve - second_out) as nat) * (
            lp_supply * lp_supply) >= k_val(first_reserve, second_reserve) * (((lp_supply
                - shares) as nat) * ((lp_supply - shares) as nat))
        }),
{
    let first_out = first_reserve * shares / lp_supply;
    let second_out = second_reserve * shares / lp_supply;
    lemma_div_bounds(first_reserve * shares, lp_supply);
    lemma_div_bounds(second_reserve * shares, lp_supply);
    assert({
        &&& first_out <= first_reserve
        &&& second_out <= second_reserve
        &&& (first_reserve - first_out) * (second_reserve - second_out) <= first_reserve
            * second_reserve
        &&& ((first_reserve - first_out) * (second_reserve - second_out)) * (lp_supply * lp_supply)
            >= (first_reserve * second_reserve) * ((lp_supply - shares) * (lp_supply - shares))
    }) by (nonlinear_arith)
        requires
            0 < lp_supply,
            shares <= lp_supply,
            first_out >= 0,
            second_out >= 0,
            lp_supply * first_out <= first_reserve * shares,
            first_reserve * shares < lp_supply * first_out + lp_supply,
            lp_supply * second_out <= second_reserve * shares,
            second_reserve * shares < lp_supply * second_out + lp_supply,
    ;
}

/// Depositing liquidity and at once withdrawing the minted share count
/// returns at most what was deposited on each side: rounding never pays
/// a profit. `minted` is any share count satisfying the minting rule's
/// bound for both sides, in particular the minimum of the two
/// floor-rounded proportional mints.
pub proof fn lemma_deposit_withdraw_no_profit(
    first_reserve: nat,
    second_reserve: nat,
    lp_supply: nat,
    first_added: nat,
    second_added: nat,
    minted: nat,
)
    requires
        0 < lp_supply,
        minted * first_reserve <= lp_supply * first_added,
        minted * second_reserve <= lp_supply * second_added,
    ensures
        (first_reserve + first_added) * minted / (lp_supply + minted) <= first_added,
        (second_reserve + second_added) * minted / (lp_supply + minted) <= second_added,
{
    lemma_div_bounds((first_reserve + first_added) * minted, lp_supply + minted);
    lemma_div_bounds((second_reserve + second_added) * minted, lp_supply + minted);
    let first_out = (first_reserve + first_added) * minted / (lp_supply + minted);
    let second_out = (second_reserve + second_added) * minted / (lp_supply + minted);
    assert(first_out <= first_added && second_out <= second_added) by (nonlinear_arith)
        requires
            0 < lp_supply,
            minted * first_reserve <= lp_supply * first_added,
            minted * second_reserve <= lp_supply * second_added,
            first_out >= 0,
            second_out >= 0,
            (lp_supply + minted) * first_out <= (first_reserve + first_added) * minted,
            (lp_supply + minted) * second_out <= (second_reserve + second_added) * minted,
    ;
}

/// The floor-rounded proportional mints satisfy the bounds that
/// `lemma_deposit_withdraw_no_profit` asks of `minted`.
pub proof fn lemma_minted_shares_bounds(
    first_reserve: nat,
    second_reserve: nat,
    lp_supply: nat,
    first_added: nat,
    second_added: nat,
)
    requires
        0 < first_reserve,
        0 < second_reserve,
    ensures
        (lp_supply * first_added / first_reserve) * first_reserve <= lp_supply * first_added,
        (lp_supply * second_added / second_reserve) * second_reserve <= lp_supply * second_added,
{
    lemma_div_bounds(lp_supply * first_added, first_reserve);
    lemma_div_bounds(lp_supply * second_added, second_reserve);
    assert((lp_supply * first_added / first_reserve) * first_reserve == first_reserve * (lp_supply
        * first_added / first_reserve)) by (nonlinear_arith);
    assert((lp_supply * second_added / second_reserve) * second_reserve == second_reserve * (
    lp_supply * second_added / second_reserve)) by (nonlinear_arith);
}

/// Depositing `(first_added, second_added)` into a seeded pool and at
/// once withdrawing the minted share count returns at most the
/// deposited amount on each side, with the pool's own minting and
/// removal rules.
pub proof fn lemma_add_remove_round_trip(
    first_reserve: nat,
    second_reserve: nat,
    lp_supply: nat,
    first_added: nat,
    second_added: nat,
)
    requires
        0 < first_reserve,
        0 < second_reserve,
        0 < lp_supply,
    ensures
        ({
            let minted = crate::liquidity::minted_shares_val(
                lp_supply,
                first_reserve,
                second_reserve,
                first_added,
                second_added,
            );
            &&& crate::liquidity::removal_amount_val(
                first_reserve + first_added,
                minted,
                lp_supply + minted,
            ) <= first_added
            &&& crate::liquidity::removal_amount_val(
                second_reserve + second_added,
                minted,
                lp_supply + minted,
            ) <= second_added
        }),
{
    let first_quota = lp_supply * first_added / first_reserve;
    let second_quota = lp_supply * second_added / second_reserve;
    let minted = crate::liquidity::minted_shares_val(
        lp_supply,
        first_reserve,
        second_reserve,
        first_added,
        second_added,
    );
    lemma_minted_shares_bounds(first_reserve, second_reserve, lp_supply, first_added, second_added);
    assert(minted * first_reserve <= lp_supply * first_added) by (nonlinear_arith)
        requires
            minted <= first_quota,
            first_reserve >= 0,
            first_quota * first_reserve <= lp_supply * first_added,
    ;
    assert(minted * second_reserve <= lp_supply * second_added) by (nonlinear_arith)
        requires
            minted <= second_quota,
            second_reserve >= 0,
            second_quota * second_reserve <= lp_supply * second_added,
    ;
    lemma_deposit_withdraw_no_profit(
        first_reserve,
        second_reserve,
        lp_supply,
        first_added,
        second_added,
        minted,
    );
}

/// A fixed-output swap followed at once by a fixed-input swap selling the
/// bought amount back never returns more than what was paid, and the
/// constant product never drops below its starting value across the two
/// swaps: the formulas' asymmetry offers no arbitrage loop.
pub proof fn lemma_swap_round_trip_no_profit(
    reserve_in: nat,
    reserve_out: nat,
    amount_out: nat,
    total_fee_rate: nat,
    special_fee_rate: nat,
)
    requires
        reserve_in > 0,
        0 < amount_out < reserve_out,
        special_fee_rate <= total_fee_rate < MAX_RATE,
    ensures
        ({
            let z = amount_in_val(amount_out, reserve_in, reserve_out, total_fee_rate);
            let s = special_fee_val(z, special_fee_rate);
            let rin1 = (reserve_in + z - s) as nat;
            let rout1 = (reserve_out - amount_out) as nat;
            let back = amount_out_val(amount_out, rout1, rin1, total_fee_rate);
            let s2 = special_fee_val(amount_out, special_fee_rate);
            &&& back <= z
            &&& (rout1 + amount_out - s2) * ((rin1 - back) as nat) >= k_val(
                reserve_in,
                reserve_out,
            )
        }),
{
    let m = MAX_RATE as nat;
    let e = (m - total_fee_rate) as nat;
    let y = amount_out;
    let z = amount_in_val(y, reserve_in, reserve_out, total_fee_rate);
    let s = special_fee_val(z, special_fee_rate);
    let rin1 = (reserve_in + z - s) as nat;
    let rout1 = (reserve_out - y) as nat;

    lemma_swap_fixed_output_preserves_k(
        reserve_in,
        reserve_out,
        amount_out,
        total_fee_rate,
        special_fee_rate,
    );
    assert(rin1 * rout1 >= k_val(reserve_in, reserve_out)) by (nonlinear_arith)
        requires
            rin1 == reserve_in + z - s,
            (reserve_in + z - s) * (reserve_out - y) >= k_val(reserve_in, reserve_out),
            rout1 == reserve_out - y,
    ;
    assert(rin1 >= reserve_in > 0);
    assert(rout1 > 0);

    // The second swap is a valid fixed-input swap on the flipped reserves.
    lemma_swap_fixed_input_preserves_k(rout1, rin1, y, total_fee_rate, special_fee_rate);
    let back = amount_out_val(y, rout1, rin1, total_fee_rate);
    let s2 = special_fee_val(y, special_fee_rate);
    assert((rout1 + y - s2) * ((rin1 - back) as nat) >= rout1 * rin1) by (nonlinear_arith)
        requires
            back < rin1,
            s2 <= y,
            (rout1 + y - s2) * (rin1 - back) >= k_val(rout1, rin1),
            k_val(rout1, rin1) == rout1 * rin1,
    ;
    assert((rout1 + y - s2) * ((rin1 - back) as nat) >= k_val(reserve_in, reserve_out))
        by (nonlinear_arith)
        requires
            (rout1 + y - s2) * ((rin1 - back) as nat) >= rout1 * rin1,
            rin1 * rout1 >= k_val(reserve_in, reserve_out),
    ;

    // What the second swap returns never exceeds what the first one cost.
    let numerator = reserve_in * y * m;
    let denominator = rout1 * e;
    assert(denominator > 0) by (nonlinear_arith)
        requires
            rout1 > 0,
            e > 0,
            denominator == rout1 * e,
    ;
    lemma_div_bounds(numerator, denominator);
    assert(z * denominator > numerator) by (nonlinear_arith)
        requires
            denominator > 0,
            z == numerator / denominator + 1,
            numerator < denominator * (numerator / denominator) + denominator,
    ;
    let numerator2 = (y * e) * rin1;
    let denominator2 = rout1 * m + y * e;
    assert(denominator2 > 0) by (nonlinear_arith)
        requires
            rout1 > 0,
            m > 0,
            denominator2 == rout1 * m + y * e,
            y * e >= 0,
    ;
    lemma_div_bounds(numerator2, denominator2);
    assert(back == numerator2 / denominator2);
    assert(back <= z) by (nonlinear_arith)
        requires
            rout1 > 0,
            m > 0,
            0 < e <= m,
            y > 0,
            s >= 0,
            s <= z,
            z * (rout1 * e) > reserve_in * y * m,
            rin1 == reserve_in + z - s,
            numerator2 == (y * e) * rin1,
            denominator2 == rout1 * m + y * e,
            back >= 0,
            denominator2 * back <= numerator2,
    ;
}

/// The input quoted for the output of a fixed-input swap of `x` never
/// exceeds `x + 1`: a round trip through the two quoting formulas costs
/// the trader at most one smallest input unit beyond the floor rounding.
pub proof fn lemma_amount_in_of_amount_out_bound(
    reserve_in: nat,
    reserve_out: nat,
    amount_in: nat,
    total_fee_rate: nat,
)
    requires
        reserve_in > 0,
        reserve_out > 0,
        amount_in > 0,
        total_fee_rate < MAX_RATE,
    ensures
        ({
            let y = amount_out_val(amount_in, reserve_in, reserve_out, total_fee_rate);
            amount_in_val(y, reserve_in, reserve_out, total_fee_rate) <= amount_in + 1
        }),
{
    let m = MAX_RATE as nat;
    let e = (m - total_fee_rate) as nat;
    let numerator = (amount_in * e) * reserve_out;
    let denominator = reserve_in * m + amount_in * e;
    assert(denominator > 0) by (nonlinear_arith)
        requires
            reserve_in > 0,
            m > 0,
            denominator == reserve_in * m + amount_in * e,
            amount_in * e >= 0,
    ;
    let y = amount_out_val(amount_in, reserve_in, reserve_out, total_fee_rate);
    lemma_div_bounds(numerator, denominator);
    assert(y < reserve_out && y * (reserve_in * m) <= (amount_in * e) * ((reserve_out - y) as nat))
        by (nonlinear_arith)
        requires
            reserve_in > 0,
            reserve_out > 0,
            m > 0,
            0 < e <= m,
            amount_in > 0,
            numerator == (amount_in * e) * reserve_out,
            denominator == reserve_in * m + amount_in * e,
            y >= 0,
            denominator * y <= numerator,
    ;
    let numerator2 = reserve_in * y * m;
    let denominator2 = ((reserve_out - y) as nat) * e;
    assert(denominator2 > 0) by (nonlinear_arith)
        requires
            reserve_out - y > 0,
            e > 0,
            denominator2 == ((reserve_out - y) as nat) * e,
    ;
    lemma_div_bounds(numerator2, denominator2);
    assert(numerator2 / denominator2 <= amount_in) by (nonlinear_arith)
        requires
            denominator2 > 0,
            numerator2 == reserve_in * y * m,
            denominator2 == ((reserve_out - y) as nat) * e,
            y * (reserve_in * m) <= (amount_in * e) * ((reserve_out - y) as nat),
            denominator2 * (numerator2 / denominator2) <= numerator2,
            numerator2 < denominator2 * (numerator2 / denominator2) + denominator2,
            amount_in >= 0,
    ;
}

} // verus!

