use num_bigint::BigUint;

use amm_pair::errors::Error;
use amm_pair::pair::Pair;
use amm_pair::state::Payment;

const FIRST: u64 = 1;
const SECOND: u64 = 2;
const LP: u64 = 3;
const ROUTER: u64 = 10;
const ROUTER_OWNER: u64 = 11;
const USER: u64 = 42;

fn big(x: u64) -> BigUint {
    BigUint::from(x)
}

fn pay(token_id: u64, amount: u64) -> Payment {
    Payment { token_id, amount: big(amount) }
}

/// A pool with its LP token registered, not yet seeded.
fn fresh_pool(total_fee_rate: u64, special_fee_rate: u64) -> Pair {
    let mut pair = match Pair::init(
        FIRST,
        SECOND,
        ROUTER,
        ROUTER_OWNER,
        total_fee_rate,
        special_fee_rate,
        None,
    ) {
        Ok(p) => p,
        Err(_) => panic!("init failed"),
    };
    assert_eq!(pair.set_lp_token_identifier(ROUTER, LP), Ok(()));
    pair
}

/// A pool seeded with the given reserves and moved to `Active`.
fn active_pool(total_fee_rate: u64, special_fee_rate: u64, first: u64, second: u64) -> Pair {
    let mut pair = fresh_pool(total_fee_rate, special_fee_rate);
    let seeded = pair
        .add_initial_liquidity(USER, pay(FIRST, first), pay(SECOND, second), 1)
        .expect("seeding failed");
    assert_eq!(seeded.lp_payment.token_id, LP);
    pair.resume();
    pair
}

#[test]
fn init_rejects_a_degenerate_pair() {
    assert!(matches!(
        Pair::init(FIRST, FIRST, ROUTER, ROUTER_OWNER, 300, 50, None),
        Err(Error::InvalidToken)
    ));
    assert!(matches!(
        Pair::init(0, SECOND, ROUTER, ROUTER_OWNER, 300, 50, None),
        Err(Error::InvalidToken)
    ));
}

#[test]
fn lp_token_is_registered_once_by_the_router() {
    let mut pair = Pair::init(FIRST, SECOND, ROUTER, ROUTER_OWNER, 300, 50, None).unwrap();
    assert_eq!(pair.set_lp_token_identifier(USER, LP), Err(Error::PermissionDenied));
    assert_eq!(pair.set_lp_token_identifier(ROUTER, FIRST), Err(Error::InvalidToken));
    assert_eq!(pair.set_lp_token_identifier(ROUTER, LP), Ok(()));
    assert_eq!(pair.set_lp_token_identifier(ROUTER, 4), Err(Error::InvalidToken));
}

#[test]
fn seeding_sets_reserves_and_mints_the_smaller_amount() {
    let mut pair = fresh_pool(300, 50);
    let out = pair
        .add_initial_liquidity(USER, pay(FIRST, 5_000), pay(SECOND, 8_000), 1)
        .expect("seeding failed");
    assert_eq!(out.lp_payment.amount, big(5_000));
    assert_eq!(out.first_refund.amount, big(0));
    assert_eq!(out.second_refund.amount, big(0));
    let (r1, r2, lp) = pair.get_reserves_and_total_supply();
    assert_eq!(r1, big(5_000));
    assert_eq!(r2, big(8_000));
    assert_eq!(lp, big(5_000));
}

#[test]
fn seeding_twice_is_refused() {
    let mut pair = fresh_pool(300, 50);
    pair.add_initial_liquidity(USER, pay(FIRST, 5_000), pay(SECOND, 8_000), 1)
        .expect("seeding failed");
    assert!(matches!(
        pair.add_initial_liquidity(USER, pay(FIRST, 5_000), pay(SECOND, 8_000), 2),
        Err(Error::AlreadySeeded)
    ));
}

#[test]
fn seeding_below_the_minimum_liquidity_is_refused() {
    let mut pair = fresh_pool(300, 50);
    assert!(matches!(
        pair.add_initial_liquidity(USER, pay(FIRST, 999), pay(SECOND, 8_000), 1),
        Err(Error::ZeroAmount)
    ));
}

#[test]
fn seeding_is_reserved_for_the_configured_adder() {
    let mut pair = Pair::init(FIRST, SECOND, ROUTER, ROUTER_OWNER, 300, 50, Some(7)).unwrap();
    pair.set_lp_token_identifier(ROUTER, LP).unwrap();
    assert!(matches!(
        pair.add_initial_liquidity(USER, pay(FIRST, 5_000), pay(SECOND, 8_000), 1),
        Err(Error::PermissionDenied)
    ));
    assert!(pair
        .add_initial_liquidity(7, pay(FIRST, 5_000), pay(SECOND, 8_000), 1)
        .is_ok());
}

#[test]
fn add_liquidity_needs_a_seeded_pool() {
    let mut pair = fresh_pool(300, 50);
    pair.resume();
    assert!(matches!(
        pair.add_liquidity(pay(FIRST, 100), pay(SECOND, 100), big(1), big(1), 2),
        Err(Error::NotSeeded)
    ));
}

#[test]
fn add_liquidity_matches_the_reserve_ratio_and_refunds_the_surplus() {
    let mut pair = active_pool(300, 50, 1_000_000, 2_000_000);
    let out = pair
        .add_liquidity(pay(FIRST, 30_000), pay(SECOND, 70_000), big(1), big(1), 2)
        .expect("add failed");
    // The first side is scarcer: it is taken in full, the second side
    // pro rata (60_000), and 10_000 of the second payment comes back.
    assert_eq!(out.lp_payment.amount, big(30_000));
    assert_eq!(out.first_refund.amount, big(0));
    assert_eq!(out.second_refund.amount, big(10_000));
    let (r1, r2, lp) = pair.get_reserves_and_total_supply();
    assert_eq!(r1, big(1_030_000));
    assert_eq!(r2, big(2_060_000));
    assert_eq!(lp, big(1_030_000));
}

#[test]
fn add_liquidity_enforces_the_derived_side_minimum() {
    let mut pair = active_pool(300, 50, 1_000_000, 2_000_000);
    assert!(matches!(
        pair.add_liquidity(pay(FIRST, 30_000), pay(SECOND, 70_000), big(1), big(60_001), 2),
        Err(Error::SlippageExceeded)
    ));
}

#[test]
fn second_depositor_mints_shares_in_exact_proportion() {
    let mut pair = fresh_pool(300, 50);
    let seeded = pair
        .add_initial_liquidity(USER, pay(FIRST, 100_000_000), pay(SECOND, 100_000_000), 1)
        .expect("seeding failed");
    let first_shares = seeded.lp_payment.amount.clone();
    pair.resume();
    let out = pair
        .add_liquidity(
            pay(FIRST, 50_000_000),
            pay(SECOND, 50_000_000),
            big(1),
            big(1),
            2,
        )
        .expect("add failed");
    // Half the matching side deposits exactly half the seeder's shares.
    assert_eq!(out.lp_payment.amount, big(50_000_000));
    assert_eq!(out.lp_payment.amount * big(100_000_000), first_shares * big(50_000_000));
}

#[test]
fn deposit_then_withdraw_never_profits() {
    let mut pair = active_pool(300, 50, 1_000_000, 2_000_000);
    let minted = pair
        .add_liquidity(pay(FIRST, 30_000), pay(SECOND, 60_000), big(1), big(1), 2)
        .expect("add failed")
        .lp_payment;
    assert_eq!(minted.amount, big(30_000));
    let out = pair
        .remove_liquidity(minted, big(1), big(1), 3)
        .expect("remove failed");
    assert!(out.first_payment_out.amount <= big(30_000));
    assert!(out.second_payment_out.amount <= big(60_000));
    assert_eq!(out.first_payment_out.amount, big(30_000));
    assert_eq!(out.second_payment_out.amount, big(60_000));
}

#[test]
fn remove_liquidity_pays_the_proportional_slice() {
    let mut pair = active_pool(300, 50, 1_000_000, 2_000_000);
    let out = pair
        .remove_liquidity(pay(LP, 100_000), big(1), big(1), 2)
        .expect("remove failed");
    assert_eq!(out.first_payment_out.token_id, FIRST);
    assert_eq!(out.first_payment_out.amount, big(100_000));
    assert_eq!(out.second_payment_out.amount, big(200_000));
    let (r1, r2, lp) = pair.get_reserves_and_total_supply();
    assert_eq!(r1, big(900_000));
    assert_eq!(r2, big(1_800_000));
    assert_eq!(lp, big(900_000));
}

#[test]
fn remove_liquidity_keeps_the_minimum_supply() {
    let mut pair = active_pool(300, 50, 1_000_000, 2_000_000);
    // Burning everything would leave less than the locked minimum.
    assert!(matches!(
        pair.remove_liquidity(pay(LP, 1_000_000), big(1), big(1), 2),
        Err(Error::InsufficientReserve)
    ));
    assert!(pair.remove_liquidity(pay(LP, 999_000), big(1), big(1), 2).is_ok());
}

#[test]
fn remove_liquidity_enforces_both_minimums() {
    let mut pair = active_pool(300, 50, 1_000_000, 2_000_000);
    assert!(matches!(
        pair.remove_liquidity(pay(LP, 100_000), big(1), big(200_001), 2),
        Err(Error::SlippageExceeded)
    ));
}

#[test]
fn remove_liquidity_wants_the_lp_token() {
    let mut pair = active_pool(300, 50, 1_000_000, 2_000_000);
    assert!(matches!(
        pair.remove_liquidity(pay(FIRST, 100_000), big(1), big(1), 2),
        Err(Error::InvalidToken)
    ));
}

#[test]
fn privileged_removal_burns_for_the_whitelisted_caller() {
    let mut pair = active_pool(300, 50, 1_000_000, 2_000_000);
    assert!(matches!(
        pair.remove_liquidity_and_burn_token(USER, pay(LP, 100_000), 2),
        Err(Error::PermissionDenied)
    ));
    pair.add_whitelist(ROUTER, USER).unwrap();
    let out = pair
        .remove_liquidity_and_burn_token(USER, pay(LP, 100_000), 2)
        .expect("removal failed");
    assert_eq!(out.first_payment_out.amount, big(100_000));
    assert_eq!(out.second_payment_out.amount, big(200_000));
    let (_, _, lp) = pair.get_reserves_and_total_supply();
    assert_eq!(lp, big(900_000));
}

#[test]
fn swap_scenario_thousand_by_thousand() {
    // Reserves (1000, 1000), no fee: 100 in buys 90 out.
    let mut pair = active_pool(0, 0, 1_000, 1_000);
    let out = pair
        .swap_tokens_fixed_input(FIRST, big(100), SECOND, big(1), 2)
        .expect("swap failed");
    assert_eq!(out.token_id, SECOND);
    assert_eq!(out.amount, big(90));
    let (r1, r2, _) = pair.get_reserves_and_total_supply();
    assert_eq!(r1, big(1_100));
    assert_eq!(r2, big(910));
}

#[test]
fn swap_needs_the_active_state() {
    let mut pair = fresh_pool(300, 50);
    pair.add_initial_liquidity(USER, pay(FIRST, 5_000), pay(SECOND, 8_000), 1)
        .expect("seeding failed");
    // Still PartialActive: swaps are not enabled yet.
    assert!(matches!(
        pair.swap_tokens_fixed_input(FIRST, big(100), SECOND, big(1), 2),
        Err(Error::SwapNotEnabled)
    ));
}

#[test]
fn swap_rejects_a_foreign_token() {
    let mut pair = active_pool(300, 50, 1_000, 1_000);
    assert!(matches!(
        pair.swap_tokens_fixed_input(LP, big(100), SECOND, big(1), 2),
        Err(Error::InvalidToken)
    ));
    assert!(matches!(
        pair.swap_tokens_fixed_input(FIRST, big(100), FIRST, big(1), 2),
        Err(Error::InvalidToken)
    ));
}

#[test]
fn swap_rejects_a_zero_input() {
    let mut pair = active_pool(300, 50, 1_000, 1_000);
    assert!(matches!(
        pair.swap_tokens_fixed_input(FIRST, big(0), SECOND, big(1), 2),
        Err(Error::ZeroAmount)
    ));
}

#[test]
fn swap_enforces_the_output_minimum() {
    let mut pair = active_pool(0, 0, 1_000, 1_000);
    assert!(matches!(
        pair.swap_tokens_fixed_input(FIRST, big(100), SECOND, big(91), 2),
        Err(Error::SlippageExceeded)
    ));
}

#[test]
fn swap_fee_grows_the_constant_product() {
    // 1% total fee, half of it the protocol slice.
    let mut pair = active_pool(1_000, 500, 1_000_000, 1_000_000);
    pair.set_fee_on(ROUTER, true).unwrap();
    let k_before = big(1_000_000) * big(1_000_000);
    pair.swap_tokens_fixed_input(FIRST, big(10_000), SECOND, big(1), 2)
        .expect("swap failed");
    let (r1, r2, _) = pair.get_reserves_and_total_supply();
    assert!(r1.clone() * r2.clone() >= k_before);
    // The protocol slice never reaches the reserve: 10_000 * 500 / 100_000 = 50.
    assert_eq!(r1, big(1_009_950));
}

#[test]
fn fixed_output_swap_charges_the_quoted_input_and_refunds_the_rest() {
    let mut pair = active_pool(1_000, 0, 1_000, 1_000);
    let out = pair
        .swap_tokens_fixed_output(FIRST, big(150), SECOND, big(90), 2)
        .expect("swap failed");
    assert_eq!(out.output_payment.token_id, SECOND);
    assert_eq!(out.output_payment.amount, big(90));
    // quoted input: 1000*90*100_000 / (910*99_000) + 1 = 100.
    assert_eq!(out.input_refund.token_id, FIRST);
    assert_eq!(out.input_refund.amount, big(50));
}

#[test]
fn fixed_output_swap_enforces_the_input_maximum() {
    let mut pair = active_pool(1_000, 0, 1_000, 1_000);
    assert!(matches!(
        pair.swap_tokens_fixed_output(FIRST, big(99), SECOND, big(90), 2),
        Err(Error::SlippageExceeded)
    ));
}

#[test]
fn fixed_output_swap_cannot_drain_the_reserve() {
    let mut pair = active_pool(1_000, 0, 1_000, 1_000);
    assert!(matches!(
        pair.swap_tokens_fixed_output(FIRST, big(1_000_000), SECOND, big(1_000), 2),
        Err(Error::InsufficientReserve)
    ));
}

#[test]
fn round_trip_through_both_swap_kinds_never_profits() {
    // Buy 90 of the second token for a quoted 100, then sell the 90
    // back at once: only 98 comes back, and K never fell.
    let mut pair = active_pool(1_000, 0, 1_000, 1_000);
    let k_start = big(1_000) * big(1_000);
    let bought = pair
        .swap_tokens_fixed_output(FIRST, big(1_000), SECOND, big(90), 2)
        .expect("swap failed");
    let paid = big(1_000) - bought.input_refund.amount;
    assert_eq!(paid, big(100));
    let back = pair
        .swap_tokens_fixed_input(SECOND, big(90), FIRST, big(1), 2)
        .expect("swap failed");
    assert_eq!(back.amount, big(98));
    assert!(back.amount < paid);
    let (r1, r2, _) = pair.get_reserves_and_total_supply();
    assert!(r1 * r2 >= k_start);
}

#[test]
fn no_fee_swap_is_reserved_for_the_whitelist() {
    let mut pair = active_pool(1_000, 500, 1_000, 1_000);
    assert!(matches!(
        pair.swap_no_fee(USER, FIRST, big(100), SECOND, 2),
        Err(Error::PermissionDenied)
    ));
    pair.add_whitelist(ROUTER, USER).unwrap();
    let out = pair.swap_no_fee(USER, FIRST, big(100), SECOND, 2).expect("swap failed");
    // The fee rate is ignored on this path: plain 100*1000/1100 = 90.
    assert_eq!(out.amount, big(90));
    let (r1, r2, _) = pair.get_reserves_and_total_supply();
    assert_eq!(r1, big(1_100));
    assert_eq!(r2, big(910));
}

#[test]
fn whitelisting_is_a_router_privilege() {
    let mut pair = active_pool(1_000, 500, 1_000, 1_000);
    assert_eq!(pair.add_whitelist(USER, USER), Err(Error::PermissionDenied));
}

#[test]
fn pausing_halts_and_resuming_reopens() {
    let mut pair = active_pool(0, 0, 1_000, 1_000);
    pair.pause();
    assert!(matches!(
        pair.add_liquidity(pay(FIRST, 100), pay(SECOND, 100), big(1), big(1), 2),
        Err(Error::InactiveState)
    ));
    assert!(matches!(
        pair.remove_liquidity(pay(LP, 100), big(1), big(1), 2),
        Err(Error::InactiveState)
    ));
    pair.resume();
    assert!(pair.swap_tokens_fixed_input(FIRST, big(100), SECOND, big(1), 2).is_ok());
}

#[test]
fn failed_operations_leave_no_trace() {
    let mut pair = active_pool(1_000, 500, 1_000_000, 2_000_000);
    let before = pair.get_reserves_and_total_supply();
    let _ = pair.swap_tokens_fixed_input(FIRST, big(1_000), SECOND, big(1_000_000), 2);
    let _ = pair.remove_liquidity(pay(LP, 5_000_000), big(1), big(1), 2);
    let _ = pair.add_liquidity(pay(FIRST, 10), pay(SECOND, 10), big(0), big(1), 2);
    let after = pair.get_reserves_and_total_supply();
    assert_eq!(before, after);
}

#[test]
fn reserves_beyond_machine_integers_stay_sound() {
    // Reserves of about 10^40: far past any fixed-width integer.
    let huge = big(1_000_000_000_000_000_000)
        * big(1_000_000_000_000_000_000)
        * big(10_000);
    let trade = huge.clone() / big(1_000);
    let mut pair = fresh_pool(1_000, 500);
    pair.add_initial_liquidity(
        USER,
        Payment { token_id: FIRST, amount: huge.clone() },
        Payment { token_id: SECOND, amount: huge.clone() },
        1,
    )
    .expect("seeding failed");
    pair.resume();
    pair.set_fee_on(ROUTER, true).unwrap();
    let k_before = huge.clone() * huge.clone();
    let quoted = pair.get_amount_out_view(FIRST, &trade).expect("quote failed");
    let swapped = pair
        .swap_tokens_fixed_input(FIRST, trade.clone(), SECOND, big(1), 2)
        .expect("swap failed");
    // The read-only quote and the executed swap agree exactly.
    assert_eq!(quoted, swapped.amount);
    assert!(swapped.amount < huge);
    assert!(swapped.amount > big(0));
    let (r1, r2, _) = pair.get_reserves_and_total_supply();
    assert!(r1.clone() * r2.clone() >= k_before);
}

#[test]
fn quotes_match_the_swap_formulas() {
    let pair = active_pool(1_000, 0, 1_000, 1_000);
    assert_eq!(pair.get_amount_out_view(FIRST, &big(100)), Ok(big(90)));
    assert_eq!(pair.get_amount_in_view(SECOND, &big(90)), Ok(big(100)));
    assert_eq!(pair.get_equivalent(FIRST, &big(100)), Ok(big(100)));
    assert_eq!(pair.get_amount_out_view(LP, &big(100)), Err(Error::InvalidToken));
    assert_eq!(pair.get_amount_out_view(FIRST, &big(0)), Err(Error::ZeroAmount));
    assert_eq!(
        pair.get_amount_in_view(SECOND, &big(1_000)),
        Err(Error::InsufficientReserve)
    );
}

#[test]
fn position_value_tracks_the_reserves() {
    let pair = active_pool(300, 50, 1_000_000, 2_000_000);
    let (first_out, second_out) = pair
        .get_tokens_for_given_position(&big(250_000))
        .expect("query failed");
    assert_eq!(first_out.amount, big(250_000));
    assert_eq!(second_out.amount, big(500_000));
    let unseeded = fresh_pool(300, 50);
    assert!(matches!(
        unseeded.get_tokens_for_given_position(&big(1)),
        Err(Error::NotSeeded)
    ));
}
