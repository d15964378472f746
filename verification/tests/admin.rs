use num_bigint::BigUint;

use amm_pair::pair::Pair;
use amm_pair::pausing::{OperationCompletionStatus, PauseAll};
use amm_pair::rewards::{
    calculate_rewards_for_given_position, update_reward_per_share, FarmTokenAttributes,
};
use amm_pair::safe_price::PriceObservation;
use amm_pair::state::Payment;

fn big(x: u64) -> BigUint {
    BigUint::from(x)
}

#[test]
fn farm_with_no_boost_test() {
    let division_safety = big(1_000_000_000_000);
    let per_block_reward_amount: u64 = 1_000;
    let first_farm_token_amount: u64 = 100_000_000;
    let second_farm_token_amount: u64 = 50_000_000;
    let total_farm_tokens = first_farm_token_amount + second_farm_token_amount;

    // advance blocks - 10 blocks - 10 * 1_000 = 10_000 total rewards
    let blocks: u64 = 10;
    let total_rewards = big(blocks * per_block_reward_amount);
    let reward_per_share = update_reward_per_share(
        &big(0),
        &total_rewards,
        &big(total_farm_tokens),
        &division_safety,
    );

    let first_attributes = FarmTokenAttributes {
        reward_per_share: big(0),
        entering_epoch: 0,
        initial_farming_amount: big(first_farm_token_amount),
    };
    let first_rewards_amt = calculate_rewards_for_given_position(
        &big(first_farm_token_amount),
        &first_attributes,
        &reward_per_share,
        &division_safety,
    );
    let first_expected_rewards_amt = first_farm_token_amount * 10_000 / total_farm_tokens;
    assert_eq!(first_rewards_amt, big(first_expected_rewards_amt));

    let second_attributes = FarmTokenAttributes {
        reward_per_share: big(0),
        entering_epoch: 0,
        initial_farming_amount: big(second_farm_token_amount),
    };
    let second_rewards_amt = calculate_rewards_for_given_position(
        &big(second_farm_token_amount),
        &second_attributes,
        &reward_per_share,
        &division_safety,
    );
    let second_expected_rewards_amt = second_farm_token_amount * 10_000 / total_farm_tokens;
    assert_eq!(second_rewards_amt, big(second_expected_rewards_amt));
}

#[test]
fn rewards_accrue_nothing_for_a_stale_accumulator() {
    let attributes = FarmTokenAttributes {
        reward_per_share: big(500),
        entering_epoch: 3,
        initial_farming_amount: big(1_000),
    };
    let reward = calculate_rewards_for_given_position(
        &big(1_000),
        &attributes,
        &big(500),
        &big(1_000_000),
    );
    assert_eq!(reward, big(0));
}

#[test]
fn oracle_accumulates_once_per_block() {
    let scale = big(1_000_000_000_000_000_000);
    let mut pair = Pair::init(1, 2, 10, 11, 0, 0, None).unwrap();
    pair.set_lp_token_identifier(10, 3).unwrap();
    pair.add_initial_liquidity(
        42,
        Payment { token_id: 1, amount: big(1_000) },
        Payment { token_id: 2, amount: big(2_000) },
        1,
    )
    .expect("seeding failed");
    pair.resume();
    // Seeding found an empty pool: nothing accumulated yet.
    assert_eq!(pair.price_observation.cumulative_price_integral, big(0));
    assert_eq!(pair.price_observation.last_update_block, 0);

    // First touch at block 5: 5 elapsed blocks at price 2.
    pair.swap_tokens_fixed_input(1, big(100), 2, big(1), 5).expect("swap failed");
    let first_integral = big(5) * big(2) * scale.clone();
    assert_eq!(pair.price_observation.cumulative_price_integral, first_integral);
    assert_eq!(pair.price_observation.last_update_block, 5);
    assert_eq!(pair.price_observation.last_reserve_ratio, big(2) * scale.clone());

    // A second operation in the same block changes nothing.
    pair.swap_tokens_fixed_input(1, big(100), 2, big(1), 5).expect("swap failed");
    assert_eq!(pair.price_observation.cumulative_price_integral, first_integral);

    // The average price between the recorded checkpoints is exact.
    let average = PriceObservation::average_price(&big(0), 0, &first_integral, 5)
        .expect("query failed");
    assert_eq!(average, big(2) * scale);
}

#[test]
fn pause_registry_keeps_a_set_of_addresses() {
    let mut registry = PauseAll::init();
    registry.add_pausable_contracts(&vec![5, 6, 7, 6]);
    let selected = registry.pause_selected(&vec![6, 9]);
    assert_eq!(selected, vec![6]);
    registry.remove_pausable_contracts(&vec![6, 8]);
    let selected_after = registry.resume_selected(&vec![5, 6, 7]);
    assert!(selected_after.contains(&5));
    assert!(selected_after.contains(&7));
    assert!(!selected_after.contains(&6));
}

#[test]
fn pause_all_sweeps_in_bounded_batches() {
    let mut registry = PauseAll::init();
    registry.add_pausable_contracts(&vec![1, 2, 3, 4, 5]);
    let (first_batch, first_status) = registry.pause_all(2);
    assert_eq!(first_batch, vec![1, 2]);
    assert!(matches!(
        first_status,
        OperationCompletionStatus::InterruptedBeforeOutOfGas
    ));
    let (second_batch, second_status) = registry.pause_all(2);
    assert_eq!(second_batch, vec![3, 4]);
    assert!(matches!(
        second_status,
        OperationCompletionStatus::InterruptedBeforeOutOfGas
    ));
    let (last_batch, last_status) = registry.pause_all(2);
    assert_eq!(last_batch, vec![5]);
    assert!(matches!(last_status, OperationCompletionStatus::Completed));
    // The next sweep starts over.
    let (fresh_batch, _) = registry.resume_all(5);
    assert_eq!(fresh_batch, vec![1, 2, 3, 4, 5]);
}
