use num_bigint::BigUint;

use amm_pair::amm::{
    calculate_k_constant, get_amount_in, get_amount_out, get_amount_out_no_fee,
    get_special_fee_from_input, quote,
};
use amm_pair::errors::Error;

fn big(x: u64) -> BigUint {
    BigUint::from(x)
}

#[test]
fn k_constant_is_the_product() {
    assert_eq!(calculate_k_constant(&big(1000), &big(1000)), big(1_000_000));
    assert_eq!(calculate_k_constant(&big(0), &big(7)), big(0));
}

#[test]
fn quote_rejects_zero_amount() {
    assert_eq!(quote(&big(0), &big(1000), &big(1000)), Err(Error::ZeroAmount));
}

#[test]
fn quote_returns_zero_on_empty_reserve() {
    assert_eq!(quote(&big(5), &big(0), &big(1000)), Ok(big(0)));
    assert_eq!(quote(&big(5), &big(1000), &big(0)), Ok(big(0)));
}

#[test]
fn quote_is_the_floored_spot_conversion() {
    assert_eq!(quote(&big(30_000), &big(1_000_000), &big(2_000_000)), Ok(big(60_000)));
    assert_eq!(quote(&big(100), &big(300), &big(100)), Ok(big(33)));
}

#[test]
fn amount_out_without_fee_matches_the_plain_formula() {
    // 100 * 1000 / (1000 + 100) = 90, floored.
    assert_eq!(get_amount_out(&big(100), &big(1000), &big(1000), 0), big(90));
    assert_eq!(get_amount_out_no_fee(&big(100), &big(1000), &big(1000)), big(90));
}

#[test]
fn amount_out_takes_the_total_fee_off_the_input() {
    // effective input 100 * 95_000; output 9_500_000 * 1000 / 109_500_000 = 86.
    assert_eq!(get_amount_out(&big(100), &big(1000), &big(1000), 5_000), big(86));
}

#[test]
fn amount_in_is_the_ceiling_style_inverse() {
    // 1000 * 90 * 100_000 / (910 * 100_000) + 1 = 98 + 1.
    assert_eq!(get_amount_in(&big(90), &big(1000), &big(1000), 0), Ok(big(99)));
    // with a 1% fee: 9_000_000_000 / (910 * 99_000) + 1 = 99 + 1.
    assert_eq!(get_amount_in(&big(90), &big(1000), &big(1000), 1_000), Ok(big(100)));
}

#[test]
fn amount_in_refuses_an_uncoverable_output() {
    assert_eq!(
        get_amount_in(&big(1000), &big(1000), &big(1000), 0),
        Err(Error::InsufficientReserve)
    );
    assert_eq!(
        get_amount_in(&big(1001), &big(1000), &big(1000), 0),
        Err(Error::InsufficientReserve)
    );
}

#[test]
fn paying_the_quoted_input_recovers_the_output() {
    // The quoted input for a fixed output buys at least that output back.
    let quoted_in = match get_amount_in(&big(90), &big(1000), &big(1000), 1_000) {
        Ok(v) => v,
        Err(_) => panic!("quote failed"),
    };
    let bought = get_amount_out(&quoted_in, &big(1000), &big(1000), 1_000);
    assert!(bought >= big(90));
}

#[test]
fn special_fee_is_the_floored_protocol_slice() {
    // 1000 * 500 / 100_000 = 5.
    assert_eq!(get_special_fee_from_input(&big(1000), 500), big(5));
    // 999 * 100 / 100_000 = 0: small inputs yield no protocol fee.
    assert_eq!(get_special_fee_from_input(&big(999), 100), big(0));
}
