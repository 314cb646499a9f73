use stylus_deploy::amount::Amount;
use stylus_deploy::error::DeployError;
use stylus_deploy::fees::{gwei_to_wei, required_funds, total_cost};

fn amount(v: u128) -> Amount {
    Amount::from_u128(v)
}

#[test]
fn gwei_to_wei_of_one() {
    assert_eq!(gwei_to_wei(1), Ok(1_000_000_000));
}

#[test]
fn gwei_to_wei_of_zero_and_largest_fitting() {
    assert_eq!(gwei_to_wei(0), Ok(0));
    let largest = u128::MAX / 1_000_000_000;
    assert_eq!(gwei_to_wei(largest), Ok(largest * 1_000_000_000));
}

#[test]
fn gwei_to_wei_overflow_fails() {
    assert_eq!(gwei_to_wei(u128::MAX / 1_000_000_000 + 1), Err(DeployError::FeeOverflow));
    assert_eq!(gwei_to_wei(u128::MAX), Err(DeployError::FeeOverflow));
}

#[test]
fn from_u128_limbs() {
    assert_eq!(amount(0).limbs, [0, 0, 0, 0]);
    assert_eq!(amount(u128::MAX).limbs, [u64::MAX, u64::MAX, 0, 0]);
    assert_eq!(amount((7u128 << 64) + 9).limbs, [9, 7, 0, 0]);
}

#[test]
fn total_cost_exact() {
    assert_eq!(total_cost(amount(21_000), amount(1_500_000_000)), amount(31_500_000_000_000));
    assert_eq!(total_cost(amount(0), amount(5)), amount(0));
}

#[test]
fn total_cost_saturates() {
    let big = Amount { limbs: [0, 0, 0, 1] };
    let max = Amount { limbs: [u64::MAX; 4] };
    assert_eq!(total_cost(big, big), max);
    assert_eq!(total_cost(max, amount(2)), max);
    assert_eq!(total_cost(max, amount(1)), max);
}

#[test]
fn required_funds_sum_and_overflow() {
    assert_eq!(required_funds(amount(10), amount(5)), Ok(amount(15)));
    let max = Amount { limbs: [u64::MAX; 4] };
    assert_eq!(required_funds(max, amount(0)), Ok(max));
    assert_eq!(required_funds(max, amount(1)), Err(DeployError::AmountOverflow));
}

#[test]
fn required_funds_carries_across_limbs() {
    let r = required_funds(amount(u64::MAX as u128), amount(1)).unwrap();
    assert_eq!(r.limbs, [0, 1, 0, 0]);
}
