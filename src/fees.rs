//! Fee arithmetic.
use crate::amount::{amount_max, checked_sum, saturating_product, Amount};
use crate::error::DeployError;
use vstd::prelude::*;

verus! {

/// Wei in one gwei.
pub const WEI_PER_GWEI: u128 = 1_000_000_000;

/// Converts a fee in gwei to wei; fails rather than wraps when the result
/// does not fit in 128 bits.
pub fn gwei_to_wei(gwei: u128) -> (r: Result<u128, DeployError>)
    ensures
        r.is_ok() <==> gwei * WEI_PER_GWEI <= u128::MAX,
        r matches Ok(wei) ==> wei == gwei * WEI_PER_GWEI,
        r matches Err(e) ==> e == DeployError::FeeOverflow,
{
    match gwei.checked_mul(WEI_PER_GWEI) {
        Some(wei) => Ok(wei),
        None => Err(DeployError::FeeOverflow),
    }
}

/// The cost of `gas` units at `gas_price` each, saturating at the largest
/// amount.
pub fn total_cost(gas: Amount, gas_price: Amount) -> (r: Amount)
    ensures
        r.value() == if gas.value() * gas_price.value() <= amount_max() {
            gas.value() * gas_price.value()
        } else {
            amount_max()
        },
{
    saturating_product(gas, gas_price)
}

/// The funds that the sender needs before anything is spent: the data fee
/// and the value handed to the constructor.
pub fn required_funds(data_fee: Amount, constructor_value: Amount) -> (r: Result<
    Amount,
    DeployError,
>)
    ensures
        r.is_ok() <==> data_fee.value() + constructor_value.value() <= amount_max(),
        r matches Ok(a) ==> a.value() == data_fee.value() + constructor_value.value(),
        r matches Err(e) ==> e == DeployError::AmountOverflow,
{
    match checked_sum(data_fee, constructor_value) {
        Some(a) => Ok(a),
        None => Err(DeployError::AmountOverflow),
    }
}

} // verus!
