use vstd::prelude::*;

use crate::error::{TransferError, ValidationError};
use crate::gas::total_cost_of;

verus! {

/// Whether a balance covers a transfer's value plus its maximum fee.
pub open spec fn covers(balance: u128, value: u128, gas_price: u128, gas_limit: u64) -> bool {
    balance >= total_cost_of(value, gas_price, gas_limit)
}

/// The sufficiency gate of the pipeline: succeeds with the total cost
/// exactly when the balance covers value plus fee, and otherwise reports
/// the shortfall the sender would have to make up. A failure here is
/// terminal; nothing has been signed or broadcast yet.
pub fn check_balance(balance: u128, value: u128, gas_price: u128, gas_limit: u64) -> (r: Result<
    u128,
    TransferError,
>)
    ensures
        (r matches Ok(t)) <==> total_cost_of(value, gas_price, gas_limit) <= u128::MAX
            && covers(balance, value, gas_price, gas_limit),
        r matches Ok(t) ==> t == total_cost_of(value, gas_price, gas_limit),
        total_cost_of(value, gas_price, gas_limit) <= u128::MAX && !covers(
            balance,
            value,
            gas_price,
            gas_limit,
        ) ==> r == Err::<u128, TransferError>(
            TransferError::InsufficientFunds {
                balance,
                total_cost: total_cost_of(value, gas_price, gas_limit) as u128,
                shortfall: (total_cost_of(value, gas_price, gas_limit) - balance) as u128,
            },
        ),
        total_cost_of(value, gas_price, gas_limit) > u128::MAX ==> r == Err::<u128, TransferError>(
            TransferError::Validation(ValidationError::Overflow),
        ),
{
    let fee = match gas_price.checked_mul(gas_limit as u128) {
        Some(f) => f,
        None => {
            return Err(TransferError::Validation(ValidationError::Overflow));
        },
    };
    let total = match value.checked_add(fee) {
        Some(t) => t,
        None => {
            return Err(TransferError::Validation(ValidationError::Overflow));
        },
    };
    if balance < total {
        Err(
            TransferError::InsufficientFunds {
                balance,
                total_cost: total,
                shortfall: total - balance,
            },
        )
    } else {
        Ok(total)
    }
}

} // verus!
