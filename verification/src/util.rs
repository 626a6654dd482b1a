//! Storage-billing arithmetic for account registration.
use vstd::prelude::*;

use crate::errors::StakingError;
use crate::Balance;

verus! {

/// The payment required to cover `storage_used` bytes at `storage_byte_cost`
/// per byte.
pub open spec fn spec_storage_cost(storage_used: u64, storage_byte_cost: Balance) -> int {
    storage_byte_cost * storage_used
}

/// The access guard on sensitive operations: they demand exactly one
/// attached payment unit, which proves the caller signed the transaction.
pub fn is_one_yocto(attached_deposit: Balance) -> (r: bool)
    ensures
        r == (attached_deposit == 1),
{
    attached_deposit == 1
}

/// How much of an attached payment to refund after charging for the bytes
/// a registration consumed: everything above the storage cost flows back,
/// and a payment below the cost is rejected outright.
pub fn compute_storage_refund(
    storage_used: u64,
    storage_byte_cost: Balance,
    attached_deposit: Balance,
) -> (r: Result<Balance, StakingError>)
    requires
        spec_storage_cost(storage_used, storage_byte_cost) <= u128::MAX,
    ensures
        attached_deposit >= spec_storage_cost(storage_used, storage_byte_cost) ==> r == Ok::<
            Balance,
            StakingError,
        >((attached_deposit - spec_storage_cost(storage_used, storage_byte_cost)) as u128),
        attached_deposit < spec_storage_cost(storage_used, storage_byte_cost) ==> r == Err::<
            Balance,
            StakingError,
        >(StakingError::InsufficientDeposit),
{
    let required_cost: u128 = storage_byte_cost * (storage_used as u128);
    if attached_deposit >= required_cost {
        Ok(attached_deposit - required_cost)
    } else {
        Err(StakingError::InsufficientDeposit)
    }
}

} // verus!
