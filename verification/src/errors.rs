//! The failure taxonomy of the ledger.
//!
//! Every error is terminal for the triggering operation: a mutating
//! operation that returns an error leaves the ledger unchanged.
use vstd::prelude::*;

verus! {

/// Why an operation was rejected.
#[derive(Clone, Copy, Debug, PartialEq, Eq, Structural)]
pub enum StakingError {
    /// The global circuit breaker is on.
    Paused,
    /// The referenced identity was never registered.
    AccountNotFound,
    /// The requested amount exceeds the available balance of the
    /// relevant bucket.
    InsufficientFunds,
    /// Withdraw attempted before the unbonding epoch was reached.
    StillLocked,
    /// The attached payment is too small to cover the storage cost.
    InsufficientDeposit,
    /// A duplicate registration attempt.
    AlreadyRegistered,
}

} // verus!
