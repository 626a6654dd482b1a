//! Per-participant stake, unstake and reward records.
use vstd::prelude::*;

use crate::AccountId;
use crate::Balance;
use crate::BlockHeight;
use crate::EpochHeight;
use crate::Timestamp;

verus! {

/// Number of epochs between requesting an unstake and the locked balance
/// becoming withdrawable.
pub const UNBONDING_PERIOD: u64 = 1;

/// One participant's ledger record.
///
/// Created with all balances zero on registration and never deleted:
/// a zero-balance account simply stops contributing to the totals.
#[derive(Clone, Copy, Debug, PartialEq, Eq, Structural)]
pub struct Account {
    /// Active stake, counted toward reward accrual and the pool total.
    pub stake_balance: Balance,
    /// Reward settled to this account but not yet paid out.
    pub pre_reward: Balance,
    /// Block at which this account's balances were last settled; anchors
    /// the account's next accrual calculation.
    pub last_block_balance_change: BlockHeight,
    /// Stake removed from earning but locked pending unbonding.
    pub unstake_balance: Balance,
    /// When the current unbonding period began.
    pub unstake_start_timestamp: Timestamp,
    /// Epoch at or after which `unstake_balance` becomes withdrawable.
    pub unstake_available_epoch: EpochHeight,
}

impl Account {
    /// A fresh record with all balances zero, anchored at `current_block`.
    pub fn new(current_block: BlockHeight) -> (a: Account)
        ensures
            a == Account::new_spec(current_block),
    {
        Account {
            stake_balance: 0,
            pre_reward: 0,
            last_block_balance_change: current_block,
            unstake_balance: 0,
            unstake_start_timestamp: 0,
            unstake_available_epoch: 0,
        }
    }

    /// What a fresh record holds.
    pub open spec fn new_spec(current_block: BlockHeight) -> Account {
        Account {
            stake_balance: 0,
            pre_reward: 0,
            last_block_balance_change: current_block,
            unstake_balance: 0,
            unstake_start_timestamp: 0,
            unstake_available_epoch: 0,
        }
    }
}

/// A registered identity together with its record; the ledger holds one
/// entry per identity.
#[derive(Debug)]
pub struct AccountEntry {
    pub account_id: AccountId,
    pub account: Account,
}

/// The read-only projection of one account, with the live (not yet
/// settled) reward folded in.
#[derive(Debug)]
pub struct AccountJson {
    pub account_id: AccountId,
    pub stake_balance: Balance,
    pub unstake_balance: Balance,
    /// Settled reward plus reward accrued since the last settlement.
    pub reward: Balance,
    /// Whether the locked balance is withdrawable at `current_epoch`.
    pub can_withdraw: bool,
    pub unstake_start_timestamp: Timestamp,
    pub unstake_available_epoch: EpochHeight,
    pub current_epoch: EpochHeight,
}

} // verus!
