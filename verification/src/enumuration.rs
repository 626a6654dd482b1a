//! Read-only projections over the ledger.
//!
//! Every query recomputes "reward so far" live from the current state and
//! mutates nothing, so two calls with no intervening mutating operation
//! return identical results.
use vstd::prelude::*;

use crate::account::AccountJson;
use crate::AccountId;
use crate::Balance;
use crate::BlockHeight;
use crate::EpochHeight;
use crate::StakingContract;

verus! {

/// The read-only projection of the pool's aggregate state, with the live
/// (not yet settled) global reward folded in.
#[derive(Clone, Copy, Debug, PartialEq, Eq, Structural)]
pub struct PoolJson {
    pub total_stake_balance: Balance,
    /// Settled pool reward plus reward accrued since the last settlement.
    pub total_reward: Balance,
    pub total_stakers: Balance,
    pub is_paused: bool,
}

impl StakingContract {
    /// One account's balances, its live reward, and whether its locked
    /// balance is withdrawable at `current_epoch`.
    pub fn get_account_info(
        &self,
        account_id: AccountId,
        current_block: BlockHeight,
        current_epoch: EpochHeight,
    ) -> (info: AccountJson)
        requires
            self.wf(),
            self.has_account(account_id@),
            self.spec_account_settle_ok(self.account_of(account_id@), current_block),
        ensures
            info.account_id@ == account_id@,
            info.stake_balance == self.account_of(account_id@).stake_balance,
            info.unstake_balance == self.account_of(account_id@).unstake_balance,
            info.reward == self.account_of(account_id@).pre_reward + self.spec_account_reward(
                self.account_of(account_id@),
                current_block,
            ),
            info.can_withdraw == (self.account_of(account_id@).unstake_available_epoch
                <= current_epoch),
            info.unstake_start_timestamp == self.account_of(account_id@).unstake_start_timestamp,
            info.unstake_available_epoch == self.account_of(account_id@).unstake_available_epoch,
            info.current_epoch == current_epoch,
    {
        match self.find_account_index(&account_id) {
            Some(i) => {
                let a = self.accounts[i].account;
                let accrued = self.calculate_account_reward(&a, current_block);
                AccountJson {
                    account_id,
                    stake_balance: a.stake_balance,
                    unstake_balance: a.unstake_balance,
                    reward: a.pre_reward + accrued,
                    can_withdraw: a.unstake_available_epoch <= current_epoch,
                    unstake_start_timestamp: a.unstake_start_timestamp,
                    unstake_available_epoch: a.unstake_available_epoch,
                    current_epoch,
                }
            },
            None => vstd::pervasive::unreached(),
        }
    }

    /// One account's total claimable reward: the settled claim plus the
    /// reward accrued since the account's last settlement.
    pub fn get_account_reward(&self, account_id: AccountId, current_block: BlockHeight) -> (r:
        Balance)
        requires
            self.wf(),
            self.has_account(account_id@),
            self.spec_account_settle_ok(self.account_of(account_id@), current_block),
        ensures
            r == self.account_of(account_id@).pre_reward + self.spec_account_reward(
                self.account_of(account_id@),
                current_block,
            ),
    {
        match self.find_account_index(&account_id) {
            Some(i) => {
                let a = self.accounts[i].account;
                let accrued = self.calculate_account_reward(&a, current_block);
                a.pre_reward + accrued
            },
            None => vstd::pervasive::unreached(),
        }
    }

    /// The pool's aggregate totals with the live global reward folded in.
    pub fn get_pool_info(&self, current_block: BlockHeight) -> (info: PoolJson)
        requires
            self.wf(),
            self.spec_global_settle_ok(current_block),
        ensures
            info.total_stake_balance == self.total_stake_balance,
            info.total_reward == self.pre_reward + self.spec_global_reward(current_block),
            info.total_stakers == self.total_stakers,
            info.is_paused == self.paused,
    {
        let accrued = self.calculate_global_reward(current_block);
        PoolJson {
            total_stake_balance: self.total_stake_balance,
            total_reward: self.pre_reward + accrued,
            total_stakers: self.total_stakers,
            is_paused: self.paused,
        }
    }
}

} // verus!
