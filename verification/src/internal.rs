//! The accounting engine: the ledger's well-formedness invariant, account
//! lookup, and the mutating stake/unstake/withdraw/settlement operations.
use vstd::prelude::*;

use crate::account::Account;
use crate::account::AccountEntry;
use crate::account::UNBONDING_PERIOD;
use crate::errors::StakingError;
use crate::EpochHeight;
use crate::Timestamp;
use crate::reward::check_reward_fits;
use crate::reward::compute_reward;
use crate::reward::lemma_reward_zero_stake;
use crate::reward::reward_fits;
use crate::reward::spec_reward;
use crate::AccountId;
use crate::Balance;
use crate::BlockHeight;
use crate::StakingContract;

verus! {

/// The sum of the active stakes of a sequence of account entries.
pub open spec fn sum_stakes(entries: Seq<AccountEntry>) -> int
    decreases entries.len(),
{
    if entries.len() == 0 {
        0
    } else {
        sum_stakes(entries.drop_last()) + entries.last().account.stake_balance
    }
}

/// Appending an entry adds its stake to the sum.
pub proof fn lemma_sum_stakes_push(entries: Seq<AccountEntry>, e: AccountEntry)
    ensures
        sum_stakes(entries.push(e)) == sum_stakes(entries) + e.account.stake_balance,
{
    assert(entries.push(e).drop_last() =~= entries);
    assert(entries.push(e).last() == e);
}

/// Replacing one entry changes the sum by the difference of the stakes.
pub proof fn lemma_sum_stakes_update(entries: Seq<AccountEntry>, i: int, e: AccountEntry)
    requires
        0 <= i < entries.len(),
    ensures
        sum_stakes(entries.update(i, e)) == sum_stakes(entries)
            - entries[i].account.stake_balance + e.account.stake_balance,
    decreases entries.len(),
{
    let updated = entries.update(i, e);
    if i == entries.len() - 1 {
        assert(updated.drop_last() =~= entries.drop_last());
        assert(updated.last() == e);
    } else {
        assert(updated.drop_last() =~= entries.drop_last().update(i, e));
        assert(updated.last() == entries.last());
        lemma_sum_stakes_update(entries.drop_last(), i, e);
    }
}

/// Two ledgers whose entries carry the same stakes have the same sum.
pub proof fn lemma_sum_stakes_pointwise(s1: Seq<AccountEntry>, s2: Seq<AccountEntry>)
    requires
        s1.len() == s2.len(),
        forall|i: int|
            0 <= i < s1.len() ==> s1[i].account.stake_balance == s2[i].account.stake_balance,
    ensures
        sum_stakes(s1) == sum_stakes(s2),
    decreases s1.len(),
{
    if s1.len() > 0 {
        assert(forall|i: int|
            0 <= i < s1.drop_last().len() ==> s1.drop_last()[i].account.stake_balance
                == s2.drop_last()[i].account.stake_balance);
        lemma_sum_stakes_pointwise(s1.drop_last(), s2.drop_last());
        assert(s1.last().account.stake_balance == s2.last().account.stake_balance);
    }
}

/// Every stake is bounded by the sum of the stakes.
pub proof fn lemma_sum_stakes_bounds_elem(entries: Seq<AccountEntry>, i: int)
    requires
        0 <= i < entries.len(),
    ensures
        entries[i].account.stake_balance <= sum_stakes(entries),
    decreases entries.len(),
{
    if i == entries.len() - 1 {
        lemma_sum_stakes_nonneg(entries.drop_last());
    } else {
        lemma_sum_stakes_bounds_elem(entries.drop_last(), i);
        assert(entries.drop_last()[i] == entries[i]);
    }
}

/// The sum of stakes is never negative.
pub proof fn lemma_sum_stakes_nonneg(entries: Seq<AccountEntry>)
    ensures
        sum_stakes(entries) >= 0,
    decreases entries.len(),
{
    if entries.len() > 0 {
        lemma_sum_stakes_nonneg(entries.drop_last());
    }
}

impl StakingContract {
    /// The ledger's invariant: the rate is well formed, identities are
    /// unique, and the aggregate totals agree with the account records.
    ///
    /// Every mutating operation preserves this, which is the conservation
    /// law: `total_stake_balance` always equals the sum of the accounts'
    /// stakes, and `total_stakers` the number of registered accounts.
    pub open spec fn wf(&self) -> bool {
        &&& self.config.wf()
        &&& forall|i: int, j: int|
            0 <= i < j < self.accounts@.len() ==> self.accounts@[i].account_id@
                != self.accounts@[j].account_id@
        &&& self.total_stake_balance == sum_stakes(self.accounts@)
        &&& self.total_stakers == self.accounts@.len()
    }

    /// Whether an account with this identity is registered.
    pub open spec fn has_account(&self, id: Seq<char>) -> bool {
        exists|i: int|
            0 <= i < self.accounts@.len() && self.accounts@[i].account_id@ == id
    }

    /// The position of the account with this identity; meaningful only
    /// when `has_account` holds (unique by `wf`).
    pub open spec fn account_index(&self, id: Seq<char>) -> int {
        choose|i: int|
            0 <= i < self.accounts@.len() && self.accounts@[i].account_id@ == id
    }

    /// The record of the account with this identity; meaningful only when
    /// `has_account` holds.
    pub open spec fn account_of(&self, id: Seq<char>) -> Account {
        self.accounts@[self.account_index(id)].account
    }

    /// The reward the pool as a whole accrues from its last balance change
    /// to `current_block`: zero while paused, else the rate formula on the
    /// total stake.
    pub open spec fn spec_global_reward(&self, current_block: BlockHeight) -> int {
        if self.paused {
            0
        } else {
            spec_reward(
                self.total_stake_balance as int,
                self.config.reward_numerator as int,
                self.config.reward_denominator as int,
                current_block - self.last_block_balance_change,
            )
        }
    }

    /// The reward one account accrues from its last settlement to
    /// `current_block`: zero while paused, else the rate formula on the
    /// account's own stake.
    ///
    /// This is the fixed reading of the account's pro-rata share: the rate
    /// formula is applied to the account's own stake over its own elapsed
    /// span, with one truncating division at the end. It differs from
    /// first truncating the pool-level accrual and then taking the
    /// stake/total fraction of it only in truncation corners; it is the
    /// same association on every path, so queries and settlement agree
    /// bit for bit, and the accounts' shares never exceed the pool's own
    /// accrual (`laws::lemma_rewards_conserved`).
    pub open spec fn spec_account_reward(&self, a: Account, current_block: BlockHeight) -> int {
        if self.paused {
            0
        } else {
            spec_reward(
                a.stake_balance as int,
                self.config.reward_numerator as int,
                self.config.reward_denominator as int,
                current_block - a.last_block_balance_change,
            )
        }
    }

    /// The account record after settling its accrued reward at
    /// `current_block`: the accrual moves into `pre_reward` and the
    /// accrual anchor advances, which removes the span from every future
    /// computation.
    pub open spec fn spec_settled_account(&self, a: Account, current_block: BlockHeight) -> Account {
        Account {
            pre_reward: (a.pre_reward + self.spec_account_reward(a, current_block)) as u128,
            last_block_balance_change: current_block,
            ..a
        }
    }

    /// Whether machine arithmetic can evaluate the pool's accrual at
    /// `current_block` (trivial while paused: nothing is evaluated).
    pub open spec fn spec_global_computable(&self, current_block: BlockHeight) -> bool {
        self.paused || (current_block >= self.last_block_balance_change && reward_fits(
            self.total_stake_balance as int,
            self.config.reward_numerator as int,
            current_block - self.last_block_balance_change,
        ))
    }

    /// Whether the pool's accrual can be evaluated and settled into
    /// `pre_reward` without exceeding the balance type.
    pub open spec fn spec_global_settle_ok(&self, current_block: BlockHeight) -> bool {
        self.spec_global_computable(current_block) && (self.paused || self.pre_reward
            + self.spec_global_reward(current_block) <= u128::MAX)
    }

    /// Whether machine arithmetic can evaluate this account's accrual at
    /// `current_block`.
    pub open spec fn spec_account_computable(&self, a: Account, current_block: BlockHeight) -> bool {
        self.paused || (current_block >= a.last_block_balance_change && reward_fits(
            a.stake_balance as int,
            self.config.reward_numerator as int,
            current_block - a.last_block_balance_change,
        ))
    }

    /// Whether this account's accrual can be evaluated and settled into
    /// its `pre_reward` without exceeding the balance type.
    pub open spec fn spec_account_settle_ok(&self, a: Account, current_block: BlockHeight) -> bool {
        self.spec_account_computable(a, current_block) && (self.paused || a.pre_reward
            + self.spec_account_reward(a, current_block) <= u128::MAX)
    }

    /// Reward accrued by the pool since `last_block_balance_change`, as a
    /// pure function of elapsed blocks and the current total stake.
    ///
    /// Returns 0 while the pool is paused, and 0 when nothing is staked.
    pub fn calculate_global_reward(&self, current_block: BlockHeight) -> (r: Balance)
        requires
            self.wf(),
            self.spec_global_computable(current_block),
        ensures
            r == self.spec_global_reward(current_block),
            self.paused ==> r == 0,
            self.total_stake_balance == 0 ==> r == 0,
    {
        if self.paused {
            0
        } else {
            let elapsed: u64 = current_block - self.last_block_balance_change;
            proof {
                lemma_reward_zero_stake(
                    self.config.reward_numerator as int,
                    self.config.reward_denominator as int,
                    elapsed as int,
                );
            }
            compute_reward(
                self.total_stake_balance,
                self.config.reward_numerator,
                self.config.reward_denominator,
                elapsed,
            )
        }
    }

    /// Reward accrued by one account since its last settlement,
    /// proportional to the account's stake: the rate formula applied to
    /// the account's own stake over its own elapsed span (the fixed
    /// truncation reading documented at `spec_account_reward`).
    ///
    /// Read-only: safe to call from queries. Returns 0 while paused.
    pub fn calculate_account_reward(&self, account: &Account, current_block: BlockHeight) -> (r:
        Balance)
        requires
            self.config.wf(),
            self.spec_account_computable(*account, current_block),
        ensures
            r == self.spec_account_reward(*account, current_block),
            self.paused ==> r == 0,
            account.stake_balance == 0 ==> r == 0,
    {
        if self.paused {
            0
        } else {
            let elapsed: u64 = current_block - account.last_block_balance_change;
            proof {
                lemma_reward_zero_stake(
                    self.config.reward_numerator as int,
                    self.config.reward_denominator as int,
                    elapsed as int,
                );
            }
            compute_reward(
                account.stake_balance,
                self.config.reward_numerator,
                self.config.reward_denominator,
                elapsed,
            )
        }
    }

    /// Decide `spec_account_settle_ok` by machine arithmetic.
    pub fn account_settle_check(&self, account: &Account, current_block: BlockHeight) -> (r: bool)
        requires
            self.config.wf(),
        ensures
            r == self.spec_account_settle_ok(*account, current_block),
    {
        if self.paused {
            true
        } else if current_block < account.last_block_balance_change {
            false
        } else {
            let elapsed: u64 = current_block - account.last_block_balance_change;
            if !check_reward_fits(account.stake_balance, self.config.reward_numerator, elapsed) {
                false
            } else {
                let accrued = compute_reward(
                    account.stake_balance,
                    self.config.reward_numerator,
                    self.config.reward_denominator,
                    elapsed,
                );
                account.pre_reward.checked_add(accrued).is_some()
            }
        }
    }

    /// Decide `spec_global_settle_ok` by machine arithmetic.
    pub fn global_settle_check(&self, current_block: BlockHeight) -> (r: bool)
        requires
            self.config.wf(),
        ensures
            r == self.spec_global_settle_ok(current_block),
    {
        if self.paused {
            true
        } else if current_block < self.last_block_balance_change {
            false
        } else {
            let elapsed: u64 = current_block - self.last_block_balance_change;
            if !check_reward_fits(self.total_stake_balance, self.config.reward_numerator, elapsed) {
                false
            } else {
                let accrued = compute_reward(
                    self.total_stake_balance,
                    self.config.reward_numerator,
                    self.config.reward_denominator,
                    elapsed,
                );
                self.pre_reward.checked_add(accrued).is_some()
            }
        }
    }

    /// Machine-limit bounds under which a deposit can be carried out: the
    /// settlements and the stake increases must fit the balance type.
    /// Vacuous whenever the call will be rejected instead.
    pub open spec fn spec_deposit_ready(&self, id: Seq<char>, amount: Balance, current_block: BlockHeight) -> bool {
        !self.paused ==> {
            &&& self.spec_global_settle_ok(current_block)
            &&& self.total_stake_balance + amount <= u128::MAX
            &&& (self.has_account(id) ==> {
                let a = self.account_of(id);
                &&& self.spec_account_settle_ok(a, current_block)
                &&& a.stake_balance + amount <= u128::MAX
            })
        }
    }

    /// What a deposit does: rejected while paused, with the ledger
    /// untouched; for a new identity it registers the account — a fresh
    /// record holding exactly the deposited stake — and grows the staker
    /// count; for a known identity the pool and the account settle their
    /// accrued reward and both stakes grow by `amount`.
    pub open spec fn spec_deposit_post(
        pre: StakingContract,
        post: StakingContract,
        id: Seq<char>,
        amount: Balance,
        current_block: BlockHeight,
        r: Result<(), StakingError>,
    ) -> bool {
        if pre.paused {
            r == Err::<(), StakingError>(StakingError::Paused) && post == pre
        } else if !pre.has_account(id) {
            let fresh = Account { stake_balance: amount, ..Account::new_spec(current_block) };
            &&& r == Ok::<(), StakingError>(())
            &&& post.accounts@.len() == pre.accounts@.len() + 1
            &&& (forall|j: int| 0 <= j < pre.accounts@.len() ==> post.accounts@[j] == pre.accounts@[j])
            &&& post.accounts@.last().account_id@ == id
            &&& post.accounts@.last().account == fresh
            &&& post.total_stake_balance == pre.total_stake_balance + amount
            &&& post.pre_reward == pre.pre_reward + pre.spec_global_reward(current_block)
            &&& post.last_block_balance_change == current_block
            &&& post.total_paid_reward_balance == pre.total_paid_reward_balance
            &&& post.total_stakers == pre.total_stakers + 1
            &&& post.paused == pre.paused
            &&& post.pause_in_block == pre.pause_in_block
            &&& post.owner_id == pre.owner_id
            &&& post.ft_contract_id == pre.ft_contract_id
            &&& post.config == pre.config
        } else {
            let i = pre.account_index(id);
            let a0 = pre.accounts@[i].account;
            let a1 = Account {
                stake_balance: (a0.stake_balance + amount) as u128,
                ..pre.spec_settled_account(a0, current_block)
            };
            &&& r == Ok::<(), StakingError>(())
            &&& post.accounts@ == pre.accounts@.update(
                i,
                AccountEntry { account_id: pre.accounts@[i].account_id, account: a1 },
            )
            &&& post.total_stake_balance == pre.total_stake_balance + amount
            &&& post.pre_reward == pre.pre_reward + pre.spec_global_reward(current_block)
            &&& post.last_block_balance_change == current_block
            &&& post.total_paid_reward_balance == pre.total_paid_reward_balance
            &&& post.total_stakers == pre.total_stakers
            &&& post.paused == pre.paused
            &&& post.pause_in_block == pre.pause_in_block
            &&& post.owner_id == pre.owner_id
            &&& post.ft_contract_id == pre.ft_contract_id
            &&& post.config == pre.config
        }
    }

    /// Decide `spec_deposit_ready` by machine arithmetic.
    pub fn deposit_ready(&self, account_id: &AccountId, amount: Balance, current_block: BlockHeight) -> (r: bool)
        requires
            self.wf(),
        ensures
            r == self.spec_deposit_ready(account_id@, amount, current_block),
    {
        if self.paused {
            return true;
        }
        if !self.global_settle_check(current_block)
            || !self.total_stake_balance.checked_add(amount).is_some() {
            return false;
        }
        match self.find_account_index(account_id) {
            None => true,
            Some(i) => {
                let a = self.accounts[i].account;
                self.account_settle_check(&a, current_block) && a.stake_balance.checked_add(
                    amount,
                ).is_some()
            },
        }
    }

    /// Accept a deposit notification: settle the pool's and the account's
    /// pending reward, then stake `amount` for the account, registering
    /// the account first if the identity is new.
    ///
    /// Settlement runs global-first, so the deposit never distorts the
    /// accrual already earned. Rejected while paused, leaving the ledger
    /// unchanged.
    pub fn internal_deposit_and_stake(
        &mut self,
        account_id: AccountId,
        amount: Balance,
        current_block: BlockHeight,
    ) -> (r: Result<(), StakingError>)
        requires
            old(self).wf(),
            old(self).spec_deposit_ready(account_id@, amount, current_block),
        ensures
            final(self).wf(),
            StakingContract::spec_deposit_post(
                *old(self),
                *final(self),
                account_id@,
                amount,
                current_block,
                r,
            ),
    {
        if self.paused {
            return Err(StakingError::Paused);
        }
        let global_accrued = self.calculate_global_reward(current_block);
        match self.find_account_index(&account_id) {
            None => {
                let fresh = Account {
                    stake_balance: amount,
                    pre_reward: 0,
                    last_block_balance_change: current_block,
                    unstake_balance: 0,
                    unstake_start_timestamp: 0,
                    unstake_available_epoch: 0,
                };
                let ghost pre = *self;
                let registered_before = self.accounts.len();
                self.accounts.push(AccountEntry { account_id, account: fresh });
                self.total_stakers = (registered_before as u128) + 1;
                self.pre_reward = self.pre_reward + global_accrued;
                self.total_stake_balance = self.total_stake_balance + amount;
                self.last_block_balance_change = current_block;
                proof {
                    lemma_sum_stakes_push(pre.accounts@, self.accounts@.last());
                    assert(self.accounts@[pre.accounts@.len() as int].account_id@
                        == self.accounts@.last().account_id@);
                }
                Ok(())
            },
            Some(i) => {
                let a0 = self.accounts[i].account;
                let account_accrued = self.calculate_account_reward(&a0, current_block);
                let a1 = Account {
                    stake_balance: a0.stake_balance + amount,
                    pre_reward: a0.pre_reward + account_accrued,
                    last_block_balance_change: current_block,
                    unstake_balance: a0.unstake_balance,
                    unstake_start_timestamp: a0.unstake_start_timestamp,
                    unstake_available_epoch: a0.unstake_available_epoch,
                };
                let entry_id = self.accounts[i].account_id.clone();
                let ghost pre = *self;
                self.accounts.set(i, AccountEntry { account_id: entry_id, account: a1 });
                self.pre_reward = self.pre_reward + global_accrued;
                self.total_stake_balance = self.total_stake_balance + amount;
                self.last_block_balance_change = current_block;
                proof {
                    lemma_sum_stakes_update(
                        pre.accounts@,
                        i as int,
                        self.accounts@[i as int],
                    );
                }
                Ok(())
            },
        }
    }

    /// Machine-limit bounds under which an unstake can be carried out.
    /// Vacuous whenever the call will be rejected instead.
    pub open spec fn spec_unstake_ready(
        &self,
        id: Seq<char>,
        amount: Balance,
        current_block: BlockHeight,
        current_epoch: EpochHeight,
    ) -> bool {
        (!self.paused && self.has_account(id) && amount <= self.account_of(id).stake_balance)
            ==> {
            let a = self.account_of(id);
            &&& self.spec_global_settle_ok(current_block)
            &&& self.spec_account_settle_ok(a, current_block)
            &&& a.unstake_balance + amount <= u128::MAX
            &&& current_epoch + UNBONDING_PERIOD <= u64::MAX
        }
    }

    /// The unbonding epoch a new unstake at `current_epoch` stamps on an
    /// account: an in-flight lock merges by keeping the later of the two
    /// unlock epochs.
    pub open spec fn spec_merged_unlock_epoch(a: Account, current_epoch: EpochHeight) -> int {
        if a.unstake_available_epoch >= current_epoch + UNBONDING_PERIOD {
            a.unstake_available_epoch as int
        } else {
            current_epoch + UNBONDING_PERIOD
        }
    }

    /// What an unstake does: rejected while paused, for an unregistered
    /// identity, or for more than the active stake, with the ledger
    /// untouched; otherwise the pool and the account settle their accrued
    /// reward, `amount` moves from the active stake to the locked balance,
    /// and the lock is stamped with the unbonding epoch (merging with an
    /// in-flight lock by summing amounts and keeping the later epoch).
    pub open spec fn spec_unstake_post(
        pre: StakingContract,
        post: StakingContract,
        id: Seq<char>,
        amount: Balance,
        current_block: BlockHeight,
        current_timestamp: Timestamp,
        current_epoch: EpochHeight,
        r: Result<(), StakingError>,
    ) -> bool {
        if pre.paused {
            r == Err::<(), StakingError>(StakingError::Paused) && post == pre
        } else if !pre.has_account(id) {
            r == Err::<(), StakingError>(StakingError::AccountNotFound) && post == pre
        } else if amount > pre.account_of(id).stake_balance {
            r == Err::<(), StakingError>(StakingError::InsufficientFunds) && post == pre
        } else {
            let i = pre.account_index(id);
            let a0 = pre.accounts@[i].account;
            let a1 = Account {
                stake_balance: (a0.stake_balance - amount) as u128,
                unstake_balance: (a0.unstake_balance + amount) as u128,
                unstake_start_timestamp: current_timestamp,
                unstake_available_epoch: StakingContract::spec_merged_unlock_epoch(
                    a0,
                    current_epoch,
                ) as u64,
                ..pre.spec_settled_account(a0, current_block)
            };
            &&& r == Ok::<(), StakingError>(())
            &&& post.accounts@ == pre.accounts@.update(
                i,
                AccountEntry { account_id: pre.accounts@[i].account_id, account: a1 },
            )
            &&& post.total_stake_balance == pre.total_stake_balance - amount
            &&& post.pre_reward == pre.pre_reward + pre.spec_global_reward(current_block)
            &&& post.last_block_balance_change == current_block
            &&& post.total_paid_reward_balance == pre.total_paid_reward_balance
            &&& post.total_stakers == pre.total_stakers
            &&& post.paused == pre.paused
            &&& post.pause_in_block == pre.pause_in_block
            &&& post.owner_id == pre.owner_id
            &&& post.ft_contract_id == pre.ft_contract_id
            &&& post.config == pre.config
        }
    }

    /// Decide `spec_unstake_ready` by machine arithmetic.
    pub fn unstake_ready(
        &self,
        account_id: &AccountId,
        amount: Balance,
        current_block: BlockHeight,
        current_epoch: EpochHeight,
    ) -> (r: bool)
        requires
            self.wf(),
        ensures
            r == self.spec_unstake_ready(account_id@, amount, current_block, current_epoch),
    {
        if self.paused {
            return true;
        }
        match self.find_account_index(account_id) {
            None => true,
            Some(i) => {
                let a = self.accounts[i].account;
                if amount > a.stake_balance {
                    true
                } else {
                    self.global_settle_check(current_block) && self.account_settle_check(
                        &a,
                        current_block,
                    ) && a.unstake_balance.checked_add(amount).is_some()
                        && current_epoch.checked_add(UNBONDING_PERIOD).is_some()
                }
            },
        }
    }

    /// Move `amount` of an account's active stake into its locked unstake
    /// balance, settling pending reward first and stamping the epoch at
    /// which the locked balance becomes withdrawable.
    ///
    /// A second unstake before the previous lock expires merges: the
    /// amounts add up and the later unlock epoch wins.
    pub fn unstake(
        &mut self,
        account_id: AccountId,
        amount: Balance,
        current_block: BlockHeight,
        current_timestamp: Timestamp,
        current_epoch: EpochHeight,
    ) -> (r: Result<(), StakingError>)
        requires
            old(self).wf(),
            old(self).spec_unstake_ready(account_id@, amount, current_block, current_epoch),
        ensures
            final(self).wf(),
            StakingContract::spec_unstake_post(
                *old(self),
                *final(self),
                account_id@,
                amount,
                current_block,
                current_timestamp,
                current_epoch,
                r,
            ),
    {
        if self.paused {
            return Err(StakingError::Paused);
        }
        match self.find_account_index(&account_id) {
            None => Err(StakingError::AccountNotFound),
            Some(i) => {
                let a0 = self.accounts[i].account;
                if amount > a0.stake_balance {
                    return Err(StakingError::InsufficientFunds);
                }
                let global_accrued = self.calculate_global_reward(current_block);
                let account_accrued = self.calculate_account_reward(&a0, current_block);
                let fresh_unlock: u64 = current_epoch + UNBONDING_PERIOD;
                let merged_unlock: u64 = if a0.unstake_available_epoch >= fresh_unlock {
                    a0.unstake_available_epoch
                } else {
                    fresh_unlock
                };
                let a1 = Account {
                    stake_balance: a0.stake_balance - amount,
                    pre_reward: a0.pre_reward + account_accrued,
                    last_block_balance_change: current_block,
                    unstake_balance: a0.unstake_balance + amount,
                    unstake_start_timestamp: current_timestamp,
                    unstake_available_epoch: merged_unlock,
                };
                let entry_id = self.accounts[i].account_id.clone();
                let ghost pre = *self;
                proof {
                    lemma_sum_stakes_bounds_elem(pre.accounts@, i as int);
                }
                self.accounts.set(i, AccountEntry { account_id: entry_id, account: a1 });
                self.pre_reward = self.pre_reward + global_accrued;
                self.total_stake_balance = self.total_stake_balance - amount;
                self.last_block_balance_change = current_block;
                proof {
                    lemma_sum_stakes_update(
                        pre.accounts@,
                        i as int,
                        self.accounts@[i as int],
                    );
                }
                Ok(())
            },
        }
    }

    /// What a withdraw does: rejected for an unregistered identity, while
    /// the lock has not expired, or with nothing locked, with the ledger
    /// untouched; otherwise the locked balance is zeroed and returned, to
    /// be transferred externally by the caller.
    pub open spec fn spec_withdraw_post(
        pre: StakingContract,
        post: StakingContract,
        id: Seq<char>,
        current_epoch: EpochHeight,
        r: Result<Balance, StakingError>,
    ) -> bool {
        if !pre.has_account(id) {
            r == Err::<Balance, StakingError>(StakingError::AccountNotFound) && post == pre
        } else if current_epoch < pre.account_of(id).unstake_available_epoch {
            r == Err::<Balance, StakingError>(StakingError::StillLocked) && post == pre
        } else if pre.account_of(id).unstake_balance == 0 {
            r == Err::<Balance, StakingError>(StakingError::InsufficientFunds) && post == pre
        } else {
            let i = pre.account_index(id);
            let a0 = pre.accounts@[i].account;
            let a1 = Account { unstake_balance: 0, ..a0 };
            &&& r == Ok::<Balance, StakingError>(a0.unstake_balance)
            &&& post.accounts@ == pre.accounts@.update(
                i,
                AccountEntry { account_id: pre.accounts@[i].account_id, account: a1 },
            )
            &&& post.total_stake_balance == pre.total_stake_balance
            &&& post.pre_reward == pre.pre_reward
            &&& post.last_block_balance_change == pre.last_block_balance_change
            &&& post.total_paid_reward_balance == pre.total_paid_reward_balance
            &&& post.total_stakers == pre.total_stakers
            &&& post.paused == pre.paused
            &&& post.pause_in_block == pre.pause_in_block
            &&& post.owner_id == pre.owner_id
            &&& post.ft_contract_id == pre.ft_contract_id
            &&& post.config == pre.config
        }
    }

    /// Release an account's locked balance once its unbonding epoch has
    /// been reached. The balance is zeroed speculatively and handed to the
    /// caller for the external transfer; on confirmed transfer failure the
    /// caller must restore it with `revert_withdraw`.
    ///
    /// Fails with `StillLocked` for any `current_epoch` before
    /// `unstake_available_epoch`, and succeeds at or after it.
    pub fn withdraw(&mut self, account_id: AccountId, current_epoch: EpochHeight) -> (r: Result<
        Balance,
        StakingError,
    >)
        requires
            old(self).wf(),
        ensures
            final(self).wf(),
            StakingContract::spec_withdraw_post(
                *old(self),
                *final(self),
                account_id@,
                current_epoch,
                r,
            ),
    {
        match self.find_account_index(&account_id) {
            None => Err(StakingError::AccountNotFound),
            Some(i) => {
                let a0 = self.accounts[i].account;
                if current_epoch < a0.unstake_available_epoch {
                    return Err(StakingError::StillLocked);
                }
                if a0.unstake_balance == 0 {
                    return Err(StakingError::InsufficientFunds);
                }
                let a1 = Account { unstake_balance: 0, ..a0 };
                let entry_id = self.accounts[i].account_id.clone();
                let ghost pre = *self;
                self.accounts.set(i, AccountEntry { account_id: entry_id, account: a1 });
                proof {
                    lemma_sum_stakes_update(
                        pre.accounts@,
                        i as int,
                        self.accounts@[i as int],
                    );
                }
                Ok(a0.unstake_balance)
            },
        }
    }

    /// What restoring a failed withdraw does: the amount moves back into
    /// the account's locked balance; nothing else changes.
    pub open spec fn spec_revert_withdraw_post(
        pre: StakingContract,
        post: StakingContract,
        id: Seq<char>,
        amount: Balance,
        r: Result<(), StakingError>,
    ) -> bool {
        if !pre.has_account(id) {
            r == Err::<(), StakingError>(StakingError::AccountNotFound) && post == pre
        } else {
            let i = pre.account_index(id);
            let a0 = pre.accounts@[i].account;
            let a1 = Account { unstake_balance: (a0.unstake_balance + amount) as u128, ..a0 };
            &&& r == Ok::<(), StakingError>(())
            &&& post.accounts@ == pre.accounts@.update(
                i,
                AccountEntry { account_id: pre.accounts@[i].account_id, account: a1 },
            )
            &&& post.total_stake_balance == pre.total_stake_balance
            &&& post.pre_reward == pre.pre_reward
            &&& post.last_block_balance_change == pre.last_block_balance_change
            &&& post.total_paid_reward_balance == pre.total_paid_reward_balance
            &&& post.total_stakers == pre.total_stakers
            &&& post.paused == pre.paused
            &&& post.pause_in_block == pre.pause_in_block
            &&& post.owner_id == pre.owner_id
            &&& post.ft_contract_id == pre.ft_contract_id
            &&& post.config == pre.config
        }
    }

    /// Decide by machine arithmetic whether `revert_withdraw` can restore
    /// `amount` without exceeding the balance type.
    pub fn revert_withdraw_ready(&self, account_id: &AccountId, amount: Balance) -> (r: bool)
        requires
            self.wf(),
        ensures
            r == (self.has_account(account_id@) ==> self.account_of(account_id@).unstake_balance
                + amount <= u128::MAX),
    {
        match self.find_account_index(account_id) {
            None => true,
            Some(i) => self.accounts[i].account.unstake_balance.checked_add(amount).is_some(),
        }
    }

    /// Compensating action for `withdraw`: restore the locked balance
    /// after the external transfer is confirmed to have failed, so the
    /// funds are never silently lost.
    pub fn revert_withdraw(&mut self, account_id: AccountId, amount: Balance) -> (r: Result<
        (),
        StakingError,
    >)
        requires
            old(self).wf(),
            old(self).has_account(account_id@) ==> old(self).account_of(
                account_id@,
            ).unstake_balance + amount <= u128::MAX,
        ensures
            final(self).wf(),
            StakingContract::spec_revert_withdraw_post(
                *old(self),
                *final(self),
                account_id@,
                amount,
                r,
            ),
    {
        match self.find_account_index(&account_id) {
            None => Err(StakingError::AccountNotFound),
            Some(i) => {
                let a0 = self.accounts[i].account;
                let a1 = Account { unstake_balance: a0.unstake_balance + amount, ..a0 };
                let entry_id = self.accounts[i].account_id.clone();
                let ghost pre = *self;
                self.accounts.set(i, AccountEntry { account_id: entry_id, account: a1 });
                proof {
                    lemma_sum_stakes_update(
                        pre.accounts@,
                        i as int,
                        self.accounts@[i as int],
                    );
                }
                Ok(())
            },
        }
    }

    /// Machine-limit bounds under which a reward withdrawal can be
    /// carried out. Vacuous whenever the call will be rejected instead.
    pub open spec fn spec_withdraw_reward_ready(
        &self,
        id: Seq<char>,
        amount: Balance,
        current_block: BlockHeight,
    ) -> bool {
        self.has_account(id) ==> {
            let a = self.account_of(id);
            &&& self.spec_global_settle_ok(current_block)
            &&& self.spec_account_settle_ok(a, current_block)
            &&& (amount <= a.pre_reward + self.spec_account_reward(a, current_block)
                ==> self.total_paid_reward_balance + amount <= u128::MAX)
        }
    }

    /// What a reward withdrawal does: rejected for an unregistered
    /// identity or for more than the settled claim, with the ledger
    /// untouched; otherwise the pool and the account settle their accrued
    /// reward, the account's claim shrinks by `amount`, and the pool's
    /// paid total grows by it, to be paid out externally by the caller.
    pub open spec fn spec_withdraw_reward_post(
        pre: StakingContract,
        post: StakingContract,
        id: Seq<char>,
        amount: Balance,
        current_block: BlockHeight,
        r: Result<(), StakingError>,
    ) -> bool {
        if !pre.has_account(id) {
            r == Err::<(), StakingError>(StakingError::AccountNotFound) && post == pre
        } else {
            let i = pre.account_index(id);
            let a0 = pre.accounts@[i].account;
            let claim = a0.pre_reward + pre.spec_account_reward(a0, current_block);
            if amount > claim {
                r == Err::<(), StakingError>(StakingError::InsufficientFunds) && post == pre
            } else {
                let a1 = Account {
                    pre_reward: (claim - amount) as u128,
                    ..pre.spec_settled_account(a0, current_block)
                };
                &&& r == Ok::<(), StakingError>(())
                &&& post.accounts@ == pre.accounts@.update(
                    i,
                    AccountEntry { account_id: pre.accounts@[i].account_id, account: a1 },
                )
                &&& post.total_stake_balance == pre.total_stake_balance
                &&& post.pre_reward == pre.pre_reward + pre.spec_global_reward(current_block)
                &&& post.last_block_balance_change == current_block
                &&& post.total_paid_reward_balance == pre.total_paid_reward_balance + amount
                &&& post.total_stakers == pre.total_stakers
                &&& post.paused == pre.paused
                &&& post.pause_in_block == pre.pause_in_block
                &&& post.owner_id == pre.owner_id
                &&& post.ft_contract_id == pre.ft_contract_id
                &&& post.config == pre.config
            }
        }
    }

    /// Decide `spec_withdraw_reward_ready` by machine arithmetic.
    pub fn withdraw_reward_ready(
        &self,
        account_id: &AccountId,
        amount: Balance,
        current_block: BlockHeight,
    ) -> (r: bool)
        requires
            self.wf(),
        ensures
            r == self.spec_withdraw_reward_ready(account_id@, amount, current_block),
    {
        match self.find_account_index(account_id) {
            None => true,
            Some(i) => {
                let a = self.accounts[i].account;
                if !self.global_settle_check(current_block) || !self.account_settle_check(
                    &a,
                    current_block,
                ) {
                    false
                } else {
                    let accrued = self.calculate_account_reward(&a, current_block);
                    let claim = a.pre_reward + accrued;
                    if amount > claim {
                        true
                    } else {
                        self.total_paid_reward_balance.checked_add(amount).is_some()
                    }
                }
            },
        }
    }

    /// Withdraw `amount` of an account's settled reward: settle first, so
    /// the claim includes everything accrued up to `current_block`, then
    /// move `amount` from the claim into the pool's paid total. The caller
    /// performs the external payout; on confirmed failure it must restore
    /// the claim with `revert_withdraw_reward`.
    pub fn withdraw_reward(
        &mut self,
        account_id: AccountId,
        amount: Balance,
        current_block: BlockHeight,
    ) -> (r: Result<(), StakingError>)
        requires
            old(self).wf(),
            old(self).spec_withdraw_reward_ready(account_id@, amount, current_block),
        ensures
            final(self).wf(),
            StakingContract::spec_withdraw_reward_post(
                *old(self),
                *final(self),
                account_id@,
                amount,
                current_block,
                r,
            ),
    {
        match self.find_account_index(&account_id) {
            None => Err(StakingError::AccountNotFound),
            Some(i) => {
                let a0 = self.accounts[i].account;
                let account_accrued = self.calculate_account_reward(&a0, current_block);
                let claim = a0.pre_reward + account_accrued;
                if amount > claim {
                    return Err(StakingError::InsufficientFunds);
                }
                let global_accrued = self.calculate_global_reward(current_block);
                let a1 = Account {
                    pre_reward: claim - amount,
                    last_block_balance_change: current_block,
                    ..a0
                };
                let entry_id = self.accounts[i].account_id.clone();
                let ghost pre = *self;
                self.accounts.set(i, AccountEntry { account_id: entry_id, account: a1 });
                self.pre_reward = self.pre_reward + global_accrued;
                self.total_paid_reward_balance = self.total_paid_reward_balance + amount;
                self.last_block_balance_change = current_block;
                proof {
                    lemma_sum_stakes_update(
                        pre.accounts@,
                        i as int,
                        self.accounts@[i as int],
                    );
                }
                Ok(())
            },
        }
    }

    /// What restoring a failed reward payout does: the amount moves back
    /// into the account's claim and out of the pool's paid total.
    pub open spec fn spec_revert_withdraw_reward_post(
        pre: StakingContract,
        post: StakingContract,
        id: Seq<char>,
        amount: Balance,
        r: Result<(), StakingError>,
    ) -> bool {
        if !pre.has_account(id) {
            r == Err::<(), StakingError>(StakingError::AccountNotFound) && post == pre
        } else {
            let i = pre.account_index(id);
            let a0 = pre.accounts@[i].account;
            let a1 = Account { pre_reward: (a0.pre_reward + amount) as u128, ..a0 };
            &&& r == Ok::<(), StakingError>(())
            &&& post.accounts@ == pre.accounts@.update(
                i,
                AccountEntry { account_id: pre.accounts@[i].account_id, account: a1 },
            )
            &&& post.total_stake_balance == pre.total_stake_balance
            &&& post.pre_reward == pre.pre_reward
            &&& post.last_block_balance_change == pre.last_block_balance_change
            &&& post.total_paid_reward_balance == pre.total_paid_reward_balance - amount
            &&& post.total_stakers == pre.total_stakers
            &&& post.paused == pre.paused
            &&& post.pause_in_block == pre.pause_in_block
            &&& post.owner_id == pre.owner_id
            &&& post.ft_contract_id == pre.ft_contract_id
            &&& post.config == pre.config
        }
    }

    /// Decide by machine arithmetic whether `revert_withdraw_reward` can
    /// restore `amount` without exceeding the balance type or the paid
    /// total.
    pub fn revert_withdraw_reward_ready(&self, account_id: &AccountId, amount: Balance) -> (r:
        bool)
        requires
            self.wf(),
        ensures
            r == (self.has_account(account_id@) ==> (self.account_of(account_id@).pre_reward
                + amount <= u128::MAX && amount <= self.total_paid_reward_balance)),
    {
        match self.find_account_index(account_id) {
            None => true,
            Some(i) => self.accounts[i].account.pre_reward.checked_add(amount).is_some()
                && amount <= self.total_paid_reward_balance,
        }
    }

    /// Compensating action for `withdraw_reward`: restore the claim after
    /// the external payout is confirmed to have failed.
    pub fn revert_withdraw_reward(&mut self, account_id: AccountId, amount: Balance) -> (r: Result<
        (),
        StakingError,
    >)
        requires
            old(self).wf(),
            old(self).has_account(account_id@) ==> {
                &&& old(self).account_of(account_id@).pre_reward + amount <= u128::MAX
                &&& amount <= old(self).total_paid_reward_balance
            },
        ensures
            final(self).wf(),
            StakingContract::spec_revert_withdraw_reward_post(
                *old(self),
                *final(self),
                account_id@,
                amount,
                r,
            ),
    {
        match self.find_account_index(&account_id) {
            None => Err(StakingError::AccountNotFound),
            Some(i) => {
                let a0 = self.accounts[i].account;
                let a1 = Account { pre_reward: a0.pre_reward + amount, ..a0 };
                let entry_id = self.accounts[i].account_id.clone();
                let ghost pre = *self;
                self.accounts.set(i, AccountEntry { account_id: entry_id, account: a1 });
                self.total_paid_reward_balance = self.total_paid_reward_balance - amount;
                proof {
                    lemma_sum_stakes_update(
                        pre.accounts@,
                        i as int,
                        self.accounts@[i as int],
                    );
                }
                Ok(())
            },
        }
    }

    /// What registration does: a known identity is rejected; a new one
    /// gets a fresh all-zero record appended and the staker count grows.
    pub open spec fn spec_register_post(
        pre: StakingContract,
        post: StakingContract,
        id: Seq<char>,
        current_block: BlockHeight,
        r: Result<(), StakingError>,
    ) -> bool {
        if pre.has_account(id) {
            r == Err::<(), StakingError>(StakingError::AlreadyRegistered) && post == pre
        } else {
            &&& r == Ok::<(), StakingError>(())
            &&& post.accounts@.len() == pre.accounts@.len() + 1
            &&& (forall|j: int| 0 <= j < pre.accounts@.len() ==> post.accounts@[j] == pre.accounts@[j])
            &&& post.accounts@.last().account_id@ == id
            &&& post.accounts@.last().account == Account::new_spec(current_block)
            &&& post.total_stakers == pre.total_stakers + 1
            &&& post.total_stake_balance == pre.total_stake_balance
            &&& post.pre_reward == pre.pre_reward
            &&& post.last_block_balance_change == pre.last_block_balance_change
            &&& post.total_paid_reward_balance == pre.total_paid_reward_balance
            &&& post.paused == pre.paused
            &&& post.pause_in_block == pre.pause_in_block
            &&& post.owner_id == pre.owner_id
            &&& post.ft_contract_id == pre.ft_contract_id
            &&& post.config == pre.config
        }
    }

    /// Register a new identity with an all-zero record. Never deletes or
    /// resets an existing record: registering twice is rejected.
    pub fn internal_register_account(
        &mut self,
        account_id: AccountId,
        current_block: BlockHeight,
    ) -> (r: Result<(), StakingError>)
        requires
            old(self).wf(),
        ensures
            final(self).wf(),
            StakingContract::spec_register_post(
                *old(self),
                *final(self),
                account_id@,
                current_block,
                r,
            ),
            final(self).has_account(account_id@),
    {
        match self.find_account_index(&account_id) {
            Some(_) => Err(StakingError::AlreadyRegistered),
            None => {
                let ghost pre = *self;
                let registered_before = self.accounts.len();
                let entry = AccountEntry { account_id, account: Account::new(current_block) };
                self.accounts.push(entry);
                self.total_stakers = (registered_before as u128) + 1;
                proof {
                    lemma_sum_stakes_push(pre.accounts@, self.accounts@.last());
                    assert(self.accounts@[pre.accounts@.len() as int].account_id@
                        == self.accounts@.last().account_id@);
                }
                Ok(())
            },
        }
    }

    /// Machine-limit bounds under which the whole pool can settle at
    /// `current_block`: the pool's own accrual and every account's accrual
    /// must fit the balance type.
    pub open spec fn spec_pause_ready(&self, current_block: BlockHeight) -> bool {
        &&& self.spec_global_settle_ok(current_block)
        &&& forall|i: int|
            0 <= i < self.accounts@.len() ==> self.spec_account_settle_ok(
                (#[trigger] self.accounts@[i]).account,
                current_block,
            )
    }

    /// Decide whether the pool is running and `spec_pause_ready` holds,
    /// by machine arithmetic.
    pub fn pause_ready(&self, current_block: BlockHeight) -> (r: bool)
        requires
            self.wf(),
        ensures
            r == (!self.paused && self.spec_pause_ready(current_block)),
    {
        if self.paused {
            return false;
        }
        if !self.global_settle_check(current_block) {
            return false;
        }
        let n = self.accounts.len();
        let mut i: usize = 0;
        while i < n
            invariant
                self.wf(),
                n == self.accounts@.len(),
                0 <= i <= n,
                forall|j: int|
                    0 <= j < i ==> self.spec_account_settle_ok(
                        (#[trigger] self.accounts@[j]).account,
                        current_block,
                    ),
            decreases n - i,
        {
            let a = self.accounts[i].account;
            if !self.account_settle_check(&a, current_block) {
                return false;
            }
            i += 1;
        }
        true
    }

    /// Engage the circuit breaker: settle the pool and every account up
    /// to `current_block`, then halt all accrual. While paused, deposits
    /// and unstakes are rejected and every reward computation yields 0.
    pub fn pause(&mut self, current_block: BlockHeight)
        requires
            old(self).wf(),
            !old(self).paused,
            old(self).spec_pause_ready(current_block),
        ensures
            final(self).wf(),
            final(self).paused,
            final(self).pause_in_block == current_block,
            final(self).last_block_balance_change == current_block,
            final(self).pre_reward == old(self).pre_reward + old(self).spec_global_reward(
                current_block,
            ),
            final(self).accounts@.len() == old(self).accounts@.len(),
            forall|j: int|
                0 <= j < old(self).accounts@.len() ==> (#[trigger] final(self).accounts@[j]).account_id
                    == old(self).accounts@[j].account_id && final(self).accounts@[j].account
                    == old(self).spec_settled_account(old(self).accounts@[j].account, current_block),
            final(self).total_stake_balance == old(self).total_stake_balance,
            final(self).total_paid_reward_balance == old(self).total_paid_reward_balance,
            final(self).total_stakers == old(self).total_stakers,
            final(self).owner_id == old(self).owner_id,
            final(self).ft_contract_id == old(self).ft_contract_id,
            final(self).config == old(self).config,
    {
        let ghost pre = *self;
        let n = self.accounts.len();
        let mut i: usize = 0;
        while i < n
            invariant
                pre.wf(),
                !pre.paused,
                pre.spec_pause_ready(current_block),
                n == pre.accounts@.len(),
                0 <= i <= n,
                self.accounts@.len() == n,
                self.paused == pre.paused,
                self.config == pre.config,
                self.total_stake_balance == pre.total_stake_balance,
                self.total_paid_reward_balance == pre.total_paid_reward_balance,
                self.total_stakers == pre.total_stakers,
                self.pre_reward == pre.pre_reward,
                self.last_block_balance_change == pre.last_block_balance_change,
                self.pause_in_block == pre.pause_in_block,
                self.owner_id == pre.owner_id,
                self.ft_contract_id == pre.ft_contract_id,
                forall|j: int|
                    0 <= j < i ==> (#[trigger] self.accounts@[j]).account_id
                        == pre.accounts@[j].account_id && self.accounts@[j].account
                        == pre.spec_settled_account(pre.accounts@[j].account, current_block),
                forall|j: int| i <= j < n ==> self.accounts@[j] == pre.accounts@[j],
            decreases n - i,
        {
            let a0 = self.accounts[i].account;
            proof {
                assert(a0 == pre.accounts@[i as int].account);
                assert(pre.spec_account_settle_ok(pre.accounts@[i as int].account, current_block));
            }
            let accrued = self.calculate_account_reward(&a0, current_block);
            let a1 = Account {
                pre_reward: a0.pre_reward + accrued,
                last_block_balance_change: current_block,
                ..a0
            };
            let entry_id = self.accounts[i].account_id.clone();
            self.accounts.set(i, AccountEntry { account_id: entry_id, account: a1 });
            i += 1;
        }
        proof {
            assert(forall|j: int|
                0 <= j < n ==> (#[trigger] self.accounts@[j]).account_id@
                    == pre.accounts@[j].account_id@);
            lemma_sum_stakes_pointwise(pre.accounts@, self.accounts@);
            assert(self.wf());
        }
        let global_accrued = self.calculate_global_reward(current_block);
        self.pre_reward = self.pre_reward + global_accrued;
        self.last_block_balance_change = current_block;
        self.paused = true;
        self.pause_in_block = current_block;
    }

    /// Release the circuit breaker: re-anchor the pool and every account
    /// at `current_block`, so the paused span never accrues reward, and
    /// resume normal operation.
    pub fn unpause(&mut self, current_block: BlockHeight)
        requires
            old(self).wf(),
            old(self).paused,
        ensures
            final(self).wf(),
            !final(self).paused,
            final(self).last_block_balance_change == current_block,
            final(self).pre_reward == old(self).pre_reward,
            final(self).accounts@.len() == old(self).accounts@.len(),
            forall|j: int|
                0 <= j < old(self).accounts@.len() ==> (#[trigger] final(self).accounts@[j]).account_id
                    == old(self).accounts@[j].account_id && final(self).accounts@[j].account
                    == (Account {
                    last_block_balance_change: current_block,
                    ..old(self).accounts@[j].account
                }),
            final(self).total_stake_balance == old(self).total_stake_balance,
            final(self).total_paid_reward_balance == old(self).total_paid_reward_balance,
            final(self).total_stakers == old(self).total_stakers,
            final(self).pause_in_block == old(self).pause_in_block,
            final(self).owner_id == old(self).owner_id,
            final(self).ft_contract_id == old(self).ft_contract_id,
            final(self).config == old(self).config,
    {
        let ghost pre = *self;
        let n = self.accounts.len();
        let mut i: usize = 0;
        while i < n
            invariant
                pre.wf(),
                n == pre.accounts@.len(),
                0 <= i <= n,
                self.accounts@.len() == n,
                self.paused == pre.paused,
                self.config == pre.config,
                self.total_stake_balance == pre.total_stake_balance,
                self.total_paid_reward_balance == pre.total_paid_reward_balance,
                self.total_stakers == pre.total_stakers,
                self.pre_reward == pre.pre_reward,
                self.last_block_balance_change == pre.last_block_balance_change,
                self.pause_in_block == pre.pause_in_block,
                self.owner_id == pre.owner_id,
                self.ft_contract_id == pre.ft_contract_id,
                forall|j: int|
                    0 <= j < i ==> (#[trigger] self.accounts@[j]).account_id
                        == pre.accounts@[j].account_id && self.accounts@[j].account == (Account {
                        last_block_balance_change: current_block,
                        ..pre.accounts@[j].account
                    }),
                forall|j: int| i <= j < n ==> self.accounts@[j] == pre.accounts@[j],
            decreases n - i,
        {
            let a0 = self.accounts[i].account;
            let a1 = Account { last_block_balance_change: current_block, ..a0 };
            let entry_id = self.accounts[i].account_id.clone();
            self.accounts.set(i, AccountEntry { account_id: entry_id, account: a1 });
            i += 1;
        }
        proof {
            assert(forall|j: int|
                0 <= j < n ==> (#[trigger] self.accounts@[j]).account_id@
                    == pre.accounts@[j].account_id@);
            lemma_sum_stakes_pointwise(pre.accounts@, self.accounts@);
        }
        self.paused = false;
        self.last_block_balance_change = current_block;
    }

    /// Find the position of an identity in the ledger.
    pub fn find_account_index(&self, account_id: &AccountId) -> (r: Option<usize>)
        requires
            self.wf(),
        ensures
            match r {
                Some(i) => self.has_account(account_id@) && i == self.account_index(account_id@)
                    && i < self.accounts@.len() && self.accounts@[i as int].account_id@
                    == account_id@,
                None => !self.has_account(account_id@),
            },
    {
        let n = self.accounts.len();
        let mut i: usize = 0;
        while i < n
            invariant
                self.wf(),
                n == self.accounts@.len(),
                0 <= i <= n,
                forall|j: int| 0 <= j < i ==> self.accounts@[j].account_id@ != account_id@,
            decreases n - i,
        {
            if self.accounts[i].account_id == *account_id {
                proof {
                    let w = self.account_index(account_id@);
                    assert(0 <= w < self.accounts@.len() && self.accounts@[w].account_id@
                        == account_id@);
                    assert(w == i);
                }
                return Some(i);
            }
            i += 1;
        }
        None
    }
}

} // verus!
