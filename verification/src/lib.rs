//! A staking-pool ledger.
//!
//! The pool accepts fungible-token deposits as stake, accrues a reward pool
//! over elapsed blocks at a configured rational rate, attributes rewards to
//! stakers proportionally to their stake, and enforces a delayed-unbonding
//! withdrawal policy gated by epoch height.
//!
//! All accounting is integer arithmetic; reward division truncates and never
//! rounds up, so the pool stays solvent. The host environment (block height,
//! epoch height, attached deposits, token transfers) is passed in as plain
//! values; every function here is a pure state transition over the ledger.
use vstd::prelude::*;

pub mod account;
pub mod config;
pub mod core_impl;
pub mod enumuration;
pub mod errors;
pub mod internal;
pub mod laws;
pub mod reward;
pub mod util;

use crate::account::Account;
use crate::account::AccountEntry;
use crate::config::Config;
use crate::errors::StakingError;
use crate::util::compute_storage_refund;
use crate::util::spec_storage_cost;

verus! {

/// A token amount, in the token's smallest unit.
pub type Balance = u128;

/// A block height of the host chain.
pub type BlockHeight = u64;

/// An epoch height of the host chain; epochs gate unbonding completion.
pub type EpochHeight = u64;

/// A host timestamp, in nanoseconds.
pub type Timestamp = u64;

/// The identity an account is keyed by.
pub type AccountId = String;

/// Namespace tags for the regions of host storage the ledger occupies.
pub enum StorageKey {
    AccountKey,
}

/// The staking-pool ledger: aggregate totals plus the per-account records.
pub struct StakingContract {
    /// The administrative owner of the pool.
    pub owner_id: AccountId,
    /// The fungible-token contract whose deposits this pool stakes.
    pub ft_contract_id: AccountId,
    /// Reward-rate parameters, immutable after initialization.
    pub config: Config,
    /// Sum of all accounts' active stake.
    pub total_stake_balance: Balance,
    /// Cumulative reward actually paid out.
    pub total_paid_reward_balance: Balance,
    /// Number of registered accounts.
    pub total_stakers: Balance,
    /// Global reward accrued and settled into the pool but not yet paid.
    pub pre_reward: Balance,
    /// Block at which the pool's balances last changed; anchors accrual.
    pub last_block_balance_change: BlockHeight,
    /// The per-account records, one entry per registered identity.
    pub accounts: Vec<AccountEntry>,
    /// Global circuit breaker: while set, no reward accrues and no
    /// deposit or unstake is accepted.
    pub paused: bool,
    /// Block at which the pool was last paused.
    pub pause_in_block: BlockHeight,
}

impl StakingContract {
    /// Create a pool with the default reward configuration.
    pub fn new_default_config(
        owner_id: AccountId,
        ft_contract_id: AccountId,
        current_block: BlockHeight,
    ) -> (contract: StakingContract)
        ensures
            contract.wf(),
            contract.owner_id == owner_id,
            contract.ft_contract_id == ft_contract_id,
            contract.config == Config::default_config(),
            contract.accounts@.len() == 0,
            contract.total_stake_balance == 0,
            contract.total_paid_reward_balance == 0,
            contract.total_stakers == 0,
            contract.pre_reward == 0,
            contract.last_block_balance_change == current_block,
            !contract.paused,
            contract.pause_in_block == 0,
    {
        Self::new(owner_id, ft_contract_id, Config::default(), current_block)
    }

    /// Create a pool with the given configuration and no registered accounts.
    pub fn new(
        owner_id: AccountId,
        ft_contract_id: AccountId,
        config: Config,
        current_block: BlockHeight,
    ) -> (contract: StakingContract)
        requires
            config.wf(),
        ensures
            contract.wf(),
            contract.owner_id == owner_id,
            contract.ft_contract_id == ft_contract_id,
            contract.config == config,
            contract.accounts@.len() == 0,
            contract.total_stake_balance == 0,
            contract.total_paid_reward_balance == 0,
            contract.total_stakers == 0,
            contract.pre_reward == 0,
            contract.last_block_balance_change == current_block,
            !contract.paused,
            contract.pause_in_block == 0,
    {
        let contract = StakingContract {
            owner_id,
            ft_contract_id,
            config,
            total_stake_balance: 0,
            total_paid_reward_balance: 0,
            total_stakers: 0,
            pre_reward: 0,
            last_block_balance_change: current_block,
            accounts: Vec::new(),
            paused: false,
            pause_in_block: 0,
        };
        contract
    }

    /// What paying a storage deposit does: a zero payment or one below
    /// the storage cost is rejected; for a known identity everything is
    /// refunded; otherwise the account is registered, the storage cost is
    /// kept and the excess refunded.
    pub open spec fn spec_storage_deposit_post(
        pre: StakingContract,
        post: StakingContract,
        id: Seq<char>,
        attached_deposit: Balance,
        storage_byte_cost: Balance,
        account_storage_bytes: u64,
        current_block: BlockHeight,
        r: Result<Balance, StakingError>,
    ) -> bool {
        let cost = spec_storage_cost(account_storage_bytes, storage_byte_cost);
        if attached_deposit == 0 {
            r == Err::<Balance, StakingError>(StakingError::InsufficientDeposit) && post == pre
        } else if pre.has_account(id) {
            r == Ok::<Balance, StakingError>(attached_deposit) && post == pre
        } else if attached_deposit < cost {
            r == Err::<Balance, StakingError>(StakingError::InsufficientDeposit) && post == pre
        } else {
            &&& r == Ok::<Balance, StakingError>((attached_deposit - cost) as u128)
            &&& StakingContract::spec_register_post(
                pre,
                post,
                id,
                current_block,
                Ok::<(), StakingError>(()),
            )
        }
    }

    /// Pay for the storage a registration occupies: requires at least one
    /// unit attached; registers the identity if it is new, charging
    /// `storage_byte_cost` per byte occupied; refunds the excess, which
    /// the caller transfers back externally.
    pub fn storage_deposit(
        &mut self,
        account_id: AccountId,
        attached_deposit: Balance,
        storage_byte_cost: Balance,
        account_storage_bytes: u64,
        current_block: BlockHeight,
    ) -> (r: Result<Balance, StakingError>)
        requires
            old(self).wf(),
            spec_storage_cost(account_storage_bytes, storage_byte_cost) <= u128::MAX,
        ensures
            final(self).wf(),
            StakingContract::spec_storage_deposit_post(
                *old(self),
                *final(self),
                account_id@,
                attached_deposit,
                storage_byte_cost,
                account_storage_bytes,
                current_block,
                r,
            ),
    {
        if attached_deposit == 0 {
            return Err(StakingError::InsufficientDeposit);
        }
        if self.find_account_index(&account_id).is_some() {
            return Ok(attached_deposit);
        }
        let refund = match compute_storage_refund(
            account_storage_bytes,
            storage_byte_cost,
            attached_deposit,
        ) {
            Ok(v) => v,
            Err(e) => {
                return Err(e);
            },
        };
        match self.internal_register_account(account_id, current_block) {
            Ok(()) => Ok(refund),
            Err(e) => Err(e),
        }
    }

    /// How many storage-balance units an identity holds: one when
    /// registered, none otherwise.
    pub fn storage_balance_of(&self, account_id: AccountId) -> (r: Balance)
        requires
            self.wf(),
        ensures
            r == (if self.has_account(account_id@) {
                1u128
            } else {
                0u128
            }),
    {
        match self.find_account_index(&account_id) {
            Some(_) => 1,
            None => 0,
        }
    }

    /// Whether the global circuit breaker is on.
    pub fn is_paused(&self) -> (r: bool)
        ensures
            r == self.paused,
    {
        self.paused
    }
}

} // verus!
