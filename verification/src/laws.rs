//! The ledger's cross-cutting laws, stated and proved once.
//!
//! The structural half of conservation — `total_stake_balance` equals the
//! sum of the accounts' stakes and `total_stakers` their number — is part
//! of `StakingContract::wf`, which every mutating operation's contract
//! preserves. This module states the laws that relate several operations.
use vstd::prelude::*;

use crate::account::Account;
use crate::account::AccountEntry;
use crate::internal::lemma_sum_stakes_nonneg;
use crate::internal::sum_stakes;
use crate::reward::lemma_reward_nonneg;
use crate::reward::lemma_reward_subadditive;
use crate::reward::lemma_reward_zero_elapsed;
use crate::reward::lemma_reward_zero_stake;
use crate::reward::spec_reward;
use crate::BlockHeight;
use crate::StakingContract;

verus! {

/// The rewards the accounts of a ledger accrue at `current_block`, summed.
pub open spec fn sum_account_rewards(
    c: StakingContract,
    entries: Seq<AccountEntry>,
    current_block: BlockHeight,
) -> int
    decreases entries.len(),
{
    if entries.len() == 0 {
        0
    } else {
        sum_account_rewards(c, entries.drop_last(), current_block) + c.spec_account_reward(
            entries.last().account,
            current_block,
        )
    }
}

/// The accounts' accruals over a common span never exceed the rate
/// formula applied to their combined stake: truncation only ever forfeits
/// reward, it never mints it.
proof fn lemma_sum_rewards_bound(
    c: StakingContract,
    entries: Seq<AccountEntry>,
    current_block: BlockHeight,
)
    requires
        !c.paused,
        c.config.wf(),
        current_block >= c.last_block_balance_change,
        forall|i: int|
            0 <= i < entries.len() ==> (#[trigger] entries[i]).account.last_block_balance_change
                == c.last_block_balance_change,
    ensures
        sum_account_rewards(c, entries, current_block) <= spec_reward(
            sum_stakes(entries),
            c.config.reward_numerator as int,
            c.config.reward_denominator as int,
            current_block - c.last_block_balance_change,
        ),
    decreases entries.len(),
{
    let num = c.config.reward_numerator as int;
    let den = c.config.reward_denominator as int;
    let elapsed = current_block - c.last_block_balance_change;
    if entries.len() == 0 {
        lemma_reward_zero_stake(num, den, elapsed);
    } else {
        assert(forall|i: int|
            0 <= i < entries.drop_last().len() ==> (#[trigger] entries.drop_last()[i]).account.last_block_balance_change
                == c.last_block_balance_change);
        lemma_sum_rewards_bound(c, entries.drop_last(), current_block);
        lemma_sum_stakes_nonneg(entries.drop_last());
        lemma_reward_subadditive(
            sum_stakes(entries.drop_last()),
            entries.last().account.stake_balance as int,
            num,
            den,
            elapsed,
        );
    }
}

/// While paused no account accrues anything.
proof fn lemma_sum_rewards_zero_paused(
    c: StakingContract,
    entries: Seq<AccountEntry>,
    current_block: BlockHeight,
)
    requires
        c.paused,
    ensures
        sum_account_rewards(c, entries, current_block) == 0,
    decreases entries.len(),
{
    if entries.len() > 0 {
        lemma_sum_rewards_zero_paused(c, entries.drop_last(), current_block);
    }
}

/// Conservation of reward: when every account is settled at the pool's
/// own settlement block, the rewards the accounts can still claim never
/// exceed the reward the pool as a whole accrues over the same span —
/// the pool stays solvent, up to the intentionally forfeited truncation
/// remainders.
pub proof fn lemma_rewards_conserved(c: StakingContract, current_block: BlockHeight)
    requires
        c.wf(),
        !c.paused ==> current_block >= c.last_block_balance_change,
        forall|i: int|
            0 <= i < c.accounts@.len() ==> (#[trigger] c.accounts@[i]).account.last_block_balance_change
                == c.last_block_balance_change,
    ensures
        sum_account_rewards(c, c.accounts@, current_block) <= c.spec_global_reward(current_block),
{
    if c.paused {
        lemma_sum_rewards_zero_paused(c, c.accounts@, current_block);
    } else {
        lemma_sum_rewards_bound(c, c.accounts@, current_block);
    }
}

/// Accrual never takes anything away: the global reward a settlement
/// folds into the pool's `pre_reward` is non-negative, so `pre_reward`
/// is monotonically non-decreasing between settlements; the same holds
/// of every account's claim.
pub proof fn lemma_accrual_nonneg(c: StakingContract, a: Account, current_block: BlockHeight)
    requires
        c.config.wf(),
        !c.paused ==> current_block >= c.last_block_balance_change,
        !c.paused ==> current_block >= a.last_block_balance_change,
    ensures
        c.spec_global_reward(current_block) >= 0,
        c.spec_account_reward(a, current_block) >= 0,
{
    if !c.paused {
        lemma_reward_nonneg(
            c.total_stake_balance as int,
            c.config.reward_numerator as int,
            c.config.reward_denominator as int,
            current_block - c.last_block_balance_change,
        );
        lemma_reward_nonneg(
            a.stake_balance as int,
            c.config.reward_numerator as int,
            c.config.reward_denominator as int,
            current_block - a.last_block_balance_change,
        );
    }
}

/// Idempotence of queries: the reward query is a pure function of the
/// ledger, so two evaluations with no intervening mutating operation
/// return identical results.
pub proof fn lemma_query_idempotent(
    c: StakingContract,
    a: Account,
    current_block: BlockHeight,
    r1: int,
    r2: int,
)
    requires
        r1 == a.pre_reward + c.spec_account_reward(a, current_block),
        r2 == a.pre_reward + c.spec_account_reward(a, current_block),
    ensures
        r1 == r2,
{
}

/// No double payment: an account settled at `current_block` accrues
/// nothing further at `current_block`, so settling twice in a row without
/// new elapsed time yields zero additional reward.
pub proof fn lemma_no_double_payment(c: StakingContract, a: Account, current_block: BlockHeight)
    requires
        c.config.wf(),
    ensures
        c.spec_account_reward(c.spec_settled_account(a, current_block), current_block) == 0,
{
    if !c.paused {
        lemma_reward_zero_elapsed(
            a.stake_balance as int,
            c.config.reward_numerator as int,
            c.config.reward_denominator as int,
        );
    }
}

/// No double payment, pool side: once the pool's accrual anchor stands at
/// `current_block`, the global reward at `current_block` is zero.
pub proof fn lemma_no_double_global_settlement(c: StakingContract, current_block: BlockHeight)
    requires
        c.config.wf(),
        c.last_block_balance_change == current_block,
    ensures
        c.spec_global_reward(current_block) == 0,
{
    if !c.paused {
        lemma_reward_zero_elapsed(
            c.total_stake_balance as int,
            c.config.reward_numerator as int,
            c.config.reward_denominator as int,
        );
    }
}

} // verus!
