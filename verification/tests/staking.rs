use staking_contract::account::{Account, UNBONDING_PERIOD};
use staking_contract::config::Config;
use staking_contract::core_impl::FungibleTokenReceiver;
use staking_contract::errors::StakingError;
use staking_contract::reward::{check_reward_fits, compute_reward};
use staking_contract::util::is_one_yocto;
use staking_contract::StakingContract;

fn test_config() -> Config {
    Config { reward_numerator: 500, reward_denominator: 100000 }
}

/// A pool at block 100 with one registered account, "alice".
fn pool_with_alice() -> StakingContract {
    let mut contract = StakingContract::new(
        "owner".to_string(),
        "ft_contract".to_string(),
        test_config(),
        100,
    );
    contract
        .internal_register_account("alice".to_string(), 100)
        .unwrap();
    contract
}

#[test]
fn test_init_contract() {
    let config = Config { reward_numerator: 500, reward_denominator: 100000 };

    let contract = StakingContract::new("alice".to_string(), "ft_contract".to_string(), config, 0);

    assert_eq!(contract.owner_id, "alice".to_string());
    assert_eq!(contract.ft_contract_id, "ft_contract".to_string());
    assert_eq!(config.reward_numerator, contract.config.reward_numerator);
    assert_eq!(config.reward_denominator, contract.config.reward_denominator);
    assert_eq!(contract.is_paused(), false);
}

#[test]
fn test_default_config() {
    let config = Config::default();
    assert_eq!(config.reward_numerator, 500);
    assert_eq!(config.reward_denominator, 100000);
}

#[test]
fn test_new_default_config() {
    let contract =
        StakingContract::new_default_config("owner".to_string(), "ft_contract".to_string(), 7);
    assert_eq!(contract.config, Config::default());
    assert_eq!(contract.last_block_balance_change, 7);
    assert_eq!(contract.total_stakers, 0);
}

#[test]
fn test_single_staker_reward_scenario() {
    // rate 500/100000 (0.5%) per block; deposit 1,000,000; 10 blocks later
    // the global reward is 1,000,000 * 500 * 10 / 100000 = 50,000 and the
    // sole staker's claim is all of it.
    let mut contract = pool_with_alice();
    contract
        .internal_deposit_and_stake("alice".to_string(), 1_000_000, 100)
        .unwrap();

    assert_eq!(contract.calculate_global_reward(110), 50_000);
    assert_eq!(contract.get_account_reward("alice".to_string(), 110), 50_000);

    let pool = contract.get_pool_info(110);
    assert_eq!(pool.total_stake_balance, 1_000_000);
    assert_eq!(pool.total_reward, 50_000);
    assert_eq!(pool.total_stakers, 1);

    // Settlement (a zero reward withdrawal settles) moves the claim into
    // the account's pre_reward without changing its size.
    contract
        .withdraw_reward("alice".to_string(), 0, 110)
        .unwrap();
    assert_eq!(contract.get_account_reward("alice".to_string(), 110), 50_000);
}

#[test]
fn test_two_stakers_proportional_reward() {
    // stakes 300,000 and 700,000; after the same 10 blocks the 50,000
    // pool accrual splits 15,000 / 35,000, proportional and truncated.
    let mut contract = pool_with_alice();
    contract
        .internal_register_account("bob".to_string(), 100)
        .unwrap();
    contract
        .internal_deposit_and_stake("alice".to_string(), 300_000, 100)
        .unwrap();
    contract
        .internal_deposit_and_stake("bob".to_string(), 700_000, 100)
        .unwrap();

    assert_eq!(contract.get_account_reward("alice".to_string(), 110), 15_000);
    assert_eq!(contract.get_account_reward("bob".to_string(), 110), 35_000);
    assert_eq!(contract.calculate_global_reward(110), 50_000);
}

#[test]
fn test_query_idempotent() {
    let mut contract = pool_with_alice();
    contract
        .internal_deposit_and_stake("alice".to_string(), 1_000_000, 100)
        .unwrap();
    let first = contract.get_account_reward("alice".to_string(), 110);
    let second = contract.get_account_reward("alice".to_string(), 110);
    assert_eq!(first, second);
    let pool_first = contract.get_pool_info(110);
    let pool_second = contract.get_pool_info(110);
    assert_eq!(pool_first, pool_second);
}

#[test]
fn test_no_double_settlement() {
    let mut contract = pool_with_alice();
    contract
        .internal_deposit_and_stake("alice".to_string(), 1_000_000, 100)
        .unwrap();

    contract
        .withdraw_reward("alice".to_string(), 0, 110)
        .unwrap();
    let after_first = contract.get_account_reward("alice".to_string(), 110);
    assert_eq!(after_first, 50_000);

    // Settling again with no elapsed time yields zero additional reward.
    contract
        .withdraw_reward("alice".to_string(), 0, 110)
        .unwrap();
    let after_second = contract.get_account_reward("alice".to_string(), 110);
    assert_eq!(after_second, 50_000);
}

#[test]
fn test_pause_enforcement() {
    let mut contract = pool_with_alice();
    contract
        .internal_deposit_and_stake("alice".to_string(), 1_000_000, 100)
        .unwrap();
    assert!(contract.pause_ready(110));
    contract.pause(110);

    assert!(contract.is_paused());
    assert_eq!(contract.calculate_global_reward(120), 0);
    assert_eq!(
        contract.internal_deposit_and_stake("alice".to_string(), 1, 120),
        Err(StakingError::Paused)
    );
    assert_eq!(
        contract.unstake("alice".to_string(), 1, 120, 0, 12),
        Err(StakingError::Paused)
    );
}

#[test]
fn test_pause_settles_and_unpause_excises_the_gap() {
    let mut contract = pool_with_alice();
    contract
        .internal_deposit_and_stake("alice".to_string(), 1_000_000, 100)
        .unwrap();

    // Pausing at block 110 settles the 50,000 accrued so far.
    contract.pause(110);
    assert_eq!(contract.get_account_reward("alice".to_string(), 110), 50_000);
    assert_eq!(contract.pause_in_block, 110);

    // While paused nothing accrues, however late the query.
    assert_eq!(contract.get_account_reward("alice".to_string(), 500), 50_000);

    // After unpausing at 120, accrual restarts there: ten more blocks
    // earn another 50,000, and the paused span 110..120 earns nothing.
    contract.unpause(120);
    assert_eq!(contract.get_account_reward("alice".to_string(), 130), 100_000);
}

#[test]
fn test_lock_enforcement() {
    let mut contract = pool_with_alice();
    contract
        .internal_deposit_and_stake("alice".to_string(), 1_000_000, 100)
        .unwrap();

    // Unstake at epoch 5: the lock expires at epoch 5 + UNBONDING_PERIOD.
    contract
        .unstake("alice".to_string(), 400_000, 110, 777, 5)
        .unwrap();
    let unlock_epoch = 5 + UNBONDING_PERIOD;

    let info = contract.get_account_info("alice".to_string(), 110, 5);
    assert_eq!(info.stake_balance, 600_000);
    assert_eq!(info.unstake_balance, 400_000);
    assert_eq!(info.unstake_start_timestamp, 777);
    assert_eq!(info.unstake_available_epoch, unlock_epoch);
    assert_eq!(info.can_withdraw, false);

    // Withdrawing before the unbonding epoch fails with StillLocked.
    assert_eq!(
        contract.withdraw("alice".to_string(), unlock_epoch - 1),
        Err(StakingError::StillLocked)
    );

    // At the unbonding epoch it succeeds and zeroes the locked balance.
    assert_eq!(contract.withdraw("alice".to_string(), unlock_epoch), Ok(400_000));
    let info = contract.get_account_info("alice".to_string(), 110, unlock_epoch);
    assert_eq!(info.unstake_balance, 0);
    assert_eq!(info.can_withdraw, true);

    // Nothing left to withdraw.
    assert_eq!(
        contract.withdraw("alice".to_string(), unlock_epoch),
        Err(StakingError::InsufficientFunds)
    );
}

#[test]
fn test_unstake_merges_inflight_lock() {
    let mut contract = pool_with_alice();
    contract
        .internal_deposit_and_stake("alice".to_string(), 1_000_000, 100)
        .unwrap();

    contract
        .unstake("alice".to_string(), 100_000, 105, 10, 5)
        .unwrap();
    contract
        .unstake("alice".to_string(), 200_000, 106, 20, 7)
        .unwrap();

    // Amounts add up; the later unlock epoch wins.
    let info = contract.get_account_info("alice".to_string(), 106, 7);
    assert_eq!(info.unstake_balance, 300_000);
    assert_eq!(info.unstake_available_epoch, 7 + UNBONDING_PERIOD);
    assert_eq!(info.unstake_start_timestamp, 20);
}

#[test]
fn test_unstake_insufficient_funds() {
    let mut contract = pool_with_alice();
    contract
        .internal_deposit_and_stake("alice".to_string(), 1_000, 100)
        .unwrap();
    assert_eq!(
        contract.unstake("alice".to_string(), 1_001, 110, 0, 5),
        Err(StakingError::InsufficientFunds)
    );
}

#[test]
fn test_first_deposit_registers_account() {
    // An account is created on first deposit: the deposit registers the
    // identity with a fresh record holding exactly the deposited stake.
    let mut contract = StakingContract::new(
        "owner".to_string(),
        "ft_contract".to_string(),
        test_config(),
        100,
    );
    contract
        .internal_deposit_and_stake("carol".to_string(), 500_000, 100)
        .unwrap();
    assert_eq!(contract.total_stakers, 1);
    assert_eq!(contract.storage_balance_of("carol".to_string()), 1);
    assert_eq!(contract.total_stake_balance, 500_000);

    let info = contract.get_account_info("carol".to_string(), 100, 0);
    assert_eq!(info.stake_balance, 500_000);
    assert_eq!(info.unstake_balance, 0);
    assert_eq!(info.reward, 0);

    // A second deposit stakes for the existing record: no new staker.
    contract
        .internal_deposit_and_stake("carol".to_string(), 1_000, 110)
        .unwrap();
    assert_eq!(contract.total_stakers, 1);
    assert_eq!(contract.total_stake_balance, 501_000);
}

#[test]
fn test_operations_on_unknown_account() {
    let mut contract = pool_with_alice();
    assert_eq!(
        contract.unstake("carol".to_string(), 1, 100, 0, 5),
        Err(StakingError::AccountNotFound)
    );
    assert_eq!(
        contract.withdraw("carol".to_string(), 5),
        Err(StakingError::AccountNotFound)
    );
    assert_eq!(
        contract.withdraw_reward("carol".to_string(), 1, 100),
        Err(StakingError::AccountNotFound)
    );
    assert_eq!(
        contract.revert_withdraw("carol".to_string(), 1),
        Err(StakingError::AccountNotFound)
    );
    assert_eq!(
        contract.revert_withdraw_reward("carol".to_string(), 1),
        Err(StakingError::AccountNotFound)
    );
}

#[test]
fn test_conservation_of_stakes() {
    let mut contract = pool_with_alice();
    contract
        .internal_register_account("bob".to_string(), 100)
        .unwrap();
    contract
        .internal_deposit_and_stake("alice".to_string(), 300_000, 100)
        .unwrap();
    contract
        .internal_deposit_and_stake("bob".to_string(), 700_000, 101)
        .unwrap();
    contract
        .unstake("alice".to_string(), 50_000, 102, 0, 5)
        .unwrap();
    contract.withdraw("alice".to_string(), 6).unwrap();

    let total: u128 = contract
        .accounts
        .iter()
        .map(|entry| entry.account.stake_balance)
        .sum();
    assert_eq!(contract.total_stake_balance, total);
    assert_eq!(contract.total_stake_balance, 950_000);
    assert_eq!(contract.total_stakers, 2);
}

#[test]
fn test_withdraw_and_revert_restores_balance() {
    let mut contract = pool_with_alice();
    contract
        .internal_deposit_and_stake("alice".to_string(), 1_000_000, 100)
        .unwrap();
    contract
        .unstake("alice".to_string(), 400_000, 110, 0, 5)
        .unwrap();

    let released = contract.withdraw("alice".to_string(), 6).unwrap();
    assert_eq!(released, 400_000);

    // The external transfer failed: the compensating action restores the
    // locked balance instead of losing it.
    contract
        .revert_withdraw("alice".to_string(), released)
        .unwrap();
    let info = contract.get_account_info("alice".to_string(), 110, 6);
    assert_eq!(info.unstake_balance, 400_000);
}

#[test]
fn test_withdraw_reward_and_revert() {
    let mut contract = pool_with_alice();
    contract
        .internal_deposit_and_stake("alice".to_string(), 1_000_000, 100)
        .unwrap();

    assert!(contract.withdraw_reward_ready(&"alice".to_string(), 20_000, 110));
    contract
        .withdraw_reward("alice".to_string(), 20_000, 110)
        .unwrap();
    assert_eq!(contract.get_account_reward("alice".to_string(), 110), 30_000);
    assert_eq!(contract.total_paid_reward_balance, 20_000);

    // More than the settled claim is rejected without touching anything.
    assert_eq!(
        contract.withdraw_reward("alice".to_string(), 30_001, 110),
        Err(StakingError::InsufficientFunds)
    );
    assert_eq!(contract.get_account_reward("alice".to_string(), 110), 30_000);

    // The external payout failed: restore the claim.
    contract
        .revert_withdraw_reward("alice".to_string(), 20_000)
        .unwrap();
    assert_eq!(contract.get_account_reward("alice".to_string(), 110), 50_000);
    assert_eq!(contract.total_paid_reward_balance, 0);
}

#[test]
fn test_ft_on_transfer_accepts_whole_deposit() {
    let mut contract = pool_with_alice();
    let refused = contract
        .ft_on_transfer("alice".to_string(), 250_000, "stake".to_string(), 100)
        .unwrap();
    assert_eq!(refused, 0);
    assert_eq!(contract.total_stake_balance, 250_000);

    // A transfer from an unknown sender registers it and stakes the
    // whole amount.
    let refused = contract
        .ft_on_transfer("dave".to_string(), 100, "stake".to_string(), 100)
        .unwrap();
    assert_eq!(refused, 0);
    assert_eq!(contract.total_stakers, 2);
    assert_eq!(contract.total_stake_balance, 250_100);
}

#[test]
fn test_ft_on_transfer_rejected_while_paused() {
    let mut contract = pool_with_alice();
    contract.pause(100);
    assert_eq!(
        contract.ft_on_transfer("alice".to_string(), 1, "stake".to_string(), 100),
        Err(StakingError::Paused)
    );
}

#[test]
fn test_storage_deposit_registers_and_refunds() {
    let mut contract = StakingContract::new(
        "owner".to_string(),
        "ft_contract".to_string(),
        test_config(),
        100,
    );

    // Nothing attached: rejected.
    assert_eq!(
        contract.storage_deposit("alice".to_string(), 0, 10, 100, 100),
        Err(StakingError::InsufficientDeposit)
    );

    // Attached below the storage cost (10 per byte, 100 bytes): rejected.
    assert_eq!(
        contract.storage_deposit("alice".to_string(), 999, 10, 100, 100),
        Err(StakingError::InsufficientDeposit)
    );
    assert_eq!(contract.storage_balance_of("alice".to_string()), 0);

    // Enough attached: registered, excess refunded.
    assert_eq!(
        contract.storage_deposit("alice".to_string(), 1_500, 10, 100, 100),
        Ok(500)
    );
    assert_eq!(contract.storage_balance_of("alice".to_string()), 1);
    assert_eq!(contract.total_stakers, 1);

    // Registering again refunds the whole attachment and changes nothing.
    assert_eq!(
        contract.storage_deposit("alice".to_string(), 1_500, 10, 100, 100),
        Ok(1_500)
    );
    assert_eq!(contract.total_stakers, 1);
}

#[test]
fn test_register_twice_rejected() {
    let mut contract = pool_with_alice();
    assert_eq!(
        contract.internal_register_account("alice".to_string(), 101),
        Err(StakingError::AlreadyRegistered)
    );
}

#[test]
fn test_reward_formula_exact_values() {
    // 1,000,000 * 500 * 10 / 100000 = 50,000
    assert_eq!(compute_reward(1_000_000, 500, 100000, 10), 50_000);
    // Truncating division: 3 * 1 * 1 / 2 = 1, the remainder is forfeited.
    assert_eq!(compute_reward(3, 1, 2, 1), 1);
    // Any zero factor earns nothing.
    assert_eq!(compute_reward(0, 500, 100000, 10), 0);
    assert_eq!(compute_reward(1_000_000, 500, 100000, 0), 0);
}

#[test]
fn test_check_reward_fits() {
    assert!(check_reward_fits(1_000_000, 500, 10));
    assert!(!check_reward_fits(u128::MAX, 2, 1));
    // A zero factor always fits: the product is zero.
    assert!(check_reward_fits(u128::MAX, 2, 0));
}

#[test]
fn test_calculate_account_reward_standalone() {
    let contract = pool_with_alice();
    let account = Account {
        stake_balance: 300_000,
        pre_reward: 0,
        last_block_balance_change: 100,
        unstake_balance: 0,
        unstake_start_timestamp: 0,
        unstake_available_epoch: 0,
    };
    assert_eq!(contract.calculate_account_reward(&account, 110), 15_000);
}

#[test]
fn test_ready_predicates() {
    let mut contract = pool_with_alice();
    contract
        .internal_deposit_and_stake("alice".to_string(), 1_000_000, 100)
        .unwrap();
    assert!(contract.deposit_ready(&"alice".to_string(), 1, 110));
    assert!(contract.unstake_ready(&"alice".to_string(), 1, 110, 5));
    assert!(contract.withdraw_reward_ready(&"alice".to_string(), 0, 110));
    assert!(contract.revert_withdraw_ready(&"alice".to_string(), 1));
    // Nothing was paid out yet, so nothing can flow back.
    assert!(!contract.revert_withdraw_reward_ready(&"alice".to_string(), 1));
    // With a locked unit in place, restoring the maximum would overflow.
    contract.unstake("alice".to_string(), 1, 110, 0, 5).unwrap();
    assert!(!contract.revert_withdraw_ready(&"alice".to_string(), u128::MAX));
    // A query earlier than the accrual anchor cannot be evaluated.
    assert!(!contract.deposit_ready(&"alice".to_string(), 1, 99));
}

#[test]
fn test_is_one_yocto() {
    assert!(is_one_yocto(1));
    assert!(!is_one_yocto(0));
    assert!(!is_one_yocto(2));
}
