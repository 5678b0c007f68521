use anchor_lang::prelude::Pubkey;
use beehive::{
    deposit_to_reward_pool, distribute_reward, DepositMade, DepositToRewardPool, DistributeReward,
    ErrorCode, RewardDistributed, RewardPoolAccount, State, TransferError, Wallet,
};

fn pool_key(tag: u8) -> Pubkey {
    Pubkey::new_from_array([tag; 32])
}

fn payout_accounts(paused: bool, pool_balance: u64, paid_so_far: u64, admin: u8) -> DistributeReward {
    DistributeReward {
        state: State { is_paused: paused, owner: pool_key(1) },
        reward_pool: RewardPoolAccount { balance: pool_balance, total_distributed: paid_so_far },
        recipient: Wallet { key: pool_key(3), balance: 25 },
        admin: pool_key(admin),
    }
}

#[test]
fn deposit_moves_exactly_the_amount() {
    let user = pool_key(2);
    let mut ctx = DepositToRewardPool {
        user: Wallet { key: user, balance: 300 },
        reward_pool: RewardPoolAccount { balance: 11, total_distributed: 4 },
    };
    assert_eq!(deposit_to_reward_pool(&mut ctx, 120), Ok(DepositMade { user, amount: 120 }));
    assert_eq!(ctx.reward_pool, RewardPoolAccount { balance: 131, total_distributed: 4 });
    assert_eq!(ctx.user, Wallet { key: user, balance: 180 });
}

#[test]
fn deposit_is_open_to_any_key() {
    for tag in [0u8, 1, 2, 200, 255] {
        let user = pool_key(tag);
        let mut ctx = DepositToRewardPool {
            user: Wallet { key: user, balance: 10 },
            reward_pool: RewardPoolAccount { balance: 5, total_distributed: 0 },
        };
        assert_eq!(deposit_to_reward_pool(&mut ctx, 10), Ok(DepositMade { user, amount: 10 }));
        assert_eq!(ctx.reward_pool.balance, 15);
        assert_eq!(ctx.user.balance, 0);
    }
}

#[test]
fn deposit_of_nothing_changes_nothing() {
    let user = pool_key(2);
    let before = DepositToRewardPool {
        user: Wallet { key: user, balance: 0 },
        reward_pool: RewardPoolAccount { balance: u64::MAX, total_distributed: 8 },
    };
    let mut ctx = before;
    assert_eq!(deposit_to_reward_pool(&mut ctx, 0), Ok(DepositMade { user, amount: 0 }));
    assert_eq!(ctx, before);
}

#[test]
fn deposit_beyond_the_depositors_funds_fails() {
    let before = DepositToRewardPool {
        user: Wallet { key: pool_key(2), balance: 99 },
        reward_pool: RewardPoolAccount { balance: 1, total_distributed: 0 },
    };
    let mut ctx = before;
    assert_eq!(
        deposit_to_reward_pool(&mut ctx, 100),
        Err(TransferError::InsufficientSourceFunds)
    );
    assert_eq!(ctx, before);
}

#[test]
fn deposit_that_the_pool_cannot_hold_fails() {
    let before = DepositToRewardPool {
        user: Wallet { key: pool_key(2), balance: 10 },
        reward_pool: RewardPoolAccount { balance: u64::MAX - 9, total_distributed: 0 },
    };
    let mut ctx = before;
    assert_eq!(deposit_to_reward_pool(&mut ctx, 10), Err(TransferError::DestinationOverflow));
    assert_eq!(ctx, before);
    assert_eq!(
        deposit_to_reward_pool(&mut ctx, 9),
        Ok(DepositMade { user: pool_key(2), amount: 9 })
    );
    assert_eq!(ctx.reward_pool.balance, u64::MAX);
    assert_eq!(ctx.user.balance, 1);
}

#[test]
fn deposit_lacking_funds_is_reported_before_overflow() {
    let before = DepositToRewardPool {
        user: Wallet { key: pool_key(2), balance: 1 },
        reward_pool: RewardPoolAccount { balance: u64::MAX, total_distributed: 0 },
    };
    let mut ctx = before;
    assert_eq!(deposit_to_reward_pool(&mut ctx, 2), Err(TransferError::InsufficientSourceFunds));
    assert_eq!(ctx, before);
}

#[test]
fn distribute_within_balance_pays_exactly() {
    let mut ctx = payout_accounts(false, 100, 40, 1);
    assert_eq!(
        distribute_reward(&mut ctx, 30),
        Ok(RewardDistributed { admin: pool_key(1), recipient: pool_key(3), amount: 30 })
    );
    assert_eq!(ctx.reward_pool, RewardPoolAccount { balance: 70, total_distributed: 70 });
    assert_eq!(ctx.recipient, Wallet { key: pool_key(3), balance: 55 });
    assert_eq!(ctx.state, State { is_paused: false, owner: pool_key(1) });
}

#[test]
fn distribute_of_the_whole_balance_empties_the_pool() {
    let mut ctx = payout_accounts(false, 100, 0, 1);
    assert!(distribute_reward(&mut ctx, 100).is_ok());
    assert_eq!(ctx.reward_pool, RewardPoolAccount { balance: 0, total_distributed: 100 });
    assert_eq!(ctx.recipient.balance, 125);
}

#[test]
fn distribute_of_nothing_is_granted_and_changes_nothing() {
    let before = payout_accounts(false, 0, 17, 1);
    let mut ctx = before;
    assert_eq!(
        distribute_reward(&mut ctx, 0),
        Ok(RewardDistributed { admin: pool_key(1), recipient: pool_key(3), amount: 0 })
    );
    assert_eq!(ctx, before);
}

#[test]
fn distribute_beyond_balance_is_insufficient_funds() {
    let before = payout_accounts(false, 100, 40, 1);
    let mut ctx = before;
    assert_eq!(distribute_reward(&mut ctx, 101), Err(ErrorCode::InsufficientFunds));
    assert_eq!(ctx, before);
    assert_eq!(distribute_reward(&mut ctx, u64::MAX), Err(ErrorCode::InsufficientFunds));
    assert_eq!(ctx, before);
}

#[test]
fn distribute_while_paused_fails_whatever_the_balance() {
    for amount in [0u64, 1, 100, 101, u64::MAX] {
        let before = payout_accounts(true, 100, 40, 1);
        let mut ctx = before;
        assert_eq!(distribute_reward(&mut ctx, amount), Err(ErrorCode::DistributionPaused));
        assert_eq!(ctx, before);
    }
}

#[test]
fn distribute_by_non_owner_is_unauthorized() {
    let before = payout_accounts(false, 100, 40, 2);
    let mut ctx = before;
    assert_eq!(distribute_reward(&mut ctx, 10), Err(ErrorCode::Unauthorized));
    assert_eq!(ctx, before);
}

#[test]
fn distribute_checks_the_caller_before_the_pause_switch() {
    let before = payout_accounts(true, 100, 40, 2);
    let mut ctx = before;
    assert_eq!(distribute_reward(&mut ctx, 1_000), Err(ErrorCode::Unauthorized));
    assert_eq!(ctx, before);
}

#[test]
fn distribute_that_would_overflow_the_total_is_insufficient_funds() {
    let before = payout_accounts(false, 100, u64::MAX - 9, 1);
    let mut ctx = before;
    assert_eq!(distribute_reward(&mut ctx, 10), Err(ErrorCode::InsufficientFunds));
    assert_eq!(ctx, before);
    assert!(distribute_reward(&mut ctx, 9).is_ok());
    assert_eq!(ctx.reward_pool, RewardPoolAccount { balance: 91, total_distributed: u64::MAX });
    assert_eq!(ctx.recipient.balance, 34);
}

#[test]
fn distribute_that_fails_leaves_a_full_recipient_untouched() {
    let mut ctx = payout_accounts(false, 5, 0, 1);
    ctx.recipient.balance = u64::MAX;
    let before = ctx;
    assert_eq!(distribute_reward(&mut ctx, 6), Err(ErrorCode::InsufficientFunds));
    assert_eq!(ctx, before);
    ctx.admin = pool_key(2);
    let before = ctx;
    assert_eq!(distribute_reward(&mut ctx, 5), Err(ErrorCode::Unauthorized));
    assert_eq!(ctx, before);
}
