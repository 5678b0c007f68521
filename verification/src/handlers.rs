//! The entry points of the ledger. Each one checks what it must before it
//! changes anything, and then either applies the whole change or none of it.

use crate::accounts::{
    DepositToRewardPool, DistributeReward, Initialize, TogglePause, TransferOwnership,
};
use crate::error::{ErrorCode, InitError, TransferError};
use crate::events::{DepositMade, Paused, RewardDistributed, Unpaused};
use crate::identity::require_identity;
use crate::records::{RewardPoolAccount, State};
use anchor_lang::prelude::Pubkey;
use vstd::prelude::*;

verus! {

/// Pays `amount` from the pool to the recipient, on the owner's request and
/// while distribution is switched on.
///
/// The answer and the accounts afterwards are exactly those of
/// [`DistributeReward::distribution`] and
/// [`DistributeReward::after_distribution`]: a request that fails leaves
/// every balance and the running total as they were. The one demand on the
/// caller is that a granted payout must not take the recipient's balance
/// past what a `u64` can count.
pub fn distribute_reward(ctx: &mut DistributeReward, amount: u64) -> (r: Result<
    RewardDistributed,
    ErrorCode,
>)
    requires
        old(ctx).recipient_has_room(amount),
    ensures
        r == old(ctx).distribution(amount),
        *final(ctx) == old(ctx).after_distribution(amount),
        r is Ok ==> final(ctx).reward_pool.balance == old(ctx).reward_pool.balance - amount,
        r is Ok ==> final(ctx).recipient.balance == old(ctx).recipient.balance + amount,
        r is Ok ==> final(ctx).reward_pool.total_distributed
            == old(ctx).reward_pool.total_distributed + amount,
        r is Err ==> *final(ctx) == *old(ctx),
        old(ctx).state.is_paused ==> r is Err,
        amount > old(ctx).reward_pool.balance ==> r is Err,
        final(ctx).reward_pool.total_distributed >= old(ctx).reward_pool.total_distributed,
{
    require_identity(&ctx.admin, &ctx.state.owner)?;
    if ctx.state.is_paused {
        return Err(ErrorCode::DistributionPaused);
    }
    let reward_pool_balance: u64 = ctx.reward_pool.balance;
    if reward_pool_balance < amount {
        return Err(ErrorCode::InsufficientFunds);
    }
    let total_distributed: u64 = match ctx.reward_pool.total_distributed.checked_add(amount) {
        Some(total) => total,
        None => {
            return Err(ErrorCode::InsufficientFunds);
        },
    };
    ctx.reward_pool.total_distributed = total_distributed;
    ctx.reward_pool.balance = reward_pool_balance - amount;
    ctx.recipient.balance = ctx.recipient.balance + amount;
    Ok(RewardDistributed { admin: ctx.admin, recipient: ctx.recipient.key, amount })
}

/// Pays `amount` from the depositor into the pool. Anyone may deposit: no
/// key is compared.
///
/// The answer and the accounts afterwards are exactly those of
/// [`DepositToRewardPool::deposit`] and
/// [`DepositToRewardPool::after_deposit`]: the whole amount moves, or
/// nothing does, and the running total stays as it was.
pub fn deposit_to_reward_pool(ctx: &mut DepositToRewardPool, amount: u64) -> (r: Result<
    DepositMade,
    TransferError,
>)
    ensures
        r == old(ctx).deposit(amount),
        *final(ctx) == old(ctx).after_deposit(amount),
        r is Ok ==> final(ctx).reward_pool.balance == old(ctx).reward_pool.balance + amount,
        r is Ok ==> final(ctx).user.balance == old(ctx).user.balance - amount,
        r is Err ==> *final(ctx) == *old(ctx),
        final(ctx).reward_pool.total_distributed == old(ctx).reward_pool.total_distributed,
{
    if ctx.user.balance < amount {
        return Err(TransferError::InsufficientSourceFunds);
    }
    let pool_balance: u64 = match ctx.reward_pool.balance.checked_add(amount) {
        Some(balance) => balance,
        None => {
            return Err(TransferError::DestinationOverflow);
        },
    };
    ctx.user.balance = ctx.user.balance - amount;
    ctx.reward_pool.balance = pool_balance;
    Ok(DepositMade { user: ctx.user.key, amount })
}

/// Switches distribution off, on the owner's request. The switch is set
/// whatever it was before: to pause what is paused already is accepted and
/// changes nothing.
pub fn pause(ctx: &mut TogglePause) -> (r: Result<Paused, ErrorCode>)
    ensures
        r == old(ctx).pause(),
        *final(ctx) == old(ctx).after_switch(true),
        r is Ok ==> final(ctx).state.is_paused,
        r is Err ==> *final(ctx) == *old(ctx),
{
    require_identity(&ctx.admin, &ctx.state.owner)?;
    ctx.state.is_paused = true;
    Ok(Paused { by: ctx.admin })
}

/// Switches distribution on, on the owner's request. The switch is set
/// whatever it was before: to unpause what is active already is accepted
/// and changes nothing.
pub fn unpause(ctx: &mut TogglePause) -> (r: Result<Unpaused, ErrorCode>)
    ensures
        r == old(ctx).unpause(),
        *final(ctx) == old(ctx).after_switch(false),
        r is Ok ==> !final(ctx).state.is_paused,
        r is Err ==> *final(ctx) == *old(ctx),
{
    require_identity(&ctx.admin, &ctx.state.owner)?;
    ctx.state.is_paused = false;
    Ok(Unpaused { by: ctx.admin })
}

/// Hands the pool to `new_owner`, on the owner's request. Any key is
/// accepted as the new owner, the present owner's own included.
pub fn transfer_ownership(ctx: &mut TransferOwnership, new_owner: Pubkey) -> (r: Result<
    (),
    ErrorCode,
>)
    ensures
        r == old(ctx).transfer(),
        *final(ctx) == old(ctx).after_transfer(new_owner),
        r is Ok ==> final(ctx).state.owner == new_owner,
        r is Err ==> *final(ctx) == *old(ctx),
{
    require_identity(&ctx.admin, &ctx.state.owner)?;
    ctx.state.owner = new_owner;
    Ok(())
}

/// Creates the two records of a deployment: the control record, owned by
/// `owner` and with distribution switched on, and an empty pool that has
/// paid out nothing. It works once: where either record exists already,
/// the call fails and both stay as they are.
pub fn initialize(ctx: &mut Initialize, owner: Pubkey) -> (r: Result<(), InitError>)
    ensures
        r == old(ctx).initialization(),
        *final(ctx) == old(ctx).after_initialization(owner),
        r is Ok ==> final(ctx).state == Some((State { is_paused: false, owner })),
        r is Ok ==> final(ctx).reward_pool == Some(
            (RewardPoolAccount { balance: 0, total_distributed: 0 }),
        ),
        r is Err ==> *final(ctx) == *old(ctx),
{
    if ctx.state.is_some() || ctx.reward_pool.is_some() {
        return Err(InitError::AlreadyInitialized);
    }
    ctx.state = Some(State { is_paused: false, owner });
    ctx.reward_pool = Some(RewardPoolAccount { balance: 0, total_distributed: 0 });
    Ok(())
}

} // verus!
