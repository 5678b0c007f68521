//! What holds of the ledger whatever the inputs: the laws that its users
//! may rely on, each proved from the outcomes that the handlers are proved
//! to have.

use crate::accounts::{DepositToRewardPool, DistributeReward, TogglePause, TransferOwnership};
use crate::deployment::{Deployment, Operation};
use crate::error::{ErrorCode, TransferError};
use crate::events::{DepositMade, Paused, RewardDistributed, Unpaused};
use crate::records::{State, Wallet};
use anchor_lang::prelude::Pubkey;
use vstd::prelude::*;

verus! {

/// A request to change the owner that comes from anyone but the owner is
/// turned down as `Unauthorized`, whoever was to be the new owner, and the
/// owner stays who it was.
pub proof fn transfer_by_non_owner_is_rejected(ctx: TransferOwnership, new_owner: Pubkey)
    requires
        ctx.admin != ctx.state.owner,
    ensures
        ctx.transfer() == Err::<(), ErrorCode>(ErrorCode::Unauthorized),
        ctx.after_transfer(new_owner).state.owner == ctx.state.owner,
        ctx.after_transfer(new_owner) == ctx,
{
}

/// The owner's request to change the owner succeeds, with any key as the
/// new owner, and changes nothing but the owner.
pub proof fn transfer_by_owner_replaces_owner(ctx: TransferOwnership, new_owner: Pubkey)
    requires
        ctx.admin == ctx.state.owner,
    ensures
        ctx.transfer() == Ok::<(), ErrorCode>(()),
        ctx.after_transfer(new_owner).state.owner == new_owner,
        ctx.after_transfer(new_owner).state.is_paused == ctx.state.is_paused,
        ctx.after_transfer(new_owner).admin == ctx.admin,
{
}

/// While distribution is switched on, the owner's request to pay out an
/// amount that the pool holds, and that the running total has room for,
/// succeeds: the pool has exactly that much less, the recipient exactly
/// that much more, and the running total has grown by exactly that much.
pub proof fn distribution_within_balance_pays_exactly(ctx: DistributeReward, amount: u64)
    requires
        ctx.recipient_has_room(amount),
        ctx.admin == ctx.state.owner,
        !ctx.state.is_paused,
        amount <= ctx.reward_pool.balance,
        ctx.reward_pool.total_distributed + amount <= u64::MAX,
    ensures
        ctx.distribution(amount) == Ok::<RewardDistributed, ErrorCode>(
            RewardDistributed { admin: ctx.admin, recipient: ctx.recipient.key, amount },
        ),
        ctx.after_distribution(amount).reward_pool.balance == ctx.reward_pool.balance - amount,
        ctx.after_distribution(amount).recipient.balance == ctx.recipient.balance + amount,
        ctx.after_distribution(amount).reward_pool.total_distributed
            == ctx.reward_pool.total_distributed + amount,
        ctx.after_distribution(amount).state == ctx.state,
        ctx.after_distribution(amount).recipient.key == ctx.recipient.key,
        ctx.after_distribution(amount).admin == ctx.admin,
{
}

/// A request to pay out more than the pool holds fails, whoever makes it,
/// and changes no balance and nothing else. Made by the owner while
/// distribution is switched on, it fails as `InsufficientFunds`.
pub proof fn distribution_beyond_balance_is_rejected(ctx: DistributeReward, amount: u64)
    requires
        amount > ctx.reward_pool.balance,
    ensures
        ctx.distribution(amount) is Err,
        ctx.after_distribution(amount) == ctx,
        ctx.admin == ctx.state.owner && !ctx.state.is_paused ==> ctx.distribution(amount) == Err::<
            RewardDistributed,
            ErrorCode,
        >(ErrorCode::InsufficientFunds),
{
}

/// While distribution is switched off, every request to pay out fails,
/// whatever the amount and whatever the pool holds, and changes nothing.
/// The owner's request fails as `DistributionPaused`.
pub proof fn distribution_while_paused_is_rejected(ctx: DistributeReward, amount: u64)
    requires
        ctx.state.is_paused,
    ensures
        ctx.distribution(amount) is Err,
        ctx.after_distribution(amount) == ctx,
        ctx.admin == ctx.state.owner ==> ctx.distribution(amount) == Err::<
            RewardDistributed,
            ErrorCode,
        >(ErrorCode::DistributionPaused),
{
}

/// A request to pay out that fails, for whatever reason, leaves the
/// accounts as they were.
pub proof fn failed_distribution_changes_nothing(ctx: DistributeReward, amount: u64)
    requires
        ctx.distribution(amount) is Err,
    ensures
        ctx.after_distribution(amount) == ctx,
{
}

/// Where the pool and the recipient together hold no more than a `u64` can
/// count, the recipient has room for every payout that is granted, the
/// payout moves value without making or losing any, and the two still hold
/// no more than a `u64` can count afterwards.
pub proof fn distribution_conserves_value(ctx: DistributeReward, amount: u64)
    requires
        ctx.supply_fits(),
    ensures
        ctx.recipient_has_room(amount),
        ctx.after_distribution(amount).reward_pool.balance + ctx.after_distribution(
            amount,
        ).recipient.balance == ctx.reward_pool.balance + ctx.recipient.balance,
        ctx.after_distribution(amount).supply_fits(),
{
}

/// A deposit of an amount that the depositor holds, and that the pool has
/// room for, succeeds: the pool has exactly that much more, the depositor
/// exactly that much less, and the running total is as it was.
pub proof fn deposit_adds_exactly(ctx: DepositToRewardPool, amount: u64)
    requires
        amount <= ctx.user.balance,
        ctx.reward_pool.balance + amount <= u64::MAX,
    ensures
        ctx.deposit(amount) == Ok::<DepositMade, TransferError>(
            DepositMade { user: ctx.user.key, amount },
        ),
        ctx.after_deposit(amount).reward_pool.balance == ctx.reward_pool.balance + amount,
        ctx.after_deposit(amount).user.balance == ctx.user.balance - amount,
        ctx.after_deposit(amount).reward_pool.total_distributed
            == ctx.reward_pool.total_distributed,
        ctx.after_deposit(amount).user.key == ctx.user.key,
{
}

/// A deposit is open to all: with the same balances, a depositor of any
/// other key gets the same answer, success for success and error for
/// error, and leaves the same pool behind.
pub proof fn deposit_asks_no_authorization(ctx: DepositToRewardPool, amount: u64, key: Pubkey)
    ensures
        ({
            let other = DepositToRewardPool {
                user: Wallet { key, balance: ctx.user.balance },
                reward_pool: ctx.reward_pool,
            };
            &&& other.deposit(amount) is Ok <==> ctx.deposit(amount) is Ok
            &&& other.deposit(amount) is Err ==> other.deposit(amount)->Err_0 == ctx.deposit(
                amount,
            )->Err_0
            &&& other.after_deposit(amount).reward_pool == ctx.after_deposit(amount).reward_pool
            &&& other.after_deposit(amount).user.balance == ctx.after_deposit(
                amount,
            ).user.balance
        }),
{
}

/// A deposit that fails leaves the accounts as they were; whether it fails
/// or not, it moves value without making or losing any.
pub proof fn deposit_conserves_value(ctx: DepositToRewardPool, amount: u64)
    ensures
        ctx.deposit(amount) is Err ==> ctx.after_deposit(amount) == ctx,
        ctx.after_deposit(amount).reward_pool.balance + ctx.after_deposit(amount).user.balance
            == ctx.reward_pool.balance + ctx.user.balance,
{
}

/// The owner may pause what is paused already: the first request and the
/// second both succeed, and after the second the accounts are as the first
/// left them, with distribution switched off.
pub proof fn pause_twice_is_pause_once(ctx: TogglePause)
    requires
        ctx.admin == ctx.state.owner,
    ensures
        ctx.pause() == Ok::<Paused, ErrorCode>(Paused { by: ctx.admin }),
        ctx.after_switch(true).state.is_paused,
        ctx.after_switch(true).pause() == ctx.pause(),
        ctx.after_switch(true).after_switch(true) == ctx.after_switch(true),
{
}

/// The owner may unpause what is active already: the first request and the
/// second both succeed, and after the second the accounts are as the first
/// left them, with distribution switched on.
pub proof fn unpause_twice_is_unpause_once(ctx: TogglePause)
    requires
        ctx.admin == ctx.state.owner,
    ensures
        ctx.unpause() == Ok::<Unpaused, ErrorCode>(Unpaused { by: ctx.admin }),
        !ctx.after_switch(false).state.is_paused,
        ctx.after_switch(false).unpause() == ctx.unpause(),
        ctx.after_switch(false).after_switch(false) == ctx.after_switch(false),
{
}

/// A request to switch the pause state that comes from anyone but the
/// owner is turned down as `Unauthorized`, either way, and changes nothing.
pub proof fn switch_by_non_owner_is_rejected(ctx: TogglePause, paused: bool)
    requires
        ctx.admin != ctx.state.owner,
    ensures
        ctx.pause() == Err::<Paused, ErrorCode>(ErrorCode::Unauthorized),
        ctx.unpause() == Err::<Unpaused, ErrorCode>(ErrorCode::Unauthorized),
        ctx.after_switch(paused) == ctx,
{
}

/// After a change of owner the new owner is the owner, and nobody else is:
/// the former owner keeps no authority, unless the pool was handed to the
/// former owner again.
pub proof fn ownership_passes_whole(ctx: TransferOwnership, new_owner: Pubkey, caller: Pubkey)
    requires
        ctx.admin == ctx.state.owner,
    ensures
        (TransferOwnership { state: ctx.after_transfer(new_owner).state, admin: caller }).transfer()
            is Ok <==> caller == new_owner,
        (TogglePause { state: ctx.after_transfer(new_owner).state, admin: caller }).authorized()
            <==> caller == new_owner,
{
}

/// The pause switch gates payouts and nothing else: a change of owner and
/// a switch of the pause state are answered alike whether distribution is
/// on or off. (A deposit is not even shown the switch.)
pub proof fn pause_gates_only_distribution(ctx: TogglePause)
    ensures
        ({
            let flipped = TogglePause {
                state: State { is_paused: !ctx.state.is_paused, owner: ctx.state.owner },
                admin: ctx.admin,
            };
            let handover = TransferOwnership { state: ctx.state, admin: ctx.admin };
            let flipped_handover = TransferOwnership { state: flipped.state, admin: ctx.admin };
            &&& flipped.pause() == ctx.pause()
            &&& flipped.unpause() == ctx.unpause()
            &&& flipped_handover.transfer() == handover.transfer()
        }),
{
}

/// A call that fails changes no record.
pub proof fn failed_operation_changes_nothing(deployment: Deployment, op: Operation)
    requires
        !deployment.accepts(op),
    ensures
        deployment.step(op) == deployment,
{
}

/// No call lowers the running total of what the pool has paid out, and
/// only a payout that succeeds raises it.
pub proof fn operation_never_lowers_total(deployment: Deployment, op: Operation)
    ensures
        deployment.step(op).total_distributed() >= deployment.total_distributed(),
        deployment.step(op).total_distributed() > deployment.total_distributed() ==> op is Distribute
            && deployment.accepts(op),
{
}

/// Over any run of calls, made against any records, the running total of
/// what the pool has paid out never goes down: after each longer part of
/// the run it is at least what it was after each shorter part.
pub proof fn total_distributed_never_decreases(
    deployment: Deployment,
    ops: Seq<Operation>,
    shorter: int,
    longer: int,
)
    requires
        0 <= shorter <= longer <= ops.len(),
    ensures
        deployment.run(ops.take(shorter)).total_distributed() <= deployment.run(
            ops.take(longer),
        ).total_distributed(),
    decreases longer - shorter,
{
    if shorter < longer {
        total_distributed_never_decreases(deployment, ops, shorter, longer - 1);
        assert(ops.take(longer).drop_last() == ops.take(longer - 1));
        operation_never_lowers_total(
            deployment.run(ops.take(longer - 1)),
            ops.take(longer).last(),
        );
    }
}

/// After any run of calls the pool has paid out, in total, at least what
/// it had paid out before the run.
pub proof fn run_never_lowers_total(deployment: Deployment, ops: Seq<Operation>)
    ensures
        deployment.run(ops).total_distributed() >= deployment.total_distributed(),
{
    total_distributed_never_decreases(deployment, ops, 0, ops.len() as int);
    assert(ops.take(ops.len() as int) == ops);
}

/// Once both records exist they stay: no run of calls removes one.
pub proof fn records_are_never_removed(deployment: Deployment, ops: Seq<Operation>)
    requires
        deployment.state is Some,
        deployment.reward_pool is Some,
    ensures
        deployment.run(ops).state is Some,
        deployment.run(ops).reward_pool is Some,
    decreases ops.len(),
{
    if ops.len() > 0 {
        records_are_never_removed(deployment, ops.drop_last());
    }
}

} // verus!
