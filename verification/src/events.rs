//! Notifications of completed changes. A handler returns the notification
//! of what it has done; delivering it is the caller's business, and nothing
//! in the ledger depends on whether it arrives.

use anchor_lang::prelude::Pubkey;
use vstd::prelude::*;

verus! {

/// Distribution was switched off.
#[derive(Clone, Copy, Debug, PartialEq, Eq)]
pub struct Paused {
    pub by: Pubkey,
}

/// Distribution was switched on again.
#[derive(Clone, Copy, Debug, PartialEq, Eq)]
pub struct Unpaused {
    pub by: Pubkey,
}

/// Value was added to the pool.
#[derive(Clone, Copy, Debug, PartialEq, Eq)]
pub struct DepositMade {
    pub user: Pubkey,
    pub amount: u64,
}

/// Value was paid out of the pool.
#[derive(Clone, Copy, Debug, PartialEq, Eq)]
pub struct RewardDistributed {
    pub admin: Pubkey,
    pub recipient: Pubkey,
    pub amount: u64,
}

} // verus!
