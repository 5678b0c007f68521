//! The records of a deployment and the holders of value around it.

use anchor_lang::prelude::Pubkey;
use vstd::prelude::*;

verus! {

/// The control record: who owns the pool, and whether distribution is
/// switched off. It exists from initialization on and is never removed.
#[derive(Clone, Copy, Debug, PartialEq, Eq)]
pub struct State {
    pub is_paused: bool,
    pub owner: Pubkey,
}

/// The pool record: the value the pool holds now, and the sum of everything
/// it has ever paid out. `balance` is the only account of what the pool
/// holds; nothing mirrors it.
#[derive(Clone, Copy, Debug, PartialEq, Eq)]
pub struct RewardPoolAccount {
    pub balance: u64,
    pub total_distributed: u64,
}

/// An identity together with the value it holds: a depositor or a recipient.
#[derive(Clone, Copy, Debug, PartialEq, Eq)]
pub struct Wallet {
    pub key: Pubkey,
    pub balance: u64,
}

} // verus!
