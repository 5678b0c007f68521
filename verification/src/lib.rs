//! An access-controlled reward-pool ledger: one pooled balance, one owner,
//! and a pause switch that gates distribution.
//!
//! The handlers in [`handlers`] are the only way to change the records of a
//! deployment. Each takes the accounts of one call, checks the caller and
//! the state before it touches anything, and answers with the notification
//! of what it has done or with the reason why it has done nothing.

pub mod accounts;
pub mod deployment;
pub mod error;
pub mod events;
pub mod handlers;
pub mod identity;
pub mod laws;
pub mod records;

pub use accounts::{
    DepositToRewardPool, DistributeReward, Initialize, TogglePause, TransferOwnership,
};
pub use error::{ErrorCode, InitError, TransferError};
pub use events::{DepositMade, Paused, RewardDistributed, Unpaused};
pub use handlers::{
    deposit_to_reward_pool, distribute_reward, initialize, pause, transfer_ownership, unpause,
};
pub use identity::require_identity;
pub use records::{RewardPoolAccount, State, Wallet};
