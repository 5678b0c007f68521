//! A deployment over time: its two records, the calls that can be made
//! against them, and what a run of such calls leaves behind. Nothing here
//! is executed; it is the frame in which the laws about sequences of calls
//! are stated, built from the outcomes that the handlers are proved to have.

use crate::accounts::{
    DepositToRewardPool, DistributeReward, Initialize, TogglePause, TransferOwnership,
};
use crate::records::{RewardPoolAccount, State, Wallet};
use anchor_lang::prelude::Pubkey;
use vstd::prelude::*;

verus! {

/// The records of one deployment. Each is absent until the deployment is
/// initialized.
pub struct Deployment {
    pub state: Option<State>,
    pub reward_pool: Option<RewardPoolAccount>,
}

/// One call, with everything that the caller brings to it.
pub enum Operation {
    Initialize { payer: Pubkey, owner: Pubkey },
    TransferOwnership { admin: Pubkey, new_owner: Pubkey },
    Pause { admin: Pubkey },
    Unpause { admin: Pubkey },
    Deposit { user: Wallet, amount: u64 },
    Distribute { admin: Pubkey, recipient: Wallet, amount: u64 },
}

impl Deployment {
    /// What the pool has paid out so far; nothing, while there is no pool.
    pub open spec fn total_distributed(self) -> nat {
        match self.reward_pool {
            Some(pool) => pool.total_distributed as nat,
            None => 0,
        }
    }

    /// Whether `op` is answered with success. A call against a record that
    /// does not exist cannot be made, and counts as a failure.
    pub open spec fn accepts(self, op: Operation) -> bool {
        match op {
            Operation::Initialize { payer, owner } => {
                let ctx = Initialize { state: self.state, reward_pool: self.reward_pool, user: payer };
                ctx.initialization() is Ok
            },
            Operation::TransferOwnership { admin, new_owner } => match self.state {
                Some(state) => (TransferOwnership { state, admin }).transfer() is Ok,
                None => false,
            },
            Operation::Pause { admin } => match self.state {
                Some(state) => (TogglePause { state, admin }).pause() is Ok,
                None => false,
            },
            Operation::Unpause { admin } => match self.state {
                Some(state) => (TogglePause { state, admin }).unpause() is Ok,
                None => false,
            },
            Operation::Deposit { user, amount } => match self.reward_pool {
                Some(reward_pool) => (DepositToRewardPool { user, reward_pool }).deposit(amount) is Ok,
                None => false,
            },
            Operation::Distribute { admin, recipient, amount } => match (self.state, self.reward_pool) {
                (Some(state), Some(reward_pool)) => {
                    let ctx = DistributeReward { state, reward_pool, recipient, admin };
                    ctx.distribution(amount) is Ok
                },
                _ => false,
            },
        }
    }

    /// The records after `op`: those that the handler of `op` leaves behind
    /// when it is handed the records as they are. A call against a record
    /// that does not exist leaves everything as it is.
    pub open spec fn step(self, op: Operation) -> Deployment {
        match op {
            Operation::Initialize { payer, owner } => {
                let ctx = Initialize { state: self.state, reward_pool: self.reward_pool, user: payer };
                let after = ctx.after_initialization(owner);
                Deployment { state: after.state, reward_pool: after.reward_pool }
            },
            Operation::TransferOwnership { admin, new_owner } => match self.state {
                Some(state) => {
                    let after = (TransferOwnership { state, admin }).after_transfer(new_owner);
                    Deployment { state: Some(after.state), reward_pool: self.reward_pool }
                },
                None => self,
            },
            Operation::Pause { admin } => match self.state {
                Some(state) => {
                    let after = (TogglePause { state, admin }).after_switch(true);
                    Deployment { state: Some(after.state), reward_pool: self.reward_pool }
                },
                None => self,
            },
            Operation::Unpause { admin } => match self.state {
                Some(state) => {
                    let after = (TogglePause { state, admin }).after_switch(false);
                    Deployment { state: Some(after.state), reward_pool: self.reward_pool }
                },
                None => self,
            },
            Operation::Deposit { user, amount } => match self.reward_pool {
                Some(reward_pool) => {
                    let after = (DepositToRewardPool { user, reward_pool }).after_deposit(amount);
                    Deployment { state: self.state, reward_pool: Some(after.reward_pool) }
                },
                None => self,
            },
            Operation::Distribute { admin, recipient, amount } => match (self.state, self.reward_pool) {
                (Some(state), Some(reward_pool)) => {
                    let ctx = DistributeReward { state, reward_pool, recipient, admin };
                    let after = ctx.after_distribution(amount);
                    Deployment { state: self.state, reward_pool: Some(after.reward_pool) }
                },
                _ => self,
            },
        }
    }

    /// The records after the calls of `ops`, made one after another.
    pub open spec fn run(self, ops: Seq<Operation>) -> Deployment
        decreases ops.len(),
    {
        if ops.len() == 0 {
            self
        } else {
            self.run(ops.drop_last()).step(ops.last())
        }
    }
}

} // verus!
