//! What each handler is handed: the records it works on and the parties to
//! the call. Beside each set of accounts stands the outcome of the call as a
//! function of what the accounts held before it: the answer given to the
//! caller, and the accounts as the call leaves them.

use crate::error::{ErrorCode, InitError, TransferError};
use crate::events::{DepositMade, Paused, RewardDistributed, Unpaused};
use crate::records::{RewardPoolAccount, State, Wallet};
use anchor_lang::prelude::Pubkey;
use vstd::prelude::*;

verus! {

/// The accounts of a payout: the control record, the pool, the wallet that
/// is paid, and the signer who asks for it.
#[derive(Clone, Copy, Debug, PartialEq, Eq)]
pub struct DistributeReward {
    pub state: State,
    pub reward_pool: RewardPoolAccount,
    pub recipient: Wallet,
    pub admin: Pubkey,
}

impl DistributeReward {
    /// The pool and the recipient hold, between them, no more than a `u64`
    /// can count. A payout moves value from one to the other, so it keeps
    /// this.
    pub open spec fn supply_fits(self) -> bool {
        self.reward_pool.balance + self.recipient.balance <= u64::MAX
    }

    /// Where a request to pay `amount` is granted, the recipient's balance
    /// can grow by it. It always can where [`Self::supply_fits`] holds.
    pub open spec fn recipient_has_room(self, amount: u64) -> bool {
        self.distribution(amount) is Ok ==> self.recipient.balance + amount <= u64::MAX
    }

    /// The answer to a request to pay `amount`. The signer is checked first,
    /// then the pause switch, then the pool's balance, then the room left in
    /// the running total.
    pub open spec fn distribution(self, amount: u64) -> Result<RewardDistributed, ErrorCode> {
        if self.admin != self.state.owner {
            Err(ErrorCode::Unauthorized)
        } else if self.state.is_paused {
            Err(ErrorCode::DistributionPaused)
        } else if self.reward_pool.balance < amount {
            Err(ErrorCode::InsufficientFunds)
        } else if self.reward_pool.total_distributed + amount > u64::MAX {
            Err(ErrorCode::InsufficientFunds)
        } else {
            Ok(RewardDistributed { admin: self.admin, recipient: self.recipient.key, amount })
        }
    }

    /// The accounts after a request to pay `amount`: on success the amount
    /// has left the pool, reached the recipient and been added to the
    /// running total; on failure nothing has changed.
    pub open spec fn after_distribution(self, amount: u64) -> Self {
        if self.distribution(amount) is Ok {
            DistributeReward {
                state: self.state,
                reward_pool: RewardPoolAccount {
                    balance: (self.reward_pool.balance - amount) as u64,
                    total_distributed: (self.reward_pool.total_distributed + amount) as u64,
                },
                recipient: Wallet {
                    key: self.recipient.key,
                    balance: (self.recipient.balance + amount) as u64,
                },
                admin: self.admin,
            }
        } else {
            self
        }
    }
}

/// The accounts of a deposit: the wallet that pays in, and the pool. No
/// control record is among them: a deposit asks nobody's leave.
#[derive(Clone, Copy, Debug, PartialEq, Eq)]
pub struct DepositToRewardPool {
    pub user: Wallet,
    pub reward_pool: RewardPoolAccount,
}

impl DepositToRewardPool {
    /// The answer to a request to pay `amount` into the pool. It depends on
    /// the two balances and on nothing else.
    pub open spec fn deposit(self, amount: u64) -> Result<DepositMade, TransferError> {
        if self.user.balance < amount {
            Err(TransferError::InsufficientSourceFunds)
        } else if self.reward_pool.balance + amount > u64::MAX {
            Err(TransferError::DestinationOverflow)
        } else {
            Ok(DepositMade { user: self.user.key, amount })
        }
    }

    /// The accounts after a request to pay `amount` into the pool: on
    /// success the amount has left the depositor and reached the pool; on
    /// failure nothing has changed. The running total is never touched.
    pub open spec fn after_deposit(self, amount: u64) -> Self {
        if self.deposit(amount) is Ok {
            DepositToRewardPool {
                user: Wallet {
                    key: self.user.key,
                    balance: (self.user.balance - amount) as u64,
                },
                reward_pool: RewardPoolAccount {
                    balance: (self.reward_pool.balance + amount) as u64,
                    total_distributed: self.reward_pool.total_distributed,
                },
            }
        } else {
            self
        }
    }
}

/// The accounts of a switch of the pause state, either way: the control
/// record and the signer who asks for it.
#[derive(Clone, Copy, Debug, PartialEq, Eq)]
pub struct TogglePause {
    pub state: State,
    pub admin: Pubkey,
}

impl TogglePause {
    /// Whether the signer is the owner.
    pub open spec fn authorized(self) -> bool {
        self.admin == self.state.owner
    }

    /// The answer to a request to switch distribution off.
    pub open spec fn pause(self) -> Result<Paused, ErrorCode> {
        if self.authorized() {
            Ok(Paused { by: self.admin })
        } else {
            Err(ErrorCode::Unauthorized)
        }
    }

    /// The answer to a request to switch distribution on.
    pub open spec fn unpause(self) -> Result<Unpaused, ErrorCode> {
        if self.authorized() {
            Ok(Unpaused { by: self.admin })
        } else {
            Err(ErrorCode::Unauthorized)
        }
    }

    /// The accounts after a request to set the pause switch to `paused`:
    /// the owner's request sets it, whatever it was before; anyone else's
    /// changes nothing.
    pub open spec fn after_switch(self, paused: bool) -> Self {
        if self.authorized() {
            TogglePause {
                state: State { is_paused: paused, owner: self.state.owner },
                admin: self.admin,
            }
        } else {
            self
        }
    }
}

/// The accounts of a change of owner: the control record and the signer
/// who asks for it.
#[derive(Clone, Copy, Debug, PartialEq, Eq)]
pub struct TransferOwnership {
    pub state: State,
    pub admin: Pubkey,
}

impl TransferOwnership {
    /// Whether the signer is the owner.
    pub open spec fn authorized(self) -> bool {
        self.admin == self.state.owner
    }

    /// The answer to a request to hand the pool to another owner.
    pub open spec fn transfer(self) -> Result<(), ErrorCode> {
        if self.authorized() {
            Ok(())
        } else {
            Err(ErrorCode::Unauthorized)
        }
    }

    /// The accounts after a request to hand the pool to `new_owner`: the
    /// owner's request replaces the owner, with any key at all; anyone
    /// else's changes nothing.
    pub open spec fn after_transfer(self, new_owner: Pubkey) -> Self {
        if self.authorized() {
            TransferOwnership {
                state: State { is_paused: self.state.is_paused, owner: new_owner },
                admin: self.admin,
            }
        } else {
            self
        }
    }
}

/// The accounts of the creation of a deployment: the places of the two
/// records, empty until they are created, and the signer who pays for it.
#[derive(Clone, Copy, Debug, PartialEq, Eq)]
pub struct Initialize {
    pub state: Option<State>,
    pub reward_pool: Option<RewardPoolAccount>,
    pub user: Pubkey,
}

impl Initialize {
    /// Neither record exists yet.
    pub open spec fn vacant(self) -> bool {
        self.state is None && self.reward_pool is None
    }

    /// The answer to a request to create the records.
    pub open spec fn initialization(self) -> Result<(), InitError> {
        if self.vacant() {
            Ok(())
        } else {
            Err(InitError::AlreadyInitialized)
        }
    }

    /// The accounts after a request to create the records for `owner`:
    /// where neither existed, both now do, with distribution switched on
    /// and an empty pool that has paid out nothing; otherwise nothing has
    /// changed.
    pub open spec fn after_initialization(self, owner: Pubkey) -> Self {
        if self.vacant() {
            Initialize {
                state: Some(State { is_paused: false, owner }),
                reward_pool: Some(RewardPoolAccount { balance: 0, total_distributed: 0 }),
                user: self.user,
            }
        } else {
            self
        }
    }
}

} // verus!
