//! The ways in which a call against the ledger can fail.

use vstd::prelude::*;

verus! {

/// Why a privileged call was turned down.
#[derive(Clone, Copy, Debug, PartialEq, Eq, Structural)]
pub enum ErrorCode {
    /// The pool holds less than the requested amount, or the running total
    /// of distributed value cannot grow by it.
    InsufficientFunds,
    /// Distribution is switched off.
    DistributionPaused,
    /// The caller is not the owner.
    Unauthorized,
}

/// Why a movement of value into the pool was turned down.
#[derive(Clone, Copy, Debug, PartialEq, Eq, Structural)]
pub enum TransferError {
    /// The source holds less than the amount to move.
    InsufficientSourceFunds,
    /// The destination cannot hold the amount on top of what it has.
    DestinationOverflow,
}

/// Why the records of a deployment could not be created.
#[derive(Clone, Copy, Debug, PartialEq, Eq, Structural)]
pub enum InitError {
    /// One of the records is already there.
    AlreadyInitialized,
}

impl ErrorCode {
    /// The text shown to a caller for each error.
    pub open spec fn message_text(self) -> Seq<char> {
        match self {
            ErrorCode::InsufficientFunds => "Insufficient funds in the reward pool."@,
            ErrorCode::DistributionPaused => "Distribution is paused"@,
            ErrorCode::Unauthorized => "Unauthorized access to distribute reward"@,
        }
    }

    /// The text shown to a caller for this error.
    pub fn message(&self) -> (text: &'static str)
        ensures
            text@ == self.message_text(),
    {
        match self {
            ErrorCode::InsufficientFunds => "Insufficient funds in the reward pool.",
            ErrorCode::DistributionPaused => "Distribution is paused",
            ErrorCode::Unauthorized => "Unauthorized access to distribute reward",
        }
    }
}

} // verus!
