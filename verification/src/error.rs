//! The error taxonomy of the ledger. Every failed precondition surfaces as
//! a distinct, stable error kind, and a failing operation mutates nothing.

use vstd::prelude::*;

verus! {

/// Every way an operation of the ledger can fail.
#[derive(Clone, Copy, Debug, PartialEq, Eq, Structural)]
pub enum CustomError {
    /// Someone other than the administrator tried to initialize.
    NotOwner,
    /// Initialization was attempted a second time.
    AlreadyInitialized,
    /// A deposit or withdrawal was attempted before initialization.
    NotInitialized,
    /// A caller tried to mutate a stake record bound to another owner.
    NotStakeOwner,
    /// The amount was zero, or a withdrawal asked for more than the
    /// record's balance.
    InvalidAmount,
    /// The deposit would raise the record's balance above `MAX_STAKE`.
    MaxStakeExceeded,
    /// A withdrawal was attempted from a record nobody ever deposited into.
    AttemptedWithdrawBeforeStake,
    /// The record's backing value cannot cover the withdrawal.
    InsufficientFunds,
    /// A balance addition would wrap around the 64-bit range.
    CalculationOverflow,
}

/// The human-readable message attached to each error kind.
pub open spec fn spec_message(e: CustomError) -> Seq<char> {
    match e {
        CustomError::NotOwner => "Only owner can call this function!"@,
        CustomError::AlreadyInitialized => "Global state already initialized!"@,
        CustomError::NotInitialized => "Global state not initialized!"@,
        CustomError::NotStakeOwner => "User attempting to modify stake balance they do not control!"@,
        CustomError::InvalidAmount => "Invalid amount!"@,
        CustomError::MaxStakeExceeded => "Stake amount exceeds maximum allowed!"@,
        CustomError::AttemptedWithdrawBeforeStake => "User attempting to withdraw before they have staked"@,
        CustomError::InsufficientFunds => "Insufficient funds in user stake account to withdraw"@,
        CustomError::CalculationOverflow => "Overflow"@,
    }
}

impl CustomError {
    /// The message for this error kind.
    pub fn message(&self) -> (m: &'static str)
        ensures
            m@ == spec_message(*self),
    {
        match self {
            CustomError::NotOwner => "Only owner can call this function!",
            CustomError::AlreadyInitialized => "Global state already initialized!",
            CustomError::NotInitialized => "Global state not initialized!",
            CustomError::NotStakeOwner => "User attempting to modify stake balance they do not control!",
            CustomError::InvalidAmount => "Invalid amount!",
            CustomError::MaxStakeExceeded => "Stake amount exceeds maximum allowed!",
            CustomError::AttemptedWithdrawBeforeStake => "User attempting to withdraw before they have staked",
            CustomError::InsufficientFunds => "Insufficient funds in user stake account to withdraw",
            CustomError::CalculationOverflow => "Overflow",
        }
    }
}

} // verus!
