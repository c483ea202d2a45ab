//! The error taxonomy of the accounting operations.
use vstd::prelude::*;

verus! {

/// Every way an accounting operation can fail. A failed operation has no
/// effect on the records it was given.
#[derive(Clone, Copy, Debug, PartialEq, Eq, Structural)]
pub enum ProgramError {
    /// A checked arithmetic step left its integer range.
    CalculationOverflow,
    /// A zero amount was given where a positive one is required.
    InvalidAmount,
    /// The caller is not the configured admin, or not the owner of the stake.
    Unauthorized,
    /// A vault identifier differs from the configured one.
    VaultMismatch,
    /// The withdrawal asks for more than the vesting schedule has unlocked.
    AmountExceedsUnlocked,
    /// There is no yield to pay out.
    NoYieldToClaim,
    /// The reward index has not moved, or the pending reward rounds to zero.
    NoReflectionsAccumulated,
    /// The reward reserve holds less than the payout.
    InsufficientReflectionPool,
    /// A reward deposit was made against a zero total supply.
    InvalidTotalSupply,
    /// The configuration has already been initialized.
    AlreadyInitialized,
}

} // verus!
