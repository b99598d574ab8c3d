//! The failure taxonomy shared by every operation.

use vstd::prelude::*;

verus! {

/// Why an operation was rejected.  Every operation either succeeds completely
/// or returns one of these and leaves every record and balance untouched.
#[derive(Clone, Copy, Debug, PartialEq, Eq, Structural)]
pub enum ErrorCode {
    /// A supplied record address does not match the address re-derived from
    /// the role tag and the owning records, or no address could be derived
    /// from those inputs at all.
    AddressMismatch,
    /// A record would be created at an address that is already occupied.
    AccountAlreadyExists,
    /// No record exists at a supplied address.
    AccountNotFound,
    /// A checked addition on a counter or a balance would exceed `u64::MAX`.
    Overflow,
    /// A checked subtraction on a counter or a balance would go below zero.
    Underflow,
    /// The paying wallet holds less than the amount it must transfer.
    InsufficientFunds,
    /// A tenant may only be closed once its profile, challenge and
    /// submission counters are all zero.
    NotAllChildrenClosed,
    /// The acting profile lacks the moderator flag required for this
    /// operation.
    ProfileIsNotModerator,
    /// A title or content locator string is empty.
    InvalidStringInput,
    /// A title or content locator string exceeds the maximum length.
    TitleOrUrlTooLong,
    /// A new expiry timestamp does not lie in the future.
    InvalidExpiryTs,
    /// The challenge a submission refers to has already expired.
    ChallengeExpired,
    /// The record is in a state that forbids the requested change, such as a
    /// completed submission its owner tries to delete.
    AccountCannotBeEdited,
}

} // verus!
