use vstd::prelude::*;

verus! {

/// Every way an operation of this crate can be refused.
///
/// All errors are terminal for the operation in which they occur: no state
/// change is ever committed together with an error.
#[derive(Clone, Copy, Debug, PartialEq, Eq, Structural)]
pub enum CustomProgramError {
    /// The pre-authorization is not live: not yet activated, expired, or past
    /// its bounded cycle count.
    PreAuthorizationNotActive,
    /// The requested amount exceeds the amount currently available.
    CannotDebitMoreThanAvailable,
    /// The computed cycle index is less than the last recorded one: the
    /// external time source went backward between debits.
    LastDebitedCycleBeforeCurrentCycle,
    /// A timestamp conversion or range computation failed.
    InvalidTimestamp,
    /// The pre-authorization is paused.
    PreAuthorizationPaused,
    /// Only the token account owner can receive the funds released by closing
    /// a pre-authorization.
    OnlyTokenAccountOwnerCanReceiveClosePreAuthFunds,
    /// The pre-authorization does not belong to the given token account.
    PreAuthorizationTokenAccountMismatch,
    /// A pre-authorization can only be closed by its debit authority or the
    /// token account owner.
    PreAuthorizationCloseUnauthorized,
    /// A smart delegate can only be closed by the token account owner.
    SmartDelegateCloseUnauthorized,
    /// Only the token account owner can pause a pre-authorization.
    PausePreAuthorizationUnauthorized,
    /// Only the pre-authorization's debit authority may debit through it.
    DebitUnauthorized,
    /// Only the token account owner can initialize a pre-authorization.
    InitPreAuthorizationUnauthorized,
    /// Only the token account owner can initialize a smart delegate.
    InitSmartDelegateUnauthorized,
    /// A pre-authorization already exists for this (token account, debit
    /// authority) pair.
    PreAuthorizationAlreadyExists,
    /// No pre-authorization exists for this (token account, debit authority)
    /// pair.
    PreAuthorizationNotFound,
    /// No smart delegate exists for this token account.
    SmartDelegateNotFound,
    /// The mints of the involved token accounts disagree with the declared
    /// mint.
    MintMismatch,
    /// An amount or cycle computation would exceed the integer width used.
    ArithmeticOverflow,
}

} // verus!
