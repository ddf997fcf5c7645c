//! Error taxonomy of the ledger.
//!
//! Every failure path is observable by the caller; no error is ever swallowed
//! or retried inside the library.

use vstd::prelude::*;

verus! {

/// One reason a ledger operation refused a request.
#[derive(Clone, Copy, Debug, PartialEq, Eq, Structural)]
pub enum CoreError {
    /// A donation amount of zero was offered.
    InvalidAmount,
    /// A name or description exceeds the fixed maximum length.
    FieldTooLong,
    /// A proposal duration was zero or negative.
    InvalidDuration,
    /// The addressed campaign or proposal does not exist.
    NotFound,
    /// The requested identifier is already in use.
    AllocationError,
    /// The proposal's voting window has already closed.
    VotingClosed,
    /// The proposal's voting window is still open.
    VotingOpen,
    /// The acting identity is not the one the record authorizes.
    Unauthorized,
    /// The proposal was already marked executed.
    AlreadyExecuted,
    /// The operation would leave the representable integer range.
    Overflow,
    /// A proportional share of an empty fund was asked for.
    DivisionByZero,
    /// The external reward transfer failed; the vote tally stands.
    RewardTransferFailed,
}

/// The broad class a [`CoreError`] belongs to.
#[derive(Clone, Copy, Debug, PartialEq, Eq, Structural)]
pub enum ErrorClass {
    /// Bad input shape, length or amount; the caller must fix and retry.
    Validation,
    /// The request cannot proceed as framed against the current state.
    State,
    /// Division by zero or overflow; fatal to the request, never clamped.
    Arithmetic,
    /// A collaborator at the boundary failed; committed state stands.
    Collaborator,
}

impl CoreError {
    /// The class of this error.
    pub open spec fn spec_class(self) -> ErrorClass {
        match self {
            CoreError::InvalidAmount => ErrorClass::Validation,
            CoreError::FieldTooLong => ErrorClass::Validation,
            CoreError::InvalidDuration => ErrorClass::Validation,
            CoreError::NotFound => ErrorClass::State,
            CoreError::AllocationError => ErrorClass::State,
            CoreError::VotingClosed => ErrorClass::State,
            CoreError::VotingOpen => ErrorClass::State,
            CoreError::Unauthorized => ErrorClass::State,
            CoreError::AlreadyExecuted => ErrorClass::State,
            CoreError::Overflow => ErrorClass::Arithmetic,
            CoreError::DivisionByZero => ErrorClass::Arithmetic,
            CoreError::RewardTransferFailed => ErrorClass::Collaborator,
        }
    }

    /// Classifies this error for callers that dispatch on the taxonomy.
    pub fn class(&self) -> (c: ErrorClass)
        ensures
            c == self.spec_class(),
    {
        match self {
            CoreError::InvalidAmount => ErrorClass::Validation,
            CoreError::FieldTooLong => ErrorClass::Validation,
            CoreError::InvalidDuration => ErrorClass::Validation,
            CoreError::NotFound => ErrorClass::State,
            CoreError::AllocationError => ErrorClass::State,
            CoreError::VotingClosed => ErrorClass::State,
            CoreError::VotingOpen => ErrorClass::State,
            CoreError::Unauthorized => ErrorClass::State,
            CoreError::AlreadyExecuted => ErrorClass::State,
            CoreError::Overflow => ErrorClass::Arithmetic,
            CoreError::DivisionByZero => ErrorClass::Arithmetic,
            CoreError::RewardTransferFailed => ErrorClass::Collaborator,
        }
    }
}

} // verus!
