//! The errors of the task and recurring-task operations.

use vstd::prelude::*;

verus! {

/// Why an operation did not take place. An operation that fails leaves its
/// stores as they were, unless its contract says otherwise.
#[derive(Clone, Copy, Debug, PartialEq, Eq, Structural)]
pub enum TaskError {
    /// The task that the operation needs is not stored.
    TaskNotFound,
    /// The project that the operation needs is not stored.
    ProjectNotFound,
    /// A project or parent identifier does not resolve.
    InvalidReference,
    /// An identifier, a date or a frequency is malformed, a title empty, or
    /// an interval zero.
    InvalidInput,
    /// A freshly drawn identifier is already taken.
    DuplicateId,
    /// A computed date would fall after the last representable year.
    DateOutOfRange,
}

/// An error as the command layer reports it: the command that failed, the
/// error's message, and the message to show.
#[derive(Clone, Debug)]
pub struct ErrorResponse {
    pub command: String,
    pub message: String,
    pub display_message: String,
}

impl ErrorResponse {
    pub fn new(command: String, message: String, display_message: String) -> (r: ErrorResponse)
        ensures
            r.command == command,
            r.message == message,
            r.display_message == display_message,
    {
        ErrorResponse { command, message, display_message }
    }
}

} // verus!
