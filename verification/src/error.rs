use tokio::task::JoinError;

use vstd::prelude::*;

verus! {

/// Errors encountered while running an application.
#[derive(Debug)]
pub enum ServerError {
    /// The server task panicked while running.
    PanicError(JoinError),
    /// The server ended with an I/O error.
    RuntimeError(std::io::Error),
}

impl From<std::io::Error> for ServerError {
    fn from(err: std::io::Error) -> (r: Self) {
        ServerError::RuntimeError(err)
    }
}

impl vstd::std_specs::convert::FromSpecImpl<std::io::Error> for ServerError {
    open spec fn obeys_from_spec() -> bool {
        true
    }

    open spec fn from_spec(err: std::io::Error) -> Self {
        ServerError::RuntimeError(err)
    }
}

/// Whether `tokio::task::JoinError::is_cancelled` holds of a join error: a
/// function of the error's internal representation alone.
pub uninterp spec fn join_error_cancelled(err: JoinError) -> bool;

/// Calls `tokio::task::JoinError::is_cancelled`: whether the task ended
/// because it was cancelled.
#[verifier::external_body]
pub(crate) fn join_error_is_cancelled(err: &JoinError) -> (r: bool)
    ensures
        r == join_error_cancelled(*err),
{
    err.is_cancelled()
}

/// Calls `tokio::task::JoinError::is_panic`. A join error represents exactly
/// one of two reasons, a cancellation or a panic, so this holds exactly when
/// `is_cancelled` does not.
#[verifier::external_body]
pub(crate) fn join_error_is_panic(err: &JoinError) -> (r: bool)
    ensures
        r == !join_error_cancelled(*err),
{
    err.is_panic()
}

} // verus!
