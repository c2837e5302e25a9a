//! Errors of the solving side.

use vstd::prelude::*;

use crate::api::errors::ApiError;

verus! {

/// Why solving a task stopped.
#[derive(Debug, Clone, PartialEq, Eq)]
pub enum BackendError {
    /// A query to the computer-algebra service failed.
    Api(ApiError),
    /// An answer lacked a block that was needed; the text names it.
    MissingPod(String),
    /// A result could not be read as a formula; the text says why.
    Parse(String),
    /// No permission to send a query could be obtained; the text says why.
    Semaphore(String),
    /// The runtime that sends the queries could not be started; the text
    /// says why.
    Tokio(String),
}

} // verus!
