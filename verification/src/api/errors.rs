//! Errors of a query to the computer-algebra service.

use vstd::prelude::*;

verus! {

/// Why a query gave no usable answer.
#[derive(Debug, Clone, PartialEq, Eq)]
pub enum ApiError {
    /// The request could not be sent or its answer not read; the text says why.
    RequestFailed(String),
    /// The service answered with this HTTP status, which is not a success.
    Http(u16),
    /// The service reported that it could not handle the query.
    Wolfram(String),
    /// No answer block holds a plain-text result.
    PlainTextNotFound,
    /// No answer block holds a picture.
    ImageNotFound,
    /// A local file operation failed; the text says why.
    IO(String),
}

} // verus!
