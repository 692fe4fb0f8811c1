//! Errors that the handlers raise themselves.
//!
//! An error of the gateway service is not one of these: a handler passes it on
//! as it came.

use vstd::prelude::*;

verus! {

/// What went wrong.
#[derive(Clone, Copy, Debug, PartialEq, Eq, Structural)]
pub enum ErrorKind {
    /// The request asks for something that makes no sense.
    InvalidOperation,
    /// Something that the caller can do nothing about.
    Internal,
}

/// An error that a handler raises.
#[derive(Clone, Copy, Debug, PartialEq, Eq, Structural)]
pub struct ApiError {
    pub kind: ErrorKind,
}

impl ApiError {
    pub fn from_kind(kind: ErrorKind) -> (error: ApiError)
        ensures
            error == (ApiError { kind }),
    {
        ApiError { kind }
    }
}

} // verus!
