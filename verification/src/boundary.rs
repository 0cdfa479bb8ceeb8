//! The shape of everything that is returned across the boundary: a payload or
//! an error, never both and never neither.

use vstd::prelude::*;
use crate::error::FfiError;

verus! {

/// The result of a boundary operation. Callers read it as data: nothing
/// unwinds through it.
#[derive(Debug, PartialEq, Eq)]
pub enum FfiResult<T> {
    Success(T),
    Failure(FfiError),
}

impl<T> FfiResult<T> {
    /// Lifts an ordinary result to the boundary, leaving payload and error
    /// untouched.
    pub fn from_result(result: Result<T, FfiError>) -> (r: FfiResult<T>)
        ensures
            r.as_result() == result,
    {
        match result {
            Ok(value) => FfiResult::Success(value),
            Err(error) => FfiResult::Failure(error),
        }
    }

    /// The same outcome as an ordinary result.
    pub open spec fn as_result(self) -> Result<T, FfiError> {
        match self {
            FfiResult::Success(value) => Ok(value),
            FfiResult::Failure(error) => Err(error),
        }
    }

    /// Takes the boundary result apart again.
    pub fn into_result(self) -> (r: Result<T, FfiError>)
        ensures
            r == self.as_result(),
    {
        match self {
            FfiResult::Success(value) => Ok(value),
            FfiResult::Failure(error) => Err(error),
        }
    }

    /// Whether the payload is populated.
    pub fn is_ok(&self) -> (b: bool)
        ensures
            b == (self is Success),
    {
        match self {
            FfiResult::Success(_) => true,
            FfiResult::Failure(_) => false,
        }
    }

    /// Whether the error is populated.
    pub fn is_err(&self) -> (b: bool)
        ensures
            b == (self is Failure),
    {
        match self {
            FfiResult::Success(_) => false,
            FfiResult::Failure(_) => true,
        }
    }

    /// The payload, or nothing where the result is an error.
    pub fn ok(self) -> (r: Option<T>)
        ensures
            r == (match self {
                FfiResult::Success(value) => Some(value),
                FfiResult::Failure(_) => None,
            }),
    {
        match self {
            FfiResult::Success(value) => Some(value),
            FfiResult::Failure(_) => None,
        }
    }

    /// The error, or nothing where the result is a payload.
    pub fn err(self) -> (r: Option<FfiError>)
        ensures
            r == (match self {
                FfiResult::Success(_) => None,
                FfiResult::Failure(error) => Some(error),
            }),
    {
        match self {
            FfiResult::Success(_) => None,
            FfiResult::Failure(error) => Some(error),
        }
    }
}

/// Exactly one side of a boundary result is populated.
pub proof fn lemma_one_side<T>(result: FfiResult<T>)
    ensures
        (result is Success) != (result is Failure),
{
}

} // verus!
