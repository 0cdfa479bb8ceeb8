//! The life of a handle: not yet constructed, constructed, released. A handle
//! can be used only while it is constructed, and it never comes back from
//! release.

use vstd::prelude::*;
use crate::error::{ErrorKind, FfiError};

verus! {

/// Where a handle stands in its life.
#[derive(Clone, Copy, Debug, PartialEq, Eq, Structural)]
pub enum Stage {
    /// The types and arguments are resolved; the constructor of the
    /// algorithm library has not given its verdict yet.
    Unconstructed,
    /// The constructor accepted: the handle can be invoked.
    Constructed,
    /// The handle was given up.
    Released,
}

/// What is reported for an operation that the stage of the handle rules out.
pub open spec fn stage_message(stage: Stage) -> Seq<char> {
    match stage {
        Stage::Unconstructed => "the handle is not constructed"@,
        Stage::Constructed => "the handle is already constructed"@,
        Stage::Released => "the handle was released"@,
    }
}

/// The stage after the constructor's verdict `outcome` has come in. Only a
/// handle that is not yet constructed takes a verdict. An acceptance makes it
/// constructed. A rejection is passed on as it is.
pub open spec fn after_verdict(stage: Stage, outcome: Result<(), FfiError>) -> Result<
    Stage,
    (ErrorKind, Seq<char>),
> {
    if stage != Stage::Unconstructed {
        Err((ErrorKind::InvalidArgument, stage_message(stage)))
    } else {
        match outcome {
            Ok(_) => Ok(Stage::Constructed),
            Err(error) => Err((error.kind, error.message@)),
        }
    }
}

/// The stage after release. Only a constructed handle can be released.
pub open spec fn after_release(stage: Stage) -> Result<Stage, (ErrorKind, Seq<char>)> {
    if stage == Stage::Constructed {
        Ok(Stage::Released)
    } else {
        Err((ErrorKind::InvalidArgument, stage_message(stage)))
    }
}

/// Whether a handle in this stage can be invoked, and what is reported if
/// it cannot.
pub open spec fn usable(stage: Stage) -> Result<(), (ErrorKind, Seq<char>)> {
    if stage == Stage::Constructed {
        Ok(())
    } else {
        Err((ErrorKind::InvalidArgument, stage_message(stage)))
    }
}

/// The outcome of a step in mathematical form.
pub open spec fn staged<T>(r: Result<T, FfiError>) -> Result<T, (ErrorKind, Seq<char>)> {
    match r {
        Ok(value) => Ok(value),
        Err(error) => Err((error.kind, error.message@)),
    }
}

impl Stage {
    fn refusal(self) -> (e: FfiError)
        ensures
            e.kind == ErrorKind::InvalidArgument,
            e.message@ == stage_message(self),
    {
        let text = match self {
            Stage::Unconstructed => "the handle is not constructed",
            Stage::Constructed => "the handle is already constructed",
            Stage::Released => "the handle was released",
        };
        FfiError::with_text(ErrorKind::InvalidArgument, text)
    }

    /// Takes the constructor's verdict.
    pub fn construct(self, outcome: Result<(), FfiError>) -> (r: Result<Stage, FfiError>)
        ensures
            staged(r) == after_verdict(self, outcome),
    {
        match self {
            Stage::Unconstructed => match outcome {
                Ok(_) => Ok(Stage::Constructed),
                Err(error) => Err(error),
            },
            _ => Err(self.refusal()),
        }
    }

    /// Gives the handle up.
    pub fn release(self) -> (r: Result<Stage, FfiError>)
        ensures
            staged(r) == after_release(self),
    {
        match self {
            Stage::Constructed => Ok(Stage::Released),
            _ => Err(self.refusal()),
        }
    }

    /// Checks that the handle can be invoked.
    pub fn check_usable(self) -> (r: Result<(), FfiError>)
        ensures
            staged(r) == usable(self),
    {
        match self {
            Stage::Constructed => Ok(()),
            _ => Err(self.refusal()),
        }
    }
}

/// A released handle stays released: it takes no verdict, cannot be released
/// again and cannot be invoked.
pub proof fn lemma_released_is_final(outcome: Result<(), FfiError>)
    ensures
        after_verdict(Stage::Released, outcome) is Err,
        after_release(Stage::Released) is Err,
        usable(Stage::Released) is Err,
{
}

/// A rejection by the constructor reaches the caller unchanged, in kind and
/// in message.
pub proof fn lemma_rejection_passes_through(error: FfiError)
    ensures
        after_verdict(Stage::Unconstructed, Err(error)) == Err::<Stage, (ErrorKind, Seq<char>)>(
            (error.kind, error.message@),
        ),
{
}

} // verus!
