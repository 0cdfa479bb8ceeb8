//! Transformations: handles to data transformations over one primitive type,
//! and their invocation on type-erased arguments.

use vstd::prelude::*;
use crate::any::{int_of, mismatch, mismatch_message, AnyObject, Datum};
use crate::boundary::FfiResult;
use crate::dispatch::{refuse, unsupported_message};
use crate::error::{ErrorKind, FfiError};
use crate::handle::{after_release, after_verdict, stage_message, staged, usable, Stage};
use crate::types::{is_float, is_integer, pair_shape, vector_shape, Atom, Shape, Type, TypeClass};

pub mod clamp;

verus! {

/// The transformations that can be constructed.
#[derive(Clone, Copy, Debug, PartialEq, Eq, Structural)]
pub enum TransformationKind {
    /// Brings every row into the interval between the bounds.
    Clamp,
    /// Takes rows known to lie between the bounds and hands them on as they
    /// are.
    Unclamp,
}

/// What a transformation handle stands for.
pub struct Blueprint {
    pub kind: TransformationKind,
    /// The type of a row.
    pub atom: Atom,
    pub lower: Datum,
    pub upper: Datum,
    pub stage: Stage,
}

/// A handle to a transformation from sequences of rows to sequences of rows.
#[derive(Debug, PartialEq, Eq)]
pub struct AnyTransformation {
    kind: TransformationKind,
    atom: Atom,
    bounds: AnyObject,
    stage: Stage,
}

/// The lower of a pair of bounds.
pub open spec fn lower_of(bounds: Datum) -> Datum {
    bounds->Tuple_0[0]
}

/// The upper of a pair of bounds.
pub open spec fn upper_of(bounds: Datum) -> Datum {
    bounds->Tuple_0[1]
}

/// A row brought into the interval from `lower` to `upper`.
pub open spec fn clamp_datum(row: Datum, lower: Datum, upper: Datum) -> Datum {
    if int_of(row) < int_of(lower) {
        lower
    } else if int_of(row) > int_of(upper) {
        upper
    } else {
        row
    }
}

/// What the transformation of kind `kind` with the given bounds makes of the
/// rows `rows`.
pub open spec fn applied(kind: TransformationKind, rows: Datum, lower: Datum, upper: Datum) -> Datum {
    match kind {
        TransformationKind::Clamp => Datum::Vector(
            Seq::new(rows->Vector_0.len(), |i: int| clamp_datum(rows->Vector_0[i], lower, upper)),
        ),
        TransformationKind::Unclamp => rows,
    }
}

/// Whether a handle takes `arg`: it must be constructed, and `arg` must hold
/// exactly a sequence of rows of the handle's type.
pub open spec fn admits(this: Blueprint, arg: Shape) -> Result<(), (ErrorKind, Seq<char>)> {
    if this.stage != Stage::Constructed {
        usable(this.stage)
    } else if arg != vector_shape(this.atom) {
        Err((ErrorKind::TypeMismatch, mismatch_message(vector_shape(this.atom), arg)))
    } else {
        Ok(())
    }
}

/// What invoking a handle on `arg` gives: the type and value of the result,
/// or the kind and message of the error. Transformations over integers are
/// carried out here. For one over a floating-point type this library has no
/// implementation: such a handle is invoked where it was constructed.
pub open spec fn invoked(this: Blueprint, arg: Shape, rows: Datum) -> Result<
    (Shape, Datum),
    (ErrorKind, Seq<char>),
> {
    match admits(this, arg) {
        Err(e) => Err(e),
        Ok(_) => if is_integer(this.atom) {
            Ok((vector_shape(this.atom), applied(this.kind, rows, this.lower, this.upper)))
        } else {
            Err(
                (
                    ErrorKind::UnsupportedType,
                    unsupported_message(Shape::Atom(this.atom), TypeClass::Integers),
                ),
            )
        },
    }
}

/// What a handle makes of the outcome of an invocation that was carried
/// out elsewhere. The handle must be constructed. An error is handed on
/// unchanged. A result must hold exactly a sequence of rows of the handle's
/// type, and is then handed on as it is; any other type is a mismatch.
pub open spec fn handed(
    this: Blueprint,
    outcome: Result<(Shape, Datum), (ErrorKind, Seq<char>)>,
) -> Result<(Shape, Datum), (ErrorKind, Seq<char>)> {
    if this.stage != Stage::Constructed {
        Err((ErrorKind::InvalidArgument, stage_message(this.stage)))
    } else {
        match outcome {
            Err(e) => Err(e),
            Ok(out) => if out.0 != vector_shape(this.atom) {
                Err((ErrorKind::TypeMismatch, mismatch_message(vector_shape(this.atom), out.0)))
            } else {
                Ok(out)
            },
        }
    }
}

/// The outcome of an invocation that was carried out elsewhere, in
/// mathematical form.
pub open spec fn reported(outcome: Result<AnyObject, FfiError>) -> Result<
    (Shape, Datum),
    (ErrorKind, Seq<char>),
> {
    match outcome {
        Ok(out) => Ok((out.shape(), out.datum())),
        Err(error) => Err((error.kind, error.message@)),
    }
}

/// The outcome of an invocation in mathematical form.
pub open spec fn delivered(r: FfiResult<AnyObject>) -> Result<(Shape, Datum), (ErrorKind, Seq<char>)> {
    match r {
        FfiResult::Success(out) => Ok((out.shape(), out.datum())),
        FfiResult::Failure(error) => Err((error.kind, error.message@)),
    }
}

/// The outcome of a step in the life of a handle in mathematical form.
pub open spec fn stepped(r: FfiResult<AnyTransformation>) -> Result<
    Blueprint,
    (ErrorKind, Seq<char>),
> {
    match r {
        FfiResult::Success(handle) => Ok(handle@),
        FfiResult::Failure(error) => Err((error.kind, error.message@)),
    }
}

impl View for AnyTransformation {
    type V = Blueprint;

    closed spec fn view(&self) -> Blueprint {
        Blueprint {
            kind: self.kind,
            atom: self.atom,
            lower: lower_of(self.bounds.datum()),
            upper: upper_of(self.bounds.datum()),
            stage: self.stage,
        }
    }
}

impl AnyTransformation {
    /// The row type is a number type and both bounds are of it. A handle
    /// over integers is constructed from the start, and its bounds are in
    /// order.
    #[verifier::type_invariant]
    spec fn valid(self) -> bool {
        &&& TypeClass::Numbers.admits(self.atom)
        &&& self.bounds.shape() == pair_shape(self.atom)
        &&& self.stage == Stage::Unconstructed ==> is_float(self.atom)
        &&& is_integer(self.atom) ==> int_of(lower_of(self.bounds.datum())) <= int_of(
            upper_of(self.bounds.datum()),
        )
    }

    pub(crate) fn assemble(
        kind: TransformationKind,
        atom: Atom,
        bounds: AnyObject,
        stage: Stage,
    ) -> (r: AnyTransformation)
        requires
            TypeClass::Numbers.admits(atom),
            bounds.shape() == pair_shape(atom),
            stage == Stage::Unconstructed ==> is_float(atom),
            is_integer(atom) ==> int_of(lower_of(bounds.datum())) <= int_of(
                upper_of(bounds.datum()),
            ),
        ensures
            r@ == (Blueprint {
                kind,
                atom,
                lower: lower_of(bounds.datum()),
                upper: upper_of(bounds.datum()),
                stage,
            }),
    {
        AnyTransformation { kind, atom, bounds, stage }
    }

    /// Which transformation this is.
    pub fn kind(&self) -> (r: TransformationKind)
        ensures
            r == self@.kind,
    {
        self.kind
    }

    /// The type of a row. It is a member of the class of numbers.
    pub fn atom(&self) -> (r: Atom)
        ensures
            r == self@.atom,
            TypeClass::Numbers.admits(r),
    {
        proof {
            use_type_invariant(self);
        }
        self.atom
    }

    /// The pair of bounds, as a container of the pair type over the row type.
    pub fn bounds(&self) -> (r: &AnyObject)
        ensures
            r.shape() == pair_shape(self@.atom),
            lower_of(r.datum()) == self@.lower,
            upper_of(r.datum()) == self@.upper,
    {
        proof {
            use_type_invariant(self);
        }
        &self.bounds
    }

    /// Where the handle stands in its life.
    pub fn stage(&self) -> (r: Stage)
        ensures
            r == self@.stage,
    {
        self.stage
    }

    /// Takes the verdict of the constructor of the algorithm library on a
    /// handle that is not yet constructed. An acceptance gives the same
    /// handle, constructed. A rejection is handed on unchanged. A handle in
    /// any other stage takes no verdict.
    pub fn construct(self, outcome: Result<(), FfiError>) -> (r: FfiResult<AnyTransformation>)
        ensures
            stepped(r) == (match after_verdict(self@.stage, outcome) {
                Ok(stage) => Ok(Blueprint { stage, ..self@ }),
                Err(e) => Err(e),
            }),
    {
        proof {
            use_type_invariant(&self);
        }
        match self.stage.construct(outcome) {
            Ok(stage) => FfiResult::Success(
                AnyTransformation { kind: self.kind, atom: self.atom, bounds: self.bounds, stage },
            ),
            Err(error) => FfiResult::Failure(error),
        }
    }

    /// Gives a constructed handle up. What comes back is the same handle,
    /// released: nothing can be done with it any more.
    pub fn release(self) -> (r: FfiResult<AnyTransformation>)
        ensures
            stepped(r) == (match after_release(self@.stage) {
                Ok(stage) => Ok(Blueprint { stage, ..self@ }),
                Err(e) => Err(e),
            }),
    {
        proof {
            use_type_invariant(&self);
        }
        match self.stage.release() {
            Ok(stage) => FfiResult::Success(
                AnyTransformation { kind: self.kind, atom: self.atom, bounds: self.bounds, stage },
            ),
            Err(error) => FfiResult::Failure(error),
        }
    }

    /// Checks an argument before invocation.
    pub fn check_argument(&self, arg: &AnyObject) -> (r: Result<(), FfiError>)
        ensures
            staged(r) == admits(self@, arg.shape()),
    {
        match self.stage.check_usable() {
            Err(error) => Err(error),
            Ok(_) => {
                let expected = Type::vector(Type::atom(self.atom));
                if arg.has_type(&expected) {
                    Ok(())
                } else {
                    Err(mismatch(&expected, arg.type_()))
                }
            },
        }
    }

    /// Hands on the outcome of an invocation that was carried out elsewhere,
    /// as transformations over floating-point rows are.
    pub fn deliver(&self, outcome: Result<AnyObject, FfiError>) -> (r: FfiResult<AnyObject>)
        ensures
            delivered(r) == handed(self@, reported(outcome)),
    {
        match self.stage.check_usable() {
            Err(error) => FfiResult::Failure(error),
            Ok(_) => match outcome {
                Err(error) => FfiResult::Failure(error),
                Ok(out) => {
                    let expected = Type::vector(Type::atom(self.atom));
                    if out.has_type(&expected) {
                        FfiResult::Success(out)
                    } else {
                        FfiResult::Failure(mismatch(&expected, out.type_()))
                    }
                },
            },
        }
    }
}

/// Invokes a transformation on a sequence of rows. The handle must be
/// constructed and the argument must hold exactly a sequence of the handle's
/// row type. The result is a new container of the same type.
pub fn opendp_core__transformation_invoke(this: &AnyTransformation, arg: &AnyObject) -> (r:
    FfiResult<AnyObject>)
    ensures
        delivered(r) == invoked(this@, arg.shape(), arg.datum()),
{
    proof {
        use_type_invariant(this);
    }
    match this.check_argument(arg) {
        Err(error) => FfiResult::Failure(error),
        Ok(_) => {
            if this.atom.is_integer() {
                match clamp::evaluate(this.kind, this.atom, &this.bounds, arg) {
                    Ok(out) => FfiResult::Success(out),
                    Err(_) => {
                        assert(false);
                        FfiResult::Failure(FfiError::with_text(ErrorKind::InternalFailure, ""))
                    },
                }
            } else {
                let ty = Type::atom(this.atom);
                FfiResult::Failure(refuse(&ty, TypeClass::Integers))
            }
        },
    }
}

/// Nothing is left to do with a released handle: it is not invoked, whatever
/// the argument.
pub proof fn lemma_released_is_not_invoked(this: Blueprint, arg: Shape, rows: Datum)
    requires
        this.stage == Stage::Released,
    ensures
        invoked(this, arg, rows) == Err::<(Shape, Datum), (ErrorKind, Seq<char>)>(
            (ErrorKind::InvalidArgument, stage_message(Stage::Released)),
        ),
{
}

/// Clamping brings every row between the bounds and leaves the number of
/// rows as it is; a row that lies between the bounds stays.
pub proof fn lemma_clamped_rows_lie_between(rows: Datum, lower: Datum, upper: Datum, i: int)
    requires
        int_of(lower) <= int_of(upper),
        0 <= i < rows->Vector_0.len(),
    ensures
        applied(TransformationKind::Clamp, rows, lower, upper)->Vector_0.len()
            == rows->Vector_0.len(),
        int_of(lower) <= int_of(applied(TransformationKind::Clamp, rows, lower, upper)->Vector_0[i])
            <= int_of(upper),
        int_of(lower) <= int_of(rows->Vector_0[i]) <= int_of(upper) ==> applied(
            TransformationKind::Clamp,
            rows,
            lower,
            upper,
        )->Vector_0[i] == rows->Vector_0[i],
{
}

/// Clamping rows that are clamped already changes nothing.
pub proof fn lemma_clamp_twice_is_clamp_once(rows: Datum, lower: Datum, upper: Datum)
    requires
        int_of(lower) <= int_of(upper),
    ensures
        applied(
            TransformationKind::Clamp,
            applied(TransformationKind::Clamp, rows, lower, upper),
            lower,
            upper,
        ) == applied(TransformationKind::Clamp, rows, lower, upper),
{
    let once = applied(TransformationKind::Clamp, rows, lower, upper);
    let twice = applied(TransformationKind::Clamp, once, lower, upper);
    assert(twice->Vector_0 =~= once->Vector_0);
}

/// An argument of any other type than a sequence of the handle's rows is a
/// type mismatch, also where the two types hold numbers of the same kind.
pub proof fn lemma_other_argument_is_mismatch(this: Blueprint, arg: Shape, rows: Datum)
    requires
        this.stage == Stage::Constructed,
        arg != vector_shape(this.atom),
    ensures
        invoked(this, arg, rows) matches Err(e) && e.0 == ErrorKind::TypeMismatch,
{
}

} // verus!
