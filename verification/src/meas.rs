//! Measurements: handles to randomized mechanisms, and the constructors of
//! the additive-noise mechanisms.
//!
//! Every mechanism works in floating point and draws random numbers. This
//! library resolves its types and checks what goes in and what comes out;
//! the construction itself and each invocation are carried out by the
//! embedding program, which brings the verdict back.

use vstd::prelude::*;
use crate::any::{mismatch, mismatch_message, AnyObject, Datum, Float64};
use crate::boundary::FfiResult;
use crate::dispatch::{dispatch_selector, select_named};
use crate::error::{ErrorKind, FfiError};
use crate::meas::bootstrap::{manifest, write_manifest};
use crate::handle::{after_release, after_verdict, stage_message, staged, usable, Stage};
use crate::trans::{delivered, reported};
use crate::types::{vector_shape, Atom, Shape, Type, TypeClass};

pub mod bootstrap;
pub mod randomized_response;

verus! {

/// The measurements that can be constructed.
#[derive(Clone, Copy, Debug, PartialEq, Eq, Structural)]
pub enum MeasurementKind {
    /// Laplace noise on one number.
    BaseLaplace,
    /// Laplace noise on each number of a sequence.
    BaseLaplaceVec,
    /// Gaussian noise on one number.
    BaseGaussian,
    /// Randomized response on a boolean.
    RandomizedResponseBool,
    /// Randomized response on a member of a set of categories.
    RandomizedResponse,
}

/// What a measurement handle stands for.
pub struct Recipe {
    pub kind: MeasurementKind,
    /// The types the call site was resolved to, in the order of its type
    /// parameters.
    pub types: Seq<Atom>,
    /// The arguments of the constructor, each with its type.
    pub args: Seq<(Shape, Datum)>,
    pub stage: Stage,
}

/// A handle to a measurement.
#[derive(Debug, PartialEq, Eq)]
pub struct AnyMeasurement {
    kind: MeasurementKind,
    types: Vec<Atom>,
    args: Vec<AnyObject>,
    stage: Stage,
}

/// The classes that the call site of each measurement accepts, one for each
/// of its type parameters.
pub open spec fn classes_of(kind: MeasurementKind) -> Seq<TypeClass> {
    match kind {
        MeasurementKind::BaseLaplace => seq![TypeClass::Numbers],
        MeasurementKind::BaseLaplaceVec => seq![TypeClass::Numbers],
        MeasurementKind::BaseGaussian => seq![TypeClass::Numbers],
        MeasurementKind::RandomizedResponseBool => seq![TypeClass::Floats],
        MeasurementKind::RandomizedResponse => seq![TypeClass::Hashable, TypeClass::Floats],
    }
}

/// Whether `types` are types that the call site of `kind` accepts: as many
/// as it has type parameters, each a member of the class of its position.
pub open spec fn well_typed(kind: MeasurementKind, types: Seq<Atom>) -> bool {
    &&& types.len() == classes_of(kind).len()
    &&& forall|i: int| 0 <= i < types.len() ==> classes_of(kind)[i].admits(#[trigger] types[i])
}

/// The type of what a measurement takes and of what it gives; the two are the
/// same for every measurement here.
pub open spec fn carrier(kind: MeasurementKind, types: Seq<Atom>) -> Shape {
    match kind {
        MeasurementKind::BaseLaplace => Shape::Atom(types[0]),
        MeasurementKind::BaseLaplaceVec => vector_shape(types[0]),
        MeasurementKind::BaseGaussian => Shape::Atom(types[0]),
        MeasurementKind::RandomizedResponseBool => Shape::Atom(Atom::Bool),
        MeasurementKind::RandomizedResponse => Shape::Atom(types[0]),
    }
}

/// Whether a handle takes an argument of type `arg`: it must be constructed,
/// and the type must be exactly the one the measurement works on.
pub open spec fn admits(this: Recipe, arg: Shape) -> Result<(), (ErrorKind, Seq<char>)> {
    if this.stage != Stage::Constructed {
        usable(this.stage)
    } else if arg != carrier(this.kind, this.types) {
        Err((ErrorKind::TypeMismatch, mismatch_message(carrier(this.kind, this.types), arg)))
    } else {
        Ok(())
    }
}

/// What a handle makes of the outcome of an invocation, which is carried
/// out elsewhere. The handle must be constructed. An error is handed on
/// unchanged. A result must be exactly of the type the measurement works on,
/// and is then handed on as it is; any other type is a mismatch.
pub open spec fn handed(
    this: Recipe,
    outcome: Result<(Shape, Datum), (ErrorKind, Seq<char>)>,
) -> Result<(Shape, Datum), (ErrorKind, Seq<char>)> {
    if this.stage != Stage::Constructed {
        Err((ErrorKind::InvalidArgument, stage_message(this.stage)))
    } else {
        match outcome {
            Err(e) => Err(e),
            Ok(out) => if out.0 != carrier(this.kind, this.types) {
                Err(
                    (
                        ErrorKind::TypeMismatch,
                        mismatch_message(carrier(this.kind, this.types), out.0),
                    ),
                )
            } else {
                Ok(out)
            },
        }
    }
}

/// The outcome of a step in the life of a handle in mathematical form.
pub open spec fn stepped(r: FfiResult<AnyMeasurement>) -> Result<Recipe, (ErrorKind, Seq<char>)> {
    match r {
        FfiResult::Success(handle) => Ok(handle@),
        FfiResult::Failure(error) => Err((error.kind, error.message@)),
    }
}

/// The types and values of a list of containers.
pub open spec fn contents(args: Seq<AnyObject>) -> Seq<(Shape, Datum)> {
    Seq::new(args.len(), |i: int| (args[i].shape(), args[i].datum()))
}

impl View for AnyMeasurement {
    type V = Recipe;

    closed spec fn view(&self) -> Recipe {
        Recipe {
            kind: self.kind,
            types: self.types@,
            args: contents(self.args@),
            stage: self.stage,
        }
    }
}

impl AnyMeasurement {
    /// The types are types that the call site accepts.
    #[verifier::type_invariant]
    spec fn valid(self) -> bool {
        well_typed(self.kind, self.types@)
    }

    pub(crate) fn assemble(
        kind: MeasurementKind,
        types: Vec<Atom>,
        args: Vec<AnyObject>,
    ) -> (r: AnyMeasurement)
        requires
            well_typed(kind, types@),
        ensures
            r@ == (Recipe {
                kind,
                types: types@,
                args: contents(args@),
                stage: Stage::Unconstructed,
            }),
    {
        AnyMeasurement { kind, types, args, stage: Stage::Unconstructed }
    }

    /// Which measurement this is.
    pub fn kind(&self) -> (r: MeasurementKind)
        ensures
            r == self@.kind,
    {
        self.kind
    }

    /// The types the call site was resolved to. They are types that the call
    /// site accepts.
    pub fn types(&self) -> (r: &Vec<Atom>)
        ensures
            r@ == self@.types,
            well_typed(self@.kind, r@),
    {
        proof {
            use_type_invariant(self);
        }
        &self.types
    }

    /// The arguments of the constructor.
    pub fn args(&self) -> (r: &Vec<AnyObject>)
        ensures
            contents(r@) == self@.args,
    {
        &self.args
    }

    /// Where the handle stands in its life.
    pub fn stage(&self) -> (r: Stage)
        ensures
            r == self@.stage,
    {
        self.stage
    }

    /// The type of what the measurement takes and gives.
    pub fn carrier(&self) -> (r: Type)
        ensures
            r@ == carrier(self@.kind, self@.types),
    {
        proof {
            use_type_invariant(self);
        }
        match self.kind {
            MeasurementKind::BaseLaplace => Type::atom(self.types[0]),
            MeasurementKind::BaseLaplaceVec => Type::vector(Type::atom(self.types[0])),
            MeasurementKind::BaseGaussian => Type::atom(self.types[0]),
            MeasurementKind::RandomizedResponseBool => Type::atom(Atom::Bool),
            MeasurementKind::RandomizedResponse => Type::atom(self.types[0]),
        }
    }

    /// Takes the verdict of the constructor of the algorithm library on a
    /// handle that is not yet constructed. An acceptance gives the same
    /// handle, constructed. A rejection is handed on unchanged. A handle in
    /// any other stage takes no verdict.
    pub fn construct(self, outcome: Result<(), FfiError>) -> (r: FfiResult<AnyMeasurement>)
        ensures
            stepped(r) == (match after_verdict(self@.stage, outcome) {
                Ok(stage) => Ok(Recipe { stage, ..self@ }),
                Err(e) => Err(e),
            }),
    {
        proof {
            use_type_invariant(&self);
        }
        match self.stage.construct(outcome) {
            Ok(stage) => FfiResult::Success(
                AnyMeasurement { kind: self.kind, types: self.types, args: self.args, stage },
            ),
            Err(error) => FfiResult::Failure(error),
        }
    }

    /// Gives a constructed handle up. What comes back is the same handle,
    /// released: nothing can be done with it any more.
    pub fn release(self) -> (r: FfiResult<AnyMeasurement>)
        ensures
            stepped(r) == (match after_release(self@.stage) {
                Ok(stage) => Ok(Recipe { stage, ..self@ }),
                Err(e) => Err(e),
            }),
    {
        proof {
            use_type_invariant(&self);
        }
        match self.stage.release() {
            Ok(stage) => FfiResult::Success(
                AnyMeasurement { kind: self.kind, types: self.types, args: self.args, stage },
            ),
            Err(error) => FfiResult::Failure(error),
        }
    }

    /// Checks an argument before invocation.
    pub fn check_argument(&self, arg: &AnyObject) -> (r: Result<(), FfiError>)
        ensures
            staged(r) == admits(self@, arg.shape()),
    {
        match self.stage.check_usable() {
            Err(error) => Err(error),
            Ok(_) => {
                let expected = self.carrier();
                if arg.has_type(&expected) {
                    Ok(())
                } else {
                    Err(mismatch(&expected, arg.type_()))
                }
            },
        }
    }

    /// Hands on the outcome of an invocation.
    pub fn deliver(&self, outcome: Result<AnyObject, FfiError>) -> (r: FfiResult<AnyObject>)
        ensures
            delivered(r) == handed(self@, reported(outcome)),
    {
        match self.stage.check_usable() {
            Err(error) => FfiResult::Failure(error),
            Ok(_) => match outcome {
                Err(error) => FfiResult::Failure(error),
                Ok(out) => {
                    let expected = self.carrier();
                    if out.has_type(&expected) {
                        FfiResult::Success(out)
                    } else {
                        FfiResult::Failure(mismatch(&expected, out.type_()))
                    }
                },
            },
        }
    }
}

/// What constructing an additive-noise mechanism of kind `kind` from the
/// selector `selector` and the scale `sigma` gives: the selector must name
/// one type, a number type. The handle is left unconstructed.
pub open spec fn scaled(kind: MeasurementKind, selector: Seq<char>, sigma: Float64) -> Result<
    Recipe,
    (ErrorKind, Seq<char>),
> {
    match select_named(selector, TypeClass::Numbers) {
        Err(e) => Err(e),
        Ok(atom) => Ok(
            Recipe {
                kind,
                types: seq![atom],
                args: seq![(Shape::Atom(Atom::F64), Datum::F64(sigma.bits))],
                stage: Stage::Unconstructed,
            },
        ),
    }
}

fn make_scaled(kind: MeasurementKind, type_args: &str, sigma: Float64) -> (r: FfiResult<
    AnyMeasurement,
>)
    requires
        classes_of(kind) == seq![TypeClass::Numbers],
    ensures
        stepped(r) == scaled(kind, type_args@, sigma),
{
    match dispatch_selector(type_args, TypeClass::Numbers) {
        Err(error) => FfiResult::Failure(error),
        Ok(atom) => {
            let mut types: Vec<Atom> = Vec::new();
            types.push(atom);
            let mut args: Vec<AnyObject> = Vec::new();
            args.push(AnyObject::new(sigma));
            assert(types@ =~= seq![atom]);
            assert(contents(args@) =~= seq![(Shape::Atom(Atom::F64), Datum::F64(sigma.bits))]);
            FfiResult::Success(AnyMeasurement::assemble(kind, types, args))
        },
    }
}

/// Constructs the mechanism that adds Laplace noise of scale `sigma` to one
/// number of the type that `type_args` names.
pub fn opendp_meas__make_base_laplace(type_args: &str, sigma: Float64) -> (r: FfiResult<
    AnyMeasurement,
>)
    ensures
        stepped(r) == scaled(MeasurementKind::BaseLaplace, type_args@, sigma),
{
    make_scaled(MeasurementKind::BaseLaplace, type_args, sigma)
}

/// Constructs the mechanism that adds Laplace noise of scale `sigma` to each
/// number of a sequence, for numbers of the type that `type_args` names.
pub fn opendp_meas__make_base_laplace_vec(type_args: &str, sigma: Float64) -> (r: FfiResult<
    AnyMeasurement,
>)
    ensures
        stepped(r) == scaled(MeasurementKind::BaseLaplaceVec, type_args@, sigma),
{
    make_scaled(MeasurementKind::BaseLaplaceVec, type_args, sigma)
}

/// Constructs the mechanism that adds Gaussian noise of scale `sigma` to one
/// number of the type that `type_args` names.
pub fn opendp_meas__make_base_gaussian(type_args: &str, sigma: Float64) -> (r: FfiResult<
    AnyMeasurement,
>)
    ensures
        stepped(r) == scaled(MeasurementKind::BaseGaussian, type_args@, sigma),
{
    make_scaled(MeasurementKind::BaseGaussian, type_args, sigma)
}

/// Describes the entry points for measurements: every constructor, each
/// once, with its name, its arguments in order, each with its type, and what
/// it gives. Nothing is constructed.
pub fn opendp_meas__bootstrap() -> (r: String)
    ensures
        r@ == manifest(),
{
    write_manifest()
}

} // verus!
