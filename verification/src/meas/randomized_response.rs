//! The constructors of the two randomized-response mechanisms.

use vstd::prelude::*;
use crate::any::{mismatch, mismatch_message, AnyObject, Datum};
use crate::boundary::FfiResult;
use crate::dispatch::{
    dispatch_all, dispatch_selector, lemma_tuple_reaches_its_own, select_all, select_named,
};
use crate::error::ErrorKind;
use crate::handle::Stage;
use crate::meas::{classes_of, contents, stepped, AnyMeasurement, MeasurementKind, Recipe};
use crate::selector::resolve_one;
use crate::types::{shapes_of, vector_shape, Atom, Shape, Type, TypeClass};
use crate::util::{c_bool, to_bool};

verus! {

/// What constructing randomized response on a boolean gives. The selector
/// `q` must name one type, a floating-point type, and the probability must be
/// held as exactly that type. The handle is left unconstructed: whether the
/// probability is one the mechanism can work with is for the constructor of
/// the algorithm library to say.
pub open spec fn made_bool(prob: (Shape, Datum), constant_time: c_bool, q: Seq<char>) -> Result<
    Recipe,
    (ErrorKind, Seq<char>),
> {
    match select_named(q, TypeClass::Floats) {
        Err(e) => Err(e),
        Ok(atom) => if prob.0 != Shape::Atom(atom) {
            Err((ErrorKind::TypeMismatch, mismatch_message(Shape::Atom(atom), prob.0)))
        } else {
            Ok(
                Recipe {
                    kind: MeasurementKind::RandomizedResponseBool,
                    types: seq![atom],
                    args: seq![prob, (Shape::Atom(Atom::Bool), Datum::Bool(constant_time != 0))],
                    stage: Stage::Unconstructed,
                },
            )
        },
    }
}

/// What constructing randomized response over a set of categories gives.
/// Both selectors are read first, `t` before `q`. Then the two types are
/// resolved against the classes of the call site: the type of a category
/// must be one that can be hashed, and the type of the probability a
/// floating-point type. The categories must be held as exactly a sequence of
/// the one and the probability as exactly the other. The handle is left
/// unconstructed.
pub open spec fn made_categorical(
    categories: (Shape, Datum),
    prob: (Shape, Datum),
    constant_time: c_bool,
    t: Seq<char>,
    q: Seq<char>,
) -> Result<Recipe, (ErrorKind, Seq<char>)> {
    match (resolve_one(t), resolve_one(q)) {
        (Err(e), _) => Err(e),
        (Ok(_), Err(e)) => Err(e),
        (Ok(category), Ok(probability)) => match select_all(
            seq![category, probability],
            classes_of(MeasurementKind::RandomizedResponse),
        ) {
            Err(e) => Err(e),
            Ok(types) => if categories.0 != vector_shape(types[0]) {
                Err(
                    (
                        ErrorKind::TypeMismatch,
                        mismatch_message(vector_shape(types[0]), categories.0),
                    ),
                )
            } else if prob.0 != Shape::Atom(types[1]) {
                Err((ErrorKind::TypeMismatch, mismatch_message(Shape::Atom(types[1]), prob.0)))
            } else {
                Ok(
                    Recipe {
                        kind: MeasurementKind::RandomizedResponse,
                        types,
                        args: seq![
                            categories,
                            prob,
                            (Shape::Atom(Atom::Bool), Datum::Bool(constant_time != 0)),
                        ],
                        stage: Stage::Unconstructed,
                    },
                )
            },
        },
    }
}

/// Constructs randomized response on a boolean: the answer is the truth with
/// probability `prob`, a number of the type that `Q` names.
pub fn opendp_meas__make_randomized_response_bool(
    prob: &AnyObject,
    constant_time: c_bool,
    Q: &str,
) -> (r: FfiResult<AnyMeasurement>)
    ensures
        stepped(r) == made_bool((prob.shape(), prob.datum()), constant_time, Q@),
{
    let atom = match dispatch_selector(Q, TypeClass::Floats) {
        Ok(atom) => atom,
        Err(error) => {
            return FfiResult::Failure(error);
        },
    };
    let expected = Type::atom(atom);
    if !prob.has_type(&expected) {
        return FfiResult::Failure(mismatch(&expected, prob.type_()));
    }
    let constant_time = to_bool(constant_time);
    let mut types: Vec<Atom> = Vec::new();
    types.push(atom);
    let mut args: Vec<AnyObject> = Vec::new();
    args.push(prob.duplicate());
    args.push(AnyObject::new(constant_time));
    assert(types@ =~= seq![atom]);
    assert(contents(args@) =~= seq![
        (prob.shape(), prob.datum()),
        (Shape::Atom(Atom::Bool), Datum::Bool(constant_time)),
    ]);
    FfiResult::Success(
        AnyMeasurement::assemble(MeasurementKind::RandomizedResponseBool, types, args),
    )
}

/// Constructs randomized response over `categories`, a sequence of values of
/// the type that `T` names: the answer is the truth with probability `prob`,
/// a number of the type that `Q` names.
pub fn opendp_meas__make_randomized_response(
    categories: &AnyObject,
    prob: &AnyObject,
    constant_time: c_bool,
    T: &str,
    Q: &str,
) -> (r: FfiResult<AnyMeasurement>)
    ensures
        stepped(r) == made_categorical(
            (categories.shape(), categories.datum()),
            (prob.shape(), prob.datum()),
            constant_time,
            T@,
            Q@,
        ),
{
    let category = match Type::try_from(T) {
        Ok(ty) => ty,
        Err(error) => {
            return FfiResult::Failure(error);
        },
    };
    let probability = match Type::try_from(Q) {
        Ok(ty) => ty,
        Err(error) => {
            return FfiResult::Failure(error);
        },
    };
    let ghost named = seq![category@, probability@];
    let mut named_types: Vec<Type> = Vec::new();
    named_types.push(category);
    named_types.push(probability);
    let mut classes: Vec<TypeClass> = Vec::new();
    classes.push(TypeClass::Hashable);
    classes.push(TypeClass::Floats);
    proof {
        assert(shapes_of(named_types@) =~= named);
        assert(classes@ =~= classes_of(MeasurementKind::RandomizedResponse));
        lemma_tuple_reaches_its_own(named, classes@);
    }
    let types = match dispatch_all(&named_types, &classes) {
        Ok(types) => types,
        Err(error) => {
            return FfiResult::Failure(error);
        },
    };
    let member = types[0];
    let float = types[1];
    let expected = Type::vector(Type::atom(member));
    if !categories.has_type(&expected) {
        return FfiResult::Failure(mismatch(&expected, categories.type_()));
    }
    let expected = Type::atom(float);
    if !prob.has_type(&expected) {
        return FfiResult::Failure(mismatch(&expected, prob.type_()));
    }
    let constant_time = to_bool(constant_time);
    let mut args: Vec<AnyObject> = Vec::new();
    args.push(categories.duplicate());
    args.push(prob.duplicate());
    args.push(AnyObject::new(constant_time));
    assert(contents(args@) =~= seq![
        (categories.shape(), categories.datum()),
        (prob.shape(), prob.datum()),
        (Shape::Atom(Atom::Bool), Datum::Bool(constant_time)),
    ]);
    FfiResult::Success(AnyMeasurement::assemble(MeasurementKind::RandomizedResponse, types, args))
}

} // verus!
