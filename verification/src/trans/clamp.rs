//! Clamping: the constructors of the two transformations that work with a
//! pair of bounds, and their implementations, one for each integer type.

use vstd::prelude::*;
use std::ops::Bound;
use opendp::traits::{CheckNull, TotalOrd};
use opendp::trans::{make_clamp, make_unclamp};
use crate::any::{int_of, mismatch, mismatch_message, AnyObject, Datum};
use crate::boundary::FfiResult;
use crate::dispatch::{dispatch_selector, select_named};
use crate::error::{kind_of, rejection_of, ErrorKind, FfiError, Rejection, Variant};
use crate::handle::Stage;
use crate::selector::resolve_one;
use crate::trans::{
    applied, clamp_datum, invoked, lower_of, stepped, upper_of, AnyTransformation, Blueprint,
    TransformationKind,
};
use crate::types::{is_float, is_integer, pair_shape, vector_shape, Atom, Shape, Type, TypeClass};

verus! {

/// `x` brought into the interval from `lower` to `upper`.
pub open spec fn clamp_int(x: int, lower: int, upper: int) -> int {
    if x < lower {
        lower
    } else if x > upper {
        upper
    } else {
        x
    }
}

/// What the algorithm library says of bounds that are out of order.
pub open spec fn bounds_message() -> Seq<char> {
    "lower bound may not be greater than upper bound"@
}

/// Whether `rejection` is what the algorithm library answers to bounds that
/// are out of order.
pub open spec fn is_bounds_rejection(rejection: Rejection) -> bool {
    &&& rejection.variant == Variant::MakeDomain
    &&& rejection.message matches Some(m)
    &&& m@ == bounds_message()
}

/// Calls `opendp::trans::make_clamp` with the pair of bounds and, where it
/// returns a transformation, that transformation's `invoke` on `rows`.
///
/// The constructor builds a closed `BoundedDomain` from the bounds, which
/// fails with `MakeDomain` and the message above exactly when the lower
/// bound is greater than the upper bound. The transformation maps
/// `total_clamp` over the rows, which for the integer types compares with
/// `Ord::cmp` and so cannot fail once the bounds are in order: a row below the
/// lower bound becomes the lower bound, one above the upper bound becomes the
/// upper bound, and any other stays.
#[verifier::external_body]
fn clamp_rows<T: Integer + TotalOrd + CheckNull + Clone + 'static>(
    lower: T,
    upper: T,
    rows: &Vec<T>,
) -> (r: Result<Vec<T>, Rejection>)
    ensures
        match r {
            Ok(out) => {
                &&& lower as int <= upper as int
                &&& out@.len() == rows@.len()
                &&& forall|i: int|
                    0 <= i < rows@.len() ==> (#[trigger] out@[i]) as int == clamp_int(
                        rows@[i] as int,
                        lower as int,
                        upper as int,
                    )
            },
            Err(rejection) => lower as int > upper as int && is_bounds_rejection(rejection),
        },
{
    let made = make_clamp::<T>((lower, upper));
    let out = made.and_then(|transformation| transformation.invoke(rows));
    out.map_err(|error| rejection_of(&error))
}

/// Calls `opendp::trans::make_unclamp` with the two bounds, both inclusive,
/// and, where it returns a transformation, that transformation's `invoke` on
/// `rows`.
///
/// The constructor builds a `BoundedDomain` from the bounds, which fails with
/// `MakeDomain` and the message above exactly when the lower bound is
/// greater than the upper bound. The transformation clones each row.
#[verifier::external_body]
fn unclamp_rows<T: Integer + TotalOrd + CheckNull + Clone + 'static>(
    lower: T,
    upper: T,
    rows: &Vec<T>,
) -> (r: Result<Vec<T>, Rejection>)
    ensures
        match r {
            Ok(out) => lower as int <= upper as int && out@ == rows@,
            Err(rejection) => lower as int > upper as int && is_bounds_rejection(rejection),
        },
{
    let made = make_unclamp::<T>((Bound::Included(lower), Bound::Included(upper)));
    let out = made.and_then(|transformation| transformation.invoke(rows));
    out.map_err(|error| rejection_of(&error))
}

/// What the implementation for the row type `atom` answers: the transformed
/// rows where the bounds are in order, and the algorithm library's rejection
/// where they are not.
pub open spec fn answered(
    r: Result<AnyObject, Rejection>,
    kind: TransformationKind,
    atom: Atom,
    bounds: Datum,
    rows: Datum,
) -> bool {
    match r {
        Ok(out) => {
            &&& int_of(lower_of(bounds)) <= int_of(upper_of(bounds))
            &&& out.shape() == vector_shape(atom)
            &&& out.datum() == applied(kind, rows, lower_of(bounds), upper_of(bounds))
        },
        Err(rejection) => int_of(lower_of(bounds)) > int_of(upper_of(bounds))
            && is_bounds_rejection(rejection),
    }
}

/// The implementation for rows of type `i8`.
fn rows_i8(kind: TransformationKind, bounds: &AnyObject, arg: &AnyObject) -> (r: Result<
    AnyObject,
    Rejection,
>)
    requires
        bounds.shape() == pair_shape(Atom::I8),
        arg.shape() == vector_shape(Atom::I8),
    ensures
        answered(r, kind, Atom::I8, bounds.datum(), arg.datum()),
{
    match (bounds.downcast_ref::<(i8, i8)>(), arg.downcast_ref::<Vec<i8>>()) {
        (Ok(pair), Ok(rows)) => {
            let answer = match kind {
                TransformationKind::Clamp => clamp_rows::<i8>(pair.0, pair.1, &rows),
                TransformationKind::Unclamp => unclamp_rows::<i8>(pair.0, pair.1, &rows),
            };
            match answer {
                Ok(out) => {
                    let wrapped = AnyObject::new(out);
                    assert(wrapped.datum()->Vector_0 =~= applied(
                        kind,
                        arg.datum(),
                        lower_of(bounds.datum()),
                        upper_of(bounds.datum()),
                    )->Vector_0);
                    Ok(wrapped)
                },
                Err(rejection) => Err(rejection),
            }
        },
        _ => {
            assert(false);
            Err(Rejection { variant: Variant::Other, message: None })
        },
    }
}

/// The implementation for rows of type `i16`.
fn rows_i16(kind: TransformationKind, bounds: &AnyObject, arg: &AnyObject) -> (r: Result<
    AnyObject,
    Rejection,
>)
    requires
        bounds.shape() == pair_shape(Atom::I16),
        arg.shape() == vector_shape(Atom::I16),
    ensures
        answered(r, kind, Atom::I16, bounds.datum(), arg.datum()),
{
    match (bounds.downcast_ref::<(i16, i16)>(), arg.downcast_ref::<Vec<i16>>()) {
        (Ok(pair), Ok(rows)) => {
            let answer = match kind {
                TransformationKind::Clamp => clamp_rows::<i16>(pair.0, pair.1, &rows),
                TransformationKind::Unclamp => unclamp_rows::<i16>(pair.0, pair.1, &rows),
            };
            match answer {
                Ok(out) => {
                    let wrapped = AnyObject::new(out);
                    assert(wrapped.datum()->Vector_0 =~= applied(
                        kind,
                        arg.datum(),
                        lower_of(bounds.datum()),
                        upper_of(bounds.datum()),
                    )->Vector_0);
                    Ok(wrapped)
                },
                Err(rejection) => Err(rejection),
            }
        },
        _ => {
            assert(false);
            Err(Rejection { variant: Variant::Other, message: None })
        },
    }
}

/// The implementation for rows of type `i32`.
fn rows_i32(kind: TransformationKind, bounds: &AnyObject, arg: &AnyObject) -> (r: Result<
    AnyObject,
    Rejection,
>)
    requires
        bounds.shape() == pair_shape(Atom::I32),
        arg.shape() == vector_shape(Atom::I32),
    ensures
        answered(r, kind, Atom::I32, bounds.datum(), arg.datum()),
{
    match (bounds.downcast_ref::<(i32, i32)>(), arg.downcast_ref::<Vec<i32>>()) {
        (Ok(pair), Ok(rows)) => {
            let answer = match kind {
                TransformationKind::Clamp => clamp_rows::<i32>(pair.0, pair.1, &rows),
                TransformationKind::Unclamp => unclamp_rows::<i32>(pair.0, pair.1, &rows),
            };
            match answer {
                Ok(out) => {
                    let wrapped = AnyObject::new(out);
                    assert(wrapped.datum()->Vector_0 =~= applied(
                        kind,
                        arg.datum(),
                        lower_of(bounds.datum()),
                        upper_of(bounds.datum()),
                    )->Vector_0);
                    Ok(wrapped)
                },
                Err(rejection) => Err(rejection),
            }
        },
        _ => {
            assert(false);
            Err(Rejection { variant: Variant::Other, message: None })
        },
    }
}

/// The implementation for rows of type `i64`.
fn rows_i64(kind: TransformationKind, bounds: &AnyObject, arg: &AnyObject) -> (r: Result<
    AnyObject,
    Rejection,
>)
    requires
        bounds.shape() == pair_shape(Atom::I64),
        arg.shape() == vector_shape(Atom::I64),
    ensures
        answered(r, kind, Atom::I64, bounds.datum(), arg.datum()),
{
    match (bounds.downcast_ref::<(i64, i64)>(), arg.downcast_ref::<Vec<i64>>()) {
        (Ok(pair), Ok(rows)) => {
            let answer = match kind {
                TransformationKind::Clamp => clamp_rows::<i64>(pair.0, pair.1, &rows),
                TransformationKind::Unclamp => unclamp_rows::<i64>(pair.0, pair.1, &rows),
            };
            match answer {
                Ok(out) => {
                    let wrapped = AnyObject::new(out);
                    assert(wrapped.datum()->Vector_0 =~= applied(
                        kind,
                        arg.datum(),
                        lower_of(bounds.datum()),
                        upper_of(bounds.datum()),
                    )->Vector_0);
                    Ok(wrapped)
                },
                Err(rejection) => Err(rejection),
            }
        },
        _ => {
            assert(false);
            Err(Rejection { variant: Variant::Other, message: None })
        },
    }
}

/// The implementation for rows of type `u8`.
fn rows_u8(kind: TransformationKind, bounds: &AnyObject, arg: &AnyObject) -> (r: Result<
    AnyObject,
    Rejection,
>)
    requires
        bounds.shape() == pair_shape(Atom::U8),
        arg.shape() == vector_shape(Atom::U8),
    ensures
        answered(r, kind, Atom::U8, bounds.datum(), arg.datum()),
{
    match (bounds.downcast_ref::<(u8, u8)>(), arg.downcast_ref::<Vec<u8>>()) {
        (Ok(pair), Ok(rows)) => {
            let answer = match kind {
                TransformationKind::Clamp => clamp_rows::<u8>(pair.0, pair.1, &rows),
                TransformationKind::Unclamp => unclamp_rows::<u8>(pair.0, pair.1, &rows),
            };
            match answer {
                Ok(out) => {
                    let wrapped = AnyObject::new(out);
                    assert(wrapped.datum()->Vector_0 =~= applied(
                        kind,
                        arg.datum(),
                        lower_of(bounds.datum()),
                        upper_of(bounds.datum()),
                    )->Vector_0);
                    Ok(wrapped)
                },
                Err(rejection) => Err(rejection),
            }
        },
        _ => {
            assert(false);
            Err(Rejection { variant: Variant::Other, message: None })
        },
    }
}

/// The implementation for rows of type `u16`.
fn rows_u16(kind: TransformationKind, bounds: &AnyObject, arg: &AnyObject) -> (r: Result<
    AnyObject,
    Rejection,
>)
    requires
        bounds.shape() == pair_shape(Atom::U16),
        arg.shape() == vector_shape(Atom::U16),
    ensures
        answered(r, kind, Atom::U16, bounds.datum(), arg.datum()),
{
    match (bounds.downcast_ref::<(u16, u16)>(), arg.downcast_ref::<Vec<u16>>()) {
        (Ok(pair), Ok(rows)) => {
            let answer = match kind {
                TransformationKind::Clamp => clamp_rows::<u16>(pair.0, pair.1, &rows),
                TransformationKind::Unclamp => unclamp_rows::<u16>(pair.0, pair.1, &rows),
            };
            match answer {
                Ok(out) => {
                    let wrapped = AnyObject::new(out);
                    assert(wrapped.datum()->Vector_0 =~= applied(
                        kind,
                        arg.datum(),
                        lower_of(bounds.datum()),
                        upper_of(bounds.datum()),
                    )->Vector_0);
                    Ok(wrapped)
                },
                Err(rejection) => Err(rejection),
            }
        },
        _ => {
            assert(false);
            Err(Rejection { variant: Variant::Other, message: None })
        },
    }
}

/// The implementation for rows of type `u32`.
fn rows_u32(kind: TransformationKind, bounds: &AnyObject, arg: &AnyObject) -> (r: Result<
    AnyObject,
    Rejection,
>)
    requires
        bounds.shape() == pair_shape(Atom::U32),
        arg.shape() == vector_shape(Atom::U32),
    ensures
        answered(r, kind, Atom::U32, bounds.datum(), arg.datum()),
{
    match (bounds.downcast_ref::<(u32, u32)>(), arg.downcast_ref::<Vec<u32>>()) {
        (Ok(pair), Ok(rows)) => {
            let answer = match kind {
                TransformationKind::Clamp => clamp_rows::<u32>(pair.0, pair.1, &rows),
                TransformationKind::Unclamp => unclamp_rows::<u32>(pair.0, pair.1, &rows),
            };
            match answer {
                Ok(out) => {
                    let wrapped = AnyObject::new(out);
                    assert(wrapped.datum()->Vector_0 =~= applied(
                        kind,
                        arg.datum(),
                        lower_of(bounds.datum()),
                        upper_of(bounds.datum()),
                    )->Vector_0);
                    Ok(wrapped)
                },
                Err(rejection) => Err(rejection),
            }
        },
        _ => {
            assert(false);
            Err(Rejection { variant: Variant::Other, message: None })
        },
    }
}

/// The implementation for rows of type `u64`.
fn rows_u64(kind: TransformationKind, bounds: &AnyObject, arg: &AnyObject) -> (r: Result<
    AnyObject,
    Rejection,
>)
    requires
        bounds.shape() == pair_shape(Atom::U64),
        arg.shape() == vector_shape(Atom::U64),
    ensures
        answered(r, kind, Atom::U64, bounds.datum(), arg.datum()),
{
    match (bounds.downcast_ref::<(u64, u64)>(), arg.downcast_ref::<Vec<u64>>()) {
        (Ok(pair), Ok(rows)) => {
            let answer = match kind {
                TransformationKind::Clamp => clamp_rows::<u64>(pair.0, pair.1, &rows),
                TransformationKind::Unclamp => unclamp_rows::<u64>(pair.0, pair.1, &rows),
            };
            match answer {
                Ok(out) => {
                    let wrapped = AnyObject::new(out);
                    assert(wrapped.datum()->Vector_0 =~= applied(
                        kind,
                        arg.datum(),
                        lower_of(bounds.datum()),
                        upper_of(bounds.datum()),
                    )->Vector_0);
                    Ok(wrapped)
                },
                Err(rejection) => Err(rejection),
            }
        },
        _ => {
            assert(false);
            Err(Rejection { variant: Variant::Other, message: None })
        },
    }
}

/// The table of implementations: each integer type has its own, built for
/// rows of that type and no other.
pub(crate) fn evaluate(
    kind: TransformationKind,
    atom: Atom,
    bounds: &AnyObject,
    arg: &AnyObject,
) -> (r: Result<AnyObject, Rejection>)
    requires
        is_integer(atom),
        bounds.shape() == pair_shape(atom),
        arg.shape() == vector_shape(atom),
    ensures
        answered(r, kind, atom, bounds.datum(), arg.datum()),
{
    match atom {
        Atom::I8 => rows_i8(kind, bounds, arg),
        Atom::I16 => rows_i16(kind, bounds, arg),
        Atom::I32 => rows_i32(kind, bounds, arg),
        Atom::I64 => rows_i64(kind, bounds, arg),
        Atom::U8 => rows_u8(kind, bounds, arg),
        Atom::U16 => rows_u16(kind, bounds, arg),
        Atom::U32 => rows_u32(kind, bounds, arg),
        Atom::U64 => rows_u64(kind, bounds, arg),
        _ => {
            assert(false);
            Err(Rejection { variant: Variant::Other, message: None })
        },
    }
}

/// What constructing a transformation of kind `kind` from `bounds` and the
/// selector `selector` gives.
///
/// The selector must name one type, and the type must be a number type; the
/// bounds must be exactly a pair of that type. Over an integer type the
/// algorithm library then decides: it accepts bounds that are in order, and
/// the handle is constructed. Over a floating-point type the handle is left
/// unconstructed, for the verdict to be brought in later.
pub open spec fn made(
    kind: TransformationKind,
    bounds: Shape,
    pair: Datum,
    selector: Seq<char>,
) -> Result<Blueprint, (ErrorKind, Seq<char>)> {
    match select_named(selector, TypeClass::Numbers) {
        Err(e) => Err(e),
        Ok(atom) => if bounds != pair_shape(atom) {
            Err((ErrorKind::TypeMismatch, mismatch_message(pair_shape(atom), bounds)))
        } else if is_float(atom) {
            Ok(
                Blueprint {
                    kind,
                    atom,
                    lower: lower_of(pair),
                    upper: upper_of(pair),
                    stage: Stage::Unconstructed,
                },
            )
        } else if int_of(lower_of(pair)) > int_of(upper_of(pair)) {
            Err((ErrorKind::InvalidArgument, bounds_message()))
        } else {
            Ok(
                Blueprint {
                    kind,
                    atom,
                    lower: lower_of(pair),
                    upper: upper_of(pair),
                    stage: Stage::Constructed,
                },
            )
        },
    }
}

/// A selector that names a type outside the numbers constructs nothing,
/// whatever the bounds: the refusal comes before the algorithm library is
/// asked.
pub proof fn lemma_outsider_constructs_nothing(
    kind: TransformationKind,
    bounds: Shape,
    pair: Datum,
    selector: Seq<char>,
)
    requires
        resolve_one(selector) matches Ok(shape) && !TypeClass::Numbers.contains(shape),
    ensures
        made(kind, bounds, pair, selector) matches Err(e) && e.0 == ErrorKind::UnsupportedType,
{
}

/// A handle is a handle over the type that the selector names, and over no
/// other.
pub proof fn lemma_handle_is_over_named_type(
    kind: TransformationKind,
    bounds: Shape,
    pair: Datum,
    selector: Seq<char>,
)
    ensures
        made(kind, bounds, pair, selector) matches Ok(blueprint) ==> {
            &&& resolve_one(selector) == Ok::<Shape, (ErrorKind, Seq<char>)>(
                Shape::Atom(blueprint.atom),
            )
            &&& bounds == pair_shape(blueprint.atom)
            &&& blueprint.kind == kind
        },
{
}

/// Constructing a clamp over an integer type and invoking it on a sequence
/// of rows of that type gives a sequence of that type with as many rows, in
/// the same order, each brought between the bounds: a row below the lower
/// bound becomes the lower bound, one above the upper bound becomes the
/// upper bound, and any other stays.
pub proof fn lemma_constructed_clamp_clamps(
    bounds: Shape,
    pair: Datum,
    selector: Seq<char>,
    arg: Shape,
    rows: Datum,
)
    requires
        made(TransformationKind::Clamp, bounds, pair, selector) matches Ok(handle) && is_integer(
            handle.atom,
        ) && arg == vector_shape(handle.atom),
    ensures
        int_of(lower_of(pair)) <= int_of(upper_of(pair)),
        invoked(made(TransformationKind::Clamp, bounds, pair, selector)->Ok_0, arg, rows) matches Ok(
            out,
        ) && {
            &&& out.0 == arg
            &&& out.1->Vector_0.len() == rows->Vector_0.len()
            &&& forall|i: int|
                0 <= i < rows->Vector_0.len() ==> {
                    &&& (#[trigger] out.1->Vector_0[i]) == clamp_datum(
                        rows->Vector_0[i],
                        lower_of(pair),
                        upper_of(pair),
                    )
                    &&& int_of(lower_of(pair)) <= int_of(out.1->Vector_0[i]) <= int_of(
                        upper_of(pair),
                    )
                }
        },
{
}

fn make(kind: TransformationKind, bounds: &AnyObject, selector: &str) -> (r: FfiResult<
    AnyTransformation,
>)
    ensures
        stepped(r) == made(kind, bounds.shape(), bounds.datum(), selector@),
{
    let atom = match dispatch_selector(selector, TypeClass::Numbers) {
        Ok(atom) => atom,
        Err(error) => {
            return FfiResult::Failure(error);
        },
    };
    let expected = Type::pair(Type::atom(atom), Type::atom(atom));
    if !bounds.has_type(&expected) {
        return FfiResult::Failure(mismatch(&expected, bounds.type_()));
    }
    if atom.is_float() {
        return FfiResult::Success(
            AnyTransformation::assemble(kind, atom, bounds.duplicate(), Stage::Unconstructed),
        );
    }
    let nothing = AnyObject::empty_vector(Type::atom(atom));
    match evaluate(kind, atom, bounds, &nothing) {
        Ok(_) => FfiResult::Success(
            AnyTransformation::assemble(kind, atom, bounds.duplicate(), Stage::Constructed),
        ),
        Err(rejection) => {
            assert(kind_of(rejection.variant) == ErrorKind::InvalidArgument);
            FfiResult::Failure(FfiError::from_rejection(rejection))
        },
    }
}

/// Constructs the transformation that clamps every row of a sequence to the
/// interval given by `bounds`, for rows of the type that `TA` names.
pub fn opendp_trans__make_clamp(bounds: &AnyObject, TA: &str) -> (r: FfiResult<AnyTransformation>)
    ensures
        stepped(r) == made(TransformationKind::Clamp, bounds.shape(), bounds.datum(), TA@),
{
    make(TransformationKind::Clamp, bounds, TA)
}

/// Constructs the transformation that takes rows from the interval given by
/// `bounds` and hands them on without the bounds, for rows of the type that
/// `TA` names.
pub fn opendp_trans__make_unclamp(bounds: &AnyObject, TA: &str) -> (r: FfiResult<
    AnyTransformation,
>)
    ensures
        stepped(r) == made(TransformationKind::Unclamp, bounds.shape(), bounds.datum(), TA@),
{
    make(TransformationKind::Unclamp, bounds, TA)
}

} // verus!
