use opendp_ffi::any::{AnyObject, Float32, Float64};
use opendp_ffi::boundary::FfiResult;
use opendp_ffi::error::{lift_error, ErrorKind, FfiError};
use opendp_ffi::handle::Stage;
use opendp_ffi::trans::clamp::{opendp_trans__make_clamp, opendp_trans__make_unclamp};
use opendp_ffi::trans::{opendp_core__transformation_invoke, AnyTransformation, TransformationKind};
use opendp_ffi::types::Atom;

fn float(x: f64) -> Float64 {
    Float64 { bits: x.to_bits() }
}

fn plain(x: Float64) -> f64 {
    f64::from_bits(x.bits)
}

fn failure<T>(result: FfiResult<T>) -> FfiError {
    match result {
        FfiResult::Success(_) => panic!("expected a failure"),
        FfiResult::Failure(error) => error,
    }
}

fn clamp_i32(lower: i32, upper: i32) -> AnyTransformation {
    opendp_trans__make_clamp(&AnyObject::new((lower, upper)), "i32").into_result().unwrap()
}

#[test]
fn test_make_vector_clamp() {
    let pending = opendp_trans__make_clamp(&AnyObject::new((float(0.0), float(10.0))), "f64")
        .into_result()
        .unwrap();
    assert_eq!(pending.kind(), TransformationKind::Clamp);
    assert_eq!(pending.atom(), Atom::F64);
    assert_eq!(pending.stage(), Stage::Unconstructed);

    let (lower, upper): (Float64, Float64) = pending.bounds().downcast_ref().unwrap();
    let built = opendp::trans::make_clamp::<f64>((plain(lower), plain(upper)));
    let verdict = match &built {
        Ok(_) => Ok(()),
        Err(error) => Err(lift_error(error)),
    };
    let transformation = pending.construct(verdict).into_result().unwrap();
    assert_eq!(transformation.stage(), Stage::Constructed);

    let arg = AnyObject::new(vec![float(-1.0), float(5.0), float(11.0)]);
    transformation.check_argument(&arg).unwrap();
    let rows: Vec<Float64> = arg.downcast().unwrap();
    let rows: Vec<f64> = rows.into_iter().map(plain).collect();
    let outcome = built
        .unwrap()
        .invoke(&rows)
        .map(|out| AnyObject::new(out.into_iter().map(float).collect::<Vec<Float64>>()))
        .map_err(|error| lift_error(&error));
    let res = transformation.deliver(outcome).into_result().unwrap();
    let res: Vec<Float64> = res.downcast().unwrap();
    let res: Vec<f64> = res.into_iter().map(plain).collect();
    assert_eq!(res, vec![0.0, 5.0, 10.0]);
}

#[test]
fn clamp_over_i32_is_carried_out() {
    let transformation = clamp_i32(0, 10);
    assert_eq!(transformation.kind(), TransformationKind::Clamp);
    assert_eq!(transformation.atom(), Atom::I32);
    assert_eq!(transformation.stage(), Stage::Constructed);
    let arg = AnyObject::new(vec![-1i32, 5, 11]);
    let res = opendp_core__transformation_invoke(&transformation, &arg);
    let res: Vec<i32> = res.into_result().unwrap().downcast().unwrap();
    assert_eq!(res, vec![0, 5, 10]);
}

#[test]
fn clamp_keeps_rows_inside_and_on_the_bounds() {
    let transformation = clamp_i32(0, 10);
    let arg = AnyObject::new(vec![-10i32, -5, 0, 5, 10, 20]);
    let res = opendp_core__transformation_invoke(&transformation, &arg);
    let res: Vec<i32> = res.into_result().unwrap().downcast().unwrap();
    assert_eq!(res, vec![0, 0, 0, 5, 10, 10]);
}

#[test]
fn clamp_of_no_rows_is_no_rows() {
    let transformation = clamp_i32(0, 10);
    let arg = AnyObject::new(Vec::<i32>::new());
    let res = opendp_core__transformation_invoke(&transformation, &arg);
    let res: Vec<i32> = res.into_result().unwrap().downcast().unwrap();
    assert_eq!(res, Vec::<i32>::new());
}

#[test]
fn clamp_with_equal_bounds_is_accepted() {
    let transformation = clamp_i32(7, 7);
    let arg = AnyObject::new(vec![1i32, 7, 9]);
    let res = opendp_core__transformation_invoke(&transformation, &arg);
    let res: Vec<i32> = res.into_result().unwrap().downcast().unwrap();
    assert_eq!(res, vec![7, 7, 7]);
}

#[test]
fn clamp_has_an_implementation_for_each_integer_type() {
    let t = opendp_trans__make_clamp(&AnyObject::new((2i8, 4i8)), "i8").into_result().unwrap();
    let out = opendp_core__transformation_invoke(&t, &AnyObject::new(vec![-128i8, 3, 127]));
    assert_eq!(out.into_result().unwrap().downcast::<Vec<i8>>().unwrap(), vec![2, 3, 4]);

    let t = opendp_trans__make_clamp(&AnyObject::new((2i16, 4i16)), "i16").into_result().unwrap();
    let out = opendp_core__transformation_invoke(&t, &AnyObject::new(vec![-300i16, 3, 300]));
    assert_eq!(out.into_result().unwrap().downcast::<Vec<i16>>().unwrap(), vec![2, 3, 4]);

    let t = opendp_trans__make_clamp(&AnyObject::new((-4i64, -2i64)), "i64").into_result().unwrap();
    let out = opendp_core__transformation_invoke(&t, &AnyObject::new(vec![i64::MIN, -3, i64::MAX]));
    assert_eq!(out.into_result().unwrap().downcast::<Vec<i64>>().unwrap(), vec![-4, -3, -2]);

    let t = opendp_trans__make_clamp(&AnyObject::new((2u8, 4u8)), "u8").into_result().unwrap();
    let out = opendp_core__transformation_invoke(&t, &AnyObject::new(vec![0u8, 3, 255]));
    assert_eq!(out.into_result().unwrap().downcast::<Vec<u8>>().unwrap(), vec![2, 3, 4]);

    let t = opendp_trans__make_clamp(&AnyObject::new((2u16, 4u16)), "u16").into_result().unwrap();
    let out = opendp_core__transformation_invoke(&t, &AnyObject::new(vec![0u16, 3, 65535]));
    assert_eq!(out.into_result().unwrap().downcast::<Vec<u16>>().unwrap(), vec![2, 3, 4]);

    let t = opendp_trans__make_clamp(&AnyObject::new((2u32, 4u32)), "u32").into_result().unwrap();
    let out = opendp_core__transformation_invoke(&t, &AnyObject::new(vec![0u32, 3, u32::MAX]));
    assert_eq!(out.into_result().unwrap().downcast::<Vec<u32>>().unwrap(), vec![2, 3, 4]);

    let t = opendp_trans__make_clamp(&AnyObject::new((2u64, 4u64)), "u64").into_result().unwrap();
    let out = opendp_core__transformation_invoke(&t, &AnyObject::new(vec![0u64, 3, u64::MAX]));
    assert_eq!(out.into_result().unwrap().downcast::<Vec<u64>>().unwrap(), vec![2, 3, 4]);
}

#[test]
fn clamp_refuses_bounds_out_of_order() {
    let error = failure(opendp_trans__make_clamp(&AnyObject::new((10u8, 0u8)), "u8"));
    assert_eq!(error.kind, ErrorKind::InvalidArgument);
    assert_eq!(error.message, "lower bound may not be greater than upper bound");
}

#[test]
fn unclamp_hands_rows_on() {
    let bounds = AnyObject::new((2i64, 3i64));
    let transformation = opendp_trans__make_unclamp(&bounds, "int64").into_result().unwrap();
    assert_eq!(transformation.kind(), TransformationKind::Unclamp);
    assert_eq!(transformation.atom(), Atom::I64);
    let arg = AnyObject::new(vec![1i64, 2, 3]);
    let res = opendp_core__transformation_invoke(&transformation, &arg);
    let res: Vec<i64> = res.into_result().unwrap().downcast().unwrap();
    assert_eq!(res, vec![1, 2, 3]);
}

#[test]
fn unclamp_refuses_bounds_out_of_order() {
    let error = failure(opendp_trans__make_unclamp(&AnyObject::new((3u32, 2u32)), "u32"));
    assert_eq!(error.kind, ErrorKind::InvalidArgument);
    assert_eq!(error.message, "lower bound may not be greater than upper bound");
}

#[test]
fn unclamp_over_floats_is_left_unconstructed() {
    let bounds = AnyObject::new((Float32 { bits: 0 }, Float32 { bits: 0x3f80_0000 }));
    let pending = opendp_trans__make_unclamp(&bounds, "float32").into_result().unwrap();
    assert_eq!(pending.kind(), TransformationKind::Unclamp);
    assert_eq!(pending.atom(), Atom::F32);
    assert_eq!(pending.stage(), Stage::Unconstructed);
}

#[test]
fn bounds_of_another_type_are_a_mismatch() {
    let error = failure(opendp_trans__make_clamp(&AnyObject::new((0i32, 10i32)), "i64"));
    assert_eq!(error.kind, ErrorKind::TypeMismatch);
    assert_eq!(
        error.message,
        "expected a value of type (i64, i64), found one of type (i32, i32)"
    );
    let error = failure(opendp_trans__make_clamp(&AnyObject::new(0i32), "i32"));
    assert_eq!(error.kind, ErrorKind::TypeMismatch);
    assert_eq!(error.message, "expected a value of type (i32, i32), found one of type i32");
}

#[test]
fn a_type_outside_the_numbers_is_unsupported() {
    let bounds = AnyObject::new((false, true));
    let error = failure(opendp_trans__make_clamp(&bounds, "bool"));
    assert_eq!(error.kind, ErrorKind::UnsupportedType);
    assert_eq!(
        error.message,
        "no implementation for type bool; this call site accepts numbers"
    );
    let error = failure(opendp_trans__make_unclamp(&bounds, "Vec<i32>"));
    assert_eq!(error.kind, ErrorKind::UnsupportedType);
    assert_eq!(
        error.message,
        "no implementation for type Vec<i32>; this call site accepts numbers"
    );
}

#[test]
fn int128_is_unsupported() {
    let bounds = AnyObject::new((0i128, 10i128));
    let error = failure(opendp_trans__make_clamp(&bounds, "int128"));
    assert_eq!(error.kind, ErrorKind::UnsupportedType);
    assert_eq!(
        error.message,
        "no implementation for type i128; this call site accepts numbers"
    );
}

#[test]
fn an_unknown_selector_is_an_unknown_token() {
    let bounds = AnyObject::new((0i32, 10i32));
    let error = failure(opendp_trans__make_clamp(&bounds, "integer"));
    assert_eq!(error.kind, ErrorKind::UnknownToken);
    assert_eq!(error.message, "unknown type name in selector: integer");
    let error = failure(opendp_trans__make_clamp(&bounds, ""));
    assert_eq!(error.kind, ErrorKind::UnknownToken);
    let error = failure(opendp_trans__make_clamp(&bounds, "i32, i32"));
    assert_eq!(error.kind, ErrorKind::ArityMismatch);
    assert_eq!(error.message, "wrong number of types in selector: i32, i32");
}

#[test]
fn an_argument_of_another_type_is_a_mismatch() {
    let transformation = clamp_i32(0, 10);
    let error = failure(opendp_core__transformation_invoke(
        &transformation,
        &AnyObject::new(vec![1i64, 2]),
    ));
    assert_eq!(error.kind, ErrorKind::TypeMismatch);
    assert_eq!(
        error.message,
        "expected a value of type Vec<i32>, found one of type Vec<i64>"
    );
    let error = failure(opendp_core__transformation_invoke(&transformation, &AnyObject::new(5i32)));
    assert_eq!(error.kind, ErrorKind::TypeMismatch);
    assert_eq!(error.message, "expected a value of type Vec<i32>, found one of type i32");
}

#[test]
fn a_released_handle_is_not_invoked() {
    let released = clamp_i32(0, 10).release().into_result().unwrap();
    assert_eq!(released.stage(), Stage::Released);
    let arg = AnyObject::new(vec![1i32]);
    let error = failure(opendp_core__transformation_invoke(&released, &arg));
    assert_eq!(error.kind, ErrorKind::InvalidArgument);
    assert_eq!(error.message, "the handle was released");
    let error = failure(released.release());
    assert_eq!(error.kind, ErrorKind::InvalidArgument);
    assert_eq!(error.message, "the handle was released");
}

#[test]
fn a_constructed_handle_takes_no_verdict() {
    let error = failure(clamp_i32(0, 10).construct(Ok(())));
    assert_eq!(error.kind, ErrorKind::InvalidArgument);
    assert_eq!(error.message, "the handle is already constructed");
}

#[test]
fn an_unconstructed_handle_is_not_invoked() {
    let pending = opendp_trans__make_clamp(&AnyObject::new((float(0.0), float(1.0))), "f64")
        .into_result()
        .unwrap();
    let arg = AnyObject::new(vec![float(0.5)]);
    let error = failure(opendp_core__transformation_invoke(&pending, &arg));
    assert_eq!(error.kind, ErrorKind::InvalidArgument);
    assert_eq!(error.message, "the handle is not constructed");
    let error = failure(pending.release());
    assert_eq!(error.kind, ErrorKind::InvalidArgument);
}

#[test]
fn a_rejection_of_float_bounds_is_passed_on() {
    let pending = opendp_trans__make_clamp(&AnyObject::new((float(10.0), float(0.0))), "f64")
        .into_result()
        .unwrap();
    let (lower, upper): (Float64, Float64) = pending.bounds().downcast_ref().unwrap();
    let rejection = match opendp::trans::make_clamp::<f64>((plain(lower), plain(upper))) {
        Ok(_) => panic!("bounds out of order were accepted"),
        Err(error) => lift_error(&error),
    };
    let error = failure(pending.construct(Err(rejection)));
    assert_eq!(error.kind, ErrorKind::InvalidArgument);
    assert_eq!(error.message, "lower bound may not be greater than upper bound");
}

#[test]
fn a_float_handle_has_no_implementation_here() {
    let pending = opendp_trans__make_clamp(&AnyObject::new((float(0.0), float(1.0))), "f64")
        .into_result()
        .unwrap();
    let transformation = pending.construct(Ok(())).into_result().unwrap();
    let arg = AnyObject::new(vec![float(0.5)]);
    assert_eq!(transformation.check_argument(&arg), Ok(()));
    let error = failure(opendp_core__transformation_invoke(&transformation, &arg));
    assert_eq!(error.kind, ErrorKind::UnsupportedType);
    assert_eq!(
        error.message,
        "no implementation for type f64; this call site accepts integers"
    );
}

#[test]
fn an_outcome_from_outside_is_handed_on() {
    let pending = opendp_trans__make_clamp(&AnyObject::new((float(0.0), float(1.0))), "f64")
        .into_result()
        .unwrap();
    let rows = AnyObject::new(vec![float(0.5)]);
    let error = failure(pending.deliver(Ok(rows.duplicate())));
    assert_eq!(error.kind, ErrorKind::InvalidArgument);
    assert_eq!(error.message, "the handle is not constructed");

    let transformation = pending.construct(Ok(())).into_result().unwrap();
    assert_eq!(
        transformation.deliver(Ok(rows.duplicate())),
        FfiResult::Success(rows.duplicate())
    );

    let failed = FfiError::with_text(ErrorKind::InternalFailure, "f64 cannot not be null when clamping.");
    assert_eq!(
        transformation.deliver(Err(failed.duplicate())),
        FfiResult::Failure(failed)
    );

    let error = failure(transformation.deliver(Ok(AnyObject::new(vec![0.5f32.to_bits()]))));
    assert_eq!(error.kind, ErrorKind::TypeMismatch);
    assert_eq!(
        error.message,
        "expected a value of type Vec<f64>, found one of type Vec<u32>"
    );

    let released = transformation.release().into_result().unwrap();
    let error = failure(released.deliver(Ok(rows)));
    assert_eq!(error.kind, ErrorKind::InvalidArgument);
    assert_eq!(error.message, "the handle was released");
}
