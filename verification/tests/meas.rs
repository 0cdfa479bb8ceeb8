use opendp_ffi::any::{AnyObject, Float32, Float64};
use opendp_ffi::boundary::FfiResult;
use opendp_ffi::error::{lift_error, ErrorKind, FfiError};
use opendp_ffi::handle::Stage;
use opendp_ffi::meas::bootstrap::{constructor_list, write_manifest};
use opendp_ffi::meas::randomized_response::{
    opendp_meas__make_randomized_response, opendp_meas__make_randomized_response_bool,
};
use opendp_ffi::meas::{
    opendp_meas__bootstrap, opendp_meas__make_base_gaussian, opendp_meas__make_base_laplace,
    opendp_meas__make_base_laplace_vec, AnyMeasurement, MeasurementKind,
};
use opendp_ffi::types::Atom;
use std::collections::HashSet;

fn float(x: f64) -> Float64 {
    Float64 { bits: x.to_bits() }
}

fn failure<T>(result: FfiResult<T>) -> FfiError {
    match result {
        FfiResult::Success(_) => panic!("expected a failure"),
        FfiResult::Failure(error) => error,
    }
}

fn verdict_on_bool(pending: &AnyMeasurement) -> Result<(), FfiError> {
    let prob: Float64 = pending.args()[0].downcast_ref().unwrap();
    let constant_time: bool = pending.args()[1].downcast_ref().unwrap();
    let built = opendp::meas::make_randomized_response_bool::<f64>(
        f64::from_bits(prob.bits),
        constant_time,
    );
    match built {
        Ok(_) => Ok(()),
        Err(error) => Err(lift_error(&error)),
    }
}

#[test]
fn randomized_response_bool_with_an_even_chance_is_constructed() {
    let pending = opendp_meas__make_randomized_response_bool(&AnyObject::new(float(0.5)), 0, "f64")
        .into_result()
        .unwrap();
    assert_eq!(pending.kind(), MeasurementKind::RandomizedResponseBool);
    assert_eq!(pending.types(), &vec![Atom::F64]);
    assert_eq!(pending.stage(), Stage::Unconstructed);
    assert_eq!(pending.args().len(), 2);
    assert_eq!(pending.args()[0].downcast_ref::<Float64>(), Ok(float(0.5)));
    assert_eq!(pending.args()[1].downcast_ref::<bool>(), Ok(false));

    let verdict = verdict_on_bool(&pending);
    assert_eq!(verdict, Ok(()));
    let measurement = pending.construct(verdict).into_result().unwrap();
    assert_eq!(measurement.stage(), Stage::Constructed);
    assert_eq!(measurement.kind(), MeasurementKind::RandomizedResponseBool);
    assert_eq!(measurement.check_argument(&AnyObject::new(true)), Ok(()));
}

#[test]
fn randomized_response_bool_with_a_negative_chance_is_rejected_by_the_constructor() {
    let pending =
        opendp_meas__make_randomized_response_bool(&AnyObject::new(float(-0.1)), 1, "float64")
            .into_result()
            .unwrap();
    assert_eq!(pending.args()[1].downcast_ref::<bool>(), Ok(true));
    let verdict = verdict_on_bool(&pending);
    let rejection = match &verdict {
        Ok(_) => panic!("a negative chance was accepted"),
        Err(error) => error.duplicate(),
    };
    let error = failure(pending.construct(verdict));
    assert_eq!(error.kind, ErrorKind::InvalidArgument);
    assert_eq!(error.message, "probability must be within [0.5, 1)");
    assert_eq!(error, rejection);
}

#[test]
fn randomized_response_bool_takes_floats_only() {
    let prob = AnyObject::new(float(0.75));
    let error = failure(opendp_meas__make_randomized_response_bool(&prob, 0, "i32"));
    assert_eq!(error.kind, ErrorKind::UnsupportedType);
    assert_eq!(
        error.message,
        "no implementation for type i32; this call site accepts floats"
    );
    let error = failure(opendp_meas__make_randomized_response_bool(&prob, 0, "double"));
    assert_eq!(error.kind, ErrorKind::UnknownToken);
    let error = failure(opendp_meas__make_randomized_response_bool(&prob, 0, "f32"));
    assert_eq!(error.kind, ErrorKind::TypeMismatch);
    assert_eq!(error.message, "expected a value of type f32, found one of type f64");
}

#[test]
fn randomized_response_over_categories_is_constructed() {
    let categories = AnyObject::new(vec![2i32, 3, 5, 6]);
    let prob = AnyObject::new(float(0.75));
    let pending = opendp_meas__make_randomized_response(&categories, &prob, 0, "i32", "f64")
        .into_result()
        .unwrap();
    assert_eq!(pending.kind(), MeasurementKind::RandomizedResponse);
    assert_eq!(pending.types(), &vec![Atom::I32, Atom::F64]);
    assert_eq!(pending.stage(), Stage::Unconstructed);
    assert_eq!(pending.args().len(), 3);

    let set: Vec<i32> = pending.args()[0].downcast_ref().unwrap();
    let prob: Float64 = pending.args()[1].downcast_ref().unwrap();
    let constant_time: bool = pending.args()[2].downcast_ref().unwrap();
    let built = opendp::meas::make_randomized_response::<i32, f64>(
        set.into_iter().collect::<HashSet<i32>>(),
        f64::from_bits(prob.bits),
        constant_time,
    );
    let measurement = pending.construct(built.map(|_| ()).map_err(|e| lift_error(&e)));
    let measurement = measurement.into_result().unwrap();
    assert_eq!(measurement.stage(), Stage::Constructed);
    assert_eq!(measurement.carrier().descriptor(), "i32");
    assert_eq!(measurement.check_argument(&AnyObject::new(3i32)), Ok(()));
    let error = measurement.check_argument(&AnyObject::new(3i64)).unwrap_err();
    assert_eq!(error.kind, ErrorKind::TypeMismatch);
    assert_eq!(error.message, "expected a value of type i32, found one of type i64");
}

#[test]
fn randomized_response_with_one_category_is_rejected_by_the_constructor() {
    let categories = AnyObject::new(vec!["a".to_string(), "a".to_string()]);
    let prob = AnyObject::new(Float32 { bits: 0.75f32.to_bits() });
    let pending = opendp_meas__make_randomized_response(&categories, &prob, 0, "String", "f32")
        .into_result()
        .unwrap();
    assert_eq!(pending.types(), &vec![Atom::Str, Atom::F32]);
    let set: Vec<String> = pending.args()[0].downcast_ref().unwrap();
    let prob: Float32 = pending.args()[1].downcast_ref().unwrap();
    let built = opendp::meas::make_randomized_response::<String, f32>(
        set.into_iter().collect::<HashSet<String>>(),
        f32::from_bits(prob.bits),
        false,
    );
    let error = failure(pending.construct(built.map(|_| ()).map_err(|e| lift_error(&e))));
    assert_eq!(error.kind, ErrorKind::InvalidArgument);
    assert_eq!(error.message, "length of categories must be at least two");
}

#[test]
fn randomized_response_resolves_the_category_type_first() {
    let categories = AnyObject::new(vec![float(1.0)]);
    let prob = AnyObject::new(float(0.75));
    let error = failure(opendp_meas__make_randomized_response(
        &categories,
        &prob,
        0,
        "f64",
        "i32",
    ));
    assert_eq!(error.kind, ErrorKind::UnsupportedType);
    assert_eq!(
        error.message,
        "no implementation for type f64; this call site accepts hashable"
    );
    let error = failure(opendp_meas__make_randomized_response(
        &categories,
        &prob,
        0,
        "u8",
        "i32",
    ));
    assert_eq!(
        error.message,
        "no implementation for type i32; this call site accepts floats"
    );
    let error = failure(opendp_meas__make_randomized_response(
        &categories,
        &prob,
        0,
        "f64",
        "real",
    ));
    assert_eq!(error.kind, ErrorKind::UnknownToken);
    assert_eq!(error.message, "unknown type name in selector: real");
    let error = failure(opendp_meas__make_randomized_response(
        &categories,
        &prob,
        0,
        "",
        "real",
    ));
    assert_eq!(error.message, "unknown type name in selector: ");
}

#[test]
fn randomized_response_checks_what_it_is_given() {
    let prob = AnyObject::new(float(0.75));
    let error = failure(opendp_meas__make_randomized_response(
        &AnyObject::new(vec![1i64, 2]),
        &prob,
        0,
        "i32",
        "f64",
    ));
    assert_eq!(error.kind, ErrorKind::TypeMismatch);
    assert_eq!(
        error.message,
        "expected a value of type Vec<i32>, found one of type Vec<i64>"
    );
    let error = failure(opendp_meas__make_randomized_response(
        &AnyObject::new(vec![true, false]),
        &AnyObject::new(0.75f64.to_bits()),
        0,
        "bool",
        "f64",
    ));
    assert_eq!(error.kind, ErrorKind::TypeMismatch);
    assert_eq!(error.message, "expected a value of type f64, found one of type u64");
}

#[test]
fn additive_noise_is_resolved_over_the_numbers() {
    let pending = opendp_meas__make_base_laplace("f64", float(1.5)).into_result().unwrap();
    assert_eq!(pending.kind(), MeasurementKind::BaseLaplace);
    assert_eq!(pending.types(), &vec![Atom::F64]);
    assert_eq!(pending.stage(), Stage::Unconstructed);
    assert_eq!(pending.args().len(), 1);
    assert_eq!(pending.args()[0].downcast_ref::<Float64>(), Ok(float(1.5)));
    assert_eq!(pending.carrier().descriptor(), "f64");

    let pending = opendp_meas__make_base_laplace_vec("i32", float(2.0)).into_result().unwrap();
    assert_eq!(pending.kind(), MeasurementKind::BaseLaplaceVec);
    assert_eq!(pending.types(), &vec![Atom::I32]);
    assert_eq!(pending.carrier().descriptor(), "Vec<i32>");

    let pending = opendp_meas__make_base_gaussian("uint8", float(0.0)).into_result().unwrap();
    assert_eq!(pending.kind(), MeasurementKind::BaseGaussian);
    assert_eq!(pending.types(), &vec![Atom::U8]);
    assert_eq!(pending.carrier().descriptor(), "u8");
}

#[test]
fn additive_noise_refuses_what_is_no_number() {
    let error = failure(opendp_meas__make_base_laplace("bool", float(1.0)));
    assert_eq!(error.kind, ErrorKind::UnsupportedType);
    assert_eq!(
        error.message,
        "no implementation for type bool; this call site accepts numbers"
    );
    let error = failure(opendp_meas__make_base_laplace_vec("i128", float(1.0)));
    assert_eq!(error.kind, ErrorKind::UnsupportedType);
    let error = failure(opendp_meas__make_base_gaussian("f64, f64", float(1.0)));
    assert_eq!(error.kind, ErrorKind::ArityMismatch);
    let error = failure(opendp_meas__make_base_gaussian("", float(1.0)));
    assert_eq!(error.kind, ErrorKind::UnknownToken);
}

#[test]
fn a_negative_scale_is_rejected_by_the_constructor() {
    let pending = opendp_meas__make_base_laplace("f64", float(-1.0)).into_result().unwrap();
    let scale: Float64 = pending.args()[0].downcast_ref().unwrap();
    let built = opendp::meas::make_base_laplace::<opendp::domains::AllDomain<f64>>(
        f64::from_bits(scale.bits),
        None,
    );
    let error = failure(pending.construct(built.map(|_| ()).map_err(|e| lift_error(&e))));
    assert_eq!(error.kind, ErrorKind::InvalidArgument);
    assert_eq!(error.message, "scale must not be negative");
}

#[test]
fn a_measurement_lives_once() {
    let pending = opendp_meas__make_base_laplace("f64", float(1.0)).into_result().unwrap();
    let error = pending.check_argument(&AnyObject::new(float(0.0))).unwrap_err();
    assert_eq!(error.kind, ErrorKind::InvalidArgument);
    assert_eq!(error.message, "the handle is not constructed");

    let measurement = pending.construct(Ok(())).into_result().unwrap();
    assert_eq!(measurement.check_argument(&AnyObject::new(float(0.0))), Ok(()));

    let released = measurement.release().into_result().unwrap();
    assert_eq!(released.stage(), Stage::Released);
    let error = released.check_argument(&AnyObject::new(float(0.0))).unwrap_err();
    assert_eq!(error.kind, ErrorKind::InvalidArgument);
    assert_eq!(error.message, "the handle was released");
    let error = failure(released.construct(Ok(())));
    assert_eq!(error.message, "the handle was released");
}

#[test]
fn the_manifest_names_every_entry_point() {
    let expected = [
        "{",
        "\"functions\": [",
        "    { \"name\": \"make_base_laplace\", \"args\": [ [\"const char *\", \"type_args\"], [\"double\", \"sigma\"] ], \"ret\": \"FfiResult<AnyMeasurement *>\" },",
        "    { \"name\": \"make_base_laplace_vec\", \"args\": [ [\"const char *\", \"type_args\"], [\"double\", \"sigma\"] ], \"ret\": \"FfiResult<AnyMeasurement *>\" },",
        "    { \"name\": \"make_base_gaussian\", \"args\": [ [\"const char *\", \"type_args\"], [\"double\", \"sigma\"] ], \"ret\": \"FfiResult<AnyMeasurement *>\" },",
        "    { \"name\": \"make_randomized_response_bool\", \"args\": [ [\"const void *\", \"prob\"], [\"bool\", \"constant_time\"], [\"const char *\", \"Q\"] ], \"ret\": \"FfiResult<AnyMeasurement *>\" },",
        "    { \"name\": \"make_randomized_response\", \"args\": [ [\"const AnyObject *\", \"categories\"], [\"const void *\", \"prob\"], [\"bool\", \"constant_time\"], [\"const char *\", \"T\"], [\"const char *\", \"Q\"] ], \"ret\": \"FfiResult<AnyMeasurement *>\" }",
        "]",
        "}",
    ];
    let manifest = opendp_meas__bootstrap();
    assert_eq!(manifest, expected.join("\n"));
    assert_eq!(manifest.matches("\"name\"").count(), 5);
}

#[test]
fn each_constructor_has_its_entry() {
    let all = constructor_list();
    assert_eq!(
        all,
        vec![
            MeasurementKind::BaseLaplace,
            MeasurementKind::BaseLaplaceVec,
            MeasurementKind::BaseGaussian,
            MeasurementKind::RandomizedResponseBool,
            MeasurementKind::RandomizedResponse,
        ]
    );
    let manifest = write_manifest();
    for kind in all {
        let entry = kind.entry_point();
        assert_eq!(entry.ret, "FfiResult<AnyMeasurement *>");
        assert_eq!(manifest.matches(&entry.render()).count(), 1, "entry {}", entry.name);
    }
    let entry = MeasurementKind::RandomizedResponseBool.entry_point();
    assert_eq!(entry.name, "make_randomized_response_bool");
    assert_eq!(
        entry.args,
        vec![("const void *", "prob"), ("bool", "constant_time"), ("const char *", "Q")]
    );
    assert_eq!(
        entry.render(),
        "    { \"name\": \"make_randomized_response_bool\", \"args\": [ [\"const void *\", \"prob\"], [\"bool\", \"constant_time\"], [\"const char *\", \"Q\"] ], \"ret\": \"FfiResult<AnyMeasurement *>\" }"
    );
    let entry = MeasurementKind::RandomizedResponse.entry_point();
    assert_eq!(entry.name, "make_randomized_response");
    assert_eq!(
        entry.args,
        vec![
            ("const AnyObject *", "categories"),
            ("const void *", "prob"),
            ("bool", "constant_time"),
            ("const char *", "T"),
            ("const char *", "Q"),
        ]
    );
}

#[test]
fn the_answer_of_a_measurement_is_handed_on() {
    let pending = opendp_meas__make_randomized_response_bool(&AnyObject::new(float(0.75)), 0, "f64")
        .into_result()
        .unwrap();
    let error = failure(pending.deliver(Ok(AnyObject::new(true))));
    assert_eq!(error.kind, ErrorKind::InvalidArgument);
    assert_eq!(error.message, "the handle is not constructed");

    let measurement = pending.construct(Ok(())).into_result().unwrap();
    let built = opendp::meas::make_randomized_response_bool::<f64>(0.75, false).unwrap();
    let answer = built.invoke(&true).map(AnyObject::new).map_err(|e| lift_error(&e));
    let handed = measurement.deliver(answer).into_result().unwrap();
    assert_eq!(handed.type_().descriptor(), "bool");

    let error = failure(measurement.deliver(Ok(AnyObject::new(1u8))));
    assert_eq!(error.kind, ErrorKind::TypeMismatch);
    assert_eq!(error.message, "expected a value of type bool, found one of type u8");

    let failed = FfiError::with_text(ErrorKind::InternalFailure, "Rand error");
    assert_eq!(
        measurement.deliver(Err(failed.duplicate())),
        FfiResult::Failure(failed)
    );
}
