use opendp_ffi::error::ErrorKind;
use opendp_ffi::selector::TypeArgs;
use opendp_ffi::types::{Atom, Type};

fn atom(atom: Atom) -> Type {
    Type::Atom(atom)
}

#[test]
fn canonical_names_of_primitives_are_read() {
    assert_eq!(Type::try_from("bool"), Ok(atom(Atom::Bool)));
    assert_eq!(Type::try_from("i8"), Ok(atom(Atom::I8)));
    assert_eq!(Type::try_from("i16"), Ok(atom(Atom::I16)));
    assert_eq!(Type::try_from("i32"), Ok(atom(Atom::I32)));
    assert_eq!(Type::try_from("i64"), Ok(atom(Atom::I64)));
    assert_eq!(Type::try_from("i128"), Ok(atom(Atom::I128)));
    assert_eq!(Type::try_from("u8"), Ok(atom(Atom::U8)));
    assert_eq!(Type::try_from("u16"), Ok(atom(Atom::U16)));
    assert_eq!(Type::try_from("u32"), Ok(atom(Atom::U32)));
    assert_eq!(Type::try_from("u64"), Ok(atom(Atom::U64)));
    assert_eq!(Type::try_from("u128"), Ok(atom(Atom::U128)));
    assert_eq!(Type::try_from("f32"), Ok(atom(Atom::F32)));
    assert_eq!(Type::try_from("f64"), Ok(atom(Atom::F64)));
    assert_eq!(Type::try_from("String"), Ok(atom(Atom::Str)));
}

#[test]
fn long_names_of_numbers_are_read() {
    assert_eq!(Type::try_from("int8"), Ok(atom(Atom::I8)));
    assert_eq!(Type::try_from("int16"), Ok(atom(Atom::I16)));
    assert_eq!(Type::try_from("int32"), Ok(atom(Atom::I32)));
    assert_eq!(Type::try_from("int64"), Ok(atom(Atom::I64)));
    assert_eq!(Type::try_from("int128"), Ok(atom(Atom::I128)));
    assert_eq!(Type::try_from("uint8"), Ok(atom(Atom::U8)));
    assert_eq!(Type::try_from("uint16"), Ok(atom(Atom::U16)));
    assert_eq!(Type::try_from("uint32"), Ok(atom(Atom::U32)));
    assert_eq!(Type::try_from("uint64"), Ok(atom(Atom::U64)));
    assert_eq!(Type::try_from("uint128"), Ok(atom(Atom::U128)));
    assert_eq!(Type::try_from("float32"), Ok(atom(Atom::F32)));
    assert_eq!(Type::try_from("float64"), Ok(atom(Atom::F64)));
}

#[test]
fn composite_names_are_read() {
    assert_eq!(
        Type::try_from("Vec<i32>"),
        Ok(Type::Vector(Box::new(atom(Atom::I32))))
    );
    assert_eq!(
        Type::try_from("(f64, f64)"),
        Ok(Type::Tuple(vec![atom(Atom::F64), atom(Atom::F64)]))
    );
    assert_eq!(
        Type::try_from("(f64,f64)"),
        Ok(Type::Tuple(vec![atom(Atom::F64), atom(Atom::F64)]))
    );
    assert_eq!(
        Type::try_from("(bool,   String, u8)"),
        Ok(Type::Tuple(vec![atom(Atom::Bool), atom(Atom::Str), atom(Atom::U8)]))
    );
    assert_eq!(
        Type::try_from("Vec<(i32, Vec<String>)>"),
        Ok(Type::Vector(Box::new(Type::Tuple(vec![
            atom(Atom::I32),
            Type::Vector(Box::new(atom(Atom::Str))),
        ]))))
    );
    assert_eq!(
        Type::try_from("((i8, i8), (u8, u8))"),
        Ok(Type::Tuple(vec![
            Type::Tuple(vec![atom(Atom::I8), atom(Atom::I8)]),
            Type::Tuple(vec![atom(Atom::U8), atom(Atom::U8)]),
        ]))
    );
}

fn unknown(selector: &str) {
    let error = Type::try_from(selector).unwrap_err();
    assert_eq!(error.kind, ErrorKind::UnknownToken, "selector {:?}", selector);
    assert_eq!(error.message, format!("unknown type name in selector: {}", selector));
}

#[test]
fn what_is_no_type_name_is_an_unknown_token() {
    unknown("");
    unknown(" ");
    unknown("int");
    unknown("i7");
    unknown("I32");
    unknown("string");
    unknown("i32 ");
    unknown(" i32");
    unknown("i 32");
    unknown("i32,");
    unknown(",i32");
    unknown("i32 , i64");
    unknown("Vec");
    unknown("Vec<>");
    unknown("Vec<i32");
    unknown("Vec<i32>>");
    unknown("Vec <i32>");
    unknown("Vec<int>");
    unknown("Vec<i32, i64>");
    unknown("()");
    unknown("(i32)");
    unknown("(i32, i64");
    unknown("(i32, int)");
    unknown("(i32 i64)");
    unknown("i32)");
    unknown("f64\u{e9}");
}

#[test]
fn a_composite_over_an_unknown_type_is_an_unknown_token() {
    let error = Type::try_from("Vec<number>").unwrap_err();
    assert_eq!(error.kind, ErrorKind::UnknownToken);
    let error = Type::try_from("(i32, number)").unwrap_err();
    assert_eq!(error.kind, ErrorKind::UnknownToken);
}

#[test]
fn several_names_for_one_type_are_an_arity_mismatch() {
    let error = Type::try_from("i32, f64").unwrap_err();
    assert_eq!(error.kind, ErrorKind::ArityMismatch);
    assert_eq!(error.message, "wrong number of types in selector: i32, f64");
}

#[test]
fn type_args_are_read_in_order() {
    assert_eq!(
        TypeArgs::parse("f64", 1),
        Ok(TypeArgs(vec![atom(Atom::F64)]))
    );
    assert_eq!(
        TypeArgs::parse("String, f32", 2),
        Ok(TypeArgs(vec![atom(Atom::Str), atom(Atom::F32)]))
    );
    assert_eq!(
        TypeArgs::parse("(i32, i32),Vec<bool>,u64", 3),
        Ok(TypeArgs(vec![
            Type::Tuple(vec![atom(Atom::I32), atom(Atom::I32)]),
            Type::Vector(Box::new(atom(Atom::Bool))),
            atom(Atom::U64),
        ]))
    );
}

#[test]
fn type_args_of_another_count_are_an_arity_mismatch() {
    let error = TypeArgs::parse("i32", 2).unwrap_err();
    assert_eq!(error.kind, ErrorKind::ArityMismatch);
    assert_eq!(error.message, "wrong number of types in selector: i32");
    let error = TypeArgs::parse("i32, i64, u8", 2).unwrap_err();
    assert_eq!(error.kind, ErrorKind::ArityMismatch);
    let error = TypeArgs::parse("i32", 0).unwrap_err();
    assert_eq!(error.kind, ErrorKind::ArityMismatch);
}

#[test]
fn the_empty_selector_is_an_error_at_every_call_site() {
    assert_eq!(TypeArgs::parse("", 0).unwrap_err().kind, ErrorKind::UnknownToken);
    assert_eq!(TypeArgs::parse("", 1).unwrap_err().kind, ErrorKind::UnknownToken);
    assert_eq!(TypeArgs::parse("", 2).unwrap_err().kind, ErrorKind::UnknownToken);
}

#[test]
fn an_unknown_name_wins_over_the_count() {
    let error = TypeArgs::parse("i32, number", 1).unwrap_err();
    assert_eq!(error.kind, ErrorKind::UnknownToken);
}

#[test]
fn descriptors_are_canonical() {
    assert_eq!(atom(Atom::Bool).descriptor(), "bool");
    assert_eq!(atom(Atom::Str).descriptor(), "String");
    assert_eq!(atom(Atom::F64).descriptor(), "f64");
    assert_eq!(Type::try_from("int128").unwrap().descriptor(), "i128");
    assert_eq!(Type::try_from("Vec<uint8>").unwrap().descriptor(), "Vec<u8>");
    assert_eq!(
        Type::try_from("(float32,int16,   bool)").unwrap().descriptor(),
        "(f32, i16, bool)"
    );
}

#[test]
fn descriptors_are_read_back() {
    let types = vec![
        atom(Atom::U128),
        Type::vector(atom(Atom::Str)),
        Type::pair(atom(Atom::F32), atom(Atom::F64)),
        Type::tuple(vec![
            Type::vector(Type::pair(atom(Atom::I8), atom(Atom::Bool))),
            atom(Atom::I64),
            Type::tuple(vec![atom(Atom::U8), atom(Atom::U16), atom(Atom::U32)]),
        ]),
    ];
    for ty in types {
        let text = ty.descriptor();
        assert_eq!(Type::try_from(&text), Ok(ty.clone()), "descriptor {:?}", text);
    }
}

#[test]
fn same_and_clone_agree_with_equality() {
    let a = Type::try_from("(i32, Vec<String>)").unwrap();
    let b = a.clone();
    assert_eq!(a, b);
    assert!(a.same(&b));
    assert!(a.same(&a.duplicate()));
    assert!(!a.same(&Type::try_from("(i32, Vec<bool>)").unwrap()));
    assert!(!a.same(&Type::try_from("(i32, Vec<String>, u8)").unwrap()));
    assert!(!atom(Atom::I32).same(&atom(Atom::I64)));
    assert!(!atom(Atom::I32).same(&Type::vector(atom(Atom::I32))));
}
