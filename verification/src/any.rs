//! Type erasure: a container that holds one value of any type the boundary
//! knows, remembers which, and gives the value back only to a request for
//! exactly that type.

use vstd::prelude::*;
use crate::error::{ErrorKind, FfiError};
use crate::types::{descriptor, Atom, Shape, Type};

verus! {

/// The mathematical form of a type-erased value. Floating-point values are
/// carried by their IEEE 754 bit patterns.
pub enum Datum {
    Bool(bool),
    I8(i8),
    I16(i16),
    I32(i32),
    I64(i64),
    I128(i128),
    U8(u8),
    U16(u16),
    U32(u32),
    U64(u64),
    U128(u128),
    F32(u32),
    F64(u64),
    Str(Seq<char>),
    Tuple(Seq<Datum>),
    Vector(Seq<Datum>),
}

/// A type-erased value. Its view is a `Datum`.
#[derive(Debug, PartialEq, Eq)]
pub enum Value {
    Bool(bool),
    I8(i8),
    I16(i16),
    I32(i32),
    I64(i64),
    I128(i128),
    U8(u8),
    U16(u16),
    U32(u32),
    U64(u64),
    U128(u128),
    F32(u32),
    F64(u64),
    Str(String),
    Tuple(Vec<Value>),
    Vector(Vec<Value>),
}

/// A 32-bit floating-point value, held as its IEEE 754 bit pattern. No
/// arithmetic is done on it here.
#[derive(Clone, Copy, Debug, PartialEq, Eq, Hash, Structural)]
pub struct Float32 {
    pub bits: u32,
}

/// A 64-bit floating-point value, held as its IEEE 754 bit pattern. No
/// arithmetic is done on it here.
#[derive(Clone, Copy, Debug, PartialEq, Eq, Hash, Structural)]
pub struct Float64 {
    pub bits: u64,
}

/// Whether `datum` is a value of the type of shape `shape`.
pub open spec fn conforms(datum: Datum, shape: Shape) -> bool
    decreases datum,
{
    match datum {
        Datum::Bool(_) => shape == Shape::Atom(Atom::Bool),
        Datum::I8(_) => shape == Shape::Atom(Atom::I8),
        Datum::I16(_) => shape == Shape::Atom(Atom::I16),
        Datum::I32(_) => shape == Shape::Atom(Atom::I32),
        Datum::I64(_) => shape == Shape::Atom(Atom::I64),
        Datum::I128(_) => shape == Shape::Atom(Atom::I128),
        Datum::U8(_) => shape == Shape::Atom(Atom::U8),
        Datum::U16(_) => shape == Shape::Atom(Atom::U16),
        Datum::U32(_) => shape == Shape::Atom(Atom::U32),
        Datum::U64(_) => shape == Shape::Atom(Atom::U64),
        Datum::U128(_) => shape == Shape::Atom(Atom::U128),
        Datum::F32(_) => shape == Shape::Atom(Atom::F32),
        Datum::F64(_) => shape == Shape::Atom(Atom::F64),
        Datum::Str(_) => shape == Shape::Atom(Atom::Str),
        Datum::Tuple(items) => shape matches Shape::Tuple(shapes) && shapes.len() == items.len()
            && forall|i: int| 0 <= i < items.len() ==> conforms(#[trigger] items[i], shapes[i]),
        Datum::Vector(items) => shape matches Shape::Vector(item) && forall|i: int|
            0 <= i < items.len() ==> conforms(#[trigger] items[i], *item),
    }
}

/// What a failed downcast reports: the type that was asked for, then the type
/// that the container holds.
pub open spec fn mismatch_message(requested: Shape, actual: Shape) -> Seq<char> {
    "expected a value of type "@ + descriptor(requested) + ", found one of type "@ + descriptor(
        actual,
    )
}

/// The number that an integer datum holds; 0 for any other datum.
pub open spec fn int_of(datum: Datum) -> int {
    match datum {
        Datum::I8(x) => x as int,
        Datum::I16(x) => x as int,
        Datum::I32(x) => x as int,
        Datum::I64(x) => x as int,
        Datum::I128(x) => x as int,
        Datum::U8(x) => x as int,
        Datum::U16(x) => x as int,
        Datum::U32(x) => x as int,
        Datum::U64(x) => x as int,
        Datum::U128(x) => x as int,
        _ => 0,
    }
}

/// The error of a request for the type `requested` to a container that holds
/// the type `actual`.
pub fn mismatch(requested: &Type, actual: &Type) -> (e: FfiError)
    ensures
        e.kind == ErrorKind::TypeMismatch,
        e.message@ == mismatch_message(requested@, actual@),
{
    let mut message = "expected a value of type ".to_owned();
    let wanted = requested.descriptor();
    message.append(wanted.as_str());
    message.append(", found one of type ");
    let found = actual.descriptor();
    message.append(found.as_str());
    assert(message@ =~= mismatch_message(requested@, actual@));
    FfiError::new(ErrorKind::TypeMismatch, message)
}

impl Value {
    /// The mathematical form of this value.
    pub open spec fn datum(self) -> Datum
        decreases self,
    {
        match self {
            Value::Bool(x) => Datum::Bool(x),
            Value::I8(x) => Datum::I8(x),
            Value::I16(x) => Datum::I16(x),
            Value::I32(x) => Datum::I32(x),
            Value::I64(x) => Datum::I64(x),
            Value::I128(x) => Datum::I128(x),
            Value::U8(x) => Datum::U8(x),
            Value::U16(x) => Datum::U16(x),
            Value::U32(x) => Datum::U32(x),
            Value::U64(x) => Datum::U64(x),
            Value::U128(x) => Datum::U128(x),
            Value::F32(x) => Datum::F32(x),
            Value::F64(x) => Datum::F64(x),
            Value::Str(x) => Datum::Str(x@),
            Value::Tuple(items) => Datum::Tuple(
                Seq::new(
                    items@.len(),
                    |i: int|
                        if 0 <= i < items@.len() {
                            items@[i].datum()
                        } else {
                            Datum::Bool(false)
                        },
                ),
            ),
            Value::Vector(items) => Datum::Vector(
                Seq::new(
                    items@.len(),
                    |i: int|
                        if 0 <= i < items@.len() {
                            items@[i].datum()
                        } else {
                            Datum::Bool(false)
                        },
                ),
            ),
        }
    }
}

impl Value {
    /// A copy of this value.
    pub fn duplicate(&self) -> (r: Value)
        ensures
            r@ == self@,
        decreases self,
    {
        match self {
            Value::Bool(x) => Value::Bool(*x),
            Value::I8(x) => Value::I8(*x),
            Value::I16(x) => Value::I16(*x),
            Value::I32(x) => Value::I32(*x),
            Value::I64(x) => Value::I64(*x),
            Value::I128(x) => Value::I128(*x),
            Value::U8(x) => Value::U8(*x),
            Value::U16(x) => Value::U16(*x),
            Value::U32(x) => Value::U32(*x),
            Value::U64(x) => Value::U64(*x),
            Value::U128(x) => Value::U128(*x),
            Value::F32(x) => Value::F32(*x),
            Value::F64(x) => Value::F64(*x),
            Value::Str(x) => Value::Str(x.clone()),
            Value::Tuple(items) => {
                let copies = Value::duplicate_all(items);
                let r = Value::Tuple(copies);
                assert(r@->Tuple_0 =~= self@->Tuple_0);
                r
            },
            Value::Vector(items) => {
                let copies = Value::duplicate_all(items);
                let r = Value::Vector(copies);
                assert(r@->Vector_0 =~= self@->Vector_0);
                r
            },
        }
    }

    /// Copies of the values in `items`, in order.
    fn duplicate_all(items: &Vec<Value>) -> (r: Vec<Value>)
        ensures
            r@.len() == items@.len(),
            forall|j: int| 0 <= j < items@.len() ==> r@[j]@ == items@[j]@,
        decreases items,
    {
        let mut copies: Vec<Value> = Vec::new();
        let mut i: usize = 0;
        while i < items.len()
            invariant
                i <= items.len(),
                copies@.len() == i,
                forall|j: int| 0 <= j < i ==> copies@[j]@ == items@[j]@,
            decreases items.len() - i,
        {
            let copy = items[i].duplicate();
            copies.push(copy);
            i += 1;
        }
        copies
    }
}

impl View for Value {
    type V = Datum;

    open spec fn view(&self) -> Datum {
        self.datum()
    }
}

/// A type whose values can be put into a container and taken out again.
pub trait Erasable: Sized {
    /// The identity of the implementing type.
    spec fn shape() -> Shape;

    /// This value in its type-erased form.
    spec fn datum(&self) -> Datum;

    /// The identifier of the implementing type.
    fn type_of() -> (t: Type)
        ensures
            t@ == Self::shape(),
    ;

    /// Erases this value. What comes out is a value of this type.
    fn erase(&self) -> (v: Value)
        ensures
            v@ == self.datum(),
            conforms(v@, Self::shape()),
    ;

    /// Rebuilds a value of this type from its erased form: possible exactly
    /// when `v` is a value of this type, and then the value is the one that
    /// was erased.
    fn restore(v: &Value) -> (r: Option<Self>)
        ensures
            r is Some <==> conforms(v@, Self::shape()),
            r matches Some(x) ==> x.datum() == v@,
    ;
}

impl Erasable for bool {
    open spec fn shape() -> Shape {
        Shape::Atom(Atom::Bool)
    }

    open spec fn datum(&self) -> Datum {
        Datum::Bool(*self)
    }

    fn type_of() -> (t: Type) {
        Type::Atom(Atom::Bool)
    }

    fn erase(&self) -> (v: Value) {
        Value::Bool(*self)
    }

    fn restore(v: &Value) -> (r: Option<Self>) {
        match v {
            Value::Bool(x) => Some(*x),
            _ => None,
        }
    }
}

impl Erasable for i8 {
    open spec fn shape() -> Shape {
        Shape::Atom(Atom::I8)
    }

    open spec fn datum(&self) -> Datum {
        Datum::I8(*self)
    }

    fn type_of() -> (t: Type) {
        Type::Atom(Atom::I8)
    }

    fn erase(&self) -> (v: Value) {
        Value::I8(*self)
    }

    fn restore(v: &Value) -> (r: Option<Self>) {
        match v {
            Value::I8(x) => Some(*x),
            _ => None,
        }
    }
}

impl Erasable for i16 {
    open spec fn shape() -> Shape {
        Shape::Atom(Atom::I16)
    }

    open spec fn datum(&self) -> Datum {
        Datum::I16(*self)
    }

    fn type_of() -> (t: Type) {
        Type::Atom(Atom::I16)
    }

    fn erase(&self) -> (v: Value) {
        Value::I16(*self)
    }

    fn restore(v: &Value) -> (r: Option<Self>) {
        match v {
            Value::I16(x) => Some(*x),
            _ => None,
        }
    }
}

impl Erasable for i32 {
    open spec fn shape() -> Shape {
        Shape::Atom(Atom::I32)
    }

    open spec fn datum(&self) -> Datum {
        Datum::I32(*self)
    }

    fn type_of() -> (t: Type) {
        Type::Atom(Atom::I32)
    }

    fn erase(&self) -> (v: Value) {
        Value::I32(*self)
    }

    fn restore(v: &Value) -> (r: Option<Self>) {
        match v {
            Value::I32(x) => Some(*x),
            _ => None,
        }
    }
}

impl Erasable for i64 {
    open spec fn shape() -> Shape {
        Shape::Atom(Atom::I64)
    }

    open spec fn datum(&self) -> Datum {
        Datum::I64(*self)
    }

    fn type_of() -> (t: Type) {
        Type::Atom(Atom::I64)
    }

    fn erase(&self) -> (v: Value) {
        Value::I64(*self)
    }

    fn restore(v: &Value) -> (r: Option<Self>) {
        match v {
            Value::I64(x) => Some(*x),
            _ => None,
        }
    }
}

impl Erasable for i128 {
    open spec fn shape() -> Shape {
        Shape::Atom(Atom::I128)
    }

    open spec fn datum(&self) -> Datum {
        Datum::I128(*self)
    }

    fn type_of() -> (t: Type) {
        Type::Atom(Atom::I128)
    }

    fn erase(&self) -> (v: Value) {
        Value::I128(*self)
    }

    fn restore(v: &Value) -> (r: Option<Self>) {
        match v {
            Value::I128(x) => Some(*x),
            _ => None,
        }
    }
}

impl Erasable for u8 {
    open spec fn shape() -> Shape {
        Shape::Atom(Atom::U8)
    }

    open spec fn datum(&self) -> Datum {
        Datum::U8(*self)
    }

    fn type_of() -> (t: Type) {
        Type::Atom(Atom::U8)
    }

    fn erase(&self) -> (v: Value) {
        Value::U8(*self)
    }

    fn restore(v: &Value) -> (r: Option<Self>) {
        match v {
            Value::U8(x) => Some(*x),
            _ => None,
        }
    }
}

impl Erasable for u16 {
    open spec fn shape() -> Shape {
        Shape::Atom(Atom::U16)
    }

    open spec fn datum(&self) -> Datum {
        Datum::U16(*self)
    }

    fn type_of() -> (t: Type) {
        Type::Atom(Atom::U16)
    }

    fn erase(&self) -> (v: Value) {
        Value::U16(*self)
    }

    fn restore(v: &Value) -> (r: Option<Self>) {
        match v {
            Value::U16(x) => Some(*x),
            _ => None,
        }
    }
}

impl Erasable for u32 {
    open spec fn shape() -> Shape {
        Shape::Atom(Atom::U32)
    }

    open spec fn datum(&self) -> Datum {
        Datum::U32(*self)
    }

    fn type_of() -> (t: Type) {
        Type::Atom(Atom::U32)
    }

    fn erase(&self) -> (v: Value) {
        Value::U32(*self)
    }

    fn restore(v: &Value) -> (r: Option<Self>) {
        match v {
            Value::U32(x) => Some(*x),
            _ => None,
        }
    }
}

impl Erasable for u64 {
    open spec fn shape() -> Shape {
        Shape::Atom(Atom::U64)
    }

    open spec fn datum(&self) -> Datum {
        Datum::U64(*self)
    }

    fn type_of() -> (t: Type) {
        Type::Atom(Atom::U64)
    }

    fn erase(&self) -> (v: Value) {
        Value::U64(*self)
    }

    fn restore(v: &Value) -> (r: Option<Self>) {
        match v {
            Value::U64(x) => Some(*x),
            _ => None,
        }
    }
}

impl Erasable for u128 {
    open spec fn shape() -> Shape {
        Shape::Atom(Atom::U128)
    }

    open spec fn datum(&self) -> Datum {
        Datum::U128(*self)
    }

    fn type_of() -> (t: Type) {
        Type::Atom(Atom::U128)
    }

    fn erase(&self) -> (v: Value) {
        Value::U128(*self)
    }

    fn restore(v: &Value) -> (r: Option<Self>) {
        match v {
            Value::U128(x) => Some(*x),
            _ => None,
        }
    }
}

impl Erasable for Float32 {
    open spec fn shape() -> Shape {
        Shape::Atom(Atom::F32)
    }

    open spec fn datum(&self) -> Datum {
        Datum::F32(self.bits)
    }

    fn type_of() -> (t: Type) {
        Type::Atom(Atom::F32)
    }

    fn erase(&self) -> (v: Value) {
        Value::F32(self.bits)
    }

    fn restore(v: &Value) -> (r: Option<Self>) {
        match v {
            Value::F32(x) => Some(Float32 { bits: *x }),
            _ => None,
        }
    }
}

impl Erasable for Float64 {
    open spec fn shape() -> Shape {
        Shape::Atom(Atom::F64)
    }

    open spec fn datum(&self) -> Datum {
        Datum::F64(self.bits)
    }

    fn type_of() -> (t: Type) {
        Type::Atom(Atom::F64)
    }

    fn erase(&self) -> (v: Value) {
        Value::F64(self.bits)
    }

    fn restore(v: &Value) -> (r: Option<Self>) {
        match v {
            Value::F64(x) => Some(Float64 { bits: *x }),
            _ => None,
        }
    }
}

impl Erasable for String {
    open spec fn shape() -> Shape {
        Shape::Atom(Atom::Str)
    }

    open spec fn datum(&self) -> Datum {
        Datum::Str(self@)
    }

    fn type_of() -> (t: Type) {
        Type::Atom(Atom::Str)
    }

    fn erase(&self) -> (v: Value) {
        Value::Str(self.clone())
    }

    fn restore(v: &Value) -> (r: Option<Self>) {
        match v {
            Value::Str(x) => Some(x.clone()),
            _ => None,
        }
    }
}

impl<A: Erasable, B: Erasable> Erasable for (A, B) {
    open spec fn shape() -> Shape {
        Shape::Tuple(seq![A::shape(), B::shape()])
    }

    open spec fn datum(&self) -> Datum {
        Datum::Tuple(seq![self.0.datum(), self.1.datum()])
    }

    fn type_of() -> (t: Type) {
        Type::pair(A::type_of(), B::type_of())
    }

    fn erase(&self) -> (v: Value) {
        let mut items: Vec<Value> = Vec::new();
        items.push(self.0.erase());
        items.push(self.1.erase());
        let v = Value::Tuple(items);
        assert(v@->Tuple_0 =~= seq![self.0.datum(), self.1.datum()]);
        v
    }

    fn restore(v: &Value) -> (r: Option<Self>) {
        match v {
            Value::Tuple(items) => {
                if items.len() != 2 {
                    return None;
                }
                assert(v@->Tuple_0[0] == items@[0]@);
                assert(v@->Tuple_0[1] == items@[1]@);
                match (A::restore(&items[0]), B::restore(&items[1])) {
                    (Some(a), Some(b)) => {
                        assert(v@->Tuple_0 =~= seq![a.datum(), b.datum()]);
                        Some((a, b))
                    },
                    _ => None,
                }
            },
            _ => None,
        }
    }
}

impl<A: Erasable> Erasable for Vec<A> {
    open spec fn shape() -> Shape {
        Shape::Vector(Box::new(A::shape()))
    }

    open spec fn datum(&self) -> Datum {
        Datum::Vector(Seq::new(self@.len(), |i: int| self@[i].datum()))
    }

    fn type_of() -> (t: Type) {
        Type::vector(A::type_of())
    }

    fn erase(&self) -> (v: Value) {
        let mut items: Vec<Value> = Vec::new();
        let mut i: usize = 0;
        while i < self.len()
            invariant
                i <= self.len(),
                items@.len() == i,
                forall|j: int| 0 <= j < i ==> items@[j]@ == self@[j].datum(),
                forall|j: int| 0 <= j < i ==> conforms(items@[j]@, A::shape()),
            decreases self.len() - i,
        {
            items.push(self[i].erase());
            i += 1;
        }
        let v = Value::Vector(items);
        assert(v@->Vector_0 =~= Seq::new(self@.len(), |i: int| self@[i].datum()));
        v
    }

    fn restore(v: &Value) -> (r: Option<Self>) {
        match v {
            Value::Vector(items) => {
                let mut out: Vec<A> = Vec::new();
                let mut i: usize = 0;
                while i < items.len()
                    invariant
                        i <= items.len(),
                        out@.len() == i,
                        *v == Value::Vector(*items),
                        forall|j: int| 0 <= j < i ==> out@[j].datum() == items@[j]@,
                        forall|j: int| 0 <= j < i ==> conforms(items@[j]@, A::shape()),
                    decreases items.len() - i,
                {
                    match A::restore(&items[i]) {
                        Some(x) => out.push(x),
                        None => {
                            assert(v@->Vector_0[i as int] == items@[i as int]@);
                            return None;
                        },
                    }
                    i += 1;
                }
                assert(v@->Vector_0 =~= Seq::new(out@.len(), |i: int| out@[i].datum()));
                assert forall|j: int| 0 <= j < v@->Vector_0.len() implies conforms(
                    #[trigger] v@->Vector_0[j],
                    A::shape(),
                ) by {
                    assert(v@->Vector_0[j] == items@[j]@);
                }
                Some(out)
            },
            _ => None,
        }
    }
}

/// A container that owns one value and records its type.
#[derive(Debug, PartialEq, Eq)]
pub struct AnyObject {
    type_: Type,
    value: Value,
}

impl AnyObject {
    /// What is held is a value of the recorded type.
    #[verifier::type_invariant]
    spec fn valid(self) -> bool {
        conforms(self.value@, self.type_@)
    }

    /// The recorded type.
    pub closed spec fn shape(self) -> Shape {
        self.type_@
    }

    /// The value held, in erased form.
    pub closed spec fn datum(self) -> Datum {
        self.value@
    }

    /// Whether this container holds `value` as a value of type `T`.
    pub open spec fn holds<T: Erasable>(self, value: T) -> bool {
        self.shape() == T::shape() && self.datum() == value.datum()
    }

    /// What a downcast to `T` gives: the value held, where the recorded type
    /// is exactly `T`, and otherwise a type mismatch that names both types.
    pub open spec fn downcast_spec<T: Erasable>(self) -> Result<Datum, (ErrorKind, Seq<char>)> {
        if self.shape() == T::shape() {
            Ok(self.datum())
        } else {
            Err((ErrorKind::TypeMismatch, mismatch_message(T::shape(), self.shape())))
        }
    }

    /// Wraps `value`, recording its type. This cannot fail.
    pub fn new<T: Erasable>(value: T) -> (obj: AnyObject)
        ensures
            obj.holds(value),
    {
        AnyObject { type_: T::type_of(), value: value.erase() }
    }

    /// The identifier of the recorded type.
    pub fn type_(&self) -> (t: &Type)
        ensures
            t@ == self.shape(),
    {
        &self.type_
    }

    /// The value held, in erased form. It is a value of the recorded type.
    pub fn value(&self) -> (v: &Value)
        ensures
            v@ == self.datum(),
            conforms(v@, self.shape()),
    {
        proof {
            use_type_invariant(self);
        }
        &self.value
    }

    /// An empty sequence over the element type `item`.
    pub fn empty_vector(item: Type) -> (obj: AnyObject)
        ensures
            obj.shape() == Shape::Vector(Box::new(item@)),
            obj.datum() == Datum::Vector(Seq::<Datum>::empty()),
    {
        let items: Vec<Value> = Vec::new();
        let value = Value::Vector(items);
        assert(value@->Vector_0 =~= Seq::<Datum>::empty());
        AnyObject { type_: Type::vector(item), value }
    }

    /// A copy of this container: the same type and the same value.
    pub fn duplicate(&self) -> (r: AnyObject)
        ensures
            r.shape() == self.shape(),
            r.datum() == self.datum(),
    {
        proof {
            use_type_invariant(self);
        }
        AnyObject { type_: self.type_.duplicate(), value: self.value.duplicate() }
    }

    /// Whether the recorded type is `ty`.
    pub fn has_type(&self, ty: &Type) -> (r: bool)
        ensures
            r == (self.shape() == ty@),
    {
        self.type_.same(ty)
    }

    /// Whether the recorded type is exactly `T`.
    pub fn is<T: Erasable>(&self) -> (r: bool)
        ensures
            r == (self.shape() == T::shape()),
    {
        let requested = T::type_of();
        self.type_.same(&requested)
    }

    /// Gives a copy of the value held, if the recorded type is exactly `T`.
    /// No widening and no conversion takes place: a request for any other
    /// type is turned down and reads nothing of the value.
    pub fn downcast_ref<T: Erasable>(&self) -> (r: Result<T, FfiError>)
        ensures
            outcome_of(r) == self.downcast_spec::<T>(),
    {
        proof {
            use_type_invariant(self);
        }
        let requested = T::type_of();
        if self.type_.same(&requested) {
            match T::restore(&self.value) {
                Some(value) => Ok(value),
                None => {
                    assert(false);
                    Err(FfiError::with_text(ErrorKind::InternalFailure, ""))
                },
            }
        } else {
            Err(mismatch(&requested, &self.type_))
        }
    }

    /// Gives the value held, if the recorded type is exactly `T`, and uses
    /// the container up.
    pub fn downcast<T: Erasable>(self) -> (r: Result<T, FfiError>)
        ensures
            outcome_of(r) == self.downcast_spec::<T>(),
    {
        self.downcast_ref::<T>()
    }

}

/// The outcome of a downcast in mathematical form: the erased value, or the
/// kind and message of the error.
pub open spec fn outcome_of<T: Erasable>(r: Result<T, FfiError>) -> Result<
    Datum,
    (ErrorKind, Seq<char>),
> {
    match r {
        Ok(value) => Ok(value.datum()),
        Err(error) => Err((error.kind, error.message@)),
    }
}

/// Wrapping a value and downcasting to its own type gives the value back.
pub proof fn lemma_wrap_then_downcast<T: Erasable>(value: T, obj: AnyObject)
    requires
        obj.holds(value),
    ensures
        obj.downcast_spec::<T>() == Ok::<Datum, (ErrorKind, Seq<char>)>(value.datum()),
{
}

/// A container that holds a value of type `U` turns down every request for
/// another type `T` with a type mismatch.
pub proof fn lemma_downcast_to_other_type<T: Erasable, U: Erasable>(value: U, obj: AnyObject)
    requires
        obj.holds(value),
        T::shape() != U::shape(),
    ensures
        obj.downcast_spec::<T>() matches Err(e) && e.0 == ErrorKind::TypeMismatch,
{
}

/// Wraps `value` and downcasts the container to the value's own type.
pub fn round_trip<T: Erasable>(value: T) -> (r: Result<T, FfiError>)
    ensures
        r matches Ok(back) && back.datum() == value.datum(),
{
    AnyObject::new(value).downcast::<T>()
}

} // verus!
