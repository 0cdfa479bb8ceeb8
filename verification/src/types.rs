//! Type identifiers: the concrete types the boundary knows, their canonical
//! names, and the classes that call sites accept.

use vstd::prelude::*;

verus! {

/// A primitive type.
#[derive(Clone, Copy, Debug, PartialEq, Eq, Hash, Structural)]
pub enum Atom {
    Bool,
    I8,
    I16,
    I32,
    I64,
    I128,
    U8,
    U16,
    U32,
    U64,
    U128,
    F32,
    F64,
    Str,
}

/// The mathematical form of a type identifier.
pub enum Shape {
    Atom(Atom),
    /// A tuple of fixed size, member by member.
    Tuple(Seq<Shape>),
    /// A sequence of any length over one element type.
    Vector(Box<Shape>),
}

/// A type identifier. Its view is a `Shape`.
#[derive(Debug, PartialEq, Eq)]
pub enum Type {
    Atom(Atom),
    Tuple(Vec<Type>),
    Vector(Box<Type>),
}

/// A closed set of primitive types that share what an algorithm needs of them.
#[derive(Clone, Copy, Debug, PartialEq, Eq, Structural)]
pub enum TypeClass {
    /// Signed and unsigned integers of 8 to 64 bits.
    Integers,
    /// The two floating-point types.
    Floats,
    /// Integers and floats.
    Numbers,
    /// Integers, booleans and strings: what can be compared and hashed.
    Hashable,
}

/// The canonical name of a primitive type.
pub open spec fn atom_name(atom: Atom) -> Seq<char> {
    match atom {
        Atom::Bool => "bool"@,
        Atom::I8 => "i8"@,
        Atom::I16 => "i16"@,
        Atom::I32 => "i32"@,
        Atom::I64 => "i64"@,
        Atom::I128 => "i128"@,
        Atom::U8 => "u8"@,
        Atom::U16 => "u16"@,
        Atom::U32 => "u32"@,
        Atom::U64 => "u64"@,
        Atom::U128 => "u128"@,
        Atom::F32 => "f32"@,
        Atom::F64 => "f64"@,
        Atom::Str => "String"@,
    }
}

/// Whether `atom` is an integer of 8 to 64 bits.
pub open spec fn is_integer(atom: Atom) -> bool {
    atom == Atom::I8 || atom == Atom::I16 || atom == Atom::I32 || atom == Atom::I64
        || atom == Atom::U8 || atom == Atom::U16 || atom == Atom::U32 || atom == Atom::U64
}

/// Whether `atom` is a floating-point type.
pub open spec fn is_float(atom: Atom) -> bool {
    atom == Atom::F32 || atom == Atom::F64
}

/// The name of a class, as error messages give it.
pub open spec fn class_name(class: TypeClass) -> Seq<char> {
    match class {
        TypeClass::Integers => "integers"@,
        TypeClass::Floats => "floats"@,
        TypeClass::Numbers => "numbers"@,
        TypeClass::Hashable => "hashable"@,
    }
}

/// The names of the members of a tuple from position `from` on, joined by
/// `", "`.
pub open spec fn joined(items: Seq<Shape>, from: int) -> Seq<char>
    decreases items, items.len() - from,
{
    if from < 0 || from >= items.len() {
        Seq::empty()
    } else if from == items.len() - 1 {
        descriptor(items[from])
    } else {
        descriptor(items[from]) + ", "@ + joined(items, from + 1)
    }
}

/// What is still to be written of the members of a tuple once those before
/// position `from` are written.
pub open spec fn pending(items: Seq<Shape>, from: int) -> Seq<char> {
    if from <= 0 {
        joined(items, 0)
    } else if from < items.len() {
        ", "@ + joined(items, from)
    } else {
        Seq::empty()
    }
}

/// The canonical name of a type: a primitive's own name, `Vec<..>` around the
/// element's name, or the members' names in round brackets.
pub open spec fn descriptor(shape: Shape) -> Seq<char>
    decreases shape,
{
    match shape {
        Shape::Atom(atom) => atom_name(atom),
        Shape::Tuple(items) => "("@ + joined(items, 0) + ")"@,
        Shape::Vector(item) => "Vec<"@ + descriptor(*item) + ">"@,
    }
}

/// The shape of the pair type over the primitive `atom`.
pub open spec fn pair_shape(atom: Atom) -> Shape {
    Shape::Tuple(seq![Shape::Atom(atom), Shape::Atom(atom)])
}

/// The shape of the sequence type over the primitive `atom`.
pub open spec fn vector_shape(atom: Atom) -> Shape {
    Shape::Vector(Box::new(Shape::Atom(atom)))
}

/// The shapes of a list of identifiers.
pub open spec fn shapes_of(types: Seq<Type>) -> Seq<Shape> {
    Seq::new(types.len(), |i: int| types[i]@)
}

/// A shape that a selector can name: every tuple in it has two members or
/// more.
pub open spec fn well_formed(shape: Shape) -> bool
    decreases shape,
{
    match shape {
        Shape::Atom(_) => true,
        Shape::Tuple(items) => items.len() >= 2 && forall|i: int|
            0 <= i < items.len() ==> well_formed(#[trigger] items[i]),
        Shape::Vector(item) => well_formed(*item),
    }
}

impl Atom {
    /// The canonical name of this type.
    pub fn name(self) -> (r: &'static str)
        ensures
            r@ == atom_name(self),
    {
        match self {
            Atom::Bool => "bool",
            Atom::I8 => "i8",
            Atom::I16 => "i16",
            Atom::I32 => "i32",
            Atom::I64 => "i64",
            Atom::I128 => "i128",
            Atom::U8 => "u8",
            Atom::U16 => "u16",
            Atom::U32 => "u32",
            Atom::U64 => "u64",
            Atom::U128 => "u128",
            Atom::F32 => "f32",
            Atom::F64 => "f64",
            Atom::Str => "String",
        }
    }

    /// Whether this is an integer of 8 to 64 bits.
    pub fn is_integer(self) -> (r: bool)
        ensures
            r == is_integer(self),
    {
        match self {
            Atom::I8 | Atom::I16 | Atom::I32 | Atom::I64 => true,
            Atom::U8 | Atom::U16 | Atom::U32 | Atom::U64 => true,
            _ => false,
        }
    }

    /// Whether this is a floating-point type.
    pub fn is_float(self) -> (r: bool)
        ensures
            r == is_float(self),
    {
        match self {
            Atom::F32 | Atom::F64 => true,
            _ => false,
        }
    }
}

impl TypeClass {
    /// Whether the primitive `atom` is a member of this class.
    pub open spec fn admits(self, atom: Atom) -> bool {
        match self {
            TypeClass::Integers => is_integer(atom),
            TypeClass::Floats => is_float(atom),
            TypeClass::Numbers => is_integer(atom) || is_float(atom),
            TypeClass::Hashable => is_integer(atom) || atom == Atom::Bool || atom == Atom::Str,
        }
    }

    /// Whether the type of shape `shape` is a member of this class. Only
    /// primitives are members of a class.
    pub open spec fn contains(self, shape: Shape) -> bool {
        shape matches Shape::Atom(atom) && self.admits(atom)
    }

    /// Decides membership of a primitive.
    pub fn has_atom(self, atom: Atom) -> (r: bool)
        ensures
            r == self.admits(atom),
    {
        match self {
            TypeClass::Integers => atom.is_integer(),
            TypeClass::Floats => atom.is_float(),
            TypeClass::Numbers => atom.is_integer() || atom.is_float(),
            TypeClass::Hashable => atom.is_integer() || atom == Atom::Bool || atom == Atom::Str,
        }
    }

    /// Decides membership of a type.
    pub fn has(self, ty: &Type) -> (r: bool)
        ensures
            r == self.contains(ty@),
    {
        match ty {
            Type::Atom(atom) => self.has_atom(*atom),
            _ => false,
        }
    }

    /// The name of this class.
    pub fn name(self) -> (r: &'static str)
        ensures
            r@ == class_name(self),
    {
        match self {
            TypeClass::Integers => "integers",
            TypeClass::Floats => "floats",
            TypeClass::Numbers => "numbers",
            TypeClass::Hashable => "hashable",
        }
    }
}

impl Type {
    /// The shape of this identifier.
    pub open spec fn shape(self) -> Shape
        decreases self,
    {
        match self {
            Type::Atom(atom) => Shape::Atom(atom),
            Type::Tuple(items) => Shape::Tuple(
                Seq::new(
                    items@.len(),
                    |i: int|
                        if 0 <= i < items@.len() {
                            items@[i].shape()
                        } else {
                            Shape::Atom(Atom::Bool)
                        },
                ),
            ),
            Type::Vector(item) => Shape::Vector(Box::new((*item).shape())),
        }
    }

    /// The identifier of a primitive type.
    pub fn atom(atom: Atom) -> (r: Type)
        ensures
            r@ == Shape::Atom(atom),
    {
        Type::Atom(atom)
    }

    /// The identifier of the sequence type over `item`.
    pub fn vector(item: Type) -> (r: Type)
        ensures
            r@ == Shape::Vector(Box::new(item@)),
    {
        Type::Vector(Box::new(item))
    }

    /// The identifier of the pair type over `first` and `second`.
    pub fn pair(first: Type, second: Type) -> (r: Type)
        ensures
            r@ == Shape::Tuple(seq![first@, second@]),
    {
        let mut items: Vec<Type> = Vec::new();
        items.push(first);
        items.push(second);
        let r = Type::Tuple(items);
        assert(r@->Tuple_0 =~= seq![first@, second@]);
        r
    }

    /// The identifier of the tuple type over `items`.
    pub fn tuple(items: Vec<Type>) -> (r: Type)
        ensures
            r@ == Shape::Tuple(shapes_of(items@)),
    {
        let r = Type::Tuple(items);
        assert(r@->Tuple_0 =~= shapes_of(items@));
        r
    }

    /// Whether two identifiers name the same type.
    pub fn same(&self, other: &Type) -> (r: bool)
        ensures
            r == (self@ == other@),
        decreases self,
    {
        match (self, other) {
            (Type::Atom(a), Type::Atom(b)) => *a == *b,
            (Type::Vector(a), Type::Vector(b)) => a.same(b),
            (Type::Tuple(a), Type::Tuple(b)) => {
                if a.len() != b.len() {
                    assert(self@->Tuple_0.len() != other@->Tuple_0.len());
                    return false;
                }
                let mut i: usize = 0;
                while i < a.len()
                    invariant
                        i <= a.len(),
                        a.len() == b.len(),
                        *self == Type::Tuple(*a),
                        *other == Type::Tuple(*b),
                        forall|j: int| 0 <= j < i ==> a@[j]@ == b@[j]@,
                    decreases a.len() - i,
                {
                    if !a[i].same(&b[i]) {
                        assert(self@->Tuple_0[i as int] != other@->Tuple_0[i as int]);
                        return false;
                    }
                    i += 1;
                }
                assert(self@->Tuple_0 =~= other@->Tuple_0);
                true
            },
            _ => false,
        }
    }

    /// A copy of this identifier.
    pub fn duplicate(&self) -> (r: Type)
        ensures
            r@ == self@,
        decreases self,
    {
        match self {
            Type::Atom(atom) => Type::Atom(*atom),
            Type::Vector(item) => Type::Vector(Box::new(item.duplicate())),
            Type::Tuple(items) => {
                let mut copies: Vec<Type> = Vec::new();
                let mut i: usize = 0;
                while i < items.len()
                    invariant
                        i <= items.len(),
                        copies@.len() == i,
                        *self == Type::Tuple(*items),
                        forall|j: int| 0 <= j < i ==> copies@[j]@ == items@[j]@,
                    decreases items.len() - i,
                {
                    assert(self->Tuple_0 == *items);
                    let copy = items[i].duplicate();
                    copies.push(copy);
                    i += 1;
                }
                let r = Type::Tuple(copies);
                assert(r@->Tuple_0 =~= self@->Tuple_0);
                r
            },
        }
    }

    /// The canonical name of this type.
    pub fn descriptor(&self) -> (r: String)
        ensures
            r@ == descriptor(self@),
        decreases self,
    {
        match self {
            Type::Atom(atom) => atom.name().to_owned(),
            Type::Vector(item) => {
                let mut text = "Vec<".to_owned();
                let inner = item.descriptor();
                text.append(inner.as_str());
                text.append(">");
                text
            },
            Type::Tuple(items) => {
                let mut text = "(".to_owned();
                let ghost shapes = self@->Tuple_0;
                let mut i: usize = 0;
                while i < items.len()
                    invariant
                        i <= items.len(),
                        *self == Type::Tuple(*items),
                        shapes == self@->Tuple_0,
                        text@ + pending(shapes, i as int) == "("@ + joined(shapes, 0),
                    decreases items.len() - i,
                {
                    let ghost before = text@;
                    if i > 0 {
                        text.append(", ");
                    }
                    let inner = items[i].descriptor();
                    text.append(inner.as_str());
                    proof {
                        assert(shapes[i as int] == items@[i as int]@);
                        assert(text@ + pending(shapes, i + 1) =~= before + pending(
                            shapes,
                            i as int,
                        ));
                    }
                    i += 1;
                }
                proof {
                    assert(text@ + pending(shapes, i as int) =~= text@);
                }
                text.append(")");
                text
            },
        }
    }
}

impl View for Type {
    type V = Shape;

    open spec fn view(&self) -> Shape {
        self.shape()
    }
}

impl Clone for Type {
    fn clone(&self) -> (r: Type)
        ensures
            r@ == self@,
    {
        self.duplicate()
    }
}

} // verus!
