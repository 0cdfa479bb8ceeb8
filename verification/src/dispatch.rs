//! Dispatch: from the types a caller named to the one implementation that was
//! built for exactly those types, or to a refusal before anything is built.

use vstd::prelude::*;
use crate::error::{ErrorKind, FfiError};
use crate::canonical::lemma_canonical_name_is_read_back;
use crate::selector::resolve_one;
use crate::types::{class_name, descriptor, shapes_of, well_formed, Atom, Shape, Type, TypeClass};

verus! {

/// What is reported for a type that is not a member of the class its call
/// site accepts: the type, then the class.
pub open spec fn unsupported_message(shape: Shape, class: TypeClass) -> Seq<char> {
    "no implementation for type "@ + descriptor(shape) + "; this call site accepts "@ + class_name(
        class,
    )
}

/// The implementation that a call site of class `class` has for the type of
/// shape `shape`: the one built for that very primitive, if it is a member of
/// the class, and otherwise none.
pub open spec fn select(shape: Shape, class: TypeClass) -> Result<Atom, (ErrorKind, Seq<char>)> {
    if class.contains(shape) {
        Ok(shape->Atom_0)
    } else {
        Err((ErrorKind::UnsupportedType, unsupported_message(shape, class)))
    }
}

/// The outcome of a dispatch in mathematical form.
pub open spec fn chosen(r: Result<Atom, FfiError>) -> Result<Atom, (ErrorKind, Seq<char>)> {
    match r {
        Ok(atom) => Ok(atom),
        Err(error) => Err((error.kind, error.message@)),
    }
}

/// What is reported where the number of types is not the number of type
/// parameters of the call site.
pub open spec fn count_message() -> Seq<char> {
    "the call site takes another number of types"@
}

/// The implementation that a call site with several type parameters has for
/// the types of shapes `shapes`, where `classes` holds the class of each
/// parameter: the one built for exactly that tuple of primitives, if there
/// are as many types as parameters and each is a member of the class at its
/// position. Otherwise the first type that is outside its class is refused.
pub open spec fn select_all(shapes: Seq<Shape>, classes: Seq<TypeClass>) -> Result<
    Seq<Atom>,
    (ErrorKind, Seq<char>),
>
    decreases shapes.len(),
{
    if shapes.len() != classes.len() {
        Err((ErrorKind::ArityMismatch, count_message()))
    } else if shapes.len() == 0 {
        Ok(Seq::empty())
    } else {
        match select(shapes[0], classes[0]) {
            Err(e) => Err(e),
            Ok(atom) => match select_all(shapes.drop_first(), classes.drop_first()) {
                Err(e) => Err(e),
                Ok(rest) => Ok(seq![atom] + rest),
            },
        }
    }
}

/// The outcome of a dispatch over several types in mathematical form.
pub open spec fn chosen_all(r: Result<Vec<Atom>, FfiError>) -> Result<
    Seq<Atom>,
    (ErrorKind, Seq<char>),
> {
    match r {
        Ok(atoms) => Ok(atoms@),
        Err(error) => Err((error.kind, error.message@)),
    }
}

/// Whether every one of `shapes` is a member of the class at its position.
pub open spec fn all_members(shapes: Seq<Shape>, classes: Seq<TypeClass>) -> bool {
    forall|i: int| 0 <= i < shapes.len() ==> (#[trigger] classes[i]).contains(shapes[i])
}

/// Whether `i` is the first position at which `shapes` holds a type outside
/// the class of that position.
pub open spec fn first_outsider(shapes: Seq<Shape>, classes: Seq<TypeClass>, i: int) -> bool {
    &&& 0 <= i < shapes.len()
    &&& !classes[i].contains(shapes[i])
    &&& forall|j: int| 0 <= j < i ==> (#[trigger] classes[j]).contains(shapes[j])
}

/// The refusal of a type that is outside its class.
pub(crate) fn refuse(ty: &Type, class: TypeClass) -> (e: FfiError)
    ensures
        e.kind == ErrorKind::UnsupportedType,
        e.message@ == unsupported_message(ty@, class),
{
    let mut message = "no implementation for type ".to_owned();
    let name = ty.descriptor();
    message.append(name.as_str());
    message.append("; this call site accepts ");
    message.append(class.name());
    assert(message@ =~= unsupported_message(ty@, class));
    FfiError::new(ErrorKind::UnsupportedType, message)
}

/// Resolves one type at a call site that accepts the class `class`. A member
/// of the class reaches the implementation for that very type. Anything else
/// is refused as unsupported, with the type and the class named.
pub fn dispatch(ty: &Type, class: TypeClass) -> (r: Result<Atom, FfiError>)
    ensures
        chosen(r) == select(ty@, class),
{
    match ty {
        Type::Atom(atom) => {
            if class.has_atom(*atom) {
                Ok(*atom)
            } else {
                Err(refuse(ty, class))
            }
        },
        _ => Err(refuse(ty, class)),
    }
}

/// The implementation that the selector `s` reaches at a call site with one
/// type parameter of class `class`: the selector is read first, then the type
/// it names is resolved against the class.
pub open spec fn select_named(s: Seq<char>, class: TypeClass) -> Result<
    Atom,
    (ErrorKind, Seq<char>),
> {
    match resolve_one(s) {
        Ok(shape) => select(shape, class),
        Err(e) => Err(e),
    }
}

/// Reads a selector for one type and resolves the type against `class`.
pub fn dispatch_selector(selector: &str, class: TypeClass) -> (r: Result<Atom, FfiError>)
    ensures
        chosen(r) == select_named(selector@, class),
{
    match Type::try_from(selector) {
        Ok(ty) => dispatch(&ty, class),
        Err(error) => Err(error),
    }
}

/// `rest` with `done` put in front, where `rest` is a tuple of primitives.
pub open spec fn continued(
    done: Seq<Atom>,
    rest: Result<Seq<Atom>, (ErrorKind, Seq<char>)>,
) -> Result<Seq<Atom>, (ErrorKind, Seq<char>)> {
    match rest {
        Ok(atoms) => Ok(done + atoms),
        Err(e) => Err(e),
    }
}

/// Resolves the types of a call site with several type parameters, each
/// against the class of its position.
pub fn dispatch_all(types: &Vec<Type>, classes: &Vec<TypeClass>) -> (r: Result<Vec<Atom>, FfiError>)
    ensures
        chosen_all(r) == select_all(shapes_of(types@), classes@),
{
    if types.len() != classes.len() {
        return Err(
            FfiError::with_text(
                ErrorKind::ArityMismatch,
                "the call site takes another number of types",
            ),
        );
    }
    let ghost shapes = shapes_of(types@);
    let mut atoms: Vec<Atom> = Vec::new();
    let mut i: usize = 0;
    proof {
        assert(shapes.subrange(0, shapes.len() as int) =~= shapes);
        assert(classes@.subrange(0, classes@.len() as int) =~= classes@);
        assert(Seq::<Atom>::empty() + Seq::<Atom>::empty() =~= Seq::<Atom>::empty());
        assert forall|rest: Seq<Atom>| Seq::<Atom>::empty() + rest =~= rest by {}
    }
    while i < types.len()
        invariant
            i <= types.len(),
            types.len() == classes.len(),
            shapes == shapes_of(types@),
            select_all(shapes, classes@) == continued(
                atoms@,
                select_all(
                    shapes.subrange(i as int, shapes.len() as int),
                    classes@.subrange(i as int, classes@.len() as int),
                ),
            ),
        decreases types.len() - i,
    {
        let ghost tail = shapes.subrange(i as int, shapes.len() as int);
        let ghost tail_classes = classes@.subrange(i as int, classes@.len() as int);
        let ghost done = atoms@;
        proof {
            assert(tail.drop_first() =~= shapes.subrange(i + 1, shapes.len() as int));
            assert(tail_classes.drop_first() =~= classes@.subrange(i + 1, classes@.len() as int));
            assert(tail[0] == types@[i as int]@);
            assert(tail_classes[0] == classes@[i as int]);
        }
        match dispatch(&types[i], classes[i]) {
            Ok(atom) => {
                atoms.push(atom);
                proof {
                    assert forall|rest: Seq<Atom>| done + (seq![atom] + rest) =~= atoms@ + rest by {}
                }
            },
            Err(error) => {
                return Err(error);
            },
        }
        i += 1;
    }
    proof {
        assert(atoms@ + Seq::<Atom>::empty() =~= atoms@);
    }
    Ok(atoms)
}

/// A tuple of types reaches an implementation exactly when each of them is a
/// member of the class at its position, and it is the implementation for
/// those very types. Otherwise what is refused is the first type outside
/// its class.
pub proof fn lemma_tuple_reaches_its_own(shapes: Seq<Shape>, classes: Seq<TypeClass>)
    requires
        shapes.len() == classes.len(),
    ensures
        match select_all(shapes, classes) {
            Ok(atoms) => {
                &&& all_members(shapes, classes)
                &&& atoms.len() == shapes.len()
                &&& forall|i: int| 0 <= i < shapes.len() ==> shapes[i] == Shape::Atom(atoms[i])
            },
            Err(e) => exists|i: int|
                {
                    &&& first_outsider(shapes, classes, i)
                    &&& e == (
                        ErrorKind::UnsupportedType,
                        unsupported_message(#[trigger] shapes[i], classes[i]),
                    )
                },
        },
    decreases shapes.len(),
{
    if shapes.len() > 0 {
        let rest = shapes.drop_first();
        let rest_classes = classes.drop_first();
        lemma_tuple_reaches_its_own(rest, rest_classes);
        match select(shapes[0], classes[0]) {
            Err(e) => {
                assert(first_outsider(shapes, classes, 0));
            },
            Ok(atom) => {
                match select_all(rest, rest_classes) {
                    Ok(atoms) => {
                        assert forall|i: int| 0 <= i < shapes.len() implies (
                        #[trigger] classes[i]).contains(shapes[i]) by {
                            if i > 0 {
                                assert(rest_classes[i - 1] == classes[i]);
                                assert(rest[i - 1] == shapes[i]);
                            }
                        }
                        assert forall|i: int| 0 <= i < shapes.len() implies shapes[i]
                            == Shape::Atom((seq![atom] + atoms)[i]) by {
                            if i > 0 {
                                assert(rest[i - 1] == shapes[i]);
                            }
                        }
                    },
                    Err(e) => {
                        let k = choose|k: int|
                            first_outsider(rest, rest_classes, k) && e == (
                                ErrorKind::UnsupportedType,
                                unsupported_message(#[trigger] rest[k], rest_classes[k]),
                            );
                        assert(rest[k] == shapes[k + 1]);
                        assert(rest_classes[k] == classes[k + 1]);
                        assert forall|j: int| 0 <= j < k + 1 implies (
                        #[trigger] classes[j]).contains(shapes[j]) by {
                            if j > 0 {
                                assert(rest_classes[j - 1] == classes[j]);
                                assert(rest[j - 1] == shapes[j]);
                            }
                        }
                        assert(first_outsider(shapes, classes, k + 1));
                    },
                }
            },
        }
    }
}

/// Every member of a class reaches an implementation, and it is the one for
/// that member: no two members share one, and none falls through to
/// another's.
pub proof fn lemma_member_reaches_its_own(class: TypeClass, atom: Atom)
    requires
        class.admits(atom),
    ensures
        select(Shape::Atom(atom), class) == Ok::<Atom, (ErrorKind, Seq<char>)>(atom),
        forall|other: Atom|
            select(Shape::Atom(other), class) == select(Shape::Atom(atom), class) ==> other
                == atom,
{
}

/// A type outside the class reaches no implementation: it is refused as
/// unsupported.
pub proof fn lemma_outsider_is_refused(class: TypeClass, shape: Shape)
    requires
        !class.contains(shape),
    ensures
        select(shape, class) matches Err(e) && e.0 == ErrorKind::UnsupportedType,
{
}

/// A selector that names a member of the class by its canonical name reaches
/// the implementation for that member.
pub proof fn lemma_named_member_reaches_its_own(class: TypeClass, atom: Atom)
    requires
        class.admits(atom),
    ensures
        select_named(descriptor(Shape::Atom(atom)), class) == Ok::<Atom, (ErrorKind, Seq<char>)>(
            atom,
        ),
{
    lemma_canonical_name_is_read_back(Shape::Atom(atom));
}

/// A selector that names a type outside the class, by its canonical name, is
/// refused as unsupported.
pub proof fn lemma_named_outsider_is_refused(class: TypeClass, shape: Shape)
    requires
        well_formed(shape),
        !class.contains(shape),
    ensures
        select_named(descriptor(shape), class) matches Err(e) && e.0 == ErrorKind::UnsupportedType,
{
    lemma_canonical_name_is_read_back(shape);
}

/// Whatever the selector, it reaches the implementation of the type it
/// names, if that is a member, and is refused if it names a type that is
/// not. A selector that names no type reaches nothing either.
pub proof fn lemma_selector_reaches_what_it_names(s: Seq<char>, class: TypeClass)
    ensures
        match resolve_one(s) {
            Ok(shape) => if class.contains(shape) {
                select_named(s, class) == Ok::<Atom, (ErrorKind, Seq<char>)>(shape->Atom_0)
            } else {
                select_named(s, class) matches Err(e) && e.0 == ErrorKind::UnsupportedType
            },
            Err(e) => select_named(s, class) == Err::<Atom, (ErrorKind, Seq<char>)>(e),
        },
{
}

/// The 128-bit integers are members of no class.
pub proof fn lemma_wide_integers_are_outsiders(class: TypeClass)
    ensures
        !class.admits(Atom::I128),
        !class.admits(Atom::U128),
{
}

} // verus!
