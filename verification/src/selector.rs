//! Type selectors: the text by which a caller names the types of a call site.
//!
//! A selector is one type name or more, joined by commas. A comma may be
//! followed by spaces. A type name is the name of a primitive (`i32`, `bool`,
//! `String`, ..., or the long form of a number type, such as `int32`),
//! `Vec<T>` for a type name `T`, or two or more type names in round brackets.

use vstd::prelude::*;
use crate::error::{ErrorKind, FfiError};
use crate::types::{shapes_of, Atom, Shape, Type};

verus! {

/// The types that a selector names, in the order of the call site's type
/// parameters.
#[derive(Debug, PartialEq, Eq)]
pub struct TypeArgs(pub Vec<Type>);

/// Whether `c` can stand in the name of a primitive.
pub open spec fn is_word_char(c: char) -> bool {
    ('a' <= c && c <= 'z') || ('A' <= c && c <= 'Z') || ('0' <= c && c <= '9')
}

/// The number of characters from `pos` on that can stand in a name.
pub open spec fn word_len(s: Seq<char>, pos: int) -> nat
    decreases s.len() - pos,
{
    if 0 <= pos < s.len() && is_word_char(s[pos]) {
        1 + word_len(s, pos + 1)
    } else {
        0
    }
}

/// The number of spaces from `pos` on.
pub open spec fn spaces_len(s: Seq<char>, pos: int) -> nat
    decreases s.len() - pos,
{
    if 0 <= pos < s.len() && s[pos] == ' ' {
        1 + spaces_len(s, pos + 1)
    } else {
        0
    }
}

/// The primitive that `word` names, by its canonical name or its long form.
pub open spec fn atom_named(word: Seq<char>) -> Option<Atom> {
    if word == "bool"@ {
        Some(Atom::Bool)
    } else if word == "String"@ {
        Some(Atom::Str)
    } else if word == "i8"@ || word == "int8"@ {
        Some(Atom::I8)
    } else if word == "i16"@ || word == "int16"@ {
        Some(Atom::I16)
    } else if word == "i32"@ || word == "int32"@ {
        Some(Atom::I32)
    } else if word == "i64"@ || word == "int64"@ {
        Some(Atom::I64)
    } else if word == "i128"@ || word == "int128"@ {
        Some(Atom::I128)
    } else if word == "u8"@ || word == "uint8"@ {
        Some(Atom::U8)
    } else if word == "u16"@ || word == "uint16"@ {
        Some(Atom::U16)
    } else if word == "u32"@ || word == "uint32"@ {
        Some(Atom::U32)
    } else if word == "u64"@ || word == "uint64"@ {
        Some(Atom::U64)
    } else if word == "u128"@ || word == "uint128"@ {
        Some(Atom::U128)
    } else if word == "f32"@ || word == "float32"@ {
        Some(Atom::F32)
    } else if word == "f64"@ || word == "float64"@ {
        Some(Atom::F64)
    } else {
        None
    }
}

/// Reads one type name that starts at `pos`: the type named and the number of
/// characters read, or nothing where no type name starts there.
pub open spec fn parse_type(s: Seq<char>, pos: int) -> Option<(Shape, nat)>
    decreases s.len() - pos, 1nat,
{
    if pos < 0 || pos >= s.len() {
        None
    } else if s[pos] == '(' {
        match parse_items(s, pos + 1) {
            Some((items, n)) => if items.len() >= 2 && pos + 1 + n < s.len() && s[pos + 1 + n]
                == ')' {
                Some((Shape::Tuple(items), n + 2))
            } else {
                None
            },
            None => None,
        }
    } else {
        let n = word_len(s, pos);
        let word = s.subrange(pos, pos + n);
        if word == "Vec"@ && pos + n < s.len() && s[pos + n] == '<' {
            match parse_type(s, pos + n + 1) {
                Some((item, m)) => if pos + n + 1 + m < s.len() && s[pos + n + 1 + m] == '>' {
                    Some((Shape::Vector(Box::new(item)), n + m + 2))
                } else {
                    None
                },
                None => None,
            }
        } else {
            match atom_named(word) {
                Some(atom) => Some((Shape::Atom(atom), n)),
                None => None,
            }
        }
    }
}

/// Reads one type name or more, joined by commas, from `pos` on: the types
/// named and the number of characters read.
pub open spec fn parse_items(s: Seq<char>, pos: int) -> Option<(Seq<Shape>, nat)>
    decreases s.len() - pos, 2nat,
{
    match parse_type(s, pos) {
        None => None,
        Some((first, n)) => if pos + n < s.len() && s[pos + n] == ',' {
            let gap = 1 + spaces_len(s, pos + n + 1);
            if 0 <= pos && pos + n + gap <= s.len() {
                match parse_items(s, pos + n + gap) {
                    Some((rest, m)) => Some((seq![first] + rest, n + gap + m)),
                    None => None,
                }
            } else {
                None
            }
        } else {
            Some((seq![first], n))
        },
    }
}

/// The types that the selector `s` names: `s` is read from its first
/// character to its last, and nothing may be left over.
pub open spec fn parse_selector(s: Seq<char>) -> Option<Seq<Shape>> {
    match parse_items(s, 0) {
        Some((items, n)) => if n == s.len() {
            Some(items)
        } else {
            None
        },
        None => None,
    }
}

/// What is reported for a selector that holds something other than type
/// names.
pub open spec fn unknown_message(s: Seq<char>) -> Seq<char> {
    "unknown type name in selector: "@ + s
}

/// What is reported for a selector that names another number of types than
/// its call site takes.
pub open spec fn arity_message(s: Seq<char>) -> Seq<char> {
    "wrong number of types in selector: "@ + s
}

/// What reading the selector `s` at a call site with `count` type parameters
/// gives: the types named, or the kind and message of the error.
pub open spec fn resolve(s: Seq<char>, count: nat) -> Result<Seq<Shape>, (ErrorKind, Seq<char>)> {
    match parse_selector(s) {
        None => Err((ErrorKind::UnknownToken, unknown_message(s))),
        Some(items) => if items.len() == count {
            Ok(items)
        } else {
            Err((ErrorKind::ArityMismatch, arity_message(s)))
        },
    }
}

fn is_word_char_exec(c: char) -> (r: bool)
    ensures
        r == is_word_char(c),
{
    ('a' <= c && c <= 'z') || ('A' <= c && c <= 'Z') || ('0' <= c && c <= '9')
}

/// The characters of `text`, one by one.
fn chars_of(text: &str) -> (r: Vec<char>)
    ensures
        r@ == text@,
{
    let n: usize = text.unicode_len();
    let mut out: Vec<char> = Vec::new();
    let mut i: usize = 0;
    while i < n
        invariant
            i <= n,
            n == text@.len(),
            out@ == text@.subrange(0, i as int),
        decreases n - i,
    {
        out.push(text.get_char(i));
        i += 1;
        assert(out@ =~= text@.subrange(0, i as int));
    }
    assert(out@ =~= text@);
    out
}

fn word_len_at(s: &Vec<char>, pos: usize) -> (n: usize)
    requires
        pos <= s.len(),
    ensures
        n == word_len(s@, pos as int),
        pos + n <= s.len(),
{
    let mut i: usize = pos;
    while i < s.len() && is_word_char_exec(s[i])
        invariant
            pos <= i <= s.len(),
            word_len(s@, pos as int) == (i - pos) + word_len(s@, i as int),
        decreases s.len() - i,
    {
        i += 1;
    }
    i - pos
}

fn spaces_len_at(s: &Vec<char>, pos: usize) -> (n: usize)
    requires
        pos <= s.len(),
    ensures
        n == spaces_len(s@, pos as int),
        pos + n <= s.len(),
{
    let mut i: usize = pos;
    while i < s.len() && s[i] == ' '
        invariant
            pos <= i <= s.len(),
            spaces_len(s@, pos as int) == (i - pos) + spaces_len(s@, i as int),
        decreases s.len() - i,
    {
        i += 1;
    }
    i - pos
}

/// Whether the `n` characters of `s` from `pos` on spell `literal`.
fn word_is(s: &Vec<char>, pos: usize, n: usize, literal: &str) -> (r: bool)
    requires
        pos + n <= s.len(),
    ensures
        r == (s@.subrange(pos as int, pos + n) == literal@),
{
    let len: usize = literal.unicode_len();
    if len != n {
        return false;
    }
    let mut i: usize = 0;
    while i < n
        invariant
            i <= n,
            n == literal@.len(),
            pos + n <= s.len(),
            forall|j: int| 0 <= j < i ==> s@[pos + j] == literal@[j],
        decreases n - i,
    {
        if s[pos + i] != literal.get_char(i) {
            assert(s@.subrange(pos as int, pos + n)[i as int] != literal@[i as int]);
            return false;
        }
        i += 1;
    }
    assert(s@.subrange(pos as int, pos + n) =~= literal@);
    true
}

fn atom_named_at(s: &Vec<char>, pos: usize, n: usize) -> (r: Option<Atom>)
    requires
        pos + n <= s.len(),
    ensures
        r == atom_named(s@.subrange(pos as int, pos + n)),
{
    if word_is(s, pos, n, "bool") {
        Some(Atom::Bool)
    } else if word_is(s, pos, n, "String") {
        Some(Atom::Str)
    } else if word_is(s, pos, n, "i8") || word_is(s, pos, n, "int8") {
        Some(Atom::I8)
    } else if word_is(s, pos, n, "i16") || word_is(s, pos, n, "int16") {
        Some(Atom::I16)
    } else if word_is(s, pos, n, "i32") || word_is(s, pos, n, "int32") {
        Some(Atom::I32)
    } else if word_is(s, pos, n, "i64") || word_is(s, pos, n, "int64") {
        Some(Atom::I64)
    } else if word_is(s, pos, n, "i128") || word_is(s, pos, n, "int128") {
        Some(Atom::I128)
    } else if word_is(s, pos, n, "u8") || word_is(s, pos, n, "uint8") {
        Some(Atom::U8)
    } else if word_is(s, pos, n, "u16") || word_is(s, pos, n, "uint16") {
        Some(Atom::U16)
    } else if word_is(s, pos, n, "u32") || word_is(s, pos, n, "uint32") {
        Some(Atom::U32)
    } else if word_is(s, pos, n, "u64") || word_is(s, pos, n, "uint64") {
        Some(Atom::U64)
    } else if word_is(s, pos, n, "u128") || word_is(s, pos, n, "uint128") {
        Some(Atom::U128)
    } else if word_is(s, pos, n, "f32") || word_is(s, pos, n, "float32") {
        Some(Atom::F32)
    } else if word_is(s, pos, n, "f64") || word_is(s, pos, n, "float64") {
        Some(Atom::F64)
    } else {
        None
    }
}

fn parse_type_at(s: &Vec<char>, pos: usize) -> (r: Option<(Type, usize)>)
    requires
        pos <= s.len(),
    ensures
        match r {
            Some((ty, n)) => parse_type(s@, pos as int) == Some((ty@, n as nat)) && pos + n
                <= s.len(),
            None => parse_type(s@, pos as int) is None,
        },
    decreases s.len() - pos, 1nat,
{
    if pos >= s.len() {
        return None;
    }
    if s[pos] == '(' {
        match parse_items_at(s, pos + 1) {
            Some((items, n)) => {
                if items.len() >= 2 && pos + 1 + n < s.len() && s[pos + 1 + n] == ')' {
                    let ghost shapes = shapes_of(items@);
                    let ty = Type::Tuple(items);
                    assert(ty@->Tuple_0 =~= shapes);
                    Some((ty, n + 2))
                } else {
                    None
                }
            },
            None => None,
        }
    } else {
        let n: usize = word_len_at(s, pos);
        if word_is(s, pos, n, "Vec") && pos + n < s.len() && s[pos + n] == '<' {
            match parse_type_at(s, pos + n + 1) {
                Some((item, m)) => {
                    if pos + n + 1 + m < s.len() && s[pos + n + 1 + m] == '>' {
                        Some((Type::Vector(Box::new(item)), n + m + 2))
                    } else {
                        None
                    }
                },
                None => None,
            }
        } else {
            match atom_named_at(s, pos, n) {
                Some(atom) => Some((Type::Atom(atom), n)),
                None => None,
            }
        }
    }
}

fn parse_items_at(s: &Vec<char>, pos: usize) -> (r: Option<(Vec<Type>, usize)>)
    requires
        pos <= s.len(),
    ensures
        match r {
            Some((items, n)) => parse_items(s@, pos as int) == Some((shapes_of(items@), n as nat))
                && pos + n <= s.len(),
            None => parse_items(s@, pos as int) is None,
        },
    decreases s.len() - pos, 2nat,
{
    match parse_type_at(s, pos) {
        None => None,
        Some((first, n)) => {
            if pos + n < s.len() && s[pos + n] == ',' {
                let gap: usize = 1 + spaces_len_at(s, pos + n + 1);
                match parse_items_at(s, pos + n + gap) {
                    Some((rest, m)) => {
                        let mut items: Vec<Type> = Vec::new();
                        let ghost head = first@;
                        let ghost tail = shapes_of(rest@);
                        items.push(first);
                        let mut rest = rest;
                        items.append(&mut rest);
                        assert(shapes_of(items@) =~= seq![head] + tail);
                        Some((items, n + gap + m))
                    },
                    None => None,
                }
            } else {
                let mut items: Vec<Type> = Vec::new();
                let ghost head = first@;
                items.push(first);
                assert(shapes_of(items@) =~= seq![head]);
                Some((items, n))
            }
        },
    }
}

/// The outcome of reading a selector in mathematical form.
pub open spec fn named(r: Result<TypeArgs, FfiError>) -> Result<Seq<Shape>, (ErrorKind, Seq<char>)> {
    match r {
        Ok(args) => Ok(shapes_of(args.0@)),
        Err(error) => Err((error.kind, error.message@)),
    }
}

impl TypeArgs {
    /// Reads a selector at a call site that takes `count` types. The result
    /// holds the types named, in order, if the selector is made of type names
    /// and of `count` of them. A selector that holds anything else, the empty
    /// one too, is an unknown token; one that names another number of types
    /// is an arity mismatch.
    pub fn parse(selector: &str, count: usize) -> (r: Result<TypeArgs, FfiError>)
        ensures
            named(r) == resolve(selector@, count as nat),
    {
        let s = chars_of(selector);
        match parse_items_at(&s, 0) {
            Some((items, n)) => {
                if n == s.len() {
                    if items.len() == count {
                        Ok(TypeArgs(items))
                    } else {
                        let mut message = "wrong number of types in selector: ".to_owned();
                        message.append(selector);
                        Err(FfiError::new(ErrorKind::ArityMismatch, message))
                    }
                } else {
                    let mut message = "unknown type name in selector: ".to_owned();
                    message.append(selector);
                    Err(FfiError::new(ErrorKind::UnknownToken, message))
                }
            },
            None => {
                let mut message = "unknown type name in selector: ".to_owned();
                message.append(selector);
                Err(FfiError::new(ErrorKind::UnknownToken, message))
            },
        }
    }
}

/// The outcome of reading a selector for one type in mathematical form.
pub open spec fn named_one(r: Result<Type, FfiError>) -> Result<Shape, (ErrorKind, Seq<char>)> {
    match r {
        Ok(ty) => Ok(ty@),
        Err(error) => Err((error.kind, error.message@)),
    }
}

/// What reading the selector `s` at a call site with one type parameter
/// gives.
pub open spec fn resolve_one(s: Seq<char>) -> Result<Shape, (ErrorKind, Seq<char>)> {
    match resolve(s, 1) {
        Ok(items) => Ok(items[0]),
        Err(e) => Err(e),
    }
}

impl Type {
    /// Reads a selector that names one type.
    pub fn try_from(selector: &str) -> (r: Result<Type, FfiError>)
        ensures
            named_one(r) == resolve_one(selector@),
    {
        match TypeArgs::parse(selector, 1) {
            Ok(args) => {
                let mut items = args.0;
                match items.pop() {
                    Some(ty) => Ok(ty),
                    None => {
                        assert(false);
                        Err(FfiError::with_text(ErrorKind::InternalFailure, ""))
                    },
                }
            },
            Err(error) => Err(error),
        }
    }
}

} // verus!
