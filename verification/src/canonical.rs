//! Canonical names and selectors agree: the name that is printed for a type
//! is read back as that type and no other.

use vstd::prelude::*;
use crate::error::ErrorKind;
use crate::selector::{
    atom_named, is_word_char, parse_items, parse_selector, parse_type, resolve, resolve_one,
    spaces_len, word_len,
};
use crate::types::{atom_name, descriptor, joined, well_formed, Atom, Shape};

verus! {

/// Whether the text `d` stands in `s` from `pos` on.
spec fn stands_at(s: Seq<char>, pos: int, d: Seq<char>) -> bool {
    0 <= pos && pos + d.len() <= s.len() && s.subrange(pos, pos + d.len()) == d
}

/// Whether no name goes on at `pos`: `s` ends there, or holds a character
/// there that cannot stand in a name.
spec fn word_stops(s: Seq<char>, pos: int) -> bool {
    pos >= s.len() || !is_word_char(s[pos])
}

/// Whether every one of `items` is well formed.
pub open spec fn all_well_formed(items: Seq<Shape>) -> bool {
    forall|i: int| 0 <= i < items.len() ==> well_formed(#[trigger] items[i])
}

proof fn lemma_word_len(s: Seq<char>, pos: int, n: nat)
    requires
        0 <= pos,
        pos + n <= s.len(),
        forall|k: int| pos <= k < pos + n ==> is_word_char(#[trigger] s[k]),
        word_stops(s, pos + n),
    ensures
        word_len(s, pos) == n,
    decreases n,
{
    if n > 0 {
        lemma_word_len(s, pos + 1, (n - 1) as nat);
    }
}

proof fn lemma_atom_names(atom: Atom)
    ensures
        atom_named(atom_name(atom)) == Some(atom),
        atom_name(atom) != "Vec"@,
        atom_name(atom).len() > 0,
        forall|k: int|
            0 <= k < atom_name(atom).len() ==> is_word_char(#[trigger] atom_name(atom)[k]),
{
    reveal_strlit("Vec");
    reveal_strlit("bool");
    reveal_strlit("String");
    reveal_strlit("i8");
    reveal_strlit("int8");
    reveal_strlit("i16");
    reveal_strlit("int16");
    reveal_strlit("i32");
    reveal_strlit("int32");
    reveal_strlit("i64");
    reveal_strlit("int64");
    reveal_strlit("i128");
    reveal_strlit("int128");
    reveal_strlit("u8");
    reveal_strlit("uint8");
    reveal_strlit("u16");
    reveal_strlit("uint16");
    reveal_strlit("u32");
    reveal_strlit("uint32");
    reveal_strlit("u64");
    reveal_strlit("uint64");
    reveal_strlit("u128");
    reveal_strlit("uint128");
    reveal_strlit("f32");
    reveal_strlit("float32");
    reveal_strlit("f64");
    reveal_strlit("float64");
    match atom {
        Atom::Bool => {
            assert(atom_name(atom) == "bool"@);
            assert("bool"@[0] != "int8"@[0]);
            assert("bool"@[0] != "i128"@[0]);
            assert("bool"@[0] != "u128"@[0]);
        },
        Atom::Str => {
            assert(atom_name(atom) == "String"@);
            assert("String"@[0] != "int128"@[0]);
            assert("String"@[0] != "uint16"@[0]);
            assert("String"@[0] != "uint32"@[0]);
            assert("String"@[0] != "uint64"@[0]);
        },
        Atom::I8 => {
            assert(atom_name(atom) == "i8"@);
            assert("i8"@[0] != "u8"@[0]);
        },
        Atom::I16 => {
            assert(atom_name(atom) == "i16"@);
            assert("i16"@[0] != "Vec"@[0]);
            assert("i16"@[1] != "i32"@[1]);
            assert("i16"@[1] != "i64"@[1]);
            assert("i16"@[0] != "u16"@[0]);
            assert("i16"@[0] != "u32"@[0]);
            assert("i16"@[0] != "u64"@[0]);
            assert("i16"@[0] != "f32"@[0]);
            assert("i16"@[0] != "f64"@[0]);
        },
        Atom::I32 => {
            assert(atom_name(atom) == "i32"@);
            assert("i32"@[0] != "Vec"@[0]);
            assert("i32"@[1] != "i16"@[1]);
            assert("i32"@[1] != "i64"@[1]);
            assert("i32"@[0] != "u16"@[0]);
            assert("i32"@[0] != "u32"@[0]);
            assert("i32"@[0] != "u64"@[0]);
            assert("i32"@[0] != "f32"@[0]);
            assert("i32"@[0] != "f64"@[0]);
        },
        Atom::I64 => {
            assert(atom_name(atom) == "i64"@);
            assert("i64"@[0] != "Vec"@[0]);
            assert("i64"@[1] != "i16"@[1]);
            assert("i64"@[1] != "i32"@[1]);
            assert("i64"@[0] != "u16"@[0]);
            assert("i64"@[0] != "u32"@[0]);
            assert("i64"@[0] != "u64"@[0]);
            assert("i64"@[0] != "f32"@[0]);
            assert("i64"@[0] != "f64"@[0]);
        },
        Atom::I128 => {
            assert(atom_name(atom) == "i128"@);
            assert("i128"@[0] != "bool"@[0]);
            assert("i128"@[1] != "int8"@[1]);
            assert("i128"@[0] != "u128"@[0]);
        },
        Atom::U8 => {
            assert(atom_name(atom) == "u8"@);
            assert("u8"@[0] != "i8"@[0]);
        },
        Atom::U16 => {
            assert(atom_name(atom) == "u16"@);
            assert("u16"@[0] != "Vec"@[0]);
            assert("u16"@[0] != "i16"@[0]);
            assert("u16"@[0] != "i32"@[0]);
            assert("u16"@[0] != "i64"@[0]);
            assert("u16"@[1] != "u32"@[1]);
            assert("u16"@[1] != "u64"@[1]);
            assert("u16"@[0] != "f32"@[0]);
            assert("u16"@[0] != "f64"@[0]);
        },
        Atom::U32 => {
            assert(atom_name(atom) == "u32"@);
            assert("u32"@[0] != "Vec"@[0]);
            assert("u32"@[0] != "i16"@[0]);
            assert("u32"@[0] != "i32"@[0]);
            assert("u32"@[0] != "i64"@[0]);
            assert("u32"@[1] != "u16"@[1]);
            assert("u32"@[1] != "u64"@[1]);
            assert("u32"@[0] != "f32"@[0]);
            assert("u32"@[0] != "f64"@[0]);
        },
        Atom::U64 => {
            assert(atom_name(atom) == "u64"@);
            assert("u64"@[0] != "Vec"@[0]);
            assert("u64"@[0] != "i16"@[0]);
            assert("u64"@[0] != "i32"@[0]);
            assert("u64"@[0] != "i64"@[0]);
            assert("u64"@[1] != "u16"@[1]);
            assert("u64"@[1] != "u32"@[1]);
            assert("u64"@[0] != "f32"@[0]);
            assert("u64"@[0] != "f64"@[0]);
        },
        Atom::U128 => {
            assert(atom_name(atom) == "u128"@);
            assert("u128"@[0] != "bool"@[0]);
            assert("u128"@[0] != "int8"@[0]);
            assert("u128"@[0] != "i128"@[0]);
        },
        Atom::F32 => {
            assert(atom_name(atom) == "f32"@);
            assert("f32"@[0] != "Vec"@[0]);
            assert("f32"@[0] != "i16"@[0]);
            assert("f32"@[0] != "i32"@[0]);
            assert("f32"@[0] != "i64"@[0]);
            assert("f32"@[0] != "u16"@[0]);
            assert("f32"@[0] != "u32"@[0]);
            assert("f32"@[0] != "u64"@[0]);
            assert("f32"@[1] != "f64"@[1]);
        },
        Atom::F64 => {
            assert(atom_name(atom) == "f64"@);
            assert("f64"@[0] != "Vec"@[0]);
            assert("f64"@[0] != "i16"@[0]);
            assert("f64"@[0] != "i32"@[0]);
            assert("f64"@[0] != "i64"@[0]);
            assert("f64"@[0] != "u16"@[0]);
            assert("f64"@[0] != "u32"@[0]);
            assert("f64"@[0] != "u64"@[0]);
            assert("f64"@[1] != "f32"@[1]);
        },
    }
}

proof fn lemma_descriptor_starts(shape: Shape)
    ensures
        descriptor(shape).len() > 0,
        descriptor(shape)[0] != ' ',
        descriptor(shape)[0] == '(' <==> shape is Tuple,
{
    reveal_strlit("Vec<");
    reveal_strlit("(");
    match shape {
        Shape::Atom(atom) => {
            lemma_atom_names(atom);
            assert(is_word_char(atom_name(atom)[0]));
        },
        Shape::Tuple(items) => {},
        Shape::Vector(item) => {},
    }
}

proof fn lemma_reads_type(s: Seq<char>, pos: int, shape: Shape)
    requires
        well_formed(shape),
        stands_at(s, pos, descriptor(shape)),
        word_stops(s, pos + descriptor(shape).len()),
    ensures
        parse_type(s, pos) == Some((shape, descriptor(shape).len())),
    decreases shape, 0nat,
{
    let d = descriptor(shape);
    lemma_descriptor_starts(shape);
    assert forall|k: int| 0 <= k < d.len() implies s[pos + k] == d[k] by {
        assert(s.subrange(pos, pos + d.len())[k] == s[pos + k]);
    }
    match shape {
        Shape::Atom(atom) => {
            lemma_atom_names(atom);
            assert forall|k: int| pos <= k < pos + d.len() implies is_word_char(#[trigger] s[k]) by {
                assert(s[pos + (k - pos)] == d[k - pos]);
            }
            lemma_word_len(s, pos, d.len());
            assert(s[pos] == d[0]);
        },
        Shape::Vector(item) => {
            reveal_strlit("Vec<");
            reveal_strlit("Vec");
            reveal_strlit(">");
            let inner = descriptor(*item);
            assert(d.len() == 4 + inner.len() + 1);
            assert(s[pos] == d[0] && s[pos + 1] == d[1] && s[pos + 2] == d[2] && s[pos + 3]
                == d[3]);
            assert(d[0] == 'V' && d[1] == 'e' && d[2] == 'c' && d[3] == '<');
            assert forall|k: int| pos <= k < pos + 3 implies is_word_char(#[trigger] s[k]) by {
                assert(k == pos || k == pos + 1 || k == pos + 2);
            }
            lemma_word_len(s, pos, 3);
            assert(s.subrange(pos, pos + 3) =~= "Vec"@);
            assert(s.subrange(pos + 4, pos + 4 + inner.len()) =~= inner) by {
                assert forall|k: int| 0 <= k < inner.len() implies s[pos + 4 + k] == inner[k] by {
                    assert(s[pos + (4 + k)] == d[4 + k]);
                }
            }
            let end: int = 4 + inner.len() as int;
            assert(s[pos + end] == d[end]);
            assert(d[end] == '>');
            lemma_reads_type(s, pos + 4, *item);
        },
        Shape::Tuple(items) => {
            reveal_strlit("(");
            reveal_strlit(")");
            let inner = joined(items, 0);
            assert(d.len() == 1 + inner.len() + 1);
            assert(s[pos] == d[0]);
            assert(s.subrange(pos + 1, pos + 1 + inner.len()) =~= inner) by {
                assert forall|k: int| 0 <= k < inner.len() implies s[pos + 1 + k] == inner[k] by {
                    assert(s[pos + (1 + k)] == d[1 + k]);
                }
            }
            let end: int = 1 + inner.len() as int;
            assert(s[pos + end] == d[end]);
            assert(d[end] == ')');
            lemma_reads_items(s, pos + 1, items, 0);
            assert(items.subrange(0, items.len() as int) =~= items);
        },
    }
}

proof fn lemma_reads_items(s: Seq<char>, pos: int, items: Seq<Shape>, from: int)
    requires
        all_well_formed(items),
        0 <= from < items.len(),
        stands_at(s, pos, joined(items, from)),
        word_stops(s, pos + joined(items, from).len()),
        pos + joined(items, from).len() < s.len() ==> s[pos + joined(items, from).len()] != ',',
    ensures
        parse_items(s, pos) == Some(
            (items.subrange(from, items.len() as int), joined(items, from).len()),
        ),
    decreases items, items.len() - from,
{
    let all = joined(items, from);
    let d = descriptor(items[from]);
    assert forall|k: int| 0 <= k < all.len() implies s[pos + k] == all[k] by {
        assert(s.subrange(pos, pos + all.len())[k] == s[pos + k]);
    }
    if from == items.len() - 1 {
        lemma_reads_type(s, pos, items[from]);
        assert(items.subrange(from, items.len() as int) =~= seq![items[from]]);
    } else {
        reveal_strlit(", ");
        let rest = joined(items, from + 1);
        lemma_descriptor_starts(items[from + 1]);
        assert(rest[0] == descriptor(items[from + 1])[0]);
        assert(all.len() == d.len() + 2 + rest.len());
        assert(s.subrange(pos, pos + d.len()) =~= d) by {
            assert forall|k: int| 0 <= k < d.len() implies s[pos + k] == d[k] by {
                assert(all[k] == d[k]);
            }
        }
        let n: int = d.len() as int;
        assert(s[pos + n] == all[n]);
        assert(all[n] == ',');
        assert(s[pos + (n + 1)] == all[n + 1]);
        assert(all[n + 1] == ' ');
        assert(s[pos + (n + 2)] == all[n + 2]);
        assert(all[n + 2] == rest[0]);
        lemma_reads_type(s, pos, items[from]);
        assert(spaces_len(s, pos + d.len() + 2) == 0);
        assert(spaces_len(s, pos + d.len() + 1) == 1);
        let next = pos + d.len() + 2;
        assert(s.subrange(next, next + rest.len()) =~= rest) by {
            assert forall|k: int| 0 <= k < rest.len() implies s[next + k] == rest[k] by {
                assert(s[pos + (d.len() + 2 + k)] == all[d.len() + 2 + k]);
            }
        }
        lemma_reads_items(s, next, items, from + 1);
        assert(items.subrange(from, items.len() as int) =~= seq![items[from]] + items.subrange(
            from + 1,
            items.len() as int,
        ));
    }
}

/// The canonical name of a type names that type, and it alone: read as a
/// selector, it gives the type back.
pub proof fn lemma_canonical_name_is_read_back(shape: Shape)
    requires
        well_formed(shape),
    ensures
        resolve_one(descriptor(shape)) == Ok::<Shape, (ErrorKind, Seq<char>)>(shape),
{
    let d = descriptor(shape);
    assert(d.subrange(0, d.len() as int) =~= d);
    lemma_reads_type(d, 0, shape);
}

/// Canonical names joined by `", "` are read back as the types they name, in
/// order, at a call site that takes as many types.
pub proof fn lemma_canonical_names_are_read_back(items: Seq<Shape>)
    requires
        items.len() > 0,
        all_well_formed(items),
    ensures
        resolve(joined(items, 0), items.len()) == Ok::<Seq<Shape>, (ErrorKind, Seq<char>)>(items),
{
    let d = joined(items, 0);
    assert(d.subrange(0, d.len() as int) =~= d);
    lemma_reads_items(d, 0, items, 0);
    assert(items.subrange(0, items.len() as int) =~= items);
}

proof fn lemma_read_type_is_well_formed(s: Seq<char>, pos: int)
    ensures
        parse_type(s, pos) matches Some(r) ==> well_formed(r.0),
    decreases s.len() - pos, 1nat,
{
    if 0 <= pos < s.len() {
        if s[pos] == '(' {
            lemma_read_items_are_well_formed(s, pos + 1);
        } else {
            let n = word_len(s, pos);
            if s.subrange(pos, pos + n) == "Vec"@ && pos + n < s.len() && s[pos + n] == '<' {
                lemma_read_type_is_well_formed(s, pos + n + 1);
            }
        }
    }
}

proof fn lemma_read_items_are_well_formed(s: Seq<char>, pos: int)
    ensures
        parse_items(s, pos) matches Some(r) ==> all_well_formed(r.0) && r.0.len() > 0,
    decreases s.len() - pos, 2nat,
{
    lemma_read_type_is_well_formed(s, pos);
    match parse_type(s, pos) {
        None => {},
        Some((first, n)) => {
            if pos + n < s.len() && s[pos + n] == ',' {
                let gap = 1 + spaces_len(s, pos + n + 1);
                if 0 <= pos && pos + n + gap <= s.len() {
                    lemma_read_items_are_well_formed(s, pos + n + gap);
                    match parse_items(s, pos + n + gap) {
                        Some((rest, m)) => {
                            assert forall|i: int| 0 <= i < (seq![first] + rest).len() implies well_formed(
                                #[trigger] (seq![first] + rest)[i],
                            ) by {
                                if i > 0 {
                                    assert((seq![first] + rest)[i] == rest[i - 1]);
                                }
                            }
                        },
                        None => {},
                    }
                }
            }
        },
    }
}

/// What a selector names is made of well-formed types, as many as the call
/// site takes.
pub proof fn lemma_named_types_are_well_formed(s: Seq<char>, count: nat)
    ensures
        resolve(s, count) matches Ok(items) ==> all_well_formed(items) && items.len() == count,
{
    lemma_read_items_are_well_formed(s, 0);
}

/// Selectors are canonicalized: whatever way a selector names a type, the
/// canonical name of that type names the same type.
pub proof fn lemma_selector_and_canonical_name_agree(s: Seq<char>)
    ensures
        resolve_one(s) matches Ok(shape) ==> resolve_one(descriptor(shape)) == resolve_one(s),
{
    lemma_named_types_are_well_formed(s, 1);
    match resolve_one(s) {
        Ok(shape) => {
            assert(resolve(s, 1)->Ok_0[0] == shape);
            lemma_canonical_name_is_read_back(shape);
        },
        Err(_) => {},
    }
}

/// Two types with the same canonical name are the same type.
pub proof fn lemma_canonical_names_differ(a: Shape, b: Shape)
    requires
        well_formed(a),
        well_formed(b),
        descriptor(a) == descriptor(b),
    ensures
        a == b,
{
    lemma_canonical_name_is_read_back(a);
    lemma_canonical_name_is_read_back(b);
}

/// The empty selector names nothing.
pub proof fn lemma_empty_selector_is_unknown(count: nat)
    ensures
        resolve(Seq::<char>::empty(), count) matches Err(e) && e.0 == ErrorKind::UnknownToken,
{
    assert(parse_type(Seq::<char>::empty(), 0) is None);
    assert(parse_items(Seq::<char>::empty(), 0) is None);
}

} // verus!
