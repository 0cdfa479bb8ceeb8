//! Small conversions for values that come from a caller without a boolean
//! type of its own.

use vstd::prelude::*;

verus! {

/// A boolean as a foreign caller passes it: zero for false, anything else
/// for true.
#[allow(non_camel_case_types)]
pub type c_bool = u8;

/// Reads a foreign boolean.
pub fn to_bool(b: c_bool) -> (r: bool)
    ensures
        r == (b != 0),
{
    b != 0
}

/// Writes a boolean for a foreign caller: 1 for true, 0 for false.
pub fn from_bool(b: bool) -> (r: c_bool)
    ensures
        r == (if b { 1u8 } else { 0u8 }),
{
    if b {
        1
    } else {
        0
    }
}

} // verus!
