//! Conversion of path strings into the form the native layer accepts.
//!
//! The native library takes paths as null-terminated C strings, so a path
//! whose bytes contain an embedded null byte cannot be handed to it at all.
//! That check is the only piece of path handling this design owns; it must
//! run, and reject, before any native call is made.

use vstd::prelude::*;

verus! {

/// True when the byte sequence contains an embedded null byte, i.e. when it
/// cannot be represented as a native (null-terminated) string.
pub open spec fn has_null_byte(s: Seq<u8>) -> bool {
    exists|i: int| 0 <= i < s.len() && s[i] == 0u8
}

/// Decides whether a path's bytes can be handed to the native layer:
/// returns true exactly when the bytes are free of embedded null bytes.
pub fn path_is_representable(path: &Vec<u8>) -> (r: bool)
    ensures
        r <==> !has_null_byte(path@),
{
    let mut i: usize = 0;
    while i < path.len()
        invariant
            0 <= i <= path@.len(),
            forall|j: int| 0 <= j < i ==> path@[j] != 0u8,
        decreases path@.len() - i,
    {
        if path[i] == 0u8 {
            return false;
        }
        i = i + 1;
    }
    true
}

} // verus!
