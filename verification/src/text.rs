//! Outbound text validation.
//!
//! Every string handed to the native SDK crosses the boundary as a
//! null-terminated C string, so it must not contain an interior null
//! character.  This module holds that condition as a spec function and
//! the executable scan that decides it.

use vstd::prelude::*;
use vstd::string::StrSliceExecFns;

verus! {

/// True when `s` holds a null character, which makes it impossible to
/// pass as a null-terminated C string.
pub open spec fn has_interior_nul(s: Seq<char>) -> bool {
    exists|i: int| 0 <= i < s.len() && s[i] == '\0'
}

/// Decides whether `s` contains a null character anywhere.
pub fn contains_nul(s: &str) -> (b: bool)
    ensures
        b == has_interior_nul(s@),
{
    let len: usize = s.unicode_len();
    let mut i: usize = 0;
    while i < len
        invariant
            len == s@.len(),
            i <= len,
            forall|j: int| 0 <= j < i ==> s@[j] != '\0',
        decreases len - i,
    {
        if s.get_char(i) == '\0' {
            assert(s@[i as int] == '\0');
            return true;
        }
        i += 1;
    }
    false
}

} // verus!
