//! Validation of string arguments that must cross the C string boundary.
//!
//! A string handed to the native layer travels as a NUL-terminated byte
//! sequence, so a string containing an embedded NUL character cannot be
//! marshalled: the scan here detects that condition before any native
//! call is made.

use vstd::prelude::*;

verus! {

/// The string contains an embedded NUL character somewhere.
pub open spec fn has_nul(s: Seq<char>) -> bool {
    exists|i: int| 0 <= i < s.len() && s[i] == '\0'
}

/// `i` is the index of the first embedded NUL character of `s`.
pub open spec fn is_first_nul(s: Seq<char>, i: int) -> bool {
    &&& 0 <= i < s.len()
    &&& s[i] == '\0'
    &&& forall|j: int| 0 <= j < i ==> s[j] != '\0'
}

/// The index of the first embedded NUL character of `s` (meaningful only
/// when `has_nul(s)` holds).
pub open spec fn first_nul(s: Seq<char>) -> int {
    choose|i: int| is_first_nul(s, i)
}

/// A string with an embedded NUL has exactly one first NUL index, and
/// `first_nul` picks it.
pub proof fn lemma_first_nul(s: Seq<char>)
    requires
        has_nul(s),
    ensures
        is_first_nul(s, first_nul(s)),
        forall|i: int| is_first_nul(s, i) ==> i == first_nul(s),
{
    let k = choose|i: int| 0 <= i < s.len() && s[i] == '\0';
    lemma_some_first_nul(s, k);
    let f = first_nul(s);
    assert forall|i: int| is_first_nul(s, i) implies i == f by {
        if i < f {
            assert(s[i] != '\0');
        }
        if f < i {
            assert(s[f] != '\0');
        }
    }
}

/// Below any index holding a NUL there is a first one.
proof fn lemma_some_first_nul(s: Seq<char>, k: int)
    requires
        0 <= k < s.len(),
        s[k] == '\0',
    ensures
        exists|i: int| is_first_nul(s, i),
    decreases k,
{
    if forall|j: int| 0 <= j < k ==> s[j] != '\0' {
        assert(is_first_nul(s, k));
    } else {
        let j = choose|j: int| 0 <= j < k && s[j] == '\0';
        lemma_some_first_nul(s, j);
    }
}

/// Scans `s` for an embedded NUL character, returning the index of the
/// first one, or `None` when the string is safe to marshal.
pub fn find_interior_nul(s: &str) -> (r: Option<usize>)
    ensures
        match r {
            Some(i) => is_first_nul(s@, i as int) && i == first_nul(s@),
            None => !has_nul(s@),
        },
{
    let n = s.unicode_len();
    let mut i: usize = 0;
    while i < n
        invariant
            n == s@.len(),
            0 <= i <= n,
            forall|j: int| 0 <= j < i ==> s@[j] != '\0',
        decreases n - i,
    {
        if s.get_char(i) == '\0' {
            proof {
                lemma_first_nul(s@);
            }
            return Some(i);
        }
        i = i + 1;
    }
    None
}

} // verus!
