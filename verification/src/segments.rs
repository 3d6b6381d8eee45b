//! The colon-splitting model shared by every parser: an input splits at its
//! first `:` into a head segment and a remainder.

use vstd::prelude::*;

verus! {

/// `i` is the position of the first `:` in `s`.
pub open spec fn is_first_colon(s: Seq<char>, i: int) -> bool {
    &&& 0 <= i < s.len()
    &&& s[i] == ':'
    &&& forall|j: int| 0 <= j < i ==> s[j] != ':'
}

/// `s` contains a `:`.
pub open spec fn has_colon(s: Seq<char>) -> bool {
    exists|i: int| is_first_colon(s, i)
}

/// The position of the first `:` in `s`; meaningful only when
/// `has_colon(s)` holds.
pub open spec fn first_colon(s: Seq<char>) -> int {
    choose|i: int| is_first_colon(s, i)
}

/// The head of `s` before its first colon; meaningful only when
/// `has_colon(s)` holds.
pub open spec fn head_of(s: Seq<char>) -> Seq<char> {
    s.subrange(0, first_colon(s))
}

/// The remainder of `s` after its first colon; meaningful only when
/// `has_colon(s)` holds.
pub open spec fn rest_of(s: Seq<char>) -> Seq<char> {
    s.subrange(first_colon(s) + 1, s.len() as int)
}

/// At most one position is the first colon.
pub proof fn lemma_first_colon_unique(s: Seq<char>, i: int, j: int)
    requires
        is_first_colon(s, i),
        is_first_colon(s, j),
    ensures
        i == j,
{
    if i < j {
        assert(s[i] != ':');
    }
    if j < i {
        assert(s[j] != ':');
    }
}

/// A position known to hold the first colon is the one `first_colon` names.
pub proof fn lemma_first_colon_is(s: Seq<char>, i: int)
    requires
        is_first_colon(s, i),
    ensures
        has_colon(s),
        first_colon(s) == i,
{
    assert(has_colon(s));
    lemma_first_colon_unique(s, i, first_colon(s));
}

/// Finds the position of the first `:` in `s`, if any.
pub(crate) fn find_colon(s: &str) -> (r: Option<usize>)
    ensures
        r matches Some(i) ==> is_first_colon(s@, i as int) && first_colon(s@) == i as int,
        r is None ==> !has_colon(s@),
{
    let n = s.unicode_len();
    let mut k: usize = 0;
    while k < n
        invariant
            n == s@.len(),
            k <= n,
            forall|j: int| 0 <= j < k ==> s@[j] != ':',
        decreases n - k,
    {
        if s.get_char(k) == ':' {
            proof {
                lemma_first_colon_is(s@, k as int);
            }
            return Some(k);
        }
        k += 1;
    }
    None
}

} // verus!
