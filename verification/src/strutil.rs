//! Verified character-level helpers on string slices: equality and prefix
//! tests, stated over the `Seq<char>` view.

use vstd::prelude::*;

verus! {

/// `prefix` is a prefix of `s`.
pub open spec fn spec_starts_with(s: Seq<char>, prefix: Seq<char>) -> bool {
    s.len() >= prefix.len() && s.subrange(0, prefix.len() as int) == prefix
}

/// Character-by-character string equality.
pub fn str_eq(a: &str, b: &str) -> (r: bool)
    ensures
        r == (a@ == b@),
{
    let a_len = a.unicode_len();
    let b_len = b.unicode_len();
    if a_len != b_len {
        assert(a@ != b@);
        return false;
    }
    let mut i: usize = 0;
    while i < a_len
        invariant
            i <= a_len,
            a_len == a@.len(),
            a_len == b@.len(),
            forall|j: int| 0 <= j < i ==> a@[j] == b@[j],
        decreases a_len - i,
    {
        if a.get_char(i) != b.get_char(i) {
            assert(a@ != b@);
            return false;
        }
        i = i + 1;
    }
    assert(a@ =~= b@);
    true
}

/// Character-by-character prefix test.
pub fn str_starts_with(s: &str, prefix: &str) -> (r: bool)
    ensures
        r == spec_starts_with(s@, prefix@),
{
    let s_len = s.unicode_len();
    let p_len = prefix.unicode_len();
    if p_len > s_len {
        return false;
    }
    let mut i: usize = 0;
    while i < p_len
        invariant
            i <= p_len,
            p_len <= s_len,
            s_len == s@.len(),
            p_len == prefix@.len(),
            forall|j: int| 0 <= j < i ==> s@[j] == prefix@[j],
        decreases p_len - i,
    {
        if s.get_char(i) != prefix.get_char(i) {
            assert(s@.subrange(0, prefix@.len() as int)[i as int] != prefix@[i as int]);
            return false;
        }
        i = i + 1;
    }
    assert(s@.subrange(0, prefix@.len() as int) =~= prefix@);
    true
}

} // verus!
