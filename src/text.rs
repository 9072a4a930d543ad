use vstd::prelude::*;

verus! {

/// Character-by-character comparison of a string with another.
pub fn text_equals(s: &str, other: &str) -> (r: bool)
    ensures
        r == (s@ == other@),
{
    let n = s.unicode_len();
    let m = other.unicode_len();
    if n != m {
        return false;
    }
    let mut i: usize = 0;
    while i < n
        invariant
            n == s@.len(),
            m == other@.len(),
            n == m,
            i <= n,
            forall|j: int| 0 <= j < i ==> s@[j] == other@[j],
        decreases n - i,
    {
        if s.get_char(i) != other.get_char(i) {
            return false;
        }
        i = i + 1;
    }
    assert(s@ =~= other@);
    true
}

} // verus!
