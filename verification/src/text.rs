//! Small text helpers shared across the crate.

use vstd::prelude::*;

verus! {

/// Whether two strings hold the same characters.
pub fn str_equal(a: &str, b: &str) -> (r: bool)
    ensures
        r == (a@ == b@),
{
    let al = a.unicode_len();
    let bl = b.unicode_len();
    if al != bl {
        return false;
    }
    let mut i: usize = 0;
    while i < al
        invariant
            i <= al,
            al == a@.len(),
            al == b@.len(),
            forall|j: int| 0 <= j < i ==> a@[j] == b@[j],
        decreases al - i,
    {
        if a.get_char(i) != b.get_char(i) {
            return false;
        }
        i = i + 1;
    }
    proof {
        assert(a@ =~= b@);
    }
    true
}

} // verus!
