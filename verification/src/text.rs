//! Comparing texts and bytes.

use vstd::prelude::*;

verus! {

/// Whether two strings hold the same text.
pub(crate) fn same_text(left: &str, right: &str) -> (same: bool)
    ensures
        same == (left@ == right@),
{
    let left = String::from_str(left);
    let right = String::from_str(right);
    left == right
}

/// Whether two runs of bytes are the same.
pub(crate) fn same_bytes(left: &[u8], right: &[u8]) -> (same: bool)
    ensures
        same == (left@ == right@),
{
    if left.len() != right.len() {
        return false;
    }
    let mut n: usize = 0;
    while n < left.len()
        invariant
            0 <= n <= left.len(),
            left.len() == right.len(),
            left@.take(n as int) == right@.take(n as int),
        decreases left.len() - n,
    {
        if left[n] != right[n] {
            return false;
        }
        assert(left@.take(n + 1) =~= left@.take(n as int).push(left@[n as int]));
        assert(right@.take(n + 1) =~= right@.take(n as int).push(right@[n as int]));
        n = n + 1;
    }
    assert(left@.take(n as int) =~= left@);
    assert(right@.take(n as int) =~= right@);
    true
}

} // verus!
