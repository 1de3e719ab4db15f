//! Copying a list of plain values.

use vstd::prelude::*;

verus! {

/// A copy of `v`.
pub fn copy_of<T: Copy>(v: &Vec<T>) -> (copy: Vec<T>)
    ensures
        copy@ == v@,
{
    let n: usize = v.len();
    let mut copy: Vec<T> = Vec::new();
    let mut i: usize = 0;
    while i < n
        invariant
            i <= n,
            n == v@.len(),
            copy@ == v@.subrange(0, i as int),
        decreases n - i,
    {
        copy.push(v[i]);
        i += 1;
        assert(copy@ =~= v@.subrange(0, i as int));
    }
    assert(copy@ =~= v@);
    copy
}

} // verus!
