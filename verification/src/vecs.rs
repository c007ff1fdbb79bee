//! Small verified helpers on vectors.

use vstd::prelude::*;

verus! {

/// `v` in reverse order.
pub fn reversed<T>(v: Vec<T>) -> (r: Vec<T>)
    ensures
        r@ == v@.reverse(),
{
    let ghost all = v@;
    let n = v.len();
    let mut v = v;
    let mut out: Vec<T> = Vec::new();
    let mut k: usize = 0;
    while k < n
        invariant
            k <= n,
            all.len() == n,
            v@.len() == n - k,
            out@.len() == k,
            forall|j: int| 0 <= j < v@.len() ==> v@[j] == all[j],
            forall|j: int| 0 <= j < k ==> out@[j] == all[n - 1 - j],
        decreases n - k,
    {
        let x = v.pop().unwrap();
        out.push(x);
        k = k + 1;
    }
    assert(out@ =~= all.reverse());
    out
}

} // verus!
