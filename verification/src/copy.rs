//! Element-wise copies of lists whose element clones are exact.
use vstd::prelude::*;

verus! {

/// Every clone of a `T` equals the value it was cloned from.
pub open spec fn exact_clone<T: Clone>() -> bool {
    forall|a: T, b: T| #[trigger] call_ensures(T::clone, (&a,), b) ==> a == b
}

/// A copy of a slice.
pub fn copy_all<T: Clone>(s: &[T]) -> (r: Vec<T>)
    requires
        exact_clone::<T>(),
    ensures
        r@ == s@,
{
    let mut out: Vec<T> = Vec::new();
    let n = s.len();
    let mut i: usize = 0;
    while i < n
        invariant
            n == s@.len(),
            i <= n,
            exact_clone::<T>(),
            out@ == s@.subrange(0, i as int),
        decreases n - i,
    {
        let c = s[i].clone();
        out.push(c);
        assert(out@ =~= s@.subrange(0, i + 1));
        i = i + 1;
    }
    assert(s@.subrange(0, n as int) =~= s@);
    out
}

} // verus!
