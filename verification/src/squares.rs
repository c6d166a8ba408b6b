use vstd::prelude::*;

verus! {

/// Raises every element of the slice to the power of two, in place.
///
/// Every square must fit in an `i32`; inputs of larger magnitude are left
/// out, since squaring them would overflow.
pub fn squared(slice: &mut [i32])
    requires
        forall|i: int|
            0 <= i < old(slice)@.len() ==> old(slice)@[i] * old(slice)@[i] <= i32::MAX,
    ensures
        final(slice)@.len() == old(slice)@.len(),
        forall|i: int|
            0 <= i < old(slice)@.len() ==> final(slice)@[i] == old(slice)@[i] * old(slice)@[i],
{
    let n = slice.len();
    let mut i: usize = 0;
    while i < n
        invariant
            i <= n,
            n == slice@.len(),
            forall|j: int| 0 <= j < i ==> slice@[j] == old(slice)@[j] * old(slice)@[j],
            forall|j: int| i <= j < n ==> slice@[j] == old(slice)@[j],
            forall|j: int|
                0 <= j < n ==> old(slice)@[j] * old(slice)@[j] <= i32::MAX,
        decreases n - i,
    {
        let value = slice[i];
        proof {
            assert(value * value >= 0) by (nonlinear_arith);
        }
        slice[i] = value * value;
        i = i + 1;
    }
}

} // verus!
