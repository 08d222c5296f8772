//! The two `Vec` capacity operations that the registries use to give
//! memory back; vstd leaves them without a specification.

use vstd::prelude::*;

verus! {

/// `Vec::capacity`: the number of elements the vector can hold without
/// reallocating, which is never below its length.
#[verifier::external_body]
pub(crate) fn vec_capacity<T>(v: &Vec<T>) -> (r: usize)
    ensures
        r >= v@.len(),
{
    v.capacity()
}

/// `Vec::shrink_to_fit`: releases spare capacity; the elements stay.
#[verifier::external_body]
pub(crate) fn vec_shrink_to_fit<T>(v: &mut Vec<T>)
    ensures
        final(v)@ == old(v)@,
{
    v.shrink_to_fit()
}

} // verus!
