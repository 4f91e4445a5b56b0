//! Queries on the underlying storage that vstd gives no specification
//! for: the pre-allocated slot counts the unbounded containers report.

use std::collections::VecDeque;
use vstd::prelude::*;

verus! {

/// Relies on std's VecDeque::capacity: the number of elements the deque
/// can hold without reallocating, which is at least its current length.
#[verifier::external_body]
pub(crate) fn deque_slots<T>(v: &VecDeque<T>) -> (r: usize)
    ensures
        r >= v@.len(),
{
    v.capacity()
}

/// Relies on std's Vec::capacity: the number of elements the vector can
/// hold without reallocating, which is at least its current length.
#[verifier::external_body]
pub(crate) fn vec_slots<T>(v: &Vec<T>) -> (r: usize)
    ensures
        r >= v@.len(),
{
    v.capacity()
}

} // verus!
