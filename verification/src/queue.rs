//! The first-in-first-out container: pushes append at the tail, removals
//! take the head, so elements leave in insertion order.

use std::collections::VecDeque;
use vstd::prelude::*;

use crate::capacity::Limit;
use crate::prelude::BoundedTrait;
use crate::prelude::CapacityTrait;
use crate::prelude::NewTrait;
use crate::prelude::PushTrait;
use crate::prelude::UnBoundedTrait;
use crate::storage::deque_slots;

verus! {

/// A FIFO queue with admission control against an optional hard cap.
#[derive(Clone)]
pub struct Queue<T> {
    inner: VecDeque<T>,
    limit: Limit,
}

/// Where the FIFO policy places a pushed value: after every element
/// already present.
pub open spec fn fifo_placed<T>(s: Seq<T>, value: T) -> Seq<T> {
    s.push(value)
}

/// Pop/push symmetry for the FIFO policy: pushing `x` on an empty queue
/// and removing once yields `x` and an empty queue again.
pub proof fn lemma_fifo_push_pop_symmetry<T>(s: Seq<T>, x: T)
    requires
        s.len() == 0,
    ensures
        fifo_placed(s, x)[0] == x,
        fifo_placed(s, x).drop_first() == s,
{
    assert(fifo_placed(s, x).drop_first() =~= s);
}

impl<T> Queue<T> {
    /// A view of all current elements in removal order; index 0 leaves
    /// next.
    pub fn iter(&self) -> (r: &VecDeque<T>)
        ensures
            r@ == self.elems(),
    {
        &self.inner
    }

    /// Removes and returns the oldest element, or nothing when empty.
    pub fn next(&mut self) -> (r: Option<T>)
        requires
            old(self).inv(),
        ensures
            final(self).inv(),
            final(self).limit() == old(self).limit(),
            match r {
                Some(x) => old(self).elems().len() > 0 && x == old(self).elems()[0]
                    && final(self).elems() == old(self).elems().drop_first(),
                None => old(self).elems().len() == 0 && final(self).elems() == old(self).elems(),
            },
    {
        self.inner.pop_front()
    }
}

impl<T> CapacityTrait<T> for Queue<T> {
    closed spec fn elems(&self) -> Seq<T> {
        self.inner@
    }

    closed spec fn limit(&self) -> Limit {
        self.limit
    }

    closed spec fn inv(&self) -> bool {
        match self.limit {
            Limit::Unbounded => true,
            Limit::Bounded(n) => self.inner@.len() <= n,
        }
    }

    fn is_empty(&self) -> bool {
        self.inner.len() == 0
    }

    fn len(&self) -> usize {
        self.inner.len()
    }
}

impl<T> PushTrait<T> for Queue<T> {
    open spec fn placed(s: Seq<T>, value: T) -> Seq<T> {
        fifo_placed(s, value)
    }

    open spec fn placement_exact() -> bool {
        true
    }

    fn push(&mut self, value: T) {
        proof {
            broadcast use vstd::seq_lib::to_multiset_build;
        }
        match self.limit {
            Limit::Unbounded => self.inner.push_back(value),
            Limit::Bounded(n) => {
                if self.inner.len() < n {
                    self.inner.push_back(value);
                }
            },
        }
    }
}

impl<T> NewTrait<T> for Queue<T> {
    fn new() -> Self {
        Queue { inner: VecDeque::new(), limit: Limit::Unbounded }
    }
}

impl<T> UnBoundedTrait<T> for Queue<T> {
    fn reserve(&mut self, additional: usize) {
        match self.limit {
            Limit::Unbounded => {},
            Limit::Bounded(n) => {
                self.inner.reserve(additional);
                let len = self.inner.len();
                if n - len < additional {
                    self.limit = Limit::Bounded(len + additional);
                }
            },
        }
    }

    fn capacity(&self) -> usize {
        match self.limit {
            Limit::Unbounded => deque_slots(&self.inner),
            Limit::Bounded(n) => n - self.inner.len(),
        }
    }
}

impl<T> BoundedTrait<T> for Queue<T> {
    fn bounded(size: usize) -> Self {
        Queue { inner: VecDeque::with_capacity(size), limit: Limit::Bounded(size) }
    }

    fn max_capacity(&self) -> usize {
        let c = self.capacity();
        let l = self.inner.len();
        if c <= usize::MAX - l {
            c + l
        } else {
            usize::MAX
        }
    }
}

impl<T> Default for Queue<T> {
    /// An empty, unbounded queue.
    fn default() -> (r: Self)
        ensures
            r.inv(),
            r.elems() == Seq::<T>::empty(),
            r.limit() == Limit::Unbounded,
    {
        Queue { inner: VecDeque::new(), limit: Limit::Unbounded }
    }
}

} // verus!
