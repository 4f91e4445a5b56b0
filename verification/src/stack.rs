//! The last-in-first-out container: pushes and removals both work at the
//! head, so the most recently inserted element leaves first.

use std::collections::VecDeque;
use vstd::prelude::*;

use crate::capacity::Limit;
use crate::capacity::admits;
use crate::prelude::BoundedTrait;
use crate::prelude::CapacityTrait;
use crate::prelude::NewTrait;
use crate::prelude::PushTrait;
use crate::prelude::UnBoundedTrait;
use crate::storage::deque_slots;

verus! {

/// A LIFO stack with admission control against an optional hard cap.
#[derive(Clone)]
pub struct Stack<T> {
    inner: VecDeque<T>,
    limit: Limit,
}

/// Where the LIFO policy places a pushed value: before every element
/// already present.
pub open spec fn lifo_placed<T>(s: Seq<T>, value: T) -> Seq<T> {
    s.insert(0, value)
}

/// Pop/push symmetry for the LIFO policy: pushing `x` on an empty stack
/// and removing once yields `x` and an empty stack again.
pub proof fn lemma_lifo_push_pop_symmetry<T>(s: Seq<T>, x: T)
    requires
        s.len() == 0,
    ensures
        lifo_placed(s, x)[0] == x,
        lifo_placed(s, x).drop_first() == s,
{
    assert(lifo_placed(s, x).drop_first() =~= s);
}

impl<T> Stack<T> {
    /// A view of all current elements in removal order; index 0 leaves
    /// next.
    pub fn iter(&self) -> (r: &VecDeque<T>)
        ensures
            r@ == self.elems(),
    {
        &self.inner
    }

    /// Removes and returns the most recently inserted element, or nothing
    /// when empty.
    pub fn next(&mut self) -> (r: Option<T>)
        requires
            old(self).inv(),
        ensures
            final(self).inv(),
            final(self).limit() == old(self).limit(),
            match r {
                Some(x) => old(self).elems().len() > 0 && x == old(self).elems()[0]
                    && final(self).elems() == old(self).elems().drop_first(),
                None => old(self).elems().len() == 0 && final(self).elems() == old(self).elems(),
            },
    {
        self.inner.pop_front()
    }
}

impl<T> CapacityTrait<T> for Stack<T> {
    closed spec fn elems(&self) -> Seq<T> {
        self.inner@
    }

    closed spec fn limit(&self) -> Limit {
        self.limit
    }

    closed spec fn inv(&self) -> bool {
        match self.limit {
            Limit::Unbounded => true,
            Limit::Bounded(n) => self.inner@.len() <= n,
        }
    }

    fn is_empty(&self) -> bool {
        self.inner.len() == 0
    }

    fn len(&self) -> usize {
        self.inner.len()
    }
}

impl<T> PushTrait<T> for Stack<T> {
    open spec fn placed(s: Seq<T>, value: T) -> Seq<T> {
        lifo_placed(s, value)
    }

    open spec fn placement_exact() -> bool {
        true
    }

    fn push(&mut self, value: T) {
        match self.limit {
            Limit::Unbounded => {
                self.inner.push_front(value);
            },
            Limit::Bounded(n) => {
                if self.inner.len() < n {
                    self.inner.push_front(value);
                }
            },
        }
        proof {
            if admits(old(self).limit(), old(self).elems().len()) {
                assert(self.inner@ =~= old(self).inner@.insert(0, value));
                vstd::seq_lib::to_multiset_insert(old(self).inner@, 0, value);
            }
        }
    }
}

impl<T> NewTrait<T> for Stack<T> {
    fn new() -> Self {
        Stack { inner: VecDeque::new(), limit: Limit::Unbounded }
    }
}

impl<T> UnBoundedTrait<T> for Stack<T> {
    fn reserve(&mut self, additional: usize) {
        match self.limit {
            Limit::Unbounded => {},
            Limit::Bounded(n) => {
                self.inner.reserve(additional);
                let len = self.inner.len();
                if n - len < additional {
                    self.limit = Limit::Bounded(len + additional);
                }
            },
        }
    }

    fn capacity(&self) -> usize {
        match self.limit {
            Limit::Unbounded => deque_slots(&self.inner),
            Limit::Bounded(n) => n - self.inner.len(),
        }
    }
}

impl<T> BoundedTrait<T> for Stack<T> {
    fn bounded(size: usize) -> Self {
        Stack { inner: VecDeque::with_capacity(size), limit: Limit::Bounded(size) }
    }

    fn max_capacity(&self) -> usize {
        let c = self.capacity();
        let l = self.inner.len();
        if c <= usize::MAX - l {
            c + l
        } else {
            usize::MAX
        }
    }
}

impl<T> Default for Stack<T> {
    /// An empty, unbounded stack.
    fn default() -> (r: Self)
        ensures
            r.inv(),
            r.elems() == Seq::<T>::empty(),
            r.limit() == Limit::Unbounded,
    {
        Stack { inner: VecDeque::new(), limit: Limit::Unbounded }
    }
}

} // verus!
