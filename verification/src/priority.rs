//! The priority-ordered container: removal always yields a maximal
//! element per the type's total order. The storage keeps the elements in
//! non-increasing rank order, with an element of equal rank placed after
//! those already present, so ties leave in insertion order.

use std::cmp::Ordering;
use vstd::prelude::*;
use vstd::std_specs::cmp::OrdSpec;

use crate::capacity::Limit;
use crate::prelude::BoundedTrait;
use crate::prelude::CapacityTrait;
use crate::prelude::NewTrait;
use crate::prelude::PushTrait;
use crate::prelude::UnBoundedTrait;
use crate::storage::vec_slots;

verus! {

/// A priority queue with admission control against an optional hard cap.
/// `T`'s `Ord` supplies the ranking.
#[derive(Clone)]
pub struct PriorityQueue<T: Ord> {
    inner: Vec<T>,
    limit: Limit,
}

/// `a` ranks at least as high as `b` under the type's comparison.
pub open spec fn ge_spec<T: Ord>(a: T, b: T) -> bool {
    a.cmp_spec(&b) != Ordering::Less
}

/// What the ranking must satisfy for the ordering guarantees to hold:
/// the type's comparison obeys its specification and is a total
/// preorder (total and transitive; ties between distinct values are
/// allowed).
pub open spec fn order_laws<T: Ord>() -> bool {
    &&& T::obeys_cmp_spec()
    &&& forall|a: T, b: T| #[trigger] ge_spec(a, b) || #[trigger] ge_spec(b, a)
    &&& forall|a: T, b: T, c: T|
        #[trigger] ge_spec(a, b) && #[trigger] ge_spec(b, c) ==> ge_spec(a, c)
}

/// The elements stand in non-increasing rank order.
pub open spec fn sorted_desc<T: Ord>(s: Seq<T>) -> bool {
    forall|i: int, j: int| 0 <= i <= j < s.len() ==> ge_spec(#[trigger] s[i], #[trigger] s[j])
}

/// The index where the priority policy places `value`: after every
/// element that ranks at least as high, before the first that ranks
/// strictly lower.
pub open spec fn prio_insert_pos<T: Ord>(s: Seq<T>, value: T) -> int
    decreases s.len(),
{
    if s.len() == 0 {
        0
    } else if ge_spec(s[0], value) {
        1 + prio_insert_pos(s.drop_first(), value)
    } else {
        0
    }
}

/// Where the priority policy places a pushed value.
pub open spec fn prio_placed<T: Ord>(s: Seq<T>, value: T) -> Seq<T> {
    s.insert(prio_insert_pos(s, value), value)
}

/// An index below which every element ranks at least `value` and at
/// which (if in range) the element ranks strictly lower is exactly the
/// policy's insertion position.
proof fn lemma_insert_pos_characterization<T: Ord>(s: Seq<T>, value: T, i: int)
    requires
        0 <= i <= s.len(),
        forall|k: int| 0 <= k < i ==> ge_spec(#[trigger] s[k], value),
        i < s.len() ==> !ge_spec(s[i], value),
    ensures
        prio_insert_pos(s, value) == i,
    decreases s.len(),
{
    if s.len() == 0 {
    } else if ge_spec(s[0], value) {
        let d = s.drop_first();
        assert forall|k: int| 0 <= k < i - 1 implies ge_spec(#[trigger] d[k], value) by {
            assert(d[k] == s[k + 1]);
            assert(ge_spec(s[k + 1], value));
        }
        if i - 1 < d.len() {
            assert(d[i - 1] == s[i]);
        }
        lemma_insert_pos_characterization(d, value, i - 1);
    } else {
        if i > 0 {
            assert(ge_spec(s[0], value));
        }
    }
}

/// Priority ordering: under a lawful comparison, the elements of a
/// well-formed priority container stand in non-increasing rank order, so
/// successive removals yield ranks that never increase.
pub proof fn lemma_priority_ordering<T: Ord>(q: PriorityQueue<T>, i: int, j: int)
    requires
        order_laws::<T>(),
        q.inv(),
        0 <= i <= j < q.elems().len(),
    ensures
        ge_spec(q.elems()[i], q.elems()[j]),
{
}

/// Relies on the type's `Ord::cmp` through vstd's specification of it:
/// whenever the comparison obeys that specification, the result mirrors
/// `cmp_spec`.
fn ge_exec<T: Ord>(a: &T, b: &T) -> (r: bool)
    ensures
        T::obeys_cmp_spec() ==> r == ge_spec(*a, *b),
{
    match a.cmp(b) {
        Ordering::Less => false,
        _ => true,
    }
}

impl<T: Ord> PriorityQueue<T> {
    /// A view of all current elements in removal order; index 0 leaves
    /// next.
    pub fn iter(&self) -> (r: &Vec<T>)
        ensures
            r@ == self.elems(),
    {
        &self.inner
    }

    /// Removes and returns a maximal element, or nothing when empty.
    /// Elements of equal rank leave in insertion order.
    pub fn next(&mut self) -> (r: Option<T>)
        requires
            old(self).inv(),
        ensures
            final(self).inv(),
            final(self).limit() == old(self).limit(),
            match r {
                Some(x) => old(self).elems().len() > 0 && x == old(self).elems()[0]
                    && final(self).elems() == old(self).elems().drop_first(),
                None => old(self).elems().len() == 0 && final(self).elems() == old(self).elems(),
            },
            order_laws::<T>() ==> match r {
                Some(x) => forall|k: int|
                    0 <= k < old(self).elems().len() ==> ge_spec(x, #[trigger] old(self).elems()[k]),
                None => true,
            },
    {
        if self.inner.len() == 0 {
            None
        } else {
            let x = self.inner.remove(0);
            proof {
                assert(self.inner@ =~= old(self).inner@.drop_first());
            }
            Some(x)
        }
    }

    /// Inserts `value` at the policy's position, keeping the elements in
    /// non-increasing rank order whenever the comparison is lawful.
    fn insert_sorted(&mut self, value: T)
        requires
            old(self).inv(),
        ensures
            final(self).limit == old(self).limit,
            final(self).inner@.len() == old(self).inner@.len() + 1,
            final(self).inner@.to_multiset() == old(self).inner@.to_multiset().insert(value),
            T::obeys_cmp_spec() ==> final(self).inner@ == prio_placed(old(self).inner@, value),
            order_laws::<T>() ==> sorted_desc(final(self).inner@),
    {
        let mut i: usize = 0;
        loop
            invariant_except_break
                i <= self.inner@.len(),
                self.inner@ == old(self).inner@,
                self.limit == old(self).limit,
                T::obeys_cmp_spec() ==> forall|k: int|
                    0 <= k < i ==> ge_spec(#[trigger] self.inner@[k], value),
            ensures
                i <= self.inner@.len(),
                self.inner@ == old(self).inner@,
                self.limit == old(self).limit,
                T::obeys_cmp_spec() ==> forall|k: int|
                    0 <= k < i ==> ge_spec(#[trigger] self.inner@[k], value),
                T::obeys_cmp_spec() ==> (i == self.inner@.len() || !ge_spec(
                    self.inner@[i as int],
                    value,
                )),
            decreases self.inner@.len() - i,
        {
            if i == self.inner.len() {
                break;
            }
            if !ge_exec(&self.inner[i], &value) {
                break;
            }
            i += 1;
        }
        let ghost o = self.inner@;
        let ghost pos = i as int;
        proof {
            if T::obeys_cmp_spec() {
                lemma_insert_pos_characterization(o, value, pos);
            }
        }
        self.inner.insert(i, value);
        proof {
            vstd::seq_lib::to_multiset_insert(o, pos, value);
            if order_laws::<T>() {
                o.insert_ensures(pos, value);
                let s = self.inner@;
                assert forall|a: int, b: int| 0 <= a <= b < s.len() implies ge_spec(
                    s[a],
                    s[b],
                ) by {
                    assert(ge_spec(value, value) || ge_spec(value, value));
                    if pos < o.len() {
                        assert(!ge_spec(o[pos], value));
                        assert(ge_spec(value, o[pos]));
                    }
                    if a < pos {
                        assert(s[a] == o[a]);
                        if b < pos {
                            assert(ge_spec(o[a], o[b]));
                        } else if b == pos {
                            assert(ge_spec(o[a], value));
                        } else {
                            assert(s[b] == o[b - 1]);
                            assert(ge_spec(o[a], o[b - 1]));
                        }
                    } else if a == pos {
                        if b == pos {
                        } else {
                            assert(s[b] == o[b - 1]);
                            assert(ge_spec(o[pos], o[b - 1]));
                        }
                    } else {
                        assert(s[a] == o[a - 1]);
                        assert(s[b] == o[b - 1]);
                        assert(ge_spec(o[a - 1], o[b - 1]));
                    }
                }
            }
        }
    }
}

impl<T: Ord> CapacityTrait<T> for PriorityQueue<T> {
    closed spec fn elems(&self) -> Seq<T> {
        self.inner@
    }

    closed spec fn limit(&self) -> Limit {
        self.limit
    }

    closed spec fn inv(&self) -> bool {
        &&& match self.limit {
            Limit::Unbounded => true,
            Limit::Bounded(n) => self.inner@.len() <= n,
        }
        &&& (order_laws::<T>() ==> sorted_desc(self.inner@))
    }

    fn is_empty(&self) -> bool {
        self.inner.len() == 0
    }

    fn len(&self) -> usize {
        self.inner.len()
    }
}

impl<T: Ord> PushTrait<T> for PriorityQueue<T> {
    open spec fn placed(s: Seq<T>, value: T) -> Seq<T> {
        prio_placed(s, value)
    }

    open spec fn placement_exact() -> bool {
        T::obeys_cmp_spec()
    }

    fn push(&mut self, value: T) {
        match self.limit {
            Limit::Unbounded => self.insert_sorted(value),
            Limit::Bounded(n) => {
                if self.inner.len() < n {
                    self.insert_sorted(value);
                }
            },
        }
    }
}

impl<T: Ord> NewTrait<T> for PriorityQueue<T> {
    fn new() -> Self {
        PriorityQueue { inner: Vec::new(), limit: Limit::Unbounded }
    }
}

impl<T: Ord> UnBoundedTrait<T> for PriorityQueue<T> {
    fn reserve(&mut self, additional: usize) {
        match self.limit {
            Limit::Unbounded => {},
            Limit::Bounded(n) => {
                self.inner.reserve(additional);
                let len = self.inner.len();
                if n - len < additional {
                    self.limit = Limit::Bounded(len + additional);
                }
            },
        }
    }

    fn capacity(&self) -> usize {
        match self.limit {
            Limit::Unbounded => vec_slots(&self.inner),
            Limit::Bounded(n) => n - self.inner.len(),
        }
    }
}

impl<T: Ord> BoundedTrait<T> for PriorityQueue<T> {
    fn bounded(size: usize) -> Self {
        PriorityQueue { inner: Vec::with_capacity(size), limit: Limit::Bounded(size) }
    }

    fn max_capacity(&self) -> usize {
        let c = self.capacity();
        let l = self.inner.len();
        if c <= usize::MAX - l {
            c + l
        } else {
            usize::MAX
        }
    }
}

impl<T: Ord> Default for PriorityQueue<T> {
    /// An empty, unbounded priority queue.
    fn default() -> (r: Self)
        ensures
            r.inv(),
            r.elems() == Seq::<T>::empty(),
            r.limit() == Limit::Unbounded,
    {
        PriorityQueue { inner: Vec::new(), limit: Limit::Unbounded }
    }
}

} // verus!
