//! The container interface: one capacity-management contract shared by
//! every ordering policy. Each trait states its methods' behaviour over
//! two abstractions that the implementing container defines: `elems`,
//! the elements in policy order (index 0 leaves next), and `limit`, the
//! capacity limit.

use vstd::prelude::*;

use crate::capacity::Limit;
use crate::capacity::admits;
use crate::capacity::reserved;

verus! {

/// Length queries, plus the model every other trait builds on.
pub trait CapacityTrait<T>: Sized {
    /// The current elements in policy order: the element at index 0 is
    /// the one a removal yields next.
    spec fn elems(&self) -> Seq<T>;

    /// The current capacity limit.
    spec fn limit(&self) -> Limit;

    /// Well-formedness: a bounded container never holds more elements
    /// than its hard cap allows.
    spec fn inv(&self) -> bool;

    fn is_empty(&self) -> (r: bool)
        ensures
            r == (self.elems().len() == 0),
    ;

    fn len(&self) -> (r: usize)
        ensures
            r == self.elems().len(),
    ;
}

/// Push with admission control: a value is inserted exactly when the
/// limit admits one more element, and is silently dropped otherwise.
pub trait PushTrait<T>: CapacityTrait<T> {
    /// Where this container's policy places an admitted value.
    spec fn placed(s: Seq<T>, value: T) -> Seq<T>;

    /// When the position of an admitted value is pinned down by `placed`.
    /// A policy that needs nothing of the element type makes this `true`;
    /// the priority policy needs the type's comparison to obey its
    /// specification.
    spec fn placement_exact() -> bool;

    fn push(&mut self, value: T)
        requires
            old(self).inv(),
        ensures
            final(self).inv(),
            final(self).limit() == old(self).limit(),
            admits(old(self).limit(), old(self).elems().len()) ==> final(self).elems().len()
                == old(self).elems().len() + 1,
            admits(old(self).limit(), old(self).elems().len()) ==> final(self).elems().to_multiset()
                == old(self).elems().to_multiset().insert(value),
            admits(old(self).limit(), old(self).elems().len()) && Self::placement_exact()
                ==> final(self).elems() == Self::placed(old(self).elems(), value),
            !admits(old(self).limit(), old(self).elems().len()) ==> final(self).elems()
                == old(self).elems(),
    ;
}

/// Construction of an empty, unbounded container.
pub trait NewTrait<T>: CapacityTrait<T> {
    fn new() -> (r: Self)
        ensures
            r.inv(),
            r.elems() == Seq::<T>::empty(),
            r.limit() == Limit::Unbounded,
    ;
}

/// The capacity queries and `reserve`, meaningful for both modes: on an
/// unbounded container `reserve` is a deliberate no-op, and `capacity`
/// reports the storage's pre-allocated free slots (an implementation
/// artifact, promised only to be at least the current length).
pub trait UnBoundedTrait<T>: NewTrait<T> + PushTrait<T> + CapacityTrait<T> {
    fn reserve(&mut self, additional: usize)
        requires
            old(self).inv(),
            old(self).limit() is Bounded ==> old(self).elems().len() + additional <= usize::MAX,
        ensures
            final(self).inv(),
            final(self).elems() == old(self).elems(),
            final(self).limit() == reserved(
                old(self).limit(),
                old(self).elems().len(),
                additional as nat,
            ),
    ;

    fn capacity(&self) -> (r: usize)
        requires
            self.inv(),
        ensures
            self.limit() matches Limit::Bounded(n) ==> r == n - self.elems().len(),
            self.limit() is Unbounded ==> r >= self.elems().len(),
    ;
}

/// Construction with a hard cap, and the cap query.
pub trait BoundedTrait<T>: UnBoundedTrait<T> {
    fn bounded(size: usize) -> (r: Self)
        ensures
            r.inv(),
            r.elems() == Seq::<T>::empty(),
            r.limit() == Limit::Bounded(size),
    ;

    fn max_capacity(&self) -> (r: usize)
        requires
            self.inv(),
        ensures
            self.limit() matches Limit::Bounded(n) ==> r == n,
            self.limit() is Unbounded ==> r >= self.elems().len(),
    ;
}

} // verus!
