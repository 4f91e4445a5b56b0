use bounded_containers::PriorityQueue;
use bounded_containers::Queue;
use bounded_containers::Stack;
use bounded_containers::prelude::BoundedTrait;
use bounded_containers::prelude::CapacityTrait;
use bounded_containers::prelude::NewTrait;
use bounded_containers::prelude::PushTrait;
use bounded_containers::prelude::UnBoundedTrait;

#[test]
fn bounded_admission_saturates() {
    let mut q: Queue<i32> = Queue::bounded(3);
    for x in 0..10 {
        q.push(x);
    }
    assert_eq!(q.len(), 3);
    assert_eq!(q.capacity(), 0);
    q.push(99);
    assert_eq!(q.len(), 3);
    assert_eq!(q.capacity(), 0);
    assert_eq!(q.iter().get(0), Some(&0));
    assert_eq!(q.iter().get(1), Some(&1));
    assert_eq!(q.iter().get(2), Some(&2));
}

#[test]
fn capacity_conservation_bounded() {
    let mut q: Queue<i32> = Queue::bounded(7);
    assert_eq!(q.capacity() + q.len(), q.max_capacity());
    q.push(1);
    q.push(2);
    assert_eq!(q.capacity() + q.len(), q.max_capacity());
    let _ = q.next();
    assert_eq!(q.capacity() + q.len(), q.max_capacity());
    q.reserve(20);
    assert_eq!(q.capacity() + q.len(), q.max_capacity());
}

#[test]
fn capacity_conservation_unbounded() {
    let mut s: Stack<i32> = Stack::new();
    assert_eq!(s.capacity() + s.len(), s.max_capacity());
    s.push(1);
    s.push(2);
    s.push(3);
    assert_eq!(s.capacity() + s.len(), s.max_capacity());
    let mut p: PriorityQueue<i32> = PriorityQueue::new();
    p.push(5);
    assert_eq!(p.capacity() + p.len(), p.max_capacity());
}

#[test]
fn unbounded_capacity_covers_len() {
    let mut q: Queue<i32> = Queue::new();
    for x in 0..5 {
        q.push(x);
    }
    assert!(q.capacity() >= q.len());
    let mut p: PriorityQueue<i32> = PriorityQueue::new();
    for x in 0..5 {
        p.push(x);
    }
    assert!(p.capacity() >= p.len());
}

#[test]
fn push_pop_symmetry_fifo() {
    let mut q: Queue<i32> = Queue::new();
    q.push(42);
    assert_eq!(q.next(), Some(42));
    assert_eq!(q.len(), 0);
    let mut b: Queue<i32> = Queue::bounded(4);
    b.push(-7);
    assert_eq!(b.next(), Some(-7));
    assert_eq!(b.len(), 0);
}

#[test]
fn push_pop_symmetry_lifo() {
    let mut s: Stack<i32> = Stack::new();
    s.push(42);
    assert_eq!(s.next(), Some(42));
    assert_eq!(s.len(), 0);
    let mut b: Stack<i32> = Stack::bounded(4);
    b.push(-7);
    assert_eq!(b.next(), Some(-7));
    assert_eq!(b.len(), 0);
}

#[test]
fn reserve_monotonic() {
    let mut q: Queue<i32> = Queue::bounded(4);
    let mut last = q.max_capacity();
    q.reserve(2);
    assert!(q.max_capacity() >= last);
    last = q.max_capacity();
    q.reserve(9);
    assert!(q.max_capacity() >= last);
    last = q.max_capacity();
    q.reserve(0);
    assert!(q.max_capacity() >= last);
}

#[test]
fn reserve_minimality() {
    let mut q: Queue<i32> = Queue::bounded(5);
    q.push(1);
    q.push(2);
    // headroom 3 < 8: raised so that exactly 8 slots remain
    q.reserve(8);
    assert_eq!(q.capacity(), 8);
    assert_eq!(q.max_capacity(), 10);
    // headroom 8 >= 4: unchanged
    q.reserve(4);
    assert_eq!(q.capacity(), 8);
    assert_eq!(q.max_capacity(), 10);
    // headroom 8 >= 8: unchanged
    q.reserve(8);
    assert_eq!(q.capacity(), 8);
    assert_eq!(q.max_capacity(), 10);
}

#[test]
fn unbounded_reserve_noop() {
    let mut q: Queue<i32> = Queue::new();
    q.push(1);
    q.reserve(3);
    assert_eq!(q.len(), 1);
    // admission stays unconditional well past any requested headroom
    for x in 0..50 {
        q.push(x);
    }
    assert_eq!(q.len(), 51);
    assert!(q.capacity() >= q.len());
}

#[test]
fn priority_pops_descend() {
    let mut p: PriorityQueue<u64> = PriorityQueue::new();
    for x in [4u64, 9, 1, 7, 0, 8, 3, 6, 2, 5] {
        p.push(x);
    }
    assert_eq!(p.len(), 10);
    let mut last = p.next().unwrap();
    assert_eq!(last, 9);
    while let Some(x) = p.next() {
        assert!(x <= last);
        last = x;
    }
    assert_eq!(last, 0);
    assert!(p.is_empty());
}

#[test]
fn priority_bounded_admission_keeps_order() {
    let mut p: PriorityQueue<i32> = PriorityQueue::bounded(3);
    p.push(2);
    p.push(5);
    p.push(1);
    p.push(9);
    assert_eq!(p.len(), 3);
    assert_eq!(p.next(), Some(5));
    assert_eq!(p.next(), Some(2));
    assert_eq!(p.next(), Some(1));
    assert_eq!(p.next(), None);
}

#[test]
fn bounded_zero_admits_nothing() {
    let mut q: Queue<i32> = Queue::bounded(0);
    assert!(q.is_empty());
    assert_eq!(q.capacity(), 0);
    assert_eq!(q.max_capacity(), 0);
    q.push(1);
    assert!(q.is_empty());
    assert_eq!(q.next(), None);
}

#[test]
fn pop_empty_is_none_until_push() {
    let mut s: Stack<i32> = Stack::new();
    assert_eq!(s.next(), None);
    assert_eq!(s.next(), None);
    s.push(3);
    assert_eq!(s.next(), Some(3));
    assert_eq!(s.next(), None);
}

#[test]
fn iter_is_restartable_and_non_consuming() {
    let mut q: Queue<i32> = Queue::new();
    q.push(10);
    q.push(20);
    let first: Vec<i32> = q.iter().iter().copied().collect();
    let second: Vec<i32> = q.iter().iter().copied().collect();
    assert_eq!(first, vec![10, 20]);
    assert_eq!(second, vec![10, 20]);
    assert_eq!(q.len(), 2);
}
