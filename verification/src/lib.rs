//! Queue, stack and priority-queue containers that share one
//! capacity-management contract: each container runs either unbounded
//! (grows freely) or bounded (a hard length cap, adjustable upward by
//! `reserve`, with pushes past the cap silently dropped).

pub mod capacity;
pub mod prelude;

pub mod priority;
pub mod queue;
pub mod stack;

mod storage;

pub use priority::PriorityQueue;
pub use queue::Queue;
pub use stack::Stack;
