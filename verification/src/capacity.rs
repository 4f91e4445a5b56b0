//! The capacity model shared by all containers: a limit that is either
//! `Unbounded` or a hard cap `Bounded(n)`, the admission rule that `push`
//! enforces against it, and the arithmetic by which `reserve` grows it.

use vstd::prelude::*;

verus! {

/// A container's capacity limit. `Bounded(n)` caps the length at `n`;
/// the cap grows only through `reserve` and never shrinks.
#[derive(Clone, Copy, Debug, PartialEq, Eq, Structural)]
pub enum Limit {
    Unbounded,
    Bounded(usize),
}

/// The admission rule: a push on a container of length `len` is accepted
/// exactly when the limit leaves room for one more element.
pub open spec fn admits(limit: Limit, len: nat) -> bool {
    match limit {
        Limit::Unbounded => true,
        Limit::Bounded(n) => len < n,
    }
}

/// The cap after `reserve(additional)` on a container with cap `n` and
/// length `len`: raised just enough to guarantee `additional` headroom
/// measured from `len`, and otherwise left alone.
pub open spec fn grown(n: nat, len: nat, additional: nat) -> nat {
    if n < len + additional {
        len + additional
    } else {
        n
    }
}

/// The limit after `reserve(additional)`: unchanged when unbounded,
/// otherwise the cap grows per `grown`.
pub open spec fn reserved(limit: Limit, len: nat, additional: nat) -> Limit {
    match limit {
        Limit::Unbounded => Limit::Unbounded,
        Limit::Bounded(n) => Limit::Bounded(grown(n as nat, len, additional) as usize),
    }
}

/// Capacity conservation: for a bounded container, the available headroom
/// reported by `capacity()` plus the current length equals the value
/// reported by `max_capacity()` (the hard cap).
pub proof fn lemma_capacity_conservation(n: nat, len: nat, cap: nat, max_cap: nat)
    requires
        len <= n,
        cap == n - len,
        max_cap == n,
    ensures
        cap + len == max_cap,
{
}

/// Reserve monotonicity: the hard cap after a reserve is never below the
/// cap before it, for any requested headroom.
pub proof fn lemma_reserve_monotonic(n: nat, len: nat, additional: nat)
    requires
        len <= n,
    ensures
        grown(n, len, additional) >= n,
{
}

/// Reserve minimality: when the headroom `n - len` falls short of the
/// request, the new cap leaves exactly the requested headroom; when the
/// headroom already suffices, the cap is unchanged.
pub proof fn lemma_reserve_minimality(n: nat, len: nat, additional: nat)
    requires
        len <= n,
    ensures
        n - len < additional ==> grown(n, len, additional) - len == additional,
        n - len >= additional ==> grown(n, len, additional) == n,
{
}

/// Unbounded reserve is a no-op: the limit stays `Unbounded`, under which
/// every push is admitted.
pub proof fn lemma_unbounded_reserve_noop(len: nat, additional: nat)
    ensures
        reserved(Limit::Unbounded, len, additional) == Limit::Unbounded,
        admits(Limit::Unbounded, len),
{
}

} // verus!
