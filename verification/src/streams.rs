//! Round-robin dispatch over a fixed set of streams.

use vstd::prelude::*;
use crate::launch::Priority;
use crate::observe::wrap_add;

verus! {

/// Priority of stream `i` of an interleaved pool: even streams low, odd
/// streams high.
pub open spec fn interleaved_priority(i: int) -> Priority {
    if i % 2 == 0 { Priority::Low } else { Priority::High }
}

/// Priorities of the `n` streams of an interleaved pool.
pub fn interleaved_priorities(n: usize) -> (r: Vec<Priority>)
    ensures
        r@.len() == n,
        forall|i: int| 0 <= i < n ==> #[trigger] r@[i] == interleaved_priority(i),
{
    let mut r: Vec<Priority> = Vec::new();
    let mut i: usize = 0;
    while i < n
        invariant
            i <= n,
            r@.len() == i,
            forall|j: int| 0 <= j < i ==> #[trigger] r@[j] == interleaved_priority(j),
        decreases n - i,
    {
        r.push(if i % 2 == 0 { Priority::Low } else { Priority::High });
        i = i + 1;
    }
    r
}

/// A fixed, non-empty set of streams handed out in turn.
#[derive(Debug)]
pub struct StreamPool<S> {
    streams: Vec<S>,
    cursor: usize,
}

impl<S> StreamPool<S> {
    pub closed spec fn spec_streams(&self) -> Seq<S> {
        self.streams@
    }

    pub closed spec fn spec_cursor(&self) -> usize {
        self.cursor
    }

    /// A pool over `streams`, the first handed out first.
    pub fn new(streams: Vec<S>) -> (p: Self)
        requires
            streams@.len() > 0,
        ensures
            p.spec_streams() == streams@,
            p.spec_cursor() == 0,
    {
        StreamPool { streams, cursor: 0 }
    }

    pub fn len(&self) -> (n: usize)
        ensures
            n == self.spec_streams().len(),
    {
        self.streams.len()
    }

    pub fn is_empty(&self) -> (b: bool)
        ensures
            b == (self.spec_streams().len() == 0),
    {
        self.streams.len() == 0
    }

    /// Stream `idx`, wrapping around the pool.
    pub fn get(&self, idx: usize) -> (s: &S)
        requires
            self.spec_streams().len() > 0,
        ensures
            *s == self.spec_streams()[(idx as int) % (self.spec_streams().len() as int)],
    {
        &self.streams[idx % self.streams.len()]
    }

    /// The next stream in turn; the turn counter wraps at `usize::MAX`.
    pub fn next(&mut self) -> (s: &S)
        requires
            old(self).spec_streams().len() > 0,
        ensures
            final(self).spec_streams() == old(self).spec_streams(),
            final(self).spec_cursor() == wrap_usize(old(self).spec_cursor()),
            *s == old(self).spec_streams()[(old(self).spec_cursor() as int) % (old(self).spec_streams().len() as int)],
    {
        let i = self.cursor;
        self.cursor = if i == usize::MAX { 0 } else { i + 1 };
        &self.streams[i % self.streams.len()]
    }

    /// Every stream, in pool order.
    pub fn streams(&self) -> (r: &Vec<S>)
        ensures
            r@ == self.spec_streams(),
    {
        &self.streams
    }
}

/// `c + 1` modulo `usize::MAX + 1`.
pub open spec fn wrap_usize(c: usize) -> usize {
    if c == usize::MAX { 0 } else { (c + 1) as usize }
}

/// Round robin: starting from turn `c`, the `k`-th call of `next` (counting
/// from zero) hands out stream `(c + k) % n`, as long as the turn counter
/// does not wrap, so every stream is used once in any `n` consecutive calls.
pub proof fn lemma_round_robin(c: usize, k: nat, n: nat)
    requires
        n > 0,
        c + k <= usize::MAX,
    ensures
        turns(c, k) == c + k,
        (turns(c, k) as int) % (n as int) == (c as int + k as int) % (n as int),
    decreases k,
{
    if k > 0 {
        lemma_round_robin(c, (k - 1) as nat, n);
    }
}

/// The turn counter after `k` calls of `next` from `c`.
pub open spec fn turns(c: usize, k: nat) -> usize
    decreases k,
{
    if k == 0 { c } else { wrap_usize(turns(c, (k - 1) as nat)) }
}

} // verus!
