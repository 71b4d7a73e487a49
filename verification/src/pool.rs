//! Per-stream small-buffer pool: size classes and the recycle bookkeeping.
//!
//! Requests are rounded up to a power-of-two size class between 1 KiB and
//! 256 MiB. A class holds at most `max_per_bucket` cached device pointers;
//! requests above the largest class bypass the pool.

use vstd::prelude::*;
use crate::error::{Error, Result};
use vstd::arithmetic::power2::{pow2, lemma_pow2_unfold, lemma2_to64, lemma_pow2_pos,
    lemma_pow2_strictly_increases};

verus! {

/// Smallest bucketed size, as a power of two (1 KiB).
pub const MIN_BUCKET_LOG2: u32 = 10;
/// Largest bucketed size, as a power of two (256 MiB).
pub const MAX_BUCKET_LOG2: u32 = 28;
/// Number of size classes.
pub const NUM_BUCKETS: usize = 19;
/// Default cap on cached blocks per size class.
pub const DEFAULT_MAX_PER_BUCKET: usize = 32;

/// Byte capacity of size class `i`.
pub open spec fn spec_bucket_bytes(i: nat) -> nat {
    pow2(i + MIN_BUCKET_LOG2 as nat)
}

/// The size class that serves a request of `bytes` bytes: the smallest class
/// whose capacity holds it; none for empty requests and for requests above the
/// largest class.
pub open spec fn bucket_serves(bytes: nat, i: nat) -> bool {
    &&& i < NUM_BUCKETS
    &&& bytes <= spec_bucket_bytes(i)
    &&& (i == 0 || spec_bucket_bytes((i - 1) as nat) < bytes)
}

pub open spec fn is_bucketed(bytes: nat) -> bool {
    0 < bytes <= pow2(MAX_BUCKET_LOG2 as nat)
}

proof fn lemma_pow2_values()
    ensures
        pow2(10) == 1024,
        pow2(28) == 268435456,
        spec_bucket_bytes(0) == 1024,
        spec_bucket_bytes(18) == 268435456,
{
    lemma2_to64();
}

/// Capacities of size classes grow with the class index.
pub proof fn lemma_bucket_bytes_increase(i: nat, j: nat)
    requires
        i < j,
    ensures
        spec_bucket_bytes(i) < spec_bucket_bytes(j),
{
    lemma_pow2_strictly_increases(i + 10, j + 10);
}

proof fn lemma_bucket_bytes_double(i: nat)
    ensures
        spec_bucket_bytes(i + 1) == 2 * spec_bucket_bytes(i),
{
    lemma_pow2_unfold(i + 11);
}

/// Size class of a request of `bytes` bytes, or `None` when the request is
/// empty or larger than the largest class.
pub fn bucket_for_bytes(bytes: usize) -> (r: Option<usize>)
    ensures
        r is None <==> !is_bucketed(bytes as nat),
        r matches Some(i) ==> bucket_serves(bytes as nat, i as nat),
{
    proof {
        lemma_pow2_values();
    }
    if bytes == 0 || bytes > 268435456 {
        return None;
    }
    let mut i: usize = 0;
    let mut cap: usize = 1024;
    while cap < bytes
        invariant
            0 < bytes <= 268435456,
            i < NUM_BUCKETS,
            cap as nat == spec_bucket_bytes(i as nat),
            i == 0 || spec_bucket_bytes((i - 1) as nat) < bytes,
        decreases NUM_BUCKETS - i,
    {
        proof {
            lemma_pow2_values();
            lemma_bucket_bytes_double(i as nat);
            assert(i < 18);
            if i + 1 < 18 {
                lemma_bucket_bytes_increase((i + 1) as nat, 18);
            }
        }
        cap = cap * 2;
        i = i + 1;
    }
    Some(i)
}

/// Byte capacity of size class `bucket`.
pub fn bucket_bytes(bucket: usize) -> (r: usize)
    requires
        bucket < NUM_BUCKETS,
    ensures
        r as nat == spec_bucket_bytes(bucket as nat),
{
    let mut i: usize = 0;
    let mut cap: usize = 1024;
    proof {
        lemma_pow2_values();
    }
    while i < bucket
        invariant
            i <= bucket < NUM_BUCKETS,
            cap as nat == spec_bucket_bytes(i as nat),
        decreases bucket - i,
    {
        proof {
            lemma_pow2_values();
            lemma_bucket_bytes_double(i as nat);
            if i + 1 < 18 {
                lemma_bucket_bytes_increase((i + 1) as nat, 18);
            }
        }
        cap = cap * 2;
        i = i + 1;
    }
    cap
}

/// Each size class is the class of its own capacity: mapping a class to its
/// byte size and back gives the same class.
pub proof fn lemma_bucket_round_trip(i: nat)
    requires
        i < NUM_BUCKETS,
    ensures
        is_bucketed(spec_bucket_bytes(i)),
        bucket_serves(spec_bucket_bytes(i), i),
{
    lemma_pow2_values();
    if i > 0 {
        lemma_bucket_bytes_increase((i - 1) as nat, i);
    }
    if i < 18 {
        lemma_bucket_bytes_increase(i, 18);
    }
    lemma_pow2_pos(i + 10);
}

/// Larger requests never map to a smaller class; applied to one request
/// twice, this makes its serving class unique.
pub proof fn lemma_bucket_monotone(a: nat, b: nat, i: nat, j: nat)
    requires
        a <= b,
        bucket_serves(a, i),
        bucket_serves(b, j),
    ensures
        i <= j,
{
    if j < i {
        lemma_bucket_bytes_increase(j, (i - 1) as nat);
    }
}


/// Elements of `elem_size` bytes in a fresh block of a class of `cap` bytes:
/// the fewest that cover the whole class, so that the block serves any later
/// request of its class.
pub open spec fn fresh_len(cap: nat, elem_size: nat) -> nat {
    ((cap - 1) / (elem_size as int) + 1) as nat
}

proof fn lemma_fresh_len(cap: nat, len: nat, elem_size: nat)
    requires
        0 < len * elem_size <= cap,
    ensures
        elem_size > 0,
        elem_size <= cap,
        fresh_len(cap, elem_size) * elem_size >= cap,
        fresh_len(cap, elem_size) * elem_size < cap + elem_size,
{
    assert(elem_size > 0) by (nonlinear_arith)
        requires 0 < len * elem_size;
    assert(len >= 1) by (nonlinear_arith)
        requires 0 < len * elem_size;
    assert(elem_size <= len * elem_size) by (nonlinear_arith)
        requires len >= 1;
    let q = (cap - 1) / (elem_size as int);
    let r = (cap - 1) % (elem_size as int);
    assert(q * elem_size + r == cap - 1 && 0 <= r < elem_size) by (nonlinear_arith)
        requires elem_size > 0, q == (cap - 1) / (elem_size as int), r == (cap - 1) % (elem_size as int), cap >= 1;
    assert(fresh_len(cap, elem_size) * elem_size == q * elem_size + elem_size) by (nonlinear_arith)
        requires fresh_len(cap, elem_size) == q + 1, q >= 0;
}

/// What serving an allocation request takes.
#[derive(Debug)]
pub enum PoolAlloc {
    /// A cached block of `cap` bytes of the right class is reused: no driver
    /// call.
    Reused { ptr: u64, bucket: usize, cap: usize },
    /// The class is empty: allocate `alloc_len` elements from the driver,
    /// enough to cover the whole class, then present the requested length.
    Fresh { bucket: usize, alloc_len: usize },
    /// Too large to bucket: allocate exactly the requested length.
    Bypass,
}

/// What returning a block takes.
#[derive(Debug)]
pub enum PoolRelease {
    /// The block was cached for reuse: no driver call.
    Cached,
    /// The block goes back to the driver (`cuMemFreeAsync`).
    FreeToDriver,
}

/// Recycling bookkeeping of a per-stream pool. `stream` is carried for the
/// driver calls the caller makes on the pool's behalf.
#[derive(Debug)]
pub struct MemPool<S> {
    stream: S,
    buckets: Vec<Vec<(u64, usize)>>,
    max_per_bucket: usize,
}

impl<S> MemPool<S> {
    /// The cached device blocks with their byte capacities, per size class.
    pub closed spec fn cache(&self) -> Seq<Seq<(u64, usize)>> {
        self.buckets@.map_values(|b: Vec<(u64, usize)>| b@)
    }

    pub closed spec fn spec_max_per_bucket(&self) -> nat {
        self.max_per_bucket as nat
    }

    pub closed spec fn spec_stream(&self) -> S {
        self.stream
    }

    /// Every size class exists and holds at most `max_per_bucket` blocks.
    pub open spec fn wf(&self) -> bool {
        &&& self.cache().len() == NUM_BUCKETS
        &&& forall|i: int| 0 <= i < NUM_BUCKETS ==> #[trigger] self.cache()[i].len()
            <= self.spec_max_per_bucket()
        &&& forall|i: int, j: int| 0 <= i < NUM_BUCKETS && 0 <= j < self.cache()[i].len()
            ==> #[trigger] self.cache()[i][j].1 >= spec_bucket_bytes(i as nat)
    }

    /// A pool with the default cap of 32 cached blocks per class.
    pub fn new(stream: S) -> (p: Self)
        ensures
            p.wf(),
            p.spec_max_per_bucket() == DEFAULT_MAX_PER_BUCKET,
            p.spec_stream() == stream,
            forall|i: int| 0 <= i < NUM_BUCKETS ==> #[trigger] p.cache()[i].len() == 0,
    {
        Self::with_max_per_bucket(stream, DEFAULT_MAX_PER_BUCKET)
    }

    /// A pool with an explicit per-class cap.
    pub fn with_max_per_bucket(stream: S, max_per_bucket: usize) -> (p: Self)
        ensures
            p.wf(),
            p.spec_max_per_bucket() == max_per_bucket,
            p.spec_stream() == stream,
            forall|i: int| 0 <= i < NUM_BUCKETS ==> #[trigger] p.cache()[i].len() == 0,
    {
        let mut buckets: Vec<Vec<(u64, usize)>> = Vec::new();
        let mut k: usize = 0;
        while k < NUM_BUCKETS
            invariant
                k <= NUM_BUCKETS,
                buckets@.len() == k,
                forall|i: int| 0 <= i < k ==> #[trigger] buckets@[i]@.len() == 0,
            decreases NUM_BUCKETS - k,
        {
            buckets.push(Vec::new());
            k = k + 1;
        }
        MemPool { stream, buckets, max_per_bucket }
    }

    /// The stream every allocation of this pool is bound to.
    pub fn stream(&self) -> (r: &S)
        ensures
            *r == self.spec_stream(),
    {
        &self.stream
    }

    pub fn max_per_bucket(&self) -> (r: usize)
        ensures
            r == self.spec_max_per_bucket(),
    {
        self.max_per_bucket
    }

    /// Number of blocks cached in size class `bucket`.
    pub fn cached(&self, bucket: usize) -> (r: usize)
        requires
            self.wf(),
            bucket < NUM_BUCKETS,
        ensures
            r == self.cache()[bucket as int].len(),
    {
        self.buckets[bucket].len()
    }

    /// Decide how to serve a request of `len` elements of `elem_size` bytes:
    /// reuse the most recently cached block of the request's class, allocate
    /// a whole class when none is cached, or bypass the pool when the request
    /// is empty or too large to bucket. Fails when the byte size overflows.
    pub fn alloc_block(&mut self, len: usize, elem_size: usize) -> (r: Result<PoolAlloc>)
        requires
            old(self).wf(),
        ensures
            final(self).wf(),
            final(self).spec_max_per_bucket() == old(self).spec_max_per_bucket(),
            final(self).spec_stream() == old(self).spec_stream(),
            (len * elem_size > usize::MAX) <==> r is Err,
            r matches Err(e) ==> (e matches Error::Precondition { op, msg } && op@
                == "MemPool::alloc"@ && msg@ == "size overflow"@),
            r is Err ==> final(self).cache() == old(self).cache(),
            r matches Ok(a) ==> {
                let bytes = (len * elem_size) as nat;
                match a {
                    PoolAlloc::Bypass => !is_bucketed(bytes) && final(self).cache() == old(
                        self,
                    ).cache(),
                    PoolAlloc::Fresh { bucket, alloc_len } => {
                        &&& bucket_serves(bytes, bucket as nat)
                        &&& old(self).cache()[bucket as int].len() == 0
                        &&& elem_size > 0
                        &&& alloc_len as nat == fresh_len(spec_bucket_bytes(bucket as nat), elem_size as nat)
                        &&& alloc_len * elem_size >= spec_bucket_bytes(bucket as nat)
                        &&& forall|b: nat| #[trigger] bucket_serves(b, bucket as nat) ==> b <= alloc_len * elem_size
                        &&& final(self).cache() == old(self).cache()
                    },
                    PoolAlloc::Reused { ptr, bucket, cap } => {
                        let q = old(self).cache()[bucket as int];
                        &&& bucket_serves(bytes, bucket as nat)
                        &&& q.len() > 0
                        &&& (ptr, cap) == q.last()
                        &&& cap >= spec_bucket_bytes(bucket as nat)
                        &&& cap >= bytes
                        &&& final(self).cache() == old(self).cache().update(
                            bucket as int,
                            q.drop_last(),
                        )
                    },
                }
            },
    {
        let bytes = match len.checked_mul(elem_size) {
            Some(b) => b,
            None => {
                return Err(Error::precondition("MemPool::alloc", "size overflow"));
            },
        };
        match bucket_for_bytes(bytes) {
            Some(idx) => {
                let ghost before = self.cache();
                let popped = self.buckets[idx].pop();
                match popped {
                    Some((ptr, cap)) => {
                        proof {
                            assert(self.cache() =~= before.update(idx as int, before[idx as int].drop_last()));
                            assert forall|i: int| 0 <= i < NUM_BUCKETS implies #[trigger] self.cache()[i].len()
                                <= self.spec_max_per_bucket() by {
                                if i != idx {
                                    assert(self.cache()[i] == before[i]);
                                }
                            }
                            assert forall|i: int, j: int| 0 <= i < NUM_BUCKETS && 0 <= j < self.cache()[i].len()
                                implies #[trigger] self.cache()[i][j].1 >= spec_bucket_bytes(i as nat) by {
                                if i != idx {
                                    assert(self.cache()[i] == before[i]);
                                } else {
                                    assert(self.cache()[i][j] == before[i][j]);
                                }
                            }
                            let q = before[idx as int];
                            assert(q.last() == q[q.len() - 1]);
                        }
                        Ok(PoolAlloc::Reused { ptr, bucket: idx, cap })
                    },
                    None => {
                        proof {
                            assert(self.cache() =~= before);
                        }
                        let cap = bucket_bytes(idx);
                        proof {
                            lemma_fresh_len(cap as nat, len as nat, elem_size as nat);
                        }
                        let alloc_len = (cap - 1) / elem_size + 1;
                        Ok(PoolAlloc::Fresh { bucket: idx, alloc_len })
                    },
                }
            },
            None => Ok(PoolAlloc::Bypass),
        }
    }

    /// Decide what happens to a block returned to the pool: a block of size
    /// class `bucket` is cached while its class has room, and goes back to the
    /// driver otherwise; a block that bypassed the pool always goes back.
    /// `cap` is the block's byte capacity, which covers its class.
    pub fn release(&mut self, bucket: Option<usize>, ptr: u64, cap: usize) -> (r: PoolRelease)
        requires
            old(self).wf(),
            bucket matches Some(i) ==> i < NUM_BUCKETS && cap >= spec_bucket_bytes(i as nat),
        ensures
            final(self).wf(),
            final(self).spec_max_per_bucket() == old(self).spec_max_per_bucket(),
            final(self).spec_stream() == old(self).spec_stream(),
            match bucket {
                None => r is FreeToDriver && final(self).cache() == old(self).cache(),
                Some(i) => if old(self).cache()[i as int].len() < old(self).spec_max_per_bucket() {
                    r is Cached && final(self).cache() == old(self).cache().update(
                        i as int,
                        old(self).cache()[i as int].push((ptr, cap)),
                    )
                } else {
                    r is FreeToDriver && final(self).cache() == old(self).cache()
                },
            },
    {
        match bucket {
            None => PoolRelease::FreeToDriver,
            Some(idx) => {
                if self.buckets[idx].len() < self.max_per_bucket {
                    let ghost before = self.cache();
                    self.buckets[idx].push((ptr, cap));
                    proof {
                        assert(self.cache() =~= before.update(idx as int, before[idx as int].push((ptr, cap))));
                        assert forall|i: int| 0 <= i < NUM_BUCKETS implies #[trigger] self.cache()[i].len()
                            <= self.spec_max_per_bucket() by {
                            if i != idx {
                                assert(self.cache()[i] == before[i]);
                            }
                        }
                        assert forall|i: int, j: int| 0 <= i < NUM_BUCKETS && 0 <= j < self.cache()[i].len()
                            implies #[trigger] self.cache()[i][j].1 >= spec_bucket_bytes(i as nat) by {
                            if i != idx {
                                assert(self.cache()[i] == before[i]);
                            } else if j < before[i].len() {
                                assert(self.cache()[i][j] == before[i][j]);
                            }
                        }
                    }
                    PoolRelease::Cached
                } else {
                    PoolRelease::FreeToDriver
                }
            },
        }
    }

    /// Empty every size class, returning each cached block with its byte
    /// capacity so that the caller can free it.
    pub fn shrink(&mut self) -> (freed: Vec<(u64, usize)>)
        requires
            old(self).wf(),
        ensures
            final(self).wf(),
            final(self).spec_max_per_bucket() == old(self).spec_max_per_bucket(),
            final(self).spec_stream() == old(self).spec_stream(),
            forall|i: int| 0 <= i < NUM_BUCKETS ==> #[trigger] final(self).cache()[i].len() == 0,
            freed@ == flatten_with_capacity(old(self).cache(), NUM_BUCKETS as nat),
    {
        let mut freed: Vec<(u64, usize)> = Vec::new();
        let mut idx: usize = 0;
        let ghost orig = self.cache();
        while idx < NUM_BUCKETS
            invariant
                idx <= NUM_BUCKETS,
                self.cache().len() == NUM_BUCKETS,
                self.spec_max_per_bucket() == old(self).spec_max_per_bucket(),
                self.spec_stream() == old(self).spec_stream(),
                orig == old(self).cache(),
                orig.len() == NUM_BUCKETS,
                forall|i: int| 0 <= i < idx ==> #[trigger] self.cache()[i].len() == 0,
                forall|i: int| idx <= i < NUM_BUCKETS ==> #[trigger] self.cache()[i] == orig[i],
                freed@ == flatten_with_capacity(orig, idx as nat),
            decreases NUM_BUCKETS - idx,
        {
            let cap = bucket_bytes(idx);
            let ghost before = self.cache();
            proof {
                assert(self.buckets@[idx as int]@ == self.cache()[idx as int]);
            }
            let mut drained: Vec<(u64, usize)> = Vec::new();
            std::mem::swap(&mut drained, &mut self.buckets[idx]);
            proof {
                assert(self.cache() =~= before.update(idx as int, Seq::<(u64, usize)>::empty()));
            }
            let mut j: usize = 0;
            let ghost start = freed@;
            while j < drained.len()
                invariant
                    j <= drained@.len(),
                    drained@ == orig[idx as int],
                    freed@ == start + with_capacity(drained@.take(j as int), cap),
                decreases drained@.len() - j,
            {
                freed.push((drained[j].0, cap));
                proof {
                    assert(drained@.take(j as int + 1) =~= drained@.take(j as int).push(drained@[j as int]));
                    assert(with_capacity(drained@.take(j as int + 1), cap) =~= with_capacity(drained@.take(j as int), cap).push((drained@[j as int].0, cap)));
                }
                j = j + 1;
            }
            proof {
                assert(drained@.take(drained@.len() as int) =~= drained@);
            }
            idx = idx + 1;
        }
        freed
    }
}

/// Returning a block to a class with room and then requesting that class
/// hands the same block back: the cache after both steps equals the cache
/// before them.
pub proof fn lemma_release_then_alloc_recycles(cache: Seq<Seq<(u64, usize)>>, i: int, ptr: u64, cap: usize)
    requires
        0 <= i < cache.len(),
    ensures
        ({
            let after_release = cache.update(i, cache[i].push((ptr, cap)));
            &&& after_release[i].len() > 0
            &&& after_release[i].last() == (ptr, cap)
            &&& after_release.update(i, after_release[i].drop_last()) == cache
        }),
{
    let after_release = cache.update(i, cache[i].push((ptr, cap)));
    assert(after_release[i].drop_last() =~= cache[i]);
    assert(after_release.update(i, after_release[i].drop_last()) =~= cache);
}

/// The pointer of each block of `blocks` paired with capacity `cap`.
pub open spec fn with_capacity(blocks: Seq<(u64, usize)>, cap: usize) -> Seq<(u64, usize)> {
    blocks.map_values(|b: (u64, usize)| (b.0, cap))
}

/// The blocks of the first `n` size classes, class by class, each paired
/// with its class capacity.
pub open spec fn flatten_with_capacity(cache: Seq<Seq<(u64, usize)>>, n: nat) -> Seq<(u64, usize)>
    decreases n,
{
    if n == 0 {
        Seq::empty()
    } else {
        flatten_with_capacity(cache, (n - 1) as nat) + with_capacity(
            cache[n - 1],
            spec_bucket_bytes((n - 1) as nat) as usize,
        )
    }
}

} // verus!
