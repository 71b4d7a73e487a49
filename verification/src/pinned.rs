//! Pinned (page-locked) host memory pool: power-of-two size classes from
//! 4 KiB up, with the largest class absorbing everything above 16 GiB.

use vstd::prelude::*;
use vstd::arithmetic::power2::{pow2, lemma_pow2_unfold, lemma2_to64, lemma_pow2_strictly_increases};

verus! {

pub const MIN_BUCKET_LOG2: u32 = 12;
pub const MAX_BUCKET_LOG2: u32 = 34;
pub const NUM_BUCKETS: usize = 23;

/// The class capacity of a request: the smallest power of two, at least
/// 4 KiB, that holds `bytes`; `log2` is its exponent.
pub open spec fn pinned_capacity(bytes: nat, log2: nat, cap: nat) -> bool {
    &&& log2 >= MIN_BUCKET_LOG2
    &&& cap == pow2(log2)
    &&& bytes <= cap
    &&& (log2 == MIN_BUCKET_LOG2 || pow2((log2 - 1) as nat) < bytes)
}

/// The bucket index of a class exponent: its offset from 4 KiB, clamped to
/// the last bucket.
pub open spec fn pinned_index(log2: nat) -> nat {
    let off = (log2 - MIN_BUCKET_LOG2) as nat;
    if off < NUM_BUCKETS { off } else { (NUM_BUCKETS - 1) as nat }
}

/// Largest request whose rounded capacity still fits in a `usize`.
pub open spec fn pinned_request_fits(bytes: nat) -> bool {
    bytes <= (usize::MAX as nat + 1) / 2
}

proof fn lemma_pow2_usize_top()
    ensures
        pow2((usize::BITS - 1) as nat) == (usize::MAX as nat + 1) / 2,
        pow2(12) == 4096,
{
    lemma2_to64();
    vstd::arithmetic::power2::lemma2_to64_rest();
}

/// Size class of a pinned request: `(bucket index, class capacity in bytes)`.
pub fn bucket_of(bytes: usize) -> (r: (usize, usize))
    requires
        pinned_request_fits(bytes as nat),
    ensures
        exists|log2: nat|
            pinned_capacity(bytes as nat, log2, r.1 as nat) && r.0 as nat == pinned_index(log2),
{
    proof {
        lemma_pow2_usize_top();
    }
    let mut cap: usize = 4096;
    let mut log2: u32 = 12;
    while cap < bytes
        invariant
            pinned_request_fits(bytes as nat),
            12 <= log2 < usize::BITS,
            cap as nat == pow2(log2 as nat),
            log2 == 12 || pow2((log2 - 1) as nat) < bytes,
            pow2((usize::BITS - 1) as nat) == (usize::MAX as nat + 1) / 2,
        decreases usize::BITS - log2,
    {
        proof {
            lemma_pow2_unfold((log2 + 1) as nat);
            if log2 + 1 >= usize::BITS {
                assert(log2 == usize::BITS - 1);
            }
            if log2 + 1 < usize::BITS - 1 {
                lemma_pow2_strictly_increases((log2 + 1) as nat, (usize::BITS - 1) as nat);
            }
        }
        cap = cap * 2;
        log2 = log2 + 1;
    }
    let off = (log2 - 12) as usize;
    let idx = if off < NUM_BUCKETS { off } else { NUM_BUCKETS - 1 };
    proof {
        assert(pinned_capacity(bytes as nat, log2 as nat, cap as nat));
        assert(idx as nat == pinned_index(log2 as nat));
        assert(pinned_capacity(bytes as nat, log2 as nat, cap as nat) && idx as nat
            == pinned_index(log2 as nat));
    }
    (idx, cap)
}

/// Larger requests never land in a smaller bucket.
pub proof fn lemma_pinned_monotone(a: nat, b: nat, la: nat, lb: nat, ca: nat, cb: nat)
    requires
        a <= b,
        pinned_capacity(a, la, ca),
        pinned_capacity(b, lb, cb),
    ensures
        la <= lb,
        ca <= cb,
        pinned_index(la) <= pinned_index(lb),
{
    if lb < la {
        if lb < (la - 1) as nat {
            lemma_pow2_strictly_increases(lb, (la - 1) as nat);
        }
    }
    if la < lb {
        lemma_pow2_strictly_increases(la, lb);
    }
}


/// Whether a slab of `cap` bytes belongs in bucket `i`: its capacity is a
/// power of two of at least 4 KiB whose class is `i`.
pub open spec fn slab_in_class(i: nat, cap: nat) -> bool {
    exists|log2: nat| log2 >= MIN_BUCKET_LOG2 && cap == pow2(log2) && pinned_index(log2) == i
}

/// A slab of bucket `i` holds any request whose class is `i` and which is at
/// most 16 GiB; above that the last bucket is shared by all larger requests.
proof fn lemma_class_slab_holds(bytes: nat, lr: nat, c: nat, i: nat, cap: nat)
    requires
        pinned_capacity(bytes, lr, c),
        i == pinned_index(lr),
        slab_in_class(i, cap),
    ensures
        bytes <= pow2(MAX_BUCKET_LOG2 as nat) ==> bytes <= cap,
        i + 1 < NUM_BUCKETS ==> cap == c,
{
    let l = choose|log2: nat| log2 >= MIN_BUCKET_LOG2 && cap == pow2(log2) && pinned_index(log2) == i;
    if i + 1 < NUM_BUCKETS {
        assert(l == lr);
    } else if bytes <= pow2(MAX_BUCKET_LOG2 as nat) {
        assert(l >= MAX_BUCKET_LOG2);
        if l > MAX_BUCKET_LOG2 {
            lemma_pow2_strictly_increases(MAX_BUCKET_LOG2 as nat, l);
        }
    }
}

/// What serving a pinned request takes.
#[derive(Debug)]
pub enum PinnedAcquire<B> {
    /// A cached slab of `cap` bytes of the request's class is handed out.
    Reuse { bucket: usize, slab: B, cap: usize },
    /// The class is empty: allocate `cap` pinned bytes, then report them with
    /// [`PinnedPool::record_new_slab`].
    Allocate { bucket: usize, cap: usize },
}

/// Cached pinned slabs, each with its capacity, per size class, plus
/// allocation accounting. `device` is carried for the allocations the caller
/// makes on the pool's behalf.
#[derive(Debug)]
pub struct PinnedPool<D, B> {
    device: D,
    buckets: Vec<Vec<(B, usize)>>,
    allocated_bytes: u64,
    live_slabs: u64,
}

impl<D, B> PinnedPool<D, B> {
    /// The cached slabs with their capacities, per size class.
    pub closed spec fn slabs(&self) -> Seq<Seq<(B, usize)>> {
        self.buckets@.map_values(|b: Vec<(B, usize)>| b@)
    }

    pub closed spec fn spec_allocated_bytes(&self) -> u64 {
        self.allocated_bytes
    }

    pub closed spec fn spec_live_slabs(&self) -> u64 {
        self.live_slabs
    }

    pub closed spec fn spec_device(&self) -> D {
        self.device
    }

    /// Every size class exists, and every cached slab belongs to its class.
    pub open spec fn wf(&self) -> bool {
        &&& self.slabs().len() == NUM_BUCKETS
        &&& forall|i: int, j: int| 0 <= i < NUM_BUCKETS && 0 <= j < self.slabs()[i].len()
            ==> slab_in_class(i as nat, #[trigger] self.slabs()[i][j].1 as nat)
    }

    /// An empty pool with zeroed counters.
    pub fn new(device: D) -> (p: Self)
        ensures
            p.wf(),
            p.spec_device() == device,
            p.spec_allocated_bytes() == 0,
            p.spec_live_slabs() == 0,
            forall|i: int| 0 <= i < NUM_BUCKETS ==> #[trigger] p.slabs()[i].len() == 0,
    {
        let mut buckets: Vec<Vec<(B, usize)>> = Vec::new();
        let mut k: usize = 0;
        while k < NUM_BUCKETS
            invariant
                k <= NUM_BUCKETS,
                buckets@.len() == k,
                forall|i: int| 0 <= i < k ==> #[trigger] buckets@[i]@.len() == 0,
            decreases NUM_BUCKETS - k,
        {
            buckets.push(Vec::new());
            k = k + 1;
        }
        let p = PinnedPool { device, buckets, allocated_bytes: 0, live_slabs: 0 };
        proof {
            assert forall|i: int| 0 <= i < NUM_BUCKETS implies #[trigger] p.slabs()[i].len() == 0 by {
                assert(p.slabs()[i] == p.buckets@[i]@);
            }
        }
        p
    }

    /// Total pinned bytes ever allocated for this pool (wrapping).
    pub fn allocated_bytes(&self) -> (r: u64)
        ensures
            r == self.spec_allocated_bytes(),
    {
        self.allocated_bytes
    }

    /// Number of slabs ever allocated for this pool (wrapping).
    pub fn live_slabs(&self) -> (r: u64)
        ensures
            r == self.spec_live_slabs(),
    {
        self.live_slabs
    }

    /// Serve a request of `bytes`: the most recently released slab of its
    /// class, or an instruction to allocate a fresh slab of the class size.
    /// A reused slab holds the request unless the request is above 16 GiB,
    /// where every larger request shares the last class.
    pub fn acquire(&mut self, bytes: usize) -> (r: PinnedAcquire<B>)
        requires
            old(self).wf(),
            pinned_request_fits(bytes as nat),
        ensures
            final(self).wf(),
            final(self).spec_allocated_bytes() == old(self).spec_allocated_bytes(),
            final(self).spec_live_slabs() == old(self).spec_live_slabs(),
            final(self).spec_device() == old(self).spec_device(),
            match r {
                PinnedAcquire::Reuse { bucket, slab, cap } => {
                    let q = old(self).slabs()[bucket as int];
                    &&& exists|log2: nat, c: nat|
                        pinned_capacity(bytes as nat, log2, c) && bucket as nat == pinned_index(log2)
                            && (bucket + 1 < NUM_BUCKETS ==> cap == c)
                    &&& q.len() > 0
                    &&& (slab, cap) == q.last()
                    &&& slab_in_class(bucket as nat, cap as nat)
                    &&& (bytes <= pow2(MAX_BUCKET_LOG2 as nat) ==> bytes <= cap)
                    &&& final(self).slabs() == old(self).slabs().update(bucket as int, q.drop_last())
                },
                PinnedAcquire::Allocate { bucket, cap } => {
                    &&& exists|log2: nat|
                        pinned_capacity(bytes as nat, log2, cap as nat) && bucket as nat
                            == pinned_index(log2)
                    &&& slab_in_class(bucket as nat, cap as nat)
                    &&& old(self).slabs()[bucket as int].len() == 0
                    &&& final(self).slabs() == old(self).slabs()
                },
            },
    {
        let (idx, cap) = bucket_of(bytes);
        let ghost before = self.slabs();
        let ghost lr = choose|log2: nat| pinned_capacity(bytes as nat, log2, cap as nat) && idx as nat == pinned_index(log2);
        proof {
            assert(self.buckets@[idx as int]@ == before[idx as int]);
        }
        match self.buckets[idx].pop() {
            Some((slab, scap)) => {
                proof {
                    assert(self.slabs() =~= before.update(idx as int, before[idx as int].drop_last()));
                    let q = before[idx as int];
                    assert(q.last() == q[q.len() - 1]);
                    assert(slab_in_class(idx as nat, scap as nat));
                    lemma_class_slab_holds(bytes as nat, lr, cap as nat, idx as nat, scap as nat);
                    assert forall|i: int, j: int| 0 <= i < NUM_BUCKETS && 0 <= j < self.slabs()[i].len()
                        implies slab_in_class(i as nat, #[trigger] self.slabs()[i][j].1 as nat) by {
                        if i == idx {
                            assert(self.slabs()[i][j] == before[i][j]);
                        } else {
                            assert(self.slabs()[i] == before[i]);
                        }
                    }
                }
                PinnedAcquire::Reuse { bucket: idx, slab, cap: scap }
            },
            None => {
                proof {
                    assert(self.slabs() =~= before);
                    assert(slab_in_class(idx as nat, cap as nat));
                }
                PinnedAcquire::Allocate { bucket: idx, cap }
            },
        }
    }

    /// Account for a freshly allocated slab of `cap` bytes.
    pub fn record_new_slab(&mut self, cap: usize)
        ensures
            final(self).spec_allocated_bytes() == (old(self).spec_allocated_bytes() + cap) % (
            u64::MAX as int + 1),
            final(self).spec_live_slabs() == (old(self).spec_live_slabs() + 1) % (u64::MAX as int
                + 1),
            final(self).slabs() == old(self).slabs(),
            final(self).spec_device() == old(self).spec_device(),
    {
        self.allocated_bytes = self.allocated_bytes.wrapping_add(cap as u64);
        self.live_slabs = self.live_slabs.wrapping_add(1);
    }

    /// Return a slab of `cap` bytes to its size class (what dropping a slab
    /// does).
    pub fn release(&mut self, bucket: usize, slab: B, cap: usize)
        requires
            old(self).wf(),
            bucket < NUM_BUCKETS,
            slab_in_class(bucket as nat, cap as nat),
        ensures
            final(self).wf(),
            final(self).slabs() == old(self).slabs().update(
                bucket as int,
                old(self).slabs()[bucket as int].push((slab, cap)),
            ),
            final(self).spec_allocated_bytes() == old(self).spec_allocated_bytes(),
            final(self).spec_live_slabs() == old(self).spec_live_slabs(),
            final(self).spec_device() == old(self).spec_device(),
    {
        let ghost before = self.slabs();
        proof {
            assert(self.buckets@[bucket as int]@ == before[bucket as int]);
        }
        self.buckets[bucket].push((slab, cap));
        proof {
            assert(self.slabs() =~= before.update(bucket as int, before[bucket as int].push((slab, cap))));
            assert forall|i: int, j: int| 0 <= i < NUM_BUCKETS && 0 <= j < self.slabs()[i].len()
                implies slab_in_class(i as nat, #[trigger] self.slabs()[i][j].1 as nat) by {
                if i == bucket {
                    if j < before[i].len() {
                        assert(self.slabs()[i][j] == before[i][j]);
                    }
                } else {
                    assert(self.slabs()[i] == before[i]);
                }
            }
        }
    }
}

} // verus!
