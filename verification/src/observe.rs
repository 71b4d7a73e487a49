//! Observability: named trace-range descriptions and per-session counters.

use vstd::prelude::*;

verus! {

/// A trace range being described: its message, colour and category. The
/// application opens the range in the profiler.
#[derive(Debug)]
pub struct EventBuilder {
    pub msg: String,
    pub argb: Option<u32>,
    pub category: Option<u32>,
}

/// Start describing a range named `msg`.
pub fn range(msg: &str) -> (b: EventBuilder)
    ensures
        b.msg@ == msg@,
        b.argb is None,
        b.category is None,
{
    EventBuilder { msg: msg.to_string(), argb: None, category: None }
}

impl EventBuilder {
    /// Colour the range.
    pub fn argb(self, c: u32) -> (b: Self)
        ensures
            b.msg@ == self.msg@,
            b.argb == Some(c),
            b.category == self.category,
    {
        EventBuilder { msg: self.msg, argb: Some(c), category: self.category }
    }

    /// Put the range in category `c`.
    pub fn category(self, c: u32) -> (b: Self)
        ensures
            b.msg@ == self.msg@,
            b.argb == self.argb,
            b.category == Some(c),
    {
        EventBuilder { msg: self.msg, argb: self.argb, category: Some(c) }
    }
}

/// `a + b` modulo 2^64, as the counters add.
pub open spec fn wrap_add(a: u64, b: u64) -> u64 {
    if a + b > u64::MAX {
        (a + b - 0x1_0000_0000_0000_0000int) as u64
    } else {
        (a + b) as u64
    }
}

pub fn wrapping_add(a: u64, b: u64) -> (r: u64)
    ensures
        r == wrap_add(a, b),
{
    if a > u64::MAX - b {
        a - (u64::MAX - b) - 1
    } else {
        a + b
    }
}

/// Per-session counters. Every counter wraps around at 2^64.
#[derive(Debug)]
pub struct Metrics {
    pub alloc_bytes: u64,
    pub alloc_calls: u64,
    pub free_bytes: u64,
    pub htod_bytes: u64,
    pub dtoh_bytes: u64,
    pub kernels_launched: u64,
    pub blas_calls: u64,
    pub nvrtc_hits: u64,
    pub nvrtc_misses: u64,
    pub fft_hits: u64,
    pub fft_misses: u64,
    pub collectives: u64,
}

/// A copy of the counters at one moment.
#[derive(Clone, Copy, PartialEq, Eq, Structural, Debug, Default)]
pub struct MetricsSnapshot {
    pub alloc_bytes: u64,
    pub alloc_calls: u64,
    pub free_bytes: u64,
    pub htod_bytes: u64,
    pub dtoh_bytes: u64,
    pub kernels_launched: u64,
    pub blas_calls: u64,
    pub nvrtc_hits: u64,
    pub nvrtc_misses: u64,
    pub fft_hits: u64,
    pub fft_misses: u64,
    pub collectives: u64,
}

impl Metrics {
    /// The counters as a snapshot value.
    pub open spec fn view(&self) -> MetricsSnapshot {
        MetricsSnapshot {
            alloc_bytes: self.alloc_bytes,
            alloc_calls: self.alloc_calls,
            free_bytes: self.free_bytes,
            htod_bytes: self.htod_bytes,
            dtoh_bytes: self.dtoh_bytes,
            kernels_launched: self.kernels_launched,
            blas_calls: self.blas_calls,
            nvrtc_hits: self.nvrtc_hits,
            nvrtc_misses: self.nvrtc_misses,
            fft_hits: self.fft_hits,
            fft_misses: self.fft_misses,
            collectives: self.collectives,
        }
    }

    /// All counters at zero.
    pub fn new() -> (m: Self)
        ensures
            m@ == MetricsSnapshot::spec_zero(),
    {
        Metrics {
            alloc_bytes: 0,
            alloc_calls: 0,
            free_bytes: 0,
            htod_bytes: 0,
            dtoh_bytes: 0,
            kernels_launched: 0,
            blas_calls: 0,
            nvrtc_hits: 0,
            nvrtc_misses: 0,
            fft_hits: 0,
            fft_misses: 0,
            collectives: 0,
        }
    }

    /// One allocation of `bytes`.
    pub fn record_alloc(&mut self, bytes: u64)
        ensures
            final(self)@ == (MetricsSnapshot {
                alloc_calls: wrap_add(old(self).alloc_calls, 1),
                alloc_bytes: wrap_add(old(self).alloc_bytes, bytes),
                ..old(self)@
            }),
    {
        self.alloc_calls = wrapping_add(self.alloc_calls, 1);
        self.alloc_bytes = wrapping_add(self.alloc_bytes, bytes);
    }

    /// One release of `bytes`.
    pub fn record_free(&mut self, bytes: u64)
        ensures
            final(self)@ == (MetricsSnapshot { free_bytes: wrap_add(old(self).free_bytes, bytes), ..old(self)@ }),
    {
        self.free_bytes = wrapping_add(self.free_bytes, bytes);
    }

    /// A host-to-device copy of `bytes`.
    pub fn record_htod(&mut self, bytes: u64)
        ensures
            final(self)@ == (MetricsSnapshot { htod_bytes: wrap_add(old(self).htod_bytes, bytes), ..old(self)@ }),
    {
        self.htod_bytes = wrapping_add(self.htod_bytes, bytes);
    }

    /// A device-to-host copy of `bytes`.
    pub fn record_dtoh(&mut self, bytes: u64)
        ensures
            final(self)@ == (MetricsSnapshot { dtoh_bytes: wrap_add(old(self).dtoh_bytes, bytes), ..old(self)@ }),
    {
        self.dtoh_bytes = wrapping_add(self.dtoh_bytes, bytes);
    }

    /// One kernel launch.
    pub fn record_launch(&mut self)
        ensures
            final(self)@ == (MetricsSnapshot {
                kernels_launched: wrap_add(old(self).kernels_launched, 1),
                ..old(self)@
            }),
    {
        self.kernels_launched = wrapping_add(self.kernels_launched, 1);
    }

    /// One matrix-multiply call.
    pub fn record_blas(&mut self)
        ensures
            final(self)@ == (MetricsSnapshot { blas_calls: wrap_add(old(self).blas_calls, 1), ..old(self)@ }),
    {
        self.blas_calls = wrapping_add(self.blas_calls, 1);
    }

    /// One kernel-cache lookup, a hit or a miss.
    pub fn record_nvrtc(&mut self, hit: bool)
        ensures
            hit ==> final(self)@ == (MetricsSnapshot { nvrtc_hits: wrap_add(old(self).nvrtc_hits, 1), ..old(self)@ }),
            !hit ==> final(self)@ == (MetricsSnapshot {
                nvrtc_misses: wrap_add(old(self).nvrtc_misses, 1),
                ..old(self)@
            }),
    {
        if hit {
            self.nvrtc_hits = wrapping_add(self.nvrtc_hits, 1);
        } else {
            self.nvrtc_misses = wrapping_add(self.nvrtc_misses, 1);
        }
    }

    /// One FFT plan-cache lookup, a hit or a miss.
    pub fn record_fft(&mut self, hit: bool)
        ensures
            hit ==> final(self)@ == (MetricsSnapshot { fft_hits: wrap_add(old(self).fft_hits, 1), ..old(self)@ }),
            !hit ==> final(self)@ == (MetricsSnapshot { fft_misses: wrap_add(old(self).fft_misses, 1), ..old(self)@ }),
    {
        if hit {
            self.fft_hits = wrapping_add(self.fft_hits, 1);
        } else {
            self.fft_misses = wrapping_add(self.fft_misses, 1);
        }
    }

    /// One collective operation.
    pub fn record_collective(&mut self)
        ensures
            final(self)@ == (MetricsSnapshot { collectives: wrap_add(old(self).collectives, 1), ..old(self)@ }),
    {
        self.collectives = wrapping_add(self.collectives, 1);
    }

    /// The current counters.
    pub fn snapshot(&self) -> (s: MetricsSnapshot)
        ensures
            s == self@,
    {
        MetricsSnapshot {
            alloc_bytes: self.alloc_bytes,
            alloc_calls: self.alloc_calls,
            free_bytes: self.free_bytes,
            htod_bytes: self.htod_bytes,
            dtoh_bytes: self.dtoh_bytes,
            kernels_launched: self.kernels_launched,
            blas_calls: self.blas_calls,
            nvrtc_hits: self.nvrtc_hits,
            nvrtc_misses: self.nvrtc_misses,
            fft_hits: self.fft_hits,
            fft_misses: self.fft_misses,
            collectives: self.collectives,
        }
    }
}

impl Default for Metrics {
    fn default() -> (m: Self)
        ensures
            m@ == MetricsSnapshot::spec_zero(),
    {
        Metrics::new()
    }
}

/// Reinterpretation of a counter as a signed 64-bit value.
pub open spec fn as_signed(x: u64) -> int {
    if x > i64::MAX { x - 0x1_0000_0000_0000_0000int } else { x as int }
}

impl MetricsSnapshot {
    pub open spec fn spec_zero() -> MetricsSnapshot {
        MetricsSnapshot {
            alloc_bytes: 0,
            alloc_calls: 0,
            free_bytes: 0,
            htod_bytes: 0,
            dtoh_bytes: 0,
            kernels_launched: 0,
            blas_calls: 0,
            nvrtc_hits: 0,
            nvrtc_misses: 0,
            fft_hits: 0,
            fft_misses: 0,
            collectives: 0,
        }
    }

    pub open spec fn spec_resident_bytes(self) -> int {
        as_signed(self.alloc_bytes) - as_signed(self.free_bytes)
    }

    /// Bytes still resident on the device by this accounting: allocated
    /// minus freed, each counter read as a signed 64-bit value.
    pub fn resident_bytes(&self) -> (r: i64)
        requires
            i64::MIN <= self.spec_resident_bytes() <= i64::MAX,
        ensures
            r == self.spec_resident_bytes(),
    {
        let a = signed(self.alloc_bytes);
        let f = signed(self.free_bytes);
        a - f
    }
}

#[verifier::truncate]
fn signed(x: u64) -> (r: i64)
    ensures
        r == as_signed(x),
{
    proof {
        assert(x as i64 == as_signed(x)) by (bit_vector);
    }
    x as i64
}

/// Recording an allocation of `b` bytes (as `record_alloc` does) raises the
/// resident bytes by exactly `b`, and recording the release of those bytes
/// (as `record_free` does) brings them back, as long as neither byte counter
/// passes `i64::MAX`.
pub proof fn lemma_alloc_then_free_restores_resident(s: MetricsSnapshot, b: u64)
    requires
        s.alloc_bytes + b <= i64::MAX,
        s.free_bytes + b <= i64::MAX,
    ensures
        ({
            let after_alloc = MetricsSnapshot { alloc_calls: wrap_add(s.alloc_calls, 1), alloc_bytes: wrap_add(s.alloc_bytes, b), ..s };
            let after_free = MetricsSnapshot { free_bytes: wrap_add(after_alloc.free_bytes, b), ..after_alloc };
            &&& after_alloc.spec_resident_bytes() == s.spec_resident_bytes() + b
            &&& after_free.spec_resident_bytes() == s.spec_resident_bytes()
        }),
{
}

} // verus!
