//! Host/device copy planning: which transfer path a copy takes, the chunk
//! schedule of a staged host-to-device copy through the pinned ring, and the
//! split of a wide host `memcpy` across helper threads.

use vstd::prelude::*;
use crate::error::{Error, Result};
use crate::launch::ceil_div;
use crate::text::{decimal, push_char, push_decimal, push_str};

verus! {

/// Chunk size of a staged host-to-device copy (2 MiB).
pub const STAGE_CHUNK: usize = 2097152;
/// Number of pinned staging slots in a stream's ring.
pub const STAGE_SLOTS: usize = 4;
/// Copies of at least this many bytes are staged (two chunks).
pub const STAGE_THRESHOLD: usize = 4194304;
/// Below this a host `memcpy` is not split across threads (512 KiB).
pub const PARALLEL_MEMCPY_MIN: usize = 524288;

/// Message of a length mismatch between the two sides of a copy.
pub open spec fn mismatch_text(first: Seq<char>, a: nat, second: Seq<char>, b: nat) -> Seq<char> {
    "length mismatch: "@ + first + seq!['='] + decimal(a) + seq![' '] + second + seq!['='] + decimal(b)
}

/// `length mismatch: {first}={a} {second}={b}`.
pub fn mismatch_message(first: &str, a: usize, second: &str, b: usize) -> (s: String)
    ensures
        s@ == mismatch_text(first@, a as nat, second@, b as nat),
{
    let mut s = String::new();
    push_str(&mut s, "length mismatch: ");
    push_str(&mut s, first);
    push_char(&mut s, '=');
    push_decimal(&mut s, a as u64);
    push_char(&mut s, ' ');
    push_str(&mut s, second);
    push_char(&mut s, '=');
    push_decimal(&mut s, b as u64);
    proof {
        assert(s@ =~= mismatch_text(first@, a as nat, second@, b as nat));
    }
    s
}

/// How a copy is carried out.
#[derive(Clone, Copy, Debug)]
pub enum CopyPlan {
    /// Nothing to move.
    Skip,
    /// One stream-ordered asynchronous driver copy.
    Async,
    /// Chunked host-to-pinned-to-device copy through the stream's ring.
    Staged,
    /// The staged copy followed by a stream synchronize.
    StagedThenSync,
    /// Synchronize the stream, then one blocking driver copy.
    Blocking,
    /// Synchronize the stream only.
    SyncOnly,
}

/// Whether `r` is the length-mismatch error of `op`, naming the two sides.
pub open spec fn is_mismatch(r: Result<CopyPlan>, op: Seq<char>, first: Seq<char>, a: nat, second: Seq<char>, b: nat) -> bool {
    r matches Err(Error::Precondition { op: o, msg }) && o@ == op && msg@ == mismatch_text(first, a, second, b)
}

fn mismatch(op: &'static str, first: &str, a: usize, second: &str, b: usize) -> (r: Result<CopyPlan>)
    ensures
        is_mismatch(r, op@, first@, a as nat, second@, b as nat),
{
    Err(Error::Precondition { op, msg: mismatch_message(first, a, second, b) })
}

/// Asynchronous host-to-device copy of `src_len` elements into a buffer of
/// `dst_len` elements: staged from two chunks up, one driver copy below.
pub fn plan_copy_from_host(dst_len: usize, src_len: usize, elem_size: usize) -> (r: Result<CopyPlan>)
    requires
        dst_len * elem_size <= usize::MAX,
    ensures
        src_len != dst_len ==> is_mismatch(r, "DeviceBuf::copy_from_host"@, "dst"@, dst_len as nat, "src"@, src_len as nat),
        src_len == dst_len ==> (r matches Ok(p) && (if dst_len == 0 {
            p is Skip
        } else if dst_len * elem_size >= STAGE_THRESHOLD {
            p is Staged
        } else {
            p is Async
        })),
{
    if src_len != dst_len {
        return mismatch("DeviceBuf::copy_from_host", "dst", dst_len, "src", src_len);
    }
    if dst_len == 0 {
        return Ok(CopyPlan::Skip);
    }
    if dst_len * elem_size >= STAGE_THRESHOLD {
        Ok(CopyPlan::Staged)
    } else {
        Ok(CopyPlan::Async)
    }
}

/// Blocking host-to-device copy: drain the stream, then one blocking copy.
pub fn plan_copy_from_host_blocking(dst_len: usize, src_len: usize) -> (r: Result<CopyPlan>)
    ensures
        src_len != dst_len ==> is_mismatch(r, "DeviceBuf::copy_from_host_blocking"@, "dst"@, dst_len as nat, "src"@, src_len as nat),
        src_len == dst_len ==> (r matches Ok(p) && (if dst_len == 0 { p is Skip } else { p is Blocking })),
{
    if src_len != dst_len {
        return mismatch("DeviceBuf::copy_from_host_blocking", "dst", dst_len, "src", src_len);
    }
    if dst_len == 0 { Ok(CopyPlan::Skip) } else { Ok(CopyPlan::Blocking) }
}

/// Host-to-device copy for a caller about to block: the staged path plus a
/// synchronize from two chunks up, the blocking copy below.
pub fn plan_copy_from_host_sync(dst_len: usize, src_len: usize, elem_size: usize) -> (r: Result<CopyPlan>)
    requires
        dst_len * elem_size <= usize::MAX,
    ensures
        src_len != dst_len ==> is_mismatch(r, "DeviceBuf::copy_from_host_sync"@, "dst"@, dst_len as nat, "src"@, src_len as nat),
        src_len == dst_len ==> (r matches Ok(p) && (if dst_len * elem_size >= STAGE_THRESHOLD {
            p is StagedThenSync
        } else if dst_len == 0 {
            p is Skip
        } else {
            p is Blocking
        })),
{
    if src_len != dst_len {
        return mismatch("DeviceBuf::copy_from_host_sync", "dst", dst_len, "src", src_len);
    }
    if dst_len * elem_size >= STAGE_THRESHOLD {
        Ok(CopyPlan::StagedThenSync)
    } else if dst_len == 0 {
        Ok(CopyPlan::Skip)
    } else {
        Ok(CopyPlan::Blocking)
    }
}

/// Asynchronous device-to-host copy of a buffer of `src_len` elements into a
/// host slice of `dst_len` elements.
pub fn plan_copy_to_host(src_len: usize, dst_len: usize) -> (r: Result<CopyPlan>)
    ensures
        src_len != dst_len ==> is_mismatch(r, "DeviceBuf::copy_to_host"@, "src"@, src_len as nat, "dst"@, dst_len as nat),
        src_len == dst_len ==> (r matches Ok(p) && (if src_len == 0 { p is Skip } else { p is Async })),
{
    if src_len != dst_len {
        return mismatch("DeviceBuf::copy_to_host", "src", src_len, "dst", dst_len);
    }
    if src_len == 0 { Ok(CopyPlan::Skip) } else { Ok(CopyPlan::Async) }
}

/// Blocking device-to-host copy.
pub fn plan_copy_to_host_blocking(src_len: usize, dst_len: usize) -> (r: Result<CopyPlan>)
    ensures
        src_len != dst_len ==> is_mismatch(r, "DeviceBuf::copy_to_host_blocking"@, "src"@, src_len as nat, "dst"@, dst_len as nat),
        src_len == dst_len ==> (r matches Ok(p) && (if src_len == 0 { p is Skip } else { p is Blocking })),
{
    if src_len != dst_len {
        return mismatch("DeviceBuf::copy_to_host_blocking", "src", src_len, "dst", dst_len);
    }
    if src_len == 0 { Ok(CopyPlan::Skip) } else { Ok(CopyPlan::Blocking) }
}

/// Device-to-host copy for a caller about to block: always the blocking copy.
pub fn plan_copy_to_host_sync(src_len: usize, dst_len: usize) -> (r: Result<CopyPlan>)
    ensures
        src_len != dst_len ==> is_mismatch(r, "DeviceBuf::copy_to_host_sync"@, "src"@, src_len as nat, "dst"@, dst_len as nat),
        src_len == dst_len ==> (r matches Ok(p) && (if src_len == 0 { p is Skip } else { p is Blocking })),
{
    if src_len != dst_len {
        return mismatch("DeviceBuf::copy_to_host_sync", "src", src_len, "dst", dst_len);
    }
    if src_len == 0 { Ok(CopyPlan::Skip) } else { Ok(CopyPlan::Blocking) }
}

/// Device-to-device copy on the destination's stream.
pub fn plan_copy_from_device(dst_len: usize, src_len: usize) -> (r: Result<CopyPlan>)
    ensures
        src_len != dst_len ==> is_mismatch(r, "DeviceBuf::copy_from_device"@, "dst"@, dst_len as nat, "src"@, src_len as nat),
        src_len == dst_len ==> (r matches Ok(p) && (if dst_len == 0 { p is Skip } else { p is Async })),
{
    if src_len != dst_len {
        return mismatch("DeviceBuf::copy_from_device", "dst", dst_len, "src", src_len);
    }
    if dst_len == 0 { Ok(CopyPlan::Skip) } else { Ok(CopyPlan::Async) }
}

/// Peer-to-peer copy from a buffer on another device.
pub fn plan_copy_from_peer_async(dst_len: usize, src_len: usize) -> (r: Result<CopyPlan>)
    ensures
        src_len != dst_len ==> is_mismatch(r, "DeviceBuf::copy_from_peer_async"@, "dst"@, dst_len as nat, "src"@, src_len as nat),
        src_len == dst_len ==> (r matches Ok(p) && (if dst_len == 0 { p is Skip } else { p is Async })),
{
    if src_len != dst_len {
        return mismatch("DeviceBuf::copy_from_peer_async", "dst", dst_len, "src", src_len);
    }
    if dst_len == 0 { Ok(CopyPlan::Skip) } else { Ok(CopyPlan::Async) }
}

/// Device-to-host copy into a caller buffer that always synchronizes the
/// stream first.
pub fn plan_dtoh_sync_copy_into(src_len: usize, dst_len: usize) -> (r: Result<CopyPlan>)
    ensures
        src_len != dst_len ==> (r matches Err(Error::Precondition { op, msg }) && op@ == "dtoh_sync_copy_into"@ && msg@ == "length mismatch"@),
        src_len == dst_len ==> (r matches Ok(p) && (if dst_len == 0 { p is SyncOnly } else { p is Blocking })),
{
    if src_len != dst_len {
        return Err(Error::precondition("dtoh_sync_copy_into", "length mismatch"));
    }
    if dst_len == 0 { Ok(CopyPlan::SyncOnly) } else { Ok(CopyPlan::Blocking) }
}

// ── Staged copies ──────────────────────────────────────────────────────────

/// One chunk of a staged copy: copy `len` bytes at `offset` through staging
/// slot `slot`, first waiting for the slot's previous transfer when
/// `wait_first`.
#[derive(Clone, Copy, Debug)]
pub struct StageStep {
    pub offset: usize,
    pub len: usize,
    pub slot: usize,
    pub wait_first: bool,
}

/// The slot used by the `k`-th chunk of a copy started at ring cursor `c`.
pub open spec fn slot_of(c: nat, k: nat) -> nat {
    (c + k) % (STAGE_SLOTS as nat)
}

/// Whether some chunk before the `k`-th uses the same slot.
pub open spec fn slot_reused_before(c: nat, k: nat) -> bool {
    exists|j: nat| j < k && #[trigger] slot_of(c, j) == slot_of(c, k)
}

/// The `k`-th chunk of a staged copy of `bytes` bytes started at cursor `c`
/// over a ring whose slots are armed as in `armed`.
pub open spec fn spec_stage_step(bytes: nat, c: nat, armed: Seq<bool>, k: nat) -> StageStep {
    let off = k * STAGE_CHUNK as nat;
    StageStep {
        offset: off as usize,
        len: (if bytes - off < STAGE_CHUNK { bytes - off } else { STAGE_CHUNK as int }) as usize,
        slot: slot_of(c, k) as usize,
        wait_first: armed[slot_of(c, k) as int] || slot_reused_before(c, k),
    }
}

/// The ring of pinned staging slots a stream owns: which slots still have a
/// transfer in flight, and the rotating cursor.
#[derive(Debug)]
pub struct StageRing {
    armed: Vec<bool>,
    cursor: usize,
}

impl StageRing {
    pub closed spec fn spec_armed(&self) -> Seq<bool> {
        self.armed@
    }

    pub closed spec fn spec_cursor(&self) -> usize {
        self.cursor
    }

    pub open spec fn wf(&self) -> bool {
        self.spec_armed().len() == STAGE_SLOTS
    }

    /// A fresh ring: no transfer in flight, cursor at zero.
    pub fn new() -> (r: StageRing)
        ensures
            r.wf(),
            r.spec_cursor() == 0,
            forall|i: int| 0 <= i < STAGE_SLOTS ==> !#[trigger] r.spec_armed()[i],
    {
        let armed = vec![false, false, false, false];
        StageRing { armed, cursor: 0 }
    }

    pub fn cursor(&self) -> (r: usize)
        ensures
            r == self.spec_cursor(),
    {
        self.cursor
    }

    /// Schedule a staged copy of `bytes` bytes: consecutive chunks of at most
    /// `STAGE_CHUNK` bytes, each through the next slot of the ring, waiting
    /// for the slot's previous transfer whenever one may still be in flight.
    pub fn plan_staged_copy(&mut self, bytes: usize) -> (steps: Vec<StageStep>)
        requires
            old(self).wf(),
            old(self).spec_cursor() + ceil_div(bytes as nat, STAGE_CHUNK as nat) <= usize::MAX,
        ensures
            final(self).wf(),
            steps@.len() * STAGE_CHUNK >= bytes,
            steps@.len() == 0 || (steps@.len() - 1) * STAGE_CHUNK < bytes,
            forall|k: int| 0 <= k < steps@.len() ==> #[trigger] steps@[k] == spec_stage_step(
                bytes as nat,
                old(self).spec_cursor() as nat,
                old(self).spec_armed(),
                k as nat,
            ),
            final(self).spec_cursor() == old(self).spec_cursor() + steps@.len(),
            forall|s: int| 0 <= s < STAGE_SLOTS ==> #[trigger] final(self).spec_armed()[s] == (
            old(self).spec_armed()[s] || exists|j: nat| j < steps@.len() && slot_of(old(self).spec_cursor() as nat, j) == s),
    {
        let mut steps: Vec<StageStep> = Vec::new();
        let mut off: usize = 0;
        let ghost c0 = self.cursor as nat;
        let ghost armed0 = self.armed@;
        let ghost k: nat = 0;
        while off < bytes
            invariant
                self.armed@.len() == STAGE_SLOTS,
                armed0.len() == STAGE_SLOTS,
                c0 + ceil_div(bytes as nat, STAGE_CHUNK as nat) <= usize::MAX,
                steps@.len() == k,
                off == (if k * STAGE_CHUNK <= bytes { k * STAGE_CHUNK } else { bytes as int }),
                k == 0 || (k - 1) * STAGE_CHUNK < bytes,
                self.cursor == c0 + k,
                forall|j: int| 0 <= j < k ==> #[trigger] steps@[j] == spec_stage_step(bytes as nat, c0, armed0, j as nat),
                forall|s: int| 0 <= s < STAGE_SLOTS ==> #[trigger] self.armed@[s] == (armed0[s] || exists|j: nat| j < k && slot_of(c0, j) == s),
            decreases bytes - off,
        {
            proof {
                assert(off == k * STAGE_CHUNK);
                assert((k + 1) * STAGE_CHUNK <= bytes + STAGE_CHUNK - 1) by (nonlinear_arith)
                    requires
                        k * STAGE_CHUNK < bytes,
                ;
                lemma_le_ceil(k + 1, bytes as nat);
            }
            let n = if bytes - off < STAGE_CHUNK { bytes - off } else { STAGE_CHUNK };
            let i = self.cursor % STAGE_SLOTS;
            let wait = self.armed[i];
            proof {
                assert(i == slot_of(c0, k));
                assert(wait == (armed0[i as int] || slot_reused_before(c0, k))) by {
                    if wait && !armed0[i as int] {
                        let j = choose|j: nat| j < k && slot_of(c0, j) == i;
                        assert(slot_of(c0, j) == slot_of(c0, k));
                    }
                    if slot_reused_before(c0, k) {
                        let j = choose|j: nat| j < k && #[trigger] slot_of(c0, j) == slot_of(c0, k);
                        assert(j < k && slot_of(c0, j) == i);
                    }
                }
            }
            self.armed.set(i, true);
            steps.push(StageStep { offset: off, len: n, slot: i, wait_first: wait });
            proof {
                assert(steps@[k as int] == spec_stage_step(bytes as nat, c0, armed0, k));
                assert forall|s: int| 0 <= s < STAGE_SLOTS implies #[trigger] self.armed@[s] == (armed0[s] || exists|j: nat| j < k + 1 && slot_of(c0, j) == s) by {
                    if s == i {
                        assert(slot_of(c0, k) == s);
                    } else {
                        if exists|j: nat| j < k + 1 && slot_of(c0, j) == s {
                            let j = choose|j: nat| j < k + 1 && slot_of(c0, j) == s;
                            assert(j < k);
                        }
                    }
                }
                assert((k + 1) * STAGE_CHUNK == k * STAGE_CHUNK + STAGE_CHUNK) by (nonlinear_arith);
                k = k + 1;
            }
            self.cursor = self.cursor + 1;
            off = off + n;
        }
        steps
    }
}

proof fn lemma_le_ceil(m: nat, bytes: nat)
    requires
        m * STAGE_CHUNK <= bytes + STAGE_CHUNK - 1,
    ensures
        m <= ceil_div(bytes, STAGE_CHUNK as nat),
{
    assert(m <= ((bytes + STAGE_CHUNK - 1) / (STAGE_CHUNK as int))) by (nonlinear_arith)
        requires
            m * STAGE_CHUNK <= bytes + STAGE_CHUNK - 1,
    ;
}

/// A staged copy never overwrites a slot whose transfer may be in flight:
/// whenever a chunk reuses a slot used by an earlier chunk of the same copy,
/// or one armed before the copy began, it waits first.
pub proof fn lemma_staging_waits_before_reuse(bytes: nat, c: nat, armed: Seq<bool>, j: nat, k: nat)
    requires
        j < k,
        slot_of(c, j) == slot_of(c, k),
    ensures
        spec_stage_step(bytes, c, armed, k).wait_first,
{
    assert(slot_reused_before(c, k));
}

/// The chunks of a staged copy tile the source exactly: each starts where the
/// previous one ended, and the last ends at `bytes`.
pub proof fn lemma_staged_chunks_tile(bytes: nat, c: nat, armed: Seq<bool>, k: nat)
    requires
        k * STAGE_CHUNK < bytes,
        bytes <= usize::MAX,
    ensures
        spec_stage_step(bytes, c, armed, k).offset + spec_stage_step(bytes, c, armed, k).len
            == if (k + 1) * STAGE_CHUNK < bytes { (k + 1) * STAGE_CHUNK } else { bytes as int },
        spec_stage_step(bytes, c, armed, k).len > 0,
{
    assert((k + 1) * STAGE_CHUNK == k * STAGE_CHUNK + STAGE_CHUNK) by (nonlinear_arith);
}


// ── Wide host copies ───────────────────────────────────────────────────────

/// `x` rounded up to a whole number of 4 KiB pages.
pub open spec fn page_round_up(x: nat) -> nat {
    ((x + 4095) / 4096) * 4096
}

/// How a host `memcpy` of `len` bytes is split: each job `(offset, len)` goes
/// to a helper thread, the submitting thread copies `[rest_offset, len)`.
#[derive(Debug)]
pub struct WideCopyPlan {
    pub jobs: Vec<(usize, usize)>,
    pub rest_offset: usize,
}

/// Split a host copy of `len` bytes across `workers` helper threads. Small
/// copies, or no helpers, stay on the calling thread. Otherwise each helper
/// takes a page-aligned slice of `len / (workers + 1)` bytes rounded up to a
/// page, as long as a remainder is left for the calling thread.
pub fn plan_wide_copy(len: usize, workers: usize) -> (p: WideCopyPlan)
    requires
        len <= usize::MAX / 2,
        workers < usize::MAX,
    ensures
        (workers == 0 || len < PARALLEL_MEMCPY_MIN) ==> p.jobs@.len() == 0 && p.rest_offset == 0,
        !(workers == 0 || len < PARALLEL_MEMCPY_MIN) ==> {
            let step = page_round_up(len as nat / (workers as nat + 1));
            &&& p.jobs@.len() <= workers
            &&& forall|k: int| 0 <= k < p.jobs@.len() ==> #[trigger] p.jobs@[k] == ((k * step) as usize, step as usize)
            &&& p.jobs@.len() == 0 || p.jobs@.len() * step < len
            &&& p.jobs@.len() == workers || (p.jobs@.len() + 1) * step >= len
            &&& p.rest_offset == p.jobs@.len() * step
        },
{
    let mut jobs: Vec<(usize, usize)> = Vec::new();
    if workers == 0 || len < PARALLEL_MEMCPY_MIN {
        return WideCopyPlan { jobs, rest_offset: 0 };
    }
    let parts = workers + 1;
    let q = len / parts;
    assert(2 * q <= len) by (nonlinear_arith)
        requires
            parts >= 2,
            q == len / parts,
    ;
    let qq = q + 4095;
    let step = qq & !4095usize;
    assert(step == (qq / 4096) * 4096) by (bit_vector)
        requires
            step == qq & !4095usize,
    ;
    let ghost st: nat = page_round_up(len as nat / (workers as nat + 1));
    assert(step == st);
    let mut off: usize = 0;
    let mut w: usize = 0;
    while w < workers
        invariant
            parts == workers + 1,
            step == st,
            2 * step <= len + 8192,
            len <= usize::MAX / 2,
            w <= workers,
            jobs@.len() == w,
            off == w * step,
            w == 0 || off < len,
            forall|k: int| 0 <= k < w ==> #[trigger] jobs@[k] == ((k * step) as usize, step as usize),
        ensures
            w == workers || off + step >= len,
        decreases workers - w,
    {
        if off + step >= len {
            break;
        }
        jobs.push((off, step));
        proof {
            assert((w + 1) * step == w * step + step) by (nonlinear_arith);
        }
        off = off + step;
        w = w + 1;
    }
    proof {
        assert((w + 1) * step == w * step + step) by (nonlinear_arith);
    }
    WideCopyPlan { jobs, rest_offset: off }
}

/// The pieces of a wide copy tile the buffer: helper slices are consecutive
/// from offset zero and the caller's remainder starts where they end, inside
/// the buffer.
pub proof fn lemma_wide_copy_tiles(len: nat, step: nat, m: nat, k: nat)
    requires
        m == 0 || m * step < len,
        k < m,
    ensures
        k * step + step <= m * step,
        m * step <= len,
{
    assert(k * step + step <= m * step) by (nonlinear_arith)
        requires
            k < m,
    ;
}

/// Helper threads of the wide-copy pool: one fewer than the available
/// parallelism, at most three, and none when it cannot be queried.
pub fn extra_copy_workers(available: Option<usize>) -> (n: usize)
    ensures
        n == match available {
            Some(a) => if a == 0 { 0 } else if a - 1 < 3 { (a - 1) as int } else { 3 },
            None => 0,
        },
{
    match available {
        Some(a) => if a == 0 { 0 } else if a - 1 < 3 { a - 1 } else { 3 },
        None => 0,
    }
}

} // verus!
