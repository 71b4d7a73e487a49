//! Drop-in shapes for callers used to other CUDA crates: a PTX image
//! wrapper, a compile error, graph-capture modes, collective reduction
//! operators, FFT plan keys, autotuner keys and the driver's virtual-memory
//! capability check.

use vstd::prelude::*;
use vstd::string::{StrSliceExecFns, StringSliceAdditionalSpecFns};
use vstd::utf8::{encode_utf8, decode_utf8, valid_utf8, encode_utf8_valid_utf8, encode_utf8_decode_utf8};
use crate::text::{utf8_lossy, utf8_lossy_text};

verus! {

/// An already-compiled PTX image, NUL-terminated.
#[derive(Clone, Debug)]
pub struct Ptx {
    pub ptx: Vec<u8>,
}

/// `bytes` with a NUL appended unless it already ends in one.
pub open spec fn nul_terminated(bytes: Seq<u8>) -> Seq<u8> {
    if bytes.len() > 0 && bytes.last() == 0 {
        bytes
    } else {
        bytes.push(0)
    }
}

/// Length of `bytes` without its trailing NULs.
pub open spec fn trimmed_len(bytes: Seq<u8>) -> int
    decreases bytes.len(),
{
    if bytes.len() > 0 && bytes.last() == 0 {
        trimmed_len(bytes.drop_last())
    } else {
        bytes.len() as int
    }
}

impl Ptx {
    /// Wrap PTX text (no compilation): its UTF-8 bytes, NUL-terminated.
    pub fn from_src(src: &str) -> (p: Self)
        requires
            src.spec_bytes().len() < usize::MAX,
        ensures
            p.ptx@ == nul_terminated(src.spec_bytes()),
    {
        let mut bytes = src_bytes(src);
        let n = bytes.len();
        if !(n > 0 && bytes[n - 1] == 0) {
            bytes.push(0);
        }
        Ptx { ptx: bytes }
    }

    /// The PTX text, trailing NULs removed, invalid UTF-8 replaced.
    pub fn to_src(&self) -> (s: String)
        ensures
            s@ == utf8_lossy_text(self.ptx@.subrange(0, trimmed_len(self.ptx@))),
            valid_utf8(self.ptx@.subrange(0, trimmed_len(self.ptx@))) ==> s@ == decode_utf8(
                self.ptx@.subrange(0, trimmed_len(self.ptx@)),
            ),
    {
        let mut end = self.ptx.len();
        proof {
            assert(self.ptx@.subrange(0, end as int) =~= self.ptx@);
        }
        while end > 0 && self.ptx[end - 1] == 0
            invariant
                end <= self.ptx@.len(),
                trimmed_len(self.ptx@) == trimmed_len(self.ptx@.subrange(0, end as int)),
            decreases end,
        {
            proof {
                assert(self.ptx@.subrange(0, end as int).drop_last() =~= self.ptx@.subrange(0, end - 1));
            }
            end = end - 1;
        }
        let prefix = vstd::slice::slice_subrange(self.ptx.as_slice(), 0, end);
        proof {
            assert(trimmed_len(self.ptx@.subrange(0, end as int)) == end);
            assert(prefix@ =~= self.ptx@.subrange(0, trimmed_len(self.ptx@)));
        }
        utf8_lossy(prefix)
    }
}

/// Wrapping PTX text and reading it back gives the text again: the image
/// `from_src` builds, with its trailing NULs removed as `to_src` removes
/// them, is exactly the text's UTF-8 encoding, which is valid and decodes
/// to the text. This holds of every text whose encoding does not already end
/// in a NUL (such a NUL would be stripped too).
pub proof fn lemma_ptx_round_trip(text: Seq<char>)
    requires
        encode_utf8(text).len() == 0 || encode_utf8(text).last() != 0,
    ensures
        ({
            let img = nul_terminated(encode_utf8(text));
            img.subrange(0, trimmed_len(img)) == encode_utf8(text)
        }),
        valid_utf8(encode_utf8(text)),
        decode_utf8(encode_utf8(text)) == text,
{
    let b = encode_utf8(text);
    let img = nul_terminated(b);
    assert(img == b.push(0));
    assert(img.drop_last() =~= b);
    assert(trimmed_len(img) == trimmed_len(b));
    assert(trimmed_len(b) == b.len());
    assert(img.subrange(0, b.len() as int) =~= b);
    encode_utf8_valid_utf8(text);
    encode_utf8_decode_utf8(text);
}

fn src_bytes(src: &str) -> (v: Vec<u8>)
    ensures
        v@ == src.spec_bytes(),
{
    src.as_bytes_vec()
}

/// A failed runtime compilation, with the compiler's log.
#[derive(Debug)]
pub struct CompileError(pub String);

/// How a stream capture interacts with other threads' captures.
#[derive(Clone, Copy, PartialEq, Eq, Structural, Debug)]
pub enum CaptureMode {
    Global,
    ThreadLocal,
    Relaxed,
}

/// Reduction operator of a collective.
#[derive(Clone, Copy, PartialEq, Eq, Structural, Debug)]
pub enum ReduceOp {
    Sum,
    Prod,
    Max,
    Min,
    Avg,
}

impl ReduceOp {
    pub open spec fn spec_code(self) -> u32 {
        match self {
            ReduceOp::Sum => 0,
            ReduceOp::Prod => 1,
            ReduceOp::Max => 2,
            ReduceOp::Min => 3,
            ReduceOp::Avg => 4,
        }
    }

    /// The collective library's value of the operator.
    pub fn code(self) -> (c: u32)
        ensures
            c == self.spec_code(),
    {
        match self {
            ReduceOp::Sum => 0,
            ReduceOp::Prod => 1,
            ReduceOp::Max => 2,
            ReduceOp::Min => 3,
            ReduceOp::Avg => 4,
        }
    }
}

/// Key of a cached FFT plan: dimensions, rank, transform type, batch and
/// the stream it runs on.
#[derive(Clone, Copy, PartialEq, Eq, Hash, Debug)]
pub struct PlanKey {
    pub dims: [i32; 3],
    pub rank: u8,
    pub ty: u32,
    pub batch: i32,
    pub stream: usize,
}

/// Key of a one-dimensional plan of `nx` points, `batch` transforms.
pub fn plan_key_1d(nx: i32, ty: u32, batch: i32, stream: usize) -> (k: PlanKey)
    ensures
        k.dims@ == seq![nx, 0i32, 0i32],
        k.rank == 1 && k.ty == ty && k.batch == batch && k.stream == stream,
{
    let k = PlanKey { dims: [nx, 0, 0], rank: 1, ty, batch, stream };
    proof {
        assert(k.dims@ =~= seq![nx, 0i32, 0i32]);
    }
    k
}

/// Key of a two-dimensional plan, one transform.
pub fn plan_key_2d(nx: i32, ny: i32, ty: u32, stream: usize) -> (k: PlanKey)
    ensures
        k.dims@ == seq![nx, ny, 0i32],
        k.rank == 2 && k.ty == ty && k.batch == 1 && k.stream == stream,
{
    let k = PlanKey { dims: [nx, ny, 0], rank: 2, ty, batch: 1, stream };
    proof {
        assert(k.dims@ =~= seq![nx, ny, 0i32]);
    }
    k
}

/// Key of a three-dimensional plan, one transform.
pub fn plan_key_3d(nx: i32, ny: i32, nz: i32, ty: u32, stream: usize) -> (k: PlanKey)
    ensures
        k.dims@ == seq![nx, ny, nz],
        k.rank == 3 && k.ty == ty && k.batch == 1 && k.stream == stream,
{
    let k = PlanKey { dims: [nx, ny, nz], rank: 3, ty, batch: 1, stream };
    proof {
        assert(k.dims@ =~= seq![nx, ny, nz]);
    }
    k
}

/// Autotuner key of a matrix multiply: `(M, N, K, dtype)`.
#[derive(Clone, Copy, PartialEq, Eq, Structural, Hash, Debug)]
pub struct GemmKey {
    pub m: u32,
    pub n: u32,
    pub k: u32,
    pub dtype: u8,
}

/// The driver supports virtual memory management when it was loaded and
/// exports both `cuMemCreate` and `cuMemMap`.
pub fn vmm_is_supported(loaded: bool, has_mem_create: bool, has_mem_map: bool) -> (b: bool)
    ensures
        b == (loaded && has_mem_create && has_mem_map),
{
    loaded && has_mem_create && has_mem_map
}

} // verus!
