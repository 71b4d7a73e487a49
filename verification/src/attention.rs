//! Attention planning: shape arithmetic, strategy recommendation, and the
//! cuDNN operation graph of the fused flash-attention forward pass.

use vstd::prelude::*;
use crate::types::{Capability, CoreError, DType, FlashVariant, Strategy, FLASH_ATTN, FP8_E4M3};
use crate::text::{decimal, push_decimal, push_str, push_char};

verus! {

/// Shape and options of one attention call. The softmax scale is carried as
/// the bit pattern of an IEEE `f32`.
#[derive(Clone, Copy, Debug)]
pub struct AttentionParams {
    pub batch: u32,
    pub heads: u32,
    pub seq_q: u32,
    pub seq_k: u32,
    pub head_dim: u32,
    pub dtype: DType,
    pub causal: bool,
    pub softmax_scale_bits: u32,
}

impl AttentionParams {
    /// Elements of Q, K and V together, assuming `seq_k == seq_q`.
    pub open spec fn spec_elements_qkv(&self) -> nat {
        3 * self.batch as nat * self.heads as nat * self.seq_q as nat * self.head_dim as nat
    }

    /// FLOPs of the two matrix products: `4 B H Sq Sk D`.
    pub open spec fn spec_flops(&self) -> nat {
        4 * self.batch as nat * self.heads as nat * self.seq_q as nat * self.seq_k as nat
            * self.head_dim as nat
    }

    /// Elements of Q, K and V; the product is taken left to right, so every
    /// partial product must fit in `u64`.
    pub fn elements_qkv(&self) -> (r: u64)
        requires
            3 * self.batch <= u64::MAX,
            3 * self.batch * self.heads <= u64::MAX,
            3 * self.batch * self.heads * self.seq_q <= u64::MAX,
            3 * self.batch * self.heads * self.seq_q * self.head_dim <= u64::MAX,
        ensures
            r == self.spec_elements_qkv(),
    {
        let b = self.batch as u64;
        let h = self.heads as u64;
        let s = self.seq_q as u64;
        let d = self.head_dim as u64;
        let x1 = 3 * b;
        let x2 = x1 * h;
        let x3 = x2 * s;
        x3 * d
    }

    /// FLOPs of the two matrix products, taken left to right like
    /// `elements_qkv`.
    pub fn flops(&self) -> (r: u64)
        requires
            4 * self.batch * self.heads <= u64::MAX,
            4 * self.batch * self.heads * self.seq_q <= u64::MAX,
            4 * self.batch * self.heads * self.seq_q * self.seq_k <= u64::MAX,
            4 * self.batch * self.heads * self.seq_q * self.seq_k * self.head_dim <= u64::MAX,
        ensures
            r == self.spec_flops(),
    {
        let b = self.batch as u64;
        let h = self.heads as u64;
        let q = self.seq_q as u64;
        let k = self.seq_k as u64;
        let d = self.head_dim as u64;
        let x1 = 4 * b;
        let x2 = x1 * h;
        let x3 = x2 * q;
        let x4 = x3 * k;
        x4 * d
    }
}

/// `Debug` name of an element type.
pub open spec fn dtype_name(d: DType) -> Seq<char> {
    match d {
        DType::F64 => "F64"@,
        DType::F32 => "F32"@,
        DType::F16 => "F16"@,
        DType::Bf16 => "Bf16"@,
        DType::F8E4M3 => "F8E4M3"@,
        DType::F8E5M2 => "F8E5M2"@,
        DType::I64 => "I64"@,
        DType::I32 => "I32"@,
        DType::I8 => "I8"@,
        DType::U8 => "U8"@,
    }
}

pub fn dtype_name_str(d: DType) -> (s: &'static str)
    ensures
        s@ == dtype_name(d),
{
    match d {
        DType::F64 => "F64",
        DType::F32 => "F32",
        DType::F16 => "F16",
        DType::Bf16 => "Bf16",
        DType::F8E4M3 => "F8E4M3",
        DType::F8E5M2 => "F8E5M2",
        DType::I64 => "I64",
        DType::I32 => "I32",
        DType::I8 => "I8",
        DType::U8 => "U8",
    }
}

/// Signature of the JIT fallback for an attention shape.
pub open spec fn triton_signature(p: AttentionParams) -> Seq<char> {
    "attention:"@ + dtype_name(p.dtype) + seq![':'] + decimal(p.heads as nat) + seq!['x']
        + decimal(p.seq_q as nat) + seq!['x'] + decimal(p.head_dim as nat) + seq![':']
        + (if p.causal { "causal"@ } else { "full"@ })
}

pub open spec fn v3_dtype(d: DType) -> bool {
    d == DType::Bf16 || d == DType::F16 || d == DType::F8E4M3 || d == DType::F8E5M2
}

pub open spec fn v2_dtype(d: DType) -> bool {
    d == DType::Bf16 || d == DType::F16
}

/// The recommended attention strategy: flash attention v3 on FP8-capable
/// flash hardware for head dims up to 256, v2 on flash hardware for 16-bit
/// types and head dims up to 128, the GQA kernel for other 16-bit cases, and
/// a JIT kernel otherwise.
pub open spec fn recommended_strategy(cap: Capability, p: AttentionParams, r: Strategy) -> bool {
    let flash = cap.flags.has(FLASH_ATTN);
    let fp8 = cap.flags.has(FP8_E4M3);
    if flash && fp8 && v3_dtype(p.dtype) && p.head_dim <= 256 {
        r matches Strategy::FusedAttention { variant } && variant == FlashVariant::V3
    } else if flash && v2_dtype(p.dtype) && p.head_dim <= 128 {
        r matches Strategy::FusedAttention { variant } && variant == FlashVariant::V2
    } else if v2_dtype(p.dtype) {
        r matches Strategy::FusedAttention { variant } && variant == FlashVariant::Gqa
    } else {
        r matches Strategy::TritonJit { signature } && signature@ == triton_signature(p)
    }
}

/// The recommendation rules, by dtype and head dimension:
/// - FP8-capable flash hardware runs every 16-bit or FP8 type with head dims
///   up to 256 on flash attention v3;
/// - flash hardware without FP8 runs BF16 and FP16 with head dims up to 128
///   on v2;
/// - BF16 and FP16 otherwise go to the GQA kernel, never to Triton;
/// - every other type (FP32, FP64, integers) goes to Triton, as do FP8 types
///   that are not on FP8-capable flash hardware with head dims up to 256.
pub proof fn lemma_recommendation_rules(cap: Capability, p: AttentionParams, r: Strategy)
    requires
        recommended_strategy(cap, p, r),
    ensures
        cap.flags.has(FLASH_ATTN) && cap.flags.has(FP8_E4M3) && p.head_dim <= 256
            && (p.dtype == DType::Bf16 || p.dtype == DType::F16 || p.dtype == DType::F8E4M3
            || p.dtype == DType::F8E5M2)
            ==> r == (Strategy::FusedAttention { variant: FlashVariant::V3 }),
        cap.flags.has(FLASH_ATTN) && !cap.flags.has(FP8_E4M3) && p.head_dim <= 128
            && (p.dtype == DType::Bf16 || p.dtype == DType::F16)
            ==> r == (Strategy::FusedAttention { variant: FlashVariant::V2 }),
        !cap.flags.has(FLASH_ATTN) && (p.dtype == DType::Bf16 || p.dtype == DType::F16)
            ==> r == (Strategy::FusedAttention { variant: FlashVariant::Gqa }),
        cap.flags.has(FLASH_ATTN) && p.head_dim > 256 && (p.dtype == DType::Bf16 || p.dtype == DType::F16)
            ==> r == (Strategy::FusedAttention { variant: FlashVariant::Gqa }),
        (p.dtype == DType::F32 || p.dtype == DType::F64 || p.dtype == DType::I64 || p.dtype == DType::I32
            || p.dtype == DType::I8 || p.dtype == DType::U8) ==> (r is TritonJit),
        (p.dtype == DType::F8E4M3 || p.dtype == DType::F8E5M2) && !(cap.flags.has(FLASH_ATTN)
            && cap.flags.has(FP8_E4M3) && p.head_dim <= 256) ==> (r is TritonJit),
        (p.dtype == DType::Bf16 || p.dtype == DType::F16) ==> (r is FusedAttention),
{
}

/// Recommend an attention strategy for a device with capability `cap`.
pub fn recommend(cap: &Capability, p: &AttentionParams) -> (r: Result<Strategy, CoreError>)
    ensures
        r matches Ok(s) && recommended_strategy(*cap, *p, s),
{
    let flash = cap.flags.contains(FLASH_ATTN);
    let fp8 = cap.flags.contains(FP8_E4M3);
    let ok_v3 = match p.dtype {
        DType::Bf16 | DType::F16 | DType::F8E4M3 | DType::F8E5M2 => true,
        _ => false,
    };
    let ok_v2 = match p.dtype {
        DType::Bf16 | DType::F16 => true,
        _ => false,
    };
    if flash && fp8 && ok_v3 && p.head_dim <= 256 {
        return Ok(Strategy::FusedAttention { variant: FlashVariant::V3 });
    }
    if flash && ok_v2 && p.head_dim <= 128 {
        return Ok(Strategy::FusedAttention { variant: FlashVariant::V2 });
    }
    if ok_v2 {
        return Ok(Strategy::FusedAttention { variant: FlashVariant::Gqa });
    }
    let mut s = String::new();
    push_str(&mut s, "attention:");
    push_str(&mut s, dtype_name_str(p.dtype));
    push_char(&mut s, ':');
    push_decimal(&mut s, p.heads as u64);
    push_char(&mut s, 'x');
    push_decimal(&mut s, p.seq_q as u64);
    push_char(&mut s, 'x');
    push_decimal(&mut s, p.head_dim as u64);
    push_char(&mut s, ':');
    if p.causal {
        push_str(&mut s, "causal");
    } else {
        push_str(&mut s, "full");
    }
    proof {
        assert(s@ =~= triton_signature(*p));
    }
    Ok(Strategy::TritonJit { signature: s })
}

// ── Fused flash-attention forward graph ────────────────────────────────────

/// cuDNN element types.
#[derive(Clone, Copy, PartialEq, Eq, Structural, Debug)]
pub enum CudnnDType {
    Float,
    Half,
    Bfloat16,
    Fp8E4M3,
    Fp8E5M2,
}

/// cuDNN type of an attention operand; only floating types have one.
pub open spec fn cudnn_dtype(d: DType) -> Option<CudnnDType> {
    match d {
        DType::F16 => Some(CudnnDType::Half),
        DType::Bf16 => Some(CudnnDType::Bfloat16),
        DType::F32 => Some(CudnnDType::Float),
        DType::F8E4M3 => Some(CudnnDType::Fp8E4M3),
        DType::F8E5M2 => Some(CudnnDType::Fp8E5M2),
        _ => None,
    }
}

/// cuDNN type of an attention operand; the other types are unsupported.
pub fn dtype_to_cudnn(d: DType) -> (r: Result<CudnnDType, CoreError>)
    ensures
        match cudnn_dtype(d) {
            Some(c) => r matches Ok(x) && x == c,
            None => r matches Err(CoreError::Unsupported(m)) && m@
                == "flash_attention: unsupported dtype"@,
        },
{
    match d {
        DType::F16 => Ok(CudnnDType::Half),
        DType::Bf16 => Ok(CudnnDType::Bfloat16),
        DType::F32 => Ok(CudnnDType::Float),
        DType::F8E4M3 => Ok(CudnnDType::Fp8E4M3),
        DType::F8E5M2 => Ok(CudnnDType::Fp8E5M2),
        _ => Err(CoreError::Unsupported("flash_attention: unsupported dtype")),
    }
}

pub open spec fn i64_range(x: int) -> bool {
    i64::MIN <= x <= i64::MAX
}

/// Dimensions and packed strides of a `[B, H, S, D]` tensor.
pub fn bhsd(b: i64, h: i64, s: i64, d: i64) -> (r: ([i64; 4], [i64; 4]))
    requires
        i64_range(h * s),
        i64_range(h * s * d),
        i64_range(s * d),
    ensures
        r.0@ == seq![b, h, s, d],
        r.1@ == seq![(h * s * d) as i64, (s * d) as i64, d, 1i64],
{
    let dims = [b, h, s, d];
    let strides = [h * s * d, s * d, d, 1];
    proof {
        assert(dims@ =~= seq![b, h, s, d]);
        assert(strides@ =~= seq![(h * s * d) as i64, (s * d) as i64, d, 1i64]);
    }
    (dims, strides)
}

/// Dimensions and strides of K viewed as `[B, H, D, Sk]` over its packed
/// `[B, H, Sk, D]` storage.
pub fn bhsd_transposed(b: i64, h: i64, s_k: i64, d: i64) -> (r: ([i64; 4], [i64; 4]))
    requires
        i64_range(h * s_k),
        i64_range(h * s_k * d),
        i64_range(s_k * d),
    ensures
        r.0@ == seq![b, h, d, s_k],
        r.1@ == seq![(h * s_k * d) as i64, (s_k * d) as i64, 1i64, d],
{
    let dims = [b, h, d, s_k];
    let strides = [h * s_k * d, s_k * d, 1, d];
    proof {
        assert(dims@ =~= seq![b, h, d, s_k]);
        assert(strides@ =~= seq![(h * s_k * d) as i64, (s_k * d) as i64, 1i64, d]);
    }
    (dims, strides)
}

} // verus!

verus! {

/// Unique ids of the graph tensors; the four user-visible ones are bound to
/// device pointers at execution time.
pub const UID_Q: i64 = 1;
pub const UID_K: i64 = 2;
pub const UID_V: i64 = 3;
pub const UID_O: i64 = 4;
pub const UID_S: i64 = 100;
pub const UID_S_SCALED: i64 = 101;
pub const UID_ROW_MAX: i64 = 102;
pub const UID_SHIFTED: i64 = 103;
pub const UID_EXP: i64 = 104;
pub const UID_ROW_SUM: i64 = 105;
pub const UID_P: i64 = 106;

/// Byte alignment declared for every tensor.
pub const BYTE_ALIGN: i64 = 16;

/// One tensor descriptor of the graph.
#[derive(Clone, Copy, Debug)]
pub struct TensorSpec {
    pub uid: i64,
    pub dtype: CudnnDType,
    pub dims: [i64; 4],
    pub strides: [i64; 4],
    pub is_virtual: bool,
}

/// One operation of the graph, naming its operands by uid.
#[derive(Clone, Copy, PartialEq, Eq, Structural, Debug)]
pub enum GraphOp {
    /// `c = a @ b`, accumulated in `compute`.
    Matmul { a: i64, b: i64, c: i64, compute: CudnnDType },
    /// `y = softmax_scale * x`.
    Scale { x: i64, y: i64, prec: CudnnDType },
    /// `y = max(x, axis = -1)`.
    ReduceMax { x: i64, y: i64, compute: CudnnDType },
    /// `y = x - b`, broadcasting `b`.
    Sub { x: i64, b: i64, y: i64, prec: CudnnDType },
    /// `y = exp(x)`.
    Exp { x: i64, y: i64, prec: CudnnDType },
    /// `y = sum(x, axis = -1)`.
    ReduceSum { x: i64, y: i64, compute: CudnnDType },
    /// `y = x / b`, broadcasting `b`.
    Div { x: i64, b: i64, y: i64, prec: CudnnDType },
}

/// The scaled-dot-product-attention forward graph for one shape.
#[derive(Debug)]
pub struct SdpaGraph {
    pub dtype: CudnnDType,
    pub compute: CudnnDType,
    pub tensors: Vec<TensorSpec>,
    pub ops: Vec<GraphOp>,
}

pub open spec fn tensor_is(
    t: TensorSpec,
    uid: i64,
    dtype: CudnnDType,
    dims: Seq<i64>,
    strides: Seq<i64>,
    is_virtual: bool,
) -> bool {
    &&& t.uid == uid
    &&& t.dtype == dtype
    &&& t.dims@ == dims
    &&& t.strides@ == strides
    &&& t.is_virtual == is_virtual
}

/// Products the graph's strides are made of; each must fit in `i64`.
pub open spec fn sdpa_shape_fits(p: AttentionParams) -> bool {
    let h = p.heads as int;
    let sq = p.seq_q as int;
    let sk = p.seq_k as int;
    let d = p.head_dim as int;
    &&& i64_range(h * sq) && i64_range(h * sq * d) && i64_range(sq * d)
    &&& i64_range(h * sk) && i64_range(h * sk * d) && i64_range(sk * d)
    &&& i64_range(h * sq * sk) && i64_range(sq * sk)
}

/// The tensors of the graph, in declaration order.
pub open spec fn sdpa_tensors_ok(ts: Seq<TensorSpec>, p: AttentionParams, dt: CudnnDType) -> bool {
    let b = p.batch as i64;
    let h = p.heads as i64;
    let sq = p.seq_q as i64;
    let sk = p.seq_k as i64;
    let d = p.head_dim as i64;
    let f = CudnnDType::Float;
    let s_dims = seq![b, h, sq, sk];
    let s_str = seq![(h * sq * sk) as i64, (sq * sk) as i64, sk, 1i64];
    let r_dims = seq![b, h, sq, 1i64];
    let r_str = seq![(h * sq) as i64, sq, 1i64, 1i64];
    &&& ts.len() == 11
    &&& tensor_is(ts[0], UID_Q, dt, seq![b, h, sq, d], seq![(h * sq * d) as i64, (sq * d) as i64, d, 1i64], false)
    &&& tensor_is(ts[1], UID_K, dt, seq![b, h, d, sk], seq![(h * sk * d) as i64, (sk * d) as i64, 1i64, d], false)
    &&& tensor_is(ts[2], UID_V, dt, seq![b, h, sk, d], seq![(h * sk * d) as i64, (sk * d) as i64, d, 1i64], false)
    &&& tensor_is(ts[3], UID_O, dt, seq![b, h, sq, d], seq![(h * sq * d) as i64, (sq * d) as i64, d, 1i64], false)
    &&& tensor_is(ts[4], UID_S, f, s_dims, s_str, true)
    &&& tensor_is(ts[5], UID_S_SCALED, f, s_dims, s_str, true)
    &&& tensor_is(ts[6], UID_ROW_MAX, f, r_dims, r_str, true)
    &&& tensor_is(ts[7], UID_ROW_SUM, f, r_dims, r_str, true)
    &&& tensor_is(ts[8], UID_SHIFTED, f, s_dims, s_str, true)
    &&& tensor_is(ts[9], UID_EXP, f, s_dims, s_str, true)
    &&& tensor_is(ts[10], UID_P, dt, s_dims, s_str, true)
}

/// The operations of the graph, in execution order.
pub open spec fn sdpa_ops(dt: CudnnDType) -> Seq<GraphOp> {
    let f = CudnnDType::Float;
    seq![
        GraphOp::Matmul { a: UID_Q, b: UID_K, c: UID_S, compute: f },
        GraphOp::Scale { x: UID_S, y: UID_S_SCALED, prec: f },
        GraphOp::ReduceMax { x: UID_S_SCALED, y: UID_ROW_MAX, compute: f },
        GraphOp::Sub { x: UID_S_SCALED, b: UID_ROW_MAX, y: UID_SHIFTED, prec: f },
        GraphOp::Exp { x: UID_SHIFTED, y: UID_EXP, prec: f },
        GraphOp::ReduceSum { x: UID_EXP, y: UID_ROW_SUM, compute: f },
        GraphOp::Div { x: UID_EXP, b: UID_ROW_SUM, y: UID_P, prec: dt },
        GraphOp::Matmul { a: UID_P, b: UID_V, c: UID_O, compute: f },
    ]
}

fn tensor(uid: i64, dtype: CudnnDType, dims: [i64; 4], strides: [i64; 4], is_virtual: bool) -> (t:
    TensorSpec)
    ensures
        tensor_is(t, uid, dtype, dims@, strides@, is_virtual),
{
    TensorSpec { uid, dtype, dims, strides, is_virtual }
}

/// Describe the forward SDPA graph for `params`: the tensors with their
/// shapes and strides, and the eight operations that compute
/// `O = softmax(scale * Q K^T) V`. Fails for non-floating element types.
pub fn sdpa_graph(params: &AttentionParams) -> (r: Result<SdpaGraph, CoreError>)
    requires
        cudnn_dtype(params.dtype) is Some ==> sdpa_shape_fits(*params),
    ensures
        match cudnn_dtype(params.dtype) {
            Some(dt) => r matches Ok(g) && g.dtype == dt && g.compute == CudnnDType::Float
                && sdpa_tensors_ok(g.tensors@, *params, dt) && g.ops@ == sdpa_ops(dt),
            None => r matches Err(CoreError::Unsupported(m)) && m@
                == "flash_attention: unsupported dtype"@,
        },
{
    let dt = match dtype_to_cudnn(params.dtype) {
        Ok(d) => d,
        Err(e) => return Err(e),
    };
    let f = CudnnDType::Float;
    let b = params.batch as i64;
    let h = params.heads as i64;
    let sq = params.seq_q as i64;
    let sk = params.seq_k as i64;
    let d = params.head_dim as i64;

    let (q_dims, q_str) = bhsd(b, h, sq, d);
    let (k_dims, k_str) = bhsd_transposed(b, h, sk, d);
    let (v_dims, v_str) = bhsd(b, h, sk, d);
    let (o_dims, o_str) = bhsd(b, h, sq, d);
    let s_dims = [b, h, sq, sk];
    let s_str = [h * sq * sk, sq * sk, sk, 1];
    let r_dims = [b, h, sq, 1];
    let r_str = [h * sq, sq, 1, 1];

    let mut tensors: Vec<TensorSpec> = Vec::new();
    tensors.push(tensor(UID_Q, dt, q_dims, q_str, false));
    tensors.push(tensor(UID_K, dt, k_dims, k_str, false));
    tensors.push(tensor(UID_V, dt, v_dims, v_str, false));
    tensors.push(tensor(UID_O, dt, o_dims, o_str, false));
    tensors.push(tensor(UID_S, f, s_dims, s_str, true));
    tensors.push(tensor(UID_S_SCALED, f, s_dims, s_str, true));
    tensors.push(tensor(UID_ROW_MAX, f, r_dims, r_str, true));
    tensors.push(tensor(UID_ROW_SUM, f, r_dims, r_str, true));
    tensors.push(tensor(UID_SHIFTED, f, s_dims, s_str, true));
    tensors.push(tensor(UID_EXP, f, s_dims, s_str, true));
    tensors.push(tensor(UID_P, dt, s_dims, s_str, true));

    let ops = vec![
        GraphOp::Matmul { a: UID_Q, b: UID_K, c: UID_S, compute: f },
        GraphOp::Scale { x: UID_S, y: UID_S_SCALED, prec: f },
        GraphOp::ReduceMax { x: UID_S_SCALED, y: UID_ROW_MAX, compute: f },
        GraphOp::Sub { x: UID_S_SCALED, b: UID_ROW_MAX, y: UID_SHIFTED, prec: f },
        GraphOp::Exp { x: UID_SHIFTED, y: UID_EXP, prec: f },
        GraphOp::ReduceSum { x: UID_EXP, y: UID_ROW_SUM, compute: f },
        GraphOp::Div { x: UID_EXP, b: UID_ROW_SUM, y: UID_P, prec: dt },
        GraphOp::Matmul { a: UID_P, b: UID_V, c: UID_O, compute: f },
    ];
    proof {
        assert(s_dims@ =~= seq![b, h, sq, sk]);
        assert(s_str@ =~= seq![(h * sq * sk) as i64, (sq * sk) as i64, sk, 1i64]);
        assert(r_dims@ =~= seq![b, h, sq, 1i64]);
        assert(r_str@ =~= seq![(h * sq) as i64, sq, 1i64, 1i64]);
        assert(ops@ =~= sdpa_ops(dt));
    }
    Ok(SdpaGraph { dtype: dt, compute: f, tensors, ops })
}


/// Tensors an operation reads.
pub open spec fn op_inputs(op: GraphOp) -> Seq<i64> {
    match op {
        GraphOp::Matmul { a, b, .. } => seq![a, b],
        GraphOp::Scale { x, .. } => seq![x],
        GraphOp::ReduceMax { x, .. } => seq![x],
        GraphOp::Sub { x, b, .. } => seq![x, b],
        GraphOp::Exp { x, .. } => seq![x],
        GraphOp::ReduceSum { x, .. } => seq![x],
        GraphOp::Div { x, b, .. } => seq![x, b],
    }
}

/// The tensor an operation writes.
pub open spec fn op_output(op: GraphOp) -> i64 {
    match op {
        GraphOp::Matmul { c, .. } => c,
        GraphOp::Scale { y, .. } => y,
        GraphOp::ReduceMax { y, .. } => y,
        GraphOp::Sub { y, .. } => y,
        GraphOp::Exp { y, .. } => y,
        GraphOp::ReduceSum { y, .. } => y,
        GraphOp::Div { y, .. } => y,
    }
}

/// Whether `uid` names one of the caller-bound inputs Q, K, V.
pub open spec fn is_graph_input(uid: i64) -> bool {
    uid == UID_Q || uid == UID_K || uid == UID_V
}

/// The graph is a dataflow program: tensor ids are distinct, every operand
/// of an operation is a caller input or the output of an earlier operation,
/// every tensor but the inputs is written by exactly one operation, and the
/// only non-virtual tensor written is `O`.
pub open spec fn graph_is_dataflow(ts: Seq<TensorSpec>, ops: Seq<GraphOp>) -> bool {
    &&& forall|i: int, j: int| 0 <= i < j < ts.len() ==> ts[i].uid != ts[j].uid
    &&& forall|i: int, j: int| #![trigger op_inputs(ops[i])[j]]
        0 <= i < ops.len() && 0 <= j < op_inputs(ops[i]).len() ==> {
            let u = op_inputs(ops[i])[j];
            is_graph_input(u) || exists|k: int| 0 <= k < i && op_output(ops[k]) == u
        }
    &&& forall|t: int| 0 <= t < ts.len() && !is_graph_input(ts[t].uid) ==> exists|k: int|
        0 <= k < ops.len() && #[trigger] op_output(ops[k]) == ts[t].uid
    &&& forall|k1: int, k2: int| 0 <= k1 < k2 < ops.len() ==> op_output(ops[k1]) != op_output(ops[k2])
    &&& forall|k: int| 0 <= k < ops.len() ==> exists|t: int| 0 <= t < ts.len()
        && ts[t].uid == #[trigger] op_output(ops[k]) && (!ts[t].is_virtual <==> ts[t].uid == UID_O)
}

proof fn lemma_sdpa_uids_distinct(ts: Seq<TensorSpec>, p: AttentionParams, dt: CudnnDType)
    requires
        sdpa_tensors_ok(ts, p, dt),
    ensures
        forall|i: int, j: int| 0 <= i < j < ts.len() ==> ts[i].uid != ts[j].uid,
{
    let u = seq![UID_Q, UID_K, UID_V, UID_O, UID_S, UID_S_SCALED, UID_ROW_MAX, UID_ROW_SUM,
        UID_SHIFTED, UID_EXP, UID_P];
    assert forall|i: int| 0 <= i < ts.len() implies ts[i].uid == u[i] by {}
}

proof fn lemma_sdpa_reads_after_writes(dt: CudnnDType)
    ensures
        forall|i: int, j: int| #![trigger op_inputs(sdpa_ops(dt)[i])[j]]
            0 <= i < sdpa_ops(dt).len() && 0 <= j < op_inputs(sdpa_ops(dt)[i]).len() ==> {
                let u = op_inputs(sdpa_ops(dt)[i])[j];
                is_graph_input(u) || exists|k: int| 0 <= k < i && op_output(sdpa_ops(dt)[k]) == u
            },
{
    let ops = sdpa_ops(dt);
    assert forall|i: int, j: int| #![trigger op_inputs(ops[i])[j]]
        0 <= i < ops.len() && 0 <= j < op_inputs(ops[i]).len() implies {
            let u = op_inputs(ops[i])[j];
            is_graph_input(u) || exists|k: int| 0 <= k < i && op_output(ops[k]) == u
        } by {
        let u = op_inputs(ops[i])[j];
        if i == 1 {
            assert(op_output(ops[0]) == u);
        } else if i == 2 || (i == 3 && j == 0) {
            assert(op_output(ops[1]) == u);
        } else if i == 3 {
            assert(op_output(ops[2]) == u);
        } else if i == 4 {
            assert(op_output(ops[3]) == u);
        } else if i == 5 || (i == 6 && j == 0) {
            assert(op_output(ops[4]) == u);
        } else if i == 6 {
            assert(op_output(ops[5]) == u);
        } else if i == 7 && j == 0 {
            assert(op_output(ops[6]) == u);
        }
    }
}

proof fn lemma_sdpa_writes(ts: Seq<TensorSpec>, p: AttentionParams, dt: CudnnDType)
    requires
        sdpa_tensors_ok(ts, p, dt),
    ensures
        forall|t: int| 0 <= t < ts.len() && !is_graph_input(ts[t].uid) ==> exists|k: int|
            0 <= k < sdpa_ops(dt).len() && #[trigger] op_output(sdpa_ops(dt)[k]) == ts[t].uid,
        forall|k1: int, k2: int| 0 <= k1 < k2 < sdpa_ops(dt).len() ==> op_output(sdpa_ops(dt)[k1])
            != op_output(sdpa_ops(dt)[k2]),
        forall|k: int| 0 <= k < sdpa_ops(dt).len() ==> exists|t: int| 0 <= t < ts.len()
            && ts[t].uid == #[trigger] op_output(sdpa_ops(dt)[k]) && (!ts[t].is_virtual <==> ts[t].uid
            == UID_O),
{
    let ops = sdpa_ops(dt);
    let w = seq![UID_S, UID_S_SCALED, UID_ROW_MAX, UID_SHIFTED, UID_EXP, UID_ROW_SUM, UID_P, UID_O];
    assert forall|k: int| 0 <= k < ops.len() implies op_output(ops[k]) == w[k] by {}
    assert forall|t: int| 0 <= t < ts.len() && !is_graph_input(ts[t].uid) implies exists|k: int|
        0 <= k < ops.len() && #[trigger] op_output(ops[k]) == ts[t].uid by {
        let k = if t == 3 { 7 } else if t == 4 { 0 } else if t == 5 { 1 } else if t == 6 { 2 }
            else if t == 7 { 5 } else if t == 8 { 3 } else if t == 9 { 4 } else { 6 };
        assert(op_output(ops[k]) == w[k]);
    }
    assert forall|k: int| 0 <= k < ops.len() implies exists|t: int| 0 <= t < ts.len()
        && ts[t].uid == #[trigger] op_output(ops[k]) && (!ts[t].is_virtual <==> ts[t].uid == UID_O) by {
        let t = if k == 0 { 4 } else if k == 1 { 5 } else if k == 2 { 6 } else if k == 3 { 8 }
            else if k == 4 { 9 } else if k == 5 { 7 } else if k == 6 { 10 } else { 3 };
        assert(ts[t].uid == w[k]);
    }
}

/// Every graph that `sdpa_graph` describes is a dataflow program: no
/// operation reads a tensor before it is written and no tensor is written
/// twice.
pub proof fn lemma_sdpa_graph_is_dataflow(ts: Seq<TensorSpec>, p: AttentionParams, dt: CudnnDType)
    requires
        sdpa_tensors_ok(ts, p, dt),
    ensures
        graph_is_dataflow(ts, sdpa_ops(dt)),
{
    lemma_sdpa_uids_distinct(ts, p, dt);
    lemma_sdpa_reads_after_writes(dt);
    lemma_sdpa_writes(ts, p, dt);
}

/// The uids bound to the caller's Q, K, V and O pointers, in binding order.
pub fn variant_pack_uids() -> (r: [i64; 4])
    ensures
        r@ == seq![UID_Q, UID_K, UID_V, UID_O],
{
    let r = [UID_Q, UID_K, UID_V, UID_O];
    proof {
        assert(r@ =~= seq![UID_Q, UID_K, UID_V, UID_O]);
    }
    r
}

/// Accept the number of engine configurations the heuristic returned; with
/// none the shape is unsupported on this device.
pub fn check_engine_count(n: i64) -> (r: Result<(), CoreError>)
    ensures
        n >= 1 <==> r is Ok,
        n < 1 ==> (r matches Err(CoreError::Unsupported(m)) && m@
            == "flash_attention: no heuristic engine found"@),
{
    if n < 1 {
        return Err(CoreError::Unsupported("flash_attention: no heuristic engine found"));
    }
    Ok(())
}

/// Workspace bytes of a plan whose reported size is `ws`: a negative report
/// means none.
pub fn workspace_bytes(ws: i64) -> (r: usize)
    requires
        ws <= usize::MAX,
    ensures
        r == if ws < 0 { 0 } else { ws as int },
{
    if ws < 0 {
        0
    } else {
        ws as usize
    }
}

/// Attribute-type tags of the backend descriptor API.
#[derive(Clone, Copy, PartialEq, Eq, Structural, Debug)]
pub enum AttrType {
    Handle,
    DataType,
    Boolean,
    Int64,
    Float,
    Double,
    VoidPtr,
    ConvMode,
    Heur,
    KnobType,
    NanPropagation,
    NumericalNote,
    LayoutType,
    AttribName,
    PointwiseMode,
    BackendDescriptor,
    GenStats,
    BnFinalizeStatsMode,
    ReductionOperatorType,
    BehaviorNote,
    TensorReorderingMode,
    ResampleMode,
    PaddingMode,
    IntArray,
    NormMode,
    NormFwdPhase,
    RngDistribution,
}

impl AttrType {
    /// The tag's value in the library's enumeration: the position of the
    /// variant, from 0.
    pub open spec fn spec_code(self) -> u32 {
        match self {
            AttrType::Handle => 0,
            AttrType::DataType => 1,
            AttrType::Boolean => 2,
            AttrType::Int64 => 3,
            AttrType::Float => 4,
            AttrType::Double => 5,
            AttrType::VoidPtr => 6,
            AttrType::ConvMode => 7,
            AttrType::Heur => 8,
            AttrType::KnobType => 9,
            AttrType::NanPropagation => 10,
            AttrType::NumericalNote => 11,
            AttrType::LayoutType => 12,
            AttrType::AttribName => 13,
            AttrType::PointwiseMode => 14,
            AttrType::BackendDescriptor => 15,
            AttrType::GenStats => 16,
            AttrType::BnFinalizeStatsMode => 17,
            AttrType::ReductionOperatorType => 18,
            AttrType::BehaviorNote => 19,
            AttrType::TensorReorderingMode => 20,
            AttrType::ResampleMode => 21,
            AttrType::PaddingMode => 22,
            AttrType::IntArray => 23,
            AttrType::NormMode => 24,
            AttrType::NormFwdPhase => 25,
            AttrType::RngDistribution => 26,
        }
    }

    pub fn code(self) -> (c: u32)
        ensures
            c == self.spec_code(),
    {
        match self {
            AttrType::Handle => 0,
            AttrType::DataType => 1,
            AttrType::Boolean => 2,
            AttrType::Int64 => 3,
            AttrType::Float => 4,
            AttrType::Double => 5,
            AttrType::VoidPtr => 6,
            AttrType::ConvMode => 7,
            AttrType::Heur => 8,
            AttrType::KnobType => 9,
            AttrType::NanPropagation => 10,
            AttrType::NumericalNote => 11,
            AttrType::LayoutType => 12,
            AttrType::AttribName => 13,
            AttrType::PointwiseMode => 14,
            AttrType::BackendDescriptor => 15,
            AttrType::GenStats => 16,
            AttrType::BnFinalizeStatsMode => 17,
            AttrType::ReductionOperatorType => 18,
            AttrType::BehaviorNote => 19,
            AttrType::TensorReorderingMode => 20,
            AttrType::ResampleMode => 21,
            AttrType::PaddingMode => 22,
            AttrType::IntArray => 23,
            AttrType::NormMode => 24,
            AttrType::NormFwdPhase => 25,
            AttrType::RngDistribution => 26,
        }
    }
}

} // verus!
