//! Mixture-of-experts forward pass: parameter checks, scratch sizing, kernel
//! selection and the launch plan, including the per-expert GEMM schedule
//! derived from the routed token offsets.

use vstd::prelude::*;
use crate::types::CoreError;
use crate::blas::{CudaDataType, LayoutSpec, Order};
use crate::launch::{LaunchCfg, ceil_div};
use crate::kernel::CompileOptions;
use crate::text::push_str;

verus! {

/// Element type of expert activations.
#[derive(Clone, Copy, PartialEq, Eq, Structural, Debug)]
pub enum MoeDType {
    F16,
    Bf16,
}

impl MoeDType {
    /// Bytes per element.
    pub fn bytes(self) -> (n: usize)
        ensures
            n == 2,
    {
        2
    }

    pub open spec fn spec_cublas(self) -> CudaDataType {
        match self {
            MoeDType::F16 => CudaDataType::R16F,
            MoeDType::Bf16 => CudaDataType::R16BF,
        }
    }

    /// Matrix-multiply element type.
    pub fn cublas(self) -> (t: CudaDataType)
        ensures
            t == self.spec_cublas(),
    {
        match self {
            MoeDType::F16 => CudaDataType::R16F,
            MoeDType::Bf16 => CudaDataType::R16BF,
        }
    }

    pub open spec fn spec_suffix(self) -> Seq<char> {
        match self {
            MoeDType::F16 => "f16"@,
            MoeDType::Bf16 => "bf16"@,
        }
    }

    /// Suffix of the kernel instantiations for this type.
    pub fn suffix(self) -> (s: &'static str)
        ensures
            s@ == self.spec_suffix(),
    {
        match self {
            MoeDType::F16 => "f16",
            MoeDType::Bf16 => "bf16",
        }
    }
}

/// Expert activation function.
#[derive(Clone, Copy, PartialEq, Eq, Structural, Debug)]
pub enum MoeActivation {
    Silu,
}

/// Static MoE shape.
#[derive(Clone, Copy, PartialEq, Eq, Structural, Debug)]
pub struct MoeParams {
    pub num_tokens: u32,
    pub hidden: u32,
    pub inter: u32,
    pub num_experts: u32,
    pub top_k: u32,
    pub dtype: MoeDType,
    pub activation: MoeActivation,
}

/// Largest top-k the routing kernel supports.
pub const MAX_TOP_K: u32 = 8;

impl MoeParams {
    /// Whether the routing and expert shapes are usable.
    pub open spec fn spec_valid(self) -> bool {
        &&& self.num_experts != 0 && self.top_k != 0 && self.top_k <= self.num_experts
        &&& self.top_k <= MAX_TOP_K
        &&& self.hidden != 0 && self.inter != 0
    }

    /// Check the shape: at least one expert, `1 <= top_k <= num_experts`,
    /// `top_k <= 8`, and non-zero hidden and intermediate sizes, in that
    /// order.
    pub fn validate(&self) -> (r: Result<(), CoreError>)
        ensures
            r is Ok <==> self.spec_valid(),
            (self.num_experts == 0 || self.top_k == 0 || self.top_k > self.num_experts) ==> (r matches Err(
                CoreError::InvalidArgument(m)) && m@ == "MoE: invalid num_experts / top_k"@),
            !(self.num_experts == 0 || self.top_k == 0 || self.top_k > self.num_experts) && self.top_k
                > MAX_TOP_K ==> (r matches Err(CoreError::InvalidArgument(m)) && m@
                == "MoE: top_k > 8 not supported by the topk kernel"@),
            !(self.num_experts == 0 || self.top_k == 0 || self.top_k > self.num_experts) && self.top_k
                <= MAX_TOP_K && (self.hidden == 0 || self.inter == 0) ==> (r matches Err(
                CoreError::InvalidArgument(m)) && m@ == "MoE: hidden and inter must be non-zero"@),
    {
        if self.num_experts == 0 || self.top_k == 0 || self.top_k > self.num_experts {
            return Err(CoreError::InvalidArgument("MoE: invalid num_experts / top_k"));
        }
        if self.top_k > MAX_TOP_K {
            return Err(CoreError::InvalidArgument("MoE: top_k > 8 not supported by the topk kernel"));
        }
        if self.hidden == 0 || self.inter == 0 {
            return Err(CoreError::InvalidArgument("MoE: hidden and inter must be non-zero"));
        }
        Ok(())
    }

    /// Routed rows: `num_tokens * top_k`.
    pub open spec fn spec_rows(self) -> nat {
        self.num_tokens as nat * self.top_k as nat
    }
}

/// Element (or byte) counts of every scratch buffer of one forward pass.
#[derive(Clone, Copy, PartialEq, Eq, Structural, Debug)]
pub struct MoeScratchSizes {
    /// `[T, E]` router logits.
    pub gate_logits: usize,
    /// `[T, K]` chosen experts.
    pub topk_idx: usize,
    /// `[T, K]` routing weights.
    pub topk_w: usize,
    /// `[E]` tokens per expert.
    pub counts: usize,
    /// `[E + 1]` exclusive prefix sums of `counts`.
    pub offsets: usize,
    /// `[E]` per-expert fill cursors.
    pub running: usize,
    /// `[T * K]` destination row of every routed token.
    pub scatter_pos: usize,
    /// Bytes of the `[T * K, H]` permuted input.
    pub permuted_x: usize,
    /// Bytes of the `[T * K, I]` expert activations.
    pub permuted_m: usize,
    /// Bytes of the `[T * K, H]` expert outputs.
    pub permuted_y: usize,
    /// Bytes of the matrix-multiply workspace (at least one).
    pub blaslt_ws: usize,
    /// Host copy of the offsets.
    pub host_offsets: usize,
}

/// Scratch sizes of one forward pass of `p` with a matrix-multiply workspace
/// of `ws` bytes.
pub open spec fn scratch_sizes_are(s: MoeScratchSizes, p: MoeParams, ws: usize) -> bool {
    let t = p.num_tokens as int;
    let e = p.num_experts as int;
    let k = p.top_k as int;
    let h = p.hidden as int;
    let i = p.inter as int;
    &&& s.gate_logits == t * e
    &&& s.topk_idx == t * k && s.topk_w == t * k && s.scatter_pos == t * k
    &&& s.counts == e && s.running == e
    &&& s.offsets == e + 1 && s.host_offsets == e + 1
    &&& s.permuted_x == t * k * (h * 2) && s.permuted_y == t * k * (h * 2)
    &&& s.permuted_m == t * k * (i * 2)
    &&& s.blaslt_ws == (if ws < 1 { 1 } else { ws as int })
}

/// Whether every scratch size of `p` fits in `usize`.
pub open spec fn scratch_fits(p: MoeParams) -> bool {
    let t = p.num_tokens as int;
    let e = p.num_experts as int;
    let k = p.top_k as int;
    let h = p.hidden as int;
    let i = p.inter as int;
    &&& t * e <= usize::MAX && t * k <= usize::MAX && e + 1 <= usize::MAX
    &&& h * 2 <= usize::MAX && i * 2 <= usize::MAX
    &&& t * k * (h * 2) <= usize::MAX && t * k * (i * 2) <= usize::MAX
}

/// Sizes of the scratch buffers of one forward pass of `p` with a
/// matrix-multiply workspace of `blaslt_ws_bytes`.
pub fn scratch_sizes(p: &MoeParams, blaslt_ws_bytes: usize) -> (s: MoeScratchSizes)
    requires
        scratch_fits(*p),
    ensures
        scratch_sizes_are(s, *p, blaslt_ws_bytes),
{
    let t = p.num_tokens as usize;
    let e = p.num_experts as usize;
    let k = p.top_k as usize;
    let h = p.hidden as usize;
    let i = p.inter as usize;
    let bytes_row_h = h * p.dtype.bytes();
    let bytes_row_i = i * p.dtype.bytes();
    let tk = t * k;
    MoeScratchSizes {
        gate_logits: t * e,
        topk_idx: tk,
        topk_w: tk,
        counts: e,
        offsets: e + 1,
        running: e,
        scatter_pos: tk,
        permuted_x: tk * bytes_row_h,
        permuted_m: tk * bytes_row_i,
        permuted_y: tk * bytes_row_h,
        blaslt_ws: if blaslt_ws_bytes < 1 { 1 } else { blaslt_ws_bytes },
        host_offsets: e + 1,
    }
}

/// Names of the six kernels of the pass.
#[derive(Debug)]
pub struct MoeKernelNames {
    pub softmax_topk: String,
    pub count: String,
    pub scan: String,
    pub permute: String,
    pub silu: String,
    pub combine: String,
}

/// Kernel names: the routing kernels are shared, the data-moving ones are
/// instantiated per element type.
pub fn kernel_names(d: MoeDType) -> (n: MoeKernelNames)
    ensures
        n.softmax_topk@ == "moe_softmax_topk"@,
        n.count@ == "moe_count"@,
        n.scan@ == "moe_exclusive_scan"@,
        n.permute@ == "moe_permute_"@ + d.spec_suffix(),
        n.silu@ == "moe_silu_"@ + d.spec_suffix(),
        n.combine@ == "moe_combine_"@ + d.spec_suffix(),
{
    let suf = d.suffix();
    let mut permute = String::new();
    push_str(&mut permute, "moe_permute_");
    push_str(&mut permute, suf);
    let mut silu = String::new();
    push_str(&mut silu, "moe_silu_");
    push_str(&mut silu, suf);
    let mut combine = String::new();
    push_str(&mut combine, "moe_combine_");
    push_str(&mut combine, suf);
    let mut softmax_topk = String::new();
    push_str(&mut softmax_topk, "moe_softmax_topk");
    let mut count = String::new();
    push_str(&mut count, "moe_count");
    let mut scan = String::new();
    push_str(&mut scan, "moe_exclusive_scan");
    MoeKernelNames { softmax_topk, count, scan, permute, silu, combine }
}

/// Compiler options of the MoE kernels: fast math and C++17, nothing else.
pub fn compile_options() -> (o: CompileOptions)
    ensures
        o.arch is None,
        o.include_paths@.len() == 0,
        o.ftz is None && o.prec_div is None && o.prec_sqrt is None && o.fmad is None,
        o.use_fast_math is None && o.maxrregcount is None,
        o.extras@.len() == 2,
        o.extras@[0]@ == "--use_fast_math"@,
        o.extras@[1]@ == "-std=c++17"@,
{
    let mut o = CompileOptions::default();
    let mut fast = String::new();
    push_str(&mut fast, "--use_fast_math");
    let mut std17 = String::new();
    push_str(&mut std17, "-std=c++17");
    o.extras.push(fast);
    o.extras.push(std17);
    o
}

/// Whether the dimensions of `p` fit the kernels' 32-bit signed `int`
/// arguments.
pub open spec fn dims_fit_i32(p: MoeParams) -> bool {
    &&& p.num_tokens <= i32::MAX && p.hidden <= i32::MAX && p.inter <= i32::MAX
    &&& p.num_experts <= i32::MAX && p.top_k <= i32::MAX
}

/// Launch geometry of the expert-independent stages.
#[derive(Clone, Copy, Debug)]
pub struct MoeLaunchPlan {
    /// Router GEMM operands: `X [T, H]`, `W_gate [H, E]`, `logits [T, E]`.
    pub router_a: LayoutSpec,
    pub router_b: LayoutSpec,
    pub router_c: LayoutSpec,
    /// Softmax + top-k, one thread per token.
    pub topk: LaunchCfg,
    /// Histogram, one thread per routed row.
    pub count: LaunchCfg,
    /// Number of routed rows the histogram reads (saturated to `i32`).
    pub count_n: i32,
    /// Exclusive scan, a single thread.
    pub scan: LaunchCfg,
    /// Permute, one block per (token, choice).
    pub permute: LaunchCfg,
    /// Weighted combine, one block per token.
    pub combine: LaunchCfg,
}

pub open spec fn layout(dtype: CudaDataType, rows: int, cols: int) -> LayoutSpec {
    LayoutSpec { dtype, rows: rows as u64, cols: cols as u64, ld: cols as i64, order: Order::Row }
}

pub open spec fn cfg_is(c: LaunchCfg, grid: (u32, u32, u32), block: (u32, u32, u32)) -> bool {
    c.grid == grid && c.block == block && c.shared_bytes == 0
}

/// Rows the histogram reads: `T * K` saturated to `i32`.
pub open spec fn count_rows(p: MoeParams) -> int {
    let tk = p.num_tokens as int * p.top_k as int;
    if tk > i32::MAX { i32::MAX as int } else { tk }
}

pub open spec fn launch_plan_is(l: MoeLaunchPlan, p: MoeParams) -> bool {
    let t = p.num_tokens as int;
    let h = p.hidden as int;
    let e = p.num_experts as int;
    let k = p.top_k as int;
    let n = count_rows(p);
    &&& l.router_a == layout(p.dtype.spec_cublas(), t, h)
    &&& l.router_b == layout(p.dtype.spec_cublas(), h, e)
    &&& l.router_c == layout(CudaDataType::R32F, t, e)
    &&& cfg_is(l.topk, (ceil_div(t as nat, 128) as u32, 1u32, 1u32), (128u32, 1u32, 1u32))
    &&& l.count_n == n
    &&& cfg_is(l.count, (ceil_div(n as nat, 128) as u32, 1u32, 1u32), (128u32, 1u32, 1u32))
    &&& cfg_is(l.scan, (1u32, 1u32, 1u32), (1u32, 1u32, 1u32))
    &&& cfg_is(l.permute, (t as u32, k as u32, 1u32), (128u32, 1u32, 1u32))
    &&& cfg_is(l.combine, (t as u32, 1u32, 1u32), (128u32, 1u32, 1u32))
}

/// `ceil(n / d)` for `d > 0`, without overflow.
fn div_ceil_u32(n: u32, d: u32) -> (r: u32)
    requires
        d > 0,
    ensures
        r == ceil_div(n as nat, d as nat),
{
    let q = n / d;
    proof {
        if n % d != 0 {
            assert(d >= 2);
            assert(q <= n / 2) by (nonlinear_arith)
                requires
                    d >= 2,
                    q == n / d,
            {
            }
        }
    }
    let r = if n % d != 0 { q + 1 } else { q };
    proof {
        assert(r == ceil_div(n as nat, d as nat)) by (nonlinear_arith)
            requires
                d > 0,
                q == n / d,
                r == (if n % d != 0 { q + 1 } else { q as int }),
        {
        }
    }
    r
}

/// Geometry of the stages that do not depend on the routing.
pub fn launch_plan(p: &MoeParams) -> (l: MoeLaunchPlan)
    requires
        dims_fit_i32(*p),
    ensures
        launch_plan_is(l, *p),
{
    let dt = p.dtype.cublas();
    let t = p.num_tokens;
    let h = p.hidden;
    let e = p.num_experts;
    let k = p.top_k;
    let router_a = LayoutSpec { dtype: dt, rows: t as u64, cols: h as u64, ld: h as i64, order: Order::Row };
    let router_b = LayoutSpec { dtype: dt, rows: h as u64, cols: e as u64, ld: e as i64, order: Order::Row };
    let router_c = LayoutSpec { dtype: CudaDataType::R32F, rows: t as u64, cols: e as u64, ld: e as i64, order: Order::Row };
    proof {
        assert((t as u64) * (k as u64) <= u64::MAX) by (nonlinear_arith)
            requires
                t <= u32::MAX,
                k <= u32::MAX,
        {
        }
    }
    let tk64 = (t as u64) * (k as u64);
    let count_n: i32 = if tk64 > 2147483647u64 { 2147483647i32 } else { tk64 as i32 };
    let count_grid = div_ceil_u32(count_n as u32, 128);
    MoeLaunchPlan {
        router_a,
        router_b,
        router_c,
        topk: LaunchCfg::linear(div_ceil_u32(t, 128), 128),
        count: LaunchCfg::linear(count_grid, 128),
        count_n,
        scan: LaunchCfg::linear(1, 1),
        permute: LaunchCfg { grid: (t, k, 1), block: (128, 1, 1), shared_bytes: 0 },
        combine: LaunchCfg { grid: (t, 1, 1), block: (128, 1, 1), shared_bytes: 0 },
    }
}

/// Device addresses of the buffers the expert GEMMs read and write.
#[derive(Clone, Copy, PartialEq, Eq, Structural, Debug)]
pub struct MoeBuffers {
    /// `[T * K, H]` permuted input.
    pub permuted_x: u64,
    /// `[T * K, I]` expert activations.
    pub permuted_m: u64,
    /// `[T * K, H]` expert outputs.
    pub permuted_y: u64,
    /// `[E, H, I]` up projections, contiguous.
    pub w_up: u64,
    /// `[E, I, H]` down projections, contiguous.
    pub w_down: u64,
}

/// The work of one expert that received tokens: the up GEMM
/// `M = X_e W_up[e]`, the activation over `M`, and the down GEMM
/// `Y_e = M W_down[e]`, on the expert's block of permuted rows.
#[derive(Clone, Copy, Debug)]
pub struct ExpertStep {
    pub expert: u32,
    /// Rows routed to the expert.
    pub rows: i64,
    /// First row of the expert's block in each permuted buffer.
    pub x: u64,
    pub m: u64,
    pub y: u64,
    /// The expert's weight matrices.
    pub w_up: u64,
    pub w_down: u64,
    pub up_a: LayoutSpec,
    pub up_b: LayoutSpec,
    pub up_c: LayoutSpec,
    pub down_a: LayoutSpec,
    pub down_b: LayoutSpec,
    pub down_c: LayoutSpec,
    /// Activation launch, one thread per element.
    pub silu: LaunchCfg,
    /// Elements the activation covers (saturated to `i32`).
    pub silu_n: i32,
}

/// Rows routed to expert `e` according to the offsets.
pub open spec fn expert_rows(offs: Seq<i32>, e: int) -> int {
    offs[e + 1] - offs[e]
}

/// The experts among the first `n` that received at least one row, in
/// increasing order.
pub open spec fn active_experts(offs: Seq<i32>, n: nat) -> Seq<int>
    decreases n,
{
    if n == 0 {
        seq![]
    } else {
        let prev = active_experts(offs, (n - 1) as nat);
        if expert_rows(offs, n - 1) > 0 {
            prev.push(n - 1)
        } else {
            prev
        }
    }
}

/// Bytes between consecutive experts' weight matrices.
pub open spec fn weight_stride(p: MoeParams) -> int {
    p.hidden as int * p.inter as int * 2
}

/// The step of expert `e`.
pub open spec fn step_is(s: ExpertStep, p: MoeParams, offs: Seq<i32>, b: MoeBuffers, e: int) -> bool {
    let h = p.hidden as int;
    let i = p.inter as int;
    let dt = p.dtype.spec_cublas();
    let n = expert_rows(offs, e);
    let off = offs[e] as int;
    let act = if n * i > i32::MAX { i32::MAX as int } else { n * i };
    &&& s.expert == e
    &&& s.rows == n
    &&& s.x == b.permuted_x + off * (h * 2)
    &&& s.m == b.permuted_m + off * (i * 2)
    &&& s.y == b.permuted_y + off * (h * 2)
    &&& s.w_up == b.w_up + e * weight_stride(p)
    &&& s.w_down == b.w_down + e * weight_stride(p)
    &&& s.up_a == layout(dt, n, h) && s.up_b == layout(dt, h, i) && s.up_c == layout(dt, n, i)
    &&& s.down_a == layout(dt, n, i) && s.down_b == layout(dt, i, h) && s.down_c == layout(dt, n, h)
    &&& s.silu_n == act
    &&& cfg_is(s.silu, (ceil_div(act as nat, 256) as u32, 1u32, 1u32), (256u32, 1u32, 1u32))
}

/// What the expert schedule needs of its inputs: a valid shape whose sizes
/// fit the kernels' `int`s, one offset per expert plus the end, every
/// offset within the `T * K` routed rows, and buffers whose last row and
/// last expert's weights are addressable.
pub open spec fn schedule_inputs_ok(p: MoeParams, offs: Seq<i32>, b: MoeBuffers) -> bool {
    let tk = p.spec_rows() as int;
    &&& p.spec_valid() && dims_fit_i32(p)
    &&& offs.len() == p.num_experts + 1
    &&& forall|j: int| 0 <= j < offs.len() ==> 0 <= #[trigger] offs[j] <= tk
    &&& b.permuted_x + tk * (p.hidden * 2) <= u64::MAX
    &&& b.permuted_m + tk * (p.inter * 2) <= u64::MAX
    &&& b.permuted_y + tk * (p.hidden * 2) <= u64::MAX
    &&& b.w_up + (p.num_experts - 1) * weight_stride(p) <= u64::MAX
    &&& b.w_down + (p.num_experts - 1) * weight_stride(p) <= u64::MAX
}

proof fn lemma_mul_le(a: int, b: int, c: int)
    requires
        0 <= a <= b,
        0 <= c,
    ensures
        a * c <= b * c,
{
    assert(a * c <= b * c) by (nonlinear_arith)
        requires
            0 <= a <= b,
            0 <= c,
    {
    }
}

/// The per-expert schedule: one step, in expert order, for every expert
/// that received at least one row; experts with none are skipped.
pub fn plan_expert_steps(p: &MoeParams, offs: &Vec<i32>, b: &MoeBuffers) -> (steps: Vec<ExpertStep>)
    requires
        schedule_inputs_ok(*p, offs@, *b),
    ensures
        steps@.len() == active_experts(offs@, p.num_experts as nat).len(),
        forall|j: int| 0 <= j < steps@.len() ==> step_is(steps@[j], *p, offs@, *b,
            #[trigger] active_experts(offs@, p.num_experts as nat)[j]),
        forall|j: int| 0 <= j < steps@.len() ==> (#[trigger] steps@[j]).down_b.rows == p.inter
            && steps@[j].down_b.cols == p.hidden && steps@[j].down_b.ld == p.hidden
            && steps@[j].up_b.rows == p.hidden && steps@[j].up_b.cols == p.inter && steps@[j].up_b.ld == p.inter,
{
    let dt = p.dtype.cublas();
    let h = p.hidden;
    let ii = p.inter;
    let ne = p.num_experts;
    let ghost tk = p.spec_rows() as int;
    proof {
        assert((h as u64) * (ii as u64) * 2 <= u64::MAX) by (nonlinear_arith)
            requires
                h <= i32::MAX,
                ii <= i32::MAX,
        {
        }
    }
    let row_h: u64 = (h as u64) * 2;
    let row_i: u64 = (ii as u64) * 2;
    let stride: u64 = (h as u64) * (ii as u64) * 2;
    let mut steps: Vec<ExpertStep> = Vec::new();
    let mut e: u32 = 0;
    while e < ne
        invariant
            e <= ne,
            ne == p.num_experts,
            h == p.hidden,
            ii == p.inter,
            dt == p.dtype.spec_cublas(),
            row_h == h * 2,
            row_i == ii * 2,
            stride == weight_stride(*p),
            tk == p.spec_rows(),
            schedule_inputs_ok(*p, offs@, *b),
            steps@.len() == active_experts(offs@, e as nat).len(),
            forall|j: int| 0 <= j < steps@.len() ==> step_is(steps@[j], *p, offs@, *b,
                #[trigger] active_experts(offs@, e as nat)[j]),
        decreases ne - e,
    {
        let ghost old_steps = steps@;
        let off = offs[e as usize];
        let next = offs[e as usize + 1];
        assert(0 <= offs@[e as int] <= tk);
        assert(0 <= offs@[e as int + 1] <= tk);
        let n_e = (next - off) as i64;
        if n_e > 0 {
            proof {
                lemma_mul_le(off as int, tk, row_h as int);
                lemma_mul_le(off as int, tk, row_i as int);
                lemma_mul_le(e as int, ne - 1, stride as int);
                assert(n_e * ii <= i64::MAX) by (nonlinear_arith)
                    requires
                        0 < n_e <= i32::MAX,
                        ii <= i32::MAX,
                {
                }
            }
            let x = b.permuted_x + (off as u64) * row_h;
            let m = b.permuted_m + (off as u64) * row_i;
            let y = b.permuted_y + (off as u64) * row_h;
            let w_up = b.w_up + (e as u64) * stride;
            let w_down = b.w_down + (e as u64) * stride;
            let act64 = n_e * (ii as i64);
            let silu_n: i32 = if act64 > 2147483647i64 { 2147483647i32 } else { act64 as i32 };
            let rows = n_e as u64;
            let step = ExpertStep {
                expert: e,
                rows: n_e,
                x,
                m,
                y,
                w_up,
                w_down,
                up_a: LayoutSpec { dtype: dt, rows, cols: h as u64, ld: h as i64, order: Order::Row },
                up_b: LayoutSpec { dtype: dt, rows: h as u64, cols: ii as u64, ld: ii as i64, order: Order::Row },
                up_c: LayoutSpec { dtype: dt, rows, cols: ii as u64, ld: ii as i64, order: Order::Row },
                down_a: LayoutSpec { dtype: dt, rows, cols: ii as u64, ld: ii as i64, order: Order::Row },
                down_b: LayoutSpec { dtype: dt, rows: ii as u64, cols: h as u64, ld: h as i64, order: Order::Row },
                down_c: LayoutSpec { dtype: dt, rows, cols: h as u64, ld: h as i64, order: Order::Row },
                silu: LaunchCfg::linear(div_ceil_u32(silu_n as u32, 256), 256),
                silu_n,
            };
            steps.push(step);
            proof {
                let act = active_experts(offs@, (e + 1) as nat);
                assert(act == active_experts(offs@, e as nat).push(e as int));
                assert forall|j: int| 0 <= j < steps@.len() implies step_is(steps@[j], *p, offs@, *b,
                    #[trigger] act[j]) by {
                    if j < old_steps.len() {
                        assert(steps@[j] == old_steps[j]);
                    }
                }
            }
        } else {
            proof {
                assert(active_experts(offs@, (e + 1) as nat) == active_experts(offs@, e as nat));
            }
        }
        e = e + 1;
    }
    proof {
        let act = active_experts(offs@, p.num_experts as nat);
        assert forall|j: int| 0 <= j < steps@.len() implies (#[trigger] steps@[j]).down_b.rows == p.inter
            && steps@[j].down_b.cols == p.hidden && steps@[j].down_b.ld == p.hidden
            && steps@[j].up_b.rows == p.hidden && steps@[j].up_b.cols == p.inter && steps@[j].up_b.ld == p.inter by {
            lemma_expert_gemms_chain(steps@[j], *p, offs@, *b, act[j]);
        }
    }
    steps
}

/// Rows processed by the steps of the experts in `s`.
pub open spec fn total_rows(offs: Seq<i32>, s: Seq<int>) -> int
    decreases s.len(),
{
    if s.len() == 0 {
        0
    } else {
        total_rows(offs, s.drop_last()) + expert_rows(offs, s.last())
    }
}

/// With nondecreasing offsets (as an exclusive scan of counts produces),
/// the expert schedule visits each expert at most once, in increasing
/// order, and its steps together process exactly the routed rows
/// `offs[n] - offs[0]`: no row is skipped and none is processed twice.
pub proof fn lemma_schedule_covers_routed_rows(offs: Seq<i32>, n: nat)
    requires
        offs.len() >= n + 1,
        forall|j: int| 0 <= j < n ==> #[trigger] offs[j] <= offs[j + 1],
    ensures
        total_rows(offs, active_experts(offs, n)) == offs[n as int] - offs[0],
        forall|i: int, j: int| 0 <= i < j < active_experts(offs, n).len() ==> active_experts(offs, n)[i]
            < active_experts(offs, n)[j],
        forall|i: int| 0 <= i < active_experts(offs, n).len() ==> 0 <= #[trigger] active_experts(offs, n)[i] < n,
    decreases n,
{
    if n > 0 {
        let m = (n - 1) as nat;
        lemma_schedule_covers_routed_rows(offs, m);
        let prev = active_experts(offs, m);
        assert(offs[m as int] <= offs[m as int + 1]);
        if expert_rows(offs, m as int) > 0 {
            let cur = prev.push(m as int);
            assert(cur.drop_last() =~= prev);
            assert(total_rows(offs, cur) == total_rows(offs, prev) + expert_rows(offs, m as int));
        }
    }
}

/// The two GEMMs of an expert step chain: the up projection multiplies the
/// expert's `[rows, hidden]` tokens by its `[hidden, inter]` weight into a
/// `[rows, inter]` activation, and the down projection multiplies that by the
/// `[inter, hidden]` weight back into `[rows, hidden]`. All are row-major with
/// packed rows, in the element type of the parameters.
pub proof fn lemma_expert_gemms_chain(s: ExpertStep, p: MoeParams, offs: Seq<i32>, b: MoeBuffers, e: int)
    requires
        step_is(s, p, offs, b, e),
    ensures
        s.up_b.rows == p.hidden && s.up_b.cols == p.inter && s.up_b.ld == p.inter,
        s.down_b.rows == p.inter && s.down_b.cols == p.hidden && s.down_b.ld == p.hidden,
        s.up_a.cols == s.up_b.rows && s.up_b.cols == s.up_c.cols,
        s.up_c.rows == s.up_a.rows && s.up_c.cols == s.down_a.cols,
        s.down_a.cols == s.down_b.rows && s.down_b.cols == s.down_c.cols,
        s.down_a.rows == s.up_a.rows && s.down_c.rows == s.up_a.rows,
        s.down_c.cols == s.up_a.cols,
        s.up_a.order == Order::Row && s.up_b.order == Order::Row && s.up_c.order == Order::Row,
        s.down_a.order == Order::Row && s.down_b.order == Order::Row && s.down_c.order == Order::Row,
        s.up_b.dtype == s.down_b.dtype && s.up_a.dtype == s.up_b.dtype,
        p.dtype == MoeDType::Bf16 ==> s.down_b.dtype == CudaDataType::R16BF,
        p.dtype == MoeDType::F16 ==> s.down_b.dtype == CudaDataType::R16F,
{
}

} // verus!
