//! FP8 GEMM configuration: how a recipe and a problem shape become the
//! descriptor settings, operand layouts and fused epilogue of one call.

use vstd::prelude::*;
use crate::types::{CoreError, DType};
use crate::fp8::{AccumMode, Fp8Dtype, Fp8Recipe, ScaleMode, is_fp8_output};
use crate::blas::{CublasComputeType, CudaDataType, LayoutSpec, Op, Order};

verus! {

/// Raw epilogue codes of the matrix-multiply library.
pub const EPI_DEFAULT: u32 = 1;
pub const EPI_BIAS: u32 = 4;
pub const EPI_GELU: u32 = 32;
pub const EPI_GELU_BIAS: u32 = 36;
pub const EPI_RELU: u32 = 8;
pub const EPI_RELU_BIAS: u32 = 12;

/// Problem shape. A leading dimension of 0 means "packed".
#[derive(Clone, Copy, Debug, Default)]
pub struct Fp8Shape {
    pub m: u64,
    pub n: u64,
    pub k: u64,
    pub lda: i64,
    pub ldb: i64,
    pub ldc: i64,
    pub ldd: i64,
    pub trans_a: bool,
    pub trans_b: bool,
}

impl Fp8Shape {
    /// An `m x n x k` problem with packed operands and no transposes.
    pub fn square(m: u64, n: u64, k: u64) -> (s: Self)
        ensures
            s.m == m && s.n == n && s.k == k,
            s.lda == 0 && s.ldb == 0 && s.ldc == 0 && s.ldd == 0,
            !s.trans_a && !s.trans_b,
    {
        Fp8Shape { m, n, k, lda: 0, ldb: 0, ldc: 0, ldd: 0, trans_a: false, trans_b: false }
    }
}

/// Device pointers of the per-tensor scales and of the output amax.
#[derive(Clone, Copy, Debug, Default)]
pub struct Fp8Scales {
    pub a_scale: Option<u64>,
    pub b_scale: Option<u64>,
    pub d_scale: Option<u64>,
    pub amax_d: Option<u64>,
}

/// Optional fused epilogue.
#[derive(Clone, Copy, Debug, PartialEq, Eq, Structural, Default)]
pub enum Fp8Epilogue {
    #[default]
    Plain,
    Bias { ptr: u64 },
    Gelu,
    GeluBias { ptr: u64 },
    Relu,
    ReluBias { ptr: u64 },
}

impl Fp8Epilogue {
    pub open spec fn spec_code(self) -> u32 {
        match self {
            Fp8Epilogue::Plain => EPI_DEFAULT,
            Fp8Epilogue::Bias { .. } => EPI_BIAS,
            Fp8Epilogue::Gelu => EPI_GELU,
            Fp8Epilogue::GeluBias { .. } => EPI_GELU_BIAS,
            Fp8Epilogue::Relu => EPI_RELU,
            Fp8Epilogue::ReluBias { .. } => EPI_RELU_BIAS,
        }
    }

    pub open spec fn spec_bias_ptr(self) -> Option<u64> {
        match self {
            Fp8Epilogue::Bias { ptr } => Some(ptr),
            Fp8Epilogue::GeluBias { ptr } => Some(ptr),
            Fp8Epilogue::ReluBias { ptr } => Some(ptr),
            _ => None,
        }
    }

    /// The library's epilogue code.
    pub fn code(&self) -> (c: u32)
        ensures
            c == self.spec_code(),
    {
        match self {
            Fp8Epilogue::Plain => EPI_DEFAULT,
            Fp8Epilogue::Bias { .. } => EPI_BIAS,
            Fp8Epilogue::Gelu => EPI_GELU,
            Fp8Epilogue::GeluBias { .. } => EPI_GELU_BIAS,
            Fp8Epilogue::Relu => EPI_RELU,
            Fp8Epilogue::ReluBias { .. } => EPI_RELU_BIAS,
        }
    }

    /// The bias vector of the epilogues that add one.
    pub fn bias_ptr(&self) -> (p: Option<u64>)
        ensures
            p == self.spec_bias_ptr(),
    {
        match self {
            Fp8Epilogue::Bias { ptr } => Some(*ptr),
            Fp8Epilogue::GeluBias { ptr } => Some(*ptr),
            Fp8Epilogue::ReluBias { ptr } => Some(*ptr),
            _ => None,
        }
    }
}

pub open spec fn spec_fp8_input(d: Fp8Dtype) -> CudaDataType {
    match d {
        Fp8Dtype::E4M3 => CudaDataType::R8F_E4M3,
        Fp8Dtype::E5M2 => CudaDataType::R8F_E5M2,
    }
}

/// Library element type of an FP8 operand.
pub fn fp8_input(d: Fp8Dtype) -> (t: CudaDataType)
    ensures
        t == spec_fp8_input(d),
{
    match d {
        Fp8Dtype::E4M3 => CudaDataType::R8F_E4M3,
        Fp8Dtype::E5M2 => CudaDataType::R8F_E5M2,
    }
}

pub open spec fn spec_output_dtype(d: DType) -> CudaDataType {
    if d == DType::Bf16 {
        CudaDataType::R16BF
    } else if d == DType::F16 {
        CudaDataType::R16F
    } else {
        CudaDataType::R32F
    }
}

/// Library element type of the output: BF16, FP16 or FP32; the other
/// types are refused.
pub fn output_dtype(d: DType) -> (r: Result<CudaDataType, CoreError>)
    ensures
        is_fp8_output(d) ==> (r matches Ok(t) && t == spec_output_dtype(d)),
        d == DType::Bf16 ==> r == Ok::<CudaDataType, CoreError>(CudaDataType::R16BF),
        d == DType::F16 ==> r == Ok::<CudaDataType, CoreError>(CudaDataType::R16F),
        d == DType::F32 ==> r == Ok::<CudaDataType, CoreError>(CudaDataType::R32F),
        !is_fp8_output(d) ==> (r matches Err(CoreError::Other(m)) && m@
            == "fp8 output dtype must be Bf16/Fp16/Fp32"@),
{
    match d {
        DType::Bf16 => Ok(CudaDataType::R16BF),
        DType::F16 => Ok(CudaDataType::R16F),
        DType::F32 => Ok(CudaDataType::R32F),
        _ => Err(CoreError::Other("fp8 output dtype must be Bf16/Fp16/Fp32")),
    }
}

pub open spec fn spec_compute_type(a: AccumMode) -> CublasComputeType {
    match a {
        AccumMode::Fp32 => CublasComputeType::F32,
        AccumMode::Bf16Fast => CublasComputeType::F32FastBf16,
    }
}

/// Accumulation type for an accumulation mode.
pub fn compute_type(accum: AccumMode) -> (c: CublasComputeType)
    ensures
        c == spec_compute_type(accum),
{
    match accum {
        AccumMode::Fp32 => CublasComputeType::F32,
        AccumMode::Bf16Fast => CublasComputeType::F32FastBf16,
    }
}

/// Every setting of one FP8 GEMM call.
#[derive(Clone, Copy, Debug)]
pub struct Fp8GemmConfig {
    pub compute: CublasComputeType,
    /// Type of the alpha/beta scalars and of the scale tensors.
    pub scale_type: CudaDataType,
    pub trans_a: Op,
    pub trans_b: Op,
    pub a_scale: Option<u64>,
    pub b_scale: Option<u64>,
    pub d_scale: Option<u64>,
    pub amax_d: Option<u64>,
    pub epilogue: u32,
    pub bias: Option<u64>,
    pub fast_accum: bool,
    pub a: LayoutSpec,
    pub b: LayoutSpec,
    pub c: LayoutSpec,
    pub d: LayoutSpec,
    pub max_workspace: usize,
}

/// `ld` if set, else `packed`.
pub open spec fn ld_or(ld: i64, packed: u64) -> i64 {
    if ld != 0 { ld } else { packed as i64 }
}

/// The configuration of a valid recipe on a shape: operand A is stored
/// `m x k` (or `k x m` when transposed), B `k x n` (or `n x k`), C and D
/// `m x n`, all column-major. A leading dimension the shape leaves 0 is
/// packed: `k` for A, the row count for B, `m` for C and D.
pub open spec fn fp8_config_is(
    c: Fp8GemmConfig,
    recipe: Fp8Recipe,
    shape: Fp8Shape,
    scales: Fp8Scales,
    epilogue: Fp8Epilogue,
    max_workspace: usize,
) -> bool {
    let (ra, ca) = if shape.trans_a { (shape.k, shape.m) } else { (shape.m, shape.k) };
    let (rb, cb) = if shape.trans_b { (shape.n, shape.k) } else { (shape.k, shape.n) };
    let out = spec_output_dtype(recipe.out);
    &&& c.compute == spec_compute_type(recipe.accum)
    &&& c.scale_type == CudaDataType::R32F
    &&& c.trans_a == (if shape.trans_a { Op::T } else { Op::N })
    &&& c.trans_b == (if shape.trans_b { Op::T } else { Op::N })
    &&& c.a_scale == scales.a_scale
    &&& c.b_scale == scales.b_scale
    &&& c.d_scale == scales.d_scale
    &&& c.amax_d == (if recipe.produce_output_amax { scales.amax_d } else { None })
    &&& c.epilogue == epilogue.spec_code()
    &&& c.bias == epilogue.spec_bias_ptr()
    &&& c.fast_accum == (recipe.accum == AccumMode::Bf16Fast)
    &&& c.a == (LayoutSpec { dtype: spec_fp8_input(recipe.a), rows: ra, cols: ca, ld: ld_or(shape.lda, shape.k), order: Order::Col })
    &&& c.b == (LayoutSpec { dtype: spec_fp8_input(recipe.b), rows: rb, cols: cb, ld: ld_or(shape.ldb, rb), order: Order::Col })
    &&& c.c == (LayoutSpec { dtype: out, rows: shape.m, cols: shape.n, ld: ld_or(shape.ldc, shape.m), order: Order::Col })
    &&& c.d == (LayoutSpec { dtype: out, rows: shape.m, cols: shape.n, ld: ld_or(shape.ldd, shape.m), order: Order::Col })
    &&& c.max_workspace == max_workspace
}

/// The output layouts of a configured FP8 GEMM hold the recipe's output
/// type: BF16 as `R16BF`, FP16 as `R16F`, FP32 as `R32F`, so distinct
/// accepted output types give distinct library types; the operand types
/// follow the recipe's FP8 formats and the scale type is always FP32.
pub proof fn lemma_fp8_output_type(
    c: Fp8GemmConfig,
    recipe: Fp8Recipe,
    shape: Fp8Shape,
    scales: Fp8Scales,
    epilogue: Fp8Epilogue,
    max_workspace: usize,
)
    requires
        fp8_config_is(c, recipe, shape, scales, epilogue, max_workspace),
    ensures
        c.c.dtype == c.d.dtype,
        recipe.out == DType::Bf16 ==> c.d.dtype == CudaDataType::R16BF,
        recipe.out == DType::F16 ==> c.d.dtype == CudaDataType::R16F,
        recipe.out == DType::F32 ==> c.d.dtype == CudaDataType::R32F,
        recipe.a == Fp8Dtype::E4M3 ==> c.a.dtype == CudaDataType::R8F_E4M3,
        recipe.a == Fp8Dtype::E5M2 ==> c.a.dtype == CudaDataType::R8F_E5M2,
        recipe.b == Fp8Dtype::E4M3 ==> c.b.dtype == CudaDataType::R8F_E4M3,
        recipe.b == Fp8Dtype::E5M2 ==> c.b.dtype == CudaDataType::R8F_E5M2,
        c.scale_type == CudaDataType::R32F,
{
}

/// Distinct output types the FP8 GEMM accepts map to distinct library types.
pub proof fn lemma_fp8_output_types_distinct(d1: DType, d2: DType)
    requires
        d1 == DType::Bf16 || d1 == DType::F16 || d1 == DType::F32,
        d2 == DType::Bf16 || d2 == DType::F16 || d2 == DType::F32,
        d1 != d2,
    ensures
        spec_output_dtype(d1) != spec_output_dtype(d2),
{
}

/// The error a recipe's validation reports.
pub open spec fn recipe_error(r: Fp8Recipe) -> Seq<char> {
    if !is_fp8_output(r.out) {
        "FP8 output dtype must be Bf16/Fp16/Fp32"@
    } else if r.scale == ScaleMode::Static && r.produce_output_amax {
        "Static scale recipes cannot produce output amax"@
    } else {
        "amax history length must be >= 1"@
    }
}

#[verifier::truncate]
fn packed_ld(rows: u64) -> (ld: i64)
    ensures
        ld == rows as i64,
{
    rows as i64
}

fn ld_or_packed(ld: i64, packed: u64) -> (r: i64)
    ensures
        r == ld_or(ld, packed),
{
    if ld != 0 { ld } else { packed_ld(packed) }
}

/// Configure one FP8 GEMM: validate the recipe, pick operand and output
/// types and the accumulation type, bake in the scale, amax and bias
/// pointers, and derive the operand layouts.
pub fn plan_fp8_gemm(
    recipe: &Fp8Recipe,
    shape: &Fp8Shape,
    scales: &Fp8Scales,
    epilogue: Fp8Epilogue,
    max_workspace: usize,
) -> (r: Result<Fp8GemmConfig, CoreError>)
    ensures
        recipe.spec_valid() ==> (r matches Ok(c) && fp8_config_is(c, *recipe, *shape, *scales, epilogue, max_workspace)),
        !recipe.spec_valid() ==> (r matches Err(CoreError::Other(m)) && m@ == recipe_error(*recipe)),
{
    match recipe.validate() {
        Ok(()) => {},
        Err(m) => return Err(CoreError::Other(m)),
    }
    let a_dtype = fp8_input(recipe.a);
    let b_dtype = fp8_input(recipe.b);
    let out_dtype = match output_dtype(recipe.out) {
        Ok(t) => t,
        Err(e) => return Err(e),
    };
    let compute = compute_type(recipe.accum);
    let amax_d = if recipe.produce_output_amax { scales.amax_d } else { None };
    let fast_accum = match recipe.accum {
        AccumMode::Bf16Fast => true,
        AccumMode::Fp32 => false,
    };
    let (rows_a, cols_a) = if shape.trans_a { (shape.k, shape.m) } else { (shape.m, shape.k) };
    let (rows_b, cols_b) = if shape.trans_b { (shape.n, shape.k) } else { (shape.k, shape.n) };
    let a = LayoutSpec { dtype: a_dtype, rows: rows_a, cols: cols_a, ld: ld_or_packed(shape.lda, shape.k), order: Order::Col };
    let b = LayoutSpec { dtype: b_dtype, rows: rows_b, cols: cols_b, ld: ld_or_packed(shape.ldb, rows_b), order: Order::Col };
    let c = LayoutSpec { dtype: out_dtype, rows: shape.m, cols: shape.n, ld: ld_or_packed(shape.ldc, shape.m), order: Order::Col };
    let d = LayoutSpec { dtype: out_dtype, rows: shape.m, cols: shape.n, ld: ld_or_packed(shape.ldd, shape.m), order: Order::Col };
    Ok(Fp8GemmConfig {
        compute,
        scale_type: CudaDataType::R32F,
        trans_a: if shape.trans_a { Op::T } else { Op::N },
        trans_b: if shape.trans_b { Op::T } else { Op::N },
        a_scale: scales.a_scale,
        b_scale: scales.b_scale,
        d_scale: scales.d_scale,
        amax_d,
        epilogue: epilogue.code(),
        bias: epilogue.bias_ptr(),
        fast_accum,
        a,
        b,
        c,
        d,
        max_workspace,
    })
}

} // verus!
