//! FP8 GEMM recipes: operand formats, scaling and accumulation modes, and
//! the checks that reject inconsistent combinations.

use vstd::prelude::*;
use crate::types::DType;
use crate::attention::{dtype_name, dtype_name_str};
use crate::text::push_str;

verus! {

/// Which FP8 format a tensor uses.
#[derive(Clone, Copy, PartialEq, Eq, Structural, Debug)]
pub enum Fp8Dtype {
    /// Larger maximum, smaller subnormals: forward activations and weights.
    E4M3,
    /// Larger dynamic range, coarser precision: gradients.
    E5M2,
}

impl Fp8Dtype {
    /// The core element type of this format.
    pub fn as_dtype(self) -> (d: DType)
        ensures
            d == (match self {
                Fp8Dtype::E4M3 => DType::F8E4M3,
                Fp8Dtype::E5M2 => DType::F8E5M2,
            }),
    {
        match self {
            Fp8Dtype::E4M3 => DType::F8E4M3,
            Fp8Dtype::E5M2 => DType::F8E5M2,
        }
    }

    /// Largest finite magnitude of the format; both are integers, so they
    /// are given exactly as one.
    pub fn max_value(self) -> (v: u32)
        ensures
            v == (match self {
                Fp8Dtype::E4M3 => 448u32,
                Fp8Dtype::E5M2 => 57344u32,
            }),
    {
        match self {
            Fp8Dtype::E4M3 => 448,
            Fp8Dtype::E5M2 => 57344,
        }
    }
}

/// How scales are produced and consumed.
#[derive(Clone, Copy, PartialEq, Eq, Structural, Debug)]
pub enum ScaleMode {
    /// One scale per tensor, updated from an amax history after every step.
    DelayedPerTensor,
    /// One scale per 1x16 block along K.
    Vec16,
    /// Scales owned and written by the caller.
    Static,
}

/// How the tensor-core multiply accumulates.
#[derive(Clone, Copy, PartialEq, Eq, Structural, Debug)]
pub enum AccumMode {
    Fp32,
    Bf16Fast,
}

/// Length of the running window of absolute maxima.
#[derive(Clone, Copy, PartialEq, Eq, Structural, Debug)]
pub enum AmaxHistoryLen {
    Len1024,
    Len16,
    Custom(u32),
}

impl AmaxHistoryLen {
    pub open spec fn spec_len(self) -> u32 {
        match self {
            AmaxHistoryLen::Len1024 => 1024,
            AmaxHistoryLen::Len16 => 16,
            AmaxHistoryLen::Custom(n) => n,
        }
    }

    pub fn as_u32(self) -> (n: u32)
        ensures
            n == self.spec_len(),
    {
        match self {
            AmaxHistoryLen::Len1024 => 1024,
            AmaxHistoryLen::Len16 => 16,
            AmaxHistoryLen::Custom(n) => n,
        }
    }
}

/// A full FP8 GEMM recipe.
#[derive(Clone, Copy, PartialEq, Eq, Structural, Debug)]
pub struct Fp8Recipe {
    pub a: Fp8Dtype,
    pub b: Fp8Dtype,
    pub out: DType,
    pub scale: ScaleMode,
    pub accum: AccumMode,
    pub amax_history: AmaxHistoryLen,
    /// Whether an amax tensor is produced for the output.
    pub produce_output_amax: bool,
}

impl Default for Fp8Recipe {
    fn default() -> (r: Self)
        ensures
            r == Fp8Recipe::spec_hopper_default(),
    {
        Self::hopper_default()
    }
}

/// Whether `d` is a valid FP8 GEMM output type.
pub open spec fn is_fp8_output(d: DType) -> bool {
    d == DType::Bf16 || d == DType::F16 || d == DType::F32
}

impl Fp8Recipe {
    pub open spec fn spec_hopper_default() -> Fp8Recipe {
        Fp8Recipe {
            a: Fp8Dtype::E4M3,
            b: Fp8Dtype::E4M3,
            out: DType::Bf16,
            scale: ScaleMode::DelayedPerTensor,
            accum: AccumMode::Fp32,
            amax_history: AmaxHistoryLen::Len1024,
            produce_output_amax: true,
        }
    }

    /// The canonical forward recipe: E4M3 x E4M3 to BF16, delayed
    /// per-tensor scaling, FP32 accumulation, 1024-deep history.
    pub fn hopper_default() -> (r: Self)
        ensures
            r == Self::spec_hopper_default(),
    {
        Fp8Recipe {
            a: Fp8Dtype::E4M3,
            b: Fp8Dtype::E4M3,
            out: DType::Bf16,
            scale: ScaleMode::DelayedPerTensor,
            accum: AccumMode::Fp32,
            amax_history: AmaxHistoryLen::Len1024,
            produce_output_amax: true,
        }
    }

    /// The backward recipe: E5M2 gradients against E4M3 weights.
    pub fn hopper_backward() -> (r: Self)
        ensures
            r == (Fp8Recipe { a: Fp8Dtype::E5M2, ..Self::spec_hopper_default() }),
    {
        Fp8Recipe {
            a: Fp8Dtype::E5M2,
            b: Fp8Dtype::E4M3,
            out: DType::Bf16,
            scale: ScaleMode::DelayedPerTensor,
            accum: AccumMode::Fp32,
            amax_history: AmaxHistoryLen::Len1024,
            produce_output_amax: true,
        }
    }

    /// Sub-channel scaling with one scale per 16 elements.
    pub fn blackwell_mx() -> (r: Self)
        ensures
            r == (Fp8Recipe {
                scale: ScaleMode::Vec16,
                amax_history: AmaxHistoryLen::Len16,
                ..Self::spec_hopper_default()
            }),
    {
        Fp8Recipe {
            a: Fp8Dtype::E4M3,
            b: Fp8Dtype::E4M3,
            out: DType::Bf16,
            scale: ScaleMode::Vec16,
            accum: AccumMode::Fp32,
            amax_history: AmaxHistoryLen::Len16,
            produce_output_amax: true,
        }
    }

    /// Serving recipe: BF16 accumulation, static scales, no output amax.
    pub fn serving_fast() -> (r: Self)
        ensures
            r == (Fp8Recipe {
                scale: ScaleMode::Static,
                accum: AccumMode::Bf16Fast,
                amax_history: AmaxHistoryLen::Custom(1),
                produce_output_amax: false,
                ..Self::spec_hopper_default()
            }),
    {
        Fp8Recipe {
            a: Fp8Dtype::E4M3,
            b: Fp8Dtype::E4M3,
            out: DType::Bf16,
            scale: ScaleMode::Static,
            accum: AccumMode::Bf16Fast,
            amax_history: AmaxHistoryLen::Custom(1),
            produce_output_amax: false,
        }
    }

    /// Whether the recipe is consistent.
    pub open spec fn spec_valid(self) -> bool {
        &&& is_fp8_output(self.out)
        &&& !(self.scale == ScaleMode::Static && self.produce_output_amax)
        &&& self.amax_history.spec_len() != 0
    }

    /// Reject inconsistent recipes: a non-float output type, static scales
    /// that would also produce an output amax, or an empty amax history.
    /// The checks run in that order; the first that fails names the error.
    pub fn validate(&self) -> (r: Result<(), &'static str>)
        ensures
            r is Ok <==> self.spec_valid(),
            !is_fp8_output(self.out) ==> (r matches Err(m) && m@
                == "FP8 output dtype must be Bf16/Fp16/Fp32"@),
            is_fp8_output(self.out) && self.scale == ScaleMode::Static && self.produce_output_amax
                ==> (r matches Err(m) && m@ == "Static scale recipes cannot produce output amax"@),
            is_fp8_output(self.out) && !(self.scale == ScaleMode::Static && self.produce_output_amax)
                && self.amax_history.spec_len() == 0 ==> (r matches Err(m) && m@
                == "amax history length must be >= 1"@),
    {
        let out_ok = match self.out {
            DType::Bf16 | DType::F16 | DType::F32 => true,
            _ => false,
        };
        if !out_ok {
            return Err("FP8 output dtype must be Bf16/Fp16/Fp32");
        }
        let is_static = match self.scale {
            ScaleMode::Static => true,
            _ => false,
        };
        if is_static && self.produce_output_amax {
            return Err("Static scale recipes cannot produce output amax");
        }
        if self.amax_history.as_u32() == 0 {
            return Err("amax history length must be >= 1");
        }
        Ok(())
    }

    /// Bytes per output element: 2 for 16-bit outputs, 4 for FP32, and 2
    /// for anything else.
    pub fn out_elem_bytes(&self) -> (n: u32)
        ensures
            n == (if self.out == DType::F32 { 4u32 } else { 2u32 }),
    {
        match self.out {
            DType::Bf16 | DType::F16 => 2,
            DType::F32 => 4,
            _ => 2,
        }
    }

    /// Human-readable tag `fp8[AxB->OUT:SCALE:ACCUM]`.
    pub fn tag(&self) -> (t: String)
        ensures
            t@ == "fp8["@ + fp8_name(self.a) + "x"@ + fp8_name(self.b) + "->"@ + dtype_name(self.out)
                + ":"@ + scale_name(self.scale) + ":"@ + accum_name(self.accum) + "]"@,
    {
        let mut t = String::new();
        push_str(&mut t, "fp8[");
        push_str(&mut t, fp8_name_str(self.a));
        push_str(&mut t, "x");
        push_str(&mut t, fp8_name_str(self.b));
        push_str(&mut t, "->");
        push_str(&mut t, dtype_name_str(self.out));
        push_str(&mut t, ":");
        push_str(&mut t, scale_name_str(self.scale));
        push_str(&mut t, ":");
        push_str(&mut t, accum_name_str(self.accum));
        push_str(&mut t, "]");
        t
    }
}

pub open spec fn fp8_name(d: Fp8Dtype) -> Seq<char> {
    match d {
        Fp8Dtype::E4M3 => "E4M3"@,
        Fp8Dtype::E5M2 => "E5M2"@,
    }
}

pub open spec fn scale_name(s: ScaleMode) -> Seq<char> {
    match s {
        ScaleMode::DelayedPerTensor => "DelayedPerTensor"@,
        ScaleMode::Vec16 => "Vec16"@,
        ScaleMode::Static => "Static"@,
    }
}

pub open spec fn accum_name(a: AccumMode) -> Seq<char> {
    match a {
        AccumMode::Fp32 => "Fp32"@,
        AccumMode::Bf16Fast => "Bf16Fast"@,
    }
}

fn fp8_name_str(d: Fp8Dtype) -> (s: &'static str)
    ensures
        s@ == fp8_name(d),
{
    match d {
        Fp8Dtype::E4M3 => "E4M3",
        Fp8Dtype::E5M2 => "E5M2",
    }
}

fn scale_name_str(s: ScaleMode) -> (r: &'static str)
    ensures
        r@ == scale_name(s),
{
    match s {
        ScaleMode::DelayedPerTensor => "DelayedPerTensor",
        ScaleMode::Vec16 => "Vec16",
        ScaleMode::Static => "Static",
    }
}

fn accum_name_str(a: AccumMode) -> (r: &'static str)
    ensures
        r@ == accum_name(a),
{
    match a {
        AccumMode::Fp32 => "Fp32",
        AccumMode::Bf16Fast => "Bf16Fast",
    }
}

} // verus!
