//! Cross-backend vocabulary: element types, backend errors, capability
//! flags, compute tiers, workloads and execution strategies.

use vstd::prelude::*;

verus! {

/// Element type of a tensor.
#[derive(Clone, Copy, PartialEq, Eq, Structural, Debug)]
pub enum DType {
    F64,
    F32,
    F16,
    Bf16,
    F8E4M3,
    F8E5M2,
    I64,
    I32,
    I8,
    U8,
}

/// Which backend an error or device belongs to.
#[derive(Clone, Copy, PartialEq, Eq, Structural, Debug)]
pub enum BackendKind {
    Cuda,
    Dx12,
    Fpga,
}

/// Backend-generic error.
#[derive(Debug)]
pub enum CoreError {
    InvalidArgument(&'static str),
    Unsupported(&'static str),
    Other(&'static str),
    Backend { backend: BackendKind, code: i64 },
}

/// Device class, from phones to datacenter parts.
#[derive(Clone, Copy, PartialEq, Eq, Structural, Debug)]
pub enum ComputeTier {
    Baseline,
    Mobile,
    Consumer,
    Workstation,
    Datacenter,
}

/// Silicon vendor.
#[derive(Clone, Copy, PartialEq, Eq, Structural, Debug)]
pub enum Vendor {
    Nvidia,
    Amd,
    Intel,
    Qualcomm,
    Other,
}

/// A set of capability bits.
#[derive(Clone, Copy, PartialEq, Eq, Structural, Debug)]
pub struct CapabilityFlags {
    pub bits: u64,
}

pub const FP64: u64 = 1;
pub const FP32: u64 = 2;
pub const FP16: u64 = 4;
pub const BF16: u64 = 8;
pub const TF32: u64 = 16;
pub const FP8_E4M3: u64 = 32;
pub const FP8_E5M2: u64 = 64;
pub const FP4: u64 = 128;
pub const TENSOR_CORES: u64 = 256;
pub const WMMA: u64 = 512;
pub const SPARSE_2_4: u64 = 1024;
pub const FLASH_ATTN: u64 = 2048;
pub const TRANSFORMER_ENGINE: u64 = 4096;
pub const HOST_PINNED: u64 = 8192;
pub const PEER_ACCESS: u64 = 16384;
pub const ASYNC_ALLOC: u64 = 32768;
pub const MULTI_STREAM: u64 = 65536;
pub const GRAPHS: u64 = 131072;
pub const COOPERATIVE_LAUNCH: u64 = 262144;
pub const NCCL: u64 = 524288;
pub const UNIFIED_MEMORY: u64 = 1048576;
pub const HBM: u64 = 2097152;
pub const NVLINK: u64 = 4194304;

impl CapabilityFlags {
    /// Whether every bit of `flag` is set.
    pub open spec fn has(self, flag: u64) -> bool {
        self.bits & flag == flag
    }

    pub fn empty() -> (f: CapabilityFlags)
        ensures
            f.bits == 0,
    {
        CapabilityFlags { bits: 0 }
    }

    pub fn contains(&self, flag: u64) -> (r: bool)
        ensures
            r == self.has(flag),
    {
        self.bits & flag == flag
    }

    /// The union with `flag`.
    pub fn with(self, flag: u64) -> (f: CapabilityFlags)
        ensures
            f.bits == self.bits | flag,
    {
        CapabilityFlags { bits: self.bits | flag }
    }
}

/// Capability profile of a device. Bandwidth is in kB/s.
#[derive(Clone, Copy, Debug)]
pub struct Capability {
    pub flags: CapabilityFlags,
    pub tier: ComputeTier,
    pub mem_bandwidth_kbps: Option<u64>,
}

/// Kind of a workload to plan for.
#[derive(Clone, Copy, PartialEq, Eq, Structural, Debug)]
pub enum WorkloadKind {
    Gemm,
    BatchedGemm,
    Gemv,
    Attention,
    FlashAttention,
    PagedAttention,
    Conv2d,
    Conv3d,
    DepthwiseConv,
    Fft,
    SpMM,
    Sddmm,
    SampleTopK,
    SampleTopP,
    Softmax,
    LayerNorm,
    RmsNorm,
    Elementwise,
    Activation,
    Quantize,
    Dequantize,
    Mamba,
    Reduce,
    Custom,
}

/// A workload: its kind, problem size and input element type.
#[derive(Clone, Copy, Debug)]
pub struct Workload {
    pub kind: WorkloadKind,
    pub m: u64,
    pub n: u64,
    pub k: u64,
    pub input_dtype: DType,
}

impl Workload {
    /// An `m x n x k` matrix multiply on `dtype` inputs.
    pub fn gemm(m: u64, n: u64, k: u64, dtype: DType) -> (w: Workload)
        ensures
            w.kind == WorkloadKind::Gemm,
            w.m == m && w.n == n && w.k == k,
            w.input_dtype == dtype,
    {
        Workload { kind: WorkloadKind::Gemm, m, n, k, input_dtype: dtype }
    }
}

/// Flash-attention implementation variant.
#[derive(Clone, Copy, PartialEq, Eq, Structural, Debug)]
pub enum FlashVariant {
    V2,
    V3,
    Paged,
    Gqa,
}

/// How a workload is executed.
#[derive(Debug)]
pub enum Strategy {
    TransformerEngine { recipe: &'static str },
    BlasLt { epilogue: &'static str },
    VendorBlas { name: &'static str },
    FusedAttention { variant: FlashVariant },
    CutlassTemplate { tile: (u32, u32, u32), stages: u32 },
    TritonJit { signature: String },
    Custom { name: String },
}

/// A device: its backend and its ordinal within that backend.
#[derive(Clone, Copy, PartialEq, Eq, Structural, Debug)]
pub struct DeviceId {
    pub backend: BackendKind,
    pub ordinal: u32,
}

/// What a backend reports about one device.
#[derive(Debug)]
pub struct DeviceDescriptor {
    pub id: DeviceId,
    pub vendor: Vendor,
    pub name: String,
    pub arch: String,
    pub total_memory_bytes: u64,
    pub multiprocessor_count: u32,
    pub clock_khz: u32,
    pub capability: Capability,
}

} // verus!
