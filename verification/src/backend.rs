//! CUDA capability derivation and the pure planner: compute capability and
//! memory attributes to capability flags and tier, workload to strategy.

use vstd::prelude::*;
use crate::types::{Capability, CapabilityFlags, ComputeTier, DType, FlashVariant, Strategy, Workload, WorkloadKind,
    BackendKind, DeviceDescriptor, DeviceId, Vendor,
    FP64, FP32, FP16, BF16, TF32, FP8_E4M3, FP8_E5M2, FP4, TENSOR_CORES, WMMA, SPARSE_2_4, FLASH_ATTN,
    TRANSFORMER_ENGINE, HOST_PINNED, PEER_ACCESS, ASYNC_ALLOC, MULTI_STREAM, GRAPHS, COOPERATIVE_LAUNCH, NCCL,
    UNIFIED_MEMORY, HBM, NVLINK};
use crate::text::{decimal, push_decimal, push_str};

verus! {

/// Flags every CUDA device reports.
pub open spec fn base_flags() -> u64 {
    FP64 | FP32 | FP16 | HOST_PINNED | PEER_ACCESS | ASYNC_ALLOC | MULTI_STREAM | GRAPHS
        | COOPERATIVE_LAUNCH | NCCL
}

/// Capability flags of compute capability `major.x`: the base set, tensor
/// cores from Volta (7), BF16/TF32/flash attention from Ampere (8), FP8 and
/// the Transformer Engine from Hopper (9), FP4 from Blackwell (10).
pub open spec fn arch_flags(major: i32) -> u64 {
    let f0 = base_flags();
    let f1 = if major >= 7 { f0 | TENSOR_CORES | WMMA } else { f0 };
    let f2 = if major >= 8 { f1 | TF32 | BF16 | SPARSE_2_4 | FLASH_ATTN | UNIFIED_MEMORY } else { f1 };
    let f3 = if major >= 9 { f2 | FP8_E4M3 | FP8_E5M2 | TRANSFORMER_ENGINE | HBM | NVLINK } else { f2 };
    if major >= 10 { f3 | FP4 } else { f3 }
}

/// Tier of a device: pre-Volta parts are consumer, Volta workstation,
/// Ampere datacenter above 40 GiB and workstation below, later parts
/// datacenter.
pub open spec fn arch_tier(major: i32, total_mem: u64) -> ComputeTier {
    if major <= 6 {
        ComputeTier::Consumer
    } else if major == 7 {
        ComputeTier::Workstation
    } else if major == 8 {
        if total_mem > 40 * 1073741824 { ComputeTier::Datacenter } else { ComputeTier::Workstation }
    } else {
        ComputeTier::Datacenter
    }
}

/// Translate compute capability and memory attributes into a capability
/// profile. Bandwidth, when both attributes are known, is the double-data-rate
/// product `2 x clock x bus width / 8` in kB/s.
pub fn capability_from_arch(major: i32, minor: i32, total_mem: u64, mem_clock_khz: u32, bus_width_bits: u32) -> (c: Capability)
    ensures
        c.flags.bits == arch_flags(major),
        c.tier == arch_tier(major, total_mem),
        c.mem_bandwidth_kbps == (if mem_clock_khz > 0 && bus_width_bits > 0 {
            Some(((mem_clock_khz as nat * bus_width_bits as nat) / 4) as u64)
        } else {
            None::<u64>
        }),
{
    let mut flags = FP64 | FP32 | FP16 | HOST_PINNED | PEER_ACCESS | ASYNC_ALLOC | MULTI_STREAM
        | GRAPHS | COOPERATIVE_LAUNCH | NCCL;
    if major >= 7 {
        flags = flags | TENSOR_CORES | WMMA;
    }
    if major >= 8 {
        flags = flags | TF32 | BF16 | SPARSE_2_4 | FLASH_ATTN | UNIFIED_MEMORY;
    }
    if major >= 9 {
        flags = flags | FP8_E4M3 | FP8_E5M2 | TRANSFORMER_ENGINE | HBM | NVLINK;
    }
    if major >= 10 {
        flags = flags | FP4;
    }
    let tier = if major <= 6 {
        ComputeTier::Consumer
    } else if major == 7 {
        ComputeTier::Workstation
    } else if major == 8 {
        if total_mem > 40 * 1073741824 { ComputeTier::Datacenter } else { ComputeTier::Workstation }
    } else {
        ComputeTier::Datacenter
    };
    let bw = if mem_clock_khz > 0 && bus_width_bits > 0 {
        proof {
            assert(mem_clock_khz as nat * bus_width_bits as nat <= u32::MAX as nat * u32::MAX as nat) by (nonlinear_arith);
        }
        Some((mem_clock_khz as u64) * (bus_width_bits as u64) / 4)
    } else {
        None
    };
    let _ = minor;
    Capability { flags: CapabilityFlags { bits: flags }, tier, mem_bandwidth_kbps: bw }
}

/// `sm_{major}{minor}`: the architecture name a device reports.
pub open spec fn sm_arch_text(major: nat, minor: nat) -> Seq<char> {
    "sm_"@ + decimal(major) + decimal(minor)
}

pub fn sm_arch(major: u32, minor: u32) -> (s: String)
    ensures
        s@ == sm_arch_text(major as nat, minor as nat),
{
    let mut s = String::new();
    push_str(&mut s, "sm_");
    push_decimal(&mut s, major as u64);
    push_decimal(&mut s, minor as u64);
    proof {
        assert(s@ =~= sm_arch_text(major as nat, minor as nat));
    }
    s
}

/// Tier weight of the score, in quarter points.
pub open spec fn tier_weight(t: ComputeTier) -> nat {
    match t {
        ComputeTier::Datacenter => 16,
        ComputeTier::Workstation => 10,
        ComputeTier::Consumer => 6,
        ComputeTier::Mobile => 4,
        ComputeTier::Baseline => 1,
    }
}

pub open spec fn is_gemm_like(k: WorkloadKind) -> bool {
    k == WorkloadKind::Gemm || k == WorkloadKind::BatchedGemm || k == WorkloadKind::Conv2d
}

pub open spec fn is_attention_like(k: WorkloadKind) -> bool {
    k == WorkloadKind::FlashAttention || k == WorkloadKind::PagedAttention
}

/// Preference score of a workload on a device, in quarter points: the tier
/// weight, times 4 for FP8 inputs on FP8 hardware, 2 for BF16 inputs on BF16
/// hardware, 2 for matrix work on tensor cores, 2 for attention on
/// flash-attention hardware.
pub open spec fn spec_score(cap: Capability, w: Workload) -> nat {
    tier_weight(cap.tier)
        * (if w.input_dtype == DType::F8E4M3 && cap.flags.has(FP8_E4M3) { 4nat } else { 1nat })
        * (if w.input_dtype == DType::Bf16 && cap.flags.has(BF16) { 2nat } else { 1nat })
        * (if is_gemm_like(w.kind) && cap.flags.has(TENSOR_CORES) { 2nat } else { 1nat })
        * (if is_attention_like(w.kind) && cap.flags.has(FLASH_ATTN) { 2nat } else { 1nat })
}

/// Preference score of `w` on a device with capability `cap`, in quarter
/// points (higher is preferred).
pub fn heuristic_score(cap: &Capability, w: &Workload) -> (s: u32)
    ensures
        s as nat == spec_score(*cap, *w),
{
    let mut s: u32 = match cap.tier {
        ComputeTier::Datacenter => 16,
        ComputeTier::Workstation => 10,
        ComputeTier::Consumer => 6,
        ComputeTier::Mobile => 4,
        ComputeTier::Baseline => 1,
    };
    let a: u32 = if w.input_dtype == DType::F8E4M3 && cap.flags.contains(FP8_E4M3) { 4 } else { 1 };
    let b: u32 = if w.input_dtype == DType::Bf16 && cap.flags.contains(BF16) { 2 } else { 1 };
    let gemm = match w.kind {
        WorkloadKind::Gemm | WorkloadKind::BatchedGemm | WorkloadKind::Conv2d => true,
        _ => false,
    };
    let attn = match w.kind {
        WorkloadKind::FlashAttention | WorkloadKind::PagedAttention => true,
        _ => false,
    };
    let c: u32 = if gemm && cap.flags.contains(TENSOR_CORES) { 2 } else { 1 };
    let d: u32 = if attn && cap.flags.contains(FLASH_ATTN) { 2 } else { 1 };
    s = s * a;
    s = s * b;
    s = s * c;
    s = s * d;
    s
}

/// The strategy the planner picks for workload `w` on a device with
/// capability `cap`.
pub open spec fn plans(cap: Capability, w: Workload, r: Strategy) -> bool {
    let f = cap.flags;
    match w.kind {
        WorkloadKind::Gemm | WorkloadKind::BatchedGemm => if f.has(TRANSFORMER_ENGINE) && (w.input_dtype
            == DType::F8E4M3 || w.input_dtype == DType::F8E5M2) {
            r matches Strategy::TransformerEngine { recipe } && recipe@ == "delayed-scaling-e4m3"@
        } else if f.has(TENSOR_CORES) {
            r matches Strategy::BlasLt { epilogue } && epilogue@ == "bias-gelu"@
        } else {
            r matches Strategy::VendorBlas { name } && name@ == "cublas-sgemm"@
        },
        WorkloadKind::Gemv => r matches Strategy::VendorBlas { name } && name@ == "cublas-gemv"@,
        WorkloadKind::FlashAttention | WorkloadKind::Attention => r matches Strategy::FusedAttention { variant }
            && variant == (if f.has(TRANSFORMER_ENGINE) { FlashVariant::V3 } else { FlashVariant::V2 }),
        WorkloadKind::PagedAttention => r matches Strategy::FusedAttention { variant } && variant == FlashVariant::Paged,
        WorkloadKind::Conv2d | WorkloadKind::Conv3d | WorkloadKind::DepthwiseConv => r matches Strategy::VendorBlas { name } && name@ == "cudnn-conv"@,
        WorkloadKind::Fft => r matches Strategy::VendorBlas { name } && name@ == "cufft"@,
        WorkloadKind::SpMM => r matches Strategy::VendorBlas { name } && name@ == "cusparse-spmm"@,
        WorkloadKind::Sddmm => r matches Strategy::VendorBlas { name } && name@ == "cusparse-sddmm"@,
        WorkloadKind::SampleTopK | WorkloadKind::SampleTopP => r matches Strategy::CutlassTemplate { tile, stages } && tile == (256u32, 1u32, 1u32) && stages == 2,
        WorkloadKind::Softmax | WorkloadKind::LayerNorm | WorkloadKind::RmsNorm | WorkloadKind::Elementwise
        | WorkloadKind::Activation | WorkloadKind::Reduce => r matches Strategy::CutlassTemplate { tile, stages } && tile == (1024u32, 1u32, 1u32) && stages == 1,
        WorkloadKind::Quantize | WorkloadKind::Dequantize => r matches Strategy::CutlassTemplate { tile, stages } && tile == (256u32, 1u32, 1u32) && stages == 1,
        WorkloadKind::Mamba => r matches Strategy::TritonJit { signature } && signature@ == "mamba-scan-bf16"@,
        WorkloadKind::Custom => r matches Strategy::Custom { name } && name@ == "user"@,
    }
}

/// Pure planner: capability plus workload to strategy, no driver call.
pub fn plan_strategy(cap: &Capability, w: &Workload) -> (r: Strategy)
    ensures
        plans(*cap, *w, r),
{
    let f = cap.flags;
    match w.kind {
        WorkloadKind::Gemm | WorkloadKind::BatchedGemm => {
            let fp8 = match w.input_dtype {
                DType::F8E4M3 | DType::F8E5M2 => true,
                _ => false,
            };
            if f.contains(TRANSFORMER_ENGINE) && fp8 {
                Strategy::TransformerEngine { recipe: "delayed-scaling-e4m3" }
            } else if f.contains(TENSOR_CORES) {
                Strategy::BlasLt { epilogue: "bias-gelu" }
            } else {
                Strategy::VendorBlas { name: "cublas-sgemm" }
            }
        },
        WorkloadKind::Gemv => Strategy::VendorBlas { name: "cublas-gemv" },
        WorkloadKind::FlashAttention | WorkloadKind::Attention => {
            let v = if f.contains(TRANSFORMER_ENGINE) { FlashVariant::V3 } else { FlashVariant::V2 };
            Strategy::FusedAttention { variant: v }
        },
        WorkloadKind::PagedAttention => Strategy::FusedAttention { variant: FlashVariant::Paged },
        WorkloadKind::Conv2d | WorkloadKind::Conv3d | WorkloadKind::DepthwiseConv => Strategy::VendorBlas { name: "cudnn-conv" },
        WorkloadKind::Fft => Strategy::VendorBlas { name: "cufft" },
        WorkloadKind::SpMM => Strategy::VendorBlas { name: "cusparse-spmm" },
        WorkloadKind::Sddmm => Strategy::VendorBlas { name: "cusparse-sddmm" },
        WorkloadKind::SampleTopK | WorkloadKind::SampleTopP => Strategy::CutlassTemplate { tile: (256, 1, 1), stages: 2 },
        WorkloadKind::Softmax | WorkloadKind::LayerNorm | WorkloadKind::RmsNorm | WorkloadKind::Elementwise
        | WorkloadKind::Activation | WorkloadKind::Reduce => Strategy::CutlassTemplate { tile: (1024, 1, 1), stages: 1 },
        WorkloadKind::Quantize | WorkloadKind::Dequantize => Strategy::CutlassTemplate { tile: (256, 1, 1), stages: 1 },
        WorkloadKind::Mamba => Strategy::TritonJit { signature: "mamba-scan-bf16".to_string() },
        WorkloadKind::Custom => Strategy::Custom { name: "user".to_string() },
    }
}

/// Capability flags grow with the architecture: a newer device has every
/// flag an older one has.
pub proof fn lemma_flags_monotone(a: i32, b: i32)
    requires
        a <= b,
    ensures
        arch_flags(a) & arch_flags(b) == arch_flags(a),
{
    assert((arch_flags(a) & arch_flags(b)) == arch_flags(a)) by (bit_vector)
        requires
            a <= b,
    ;
}

/// Capability of a device whose attributes could not be read: FP32 and
/// FP16 on a consumer part, nothing else claimed.
pub fn empty_cap() -> (c: Capability)
    ensures
        c.flags.bits == FP32 | FP16,
        c.tier == ComputeTier::Consumer,
        c.mem_bandwidth_kbps is None,
{
    Capability { flags: CapabilityFlags { bits: FP32 | FP16 }, tier: ComputeTier::Consumer, mem_bandwidth_kbps: None }
}

/// What the driver reported about one device; a failed query is `None`.
#[derive(Debug)]
pub struct CudaDeviceProbe {
    pub name: Option<String>,
    pub compute_capability: Option<(u32, u32)>,
    pub total_mem: Option<usize>,
    pub multiprocessor_count: Option<i32>,
    pub clock_rate_khz: Option<i32>,
    pub memory_clock_khz: Option<i32>,
    pub bus_width_bits: Option<i32>,
}

pub open spec fn or_zero(v: Option<i32>) -> i32 {
    match v {
        Some(x) => x,
        None => 0,
    }
}

/// The capability of a probed device: it needs the compute capability and
/// the memory size; an unreadable clock or bus width counts as zero.
pub open spec fn probed_capability(p: CudaDeviceProbe, c: Capability) -> bool {
    match (p.compute_capability, p.total_mem) {
        (Some((maj, _)), Some(mem)) => {
            let clock = or_zero(p.memory_clock_khz) as u32;
            let bus = or_zero(p.bus_width_bits) as u32;
            &&& c.flags.bits == arch_flags(maj as i32)
            &&& c.tier == arch_tier(maj as i32, mem as u64)
            &&& c.mem_bandwidth_kbps == (if clock > 0 && bus > 0 {
                Some(((clock as nat * bus as nat) / 4) as u64)
            } else {
                None::<u64>
            })
        },
        _ => false,
    }
}

#[verifier::truncate]
fn as_i32(x: u32) -> (r: i32)
    ensures
        r == x as i32,
{
    x as i32
}

#[verifier::truncate]
fn as_u32(x: i32) -> (r: u32)
    ensures
        r == x as u32,
{
    x as u32
}

/// Capability of a probed device, if its compute capability and memory size
/// could be read.
pub fn device_capability(p: &CudaDeviceProbe) -> (r: Option<Capability>)
    ensures
        (p.compute_capability is Some && p.total_mem is Some) <==> r is Some,
        r matches Some(c) ==> probed_capability(*p, c),
{
    match (p.compute_capability, p.total_mem) {
        (Some((maj, min)), Some(mem)) => {
            let clock = as_u32(match p.memory_clock_khz { Some(x) => x, None => 0 });
            let bus = as_u32(match p.bus_width_bits { Some(x) => x, None => 0 });
            Some(capability_from_arch(as_i32(maj), as_i32(min), mem as u64, clock, bus))
        },
        _ => None,
    }
}

/// The descriptor of CUDA device `ord`: an unreadable name reads
/// `unknown`, an unreadable compute capability `0.0`, unreadable sizes and
/// clocks zero, and an unreadable capability the empty one.
pub open spec fn cuda_descriptor_is(d: DeviceDescriptor, ord: u32, p: CudaDeviceProbe) -> bool {
    let (maj, min) = match p.compute_capability { Some(cc) => cc, None => (0u32, 0u32) };
    &&& d.id == (DeviceId { backend: BackendKind::Cuda, ordinal: ord })
    &&& d.vendor == Vendor::Nvidia
    &&& d.name@ == (match p.name { Some(n) => n@, None => "unknown"@ })
    &&& d.arch@ == sm_arch_text(maj as nat, min as nat)
    &&& d.total_memory_bytes == (match p.total_mem { Some(m) => m as u64, None => 0 })
    &&& d.multiprocessor_count == or_zero(p.multiprocessor_count) as u32
    &&& d.clock_khz == or_zero(p.clock_rate_khz) as u32
    &&& (if p.compute_capability is Some && p.total_mem is Some {
        probed_capability(p, d.capability)
    } else {
        d.capability.flags.bits == FP32 | FP16 && d.capability.tier == ComputeTier::Consumer
            && d.capability.mem_bandwidth_kbps is None
    })
}

/// Describe CUDA device `ord` from what the driver reported.
pub fn describe_cuda_device(ord: u32, p: &CudaDeviceProbe) -> (d: DeviceDescriptor)
    ensures
        cuda_descriptor_is(d, ord, *p),
{
    let name = match &p.name {
        Some(n) => n.clone(),
        None => "unknown".to_string(),
    };
    let (maj, min) = match p.compute_capability {
        Some(cc) => cc,
        None => (0, 0),
    };
    let total = match p.total_mem {
        Some(m) => m as u64,
        None => 0,
    };
    let mp = as_u32(match p.multiprocessor_count { Some(x) => x, None => 0 });
    let clock = as_u32(match p.clock_rate_khz { Some(x) => x, None => 0 });
    let cap = match device_capability(p) {
        Some(c) => c,
        None => empty_cap(),
    };
    DeviceDescriptor {
        id: DeviceId { backend: BackendKind::Cuda, ordinal: ord },
        vendor: Vendor::Nvidia,
        name,
        arch: sm_arch(maj, min),
        total_memory_bytes: total,
        multiprocessor_count: mp,
        clock_khz: clock,
        capability: cap,
    }
}

/// The ordinals among the first `n` whose device could be opened, in order.
pub open spec fn opened(ps: Seq<Option<CudaDeviceProbe>>, n: nat) -> Seq<int>
    decreases n,
{
    if n == 0 {
        seq![]
    } else {
        let prev = opened(ps, (n - 1) as nat);
        if ps[n - 1] is Some { prev.push(n - 1) } else { prev }
    }
}

/// One descriptor per device that could be opened, in ordinal order;
/// `probes[i]` is `None` when device `i` could not be opened.
pub fn enumerate_cuda(probes: &Vec<Option<CudaDeviceProbe>>) -> (r: Vec<DeviceDescriptor>)
    requires
        probes@.len() <= u32::MAX,
    ensures
        r@.len() == opened(probes@, probes@.len() as nat).len(),
        forall|j: int| 0 <= j < r@.len() ==> {
            let ord = #[trigger] opened(probes@, probes@.len() as nat)[j];
            cuda_descriptor_is(r@[j], ord as u32, probes@[ord]->0)
        },
{
    let mut out: Vec<DeviceDescriptor> = Vec::new();
    let mut ord: usize = 0;
    while ord < probes.len()
        invariant
            ord <= probes@.len(),
            probes@.len() <= u32::MAX,
            out@.len() == opened(probes@, ord as nat).len(),
            forall|j: int| 0 <= j < out@.len() ==> {
                let o = #[trigger] opened(probes@, ord as nat)[j];
                cuda_descriptor_is(out@[j], o as u32, probes@[o]->0)
            },
            forall|j: int| 0 <= j < opened(probes@, ord as nat).len() ==> 0 <= #[trigger] opened(probes@, ord as nat)[j] < ord,
        decreases probes@.len() - ord,
    {
        let ghost before = out@;
        match &probes[ord] {
            Some(p) => {
                let d = describe_cuda_device(ord as u32, p);
                out.push(d);
                proof {
                    assert(opened(probes@, (ord + 1) as nat) == opened(probes@, ord as nat).push(ord as int));
                    assert forall|j: int| 0 <= j < out@.len() implies {
                        let o = #[trigger] opened(probes@, (ord + 1) as nat)[j];
                        cuda_descriptor_is(out@[j], o as u32, probes@[o]->0)
                    } by {
                        if j < before.len() {
                            assert(out@[j] == before[j]);
                        }
                    }
                }
            },
            None => {
                proof {
                    assert(opened(probes@, (ord + 1) as nat) == opened(probes@, ord as nat));
                }
            },
        }
        ord = ord + 1;
    }
    out
}

} // verus!
