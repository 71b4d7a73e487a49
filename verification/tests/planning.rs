use ironaccelerator::backend::{capability_from_arch, heuristic_score, plan_strategy, sm_arch};
use ironaccelerator::types::{
    CapabilityFlags, ComputeTier, DType, FlashVariant, Strategy, Workload, WorkloadKind, FP8_E4M3,
    TRANSFORMER_ENGINE, FLASH_ATTN, FP32,
};
use ironaccelerator::attention::{
    recommend, sdpa_graph, variant_pack_uids, check_engine_count, workspace_bytes, dtype_to_cudnn, bhsd,
    bhsd_transposed, AttentionParams, AttrType, CudnnDType, GraphOp, UID_Q, UID_K, UID_V, UID_O, UID_S, UID_P,
};
use ironaccelerator::types::CoreError;

#[test]
fn hopper_picks_transformer_engine_for_fp8_gemm() {
    let cap = capability_from_arch(9, 0, 80 * (1 << 30), 0, 0);
    assert!(cap.flags.contains(FP8_E4M3));
    assert!(cap.flags.contains(TRANSFORMER_ENGINE));
    let w = Workload::gemm(8192, 8192, 8192, DType::F8E4M3);
    match plan_strategy(&cap, &w) {
        Strategy::TransformerEngine { .. } => {}
        _ => panic!("expected TE on Hopper FP8"),
    }
}

#[test]
fn ampere_picks_blaslt_for_bf16_gemm() {
    let cap = capability_from_arch(8, 0, 80 * (1 << 30), 0, 0);
    let w = Workload::gemm(4096, 4096, 4096, DType::Bf16);
    assert!(matches!(plan_strategy(&cap, &w), Strategy::BlasLt { .. }));
}

#[test]
fn hopper_fa_picks_v3() {
    let cap = capability_from_arch(9, 0, 0, 0, 0);
    let w = Workload { kind: WorkloadKind::FlashAttention, ..Workload::gemm(1, 1, 1, DType::Bf16) };
    match plan_strategy(&cap, &w) {
        Strategy::FusedAttention { variant: FlashVariant::V3 } => {}
        _ => panic!("expected FA-v3"),
    }
}

#[test]
fn datacenter_tier_outscores_consumer() {
    let dc = capability_from_arch(9, 0, 80 * (1 << 30), 0, 0);
    let cn = capability_from_arch(8, 6, 24 * (1 << 30), 0, 0);
    let w = Workload::gemm(4096, 4096, 4096, DType::F8E4M3);
    assert!(heuristic_score(&dc, &w) > heuristic_score(&cn, &w));
}

#[test]
fn bandwidth_derived_from_attributes() {
    // H100 SXM: 1593 MHz x 5120-bit = ~2039 GB/s.
    let cap = capability_from_arch(9, 0, 0, 1_593_000, 5120);
    let bw = cap.mem_bandwidth_kbps.expect("bw computed") as f64 / 1.0e6;
    assert!(bw > 1500.0 && bw < 2300.0, "bw={bw}");
}

#[test]
fn heuristic_score_has_exact_values() {
    let dc = capability_from_arch(9, 0, 80 * (1 << 30), 0, 0);
    // 16 (datacenter) x 4 (fp8) x 2 (tensor cores)
    assert_eq!(heuristic_score(&dc, &Workload::gemm(1, 1, 1, DType::F8E4M3)), 128);
    let old = capability_from_arch(6, 1, 8 << 30, 0, 0);
    assert_eq!(heuristic_score(&old, &Workload::gemm(1, 1, 1, DType::F32)), 6);
    assert_eq!(sm_arch(9, 0), "sm_90");
}

#[test]
fn planner_covers_the_other_kinds() {
    let cap = capability_from_arch(7, 5, 16 << 30, 0, 0);
    let k = |kind| Workload { kind, ..Workload::gemm(1, 1, 1, DType::F16) };
    assert!(matches!(plan_strategy(&cap, &k(WorkloadKind::Fft)), Strategy::VendorBlas { name: "cufft" }));
    assert!(matches!(plan_strategy(&cap, &k(WorkloadKind::Attention)), Strategy::FusedAttention { variant: FlashVariant::V2 }));
    assert!(matches!(plan_strategy(&cap, &k(WorkloadKind::Softmax)), Strategy::CutlassTemplate { tile: (1024, 1, 1), stages: 1 }));
    match plan_strategy(&cap, &k(WorkloadKind::Mamba)) {
        Strategy::TritonJit { signature } => assert_eq!(signature, "mamba-scan-bf16"),
        _ => panic!("expected a JIT strategy"),
    }
}

fn params(dtype: DType) -> AttentionParams {
    AttentionParams {
        batch: 1,
        heads: 1,
        seq_q: 128,
        seq_k: 128,
        head_dim: 64,
        dtype,
        causal: false,
        softmax_scale_bits: 0.1f32.to_bits(),
    }
}

#[test]
fn flops_scale_with_seq_squared() {
    let mut p = params(DType::Bf16);
    let a = p.flops();
    p.seq_q *= 2;
    p.seq_k *= 2;
    let b = p.flops();
    assert_eq!(b, a * 4);
}

#[test]
fn attention_sizes_have_exact_values() {
    let p = params(DType::Bf16);
    assert_eq!(p.flops(), 4 * 128 * 128 * 64);
    assert_eq!(p.elements_qkv(), 3 * 128 * 64);
}

#[test]
fn recommendation_follows_hardware_and_dtype() {
    let hopper = capability_from_arch(9, 0, 0, 0, 0);
    assert!(matches!(recommend(&hopper, &params(DType::F8E4M3)).unwrap(), Strategy::FusedAttention { variant: FlashVariant::V3 }));
    let ampere = capability_from_arch(8, 0, 0, 0, 0);
    assert!(matches!(recommend(&ampere, &params(DType::F16)).unwrap(), Strategy::FusedAttention { variant: FlashVariant::V2 }));
    let mut wide = params(DType::Bf16);
    wide.head_dim = 192;
    assert!(matches!(recommend(&ampere, &wide).unwrap(), Strategy::FusedAttention { variant: FlashVariant::Gqa }));
    let mut f32p = params(DType::F32);
    f32p.causal = true;
    match recommend(&ampere, &f32p).unwrap() {
        Strategy::TritonJit { signature } => assert_eq!(signature, "attention:F32:1x128x64:causal"),
        _ => panic!("expected the JIT fallback"),
    }
}

#[test]
fn attention_graph_has_the_sdpa_shape() {
    let mut p = params(DType::F16);
    p.batch = 2;
    p.heads = 8;
    p.seq_k = 256;
    let g = sdpa_graph(&p).unwrap();
    assert_eq!(g.dtype, CudnnDType::Half);
    assert_eq!(g.compute, CudnnDType::Float);
    assert_eq!(g.tensors.len(), 11);
    let q = &g.tensors[0];
    assert_eq!((q.uid, q.dims, q.strides, q.is_virtual), (UID_Q, [2, 8, 128, 64], [8 * 128 * 64, 128 * 64, 64, 1], false));
    let k = &g.tensors[1];
    assert_eq!((k.uid, k.dims, k.strides), (UID_K, [2, 8, 64, 256], [8 * 256 * 64, 256 * 64, 1, 64]));
    let s = &g.tensors[4];
    assert_eq!((s.uid, s.dims, s.strides, s.is_virtual), (UID_S, [2, 8, 128, 256], [8 * 128 * 256, 128 * 256, 256, 1], true));
    assert_eq!(g.tensors[10].uid, UID_P);
    assert_eq!(g.tensors[10].dtype, CudnnDType::Half);
    assert_eq!(g.ops.len(), 8);
    assert_eq!(g.ops[0], GraphOp::Matmul { a: UID_Q, b: UID_K, c: UID_S, compute: CudnnDType::Float });
    assert_eq!(g.ops[7], GraphOp::Matmul { a: UID_P, b: UID_V, c: UID_O, compute: CudnnDType::Float });
    assert_eq!(variant_pack_uids(), [UID_Q, UID_K, UID_V, UID_O]);
}

#[test]
fn attention_graph_rejects_integer_inputs() {
    match sdpa_graph(&params(DType::I8)) {
        Err(CoreError::Unsupported(m)) => assert_eq!(m, "flash_attention: unsupported dtype"),
        _ => panic!("expected unsupported"),
    }
    assert!(dtype_to_cudnn(DType::U8).is_err());
    assert_eq!(dtype_to_cudnn(DType::Bf16).unwrap(), CudnnDType::Bfloat16);
}

#[test]
fn attention_plan_helpers() {
    assert!(check_engine_count(1).is_ok());
    match check_engine_count(0) {
        Err(CoreError::Unsupported(m)) => assert_eq!(m, "flash_attention: no heuristic engine found"),
        _ => panic!("expected unsupported"),
    }
    assert_eq!(workspace_bytes(-5), 0);
    assert_eq!(workspace_bytes(4096), 4096);
    assert_eq!(bhsd(2, 3, 4, 5), ([2, 3, 4, 5], [60, 20, 5, 1]));
    assert_eq!(bhsd_transposed(2, 3, 4, 5), ([2, 3, 5, 4], [60, 20, 1, 5]));
    assert_eq!(AttrType::Handle.code(), 0);
    assert_eq!(AttrType::BackendDescriptor.code(), 15);
    assert_eq!(AttrType::RngDistribution.code(), 26);
}

#[test]
fn capability_flags_compose() {
    let f = CapabilityFlags::empty().with(FP32).with(FLASH_ATTN);
    assert!(f.contains(FP32) && f.contains(FLASH_ATTN));
    assert!(!f.contains(FP8_E4M3));
    let _ = ComputeTier::Mobile;
}
