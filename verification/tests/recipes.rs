use ironaccelerator::fp8::{AccumMode, AmaxHistoryLen, Fp8Dtype, Fp8Recipe, ScaleMode};
use ironaccelerator::fp8_gemm::{
    compute_type, fp8_input, output_dtype, plan_fp8_gemm, Fp8Epilogue, Fp8Scales, Fp8Shape,
};
use ironaccelerator::blas::{CublasComputeType, CudaDataType, Op, Order};
use ironaccelerator::types::{CoreError, DType};
use ironaccelerator::moe::{
    kernel_names, launch_plan, plan_expert_steps, scratch_sizes, compile_options, MoeActivation, MoeBuffers,
    MoeDType, MoeParams,
};

#[test]
fn hopper_default_validates() {
    assert!(Fp8Recipe::hopper_default().validate().is_ok());
    assert!(Fp8Recipe::hopper_backward().validate().is_ok());
    assert!(Fp8Recipe::blackwell_mx().validate().is_ok());
    assert!(Fp8Recipe::serving_fast().validate().is_ok());
}

#[test]
fn static_scales_forbid_output_amax() {
    let mut r = Fp8Recipe::serving_fast();
    r.produce_output_amax = true;
    assert!(r.validate().is_err());
}

#[test]
fn zero_history_is_rejected() {
    let mut r = Fp8Recipe::hopper_default();
    r.amax_history = AmaxHistoryLen::Custom(0);
    assert!(r.validate().is_err());
}

#[test]
fn max_values_match_ieee_fp8() {
    assert_eq!(Fp8Dtype::E4M3.max_value() as f32, 448.0);
    assert_eq!(Fp8Dtype::E5M2.max_value() as f32, 57344.0);
}

#[test]
fn tags_are_informative() {
    let t = Fp8Recipe::hopper_default().tag();
    assert!(t.contains("E4M3"));
    assert!(t.contains("Bf16"));
}

#[test]
fn recipe_details_are_exact() {
    assert_eq!(Fp8Recipe::hopper_default().tag(), "fp8[E4M3xE4M3->Bf16:DelayedPerTensor:Fp32]");
    assert_eq!(Fp8Recipe::serving_fast().tag(), "fp8[E4M3xE4M3->Bf16:Static:Bf16Fast]");
    assert_eq!(Fp8Recipe::default(), Fp8Recipe::hopper_default());
    assert_eq!(AmaxHistoryLen::Len1024.as_u32(), 1024);
    assert_eq!(AmaxHistoryLen::Len16.as_u32(), 16);
    assert_eq!(AmaxHistoryLen::Custom(7).as_u32(), 7);
    assert_eq!(Fp8Dtype::E5M2.as_dtype(), DType::F8E5M2);
    let mut r = Fp8Recipe::hopper_default();
    assert_eq!(r.out_elem_bytes(), 2);
    r.out = DType::F32;
    assert_eq!(r.out_elem_bytes(), 4);
    r.out = DType::I32;
    assert_eq!(r.out_elem_bytes(), 2);
    assert_eq!(r.validate(), Err("FP8 output dtype must be Bf16/Fp16/Fp32"));
    let mut s = Fp8Recipe::serving_fast();
    s.produce_output_amax = true;
    assert_eq!(s.validate(), Err("Static scale recipes cannot produce output amax"));
    let mut z = Fp8Recipe::hopper_default();
    z.amax_history = AmaxHistoryLen::Custom(0);
    assert_eq!(z.validate(), Err("amax history length must be >= 1"));
}

#[test]
fn epilogue_codes_are_stable() {
    assert_eq!(Fp8Epilogue::Plain.code(), 1);
    assert_eq!(Fp8Epilogue::Gelu.code(), 32);
    assert!(Fp8Epilogue::Gelu.bias_ptr().is_none());
    assert_eq!(Fp8Epilogue::ReluBias { ptr: 9 }.code(), 12);
    assert_eq!(Fp8Epilogue::GeluBias { ptr: 9 }.bias_ptr(), Some(9));
}

#[test]
fn compute_type_matches_accum_mode() {
    assert!(matches!(compute_type(AccumMode::Fp32), CublasComputeType::F32));
    assert!(matches!(compute_type(AccumMode::Bf16Fast), CublasComputeType::F32FastBf16));
}

#[test]
fn output_dtype_rejects_invalid() {
    assert!(output_dtype(DType::I32).is_err());
    assert!(output_dtype(DType::Bf16).is_ok());
}

#[test]
fn input_dtype_maps_fp8_formats() {
    let r = Fp8Recipe::hopper_default();
    assert!(matches!(fp8_input(r.a), CudaDataType::R8F_E4M3));
    let r2 = Fp8Recipe::hopper_backward();
    assert!(matches!(fp8_input(r2.a), CudaDataType::R8F_E5M2));
}

#[test]
fn fp8_gemm_config_packs_leading_dimensions() {
    let mut shape = Fp8Shape::square(64, 32, 128);
    shape.trans_a = true;
    shape.ldc = 80;
    let scales = Fp8Scales { a_scale: Some(1), b_scale: None, d_scale: Some(3), amax_d: Some(4) };
    let c = plan_fp8_gemm(&Fp8Recipe::serving_fast(), &shape, &scales, Fp8Epilogue::Bias { ptr: 5 }, 1 << 20).unwrap();
    assert_eq!(c.compute, CublasComputeType::F32FastBf16);
    assert!(c.fast_accum);
    assert_eq!((c.trans_a, c.trans_b), (Op::T, Op::N));
    assert_eq!((c.a.rows, c.a.cols, c.a.ld, c.a.order), (128, 64, 128, Order::Col));
    assert_eq!((c.b.rows, c.b.cols, c.b.ld), (128, 32, 128));
    assert_eq!((c.c.rows, c.c.cols, c.c.ld, c.c.dtype), (64, 32, 80, CudaDataType::R16BF));
    assert_eq!(c.d.ld, 64);
    assert_eq!(c.amax_d, None);
    assert_eq!((c.a_scale, c.d_scale), (Some(1), Some(3)));
    assert_eq!((c.epilogue, c.bias), (4, Some(5)));
    assert_eq!(c.max_workspace, 1 << 20);
    let with_amax = plan_fp8_gemm(&Fp8Recipe::hopper_default(), &shape, &scales, Fp8Epilogue::Plain, 0).unwrap();
    assert_eq!(with_amax.amax_d, Some(4));
    assert!(!with_amax.fast_accum);
    let plain = plan_fp8_gemm(&Fp8Recipe::hopper_default(), &Fp8Shape::square(128, 64, 32), &scales, Fp8Epilogue::Plain, 0).unwrap();
    assert_eq!((plain.a.rows, plain.a.cols, plain.a.ld), (128, 32, 32));
}

#[test]
fn fp8_gemm_refuses_invalid_recipes() {
    let mut r = Fp8Recipe::hopper_default();
    r.out = DType::I8;
    match plan_fp8_gemm(&r, &Fp8Shape::square(1, 1, 1), &Fp8Scales::default(), Fp8Epilogue::Plain, 0) {
        Err(CoreError::Other(m)) => assert_eq!(m, "FP8 output dtype must be Bf16/Fp16/Fp32"),
        _ => panic!("expected the recipe error"),
    }
    let _ = ScaleMode::Vec16;
}

fn moe(t: u32, e: u32, k: u32) -> MoeParams {
    MoeParams {
        num_tokens: t,
        hidden: 64,
        inter: 128,
        num_experts: e,
        top_k: k,
        dtype: MoeDType::Bf16,
        activation: MoeActivation::Silu,
    }
}

#[test]
fn moe_params_are_validated_in_order() {
    assert!(moe(4, 8, 2).validate().is_ok());
    let msg = |p: MoeParams| match p.validate() {
        Err(CoreError::InvalidArgument(m)) => m,
        _ => panic!("expected invalid argument"),
    };
    assert_eq!(msg(moe(4, 0, 0)), "MoE: invalid num_experts / top_k");
    assert_eq!(msg(moe(4, 2, 3)), "MoE: invalid num_experts / top_k");
    assert_eq!(msg(moe(4, 16, 9)), "MoE: top_k > 8 not supported by the topk kernel");
    let mut p = moe(4, 8, 2);
    p.inter = 0;
    assert_eq!(msg(p), "MoE: hidden and inter must be non-zero");
}

#[test]
fn moe_scratch_and_kernels() {
    let s = scratch_sizes(&moe(10, 8, 2), 0);
    assert_eq!((s.gate_logits, s.topk_idx, s.offsets, s.running), (80, 20, 9, 8));
    assert_eq!((s.permuted_x, s.permuted_m, s.permuted_y), (20 * 128, 20 * 256, 20 * 128));
    assert_eq!((s.blaslt_ws, s.host_offsets), (1, 9));
    let n = kernel_names(MoeDType::F16);
    assert_eq!(n.permute, "moe_permute_f16");
    assert_eq!(n.combine, "moe_combine_f16");
    assert_eq!(kernel_names(MoeDType::Bf16).silu, "moe_silu_bf16");
    assert_eq!(n.scan, "moe_exclusive_scan");
    assert_eq!(MoeDType::F16.bytes(), 2);
    assert_eq!(MoeDType::Bf16.suffix(), "bf16");
    assert_eq!(MoeDType::Bf16.cublas(), CudaDataType::R16BF);
    let o = compile_options();
    assert_eq!(o.extras, vec!["--use_fast_math", "-std=c++17"]);
}

#[test]
fn moe_launch_geometry() {
    let l = launch_plan(&moe(300, 8, 2));
    assert_eq!(l.topk.grid, (3, 1, 1));
    assert_eq!(l.topk.block, (128, 1, 1));
    assert_eq!(l.count_n, 600);
    assert_eq!(l.count.grid, (5, 1, 1));
    assert_eq!(l.scan.grid, (1, 1, 1));
    assert_eq!(l.permute.grid, (300, 2, 1));
    assert_eq!(l.combine.grid, (300, 1, 1));
    assert_eq!((l.router_a.rows, l.router_a.cols, l.router_a.ld), (300, 64, 64));
    assert_eq!((l.router_c.dtype, l.router_c.cols, l.router_c.order), (CudaDataType::R32F, 8, Order::Row));
}

#[test]
fn moe_schedule_skips_idle_experts() {
    let p = moe(4, 4, 2);
    // Expert 1 receives nothing; experts 0, 2, 3 receive 3, 4 and 1 rows.
    let offs = vec![0, 3, 3, 7, 8];
    let b = MoeBuffers { permuted_x: 0x1000, permuted_m: 0x10_0000, permuted_y: 0x20_0000, w_up: 0x100_0000, w_down: 0x200_0000 };
    let steps = plan_expert_steps(&p, &offs, &b);
    assert_eq!(steps.iter().map(|s| s.expert).collect::<Vec<_>>(), vec![0, 2, 3]);
    assert_eq!(steps.iter().map(|s| s.rows).collect::<Vec<_>>(), vec![3, 4, 1]);
    let s = &steps[1];
    assert_eq!(s.x, 0x1000 + 3 * 128);
    assert_eq!(s.m, 0x10_0000 + 3 * 256);
    assert_eq!(s.y, 0x20_0000 + 3 * 128);
    assert_eq!(s.w_up, 0x100_0000 + 2 * 64 * 128 * 2);
    assert_eq!(s.w_down, 0x200_0000 + 2 * 64 * 128 * 2);
    assert_eq!((s.up_a.rows, s.up_a.cols, s.up_c.cols, s.down_c.cols), (4, 64, 128, 64));
    assert_eq!(s.silu_n, 4 * 128);
    assert_eq!(s.silu.grid, (2, 1, 1));
    assert_eq!(s.silu.block, (256, 1, 1));
    let total: i64 = steps.iter().map(|s| s.rows).sum();
    assert_eq!(total, 8);
}
