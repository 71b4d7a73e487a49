use std::collections::HashSet;
use ironaccelerator::compat::{
    plan_key_1d, plan_key_2d, plan_key_3d, vmm_is_supported, CaptureMode, GemmKey, PlanKey, Ptx, ReduceOp,
};
use ironaccelerator::dx12::{
    root_uav_parameters, root_uav_signature, RootUavParameter,
    buffer_setup, barrier_needed, check, check_read, check_write, describe, enumerate_adapters, flags_for,
    select_for_open, utf16_to_string, AdapterProbe, Dx12Backend, DxgiAdapterDesc1, FenceCounter, Luid, Options1,
    DX12_BACKEND, D3D_FEATURE_LEVEL_11_0, D3D_FEATURE_LEVEL_12_1, HEAP_TYPE_DEFAULT, HEAP_TYPE_READBACK,
    HEAP_TYPE_UPLOAD, RESOURCE_STATE_COPY_DEST,
};
use ironaccelerator::fpga::{device_count, is_available, FpgaBackend, FPGA_BACKEND};
use ironaccelerator::streams::{interleaved_priorities, StreamPool};
use ironaccelerator::launch::Priority;
use ironaccelerator::types::{BackendKind, ComputeTier, CoreError, Vendor, FP16, FP32, FP64, MULTI_STREAM, UNIFIED_MEMORY};

#[test]
fn probe_does_not_panic_and_is_consistent() {
    for probe in [None, Some(0u32), Some(3u32)] {
        let avail = is_available(probe);
        let n = device_count(probe);
        if n > 0 {
            assert!(avail, "a nonzero device count implies the library loaded");
        }
        if !avail {
            assert_eq!(n, 0, "no library means no devices");
        }
    }
}

#[test]
fn fpga_backend_reports_one_descriptor_per_card() {
    let b: &FpgaBackend = &FPGA_BACKEND;
    assert_eq!(b.kind(), BackendKind::Fpga);
    assert!(!b.is_available(None));
    assert!(!b.is_available(Some(0)));
    assert!(b.is_available(Some(2)));
    let ds = b.enumerate(Some(2)).unwrap();
    assert_eq!(ds.len(), 2);
    assert_eq!(ds[1].name, "AMD/Xilinx FPGA (XRT device 1)");
    assert_eq!(ds[1].arch, "xrt");
    assert_eq!(ds[1].id.ordinal, 1);
    assert_eq!(ds[1].vendor, Vendor::Amd);
    assert_eq!(ds[1].capability.tier, ComputeTier::Datacenter);
    assert!(b.enumerate(None).unwrap().is_empty());
    assert_eq!(b.capabilities(Some(2), 1).unwrap().bits, 0);
    match b.capabilities(Some(2), 2) {
        Err(CoreError::InvalidArgument(m)) => assert_eq!(m, "fpga device ordinal out of range"),
        _ => panic!("expected an out-of-range error"),
    }
}

fn wide(s: &str) -> [u16; 128] {
    let mut out = [0u16; 128];
    for (i, u) in s.encode_utf16().enumerate() {
        out[i] = u;
    }
    out
}

fn desc(name: &str, vendor_id: u32, flags: u32) -> DxgiAdapterDesc1 {
    DxgiAdapterDesc1 {
        description: wide(name),
        vendor_id,
        device_id: 0x2684,
        sub_sys_id: 0,
        revision: 1,
        dedicated_video_memory: 0,
        dedicated_system_memory: 0,
        shared_system_memory: 1 << 30,
        adapter_luid: Luid { low_part: 1, high_part: 0 },
        flags,
    }
}

fn probe(name: &str, vendor_id: u32, flags: u32, created: bool) -> AdapterProbe {
    AdapterProbe {
        desc: Some(desc(name, vendor_id, flags)),
        device_created: created,
        feature_level: Some(D3D_FEATURE_LEVEL_12_1),
        options: Some((2, 1)),
        options1: Some(Options1 { wave_ops: 1, wave_lane_count_min: 32, wave_lane_count_max: 32, total_lane_count: 4096, int64_shader_ops: 0 }),
        native_16bit: Some(1),
        uma: Some(0),
    }
}

fn probes() -> Vec<AdapterProbe> {
    vec![
        probe("RTX", 0x10DE, 0, true),
        probe("WARP", 0x1414, 2, true),
        probe("Broken", 0x1002, 0, false),
        AdapterProbe { desc: None, ..probe("x", 0, 0, true) },
        probe("Arc", 0x8086, 0, true),
    ]
}

#[test]
fn enumerated_ordinals_are_dense_and_ordered() {
    let adapters = enumerate_adapters(&probes());
    assert_eq!(adapters.len(), 2);
    for (i, a) in adapters.iter().enumerate() {
        assert_eq!(a.ordinal, i as u32);
    }
    assert_eq!(adapters[0].name, "RTX");
    assert_eq!(adapters[1].name, "Arc");
    assert!(adapters[0].fp64 && adapters[0].native_16bit_ops && adapters[0].min_precision_16bit);
    assert!(adapters[0].wave_ops && !adapters[0].int64_shader_ops && !adapters[0].uma);
}

#[test]
fn open_matches_enumerate() {
    let ps = probes();
    let adapters = enumerate_adapters(&ps);
    for a in &adapters {
        let k = select_for_open(&ps, a.ordinal).expect("adapter enumerated but would not open");
        assert_eq!(ps[k].feature_level.unwrap_or(D3D_FEATURE_LEVEL_11_0), a.feature_level);
    }
    assert_eq!(select_for_open(&ps, 0), Some(0));
    assert_eq!(select_for_open(&ps, 1), Some(4));
    assert_eq!(select_for_open(&ps, 2), None);
}

#[test]
fn failed_queries_read_as_unsupported() {
    let mut p = probe("GPU", 0x5143, 0, true);
    p.feature_level = None;
    p.options = None;
    p.options1 = None;
    p.native_16bit = None;
    p.uma = Some(1);
    let a = &enumerate_adapters(&vec![p])[0];
    assert_eq!(a.feature_level, D3D_FEATURE_LEVEL_11_0);
    assert!(!a.fp64 && !a.native_16bit_ops && !a.wave_ops && a.uma);
    assert_eq!(a.total_lane_count, 0);
    let d = describe(a);
    assert_eq!(d.vendor, Vendor::Qualcomm);
    assert_eq!(d.capability.tier, ComputeTier::Mobile);
    assert_eq!(d.arch, "d3d11_x-2684");
    assert_eq!(d.total_memory_bytes, 1 << 30);
    assert_eq!(d.capability.flags.bits, FP32 | MULTI_STREAM | UNIFIED_MEMORY);
}

#[test]
fn capabilities_match_enumerated_descriptors() {
    let b: &Dx12Backend = &DX12_BACKEND;
    let adapters = enumerate_adapters(&probes());
    for d in b.enumerate(&adapters).unwrap() {
        let flags = b.capabilities(&adapters, d.id.ordinal).unwrap();
        assert_eq!(flags, d.capability.flags);
        assert!(flags.contains(FP32));
    }
    assert_eq!(flags_for(&adapters[0]).bits, FP32 | MULTI_STREAM | FP64 | FP16);
    assert_eq!(b.enumerate(&adapters).unwrap()[0].arch, "d3d12_1-2684");
    assert!(b.is_available(true, &adapters));
    assert!(!b.is_available(false, &adapters));
    assert_eq!(b.kind(), BackendKind::Dx12);
}

#[test]
fn unknown_ordinal_is_not_available() {
    let adapters = enumerate_adapters(&probes());
    assert!(DX12_BACKEND.capabilities(&adapters, u32::MAX).is_err());
}

#[test]
fn upload_heap_rejects_read_and_readback_rejects_write() {
    let e = check_read(HEAP_TYPE_UPLOAD, 64, 64).unwrap_err();
    assert_eq!((e.op, e.hr), ("read (buffer is not in the READBACK heap)", 0));
    let e = check_write(HEAP_TYPE_READBACK, 64, 64).unwrap_err();
    assert_eq!((e.op, e.hr), ("write (buffer is not in the UPLOAD heap)", 0));
    assert_eq!(check_write(HEAP_TYPE_UPLOAD, 64, 100).unwrap(), 64);
    assert_eq!(check_read(HEAP_TYPE_READBACK, 64, 10).unwrap(), 10);
}

#[test]
fn buffer_and_submission_helpers() {
    assert_eq!(buffer_setup(HEAP_TYPE_READBACK, 0), (RESOURCE_STATE_COPY_DEST, 0, 1));
    assert_eq!(buffer_setup(HEAP_TYPE_DEFAULT, 64).1, 0x4);
    assert!(!barrier_needed(8, 8));
    assert!(barrier_needed(0, 8));
    assert!(check("op", 0).is_ok());
    let e = check("ID3D12Device::CreateFence", -5).unwrap_err();
    assert_eq!((e.op, e.hr), ("ID3D12Device::CreateFence", -5));
    let mut f = FenceCounter::new();
    assert_eq!(f.take(), 1);
    assert_eq!(f.take(), 2);
    assert_eq!(utf16_to_string(&wide("Radeon")), "Radeon");
    assert_eq!(utf16_to_string(&[0x48, 0x69]), "Hi");
}

#[test]
fn cursor_wraps() {
    let mut pool = StreamPool::new(vec![10u32, 11, 12, 13]);
    let mut seen = Vec::new();
    for _ in 0..8 {
        seen.push(*pool.next());
    }
    assert_eq!(seen, vec![10, 11, 12, 13, 10, 11, 12, 13]);
    assert_eq!(*pool.get(6), 12);
    assert_eq!(pool.len(), 4);
}

#[test]
fn interleaved_pools_alternate_priorities() {
    let p = interleaved_priorities(3);
    assert!(matches!(p[0], Priority::Low));
    assert!(matches!(p[1], Priority::High));
    assert!(matches!(p[2], Priority::Low));
}

#[test]
fn plan_key_is_hashable_and_distinct() {
    let mut s = HashSet::new();
    s.insert(PlanKey { dims: [256, 0, 0], rank: 1, ty: 41, batch: 1, stream: 0x1 });
    s.insert(PlanKey { dims: [256, 0, 0], rank: 1, ty: 41, batch: 2, stream: 0x1 });
    s.insert(PlanKey { dims: [256, 0, 0], rank: 1, ty: 41, batch: 1, stream: 0x1 });
    assert_eq!(s.len(), 2);
    assert_eq!(plan_key_1d(256, 41, 1, 0x1), PlanKey { dims: [256, 0, 0], rank: 1, ty: 41, batch: 1, stream: 0x1 });
    assert_eq!(plan_key_2d(8, 4, 42, 2).dims, [8, 4, 0]);
    assert_eq!(plan_key_3d(8, 4, 2, 42, 2).rank, 3);
}

#[test]
fn gemm_key_is_hashable() {
    let mut s = HashSet::new();
    s.insert(GemmKey { m: 4096, n: 4096, k: 4096, dtype: 0 });
    s.insert(GemmKey { m: 4096, n: 4096, k: 4096, dtype: 1 });
    s.insert(GemmKey { m: 4096, n: 4096, k: 4096, dtype: 0 });
    assert_eq!(s.len(), 2);
}

#[test]
fn ptx_round_trips_through_text() {
    let p = Ptx::from_src(".version 8.0");
    assert_eq!(p.ptx.last(), Some(&0));
    assert_eq!(p.ptx.len(), ".version 8.0".len() + 1);
    assert_eq!(p.to_src(), ".version 8.0");
    let already = Ptx::from_src("x\0");
    assert_eq!(already.ptx, b"x\0".to_vec());
    assert_eq!(Ptx { ptx: vec![b'a', 0, 0] }.to_src(), "a");
}

#[test]
fn small_vocabulary() {
    assert_eq!(ReduceOp::Sum.code(), 0);
    assert_eq!(ReduceOp::Avg.code(), 4);
    assert!(vmm_is_supported(true, true, true));
    assert!(!vmm_is_supported(true, false, true));
    let _ = CaptureMode::Relaxed;
}

#[test]
fn root_signature_binds_one_uav_per_register() {
    let sig = root_uav_signature(3);
    assert_eq!((sig.num_parameters, sig.num_static_samplers, sig.flags), (3, 0, 0));
    assert_eq!(sig.parameters.len(), 3);
    for (i, p) in sig.parameters.iter().enumerate() {
        assert_eq!(
            *p,
            RootUavParameter { parameter_type: 4, shader_register: i as u32, register_space: 0, shader_visibility: 0 }
        );
    }
    assert!(root_uav_parameters(0).is_empty());
}
