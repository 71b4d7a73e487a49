use ironaccelerator::cupti::{classify_activity, ActivityClass, ActivityHeader};
use ironaccelerator::handles::DeviceCache;
use ironaccelerator::backend::{describe_cuda_device, device_capability, empty_cap, enumerate_cuda, CudaDeviceProbe};
use ironaccelerator::error::{backend_status, Error};
use ironaccelerator::kernel::{sort_newest_first, text_le};
use ironaccelerator::types::{BackendKind, ComputeTier, CoreError, Vendor, FP16, FP32, FP8_E4M3};

#[test]
fn install_directories_sort_newest_first() {
    let v = vec![
        "/usr/local/cuda-12.4/include".to_string(),
        "/usr/local/cuda-13.0/include".to_string(),
        "/usr/local/cuda-12.10/include".to_string(),
        "/usr/local/cuda-12.4/include".to_string(),
    ];
    let mut expected = v.clone();
    expected.sort();
    expected.reverse();
    assert_eq!(sort_newest_first(v), expected);
    assert!(sort_newest_first(Vec::new()).is_empty());
}

#[test]
fn text_order_is_by_code_point() {
    assert!(text_le("abc", "abd"));
    assert!(text_le("ab", "abc"));
    assert!(!text_le("abc", "ab"));
    assert!(text_le("", ""));
    assert!(text_le("Z", "a"));
    assert!(text_le("é", "ú"));
}

#[test]
fn driver_errors_become_backend_errors() {
    match CoreError::from(Error::Driver { op: "cuMemAlloc", code: 2 }) {
        CoreError::Backend { backend: BackendKind::Cuda, code } => assert_eq!(code, 2),
        _ => panic!("expected a backend error"),
    }
    match CoreError::from(Error::precondition("x", "y")) {
        CoreError::Backend { code, .. } => assert_eq!(code, -2),
        _ => panic!("expected a backend error"),
    }
    let e = Error::NotAvailable { lib: "cuda-driver", detail: "missing".to_string() };
    assert_eq!(e.op(), "load");
    assert_eq!(e.numeric(), -1);
    assert!(backend_status(0).is_ok());
    match backend_status(7) {
        Err(CoreError::Backend { backend: BackendKind::Cuda, code: 7 }) => {}
        _ => panic!("expected status 7"),
    }
}

fn probe() -> CudaDeviceProbe {
    CudaDeviceProbe {
        name: Some("NVIDIA H100".to_string()),
        compute_capability: Some((9, 0)),
        total_mem: Some(80 << 30),
        multiprocessor_count: Some(132),
        clock_rate_khz: Some(1_980_000),
        memory_clock_khz: Some(1_593_000),
        bus_width_bits: Some(5120),
    }
}

#[test]
fn cuda_devices_are_described_from_their_attributes() {
    let d = describe_cuda_device(3, &probe());
    assert_eq!(d.id.ordinal, 3);
    assert_eq!(d.id.backend, BackendKind::Cuda);
    assert_eq!(d.vendor, Vendor::Nvidia);
    assert_eq!(d.name, "NVIDIA H100");
    assert_eq!(d.arch, "sm_90");
    assert_eq!(d.multiprocessor_count, 132);
    assert!(d.capability.flags.contains(FP8_E4M3));
    assert_eq!(d.capability.tier, ComputeTier::Datacenter);
    assert_eq!(d.capability.mem_bandwidth_kbps, Some(1_593_000 * 5120 / 4));
}

#[test]
fn unreadable_attributes_fall_back() {
    let p = CudaDeviceProbe {
        name: None,
        compute_capability: None,
        total_mem: None,
        multiprocessor_count: None,
        clock_rate_khz: None,
        memory_clock_khz: None,
        bus_width_bits: None,
    };
    assert!(device_capability(&p).is_none());
    let d = describe_cuda_device(0, &p);
    assert_eq!(d.name, "unknown");
    assert_eq!(d.arch, "sm_00");
    assert_eq!(d.total_memory_bytes, 0);
    assert_eq!(d.capability.flags.bits, FP32 | FP16);
    assert_eq!(empty_cap().tier, ComputeTier::Consumer);
}

#[test]
fn devices_that_fail_to_open_are_skipped() {
    let ds = enumerate_cuda(&vec![Some(probe()), None, Some(probe())]);
    assert_eq!(ds.len(), 2);
    assert_eq!(ds[0].id.ordinal, 0);
    assert_eq!(ds[1].id.ordinal, 2);
}

#[test]
fn device_cache_returns_what_was_inserted() {
    let mut c: DeviceCache<&'static str> = DeviceCache::new();
    assert!(c.get(0).is_none());
    c.insert(0, "handle-0");
    c.insert(3, "handle-3");
    assert_eq!(c.get(0), Some(&"handle-0"));
    assert_eq!(c.get(3), Some(&"handle-3"));
    assert!(c.get(1).is_none());
    c.insert(0, "handle-0b");
    assert_eq!(c.get(0), Some(&"handle-0b"));
    assert_eq!(c.len(), 2);
}

#[test]
fn activity_kinds_select_their_layout() {
    assert_eq!(classify_activity(3), ActivityClass::Kernel);
    assert_eq!(classify_activity(10), ActivityClass::Kernel);
    assert_eq!(classify_activity(1), ActivityClass::Memcpy);
    assert_eq!(classify_activity(42), ActivityClass::Other(42));
    let h = ActivityHeader { kind: 1, _pad: 0 };
    assert_eq!(classify_activity(h.kind), ActivityClass::Memcpy);
}
