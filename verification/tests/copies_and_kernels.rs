use ironaccelerator::copy::{
    plan_copy_from_host, plan_copy_from_host_sync, plan_copy_to_host, plan_wide_copy, extra_copy_workers,
    mismatch_message, CopyPlan, StageRing, STAGE_CHUNK, STAGE_THRESHOLD,
};
use ironaccelerator::error::Error;
use ironaccelerator::types::CoreError;
use ironaccelerator::kernel_cache::{CacheKey, KernelCache};
use ironaccelerator::kernel::{
    fnv1a, cache_file_name, default_arch, nvrtc_flags, disk_cache_disabled, disk_cache_root, CacheRoot,
    split_path_list, include_candidates, dedup_existing, CompileOptions, check_source,
};
use ironaccelerator::memory::{clamp_range, transmute_len, round_up_to_granularity, device_name, DeviceView};

#[test]
fn copy_plans_pick_the_path_by_size() {
    assert!(matches!(plan_copy_from_host(0, 0, 4).unwrap(), CopyPlan::Skip));
    assert!(matches!(plan_copy_from_host(16, 16, 4).unwrap(), CopyPlan::Async));
    assert!(matches!(plan_copy_from_host(STAGE_THRESHOLD, STAGE_THRESHOLD, 1).unwrap(), CopyPlan::Staged));
    assert!(matches!(plan_copy_from_host_sync(STAGE_THRESHOLD, STAGE_THRESHOLD, 1).unwrap(), CopyPlan::StagedThenSync));
    assert!(matches!(plan_copy_from_host_sync(16, 16, 1).unwrap(), CopyPlan::Blocking));
}

#[test]
fn copy_length_mismatch_names_both_sides() {
    match plan_copy_from_host(4, 3, 4) {
        Err(Error::Precondition { op, msg }) => {
            assert_eq!(op, "DeviceBuf::copy_from_host");
            assert_eq!(msg, "length mismatch: dst=4 src=3");
        }
        _ => panic!("expected a precondition error"),
    }
    assert!(plan_copy_to_host(2, 5).is_err());
    assert_eq!(mismatch_message("a", 10, "b", 0), "length mismatch: a=10 b=0");
}

#[test]
fn staged_copy_waits_before_reusing_a_slot() {
    let mut ring = StageRing::new();
    let steps = ring.plan_staged_copy(5 * STAGE_CHUNK + 1);
    assert_eq!(steps.len(), 6);
    for (k, s) in steps.iter().enumerate() {
        assert_eq!(s.offset, k * STAGE_CHUNK);
        assert_eq!(s.slot, k % 4);
        assert_eq!(s.wait_first, k >= 4);
    }
    assert_eq!(steps[5].len, 1);
    assert_eq!(ring.cursor(), 6);
    // Every slot now has a transfer in flight: the next copy waits at once.
    let next = ring.plan_staged_copy(STAGE_CHUNK);
    assert_eq!(next.len(), 1);
    assert_eq!(next[0].slot, 2);
    assert!(next[0].wait_first);
}

#[test]
fn wide_copy_splits_on_page_boundaries() {
    let p = plan_wide_copy(1 << 20, 3);
    assert_eq!(p.jobs, vec![(0, 262144), (262144, 262144), (524288, 262144)]);
    assert_eq!(p.rest_offset, 786432);
    let small = plan_wide_copy(1000, 3);
    assert!(small.jobs.is_empty());
    assert_eq!(small.rest_offset, 0);
    let odd = plan_wide_copy(1_000_000, 3);
    assert_eq!(odd.jobs[1], (253952, 253952));
    assert_eq!(odd.rest_offset, 3 * 253952);
}

#[test]
fn copy_pool_uses_at_most_three_helpers() {
    assert_eq!(extra_copy_workers(None), 0);
    assert_eq!(extra_copy_workers(Some(1)), 0);
    assert_eq!(extra_copy_workers(Some(3)), 2);
    assert_eq!(extra_copy_workers(Some(64)), 3);
}

#[test]
fn fnv1a_matches_reference_vectors() {
    assert_eq!(fnv1a(""), 0xcbf29ce484222325);
    assert_eq!(fnv1a("a"), 0xaf63dc4c8601ec8c);
    assert_eq!(fnv1a("foobar"), 0x85944171f73967e8);
}

#[test]
fn cache_file_names_are_fixed_width_hex() {
    assert_eq!(cache_file_name(0xab, 0x1234), "00000000000000ab_0000000000001234.ptx");
}

#[test]
fn default_arch_follows_compute_capability() {
    assert_eq!(default_arch(9, 0), "compute_90");
    assert_eq!(default_arch(8, 6), "compute_86");
}

#[test]
fn nvrtc_flags_are_ordered() {
    let mut o = CompileOptions::default();
    o.include_paths = vec!["/opt/inc".to_string()];
    o.ftz = Some(true);
    o.fmad = Some(false);
    o.use_fast_math = Some(true);
    o.maxrregcount = Some(64);
    o.extras = vec!["-lineinfo".to_string()];
    let flags = nvrtc_flags("compute_90", &o, &vec!["/usr/local/cuda/include".to_string()]);
    assert_eq!(
        flags,
        vec![
            "--gpu-architecture=compute_90",
            "-I/opt/inc",
            "-I/usr/local/cuda/include",
            "--ftz=true",
            "--fmad=false",
            "--use_fast_math",
            "--maxrregcount=64",
            "-lineinfo",
        ]
    );
}

#[test]
fn disk_cache_switch_and_root() {
    assert!(disk_cache_disabled(Some("off")));
    assert!(disk_cache_disabled(Some("0")));
    assert!(!disk_cache_disabled(Some("1")));
    assert!(!disk_cache_disabled(None));
    assert!(matches!(disk_cache_root(Some("false"), Some("/x")), CacheRoot::Disabled));
    match disk_cache_root(None, Some("/var/ptx")) {
        CacheRoot::Dir(d) => assert_eq!(d, "/var/ptx"),
        _ => panic!("configured directory expected"),
    }
    assert!(matches!(disk_cache_root(None, Some("")), CacheRoot::UnderTemp));
}

#[test]
fn include_search_path_is_deduplicated() {
    assert_eq!(split_path_list("/a::/b:", ':'), vec!["/a", "/b"]);
    let cands = include_candidates(Some("/x:/y"), ':', Some("/cuda"), None, true, &vec!["/cuda/include".to_string()]);
    assert_eq!(cands, vec!["/x", "/y", "/cuda/include", "/usr/local/cuda/include", "/cuda/include"]);
    let kept = dedup_existing(&cands, &vec![true, false, true, true, true]);
    assert_eq!(kept, vec!["/x", "/cuda/include", "/usr/local/cuda/include"]);
}

#[test]
fn views_and_ranges() {
    let v: DeviceView<u32> = DeviceView::new(0x1000, 64);
    let s = v.slice(4, 8);
    assert_eq!(s.device_ptr(), 0x1010);
    assert_eq!(s.len(), 8);
    assert_eq!(v.byte_len(), 256);
    assert_eq!(clamp_range(10, 3, 20), (3, 7));
    assert_eq!(clamp_range(10, 12, 20), (10, 0));
    assert_eq!(clamp_range(10, 5, 2), (5, 0));
}

#[test]
fn transmute_checks_divisibility() {
    assert_eq!(transmute_len(16, 4).unwrap(), 4);
    match transmute_len(10, 4) {
        Err(Error::Precondition { op, msg }) => {
            assert_eq!(op, "DeviceBuf::transmute");
            assert_eq!(msg, "10 bytes not divisible by sizeof<U>=4");
        }
        _ => panic!("expected a precondition error"),
    }
    assert!(transmute_len(10, 0).is_err());
}

#[test]
fn granularity_rounds_up() {
    assert_eq!(round_up_to_granularity(1, 2 << 20), 2 << 20);
    assert_eq!(round_up_to_granularity(2 << 20, 2 << 20), 2 << 20);
    assert_eq!(round_up_to_granularity((2 << 20) + 1, 2 << 20), 4 << 20);
}

#[test]
fn device_names_stop_at_the_terminator() {
    let raw: Vec<i8> = "NVIDIA H100\0garbage".bytes().map(|b| b as i8).collect();
    assert_eq!(device_name(&raw), "NVIDIA H100");
}

#[test]
fn kernel_cache_finds_modules_by_device_source_arch_and_entry() {
    let mut cache: KernelCache<&'static str> = KernelCache::new();
    let k = |dev: u32, arch: &str| CacheKey::new(dev, "__global__ void f(){}", arch.to_string(), 7, "f".to_string());
    assert!(cache.get(&k(0, "compute_90")).is_none());
    cache.insert(k(0, "compute_90"), "mod-a");
    assert_eq!(cache.get(&k(0, "compute_90")), Some(&"mod-a"));
    assert!(cache.get(&k(1, "compute_90")).is_none());
    assert!(cache.get(&k(0, "compute_80")).is_none());
    cache.insert(k(1, "compute_90"), "mod-b");
    cache.insert(k(0, "compute_90"), "mod-c");
    assert_eq!(cache.get(&k(1, "compute_90")), Some(&"mod-b"));
    assert_eq!(cache.get(&k(0, "compute_90")), Some(&"mod-c"));
    assert_eq!(k(0, "x").src_hash, fnv1a("__global__ void f(){}"));
}

#[test]
fn sources_with_nul_are_refused() {
    assert!(check_source("__global__ void k() {}").is_ok());
    assert!(check_source("").is_ok());
    match check_source("__global__\0 void k() {}") {
        Err(CoreError::Other(m)) => assert_eq!(m, "src contains NUL"),
        other => panic!("unexpected {:?}", other),
    }
}
