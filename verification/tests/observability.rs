use ironaccelerator::observe::{range, Metrics, MetricsSnapshot};
use ironaccelerator::profile::{json_str, trim_trailing_underscores, Event, Profiler};

fn ratio(hits: u64, misses: u64) -> f32 {
    let total = hits + misses;
    if total == 0 { 0.0 } else { hits as f32 / total as f32 }
}

#[test]
fn counters_accumulate() {
    let mut m = Metrics::default();
    m.record_alloc(1024);
    m.record_alloc(2048);
    m.record_free(512);
    m.record_htod(8192);
    m.record_launch();
    m.record_nvrtc(true);
    m.record_nvrtc(false);
    let s = m.snapshot();
    assert_eq!(s.alloc_calls, 2);
    assert_eq!(s.alloc_bytes, 3072);
    assert_eq!(s.resident_bytes(), 2560);
    assert_eq!(s.htod_bytes, 8192);
    assert_eq!(s.kernels_launched, 1);
    assert!((ratio(s.nvrtc_hits, s.nvrtc_misses) - 0.5).abs() < 1e-6);
}

#[test]
fn empty_ratios_are_zero() {
    let s = Metrics::default().snapshot();
    assert_eq!(ratio(s.nvrtc_hits, s.nvrtc_misses), 0.0);
    assert_eq!(ratio(s.fft_hits, s.fft_misses), 0.0);
    assert_eq!(s.resident_bytes(), 0);
}

#[test]
fn counters_wrap_and_resident_can_go_negative() {
    let mut m = Metrics::new();
    m.record_dtoh(u64::MAX);
    m.record_dtoh(2);
    assert_eq!(m.snapshot().dtoh_bytes, 1);
    m.record_free(10);
    assert_eq!(m.snapshot().resident_bytes(), -10);
    m.record_fft(true);
    m.record_fft(false);
    m.record_fft(false);
    m.record_blas();
    m.record_collective();
    let s = m.snapshot();
    assert_eq!((s.fft_hits, s.fft_misses, s.blas_calls, s.collectives), (1, 2, 1, 1));
}

#[test]
fn range_builder_keeps_its_attributes() {
    let b = range("attention.fwd").argb(0xff2ea043).category(7);
    assert_eq!(b.msg, "attention.fwd");
    assert_eq!(b.argb, Some(0xff2ea043));
    assert_eq!(b.category, Some(7));
}

#[test]
fn disabled_profiler_is_free() {
    let mut p = Profiler::new();
    assert!(!p.is_enabled());
    assert!(p.cpu_span("foo", 0, 0).is_none());
    p.mark("bar", 10);
    p.flush_gpu(&vec![]);
    assert_eq!(p.len(), 0);
}

#[test]
fn cpu_spans_record_when_enabled() {
    let mut p = Profiler::new();
    p.enable();
    let outer = p.cpu_span("outer", 1_000, 1).unwrap();
    let inner = p.cpu_span("inner", 11_000, 1).unwrap();
    p.finish_cpu_span(inner, 21_000);
    p.finish_cpu_span(outer, 31_000);
    assert_eq!(p.len(), 2);
}

#[test]
fn marks_record_timestamps() {
    let mut p = Profiler::new();
    p.enable();
    p.mark("step-start", 5);
    p.mark("step-end", 9);
    assert_eq!(p.len(), 2);
}

#[test]
fn capacity_is_enforced() {
    let mut p = Profiler::new();
    p.enable();
    p.set_capacity(3);
    for i in 0..10 {
        p.mark(&format!("m{i}"), i);
    }
    assert_eq!(p.len(), 3);
    assert_eq!(p.dropped(), 7);
}

#[test]
fn chrome_trace_is_valid_json_shape() {
    let mut p = Profiler::new();
    p.enable();
    p.mark("m", 1_500);
    let s = p.cpu_span("c", 2_000, 3).unwrap();
    p.finish_cpu_span(s, 9_000);
    let t = p.chrome_trace();
    assert!(t.starts_with("{\"traceEvents\":["));
    assert!(t.ends_with("]}"));
    assert!(t.contains("\"ph\":\"X\""));
    assert!(t.contains("\"ph\":\"i\""));
}

#[test]
fn chrome_trace_has_exact_records() {
    let mut p = Profiler::new();
    p.enable();
    p.mark("a\"b", 2_500);
    let s = p.cpu_span("c", 1_000, 3).unwrap();
    p.finish_cpu_span(s, 9_000);
    assert_eq!(
        p.chrome_trace(),
        "{\"traceEvents\":[{\"ph\":\"i\",\"cat\":\"mark\",\"name\":\"a\\\"b\",\"pid\":0,\"tid\":0,\"ts\":2,\"s\":\"g\"},{\"ph\":\"X\",\"cat\":\"cpu\",\"name\":\"c\",\"pid\":0,\"tid\":3,\"ts\":1,\"dur\":8}]}"
    );
}

#[test]
fn gpu_spans_are_resolved_and_stitched() {
    let mut p = Profiler::new();
    p.enable();
    p.push_gpu_pending("k1".to_string(), 1, 2);
    p.mark("m", 0);
    p.push_gpu_pending("k2".to_string(), 3, 4);
    p.push_gpu_pending("k3".to_string(), 5, 6);
    p.flush_gpu(&vec![Some(100), None, Some(40), None]);
    let ev = p.events();
    assert!(matches!(&ev[0], Event::Gpu { start_us: 0, end_us: 100, .. }));
    assert!(matches!(&ev[2], Event::Gpu { start_us: 100, end_us: 140, .. }));
    assert!(matches!(&ev[3], Event::GpuPending { start: 5, stop: 6, .. }));
    // The pending span writes nothing; the comma logic then skips one separator.
    let t = p.chrome_trace();
    assert!(t.contains("\"cat\":\"gpu\",\"name\":\"k2\",\"pid\":1,\"tid\":0,\"ts\":100,\"dur\":40"));
    // Resolving the last one appends it after the others.
    p.flush_gpu(&vec![None, None, None, Some(7)]);
    assert!(matches!(&p.events()[3], Event::Gpu { start_us: 140, end_us: 147, .. }));
}

#[test]
fn prometheus_exports_all_counters() {
    let p = Profiler::new();
    let mut m = MetricsSnapshot::default();
    m.alloc_bytes = 1024;
    m.free_bytes = 256;
    m.kernels_launched = 3;
    let out = p.prometheus("iron", &m, "0", "0");
    assert!(out.contains("iron_alloc_bytes_total 1024"));
    assert!(out.contains("iron_resident_bytes 768"));
    assert!(out.contains("iron_kernels_launched_total 3"));
    assert!(out.contains("# TYPE iron_alloc_bytes_total gauge"));
}

#[test]
fn prometheus_trims_the_prefix_and_keeps_order() {
    let p = Profiler::new();
    let out = p.prometheus("ia__", &MetricsSnapshot::default(), "0.5", "1");
    assert!(out.starts_with("# HELP ia_alloc_bytes_total Device memory allocated via tensor factories\n# TYPE ia_alloc_bytes_total gauge\nia_alloc_bytes_total 0\n"));
    assert!(out.contains("ia_nvrtc_hit_ratio 0.5\n"));
    assert!(out.ends_with("ia_profiler_dropped_total 0\n"));
    assert_eq!(trim_trailing_underscores("a_b__"), "a_b");
    assert_eq!(trim_trailing_underscores("___"), "");
}

#[test]
fn clear_resets_dropped_counter() {
    let mut p = Profiler::new();
    p.enable();
    p.set_capacity(1);
    p.mark("a", 1);
    p.mark("b", 2);
    p.mark("c", 3);
    assert!(p.dropped() > 0);
    p.clear();
    assert_eq!(p.dropped(), 0);
    assert_eq!(p.len(), 0);
}

#[test]
fn enable_disable_toggles() {
    let mut p = Profiler::new();
    p.enable();
    assert!(p.is_enabled());
    p.disable();
    assert!(!p.is_enabled());
}

#[test]
fn json_strings_are_escaped() {
    assert_eq!(json_str("plain"), "\"plain\"");
    assert_eq!(json_str("a\\b\n\t\r\""), "\"a\\\\b\\n\\t\\r\\\"\"");
    assert_eq!(json_str("\u{1}x"), "\"\\u0001x\"");
    assert_eq!(json_str("é"), "\"é\"");
}

#[test]
fn chrome_trace_skips_pending_spans_without_stray_commas() {
    let mut p = Profiler::new();
    p.enable();
    p.push_gpu_pending("k0".to_string(), 1, 2);
    p.mark("a", 1_000);
    p.push_gpu_pending("k1".to_string(), 3, 4);
    p.mark("b", 2_000);
    p.push_gpu_pending("k2".to_string(), 5, 6);
    assert_eq!(
        p.chrome_trace(),
        "{\"traceEvents\":[{\"ph\":\"i\",\"cat\":\"mark\",\"name\":\"a\",\"pid\":0,\"tid\":0,\"ts\":1,\"s\":\"g\"},{\"ph\":\"i\",\"cat\":\"mark\",\"name\":\"b\",\"pid\":0,\"tid\":0,\"ts\":2,\"s\":\"g\"}]}"
    );
}
