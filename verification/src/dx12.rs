//! Direct3D 12 adapter logic: what the probes of one adapter make of it,
//! dense ordinals over the adapters that qualify, the device descriptor and
//! capability flags of an adapter, and the checks of the buffer heaps.
//!
//! The application makes the COM calls and hands over their raw results.

use vstd::prelude::*;
use crate::types::{
    BackendKind, Capability, CapabilityFlags, ComputeTier, CoreError, DeviceDescriptor, DeviceId, Vendor,
    FP32, FP64, FP16, MULTI_STREAM, UNIFIED_MEMORY,
};
use crate::text::{utf16_lossy, utf16_lossy_text, push_str, push_hex_fixed, hex_fixed};

verus! {

pub const D3D_FEATURE_LEVEL_11_0: u32 = 0xb000;
pub const D3D_FEATURE_LEVEL_11_1: u32 = 0xb100;
pub const D3D_FEATURE_LEVEL_12_0: u32 = 0xc000;
pub const D3D_FEATURE_LEVEL_12_1: u32 = 0xc100;
pub const D3D_FEATURE_LEVEL_12_2: u32 = 0xc200;

/// Adapter flag of software rasterisers.
pub const DXGI_ADAPTER_FLAG_SOFTWARE: u32 = 2;
/// Min-precision bit for 16-bit support.
pub const MIN_PRECISION_16_BIT: i32 = 2;

pub const HEAP_TYPE_DEFAULT: u32 = 1;
pub const HEAP_TYPE_UPLOAD: u32 = 2;
pub const HEAP_TYPE_READBACK: u32 = 3;

pub const RESOURCE_FLAG_ALLOW_UNORDERED_ACCESS: u32 = 0x4;
pub const RESOURCE_STATE_COMMON: u32 = 0;
pub const RESOURCE_STATE_UNORDERED_ACCESS: u32 = 0x8;
pub const RESOURCE_STATE_COPY_DEST: u32 = 0x400;
pub const RESOURCE_STATE_COPY_SOURCE: u32 = 0x800;
pub const RESOURCE_STATE_GENERIC_READ: u32 = 0xAC3;

/// Raw results of the `D3D12_OPTIONS1` query.
#[derive(Clone, Copy, PartialEq, Eq, Structural, Debug)]
pub struct Options1 {
    pub wave_ops: i32,
    pub wave_lane_count_min: u32,
    pub wave_lane_count_max: u32,
    pub total_lane_count: u32,
    pub int64_shader_ops: i32,
}

/// Raw results of everything asked of one adapter. A query that failed is
/// `None`.
#[derive(Clone, Copy, Debug)]
pub struct AdapterProbe {
    /// The adapter description, if `GetDesc1` succeeded.
    pub desc: Option<DxgiAdapterDesc1>,
    /// Whether a device could be created at feature level 11_0.
    pub device_created: bool,
    /// Highest supported feature level, if the query succeeded.
    pub feature_level: Option<u32>,
    /// `(MinPrecisionSupport, DoublePrecisionFloatShaderOps)` of `OPTIONS`.
    pub options: Option<(i32, i32)>,
    pub options1: Option<Options1>,
    /// `Native16BitShaderOpsSupported` of `OPTIONS4`.
    pub native_16bit: Option<i32>,
    /// `UMA` of `ARCHITECTURE1`.
    pub uma: Option<i32>,
}

/// A COM interface id.
#[derive(Clone, Copy, Debug)]
pub struct Guid {
    pub data1: u32,
    pub data2: u16,
    pub data3: u16,
    pub data4: [u8; 8],
}

/// A locally unique adapter id.
#[derive(Clone, Copy, PartialEq, Eq, Structural, Debug)]
pub struct Luid {
    pub low_part: u32,
    pub high_part: i32,
}

/// An adapter's DXGI description.
#[derive(Clone, Copy, Debug)]
pub struct DxgiAdapterDesc1 {
    /// NUL-terminated UTF-16 name.
    pub description: [u16; 128],
    pub vendor_id: u32,
    pub device_id: u32,
    pub sub_sys_id: u32,
    pub revision: u32,
    pub dedicated_video_memory: usize,
    pub dedicated_system_memory: usize,
    pub shared_system_memory: usize,
    pub adapter_luid: Luid,
    pub flags: u32,
}

/// One D3D12-capable adapter.
#[derive(Clone, Debug)]
pub struct EnumeratedAdapter {
    pub ordinal: u32,
    pub name: String,
    pub vendor_id: u32,
    pub device_id: u32,
    pub dedicated_video_memory: u64,
    pub shared_system_memory: u64,
    /// Highest feature level the device reports.
    pub feature_level: u32,
    /// Unified memory architecture.
    pub uma: bool,
    pub wave_ops: bool,
    pub wave_lane_count_min: u32,
    pub wave_lane_count_max: u32,
    pub total_lane_count: u32,
    /// Native 16-bit shader math.
    pub native_16bit_ops: bool,
    /// 16-bit min-precision storage.
    pub min_precision_16bit: bool,
    pub int64_shader_ops: bool,
    /// Double-precision shader math.
    pub fp64: bool,
}

/// Index of the first zero unit of `raw`, or its length.
pub open spec fn nul_index(raw: Seq<u16>) -> int {
    if exists|i: int| 0 <= i < raw.len() && raw[i] == 0 {
        choose|i: int| 0 <= i < raw.len() && raw[i] == 0 && forall|j: int| 0 <= j < i ==> raw[j] != 0
    } else {
        raw.len() as int
    }
}

/// The text of a NUL-terminated UTF-16 buffer.
pub fn utf16_to_string(raw: &[u16]) -> (s: String)
    ensures
        s@ == utf16_lossy_text(raw@.subrange(0, nul_index(raw@))),
        (forall|i: int| 0 <= i < nul_index(raw@) ==> #[trigger] raw@[i] < 0xD800u16 || raw@[i] >= 0xE000u16)
            ==> s@ == raw@.subrange(0, nul_index(raw@)).map_values(|u: u16| u as char),
{
    let mut len: usize = 0;
    while len < raw.len() && raw[len] != 0
        invariant
            len <= raw@.len(),
            forall|j: int| 0 <= j < len ==> raw@[j] != 0,
        decreases raw@.len() - len,
    {
        len = len + 1;
    }
    proof {
        if len < raw@.len() {
            assert(raw@[len as int] == 0);
            let k = choose|i: int| 0 <= i < raw@.len() && raw@[i] == 0 && forall|j: int| 0 <= j < i ==> raw@[j] != 0;
            assert(0 <= len < raw@.len() && raw@[len as int] == 0 && forall|j: int| 0 <= j < len ==> raw@[j] != 0);
            if k < len {
                assert(raw@[k] != 0);
            }
            if k > len {
                assert(raw@[len as int] != 0);
            }
            assert(k == len);
        }
    }
    let prefix = slice_prefix(raw, len);
    utf16_lossy(prefix)
}

fn slice_prefix(raw: &[u16], len: usize) -> (r: &[u16])
    requires
        len <= raw@.len(),
    ensures
        r@ == raw@.subrange(0, len as int),
{
    vstd::slice::slice_subrange(raw, 0, len)
}

/// What an adapter's probes make of it: nothing for a failed description,
/// a software adapter, or an adapter that cannot create a device; otherwise
/// its description and feature support, with every failed query read as
/// "unsupported" and a failed level query as 11_0.
pub open spec fn adapter_from(p: AdapterProbe, ordinal: u32, name: Seq<char>, a: EnumeratedAdapter) -> bool {
    match p.desc {
        Some(d) => {
            let o1 = p.options1;
            &&& a.ordinal == ordinal
            &&& a.name@ == name
            &&& a.vendor_id == d.vendor_id && a.device_id == d.device_id
            &&& a.dedicated_video_memory == d.dedicated_video_memory as u64
            &&& a.shared_system_memory == d.shared_system_memory as u64
            &&& a.feature_level == (match p.feature_level { Some(l) => l, None => D3D_FEATURE_LEVEL_11_0 })
            &&& a.uma == (p.uma matches Some(u) && u != 0)
            &&& a.wave_ops == (o1 matches Some(o) && o.wave_ops != 0)
            &&& a.wave_lane_count_min == (match o1 { Some(o) => o.wave_lane_count_min, None => 0 })
            &&& a.wave_lane_count_max == (match o1 { Some(o) => o.wave_lane_count_max, None => 0 })
            &&& a.total_lane_count == (match o1 { Some(o) => o.total_lane_count, None => 0 })
            &&& a.native_16bit_ops == (p.native_16bit matches Some(n) && n != 0)
            &&& a.min_precision_16bit == (p.options matches Some(o) && o.0 & MIN_PRECISION_16_BIT != 0)
            &&& a.int64_shader_ops == (o1 matches Some(o) && o.int64_shader_ops != 0)
            &&& a.fp64 == (p.options matches Some(o) && o.1 != 0)
        },
        None => false,
    }
}

/// Whether the probes describe an adapter that qualifies.
pub open spec fn qualifies(p: AdapterProbe) -> bool {
    p.desc matches Some(d) && d.flags & DXGI_ADAPTER_FLAG_SOFTWARE == 0 && p.device_created
}

/// The adapter an adapter's probes describe, under `ordinal`.
pub fn describe_adapter(p: &AdapterProbe, ordinal: u32) -> (r: Option<EnumeratedAdapter>)
    ensures
        qualifies(*p) <==> r is Some,
        r matches Some(a) ==> adapter_from(*p, ordinal, utf16_lossy_text(
            p.desc->0.description@.subrange(0, nul_index(p.desc->0.description@)),
        ), a),
{
    let d = match &p.desc {
        Some(d) => d,
        None => return None,
    };
    if d.flags & DXGI_ADAPTER_FLAG_SOFTWARE != 0 {
        return None;
    }
    if !p.device_created {
        return None;
    }
    let feature_level = match p.feature_level {
        Some(l) => l,
        None => D3D_FEATURE_LEVEL_11_0,
    };
    let (min_precision_16bit, fp64) = match p.options {
        Some(o) => (o.0 & MIN_PRECISION_16_BIT != 0, o.1 != 0),
        None => (false, false),
    };
    let native_16bit_ops = match p.native_16bit {
        Some(n) => n != 0,
        None => false,
    };
    let uma = match p.uma {
        Some(u) => u != 0,
        None => false,
    };
    let (wave_ops, lmin, lmax, total, int64) = match p.options1 {
        Some(o) => (o.wave_ops != 0, o.wave_lane_count_min, o.wave_lane_count_max, o.total_lane_count,
            o.int64_shader_ops != 0),
        None => (false, 0, 0, 0, false),
    };
    Some(EnumeratedAdapter {
        ordinal,
        name: utf16_to_string(d.description.as_slice()),
        vendor_id: d.vendor_id,
        device_id: d.device_id,
        dedicated_video_memory: d.dedicated_video_memory as u64,
        shared_system_memory: d.shared_system_memory as u64,
        feature_level,
        uma,
        wave_ops,
        wave_lane_count_min: lmin,
        wave_lane_count_max: lmax,
        total_lane_count: total,
        native_16bit_ops,
        min_precision_16bit,
        int64_shader_ops: int64,
        fp64,
    })
}

/// Number of qualifying adapters among the first `i` probes.
pub open spec fn qualifying_before(ps: Seq<AdapterProbe>, i: int) -> int
    decreases i,
{
    if i <= 0 {
        0
    } else {
        qualifying_before(ps, i - 1) + if qualifies(ps[i - 1]) { 1int } else { 0int }
    }
}

proof fn lemma_qualifying_bounded(ps: Seq<AdapterProbe>, i: int)
    requires
        0 <= i,
    ensures
        0 <= qualifying_before(ps, i) <= i,
    decreases i,
{
    if i > 0 {
        lemma_qualifying_bounded(ps, i - 1);
    }
}

/// The adapters, in probe order, of those that qualify, numbered densely
/// from zero.
pub fn enumerate_adapters(probes: &Vec<AdapterProbe>) -> (r: Vec<EnumeratedAdapter>)
    requires
        probes@.len() <= u32::MAX,
    ensures
        r@.len() == qualifying_before(probes@, probes@.len() as int),
        forall|i: int| 0 <= i < r@.len() ==> (#[trigger] r@[i]).ordinal == i,
        forall|k: int| 0 <= k < probes@.len() && #[trigger] qualifies(probes@[k]) ==> {
            let i = qualifying_before(probes@, k);
            adapter_from(probes@[k], i as u32, utf16_lossy_text(
                probes@[k].desc->0.description@.subrange(0, nul_index(probes@[k].desc->0.description@)),
            ), r@[i])
        },
{
    let mut out: Vec<EnumeratedAdapter> = Vec::new();
    let mut ordinal: u32 = 0;
    let mut index: usize = 0;
    while index < probes.len()
        invariant
            index <= probes@.len(),
            probes@.len() <= u32::MAX,
            ordinal == qualifying_before(probes@, index as int),
            out@.len() == ordinal,
            forall|i: int| 0 <= i < out@.len() ==> (#[trigger] out@[i]).ordinal == i,
            forall|k: int| 0 <= k < index && #[trigger] qualifies(probes@[k]) ==> {
                let i = qualifying_before(probes@, k);
                adapter_from(probes@[k], i as u32, utf16_lossy_text(
                    probes@[k].desc->0.description@.subrange(0, nul_index(probes@[k].desc->0.description@)),
                ), out@[i])
            },
        decreases probes@.len() - index,
    {
        proof {
            lemma_qualifying_bounded(probes@, index as int);
        }
        let ghost before = out@;
        match describe_adapter(&probes[index], ordinal) {
            Some(a) => {
                let ghost ga = a;
                out.push(a);
                ordinal = ordinal + 1;
                proof {
                    assert forall|k: int| 0 <= k < index + 1 && #[trigger] qualifies(probes@[k]) implies {
                        let i = qualifying_before(probes@, k);
                        adapter_from(probes@[k], i as u32, utf16_lossy_text(
                            probes@[k].desc->0.description@.subrange(0, nul_index(probes@[k].desc->0.description@)),
                        ), out@[i])
                    } by {
                        if k < index {
                            lemma_qualifying_monotone(probes@, k + 1, index as int);
                            lemma_qualifying_bounded(probes@, k);
                            assert(qualifying_before(probes@, k + 1) == qualifying_before(probes@, k) + 1);
                            assert(out@ == before.push(ga));
                            assert(out@[qualifying_before(probes@, k)] == before[qualifying_before(probes@, k)]);
                        }
                    }
                }
            },
            None => {},
        }
        index = index + 1;
    }
    out
}

proof fn lemma_qualifying_monotone(ps: Seq<AdapterProbe>, i: int, j: int)
    requires
        0 <= i <= j,
    ensures
        qualifying_before(ps, i) <= qualifying_before(ps, j),
    decreases j,
{
    if i < j {
        lemma_qualifying_monotone(ps, i, j - 1);
    }
}

/// The probe to open for enumerated ordinal `ordinal`: adapters are walked
/// again with the same filter as `enumerate_adapters`, so the ordinals agree.
pub fn select_for_open(probes: &Vec<AdapterProbe>, ordinal: u32) -> (r: Option<usize>)
    ensures
        r matches Some(k) ==> k < probes@.len() && qualifies(probes@[k as int]) && qualifying_before(
            probes@,
            k as int,
        ) == ordinal,
        r is None ==> qualifying_before(probes@, probes@.len() as int) <= ordinal,
{
    let mut seen: u64 = 0;
    let mut index: usize = 0;
    while index < probes.len()
        invariant
            index <= probes@.len(),
            seen == qualifying_before(probes@, index as int),
            seen <= ordinal,
        decreases probes@.len() - index,
    {
        proof {
            lemma_qualifying_bounded(probes@, index as int);
        }
        let p = &probes[index];
        let q = match &p.desc {
            Some(d) => d.flags & DXGI_ADAPTER_FLAG_SOFTWARE == 0 && p.device_created,
            None => false,
        };
        if q {
            if seen == ordinal as u64 {
                return Some(index);
            }
            seen = seen + 1;
        }
        index = index + 1;
    }
    None
}

/// Every enumerated ordinal is the number of exactly one qualifying probe:
/// opening ordinal `i` selects the adapter `enumerate_adapters` numbered
/// `i`, and no other.
pub proof fn lemma_open_matches_enumerate(ps: Seq<AdapterProbe>, i: int)
    requires
        0 <= i < qualifying_before(ps, ps.len() as int),
    ensures
        exists|k: int| 0 <= k < ps.len() && qualifies(ps[k]) && qualifying_before(ps, k) == i,
        forall|k1: int, k2: int|
            0 <= k1 < ps.len() && 0 <= k2 < ps.len() && qualifies(ps[k1]) && qualifies(ps[k2])
                && qualifying_before(ps, k1) == i && qualifying_before(ps, k2) == i ==> k1 == k2,
{
    lemma_qualifying_witness(ps, i, ps.len() as int);
    assert forall|k1: int, k2: int|
        0 <= k1 < ps.len() && 0 <= k2 < ps.len() && qualifies(ps[k1]) && qualifies(ps[k2])
            && qualifying_before(ps, k1) == i && qualifying_before(ps, k2) == i implies k1 == k2 by {
        if k1 < k2 {
            lemma_qualifying_monotone(ps, k1 + 1, k2);
        } else if k2 < k1 {
            lemma_qualifying_monotone(ps, k2 + 1, k1);
        }
    }
}

proof fn lemma_qualifying_witness(ps: Seq<AdapterProbe>, i: int, n: int)
    requires
        0 <= i < qualifying_before(ps, n),
        n <= ps.len(),
    ensures
        exists|k: int| 0 <= k < ps.len() && qualifies(ps[k]) && qualifying_before(ps, k) == i,
    decreases n,
{
    if n > 0 {
        if i < qualifying_before(ps, n - 1) {
            lemma_qualifying_witness(ps, i, n - 1);
        } else {
            assert(qualifies(ps[n - 1]) && qualifying_before(ps, n - 1) == i);
        }
    }
}

pub open spec fn spec_flags_for(a: EnumeratedAdapter) -> u64 {
    (FP32 | MULTI_STREAM) | (if a.fp64 { FP64 } else { 0 }) | (if a.native_16bit_ops { FP16 } else { 0 })
        | (if a.uma { UNIFIED_MEMORY } else { 0 })
}

/// Capability flags of an adapter: FP32 and multiple streams always, FP64
/// with double-precision shader ops, FP16 only with native 16-bit math, and
/// unified memory on UMA parts. Nothing else can be queried, so nothing else
/// is claimed.
pub fn flags_for(a: &EnumeratedAdapter) -> (f: CapabilityFlags)
    ensures
        f.bits == spec_flags_for(*a),
        f.has(FP32),
{
    let mut bits: u64 = FP32 | MULTI_STREAM;
    let b64: u64 = if a.fp64 { FP64 } else { 0 };
    let b16: u64 = if a.native_16bit_ops { FP16 } else { 0 };
    let buma: u64 = if a.uma { UNIFIED_MEMORY } else { 0 };
    bits = bits | b64;
    bits = bits | b16;
    bits = bits | buma;
    proof {
        assert(((((2u64 | 65536u64) | b64) | b16) | buma) & 2u64 == 2u64) by (bit_vector);
    }
    CapabilityFlags { bits }
}

pub open spec fn vendor_of(id: u32) -> Vendor {
    if id == 0x10DE {
        Vendor::Nvidia
    } else if id == 0x1002 || id == 0x1022 {
        Vendor::Amd
    } else if id == 0x8086 {
        Vendor::Intel
    } else if id == 0x5143 {
        Vendor::Qualcomm
    } else {
        Vendor::Other
    }
}

pub open spec fn level_name(level: u32) -> Seq<char> {
    if level == D3D_FEATURE_LEVEL_12_2 {
        "12_2"@
    } else if level == D3D_FEATURE_LEVEL_12_1 {
        "12_1"@
    } else if level == D3D_FEATURE_LEVEL_12_0 {
        "12_0"@
    } else {
        "11_x"@
    }
}

/// Whether `d` describes adapter `a`: vendor by PCI id, mobile tier for
/// UMA parts and consumer otherwise, architecture `d3d<level>-<device id in
/// 4 hex digits>`, and the shared budget as memory when no dedicated memory
/// is reported.
pub open spec fn describes(d: DeviceDescriptor, a: EnumeratedAdapter) -> bool {
    &&& d.id == (DeviceId { backend: BackendKind::Dx12, ordinal: a.ordinal })
    &&& d.vendor == vendor_of(a.vendor_id)
    &&& d.name@ == a.name@
    &&& d.arch@ == "d3d"@ + level_name(a.feature_level) + "-"@ + hex_fixed(a.device_id as nat, 4)
    &&& d.total_memory_bytes == (if a.dedicated_video_memory > 0 { a.dedicated_video_memory } else { a.shared_system_memory })
    &&& d.multiprocessor_count == 0 && d.clock_khz == 0
    &&& d.capability.flags.bits == spec_flags_for(a)
    &&& d.capability.tier == (if a.uma { ComputeTier::Mobile } else { ComputeTier::Consumer })
    &&& d.capability.mem_bandwidth_kbps is None
}

/// The device descriptor of an adapter.
pub fn describe(a: &EnumeratedAdapter) -> (d: DeviceDescriptor)
    ensures
        describes(d, *a),
{
    let vendor = if a.vendor_id == 0x10DE {
        Vendor::Nvidia
    } else if a.vendor_id == 0x1002 || a.vendor_id == 0x1022 {
        Vendor::Amd
    } else if a.vendor_id == 0x8086 {
        Vendor::Intel
    } else if a.vendor_id == 0x5143 {
        Vendor::Qualcomm
    } else {
        Vendor::Other
    };
    let tier = if a.uma { ComputeTier::Mobile } else { ComputeTier::Consumer };
    let level = if a.feature_level == D3D_FEATURE_LEVEL_12_2 {
        "12_2"
    } else if a.feature_level == D3D_FEATURE_LEVEL_12_1 {
        "12_1"
    } else if a.feature_level == D3D_FEATURE_LEVEL_12_0 {
        "12_0"
    } else {
        "11_x"
    };
    let flags = flags_for(a);
    let mut arch = String::new();
    push_str(&mut arch, "d3d");
    push_str(&mut arch, level);
    push_str(&mut arch, "-");
    push_hex_fixed(&mut arch, a.device_id as u64, 4);
    proof {
        assert(arch@ =~= "d3d"@ + level_name(a.feature_level) + "-"@ + hex_fixed(a.device_id as nat, 4));
    }
    let mem = if a.dedicated_video_memory > 0 { a.dedicated_video_memory } else { a.shared_system_memory };
    DeviceDescriptor {
        id: DeviceId { backend: BackendKind::Dx12, ordinal: a.ordinal },
        vendor,
        name: a.name.clone(),
        arch,
        total_memory_bytes: mem,
        multiprocessor_count: 0,
        clock_khz: 0,
        capability: Capability { flags, tier, mem_bandwidth_kbps: None },
    }
}

/// Index of the first adapter numbered `device`, if any.
pub open spec fn first_with_ordinal(adapters: Seq<EnumeratedAdapter>, device: u32) -> Option<int> {
    if exists|i: int| 0 <= i < adapters.len() && adapters[i].ordinal == device {
        Some(choose|i: int| 0 <= i < adapters.len() && adapters[i].ordinal == device
            && forall|j: int| 0 <= j < i ==> adapters[j].ordinal != device)
    } else {
        None
    }
}

/// Capability flags of the adapter numbered `device`; an unknown ordinal
/// is refused.
pub fn capabilities(adapters: &Vec<EnumeratedAdapter>, device: u32) -> (r: Result<CapabilityFlags, CoreError>)
    ensures
        match first_with_ordinal(adapters@, device) {
            Some(i) => r matches Ok(f) && f.bits == spec_flags_for(adapters@[i]),
            None => r matches Err(CoreError::InvalidArgument(m)) && m@ == "d3d12 adapter ordinal out of range"@,
        },
{
    let mut i: usize = 0;
    while i < adapters.len()
        invariant
            i <= adapters@.len(),
            forall|j: int| 0 <= j < i ==> adapters@[j].ordinal != device,
        decreases adapters@.len() - i,
    {
        if adapters[i].ordinal == device {
            proof {
                let c = choose|k: int| 0 <= k < adapters@.len() && adapters@[k].ordinal == device
                    && forall|j: int| 0 <= j < k ==> adapters@[j].ordinal != device;
                assert(0 <= i < adapters@.len() && adapters@[i as int].ordinal == device
                    && forall|j: int| 0 <= j < i ==> adapters@[j].ordinal != device);
                if c < i {
                    assert(adapters@[c].ordinal != device);
                }
                if c > i {
                    assert(adapters@[i as int].ordinal != device);
                }
            }
            return Ok(flags_for(&adapters[i]));
        }
        i = i + 1;
    }
    Err(CoreError::InvalidArgument("d3d12 adapter ordinal out of range"))
}

/// On densely numbered adapters, `capabilities` of an enumerated ordinal
/// gives exactly the flags of that adapter's descriptor, FP32 among them,
/// and an ordinal past the end is refused.
pub proof fn lemma_capabilities_match_descriptors(adapters: Seq<EnumeratedAdapter>, i: int)
    requires
        forall|j: int| 0 <= j < adapters.len() ==> (#[trigger] adapters[j]).ordinal == j,
        adapters.len() <= u32::MAX + 1,
    ensures
        0 <= i < adapters.len() ==> first_with_ordinal(adapters, i as u32) == Some(i),
        0 <= i < adapters.len() ==> (CapabilityFlags { bits: spec_flags_for(adapters[i]) }).has(FP32),
        adapters.len() <= i <= u32::MAX ==> first_with_ordinal(adapters, i as u32) is None,
{
    if 0 <= i < adapters.len() {
        assert(adapters[i].ordinal == i);
        let c = choose|k: int| 0 <= k < adapters.len() && adapters[k].ordinal == i as u32
            && forall|j: int| 0 <= j < k ==> adapters[j].ordinal != i as u32;
        assert(adapters[c].ordinal == c);
        let a = adapters[i];
        let b64: u64 = if a.fp64 { FP64 } else { 0 };
        let b16: u64 = if a.native_16bit_ops { FP16 } else { 0 };
        let buma: u64 = if a.uma { UNIFIED_MEMORY } else { 0 };
        assert(((((2u64 | 65536u64) | b64) | b16) | buma) & 2u64 == 2u64) by (bit_vector);
    }
    if adapters.len() <= i <= u32::MAX {
        assert forall|k: int| 0 <= k < adapters.len() implies adapters[k].ordinal != i as u32 by {
            assert(adapters[k].ordinal == k);
        }
    }
}

/// The backend is available when the libraries loaded and at least one
/// adapter qualifies.
pub fn is_available(loaded: bool, adapters: &Vec<EnumeratedAdapter>) -> (b: bool)
    ensures
        b == (loaded && adapters@.len() > 0),
{
    loaded && adapters.len() > 0
}

/// A failed call: the operation and its raw `HRESULT`.
#[derive(Clone, Copy, Debug)]
pub struct Dx12Error {
    pub op: &'static str,
    pub hr: i32,
}

/// `Ok` for `S_OK`, the operation's error otherwise.
pub fn check(op: &'static str, hr: i32) -> (r: Result<(), Dx12Error>)
    ensures
        hr == 0 <==> r is Ok,
        hr != 0 ==> (r matches Err(e) && e.op == op && e.hr == hr),
{
    if hr == 0 {
        Ok(())
    } else {
        Err(Dx12Error { op, hr })
    }
}

/// Bytes a CPU copy into or out of a buffer of `len_bytes` moves for a host
/// slice of `host_len` bytes: the shorter of the two.
pub open spec fn copy_len(host_len: usize, len_bytes: u64) -> int {
    let b = (len_bytes as usize) as int;
    if host_len < b { host_len as int } else { b }
}

/// Check a CPU write into a buffer of heap `heap` and size `len_bytes` of
/// `data_len` bytes: only upload-heap buffers are CPU-writable. On success,
/// the number of bytes to copy.
pub fn check_write(heap: u32, len_bytes: u64, data_len: usize) -> (r: Result<usize, Dx12Error>)
    ensures
        heap == HEAP_TYPE_UPLOAD ==> (r matches Ok(n) && n == copy_len(data_len, len_bytes)),
        heap != HEAP_TYPE_UPLOAD ==> (r matches Err(e) && e.hr == 0 && e.op@
            == "write (buffer is not in the UPLOAD heap)"@),
{
    if heap != HEAP_TYPE_UPLOAD {
        return Err(Dx12Error { op: "write (buffer is not in the UPLOAD heap)", hr: 0 });
    }
    let b = usize_of_u64(len_bytes);
    Ok(if data_len < b { data_len } else { b })
}

/// Check a CPU read out of a buffer: only readback-heap buffers are
/// CPU-readable. On success, the number of bytes to copy.
pub fn check_read(heap: u32, len_bytes: u64, out_len: usize) -> (r: Result<usize, Dx12Error>)
    ensures
        heap == HEAP_TYPE_READBACK ==> (r matches Ok(n) && n == copy_len(out_len, len_bytes)),
        heap != HEAP_TYPE_READBACK ==> (r matches Err(e) && e.hr == 0 && e.op@
            == "read (buffer is not in the READBACK heap)"@),
{
    if heap != HEAP_TYPE_READBACK {
        return Err(Dx12Error { op: "read (buffer is not in the READBACK heap)", hr: 0 });
    }
    let b = usize_of_u64(len_bytes);
    Ok(if out_len < b { out_len } else { b })
}

#[verifier::truncate]
fn usize_of_u64(x: u64) -> (r: usize)
    ensures
        r == x as usize,
{
    x as usize
}

/// Initial state, resource flags and width of a new buffer in `heap`: upload
/// buffers start readable, readback buffers as copy targets, device buffers
/// in the common state with unordered access allowed; every buffer is at
/// least one byte wide.
pub fn buffer_setup(heap: u32, len_bytes: u64) -> (r: (u32, u32, u64))
    ensures
        r.0 == (if heap == HEAP_TYPE_UPLOAD { RESOURCE_STATE_GENERIC_READ } else if heap == HEAP_TYPE_READBACK {
            RESOURCE_STATE_COPY_DEST
        } else {
            RESOURCE_STATE_COMMON
        }),
        r.1 == (if heap == HEAP_TYPE_UPLOAD || heap == HEAP_TYPE_READBACK { 0 } else {
            RESOURCE_FLAG_ALLOW_UNORDERED_ACCESS
        }),
        r.2 == (if len_bytes < 1 { 1 } else { len_bytes }),
{
    let (state, flags) = if heap == HEAP_TYPE_UPLOAD {
        (RESOURCE_STATE_GENERIC_READ, 0)
    } else if heap == HEAP_TYPE_READBACK {
        (RESOURCE_STATE_COPY_DEST, 0)
    } else {
        (RESOURCE_STATE_COMMON, RESOURCE_FLAG_ALLOW_UNORDERED_ACCESS)
    };
    (state, flags, if len_bytes < 1 { 1 } else { len_bytes })
}

/// A transition is recorded only between different states.
pub fn barrier_needed(before: u32, after: u32) -> (b: bool)
    ensures
        b == (before != after),
{
    before != after
}

/// Root parameter type of a root unordered-access-view descriptor.
pub const ROOT_PARAMETER_TYPE_UAV: u32 = 4;
/// Shader visibility: every stage.
pub const SHADER_VISIBILITY_ALL: u32 = 0;

/// One root UAV parameter of a root signature.
#[derive(Clone, Copy, PartialEq, Eq, Structural, Debug)]
pub struct RootUavParameter {
    pub parameter_type: u32,
    pub shader_register: u32,
    pub register_space: u32,
    pub shader_visibility: u32,
}

/// The description of a root signature made only of root UAV parameters.
#[derive(Debug)]
pub struct RootUavSignature {
    pub num_parameters: u32,
    pub parameters: Vec<RootUavParameter>,
    pub num_static_samplers: u32,
    pub flags: u32,
}

/// The root UAV parameter bound to register `u<i>`, space 0, visible to
/// every stage.
pub open spec fn root_uav(i: u32) -> RootUavParameter {
    RootUavParameter {
        parameter_type: ROOT_PARAMETER_TYPE_UAV,
        shader_register: i,
        register_space: 0,
        shader_visibility: SHADER_VISIBILITY_ALL,
    }
}

/// The parameters of a root signature with `n` root UAV descriptors bound to
/// `u0 .. u(n-1)`, in register order.
pub fn root_uav_parameters(n: u32) -> (ps: Vec<RootUavParameter>)
    ensures
        ps@.len() == n,
        forall|i: int| 0 <= i < n ==> #[trigger] ps@[i] == root_uav(i as u32),
{
    let mut ps: Vec<RootUavParameter> = Vec::new();
    let mut i: u32 = 0;
    while i < n
        invariant
            i <= n,
            ps@.len() == i,
            forall|j: int| 0 <= j < i ==> #[trigger] ps@[j] == root_uav(j as u32),
        decreases n - i,
    {
        ps.push(RootUavParameter {
            parameter_type: ROOT_PARAMETER_TYPE_UAV,
            shader_register: i,
            register_space: 0,
            shader_visibility: SHADER_VISIBILITY_ALL,
        });
        i = i + 1;
    }
    ps
}

/// The description serialised for a root signature with `n` root UAV
/// descriptors: those `n` parameters, no static samplers, no flags.
pub fn root_uav_signature(n: u32) -> (d: RootUavSignature)
    ensures
        d.num_parameters == n,
        d.parameters@.len() == n,
        forall|i: int| 0 <= i < n ==> #[trigger] d.parameters@[i] == root_uav(i as u32),
        d.num_static_samplers == 0,
        d.flags == 0,
{
    RootUavSignature { num_parameters: n, parameters: root_uav_parameters(n), num_static_samplers: 0, flags: 0 }
}

/// The fence values a context signals: 1, 2, 3, ... one per submission.
#[derive(Debug)]
pub struct FenceCounter {
    next: u64,
}

impl FenceCounter {
    pub closed spec fn spec_next(&self) -> u64 {
        self.next
    }

    pub fn new() -> (c: Self)
        ensures
            c.spec_next() == 1,
    {
        FenceCounter { next: 1 }
    }

    /// The value to signal for the next submission.
    pub fn take(&mut self) -> (target: u64)
        requires
            old(self).spec_next() < u64::MAX,
        ensures
            target == old(self).spec_next(),
            final(self).spec_next() == target + 1,
    {
        let t = self.next;
        self.next = t + 1;
        t
    }
}

/// The Direct3D 12 backend.
#[derive(Debug)]
pub struct Dx12Backend;

/// The backend's registry entry.
pub const DX12_BACKEND: Dx12Backend = Dx12Backend;

impl Dx12Backend {
    pub fn kind(&self) -> (k: BackendKind)
        ensures
            k == BackendKind::Dx12,
    {
        BackendKind::Dx12
    }

    /// Usable when the libraries loaded and an adapter qualifies.
    pub fn is_available(&self, loaded: bool, adapters: &Vec<EnumeratedAdapter>) -> (b: bool)
        ensures
            b == (loaded && adapters@.len() > 0),
    {
        is_available(loaded, adapters)
    }

    /// One descriptor per enumerated adapter, in order.
    pub fn enumerate(&self, adapters: &Vec<EnumeratedAdapter>) -> (r: Result<Vec<DeviceDescriptor>, CoreError>)
        ensures
            r matches Ok(v) && v@.len() == adapters@.len() && forall|i: int| 0 <= i < v@.len() ==> describes(
                #[trigger] v@[i],
                adapters@[i],
            ),
    {
        let mut out: Vec<DeviceDescriptor> = Vec::new();
        let mut i: usize = 0;
        while i < adapters.len()
            invariant
                i <= adapters@.len(),
                out@.len() == i,
                forall|j: int| 0 <= j < i ==> describes(#[trigger] out@[j], adapters@[j]),
            decreases adapters@.len() - i,
        {
            out.push(describe(&adapters[i]));
            i = i + 1;
        }
        Ok(out)
    }

    /// Capability flags of the adapter numbered `device`.
    pub fn capabilities(&self, adapters: &Vec<EnumeratedAdapter>, device: u32) -> (r: Result<CapabilityFlags, CoreError>)
        ensures
            match first_with_ordinal(adapters@, device) {
                Some(i) => r matches Ok(f) && f.bits == spec_flags_for(adapters@[i]),
                None => r matches Err(CoreError::InvalidArgument(m)) && m@ == "d3d12 adapter ordinal out of range"@,
            },
    {
        capabilities(adapters, device)
    }
}

} // verus!
