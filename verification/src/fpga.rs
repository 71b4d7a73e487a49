//! FPGA discovery through the Xilinx runtime. The application loads the
//! runtime library and calls its probe; this module turns the outcome (no
//! library, or a library that reported `n` devices) into availability, a
//! device count and device descriptors.

use vstd::prelude::*;
use crate::types::{
    BackendKind, Capability, CapabilityFlags, ComputeTier, CoreError, DeviceDescriptor, DeviceId, Vendor,
};
use crate::text::{decimal, push_decimal, push_str};

verus! {

/// Whether the runtime library was found: a probe outcome is `None` when no
/// library loaded, `Some(n)` when it loaded and reported `n` devices.
pub fn is_available(probe: Option<u32>) -> (b: bool)
    ensures
        b == probe is Some,
{
    probe.is_some()
}

/// Number of visible devices; zero without the runtime.
pub fn device_count(probe: Option<u32>) -> (n: u32)
    ensures
        n == match probe {
            Some(k) => k,
            None => 0,
        },
{
    match probe {
        Some(k) => k,
        None => 0,
    }
}

/// The two answers of a probe agree: a nonzero device count implies the
/// library loaded, and without the library there are no devices.
pub proof fn lemma_probe_is_consistent(probe: Option<u32>)
    ensures
        (match probe { Some(k) => k, None => 0u32 }) > 0 ==> probe is Some,
        !(probe is Some) ==> (match probe { Some(k) => k, None => 0u32 }) == 0,
{
}


/// Capability flags of a card. The numeric capability of an FPGA is that
/// of the loaded bitstream, not of the silicon, so none is advertised.
pub fn fpga_flags() -> (f: CapabilityFlags)
    ensures
        f.bits == 0,
{
    CapabilityFlags::empty()
}

/// Name reported for device `ord`.
pub open spec fn fpga_name(ord: nat) -> Seq<char> {
    "AMD/Xilinx FPGA (XRT device "@ + decimal(ord) + ")"@
}

/// Whether `d` is the descriptor of card `ord`.
pub open spec fn fpga_descriptor_is(d: DeviceDescriptor, ord: nat) -> bool {
    &&& d.id == (DeviceId { backend: BackendKind::Fpga, ordinal: ord as u32 })
    &&& d.vendor == Vendor::Amd
    &&& d.name@ == fpga_name(ord)
    &&& d.arch@ == "xrt"@
    &&& d.total_memory_bytes == 0 && d.multiprocessor_count == 0 && d.clock_khz == 0
    &&& d.capability.flags.bits == 0
    &&& d.capability.tier == ComputeTier::Datacenter
    &&& d.capability.mem_bandwidth_kbps is None
}

/// One descriptor per visible card, in ordinal order.
fn enumerate_cards(probe: Option<u32>) -> (r: Result<Vec<DeviceDescriptor>, CoreError>)
    ensures
        r matches Ok(v) && v@.len() == device_count_spec(probe) && forall|i: int|
            0 <= i < v@.len() ==> fpga_descriptor_is(#[trigger] v@[i], i as nat),
{
    let n = device_count(probe);
    let mut out: Vec<DeviceDescriptor> = Vec::new();
    let mut ord: u32 = 0;
    while ord < n
        invariant
            ord <= n,
            n == device_count_spec(probe),
            out@.len() == ord,
            forall|i: int| 0 <= i < out@.len() ==> fpga_descriptor_is(#[trigger] out@[i], i as nat),
        decreases n - ord,
    {
        let mut name = String::new();
        push_str(&mut name, "AMD/Xilinx FPGA (XRT device ");
        push_decimal(&mut name, ord as u64);
        push_str(&mut name, ")");
        proof {
            assert(name@ =~= fpga_name(ord as nat));
        }
        let d = DeviceDescriptor {
            id: DeviceId { backend: BackendKind::Fpga, ordinal: ord },
            vendor: Vendor::Amd,
            name,
            arch: "xrt".to_string(),
            total_memory_bytes: 0,
            multiprocessor_count: 0,
            clock_khz: 0,
            capability: Capability { flags: fpga_flags(), tier: ComputeTier::Datacenter, mem_bandwidth_kbps: None },
        };
        out.push(d);
        ord = ord + 1;
    }
    Ok(out)
}

pub open spec fn device_count_spec(probe: Option<u32>) -> u32 {
    match probe {
        Some(k) => k,
        None => 0,
    }
}

fn card_capabilities(probe: Option<u32>, device: u32) -> (r: Result<CapabilityFlags, CoreError>)
    ensures
        device < device_count_spec(probe) ==> (r matches Ok(f) && f.bits == 0),
        device >= device_count_spec(probe) ==> (r matches Err(CoreError::InvalidArgument(m)) && m@
            == "fpga device ordinal out of range"@),
{
    if device >= device_count(probe) {
        return Err(CoreError::InvalidArgument("fpga device ordinal out of range"));
    }
    Ok(fpga_flags())
}

/// The FPGA backend.
#[derive(Debug)]
pub struct FpgaBackend;

/// The backend's registry entry.
pub const FPGA_BACKEND: FpgaBackend = FpgaBackend;

impl FpgaBackend {
    pub fn kind(&self) -> (k: BackendKind)
        ensures
            k == BackendKind::Fpga,
    {
        BackendKind::Fpga
    }

    /// Usable when the library loaded and reported at least one device.
    pub fn is_available(&self, probe: Option<u32>) -> (b: bool)
        ensures
            b == (probe matches Some(k) && k > 0),
    {
        is_available(probe) && device_count(probe) > 0
    }

    /// One descriptor per visible card, in ordinal order.
    pub fn enumerate(&self, probe: Option<u32>) -> (r: Result<Vec<DeviceDescriptor>, CoreError>)
        ensures
            r matches Ok(v) && v@.len() == device_count_spec(probe) && forall|i: int|
                0 <= i < v@.len() ==> fpga_descriptor_is(#[trigger] v@[i], i as nat),
    {
        enumerate_cards(probe)
    }

    /// Capability flags of card `device`; an ordinal beyond the visible
    /// cards is refused, so this agrees with `enumerate` on what exists.
    pub fn capabilities(&self, probe: Option<u32>, device: u32) -> (r: Result<CapabilityFlags, CoreError>)
        ensures
            device < device_count_spec(probe) ==> (r matches Ok(f) && f.bits == 0),
            device >= device_count_spec(probe) ==> (r matches Err(CoreError::InvalidArgument(m)) && m@
                == "fpga device ordinal out of range"@),
    {
        card_capabilities(probe, device)
    }
}

} // verus!
