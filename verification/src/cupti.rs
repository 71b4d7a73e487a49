//! Activity records of the CUDA profiling interface: the common record
//! header, the memory-copy record, and which layout a record kind selects.

use vstd::prelude::*;

verus! {

/// Prefix common to every activity record.
#[derive(Clone, Copy, PartialEq, Eq, Structural, Debug)]
pub struct ActivityHeader {
    pub kind: u32,
    pub _pad: u32,
}

/// A memory-copy activity record.
#[derive(Clone, Copy, PartialEq, Eq, Structural, Debug)]
pub struct ActivityMemcpy {
    pub kind: u32,
    pub copy_kind: u8,
    pub src_kind: u8,
    pub dst_kind: u8,
    pub flags: u8,
    pub bytes: u64,
    pub start_ns: u64,
    pub end_ns: u64,
    pub device_id: u32,
    pub context_id: u32,
    pub stream_id: u32,
    pub correlation_id: u32,
    pub runtime_correlation_id: u32,
    pub graph_node_id: u64,
    pub graph_id: u32,
    pub channel_id: u32,
    pub channel_type: u32,
    pub copy_count: u32,
}

/// Activity kinds with a decoded layout.
pub const ACTIVITY_KIND_MEMCPY: u32 = 1;
pub const ACTIVITY_KIND_KERNEL: u32 = 3;
pub const ACTIVITY_KIND_CONCURRENT_KERNEL: u32 = 10;

/// The layout a record of some kind is read with.
#[derive(Clone, Copy, PartialEq, Eq, Structural, Debug)]
pub enum ActivityClass {
    /// A kernel record (kernel and concurrent-kernel kinds).
    Kernel,
    /// A memory-copy record.
    Memcpy,
    /// Any other kind, left to the caller to decode.
    Other(u32),
}

/// The layout of a record whose header reads `kind`.
pub fn classify_activity(kind: u32) -> (c: ActivityClass)
    ensures
        c == (if kind == ACTIVITY_KIND_KERNEL || kind == ACTIVITY_KIND_CONCURRENT_KERNEL {
            ActivityClass::Kernel
        } else if kind == ACTIVITY_KIND_MEMCPY {
            ActivityClass::Memcpy
        } else {
            ActivityClass::Other(kind)
        }),
{
    if kind == ACTIVITY_KIND_KERNEL || kind == ACTIVITY_KIND_CONCURRENT_KERNEL {
        ActivityClass::Kernel
    } else if kind == ACTIVITY_KIND_MEMCPY {
        ActivityClass::Memcpy
    } else {
        ActivityClass::Other(kind)
    }
}

} // verus!
