//! Element types that may live in device memory, and how a kernel argument is
//! encoded into the 8-byte slot that a launch passes by address.
//!
//! A slot is read from its address for as many bytes as the argument's type
//! has; on the little-endian hosts that drive CUDA devices those are the
//! low-order bytes of the `u64`, and the bytes above them are zero.

use vstd::prelude::*;
use crate::memory::DeviceView;

verus! {

/// Plain element types whose values can be copied to and from device memory
/// byte for byte.
pub trait Repr: Copy {}

/// Element types for which the all-zero bit pattern is a valid value, so a
/// zero-filled device allocation holds well-defined elements.
pub trait ZeroBits: Repr {}

impl Repr for u8 {}
impl Repr for u16 {}
impl Repr for u32 {}
impl Repr for u64 {}
impl Repr for i8 {}
impl Repr for i16 {}
impl Repr for i32 {}
impl Repr for i64 {}
impl Repr for usize {}
impl Repr for isize {}

impl ZeroBits for u8 {}
impl ZeroBits for u16 {}
impl ZeroBits for u32 {}
impl ZeroBits for u64 {}
impl ZeroBits for i8 {}
impl ZeroBits for i16 {}
impl ZeroBits for i32 {}
impl ZeroBits for i64 {}
impl ZeroBits for usize {}
impl ZeroBits for isize {}

/// A value that can be passed to a kernel as one scalar argument.
pub trait KernelArg: Sized {
    /// The slot value that carries this argument: its bit pattern in the
    /// low-order bytes, zero above them.
    spec fn arg_bits(&self) -> u64;

    /// Write this argument's bit pattern into `slot`.
    fn write_into(self, slot: &mut u64)
        ensures
            *final(slot) == self.arg_bits(),
    ;
}

impl KernelArg for u8 {
    open spec fn arg_bits(&self) -> u64 {
        *self as u64
    }

    fn write_into(self, slot: &mut u64) {
        *slot = self as u64;
    }
}

impl KernelArg for u16 {
    open spec fn arg_bits(&self) -> u64 {
        *self as u64
    }

    fn write_into(self, slot: &mut u64) {
        *slot = self as u64;
    }
}

impl KernelArg for u32 {
    open spec fn arg_bits(&self) -> u64 {
        *self as u64
    }

    fn write_into(self, slot: &mut u64) {
        *slot = self as u64;
    }
}

impl KernelArg for u64 {
    open spec fn arg_bits(&self) -> u64 {
        *self
    }

    fn write_into(self, slot: &mut u64) {
        *slot = self;
    }
}

impl KernelArg for usize {
    open spec fn arg_bits(&self) -> u64 {
        *self as u64
    }

    fn write_into(self, slot: &mut u64) {
        *slot = self as u64;
    }
}

impl KernelArg for i8 {
    open spec fn arg_bits(&self) -> u64 {
        (*self as u8) as u64
    }

    fn write_into(self, slot: &mut u64) {
        *slot = (self as u8) as u64;
    }
}

impl KernelArg for i16 {
    open spec fn arg_bits(&self) -> u64 {
        (*self as u16) as u64
    }

    fn write_into(self, slot: &mut u64) {
        *slot = (self as u16) as u64;
    }
}

impl KernelArg for i32 {
    open spec fn arg_bits(&self) -> u64 {
        (*self as u32) as u64
    }

    fn write_into(self, slot: &mut u64) {
        *slot = (self as u32) as u64;
    }
}

impl KernelArg for i64 {
    open spec fn arg_bits(&self) -> u64 {
        *self as u64
    }

    fn write_into(self, slot: &mut u64) {
        *slot = self as u64;
    }
}

impl KernelArg for isize {
    open spec fn arg_bits(&self) -> u64 {
        (*self as usize) as u64
    }

    fn write_into(self, slot: &mut u64) {
        *slot = (self as usize) as u64;
    }
}

/// A device view is passed as its device address.
impl<T: Repr> KernelArg for DeviceView<T> {
    open spec fn arg_bits(&self) -> u64 {
        self.spec_ptr()
    }

    fn write_into(self, slot: &mut u64) {
        *slot = self.device_ptr();
    }
}

} // verus!
