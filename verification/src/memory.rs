//! Device-memory bookkeeping that needs no driver call: views and slices of
//! device buffers, reinterpretation, allocation-granularity rounding, and
//! decoding of driver-written names.

use vstd::prelude::*;
use core::marker::PhantomData;
use vstd::layout::size_of;
use crate::error::{Error, Result};
use crate::text::{decimal, push_decimal, push_str, utf8_lossy, utf8_lossy_text};

verus! {

/// Non-owning view of `len` elements of `T` at device address `ptr`.
#[derive(Debug)]
pub struct DeviceView<T> {
    ptr: u64,
    len: usize,
    _marker: PhantomData<T>,
}

impl<T> DeviceView<T> {
    pub closed spec fn spec_ptr(&self) -> u64 {
        self.ptr
    }

    pub closed spec fn spec_len(&self) -> usize {
        self.len
    }

    /// A view of `len` elements at `ptr`.
    pub fn new(ptr: u64, len: usize) -> (v: Self)
        ensures
            v.spec_ptr() == ptr,
            v.spec_len() == len,
    {
        DeviceView { ptr, len, _marker: PhantomData }
    }

    pub fn device_ptr(&self) -> (r: u64)
        ensures
            r == self.spec_ptr(),
    {
        self.ptr
    }

    pub fn len(&self) -> (r: usize)
        ensures
            r == self.spec_len(),
    {
        self.len
    }

    pub fn is_empty(&self) -> (r: bool)
        ensures
            r == (self.spec_len() == 0),
    {
        self.len == 0
    }

    /// Size of the viewed range in bytes.
    pub fn byte_len(&self) -> (r: usize)
        requires
            self.spec_len() * size_of::<T>() <= usize::MAX,
        ensures
            r == self.spec_len() * size_of::<T>(),
    {
        self.len * core::mem::size_of::<T>()
    }

    /// The sub-view `[offset, offset + len)`.
    pub fn slice(&self, offset: usize, len: usize) -> (v: Self)
        requires
            offset + len <= self.spec_len(),
            self.spec_ptr() + offset * size_of::<T>() <= u64::MAX,
        ensures
            v.spec_ptr() == self.spec_ptr() + offset * size_of::<T>(),
            v.spec_len() == len,
    {
        let sz = core::mem::size_of::<T>();
        proof {
            assert(offset * sz <= u64::MAX);
        }
        let bytes = (offset as u64) * (sz as u64);
        DeviceView { ptr: self.ptr + bytes, len, _marker: PhantomData }
    }
}

/// The range `[start, end)` of a buffer of `len` elements, clamped into the
/// buffer: `(first element, element count)`, as slicing an owned buffer does.
pub fn clamp_range(len: usize, start: usize, end: usize) -> (r: (usize, usize))
    ensures
        r.0 == (if start < len { start } else { len }),
        r.0 + r.1 == (if end < r.0 { r.0 as int } else if end < len { end as int } else { len as int }),
        r.0 + r.1 <= len,
{
    let s = if start < len { start } else { len };
    let e0 = if end < len { end } else { len };
    let e = if e0 < s { s } else { e0 };
    (s, e - s)
}

/// Message of a reinterpretation whose byte count is not a multiple of the
/// new element size.
pub open spec fn not_divisible_text(bytes: nat, size: nat) -> Seq<char> {
    decimal(bytes) + " bytes not divisible by sizeof<U>="@ + decimal(size)
}

/// Element count after reinterpreting `byte_len` bytes as elements of
/// `new_elem_size` bytes; fails when the size is zero or does not divide the
/// byte count.
pub fn transmute_len(byte_len: usize, new_elem_size: usize) -> (r: Result<usize>)
    ensures
        (new_elem_size == 0 || byte_len % new_elem_size != 0) ==> (r matches Err(Error::Precondition { op, msg })
            && op@ == "DeviceBuf::transmute"@ && msg@ == not_divisible_text(byte_len as nat, new_elem_size as nat)),
        !(new_elem_size == 0 || byte_len % new_elem_size != 0) ==> r == Ok::<usize, Error>(byte_len / new_elem_size),
{
    if new_elem_size == 0 || byte_len % new_elem_size != 0 {
        let mut msg = String::new();
        push_decimal(&mut msg, byte_len as u64);
        push_str(&mut msg, " bytes not divisible by sizeof<U>=");
        push_decimal(&mut msg, new_elem_size as u64);
        proof {
            assert(msg@ =~= not_divisible_text(byte_len as nat, new_elem_size as nat));
        }
        return Err(Error::Precondition { op: "DeviceBuf::transmute", msg });
    }
    Ok(byte_len / new_elem_size)
}

/// `bytes` rounded up to a multiple of the allocation granularity `gran`
/// (a zero granularity counts as one).
pub open spec fn spec_round_up(bytes: nat, gran: nat) -> nat {
    let g = if gran == 0 { 1nat } else { gran };
    ((bytes + g - 1) / (g as int)) as nat * g
}

/// Round an allocation size up to the driver's granularity, as the virtual
/// memory and multicast allocations do before asking the driver.
pub fn round_up_to_granularity(bytes: usize, gran: usize) -> (r: usize)
    requires
        bytes + gran <= usize::MAX + 1,
    ensures
        r == spec_round_up(bytes as nat, gran as nat),
        r >= bytes,
        r % (if gran == 0 { 1usize } else { gran }) == 0,
        r < bytes + (if gran == 0 { 1usize } else { gran }),
{
    let g = if gran == 0 { 1 } else { gran };
    let sub = if gran == 0 { 0 } else { gran - 1 };
    let t = bytes + sub;
    let q = t / g;
    proof {
        assert(q * g <= t) by (nonlinear_arith)
            requires
                g > 0,
                q == t / g,
        ;
        assert(q * g >= bytes && q * g < bytes + g && (q * g) % (g as int) == 0) by (nonlinear_arith)
            requires
                g > 0,
                q == t / g,
                t == bytes + g - 1,
        ;
    }
    q * g
}

/// A rounded allocation is a whole number of granules and the smallest one
/// that holds the request.
pub proof fn lemma_round_up_is_least(bytes: nat, g: nat, m: nat)
    requires
        g > 0,
        m % g == 0,
        m >= bytes,
    ensures
        spec_round_up(bytes, g) <= m,
{
    let r = spec_round_up(bytes, g);
    let q = (bytes + g - 1) / (g as int);
    assert(r <= m) by (nonlinear_arith)
        requires
            g > 0,
            m % g == 0,
            m >= bytes,
            q == (bytes + g - 1) / (g as int),
            r == q * g,
    ;
}

/// An optional driver entry point, or the error naming `op` when the loaded
/// driver does not export it.
pub fn need_sym<T>(op: &'static str, sym: Option<T>) -> (r: Result<T>)
    ensures
        sym matches Some(f) ==> r == Ok::<T, Error>(f),
        sym is None ==> (r matches Err(Error::Precondition { op: o, msg }) && o == op
            && msg@ == "symbol not exported by the loaded CUDA driver (requires 12.3+/12.4+)"@),
{
    match sym {
        Some(f) => Ok(f),
        None => Err(Error::precondition(op, "symbol not exported by the loaded CUDA driver (requires 12.3+/12.4+)")),
    }
}

/// Index of the first zero in `raw`, or its length when there is none.
pub open spec fn nul_position<T>(raw: Seq<T>, zero: T) -> nat
    decreases raw.len(),
{
    if raw.len() == 0 {
        0
    } else if raw[0] == zero {
        0
    } else {
        1 + nul_position(raw.drop_first(), zero)
    }
}

/// The bytes of a NUL-terminated `char` buffer the driver filled in: every
/// byte before the first NUL (all of them when there is none).
pub fn name_bytes(buf: &Vec<i8>) -> (r: Vec<u8>)
    ensures
        r@ == buf@.take(nul_position(buf@, 0i8) as int).map_values(|b: i8| b as u8),
{
    let mut out: Vec<u8> = Vec::new();
    let mut i: usize = 0;
    while i < buf.len() && buf[i] != 0
        invariant
            i <= buf@.len(),
            forall|j: int| 0 <= j < i ==> buf@[j] != 0i8,
            out@ == buf@.take(i as int).map_values(|b: i8| b as u8),
        decreases buf@.len() - i,
    {
        out.push(buf[i] as u8);
        proof {
            assert(buf@.take(i as int + 1) =~= buf@.take(i as int).push(buf@[i as int]));
        }
        i = i + 1;
    }
    proof {
        lemma_nul_position(buf@, i as nat);
    }
    out
}

proof fn lemma_nul_position(raw: Seq<i8>, i: nat)
    requires
        i <= raw.len(),
        forall|j: int| 0 <= j < i ==> raw[j] != 0i8,
        i == raw.len() || raw[i as int] == 0i8,
    ensures
        nul_position(raw, 0i8) == i,
    decreases i,
{
    if i > 0 {
        lemma_nul_position(raw.drop_first(), (i - 1) as nat);
    }
}

/// Device name from the driver's NUL-terminated buffer, decoded lossily.
pub fn device_name(buf: &Vec<i8>) -> (s: String)
    ensures
        s@ == utf8_lossy_text(buf@.take(nul_position(buf@, 0i8) as int).map_values(|b: i8| b as u8)),
{
    let bytes = name_bytes(buf);
    utf8_lossy(bytes.as_slice())
}

} // verus!
