//! Per-device caches: one library handle (or device object) per device
//! ordinal, created on first use and handed out afterwards.

use vstd::prelude::*;
use std::collections::HashMap;

verus! {

broadcast use vstd::std_specs::hash::group_hash_axioms;

/// The cached object of each device ordinal.
pub struct DeviceCache<H> {
    map: HashMap<u32, H>,
}

impl<H> View for DeviceCache<H> {
    type V = Map<u32, H>;

    closed spec fn view(&self) -> Map<u32, H> {
        self.map@
    }
}

impl<H> DeviceCache<H> {
    /// An empty cache.
    pub fn new() -> (c: Self)
        ensures
            c@ == Map::<u32, H>::empty(),
    {
        DeviceCache { map: HashMap::new() }
    }

    /// The object cached for `ordinal`, if one was created.
    pub fn get(&self, ordinal: u32) -> (r: Option<&H>)
        ensures
            match r {
                Some(h) => self@.contains_key(ordinal) && *h == self@[ordinal],
                None => !self@.contains_key(ordinal),
            },
    {
        self.map.get(&ordinal)
    }

    /// Remember `h` as the object of `ordinal`.
    pub fn insert(&mut self, ordinal: u32, h: H)
        ensures
            final(self)@ == old(self)@.insert(ordinal, h),
    {
        self.map.insert(ordinal, h);
    }

    /// Number of devices with a cached object.
    pub fn len(&self) -> (n: usize)
        ensures
            n == self@.len(),
    {
        self.map.len()
    }
}

/// What a lookup gives back of an insertion: after caching `h` for
/// `ordinal`, looking `ordinal` up finds `h`, and every other ordinal finds
/// what it found before.
pub proof fn lemma_get_after_insert<H>(m: Map<u32, H>, ordinal: u32, h: H, other: u32)
    ensures
        m.insert(ordinal, h).contains_key(ordinal),
        m.insert(ordinal, h)[ordinal] == h,
        other != ordinal ==> (m.insert(ordinal, h).contains_key(other) == m.contains_key(other)),
        other != ordinal && m.contains_key(other) ==> m.insert(ordinal, h)[other] == m[other],
{
}

} // verus!
