//! The in-process kernel cache: compiled modules found again by the device,
//! the source hash, the architecture, the options hash and the entry point.

use vstd::prelude::*;
use vstd::string::StringSliceAdditionalSpecFns;
use crate::kernel::{fnv1a, spec_fnv1a, str_equal};

verus! {

/// What identifies a compiled kernel.
#[derive(Debug)]
pub struct CacheKey {
    /// Ordinal of the device the module is loaded on.
    pub device: u32,
    pub src_hash: u64,
    pub arch: String,
    pub opts_hash: u64,
    pub fn_name: String,
}

/// A cache key with its texts as character sequences.
pub struct CacheKeyView {
    pub device: u32,
    pub src_hash: u64,
    pub arch: Seq<char>,
    pub opts_hash: u64,
    pub fn_name: Seq<char>,
}

impl View for CacheKey {
    type V = CacheKeyView;

    open spec fn view(&self) -> CacheKeyView {
        CacheKeyView {
            device: self.device,
            src_hash: self.src_hash,
            arch: self.arch@,
            opts_hash: self.opts_hash,
            fn_name: self.fn_name@,
        }
    }
}

impl CacheKey {
    /// The key of entry point `fn_name` of source `src`, compiled for `arch`
    /// with options hashing to `opts_hash`, on device `device`.
    pub fn new(device: u32, src: &str, arch: String, opts_hash: u64, fn_name: String) -> (k: Self)
        ensures
            k@ == (CacheKeyView {
                device,
                src_hash: spec_fnv1a(src.spec_bytes()),
                arch: arch@,
                opts_hash,
                fn_name: fn_name@,
            }),
    {
        CacheKey { device, src_hash: fnv1a(src), arch, opts_hash, fn_name }
    }
}

fn key_equal(a: &CacheKey, b: &CacheKey) -> (r: bool)
    ensures
        r == (a@ == b@),
{
    a.device == b.device && a.src_hash == b.src_hash && a.opts_hash == b.opts_hash
        && str_equal(a.arch.as_str(), b.arch.as_str()) && str_equal(a.fn_name.as_str(), b.fn_name.as_str())
}

/// The module most recently stored under `k` among `entries`.
pub open spec fn find<M>(entries: Seq<(CacheKeyView, M)>, k: CacheKeyView) -> Option<M>
    decreases entries.len(),
{
    if entries.len() == 0 {
        None
    } else if entries.last().0 == k {
        Some(entries.last().1)
    } else {
        find(entries.drop_last(), k)
    }
}

/// Compiled modules by key. A later entry under a key replaces an earlier
/// one, as a map's insert does.
#[derive(Debug)]
pub struct KernelCache<M> {
    entries: Vec<(CacheKey, M)>,
}

impl<M> KernelCache<M> {
    /// The stored entries, oldest first.
    pub closed spec fn entries(&self) -> Seq<(CacheKeyView, M)> {
        self.entries@.map_values(|e: (CacheKey, M)| (e.0@, e.1))
    }

    /// The module stored under `k`, if any.
    pub open spec fn lookup(&self, k: CacheKeyView) -> Option<M> {
        find(self.entries(), k)
    }

    /// An empty cache.
    pub fn new() -> (c: Self)
        ensures
            c.entries().len() == 0,
            forall|k: CacheKeyView| c.lookup(k) is None,
    {
        let c = KernelCache { entries: Vec::new() };
        proof {
            assert(c.entries().len() == 0);
        }
        c
    }

    /// The module stored under `key`, if any.
    pub fn get(&self, key: &CacheKey) -> (r: Option<&M>)
        ensures
            match self.lookup(key@) {
                Some(m) => r matches Some(x) && *x == m,
                None => r is None,
            },
    {
        let ghost es = self.entries();
        let mut i: usize = self.entries.len();
        proof {
            assert(es.take(i as int) =~= es);
        }
        while i > 0
            invariant
                es == self.entries(),
                i <= es.len(),
                es.len() == self.entries@.len(),
                find(es, key@) == find(es.take(i as int), key@),
            decreases i,
        {
            let e = &self.entries[i - 1];
            proof {
                assert(es[i - 1] == (e.0@, e.1));
                assert(es.take(i as int).last() == es[i - 1]);
                assert(es.take(i as int).drop_last() =~= es.take(i - 1));
            }
            if key_equal(&e.0, key) {
                return Some(&e.1);
            }
            i = i - 1;
        }
        proof {
            assert(es.take(0) =~= Seq::<(CacheKeyView, M)>::empty());
        }
        None
    }

    /// Store `module` under `key`.
    pub fn insert(&mut self, key: CacheKey, module: M)
        ensures
            final(self).entries() == old(self).entries().push((key@, module)),
            final(self).lookup(key@) == Some(module),
    {
        let ghost k = key@;
        self.entries.push((key, module));
        proof {
            assert(self.entries() =~= old(self).entries().push((k, module)));
            assert(self.entries().drop_last() =~= old(self).entries());
        }
    }
}

/// A module stored under a key is what a later lookup of that key finds,
/// and storing it leaves the lookups of every other key as they were: the
/// same source, architecture, options and entry point on the same device
/// give the same module.
pub proof fn lemma_lookup_after_insert<M>(entries: Seq<(CacheKeyView, M)>, k: CacheKeyView, m: M, other: CacheKeyView)
    ensures
        find(entries.push((k, m)), k) == Some(m),
        other != k ==> find(entries.push((k, m)), other) == find(entries, other),
{
    assert(entries.push((k, m)).drop_last() =~= entries);
}

} // verus!
