//! Kernel-cache keys and NVRTC option assembly: the FNV-1a source hash, the
//! default architecture, the compiler flag list, the on-disk cache layout
//! and the default CUDA include search path.

use vstd::prelude::*;
use vstd::string::{StringSliceAdditionalSpecFns, StrSliceExecFns};
use crate::types::CoreError;
use crate::text::{decimal, hex_fixed, push_char, push_decimal, push_hex_fixed, push_str};

verus! {

pub const FNV_OFFSET: u64 = 0xcbf29ce484222325;
pub const FNV_PRIME: u64 = 0x100000001b3;

/// One FNV-1a step: xor in the byte, multiply by the prime modulo 2^64.
pub open spec fn fnv_step(h: u64, b: u8) -> u64 {
    (h ^ (b as u64)).wrapping_mul(FNV_PRIME)
}

/// FNV-1a 64-bit hash of a byte string.
pub open spec fn spec_fnv1a(bytes: Seq<u8>) -> u64
    decreases bytes.len(),
{
    if bytes.len() == 0 {
        FNV_OFFSET
    } else {
        fnv_step(spec_fnv1a(bytes.drop_last()), bytes.last())
    }
}

/// FNV-1a hash of the UTF-8 bytes of `s`: the source half of a cache key.
pub fn fnv1a(s: &str) -> (h: u64)
    ensures
        h == spec_fnv1a(s.spec_bytes()),
{
    let bytes = s.as_bytes();
    let mut h: u64 = FNV_OFFSET;
    let mut i: usize = 0;
    while i < bytes.len()
        invariant
            i <= bytes@.len(),
            h == spec_fnv1a(bytes@.take(i as int)),
        decreases bytes@.len() - i,
    {
        let b = bytes[i];
        proof {
            assert(bytes@.take(i as int + 1).drop_last() =~= bytes@.take(i as int));
        }
        h = (h ^ (b as u64)).wrapping_mul(FNV_PRIME);
        i = i + 1;
    }
    proof {
        assert(bytes@.take(bytes@.len() as int) =~= bytes@);
    }
    h
}

/// Whether `bytes` hold a NUL byte.
pub open spec fn has_nul(bytes: Seq<u8>) -> bool {
    exists|i: int| 0 <= i < bytes.len() && bytes[i] == 0
}

/// Check that `src` can be handed to NVRTC as a C string: a source holding a
/// NUL byte is refused before any compile.
pub fn check_source(src: &str) -> (r: Result<(), CoreError>)
    ensures
        r is Err <==> has_nul(src.spec_bytes()),
        r matches Err(e) ==> (e matches CoreError::Other(m) && m@ == "src contains NUL"@),
{
    let bytes = src.as_bytes();
    let mut i: usize = 0;
    while i < bytes.len()
        invariant
            i <= bytes@.len(),
            bytes@ == src.spec_bytes(),
            forall|j: int| 0 <= j < i ==> bytes@[j] != 0,
        decreases bytes@.len() - i,
    {
        if bytes[i] == 0 {
            return Err(CoreError::Other("src contains NUL"));
        }
        i = i + 1;
    }
    Ok(())
}

/// NVRTC compiler options.
#[derive(Debug)]
pub struct CompileOptions {
    /// `--gpu-architecture` value such as `compute_90`; derived from the
    /// device when absent.
    pub arch: Option<String>,
    /// Additional `-I` include paths.
    pub include_paths: Vec<String>,
    /// `--ftz`: flush subnormals to zero.
    pub ftz: Option<bool>,
    /// `--prec-div`: IEEE-exact division.
    pub prec_div: Option<bool>,
    /// `--prec-sqrt`: IEEE-exact square root.
    pub prec_sqrt: Option<bool>,
    /// `--fmad`: fused multiply-add contraction.
    pub fmad: Option<bool>,
    /// `--use_fast_math` when `Some(true)`.
    pub use_fast_math: Option<bool>,
    /// `--maxrregcount`: per-thread register cap.
    pub maxrregcount: Option<u32>,
    /// Raw flags appended after the structured ones.
    pub extras: Vec<String>,
}

impl Default for CompileOptions {
    fn default() -> (o: Self)
        ensures
            o.arch is None,
            o.include_paths@.len() == 0,
            o.ftz is None && o.prec_div is None && o.prec_sqrt is None && o.fmad is None,
            o.use_fast_math is None && o.maxrregcount is None,
            o.extras@.len() == 0,
    {
        CompileOptions {
            arch: None,
            include_paths: Vec::new(),
            ftz: None,
            prec_div: None,
            prec_sqrt: None,
            fmad: None,
            use_fast_math: None,
            maxrregcount: None,
            extras: Vec::new(),
        }
    }
}

/// `compute_{major}{minor}`: the architecture a device of that compute
/// capability compiles for by default.
pub open spec fn default_arch_text(major: nat, minor: nat) -> Seq<char> {
    "compute_"@ + decimal(major) + decimal(minor)
}

/// Default NVRTC architecture for a device of compute capability
/// `(major, minor)`.
pub fn default_arch(major: u32, minor: u32) -> (s: String)
    ensures
        s@ == default_arch_text(major as nat, minor as nat),
{
    let mut s = String::new();
    push_str(&mut s, "compute_");
    push_decimal(&mut s, major as u64);
    push_decimal(&mut s, minor as u64);
    proof {
        assert(s@ =~= default_arch_text(major as nat, minor as nat));
    }
    s
}

/// The architecture a compile uses: the requested one, else the device's.
pub fn resolve_arch(opts: &CompileOptions, major: u32, minor: u32) -> (s: String)
    ensures
        opts.arch matches Some(a) ==> s@ == a@,
        opts.arch is None ==> s@ == default_arch_text(major as nat, minor as nat),
{
    match &opts.arch {
        Some(a) => a.clone(),
        None => default_arch(major, minor),
    }
}

pub open spec fn bool_text(b: bool) -> Seq<char> {
    if b { "true"@ } else { "false"@ }
}

/// `{name}={value}` for an optional boolean flag, nothing when absent.
pub open spec fn opt_flag(name: Seq<char>, v: Option<bool>) -> Seq<Seq<char>> {
    match v {
        Some(b) => seq![name + seq!['='] + bool_text(b)],
        None => Seq::empty(),
    }
}

pub open spec fn views(v: Seq<String>) -> Seq<Seq<char>> {
    v.map_values(|s: String| s@)
}

pub open spec fn include_flags(paths: Seq<Seq<char>>) -> Seq<Seq<char>> {
    paths.map_values(|p: Seq<char>| "-I"@ + p)
}

/// The NVRTC flag list of a compile for `arch` with options `o`, searching
/// `defaults` after the caller's include paths.
pub open spec fn spec_nvrtc_flags(arch: Seq<char>, o: CompileOptions, defaults: Seq<Seq<char>>) -> Seq<Seq<char>> {
    seq!["--gpu-architecture="@ + arch]
        + include_flags(views(o.include_paths@))
        + include_flags(defaults)
        + opt_flag("--ftz"@, o.ftz)
        + opt_flag("--prec-div"@, o.prec_div)
        + opt_flag("--prec-sqrt"@, o.prec_sqrt)
        + opt_flag("--fmad"@, o.fmad)
        + (if o.use_fast_math == Some(true) { seq!["--use_fast_math"@] } else { Seq::empty() })
        + (match o.maxrregcount {
            Some(n) => seq!["--maxrregcount="@ + decimal(n as nat)],
            None => Seq::empty(),
        })
        + views(o.extras@)
}

fn push_bool_flag(flags: &mut Vec<String>, name: &str, v: Option<bool>)
    ensures
        views(final(flags)@) == views(old(flags)@) + opt_flag(name@, v),
{
    match v {
        Some(b) => {
            let mut s = String::new();
            push_str(&mut s, name);
            push_char(&mut s, '=');
            if b {
                push_str(&mut s, "true");
            } else {
                push_str(&mut s, "false");
            }
            let ghost sv = s@;
            assert(sv =~= name@ + seq!['='] + bool_text(b));
            let ghost before = flags@;
            flags.push(s);
            proof {
                assert(views(flags@) =~= views(before).push(sv));
                assert(views(flags@) =~= views(before) + opt_flag(name@, v));
            }
        },
        None => {
            proof {
                assert(views(flags@) =~= views(flags@) + opt_flag(name@, v));
            }
        },
    }
}

fn push_include_flags(flags: &mut Vec<String>, paths: &Vec<String>)
    ensures
        views(final(flags)@) == views(old(flags)@) + include_flags(views(paths@)),
{
    let mut i: usize = 0;
    while i < paths.len()
        invariant
            i <= paths@.len(),
            views(flags@) == views(old(flags)@) + include_flags(views(paths@.take(i as int))),
        decreases paths@.len() - i,
    {
        let mut s = String::new();
        push_str(&mut s, "-I");
        push_str(&mut s, paths[i].as_str());
        let ghost before = flags@;
        flags.push(s);
        proof {
            assert(paths@.take(i as int + 1) =~= paths@.take(i as int).push(paths@[i as int]));
            assert(views(flags@) =~= views(before).push(s@));
            assert(include_flags(views(paths@.take(i as int + 1))) =~= include_flags(views(paths@.take(i as int))).push("-I"@ + paths@[i as int]@));
        }
        i = i + 1;
    }
    proof {
        assert(paths@.take(paths@.len() as int) =~= paths@);
    }
}

/// The NVRTC flag list of a compile: architecture, the caller's include
/// paths, the default CUDA include paths, the structured options in a fixed
/// order, then the raw extras.
pub fn nvrtc_flags(arch: &str, opts: &CompileOptions, defaults: &Vec<String>) -> (flags: Vec<String>)
    ensures
        views(flags@) == spec_nvrtc_flags(arch@, *opts, views(defaults@)),
{
    let mut flags: Vec<String> = Vec::new();
    let mut first = String::new();
    push_str(&mut first, "--gpu-architecture=");
    push_str(&mut first, arch);
    flags.push(first);
    proof {
        assert(views(flags@) =~= seq!["--gpu-architecture="@ + arch@]);
    }
    push_include_flags(&mut flags, &opts.include_paths);
    push_include_flags(&mut flags, defaults);
    push_bool_flag(&mut flags, "--ftz", opts.ftz);
    push_bool_flag(&mut flags, "--prec-div", opts.prec_div);
    push_bool_flag(&mut flags, "--prec-sqrt", opts.prec_sqrt);
    push_bool_flag(&mut flags, "--fmad", opts.fmad);
    let ghost before_fast = views(flags@);
    if opts.use_fast_math == Some(true) {
        flags.push("--use_fast_math".to_string());
    }
    proof {
        assert(views(flags@) =~= before_fast + (if opts.use_fast_math == Some(true) { seq!["--use_fast_math"@] } else { Seq::empty() }));
    }
    let ghost before_reg = views(flags@);
    match opts.maxrregcount {
        Some(n) => {
            let mut s = String::new();
            push_str(&mut s, "--maxrregcount=");
            push_decimal(&mut s, n as u64);
            flags.push(s);
        },
        None => {},
    }
    proof {
        assert(views(flags@) =~= before_reg + (match opts.maxrregcount {
            Some(n) => seq!["--maxrregcount="@ + decimal(n as nat)],
            None => Seq::empty(),
        }));
    }
    let ghost before_extras = views(flags@);
    let mut i: usize = 0;
    while i < opts.extras.len()
        invariant
            i <= opts.extras@.len(),
            views(flags@) == before_extras + views(opts.extras@.take(i as int)),
        decreases opts.extras@.len() - i,
    {
        let ghost before = flags@;
        flags.push(opts.extras[i].clone());
        proof {
            assert(opts.extras@.take(i as int + 1) =~= opts.extras@.take(i as int).push(opts.extras@[i as int]));
            assert(views(flags@) =~= views(before).push(opts.extras@[i as int]@));
        }
        i = i + 1;
    }
    proof {
        assert(opts.extras@.take(opts.extras@.len() as int) =~= opts.extras@);
        assert(views(flags@) =~= spec_nvrtc_flags(arch@, *opts, views(defaults@)));
    }
    flags
}

/// The text `--<name>=true` or `--<name>=false`.
pub open spec fn bool_flag(name: Seq<char>, b: bool) -> Seq<char> {
    name + (if b { "=true"@ } else { "=false"@ })
}

proof fn lemma_contains_right(a: Seq<Seq<char>>, b: Seq<Seq<char>>, x: Seq<char>)
    requires
        b.contains(x),
    ensures
        (a + b).contains(x),
{
    let k = choose|k: int| 0 <= k < b.len() && b[k] == x;
    assert((a + b)[a.len() + k] == x);
}

proof fn lemma_contains_left(a: Seq<Seq<char>>, b: Seq<Seq<char>>, x: Seq<char>)
    requires
        a.contains(x),
    ensures
        (a + b).contains(x),
{
    let k = choose|k: int| 0 <= k < a.len() && a[k] == x;
    assert((a + b)[k] == x);
}

/// No structured option is lost: every boolean option that is set appears in
/// the flag list as `--<option>=<value>`, as do `--use_fast_math` when it is
/// on and the register cap when it is set; the architecture flag comes
/// first, and the raw extras end the list in their order.
pub proof fn lemma_flags_carry_options(arch: Seq<char>, o: CompileOptions, defaults: Seq<Seq<char>>)
    ensures
        ({
            let f = spec_nvrtc_flags(arch, o, defaults);
            &&& f.len() > 0 && f[0] == "--gpu-architecture="@ + arch
            &&& (o.ftz matches Some(b) ==> f.contains(bool_flag("--ftz"@, b)))
            &&& (o.prec_div matches Some(b) ==> f.contains(bool_flag("--prec-div"@, b)))
            &&& (o.prec_sqrt matches Some(b) ==> f.contains(bool_flag("--prec-sqrt"@, b)))
            &&& (o.fmad matches Some(b) ==> f.contains(bool_flag("--fmad"@, b)))
            &&& (o.use_fast_math == Some(true) ==> f.contains("--use_fast_math"@))
            &&& (o.maxrregcount matches Some(n) ==> f.contains("--maxrregcount="@ + decimal(n as nat)))
            &&& f.len() >= o.extras@.len()
            &&& f.subrange(f.len() - o.extras@.len(), f.len() as int) == views(o.extras@)
        }),
{
    reveal_strlit("=true");
    reveal_strlit("=false");
    reveal_strlit("true");
    reveal_strlit("false");
    let s0: Seq<Seq<char>> = seq!["--gpu-architecture="@ + arch];
    let a1 = s0 + include_flags(views(o.include_paths@)) + include_flags(defaults);
    let f_ftz = opt_flag("--ftz"@, o.ftz);
    let f_pd = opt_flag("--prec-div"@, o.prec_div);
    let f_ps = opt_flag("--prec-sqrt"@, o.prec_sqrt);
    let f_fm = opt_flag("--fmad"@, o.fmad);
    let f_fast = if o.use_fast_math == Some(true) { seq!["--use_fast_math"@] } else { Seq::<Seq<char>>::empty() };
    let f_reg = match o.maxrregcount {
        Some(n) => seq!["--maxrregcount="@ + decimal(n as nat)],
        None => Seq::<Seq<char>>::empty(),
    };
    let ex = views(o.extras@);
    let a2 = a1 + f_ftz;
    let a3 = a2 + f_pd;
    let a4 = a3 + f_ps;
    let a5 = a4 + f_fm;
    let a6 = a5 + f_fast;
    let a7 = a6 + f_reg;
    let f = spec_nvrtc_flags(arch, o, defaults);
    assert(f == a7 + ex);
    assert((a1)[0] == s0[0]);
    assert(f[0] == a7[0]);
    assert(a7.len() >= a1.len());
    // each part reaches the whole list
    if let Some(b) = o.ftz {
        assert(f_ftz[0] == bool_flag("--ftz"@, b));
        lemma_contains_right(a1, f_ftz, bool_flag("--ftz"@, b));
        lemma_contains_left(a2, f_pd, bool_flag("--ftz"@, b));
        lemma_contains_left(a3, f_ps, bool_flag("--ftz"@, b));
        lemma_contains_left(a4, f_fm, bool_flag("--ftz"@, b));
        lemma_contains_left(a5, f_fast, bool_flag("--ftz"@, b));
        lemma_contains_left(a6, f_reg, bool_flag("--ftz"@, b));
        lemma_contains_left(a7, ex, bool_flag("--ftz"@, b));
    }
    if let Some(b) = o.prec_div {
        assert(f_pd[0] == bool_flag("--prec-div"@, b));
        lemma_contains_right(a2, f_pd, bool_flag("--prec-div"@, b));
        lemma_contains_left(a3, f_ps, bool_flag("--prec-div"@, b));
        lemma_contains_left(a4, f_fm, bool_flag("--prec-div"@, b));
        lemma_contains_left(a5, f_fast, bool_flag("--prec-div"@, b));
        lemma_contains_left(a6, f_reg, bool_flag("--prec-div"@, b));
        lemma_contains_left(a7, ex, bool_flag("--prec-div"@, b));
    }
    if let Some(b) = o.prec_sqrt {
        assert(f_ps[0] == bool_flag("--prec-sqrt"@, b));
        lemma_contains_right(a3, f_ps, bool_flag("--prec-sqrt"@, b));
        lemma_contains_left(a4, f_fm, bool_flag("--prec-sqrt"@, b));
        lemma_contains_left(a5, f_fast, bool_flag("--prec-sqrt"@, b));
        lemma_contains_left(a6, f_reg, bool_flag("--prec-sqrt"@, b));
        lemma_contains_left(a7, ex, bool_flag("--prec-sqrt"@, b));
    }
    if let Some(b) = o.fmad {
        assert(f_fm[0] == bool_flag("--fmad"@, b));
        lemma_contains_right(a4, f_fm, bool_flag("--fmad"@, b));
        lemma_contains_left(a5, f_fast, bool_flag("--fmad"@, b));
        lemma_contains_left(a6, f_reg, bool_flag("--fmad"@, b));
        lemma_contains_left(a7, ex, bool_flag("--fmad"@, b));
    }
    if o.use_fast_math == Some(true) {
        assert(f_fast[0] == "--use_fast_math"@);
        lemma_contains_right(a5, f_fast, "--use_fast_math"@);
        lemma_contains_left(a6, f_reg, "--use_fast_math"@);
        lemma_contains_left(a7, ex, "--use_fast_math"@);
    }
    if let Some(n) = o.maxrregcount {
        assert(f_reg[0] == "--maxrregcount="@ + decimal(n as nat));
        lemma_contains_right(a6, f_reg, "--maxrregcount="@ + decimal(n as nat));
        lemma_contains_left(a7, ex, "--maxrregcount="@ + decimal(n as nat));
    }
    assert(f.subrange(f.len() - ex.len(), f.len() as int) =~= ex);
}

// ── On-disk PTX cache ──────────────────────────────────────────────────────

/// File name of a cached PTX image: both hashes as 16 lowercase hex digits.
pub open spec fn cache_file_text(src_hash: u64, opts_hash: u64) -> Seq<char> {
    hex_fixed(src_hash as nat, 16) + seq!['_'] + hex_fixed(opts_hash as nat, 16) + ".ptx"@
}

/// `{src_hash:016x}_{opts_hash:016x}.ptx`.
pub fn cache_file_name(src_hash: u64, opts_hash: u64) -> (s: String)
    ensures
        s@ == cache_file_text(src_hash, opts_hash),
{
    let mut s = String::new();
    push_hex_fixed(&mut s, src_hash, 16);
    push_char(&mut s, '_');
    push_hex_fixed(&mut s, opts_hash, 16);
    push_str(&mut s, ".ptx");
    proof {
        assert(s@ =~= cache_file_text(src_hash, opts_hash));
    }
    s
}

/// Whether a value of the cache switch turns the on-disk cache off.
pub open spec fn disables_cache(v: Seq<char>) -> bool {
    v == "0"@ || v == "off"@ || v == "false"@
}

/// Whether two strings hold the same characters.
pub(crate) fn str_equal(a: &str, b: &str) -> (r: bool)
    ensures
        r == (a@ == b@),
{
    let n = a.unicode_len();
    if n != b.unicode_len() {
        return false;
    }
    let mut i: usize = 0;
    while i < n
        invariant
            n == a@.len(),
            n == b@.len(),
            i <= n,
            forall|j: int| 0 <= j < i ==> a@[j] == b@[j],
        decreases n - i,
    {
        if a.get_char(i) != b.get_char(i) {
            return false;
        }
        i = i + 1;
    }
    proof {
        assert(a@ =~= b@);
    }
    true
}

/// Whether the on-disk cache is switched off: the switch is set to `0`,
/// `off` or `false`.
pub fn disk_cache_disabled(switch: Option<&str>) -> (r: bool)
    ensures
        r == (switch matches Some(v) && disables_cache(v@)),
{
    match switch {
        Some(v) => str_equal(v, "0") || str_equal(v, "off") || str_equal(v, "false"),
        None => false,
    }
}

/// Where the on-disk cache lives.
#[derive(Debug)]
pub enum CacheRoot {
    /// The cache is switched off.
    Disabled,
    /// An explicitly configured directory.
    Dir(String),
    /// `ironaccelerator/ptx` under the system temporary directory.
    UnderTemp,
}

/// Cache root: none when switched off, the configured directory when one is
/// given and non-empty, else the default under the temporary directory.
pub fn disk_cache_root(switch: Option<&str>, dir: Option<&str>) -> (r: CacheRoot)
    ensures
        (switch matches Some(v) && disables_cache(v@)) ==> r is Disabled,
        !(switch matches Some(v) && disables_cache(v@)) ==> match dir {
            Some(d) if d@.len() > 0 => r matches CacheRoot::Dir(p) && p@ == d@,
            _ => r is UnderTemp,
        },
{
    if disk_cache_disabled(switch) {
        return CacheRoot::Disabled;
    }
    match dir {
        Some(d) => {
            if d.is_empty() {
                CacheRoot::UnderTemp
            } else {
                CacheRoot::Dir(d.to_string())
            }
        },
        None => CacheRoot::UnderTemp,
    }
}


// ── Default include search path ────────────────────────────────────────────

/// The pieces of `s` between occurrences of `sep`, empty ones included.
pub open spec fn pieces(s: Seq<char>, sep: char) -> Seq<Seq<char>>
    decreases s.len(),
{
    if s.len() == 0 {
        seq![Seq::empty()]
    } else {
        let p = pieces(s.drop_last(), sep);
        if s.last() == sep {
            p.push(Seq::empty())
        } else {
            p.update(p.len() - 1, p.last().push(s.last()))
        }
    }
}

/// The non-empty members of `ps`, in order.
pub open spec fn nonempty_of(ps: Seq<Seq<char>>) -> Seq<Seq<char>>
    decreases ps.len(),
{
    if ps.len() == 0 {
        Seq::empty()
    } else {
        let r = nonempty_of(ps.drop_last());
        if ps.last().len() > 0 { r.push(ps.last()) } else { r }
    }
}

/// The non-empty pieces of `s` between separators.
pub open spec fn split_nonempty(s: Seq<char>, sep: char) -> Seq<Seq<char>> {
    nonempty_of(pieces(s, sep))
}

proof fn lemma_pieces_nonempty(s: Seq<char>, sep: char)
    ensures
        pieces(s, sep).len() >= 1,
    decreases s.len(),
{
    if s.len() > 0 {
        lemma_pieces_nonempty(s.drop_last(), sep);
    }
}

/// Split a search-path list on `sep`, dropping empty entries.
pub fn split_path_list(s: &str, sep: char) -> (r: Vec<String>)
    ensures
        views(r@) == split_nonempty(s@, sep),
{
    let n = s.unicode_len();
    let mut out: Vec<String> = Vec::new();
    let mut cur = String::new();
    let mut i: usize = 0;
    proof {
        assert(s@.take(0) =~= Seq::<char>::empty());
        assert(pieces(Seq::<char>::empty(), sep) =~= seq![Seq::<char>::empty()]);
        assert(pieces(Seq::<char>::empty(), sep).drop_last() =~= Seq::<Seq<char>>::empty());
    }
    while i < n
        invariant
            n == s@.len(),
            i <= n,
            pieces(s@.take(i as int), sep).len() >= 1,
            cur@ == pieces(s@.take(i as int), sep).last(),
            views(out@) == nonempty_of(pieces(s@.take(i as int), sep).drop_last()),
        decreases n - i,
    {
        let c = s.get_char(i);
        let ghost pre = s@.take(i as int);
        let ghost post = s@.take(i as int + 1);
        proof {
            assert(post.drop_last() =~= pre);
            assert(post.last() == c);
            lemma_pieces_nonempty(pre, sep);
        }
        if c == sep {
            if cur.unicode_len() > 0 {
                let mut done = String::new();
                std::mem::swap(&mut done, &mut cur);
                let ghost before = out@;
                out.push(done);
                proof {
                    assert(views(out@) =~= views(before).push(pieces(pre, sep).last()));
                    assert(pieces(post, sep).drop_last() =~= pieces(pre, sep));
                    assert(pieces(pre, sep) =~= pieces(pre, sep).drop_last().push(pieces(pre, sep).last()));
                }
            } else {
                cur = String::new();
                proof {
                    assert(pieces(post, sep).drop_last() =~= pieces(pre, sep));
                    assert(pieces(pre, sep) =~= pieces(pre, sep).drop_last().push(pieces(pre, sep).last()));
                }
            }
            proof {
                assert(cur@ =~= Seq::<char>::empty());
            }
        } else {
            push_char(&mut cur, c);
            proof {
                assert(pieces(post, sep).drop_last() =~= pieces(pre, sep).drop_last());
            }
        }
        i = i + 1;
    }
    proof {
        assert(s@.take(n as int) =~= s@);
        let ps = pieces(s@, sep);
        assert(ps =~= ps.drop_last().push(ps.last()));
    }
    if cur.unicode_len() > 0 {
        out.push(cur);
    }
    out
}

/// Whether `p` occurs in `v`.
pub fn contains_text(v: &Vec<String>, p: &str) -> (r: bool)
    ensures
        r == views(v@).contains(p@),
{
    let mut i: usize = 0;
    while i < v.len()
        invariant
            i <= v@.len(),
            forall|j: int| 0 <= j < i ==> v@[j]@ != p@,
        decreases v@.len() - i,
    {
        if str_equal(v[i].as_str(), p) {
            proof {
                assert(views(v@)[i as int] == p@);
            }
            return true;
        }
        i = i + 1;
    }
    proof {
        if views(v@).contains(p@) {
            let j = choose|j: int| 0 <= j < views(v@).len() && views(v@)[j] == p@;
            assert(v@[j]@ == p@);
        }
    }
    false
}

/// `p + "/include"`.
pub open spec fn include_dir(p: Seq<char>) -> Seq<char> {
    p + "/include"@
}

fn include_dir_of(p: &str) -> (s: String)
    ensures
        s@ == include_dir(p@),
{
    let mut s = String::new();
    push_str(&mut s, p);
    push_str(&mut s, "/include");
    proof {
        assert(s@ =~= include_dir(p@));
    }
    s
}

/// The ordered candidate include directories: the explicit search list,
/// then `$CUDA_PATH/include`, `$CUDA_HOME/include`, the standard Linux
/// location, then the toolkit installs (newest first).
pub open spec fn spec_include_candidates(
    explicit: Option<Seq<char>>,
    sep: char,
    cuda_path: Option<Seq<char>>,
    cuda_home: Option<Seq<char>>,
    linux: bool,
    installs: Seq<Seq<char>>,
) -> Seq<Seq<char>> {
    (match explicit { Some(e) => split_nonempty(e, sep), None => Seq::empty() })
        + (match cuda_path { Some(p) => seq![include_dir(p)], None => Seq::empty() })
        + (match cuda_home { Some(p) => seq![include_dir(p)], None => Seq::empty() })
        + (if linux { seq!["/usr/local/cuda/include"@] } else { Seq::empty() })
        + installs
}

pub open spec fn opt_view(o: Option<&str>) -> Option<Seq<char>> {
    match o {
        Some(s) => Some(s@),
        None => None,
    }
}

/// Candidate include directories, in search order.
pub fn include_candidates(
    explicit: Option<&str>,
    sep: char,
    cuda_path: Option<&str>,
    cuda_home: Option<&str>,
    linux: bool,
    installs: &Vec<String>,
) -> (r: Vec<String>)
    ensures
        views(r@) == spec_include_candidates(opt_view(explicit), sep, opt_view(cuda_path), opt_view(cuda_home), linux, views(installs@)),
{
    let mut out: Vec<String> = match explicit {
        Some(e) => split_path_list(e, sep),
        None => Vec::new(),
    };
    let ghost a = views(out@);
    match cuda_path {
        Some(p) => { out.push(include_dir_of(p)); },
        None => {},
    }
    let ghost b = views(out@);
    match cuda_home {
        Some(p) => { out.push(include_dir_of(p)); },
        None => {},
    }
    let ghost c = views(out@);
    if linux {
        out.push("/usr/local/cuda/include".to_string());
    }
    let ghost d = views(out@);
    let mut i: usize = 0;
    while i < installs.len()
        invariant
            i <= installs@.len(),
            views(out@) == d + views(installs@.take(i as int)),
        decreases installs@.len() - i,
    {
        let ghost before = out@;
        out.push(installs[i].clone());
        proof {
            assert(installs@.take(i as int + 1) =~= installs@.take(i as int).push(installs@[i as int]));
            assert(views(out@) =~= views(before).push(installs@[i as int]@));
        }
        i = i + 1;
    }
    proof {
        assert(installs@.take(installs@.len() as int) =~= installs@);
        assert(b =~= a + (match opt_view(cuda_path) { Some(p) => seq![include_dir(p)], None => Seq::<Seq<char>>::empty() }));
        assert(c =~= b + (match opt_view(cuda_home) { Some(p) => seq![include_dir(p)], None => Seq::<Seq<char>>::empty() }));
        assert(d =~= c + (if linux { seq!["/usr/local/cuda/include"@] } else { Seq::<Seq<char>>::empty() }));
        assert(views(out@) =~= spec_include_candidates(opt_view(explicit), sep, opt_view(cuda_path), opt_view(cuda_home), linux, views(installs@)));
    }
    out
}

/// The candidates kept, in order: those that exist as directories, each
/// only at its first occurrence.
pub open spec fn keep_existing_unique(cands: Seq<Seq<char>>, exists: Seq<bool>) -> Seq<Seq<char>>
    decreases cands.len(),
{
    if cands.len() == 0 {
        Seq::empty()
    } else {
        let r = keep_existing_unique(cands.drop_last(), exists.take(cands.len() - 1));
        if exists[cands.len() - 1] && !r.contains(cands.last()) { r.push(cands.last()) } else { r }
    }
}

/// Filter the candidates down to the include search path: existing
/// directories (`exists[i]` for candidate `i`), first occurrence only.
pub fn dedup_existing(cands: &Vec<String>, exists: &Vec<bool>) -> (r: Vec<String>)
    requires
        exists@.len() == cands@.len(),
    ensures
        views(r@) == keep_existing_unique(views(cands@), exists@),
{
    let mut out: Vec<String> = Vec::new();
    let mut i: usize = 0;
    while i < cands.len()
        invariant
            i <= cands@.len(),
            exists@.len() == cands@.len(),
            views(out@) == keep_existing_unique(views(cands@).take(i as int), exists@.take(i as int)),
        decreases cands@.len() - i,
    {
        let ghost pre = views(cands@).take(i as int);
        let ghost post = views(cands@).take(i as int + 1);
        proof {
            assert(post.drop_last() =~= pre);
            assert(exists@.take(i as int + 1).take(i as int) =~= exists@.take(i as int));
            assert(post.last() == cands@[i as int]@);
        }
        if exists[i] && !contains_text(&out, cands[i].as_str()) {
            let ghost before = out@;
            out.push(cands[i].clone());
            proof {
                assert(views(out@) =~= views(before).push(cands@[i as int]@));
            }
        }
        i = i + 1;
    }
    proof {
        assert(views(cands@).take(cands@.len() as int) =~= views(cands@));
        assert(exists@.take(cands@.len() as int) =~= exists@);
    }
    out
}

/// The search path never names a directory twice.
pub proof fn lemma_dedup_is_unique(cands: Seq<Seq<char>>, exists: Seq<bool>)
    ensures
        forall|i: int, j: int| 0 <= i < j < keep_existing_unique(cands, exists).len() ==>
            keep_existing_unique(cands, exists)[i] != keep_existing_unique(cands, exists)[j],
    decreases cands.len(),
{
    if cands.len() > 0 {
        lemma_dedup_is_unique(cands.drop_last(), exists.take(cands.len() - 1));
        let r = keep_existing_unique(cands.drop_last(), exists.take(cands.len() - 1));
        if exists[cands.len() - 1] && !r.contains(cands.last()) {
            let rr = r.push(cands.last());
            assert forall|i: int, j: int| 0 <= i < j < rr.len() implies rr[i] != rr[j] by {
                if j == rr.len() - 1 {
                    assert(r[i] == rr[i]);
                    if rr[i] == rr[j] {
                        assert(r.contains(cands.last()));
                    }
                }
            }
        }
    }
}

/// Lexicographic order of texts by character, the order `String`'s `Ord`
/// gives (UTF-8 bytes compare as the code points they encode).
pub open spec fn lex_le(a: Seq<char>, b: Seq<char>) -> bool
    decreases a.len(),
{
    if a.len() == 0 {
        true
    } else if b.len() == 0 {
        false
    } else if (a[0] as u32) != (b[0] as u32) {
        (a[0] as u32) < (b[0] as u32)
    } else {
        lex_le(a.drop_first(), b.drop_first())
    }
}

proof fn lemma_lex_total(a: Seq<char>, b: Seq<char>)
    ensures
        lex_le(a, b) || lex_le(b, a),
    decreases a.len(),
{
    if a.len() > 0 && b.len() > 0 && (a[0] as u32) == (b[0] as u32) {
        lemma_lex_total(a.drop_first(), b.drop_first());
    }
}

proof fn lemma_lex_trans(a: Seq<char>, b: Seq<char>, c: Seq<char>)
    requires
        lex_le(a, b),
        lex_le(b, c),
    ensures
        lex_le(a, c),
    decreases a.len(),
{
    if a.len() > 0 && b.len() > 0 && c.len() > 0 && (a[0] as u32) == (b[0] as u32) && (b[0] as u32) == (c[0]
        as u32) {
        lemma_lex_trans(a.drop_first(), b.drop_first(), c.drop_first());
    }
}

proof fn lemma_lex_skip(a: Seq<char>, b: Seq<char>, i: int)
    requires
        0 <= i <= a.len(),
        i <= b.len(),
        forall|j: int| 0 <= j < i ==> (a[j] as u32) == (b[j] as u32),
    ensures
        lex_le(a, b) == lex_le(a.subrange(i, a.len() as int), b.subrange(i, b.len() as int)),
    decreases i,
{
    if i > 0 {
        let a1 = a.drop_first();
        let b1 = b.drop_first();
        assert forall|j: int| 0 <= j < i - 1 implies (a1[j] as u32) == (b1[j] as u32) by {
            assert(a1[j] == a[j + 1] && b1[j] == b[j + 1]);
        }
        assert((a[0] as u32) == (b[0] as u32));
        lemma_lex_skip(a1, b1, i - 1);
        assert(a1.subrange(i - 1, a1.len() as int) =~= a.subrange(i, a.len() as int));
        assert(b1.subrange(i - 1, b1.len() as int) =~= b.subrange(i, b.len() as int));
    } else {
        assert(a.subrange(0, a.len() as int) =~= a);
        assert(b.subrange(0, b.len() as int) =~= b);
    }
}

/// `a <= b` in the order of `lex_le`.
pub fn text_le(a: &str, b: &str) -> (r: bool)
    ensures
        r == lex_le(a@, b@),
{
    let n = a.unicode_len();
    let m = b.unicode_len();
    let mut i: usize = 0;
    while i < n && i < m
        invariant
            n == a@.len(),
            m == b@.len(),
            i <= n && i <= m,
            forall|j: int| 0 <= j < i ==> (a@[j] as u32) == (b@[j] as u32),
        decreases n - i,
    {
        let x = a.get_char(i);
        let y = b.get_char(i);
        if (x as u32) != (y as u32) {
            proof {
                lemma_lex_skip(a@, b@, i as int);
                let sa = a@.subrange(i as int, n as int);
                let sb = b@.subrange(i as int, m as int);
                assert(sa[0] == x && sb[0] == y);
            }
            return (x as u32) < (y as u32);
        }
        i = i + 1;
    }
    proof {
        lemma_lex_skip(a@, b@, i as int);
    }
    i == n
}

/// Whether the texts are in non-increasing order.
pub open spec fn sorted_desc(s: Seq<Seq<char>>) -> bool {
    forall|i: int, j: int| 0 <= i < j < s.len() ==> lex_le(s[j], s[i])
}

/// The install directories newest first: in decreasing text order, as
/// sorting and reversing them orders them.
pub fn sort_newest_first(v: Vec<String>) -> (r: Vec<String>)
    ensures
        views(r@).to_multiset() == views(v@).to_multiset(),
        sorted_desc(views(r@)),
{
    let mut out: Vec<String> = Vec::new();
    let mut rest = v;
    let ghost orig = views(rest@);
    proof {
        assert(views(out@) + views(rest@) =~= orig);
    }
    while rest.len() > 0
        invariant
            (views(out@) + views(rest@)).to_multiset() == orig.to_multiset(),
            sorted_desc(views(out@)),
        decreases rest@.len(),
    {
        let ghost before_rest = views(rest@);
        let ghost before_out = views(out@);
        let x = rest.pop().unwrap();
        proof {
            assert(before_rest =~= views(rest@).push(x@));
        }
        let ghost xv = x@;
        // Insert x before the first element that is not greater than it.
        let mut k: usize = 0;
        while k < out.len()
            invariant
                k <= out@.len(),
                views(out@) == before_out,
                xv == x@,
                forall|j: int| 0 <= j < k ==> !lex_le(#[trigger] before_out[j], xv),
            ensures
                k <= out@.len(),
                forall|j: int| 0 <= j < k ==> !lex_le(#[trigger] before_out[j], xv),
                k < out@.len() ==> lex_le(before_out[k as int], xv),
            decreases out@.len() - k,
        {
            proof {
                assert(before_out[k as int] == out@[k as int]@);
            }
            if text_le(out[k].as_str(), x.as_str()) {
                break;
            }
            k = k + 1;
        }
        proof {
            assert forall|j: int| 0 <= j < k implies lex_le(xv, #[trigger] before_out[j]) by {
                lemma_lex_total(before_out[j], xv);
            }
            if k < out@.len() {
                assert(lex_le(before_out[k as int], xv));
                assert forall|j: int| k <= j < before_out.len() implies lex_le(#[trigger] before_out[j], xv) by {
                    if j > k {
                        lemma_lex_trans(before_out[j], before_out[k as int], xv);
                    }
                }
            }
        }
        out.insert(k, x);
        proof {
            let nv = views(out@);
            assert(nv =~= before_out.insert(k as int, xv));
            assert forall|i: int, j: int| 0 <= i < j < nv.len() implies lex_le(nv[j], nv[i]) by {
                if j < k {
                } else if j == k {
                    assert(nv[j] == xv);
                } else if i == k {
                    assert(nv[i] == xv);
                    assert(nv[j] == before_out[j - 1]);
                } else if i < k {
                    assert(nv[j] == before_out[j - 1]);
                    lemma_lex_trans(before_out[j - 1], xv, before_out[i]);
                } else {
                    assert(nv[j] == before_out[j - 1]);
                    assert(nv[i] == before_out[i - 1]);
                }
            }
            let rv = views(rest@);
            assert((nv + rv).to_multiset() =~= (before_out + rv.push(xv)).to_multiset()) by {
                broadcast use vstd::multiset::group_multiset_axioms;
                vstd::seq_lib::lemma_multiset_commutative(nv, rv);
                vstd::seq_lib::lemma_multiset_commutative(before_out, rv.push(xv));
                vstd::seq_lib::to_multiset_insert(before_out, k as int, xv);
                rv.to_multiset_ensures();
            }
        }
    }
    proof {
        assert(views(out@) + views(rest@) =~= views(out@));
    }
    out
}

} // verus!
