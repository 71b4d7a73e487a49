//! Launch geometry and stream-priority selection.

use vstd::prelude::*;

verus! {

/// Launch geometry: grid and block dimensions plus dynamic shared memory.
#[derive(Clone, Copy, Debug)]
pub struct LaunchCfg {
    pub grid: (u32, u32, u32),
    pub block: (u32, u32, u32),
    pub shared_bytes: u32,
}

/// `ceil(a / b)` for `b > 0`.
pub open spec fn ceil_div(a: nat, b: nat) -> nat {
    ((a + b - 1) / (b as int)) as nat
}

impl LaunchCfg {
    /// One-dimensional geometry: `grid` blocks of `block` threads.
    pub fn linear(grid: u32, block: u32) -> (c: LaunchCfg)
        ensures
            c.grid == (grid, 1u32, 1u32),
            c.block == (block, 1u32, 1u32),
            c.shared_bytes == 0,
    {
        LaunchCfg { grid: (grid, 1, 1), block: (block, 1, 1), shared_bytes: 0 }
    }

    /// One-dimensional geometry covering `n` elements with `block` threads
    /// per block: `ceil(n / block)` blocks (a zero-thread block size counts as
    /// one for the division), and never fewer than one block.
    pub fn for_elements(n: u32, block: u32) -> (c: LaunchCfg)
        requires
            n + block >= 1,
            n + block <= u32::MAX,
        ensures
            c.grid.1 == 1 && c.grid.2 == 1,
            c.block == (block, 1u32, 1u32),
            c.shared_bytes == 0,
            c.grid.0 as int == {
                let g = (n + block - 1) / (if block == 0 { 1int } else { block as int });
                if g < 1 { 1 } else { g }
            },
    {
        let d = if block == 0 { 1 } else { block };
        let grid = (n + block - 1) / d;
        Self::linear(if grid < 1 { 1 } else { grid }, block)
    }
}

proof fn lemma_div_ceil_fits(a: u32, b: u32)
    requires
        b > 0,
    ensures
        a / b + (if a % b != 0 { 1int } else { 0int }) <= u32::MAX,
{
    if b == 1 {
        assert(a % b == 0);
        assert(a / b == a);
    } else {
        assert(a / b <= a / 2) by (nonlinear_arith)
            requires
                b >= 2,
        {
        }
    }
}

/// Two-dimensional geometry over a `rows x cols` domain with `by x bx`
/// blocks: `ceil(cols / bx)` blocks along x, `ceil(rows / by)` along y.
pub fn launch_2d_cfg(rows: u32, cols: u32, by: u32, bx: u32) -> (c: LaunchCfg)
    requires
        by > 0,
        bx > 0,
    ensures
        c.grid == (ceil_div(cols as nat, bx as nat) as u32, ceil_div(rows as nat, by as nat) as u32, 1u32),
        c.block == (bx, by, 1u32),
        c.shared_bytes == 0,
{
    proof {
        lemma_div_ceil_fits(cols, bx);
        lemma_div_ceil_fits(rows, by);
    }
    let gx = cols / bx + if cols % bx != 0 { 1 } else { 0 };
    let gy = rows / by + if rows % by != 0 { 1 } else { 0 };
    proof {
        assert(gx as nat == ceil_div(cols as nat, bx as nat)) by (nonlinear_arith)
            requires
                bx > 0,
                gx == cols / bx + if cols % bx != 0 { 1int } else { 0int },
        {
        }
        assert(gy as nat == ceil_div(rows as nat, by as nat)) by (nonlinear_arith)
            requires
                by > 0,
                gy == rows / by + if rows % by != 0 { 1int } else { 0int },
        {
        }
    }
    LaunchCfg { grid: (gx, gy, 1), block: (bx, by, 1), shared_bytes: 0 }
}

/// Priority hint for stream creation. On CUDA devices a numerically lower
/// priority is a higher one.
#[derive(Clone, Copy, Debug)]
pub enum Priority {
    Default,
    /// The device's greatest (most negative) priority, for latency-sensitive
    /// work.
    High,
    /// The device's least priority, for background work.
    Low,
    /// A raw driver priority, clamped into the device's legal range.
    Raw(i32),
}

/// The driver priority a stream is created with, on a device whose priority
/// range the driver reports as `(least, greatest)`, in that order, with
/// `greatest <= least`.
pub open spec fn spec_priority_value(p: Priority, least: i32, greatest: i32) -> i32 {
    match p {
        Priority::Default => 0,
        Priority::High => greatest,
        Priority::Low => least,
        Priority::Raw(v) => if v < greatest { greatest } else if v > least { least } else { v },
    }
}

/// Driver priority for `p` on a device whose priority range is
/// `(least, greatest)` as `cuStreamGetPriorityRange` reports it.
pub fn priority_value(p: Priority, least: i32, greatest: i32) -> (r: i32)
    ensures
        r == spec_priority_value(p, least, greatest),
        (p is Raw && greatest <= least) ==> greatest <= r <= least,
{
    match p {
        Priority::Default => 0,
        Priority::High => greatest,
        Priority::Low => least,
        Priority::Raw(v) => if v < greatest { greatest } else if v > least { least } else { v },
    }
}

} // verus!
