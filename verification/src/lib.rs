//! Verified host-side logic of the IronAccelerator driver substrate: buffer
//! pools, launch geometry, staging plans, kernel-cache keys, recipes and
//! planners. Driver calls themselves are made by the embedding application;
//! this crate decides what to call and proves those decisions correct.

pub mod text;
pub mod error;
pub mod types;
pub mod pool;
pub mod pinned;
pub mod launch;
pub mod copy;
pub mod memory;
pub mod args;
pub mod kernel;
pub mod kernel_cache;
pub mod backend;
pub mod attention;
pub mod blas;
pub mod fp8;
pub mod fp8_gemm;
pub mod moe;
pub mod observe;
pub mod profile;
pub mod fpga;
pub mod dx12;
pub mod compat;
pub mod streams;
pub mod handles;
pub mod cupti;
