use ironaccelerator::args::KernelArg;
use ironaccelerator::memory::DeviceView;
use ironaccelerator::launch::{LaunchCfg, launch_2d_cfg, priority_value, Priority};
use ironaccelerator::pinned::{bucket_of, MIN_BUCKET_LOG2, NUM_BUCKETS as PINNED_BUCKETS, PinnedPool, PinnedAcquire};
use ironaccelerator::pool::{bucket_for_bytes, bucket_bytes, MIN_BUCKET_LOG2 as POOL_MIN_LOG2, MAX_BUCKET_LOG2, NUM_BUCKETS, MemPool, PoolAlloc, PoolRelease};

#[test]
fn launch_cfg_for_elements_rounds_up() {
    let c = LaunchCfg::for_elements(1024, 256);
    assert_eq!(c.grid.0, 4);
    assert_eq!(c.block.0, 256);
    let c = LaunchCfg::for_elements(1000, 256);
    assert_eq!(c.grid.0, 4);
}

#[test]
fn launch_cfg_for_elements_never_launches_zero_blocks() {
    let c = LaunchCfg::for_elements(0, 256);
    assert_eq!(c.grid, (1, 1, 1));
    assert_eq!(c.shared_bytes, 0);
}

#[test]
fn launch_2d_covers_the_domain() {
    let c = launch_2d_cfg(100, 1000, 16, 32);
    assert_eq!(c.grid, (32, 7, 1));
    assert_eq!(c.block, (32, 16, 1));
}

#[test]
fn priorities_map_into_the_device_range() {
    // The driver reports (least, greatest); lower numbers are higher priority.
    assert_eq!(priority_value(Priority::High, 0, -5), -5);
    assert_eq!(priority_value(Priority::Low, 0, -5), 0);
    assert_eq!(priority_value(Priority::Default, 0, -5), 0);
    assert_eq!(priority_value(Priority::Raw(-9), 0, -5), -5);
    assert_eq!(priority_value(Priority::Raw(-3), 0, -5), -3);
    assert_eq!(priority_value(Priority::Raw(4), 0, -5), 0);
}

#[test]
fn bucket_sizes_are_power_of_two() {
    let (_, c0) = bucket_of(1);
    let (_, c1) = bucket_of(4097);
    let (_, c2) = bucket_of(1 << 20);
    assert_eq!(c0, 1 << MIN_BUCKET_LOG2);
    assert_eq!(c1, 8192);
    assert_eq!(c2, 1 << 20);
}

#[test]
fn buckets_grow_monotonically() {
    let (i_small, _) = bucket_of(4096);
    let (i_big, _) = bucket_of(1 << 24);
    assert!(i_big > i_small);
}

#[test]
fn bucket_index_clamps_at_max() {
    let (idx, _) = bucket_of(1 << 40);
    assert_eq!(idx, PINNED_BUCKETS - 1);
}

#[test]
fn bucket_indexing_is_correct() {
    assert_eq!(bucket_for_bytes(0), None);
    assert_eq!(bucket_for_bytes(1), Some(0));
    assert_eq!(bucket_for_bytes(1024), Some(0));
    assert_eq!(bucket_for_bytes(1025), Some(1));
    assert_eq!(bucket_for_bytes(64 * 1024), Some(6));
    assert_eq!(bucket_for_bytes(1 << 28), Some((MAX_BUCKET_LOG2 - POOL_MIN_LOG2) as usize));
    assert_eq!(bucket_for_bytes((1 << 28) + 1), None);
}

#[test]
fn bucket_bytes_round_trip() {
    for idx in 0..NUM_BUCKETS {
        let bytes = bucket_bytes(idx);
        assert_eq!(bucket_for_bytes(bytes), Some(idx), "round-trip at idx {idx}");
    }
}

#[test]
fn pool_recycles_buffers() {
    let mut pool = MemPool::new(7u32);
    assert_eq!(*pool.stream(), 7);
    // 1024 f32 = 4 KiB: class 2, nothing cached yet.
    let first = pool.alloc_block(1024, 4).unwrap();
    assert!(matches!(first, PoolAlloc::Fresh { bucket: 2, alloc_len: 1024 }));
    assert!(matches!(pool.release(Some(2), 0xdead_0000, 4096), PoolRelease::Cached));
    assert_eq!(pool.cached(2), 1);
    let second = pool.alloc_block(1000, 4).unwrap();
    assert!(matches!(second, PoolAlloc::Reused { ptr: 0xdead_0000, bucket: 2, cap: 4096 }), "pool should recycle the pointer");
    assert_eq!(pool.cached(2), 0);
}

#[test]
fn fresh_block_covers_its_class_for_odd_element_sizes() {
    let mut pool = MemPool::new(());
    // 85 elements of 12 bytes = 1020 bytes: class 0 (1 KiB), 86 elements cover it.
    let a = pool.alloc_block(85, 12).unwrap();
    assert!(matches!(a, PoolAlloc::Fresh { bucket: 0, alloc_len: 86 }));
    assert!(matches!(pool.release(Some(0), 0xa000, 86 * 12), PoolRelease::Cached));
    // The reused block holds a full-class request.
    assert!(matches!(pool.alloc_block(1024, 1).unwrap(), PoolAlloc::Reused { ptr: 0xa000, bucket: 0, cap: 1032 }));
}

#[test]
fn pool_bypasses_huge_allocations() {
    let mut pool = MemPool::new(());
    assert!(matches!(pool.alloc_block(512 << 20, 1).unwrap(), PoolAlloc::Bypass));
    assert!(matches!(pool.release(None, 1, 600 << 20), PoolRelease::FreeToDriver));
}

#[test]
fn pool_alloc_reports_size_overflow() {
    let mut pool = MemPool::new(());
    assert!(pool.alloc_block(usize::MAX, 2).is_err());
}

#[test]
fn pool_caps_each_class_and_shrink_returns_everything() {
    let mut pool = MemPool::with_max_per_bucket((), 2);
    assert!(matches!(pool.release(Some(0), 10, 1024), PoolRelease::Cached));
    assert!(matches!(pool.release(Some(0), 11, 1032), PoolRelease::Cached));
    assert!(matches!(pool.release(Some(0), 12, 1024), PoolRelease::FreeToDriver));
    assert!(matches!(pool.release(Some(3), 30, 8192), PoolRelease::Cached));
    let freed = pool.shrink();
    assert_eq!(freed, vec![(10, 1024), (11, 1024), (30, 8192)]);
    assert_eq!(pool.cached(0), 0);
    assert_eq!(pool.cached(3), 0);
}

#[test]
fn pinned_pool_reuses_released_slabs() {
    let mut pool: PinnedPool<(), &'static str> = PinnedPool::new(());
    match pool.acquire(5000) {
        PinnedAcquire::Allocate { bucket, cap } => {
            assert_eq!((bucket, cap), (1, 8192));
            pool.record_new_slab(cap);
            pool.release(bucket, "slab-a", cap);
        }
        PinnedAcquire::Reuse { .. } => panic!("empty pool cannot reuse"),
    }
    assert_eq!(pool.allocated_bytes(), 8192);
    assert_eq!(pool.live_slabs(), 1);
    match pool.acquire(8000) {
        PinnedAcquire::Reuse { bucket, slab, cap } => assert_eq!((bucket, slab, cap), (1, "slab-a", 8192)),
        PinnedAcquire::Allocate { .. } => panic!("released slab should be reused"),
    }
}

#[test]
fn kernel_args_fill_their_slots() {
    let mut slot: u64 = u64::MAX;
    200u8.write_into(&mut slot);
    assert_eq!(slot, 200);
    (-1i32).write_into(&mut slot);
    assert_eq!(slot, 0xFFFF_FFFF);
    (-2i8).write_into(&mut slot);
    assert_eq!(slot, 0xFE);
    (-1i64).write_into(&mut slot);
    assert_eq!(slot, u64::MAX);
    0xDEAD_BEEF_0000u64.write_into(&mut slot);
    assert_eq!(slot, 0xDEAD_BEEF_0000);
    let view: DeviceView<u16> = DeviceView::new(0x7000, 16);
    view.write_into(&mut slot);
    assert_eq!(slot, 0x7000);
}
