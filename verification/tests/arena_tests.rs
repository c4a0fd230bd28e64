use std::cell::Cell;
use std::rc::Rc;

use coca::arena::{AllocError, Arena, OutOfMemory, Region};
use coca::storage::{ArrayLike, HeapStorage, Layout, Storage};

#[test]
fn fresh_arena_is_unused() {
    let arena = Arena::with_capacity(64);
    assert_eq!(arena.capacity(), 64);
    assert_eq!(arena.used(), 0);
    assert_eq!(arena.peak(), 0);
}

#[test]
fn two_aligned_allocations_fill_the_block() {
    // A 16-byte arena holds exactly two 8-byte aligned-8 regions; a third
    // 1-byte request is refused with out-of-memory.
    let mut arena = Arena::with_capacity(16);
    let first = arena.allocate(Layout { size: 8, align: 8 }).unwrap();
    let second = arena.allocate(Layout { size: 8, align: 8 }).unwrap();
    assert_eq!(first, Region { offset: 0, len: 8 });
    assert_eq!(second, Region { offset: 8, len: 8 });
    assert_eq!(arena.used(), 16);
    assert_eq!(
        arena.allocate(Layout { size: 1, align: 1 }),
        Err(OutOfMemory)
    );
    assert_eq!(arena.used(), 16);
}

#[test]
fn alignment_padding_is_skipped() {
    let mut arena = Arena::with_capacity(64);
    let first = arena.allocate(Layout { size: 1, align: 1 }).unwrap();
    assert_eq!(first, Region { offset: 0, len: 1 });
    // The cursor sits at 1; a 4-aligned request starts at 4.
    let second = arena.allocate(Layout { size: 4, align: 4 }).unwrap();
    assert_eq!(second, Region { offset: 4, len: 4 });
    assert_eq!(arena.used(), 8);
}

#[test]
fn used_bytes_grow_monotonically() {
    let mut arena = Arena::with_capacity(32);
    let mut last_used = arena.used();
    for size in [3usize, 5, 8, 1, 100, 2] {
        let before = arena.used();
        let result = arena.allocate(Layout { size, align: 1 });
        let after = arena.used();
        assert!(after >= before);
        if result.is_err() {
            assert_eq!(after, before);
        }
        assert!(after <= arena.capacity());
        assert!(after >= last_used);
        last_used = after;
    }
}

#[test]
fn failed_allocation_leaves_arena_usable() {
    let mut arena = Arena::with_capacity(8);
    assert!(arena.allocate(Layout { size: 100, align: 1 }).is_err());
    assert_eq!(arena.used(), 0);
    // A smaller request still succeeds afterwards: no corruption, no
    // partial state.
    assert!(arena.allocate(Layout { size: 8, align: 1 }).is_ok());
}

#[test]
fn zero_capacity_arena_reports_out_of_memory() {
    let mut arena = Arena::with_capacity(0);
    assert_eq!(
        arena.allocate(Layout { size: 1, align: 1 }),
        Err(OutOfMemory)
    );
    assert_eq!(arena.used(), 0);
}

#[test]
fn whole_address_space_arena() {
    let mut arena = Arena::with_capacity(usize::MAX);
    let region = arena
        .allocate(Layout { size: usize::MAX, align: 1 })
        .unwrap();
    assert_eq!(region, Region { offset: 0, len: usize::MAX });
    assert_eq!(arena.used(), usize::MAX);
    assert!(arena.allocate(Layout { size: 1, align: 1 }).is_err());
}

#[test]
fn peak_tracks_maximum_usage() {
    let mut arena = Arena::with_capacity(64);
    arena.allocate(Layout { size: 10, align: 1 }).unwrap();
    assert_eq!(arena.peak(), 10);
    arena.reset();
    assert_eq!(arena.used(), 0);
    // The peak keeps its historical value across a reset.
    assert_eq!(arena.peak(), 10);
    arena.allocate(Layout { size: 4, align: 1 }).unwrap();
    assert_eq!(arena.used(), 4);
    assert_eq!(arena.peak(), 10);
    arena.allocate(Layout { size: 20, align: 1 }).unwrap();
    assert_eq!(arena.used(), 24);
    assert_eq!(arena.peak(), 24);
}

#[test]
fn non_lifo_release_reclaims_nothing() {
    // Allocate 10 bytes, then 20 bytes, then drop the first handle: the
    // arena still accounts 30 bytes in use, and the peak stays 30.
    let mut arena = Arena::with_capacity(64);
    let first = arena.try_alloc([0u8; 10]).unwrap();
    let _second = arena.try_alloc([0u8; 20]).unwrap();
    assert_eq!(arena.used(), 30);
    drop(first);
    assert_eq!(arena.used(), 30);
    assert_eq!(arena.peak(), 30);
}

#[test]
fn reset_rewinds_the_cursor() {
    let mut arena = Arena::with_capacity(16);
    arena.allocate(Layout { size: 16, align: 1 }).unwrap();
    assert!(arena.allocate(Layout { size: 8, align: 1 }).is_err());
    arena.reset();
    assert_eq!(arena.used(), 0);
    assert_eq!(arena.capacity(), 16);
    assert!(arena.allocate(Layout { size: 8, align: 1 }).is_ok());
}

#[test]
fn boxed_value_round_trip() {
    let mut arena = Arena::with_capacity(64);
    let mut handle = arena.try_alloc(5u64).unwrap();
    assert_eq!(*handle.get(), 5);
    assert_eq!(handle.region().len, core::mem::size_of::<u64>());
    handle.set(7);
    assert_eq!(*handle.get(), 7);
    *handle.get_mut() = 9;
    assert_eq!(handle.into_inner(), 9);
}

#[test]
fn try_alloc_returns_value_on_failure() {
    let mut arena = Arena::with_capacity(4);
    let rejected = arena.try_alloc([7u8; 16]);
    assert_eq!(rejected.err().unwrap(), [7u8; 16]);
    assert_eq!(arena.used(), 0);
}

struct NoisyDrop {
    drops: Rc<Cell<u32>>,
}

impl Drop for NoisyDrop {
    fn drop(&mut self) {
        self.drops.set(self.drops.get() + 1);
    }
}

#[test]
fn handle_runs_destructor_exactly_once() {
    let drops = Rc::new(Cell::new(0));
    let mut arena = Arena::with_capacity(64);
    let handle = arena
        .try_alloc(NoisyDrop { drops: drops.clone() })
        .ok()
        .unwrap();
    assert_eq!(drops.get(), 0);
    drop(handle);
    assert_eq!(drops.get(), 1);
}

#[test]
fn moving_the_value_out_still_drops_once() {
    let drops = Rc::new(Cell::new(0));
    let mut arena = Arena::with_capacity(64);
    let handle = arena
        .try_alloc(NoisyDrop { drops: drops.clone() })
        .ok()
        .unwrap();
    let value = handle.into_inner();
    assert_eq!(drops.get(), 0);
    drop(value);
    assert_eq!(drops.get(), 1);
}

#[test]
fn arena_storage_starts_vacant() {
    let mut arena = Arena::with_capacity(64);
    let mut storage = arena.alloc_storage::<u32>(8).unwrap();
    assert_eq!(storage.capacity(), 8);
    for i in 0..8 {
        assert!(storage.read(i).is_none());
    }
    storage.write(2, Some(11));
    assert_eq!(*storage.read(2), Some(11));
    assert_eq!(storage.region().len, 8 * core::mem::size_of::<u32>());
    assert_eq!(arena.used(), 32);
}

#[test]
fn arena_storage_out_of_memory() {
    let mut arena = Arena::with_capacity(16);
    assert_eq!(
        arena.alloc_storage::<u32>(5).err().unwrap(),
        AllocError::OutOfMemory
    );
    assert_eq!(arena.used(), 0);
    assert!(arena.alloc_storage::<u32>(4).is_ok());
}

#[test]
fn arena_storage_layout_overflow() {
    let mut arena = Arena::with_capacity(16);
    assert_eq!(
        arena.alloc_storage::<u64>(usize::MAX).err().unwrap(),
        AllocError::LayoutOverflow
    );
    assert_eq!(arena.used(), 0);
}

#[test]
fn handle_wrapping_storage_delegates() {
    // A container can be built directly inside arena-owned memory: the
    // handle re-exposes the wrapped block's capacity and slots.
    let mut arena = Arena::with_capacity(64);
    let inner: HeapStorage<u16> = HeapStorage::with_capacity(3);
    let mut handle = arena.try_alloc(inner).ok().unwrap();
    assert_eq!(Storage::<ArrayLike<u16>>::capacity(&handle), 3);
    handle.write(0, Some(1));
    handle.write(2, Some(3));
    assert_eq!(*handle.read(0), Some(1));
    assert_eq!(*handle.read(1), None);
    assert_eq!(*handle.read(2), Some(3));
}
