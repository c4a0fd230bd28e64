use coca::storage::{
    buffer_too_large_for_index_type, capacity_is_stable, roundtrip_preserves_index, ArrayLike,
    Capacity, HeapStorage, InlineStorage, Layout, LayoutError, LayoutSpec, SliceStorage, Storage,
};

#[test]
fn roundtrip_u8_full_range() {
    assert_eq!(u8::from_usize(0).as_usize(), 0);
    assert_eq!(u8::from_usize(1).as_usize(), 1);
    assert_eq!(u8::from_usize(200).as_usize(), 200);
    assert_eq!(u8::from_usize(255).as_usize(), 255);
}

#[test]
fn roundtrip_u16_full_range() {
    assert_eq!(u16::from_usize(0).as_usize(), 0);
    assert_eq!(u16::from_usize(256).as_usize(), 256);
    assert_eq!(u16::from_usize(65535).as_usize(), 65535);
}

#[test]
fn roundtrip_u32_full_range() {
    assert_eq!(u32::from_usize(0).as_usize(), 0);
    assert_eq!(u32::from_usize(70000).as_usize(), 70000);
    assert_eq!(u32::from_usize(0xFFFF_FFFF).as_usize(), 0xFFFF_FFFF);
}

#[test]
fn roundtrip_u64_and_usize() {
    assert_eq!(u64::from_usize(0).as_usize(), 0);
    assert_eq!(u64::from_usize(usize::MAX).as_usize(), usize::MAX);
    assert_eq!(usize::from_usize(42).as_usize(), 42);
    assert_eq!(usize::from_usize(usize::MAX).as_usize(), usize::MAX);
}

#[test]
fn roundtrip_generic_witness() {
    assert_eq!(roundtrip_preserves_index::<u8>(255), 255);
    assert_eq!(roundtrip_preserves_index::<u16>(10_000), 10_000);
    assert_eq!(roundtrip_preserves_index::<u32>(1 << 20), 1 << 20);
    assert_eq!(roundtrip_preserves_index::<u64>(usize::MAX), usize::MAX);
    assert_eq!(roundtrip_preserves_index::<usize>(7), 7);
}

#[test]
fn max_representable_values() {
    assert_eq!(u8::max_representable(), 255);
    assert_eq!(u16::max_representable(), 65535);
    assert_eq!(u32::max_representable(), 0xFFFF_FFFF);
    assert_eq!(u64::max_representable(), usize::MAX);
    assert_eq!(usize::max_representable(), usize::MAX);
}

#[test]
fn narrow_index_type_refuses_large_buffer() {
    // A block reporting capacity 300 cannot be fully indexed by u8, so
    // attaching a container with a u8 index must be refused up front.
    assert!(buffer_too_large_for_index_type::<u8>(300));
    assert!(!buffer_too_large_for_index_type::<u8>(255));
    assert!(!buffer_too_large_for_index_type::<u8>(0));
    assert!(buffer_too_large_for_index_type::<u16>(65536));
    assert!(!buffer_too_large_for_index_type::<u16>(65535));
    assert!(!buffer_too_large_for_index_type::<usize>(usize::MAX));
}

#[test]
fn layout_of_small_array() {
    let layout = <ArrayLike<u64> as LayoutSpec>::layout_with_capacity(4).unwrap();
    assert_eq!(layout.size, 32);
    assert_eq!(layout.align, core::mem::align_of::<u64>());
}

#[test]
fn layout_of_zero_items() {
    let layout = <ArrayLike<u64> as LayoutSpec>::layout_with_capacity(0).unwrap();
    assert_eq!(layout.size, 0);
}

#[test]
fn layout_of_zero_sized_items() {
    let layout = <ArrayLike<()> as LayoutSpec>::layout_with_capacity(usize::MAX).unwrap();
    assert_eq!(layout.size, 0);
    assert_eq!(layout.align, 1);
}

#[test]
fn layout_overflow_reports_error() {
    // 100-byte elements in a count whose total size exceeds the platform's
    // maximum object size: the computation reports overflow, it does not
    // wrap around, and no allocation is attempted.
    let too_many = usize::MAX / 50;
    assert_eq!(
        <ArrayLike<[u8; 100]> as LayoutSpec>::layout_with_capacity(too_many),
        Err(LayoutError)
    );
    // Counts whose raw product overflows the size type entirely.
    assert_eq!(
        <ArrayLike<u64> as LayoutSpec>::layout_with_capacity(usize::MAX),
        Err(LayoutError)
    );
}

#[test]
fn slice_storage_reports_given_capacity() {
    let backing: Vec<Option<u32>> = vec![None, None, None];
    let storage = SliceStorage::new(backing);
    assert_eq!(storage.capacity(), 3);
}

#[test]
fn slice_storage_read_write() {
    let backing: Vec<Option<u32>> = vec![None, Some(7), None];
    let mut storage = SliceStorage::new(backing);
    assert_eq!(*storage.read(0), None);
    assert_eq!(*storage.read(1), Some(7));
    storage.write(0, Some(42));
    storage.write(1, None);
    assert_eq!(*storage.read(0), Some(42));
    assert_eq!(*storage.read(1), None);
    assert_eq!(*storage.read(2), None);
}

#[test]
fn heap_storage_starts_vacant() {
    let storage: HeapStorage<u64> = HeapStorage::with_capacity(5);
    assert_eq!(storage.capacity(), 5);
    for i in 0..5 {
        assert!(storage.read(i).is_none());
    }
}

#[test]
fn inline_storage_has_constant_capacity() {
    let mut storage: InlineStorage<u8, 4> = InlineStorage::new();
    assert_eq!(storage.capacity(), 4);
    storage.write(3, Some(9));
    assert_eq!(*storage.read(3), Some(9));
    assert_eq!(*storage.read(0), None);
}

#[test]
fn boxed_storage_delegates() {
    let inner = SliceStorage::new(vec![None, None]);
    let mut boxed: Box<SliceStorage<i16>> = Box::new(inner);
    assert_eq!(boxed.capacity(), 2);
    boxed.write(1, Some(-5));
    assert_eq!(*boxed.read(1), Some(-5));
}

#[test]
fn capacity_queries_are_stable() {
    let storage = SliceStorage::new(vec![None::<u8>, None]);
    assert!(capacity_is_stable(&storage));
    let heap: HeapStorage<u32> = HeapStorage::with_capacity(9);
    assert!(capacity_is_stable(&heap));
    // Two consecutive queries with no mutation in between agree.
    let first = heap.capacity();
    let second = heap.capacity();
    assert_eq!(first, second);
    assert_eq!(heap.read(4), heap.read(4));
}

#[test]
fn layout_well_formed_values() {
    let layout = Layout { size: 16, align: 8 };
    assert_eq!(layout.size, 16);
    assert_eq!(layout.align, 8);
}
