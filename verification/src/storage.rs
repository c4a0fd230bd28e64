//! Traits providing genericity over storage strategies and index types.

use core::marker::PhantomData;
use vstd::layout::{align_of, layout_for_type_is_valid, size_of};
use vstd::prelude::*;

verus! {

/// Types that can be used for indexing into array-like data structures.
///
/// Implementors guarantee that `Capacity::from_usize(i).as_usize() == i` for
/// all values `i <= Self::spec_max()`; containers use this to pick the
/// smallest index representation that covers their maximum size.
pub trait Capacity: Sized + Copy + Eq + core::hash::Hash + Ord {
    /// The maximum `usize` value that can safely be represented by this type.
    spec fn spec_max() -> usize;

    /// The index or size this value stands for.
    spec fn index_spec(&self) -> usize;

    /// The maximum representable value, as an executable quantity.
    fn max_representable() -> (m: usize)
        ensures
            m == Self::spec_max(),
    ;

    /// Convert a `usize` into `Self`. Defined only for values that the type
    /// can represent; out-of-range inputs are ruled out up front, never
    /// silently truncated.
    fn from_usize(i: usize) -> (r: Self)
        requires
            i <= Self::spec_max(),
        ensures
            r.index_spec() == i,
    ;

    /// Convert `self` into `usize`.
    fn as_usize(&self) -> (r: usize)
        ensures
            r == self.index_spec(),
            r <= Self::spec_max(),
    ;
}

impl Capacity for u8 {
    open spec fn spec_max() -> usize {
        0xFF
    }

    open spec fn index_spec(&self) -> usize {
        *self as usize
    }

    fn max_representable() -> usize {
        0xFF
    }

    fn from_usize(i: usize) -> Self {
        i as u8
    }

    fn as_usize(&self) -> usize {
        *self as usize
    }
}

impl Capacity for u16 {
    open spec fn spec_max() -> usize {
        0xFFFF
    }

    open spec fn index_spec(&self) -> usize {
        *self as usize
    }

    fn max_representable() -> usize {
        0xFFFF
    }

    fn from_usize(i: usize) -> Self {
        i as u16
    }

    fn as_usize(&self) -> usize {
        *self as usize
    }
}

impl Capacity for u32 {
    open spec fn spec_max() -> usize {
        0xFFFF_FFFF
    }

    open spec fn index_spec(&self) -> usize {
        *self as usize
    }

    fn max_representable() -> usize {
        0xFFFF_FFFF
    }

    fn from_usize(i: usize) -> Self {
        i as u32
    }

    fn as_usize(&self) -> usize {
        *self as usize
    }
}

impl Capacity for u64 {
    open spec fn spec_max() -> usize {
        usize::MAX
    }

    open spec fn index_spec(&self) -> usize {
        *self as usize
    }

    fn max_representable() -> usize {
        usize::MAX
    }

    fn from_usize(i: usize) -> Self {
        i as u64
    }

    fn as_usize(&self) -> usize {
        *self as usize
    }
}

impl Capacity for usize {
    open spec fn spec_max() -> usize {
        usize::MAX
    }

    open spec fn index_spec(&self) -> usize {
        *self
    }

    fn max_representable() -> usize {
        usize::MAX
    }

    fn from_usize(i: usize) -> Self {
        i
    }

    fn as_usize(&self) -> usize {
        *self
    }
}

/// The size and alignment of a memory block that is to back a data
/// structure.
#[derive(Clone, Copy, PartialEq, Eq, Structural, Debug)]
pub struct Layout {
    /// The size of the block, in bytes.
    pub size: usize,
    /// The minimum alignment of the block's base address, in bytes.
    pub align: usize,
}

impl Layout {
    /// A layout is well formed when its alignment is non-zero and its size
    /// does not exceed the platform's maximum object size.
    pub open spec fn wf(self) -> bool {
        &&& self.align >= 1
        &&& self.size <= isize::MAX as usize
    }
}

/// The error returned when a layout computation would overflow the
/// platform's size type.
#[derive(Clone, Copy, PartialEq, Eq, Structural, Debug)]
pub struct LayoutError;

/// Types that specify a data structure's storage layout requirements.
pub trait LayoutSpec {
    /// The kind of item one unit of capacity stands for.
    type Item;

    /// The layout needed to hold the given number of items, or `None` when
    /// the computation overflows.
    spec fn spec_layout(items: usize) -> Option<Layout>;

    /// Constructs a [`Layout`] for a memory block capable of holding the
    /// specified number of items, or reports overflow as an error value.
    fn layout_with_capacity(items: usize) -> (r: Result<Layout, LayoutError>)
        ensures
            r matches Ok(l) ==> Self::spec_layout(items) == Some(l) && l.wf(),
            r is Err ==> Self::spec_layout(items) is None,
    ;
}

/// Inconstructible type to mark data structures that require an array-like
/// storage layout: `items` elements of type `T`, stored contiguously.
pub struct ArrayLike<T>(PhantomData<T>);

impl<T> LayoutSpec for ArrayLike<T> {
    type Item = T;

    open spec fn spec_layout(items: usize) -> Option<Layout> {
        if items * size_of::<T>() <= isize::MAX as usize {
            Some(
                Layout {
                    size: (items * size_of::<T>()) as usize,
                    align: align_of::<T>() as usize,
                },
            )
        } else {
            None
        }
    }

    fn layout_with_capacity(items: usize) -> (r: Result<Layout, LayoutError>) {
        layout_for_type_is_valid::<T>();
        let size_each: usize = core::mem::size_of::<T>();
        match items.checked_mul(size_each) {
            Some(size) if size <= (isize::MAX as usize) => Ok(
                Layout { size, align: core::mem::align_of::<T>() },
            ),
            _ => Err(LayoutError),
        }
    }
}

/// Round-trip: for every index type and every `i` it can represent,
/// converting `i` into the type and back yields `i` unchanged; this
/// function witnesses that the equality holds for every implementer.
pub fn roundtrip_preserves_index<I: Capacity>(i: usize) -> (j: usize)
    requires
        i <= I::spec_max(),
    ensures
        j == i,
{
    I::from_usize(i).as_usize()
}

/// Decides whether a storage block of the given capacity is too large to be
/// fully indexed by the index type `I`: attaching a container to such a block
/// must be refused up front, before any element access.
pub fn buffer_too_large_for_index_type<I: Capacity>(capacity: usize) -> (too_large: bool)
    ensures
        too_large == (capacity > I::spec_max()),
{
    capacity > I::max_representable()
}

/// An interface to a contiguous block of slots for use by data structures.
///
/// A block has a fixed capacity, and each of its slots either holds an item
/// or is vacant; the implementer does not manage initialization state beyond
/// that, and the consuming container tracks which slots it considers live.
///
/// Both the slot contents reported by [`read`](Storage::read) and the
/// capacity reported by [`capacity`](Storage::capacity) are functions of
/// `self` alone, so consumers may cache the capacity and index into the
/// block without re-validating: it cannot change under them except through
/// [`write`](Storage::write), which never changes the capacity.
pub trait Storage<R: LayoutSpec>: Sized {
    /// The block's slots: the mathematical model every implementer is held
    /// to.
    spec fn slots(&self) -> Seq<Option<R::Item>>;

    /// Returns the maximum number of items the block can hold.
    fn capacity(&self) -> (c: usize)
        ensures
            c == self.slots().len(),
    ;

    /// Extracts the slot at the given index.
    fn read(&self, index: usize) -> (slot: &Option<R::Item>)
        requires
            index < self.slots().len(),
        ensures
            *slot == self.slots()[index as int],
    ;

    /// Replaces the slot at the given index.
    fn write(&mut self, index: usize, value: Option<R::Item>)
        requires
            index < old(self).slots().len(),
        ensures
            final(self).slots() == old(self).slots().update(index as int, value),
    ;
}

/// Two consecutive capacity queries on any storage implementer, with no
/// mutating call between them, return identical values; this function
/// witnesses that the equality holds for every implementer and every block.
pub fn capacity_is_stable<R: LayoutSpec, S: Storage<R>>(storage: &S) -> (stable: bool)
    ensures
        stable,
{
    let first = storage.capacity();
    let second = storage.capacity();
    first == second
}

/// A storage backend over caller-supplied slots; its capacity is the number
/// of slots supplied at construction.
pub struct SliceStorage<T> {
    slots: Vec<Option<T>>,
}

impl<T> SliceStorage<T> {
    /// Wraps the given slots, vacant or not, as a storage block.
    pub fn new(slots: Vec<Option<T>>) -> (s: Self)
        ensures
            s.slots() == slots@,
    {
        SliceStorage { slots }
    }
}

impl<T> Storage<ArrayLike<T>> for SliceStorage<T> {
    closed spec fn slots(&self) -> Seq<Option<T>> {
        self.slots@
    }

    fn capacity(&self) -> usize {
        self.slots.len()
    }

    fn read(&self, index: usize) -> &Option<T> {
        &self.slots[index]
    }

    fn write(&mut self, index: usize, value: Option<T>) {
        self.slots[index] = value;
    }
}

/// A storage backend that owns a heap block sized exactly to the requested
/// capacity, freed when the backend value is dropped.
pub struct HeapStorage<T> {
    slots: Vec<Option<T>>,
}

impl<T> HeapStorage<T> {
    /// Allocates a block of the given capacity with every slot vacant.
    pub fn with_capacity(capacity: usize) -> (s: Self)
        ensures
            s.slots().len() == capacity,
            forall|i: int| 0 <= i < capacity ==> s.slots()[i] is None,
    {
        let mut slots: Vec<Option<T>> = Vec::new();
        while slots.len() < capacity
            invariant
                slots@.len() <= capacity,
                forall|i: int| 0 <= i < slots@.len() ==> slots@[i] is None,
            decreases capacity - slots@.len(),
        {
            slots.push(None);
        }
        HeapStorage { slots }
    }
}

impl<T> Storage<ArrayLike<T>> for HeapStorage<T> {
    closed spec fn slots(&self) -> Seq<Option<T>> {
        self.slots@
    }

    fn capacity(&self) -> usize {
        self.slots.len()
    }

    fn read(&self, index: usize) -> &Option<T> {
        &self.slots[index]
    }

    fn write(&mut self, index: usize, value: Option<T>) {
        self.slots[index] = value;
    }
}

/// A storage backend whose capacity is fixed at the compile-time constant
/// `C`, so that a structure built over it needs no capacity field of its
/// own.
pub struct InlineStorage<T, const C: usize> {
    slots: Vec<Option<T>>,
}

impl<T, const C: usize> InlineStorage<T, C> {
    /// Creates a block of `C` vacant slots.
    pub fn new() -> (s: Self)
        ensures
            s.slots().len() == C,
            forall|i: int| 0 <= i < C ==> s.slots()[i] is None,
    {
        let mut slots: Vec<Option<T>> = Vec::new();
        while slots.len() < C
            invariant
                slots@.len() <= C,
                forall|i: int| 0 <= i < slots@.len() ==> slots@[i] is None,
            decreases C - slots@.len(),
        {
            slots.push(None);
        }
        InlineStorage { slots }
    }
}

impl<T, const C: usize> Storage<ArrayLike<T>> for InlineStorage<T, C> {
    closed spec fn slots(&self) -> Seq<Option<T>> {
        self.slots@
    }

    fn capacity(&self) -> usize {
        self.slots.len()
    }

    fn read(&self, index: usize) -> &Option<T> {
        &self.slots[index]
    }

    fn write(&mut self, index: usize, value: Option<T>) {
        self.slots[index] = value;
    }
}

/// An owning indirection wrapping another storage implementer transparently
/// re-exposes the inner block: ownership composes, and the stability
/// contract holds through every layer.
impl<R: LayoutSpec, S: Storage<R>> Storage<R> for Box<S> {
    closed spec fn slots(&self) -> Seq<Option<R::Item>> {
        (**self).slots()
    }

    fn capacity(&self) -> usize {
        (**self).capacity()
    }

    fn read(&self, index: usize) -> &Option<R::Item> {
        (**self).read(index)
    }

    fn write(&mut self, index: usize, value: Option<R::Item>) {
        (**self).write(index, value)
    }
}

} // verus!
