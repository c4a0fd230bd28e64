//! A bump allocator that carves uniquely owned sub-regions out of one fixed
//! block of memory.
//!
//! An [`Arena`] owns exactly one block for its entire lifetime, established
//! once at construction and never resized. Allocation only ever advances a
//! cursor past the newly carved region — there is no free-list bookkeeping —
//! so it completes in constant time and never causes a latency spike. The
//! price is that releasing a handle does not return its space: the bytes
//! stay committed until the whole arena is [`reset`](Arena::reset). The
//! arena also tracks the current and historical peak number of committed
//! bytes for diagnostics.

use vstd::arithmetic::div_mod::{
    lemma_fundamental_div_mod, lemma_mod_bound, lemma_mod_multiples_basic, lemma_mod_self_0,
    lemma_small_mod,
};
use vstd::layout::{align_of, layout_for_type_is_valid, size_of};
use vstd::prelude::*;

use crate::storage::{ArrayLike, Layout, LayoutSpec, Storage};

verus! {

/// The smallest multiple of `align` that is at least `offset`.
pub open spec fn align_up(offset: int, align: int) -> int
    recommends
        0 <= offset,
        1 <= align,
{
    offset + ((align - offset % align) % align)
}

/// Rounding up to an alignment never moves an offset backwards, lands on a
/// multiple of the alignment, and skips less than one full alignment unit.
pub proof fn lemma_align_up(offset: int, align: int)
    requires
        0 <= offset,
        1 <= align,
    ensures
        offset <= align_up(offset, align) < offset + align,
        align_up(offset, align) % align == 0,
{
    lemma_mod_bound(offset, align);
    let rem = offset % align;
    if rem == 0 {
        lemma_mod_self_0(align);
        assert(align_up(offset, align) == offset);
    } else {
        lemma_small_mod((align - rem) as nat, align as nat);
        assert(align_up(offset, align) == offset + (align - rem));
        lemma_fundamental_div_mod(offset, align);
        assert(align_up(offset, align) == (offset / align + 1) * align) by (nonlinear_arith)
            requires
                offset == align * (offset / align) + rem,
                align_up(offset, align) == offset + (align - rem),
        ;
        lemma_mod_multiples_basic(offset / align + 1, align);
    }
}

/// An offset of zero is aligned for every alignment: the first allocation
/// from a fresh block never needs padding.
pub proof fn lemma_align_up_zero(align: int)
    requires
        1 <= align,
    ensures
        align_up(0, align) == 0,
{
    lemma_align_up(0, align);
    lemma_small_mod(align_up(0, align) as nat, align as nat);
}

/// Every layout in the sequence has a non-zero alignment.
pub open spec fn layouts_wf(requests: Seq<Layout>) -> bool {
    forall|i: int| 0 <= i < requests.len() ==> (#[trigger] requests[i]).align >= 1
}

/// The cursor reached after a run of bump allocations with the given
/// layouts, each padded to its alignment, starting from `cursor`.
pub open spec fn bump_run_end(cursor: int, requests: Seq<Layout>) -> int
    decreases requests.len(),
{
    if requests.len() == 0 {
        cursor
    } else {
        bump_run_end(
            align_up(cursor, requests[0].align as int) + requests[0].size,
            requests.drop_first(),
        )
    }
}

/// Extending a run by one request rounds the run's end up to the new
/// request's alignment and advances it by the new request's size — the same
/// step [`Arena::allocate`] performs.
pub proof fn lemma_bump_run_snoc(cursor: int, requests: Seq<Layout>, next: Layout)
    ensures
        bump_run_end(cursor, requests.push(next)) == align_up(
            bump_run_end(cursor, requests),
            next.align as int,
        ) + next.size,
    decreases requests.len(),
{
    if requests.len() == 0 {
        assert(requests.push(next)[0] == next);
        assert(requests.push(next).drop_first() =~= Seq::<Layout>::empty());
        assert(bump_run_end(align_up(cursor, next.align as int) + next.size, Seq::empty())
            == align_up(cursor, next.align as int) + next.size);
    } else {
        assert(requests.push(next)[0] == requests[0]);
        assert(requests.push(next).drop_first() =~= requests.drop_first().push(next));
        lemma_bump_run_snoc(
            align_up(cursor, requests[0].align as int) + requests[0].size,
            requests.drop_first(),
            next,
        );
    }
}

/// A run of bump allocations never moves the cursor backwards.
pub proof fn lemma_bump_run_monotone(cursor: int, requests: Seq<Layout>)
    requires
        0 <= cursor,
        layouts_wf(requests),
    ensures
        cursor <= bump_run_end(cursor, requests),
    decreases requests.len(),
{
    if requests.len() > 0 {
        lemma_align_up(cursor, requests[0].align as int);
        assert(layouts_wf(requests.drop_first())) by {
            assert(forall|i: int|
                0 <= i < requests.drop_first().len() ==> requests.drop_first()[i]
                    == requests[i + 1]);
        }
        lemma_bump_run_monotone(
            align_up(cursor, requests[0].align as int) + requests[0].size,
            requests.drop_first(),
        );
    }
}

/// The cursor reached by a prefix of a run never exceeds the cursor reached
/// by the whole run.
pub proof fn lemma_bump_run_prefix(cursor: int, requests: Seq<Layout>, i: int)
    requires
        0 <= cursor,
        layouts_wf(requests),
        0 <= i <= requests.len(),
    ensures
        bump_run_end(cursor, requests.take(i)) <= bump_run_end(cursor, requests),
    decreases requests.len() - i,
{
    if i == requests.len() {
        assert(requests.take(i) =~= requests);
    } else {
        assert(layouts_wf(requests.take(i))) by {
            assert(forall|j: int|
                0 <= j < requests.take(i).len() ==> requests.take(i)[j] == requests[j]);
        }
        lemma_bump_run_monotone(cursor, requests.take(i));
        assert(requests.take(i + 1) =~= requests.take(i).push(requests[i]));
        lemma_bump_run_snoc(cursor, requests.take(i), requests[i]);
        lemma_align_up(bump_run_end(cursor, requests.take(i)), requests[i].align as int);
        lemma_bump_run_prefix(cursor, requests, i + 1);
    }
}

/// Bump correctness: starting from a fresh arena over a block of `total`
/// bytes, a run of allocation requests succeeds in its entirety — every
/// step's padded request fits, in the sense of [`fits`] — exactly when the
/// padded sum of the requested sizes is at most `total`.
pub proof fn lemma_bump_run_succeeds_iff(requests: Seq<Layout>, total: int)
    requires
        layouts_wf(requests),
        0 <= total,
    ensures
        (forall|i: int|
            0 <= i < requests.len() ==> bump_run_end(0, #[trigger] requests.take(i + 1))
                <= total) <==> bump_run_end(0, requests) <= total,
{
    if bump_run_end(0, requests) <= total {
        assert forall|i: int|
            0 <= i < requests.len() implies bump_run_end(0, #[trigger] requests.take(i + 1))
            <= total by {
            lemma_bump_run_prefix(0, requests, i + 1);
        }
    }
    if requests.len() == 0 {
        assert(bump_run_end(0, requests) == 0);
    } else if forall|i: int|
        0 <= i < requests.len() ==> bump_run_end(0, #[trigger] requests.take(i + 1)) <= total {
        assert(bump_run_end(0, requests.take(requests.len() - 1 + 1)) <= total);
        assert(requests.take(requests.len() as int) =~= requests);
    }
}

/// One step of an arena's history, as the usage profile sees it.
pub enum ArenaOp {
    /// An allocation request with the given layout, whether or not it
    /// succeeds.
    Allocate(Layout),
    /// A rewind of the cursor to the start of the block.
    Reset,
}

/// Every allocation request in the history has a non-zero alignment.
pub open spec fn ops_wf(ops: Seq<ArenaOp>) -> bool {
    forall|i: int|
        0 <= i < ops.len() ==> ((#[trigger] ops[i]) matches ArenaOp::Allocate(layout)
            ==> layout.align >= 1)
}

/// The bytes in use after one step of history: a request that fits commits
/// its padded region, a request that does not fit changes nothing, and a
/// reset rewinds to zero.
pub open spec fn used_step(used: int, op: ArenaOp, total: int) -> int {
    match op {
        ArenaOp::Allocate(layout) => if fits(used, layout, total) {
            align_up(used, layout.align as int) + layout.size
        } else {
            used
        },
        ArenaOp::Reset => 0,
    }
}

/// The bytes in use after a run of history steps on a block of `total`
/// bytes, starting from `used`.
pub open spec fn run_used(used: int, ops: Seq<ArenaOp>, total: int) -> int
    decreases ops.len(),
{
    if ops.len() == 0 {
        used
    } else {
        run_used(used_step(used, ops[0], total), ops.drop_first(), total)
    }
}

/// The peak counter after a run of history steps on a block of `total`
/// bytes, starting from `used` bytes in use and a recorded peak of `peak`:
/// each step raises the recorded peak to the new instantaneous usage
/// whenever that is larger.
pub open spec fn run_peak(used: int, peak: int, ops: Seq<ArenaOp>, total: int) -> int
    decreases ops.len(),
{
    if ops.len() == 0 {
        peak
    } else {
        let next_used = used_step(used, ops[0], total);
        let next_peak = if next_used > peak {
            next_used
        } else {
            peak
        };
        run_peak(next_used, next_peak, ops.drop_first(), total)
    }
}

/// Arena monotonicity: over any history of allocation requests with no
/// reset, whether each request succeeds or is refused, the bytes-in-use
/// counter never decreases and never exceeds the block's size.
pub proof fn lemma_run_used_monotone(used0: int, ops: Seq<ArenaOp>, total: int)
    requires
        0 <= used0 <= total,
        ops_wf(ops),
        forall|i: int| 0 <= i < ops.len() ==> !((#[trigger] ops[i]) matches ArenaOp::Reset),
    ensures
        used0 <= run_used(used0, ops, total),
        run_used(used0, ops, total) <= total,
    decreases ops.len(),
{
    if ops.len() > 0 {
        let next_used = used_step(used0, ops[0], total);
        match ops[0] {
            ArenaOp::Allocate(layout) => {
                if fits(used0, layout, total) {
                    lemma_align_up(used0, layout.align as int);
                }
            },
            ArenaOp::Reset => {},
        }
        assert(used0 <= next_used <= total);
        let rest = ops.drop_first();
        assert(forall|i: int| 0 <= i < rest.len() ==> rest[i] == ops[i + 1]);
        lemma_run_used_monotone(next_used, rest, total);
    }
}

/// Peak tracking: over any history of allocations and resets, the peak
/// counter equals the maximum of the instantaneous bytes-in-use over that
/// history — it dominates the usage after every prefix, it never decreases
/// on its own, and it is attained either by the starting peak or by the
/// usage after some prefix.
pub proof fn lemma_run_peak_is_max(used0: int, peak0: int, ops: Seq<ArenaOp>, total: int)
    requires
        0 <= used0 <= peak0,
        ops_wf(ops),
    ensures
        peak0 <= run_peak(used0, peak0, ops, total),
        forall|i: int|
            0 <= i <= ops.len() ==> #[trigger] run_used(used0, ops.take(i), total) <= run_peak(
                used0,
                peak0,
                ops,
                total,
            ),
        run_peak(used0, peak0, ops, total) == peak0 || exists|i: int|
            0 <= i <= ops.len() && #[trigger] run_used(used0, ops.take(i), total) == run_peak(
                used0,
                peak0,
                ops,
                total,
            ),
    decreases ops.len(),
{
    if ops.len() == 0 {
        assert(run_used(used0, ops.take(0), total) == used0);
    } else {
        let next_used = used_step(used0, ops[0], total);
        let next_peak = if next_used > peak0 {
            next_used
        } else {
            peak0
        };
        let rest = ops.drop_first();
        match ops[0] {
            ArenaOp::Allocate(layout) => {
                if fits(used0, layout, total) {
                    lemma_align_up(used0, layout.align as int);
                }
            },
            ArenaOp::Reset => {},
        }
        assert(0 <= next_used <= next_peak);
        assert(ops_wf(rest)) by {
            assert(forall|i: int| 0 <= i < rest.len() ==> rest[i] == ops[i + 1]);
        }
        lemma_run_peak_is_max(next_used, next_peak, rest, total);
        let result = run_peak(used0, peak0, ops, total);
        assert(result == run_peak(next_used, next_peak, rest, total));
        assert forall|i: int| 1 <= i <= ops.len() implies run_used(used0, ops.take(i), total)
            == run_used(next_used, rest.take(i - 1), total) by {
            assert(ops.take(i)[0] == ops[0]);
            assert(ops.take(i).drop_first() =~= rest.take(i - 1));
        }
        assert forall|i: int| 0 <= i <= ops.len() implies #[trigger] run_used(
            used0,
            ops.take(i),
            total,
        ) <= result by {
            if i == 0 {
                assert(run_used(used0, ops.take(0), total) == used0);
            } else {
                assert(run_used(next_used, rest.take(i - 1), total) <= result);
            }
        }
        if result == next_peak {
            if next_peak == peak0 {
            } else {
                assert(run_used(next_used, rest.take(0), total) == next_used);
                assert(run_used(used0, ops.take(1), total) == result);
            }
        } else {
            let j = choose|j: int|
                0 <= j <= rest.len() && #[trigger] run_used(next_used, rest.take(j), total)
                    == result;
            assert(run_used(used0, ops.take(j + 1), total) == result);
        }
    }
}

/// A contiguous sub-region of an arena's block: the receipt a successful
/// allocation hands back.
#[derive(Clone, Copy, PartialEq, Eq, Structural, Debug)]
pub struct Region {
    /// The offset of the region's first byte from the block's base.
    pub offset: usize,
    /// The length of the region, in bytes.
    pub len: usize,
}

impl Region {
    /// The offset one past the region's last byte.
    pub open spec fn end(self) -> int {
        self.offset + self.len
    }

    /// Two regions are disjoint when neither reaches into the other.
    pub open spec fn disjoint(self, other: Region) -> bool {
        self.end() <= other.offset || other.end() <= self.offset
    }
}

/// The error reported when an allocation request does not fit the remaining
/// space of the arena's block.
#[derive(Clone, Copy, PartialEq, Eq, Structural, Debug)]
pub struct OutOfMemory;

/// The error reported when carving a storage block out of an arena fails:
/// either the layout computation for the requested capacity overflows, or
/// the computed block does not fit the arena's remaining space.
#[derive(Clone, Copy, PartialEq, Eq, Structural, Debug)]
pub enum AllocError {
    /// The size of the requested block is not representable.
    LayoutOverflow,
    /// The requested block does not fit the remaining space.
    OutOfMemory,
}

/// The layout of a single value of type `T`.
pub open spec fn value_layout<T>() -> Layout {
    Layout { size: size_of::<T>() as usize, align: align_of::<T>() as usize }
}

/// Whether a request with the given layout fits a block of `total` bytes
/// when the next free offset is `cursor`.
pub open spec fn fits(cursor: int, layout: Layout, total: int) -> bool {
    align_up(cursor, layout.align as int) + layout.size <= total
}

/// A bump allocator over one fixed block of `total` bytes.
pub struct Arena {
    total: usize,
    cursor: usize,
    peak: usize,
    issued: Ghost<Seq<Region>>,
}

impl Arena {
    /// The arena's internal invariant: the cursor and the peak counter stay
    /// within the block, and the issued regions lie in issue order within
    /// the committed part of the block. Constructors establish it and every
    /// operation preserves it.
    pub closed spec fn wf(&self) -> bool {
        &&& self.cursor <= self.total
        &&& self.cursor <= self.peak
        &&& self.peak <= self.total
        &&& forall|i: int|
            0 <= i < self.issued@.len() ==> (#[trigger] self.issued@[i]).end() <= self.cursor
        &&& forall|i: int, j: int|
            0 <= i < j < self.issued@.len() ==> self.issued@[i].end() <= self.issued@[j].offset
    }

    /// The size of the arena's block, in bytes.
    pub closed spec fn spec_capacity(&self) -> usize {
        self.total
    }

    /// The bytes committed so far: the next free offset of the block.
    pub closed spec fn spec_used(&self) -> usize {
        self.cursor
    }

    /// The largest value `spec_used` has taken over the arena's history.
    pub closed spec fn spec_peak(&self) -> usize {
        self.peak
    }

    /// The regions issued since construction or the last reset, oldest
    /// first.
    pub closed spec fn regions(&self) -> Seq<Region> {
        self.issued@
    }

    /// The bytes in use never exceed the block's size, and the peak is
    /// always between the current usage and the block's size.
    pub proof fn lemma_usage_bounds(&self)
        requires
            self.wf(),
        ensures
            self.spec_used() <= self.spec_peak() <= self.spec_capacity(),
    {
    }

    /// Every issued region lies within the committed part of the block, and
    /// no two issued regions overlap.
    pub proof fn lemma_regions_disjoint(&self)
        requires
            self.wf(),
        ensures
            forall|i: int|
                0 <= i < self.regions().len() ==> (#[trigger] self.regions()[i]).end()
                    <= self.spec_used(),
            forall|i: int, j: int|
                0 <= i < self.regions().len() && 0 <= j < self.regions().len() && i != j
                    ==> self.regions()[i].disjoint(self.regions()[j]),
    {
    }

    /// Creates an arena over a fresh block of `total` bytes. A zero-sized
    /// block is legal; such an arena reports out-of-memory on the first
    /// non-trivial allocation.
    pub fn with_capacity(total: usize) -> (arena: Arena)
        ensures
            arena.wf(),
            arena.spec_capacity() == total,
            arena.spec_used() == 0,
            arena.spec_peak() == 0,
            arena.regions() == Seq::<Region>::empty(),
    {
        Arena { total, cursor: 0, peak: 0, issued: Ghost(Seq::empty()) }
    }

    /// Returns the size of the arena's block, in bytes.
    pub fn capacity(&self) -> (c: usize)
        ensures
            c == self.spec_capacity(),
    {
        self.total
    }

    /// Returns the number of bytes committed so far.
    pub fn used(&self) -> (u: usize)
        ensures
            u == self.spec_used(),
    {
        self.cursor
    }

    /// Returns the historical peak of the bytes-in-use counter.
    pub fn peak(&self) -> (p: usize)
        ensures
            p == self.spec_peak(),
    {
        self.peak
    }

    /// Carves a region with the requested layout out of the block.
    ///
    /// Succeeds exactly when the request fits the remaining space once the
    /// cursor is padded to the requested alignment; on success the cursor
    /// advances past the new region, which is disjoint from every region
    /// issued before. Failure is a reported condition, not a panic, and
    /// leaves the arena unchanged and usable for smaller requests.
    pub fn allocate(&mut self, layout: Layout) -> (r: Result<Region, OutOfMemory>)
        requires
            old(self).wf(),
            layout.align >= 1,
        ensures
            final(self).wf(),
            final(self).spec_capacity() == old(self).spec_capacity(),
            old(self).spec_used() <= final(self).spec_used(),
            old(self).spec_peak() <= final(self).spec_peak(),
            r is Ok <==> fits(
                old(self).spec_used() as int,
                layout,
                old(self).spec_capacity() as int,
            ),
            r matches Ok(region) ==> region.offset == align_up(
                old(self).spec_used() as int,
                layout.align as int,
            ) && region.len == layout.size,
            r matches Ok(region) ==> region.offset as int % layout.align as int == 0,
            r matches Ok(region) ==> final(self).spec_used() == region.end()
                && final(self).spec_used() <= final(self).spec_capacity(),
            r matches Ok(region) ==> final(self).regions() == old(self).regions().push(region),
            r matches Ok(region) ==> forall|i: int|
                0 <= i < old(self).regions().len() ==> (#[trigger] old(
                    self,
                ).regions()[i]).disjoint(region),
            r is Ok ==> final(self).spec_peak() == if final(self).spec_used() > old(
                self,
            ).spec_peak() {
                final(self).spec_used()
            } else {
                old(self).spec_peak()
            },
            r is Err ==> *final(self) == *old(self),
            final(self).spec_used() as int == used_step(
                old(self).spec_used() as int,
                ArenaOp::Allocate(layout),
                old(self).spec_capacity() as int,
            ),
    {
        proof {
            lemma_align_up(self.cursor as int, layout.align as int);
        }
        let rem = self.cursor % layout.align;
        let pad = if rem == 0 {
            0
        } else {
            layout.align - rem
        };
        proof {
            lemma_mod_bound(self.cursor as int, layout.align as int);
            if rem == 0 {
                lemma_mod_self_0(layout.align as int);
            } else {
                lemma_small_mod((layout.align - rem) as nat, layout.align as nat);
            }
            assert(align_up(self.cursor as int, layout.align as int) == self.cursor + pad);
        }
        if pad > self.total - self.cursor {
            return Err(OutOfMemory);
        }
        let aligned = self.cursor + pad;
        if layout.size > self.total - aligned {
            return Err(OutOfMemory);
        }
        let new_cursor = aligned + layout.size;
        let region = Region { offset: aligned, len: layout.size };
        if new_cursor > self.peak {
            self.peak = new_cursor;
        }
        self.cursor = new_cursor;
        proof {
            self.issued@ = self.issued@.push(region);
        }
        Ok(region)
    }

    /// Rewinds the cursor to the start of the block, making its whole
    /// capacity available again. The bytes-in-use counter drops to zero;
    /// the peak counter keeps its historical value. An arena may only be
    /// reset while no handle carved from it is still alive, which is
    /// enforced by the exclusive borrow this operation takes.
    pub fn reset(&mut self)
        requires
            old(self).wf(),
        ensures
            final(self).wf(),
            final(self).spec_capacity() == old(self).spec_capacity(),
            final(self).spec_used() == 0,
            final(self).spec_peak() == old(self).spec_peak(),
            final(self).regions() == Seq::<Region>::empty(),
    {
        proof {
            self.issued@ = Seq::empty();
        }
        self.cursor = 0;
    }

    /// Moves `value` into a region carved out of the block and returns the
    /// uniquely owning handle for it, or hands the value back unchanged
    /// when the region does not fit the remaining space.
    pub fn try_alloc<T>(&mut self, value: T) -> (r: Result<ArenaBox<T>, T>)
        requires
            old(self).wf(),
        ensures
            final(self).wf(),
            final(self).spec_capacity() == old(self).spec_capacity(),
            old(self).spec_used() <= final(self).spec_used(),
            old(self).spec_peak() <= final(self).spec_peak(),
            r is Ok <==> fits(
                old(self).spec_used() as int,
                value_layout::<T>(),
                old(self).spec_capacity() as int,
            ),
            r matches Ok(handle) ==> handle@ == value && handle.spec_region().len == size_of::<
                T,
            >() && final(self).regions() == old(self).regions().push(handle.spec_region())
                && final(self).spec_used() == handle.spec_region().end(),
            r matches Ok(handle) ==> align_of::<T>() >= 1 && handle.spec_region().offset as int
                % align_of::<T>() as int == 0,
            r matches Err(returned) ==> returned == value && *final(self) == *old(self),
    {
        layout_for_type_is_valid::<T>();
        let layout = Layout { size: core::mem::size_of::<T>(), align: core::mem::align_of::<T>() };
        match self.allocate(layout) {
            Ok(region) => Ok(ArenaBox { value, region }),
            Err(_) => Err(value),
        }
    }

    /// Carves a storage block for `capacity` items of type `T` out of the
    /// arena, with every slot vacant. Reports layout overflow when the
    /// block's size is not representable, and out-of-memory when it does
    /// not fit the remaining space; either failure leaves the arena
    /// unchanged.
    pub fn alloc_storage<T>(&mut self, capacity: usize) -> (r: Result<
        ArenaStorage<T>,
        AllocError,
    >)
        requires
            old(self).wf(),
        ensures
            final(self).wf(),
            final(self).spec_capacity() == old(self).spec_capacity(),
            old(self).spec_used() <= final(self).spec_used(),
            old(self).spec_peak() <= final(self).spec_peak(),
            r == Err::<ArenaStorage<T>, AllocError>(AllocError::LayoutOverflow) <==> ArrayLike::<
                T,
            >::spec_layout(capacity) is None,
            ArrayLike::<T>::spec_layout(capacity) matches Some(layout) ==> (r is Ok <==> fits(
                old(self).spec_used() as int,
                layout,
                old(self).spec_capacity() as int,
            )),
            r matches Ok(storage) ==> storage.slots().len() == capacity && (forall|i: int|
                0 <= i < capacity ==> storage.slots()[i] is None) && final(self).regions() == old(
                self,
            ).regions().push(storage.spec_region()) && final(self).spec_used()
                == storage.spec_region().end(),
            ArrayLike::<T>::spec_layout(capacity) matches Some(layout) ==> (r matches Ok(storage)
                ==> storage.spec_region().len == layout.size
                    && storage.spec_region().offset as int % layout.align as int == 0),
            r is Err ==> *final(self) == *old(self),
    {
        let layout = match <ArrayLike<T> as LayoutSpec>::layout_with_capacity(capacity) {
            Ok(layout) => layout,
            Err(_) => {
                return Err(AllocError::LayoutOverflow);
            },
        };
        match self.allocate(layout) {
            Ok(region) => {
                let mut slots: Vec<Option<T>> = Vec::new();
                while slots.len() < capacity
                    invariant
                        slots@.len() <= capacity,
                        forall|i: int| 0 <= i < slots@.len() ==> slots@[i] is None,
                    decreases capacity - slots@.len(),
                {
                    slots.push(None);
                }
                Ok(ArenaStorage { slots, region })
            },
            Err(_) => Err(AllocError::OutOfMemory),
        }
    }
}

/// A uniquely owning handle to a value stored in a region carved out of an
/// arena's block.
///
/// The handle owns its payload outright: letting the handle go out of scope
/// runs the payload's destructor exactly once, through Rust's ordinary
/// ownership discipline, however the owner releases it. Releasing a handle
/// does not return its region to the arena; the space stays committed until
/// the arena is reset.
pub struct ArenaBox<T> {
    value: T,
    region: Region,
}

impl<T> View for ArenaBox<T> {
    type V = T;

    closed spec fn view(&self) -> T {
        self.value
    }
}

impl<T> ArenaBox<T> {
    /// The region of the arena's block this handle owns.
    pub closed spec fn spec_region(&self) -> Region {
        self.region
    }

    /// Returns the region of the arena's block this handle owns.
    pub fn region(&self) -> (r: Region)
        ensures
            r == self.spec_region(),
    {
        self.region
    }

    /// Borrows the owned value.
    pub fn get(&self) -> (v: &T)
        ensures
            *v == self@,
    {
        &self.value
    }

    /// Borrows the owned value for mutation.
    pub fn get_mut(&mut self) -> (v: &mut T)
        ensures
            *v == old(self)@,
            final(self)@ == *final(v),
            final(self).spec_region() == old(self).spec_region(),
    {
        &mut self.value
    }

    /// Replaces the owned value.
    pub fn set(&mut self, value: T)
        ensures
            final(self)@ == value,
            final(self).spec_region() == old(self).spec_region(),
    {
        self.value = value;
    }

    /// Consumes the handle and moves the owned value out. The handle's
    /// region stays committed in the arena.
    pub fn into_inner(self) -> (v: T)
        ensures
            v == self@,
    {
        self.value
    }
}

/// An arena handle wrapping another storage implementer transparently
/// re-exposes the inner block, so a container can be built directly inside
/// arena-owned memory.
impl<R: LayoutSpec, S: Storage<R>> Storage<R> for ArenaBox<S> {
    closed spec fn slots(&self) -> Seq<Option<R::Item>> {
        self.value.slots()
    }

    fn capacity(&self) -> usize {
        self.value.capacity()
    }

    fn read(&self, index: usize) -> &Option<R::Item> {
        self.value.read(index)
    }

    fn write(&mut self, index: usize, value: Option<R::Item>) {
        self.value.write(index, value)
    }
}

/// A storage block carved out of an arena: `capacity` slots for items of
/// type `T`, each either holding an item or vacant.
pub struct ArenaStorage<T> {
    slots: Vec<Option<T>>,
    region: Region,
}

impl<T> ArenaStorage<T> {
    /// The region of the arena's block backing this storage.
    pub closed spec fn spec_region(&self) -> Region {
        self.region
    }

    /// Returns the region of the arena's block backing this storage.
    pub fn region(&self) -> (r: Region)
        ensures
            r == self.spec_region(),
    {
        self.region
    }
}

impl<T> Storage<ArrayLike<T>> for ArenaStorage<T> {
    closed spec fn slots(&self) -> Seq<Option<T>> {
        self.slots@
    }

    fn capacity(&self) -> usize {
        self.slots.len()
    }

    fn read(&self, index: usize) -> &Option<T> {
        &self.slots[index]
    }

    fn write(&mut self, index: usize, value: Option<T>) {
        self.slots[index] = value;
    }
}

} // verus!
