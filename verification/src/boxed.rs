//! The ownership wrapper: `AllocBox` couples one value with the block that
//! holds it, and `Place` is the two-step builder that first acquires a block
//! and then moves a value into it.

use vstd::prelude::*;
use vstd::layout::align_of;
use vstd::layout::layout_for_type_is_valid;
use vstd::layout::size_of;

use crate::AllocErr;
use crate::Allocator;
use crate::Block;
use crate::Layout;

verus! {

/// The layout of values of type `T`.
pub open spec fn layout_of<T>() -> Layout {
    Layout { size: size_of::<T>() as usize, align: align_of::<T>() as usize }
}

/// An item allocated by a custom allocator: exactly one live value of `T`
/// paired with the block that holds it. The value and the block are
/// released together, through the allocator that issued the block, by
/// `take` or `free`.
#[derive(Debug)]
pub struct AllocBox<T> {
    pub item: T,
    pub block: Block,
}

impl<T> AllocBox<T> {
    /// The address of the contained value.
    pub fn as_ptr(&self) -> (r: usize)
        ensures
            r == self.block.ptr,
    {
        self.block.ptr()
    }

    /// The layout of the block holding the contained value.
    pub fn layout(&self) -> (r: Layout)
        ensures
            r == self.block.layout,
    {
        self.block.layout()
    }

    /// Read access to the contained value.
    pub fn value(&self) -> (r: &T)
        ensures
            *r == self.item,
    {
        &self.item
    }

    /// Write access to the contained value: moves `value` in and hands the
    /// previous value out.
    pub fn replace(&mut self, value: T) -> (r: T)
        ensures
            r == old(self).item,
            final(self).item == value,
            final(self).block == old(self).block,
    {
        let mut value = value;
        core::mem::swap(&mut self.item, &mut value);
        value
    }

    /// Consumes this allocated value, yielding the value it manages. The
    /// block travels back to the allocator; ownership of the value — and
    /// with it the obligation to destruct it — transfers to the caller, so
    /// no destructor runs here.
    pub fn take<A: Allocator>(self, allocator: &mut A) -> (r: T)
        requires
            old(allocator).wf(),
            self.block.wf(),
            old(allocator).dealloc_allowed(self.block),
        ensures
            final(allocator).wf(),
            final(allocator).model() == A::spec_dealloc(old(allocator).model(), self.block),
            r == self.item,
    {
        let AllocBox { item, block } = self;
        allocator.deallocate(block);
        item
    }

    /// Destroys this allocated value: destructs the contained value and
    /// hands the block back to the allocator, exactly once each.
    pub fn free<A: Allocator>(self, allocator: &mut A)
        requires
            old(allocator).wf(),
            self.block.wf(),
            old(allocator).dealloc_allowed(self.block),
        ensures
            final(allocator).wf(),
            final(allocator).model() == A::spec_dealloc(old(allocator).model(), self.block),
    {
        let AllocBox { item: _item, block } = self;
        allocator.deallocate(block);
    }
}

/// A place for allocating into: a block already acquired for a value of
/// `T` that has not been moved in yet. Finish with `finalize`, or return
/// the block with `cancel` if the value never materializes.
#[derive(Debug)]
pub struct Place<T> {
    pub block: Block,
    pub marker: core::marker::PhantomData<T>,
}

impl<T> Place<T> {
    /// The address a finalized value will have.
    pub fn pointer(&self) -> (r: usize)
        ensures
            r == self.block.ptr,
    {
        self.block.ptr()
    }

    /// Moves `value` into the place, producing the owning `AllocBox`.
    pub fn finalize(self, value: T) -> (r: AllocBox<T>)
        ensures
            r == (AllocBox { item: value, block: self.block }),
    {
        AllocBox { item: value, block: self.block }
    }

    /// Gives the block back to the allocator without ever having held a
    /// value: the counterpart of a failed in-place construction.
    pub fn cancel<A: Allocator>(self, allocator: &mut A)
        requires
            old(allocator).wf(),
            self.block.wf(),
            old(allocator).dealloc_allowed(self.block),
        ensures
            final(allocator).wf(),
            final(allocator).model() == A::spec_dealloc(old(allocator).model(), self.block),
    {
        allocator.deallocate(self.block);
    }
}

/// Acquires an uninitialized block sized and aligned for a value of `T`
/// from the allocator, as a `Place` awaiting the value.
pub fn make_place<A: Allocator, T>(alloc: &mut A) -> (r: Result<Place<T>, AllocErr>)
    requires
        old(alloc).wf(),
    ensures
        final(alloc).wf(),
        final(alloc).model() == A::spec_alloc(old(alloc).model(), layout_of::<T>()).1,
        (match A::spec_alloc(old(alloc).model(), layout_of::<T>()).0 {
            Ok(b) => r matches Ok(p) && p.block == b,
            Err(e) => r matches Err(e2) && e2 == e,
        }),
{
    layout_for_type_is_valid::<T>();
    let layout = Layout { size: core::mem::size_of::<T>(), align: core::mem::align_of::<T>() };
    match alloc.allocate(layout) {
        Ok(b) => Ok(Place { block: b, marker: core::marker::PhantomData }),
        Err(e) => Err(e),
    }
}

} // verus!
