//! Composable memory allocators, modelled over an abstract address space.
//!
//! Every allocator manages `Block` handles: address ranges described by a
//! `Layout` (size and power-of-two alignment). The allocation engines
//! (`Scoped`, `FreeList`), the composite policies (`Fallback`, `Proxy`,
//! `NullAllocator`) and the ownership wrapper (`AllocBox`) are verified
//! against the deterministic state machines given by their `spec_alloc`,
//! `spec_realloc` and `spec_dealloc` functions.

use vstd::prelude::*;
use vstd::arithmetic::power2::is_pow2;

mod boxed;
pub mod composable;
pub mod freelist;
pub mod heap;
pub mod scoped;

pub use boxed::AllocBox;
pub use boxed::Place;
pub use boxed::layout_of;
pub use boxed::make_place;
pub use composable::CountingLogger;
pub use composable::Fallback;
pub use composable::NullAllocator;
pub use composable::Proxy;
pub use composable::ProxyLogger;
pub use composable::spec_count_inc;
pub use freelist::FreeList;
pub use freelist::FreeListModel;
pub use freelist::spec_acquire;
pub use freelist::spec_dealloc_seq;
pub use heap::HEAP_BASE;
pub use heap::Heap;
pub use scoped::Scoped;

verus! {

/// Size, in bytes, of a pointer in the modelled address space.
pub const PTR_SIZE: usize = 8;

/// Alignment of a pointer in the modelled address space.
pub const PTR_ALIGN: usize = 8;

/// Errors reported by allocator operations. All of them are recoverable:
/// a caller may retry with a smaller request, another alignment or another
/// allocator.
#[derive(Clone, Copy, Debug, PartialEq, Eq, Structural)]
pub enum AllocErr {
    /// The allocator cannot satisfy the request with the memory it has left.
    OutOfMemory,
    /// The request itself is malformed (zero size, oversized request,
    /// allocation attempted on a locked scope).
    InvalidInput,
    /// The requested alignment exceeds what the allocator supports.
    UnsupportedAlignment,
    /// An allocator-specific failure, such as a composite that cannot
    /// resolve which sub-allocator owns a block.
    AllocatorSpecific,
}

/// The (size, alignment) pair describing a requested or held region.
/// A layout is well formed when its alignment is a power of two.
#[derive(Clone, Copy, Debug, PartialEq, Eq, Structural)]
pub struct Layout {
    pub size: usize,
    pub align: usize,
}

impl Layout {
    /// A layout is valid only with a power-of-two alignment.
    pub open spec fn wf(&self) -> bool {
        is_pow2(self.align as int)
    }

    /// Builds a layout, rejecting alignments that are not powers of two.
    pub fn from_size_align(size: usize, align: usize) -> (r: Option<Layout>)
        ensures
            r is Some <==> is_pow2(align as int),
            r matches Some(l) ==> l == (Layout { size, align }) && l.wf(),
    {
        if is_power_of_two(align) {
            Some(Layout { size, align })
        } else {
            None
        }
    }

    pub fn size(&self) -> (r: usize)
        ensures
            r == self.size,
    {
        self.size
    }

    pub fn align(&self) -> (r: usize)
        ensures
            r == self.align,
    {
        self.align
    }
}

/// Decides whether `n` is a power of two.
pub fn is_power_of_two(n: usize) -> (r: bool)
    ensures
        r == is_pow2(n as int),
{
    if n == 0 {
        proof {
            reveal(vstd::arithmetic::power2::is_pow2);
        }
        return false;
    }
    let mut m: usize = n;
    while m > 1 && m % 2 == 0
        invariant
            1 <= m <= n,
            is_pow2(n as int) == is_pow2(m as int),
        decreases m,
    {
        proof {
            reveal(vstd::arithmetic::power2::is_pow2);
        }
        m = m / 2;
    }
    proof {
        reveal(vstd::arithmetic::power2::is_pow2);
    }
    m == 1
}

/// The allocator capability. Every engine and composite policy implements
/// it. Each implementation is a deterministic state machine over its
/// mathematical state `Model`: `spec_alloc`, `spec_realloc` and
/// `spec_dealloc` give, for the current state, the exact outcome and
/// successor state of the corresponding executable operation.
pub trait Allocator: Sized {
    /// The mathematical state of this allocator.
    type Model;

    /// The abstraction of the current state.
    spec fn model(&self) -> Self::Model;

    /// Well-formedness of the allocator's state; established by the
    /// constructors and preserved by every operation.
    spec fn wf(&self) -> bool;

    /// Outcome and successor state of `allocate`.
    spec fn spec_alloc(m: Self::Model, layout: Layout) -> (Result<Block, AllocErr>, Self::Model);

    /// Outcome and successor state of `reallocate`. On failure the original
    /// block travels back to the caller inside the error.
    spec fn spec_realloc(m: Self::Model, block: Block, new_layout: Layout) -> (
        Result<Block, (AllocErr, Block)>,
        Self::Model,
    );

    /// Successor state of `deallocate`.
    spec fn spec_dealloc(m: Self::Model, block: Block) -> Self::Model;

    /// Whether handing `block` back to this allocator is a legitimate caller
    /// action at all. Deallocating through an allocator that never issues
    /// blocks is a fatal contract violation, not a recoverable error, so it
    /// is excluded here rather than reported.
    spec fn dealloc_allowed(&self, block: Block) -> bool;

    /// Acquire a block for `layout`, or report why none can be had.
    fn allocate(&mut self, layout: Layout) -> (r: Result<Block, AllocErr>)
        requires
            old(self).wf(),
            layout.wf(),
        ensures
            final(self).wf(),
            r == Self::spec_alloc(old(self).model(), layout).0,
            final(self).model() == Self::spec_alloc(old(self).model(), layout).1,
            r matches Ok(b) ==> b.valid_region() && b.layout == layout,
    ;

    /// Resize `block` to `new_layout`, possibly moving it. On failure the
    /// untouched original block is returned alongside the error.
    fn reallocate(&mut self, block: Block, new_layout: Layout) -> (r: Result<
        Block,
        (AllocErr, Block),
    >)
        requires
            old(self).wf(),
            block.wf(),
            new_layout.wf(),
        ensures
            final(self).wf(),
            r == Self::spec_realloc(old(self).model(), block, new_layout).0,
            final(self).model() == Self::spec_realloc(old(self).model(), block, new_layout).1,
            r matches Ok(b) ==> b.valid_region() && b.layout == new_layout,
            r matches Err(e) ==> e.1 == block,
    ;

    /// Return `block` to this allocator. Each live block authorizes exactly
    /// one such call; that discipline is the caller's responsibility.
    fn deallocate(&mut self, block: Block)
        requires
            old(self).wf(),
            block.wf(),
            old(self).dealloc_allowed(block),
        ensures
            final(self).wf(),
            final(self).model() == Self::spec_dealloc(old(self).model(), block),
    ;
}

/// An allocator that knows which blocks have been issued by it. Composites
/// use this predicate to route `reallocate` and `deallocate` requests to
/// the right sub-allocator.
pub trait BlockOwner: Allocator {
    /// Whether, in state `m`, this allocator owns the address range
    /// `[ptr, ptr + size)`. The answer is consistent across calls for a
    /// live block.
    spec fn spec_owns(m: Self::Model, ptr: usize, layout: Layout) -> bool;

    /// Whether this allocator owns the block described by the arguments.
    fn owns_block(&self, ptr: usize, layout: Layout) -> (r: bool)
        requires
            self.wf(),
        ensures
            r == Self::spec_owns(self.model(), ptr, layout),
    ;

    /// Whether this allocator owns this allocated value.
    fn owns<T>(&self, val: &AllocBox<T>) -> (r: bool)
        requires
            self.wf(),
        ensures
            r == Self::spec_owns(self.model(), val.block.ptr, val.block.layout),
    {
        self.owns_block(val.as_ptr(), val.layout())
    }
}

/// Joins an allocator with a fallback allocator.
pub fn with_fallback<M: BlockOwner, O: BlockOwner>(main: M, other: O) -> (r: Fallback<M, O>)
    ensures
        r == (Fallback { main, fallback: other }),
{
    Fallback::new(main, other)
}

/// Allocates storage for `val` from the allocator and moves the value in,
/// yielding the owning `AllocBox`. On failure the value travels back to the
/// caller beside the error.
pub fn allocate<T, A: Allocator>(allocator: &mut A, val: T) -> (r: Result<
    AllocBox<T>,
    (AllocErr, T),
>)
    requires
        old(allocator).wf(),
    ensures
        final(allocator).wf(),
        final(allocator).model() == A::spec_alloc(old(allocator).model(), layout_of::<T>()).1,
        (match A::spec_alloc(old(allocator).model(), layout_of::<T>()).0 {
            Ok(b) => r matches Ok(bx) && bx == (AllocBox { item: val, block: b }),
            Err(e) => r matches Err(ev) && ev == (e, val),
        }),
{
    match make_place::<A, T>(allocator) {
        Ok(place) => Ok(place.finalize(val)),
        Err(e) => Err((e, val)),
    }
}

/// Whether every state of allocator `A` accepts every well-formed block in
/// `deallocate`. This is what lets a client that tears down a whole
/// collection of blocks (such as a pool's constructor cleaning up after a
/// partial failure) call `deallocate` without tracking the allocator's
/// intermediate states.
pub open spec fn deallocs_freely<A: Allocator>() -> bool {
    forall|a: A, b: Block| b.wf() ==> #[trigger] a.dealloc_allowed(b)
}

/// A block of memory created by an allocator: a handle on the address range
/// `[ptr, ptr + layout.size)`. A live block authorizes exactly one matching
/// `deallocate`; blocks are moved, never copied.
#[derive(Debug, PartialEq, Eq, Structural)]
pub struct Block {
    pub ptr: usize,
    pub layout: Layout,
}

impl Block {
    /// A non-empty block always carries a non-null address.
    pub open spec fn wf(&self) -> bool {
        self.layout.size > 0 ==> self.ptr != 0
    }

    /// A block whose address range lies inside the address space.
    pub open spec fn valid_region(&self) -> bool {
        self.ptr != 0 && self.ptr + self.layout.size <= usize::MAX
    }

    /// The empty block: the sentinel for "no memory acquired".
    pub open spec fn spec_empty() -> Block {
        Block { ptr: 0, layout: Layout { size: 0, align: 1 } }
    }

    /// Create a new block from the supplied parts. The address cannot be null.
    pub fn new(ptr: usize, layout: Layout) -> (r: Block)
        requires
            ptr != 0,
        ensures
            r == (Block { ptr, layout }),
            r.wf(),
    {
        Block { ptr, layout }
    }

    /// Creates an empty block.
    pub fn empty() -> (r: Block)
        ensures
            r == Block::spec_empty(),
            r.wf(),
    {
        Block { ptr: 0, layout: Layout { size: 0, align: 1 } }
    }

    /// Get the address of this block.
    pub fn ptr(&self) -> (r: usize)
        ensures
            r == self.ptr,
    {
        self.ptr
    }

    /// Get the size of this block.
    pub fn size(&self) -> (r: usize)
        ensures
            r == self.layout.size,
    {
        self.layout.size
    }

    pub fn layout(&self) -> (r: Layout)
        ensures
            r == self.layout,
    {
        self.layout
    }

    /// Get the alignment of this block.
    pub fn align(&self) -> (r: usize)
        ensures
            r == self.layout.align,
    {
        self.layout.align
    }

    /// Whether this block is empty.
    pub fn is_empty(&self) -> (r: bool)
        ensures
            r == (self.layout.size == 0),
    {
        self.layout.size == 0
    }
}

/// Constructors for the errors that allocators report.
pub struct Error {}

impl Error {
    pub fn unsupported_alignment() -> (r: AllocErr)
        ensures
            r == AllocErr::UnsupportedAlignment,
    {
        AllocErr::UnsupportedAlignment
    }

    pub fn out_of_memory(_request: Layout) -> (r: AllocErr)
        ensures
            r == AllocErr::OutOfMemory,
    {
        AllocErr::OutOfMemory
    }
}

/// The smallest multiple of `align` that is at least `addr`.
pub open spec fn spec_align_up(addr: int, align: int) -> int
    recommends
        0 < align,
{
    if addr % align == 0 {
        addr
    } else {
        addr + align - addr % align
    }
}

/// Rounding an address up to an alignment stays within one alignment unit
/// and lands on a multiple of the alignment.
pub proof fn lemma_align_up(addr: int, align: int)
    requires
        0 <= addr,
        0 < align,
    ensures
        addr <= spec_align_up(addr, align) < addr + align,
        spec_align_up(addr, align) % align == 0,
{
    let r = addr % align;
    vstd::arithmetic::div_mod::lemma_mod_bound(addr, align);
    if r != 0 {
        assert((addr + (align - r)) % align == 0) by (nonlinear_arith)
            requires
                0 < align,
                r == addr % align,
                r != 0,
        ;
    }
}

/// The layout of a buffer of `size` bytes with native pointer alignment.
pub open spec fn word_layout(size: usize) -> Layout {
    Layout { size, align: PTR_ALIGN }
}

/// The native pointer alignment is a power of two.
pub proof fn lemma_ptr_align_pow2()
    ensures
        is_pow2(PTR_ALIGN as int),
        word_layout(0).wf(),
        forall|size: usize| (#[trigger] word_layout(size)).wf(),
{
    reveal_with_fuel(vstd::arithmetic::power2::is_pow2, 5);
}

/// A power of two is positive.
pub proof fn lemma_pow2_positive(n: int)
    requires
        is_pow2(n),
    ensures
        0 < n,
{
    reveal(vstd::arithmetic::power2::is_pow2);
}

/// Aligns an address forward to the next address aligned with `align`.
pub fn align_forward(ptr: usize, align: usize) -> (r: usize)
    requires
        is_pow2(align as int),
        spec_align_up(ptr as int, align as int) <= usize::MAX,
    ensures
        r == spec_align_up(ptr as int, align as int),
{
    proof {
        lemma_pow2_positive(align as int);
        lemma_align_up(ptr as int, align as int);
    }
    let rem = ptr % align;
    if rem == 0 {
        ptr
    } else {
        ptr + (align - rem)
    }
}

} // verus!
