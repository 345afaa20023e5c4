//! A free list allocator: a pool of equal-sized blocks drawn eagerly from a
//! backing allocator and reused last-in-first-out.

use vstd::prelude::*;

use crate::AllocErr;
use crate::Allocator;
use crate::Block;
use crate::Heap;
use crate::Layout;
use crate::PTR_ALIGN;
use crate::PTR_SIZE;
use crate::deallocs_freely;
use crate::lemma_ptr_align_pow2;
use crate::word_layout;

verus! {

/// The mathematical state of a `FreeList`: the uniform block size and the
/// stack of free block addresses, most recently freed last.
pub ghost struct FreeListModel {
    pub block_size: usize,
    pub free: Seq<usize>,
}

/// A `FreeList` allocator manages a pool of free memory blocks of uniform
/// size. Whenever a block is requested, it returns the most recently freed
/// block. `block_size` must be at least the size of a pointer, because a
/// free block has to be able to hold the link to the next one.
#[derive(Debug)]
pub struct FreeList {
    pub block_size: usize,
    pub free_list: Vec<usize>,
}

/// The state reached from `m` by handing every address in `addrs` back to
/// allocator `A` as a block of `block_size` bytes, last address first.
pub open spec fn spec_dealloc_seq<A: Allocator>(
    m: A::Model,
    addrs: Seq<usize>,
    block_size: usize,
) -> A::Model
    decreases addrs.len(),
{
    if addrs.len() == 0 {
        m
    } else {
        spec_dealloc_seq::<A>(
            A::spec_dealloc(m, Block { ptr: addrs.last(), layout: word_layout(block_size) }),
            addrs.drop_last(),
            block_size,
        )
    }
}

/// The outcome of eagerly acquiring `n` blocks of `block_size` bytes from
/// allocator `A`, in order. If every request succeeds the result carries the
/// acquired addresses in acquisition order; if one fails, every block
/// acquired before it is returned, most recent first, and the first error is
/// reported.
pub open spec fn spec_acquire<A: Allocator>(m: A::Model, block_size: usize, n: nat) -> (
    Result<Seq<usize>, AllocErr>,
    A::Model,
)
    decreases n,
{
    if n == 0 {
        (Ok(Seq::empty()), m)
    } else {
        let prev = spec_acquire::<A>(m, block_size, (n - 1) as nat);
        match prev.0 {
            Ok(addrs) => {
                let step = A::spec_alloc(prev.1, word_layout(block_size));
                match step.0 {
                    Ok(b) => (Ok(addrs.push(b.ptr)), step.1),
                    Err(e) => (Err(e), spec_dealloc_seq::<A>(step.1, addrs, block_size)),
                }
            },
            Err(e) => (Err(e), prev.1),
        }
    }
}

/// A successful eager acquisition of `n` blocks yields exactly `n` addresses.
pub proof fn lemma_acquire_len<A: Allocator>(m: A::Model, block_size: usize, n: nat)
    ensures
        spec_acquire::<A>(m, block_size, n).0 matches Ok(addrs) ==> addrs.len() == n,
    decreases n,
{
    if n > 0 {
        lemma_acquire_len::<A>(m, block_size, (n - 1) as nat);
    }
}

/// Once eager acquisition has failed, acquiring more blocks neither changes
/// the error nor the allocator state: the failure at step `k` is final.
pub proof fn lemma_acquire_err_stays<A: Allocator>(m: A::Model, block_size: usize, k: nat, n: nat)
    requires
        k <= n,
        spec_acquire::<A>(m, block_size, k).0 is Err,
    ensures
        spec_acquire::<A>(m, block_size, n) == spec_acquire::<A>(m, block_size, k),
    decreases n,
{
    if n > k {
        lemma_acquire_err_stays::<A>(m, block_size, k, (n - 1) as nat);
    }
}

/// A pool with free blocks serves any fitting request, and each success
/// shrinks the pool by exactly one block; an exhausted pool reports
/// `OutOfMemory`. Together with the exact pool size established at
/// construction, a pool of `n` blocks serves exactly `n` outstanding
/// allocations and fails on the next one.
pub proof fn lemma_freelist_capacity(m: FreeListModel, layout: Layout)
    requires
        0 < layout.size <= m.block_size,
        layout.align <= PTR_ALIGN,
    ensures
        m.free.len() > 0 ==> FreeList::spec_alloc(m, layout).0 is Ok && FreeList::spec_alloc(
            m,
            layout,
        ).1.free.len() == m.free.len() - 1,
        m.free.len() == 0 ==> FreeList::spec_alloc(m, layout).0 == Err::<Block, AllocErr>(
            AllocErr::OutOfMemory,
        ),
{
}

/// Pool reuse is last-in-first-out: handing a block back to the pool and
/// then allocating with any fitting layout yields exactly that block's
/// address and leaves the free list as it was before the pair of calls.
/// In particular, freeing one block permits exactly one more allocation
/// out of an exhausted pool.
pub proof fn lemma_freelist_lifo(m: FreeListModel, block: Block, layout: Layout)
    requires
        block.layout.size != 0,
        block.ptr != 0,
        block.ptr + m.block_size <= usize::MAX,
        0 < layout.size <= m.block_size,
        layout.align <= PTR_ALIGN,
    ensures
        FreeList::spec_alloc(FreeList::spec_dealloc(m, block), layout).0 == Ok::<Block, AllocErr>(
            Block { ptr: block.ptr, layout },
        ),
        FreeList::spec_alloc(FreeList::spec_dealloc(m, block), layout).1 == m,
{
    assert(m.free.push(block.ptr).drop_last() =~= m.free);
}

impl FreeList {
    /// Creates a new `FreeList` of `num_blocks` blocks of `block_size` bytes
    /// each, all acquired up front from the backing allocator supplied.
    /// `block_size` must be at least the size of a pointer. If one of the
    /// acquisitions fails, every block acquired so far is returned to the
    /// backing allocator before the error is reported: partial state is
    /// never observable.
    pub fn new_from<A: Allocator>(alloc: &mut A, block_size: usize, num_blocks: usize) -> (r:
        Result<FreeList, AllocErr>)
        requires
            old(alloc).wf(),
            deallocs_freely::<A>(),
        ensures
            final(alloc).wf(),
            block_size < PTR_SIZE ==> r == Err::<FreeList, AllocErr>(AllocErr::InvalidInput)
                && *final(alloc) == *old(alloc),
            block_size >= PTR_SIZE ==> final(alloc).model() == spec_acquire::<A>(
                old(alloc).model(),
                block_size,
                num_blocks as nat,
            ).1,
            block_size >= PTR_SIZE ==> (match spec_acquire::<A>(
                old(alloc).model(),
                block_size,
                num_blocks as nat,
            ).0 {
                Ok(addrs) => r matches Ok(fl) && fl.wf() && fl.block_size == block_size
                    && fl.free_list@ == addrs,
                Err(e) => r == Err::<FreeList, AllocErr>(e),
            }),
    {
        if block_size < PTR_SIZE {
            return Err(AllocErr::InvalidInput);
        }
        proof {
            lemma_ptr_align_pow2();
        }
        let mut free_list: Vec<usize> = Vec::new();
        let mut i: usize = 0;
        while i < num_blocks
            invariant
                alloc.wf(),
                deallocs_freely::<A>(),
                i <= num_blocks,
                block_size >= PTR_SIZE,
                spec_acquire::<A>(old(alloc).model(), block_size, i as nat) == (
                    Ok::<Seq<usize>, AllocErr>(free_list@),
                    alloc.model(),
                ),
                forall|j: int|
                    0 <= j < free_list@.len() ==> (#[trigger] free_list@[j]) != 0 && free_list@[j]
                        + block_size <= usize::MAX,
            decreases num_blocks - i,
        {
            proof {
                lemma_ptr_align_pow2();
            }
            match alloc.allocate(Layout { size: block_size, align: PTR_ALIGN }) {
                Ok(b) => {
                    free_list.push(b.ptr());
                    i = i + 1;
                },
                Err(e) => {
                    // Roll back: return every block acquired so far, most
                    // recently acquired first, then report the error.
                    let partial = FreeList { block_size, free_list };
                    partial.destroy(alloc);
                    proof {
                        lemma_acquire_err_stays::<A>(
                            old(alloc).model(),
                            block_size,
                            (i + 1) as nat,
                            num_blocks as nat,
                        );
                    }
                    return Err(e);
                },
            }
        }
        Ok(FreeList { block_size, free_list })
    }

    /// Creates a new `FreeList` backed by the process heap.
    pub fn new(block_size: usize, num_blocks: usize) -> (r: Result<FreeList, AllocErr>)
        ensures
            block_size < PTR_SIZE ==> r == Err::<FreeList, AllocErr>(AllocErr::InvalidInput),
            block_size >= PTR_SIZE ==> (match spec_acquire::<Heap>(
                Heap { next: crate::HEAP_BASE },
                block_size,
                num_blocks as nat,
            ).0 {
                Ok(addrs) => r matches Ok(fl) && fl.wf() && fl.block_size == block_size
                    && fl.free_list@ == addrs && addrs.len() == num_blocks,
                Err(e) => r == Err::<FreeList, AllocErr>(e),
            }),
    {
        let mut heap = Heap::new();
        proof {
            assert(deallocs_freely::<Heap>()) by {
                assert forall|a: Heap, b: Block| b.wf() implies #[trigger] a.dealloc_allowed(
                    b,
                ) by {}
            }
            lemma_acquire_len::<Heap>(Heap { next: crate::HEAP_BASE }, block_size, num_blocks as nat);
        }
        FreeList::new_from(&mut heap, block_size, num_blocks)
    }

    /// Tears the pool down, returning every block currently in the free list
    /// to the backing allocator, most recently freed first. Blocks still
    /// checked out by live callers are not reclaimed: the pool must outlive
    /// every value it issued.
    pub fn destroy<A: Allocator>(self, alloc: &mut A)
        requires
            old(alloc).wf(),
            deallocs_freely::<A>(),
            self.wf(),
        ensures
            final(alloc).wf(),
            final(alloc).model() == spec_dealloc_seq::<A>(
                old(alloc).model(),
                self.free_list@,
                self.block_size,
            ),
    {
        let FreeList { block_size, free_list: mut list } = self;
        while list.len() > 0
            invariant
                alloc.wf(),
                deallocs_freely::<A>(),
                forall|j: int| 0 <= j < list@.len() ==> (#[trigger] list@[j]) != 0,
                spec_dealloc_seq::<A>(alloc.model(), list@, block_size) == spec_dealloc_seq::<A>(
                    old(alloc).model(),
                    self.free_list@,
                    self.block_size,
                ),
            decreases list.len(),
        {
            let addr = match list.pop() {
                Some(a) => a,
                None => {
                    return ;
                },
            };
            alloc.deallocate(Block { ptr: addr, layout: Layout { size: block_size, align: PTR_ALIGN } });
        }
    }
}

impl Allocator for FreeList {
    type Model = FreeListModel;

    open spec fn model(&self) -> FreeListModel {
        FreeListModel { block_size: self.block_size, free: self.free_list@ }
    }

    open spec fn wf(&self) -> bool {
        &&& self.block_size >= PTR_SIZE
        &&& forall|i: int|
            0 <= i < self.free_list@.len() ==> (#[trigger] self.free_list@[i]) != 0
                && self.free_list@[i] + self.block_size <= usize::MAX
    }

    open spec fn spec_alloc(m: FreeListModel, layout: Layout) -> (
        Result<Block, AllocErr>,
        FreeListModel,
    ) {
        if layout.size == 0 {
            (Err(AllocErr::InvalidInput), m)
        } else if layout.size > m.block_size {
            (Err(AllocErr::InvalidInput), m)
        } else if layout.align > PTR_ALIGN {
            (Err(AllocErr::UnsupportedAlignment), m)
        } else if m.free.len() == 0 {
            (Err(AllocErr::OutOfMemory), m)
        } else {
            (
                Ok(Block { ptr: m.free.last(), layout }),
                FreeListModel { free: m.free.drop_last(), ..m },
            )
        }
    }

    open spec fn spec_realloc(m: FreeListModel, block: Block, new_layout: Layout) -> (
        Result<Block, (AllocErr, Block)>,
        FreeListModel,
    ) {
        match FreeList::spec_alloc(m, new_layout) {
            (Ok(b), m2) => (Ok(b), FreeList::spec_dealloc(m2, block)),
            (Err(e), m2) => (Err((e, block)), m2),
        }
    }

    open spec fn spec_dealloc(m: FreeListModel, block: Block) -> FreeListModel {
        if block.layout.size != 0 && block.ptr != 0 && block.ptr + m.block_size <= usize::MAX {
            FreeListModel { free: m.free.push(block.ptr), ..m }
        } else {
            m
        }
    }

    open spec fn dealloc_allowed(&self, block: Block) -> bool {
        true
    }

    /// Pops the most recently freed block, or reports why none can be had:
    /// requests of zero size or beyond the uniform block size are invalid,
    /// and alignments beyond pointer alignment are unsupported because a
    /// free block only keeps pointer alignment.
    fn allocate(&mut self, layout: Layout) -> (r: Result<Block, AllocErr>) {
        if layout.size == 0 {
            return Err(AllocErr::InvalidInput);
        }
        if layout.size > self.block_size {
            return Err(AllocErr::InvalidInput);
        }
        if layout.align > PTR_ALIGN {
            return Err(AllocErr::UnsupportedAlignment);
        }
        match self.free_list.pop() {
            Some(addr) => Ok(Block { ptr: addr, layout }),
            None => Err(AllocErr::OutOfMemory),
        }
    }

    /// Acquires a fresh block for the new layout, then returns the old block
    /// to the pool.
    fn reallocate(&mut self, block: Block, new_layout: Layout) -> (r: Result<
        Block,
        (AllocErr, Block),
    >) {
        match self.allocate(new_layout) {
            Ok(b) => {
                self.deallocate(block);
                Ok(b)
            },
            Err(e) => Err((e, block)),
        }
    }

    /// Pushes the block back as the new head of the free list. The block
    /// must have originated from this pool; a handle this pool cannot have
    /// issued is ignored.
    fn deallocate(&mut self, block: Block) {
        if block.size() != 0 && block.ptr() != 0 && block.ptr() <= usize::MAX - self.block_size {
            self.free_list.push(block.ptr());
        }
    }
}

} // verus!
