//! The process heap, exposed as one pre-instantiated allocator capability.
//!
//! The heap is modelled as a bump cursor over the whole address space above
//! `HEAP_BASE`: every allocation yields a fresh, disjoint, aligned address
//! range, and `deallocate` needs no bookkeeping. It fails only when a
//! request no longer fits in the address space.

use vstd::prelude::*;
use vstd::arithmetic::power2::is_pow2;

use crate::AllocErr;
use crate::Allocator;
use crate::Block;
use crate::BlockOwner;
use crate::Layout;
use crate::lemma_align_up;
use crate::lemma_pow2_positive;
use crate::spec_align_up;

verus! {

/// The lowest address the modelled heap ever hands out. Keeping it above
/// zero preserves the rule that issued blocks are non-null.
pub const HEAP_BASE: usize = 4096;

/// The process heap. `deallocate` is a no-op: the model never reuses
/// addresses, so every issued block stays valid for the heap's lifetime.
#[derive(Debug, PartialEq, Eq, Structural)]
pub struct Heap {
    /// The lowest address not yet handed out.
    pub next: usize,
}

impl Heap {
    pub fn new() -> (r: Heap)
        ensures
            r == (Heap { next: HEAP_BASE }),
            r.wf(),
    {
        Heap { next: HEAP_BASE }
    }
}

impl Default for Heap {
    fn default() -> (r: Heap)
        ensures
            r == (Heap { next: HEAP_BASE }),
            r.wf(),
    {
        Heap::new()
    }
}

impl Allocator for Heap {
    type Model = Heap;

    open spec fn model(&self) -> Heap {
        *self
    }

    open spec fn wf(&self) -> bool {
        HEAP_BASE <= self.next
    }

    open spec fn spec_alloc(m: Heap, layout: Layout) -> (Result<Block, AllocErr>, Heap) {
        let aligned = spec_align_up(m.next as int, layout.align as int);
        if aligned + layout.size <= usize::MAX {
            (
                Ok(Block { ptr: aligned as usize, layout }),
                Heap { next: (aligned + layout.size) as usize },
            )
        } else {
            (Err(AllocErr::OutOfMemory), m)
        }
    }

    open spec fn spec_realloc(m: Heap, block: Block, new_layout: Layout) -> (
        Result<Block, (AllocErr, Block)>,
        Heap,
    ) {
        match Heap::spec_alloc(m, new_layout) {
            (Ok(b), h) => (Ok(b), h),
            (Err(e), h) => (Err((e, block)), h),
        }
    }

    open spec fn spec_dealloc(m: Heap, block: Block) -> Heap {
        m
    }

    open spec fn dealloc_allowed(&self, block: Block) -> bool {
        true
    }

    fn allocate(&mut self, layout: Layout) -> (r: Result<Block, AllocErr>) {
        proof {
            lemma_pow2_positive(layout.align as int);
            lemma_align_up(self.next as int, layout.align as int);
        }
        let rem = self.next % layout.align;
        let aligned = if rem == 0 {
            self.next
        } else {
            match self.next.checked_add(layout.align - rem) {
                Some(a) => a,
                None => {
                    return Err(AllocErr::OutOfMemory);
                },
            }
        };
        match aligned.checked_add(layout.size) {
            Some(new_next) => {
                self.next = new_next;
                Ok(Block { ptr: aligned, layout })
            },
            None => Err(AllocErr::OutOfMemory),
        }
    }

    fn reallocate(&mut self, block: Block, new_layout: Layout) -> (r: Result<
        Block,
        (AllocErr, Block),
    >) {
        match self.allocate(new_layout) {
            Ok(b) => Ok(b),
            Err(e) => Err((e, block)),
        }
    }

    fn deallocate(&mut self, block: Block) {
    }
}

impl BlockOwner for Heap {
    open spec fn spec_owns(m: Heap, ptr: usize, layout: Layout) -> bool {
        HEAP_BASE <= ptr && ptr < m.next && ptr + layout.size <= m.next
    }

    fn owns_block(&self, ptr: usize, layout: Layout) -> (r: bool) {
        HEAP_BASE <= ptr && ptr < self.next && layout.size <= self.next - ptr
    }
}

} // verus!
