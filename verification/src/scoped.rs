//! A scoped linear allocator: a cross between a stack allocator and a
//! traditional linear (bump) allocator, with nested, mutually exclusive
//! sub-scopes and bulk reclamation at scope exit.

use vstd::prelude::*;

use crate::AllocErr;
use crate::Allocator;
use crate::Block;
use crate::BlockOwner;
use crate::HEAP_BASE;
use crate::Heap;
use crate::Layout;
use crate::lemma_align_up;
use crate::lemma_pow2_positive;
use crate::lemma_ptr_align_pow2;
use crate::spec_align_up;
use crate::word_layout;

verus! {

/// A scoped linear allocator over the buffer `[start, end)`.
///
/// The root instance owns the buffer (held in `buffer`); a child scope is a
/// non-owning view that starts at the parent's bump position and shares the
/// parent's upper bound. While a child scope is active the parent is locked:
/// every allocation attempted on it fails with `InvalidInput`.
#[derive(Debug, PartialEq, Eq, Structural)]
pub struct Scoped {
    /// The backing block, held only by the root instance.
    pub buffer: Block,
    /// Lower bound of the region this scope may use.
    pub start: usize,
    /// The bump position: the next address handed out (after alignment).
    pub current: usize,
    /// Upper bound (exclusive for allocation) of the buffer.
    pub end: usize,
    /// Whether a child scope is currently active.
    pub locked: bool,
    /// Whether this instance owns the buffer and must release it on teardown.
    pub root: bool,
}

/// While a scope is locked by an active child scope, every allocation
/// attempted on it fails with `InvalidInput` and leaves it unchanged,
/// deterministically.
pub proof fn lemma_locked_scope_rejects(m: Scoped, layout: Layout)
    requires
        m.locked,
    ensures
        Scoped::spec_alloc(m, layout).0 == Err::<Block, AllocErr>(AllocErr::InvalidInput),
        Scoped::spec_alloc(m, layout).1 == m,
{
}

/// Every block a scope hands out lies inside the scope's buffer: a
/// successful allocation is owned by the allocator that produced it, both
/// before and after the allocation.
pub proof fn lemma_scoped_alloc_owned(m: Scoped, layout: Layout)
    requires
        m.wf(),
        layout.wf(),
    ensures
        Scoped::spec_alloc(m, layout).0 matches Ok(b) ==> Scoped::spec_owns(m, b.ptr, b.layout)
            && Scoped::spec_owns(Scoped::spec_alloc(m, layout).1, b.ptr, b.layout),
{
    lemma_pow2_positive(layout.align as int);
    lemma_align_up(m.current as int, layout.align as int);
}

impl Scoped {
    /// Internal consistency of a scope: the bump position stays inside the
    /// buffer, addresses are non-null, and a root's `buffer` block describes
    /// exactly `[start, end)`.
    pub open spec fn wf(&self) -> bool {
        &&& 0 < self.start <= self.current <= self.end
        &&& (self.root ==> self.buffer.ptr == self.start && self.buffer.layout.size == self.end
            - self.start)
    }

    /// The child scope produced by entering a new scope: a non-owning view
    /// beginning at the current bump position and sharing the upper bound.
    pub open spec fn spec_child(&self) -> Scoped {
        Scoped {
            buffer: Block::spec_empty(),
            start: self.current,
            current: self.current,
            end: self.end,
            locked: false,
            root: false,
        }
    }

    /// Creates a new root `Scoped` backed by `size` bytes from the allocator
    /// supplied. The buffer is requested with native pointer alignment.
    pub fn new_from<A: Allocator>(alloc: &mut A, size: usize) -> (r: Result<Scoped, AllocErr>)
        requires
            old(alloc).wf(),
        ensures
            final(alloc).wf(),
            final(alloc).model() == A::spec_alloc(old(alloc).model(), word_layout(size)).1,
            (match A::spec_alloc(old(alloc).model(), word_layout(size)).0 {
                Ok(b) => r matches Ok(s) && s == (Scoped {
                    buffer: b,
                    start: b.ptr,
                    current: b.ptr,
                    end: (b.ptr + size) as usize,
                    locked: false,
                    root: true,
                }) && s.wf(),
                Err(e) => r == Err::<Scoped, AllocErr>(e),
            }),
    {
        proof {
            lemma_ptr_align_pow2();
        }
        match alloc.allocate(Layout { size, align: crate::PTR_ALIGN }) {
            Ok(b) => {
                let ptr = b.ptr();
                Ok(
                    Scoped {
                        buffer: b,
                        start: ptr,
                        current: ptr,
                        end: ptr + size,
                        locked: false,
                        root: true,
                    },
                )
            },
            Err(e) => Err(e),
        }
    }

    /// Creates a new root `Scoped` backed by `size` bytes from the process
    /// heap.
    pub fn new(size: usize) -> (r: Result<Scoped, AllocErr>)
        ensures
            r is Ok <==> HEAP_BASE + size <= usize::MAX,
            r matches Ok(s) ==> s == (Scoped {
                buffer: Block { ptr: HEAP_BASE, layout: word_layout(size) },
                start: HEAP_BASE,
                current: HEAP_BASE,
                end: (HEAP_BASE + size) as usize,
                locked: false,
                root: true,
            }) && s.wf(),
            r is Err ==> r == Err::<Scoped, AllocErr>(AllocErr::OutOfMemory),
    {
        let mut heap = Heap::new();
        Scoped::new_from(&mut heap, size)
    }

    /// Runs `f` with a fresh child scope of this allocator, locking this
    /// scope for the duration of the call. The closure receives the child by
    /// value and hands it back with its result; every allocation made inside
    /// the child is reclaimed in bulk when `scope` returns, and this scope's
    /// state is exactly what it was before the call.
    ///
    /// Returns the closure's result, or an error if this allocator is
    /// already scoped (in that case `f` is not invoked).
    pub fn scope<F: FnOnce(Scoped) -> (U, Scoped), U>(&mut self, f: F) -> (r: Result<U, ()>)
        requires
            old(self).wf(),
            !old(self).locked ==> call_requires(f, (old(self).spec_child(),)),
        ensures
            final(self).wf(),
            *final(self) == *old(self),
            r is Err <==> old(self).locked,
            !old(self).locked ==> exists|u: U, s2: Scoped|
                r == Ok::<U, ()>(u) && call_ensures(f, (old(self).spec_child(),), ((u, s2))),
    {
        match self.begin_scope() {
            Err(()) => Err(()),
            Ok(child) => {
                let (u, child_after) = f(child);
                proof {
                    assert(call_ensures(f, (old(self).spec_child(),), (u, child_after)));
                }
                self.end_scope(child_after);
                Ok(u)
            },
        }
    }

    /// Enters a child scope by hand: locks this scope and returns the child.
    /// The child must be handed back to `end_scope` when it is done; every
    /// allocation made in it is reclaimed at that point.
    pub fn begin_scope(&mut self) -> (r: Result<Scoped, ()>)
        requires
            old(self).wf(),
        ensures
            final(self).wf(),
            old(self).locked ==> r is Err && *final(self) == *old(self),
            !old(self).locked ==> (r matches Ok(c) && c == old(self).spec_child() && c.wf()
                && *final(self) == (Scoped { locked: true, ..*old(self) })),
    {
        if self.locked {
            return Err(());
        }
        let child = Scoped {
            buffer: Block::empty(),
            start: self.current,
            current: self.current,
            end: self.end,
            locked: false,
            root: false,
        };
        self.locked = true;
        Ok(child)
    }

    /// Leaves the child scope entered by `begin_scope`: unlocks this scope
    /// and discards the child, implicitly reclaiming everything allocated in
    /// it. The child never owns the buffer, so dropping it frees nothing.
    pub fn end_scope(&mut self, _child: Scoped)
        requires
            old(self).wf(),
            old(self).locked,
        ensures
            final(self).wf(),
            *final(self) == (Scoped { locked: false, ..*old(self) }),
    {
        self.locked = false;
    }

    /// Whether this allocator is currently scoped (locked by an active
    /// child scope).
    pub fn is_scoped(&self) -> (r: bool)
        ensures
            r == self.locked,
    {
        self.locked
    }

    /// Tears this scope down. Only a root returns its buffer to the parent
    /// allocator; a child shares its buffer with an ancestor and must never
    /// free it.
    pub fn destroy<A: Allocator>(self, alloc: &mut A)
        requires
            old(alloc).wf(),
            self.wf(),
            self.root && self.end > self.start ==> old(alloc).dealloc_allowed(self.buffer),
        ensures
            final(alloc).wf(),
            self.root && self.end > self.start ==> final(alloc).model() == A::spec_dealloc(
                old(alloc).model(),
                self.buffer,
            ),
            !(self.root && self.end > self.start) ==> *final(alloc) == *old(alloc),
    {
        if self.root && self.end > self.start {
            alloc.deallocate(self.buffer);
        }
    }
}

impl Allocator for Scoped {
    type Model = Scoped;

    open spec fn model(&self) -> Scoped {
        *self
    }

    open spec fn wf(&self) -> bool {
        Scoped::wf(self)
    }

    open spec fn spec_alloc(m: Scoped, layout: Layout) -> (Result<Block, AllocErr>, Scoped) {
        if m.locked {
            (Err(AllocErr::InvalidInput), m)
        } else if layout.size == 0 {
            (Err(AllocErr::InvalidInput), m)
        } else {
            let aligned = spec_align_up(m.current as int, layout.align as int);
            if aligned + layout.size > m.end {
                (Err(AllocErr::OutOfMemory), m)
            } else {
                (
                    Ok(Block { ptr: aligned as usize, layout }),
                    Scoped { current: (aligned + layout.size) as usize, ..m },
                )
            }
        }
    }

    open spec fn spec_realloc(m: Scoped, block: Block, new_layout: Layout) -> (
        Result<Block, (AllocErr, Block)>,
        Scoped,
    ) {
        if new_layout.size == 0 {
            (Err((AllocErr::InvalidInput, block)), m)
        } else if block.layout.align == 0 {
            (Err((AllocErr::UnsupportedAlignment, block)), m)
        } else if !m.locked && block.ptr >= m.start && block.ptr + block.layout.size
            == m.current && new_layout.align <= block.layout.align {
            if block.ptr + new_layout.size <= m.end {
                (
                    Ok(Block { ptr: block.ptr, layout: new_layout }),
                    Scoped { current: (block.ptr + new_layout.size) as usize, ..m },
                )
            } else {
                (Err((AllocErr::OutOfMemory, block)), m)
            }
        } else {
            match Scoped::spec_alloc(m, new_layout) {
                (Ok(b), s) => (Ok(b), s),
                (Err(e), s) => (Err((e, block)), s),
            }
        }
    }

    open spec fn spec_dealloc(m: Scoped, block: Block) -> Scoped {
        if block.layout.size != 0 && block.ptr != 0 && !m.locked && block.ptr >= m.start
            && block.ptr + block.layout.size == m.current {
            Scoped { current: block.ptr, ..m }
        } else {
            m
        }
    }

    open spec fn dealloc_allowed(&self, block: Block) -> bool {
        true
    }

    fn allocate(&mut self, layout: Layout) -> (r: Result<Block, AllocErr>) {
        if self.locked {
            return Err(AllocErr::InvalidInput);
        }
        if layout.size == 0 {
            return Err(AllocErr::InvalidInput);
        }
        proof {
            lemma_pow2_positive(layout.align as int);
            lemma_align_up(self.current as int, layout.align as int);
        }
        let rem = self.current % layout.align;
        let aligned = if rem == 0 {
            self.current
        } else {
            match self.current.checked_add(layout.align - rem) {
                Some(a) => a,
                None => {
                    return Err(AllocErr::OutOfMemory);
                },
            }
        };
        match aligned.checked_add(layout.size) {
            Some(candidate_end) => {
                if candidate_end > self.end {
                    Err(AllocErr::OutOfMemory)
                } else {
                    self.current = candidate_end;
                    Ok(Block { ptr: aligned, layout })
                }
            },
            None => Err(AllocErr::OutOfMemory),
        }
    }

    /// Reallocating any block but the most recent one allocates a fresh
    /// block at the bump position: the old slot becomes fragmentation until
    /// the enclosing scope ends.
    fn reallocate(&mut self, block: Block, new_layout: Layout) -> (r: Result<
        Block,
        (AllocErr, Block),
    >) {
        if new_layout.size == 0 {
            return Err((AllocErr::InvalidInput, block));
        }
        if block.align() == 0 {
            return Err((AllocErr::UnsupportedAlignment, block));
        }
        let last_allocated = !self.locked && block.ptr() >= self.start && match block
            .ptr()
            .checked_add(block.size()) {
            Some(block_end) => block_end == self.current,
            None => false,
        };
        if last_allocated && new_layout.align <= block.align() {
            // Resize the most recent allocation in place.
            match block.ptr().checked_add(new_layout.size) {
                Some(candidate_end) => {
                    if candidate_end <= self.end {
                        self.current = candidate_end;
                        Ok(Block { ptr: block.ptr, layout: new_layout })
                    } else {
                        Err((AllocErr::OutOfMemory, block))
                    }
                },
                None => Err((AllocErr::OutOfMemory, block)),
            }
        } else {
            match self.allocate(new_layout) {
                Ok(b) => Ok(b),
                Err(e) => Err((e, block)),
            }
        }
    }

    /// A no-op unless the block is exactly the most recent allocation, in
    /// which case the bump position rolls back over it. The guaranteed
    /// reclamation path is bulk release at scope exit.
    fn deallocate(&mut self, block: Block) {
        if block.size() == 0 || block.ptr() == 0 {
            return;
        }
        if !self.locked && block.ptr() >= self.start {
            match block.ptr().checked_add(block.size()) {
                Some(block_end) => {
                    if block_end == self.current {
                        self.current = block.ptr();
                    }
                },
                None => {},
            }
        }
    }
}

impl BlockOwner for Scoped {
    open spec fn spec_owns(m: Scoped, ptr: usize, layout: Layout) -> bool {
        m.start <= ptr <= m.end
    }

    fn owns_block(&self, ptr: usize, layout: Layout) -> (r: bool) {
        self.start <= ptr && ptr <= self.end
    }
}

} // verus!
