//! Composable building blocks for allocator chains: the always-failing
//! `NullAllocator`, the two-tier `Fallback` policy, and the instrumenting
//! `Proxy` that reports every operation's outcome to an injected logger.

use vstd::prelude::*;

use crate::AllocErr;
use crate::Allocator;
use crate::Block;
use crate::BlockOwner;
use crate::Error;
use crate::Layout;

verus! {

/// This allocator always fails. It owns nothing, and since it never issues
/// blocks, receiving one in `deallocate` is a programming error: that call
/// is excluded by contract rather than reported as a recoverable error.
#[derive(Debug, PartialEq, Eq, Structural)]
pub struct NullAllocator;

impl Allocator for NullAllocator {
    type Model = ();

    open spec fn model(&self) -> () {
        ()
    }

    open spec fn wf(&self) -> bool {
        true
    }

    open spec fn spec_alloc(m: (), layout: Layout) -> (Result<Block, AllocErr>, ()) {
        (Err(AllocErr::OutOfMemory), ())
    }

    open spec fn spec_realloc(m: (), block: Block, new_layout: Layout) -> (
        Result<Block, (AllocErr, Block)>,
        (),
    ) {
        (Err((AllocErr::OutOfMemory, block)), ())
    }

    open spec fn spec_dealloc(m: (), block: Block) -> () {
        ()
    }

    open spec fn dealloc_allowed(&self, block: Block) -> bool {
        false
    }

    fn allocate(&mut self, layout: Layout) -> (r: Result<Block, AllocErr>) {
        Err(Error::out_of_memory(layout))
    }

    /// Always fails, returning the original block to the caller.
    fn reallocate(&mut self, block: Block, new_layout: Layout) -> (r: Result<
        Block,
        (AllocErr, Block),
    >) {
        Err((Error::out_of_memory(new_layout), block))
    }

    /// Never legitimately called: this allocator issues no blocks, so its
    /// contract excludes every call.
    fn deallocate(&mut self, block: Block) {
    }
}

impl BlockOwner for NullAllocator {
    open spec fn spec_owns(m: (), ptr: usize, layout: Layout) -> bool {
        false
    }

    fn owns_block(&self, ptr: usize, layout: Layout) -> (r: bool) {
        false
    }
}

/// This allocator has a main and a fallback allocator. It always attempts
/// to allocate first with the main allocator, and second with the fallback.
/// Reallocation and deallocation are routed to whichever of the two owns
/// the block.
#[derive(Debug)]
pub struct Fallback<M: BlockOwner, F: BlockOwner> {
    pub main: M,
    pub fallback: F,
}

impl<M: BlockOwner, F: BlockOwner> Fallback<M, F> {
    /// Create a new `Fallback`.
    pub fn new(main: M, fallback: F) -> (r: Self)
        ensures
            r == (Fallback { main, fallback }),
    {
        Fallback { main, fallback }
    }
}

impl<M: BlockOwner, F: BlockOwner> Allocator for Fallback<M, F> {
    type Model = (M::Model, F::Model);

    open spec fn model(&self) -> (M::Model, F::Model) {
        (self.main.model(), self.fallback.model())
    }

    open spec fn wf(&self) -> bool {
        self.main.wf() && self.fallback.wf()
    }

    open spec fn spec_alloc(m: (M::Model, F::Model), layout: Layout) -> (
        Result<Block, AllocErr>,
        (M::Model, F::Model),
    ) {
        let main_step = M::spec_alloc(m.0, layout);
        match main_step.0 {
            Ok(b) => (Ok(b), (main_step.1, m.1)),
            Err(_) => {
                let fb_step = F::spec_alloc(m.1, layout);
                (fb_step.0, (main_step.1, fb_step.1))
            },
        }
    }

    open spec fn spec_realloc(m: (M::Model, F::Model), block: Block, new_layout: Layout) -> (
        Result<Block, (AllocErr, Block)>,
        (M::Model, F::Model),
    ) {
        if M::spec_owns(m.0, block.ptr, block.layout) {
            let step = M::spec_realloc(m.0, block, new_layout);
            (step.0, (step.1, m.1))
        } else if F::spec_owns(m.1, block.ptr, block.layout) {
            let step = F::spec_realloc(m.1, block, new_layout);
            (step.0, (m.0, step.1))
        } else {
            (Err((AllocErr::AllocatorSpecific, block)), m)
        }
    }

    open spec fn spec_dealloc(m: (M::Model, F::Model), block: Block) -> (M::Model, F::Model) {
        if M::spec_owns(m.0, block.ptr, block.layout) {
            (M::spec_dealloc(m.0, block), m.1)
        } else if F::spec_owns(m.1, block.ptr, block.layout) {
            (m.0, F::spec_dealloc(m.1, block))
        } else {
            m
        }
    }

    open spec fn dealloc_allowed(&self, block: Block) -> bool {
        if M::spec_owns(self.main.model(), block.ptr, block.layout) {
            self.main.dealloc_allowed(block)
        } else if F::spec_owns(self.fallback.model(), block.ptr, block.layout) {
            self.fallback.dealloc_allowed(block)
        } else {
            true
        }
    }

    /// Tries the main allocator; on failure tries the fallback; returns the
    /// first success or the last failure.
    fn allocate(&mut self, layout: Layout) -> (r: Result<Block, AllocErr>) {
        match self.main.allocate(layout) {
            Ok(b) => Ok(b),
            Err(_) => self.fallback.allocate(layout),
        }
    }

    /// Routes to whichever sub-allocator owns the block; if neither does,
    /// ownership cannot be resolved and the request fails.
    fn reallocate(&mut self, block: Block, new_layout: Layout) -> (r: Result<
        Block,
        (AllocErr, Block),
    >) {
        if self.main.owns_block(block.ptr(), block.layout()) {
            self.main.reallocate(block, new_layout)
        } else if self.fallback.owns_block(block.ptr(), block.layout()) {
            self.fallback.reallocate(block, new_layout)
        } else {
            Err((AllocErr::AllocatorSpecific, block))
        }
    }

    /// Routes to whichever sub-allocator owns the block. A block neither
    /// sub-allocator owns is silently ignored: this tolerates stale frees
    /// across allocator substitution.
    fn deallocate(&mut self, block: Block) {
        if self.main.owns_block(block.ptr(), block.layout()) {
            self.main.deallocate(block);
        } else if self.fallback.owns_block(block.ptr(), block.layout()) {
            self.fallback.deallocate(block);
        }
    }
}

impl<M: BlockOwner, F: BlockOwner> BlockOwner for Fallback<M, F> {
    open spec fn spec_owns(m: (M::Model, F::Model), ptr: usize, layout: Layout) -> bool {
        M::spec_owns(m.0, ptr, layout) || F::spec_owns(m.1, ptr, layout)
    }

    fn owns_block(&self, ptr: usize, layout: Layout) -> (r: bool) {
        self.main.owns_block(ptr, layout) || self.fallback.owns_block(ptr, layout)
    }
}

/// Something that logs an allocator's activity. In practice, this may be a
/// data collector, an audit trail, or something else entirely. Each hook's
/// contract only says that the logger's state advances by the matching
/// transition: what the transitions mean is the logger's own business.
pub trait ProxyLogger: Sized {
    /// The mathematical state of this logger.
    type Model;

    /// The abstraction of the current state.
    spec fn model(&self) -> Self::Model;

    /// Successor state after observing a successful allocation.
    spec fn spec_allocate_success(m: Self::Model, ptr: usize, layout: Layout) -> Self::Model;

    /// Successor state after observing a failed allocation.
    spec fn spec_allocate_fail(m: Self::Model, err: AllocErr, layout: Layout) -> Self::Model;

    /// Successor state after observing a deallocation.
    spec fn spec_deallocate(m: Self::Model, ptr: usize, layout: Layout) -> Self::Model;

    /// Successor state after observing a successful reallocation.
    spec fn spec_reallocate_success(
        m: Self::Model,
        old_ptr: usize,
        old_layout: Layout,
        new_ptr: usize,
        new_layout: Layout,
    ) -> Self::Model;

    /// Successor state after observing a failed reallocation.
    spec fn spec_reallocate_fail(
        m: Self::Model,
        err: AllocErr,
        ptr: usize,
        layout: Layout,
        req_size: usize,
    ) -> Self::Model;

    /// Called after a successful allocation.
    fn allocate_success(&mut self, ptr: usize, layout: Layout)
        ensures
            final(self).model() == Self::spec_allocate_success(old(self).model(), ptr, layout),
    ;

    /// Called after a failed allocation.
    fn allocate_fail(&mut self, err: AllocErr, layout: Layout)
        ensures
            final(self).model() == Self::spec_allocate_fail(old(self).model(), err, layout),
    ;

    /// Called when deallocating a block.
    fn deallocate(&mut self, ptr: usize, layout: Layout)
        ensures
            final(self).model() == Self::spec_deallocate(old(self).model(), ptr, layout),
    ;

    /// Called after a successful reallocation.
    fn reallocate_success(
        &mut self,
        old_ptr: usize,
        old_layout: Layout,
        new_ptr: usize,
        new_layout: Layout,
    )
        ensures
            final(self).model() == Self::spec_reallocate_success(
                old(self).model(),
                old_ptr,
                old_layout,
                new_ptr,
                new_layout,
            ),
    ;

    /// Called after a failed reallocation.
    fn reallocate_fail(&mut self, err: AllocErr, ptr: usize, layout: Layout, req_size: usize)
        ensures
            final(self).model() == Self::spec_reallocate_fail(
                old(self).model(),
                err,
                ptr,
                layout,
                req_size,
            ),
    ;
}

/// This wraps an allocator and a logger, reporting every allocation,
/// reallocation and deallocation. Each operation invokes exactly one
/// logger hook — the one matching the underlying operation's outcome —
/// with metadata taken from that outcome.
#[derive(Debug)]
pub struct Proxy<A, L> {
    pub alloc: A,
    pub logger: L,
}

impl<A: Allocator, L: ProxyLogger> Proxy<A, L> {
    /// Create a new proxy allocator.
    pub fn new(alloc: A, logger: L) -> (r: Self)
        ensures
            r == (Proxy { alloc, logger }),
    {
        Proxy { alloc, logger }
    }
}

impl<A: Allocator, L: ProxyLogger> Allocator for Proxy<A, L> {
    type Model = (A::Model, L::Model);

    open spec fn model(&self) -> (A::Model, L::Model) {
        (self.alloc.model(), self.logger.model())
    }

    open spec fn wf(&self) -> bool {
        self.alloc.wf()
    }

    open spec fn spec_alloc(m: (A::Model, L::Model), layout: Layout) -> (
        Result<Block, AllocErr>,
        (A::Model, L::Model),
    ) {
        let step = A::spec_alloc(m.0, layout);
        match step.0 {
            Ok(b) => (Ok(b), (step.1, L::spec_allocate_success(m.1, b.ptr, layout))),
            Err(e) => (Err(e), (step.1, L::spec_allocate_fail(m.1, e, layout))),
        }
    }

    open spec fn spec_realloc(m: (A::Model, L::Model), block: Block, new_layout: Layout) -> (
        Result<Block, (AllocErr, Block)>,
        (A::Model, L::Model),
    ) {
        let step = A::spec_realloc(m.0, block, new_layout);
        match step.0 {
            Ok(nb) => (
                Ok(nb),
                (
                    step.1,
                    L::spec_reallocate_success(
                        m.1,
                        block.ptr,
                        block.layout,
                        nb.ptr,
                        new_layout,
                    ),
                ),
            ),
            Err(e) => (
                Err(e),
                (
                    step.1,
                    L::spec_reallocate_fail(m.1, e.0, block.ptr, block.layout, new_layout.size),
                ),
            ),
        }
    }

    open spec fn spec_dealloc(m: (A::Model, L::Model), block: Block) -> (A::Model, L::Model) {
        (A::spec_dealloc(m.0, block), L::spec_deallocate(m.1, block.ptr, block.layout))
    }

    open spec fn dealloc_allowed(&self, block: Block) -> bool {
        self.alloc.dealloc_allowed(block)
    }

    /// Delegates to the inner allocator, then invokes exactly one of
    /// `allocate_success` and `allocate_fail`, matching the outcome.
    fn allocate(&mut self, layout: Layout) -> (r: Result<Block, AllocErr>) {
        match self.alloc.allocate(layout) {
            Ok(b) => {
                self.logger.allocate_success(b.ptr(), layout);
                Ok(b)
            },
            Err(e) => {
                self.logger.allocate_fail(e, layout);
                Err(e)
            },
        }
    }

    /// Delegates to the inner allocator, then invokes exactly one of
    /// `reallocate_success` and `reallocate_fail`, matching the outcome.
    fn reallocate(&mut self, block: Block, new_layout: Layout) -> (r: Result<
        Block,
        (AllocErr, Block),
    >) {
        let old_ptr = block.ptr();
        let old_layout = block.layout();
        match self.alloc.reallocate(block, new_layout) {
            Ok(nb) => {
                self.logger.reallocate_success(old_ptr, old_layout, nb.ptr(), new_layout);
                Ok(nb)
            },
            Err(e) => {
                self.logger.reallocate_fail(e.0, old_ptr, old_layout, new_layout.size());
                Err(e)
            },
        }
    }

    /// Reports the deallocation to the logger, then delegates it.
    fn deallocate(&mut self, block: Block) {
        self.logger.deallocate(block.ptr(), block.layout());
        self.alloc.deallocate(block);
    }
}

/// A fallback chain whose main allocator is the always-failing
/// `NullAllocator` delegates every allocation to the fallback allocator and
/// succeeds exactly when it does, and its ownership predicate is exactly
/// the fallback's.
pub proof fn lemma_fallback_null_delegates<H: BlockOwner>(m: ((), H::Model), layout: Layout)
    ensures
        Fallback::<NullAllocator, H>::spec_alloc(m, layout).0 == H::spec_alloc(m.1, layout).0,
        Fallback::<NullAllocator, H>::spec_alloc(m, layout).1.1 == H::spec_alloc(m.1, layout).1,
        forall|ptr: usize, l: Layout|
            #[trigger] Fallback::<NullAllocator, H>::spec_owns(m, ptr, l) == H::spec_owns(
                m.1,
                ptr,
                l,
            ),
{
}

/// Every proxied operation advances a counting logger by exactly one
/// count: the one matching the operation and the underlying outcome. The
/// four other counts are untouched because the successor is a one-field
/// update of the logger's state.
pub proof fn lemma_proxy_counts_one<A: Allocator>(
    m: (A::Model, CountingLogger),
    block: Block,
    layout: Layout,
)
    ensures
        A::spec_alloc(m.0, layout).0 is Ok ==> Proxy::<A, CountingLogger>::spec_alloc(
            m,
            layout,
        ).1.1 == (CountingLogger {
            allocate_successes: spec_count_inc(m.1.allocate_successes),
            ..m.1
        }),
        A::spec_alloc(m.0, layout).0 is Err ==> Proxy::<A, CountingLogger>::spec_alloc(
            m,
            layout,
        ).1.1 == (CountingLogger { allocate_fails: spec_count_inc(m.1.allocate_fails), ..m.1 }),
        A::spec_realloc(m.0, block, layout).0 is Ok ==> Proxy::<A, CountingLogger>::spec_realloc(
            m,
            block,
            layout,
        ).1.1 == (CountingLogger {
            reallocate_successes: spec_count_inc(m.1.reallocate_successes),
            ..m.1
        }),
        A::spec_realloc(m.0, block, layout).0 is Err ==> Proxy::<A, CountingLogger>::spec_realloc(
            m,
            block,
            layout,
        ).1.1 == (CountingLogger {
            reallocate_fails: spec_count_inc(m.1.reallocate_fails),
            ..m.1
        }),
        Proxy::<A, CountingLogger>::spec_dealloc(m, block).1 == (CountingLogger {
            deallocates: spec_count_inc(m.1.deallocates),
            ..m.1
        }),
{
}

/// The saturating successor used by the counting logger.
pub open spec fn spec_count_inc(c: u64) -> u64 {
    if c == u64::MAX {
        c
    } else {
        (c + 1) as u64
    }
}

/// Bumps an event count, saturating at the maximum.
fn count_inc(c: u64) -> (r: u64)
    ensures
        r == spec_count_inc(c),
{
    if c < u64::MAX {
        c + 1
    } else {
        c
    }
}

/// A logger that counts how often each hook has been invoked. One counter
/// per hook, saturating at the maximum; the metadata is discarded.
#[derive(Clone, Copy, Debug, PartialEq, Eq, Structural)]
pub struct CountingLogger {
    pub allocate_successes: u64,
    pub allocate_fails: u64,
    pub deallocates: u64,
    pub reallocate_successes: u64,
    pub reallocate_fails: u64,
}

impl CountingLogger {
    /// A logger with every count at zero.
    pub fn new() -> (r: CountingLogger)
        ensures
            r == (CountingLogger {
                allocate_successes: 0,
                allocate_fails: 0,
                deallocates: 0,
                reallocate_successes: 0,
                reallocate_fails: 0,
            }),
    {
        CountingLogger {
            allocate_successes: 0,
            allocate_fails: 0,
            deallocates: 0,
            reallocate_successes: 0,
            reallocate_fails: 0,
        }
    }
}

impl ProxyLogger for CountingLogger {
    type Model = CountingLogger;

    open spec fn model(&self) -> CountingLogger {
        *self
    }

    open spec fn spec_allocate_success(m: CountingLogger, ptr: usize, layout: Layout) -> CountingLogger {
        CountingLogger { allocate_successes: spec_count_inc(m.allocate_successes), ..m }
    }

    open spec fn spec_allocate_fail(m: CountingLogger, err: AllocErr, layout: Layout) -> CountingLogger {
        CountingLogger { allocate_fails: spec_count_inc(m.allocate_fails), ..m }
    }

    open spec fn spec_deallocate(m: CountingLogger, ptr: usize, layout: Layout) -> CountingLogger {
        CountingLogger { deallocates: spec_count_inc(m.deallocates), ..m }
    }

    open spec fn spec_reallocate_success(
        m: CountingLogger,
        old_ptr: usize,
        old_layout: Layout,
        new_ptr: usize,
        new_layout: Layout,
    ) -> CountingLogger {
        CountingLogger { reallocate_successes: spec_count_inc(m.reallocate_successes), ..m }
    }

    open spec fn spec_reallocate_fail(
        m: CountingLogger,
        err: AllocErr,
        ptr: usize,
        layout: Layout,
        req_size: usize,
    ) -> CountingLogger {
        CountingLogger { reallocate_fails: spec_count_inc(m.reallocate_fails), ..m }
    }

    fn allocate_success(&mut self, ptr: usize, layout: Layout) {
        self.allocate_successes = count_inc(self.allocate_successes);
    }

    fn allocate_fail(&mut self, err: AllocErr, layout: Layout) {
        self.allocate_fails = count_inc(self.allocate_fails);
    }

    fn deallocate(&mut self, ptr: usize, layout: Layout) {
        self.deallocates = count_inc(self.deallocates);
    }

    fn reallocate_success(
        &mut self,
        old_ptr: usize,
        old_layout: Layout,
        new_ptr: usize,
        new_layout: Layout,
    ) {
        self.reallocate_successes = count_inc(self.reallocate_successes);
    }

    fn reallocate_fail(&mut self, err: AllocErr, ptr: usize, layout: Layout, req_size: usize) {
        self.reallocate_fails = count_inc(self.reallocate_fails);
    }
}

} // verus!
