use allocators::{
    allocate, with_fallback, AllocErr, Allocator, Block, BlockOwner, CountingLogger, Fallback,
    Heap, Layout, NullAllocator, Proxy, Scoped,
};

#[test]
#[should_panic]
fn null_allocate() {
    let mut alloc = NullAllocator;
    allocate(&mut alloc, 1i32).unwrap();
}

#[test]
fn null_always_fails() {
    let mut alloc = NullAllocator;
    assert_eq!(
        alloc.allocate(Layout { size: 1, align: 1 }),
        Err(AllocErr::OutOfMemory)
    );
    let b = Block::new(4096, Layout { size: 8, align: 8 });
    let (err, back) = alloc
        .reallocate(b, Layout { size: 16, align: 8 })
        .err()
        .unwrap();
    assert_eq!(err, AllocErr::OutOfMemory);
    assert_eq!(back.ptr(), 4096);
    assert!(!alloc.owns_block(4096, Layout { size: 8, align: 8 }));
}

#[test]
fn fallback_null_heap() {
    // the main allocator always fails, so every request is served by the
    // heap, and ownership is decided by the heap's predicate.
    let mut alloc = Fallback::new(NullAllocator, Heap::default());
    let val = allocate(&mut alloc, 7i32).ok().unwrap();
    assert!(alloc.owns(&val));
    assert_eq!(*val.value(), 7);
    val.free(&mut alloc);
}

#[test]
fn fallback_prefers_main() {
    let mut alloc = Fallback::new(Scoped::new(16).unwrap(), Scoped::new(8).unwrap());
    assert!(alloc.allocate(Layout { size: 12, align: 1 }).is_ok());
    // the main arena has 4 bytes left, so the fallback serves this one.
    assert!(alloc.allocate(Layout { size: 8, align: 1 }).is_ok());
    // both are exhausted: the last failure is reported.
    assert_eq!(
        alloc.allocate(Layout { size: 8, align: 1 }),
        Err(AllocErr::OutOfMemory)
    );
}

#[test]
fn fallback_unresolved_reallocate() {
    let mut alloc = Fallback::new(NullAllocator, Scoped::new(32).unwrap());
    let foreign = Block::new(1, Layout { size: 8, align: 1 });
    let (err, back) = alloc
        .reallocate(foreign, Layout { size: 16, align: 1 })
        .err()
        .unwrap();
    assert_eq!(err, AllocErr::AllocatorSpecific);
    assert_eq!(back.ptr(), 1);
}

#[test]
fn fallback_unowned_dealloc_is_noop() {
    let mut alloc = Fallback::new(NullAllocator, Scoped::new(32).unwrap());
    let foreign = Block::new(1, Layout { size: 8, align: 1 });
    // neither sub-allocator owns the block: the free is silently ignored.
    alloc.deallocate(foreign);
    assert!(alloc.allocate(Layout { size: 32, align: 1 }).is_ok());
}

#[test]
fn with_fallback_builds_chain() {
    let mut alloc = with_fallback(NullAllocator, Heap::default());
    assert!(alloc.allocate(Layout { size: 8, align: 8 }).is_ok());
}

#[test]
fn proxy_logs_each_operation_once() {
    let mut alloc = Proxy::new(Scoped::new(32).unwrap(), CountingLogger::new());

    let b = alloc.allocate(Layout { size: 16, align: 1 }).unwrap();
    assert_eq!(alloc.logger.allocate_successes, 1);

    assert_eq!(
        alloc.allocate(Layout { size: 64, align: 1 }),
        Err(AllocErr::OutOfMemory)
    );
    assert_eq!(alloc.logger.allocate_fails, 1);

    let b = alloc.reallocate(b, Layout { size: 24, align: 1 }).unwrap();
    assert_eq!(alloc.logger.reallocate_successes, 1);

    let (err, b) = alloc
        .reallocate(b, Layout { size: 0, align: 1 })
        .err()
        .unwrap();
    assert_eq!(err, AllocErr::InvalidInput);
    assert_eq!(alloc.logger.reallocate_fails, 1);

    alloc.deallocate(b);
    assert_eq!(alloc.logger.deallocates, 1);

    // five operations, five hook invocations: exactly one each.
    assert_eq!(alloc.logger.allocate_successes, 1);
    assert_eq!(alloc.logger.allocate_fails, 1);
    assert_eq!(alloc.logger.reallocate_successes, 1);
    assert_eq!(alloc.logger.reallocate_fails, 1);
    assert_eq!(alloc.logger.deallocates, 1);
}
