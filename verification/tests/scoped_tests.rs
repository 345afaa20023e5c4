use allocators::{
    allocate, AllocErr, Allocator, BlockOwner, Heap, Layout, Scoped, HEAP_BASE,
};

#[test]
fn out_of_memory() {
    // allocate more memory than the allocator has.
    let mut alloc = Scoped::new(0).unwrap();
    let (err, _) = allocate(&mut alloc, 1i32).err().unwrap();
    assert_eq!(err, AllocErr::OutOfMemory);
}

#[test]
fn placement_in() {
    let mut alloc = Scoped::new(8_000_000).unwrap();
    // the whole buffer can be handed out as one block.
    let big = alloc.allocate(Layout { size: 8_000_000, align: 1 }).unwrap();
    assert_eq!(big.size(), 8_000_000);
}

#[test]
fn owning() {
    let mut alloc = Scoped::new(64).unwrap();

    let val = allocate(&mut alloc, 1i32).ok().unwrap();
    assert!(alloc.owns(&val));

    alloc
        .scope(|mut inner| {
            let in_val = allocate(&mut inner, 2i32).ok().unwrap();
            assert!(inner.owns(&in_val));
            assert!(!inner.owns(&val));
            ((), inner)
        })
        .unwrap();
}

#[test]
fn scope_scope() {
    let mut heap = Heap::default();
    let mut alloc = Scoped::new_from(&mut heap, 64).unwrap();
    let _ = allocate(&mut alloc, 0i32).ok().unwrap();
    alloc
        .scope(|mut inner| {
            let _ = allocate(&mut inner, 32i32).ok().unwrap();
            inner
                .scope(|mut bottom| {
                    let _ = allocate(&mut bottom, 23i32).ok().unwrap();
                    ((), bottom)
                })
                .unwrap();
            ((), inner)
        })
        .unwrap();
}

#[test]
fn scoped_remaining_capacity() {
    let mut alloc = Scoped::new(64).unwrap();
    assert!(alloc.allocate(Layout { size: 32, align: 1 }).is_ok());
    // only 32 bytes remain.
    assert_eq!(
        alloc.allocate(Layout { size: 40, align: 1 }),
        Err(AllocErr::OutOfMemory)
    );
}

#[test]
fn scope_reclaims() {
    let mut root = Scoped::new(64).unwrap();
    root.scope(|mut inner| {
        assert!(inner.allocate(Layout { size: 32, align: 1 }).is_ok());
        ((), inner)
    })
    .unwrap();
    // every allocation made inside the scope has been reclaimed.
    assert!(root.allocate(Layout { size: 64, align: 1 }).is_ok());
}

#[test]
fn locked_parent_rejects_allocation() {
    let mut root = Scoped::new(64).unwrap();
    let child = root.begin_scope().ok().unwrap();
    assert!(root.is_scoped());
    assert_eq!(
        root.allocate(Layout { size: 4, align: 1 }),
        Err(AllocErr::InvalidInput)
    );
    root.end_scope(child);
    assert!(!root.is_scoped());
    assert!(root.allocate(Layout { size: 4, align: 1 }).is_ok());
}

#[test]
fn scope_on_locked_scope_fails() {
    let mut root = Scoped::new(64).unwrap();
    let child = root.begin_scope().ok().unwrap();
    assert_eq!(root.scope(|inner| ((), inner)), Err(()));
    root.end_scope(child);
}

#[test]
fn scoped_aligns_requests() {
    let mut alloc = Scoped::new(64).unwrap();
    let _ = alloc.allocate(Layout { size: 3, align: 1 }).unwrap();
    let b = alloc.allocate(Layout { size: 8, align: 8 }).unwrap();
    assert_eq!(b.ptr() % 8, 0);
    assert_eq!(b.ptr(), HEAP_BASE + 8);
}

#[test]
fn scoped_rejects_zero_size() {
    let mut alloc = Scoped::new(64).unwrap();
    assert_eq!(
        alloc.allocate(Layout { size: 0, align: 1 }),
        Err(AllocErr::InvalidInput)
    );
}

#[test]
fn scoped_reallocate_in_place() {
    let mut alloc = Scoped::new(64).unwrap();
    let b = alloc.allocate(Layout { size: 16, align: 1 }).unwrap();
    let ptr = b.ptr();
    // the most recent allocation grows in place...
    let b = alloc.reallocate(b, Layout { size: 32, align: 1 }).unwrap();
    assert_eq!(b.ptr(), ptr);
    // ...and shrinks in place.
    let b = alloc.reallocate(b, Layout { size: 8, align: 1 }).unwrap();
    assert_eq!(b.ptr(), ptr);
    // after the shrink, the rest of the buffer is free again.
    assert!(alloc.allocate(Layout { size: 56, align: 1 }).is_ok());
}

#[test]
fn scoped_reallocate_moves_older_blocks() {
    let mut alloc = Scoped::new(64).unwrap();
    let first = alloc.allocate(Layout { size: 8, align: 1 }).unwrap();
    let first_ptr = first.ptr();
    let _second = alloc.allocate(Layout { size: 8, align: 1 }).unwrap();
    // not the most recent allocation: a fresh block is taken at the bump
    // position and the old slot becomes fragmentation.
    let moved = alloc.reallocate(first, Layout { size: 8, align: 1 }).unwrap();
    assert_ne!(moved.ptr(), first_ptr);
}

#[test]
fn scoped_reallocate_zero_size_rejected() {
    let mut alloc = Scoped::new(64).unwrap();
    let b = alloc.allocate(Layout { size: 8, align: 1 }).unwrap();
    let (err, back) = alloc
        .reallocate(b, Layout { size: 0, align: 1 })
        .err()
        .unwrap();
    assert_eq!(err, AllocErr::InvalidInput);
    assert_eq!(back.size(), 8);
}

#[test]
fn scoped_reallocate_out_of_memory() {
    let mut alloc = Scoped::new(64).unwrap();
    let b = alloc.allocate(Layout { size: 32, align: 1 }).unwrap();
    let (err, back) = alloc
        .reallocate(b, Layout { size: 80, align: 1 })
        .err()
        .unwrap();
    assert_eq!(err, AllocErr::OutOfMemory);
    assert_eq!(back.size(), 32);
}

#[test]
fn scoped_deallocate_rolls_back_last() {
    let mut alloc = Scoped::new(64).unwrap();
    let a = alloc.allocate(Layout { size: 16, align: 1 }).unwrap();
    let a_ptr = a.ptr();
    let b = alloc.allocate(Layout { size: 48, align: 1 }).unwrap();
    assert!(alloc.allocate(Layout { size: 1, align: 1 }).is_err());
    // not the most recent allocation: ignored.
    alloc.deallocate(a);
    assert!(alloc.allocate(Layout { size: 1, align: 1 }).is_err());
    // the most recent allocation: the bump position rolls back over it.
    alloc.deallocate(b);
    let c = alloc.allocate(Layout { size: 48, align: 1 }).unwrap();
    assert_eq!(c.ptr(), a_ptr + 16);
}

#[test]
fn scoped_destroy_returns_buffer() {
    let mut heap = Heap::default();
    let alloc = Scoped::new_from(&mut heap, 64).unwrap();
    alloc.destroy(&mut heap);
}
