use allocators::{AllocErr, Allocator, BlockOwner, Heap, Layout, HEAP_BASE};

#[test]
fn heap_hands_out_disjoint_blocks() {
    let mut heap = Heap::default();
    let a = heap.allocate(Layout { size: 8, align: 8 }).unwrap();
    let b = heap.allocate(Layout { size: 8, align: 8 }).unwrap();
    assert_eq!(a.ptr(), HEAP_BASE);
    assert_eq!(b.ptr(), HEAP_BASE + 8);
}

#[test]
fn heap_aligns_requests() {
    let mut heap = Heap::default();
    let _ = heap.allocate(Layout { size: 3, align: 1 }).unwrap();
    let b = heap.allocate(Layout { size: 16, align: 16 }).unwrap();
    assert_eq!(b.ptr() % 16, 0);
}

#[test]
fn heap_owns_issued_blocks() {
    let mut heap = Heap::default();
    let b = heap.allocate(Layout { size: 8, align: 8 }).unwrap();
    assert!(heap.owns_block(b.ptr(), b.layout()));
    // addresses it has not issued yet are not owned.
    assert!(!heap.owns_block(b.ptr() + 8, Layout { size: 8, align: 8 }));
}

#[test]
fn heap_reallocate_moves() {
    let mut heap = Heap::default();
    let b = heap.allocate(Layout { size: 8, align: 8 }).unwrap();
    let p = b.ptr();
    let b2 = heap.reallocate(b, Layout { size: 16, align: 8 }).unwrap();
    assert_ne!(b2.ptr(), p);
    assert_eq!(b2.size(), 16);
}

#[test]
fn heap_exhausts_only_at_address_space() {
    let mut heap = Heap::default();
    assert_eq!(
        heap.allocate(Layout { size: usize::MAX, align: 1 }),
        Err(AllocErr::OutOfMemory)
    );
    assert!(heap.allocate(Layout { size: 1024, align: 1 }).is_ok());
}
