use allocators::{allocate, AllocErr, Allocator, BlockOwner, FreeList, Layout, Scoped};

#[test]
fn it_works() {
    let mut alloc = FreeList::new(1024, 64).ok().unwrap();
    let mut blocks = Vec::new();
    for _ in 0..64 {
        blocks.push(allocate(&mut alloc, [0u8; 1024]).ok().unwrap());
    }
    assert!(allocate(&mut alloc, [0u8; 1024]).is_err());
    for b in blocks {
        b.free(&mut alloc);
    }
    assert!(allocate(&mut alloc, [0u8; 1024]).is_ok());
}

#[test]
fn freelist_capacity_is_exact() {
    let mut alloc = FreeList::new(1024, 64).ok().unwrap();
    let mut blocks = Vec::new();
    for _ in 0..64 {
        blocks.push(alloc.allocate(Layout { size: 1024, align: 8 }).unwrap());
    }
    // the 65th allocation fails.
    assert_eq!(
        alloc.allocate(Layout { size: 1024, align: 8 }),
        Err(AllocErr::OutOfMemory)
    );
    // freeing one block permits exactly one more success.
    alloc.deallocate(blocks.pop().unwrap());
    assert!(alloc.allocate(Layout { size: 1024, align: 8 }).is_ok());
    assert_eq!(
        alloc.allocate(Layout { size: 1024, align: 8 }),
        Err(AllocErr::OutOfMemory)
    );
}

#[test]
fn freelist_small_block_size_rejected() {
    assert_eq!(FreeList::new(4, 10).err().unwrap(), AllocErr::InvalidInput);
}

#[test]
fn freelist_request_validation() {
    let mut alloc = FreeList::new(1024, 2).ok().unwrap();
    assert_eq!(
        alloc.allocate(Layout { size: 0, align: 1 }),
        Err(AllocErr::InvalidInput)
    );
    assert_eq!(
        alloc.allocate(Layout { size: 2000, align: 1 }),
        Err(AllocErr::InvalidInput)
    );
    assert_eq!(
        alloc.allocate(Layout { size: 8, align: 16 }),
        Err(AllocErr::UnsupportedAlignment)
    );
}

#[test]
fn freelist_lifo_reuse() {
    let mut alloc = FreeList::new(64, 2).ok().unwrap();
    let a = alloc.allocate(Layout { size: 64, align: 8 }).unwrap();
    let b = alloc.allocate(Layout { size: 64, align: 8 }).unwrap();
    assert_eq!(
        alloc.allocate(Layout { size: 64, align: 8 }),
        Err(AllocErr::OutOfMemory)
    );
    let b_ptr = b.ptr();
    alloc.deallocate(b);
    // the most recently freed block is the next one handed out.
    let c = alloc.allocate(Layout { size: 64, align: 8 }).unwrap();
    assert_eq!(c.ptr(), b_ptr);
    assert_eq!(
        alloc.allocate(Layout { size: 64, align: 8 }),
        Err(AllocErr::OutOfMemory)
    );
    alloc.deallocate(a);
    alloc.deallocate(c);
}

#[test]
fn freelist_new_from_backing() {
    let mut backing = Scoped::new(32).unwrap();
    let mut pool = FreeList::new_from(&mut backing, 8, 4).ok().unwrap();
    let b = pool.allocate(Layout { size: 8, align: 8 }).unwrap();
    assert!(backing.owns_block(b.ptr(), b.layout()));
    pool.deallocate(b);
    pool.destroy(&mut backing);
}

#[test]
fn freelist_construction_cleanup() {
    // a backing arena with room for only two of the three requested blocks:
    // construction fails and returns both acquired blocks first.
    let mut backing = Scoped::new(16).unwrap();
    let err = FreeList::new_from(&mut backing, 8, 3).err().unwrap();
    assert_eq!(err, AllocErr::OutOfMemory);
    // the rollback gave the whole buffer back to the arena.
    assert!(backing.allocate(Layout { size: 16, align: 1 }).is_ok());
}
