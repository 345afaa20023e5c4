use allocators::{align_forward, is_power_of_two, AllocErr, Block, Error, Layout};

#[test]
fn align_forward_values() {
    assert_eq!(align_forward(4096, 8), 4096);
    assert_eq!(align_forward(4097, 8), 4104);
    assert_eq!(align_forward(13, 1), 13);
    assert_eq!(align_forward(1, 16), 16);
}

#[test]
fn power_of_two_check() {
    assert!(is_power_of_two(1));
    assert!(is_power_of_two(2));
    assert!(is_power_of_two(8));
    assert!(is_power_of_two(4096));
    assert!(!is_power_of_two(0));
    assert!(!is_power_of_two(3));
    assert!(!is_power_of_two(12));
}

#[test]
fn layout_rejects_bad_alignment() {
    assert!(Layout::from_size_align(8, 3).is_none());
    assert!(Layout::from_size_align(8, 0).is_none());
    let l = Layout::from_size_align(16, 4).unwrap();
    assert_eq!(l.size(), 16);
    assert_eq!(l.align(), 4);
}

#[test]
fn block_basics() {
    let b = Block::new(4096, Layout { size: 8, align: 8 });
    assert_eq!(b.ptr(), 4096);
    assert_eq!(b.size(), 8);
    assert_eq!(b.align(), 8);
    assert_eq!(b.layout(), Layout { size: 8, align: 8 });
    assert!(!b.is_empty());
}

#[test]
fn empty_block_is_sentinel() {
    let e = Block::empty();
    assert!(e.is_empty());
    assert_eq!(e.size(), 0);
    assert_eq!(e.ptr(), 0);
}

#[test]
fn error_constructors() {
    assert_eq!(Error::unsupported_alignment(), AllocErr::UnsupportedAlignment);
    assert_eq!(
        Error::out_of_memory(Layout { size: 1, align: 1 }),
        AllocErr::OutOfMemory
    );
}
