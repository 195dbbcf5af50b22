use const_sql::const_alloc::{ConstAlloc, Layout};

#[test]
fn test_const_alloc() {
    let layout = Layout::from_size_align(128, 1).unwrap();

    let mut static_alloc = ConstAlloc::new_static(128);
    let block = static_alloc.allocate(layout).unwrap();
    static_alloc.deallocate(block, layout);

    let mut runtime_alloc = ConstAlloc::new_runtime();
    let block = runtime_alloc.allocate(layout).unwrap();
    runtime_alloc.deallocate(block, layout);
}

#[test]
fn arena_never_reclaims_and_fails_when_exhausted() {
    let mut alloc = ConstAlloc::new_static(100);
    let layout = Layout::from_size_align(64, 1).unwrap();
    let first = alloc.allocate(layout).unwrap();
    assert!(alloc.allocate(layout).is_err());
    alloc.deallocate(first, layout);
    assert!(alloc.allocate(layout).is_err());
    let small = Layout::from_size_align(36, 1).unwrap();
    assert!(alloc.allocate(small).is_ok());
}

#[test]
fn runtime_allocation_always_succeeds() {
    let mut alloc = ConstAlloc::new_runtime();
    let layout = Layout::from_size_align(4096, 16).unwrap();
    let block = alloc.allocate(layout).unwrap();
    assert_eq!(block.len(), 4096);
    alloc.deallocate(block, layout);
}

#[test]
fn allocate_zeroed_gives_zero_bytes() {
    let mut alloc = ConstAlloc::new_runtime();
    let layout = Layout::from_size_align(16, 1).unwrap();
    let block = alloc.allocate_zeroed(layout).unwrap();
    assert_eq!(block.into_bytes(), vec![0u8; 16]);
}

#[test]
fn grow_zeroed_preserves_prefix_and_zero_fills() {
    let mut alloc = ConstAlloc::new_runtime();
    let old_layout = Layout::from_size_align(4, 1).unwrap();
    let mut block = alloc.allocate(old_layout).unwrap();
    block.write(0, 1);
    block.write(1, 2);
    block.write(2, 3);
    block.write(3, 4);
    let new_layout = Layout::from_size_align(8, 1).unwrap();
    let grown = alloc.grow_zeroed(block, old_layout, new_layout).unwrap();
    assert_eq!(grown.into_bytes(), vec![1, 2, 3, 4, 0, 0, 0, 0]);
}

#[test]
fn shrink_keeps_the_prefix() {
    let mut alloc = ConstAlloc::new_runtime();
    let old_layout = Layout::from_size_align(4, 1).unwrap();
    let mut block = alloc.allocate(old_layout).unwrap();
    block.write(0, 9);
    block.write(1, 8);
    block.write(2, 7);
    block.write(3, 6);
    let new_layout = Layout::from_size_align(2, 1).unwrap();
    let shrunk = alloc.shrink(block, old_layout, new_layout).unwrap();
    assert_eq!(shrunk.into_bytes(), vec![9, 8]);
}

#[test]
fn invalid_layouts_are_rejected_before_allocation() {
    assert!(Layout::from_size_align(8, 3).is_none());
    assert!(Layout::from_size_align(8, 0).is_none());
    assert!(Layout::from_size_align(8, 4).is_some());
    assert!(Layout::array(usize::MAX, 1, 2).is_none());
    assert!(Layout::array(4, 4, 8).is_some());
}
