use memory_handler::attr::MemoryAttr;
use memory_handler::frame_alloc::FrameAllocator;
use memory_handler::handler::ByFrame;
use memory_handler::handler::ByFrameWithRpa;
use memory_handler::handler::Linear;
use memory_handler::handler::MemoryHandler;
use memory_handler::page::PAGE_SIZE;
use memory_handler::page_replace::PageReplaceRegistry;
use memory_handler::page_table::PageTable;
use memory_handler::phys_memory::PhysMemory;

#[test]
fn linear_map_lookup() {
    let h = Linear::new(0x1000);
    let mut pt = PageTable::new();
    let mut allocator = FrameAllocator::new(vec![]);
    let mut reg = PageReplaceRegistry::new();
    let attr = MemoryAttr::new(0);
    h.map(&mut pt, &mut allocator, &mut reg, 0x2000, &attr);
    let e = pt.lookup(0x2000).unwrap();
    assert_eq!(e.pa, 0x1000);
}

#[test]
fn linear_map_zero_offset() {
    let h = Linear::new(0);
    let mut pt = PageTable::new();
    let mut allocator = FrameAllocator::new(vec![]);
    let mut reg = PageReplaceRegistry::new();
    let attr = MemoryAttr::new(0);
    h.map(&mut pt, &mut allocator, &mut reg, 0x3000, &attr);
    assert_eq!(pt.lookup(0x3000).unwrap().pa, 0x3000);
}

#[test]
fn linear_unmap_removes_mapping() {
    let h = Linear::new(0x1000);
    let mut pt = PageTable::new();
    let mut allocator = FrameAllocator::new(vec![]);
    let mut reg = PageReplaceRegistry::new();
    let attr = MemoryAttr::new(0);
    h.map(&mut pt, &mut allocator, &mut reg, 0x2000, &attr);
    h.unmap(&mut pt, 0x2000);
    assert!(pt.lookup(0x2000).is_none());
}

#[test]
fn linear_clone_map_remaps_same_target() {
    let h = Linear::new(0x1000);
    let mut src_pt = PageTable::new();
    let mut dst_pt = PageTable::new();
    let mut allocator = FrameAllocator::new(vec![]);
    let mut reg = PageReplaceRegistry::new();
    let mut mem = PhysMemory::new(0x1000);
    let attr = MemoryAttr::new(0);
    h.map(&mut src_pt, &mut allocator, &mut reg, 0x2000, &attr);
    h.clone_map(&mut dst_pt, &src_pt, &mut allocator, &mut reg, &mut mem, 0x2000, &attr);
    assert_eq!(dst_pt.lookup(0x2000).unwrap().pa, 0x1000);
    assert_eq!(src_pt.lookup(0x2000).unwrap().pa, 0x1000);
}

#[test]
fn linear_page_copy_writes_through_offset() {
    let h = Linear::new(0x1000);
    let mut pt = PageTable::new();
    let mut allocator = FrameAllocator::new(vec![]);
    let mut reg = PageReplaceRegistry::new();
    let mut mem = PhysMemory::new(0x1000);
    let attr = MemoryAttr::new(0);
    h.map(&mut pt, &mut allocator, &mut reg, 0x2000, &attr);
    h.page_copy(&mut pt, &mut mem, 0x2000, &vec![1, 2, 3], 3);
    let page = mem.copy_page(0x1000);
    assert_eq!(&page[0..3], &[1, 2, 3]);
    assert!(page[3..].iter().all(|&b| b == 0));
}

#[test]
fn by_frame_map_takes_most_recent_frame() {
    let h = ByFrame::new();
    let mut pt = PageTable::new();
    let mut allocator = FrameAllocator::new(vec![0x8000, 0x9000]);
    let mut reg = PageReplaceRegistry::new();
    let attr = MemoryAttr::new(0);
    h.map(&mut pt, &mut allocator, &mut reg, 0x4000, &attr);
    assert_eq!(pt.lookup(0x4000).unwrap().pa, 0x9000);
    assert_eq!(allocator.free_frames(), 1);
    assert_eq!(reg.count(), 0);
}

#[test]
fn by_frame_page_copy_fills_and_zeroes() {
    let h = ByFrame::new();
    let mut pt = PageTable::new();
    let mut allocator = FrameAllocator::new(vec![0x8000]);
    let mut reg = PageReplaceRegistry::new();
    let mut mem = PhysMemory::new(0);
    let attr = MemoryAttr::new(0);
    h.map(&mut pt, &mut allocator, &mut reg, 0x4000, &attr);
    let src = vec![0xAA; 10];
    h.page_copy(&mut pt, &mut mem, 0x4000, &src, 10);
    let page = mem.copy_page(0x8000);
    assert_eq!(page.len(), PAGE_SIZE);
    assert!(page[0..10].iter().all(|&b| b == 0xAA));
    assert!(page[10..].iter().all(|&b| b == 0));
}

#[test]
fn page_copy_zero_length_zeroes_whole_page() {
    let h = ByFrame::new();
    let mut pt = PageTable::new();
    let mut allocator = FrameAllocator::new(vec![0x8000]);
    let mut reg = PageReplaceRegistry::new();
    let mut mem = PhysMemory::new(0);
    let attr = MemoryAttr::new(0);
    h.map(&mut pt, &mut allocator, &mut reg, 0x4000, &attr);
    h.page_copy(&mut pt, &mut mem, 0x4000, &vec![], 0);
    let page = mem.copy_page(0x8000);
    assert_eq!(page.len(), PAGE_SIZE);
    assert!(page.iter().all(|&b| b == 0));
}

#[test]
fn page_copy_full_page_copies_everything() {
    let h = ByFrame::new();
    let mut pt = PageTable::new();
    let mut allocator = FrameAllocator::new(vec![0x8000]);
    let mut reg = PageReplaceRegistry::new();
    let mut mem = PhysMemory::new(0);
    let attr = MemoryAttr::new(0);
    h.map(&mut pt, &mut allocator, &mut reg, 0x4000, &attr);
    let src: Vec<u8> = (0..PAGE_SIZE).map(|i| (i % 251) as u8).collect();
    h.page_copy(&mut pt, &mut mem, 0x4000, &src, PAGE_SIZE);
    assert_eq!(mem.copy_page(0x8000), src);
}

#[test]
fn by_frame_clone_map_copies_snapshot() {
    let h = ByFrame::new();
    let mut src_pt = PageTable::new();
    let mut dst_pt = PageTable::new();
    let mut allocator = FrameAllocator::new(vec![0x9000, 0x8000]);
    let mut reg = PageReplaceRegistry::new();
    let mut mem = PhysMemory::new(0);
    let attr = MemoryAttr::new(0);
    h.map(&mut src_pt, &mut allocator, &mut reg, 0x4000, &attr);
    h.page_copy(&mut src_pt, &mut mem, 0x4000, &vec![5, 6, 7], 3);
    h.clone_map(&mut dst_pt, &src_pt, &mut allocator, &mut reg, &mut mem, 0x4000, &attr);
    let src_pa = src_pt.lookup(0x4000).unwrap().pa;
    let dst_pa = dst_pt.lookup(0x4000).unwrap().pa;
    assert_ne!(src_pa, dst_pa);
    assert_eq!(mem.copy_page(dst_pa), mem.copy_page(src_pa));
}

#[test]
fn by_frame_clone_map_isolates_copies() {
    let h = ByFrame::new();
    let mut src_pt = PageTable::new();
    let mut dst_pt = PageTable::new();
    let mut allocator = FrameAllocator::new(vec![0x9000, 0x8000]);
    let mut reg = PageReplaceRegistry::new();
    let mut mem = PhysMemory::new(0);
    let attr = MemoryAttr::new(0);
    h.map(&mut src_pt, &mut allocator, &mut reg, 0x4000, &attr);
    h.page_copy(&mut src_pt, &mut mem, 0x4000, &vec![5, 6, 7], 3);
    h.clone_map(&mut dst_pt, &src_pt, &mut allocator, &mut reg, &mut mem, 0x4000, &attr);
    let before = mem.copy_page(src_pt.lookup(0x4000).unwrap().pa);
    // Overwrite the duplicate's page; the source page must not change.
    h.page_copy(&mut dst_pt, &mut mem, 0x4000, &vec![9; 16], 16);
    let after = mem.copy_page(src_pt.lookup(0x4000).unwrap().pa);
    assert_eq!(before, after);
    assert_eq!(mem.copy_page(dst_pt.lookup(0x4000).unwrap().pa)[0], 9);
}

#[test]
fn swappable_map_registers_allocated_frame() {
    let h = ByFrameWithRpa::new();
    let mut pt = PageTable::new();
    let mut allocator = FrameAllocator::new(vec![0x8000]);
    let mut reg = PageReplaceRegistry::new();
    let attr = MemoryAttr::new(0);
    h.map(&mut pt, &mut allocator, &mut reg, 0x4000, &attr);
    assert_eq!(reg.count(), 1);
    let (frame, entry_loc) = reg.record(0);
    assert_eq!(frame, pt.lookup(0x4000).unwrap().pa);
    assert_eq!(frame, 0x8000);
    assert_eq!(entry_loc, 0x4000);
}

#[test]
fn swappable_clone_map_registers_fresh_frame() {
    let h = ByFrameWithRpa::new();
    let mut src_pt = PageTable::new();
    let mut dst_pt = PageTable::new();
    let mut allocator = FrameAllocator::new(vec![0x9000, 0x8000]);
    let mut reg = PageReplaceRegistry::new();
    let mut mem = PhysMemory::new(0);
    let attr = MemoryAttr::new(0);
    h.map(&mut src_pt, &mut allocator, &mut reg, 0x4000, &attr);
    h.page_copy(&mut src_pt, &mut mem, 0x4000, &vec![1], 1);
    h.clone_map(&mut dst_pt, &src_pt, &mut allocator, &mut reg, &mut mem, 0x4000, &attr);
    assert_eq!(reg.count(), 2);
    assert_eq!(reg.record(0), (0x8000, 0x4000));
    assert_eq!(reg.record(1), (0x9000, 0x4000));
    assert_eq!(mem.copy_page(0x9000), mem.copy_page(0x8000));
}

#[test]
fn attr_bits_are_applied_to_entry() {
    let h = ByFrame::new();
    let mut pt = PageTable::new();
    let mut allocator = FrameAllocator::new(vec![0x8000]);
    let mut reg = PageReplaceRegistry::new();
    let attr = MemoryAttr::new(0b101);
    h.map(&mut pt, &mut allocator, &mut reg, 0x4000, &attr);
    assert_eq!(pt.lookup(0x4000).unwrap().attr, 0b101);
}

#[test]
fn allocator_hands_out_in_reverse_order() {
    let mut allocator = FrameAllocator::new(vec![0x8000, 0x9000, 0xA000]);
    assert_eq!(allocator.allocate(), Some(0xA000));
    assert_eq!(allocator.allocate(), Some(0x9000));
    assert_eq!(allocator.allocate(), Some(0x8000));
    assert_eq!(allocator.allocate(), None);
}

#[test]
fn allocator_empty_returns_none() {
    let mut allocator = FrameAllocator::new(vec![]);
    assert_eq!(allocator.allocate(), None);
    assert_eq!(allocator.free_frames(), 0);
}

#[test]
fn phys_memory_write_then_copy_roundtrip() {
    let mut mem = PhysMemory::new(0);
    let data: Vec<u8> = (0..PAGE_SIZE).map(|i| (i % 7) as u8).collect();
    mem.write_page(0x8000, data.clone());
    assert_eq!(mem.copy_page(0x8000), data);
    assert_eq!(mem.kernel_base(), 0);
}

#[test]
fn registry_keeps_registration_order() {
    let mut reg = PageReplaceRegistry::new();
    reg.push_frame(0x8000, 0x4000);
    reg.push_frame(0x9000, 0x5000);
    assert_eq!(reg.count(), 2);
    assert_eq!(reg.record(0), (0x8000, 0x4000));
    assert_eq!(reg.record(1), (0x9000, 0x5000));
}

#[test]
fn page_table_map_unmap_lookup() {
    let mut pt = PageTable::new();
    let loc = pt.map(0x6000, 0xB000);
    assert_eq!(loc, 0x6000);
    assert_eq!(pt.lookup(0x6000).unwrap().pa, 0xB000);
    assert_eq!(pt.lookup(0x6000).unwrap().attr, 0);
    pt.unmap(0x6000);
    assert!(pt.lookup(0x6000).is_none());
}
