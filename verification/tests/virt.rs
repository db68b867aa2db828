use kernel::arch::memory::{Layout, PAGE_SIZE};
use kernel::memory::phys::FrameAllocator;
use kernel::memory::virt::{
    allocate, count_free_in_range, init, map_hw, map_hw_ro, map_hw_rw, select_lock,
    AddressSpace, AllocationError, MapOutcome, ProtectionMode, RegionLock, RegionLocks,
    ViewError,
};

const GLOBAL: u64 = 0x8000_0000;
const HW_BASE: u64 = 0x9000_0000;
const PAGE: u64 = PAGE_SIZE as u64;

/// An address space whose hardware sub-region has `pages` pages.
fn small_space(pages: u64) -> AddressSpace {
    let layout = Layout::new(GLOBAL, HW_BASE, HW_BASE + pages * PAGE).unwrap();
    init(layout, FrameAllocator::new(0x100, 64))
}

#[test]
fn page_size_is_four_kibibytes() {
    assert_eq!(PAGE_SIZE, 4096);
    assert_eq!(kernel::PAGE_SIZE, 4096);
}

#[test]
fn protection_mode_names() {
    assert_eq!(ProtectionMode::Unmapped.name(), "Unmapped");
    assert_eq!(ProtectionMode::KernelRO.name(), "KernelRO");
    assert_eq!(ProtectionMode::KernelRW.name(), "KernelRW");
    assert_eq!(ProtectionMode::KernelRX.name(), "KernelRX");
    assert_eq!(ProtectionMode::UserRO.name(), "UserRO");
    assert_eq!(ProtectionMode::UserRW.name(), "UserRW");
    assert_eq!(ProtectionMode::UserRX.name(), "UserRX");
}

#[test]
fn protection_mode_equality_and_access() {
    assert_eq!(ProtectionMode::KernelRW, ProtectionMode::KernelRW);
    assert_ne!(ProtectionMode::KernelRW, ProtectionMode::UserRW);
    assert!(!ProtectionMode::Unmapped.readable());
    assert!(ProtectionMode::KernelRO.readable());
    assert!(!ProtectionMode::KernelRO.writable());
    assert!(ProtectionMode::KernelRW.writable());
    assert!(ProtectionMode::UserRW.writable());
    assert!(!ProtectionMode::KernelRX.writable());
    assert!(!ProtectionMode::UserRX.writable());
}

#[test]
fn layout_rejects_unusable_boundaries() {
    assert!(Layout::new(GLOBAL, HW_BASE, HW_BASE + PAGE).is_some());
    assert!(Layout::new(GLOBAL, HW_BASE, HW_BASE).is_some());
    assert!(Layout::new(GLOBAL, HW_BASE + 1, HW_BASE + PAGE).is_none());
    assert!(Layout::new(GLOBAL, HW_BASE, HW_BASE + PAGE + 8).is_none());
    assert!(Layout::new(GLOBAL, HW_BASE + PAGE, HW_BASE).is_none());
    assert!(Layout::new(HW_BASE + PAGE, HW_BASE, HW_BASE + PAGE).is_none());
}

#[test]
fn amd64_layout() {
    let layout = Layout::amd64();
    assert_eq!(layout.hardware_start(), 0xFFFF_B000_0000_0000);
    assert_eq!(layout.hardware_limit(), 0xFFFF_C000_0000_0000);
    assert_eq!(layout.hardware_capacity(), 1 << 32);
    assert!(layout.is_global(0xFFFF_8000_0000_0000));
    assert!(!layout.is_global(0x0000_7FFF_FFFF_FFFF));
}

#[test]
fn lock_follows_the_region() {
    let space = small_space(4);
    assert_eq!(select_lock(&space, GLOBAL), RegionLock::Kernel);
    assert_eq!(select_lock(&space, HW_BASE + 5), RegionLock::Kernel);
    assert_eq!(select_lock(&space, GLOBAL - 1), RegionLock::User);
    assert_eq!(select_lock(&space, 0), RegionLock::User);
}

#[test]
fn map_installs_once_and_never_overwrites() {
    let mut space = small_space(4);
    let addr = 0x4000_2000;
    assert!(!space.is_reserved(addr));
    assert_eq!(
        kernel::memory::virt::map(&mut space, addr, 0x7000, ProtectionMode::UserRO),
        MapOutcome::Installed
    );
    assert!(space.is_reserved(addr));
    assert!(space.is_reserved(addr + PAGE - 1));
    assert!(!space.is_reserved(addr + PAGE));
    let entry = space.lookup(addr + 12).unwrap();
    assert_eq!(entry.frame_number(), 7);
    assert_eq!(entry.protection(), ProtectionMode::UserRO);
    // A second mapping of the page is skipped, and says so.
    assert_eq!(
        kernel::memory::virt::map(&mut space, addr + 8, 0x9000, ProtectionMode::UserRW),
        MapOutcome::Collision
    );
    let entry = space.lookup(addr).unwrap();
    assert_eq!(entry.frame_number(), 7);
    assert_eq!(entry.protection(), ProtectionMode::UserRO);
}

#[test]
fn release_leaves_the_neighbours_alone() {
    let mut space = small_space(4);
    let low = map_hw_rw(&mut space, 0x1_0000, 1, "low").unwrap();
    let middle = map_hw_rw(&mut space, 0x2_0000, 2, "middle").unwrap();
    let high = map_hw_ro(&mut space, 0x4_0000, 1, "high").unwrap();
    middle.release(&mut space);
    assert!(space.is_reserved(low.base()));
    assert!(!space.is_reserved(HW_BASE + PAGE));
    assert!(!space.is_reserved(HW_BASE + 2 * PAGE));
    assert!(space.is_reserved(high.base()));
    assert_eq!(space.lookup(high.base()).unwrap().frame_number(), 0x40);
    assert_eq!(space.lookup(low.base()).unwrap().protection(), ProtectionMode::KernelRW);
}

#[test]
fn count_free_stops_at_the_first_reserved_page() {
    let mut space = small_space(8);
    assert_eq!(count_free_in_range(&space, HW_BASE, 8), 8);
    assert_eq!(count_free_in_range(&space, HW_BASE, 0), 0);
    kernel::memory::virt::map(&mut space, HW_BASE + 3 * PAGE, 0x1000, ProtectionMode::KernelRO);
    assert_eq!(count_free_in_range(&space, HW_BASE, 8), 3);
    assert_eq!(count_free_in_range(&space, HW_BASE, 3), 3);
    assert_eq!(count_free_in_range(&space, HW_BASE + 3 * PAGE, 2), 0);
    assert_eq!(count_free_in_range(&space, HW_BASE + 4 * PAGE, 4), 4);
}

#[test]
fn hardware_mapping_reserves_every_page() {
    let mut space = small_space(8);
    let handle = map_hw_ro(&mut space, 0xFEC0_0000, 3, "test").unwrap();
    assert_eq!(handle.page_count(), 3);
    assert_eq!(handle.base(), HW_BASE);
    assert_eq!(handle.protection(), ProtectionMode::KernelRO);
    assert_eq!(handle.byte_capacity(), 3 * PAGE);
    for i in 0..3 {
        assert!(space.is_reserved(handle.base() + i * PAGE));
        let entry = space.lookup(handle.base() + i * PAGE).unwrap();
        assert_eq!(entry.frame_number(), 0xFEC00 + i);
        assert_eq!(entry.protection(), ProtectionMode::KernelRO);
    }
    assert!(!space.is_reserved(HW_BASE + 3 * PAGE));
}

#[test]
fn hardware_mapping_modes() {
    let mut space = small_space(8);
    let ro = map_hw(&mut space, 0x1000, 1, true, "a").unwrap();
    let rw = map_hw(&mut space, 0x2000, 1, false, "b").unwrap();
    assert_eq!(ro.protection(), ProtectionMode::KernelRO);
    assert_eq!(rw.protection(), ProtectionMode::KernelRW);
    let rw2 = map_hw_rw(&mut space, 0x3000, 1, "c").unwrap();
    assert_eq!(rw2.protection(), ProtectionMode::KernelRW);
}

#[test]
fn empty_request_maps_nothing() {
    let mut space = small_space(2);
    let handle = map_hw_rw(&mut space, 0x1000, 0, "none").unwrap();
    assert_eq!(handle.page_count(), 0);
    assert_eq!(handle.base(), HW_BASE);
    assert!(!space.is_reserved(HW_BASE));
}

#[test]
fn sequential_single_pages_are_adjacent() {
    let mut space = small_space(8);
    let first = map_hw_rw(&mut space, 0xFEE0_0000, 1, "one").unwrap();
    let second = map_hw_rw(&mut space, 0xFEC0_0000, 1, "two").unwrap();
    assert_eq!(first.base(), HW_BASE);
    assert_eq!(second.base(), first.base() + PAGE);
}

#[test]
fn first_fit_takes_the_lowest_hole_that_is_large_enough() {
    let mut space = small_space(8);
    let a = map_hw_rw(&mut space, 0x1_0000, 1, "a").unwrap();
    let b = map_hw_rw(&mut space, 0x2_0000, 2, "b").unwrap();
    let c = map_hw_rw(&mut space, 0x3_0000, 1, "c").unwrap();
    assert_eq!(a.base(), HW_BASE);
    assert_eq!(b.base(), HW_BASE + PAGE);
    assert_eq!(c.base(), HW_BASE + 3 * PAGE);
    // Free the first page and the two-page hole after it one at a time.
    a.release(&mut space);
    // A two-page request does not fit in the one-page hole at the base.
    let d = map_hw_rw(&mut space, 0x4_0000, 2, "d").unwrap();
    assert_eq!(d.base(), HW_BASE + 4 * PAGE);
    // A one-page request does.
    let e = map_hw_rw(&mut space, 0x5_0000, 1, "e").unwrap();
    assert_eq!(e.base(), HW_BASE);
    b.release(&mut space);
    let f = map_hw_rw(&mut space, 0x6_0000, 2, "f").unwrap();
    assert_eq!(f.base(), HW_BASE + PAGE);
    assert_eq!(c.page_count(), 1);
}

#[test]
fn exhaustion_fails_without_a_partial_mapping() {
    let mut space = small_space(4);
    let _held = map_hw_rw(&mut space, 0x1_0000, 2, "held").unwrap();
    // Three pages are asked for, two remain.
    let result = map_hw_rw(&mut space, 0x2_0000, 3, "big");
    assert!(matches!(result, Err(AllocationError::NoSpace)));
    assert!(space.is_reserved(HW_BASE));
    assert!(space.is_reserved(HW_BASE + PAGE));
    assert!(!space.is_reserved(HW_BASE + 2 * PAGE));
    assert!(!space.is_reserved(HW_BASE + 3 * PAGE));
    // The two that remain can still be had.
    let rest = map_hw_rw(&mut space, 0x2_0000, 2, "rest").unwrap();
    assert_eq!(rest.base(), HW_BASE + 2 * PAGE);
    assert!(matches!(map_hw_ro(&mut space, 0x3_0000, 1, "full"), Err(AllocationError::NoSpace)));
}

#[test]
fn fragmented_region_has_no_room_for_a_long_run() {
    let mut space = small_space(5);
    kernel::memory::virt::map(&mut space, HW_BASE + 2 * PAGE, 0x1000, ProtectionMode::KernelRO);
    assert!(matches!(map_hw_rw(&mut space, 0x2_0000, 3, "x"), Err(AllocationError::NoSpace)));
    let two = map_hw_rw(&mut space, 0x2_0000, 2, "y").unwrap();
    assert_eq!(two.base(), HW_BASE);
    let other = map_hw_rw(&mut space, 0x4_0000, 2, "z").unwrap();
    assert_eq!(other.base(), HW_BASE + 3 * PAGE);
}

#[test]
fn over_capacity_request_leaves_occupancy_unchanged() {
    let mut space = small_space(4);
    let layout = space.layout();
    let capacity = layout.hardware_capacity() as usize;
    assert_eq!(capacity, 4);
    let one = map_hw_rw(&mut space, 0xFEE0_0000, 1, "one").unwrap();
    let result = map_hw_rw(&mut space, 0x10_0000, capacity + 1, "too much");
    assert!(matches!(result, Err(AllocationError::NoSpace)));
    assert!(space.is_reserved(one.base()));
    assert_eq!(space.lookup(one.base()).unwrap().frame_number(), 0xFEE00);
    for i in 1..4 {
        assert!(!space.is_reserved(HW_BASE + i * PAGE));
    }
}

#[test]
fn over_capacity_request_on_the_real_layout() {
    let mut space = init(Layout::amd64(), FrameAllocator::new(0, 16));
    let one = map_hw_rw(&mut space, 0xFEE0_0000, 1, "APIC").unwrap();
    assert_eq!(one.base(), 0xFFFF_B000_0000_0000);
    let capacity = space.layout().hardware_capacity() as usize;
    let result = map_hw_rw(&mut space, 0, capacity + 1, "too much");
    assert!(matches!(result, Err(AllocationError::NoSpace)));
    assert!(space.is_reserved(one.base()));
    assert!(!space.is_reserved(one.base() + PAGE));
}

#[test]
fn release_unreserves_every_page() {
    let mut space = small_space(8);
    let keep = map_hw_ro(&mut space, 0x1_0000, 1, "keep").unwrap();
    let handle = map_hw_rw(&mut space, 0x2_0000, 3, "drop").unwrap();
    let base = handle.base();
    handle.release(&mut space);
    for i in 0..3 {
        assert!(!space.is_reserved(base + i * PAGE));
    }
    assert!(space.is_reserved(keep.base()));
}

#[test]
fn releasing_an_empty_handle_changes_nothing() {
    let mut space = small_space(8);
    let other = map_hw_rw(&mut space, 0x1_0000, 2, "other").unwrap();
    let empty = map_hw_rw(&mut space, 0x2_0000, 0, "empty").unwrap();
    // The empty handle sits at the base, on top of the other one's pages.
    assert_eq!(empty.base(), other.base());
    empty.release(&mut space);
    assert!(space.is_reserved(other.base()));
    assert!(space.is_reserved(other.base() + PAGE));
}

#[test]
fn static_mapping_outlives_its_handle() {
    let mut space = small_space(4);
    let mut handle = map_hw_rw(&mut space, 0xFEE0_0000, 1, "APIC").unwrap();
    let base = handle.base();
    let cell = handle.as_mut::<u32>(16);
    assert!(space.store_u32(&cell, 0xDEAD_BEEF));
    let view = handle.make_static::<u32>(16);
    assert_eq!(handle.page_count(), 0);
    assert_eq!(handle.base(), base);
    assert_eq!(view.start(), base + 16);
    assert_eq!(view.byte_len(), 4);
    assert!(view.is_writable());
    handle.release(&mut space);
    assert!(space.is_reserved(base));
    assert_eq!(space.load_u32(&view), Some(0xDEAD_BEEF));
    assert!(space.store_u32(&view, 7));
    assert_eq!(space.load_u32(&view), Some(7));
}

#[test]
fn bytes_written_through_a_slice_read_back_as_a_word() {
    let mut space = small_space(4);
    let mut handle = map_hw_rw(&mut space, 0xFEE0_0000, 1, "regs").unwrap();
    let pattern = [0x78u8, 0x56, 0x34, 0x12];
    let bytes = handle.as_mut_slice::<u8>(0, 4);
    assert_eq!(bytes.element_count(), 4);
    assert!(space.store(&bytes, &pattern));
    let word = handle.as_ref::<u32>(0);
    assert_eq!(space.load_u32(&word), Some(u32::from_le_bytes(pattern)));
    assert_eq!(space.load_u32(&word), Some(0x1234_5678));
    assert_eq!(space.load(&word), Some(vec![0x78, 0x56, 0x34, 0x12]));
}

#[test]
fn word_stored_reads_back_byte_by_byte() {
    let mut space = small_space(4);
    let handle = map_hw_rw(&mut space, 0x8000, 1, "regs").unwrap();
    let word = handle.as_mut::<u32>(8);
    assert!(space.store_u32(&word, 0x0A0B_0C0D));
    let bytes = handle.as_slice::<u8>(8, 4);
    assert_eq!(space.load(&bytes), Some(vec![0x0D, 0x0C, 0x0B, 0x0A]));
    // Memory that was never written reads as zero.
    let next = handle.as_ref::<u32>(12);
    assert_eq!(space.load_u32(&next), Some(0));
}

#[test]
fn two_mappings_of_one_frame_share_its_memory() {
    let mut space = small_space(4);
    let a = map_hw_rw(&mut space, 0x8000, 1, "a").unwrap();
    let b = map_hw_ro(&mut space, 0x8000, 1, "b").unwrap();
    assert_ne!(a.base(), b.base());
    assert!(space.store_u32(&a.as_mut::<u32>(0x20), 0x5555_AAAA));
    assert_eq!(space.load_u32(&b.as_ref::<u32>(0x20)), Some(0x5555_AAAA));
}

#[test]
fn a_view_that_spans_pages_follows_each_page_to_its_frame() {
    let mut space = small_space(4);
    let mut handle = map_hw_rw(&mut space, 0x8000, 2, "two").unwrap();
    let span = handle.as_mut_slice::<u8>(PAGE_SIZE - 2, 4);
    assert!(space.store(&span, &[1, 2, 3, 4]));
    assert_eq!(space.load(&handle.as_slice::<u8>(PAGE_SIZE - 2, 2)), Some(vec![1, 2]));
    assert_eq!(space.load(&handle.as_slice::<u8>(PAGE_SIZE, 2)), Some(vec![3, 4]));
    // The second page stands on frame 9.
    let alias = map_hw_ro(&mut space, 0x9000, 1, "alias").unwrap();
    assert_eq!(space.load(&alias.as_slice::<u8>(0, 2)), Some(vec![3, 4]));
}

#[test]
fn store_refuses_what_it_may_not_do() {
    let mut space = small_space(4);
    let mut rw = map_hw_rw(&mut space, 0x8000, 1, "rw").unwrap();
    let ro = map_hw_ro(&mut space, 0xA000, 1, "ro").unwrap();
    // A read-only view.
    assert!(!space.store(&rw.as_slice::<u8>(0, 2), &[1, 2]));
    assert!(!space.store_u32(&rw.as_ref::<u32>(0), 1));
    // A length that does not match.
    let two = rw.as_mut_slice::<u8>(0, 2);
    assert!(!space.store(&two, &[1, 2, 3]));
    assert!(!space.store_u32(&two, 1));
    // Pages mapped read-only.
    assert!(!space.can_write(&ro.as_mut::<u32>(0)));
    assert!(!space.store_u32(&ro.as_mut::<u32>(0), 1));
    assert!(space.can_write(&two));
    // Nothing was written.
    assert_eq!(space.load(&rw.as_slice::<u8>(0, 4)), Some(vec![0, 0, 0, 0]));
    assert_eq!(space.load_u32(&ro.as_ref::<u32>(0)), Some(0));
}

#[test]
fn load_faults_on_released_and_inaccessible_pages() {
    let mut space = small_space(4);
    let handle = map_hw_rw(&mut space, 0x8000, 1, "gone").unwrap();
    let view = handle.as_mut::<u32>(0);
    assert!(space.store_u32(&view, 9));
    handle.release(&mut space);
    assert_eq!(space.load_u32(&view), None);
    assert_eq!(space.load(&view), None);
    assert!(!space.store_u32(&view, 1));
    // A page reserved as inaccessible cannot be read either.
    kernel::memory::virt::map(&mut space, HW_BASE, 0x8000, ProtectionMode::Unmapped);
    assert_eq!(space.load_u32(&view), None);
    // A view of the wrong size is no word.
    let mut wide = map_hw_rw(&mut space, 0x8000, 1, "wide").unwrap();
    assert_eq!(space.load_u32(&wide.as_mut_slice::<u8>(0, 8)), None);
    assert_eq!(space.load_u32(&wide.as_ref::<u32>(0)), Some(9));
}

#[test]
fn reference_views_are_checked_against_the_bounds_only() {
    let mut space = small_space(4);
    let handle = map_hw_rw(&mut space, 0x8000, 1, "regs").unwrap();
    assert_eq!(handle.check_ref::<u32>(0), Ok(()));
    // No alignment check on a single reference.
    assert_eq!(handle.check_ref::<u32>(1), Ok(()));
    assert_eq!(handle.check_ref::<u32>(PAGE_SIZE - 4), Ok(()));
    assert_eq!(handle.check_ref::<u32>(PAGE_SIZE - 3), Err(ViewError::OutOfBounds));
    assert_eq!(handle.check_ref::<u8>(PAGE_SIZE), Err(ViewError::OutOfBounds));
    assert_eq!(handle.check_ref::<()>(PAGE_SIZE), Ok(()));
    assert_eq!(handle.check_ref::<u8>(usize::MAX), Err(ViewError::OutOfBounds));
    assert_eq!(handle.check_ref::<[u32; 1024]>(0), Ok(()));
    assert_eq!(handle.check_ref::<[u32; 1025]>(0), Err(ViewError::OutOfBounds));
    let view = handle.as_ref::<u64>(24);
    assert_eq!(view.start(), handle.base() + 24);
    assert_eq!(view.byte_len(), 8);
    assert_eq!(view.element_count(), 1);
    assert!(!view.is_writable());
    assert!(handle.as_mut::<u64>(24).is_writable());
}

#[test]
fn slice_views_reject_misaligned_offsets() {
    let mut space = small_space(4);
    let handle = map_hw_rw(&mut space, 0x8000, 1, "regs").unwrap();
    assert_eq!(handle.check_slice::<u32>(0, 1), Ok(()));
    assert_eq!(handle.check_slice::<u32>(4, 1), Ok(()));
    for ofs in [1usize, 2, 3, 5, 6, 7, 4095] {
        assert_eq!(handle.check_slice::<u32>(ofs, 1), Err(ViewError::Misaligned));
        assert_eq!(handle.check_mut_slice::<u32>(ofs, 1), Err(ViewError::Misaligned));
    }
    assert_eq!(handle.check_slice::<u16>(1, 1), Err(ViewError::Misaligned));
    assert_eq!(handle.check_slice::<u16>(2, 1), Ok(()));
    assert_eq!(handle.check_slice::<u8>(3, 1), Ok(()));
    // Alignment is looked at before the bounds.
    assert_eq!(handle.check_slice::<u32>(PAGE_SIZE + 1, 1), Err(ViewError::Misaligned));
}

#[test]
fn slice_views_reject_what_does_not_fit() {
    let mut space = small_space(4);
    let handle = map_hw_rw(&mut space, 0x8000, 2, "regs").unwrap();
    let cap = 2 * PAGE_SIZE;
    assert_eq!(handle.check_slice::<u32>(0, cap / 4), Ok(()));
    assert_eq!(handle.check_slice::<u32>(0, cap / 4 + 1), Err(ViewError::OutOfBounds));
    assert_eq!(handle.check_slice::<u32>(4, cap / 4), Err(ViewError::OutOfBounds));
    assert_eq!(handle.check_slice::<u8>(cap, 0), Ok(()));
    assert_eq!(handle.check_slice::<u8>(cap, 1), Err(ViewError::OutOfBounds));
    assert_eq!(handle.check_slice::<u8>(cap + 1, 0), Err(ViewError::OutOfBounds));
    assert_eq!(handle.check_slice::<u64>(8, usize::MAX), Err(ViewError::OutOfBounds));
    assert_eq!(handle.check_slice::<()>(0, usize::MAX), Ok(()));
    let view = handle.as_slice::<u32>(8, 3);
    assert_eq!(view.start(), handle.base() + 8);
    assert_eq!(view.byte_len(), 12);
    assert_eq!(view.element_count(), 3);
    assert!(!view.is_writable());
}

#[test]
fn mutable_slices_need_a_kernel_read_write_handle() {
    let mut space = small_space(4);
    let mut rw = map_hw_rw(&mut space, 0x8000, 1, "rw").unwrap();
    let ro = map_hw_ro(&mut space, 0x9000, 1, "ro").unwrap();
    assert_eq!(rw.check_mut_slice::<u32>(0, 4), Ok(()));
    assert_eq!(ro.check_mut_slice::<u32>(0, 4), Err(ViewError::NotWritable));
    // The mode is looked at before anything else.
    assert_eq!(ro.check_mut_slice::<u32>(1, 4), Err(ViewError::NotWritable));
    assert_eq!(ro.check_mut_slice::<u8>(0, PAGE_SIZE + 1), Err(ViewError::NotWritable));
    assert_eq!(rw.check_mut_slice::<u8>(0, PAGE_SIZE + 1), Err(ViewError::OutOfBounds));
    // Reading is still fine.
    assert_eq!(ro.check_slice::<u32>(0, 4), Ok(()));
    let view = rw.as_mut_slice::<u16>(2, 5);
    assert_eq!(view.start(), rw.base() + 2);
    assert_eq!(view.byte_len(), 10);
    assert_eq!(view.element_count(), 5);
    assert!(view.is_writable());
    assert_eq!(rw.page_count(), 1);
}

#[test]
fn views_of_an_empty_handle_hold_nothing() {
    let mut space = small_space(4);
    let mut handle = map_hw_rw(&mut space, 0x8000, 1, "regs").unwrap();
    handle.make_static::<u8>(0);
    assert_eq!(handle.check_ref::<u8>(0), Err(ViewError::OutOfBounds));
    assert_eq!(handle.check_slice::<u8>(0, 1), Err(ViewError::OutOfBounds));
    assert_eq!(handle.check_slice::<u8>(0, 0), Ok(()));
}

#[test]
fn allocate_backs_every_page_with_its_own_frame() {
    let mut space = small_space(4);
    assert_eq!(space.free_frames(), 64);
    let addr = GLOBAL + 0x2000;
    assert!(allocate(&mut space, addr + 0x10, 3));
    assert_eq!(space.free_frames(), 61);
    for i in 0..3 {
        let entry = space.lookup(addr + i * PAGE).unwrap();
        assert_eq!(entry.frame_number(), 0x100 + i);
        assert_eq!(entry.protection(), ProtectionMode::KernelRW);
    }
    assert!(!space.is_reserved(addr + 3 * PAGE));
    assert!(!space.is_reserved(addr - 1));
}

#[test]
fn allocate_in_user_space_is_user_writable() {
    let mut space = small_space(4);
    assert!(allocate(&mut space, 0x40_0000, 1));
    let entry = space.lookup(0x40_0000).unwrap();
    assert_eq!(entry.protection(), ProtectionMode::UserRW);
    assert_eq!(entry.frame_number(), 0x100);
}

#[test]
fn allocate_skips_reserved_pages_and_says_so() {
    let mut space = small_space(4);
    let addr = 0x40_0000;
    kernel::memory::virt::map(&mut space, addr + PAGE, 0x7000, ProtectionMode::UserRO);
    assert!(!allocate(&mut space, addr, 3));
    // One frame was taken for every page, the skipped one included.
    assert_eq!(space.free_frames(), 61);
    assert_eq!(space.lookup(addr).unwrap().frame_number(), 0x100);
    let kept = space.lookup(addr + PAGE).unwrap();
    assert_eq!(kept.frame_number(), 7);
    assert_eq!(kept.protection(), ProtectionMode::UserRO);
    assert_eq!(space.lookup(addr + 2 * PAGE).unwrap().frame_number(), 0x102);
    // Nothing to do for no pages.
    assert!(allocate(&mut space, addr, 0));
    assert_eq!(space.free_frames(), 61);
}

#[test]
fn frame_supply_counts_down() {
    let mut frames = FrameAllocator::new(5, 3);
    assert_eq!(frames.remaining(), 3);
    assert_eq!(frames.allocate_frame(), 5);
    assert_eq!(frames.allocate_frame(), 6);
    assert_eq!(frames.remaining(), 1);
    assert_eq!(frames.allocate_frame(), 7);
    assert_eq!(frames.remaining(), 0);
    let clipped = FrameAllocator::new(0x000F_FFFF_FFFF_FFFE, 10);
    assert_eq!(clipped.remaining(), 2);
    assert_eq!(FrameAllocator::new(0x0010_0000_0000_0000, 10).remaining(), 0);
    assert_eq!(FrameAllocator::new(u64::MAX, u64::MAX).remaining(), 0);
    assert_eq!(FrameAllocator::new(0, u64::MAX).remaining(), 0x0010_0000_0000_0000);
}

#[test]
fn a_lock_is_granted_once_until_it_is_released() {
    let mut locks = RegionLocks::new();
    assert!(!locks.is_held(RegionLock::Kernel));
    assert!(!locks.is_held(RegionLock::User));
    assert!(locks.try_acquire(RegionLock::Kernel));
    assert!(locks.is_held(RegionLock::Kernel));
    assert!(!locks.try_acquire(RegionLock::Kernel));
    assert!(locks.is_held(RegionLock::Kernel));
    // The other lock goes its own way.
    assert!(!locks.is_held(RegionLock::User));
    assert!(locks.try_acquire(RegionLock::User));
    assert!(!locks.try_acquire(RegionLock::User));
    assert!(locks.release(RegionLock::Kernel));
    assert!(!locks.is_held(RegionLock::Kernel));
    assert!(locks.is_held(RegionLock::User));
    assert!(!locks.release(RegionLock::Kernel));
    assert!(locks.try_acquire(RegionLock::Kernel));
    assert_eq!(locks, RegionLocks { kernel: true, user: true });
    assert!(locks.release(RegionLock::User));
    assert_eq!(locks, RegionLocks { kernel: true, user: false });
}

#[test]
fn operations_give_their_lock_back() {
    let mut space = small_space(4);
    assert!(!space.is_locked(RegionLock::Kernel));
    assert!(!space.is_locked(RegionLock::User));
    let handle = map_hw_rw(&mut space, 0x8000, 1, "regs").unwrap();
    assert!(!space.is_locked(RegionLock::Kernel));
    assert!(allocate(&mut space, 0x40_0000, 1));
    assert!(allocate(&mut space, GLOBAL, 1));
    handle.release(&mut space);
    assert!(!space.is_locked(RegionLock::Kernel));
    assert!(!space.is_locked(RegionLock::User));
}

#[test]
fn a_held_lock_does_not_stand_in_the_way_of_the_other_region() {
    let mut space = small_space(4);
    // Whoever holds the user lock can still have hardware mapped.
    assert!(space.try_lock(RegionLock::User));
    assert!(!space.try_lock(RegionLock::User));
    assert!(space.is_locked(RegionLock::User));
    let handle = map_hw_rw(&mut space, 0x8000, 1, "regs").unwrap();
    assert!(allocate(&mut space, GLOBAL, 1));
    handle.release(&mut space);
    assert!(space.is_locked(RegionLock::User));
    assert!(!space.is_locked(RegionLock::Kernel));
    assert!(space.unlock(RegionLock::User));
    assert!(!space.unlock(RegionLock::User));
    // Whoever holds the kernel lock can still have user memory backed, and
    // can install mappings of its own.
    assert!(space.try_lock(RegionLock::Kernel));
    assert!(allocate(&mut space, 0x40_0000, 1));
    assert_eq!(count_free_in_range(&space, HW_BASE, 4), 4);
    assert_eq!(
        kernel::memory::virt::map(&mut space, HW_BASE, 0x8000, ProtectionMode::KernelRW),
        MapOutcome::Installed
    );
    assert!(space.is_locked(RegionLock::Kernel));
    assert!(space.unlock(RegionLock::Kernel));
    // An empty handle is released without any lock.
    let mut other = map_hw_rw(&mut space, 0x9000, 1, "other").unwrap();
    assert_eq!(other.base(), HW_BASE + PAGE);
    other.make_static::<u8>(0);
    assert!(space.try_lock(RegionLock::Kernel));
    other.release(&mut space);
    assert!(space.is_reserved(HW_BASE + PAGE));
    assert!(space.is_locked(RegionLock::Kernel));
}
