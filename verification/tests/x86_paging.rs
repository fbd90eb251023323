use helium::address::{Frame, Physical, Virtual};
use helium::x86_64::paging::table::{
    PageEntry, PageEntryFlags, PageFaultErrorCode, PageTable, PageTableRoot,
};
use helium::x86_64::paging::tlb::{shootdown_command, SHOOTDOWN_VECTOR};
use helium::x86_64::paging::{
    page_fault_action, resolve, unmap, Level, MapError, PageFaultAction, UnmapError,
};
use helium::x86_64::paging::map as map_page;

#[test]
fn map_then_resolve() {
    let mut root = PageTableRoot::new(16);
    let v = Virtual::new(0x4000_1234);
    let frame = Frame::new(Physical::new(0x20_0000));
    assert_eq!(map_page(&mut root, Virtual::new(0x4000_1000), frame, PageEntryFlags::writable()), Ok(()));
    assert_eq!(resolve(&root, v), Some(Physical::new(0x20_0234)));
    assert_eq!(resolve(&root, Virtual::new(0x4000_2000)), None);
}

#[test]
fn map_twice_is_refused() {
    let mut root = PageTableRoot::new(16);
    let a = Virtual::new(0x1000);
    let f = Frame::new(Physical::new(0x3000));
    assert_eq!(map_page(&mut root, a, f, PageEntryFlags::empty()), Ok(()));
    assert_eq!(map_page(&mut root, a, f, PageEntryFlags::empty()), Err(MapError::AlreadyMapped));
}

#[test]
fn unmap_returns_the_frame() {
    let mut root = PageTableRoot::new(16);
    let a = Virtual::new(0x7fff_0000_0000);
    let f = Frame::new(Physical::new(0x1_0000_0000));
    map_page(&mut root, a, f, PageEntryFlags::user()).unwrap();
    assert_eq!(unmap(&mut root, a), Ok(f));
    assert_eq!(resolve(&root, a), None);
    assert_eq!(unmap(&mut root, a), Err(UnmapError::NotMapped));
}

#[test]
fn map_runs_out_of_tables() {
    // Only the PML4 and two more tables fit: a first mapping needs three.
    let mut root = PageTableRoot::new(3);
    let r = map_page(&mut root, Virtual::new(0x1000), Frame::new(Physical::new(0x2000)), PageEntryFlags::empty());
    assert_eq!(r, Err(MapError::OutOfMemory));
    assert_eq!(resolve(&root, Virtual::new(0x1000)), None);
}

#[test]
fn neighbouring_pages_are_independent() {
    let mut root = PageTableRoot::new(16);
    map_page(&mut root, Virtual::new(0x1000), Frame::new(Physical::new(0xA000)), PageEntryFlags::empty()).unwrap();
    map_page(&mut root, Virtual::new(0x2000), Frame::new(Physical::new(0xB000)), PageEntryFlags::empty()).unwrap();
    unmap(&mut root, Virtual::new(0x1000)).unwrap();
    assert_eq!(resolve(&root, Virtual::new(0x2010)), Some(Physical::new(0xB010)));
}

#[test]
fn page_entry_flags_and_address() {
    let mut e = PageEntry::new(Physical::new(0x5000), PageEntryFlags::present().union(PageEntryFlags::writable()));
    assert!(e.present());
    assert!(e.writable());
    assert!(e.executable());
    assert!(e.kernel());
    assert!(!e.user());
    assert_eq!(e.address(), Some(Physical::new(0x5000)));
    e.add_flags(PageEntryFlags::no_execute());
    assert!(!e.executable());
    e.clear_flags(PageEntryFlags::writable());
    assert!(!e.writable());
    e.set_address(Physical::new(0x9000));
    assert_eq!(e.address(), Some(Physical::new(0x9000)));
    e.set_flags(PageEntryFlags::user());
    assert!(!e.present());
    assert_eq!(e.address(), None);
    e.clear();
    assert_eq!(e.0, 0);
    assert!(!PageEntry::empty().present());
}

#[test]
fn page_table_halves() {
    let mut t = PageTable::empty();
    assert!(t.is_empty());
    t.set_entry(3, PageEntry::new(Physical::new(0x1000), PageEntryFlags::present()));
    t.set_entry(300, PageEntry::new(Physical::new(0x2000), PageEntryFlags::present()));
    assert!(!t.is_empty());
    assert_eq!(t.next_missing_kernel_entry(256), Some(256));
    assert_eq!(t.next_missing_kernel_entry(300), Some(301));
    t.clear_userspace();
    assert!(!t.0[3].present());
    assert!(t.0[300].present());
    t.clear();
    assert!(t.is_empty());
}

#[test]
fn levels_go_down_to_the_pt() {
    assert_eq!(Level::Pml4.next(), Some(Level::Pdpt));
    assert_eq!(Level::Pdpt.next(), Some(Level::Pd));
    assert_eq!(Level::Pd.next(), Some(Level::Pt));
    assert_eq!(Level::Pt.next(), None);
    assert_eq!(Level::Pml4.index(), 4);
    assert_eq!(Level::Pt.index(), 1);
}

#[test]
fn virtual_address_parts() {
    let v = Virtual::new(0x0000_7f12_3456_7abc);
    assert_eq!(v.page_offset(), 0xabc);
    assert_eq!(v.page_index(1), (0x0000_7f12_3456_7abc >> 12) & 0x1ff);
    assert_eq!(v.page_index(4), (0x0000_7f12_3456_7abc >> 39) & 0x1ff);
    assert!(v.is_user());
    assert!(!v.is_kernel());
    assert!(Virtual::new(0xffff_8000_0000_0000).is_kernel());
    assert!(Virtual::new(0x2000).is_page_aligned());
}

#[test]
fn page_faults() {
    let not_present = PageFaultErrorCode::from_bits_truncate(0x2);
    let present = PageFaultErrorCode::from_bits_truncate(0x3);
    assert!(not_present.write_access());
    assert!(!not_present.present());
    assert_eq!(page_fault_action(false, Virtual::new(0x1000), not_present), PageFaultAction::PageIn);
    assert_eq!(page_fault_action(false, Virtual::new(0x1000), present), PageFaultAction::Unrecoverable);
    assert_eq!(page_fault_action(true, Virtual::new(0x1000), not_present), PageFaultAction::Unrecoverable);
    assert_eq!(
        page_fault_action(false, Virtual::new(0xffff_8000_0000_1000), not_present),
        PageFaultAction::Unrecoverable
    );
}

#[test]
fn tlb_shootdown_goes_to_the_other_cores() {
    let (high, low) = shootdown_command();
    assert_eq!(high, 0);
    assert_eq!(low, SHOOTDOWN_VECTOR as u32 | (3 << 18));
}

#[test]
fn dropping_a_root_frees_user_pages_and_tables() {
    let mut root = PageTableRoot::new(16);
    assert_eq!(root.drop_frames(), vec![0]);
    map_page(&mut root, Virtual::new(0x1000), Frame::new(Physical::new(0xA000)), PageEntryFlags::empty()).unwrap();
    map_page(&mut root, Virtual::new(0x2000), Frame::new(Physical::new(0xB000)), PageEntryFlags::empty()).unwrap();
    // One PDPT (frame 1), one PD (frame 2) and one PT (frame 3) were made.
    assert_eq!(root.drop_frames(), vec![0xA000, 0xB000, 0x3000, 0x2000, 0x1000, 0]);
}

#[test]
fn dropping_a_root_keeps_the_kernel_half() {
    let mut root = PageTableRoot::new(16);
    map_page(&mut root, Virtual::new(0xFFFF_8000_0000_0000), Frame::new(Physical::new(0xC000)), PageEntryFlags::empty()).unwrap();
    assert_eq!(root.drop_frames(), vec![0]);
}
