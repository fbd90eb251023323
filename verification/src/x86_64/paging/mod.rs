//! The page table hierarchy of an address space: mapping, unmapping and
//! resolving pages.
use vstd::prelude::*;
use crate::address::{Frame, Physical, Virtual, PHYSICAL_LIMIT};
use self::table::{
    entry_address, entry_flags, entry_present, leaf_entry, missing_tables, page_number,
    FetchBehavior, PageEntry, PageEntryFlags, PageTableRoot, lemma_same_page_same_translation,
};

pub mod table;
pub mod tlb;

verus! {

/// The size of a page. Only 4 KiB pages are used.
pub const PAGE_SIZE: usize = 4096;

/// A level of the page table hierarchy.
#[derive(Clone, Copy, PartialEq, Eq, Structural, Debug)]
pub enum Level {
    Pml4,
    Pdpt,
    Pd,
    Pt,
}

impl Level {
    /// The number of a level: 4 for the PML4 down to 1 for the PT.
    pub open spec fn spec_index(self) -> nat {
        match self {
            Level::Pml4 => 4,
            Level::Pdpt => 3,
            Level::Pd => 2,
            Level::Pt => 1,
        }
    }

    /// The levels are numbered from 4 for the PML4 down to 1 for the PT.
    pub proof fn law_level_indices(self)
        ensures
            (self.spec_index() == 4) <==> self == Level::Pml4,
            (self.spec_index() == 3) <==> self == Level::Pdpt,
            (self.spec_index() == 2) <==> self == Level::Pd,
            (self.spec_index() == 1) <==> self == Level::Pt,
    {
    }

    /// Returns the next level down the hierarchy, or `None` after the PT.
    pub fn next(self) -> (r: Option<Self>)
        ensures
            match r {
                Some(l) => self != Level::Pt && l.spec_index() + 1 == self.spec_index(),
                None => self == Level::Pt,
            },
    {
        match self {
            Level::Pml4 => Some(Level::Pdpt),
            Level::Pdpt => Some(Level::Pd),
            Level::Pd => Some(Level::Pt),
            Level::Pt => None,
        }
    }

    /// Returns the number of this level: 4 for the PML4 down to 1 for the PT.
    pub fn index(self) -> (r: usize)
        ensures
            r == self.spec_index(),
    {
        match self {
            Level::Pml4 => 4,
            Level::Pdpt => 3,
            Level::Pd => 2,
            Level::Pt => 1,
        }
    }
}

/// Why a frame could not be mapped.
#[derive(Clone, Copy, PartialEq, Eq, Structural, Debug)]
pub enum MapError {
    /// No table could be allocated for the mapping.
    OutOfMemory,
    /// The virtual address was already mapped.
    AlreadyMapped,
}

/// Why a page could not be unmapped.
#[derive(Clone, Copy, PartialEq, Eq, Structural, Debug)]
pub enum UnmapError {
    /// The virtual address was not mapped.
    NotMapped,
}

/// What `map` does: it fails on a mapped address, then when the tables that
/// the mapping needs cannot all be allocated; otherwise `v` is mapped to
/// `frame`, and no other page changes. A failure changes no translation.
pub open spec fn map_outcome(
    before: PageTableRoot,
    after: PageTableRoot,
    v: u64,
    frame: u64,
    flags: u64,
    r: Result<(), MapError>,
) -> bool {
    &&& r == (if before.spec_translate(v) is Some {
        Err(MapError::AlreadyMapped)
    } else if missing_tables(before.words(), v) + before.table_count() > before.capacity() {
        Err(MapError::OutOfMemory)
    } else {
        Ok(())
    })
    &&& after.capacity() == before.capacity()
    &&& r is Ok ==> {
        &&& after.spec_translate(v) == Some(frame)
        &&& entry_flags(leaf_entry(after.words(), v)->0) == flags | 1
        &&& forall|w: u64|
            #![trigger after.spec_translate(w)]
            page_number(w) != page_number(v) ==> after.spec_translate(w) == before.spec_translate(w)
    }
    &&& r is Err ==> forall|w: u64| #[trigger]
        after.spec_translate(w) == before.spec_translate(w)
}

/// What `unmap` does: a mapped page is unmapped and its frame returned; no
/// other page changes.
pub open spec fn unmap_outcome(
    before: PageTableRoot,
    after: PageTableRoot,
    v: u64,
    r: Result<Frame, UnmapError>,
) -> bool {
    &&& after.capacity() == before.capacity()
    &&& match before.spec_translate(v) {
        Some(a) => r == Ok::<Frame, UnmapError>(Frame(Physical(a))),
        None => r == Err::<Frame, UnmapError>(UnmapError::NotMapped),
    }
    &&& after.spec_translate(v) is None
    &&& forall|w: u64|
        #![trigger after.spec_translate(w)]
        page_number(w) != page_number(v) ==> after.spec_translate(w) == before.spec_translate(w)
}

/// The physical address that `v` resolves to: the mapped frame plus the
/// offset of `v` in its page.
pub open spec fn spec_resolve(root: PageTableRoot, v: u64) -> Option<u64> {
    match root.spec_translate(v) {
        Some(a) => Some((a + v % 4096) as u64),
        None => None,
    }
}

/// Maps `frame` at the virtual address `address` with the given flags, plus
/// `PRESENT`. Missing tables are allocated on the way. The caller flushes the
/// TLB entry of `address` on success.
pub fn map(root: &mut PageTableRoot, address: Virtual, frame: Frame, flags: PageEntryFlags) -> (r:
    Result<(), MapError>)
    requires
        old(root).wf(),
        flags.wf(),
        frame.0.0 % 4096 == 0,
        frame.0.0 < PHYSICAL_LIMIT,
    ensures
        final(root).wf(),
        map_outcome(*old(root), *final(root), address.0, frame.0.0, flags.spec_bits(), r),
{
    proof {
        old(root).lemma_count_bound();
    }
    let t = match root.fetch_last_entry(address, FetchBehavior::Allocate) {
        Ok(t) => t,
        Err(_) => {
            assert(old(root).spec_translate(address.0) is None);
            return Err(MapError::OutOfMemory);
        },
    };
    let idx = address.page_index(1);
    let mut pte = root.read_entry(t, idx);
    assert(leaf_entry(root.words(), address.0) == Some(pte.0));
    assert(root.spec_translate(address.0) == old(root).spec_translate(address.0));
    if let Some(_) = pte.address() {
        assert(root.spec_translate(address.0) is Some);
        assert(old(root).spec_translate(address.0) is Some);
        return Err(MapError::AlreadyMapped);
    }
    assert(old(root).spec_translate(address.0) is None);
    pte.set_flags(PageEntryFlags::present().union(flags));
    pte.set_address(frame.addr());
    let ghost mid = *root;
    root.write_leaf(address, t, pte);
    proof {
        let e = pte.0;
        let a = frame.0.0;
        assert(entry_flags(e) & 1 == 1 ==> e & 1 == 1) by (bit_vector);
        let fb = flags.spec_bits();
        assert(entry_flags(e) == 1 | fb);
        assert((1 | fb) & 1 == 1 && (1 | fb) == (fb | 1)) by (bit_vector);
        assert(a % 4096 == 0 && a < PHYSICAL_LIMIT ==> a & table::ADDRESS_MASK == a)
            by (bit_vector);
        assert(entry_present(e));
        assert(entry_address(e) == a);
        assert forall|w: u64|
            #![trigger root.spec_translate(w)]
            page_number(w) != page_number(address.0) implies root.spec_translate(w)
            == old(root).spec_translate(w) by {
            assert(mid.spec_translate(w) == old(root).spec_translate(w));
        }
    }
    Ok(())
}

/// Unmaps the page mapped at `address` and returns its frame, which the
/// caller frees if needed. The caller flushes the TLB entry of `address` on
/// success.
pub fn unmap(root: &mut PageTableRoot, address: Virtual) -> (r: Result<Frame, UnmapError>)
    requires
        old(root).wf(),
    ensures
        final(root).wf(),
        unmap_outcome(*old(root), *final(root), address.0, r),
{
    let t = match root.fetch_last_entry(address, FetchBehavior::Reach) {
        Ok(t) => t,
        Err(_) => {
            return Err(UnmapError::NotMapped);
        },
    };
    let idx = address.page_index(1);
    let mut pte = root.read_entry(t, idx);
    assert(leaf_entry(root.words(), address.0) == Some(pte.0));
    let ghost ev = pte.0;
    if let Some(physical) = pte.address() {
        assert((ev & table::ADDRESS_MASK) % 4096 == 0) by (bit_vector);
        pte.clear();
        root.write_leaf(address, t, pte);
        proof {
            assert(!entry_present(0u64)) by (bit_vector);

        }
        return Ok(Frame::new(physical));
    }
    Err(UnmapError::NotMapped)
}

/// Resolves a virtual address to the physical address it is mapped to, if
/// any: the frame of its page plus its offset in the page.
pub fn resolve(root: &PageTableRoot, address: Virtual) -> (r: Option<Physical>)
    requires
        root.wf(),
    ensures
        match r {
            Some(p) => spec_resolve(*root, address.0) == Some(p.0),
            None => spec_resolve(*root, address.0) is None,
        },
{
    match root.reach_last_table(address) {
        None => None,
        Some(t) => {
            let idx = address.page_index(1);
            let pte = root.read_entry(t, idx);
            assert(leaf_entry(root.words(), address.0) == Some(pte.0));
            match pte.address() {
                None => None,
                Some(addr) => {
                    let ev = pte.0;
                    assert(ev & table::ADDRESS_MASK <= 0x000F_FFFF_FFFF_F000) by (bit_vector);
                    Some(Physical::new(addr.0 + address.page_offset()))
                },
            }
        },
    }
}

/// Once a frame is mapped at `v`, every address of the page of `v` resolves
/// into that frame, at its offset in the page.
pub proof fn law_map_then_resolve(
    a: PageTableRoot,
    b: PageTableRoot,
    v: u64,
    frame: u64,
    flags: u64,
    w: u64,
)
    requires
        map_outcome(a, b, v, frame, flags, Ok(())),
        page_number(w) == page_number(v),
    ensures
        spec_resolve(b, w) == Some((frame + w % 4096) as u64),
{
    lemma_same_page_same_translation(b.words(), v, w);
}

/// Unmapping a page that was just mapped gives its frame back and restores
/// every translation as it was before the mapping.
pub proof fn law_unmap_undoes_map(
    a: PageTableRoot,
    b: PageTableRoot,
    c: PageTableRoot,
    v: u64,
    frame: u64,
    flags: u64,
    r: Result<Frame, UnmapError>,
)
    requires
        map_outcome(a, b, v, frame, flags, Ok(())),
        unmap_outcome(b, c, v, r),
    ensures
        r == Ok::<Frame, UnmapError>(Frame(Physical(frame))),
        forall|w: u64| #[trigger] c.spec_translate(w) == a.spec_translate(w),
{
    assert forall|w: u64| #[trigger] c.spec_translate(w) == a.spec_translate(w) by {
        if page_number(w) == page_number(v) {
            lemma_same_page_same_translation(a.words(), v, w);
            lemma_same_page_same_translation(c.words(), v, w);
        } else {
            assert(b.spec_translate(w) == a.spec_translate(w));
        }
    }
}

/// Mapping an address a second time fails, whatever the frame, and changes
/// no translation.
pub proof fn law_map_twice(
    a: PageTableRoot,
    b: PageTableRoot,
    c: PageTableRoot,
    v: u64,
    frame: u64,
    flags: u64,
    frame2: u64,
    flags2: u64,
    r: Result<(), MapError>,
)
    requires
        map_outcome(a, b, v, frame, flags, Ok(())),
        map_outcome(b, c, v, frame2, flags2, r),
    ensures
        r == Err::<(), MapError>(MapError::AlreadyMapped),
        forall|w: u64| #[trigger] c.spec_translate(w) == b.spec_translate(w),
{
}

/// Unmapping an address that is not mapped fails and changes no
/// translation.
pub proof fn law_unmap_unmapped(
    a: PageTableRoot,
    b: PageTableRoot,
    v: u64,
    r: Result<Frame, UnmapError>,
)
    requires
        unmap_outcome(a, b, v, r),
        a.spec_translate(v) is None,
    ensures
        r == Err::<Frame, UnmapError>(UnmapError::NotMapped),
        forall|w: u64| #[trigger] b.spec_translate(w) == a.spec_translate(w),
{
    assert forall|w: u64| #[trigger] b.spec_translate(w) == a.spec_translate(w) by {
        if page_number(w) == page_number(v) {
            lemma_same_page_same_translation(a.words(), v, w);
            lemma_same_page_same_translation(b.words(), v, w);
        }
    }
}

/// What the page fault handler does.
#[derive(Clone, Copy, PartialEq, Eq, Structural, Debug)]
pub enum PageFaultAction {
    /// Bring the page in for the process; the fault is fatal if that fails.
    PageIn,
    /// The fault cannot be recovered from: the kernel panics.
    Unrecoverable,
}

/// Decides what to do with a page fault at `addr`: a fault in a kernel
/// thread, on a kernel address, or on a page that is present, cannot be
/// recovered from; otherwise the page is brought in.
pub fn page_fault_action(kernel_thread: bool, addr: Virtual, code: table::PageFaultErrorCode) -> (r:
    PageFaultAction)
    ensures
        r == (if !kernel_thread && addr.0 < 0x0000_8000_0000_0000 && code.spec_bits() & 0x1 == 0 {
            PageFaultAction::PageIn
        } else {
            PageFaultAction::Unrecoverable
        }),
{
    if kernel_thread {
        return PageFaultAction::Unrecoverable;
    }
    if addr.is_user() && !code.present() {
        PageFaultAction::PageIn
    } else {
        PageFaultAction::Unrecoverable
    }
}

} // verus!
