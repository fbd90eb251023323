//! Page table entries, page tables and the flags that they carry.
use vstd::prelude::*;
use crate::address::{Physical, Virtual, spec_page_index};

verus! {

/// The bits of a page table entry that hold the physical address.
pub const ADDRESS_MASK: u64 = 0x000F_FFFF_FFFF_F000;

/// The bits of a page table entry that hold flags.
pub const FLAGS_MASK: u64 = 0xFFF0_0000_0000_0FFF;

/// The address held by an entry's raw value.
pub open spec fn entry_address(e: u64) -> u64 {
    e & ADDRESS_MASK
}

/// The flags held by an entry's raw value.
pub open spec fn entry_flags(e: u64) -> u64 {
    e & FLAGS_MASK
}

/// Whether an entry's raw value has the `PRESENT` bit set.
pub open spec fn entry_present(e: u64) -> bool {
    e & 1 == 1
}

/// The flags are outside the address bits, and a clear entry is not
/// present.
proof fn lemma_flag_constants()
    by (bit_vector)
    ensures
        0x1u64 & ADDRESS_MASK == 0,
        0x2u64 & ADDRESS_MASK == 0,
        0x4u64 & ADDRESS_MASK == 0,
        0x8u64 & ADDRESS_MASK == 0,
        0x10u64 & ADDRESS_MASK == 0,
        0x20u64 & ADDRESS_MASK == 0,
        0x40u64 & ADDRESS_MASK == 0,
        0x80u64 & ADDRESS_MASK == 0,
        0x100u64 & ADDRESS_MASK == 0,
        0x8000_0000_0000_0000u64 & ADDRESS_MASK == 0,
        0u64 & ADDRESS_MASK == 0,
        0u64 & 1 != 1,
{
}

/// A flag bit of an entry is set in its flags exactly when it is set in the
/// entry.
proof fn lemma_flag_bits(e: u64)
    by (bit_vector)
    ensures
        (e & FLAGS_MASK) & 1 == e & 1,
        ((e & FLAGS_MASK) & 0x8000_0000_0000_0000 == 0x8000_0000_0000_0000) == (e
            & 0x8000_0000_0000_0000 != 0),
        ((e & FLAGS_MASK) & 0x2 == 0x2) == (e & 0x2 != 0),
        ((e & FLAGS_MASK) & 0x40 == 0x40) == (e & 0x40 != 0),
        ((e & FLAGS_MASK) & 0x20 == 0x20) == (e & 0x20 != 0),
        ((e & FLAGS_MASK) & 0x4 == 0x4) == (e & 0x4 != 0),
{
}

/// Replacing the address of an entry keeps its flags; changing its flags
/// keeps its address.
proof fn lemma_entry_update(e: u64, a: u64, f: u64)
    by (bit_vector)
    ensures
        ((e & !ADDRESS_MASK) | (a & ADDRESS_MASK)) & ADDRESS_MASK == a & ADDRESS_MASK,
        ((e & !ADDRESS_MASK) | (a & ADDRESS_MASK)) & FLAGS_MASK == e & FLAGS_MASK,
        (e & ADDRESS_MASK) & ADDRESS_MASK == e & ADDRESS_MASK,
        f & ADDRESS_MASK == 0 ==> (e & !f) & ADDRESS_MASK == e & ADDRESS_MASK,
        f & ADDRESS_MASK == 0 ==> (e & !f) & FLAGS_MASK == (e & FLAGS_MASK) & !f,
        f & ADDRESS_MASK == 0 ==> (e | f) & ADDRESS_MASK == e & ADDRESS_MASK,
        f & ADDRESS_MASK == 0 ==> (e | f) & FLAGS_MASK == (e & FLAGS_MASK) | f,
        (e & ADDRESS_MASK) >> 12u64 == (e & ADDRESS_MASK) / 4096,
{
}

/// The entry of a new table is present and holds the table's address.
proof fn lemma_new_table_entry(e: u64, f: u64, before: u64, table_addr: u64)
    by (bit_vector)
    ensures
        f == before | 1 ==> f & 1 == 1,
        e & FLAGS_MASK == f ==> (f & 1 == 1 ==> e & 1 == 1),
        table_addr % 4096 == 0 && table_addr < 0x1_0000_0000_0000 ==> table_addr & ADDRESS_MASK
            == table_addr,
{
}

/// The flags of a page table entry (see Intel Vol. 3A, Section 4.5). No flag
/// ever lies in the address bits 12 to 51 of an entry.
#[derive(Clone, Copy, PartialEq, Eq, Structural, Debug)]
pub struct PageEntryFlags {
    bits: u64,
}

impl PageEntryFlags {
    /// The page is present in memory.
    pub fn present() -> (r: Self)
        ensures
            r.spec_bits() == 0x1,
            r.wf(),
    {
        proof {
            lemma_flag_constants();
        }
        Self { bits: 0x1 }
    }
    /// The page is writable.
    pub fn writable() -> (r: Self)
        ensures
            r.spec_bits() == 0x2,
            r.wf(),
    {
        proof {
            lemma_flag_constants();
        }
        Self { bits: 0x2 }
    }
    /// The page is accessible from user mode.
    pub fn user() -> (r: Self)
        ensures
            r.spec_bits() == 0x4,
            r.wf(),
    {
        proof {
            lemma_flag_constants();
        }
        Self { bits: 0x4 }
    }
    /// Write-through caching.
    pub fn write_through() -> (r: Self)
        ensures
            r.spec_bits() == 0x8,
            r.wf(),
    {
        proof {
            lemma_flag_constants();
        }
        Self { bits: 0x8 }
    }
    /// The page is not cached.
    pub fn no_cache() -> (r: Self)
        ensures
            r.spec_bits() == 0x10,
            r.wf(),
    {
        proof {
            lemma_flag_constants();
        }
        Self { bits: 0x10 }
    }
    /// The page has been accessed.
    pub fn accessed() -> (r: Self)
        ensures
            r.spec_bits() == 0x20,
            r.wf(),
    {
        proof {
            lemma_flag_constants();
        }
        Self { bits: 0x20 }
    }
    /// The page has been written to.
    pub fn dirty() -> (r: Self)
        ensures
            r.spec_bits() == 0x40,
            r.wf(),
    {
        proof {
            lemma_flag_constants();
        }
        Self { bits: 0x40 }
    }
    /// The entry maps a huge page.
    pub fn huge_page() -> (r: Self)
        ensures
            r.spec_bits() == 0x80,
            r.wf(),
    {
        proof {
            lemma_flag_constants();
        }
        Self { bits: 0x80 }
    }
    /// The page is global.
    pub fn global() -> (r: Self)
        ensures
            r.spec_bits() == 0x100,
            r.wf(),
    {
        proof {
            lemma_flag_constants();
        }
        Self { bits: 0x100 }
    }
    /// The page is not executable.
    pub fn no_execute() -> (r: Self)
        ensures
            r.spec_bits() == 0x8000_0000_0000_0000,
            r.wf(),
    {
        proof {
            lemma_flag_constants();
        }
        Self { bits: 0x8000_0000_0000_0000 }
    }

    pub closed spec fn spec_bits(self) -> u64 {
        self.bits
    }

    /// Every value of this type keeps its bits out of the address bits.
    pub closed spec fn wf(self) -> bool {
        self.bits & ADDRESS_MASK == 0
    }

    /// The empty set of flags.
    pub fn empty() -> (r: Self)
        ensures
            r.spec_bits() == 0,
            r.wf(),
    {
        proof {
            lemma_flag_constants();
        }
        Self { bits: 0 }
    }

    /// Builds flags from raw bits, dropping the bits that are not flags.
    pub fn from_bits_truncate(bits: u64) -> (r: Self)
        ensures
            r.spec_bits() == bits & FLAGS_MASK,
            r.wf(),
    {
        assert((bits & FLAGS_MASK) & ADDRESS_MASK == 0) by (bit_vector);
        Self { bits: bits & FLAGS_MASK }
    }

    /// Returns the raw bits of the flags.
    pub fn bits(&self) -> (r: u64)
        ensures
            r == self.spec_bits(),
    {
        self.bits
    }

    /// Returns `true` if all the flags of `other` are set in `self`.
    pub fn contains(&self, other: Self) -> (r: bool)
        ensures
            r == (self.spec_bits() & other.spec_bits() == other.spec_bits()),
    {
        self.bits & other.bits == other.bits
    }

    /// Returns the union of the two sets of flags.
    pub fn union(self, other: Self) -> (r: Self)
        requires
            self.wf(),
            other.wf(),
        ensures
            r.spec_bits() == self.spec_bits() | other.spec_bits(),
            r.wf(),
    {
        let a = self.bits;
        let b = other.bits;
        assert(a & ADDRESS_MASK == 0 && b & ADDRESS_MASK == 0 ==> (a | b) & ADDRESS_MASK == 0)
            by (bit_vector);
        Self { bits: a | b }
    }
}


/// The error code pushed on the stack by the CPU when a page fault occurs,
/// which tells the cause of the fault.
#[derive(Clone, Copy, PartialEq, Eq, Structural, Debug)]
pub struct PageFaultErrorCode {
    bits: u64,
}

impl PageFaultErrorCode {
    /// The raw bits of the error code.
    pub closed spec fn spec_bits(self) -> u64 {
        self.bits
    }

    /// Keeps the five meaningful bits of a raw error code.
    pub fn from_bits_truncate(bits: u64) -> (r: Self)
        ensures
            r.spec_bits() == bits & 0x1F,
    {
        Self { bits: bits & 0x1F }
    }

    /// The fault was caused by a protection violation on a present page (the
    /// fault was caused by a non-present page when this bit is clear).
    pub fn present(&self) -> (r: bool)
        ensures
            r == (self.spec_bits() & 0x1 != 0),
    {
        self.bits & 0x1 != 0
    }

    /// The fault was caused by a write access.
    pub fn write_access(&self) -> (r: bool)
        ensures
            r == (self.spec_bits() & 0x2 != 0),
    {
        self.bits & 0x2 != 0
    }

    /// The fault happened while the CPU was in user mode.
    pub fn cpu_user_mode(&self) -> (r: bool)
        ensures
            r == (self.spec_bits() & 0x4 != 0),
    {
        self.bits & 0x4 != 0
    }

    /// The fault was caused by a malformed table entry.
    pub fn malformed_table(&self) -> (r: bool)
        ensures
            r == (self.spec_bits() & 0x8 != 0),
    {
        self.bits & 0x8 != 0
    }

    /// The fault was caused by an instruction fetch.
    pub fn instruction_fetch(&self) -> (r: bool)
        ensures
            r == (self.spec_bits() & 0x10 != 0),
    {
        self.bits & 0x10 != 0
    }
}

/// How a walk of the page table hierarchy treats a missing table.
#[derive(Clone, Copy, PartialEq, Eq, Structural, Debug)]
pub enum FetchBehavior {
    /// Allocate a new table for a missing entry and go on.
    Allocate,
    /// Stop with an error at a missing entry.
    Reach,
}

/// Why a walk of the page table hierarchy stopped.
#[derive(Clone, Copy, PartialEq, Eq, Structural, Debug)]
pub enum FetchError {
    /// The entry was not present in the page table.
    NoSuchEntry,
    /// A table could not be allocated.
    OutOfMemory,
}

/// A page table entry: a physical address in bits 12 to 51 and flags in the
/// other bits.
#[derive(Clone, Copy, PartialEq, Eq, Structural, Debug)]
pub struct PageEntry(pub u64);

impl PageEntry {
    /// The entry whose bits are all clear.
    pub fn empty() -> (r: Self)
        ensures
            r.0 == 0,
    {
        PageEntry(0)
    }

    /// Creates an entry with the given page aligned address and flags.
    pub fn new(addr: Physical, flags: PageEntryFlags) -> (r: Self)
        requires
            addr.0 % 4096 == 0,
            flags.wf(),
        ensures
            r.0 == (addr.0 & ADDRESS_MASK) | flags.spec_bits(),
            entry_address(r.0) == addr.0 & ADDRESS_MASK,
            entry_flags(r.0) == flags.spec_bits(),
    {
        let a = addr.0;
        let f = flags.bits();
        proof {
            lemma_compose(a, f);
        }
        PageEntry((a & ADDRESS_MASK) | f)
    }

    /// Sets the address of the entry, keeping its flags.
    pub fn set_address(&mut self, addr: Physical)
        requires
            addr.0 % 4096 == 0,
        ensures
            final(self).0 == (old(self).0 & !ADDRESS_MASK) | (addr.0 & ADDRESS_MASK),
            entry_address(final(self).0) == addr.0 & ADDRESS_MASK,
            entry_flags(final(self).0) == entry_flags(old(self).0),
    {
        let e = self.0;
        let a = addr.0;
        proof {
            lemma_entry_update(e, a, 0);
        }
        self.0 = (e & !ADDRESS_MASK) | (a & ADDRESS_MASK);
    }

    /// Replaces the flags of the entry, keeping its address.
    pub fn set_flags(&mut self, flags: PageEntryFlags)
        requires
            flags.wf(),
        ensures
            final(self).0 == (old(self).0 & ADDRESS_MASK) | flags.spec_bits(),
            entry_address(final(self).0) == entry_address(old(self).0),
            entry_flags(final(self).0) == flags.spec_bits(),
    {
        let e = self.0;
        let f = flags.bits();
        proof {
            lemma_compose(e, f);
            lemma_entry_update(e, 0, f);
        }
        self.0 = (e & ADDRESS_MASK) | f;
    }

    /// Clears the given flags of the entry, keeping its address.
    pub fn clear_flags(&mut self, flags: PageEntryFlags)
        requires
            flags.wf(),
        ensures
            final(self).0 == old(self).0 & !flags.spec_bits(),
            entry_address(final(self).0) == entry_address(old(self).0),
            entry_flags(final(self).0) == entry_flags(old(self).0) & !flags.spec_bits(),
    {
        let e = self.0;
        let f = flags.bits();
        proof {
            lemma_entry_update(e, 0, f);
        }
        self.0 = e & !f;
    }

    /// Adds the given flags to the entry, keeping its address.
    pub fn add_flags(&mut self, flags: PageEntryFlags)
        requires
            flags.wf(),
        ensures
            final(self).0 == old(self).0 | flags.spec_bits(),
            entry_address(final(self).0) == entry_address(old(self).0),
            entry_flags(final(self).0) == entry_flags(old(self).0) | flags.spec_bits(),
    {
        let e = self.0;
        let f = flags.bits();
        proof {
            lemma_entry_update(e, 0, f);
        }
        self.0 = e | f;
    }

    /// Returns the flags of this entry.
    pub fn flags(&self) -> (r: PageEntryFlags)
        ensures
            r.spec_bits() == entry_flags(self.0),
            r.wf(),
    {
        PageEntryFlags::from_bits_truncate(self.0)
    }

    /// Returns `true` if the page is present in memory.
    pub fn present(&self) -> (r: bool)
        ensures
            r == entry_present(self.0),
    {
        let e = self.0;
        proof {
            lemma_flag_bits(e);
        }
        self.flags().contains(PageEntryFlags::present())
    }

    /// Returns `true` if the page is executable.
    pub fn executable(&self) -> (r: bool)
        ensures
            r == (self.0 & 0x8000_0000_0000_0000 == 0),
    {
        let e = self.0;
        proof {
            lemma_flag_bits(e);
        }
        !self.flags().contains(PageEntryFlags::no_execute())
    }

    /// Returns `true` if the page is writable.
    pub fn writable(&self) -> (r: bool)
        ensures
            r == (self.0 & 0x2 != 0),
    {
        let e = self.0;
        proof {
            lemma_flag_bits(e);
        }
        self.flags().contains(PageEntryFlags::writable())
    }

    /// Returns `true` if the page has been written to.
    pub fn dirty(&self) -> (r: bool)
        ensures
            r == (self.0 & 0x40 != 0),
    {
        let e = self.0;
        proof {
            lemma_flag_bits(e);
        }
        self.flags().contains(PageEntryFlags::dirty())
    }

    /// Returns `true` if the page has been accessed.
    pub fn accessed(&self) -> (r: bool)
        ensures
            r == (self.0 & 0x20 != 0),
    {
        let e = self.0;
        proof {
            lemma_flag_bits(e);
        }
        self.flags().contains(PageEntryFlags::accessed())
    }

    /// Returns `true` if the page is not accessible from user mode.
    pub fn kernel(&self) -> (r: bool)
        ensures
            r == (self.0 & 0x4 == 0),
    {
        !self.user()
    }

    /// Returns `true` if the page is accessible from user mode.
    pub fn user(&self) -> (r: bool)
        ensures
            r == (self.0 & 0x4 != 0),
    {
        let e = self.0;
        proof {
            lemma_flag_bits(e);
        }
        self.flags().contains(PageEntryFlags::user())
    }

    /// Clears the entry: the page is no longer present.
    pub fn clear(&mut self)
        ensures
            final(self).0 == 0,
    {
        self.0 = 0;
    }

    /// Returns the physical address held by the entry if it is present.
    pub fn address(&self) -> (r: Option<Physical>)
        ensures
            r == (if entry_present(self.0) {
                Some(Physical(entry_address(self.0)))
            } else {
                None
            }),
    {
        if self.present() {
            Some(Physical::new(self.0 & ADDRESS_MASK))
        } else {
            None
        }
    }
}

/// Joining an address and flags keeps both apart.
proof fn lemma_compose(a: u64, f: u64)
    requires
        f & ADDRESS_MASK == 0,
    ensures
        ((a & ADDRESS_MASK) | f) & ADDRESS_MASK == a & ADDRESS_MASK,
        ((a & ADDRESS_MASK) | f) & FLAGS_MASK == f,
{
    assert(f & ADDRESS_MASK == 0 ==> ((a & ADDRESS_MASK) | f) & ADDRESS_MASK == a & ADDRESS_MASK
        && ((a & ADDRESS_MASK) | f) & FLAGS_MASK == f) by (bit_vector);
}

/// A page table: 512 entries that point either to tables of the next level or
/// to pages.
pub struct PageTable(pub [PageEntry; 512]);

impl PageTable {
    /// The number of entries of a page table.
    pub const COUNT: usize = 512;

    /// Creates a table whose entries are all clear.
    pub fn empty() -> (r: Self)
        ensures
            forall|i: int| 0 <= i < 512 ==> (#[trigger] r.0[i]).0 == 0,
    {
        let mut t = PageTable([PageEntry(0); 512]);
        t.clear();
        t
    }

    /// Clears every entry of the table.
    pub fn clear(&mut self)
        ensures
            forall|i: int| 0 <= i < 512 ==> (#[trigger] final(self).0[i]).0 == 0,
    {
        let mut i: usize = 0;
        while i < 512
            invariant
                i <= 512,
                forall|j: int| 0 <= j < i ==> (#[trigger] self.0[j]).0 == 0,
            decreases 512 - i,
        {
            self.0[i] = PageEntry(0);
            i = i + 1;
        }
    }

    /// Clears the entries of the user half of the table: the first 256.
    pub fn clear_userspace(&mut self)
        ensures
            forall|i: int| 0 <= i < 256 ==> (#[trigger] final(self).0[i]).0 == 0,
            forall|i: int| 256 <= i < 512 ==> #[trigger] final(self).0[i] == old(self).0[i],
    {
        let mut i: usize = 0;
        while i < 256
            invariant
                i <= 256,
                forall|j: int| 0 <= j < i ==> (#[trigger] self.0[j]).0 == 0,
                forall|j: int| 256 <= j < 512 ==> #[trigger] self.0[j] == old(self).0[j],
            decreases 256 - i,
        {
            self.0[i] = PageEntry(0);
            i = i + 1;
        }
    }

    /// The first entry of the kernel half of the table (the last 256), from
    /// `from` on, that is not present.
    pub fn next_missing_kernel_entry(&self, from: usize) -> (r: Option<usize>)
        requires
            256 <= from <= 512,
        ensures
            match r {
                Some(i) => from <= i < 512 && !entry_present(self.0[i as int].0) && forall|j: int|
                    from <= j < i ==> entry_present(#[trigger] self.0[j].0),
                None => forall|j: int| from <= j < 512 ==> entry_present(#[trigger] self.0[j].0),
            },
    {
        let mut i = from;
        while i < 512
            invariant
                from <= i <= 512,
                forall|j: int| from <= j < i ==> entry_present(#[trigger] self.0[j].0),
            decreases 512 - i,
        {
            if !self.0[i].present() {
                return Some(i);
            }
            i = i + 1;
        }
        None
    }

    /// Writes the entry at the given index.
    pub fn set_entry(&mut self, index: usize, entry: PageEntry)
        requires
            index < 512,
        ensures
            final(self).0@ == old(self).0@.update(index as int, entry),
    {
        self.0[index] = entry;
    }

    /// Returns `true` if no entry of the table is present.
    pub fn is_empty(&self) -> (r: bool)
        ensures
            r == (forall|i: int| 0 <= i < 512 ==> !entry_present(#[trigger] self.0[i].0)),
    {
        let mut i: usize = 0;
        while i < 512
            invariant
                i <= 512,
                forall|j: int| 0 <= j < i ==> !entry_present(#[trigger] self.0[j].0),
            decreases 512 - i,
        {
            if self.0[i].present() {
                return false;
            }
            i = i + 1;
        }
        true
    }
}


/// The most tables that a page table hierarchy may hold.
pub const MAX_TABLES: usize = 0x10_0000;

/// The word at index `i` of the table stored in frame `t`.
pub open spec fn word(ws: Seq<u64>, t: int, i: int) -> u64 {
    ws[t * 512 + i]
}

/// The frame number of the table an entry points to.
pub open spec fn child(e: u64) -> int {
    (entry_address(e) / 4096) as int
}

/// The index, in the table at depth `d` (0 for the PML4), of the entry that
/// translates the virtual address `v`.
pub open spec fn index_at(v: u64, d: nat) -> int {
    spec_page_index(v, (4 - d) as nat) as int
}

/// The indices that lead from the PML4 to the table at depth `d` on the way
/// of the virtual address `v`.
pub open spec fn indices(v: u64, d: nat) -> Seq<u64> {
    Seq::new(d, |k: int| spec_page_index(v, (4 - k) as nat))
}

/// The page number of a virtual address: the bits 12 to 47 that the four
/// levels of tables translate.
pub open spec fn page_number(v: u64) -> u64 {
    (v >> 12u64) & 0xF_FFFF_FFFF
}

/// The frame number of the table met at depth `d` when translating `v`, if
/// the walk gets that far. The PML4 is the table of frame 0.
pub open spec fn path_table(ws: Seq<u64>, v: u64, d: nat) -> Option<int>
    decreases d,
{
    if d == 0 {
        Some(0)
    } else {
        match path_table(ws, v, (d - 1) as nat) {
            Some(t) => {
                let e = word(ws, t, index_at(v, (d - 1) as nat));
                if entry_present(e) {
                    Some(child(e))
                } else {
                    None
                }
            },
            None => None,
        }
    }
}

/// The raw PT entry that translates `v`, if the walk reaches a PT.
pub open spec fn leaf_entry(ws: Seq<u64>, v: u64) -> Option<u64> {
    match path_table(ws, v, 3) {
        Some(t) => Some(word(ws, t, index_at(v, 3))),
        None => None,
    }
}

/// The physical address of the page that `v` is mapped to, if any.
pub open spec fn translate(ws: Seq<u64>, v: u64) -> Option<u64> {
    match leaf_entry(ws, v) {
        Some(e) => if entry_present(e) {
            Some(entry_address(e))
        } else {
            None
        },
        None => None,
    }
}

/// The frames that freeing the first `n` entries of the table of frame `t`,
/// met at depth `d` (0 for the PML4), gives back, in the order in which they
/// are freed: for a present entry of a PT, the page that it maps; for a
/// present entry of an upper table, what freeing the whole table that it
/// points to gives back, followed by the frame of that table.
pub open spec fn released(ws: Seq<u64>, t: int, d: nat, n: nat) -> Seq<u64>
    decreases 3 - d, n,
{
    if n == 0 {
        Seq::empty()
    } else {
        let e = word(ws, t, n - 1);
        let before = released(ws, t, d, (n - 1) as nat);
        if !entry_present(e) {
            before
        } else if d >= 3 {
            before.push(entry_address(e))
        } else {
            before + released(ws, child(e), d + 1, 512).push((child(e) * 4096) as u64)
        }
    }
}

/// Freeing the first `n` entries of a table gives back the page of each
/// present PT entry among them, and everything that freeing the table of each
/// present upper entry among them gives back.
pub proof fn lemma_released_entry(ws: Seq<u64>, t: int, d: nat, n: nat, i: int)
    requires
        0 <= i < n,
        entry_present(word(ws, t, i)),
    ensures
        d >= 3 ==> released(ws, t, d, n).contains(entry_address(word(ws, t, i))),
        d < 3 ==> forall|x: u64|
            released(ws, child(word(ws, t, i)), d + 1, 512).contains(x) ==> #[trigger] released(
                ws,
                t,
                d,
                n,
            ).contains(x),
    decreases n,
{
    let m = (n - 1) as nat;
    let before = released(ws, t, d, m);
    let all = released(ws, t, d, n);
    if i < m {
        lemma_released_entry(ws, t, d, m, i);
        let e = word(ws, t, m as int);
        assert forall|x: u64| before.contains(x) implies all.contains(x) by {
            let k = choose|k: int| 0 <= k < before.len() && before[k] == x;
            if entry_present(e) && d >= 3 {
                assert(before.push(entry_address(e))[k] == x);
            } else if entry_present(e) {
                let sub = released(ws, child(e), d + 1, 512).push((child(e) * 4096) as u64);
                assert((before + sub)[k] == x);
            }
        }
        if d < 3 {
            assert forall|x: u64|
                released(ws, child(word(ws, t, i)), d + 1, 512).contains(x) implies all.contains(
                x,
            ) by {
                assert(before.contains(x));
            }
        }
    } else {
        let e = word(ws, t, i);
        if d >= 3 {
            assert(all.last() == entry_address(e));
        } else {
            let sub = released(ws, child(e), d + 1, 512);
            assert forall|x: u64| sub.contains(x) implies all.contains(x) by {
                let k = choose|k: int| 0 <= k < sub.len() && sub[k] == x;
                assert(all[before.len() + k] == x);
            }
        }
    }
}

/// The flags that the entry `e` of a table made for the address `v` has:
/// present, writable, so that the pages below may be writable, and user
/// accessible for an address of the user half.
pub open spec fn new_table_entry(e: u64, v: u64) -> bool {
    &&& entry_present(e)
    &&& e & 2 != 0
    &&& v < 0x0000_8000_0000_0000 ==> e & 4 != 0
}

/// The flags that an entry with the flags `before` gets when a table is
/// made for it, for the address `v`: `PRESENT` and `WRITABLE`, and `USER`
/// exactly for an address of the user half.
pub open spec fn new_table_flags(before: u64, v: u64) -> u64 {
    ((before | (if v < 0x0000_8000_0000_0000 { 4u64 } else { 0u64 })) | 2) | 1
}

/// The walk of `v` gets to depth `d`, and the entry it meets there has the
/// flags of an entry made for `v`.
pub open spec fn made_entry(ws: Seq<u64>, v: u64, d: nat) -> bool {
    match walk_entry(ws, v, d) {
        Some(e) => new_table_entry(e, v),
        None => false,
    }
}

/// The entry at depth `d` of the walk of `v`, if the walk gets there.
pub open spec fn walk_entry(ws: Seq<u64>, v: u64, d: nat) -> Option<u64> {
    match path_table(ws, v, d) {
        Some(t) => Some(word(ws, t, index_at(v, d))),
        None => None,
    }
}

/// How many tables a mapping of `v` still has to allocate.
pub open spec fn missing_tables(ws: Seq<u64>, v: u64) -> nat {
    if path_table(ws, v, 3) is Some {
        0
    } else if path_table(ws, v, 2) is Some {
        1
    } else if path_table(ws, v, 1) is Some {
        2
    } else {
        3
    }
}

/// The tables of `ws`, whose prefixes are `ps`, are well formed: every table
/// is reached from the PML4 (frame 0) by the single way that its prefix
/// records, and the tables of the three upper levels only point to allocated
/// tables.
pub open spec fn tables_wf(ws: Seq<u64>, ps: Seq<Seq<u64>>, max: nat) -> bool {
    let n = ws.len() / 512;
    &&& ws.len() % 512 == 0
    &&& 1 <= n <= max <= MAX_TABLES
    &&& ps.len() == n
    &&& ps[0] == Seq::<u64>::empty()
    &&& forall|t: int| 0 <= t < n ==> (#[trigger] ps[t]).len() <= 3
    &&& forall|t: int, i: int|
        #![trigger word(ws, t, i)]
        0 <= t < n && 0 <= i < 512 && ps[t].len() < 3 && entry_present(word(ws, t, i)) ==> {
            &&& 0 <= child(word(ws, t, i)) < n
            &&& ps[child(word(ws, t, i))] == ps[t].push(i as u64)
        }
}

/// The path of a walk only meets tables whose prefix is made of the indices
/// of the walked address.
pub proof fn lemma_path_prefix(ws: Seq<u64>, ps: Seq<Seq<u64>>, max: nat, v: u64, d: nat)
    requires
        tables_wf(ws, ps, max),
        d <= 3,
        path_table(ws, v, d) is Some,
    ensures
        0 <= path_table(ws, v, d)->0 < ws.len() / 512,
        ps[path_table(ws, v, d)->0] == indices(v, d),
    decreases d,
{
    if d == 0 {
        assert(indices(v, 0) =~= Seq::<u64>::empty());
    } else {
        let dp = (d - 1) as nat;
        lemma_path_prefix(ws, ps, max, v, dp);
        let t = path_table(ws, v, dp)->0;
        let i = index_at(v, dp);
        lemma_index_bound(v, dp);
        assert(indices(v, d) =~= indices(v, dp).push(i as u64));
    }
}

/// A walk that did not reach a depth does not reach any deeper one.
pub proof fn lemma_path_stops(ws: Seq<u64>, v: u64, d: nat, k: nat)
    requires
        d <= k,
        path_table(ws, v, d) is None,
    ensures
        path_table(ws, v, k) is None,
    decreases k - d,
{
    if d < k {
        lemma_path_stops(ws, v, d, (k - 1) as nat);
    }
}

/// A walk that gets to depth `k` leaves at most `3 - k` tables to make.
proof fn lemma_missing_bound(ws: Seq<u64>, v: u64, k: nat)
    requires
        k <= 3,
        path_table(ws, v, k) is Some,
    ensures
        missing_tables(ws, v) <= 3 - k,
{
    if k >= 1 && path_table(ws, v, 1) is None {
        lemma_path_stops(ws, v, 1, k);
    }
    if k >= 2 && path_table(ws, v, 2) is None {
        lemma_path_stops(ws, v, 2, k);
    }
}

/// The walk gets to the depth below which `missing_tables` counts.
proof fn lemma_missing_reached(ws: Seq<u64>, v: u64)
    ensures
        path_table(ws, v, (3 - missing_tables(ws, v)) as nat) is Some,
{
    assert(path_table(ws, v, 0) == Some(0int));
}

/// Making the table at depth `d` of the walk of `v` keeps the entries met
/// higher on that walk.
proof fn lemma_grow_keeps_walk_entry(
    ws: Seq<u64>,
    ps: Seq<Seq<u64>>,
    max: nat,
    t: int,
    e: u64,
    v: u64,
    d: nat,
    d2: nat,
)
    requires
        tables_wf(ws, ps, max),
        d < 3,
        d2 < d,
        path_table(ws, v, d) == Some(t),
        !entry_present(word(ws, t, index_at(v, d))),
        entry_present(e),
        child(e) == ws.len() / 512,
    ensures
        walk_entry(grown(ws, t, index_at(v, d), e), v, d2) == walk_entry(ws, v, d2),
{
    let i = index_at(v, d);
    let g = grown(ws, t, i, e);
    lemma_index_bound(v, d);
    lemma_index_bound(v, d2);
    lemma_path_prefix(ws, ps, max, v, d);
    if path_table(ws, v, d2) is None {
        lemma_path_stops(ws, v, d2, d);
    }
    lemma_path_prefix(ws, ps, max, v, d2);
    lemma_grow_path(ws, ps, max, t, i, e, v, d2);
    let t2 = path_table(ws, v, d2)->0;
    assert(ps[t2].len() == d2 && ps[t].len() == d);
    assert(t2 != t);
    let i2 = index_at(v, d2);
    assert(g[t2 * 512 + i2] == ws[t2 * 512 + i2]);
}

/// The number of missing tables of a walk that stops after depth `d`.
pub proof fn lemma_missing(ws: Seq<u64>, v: u64, d: nat)
    requires
        d <= 3,
        path_table(ws, v, d) is Some,
        d == 3 || path_table(ws, v, d + 1) is None,
    ensures
        missing_tables(ws, v) == 3 - d,
{
    if d < 3 {
        lemma_path_stops(ws, v, d + 1, 3);
        if d + 1 <= 2 {
            lemma_path_stops(ws, v, d + 1, 2);
        }
    }
}

/// Writing an entry of a PT changes no walk.
proof fn lemma_leaf_write_path(
    ws: Seq<u64>,
    ps: Seq<Seq<u64>>,
    max: nat,
    t: int,
    i: int,
    x: u64,
    w: u64,
    d: nat,
)
    requires
        tables_wf(ws, ps, max),
        0 <= t < ws.len() / 512,
        ps[t].len() == 3,
        0 <= i < 512,
        d <= 3,
    ensures
        path_table(ws.update(t * 512 + i, x), w, d) == path_table(ws, w, d),
    decreases d,
{
    let nws = ws.update(t * 512 + i, x);
    if d > 0 {
        let dp = (d - 1) as nat;
        lemma_leaf_write_path(ws, ps, max, t, i, x, w, dp);
        if path_table(ws, w, dp) is Some {
            lemma_path_prefix(ws, ps, max, w, dp);
            let t2 = path_table(ws, w, dp)->0;
            lemma_index_bound(w, dp);
            assert(word(nws, t2, index_at(w, dp)) == word(ws, t2, index_at(w, dp)));
        }
    }
}

/// Writing the PT entry that translates `v` keeps the tables well formed,
/// changes no walk, and changes the PT entry of no other page.
proof fn lemma_leaf_write(ws: Seq<u64>, ps: Seq<Seq<u64>>, max: nat, v: u64, x: u64)
    requires
        tables_wf(ws, ps, max),
        path_table(ws, v, 3) is Some,
    ensures
        ({
            let nws = ws.update(path_table(ws, v, 3)->0 * 512 + index_at(v, 3), x);
            &&& tables_wf(nws, ps, max)
            &&& leaf_entry(nws, v) == Some(x)
            &&& forall|w: u64, d: nat| d <= 3 ==> path_table(nws, w, d) == path_table(ws, w, d)
            &&& forall|w: u64|
                page_number(w) != page_number(v) ==> leaf_entry(nws, w) == leaf_entry(ws, w)
        }),
{
    let t = path_table(ws, v, 3)->0;
    let i = index_at(v, 3);
    lemma_path_prefix(ws, ps, max, v, 3);
    lemma_index_bound(v, 3);
    let nws = ws.update(t * 512 + i, x);
    assert(nws.len() == ws.len());
    assert forall|w: u64, d: nat| d <= 3 implies path_table(nws, w, d) == path_table(ws, w, d) by {
        lemma_leaf_write_path(ws, ps, max, t, i, x, w, d);
    }
    assert forall|t2: int, i2: int|
        0 <= t2 < nws.len() / 512 && 0 <= i2 < 512 && ps[t2].len() < 3 && entry_present(
            #[trigger] word(nws, t2, i2),
        ) implies {
        &&& 0 <= child(word(nws, t2, i2)) < nws.len() / 512
        &&& ps[child(word(nws, t2, i2))] == ps[t2].push(i2 as u64)
    } by {
        assert(t2 != t);
        assert(word(nws, t2, i2) == word(ws, t2, i2));
    }
    assert(leaf_entry(nws, v) == Some(x)) by {
        lemma_leaf_write_path(ws, ps, max, t, i, x, v, 3);
    }
    assert forall|w: u64| page_number(w) != page_number(v) implies leaf_entry(nws, w)
        == leaf_entry(ws, w) by {
        lemma_leaf_write_path(ws, ps, max, t, i, x, w, 3);
        if path_table(ws, w, 3) is Some {
            let t2 = path_table(ws, w, 3)->0;
            lemma_path_prefix(ws, ps, max, w, 3);
            lemma_index_bound(w, 3);
            if t2 == t && index_at(w, 3) == i {
                lemma_same_indices_same_page(v, w);
            }
            assert(word(nws, t2, index_at(w, 3)) == word(ws, t2, index_at(w, 3)));
        }
    }
}

/// The words of an allocation: `ws` followed by an empty table, with the
/// entry at index `i` of table `t` set to `e`.
pub open spec fn grown(ws: Seq<u64>, t: int, i: int, e: u64) -> Seq<u64> {
    (ws + Seq::new(512, |k: int| 0u64)).update(t * 512 + i, e)
}

/// One step of a walk over grown tables: the walk is either the same, or it
/// went through the new entry into the new, empty table, where the old walk
/// had stopped.
proof fn lemma_grow_path(
    ws: Seq<u64>,
    ps: Seq<Seq<u64>>,
    max: nat,
    t: int,
    i: int,
    e: u64,
    w: u64,
    d: nat,
)
    requires
        tables_wf(ws, ps, max),
        0 <= t < ws.len() / 512,
        0 <= i < 512,
        ps[t].len() < 3,
        !entry_present(word(ws, t, i)),
        entry_present(e),
        child(e) == ws.len() / 512,
        d <= 3,
    ensures
        ({
            let g = grown(ws, t, i, e);
            let n = ws.len() / 512;
            ||| path_table(g, w, d) == path_table(ws, w, d)
            ||| (path_table(ws, w, d) is None && path_table(g, w, d) is None)
            ||| (path_table(ws, w, d) is None && path_table(g, w, d) == Some(n as int) && d
                == ps[t].len() + 1 && path_table(ws, w, (d - 1) as nat) == Some(t) && index_at(
                w,
                (d - 1) as nat,
            ) == i)
        }),
    decreases d,
{
    let g = grown(ws, t, i, e);
    let n = ws.len() / 512;
    assert(g.len() == ws.len() + 512);
    if d > 0 {
        let dp = (d - 1) as nat;
        lemma_grow_path(ws, ps, max, t, i, e, w, dp);
        lemma_index_bound(w, dp);
        let k = index_at(w, dp);
        if path_table(ws, w, dp) is Some && path_table(g, w, dp) == path_table(ws, w, dp) {
            lemma_path_prefix(ws, ps, max, w, dp);
            let t2 = path_table(ws, w, dp)->0;
            if t2 == t && k == i {
                assert(word(g, t2, k) == e);
            } else {
                assert(word(g, t2, k) == word(ws, t2, k));
            }
        } else if path_table(g, w, dp) == Some(n as int) {
            assert(word(g, n as int, k) == 0u64);
            lemma_flag_constants();
        }
    }
}

/// Allocating a table for the missing entry at index `i` of table `t` keeps
/// the tables well formed and changes no translation.
proof fn lemma_grow(ws: Seq<u64>, ps: Seq<Seq<u64>>, max: nat, t: int, i: int, e: u64)
    requires
        tables_wf(ws, ps, max),
        ws.len() / 512 < max,
        0 <= t < ws.len() / 512,
        0 <= i < 512,
        ps[t].len() < 3,
        !entry_present(word(ws, t, i)),
        entry_present(e),
        child(e) == ws.len() / 512,
    ensures
        tables_wf(grown(ws, t, i, e), ps.push(ps[t].push(i as u64)), max),
        forall|w: u64| translate(grown(ws, t, i, e), w) == translate(ws, w),
{
    let g = grown(ws, t, i, e);
    let nps = ps.push(ps[t].push(i as u64));
    let n = ws.len() / 512;
    assert(g.len() == ws.len() + 512);
    assert(g.len() / 512 == n + 1);
    lemma_flag_constants();
    assert forall|t2: int, i2: int|
        0 <= t2 < g.len() / 512 && 0 <= i2 < 512 && nps[t2].len() < 3 && entry_present(
            #[trigger] word(g, t2, i2),
        ) implies {
        &&& 0 <= child(word(g, t2, i2)) < g.len() / 512
        &&& nps[child(word(g, t2, i2))] == nps[t2].push(i2 as u64)
    } by {
        if t2 == n {
            assert(word(g, t2, i2) == 0u64);
        } else if t2 == t && i2 == i {
            assert(word(g, t2, i2) == e);
        } else {
            assert(word(g, t2, i2) == word(ws, t2, i2));
        }
    }
    assert forall|t2: int| 0 <= t2 < g.len() / 512 implies (#[trigger] nps[t2]).len() <= 3 by {
        if t2 < n {
            assert(nps[t2] == ps[t2]);
        }
    }
    assert forall|w: u64| translate(g, w) == translate(ws, w) by {
        lemma_grow_path(ws, ps, max, t, i, e, w, 3);
        lemma_index_bound(w, 3);
        let k = index_at(w, 3);
        if path_table(ws, w, 3) is Some && path_table(g, w, 3) == path_table(ws, w, 3) {
            lemma_path_prefix(ws, ps, max, w, 3);
            let t2 = path_table(ws, w, 3)->0;
            assert(t2 != t);
            assert(word(g, t2, k) == word(ws, t2, k));
        } else if path_table(g, w, 3) == Some(n as int) {
            assert(word(g, n as int, k) == 0u64);
        }
    }
}

/// Allocating the missing table of the walk of `v` at depth `d` lets that
/// walk go one table further.
proof fn lemma_grow_walk(
    ws: Seq<u64>,
    ps: Seq<Seq<u64>>,
    max: nat,
    t: int,
    e: u64,
    v: u64,
    d: nat,
)
    requires
        tables_wf(ws, ps, max),
        ws.len() / 512 < max,
        d < 3,
        path_table(ws, v, d) == Some(t),
        !entry_present(word(ws, t, index_at(v, d))),
        entry_present(e),
        child(e) == ws.len() / 512,
    ensures
        path_table(grown(ws, t, index_at(v, d), e), v, d + 1) == Some((ws.len() / 512) as int),
        missing_tables(grown(ws, t, index_at(v, d), e), v) + 1 == missing_tables(ws, v),
{
    let i = index_at(v, d);
    let g = grown(ws, t, i, e);
    let n = ws.len() / 512;
    lemma_path_prefix(ws, ps, max, v, d);
    lemma_index_bound(v, d);
    assert(g.len() == ws.len() + 512);
    lemma_grow_path(ws, ps, max, t, i, e, v, d);
    assert(word(g, t, i) == e);
    assert(path_table(g, v, d + 1) == Some(n as int));
    lemma_missing(ws, v, d);
    if d + 1 < 3 {
        lemma_index_bound(v, d + 1);
        assert(word(g, n as int, index_at(v, d + 1)) == 0u64);
        lemma_flag_constants();
        assert(path_table(g, v, d + 2) is None);
    }
    lemma_missing(g, v, d + 1);
}

/// The hierarchy of page tables of an address space. The tables live in a
/// memory of frames: the table of frame `t` is made of the words
/// `512 * t .. 512 * t + 512`, and its physical address is `4096 * t`. The
/// PML4 is the table of frame 0. At most `max_tables` tables can be
/// allocated.
pub struct PageTableRoot {
    words: Vec<u64>,
    max_tables: usize,
    /// For each table, the entry indices that lead to it from the PML4.
    prefixes: Ghost<Seq<Seq<u64>>>,
}

impl PageTableRoot {
    /// The words of all the tables.
    pub closed spec fn words(self) -> Seq<u64> {
        self.words@
    }

    /// The number of tables allocated.
    pub closed spec fn table_count(self) -> nat {
        self.words@.len() / 512
    }

    /// The most tables that this hierarchy may hold.
    pub closed spec fn capacity(self) -> nat {
        self.max_tables as nat
    }

    /// The physical address that `v` translates to, if it is mapped.
    pub open spec fn spec_translate(self, v: u64) -> Option<u64> {
        translate(self.words(), v)
    }

    /// Every table is reached from the PML4 by a single way, which its
    /// prefix records; the tables of the three upper levels only point to
    /// allocated tables.
    pub closed spec fn wf(self) -> bool {
        tables_wf(self.words@, self.prefixes@, self.max_tables as nat)
    }

    /// Creates a hierarchy made of an empty PML4, which may grow up to
    /// `max_tables` tables.
    pub fn new(max_tables: usize) -> (r: Self)
        requires
            1 <= max_tables <= MAX_TABLES,
        ensures
            r.wf(),
            r.capacity() == max_tables,
            r.table_count() == 1,
            forall|v: u64| r.spec_translate(v) is None,
    {
        let mut words: Vec<u64> = Vec::new();
        let mut i: usize = 0;
        while i < 512
            invariant
                i <= 512,
                words@.len() == i,
                forall|j: int| 0 <= j < i ==> words@[j] == 0,
            decreases 512 - i,
        {
            words.push(0);
            i = i + 1;
        }
        let r = PageTableRoot {
            words,
            max_tables,
            prefixes: Ghost(Seq::<Seq<u64>>::empty().push(Seq::<u64>::empty())),
        };
        proof {
            lemma_flag_constants();
        }
        assert forall|v: u64| r.spec_translate(v) is None by {
            lemma_index_bound(v, 0);
            assert(path_table(r.words@, v, 0) == Some(0int));
            assert(word(r.words@, 0, index_at(v, 0)) == 0);
            assert(path_table(r.words@, v, 1) is None);
            lemma_path_stops(r.words@, v, 1, 3);
        }
        r
    }

    /// Appends an empty table for the missing entry at index `i` of table
    /// `t`, and makes that entry point to it.
    fn grow(&mut self, t: usize, i: usize, addr: Virtual)
        requires
            old(self).wf(),
            old(self).table_count() < old(self).capacity(),
            t < old(self).table_count(),
            i < 512,
            old(self).prefixes@[t as int].len() < 3,
            !entry_present(word(old(self).words(), t as int, i as int)),
        ensures
            final(self).wf(),
            final(self).capacity() == old(self).capacity(),
            final(self).table_count() == old(self).table_count() + 1,
            exists|e: u64|
                entry_present(e) && child(e) == old(self).table_count() && final(self).words()
                    == grown(old(self).words(), t as int, i as int, e) && entry_flags(e)
                    == new_table_flags(entry_flags(word(old(self).words(), t as int, i as int)), addr.0)
                    && new_table_entry(e, addr.0),
    {
        let ghost ows = self.words@;
        let ghost ops = self.prefixes@;
        assert(tables_wf(ows, ops, self.max_tables as nat));
        let n = self.words.len() / 512;
        let mut k: usize = 0;
        while k < 512
            invariant
                k <= 512,
                self.words@.len() == n * 512 + k,
                self.words@.subrange(0, n * 512) == old(self).words@,
                forall|j: int| n * 512 <= j < n * 512 + k ==> self.words@[j] == 0,
                n == old(self).words@.len() / 512,
                old(self).words@.len() == n * 512,
                n < MAX_TABLES,
                self.max_tables == old(self).max_tables,
                self.prefixes == old(self).prefixes,
            decreases 512 - k,
        {
            self.words.push(0);
            k = k + 1;
        }
        assert(self.words@ == old(self).words@ + Seq::new(512, |k: int| 0u64));
        let pos = t * 512 + i;
        let mut entry = PageEntry(self.words[pos]);
        let ghost fo = entry_flags(entry.0);
        if addr.is_user() {
            entry.add_flags(PageEntryFlags::user());
        }
        let ghost fu = entry_flags(entry.0);
        assert(fu == fo | (if addr.0 < 0x0000_8000_0000_0000 { 4u64 } else { 0u64 })) by {
            if !(addr.0 < 0x0000_8000_0000_0000) {
                assert(fo | 0u64 == fo) by (bit_vector);
            }
        }
        entry.add_flags(PageEntryFlags::writable());
        let ghost before_present = entry_flags(entry.0);
        entry.add_flags(PageEntryFlags::present());
        let table_addr: u64 = (n as u64) * 4096;
        entry.set_address(Physical::new(table_addr));
        let e = entry.0;
        proof {
            let f = entry_flags(e);
            assert(f == before_present | 1);
            assert(f == new_table_flags(fo, addr.0));
            lemma_new_table_entry(e, f, before_present, table_addr);
            let u: u64 = if addr.0 < 0x0000_8000_0000_0000 { 4u64 } else { 0u64 };
            assert(((fo | u) | 2) | 1 == f);
            assert(f & 2 == 2 && (u == 4 ==> f & 4 == 4)) by (bit_vector)
                requires
                    f == ((fo | u) | 2) | 1,
            ;
            lemma_flag_bits(e);
            assert(child(e) == n);
            lemma_grow(ows, ops, self.max_tables as nat, t as int, i as int, e);
            self.prefixes@ = self.prefixes@.push(self.prefixes@[t as int].push(i as u64));
        }
        self.words[pos] = e;
    }

    /// Walks the tables down to the PT that translates `addr` and returns its
    /// frame number. A missing table is allocated with `Allocate`, and stops
    /// the walk with `Reach`.
    pub fn fetch_last_entry(&mut self, addr: Virtual, behavior: FetchBehavior) -> (r: Result<
        usize,
        FetchError,
    >)
        requires
            old(self).wf(),
        ensures
            final(self).wf(),
            final(self).capacity() == old(self).capacity(),
            forall|v: u64| #[trigger] final(self).spec_translate(v) == old(self).spec_translate(v),
            behavior == FetchBehavior::Reach ==> final(self).words() == old(self).words(),
            path_table(old(self).words(), addr.0, 3) is Some ==> final(self).words() == old(
                self,
            ).words(),
            match r {
                Ok(t) => path_table(final(self).words(), addr.0, 3) == Some(t as int) && t
                    < final(self).table_count(),
                Err(FetchError::NoSuchEntry) => behavior == FetchBehavior::Reach && path_table(
                    old(self).words(),
                    addr.0,
                    3,
                ) is None,
                Err(FetchError::OutOfMemory) => behavior == FetchBehavior::Allocate
                    && missing_tables(old(self).words(), addr.0) + old(self).table_count() > old(
                    self,
                ).capacity(),
            },
            behavior == FetchBehavior::Reach && path_table(old(self).words(), addr.0, 3) is Some
                ==> r is Ok,
            behavior == FetchBehavior::Allocate && missing_tables(old(self).words(), addr.0)
                + old(self).table_count() <= old(self).capacity() ==> r is Ok,
            r is Ok ==> missing_tables(old(self).words(), addr.0) + old(self).table_count() <= old(
                self,
            ).capacity(),
            r is Ok ==> forall|k: nat|
                k < 3 && path_table(old(self).words(), addr.0, k + 1) is None ==> #[trigger] made_entry(final(self).words(), addr.0, k),
    {
        let ghost m = missing_tables(old(self).words(), addr.0);
        let mut t: usize = 0;
        let mut d: usize = 0;
        while d < 3
            invariant
                self.wf(),
                d <= 3,
                self.capacity() == old(self).capacity(),
                path_table(self.words(), addr.0, d as nat) == Some(t as int),
                forall|v: u64| #[trigger] self.spec_translate(v) == old(self).spec_translate(v),
                missing_tables(self.words(), addr.0) + self.table_count() == missing_tables(
                    old(self).words(),
                    addr.0,
                ) + old(self).table_count(),
                behavior == FetchBehavior::Reach ==> self.words() == old(self).words(),
                path_table(old(self).words(), addr.0, 3) is Some ==> self.words() == old(
                    self,
                ).words(),
                m == missing_tables(old(self).words(), addr.0),
                missing_tables(self.words(), addr.0) == (if d + m <= 3 {
                    m as int
                } else {
                    3 - d
                }),
                forall|k: nat|
                    k < d && k + m >= 3 ==> #[trigger] made_entry(self.words(), addr.0, k),
            decreases 3 - d,
        {
            proof {
                lemma_path_prefix(self.words@, self.prefixes@, self.max_tables as nat, addr.0, d as nat);
            }
            let idx = addr.page_index(4 - d);
            assert(idx == index_at(addr.0, d as nat));
            let pos = t * 512 + idx;
            let present = PageEntry(self.words[pos]).present();
            if !present {
                proof {
                    assert(word(self.words@, t as int, idx as int) == self.words@[pos as int]);
                    assert(path_table(self.words@, addr.0, (d + 1) as nat) is None);
                    lemma_missing(self.words@, addr.0, d as nat);
                    if path_table(old(self).words(), addr.0, 3) is Some {
                        lemma_path_stops(self.words@, addr.0, (d + 1) as nat, 3);
                    }
                }
                match behavior {
                    FetchBehavior::Reach => {
                        proof {
                            lemma_path_stops(self.words@, addr.0, (d + 1) as nat, 3);
                        }
                        return Err(FetchError::NoSuchEntry);
                    },
                    FetchBehavior::Allocate => {
                        if self.words.len() / 512 >= self.max_tables {
                            return Err(FetchError::OutOfMemory);
                        }
                        let ghost before = self.words@;
                        let ghost before_ps = self.prefixes@;
                        let ghost bs = *self;
                        self.grow(t, idx, addr);
                        proof {
                            let e = choose|e: u64|
                                entry_present(e) && child(e) == before.len() / 512
                                    && self.words@ == grown(before, t as int, idx as int, e)
                                    && entry_flags(e) == new_table_flags(
                                    entry_flags(word(before, t as int, idx as int)),
                                    addr.0,
                                ) && new_table_entry(e, addr.0);
                            lemma_missing(before, addr.0, d as nat);
                            lemma_index_bound(addr.0, d as nat);
                            lemma_grow_path(
                                before,
                                before_ps,
                                self.max_tables as nat,
                                t as int,
                                idx as int,
                                e,
                                addr.0,
                                d as nat,
                            );
                            assert(walk_entry(self.words@, addr.0, d as nat) == Some(e));
                            assert forall|k: nat|
                                k < d + 1 && k + m >= 3 implies #[trigger] made_entry(
                                    self.words@,
                                    addr.0,
                                    k,
                                ) by {
                                if k < d {
                                    assert(made_entry(before, addr.0, k));
                                    lemma_grow_keeps_walk_entry(
                                        before,
                                        before_ps,
                                        self.max_tables as nat,
                                        t as int,
                                        e,
                                        addr.0,
                                        d as nat,
                                        k,
                                    );
                                }
                            }
                            lemma_grow_walk(
                                before,
                                before_ps,
                                self.max_tables as nat,
                                t as int,
                                e,
                                addr.0,
                                d as nat,
                            );
                            lemma_grow(
                                before,
                                before_ps,
                                self.max_tables as nat,
                                t as int,
                                idx as int,
                                e,
                            );
                            assert forall|v: u64| #[trigger]
                                self.spec_translate(v) == old(self).spec_translate(v) by {
                                assert(bs.spec_translate(v) == old(self).spec_translate(v));
                                assert(translate(self.words@, v) == translate(before, v));
                            }
                        }
                    },
                }
            }
            else {
                proof {
                    assert(word(self.words@, t as int, idx as int) == self.words@[pos as int]);
                    assert(path_table(self.words@, addr.0, (d + 1) as nat) is Some);
                    lemma_missing_bound(self.words@, addr.0, (d + 1) as nat);
                }
            }
            let entry = PageEntry(self.words[pos]);
            proof {
                assert(word(self.words@, t as int, idx as int) == entry.0);
                assert(entry_present(entry.0));
                assert(path_table(self.words@, addr.0, (d + 1) as nat) == Some(child(entry.0)));
                lemma_path_prefix(self.words@, self.prefixes@, self.max_tables as nat, addr.0, (d + 1) as nat);
                let ev = entry.0;
                lemma_entry_update(ev, 0, 0);
            }
            t = ((entry.0 & ADDRESS_MASK) >> 12) as usize;
            d = d + 1;
        }
        proof {
            lemma_path_prefix(self.words@, self.prefixes@, self.max_tables as nat, addr.0, 3);
            lemma_missing(self.words@, addr.0, 3);
            lemma_missing_reached(old(self).words(), addr.0);
            assert forall|k: nat|
                k < 3 && path_table(old(self).words(), addr.0, k + 1) is None implies #[trigger] made_entry(self.words(), addr.0, k) by {
                if k + m < 3 {
                    lemma_path_stops(old(self).words(), addr.0, k + 1, (3 - m) as nat);
                }
            }
        }
        Ok(t)
    }

    /// Walks the tables down to the PT that translates `addr`, without
    /// changing anything, and returns its frame number if the walk gets there.
    pub fn reach_last_table(&self, addr: Virtual) -> (r: Option<usize>)
        requires
            self.wf(),
        ensures
            match r {
                Some(t) => path_table(self.words(), addr.0, 3) == Some(t as int) && t
                    < self.table_count(),
                None => path_table(self.words(), addr.0, 3) is None,
            },
    {
        let mut t: usize = 0;
        let mut d: usize = 0;
        while d < 3
            invariant
                self.wf(),
                d <= 3,
                path_table(self.words(), addr.0, d as nat) == Some(t as int),
            decreases 3 - d,
        {
            proof {
                lemma_path_prefix(self.words@, self.prefixes@, self.max_tables as nat, addr.0, d as nat);
            }
            let idx = addr.page_index(4 - d);
            assert(idx == index_at(addr.0, d as nat));
            let entry = PageEntry(self.words[t * 512 + idx]);
            assert(word(self.words@, t as int, idx as int) == entry.0);
            if !entry.present() {
                proof {
                    lemma_path_stops(self.words@, addr.0, (d + 1) as nat, 3);
                }
                return None;
            }
            proof {
                lemma_path_prefix(self.words@, self.prefixes@, self.max_tables as nat, addr.0, (d + 1) as nat);
                let ev = entry.0;
                lemma_entry_update(ev, 0, 0);
            }
            t = ((entry.0 & ADDRESS_MASK) >> 12) as usize;
            d = d + 1;
        }
        proof {
            lemma_path_prefix(self.words@, self.prefixes@, self.max_tables as nat, addr.0, 3);
        }
        Some(t)
    }

    /// The frames that dropping this address space gives back to the frame
    /// allocator, in the order in which they are freed: what freeing the
    /// user half (the first 256 entries of the PML4) gives back, then the
    /// PML4 itself. The tables of the kernel half are shared by every
    /// address space and stay.
    pub open spec fn dropped_frames(self) -> Seq<u64> {
        released(self.words(), 0, 0, 256).push(0)
    }

    /// Appends to `freed` what freeing the first `n` entries of the table of
    /// frame `t`, met at depth `d`, gives back, then the frame of that table.
    fn deallocate_recursive(&self, t: usize, d: usize, n: usize, freed: &mut Vec<u64>)
        requires
            self.wf(),
            t < self.table_count(),
            self.prefixes@[t as int].len() == d,
            n <= 512,
        ensures
            final(freed)@ == old(freed)@ + released(self.words(), t as int, d as nat, n as nat).push(
                (t * 4096) as u64,
            ),
        decreases 3 - d,
    {
        let ghost start = freed@;
        proof {
            assert(t < MAX_TABLES);
        }
        let mut i: usize = 0;
        while i < n
            invariant
                self.wf(),
                t < self.table_count(),
                t < MAX_TABLES,
                self.prefixes@[t as int].len() == d,
                n <= 512,
                i <= n,
                freed@ == start + released(self.words@, t as int, d as nat, i as nat),
            decreases n - i,
        {
            let e = self.words[t * 512 + i];
            assert(word(self.words@, t as int, i as int) == e);
            let ghost before = released(self.words@, t as int, d as nat, i as nat);
            if PageEntry(e).present() {
                if d >= 3 {
                    freed.push(e & ADDRESS_MASK);
                    assert(freed@ == start + before.push(entry_address(e)));
                } else {
                    proof {
                        lemma_entry_update(e, 0, 0);
                    }
                    let c = ((e & ADDRESS_MASK) >> 12) as usize;
                    assert(c == child(e));
                    self.deallocate_recursive(c, d + 1, 512, freed);
                    assert(freed@ == start + (before + released(
                        self.words@,
                        child(e),
                        (d + 1) as nat,
                        512,
                    ).push((child(e) * 4096) as u64)));
                }
            }
            i = i + 1;
        }
        freed.push((t as u64) * 4096);
    }

    /// Returns the frames that dropping this address space gives back to the
    /// frame allocator (see `dropped_frames`).
    pub fn drop_frames(&self) -> (r: Vec<u64>)
        requires
            self.wf(),
        ensures
            r@ == self.dropped_frames(),
    {
        let mut freed: Vec<u64> = Vec::new();
        self.deallocate_recursive(0, 0, 256, &mut freed);
        assert(freed@ == released(self.words@, 0, 0, 256).push(0));
        freed
    }

    /// A well formed hierarchy holds no more tables than its capacity.
    pub proof fn lemma_count_bound(self)
        requires
            self.wf(),
        ensures
            1 <= self.table_count() <= self.capacity(),
    {
    }

    /// Returns the entry at index `i` of the table of frame `t`.
    pub fn read_entry(&self, t: usize, i: usize) -> (r: PageEntry)
        requires
            self.wf(),
            t < self.table_count(),
            i < 512,
        ensures
            r.0 == word(self.words(), t as int, i as int),
    {
        PageEntry(self.words[t * 512 + i])
    }

    /// Writes the PT entry that translates `addr`, whose PT has frame `t`.
    pub fn write_leaf(&mut self, addr: Virtual, t: usize, entry: PageEntry)
        requires
            old(self).wf(),
            path_table(old(self).words(), addr.0, 3) == Some(t as int),
        ensures
            final(self).wf(),
            final(self).capacity() == old(self).capacity(),
            leaf_entry(final(self).words(), addr.0) == Some(entry.0),
            forall|v: u64|
                #![trigger final(self).spec_translate(v)]
                page_number(v) != page_number(addr.0) ==> final(self).spec_translate(v) == old(
                    self,
                ).spec_translate(v),
    {
        proof {
            lemma_path_prefix(self.words@, self.prefixes@, self.max_tables as nat, addr.0, 3);
            lemma_leaf_write(self.words@, self.prefixes@, self.max_tables as nat, addr.0, entry.0);
        }
        let idx = addr.page_index(1);
        assert(idx == index_at(addr.0, 3));
        self.words[t * 512 + idx] = entry.0;
    }
}

/// Dropping an address space gives back every page mapped in its user half
/// (the addresses whose PML4 index is below 256), and its PML4.
pub proof fn law_drop_releases_user_pages(root: PageTableRoot, v: u64)
    requires
        index_at(v, 0) < 256,
        root.spec_translate(v) is Some,
    ensures
        root.dropped_frames().contains(root.spec_translate(v)->0),
        root.dropped_frames().contains(0),
{
    let ws = root.words();
    let i0 = index_at(v, 0);
    let i1 = index_at(v, 1);
    let i2 = index_at(v, 2);
    let i3 = index_at(v, 3);
    lemma_index_bound(v, 1);
    lemma_index_bound(v, 2);
    lemma_index_bound(v, 3);
    assert(path_table(ws, v, 0) == Some(0int));
    let e0 = word(ws, 0, i0);
    assert(entry_present(e0)) by {
        if !entry_present(e0) {
            lemma_path_stops(ws, v, 1, 3);
        }
    }
    let t1 = child(e0);
    assert(path_table(ws, v, 1) == Some(t1));
    let e1 = word(ws, t1, i1);
    assert(entry_present(e1)) by {
        if !entry_present(e1) {
            lemma_path_stops(ws, v, 2, 3);
        }
    }
    let t2 = child(e1);
    assert(path_table(ws, v, 2) == Some(t2));
    let e2 = word(ws, t2, i2);
    assert(entry_present(e2));
    let t3 = child(e2);
    assert(path_table(ws, v, 3) == Some(t3));
    let e3 = word(ws, t3, i3);
    let p = entry_address(e3);
    assert(root.spec_translate(v) == Some(p));
    lemma_released_entry(ws, t3, 3, 512, i3);
    assert(released(ws, t3, 3, 512).contains(p));
    lemma_released_entry(ws, t2, 2, 512, i2);
    assert(released(ws, t2, 2, 512).contains(p));
    lemma_released_entry(ws, t1, 1, 512, i1);
    assert(released(ws, t1, 1, 512).contains(p));
    lemma_released_entry(ws, 0, 0, 256, i0);
    let rel = released(ws, 0, 0, 256);
    assert(rel.contains(p));
    let k = choose|k: int| 0 <= k < rel.len() && rel[k] == p;
    assert(rel.push(0)[k] == p);
    assert(rel.push(0)[rel.len() as int] == 0);
}

/// The index of an entry in a table is below 512.
pub proof fn lemma_index_bound(v: u64, d: nat)
    ensures
        0 <= index_at(v, d) < 512,
{
    let sh = (12 + 9 * (((4 - d) as nat) - 1)) as u64;
    assert((v >> sh) & 0x1FF < 512) by (bit_vector);
}

/// Two addresses of the same page have the same walk, hence the same
/// translation.
pub proof fn lemma_same_page_same_translation(ws: Seq<u64>, v: u64, w: u64)
    requires
        page_number(v) == page_number(w),
    ensures
        translate(ws, v) == translate(ws, w),
        forall|d: nat| d <= 3 ==> path_table(ws, v, d) == path_table(ws, w, d),
{
    assert((v >> 12u64) & 0xF_FFFF_FFFF == (w >> 12u64) & 0xF_FFFF_FFFF ==> (v >> 39u64) & 0x1FF
        == (w >> 39u64) & 0x1FF && (v >> 30u64) & 0x1FF == (w >> 30u64) & 0x1FF && (v >> 21u64)
        & 0x1FF == (w >> 21u64) & 0x1FF && (v >> 12u64) & 0x1FF == (w >> 12u64) & 0x1FF)
        by (bit_vector);
    assert(index_at(v, 0) == index_at(w, 0));
    assert(index_at(v, 1) == index_at(w, 1));
    assert(index_at(v, 2) == index_at(w, 2));
    assert(index_at(v, 3) == index_at(w, 3));
    assert(path_table(ws, v, 0) == path_table(ws, w, 0));
    assert(path_table(ws, v, 1) == path_table(ws, w, 1));
    assert(path_table(ws, v, 2) == path_table(ws, w, 2));
    assert(path_table(ws, v, 3) == path_table(ws, w, 3));
}

/// Two addresses whose four table indices are equal lie in the same page.
pub proof fn lemma_same_indices_same_page(v: u64, w: u64)
    requires
        indices(v, 3) == indices(w, 3),
        index_at(v, 3) == index_at(w, 3),
    ensures
        page_number(v) == page_number(w),
{
    assert(indices(v, 3)[0] == spec_page_index(v, 4));
    assert(indices(w, 3)[0] == spec_page_index(w, 4));
    assert(indices(v, 3)[1] == spec_page_index(v, 3));
    assert(indices(w, 3)[1] == spec_page_index(w, 3));
    assert(indices(v, 3)[2] == spec_page_index(v, 2));
    assert(indices(w, 3)[2] == spec_page_index(w, 2));
    assert(indices(v, 3)[0] == indices(w, 3)[0]);
    assert(indices(v, 3)[1] == indices(w, 3)[1]);
    assert(indices(v, 3)[2] == indices(w, 3)[2]);
    assert(spec_page_index(v, 4) == (v >> 39u64) & 0x1FF);
    assert(spec_page_index(v, 3) == (v >> 30u64) & 0x1FF);
    assert(spec_page_index(v, 2) == (v >> 21u64) & 0x1FF);
    assert(spec_page_index(v, 1) == (v >> 12u64) & 0x1FF);
    assert(spec_page_index(w, 4) == (w >> 39u64) & 0x1FF);
    assert(spec_page_index(w, 3) == (w >> 30u64) & 0x1FF);
    assert(spec_page_index(w, 2) == (w >> 21u64) & 0x1FF);
    assert(spec_page_index(w, 1) == (w >> 12u64) & 0x1FF);
    let a = (v >> 39u64) & 0x1FF;
    assert(a == (w >> 39u64) & 0x1FF);
    assert((v >> 30u64) & 0x1FF == (w >> 30u64) & 0x1FF);
    assert((v >> 21u64) & 0x1FF == (w >> 21u64) & 0x1FF);
    assert((v >> 12u64) & 0x1FF == (w >> 12u64) & 0x1FF);
    assert((v >> 39u64) & 0x1FF == (w >> 39u64) & 0x1FF && (v >> 30u64) & 0x1FF == (w >> 30u64)
        & 0x1FF && (v >> 21u64) & 0x1FF == (w >> 21u64) & 0x1FF && (v >> 12u64) & 0x1FF == (w
        >> 12u64) & 0x1FF ==> (v >> 12u64) & 0xF_FFFF_FFFF == (w >> 12u64) & 0xF_FFFF_FFFF)
        by (bit_vector);
}

} // verus!
