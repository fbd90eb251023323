//! Physical and virtual addresses as plain 64-bit values, with the few
//! arithmetic helpers that the paging code needs.
use vstd::prelude::*;

verus! {

/// The size of a page in bytes.
pub const PAGE_SIZE: u64 = 4096;

/// The highest bit (exclusive) that a physical address may use on x86_64.
pub const PHYSICAL_LIMIT: u64 = 0x0010_0000_0000_0000;

/// A physical address. Physical addresses are limited to 52 bits on x86_64.
#[derive(Clone, Copy, PartialEq, Eq, Structural, Debug)]
pub struct Physical(pub u64);

/// A virtual address.
#[derive(Clone, Copy, PartialEq, Eq, Structural, Debug)]
pub struct Virtual(pub u64);

/// A physical frame, identified by the page aligned physical address of its
/// first byte.
#[derive(Clone, Copy, PartialEq, Eq, Structural, Debug)]
pub struct Frame(pub Physical);

/// The index, in the page table of the given level (4 for the PML4, 1 for
/// the PT), of the entry that translates `addr`: nine bits of the address.
pub open spec fn spec_page_index(addr: u64, level: nat) -> u64 {
    (addr >> ((12 + 9 * (level - 1)) as u64)) & 0x1FF
}

impl Physical {
    /// Creates a physical address.
    pub fn new(addr: u64) -> (r: Self)
        ensures
            r.0 == addr,
    {
        Physical(addr)
    }

    /// Returns `true` if the address is a multiple of the page size.
    pub fn is_page_aligned(&self) -> (r: bool)
        ensures
            r == (self.0 % 4096 == 0),
    {
        self.0 % PAGE_SIZE == 0
    }

    /// Returns the address as a `u64`.
    pub fn as_u64(&self) -> (r: u64)
        ensures
            r == self.0,
    {
        self.0
    }
}

impl Virtual {
    /// Creates a virtual address.
    pub fn new(addr: u64) -> (r: Self)
        ensures
            r.0 == addr,
    {
        Virtual(addr)
    }

    /// Returns the index, in the page table of the given level (4 for the
    /// PML4, 1 for the PT), of the entry that translates this address.
    pub fn page_index(&self, level: usize) -> (r: usize)
        requires
            1 <= level <= 4,
        ensures
            r == spec_page_index(self.0, level as nat),
            r < 512,
    {
        let shift: u64 = 12 + 9 * ((level - 1) as u64);
        let addr = self.0;
        assert((addr >> shift) & 0x1FF < 512) by (bit_vector);
        ((addr >> shift) & 0x1FF) as usize
    }

    /// Returns the offset of this address inside its page.
    pub fn page_offset(&self) -> (r: u64)
        ensures
            r == self.0 % 4096,
    {
        self.0 % PAGE_SIZE
    }

    /// Returns `true` if the address is a multiple of the page size.
    pub fn is_page_aligned(&self) -> (r: bool)
        ensures
            r == (self.0 % 4096 == 0),
    {
        self.0 % PAGE_SIZE == 0
    }

    /// Returns `true` if the address belongs to the lower, user half of the
    /// canonical address space.
    pub fn is_user(&self) -> (r: bool)
        ensures
            r == (self.0 < 0x0000_8000_0000_0000),
    {
        self.0 < 0x0000_8000_0000_0000
    }

    /// Returns `true` if the address belongs to the higher, kernel half of
    /// the canonical address space.
    pub fn is_kernel(&self) -> (r: bool)
        ensures
            r == (self.0 >= 0xFFFF_8000_0000_0000),
    {
        self.0 >= 0xFFFF_8000_0000_0000
    }

    /// Returns the address as a `u64`.
    pub fn as_u64(&self) -> (r: u64)
        ensures
            r == self.0,
    {
        self.0
    }
}

impl Frame {
    /// Creates a frame starting at the given page aligned physical address.
    pub fn new(addr: Physical) -> (r: Self)
        requires
            addr.0 % 4096 == 0,
        ensures
            r.0 == addr,
    {
        Frame(addr)
    }

    /// Returns the physical address of the first byte of the frame.
    pub fn addr(&self) -> (r: Physical)
        ensures
            r == self.0,
    {
        self.0
    }
}

} // verus!
