//! The Global Descriptor Table: its entries, the descriptors written to them
//! and the selectors that designate them.
use vstd::prelude::*;
use bitfield::BitRangeMut;
use super::cpu::Privilege;

verus! {

/// The mask of the bits `lsb..=msb` of a 64 bit word.
pub open spec fn bit_range_mask(msb: u64, lsb: u64) -> u64 {
    (((!0u64) << ((63 - msb) as u64)) >> ((63 - msb + lsb) as u64)) << lsb
}

/// The word `value` with its bits `lsb..=msb` replaced by the low bits of
/// `bits`.
pub open spec fn with_bit_range(value: u64, msb: u64, lsb: u64, bits: u64) -> u64 {
    (value & !bit_range_mask(msb, lsb)) | ((bits << lsb) & bit_range_mask(msb, lsb))
}

/// `BitRangeMut::set_bit_range` on a `u64`: replaces the bits `lsb..=msb`
/// of the word by the low bits of `bits`, through the mask that the crate
/// computes, and leaves the other bits as they were.
#[verifier::external_body]
fn set_bit_range(value: u64, msb: usize, lsb: usize, bits: u64) -> (r: u64)
    requires
        lsb <= msb < 64,
    ensures
        r == with_bit_range(value, msb as u64, lsb as u64, bits),
{
    let mut word = value;
    word.set_bit_range(msb, lsb, bits);
    word
}

/// The largest number of entries a GDT may have.
pub const GDT_MAX_SIZE: usize = 8192;

/// The size of an entry, in bytes.
pub const ENTRY_SIZE: usize = 8;

/// The GDT register: the limit and the base address of the table.
#[derive(Clone, Copy, PartialEq, Eq, Structural, Debug, Hash)]
pub struct Register {
    pub limit: u16,
    pub base: u64,
}

impl Register {
    /// A register that points to nothing.
    pub fn null() -> (r: Self)
        ensures
            r.limit == 0,
            r.base == 0,
    {
        Register { limit: 0, base: 0 }
    }
}

/// A GDT of `N` entries, and the register that describes it.
pub struct Table<const N: usize> {
    descriptors: Vec<u64>,
    register: Register,
}

impl<const N: usize> Table<N> {
    /// The largest number of entries a GDT may have.
    pub const MAX_SIZE: usize = 8192;

    /// The entries of the table.
    pub closed spec fn entries(self) -> Seq<u64> {
        self.descriptors@
    }

    /// The register of the table.
    pub closed spec fn spec_register(self) -> Register {
        self.register
    }

    /// The table has its `N` entries.
    pub open spec fn wf(self) -> bool {
        self.entries().len() == N
    }

    /// Creates a table whose entries are all null, with a null register.
    pub fn empty() -> (r: Self)
        requires
            N <= GDT_MAX_SIZE,
        ensures
            r.wf(),
            forall|i: int| 0 <= i < N ==> r.entries()[i] == 0,
            r.spec_register() == (Register { limit: 0, base: 0 }),
    {
        let mut descriptors: Vec<u64> = Vec::new();
        let mut i: usize = 0;
        while i < N
            invariant
                i <= N,
                descriptors@.len() == i,
                forall|k: int| 0 <= k < i ==> descriptors@[k] == 0,
            decreases N - i,
        {
            descriptors.push(0);
            i = i + 1;
        }
        Table { descriptors, register: Register::null() }
    }

    /// Returns the number of entries of the table.
    pub fn capacity(&self) -> (r: usize)
        ensures
            r == N,
    {
        N
    }

    /// Writes the descriptor at the given index. A system descriptor takes
    /// two entries: its low word goes at `index`, its high word at
    /// `index + 1`.
    pub fn set_descriptor(&mut self, index: usize, descriptor: &Descriptor)
        requires
            old(self).wf(),
            match *descriptor {
                Descriptor::Segment(_) => index < N,
                Descriptor::System(_, _) => index + 1 < N,
            },
        ensures
            final(self).wf(),
            final(self).spec_register() == old(self).spec_register(),
            final(self).entries() == match *descriptor {
                Descriptor::Segment(x) => old(self).entries().update(index as int, x),
                Descriptor::System(x, y) => old(self).entries().update(index + 1, y).update(
                    index as int,
                    x,
                ),
            },
    {
        match *descriptor {
            Descriptor::Segment(x) => {
                self.descriptors.set(index, x);
            },
            Descriptor::System(x, y) => {
                self.descriptors.set(index + 1, y);
                self.descriptors.set(index, x);
            },
        }
    }

    /// Clears the entry at the given index.
    pub fn clear_entry(&mut self, index: usize)
        requires
            old(self).wf(),
            index < N,
        ensures
            final(self).wf(),
            final(self).spec_register() == old(self).spec_register(),
            final(self).entries() == old(self).entries().update(index as int, 0),
    {
        self.descriptors.set(index, 0);
    }

    /// Points the register to the table, whose entries start at `base`,
    /// before the register is loaded into the CPU.
    pub fn point_register(&mut self, base: u64)
        requires
            old(self).wf(),
            1 <= N <= GDT_MAX_SIZE,
        ensures
            final(self).wf(),
            final(self).entries() == old(self).entries(),
            final(self).spec_register().limit == N * ENTRY_SIZE - 1,
            final(self).spec_register().base == base,
    {
        let limit = N * ENTRY_SIZE - 1;
        assert(limit < 0x10000);
        self.register = Register { limit: limit as u16, base };
    }

    /// Returns the register of the table.
    pub fn register(&self) -> (r: Register)
        ensures
            r == self.spec_register(),
    {
        self.register
    }

    /// Returns the entry at the given index.
    pub fn entry(&self, index: usize) -> (r: u64)
        requires
            self.wf(),
            index < N,
        ensures
            r == self.entries()[index as int],
    {
        self.descriptors[index]
    }
}

/// A descriptor of the GDT: a segment descriptor takes one entry, a system
/// descriptor two.
#[derive(Clone, Copy, PartialEq, Eq, Structural, Debug, Hash)]
pub enum Descriptor {
    System(u64, u64),
    Segment(u64),
}

/// The present bit of a descriptor.
pub const DESCRIPTOR_PRESENT: u64 = 0x8000_0000_0000;

/// The size of a task state segment, in bytes.
pub const TSS_SIZE: u64 = 104;

/// The low word of the descriptor of a task state segment at `address`: the
/// present bit, the limit (the size minus one) in bits 0 to 15, the low 24
/// bits of the address in bits 16 to 39, the available 64-bit TSS type in
/// bits 40 to 43, and the next 8 bits of the address in bits 56 to 63.
pub open spec fn tss_low(address: u64) -> u64 {
    DESCRIPTOR_PRESENT | (TSS_SIZE - 1) as u64 | ((address & 0xFF_FFFF) << 16u64) | (0b1001u64 << 40u64)
        | (((address >> 24u64) & 0xFF) << 56u64)
}

/// The high word of the descriptor of a task state segment at `address`:
/// the high 32 bits of the address.
pub open spec fn tss_high(address: u64) -> u64 {
    (address >> 32u64) & 0xFFFF_FFFF
}

impl Descriptor {
    /// The null descriptor.
    pub fn null() -> (r: Self)
        ensures
            r == Descriptor::Segment(0),
    {
        Descriptor::Segment(0)
    }

    /// The descriptor of the 64-bit kernel code segment.
    pub fn kernel_code64() -> (r: Self)
        ensures
            r == Descriptor::Segment(0x00af_9b00_0000_ffff),
    {
        Descriptor::Segment(0x00af_9b00_0000_ffff)
    }

    /// The descriptor of the kernel data segment.
    pub fn kernel_data() -> (r: Self)
        ensures
            r == Descriptor::Segment(0x00cf_9300_0000_ffff),
    {
        Descriptor::Segment(0x00cf_9300_0000_ffff)
    }

    /// The descriptor of the user data segment.
    pub fn user_data() -> (r: Self)
        ensures
            r == Descriptor::Segment(0x00cf_f300_0000_ffff),
    {
        Descriptor::Segment(0x00cf_f300_0000_ffff)
    }

    /// The descriptor of the 64-bit user code segment.
    pub fn user_code64() -> (r: Self)
        ensures
            r == Descriptor::Segment(0x00af_fb00_0000_ffff),
    {
        Descriptor::Segment(0x00af_fb00_0000_ffff)
    }

    /// The descriptor of the task state segment at the given address.
    pub fn tss(address: u64) -> (r: Self)
        ensures
            r == Descriptor::System(tss_low(address), tss_high(address)),
    {
        let low = DESCRIPTOR_PRESENT;
        let low = set_bit_range(low, 15, 0, TSS_SIZE - 1);
        let low = set_bit_range(low, 39, 16, address & 0xFF_FFFF);
        let low = set_bit_range(low, 63, 56, (address >> 24) & 0xFF);
        let low = set_bit_range(low, 43, 40, 0b1001);
        proof {
            lemma_tss_low(address);
        }
        Descriptor::System(low, (address >> 32) & 0xFFFF_FFFF)
    }
}

/// The four bit ranges written into the low word of a TSS descriptor give
/// the word that [`tss_low`] describes.
proof fn lemma_tss_low(address: u64)
    ensures
        with_bit_range(
            with_bit_range(
                with_bit_range(
                    with_bit_range(DESCRIPTOR_PRESENT, 15, 0, (TSS_SIZE - 1) as u64),
                    39,
                    16,
                    address & 0xFF_FFFF,
                ),
                63,
                56,
                (address >> 24u64) & 0xFF,
            ),
            43,
            40,
            0b1001,
        ) == tss_low(address),
{
    let a = address;
    let w0 = with_bit_range(DESCRIPTOR_PRESENT, 15, 0, (TSS_SIZE - 1) as u64);
    assert(w0 == 0x8000_0000_0000u64 | 103u64) by (bit_vector)
        requires
            w0 == with_bit_range(DESCRIPTOR_PRESENT, 15, 0, (TSS_SIZE - 1) as u64),
    ;
    let w1 = with_bit_range(w0, 39, 16, a & 0xFF_FFFF);
    assert(w1 == 0x8000_0000_0000u64 | 103u64 | ((a & 0xFF_FFFF) << 16u64)) by (bit_vector)
        requires
            w0 == 0x8000_0000_0000u64 | 103u64,
            w1 == with_bit_range(w0, 39, 16, a & 0xFF_FFFF),
    ;
    let w2 = with_bit_range(w1, 63, 56, (a >> 24u64) & 0xFF);
    assert(w2 == 0x8000_0000_0000u64 | 103u64 | ((a & 0xFF_FFFF) << 16u64) | (((a >> 24u64) & 0xFF)
        << 56u64)) by (bit_vector)
        requires
            w1 == 0x8000_0000_0000u64 | 103u64 | ((a & 0xFF_FFFF) << 16u64),
            w2 == with_bit_range(w1, 63, 56, (a >> 24u64) & 0xFF),
    ;
    let w3 = with_bit_range(w2, 43, 40, 0b1001);
    assert(w3 == tss_low(a)) by (bit_vector)
        requires
            w2 == 0x8000_0000_0000u64 | 103u64 | ((a & 0xFF_FFFF) << 16u64) | (((a >> 24u64) & 0xFF)
                << 56u64),
            w3 == with_bit_range(w2, 43, 40, 0b1001),
    ;
}

/// A segment selector: the index of an entry of the GDT, times 8, with the
/// requested privilege level in its low bits.
#[derive(Clone, Copy, PartialEq, Eq, Structural, Debug, Hash)]
pub struct Selector(pub u16);

impl Selector {
    /// The selector of the entry at `index`, with the given privilege.
    pub fn new(index: u16, privilege: Privilege) -> (r: Self)
        requires
            index < 8192,
        ensures
            r.0 == ((index * 8) as u16) | privilege.spec_level(),
    {
        let level = privilege.level();
        Selector((index * 8) | level)
    }

    /// Returns the index of the entry that the selector designates.
    pub fn index(self) -> (r: u16)
        ensures
            r == self.0 / 8,
    {
        self.0 / 8
    }

    /// The null selector.
    pub fn null() -> (r: Self)
        ensures
            r.0 == 0,
    {
        let r = Selector::new(0, Privilege::kernel());
        assert((0u16 | 0u16) == 0u16) by (bit_vector);
        r
    }

    /// The selector of the kernel code segment.
    pub fn kernel_code() -> (r: Self)
        ensures
            r.0 == 8,
    {
        let r = Selector::new(1, Privilege::kernel());
        assert((8u16 | 0u16) == 8u16) by (bit_vector);
        r
    }

    /// The selector of the kernel data segment.
    pub fn kernel_data() -> (r: Self)
        ensures
            r.0 == 16,
    {
        let r = Selector::new(2, Privilege::kernel());
        assert((16u16 | 0u16) == 16u16) by (bit_vector);
        r
    }

    /// The selector of the user data segment.
    pub fn user_data() -> (r: Self)
        ensures
            r.0 == 27,
    {
        let r = Selector::new(3, Privilege::user());
        assert((24u16 | 3u16) == 27u16) by (bit_vector);
        r
    }

    /// The selector of the user code segment.
    pub fn user_code() -> (r: Self)
        ensures
            r.0 == 35,
    {
        let r = Selector::new(4, Privilege::user());
        assert((32u16 | 3u16) == 35u16) by (bit_vector);
        r
    }
}

/// The index of a selector is the index it was made with, and its low bits
/// are the privilege it was made with.
pub proof fn law_selector_index(index: u16, level: u16)
    requires
        index < 8192,
        level < 4,
    ensures
        (((index * 8) as u16) | level) / 8 == index,
        (((index * 8) as u16) | level) & 3 == level,
{
    assert((((index * 8) as u16) | level) / 8 == index && (((index * 8) as u16) | level) & 3 == level)
        by (bit_vector)
        requires
            index < 8192,
            level < 4,
    ;
}

/// The entries of the GDT set at boot: the null descriptor, the kernel code
/// and data segments, then the user data and code segments.
pub fn setup<const N: usize>(table: &mut Table<N>)
    requires
        old(table).wf(),
        5 <= N,
    ensures
        final(table).wf(),
        final(table).entries() == old(table).entries().update(0, 0).update(1, 0x00af_9b00_0000_ffff).update(
            2,
            0x00cf_9300_0000_ffff,
        ).update(3, 0x00cf_f300_0000_ffff).update(4, 0x00af_fb00_0000_ffff),
{
    table.set_descriptor(0, &Descriptor::null());
    table.set_descriptor(1, &Descriptor::kernel_code64());
    table.set_descriptor(2, &Descriptor::kernel_data());
    table.set_descriptor(3, &Descriptor::user_data());
    table.set_descriptor(4, &Descriptor::user_code64());
}

} // verus!
