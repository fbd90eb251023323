//! The task state segment: where the CPU finds the kernel stack when an
//! interrupt comes from user mode.
use vstd::prelude::*;
use super::cpu::Privilege;
use super::gdt::{self, Descriptor, Selector, Table};

verus! {

/// The index of the first TSS entry of the GDT. The TSS of a core takes two
/// entries, from `SELECTOR_BASE_IDX + 2 * core` on.
pub const SELECTOR_BASE_IDX: u16 = 6;

/// The largest number of cores.
pub const MAX_CPUS: usize = 32;

/// The task state segment of a core.
#[derive(Clone, Copy, Debug)]
pub struct TaskStateSegment {
    reserved_1: u32,
    stack_table: [u64; 3],
    reserved_2: u64,
    interrupt_stack_table: [u64; 7],
    reserved_3: u64,
    reserved_4: u16,
    iomap_base: u16,
}

impl TaskStateSegment {
    /// The stack the CPU switches to when an interrupt comes from user
    /// mode.
    pub closed spec fn kernel_stack(self) -> u64 {
        self.stack_table[0]
    }

    /// The offset of the I/O permission bitmap.
    pub closed spec fn spec_iomap_base(self) -> u16 {
        self.iomap_base
    }

    /// The other stacks: those of the privilege levels 1 and 2 and those of
    /// the interrupt stack table.
    pub closed spec fn other_stacks(self) -> (u64, u64, Seq<u64>) {
        (self.stack_table[1], self.stack_table[2], self.interrupt_stack_table@)
    }

    /// A segment whose fields are all 0, but for the offset of the I/O
    /// permission bitmap, 104: the size of the segment, so that there is
    /// no bitmap.
    pub fn new() -> (r: Self)
        ensures
            r.kernel_stack() == 0,
            r.spec_iomap_base() == 104,
            r.other_stacks() == (0u64, 0u64, Seq::new(7, |i: int| 0u64)),
    {
        let r = TaskStateSegment {
            reserved_1: 0,
            stack_table: [0, 0, 0],
            reserved_2: 0,
            interrupt_stack_table: [0, 0, 0, 0, 0, 0, 0],
            reserved_3: 0,
            reserved_4: 0,
            iomap_base: 104,
        };
        assert(r.interrupt_stack_table@ =~= Seq::new(7, |i: int| 0u64));
        r
    }

    /// Sets the stack the CPU switches to when an interrupt comes from user
    /// mode.
    pub fn set_kernel_stack(&mut self, stack: u64)
        ensures
            final(self).kernel_stack() == stack,
            final(self).spec_iomap_base() == old(self).spec_iomap_base(),
            final(self).other_stacks() == old(self).other_stacks(),
    {
        self.stack_table[0] = stack;
    }
}

/// The selector of the TSS of the given core.
pub fn selector(core: u32) -> (r: Selector)
    requires
        core < MAX_CPUS,
    ensures
        r.0 == (((SELECTOR_BASE_IDX + 2 * core) * 8) as u16),
        r.0 / 8 == SELECTOR_BASE_IDX + 2 * core,
{
    let index = SELECTOR_BASE_IDX + (core as u16) * 2;
    let r = Selector::new(index, Privilege::kernel());
    assert((((index * 8) as u16) | 0u16) == ((index * 8) as u16)) by (bit_vector);
    assert(((index * 8) as u16) / 8 == index) by (bit_vector)
        requires
            index < 8192,
    ;
    r
}

/// Writes the descriptor of the TSS of the given core, at `address`, into
/// the GDT, at the entry that the selector of the core designates, and
/// returns that selector, which the CPU then loads.
pub fn install<const N: usize>(table: &mut Table<N>, core: u32, address: u64) -> (r: Selector)
    requires
        old(table).wf(),
        core < MAX_CPUS,
        SELECTOR_BASE_IDX + 2 * core + 1 < N,
    ensures
        final(table).wf(),
        r.0 / 8 == SELECTOR_BASE_IDX + 2 * core,
        final(table).entries() == old(table).entries().update(r.0 / 8 + 1, gdt::tss_high(address)).update(
            (r.0 / 8) as int,
            gdt::tss_low(address),
        ),
{
    let sel = selector(core);
    let descriptor = Descriptor::tss(address);
    table.set_descriptor(sel.index() as usize, &descriptor);
    sel
}

} // verus!
