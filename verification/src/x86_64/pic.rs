//! The legacy programmable interrupt controllers, remapped right after the
//! CPU exceptions.
use vstd::prelude::*;

verus! {

/// The first interrupt vector of the PICs: the master PIC raises the
/// vectors `IRQ_BASE..IRQ_BASE + 8`, the slave PIC the next 8.
pub const IRQ_BASE: u8 = 32;

/// The number of IRQs of a PIC.
pub const IRQ_PER_PIC: u8 = 8;

/// The number of PICs.
pub const PIC_COUNT: u8 = 2;

/// The number of IRQs of the PICs.
pub const IRQ_COUNT: usize = 16;

/// The end-of-interrupt command.
pub const PIC_EOI: u8 = 0x20;

/// Returns `true` if the interrupt vector raised by the CPU is one of the
/// PICs.
pub fn concerned(vector: u8) -> (r: bool)
    ensures
        r == (IRQ_BASE <= vector < IRQ_BASE + 16),
{
    IRQ_BASE <= vector && vector < IRQ_BASE + 16
}

/// The PICs that must be sent an end-of-interrupt for an IRQ.
#[derive(Clone, Copy, PartialEq, Eq, Structural, Debug, Hash)]
pub enum EoiTarget {
    /// The master PIC only: IRQs 0 to 7.
    Master,
    /// The slave PIC, then the master PIC: IRQs 8 to 15.
    SlaveThenMaster,
    /// None: the IRQ is not one of the PICs.
    NotConcerned,
}

/// Where the end-of-interrupt of the given IRQ (numbered from 0, not as a
/// vector) must be sent.
pub fn eoi_target(irq: u8) -> (r: EoiTarget)
    ensures
        irq < 8 ==> r == EoiTarget::Master,
        8 <= irq < 16 ==> r == EoiTarget::SlaveThenMaster,
        irq >= 16 ==> r == EoiTarget::NotConcerned,
{
    if irq < 8 {
        EoiTarget::Master
    } else if irq < 16 {
        EoiTarget::SlaveThenMaster
    } else {
        EoiTarget::NotConcerned
    }
}

/// The bytes written, in order, to the command port of the master PIC, its
/// data port, the command port of the slave PIC and its data port, to remap
/// them: cascade mode with ICW4, the base vectors, the wiring of the two
/// PICs, 8086 mode, and no mask. Each item is a port (0 master command, 1
/// master data, 2 slave command, 3 slave data) and a byte.
pub fn remap_sequence() -> (r: Vec<(u8, u8)>)
    ensures
        r@ == seq![(0u8, 0x11u8), (2u8, 0x11u8), (1u8, IRQ_BASE), (3u8, (IRQ_BASE + 8) as u8), (1u8, 4u8), (3u8, 2u8), (1u8, 1u8), (3u8, 1u8), (1u8, 0u8), (3u8, 0u8)],
{
    let mut r: Vec<(u8, u8)> = Vec::new();
    r.push((0, 0x11));
    r.push((2, 0x11));
    r.push((1, IRQ_BASE));
    r.push((3, IRQ_BASE + 8));
    r.push((1, 4));
    r.push((3, 2));
    r.push((1, 1));
    r.push((3, 1));
    r.push((1, 0));
    r.push((3, 0));
    assert(r@ =~= seq![(0u8, 0x11u8), (2u8, 0x11u8), (1u8, IRQ_BASE), (3u8, (IRQ_BASE + 8) as u8), (1u8, 4u8), (3u8, 2u8), (1u8, 1u8), (3u8, 1u8), (1u8, 0u8), (3u8, 0u8)]);
    r
}

} // verus!
