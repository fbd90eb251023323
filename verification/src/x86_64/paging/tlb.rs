//! Keeping the TLBs of the cores coherent.
use vstd::prelude::*;
use crate::x86_64::lapic::{self, IpiDestination, IpiPriority};

verus! {

/// The vector of the IPI that asks the other cores to flush their TLB.
pub const SHOOTDOWN_VECTOR: u8 = 0x7F;

/// The command words of the IPI that asks every other core to flush its
/// TLB, before the current core invalidates the address in its own.
pub fn shootdown_command() -> (r: (u32, u32))
    ensures
        r == lapic::spec_ipi_command(IpiDestination::Other, IpiPriority::Normal, SHOOTDOWN_VECTOR),
{
    lapic::ipi_command(IpiDestination::Other, IpiPriority::Normal, SHOOTDOWN_VECTOR)
}

} // verus!
