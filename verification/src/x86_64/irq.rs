//! The IRQs of the PICs, and what the kernel does with each.
use vstd::prelude::*;
use super::lapic::{self, IpiDestination, IpiPriority};
use super::pic::{self, EoiTarget};

verus! {

/// The vector of the IPI that tells every core that a timer tick came.
pub const CLOCK_VECTOR: u8 = 0x7E;

/// The IRQ of the PIT.
pub const PIT_IRQ: u8 = 0;

/// The IRQ of the keyboard.
pub const KEYBOARD_IRQ: u8 = 1;

/// What the IRQ handler does for an IRQ, once its end-of-interrupt is sent.
#[derive(Clone, Copy, PartialEq, Eq, Structural, Debug, Hash)]
pub enum IrqAction {
    /// A timer tick: count it, advance the timers, and send the clock IPI to
    /// every core, with the given high and low command words.
    Clock(u32, u32),
    /// A key: report it.
    Keyboard,
    /// An IRQ without a handler: report it.
    Unhandled,
}

/// The IRQ that the stub passed in the error code of the frame: its low
/// byte.
pub fn irq_number(code: u64) -> (r: u8)
    ensures
        r == code % 256,
{
    let r = (code & 0xFF) as u8;
    assert((code & 0xFF) == code % 256) by (bit_vector);
    r
}

/// Decides what the IRQ handler does for the given error code: where the
/// end-of-interrupt goes, and then what to do.
pub fn dispatch(code: u64) -> (r: (EoiTarget, IrqAction))
    ensures
        ({
            let irq = (code % 256) as u8;
            &&& r.0 == (if irq < 8 {
                EoiTarget::Master
            } else if irq < 16 {
                EoiTarget::SlaveThenMaster
            } else {
                EoiTarget::NotConcerned
            })
            &&& r.1 == (if irq == PIT_IRQ {
                IrqAction::Clock(
                    lapic::spec_ipi_command(IpiDestination::All, IpiPriority::Normal, CLOCK_VECTOR).0,
                    lapic::spec_ipi_command(IpiDestination::All, IpiPriority::Normal, CLOCK_VECTOR).1,
                )
            } else if irq == KEYBOARD_IRQ {
                IrqAction::Keyboard
            } else {
                IrqAction::Unhandled
            })
        }),
{
    let irq = irq_number(code);
    let eoi = pic::eoi_target(irq);
    let action = if irq == PIT_IRQ {
        let (high, low) = lapic::ipi_command(IpiDestination::All, IpiPriority::Normal, CLOCK_VECTOR);
        IrqAction::Clock(high, low)
    } else if irq == KEYBOARD_IRQ {
        IrqAction::Keyboard
    } else {
        IrqAction::Unhandled
    };
    (eoi, action)
}

/// What must be done around a function run with interrupts disabled: they
/// are disabled before, and enabled after, only if they were enabled.
pub fn without_interrupts(enabled: bool) -> (r: (bool, bool))
    ensures
        r == (enabled, enabled),
{
    (enabled, enabled)
}

/// Whether interrupts are enabled, from the value of `RFLAGS`: its
/// interrupt flag, bit 9.
pub fn enabled(rflags: u64) -> (r: bool)
    ensures
        r == (rflags & 0x200 != 0),
{
    rflags & 0x200 != 0
}

} // verus!
