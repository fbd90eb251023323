//! The CPU exceptions, the first 32 interrupt vectors, and what the kernel
//! does with each.
use vstd::prelude::*;
use super::cpu::Privilege;

verus! {

/// The number of exception vectors.
pub const EXCEPTION_COUNT: u8 = 32;

/// The handler installed for an exception vector.
#[derive(Clone, Copy, PartialEq, Eq, Structural, Debug, Hash)]
pub enum Exception {
    DivideByZero,
    Debug,
    NonMaskableInterrupt,
    Breakpoint,
    Overflow,
    BoundRangeExceeded,
    InvalidOpcode,
    DeviceNotAvailable,
    DoubleFault,
    CoprocessorOverrun,
    InvalidTss,
    SegmentNotPresent,
    StackSegmentFault,
    GeneralProtectionFault,
    PageFault,
    X87FloatingPoint,
    AlignmentCheck,
    MachineCheck,
    SimdFloatingPoint,
    Virtualization,
    ControlProtection,
    HypervisorInjection,
    SecurityException,
    Reserved,
}

/// What the kernel does when an exception is raised.
#[derive(Clone, Copy, PartialEq, Eq, Structural, Debug, Hash)]
pub enum Action {
    /// The kernel panics.
    Panic,
    /// The core halts forever: a non-maskable interrupt is how a panic stops
    /// the other cores.
    Freeze,
    /// The page fault handler runs, with the faulting address and the error
    /// code.
    HandlePageFault,
}

/// The handler installed for each vector.
pub open spec fn spec_handler(vector: u8) -> Exception {
    if vector == 0 {
        Exception::DivideByZero
    } else if vector == 1 {
        Exception::Debug
    } else if vector == 2 {
        Exception::NonMaskableInterrupt
    } else if vector == 3 {
        Exception::Breakpoint
    } else if vector == 4 {
        Exception::Overflow
    } else if vector == 5 {
        Exception::BoundRangeExceeded
    } else if vector == 6 {
        Exception::InvalidOpcode
    } else if vector == 7 {
        Exception::DeviceNotAvailable
    } else if vector == 8 {
        Exception::DoubleFault
    } else if vector == 9 {
        Exception::CoprocessorOverrun
    } else if vector == 10 {
        Exception::InvalidTss
    } else if vector == 11 {
        Exception::SegmentNotPresent
    } else if vector == 12 {
        Exception::StackSegmentFault
    } else if vector == 13 {
        Exception::GeneralProtectionFault
    } else if vector == 14 {
        Exception::PageFault
    } else if vector == 16 {
        Exception::X87FloatingPoint
    } else if vector == 17 {
        Exception::AlignmentCheck
    } else if vector == 18 {
        Exception::MachineCheck
    } else if vector == 19 {
        Exception::SimdFloatingPoint
    } else if vector == 20 || vector == 29 {
        Exception::Virtualization
    } else if vector == 21 {
        Exception::ControlProtection
    } else if vector == 28 {
        Exception::HypervisorInjection
    } else if vector == 30 {
        Exception::SecurityException
    } else {
        Exception::Reserved
    }
}

/// Returns the handler installed for the given exception vector.
pub fn handler(vector: u8) -> (r: Exception)
    requires
        vector < EXCEPTION_COUNT,
    ensures
        r == spec_handler(vector),
{
    match vector {
        0 => Exception::DivideByZero,
        1 => Exception::Debug,
        2 => Exception::NonMaskableInterrupt,
        3 => Exception::Breakpoint,
        4 => Exception::Overflow,
        5 => Exception::BoundRangeExceeded,
        6 => Exception::InvalidOpcode,
        7 => Exception::DeviceNotAvailable,
        8 => Exception::DoubleFault,
        9 => Exception::CoprocessorOverrun,
        10 => Exception::InvalidTss,
        11 => Exception::SegmentNotPresent,
        12 => Exception::StackSegmentFault,
        13 => Exception::GeneralProtectionFault,
        14 => Exception::PageFault,
        16 => Exception::X87FloatingPoint,
        17 => Exception::AlignmentCheck,
        18 => Exception::MachineCheck,
        19 => Exception::SimdFloatingPoint,
        20 | 29 => Exception::Virtualization,
        21 => Exception::ControlProtection,
        28 => Exception::HypervisorInjection,
        30 => Exception::SecurityException,
        _ => Exception::Reserved,
    }
}

impl Exception {
    /// What the kernel does for this exception.
    pub fn action(self) -> (r: Action)
        ensures
            self == Exception::NonMaskableInterrupt ==> r == Action::Freeze,
            self == Exception::PageFault ==> r == Action::HandlePageFault,
            self != Exception::NonMaskableInterrupt && self != Exception::PageFault ==> r == Action::Panic,
    {
        match self {
            Exception::NonMaskableInterrupt => Action::Freeze,
            Exception::PageFault => Action::HandlePageFault,
            _ => Action::Panic,
        }
    }

    /// Whether the CPU pushes an error code for this exception.
    pub fn has_error_code(self) -> (r: bool)
        ensures
            r == (self == Exception::DoubleFault || self == Exception::InvalidTss || self
                == Exception::SegmentNotPresent || self == Exception::StackSegmentFault || self
                == Exception::GeneralProtectionFault || self == Exception::PageFault || self
                == Exception::AlignmentCheck || self == Exception::ControlProtection || self
                == Exception::SecurityException),
    {
        match self {
            Exception::DoubleFault | Exception::InvalidTss | Exception::SegmentNotPresent
            | Exception::StackSegmentFault | Exception::GeneralProtectionFault | Exception::PageFault
            | Exception::AlignmentCheck | Exception::ControlProtection
            | Exception::SecurityException => true,
            _ => false,
        }
    }
}

/// The handler of each exception vector is the one the architecture gives
/// the vector: a general protection fault is vector 13 and a page fault
/// vector 14 only, and the vectors the architecture reserves get the
/// reserved handler.
pub proof fn law_exception_vectors(v: u8)
    requires
        v < EXCEPTION_COUNT,
    ensures
        (spec_handler(v) == Exception::DivideByZero) <==> (v == 0),
        (spec_handler(v) == Exception::Debug) <==> (v == 1),
        (spec_handler(v) == Exception::NonMaskableInterrupt) <==> (v == 2),
        (spec_handler(v) == Exception::Breakpoint) <==> (v == 3),
        (spec_handler(v) == Exception::Overflow) <==> (v == 4),
        (spec_handler(v) == Exception::BoundRangeExceeded) <==> (v == 5),
        (spec_handler(v) == Exception::InvalidOpcode) <==> (v == 6),
        (spec_handler(v) == Exception::DeviceNotAvailable) <==> (v == 7),
        (spec_handler(v) == Exception::DoubleFault) <==> (v == 8),
        (spec_handler(v) == Exception::CoprocessorOverrun) <==> (v == 9),
        (spec_handler(v) == Exception::InvalidTss) <==> (v == 10),
        (spec_handler(v) == Exception::SegmentNotPresent) <==> (v == 11),
        (spec_handler(v) == Exception::StackSegmentFault) <==> (v == 12),
        (spec_handler(v) == Exception::GeneralProtectionFault) <==> (v == 13),
        (spec_handler(v) == Exception::PageFault) <==> (v == 14),
        (spec_handler(v) == Exception::X87FloatingPoint) <==> (v == 16),
        (spec_handler(v) == Exception::AlignmentCheck) <==> (v == 17),
        (spec_handler(v) == Exception::MachineCheck) <==> (v == 18),
        (spec_handler(v) == Exception::SimdFloatingPoint) <==> (v == 19),
        (spec_handler(v) == Exception::Virtualization) <==> (v == 20 || v == 29),
        (spec_handler(v) == Exception::ControlProtection) <==> (v == 21),
        (spec_handler(v) == Exception::HypervisorInjection) <==> (v == 28),
        (spec_handler(v) == Exception::SecurityException) <==> (v == 30),
        (spec_handler(v) == Exception::Reserved) <==> (v == 15 || v == 22 || v == 23 || v == 24 || v == 25 || v == 26 || v == 27 || v == 31),
{
}

/// The privilege level of the IDT entry of an exception handler: the
/// kernel's.
pub fn gate_privilege() -> (r: Privilege)
    ensures
        r == Privilege::Ring0,
{
    Privilege::kernel()
}

} // verus!
