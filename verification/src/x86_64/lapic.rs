//! The local APIC of each core: its registers and the inter-processor
//! interrupts it sends.
use vstd::prelude::*;

verus! {

/// The virtual address at which the registers of the local APIC are mapped.
pub const LAPIC_BASE: u64 = 0xFFFF_8000_FEE0_0000;

/// The registers of the local APIC.
#[derive(Clone, Copy, PartialEq, Eq, Structural, Debug, Hash)]
pub enum Register {
    Id,
    Version,
    TaskPriority,
    ArbitrationPriority,
    ProcessorPriority,
    EndOfInterrupt,
    RemoteRead,
    LogicalDestination,
    DestinationFormat,
    SpuriousInterruptVector,
    InService(u8),
    TriggerMode(u8),
    InterruptRequest(u8),
    ErrorStatus,
    LvtCmci,
    InterruptCommand0,
    InterruptCommand1,
    LvtTimer,
    LvtThermalSensor,
    LvtPerformanceCounter,
    LvtLint0,
    LvtLint1,
    LvtError,
    InitialCount,
    CurrentCount,
    DivideConfiguration,
}

impl Register {
    /// Whether the register exists: the banks of in-service, trigger mode
    /// and interrupt request registers have 8 registers each.
    pub open spec fn valid(self) -> bool {
        match self {
            Register::InService(i) => i < 8,
            Register::TriggerMode(i) => i < 8,
            Register::InterruptRequest(i) => i < 8,
            _ => true,
        }
    }

    /// The offset of the register from the base of the local APIC.
    pub open spec fn spec_offset(self) -> u64 {
        match self {
            Register::Id => 0x20,
            Register::Version => 0x30,
            Register::TaskPriority => 0x80,
            Register::ArbitrationPriority => 0x90,
            Register::ProcessorPriority => 0xA0,
            Register::EndOfInterrupt => 0xB0,
            Register::RemoteRead => 0xC0,
            Register::LogicalDestination => 0xD0,
            Register::DestinationFormat => 0xE0,
            Register::SpuriousInterruptVector => 0xF0,
            Register::InService(i) => (0x100 + 0x10 * i) as u64,
            Register::TriggerMode(i) => (0x180 + 0x10 * i) as u64,
            Register::InterruptRequest(i) => (0x200 + 0x10 * i) as u64,
            Register::ErrorStatus => 0x280,
            Register::LvtCmci => 0x2F0,
            Register::InterruptCommand0 => 0x300,
            Register::InterruptCommand1 => 0x310,
            Register::LvtTimer => 0x320,
            Register::LvtThermalSensor => 0x330,
            Register::LvtPerformanceCounter => 0x340,
            Register::LvtLint0 => 0x350,
            Register::LvtLint1 => 0x360,
            Register::LvtError => 0x370,
            Register::InitialCount => 0x380,
            Register::CurrentCount => 0x390,
            Register::DivideConfiguration => 0x3E0,
        }
    }

    /// Returns the offset of the register from the base of the local APIC.
    pub fn offset(self) -> (r: u64)
        requires
            self.valid(),
        ensures
            r == self.spec_offset(),
            r < 0x400,
    {
        match self {
            Register::Id => 0x20,
            Register::Version => 0x30,
            Register::TaskPriority => 0x80,
            Register::ArbitrationPriority => 0x90,
            Register::ProcessorPriority => 0xA0,
            Register::EndOfInterrupt => 0xB0,
            Register::RemoteRead => 0xC0,
            Register::LogicalDestination => 0xD0,
            Register::DestinationFormat => 0xE0,
            Register::SpuriousInterruptVector => 0xF0,
            Register::InService(i) => 0x100 + 0x10 * (i as u64),
            Register::TriggerMode(i) => 0x180 + 0x10 * (i as u64),
            Register::InterruptRequest(i) => 0x200 + 0x10 * (i as u64),
            Register::ErrorStatus => 0x280,
            Register::LvtCmci => 0x2F0,
            Register::InterruptCommand0 => 0x300,
            Register::InterruptCommand1 => 0x310,
            Register::LvtTimer => 0x320,
            Register::LvtThermalSensor => 0x330,
            Register::LvtPerformanceCounter => 0x340,
            Register::LvtLint0 => 0x350,
            Register::LvtLint1 => 0x360,
            Register::LvtError => 0x370,
            Register::InitialCount => 0x380,
            Register::CurrentCount => 0x390,
            Register::DivideConfiguration => 0x3E0,
        }
    }

    /// Returns the virtual address of the register.
    pub fn address(self) -> (r: u64)
        requires
            self.valid(),
        ensures
            r == LAPIC_BASE + self.spec_offset(),
    {
        LAPIC_BASE + self.offset()
    }
}

/// The offset of each register is the one the architecture gives it: the
/// spurious interrupt vector register is at 0xF0, and the banks of 8
/// in-service, trigger mode and interrupt request registers are 16 bytes
/// apart.
pub proof fn law_register_offsets()
    ensures
        Register::Id.spec_offset() == 0x20,
        Register::Version.spec_offset() == 0x30,
        Register::TaskPriority.spec_offset() == 0x80,
        Register::ArbitrationPriority.spec_offset() == 0x90,
        Register::ProcessorPriority.spec_offset() == 0xA0,
        Register::EndOfInterrupt.spec_offset() == 0xB0,
        Register::RemoteRead.spec_offset() == 0xC0,
        Register::LogicalDestination.spec_offset() == 0xD0,
        Register::DestinationFormat.spec_offset() == 0xE0,
        Register::SpuriousInterruptVector.spec_offset() == 0xF0,
        Register::ErrorStatus.spec_offset() == 0x280,
        Register::LvtCmci.spec_offset() == 0x2F0,
        Register::InterruptCommand0.spec_offset() == 0x300,
        Register::InterruptCommand1.spec_offset() == 0x310,
        Register::LvtTimer.spec_offset() == 0x320,
        Register::LvtThermalSensor.spec_offset() == 0x330,
        Register::LvtPerformanceCounter.spec_offset() == 0x340,
        Register::LvtLint0.spec_offset() == 0x350,
        Register::LvtLint1.spec_offset() == 0x360,
        Register::LvtError.spec_offset() == 0x370,
        Register::InitialCount.spec_offset() == 0x380,
        Register::CurrentCount.spec_offset() == 0x390,
        Register::DivideConfiguration.spec_offset() == 0x3E0,
        forall|i: u8| i < 8 ==> #[trigger] Register::InService(i).spec_offset() == 0x100 + 0x10 * i,
        forall|i: u8| i < 8 ==> #[trigger] Register::TriggerMode(i).spec_offset() == 0x180 + 0x10 * i,
        forall|i: u8| i < 8 ==> #[trigger] Register::InterruptRequest(i).spec_offset() == 0x200 + 0x10 * i,
{
}

/// Two different registers are at different offsets, each a multiple of 16
/// below 0x400.
pub proof fn law_register_offsets_distinct(a: Register, b: Register)
    requires
        a.valid(),
        b.valid(),
    ensures
        a.spec_offset() % 16 == 0,
        a.spec_offset() < 0x400,
        a != b ==> a.spec_offset() != b.spec_offset(),
{
}

/// The destination of an inter-processor interrupt.
#[derive(Clone, Copy, PartialEq, Eq, Structural, Debug, Hash)]
pub enum IpiDestination {
    /// The core with the given APIC identifier.
    Core(u8),
    /// The current core.
    Current,
    /// All the cores.
    All,
    /// All the cores but the current one.
    Other,
}

/// The delivery mode of an inter-processor interrupt.
#[derive(Clone, Copy, PartialEq, Eq, Structural, Debug, Hash)]
pub enum IpiPriority {
    Normal,
    Low,
    Smi,
    Nmi,
}

impl IpiPriority {
    /// The code of the delivery mode.
    pub open spec fn spec_code(self) -> u32 {
        match self {
            IpiPriority::Normal => 0,
            IpiPriority::Low => 1,
            IpiPriority::Smi => 2,
            IpiPriority::Nmi => 4,
        }
    }

    /// Returns the code of the delivery mode.
    pub fn code(self) -> (r: u32)
        ensures
            r == self.spec_code(),
    {
        match self {
            IpiPriority::Normal => 0,
            IpiPriority::Low => 1,
            IpiPriority::Smi => 2,
            IpiPriority::Nmi => 4,
        }
    }
}

/// The code of each delivery mode is the architectural one: fixed 0, lowest
/// priority 1, SMI 2 and NMI 4.
pub proof fn law_ipi_priority_codes(p: IpiPriority)
    ensures
        (p.spec_code() == 0) <==> p == IpiPriority::Normal,
        (p.spec_code() == 1) <==> p == IpiPriority::Low,
        (p.spec_code() == 2) <==> p == IpiPriority::Smi,
        (p.spec_code() == 4) <==> p == IpiPriority::Nmi,
{
}

/// The two words of the interrupt command register that send an IPI: the
/// high word holds the destination core, the low word the vector, the
/// delivery mode in bits 8 to 10 and the destination shorthand in bits 18
/// and 19 (1 the current core, 2 all cores, 3 all other cores).
pub open spec fn spec_ipi_command(destination: IpiDestination, priority: IpiPriority, vector: u8) -> (u32, u32) {
    let low = (vector as u32) | (priority.spec_code() << 8u32);
    match destination {
        IpiDestination::Core(core) => ((core as u32) << 24u32, low),
        IpiDestination::All => (0, low | (2u32 << 18u32)),
        IpiDestination::Other => (0, low | (3u32 << 18u32)),
        IpiDestination::Current => (0, low | (1u32 << 18u32)),
    }
}

/// Returns the words written to the high then the low half of the
/// interrupt command register to send an IPI.
pub fn ipi_command(destination: IpiDestination, priority: IpiPriority, vector: u8) -> (r: (u32, u32))
    ensures
        r == spec_ipi_command(destination, priority, vector),
{
    let low = (vector as u32) | (priority.code() << 8);
    match destination {
        IpiDestination::Core(core) => ((core as u32) << 24, low),
        IpiDestination::All => (0, low | (2 << 18)),
        IpiDestination::Other => (0, low | (3 << 18)),
        IpiDestination::Current => (0, low | (1 << 18)),
    }
}

/// Returns `true` while the IPI written to the interrupt command register is
/// still being sent: its delivery status, bit 12 of the low word, is set.
pub fn ipi_pending(command_low: u32) -> (r: bool)
    ensures
        r == (command_low & 0x1000 != 0),
{
    command_low & 0x1000 != 0
}

/// The value of the spurious interrupt vector register once the local APIC
/// is enabled: bit 8 set, the rest as read.
pub fn enabled_spurious(spurious: u32) -> (r: u32)
    ensures
        r == spurious | 0x100,
{
    spurious | 0x100
}

/// The vector and the delivery mode of an IPI are where the command puts
/// them, whatever the destination.
pub proof fn law_ipi_vector(destination: IpiDestination, priority: IpiPriority, vector: u8)
    ensures
        spec_ipi_command(destination, priority, vector).1 & 0xFF == vector as u32,
        (spec_ipi_command(destination, priority, vector).1 >> 8u32) & 0x7 == priority.spec_code(),
{
    let v = vector as u32;
    let p = priority.spec_code();
    assert(p <= 4);
    assert(((v | (p << 8u32)) & 0xFF == v) && (((v | (p << 8u32)) >> 8u32) & 0x7 == p)
        && (((v | (p << 8u32)) | (2u32 << 18u32)) & 0xFF == v) && ((((v | (p << 8u32)) | (2u32 << 18u32)) >> 8u32) & 0x7 == p)
        && (((v | (p << 8u32)) | (3u32 << 18u32)) & 0xFF == v) && ((((v | (p << 8u32)) | (3u32 << 18u32)) >> 8u32) & 0x7 == p)
        && (((v | (p << 8u32)) | (1u32 << 18u32)) & 0xFF == v) && ((((v | (p << 8u32)) | (1u32 << 18u32)) >> 8u32) & 0x7 == p))
        by (bit_vector)
        requires
            v < 256,
            p <= 4,
    ;
}

/// The destination of an IPI is where the command puts it: a core by its
/// identifier in the top byte of the high word with no shorthand, otherwise
/// the shorthand in bits 18 and 19 of the low word, 1 for the current core,
/// 2 for all cores and 3 for all other cores, with a high word of 0.
pub proof fn law_ipi_destination(destination: IpiDestination, priority: IpiPriority, vector: u8)
    ensures
        (spec_ipi_command(destination, priority, vector).1 >> 18u32) & 0x3 == match destination {
            IpiDestination::Core(_) => 0u32,
            IpiDestination::Current => 1u32,
            IpiDestination::All => 2u32,
            IpiDestination::Other => 3u32,
        },
        spec_ipi_command(destination, priority, vector).0 == match destination {
            IpiDestination::Core(core) => (core as u32) << 24u32,
            _ => 0u32,
        },
{
    let v = vector as u32;
    let p = priority.spec_code();
    assert(p <= 4);
    assert((((v | (p << 8u32)) >> 18u32) & 0x3 == 0) && ((((v | (p << 8u32)) | (1u32 << 18u32)) >> 18u32) & 0x3 == 1)
        && ((((v | (p << 8u32)) | (2u32 << 18u32)) >> 18u32) & 0x3 == 2) && ((((v | (p << 8u32)) | (3u32 << 18u32)) >> 18u32) & 0x3 == 3))
        by (bit_vector)
        requires
            v < 256,
            p <= 4,
    ;
}

} // verus!
