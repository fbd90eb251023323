//! The CPU: the frame an interrupt saves, privilege levels, and the flags of
//! the control registers.
use vstd::prelude::*;

verus! {

/// The frame that the CPU and the interrupt stubs push when an interrupt is
/// raised.
#[derive(Clone, Copy, PartialEq, Eq, Structural, Debug, Hash)]
pub struct InterruptFrame {
    pub rbp: u64,
    pub rbx: u64,
    pub r12: u64,
    pub r13: u64,
    pub r14: u64,
    pub r15: u64,
    pub rax: u64,
    pub rcx: u64,
    pub rdx: u64,
    pub rsi: u64,
    pub rdi: u64,
    pub r8: u64,
    pub r9: u64,
    pub r10: u64,
    pub r11: u64,
    /// Used by the interrupt stubs.
    pub internal: u64,
    /// The error code, if the interrupt has one.
    pub code: u64,
    pub rip: u64,
    pub cs: u64,
    pub rflags: u64,
    pub rsp: u64,
    pub ss: u64,
}

/// The privilege levels of the CPU. The kernel runs in ring 0 and user code
/// in ring 3.
#[derive(Clone, Copy, PartialEq, Eq, Structural, Debug, Hash)]
pub enum Privilege {
    Ring0,
    Ring1,
    Ring2,
    Ring3,
}

impl Privilege {
    /// The number of the ring.
    pub open spec fn spec_level(self) -> u16 {
        match self {
            Privilege::Ring0 => 0,
            Privilege::Ring1 => 1,
            Privilege::Ring2 => 2,
            Privilege::Ring3 => 3,
        }
    }

    /// Ring `k` has level `k`, from 0 for the kernel to 3 for user code.
    pub proof fn law_levels(self)
        ensures
            (self.spec_level() == 0) <==> self == Privilege::Ring0,
            (self.spec_level() == 1) <==> self == Privilege::Ring1,
            (self.spec_level() == 2) <==> self == Privilege::Ring2,
            (self.spec_level() == 3) <==> self == Privilege::Ring3,
    {
    }

    /// Returns the number of the ring.
    pub fn level(self) -> (r: u16)
        ensures
            r == self.spec_level(),
            r < 4,
    {
        match self {
            Privilege::Ring0 => 0,
            Privilege::Ring1 => 1,
            Privilege::Ring2 => 2,
            Privilege::Ring3 => 3,
        }
    }

    /// The privilege of the kernel.
    pub fn kernel() -> (r: Self)
        ensures
            r == Privilege::Ring0,
    {
        Privilege::Ring0
    }

    /// The privilege of user code.
    pub fn user() -> (r: Self)
        ensures
            r == Privilege::Ring3,
    {
        Privilege::Ring3
    }
}

/// The flags of a control register, `CR0`, `CR4` or `XCR0`, as raw bits.
#[derive(Clone, Copy, PartialEq, Eq, Structural, Debug, Hash)]
pub struct ControlFlags {
    pub bits: u64,
}

impl ControlFlags {
    /// The flags with the given bits, unknown bits included.
    pub fn from_bits_retain(bits: u64) -> (r: Self)
        ensures
            r.bits == bits,
    {
        ControlFlags { bits }
    }

    /// The raw bits.
    pub fn bits(&self) -> (r: u64)
        ensures
            r == self.bits,
    {
        self.bits
    }

    /// The union of two sets of flags.
    pub fn union(self, other: Self) -> (r: Self)
        ensures
            r.bits == self.bits | other.bits,
    {
        ControlFlags { bits: self.bits | other.bits }
    }

    /// The value of a register once `flags` are enabled in it: the register
    /// is read, the flags are set, and the result is written back.
    pub fn enable(self, flags: Self) -> (r: Self)
        ensures
            r.bits == self.bits | flags.bits,
            r.contains(flags),
    {
        let r = ControlFlags { bits: self.bits | flags.bits };
        let a = self.bits;
        let b = flags.bits;
        assert((a | b) & b == b) by (bit_vector);
        r
    }

    /// The value of a register once `flags` are disabled in it: the register
    /// is read, the flags are cleared, and the result is written back.
    pub fn disable(self, flags: Self) -> (r: Self)
        ensures
            r.bits == self.bits & !flags.bits,
            r.bits & flags.bits == 0,
    {
        let a = self.bits;
        let b = flags.bits;
        assert((a & !b) & b == 0) by (bit_vector);
        ControlFlags { bits: self.bits & !flags.bits }
    }

    /// Whether every flag of `other` is set.
    pub open spec fn contains(self, other: Self) -> bool {
        self.bits & other.bits == other.bits
    }
}

/// Enabling flags and then disabling the same flags clears them, and leaves
/// every other flag of the register as it was.
pub proof fn law_disable_undoes_enable(value: u64, flags: u64)
    ensures
        (value | flags) & !flags == value & !flags,
        ((value | flags) & !flags) & flags == 0,
{
    assert((value | flags) & !flags == value & !flags) by (bit_vector);
    assert(((value | flags) & !flags) & flags == 0) by (bit_vector);
}

/// The value of a 64-bit register that an instruction such as `XGETBV` hands
/// out in two halves: `high` in `EDX`, `low` in `EAX`.
pub fn join_halves(low: u32, high: u32) -> (r: u64)
    ensures
        r == high * 0x1_0000_0000 + low,
{
    let h = high as u64;
    let l = low as u64;
    assert((h << 32u64) | l == h * 0x1_0000_0000 + l) by (bit_vector)
        requires
            h < 0x1_0000_0000,
            l < 0x1_0000_0000,
    ;
    (h << 32) | l
}

/// The halves `(low, high)` in which a 64-bit value is handed to an
/// instruction such as `XSETBV`: `low` goes in `EAX`, `high` in `EDX`.
pub fn split_halves(value: u64) -> (r: (u32, u32))
    ensures
        r.0 == value % 0x1_0000_0000,
        r.1 == value / 0x1_0000_0000,
{
    assert((value & 0xFFFF_FFFF) == value % 0x1_0000_0000 && (value >> 32u64) == value
        / 0x1_0000_0000) by (bit_vector);
    ((value & 0xFFFF_FFFF) as u32, (value >> 32) as u32)
}

/// Joining the halves a value was split into gives the value back.
pub proof fn law_join_undoes_split(value: u64)
    ensures
        (value / 0x1_0000_0000) * 0x1_0000_0000 + value % 0x1_0000_0000 == value,
        value % 0x1_0000_0000 < 0x1_0000_0000,
        value / 0x1_0000_0000 < 0x1_0000_0000,
{
    assert((value / 0x1_0000_0000) * 0x1_0000_0000 + value % 0x1_0000_0000 == value) by (nonlinear_arith);
    assert(value / 0x1_0000_0000 < 0x1_0000_0000) by (nonlinear_arith)
        requires
            value < 0x1_0000_0000_0000_0000,
    ;
}

/// `CR0.MP`: monitor the coprocessor.
pub const CR0_MP: u64 = 0x2;
/// `CR0.EM`: emulate the x87 FPU.
pub const CR0_EM: u64 = 0x4;
/// `CR4.OSFXSR`: enable `FXSAVE` and `FXRSTOR`.
pub const CR4_OSFXSR: u64 = 0x200;
/// `CR4.OSXMMEXCPT`: enable the SIMD floating point exception.
pub const CR4_OSXMMEXCPT: u64 = 0x400;
/// `CR4.OSXSAVE`: enable `XSAVE` and the extended state.
pub const CR4_OSXSAVE: u64 = 0x40000;
/// `XCR0.X87`: the x87 state.
pub const XCR0_X87: u64 = 0x1;
/// `XCR0.SSE`: the SSE state.
pub const XCR0_SSE: u64 = 0x2;

} // verus!
