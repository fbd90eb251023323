//! The FPU: the buffer its state is saved to, and the control register
//! flags that enable it.
use vstd::prelude::*;
use super::cpu::{ControlFlags, CR0_EM, CR0_MP, CR4_OSFXSR, CR4_OSXMMEXCPT, CR4_OSXSAVE, XCR0_SSE, XCR0_X87};

verus! {

/// The size of the buffer of an FPU state, in bytes.
pub const STATE_SIZE: usize = 4096;

/// The saved state of the FPU of a thread.
#[derive(Clone, Debug)]
pub struct State {
    inner: Vec<u8>,
}

impl State {
    /// The bytes of the saved state.
    pub closed spec fn bytes(self) -> Seq<u8> {
        self.inner@
    }

    /// A state whose bytes are all 0.
    pub fn zeroed() -> (r: Self)
        ensures
            r.bytes() == Seq::new(STATE_SIZE as nat, |i: int| 0u8),
    {
        let mut inner: Vec<u8> = Vec::new();
        let mut i: usize = 0;
        while i < STATE_SIZE
            invariant
                i <= STATE_SIZE,
                inner@ == Seq::new(i as nat, |k: int| 0u8),
            decreases STATE_SIZE - i,
        {
            inner.push(0);
            assert(inner@ =~= Seq::new((i + 1) as nat, |k: int| 0u8));
            i = i + 1;
        }
        State { inner }
    }
}

/// Why the FPU cannot be set up.
#[derive(Clone, Copy, PartialEq, Eq, Structural, Debug, Hash)]
pub enum SetupError {
    /// The CPU has no SSE.
    NoSse,
    /// The CPU has no `XSAVE`.
    NoXsave,
}

/// The values of `CR0`, `CR4` and `XCR0` that set up the FPU, from their
/// current values and from what `CPUID` leaf 1 reports in `EDX` and `ECX`:
/// SSE (bit 25 of `EDX`) and `XSAVE` (bit 26 of `ECX`) are required;
/// emulation is disabled and the coprocessor monitored; `FXSAVE`, `XSAVE`
/// and SIMD exceptions are enabled; and the x87 and SSE states are saved.
pub fn setup(edx: u32, ecx: u32, cr0: ControlFlags, cr4: ControlFlags, xcr0: ControlFlags) -> (r: Result<
    (ControlFlags, ControlFlags, ControlFlags),
    SetupError,
>)
    ensures
        edx & 0x200_0000 == 0 ==> r == Err::<(ControlFlags, ControlFlags, ControlFlags), SetupError>(
            SetupError::NoSse,
        ),
        edx & 0x200_0000 != 0 && ecx & 0x400_0000 == 0 ==> r == Err::<
            (ControlFlags, ControlFlags, ControlFlags),
            SetupError,
        >(SetupError::NoXsave),
        r matches Ok(v) ==> edx & 0x200_0000 != 0 && ecx & 0x400_0000 != 0 && v.0.bits == (cr0.bits
            | CR0_MP) & !CR0_EM && v.1.bits == cr4.bits | (CR4_OSFXSR | CR4_OSXSAVE | CR4_OSXMMEXCPT)
            && v.2.bits == xcr0.bits | (XCR0_X87 | XCR0_SSE),
        edx & 0x200_0000 != 0 && ecx & 0x400_0000 != 0 ==> r is Ok,
{
    if edx & 0x200_0000 == 0 {
        return Err(SetupError::NoSse);
    }
    if ecx & 0x400_0000 == 0 {
        return Err(SetupError::NoXsave);
    }
    let cr0 = cr0.enable(ControlFlags::from_bits_retain(CR0_MP)).disable(
        ControlFlags::from_bits_retain(CR0_EM),
    );
    let cr4 = cr4.enable(ControlFlags::from_bits_retain(CR4_OSFXSR | CR4_OSXSAVE | CR4_OSXMMEXCPT));
    let xcr0 = xcr0.enable(ControlFlags::from_bits_retain(XCR0_X87 | XCR0_SSE));
    Ok((cr0, cr4, xcr0))
}

} // verus!
