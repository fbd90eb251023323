//! Threads: the kernel stack of a thread, the state saved on it, and the
//! frame through which a new thread is entered.
use vstd::prelude::*;
use crate::address::{Virtual, PAGE_SIZE};
use super::gdt::Selector;

verus! {

/// The number of frames of a kernel stack.
pub const KSTACK_FRAMES: usize = 4;

/// The bytes kept free at the top of a kernel stack, for the frame through
/// which a new thread is entered.
pub const TRAMPOLINE_SPACE: u64 = 64;

/// The size of the saved [`State`], in bytes.
pub const STATE_SIZE: u64 = 64;

/// The value of `RFLAGS` a thread starts with: interrupts enabled.
pub const INITIAL_RFLAGS: usize = 0x200;

/// The registers saved on the kernel stack of a thread that does not run.
#[derive(Clone, Copy, PartialEq, Eq, Structural, Debug, Hash)]
pub struct State {
    pub rflags: usize,
    pub rbp: usize,
    pub rbx: usize,
    pub r12: usize,
    pub r13: usize,
    pub r14: usize,
    pub r15: usize,
    pub rip: usize,
}

impl State {
    /// The state a thread starts from: every register 0, and the
    /// instruction pointer at `entry`, the routine that enters a new thread.
    pub fn initial(entry: usize) -> (r: Self)
        ensures
            r == (State { rflags: 0, rbp: 0, rbx: 0, r12: 0, r13: 0, r14: 0, r15: 0, rip: entry }),
    {
        State { rflags: 0, rbp: 0, rbx: 0, r12: 0, r13: 0, r14: 0, r15: 0, rip: entry }
    }
}

/// The kernel stack of a thread: the virtual range of its frames, and the
/// address of its saved state, 0 when it has none.
#[derive(Clone, Copy, PartialEq, Eq, Structural, Debug, Hash)]
pub struct KernelStack {
    bottom: u64,
    top: u64,
    state: u64,
}

/// `x` rounded down to a multiple of `align`.
pub open spec fn align_down(x: int, align: int) -> int {
    x - x % align
}

impl KernelStack {
    /// The lowest address of the stack.
    pub closed spec fn spec_bottom(self) -> u64 {
        self.bottom
    }

    /// The address just past the stack.
    pub closed spec fn spec_top(self) -> u64 {
        self.top
    }

    /// The address of the saved state, 0 when there is none.
    pub closed spec fn spec_state(self) -> u64 {
        self.state
    }

    /// The stack spans the given range and leaves room for the trampoline
    /// and the saved state.
    pub open spec fn wf(self) -> bool {
        self.spec_bottom() + TRAMPOLINE_SPACE + STATE_SIZE <= self.spec_top()
    }

    /// A stack over the given range, without a saved state.
    pub fn new(bottom: Virtual, top: Virtual) -> (r: Self)
        requires
            bottom.0 + TRAMPOLINE_SPACE + STATE_SIZE <= top.0,
        ensures
            r.wf(),
            r.spec_bottom() == bottom.0,
            r.spec_top() == top.0,
            r.spec_state() == 0,
    {
        KernelStack { bottom: bottom.0, top: top.0, state: 0 }
    }

    /// Returns the base of the stack: the stack grows down from there. The
    /// bytes above it are kept for the trampoline.
    pub fn base(&self) -> (r: Virtual)
        requires
            self.wf(),
        ensures
            r.0 == self.spec_top() - TRAMPOLINE_SPACE,
    {
        Virtual(self.top - TRAMPOLINE_SPACE)
    }

    /// Returns the address of the saved state, 0 when there is none.
    pub fn state_addr(&self) -> (r: u64)
        ensures
            r == self.spec_state(),
    {
        self.state
    }

    /// Returns `true` if the stack holds a saved state.
    pub fn has_saved_state(&self) -> (r: bool)
        ensures
            r == (self.spec_state() != 0),
    {
        self.state != 0
    }

    /// Places the initial state of the thread right below the base of the
    /// stack, and returns the address it is written at.
    pub fn place_initial_state(&mut self) -> (r: u64)
        requires
            old(self).wf(),
        ensures
            final(self).wf(),
            r == old(self).spec_top() - TRAMPOLINE_SPACE - STATE_SIZE,
            final(self).spec_state() == r,
            final(self).spec_bottom() == old(self).spec_bottom(),
            final(self).spec_top() == old(self).spec_top(),
    {
        self.state = self.top - TRAMPOLINE_SPACE - STATE_SIZE;
        self.state
    }
}

/// The words written at the base of the kernel stack of a new thread, for
/// `iretq` to enter it: the instruction pointer, the code segment, the
/// flags, the stack pointer and the stack segment.
pub fn initial_trampoline(entry: usize, stack: usize, cs: usize, ss: usize) -> (r: [usize; 5])
    ensures
        r@ == seq![entry, cs, INITIAL_RFLAGS, stack, ss],
{
    let r = [entry, cs, INITIAL_RFLAGS, stack, ss];
    assert(r@ =~= seq![entry, cs, INITIAL_RFLAGS, stack, ss]);
    r
}

/// The trampoline of a kernel thread: its stack is its kernel stack, from
/// its base, and its segments are those of the kernel.
pub fn kernel_trampoline(entry: usize, base: u64) -> (r: [usize; 5])
    requires
        base <= usize::MAX,
    ensures
        r@ == seq![entry, 8usize, INITIAL_RFLAGS, base as usize, 16usize],
{
    let cs = Selector::kernel_code().0 as usize;
    let ss = Selector::kernel_data().0 as usize;
    initial_trampoline(entry, base as usize, cs, ss)
}

/// The trampoline of a user thread: its stack is the given user stack, and
/// its segments are those of user code.
pub fn user_trampoline(entry: usize, stack: usize) -> (r: [usize; 5])
    ensures
        r@ == seq![entry, 35usize, INITIAL_RFLAGS, stack, 27usize],
{
    let cs = Selector::user_code().0 as usize;
    let ss = Selector::user_data().0 as usize;
    initial_trampoline(entry, stack, cs, ss)
}

/// The pages of the user stack of a new thread, whose stack pointer starts
/// at `rsp` and which may grow by `size` bytes: from the page of
/// `rsp - size` to the page of `rsp`.
pub fn user_stack_range(rsp: u64, size: u64) -> (r: (u64, u64))
    requires
        size <= rsp,
    ensures
        r.0 == align_down(rsp - size, PAGE_SIZE as int),
        r.1 == align_down(rsp as int, PAGE_SIZE as int),
        r.0 <= r.1,
        r.0 % PAGE_SIZE == 0,
        r.1 % PAGE_SIZE == 0,
{
    let low = rsp - size;
    let start = low - low % PAGE_SIZE;
    let end = rsp - rsp % PAGE_SIZE;
    assert(start <= end) by (nonlinear_arith)
        requires
            low <= rsp,
            start == low - low % 4096,
            end == rsp - rsp % 4096,
    ;
    assert(start % 4096 == 0 && end % 4096 == 0) by (nonlinear_arith)
        requires
            start == low - low % 4096,
            end == rsp - rsp % 4096,
    ;
    (start, end)
}

/// The stack on which a thread that exits runs its last steps: 16 bytes
/// below its saved state, aligned down on 16 bytes.
pub fn exit_stack(state_addr: u64) -> (r: u64)
    requires
        state_addr >= 16,
    ensures
        r == align_down(state_addr - 16, 16),
{
    let s = state_addr - 16;
    s - s % 16
}

/// The segment base of a user thread, as saved from its register: `None`
/// for 0, which a thread without its own base has.
pub fn saved_base(register: u64) -> (r: Option<u64>)
    ensures
        r == (if register == 0 {
            None
        } else {
            Some(register)
        }),
{
    if register == 0 {
        None
    } else {
        Some(register)
    }
}

} // verus!
