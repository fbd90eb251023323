//! The system call interface of user programs: the numbers of the calls, and
//! how their return values and error codes are read.
use vstd::prelude::*;

pub mod clock;
pub mod mmu;
pub mod serial;
pub mod vfs;
pub mod video;

verus! {

/// An error code returned by a system call, between -4095 and -1. Each call
/// gives its own meaning to the codes.
#[derive(Clone, Copy, PartialEq, Eq, Structural, Debug, Hash)]
pub struct Errno(isize);

impl Errno {
    /// The error code.
    pub closed spec fn spec_code(self) -> isize {
        self.0
    }

    /// The error number: the opposite of the code.
    pub open spec fn spec_number(self) -> int {
        -self.spec_code()
    }

    /// The code is a valid error code.
    #[verifier::type_invariant]
    closed spec fn code_valid(self) -> bool {
        -4095 <= self.0 < 0
    }

    /// Returns `true` if the given value is a valid error code.
    pub fn valid(code: isize) -> (r: bool)
        ensures
            r == (-4095 <= code < 0),
    {
        -4095 <= code && code < 0
    }

    /// Returns the error code.
    pub fn code(&self) -> (r: isize)
        ensures
            r == self.spec_code(),
            -4095 <= r < 0,
    {
        proof {
            use_type_invariant(self);
        }
        self.0
    }

    /// Returns the error number, between 1 and 4095.
    pub fn number(&self) -> (r: usize)
        ensures
            r == self.spec_number(),
            1 <= r <= 4095,
    {
        proof {
            use_type_invariant(self);
        }
        (-self.0) as usize
    }
}

/// Whether a value returned by a system call is an error code: read as a
/// signed number, it is between -4095 and -1.
pub open spec fn is_error_return(ret: usize) -> bool {
    ret > usize::MAX - 4095
}

/// The error number of a value returned by a system call that is an error
/// code: the opposite of the value read as a signed number.
pub open spec fn error_number(ret: usize) -> int {
    usize::MAX - ret + 1
}

/// Reads the value returned by a system call: an error code, or a result.
pub fn syscall_return(ret: usize) -> (r: Result<usize, Errno>)
    ensures
        is_error_return(ret) ==> (r matches Err(e) && e.spec_number() == error_number(ret)),
        !is_error_return(ret) ==> r == Ok::<usize, Errno>(ret),
{
    if ret > usize::MAX - 4095 {
        let n = usize::MAX - ret;
        let code: isize = -(n as isize) - 1;
        Err(Errno(code))
    } else {
        Ok(ret)
    }
}

/// The system calls, by number.
#[derive(Clone, Copy, PartialEq, Eq, Structural, Debug, Hash)]
pub enum Syscall {
    TaskExit,
    TaskId,
    TaskSleep,
    TaskYield,
    TaskSpawn,
    SerialRead,
    SerialWrite,
    MmuMap,
    MmuUnmap,
    VideoFramebufferInfo,
    VfsOpen,
    VfsClose,
    VfsRead,
    VfsWrite,
    VfsSeek,
    VfsGetCwd,
    VfsChangeCwd,
    ClockGetTime,
    VfsMkdir,
    VfsRmdir,
    VfsUnlink,
    VfsTruncate,
    VfsStat,
    VfsReaddir,
}

impl Syscall {
    /// The number of the call, which goes in `rax`.
    pub open spec fn spec_number(self) -> u64 {
        match self {
            Syscall::TaskExit => 0,
            Syscall::TaskId => 1,
            Syscall::TaskSleep => 2,
            Syscall::TaskYield => 3,
            Syscall::TaskSpawn => 4,
            Syscall::SerialRead => 5,
            Syscall::SerialWrite => 6,
            Syscall::MmuMap => 7,
            Syscall::MmuUnmap => 8,
            Syscall::VideoFramebufferInfo => 9,
            Syscall::VfsOpen => 10,
            Syscall::VfsClose => 11,
            Syscall::VfsRead => 12,
            Syscall::VfsWrite => 13,
            Syscall::VfsSeek => 14,
            Syscall::VfsGetCwd => 15,
            Syscall::VfsChangeCwd => 16,
            Syscall::ClockGetTime => 17,
            Syscall::VfsMkdir => 18,
            Syscall::VfsRmdir => 19,
            Syscall::VfsUnlink => 20,
            Syscall::VfsTruncate => 21,
            Syscall::VfsStat => 22,
            Syscall::VfsReaddir => 23,
        }
    }

    /// Returns the number of the call.
    pub fn number(self) -> (r: u64)
        ensures
            r == self.spec_number(),
    {
        match self {
            Syscall::TaskExit => 0,
            Syscall::TaskId => 1,
            Syscall::TaskSleep => 2,
            Syscall::TaskYield => 3,
            Syscall::TaskSpawn => 4,
            Syscall::SerialRead => 5,
            Syscall::SerialWrite => 6,
            Syscall::MmuMap => 7,
            Syscall::MmuUnmap => 8,
            Syscall::VideoFramebufferInfo => 9,
            Syscall::VfsOpen => 10,
            Syscall::VfsClose => 11,
            Syscall::VfsRead => 12,
            Syscall::VfsWrite => 13,
            Syscall::VfsSeek => 14,
            Syscall::VfsGetCwd => 15,
            Syscall::VfsChangeCwd => 16,
            Syscall::ClockGetTime => 17,
            Syscall::VfsMkdir => 18,
            Syscall::VfsRmdir => 19,
            Syscall::VfsUnlink => 20,
            Syscall::VfsTruncate => 21,
            Syscall::VfsStat => 22,
            Syscall::VfsReaddir => 23,
        }
    }
}

/// The number of each call is fixed by the system call interface: the
/// call a number names is the one the kernel runs for it.
pub proof fn law_syscall_numbers(s: Syscall)
    ensures
        (s.spec_number() == 0) <==> s == Syscall::TaskExit,
        (s.spec_number() == 1) <==> s == Syscall::TaskId,
        (s.spec_number() == 2) <==> s == Syscall::TaskSleep,
        (s.spec_number() == 3) <==> s == Syscall::TaskYield,
        (s.spec_number() == 4) <==> s == Syscall::TaskSpawn,
        (s.spec_number() == 5) <==> s == Syscall::SerialRead,
        (s.spec_number() == 6) <==> s == Syscall::SerialWrite,
        (s.spec_number() == 7) <==> s == Syscall::MmuMap,
        (s.spec_number() == 8) <==> s == Syscall::MmuUnmap,
        (s.spec_number() == 9) <==> s == Syscall::VideoFramebufferInfo,
        (s.spec_number() == 10) <==> s == Syscall::VfsOpen,
        (s.spec_number() == 11) <==> s == Syscall::VfsClose,
        (s.spec_number() == 12) <==> s == Syscall::VfsRead,
        (s.spec_number() == 13) <==> s == Syscall::VfsWrite,
        (s.spec_number() == 14) <==> s == Syscall::VfsSeek,
        (s.spec_number() == 15) <==> s == Syscall::VfsGetCwd,
        (s.spec_number() == 16) <==> s == Syscall::VfsChangeCwd,
        (s.spec_number() == 17) <==> s == Syscall::ClockGetTime,
        (s.spec_number() == 18) <==> s == Syscall::VfsMkdir,
        (s.spec_number() == 19) <==> s == Syscall::VfsRmdir,
        (s.spec_number() == 20) <==> s == Syscall::VfsUnlink,
        (s.spec_number() == 21) <==> s == Syscall::VfsTruncate,
        (s.spec_number() == 22) <==> s == Syscall::VfsStat,
        (s.spec_number() == 23) <==> s == Syscall::VfsReaddir,
{
}

/// The numbers of two different calls are different.
pub proof fn law_syscall_numbers_distinct(a: Syscall, b: Syscall)
    requires
        a != b,
    ensures
        a.spec_number() != b.spec_number(),
{
}

} // verus!
