//! The system calls as user programs see them: a call puts its number in
//! `rax` and its arguments in `rsi`, `rdx`, `r10`, `r8` and `r9`, and gets
//! its result back in `rax`.
use vstd::prelude::*;

pub mod mmu;
pub mod task;
pub mod vfs;
pub mod video;

verus! {

/// The error of a system call.
#[derive(Clone, Copy, PartialEq, Eq, Structural, Debug, Hash)]
pub enum Errno {
    /// The error is not known.
    Unknown,
    /// The system call does not exist.
    NoSuchSyscall,
    /// An argument is not valid.
    InvalidArgument,
    /// No task has the given identifier.
    TaskNotFound,
    /// The task is in use.
    TaskInUse,
    /// An address is not valid.
    BadAddress,
    /// The system call exists but is not implemented.
    NotImplemented,
    /// The kernel ran out of memory.
    OutOfMemory,
    /// The resource already exists.
    AlreadyExists,
}

impl Errno {
    /// The error of the given number: the known errors are numbered from 1
    /// in their order, and any other number is unknown.
    pub open spec fn spec_from(value: int) -> Self {
        if value == 1 {
            Errno::NoSuchSyscall
        } else if value == 2 {
            Errno::InvalidArgument
        } else if value == 3 {
            Errno::TaskNotFound
        } else if value == 4 {
            Errno::TaskInUse
        } else if value == 5 {
            Errno::BadAddress
        } else if value == 6 {
            Errno::NotImplemented
        } else if value == 7 {
            Errno::OutOfMemory
        } else if value == 8 {
            Errno::AlreadyExists
        } else {
            Errno::Unknown
        }
    }

    /// The number of the error.
    pub open spec fn spec_number(self) -> u64 {
        match self {
            Errno::Unknown => 0,
            Errno::NoSuchSyscall => 1,
            Errno::InvalidArgument => 2,
            Errno::TaskNotFound => 3,
            Errno::TaskInUse => 4,
            Errno::BadAddress => 5,
            Errno::NotImplemented => 6,
            Errno::OutOfMemory => 7,
            Errno::AlreadyExists => 8,
        }
    }
}

impl From<usize> for Errno {
    fn from(value: usize) -> (r: Self) {
        match value {
            1 => Errno::NoSuchSyscall,
            2 => Errno::InvalidArgument,
            3 => Errno::TaskNotFound,
            4 => Errno::TaskInUse,
            5 => Errno::BadAddress,
            6 => Errno::NotImplemented,
            7 => Errno::OutOfMemory,
            8 => Errno::AlreadyExists,
            _ => Errno::Unknown,
        }
    }
}

impl vstd::std_specs::convert::FromSpecImpl<usize> for Errno {
    open spec fn obeys_from_spec() -> bool {
        true
    }

    open spec fn from_spec(value: usize) -> Self {
        Errno::spec_from(value as int)
    }
}

/// Whether a value returned by a system call is an error: the values above
/// `usize::MAX - 4096` are kept for errors.
pub open spec fn spec_syscall_error(register: usize) -> bool {
    register > usize::MAX - 4096
}

impl Errno {
    /// Returns the error a system call returned, or `None` if it returned a
    /// result. The error number is the opposite of the value read as a
    /// signed number.
    pub fn from_syscall_return(register: usize) -> (r: Option<Self>)
        ensures
            spec_syscall_error(register) ==> r == Some(Errno::spec_from(usize::MAX - register + 1)),
            !spec_syscall_error(register) ==> r is None,
    {
        if Self::syscall_error(register) {
            let n = usize::MAX - register + 1;
            Some(Self::from(n))
        } else {
            None
        }
    }

    /// Returns `true` if a value returned by a system call is an error.
    pub fn syscall_error(register: usize) -> (r: bool)
        ensures
            r == spec_syscall_error(register),
    {
        register > usize::MAX - 4096
    }
}

/// The numbers of the errors are fixed by the system call interface:
/// `Unknown` is 0 and the known errors are numbered from 1; a number read
/// back from a call names the error of that number, and any other number is
/// unknown.
pub proof fn law_errno_numbers(e: Errno, value: int)
    ensures
        (e.spec_number() == 0) <==> e == Errno::Unknown,
        (e.spec_number() == 1) <==> e == Errno::NoSuchSyscall,
        (e.spec_number() == 2) <==> e == Errno::InvalidArgument,
        (e.spec_number() == 3) <==> e == Errno::TaskNotFound,
        (e.spec_number() == 4) <==> e == Errno::TaskInUse,
        (e.spec_number() == 5) <==> e == Errno::BadAddress,
        (e.spec_number() == 6) <==> e == Errno::NotImplemented,
        (e.spec_number() == 7) <==> e == Errno::OutOfMemory,
        (e.spec_number() == 8) <==> e == Errno::AlreadyExists,
        (Errno::spec_from(value) == Errno::NoSuchSyscall) <==> value == 1,
        (Errno::spec_from(value) == Errno::InvalidArgument) <==> value == 2,
        (Errno::spec_from(value) == Errno::TaskNotFound) <==> value == 3,
        (Errno::spec_from(value) == Errno::TaskInUse) <==> value == 4,
        (Errno::spec_from(value) == Errno::BadAddress) <==> value == 5,
        (Errno::spec_from(value) == Errno::NotImplemented) <==> value == 6,
        (Errno::spec_from(value) == Errno::OutOfMemory) <==> value == 7,
        (Errno::spec_from(value) == Errno::AlreadyExists) <==> value == 8,
        (Errno::spec_from(value) == Errno::Unknown) <==> !(1 <= value <= 8),
{
}

/// The number of an error read back from a system call is the number it
/// was returned with, when that number is known.
pub proof fn law_errno_round_trip(e: Errno)
    requires
        e != Errno::Unknown,
    ensures
        Errno::spec_from(e.spec_number() as int) == e,
{
}

} // verus!
