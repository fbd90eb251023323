//! Tasks: spawning them.
use vstd::prelude::*;
use crate::user::syscall::{error_number, is_error_return, syscall_return, Errno};

verus! {

/// Why a task could not be spawned.
#[derive(Clone, Copy, PartialEq, Eq, Structural, Debug, Hash)]
pub enum SpawnError {
    /// The system call does not exist.
    NoSuchSyscall,
    /// The path is at an invalid address.
    BadAddress,
    /// An I/O error occurred.
    IoError,
    /// The file is not a valid ELF executable.
    InvalidElf,
    /// The kernel ran out of memory.
    OutOfMemory,
    /// An error that this library does not know.
    UnknownError,
}

impl SpawnError {
    /// The error of the given error number: the variants are numbered from
    /// 1 in their order, and a number past the last one is unknown.
    pub open spec fn spec_from_number(n: int) -> Self {
        if n == 1 {
            SpawnError::NoSuchSyscall
        } else if n == 2 {
            SpawnError::BadAddress
        } else if n == 3 {
            SpawnError::IoError
        } else if n == 4 {
            SpawnError::InvalidElf
        } else if n == 5 {
            SpawnError::OutOfMemory
        } else {
            SpawnError::UnknownError
        }
    }
}

/// The error numbers of the call: number `k`, from 1, is its `k`-th error,
/// in the order of the system call interface, and every other number is
/// `UnknownError`.
pub proof fn law_spawn_error_numbers(n: int)
    ensures
        (SpawnError::spec_from_number(n) == SpawnError::NoSuchSyscall) <==> n == 1,
        (SpawnError::spec_from_number(n) == SpawnError::BadAddress) <==> n == 2,
        (SpawnError::spec_from_number(n) == SpawnError::IoError) <==> n == 3,
        (SpawnError::spec_from_number(n) == SpawnError::InvalidElf) <==> n == 4,
        (SpawnError::spec_from_number(n) == SpawnError::OutOfMemory) <==> n == 5,
        (SpawnError::spec_from_number(n) == SpawnError::UnknownError) <==> !(1 <= n <= 5),
{
}

impl From<Errno> for SpawnError {
    fn from(error: Errno) -> (r: Self) {
        let n = error.number();
        if n == 1 {
            SpawnError::NoSuchSyscall
        } else if n == 2 {
            SpawnError::BadAddress
        } else if n == 3 {
            SpawnError::IoError
        } else if n == 4 {
            SpawnError::InvalidElf
        } else if n == 5 {
            SpawnError::OutOfMemory
        } else {
            SpawnError::UnknownError
        }
    }
}

impl vstd::std_specs::convert::FromSpecImpl<Errno> for SpawnError {
    open spec fn obeys_from_spec() -> bool {
        true
    }

    open spec fn from_spec(error: Errno) -> Self {
        SpawnError::spec_from_number(error.spec_number())
    }
}
/// The identifier of a task.
#[derive(Clone, Copy, PartialEq, Eq, Structural, Debug, Hash)]
pub struct Identifier(pub u64);

/// The outcome of spawning a task, from the value the call returned: the
/// identifier of the new task.
pub fn spawn_result(ret: usize) -> (r: Result<Identifier, SpawnError>)
    ensures
        is_error_return(ret) ==> r == Err::<Identifier, SpawnError>(SpawnError::spec_from_number(error_number(ret))),
        !is_error_return(ret) ==> r == Ok::<Identifier, SpawnError>(Identifier(ret as u64)),
{
    match syscall_return(ret) {
        Ok(v) => Ok(Identifier(v as u64)),
        Err(e) => Err(SpawnError::from(e)),
    }
}
} // verus!
