//! Mapping and unmapping memory.
use vstd::prelude::*;
use super::{error_number, is_error_return, syscall_return, Errno};

verus! {

/// The memory may be read.
pub const PROT_READ: usize = 1;
/// The memory may be written.
pub const PROT_WRITE: usize = 2;
/// The memory may be executed.
pub const PROT_EXEC: usize = 4;
/// The mapping is private to the process.
pub const MAP_PRIVATE: usize = 0;
/// The mapping must be at the given address.
pub const MAP_FIXED: usize = 1;
/// The mapping is shared with other processes.
pub const MAP_SHARED: usize = 2;

/// Why a region could not be mapped.
#[derive(Clone, Copy, PartialEq, Eq, Structural, Debug, Hash)]
pub enum MapError {
    /// The system call does not exist.
    NoSuchSyscall,
    /// The address is not valid.
    InvalidAddress,
    /// The flags are not valid.
    InvalidFlags,
    /// The range is not valid.
    InvalidRange,
    /// The region would overlap a mapping.
    WouldOverlap,
    /// The kernel ran out of memory.
    OutOfMemory,
    /// An error that this library does not know.
    UnknownError,
}

impl MapError {
    /// The error of the given error number: the variants are numbered from
    /// 1 in their order, and a number past the last one is unknown.
    pub open spec fn spec_from_number(n: int) -> Self {
        if n == 1 {
            MapError::NoSuchSyscall
        } else if n == 2 {
            MapError::InvalidAddress
        } else if n == 3 {
            MapError::InvalidFlags
        } else if n == 4 {
            MapError::InvalidRange
        } else if n == 5 {
            MapError::WouldOverlap
        } else if n == 6 {
            MapError::OutOfMemory
        } else {
            MapError::UnknownError
        }
    }
}

/// The error numbers of the call: number `k`, from 1, is its `k`-th error,
/// in the order of the system call interface, and every other number is
/// `UnknownError`.
pub proof fn law_map_error_numbers(n: int)
    ensures
        (MapError::spec_from_number(n) == MapError::NoSuchSyscall) <==> n == 1,
        (MapError::spec_from_number(n) == MapError::InvalidAddress) <==> n == 2,
        (MapError::spec_from_number(n) == MapError::InvalidFlags) <==> n == 3,
        (MapError::spec_from_number(n) == MapError::InvalidRange) <==> n == 4,
        (MapError::spec_from_number(n) == MapError::WouldOverlap) <==> n == 5,
        (MapError::spec_from_number(n) == MapError::OutOfMemory) <==> n == 6,
        (MapError::spec_from_number(n) == MapError::UnknownError) <==> !(1 <= n <= 6),
{
}

impl From<Errno> for MapError {
    fn from(error: Errno) -> (r: Self) {
        let n = error.number();
        if n == 1 {
            MapError::NoSuchSyscall
        } else if n == 2 {
            MapError::InvalidAddress
        } else if n == 3 {
            MapError::InvalidFlags
        } else if n == 4 {
            MapError::InvalidRange
        } else if n == 5 {
            MapError::WouldOverlap
        } else if n == 6 {
            MapError::OutOfMemory
        } else {
            MapError::UnknownError
        }
    }
}

impl vstd::std_specs::convert::FromSpecImpl<Errno> for MapError {
    open spec fn obeys_from_spec() -> bool {
        true
    }

    open spec fn from_spec(error: Errno) -> Self {
        MapError::spec_from_number(error.spec_number())
    }
}
/// Why a region could not be unmapped.
#[derive(Clone, Copy, PartialEq, Eq, Structural, Debug, Hash)]
pub enum UnmapError {
    /// The system call does not exist.
    NoSuchSyscall,
    /// The range is not valid.
    InvalidRange,
    /// An error that this library does not know.
    UnknownError,
}

impl UnmapError {
    /// The error of the given error number: the variants are numbered from
    /// 1 in their order, and a number past the last one is unknown.
    pub open spec fn spec_from_number(n: int) -> Self {
        if n == 1 {
            UnmapError::NoSuchSyscall
        } else if n == 2 {
            UnmapError::InvalidRange
        } else {
            UnmapError::UnknownError
        }
    }
}

/// The error numbers of the call: number `k`, from 1, is its `k`-th error,
/// in the order of the system call interface, and every other number is
/// `UnknownError`.
pub proof fn law_unmap_error_numbers(n: int)
    ensures
        (UnmapError::spec_from_number(n) == UnmapError::NoSuchSyscall) <==> n == 1,
        (UnmapError::spec_from_number(n) == UnmapError::InvalidRange) <==> n == 2,
        (UnmapError::spec_from_number(n) == UnmapError::UnknownError) <==> !(1 <= n <= 2),
{
}

impl From<Errno> for UnmapError {
    fn from(error: Errno) -> (r: Self) {
        let n = error.number();
        if n == 1 {
            UnmapError::NoSuchSyscall
        } else if n == 2 {
            UnmapError::InvalidRange
        } else {
            UnmapError::UnknownError
        }
    }
}

impl vstd::std_specs::convert::FromSpecImpl<Errno> for UnmapError {
    open spec fn obeys_from_spec() -> bool {
        true
    }

    open spec fn from_spec(error: Errno) -> Self {
        UnmapError::spec_from_number(error.spec_number())
    }
}
/// The outcome of mapping a region, from the value the call returned: the
/// address of the region.
pub fn map_result(ret: usize) -> (r: Result<usize, MapError>)
    ensures
        is_error_return(ret) ==> r == Err::<usize, MapError>(MapError::spec_from_number(error_number(ret))),
        !is_error_return(ret) ==> r == Ok::<usize, MapError>(ret),
{
    match syscall_return(ret) {
        Ok(v) => Ok(v),
        Err(e) => Err(MapError::from(e)),
    }
}
/// The outcome of unmapping a region, from the value the call returned.
pub fn unmap_result(ret: usize) -> (r: Result<(), UnmapError>)
    ensures
        is_error_return(ret) ==> r == Err::<(), UnmapError>(UnmapError::spec_from_number(error_number(ret))),
        !is_error_return(ret) ==> r == Ok::<(), UnmapError>(()),
{
    match syscall_return(ret) {
        Ok(_) => Ok(()),
        Err(e) => Err(UnmapError::from(e)),
    }
}
} // verus!
