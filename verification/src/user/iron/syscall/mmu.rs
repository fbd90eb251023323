//! Mapping memory, with the errors of this runtime.
use vstd::prelude::*;
use super::{spec_syscall_error, Errno};

verus! {

/// The access rights of a region: read (1), write (2), execute (4).
#[derive(Clone, Copy, PartialEq, Eq, Structural, Debug, Hash)]
pub struct Access {
    pub bits: u64,
}

/// The flags of a region: fixed (1), shared (2), grows up (4), grows down
/// (8), permanent (16).
#[derive(Clone, Copy, PartialEq, Eq, Structural, Debug, Hash)]
pub struct Flags {
    pub bits: u64,
}

/// The region may be read.
pub const ACCESS_READ: u64 = 1;
/// The region may be written.
pub const ACCESS_WRITE: u64 = 2;
/// The region may be executed.
pub const ACCESS_EXECUTE: u64 = 4;
/// The region is private to the process.
pub const FLAG_PRIVATE: u64 = 0;
/// The region must be at the given address.
pub const FLAG_FIXED: u64 = 1;
/// The region is shared.
pub const FLAG_SHARED: u64 = 2;
/// The region grows up.
pub const FLAG_GROW_UP: u64 = 4;
/// The region grows down.
pub const FLAG_GROW_DOWN: u64 = 8;
/// The region is permanent; only the kernel may ask for it.
pub const FLAG_PERMANENT: u64 = 16;

/// The outcome of mapping a region, from the value the call returned: the
/// address of the region, or the error.
pub fn map_result(ret: usize) -> (r: Result<usize, Errno>)
    ensures
        spec_syscall_error(ret) ==> r == Err::<usize, Errno>(Errno::spec_from(usize::MAX - ret + 1)),
        !spec_syscall_error(ret) ==> r == Ok::<usize, Errno>(ret),
{
    match Errno::from_syscall_return(ret) {
        Some(errno) => Err(errno),
        None => Ok(ret),
    }
}

/// The outcome of unmapping a region, from the value the call returned.
pub fn unmap_result(ret: usize) -> (r: Result<(), Errno>)
    ensures
        spec_syscall_error(ret) ==> r == Err::<(), Errno>(Errno::spec_from(usize::MAX - ret + 1)),
        !spec_syscall_error(ret) ==> r == Ok::<(), Errno>(()),
{
    match Errno::from_syscall_return(ret) {
        Some(errno) => Err(errno),
        None => Ok(()),
    }
}

} // verus!
