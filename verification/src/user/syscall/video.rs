//! The framebuffer.
use vstd::prelude::*;
use super::{error_number, is_error_return, syscall_return, Errno};

verus! {

/// Why the framebuffer information could not be read.
#[derive(Clone, Copy, PartialEq, Eq, Structural, Debug, Hash)]
pub enum ReadInfoError {
    /// The system call does not exist.
    NoSuchSyscall,
    /// An argument is at an invalid address.
    BadAddress,
    /// An error that this library does not know.
    UnknownError,
}

impl ReadInfoError {
    /// The error of the given error number: the variants are numbered from
    /// 1 in their order, and a number past the last one is unknown.
    pub open spec fn spec_from_number(n: int) -> Self {
        if n == 1 {
            ReadInfoError::NoSuchSyscall
        } else if n == 2 {
            ReadInfoError::BadAddress
        } else {
            ReadInfoError::UnknownError
        }
    }
}

/// The error numbers of the call: number `k`, from 1, is its `k`-th error,
/// in the order of the system call interface, and every other number is
/// `UnknownError`.
pub proof fn law_read_info_error_numbers(n: int)
    ensures
        (ReadInfoError::spec_from_number(n) == ReadInfoError::NoSuchSyscall) <==> n == 1,
        (ReadInfoError::spec_from_number(n) == ReadInfoError::BadAddress) <==> n == 2,
        (ReadInfoError::spec_from_number(n) == ReadInfoError::UnknownError) <==> !(1 <= n <= 2),
{
}

impl From<Errno> for ReadInfoError {
    fn from(error: Errno) -> (r: Self) {
        let n = error.number();
        if n == 1 {
            ReadInfoError::NoSuchSyscall
        } else if n == 2 {
            ReadInfoError::BadAddress
        } else {
            ReadInfoError::UnknownError
        }
    }
}

impl vstd::std_specs::convert::FromSpecImpl<Errno> for ReadInfoError {
    open spec fn obeys_from_spec() -> bool {
        true
    }

    open spec fn from_spec(error: Errno) -> Self {
        ReadInfoError::spec_from_number(error.spec_number())
    }
}
/// What is known of the framebuffer: its height, its width and its number
/// of bits per pixel.
#[derive(Clone, Copy, PartialEq, Eq, Structural, Debug, Hash)]
pub struct FramebufferInfo {
    pub height: u64,
    pub width: u64,
    pub bpp: u16,
}

/// The outcome of reading the framebuffer information, from the value the
/// call returned and the information it wrote.
pub fn framebuffer_info_result(ret: usize, info: FramebufferInfo) -> (r: Result<FramebufferInfo, ReadInfoError>)
    ensures
        is_error_return(ret) ==> r == Err::<FramebufferInfo, ReadInfoError>(ReadInfoError::spec_from_number(error_number(ret))),
        !is_error_return(ret) ==> r == Ok::<FramebufferInfo, ReadInfoError>(info),
{
    match syscall_return(ret) {
        Ok(_) => Ok(info),
        Err(e) => Err(ReadInfoError::from(e)),
    }
}
} // verus!
