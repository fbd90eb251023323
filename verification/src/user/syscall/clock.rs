//! Reading the time of the system clock.
use vstd::prelude::*;
use super::{error_number, is_error_return, syscall_return, Errno};

verus! {

/// A time, in seconds and nanoseconds.
#[derive(Clone, Copy, PartialEq, Eq, Structural, Debug, Hash)]
pub struct Timespec {
    pub seconds: u64,
    pub nanoseconds: u64,
}

/// Why the time could not be read.
#[derive(Clone, Copy, PartialEq, Eq, Structural, Debug, Hash)]
pub enum GetTimeError {
    /// The system call does not exist.
    NoSuchSyscall,
    /// The address given for the time is not valid.
    BadAddress,
    /// An error that this library does not know.
    UnknownError,
}

impl GetTimeError {
    /// The error of the given error number: the variants are numbered from
    /// 1 in their order, and a number past the last one is unknown.
    pub open spec fn spec_from_number(n: int) -> Self {
        if n == 1 {
            GetTimeError::NoSuchSyscall
        } else if n == 2 {
            GetTimeError::BadAddress
        } else {
            GetTimeError::UnknownError
        }
    }
}

/// The error numbers of the call: number `k`, from 1, is its `k`-th error,
/// in the order of the system call interface, and every other number is
/// `UnknownError`.
pub proof fn law_get_time_error_numbers(n: int)
    ensures
        (GetTimeError::spec_from_number(n) == GetTimeError::NoSuchSyscall) <==> n == 1,
        (GetTimeError::spec_from_number(n) == GetTimeError::BadAddress) <==> n == 2,
        (GetTimeError::spec_from_number(n) == GetTimeError::UnknownError) <==> !(1 <= n <= 2),
{
}

impl From<Errno> for GetTimeError {
    fn from(error: Errno) -> (r: Self) {
        let n = error.number();
        if n == 1 {
            GetTimeError::NoSuchSyscall
        } else if n == 2 {
            GetTimeError::BadAddress
        } else {
            GetTimeError::UnknownError
        }
    }
}

impl vstd::std_specs::convert::FromSpecImpl<Errno> for GetTimeError {
    open spec fn obeys_from_spec() -> bool {
        true
    }

    open spec fn from_spec(error: Errno) -> Self {
        GetTimeError::spec_from_number(error.spec_number())
    }
}
/// The outcome of reading the time, from the value the call returned and
/// the time it wrote.
pub fn get_time_result(ret: usize, time: Timespec) -> (r: Result<Timespec, GetTimeError>)
    ensures
        is_error_return(ret) ==> r == Err::<Timespec, GetTimeError>(GetTimeError::spec_from_number(error_number(ret))),
        !is_error_return(ret) ==> r == Ok::<Timespec, GetTimeError>(time),
{
    match syscall_return(ret) {
        Ok(_) => Ok(time),
        Err(e) => Err(GetTimeError::from(e)),
    }
}
} // verus!
