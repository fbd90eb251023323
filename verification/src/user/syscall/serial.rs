//! The serial port.
use vstd::prelude::*;
use super::{error_number, is_error_return, syscall_return, Errno};

verus! {

/// Why the serial port could not be written.
#[derive(Clone, Copy, PartialEq, Eq, Structural, Debug, Hash)]
pub enum WriteError {
    /// The system call does not exist.
    NoSuchSyscall,
    /// The system has no serial port.
    NoSerialPort,
    /// The buffer is not in the user address space.
    BadAddress,
    /// An error that this library does not know.
    UnknownError,
}

impl WriteError {
    /// The error of the given error number: the variants are numbered from
    /// 1 in their order, and a number past the last one is unknown.
    pub open spec fn spec_from_number(n: int) -> Self {
        if n == 1 {
            WriteError::NoSuchSyscall
        } else if n == 2 {
            WriteError::NoSerialPort
        } else if n == 3 {
            WriteError::BadAddress
        } else {
            WriteError::UnknownError
        }
    }
}

/// The error numbers of the call: number `k`, from 1, is its `k`-th error,
/// in the order of the system call interface, and every other number is
/// `UnknownError`.
pub proof fn law_write_error_numbers(n: int)
    ensures
        (WriteError::spec_from_number(n) == WriteError::NoSuchSyscall) <==> n == 1,
        (WriteError::spec_from_number(n) == WriteError::NoSerialPort) <==> n == 2,
        (WriteError::spec_from_number(n) == WriteError::BadAddress) <==> n == 3,
        (WriteError::spec_from_number(n) == WriteError::UnknownError) <==> !(1 <= n <= 3),
{
}

impl From<Errno> for WriteError {
    fn from(error: Errno) -> (r: Self) {
        let n = error.number();
        if n == 1 {
            WriteError::NoSuchSyscall
        } else if n == 2 {
            WriteError::NoSerialPort
        } else if n == 3 {
            WriteError::BadAddress
        } else {
            WriteError::UnknownError
        }
    }
}

impl vstd::std_specs::convert::FromSpecImpl<Errno> for WriteError {
    open spec fn obeys_from_spec() -> bool {
        true
    }

    open spec fn from_spec(error: Errno) -> Self {
        WriteError::spec_from_number(error.spec_number())
    }
}
/// Why the serial port could not be read.
#[derive(Clone, Copy, PartialEq, Eq, Structural, Debug, Hash)]
pub enum ReadError {
    /// The system call does not exist.
    NoSuchSyscall,
    /// The system has no serial port.
    NoSerialPort,
    /// The buffer is not in the user address space or cannot be written.
    BadAddress,
    /// An error that this library does not know.
    UnknownError,
}

impl ReadError {
    /// The error of the given error number: the variants are numbered from
    /// 1 in their order, and a number past the last one is unknown.
    pub open spec fn spec_from_number(n: int) -> Self {
        if n == 1 {
            ReadError::NoSuchSyscall
        } else if n == 2 {
            ReadError::NoSerialPort
        } else if n == 3 {
            ReadError::BadAddress
        } else {
            ReadError::UnknownError
        }
    }
}

/// The error numbers of the call: number `k`, from 1, is its `k`-th error,
/// in the order of the system call interface, and every other number is
/// `UnknownError`.
pub proof fn law_read_error_numbers(n: int)
    ensures
        (ReadError::spec_from_number(n) == ReadError::NoSuchSyscall) <==> n == 1,
        (ReadError::spec_from_number(n) == ReadError::NoSerialPort) <==> n == 2,
        (ReadError::spec_from_number(n) == ReadError::BadAddress) <==> n == 3,
        (ReadError::spec_from_number(n) == ReadError::UnknownError) <==> !(1 <= n <= 3),
{
}

impl From<Errno> for ReadError {
    fn from(error: Errno) -> (r: Self) {
        let n = error.number();
        if n == 1 {
            ReadError::NoSuchSyscall
        } else if n == 2 {
            ReadError::NoSerialPort
        } else if n == 3 {
            ReadError::BadAddress
        } else {
            ReadError::UnknownError
        }
    }
}

impl vstd::std_specs::convert::FromSpecImpl<Errno> for ReadError {
    open spec fn obeys_from_spec() -> bool {
        true
    }

    open spec fn from_spec(error: Errno) -> Self {
        ReadError::spec_from_number(error.spec_number())
    }
}
/// The outcome of a write to the serial port, from the value the call
/// returned: the number of bytes written.
pub fn write_result(ret: usize) -> (r: Result<usize, WriteError>)
    ensures
        is_error_return(ret) ==> r == Err::<usize, WriteError>(WriteError::spec_from_number(error_number(ret))),
        !is_error_return(ret) ==> r == Ok::<usize, WriteError>(ret),
{
    match syscall_return(ret) {
        Ok(v) => Ok(v),
        Err(e) => Err(WriteError::from(e)),
    }
}
/// The outcome of a read from the serial port, from the value the call
/// returned: the number of bytes read.
pub fn read_result(ret: usize) -> (r: Result<usize, ReadError>)
    ensures
        is_error_return(ret) ==> r == Err::<usize, ReadError>(ReadError::spec_from_number(error_number(ret))),
        !is_error_return(ret) ==> r == Ok::<usize, ReadError>(ret),
{
    match syscall_return(ret) {
        Ok(v) => Ok(v),
        Err(e) => Err(ReadError::from(e)),
    }
}
} // verus!
