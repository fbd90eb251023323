//! Files and directories.
use vstd::prelude::*;
use super::clock::Timespec;
use super::{error_number, is_error_return, syscall_return, Errno};

verus! {

/// Open the file for reading.
pub const O_READ: usize = 1;
/// Open the file for writing.
pub const O_WRITE: usize = 2;
/// Create the file if it does not exist.
pub const O_CREATE: usize = 4;
/// Truncate the file to length 0.
pub const O_TRUNC: usize = 8;
/// Fail if the file exists.
pub const O_EXCL: usize = 16;

/// A file descriptor: an opaque handle on an open file.
#[derive(Clone, Copy, PartialEq, Eq, Structural, Debug, Hash)]
pub struct FileDescriptor(usize);

impl FileDescriptor {
    /// The raw value of the descriptor.
    pub closed spec fn spec_raw(self) -> usize {
        self.0
    }

    /// Returns the raw value of the descriptor, as passed to the calls.
    pub fn raw(&self) -> (r: usize)
        ensures
            r == self.spec_raw(),
    {
        self.0
    }
}

/// Where a seek counts from, and the offset.
#[derive(Clone, Copy, PartialEq, Eq, Structural, Debug, Hash)]
pub enum Whence {
    /// From the current offset.
    Current(isize),
    /// From the beginning of the file.
    Start(isize),
    /// From the end of the file.
    End(isize),
}

impl Whence {
    /// The whence and the offset as the seek call takes them: 0 for the
    /// current offset, 1 for the beginning, 2 for the end.
    pub fn encode(self) -> (r: (usize, isize))
        ensures
            r == match self {
                Whence::Current(o) => (0usize, o),
                Whence::Start(o) => (1usize, o),
                Whence::End(o) => (2usize, o),
            },
    {
        match self {
            Whence::Current(o) => (0, o),
            Whence::Start(o) => (1, o),
            Whence::End(o) => (2, o),
        }
    }
}

/// What is known of a file.
#[derive(Clone, Copy, PartialEq, Eq, Structural, Debug, Hash)]
pub struct Stat {
    /// The device that holds the file.
    pub dev: u64,
    /// The inode number.
    pub ino: u64,
    /// The size of the file, in bytes.
    pub size: u64,
    /// The kind of the file.
    pub kind: u64,
    /// The number of hard links.
    pub nlink: u64,
    /// The time of the last access.
    pub atime: Timespec,
    /// The time of the last modification.
    pub mtime: Timespec,
    /// The time of the last change of status.
    pub ctime: Timespec,
}

impl Stat {
    /// A stat whose fields are all 0, for the call to fill in.
    pub fn zeroed() -> (r: Self)
        ensures
            r.dev == 0 && r.ino == 0 && r.size == 0 && r.kind == 0 && r.nlink == 0,
            r.atime == (Timespec { seconds: 0, nanoseconds: 0 }),
            r.mtime == (Timespec { seconds: 0, nanoseconds: 0 }),
            r.ctime == (Timespec { seconds: 0, nanoseconds: 0 }),
    {
        let t = Timespec { seconds: 0, nanoseconds: 0 };
        Stat { dev: 0, ino: 0, size: 0, kind: 0, nlink: 0, atime: t, mtime: t, ctime: t }
    }
}

/// A directory entry, as the readdir call writes it.
#[derive(Clone, Copy, Debug)]
pub struct Dirent {
    /// The inode number.
    pub ino: u64,
    /// The kind of the entry.
    pub kind: u16,
    /// The length of the name, in bytes.
    pub name_len: u16,
    /// The name, padded with zeros.
    pub name: [u8; 256],
}

impl Dirent {
    /// The kind of an entry of unknown kind.
    pub const UNKNOWN: u16 = 0;
    /// The kind of a regular file.
    pub const REGULAR: u16 = 1;
    /// The kind of a directory.
    pub const DIRECTORY: u16 = 2;
    /// The kind of a character device.
    pub const CHAR_DEVICE: u16 = 3;
    /// The kind of a block device.
    pub const BLOCK_DEVICE: u16 = 4;
}

/// Why a file could not be opened.
#[derive(Clone, Copy, PartialEq, Eq, Structural, Debug, Hash)]
pub enum OpenError {
    /// The system call does not exist.
    NoSuchSyscall,
    /// An argument is at an invalid address.
    BadAddress,
    /// The path is not valid.
    InvalidPath,
    /// A flag or a combination of flags is not valid.
    InvalidFlag,
    /// The file does not exist.
    NoSuchFile,
    /// A component of the path is not a directory.
    NotADirectory,
    /// The path does not name a file.
    NotAFile,
    /// An I/O error occurred.
    IoError,
    /// The file already exists.
    AlreadyExists,
    /// The kernel ran out of memory.
    OutOfMemory,
    /// The process has too many files open.
    TooManyFilesOpen,
    /// An error that this library does not know.
    UnknownError,
}

impl OpenError {
    /// The error of the given error number: the variants are numbered from
    /// 1 in their order, and a number past the last one is unknown.
    pub open spec fn spec_from_number(n: int) -> Self {
        if n == 1 {
            OpenError::NoSuchSyscall
        } else if n == 2 {
            OpenError::BadAddress
        } else if n == 3 {
            OpenError::InvalidPath
        } else if n == 4 {
            OpenError::InvalidFlag
        } else if n == 5 {
            OpenError::NoSuchFile
        } else if n == 6 {
            OpenError::NotADirectory
        } else if n == 7 {
            OpenError::NotAFile
        } else if n == 8 {
            OpenError::IoError
        } else if n == 9 {
            OpenError::AlreadyExists
        } else if n == 10 {
            OpenError::OutOfMemory
        } else if n == 11 {
            OpenError::TooManyFilesOpen
        } else {
            OpenError::UnknownError
        }
    }
}

/// The error numbers of the call: number `k`, from 1, is its `k`-th error,
/// in the order of the system call interface, and every other number is
/// `UnknownError`.
pub proof fn law_open_error_numbers(n: int)
    ensures
        (OpenError::spec_from_number(n) == OpenError::NoSuchSyscall) <==> n == 1,
        (OpenError::spec_from_number(n) == OpenError::BadAddress) <==> n == 2,
        (OpenError::spec_from_number(n) == OpenError::InvalidPath) <==> n == 3,
        (OpenError::spec_from_number(n) == OpenError::InvalidFlag) <==> n == 4,
        (OpenError::spec_from_number(n) == OpenError::NoSuchFile) <==> n == 5,
        (OpenError::spec_from_number(n) == OpenError::NotADirectory) <==> n == 6,
        (OpenError::spec_from_number(n) == OpenError::NotAFile) <==> n == 7,
        (OpenError::spec_from_number(n) == OpenError::IoError) <==> n == 8,
        (OpenError::spec_from_number(n) == OpenError::AlreadyExists) <==> n == 9,
        (OpenError::spec_from_number(n) == OpenError::OutOfMemory) <==> n == 10,
        (OpenError::spec_from_number(n) == OpenError::TooManyFilesOpen) <==> n == 11,
        (OpenError::spec_from_number(n) == OpenError::UnknownError) <==> !(1 <= n <= 11),
{
}

impl From<Errno> for OpenError {
    fn from(error: Errno) -> (r: Self) {
        let n = error.number();
        if n == 1 {
            OpenError::NoSuchSyscall
        } else if n == 2 {
            OpenError::BadAddress
        } else if n == 3 {
            OpenError::InvalidPath
        } else if n == 4 {
            OpenError::InvalidFlag
        } else if n == 5 {
            OpenError::NoSuchFile
        } else if n == 6 {
            OpenError::NotADirectory
        } else if n == 7 {
            OpenError::NotAFile
        } else if n == 8 {
            OpenError::IoError
        } else if n == 9 {
            OpenError::AlreadyExists
        } else if n == 10 {
            OpenError::OutOfMemory
        } else if n == 11 {
            OpenError::TooManyFilesOpen
        } else {
            OpenError::UnknownError
        }
    }
}

impl vstd::std_specs::convert::FromSpecImpl<Errno> for OpenError {
    open spec fn obeys_from_spec() -> bool {
        true
    }

    open spec fn from_spec(error: Errno) -> Self {
        OpenError::spec_from_number(error.spec_number())
    }
}
/// Why a file could not be closed.
#[derive(Clone, Copy, PartialEq, Eq, Structural, Debug, Hash)]
pub enum CloseError {
    /// The system call does not exist.
    NoSuchSyscall,
    /// The file descriptor is not valid.
    InvalidFileDescriptor,
    /// An error that this library does not know.
    UnknownError,
}

impl CloseError {
    /// The error of the given error number: the variants are numbered from
    /// 1 in their order, and a number past the last one is unknown.
    pub open spec fn spec_from_number(n: int) -> Self {
        if n == 1 {
            CloseError::NoSuchSyscall
        } else if n == 2 {
            CloseError::InvalidFileDescriptor
        } else {
            CloseError::UnknownError
        }
    }
}

/// The error numbers of the call: number `k`, from 1, is its `k`-th error,
/// in the order of the system call interface, and every other number is
/// `UnknownError`.
pub proof fn law_close_error_numbers(n: int)
    ensures
        (CloseError::spec_from_number(n) == CloseError::NoSuchSyscall) <==> n == 1,
        (CloseError::spec_from_number(n) == CloseError::InvalidFileDescriptor) <==> n == 2,
        (CloseError::spec_from_number(n) == CloseError::UnknownError) <==> !(1 <= n <= 2),
{
}

impl From<Errno> for CloseError {
    fn from(error: Errno) -> (r: Self) {
        let n = error.number();
        if n == 1 {
            CloseError::NoSuchSyscall
        } else if n == 2 {
            CloseError::InvalidFileDescriptor
        } else {
            CloseError::UnknownError
        }
    }
}

impl vstd::std_specs::convert::FromSpecImpl<Errno> for CloseError {
    open spec fn obeys_from_spec() -> bool {
        true
    }

    open spec fn from_spec(error: Errno) -> Self {
        CloseError::spec_from_number(error.spec_number())
    }
}
/// Why a file could not be read.
#[derive(Clone, Copy, PartialEq, Eq, Structural, Debug, Hash)]
pub enum ReadError {
    /// The system call does not exist.
    NoSuchSyscall,
    /// The file descriptor is not valid.
    InvalidFileDescriptor,
    /// The buffer is not valid.
    BadAddress,
    /// The descriptor is not a file.
    NotAFile,
    /// The file was not opened for reading.
    NotReadable,
    /// The pipe is empty and has no writer.
    BrokenPipe,
    /// An error that this library does not know.
    UnknownError,
}

impl ReadError {
    /// The error of the given error number: the variants are numbered from
    /// 1 in their order, and a number past the last one is unknown.
    pub open spec fn spec_from_number(n: int) -> Self {
        if n == 1 {
            ReadError::NoSuchSyscall
        } else if n == 2 {
            ReadError::InvalidFileDescriptor
        } else if n == 3 {
            ReadError::BadAddress
        } else if n == 4 {
            ReadError::NotAFile
        } else if n == 5 {
            ReadError::NotReadable
        } else if n == 6 {
            ReadError::BrokenPipe
        } else {
            ReadError::UnknownError
        }
    }
}

/// The error numbers of the call: number `k`, from 1, is its `k`-th error,
/// in the order of the system call interface, and every other number is
/// `UnknownError`.
pub proof fn law_read_error_numbers(n: int)
    ensures
        (ReadError::spec_from_number(n) == ReadError::NoSuchSyscall) <==> n == 1,
        (ReadError::spec_from_number(n) == ReadError::InvalidFileDescriptor) <==> n == 2,
        (ReadError::spec_from_number(n) == ReadError::BadAddress) <==> n == 3,
        (ReadError::spec_from_number(n) == ReadError::NotAFile) <==> n == 4,
        (ReadError::spec_from_number(n) == ReadError::NotReadable) <==> n == 5,
        (ReadError::spec_from_number(n) == ReadError::BrokenPipe) <==> n == 6,
        (ReadError::spec_from_number(n) == ReadError::UnknownError) <==> !(1 <= n <= 6),
{
}

impl From<Errno> for ReadError {
    fn from(error: Errno) -> (r: Self) {
        let n = error.number();
        if n == 1 {
            ReadError::NoSuchSyscall
        } else if n == 2 {
            ReadError::InvalidFileDescriptor
        } else if n == 3 {
            ReadError::BadAddress
        } else if n == 4 {
            ReadError::NotAFile
        } else if n == 5 {
            ReadError::NotReadable
        } else if n == 6 {
            ReadError::BrokenPipe
        } else {
            ReadError::UnknownError
        }
    }
}

impl vstd::std_specs::convert::FromSpecImpl<Errno> for ReadError {
    open spec fn obeys_from_spec() -> bool {
        true
    }

    open spec fn from_spec(error: Errno) -> Self {
        ReadError::spec_from_number(error.spec_number())
    }
}
/// Why a file could not be written.
#[derive(Clone, Copy, PartialEq, Eq, Structural, Debug, Hash)]
pub enum WriteError {
    /// The system call does not exist.
    NoSuchSyscall,
    /// The file descriptor is not valid.
    InvalidFileDescriptor,
    /// The buffer is not valid.
    BadAddress,
    /// The descriptor is not a file.
    NotAFile,
    /// The file was not opened for writing.
    NotWritable,
    /// The pipe is full and has no reader.
    BrokenPipe,
    /// An error that this library does not know.
    UnknownError,
}

impl WriteError {
    /// The error of the given error number: the variants are numbered from
    /// 1 in their order, and a number past the last one is unknown.
    pub open spec fn spec_from_number(n: int) -> Self {
        if n == 1 {
            WriteError::NoSuchSyscall
        } else if n == 2 {
            WriteError::InvalidFileDescriptor
        } else if n == 3 {
            WriteError::BadAddress
        } else if n == 4 {
            WriteError::NotAFile
        } else if n == 5 {
            WriteError::NotWritable
        } else if n == 6 {
            WriteError::BrokenPipe
        } else {
            WriteError::UnknownError
        }
    }
}

/// The error numbers of the call: number `k`, from 1, is its `k`-th error,
/// in the order of the system call interface, and every other number is
/// `UnknownError`.
pub proof fn law_write_error_numbers(n: int)
    ensures
        (WriteError::spec_from_number(n) == WriteError::NoSuchSyscall) <==> n == 1,
        (WriteError::spec_from_number(n) == WriteError::InvalidFileDescriptor) <==> n == 2,
        (WriteError::spec_from_number(n) == WriteError::BadAddress) <==> n == 3,
        (WriteError::spec_from_number(n) == WriteError::NotAFile) <==> n == 4,
        (WriteError::spec_from_number(n) == WriteError::NotWritable) <==> n == 5,
        (WriteError::spec_from_number(n) == WriteError::BrokenPipe) <==> n == 6,
        (WriteError::spec_from_number(n) == WriteError::UnknownError) <==> !(1 <= n <= 6),
{
}

impl From<Errno> for WriteError {
    fn from(error: Errno) -> (r: Self) {
        let n = error.number();
        if n == 1 {
            WriteError::NoSuchSyscall
        } else if n == 2 {
            WriteError::InvalidFileDescriptor
        } else if n == 3 {
            WriteError::BadAddress
        } else if n == 4 {
            WriteError::NotAFile
        } else if n == 5 {
            WriteError::NotWritable
        } else if n == 6 {
            WriteError::BrokenPipe
        } else {
            WriteError::UnknownError
        }
    }
}

impl vstd::std_specs::convert::FromSpecImpl<Errno> for WriteError {
    open spec fn obeys_from_spec() -> bool {
        true
    }

    open spec fn from_spec(error: Errno) -> Self {
        WriteError::spec_from_number(error.spec_number())
    }
}
/// Why a seek failed.
#[derive(Clone, Copy, PartialEq, Eq, Structural, Debug, Hash)]
pub enum SeekError {
    /// The system call does not exist.
    NoSuchSyscall,
    /// The file descriptor is not valid.
    InvalidFileDescriptor,
    /// The file cannot be seeked.
    NotSeekable,
    /// The whence is not valid.
    InvalidWhence,
    /// The offset is not valid.
    InvalidOffset,
    /// The new offset does not fit in an `isize`.
    Overflow,
    /// An error that this library does not know.
    UnknownError,
}

impl SeekError {
    /// The error of the given error number: the variants are numbered from
    /// 1 in their order, and a number past the last one is unknown.
    pub open spec fn spec_from_number(n: int) -> Self {
        if n == 1 {
            SeekError::NoSuchSyscall
        } else if n == 2 {
            SeekError::InvalidFileDescriptor
        } else if n == 3 {
            SeekError::NotSeekable
        } else if n == 4 {
            SeekError::InvalidWhence
        } else if n == 5 {
            SeekError::InvalidOffset
        } else if n == 6 {
            SeekError::Overflow
        } else {
            SeekError::UnknownError
        }
    }
}

/// The error numbers of the call: number `k`, from 1, is its `k`-th error,
/// in the order of the system call interface, and every other number is
/// `UnknownError`.
pub proof fn law_seek_error_numbers(n: int)
    ensures
        (SeekError::spec_from_number(n) == SeekError::NoSuchSyscall) <==> n == 1,
        (SeekError::spec_from_number(n) == SeekError::InvalidFileDescriptor) <==> n == 2,
        (SeekError::spec_from_number(n) == SeekError::NotSeekable) <==> n == 3,
        (SeekError::spec_from_number(n) == SeekError::InvalidWhence) <==> n == 4,
        (SeekError::spec_from_number(n) == SeekError::InvalidOffset) <==> n == 5,
        (SeekError::spec_from_number(n) == SeekError::Overflow) <==> n == 6,
        (SeekError::spec_from_number(n) == SeekError::UnknownError) <==> !(1 <= n <= 6),
{
}

impl From<Errno> for SeekError {
    fn from(error: Errno) -> (r: Self) {
        let n = error.number();
        if n == 1 {
            SeekError::NoSuchSyscall
        } else if n == 2 {
            SeekError::InvalidFileDescriptor
        } else if n == 3 {
            SeekError::NotSeekable
        } else if n == 4 {
            SeekError::InvalidWhence
        } else if n == 5 {
            SeekError::InvalidOffset
        } else if n == 6 {
            SeekError::Overflow
        } else {
            SeekError::UnknownError
        }
    }
}

impl vstd::std_specs::convert::FromSpecImpl<Errno> for SeekError {
    open spec fn obeys_from_spec() -> bool {
        true
    }

    open spec fn from_spec(error: Errno) -> Self {
        SeekError::spec_from_number(error.spec_number())
    }
}
/// Why the current directory could not be read.
#[derive(Clone, Copy, PartialEq, Eq, Structural, Debug, Hash)]
pub enum GetCwdError {
    /// The system call does not exist.
    NoSuchSyscall,
    /// The buffer is not valid.
    BadAddress,
    /// The buffer is too small for the path.
    BufferTooSmall,
    /// An error that this library does not know.
    UnknownError,
}

impl GetCwdError {
    /// The error of the given error number: the variants are numbered from
    /// 1 in their order, and a number past the last one is unknown.
    pub open spec fn spec_from_number(n: int) -> Self {
        if n == 1 {
            GetCwdError::NoSuchSyscall
        } else if n == 2 {
            GetCwdError::BadAddress
        } else if n == 3 {
            GetCwdError::BufferTooSmall
        } else {
            GetCwdError::UnknownError
        }
    }
}

/// The error numbers of the call: number `k`, from 1, is its `k`-th error,
/// in the order of the system call interface, and every other number is
/// `UnknownError`.
pub proof fn law_get_cwd_error_numbers(n: int)
    ensures
        (GetCwdError::spec_from_number(n) == GetCwdError::NoSuchSyscall) <==> n == 1,
        (GetCwdError::spec_from_number(n) == GetCwdError::BadAddress) <==> n == 2,
        (GetCwdError::spec_from_number(n) == GetCwdError::BufferTooSmall) <==> n == 3,
        (GetCwdError::spec_from_number(n) == GetCwdError::UnknownError) <==> !(1 <= n <= 3),
{
}

impl From<Errno> for GetCwdError {
    fn from(error: Errno) -> (r: Self) {
        let n = error.number();
        if n == 1 {
            GetCwdError::NoSuchSyscall
        } else if n == 2 {
            GetCwdError::BadAddress
        } else if n == 3 {
            GetCwdError::BufferTooSmall
        } else {
            GetCwdError::UnknownError
        }
    }
}

impl vstd::std_specs::convert::FromSpecImpl<Errno> for GetCwdError {
    open spec fn obeys_from_spec() -> bool {
        true
    }

    open spec fn from_spec(error: Errno) -> Self {
        GetCwdError::spec_from_number(error.spec_number())
    }
}
/// Why the current directory could not be changed.
#[derive(Clone, Copy, PartialEq, Eq, Structural, Debug, Hash)]
pub enum ChangeCwdError {
    /// The system call does not exist.
    NoSuchSyscall,
    /// The path is at an invalid address.
    BadAddress,
    /// The path is not valid UTF-8.
    InvalidUtf8,
    /// The path is not valid.
    InvalidPath,
    /// The path is too long.
    PathTooLong,
    /// A component of the path is too long.
    ComponentTooLong,
    /// The path does not exist.
    NoSuchEntry,
    /// The path does not name a directory.
    NotADirectory,
    /// An error that this library does not know.
    UnknownError,
}

impl ChangeCwdError {
    /// The error of the given error number: the variants are numbered from
    /// 1 in their order, and a number past the last one is unknown.
    pub open spec fn spec_from_number(n: int) -> Self {
        if n == 1 {
            ChangeCwdError::NoSuchSyscall
        } else if n == 2 {
            ChangeCwdError::BadAddress
        } else if n == 3 {
            ChangeCwdError::InvalidUtf8
        } else if n == 4 {
            ChangeCwdError::InvalidPath
        } else if n == 5 {
            ChangeCwdError::PathTooLong
        } else if n == 6 {
            ChangeCwdError::ComponentTooLong
        } else if n == 7 {
            ChangeCwdError::NoSuchEntry
        } else if n == 8 {
            ChangeCwdError::NotADirectory
        } else {
            ChangeCwdError::UnknownError
        }
    }
}

/// The error numbers of the call: number `k`, from 1, is its `k`-th error,
/// in the order of the system call interface, and every other number is
/// `UnknownError`.
pub proof fn law_change_cwd_error_numbers(n: int)
    ensures
        (ChangeCwdError::spec_from_number(n) == ChangeCwdError::NoSuchSyscall) <==> n == 1,
        (ChangeCwdError::spec_from_number(n) == ChangeCwdError::BadAddress) <==> n == 2,
        (ChangeCwdError::spec_from_number(n) == ChangeCwdError::InvalidUtf8) <==> n == 3,
        (ChangeCwdError::spec_from_number(n) == ChangeCwdError::InvalidPath) <==> n == 4,
        (ChangeCwdError::spec_from_number(n) == ChangeCwdError::PathTooLong) <==> n == 5,
        (ChangeCwdError::spec_from_number(n) == ChangeCwdError::ComponentTooLong) <==> n == 6,
        (ChangeCwdError::spec_from_number(n) == ChangeCwdError::NoSuchEntry) <==> n == 7,
        (ChangeCwdError::spec_from_number(n) == ChangeCwdError::NotADirectory) <==> n == 8,
        (ChangeCwdError::spec_from_number(n) == ChangeCwdError::UnknownError) <==> !(1 <= n <= 8),
{
}

impl From<Errno> for ChangeCwdError {
    fn from(error: Errno) -> (r: Self) {
        let n = error.number();
        if n == 1 {
            ChangeCwdError::NoSuchSyscall
        } else if n == 2 {
            ChangeCwdError::BadAddress
        } else if n == 3 {
            ChangeCwdError::InvalidUtf8
        } else if n == 4 {
            ChangeCwdError::InvalidPath
        } else if n == 5 {
            ChangeCwdError::PathTooLong
        } else if n == 6 {
            ChangeCwdError::ComponentTooLong
        } else if n == 7 {
            ChangeCwdError::NoSuchEntry
        } else if n == 8 {
            ChangeCwdError::NotADirectory
        } else {
            ChangeCwdError::UnknownError
        }
    }
}

impl vstd::std_specs::convert::FromSpecImpl<Errno> for ChangeCwdError {
    open spec fn obeys_from_spec() -> bool {
        true
    }

    open spec fn from_spec(error: Errno) -> Self {
        ChangeCwdError::spec_from_number(error.spec_number())
    }
}
/// Why a directory could not be created.
#[derive(Clone, Copy, PartialEq, Eq, Structural, Debug, Hash)]
pub enum MkdirError {
    /// The system call does not exist.
    NoSuchSyscall,
    /// The path is at an invalid address.
    BadAddress,
    /// The path is not valid UTF-8.
    InvalidUtf8,
    /// The path is not valid.
    InvalidPath,
    /// The path is too long.
    PathTooLong,
    /// A component of the path is too long.
    ComponentTooLong,
    /// The path does not exist.
    NoSuchEntry,
    /// The directory already exists.
    AlreadyExists,
    /// The path does not name a directory.
    NotADirectory,
    /// An error that this library does not know.
    UnknownError,
}

impl MkdirError {
    /// The error of the given error number: the variants are numbered from
    /// 1 in their order, and a number past the last one is unknown.
    pub open spec fn spec_from_number(n: int) -> Self {
        if n == 1 {
            MkdirError::NoSuchSyscall
        } else if n == 2 {
            MkdirError::BadAddress
        } else if n == 3 {
            MkdirError::InvalidUtf8
        } else if n == 4 {
            MkdirError::InvalidPath
        } else if n == 5 {
            MkdirError::PathTooLong
        } else if n == 6 {
            MkdirError::ComponentTooLong
        } else if n == 7 {
            MkdirError::NoSuchEntry
        } else if n == 8 {
            MkdirError::AlreadyExists
        } else if n == 9 {
            MkdirError::NotADirectory
        } else {
            MkdirError::UnknownError
        }
    }
}

/// The error numbers of the call: number `k`, from 1, is its `k`-th error,
/// in the order of the system call interface, and every other number is
/// `UnknownError`.
pub proof fn law_mkdir_error_numbers(n: int)
    ensures
        (MkdirError::spec_from_number(n) == MkdirError::NoSuchSyscall) <==> n == 1,
        (MkdirError::spec_from_number(n) == MkdirError::BadAddress) <==> n == 2,
        (MkdirError::spec_from_number(n) == MkdirError::InvalidUtf8) <==> n == 3,
        (MkdirError::spec_from_number(n) == MkdirError::InvalidPath) <==> n == 4,
        (MkdirError::spec_from_number(n) == MkdirError::PathTooLong) <==> n == 5,
        (MkdirError::spec_from_number(n) == MkdirError::ComponentTooLong) <==> n == 6,
        (MkdirError::spec_from_number(n) == MkdirError::NoSuchEntry) <==> n == 7,
        (MkdirError::spec_from_number(n) == MkdirError::AlreadyExists) <==> n == 8,
        (MkdirError::spec_from_number(n) == MkdirError::NotADirectory) <==> n == 9,
        (MkdirError::spec_from_number(n) == MkdirError::UnknownError) <==> !(1 <= n <= 9),
{
}

impl From<Errno> for MkdirError {
    fn from(error: Errno) -> (r: Self) {
        let n = error.number();
        if n == 1 {
            MkdirError::NoSuchSyscall
        } else if n == 2 {
            MkdirError::BadAddress
        } else if n == 3 {
            MkdirError::InvalidUtf8
        } else if n == 4 {
            MkdirError::InvalidPath
        } else if n == 5 {
            MkdirError::PathTooLong
        } else if n == 6 {
            MkdirError::ComponentTooLong
        } else if n == 7 {
            MkdirError::NoSuchEntry
        } else if n == 8 {
            MkdirError::AlreadyExists
        } else if n == 9 {
            MkdirError::NotADirectory
        } else {
            MkdirError::UnknownError
        }
    }
}

impl vstd::std_specs::convert::FromSpecImpl<Errno> for MkdirError {
    open spec fn obeys_from_spec() -> bool {
        true
    }

    open spec fn from_spec(error: Errno) -> Self {
        MkdirError::spec_from_number(error.spec_number())
    }
}
/// Why a directory could not be removed.
#[derive(Clone, Copy, PartialEq, Eq, Structural, Debug, Hash)]
pub enum RmdirError {
    /// The system call does not exist.
    NoSuchSyscall,
    /// The path is at an invalid address.
    BadAddress,
    /// The path is not valid UTF-8.
    InvalidUtf8,
    /// The path is not valid.
    InvalidPath,
    /// The path is too long.
    PathTooLong,
    /// A component of the path is too long.
    ComponentTooLong,
    /// The path does not exist.
    NoSuchEntry,
    /// The path does not name a directory.
    NotADirectory,
    /// The directory is not empty.
    NotEmpty,
    /// An error that this library does not know.
    UnknownError,
}

impl RmdirError {
    /// The error of the given error number: the variants are numbered from
    /// 1 in their order, and a number past the last one is unknown.
    pub open spec fn spec_from_number(n: int) -> Self {
        if n == 1 {
            RmdirError::NoSuchSyscall
        } else if n == 2 {
            RmdirError::BadAddress
        } else if n == 3 {
            RmdirError::InvalidUtf8
        } else if n == 4 {
            RmdirError::InvalidPath
        } else if n == 5 {
            RmdirError::PathTooLong
        } else if n == 6 {
            RmdirError::ComponentTooLong
        } else if n == 7 {
            RmdirError::NoSuchEntry
        } else if n == 8 {
            RmdirError::NotADirectory
        } else if n == 9 {
            RmdirError::NotEmpty
        } else {
            RmdirError::UnknownError
        }
    }
}

/// The error numbers of the call: number `k`, from 1, is its `k`-th error,
/// in the order of the system call interface, and every other number is
/// `UnknownError`.
pub proof fn law_rmdir_error_numbers(n: int)
    ensures
        (RmdirError::spec_from_number(n) == RmdirError::NoSuchSyscall) <==> n == 1,
        (RmdirError::spec_from_number(n) == RmdirError::BadAddress) <==> n == 2,
        (RmdirError::spec_from_number(n) == RmdirError::InvalidUtf8) <==> n == 3,
        (RmdirError::spec_from_number(n) == RmdirError::InvalidPath) <==> n == 4,
        (RmdirError::spec_from_number(n) == RmdirError::PathTooLong) <==> n == 5,
        (RmdirError::spec_from_number(n) == RmdirError::ComponentTooLong) <==> n == 6,
        (RmdirError::spec_from_number(n) == RmdirError::NoSuchEntry) <==> n == 7,
        (RmdirError::spec_from_number(n) == RmdirError::NotADirectory) <==> n == 8,
        (RmdirError::spec_from_number(n) == RmdirError::NotEmpty) <==> n == 9,
        (RmdirError::spec_from_number(n) == RmdirError::UnknownError) <==> !(1 <= n <= 9),
{
}

impl From<Errno> for RmdirError {
    fn from(error: Errno) -> (r: Self) {
        let n = error.number();
        if n == 1 {
            RmdirError::NoSuchSyscall
        } else if n == 2 {
            RmdirError::BadAddress
        } else if n == 3 {
            RmdirError::InvalidUtf8
        } else if n == 4 {
            RmdirError::InvalidPath
        } else if n == 5 {
            RmdirError::PathTooLong
        } else if n == 6 {
            RmdirError::ComponentTooLong
        } else if n == 7 {
            RmdirError::NoSuchEntry
        } else if n == 8 {
            RmdirError::NotADirectory
        } else if n == 9 {
            RmdirError::NotEmpty
        } else {
            RmdirError::UnknownError
        }
    }
}

impl vstd::std_specs::convert::FromSpecImpl<Errno> for RmdirError {
    open spec fn obeys_from_spec() -> bool {
        true
    }

    open spec fn from_spec(error: Errno) -> Self {
        RmdirError::spec_from_number(error.spec_number())
    }
}
/// Why a file could not be truncated.
#[derive(Clone, Copy, PartialEq, Eq, Structural, Debug, Hash)]
pub enum TruncateError {
    /// The system call does not exist.
    NoSuchSyscall,
    /// The path is at an invalid address.
    BadAddress,
    /// The path is not valid UTF-8.
    InvalidUtf8,
    /// The path is not valid.
    InvalidPath,
    /// The path is too long.
    PathTooLong,
    /// A component of the path is too long.
    ComponentTooLong,
    /// The path does not exist.
    NoSuchEntry,
    /// A component of the path is not a directory.
    NotADirectory,
    /// The path does not name a file.
    NotAFile,
    /// An error that this library does not know.
    UnknownError,
}

impl TruncateError {
    /// The error of the given error number: the variants are numbered from
    /// 1 in their order, and a number past the last one is unknown.
    pub open spec fn spec_from_number(n: int) -> Self {
        if n == 1 {
            TruncateError::NoSuchSyscall
        } else if n == 2 {
            TruncateError::BadAddress
        } else if n == 3 {
            TruncateError::InvalidUtf8
        } else if n == 4 {
            TruncateError::InvalidPath
        } else if n == 5 {
            TruncateError::PathTooLong
        } else if n == 6 {
            TruncateError::ComponentTooLong
        } else if n == 7 {
            TruncateError::NoSuchEntry
        } else if n == 8 {
            TruncateError::NotADirectory
        } else if n == 9 {
            TruncateError::NotAFile
        } else {
            TruncateError::UnknownError
        }
    }
}

/// The error numbers of the call: number `k`, from 1, is its `k`-th error,
/// in the order of the system call interface, and every other number is
/// `UnknownError`.
pub proof fn law_truncate_error_numbers(n: int)
    ensures
        (TruncateError::spec_from_number(n) == TruncateError::NoSuchSyscall) <==> n == 1,
        (TruncateError::spec_from_number(n) == TruncateError::BadAddress) <==> n == 2,
        (TruncateError::spec_from_number(n) == TruncateError::InvalidUtf8) <==> n == 3,
        (TruncateError::spec_from_number(n) == TruncateError::InvalidPath) <==> n == 4,
        (TruncateError::spec_from_number(n) == TruncateError::PathTooLong) <==> n == 5,
        (TruncateError::spec_from_number(n) == TruncateError::ComponentTooLong) <==> n == 6,
        (TruncateError::spec_from_number(n) == TruncateError::NoSuchEntry) <==> n == 7,
        (TruncateError::spec_from_number(n) == TruncateError::NotADirectory) <==> n == 8,
        (TruncateError::spec_from_number(n) == TruncateError::NotAFile) <==> n == 9,
        (TruncateError::spec_from_number(n) == TruncateError::UnknownError) <==> !(1 <= n <= 9),
{
}

impl From<Errno> for TruncateError {
    fn from(error: Errno) -> (r: Self) {
        let n = error.number();
        if n == 1 {
            TruncateError::NoSuchSyscall
        } else if n == 2 {
            TruncateError::BadAddress
        } else if n == 3 {
            TruncateError::InvalidUtf8
        } else if n == 4 {
            TruncateError::InvalidPath
        } else if n == 5 {
            TruncateError::PathTooLong
        } else if n == 6 {
            TruncateError::ComponentTooLong
        } else if n == 7 {
            TruncateError::NoSuchEntry
        } else if n == 8 {
            TruncateError::NotADirectory
        } else if n == 9 {
            TruncateError::NotAFile
        } else {
            TruncateError::UnknownError
        }
    }
}

impl vstd::std_specs::convert::FromSpecImpl<Errno> for TruncateError {
    open spec fn obeys_from_spec() -> bool {
        true
    }

    open spec fn from_spec(error: Errno) -> Self {
        TruncateError::spec_from_number(error.spec_number())
    }
}
/// Why a file could not be described.
#[derive(Clone, Copy, PartialEq, Eq, Structural, Debug, Hash)]
pub enum StatError {
    /// The system call does not exist.
    NoSuchSyscall,
    /// The path is at an invalid address.
    BadAddress,
    /// The path is not valid UTF-8.
    InvalidUtf8,
    /// The path is not valid.
    InvalidPath,
    /// The path is too long.
    PathTooLong,
    /// A component of the path is too long.
    ComponentTooLong,
    /// The path does not exist.
    NoSuchEntry,
    /// A component of the path is not a directory.
    NotADirectory,
    /// An error that this library does not know.
    UnknownError,
}

impl StatError {
    /// The error of the given error number: the variants are numbered from
    /// 1 in their order, and a number past the last one is unknown.
    pub open spec fn spec_from_number(n: int) -> Self {
        if n == 1 {
            StatError::NoSuchSyscall
        } else if n == 2 {
            StatError::BadAddress
        } else if n == 3 {
            StatError::InvalidUtf8
        } else if n == 4 {
            StatError::InvalidPath
        } else if n == 5 {
            StatError::PathTooLong
        } else if n == 6 {
            StatError::ComponentTooLong
        } else if n == 7 {
            StatError::NoSuchEntry
        } else if n == 8 {
            StatError::NotADirectory
        } else {
            StatError::UnknownError
        }
    }
}

/// The error numbers of the call: number `k`, from 1, is its `k`-th error,
/// in the order of the system call interface, and every other number is
/// `UnknownError`.
pub proof fn law_stat_error_numbers(n: int)
    ensures
        (StatError::spec_from_number(n) == StatError::NoSuchSyscall) <==> n == 1,
        (StatError::spec_from_number(n) == StatError::BadAddress) <==> n == 2,
        (StatError::spec_from_number(n) == StatError::InvalidUtf8) <==> n == 3,
        (StatError::spec_from_number(n) == StatError::InvalidPath) <==> n == 4,
        (StatError::spec_from_number(n) == StatError::PathTooLong) <==> n == 5,
        (StatError::spec_from_number(n) == StatError::ComponentTooLong) <==> n == 6,
        (StatError::spec_from_number(n) == StatError::NoSuchEntry) <==> n == 7,
        (StatError::spec_from_number(n) == StatError::NotADirectory) <==> n == 8,
        (StatError::spec_from_number(n) == StatError::UnknownError) <==> !(1 <= n <= 8),
{
}

impl From<Errno> for StatError {
    fn from(error: Errno) -> (r: Self) {
        let n = error.number();
        if n == 1 {
            StatError::NoSuchSyscall
        } else if n == 2 {
            StatError::BadAddress
        } else if n == 3 {
            StatError::InvalidUtf8
        } else if n == 4 {
            StatError::InvalidPath
        } else if n == 5 {
            StatError::PathTooLong
        } else if n == 6 {
            StatError::ComponentTooLong
        } else if n == 7 {
            StatError::NoSuchEntry
        } else if n == 8 {
            StatError::NotADirectory
        } else {
            StatError::UnknownError
        }
    }
}

impl vstd::std_specs::convert::FromSpecImpl<Errno> for StatError {
    open spec fn obeys_from_spec() -> bool {
        true
    }

    open spec fn from_spec(error: Errno) -> Self {
        StatError::spec_from_number(error.spec_number())
    }
}
/// Why a directory entry could not be read.
#[derive(Clone, Copy, PartialEq, Eq, Structural, Debug, Hash)]
pub enum ReaddirError {
    /// The system call does not exist.
    NoSuchSyscall,
    /// The file descriptor is not valid.
    InvalidFileDescriptor,
    /// The entry is at an invalid address.
    BadAddress,
    /// The descriptor is not a directory.
    NotADirectory,
    /// The directory cannot be read.
    NotReadable,
    /// The directory has no entry left.
    EndOfDirectory,
    /// An error that this library does not know.
    UnknownError,
}

impl ReaddirError {
    /// The error of the given error number: the variants are numbered from
    /// 1 in their order, and a number past the last one is unknown.
    pub open spec fn spec_from_number(n: int) -> Self {
        if n == 1 {
            ReaddirError::NoSuchSyscall
        } else if n == 2 {
            ReaddirError::InvalidFileDescriptor
        } else if n == 3 {
            ReaddirError::BadAddress
        } else if n == 4 {
            ReaddirError::NotADirectory
        } else if n == 5 {
            ReaddirError::NotReadable
        } else if n == 6 {
            ReaddirError::EndOfDirectory
        } else {
            ReaddirError::UnknownError
        }
    }
}

/// The error numbers of the call: number `k`, from 1, is its `k`-th error,
/// in the order of the system call interface, and every other number is
/// `UnknownError`.
pub proof fn law_readdir_error_numbers(n: int)
    ensures
        (ReaddirError::spec_from_number(n) == ReaddirError::NoSuchSyscall) <==> n == 1,
        (ReaddirError::spec_from_number(n) == ReaddirError::InvalidFileDescriptor) <==> n == 2,
        (ReaddirError::spec_from_number(n) == ReaddirError::BadAddress) <==> n == 3,
        (ReaddirError::spec_from_number(n) == ReaddirError::NotADirectory) <==> n == 4,
        (ReaddirError::spec_from_number(n) == ReaddirError::NotReadable) <==> n == 5,
        (ReaddirError::spec_from_number(n) == ReaddirError::EndOfDirectory) <==> n == 6,
        (ReaddirError::spec_from_number(n) == ReaddirError::UnknownError) <==> !(1 <= n <= 6),
{
}

impl From<Errno> for ReaddirError {
    fn from(error: Errno) -> (r: Self) {
        let n = error.number();
        if n == 1 {
            ReaddirError::NoSuchSyscall
        } else if n == 2 {
            ReaddirError::InvalidFileDescriptor
        } else if n == 3 {
            ReaddirError::BadAddress
        } else if n == 4 {
            ReaddirError::NotADirectory
        } else if n == 5 {
            ReaddirError::NotReadable
        } else if n == 6 {
            ReaddirError::EndOfDirectory
        } else {
            ReaddirError::UnknownError
        }
    }
}

impl vstd::std_specs::convert::FromSpecImpl<Errno> for ReaddirError {
    open spec fn obeys_from_spec() -> bool {
        true
    }

    open spec fn from_spec(error: Errno) -> Self {
        ReaddirError::spec_from_number(error.spec_number())
    }
}
/// Why a file could not be removed.
#[derive(Clone, Copy, PartialEq, Eq, Structural, Debug, Hash)]
pub enum UnlinkError {
    /// The system call does not exist.
    NoSuchSyscall,
    /// The path is at an invalid address.
    BadAddress,
    /// The path is not valid UTF-8.
    InvalidUtf8,
    /// The path is not valid.
    InvalidPath,
    /// The path is too long.
    PathTooLong,
    /// A component of the path is not a directory.
    ComponentNotADirectory,
    /// A component of the path is too long.
    ComponentTooLong,
    /// The path does not exist.
    NoSuchEntry,
    /// The path names a directory.
    IsADirectory,
    /// An error that this library does not know.
    UnknownError,
}

impl UnlinkError {
    /// The error of the given error number: the variants are numbered from
    /// 1 in their order, and a number past the last one is unknown.
    pub open spec fn spec_from_number(n: int) -> Self {
        if n == 1 {
            UnlinkError::NoSuchSyscall
        } else if n == 2 {
            UnlinkError::BadAddress
        } else if n == 3 {
            UnlinkError::InvalidUtf8
        } else if n == 4 {
            UnlinkError::InvalidPath
        } else if n == 5 {
            UnlinkError::PathTooLong
        } else if n == 6 {
            UnlinkError::ComponentNotADirectory
        } else if n == 7 {
            UnlinkError::ComponentTooLong
        } else if n == 8 {
            UnlinkError::NoSuchEntry
        } else if n == 9 {
            UnlinkError::IsADirectory
        } else {
            UnlinkError::UnknownError
        }
    }
}

/// The error numbers of the call: number `k`, from 1, is its `k`-th error,
/// in the order of the system call interface, and every other number is
/// `UnknownError`.
pub proof fn law_unlink_error_numbers(n: int)
    ensures
        (UnlinkError::spec_from_number(n) == UnlinkError::NoSuchSyscall) <==> n == 1,
        (UnlinkError::spec_from_number(n) == UnlinkError::BadAddress) <==> n == 2,
        (UnlinkError::spec_from_number(n) == UnlinkError::InvalidUtf8) <==> n == 3,
        (UnlinkError::spec_from_number(n) == UnlinkError::InvalidPath) <==> n == 4,
        (UnlinkError::spec_from_number(n) == UnlinkError::PathTooLong) <==> n == 5,
        (UnlinkError::spec_from_number(n) == UnlinkError::ComponentNotADirectory) <==> n == 6,
        (UnlinkError::spec_from_number(n) == UnlinkError::ComponentTooLong) <==> n == 7,
        (UnlinkError::spec_from_number(n) == UnlinkError::NoSuchEntry) <==> n == 8,
        (UnlinkError::spec_from_number(n) == UnlinkError::IsADirectory) <==> n == 9,
        (UnlinkError::spec_from_number(n) == UnlinkError::UnknownError) <==> !(1 <= n <= 9),
{
}

impl From<Errno> for UnlinkError {
    fn from(error: Errno) -> (r: Self) {
        let n = error.number();
        if n == 1 {
            UnlinkError::NoSuchSyscall
        } else if n == 2 {
            UnlinkError::BadAddress
        } else if n == 3 {
            UnlinkError::InvalidUtf8
        } else if n == 4 {
            UnlinkError::InvalidPath
        } else if n == 5 {
            UnlinkError::PathTooLong
        } else if n == 6 {
            UnlinkError::ComponentNotADirectory
        } else if n == 7 {
            UnlinkError::ComponentTooLong
        } else if n == 8 {
            UnlinkError::NoSuchEntry
        } else if n == 9 {
            UnlinkError::IsADirectory
        } else {
            UnlinkError::UnknownError
        }
    }
}

impl vstd::std_specs::convert::FromSpecImpl<Errno> for UnlinkError {
    open spec fn obeys_from_spec() -> bool {
        true
    }

    open spec fn from_spec(error: Errno) -> Self {
        UnlinkError::spec_from_number(error.spec_number())
    }
}
/// The outcome of opening a file, from the value the call returned: the
/// descriptor of the file.
pub fn open_result(ret: usize) -> (r: Result<FileDescriptor, OpenError>)
    ensures
        is_error_return(ret) ==> r == Err::<FileDescriptor, OpenError>(OpenError::spec_from_number(error_number(ret))),
        !is_error_return(ret) ==> (r matches Ok(fd) && fd.spec_raw() == ret),
{
    match syscall_return(ret) {
        Ok(v) => Ok(FileDescriptor(v)),
        Err(e) => Err(OpenError::from(e)),
    }
}
/// The outcome of closing a file, from the value the call returned.
pub fn close_result(ret: usize) -> (r: Result<(), CloseError>)
    ensures
        is_error_return(ret) ==> r == Err::<(), CloseError>(CloseError::spec_from_number(error_number(ret))),
        !is_error_return(ret) ==> r == Ok::<(), CloseError>(()),
{
    match syscall_return(ret) {
        Ok(_) => Ok(()),
        Err(e) => Err(CloseError::from(e)),
    }
}
/// The outcome of reading a file, from the value the call returned: the
/// number of bytes read.
pub fn read_result(ret: usize) -> (r: Result<usize, ReadError>)
    ensures
        is_error_return(ret) ==> r == Err::<usize, ReadError>(ReadError::spec_from_number(error_number(ret))),
        !is_error_return(ret) ==> r == Ok::<usize, ReadError>(ret),
{
    match syscall_return(ret) {
        Ok(v) => Ok(v),
        Err(e) => Err(ReadError::from(e)),
    }
}
/// The outcome of writing a file, from the value the call returned: the
/// number of bytes written.
pub fn write_result(ret: usize) -> (r: Result<usize, WriteError>)
    ensures
        is_error_return(ret) ==> r == Err::<usize, WriteError>(WriteError::spec_from_number(error_number(ret))),
        !is_error_return(ret) ==> r == Ok::<usize, WriteError>(ret),
{
    match syscall_return(ret) {
        Ok(v) => Ok(v),
        Err(e) => Err(WriteError::from(e)),
    }
}
/// The outcome of a seek, from the value the call returned: the new
/// offset.
pub fn seek_result(ret: usize) -> (r: Result<usize, SeekError>)
    ensures
        is_error_return(ret) ==> r == Err::<usize, SeekError>(SeekError::spec_from_number(error_number(ret))),
        !is_error_return(ret) ==> r == Ok::<usize, SeekError>(ret),
{
    match syscall_return(ret) {
        Ok(v) => Ok(v),
        Err(e) => Err(SeekError::from(e)),
    }
}
/// The outcome of reading the current directory, from the value the call
/// returned: the length of the path.
pub fn get_cwd_result(ret: usize) -> (r: Result<usize, GetCwdError>)
    ensures
        is_error_return(ret) ==> r == Err::<usize, GetCwdError>(GetCwdError::spec_from_number(error_number(ret))),
        !is_error_return(ret) ==> r == Ok::<usize, GetCwdError>(ret),
{
    match syscall_return(ret) {
        Ok(v) => Ok(v),
        Err(e) => Err(GetCwdError::from(e)),
    }
}
/// The outcome of changing the current directory, from the value the call
/// returned.
pub fn change_cwd_result(ret: usize) -> (r: Result<(), ChangeCwdError>)
    ensures
        is_error_return(ret) ==> r == Err::<(), ChangeCwdError>(ChangeCwdError::spec_from_number(error_number(ret))),
        !is_error_return(ret) ==> r == Ok::<(), ChangeCwdError>(()),
{
    match syscall_return(ret) {
        Ok(_) => Ok(()),
        Err(e) => Err(ChangeCwdError::from(e)),
    }
}
/// The outcome of creating a directory, from the value the call returned.
pub fn mkdir_result(ret: usize) -> (r: Result<(), MkdirError>)
    ensures
        is_error_return(ret) ==> r == Err::<(), MkdirError>(MkdirError::spec_from_number(error_number(ret))),
        !is_error_return(ret) ==> r == Ok::<(), MkdirError>(()),
{
    match syscall_return(ret) {
        Ok(_) => Ok(()),
        Err(e) => Err(MkdirError::from(e)),
    }
}
/// The outcome of removing a directory, from the value the call returned.
pub fn rmdir_result(ret: usize) -> (r: Result<(), RmdirError>)
    ensures
        is_error_return(ret) ==> r == Err::<(), RmdirError>(RmdirError::spec_from_number(error_number(ret))),
        !is_error_return(ret) ==> r == Ok::<(), RmdirError>(()),
{
    match syscall_return(ret) {
        Ok(_) => Ok(()),
        Err(e) => Err(RmdirError::from(e)),
    }
}
/// The outcome of truncating a file, from the value the call returned.
pub fn truncate_result(ret: usize) -> (r: Result<(), TruncateError>)
    ensures
        is_error_return(ret) ==> r == Err::<(), TruncateError>(TruncateError::spec_from_number(error_number(ret))),
        !is_error_return(ret) ==> r == Ok::<(), TruncateError>(()),
{
    match syscall_return(ret) {
        Ok(_) => Ok(()),
        Err(e) => Err(TruncateError::from(e)),
    }
}
/// The outcome of describing a file, from the value the call returned and
/// the description it wrote. Its errors read as those of a truncation.
pub fn stat_result(ret: usize, stat: Stat) -> (r: Result<Stat, TruncateError>)
    ensures
        is_error_return(ret) ==> r == Err::<Stat, TruncateError>(TruncateError::spec_from_number(error_number(ret))),
        !is_error_return(ret) ==> r == Ok::<Stat, TruncateError>(stat),
{
    match syscall_return(ret) {
        Ok(_) => Ok(stat),
        Err(e) => Err(TruncateError::from(e)),
    }
}
/// The outcome of reading a directory entry, from the value the call
/// returned and the entry it wrote.
pub fn readdir_result(ret: usize, dirent: Dirent) -> (r: Result<Dirent, ReaddirError>)
    ensures
        is_error_return(ret) ==> r == Err::<Dirent, ReaddirError>(ReaddirError::spec_from_number(error_number(ret))),
        !is_error_return(ret) ==> r == Ok::<Dirent, ReaddirError>(dirent),
{
    match syscall_return(ret) {
        Ok(_) => Ok(dirent),
        Err(e) => Err(ReaddirError::from(e)),
    }
}
/// The outcome of removing a file, from the value the call returned.
pub fn unlink_result(ret: usize) -> (r: Result<(), UnlinkError>)
    ensures
        is_error_return(ret) ==> r == Err::<(), UnlinkError>(UnlinkError::spec_from_number(error_number(ret))),
        !is_error_return(ret) ==> r == Ok::<(), UnlinkError>(()),
{
    match syscall_return(ret) {
        Ok(_) => Ok(()),
        Err(e) => Err(UnlinkError::from(e)),
    }
}
} // verus!
