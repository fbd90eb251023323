//! Open files: what an open call gives back, its flags, its offset and the
//! operations that its driver provides.
use vstd::prelude::*;
use super::dirent::DirectoryEntry;
use super::inode::Inode;

verus! {

/// An open file. `D` is the custom data that the driver keeps with it.
#[derive(Debug)]
pub struct File<D> {
    /// The inode opened by this file, if the file has one.
    pub inode: Option<Inode>,
    /// The operations of this file.
    pub operation: Operation,
    /// The flags the file was opened with.
    pub open_flags: OpenFlags,
    /// The state of this file that changes over time.
    pub state: OpenFileState,
    /// Custom data, freely usable by the filesystem driver.
    pub data: D,
}

/// What an open file is created from.
#[derive(Debug)]
pub struct FileCreateInfo<D> {
    pub inode: Option<Inode>,
    pub operation: Operation,
    pub open_flags: OpenFlags,
    pub data: D,
}

/// The state of an open file that changes over time.
#[derive(Clone, Copy, PartialEq, Eq, Structural, Debug)]
pub struct OpenFileState {
    /// The current offset in the file.
    pub offset: Offset,
}

impl<D> File<D> {
    /// Creates an open file, at offset 0.
    pub fn new(info: FileCreateInfo<D>) -> (r: Self)
        ensures
            r.inode == info.inode,
            r.operation == info.operation,
            r.open_flags == info.open_flags,
            r.state.offset == Offset(0),
            r.data == info.data,
    {
        File {
            inode: info.inode,
            operation: info.operation,
            open_flags: info.open_flags,
            state: OpenFileState { offset: Offset(0) },
            data: info.data,
        }
    }

    /// Returns the directory operations if the file is a directory.
    pub fn as_directory(&self) -> (r: Option<DirectoryOperation>)
        ensures
            r is Some <==> self.operation is Directory,
    {
        match self.operation {
            Operation::Directory(d) => Some(d),
            Operation::File(_) => None,
        }
    }

    /// Returns the file operations if the file is a regular file.
    pub fn as_file(&self) -> (r: Option<FileOperation>)
        ensures
            r is Some <==> self.operation is File,
    {
        match self.operation {
            Operation::File(f) => Some(f),
            Operation::Directory(_) => None,
        }
    }
}

/// The operations of an open file, which depend on the kind of its inode.
#[derive(Clone, Copy, PartialEq, Eq, Structural, Debug)]
pub enum Operation {
    /// The operations of an open directory.
    Directory(DirectoryOperation),
    /// The operations of an open regular file.
    File(FileOperation),
}

/// The operations of an open directory, which a driver implements through
/// [`DirectoryOps`].
#[derive(Clone, Copy, PartialEq, Eq, Structural, Debug)]
pub struct DirectoryOperation;

/// The operations of an open regular file, which a driver implements
/// through [`FileOps`].
#[derive(Clone, Copy, PartialEq, Eq, Structural, Debug)]
pub struct FileOperation;

/// The operations that a driver provides on an open directory.
pub trait DirectoryOps<D> {
    /// Whether `r` is an outcome that the driver gives for reading the entry
    /// at `offset` of the directory `file`. A driver that says nothing more
    /// may give any outcome.
    open spec fn read_entry(&self, file: File<D>, offset: Offset, r: Result<DirectoryEntry, ReaddirError>) -> bool {
        true
    }

    /// Reads the directory entry at the given offset.
    fn readdir(&self, file: &File<D>, offset: Offset) -> (r: Result<DirectoryEntry, ReaddirError>)
        ensures
            self.read_entry(*file, offset, r),
    ;
}

/// The operations that a driver provides on an open regular file.
pub trait FileOps<D> {
    /// Whether `r` is an outcome that the driver gives for writing `buf` to
    /// `file` at `offset`. A driver that says nothing more may give any
    /// outcome.
    open spec fn wrote(&self, file: File<D>, buf: Seq<u8>, offset: Offset, r: Result<usize, WriteError>) -> bool {
        true
    }

    /// Whether `r`, with the buffer `before` turned into `after`, is an
    /// outcome that the driver gives for reading from `file` at `offset`. A
    /// driver that says nothing more may give any outcome.
    open spec fn read_into(
        &self,
        file: File<D>,
        before: Seq<u8>,
        after: Seq<u8>,
        offset: Offset,
        r: Result<usize, ReadError>,
    ) -> bool {
        true
    }

    /// Whether `r` is an outcome that the driver gives for moving the offset
    /// of `file` by `offset` from `whence`. A driver that says nothing more
    /// may give any outcome.
    open spec fn sought(&self, file: File<D>, offset: isize, whence: Whence, r: Result<Offset, SeekError>) -> bool {
        true
    }

    /// Writes the buffer to the file at the given offset and returns the
    /// number of bytes written.
    fn write(&self, file: &File<D>, buf: &[u8], offset: Offset) -> (r: Result<usize, WriteError>)
        ensures
            self.wrote(*file, buf@, offset, r),
    ;

    /// Reads from the file at the given offset into the buffer and returns
    /// the number of bytes read.
    fn read(&self, file: &File<D>, buf: &mut Vec<u8>, offset: Offset) -> (r: Result<usize, ReadError>)
        ensures
            self.read_into(*file, old(buf)@, final(buf)@, offset, r),
    ;

    /// Moves the offset of the file and returns the new offset.
    fn seek(&self, file: &File<D>, offset: isize, whence: Whence) -> (r: Result<Offset, SeekError>)
        ensures
            self.sought(*file, offset, whence, r),
    ;
}

impl DirectoryOperation {
    /// Reads the directory entry at the given offset, through the driver.
    pub fn readdir<D, T: DirectoryOps<D>>(&self, ops: &T, file: &File<D>, offset: Offset) -> (r: Result<
        DirectoryEntry,
        ReaddirError,
    >)
        ensures
            ops.read_entry(*file, offset, r),
    {
        ops.readdir(file, offset)
    }
}

impl FileOperation {
    /// Writes the buffer to the file at the given offset, through the driver.
    pub fn write<D, T: FileOps<D>>(&self, ops: &T, file: &File<D>, buf: &[u8], offset: Offset) -> (r: Result<
        usize,
        WriteError,
    >)
        ensures
            ops.wrote(*file, buf@, offset, r),
    {
        ops.write(file, buf, offset)
    }

    /// Reads from the file at the given offset into the buffer, through the
    /// driver.
    pub fn read<D, T: FileOps<D>>(
        &self,
        ops: &T,
        file: &File<D>,
        buf: &mut Vec<u8>,
        offset: Offset,
    ) -> (r: Result<usize, ReadError>)
        ensures
            ops.read_into(*file, old(buf)@, final(buf)@, offset, r),
    {
        ops.read(file, buf, offset)
    }

    /// Moves the offset of the file, through the driver.
    pub fn seek<D, T: FileOps<D>>(&self, ops: &T, file: &File<D>, offset: isize, whence: Whence) -> (r: Result<
        Offset,
        SeekError,
    >)
        ensures
            ops.sought(*file, offset, whence, r),
    {
        ops.seek(file, offset, whence)
    }
}

/// The flags of an open call.
#[derive(Clone, Copy, PartialEq, Eq, Structural, Debug, Hash)]
pub struct OpenFlags {
    bits: usize,
}

impl OpenFlags {
    /// The raw bits of the flags.
    pub closed spec fn spec_bits(self) -> usize {
        self.bits
    }

    /// No flag.
    pub fn empty() -> (r: Self)
        ensures
            r.spec_bits() == 0,
    {
        OpenFlags { bits: 0 }
    }

    /// The file is opened for reading.
    pub fn read() -> (r: Self)
        ensures
            r.spec_bits() == 1,
    {
        OpenFlags { bits: 1 }
    }

    /// The file is opened for writing.
    pub fn write() -> (r: Self)
        ensures
            r.spec_bits() == 2,
    {
        OpenFlags { bits: 2 }
    }

    /// The file is created if it does not exist, and simply opened if it
    /// does.
    pub fn create() -> (r: Self)
        ensures
            r.spec_bits() == 4,
    {
        OpenFlags { bits: 4 }
    }

    /// The file is truncated to length 0 if it exists.
    pub fn truncate() -> (r: Self)
        ensures
            r.spec_bits() == 8,
    {
        OpenFlags { bits: 8 }
    }

    /// The file must be created by the open call: the call fails if it
    /// exists.
    pub fn must_create() -> (r: Self)
        ensures
            r.spec_bits() == 16,
    {
        OpenFlags { bits: 16 }
    }

    /// The flags whose bits are the known bits of `bits`; other bits are
    /// dropped.
    pub fn from_bits_truncate(bits: usize) -> (r: Self)
        ensures
            r.spec_bits() == bits & 31,
    {
        OpenFlags { bits: bits & 31 }
    }

    /// The raw bits of the flags.
    pub fn bits(&self) -> (r: usize)
        ensures
            r == self.spec_bits(),
    {
        self.bits
    }

    /// The union of two sets of flags.
    pub fn union(self, other: Self) -> (r: Self)
        ensures
            r.spec_bits() == self.spec_bits() | other.spec_bits(),
    {
        OpenFlags { bits: self.bits | other.bits }
    }

    /// Returns `true` if all the flags of `other` are set in `self`.
    pub fn contains(&self, other: Self) -> (r: bool)
        ensures
            r == (self.spec_bits() & other.spec_bits() == other.spec_bits()),
    {
        self.bits & other.bits == other.bits
    }

    /// Returns `true` if some flag of `other` is set in `self`.
    pub fn intersects(&self, other: Self) -> (r: bool)
        ensures
            r == (self.spec_bits() & other.spec_bits() != 0),
    {
        self.bits & other.bits != 0
    }
}

/// An offset in a file.
#[derive(Clone, Copy, PartialEq, Eq, Structural, Debug, Hash)]
pub struct Offset(pub usize);

/// The size of a file.
#[derive(Clone, Copy, PartialEq, Eq, Structural, Debug, Hash)]
pub struct Size(pub usize);

/// Where a seek counts from.
#[derive(Clone, Copy, PartialEq, Eq, Structural, Debug, Hash)]
pub enum Whence {
    /// From the current offset.
    Current,
    /// From the beginning of the file.
    Start,
    /// From the end of the file.
    End,
}

/// The whence that a raw value encodes: 0, 1 and 2 encode `Current`,
/// `Start` and `End`.
pub open spec fn spec_whence(value: usize) -> Result<Whence, ()> {
    if value == 0 {
        Ok(Whence::Current)
    } else if value == 1 {
        Ok(Whence::Start)
    } else if value == 2 {
        Ok(Whence::End)
    } else {
        Err(())
    }
}

/// The values a seek call takes for its whence: 0 counts from the current
/// offset, 1 from the beginning and 2 from the end of the file; any other
/// value is refused.
pub proof fn law_whence_values(value: usize)
    ensures
        (spec_whence(value) == Ok::<Whence, ()>(Whence::Current)) <==> value == 0,
        (spec_whence(value) == Ok::<Whence, ()>(Whence::Start)) <==> value == 1,
        (spec_whence(value) == Ok::<Whence, ()>(Whence::End)) <==> value == 2,
        spec_whence(value) is Err <==> value > 2,
{
}

impl TryFrom<usize> for Whence {
    type Error = ();

    fn try_from(value: usize) -> (r: Result<Self, Self::Error>) {
        match value {
            0 => Ok(Whence::Current),
            1 => Ok(Whence::Start),
            2 => Ok(Whence::End),
            _ => Err(()),
        }
    }
}

impl vstd::std_specs::convert::TryFromSpecImpl<usize> for Whence {
    open spec fn obeys_try_from_spec() -> bool {
        true
    }

    open spec fn try_from_spec(value: usize) -> Result<Self, Self::Error> {
        spec_whence(value)
    }
}

/// Why a directory entry could not be read.
#[derive(Clone, Copy, PartialEq, Eq, Structural, Debug, Hash)]
pub enum ReaddirError {
    /// There is no more entry to read.
    EndOfDirectory,
}

/// Why a file could not be read.
#[derive(Clone, Copy, PartialEq, Eq, Structural, Debug, Hash)]
pub enum ReadError {
    /// The file cannot be read.
    NotImplemented,
    /// The pipe is empty and has no writer left: nothing will ever be
    /// written to it again.
    BrokenPipe,
}

/// Why a file could not be written.
#[derive(Clone, Copy, PartialEq, Eq, Structural, Debug, Hash)]
pub enum WriteError {
    /// The file cannot be written.
    NotImplemented,
    /// The pipe is full and has no reader left: nothing will ever be read
    /// from it again.
    BrokenPipe,
}

/// Why a seek failed.
#[derive(Clone, Copy, PartialEq, Eq, Structural, Debug, Hash)]
pub enum SeekError {
    /// The new offset overflows.
    Overflow,
    /// The file cannot be seeked, such as a pipe or a character device.
    NotSeekable,
}

/// The whence that a user program encodes for a seek is the one the kernel
/// decodes.
pub proof fn law_whence_encoding(w: crate::user::syscall::vfs::Whence)
    ensures
        spec_whence(match w {
            crate::user::syscall::vfs::Whence::Current(_) => 0usize,
            crate::user::syscall::vfs::Whence::Start(_) => 1usize,
            crate::user::syscall::vfs::Whence::End(_) => 2usize,
        }) == Ok::<Whence, ()>(match w {
            crate::user::syscall::vfs::Whence::Current(_) => Whence::Current,
            crate::user::syscall::vfs::Whence::Start(_) => Whence::Start,
            crate::user::syscall::vfs::Whence::End(_) => Whence::End,
        }),
{
}

} // verus!
