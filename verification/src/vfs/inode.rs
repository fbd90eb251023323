//! Inodes: the files, directories and devices of a filesystem.
use vstd::prelude::*;
use super::file;
use super::name::Name;

verus! {

/// The identifier of an inode, unique among the inodes of a filesystem.
#[derive(Clone, Copy, PartialEq, Eq, Structural, Debug, Hash)]
pub struct Identifier(pub u64);

/// The identifier of a device.
#[derive(Clone, Copy, PartialEq, Eq, Structural, Debug, Hash)]
pub struct DeviceId(pub u64);

/// The type of an inode.
#[derive(Clone, Copy, PartialEq, Eq, Structural, Debug, Hash)]
pub enum Kind {
    BlockDevice(DeviceId),
    CharDevice(DeviceId),
    Directory,
    File,
}

impl Kind {
    /// Returns `true` for a directory.
    pub fn is_directory(&self) -> (r: bool)
        ensures
            r == (*self == Kind::Directory),
    {
        match self {
            Kind::Directory => true,
            _ => false,
        }
    }
}

/// The state of an inode that changes over time. Times are in seconds since
/// the Unix epoch.
#[derive(Clone, Copy, PartialEq, Eq, Structural, Debug)]
pub struct InodeState {
    /// The last time the inode data was modified.
    pub modification_time: u64,
    /// The last time the inode was accessed.
    pub access_time: u64,
    /// The last time the inode state changed.
    pub change_time: u64,
    /// The number of hard links to the inode.
    pub links: u64,
    /// The size of the inode, in bytes.
    pub size: u64,
}

/// An inode. Inodes compare by identifier, since the identifier of an inode
/// is unique in its filesystem.
#[derive(Clone, Copy, Debug)]
pub struct Inode {
    /// The identifier of this inode.
    pub id: Identifier,
    /// The type of this inode.
    pub kind: Kind,
    /// The operations of this inode.
    pub inode_ops: Operation,
    /// The operations of this inode once opened: a device opened on a
    /// filesystem has the operations of its device, not of the filesystem.
    pub file_ops: file::Operation,
    /// The state of this inode.
    pub state: InodeState,
}

/// What an inode is created from.
#[derive(Clone, Copy, Debug)]
pub struct InodeCreationInfo {
    pub id: Identifier,
    pub kind: Kind,
    pub inode_ops: Operation,
    pub file_ops: file::Operation,
    pub state: InodeState,
}

impl Inode {
    /// Creates an inode from its creation information.
    pub fn new(info: InodeCreationInfo) -> (r: Self)
        ensures
            r.id == info.id,
            r.kind == info.kind,
            r.inode_ops == info.inode_ops,
            r.file_ops == info.file_ops,
            r.state == info.state,
    {
        Inode {
            id: info.id,
            kind: info.kind,
            inode_ops: info.inode_ops,
            file_ops: info.file_ops,
            state: info.state,
        }
    }

    /// Returns `true` if both inodes have the same identifier.
    pub fn same_inode(&self, other: &Inode) -> (r: bool)
        ensures
            r == (self.id == other.id),
    {
        self.id.0 == other.id.0
    }
}

/// The kind of operations that an inode supports.
#[derive(Clone, Copy, PartialEq, Eq, Structural, Debug)]
pub enum Operation {
    /// The operations of a directory inode.
    Directory(DirectoryOperation),
    /// The operations of a file inode.
    File(FileOperation),
}

/// The directory operations of a filesystem driver, which the driver
/// implements through [`DirectoryDriver`].
#[derive(Clone, Copy, PartialEq, Eq, Structural, Debug)]
pub struct DirectoryOperation;

/// The file operations of a filesystem driver, which the driver implements
/// through [`FileDriver`].
#[derive(Clone, Copy, PartialEq, Eq, Structural, Debug)]
pub struct FileOperation;

impl Operation {
    /// Returns the file operations if this is a file inode.
    pub fn as_file(&self) -> (r: Option<FileOperation>)
        ensures
            r is Some <==> self is File,
    {
        match self {
            Operation::Directory(_) => None,
            Operation::File(f) => Some(*f),
        }
    }

    /// Returns the directory operations if this is a directory inode.
    pub fn as_directory(&self) -> (r: Option<DirectoryOperation>)
        ensures
            r is Some <==> self is Directory,
    {
        match self {
            Operation::Directory(d) => Some(*d),
            Operation::File(_) => None,
        }
    }
}

/// The directory operations that a filesystem driver provides.
pub trait DirectoryDriver {
    /// Whether `r` is an outcome that the driver gives for looking up the
    /// name `name` in the directory `inode`. A driver that says nothing more
    /// may give any outcome.
    open spec fn found(&self, inode: Inode, name: Seq<char>, r: Result<Identifier, LookupError>) -> bool {
        true
    }

    /// Looks up the inode with the given name in the directory `inode`.
    fn lookup(&self, inode: &Inode, name: &Name) -> (r: Result<Identifier, LookupError>)
        ensures
            self.found(*inode, name@, r),
    ;

    /// Whether `r` is an outcome that the driver gives for creating a
    /// regular file named `name` in the directory `inode`. A driver that says
    /// nothing more may give any outcome.
    open spec fn created(&self, inode: Inode, name: Seq<char>, r: Result<Identifier, CreateError>) -> bool {
        true
    }

    /// Whether `r` is an outcome that the driver gives for creating a
    /// directory named `name` in the directory `inode`. A driver that says
    /// nothing more may give any outcome.
    open spec fn made_directory(&self, inode: Inode, name: Seq<char>, r: Result<(), MkdirError>) -> bool {
        true
    }

    /// Creates a regular file with the given name in the directory `inode`.
    fn create(&self, inode: &Inode, name: &Name) -> (r: Result<Identifier, CreateError>)
        ensures
            self.created(*inode, name@, r),
    ;

    /// Creates a directory with the given name in the directory `inode`.
    fn mkdir(&self, inode: &Inode, name: &Name) -> (r: Result<(), MkdirError>)
        ensures
            self.made_directory(*inode, name@, r),
    ;
}

/// The file operations that a filesystem driver provides.
pub trait FileDriver {
    /// Truncates or extends the file `inode` to the given size.
    fn truncate(&self, inode: &Inode, size: u64) -> Result<u64, TruncateError>;
}

/// Why an inode could not be truncated.
#[derive(Clone, Copy, PartialEq, Eq, Structural, Debug, Hash)]
pub enum TruncateError {
    /// The operation is not supported.
    NotSupported,
}

/// Why an inode could not be created.
#[derive(Clone, Copy, PartialEq, Eq, Structural, Debug, Hash)]
pub enum CreateError {
    /// An entry with the same name already exists.
    AlreadyExists,
}

/// Why a device inode could not be created.
#[derive(Clone, Copy, PartialEq, Eq, Structural, Debug, Hash)]
pub enum MknodError {
    /// An entry with the same name already exists.
    AlreadyExists,
}

/// Why an inode could not be found.
#[derive(Clone, Copy, PartialEq, Eq, Structural, Debug, Hash)]
pub enum LookupError {
    /// The directory has no entry with that name.
    NoSuchEntry,
}

/// Why a directory could not be removed.
#[derive(Clone, Copy, PartialEq, Eq, Structural, Debug, Hash)]
pub enum RmdirError {
    /// The directory is not empty.
    NotEmpty,
}

/// Why a directory could not be created.
#[derive(Clone, Copy, PartialEq, Eq, Structural, Debug, Hash)]
pub enum MkdirError {
    /// An entry with the same name already exists.
    AlreadyExists,
}

/// Why an inode could not be renamed.
#[derive(Clone, Copy, PartialEq, Eq, Structural, Debug, Hash)]
pub enum RenameError {
    /// The directory has no entry with that name.
    NoSuchEntry,
}

/// Why a link could not be created.
#[derive(Clone, Copy, PartialEq, Eq, Structural, Debug, Hash)]
pub enum LinkError {
    /// An entry with the same name already exists.
    AlreadyExists,
}

} // verus!
