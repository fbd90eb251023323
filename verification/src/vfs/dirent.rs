//! Directory entries, as reading a directory gives them out.
use vstd::prelude::*;
use super::inode;

verus! {

/// A directory entry.
#[derive(Clone, Debug)]
pub struct DirectoryEntry {
    /// The name of the entry.
    pub name: String,
    /// The offset of the next entry.
    pub offset: usize,
    /// The kind of this entry.
    pub kind: Kind,
    /// The inode of this entry.
    pub inode: inode::Identifier,
}

/// The kind of a directory entry.
#[derive(Clone, Copy, PartialEq, Eq, Structural, Debug, Hash)]
pub enum Kind {
    BlockDevice,
    CharDevice,
    Directory,
    File,
}

/// The kind of entry that an inode of the given kind makes.
pub open spec fn spec_entry_kind(kind: inode::Kind) -> Kind {
    match kind {
        inode::Kind::BlockDevice(_) => Kind::BlockDevice,
        inode::Kind::CharDevice(_) => Kind::CharDevice,
        inode::Kind::Directory => Kind::Directory,
        inode::Kind::File => Kind::File,
    }
}

/// An entry has the kind of its inode: a block device, a character device,
/// a directory or a regular file.
pub proof fn law_entry_kinds(kind: inode::Kind)
    ensures
        (spec_entry_kind(kind) == Kind::BlockDevice) <==> kind is BlockDevice,
        (spec_entry_kind(kind) == Kind::CharDevice) <==> kind is CharDevice,
        (spec_entry_kind(kind) == Kind::Directory) <==> kind is Directory,
        (spec_entry_kind(kind) == Kind::File) <==> kind is File,
{
}

impl From<inode::Kind> for Kind {
    fn from(kind: inode::Kind) -> (r: Self) {
        match kind {
            inode::Kind::BlockDevice(_) => Kind::BlockDevice,
            inode::Kind::CharDevice(_) => Kind::CharDevice,
            inode::Kind::Directory => Kind::Directory,
            inode::Kind::File => Kind::File,
        }
    }
}

impl vstd::std_specs::convert::FromSpecImpl<inode::Kind> for Kind {
    open spec fn obeys_from_spec() -> bool {
        true
    }

    open spec fn from_spec(kind: inode::Kind) -> Self {
        spec_entry_kind(kind)
    }
}

} // verus!
