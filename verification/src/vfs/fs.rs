//! Filesystem types: the registry of the known ones and the mounting of
//! the root filesystem.
use vstd::prelude::*;
use super::inode::Inode;
use super::mount::Super;

verus! {

/// A type of filesystem, with the superblocks of its mounted instances.
pub struct Filesystem {
    name: String,
    supers: Vec<Super>,
}

/// The operations that a filesystem driver provides, on devices of type
/// `Dev`.
pub trait Operation<Dev> {
    /// Whether `r` is an outcome that the driver gives for reading the
    /// superblock of a filesystem of type `fs` from `device`. A driver that
    /// says nothing more may give any outcome.
    open spec fn super_read(&self, fs: Filesystem, device: Dev, r: Result<Super, ReadSuperError>) -> bool {
        true
    }

    /// Reads the superblock of the filesystem from the device. A superblock
    /// read is well formed, as every superblock that `Super::new` makes is.
    fn read_super(&self, fs: &Filesystem, device: Dev) -> (r: Result<Super, ReadSuperError>)
        ensures
            self.super_read(*fs, device, r),
            r matches Ok(s) ==> s.wf(),
    ;
}

/// Why a superblock could not be read.
#[derive(Clone, Copy, PartialEq, Eq, Structural, Debug, Hash)]
pub enum ReadSuperError {
    /// The filesystem was found on the device, but it is corrupted.
    CorruptedFileSystem,
    /// The device does not hold a filesystem of this type.
    InvalidFileSystem,
    /// The driver does not implement the operation.
    NotImplemented,
    /// The device does not exist.
    InvalidDevice,
    /// An I/O error occurred.
    IoError,
}

impl Filesystem {
    /// The name of this filesystem type.
    pub closed spec fn spec_name(self) -> Seq<char> {
        self.name@
    }

    /// The superblocks of the mounted filesystems of this type.
    pub closed spec fn spec_supers(self) -> Seq<Super> {
        self.supers@
    }

    /// Creates a filesystem type with the given name, not mounted anywhere.
    pub fn new(name: &str) -> (r: Self)
        ensures
            r.spec_name() == name@,
            r.spec_supers() == Seq::<Super>::empty(),
    {
        Filesystem { name: name.to_owned(), supers: Vec::new() }
    }

    /// Returns the name of this filesystem type.
    pub fn name(&self) -> (r: &str)
        ensures
            r@ == self.spec_name(),
    {
        self.name.as_str()
    }

    /// Reads the superblock of this filesystem from the device, through the
    /// driver.
    pub fn read_super<Dev, T: Operation<Dev>>(&self, ops: &T, device: Dev) -> (r: Result<
        Super,
        ReadSuperError,
    >)
        ensures
            ops.super_read(*self, device, r),
            r matches Ok(s) ==> s.wf(),
    {
        ops.read_super(self, device)
    }
}

/// The registered filesystem types. Their names are distinct, and the
/// superblocks of their mounted instances are well formed.
pub struct Filesystems {
    list: Vec<Filesystem>,
}

/// The superblocks of the mounted instances of `fs` are well formed.
pub open spec fn supers_wf(fs: Filesystem) -> bool {
    forall|k: int| 0 <= k < fs.spec_supers().len() ==> (#[trigger] fs.spec_supers()[k]).wf()
}

/// Whether a filesystem type named `name` is among `list`.
pub open spec fn registered(list: Seq<Filesystem>, name: Seq<char>) -> bool {
    exists|i: int| 0 <= i < list.len() && (#[trigger] list[i]).spec_name() == name
}

/// The registry `after` is `before` where the filesystem type at position `i`
/// has one more mounted instance, whose superblock is `s`.
pub open spec fn mounted(before: Seq<Filesystem>, after: Seq<Filesystem>, i: int, s: Super) -> bool {
    &&& after.len() == before.len()
    &&& after[i].spec_name() == before[i].spec_name()
    &&& after[i].spec_supers() == before[i].spec_supers().push(s)
    &&& forall|j: int| 0 <= j < before.len() && j != i ==> #[trigger] after[j] == before[j]
}

/// The registry `after` is `before` where the superblock mounted last for
/// the filesystem type at position `i` became `s`.
pub open spec fn replaced_last(before: Seq<Filesystem>, after: Seq<Filesystem>, i: int, s: Super) -> bool {
    &&& after.len() == before.len()
    &&& after[i].spec_name() == before[i].spec_name()
    &&& after[i].spec_supers() == before[i].spec_supers().update(before[i].spec_supers().len() - 1, s)
    &&& forall|j: int| 0 <= j < before.len() && j != i ==> #[trigger] after[j] == before[j]
}

/// Why the root filesystem could not be mounted.
#[derive(Clone, Copy, PartialEq, Eq, Structural, Debug, Hash)]
pub enum MountError {
    /// The superblock could not be read.
    ReadSuper(ReadSuperError),
}

impl Filesystems {
    /// The registered filesystem types, in the order of registration.
    pub closed spec fn spec_list(self) -> Seq<Filesystem> {
        self.list@
    }

    /// No two registered filesystem types have the same name, and every
    /// mounted superblock is well formed.
    pub open spec fn wf(self) -> bool {
        &&& forall|i: int, j: int|
            0 <= i < j < self.spec_list().len() ==> (#[trigger] self.spec_list()[i]).spec_name()
                != (#[trigger] self.spec_list()[j]).spec_name()
        &&& forall|i: int| 0 <= i < self.spec_list().len() ==> supers_wf(#[trigger] self.spec_list()[i])
    }

    /// Creates an empty registry.
    pub fn new() -> (r: Self)
        ensures
            r.wf(),
            r.spec_list() == Seq::<Filesystem>::empty(),
    {
        Filesystems { list: Vec::new() }
    }

    /// The position of the filesystem type with the given name, if it is
    /// registered.
    pub fn index_of(&self, name: &str) -> (r: Option<usize>)
        ensures
            match r {
                Some(i) => i < self.spec_list().len() && self.spec_list()[i as int].spec_name() == name@,
                None => !registered(self.spec_list(), name@),
            },
    {
        let wanted = name.to_owned();
        let mut i: usize = 0;
        while i < self.list.len()
            invariant
                wanted@ == name@,
                i <= self.list@.len(),
                forall|j: int| 0 <= j < i ==> (#[trigger] self.list@[j]).spec_name() != name@,
            decreases self.list@.len() - i,
        {
            if self.list[i].name == wanted {
                return Some(i);
            }
            i = i + 1;
        }
        None
    }

    /// Returns `true` if a filesystem type with the given name is
    /// registered.
    pub fn is_registered(&self, name: &str) -> (r: bool)
        ensures
            r == registered(self.spec_list(), name@),
    {
        self.index_of(name).is_some()
    }

    /// Registers a filesystem type, whose name must not be taken.
    pub fn register(&mut self, fs: Filesystem)
        requires
            old(self).wf(),
            !registered(old(self).spec_list(), fs.spec_name()),
            supers_wf(fs),
        ensures
            final(self).wf(),
            final(self).spec_list() == old(self).spec_list().push(fs),
    {
        let ghost n = fs.spec_name();
        self.list.push(fs);
        assert forall|i: int, j: int|
            0 <= i < j < self.spec_list().len() implies (#[trigger] self.spec_list()[i]).spec_name()
                != (#[trigger] self.spec_list()[j]).spec_name() by {
            if j == self.spec_list().len() - 1 {
                assert(old(self).spec_list()[i] == self.spec_list()[i]);
            } else {
                assert(old(self).spec_list()[i] == self.spec_list()[i]);
                assert(old(self).spec_list()[j] == self.spec_list()[j]);
            }
        }
        assert forall|i: int| 0 <= i < self.spec_list().len() implies supers_wf(#[trigger] self.spec_list()[i]) by {
            if i < old(self).spec_list().len() {
                assert(old(self).spec_list()[i] == self.spec_list()[i]);
            }
        }
    }

    /// Returns, to be changed in place, the superblock mounted last for the
    /// filesystem type at position `i`, which must have one. Everything else
    /// in the registry stays as it was.
    pub fn last_super_mut(&mut self, i: usize) -> (r: &mut Super)
        requires
            old(self).wf(),
            i < old(self).spec_list().len(),
            old(self).spec_list()[i as int].spec_supers().len() > 0,
        ensures
            r.wf(),
            final(r).wf() ==> final(self).wf(),
            *r == old(self).spec_list()[i as int].spec_supers().last(),
            replaced_last(old(self).spec_list(), final(self).spec_list(), i as int, *final(r)),
    {
        let n = self.list[i].supers.len();
        let fs = &mut self.list[i];
        let last = &mut fs.supers[n - 1];
        proof {
            assert(supers_wf(old(self).spec_list()[i as int]));
        }
        last
    }

    /// Mounts the filesystem type with the given name, which must be
    /// registered, on the device: reads its superblock, through the driver,
    /// records it among the mounted instances of the type and returns the
    /// root inode of the mounted filesystem. When the driver cannot read the
    /// superblock, its error is returned and nothing changes.
    pub fn mount_root<Dev, T: Operation<Dev>>(&mut self, name: &str, device: Dev, ops: &T) -> (r: Result<
        Inode,
        MountError,
    >)
        requires
            old(self).wf(),
            registered(old(self).spec_list(), name@),
        ensures
            final(self).wf(),
            r matches Err(MountError::ReadSuper(e)) ==> final(self).spec_list() == old(self).spec_list()
                && exists|i: int|
                0 <= i < old(self).spec_list().len() && old(self).spec_list()[i].spec_name() == name@
                    && ops.super_read(old(self).spec_list()[i], device, Err(e)),
            r matches Ok(root) ==> exists|i: int, s: Super|
                0 <= i < old(self).spec_list().len() && old(self).spec_list()[i].spec_name() == name@
                    && ops.super_read(old(self).spec_list()[i], device, Ok(s)) && s.spec_root() == root
                    && mounted(old(self).spec_list(), final(self).spec_list(), i, s),
    {
        let i = self.index_of(name).unwrap();
        let sb = match self.list[i].read_super(ops, device) {
            Ok(sb) => sb,
            Err(e) => {
                return Err(MountError::ReadSuper(e));
            },
        };
        let root = sb.root();
        let ghost old_list = self.list@;
        self.list.push(Filesystem { name: String::new(), supers: Vec::new() });
        let mut fs = self.list.swap_remove(i);
        fs.supers.push(sb);
        self.list.set(i, fs);
        proof {
            assert(self.list@[i as int].spec_name() == old_list[i as int].spec_name());
            assert(mounted(old_list, self.list@, i as int, sb));
            assert forall|a: int, b: int|
                0 <= a < b < self.spec_list().len() implies (#[trigger] self.spec_list()[a]).spec_name()
                    != (#[trigger] self.spec_list()[b]).spec_name() by {
                assert(self.spec_list()[a].spec_name() == old_list[a].spec_name());
                assert(self.spec_list()[b].spec_name() == old_list[b].spec_name());
            }
            assert(supers_wf(old_list[i as int]));
            assert forall|a: int| 0 <= a < self.spec_list().len() implies supers_wf(#[trigger] self.spec_list()[a]) by {
                assert(supers_wf(old_list[a]));
                if a == i {
                    assert forall|k: int| 0 <= k < self.spec_list()[a].spec_supers().len() implies (#[trigger] self.spec_list()[a].spec_supers()[k]).wf() by {
                        if k < old_list[a].spec_supers().len() {
                            assert(self.spec_list()[a].spec_supers()[k] == old_list[a].spec_supers()[k]);
                        }
                    }
                } else {
                    assert(self.spec_list()[a] == old_list[a]);
                }
            }
        }
        Ok(root)
    }
}

} // verus!
