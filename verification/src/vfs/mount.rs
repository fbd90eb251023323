//! Mounted filesystems: the superblock and its caches of inodes.
use vstd::prelude::*;
use std::collections::BTreeMap;
use vstd::std_specs::btree::spec_keys_iter;
use super::inode::{Identifier, Inode};

verus! {

broadcast use {vstd::std_specs::btree::group_btree_axioms, vstd::laws_cmp::group_laws_cmp};

/// The operations that a filesystem driver provides on its device.
pub trait Operation {
    /// Whether `r` is an outcome that the driver gives for writing the
    /// superblock `superblock` to the device. A driver that says nothing more
    /// may give any outcome.
    open spec fn super_written(&self, superblock: Super, r: Result<(), WriteSuperError>) -> bool {
        true
    }

    /// Whether `r` is an outcome that the driver gives for writing `inode`
    /// to the device. A driver that says nothing more may give any outcome.
    open spec fn inode_written(&self, inode: Inode, r: Result<(), WriteInodeError>) -> bool {
        true
    }

    /// Whether `r` is an outcome that the driver gives for reading the inode
    /// `id` from the device. A driver that says nothing more may give any
    /// outcome.
    open spec fn inode_read(&self, id: Identifier, r: Result<Inode, ReadInodeError>) -> bool {
        true
    }

    /// Writes the superblock to the device.
    fn write_super(&self, superblock: &Super) -> (r: Result<(), WriteSuperError>)
        ensures
            self.super_written(*superblock, r),
    ;

    /// Writes an inode to the device.
    fn write_inode(&self, inode: &Inode) -> (r: Result<(), WriteInodeError>)
        ensures
            self.inode_written(*inode, r),
    ;

    /// Reads the inode with the given identifier from the device.
    fn read_inode(&self, id: Identifier) -> (r: Result<Inode, ReadInodeError>)
        ensures
            self.inode_read(id, r),
    ;
}

/// Why the superblock could not be written.
#[derive(Clone, Copy, PartialEq, Eq, Structural, Debug, Hash)]
pub enum WriteSuperError {
    /// An I/O error occurred.
    IoError,
}

/// Why an inode could not be written.
#[derive(Clone, Copy, PartialEq, Eq, Structural, Debug, Hash)]
pub enum WriteInodeError {
    /// An I/O error occurred.
    IoError,
}

/// Why an inode could not be read.
#[derive(Clone, Copy, PartialEq, Eq, Structural, Debug, Hash)]
pub enum ReadInodeError {
    /// The filesystem has no inode with that identifier.
    DoesNotExist,
}

/// What a superblock is created from.
#[derive(Clone, Copy, Debug)]
pub struct SuperCreationInfo {
    /// The root inode of the filesystem.
    pub root: Inode,
}

/// The driver reported a failure for a write of `inode`.
pub open spec fn write_failed<O: Operation>(ops: &O, inode: Inode) -> bool {
    exists|r: Result<(), WriteInodeError>| r is Err && #[trigger] ops.inode_written(inode, r)
}

/// The driver reported a success for a write of `inode`.
pub open spec fn write_succeeded<O: Operation>(ops: &O, inode: Inode) -> bool {
    exists|r: Result<(), WriteInodeError>| r is Ok && #[trigger] ops.inode_written(inode, r)
}

/// The superblock of a mounted filesystem. It caches the inodes in use, so
/// that an inode is never held twice in memory, and records the inodes that
/// must be written back to the device.
pub struct Super {
    root: Inode,
    used_inodes: BTreeMap<u64, Inode>,
    dirty_inodes: BTreeMap<u64, Inode>,
}

impl Super {
    /// The root inode of this filesystem.
    pub closed spec fn spec_root(self) -> Inode {
        self.root
    }

    /// Returns the root inode of this filesystem.
    pub fn root(&self) -> (r: Inode)
        ensures
            r == self.spec_root(),
    {
        self.root
    }

    /// The cached inodes, by identifier.
    pub closed spec fn cached(self) -> Map<u64, Inode> {
        self.used_inodes@
    }

    /// The dirty inodes, by identifier.
    pub closed spec fn dirty_inodes(self) -> Map<u64, Inode> {
        self.dirty_inodes@
    }

    /// The identifiers of the dirty inodes.
    pub open spec fn dirty(self) -> Set<u64> {
        self.dirty_inodes().dom()
    }

    /// The inode that `get_inode` gives for `id` with the cache `cached`: the
    /// cached one, or one that the driver reads.
    pub open spec fn got_inode<O: Operation>(
        cached: Map<u64, Inode>,
        ops: &O,
        id: Identifier,
        inode: Inode,
    ) -> bool {
        if cached.contains_key(id.0) {
            inode == cached[id.0]
        } else {
            ops.inode_read(id, Ok(inode))
        }
    }

    /// Every inode, cached or dirty, is recorded under its own identifier,
    /// and the root inode is cached.
    pub closed spec fn wf(self) -> bool {
        &&& forall|k: u64| #[trigger] self.used_inodes@.contains_key(k) ==> self.used_inodes@[k].id.0 == k
        &&& forall|k: u64| #[trigger] self.dirty_inodes@.contains_key(k) ==> self.dirty_inodes@[k].id.0 == k
        &&& self.used_inodes@.contains_key(self.root.id.0)
        &&& self.used_inodes@[self.root.id.0] == self.root
    }

    /// Creates the superblock of a filesystem, with its root inode cached.
    pub fn new(info: SuperCreationInfo) -> (r: Self)
        ensures
            r.wf(),
            r.spec_root() == info.root,
            r.cached() == Map::<u64, Inode>::empty().insert(info.root.id.0, info.root),
            r.dirty_inodes() == Map::<u64, Inode>::empty(),
    {
        let mut used_inodes: BTreeMap<u64, Inode> = BTreeMap::new();
        used_inodes.insert(info.root.id.0, info.root);
        Super { root: info.root, used_inodes, dirty_inodes: BTreeMap::new() }
    }

    /// Returns `true` if the inode with the given identifier is cached.
    pub fn is_cached(&self, id: Identifier) -> (r: bool)
        ensures
            r == self.cached().contains_key(id.0),
    {
        self.used_inodes.contains_key(&id.0)
    }

    /// Caches an inode that is not cached yet.
    pub fn cache_inode(&mut self, inode: Inode)
        requires
            old(self).wf(),
            !old(self).cached().contains_key(inode.id.0),
        ensures
            final(self).wf(),
            final(self).cached() == old(self).cached().insert(inode.id.0, inode),
            final(self).dirty_inodes() == old(self).dirty_inodes(),
            final(self).spec_root() == old(self).spec_root(),
    {
        self.used_inodes.insert(inode.id.0, inode);
    }

    /// Returns the inode with the given identifier: the cached one if any,
    /// otherwise the one that the driver reads from the device, which is then
    /// cached. A read that fails changes nothing.
    pub fn get_inode<O: Operation>(&mut self, id: Identifier, ops: &O) -> (r: Result<
        Inode,
        ReadInodeError,
    >)
        requires
            old(self).wf(),
        ensures
            final(self).wf(),
            final(self).dirty_inodes() == old(self).dirty_inodes(),
            final(self).spec_root() == old(self).spec_root(),
            old(self).cached().contains_key(id.0) ==> r == Ok::<Inode, ReadInodeError>(
                old(self).cached()[id.0],
            ) && final(self).cached() == old(self).cached(),
            !old(self).cached().contains_key(id.0) ==> ops.inode_read(id, r),
            r matches Ok(inode) ==> Self::got_inode(old(self).cached(), ops, id, inode)
                && final(self).cached().contains_key(inode.id.0) && (final(self).cached() == old(
                self,
            ).cached().insert(inode.id.0, inode) || (old(self).cached().contains_key(inode.id.0)
                && final(self).cached() == old(self).cached())),
            r is Err ==> final(self).cached() == old(self).cached(),
            old(self).cached().contains_key(id.0) ==> (r matches Ok(inode) ==> inode.id == id),
            r matches Ok(inode) ==> (inode.id == id ==> final(self).cached().contains_key(id.0)
                && final(self).cached()[id.0] == inode),
    {
        match self.used_inodes.get(&id.0) {
            Some(inode) => {
                return Ok(*inode);
            },
            None => {},
        }
        let read = ops.read_inode(id);
        match read {
            Ok(inode) => {
                if !self.used_inodes.contains_key(&inode.id.0) {
                    self.cache_inode(inode);
                }
                Ok(inode)
            },
            Err(e) => Err(e),
        }
    }

    /// Records the inode as dirty, so that it is written back to the device
    /// on the next synchronization. An inode already dirty, under the same
    /// identifier, is recorded once.
    pub fn make_inode_dirty(&mut self, inode: Inode)
        requires
            old(self).wf(),
        ensures
            final(self).wf(),
            final(self).dirty_inodes() == (if old(self).dirty().contains(inode.id.0) {
                old(self).dirty_inodes()
            } else {
                old(self).dirty_inodes().insert(inode.id.0, inode)
            }),
            final(self).dirty() == old(self).dirty().insert(inode.id.0),
            final(self).cached() == old(self).cached(),
            final(self).spec_root() == old(self).spec_root(),
    {
        if !self.dirty_inodes.contains_key(&inode.id.0) {
            self.dirty_inodes.insert(inode.id.0, inode);
        }
        proof {
            assert(self.dirty() =~= old(self).dirty().insert(inode.id.0));
        }
    }

    /// Writes every dirty inode back to the device. The inodes whose write
    /// fails stay dirty, to be written later; the others are clean.
    pub fn sync_inodes<O: Operation>(&mut self, ops: &O)
        requires
            old(self).wf(),
        ensures
            final(self).wf(),
            final(self).dirty().subset_of(old(self).dirty()),
            forall|k: u64| #[trigger]
                final(self).dirty().contains(k) ==> final(self).dirty_inodes()[k] == old(
                    self,
                ).dirty_inodes()[k],
            final(self).cached() == old(self).cached(),
            final(self).spec_root() == old(self).spec_root(),
            forall|k: u64| #[trigger]
                final(self).dirty().contains(k) ==> write_failed(ops, old(self).dirty_inodes()[k]),
            forall|k: u64|
                old(self).dirty().contains(k) && !#[trigger] final(self).dirty().contains(k)
                    ==> write_succeeded(ops, old(self).dirty_inodes()[k]),
    {
        let mut keys: Vec<u64> = Vec::new();
        for k in it: self.dirty_inodes.keys()
            invariant
                keys@ == it.seq().take(it.index() as int).map_values(|x: &u64| *x),
        {
            keys.push(*k);
        }
        let ghost all = keys@;
        let ghost d0 = self.dirty_inodes@;
        assert(all =~= vstd::std_specs::iter::IteratorSpec::remaining(&spec_keys_iter(&self.dirty_inodes)).map_values(|x: &u64| *x));
        assert forall|k: u64| #[trigger] d0.contains_key(k) implies all.contains(k) by {
            let seq = vstd::std_specs::iter::IteratorSpec::remaining(&spec_keys_iter(&self.dirty_inodes));
            assert(seq.unref().to_set().contains(k));
            let j = choose|j: int| 0 <= j < seq.unref().len() && seq.unref()[j] == k;
            assert(all[j] == k);
        }
        let mut still_dirty: BTreeMap<u64, Inode> = BTreeMap::new();
        let mut i: usize = 0;
        while i < keys.len()
            invariant
                i <= keys.len(),
                keys@ == all,
                self.wf(),
                self.dirty_inodes@ == d0,
                d0 == old(self).dirty_inodes@,
                self.used_inodes@ == old(self).used_inodes@,
                self.root == old(self).root,
                forall|k: u64| #[trigger] d0.contains_key(k) ==> all.contains(k),
                forall|k: u64| #[trigger]
                    still_dirty@.contains_key(k) ==> d0.contains_key(k) && still_dirty@[k] == d0[k],
                forall|k: u64| #[trigger]
                    still_dirty@.contains_key(k) ==> write_failed(ops, d0[k]),
                forall|j: int|
                    0 <= j < i && d0.contains_key(#[trigger] all[j]) && !still_dirty@.contains_key(
                        all[j],
                    ) ==> write_succeeded(ops, d0[all[j]]),
            decreases keys.len() - i,
        {
            let k = keys[i];
            let ghost before = still_dirty@;
            let ghost mut failed = false;
            match self.dirty_inodes.get(&k) {
                Some(inode) => {
                    let written = ops.write_inode(inode);
                    if written.is_err() {
                        still_dirty.insert(k, *inode);
                        proof {
                            failed = true;
                        }
                    }
                    assert(failed ==> write_failed(ops, d0[k]));
                    assert(!failed ==> write_succeeded(ops, d0[k]));
                    assert(failed ==> still_dirty@ == before.insert(k, d0[k]));
                },
                None => {},
            }
            assert(all[i as int] == k);
            assert(!failed ==> still_dirty@ == before);
            assert forall|x: u64| #[trigger] still_dirty@.contains_key(x) implies d0.contains_key(x)
                && still_dirty@[x] == d0[x] && write_failed(ops, d0[x]) by {
                if !(failed && x == k) {
                    assert(before.contains_key(x));
                }
            }
            assert forall|j: int|
                0 <= j < i + 1 && d0.contains_key(#[trigger] all[j]) && !still_dirty@.contains_key(
                    all[j],
                ) implies write_succeeded(ops, d0[all[j]]) by {
                if j < i {
                    assert(!before.contains_key(all[j]));
                }
            }
            i = i + 1;
        }
        proof {
            assert forall|k: u64|
                d0.contains_key(k) && !still_dirty@.contains_key(k) implies write_succeeded(
                ops,
                d0[k],
            ) by {
                let j = choose|j: int| 0 <= j < all.len() && all[j] == k;
                assert(d0.contains_key(all[j]));
            }
        }
        self.dirty_inodes = still_dirty;
    }

    /// Writes the superblock back to the device. A failure is ignored, since
    /// nothing can be done about it.
    pub fn sync<O: Operation>(&self, ops: &O)
        ensures
            exists|r: Result<(), WriteSuperError>| #[trigger] ops.super_written(*self, r),
    {
        let _ = ops.write_super(self);
    }
}

/// The root inode of a mounted filesystem is always cached, so that
/// `is_cached` of its identifier holds.
/// Every cached inode is cached under its own identifier, so that the
/// cache holds at most one inode for each identifier.
pub proof fn law_cached_inode_keyed(sb: Super, k: u64)
    requires
        sb.wf(),
        sb.cached().contains_key(k),
    ensures
        sb.cached()[k].id.0 == k,
{
}

pub proof fn law_root_cached(sb: Super)
    requires
        sb.wf(),
    ensures
        sb.cached().contains_key(sb.spec_root().id.0),
        sb.cached()[sb.spec_root().id.0] == sb.spec_root(),
{
}

} // verus!
