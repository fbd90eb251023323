//! The dentry cache: the part of the filesystem tree that is loaded in
//! memory. Dentries live in a cache and are designated by their index in it.
use vstd::prelude::*;
use super::file::{File, FileCreateInfo, Offset, OpenFlags};
use super::inode::{DirectoryDriver, Inode, Kind};
use super::mount::{self, ReadInodeError, Super};
use super::inode;
use super::name::Name;

verus! {

/// The part of a dentry that changes as the tree changes: its name, its
/// parent and its children.
pub struct DentryTree {
    name: Name,
    parent: Option<usize>,
    children: Vec<usize>,
}

/// A directory entry: a node of the filesystem tree, with the inode it
/// names.
pub struct Dentry {
    inode: Inode,
    tree: DentryTree,
}

/// The dentries loaded in memory. The dentry at index `root` is the root of
/// the tree; it is its own parent.
pub struct DentryCache {
    dentries: Vec<Dentry>,
    root: usize,
}

impl DentryTree {
    /// The name of the dentry.
    pub closed spec fn spec_name(self) -> Seq<char> {
        self.name@
    }

    /// The parent of the dentry.
    pub closed spec fn spec_parent(self) -> Option<usize> {
        self.parent
    }

    /// The children of the dentry.
    pub closed spec fn spec_children(self) -> Seq<usize> {
        self.children@
    }
}

impl Dentry {
    /// The name of this dentry.
    pub closed spec fn spec_name(self) -> Seq<char> {
        self.tree.name@
    }

    /// The inode of this dentry.
    pub closed spec fn spec_inode(self) -> Inode {
        self.inode
    }

    /// A dentry that is connected to no parent and has no children.
    pub closed spec fn is_detached(self) -> bool {
        self.tree.parent is None && self.tree.children@.len() == 0
    }

    /// Creates a dentry with the given name and inode, connected to no
    /// parent; it must be connected before it is used.
    pub fn new(name: Name, inode: Inode) -> (r: Self)
        ensures
            r.spec_name() == name@,
            r.spec_inode() == inode,
            r.is_detached(),
    {
        Dentry { inode, tree: DentryTree { name, parent: None, children: Vec::new() } }
    }

    /// Creates a cache whose root is a dentry with the given name and inode,
    /// which is its own parent.
    pub fn root(name: Name, inode: Inode) -> (r: DentryCache)
        ensures
            r.wf(),
            r.len() == 1,
            r.spec_root() == 0,
            r.spec_name(0) == name@,
            r.spec_inode(0) == inode,
            r.spec_parent(0) == Some(0usize),
            r.spec_children(0) == Seq::<usize>::empty(),
    {
        let mut dentries: Vec<Dentry> = Vec::new();
        dentries.push(Dentry {
            inode,
            tree: DentryTree { name, parent: Some(0), children: Vec::new() },
        });
        DentryCache { dentries, root: 0 }
    }
}

/// The outcome of looking up the child named `n` of the dentry `d`.
pub open spec fn spec_lookup(c: DentryCache, d: usize, n: Seq<char>) -> Result<usize, LookupError> {
    if c.spec_inode(d).kind != Kind::Directory {
        Err(LookupError::NotADirectory)
    } else if exists|k: int| 0 <= k < c.spec_children(d).len() && c.spec_name(c.spec_children(d)[k]) == n {
        Ok(c.spec_children(d)[choose|k: int| 0 <= k < c.spec_children(d).len() && c.spec_name(c.spec_children(d)[k]) == n])
    } else {
        Err(LookupError::NotFound)
    }
}

impl DentryCache {
    /// The number of dentries of the cache.
    pub closed spec fn len(self) -> nat {
        self.dentries@.len()
    }

    /// The index of the root dentry.
    pub closed spec fn spec_root(self) -> usize {
        self.root
    }

    /// The name of the dentry `d`.
    pub closed spec fn spec_name(self, d: usize) -> Seq<char> {
        self.dentries@[d as int].tree.name@
    }

    /// The inode of the dentry `d`.
    pub closed spec fn spec_inode(self, d: usize) -> Inode {
        self.dentries@[d as int].inode
    }

    /// The parent of the dentry `d`, if it is connected.
    pub closed spec fn spec_parent(self, d: usize) -> Option<usize> {
        self.dentries@[d as int].tree.parent
    }

    /// The children of the dentry `d`.
    pub closed spec fn spec_children(self, d: usize) -> Seq<usize> {
        self.dentries@[d as int].tree.children@
    }

    /// Whether `d` designates a dentry of the cache.
    pub open spec fn valid(self, d: usize) -> bool {
        d < self.len()
    }

    /// The parent and children links agree; the children of a dentry have
    /// distinct names; only directories have children; the root is its own
    /// parent.
    pub closed spec fn wf(self) -> bool {
        let n = self.dentries@.len();
        &&& self.root < n
        &&& self.spec_parent(self.root) == Some(self.root)
        &&& forall|d: usize| #![trigger self.spec_parent(d)]
            d < n && self.spec_parent(d) is Some ==> self.spec_parent(d)->0 < n
        &&& forall|d: usize, k: int|
            #![trigger self.spec_children(d)[k]]
            d < n && 0 <= k < self.spec_children(d).len() ==> {
                &&& self.spec_children(d)[k] < n
                &&& self.spec_children(d)[k] != d
                &&& self.spec_parent(self.spec_children(d)[k]) == Some(d)
            }
        &&& forall|d: usize| #![trigger self.spec_parent(d)]
            d < n && self.spec_parent(d) is Some && self.spec_parent(d)->0 != d
                ==> self.spec_children(self.spec_parent(d)->0).contains(d)
        &&& forall|d: usize, k1: int, k2: int|
            #![trigger self.spec_children(d)[k1], self.spec_children(d)[k2]]
            d < n && 0 <= k1 < k2 < self.spec_children(d).len() ==> self.spec_name(
                self.spec_children(d)[k1],
            ) != self.spec_name(self.spec_children(d)[k2])
        &&& forall|d: usize| #![trigger self.spec_children(d)]
            d < n && self.spec_children(d).len() > 0 ==> self.spec_inode(d).kind == Kind::Directory
    }

    /// Adds a detached dentry to the cache and returns its index.
    pub fn insert(&mut self, dentry: Dentry) -> (r: usize)
        requires
            old(self).wf(),
            dentry.is_detached(),
        ensures
            final(self).wf(),
            r == old(self).len(),
            final(self).len() == old(self).len() + 1,
            final(self).spec_root() == old(self).spec_root(),
            final(self).spec_name(r) == dentry.spec_name(),
            final(self).spec_inode(r) == dentry.spec_inode(),
            final(self).spec_parent(r) is None,
            final(self).spec_children(r) == Seq::<usize>::empty(),
            forall|d: usize| #![trigger final(self).spec_parent(d)] d < old(self).len() ==> {
                &&& final(self).spec_name(d) == old(self).spec_name(d)
                &&& final(self).spec_inode(d) == old(self).spec_inode(d)
                &&& final(self).spec_parent(d) == old(self).spec_parent(d)
                &&& final(self).spec_children(d) == old(self).spec_children(d)
            },
    {
        let r = self.dentries.len();
        let ghost old_self = *self;
        proof {
            assert(dentry.tree.children@ =~= Seq::<usize>::empty());
        }
        self.dentries.push(dentry);
        proof {
            assert forall|d: usize| d < old_self.len() implies #[trigger] self.spec_parent(d)
                == old_self.spec_parent(d) && self.spec_children(d) == old_self.spec_children(d)
                && self.spec_name(d) == old_self.spec_name(d) && self.spec_inode(d)
                == old_self.spec_inode(d) by {
                assert(self.dentries@[d as int] == old_self.dentries@[d as int]);
            }
            assert forall|d: usize|
                d < self.len() && self.spec_parent(d) is Some && self.spec_parent(d)->0 != d
                    implies self.spec_children(#[trigger] self.spec_parent(d)->0).contains(d) by {
                assert(d < old_self.len());
                assert(old_self.spec_children(old_self.spec_parent(d)->0).contains(d));
            }
            assert forall|d: usize, k: int|
                d < self.len() && 0 <= k < self.spec_children(d).len() implies {
                    &&& #[trigger] self.spec_children(d)[k] < self.len()
                    &&& self.spec_children(d)[k] != d
                    &&& self.spec_parent(self.spec_children(d)[k]) == Some(d)
                } by {
                assert(d < old_self.len());
                assert(self.spec_children(d) == old_self.spec_children(d));
                let c = old_self.spec_children(d)[k];
                assert(c < old_self.len());
                assert(self.spec_parent(c) == old_self.spec_parent(c));
            }
            assert forall|d: usize|
                d < self.len() && (#[trigger] self.spec_children(d)).len() > 0 implies self.spec_inode(
                    d,
                ).kind == Kind::Directory by {
                assert(d < old_self.len());
                assert(self.spec_children(d) == old_self.spec_children(d));
                assert(self.spec_parent(d) == old_self.spec_parent(d));
            }
        }
        r
    }

    /// The child named `name` of the dentry `d`, found by a walk of its
    /// children: its position among them and its index.
    fn find_child(&self, d: usize, name: &Name) -> (r: Option<(usize, usize)>)
        requires
            self.wf(),
            self.valid(d),
        ensures
            match r {
                Some((k, c)) => k < self.spec_children(d).len() && self.spec_children(d)[k as int]
                    == c && self.spec_name(c) == name@,
                None => !exists|k: int|
                    0 <= k < self.spec_children(d).len() && self.spec_name(
                        #[trigger] self.spec_children(d)[k],
                    ) == name@,
            },
    {
        let children = &self.dentries[d].tree.children;
        let mut k: usize = 0;
        while k < children.len()
            invariant
                children@ == self.spec_children(d),
                self.wf(),
                d < self.len(),
                k <= children.len(),
                forall|j: int|
                    0 <= j < k ==> self.spec_name(#[trigger] self.spec_children(d)[j]) != name@,
            decreases children.len() - k,
        {
            let c = children[k];
            assert(c == self.spec_children(d)[k as int]);
            assert(c < self.len());
            if self.dentries[c].tree.name.same_as(name) {
                return Some((k, c));
            }
            k = k + 1;
        }
        None
    }

    /// The children of a dentry are dentries of the cache.
    pub proof fn lemma_child_bound(self, d: usize, k: int)
        requires
            self.wf(),
            d < self.len(),
            0 <= k < self.spec_children(d).len(),
        ensures
            self.spec_children(d)[k] < self.len(),
            self.spec_parent(self.spec_children(d)[k]) == Some(d),
    {
    }

    /// The root is a dentry of the cache and is its own parent.
    pub proof fn lemma_root_parent(self)
        requires
            self.wf(),
        ensures
            self.valid(self.spec_root()),
            self.spec_parent(self.spec_root()) == Some(self.spec_root()),
    {
    }

    /// The parent of a dentry of the cache is a dentry of the cache.
    pub proof fn lemma_parent_bound(self, d: usize)
        requires
            self.wf(),
            d < self.len(),
        ensures
            self.spec_parent(d) is Some ==> self.spec_parent(d)->0 < self.len(),
    {
    }

    /// A child found by name is a dentry of the cache whose parent is the
    /// dentry it was found in.
    pub proof fn lemma_child_parent(self, d: usize, c: usize, n: Seq<char>)
        requires
            self.wf(),
            d < self.len(),
            spec_lookup(self, d, n) == Ok::<usize, LookupError>(c),
        ensures
            c < self.len(),
            self.spec_parent(c) == Some(d),
            self.spec_name(c) == n,
    {
        let k = choose|k: int| 0 <= k < self.spec_children(d).len() && self.spec_name(self.spec_children(d)[k]) == n;
        self.lemma_child_bound(d, k);
    }

    /// Two children of a dentry with the same name are the same child.
    pub proof fn lemma_names_unique(self, d: usize, k1: int, k2: int)
        requires
            self.wf(),
            d < self.len(),
            0 <= k1 < self.spec_children(d).len(),
            0 <= k2 < self.spec_children(d).len(),
            self.spec_name(self.spec_children(d)[k1]) == self.spec_name(self.spec_children(d)[k2]),
        ensures
            k1 == k2,
    {
        if k1 < k2 {
            assert(self.spec_name(self.spec_children(d)[k1]) != self.spec_name(self.spec_children(d)[k2]));
        } else if k2 < k1 {
            assert(self.spec_name(self.spec_children(d)[k2]) != self.spec_name(self.spec_children(d)[k1]));
        }
    }

    /// Finds a child of the dentry `d` by name, in the cache only. A miss
    /// does not mean that the filesystem has no such entry: see
    /// [`DentryCache::fetch`].
    pub fn lookup(&self, d: usize, name: &Name) -> (r: Result<usize, LookupError>)
        requires
            self.wf(),
            self.valid(d),
        ensures
            r == spec_lookup(*self, d, name@),
    {
        if !self.dentries[d].inode.kind.is_directory() {
            return Err(LookupError::NotADirectory);
        }
        match self.find_child(d, name) {
            Some((k, c)) => {
                proof {
                    let k2 = choose|j: int|
                        0 <= j < self.spec_children(d).len() && self.spec_name(
                            self.spec_children(d)[j],
                        ) == name@;
                    self.lemma_names_unique(d, k as int, k2);
                }
                Ok(c)
            },
            None => Err(LookupError::NotFound),
        }
    }

    /// Connects the detached dentry `child` to the dentry `d`: `child`
    /// becomes the last child of `d`. Nothing changes on an error.
    pub fn connect_child(&mut self, d: usize, child: usize) -> (r: Result<(), ConnectError>)
        requires
            old(self).wf(),
            old(self).valid(d),
            old(self).valid(child),
            d != child,
        ensures
            final(self).wf(),
            r == spec_connect(*old(self), d, child),
            r is Ok ==> connected(*old(self), *final(self), d, child),
            r is Err ==> *final(self) == *old(self),
    {
        if !self.dentries[d].inode.kind.is_directory() {
            return Err(ConnectError::NotADirectory);
        }
        if self.dentries[child].tree.parent.is_some() {
            return Err(ConnectError::AlreadyConnected);
        }
        match self.lookup(d, &self.dentries[child].tree.name) {
            Ok(_) => {
                return Err(ConnectError::AlreadyExists);
            },
            Err(_) => {},
        }
        let ghost old_self = *self;
        self.dentries[child].tree.parent = Some(d);
        self.dentries[d].tree.children.push(child);
        proof {
            self.lemma_connect_wf(old_self, d, child);
        }
        Ok(())
    }

    /// Disconnects the child named `name` of the dentry `d` and returns it.
    /// A child that still has children is not disconnected. Nothing changes
    /// on an error.
    pub fn disconnect_child(&mut self, d: usize, name: &Name) -> (r: Result<usize, DisconnectError>)
        requires
            old(self).wf(),
            old(self).valid(d),
        ensures
            final(self).wf(),
            match r {
                Ok(c) => old(self).spec_children(d).contains(c) && old(self).spec_name(c) == name@
                    && old(self).spec_children(c).len() == 0 && disconnected(*old(self), *final(self), d, c),
                Err(DisconnectError::NotFound) => !exists|k: int|
                    0 <= k < old(self).spec_children(d).len() && old(self).spec_name(
                        #[trigger] old(self).spec_children(d)[k],
                    ) == name@,
                Err(DisconnectError::Busy) => exists|c: usize|
                    old(self).spec_children(d).contains(c) && old(self).spec_name(c) == name@
                        && old(self).spec_children(c).len() > 0,
            },
            r is Err ==> *final(self) == *old(self),
    {
        let (k, c) = match self.find_child(d, name) {
            Some(found) => found,
            None => {
                return Err(DisconnectError::NotFound);
            },
        };
        assert(old(self).spec_children(d)[k as int] == c);
        if self.dentries[c].tree.children.len() > 0 {
            assert(old(self).spec_children(d).contains(c));
            return Err(DisconnectError::Busy);
        }
        let ghost old_self = *self;
        self.dentries[c].tree.parent = None;
        let removed = self.dentries[d].tree.children.swap_remove(k);
        proof {
            self.lemma_disconnect_wf(old_self, d, k as int, c);
        }
        Ok(removed)
    }

    /// Disconnecting a child without children keeps the cache well formed.
    proof fn lemma_disconnect_wf(self, old_self: DentryCache, d: usize, k: int, c: usize)
        requires
            old_self.wf(),
            d < old_self.len(),
            0 <= k < old_self.spec_children(d).len(),
            old_self.spec_children(d)[k] == c,
            old_self.spec_children(c).len() == 0,
            self.dentries@.len() == old_self.dentries@.len(),
            self.root == old_self.root,
            forall|x: int| 0 <= x < self.dentries@.len() && x != d && x != c ==> self.dentries@[x] == old_self.dentries@[x],
            self.dentries@[d as int].inode == old_self.dentries@[d as int].inode,
            self.dentries@[d as int].tree.name@ == old_self.dentries@[d as int].tree.name@,
            self.dentries@[d as int].tree.parent == old_self.dentries@[d as int].tree.parent,
            self.dentries@[d as int].tree.children@ == old_self.dentries@[d as int].tree.children@.update(k, old_self.dentries@[d as int].tree.children@.last()).drop_last(),
            self.dentries@[c as int].inode == old_self.dentries@[c as int].inode,
            self.dentries@[c as int].tree.name@ == old_self.dentries@[c as int].tree.name@,
            self.dentries@[c as int].tree.parent is None,
            self.dentries@[c as int].tree.children@ == old_self.dentries@[c as int].tree.children@,
        ensures
            self.wf(),
            disconnected(old_self, self, d, c),
    {
        let n = self.len();
        let oc = old_self.spec_children(d);
        let nc = self.spec_children(d);
        assert(c != d);
        assert(old_self.spec_parent(c) == Some(d));
        // The children of `d` are distinct.
        assert forall|j1: int, j2: int| 0 <= j1 < oc.len() && 0 <= j2 < oc.len() && oc[j1] == oc[j2] implies j1 == j2 by {
            old_self.lemma_names_unique(d, j1, j2);
        }
        assert forall|j: int| 0 <= j < nc.len() implies #[trigger] nc[j] == (if j == k { oc[oc.len() - 1] } else { oc[j] }) by {
        }
        assert forall|x: usize| #[trigger] nc.contains(x) <==> (oc.contains(x) && x != c) by {
            if nc.contains(x) {
                let j = choose|j: int| 0 <= j < nc.len() && nc[j] == x;
                if j == k {
                    assert(oc[oc.len() - 1] == x);
                    assert(oc.len() - 1 != k);
                } else {
                    assert(oc[j] == x);
                }
            }
            if oc.contains(x) && x != c {
                let j = choose|j: int| 0 <= j < oc.len() && oc[j] == x;
                assert(j != k);
                if j == oc.len() - 1 {
                    assert(nc[k] == x);
                } else {
                    assert(nc[j] == x);
                }
            }
        }
        assert forall|x: usize| x < n implies {
            &&& #[trigger] self.spec_name(x) == old_self.spec_name(x)
            &&& self.spec_inode(x) == old_self.spec_inode(x)
            &&& x != c ==> self.spec_parent(x) == old_self.spec_parent(x)
            &&& x != d ==> self.spec_children(x) == old_self.spec_children(x)
        } by {
            if x != d && x != c {
                assert(self.dentries@[x as int] == old_self.dentries@[x as int]);
            }
        }
        assert forall|x: usize| #![trigger self.spec_parent(x)]
            x < n && self.spec_parent(x) is Some implies self.spec_parent(x)->0 < n by {
            assert(self.spec_name(x) == old_self.spec_name(x));
        }
        assert forall|x: usize, j: int|
            x < n && 0 <= j < self.spec_children(x).len() implies {
                &&& #[trigger] self.spec_children(x)[j] < n
                &&& self.spec_children(x)[j] != x
                &&& self.spec_parent(self.spec_children(x)[j]) == Some(x)
            } by {
            assert(self.spec_name(x) == old_self.spec_name(x));
            let y = self.spec_children(x)[j];
            if x == d {
                assert(nc.contains(y));
                assert(oc.contains(y) && y != c);
                let j0 = choose|j0: int| 0 <= j0 < oc.len() && oc[j0] == y;
                assert(old_self.spec_children(d)[j0] == y);
                assert(self.spec_name(y) == old_self.spec_name(y));
            } else {
                assert(self.spec_children(x) == old_self.spec_children(x));
                assert(old_self.spec_children(x)[j] == y);
                assert(old_self.spec_parent(y) == Some(x));
                assert(self.spec_name(y) == old_self.spec_name(y));
                if y == c {
                    assert(x == d);
                }
            }
        }
        assert forall|x: usize| #![trigger self.spec_parent(x)]
            x < n && self.spec_parent(x) is Some && self.spec_parent(x)->0 != x
                implies self.spec_children(self.spec_parent(x)->0).contains(x) by {
            assert(self.spec_name(x) == old_self.spec_name(x));
            assert(x != c);
            let p = old_self.spec_parent(x)->0;
            assert(old_self.spec_children(p).contains(x));
            assert(self.spec_name(p) == old_self.spec_name(p));
            if p == d {
                assert(nc.contains(x));
            } else {
                assert(p != c);
                assert(self.spec_children(p) == old_self.spec_children(p));
            }
        }
        assert forall|x: usize, k1: int, k2: int|
            x < n && 0 <= k1 < k2 < self.spec_children(x).len() implies self.spec_name(
                #[trigger] self.spec_children(x)[k1],
            ) != self.spec_name(#[trigger] self.spec_children(x)[k2]) by {
            assert(self.spec_name(x) == old_self.spec_name(x));
            let y1 = self.spec_children(x)[k1];
            let y2 = self.spec_children(x)[k2];
            if x == d {
                let j1 = if k1 == k { oc.len() - 1 } else { k1 };
                let j2 = if k2 == k { oc.len() - 1 } else { k2 };
                assert(oc[j1] == y1);
                assert(oc[j2] == y2);
                assert(j1 != j2);
                assert(self.spec_name(y1) == old_self.spec_name(y1));
                assert(self.spec_name(y2) == old_self.spec_name(y2));
                if old_self.spec_name(y1) == old_self.spec_name(y2) {
                    old_self.lemma_names_unique(d, j1, j2);
                }
            } else {
                assert(y1 == old_self.spec_children(x)[k1]);
                assert(y2 == old_self.spec_children(x)[k2]);
                assert(self.spec_name(y1) == old_self.spec_name(y1));
                assert(self.spec_name(y2) == old_self.spec_name(y2));
            }
        }
        assert forall|x: usize| #![trigger self.spec_children(x)]
            x < n && self.spec_children(x).len() > 0 implies self.spec_inode(x).kind == Kind::Directory by {
            assert(self.spec_name(x) == old_self.spec_name(x));
        }
    }

    /// Creates a dentry with the given name and inode and connects it to
    /// the dentry `d`, whose last child it becomes. Nothing changes on an
    /// error.
    pub fn create_and_connect_child(&mut self, d: usize, inode: Inode, name: Name) -> (r: Result<
        usize,
        ConnectError,
    >)
        requires
            old(self).wf(),
            old(self).valid(d),
            old(self).len() < usize::MAX,
        ensures
            final(self).wf(),
            r == (if old(self).spec_inode(d).kind != Kind::Directory {
                Err(ConnectError::NotADirectory)
            } else if spec_lookup(*old(self), d, name@) is Ok {
                Err(ConnectError::AlreadyExists)
            } else {
                Ok(old(self).len() as usize)
            }),
            r is Ok ==> added_child(*old(self), *final(self), d, r->Ok_0, name@, inode),
            r is Err ==> *final(self) == *old(self),
    {
        if !self.dentries[d].inode.kind.is_directory() {
            return Err(ConnectError::NotADirectory);
        }
        match self.lookup(d, &name) {
            Ok(_) => {
                return Err(ConnectError::AlreadyExists);
            },
            Err(_) => {},
        }
        let ghost name_view = name@;
        let ghost old_self = *self;
        let c = self.insert(Dentry::new(name, inode));
        let ghost mid = *self;
        proof {
            assert forall|k: int| 0 <= k < mid.spec_children(d).len() implies mid.spec_name(#[trigger] mid.spec_children(d)[k]) != name_view by {
                let y = old_self.spec_children(d)[k];
                assert(old_self.spec_children(d)[k] < old_self.len());
                assert(mid.spec_parent(y) == old_self.spec_parent(y));
                assert(0 <= k < old_self.spec_children(d).len() && old_self.spec_name(old_self.spec_children(d)[k]) == old_self.spec_name(y));
            }
            assert(mid.spec_parent(d) == old_self.spec_parent(d));
        }
        let res = self.connect_child(d, c);
        assert(res is Ok);
        proof {
            assert forall|x: usize| #![trigger self.spec_parent(x)] x < old_self.len() implies {
                &&& self.spec_name(x) == old_self.spec_name(x)
                &&& self.spec_inode(x) == old_self.spec_inode(x)
                &&& self.spec_parent(x) == old_self.spec_parent(x)
                &&& x != d ==> self.spec_children(x) == old_self.spec_children(x)
            } by {
                assert(mid.spec_parent(x) == old_self.spec_parent(x));
            }
        }
        Ok(c)
    }

    /// Fetches the child named `name` of the dentry `d`: from the cache if it
    /// is there, otherwise from the filesystem, through the driver; a child
    /// found there is loaded into the cache, as the last child of `d`.
    pub fn fetch<D: DirectoryDriver, O: mount::Operation>(
        &mut self,
        d: usize,
        name: &Name,
        dir_ops: &D,
        sb: &mut Super,
        sb_ops: &O,
    ) -> (r: Result<usize, FetchError>)
        requires
            old(self).wf(),
            old(self).valid(d),
            old(self).len() < usize::MAX,
            old(sb).wf(),
        ensures
            final(self).wf(),
            final(sb).wf(),
            final(sb).dirty() == old(sb).dirty(),
            r is Err || spec_lookup(*old(self), d, name@) is Ok ==> final(sb).cached() == old(
                sb,
            ).cached(),
            match spec_lookup(*old(self), d, name@) {
                Ok(c) => r == Ok::<usize, FetchError>(c) && *final(self) == *old(self),
                Err(LookupError::NotADirectory) => r == Err::<usize, FetchError>(
                    FetchError::NotADirectory,
                ) && *final(self) == *old(self),
                Err(LookupError::NotFound) => {
                    let dir = old(self).spec_inode(d);
                    match r {
                        Ok(c) => added_child(*old(self), *final(self), d, c, name@, final(self).spec_inode(c))
                            && spec_lookup(*final(self), d, name@) == Ok::<usize, LookupError>(c)
                            && exists|id: inode::Identifier|
                            #[trigger] driver_found(dir_ops, dir, name@, id) && Super::got_inode(
                                old(sb).cached(),
                                sb_ops,
                                id,
                                final(self).spec_inode(c),
                            ),
                        Err(FetchError::NotFound) => *final(self) == *old(self) && driver_missed(
                            dir_ops,
                            dir,
                            name@,
                        ),
                        Err(FetchError::CorruptedFilesystem) => *final(self) == *old(self) && exists|
                            id: inode::Identifier,
                        |
                            #[trigger] driver_found(dir_ops, dir, name@, id) && inode_unreadable(
                                old(sb).cached(),
                                sb_ops,
                                id,
                            ),
                        Err(_) => false,
                    }
                },
            },
    {
        match self.lookup(d, name) {
            Ok(c) => {
                return Ok(c);
            },
            Err(LookupError::NotADirectory) => {
                return Err(FetchError::NotADirectory);
            },
            Err(LookupError::NotFound) => {},
        }
        let dir = self.dentries[d].inode;
        let found = dir_ops.lookup(&dir, name);
        let id = match found {
            Ok(id) => id,
            Err(_) => {
                return Err(FetchError::NotFound);
            },
        };
        assert(driver_found(dir_ops, dir, name@, id));
        let got = sb.get_inode(id, sb_ops);
        let child_inode = match got {
            Ok(i) => i,
            Err(_) => {
                return Err(FetchError::CorruptedFilesystem);
            },
        };
        let ghost old_self = *self;
        let c = match self.create_and_connect_child(d, child_inode, name.clone()) {
            Ok(c) => c,
            Err(_) => {
                return Err(FetchError::NotFound);
            },
        };
        proof {
            lemma_lookup_last_child(old_self, *self, d, c);
        }
        Ok(c)
    }

    /// Creates a regular file named `name` in the directory `d`, through
    /// the driver, loads it into the cache and returns it.
    pub fn create_and_fetch_file<D: DirectoryDriver, O: mount::Operation>(
        &mut self,
        d: usize,
        name: Name,
        dir_ops: &D,
        sb: &mut Super,
        sb_ops: &O,
    ) -> (r: Result<usize, CreateFetchError>)
        requires
            old(self).wf(),
            old(self).valid(d),
            old(self).len() + 1 < usize::MAX,
            old(sb).wf(),
        ensures
            final(self).wf(),
            final(sb).wf(),
            final(sb).dirty() == old(sb).dirty(),
            spec_lookup(*old(self), d, name@) is Ok ==> r == Err::<usize, CreateFetchError>(
                CreateFetchError::AlreadyExists,
            ),
            spec_lookup(*old(self), d, name@) == Err::<usize, LookupError>(LookupError::NotADirectory)
                ==> r == Err::<usize, CreateFetchError>(CreateFetchError::NotADirectory),
            (r == Err::<usize, CreateFetchError>(CreateFetchError::NotADirectory)) == (spec_lookup(
                *old(self),
                d,
                name@,
            ) == Err::<usize, LookupError>(LookupError::NotADirectory)),
            r != Err::<usize, CreateFetchError>(CreateFetchError::IoError),
            ({
                let dir = old(self).spec_inode(d);
                match r {
                    Ok(c) => added_child(*old(self), *final(self), d, c, name@, final(self).spec_inode(c))
                        && spec_lookup(*final(self), d, name@) == Ok::<usize, LookupError>(c)
                        && spec_lookup(*old(self), d, name@) == Err::<usize, LookupError>(LookupError::NotFound)
                        && driver_missed(dir_ops, dir, name@) && exists|id: inode::Identifier|
                        #[trigger] driver_created(dir_ops, dir, name@, id) && Super::got_inode(
                            old(sb).cached(),
                            sb_ops,
                            id,
                            final(self).spec_inode(c),
                        ),
                    Err(CreateFetchError::AlreadyExists) => spec_lookup(*old(self), d, name@) is Ok
                        || (exists|id: inode::Identifier| #[trigger] driver_found(dir_ops, dir, name@, id))
                        || (driver_missed(dir_ops, dir, name@) && driver_refused_create(
                        dir_ops,
                        dir,
                        name@,
                    )),
                    Err(CreateFetchError::CorruptedFilesystem) => exists|id: inode::Identifier|
                        #![trigger driver_found(dir_ops, dir, name@, id)]
                        #![trigger driver_created(dir_ops, dir, name@, id)]
                        (driver_found(dir_ops, dir, name@, id) || (driver_missed(
                            dir_ops,
                            dir,
                            name@,
                        ) && driver_created(dir_ops, dir, name@, id))) && inode_unreadable(
                            old(sb).cached(),
                            sb_ops,
                            id,
                        ),
                    Err(_) => true,
                }
            }),
            r is Err ==> final(self).len() <= old(self).len() + 1,
    {
        match self.fetch(d, &name, dir_ops, sb, sb_ops) {
            Err(FetchError::NotFound) => {},
            Err(FetchError::NotADirectory) => {
                return Err(CreateFetchError::NotADirectory);
            },
            Err(FetchError::IoError) => {
                return Err(CreateFetchError::IoError);
            },
            Err(FetchError::CorruptedFilesystem) => {
                return Err(CreateFetchError::CorruptedFilesystem);
            },
            Ok(_) => {
                return Err(CreateFetchError::AlreadyExists);
            },
        }
        let dir = self.dentries[d].inode;
        let created = dir_ops.create(&dir, &name);
        let id = match created {
            Ok(id) => id,
            Err(_) => {
                return Err(CreateFetchError::AlreadyExists);
            },
        };
        assert(driver_created(dir_ops, dir, name@, id));
        let got = sb.get_inode(id, sb_ops);
        let child_inode = match got {
            Ok(i) => i,
            Err(_) => {
                return Err(CreateFetchError::CorruptedFilesystem);
            },
        };
        let ghost old_self = *self;
        let ghost nv = name@;
        match self.create_and_connect_child(d, child_inode, name) {
            Ok(c) => {
                proof {
                    lemma_lookup_last_child(old_self, *self, d, c);
                }
                Ok(c)
            },
            Err(_) => Err(CreateFetchError::AlreadyExists),
        }
    }

    /// Opens the inode of the dentry `d`, with the file operations of the
    /// inode, at offset 0. No check is made: that is the caller's business.
    pub fn open(&self, d: usize, flags: OpenFlags) -> (r: Result<File<()>, OpenError>)
        requires
            self.valid(d),
        ensures
            r matches Ok(f) && f.inode == Some(self.spec_inode(d)) && f.operation == self.spec_inode(
                d,
            ).file_ops && f.open_flags == flags && f.state.offset == Offset(0),
    {
        let inode = self.dentries[d].inode;
        Ok(File::new(FileCreateInfo { operation: inode.file_ops, inode: Some(inode), open_flags: flags, data: () }))
    }

    /// Returns `true` if the dentry `d` is the root: its parent is itself.
    pub fn is_root(&self, d: usize) -> (r: bool)
        requires
            self.wf(),
            self.valid(d),
            self.spec_parent(d) is Some,
        ensures
            r == (self.spec_parent(d) == Some(d)),
    {
        match self.dentries[d].tree.parent {
            Some(p) => p == d,
            None => false,
        }
    }

    /// Returns the parent of the dentry `d`, if it is connected.
    pub fn parent(&self, d: usize) -> (r: Option<usize>)
        requires
            self.valid(d),
        ensures
            r == self.spec_parent(d),
    {
        self.dentries[d].tree.parent
    }

    /// Returns the inode of the dentry `d`.
    pub fn inode(&self, d: usize) -> (r: Inode)
        requires
            self.valid(d),
        ensures
            r == self.spec_inode(d),
    {
        self.dentries[d].inode
    }

    /// Returns the name of the dentry `d`.
    pub fn name(&self, d: usize) -> (r: Name)
        requires
            self.valid(d),
        ensures
            r@ == self.spec_name(d),
    {
        self.dentries[d].tree.name.clone()
    }

    /// Returns the tree part of the dentry `d`: its name, parent and
    /// children.
    pub fn tree(&self, d: usize) -> (r: &DentryTree)
        requires
            self.valid(d),
        ensures
            r.spec_name() == self.spec_name(d),
            r.spec_parent() == self.spec_parent(d),
            r.spec_children() == self.spec_children(d),
    {
        &self.dentries[d].tree
    }

    /// Returns the index of the root dentry.
    pub fn root(&self) -> (r: usize)
        ensures
            r == self.spec_root(),
    {
        self.root
    }

    /// Records the inode of the dentry `d` as dirty in its superblock, so
    /// that it is written back on the next synchronization.
    pub fn dirtying_inode(&self, d: usize, sb: &mut Super)
        requires
            self.valid(d),
            old(sb).wf(),
        ensures
            final(sb).wf(),
            final(sb).dirty() == old(sb).dirty().insert(self.spec_inode(d).id.0),
            final(sb).cached() == old(sb).cached(),
    {
        sb.make_inode_dirty(self.dentries[d].inode);
    }

    /// Connecting a detached dentry keeps the cache well formed.
    proof fn lemma_connect_wf(self, old_self: DentryCache, d: usize, child: usize)
        requires
            old_self.wf(),
            d < old_self.len(),
            child < old_self.len(),
            d != child,
            old_self.spec_inode(d).kind == Kind::Directory,
            old_self.spec_parent(child) is None,
            spec_lookup(old_self, d, old_self.spec_name(child)) is Err,
            self.dentries@.len() == old_self.dentries@.len(),
            self.root == old_self.root,
            forall|x: int| 0 <= x < self.dentries@.len() && x != d && x != child ==> self.dentries@[x] == old_self.dentries@[x],
            self.dentries@[d as int].inode == old_self.dentries@[d as int].inode,
            self.dentries@[d as int].tree.name@ == old_self.dentries@[d as int].tree.name@,
            self.dentries@[d as int].tree.parent == old_self.dentries@[d as int].tree.parent,
            self.dentries@[d as int].tree.children@ == old_self.dentries@[d as int].tree.children@.push(child),
            self.dentries@[child as int].inode == old_self.dentries@[child as int].inode,
            self.dentries@[child as int].tree.name@ == old_self.dentries@[child as int].tree.name@,
            self.dentries@[child as int].tree.parent == Some(d),
            self.dentries@[child as int].tree.children@ == old_self.dentries@[child as int].tree.children@,
        ensures
            self.wf(),
            connected(old_self, self, d, child),
    {
        let n = self.len();
        assert forall|x: usize| x < n implies {
            &&& #[trigger] self.spec_name(x) == old_self.spec_name(x)
            &&& self.spec_inode(x) == old_self.spec_inode(x)
            &&& x != child ==> self.spec_parent(x) == old_self.spec_parent(x)
            &&& x != d ==> self.spec_children(x) == old_self.spec_children(x)
        } by {
            if x != d && x != child {
                assert(self.dentries@[x as int] == old_self.dentries@[x as int]);
            }
        }
        assert forall|x: usize| #![trigger self.spec_parent(x)]
            x < n && self.spec_parent(x) is Some implies self.spec_parent(x)->0 < n by {
            assert(self.spec_name(x) == old_self.spec_name(x));
        }
        assert forall|x: usize, k: int|
            x < n && 0 <= k < self.spec_children(x).len() implies {
                &&& #[trigger] self.spec_children(x)[k] < n
                &&& self.spec_children(x)[k] != x
                &&& self.spec_parent(self.spec_children(x)[k]) == Some(x)
            } by {
            assert(self.spec_name(x) == old_self.spec_name(x));
            if x == d && k == self.spec_children(x).len() - 1 {
                assert(self.spec_children(x)[k] == child);
            } else {
                assert(self.spec_children(x)[k] == old_self.spec_children(x)[k]);
                let c = old_self.spec_children(x)[k];
                assert(old_self.spec_parent(c) == Some(x));
                assert(c != child);
                assert(self.spec_name(c) == old_self.spec_name(c));
            }
        }
        assert forall|x: usize| #![trigger self.spec_parent(x)]
            x < n && self.spec_parent(x) is Some && self.spec_parent(x)->0 != x
                implies self.spec_children(self.spec_parent(x)->0).contains(x) by {
            assert(self.spec_name(x) == old_self.spec_name(x));
            if x == child {
                assert(self.spec_children(d)[self.spec_children(d).len() - 1] == child);
            } else {
                let p = old_self.spec_parent(x)->0;
                assert(old_self.spec_children(p).contains(x));
                let k = choose|k: int| 0 <= k < old_self.spec_children(p).len() && old_self.spec_children(p)[k] == x;
                assert(self.spec_name(p) == old_self.spec_name(p));
                if p == d {
                    assert(self.spec_children(p)[k] == x);
                } else {
                    assert(self.spec_children(p) == old_self.spec_children(p));
                }
            }
        }
        assert forall|x: usize, k1: int, k2: int|
            x < n && 0 <= k1 < k2 < self.spec_children(x).len() implies self.spec_name(
                #[trigger] self.spec_children(x)[k1],
            ) != self.spec_name(#[trigger] self.spec_children(x)[k2]) by {
            assert(self.spec_name(x) == old_self.spec_name(x));
            let c1 = self.spec_children(x)[k1];
            let c2 = self.spec_children(x)[k2];
            if x == d && k2 == self.spec_children(x).len() - 1 {
                assert(c2 == child);
                assert(c1 == old_self.spec_children(d)[k1]);
                assert(self.spec_name(c1) == old_self.spec_name(c1));
                assert(self.spec_name(c2) == old_self.spec_name(c2));
                if old_self.spec_name(c1) == old_self.spec_name(child) {
                    assert(0 <= k1 < old_self.spec_children(d).len() && old_self.spec_name(old_self.spec_children(d)[k1]) == old_self.spec_name(child));
                }
            } else {
                assert(c1 == old_self.spec_children(x)[k1]);
                assert(c2 == old_self.spec_children(x)[k2]);
                assert(self.spec_name(c1) == old_self.spec_name(c1));
                assert(self.spec_name(c2) == old_self.spec_name(c2));
            }
        }
        assert forall|x: usize| #![trigger self.spec_children(x)]
            x < n && self.spec_children(x).len() > 0 implies self.spec_inode(x).kind == Kind::Directory by {
            assert(self.spec_name(x) == old_self.spec_name(x));
        }
    }
}

/// The driver answered that the directory `dir` has no entry `name`.
pub open spec fn driver_missed<D: DirectoryDriver>(ops: &D, dir: Inode, name: Seq<char>) -> bool {
    exists|r: Result<inode::Identifier, inode::LookupError>| r is Err && #[trigger] ops.found(dir, name, r)
}

/// The driver answered that the entry `name` of the directory `dir` is the
/// inode `id`.
pub open spec fn driver_found<D: DirectoryDriver>(
    ops: &D,
    dir: Inode,
    name: Seq<char>,
    id: inode::Identifier,
) -> bool {
    ops.found(dir, name, Ok(id))
}

/// The driver created a regular file `name` in the directory `dir`, whose
/// inode is `id`.
pub open spec fn driver_created<D: DirectoryDriver>(
    ops: &D,
    dir: Inode,
    name: Seq<char>,
    id: inode::Identifier,
) -> bool {
    ops.created(dir, name, Ok(id))
}

/// The driver answered that `dir` already has an entry `name`, when asked
/// to create it.
pub open spec fn driver_refused_create<D: DirectoryDriver>(ops: &D, dir: Inode, name: Seq<char>) -> bool {
    exists|r: Result<inode::Identifier, inode::CreateError>| r is Err && #[trigger] ops.created(dir, name, r)
}

/// The superblock cached in `cached` could not give the inode `id`: it is
/// not cached and the driver failed to read it.
pub open spec fn inode_unreadable<O: mount::Operation>(
    cached: Map<u64, Inode>,
    ops: &O,
    id: inode::Identifier,
) -> bool {
    &&& !cached.contains_key(id.0)
    &&& exists|r: Result<Inode, ReadInodeError>| r is Err && #[trigger] ops.inode_read(id, r)
}

/// The outcome of connecting the dentry `child` to the dentry `d`.
pub open spec fn spec_connect(c: DentryCache, d: usize, child: usize) -> Result<(), ConnectError> {
    if c.spec_inode(d).kind != Kind::Directory {
        Err(ConnectError::NotADirectory)
    } else if c.spec_parent(child) is Some {
        Err(ConnectError::AlreadyConnected)
    } else if spec_lookup(c, d, c.spec_name(child)) is Ok {
        Err(ConnectError::AlreadyExists)
    } else {
        Ok(())
    }
}

/// The cache `after` is `before` where `child` became the last child of `d`.
pub open spec fn connected(before: DentryCache, after: DentryCache, d: usize, child: usize) -> bool {
    &&& after.len() == before.len()
    &&& after.spec_root() == before.spec_root()
    &&& after.spec_children(d) == before.spec_children(d).push(child)
    &&& after.spec_parent(child) == Some(d)
    &&& forall|x: usize|
        #![trigger after.spec_parent(x)]
        #![trigger after.spec_name(x)]
        #![trigger after.spec_inode(x)]
        #![trigger after.spec_children(x)]
        x < before.len() ==> {
        &&& after.spec_name(x) == before.spec_name(x)
        &&& after.spec_inode(x) == before.spec_inode(x)
        &&& x != child ==> after.spec_parent(x) == before.spec_parent(x)
        &&& x != d ==> after.spec_children(x) == before.spec_children(x)
    }
}

/// The cache `after` is `before` where `child`, a child of `d` without children,
/// was disconnected.
pub open spec fn disconnected(before: DentryCache, after: DentryCache, d: usize, child: usize) -> bool {
    &&& after.len() == before.len()
    &&& after.spec_root() == before.spec_root()
    &&& after.spec_children(d).len() + 1 == before.spec_children(d).len()
    &&& forall|x: usize| #[trigger] after.spec_children(d).contains(x) <==> (before.spec_children(d).contains(x) && x != child)
    &&& after.spec_parent(child) is None
    &&& forall|x: usize|
        #![trigger after.spec_parent(x)]
        #![trigger after.spec_name(x)]
        #![trigger after.spec_inode(x)]
        #![trigger after.spec_children(x)]
        x < before.len() ==> {
        &&& after.spec_name(x) == before.spec_name(x)
        &&& after.spec_inode(x) == before.spec_inode(x)
        &&& x != child ==> after.spec_parent(x) == before.spec_parent(x)
        &&& x != d ==> after.spec_children(x) == before.spec_children(x)
    }
}

/// The cache `after` is `before` with a new dentry `c`, named `name` and holding
/// `inode`, which became the last child of `d`.
pub open spec fn added_child(
    before: DentryCache,
    after: DentryCache,
    d: usize,
    c: usize,
    name: Seq<char>,
    inode: Inode,
) -> bool {
    &&& c == before.len()
    &&& after.len() == before.len() + 1
    &&& after.spec_root() == before.spec_root()
    &&& after.spec_name(c) == name
    &&& after.spec_inode(c) == inode
    &&& after.spec_parent(c) == Some(d)
    &&& after.spec_children(c) == Seq::<usize>::empty()
    &&& after.spec_children(d) == before.spec_children(d).push(c)
    &&& forall|x: usize|
        #![trigger after.spec_parent(x)]
        #![trigger after.spec_name(x)]
        #![trigger after.spec_inode(x)]
        #![trigger after.spec_children(x)]
        x < before.len() ==> {
        &&& after.spec_name(x) == before.spec_name(x)
        &&& after.spec_inode(x) == before.spec_inode(x)
        &&& after.spec_parent(x) == before.spec_parent(x)
        &&& x != d ==> after.spec_children(x) == before.spec_children(x)
    }
}

/// Once a child is connected to a directory, looking its name up there
/// finds it.
pub proof fn law_lookup_after_connect(before: DentryCache, after: DentryCache, d: usize, c: usize)
    requires
        before.wf(),
        d < before.len(),
        c < before.len(),
        spec_connect(before, d, c) is Ok,
        connected(before, after, d, c),
    ensures
        spec_lookup(after, d, after.spec_name(c)) == Ok::<usize, LookupError>(c),
{
    assert forall|k: int| 0 <= k < before.spec_children(d).len() implies #[trigger] before.spec_children(d)[k] < before.len() by {
        before.lemma_child_bound(d, k);
    }
    lemma_lookup_last_child(before, after, d, c);
}

/// The child pushed last is the only one with its name when no other child
/// had that name.
proof fn lemma_lookup_last_child(before: DentryCache, after: DentryCache, d: usize, c: usize)
    requires
        d < before.len(),
        before.spec_inode(d).kind == Kind::Directory,
        after.spec_inode(d) == before.spec_inode(d),
        spec_lookup(before, d, after.spec_name(c)) is Err,
        after.spec_children(d) == before.spec_children(d).push(c),
        forall|x: usize| #![trigger after.spec_name(x)] x < before.len() ==> after.spec_name(x) == before.spec_name(x),
        forall|k: int| 0 <= k < before.spec_children(d).len() ==> #[trigger] before.spec_children(d)[k] < before.len(),
    ensures
        spec_lookup(after, d, after.spec_name(c)) == Ok::<usize, LookupError>(c),
{
    let n = after.spec_name(c);
    let ch = after.spec_children(d);
    let last = ch.len() - 1;
    assert(ch[last] == c);
    assert(0 <= last < ch.len() && after.spec_name(ch[last]) == n);
    let k = choose|k: int| 0 <= k < ch.len() && after.spec_name(ch[k]) == n;
    if k != last {
        let y = before.spec_children(d)[k];
        assert(ch[k] == y);
        assert(y < before.len());
        assert(after.spec_name(y) == before.spec_name(y));
        assert(before.spec_name(y) == n);
        assert(0 <= k < before.spec_children(d).len() && before.spec_name(before.spec_children(d)[k]) == n);
    }
}

/// Once a child is disconnected from a dentry, looking its name up there
/// finds nothing.
pub proof fn law_lookup_after_disconnect(
    before: DentryCache,
    after: DentryCache,
    d: usize,
    c: usize,
)
    requires
        before.wf(),
        d < before.len(),
        before.spec_children(d).contains(c),
        disconnected(before, after, d, c),
    ensures
        spec_lookup(after, d, before.spec_name(c)) == Err::<usize, LookupError>(LookupError::NotFound),
{
    let n = before.spec_name(c);
    let oc = before.spec_children(d);
    let nc = after.spec_children(d);
    let kc = choose|k: int| 0 <= k < oc.len() && oc[k] == c;
    assert(oc[kc] == c);
    assert(oc.len() > 0);
    assert(before.spec_inode(d).kind == Kind::Directory);
    assert(after.spec_inode(d) == before.spec_inode(d));
    if exists|k: int| 0 <= k < nc.len() && after.spec_name(nc[k]) == n {
        let k = choose|k: int| 0 <= k < nc.len() && after.spec_name(nc[k]) == n;
        let y = nc[k];
        assert(nc.contains(y));
        assert(oc.contains(y) && y != c);
        let ky = choose|j: int| 0 <= j < oc.len() && oc[j] == y;
        assert(oc[ky] == y);
        assert(y < before.len());
        assert(after.spec_name(y) == before.spec_name(y));
        assert(before.spec_name(y) == n);
        before.lemma_names_unique(d, ky, kc);
    }
}

/// Why a dentry could not be opened.
#[derive(Clone, Copy, PartialEq, Eq, Structural, Debug, Hash)]
pub enum OpenError {
    /// The dentry cannot be opened.
    NotSupported,
}

/// Why a child could not be found in the cache.
#[derive(Clone, Copy, PartialEq, Eq, Structural, Debug, Hash)]
pub enum LookupError {
    /// The inode of the dentry is not a directory, so it has no children.
    NotADirectory,
    /// The child could not be found.
    NotFound,
}

/// Why a child could not be fetched.
#[derive(Clone, Copy, PartialEq, Eq, Structural, Debug, Hash)]
pub enum FetchError {
    /// The inode of the dentry is not a directory, so it has no children.
    NotADirectory,
    /// The child could not be found.
    NotFound,
    /// The child could not be fetched because of an I/O error.
    IoError,
    /// The filesystem names an inode that it cannot read.
    CorruptedFilesystem,
}

/// Why a file could not be created and fetched.
#[derive(Clone, Copy, PartialEq, Eq, Structural, Debug, Hash)]
pub enum CreateFetchError {
    /// The inode of the dentry is not a directory, so it has no children.
    NotADirectory,
    /// A child with the same name already exists.
    AlreadyExists,
    /// The child could not be fetched because of an I/O error.
    IoError,
    /// The filesystem names an inode that it cannot read.
    CorruptedFilesystem,
}

/// Why a child could not be connected.
#[derive(Clone, Copy, PartialEq, Eq, Structural, Debug, Hash)]
pub enum ConnectError {
    /// The child is already connected to a parent.
    AlreadyConnected,
    /// The inode of the dentry is not a directory, so it has no children.
    NotADirectory,
    /// The parent already has a child with the same name.
    AlreadyExists,
}

/// Why a child could not be disconnected.
#[derive(Clone, Copy, PartialEq, Eq, Structural, Debug, Hash)]
pub enum DisconnectError {
    /// There is no child with the given name.
    NotFound,
    /// The child still has children.
    Busy,
}

} // verus!
