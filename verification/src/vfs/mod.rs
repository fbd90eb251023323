//! The virtual filesystem: names, paths, the dentry cache and the walk of a
//! path through it.
use vstd::prelude::*;
use self::dentry::{
    added_child, driver_found, driver_missed, inode_unreadable, spec_lookup, DentryCache, FetchError,
    LookupError as CacheLookupError,
};
use self::file::{FileOps, Offset, OpenFlags};
use self::inode::{CreateError, DirectoryDriver, Kind, MkdirError};
use self::name::{lemma_utf8_len_upper, spec_validate_name, InvalidName};
use self::path::{first_invalid, scan, spec_parse_path, spec_validate_path, split_path, InvalidPath};
use self::mount::{ReadInodeError, Super};
use self::name::Name;
use self::path::Path;

pub mod dentry;
pub mod dirent;
pub mod fd;
pub mod fs;
pub mod file;
pub mod inode;
pub mod mount;
pub mod name;
pub mod path;
pub mod pipe;

verus! {

/// Flags that control a lookup.
#[derive(Clone, Copy, PartialEq, Eq, Structural, Debug, Hash)]
pub struct LookupFlags {
    bits: u32,
}

impl LookupFlags {
    /// The raw bits of the flags.
    pub closed spec fn spec_bits(self) -> u32 {
        self.bits
    }

    /// Whether the `PARENT` flag is set.
    pub open spec fn spec_parent(self) -> bool {
        self.spec_bits() & 1 != 0
    }

    /// Whether the `DIRECTORY` flag is set.
    pub open spec fn spec_directory(self) -> bool {
        self.spec_bits() & 2 != 0
    }

    /// No flag.
    pub fn empty() -> (r: Self)
        ensures
            r.spec_bits() == 0,
            !r.spec_parent(),
            !r.spec_directory(),
    {
        assert(0u32 & 1 == 0 && 0u32 & 2 == 0) by (bit_vector);
        LookupFlags { bits: 0 }
    }

    /// Resolve the parent of the last component of the path.
    pub fn parent() -> (r: Self)
        ensures
            r.spec_bits() == 1,
            r.spec_parent(),
            !r.spec_directory(),
    {
        assert(1u32 & 1 != 0 && 1u32 & 2 == 0) by (bit_vector);
        LookupFlags { bits: 1 }
    }

    /// The resolved dentry must be a directory.
    pub fn directory() -> (r: Self)
        ensures
            r.spec_bits() == 2,
            !r.spec_parent(),
            r.spec_directory(),
    {
        assert(2u32 & 1 == 0 && 2u32 & 2 != 0) by (bit_vector);
        LookupFlags { bits: 2 }
    }

    /// The union of two sets of flags.
    pub fn union(self, other: Self) -> (r: Self)
        ensures
            r.spec_bits() == self.spec_bits() | other.spec_bits(),
            r.spec_parent() == (self.spec_parent() || other.spec_parent()),
            r.spec_directory() == (self.spec_directory() || other.spec_directory()),
    {
        let a = self.bits;
        let b = other.bits;
        assert(((a | b) & 1 != 0) == (a & 1 != 0 || b & 1 != 0) && ((a | b) & 2 != 0) == (a & 2
            != 0 || b & 2 != 0)) by (bit_vector);
        LookupFlags { bits: a | b }
    }

    /// Returns `true` if all the flags of `other` are set in `self`.
    pub fn contains(&self, other: Self) -> (r: bool)
        ensures
            r == (self.spec_bits() & other.spec_bits() == other.spec_bits()),
    {
        self.bits & other.bits == other.bits
    }
}

/// Why a path could not be resolved.
#[derive(Debug)]
pub enum LookupError {
    /// The path could not be resolved entirely: the last dentry found, and
    /// the rest of the path, from the component that was not found.
    NotFound(usize, Path),
    /// A component used as a directory is not a directory.
    NotADirectory,
    /// The filesystem is corrupted.
    CorruptedFilesystem,
    /// An I/O error occurred.
    IoError,
}

impl From<ReadInodeError> for LookupError {
    fn from(e: ReadInodeError) -> (r: Self) {
        match e {
            ReadInodeError::DoesNotExist => LookupError::CorruptedFilesystem,
        }
    }
}

impl vstd::std_specs::convert::FromSpecImpl<ReadInodeError> for LookupError {
    open spec fn obeys_from_spec() -> bool {
        true
    }

    /// An inode that the filesystem names but cannot read means that the
    /// filesystem is corrupted.
    open spec fn from_spec(e: ReadInodeError) -> Self {
        LookupError::CorruptedFilesystem
    }
}

/// Why a whole file could not be read.
#[derive(Debug)]
pub enum ReadAllError {
    /// The path could not be resolved.
    LookupError(LookupError),
    /// The file could not be opened.
    OpenError,
    /// The path does not name a file.
    NotAFile,
    /// The file could not be read entirely.
    PartialRead,
    /// An I/O error occurred.
    IoError,
}

/// One step of a walk from the dentry `m` through the component `n`: `.`
/// stays, `..` goes to the parent, and a name goes to the child of that
/// name in the cache.
pub open spec fn step(c: DentryCache, m: usize, n: Seq<char>) -> Option<usize> {
    if n == seq!['.'] {
        Some(m)
    } else if n == seq!['.', '.'] {
        c.spec_parent(m)
    } else {
        match spec_lookup(c, m, n) {
            Ok(x) => Some(x),
            Err(_) => None,
        }
    }
}

/// The dentry reached from `start` through the components `comps`, in the
/// cache, if the whole walk is in it.
pub open spec fn walk(c: DentryCache, start: usize, comps: Seq<Seq<char>>) -> Option<usize>
    decreases comps.len(),
{
    if comps.len() == 0 {
        Some(start)
    } else {
        match walk(c, start, comps.drop_last()) {
            Some(m) => step(c, m, comps.last()),
            None => None,
        }
    }
}

/// The walk through `comps` from `start` gets through the first `i`
/// components and stops at the name `comps[i]`, in a dentry that is not a
/// directory.
pub open spec fn stuck_in_file(c: DentryCache, start: usize, comps: Seq<Seq<char>>, i: int) -> bool {
    &&& 0 <= i < comps.len()
    &&& comps[i] != seq!['.']
    &&& comps[i] != seq!['.', '.']
    &&& walk(c, start, comps.take(i)) is Some
    &&& c.spec_inode(walk(c, start, comps.take(i))->0).kind != Kind::Directory
}

/// The walk through `comps` from `start` gets through the first `i`
/// components and stops at the name `comps[i]`, in a directory that has no
/// child of that name in the cache.
pub open spec fn missing_in_cache(c: DentryCache, start: usize, comps: Seq<Seq<char>>, i: int) -> bool {
    &&& 0 <= i < comps.len()
    &&& comps[i] != seq!['.']
    &&& comps[i] != seq!['.', '.']
    &&& walk(c, start, comps.take(i)) is Some
    &&& spec_lookup(c, walk(c, start, comps.take(i))->0, comps[i]) == Err::<usize, CacheLookupError>(
        CacheLookupError::NotFound,
    )
}

/// The walk through `comps` from `start` ends at a dentry that is not a
/// directory.
pub open spec fn ends_outside_directory(c: DentryCache, start: usize, comps: Seq<Seq<char>>) -> bool {
    match walk(c, start, comps) {
        Some(d) => c.spec_inode(d).kind != Kind::Directory,
        None => false,
    }
}

/// Where the walk of a path starts: at the root for an absolute path, at the
/// current directory for a relative one.
pub open spec fn lookup_start(path: &Path, root: usize, cwd: usize) -> usize {
    if path.absolute {
        root
    } else {
        cwd
    }
}

/// The components that a lookup walks through: all of them, or all but the
/// last with the `PARENT` flag.
pub open spec fn lookup_components(path: &Path, flags: LookupFlags) -> Seq<Seq<char>> {
    if flags.spec_parent() {
        path.spec_components().drop_last()
    } else {
        path.spec_components()
    }
}

/// The walk through `comps` from `start` ends at a dentry whose inode opens
/// as a regular file when `file` holds, as a directory otherwise.
pub open spec fn file_ops_at(c: DentryCache, start: usize, comps: Seq<Seq<char>>, file: bool) -> bool {
    &&& walk(c, start, comps) is Some
    &&& (c.spec_inode(walk(c, start, comps)->0).file_ops is File) == file
}

/// What a lookup that failed with `e` met, on its walk from `start` through
/// `comps`, the components that it resolves among `all`, the components of
/// the path; `directory` says whether the end had to be a directory. The
/// cache `c` and the inodes `cached` of the superblock are those after the
/// lookup.
pub open spec fn lookup_failed<D: DirectoryDriver, O: mount::Operation>(
    c: DentryCache,
    cached: Map<u64, inode::Inode>,
    dir_ops: &D,
    sb_ops: &O,
    comps: Seq<Seq<char>>,
    all: Seq<Seq<char>>,
    start: usize,
    directory: bool,
    e: LookupError,
) -> bool {
    match e {
        LookupError::NotFound(p, rest) => exists|i: int|
            0 <= i < comps.len() && walk(c, start, comps.take(i)) == Some(p) && spec_lookup(c, p, comps[i])
                == Err::<usize, CacheLookupError>(CacheLookupError::NotFound) && driver_missed(
                dir_ops,
                c.spec_inode(p),
                comps[i],
            ) && rest.spec_components() == all.skip(i) && !rest.absolute,
        LookupError::NotADirectory => (exists|i: int| #[trigger] stuck_in_file(c, start, comps, i)) || (
        directory && ends_outside_directory(c, start, comps)),
        LookupError::CorruptedFilesystem => exists|i: int|
            #[trigger] missing_in_cache(c, start, comps, i) && exists|id: inode::Identifier|
                #[trigger] driver_found(
                    dir_ops,
                    c.spec_inode(walk(c, start, comps.take(i))->0),
                    comps[i],
                    id,
                ) && inode_unreadable(cached, sb_ops, id),
        LookupError::IoError => false,
    }
}

/// Every connected dentry has a connected parent: a walk up the tree never
/// meets a dentry without a parent.
pub open spec fn parents_alive(c: DentryCache) -> bool {
    forall|x: usize|
        #![trigger c.spec_parent(x)]
        c.valid(x) && c.spec_parent(x) is Some ==> c.spec_parent(c.spec_parent(x)->0) is Some
}

/// `..` at the root stays at the root: the root is its own parent.
pub proof fn law_dot_dot_at_root(c: DentryCache)
    requires
        c.wf(),
    ensures
        step(c, c.spec_root(), seq!['.', '.']) == Some(c.spec_root()),
{
    c.lemma_root_parent();
    assert(seq!['.', '.'] != seq!['.']) by {
        assert(seq!['.', '.'].len() != seq!['.'].len());
    }
}

/// `.` stays where it is, and a walk through `.` components only ends
/// where it started.
pub proof fn law_walk_dots(c: DentryCache, start: usize, k: nat)
    ensures
        walk(c, start, Seq::new(k, |i: int| seq!['.'])) == Some(start),
    decreases k,
{
    let comps = Seq::new(k, |i: int| seq!['.']);
    if k > 0 {
        law_walk_dots(c, start, (k - 1) as nat);
        assert(comps.drop_last() =~= Seq::new((k - 1) as nat, |i: int| seq!['.']));
    }
}

/// A walk through the first `i + 1` components makes one step more than the
/// walk through the first `i`.
proof fn lemma_walk_take(c: DentryCache, start: usize, comps: Seq<Seq<char>>, i: int)
    requires
        0 <= i < comps.len(),
    ensures
        walk(c, start, comps.take(i + 1)) == match walk(c, start, comps.take(i)) {
            Some(m) => step(c, m, comps[i]),
            None => None,
        },
{
    assert(comps.take(i + 1).drop_last() =~= comps.take(i));
}

/// A walk that goes through all the components goes through every prefix.
proof fn lemma_walk_prefix(c: DentryCache, start: usize, comps: Seq<Seq<char>>, i: int)
    requires
        0 <= i <= comps.len(),
        walk(c, start, comps) is Some,
    ensures
        walk(c, start, comps.take(i)) is Some,
    decreases comps.len() - i,
{
    if i < comps.len() {
        lemma_walk_prefix(c, start, comps, i + 1);
        lemma_walk_take(c, start, comps, i);
    } else {
        assert(comps.take(i) =~= comps);
    }
}

/// A step through the cache is still possible, to the same dentry, once a
/// child was added to it.
proof fn lemma_step_kept(
    before: DentryCache,
    after: DentryCache,
    d: usize,
    x: usize,
    name: Seq<char>,
    inode: inode::Inode,
    m: usize,
    n: Seq<char>,
)
    requires
        before.wf(),
        after.wf(),
        added_child(before, after, d, x, name, inode),
        m < before.len(),
        step(before, m, n) is Some,
    ensures
        step(after, m, n) == step(before, m, n),
{
    assert(after.spec_parent(m) == before.spec_parent(m));
    if n != seq!['.'] && n != seq!['.', '.'] {
        let oc = before.spec_children(m);
        let nc = after.spec_children(m);
        let ko = choose|k: int| 0 <= k < oc.len() && before.spec_name(oc[k]) == n;
        before.lemma_child_bound(m, ko);
        let y = oc[ko];
        assert(after.spec_name(y) == before.spec_name(y));
        assert(nc[ko] == y);
        assert(0 <= ko < nc.len() && after.spec_name(nc[ko]) == n);
        let kn = choose|k: int| 0 <= k < nc.len() && after.spec_name(nc[k]) == n;
        after.lemma_names_unique(m, ko, kn);
    }
}

/// A walk through the cache is still possible, to the same dentry, once a
/// child was added to it.
proof fn lemma_walk_kept(
    before: DentryCache,
    after: DentryCache,
    d: usize,
    x: usize,
    name: Seq<char>,
    inode: inode::Inode,
    start: usize,
    comps: Seq<Seq<char>>,
)
    requires
        before.wf(),
        after.wf(),
        added_child(before, after, d, x, name, inode),
        start < before.len(),
        walk(before, start, comps) is Some,
    ensures
        walk(after, start, comps) == walk(before, start, comps),
        walk(before, start, comps)->0 < before.len(),
    decreases comps.len(),
{
    if comps.len() > 0 {
        lemma_walk_kept(before, after, d, x, name, inode, start, comps.drop_last());
        let m = walk(before, start, comps.drop_last())->0;
        lemma_step_kept(before, after, d, x, name, inode, m, comps.last());
        lemma_step_bound(before, m, comps.last());
    }
}

/// A step through a well formed cache ends at a dentry of the cache.
proof fn lemma_step_bound(c: DentryCache, m: usize, n: Seq<char>)
    requires
        c.wf(),
        m < c.len(),
        step(c, m, n) is Some,
    ensures
        step(c, m, n)->0 < c.len(),
{
    if n != seq!['.'] && n != seq!['.', '.'] {
        let ch = c.spec_children(m);
        let k = choose|k: int| 0 <= k < ch.len() && c.spec_name(ch[k]) == n;
        c.lemma_child_bound(m, k);
    } else if n == seq!['.', '.'] {
        c.lemma_parent_bound(m);
    }
}

/// Adding a child to a connected dentry keeps every parent alive.
proof fn lemma_parents_alive_kept(
    before: DentryCache,
    after: DentryCache,
    d: usize,
    x: usize,
    name: Seq<char>,
    inode: inode::Inode,
)
    requires
        before.wf(),
        parents_alive(before),
        added_child(before, after, d, x, name, inode),
        d < before.len(),
        before.spec_parent(d) is Some,
    ensures
        parents_alive(after),
{
    assert forall|y: usize| #![trigger after.spec_parent(y)]
        after.valid(y) && after.spec_parent(y) is Some implies after.spec_parent(after.spec_parent(y)->0) is Some by {
        if y == x {
            assert(after.spec_parent(d) == before.spec_parent(d));
        } else {
            assert(after.spec_parent(y) == before.spec_parent(y));
            let p = before.spec_parent(y)->0;
            before.lemma_parent_bound(y);
            assert(after.spec_parent(p) == before.spec_parent(p));
        }
    }
}

/// Resolves a path to a dentry. The walk starts at `root` for an absolute
/// path and at `cwd` for a relative one; `.` stays, `..` goes to the
/// parent, and a name goes to the child of that name, fetched into the
/// cache through the driver when it is not there yet. With the `PARENT`
/// flag, the last component is left out; with `DIRECTORY`, the dentry
/// reached must be a directory.
pub fn lookup<D: DirectoryDriver, O: mount::Operation>(
    cache: &mut DentryCache,
    path: &Path,
    root: usize,
    cwd: usize,
    flags: LookupFlags,
    dir_ops: &D,
    sb: &mut Super,
    sb_ops: &O,
) -> (r: Result<usize, LookupError>)
    requires
        old(cache).wf(),
        old(sb).wf(),
        parents_alive(*old(cache)),
        old(cache).valid(root),
        old(cache).valid(cwd),
        old(cache).spec_parent(root) is Some,
        old(cache).spec_parent(cwd) is Some,
        old(cache).len() + path.spec_components().len() < usize::MAX,
        flags.spec_parent() ==> path.spec_components().len() > 0,
    ensures
        ({
            let start = lookup_start(path, root, cwd);
            let comps = lookup_components(path, flags);
            &&& final(cache).wf()
            &&& final(sb).wf()
            &&& parents_alive(*final(cache))
            &&& final(cache).len() >= old(cache).len()
            &&& r matches Ok(d) ==> final(cache).valid(d)
            &&& r matches Ok(d) ==> walk(*final(cache), start, comps) == Some(d) && (
            flags.spec_directory() ==> final(cache).spec_inode(d).kind == Kind::Directory)
            &&& r matches Err(e) ==> lookup_failed(
                *final(cache),
                final(sb).cached(),
                dir_ops,
                sb_ops,
                comps,
                path.spec_components(),
                start,
                flags.spec_directory(),
                e,
            )
            &&& walk(*old(cache), start, comps) matches Some(d) ==> (
                *final(cache) == *old(cache) && (r matches Ok(e) && e == d
                || (flags.spec_directory() && old(cache).spec_inode(d).kind != Kind::Directory && r matches Err(LookupError::NotADirectory))))
        }),
{
    let start = if path.is_absolute() { root } else { cwd };
    let has_parent = flags.contains(LookupFlags::parent());
    proof {
        let b = flags.spec_bits();
        assert((b & 1 == 1) == (b & 1 != 0)) by (bit_vector);
    }
    let count = if has_parent { path.count() - 1 } else { path.count() };
    let ghost comps = if flags.spec_parent() {
        path.spec_components().drop_last()
    } else {
        path.spec_components()
    };
    let ghost cached = walk(*old(cache), start, comps) is Some;
    let ghost old_cache = *cache;
    let mut current = start;
    let mut i: usize = 0;
    assert(comps.take(0) =~= Seq::<Seq<char>>::empty());
    while i < count
        invariant
            start == (if path.absolute { root } else { cwd }),
            comps == (if flags.spec_parent() {
                path.spec_components().drop_last()
            } else {
                path.spec_components()
            }),
            count == comps.len(),
            comps.len() <= path.spec_components().len(),
            forall|k: int| 0 <= k < comps.len() ==> comps[k] == path.spec_components()[k],
            i <= count,
            cache.wf(),
            sb.wf(),
            parents_alive(*cache),
            cache.valid(current),
            cache.spec_parent(current) is Some,
            cache.len() >= old_cache.len(),
            cache.len() + (count - i) < usize::MAX,
            start < old_cache.len(),
            old_cache == *old(cache),
            walk(*cache, start, comps.take(i as int)) == Some(current),
            cached ==> *cache == old_cache,
            cached == (walk(old_cache, start, comps) is Some),
        decreases count - i,
    {
        let name = &path.components[i];
        assert(name@ == comps[i as int]);
        let ghost prev = current;
        proof {
            lemma_walk_take(*cache, start, comps, i as int);
            if cached {
                lemma_walk_prefix(old_cache, start, comps, i as int + 1);
                lemma_walk_take(old_cache, start, comps, i as int);
                assert(step(*cache, current, name@) is Some);
            }
        }
        if name.is_dot() {
        } else if name.is_dot_dot() {
            proof {
                cache.lemma_parent_bound(current);
            }
            current = match cache.parent(current) {
                Some(p) => p,
                None => current,
            };
        } else {
            let ghost before = *cache;
            match cache.fetch(current, name, dir_ops, sb, sb_ops) {
                Ok(child) => {
                    proof {
                        if before != *cache {
                            let x = child;
                            lemma_parents_alive_kept(before, *cache, current, x, name@, cache.spec_inode(x));
                            lemma_walk_kept(before, *cache, current, x, name@, cache.spec_inode(x), start, comps.take(i as int));
                        }
                        cache.lemma_child_parent(current, child, name@);
                    }
                    current = child;
                },
                Err(FetchError::NotFound) => {
                    let rest = Path::from_components(path.components.as_slice(), i);
                    assert(0 <= i < comps.len() && walk(*cache, start, comps.take(i as int)) == Some(current)
                        && spec_lookup(*cache, current, comps[i as int]) == Err::<usize, CacheLookupError>(CacheLookupError::NotFound)
                        && driver_missed(dir_ops, cache.spec_inode(current), comps[i as int])
                        && rest.spec_components() == path.spec_components().skip(i as int) && !rest.absolute);
                    return Err(LookupError::NotFound(current, rest));
                },
                Err(FetchError::NotADirectory) => {
                    assert(stuck_in_file(*cache, start, comps, i as int));
                    return Err(LookupError::NotADirectory);
                },
                Err(FetchError::IoError) => {
                    return Err(LookupError::IoError);
                },
                Err(FetchError::CorruptedFilesystem) => {
                    assert(missing_in_cache(*cache, start, comps, i as int));
                    return Err(LookupError::CorruptedFilesystem);
                },
            }
        }
        proof {
            lemma_walk_take(*cache, start, comps, i as int);
        }
        i = i + 1;
    }
    assert(comps.take(count as int) =~= comps);
    let must_be_directory = flags.contains(LookupFlags::directory());
    proof {
        let b = flags.spec_bits();
        assert((b & 2 == 2) == (b & 2 != 0)) by (bit_vector);
    }
    if must_be_directory && !cache.inode(current).kind.is_directory() {
        return Err(LookupError::NotADirectory);
    }
    Ok(current)
}

/// A buffer of `n` zero bytes.
pub open spec fn zeros(n: nat) -> Seq<u8> {
    Seq::new(n, |i: int| 0u8)
}

/// The driver gave the outcome `r`, turning a buffer of `len` zero bytes
/// into `after`, to a read from offset 0 of a file open on `inode`.
pub open spec fn file_read<F: FileOps<()>>(
    ops: &F,
    inode: inode::Inode,
    len: nat,
    after: Seq<u8>,
    r: Result<usize, file::ReadError>,
) -> bool {
    exists|f: file::File<()>| f.inode == Some(inode) && #[trigger] ops.read_into(f, zeros(len), after, Offset(0), r)
}

/// The number of bytes that reading the whole inode asks for: its size.
pub open spec fn read_len(inode: inode::Inode) -> nat {
    (inode.state.size as usize) as nat
}

/// The driver failed a read of the whole of `inode`.
pub open spec fn read_failed<F: FileOps<()>>(ops: &F, inode: inode::Inode) -> bool {
    exists|after: Seq<u8>, e: Result<usize, file::ReadError>|
        e is Err && #[trigger] file_read(ops, inode, read_len(inode), after, e)
}

/// The driver read less than the whole of `inode`, or changed the length of
/// the buffer.
pub open spec fn read_short<F: FileOps<()>>(ops: &F, inode: inode::Inode) -> bool {
    exists|after: Seq<u8>, n: usize|
        #[trigger] file_read(ops, inode, read_len(inode), after, Ok(n)) && (n != read_len(inode)
            || after.len() != read_len(inode))
}

/// Reads the whole file at the given path: resolves the path, opens the
/// file for reading and reads as many bytes as the size of its inode, from
/// offset 0, through the driver.
pub fn read_all<D: DirectoryDriver, O: mount::Operation, F: FileOps<()>>(
    cache: &mut DentryCache,
    path: &Path,
    root: usize,
    cwd: usize,
    dir_ops: &D,
    sb: &mut Super,
    sb_ops: &O,
    file_ops: &F,
) -> (r: Result<Vec<u8>, ReadAllError>)
    requires
        old(cache).wf(),
        old(sb).wf(),
        parents_alive(*old(cache)),
        old(cache).valid(root),
        old(cache).valid(cwd),
        old(cache).spec_parent(root) is Some,
        old(cache).spec_parent(cwd) is Some,
        old(cache).len() + path.spec_components().len() < usize::MAX,
    ensures
        ({
            let start = if path.absolute { root } else { cwd };
            let comps = path.spec_components();
            &&& final(cache).wf()
            &&& final(sb).wf()
            &&& parents_alive(*final(cache))
            &&& r matches Ok(data) ==> walk(*final(cache), start, comps) matches Some(d)
                && final(cache).spec_inode(d).file_ops is File
                && data@.len() == final(cache).spec_inode(d).state.size as usize
                && file_read(
                    file_ops,
                    final(cache).spec_inode(d),
                    read_len(final(cache).spec_inode(d)),
                    data@,
                    Ok(data@.len() as usize),
                )
            &&& r matches Err(ReadAllError::LookupError(e)) ==> lookup_failed(
                *final(cache),
                final(sb).cached(),
                dir_ops,
                sb_ops,
                comps,
                comps,
                start,
                false,
                e,
            )
            &&& walk(*old(cache), start, comps) matches Some(d) ==> *final(cache) == *old(cache)
                && (old(cache).spec_inode(d).file_ops is Directory ==> r == Err::<Vec<u8>, ReadAllError>(ReadAllError::NotAFile))
                && !(r matches Err(ReadAllError::LookupError(_)))
            &&& !(r matches Err(ReadAllError::OpenError))
            &&& (r matches Err(ReadAllError::NotAFile)) ==> file_ops_at(*final(cache), start, comps, false)
            &&& (r matches Err(ReadAllError::IoError) || r matches Err(ReadAllError::PartialRead))
                ==> file_ops_at(*final(cache), start, comps, true)
            &&& r matches Err(ReadAllError::IoError) ==> read_failed(
                file_ops,
                final(cache).spec_inode(walk(*final(cache), start, comps)->0),
            )
            &&& r matches Err(ReadAllError::PartialRead) ==> read_short(
                file_ops,
                final(cache).spec_inode(walk(*final(cache), start, comps)->0),
            )
        }),
{
    let d = match lookup(cache, path, root, cwd, LookupFlags::empty(), dir_ops, sb, sb_ops) {
        Ok(d) => d,
        Err(e) => {
            return Err(ReadAllError::LookupError(e));
        },
    };
    let file = match cache.open(d, OpenFlags::read()) {
        Ok(file) => file,
        Err(_) => {
            return Err(ReadAllError::OpenError);
        },
    };
    let inode = cache.inode(d);
    let len = #[verifier::truncate] (inode.state.size as usize);
    let mut data: Vec<u8> = Vec::new();
    let mut i: usize = 0;
    while i < len
        invariant
            i <= len,
            data@ == zeros(i as nat),
        decreases len - i,
    {
        data.push(0);
        i = i + 1;
        assert(data@ =~= zeros(i as nat));
    }
    let ops = match file.as_file() {
        Some(ops) => ops,
        None => {
            return Err(ReadAllError::NotAFile);
        },
    };
    let read = ops.read(file_ops, &file, &mut data, Offset(0));
    assert(file_read(file_ops, inode, read_len(inode), data@, read));
    let ghost start = if path.absolute { root } else { cwd };
    assert(walk(*cache, start, path.spec_components()) == Some(d));
    let readed = match read {
        Ok(n) => n,
        Err(_) => {
            assert(read is Err && file_read(file_ops, inode, read_len(inode), data@, read));
            assert(read_failed(file_ops, inode));
            return Err(ReadAllError::IoError);
        },
    };
    if readed != len || data.len() != len {
        assert(file_read(file_ops, inode, read_len(inode), data@, Ok(readed)));
        assert(readed != read_len(inode) || data@.len() != read_len(inode));
        assert(read_short(file_ops, inode));
        return Err(ReadAllError::PartialRead);
    }
    Ok(data)
}

/// Why the ramdisk could not be filled.
#[derive(Debug)]
pub enum FillError {
    /// A directory could not be created.
    Mkdir(MkdirError),
    /// A file could not be created.
    Create(CreateError),
    /// The file just created could not be found.
    Lookup(LookupError),
    /// The file opened is not a regular file.
    NotAFile,
    /// The file could not be written.
    Write(file::WriteError),
    /// The file was written only in part: the number of bytes written.
    PartialWrite(usize),
}

/// The name of the directory `bin`.
pub open spec fn bin_name() -> Seq<char> {
    seq!['b', 'i', 'n']
}

/// The name of the directory `usr`.
pub open spec fn usr_name() -> Seq<char> {
    seq!['u', 's', 'r']
}

/// The name of the executable of the shell, `shell.elf`.
pub open spec fn shell_name() -> Seq<char> {
    seq!['s', 'h', 'e', 'l', 'l', '.', 'e', 'l', 'f']
}

/// The components of the path of the shell: one, `shell.elf`.
pub open spec fn shell_components() -> Seq<Seq<char>> {
    seq![shell_name()]
}

/// The driver created the directory `name` in the directory `inode`.
pub open spec fn mkdir_succeeded<D: DirectoryDriver>(ops: &D, inode: inode::Inode, name: Seq<char>) -> bool {
    exists|r: Result<(), MkdirError>| r is Ok && #[trigger] ops.made_directory(inode, name, r)
}

/// The driver created the regular file `name` in the directory `inode`.
pub open spec fn create_succeeded<D: DirectoryDriver>(ops: &D, inode: inode::Inode, name: Seq<char>) -> bool {
    exists|r: Result<inode::Identifier, CreateError>| r is Ok && #[trigger] ops.created(inode, name, r)
}

/// The driver gave the outcome `r` to a write of `data`, from offset 0, into
/// a file opened for writing, at offset 0, on the inode that the walk from
/// `root` to the shell reaches.
pub open spec fn shell_written<F: FileOps<()>>(
    ops: &F,
    c: DentryCache,
    root: usize,
    data: Seq<u8>,
    r: Result<usize, file::WriteError>,
) -> bool {
    &&& walk(c, root, shell_components()) is Some
    &&& exists|f: file::File<()>|
        f.inode == Some(c.spec_inode(walk(c, root, shell_components())->0))
            && f.open_flags.spec_bits() == 2 && f.state.offset == Offset(0) && #[trigger] ops.wrote(
            f,
            data,
            Offset(0),
            r,
        )
}

/// Fills the root filesystem at boot: creates the directories `/bin` and
/// `/usr` and the file `/shell.elf`, through the driver, then writes the
/// executable of the shell into the file. The first step of the driver
/// that fails ends the filling with its error, which the boot code, its
/// caller, treats as fatal.
pub fn fill_ramdisk<D: DirectoryDriver, O: mount::Operation, F: FileOps<()>>(
    cache: &mut DentryCache,
    root: usize,
    shell_data: &[u8],
    dir_ops: &D,
    sb: &mut Super,
    sb_ops: &O,
    file_ops: &F,
) -> (r: Result<(), FillError>)
    requires
        old(cache).wf(),
        old(sb).wf(),
        parents_alive(*old(cache)),
        old(cache).valid(root),
        old(cache).spec_parent(root) is Some,
        old(cache).len() + 1 < usize::MAX,
    ensures
        final(cache).wf(),
        final(sb).wf(),
        parents_alive(*final(cache)),
        ({
            let dir = old(cache).spec_inode(root);
            let made = mkdir_succeeded(dir_ops, dir, bin_name()) && mkdir_succeeded(
                dir_ops,
                dir,
                usr_name(),
            ) && create_succeeded(dir_ops, dir, shell_name());
            &&& r is Ok ==> made && shell_written(
                file_ops,
                *final(cache),
                root,
                shell_data@,
                Ok(shell_data@.len() as usize),
            )
            &&& r matches Err(FillError::Mkdir(e)) ==> dir_ops.made_directory(dir, bin_name(), Err(e))
                || (mkdir_succeeded(dir_ops, dir, bin_name()) && dir_ops.made_directory(
                dir,
                usr_name(),
                Err(e),
            ))
            &&& r matches Err(FillError::Create(e)) ==> mkdir_succeeded(dir_ops, dir, bin_name())
                && mkdir_succeeded(dir_ops, dir, usr_name()) && dir_ops.created(
                dir,
                shell_name(),
                Err(e),
            )
            &&& r matches Err(FillError::Lookup(e)) ==> made && lookup_failed(
                *final(cache),
                final(sb).cached(),
                dir_ops,
                sb_ops,
                shell_components(),
                shell_components(),
                root,
                false,
                e,
            )
            &&& r matches Err(FillError::NotAFile) ==> made && file_ops_at(
                *final(cache),
                root,
                shell_components(),
                false,
            )
            &&& r matches Err(FillError::Write(e)) ==> made && shell_written(
                file_ops,
                *final(cache),
                root,
                shell_data@,
                Err(e),
            )
            &&& r matches Err(FillError::PartialWrite(n)) ==> made && n != shell_data@.len()
                && shell_written(file_ops, *final(cache), root, shell_data@, Ok(n))
        }),
{
    let inode = cache.inode(root);
    proof {
        reveal_strlit("bin");
        reveal_strlit("usr");
        reveal_strlit("shell.elf");
        reveal_strlit("/shell.elf");
        lemma_fill_names();
        assert("bin"@ =~= bin_name());
        assert("usr"@ =~= usr_name());
        assert("shell.elf"@ =~= shell_name());
        assert("/shell.elf"@ =~= seq!['/'] + shell_name());
    }
    let bin = Name::new(String::from_str("bin")).unwrap();
    match dir_ops.mkdir(&inode, &bin) {
        Ok(()) => {},
        Err(e) => {
            return Err(FillError::Mkdir(e));
        },
    }
    let usr = Name::new(String::from_str("usr")).unwrap();
    match dir_ops.mkdir(&inode, &usr) {
        Ok(()) => {},
        Err(e) => {
            return Err(FillError::Mkdir(e));
        },
    }
    let shell = Name::new(String::from_str("shell.elf")).unwrap();
    match dir_ops.create(&inode, &shell) {
        Ok(_) => {},
        Err(e) => {
            return Err(FillError::Create(e));
        },
    }
    let path = Path::new("/shell.elf").unwrap();
    let d = match lookup(cache, &path, root, root, LookupFlags::empty(), dir_ops, sb, sb_ops) {
        Ok(d) => d,
        Err(e) => {
            return Err(FillError::Lookup(e));
        },
    };
    let file = cache.open(d, OpenFlags::write()).unwrap();
    let ops = match file.as_file() {
        Some(ops) => ops,
        None => {
            return Err(FillError::NotAFile);
        },
    };
    let len = match ops.write(file_ops, &file, shell_data, Offset(0)) {
        Ok(len) => len,
        Err(e) => {
            return Err(FillError::Write(e));
        },
    };
    if len != shell_data.len() {
        return Err(FillError::PartialWrite(len));
    }
    Ok(())
}

/// The names that the ramdisk is filled with are valid, and the path
/// `/shell.elf` parses into its one component, as an absolute path.
proof fn lemma_fill_names()
    ensures
        spec_validate_name(bin_name()) is Ok,
        spec_validate_name(usr_name()) is Ok,
        spec_validate_name(shell_name()) is Ok,
        spec_parse_path(seq!['/'] + shell_name()) == Ok::<(Seq<Seq<char>>, bool), InvalidPath>(
            (shell_components(), true),
        ),
{
    lemma_plain_name(bin_name());
    lemma_plain_name(usr_name());
    lemma_plain_name(shell_name());
    let chars = shell_name();
    let slash = seq!['/'];
    let s = slash + chars;
    assert(scan(slash) == (Seq::<Seq<char>>::empty(), Seq::<char>::empty())) by {
        assert(slash.drop_last() =~= Seq::<char>::empty());
        assert(scan(Seq::<char>::empty()) == (Seq::<Seq<char>>::empty(), Seq::<char>::empty()));
    }
    path::lemma_scan_plain(slash, chars);
    assert(Seq::<char>::empty() + chars =~= chars);
    assert(split_path(s) =~= shell_components());
    lemma_utf8_len_upper(s);
    assert(!s.contains('\0')) by {
        if s.contains('\0') {
            let k = choose|k: int| 0 <= k < s.len() && s[k] == '\0';
            assert(s[k] != '\0');
        }
    }
    assert(spec_validate_path(s) is Ok);
    assert(first_invalid(split_path(s)) is None) by {
        if exists|k: int|
            0 <= k < split_path(s).len() && spec_validate_name(split_path(s)[k]) is Err {
            let k = choose|k: int|
                0 <= k < split_path(s).len() && spec_validate_name(split_path(s)[k]) is Err;
            assert(k == 0);
        }
    }
}

/// A short name without a null byte or a forward slash is valid.
proof fn lemma_plain_name(s: Seq<char>)
    requires
        0 < s.len() <= 60,
        forall|k: int| 0 <= k < s.len() ==> #[trigger] s[k] != '\0' && s[k] != '/',
    ensures
        spec_validate_name(s) is Ok,
        !s.contains('/'),
{
    lemma_utf8_len_upper(s);
}


} // verus!
