use std::cell::RefCell;

use helium::vfs::dentry::{
    ConnectError, Dentry, DentryCache, DisconnectError, FetchError, LookupError as CacheLookupError,
};
use helium::vfs::file::{File, FileOps, Offset, ReadError, SeekError, Whence, WriteError};
use helium::vfs::inode::{
    self, CreateError, DirectoryDriver, DirectoryOperation, FileOperation, Identifier, Inode,
    InodeState, Kind, MkdirError,
};
use helium::vfs::mount::{
    self, ReadInodeError, Super, SuperCreationInfo, WriteInodeError, WriteSuperError,
};
use helium::vfs::name::Name;
use helium::vfs::path::Path;
use helium::vfs::{fill_ramdisk, lookup, read_all, FillError, LookupError, LookupFlags, ReadAllError};

fn name(s: &str) -> Name {
    Name::new(String::from(s)).unwrap()
}

fn state(size: u64) -> InodeState {
    InodeState { modification_time: 0, access_time: 0, change_time: 0, links: 1, size }
}

fn dir_inode(id: u64) -> Inode {
    Inode {
        id: Identifier(id),
        kind: Kind::Directory,
        inode_ops: inode::Operation::Directory(DirectoryOperation),
        file_ops: helium::vfs::file::Operation::Directory(helium::vfs::file::DirectoryOperation),
        state: state(0),
    }
}

fn file_inode(id: u64, size: u64) -> Inode {
    Inode {
        id: Identifier(id),
        kind: Kind::File,
        inode_ops: inode::Operation::File(FileOperation),
        file_ops: helium::vfs::file::Operation::File(helium::vfs::file::FileOperation),
        state: state(size),
    }
}

/// A filesystem held in memory: a list of entries and the data of files.
struct RamFs {
    entries: RefCell<Vec<(u64, String, u64, bool)>>,
    data: RefCell<Vec<(u64, Vec<u8>)>>,
    next: RefCell<u64>,
    fail_writes: bool,
}

impl RamFs {
    fn new() -> Self {
        RamFs {
            entries: RefCell::new(Vec::new()),
            data: RefCell::new(Vec::new()),
            next: RefCell::new(2),
            fail_writes: false,
        }
    }

    fn add(&self, parent: u64, name: &str, dir: bool) -> u64 {
        let id = *self.next.borrow();
        *self.next.borrow_mut() = id + 1;
        self.entries.borrow_mut().push((parent, String::from(name), id, dir));
        id
    }

    fn set_data(&self, id: u64, bytes: &[u8]) {
        self.data.borrow_mut().push((id, bytes.to_vec()));
    }

    fn data_of(&self, id: u64) -> Vec<u8> {
        self.data
            .borrow()
            .iter()
            .rev()
            .find(|(i, _)| *i == id)
            .map(|(_, d)| d.clone())
            .unwrap_or_default()
    }
}

impl DirectoryDriver for RamFs {
    fn lookup(&self, inode: &Inode, name: &Name) -> Result<Identifier, inode::LookupError> {
        self.entries
            .borrow()
            .iter()
            .find(|(p, n, _, _)| *p == inode.id.0 && n == name.as_str())
            .map(|(_, _, id, _)| Identifier(*id))
            .ok_or(inode::LookupError::NoSuchEntry)
    }

    fn create(&self, inode: &Inode, name: &Name) -> Result<Identifier, CreateError> {
        if self.lookup(inode, name).is_ok() {
            return Err(CreateError::AlreadyExists);
        }
        Ok(Identifier(self.add(inode.id.0, name.as_str(), false)))
    }

    fn mkdir(&self, inode: &Inode, name: &Name) -> Result<(), MkdirError> {
        if self.lookup(inode, name).is_ok() {
            return Err(MkdirError::AlreadyExists);
        }
        self.add(inode.id.0, name.as_str(), true);
        Ok(())
    }
}

impl mount::Operation for RamFs {
    fn write_super(&self, _superblock: &Super) -> Result<(), WriteSuperError> {
        Ok(())
    }

    fn write_inode(&self, _inode: &Inode) -> Result<(), WriteInodeError> {
        if self.fail_writes {
            Err(WriteInodeError::IoError)
        } else {
            Ok(())
        }
    }

    fn read_inode(&self, id: Identifier) -> Result<Inode, ReadInodeError> {
        if id.0 == 1 {
            return Ok(dir_inode(1));
        }
        let entries = self.entries.borrow();
        let e = entries.iter().find(|(_, _, i, _)| *i == id.0).ok_or(ReadInodeError::DoesNotExist)?;
        if e.3 {
            Ok(dir_inode(id.0))
        } else {
            Ok(file_inode(id.0, self.data_of(id.0).len() as u64))
        }
    }
}

impl FileOps<()> for RamFs {
    fn write(&self, file: &File<()>, buf: &[u8], offset: Offset) -> Result<usize, WriteError> {
        let id = file.inode.unwrap().id.0;
        let mut d = self.data_of(id);
        if d.len() < offset.0 + buf.len() {
            d.resize(offset.0 + buf.len(), 0);
        }
        d[offset.0..offset.0 + buf.len()].copy_from_slice(buf);
        self.set_data(id, &d);
        Ok(buf.len())
    }

    fn read(&self, file: &File<()>, buf: &mut Vec<u8>, offset: Offset) -> Result<usize, ReadError> {
        let id = file.inode.unwrap().id.0;
        let d = self.data_of(id);
        let mut n = 0;
        while offset.0 + n < d.len() && n < buf.len() {
            buf[n] = d[offset.0 + n];
            n += 1;
        }
        Ok(n)
    }

    fn seek(&self, _file: &File<()>, _offset: isize, _whence: Whence) -> Result<Offset, SeekError> {
        Err(SeekError::NotSeekable)
    }
}

fn new_cache() -> (DentryCache, Super) {
    let root = dir_inode(1);
    let cache = Dentry::root(name("root"), root);
    let sb = Super::new(SuperCreationInfo { root });
    (cache, sb)
}

#[test]
fn root_is_its_own_parent() {
    let (cache, _) = new_cache();
    let r = cache.root();
    assert!(cache.is_root(r));
    assert_eq!(cache.parent(r), Some(r));
    assert_eq!(cache.name(r).as_str(), "root");
}

#[test]
fn connect_then_lookup_finds_the_child() {
    let (mut cache, _) = new_cache();
    let r = cache.root();
    let c = cache.insert(Dentry::new(name("etc"), dir_inode(5)));
    assert!(cache.parent(c).is_none());
    assert_eq!(cache.lookup(r, &name("etc")), Err(CacheLookupError::NotFound));
    assert_eq!(cache.connect_child(r, c), Ok(()));
    assert_eq!(cache.lookup(r, &name("etc")), Ok(c));
    assert_eq!(cache.parent(c), Some(r));
    assert!(!cache.is_root(c));
}

#[test]
fn connect_errors() {
    let (mut cache, _) = new_cache();
    let r = cache.root();
    let c = cache.insert(Dentry::new(name("etc"), dir_inode(5)));
    cache.connect_child(r, c).unwrap();
    assert_eq!(cache.connect_child(r, c), Err(ConnectError::AlreadyConnected));
    let twin = cache.insert(Dentry::new(name("etc"), dir_inode(6)));
    assert_eq!(cache.connect_child(r, twin), Err(ConnectError::AlreadyExists));
    let f = cache.create_and_connect_child(r, file_inode(7, 0), name("f")).unwrap();
    let g = cache.insert(Dentry::new(name("g"), dir_inode(8)));
    assert_eq!(cache.connect_child(f, g), Err(ConnectError::NotADirectory));
}

#[test]
fn lookup_in_a_file_is_not_a_directory() {
    let (mut cache, _) = new_cache();
    let r = cache.root();
    let f = cache.create_and_connect_child(r, file_inode(7, 0), name("f")).unwrap();
    assert_eq!(cache.lookup(f, &name("x")), Err(CacheLookupError::NotADirectory));
    assert_eq!(
        cache.create_and_connect_child(r, file_inode(9, 0), name("f")),
        Err(ConnectError::AlreadyExists)
    );
}

#[test]
fn disconnect_then_lookup_misses() {
    let (mut cache, _) = new_cache();
    let r = cache.root();
    let a = cache.create_and_connect_child(r, dir_inode(5), name("a")).unwrap();
    let b = cache.create_and_connect_child(r, dir_inode(6), name("b")).unwrap();
    let inner = cache.create_and_connect_child(a, file_inode(7, 0), name("x")).unwrap();
    assert_eq!(cache.disconnect_child(r, &name("a")), Err(DisconnectError::Busy));
    assert_eq!(cache.disconnect_child(r, &name("zz")), Err(DisconnectError::NotFound));
    assert_eq!(cache.disconnect_child(a, &name("x")), Ok(inner));
    assert_eq!(cache.lookup(a, &name("x")), Err(CacheLookupError::NotFound));
    assert_eq!(cache.disconnect_child(r, &name("a")), Ok(a));
    assert_eq!(cache.lookup(r, &name("a")), Err(CacheLookupError::NotFound));
    assert_eq!(cache.lookup(r, &name("b")), Ok(b));
    assert!(cache.parent(a).is_none());
}

#[test]
fn fetch_loads_from_the_driver() {
    let fs = RamFs::new();
    fs.add(1, "bin", true);
    let (mut cache, mut sb) = new_cache();
    let r = cache.root();
    let bin = cache.fetch(r, &name("bin"), &fs, &mut sb, &fs).unwrap();
    assert_eq!(cache.parent(bin), Some(r));
    assert_eq!(cache.inode(bin).kind, Kind::Directory);
    // Once loaded, the same dentry is found again.
    assert_eq!(cache.fetch(r, &name("bin"), &fs, &mut sb, &fs), Ok(bin));
    assert_eq!(cache.fetch(r, &name("nope"), &fs, &mut sb, &fs), Err(FetchError::NotFound));
}

#[test]
fn fetch_in_a_file_fails() {
    let fs = RamFs::new();
    let id = fs.add(1, "f", false);
    let (mut cache, mut sb) = new_cache();
    let r = cache.root();
    let f = cache.fetch(r, &name("f"), &fs, &mut sb, &fs).unwrap();
    assert_eq!(cache.inode(f).id, Identifier(id));
    assert_eq!(cache.fetch(f, &name("x"), &fs, &mut sb, &fs), Err(FetchError::NotADirectory));
}

#[test]
fn create_and_fetch_file_returns_the_new_file() {
    let fs = RamFs::new();
    let (mut cache, mut sb) = new_cache();
    let r = cache.root();
    let f = cache.create_and_fetch_file(r, name("new.txt"), &fs, &mut sb, &fs).unwrap();
    assert_eq!(cache.name(f).as_str(), "new.txt");
    assert_eq!(cache.parent(f), Some(r));
    assert_eq!(cache.inode(f).kind, Kind::File);
    assert!(cache.create_and_fetch_file(r, name("new.txt"), &fs, &mut sb, &fs).is_err());
}

#[test]
fn open_gives_a_file_at_offset_zero() {
    let (mut cache, _) = new_cache();
    let r = cache.root();
    let f = cache.create_and_connect_child(r, file_inode(7, 3), name("f")).unwrap();
    let file = cache.open(f, helium::vfs::file::OpenFlags::read()).unwrap();
    assert_eq!(file.state.offset, Offset(0));
    assert_eq!(file.inode.unwrap().id, Identifier(7));
    assert!(file.as_file().is_some());
    assert!(file.as_directory().is_none());
    let d = cache.open(r, helium::vfs::file::OpenFlags::read()).unwrap();
    assert!(d.as_directory().is_some());
}

#[test]
fn lookup_walks_absolute_and_relative_paths() {
    let fs = RamFs::new();
    let usr = fs.add(1, "usr", true);
    let bin = fs.add(usr, "bin", true);
    let sh = fs.add(bin, "sh", false);
    let (mut cache, mut sb) = new_cache();
    let r = cache.root();
    let flags = LookupFlags::empty();
    let d = lookup(&mut cache, &Path::new("/usr/bin/sh").unwrap(), r, r, flags, &fs, &mut sb, &fs).unwrap();
    assert_eq!(cache.inode(d).id, Identifier(sh));
    let b = lookup(&mut cache, &Path::new("/usr/bin").unwrap(), r, r, flags, &fs, &mut sb, &fs).unwrap();
    let again = lookup(&mut cache, &Path::new("sh").unwrap(), r, b, flags, &fs, &mut sb, &fs).unwrap();
    assert_eq!(again, d);
    let up = lookup(&mut cache, &Path::new("../bin/./sh").unwrap(), r, b, flags, &fs, &mut sb, &fs).unwrap();
    assert_eq!(up, d);
    let root_up = lookup(&mut cache, &Path::new("/../..").unwrap(), r, b, flags, &fs, &mut sb, &fs).unwrap();
    assert_eq!(root_up, r);
}

#[test]
fn lookup_parent_and_directory_flags() {
    let fs = RamFs::new();
    let usr = fs.add(1, "usr", true);
    fs.add(usr, "file", false);
    let (mut cache, mut sb) = new_cache();
    let r = cache.root();
    let parent = lookup(
        &mut cache,
        &Path::new("/usr/missing").unwrap(),
        r,
        r,
        LookupFlags::parent(),
        &fs,
        &mut sb,
        &fs,
    )
    .unwrap();
    assert_eq!(cache.inode(parent).id, Identifier(usr));
    let res = lookup(
        &mut cache,
        &Path::new("/usr/file").unwrap(),
        r,
        r,
        LookupFlags::directory(),
        &fs,
        &mut sb,
        &fs,
    );
    assert!(matches!(res, Err(LookupError::NotADirectory)));
    let both = LookupFlags::parent().union(LookupFlags::directory());
    assert!(both.contains(LookupFlags::parent()) && both.contains(LookupFlags::directory()));
    let d = lookup(&mut cache, &Path::new("/usr/file").unwrap(), r, r, both, &fs, &mut sb, &fs).unwrap();
    assert_eq!(cache.inode(d).id, Identifier(usr));
}

#[test]
fn lookup_not_found_reports_the_rest() {
    let fs = RamFs::new();
    fs.add(1, "usr", true);
    let (mut cache, mut sb) = new_cache();
    let r = cache.root();
    let res = lookup(
        &mut cache,
        &Path::new("/usr/local/bin").unwrap(),
        r,
        r,
        LookupFlags::empty(),
        &fs,
        &mut sb,
        &fs,
    );
    match res {
        Err(LookupError::NotFound(last, rest)) => {
            assert_eq!(cache.name(last).as_str(), "usr");
            assert!(!rest.is_absolute());
            assert_eq!(rest.to_string(), "local/bin");
        }
        _ => panic!("expected NotFound"),
    }
}

#[test]
fn lookup_through_a_file_is_not_a_directory() {
    let fs = RamFs::new();
    fs.add(1, "f", false);
    let (mut cache, mut sb) = new_cache();
    let r = cache.root();
    let res = lookup(&mut cache, &Path::new("/f/x").unwrap(), r, r, LookupFlags::empty(), &fs, &mut sb, &fs);
    assert!(matches!(res, Err(LookupError::NotADirectory)));
}

#[test]
fn read_inode_error_is_corruption() {
    assert!(matches!(LookupError::from(ReadInodeError::DoesNotExist), LookupError::CorruptedFilesystem));
}

#[test]
fn read_all_reads_the_whole_file() {
    let fs = RamFs::new();
    let id = fs.add(1, "hello", false);
    fs.set_data(id, b"hello world");
    let (mut cache, mut sb) = new_cache();
    let r = cache.root();
    let data = read_all(&mut cache, &Path::new("/hello").unwrap(), r, r, &fs, &mut sb, &fs, &fs).unwrap();
    assert_eq!(data, b"hello world".to_vec());
    let missing = read_all(&mut cache, &Path::new("/nope").unwrap(), r, r, &fs, &mut sb, &fs, &fs);
    assert!(matches!(missing, Err(ReadAllError::LookupError(LookupError::NotFound(_, _)))));
    let dir = read_all(&mut cache, &Path::new("/").unwrap(), r, r, &fs, &mut sb, &fs, &fs);
    assert!(matches!(dir, Err(ReadAllError::NotAFile)));
}

#[test]
fn fill_ramdisk_creates_the_shell() {
    let fs = RamFs::new();
    let (mut cache, mut sb) = new_cache();
    let r = cache.root();
    fill_ramdisk(&mut cache, r, b"\x7fELF", &fs, &mut sb, &fs, &fs).unwrap();
    let shell = lookup(&mut cache, &Path::new("/shell.elf").unwrap(), r, r, LookupFlags::empty(), &fs, &mut sb, &fs).unwrap();
    assert_eq!(fs.data_of(cache.inode(shell).id.0), b"\x7fELF".to_vec());
    assert!(lookup(&mut cache, &Path::new("/bin").unwrap(), r, r, LookupFlags::directory(), &fs, &mut sb, &fs).is_ok());
    assert!(lookup(&mut cache, &Path::new("/usr").unwrap(), r, r, LookupFlags::directory(), &fs, &mut sb, &fs).is_ok());
    // A second fill fails: the directories already exist.
    let again = fill_ramdisk(&mut cache, r, b"x", &fs, &mut sb, &fs, &fs);
    assert!(matches!(again, Err(FillError::Mkdir(MkdirError::AlreadyExists))));
}

#[test]
fn super_caches_inodes() {
    let fs = RamFs::new();
    let id = fs.add(1, "f", false);
    let (_, mut sb) = new_cache();
    assert!(sb.is_cached(Identifier(1)));
    assert!(!sb.is_cached(Identifier(id)));
    let i = sb.get_inode(Identifier(id), &fs).unwrap();
    assert_eq!(i.id, Identifier(id));
    assert!(sb.is_cached(Identifier(id)));
    assert!(matches!(sb.get_inode(Identifier(99), &fs), Err(ReadInodeError::DoesNotExist)));
    assert_eq!(sb.root().id, Identifier(1));
}

#[test]
fn super_gives_the_cached_inode_again() {
    let fs = RamFs::new();
    let id = fs.add(1, "g", false);
    let (_, mut sb) = new_cache();
    let first = sb.get_inode(Identifier(id), &fs).unwrap();
    let second = sb.get_inode(Identifier(id), &fs).unwrap();
    assert_eq!(first.id, Identifier(id));
    assert_eq!(second.id, first.id);
    assert_eq!(second.kind, first.kind);
    let root = sb.get_inode(Identifier(1), &fs).unwrap();
    assert_eq!(root.id, Identifier(1));
}

#[test]
fn sync_keeps_failed_inodes_dirty() {
    let mut fs = RamFs::new();
    let (mut cache, mut sb) = new_cache();
    let r = cache.root();
    cache.dirtying_inode(r, &mut sb);
    fs.fail_writes = true;
    sb.sync_inodes(&fs);
    fs.fail_writes = false;
    sb.sync_inodes(&fs);
    sb.sync(&fs);
}

#[test]
fn dots_stay_in_place() {
    let fs = RamFs::new();
    let usr = fs.add(1, "usr", true);
    let (mut cache, mut sb) = new_cache();
    let r = cache.root();
    let u = lookup(&mut cache, &Path::new("/usr").unwrap(), r, r, LookupFlags::empty(), &fs, &mut sb, &fs).unwrap();
    assert_eq!(cache.inode(u).id, Identifier(usr));
    let same = lookup(&mut cache, &Path::new("./././.").unwrap(), r, u, LookupFlags::empty(), &fs, &mut sb, &fs).unwrap();
    assert_eq!(same, u);
    let top = lookup(&mut cache, &Path::new("..").unwrap(), r, r, LookupFlags::empty(), &fs, &mut sb, &fs).unwrap();
    assert_eq!(top, r);
}
