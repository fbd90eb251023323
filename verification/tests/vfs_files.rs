use helium::vfs::dirent;
use helium::vfs::fd::{Descriptor, OpenedFiles, MAX_OPEN_FILES};
use helium::user::syscall::vfs::Whence as UserWhence;
use helium::vfs::file::{OpenFlags, Whence};
use helium::vfs::fs::{Filesystem, Filesystems, MountError, Operation as FsOperation, ReadSuperError};
use helium::vfs::inode::{self, DeviceId, Identifier, Inode, InodeState, Kind};
use helium::vfs::mount::{Super, SuperCreationInfo};
use helium::vfs::pipe::reader::ReadError as ByteReadError;
use helium::vfs::pipe::writer::WriteError as ByteWriteError;
use helium::vfs::pipe::{create_pair, Pipe, Step, BUFFER_SIZE};

#[test]
fn descriptor_new_rejects_at_fdcwd() {
    assert_eq!(Descriptor::new(3), Some(Descriptor(3)));
    assert_eq!(Descriptor::new(usize::MAX), None);
    assert_eq!(Descriptor::at_fdcwd(), Descriptor(Descriptor::AT_FDCWD));
}

#[test]
fn opened_files_fill_the_first_free_slot() {
    let mut t: OpenedFiles<u32> = OpenedFiles::empty();
    assert_eq!(t.insert(10), Some(Descriptor(0)));
    assert_eq!(t.insert(11), Some(Descriptor(1)));
    assert_eq!(t.insert(12), Some(Descriptor(2)));
    assert_eq!(t.remove(Descriptor(1)), Some(11));
    assert_eq!(t.get(Descriptor(1)), None);
    assert_eq!(t.insert(13), Some(Descriptor(1)));
    assert_eq!(t.get(Descriptor(1)), Some(&13));
    assert_eq!(t.get(Descriptor(2)), Some(&12));
}

#[test]
fn opened_files_is_bounded() {
    let mut t: OpenedFiles<usize> = OpenedFiles::empty();
    for i in 0..MAX_OPEN_FILES {
        assert_eq!(t.insert(i), Some(Descriptor(i)));
    }
    assert_eq!(t.insert(99), None);
    assert_eq!(t.get(Descriptor(40)), None);
    assert_eq!(t.remove(Descriptor(40)), None);
    assert_eq!(t.remove(Descriptor(31)), Some(31));
    assert_eq!(t.remove(Descriptor(31)), None);
}

#[test]
fn open_flags_bits() {
    assert_eq!(OpenFlags::read().bits(), 1);
    assert_eq!(OpenFlags::write().bits(), 2);
    assert_eq!(OpenFlags::create().bits(), 4);
    assert_eq!(OpenFlags::truncate().bits(), 8);
    assert_eq!(OpenFlags::must_create().bits(), 16);
    let rw = OpenFlags::read().union(OpenFlags::write());
    assert!(rw.contains(OpenFlags::read()));
    assert!(!rw.contains(OpenFlags::create()));
    assert!(rw.intersects(OpenFlags::write().union(OpenFlags::create())));
    assert_eq!(OpenFlags::from_bits_truncate(0xFF).bits(), 31);
    assert_eq!(OpenFlags::empty().bits(), 0);
}

#[test]
fn whence_from_raw_value() {
    assert_eq!(Whence::try_from(0usize), Ok(Whence::Current));
    assert_eq!(Whence::try_from(1usize), Ok(Whence::Start));
    assert_eq!(Whence::try_from(2usize), Ok(Whence::End));
    assert_eq!(Whence::try_from(3usize), Err(()));
}

#[test]
fn dirent_kind_from_inode_kind() {
    assert_eq!(dirent::Kind::from(Kind::Directory), dirent::Kind::Directory);
    assert_eq!(dirent::Kind::from(Kind::File), dirent::Kind::File);
    assert_eq!(dirent::Kind::from(Kind::BlockDevice(DeviceId(1))), dirent::Kind::BlockDevice);
    assert_eq!(dirent::Kind::from(Kind::CharDevice(DeviceId(2))), dirent::Kind::CharDevice);
}

#[test]
fn pipe_is_first_in_first_out() {
    let (mut pipe, reader_file, writer_file) = create_pair();
    assert_eq!(reader_file.open_flags.bits(), 1);
    assert_eq!(writer_file.open_flags.bits(), 2);
    assert!(reader_file.inode.is_none());
    assert_eq!(pipe.reader_count(), 1);
    assert_eq!(pipe.writer_count(), 1);
    assert_eq!(pipe.write(b"hello", 0), Step::Done(Ok(5)));
    assert_eq!(pipe.write(b" world", 0), Step::Done(Ok(6)));
    let mut buf = vec![0u8; 11];
    assert_eq!(pipe.read(&mut buf, 0), Step::Done(Ok(11)));
    assert_eq!(buf, b"hello world".to_vec());
}

#[test]
fn pipe_read_waits_on_an_empty_pipe_with_writers() {
    let (mut pipe, _r, _w) = create_pair();
    let mut buf = vec![0u8; 4];
    assert_eq!(pipe.read(&mut buf, 0), Step::Wait(0));
    pipe.write(b"ab", 0);
    assert_eq!(pipe.read(&mut buf, 0), Step::Wait(2));
    assert_eq!(&buf[..2], b"ab");
    pipe.write(b"cd", 0);
    assert_eq!(pipe.read(&mut buf, 2), Step::Done(Ok(4)));
    assert_eq!(buf, b"abcd".to_vec());
}

#[test]
fn pipe_broken_read_and_partial_read() {
    let mut pipe = Pipe::new();
    let reader = pipe.create_reader();
    let writer = pipe.create_writer();
    pipe.write(b"xy", 0);
    pipe.close_writer(writer);
    let mut buf = vec![0u8; 4];
    assert_eq!(pipe.read(&mut buf, 0), Step::Done(Ok(2)));
    assert_eq!(pipe.read(&mut buf, 0), Step::Done(Err(helium::vfs::file::ReadError::BrokenPipe)));
    assert_eq!(reader.read_byte(&mut pipe), Step::Done(Err(ByteReadError::BrokenPipe)));
    pipe.close_reader(reader);
    assert_eq!(pipe.reader_count(), 0);
}

#[test]
fn pipe_full_write_waits_then_breaks() {
    let mut pipe = Pipe::new();
    let reader = pipe.create_reader();
    let writer = pipe.create_writer();
    let big = vec![7u8; BUFFER_SIZE + 10];
    assert_eq!(pipe.write(&big, 0), Step::Wait(BUFFER_SIZE));
    assert_eq!(writer.write_byte(&mut pipe, 1), Step::Wait(0));
    pipe.close_reader(reader);
    assert_eq!(pipe.write(&big, BUFFER_SIZE), Step::Done(Ok(BUFFER_SIZE)));
    assert_eq!(pipe.write(b"z", 0), Step::Done(Err(helium::vfs::file::WriteError::BrokenPipe)));
    assert_eq!(writer.write_byte(&mut pipe, 1), Step::Done(Err(ByteWriteError::BrokenPipe)));
}

#[test]
fn pipe_bytes_one_at_a_time() {
    let mut pipe = Pipe::new();
    let reader = pipe.create_reader();
    let writer = pipe.create_writer();
    assert_eq!(writer.write_byte(&mut pipe, 42), Step::Done(Ok(())));
    assert_eq!(writer.write_byte(&mut pipe, 43), Step::Done(Ok(())));
    assert_eq!(reader.read_byte(&mut pipe), Step::Done(Ok(42)));
    assert_eq!(reader.read_byte(&mut pipe), Step::Done(Ok(43)));
    assert_eq!(reader.read_byte(&mut pipe), Step::Wait(0));
    assert!(pipe.push_byte(1));
    assert_eq!(pipe.pop_byte(), Some(1));
    assert_eq!(pipe.pop_byte(), None);
}

#[test]
fn pipe_cannot_seek() {
    assert_eq!(Pipe::seek(3, Whence::Start), Err(helium::vfs::file::SeekError::NotSeekable));
}

struct RamFsType;

impl FsOperation<u32> for RamFsType {
    fn read_super(&self, _fs: &Filesystem, device: u32) -> Result<Super, ReadSuperError> {
        if device == 0 {
            let root = Inode {
                id: Identifier(1),
                kind: Kind::Directory,
                inode_ops: inode::Operation::Directory(inode::DirectoryOperation),
                file_ops: helium::vfs::file::Operation::Directory(helium::vfs::file::DirectoryOperation),
                state: InodeState { modification_time: 0, access_time: 0, change_time: 0, links: 1, size: 0 },
            };
            Ok(Super::new(SuperCreationInfo { root }))
        } else {
            Err(ReadSuperError::InvalidDevice)
        }
    }
}

#[test]
fn filesystems_register_and_mount() {
    let mut all = Filesystems::new();
    assert!(!all.is_registered("ramfs"));
    all.register(Filesystem::new("ramfs"));
    assert!(all.is_registered("ramfs"));
    assert!(!all.is_registered("ext2"));
    let root = all.mount_root("ramfs", 0u32, &RamFsType).unwrap();
    assert_eq!(root.id, Identifier(1));
    assert!(matches!(
        all.mount_root("ramfs", 1u32, &RamFsType),
        Err(MountError::ReadSuper(ReadSuperError::InvalidDevice))
    ));
    assert_eq!(Filesystem::new("tmpfs").name(), "tmpfs");
}

#[test]
fn filesystems_give_the_last_mounted_superblock() {
    let mut all = Filesystems::new();
    all.register(Filesystem::new("tmpfs"));
    all.register(Filesystem::new("ramfs"));
    assert_eq!(all.index_of("ramfs"), Some(1));
    assert_eq!(all.index_of("ext2"), None);
    all.mount_root("ramfs", 0u32, &RamFsType).unwrap();
    let sb = all.last_super_mut(1);
    assert_eq!(sb.root().id, Identifier(1));
    assert!(sb.is_cached(Identifier(1)));
    assert!(!sb.is_cached(Identifier(2)));
}

#[test]
fn user_whence_decodes_in_the_kernel() {
    assert_eq!(Whence::try_from(UserWhence::Current(4).encode().0), Ok(Whence::Current));
    assert_eq!(Whence::try_from(UserWhence::Start(-4).encode().0), Ok(Whence::Start));
    assert_eq!(Whence::try_from(UserWhence::End(0).encode().0), Ok(Whence::End));
}
