use helium::user::iron::allocator::{heap_size, MINIMUM_HEAP_SIZE};
use helium::user::iron::process::{ExitCode, Termination};
use helium::user::iron::syscall::mmu::{map_result, unmap_result};
use helium::user::iron::syscall::task::{spawn_result, Identifier, SpawnError};
use helium::user::iron::syscall::Errno as IronErrno;
use helium::user::iron::task::sleep_nanos;
use helium::user::syscall::clock::{get_time_result, GetTimeError, Timespec};
use helium::user::syscall::mmu::{self, MapError, UnmapError};
use helium::user::syscall::serial;
use helium::user::syscall::video::{framebuffer_info_result, FramebufferInfo, ReadInfoError};
use helium::user::syscall::vfs::{
    self, ChangeCwdError, CloseError, Dirent, GetCwdError, MkdirError, OpenError, ReadError, ReaddirError,
    RmdirError, SeekError, Stat, TruncateError, UnlinkError, Whence, WriteError,
};
use helium::user::syscall::{syscall_return, Errno, Syscall};

/// The value a system call returns for the error number `n`.
fn err(n: usize) -> usize {
    usize::MAX - n + 1
}

#[test]
fn syscall_return_splits_results_and_errors() {
    assert_eq!(syscall_return(0), Ok(0));
    assert_eq!(syscall_return(42), Ok(42));
    let e = syscall_return(err(1)).unwrap_err();
    assert_eq!(e.code(), -1);
    assert_eq!(e.number(), 1);
    let e = syscall_return(err(4095)).unwrap_err();
    assert_eq!(e.code(), -4095);
    // Just below the error range: a result.
    assert_eq!(syscall_return(err(4096)), Ok(err(4096)));
}

#[test]
fn errno_validity() {
    assert!(Errno::valid(-1));
    assert!(Errno::valid(-4095));
    assert!(!Errno::valid(0));
    assert!(!Errno::valid(-4096));
    assert!(!Errno::valid(5));
}

#[test]
fn error_numbers_map_to_variants() {
    assert_eq!(OpenError::from(syscall_return(err(1)).unwrap_err()), OpenError::NoSuchSyscall);
    assert_eq!(OpenError::from(syscall_return(err(5)).unwrap_err()), OpenError::NoSuchFile);
    assert_eq!(OpenError::from(syscall_return(err(11)).unwrap_err()), OpenError::TooManyFilesOpen);
    assert_eq!(OpenError::from(syscall_return(err(12)).unwrap_err()), OpenError::UnknownError);
    assert_eq!(OpenError::from(syscall_return(err(4000)).unwrap_err()), OpenError::UnknownError);
    assert_eq!(CloseError::from(syscall_return(err(2)).unwrap_err()), CloseError::InvalidFileDescriptor);
    assert_eq!(CloseError::from(syscall_return(err(3)).unwrap_err()), CloseError::UnknownError);
    assert_eq!(RmdirError::from(syscall_return(err(9)).unwrap_err()), RmdirError::NotEmpty);
    assert_eq!(UnlinkError::from(syscall_return(err(9)).unwrap_err()), UnlinkError::IsADirectory);
    assert_eq!(MapError::from(syscall_return(err(5)).unwrap_err()), MapError::WouldOverlap);
    assert_eq!(UnmapError::from(syscall_return(err(2)).unwrap_err()), UnmapError::InvalidRange);
    assert_eq!(GetTimeError::from(syscall_return(err(2)).unwrap_err()), GetTimeError::BadAddress);
    assert_eq!(ReadInfoError::from(syscall_return(err(3)).unwrap_err()), ReadInfoError::UnknownError);
    assert_eq!(SpawnError::from(syscall_return(err(4)).unwrap_err()), SpawnError::InvalidElf);
}

#[test]
fn vfs_call_results() {
    assert!(matches!(vfs::open_result(err(8)), Err(OpenError::IoError)));
    let fd = vfs::open_result(3).unwrap();
    assert_eq!(fd.raw(), 3);
    assert_eq!(vfs::close_result(0), Ok(()));
    assert_eq!(vfs::close_result(err(2)), Err(CloseError::InvalidFileDescriptor));
    assert_eq!(vfs::read_result(10), Ok(10));
    assert_eq!(vfs::read_result(err(6)), Err(ReadError::BrokenPipe));
    assert_eq!(vfs::write_result(err(5)), Err(WriteError::NotWritable));
    assert_eq!(vfs::seek_result(err(6)), Err(SeekError::Overflow));
    assert_eq!(vfs::get_cwd_result(err(3)), Err(GetCwdError::BufferTooSmall));
    assert_eq!(vfs::change_cwd_result(err(8)), Err(ChangeCwdError::NotADirectory));
    assert_eq!(vfs::mkdir_result(err(8)), Err(MkdirError::AlreadyExists));
    assert_eq!(vfs::rmdir_result(0), Ok(()));
    assert_eq!(vfs::truncate_result(err(9)), Err(TruncateError::NotAFile));
    assert_eq!(vfs::unlink_result(err(6)), Err(UnlinkError::ComponentNotADirectory));
    let stat = Stat::zeroed();
    assert_eq!(vfs::stat_result(0, stat), Ok(stat));
    assert_eq!(vfs::stat_result(err(7), stat), Err(TruncateError::NoSuchEntry));
    let dirent = Dirent { ino: 4, kind: Dirent::DIRECTORY, name_len: 1, name: [b'a'; 256] };
    assert_eq!(vfs::readdir_result(0, dirent).unwrap().ino, 4);
    assert!(matches!(vfs::readdir_result(err(6), dirent), Err(ReaddirError::EndOfDirectory)));
}

#[test]
fn other_call_results() {
    let t = Timespec { seconds: 5, nanoseconds: 6 };
    assert_eq!(get_time_result(0, t), Ok(t));
    assert_eq!(get_time_result(err(1), t), Err(GetTimeError::NoSuchSyscall));
    let info = FramebufferInfo { height: 600, width: 800, bpp: 32 };
    assert_eq!(framebuffer_info_result(0, info), Ok(info));
    assert_eq!(mmu::map_result(0x4000), Ok(0x4000));
    assert_eq!(mmu::map_result(err(6)), Err(MapError::OutOfMemory));
    assert_eq!(mmu::unmap_result(err(1)), Err(UnmapError::NoSuchSyscall));
    assert_eq!(serial::write_result(3), Ok(3));
    assert_eq!(serial::write_result(err(2)), Err(serial::WriteError::NoSerialPort));
    assert_eq!(serial::read_result(err(3)), Err(serial::ReadError::BadAddress));
}

#[test]
fn whence_encoding() {
    assert_eq!(Whence::Current(-5).encode(), (0, -5));
    assert_eq!(Whence::Start(7).encode(), (1, 7));
    assert_eq!(Whence::End(0).encode(), (2, 0));
}

#[test]
fn syscall_numbers() {
    assert_eq!(Syscall::TaskExit.number(), 0);
    assert_eq!(Syscall::VfsOpen.number(), 10);
    assert_eq!(Syscall::ClockGetTime.number(), 17);
    assert_eq!(Syscall::VfsReaddir.number(), 23);
}

#[test]
fn iron_errno() {
    assert_eq!(IronErrno::from(5usize), IronErrno::BadAddress);
    assert_eq!(IronErrno::from(0usize), IronErrno::Unknown);
    assert_eq!(IronErrno::from(9usize), IronErrno::Unknown);
    assert!(IronErrno::syscall_error(usize::MAX));
    assert!(IronErrno::syscall_error(usize::MAX - 4095));
    assert!(!IronErrno::syscall_error(usize::MAX - 4096));
    assert_eq!(IronErrno::from_syscall_return(usize::MAX - 6), Some(IronErrno::OutOfMemory));
    assert_eq!(IronErrno::from_syscall_return(12), None);
    assert_eq!(map_result(0x1000), Ok(0x1000));
    assert_eq!(map_result(usize::MAX - 7), Err(IronErrno::AlreadyExists));
    assert_eq!(unmap_result(usize::MAX), Err(IronErrno::NoSuchSyscall));
    assert_eq!(spawn_result(7), Ok(Identifier(7)));
    assert_eq!(spawn_result(err(3)), Err(SpawnError::IoError));
}

#[test]
fn exit_codes_and_termination() {
    assert_eq!(ExitCode::success().to_i32(), 0);
    assert_eq!(ExitCode::failure().to_i32(), 1);
    assert_eq!(ExitCode::from(7u8).to_i32(), 7);
    assert_eq!(().report().to_i32(), 0);
    assert_eq!(ExitCode::from(3u8).report().to_i32(), 3);
    let ok: Result<ExitCode, ()> = Ok(ExitCode::from(4u8));
    assert_eq!(ok.report().to_i32(), 4);
    let bad: Result<(), u32> = Err(9);
    assert_eq!(bad.report().to_i32(), 1);
}

#[test]
fn runtime_helpers() {
    assert_eq!(sleep_nanos(3), 3_000_000_000);
    assert_eq!(heap_size(1), MINIMUM_HEAP_SIZE);
    assert_eq!(heap_size(1024 * 1024), 2 * 1024 * 1024);
    assert_eq!(heap_size(600 * 1024 + 1), 2 * (600 * 1024 + 4096));
    let mut buf = [1u8; 4];
    assert_eq!(helium::user::iron::serial::read(&mut buf), 0);
    assert_eq!(helium::user::iron::serial::written(b"abc"), 3);
    helium::user::iron::init();
}
