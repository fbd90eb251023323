//! Files and directories, as the system call library defines them.
pub use crate::user::syscall::vfs::{
    CloseError, FileDescriptor, OpenError, ReadError, SeekError, Whence, WriteError,
};
