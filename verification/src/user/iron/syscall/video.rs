//! The framebuffer, as the system call library defines it.
pub use crate::user::syscall::video::{FramebufferInfo, ReadInfoError};
