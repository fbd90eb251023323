pub mod address;
pub mod user;
pub mod vfs;
pub mod x86_64;
