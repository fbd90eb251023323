//! The libraries of user programs: the system call interface and the
//! runtime of the programs.
pub mod iron;
pub mod syscall;
