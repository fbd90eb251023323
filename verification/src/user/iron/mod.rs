//! The runtime of user programs: process exit codes, sleeping, and the
//! system calls as the programs see them.
use vstd::prelude::*;

pub mod allocator;
pub mod process;
pub mod serial;
pub mod syscall;
pub mod task;

verus! {

/// Initializes the runtime of a program. There is nothing to do yet.
pub fn init() {
}

} // verus!
