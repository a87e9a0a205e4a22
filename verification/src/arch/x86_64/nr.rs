//! System Call Numbers on x86_64
//!
//! The numbers by which the `syscall` entry of the kernel selects a call.

use vstd::prelude::*;

verus! {

pub const READ: usize = 0;
pub const WRITE: usize = 1;
pub const OPEN: usize = 2;
pub const CLOSE: usize = 3;
pub const LSEEK: usize = 8;
pub const DUP: usize = 32;
pub const DUP2: usize = 33;
pub const GETPID: usize = 39;
pub const FORK: usize = 57;
pub const EXIT: usize = 60;
pub const RESTART_SYSCALL: usize = 219;
pub const READLINKAT: usize = 267;
pub const DUP3: usize = 292;
pub const PIPE2: usize = 293;
pub const MEMFD_CREATE: usize = 319;
pub const COPY_FILE_RANGE: usize = 326;
pub const STATX: usize = 332;

} // verus!
