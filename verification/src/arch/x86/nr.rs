//! System Call Numbers on x86
//!
//! The numbers by which the `int $0x80` entry of the kernel selects a call.

use vstd::prelude::*;

verus! {

pub const RESTART_SYSCALL: usize = 0;
pub const EXIT: usize = 1;
pub const FORK: usize = 2;
pub const READ: usize = 3;
pub const WRITE: usize = 4;
pub const OPEN: usize = 5;
pub const CLOSE: usize = 6;
pub const LSEEK: usize = 19;
pub const GETPID: usize = 20;
pub const DUP: usize = 41;
pub const DUP2: usize = 63;
pub const READLINKAT: usize = 305;
pub const DUP3: usize = 330;
pub const PIPE2: usize = 331;
pub const MEMFD_CREATE: usize = 356;
pub const COPY_FILE_RANGE: usize = 377;
pub const STATX: usize = 383;

} // verus!
