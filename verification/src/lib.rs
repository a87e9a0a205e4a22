//! Linux Kernel System Calls
//!
//! The kernel answers every system call with one machine word. The top 4096
//! values of the word range are reserved for error codes; every other value
//! is a success payload. This crate holds that convention as verified code:
//! the wrapper type [`raw::Retval`] with its classification and accessors,
//! the call numbers of each supported architecture, and the decoding of the
//! calls that have a typed result.
//!
//! Entering the kernel takes inline assembly and is not part of this crate.
//! Whoever makes the call hands the returned word to
//! [`raw::Retval::from_usize`].

pub mod api;
pub mod arch;
pub mod raw;
