//! System Call API
//!
//! Typed readings of the words that individual system calls return. The
//! functions here take the return-value of a call that was already made and
//! decode it into the types that the call is documented with.
//!
//! Note that the kernel is particularly good in using any unused bits in input
//! and output values to assign new meaning to. Where a payload does not fit
//! the documented type, the decoding is not defined, and its precondition
//! says so.

use vstd::prelude::*;
use crate::raw::Retval;

verus! {

/// Error Number
///
/// The linux kernel commonly returns error information as an integer code
/// between 1 and 4096. We encode the error numbers as a u16, to better
/// encapsulate their range.
pub type Errno = u16;

/// Task Identifier
///
/// Linux always represents these IDs with an `i32`. The `0` value is used by
/// some syscalls to signal special conditions. For instance `fork(2)` returns
/// 0 in the child process, to distinguish it from the return in the parent
/// process.
pub type Pid = i32;

/// The reading of a call whose payload is a plain word: the payload as it
/// is, or the error number.
pub open spec fn word_outcome(r: Retval) -> Result<usize, Errno> {
    if r.is_error() {
        Err(r.error_code() as Errno)
    } else {
        Ok(r@)
    }
}

/// The reading of `fork(2)`: payload 0 is the return in the new task, any
/// other payload is the identifier of the new task in the calling one.
pub open spec fn fork_outcome(r: Retval) -> Result<Option<Pid>, Errno> {
    if r.is_error() {
        Err(r.error_code() as Errno)
    } else if r@ == 0 {
        Ok(None)
    } else {
        Ok(Some(r@ as Pid))
    }
}

/// Read a return-value whose payload is a plain word
///
/// The error number is narrowed to `Errno` without loss, since it never
/// exceeds 4096.
pub fn word_result(r: Retval) -> (res: Result<usize, Errno>)
    ensures
        res == word_outcome(r),
        r.is_success() ==> res == Ok::<usize, Errno>(r@),
        r.is_error() ==> res is Err && res->Err_0 == usize::MAX - r@ + 1,
{
    match r.to_result() {
        Ok(v) => Ok(v),
        Err(code) => Err(code as Errno),
    }
}

/// Read the return-value of `fork(2)`
///
/// A success payload must be a task identifier, that is, fit `Pid`.
pub fn fork_result(r: Retval) -> (res: Result<Option<Pid>, Errno>)
    requires
        r.is_success() ==> r@ <= i32::MAX,
    ensures
        res == fork_outcome(r),
        r.is_error() ==> res is Err && res->Err_0 == usize::MAX - r@ + 1,
        r.is_success() && r@ == 0 ==> res == Ok::<Option<Pid>, Errno>(None),
        r.is_success() && r@ != 0 ==> res is Ok && res->Ok_0 is Some
            && res->Ok_0->Some_0 == r@,
{
    match r.to_result() {
        Ok(v) => {
            let p: Pid = v as Pid;
            if p == 0 {
                Ok(None)
            } else {
                Ok(Some(p))
            }
        },
        Err(code) => Err(code as Errno),
    }
}

} // verus!
