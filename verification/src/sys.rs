//! What this crate takes on trust from `libc`: the wait-status macros and two
//! constants, as `libc` defines them for Linux-like targets.

use vstd::prelude::*;

verus! {

/// `libc::WIFEXITED`: true exactly when the low seven bits of the status word
/// are all clear.
pub assume_specification[ libc::WIFEXITED ](wstatus: libc::c_int) -> (r: bool)
    ensures
        r == ((wstatus & 0x7f) == 0),
;

/// `libc::WEXITSTATUS`: the second byte of the status word.
pub assume_specification[ libc::WEXITSTATUS ](wstatus: libc::c_int) -> (r: libc::c_int)
    ensures
        r == ((wstatus >> 8) & 0xff),
;

/// `libc::WIFSIGNALED`: the low seven bits of the status word, plus one, cut
/// to a signed byte, are at least two.
pub assume_specification[ libc::WIFSIGNALED ](wstatus: libc::c_int) -> (r: bool)
    ensures
        r == ((((wstatus & 0x7f) + 1) as i8) >= 2),
;

/// `libc::WTERMSIG`: the low seven bits of the status word.
pub assume_specification[ libc::WTERMSIG ](wstatus: libc::c_int) -> (r: libc::c_int)
    ensures
        r == (wstatus & 0x7f),
;

/// `libc::WIFSTOPPED`: true exactly when the low byte of the status word is
/// `0x7f`.
pub assume_specification[ libc::WIFSTOPPED ](wstatus: libc::c_int) -> (r: bool)
    ensures
        r == ((wstatus & 0xff) == 0x7f),
;

/// `libc::WSTOPSIG`: the second byte of the status word.
pub assume_specification[ libc::WSTOPSIG ](wstatus: libc::c_int) -> (r: libc::c_int)
    ensures
        r == ((wstatus >> 8) & 0xff),
;

/// `libc::WNOHANG`, the option that makes `waitpid` return at once: the
/// constant 1.
#[verifier::external_body]
pub(crate) fn wnohang() -> (r: i32)
    ensures
        r == 1,
{
    libc::WNOHANG
}

/// `libc::STDOUT_FILENO`, the descriptor of standard output: the constant 1.
#[verifier::external_body]
pub(crate) fn stdout_fileno() -> (r: i32)
    ensures
        r == 1,
{
    libc::STDOUT_FILENO
}

} // verus!
