use vstd::prelude::*;

verus! {

/// Reads the return value of a transfer call (`read`, `write`): a negative
/// value reports an operating system error, any other value a byte count.
pub fn checked_count(ret: isize) -> (r: Option<usize>)
    ensures
        ret < 0 <==> r is None,
        r matches Some(n) ==> n == ret,
{
    if ret < 0 {
        None
    } else {
        Some(ret as usize)
    }
}

/// Reads the return value of a status call (`fcntl`, `forkpty`): a negative
/// value reports an operating system error.
pub fn checked_status(ret: i32) -> (r: bool)
    ensures
        r <==> ret >= 0,
{
    ret >= 0
}

/// Relies on `libc::O_NONBLOCK`: the platform's non-blocking file status flag,
/// a positive constant on every target that libc lists.
#[verifier::external_body]
pub(crate) fn nonblock_flag() -> (r: i32)
    ensures
        r > 0,
{
    libc::O_NONBLOCK
}

} // verus!
