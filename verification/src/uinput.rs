//! What the calls on a uinput device make of the C library's answers.

use vstd::prelude::*;

verus! {

/// Reads the file descriptor of a uinput device, which is 0 where the
/// device has none.
pub fn fd_or_none(fd: i32) -> (r: Option<i32>)
    ensures
        fd == 0 ==> r is None,
        fd != 0 ==> r == Some(fd),
{
    match fd {
        0 => None,
        result => Some(result),
    }
}

} // verus!
