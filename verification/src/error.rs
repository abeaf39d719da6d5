//! Kernel error codes.

use vstd::prelude::*;

verus! {

/// The largest error number the kernel uses.
pub const MAX_ERRNO: i32 = 4095;

/// Invalid argument.
pub const EINVAL: i32 = -22;

/// Out of memory.
pub const ENOMEM: i32 = -12;

/// Whether `errno` is a negated kernel error number.
pub open spec fn is_errno(errno: i32) -> bool {
    -MAX_ERRNO <= errno && errno < 0
}

/// The code that `Error::from_errno` keeps for `errno`: the number itself when
/// it is one, `EINVAL` otherwise.
pub open spec fn errno_code(errno: i32) -> i32 {
    if is_errno(errno) {
        errno
    } else {
        EINVAL
    }
}

/// A kernel error: a negated error number.
#[derive(Debug, Clone, Copy, PartialEq, Eq, Structural)]
pub struct Error(i32);

impl View for Error {
    type V = i32;

    closed spec fn view(&self) -> i32 {
        self.0
    }
}

impl Error {
    /// The error for a negated error number; a value that is not one becomes
    /// `EINVAL`.
    pub fn from_errno(errno: i32) -> (r: Error)
        ensures
            r@ == errno_code(errno),
    {
        if errno < -MAX_ERRNO || errno >= 0 {
            Error(EINVAL)
        } else {
            Error(errno)
        }
    }

    /// Invalid argument.
    pub fn einval() -> (r: Error)
        ensures
            r@ == EINVAL,
    {
        Error(EINVAL)
    }

    /// Returns the negated error number.
    pub fn to_errno(&self) -> (r: i32)
        ensures
            r == self@,
    {
        self.0
    }
}

/// Turns a status returned by C code into a `Result`: negative values are
/// errors, everything else is success.
pub fn to_result(err: i32) -> (r: Result<(), Error>)
    ensures
        r is Ok <==> err >= 0,
        r matches Err(e) ==> e@ == errno_code(err),
{
    if err < 0 {
        Err(Error::from_errno(err))
    } else {
        Ok(())
    }
}

} // verus!
