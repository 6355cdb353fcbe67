//! Errors of the library.

use vstd::prelude::*;

verus! {

/// An error of a request: rejected before any system call, or by the kernel.
#[derive(Debug, Clone, Copy, PartialEq, Eq, Structural)]
pub enum Error {
    /// A value the caller supplied cannot be represented in the call.
    InvalidInput,
    /// The kernel rejected the request; the `errno` it reported.
    Os(i32),
}

/// The result of a call that reports success with zero and failure with
/// another value and `errno`.
pub open spec fn status_spec(ret: i32, errno: i32) -> Result<(), Error> {
    if ret == 0 {
        Ok(())
    } else {
        Err(Error::Os(errno))
    }
}

/// Interprets the status of a call that returns zero on success.
pub fn check_status(ret: i32, errno: i32) -> (r: Result<(), Error>)
    ensures
        r == status_spec(ret, errno),
{
    if ret == 0 {
        Ok(())
    } else {
        Err(Error::Os(errno))
    }
}

impl Error {
    /// The `errno` of an error the kernel reported.
    pub fn raw_os_error(&self) -> (r: Option<i32>)
        ensures
            r == (match *self {
                Error::Os(e) => Some(e),
                Error::InvalidInput => None,
            }),
    {
        match *self {
            Error::Os(e) => Some(e),
            Error::InvalidInput => None,
        }
    }
}

} // verus!
