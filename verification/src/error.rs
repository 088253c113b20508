//! What can go wrong while a process is launched.

use vstd::prelude::*;

verus! {

/// A failure to launch or to control a process.
#[derive(Clone, Copy, Debug, PartialEq, Eq, Structural)]
pub enum Error {
    /// A system call failed with this error code.
    Os(i32),
    /// The child could not run the program; it reported this error code
    /// through the error channel.
    ExecFailed(i32),
    /// The error channel was closed in the middle of a message. This cannot
    /// happen unless the child is broken, and is never recovered from.
    ProtocolViolation,
    /// The program was started but did not announce what it was expected
    /// to announce.
    EmptyResult,
}

impl Error {
    /// The error code of the operating system that this error carries.
    pub open spec fn code(self) -> Option<i32> {
        match self {
            Error::Os(code) => Some(code),
            Error::ExecFailed(code) => Some(code),
            Error::ProtocolViolation => None,
            Error::EmptyResult => None,
        }
    }

    /// The error code of the operating system that this error carries, if
    /// it came from the operating system.
    pub fn raw_os_error(&self) -> (code: Option<i32>)
        ensures
            code == self.code(),
    {
        match self {
            Error::Os(code) => Some(*code),
            Error::ExecFailed(code) => Some(*code),
            Error::ProtocolViolation => None,
            Error::EmptyResult => None,
        }
    }
}

/// The result of a system call that returns -1 on failure: the value it
/// returned, or the error code that it left behind.
pub open spec fn checked(ret: i32, errno: i32) -> Result<i32, Error> {
    if ret == -1 {
        Err(Error::Os(errno))
    } else {
        Ok(ret)
    }
}

/// Turns what a system call returned, and the error code that was current
/// when it returned, into a result. Only -1 reports a failure.
pub fn check(ret: i32, errno: i32) -> (r: Result<i32, Error>)
    ensures
        r == checked(ret, errno),
{
    if ret == -1 {
        Err(Error::Os(errno))
    } else {
        Ok(ret)
    }
}

} // verus!
