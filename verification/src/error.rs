//! The typed failures of the socket operations, and the convention that
//! turns a raw system-call return value into such a failure.

use vstd::prelude::*;

verus! {

/// The error number of a system call interrupted by a signal, `EINTR`.
pub const EINTR: i32 = 4;

/// A failure of a socket operation, carrying the OS error code.
#[derive(Clone, Copy, Debug, PartialEq, Eq, Structural)]
pub enum IcmpError {
    /// The raw-socket allocation was refused, typically for want of the
    /// raw-socket privilege or because the family and protocol pair is
    /// not supported.
    SocketCreationError(i32),
    /// Any other system-call failure on an already constructed socket.
    IoError(i32),
}

impl IcmpError {
    /// The OS error code the failure carries.
    pub open spec fn spec_code(self) -> i32 {
        match self {
            IcmpError::SocketCreationError(code) => code,
            IcmpError::IoError(code) => code,
        }
    }

    /// Returns the OS error code the failure carries.
    pub fn code(&self) -> (c: i32)
        ensures
            c == self.spec_code(),
    {
        match self {
            IcmpError::SocketCreationError(code) => *code,
            IcmpError::IoError(code) => *code,
        }
    }
}

/// Translates a raw system-call return value into a typed result: a
/// nonnegative return is the call's count, a negative one an I/O failure
/// carrying the OS error code that accompanied it.
pub fn cvt(ret: isize, errno: i32) -> (r: Result<usize, IcmpError>)
    ensures
        ret >= 0 ==> r == Ok::<usize, IcmpError>(ret as usize),
        ret < 0 ==> r == Err::<usize, IcmpError>(IcmpError::IoError(errno)),
{
    if ret >= 0 {
        Ok(ret as usize)
    } else {
        Err(IcmpError::IoError(errno))
    }
}

} // verus!
