use vstd::prelude::*;

verus! {

/// Raw OS error code on Linux for "bad file descriptor".
pub const ERRNO_BAD_FD: i32 = 9;

/// Raw OS error code on Linux for "interrupted system call".
pub const ERRNO_INTERRUPTED: i32 = 4;

/// Raw OS error code on Linux for "invalid argument".
pub const ERRNO_INVALID_ARGUMENT: i32 = 22;

/// Raw OS error code on Linux for "no lock records available".
pub const ERRNO_NO_LOCK_RECORDS: i32 = 37;

/// Raw OS error code on Linux for "operation would block".
pub const ERRNO_WOULD_BLOCK: i32 = 11;

/// A failure of a lock operation, classified from the raw OS error code
/// that the lock syscall reported. Every code outside the recognized set
/// is carried opaquely in `Other`.
#[derive(Debug, Clone, Copy, PartialEq, Eq, Structural)]
pub enum Error {
    /// The handle is not a valid open file descriptor.
    InvalidFd,
    /// A blocking wait was interrupted by delivery of a signal.
    Interrupted,
    /// The requested locking operation is invalid for this resource.
    InvalidOperation,
    /// The kernel could not allocate lock bookkeeping records.
    OutOfMemory,
    /// A non-blocking request could not be satisfied immediately.
    WouldBlock,
    /// Any other underlying OS error code, carried unchanged.
    Other(i32),
}

impl Error {
    /// The classification of a raw OS error code into the error taxonomy:
    /// each recognized code maps to its named variant, and any other code
    /// falls through to `Other` with the code kept as it was.
    pub open spec fn spec_from_code(code: i32) -> Error {
        if code == ERRNO_BAD_FD {
            Error::InvalidFd
        } else if code == ERRNO_INTERRUPTED {
            Error::Interrupted
        } else if code == ERRNO_INVALID_ARGUMENT {
            Error::InvalidOperation
        } else if code == ERRNO_NO_LOCK_RECORDS {
            Error::OutOfMemory
        } else if code == ERRNO_WOULD_BLOCK {
            Error::WouldBlock
        } else {
            Error::Other(code)
        }
    }
}

impl From<i32> for Error {
    /// Classify the raw OS error code of a failed lock syscall.
    fn from(code: i32) -> (r: Error)
        ensures
            r == Error::spec_from_code(code),
    {
        if code == ERRNO_BAD_FD {
            Error::InvalidFd
        } else if code == ERRNO_INTERRUPTED {
            Error::Interrupted
        } else if code == ERRNO_INVALID_ARGUMENT {
            Error::InvalidOperation
        } else if code == ERRNO_NO_LOCK_RECORDS {
            Error::OutOfMemory
        } else if code == ERRNO_WOULD_BLOCK {
            Error::WouldBlock
        } else {
            Error::Other(code)
        }
    }
}

impl vstd::std_specs::convert::FromSpecImpl<i32> for Error {
    open spec fn obeys_from_spec() -> bool {
        true
    }

    open spec fn from_spec(code: i32) -> Error {
        Error::spec_from_code(code)
    }
}

} // verus!
