use vstd::prelude::*;

verus! {

use crate::error::ERRNO_WOULD_BLOCK;

/// Relies on nix::fcntl::flock with FlockArg::LockExclusive: requests an
/// exclusive advisory lock on `fd`, waiting until it can be granted. On
/// failure, returns the raw value of the `Errno` that nix reported; per
/// flock(2), the would-block code is reported only for non-blocking
/// requests, which this is not.
#[verifier::external_body]
pub(crate) fn flock_exclusive(fd: i32) -> (r: Result<(), i32>)
    ensures
        r is Err ==> r->Err_0 != ERRNO_WOULD_BLOCK,
{
    match nix::fcntl::flock(fd, nix::fcntl::FlockArg::LockExclusive) {
        Ok(()) => Ok(()),
        Err(e) => Err(e as i32),
    }
}

/// Relies on nix::fcntl::flock with FlockArg::LockExclusiveNonblock:
/// requests an exclusive advisory lock on `fd` without waiting. On
/// failure, returns the raw value of the `Errno` that nix reported.
#[verifier::external_body]
pub(crate) fn flock_exclusive_nonblock(fd: i32) -> (r: Result<(), i32>) {
    match nix::fcntl::flock(fd, nix::fcntl::FlockArg::LockExclusiveNonblock) {
        Ok(()) => Ok(()),
        Err(e) => Err(e as i32),
    }
}

/// Relies on nix::fcntl::flock with FlockArg::LockShared: requests a
/// shared advisory lock on `fd`, waiting until it can be granted. On
/// failure, returns the raw value of the `Errno` that nix reported; per
/// flock(2), the would-block code is reported only for non-blocking
/// requests, which this is not.
#[verifier::external_body]
pub(crate) fn flock_shared(fd: i32) -> (r: Result<(), i32>)
    ensures
        r is Err ==> r->Err_0 != ERRNO_WOULD_BLOCK,
{
    match nix::fcntl::flock(fd, nix::fcntl::FlockArg::LockShared) {
        Ok(()) => Ok(()),
        Err(e) => Err(e as i32),
    }
}

/// Relies on nix::fcntl::flock with FlockArg::LockSharedNonblock:
/// requests a shared advisory lock on `fd` without waiting. On failure,
/// returns the raw value of the `Errno` that nix reported.
#[verifier::external_body]
pub(crate) fn flock_shared_nonblock(fd: i32) -> (r: Result<(), i32>) {
    match nix::fcntl::flock(fd, nix::fcntl::FlockArg::LockSharedNonblock) {
        Ok(()) => Ok(()),
        Err(e) => Err(e as i32),
    }
}

/// Relies on nix::fcntl::flock with FlockArg::Unlock: releases the
/// advisory lock held on `fd`, waiting if the release is contended. On
/// failure, returns the raw value of the `Errno` that nix reported; per
/// flock(2), the would-block code is reported only for non-blocking
/// requests, which this is not.
#[verifier::external_body]
pub(crate) fn flock_unlock(fd: i32) -> (r: Result<(), i32>)
    ensures
        r is Err ==> r->Err_0 != ERRNO_WOULD_BLOCK,
{
    match nix::fcntl::flock(fd, nix::fcntl::FlockArg::Unlock) {
        Ok(()) => Ok(()),
        Err(e) => Err(e as i32),
    }
}

/// Relies on nix::fcntl::flock with FlockArg::UnlockNonblock: releases
/// the advisory lock held on `fd` without waiting. On failure, returns
/// the raw value of the `Errno` that nix reported.
#[verifier::external_body]
pub(crate) fn flock_unlock_nonblock(fd: i32) -> (r: Result<(), i32>) {
    match nix::fcntl::flock(fd, nix::fcntl::FlockArg::UnlockNonblock) {
        Ok(()) => Ok(()),
        Err(e) => Err(e as i32),
    }
}

} // verus!
