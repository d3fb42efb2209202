//! An advisory whole-file lock guard over an open file-descriptor-backed
//! resource. A guard is created only by a successful lock request, owns the
//! resource for as long as it lives, and releases the lock when it is either
//! explicitly unlocked (handing the resource back) or dropped.

use std::io::Write;
use vstd::prelude::*;

pub mod error;
mod sys;

pub use error::Error;

verus! {

/// Which advisory lock mode is requested from the operating system.
pub enum LockType {
    /// At most one holder; excludes both shared and exclusive requests.
    Exclusive,
    /// Any number of concurrent holders; excludes exclusive requests.
    Shared,
}

/// A resource that exposes the raw OS file descriptor on which the advisory
/// lock is taken. Callers implement this for their own handle-bearing types.
pub trait RawHandle {
    /// The raw OS file descriptor of this resource.
    fn as_raw_fd(&self) -> i32;
}

/// A guard that witnesses a held advisory lock. While a `FdLock` value is
/// live it exclusively owns the wrapped resource, and the lock taken at
/// construction is still held on that resource's descriptor.
pub struct FdLock<F: RawHandle> {
    res: Option<F>,
}

impl<F: RawHandle> FdLock<F> {
    /// The guard is live: it still holds the locked resource. Every guard
    /// that a caller can obtain is live; the slot empties only at the moment
    /// the resource is handed back or the guard is destroyed.
    pub closed spec fn wf(&self) -> bool {
        self.res is Some
    }

    /// The resource this guard owns.
    pub closed spec fn resource(&self) -> F {
        self.res->Some_0
    }

    /// Request an advisory lock on `f`'s descriptor and, on success, wrap
    /// `f` in a guard that owns it. The request mode is derived from
    /// `lock_type` and `blocking`; a blocking request waits until the lock
    /// is granted or a signal interrupts the wait, a non-blocking request
    /// fails with `WouldBlock` when the lock is unavailable. A blocking
    /// request never fails with `WouldBlock`. On failure the resource is
    /// dropped and the OS error code is classified into the error taxonomy.
    pub fn lock(f: F, lock_type: LockType, blocking: bool) -> (r: Result<FdLock<F>, Error>)
        ensures
            r is Ok ==> r->Ok_0.wf() && r->Ok_0.resource() == f,
            r is Err ==> exists|code: i32| r->Err_0 == Error::spec_from_code(code),
            r is Err && blocking ==> !(r->Err_0 is WouldBlock),
    {
        let fd = f.as_raw_fd();
        let outcome = match lock_type {
            LockType::Exclusive => if blocking {
                sys::flock_exclusive(fd)
            } else {
                sys::flock_exclusive_nonblock(fd)
            },
            LockType::Shared => if blocking {
                sys::flock_shared(fd)
            } else {
                sys::flock_shared_nonblock(fd)
            },
        };
        match outcome {
            Ok(()) => Ok(FdLock { res: Some(f) }),
            Err(code) => Err(Error::from(code)),
        }
    }

    /// Rewrap the owned resource into a different handle-bearing type while
    /// the lock stays held: the OS lock is tied to the descriptor's identity,
    /// not to the wrapper, so no lock request is re-issued. The caller's
    /// `map_fn` must keep the underlying locked resource's identity intact.
    pub fn map<Func: FnOnce(F) -> F_, F_: RawHandle>(self, map_fn: Func) -> (r: FdLock<F_>)
        requires
            self.wf(),
            call_requires(map_fn, (self.resource(),)),
        ensures
            r.wf(),
            call_ensures(map_fn, (self.resource(),), r.resource()),
    {
        let mut this = self;
        let f = this.res.take().unwrap();
        FdLock { res: Some(map_fn(f)) }
    }

    /// Release the lock and hand the resource back. On success the guard is
    /// consumed and the very resource given to `lock` is returned. On failure
    /// the guard comes back intact — still live, still owning the same
    /// resource — together with the classified error, so the caller may retry
    /// or fall back on the release at destruction. Blocking semantics mirror
    /// acquisition: a blocking release never fails with `WouldBlock`.
    pub fn unlock(self, blocking: bool) -> (r: Result<F, (FdLock<F>, Error)>)
        requires
            self.wf(),
        ensures
            r is Ok ==> r->Ok_0 == self.resource(),
            r is Err ==> r->Err_0.0.wf() && r->Err_0.0.resource() == self.resource(),
            r is Err ==> exists|code: i32| r->Err_0.1 == Error::spec_from_code(code),
            r is Err && blocking ==> !(r->Err_0.1 is WouldBlock),
    {
        let mut this = self;
        let fd = match &this.res {
            Some(f) => f.as_raw_fd(),
            None => unreached(),
        };
        let outcome = if blocking {
            sys::flock_unlock(fd)
        } else {
            sys::flock_unlock_nonblock(fd)
        };
        match outcome {
            Ok(()) => Ok(this.res.take().unwrap()),
            Err(code) => Err((this, Error::from(code))),
        }
    }

    /// Transparent read access to the wrapped resource while the guard lives.
    pub fn get(&self) -> (r: &F)
        requires
            self.wf(),
        ensures
            *r == self.resource(),
    {
        match &self.res {
            Some(f) => f,
            None => unreached(),
        }
    }

    /// Transparent write access to the wrapped resource while the guard
    /// lives. The guard stays live and afterwards owns whatever the caller
    /// left behind the returned reference.
    pub fn get_mut(&mut self) -> (r: &mut F)
        requires
            old(self).wf(),
        ensures
            *r == old(self).resource(),
            final(self).wf(),
            final(self).resource() == *final(r),
    {
        match &mut self.res {
            Some(f) => f,
            None => unreached(),
        }
    }
}

impl<F: RawHandle> Drop for FdLock<F> {
    /// Relies on nix::fcntl::flock with FlockArg::Unlock: best-effort release
    /// of the advisory lock when a live guard goes out of scope without an
    /// explicit unlock. There is no caller left to receive an error here, and
    /// a destructor may not unwind, so a failed release — an unrecoverable
    /// condition, since a stuck lock endangers other processes — is surfaced
    /// as a fatal log on stderr and the resource is then discarded.
    #[verifier::external_body]
    fn drop(&mut self)
        opens_invariants none
        no_unwind
    {
        if let Some(f) = self.res.take() {
            if let Err(e) = nix::fcntl::flock(f.as_raw_fd(), nix::fcntl::FlockArg::Unlock) {
                let _ = writeln!(
                    std::io::stderr(),
                    "fatal: advisory lock release failed in guard destructor: {}",
                    e,
                );
            }
        }
    }
}

/// Law: releasing a guard round-trips the resource. If a guard `g` was built
/// around the resource `f` — as every guard returned by `lock` is — and a
/// successful `unlock` handed back `out` — which by its contract is the
/// guard's resource — then `out` is `f` itself, unchanged.
pub proof fn lemma_lock_unlock_round_trip<F: RawHandle>(f: F, g: FdLock<F>, out: F)
    requires
        g.wf(),
        g.resource() == f,
        out == g.resource(),
    ensures
        out == f,
{
}

} // verus!
