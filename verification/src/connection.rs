//! The mutually-exclusive slot holding at most one established backend
//! connection.
//!
//! The slot starts empty; emptiness means "not yet initialized" and is
//! a normal intermediate state. Every access to the slot's contents
//! runs under the cell's lock, through a caller-supplied closure, so at
//! most one interaction can touch the live connection at any instant.
//! A poisoned lock — a prior holder panicked mid-access — is reported,
//! never silently ignored.

use vstd::prelude::*;

use crate::error::Error;
use crate::error::ErrorKind;
use crate::locked_connection::Connection as BackendConnection;
use crate::result::DbResult;

verus! {

/// A mutual-exclusion lock around an optional backend connection.
#[verifier::external_body]
#[verifier::reject_recursive_types(M)]
#[verifier::reject_recursive_types(P)]
#[verifier::reject_recursive_types(S)]
pub struct Connection<M, P, S> {
    inner: std::sync::Mutex<Option<BackendConnection<M, P, S>>>,
}

/// What one probe of the slot hands back: the contents, put back
/// unchanged, and whether they were present.
type ProbeStep<M, P, S> = (Option<BackendConnection<M, P, S>>, bool);

impl<M, P, S> Connection<M, P, S> {
    /// Relies on `std::sync::Mutex::new`: makes a cell holding
    /// `connection`, unlocked and unpoisoned.
    #[verifier::external_body]
    pub fn new(connection: Option<BackendConnection<M, P, S>>) -> Self {
        Connection { inner: std::sync::Mutex::new(connection) }
    }

    /// Runs `f` on the slot's contents under the cell's lock: the
    /// contents are handed to `f`, and the slot is refilled with
    /// whatever `f` returns beside its result. Blocks until exclusive
    /// access is granted.
    ///
    /// Relies on `std::sync::Mutex::lock`: no other holder of the lock
    /// runs while `f` does, and a poisoned lock — a prior holder
    /// panicked mid-access — is reported as `Err` carrying the poison
    /// text, with `f` never called.
    ///
    /// Two boundary notes. A closure that locks the same cell again
    /// re-enters the lock, which may deadlock or panic (so documented
    /// for the underlying lock); no caller in this crate hands such a
    /// closure in. And if an unverified caller passes a closure that
    /// panics, the slot's contents are lost — they were taken out
    /// before the call — in addition to the lock being poisoned.
    #[verifier::external_body]
    pub fn lock<T, F: FnOnce(Option<BackendConnection<M, P, S>>) -> (
        Option<BackendConnection<M, P, S>>,
        T,
    )>(&self, f: F) -> (r: Result<T, String>)
        requires
            forall|v: Option<BackendConnection<M, P, S>>| #[trigger] call_requires(f, (v,)),
        ensures
            r matches Ok(t) ==> exists|
                v0: Option<BackendConnection<M, P, S>>,
                v1: Option<BackendConnection<M, P, S>>,
            | call_ensures(f, (v0,), (v1, t)),
    {
        match self.inner.lock() {
            Ok(mut guard) => {
                let v0 = guard.take();
                let (v1, t) = f(v0);
                *guard = v1;
                Ok(t)
            },
            Err(e) => Err(format!("{}", e)),
        }
    }

    /// Reports whether a connection is present, without establishing
    /// one. Acquires the lock, reads, releases. Fails with kind
    /// `Other` when the lock is poisoned.
    pub fn initialized(&self) -> (r: DbResult<bool>)
        ensures
            r matches Err(e) ==> e.spec_kind() == ErrorKind::Other,
    {
        let probe_step = (|v: Option<BackendConnection<M, P, S>>| -> (out: ProbeStep<M, P, S>)
            ensures
                out == (v, v.is_some()),
            {
                let present = v.is_some();
                (v, present)
            });
        let probe = self.lock(probe_step);
        match probe {
            Ok(present) => Ok(present),
            Err(msg) => Err(Error::new(ErrorKind::Other, msg.as_str())),
        }
    }
}

impl<M, P, S> Default for Connection<M, P, S> {
    /// An empty cell: no connection has been established yet.
    fn default() -> Self {
        Connection::new(None)
    }
}

} // verus!
