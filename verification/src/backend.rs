//! The polymorphic execution strategy behind a sandbox: every isolation
//! technology implements the same capability set {run, stop, status, id}.

use vstd::prelude::*;
use crate::data::SandboxData;
use crate::errors::BackendError;

verus! {

/// Read-only snapshot of a backend's health. A status query never fails:
/// a backend that cannot answer reports `Unknown` instead of an error.
#[derive(Clone, Copy, Debug, PartialEq, Eq, Structural)]
pub enum SandboxStatus {
    /// The isolation resource is held and active.
    Ready,
    /// No isolation resource is currently active.
    NotReady,
    /// The backend could not determine its own health.
    Unknown,
}

/// One isolation technology's implementation of the sandbox capability set.
/// A backend acquires its resource only in `run`, never earlier; `stop`
/// releases what represents active execution while leaving enough behind
/// for `status` to answer.
pub trait SandboxBackend: Sized {
    /// Whether the backend currently holds its isolation resource.
    spec fn active(&self) -> bool;

    /// The id of the sandbox data this backend was last bound to by `run`.
    spec fn bound_id(&self) -> Seq<char>;

    /// Whether a `run` from this backend value is guaranteed to succeed.
    spec fn run_succeeds(&self) -> bool;

    /// Whether a `stop` from this backend value is guaranteed to succeed.
    spec fn stop_succeeds(&self) -> bool;

    /// The snapshot a `status` query reports for this backend value.
    spec fn spec_status(&self) -> SandboxStatus;

    /// Acquires the isolation resource for the given sandbox identity.
    /// On failure nothing is acquired and the backend is unchanged.
    fn run(&mut self, data: &SandboxData) -> (r: Result<(), BackendError>)
        ensures
            r is Ok ==> final(self).active() && final(self).bound_id() == data@.id,
            r is Err ==> *final(self) == *old(self),
            old(self).run_succeeds() ==> r is Ok,
    ;

    /// Releases the resource that represents active execution. On failure
    /// the backend is unchanged; the identity binding survives a stop.
    fn stop(&mut self) -> (r: Result<(), BackendError>)
        ensures
            r is Ok ==> !final(self).active() && final(self).bound_id() == old(self).bound_id(),
            r is Err ==> *final(self) == *old(self),
            old(self).stop_succeeds() ==> r is Ok,
    ;

    /// Read-only health snapshot; never mutates and never fails.
    fn status(&self) -> (r: SandboxStatus)
        ensures
            r == self.spec_status(),
    ;

    /// The bound sandbox id, for logging and response construction.
    fn id(&self) -> (r: &str)
        ensures
            r@ == self.bound_id(),
    ;
}

} // verus!
