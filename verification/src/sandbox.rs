//! The runtime sandbox entity — validated data, one backend, and the
//! lifecycle state machine Created → Running → Stopped → Removed — and the
//! builder that composes it without touching any OS-level resource.

use vstd::prelude::*;
use crate::backend::{SandboxBackend, SandboxStatus};
use crate::data::{SandboxData, SandboxDataView};
use crate::errors::{SandboxError, ValidationError};
use crate::is_blank;

verus! {

/// Lifecycle position of a sandbox. Legal transitions: Created → Running
/// (run), Running → Stopped (stop), and Created/Running/Stopped → Removed
/// (remove); removal does not require a stop first. Nothing leaves Removed.
#[derive(Clone, Copy, Debug, PartialEq, Eq, Structural)]
pub enum SandboxState {
    Created,
    Running,
    Stopped,
    Removed,
}

/// Mathematical image of a [`Sandbox`]: its data record, its backend value,
/// and its lifecycle state.
pub struct SandboxView<B> {
    pub data: SandboxDataView,
    pub backend: B,
    pub state: SandboxState,
}

/// One sandbox: sole owner of its data record and of exactly one backend,
/// chosen at construction and never swapped.
#[derive(Debug)]
pub struct Sandbox<B: SandboxBackend> {
    data: SandboxData,
    backend: B,
    state: SandboxState,
}

impl<B: SandboxBackend> View for Sandbox<B> {
    type V = SandboxView<B>;

    closed spec fn view(&self) -> SandboxView<B> {
        SandboxView { data: self.data@, backend: self.backend, state: self.state }
    }
}

impl<B: SandboxBackend> Sandbox<B> {
    /// Acquires the isolation resource and enters Running. Legal only from
    /// Created; from any other state nothing changes and the call reports
    /// `InvalidState`. A backend failure leaves the sandbox in Created with
    /// no resource acquired.
    pub fn run(&mut self) -> (r: Result<(), SandboxError>)
        ensures
            final(self)@.data == old(self)@.data,
            old(self)@.state != SandboxState::Created ==> {
                &&& r == Err::<(), SandboxError>(SandboxError::InvalidState)
                &&& *final(self) == *old(self)
            },
            old(self)@.state == SandboxState::Created ==> {
                &&& (r is Ok ==> {
                    &&& final(self)@.state == SandboxState::Running
                    &&& final(self)@.backend.active()
                    &&& final(self)@.backend.bound_id() == old(self)@.data.id
                })
                &&& (r is Err ==> {
                    &&& *final(self) == *old(self)
                    &&& r->Err_0 is Backend
                })
                &&& (old(self)@.backend.run_succeeds() ==> r is Ok)
            },
    {
        match self.state {
            SandboxState::Created => match self.backend.run(&self.data) {
                Ok(()) => {
                    self.state = SandboxState::Running;
                    Ok(())
                },
                Err(e) => Err(SandboxError::Backend(e)),
            },
            _ => Err(SandboxError::InvalidState),
        }
    }

    /// Releases active execution and enters Stopped. Legal only from
    /// Running; from any other state nothing changes and the call reports
    /// `InvalidState`. A backend failure leaves the sandbox Running.
    pub fn stop(&mut self) -> (r: Result<(), SandboxError>)
        ensures
            final(self)@.data == old(self)@.data,
            old(self)@.state != SandboxState::Running ==> {
                &&& r == Err::<(), SandboxError>(SandboxError::InvalidState)
                &&& *final(self) == *old(self)
            },
            old(self)@.state == SandboxState::Running ==> {
                &&& (r is Ok ==> {
                    &&& final(self)@.state == SandboxState::Stopped
                    &&& !final(self)@.backend.active()
                })
                &&& (r is Err ==> {
                    &&& *final(self) == *old(self)
                    &&& r->Err_0 is Backend
                })
                &&& (old(self)@.backend.stop_succeeds() ==> r is Ok)
            },
    {
        match self.state {
            SandboxState::Running => match self.backend.stop() {
                Ok(()) => {
                    self.state = SandboxState::Stopped;
                    Ok(())
                },
                Err(e) => Err(SandboxError::Backend(e)),
            },
            _ => Err(SandboxError::InvalidState),
        }
    }

    /// Best-effort teardown: from Created, Running or Stopped the sandbox
    /// always ends Removed, even if releasing the resource fails — the
    /// failure is reported, never allowed to leave a stuck entity. Only a
    /// second remove is rejected, with `InvalidState` and no change.
    pub fn remove(&mut self) -> (r: Result<(), SandboxError>)
        ensures
            final(self)@.data == old(self)@.data,
            old(self)@.state == SandboxState::Removed ==> {
                &&& r == Err::<(), SandboxError>(SandboxError::InvalidState)
                &&& *final(self) == *old(self)
            },
            old(self)@.state != SandboxState::Removed ==> final(self)@.state == SandboxState::Removed,
            old(self)@.state == SandboxState::Created || old(self)@.state == SandboxState::Stopped ==> {
                &&& r is Ok
                &&& final(self)@.backend == old(self)@.backend
            },
            old(self)@.state == SandboxState::Running ==> {
                &&& (r is Ok ==> !final(self)@.backend.active())
                &&& (r is Err ==> {
                    &&& final(self)@.backend == old(self)@.backend
                    &&& r->Err_0 is Backend
                })
                &&& (old(self)@.backend.stop_succeeds() ==> r is Ok)
            },
    {
        match self.state {
            SandboxState::Removed => Err(SandboxError::InvalidState),
            SandboxState::Running => {
                let res = self.backend.stop();
                self.state = SandboxState::Removed;
                match res {
                    Ok(()) => Ok(()),
                    Err(e) => Err(SandboxError::Backend(e)),
                }
            },
            _ => {
                self.state = SandboxState::Removed;
                Ok(())
            },
        }
    }

    /// Read-only health snapshot, answered by the backend; never fails.
    pub fn status(&self) -> (r: SandboxStatus)
        ensures
            r == self@.backend.spec_status(),
    {
        self.backend.status()
    }

    /// The validated id of this sandbox's data record.
    pub fn id(&self) -> (r: &str)
        ensures
            r@ == self@.data.id,
            !is_blank(r@),
    {
        self.data.id()
    }

    /// The current lifecycle state.
    pub fn state(&self) -> (r: SandboxState)
        ensures
            r == self@.state,
    {
        self.state
    }

    /// The immutable data record.
    pub fn data(&self) -> (r: &SandboxData)
        ensures
            r@ == self@.data,
    {
        &self.data
    }
}

/// Composes a validated data record with a chosen backend into a Sandbox
/// in state Created. Construction is purely in-memory: the backend value
/// is taken over untouched, so no OS-level resource can be acquired before
/// an explicit `run`.
pub struct SandboxBuilder<B: SandboxBackend> {
    pub data: Option<SandboxData>,
    pub backend: Option<B>,
}

impl<B: SandboxBackend> Default for SandboxBuilder<B> {
    /// Starts with neither a data record nor a backend selected.
    fn default() -> (r: Self)
        ensures
            r.data is None,
            r.backend is None,
    {
        SandboxBuilder { data: None, backend: None }
    }
}

impl<B: SandboxBackend> SandboxBuilder<B> {
    pub fn data(self, data: SandboxData) -> (r: Self)
        ensures
            r.data == Some(data),
            r.backend == self.backend,
    {
        SandboxBuilder { data: Some(data), ..self }
    }

    pub fn backend(self, backend: B) -> (r: Self)
        ensures
            r.backend == Some(backend),
            r.data == self.data,
    {
        SandboxBuilder { backend: Some(backend), ..self }
    }

    /// Produces a Sandbox in state Created, holding exactly the supplied
    /// data and exactly the supplied backend value — construction has no
    /// side effect on the backend. Fails, all-or-nothing, when the data
    /// record or the backend selection is absent.
    pub fn build(self) -> (r: Result<Sandbox<B>, ValidationError>)
        ensures
            r is Ok <==> self.data is Some && self.backend is Some,
            self.data is None ==> r is Err && r->Err_0 == ValidationError::MissingData,
            self.data is Some && self.backend is None ==> r is Err
                && r->Err_0 == ValidationError::MissingBackend,
            r is Ok ==> r->Ok_0@ == (SandboxView {
                data: self.data->0@,
                backend: self.backend->0,
                state: SandboxState::Created,
            }),
    {
        match self.data {
            None => Err(ValidationError::MissingData),
            Some(data) => match self.backend {
                None => Err(ValidationError::MissingBackend),
                Some(backend) => Ok(Sandbox { data, backend, state: SandboxState::Created }),
            },
        }
    }
}

} // verus!
