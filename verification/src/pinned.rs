//! The pinned-namespace backend: isolation is a persistent network
//! namespace kept alive without a supervising process. This core models
//! the pin itself — whether the namespace is held and under which
//! identity — not the OS plumbing around it.

use vstd::prelude::*;
use crate::backend::{SandboxBackend, SandboxStatus};
use crate::data::SandboxData;
use crate::errors::BackendError;

verus! {

/// Backend whose `run` pins a network namespace under the sandbox id and
/// whose `stop` releases the pin. Namespace operations are fast and local,
/// so both always succeed.
#[derive(Debug)]
pub struct PinnedSandbox {
    pub pinned: bool,
    pub id: String,
}

impl PinnedSandbox {
    /// A fresh backend holds no resource and is bound to no identity.
    pub fn new() -> (r: Self)
        ensures
            !r.active(),
            r.bound_id() == Seq::<char>::empty(),
    {
        PinnedSandbox { pinned: false, id: String::new() }
    }
}

impl Default for PinnedSandbox {
    fn default() -> (r: Self)
        ensures
            !r.active(),
            r.bound_id() == Seq::<char>::empty(),
    {
        PinnedSandbox::new()
    }
}

impl SandboxBackend for PinnedSandbox {
    open spec fn active(&self) -> bool {
        self.pinned
    }

    open spec fn bound_id(&self) -> Seq<char> {
        self.id@
    }

    open spec fn run_succeeds(&self) -> bool {
        true
    }

    open spec fn stop_succeeds(&self) -> bool {
        true
    }

    open spec fn spec_status(&self) -> SandboxStatus {
        if self.pinned {
            SandboxStatus::Ready
        } else {
            SandboxStatus::NotReady
        }
    }

    fn run(&mut self, data: &SandboxData) -> (r: Result<(), BackendError>) {
        self.id = data.id().to_owned();
        self.pinned = true;
        Ok(())
    }

    fn stop(&mut self) -> (r: Result<(), BackendError>) {
        self.pinned = false;
        Ok(())
    }

    fn status(&self) -> (r: SandboxStatus) {
        if self.pinned {
            SandboxStatus::Ready
        } else {
            SandboxStatus::NotReady
        }
    }

    fn id(&self) -> (r: &str) {
        self.id.as_str()
    }
}

} // verus!
