//! The runtime facade behind the sandbox RPCs: it validates raw request
//! metadata, builds and registers a sandbox, and drives the lifecycle
//! operations through the registry. The RPC transport hands it plain
//! request values and maps its errors to status codes.

use vstd::prelude::*;
use crate::backend::{SandboxBackend, SandboxStatus};
use crate::data::{SandboxDataBuilder, SandboxDataView};
use crate::errors::CriError;
use crate::is_blank;
use crate::pinned::PinnedSandbox;
use crate::registry::{remove_step, stop_step, SandboxRegistry};
use crate::sandbox::{SandboxBuilder, SandboxState, SandboxView};

verus! {

/// Raw sandbox metadata as it arrives from the RPC layer: a candidate id
/// (the orchestrator's uid), a name, a namespace, and an attempt count.
pub struct PodSandboxMetadata {
    pub name: String,
    pub uid: String,
    pub namespace: String,
    pub attempt: u32,
}

/// Raw sandbox configuration. Beyond the metadata this core only tolerates
/// the auxiliary fields; it never interprets them.
pub struct PodSandboxConfig {
    pub metadata: Option<PodSandboxMetadata>,
    pub hostname: String,
    pub log_directory: String,
}

/// One run-sandbox request from the RPC layer.
pub struct RunPodSandboxRequest {
    pub config: Option<PodSandboxConfig>,
    pub runtime_handler: String,
}

/// Version information of the runtime.
pub struct VersionInfo {
    pub version: String,
    pub runtime_api_version: String,
    pub runtime_name: String,
    pub runtime_version: String,
}

/// The sandbox data record that a metadata value validates into.
pub open spec fn metadata_data_view(m: PodSandboxMetadata) -> SandboxDataView {
    SandboxDataView { id: m.uid@, name: m.name@, namespace: m.namespace@, attempt: m.attempt }
}

/// The sandbox-management runtime: a registry of pinned-namespace
/// sandboxes, addressed through the operations the RPC service exposes.
/// Its abstract value is the registry's map from id to sandbox image.
pub struct MyRuntime {
    registry: SandboxRegistry<PinnedSandbox>,
}

impl View for MyRuntime {
    type V = Map<Seq<char>, SandboxView<PinnedSandbox>>;

    closed spec fn view(&self) -> Map<Seq<char>, SandboxView<PinnedSandbox>> {
        self.registry@
    }
}

impl Default for MyRuntime {
    /// A runtime with no registered sandbox.
    fn default() -> (r: Self)
        ensures
            r@ == Map::<Seq<char>, SandboxView<PinnedSandbox>>::empty(),
    {
        MyRuntime { registry: SandboxRegistry::new() }
    }
}

impl MyRuntime {
    /// The registry's entries in insertion order, as `list_pod_sandbox`
    /// reports them.
    pub closed spec fn snapshot(&self) -> Seq<SandboxView<PinnedSandbox>> {
        self.registry.snapshot()
    }

    /// Static version information; every field is fixed.
    pub fn version(&self) -> (r: VersionInfo)
        ensures
            r.version@ == "0.1.0"@,
            r.runtime_api_version@ == "v1alpha1"@,
            r.runtime_name@ == "crust"@,
            r.runtime_version@ == "0.0.1"@,
    {
        VersionInfo {
            version: "0.1.0".to_owned(),
            runtime_api_version: "v1alpha1".to_owned(),
            runtime_name: "crust".to_owned(),
            runtime_version: "0.0.1".to_owned(),
        }
    }

    /// The end-to-end create-and-run operation: reject a request without a
    /// config or without metadata, validate the metadata into a data
    /// record, build a sandbox on a fresh pinned backend, register it, run
    /// it, and answer with its id. Exactly the failing requests are: no
    /// config; no metadata; a blank uid; a uid already registered. The
    /// first three are malformed input and answer `InvalidArgument`,
    /// naming what is missing; a collision is a retried or duplicate
    /// request, not malformed input, and answers `Internal`. On success
    /// the registry gains one entry, Running, under the uid.
    pub fn run_pod_sandbox(&mut self, request: RunPodSandboxRequest) -> (r: Result<
        String,
        CriError,
    >)
        ensures
            request.config is None ==> {
                &&& final(self)@ == old(self)@
                &&& r is Err && r->Err_0 is InvalidArgument
                &&& r->Err_0->InvalidArgument_0@ == "no pod sandbox config provided"@
            },
            request.config is Some && request.config->0.metadata is None ==> {
                &&& final(self)@ == old(self)@
                &&& r is Err && r->Err_0 is InvalidArgument
                &&& r->Err_0->InvalidArgument_0@ == "no pod sandbox metadata provided"@
            },
            request.config is Some && request.config->0.metadata is Some && is_blank(
                request.config->0.metadata->0.uid@,
            ) ==> {
                &&& final(self)@ == old(self)@
                &&& r is Err && r->Err_0 is InvalidArgument
                &&& r->Err_0->InvalidArgument_0@ == "no pod sandbox uid provided"@
            },
            request.config is Some && request.config->0.metadata is Some && !is_blank(
                request.config->0.metadata->0.uid@,
            ) && old(self)@.contains_key(request.config->0.metadata->0.uid@) ==> {
                &&& final(self)@ == old(self)@
                &&& r is Err && r->Err_0 is Internal
                &&& r->Err_0->Internal_0@ == "duplicate pod sandbox id"@
            },
            request.config is Some && request.config->0.metadata is Some && !is_blank(
                request.config->0.metadata->0.uid@,
            ) && !old(self)@.contains_key(request.config->0.metadata->0.uid@) ==> {
                let uid = request.config->0.metadata->0.uid@;
                &&& r is Ok
                &&& r->Ok_0@ == uid
                &&& final(self)@.contains_key(uid)
                &&& final(self)@ == old(self)@.insert(uid, (SandboxView {
                    data: metadata_data_view(request.config->0.metadata->0),
                    backend: final(self)@[uid].backend,
                    state: SandboxState::Running,
                }))
                &&& final(self)@[uid].backend.active()
                &&& final(self)@[uid].backend.bound_id() == uid
            },
    {
        let config = match request.config {
            None => {
                return Err(CriError::InvalidArgument("no pod sandbox config provided".to_owned()));
            },
            Some(c) => c,
        };
        let metadata = match config.metadata {
            None => {
                return Err(
                    CriError::InvalidArgument("no pod sandbox metadata provided".to_owned()),
                );
            },
            Some(m) => m,
        };
        let ghost uid = metadata.uid@;
        let data = match SandboxDataBuilder::default().id(metadata.uid).name(metadata.name)
            .namespace(metadata.namespace).attempt(metadata.attempt).build() {
            Err(_) => {
                return Err(CriError::InvalidArgument("no pod sandbox uid provided".to_owned()));
            },
            Ok(d) => d,
        };
        let sandbox = match SandboxBuilder::<PinnedSandbox>::default().data(data).backend(
            PinnedSandbox::new(),
        ).build() {
            Err(_) => {
                proof {
                    assert(false);
                }
                return Err(CriError::Internal("build sandbox from config".to_owned()));
            },
            Ok(s) => s,
        };
        let id_string = sandbox.id().to_owned();
        match self.registry.insert(sandbox) {
            Err(_) => {
                return Err(CriError::Internal("duplicate pod sandbox id".to_owned()));
            },
            Ok(()) => {},
        }
        let ghost mid = self@;
        match self.registry.run(id_string.as_str()) {
            Err(_) => {
                proof {
                    assert(false);
                }
                return Err(CriError::Internal("run pod sandbox".to_owned()));
            },
            Ok(()) => {},
        }
        proof {
            assert(self@ =~= old(self)@.insert(uid, (SandboxView {
                data: metadata_data_view(request.config->0.metadata->0),
                backend: self@[uid].backend,
                state: SandboxState::Running,
            })));
        }
        Ok(id_string)
    }

    /// Stops the sandbox registered under `id`. Succeeds exactly on a
    /// Running entry, which becomes Stopped with its namespace released;
    /// an unknown id answers `NotFound`, any other state `InvalidState`.
    pub fn stop_pod_sandbox(&mut self, id: &str) -> (r: Result<(), CriError>)
        ensures
            !old(self)@.contains_key(id@) ==> {
                &&& r == Err::<(), CriError>(CriError::NotFound)
                &&& final(self)@ == old(self)@
            },
            old(self)@.contains_key(id@) && old(self)@[id@].state != SandboxState::Running ==> {
                &&& r == Err::<(), CriError>(CriError::InvalidState)
                &&& final(self)@ == old(self)@
            },
            old(self)@.contains_key(id@) && old(self)@[id@].state == SandboxState::Running ==> {
                &&& r is Ok
                &&& final(self)@ == stop_step(old(self)@, id@, final(self)@[id@].backend)
                &&& !final(self)@[id@].backend.active()
            },
    {
        match self.registry.stop(id) {
            Ok(()) => Ok(()),
            Err(e) => match e {
                crate::errors::RegistryError::NotFound => Err(CriError::NotFound),
                crate::errors::RegistryError::InvalidState => Err(CriError::InvalidState),
                _ => {
                    proof {
                        assert(false);
                    }
                    Err(CriError::Internal("stop pod sandbox".to_owned()))
                },
            },
        }
    }

    /// Removes the sandbox registered under `id`: best-effort, so whenever
    /// the id is present the entry is evicted and the call succeeds — a
    /// pinned namespace always releases. Only an unknown id fails.
    pub fn remove_pod_sandbox(&mut self, id: &str) -> (r: Result<(), CriError>)
        ensures
            !old(self)@.contains_key(id@) ==> {
                &&& r == Err::<(), CriError>(CriError::NotFound)
                &&& final(self)@ == old(self)@
            },
            old(self)@.contains_key(id@) ==> {
                &&& r is Ok
                &&& final(self)@ == remove_step(old(self)@, id@)
            },
    {
        match self.registry.remove(id) {
            Ok(()) => Ok(()),
            Err(e) => match e {
                crate::errors::RegistryError::NotFound => Err(CriError::NotFound),
                _ => {
                    proof {
                        assert(false);
                    }
                    Err(CriError::Internal("remove pod sandbox".to_owned()))
                },
            },
        }
    }

    /// Answers a status query for `id`; never mutates, and fails only when
    /// the id is unknown — in particular it fails with `NotFound` for any
    /// id that was removed.
    pub fn pod_sandbox_status(&self, id: &str) -> (r: Result<SandboxStatus, CriError>)
        ensures
            !self@.contains_key(id@) ==> r == Err::<SandboxStatus, CriError>(CriError::NotFound),
            self@.contains_key(id@) ==> r == Ok::<SandboxStatus, CriError>(
                self@[id@].backend.spec_status(),
            ),
    {
        match self.registry.status(id) {
            Ok(st) => Ok(st),
            Err(_) => Err(CriError::NotFound),
        }
    }

    /// A snapshot of every registered sandbox's status, in insertion
    /// order: exactly one element per entry of the registry map —
    /// complete, with pairwise-distinct ids.
    pub fn list_pod_sandbox(&self) -> (r: Vec<SandboxStatus>)
        ensures
            r@.len() == self.snapshot().len(),
            forall|i: int|
                0 <= i < r@.len() ==> r@[i] == self.snapshot()[i].backend.spec_status(),
            forall|i: int|
                0 <= i < self.snapshot().len() ==> {
                    &&& self@.contains_key(#[trigger] self.snapshot()[i].data.id)
                    &&& self@[self.snapshot()[i].data.id] == self.snapshot()[i]
                },
            forall|id: Seq<char>|
                self@.contains_key(id) ==> exists|i: int|
                    0 <= i < self.snapshot().len() && #[trigger] self.snapshot()[i].data.id == id,
            forall|i: int, j: int|
                0 <= i < j < self.snapshot().len() ==> #[trigger] self.snapshot()[i].data.id
                    != #[trigger] self.snapshot()[j].data.id,
    {
        self.registry.list()
    }
}

} // verus!
