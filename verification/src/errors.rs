//! Error taxonomy of the sandbox core: validation failures, lifecycle
//! violations, registry lookup failures, and wrapped backend failures.

use vstd::prelude::*;

verus! {

/// Malformed or missing required input, naming the field at fault.
/// Always a caller bug; never retried automatically.
#[derive(Clone, Copy, Debug, PartialEq, Eq, Structural)]
pub enum ValidationError {
    /// The sandbox id was empty after trimming whitespace.
    BlankId,
    /// A sandbox was built without supplying a validated data record.
    MissingData,
    /// A sandbox was built without selecting a backend.
    MissingBackend,
}

/// Resource acquisition or release failed inside a backend; wraps the
/// backend's own description of the cause.
#[derive(Clone, Debug, PartialEq, Eq)]
pub struct BackendError {
    pub message: String,
}

/// Failure of a lifecycle operation on a single sandbox.
#[derive(Clone, Debug, PartialEq, Eq)]
pub enum SandboxError {
    /// The requested transition is illegal from the current state.
    InvalidState,
    /// The backend failed; the sandbox stays in its last known-good state.
    Backend(BackendError),
}

/// Failure of an externally exposed runtime operation, as the RPC layer
/// sees it: each variant maps to a distinct status code.
#[derive(Clone, Debug, PartialEq, Eq)]
pub enum CriError {
    /// Malformed or missing required input, with a human-readable reason.
    InvalidArgument(String),
    /// The named sandbox is not registered.
    NotFound,
    /// The requested transition is illegal from the current state.
    InvalidState,
    /// An internal step failed, with a human-readable reason.
    Internal(String),
}

/// Failure of a registry-mediated operation.
#[derive(Clone, Debug, PartialEq, Eq)]
pub enum RegistryError {
    /// No sandbox with the requested id is present.
    NotFound,
    /// An insert collided with an already-registered id.
    DuplicateId,
    /// The requested transition is illegal from the current state.
    InvalidState,
    /// The backend failed; registry consistency is unaffected.
    Backend(BackendError),
}

} // verus!
