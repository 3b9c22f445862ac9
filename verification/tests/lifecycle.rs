//! Unit tests of the building blocks: metadata validation, construction
//! without side effects, the lifecycle state machine, and the registry.

use crust::backend::{SandboxBackend, SandboxStatus};
use crust::data::{str_is_blank, SandboxDataBuilder};
use crust::errors::{RegistryError, SandboxError, ValidationError};
use crust::pinned::PinnedSandbox;
use crust::registry::{str_eq, SandboxRegistry};
use crust::sandbox::{Sandbox, SandboxBuilder, SandboxState};

fn built_sandbox(id: &str) -> Sandbox<PinnedSandbox> {
    let data = SandboxDataBuilder::default()
        .id(id.to_string())
        .build()
        .unwrap();
    SandboxBuilder::<PinnedSandbox>::default()
        .data(data)
        .backend(PinnedSandbox::new())
        .build()
        .unwrap()
}

#[test]
fn data_builder_succeeds_iff_id_is_not_blank() {
    assert_eq!(
        SandboxDataBuilder::default().build().err(),
        Some(ValidationError::BlankId)
    );
    assert_eq!(
        SandboxDataBuilder::default().id("".to_string()).build().err(),
        Some(ValidationError::BlankId)
    );
    assert_eq!(
        SandboxDataBuilder::default()
            .id(" \t\r\n".to_string())
            .build()
            .err(),
        Some(ValidationError::BlankId)
    );
    assert!(SandboxDataBuilder::default()
        .id("123".to_string())
        .build()
        .is_ok());
    assert!(SandboxDataBuilder::default()
        .id(" x ".to_string())
        .build()
        .is_ok());
}

#[test]
fn data_builder_keeps_all_fields() {
    let data = SandboxDataBuilder::default()
        .id("id-1".to_string())
        .name("web".to_string())
        .namespace("prod".to_string())
        .attempt(3)
        .build()
        .unwrap();
    assert_eq!(data.id(), "id-1");
    assert_eq!(data.name(), "web");
    assert_eq!(data.namespace(), "prod");
    assert_eq!(data.attempt(), 3);
}

#[test]
fn sandbox_builder_requires_data_and_backend() {
    let no_data = SandboxBuilder::<PinnedSandbox>::default()
        .backend(PinnedSandbox::new())
        .build();
    assert!(matches!(no_data.err(), Some(ValidationError::MissingData)));
    let data = SandboxDataBuilder::default()
        .id("123".to_string())
        .build()
        .unwrap();
    let no_backend = SandboxBuilder::<PinnedSandbox>::default().data(data).build();
    assert!(matches!(
        no_backend.err(),
        Some(ValidationError::MissingBackend)
    ));
}

#[test]
fn building_acquires_no_resource() {
    // construction leaves the backend exactly as supplied: nothing pinned,
    // so the sandbox is NotReady until run is explicitly invoked
    let sandbox = built_sandbox("123");
    assert_eq!(sandbox.state(), SandboxState::Created);
    assert_eq!(sandbox.status(), SandboxStatus::NotReady);
}

#[test]
fn run_transitions_created_to_running() {
    let mut sandbox = built_sandbox("123");
    assert_eq!(sandbox.run(), Ok(()));
    assert_eq!(sandbox.state(), SandboxState::Running);
    assert_eq!(sandbox.status(), SandboxStatus::Ready);
    // a second run is a lifecycle violation
    assert_eq!(sandbox.run(), Err(SandboxError::InvalidState));
}

#[test]
fn stop_before_run_is_invalid_state() {
    let mut sandbox = built_sandbox("123");
    assert_eq!(sandbox.stop(), Err(SandboxError::InvalidState));
    assert_eq!(sandbox.state(), SandboxState::Created);
}

#[test]
fn remove_before_run_succeeds() {
    let mut sandbox = built_sandbox("123");
    assert_eq!(sandbox.remove(), Ok(()));
    assert_eq!(sandbox.state(), SandboxState::Removed);
    // nothing leaves Removed
    assert_eq!(sandbox.run(), Err(SandboxError::InvalidState));
    assert_eq!(sandbox.stop(), Err(SandboxError::InvalidState));
    assert_eq!(sandbox.remove(), Err(SandboxError::InvalidState));
}

#[test]
fn full_lifecycle_in_order() {
    let mut sandbox = built_sandbox("123");
    assert_eq!(sandbox.id(), "123");
    assert_eq!(sandbox.run(), Ok(()));
    assert_eq!(sandbox.stop(), Ok(()));
    assert_eq!(sandbox.status(), SandboxStatus::NotReady);
    assert_eq!(sandbox.remove(), Ok(()));
    assert_eq!(sandbox.state(), SandboxState::Removed);
}

#[test]
fn remove_skipping_stop_releases_the_namespace() {
    let mut sandbox = built_sandbox("123");
    sandbox.run().unwrap();
    assert_eq!(sandbox.remove(), Ok(()));
    assert_eq!(sandbox.status(), SandboxStatus::NotReady);
}

#[test]
fn registry_insert_rejects_duplicate_id() {
    let mut registry = SandboxRegistry::new();
    assert_eq!(registry.insert(built_sandbox("123")), Ok(()));
    let second = registry.insert(built_sandbox("123"));
    assert_eq!(second, Err(RegistryError::DuplicateId));
    // the first entry is unaffected
    assert_eq!(registry.status("123"), Ok(SandboxStatus::NotReady));
    assert_eq!(registry.list().len(), 1);
}

#[test]
fn registry_operations_on_unknown_id_are_not_found() {
    let mut registry: SandboxRegistry<PinnedSandbox> = SandboxRegistry::new();
    assert_eq!(registry.run("nope"), Err(RegistryError::NotFound));
    assert_eq!(registry.stop("nope"), Err(RegistryError::NotFound));
    assert_eq!(registry.remove("nope"), Err(RegistryError::NotFound));
    assert_eq!(registry.status("nope"), Err(RegistryError::NotFound));
    assert!(registry.list().is_empty());
}

#[test]
fn registry_enforces_lifecycle_order() {
    let mut registry = SandboxRegistry::new();
    registry.insert(built_sandbox("123")).unwrap();
    // stop before run is illegal; the entry stays Created
    assert_eq!(registry.stop("123"), Err(RegistryError::InvalidState));
    assert_eq!(registry.status("123"), Ok(SandboxStatus::NotReady));
    assert_eq!(registry.run("123"), Ok(()));
    assert_eq!(registry.status("123"), Ok(SandboxStatus::Ready));
    // run is not idempotent: Running is not a legal source for run
    assert_eq!(registry.run("123"), Err(RegistryError::InvalidState));
    assert_eq!(registry.stop("123"), Ok(()));
    assert_eq!(registry.remove("123"), Ok(()));
    assert_eq!(registry.status("123"), Err(RegistryError::NotFound));
}

#[test]
fn registry_remove_without_stop_evicts() {
    let mut registry = SandboxRegistry::new();
    registry.insert(built_sandbox("123")).unwrap();
    registry.run("123").unwrap();
    assert_eq!(registry.remove("123"), Ok(()));
    assert_eq!(registry.status("123"), Err(RegistryError::NotFound));
}

#[test]
fn backend_binds_the_sandbox_id_on_run() {
    let mut backend = PinnedSandbox::new();
    assert_eq!(backend.id(), "");
    assert_eq!(backend.status(), SandboxStatus::NotReady);
    let data = SandboxDataBuilder::default()
        .id("123".to_string())
        .build()
        .unwrap();
    backend.run(&data).unwrap();
    assert_eq!(backend.id(), "123");
    assert_eq!(backend.status(), SandboxStatus::Ready);
    backend.stop().unwrap();
    assert_eq!(backend.status(), SandboxStatus::NotReady);
    assert_eq!(backend.id(), "123");
}

#[test]
fn str_helpers_match_their_specifications() {
    assert!(str_is_blank(""));
    assert!(str_is_blank(" \t\r\n"));
    // the full Unicode white-space set counts as blank
    assert!(str_is_blank("\u{000B}\u{000C}\u{0085}\u{00A0}\u{1680}\u{2000}\u{200A}\u{2028}\u{2029}\u{202F}\u{205F}\u{3000}"));
    assert!(!str_is_blank(" a "));
    // the zero-width space is not in the white-space set
    assert!(!str_is_blank("\u{200B}"));
    assert!(str_eq("", ""));
    assert!(str_eq("abc", "abc"));
    assert!(!str_eq("abc", "abd"));
    assert!(!str_eq("abc", "abcd"));
}
