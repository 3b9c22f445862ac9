//! End-to-end tests of the runtime facade: the create-and-run scenarios,
//! the error paths for missing input, and removal semantics.

use crust::backend::SandboxStatus;
use crust::errors::CriError;
use crust::runtime::{MyRuntime, PodSandboxConfig, PodSandboxMetadata, RunPodSandboxRequest};

fn request_with_uid(uid: &str) -> RunPodSandboxRequest {
    RunPodSandboxRequest {
        config: Some(PodSandboxConfig {
            metadata: Some(PodSandboxMetadata {
                name: "".to_string(),
                uid: uid.to_string(),
                namespace: "".to_string(),
                attempt: 0,
            }),
            hostname: "".to_string(),
            log_directory: "".to_string(),
        }),
        runtime_handler: "".to_string(),
    }
}

#[test]
fn run_pod_sandbox_success() {
    let mut sut = MyRuntime::default();
    let test_id = "123";
    let response = sut.run_pod_sandbox(request_with_uid(test_id)).unwrap();
    assert_eq!(response, test_id);
}

#[test]
fn run_pod_sandbox_fail_no_config() {
    let mut sut = MyRuntime::default();
    let request = RunPodSandboxRequest {
        config: None,
        runtime_handler: "".to_string(),
    };
    let response = sut.run_pod_sandbox(request);
    assert!(response.is_err());
}

#[test]
fn run_pod_sandbox_fail_no_config_metadata() {
    let mut sut = MyRuntime::default();
    let request = RunPodSandboxRequest {
        config: Some(PodSandboxConfig {
            metadata: None,
            hostname: "".to_string(),
            log_directory: "".to_string(),
        }),
        runtime_handler: "".to_string(),
    };
    let response = sut.run_pod_sandbox(request);
    assert!(response.is_err());
}

#[test]
fn run_pod_sandbox_error_messages() {
    let mut sut = MyRuntime::default();
    let no_config = RunPodSandboxRequest {
        config: None,
        runtime_handler: "".to_string(),
    };
    assert_eq!(
        sut.run_pod_sandbox(no_config),
        Err(CriError::InvalidArgument(
            "no pod sandbox config provided".to_string()
        ))
    );
    let no_metadata = RunPodSandboxRequest {
        config: Some(PodSandboxConfig {
            metadata: None,
            hostname: "".to_string(),
            log_directory: "".to_string(),
        }),
        runtime_handler: "".to_string(),
    };
    assert_eq!(
        sut.run_pod_sandbox(no_metadata),
        Err(CriError::InvalidArgument(
            "no pod sandbox metadata provided".to_string()
        ))
    );
}

#[test]
fn run_pod_sandbox_blank_uid_is_invalid_argument() {
    let mut sut = MyRuntime::default();
    assert_eq!(
        sut.run_pod_sandbox(request_with_uid("")),
        Err(CriError::InvalidArgument(
            "no pod sandbox uid provided".to_string()
        ))
    );
    assert_eq!(
        sut.run_pod_sandbox(request_with_uid(" \t\n")),
        Err(CriError::InvalidArgument(
            "no pod sandbox uid provided".to_string()
        ))
    );
    // whitespace beyond ASCII is blank too: no-break space, em space
    assert_eq!(
        sut.run_pod_sandbox(request_with_uid("\u{00A0}\u{2003}")),
        Err(CriError::InvalidArgument(
            "no pod sandbox uid provided".to_string()
        ))
    );
}

#[test]
fn run_pod_sandbox_duplicate_uid_fails() {
    let mut sut = MyRuntime::default();
    assert_eq!(sut.run_pod_sandbox(request_with_uid("123")).unwrap(), "123");
    assert_eq!(
        sut.run_pod_sandbox(request_with_uid("123")),
        Err(CriError::Internal("duplicate pod sandbox id".to_string()))
    );
    // the first entry is unaffected
    assert_eq!(sut.pod_sandbox_status("123"), Ok(SandboxStatus::Ready));
}

#[test]
fn remove_then_status_is_not_found() {
    let mut sut = MyRuntime::default();
    assert_eq!(sut.run_pod_sandbox(request_with_uid("123")).unwrap(), "123");
    assert_eq!(sut.remove_pod_sandbox("123"), Ok(()));
    assert_eq!(sut.pod_sandbox_status("123"), Err(CriError::NotFound));
}

#[test]
fn mutating_operations_after_remove_are_not_found() {
    let mut sut = MyRuntime::default();
    sut.run_pod_sandbox(request_with_uid("123")).unwrap();
    sut.remove_pod_sandbox("123").unwrap();
    assert_eq!(sut.stop_pod_sandbox("123"), Err(CriError::NotFound));
    assert_eq!(sut.remove_pod_sandbox("123"), Err(CriError::NotFound));
    // a new sandbox may reuse the id afterwards
    assert_eq!(sut.run_pod_sandbox(request_with_uid("123")).unwrap(), "123");
}

#[test]
fn stop_pod_sandbox_transitions_and_errors() {
    let mut sut = MyRuntime::default();
    assert_eq!(sut.stop_pod_sandbox("123"), Err(CriError::NotFound));
    sut.run_pod_sandbox(request_with_uid("123")).unwrap();
    assert_eq!(sut.pod_sandbox_status("123"), Ok(SandboxStatus::Ready));
    assert_eq!(sut.stop_pod_sandbox("123"), Ok(()));
    assert_eq!(sut.pod_sandbox_status("123"), Ok(SandboxStatus::NotReady));
    // a second stop is illegal from Stopped
    assert_eq!(sut.stop_pod_sandbox("123"), Err(CriError::InvalidState));
    // a stopped sandbox can still be removed
    assert_eq!(sut.remove_pod_sandbox("123"), Ok(()));
}

#[test]
fn many_distinct_ids_all_end_running() {
    let mut sut = MyRuntime::default();
    let n = 16;
    for k in 0..n {
        let uid = format!("sandbox-{}", k);
        assert_eq!(sut.run_pod_sandbox(request_with_uid(&uid)).unwrap(), uid);
    }
    let statuses = sut.list_pod_sandbox();
    assert_eq!(statuses.len(), n);
    for st in statuses {
        assert_eq!(st, SandboxStatus::Ready);
    }
    for k in 0..n {
        let uid = format!("sandbox-{}", k);
        assert_eq!(sut.pod_sandbox_status(&uid), Ok(SandboxStatus::Ready));
    }
}

#[test]
fn list_pod_sandbox_is_a_snapshot_in_insertion_order() {
    let mut sut = MyRuntime::default();
    sut.run_pod_sandbox(request_with_uid("a")).unwrap();
    sut.run_pod_sandbox(request_with_uid("b")).unwrap();
    sut.stop_pod_sandbox("a").unwrap();
    let statuses = sut.list_pod_sandbox();
    assert_eq!(
        statuses,
        vec![SandboxStatus::NotReady, SandboxStatus::Ready]
    );
}

#[test]
fn version_reports_fixed_fields() {
    let sut = MyRuntime::default();
    let v = sut.version();
    assert_eq!(v.version, "0.1.0");
    assert_eq!(v.runtime_api_version, "v1alpha1");
    assert_eq!(v.runtime_name, "crust");
    assert_eq!(v.runtime_version, "0.0.1");
}
