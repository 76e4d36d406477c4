use safepkt_backend::docker::DockerContainerAPIClient;
use safepkt_backend::engine::RuntimeConfig;
use safepkt_backend::error::VerificationError;
use safepkt_backend::memory::InMemoryContainerAPIClient;
use safepkt_backend::plan::StepInVerificationPlan;
use safepkt_backend::step::{Step, StepProvider};
use safepkt_backend::value_object::{Flags, Source};
use safepkt_backend::verification::{SmartContractVerification, VerificationTarget};

fn test_configuration() -> RuntimeConfig {
    RuntimeConfig::new(
        "rvt-image".to_string(),
        "/host/rvt".to_string(),
        "/host/verification-script".to_string(),
        "1000:1000".to_string(),
        "/tmp".to_string(),
    )
}

#[test]
fn it_runs_a_step_for_a_target() {
    let target = VerificationTarget::new(
        "program-verification".to_string(),
        "abc123".to_string(),
    );
    let verification = SmartContractVerification::new(target);
    let mut client = InMemoryContainerAPIClient::new();
    let confirmation = verification
        .run_step(&mut client, &test_configuration(), true)
        .unwrap();
    assert_eq!("program_verification-abc123", confirmation.container_name);
    assert_eq!(1, client.container_count());

    let progress = verification.step_progress(&client).unwrap();
    assert_eq!("running", progress.raw_status);

    let report = verification.step_report(&client).unwrap();
    assert_eq!("", report.raw_log);
}

#[test]
fn it_rejects_an_unknown_step_token() {
    let target = VerificationTarget::new("static-analysis".to_string(), "abc123".to_string());
    let verification = SmartContractVerification::new(target);
    let mut client = InMemoryContainerAPIClient::new();
    let err = verification
        .run_step(&mut client, &test_configuration(), true)
        .unwrap_err();
    assert!(matches!(
        err,
        VerificationError::UnknownStep { ref step_name } if step_name == "static_analysis"
    ));
    assert_eq!(0, client.container_count());
}

#[test]
fn it_reports_not_found_for_a_target_that_never_ran() {
    let target = VerificationTarget::new(
        "symbolic-execution".to_string(),
        "abc123".to_string(),
    );
    let verification = SmartContractVerification::new(target);
    let client = InMemoryContainerAPIClient::new();
    let err = verification.step_progress(&client).unwrap_err();
    assert!(matches!(err, VerificationError::NotFound { .. }));
}

#[test]
fn it_formats_container_names_for_plans() {
    let client: DockerContainerAPIClient<u8> = DockerContainerAPIClient::new(0);
    let step = Step::new(
        "source_restoration".to_string(),
        StepProvider::SourceRestoration,
        None,
    );
    let plan = StepInVerificationPlan::new("abc123".to_string(), step);
    assert_eq!(
        "source_restoration-abc123",
        client.format_container_name_for_step_in_verification_plan(&plan)
    );
    assert_eq!(&0, client.client());
}

#[test]
fn it_wraps_uploaded_values() {
    let flags = Flags::new(b"--help".to_vec());
    assert_eq!(b"--help".to_vec(), *flags.flags());
    let source = Source::new(b"Zm4gbWFpbigpIHt9".to_vec());
    assert_eq!(b"Zm4gbWFpbigpIHt9".to_vec(), *source.source());
}

#[test]
fn it_renders_error_messages() {
    let err = VerificationError::ScaffoldMissing { project_id: "abc123".to_string() };
    assert_eq!(
        "Project with id \"abc123\" has not been scaffolded yet",
        err.message()
    );
    let unknown = VerificationError::UnknownStep { step_name: "nope".to_string() };
    assert_eq!(
        "There is no verification step having name \"nope\"",
        unknown.message()
    );
}
