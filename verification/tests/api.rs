use durabletask::api::{
    FetchOrchestrationMetadataBuilder, InstanceID, NewOrchestration, OrchestrationIdReusePolicy,
    OrchestrationMetadata, PurgeBuilder, RaiseEventBuilder, TerminateBuilder,
};
use durabletask::api::{id_reuse_outcome, CreateOrchestrationAction, IdReuseOutcome};
use durabletask::status::OrchestrationStatus;
use durabletask::Timestamp;

#[test]
fn test_new_orchestration_builder() {
    let instance_id = InstanceID("test-id".to_string());
    let input = "test input";
    let time = Timestamp { seconds: 1704067200, nanos: 0 };

    let new_orchestration = NewOrchestration::builder()
        .instance_id(instance_id.clone())
        .orchestration_id_reuse_policy(OrchestrationIdReusePolicy::default())
        .raw_input(input.to_string())
        .start_time(time)
        .build();

    assert_eq!(new_orchestration.instance_id, instance_id.0);
    assert_eq!(new_orchestration.input, Some(input.to_string()));
    assert_eq!(new_orchestration.scheduled_start_timestamp, Some(time));
    assert_eq!(
        new_orchestration.orchestration_id_reuse_policy,
        Some(OrchestrationIdReusePolicy::default())
    );
}

#[test]
fn test_fetch_orchestration_metadata_builder() {
    let builder = FetchOrchestrationMetadataBuilder::new().fetch_payloads(true);

    assert_eq!(builder.get_inputs_and_outputs, Some(true));
}

#[test]
fn test_raise_event_builder() {
    let payload = "test event payload";
    let builder = RaiseEventBuilder::new().raw_event_data(payload.to_string());

    assert_eq!(builder.input, Some(payload.to_string()));
}

#[test]
fn test_terminate_builder() {
    let output = "test output";
    let builder = TerminateBuilder::new()
        .raw_output(output.to_string())
        .recursive_terminate(true);

    assert_eq!(builder.output, Some(output.to_string()));
    assert_eq!(builder.recursive, Some(true));
}

#[test]
fn test_purge_builder() {
    let builder = PurgeBuilder::new().recursive_purge(true);

    assert_eq!(builder.recursive, Some(true));
}

#[test]
fn test_orchestration_metadata_builder() {
    let instance_id = InstanceID("test-id".to_string());
    let name = "test-name".to_string();
    let status = OrchestrationStatus::Running;
    let created_at = Timestamp { seconds: 1704067200, nanos: 0 };
    let last_updated_at = Timestamp { seconds: 1704153600, nanos: 0 };

    let metadata = OrchestrationMetadata::builder()
        .instance_id(instance_id.clone())
        .name(name.clone())
        .status(status)
        .created_at(created_at)
        .last_updated_at(last_updated_at)
        .serialized_input("test input".to_string())
        .build()
        .unwrap();

    assert_eq!(metadata.instance_id, instance_id);
    assert_eq!(metadata.name, name);
    assert_eq!(metadata.runtime_status, status);
    assert_eq!(metadata.created_at, created_at);
    assert_eq!(metadata.last_updated_at, last_updated_at);
    assert_eq!(metadata.serialized_input, Some("test input".to_string()));
}

#[test]
fn test_orchestration_metadata_builder_missing_field() {
    let result = OrchestrationMetadata::builder().build();
    assert_eq!(result.unwrap_err(), "instance_id is required");
}

#[test]
fn test_orchestration_metadata_is_running() {
    let mut metadata = OrchestrationMetadata::default();
    metadata.runtime_status = OrchestrationStatus::Running;
    assert!(metadata.is_running());
    assert!(!metadata.is_complete());
}

#[test]
fn test_orchestration_metadata_is_complete() {
    let statuses = vec![
        OrchestrationStatus::Completed,
        OrchestrationStatus::Failed,
        OrchestrationStatus::Terminated,
        OrchestrationStatus::Canceled,
    ];

    for status in statuses {
        let mut metadata = OrchestrationMetadata::default();
        metadata.runtime_status = status;
        assert!(!metadata.is_running());
        assert!(metadata.is_complete());
    }
}

#[test]
fn id_reuse_policy_outcomes() {
    let mut policy = OrchestrationIdReusePolicy::default();
    assert_eq!(
        id_reuse_outcome(&policy, OrchestrationStatus::Completed),
        IdReuseOutcome::Duplicate
    );

    policy.operation_status = vec![OrchestrationStatus::Completed, OrchestrationStatus::Failed];
    policy.action = CreateOrchestrationAction::Ignore;
    assert_eq!(
        id_reuse_outcome(&policy, OrchestrationStatus::Completed),
        IdReuseOutcome::IgnoreRequest
    );
    assert_eq!(
        id_reuse_outcome(&policy, OrchestrationStatus::Running),
        IdReuseOutcome::Duplicate
    );

    policy.action = CreateOrchestrationAction::Terminate;
    assert_eq!(
        id_reuse_outcome(&policy, OrchestrationStatus::Failed),
        IdReuseOutcome::TerminateExisting
    );
}
