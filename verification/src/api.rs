use vstd::prelude::*;

use crate::events::TaskFailureDetails;
use crate::status::OrchestrationStatus;
use crate::Timestamp;

verus! {

// ---------------------------------------------------------------------------
// Instance identity.
// ---------------------------------------------------------------------------

/// The opaque identifier of an orchestration instance.
#[derive(Debug, PartialEq, Eq, Hash)]
pub struct InstanceID(pub String);

impl Clone for InstanceID {
    fn clone(&self) -> (res: Self)
        ensures
            res == *self,
    {
        InstanceID(self.0.clone())
    }
}

// ---------------------------------------------------------------------------
// Id-reuse policy for create-instance requests.
// ---------------------------------------------------------------------------

/// What a backend does when a create-instance request names an existing
/// instance whose status permits reuse.
#[derive(Clone, Copy, Debug, PartialEq, Eq, Structural)]
pub enum CreateOrchestrationAction {
    Error,
    Ignore,
    Terminate,
}

/// The id-reuse policy attached to a create-instance request: the statuses
/// in which an existing instance may be replaced, and what to do then.
#[derive(Debug, PartialEq)]
pub struct OrchestrationIdReusePolicy {
    pub action: CreateOrchestrationAction,
    pub operation_status: Vec<OrchestrationStatus>,
}

impl Default for OrchestrationIdReusePolicy {
    fn default() -> (res: Self)
        ensures
            res.action == CreateOrchestrationAction::Error,
            res.operation_status@ == Seq::<OrchestrationStatus>::empty(),
    {
        OrchestrationIdReusePolicy {
            action: CreateOrchestrationAction::Error,
            operation_status: Vec::new(),
        }
    }
}

// ---------------------------------------------------------------------------
// Create-instance requests.
// ---------------------------------------------------------------------------

/// A request to create a new orchestration instance.
#[derive(Debug)]
pub struct NewOrchestration {
    pub instance_id: String,
    pub name: String,
    pub version: Option<String>,
    pub input: Option<String>,
    pub scheduled_start_timestamp: Option<Timestamp>,
    pub orchestration_id_reuse_policy: Option<OrchestrationIdReusePolicy>,
}

/// Accumulates the optional fields of a create-instance request.
#[derive(Debug, PartialEq)]
pub struct NewOrchestrationBuilder {
    pub instance_id: Option<InstanceID>,
    pub orchestration_id_reuse_policy: Option<OrchestrationIdReusePolicy>,
    pub input: Option<String>,
    pub scheduled_start_timestamp: Option<Timestamp>,
}

impl NewOrchestration {
    /// A builder with no field set yet.
    pub fn builder() -> (r: NewOrchestrationBuilder)
        ensures
            r == (NewOrchestrationBuilder {
                instance_id: None,
                orchestration_id_reuse_policy: None,
                input: None,
                scheduled_start_timestamp: None,
            }),
    {
        NewOrchestrationBuilder::new()
    }
}

impl NewOrchestrationBuilder {
    /// A builder with no field set yet.
    pub fn new() -> (r: Self)
        ensures
            r == (NewOrchestrationBuilder {
                instance_id: None,
                orchestration_id_reuse_policy: None,
                input: None,
                scheduled_start_timestamp: None,
            }),
    {
        NewOrchestrationBuilder {
            instance_id: None,
            orchestration_id_reuse_policy: None,
            input: None,
            scheduled_start_timestamp: None,
        }
    }

    /// Sets the instance id.
    pub fn instance_id(self, id: InstanceID) -> (r: Self)
        ensures
            r == (NewOrchestrationBuilder { instance_id: Some(id), ..self }),
    {
        NewOrchestrationBuilder { instance_id: Some(id), ..self }
    }

    /// Sets the id-reuse policy.
    pub fn orchestration_id_reuse_policy(self, policy: OrchestrationIdReusePolicy) -> (r: Self)
        ensures
            r == (NewOrchestrationBuilder {
                orchestration_id_reuse_policy: Some(policy),
                ..self
            }),
    {
        NewOrchestrationBuilder { orchestration_id_reuse_policy: Some(policy), ..self }
    }

    /// Sets the serialized input payload verbatim.
    pub fn raw_input(self, input: String) -> (r: Self)
        ensures
            r == (NewOrchestrationBuilder { input: Some(input), ..self }),
    {
        NewOrchestrationBuilder { input: Some(input), ..self }
    }

    /// Sets the scheduled start time.
    pub fn start_time(self, time: Timestamp) -> (r: Self)
        ensures
            r == (NewOrchestrationBuilder { scheduled_start_timestamp: Some(time), ..self }),
    {
        NewOrchestrationBuilder { scheduled_start_timestamp: Some(time), ..self }
    }

    /// Emits the create-instance request. A missing instance id becomes the
    /// empty id.
    pub fn build(self) -> (r: NewOrchestration)
        ensures
            self.instance_id matches Some(id) ==> r.instance_id == id.0,
            self.instance_id is None ==> r.instance_id@ == Seq::<char>::empty(),
            r.name@ == "name"@,
            r.version is None,
            r.input == self.input,
            r.scheduled_start_timestamp == self.scheduled_start_timestamp,
            r.orchestration_id_reuse_policy == self.orchestration_id_reuse_policy,
    {
        let instance_id = match self.instance_id {
            None => String::new(),
            Some(id) => id.0,
        };
        NewOrchestration {
            instance_id: instance_id,
            name: String::from_str("name"),
            version: None,
            input: self.input,
            scheduled_start_timestamp: self.scheduled_start_timestamp,
            orchestration_id_reuse_policy: self.orchestration_id_reuse_policy,
        }
    }
}

// ---------------------------------------------------------------------------
// Fetch-metadata, raise-event, terminate and purge requests.
// ---------------------------------------------------------------------------

/// Accumulates the optional fields of a fetch-metadata request.
#[derive(Debug, PartialEq)]
pub struct FetchOrchestrationMetadataBuilder {
    pub get_inputs_and_outputs: Option<bool>,
}

impl FetchOrchestrationMetadataBuilder {
    /// A builder with no field set yet.
    pub fn new() -> (r: Self)
        ensures
            r == (FetchOrchestrationMetadataBuilder { get_inputs_and_outputs: None }),
    {
        FetchOrchestrationMetadataBuilder { get_inputs_and_outputs: None }
    }

    /// Chooses whether input and output payloads are fetched.
    pub fn fetch_payloads(self, fetch_payloads: bool) -> (r: Self)
        ensures
            r == (FetchOrchestrationMetadataBuilder {
                get_inputs_and_outputs: Some(fetch_payloads),
            }),
    {
        FetchOrchestrationMetadataBuilder { get_inputs_and_outputs: Some(fetch_payloads) }
    }
}

/// Accumulates the optional fields of a raise-event request.
#[derive(Debug, PartialEq)]
pub struct RaiseEventBuilder {
    pub input: Option<String>,
}

impl RaiseEventBuilder {
    /// A builder with no field set yet.
    pub fn new() -> (r: Self)
        ensures
            r == (RaiseEventBuilder { input: None }),
    {
        RaiseEventBuilder { input: None }
    }

    /// Sets the serialized event payload verbatim.
    pub fn raw_event_data(self, payload: String) -> (r: Self)
        ensures
            r == (RaiseEventBuilder { input: Some(payload) }),
    {
        RaiseEventBuilder { input: Some(payload) }
    }
}

/// Accumulates the optional fields of a terminate request.
#[derive(Debug, PartialEq)]
pub struct TerminateBuilder {
    pub output: Option<String>,
    pub recursive: Option<bool>,
}

impl TerminateBuilder {
    /// A builder with no field set yet.
    pub fn new() -> (r: Self)
        ensures
            r == (TerminateBuilder { output: None, recursive: None }),
    {
        TerminateBuilder { output: None, recursive: None }
    }

    /// Sets the serialized terminal output verbatim.
    pub fn raw_output(self, data: String) -> (r: Self)
        ensures
            r == (TerminateBuilder { output: Some(data), ..self }),
    {
        TerminateBuilder { output: Some(data), ..self }
    }

    /// Chooses whether sub-orchestrations are terminated as well.
    pub fn recursive_terminate(self, recursive: bool) -> (r: Self)
        ensures
            r == (TerminateBuilder { recursive: Some(recursive), ..self }),
    {
        TerminateBuilder { recursive: Some(recursive), ..self }
    }
}

/// Accumulates the optional fields of a purge request.
#[derive(Debug, PartialEq)]
pub struct PurgeBuilder {
    pub recursive: Option<bool>,
}

impl PurgeBuilder {
    /// A builder with no field set yet.
    pub fn new() -> (r: Self)
        ensures
            r == (PurgeBuilder { recursive: None }),
    {
        PurgeBuilder { recursive: None }
    }

    /// Chooses whether sub-orchestrations are purged as well.
    pub fn recursive_purge(self, recursive: bool) -> (r: Self)
        ensures
            r == (PurgeBuilder { recursive: Some(recursive) }),
    {
        PurgeBuilder { recursive: Some(recursive) }
    }
}

// ---------------------------------------------------------------------------
// Client-side metadata projection.
// ---------------------------------------------------------------------------

/// The client-side projection of one instance's state.
#[derive(Debug)]
pub struct OrchestrationMetadata {
    pub instance_id: InstanceID,
    pub name: String,
    pub runtime_status: OrchestrationStatus,
    pub created_at: Timestamp,
    pub last_updated_at: Timestamp,
    pub serialized_input: Option<String>,
    pub serialized_output: Option<String>,
    pub serialized_custom_status: Option<String>,
    pub failure_details: Option<TaskFailureDetails>,
}

impl Default for OrchestrationMetadata {
    fn default() -> (res: Self)
        ensures
            res.instance_id.0@ == Seq::<char>::empty(),
            res.name@ == Seq::<char>::empty(),
            res.runtime_status == OrchestrationStatus::Running,
            res.created_at == (Timestamp { seconds: 0, nanos: 0 }),
            res.last_updated_at == (Timestamp { seconds: 0, nanos: 0 }),
            res.serialized_input is None,
            res.serialized_output is None,
            res.serialized_custom_status is None,
            res.failure_details is None,
    {
        OrchestrationMetadata {
            instance_id: InstanceID(String::new()),
            name: String::new(),
            runtime_status: OrchestrationStatus::Running,
            created_at: Timestamp { seconds: 0, nanos: 0 },
            last_updated_at: Timestamp { seconds: 0, nanos: 0 },
            serialized_input: None,
            serialized_output: None,
            serialized_custom_status: None,
            failure_details: None,
        }
    }
}

/// Whether `status` is a terminal status.
pub open spec fn is_terminal_status(status: OrchestrationStatus) -> bool {
    ||| status == OrchestrationStatus::Completed
    ||| status == OrchestrationStatus::Failed
    ||| status == OrchestrationStatus::Terminated
    ||| status == OrchestrationStatus::Canceled
}

impl OrchestrationMetadata {
    /// A builder with no field set yet.
    pub fn builder() -> (r: OrchestrationMetadataBuilder)
        ensures
            r == OrchestrationMetadataBuilder::spec_empty(),
    {
        OrchestrationMetadataBuilder::new()
    }

    /// Whether the instance is still running, that is, not in a terminal
    /// status.
    pub fn is_running(&self) -> (r: bool)
        ensures
            r == !is_terminal_status(self.runtime_status),
    {
        !self.is_complete()
    }

    /// Whether the instance has reached a terminal status.
    pub fn is_complete(&self) -> (r: bool)
        ensures
            r == is_terminal_status(self.runtime_status),
    {
        match self.runtime_status {
            OrchestrationStatus::Completed => true,
            OrchestrationStatus::Failed => true,
            OrchestrationStatus::Terminated => true,
            OrchestrationStatus::Canceled => true,
            _ => false,
        }
    }
}

/// Accumulates the fields of a metadata projection; the identity, status and
/// time fields are required.
#[derive(Debug)]
pub struct OrchestrationMetadataBuilder {
    pub instance_id: Option<InstanceID>,
    pub name: Option<String>,
    pub status: Option<OrchestrationStatus>,
    pub created_at: Option<Timestamp>,
    pub last_updated_at: Option<Timestamp>,
    pub serialized_input: Option<String>,
    pub serialized_output: Option<String>,
    pub serialized_custom_status: Option<String>,
    pub failure_details: Option<TaskFailureDetails>,
}

impl OrchestrationMetadataBuilder {
    /// The builder value with no field set.
    pub open spec fn spec_empty() -> OrchestrationMetadataBuilder {
        OrchestrationMetadataBuilder {
            instance_id: None,
            name: None,
            status: None,
            created_at: None,
            last_updated_at: None,
            serialized_input: None,
            serialized_output: None,
            serialized_custom_status: None,
            failure_details: None,
        }
    }

    /// A builder with no field set yet.
    pub fn new() -> (r: Self)
        ensures
            r == Self::spec_empty(),
    {
        OrchestrationMetadataBuilder {
            instance_id: None,
            name: None,
            status: None,
            created_at: None,
            last_updated_at: None,
            serialized_input: None,
            serialized_output: None,
            serialized_custom_status: None,
            failure_details: None,
        }
    }

    /// Sets the instance id.
    pub fn instance_id(self, instance_id: InstanceID) -> (r: Self)
        ensures
            r == (OrchestrationMetadataBuilder { instance_id: Some(instance_id), ..self }),
    {
        OrchestrationMetadataBuilder { instance_id: Some(instance_id), ..self }
    }

    /// Sets the orchestration name.
    pub fn name(self, name: String) -> (r: Self)
        ensures
            r == (OrchestrationMetadataBuilder { name: Some(name), ..self }),
    {
        OrchestrationMetadataBuilder { name: Some(name), ..self }
    }

    /// Sets the runtime status.
    pub fn status(self, status: OrchestrationStatus) -> (r: Self)
        ensures
            r == (OrchestrationMetadataBuilder { status: Some(status), ..self }),
    {
        OrchestrationMetadataBuilder { status: Some(status), ..self }
    }

    /// Sets the creation time.
    pub fn created_at(self, created_at: Timestamp) -> (r: Self)
        ensures
            r == (OrchestrationMetadataBuilder { created_at: Some(created_at), ..self }),
    {
        OrchestrationMetadataBuilder { created_at: Some(created_at), ..self }
    }

    /// Sets the last-updated time.
    pub fn last_updated_at(self, last_updated_at: Timestamp) -> (r: Self)
        ensures
            r == (OrchestrationMetadataBuilder {
                last_updated_at: Some(last_updated_at),
                ..self
            }),
    {
        OrchestrationMetadataBuilder { last_updated_at: Some(last_updated_at), ..self }
    }

    /// Sets the serialized input payload.
    pub fn serialized_input(self, serialized_input: String) -> (r: Self)
        ensures
            r == (OrchestrationMetadataBuilder {
                serialized_input: Some(serialized_input),
                ..self
            }),
    {
        OrchestrationMetadataBuilder { serialized_input: Some(serialized_input), ..self }
    }

    /// Sets the serialized output payload.
    pub fn serialized_output(self, serialized_output: String) -> (r: Self)
        ensures
            r == (OrchestrationMetadataBuilder {
                serialized_output: Some(serialized_output),
                ..self
            }),
    {
        OrchestrationMetadataBuilder { serialized_output: Some(serialized_output), ..self }
    }

    /// Sets the serialized custom status.
    pub fn serialized_custom_status(self, serialized_custom_status: String) -> (r: Self)
        ensures
            r == (OrchestrationMetadataBuilder {
                serialized_custom_status: Some(serialized_custom_status),
                ..self
            }),
    {
        OrchestrationMetadataBuilder {
            serialized_custom_status: Some(serialized_custom_status),
            ..self
        }
    }

    /// Sets the failure details.
    pub fn failure_details(self, failure_details: TaskFailureDetails) -> (r: Self)
        ensures
            r == (OrchestrationMetadataBuilder {
                failure_details: Some(failure_details),
                ..self
            }),
    {
        OrchestrationMetadataBuilder { failure_details: Some(failure_details), ..self }
    }

    /// Emits the metadata projection, or the name of the first missing
    /// required field.
    pub fn build(self) -> (r: Result<OrchestrationMetadata, &'static str>)
        ensures
            match r {
                Ok(m) => {
                    &&& self.instance_id matches Some(id) && m.instance_id == id
                    &&& self.name matches Some(n) && m.name == n
                    &&& self.status matches Some(st) && m.runtime_status == st
                    &&& self.created_at matches Some(c) && m.created_at == c
                    &&& self.last_updated_at matches Some(u) && m.last_updated_at == u
                    &&& m.serialized_input == self.serialized_input
                    &&& m.serialized_output == self.serialized_output
                    &&& m.serialized_custom_status == self.serialized_custom_status
                    &&& m.failure_details == self.failure_details
                },
                Err(msg) => {
                    ||| self.instance_id is None
                    ||| self.name is None
                    ||| self.status is None
                    ||| self.created_at is None
                    ||| self.last_updated_at is None
                },
            },
    {
        let instance_id = match self.instance_id {
            Some(id) => id,
            None => {
                return Err("instance_id is required");
            },
        };
        let name = match self.name {
            Some(n) => n,
            None => {
                return Err("name is required");
            },
        };
        let status = match self.status {
            Some(st) => st,
            None => {
                return Err("status is required");
            },
        };
        let created_at = match self.created_at {
            Some(c) => c,
            None => {
                return Err("created_at is required");
            },
        };
        let last_updated_at = match self.last_updated_at {
            Some(u) => u,
            None => {
                return Err("last_updated_at is required");
            },
        };
        Ok(
            OrchestrationMetadata {
                instance_id: instance_id,
                name: name,
                runtime_status: status,
                created_at: created_at,
                last_updated_at: last_updated_at,
                serialized_input: self.serialized_input,
                serialized_output: self.serialized_output,
                serialized_custom_status: self.serialized_custom_status,
                failure_details: self.failure_details,
            },
        )
    }
}

} // verus!

verus! {

/// What a backend must do when a create-instance request names an instance
/// that already exists.
#[derive(Clone, Copy, Debug, PartialEq, Eq, Structural)]
pub enum IdReuseOutcome {
    /// Refuse the request as a duplicate instance.
    Duplicate,
    /// Drop the request without treating it as a failure.
    IgnoreRequest,
    /// Terminate the existing instance, recursively, then replace it.
    TerminateExisting,
}

/// Whether a status appears in a policy's reusable-status list.
pub open spec fn status_reusable(statuses: Seq<OrchestrationStatus>, status: OrchestrationStatus) -> bool {
    exists|i: int| 0 <= i < statuses.len() && statuses[i] == status
}

/// The outcome an id-reuse policy prescribes for an existing instance: a
/// status outside the policy's list is a duplicate; otherwise the policy's
/// action decides.
pub open spec fn spec_id_reuse_outcome(
    policy: OrchestrationIdReusePolicy,
    existing_status: OrchestrationStatus,
) -> IdReuseOutcome {
    if !status_reusable(policy.operation_status@, existing_status) {
        IdReuseOutcome::Duplicate
    } else {
        match policy.action {
            CreateOrchestrationAction::Error => IdReuseOutcome::Duplicate,
            CreateOrchestrationAction::Ignore => IdReuseOutcome::IgnoreRequest,
            CreateOrchestrationAction::Terminate => IdReuseOutcome::TerminateExisting,
        }
    }
}

/// The outcome an id-reuse policy prescribes for an existing instance in
/// the given status.
pub fn id_reuse_outcome(
    policy: &OrchestrationIdReusePolicy,
    existing_status: OrchestrationStatus,
) -> (r: IdReuseOutcome)
    ensures
        r == spec_id_reuse_outcome(*policy, existing_status),
{
    let mut reusable = false;
    let mut i: usize = 0;
    while i < policy.operation_status.len()
        invariant
            i <= policy.operation_status@.len(),
            reusable == exists|j: int|
                0 <= j < i && policy.operation_status@[j] == existing_status,
        decreases policy.operation_status@.len() - i,
    {
        if policy.operation_status[i] == existing_status {
            reusable = true;
        }
        i += 1;
    }
    if !reusable {
        IdReuseOutcome::Duplicate
    } else {
        match policy.action {
            CreateOrchestrationAction::Error => IdReuseOutcome::Duplicate,
            CreateOrchestrationAction::Ignore => IdReuseOutcome::IgnoreRequest,
            CreateOrchestrationAction::Terminate => IdReuseOutcome::TerminateExisting,
        }
    }
}

} // verus!
