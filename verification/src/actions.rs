use vstd::prelude::*;

use crate::events::{HistoryEvent, OrchestrationInstance, TaskFailureDetails};
use crate::status::OrchestrationStatus;
use crate::Timestamp;

verus! {

// ---------------------------------------------------------------------------
// Orchestrator actions.
// ---------------------------------------------------------------------------

/// The tagged payload of an orchestrator action.
#[derive(Debug, PartialEq)]
pub enum OrchestratorActionType {
    ScheduleTask { name: String, version: Option<String>, input: Option<String> },
    CreateTimer { fire_at: Timestamp },
    CreateSubOrchestration {
        name: String,
        version: Option<String>,
        input: Option<String>,
        instance_id: String,
    },
    SendEvent { instance: OrchestrationInstance, name: String, data: Option<String> },
    CompleteOrchestration {
        orchestration_status: OrchestrationStatus,
        result: Option<String>,
        carryover_events: Vec<HistoryEvent>,
        failure_details: Option<TaskFailureDetails>,
    },
    TerminateOrchestration { instance_id: String, recurse: bool, reason: Option<String> },
}

/// One instruction produced by orchestration logic: a correlation id and a
/// tagged payload. A missing payload is rejected when the action is applied.
#[derive(Debug, PartialEq)]
pub struct OrchestratorAction {
    pub id: i32,
    pub orchestrator_action_type: Option<OrchestratorActionType>,
}

// ---------------------------------------------------------------------------
// Action constructors.
// ---------------------------------------------------------------------------

/// Builds a `ScheduleTask` action.
pub fn new_schedule_task_action(task_id: i32, name: String, input: Option<String>) -> (a: OrchestratorAction)
    ensures
        a == (OrchestratorAction {
            id: task_id,
            orchestrator_action_type: Some(
                OrchestratorActionType::ScheduleTask { name: name, version: None, input: input },
            ),
        }),
{
    OrchestratorAction {
        id: task_id,
        orchestrator_action_type: Some(
            OrchestratorActionType::ScheduleTask { name: name, version: None, input: input },
        ),
    }
}

/// Builds a `CreateTimer` action.
pub fn new_create_timer_action(task_id: i32, fire_at: Timestamp) -> (a: OrchestratorAction)
    ensures
        a == (OrchestratorAction {
            id: task_id,
            orchestrator_action_type: Some(OrchestratorActionType::CreateTimer { fire_at: fire_at }),
        }),
{
    OrchestratorAction {
        id: task_id,
        orchestrator_action_type: Some(OrchestratorActionType::CreateTimer { fire_at: fire_at }),
    }
}

/// Builds a `SendEvent` action, not correlated to a task.
pub fn new_send_event_action(instance_id: String, name: String, data: Option<String>) -> (a: OrchestratorAction)
    ensures
        a == (OrchestratorAction {
            id: -1i32,
            orchestrator_action_type: Some(
                OrchestratorActionType::SendEvent {
                    instance: OrchestrationInstance { instance_id: instance_id, execution_id: None },
                    name: name,
                    data: data,
                },
            ),
        }),
{
    OrchestratorAction {
        id: -1i32,
        orchestrator_action_type: Some(
            OrchestratorActionType::SendEvent {
                instance: OrchestrationInstance { instance_id: instance_id, execution_id: None },
                name: name,
                data: data,
            },
        ),
    }
}

/// Builds a `CreateSubOrchestration` action.
pub fn new_create_sub_orchestration_action(
    task_id: i32,
    name: String,
    instance_id: String,
    input: Option<String>,
) -> (a: OrchestratorAction)
    ensures
        a == (OrchestratorAction {
            id: task_id,
            orchestrator_action_type: Some(
                OrchestratorActionType::CreateSubOrchestration {
                    name: name,
                    version: None,
                    input: input,
                    instance_id: instance_id,
                },
            ),
        }),
{
    OrchestratorAction {
        id: task_id,
        orchestrator_action_type: Some(
            OrchestratorActionType::CreateSubOrchestration {
                name: name,
                version: None,
                input: input,
                instance_id: instance_id,
            },
        ),
    }
}

/// Builds a `CompleteOrchestration` action.
pub fn new_complete_orchestration_action(
    task_id: i32,
    status: OrchestrationStatus,
    result: Option<String>,
    carryover_events: Vec<HistoryEvent>,
    failure_details: Option<TaskFailureDetails>,
) -> (a: OrchestratorAction)
    ensures
        a == (OrchestratorAction {
            id: task_id,
            orchestrator_action_type: Some(
                OrchestratorActionType::CompleteOrchestration {
                    orchestration_status: status,
                    result: result,
                    carryover_events: carryover_events,
                    failure_details: failure_details,
                },
            ),
        }),
{
    OrchestratorAction {
        id: task_id,
        orchestrator_action_type: Some(
            OrchestratorActionType::CompleteOrchestration {
                orchestration_status: status,
                result: result,
                carryover_events: carryover_events,
                failure_details: failure_details,
            },
        ),
    }
}

/// Builds a `TerminateOrchestration` action.
pub fn new_terminate_orchestration_action(
    task_id: i32,
    instance_id: String,
    recurse: bool,
    reason: Option<String>,
) -> (a: OrchestratorAction)
    ensures
        a == (OrchestratorAction {
            id: task_id,
            orchestrator_action_type: Some(
                OrchestratorActionType::TerminateOrchestration {
                    instance_id: instance_id,
                    recurse: recurse,
                    reason: reason,
                },
            ),
        }),
{
    OrchestratorAction {
        id: task_id,
        orchestrator_action_type: Some(
            OrchestratorActionType::TerminateOrchestration {
                instance_id: instance_id,
                recurse: recurse,
                reason: reason,
            },
        ),
    }
}

} // verus!
