use vstd::prelude::*;

use crate::status::OrchestrationStatus;
use crate::Timestamp;

verus! {

// ---------------------------------------------------------------------------
// Value types carried on history events.
// ---------------------------------------------------------------------------

/// W3C-style trace correlation data carried on events.
#[derive(Debug, PartialEq)]
pub struct TraceContext {
    pub trace_parent: String,
    pub span_id: String,
    pub trace_state: Option<String>,
}

/// The identity of one orchestration execution.
#[derive(Debug, PartialEq)]
pub struct OrchestrationInstance {
    pub instance_id: String,
    pub execution_id: Option<String>,
}

/// How a sub-orchestration points back at the orchestration that created it.
#[derive(Debug, PartialEq)]
pub struct ParentInstanceInfo {
    pub task_scheduled_id: i32,
    pub name: Option<String>,
    pub orchestration_instance: Option<OrchestrationInstance>,
}

/// A structured description of a task or orchestration failure.
#[derive(Debug, PartialEq)]
pub struct TaskFailureDetails {
    pub error_type: String,
    pub error_message: String,
    pub stack_trace: Option<String>,
}

/// The payload of an `ExecutionStarted` history event.
#[derive(Debug, PartialEq)]
pub struct ExecutionStartedEvent {
    pub name: String,
    pub input: Option<String>,
    pub orchestration_instance: Option<OrchestrationInstance>,
    pub parent_instance: Option<ParentInstanceInfo>,
    pub parent_trace_context: Option<TraceContext>,
    pub scheduled_start_timestamp: Option<Timestamp>,
}

/// The payload of an `ExecutionCompleted` history event.
#[derive(Debug, PartialEq)]
pub struct ExecutionCompletedEvent {
    pub orchestration_status: OrchestrationStatus,
    pub result: Option<String>,
    pub failure_details: Option<TaskFailureDetails>,
}

/// The tagged payload of a history event.
#[derive(Debug, PartialEq)]
pub enum EventType {
    ExecutionStarted(ExecutionStartedEvent),
    ExecutionCompleted(ExecutionCompletedEvent),
    ExecutionTerminated { input: Option<String>, recurse: bool },
    ExecutionSuspended { input: Option<String> },
    ExecutionResumed { input: Option<String> },
    OrchestratorStarted,
    OrchestratorCompleted,
    TaskScheduled {
        name: String,
        version: Option<String>,
        input: Option<String>,
        parent_trace_context: Option<TraceContext>,
    },
    TaskCompleted { task_scheduled_id: i32, result: Option<String> },
    TaskFailed { task_scheduled_id: i32, failure_details: Option<TaskFailureDetails> },
    TimerCreated { fire_at: Timestamp },
    TimerFired { timer_id: i32, fire_at: Timestamp },
    SubOrchestrationInstanceCreated {
        instance_id: String,
        name: String,
        version: Option<String>,
        input: Option<String>,
        parent_trace_context: Option<TraceContext>,
    },
    SubOrchestrationInstanceCompleted { task_scheduled_id: i32, result: Option<String> },
    SubOrchestrationInstanceFailed {
        task_scheduled_id: i32,
        failure_details: Option<TaskFailureDetails>,
    },
    EventSent { instance_id: String, name: String, input: Option<String> },
    EventRaised { name: String, input: Option<String> },
    GenericEvent { data: Option<String> },
    HistoryState,
    ContinueAsNew { input: Option<String> },
}

/// One entry of an orchestration's history: an id correlating the entry to an
/// outstanding task (`-1` where there is none), a wall-clock timestamp, and
/// the tagged payload.
#[derive(Debug, PartialEq)]
pub struct HistoryEvent {
    pub event_id: i32,
    pub timestamp: Timestamp,
    pub event_type: Option<EventType>,
}

// ---------------------------------------------------------------------------
// Cloning, with the copy provably equal to the original.
// ---------------------------------------------------------------------------

pub fn clone_opt_string(o: &Option<String>) -> (r: Option<String>)
    ensures
        r == *o,
{
    match o {
        Option::None => Option::None,
        Option::Some(s) => Option::Some(s.clone()),
    }
}

impl Clone for TraceContext {
    fn clone(&self) -> (res: Self)
        ensures
            res == *self,
    {
        TraceContext {
            trace_parent: self.trace_parent.clone(),
            span_id: self.span_id.clone(),
            trace_state: clone_opt_string(&self.trace_state),
        }
    }
}

pub fn clone_opt_trace_context(o: &Option<TraceContext>) -> (r: Option<TraceContext>)
    ensures
        r == *o,
{
    match o {
        Option::None => Option::None,
        Option::Some(t) => Option::Some(t.clone()),
    }
}

impl Clone for OrchestrationInstance {
    fn clone(&self) -> (res: Self)
        ensures
            res == *self,
    {
        OrchestrationInstance {
            instance_id: self.instance_id.clone(),
            execution_id: clone_opt_string(&self.execution_id),
        }
    }
}

pub fn clone_opt_orchestration_instance(
    o: &Option<OrchestrationInstance>,
) -> (r: Option<OrchestrationInstance>)
    ensures
        r == *o,
{
    match o {
        Option::None => Option::None,
        Option::Some(t) => Option::Some(t.clone()),
    }
}

impl Clone for ParentInstanceInfo {
    fn clone(&self) -> (res: Self)
        ensures
            res == *self,
    {
        ParentInstanceInfo {
            task_scheduled_id: self.task_scheduled_id,
            name: clone_opt_string(&self.name),
            orchestration_instance: clone_opt_orchestration_instance(
                &self.orchestration_instance,
            ),
        }
    }
}

pub fn clone_opt_parent_instance_info(
    o: &Option<ParentInstanceInfo>,
) -> (r: Option<ParentInstanceInfo>)
    ensures
        r == *o,
{
    match o {
        Option::None => Option::None,
        Option::Some(t) => Option::Some(t.clone()),
    }
}

impl Clone for TaskFailureDetails {
    fn clone(&self) -> (res: Self)
        ensures
            res == *self,
    {
        TaskFailureDetails {
            error_type: self.error_type.clone(),
            error_message: self.error_message.clone(),
            stack_trace: clone_opt_string(&self.stack_trace),
        }
    }
}

pub fn clone_opt_failure_details(
    o: &Option<TaskFailureDetails>,
) -> (r: Option<TaskFailureDetails>)
    ensures
        r == *o,
{
    match o {
        Option::None => Option::None,
        Option::Some(t) => Option::Some(t.clone()),
    }
}

impl Clone for ExecutionStartedEvent {
    fn clone(&self) -> (res: Self)
        ensures
            res == *self,
    {
        ExecutionStartedEvent {
            name: self.name.clone(),
            input: clone_opt_string(&self.input),
            orchestration_instance: clone_opt_orchestration_instance(
                &self.orchestration_instance,
            ),
            parent_instance: clone_opt_parent_instance_info(&self.parent_instance),
            parent_trace_context: clone_opt_trace_context(&self.parent_trace_context),
            scheduled_start_timestamp: self.scheduled_start_timestamp,
        }
    }
}

impl Clone for ExecutionCompletedEvent {
    fn clone(&self) -> (res: Self)
        ensures
            res == *self,
    {
        ExecutionCompletedEvent {
            orchestration_status: self.orchestration_status,
            result: clone_opt_string(&self.result),
            failure_details: clone_opt_failure_details(&self.failure_details),
        }
    }
}

impl Clone for EventType {
    fn clone(&self) -> (res: Self)
        ensures
            res == *self,
    {
        match self {
            EventType::ExecutionStarted(se) => EventType::ExecutionStarted(se.clone()),
            EventType::ExecutionCompleted(ce) => EventType::ExecutionCompleted(ce.clone()),
            EventType::ExecutionTerminated { input, recurse } => EventType::ExecutionTerminated {
                input: clone_opt_string(input),
                recurse: *recurse,
            },
            EventType::ExecutionSuspended { input } => EventType::ExecutionSuspended {
                input: clone_opt_string(input),
            },
            EventType::ExecutionResumed { input } => EventType::ExecutionResumed {
                input: clone_opt_string(input),
            },
            EventType::OrchestratorStarted => EventType::OrchestratorStarted,
            EventType::OrchestratorCompleted => EventType::OrchestratorCompleted,
            EventType::TaskScheduled { name, version, input, parent_trace_context } => {
                EventType::TaskScheduled {
                    name: name.clone(),
                    version: clone_opt_string(version),
                    input: clone_opt_string(input),
                    parent_trace_context: clone_opt_trace_context(parent_trace_context),
                }
            },
            EventType::TaskCompleted { task_scheduled_id, result } => EventType::TaskCompleted {
                task_scheduled_id: *task_scheduled_id,
                result: clone_opt_string(result),
            },
            EventType::TaskFailed { task_scheduled_id, failure_details } => EventType::TaskFailed {
                task_scheduled_id: *task_scheduled_id,
                failure_details: clone_opt_failure_details(failure_details),
            },
            EventType::TimerCreated { fire_at } => EventType::TimerCreated { fire_at: *fire_at },
            EventType::TimerFired { timer_id, fire_at } => EventType::TimerFired {
                timer_id: *timer_id,
                fire_at: *fire_at,
            },
            EventType::SubOrchestrationInstanceCreated {
                instance_id,
                name,
                version,
                input,
                parent_trace_context,
            } => EventType::SubOrchestrationInstanceCreated {
                instance_id: instance_id.clone(),
                name: name.clone(),
                version: clone_opt_string(version),
                input: clone_opt_string(input),
                parent_trace_context: clone_opt_trace_context(parent_trace_context),
            },
            EventType::SubOrchestrationInstanceCompleted { task_scheduled_id, result } => {
                EventType::SubOrchestrationInstanceCompleted {
                    task_scheduled_id: *task_scheduled_id,
                    result: clone_opt_string(result),
                }
            },
            EventType::SubOrchestrationInstanceFailed { task_scheduled_id, failure_details } => {
                EventType::SubOrchestrationInstanceFailed {
                    task_scheduled_id: *task_scheduled_id,
                    failure_details: clone_opt_failure_details(failure_details),
                }
            },
            EventType::EventSent { instance_id, name, input } => EventType::EventSent {
                instance_id: instance_id.clone(),
                name: name.clone(),
                input: clone_opt_string(input),
            },
            EventType::EventRaised { name, input } => EventType::EventRaised {
                name: name.clone(),
                input: clone_opt_string(input),
            },
            EventType::GenericEvent { data } => EventType::GenericEvent {
                data: clone_opt_string(data),
            },
            EventType::HistoryState => EventType::HistoryState,
            EventType::ContinueAsNew { input } => EventType::ContinueAsNew {
                input: clone_opt_string(input),
            },
        }
    }
}

impl Clone for HistoryEvent {
    fn clone(&self) -> (res: Self)
        ensures
            res == *self,
    {
        HistoryEvent {
            event_id: self.event_id,
            timestamp: self.timestamp,
            event_type: match &self.event_type {
                Option::None => Option::None,
                Option::Some(t) => Option::Some(t.clone()),
            },
        }
    }
}

} // verus!

use vstd::prelude::*;

verus! {

// ---------------------------------------------------------------------------
// Canonical event values and their constructors.
// ---------------------------------------------------------------------------

/// The canonical `ExecutionStarted` event value.
pub open spec fn started_event(
    name: String,
    instance_id: String,
    input: Option<String>,
    parent: Option<ParentInstanceInfo>,
    parent_trace_context: Option<TraceContext>,
    scheduled_start_timestamp: Option<Timestamp>,
    execution_id: String,
    ts: Timestamp,
) -> HistoryEvent {
    HistoryEvent {
        event_id: -1i32,
        timestamp: ts,
        event_type: Some(
            EventType::ExecutionStarted(
                ExecutionStartedEvent {
                    name: name,
                    input: input,
                    orchestration_instance: Some(
                        OrchestrationInstance {
                            instance_id: instance_id,
                            execution_id: Some(execution_id),
                        },
                    ),
                    parent_instance: parent,
                    parent_trace_context: parent_trace_context,
                    scheduled_start_timestamp: scheduled_start_timestamp,
                },
            ),
        ),
    }
}

/// Builds an `ExecutionStarted` event. The caller supplies the freshly drawn
/// execution id and the wall-clock timestamp.
pub fn new_execution_started_event(
    name: String,
    instance_id: String,
    input: Option<String>,
    parent: Option<ParentInstanceInfo>,
    parent_trace_context: Option<TraceContext>,
    scheduled_start_timestamp: Option<Timestamp>,
    execution_id: String,
    ts: Timestamp,
) -> (e: HistoryEvent)
    ensures
        e == started_event(
            name,
            instance_id,
            input,
            parent,
            parent_trace_context,
            scheduled_start_timestamp,
            execution_id,
            ts,
        ),
{
    HistoryEvent {
        event_id: -1i32,
        timestamp: ts,
        event_type: Some(
            EventType::ExecutionStarted(
                ExecutionStartedEvent {
                    name: name,
                    input: input,
                    orchestration_instance: Some(
                        OrchestrationInstance {
                            instance_id: instance_id,
                            execution_id: Some(execution_id),
                        },
                    ),
                    parent_instance: parent,
                    parent_trace_context: parent_trace_context,
                    scheduled_start_timestamp: scheduled_start_timestamp,
                },
            ),
        ),
    }
}

/// The canonical `ExecutionCompleted` event value.
pub open spec fn completed_event(
    event_id: i32,
    status: OrchestrationStatus,
    result: Option<String>,
    failure_details: Option<TaskFailureDetails>,
    ts: Timestamp,
) -> HistoryEvent {
    HistoryEvent {
        event_id: event_id,
        timestamp: ts,
        event_type: Some(
            EventType::ExecutionCompleted(
                ExecutionCompletedEvent {
                    orchestration_status: status,
                    result: result,
                    failure_details: failure_details,
                },
            ),
        ),
    }
}

/// Builds an `ExecutionCompleted` event.
pub fn new_execution_completed_event(
    event_id: i32,
    status: OrchestrationStatus,
    result: Option<String>,
    failure_details: Option<TaskFailureDetails>,
    ts: Timestamp,
) -> (e: HistoryEvent)
    ensures
        e == completed_event(event_id, status, result, failure_details, ts),
{
    HistoryEvent {
        event_id: event_id,
        timestamp: ts,
        event_type: Some(
            EventType::ExecutionCompleted(
                ExecutionCompletedEvent {
                    orchestration_status: status,
                    result: result,
                    failure_details: failure_details,
                },
            ),
        ),
    }
}

/// The canonical `ExecutionTerminated` event value.
pub open spec fn terminated_event(reason: Option<String>, recurse: bool, ts: Timestamp) -> HistoryEvent {
    HistoryEvent {
        event_id: -1i32,
        timestamp: ts,
        event_type: Some(EventType::ExecutionTerminated { input: reason, recurse: recurse }),
    }
}

/// Builds an `ExecutionTerminated` event.
pub fn new_execution_terminated_event(
    reason: Option<String>,
    recurse: bool,
    ts: Timestamp,
) -> (e: HistoryEvent)
    ensures
        e == terminated_event(reason, recurse, ts),
{
    HistoryEvent {
        event_id: -1i32,
        timestamp: ts,
        event_type: Some(EventType::ExecutionTerminated { input: reason, recurse: recurse }),
    }
}

/// Builds an `OrchestratorStarted` event.
pub fn new_orchestrator_started_event(ts: Timestamp) -> (e: HistoryEvent)
    ensures
        e == (HistoryEvent {
            event_id: -1i32,
            timestamp: ts,
            event_type: Some(EventType::OrchestratorStarted),
        }),
{
    HistoryEvent { event_id: -1i32, timestamp: ts, event_type: Some(EventType::OrchestratorStarted) }
}

/// Builds an `EventRaised` event.
pub fn new_event_raised_event(name: String, input: Option<String>, ts: Timestamp) -> (e: HistoryEvent)
    ensures
        e == (HistoryEvent {
            event_id: -1i32,
            timestamp: ts,
            event_type: Some(EventType::EventRaised { name: name, input: input }),
        }),
{
    HistoryEvent {
        event_id: -1i32,
        timestamp: ts,
        event_type: Some(EventType::EventRaised { name: name, input: input }),
    }
}

/// The canonical `TaskScheduled` event value; the event id carries the task id.
pub open spec fn task_scheduled_event(
    task_id: i32,
    name: String,
    version: Option<String>,
    input: Option<String>,
    trace_context: Option<TraceContext>,
    ts: Timestamp,
) -> HistoryEvent {
    HistoryEvent {
        event_id: task_id,
        timestamp: ts,
        event_type: Some(
            EventType::TaskScheduled {
                name: name,
                version: version,
                input: input,
                parent_trace_context: trace_context,
            },
        ),
    }
}

/// Builds a `TaskScheduled` event.
pub fn new_task_scheduled_event(
    task_id: i32,
    name: String,
    version: Option<String>,
    input: Option<String>,
    trace_context: Option<TraceContext>,
    ts: Timestamp,
) -> (e: HistoryEvent)
    ensures
        e == task_scheduled_event(task_id, name, version, input, trace_context, ts),
{
    HistoryEvent {
        event_id: task_id,
        timestamp: ts,
        event_type: Some(
            EventType::TaskScheduled {
                name: name,
                version: version,
                input: input,
                parent_trace_context: trace_context,
            },
        ),
    }
}

/// Builds a `TaskCompleted` event.
pub fn new_task_completed_event(task_id: i32, result: Option<String>, ts: Timestamp) -> (e: HistoryEvent)
    ensures
        e == (HistoryEvent {
            event_id: -1i32,
            timestamp: ts,
            event_type: Some(
                EventType::TaskCompleted { task_scheduled_id: task_id, result: result },
            ),
        }),
{
    HistoryEvent {
        event_id: -1i32,
        timestamp: ts,
        event_type: Some(EventType::TaskCompleted { task_scheduled_id: task_id, result: result }),
    }
}

/// Builds a `TaskFailed` event.
pub fn new_task_failed_event(
    task_id: i32,
    failure_details: Option<TaskFailureDetails>,
    ts: Timestamp,
) -> (e: HistoryEvent)
    ensures
        e == (HistoryEvent {
            event_id: -1i32,
            timestamp: ts,
            event_type: Some(
                EventType::TaskFailed {
                    task_scheduled_id: task_id,
                    failure_details: failure_details,
                },
            ),
        }),
{
    HistoryEvent {
        event_id: -1i32,
        timestamp: ts,
        event_type: Some(
            EventType::TaskFailed { task_scheduled_id: task_id, failure_details: failure_details },
        ),
    }
}

/// The canonical `TimerCreated` event value; the event id carries the timer id.
pub open spec fn timer_created_event(event_id: i32, fire_at: Timestamp, ts: Timestamp) -> HistoryEvent {
    HistoryEvent {
        event_id: event_id,
        timestamp: ts,
        event_type: Some(EventType::TimerCreated { fire_at: fire_at }),
    }
}

/// Builds a `TimerCreated` event.
pub fn new_timer_created_event(event_id: i32, fire_at: Timestamp, ts: Timestamp) -> (e: HistoryEvent)
    ensures
        e == timer_created_event(event_id, fire_at, ts),
{
    HistoryEvent {
        event_id: event_id,
        timestamp: ts,
        event_type: Some(EventType::TimerCreated { fire_at: fire_at }),
    }
}

/// The canonical `TimerFired` event value, not yet correlated to a task.
pub open spec fn timer_fired_event(timer_id: i32, fire_at: Timestamp, ts: Timestamp) -> HistoryEvent {
    HistoryEvent {
        event_id: -1i32,
        timestamp: ts,
        event_type: Some(EventType::TimerFired { timer_id: timer_id, fire_at: fire_at }),
    }
}

/// Builds a `TimerFired` event.
pub fn new_timer_fired_event(timer_id: i32, fire_at: Timestamp, ts: Timestamp) -> (e: HistoryEvent)
    ensures
        e == timer_fired_event(timer_id, fire_at, ts),
{
    HistoryEvent {
        event_id: -1i32,
        timestamp: ts,
        event_type: Some(EventType::TimerFired { timer_id: timer_id, fire_at: fire_at }),
    }
}

/// The canonical `SubOrchestrationInstanceCreated` event value.
pub open spec fn sub_orchestration_created_event(
    event_id: i32,
    name: String,
    version: Option<String>,
    input: Option<String>,
    instance_id: String,
    parent_trace_context: Option<TraceContext>,
    ts: Timestamp,
) -> HistoryEvent {
    HistoryEvent {
        event_id: event_id,
        timestamp: ts,
        event_type: Some(
            EventType::SubOrchestrationInstanceCreated {
                instance_id: instance_id,
                name: name,
                version: version,
                input: input,
                parent_trace_context: parent_trace_context,
            },
        ),
    }
}

/// Builds a `SubOrchestrationInstanceCreated` event.
pub fn new_sub_orchestration_created_event(
    event_id: i32,
    name: String,
    version: Option<String>,
    input: Option<String>,
    instance_id: String,
    parent_trace_context: Option<TraceContext>,
    ts: Timestamp,
) -> (e: HistoryEvent)
    ensures
        e == sub_orchestration_created_event(
            event_id,
            name,
            version,
            input,
            instance_id,
            parent_trace_context,
            ts,
        ),
{
    HistoryEvent {
        event_id: event_id,
        timestamp: ts,
        event_type: Some(
            EventType::SubOrchestrationInstanceCreated {
                instance_id: instance_id,
                name: name,
                version: version,
                input: input,
                parent_trace_context: parent_trace_context,
            },
        ),
    }
}

/// The canonical `SubOrchestrationInstanceCompleted` event value, used to
/// notify a parent orchestration.
pub open spec fn sub_orchestration_completed_event(
    task_scheduled_id: i32,
    result: Option<String>,
    ts: Timestamp,
) -> HistoryEvent {
    HistoryEvent {
        event_id: -1i32,
        timestamp: ts,
        event_type: Some(
            EventType::SubOrchestrationInstanceCompleted {
                task_scheduled_id: task_scheduled_id,
                result: result,
            },
        ),
    }
}

/// Builds a `SubOrchestrationInstanceCompleted` event.
pub fn new_sub_orchestration_completed_event(
    task_scheduled_id: i32,
    result: Option<String>,
    ts: Timestamp,
) -> (e: HistoryEvent)
    ensures
        e == sub_orchestration_completed_event(task_scheduled_id, result, ts),
{
    HistoryEvent {
        event_id: -1i32,
        timestamp: ts,
        event_type: Some(
            EventType::SubOrchestrationInstanceCompleted {
                task_scheduled_id: task_scheduled_id,
                result: result,
            },
        ),
    }
}

/// The canonical `EventSent` event value; the event id carries the action id.
pub open spec fn event_sent_event(
    event_id: i32,
    instance_id: String,
    name: String,
    input: Option<String>,
    ts: Timestamp,
) -> HistoryEvent {
    HistoryEvent {
        event_id: event_id,
        timestamp: ts,
        event_type: Some(
            EventType::EventSent { instance_id: instance_id, name: name, input: input },
        ),
    }
}

/// Builds an `EventSent` event.
pub fn new_event_sent_event(
    event_id: i32,
    instance_id: String,
    name: String,
    input: Option<String>,
    ts: Timestamp,
) -> (e: HistoryEvent)
    ensures
        e == event_sent_event(event_id, instance_id, name, input, ts),
{
    HistoryEvent {
        event_id: event_id,
        timestamp: ts,
        event_type: Some(
            EventType::EventSent { instance_id: instance_id, name: name, input: input },
        ),
    }
}

/// Builds an `ExecutionSuspended` event.
pub fn new_suspend_orchestration_event(reason: Option<String>, ts: Timestamp) -> (e: HistoryEvent)
    ensures
        e == (HistoryEvent {
            event_id: -1i32,
            timestamp: ts,
            event_type: Some(EventType::ExecutionSuspended { input: reason }),
        }),
{
    HistoryEvent {
        event_id: -1i32,
        timestamp: ts,
        event_type: Some(EventType::ExecutionSuspended { input: reason }),
    }
}

/// Builds an `ExecutionResumed` event.
pub fn new_resume_orchestration_event(reason: Option<String>, ts: Timestamp) -> (e: HistoryEvent)
    ensures
        e == (HistoryEvent {
            event_id: -1i32,
            timestamp: ts,
            event_type: Some(EventType::ExecutionResumed { input: reason }),
        }),
{
    HistoryEvent {
        event_id: -1i32,
        timestamp: ts,
        event_type: Some(EventType::ExecutionResumed { input: reason }),
    }
}

/// The canonical parent reference handed to a sub-orchestration.
pub open spec fn parent_info(task_id: i32, name: String, instance_id: String) -> ParentInstanceInfo {
    ParentInstanceInfo {
        task_scheduled_id: task_id,
        name: Some(name),
        orchestration_instance: Some(
            OrchestrationInstance { instance_id: instance_id, execution_id: None },
        ),
    }
}

/// Builds the parent reference handed to a sub-orchestration.
pub fn new_parent_info(task_id: i32, name: String, instance_id: String) -> (p: ParentInstanceInfo)
    ensures
        p == parent_info(task_id, name, instance_id),
{
    ParentInstanceInfo {
        task_scheduled_id: task_id,
        name: Some(name),
        orchestration_instance: Some(
            OrchestrationInstance { instance_id: instance_id, execution_id: None },
        ),
    }
}

} // verus!

use vstd::prelude::*;

verus! {

/// Builds the failure record for an error: the error's type name and its
/// rendered message.
pub fn new_task_failure_details(error_type: String, error_message: String) -> (r: TaskFailureDetails)
    ensures
        r == (TaskFailureDetails {
            error_type: error_type,
            error_message: error_message,
            stack_trace: None,
        }),
{
    TaskFailureDetails { error_type: error_type, error_message: error_message, stack_trace: None }
}

} // verus!
