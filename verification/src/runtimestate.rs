use vstd::prelude::*;

use crate::api::InstanceID;
use crate::events::{
    EventType, ExecutionCompletedEvent, ExecutionStartedEvent, HistoryEvent, TaskFailureDetails,
};
use crate::status::OrchestrationStatus;
use crate::Timestamp;

verus! {

// ---------------------------------------------------------------------------
// Errors raised by the runtime-state machine.
// ---------------------------------------------------------------------------

/// What can go wrong while ingesting events or applying actions.
#[derive(Clone, Copy, Debug, PartialEq, Eq, Structural)]
pub enum RuntimeStateError {
    DuplicateStart,
    DuplicateCompleted,
    UnknownAction,
    NotStarted,
    NotCompleted,
    NoFailures,
}

impl RuntimeStateError {
    /// A human-readable description of the error.
    pub fn message(&self) -> (r: String)
        ensures
            r@ == match *self {
                RuntimeStateError::DuplicateStart => "Duplicate start event"@,
                RuntimeStateError::DuplicateCompleted => "Duplicate completed event"@,
                RuntimeStateError::UnknownAction => "Unknown action type"@,
                RuntimeStateError::NotStarted => "orchestration has not started"@,
                RuntimeStateError::NotCompleted => "orchestration has not yet completed"@,
                RuntimeStateError::NoFailures => "orchestration did not report failure details"@,
            },
    {
        match self {
            RuntimeStateError::DuplicateStart => String::from_str("Duplicate start event"),
            RuntimeStateError::DuplicateCompleted => String::from_str("Duplicate completed event"),
            RuntimeStateError::UnknownAction => String::from_str("Unknown action type"),
            RuntimeStateError::NotStarted => String::from_str("orchestration has not started"),
            RuntimeStateError::NotCompleted => String::from_str(
                "orchestration has not yet completed",
            ),
            RuntimeStateError::NoFailures => String::from_str(
                "orchestration did not report failure details",
            ),
        }
    }
}

// ---------------------------------------------------------------------------
// Cross-instance messages.
// ---------------------------------------------------------------------------

/// An event to be delivered to another instance when the episode commits.
#[derive(Debug, PartialEq)]
pub struct OrchestratorMessage {
    pub history_event: Option<HistoryEvent>,
    pub target_instance_id: String,
}

// ---------------------------------------------------------------------------
// The abstract state.
// ---------------------------------------------------------------------------

/// The mathematical model of a runtime state: every field of the aggregate,
/// with event lists as sequences.
#[verifier::ext_equal]
pub ghost struct RuntimeStateModel {
    pub instance_id: String,
    pub old_events: Seq<HistoryEvent>,
    pub new_events: Seq<HistoryEvent>,
    pub pending_tasks: Seq<HistoryEvent>,
    pub pending_timers: Seq<HistoryEvent>,
    pub pending_messages: Seq<OrchestratorMessage>,
    pub start_event: Option<ExecutionStartedEvent>,
    pub completed_event: Option<ExecutionCompletedEvent>,
    pub created_time: Option<Timestamp>,
    pub last_updated_time: Option<Timestamp>,
    pub completed_time: Option<Timestamp>,
    pub continued_as_new: bool,
    pub is_suspended: bool,
    pub custom_status: Option<String>,
}

/// The state of an instance that has seen no event at all.
pub open spec fn empty_model(instance_id: String) -> RuntimeStateModel {
    RuntimeStateModel {
        instance_id: instance_id,
        old_events: Seq::empty(),
        new_events: Seq::empty(),
        pending_tasks: Seq::empty(),
        pending_timers: Seq::empty(),
        pending_messages: Seq::empty(),
        start_event: None,
        completed_event: None,
        created_time: None,
        last_updated_time: None,
        completed_time: None,
        continued_as_new: false,
        is_suspended: false,
        custom_status: None,
    }
}

/// Why an event is rejected, if it is: a second `ExecutionStarted` or a
/// second `ExecutionCompleted`.
pub open spec fn add_event_check(
    m: RuntimeStateModel,
    e: HistoryEvent,
) -> Option<RuntimeStateError> {
    match e.event_type {
        Some(EventType::ExecutionStarted(..)) => if m.start_event is Some {
            Some(RuntimeStateError::DuplicateStart)
        } else {
            None
        },
        Some(EventType::ExecutionCompleted(..)) => if m.completed_event is Some {
            Some(RuntimeStateError::DuplicateCompleted)
        } else {
            None
        },
        _ => None,
    }
}

/// The state after ingesting `e`, provided `add_event_check` accepts it: the
/// lifecycle caches are updated, the update clock advances to the event's
/// timestamp, and the event is appended to the new or the committed list.
pub open spec fn add_event_model(
    m: RuntimeStateModel,
    e: HistoryEvent,
    is_new: bool,
) -> RuntimeStateModel {
    let m1 = match e.event_type {
        Some(EventType::ExecutionStarted(se)) => RuntimeStateModel {
            start_event: Some(se),
            created_time: Some(e.timestamp),
            ..m
        },
        Some(EventType::ExecutionCompleted(ce)) => RuntimeStateModel {
            completed_event: Some(ce),
            completed_time: Some(e.timestamp),
            ..m
        },
        Some(EventType::ExecutionSuspended { .. }) => RuntimeStateModel {
            is_suspended: true,
            ..m
        },
        Some(EventType::ExecutionResumed { .. }) => RuntimeStateModel {
            is_suspended: false,
            ..m
        },
        _ => m,
    };
    let m2 = RuntimeStateModel { last_updated_time: Some(e.timestamp), ..m1 };
    if is_new {
        RuntimeStateModel { new_events: m2.new_events.push(e), ..m2 }
    } else {
        RuntimeStateModel { old_events: m2.old_events.push(e), ..m2 }
    }
}

/// The state after replaying a committed history in order, swallowing
/// rejected events as the constructor does.
pub open spec fn replay_model(
    m: RuntimeStateModel,
    history: Seq<HistoryEvent>,
) -> RuntimeStateModel
    decreases history.len(),
{
    if history.len() == 0 {
        m
    } else {
        let m1 = if add_event_check(m, history[0]) is None {
            add_event_model(m, history[0], false)
        } else {
            m
        };
        replay_model(m1, history.skip(1))
    }
}

/// One replay step at the end of a history: replaying `s` then ingesting `e`
/// is replaying `s.push(e)`.
pub proof fn lemma_replay_push(m: RuntimeStateModel, s: Seq<HistoryEvent>, e: HistoryEvent)
    ensures
        replay_model(m, s.push(e)) == ({
            let mr = replay_model(m, s);
            if add_event_check(mr, e) is None {
                add_event_model(mr, e, false)
            } else {
                mr
            }
        }),
    decreases s.len(),
{
    reveal_with_fuel(replay_model, 3);
    if s.len() == 0 {
        assert(s.push(e)[0] == e);
        assert(s.push(e).skip(1) =~= Seq::<HistoryEvent>::empty());
    } else {
        assert(s.push(e)[0] == s[0]);
        assert(s.push(e).skip(1) =~= s.skip(1).push(e));
        let m1 = if add_event_check(m, s[0]) is None {
            add_event_model(m, s[0], false)
        } else {
            m
        };
        lemma_replay_push(m1, s.skip(1), e);
    }
}

/// The timing caches a state built through the constructors always has: a
/// start or completion is cached only together with its wall-clock times.
pub open spec fn state_wf(m: RuntimeStateModel) -> bool {
    &&& m.start_event is Some ==> m.created_time is Some && m.last_updated_time is Some
    &&& m.completed_event is Some ==> m.completed_time is Some && m.last_updated_time is Some
}

/// Ingesting any event preserves well-formedness.
pub proof fn lemma_add_event_wf(m: RuntimeStateModel, e: HistoryEvent, is_new: bool)
    requires
        state_wf(m),
    ensures
        state_wf(add_event_model(m, e, is_new)),
{
}

/// Replay preserves well-formedness.
pub proof fn lemma_replay_wf(m: RuntimeStateModel, history: Seq<HistoryEvent>)
    requires
        state_wf(m),
    ensures
        state_wf(replay_model(m, history)),
    decreases history.len(),
{
    if history.len() > 0 {
        let m1 = if add_event_check(m, history[0]) is None {
            add_event_model(m, history[0], false)
        } else {
            m
        };
        lemma_replay_wf(m1, history.skip(1));
    }
}

/// The status an orchestration reports: pending before any start, suspended
/// while suspended, the completion's status once completed, running
/// otherwise.
pub open spec fn runtime_status_model(m: RuntimeStateModel) -> OrchestrationStatus {
    if m.start_event is None {
        OrchestrationStatus::Pending
    } else if m.is_suspended {
        OrchestrationStatus::Suspended
    } else {
        match m.completed_event {
            Some(ce) => ce.orchestration_status,
            None => OrchestrationStatus::Running,
        }
    }
}

// ---------------------------------------------------------------------------
// The aggregate.
// ---------------------------------------------------------------------------

/// The event-sourced state of one orchestration instance: its committed and
/// uncommitted history, the work its actions produced but the backend has
/// not dispatched yet, and cached lifecycle facts.
#[derive(Debug)]
pub struct OrchestrationRuntimeState {
    pub(crate) instance_id: InstanceID,
    pub(crate) new_events: Vec<HistoryEvent>,
    pub(crate) old_events: Vec<HistoryEvent>,
    pub(crate) pending_tasks: Vec<HistoryEvent>,
    pub(crate) pending_timers: Vec<HistoryEvent>,
    pub(crate) pending_messages: Vec<OrchestratorMessage>,
    pub(crate) start_event: Option<ExecutionStartedEvent>,
    pub(crate) completed_event: Option<ExecutionCompletedEvent>,
    pub(crate) created_time: Option<Timestamp>,
    pub(crate) last_updated_time: Option<Timestamp>,
    pub(crate) completed_time: Option<Timestamp>,
    pub(crate) continued_as_new: bool,
    pub(crate) is_suspended: bool,
    pub(crate) custom_status: Option<String>,
}

impl View for OrchestrationRuntimeState {
    type V = RuntimeStateModel;

    closed spec fn view(&self) -> RuntimeStateModel {
        RuntimeStateModel {
            instance_id: self.instance_id.0,
            old_events: self.old_events@,
            new_events: self.new_events@,
            pending_tasks: self.pending_tasks@,
            pending_timers: self.pending_timers@,
            pending_messages: self.pending_messages@,
            start_event: self.start_event,
            completed_event: self.completed_event,
            created_time: self.created_time,
            last_updated_time: self.last_updated_time,
            completed_time: self.completed_time,
            continued_as_new: self.continued_as_new,
            is_suspended: self.is_suspended,
            custom_status: self.custom_status,
        }
    }
}

impl OrchestrationRuntimeState {
    /// A fresh aggregate for `instance_id` that replays `existing_history`
    /// in order as committed events, swallowing rejected entries.
    pub fn new(instance_id: &InstanceID, existing_history: &[HistoryEvent]) -> (s: Self)
        ensures
            s@ == replay_model(empty_model(instance_id.0), existing_history@),
            state_wf(s@),
    {
        let mut state = OrchestrationRuntimeState {
            instance_id: instance_id.clone(),
            new_events: Vec::new(),
            old_events: Vec::new(),
            pending_tasks: Vec::new(),
            pending_timers: Vec::new(),
            pending_messages: Vec::new(),
            start_event: None,
            completed_event: None,
            created_time: None,
            last_updated_time: None,
            completed_time: None,
            continued_as_new: false,
            is_suspended: false,
            custom_status: None,
        };
        let ghost m0 = empty_model(instance_id.0);
        proof {
            assert(state@ =~= m0);
        }
        let mut i: usize = 0;
        while i < existing_history.len()
            invariant
                i <= existing_history@.len(),
                m0 == empty_model(instance_id.0),
                state@ == replay_model(m0, existing_history@.take(i as int)),
            decreases existing_history@.len() - i,
        {
            let e = existing_history[i].clone();
            let _ = state.add_event(e, false);
            proof {
                assert(existing_history@.take(i + 1 as int) =~= existing_history@.take(
                    i as int,
                ).push(existing_history@[i as int]));
                lemma_replay_push(m0, existing_history@.take(i as int), existing_history@[i as int]);
            }
            i += 1;
        }
        proof {
            assert(existing_history@.take(existing_history@.len() as int) =~= existing_history@);
            lemma_replay_wf(m0, existing_history@);
        }
        state
    }

    /// Ingests one event. A second start is rejected with `DuplicateStart`
    /// and a second completion with `DuplicateCompleted`, leaving the state
    /// unchanged; every other event is accepted, and the state advances by
    /// `add_event_model`.
    pub fn add_event(&mut self, event: HistoryEvent, is_new: bool) -> (r: Result<
        (),
        RuntimeStateError,
    >)
        ensures
            match r {
                Ok(()) => add_event_check(old(self)@, event) is None && final(self)@
                    == add_event_model(old(self)@, event, is_new),
                Err(e) => add_event_check(old(self)@, event) == Some(e) && final(self)@ == old(
                    self,
                )@,
            },
    {
        match &event.event_type {
            Some(EventType::ExecutionStarted(se)) => {
                if self.start_event.is_some() {
                    return Err(RuntimeStateError::DuplicateStart);
                }
                self.start_event = Some(se.clone());
                self.created_time = Some(event.timestamp);
            },
            Some(EventType::ExecutionCompleted(ce)) => {
                if self.completed_event.is_some() {
                    return Err(RuntimeStateError::DuplicateCompleted);
                }
                self.completed_event = Some(ce.clone());
                self.completed_time = Some(event.timestamp);
            },
            Some(EventType::ExecutionSuspended { .. }) => {
                self.is_suspended = true;
            },
            Some(EventType::ExecutionResumed { .. }) => {
                self.is_suspended = false;
            },
            _ => {},
        }
        self.last_updated_time = Some(event.timestamp);
        if is_new {
            self.new_events.push(event);
        } else {
            self.old_events.push(event);
        }
        proof {
            assert(self@ =~= add_event_model(old(self)@, event, is_new));
        }
        Ok(())
    }

    /// Whether the state is valid: empty, or anchored by a start event.
    pub fn is_valid(&self) -> (r: bool)
        ensures
            r == (self@.old_events.len() == 0 && self@.new_events.len() == 0
                || self@.start_event is Some),
    {
        self.old_events.len() == 0 && self.new_events.len() == 0 || self.start_event.is_some()
    }

    /// The instance id.
    pub fn instance_id(&self) -> (r: String)
        ensures
            r == self@.instance_id,
    {
        self.instance_id.0.clone()
    }

    /// The orchestration's name, or `NotStarted`.
    pub fn name(&self) -> (r: Result<&String, RuntimeStateError>)
        ensures
            match r {
                Ok(n) => self@.start_event matches Some(se) && *n == se.name,
                Err(e) => self@.start_event is None && e == RuntimeStateError::NotStarted,
            },
    {
        match &self.start_event {
            Some(se) => Ok(&se.name),
            None => Err(RuntimeStateError::NotStarted),
        }
    }

    /// The orchestration's input, or `NotStarted`. A started state carries
    /// its input.
    pub fn input(&self) -> (r: Result<&String, RuntimeStateError>)
        requires
            self@.start_event matches Some(se) ==> se.input is Some,
        ensures
            match r {
                Ok(i) => self@.start_event matches Some(se) && se.input == Some(*i),
                Err(e) => self@.start_event is None && e == RuntimeStateError::NotStarted,
            },
    {
        match &self.start_event {
            Some(se) => Ok(se.input.as_ref().unwrap()),
            None => Err(RuntimeStateError::NotStarted),
        }
    }

    /// The orchestration's output, or `NotCompleted`. A completed state
    /// carries its result.
    pub fn output(&self) -> (r: Result<&String, RuntimeStateError>)
        requires
            self@.completed_event matches Some(ce) ==> ce.result is Some,
        ensures
            match r {
                Ok(o) => self@.completed_event matches Some(ce) && ce.result == Some(*o),
                Err(e) => self@.completed_event is None && e == RuntimeStateError::NotCompleted,
            },
    {
        match &self.completed_event {
            Some(ce) => Ok(ce.result.as_ref().unwrap()),
            None => Err(RuntimeStateError::NotCompleted),
        }
    }

    /// The reported status of the instance.
    pub fn runtime_status(&self) -> (r: OrchestrationStatus)
        ensures
            r == runtime_status_model(self@),
    {
        if self.start_event.is_none() {
            OrchestrationStatus::Pending
        } else if self.is_suspended {
            OrchestrationStatus::Suspended
        } else {
            match &self.completed_event {
                Some(ce) => ce.orchestration_status,
                None => OrchestrationStatus::Running,
            }
        }
    }

    /// The creation time, or `NotStarted`.
    pub fn created_time(&self) -> (r: Result<Timestamp, RuntimeStateError>)
        requires
            state_wf(self@),
        ensures
            match r {
                Ok(t) => self@.start_event is Some && self@.created_time == Some(t),
                Err(e) => self@.start_event is None && e == RuntimeStateError::NotStarted,
            },
    {
        match &self.start_event {
            Some(..) => Ok(self.created_time.unwrap()),
            None => Err(RuntimeStateError::NotStarted),
        }
    }

    /// The time of the last ingested event, or `NotStarted`.
    pub fn last_updated_time(&self) -> (r: Result<Timestamp, RuntimeStateError>)
        requires
            state_wf(self@),
        ensures
            match r {
                Ok(t) => self@.start_event is Some && self@.last_updated_time == Some(t),
                Err(e) => self@.start_event is None && e == RuntimeStateError::NotStarted,
            },
    {
        match &self.start_event {
            Some(..) => Ok(self.last_updated_time.unwrap()),
            None => Err(RuntimeStateError::NotStarted),
        }
    }

    /// The completion time, or `NotCompleted`.
    pub fn completed_time(&self) -> (r: Result<Timestamp, RuntimeStateError>)
        requires
            state_wf(self@),
        ensures
            match r {
                Ok(t) => self@.completed_event is Some && self@.completed_time == Some(t),
                Err(e) => self@.completed_event is None && e == RuntimeStateError::NotCompleted,
            },
    {
        match &self.completed_event {
            Some(..) => Ok(self.completed_time.unwrap()),
            None => Err(RuntimeStateError::NotCompleted),
        }
    }

    /// Whether a completion event has been ingested.
    pub fn is_completed(&self) -> (r: bool)
        ensures
            r == (self@.completed_event is Some),
    {
        self.completed_event.is_some()
    }

    /// The committed history.
    pub fn old_events(&self) -> (r: &Vec<HistoryEvent>)
        ensures
            r@ == self@.old_events,
    {
        &self.old_events
    }

    /// The events produced in the current episode.
    pub fn new_events(&self) -> (r: &Vec<HistoryEvent>)
        ensures
            r@ == self@.new_events,
    {
        &self.new_events
    }

    /// The completion's failure details, `NoFailures` for a completion
    /// without them, or `NotCompleted`.
    pub fn failure_details(&self) -> (r: Result<&TaskFailureDetails, RuntimeStateError>)
        ensures
            match r {
                Ok(fd) => self@.completed_event matches Some(ce) && ce.failure_details == Some(
                    *fd,
                ),
                Err(e) => match self@.completed_event {
                    Some(ce) => ce.failure_details is None && e == RuntimeStateError::NoFailures,
                    None => e == RuntimeStateError::NotCompleted,
                },
            },
    {
        match &self.completed_event {
            Some(ce) => match &ce.failure_details {
                Some(fd) => Ok(fd),
                None => Err(RuntimeStateError::NoFailures),
            },
            None => Err(RuntimeStateError::NotCompleted),
        }
    }

    /// The timer firings awaiting the scheduler.
    pub fn pending_timers(&self) -> (r: &Vec<HistoryEvent>)
        ensures
            r@ == self@.pending_timers,
    {
        &self.pending_timers
    }

    /// The task schedulings awaiting dispatch as activity work.
    pub fn pending_tasks(&self) -> (r: &Vec<HistoryEvent>)
        ensures
            r@ == self@.pending_tasks,
    {
        &self.pending_tasks
    }

    /// The cross-instance messages awaiting delivery.
    pub fn pending_messages(&self) -> (r: &Vec<OrchestratorMessage>)
        ensures
            r@ == self@.pending_messages,
    {
        &self.pending_messages
    }

    /// Whether the aggregate was reset by a continue-as-new in this episode.
    pub fn continued_as_new(&self) -> (r: bool)
        ensures
            r == self@.continued_as_new,
    {
        self.continued_as_new
    }

    /// The timestamp of the earliest known event, or the epoch where there
    /// is none.
    pub fn get_started_time(&self) -> (r: Timestamp)
        ensures
            r == (if self@.old_events.len() > 0 {
                self@.old_events[0].timestamp
            } else if self@.new_events.len() > 0 {
                self@.new_events[0].timestamp
            } else {
                Timestamp { seconds: 0, nanos: 0 }
            }),
    {
        if self.old_events.len() > 0 {
            self.old_events[0].timestamp
        } else if self.new_events.len() > 0 {
            self.new_events[0].timestamp
        } else {
            Timestamp { seconds: 0, nanos: 0 }
        }
    }
}

} // verus!

use crate::actions::{OrchestratorAction, OrchestratorActionType};
use crate::events::{
    completed_event, event_sent_event, new_execution_completed_event,
    new_execution_started_event, new_execution_terminated_event, new_event_sent_event,
    new_parent_info, new_sub_orchestration_completed_event, new_sub_orchestration_created_event,
    new_task_scheduled_event, new_timer_created_event, new_timer_fired_event, parent_info,
    started_event, sub_orchestration_completed_event, sub_orchestration_created_event,
    task_scheduled_event, terminated_event, timer_created_event, timer_fired_event,
    clone_opt_failure_details, clone_opt_parent_instance_info, clone_opt_string,
    clone_opt_trace_context,
};
use crate::identity::{fresh_execution_id, uuid_shape};
use crate::strutil::{hex4_seq, i32_bits_to_u32, push_hex4_u32, u32_bits_of_i32};

verus! {

// ---------------------------------------------------------------------------
// Applying orchestrator actions.
// ---------------------------------------------------------------------------

/// The state an action batch left behind, together with its result:
/// `Ok(true)` after a continue-as-new, `Ok(false)` otherwise, or the error
/// that aborted the batch.
#[verifier::ext_equal]
pub ghost struct ApplyOutcome {
    pub state: RuntimeStateModel,
    pub result: Result<bool, RuntimeStateError>,
}

/// What a single action demands of the state it is applied to, so that
/// applying it cannot panic: a completion or sub-orchestration creation
/// needs a cached start event, and a completion with a parent needs the
/// parent's instance reference.
pub open spec fn action_pre(m: RuntimeStateModel, a: OrchestratorAction) -> bool {
    match a.orchestrator_action_type {
        Some(OrchestratorActionType::CompleteOrchestration { .. }) => m.start_event matches Some(
            st,
        ) && (st.parent_instance matches Some(p) ==> p.orchestration_instance is Some),
        Some(OrchestratorActionType::CreateSubOrchestration { .. }) => m.start_event is Some,
        _ => true,
    }
}

/// What a batch demands of the state it is applied to.
pub open spec fn actions_pre(m: RuntimeStateModel, actions: Seq<OrchestratorAction>) -> bool {
    forall|i: int| 0 <= i < actions.len() ==> action_pre(m, #[trigger] actions[i])
}

/// Folds carryover events into a freshly reset state, stopping at the first
/// rejected event.
pub open spec fn carryover_fold(m: RuntimeStateModel, evs: Seq<HistoryEvent>) -> Result<
    RuntimeStateModel,
    RuntimeStateError,
>
    decreases evs.len(),
{
    if evs.len() == 0 {
        Ok(m)
    } else {
        match add_event_check(m, evs[0]) {
            Some(e) => Err(e),
            None => carryover_fold(add_event_model(m, evs[0], true), evs.skip(1)),
        }
    }
}

/// One carryover step at the end of a sequence.
pub proof fn lemma_carryover_push(m: RuntimeStateModel, s: Seq<HistoryEvent>, e: HistoryEvent)
    requires
        carryover_fold(m, s) is Ok,
    ensures
        carryover_fold(m, s.push(e)) == ({
            let mr = carryover_fold(m, s).unwrap();
            match add_event_check(mr, e) {
                Some(err) => Err::<RuntimeStateModel, RuntimeStateError>(err),
                None => Ok(add_event_model(mr, e, true)),
            }
        }),
    decreases s.len(),
{
    reveal_with_fuel(carryover_fold, 3);
    if s.len() == 0 {
        assert(s.push(e)[0] == e);
        assert(s.push(e).skip(1) =~= Seq::<HistoryEvent>::empty());
    } else {
        assert(s.push(e)[0] == s[0]);
        assert(s.push(e).skip(1) =~= s.skip(1).push(e));
        lemma_carryover_push(add_event_model(m, s[0], true), s.skip(1), e);
    }
}

/// A carryover fold whose prefix succeeds and whose next event is rejected
/// fails with that rejection.
pub proof fn lemma_carryover_error(
    m: RuntimeStateModel,
    evs: Seq<HistoryEvent>,
    k: int,
    err: RuntimeStateError,
)
    requires
        0 <= k < evs.len(),
        carryover_fold(m, evs.take(k)) is Ok,
        add_event_check(carryover_fold(m, evs.take(k)).unwrap(), evs[k]) == Some(err),
    ensures
        carryover_fold(m, evs) == Err::<RuntimeStateModel, RuntimeStateError>(err),
    decreases evs.len(),
{
    reveal_with_fuel(carryover_fold, 2);
    if k == 0 {
        assert(evs.take(0) =~= Seq::<HistoryEvent>::empty());
        assert(carryover_fold(m, evs.take(0)) == Ok::<RuntimeStateModel, RuntimeStateError>(m));
    } else {
        assert(evs.take(k)[0] == evs[0]);
        assert(add_event_check(m, evs[0]) is None) by {
            if add_event_check(m, evs.take(k)[0]) is Some {
                assert(carryover_fold(m, evs.take(k)) is Err);
            }
        }
        assert(evs.take(k).skip(1) =~= evs.skip(1).take(k - 1));
        assert(evs.skip(1)[k - 1] == evs[k]);
        lemma_carryover_error(add_event_model(m, evs[0], true), evs.skip(1), k - 1, err);
    }
}

/// Whether an action draws a fresh execution id when applied.
pub open spec fn action_draws_execution_id(a: OrchestratorAction) -> bool {
    match a.orchestrator_action_type {
        Some(
            OrchestratorActionType::CompleteOrchestration { orchestration_status, .. },
        ) => orchestration_status == OrchestrationStatus::ContinuedAsNew,
        Some(OrchestratorActionType::CreateSubOrchestration { .. }) => true,
        _ => false,
    }
}

/// Whether an action synthesizes a child instance id when applied.
pub open spec fn action_synthesizes_id(a: OrchestratorAction) -> bool {
    match a.orchestrator_action_type {
        Some(
            OrchestratorActionType::CreateSubOrchestration { instance_id, .. },
        ) => instance_id@.len() == 0,
        _ => false,
    }
}

/// The child instance id synthesized for a sub-orchestration that did not
/// name one: the parent id, a colon, and the action id as four or more
/// zero-padded lower-case hex digits.
pub open spec fn synthesized_child_id(parent: Seq<char>, id: int) -> Seq<char> {
    parent + ":"@ + hex4_seq(u32_bits_of_i32(id))
}

/// What the drawn values accompanying one action step must look like: a
/// fresh execution id in UUID shape, and the synthesized child id where the
/// action calls for one.
pub open spec fn step_witness_ok(
    m: RuntimeStateModel,
    a: OrchestratorAction,
    eid: String,
    synth: String,
) -> bool {
    &&& action_draws_execution_id(a) ==> uuid_shape(eid@)
    &&& action_synthesizes_id(a) ==> synth@ == synthesized_child_id(m.instance_id@, a.id as int)
}

/// The state and result of applying one action to `m`, given the drawn
/// execution id `eid` and the synthesized child id `synth` for the steps
/// that use them. `Ok(false)` lets the batch continue; `Ok(true)` is a
/// completed continue-as-new; an error aborts the batch.
pub open spec fn apply_action_model(
    m: RuntimeStateModel,
    a: OrchestratorAction,
    now: Timestamp,
    eid: String,
    synth: String,
) -> ApplyOutcome {
    match a.orchestrator_action_type {
        Some(
            OrchestratorActionType::CompleteOrchestration {
                orchestration_status,
                result,
                carryover_events,
                failure_details,
            },
        ) => {
            let st = m.start_event.unwrap();
            if orchestration_status == OrchestrationStatus::ContinuedAsNew {
                let fresh = RuntimeStateModel {
                    continued_as_new: true,
                    ..empty_model(m.instance_id)
                };
                let started = started_event(
                    st.name,
                    m.instance_id,
                    result,
                    st.parent_instance,
                    st.parent_trace_context,
                    None,
                    eid,
                    now,
                );
                let m1 = add_event_model(fresh, started, true);
                match carryover_fold(m1, carryover_events@) {
                    Ok(m2) => ApplyOutcome { state: m2, result: Ok(true) },
                    Err(e) => ApplyOutcome { state: m, result: Err(e) },
                }
            } else {
                if m.completed_event is Some {
                    ApplyOutcome {
                        state: m,
                        result: Err(RuntimeStateError::DuplicateCompleted),
                    }
                } else {
                    let ev = completed_event(
                        -1i32,
                        orchestration_status,
                        result,
                        failure_details,
                        now,
                    );
                    let m1 = add_event_model(m, ev, true);
                    match st.parent_instance {
                        Some(p) => {
                            let msg = OrchestratorMessage {
                                history_event: Some(
                                    sub_orchestration_completed_event(
                                        p.task_scheduled_id,
                                        result,
                                        now,
                                    ),
                                ),
                                target_instance_id: p.orchestration_instance.unwrap().instance_id,
                            };
                            ApplyOutcome {
                                state: RuntimeStateModel {
                                    pending_messages: m1.pending_messages.push(msg),
                                    ..m1
                                },
                                result: Ok(false),
                            }
                        },
                        None => ApplyOutcome { state: m1, result: Ok(false) },
                    }
                }
            }
        },
        Some(OrchestratorActionType::CreateTimer { fire_at }) => {
            let ev = timer_created_event(a.id, fire_at, now);
            let m1 = add_event_model(m, ev, true);
            let fired = timer_fired_event(a.id, fire_at, now);
            ApplyOutcome {
                state: RuntimeStateModel { pending_timers: m1.pending_timers.push(fired), ..m1 },
                result: Ok(false),
            }
        },
        Some(OrchestratorActionType::ScheduleTask { name, version, input }) => {
            let ev = task_scheduled_event(a.id, name, version, input, None, now);
            let m1 = add_event_model(m, ev, true);
            ApplyOutcome {
                state: RuntimeStateModel { pending_tasks: m1.pending_tasks.push(ev), ..m1 },
                result: Ok(false),
            }
        },
        Some(
            OrchestratorActionType::CreateSubOrchestration { name, version, input, instance_id },
        ) => {
            let st = m.start_event.unwrap();
            let target = if instance_id@.len() == 0 {
                synth
            } else {
                instance_id
            };
            let created = sub_orchestration_created_event(
                a.id,
                name,
                version,
                input,
                instance_id,
                None,
                now,
            );
            let m1 = add_event_model(m, created, true);
            let started = started_event(
                name,
                instance_id,
                input,
                Some(parent_info(a.id, st.name, m.instance_id)),
                None,
                None,
                eid,
                now,
            );
            let msg = OrchestratorMessage {
                history_event: Some(started),
                target_instance_id: target,
            };
            ApplyOutcome {
                state: RuntimeStateModel {
                    pending_messages: m1.pending_messages.push(msg),
                    ..m1
                },
                result: Ok(false),
            }
        },
        Some(OrchestratorActionType::SendEvent { instance, name, data }) => {
            let ev = event_sent_event(a.id, instance.instance_id, name, data, now);
            let m1 = add_event_model(m, ev, true);
            let msg = OrchestratorMessage {
                history_event: Some(ev),
                target_instance_id: instance.instance_id,
            };
            ApplyOutcome {
                state: RuntimeStateModel {
                    pending_messages: m1.pending_messages.push(msg),
                    ..m1
                },
                result: Ok(false),
            }
        },
        Some(OrchestratorActionType::TerminateOrchestration { instance_id, recurse, reason }) => {
            let ev = terminated_event(reason, recurse, now);
            let msg = OrchestratorMessage {
                history_event: Some(ev),
                target_instance_id: instance_id,
            };
            ApplyOutcome {
                state: RuntimeStateModel {
                    pending_messages: m.pending_messages.push(msg),
                    ..m
                },
                result: Ok(false),
            }
        },
        None => ApplyOutcome { state: m, result: Err(RuntimeStateError::UnknownAction) },
    }
}

/// Relates a state and an action batch to every outcome the batch can leave
/// behind, over some choice of drawn execution ids and synthesized child
/// ids: actions are applied in order, and the batch stops at the first
/// continue-as-new or error.
pub open spec fn apply_rel(
    m: RuntimeStateModel,
    actions: Seq<OrchestratorAction>,
    now: Timestamp,
    out: ApplyOutcome,
) -> bool
    decreases actions.len(),
{
    if actions.len() == 0 {
        out == (ApplyOutcome { state: m, result: Ok(false) })
    } else {
        exists|eid: String, synth: String|
            {
                &&& #[trigger] step_witness_ok(m, actions[0], eid, synth)
                &&& ({
                    let o = apply_action_model(m, actions[0], now, eid, synth);
                    if o.result == Ok::<bool, RuntimeStateError>(false) {
                        apply_rel(o.state, actions.skip(1), now, out)
                    } else {
                        out == o
                    }
                })
            }
    }
}

/// Recovers, from a batch relation with at least one action, the drawn
/// values of its first step.
pub proof fn lemma_rel_destruct(
    m: RuntimeStateModel,
    actions: Seq<OrchestratorAction>,
    now: Timestamp,
    out: ApplyOutcome,
) -> (w: (String, String))
    requires
        actions.len() > 0,
        apply_rel(m, actions, now, out),
    ensures
        ({
            let (eid, synth) = w;
            &&& step_witness_ok(m, actions[0], eid, synth)
            &&& ({
                let o = apply_action_model(m, actions[0], now, eid, synth);
                if o.result == Ok::<bool, RuntimeStateError>(false) {
                    apply_rel(o.state, actions.skip(1), now, out)
                } else {
                    out == o
                }
            })
        }),
{
    let (eid, synth) = choose|eid: String, synth: String|
        {
            &&& #[trigger] step_witness_ok(m, actions[0], eid, synth)
            &&& ({
                let o = apply_action_model(m, actions[0], now, eid, synth);
                if o.result == Ok::<bool, RuntimeStateError>(false) {
                    apply_rel(o.state, actions.skip(1), now, out)
                } else {
                    out == o
                }
            })
        };
    (eid, synth)
}

/// Extends the batch relation backwards over one applied action.
proof fn lemma_rel_step(
    m_init: RuntimeStateModel,
    all: Seq<OrchestratorAction>,
    idx: int,
    now: Timestamp,
    m_cur: RuntimeStateModel,
    m_next: RuntimeStateModel,
    res_step: Result<bool, RuntimeStateError>,
    eid: String,
    synth: String,
)
    requires
        0 <= idx < all.len(),
        forall|out: ApplyOutcome| #[trigger]
            apply_rel(m_cur, all.skip(idx), now, out) ==> apply_rel(m_init, all, now, out),
        step_witness_ok(m_cur, all[idx], eid, synth),
        apply_action_model(m_cur, all[idx], now, eid, synth) == (ApplyOutcome {
            state: m_next,
            result: res_step,
        }),
    ensures
        res_step == Ok::<bool, RuntimeStateError>(false) ==> forall|out: ApplyOutcome| #[trigger]
            apply_rel(m_next, all.skip(idx + 1), now, out) ==> apply_rel(m_init, all, now, out),
        res_step != Ok::<bool, RuntimeStateError>(false) ==> apply_rel(
            m_init,
            all,
            now,
            ApplyOutcome { state: m_next, result: res_step },
        ),
{
    let suffix = all.skip(idx);
    assert(suffix.len() > 0);
    assert(suffix[0] == all[idx]);
    assert(suffix.skip(1) =~= all.skip(idx + 1));
    if res_step == Ok::<bool, RuntimeStateError>(false) {
        assert forall|out: ApplyOutcome| #[trigger]
            apply_rel(m_next, all.skip(idx + 1), now, out) implies apply_rel(
            m_init,
            all,
            now,
            out,
        ) by {
            assert(apply_rel(m_next, suffix.skip(1), now, out));
            assert(apply_rel(m_cur, suffix, now, out)) by {
                assert(step_witness_ok(m_cur, suffix[0], eid, synth));
            }
        }
    } else {
        let out = ApplyOutcome { state: m_next, result: res_step };
        assert(apply_rel(m_cur, suffix, now, out)) by {
            assert(step_witness_ok(m_cur, suffix[0], eid, synth));
        }
    }
}

} // verus!

verus! {

impl OrchestrationRuntimeState {
    /// Applies a batch of orchestrator actions in order: each action appends
    /// its events and queues its pending work as `apply_action_model` says; a
    /// completed continue-as-new replaces the aggregate and returns
    /// `Ok(true)` at once; an unknown action or a rejected event aborts the
    /// batch, leaving the effects of the earlier actions in place.
    #[verifier::loop_isolation(false)]
    pub fn apply_actions(&mut self, actions: &[OrchestratorAction], now: Timestamp) -> (r: Result<
        bool,
        RuntimeStateError,
    >)
        requires
            actions_pre(old(self)@, actions@),
        ensures
            apply_rel(old(self)@, actions@, now, ApplyOutcome { state: final(self)@, result: r }),
    {
        let ghost m_init = self@;
        let ghost all = actions@;
        proof {
            assert(all.skip(0) =~= all);
        }
        let mut idx: usize = 0;
        while idx < actions.len()
            invariant
                idx <= all.len(),
                all == actions@,
                actions_pre(m_init, all),
                self@.start_event == m_init.start_event,
                self@.instance_id == m_init.instance_id,
                forall|out: ApplyOutcome| #[trigger]
                    apply_rel(self@, all.skip(idx as int), now, out) ==> apply_rel(
                        m_init,
                        all,
                        now,
                        out,
                    ),
            decreases all.len() - idx,
        {
            let a = &actions[idx];
            let ghost m_cur = self@;
            proof {
                assert(action_pre(m_init, all[idx as int]));
            }
            match &a.orchestrator_action_type {
                Some(
                    OrchestratorActionType::CompleteOrchestration {
                        orchestration_status,
                        result,
                        carryover_events,
                        failure_details,
                    },
                ) => {
                    if *orchestration_status == OrchestrationStatus::ContinuedAsNew {
                        let st_name = self.start_event.as_ref().unwrap().name.clone();
                        let st_parent = clone_opt_parent_instance_info(
                            &self.start_event.as_ref().unwrap().parent_instance,
                        );
                        let st_ptc = clone_opt_trace_context(
                            &self.start_event.as_ref().unwrap().parent_trace_context,
                        );
                        let empty_history: Vec<HistoryEvent> = Vec::new();
                        let mut new_state = OrchestrationRuntimeState::new(
                            &self.instance_id,
                            empty_history.as_slice(),
                        );
                        new_state.continued_as_new = true;
                        let ghost fresh = RuntimeStateModel {
                            continued_as_new: true,
                            ..empty_model(m_cur.instance_id)
                        };
                        proof {
                            assert(new_state@ =~= fresh);
                        }
                        let eid = fresh_execution_id();
                        let ghost eid_w = eid;
                        let started = new_execution_started_event(
                            st_name,
                            self.instance_id.0.clone(),
                            clone_opt_string(result),
                            st_parent,
                            st_ptc,
                            None,
                            eid,
                            now,
                        );
                        match new_state.add_event(started, true) {
                            Ok(()) => {},
                            Err(_) => unreached(),
                        }
                        let ghost m1 = new_state@;
                        let mut k: usize = 0;
                        while k < carryover_events.len()
                            invariant
                                k <= carryover_events@.len(),
                                carryover_fold(m1, carryover_events@.take(k as int)) == Ok::<
                                    RuntimeStateModel,
                                    RuntimeStateError,
                                >(new_state@),
                            decreases carryover_events@.len() - k,
                        {
                            let ce = carryover_events[k].clone();
                            let ghost m_k = new_state@;
                            match new_state.add_event(ce, true) {
                                Ok(()) => {
                                    proof {
                                        assert(carryover_events@.take(k + 1 as int)
                                            =~= carryover_events@.take(k as int).push(
                                            carryover_events@[k as int],
                                        ));
                                        lemma_carryover_push(
                                            m1,
                                            carryover_events@.take(k as int),
                                            carryover_events@[k as int],
                                        );
                                    }
                                },
                                Err(e) => {
                                    proof {
                                        lemma_carryover_error(
                                            m1,
                                            carryover_events@,
                                            k as int,
                                            e,
                                        );
                                        let o = apply_action_model(
                                            m_cur,
                                            all[idx as int],
                                            now,
                                            eid_w,
                                            eid_w,
                                        );
                                        assert(o.state == m_cur && o.result == Err::<
                                            bool,
                                            RuntimeStateError,
                                        >(e));
                                        lemma_rel_step(
                                            m_init,
                                            all,
                                            idx as int,
                                            now,
                                            m_cur,
                                            m_cur,
                                            Err(e),
                                            eid_w,
                                            eid_w,
                                        );
                                    }
                                    return Err(e);
                                },
                            }
                            k += 1;
                        }
                        proof {
                            assert(carryover_events@.take(carryover_events@.len() as int)
                                =~= carryover_events@);
                        }
                        *self = new_state;
                        proof {
                            let o = apply_action_model(m_cur, all[idx as int], now, eid_w, eid_w);
                            assert(o.state == self@ && o.result == Ok::<bool, RuntimeStateError>(
                                true,
                            ));
                            lemma_rel_step(
                                m_init,
                                all,
                                idx as int,
                                now,
                                m_cur,
                                self@,
                                Ok(true),
                                eid_w,
                                eid_w,
                            );
                        }
                        return Ok(true);
                    } else {
                        let ev = new_execution_completed_event(
                            -1,
                            *orchestration_status,
                            clone_opt_string(result),
                            clone_opt_failure_details(failure_details),
                            now,
                        );
                        match self.add_event(ev, true) {
                            Err(e) => {
                                proof {
                                    let ghost w = arbitrary::<String>();
                                    assert(step_witness_ok(m_cur, all[idx as int], w, w));
                                    let o = apply_action_model(m_cur, all[idx as int], now, w, w);
                                    assert(o.state == m_cur && o.result == Err::<
                                        bool,
                                        RuntimeStateError,
                                    >(e));
                                    lemma_rel_step(
                                        m_init,
                                        all,
                                        idx as int,
                                        now,
                                        m_cur,
                                        m_cur,
                                        Err(e),
                                        w,
                                        w,
                                    );
                                }
                                return Err(e);
                            },
                            Ok(()) => {},
                        }
                        let parent_opt = clone_opt_parent_instance_info(
                            &self.start_event.as_ref().unwrap().parent_instance,
                        );
                        match parent_opt {
                            Some(p) => {
                                let msg_ev = new_sub_orchestration_completed_event(
                                    p.task_scheduled_id,
                                    clone_opt_string(result),
                                    now,
                                );
                                let target = p.orchestration_instance.unwrap().instance_id;
                                self.pending_messages.push(
                                    OrchestratorMessage {
                                        history_event: Some(msg_ev),
                                        target_instance_id: target,
                                    },
                                );
                            },
                            None => {},
                        }
                        proof {
                            let ghost w = arbitrary::<String>();
                            assert(step_witness_ok(m_cur, all[idx as int], w, w));
                            let o = apply_action_model(m_cur, all[idx as int], now, w, w);
                            assert(o.state =~= self@);
                            assert(o.result == Ok::<bool, RuntimeStateError>(false));
                            lemma_rel_step(
                                m_init,
                                all,
                                idx as int,
                                now,
                                m_cur,
                                self@,
                                Ok(false),
                                w,
                                w,
                            );
                        }
                    }
                },
                Some(OrchestratorActionType::CreateTimer { fire_at }) => {
                    let ev = new_timer_created_event(a.id, *fire_at, now);
                    match self.add_event(ev, true) {
                        Ok(()) => {},
                        Err(_) => unreached(),
                    }
                    let fired = new_timer_fired_event(a.id, *fire_at, now);
                    self.pending_timers.push(fired);
                    proof {
                        let ghost w = arbitrary::<String>();
                        assert(step_witness_ok(m_cur, all[idx as int], w, w));
                        let o = apply_action_model(m_cur, all[idx as int], now, w, w);
                        assert(o.state =~= self@);
                        assert(o.result == Ok::<bool, RuntimeStateError>(false));
                        lemma_rel_step(m_init, all, idx as int, now, m_cur, self@, Ok(false), w, w);
                    }
                },
                Some(OrchestratorActionType::ScheduleTask { name, version, input }) => {
                    let ev = new_task_scheduled_event(
                        a.id,
                        name.clone(),
                        clone_opt_string(version),
                        clone_opt_string(input),
                        None,
                        now,
                    );
                    let ev2 = ev.clone();
                    match self.add_event(ev, true) {
                        Ok(()) => {},
                        Err(_) => unreached(),
                    }
                    self.pending_tasks.push(ev2);
                    proof {
                        let ghost w = arbitrary::<String>();
                        assert(step_witness_ok(m_cur, all[idx as int], w, w));
                        let o = apply_action_model(m_cur, all[idx as int], now, w, w);
                        assert(o.state =~= self@);
                        assert(o.result == Ok::<bool, RuntimeStateError>(false));
                        lemma_rel_step(m_init, all, idx as int, now, m_cur, self@, Ok(false), w, w);
                    }
                },
                Some(
                    OrchestratorActionType::CreateSubOrchestration {
                        name,
                        version,
                        input,
                        instance_id,
                    },
                ) => {
                    let st_name = self.start_event.as_ref().unwrap().name.clone();
                    let target = if instance_id.as_str().is_empty() {
                        let mut t = self.instance_id.0.clone();
                        t.append(":");
                        push_hex4_u32(&mut t, i32_bits_to_u32(a.id));
                        t
                    } else {
                        instance_id.clone()
                    };
                    let ghost synth_w = target;
                    proof {
                        if instance_id@.len() == 0 {
                            assert(synth_w@ =~= synthesized_child_id(
                                m_cur.instance_id@,
                                all[idx as int].id as int,
                            ));
                        }
                    }
                    let created = new_sub_orchestration_created_event(
                        a.id,
                        name.clone(),
                        clone_opt_string(version),
                        clone_opt_string(input),
                        instance_id.clone(),
                        None,
                        now,
                    );
                    match self.add_event(created, true) {
                        Ok(()) => {},
                        Err(_) => unreached(),
                    }
                    let eid = fresh_execution_id();
                    let ghost eid_w = eid;
                    let pinfo = new_parent_info(a.id, st_name, self.instance_id.0.clone());
                    let started = new_execution_started_event(
                        name.clone(),
                        instance_id.clone(),
                        clone_opt_string(input),
                        Some(pinfo),
                        None,
                        None,
                        eid,
                        now,
                    );
                    self.pending_messages.push(
                        OrchestratorMessage {
                            history_event: Some(started),
                            target_instance_id: target,
                        },
                    );
                    proof {
                        assert(step_witness_ok(m_cur, all[idx as int], eid_w, synth_w));
                        let o = apply_action_model(m_cur, all[idx as int], now, eid_w, synth_w);
                        assert(o.state =~= self@);
                        assert(o.result == Ok::<bool, RuntimeStateError>(false));
                        lemma_rel_step(
                            m_init,
                            all,
                            idx as int,
                            now,
                            m_cur,
                            self@,
                            Ok(false),
                            eid_w,
                            synth_w,
                        );
                    }
                },
                Some(OrchestratorActionType::SendEvent { instance, name, data }) => {
                    let ev = new_event_sent_event(
                        a.id,
                        instance.instance_id.clone(),
                        name.clone(),
                        clone_opt_string(data),
                        now,
                    );
                    let ev2 = ev.clone();
                    match self.add_event(ev, true) {
                        Ok(()) => {},
                        Err(_) => unreached(),
                    }
                    self.pending_messages.push(
                        OrchestratorMessage {
                            history_event: Some(ev2),
                            target_instance_id: instance.instance_id.clone(),
                        },
                    );
                    proof {
                        let ghost w = arbitrary::<String>();
                        assert(step_witness_ok(m_cur, all[idx as int], w, w));
                        let o = apply_action_model(m_cur, all[idx as int], now, w, w);
                        assert(o.state =~= self@);
                        assert(o.result == Ok::<bool, RuntimeStateError>(false));
                        lemma_rel_step(m_init, all, idx as int, now, m_cur, self@, Ok(false), w, w);
                    }
                },
                Some(
                    OrchestratorActionType::TerminateOrchestration { instance_id, recurse, reason },
                ) => {
                    let ev = new_execution_terminated_event(
                        clone_opt_string(reason),
                        *recurse,
                        now,
                    );
                    self.pending_messages.push(
                        OrchestratorMessage {
                            history_event: Some(ev),
                            target_instance_id: instance_id.clone(),
                        },
                    );
                    proof {
                        let ghost w = arbitrary::<String>();
                        assert(step_witness_ok(m_cur, all[idx as int], w, w));
                        let o = apply_action_model(m_cur, all[idx as int], now, w, w);
                        assert(o.state =~= self@);
                        assert(o.result == Ok::<bool, RuntimeStateError>(false));
                        lemma_rel_step(m_init, all, idx as int, now, m_cur, self@, Ok(false), w, w);
                    }
                },
                None => {
                    proof {
                        let ghost w = arbitrary::<String>();
                        assert(step_witness_ok(m_cur, all[idx as int], w, w));
                        let o = apply_action_model(m_cur, all[idx as int], now, w, w);
                        assert(o.state == m_cur && o.result == Err::<bool, RuntimeStateError>(
                            RuntimeStateError::UnknownAction,
                        ));
                        lemma_rel_step(
                            m_init,
                            all,
                            idx as int,
                            now,
                            m_cur,
                            m_cur,
                            Err(RuntimeStateError::UnknownAction),
                            w,
                            w,
                        );
                    }
                    return Err(RuntimeStateError::UnknownAction);
                },
            }
            idx += 1;
        }
        proof {
            assert(all.skip(all.len() as int) =~= Seq::<OrchestratorAction>::empty());
            assert(apply_rel(
                self@,
                all.skip(all.len() as int),
                now,
                ApplyOutcome { state: self@, result: Ok(false) },
            ));
        }
        Ok(false)
    }
}

} // verus!

verus! {

// ---------------------------------------------------------------------------
// Laws of the runtime state machine.
// ---------------------------------------------------------------------------

/// Well-formedness survives a carryover fold.
pub proof fn lemma_carryover_wf(m: RuntimeStateModel, evs: Seq<HistoryEvent>)
    requires
        state_wf(m),
    ensures
        carryover_fold(m, evs) matches Ok(m2) ==> state_wf(m2),
    decreases evs.len(),
{
    if evs.len() > 0 && add_event_check(m, evs[0]) is None {
        lemma_add_event_wf(m, evs[0], true);
        lemma_carryover_wf(add_event_model(m, evs[0], true), evs.skip(1));
    }
}

/// Applying any action batch preserves well-formedness of the state.
pub proof fn lemma_apply_rel_wf(
    m: RuntimeStateModel,
    actions: Seq<OrchestratorAction>,
    now: Timestamp,
    out: ApplyOutcome,
)
    requires
        apply_rel(m, actions, now, out),
        state_wf(m),
    ensures
        state_wf(out.state),
    decreases actions.len(),
{
    if actions.len() == 0 {
    } else {
        let (eid, synth) = lemma_rel_destruct(m, actions, now, out);
        let o = apply_action_model(m, actions[0], now, eid, synth);
        assert(state_wf(o.state)) by {
            match actions[0].orchestrator_action_type {
                Some(
                    OrchestratorActionType::CompleteOrchestration {
                        orchestration_status,
                        result,
                        carryover_events,
                        ..
                    },
                ) => {
                    if orchestration_status == OrchestrationStatus::ContinuedAsNew {
                        let st = m.start_event.unwrap();
                        let fresh = RuntimeStateModel {
                            continued_as_new: true,
                            ..empty_model(m.instance_id)
                        };
                        let started = started_event(
                            st.name,
                            m.instance_id,
                            result,
                            st.parent_instance,
                            st.parent_trace_context,
                            None,
                            eid,
                            now,
                        );
                        lemma_add_event_wf(fresh, started, true);
                        lemma_carryover_wf(
                            add_event_model(fresh, started, true),
                            carryover_events@,
                        );
                    } else {
                        if m.completed_event is None {
                            lemma_add_event_wf(
                                m,
                                completed_event(
                                    -1i32,
                                    orchestration_status,
                                    result,
                                    actions[0].orchestrator_action_type->Some_0->CompleteOrchestration_failure_details,
                                    now,
                                ),
                                true,
                            );
                        }
                    }
                },
                _ => {},
            }
        }
        if o.result == Ok::<bool, RuntimeStateError>(false) {
            lemma_apply_rel_wf(o.state, actions.skip(1), now, out);
        }
    }
}

/// The `TaskScheduled` events that a batch's `ScheduleTask` actions produce,
/// in batch order.
pub open spec fn scheduled_events_of(
    actions: Seq<OrchestratorAction>,
    now: Timestamp,
) -> Seq<HistoryEvent>
    decreases actions.len(),
{
    if actions.len() == 0 {
        Seq::empty()
    } else {
        let rest = scheduled_events_of(actions.skip(1), now);
        match actions[0].orchestrator_action_type {
            Some(OrchestratorActionType::ScheduleTask { name, version, input }) => seq![
                task_scheduled_event(actions[0].id, name, version, input, None, now),
            ] + rest,
            _ => rest,
        }
    }
}

/// Across a batch that runs to completion, the episode's event list only
/// grows.
pub proof fn lemma_rel_new_events_monotonic(
    m: RuntimeStateModel,
    actions: Seq<OrchestratorAction>,
    now: Timestamp,
    out: ApplyOutcome,
)
    requires
        apply_rel(m, actions, now, out),
        out.result == Ok::<bool, RuntimeStateError>(false),
    ensures
        m.new_events.is_prefix_of(out.state.new_events),
    decreases actions.len(),
{
    if actions.len() == 0 {
        assert(m.new_events.is_prefix_of(m.new_events));
    } else {
        let (eid, synth) = lemma_rel_destruct(m, actions, now, out);
        let o = apply_action_model(m, actions[0], now, eid, synth);
        if o.result == Ok::<bool, RuntimeStateError>(false) {
            lemma_rel_new_events_monotonic(o.state, actions.skip(1), now, out);
            assert(m.new_events.is_prefix_of(o.state.new_events));
        } else {
            assert(out == o);
            assert(false);
        }
    }
}

/// For every `ScheduleTask` action in a batch that runs to completion, the
/// dispatch queue gains exactly that task's `TaskScheduled` event, in batch
/// order, and the episode's event list gains the same event.
pub proof fn lemma_schedule_task_effects(
    m: RuntimeStateModel,
    actions: Seq<OrchestratorAction>,
    now: Timestamp,
    out: ApplyOutcome,
)
    requires
        apply_rel(m, actions, now, out),
        out.result == Ok::<bool, RuntimeStateError>(false),
    ensures
        out.state.pending_tasks == m.pending_tasks + scheduled_events_of(actions, now),
        forall|e: HistoryEvent| #[trigger]
            scheduled_events_of(actions, now).contains(e) ==> out.state.new_events.contains(e),
    decreases actions.len(),
{
    if actions.len() == 0 {
        assert(m.pending_tasks + scheduled_events_of(actions, now) =~= m.pending_tasks);
    } else {
        let (eid, synth) = lemma_rel_destruct(m, actions, now, out);
        let o = apply_action_model(m, actions[0], now, eid, synth);
        if o.result == Ok::<bool, RuntimeStateError>(false) {
            lemma_schedule_task_effects(o.state, actions.skip(1), now, out);
            let rest = scheduled_events_of(actions.skip(1), now);
            match actions[0].orchestrator_action_type {
                Some(OrchestratorActionType::ScheduleTask { name, version, input }) => {
                    let ev = task_scheduled_event(actions[0].id, name, version, input, None, now);
                    assert(o.state.pending_tasks == m.pending_tasks.push(ev));
                    assert(out.state.pending_tasks =~= m.pending_tasks + (seq![ev] + rest));
                    assert(o.state.new_events == m.new_events.push(ev));
                    lemma_rel_new_events_monotonic(o.state, actions.skip(1), now, out);
                    assert(out.state.new_events.contains(ev)) by {
                        assert(o.state.new_events[m.new_events.len() as int] == ev);
                        assert(out.state.new_events[m.new_events.len() as int] == ev);
                    }
                    assert forall|e: HistoryEvent| #[trigger]
                        scheduled_events_of(actions, now).contains(e) implies out.state
                        .new_events.contains(e) by {
                        if e != ev {
                            let j = choose|j: int|
                                0 <= j < scheduled_events_of(actions, now).len()
                                    && scheduled_events_of(actions, now)[j] == e;
                            assert(rest[j - 1] == e);
                            assert(rest.contains(e));
                        }
                    }
                },
                _ => {
                    assert(o.state.pending_tasks == m.pending_tasks);
                    assert(out.state.pending_tasks =~= m.pending_tasks + scheduled_events_of(
                        actions,
                        now,
                    ));
                },
            }
        } else {
            assert(out == o);
            assert(false);
        }
    }
}

/// Completing an orchestration that has a parent, other than by
/// continue-as-new, enqueues exactly one message to the parent instance,
/// carrying a `SubOrchestrationInstanceCompleted` event whose task id is the
/// parent's `task_scheduled_id`.
pub proof fn lemma_parent_notification(
    m: RuntimeStateModel,
    a: OrchestratorAction,
    now: Timestamp,
    out: ApplyOutcome,
)
    requires
        apply_rel(m, seq![a], now, out),
        a.orchestrator_action_type matches Some(
            OrchestratorActionType::CompleteOrchestration { orchestration_status, .. },
        ) && orchestration_status != OrchestrationStatus::ContinuedAsNew,
        m.completed_event is None,
        m.start_event matches Some(st) && st.parent_instance matches Some(p)
            && p.orchestration_instance is Some,
    ensures
        out.result == Ok::<bool, RuntimeStateError>(false),
        out.state.pending_messages.len() == m.pending_messages.len() + 1,
        a.orchestrator_action_type matches Some(
            OrchestratorActionType::CompleteOrchestration { result, .. },
        ) ==> (m.start_event matches Some(st) && st.parent_instance matches Some(p)
            && out.state.pending_messages.last() == (OrchestratorMessage {
            history_event: Some(
                sub_orchestration_completed_event(p.task_scheduled_id, result, now),
            ),
            target_instance_id: p.orchestration_instance.unwrap().instance_id,
        })),
{
    let actions = seq![a];
    assert(actions[0] == a);
    let (eid, synth) = lemma_rel_destruct(m, actions, now, out);
    let o = apply_action_model(m, actions[0], now, eid, synth);
    assert(o.result == Ok::<bool, RuntimeStateError>(false));
    assert(actions.skip(1) =~= Seq::<OrchestratorAction>::empty());
    assert(out == (ApplyOutcome { state: o.state, result: Ok(false) }));
}

/// What a completed continue-as-new leaves behind: the committed history,
/// the completion caches and every pending queue are reset, the
/// continued-as-new flag is set, and the episode's events are exactly one
/// synthetic start carrying the prior name, parent and the action's result,
/// followed by the carryover events.
pub proof fn lemma_continue_as_new_reset(
    m: RuntimeStateModel,
    a: OrchestratorAction,
    now: Timestamp,
    out: ApplyOutcome,
)
    requires
        apply_rel(m, seq![a], now, out),
        a.orchestrator_action_type matches Some(
            OrchestratorActionType::CompleteOrchestration {
                orchestration_status,
                carryover_events,
                ..
            },
        ) && orchestration_status == OrchestrationStatus::ContinuedAsNew && (forall|k: int|
            0 <= k < carryover_events@.len()
                ==> !(#[trigger] carryover_events@[k].event_type matches Some(
                EventType::ExecutionStarted(..),
            )) && !(carryover_events@[k].event_type matches Some(
                EventType::ExecutionCompleted(..),
            ))),
        m.start_event is Some,
    ensures
        out.result == Ok::<bool, RuntimeStateError>(true),
        out.state.instance_id == m.instance_id,
        out.state.old_events.len() == 0,
        out.state.completed_event is None,
        out.state.continued_as_new,
        out.state.pending_tasks.len() == 0,
        out.state.pending_timers.len() == 0,
        out.state.pending_messages.len() == 0,
        a.orchestrator_action_type matches Some(
            OrchestratorActionType::CompleteOrchestration { result, carryover_events, .. },
        ) ==> {
            &&& out.state.new_events.len() == carryover_events@.len() + 1
            &&& (m.start_event matches Some(st) && out.state.new_events[0].event_type matches Some(
                EventType::ExecutionStarted(se),
            ) && se.name == st.name && se.parent_instance == st.parent_instance && se.input
                == result)
        },
{
    let actions = seq![a];
    assert(actions[0] == a);
    let (eid, synth) = lemma_rel_destruct(m, actions, now, out);
    let o = apply_action_model(m, actions[0], now, eid, synth);
    match a.orchestrator_action_type {
        Some(
            OrchestratorActionType::CompleteOrchestration { result, carryover_events, .. },
        ) => {
            let st = m.start_event.unwrap();
            let fresh = RuntimeStateModel { continued_as_new: true, ..empty_model(m.instance_id) };
            let started = started_event(
                st.name,
                m.instance_id,
                result,
                st.parent_instance,
                st.parent_trace_context,
                None,
                eid,
                now,
            );
            let m1 = add_event_model(fresh, started, true);
            lemma_carryover_no_lifecycle(m1, carryover_events@);
            assert(m1.new_events =~= seq![started]);
            let m2 = carryover_fold(m1, carryover_events@).unwrap();
            assert(m2.new_events == m1.new_events + carryover_events@);
            assert(m2.new_events[0] == started);
            assert(o == (ApplyOutcome { state: m2, result: Ok(true) }));
            assert(actions.skip(1) =~= Seq::<OrchestratorAction>::empty());
            assert(out == o);
        },
        _ => {
            assert(false);
        },
    }
}

/// A carryover fold over events that neither start nor complete the
/// instance always succeeds, only appends to the episode's events, and
/// leaves everything but the suspension flag and the update clock alone.
pub proof fn lemma_carryover_no_lifecycle(m: RuntimeStateModel, evs: Seq<HistoryEvent>)
    requires
        forall|k: int|
            0 <= k < evs.len() ==> !(#[trigger] evs[k].event_type matches Some(
                EventType::ExecutionStarted(..),
            )) && !(evs[k].event_type matches Some(EventType::ExecutionCompleted(..))),
    ensures
        carryover_fold(m, evs) matches Ok(m2) && m2.instance_id == m.instance_id
            && m2.old_events == m.old_events && m2.new_events == m.new_events + evs
            && m2.pending_tasks == m.pending_tasks && m2.pending_timers == m.pending_timers
            && m2.pending_messages == m.pending_messages && m2.start_event == m.start_event
            && m2.completed_event == m.completed_event && m2.continued_as_new
            == m.continued_as_new,
    decreases evs.len(),
{
    if evs.len() == 0 {
        assert(m.new_events + evs =~= m.new_events);
    } else {
        assert(add_event_check(m, evs[0]) is None);
        let ma = add_event_model(m, evs[0], true);
        assert(forall|k: int|
            0 <= k < evs.skip(1).len() ==> evs.skip(1)[k] == evs[k + 1]);
        lemma_carryover_no_lifecycle(ma, evs.skip(1));
        let m2 = carryover_fold(ma, evs.skip(1)).unwrap();
        assert(m2.new_events =~= m.new_events + evs) by {
            assert(m2.new_events == ma.new_events + evs.skip(1));
            assert(ma.new_events == m.new_events.push(evs[0]));
        }
    }
}

/// Whether an event suspends the instance.
pub open spec fn is_suspend_event(e: HistoryEvent) -> bool {
    e.event_type matches Some(EventType::ExecutionSuspended { .. })
}

/// Whether an event resumes the instance.
pub open spec fn is_resume_event(e: HistoryEvent) -> bool {
    e.event_type matches Some(EventType::ExecutionResumed { .. })
}

/// A strict alternation of suspensions and resumptions, suspension first.
pub open spec fn alternating_suspend_resume(evs: Seq<HistoryEvent>) -> bool {
    forall|i: int|
        0 <= i < evs.len() ==> (if i % 2 == 0 {
            is_suspend_event(#[trigger] evs[i])
        } else {
            is_resume_event(evs[i])
        })
}

/// Toggling suspension an even number of times returns the reported status
/// to its underlying value.
pub proof fn lemma_suspend_resume_round_trip(m: RuntimeStateModel, evs: Seq<HistoryEvent>)
    requires
        !m.is_suspended,
        alternating_suspend_resume(evs),
        evs.len() % 2 == 0,
    ensures
        carryover_fold(m, evs) matches Ok(m2) && m2.is_suspended == m.is_suspended
            && runtime_status_model(m2) == runtime_status_model(m),
    decreases evs.len(),
{
    if evs.len() > 0 {
        assert(is_suspend_event(evs[0]));
        assert(is_resume_event(evs[1]));
        let ma = add_event_model(m, evs[0], true);
        let mb = add_event_model(ma, evs[1], true);
        assert(add_event_check(m, evs[0]) is None);
        assert(add_event_check(ma, evs[1]) is None);
        assert(evs.skip(1)[0] == evs[1]);
        assert(evs.skip(1).skip(1) =~= evs.skip(2));
        assert(carryover_fold(m, evs) == carryover_fold(mb, evs.skip(2))) by {
            reveal_with_fuel(carryover_fold, 3);
            assert(carryover_fold(m, evs) == carryover_fold(ma, evs.skip(1)));
            assert(carryover_fold(ma, evs.skip(1)) == carryover_fold(mb, evs.skip(1).skip(1)));
        }
        assert(alternating_suspend_resume(evs.skip(2))) by {
            assert forall|i: int| 0 <= i < evs.skip(2).len() implies (if i % 2 == 0 {
                is_suspend_event(#[trigger] evs.skip(2)[i])
            } else {
                is_resume_event(evs.skip(2)[i])
            }) by {
                assert(evs.skip(2)[i] == evs[i + 2]);
                assert((i + 2) % 2 == i % 2);
            }
        }
        lemma_suspend_resume_round_trip(mb, evs.skip(2));
    }
}

} // verus!

verus! {

// ---------------------------------------------------------------------------
// Replay of a committed history.
// ---------------------------------------------------------------------------

/// Whether an event starts an execution.
pub open spec fn is_start_event(e: HistoryEvent) -> bool {
    e.event_type matches Some(EventType::ExecutionStarted(..))
}

/// Whether an event completes an execution.
pub open spec fn is_completion_event(e: HistoryEvent) -> bool {
    e.event_type matches Some(EventType::ExecutionCompleted(..))
}

/// A history with at most one start and at most one completion.
pub open spec fn history_consistent(h: Seq<HistoryEvent>) -> bool {
    &&& forall|i: int, j: int|
        0 <= i < j < h.len() ==> !(is_start_event(#[trigger] h[i]) && is_start_event(
            #[trigger] h[j],
        ))
    &&& forall|i: int, j: int|
        0 <= i < j < h.len() ==> !(is_completion_event(#[trigger] h[i]) && is_completion_event(
            #[trigger] h[j],
        ))
}

/// The payload of the first start event in a history, if any.
pub open spec fn first_start(h: Seq<HistoryEvent>) -> Option<ExecutionStartedEvent>
    decreases h.len(),
{
    if h.len() == 0 {
        None
    } else {
        match first_start(h.drop_last()) {
            Some(se) => Some(se),
            None => match h.last().event_type {
                Some(EventType::ExecutionStarted(se)) => Some(se),
                _ => None,
            },
        }
    }
}

/// The payload of the last completion event in a history, if any.
pub open spec fn last_completion(h: Seq<HistoryEvent>) -> Option<ExecutionCompletedEvent>
    decreases h.len(),
{
    if h.len() == 0 {
        None
    } else {
        match h.last().event_type {
            Some(EventType::ExecutionCompleted(ce)) => Some(ce),
            _ => last_completion(h.drop_last()),
        }
    }
}

/// Whether the last suspension or resumption in a history leaves the
/// instance suspended.
pub open spec fn suspended_after(h: Seq<HistoryEvent>) -> bool
    decreases h.len(),
{
    if h.len() == 0 {
        false
    } else {
        match h.last().event_type {
            Some(EventType::ExecutionSuspended { .. }) => true,
            Some(EventType::ExecutionResumed { .. }) => false,
            _ => suspended_after(h.drop_last()),
        }
    }
}

/// The status a history implies on its own: pending without a start,
/// suspended if the last toggle suspended, the completion's status if
/// completed, running otherwise.
pub open spec fn implied_status(h: Seq<HistoryEvent>) -> OrchestrationStatus {
    if first_start(h) is None {
        OrchestrationStatus::Pending
    } else if suspended_after(h) {
        OrchestrationStatus::Suspended
    } else {
        match last_completion(h) {
            Some(ce) => ce.orchestration_status,
            None => OrchestrationStatus::Running,
        }
    }
}

/// A history without a start event has no first start.
proof fn lemma_first_start_none(h: Seq<HistoryEvent>)
    requires
        forall|i: int| 0 <= i < h.len() ==> !is_start_event(#[trigger] h[i]),
    ensures
        first_start(h) is None,
    decreases h.len(),
{
    if h.len() > 0 {
        assert(forall|i: int|
            0 <= i < h.drop_last().len() ==> h.drop_last()[i] == h[i]);
        lemma_first_start_none(h.drop_last());
        assert(!is_start_event(h[h.len() - 1]));
    }
}

/// A history without a completion event has no last completion.
proof fn lemma_last_completion_none(h: Seq<HistoryEvent>)
    requires
        forall|i: int| 0 <= i < h.len() ==> !is_completion_event(#[trigger] h[i]),
    ensures
        last_completion(h) is None,
    decreases h.len(),
{
    if h.len() > 0 {
        assert(forall|i: int|
            0 <= i < h.drop_last().len() ==> h.drop_last()[i] == h[i]);
        lemma_last_completion_none(h.drop_last());
        assert(!is_completion_event(h[h.len() - 1]));
    }
}

/// Replaying a consistent history reproduces it exactly as the committed
/// event list and caches exactly what the history itself implies.
pub proof fn lemma_replay_facts(iid: String, h: Seq<HistoryEvent>)
    requires
        history_consistent(h),
    ensures
        ({
            let m = replay_model(empty_model(iid), h);
            &&& m.old_events == h
            &&& m.new_events.len() == 0
            &&& m.instance_id == iid
            &&& m.start_event == first_start(h)
            &&& m.completed_event == last_completion(h)
            &&& m.is_suspended == suspended_after(h)
        }),
    decreases h.len(),
{
    if h.len() == 0 {
    } else {
        let h0 = h.drop_last();
        let e = h.last();
        assert(h0.push(e) =~= h);
        assert(forall|i: int| 0 <= i < h0.len() ==> h0[i] == h[i]);
        assert(history_consistent(h0));
        lemma_replay_facts(iid, h0);
        lemma_replay_push(empty_model(iid), h0, e);
        let m0 = replay_model(empty_model(iid), h0);
        assert(h.drop_last() =~= h0);
        match e.event_type {
            Some(EventType::ExecutionStarted(..)) => {
                assert(forall|i: int| 0 <= i < h0.len() ==> !is_start_event(#[trigger] h0[i]))
                    by {
                    assert(is_start_event(h[h.len() - 1]));
                }
                lemma_first_start_none(h0);
                assert(add_event_check(m0, e) is None);
            },
            Some(EventType::ExecutionCompleted(..)) => {
                assert(forall|i: int|
                    0 <= i < h0.len() ==> !is_completion_event(#[trigger] h0[i])) by {
                    assert(is_completion_event(h[h.len() - 1]));
                }
                lemma_last_completion_none(h0);
                assert(add_event_check(m0, e) is None);
            },
            _ => {
                assert(add_event_check(m0, e) is None);
            },
        }
    }
}

/// Replaying any consistent history is idempotent: the committed events are
/// the history itself, and the reported status is the status the history
/// implies.
pub proof fn lemma_idempotent_replay(iid: String, h: Seq<HistoryEvent>)
    requires
        history_consistent(h),
    ensures
        replay_model(empty_model(iid), h).old_events == h,
        runtime_status_model(replay_model(empty_model(iid), h)) == implied_status(h),
{
    lemma_replay_facts(iid, h);
}

} // verus!

verus! {

// ---------------------------------------------------------------------------
// The pending-task correspondence invariant.
// ---------------------------------------------------------------------------

/// Every entry of the dispatch queue is a `TaskScheduled` event with a
/// matching `TaskScheduled` entry of the same id in the episode's events.
pub open spec fn pending_tasks_linked(m: RuntimeStateModel) -> bool {
    forall|k: int|
        0 <= k < m.pending_tasks.len() ==> pending_task_entry_linked(m, #[trigger] m.pending_tasks[k])
}

/// One dispatch-queue entry schedules a task and has a matching entry in
/// the episode's events.
pub open spec fn pending_task_entry_linked(m: RuntimeStateModel, e: HistoryEvent) -> bool {
    &&& e.event_type matches Some(EventType::TaskScheduled { .. })
    &&& exists|j: int|
        0 <= j < m.new_events.len() && (#[trigger] m.new_events[j]).event_id == e.event_id && (
        m.new_events[j].event_type matches Some(EventType::TaskScheduled { .. }))
}

/// Ingesting an event preserves the pending-task correspondence: the queue
/// is untouched and the episode's events only grow.
pub proof fn lemma_add_event_pending_linked(m: RuntimeStateModel, e: HistoryEvent, is_new: bool)
    requires
        pending_tasks_linked(m),
    ensures
        pending_tasks_linked(add_event_model(m, e, is_new)),
{
    let m2 = add_event_model(m, e, is_new);
    assert forall|k: int|
        0 <= k < m2.pending_tasks.len() implies pending_task_entry_linked(
        m2,
        #[trigger] m2.pending_tasks[k],
    ) by {
        assert(m.pending_tasks[k] == m2.pending_tasks[k]);
        assert(pending_task_entry_linked(m, m.pending_tasks[k]));
        let j = choose|j: int|
            0 <= j < m.new_events.len() && (#[trigger] m.new_events[j]).event_id
                == m.pending_tasks[k].event_id && (m.new_events[j].event_type matches Some(
                EventType::TaskScheduled { .. },
            ));
        assert(m2.new_events[j] == m.new_events[j]);
    }
}

/// A carryover fold preserves the pending-task correspondence.
proof fn lemma_carryover_pending_linked(m: RuntimeStateModel, evs: Seq<HistoryEvent>)
    requires
        pending_tasks_linked(m),
    ensures
        carryover_fold(m, evs) matches Ok(m2) ==> pending_tasks_linked(m2),
    decreases evs.len(),
{
    if evs.len() > 0 && add_event_check(m, evs[0]) is None {
        lemma_add_event_pending_linked(m, evs[0], true);
        lemma_carryover_pending_linked(add_event_model(m, evs[0], true), evs.skip(1));
    }
}

/// Replaying a history preserves the pending-task correspondence and never
/// touches the pending queues at all.
pub proof fn lemma_replay_pending_linked(m: RuntimeStateModel, history: Seq<HistoryEvent>)
    requires
        pending_tasks_linked(m),
    ensures
        pending_tasks_linked(replay_model(m, history)),
        replay_model(m, history).pending_tasks == m.pending_tasks,
        replay_model(m, history).pending_timers == m.pending_timers,
        replay_model(m, history).pending_messages == m.pending_messages,
    decreases history.len(),
{
    if history.len() > 0 {
        let m1 = if add_event_check(m, history[0]) is None {
            add_event_model(m, history[0], false)
        } else {
            m
        };
        lemma_add_event_pending_linked(m, history[0], false);
        lemma_replay_pending_linked(m1, history.skip(1));
    }
}

/// Applying any action batch preserves the pending-task correspondence.
pub proof fn lemma_apply_rel_pending_linked(
    m: RuntimeStateModel,
    actions: Seq<OrchestratorAction>,
    now: Timestamp,
    out: ApplyOutcome,
)
    requires
        apply_rel(m, actions, now, out),
        pending_tasks_linked(m),
    ensures
        pending_tasks_linked(out.state),
    decreases actions.len(),
{
    if actions.len() == 0 {
    } else {
        let (eid, synth) = lemma_rel_destruct(m, actions, now, out);
        let o = apply_action_model(m, actions[0], now, eid, synth);
        assert(pending_tasks_linked(o.state)) by {
            match actions[0].orchestrator_action_type {
                Some(
                    OrchestratorActionType::CompleteOrchestration {
                        orchestration_status,
                        result,
                        carryover_events,
                        ..
                    },
                ) => {
                    if orchestration_status == OrchestrationStatus::ContinuedAsNew {
                        let st = m.start_event.unwrap();
                        let fresh = RuntimeStateModel {
                            continued_as_new: true,
                            ..empty_model(m.instance_id)
                        };
                        let started = started_event(
                            st.name,
                            m.instance_id,
                            result,
                            st.parent_instance,
                            st.parent_trace_context,
                            None,
                            eid,
                            now,
                        );
                        lemma_add_event_pending_linked(fresh, started, true);
                        lemma_carryover_pending_linked(
                            add_event_model(fresh, started, true),
                            carryover_events@,
                        );
                    } else {
                        if m.completed_event is None {
                            let ev = completed_event(
                                -1i32,
                                orchestration_status,
                                result,
                                actions[0].orchestrator_action_type->Some_0->CompleteOrchestration_failure_details,
                                now,
                            );
                            lemma_add_event_pending_linked(m, ev, true);
                        }
                    }
                },
                Some(OrchestratorActionType::CreateTimer { fire_at }) => {
                    lemma_add_event_pending_linked(m, timer_created_event(actions[0].id, fire_at, now), true);
                },
                Some(OrchestratorActionType::ScheduleTask { name, version, input }) => {
                    let ev = task_scheduled_event(actions[0].id, name, version, input, None, now);
                    lemma_add_event_pending_linked(m, ev, true);
                    let m1 = add_event_model(m, ev, true);
                    assert(m1.new_events[m1.new_events.len() - 1] == ev);
                },
                Some(
                    OrchestratorActionType::CreateSubOrchestration { name, version, input, instance_id },
                ) => {
                    let created = sub_orchestration_created_event(
                        actions[0].id,
                        name,
                        version,
                        input,
                        instance_id,
                        None,
                        now,
                    );
                    lemma_add_event_pending_linked(m, created, true);
                },
                Some(OrchestratorActionType::SendEvent { instance, name, data }) => {
                    let ev = event_sent_event(actions[0].id, instance.instance_id, name, data, now);
                    lemma_add_event_pending_linked(m, ev, true);
                },
                _ => {},
            }
        }
        if o.result == Ok::<bool, RuntimeStateError>(false) {
            lemma_apply_rel_pending_linked(o.state, actions.skip(1), now, out);
        }
    }
}

} // verus!

use crate::status::{runtime_status_name, to_runtime_status_string};

verus! {

impl OrchestrationRuntimeState {
    /// The state as `{instance_id}:{status}`.
    pub fn display_string(&self) -> (r: String)
        ensures
            r@ == self@.instance_id@ + ":"@ + runtime_status_name(runtime_status_model(self@)),
    {
        let mut s = self.instance_id.0.clone();
        s.append(":");
        let status = to_runtime_status_string(self.runtime_status());
        s.append(status.as_str());
        proof {
            assert(s@ =~= self@.instance_id@ + ":"@ + runtime_status_name(
                runtime_status_model(self@),
            ));
        }
        s
    }
}

} // verus!

verus! {

// ---------------------------------------------------------------------------
// Uniqueness of lifecycle events.
// ---------------------------------------------------------------------------

/// How many events of a sequence start an execution.
pub open spec fn start_count(s: Seq<HistoryEvent>) -> int
    decreases s.len(),
{
    if s.len() == 0 {
        0
    } else {
        start_count(s.drop_last()) + if is_start_event(s.last()) {
            1int
        } else {
            0
        }
    }
}

/// How many events of a sequence complete an execution.
pub open spec fn completion_count(s: Seq<HistoryEvent>) -> int
    decreases s.len(),
{
    if s.len() == 0 {
        0
    } else {
        completion_count(s.drop_last()) + if is_completion_event(s.last()) {
            1int
        } else {
            0
        }
    }
}

/// The lifecycle caches count their events exactly: the union of the
/// committed and the episode's events holds one start if and only if a
/// start is cached, and likewise for completions. In particular each
/// occurs at most once.
pub open spec fn lifecycle_unique(m: RuntimeStateModel) -> bool {
    &&& start_count(m.old_events) + start_count(m.new_events) == (if m.start_event is Some {
        1int
    } else {
        0
    })
    &&& completion_count(m.old_events) + completion_count(m.new_events) == (
    if m.completed_event is Some {
        1int
    } else {
        0
    })
}

proof fn lemma_counts_push(s: Seq<HistoryEvent>, e: HistoryEvent)
    ensures
        start_count(s.push(e)) == start_count(s) + (if is_start_event(e) {
            1int
        } else {
            0
        }),
        completion_count(s.push(e)) == completion_count(s) + (if is_completion_event(e) {
            1int
        } else {
            0
        }),
{
    assert(s.push(e).drop_last() =~= s);
    assert(s.push(e).last() == e);
}

/// An accepted event preserves the exact lifecycle counts.
pub proof fn lemma_add_event_lifecycle(m: RuntimeStateModel, e: HistoryEvent, is_new: bool)
    requires
        lifecycle_unique(m),
        add_event_check(m, e) is None,
    ensures
        lifecycle_unique(add_event_model(m, e, is_new)),
{
    if is_new {
        lemma_counts_push(m.new_events, e);
    } else {
        lemma_counts_push(m.old_events, e);
    }
}

proof fn lemma_carryover_lifecycle(m: RuntimeStateModel, evs: Seq<HistoryEvent>)
    requires
        lifecycle_unique(m),
    ensures
        carryover_fold(m, evs) matches Ok(m2) ==> lifecycle_unique(m2),
    decreases evs.len(),
{
    if evs.len() > 0 && add_event_check(m, evs[0]) is None {
        lemma_add_event_lifecycle(m, evs[0], true);
        lemma_carryover_lifecycle(add_event_model(m, evs[0], true), evs.skip(1));
    }
}

/// Replay preserves the exact lifecycle counts, whatever the history: a
/// rejected duplicate is not appended.
pub proof fn lemma_replay_lifecycle(m: RuntimeStateModel, history: Seq<HistoryEvent>)
    requires
        lifecycle_unique(m),
    ensures
        lifecycle_unique(replay_model(m, history)),
    decreases history.len(),
{
    if history.len() > 0 {
        let m1 = if add_event_check(m, history[0]) is None {
            add_event_model(m, history[0], false)
        } else {
            m
        };
        if add_event_check(m, history[0]) is None {
            lemma_add_event_lifecycle(m, history[0], false);
        }
        lemma_replay_lifecycle(m1, history.skip(1));
    }
}

/// Applying any action batch preserves the exact lifecycle counts.
pub proof fn lemma_apply_rel_lifecycle(
    m: RuntimeStateModel,
    actions: Seq<OrchestratorAction>,
    now: Timestamp,
    out: ApplyOutcome,
)
    requires
        apply_rel(m, actions, now, out),
        lifecycle_unique(m),
    ensures
        lifecycle_unique(out.state),
    decreases actions.len(),
{
    if actions.len() == 0 {
    } else {
        let (eid, synth) = lemma_rel_destruct(m, actions, now, out);
        let o = apply_action_model(m, actions[0], now, eid, synth);
        assert(lifecycle_unique(o.state)) by {
            match actions[0].orchestrator_action_type {
                Some(
                    OrchestratorActionType::CompleteOrchestration {
                        orchestration_status,
                        result,
                        carryover_events,
                        ..
                    },
                ) => {
                    if orchestration_status == OrchestrationStatus::ContinuedAsNew {
                        let st = m.start_event.unwrap();
                        let fresh = RuntimeStateModel {
                            continued_as_new: true,
                            ..empty_model(m.instance_id)
                        };
                        let started = started_event(
                            st.name,
                            m.instance_id,
                            result,
                            st.parent_instance,
                            st.parent_trace_context,
                            None,
                            eid,
                            now,
                        );
                        assert(lifecycle_unique(fresh));
                        lemma_add_event_lifecycle(fresh, started, true);
                        lemma_carryover_lifecycle(
                            add_event_model(fresh, started, true),
                            carryover_events@,
                        );
                    } else {
                        if m.completed_event is None {
                            let ev = completed_event(
                                -1i32,
                                orchestration_status,
                                result,
                                actions[0].orchestrator_action_type->Some_0->CompleteOrchestration_failure_details,
                                now,
                            );
                            lemma_add_event_lifecycle(m, ev, true);
                        }
                    }
                },
                Some(OrchestratorActionType::CreateTimer { fire_at }) => {
                    lemma_add_event_lifecycle(
                        m,
                        timer_created_event(actions[0].id, fire_at, now),
                        true,
                    );
                },
                Some(OrchestratorActionType::ScheduleTask { name, version, input }) => {
                    lemma_add_event_lifecycle(
                        m,
                        task_scheduled_event(actions[0].id, name, version, input, None, now),
                        true,
                    );
                },
                Some(
                    OrchestratorActionType::CreateSubOrchestration {
                        name,
                        version,
                        input,
                        instance_id,
                    },
                ) => {
                    lemma_add_event_lifecycle(
                        m,
                        sub_orchestration_created_event(
                            actions[0].id,
                            name,
                            version,
                            input,
                            instance_id,
                            None,
                            now,
                        ),
                        true,
                    );
                },
                Some(OrchestratorActionType::SendEvent { instance, name, data }) => {
                    lemma_add_event_lifecycle(
                        m,
                        event_sent_event(actions[0].id, instance.instance_id, name, data, now),
                        true,
                    );
                },
                _ => {},
            }
        }
        if o.result == Ok::<bool, RuntimeStateError>(false) {
            lemma_apply_rel_lifecycle(o.state, actions.skip(1), now, out);
        }
    }
}

} // verus!

verus! {

// ---------------------------------------------------------------------------
// Ordering of the cached times.
// ---------------------------------------------------------------------------

/// Whether `a` is no later than `b`.
pub open spec fn timestamp_le(a: Timestamp, b: Timestamp) -> bool {
    a.seconds < b.seconds || (a.seconds == b.seconds && a.nanos <= b.nanos)
}

/// Whether a history's timestamps never decrease.
pub open spec fn timestamps_ordered(h: Seq<HistoryEvent>) -> bool {
    forall|i: int, j: int|
        0 <= i <= j < h.len() ==> timestamp_le(#[trigger] h[i].timestamp, #[trigger] h[j].timestamp)
}

/// The ordering of a state's time caches: the creation time is no later
/// than the last update, and no later than the completion time. This holds
/// of states built from histories with non-decreasing timestamps; the
/// ingestion path itself accepts events out of order and then violates it,
/// so it is not unconditional.
pub open spec fn times_ordered(m: RuntimeStateModel) -> bool {
    &&& match (m.created_time, m.last_updated_time) {
        (Some(c), Some(u)) => timestamp_le(c, u),
        _ => true,
    }
    &&& match (m.created_time, m.completed_time) {
        (Some(c), Some(ct)) => timestamp_le(c, ct),
        _ => true,
    }
}

/// Whether every completion event comes after every start event, as the
/// lifecycle prescribes.
pub open spec fn starts_before_completions(h: Seq<HistoryEvent>) -> bool {
    forall|i: int, j: int|
        0 <= i < h.len() && 0 <= j < h.len() && is_completion_event(#[trigger] h[i])
            && is_start_event(#[trigger] h[j]) ==> j < i
}

/// Ingesting an event that is no earlier than the cached times, and that
/// does not start an execution already recorded as completed, keeps the
/// caches ordered.
pub proof fn lemma_add_event_times(m: RuntimeStateModel, e: HistoryEvent, is_new: bool)
    requires
        times_ordered(m),
        m.created_time matches Some(c) ==> timestamp_le(c, e.timestamp),
        (e.event_type matches Some(EventType::ExecutionStarted(..))) ==> m.completed_time is None,
    ensures
        times_ordered(add_event_model(m, e, is_new)),
{
}

proof fn lemma_replay_times_aux(iid: String, h: Seq<HistoryEvent>)
    requires
        timestamps_ordered(h),
        starts_before_completions(h),
    ensures
        ({
            let m = replay_model(empty_model(iid), h);
            &&& times_ordered(m)
            &&& (m.created_time matches Some(c) ==> exists|i: int|
                0 <= i < h.len() && is_start_event(#[trigger] h[i]) && h[i].timestamp == c)
            &&& (m.last_updated_time matches Some(u) ==> exists|i: int|
                0 <= i < h.len() && (#[trigger] h[i]).timestamp == u)
            &&& (m.completed_time matches Some(ct) ==> exists|i: int|
                0 <= i < h.len() && is_completion_event(#[trigger] h[i]) && h[i].timestamp == ct)
        }),
    decreases h.len(),
{
    if h.len() > 0 {
        let h0 = h.drop_last();
        let e = h.last();
        assert(h0.push(e) =~= h);
        assert(forall|i: int| 0 <= i < h0.len() ==> h0[i] == h[i]);
        lemma_replay_times_aux(iid, h0);
        lemma_replay_push(empty_model(iid), h0, e);
        let m0 = replay_model(empty_model(iid), h0);
        if add_event_check(m0, e) is None {
            assert(m0.created_time matches Some(c) ==> timestamp_le(c, e.timestamp)) by {
                if m0.created_time is Some {
                    let i = choose|i: int|
                        0 <= i < h0.len() && is_start_event(#[trigger] h0[i]) && h0[i].timestamp
                            == m0.created_time.unwrap();
                    assert(timestamp_le(h[i].timestamp, h[h.len() - 1].timestamp));
                }
            }
            assert((e.event_type matches Some(EventType::ExecutionStarted(..)))
                ==> m0.completed_time is None) by {
                if e.event_type matches Some(EventType::ExecutionStarted(..))
                    && m0.completed_time is Some {
                    let i = choose|i: int|
                        0 <= i < h0.len() && is_completion_event(#[trigger] h0[i])
                            && h0[i].timestamp == m0.completed_time.unwrap();
                    assert(is_completion_event(h[i]));
                    assert(is_start_event(h[h.len() - 1]));
                }
            }
            lemma_add_event_times(m0, e, false);
        }
    }
}

/// For a history whose timestamps never decrease and whose completions
/// come after its starts, the replayed state's creation time is no later
/// than its last update and no later than its completion time.
pub proof fn lemma_replay_times_ordered(iid: String, h: Seq<HistoryEvent>)
    requires
        timestamps_ordered(h),
        starts_before_completions(h),
    ensures
        times_ordered(replay_model(empty_model(iid), h)),
{
    lemma_replay_times_aux(iid, h);
}

} // verus!

verus! {

// ---------------------------------------------------------------------------
// Continue-as-new at any batch position.
// ---------------------------------------------------------------------------

/// Whether the carryover list of a completion action is free of start and
/// completion events, so that the reset state carries them all.
pub open spec fn carryover_free_of_lifecycle(a: OrchestratorAction) -> bool {
    a.orchestrator_action_type matches Some(
        OrchestratorActionType::CompleteOrchestration { carryover_events, .. },
    ) ==> (forall|k: int|
        0 <= k < carryover_events@.len() ==> !(#[trigger] carryover_events@[k].event_type
            matches Some(EventType::ExecutionStarted(..)))
            && !(carryover_events@[k].event_type matches Some(EventType::ExecutionCompleted(..))))
}

/// Whether `a` is the continue-as-new completion that produced the reset
/// state `s`: the episode's events are its carryover behind one synthetic
/// start whose input is its result.
pub open spec fn continue_as_new_produced(a: OrchestratorAction, s: RuntimeStateModel) -> bool {
    a.orchestrator_action_type matches Some(
        OrchestratorActionType::CompleteOrchestration {
            orchestration_status,
            result,
            carryover_events,
            ..
        },
    ) && orchestration_status == OrchestrationStatus::ContinuedAsNew && s.new_events.len()
        == carryover_events@.len() + 1 && (s.new_events[0].event_type matches Some(
        EventType::ExecutionStarted(se),
    ) && se.input == result)
}

/// An action that lets the batch continue changes neither the cached start
/// nor the instance id.
proof fn lemma_step_preserves_identity(
    m: RuntimeStateModel,
    a: OrchestratorAction,
    now: Timestamp,
    eid: String,
    synth: String,
)
    requires
        apply_action_model(m, a, now, eid, synth).result == Ok::<bool, RuntimeStateError>(false),
    ensures
        apply_action_model(m, a, now, eid, synth).state.start_event == m.start_event,
        apply_action_model(m, a, now, eid, synth).state.instance_id == m.instance_id,
{
}

/// Wherever in a batch the continue-as-new completion stands, a batch that
/// ends in `Ok(true)` leaves the reset state: committed history, completion
/// caches and pending queues empty, the continued-as-new flag set, and the
/// episode's events opened by a synthetic start that carries the prior name
/// and parent and the triggering action's result, followed by its carryover.
pub proof fn lemma_continue_as_new_batch(
    m: RuntimeStateModel,
    actions: Seq<OrchestratorAction>,
    now: Timestamp,
    out: ApplyOutcome,
)
    requires
        apply_rel(m, actions, now, out),
        out.result == Ok::<bool, RuntimeStateError>(true),
        m.start_event is Some,
        forall|k: int| 0 <= k < actions.len() ==> carryover_free_of_lifecycle(#[trigger] actions[k]),
    ensures
        out.state.instance_id == m.instance_id,
        out.state.old_events.len() == 0,
        out.state.completed_event is None,
        out.state.continued_as_new,
        out.state.pending_tasks.len() == 0,
        out.state.pending_timers.len() == 0,
        out.state.pending_messages.len() == 0,
        out.state.new_events.len() >= 1,
        m.start_event matches Some(st) ==> (out.state.new_events[0].event_type matches Some(
            EventType::ExecutionStarted(se),
        ) && se.name == st.name && se.parent_instance == st.parent_instance),
        exists|k: int| 0 <= k < actions.len() && continue_as_new_produced(#[trigger] actions[k], out.state),
    decreases actions.len(),
{
    assert(actions.len() > 0);
    let (eid, synth) = lemma_rel_destruct(m, actions, now, out);
    let o = apply_action_model(m, actions[0], now, eid, synth);
    if o.result == Ok::<bool, RuntimeStateError>(false) {
        lemma_step_preserves_identity(m, actions[0], now, eid, synth);
        assert(forall|k: int|
            0 <= k < actions.skip(1).len() ==> carryover_free_of_lifecycle(
                #[trigger] actions.skip(1)[k],
            )) by {
            assert(forall|k: int|
                0 <= k < actions.skip(1).len() ==> actions.skip(1)[k] == actions[k + 1]);
        }
        lemma_continue_as_new_batch(o.state, actions.skip(1), now, out);
        let k = choose|k: int|
            0 <= k < actions.skip(1).len() && continue_as_new_produced(
                #[trigger] actions.skip(1)[k],
                out.state,
            );
        assert(continue_as_new_produced(actions[k + 1], out.state));
    } else {
        assert(out == o);
        match actions[0].orchestrator_action_type {
            Some(
                OrchestratorActionType::CompleteOrchestration { orchestration_status, .. },
            ) => {
                assert(orchestration_status == OrchestrationStatus::ContinuedAsNew);
                assert(actions.skip(1).len() == actions.len() - 1);
                let single = seq![actions[0]];
                assert(single[0] == actions[0]);
                assert(single.skip(1) =~= Seq::<OrchestratorAction>::empty());
                assert(apply_rel(m, single, now, out)) by {
                    assert(step_witness_ok(m, single[0], eid, synth));
                    assert(apply_action_model(m, single[0], now, eid, synth) == o);
                }
                lemma_continue_as_new_reset(m, actions[0], now, out);
                assert(continue_as_new_produced(actions[0], out.state));
            },
            _ => {
                assert(false);
            },
        }
    }
}

} // verus!
