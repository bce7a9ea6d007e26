use durabletask::actions::{
    new_complete_orchestration_action, new_create_sub_orchestration_action,
    new_create_timer_action, new_schedule_task_action, new_send_event_action,
    new_terminate_orchestration_action, OrchestratorAction,
};
use durabletask::api::InstanceID;
use durabletask::backend::{purge_plan, BackendError};
use durabletask::events::{
    new_event_raised_event, new_execution_completed_event, new_execution_started_event,
    new_parent_info, new_resume_orchestration_event, new_suspend_orchestration_event, EventType,
};
use durabletask::runtimestate::{OrchestrationRuntimeState, RuntimeStateError};
use durabletask::status::OrchestrationStatus;
use durabletask::workitem::OrchestrationWorkItem;
use durabletask::Timestamp;

fn ts(seconds: i64) -> Timestamp {
    Timestamp { seconds, nanos: 0 }
}

fn started_event(name: &str, instance_id: &str, input: Option<&str>, at: i64) -> durabletask::events::HistoryEvent {
    new_execution_started_event(
        name.to_string(),
        instance_id.to_string(),
        input.map(|s| s.to_string()),
        None,
        None,
        None,
        "11111111-2222-3333-4444-555555555555".to_string(),
        ts(at),
    )
}

#[test]
fn simple_complete_replay() {
    let hello = started_event("Hello", "i1", Some("in"), 100);
    let done = new_execution_completed_event(
        -1,
        OrchestrationStatus::Completed,
        Some("world".to_string()),
        None,
        ts(200),
    );
    let state = OrchestrationRuntimeState::new(&InstanceID("i1".to_string()), &[hello, done]);

    assert_eq!(state.runtime_status(), OrchestrationStatus::Completed);
    assert_eq!(state.output().unwrap(), "world");
    assert!(state.is_completed());
    assert_eq!(state.old_events().len(), 2);
    assert!(state.is_valid());
}

#[test]
fn schedule_then_fire() {
    let start = started_event("work", "i1", None, 100);
    let mut state = OrchestrationRuntimeState::new(&InstanceID("i1".to_string()), &[start]);

    let actions = vec![
        new_schedule_task_action(1, "A".to_string(), Some("x".to_string())),
        new_create_timer_action(2, ts(100)),
    ];
    let continued = state.apply_actions(&actions, ts(150)).unwrap();
    assert!(!continued);

    assert_eq!(state.new_events().len(), 2);
    match &state.new_events()[0].event_type {
        Some(EventType::TaskScheduled { name, input, .. }) => {
            assert_eq!(state.new_events()[0].event_id, 1);
            assert_eq!(name, "A");
            assert_eq!(input.as_deref(), Some("x"));
        }
        other => panic!("expected TaskScheduled, got {:?}", other),
    }
    match &state.new_events()[1].event_type {
        Some(EventType::TimerCreated { fire_at }) => {
            assert_eq!(state.new_events()[1].event_id, 2);
            assert_eq!(*fire_at, ts(100));
        }
        other => panic!("expected TimerCreated, got {:?}", other),
    }
    assert_eq!(state.pending_tasks().len(), 1);
    assert_eq!(state.pending_timers().len(), 1);
    match &state.pending_timers()[0].event_type {
        Some(EventType::TimerFired { timer_id, fire_at }) => {
            assert_eq!(state.pending_timers()[0].event_id, -1);
            assert_eq!(*timer_id, 2);
            assert_eq!(*fire_at, ts(100));
        }
        other => panic!("expected TimerFired, got {:?}", other),
    }
}

#[test]
fn continue_as_new_resets_state() {
    let start = started_event("loop", "i1", Some("{n:1}"), 100);
    let mut state = OrchestrationRuntimeState::new(&InstanceID("i1".to_string()), &[start]);
    state
        .add_event(new_event_raised_event("A".to_string(), None, ts(110)), true)
        .unwrap();
    state
        .add_event(new_event_raised_event("B".to_string(), None, ts(120)), true)
        .unwrap();
    assert_eq!(state.new_events().len(), 2);

    let carryover = vec![new_event_raised_event("X".to_string(), None, ts(130))];
    let action = new_complete_orchestration_action(
        -1,
        OrchestrationStatus::ContinuedAsNew,
        Some("{n:2}".to_string()),
        carryover,
        None,
    );
    let continued = state.apply_actions(&[action], ts(140)).unwrap();
    assert!(continued);
    assert!(state.continued_as_new());

    assert!(state.old_events().is_empty());
    assert!(!state.is_completed());
    assert_eq!(state.new_events().len(), 2);
    match &state.new_events()[0].event_type {
        Some(EventType::ExecutionStarted(se)) => {
            assert_eq!(se.name, "loop");
            assert_eq!(se.input.as_deref(), Some("{n:2}"));
        }
        other => panic!("expected ExecutionStarted, got {:?}", other),
    }
    match &state.new_events()[1].event_type {
        Some(EventType::EventRaised { name, .. }) => assert_eq!(name, "X"),
        other => panic!("expected EventRaised, got {:?}", other),
    }
}

#[test]
fn recursive_purge_guard() {
    let unknown = OrchestrationRuntimeState::new(&InstanceID("missing".to_string()), &[]);
    assert!(matches!(purge_plan(&unknown), Err(BackendError::TaskHubNotFound)));

    let start = started_event("run", "i1", None, 100);
    let running = OrchestrationRuntimeState::new(&InstanceID("i1".to_string()), &[start]);
    assert!(matches!(purge_plan(&running), Err(BackendError::NotInitialized)));
}

#[test]
fn sub_orchestration_id_synthesis() {
    let start = started_event("parent", "P", None, 100);
    let mut state = OrchestrationRuntimeState::new(&InstanceID("P".to_string()), &[start]);

    let action = new_create_sub_orchestration_action(7, "child".to_string(), "".to_string(), None);
    let continued = state.apply_actions(&[action], ts(150)).unwrap();
    assert!(!continued);

    assert_eq!(state.pending_messages().len(), 1);
    assert_eq!(state.pending_messages()[0].target_instance_id, "P:0007");
}

#[test]
fn abandon_backoff_values() {
    let cases: Vec<(u32, u64)> =
        vec![(0, 0), (1, 1), (50, 50), (100, 100), (101, 300), (10_000, 300)];
    for (retries, expected) in cases {
        let wi = OrchestrationWorkItem {
            instance_id: InstanceID("i1".to_string()),
            new_events: Vec::new(),
            locked_by: "w1".to_string(),
            retry_count: retries,
            state: OrchestrationRuntimeState::new(&InstanceID("i1".to_string()), &[]),
        };
        assert_eq!(wi.abandon_delay(), expected, "retry count {}", retries);
    }
}

#[test]
fn duplicate_start_is_rejected() {
    let mut state = OrchestrationRuntimeState::new(&InstanceID("i1".to_string()), &[]);
    state.add_event(started_event("a", "i1", None, 100), true).unwrap();
    let second = started_event("a", "i1", None, 110);
    assert_eq!(state.add_event(second, true), Err(RuntimeStateError::DuplicateStart));
}

#[test]
fn duplicate_completion_is_rejected() {
    let mut state = OrchestrationRuntimeState::new(&InstanceID("i1".to_string()), &[]);
    state.add_event(started_event("a", "i1", None, 100), true).unwrap();
    let done = new_execution_completed_event(
        -1,
        OrchestrationStatus::Completed,
        None,
        None,
        ts(110),
    );
    state.add_event(done, true).unwrap();
    let again = new_execution_completed_event(
        -1,
        OrchestrationStatus::Failed,
        None,
        None,
        ts(120),
    );
    assert_eq!(state.add_event(again, true), Err(RuntimeStateError::DuplicateCompleted));
}

#[test]
fn suspend_resume_round_trip() {
    let start = started_event("a", "i1", None, 100);
    let mut state = OrchestrationRuntimeState::new(&InstanceID("i1".to_string()), &[start]);
    assert_eq!(state.runtime_status(), OrchestrationStatus::Running);

    state
        .add_event(new_suspend_orchestration_event(None, ts(110)), true)
        .unwrap();
    assert_eq!(state.runtime_status(), OrchestrationStatus::Suspended);
    state
        .add_event(new_resume_orchestration_event(None, ts(120)), true)
        .unwrap();
    assert_eq!(state.runtime_status(), OrchestrationStatus::Running);

    state
        .add_event(new_suspend_orchestration_event(None, ts(130)), true)
        .unwrap();
    state
        .add_event(new_resume_orchestration_event(None, ts(140)), true)
        .unwrap();
    assert_eq!(state.runtime_status(), OrchestrationStatus::Running);
}

#[test]
fn parent_notification_on_completion() {
    let parent_info = new_parent_info(5, "parent".to_string(), "P".to_string());
    let start = new_execution_started_event(
        "child".to_string(),
        "C".to_string(),
        None,
        Some(parent_info),
        None,
        None,
        "11111111-2222-3333-4444-555555555555".to_string(),
        ts(100),
    );
    let mut state = OrchestrationRuntimeState::new(&InstanceID("C".to_string()), &[start]);

    let action = new_complete_orchestration_action(
        -1,
        OrchestrationStatus::Completed,
        Some("out".to_string()),
        Vec::new(),
        None,
    );
    let continued = state.apply_actions(&[action], ts(150)).unwrap();
    assert!(!continued);

    assert_eq!(state.pending_messages().len(), 1);
    let msg = &state.pending_messages()[0];
    assert_eq!(msg.target_instance_id, "P");
    match &msg.history_event {
        Some(ev) => match &ev.event_type {
            Some(EventType::SubOrchestrationInstanceCompleted { task_scheduled_id, result }) => {
                assert_eq!(*task_scheduled_id, 5);
                assert_eq!(result.as_deref(), Some("out"));
            }
            other => panic!("expected SubOrchestrationInstanceCompleted, got {:?}", other),
        },
        None => panic!("expected a message event"),
    }
}

#[test]
fn send_event_and_terminate_enqueue_messages() {
    let start = started_event("a", "i1", None, 100);
    let mut state = OrchestrationRuntimeState::new(&InstanceID("i1".to_string()), &[start]);

    let actions = vec![
        new_send_event_action("other".to_string(), "ping".to_string(), Some("d".to_string())),
        new_terminate_orchestration_action(-1, "victim".to_string(), true, Some("why".to_string())),
    ];
    let continued = state.apply_actions(&actions, ts(150)).unwrap();
    assert!(!continued);

    assert_eq!(state.pending_messages().len(), 2);
    assert_eq!(state.pending_messages()[0].target_instance_id, "other");
    assert_eq!(state.pending_messages()[1].target_instance_id, "victim");
    match &state.pending_messages()[1].history_event.as_ref().unwrap().event_type {
        Some(EventType::ExecutionTerminated { input, recurse }) => {
            assert_eq!(input.as_deref(), Some("why"));
            assert!(*recurse);
        }
        other => panic!("expected ExecutionTerminated, got {:?}", other),
    }
    assert_eq!(state.new_events().len(), 1);
}

#[test]
fn unknown_action_is_rejected() {
    let mut state = OrchestrationRuntimeState::new(&InstanceID("i1".to_string()), &[]);
    let bogus = OrchestratorAction { id: 0, orchestrator_action_type: None };
    assert_eq!(
        state.apply_actions(&[bogus], ts(100)),
        Err(RuntimeStateError::UnknownAction)
    );
}

#[test]
fn projection_errors() {
    let empty = OrchestrationRuntimeState::new(&InstanceID("i1".to_string()), &[]);
    assert_eq!(empty.name().unwrap_err(), RuntimeStateError::NotStarted);
    assert_eq!(empty.runtime_status(), OrchestrationStatus::Pending);
    assert_eq!(empty.created_time().unwrap_err(), RuntimeStateError::NotStarted);
    assert_eq!(empty.last_updated_time().unwrap_err(), RuntimeStateError::NotStarted);
    assert_eq!(empty.completed_time().unwrap_err(), RuntimeStateError::NotCompleted);

    let start = started_event("a", "i1", Some("in"), 100);
    let mut state = OrchestrationRuntimeState::new(&InstanceID("i1".to_string()), &[start]);
    assert_eq!(state.name().unwrap(), "a");
    assert_eq!(state.input().unwrap(), "in");
    assert_eq!(state.output().unwrap_err(), RuntimeStateError::NotCompleted);
    assert_eq!(state.failure_details().unwrap_err(), RuntimeStateError::NotCompleted);
    assert_eq!(state.created_time().unwrap(), ts(100));

    let done = new_execution_completed_event(
        -1,
        OrchestrationStatus::Completed,
        Some("out".to_string()),
        None,
        ts(200),
    );
    state.add_event(done, true).unwrap();
    assert_eq!(state.failure_details().unwrap_err(), RuntimeStateError::NoFailures);
    assert_eq!(state.completed_time().unwrap(), ts(200));
    assert_eq!(state.last_updated_time().unwrap(), ts(200));
    assert_eq!(state.instance_id(), "i1");
}

#[test]
fn error_messages() {
    assert_eq!(
        RuntimeStateError::NotStarted.message(),
        "orchestration has not started"
    );
    assert_eq!(
        RuntimeStateError::NotCompleted.message(),
        "orchestration has not yet completed"
    );
    assert_eq!(
        RuntimeStateError::NoFailures.message(),
        "orchestration did not report failure details"
    );
    assert_eq!(BackendError::TaskHubNotFound.message(), "task hub not found");
    assert_eq!(
        BackendError::Other("boom".to_string()).message(),
        "other error: boom"
    );
}

#[test]
fn replay_is_idempotent() {
    let history = vec![
        started_event("job", "i1", Some("in"), 100),
        new_event_raised_event("go".to_string(), None, ts(110)),
        new_suspend_orchestration_event(None, ts(120)),
    ];
    let copy: Vec<durabletask::events::HistoryEvent> = history.clone();
    let state = OrchestrationRuntimeState::new(&InstanceID("i1".to_string()), &history);
    assert_eq!(state.old_events(), &copy);
    assert!(state.new_events().is_empty());
    assert_eq!(state.runtime_status(), OrchestrationStatus::Suspended);
}

#[test]
fn replay_keeps_first_start_of_corrupt_history() {
    let history = vec![
        started_event("first", "i1", None, 100),
        started_event("second", "i1", None, 110),
    ];
    let state = OrchestrationRuntimeState::new(&InstanceID("i1".to_string()), &history);
    assert_eq!(state.old_events().len(), 1);
    assert_eq!(state.name().unwrap(), "first");
}

#[test]
fn failed_batch_keeps_earlier_effects() {
    let start = started_event("a", "i1", None, 100);
    let mut state = OrchestrationRuntimeState::new(&InstanceID("i1".to_string()), &[start]);

    let actions = vec![
        new_schedule_task_action(1, "A".to_string(), None),
        OrchestratorAction { id: 0, orchestrator_action_type: None },
        new_schedule_task_action(2, "B".to_string(), None),
    ];
    assert_eq!(
        state.apply_actions(&actions, ts(150)),
        Err(RuntimeStateError::UnknownAction)
    );
    assert_eq!(state.new_events().len(), 1);
    assert_eq!(state.pending_tasks().len(), 1);
}

#[test]
fn state_display_string() {
    let start = started_event("a", "i1", None, 100);
    let state = OrchestrationRuntimeState::new(&InstanceID("i1".to_string()), &[start]);
    assert_eq!(state.display_string(), "i1:RUNNING");
}
