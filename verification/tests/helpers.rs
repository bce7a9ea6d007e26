use durabletask::actions::{new_create_timer_action, new_schedule_task_action};
use durabletask::api::InstanceID;
use durabletask::backend::get_sub_orchestration_instances;
use durabletask::events::{
    new_sub_orchestration_created_event, new_task_completed_event, new_task_scheduled_event,
    new_timer_created_event, EventType, HistoryEvent, TraceContext,
};
use durabletask::identity::get_default_worker_name;
use durabletask::internal::{
    action_list_summary, get_history_event_type_name, get_task_id, history_list_summary,
    last_path_segment,
};
use durabletask::status::{from_runtime_status_string, to_runtime_status_string, OrchestrationStatus};
use durabletask::trace::span_context_from_trace_context;
use durabletask::workitem::ActivityWorkItem;
use durabletask::Timestamp;
use uuid::Uuid;

fn ts(seconds: i64) -> Timestamp {
    Timestamp { seconds, nanos: 0 }
}

#[test]
fn test_get_task_function_name() {
    let result = last_path_segment("durabletask::tests::test_task_function");
    assert_eq!(result, "test_task_function")
}

#[test]
fn last_path_segment_without_separator() {
    assert_eq!(last_path_segment("plain"), "plain");
    assert_eq!(last_path_segment(""), "");
}

#[test]
fn test_get_default_worker_name() {
    let result = get_default_worker_name(4242);
    let parsed: Vec<String> = result.split(',').map(|s| s.to_string()).collect();
    assert_ne!(parsed[0], "unknown");
    assert!(parsed[1].parse::<u64>().is_ok());
    let id = Uuid::parse_str(&parsed[2]).unwrap();
    assert_eq!(id.get_version(), Some(uuid::Version::Random));
}

#[test]
fn worker_name_shape() {
    let result = get_default_worker_name(7);
    let parts: Vec<&str> = result.split(',').collect();
    assert_eq!(parts.len(), 3);
    assert!(!parts[0].is_empty());
    assert_eq!(parts[1], "7");
    let uuid_part: Vec<char> = parts[2].chars().collect();
    assert_eq!(uuid_part.len(), 36);
    for (i, c) in uuid_part.iter().enumerate() {
        if i == 8 || i == 13 || i == 18 || i == 23 {
            assert_eq!(*c, '-');
        } else {
            assert!(c.is_ascii_hexdigit() && !c.is_ascii_uppercase());
        }
    }
}

#[test]
fn status_string_round_trip() {
    let statuses = vec![
        OrchestrationStatus::Running,
        OrchestrationStatus::Completed,
        OrchestrationStatus::ContinuedAsNew,
        OrchestrationStatus::Failed,
        OrchestrationStatus::Canceled,
        OrchestrationStatus::Terminated,
        OrchestrationStatus::Pending,
        OrchestrationStatus::Suspended,
    ];
    for status in statuses {
        let text = to_runtime_status_string(status);
        assert_eq!(from_runtime_status_string(text.as_str()), status);
    }
    assert_eq!(
        to_runtime_status_string(OrchestrationStatus::ContinuedAsNew),
        "CONTINUED_AS_NEW"
    );
}

#[test]
fn history_summary_formats_entries() {
    assert_eq!(history_list_summary(&[]), "[]");

    let events = vec![
        new_task_scheduled_event(1, "A".to_string(), None, None, None, ts(10)),
        new_timer_created_event(2, ts(100), ts(11)),
        new_task_completed_event(1, None, ts(12)),
    ];
    assert_eq!(
        history_list_summary(&events),
        "[TaskScheduled#1, TimerCreated#2, TaskCompleted]"
    );
}

#[test]
fn history_summary_truncates_after_ten() {
    let mut events: Vec<HistoryEvent> = Vec::new();
    for i in 0..12 {
        events.push(new_timer_created_event(i, ts(100), ts(10)));
    }
    let summary = history_list_summary(&events);
    assert!(summary.ends_with(", ...]"));
    assert_eq!(summary.matches("TimerCreated").count(), 10);
}

#[test]
fn action_summary_formats_entries() {
    assert_eq!(action_list_summary(&[]), "[]");
    let actions = vec![
        new_schedule_task_action(1, "A".to_string(), None),
        new_create_timer_action(2, ts(100)),
    ];
    assert_eq!(action_list_summary(&actions), "[ScheduleTask#1, CreateTimer#2]");
}

#[test]
fn task_ids_come_from_payloads() {
    let completed = new_task_completed_event(9, None, ts(10));
    assert_eq!(completed.event_id, -1);
    assert_eq!(get_task_id(&completed), -1);

    let mut zeroed = new_task_completed_event(9, None, ts(10));
    zeroed.event_id = 0;
    assert_eq!(get_task_id(&zeroed), 9);

    let scheduled = new_task_scheduled_event(4, "A".to_string(), None, None, None, ts(10));
    assert_eq!(get_task_id(&scheduled), 4);
}

#[test]
fn event_type_names() {
    let scheduled = new_task_scheduled_event(4, "A".to_string(), None, None, None, ts(10));
    assert_eq!(get_history_event_type_name(&scheduled), "TaskScheduled");
    let sub_completed = HistoryEvent {
        event_id: -1,
        timestamp: ts(0),
        event_type: Some(EventType::SubOrchestrationInstanceCompleted {
            task_scheduled_id: 3,
            result: None,
        }),
    };
    assert_eq!(
        get_history_event_type_name(&sub_completed),
        "SubOrchestrationInstanceCompleted"
    );
    let history_state = HistoryEvent {
        event_id: -1,
        timestamp: ts(0),
        event_type: Some(EventType::HistoryState),
    };
    assert_eq!(get_history_event_type_name(&history_state), "HistoryState");
    let nameless = HistoryEvent { event_id: -1, timestamp: ts(0), event_type: None };
    assert_eq!(get_history_event_type_name(&nameless), "");
}

#[test]
fn sub_orchestration_instances_are_deduplicated() {
    let old_events = vec![
        new_sub_orchestration_created_event(1, "c".to_string(), None, None, "A".to_string(), None, ts(10)),
        new_sub_orchestration_created_event(2, "c".to_string(), None, None, "B".to_string(), None, ts(11)),
    ];
    let new_events = vec![
        new_sub_orchestration_created_event(3, "c".to_string(), None, None, "A".to_string(), None, ts(12)),
    ];
    let mut ids = get_sub_orchestration_instances(&old_events, &new_events);
    ids.sort();
    assert_eq!(ids, vec!["A".to_string(), "B".to_string()]);
}

#[test]
fn trace_parent_parses_w3c_form() {
    let tc = TraceContext {
        trace_parent: "00-0af7651916cd43dd8448eb211c80319c-b7ad6b7169203331-01".to_string(),
        span_id: "".to_string(),
        trace_state: Some("vendor=1".to_string()),
    };
    let sc = span_context_from_trace_context(&tc).unwrap();
    assert_eq!(sc.trace_id, 0x0af7651916cd43dd8448eb211c80319c_u128);
    assert_eq!(sc.span_id, 0xb7ad6b7169203331_u64);
    assert_eq!(sc.trace_flags, 1);
    assert_eq!(sc.trace_state.as_deref(), Some("vendor=1"));
}

#[test]
fn trace_parent_rejects_malformed_forms() {
    let legacy = TraceContext {
        trace_parent: "0af7651916cd43dd8448eb211c80319c".to_string(),
        span_id: "b7ad6b7169203331".to_string(),
        trace_state: None,
    };
    assert!(span_context_from_trace_context(&legacy).is_err());

    let uppercase = TraceContext {
        trace_parent: "00-0AF7651916CD43DD8448EB211C80319C-b7ad6b7169203331-01".to_string(),
        span_id: "".to_string(),
        trace_state: None,
    };
    assert!(span_context_from_trace_context(&uppercase).is_err());

    let short = TraceContext {
        trace_parent: "00-abc-def-01".to_string(),
        span_id: "".to_string(),
        trace_state: None,
    };
    assert!(span_context_from_trace_context(&short).is_err());
}

#[test]
fn activity_work_item_display() {
    let wi = ActivityWorkItem {
        sequence_number: 1,
        instance_id: InstanceID("i1".to_string()),
        new_event: new_task_scheduled_event(3, "A".to_string(), None, None, None, ts(10)),
        result: None,
        locked_by: "w".to_string(),
    };
    assert_eq!(wi.display_string(), "i1/A#3");
    match &wi.new_event.event_type {
        Some(EventType::TaskScheduled { .. }) => {}
        other => panic!("expected TaskScheduled, got {:?}", other),
    }
}

#[test]
fn task_failure_details_fields() {
    let fd = durabletask::events::new_task_failure_details(
        "core::fmt::Error".to_string(),
        "boom".to_string(),
    );
    assert_eq!(fd.error_type, "core::fmt::Error");
    assert_eq!(fd.error_message, "boom");
    assert!(fd.stack_trace.is_none());
}

#[test]
fn trace_parent_print_parse_round_trip() {
    let text = durabletask::trace::format_trace_parent(
        0x0af7651916cd43dd8448eb211c80319c_u128,
        0xb7ad6b7169203331_u64,
        1,
    );
    assert_eq!(text, "00-0af7651916cd43dd8448eb211c80319c-b7ad6b7169203331-1");

    let tc = TraceContext { trace_parent: text, span_id: "".to_string(), trace_state: None };
    let sc = span_context_from_trace_context(&tc).unwrap();
    assert_eq!(sc.trace_id, 0x0af7651916cd43dd8448eb211c80319c_u128);
    assert_eq!(sc.span_id, 0xb7ad6b7169203331_u64);
    assert_eq!(sc.trace_flags, 1);
}
