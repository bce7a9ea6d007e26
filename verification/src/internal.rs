use vstd::prelude::*;

use crate::actions::{OrchestratorAction, OrchestratorActionType};
use crate::events::{EventType, HistoryEvent};
use crate::strutil::{dec_seq, push_dec_u64};

verus! {

// ---------------------------------------------------------------------------
// Task-id extraction.
// ---------------------------------------------------------------------------

/// The task id an event correlates to: its own `event_id` where that is set,
/// else the scheduled id carried in the payload, else `-1`.
pub open spec fn spec_get_task_id(e: HistoryEvent) -> int {
    if e.event_id != 0 {
        e.event_id as int
    } else {
        match e.event_type {
            None => -1,
            Some(EventType::TaskCompleted { task_scheduled_id, .. }) => task_scheduled_id as int,
            Some(EventType::TaskFailed { task_scheduled_id, .. }) => task_scheduled_id as int,
            Some(
                EventType::SubOrchestrationInstanceCompleted { task_scheduled_id, .. },
            ) => task_scheduled_id as int,
            Some(
                EventType::SubOrchestrationInstanceFailed { task_scheduled_id, .. },
            ) => task_scheduled_id as int,
            Some(EventType::TimerFired { timer_id, .. }) => timer_id as int,
            Some(EventType::ExecutionStarted(se)) => match se.parent_instance {
                Some(p) => p.task_scheduled_id as int,
                None => -1,
            },
            Some(_) => -1,
        }
    }
}

/// Whether `get_task_id` is defined on `e`: an uncorrelated `ExecutionStarted`
/// event must carry its parent reference.
pub open spec fn task_id_readable(e: HistoryEvent) -> bool {
    e.event_id == 0 ==> (e.event_type matches Some(EventType::ExecutionStarted(se))
        ==> se.parent_instance is Some)
}

/// The task id an event correlates to.
pub fn get_task_id(e: &HistoryEvent) -> (r: i32)
    requires
        task_id_readable(*e),
    ensures
        r as int == spec_get_task_id(*e),
{
    if e.event_id != 0 {
        e.event_id
    } else {
        match &e.event_type {
            None => -1,
            Some(EventType::TaskCompleted { task_scheduled_id, .. }) => *task_scheduled_id,
            Some(EventType::TaskFailed { task_scheduled_id, .. }) => *task_scheduled_id,
            Some(EventType::SubOrchestrationInstanceCompleted { task_scheduled_id, .. }) => {
                *task_scheduled_id
            },
            Some(EventType::SubOrchestrationInstanceFailed { task_scheduled_id, .. }) => {
                *task_scheduled_id
            },
            Some(EventType::TimerFired { timer_id, .. }) => *timer_id,
            Some(EventType::ExecutionStarted(se)) => match &se.parent_instance {
                Some(p) => p.task_scheduled_id,
                None => -1,
            },
            Some(_) => -1,
        }
    }
}

// ---------------------------------------------------------------------------
// Type names for human-readable summaries.
// ---------------------------------------------------------------------------

/// The short name under which an event appears in a history summary.
pub open spec fn spec_history_event_type_name(e: HistoryEvent) -> Seq<char> {
    match e.event_type {
        None => Seq::<char>::empty(),
        Some(EventType::ExecutionStarted(..)) => "ExecutionStarted"@,
        Some(EventType::ExecutionResumed { .. }) => "ExecutionResumed"@,
        Some(EventType::ExecutionCompleted(..)) => "ExecutionCompleted"@,
        Some(EventType::ExecutionSuspended { .. }) => "ExecutionSuspended"@,
        Some(EventType::ExecutionTerminated { .. }) => "ExecutionTerminated"@,
        Some(EventType::TimerFired { .. }) => "TimerFired"@,
        Some(EventType::TimerCreated { .. }) => "TimerCreated"@,
        Some(EventType::TaskScheduled { .. }) => "TaskScheduled"@,
        Some(EventType::TaskFailed { .. }) => "TaskFailed"@,
        Some(EventType::TaskCompleted { .. }) => "TaskCompleted"@,
        Some(EventType::SubOrchestrationInstanceFailed { .. }) => "SubOrchestrationInstanceFailed"@,
        Some(
            EventType::SubOrchestrationInstanceCompleted { .. },
        ) => "SubOrchestrationInstanceCompleted"@,
        Some(
            EventType::SubOrchestrationInstanceCreated { .. },
        ) => "SubOrchestrationInstanceCreated"@,
        Some(EventType::OrchestratorStarted) => "OrchestratorStarted"@,
        Some(EventType::OrchestratorCompleted) => "OrchestratorCompleted"@,
        Some(EventType::EventSent { .. }) => "EventSent"@,
        Some(EventType::EventRaised { .. }) => "EventRaised"@,
        Some(EventType::GenericEvent { .. }) => "GenericEvent"@,
        Some(EventType::HistoryState) => "HistoryState"@,
        Some(EventType::ContinueAsNew { .. }) => "ContinueAsNew"@,
    }
}

/// The short name under which an event appears in a history summary.
pub fn get_history_event_type_name(e: &HistoryEvent) -> (r: String)
    ensures
        r@ == spec_history_event_type_name(*e),
{
    match &e.event_type {
        None => String::new(),
        Some(EventType::ExecutionStarted(..)) => String::from_str("ExecutionStarted"),
        Some(EventType::ExecutionResumed { .. }) => String::from_str("ExecutionResumed"),
        Some(EventType::ExecutionCompleted(..)) => String::from_str("ExecutionCompleted"),
        Some(EventType::ExecutionSuspended { .. }) => String::from_str("ExecutionSuspended"),
        Some(EventType::ExecutionTerminated { .. }) => String::from_str("ExecutionTerminated"),
        Some(EventType::TimerFired { .. }) => String::from_str("TimerFired"),
        Some(EventType::TimerCreated { .. }) => String::from_str("TimerCreated"),
        Some(EventType::TaskScheduled { .. }) => String::from_str("TaskScheduled"),
        Some(EventType::TaskFailed { .. }) => String::from_str("TaskFailed"),
        Some(EventType::TaskCompleted { .. }) => String::from_str("TaskCompleted"),
        Some(EventType::SubOrchestrationInstanceFailed { .. }) => {
            String::from_str("SubOrchestrationInstanceFailed")
        },
        Some(EventType::SubOrchestrationInstanceCompleted { .. }) => {
            String::from_str("SubOrchestrationInstanceCompleted")
        },
        Some(EventType::SubOrchestrationInstanceCreated { .. }) => {
            String::from_str("SubOrchestrationInstanceCreated")
        },
        Some(EventType::OrchestratorStarted) => String::from_str("OrchestratorStarted"),
        Some(EventType::OrchestratorCompleted) => String::from_str("OrchestratorCompleted"),
        Some(EventType::EventSent { .. }) => String::from_str("EventSent"),
        Some(EventType::EventRaised { .. }) => String::from_str("EventRaised"),
        Some(EventType::GenericEvent { .. }) => String::from_str("GenericEvent"),
        Some(EventType::HistoryState) => String::from_str("HistoryState"),
        Some(EventType::ContinueAsNew { .. }) => String::from_str("ContinueAsNew"),
    }
}

/// The short name under which an action appears in an action summary.
pub open spec fn spec_action_type_name(a: OrchestratorAction) -> Seq<char> {
    match a.orchestrator_action_type {
        None => Seq::<char>::empty(),
        Some(OrchestratorActionType::SendEvent { .. }) => "SendEvent"@,
        Some(OrchestratorActionType::CreateTimer { .. }) => "CreateTimer"@,
        Some(OrchestratorActionType::ScheduleTask { .. }) => "ScheduleTask"@,
        Some(OrchestratorActionType::CompleteOrchestration { .. }) => "CompleteOrchestration"@,
        Some(OrchestratorActionType::CreateSubOrchestration { .. }) => "CreateSubOrchestration"@,
        Some(OrchestratorActionType::TerminateOrchestration { .. }) => "TerminateOrchestration"@,
    }
}

/// The short name under which an action appears in an action summary.
pub fn get_action_type_name(a: &OrchestratorAction) -> (r: String)
    ensures
        r@ == spec_action_type_name(*a),
{
    match &a.orchestrator_action_type {
        None => String::new(),
        Some(OrchestratorActionType::SendEvent { .. }) => String::from_str("SendEvent"),
        Some(OrchestratorActionType::CreateTimer { .. }) => String::from_str("CreateTimer"),
        Some(OrchestratorActionType::ScheduleTask { .. }) => String::from_str("ScheduleTask"),
        Some(OrchestratorActionType::CompleteOrchestration { .. }) => {
            String::from_str("CompleteOrchestration")
        },
        Some(OrchestratorActionType::CreateSubOrchestration { .. }) => {
            String::from_str("CreateSubOrchestration")
        },
        Some(OrchestratorActionType::TerminateOrchestration { .. }) => {
            String::from_str("TerminateOrchestration")
        },
    }
}

// ---------------------------------------------------------------------------
// Human-readable list summaries, truncated after ten entries.
// ---------------------------------------------------------------------------

/// One summary entry: the type name, and `#id` where the id is non-negative.
pub open spec fn summary_entry(name: Seq<char>, tid: int) -> Seq<char> {
    if tid >= 0 {
        name + "#"@ + dec_seq(tid)
    } else {
        name
    }
}

/// The summary entries after the first, from position `i` on, with a
/// separator before each and an ellipsis in place of the eleventh.
pub open spec fn history_summary_tail(list: Seq<HistoryEvent>, i: int) -> Seq<char>
    decreases list.len() - i,
{
    if i >= list.len() {
        Seq::<char>::empty()
    } else if i >= 10 {
        ", "@ + "..."@
    } else {
        ", "@ + summary_entry(spec_history_event_type_name(list[i]), spec_get_task_id(list[i]))
            + history_summary_tail(list, i + 1)
    }
}

/// The full bracketed summary of a history event list.
pub open spec fn spec_history_list_summary(list: Seq<HistoryEvent>) -> Seq<char> {
    if list.len() == 0 {
        "["@ + "]"@
    } else {
        "["@ + summary_entry(spec_history_event_type_name(list[0]), spec_get_task_id(list[0]))
            + history_summary_tail(list, 1) + "]"@
    }
}

fn push_history_entry(sb: &mut String, e: &HistoryEvent)
    requires
        task_id_readable(*e),
    ensures
        final(sb)@ == old(sb)@ + summary_entry(
            spec_history_event_type_name(*e),
            spec_get_task_id(*e),
        ),
{
    let name = get_history_event_type_name(e);
    sb.append(name.as_str());
    let task_id = get_task_id(e);
    if task_id >= 0 {
        sb.append("#");
        push_dec_u64(sb, task_id as u64);
    }
}

fn push_history_tail(sb: &mut String, list: &[HistoryEvent], i: usize)
    requires
        1 <= i,
        forall|j: int| 0 <= j < list@.len() ==> task_id_readable(list@[j]),
    ensures
        final(sb)@ == old(sb)@ + history_summary_tail(list@, i as int),
    decreases list@.len() - i,
{
    if i >= list.len() {
    } else if i >= 10 {
        sb.append(", ");
        sb.append("...");
    } else {
        sb.append(", ");
        push_history_entry(sb, &list[i]);
        push_history_tail(sb, list, i + 1);
        proof {
            assert(sb@ =~= old(sb)@ + history_summary_tail(list@, i as int));
        }
    }
}

/// The bracketed, comma-separated summary of a history event list, truncated
/// with an ellipsis after ten entries.
pub fn history_list_summary(list: &[HistoryEvent]) -> (r: String)
    requires
        forall|j: int| 0 <= j < list@.len() ==> task_id_readable(list@[j]),
    ensures
        r@ == spec_history_list_summary(list@),
{
    let mut sb = String::new();
    sb.append("[");
    if list.len() > 0 {
        push_history_entry(&mut sb, &list[0]);
        push_history_tail(&mut sb, list, 1);
    }
    sb.append("]");
    proof {
        assert(sb@ =~= spec_history_list_summary(list@));
    }
    sb
}

/// The summary entries of an action list after the first, from position `i`
/// on.
pub open spec fn action_summary_tail(list: Seq<OrchestratorAction>, i: int) -> Seq<char>
    decreases list.len() - i,
{
    if i >= list.len() {
        Seq::<char>::empty()
    } else if i >= 10 {
        ", "@ + "..."@
    } else {
        ", "@ + summary_entry(spec_action_type_name(list[i]), list[i].id as int)
            + action_summary_tail(list, i + 1)
    }
}

/// The full bracketed summary of an action list.
pub open spec fn spec_action_list_summary(list: Seq<OrchestratorAction>) -> Seq<char> {
    if list.len() == 0 {
        "["@ + "]"@
    } else {
        "["@ + summary_entry(spec_action_type_name(list[0]), list[0].id as int)
            + action_summary_tail(list, 1) + "]"@
    }
}

fn push_action_entry(sb: &mut String, a: &OrchestratorAction)
    ensures
        final(sb)@ == old(sb)@ + summary_entry(spec_action_type_name(*a), a.id as int),
{
    let name = get_action_type_name(a);
    sb.append(name.as_str());
    if a.id >= 0 {
        sb.append("#");
        push_dec_u64(sb, a.id as u64);
    }
}

fn push_action_tail(sb: &mut String, list: &[OrchestratorAction], i: usize)
    requires
        1 <= i,
    ensures
        final(sb)@ == old(sb)@ + action_summary_tail(list@, i as int),
    decreases list@.len() - i,
{
    if i >= list.len() {
    } else if i >= 10 {
        sb.append(", ");
        sb.append("...");
    } else {
        sb.append(", ");
        push_action_entry(sb, &list[i]);
        push_action_tail(sb, list, i + 1);
        proof {
            assert(sb@ =~= old(sb)@ + action_summary_tail(list@, i as int));
        }
    }
}

/// The bracketed, comma-separated summary of an action list, truncated with
/// an ellipsis after ten entries.
pub fn action_list_summary(list: &[OrchestratorAction]) -> (r: String)
    ensures
        r@ == spec_action_list_summary(list@),
{
    let mut sb = String::new();
    sb.append("[");
    if list.len() > 0 {
        push_action_entry(&mut sb, &list[0]);
        push_action_tail(&mut sb, list, 1);
    }
    sb.append("]");
    proof {
        assert(sb@ =~= spec_action_list_summary(list@));
    }
    sb
}

} // verus!

verus! {

// ---------------------------------------------------------------------------
// Function names.
// ---------------------------------------------------------------------------

/// The position of the right-most `::` separator that starts at or before
/// `i`, or `-1` where there is none.
pub open spec fn last_sep_at_or_before(s: Seq<char>, i: int) -> int
    decreases i + 2,
{
    if i < 0 {
        -1
    } else if s[i] == ':' && s[i + 1] == ':' {
        i
    } else {
        last_sep_at_or_before(s, i - 1)
    }
}

/// What follows the last `::` separator, or the whole text where there is
/// none.
pub open spec fn spec_last_path_segment(s: Seq<char>) -> Seq<char> {
    let j = last_sep_at_or_before(s, s.len() - 2);
    if j < 0 {
        s
    } else {
        s.subrange(j + 2, s.len() as int)
    }
}

fn last_sep_exec(s: &str, i: usize) -> (r: Option<usize>)
    requires
        i + 1 < s@.len(),
        s@.len() <= usize::MAX,
    ensures
        match r {
            Some(j) => last_sep_at_or_before(s@, i as int) == j && j <= i,
            None => last_sep_at_or_before(s@, i as int) == -1,
        },
    decreases i,
{
    let c0 = s.get_char(i);
    let c1 = s.get_char(i + 1);
    if c0 == ':' && c1 == ':' {
        proof {
            assert(s@[i as int] == ':');
            assert(s@[i as int + 1] == ':');
            assert(last_sep_at_or_before(s@, i as int) == i as int);
        }
        Some(i)
    } else if i == 0 {
        proof {
            assert(last_sep_at_or_before(s@, -1) == -1);
            assert(last_sep_at_or_before(s@, 0) == -1);
        }
        None
    } else {
        proof {
            assert(last_sep_at_or_before(s@, i as int) == last_sep_at_or_before(
                s@,
                i as int - 1,
            ));
        }
        last_sep_exec(s, i - 1)
    }
}

/// The text after the last `::`, or the text itself where none occurs.
pub fn last_path_segment(s: &str) -> (r: String)
    ensures
        r@ == spec_last_path_segment(s@),
{
    let n = s.unicode_len();
    if n < 2 {
        return String::from_str(s);
    }
    match last_sep_exec(s, n - 2) {
        Some(j) => String::from_str(s.substring_char(j + 2, n)),
        None => String::from_str(s),
    }
}

} // verus!
