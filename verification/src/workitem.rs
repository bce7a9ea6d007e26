use vstd::prelude::*;

use crate::api::InstanceID;
use crate::events::{EventType, HistoryEvent};
use crate::runtimestate::OrchestrationRuntimeState;
use crate::strutil::{dec_seq, dec_seq_signed, push_dec_i32, push_dec_u64};

verus! {

// ---------------------------------------------------------------------------
// Orchestration work items.
// ---------------------------------------------------------------------------

/// A lease on one instance's next episode: the new events to ingest, who
/// holds the lock, how often the item was abandoned, and the loaded state.
#[derive(Debug)]
pub struct OrchestrationWorkItem {
    pub instance_id: InstanceID,
    pub new_events: Vec<HistoryEvent>,
    pub locked_by: String,
    pub retry_count: u32,
    pub state: OrchestrationRuntimeState,
}

/// The backoff, in seconds, before a work item abandoned `retry_count`
/// times is redelivered: zero at first, then one second per retry, capped
/// at five minutes.
pub open spec fn abandon_delay_model(retry_count: int) -> int {
    if retry_count == 0 {
        0
    } else if retry_count > 100 {
        300
    } else {
        retry_count
    }
}

impl OrchestrationWorkItem {
    /// The backoff, in seconds, before this work item is redelivered.
    pub fn abandon_delay(&self) -> (r: u64)
        ensures
            r as int == abandon_delay_model(self.retry_count as int),
    {
        if self.retry_count == 0 {
            0
        } else if self.retry_count > 100 {
            5 * 60
        } else {
            self.retry_count as u64
        }
    }

    /// The work item as `{instance_id} ({n})` with the number of new
    /// events.
    pub fn display_string(&self) -> (r: String)
        ensures
            r@ == self.instance_id.0@ + " ("@ + dec_seq(self.new_events@.len() as int) + ")"@,
    {
        let mut s = self.instance_id.0.clone();
        s.append(" (");
        push_dec_u64(&mut s, self.new_events.len() as u64);
        s.append(")");
        proof {
            assert(s@ =~= self.instance_id.0@ + " ("@ + dec_seq(self.new_events@.len() as int)
                + ")"@);
        }
        s
    }
}

/// The abandon backoff never shrinks as the retry count grows, and never
/// exceeds 300 seconds.
pub proof fn lemma_abandon_delay_monotonic(a: int, b: int)
    requires
        0 <= a <= b,
    ensures
        abandon_delay_model(a) <= abandon_delay_model(b),
        abandon_delay_model(b) <= 300,
{
}

// ---------------------------------------------------------------------------
// Activity work items.
// ---------------------------------------------------------------------------

/// A lease on one scheduled activity: the `TaskScheduled` event to run, and
/// the completion or failure event produced by running it.
#[derive(Debug)]
pub struct ActivityWorkItem {
    pub sequence_number: i64,
    pub instance_id: InstanceID,
    pub new_event: HistoryEvent,
    pub result: Option<HistoryEvent>,
    pub locked_by: String,
}

impl ActivityWorkItem {
    /// Whether the work item is well-formed: its event schedules a task.
    pub open spec fn wf(&self) -> bool {
        self.new_event.event_type matches Some(EventType::TaskScheduled { .. })
    }

    /// The work item as `{instance_id}/{task_name}#{task_id}`.
    pub fn display_string(&self) -> (r: String)
        requires
            self.wf(),
        ensures
            self.new_event.event_type matches Some(EventType::TaskScheduled { name, .. })
                ==> r@ == self.instance_id.0@ + "/"@ + name@ + "#"@ + dec_seq_signed(
                self.new_event.event_id as int,
            ),
    {
        let mut s = self.instance_id.0.clone();
        s.append("/");
        match &self.new_event.event_type {
            Some(EventType::TaskScheduled { name, .. }) => {
                s.append(name.as_str());
            },
            _ => {},
        }
        s.append("#");
        push_dec_i32(&mut s, self.new_event.event_id);
        proof {
            match &self.new_event.event_type {
                Some(EventType::TaskScheduled { name, .. }) => {
                    assert(s@ =~= self.instance_id.0@ + "/"@ + name@ + "#"@ + dec_seq_signed(
                        self.new_event.event_id as int,
                    ));
                },
                _ => {},
            }
        }
        s
    }
}

} // verus!
