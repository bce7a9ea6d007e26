use vstd::prelude::*;

use crate::strutil::str_eq;

verus! {

/// The lifecycle status of an orchestration instance.
#[derive(Clone, Copy, Debug, PartialEq, Eq, Structural)]
pub enum OrchestrationStatus {
    Running,
    Completed,
    ContinuedAsNew,
    Failed,
    Canceled,
    Terminated,
    Pending,
    Suspended,
}

/// The canonical runtime-status name of a status, with the common
/// `ORCHESTRATION_STATUS_` prefix already stripped.
pub open spec fn runtime_status_name(status: OrchestrationStatus) -> Seq<char> {
    match status {
        OrchestrationStatus::Running => "RUNNING"@,
        OrchestrationStatus::Completed => "COMPLETED"@,
        OrchestrationStatus::ContinuedAsNew => "CONTINUED_AS_NEW"@,
        OrchestrationStatus::Failed => "FAILED"@,
        OrchestrationStatus::Canceled => "CANCELED"@,
        OrchestrationStatus::Terminated => "TERMINATED"@,
        OrchestrationStatus::Pending => "PENDING"@,
        OrchestrationStatus::Suspended => "SUSPENDED"@,
    }
}

/// The status whose runtime-status name is `s`, if any.
pub open spec fn status_of_runtime_name(s: Seq<char>) -> Option<OrchestrationStatus> {
    if s == runtime_status_name(OrchestrationStatus::Running) {
        Some(OrchestrationStatus::Running)
    } else if s == runtime_status_name(OrchestrationStatus::Completed) {
        Some(OrchestrationStatus::Completed)
    } else if s == runtime_status_name(OrchestrationStatus::ContinuedAsNew) {
        Some(OrchestrationStatus::ContinuedAsNew)
    } else if s == runtime_status_name(OrchestrationStatus::Failed) {
        Some(OrchestrationStatus::Failed)
    } else if s == runtime_status_name(OrchestrationStatus::Canceled) {
        Some(OrchestrationStatus::Canceled)
    } else if s == runtime_status_name(OrchestrationStatus::Terminated) {
        Some(OrchestrationStatus::Terminated)
    } else if s == runtime_status_name(OrchestrationStatus::Pending) {
        Some(OrchestrationStatus::Pending)
    } else if s == runtime_status_name(OrchestrationStatus::Suspended) {
        Some(OrchestrationStatus::Suspended)
    } else {
        None
    }
}

/// The runtime-status name of `status` without the canonical prefix.
pub fn to_runtime_status_string(status: OrchestrationStatus) -> (r: String)
    ensures
        r@ == runtime_status_name(status),
{
    match status {
        OrchestrationStatus::Running => String::from_str("RUNNING"),
        OrchestrationStatus::Completed => String::from_str("COMPLETED"),
        OrchestrationStatus::ContinuedAsNew => String::from_str("CONTINUED_AS_NEW"),
        OrchestrationStatus::Failed => String::from_str("FAILED"),
        OrchestrationStatus::Canceled => String::from_str("CANCELED"),
        OrchestrationStatus::Terminated => String::from_str("TERMINATED"),
        OrchestrationStatus::Pending => String::from_str("PENDING"),
        OrchestrationStatus::Suspended => String::from_str("SUSPENDED"),
    }
}

/// The status named by a runtime-status string without the canonical prefix.
pub fn from_runtime_status_string(status: &str) -> (r: OrchestrationStatus)
    requires
        status_of_runtime_name(status@) is Some,
    ensures
        Some(r) == status_of_runtime_name(status@),
{
    if str_eq(status, "RUNNING") {
        OrchestrationStatus::Running
    } else if str_eq(status, "COMPLETED") {
        OrchestrationStatus::Completed
    } else if str_eq(status, "CONTINUED_AS_NEW") {
        OrchestrationStatus::ContinuedAsNew
    } else if str_eq(status, "FAILED") {
        OrchestrationStatus::Failed
    } else if str_eq(status, "CANCELED") {
        OrchestrationStatus::Canceled
    } else if str_eq(status, "TERMINATED") {
        OrchestrationStatus::Terminated
    } else if str_eq(status, "PENDING") {
        OrchestrationStatus::Pending
    } else {
        OrchestrationStatus::Suspended
    }
}

/// Printing a status and parsing the printed name yields the status back,
/// for every status.
pub proof fn lemma_status_string_round_trip(status: OrchestrationStatus)
    ensures
        status_of_runtime_name(runtime_status_name(status)) == Some(status),
{
    reveal_strlit("RUNNING");
    reveal_strlit("COMPLETED");
    reveal_strlit("CONTINUED_AS_NEW");
    reveal_strlit("FAILED");
    reveal_strlit("CANCELED");
    reveal_strlit("TERMINATED");
    reveal_strlit("PENDING");
    reveal_strlit("SUSPENDED");
    assert("RUNNING"@.len() == 7);
    assert("COMPLETED"@.len() == 9);
    assert("CONTINUED_AS_NEW"@.len() == 16);
    assert("FAILED"@.len() == 6);
    assert("CANCELED"@.len() == 8);
    assert("TERMINATED"@.len() == 10);
    assert("PENDING"@.len() == 7);
    assert("SUSPENDED"@.len() == 9);
    assert("PENDING"@ != "RUNNING"@) by {
        assert("PENDING"@[0] == 'P' && "RUNNING"@[0] == 'R');
    }
    assert("SUSPENDED"@ != "COMPLETED"@) by {
        assert("SUSPENDED"@[0] == 'S' && "COMPLETED"@[0] == 'C');
    }
}

} // verus!
