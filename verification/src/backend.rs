use vstd::prelude::*;

use crate::events::{clone_opt_string, new_execution_terminated_event, terminated_event, EventType, HistoryEvent};
use crate::runtimestate::OrchestrationRuntimeState;
use crate::strutil::str_eq;
use crate::Timestamp;

verus! {

// ---------------------------------------------------------------------------
// Backend errors.
// ---------------------------------------------------------------------------

/// What a pluggable backend can report.
#[derive(Debug)]
pub enum BackendError {
    TaskHubExists,
    TaskHubNotFound,
    NotInitialized,
    WorkItemLockLost,
    BackendAlreadyStarted,
    Other(String),
}

impl BackendError {
    /// A human-readable description of the error.
    pub fn message(&self) -> (r: String)
        ensures
            r@ == match *self {
                BackendError::TaskHubExists => "task hub already exists"@,
                BackendError::TaskHubNotFound => "task hub not found"@,
                BackendError::NotInitialized => "backend not initialized"@,
                BackendError::WorkItemLockLost => "lock on work-item was lost"@,
                BackendError::BackendAlreadyStarted => "backend is already started"@,
                BackendError::Other(e) => "other error: "@ + e@,
            },
    {
        match self {
            BackendError::TaskHubExists => String::from_str("task hub already exists"),
            BackendError::TaskHubNotFound => String::from_str("task hub not found"),
            BackendError::NotInitialized => String::from_str("backend not initialized"),
            BackendError::WorkItemLockLost => String::from_str("lock on work-item was lost"),
            BackendError::BackendAlreadyStarted => String::from_str("backend is already started"),
            BackendError::Other(e) => {
                let mut s = String::from_str("other error: ");
                s.append(e.as_str());
                proof {
                    assert(s@ =~= "other error: "@ + e@);
                }
                s
            },
        }
    }
}

// ---------------------------------------------------------------------------
// Sub-orchestration instances named in a history.
// ---------------------------------------------------------------------------

/// Whether `e` records the creation of a sub-orchestration under the id
/// `s`.
pub open spec fn names_sub_instance(e: HistoryEvent, s: Seq<char>) -> bool {
    e.event_type matches Some(EventType::SubOrchestrationInstanceCreated { instance_id, .. })
        && instance_id@ == s
}

/// The set of sub-orchestration instance ids named in a sequence of events.
pub open spec fn sub_instance_ids(events: Seq<HistoryEvent>) -> Set<Seq<char>> {
    Set::new(
        |s: Seq<char>|
            exists|i: int| 0 <= i < events.len() && names_sub_instance(#[trigger] events[i], s),
    )
}

/// The character sequences of the strings in a vector's view.
pub open spec fn views_of(v: Seq<String>) -> Set<Seq<char>> {
    Set::new(|s: Seq<char>| exists|k: int| 0 <= k < v.len() && (#[trigger] v[k])@ == s)
}

/// Whether a vector of strings holds pairwise different character
/// sequences.
pub open spec fn distinct_views(v: Seq<String>) -> bool {
    forall|k1: int, k2: int| 0 <= k1 < k2 < v.len() ==> (#[trigger] v[k1])@ != (#[trigger] v[k2])@
}

/// Whether some entry of `v` reads `s`.
fn contains_str(v: &Vec<String>, s: &str) -> (r: bool)
    ensures
        r == views_of(v@).contains(s@),
{
    let mut k: usize = 0;
    while k < v.len()
        invariant
            k <= v@.len(),
            forall|j: int| 0 <= j < k ==> (#[trigger] v@[j])@ != s@,
        decreases v@.len() - k,
    {
        if str_eq(v[k].as_str(), s) {
            proof {
                assert(views_of(v@).contains(s@)) by {
                    assert((v@[k as int])@ == s@);
                }
            }
            return true;
        }
        k += 1;
    }
    proof {
        if views_of(v@).contains(s@) {
            let j = choose|j: int| 0 <= j < v@.len() && (#[trigger] v@[j])@ == s@;
            assert((v@[j])@ != s@);
        }
    }
    false
}

/// Pushing a string onto a vector adds exactly its characters to the set
/// of views.
proof fn lemma_views_of_push(v: Seq<String>, x: String)
    ensures
        views_of(v.push(x)) =~= views_of(v).insert(x@),
{
    assert forall|s: Seq<char>| #[trigger]
        views_of(v.push(x)).contains(s) implies views_of(v).insert(x@).contains(s) by {
        let k = choose|k: int| 0 <= k < v.push(x).len() && (#[trigger] v.push(x)[k])@ == s;
        if k < v.len() {
            assert((v[k])@ == s);
        }
    }
    assert forall|s: Seq<char>|
        views_of(v).insert(x@).contains(s) implies #[trigger] views_of(v.push(x)).contains(
        s,
    ) by {
        if views_of(v).contains(s) {
            let k = choose|k: int| 0 <= k < v.len() && (#[trigger] v[k])@ == s;
            assert((v.push(x)[k])@ == s);
        } else {
            assert((v.push(x)[v.len() as int])@ == s);
        }
    }
}

/// Appending an event adds exactly the sub-instance ids it names.
proof fn lemma_sub_ids_push(events: Seq<HistoryEvent>, e: HistoryEvent)
    ensures
        sub_instance_ids(events.push(e)) =~= sub_instance_ids(events) + Set::new(
            |s: Seq<char>| names_sub_instance(e, s),
        ),
{
    assert forall|s: Seq<char>| #[trigger]
        sub_instance_ids(events.push(e)).contains(s) implies (sub_instance_ids(events)
        + Set::new(|s2: Seq<char>| names_sub_instance(e, s2))).contains(s) by {
        let j = choose|j: int|
            0 <= j < events.push(e).len() && names_sub_instance(#[trigger] events.push(e)[j], s);
        if j < events.len() {
            assert(names_sub_instance(events[j], s));
        } else {
            assert(names_sub_instance(e, s));
        }
    }
    assert forall|s: Seq<char>|
        (sub_instance_ids(events) + Set::new(
            |s2: Seq<char>| names_sub_instance(e, s2),
        )).contains(s) implies #[trigger] sub_instance_ids(events.push(e)).contains(s) by {
        if sub_instance_ids(events).contains(s) {
            let j = choose|j: int|
                0 <= j < events.len() && names_sub_instance(#[trigger] events[j], s);
            assert(names_sub_instance(events.push(e)[j], s));
        } else {
            assert(names_sub_instance(events.push(e)[events.len() as int], s));
        }
    }
}

/// Appends to `acc` the sub-orchestration ids named in `events` that it
/// does not hold yet.
#[verifier::loop_isolation(false)]
fn add_sub_instance_ids(events: &[HistoryEvent], acc: &mut Vec<String>)
    requires
        distinct_views(old(acc)@),
    ensures
        distinct_views(final(acc)@),
        views_of(final(acc)@) == views_of(old(acc)@) + sub_instance_ids(events@),
{
    let mut i: usize = 0;
    while i < events.len()
        invariant
            i <= events@.len(),
            distinct_views(acc@),
            views_of(acc@) =~= views_of(old(acc)@) + sub_instance_ids(events@.take(i as int)),
        decreases events@.len() - i,
    {
        let ghost pre = acc@;
        let ghost e_i = events@[i as int];
        match &events[i].event_type {
            Some(EventType::SubOrchestrationInstanceCreated { instance_id, .. }) => {
                if !contains_str(acc, instance_id.as_str()) {
                    acc.push(instance_id.clone());
                    proof {
                        lemma_views_of_push(pre, *instance_id);
                    }
                }
                proof {
                    assert(Set::new(|s: Seq<char>| names_sub_instance(e_i, s))
                        =~= Set::<Seq<char>>::empty().insert(instance_id@));
                }
            },
            _ => {
                proof {
                    assert(Set::new(|s: Seq<char>| names_sub_instance(e_i, s))
                        =~= Set::<Seq<char>>::empty());
                }
            },
        }
        proof {
            assert(events@.take(i + 1 as int) =~= events@.take(i as int).push(e_i));
            lemma_sub_ids_push(events@.take(i as int), e_i);
            assert(views_of(acc@) =~= views_of(old(acc)@) + sub_instance_ids(
                events@.take(i + 1 as int),
            ));
        }
        i += 1;
    }
    proof {
        assert(events@.take(events@.len() as int) =~= events@);
    }
}

/// The distinct sub-orchestration instance ids named across the committed
/// and the episode's events.
pub fn get_sub_orchestration_instances(
    old_events: &[HistoryEvent],
    new_events: &[HistoryEvent],
) -> (r: Vec<String>)
    ensures
        distinct_views(r@),
        views_of(r@) == sub_instance_ids(old_events@) + sub_instance_ids(new_events@),
{
    let mut acc: Vec<String> = Vec::new();
    proof {
        assert(views_of(acc@) =~= Set::<Seq<char>>::empty()) by {
            if exists|s: Seq<char>| views_of(acc@).contains(s) {
                let s = choose|s: Seq<char>| views_of(acc@).contains(s);
                let k = choose|k: int| 0 <= k < acc@.len() && (#[trigger] acc@[k])@ == s;
            }
        }
    }
    add_sub_instance_ids(old_events, &mut acc);
    add_sub_instance_ids(new_events, &mut acc);
    proof {
        assert(views_of(acc@) =~= sub_instance_ids(old_events@) + sub_instance_ids(new_events@));
    }
    acc
}

// ---------------------------------------------------------------------------
// Recursive purge and terminate planning.
// ---------------------------------------------------------------------------

/// What a recursive purge must do next for a loaded state: refuse an
/// unknown instance with `TaskHubNotFound`, refuse a still-running instance
/// with `NotInitialized`, and otherwise purge the named sub-orchestrations
/// before the instance itself.
pub fn purge_plan(state: &OrchestrationRuntimeState) -> (r: Result<Vec<String>, BackendError>)
    ensures
        match r {
            Ok(subs) => {
                &&& state@.old_events.len() + state@.new_events.len() > 0
                &&& state@.completed_event is Some
                &&& distinct_views(subs@)
                &&& views_of(subs@) == sub_instance_ids(state@.old_events) + sub_instance_ids(
                    state@.new_events,
                )
            },
            Err(e) => match e {
                BackendError::TaskHubNotFound => state@.old_events.len() == 0
                    && state@.new_events.len() == 0,
                BackendError::NotInitialized => state@.old_events.len() + state@.new_events.len()
                    > 0 && state@.completed_event is None,
                _ => false,
            },
        },
{
    if state.new_events().len() == 0 && state.old_events().len() == 0 {
        return Err(BackendError::TaskHubNotFound);
    }
    if !state.is_completed() {
        return Err(BackendError::NotInitialized);
    }
    Ok(
        get_sub_orchestration_instances(
            state.old_events().as_slice(),
            state.new_events().as_slice(),
        ),
    )
}

/// The termination events a recursive terminate spreads to the named
/// sub-orchestrations: none unless `recurse` is set, else one
/// `ExecutionTerminated` per distinct sub-instance, carrying the same
/// reason and the recurse flag.
pub fn terminate_sub_orchestration_events(
    state: &OrchestrationRuntimeState,
    reason: &Option<String>,
    recurse: bool,
    now: Timestamp,
) -> (r: Vec<(String, HistoryEvent)>)
    ensures
        !recurse ==> r@.len() == 0,
        recurse ==> {
            &&& distinct_views(r@.map_values(|p: (String, HistoryEvent)| p.0))
            &&& views_of(r@.map_values(|p: (String, HistoryEvent)| p.0)) == sub_instance_ids(
                state@.old_events,
            ) + sub_instance_ids(state@.new_events)
            &&& forall|k: int|
                0 <= k < r@.len() ==> (#[trigger] r@[k]).1 == terminated_event(
                    *reason,
                    recurse,
                    now,
                )
        },
{
    let mut r: Vec<(String, HistoryEvent)> = Vec::new();
    if !recurse {
        return r;
    }
    let subs = get_sub_orchestration_instances(
        state.old_events().as_slice(),
        state.new_events().as_slice(),
    );
    let ghost subs_view = subs@;
    let mut k: usize = 0;
    while k < subs.len()
        invariant
            k <= subs@.len(),
            subs@ == subs_view,
            r@.len() == k,
            forall|j: int| 0 <= j < k ==> (#[trigger] r@[j]).0 == subs_view[j],
            forall|j: int|
                0 <= j < k ==> (#[trigger] r@[j]).1 == terminated_event(*reason, recurse, now),
        decreases subs@.len() - k,
    {
        let e = new_execution_terminated_event(clone_opt_string(reason), recurse, now);
        r.push((subs[k].clone(), e));
        k += 1;
    }
    proof {
        assert(r@.map_values(|p: (String, HistoryEvent)| p.0) =~= subs_view);
    }
    r
}

} // verus!
