//! Whole runs of the workflow coordinator: the events it was given from a new coordinator,
//! with the effects each of its steps returned, and what holds across them.
use vstd::prelude::*;

use crate::coordinator::{
    holds_selection, is_current, is_duplicate, law_kth_request_gets_id_k, started_requests,
    state_after_event,
    state_after_events, step_effects, CoordinatorEffect, CoordinatorEvent, CoordinatorState,
    PresentationUpdate, RequestId, WorkflowMilestone,
};
use crate::presentation::PresentationState;

verus! {

/// The state before step `i` of a run of `events` from a new coordinator.
pub open spec fn state_before(events: Seq<CoordinatorEvent>, i: int) -> CoordinatorState {
    state_after_events(events.take(i))
}

/// Whether `log` holds, step by step, effects the coordinator returns for `events`, from a
/// new coordinator.
pub open spec fn is_run(events: Seq<CoordinatorEvent>, log: Seq<Seq<CoordinatorEffect>>) -> bool {
    &&& events.len() == log.len()
    &&& forall|i: int| 0 <= i < events.len() ==> #[trigger] step_effects(state_before(events, i), events[i], log[i])
}

/// Whether event `event` in state `s` starts a request: a shortcut that is no duplicate.
pub open spec fn starts_request(s: CoordinatorState, event: CoordinatorEvent) -> bool {
    event matches CoordinatorEvent::Shortcut(action) && !is_duplicate(s, action)
}

/// A run moves from one state to the next by its events, and counts the requests it starts.
proof fn lemma_state_before_step(events: Seq<CoordinatorEvent>, i: int)
    requires
        0 <= i < events.len(),
    ensures
        state_before(events, i + 1) == state_after_event(state_before(events, i), events[i]),
        started_requests(events.take(i + 1)) == started_requests(events.take(i)) + if starts_request(
            state_before(events, i),
            events[i],
        ) {
            1nat
        } else {
            0nat
        },
{
    assert(events.take(i + 1).drop_last() =~= events.take(i));
    assert(events.take(i + 1).last() == events[i]);
}

/// A prefix of a run starts no more requests than the run.
proof fn lemma_started_prefix(events: Seq<CoordinatorEvent>, j: int)
    requires
        0 <= j <= events.len(),
    ensures
        started_requests(events.take(j)) <= started_requests(events),
    decreases events.len(),
{
    if j < events.len() {
        assert(events.take(j) =~= events.drop_last().take(j));
        lemma_started_prefix(events.drop_last(), j);
    } else {
        assert(events.take(j) =~= events);
    }
}

/// Along a run whose identifiers have not run out, the next identifier counts the requests
/// started, and the request in progress is the latest one started.
proof fn lemma_run_identifiers(events: Seq<CoordinatorEvent>, i: int)
    requires
        0 <= i <= events.len(),
        started_requests(events) < u64::MAX,
    ensures
        state_before(events, i).next_id == started_requests(events.take(i)) + 1,
        state_before(events, i).active matches Some(a) ==> a.0.0 + 1 == state_before(events, i).next_id,
    decreases i,
{
    lemma_started_prefix(events, i);
    law_kth_request_gets_id_k(events.take(i));
    if i > 0 {
        lemma_run_identifiers(events, i - 1);
        lemma_state_before_step(events, i - 1);
        lemma_started_prefix(events, i - 1);
    } else {
        assert(events.take(0) =~= Seq::<CoordinatorEvent>::empty());
    }
}

/// What the effects of one step say of the requests they show, the milestones they record
/// and the work they ask for.
proof fn lemma_step_facts(s: CoordinatorState, event: CoordinatorEvent, effects: Seq<CoordinatorEffect>)
    requires
        step_effects(s, event, effects),
    ensures
        forall|k: int|
            0 <= k < effects.len() ==> {
                &&& (#[trigger] effects[k]) matches CoordinatorEffect::Present(u) ==> is_current(
                    s,
                    u.request_id,
                ) || (u.request_id == RequestId(s.next_id) && starts_request(s, event))
                &&& effects[k] matches CoordinatorEffect::Record(
                    WorkflowMilestone::RequestStarted { request_id, action },
                ) ==> k + 1 < effects.len() && effects[k + 1] == CoordinatorEffect::Present(
                    PresentationUpdate { request_id, state: PresentationState::Loading { action } },
                ) && request_id == RequestId(s.next_id) && starts_request(s, event)
                &&& effects[k] matches CoordinatorEffect::Capture { request_id, action } ==> k >= 2
                    && effects[k - 2] == CoordinatorEffect::Record(
                    WorkflowMilestone::RequestStarted { request_id, action },
                )
                &&& effects[k] matches CoordinatorEffect::Record(
                    WorkflowMilestone::CaptureCompleted { request_id },
                ) ==> (event matches CoordinatorEvent::Captured(id, _, _) && id == request_id)
                &&& effects[k] matches CoordinatorEffect::Record(
                    WorkflowMilestone::ProcessingCompleted { request_id },
                ) ==> event == CoordinatorEvent::Processed(request_id)
                &&& effects[k] matches CoordinatorEffect::Record(
                    WorkflowMilestone::RequestCancelled { request_id },
                ) ==> is_current(s, request_id)
                &&& effects[k] matches CoordinatorEffect::Process(p) ==> ((event matches CoordinatorEvent::Captured(
                    id,
                    _,
                    _,
                ) && id == p.request_id && effects[1] == CoordinatorEffect::Record(
                    WorkflowMilestone::CaptureCompleted { request_id: id },
                )) || (event == CoordinatorEvent::DisclosureAccepted(p.request_id) && holds_selection(
                    s,
                    p.request_id,
                )))
            },
{
    assert forall|k: int| 0 <= k < effects.len() implies {
        &&& (#[trigger] effects[k]) matches CoordinatorEffect::Present(u) ==> is_current(s, u.request_id) || (
        u.request_id == RequestId(s.next_id) && starts_request(s, event))
        &&& effects[k] matches CoordinatorEffect::Record(WorkflowMilestone::RequestStarted { request_id, action })
            ==> k + 1 < effects.len() && effects[k + 1] == CoordinatorEffect::Present(
            PresentationUpdate { request_id, state: PresentationState::Loading { action } },
        ) && request_id == RequestId(s.next_id) && starts_request(s, event)
        &&& effects[k] matches CoordinatorEffect::Capture { request_id, action } ==> k >= 2 && effects[k - 2]
            == CoordinatorEffect::Record(WorkflowMilestone::RequestStarted { request_id, action })
        &&& effects[k] matches CoordinatorEffect::Record(WorkflowMilestone::CaptureCompleted { request_id }) ==> (
        event matches CoordinatorEvent::Captured(id, _, _) && id == request_id)
        &&& effects[k] matches CoordinatorEffect::Record(WorkflowMilestone::ProcessingCompleted { request_id })
            ==> event == CoordinatorEvent::Processed(request_id)
        &&& effects[k] matches CoordinatorEffect::Record(WorkflowMilestone::RequestCancelled { request_id })
            ==> is_current(s, request_id)
        &&& effects[k] matches CoordinatorEffect::Process(p) ==> ((event matches CoordinatorEvent::Captured(
            id,
            _,
            _,
        ) && id == p.request_id && effects[1] == CoordinatorEffect::Record(
            WorkflowMilestone::CaptureCompleted { request_id: id },
        )) || (event == CoordinatorEvent::DisclosureAccepted(p.request_id) && holds_selection(s, p.request_id)))
    } by {
        match event {
            CoordinatorEvent::Shortcut(action) => {
                if !is_duplicate(s, action) && s.active is Some {
                    if k < 2 {
                        assert(effects.subrange(0, 2)[k] == effects[k]);
                    } else {
                        assert(effects.subrange(2, 5)[k - 2] == effects[k]);
                        if k < 4 {
                            assert(effects.subrange(2, 5)[k - 1] == effects[k + 1]);
                        }
                        if k == 4 {
                            assert(effects.subrange(2, 5)[0] == effects[2]);
                        }
                    }
                }
            },
            _ => {},
        }
    }
}

/// A request that is not in progress, below the next identifier, stays so for the rest of a
/// run whose identifiers have not run out.
proof fn lemma_stale_stays_stale(events: Seq<CoordinatorEvent>, id: RequestId, m: int, j: int)
    requires
        0 <= m <= j <= events.len(),
        started_requests(events) < u64::MAX,
        !is_current(state_before(events, m), id),
        id.0 < state_before(events, m).next_id,
    ensures
        !is_current(state_before(events, j), id),
        id.0 < state_before(events, j).next_id,
    decreases j - m,
{
    if j > m {
        lemma_stale_stays_stale(events, id, m, j - 1);
        lemma_state_before_step(events, j - 1);
        lemma_run_identifiers(events, j - 1);
        lemma_run_identifiers(events, j);
    }
}

/// A shortcut while a request is in progress either is ignored or replaces the request.
///
/// A shortcut for the action in progress changes nothing and does nothing. One for the
/// other action cancels the request in progress without showing anything, records the
/// cancellation, and starts the request with the next identifier, which it records, shows
/// as loading and captures; from then on no step of the run shows anything for the
/// replaced request. It holds while the identifiers have not run out.
pub proof fn law_shortcut_ignores_or_replaces(events: Seq<CoordinatorEvent>, log: Seq<Seq<CoordinatorEffect>>, i: int)
    requires
        is_run(events, log),
        0 <= i < events.len(),
        state_before(events, i).active is Some,
        events[i] is Shortcut,
        started_requests(events) < u64::MAX,
    ensures
        ({
            let s = state_before(events, i);
            let replaced = s.active->Some_0.0;
            let pressed = events[i]->Shortcut_0;
            let next = RequestId((replaced.0 + 1) as u64);
            &&& pressed == s.active->Some_0.1 ==> log[i].len() == 0 && state_before(events, i + 1) == s
            &&& pressed != s.active->Some_0.1 ==> {
                &&& log[i] == seq![
                    CoordinatorEffect::Cancel(replaced),
                    CoordinatorEffect::Record(WorkflowMilestone::RequestCancelled { request_id: replaced }),
                    CoordinatorEffect::Record(WorkflowMilestone::RequestStarted { request_id: next, action: pressed }),
                    CoordinatorEffect::Present(
                        PresentationUpdate { request_id: next, state: PresentationState::Loading { action: pressed } },
                    ),
                    CoordinatorEffect::Capture { request_id: next, action: pressed },
                ]
                &&& is_current(state_before(events, i + 1), next)
                &&& forall|j: int, k: int|
                    i < j < log.len() && 0 <= k < log[j].len() ==> !((#[trigger] log[j][k]) matches CoordinatorEffect::Present(
                        u,
                    ) && u.request_id == replaced)
            }
        }),
{
    let s = state_before(events, i);
    let replaced = s.active->Some_0.0;
    let pressed = events[i]->Shortcut_0;
    assert(step_effects(state_before(events, i), events[i], log[i]));
    lemma_state_before_step(events, i);
    lemma_run_identifiers(events, i);
    lemma_run_identifiers(events, i + 1);
    if pressed != s.active->Some_0.1 {
        let e = log[i];
        assert(e.subrange(0, 2)[0] == e[0] && e.subrange(0, 2)[1] == e[1]);
        assert(e.subrange(2, 5)[0] == e[2] && e.subrange(2, 5)[1] == e[3] && e.subrange(2, 5)[2] == e[4]);
        assert(e =~= seq![e[0], e[1], e[2], e[3], e[4]]);
        assert forall|j: int, k: int| i < j < log.len() && 0 <= k < log[j].len() implies !((#[trigger] log[j][k]) matches CoordinatorEffect::Present(
            u,
        ) && u.request_id == replaced) by {
            lemma_stale_stays_stale(events, replaced, i + 1, j);
            assert(step_effects(state_before(events, j), events[j], log[j]));
            lemma_step_facts(state_before(events, j), events[j], log[j]);
        }
    }
}

/// Whether some step before step `j` of `log` recorded the start of request `id`.
pub open spec fn started_before(log: Seq<Seq<CoordinatorEffect>>, j: int, id: RequestId) -> bool {
    exists|i: int, k: int|
        0 <= i < j && 0 <= k < log[i].len() && ((#[trigger] log[i][k]) matches CoordinatorEffect::Record(
            WorkflowMilestone::RequestStarted { request_id, .. },
        ) && request_id == id)
}

/// Whether some step before step `j` of `log` recorded that request `id` was captured.
pub open spec fn capture_recorded_before(log: Seq<Seq<CoordinatorEffect>>, j: int, id: RequestId) -> bool {
    exists|i: int, k: int|
        0 <= i < j && 0 <= k < log[i].len() && #[trigger] log[i][k] == CoordinatorEffect::Record(
            WorkflowMilestone::CaptureCompleted { request_id: id },
        )
}

/// Whether some step before step `j` of `log` asked to capture the selection of request `id`.
pub open spec fn capture_asked_before(log: Seq<Seq<CoordinatorEffect>>, j: int, id: RequestId) -> bool {
    exists|i: int, k: int|
        0 <= i < j && 0 <= k < log[i].len() && ((#[trigger] log[i][k]) matches CoordinatorEffect::Capture {
            request_id,
            ..
        } && request_id == id)
}

/// Whether some step before step `j` of `log` asked to process the selection of request `id`.
pub open spec fn processing_asked_before(log: Seq<Seq<CoordinatorEffect>>, j: int, id: RequestId) -> bool {
    exists|i: int, k: int|
        0 <= i < j && 0 <= k < log[i].len() && ((#[trigger] log[i][k]) matches CoordinatorEffect::Process(p)
            && p.request_id == id)
}

/// Whether the run reports only work the coordinator asked for: a capture comes back only
/// for a request whose capture an earlier step asked for, and a processing result only for
/// a request whose processing an earlier step asked for.
pub open spec fn reports_requested_work(events: Seq<CoordinatorEvent>, log: Seq<Seq<CoordinatorEffect>>) -> bool {
    forall|j: int|
        0 <= j < events.len() ==> {
            &&& (#[trigger] events[j]) matches CoordinatorEvent::Captured(id, _, _) ==> capture_asked_before(
                log,
                j,
                id,
            )
            &&& events[j] matches CoordinatorEvent::Processed(id) ==> processing_asked_before(log, j, id)
        }
}

/// The request in progress at step `i` of a run had its start recorded by an earlier step.
proof fn lemma_current_was_started(events: Seq<CoordinatorEvent>, log: Seq<Seq<CoordinatorEffect>>, i: int, id: RequestId)
    requires
        is_run(events, log),
        0 <= i <= events.len(),
        is_current(state_before(events, i), id),
    ensures
        started_before(log, i, id),
    decreases i,
{
    if i == 0 {
        assert(events.take(0) =~= Seq::<CoordinatorEvent>::empty());
    } else {
        lemma_state_before_step(events, i - 1);
        let s = state_before(events, i - 1);
        assert(step_effects(s, events[i - 1], log[i - 1]));
        if is_current(s, id) {
            lemma_current_was_started(events, log, i - 1, id);
            let (i0, k0) = choose|i0: int, k0: int|
                0 <= i0 < i - 1 && 0 <= k0 < log[i0].len() && ((#[trigger] log[i0][k0]) matches CoordinatorEffect::Record(
                    WorkflowMilestone::RequestStarted { request_id, .. },
                ) && request_id == id);
            assert(log[i0][k0] matches CoordinatorEffect::Record(WorkflowMilestone::RequestStarted { request_id, .. }) && request_id == id);
        } else {
            let e = log[i - 1];
            if s.active is Some {
                assert(e.subrange(2, 5)[0] == e[2]);
                assert(e[2] matches CoordinatorEffect::Record(WorkflowMilestone::RequestStarted { request_id, .. }) && request_id == id);
            } else {
                assert(e[0] matches CoordinatorEffect::Record(WorkflowMilestone::RequestStarted { request_id, .. }) && request_id == id);
            }
        }
    }
}

/// The selection a request holds at step `i` of a run had its capture recorded by an
/// earlier step.
proof fn lemma_selection_was_captured(events: Seq<CoordinatorEvent>, log: Seq<Seq<CoordinatorEffect>>, i: int, id: RequestId)
    requires
        is_run(events, log),
        0 <= i <= events.len(),
        holds_selection(state_before(events, i), id),
    ensures
        capture_recorded_before(log, i, id),
    decreases i,
{
    if i == 0 {
        assert(events.take(0) =~= Seq::<CoordinatorEvent>::empty());
    } else {
        lemma_state_before_step(events, i - 1);
        let s = state_before(events, i - 1);
        assert(step_effects(s, events[i - 1], log[i - 1]));
        if holds_selection(s, id) {
            lemma_selection_was_captured(events, log, i - 1, id);
            let (i0, k0) = choose|i0: int, k0: int|
                0 <= i0 < i - 1 && 0 <= k0 < log[i0].len() && #[trigger] log[i0][k0] == CoordinatorEffect::Record(
                    WorkflowMilestone::CaptureCompleted { request_id: id },
                );
            assert(log[i0][k0] == CoordinatorEffect::Record(WorkflowMilestone::CaptureCompleted { request_id: id }));
        } else {
            assert(log[i - 1][1] == CoordinatorEffect::Record(WorkflowMilestone::CaptureCompleted { request_id: id }));
        }
    }
}

/// The milestones of each request come in order.
///
/// A request's start is recorded just before it is shown as loading. Its capture is
/// recorded only after its start, its processing only after its capture, and its
/// cancellation only after its start. It holds of every run that reports only work the
/// coordinator asked for.
pub proof fn law_milestones_come_in_order(events: Seq<CoordinatorEvent>, log: Seq<Seq<CoordinatorEffect>>)
    requires
        is_run(events, log),
        reports_requested_work(events, log),
    ensures
        forall|i: int, k: int|
            0 <= i < log.len() && 0 <= k < log[i].len() ==> {
                &&& (#[trigger] log[i][k]) matches CoordinatorEffect::Record(
                    WorkflowMilestone::RequestStarted { request_id, action },
                ) ==> k + 1 < log[i].len() && log[i][k + 1] == CoordinatorEffect::Present(
                    PresentationUpdate { request_id, state: PresentationState::Loading { action } },
                )
                &&& log[i][k] matches CoordinatorEffect::Record(
                    WorkflowMilestone::CaptureCompleted { request_id },
                ) ==> started_before(log, i, request_id)
                &&& log[i][k] matches CoordinatorEffect::Record(
                    WorkflowMilestone::ProcessingCompleted { request_id },
                ) ==> capture_recorded_before(log, i, request_id)
                &&& log[i][k] matches CoordinatorEffect::Record(
                    WorkflowMilestone::RequestCancelled { request_id },
                ) ==> started_before(log, i, request_id)
            },
{
    assert forall|i: int, k: int| 0 <= i < log.len() && 0 <= k < log[i].len() implies {
        &&& (#[trigger] log[i][k]) matches CoordinatorEffect::Record(
            WorkflowMilestone::RequestStarted { request_id, action },
        ) ==> k + 1 < log[i].len() && log[i][k + 1] == CoordinatorEffect::Present(
            PresentationUpdate { request_id, state: PresentationState::Loading { action } },
        )
        &&& log[i][k] matches CoordinatorEffect::Record(WorkflowMilestone::CaptureCompleted { request_id })
            ==> started_before(log, i, request_id)
        &&& log[i][k] matches CoordinatorEffect::Record(WorkflowMilestone::ProcessingCompleted { request_id })
            ==> capture_recorded_before(log, i, request_id)
        &&& log[i][k] matches CoordinatorEffect::Record(WorkflowMilestone::RequestCancelled { request_id })
            ==> started_before(log, i, request_id)
    } by {
        assert(step_effects(state_before(events, i), events[i], log[i]));
        lemma_step_facts(state_before(events, i), events[i], log[i]);
        match log[i][k] {
            CoordinatorEffect::Record(WorkflowMilestone::CaptureCompleted { request_id }) => {
                assert(capture_asked_before(log, i, request_id));
                let (i0, k0) = choose|i0: int, k0: int|
                    0 <= i0 < i && 0 <= k0 < log[i0].len() && ((#[trigger] log[i0][k0]) matches CoordinatorEffect::Capture {
                        request_id: r,
                        ..
                    } && r == request_id);
                assert(step_effects(state_before(events, i0), events[i0], log[i0]));
                lemma_step_facts(state_before(events, i0), events[i0], log[i0]);
                assert(log[i0][k0 - 2] matches CoordinatorEffect::Record(
                    WorkflowMilestone::RequestStarted { request_id: r, .. },
                ) && r == request_id);
            },
            CoordinatorEffect::Record(WorkflowMilestone::ProcessingCompleted { request_id }) => {
                assert(processing_asked_before(log, i, request_id));
                let (i0, k0) = choose|i0: int, k0: int|
                    0 <= i0 < i && 0 <= k0 < log[i0].len() && ((#[trigger] log[i0][k0]) matches CoordinatorEffect::Process(p)
                        && p.request_id == request_id);
                assert(step_effects(state_before(events, i0), events[i0], log[i0]));
                lemma_step_facts(state_before(events, i0), events[i0], log[i0]);
                if events[i0] is Captured {
                    assert(log[i0][1] == CoordinatorEffect::Record(
                        WorkflowMilestone::CaptureCompleted { request_id },
                    ));
                } else {
                    lemma_selection_was_captured(events, log, i0, request_id);
                    let (i1, k1) = choose|i1: int, k1: int|
                        0 <= i1 < i0 && 0 <= k1 < log[i1].len() && #[trigger] log[i1][k1] == CoordinatorEffect::Record(
                            WorkflowMilestone::CaptureCompleted { request_id },
                        );
                    assert(log[i1][k1] == CoordinatorEffect::Record(WorkflowMilestone::CaptureCompleted { request_id }));
                }
            },
            CoordinatorEffect::Record(WorkflowMilestone::RequestCancelled { request_id }) => {
                lemma_current_was_started(events, log, i, request_id);
            },
            _ => {},
        }
    }
}

} // verus!
