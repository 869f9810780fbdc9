//! The workflow that runs a text action from shortcut to popup.
//!
//! The coordinator is a state machine: each step takes what happened and returns the
//! effects to carry out, in order. The runtime that owns it performs those effects
//! (presenting, recording milestones, cancelling tokens, capturing and processing on
//! workers) and reports back what the workers produced.
use vstd::prelude::*;

use crate::cancellation::CancellationToken;
use crate::capture::{CaptureFailure, CapturedText};
use crate::failure_presentation::{
    capture_failure_presentation, capture_failure_text, consent_persistence_presentation,
    consent_persistence_text, is_error_state, processing_failure_presentation,
    processing_failure_text,
};
use crate::presentation::{
    PresentationState, ProofreadingPresentation, TextAction, TranslationPresentation,
};
use crate::proofreading::{ProofreaderError, ProofreadingConsentGate, ProofreadingConsentStoreError};
use crate::validation::ProofreadingPolicyViolation;

verus! {

/// Identifies one run of a text action; later requests have larger identifiers.
#[derive(Clone, Copy, Debug, PartialEq, Eq, PartialOrd, Ord, Hash, Structural)]
pub struct RequestId(pub u64);

impl RequestId {
    /// The number of the request.
    pub fn value(self) -> (r: u64)
        ensures
            r == self.0,
    {
        self.0
    }
}

/// A captured selection on its way to a processor.
#[derive(Clone, Debug, PartialEq, Eq)]
pub struct ProcessingRequest {
    pub request_id: RequestId,
    pub action: TextAction,
    pub text: CapturedText,
}

/// What a processor produced for the popup.
#[derive(Clone, Debug, PartialEq, Eq)]
pub enum ProcessingOutcome {
    Translation(TranslationPresentation),
    Proofreading(ProofreadingPresentation),
    NoIssues,
}

impl ProcessingOutcome {
    /// The presentation of an outcome, which must belong to the requested action.
    pub fn into_presentation(self, action: TextAction) -> (r: Result<PresentationState, ProcessingFailure>)
        ensures
            match (action, self) {
                (TextAction::Translate, ProcessingOutcome::Translation(t)) => r == Ok::<
                    PresentationState,
                    ProcessingFailure,
                >(PresentationState::Translation(t)),
                (TextAction::Proofread, ProcessingOutcome::Proofreading(p)) => r == Ok::<
                    PresentationState,
                    ProcessingFailure,
                >(PresentationState::Proofreading(p)),
                (TextAction::Proofread, ProcessingOutcome::NoIssues) => r == Ok::<
                    PresentationState,
                    ProcessingFailure,
                >(PresentationState::NoIssues),
                _ => r == Err::<PresentationState, ProcessingFailure>(ProcessingFailure::InvalidOutput),
            },
    {
        match (action, self) {
            (TextAction::Translate, ProcessingOutcome::Translation(result)) => Ok(
                PresentationState::Translation(result),
            ),
            (TextAction::Proofread, ProcessingOutcome::Proofreading(result)) => Ok(
                PresentationState::Proofreading(result),
            ),
            (TextAction::Proofread, ProcessingOutcome::NoIssues) => Ok(PresentationState::NoIssues),
            _ => Err(ProcessingFailure::InvalidOutput),
        }
    }
}

/// Why processing produced no result.
#[derive(Clone, Copy, Debug, PartialEq, Eq, Structural)]
pub enum ProcessingFailure {
    Failed,
    Cancelled,
    EmptyInput,
    InputTooLong,
    SameLanguage,
    InvalidOutput,
    ProofreadingPolicyViolation(ProofreadingPolicyViolation),
    UnsupportedConfiguration,
    ProofreadingProvider(ProofreaderError),
}

/// Turns a captured selection into a result for the popup.
pub trait TextActionProcessor {
    fn process(
        &self,
        request: ProcessingRequest,
        cancellation: &CancellationToken,
    ) -> Result<ProcessingOutcome, ProcessingFailure>;
}

/// A new popup state for a request.
#[derive(Clone, Debug, PartialEq, Eq)]
pub struct PresentationUpdate {
    pub request_id: RequestId,
    pub state: PresentationState,
}

/// Shows popup states.
pub trait ResultPresenter {
    fn present(&self, update: PresentationUpdate);

    fn capture_completed(&self, request_id: RequestId) {
    }
}

/// Points in a request's life that are measured.
#[derive(Clone, Copy, Debug, PartialEq, Eq, Structural)]
pub enum WorkflowMilestone {
    RequestStarted { request_id: RequestId, action: TextAction },
    CaptureCompleted { request_id: RequestId },
    ProcessingCompleted { request_id: RequestId },
    RequestCancelled { request_id: RequestId },
}

/// Receives workflow milestones.
pub trait WorkflowMetrics {
    fn record(&self, milestone: WorkflowMilestone);
}

/// Something the runtime must do for the coordinator, in the order given.
#[derive(Clone, Debug, PartialEq, Eq)]
pub enum CoordinatorEffect {
    /// Show a popup state.
    Present(PresentationUpdate),
    /// Tell the presenter that capture finished.
    CaptureCompleted(RequestId),
    /// Record a milestone.
    Record(WorkflowMilestone),
    /// Cancel the token of a request.
    Cancel(RequestId),
    /// Capture the selection for a request on a worker.
    Capture { request_id: RequestId, action: TextAction },
    /// Process a captured selection on a worker.
    Process(ProcessingRequest),
}

/// The request being worked on.
#[derive(Debug)]
struct ActiveRequest {
    id: RequestId,
    action: TextAction,
    pending_text: Option<CapturedText>,
}

/// What the coordinator knows of the request in progress: its identifier, its action,
/// and the selection waiting for the proofreading disclosure to be resolved.
pub type ActiveView = (RequestId, TextAction, Option<(Seq<char>, Option<Seq<char>>)>);

/// The state of the workflow, as the contracts see it.
pub struct CoordinatorState {
    /// The identifier the next request will get.
    pub next_id: u64,
    /// The request in progress, if any.
    pub active: Option<ActiveView>,
}

/// The state of the workflow: the next identifier and the request in progress, if any.
#[derive(Debug)]
pub struct ShortcutCoordinator {
    next_request_id: u64,
    active: Option<ActiveRequest>,
}

impl View for ShortcutCoordinator {
    type V = CoordinatorState;

    closed spec fn view(&self) -> CoordinatorState {
        CoordinatorState {
            next_id: self.next_request_id,
            active: match self.active {
                Some(a) => Some(
                    (
                        a.id,
                        a.action,
                        match a.pending_text {
                            Some(t) => Some(t@),
                            None => None,
                        },
                    ),
                ),
                None => None,
            },
        }
    }
}

/// Whether request `id` is the one in progress in `s`.
pub open spec fn is_current(s: CoordinatorState, id: RequestId) -> bool {
    s.active matches Some(a) && a.0 == id
}

/// Whether a request of `action` is already in progress in `s`.
pub open spec fn is_duplicate(s: CoordinatorState, action: TextAction) -> bool {
    s.active matches Some(a) && a.1 == action
}

/// Whether a proofreading request in `s` waits for the disclosure to be resolved.
pub open spec fn awaits_disclosure(s: CoordinatorState) -> bool {
    s.active matches Some(a) && a.1 == TextAction::Proofread && a.2 is Some
}

/// The identifier after `n`, wrapping around after the largest one.
pub open spec fn following_id(n: u64) -> u64 {
    ((n as int + 1) % 0x1_0000_0000_0000_0000) as u64
}

/// The state after a shortcut for `action`: a duplicate changes nothing, anything else
/// replaces the request in progress by a new one with the next identifier.
pub open spec fn state_after_shortcut(s: CoordinatorState, action: TextAction) -> CoordinatorState {
    if is_duplicate(s, action) {
        s
    } else {
        CoordinatorState {
            next_id: following_id(s.next_id),
            active: Some((RequestId(s.next_id), action, None)),
        }
    }
}

/// The state after request `id` reached its final popup state: it ends if it is current.
pub open spec fn state_after_finish(s: CoordinatorState, id: RequestId) -> CoordinatorState {
    if is_current(s, id) {
        CoordinatorState { next_id: s.next_id, active: None }
    } else {
        s
    }
}

/// The state after the request in progress was cancelled.
pub open spec fn state_after_cancel(s: CoordinatorState) -> CoordinatorState {
    CoordinatorState { next_id: s.next_id, active: None }
}

/// The state after the selection of request `id` was captured, with the captured text
/// when capture succeeded.
pub open spec fn state_after_capture(
    s: CoordinatorState,
    id: RequestId,
    captured: Option<(Seq<char>, Option<Seq<char>>)>,
    consent_granted: bool,
) -> CoordinatorState {
    if !is_current(s, id) {
        s
    } else {
        match captured {
            None => state_after_finish(s, id),
            Some(text) => if s.active->Some_0.1 == TextAction::Proofread && !consent_granted {
                CoordinatorState { next_id: s.next_id, active: Some((id, TextAction::Proofread, Some(text))) }
            } else {
                s
            },
        }
    }
}

/// The state after the waiting selection of request `id` was handed to processing.
pub open spec fn state_after_disclosure_accepted(s: CoordinatorState, id: RequestId) -> CoordinatorState {
    if is_current(s, id) && s.active->Some_0.2 is Some {
        CoordinatorState { next_id: s.next_id, active: Some((id, s.active->Some_0.1, None)) }
    } else {
        s
    }
}

/// The state is consistent: the request in progress has an identifier below the next one.
/// What accepting the disclosure of request `id` does when saving the acknowledgement gave
/// `grant`, from state `s` to state `t`, with result `result` and effects `effects`.
///
/// A failed save ends the request with an error, shown if it is current. A successful one
/// lifts the wait; when the request is current and holds its selection, it shows loading
/// again and the selection goes to processing, and the result says so.
pub open spec fn is_acceptance(
    s: CoordinatorState,
    t: CoordinatorState,
    id: RequestId,
    grant: Result<(), ProofreadingConsentStoreError>,
    result: Result<bool, ProofreadingConsentStoreError>,
    effects: Seq<CoordinatorEffect>,
) -> bool {
    &&& grant is Err ==> result == Err::<bool, ProofreadingConsentStoreError>(ProofreadingConsentStoreError)
        && t == state_after_finish(s, id) && (is_current(s, id) ==> effects.len() == 1 && (
    effects[0] matches CoordinatorEffect::Present(u) && u.request_id == id && is_error_state(
        u.state,
        TextAction::Proofread,
        consent_persistence_text(),
    ))) && (!is_current(s, id) ==> effects.len() == 0)
    &&& grant is Ok ==> t == state_after_disclosure_accepted(s, id)
    &&& grant is Ok && is_current(s, id) && s.active->Some_0.2 is Some ==> {
        let a = s.active->Some_0;
        &&& result == Ok::<bool, ProofreadingConsentStoreError>(true)
        &&& effects.len() == 2
        &&& effects[0] == CoordinatorEffect::Present(
            PresentationUpdate { request_id: id, state: PresentationState::Loading { action: TextAction::Proofread } },
        )
        &&& effects[1] matches CoordinatorEffect::Process(p) && p.request_id == id && p.action == a.1 && Some(
            p.text@,
        ) == a.2
    }
    &&& grant is Ok && !(is_current(s, id) && s.active->Some_0.2 is Some) ==> result == Ok::<
        bool,
        ProofreadingConsentStoreError,
    >(false) && effects.len() == 0
}

pub open spec fn well_formed(s: CoordinatorState) -> bool {
    s.active matches Some(a) ==> a.0.0 < s.next_id
}

/// The effects of cancelling request `id`: its token is cancelled, the cancellation is
/// recorded, and the popup returns to idle when asked to.
pub open spec fn cancellation_effects(effects: Seq<CoordinatorEffect>, id: RequestId, present_idle: bool) -> bool {
    &&& effects.len() == if present_idle {
        3nat
    } else {
        2nat
    }
    &&& effects[0] == CoordinatorEffect::Cancel(id)
    &&& effects[1] == CoordinatorEffect::Record(WorkflowMilestone::RequestCancelled { request_id: id })
    &&& present_idle ==> effects[2] == CoordinatorEffect::Present(
        PresentationUpdate { request_id: id, state: PresentationState::Idle },
    )
}

/// The effects that start request `id` for `action`: it is recorded, shown as loading,
/// and its selection is captured.
pub open spec fn start_effects(effects: Seq<CoordinatorEffect>, id: RequestId, action: TextAction) -> bool {
    &&& effects.len() == 3
    &&& effects[0] == CoordinatorEffect::Record(WorkflowMilestone::RequestStarted { request_id: id, action })
    &&& effects[1] == CoordinatorEffect::Present(
        PresentationUpdate { request_id: id, state: PresentationState::Loading { action } },
    )
    &&& effects[2] == CoordinatorEffect::Capture { request_id: id, action }
}

/// The popup state for the outcome of processing request of `action`.
pub open spec fn processed_state(
    state: PresentationState,
    action: TextAction,
    result: Result<ProcessingOutcome, ProcessingFailure>,
) -> bool {
    match result {
        Err(ProcessingFailure::Cancelled) => state == PresentationState::Idle,
        Err(f) => is_error_state(state, action, processing_failure_text(action, f)),
        Ok(outcome) => match (action, outcome) {
            (TextAction::Translate, ProcessingOutcome::Translation(t)) => state
                == PresentationState::Translation(t),
            (TextAction::Proofread, ProcessingOutcome::Proofreading(p)) => state
                == PresentationState::Proofreading(p),
            (TextAction::Proofread, ProcessingOutcome::NoIssues) => state == PresentationState::NoIssues,
            _ => is_error_state(state, action, processing_failure_text(action, ProcessingFailure::InvalidOutput)),
        },
    }
}

impl ShortcutCoordinator {
    /// A coordinator with no request in progress; the first request is number one.
    pub fn new() -> (r: Self)
        ensures
            r@.next_id == 1,
            r@.active is None,
    {
        ShortcutCoordinator { next_request_id: 1, active: None }
    }

    /// The request in progress and its action.
    pub fn active_request(&self) -> (r: Option<(RequestId, TextAction)>)
        ensures
            match self@.active {
                Some(a) => r == Some((a.0, a.1)),
                None => r is None,
            },
    {
        match &self.active {
            Some(a) => Some((a.id, a.action)),
            None => None,
        }
    }

    /// Whether request `id` is still the one in progress.
    pub fn is_current(&self, id: RequestId) -> (r: bool)
        ensures
            r == is_current(self@, id),
    {
        match &self.active {
            Some(a) => a.id == id,
            None => false,
        }
    }

    /// A shortcut was pressed.
    ///
    /// A press for the action already in progress is ignored. Otherwise the request in
    /// progress is cancelled, and a new request starts: it is recorded, shown as loading,
    /// and its selection is captured.
    pub fn on_shortcut(&mut self, action: TextAction) -> (r: Vec<CoordinatorEffect>)
        ensures
            final(self)@ == state_after_shortcut(old(self)@, action),
            step_effects(old(self)@, CoordinatorEvent::Shortcut(action), r@),
            is_duplicate(old(self)@, action) ==> r@.len() == 0,
            !is_duplicate(old(self)@, action) ==> {
                let id = RequestId(old(self)@.next_id);
                match old(self)@.active {
                    Some(a) => r@.len() == 5 && cancellation_effects(r@.subrange(0, 2), a.0, false)
                        && start_effects(r@.subrange(2, 5), id, action),
                    None => start_effects(r@, id, action),
                }
            },
    {
        let mut effects: Vec<CoordinatorEffect> = Vec::new();
        match &self.active {
            Some(a) => {
                if a.action == action {
                    return effects;
                }
            },
            None => {},
        }
        let previous = self.active.take();
        match previous {
            Some(a) => {
                effects.push(CoordinatorEffect::Cancel(a.id));
                effects.push(CoordinatorEffect::Record(WorkflowMilestone::RequestCancelled { request_id: a.id }));
            },
            None => {},
        }
        let id = RequestId(self.next_request_id);
        self.next_request_id = self.next_request_id.wrapping_add(1);
        self.active = Some(ActiveRequest { id, action, pending_text: None });
        effects.push(CoordinatorEffect::Record(WorkflowMilestone::RequestStarted { request_id: id, action }));
        effects.push(
            CoordinatorEffect::Present(
                PresentationUpdate { request_id: id, state: PresentationState::Loading { action } },
            ),
        );
        effects.push(CoordinatorEffect::Capture { request_id: id, action });
        proof {
            if old(self)@.active is Some {
                assert(effects@.subrange(0, 2) =~= seq![effects@[0], effects@[1]]);
                assert(effects@.subrange(2, 5) =~= seq![effects@[2], effects@[3], effects@[4]]);
            }
        }
        effects
    }

    /// Shows the final state of request `id`, unless it is no longer the one in progress.
    ///
    /// A stale request changes nothing and shows nothing.
    pub fn complete(&mut self, id: RequestId, state: PresentationState) -> (r: Vec<CoordinatorEffect>)
        ensures
            final(self)@ == state_after_finish(old(self)@, id),
            step_effects(old(self)@, CoordinatorEvent::Finished(id), r@),
            is_current(old(self)@, id) ==> r@ == seq![
                CoordinatorEffect::Present(PresentationUpdate { request_id: id, state }),
            ],
            !is_current(old(self)@, id) ==> r@.len() == 0,
    {
        let mut effects: Vec<CoordinatorEffect> = Vec::new();
        if self.is_current(id) {
            self.active = None;
            effects.push(CoordinatorEffect::Present(PresentationUpdate { request_id: id, state }));
        }
        effects
    }

    /// The selection of request `id` was captured (or not).
    ///
    /// Capture completion is always reported. A failure ends the request with its error
    /// presentation. A stale request stops here. A first proofreading waits for the
    /// disclosure to be acknowledged; otherwise the selection is processed.
    pub fn capture_finished(
        &mut self,
        id: RequestId,
        result: Result<CapturedText, CaptureFailure>,
        consent_granted: bool,
    ) -> (r: Vec<CoordinatorEffect>)
        ensures
            final(self)@ == state_after_capture(
                old(self)@,
                id,
                match result {
                    Ok(t) => Some(t@),
                    Err(_) => None,
                },
                consent_granted,
            ),
            step_effects(
                old(self)@,
                CoordinatorEvent::Captured(
                    id,
                    match result {
                        Ok(t) => Some(t@),
                        Err(_) => None,
                    },
                    consent_granted,
                ),
                r@,
            ),
            r@.len() >= 2,
            r@[0] == CoordinatorEffect::CaptureCompleted(id),
            r@[1] == CoordinatorEffect::Record(WorkflowMilestone::CaptureCompleted { request_id: id }),
            !is_current(old(self)@, id) ==> r@.len() == 2,
            is_current(old(self)@, id) ==> r@.len() == 3 && {
                let action = old(self)@.active->Some_0.1;
                match result {
                    Err(failure) => r@[2] matches CoordinatorEffect::Present(u) && u.request_id == id
                        && is_error_state(u.state, action, capture_failure_text(failure)),
                    Ok(text) => if action == TextAction::Proofread && !consent_granted {
                        r@[2] == CoordinatorEffect::Present(
                            PresentationUpdate { request_id: id, state: PresentationState::ProofreadingDisclosure },
                        )
                    } else {
                        r@[2] matches CoordinatorEffect::Process(p) && p.request_id == id
                            && p.action == action && p.text@ == text@
                    },
                }
            },
    {
        let mut effects: Vec<CoordinatorEffect> = Vec::new();
        effects.push(CoordinatorEffect::CaptureCompleted(id));
        effects.push(CoordinatorEffect::Record(WorkflowMilestone::CaptureCompleted { request_id: id }));
        if !self.is_current(id) {
            return effects;
        }
        let action = match &self.active {
            Some(a) => a.action,
            None => TextAction::Translate,
        };
        match result {
            Err(failure) => {
                let state = capture_failure_presentation(action, failure);
                self.active = None;
                effects.push(CoordinatorEffect::Present(PresentationUpdate { request_id: id, state }));
            },
            Ok(text) => {
                if action == TextAction::Proofread && !consent_granted {
                    self.active = Some(ActiveRequest { id, action, pending_text: Some(text) });
                    effects.push(
                        CoordinatorEffect::Present(
                            PresentationUpdate { request_id: id, state: PresentationState::ProofreadingDisclosure },
                        ),
                    );
                } else {
                    effects.push(CoordinatorEffect::Process(ProcessingRequest { request_id: id, action, text }));
                }
            },
        }
        effects
    }

    /// The processor finished with request `id` of `action`.
    ///
    /// Completion is always recorded. A cancelled processing returns the popup to idle; an
    /// outcome of the wrong kind or a failure shows its error; a result is shown as it is.
    /// Nothing is shown for a request that is no longer in progress.
    pub fn processing_finished(
        &mut self,
        id: RequestId,
        action: TextAction,
        result: Result<ProcessingOutcome, ProcessingFailure>,
    ) -> (r: Vec<CoordinatorEffect>)
        ensures
            final(self)@ == state_after_finish(old(self)@, id),
            step_effects(old(self)@, CoordinatorEvent::Processed(id), r@),
            r@.len() >= 1,
            r@[0] == CoordinatorEffect::Record(WorkflowMilestone::ProcessingCompleted { request_id: id }),
            !is_current(old(self)@, id) ==> r@.len() == 1,
            is_current(old(self)@, id) ==> r@.len() == 2 && (r@[1] matches CoordinatorEffect::Present(u)
                && u.request_id == id && processed_state(u.state, action, result)),
    {
        let mut effects: Vec<CoordinatorEffect> = Vec::new();
        effects.push(CoordinatorEffect::Record(WorkflowMilestone::ProcessingCompleted { request_id: id }));
        let state = match result {
            Ok(outcome) => match outcome.into_presentation(action) {
                Ok(state) => state,
                Err(failure) => processing_failure_presentation(action, failure),
            },
            Err(ProcessingFailure::Cancelled) => PresentationState::Idle,
            Err(failure) => processing_failure_presentation(action, failure),
        };
        let mut completion = self.complete(id, state);
        effects.append(&mut completion);
        effects
    }

    /// Cancels the request in progress, if any, optionally returning the popup to idle.
    fn cancel(&mut self, present_idle: bool) -> (r: (bool, Vec<CoordinatorEffect>))
        ensures
            final(self)@ == state_after_cancel(old(self)@),
            step_effects(old(self)@, CoordinatorEvent::Cancelled, r.1@),
            old(self)@.active is None ==> !r.0 && r.1@.len() == 0,
            old(self)@.active matches Some(a) ==> r.0 && cancellation_effects(r.1@, a.0, present_idle),
    {
        let mut effects: Vec<CoordinatorEffect> = Vec::new();
        let request = self.active.take();
        match request {
            None => (false, effects),
            Some(a) => {
                effects.push(CoordinatorEffect::Cancel(a.id));
                effects.push(CoordinatorEffect::Record(WorkflowMilestone::RequestCancelled { request_id: a.id }));
                if present_idle {
                    effects.push(
                        CoordinatorEffect::Present(
                            PresentationUpdate { request_id: a.id, state: PresentationState::Idle },
                        ),
                    );
                }
                (true, effects)
            },
        }
    }

    /// Cancels the request in progress and returns the popup to idle; false when idle already.
    pub fn cancel_active(&mut self) -> (r: (bool, Vec<CoordinatorEffect>))
        ensures
            final(self)@ == state_after_cancel(old(self)@),
            step_effects(old(self)@, CoordinatorEvent::Cancelled, r.1@),
            old(self)@.active is None ==> !r.0 && r.1@.len() == 0,
            old(self)@.active matches Some(a) ==> r.0 && cancellation_effects(r.1@, a.0, true),
    {
        self.cancel(true)
    }

    /// Cancels the request in progress without showing anything.
    pub fn shutdown(&mut self) -> (r: Vec<CoordinatorEffect>)
        ensures
            final(self)@ == state_after_cancel(old(self)@),
            step_effects(old(self)@, CoordinatorEvent::Cancelled, r@),
            old(self)@.active is None ==> r@.len() == 0,
            old(self)@.active matches Some(a) ==> cancellation_effects(r@, a.0, false),
    {
        let (_, effects) = self.cancel(false);
        effects
    }

    /// The proofreading request waiting for the disclosure to be resolved, if any.
    pub fn pending_disclosure(&self) -> (r: Option<RequestId>)
        ensures
            awaits_disclosure(self@) ==> r == Some(self@.active->Some_0.0),
            !awaits_disclosure(self@) ==> r is None,
    {
        match &self.active {
            Some(a) => {
                if a.action == TextAction::Proofread && a.pending_text.is_some() {
                    Some(a.id)
                } else {
                    None
                }
            },
            None => None,
        }
    }

    /// The user declined the disclosure: the waiting request is cancelled and its selection
    /// dropped. Returns whether a disclosure was waiting.
    pub fn decline_disclosure(&mut self) -> (r: (bool, Vec<CoordinatorEffect>))
        ensures
            awaits_disclosure(old(self)@) ==> r.0 && final(self)@ == state_after_cancel(old(self)@)
                && cancellation_effects(r.1@, old(self)@.active->Some_0.0, true)
                && step_effects(old(self)@, CoordinatorEvent::Cancelled, r.1@),
            !awaits_disclosure(old(self)@) ==> !r.0 && r.1@.len() == 0 && final(self)@ == old(self)@,
    {
        match self.pending_disclosure() {
            Some(_) => self.cancel(true),
            None => (false, Vec::new()),
        }
    }

    /// The user accepted the disclosure of request `id`, and saving the acknowledgement
    /// gave `grant`.
    ///
    /// When saving failed the request ends with an error and the failure is returned. When
    /// it succeeded and the request is still waiting, it shows loading again and its
    /// selection goes to processing.
    pub fn accept_disclosure(&mut self, id: RequestId, grant: Result<(), ProofreadingConsentStoreError>) -> (r: (
        Result<bool, ProofreadingConsentStoreError>,
        Vec<CoordinatorEffect>,
    ))
        ensures
            is_acceptance(old(self)@, final(self)@, id, grant, r.0, r.1@),
            step_effects(old(self)@, acceptance_event(id, grant), r.1@),
    {
        match grant {
            Err(error) => {
                let effects = self.complete(id, consent_persistence_presentation());
                return (Err(error), effects);
            },
            Ok(()) => {},
        }
        let mut effects: Vec<CoordinatorEffect> = Vec::new();
        if !self.is_current(id) {
            return (Ok(false), effects);
        }
        let taken = self.active.take();
        match taken {
            Some(a) => {
                match a.pending_text {
                    Some(text) => {
                        self.active = Some(ActiveRequest { id: a.id, action: a.action, pending_text: None });
                        effects.push(
                            CoordinatorEffect::Present(
                                PresentationUpdate {
                                    request_id: id,
                                    state: PresentationState::Loading { action: TextAction::Proofread },
                                },
                            ),
                        );
                        effects.push(
                            CoordinatorEffect::Process(ProcessingRequest { request_id: id, action: a.action, text }),
                        );
                        (Ok(true), effects)
                    },
                    None => {
                        self.active = Some(ActiveRequest { id: a.id, action: a.action, pending_text: None });
                        (Ok(false), effects)
                    },
                }
            },
            None => (Ok(false), effects),
        }
    }

    /// Resolves the proofreading disclosure: declining cancels the waiting request,
    /// accepting asks the consent gate to save the acknowledgement first.
    ///
    /// Returns whether a disclosure was waiting and has been resolved.
    pub fn resolve_proofreading_disclosure<G: ProofreadingConsentGate + ?Sized>(
        &mut self,
        accepted: bool,
        consent: &G,
    ) -> (r: (Result<bool, ProofreadingConsentStoreError>, Vec<CoordinatorEffect>))
        ensures
            !awaits_disclosure(old(self)@) ==> r.0 == Ok::<bool, ProofreadingConsentStoreError>(false)
                && r.1@.len() == 0 && final(self)@ == old(self)@,
            awaits_disclosure(old(self)@) && !accepted ==> r.0 == Ok::<bool, ProofreadingConsentStoreError>(true)
                && cancellation_effects(r.1@, old(self)@.active->Some_0.0, true)
                && final(self)@ == state_after_cancel(old(self)@)
                && step_effects(old(self)@, CoordinatorEvent::Cancelled, r.1@),
            awaits_disclosure(old(self)@) && accepted ==> exists|grant: Result<(), ProofreadingConsentStoreError>|
                #[trigger] consent.grants(grant) && is_acceptance(
                    old(self)@,
                    final(self)@,
                    old(self)@.active->Some_0.0,
                    grant,
                    r.0,
                    r.1@,
                ) && step_effects(old(self)@, acceptance_event(old(self)@.active->Some_0.0, grant), r.1@),
    {
        let id = match self.pending_disclosure() {
            Some(id) => id,
            None => return (Ok(false), Vec::new()),
        };
        if !accepted {
            let (_, effects) = self.cancel(true);
            return (Ok(true), effects);
        }
        let grant = consent.grant();
        let ghost before = self@;
        let r = self.accept_disclosure(id, grant);
        assert(consent.grants(grant) && is_acceptance(before, self@, id, grant, r.0, r.1@) && step_effects(
            before,
            acceptance_event(id, grant),
            r.1@,
        ));
        r
    }
}

/// A shortcut for the action already in progress changes nothing.
pub proof fn law_duplicate_shortcut_is_ignored(s: CoordinatorState, action: TextAction)
    requires
        is_duplicate(s, action),
    ensures
        state_after_shortcut(s, action) == s,
{
}

/// Any other shortcut makes a new request current, under the next identifier.
pub proof fn law_shortcut_starts_the_next_request(s: CoordinatorState, action: TextAction)
    requires
        !is_duplicate(s, action),
    ensures
        is_current(state_after_shortcut(s, action), RequestId(s.next_id)),
        state_after_shortcut(s, action).active->Some_0.1 == action,
{
}

/// Every step keeps the request in progress below the next identifier, as long as the
/// identifiers have not run out.
pub proof fn law_steps_keep_the_state_well_formed(
    s: CoordinatorState,
    action: TextAction,
    id: RequestId,
    captured: Option<(Seq<char>, Option<Seq<char>>)>,
    consent_granted: bool,
)
    requires
        well_formed(s),
        s.next_id < u64::MAX,
    ensures
        well_formed(state_after_shortcut(s, action)),
        well_formed(state_after_finish(s, id)),
        well_formed(state_after_cancel(s)),
        well_formed(state_after_capture(s, id, captured, consent_granted)),
        well_formed(state_after_disclosure_accepted(s, id)),
{
}

/// A request replaced by a shortcut for the other action is stale: its late capture,
/// result or completion changes nothing.
pub proof fn law_replaced_request_is_stale(
    s: CoordinatorState,
    action: TextAction,
    captured: Option<(Seq<char>, Option<Seq<char>>)>,
    consent_granted: bool,
)
    requires
        well_formed(s),
        s.active is Some,
        !is_duplicate(s, action),
    ensures
        ({
            let old_id = s.active->Some_0.0;
            let t = state_after_shortcut(s, action);
            &&& !is_current(t, old_id)
            &&& state_after_finish(t, old_id) == t
            &&& state_after_capture(t, old_id, captured, consent_granted) == t
            &&& state_after_disclosure_accepted(t, old_id) == t
        }),
{
}

/// After a request reached its final state, or after a cancellation, no late result of any
/// request changes the state.
pub proof fn law_finished_work_is_ignored(
    s: CoordinatorState,
    id: RequestId,
    late: RequestId,
    captured: Option<(Seq<char>, Option<Seq<char>>)>,
    consent_granted: bool,
)
    requires
        is_current(s, id),
    ensures
        ({
            let t = state_after_finish(s, id);
            &&& t.active is None
            &&& state_after_finish(t, late) == t
            &&& state_after_capture(t, late, captured, consent_granted) == t
        }),
        ({
            let c = state_after_cancel(s);
            &&& state_after_finish(c, late) == c
            &&& state_after_capture(c, late, captured, consent_granted) == c
        }),
{
}

/// Something that happens to the workflow, as the state sees it.
pub enum CoordinatorEvent {
    Shortcut(TextAction),
    /// A request was given its final popup state.
    Finished(RequestId),
    /// The processor finished with a request.
    Processed(RequestId),
    Cancelled,
    Captured(RequestId, Option<(Seq<char>, Option<Seq<char>>)>, bool),
    DisclosureAccepted(RequestId),
}

/// The state after an event.
pub open spec fn state_after_event(s: CoordinatorState, event: CoordinatorEvent) -> CoordinatorState {
    match event {
        CoordinatorEvent::Shortcut(action) => state_after_shortcut(s, action),
        CoordinatorEvent::Finished(id) => state_after_finish(s, id),
        CoordinatorEvent::Processed(id) => state_after_finish(s, id),
        CoordinatorEvent::Cancelled => state_after_cancel(s),
        CoordinatorEvent::Captured(id, captured, consent) => state_after_capture(s, id, captured, consent),
        CoordinatorEvent::DisclosureAccepted(id) => state_after_disclosure_accepted(s, id),
    }
}

/// Whether request `id` is in progress in `s` and holds a captured selection.
pub open spec fn holds_selection(s: CoordinatorState, id: RequestId) -> bool {
    s.active matches Some(a) && a.0 == id && a.2 is Some
}

/// The effects of a step from state `s` on `event`, as far as the order of milestones and
/// the requests shown depend on them.
///
/// A duplicate shortcut does nothing; any other cancels the request in progress and starts
/// the next one. A finished, processed, captured or accepted request shows something only
/// when it is current. Capture and processing always record their completion, and a
/// selection goes to processing only from the step that captured it or accepted its
/// disclosure.
pub open spec fn step_effects(s: CoordinatorState, event: CoordinatorEvent, effects: Seq<CoordinatorEffect>) -> bool {
    match event {
        CoordinatorEvent::Shortcut(action) => if is_duplicate(s, action) {
            effects.len() == 0
        } else {
            match s.active {
                Some(a) => effects.len() == 5 && cancellation_effects(effects.subrange(0, 2), a.0, false)
                    && start_effects(effects.subrange(2, 5), RequestId(s.next_id), action),
                None => start_effects(effects, RequestId(s.next_id), action),
            }
        },
        CoordinatorEvent::Finished(id) => if is_current(s, id) {
            effects.len() == 1 && (effects[0] matches CoordinatorEffect::Present(u) && u.request_id == id)
        } else {
            effects.len() == 0
        },
        CoordinatorEvent::Processed(id) => {
            &&& effects.len() >= 1
            &&& effects[0] == CoordinatorEffect::Record(WorkflowMilestone::ProcessingCompleted { request_id: id })
            &&& is_current(s, id) ==> effects.len() == 2 && (effects[1] matches CoordinatorEffect::Present(u)
                && u.request_id == id)
            &&& !is_current(s, id) ==> effects.len() == 1
        },
        CoordinatorEvent::Cancelled => match s.active {
            Some(a) => cancellation_effects(effects, a.0, true) || cancellation_effects(effects, a.0, false),
            None => effects.len() == 0,
        },
        CoordinatorEvent::Captured(id, _, _) => {
            &&& effects.len() >= 2
            &&& effects[0] == CoordinatorEffect::CaptureCompleted(id)
            &&& effects[1] == CoordinatorEffect::Record(WorkflowMilestone::CaptureCompleted { request_id: id })
            &&& is_current(s, id) ==> effects.len() == 3 && ((effects[2] matches CoordinatorEffect::Present(u)
                && u.request_id == id) || (effects[2] matches CoordinatorEffect::Process(p) && p.request_id == id))
            &&& !is_current(s, id) ==> effects.len() == 2
        },
        CoordinatorEvent::DisclosureAccepted(id) => if holds_selection(s, id) {
            &&& effects.len() == 2
            &&& effects[0] == CoordinatorEffect::Present(
                PresentationUpdate { request_id: id, state: PresentationState::Loading { action: TextAction::Proofread } },
            )
            &&& effects[1] matches CoordinatorEffect::Process(p) && p.request_id == id
        } else {
            effects.len() == 0
        },
    }
}

/// The event of accepting the disclosure of request `id` when saving the acknowledgement
/// gave `grant`: a failed save finishes the request.
pub open spec fn acceptance_event(id: RequestId, grant: Result<(), ProofreadingConsentStoreError>) -> CoordinatorEvent {
    match grant {
        Ok(()) => CoordinatorEvent::DisclosureAccepted(id),
        Err(_) => CoordinatorEvent::Finished(id),
    }
}

/// The state of a new coordinator.
pub open spec fn initial_state() -> CoordinatorState {
    CoordinatorState { next_id: 1, active: None }
}

/// The state a new coordinator reaches through `events`.
pub open spec fn state_after_events(events: Seq<CoordinatorEvent>) -> CoordinatorState
    decreases events.len(),
{
    if events.len() == 0 {
        initial_state()
    } else {
        state_after_event(state_after_events(events.drop_last()), events.last())
    }
}

/// Whether the last of `events` started a request: a shortcut that was no duplicate.
pub open spec fn last_starts(events: Seq<CoordinatorEvent>) -> bool {
    events.len() > 0 && (events.last() matches CoordinatorEvent::Shortcut(action) && !is_duplicate(
        state_after_events(events.drop_last()),
        action,
    ))
}

/// How many requests `events` started.
pub open spec fn started_requests(events: Seq<CoordinatorEvent>) -> nat
    decreases events.len(),
{
    if events.len() == 0 {
        0
    } else {
        started_requests(events.drop_last()) + if last_starts(events) {
            1nat
        } else {
            0nat
        }
    }
}

/// The k-th request a coordinator starts gets identifier k: after any events, the next
/// identifier is one more than the number of requests started, and a request just started
/// carries that number. It holds while the identifiers have not run out.
pub proof fn law_kth_request_gets_id_k(events: Seq<CoordinatorEvent>)
    requires
        started_requests(events) < u64::MAX,
    ensures
        state_after_events(events).next_id == started_requests(events) + 1,
        last_starts(events) ==> state_after_events(events).active == Some(
            (RequestId(started_requests(events) as u64), events.last()->Shortcut_0, None::<(Seq<char>, Option<Seq<char>>)>),
        ),
    decreases events.len(),
{
    if events.len() > 0 {
        law_kth_request_gets_id_k(events.drop_last());
    }
}

/// The state reached from `s` through `events`.
pub open spec fn state_after_events_from(s: CoordinatorState, events: Seq<CoordinatorEvent>) -> CoordinatorState
    decreases events.len(),
{
    if events.len() == 0 {
        s
    } else {
        state_after_event(state_after_events_from(s, events.drop_last()), events.last())
    }
}

/// How many shortcuts `events` holds.
pub open spec fn shortcut_count(events: Seq<CoordinatorEvent>) -> nat
    decreases events.len(),
{
    if events.len() == 0 {
        0
    } else {
        shortcut_count(events.drop_last()) + if events.last() is Shortcut {
            1nat
        } else {
            0nat
        }
    }
}

/// A request that is no longer in progress stays so, whatever happens next: every later
/// request gets a new identifier, so the stale request's late capture, result or
/// acknowledgement never changes the state. It holds while the identifiers have not run
/// out.
pub proof fn law_stale_requests_stay_stale(s: CoordinatorState, id: RequestId, events: Seq<CoordinatorEvent>)
    requires
        id.0 < s.next_id,
        !is_current(s, id),
        s.next_id + shortcut_count(events) <= u64::MAX,
    ensures
        ({
            let t = state_after_events_from(s, events);
            &&& !is_current(t, id)
            &&& id.0 < t.next_id
            &&& s.next_id <= t.next_id <= s.next_id + shortcut_count(events)
            &&& state_after_finish(t, id) == t
            &&& state_after_disclosure_accepted(t, id) == t
            &&& forall|captured: Option<(Seq<char>, Option<Seq<char>>)>, granted: bool|
                #[trigger] state_after_capture(t, id, captured, granted) == t
        }),
    decreases events.len(),
{
    if events.len() > 0 {
        law_stale_requests_stay_stale(s, id, events.drop_last());
    }
}

/// Two requests started one after the other get consecutive identifiers.
pub proof fn law_request_identifiers_increase(s: CoordinatorState, first: TextAction, second: TextAction)
    requires
        !is_duplicate(s, first),
        first != second,
        s.next_id < u64::MAX,
    ensures
        ({
            let t = state_after_shortcut(s, first);
            let u = state_after_shortcut(t, second);
            &&& t.active->Some_0.0 == RequestId(s.next_id)
            &&& u.active->Some_0.0 == RequestId((s.next_id + 1) as u64)
        }),
{
}

} // verus!
