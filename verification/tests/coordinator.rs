use std::sync::atomic::{AtomicBool, Ordering};

use verba::capture::{CaptureFailure, CapturedText};
use verba::coordinator::{
    CoordinatorEffect, PresentationUpdate, ProcessingFailure, ProcessingOutcome, ProcessingRequest, RequestId,
    ShortcutCoordinator, WorkflowMilestone,
};
use verba::failure_presentation::{capture_failure_presentation, processing_failure_presentation};
use verba::presentation::{
    LanguagePair, PresentationState, ProofreadingPresentation, TextAction, TranslationPresentation,
};
use verba::proofreading::{ProofreadingConsentGate, ProofreadingConsentStoreError};

/// Carries out the coordinator's effects the way the runtime does, one step at a time.
#[derive(Default)]
struct Workflow {
    coordinator: Option<ShortcutCoordinator>,
    presented: Vec<PresentationUpdate>,
    milestones: Vec<WorkflowMilestone>,
    cancelled: Vec<RequestId>,
    captures: Vec<(RequestId, TextAction)>,
    processing: Vec<ProcessingRequest>,
    processed: Vec<(RequestId, TextAction, String)>,
}

impl Workflow {
    fn new() -> Self {
        Workflow {
            coordinator: Some(ShortcutCoordinator::new()),
            ..Default::default()
        }
    }

    fn coordinator(&mut self) -> &mut ShortcutCoordinator {
        self.coordinator.as_mut().unwrap()
    }

    fn apply(&mut self, effects: Vec<CoordinatorEffect>) {
        for effect in effects {
            match effect {
                CoordinatorEffect::Present(update) => self.presented.push(update),
                CoordinatorEffect::CaptureCompleted(_) => {}
                CoordinatorEffect::Record(milestone) => self.milestones.push(milestone),
                CoordinatorEffect::Cancel(id) => self.cancelled.push(id),
                CoordinatorEffect::Capture { request_id, action } => self.captures.push((request_id, action)),
                CoordinatorEffect::Process(request) => {
                    self.processed.push((request.request_id, request.action, request.text.as_str().to_owned()));
                    self.processing.push(request);
                }
            }
        }
    }

    fn shortcut(&mut self, action: TextAction) {
        let effects = self.coordinator().on_shortcut(action);
        self.apply(effects);
    }

    fn finish_capture(&mut self, index: usize, result: Result<CapturedText, CaptureFailure>, consent: bool) {
        let (id, _) = self.captures.remove(index);
        let effects = self.coordinator().capture_finished(id, result, consent);
        self.apply(effects);
    }

    fn finish_processing(&mut self, result: Result<ProcessingOutcome, ProcessingFailure>) {
        let request = self.processing.remove(0);
        let effects = self.coordinator().processing_finished(request.request_id, request.action, result);
        self.apply(effects);
    }
}

struct TestProofreadingConsent {
    granted: AtomicBool,
    fail_grant: bool,
}

impl TestProofreadingConsent {
    fn new(granted: bool, fail_grant: bool) -> Self {
        Self {
            granted: AtomicBool::new(granted),
            fail_grant,
        }
    }
}

impl ProofreadingConsentGate for TestProofreadingConsent {
    fn is_granted(&self) -> bool {
        self.granted.load(Ordering::Acquire)
    }

    fn grant(&self) -> Result<(), ProofreadingConsentStoreError> {
        if self.fail_grant {
            return Err(ProofreadingConsentStoreError);
        }
        self.granted.store(true, Ordering::Release);
        Ok(())
    }
}

fn captured(text: &str) -> Result<CapturedText, CaptureFailure> {
    Ok(CapturedText::new(text).unwrap())
}

fn translation() -> ProcessingOutcome {
    ProcessingOutcome::Translation(TranslationPresentation {
        original_text: "Hallo".to_owned(),
        language_pair: LanguagePair {
            source: "German".to_owned(),
            target: "English".to_owned(),
        },
        translated_text: "Hello".to_owned(),
    })
}

fn proofreading() -> ProcessingOutcome {
    ProcessingOutcome::Proofreading(ProofreadingPresentation {
        original_text: "This correct.".to_owned(),
        corrected_text: "This is correct.".to_owned(),
        explanation: "Added the missing verb.".to_owned(),
    })
}

fn translation_state() -> PresentationState {
    match translation() {
        ProcessingOutcome::Translation(result) => PresentationState::Translation(result),
        _ => unreachable!(),
    }
}

#[test]
fn registered_shortcut_captures_processes_and_presents_a_result() {
    let mut workflow = Workflow::new();

    workflow.shortcut(TextAction::Translate);
    assert_eq!(workflow.captures, vec![(RequestId(1), TextAction::Translate)]);
    workflow.finish_capture(0, captured("Hallo"), true);
    assert_eq!(workflow.processed, vec![(RequestId(1), TextAction::Translate, "Hallo".to_owned())]);
    workflow.finish_processing(Ok(translation()));

    assert_eq!(
        workflow.presented,
        vec![
            PresentationUpdate {
                request_id: RequestId(1),
                state: PresentationState::Loading {
                    action: TextAction::Translate,
                },
            },
            PresentationUpdate {
                request_id: RequestId(1),
                state: translation_state(),
            },
        ]
    );
    assert_eq!(
        workflow.milestones,
        vec![
            WorkflowMilestone::RequestStarted {
                request_id: RequestId(1),
                action: TextAction::Translate,
            },
            WorkflowMilestone::CaptureCompleted {
                request_id: RequestId(1),
            },
            WorkflowMilestone::ProcessingCompleted {
                request_id: RequestId(1),
            },
        ]
    );
    assert_eq!(workflow.coordinator().active_request(), None);
}

#[test]
fn capture_failures_become_actionable_presentations_without_processing() {
    let cases = [
        (CaptureFailure::NoSelection, "No text selected"),
        (CaptureFailure::TimedOut, "Selection timed out"),
        (CaptureFailure::PermissionDenied, "Accessibility access required"),
        (CaptureFailure::SecureField, "Secure text can’t be captured"),
        (CaptureFailure::UnsupportedContent, "Text selection required"),
        (CaptureFailure::ClipboardUnavailable, "Clipboard unavailable"),
        (CaptureFailure::Cancelled, "Capture cancelled"),
    ];

    for (failure, expected_title) in cases {
        let state = capture_failure_presentation(TextAction::Proofread, failure);
        let PresentationState::Error(error) = state else {
            panic!("capture failure should produce an error presentation");
        };
        assert_eq!(error.action, Some(TextAction::Proofread));
        assert_eq!(error.title, expected_title);
        assert!(!error.message.is_empty());
    }

    let mut workflow = Workflow::new();
    workflow.shortcut(TextAction::Proofread);
    workflow.finish_capture(0, Err(CaptureFailure::PermissionDenied), true);

    assert_eq!(workflow.presented.len(), 2);
    assert!(matches!(workflow.presented[1].state, PresentationState::Error(_)));
    assert!(workflow.processed.is_empty());
}

#[test]
fn first_proofreading_waits_for_disclosure_and_resumes_after_acknowledgement() {
    let consent = TestProofreadingConsent::new(false, false);
    let mut workflow = Workflow::new();

    workflow.shortcut(TextAction::Proofread);
    workflow.finish_capture(0, captured("Text"), consent.is_granted());
    assert_eq!(
        workflow.presented,
        vec![
            PresentationUpdate {
                request_id: RequestId(1),
                state: PresentationState::Loading {
                    action: TextAction::Proofread,
                },
            },
            PresentationUpdate {
                request_id: RequestId(1),
                state: PresentationState::ProofreadingDisclosure,
            },
        ]
    );
    assert!(workflow.processed.is_empty());

    let (resolved, effects) = workflow.coordinator().resolve_proofreading_disclosure(true, &consent);
    assert_eq!(resolved, Ok(true));
    workflow.apply(effects);
    workflow.finish_processing(Ok(proofreading()));
    assert_eq!(
        workflow.presented[2].state,
        PresentationState::Loading {
            action: TextAction::Proofread,
        }
    );
    assert!(matches!(workflow.presented[3].state, PresentationState::Proofreading(_)));
    assert_eq!(workflow.processed.len(), 1);
    assert!(consent.is_granted());

    workflow.shortcut(TextAction::Proofread);
    workflow.finish_capture(0, captured("Text"), consent.is_granted());
    workflow.finish_processing(Ok(proofreading()));
    assert_eq!(workflow.presented.len(), 6);
    assert!(matches!(
        workflow.presented[4].state,
        PresentationState::Loading {
            action: TextAction::Proofread
        }
    ));
    assert!(matches!(workflow.presented[5].state, PresentationState::Proofreading(_)));
    assert_eq!(workflow.processed.len(), 2);
}

#[test]
fn cancelling_the_disclosure_drops_captured_text_without_persisting_or_processing() {
    let consent = TestProofreadingConsent::new(false, false);
    let mut workflow = Workflow::new();

    workflow.shortcut(TextAction::Proofread);
    workflow.finish_capture(0, captured("Private text"), consent.is_granted());
    assert_eq!(workflow.presented.len(), 2);
    let (resolved, effects) = workflow.coordinator().resolve_proofreading_disclosure(false, &consent);
    assert_eq!(resolved, Ok(true));
    workflow.apply(effects);

    assert_eq!(workflow.presented[2].state, PresentationState::Idle);
    assert!(workflow.processed.is_empty());
    assert!(!consent.is_granted());
    let (resolved, effects) = workflow.coordinator().resolve_proofreading_disclosure(true, &consent);
    assert_eq!(resolved, Ok(false));
    assert!(effects.is_empty());
}

#[test]
fn failed_disclosure_persistence_prevents_processing() {
    let consent = TestProofreadingConsent::new(false, true);
    let mut workflow = Workflow::new();

    workflow.shortcut(TextAction::Proofread);
    workflow.finish_capture(0, captured("Private text"), consent.is_granted());
    assert_eq!(workflow.presented.len(), 2);
    let (resolved, effects) = workflow.coordinator().resolve_proofreading_disclosure(true, &consent);
    assert_eq!(resolved, Err(ProofreadingConsentStoreError));
    workflow.apply(effects);

    assert!(matches!(workflow.presented[2].state, PresentationState::Error(_)));
    assert!(workflow.processed.is_empty());
}

#[test]
fn suppresses_a_duplicate_while_the_same_action_is_active() {
    let mut workflow = Workflow::new();

    workflow.shortcut(TextAction::Translate);
    workflow.shortcut(TextAction::Translate);

    assert_eq!(workflow.captures.len(), 1);
    assert_eq!(workflow.presented.len(), 1);

    workflow.finish_capture(0, captured("Hallo"), true);
    workflow.finish_processing(Ok(translation()));
    assert_eq!(workflow.presented.len(), 2);
    assert_eq!(workflow.presented[0].request_id, RequestId(1));
    assert_eq!(workflow.presented[1].request_id, RequestId(1));
}

#[test]
fn a_different_action_waits_for_the_old_capture_and_discards_its_result() {
    let mut workflow = Workflow::new();

    workflow.shortcut(TextAction::Translate);
    workflow.shortcut(TextAction::Proofread);

    assert_eq!(workflow.presented.len(), 2);
    assert_eq!(workflow.cancelled, vec![RequestId(1)]);

    workflow.finish_capture(0, captured("stale"), true);
    assert!(workflow.processed.is_empty());
    workflow.finish_capture(0, captured("current"), true);
    assert_eq!(workflow.processed, vec![(RequestId(2), TextAction::Proofread, "current".to_owned())]);
    workflow.finish_processing(Ok(proofreading()));

    assert_eq!(
        workflow.presented.iter().map(|update| update.request_id).collect::<Vec<_>>(),
        vec![RequestId(1), RequestId(2), RequestId(2)]
    );

    let effects = workflow.coordinator().complete(RequestId(1), translation_state());
    workflow.apply(effects);
    assert_eq!(workflow.presented.len(), 3);
}

#[test]
fn explicit_cancellation_hides_loading_and_ignores_late_work() {
    let mut workflow = Workflow::new();

    workflow.shortcut(TextAction::Translate);

    let (cancelled, effects) = workflow.coordinator().cancel_active();
    assert!(cancelled);
    workflow.apply(effects);
    let (cancelled, effects) = workflow.coordinator().cancel_active();
    assert!(!cancelled);
    assert!(effects.is_empty());
    assert_eq!(
        workflow.presented,
        vec![
            PresentationUpdate {
                request_id: RequestId(1),
                state: PresentationState::Loading {
                    action: TextAction::Translate,
                },
            },
            PresentationUpdate {
                request_id: RequestId(1),
                state: PresentationState::Idle,
            },
        ]
    );
    let effects = workflow.coordinator().complete(RequestId(1), translation_state());
    workflow.apply(effects);
    assert_eq!(workflow.presented.len(), 2);

    workflow.finish_capture(0, captured("Hallo"), true);
    assert!(workflow.processed.is_empty());
    assert_eq!(workflow.presented.len(), 2);
}

#[test]
fn rejects_processor_output_for_the_wrong_action() {
    assert_eq!(
        proofreading().into_presentation(TextAction::Translate),
        Err(ProcessingFailure::InvalidOutput)
    );
    assert_eq!(
        translation().into_presentation(TextAction::Proofread),
        Err(ProcessingFailure::InvalidOutput)
    );
}

#[test]
fn unsupported_translation_points_to_the_target_language_setting() {
    let PresentationState::Error(error) =
        processing_failure_presentation(TextAction::Translate, ProcessingFailure::UnsupportedConfiguration)
    else {
        panic!("processing failure should produce an error presentation");
    };

    assert_eq!(error.title, "Language pair unavailable");
    assert!(error.message.contains("Settings"));
}

#[test]
fn shutdown_cancels_without_presenting() {
    let mut workflow = Workflow::new();
    workflow.shortcut(TextAction::Translate);
    let effects = workflow.coordinator().shutdown();
    workflow.apply(effects);
    assert_eq!(workflow.presented.len(), 1);
    assert_eq!(workflow.cancelled, vec![RequestId(1)]);
    assert_eq!(
        workflow.milestones.last(),
        Some(&WorkflowMilestone::RequestCancelled {
            request_id: RequestId(1)
        })
    );
    assert!(workflow.coordinator().shutdown().is_empty());
}

#[test]
fn cancelled_processing_returns_the_popup_to_idle() {
    let mut workflow = Workflow::new();
    workflow.shortcut(TextAction::Translate);
    workflow.finish_capture(0, captured("Hallo"), true);
    workflow.finish_processing(Err(ProcessingFailure::Cancelled));
    assert_eq!(workflow.presented[1].state, PresentationState::Idle);
}

#[test]
fn request_identifiers_increase_from_one() {
    let mut workflow = Workflow::new();
    workflow.shortcut(TextAction::Translate);
    workflow.shortcut(TextAction::Proofread);
    workflow.shortcut(TextAction::Translate);
    assert_eq!(
        workflow.captures.iter().map(|(id, _)| id.value()).collect::<Vec<_>>(),
        vec![1, 2, 3]
    );
    assert_eq!(workflow.cancelled, vec![RequestId(1), RequestId(2)]);
}

#[test]
fn a_replaced_request_is_never_shown_again() {
    let mut coordinator = ShortcutCoordinator::new();
    coordinator.on_shortcut(TextAction::Translate);
    let replacement = coordinator.on_shortcut(TextAction::Proofread);
    assert_eq!(
        replacement,
        vec![
            CoordinatorEffect::Cancel(RequestId(1)),
            CoordinatorEffect::Record(WorkflowMilestone::RequestCancelled { request_id: RequestId(1) }),
            CoordinatorEffect::Record(WorkflowMilestone::RequestStarted {
                request_id: RequestId(2),
                action: TextAction::Proofread
            }),
            CoordinatorEffect::Present(PresentationUpdate {
                request_id: RequestId(2),
                state: PresentationState::Loading { action: TextAction::Proofread }
            }),
            CoordinatorEffect::Capture { request_id: RequestId(2), action: TextAction::Proofread },
        ]
    );

    let mut later = Vec::new();
    later.extend(coordinator.capture_finished(RequestId(1), captured("stale"), true));
    later.extend(coordinator.processing_finished(RequestId(1), TextAction::Translate, Ok(translation())));
    later.extend(coordinator.complete(RequestId(1), translation_state()));
    later.extend(coordinator.cancel_active().1);
    assert!(!later.iter().any(|effect| matches!(
        effect,
        CoordinatorEffect::Present(PresentationUpdate { request_id: RequestId(1), .. })
    )));
    assert!(later.contains(&CoordinatorEffect::Present(PresentationUpdate {
        request_id: RequestId(2),
        state: PresentationState::Idle
    })));
}

#[test]
fn milestones_of_a_request_come_in_order() {
    let mut workflow = Workflow::new();
    workflow.shortcut(TextAction::Translate);
    workflow.finish_capture(0, captured("Hallo"), true);
    workflow.finish_processing(Ok(translation()));
    workflow.shortcut(TextAction::Proofread);
    workflow.shortcut(TextAction::Translate);

    assert_eq!(
        workflow.milestones,
        vec![
            WorkflowMilestone::RequestStarted { request_id: RequestId(1), action: TextAction::Translate },
            WorkflowMilestone::CaptureCompleted { request_id: RequestId(1) },
            WorkflowMilestone::ProcessingCompleted { request_id: RequestId(1) },
            WorkflowMilestone::RequestStarted { request_id: RequestId(2), action: TextAction::Proofread },
            WorkflowMilestone::RequestCancelled { request_id: RequestId(2) },
            WorkflowMilestone::RequestStarted { request_id: RequestId(3), action: TextAction::Translate },
        ]
    );
}
