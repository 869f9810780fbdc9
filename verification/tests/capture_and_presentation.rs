use verba::capture::{CaptureFailure, CapturedText, TextCapture};
use verba::presentation::{
    ErrorPresentation, LanguagePair, PresentationState, ProofreadingPresentation, RecoveryAction, TextAction,
    TranslationPresentation,
};

#[test]
fn captured_text_preserves_the_original_selection() {
    let text = "  First line\nSecond line  ";
    let captured = CapturedText::new(text).expect("non-empty text should be accepted");

    assert_eq!(captured.as_str(), text);
    assert_eq!(captured.into_string(), text);
}

#[test]
fn language_context_is_optional_and_never_replaces_the_selection() {
    let captured = CapturedText::new("bergen")
        .unwrap()
        .with_language_detection_context("Rega muss sie bergen");

    assert_eq!(captured.as_str(), "bergen");
    assert_eq!(captured.language_detection_context(), Some("Rega muss sie bergen"));
    assert_eq!(
        captured.into_parts(),
        ("bergen".to_owned(), Some("Rega muss sie bergen".to_owned()))
    );
}

#[test]
fn empty_and_whitespace_only_text_mean_no_selection() {
    for text in ["", "   ", "\n\t"] {
        assert_eq!(CapturedText::new(text), Err(CaptureFailure::NoSelection));
    }
}

#[test]
fn blank_or_repeated_context_is_not_kept() {
    let captured = CapturedText::new("bergen").unwrap().with_language_detection_context("  \n");
    assert_eq!(captured.language_detection_context(), None);
    let captured = CapturedText::new("bergen").unwrap().with_language_detection_context("bergen");
    assert_eq!(captured.language_detection_context(), None);
}

fn error(action: Option<TextAction>, title: &str) -> PresentationState {
    PresentationState::Error(ErrorPresentation {
        action,
        title: title.to_owned(),
        message: "Try again.".to_owned(),
        recovery: RecoveryAction::Retry,
        diagnostic_code: "test.failure".to_owned(),
    })
}

fn translation_state() -> PresentationState {
    PresentationState::Translation(TranslationPresentation {
        original_text: "Hallo".to_owned(),
        language_pair: LanguagePair {
            source: "German".to_owned(),
            target: "English".to_owned(),
        },
        translated_text: "Hello".to_owned(),
    })
}

fn proofreading_state() -> PresentationState {
    PresentationState::Proofreading(ProofreadingPresentation {
        original_text: "This correct.".to_owned(),
        corrected_text: "This is correct.".to_owned(),
        explanation: "Added the missing verb.".to_owned(),
    })
}

#[test]
fn idle_is_the_only_hidden_state() {
    assert!(!PresentationState::Idle.is_visible());

    let visible_states = [
        PresentationState::Loading {
            action: TextAction::Translate,
        },
        PresentationState::ProofreadingDisclosure,
        translation_state(),
        proofreading_state(),
        PresentationState::NoIssues,
        error(None, "Something went wrong"),
    ];

    assert!(visible_states.iter().all(PresentationState::is_visible));
}

#[test]
fn states_report_their_action_context() {
    let cases = [
        (PresentationState::Idle, None),
        (
            PresentationState::Loading {
                action: TextAction::Proofread,
            },
            Some(TextAction::Proofread),
        ),
        (translation_state(), Some(TextAction::Translate)),
        (proofreading_state(), Some(TextAction::Proofread)),
        (PresentationState::NoIssues, Some(TextAction::Proofread)),
        (PresentationState::ProofreadingDisclosure, Some(TextAction::Proofread)),
        (error(Some(TextAction::Translate), "Translation failed"), Some(TextAction::Translate)),
    ];

    for (state, expected_action) in cases {
        assert_eq!(state.action(), expected_action);
    }
}

#[test]
fn result_states_preserve_their_display_content() {
    let translation = translation_state();
    let proofreading = proofreading_state();

    assert_eq!(
        translation,
        PresentationState::Translation(TranslationPresentation {
            original_text: "Hallo".to_owned(),
            language_pair: LanguagePair {
                source: "German".to_owned(),
                target: "English".to_owned(),
            },
            translated_text: "Hello".to_owned(),
        })
    );
    assert_eq!(
        proofreading,
        PresentationState::Proofreading(ProofreadingPresentation {
            original_text: "This correct.".to_owned(),
            corrected_text: "This is correct.".to_owned(),
            explanation: "Added the missing verb.".to_owned(),
        })
    );
}

/// A capture source that answers with the configured results in order, then repeats the last.
struct FakeTextCapture {
    results: std::sync::Mutex<std::collections::VecDeque<Result<CapturedText, CaptureFailure>>>,
    calls: std::sync::atomic::AtomicUsize,
}

impl FakeTextCapture {
    fn with_results(results: Vec<Result<CapturedText, CaptureFailure>>) -> Self {
        assert!(!results.is_empty());
        Self {
            results: std::sync::Mutex::new(results.into_iter().collect()),
            calls: std::sync::atomic::AtomicUsize::new(0),
        }
    }

    fn call_count(&self) -> usize {
        self.calls.load(std::sync::atomic::Ordering::Relaxed)
    }
}

impl TextCapture for FakeTextCapture {
    fn capture(&self) -> Result<CapturedText, CaptureFailure> {
        self.calls.fetch_add(1, std::sync::atomic::Ordering::Relaxed);
        let mut results = self.results.lock().unwrap();
        if results.len() > 1 {
            results.pop_front().unwrap()
        } else {
            results.front().unwrap().clone()
        }
    }
}

#[test]
fn capture_fake_returns_results_in_order_then_reuses_the_last() {
    let captured = CapturedText::new("Selected text").expect("fixture should be valid");
    let fake = FakeTextCapture::with_results(vec![Err(CaptureFailure::TimedOut), Ok(captured.clone())]);

    assert_eq!(fake.capture(), Err(CaptureFailure::TimedOut));
    assert_eq!(fake.capture(), Ok(captured.clone()));
    assert_eq!(fake.capture_with_language_detection_context(), Ok(captured));
    assert_eq!(fake.call_count(), 3);
}
