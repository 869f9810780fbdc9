use verba::presentation::{
    ErrorPresentation, LanguagePair, PresentationState, ProofreadingPresentation, RecoveryAction,
    TextAction, TranslationPresentation,
};
use verba::view_model::{
    initial_presentation, presentation_action, view_model, LanguagePairViewModel,
    PresentationAction, PresentationViewModel,
};

#[test]
fn converts_every_core_presentation_variant() {
    let cases = [
        (PresentationState::Idle, PresentationViewModel::Idle),
        (
            PresentationState::Loading { action: TextAction::Translate },
            PresentationViewModel::Loading { action: PresentationAction::Translate },
        ),
        (PresentationState::ProofreadingDisclosure, PresentationViewModel::ProofreadingDisclosure),
        (
            PresentationState::Translation(TranslationPresentation {
                original_text: "Hallo".to_owned(),
                language_pair: LanguagePair {
                    source: "German".to_owned(),
                    target: "English".to_owned(),
                },
                translated_text: "Hello".to_owned(),
            }),
            PresentationViewModel::Translation {
                original_text: "Hallo".to_owned(),
                language_pair: LanguagePairViewModel {
                    source: "German".to_owned(),
                    target: "English".to_owned(),
                },
                translated_text: "Hello".to_owned(),
            },
        ),
        (
            PresentationState::Proofreading(ProofreadingPresentation {
                original_text: "This correct.".to_owned(),
                corrected_text: "This is correct.".to_owned(),
                explanation: "Added the missing verb.".to_owned(),
            }),
            PresentationViewModel::Proofreading {
                original_text: "This correct.".to_owned(),
                corrected_text: "This is correct.".to_owned(),
                explanation: "Added the missing verb.".to_owned(),
            },
        ),
        (PresentationState::NoIssues, PresentationViewModel::NoIssues),
        (
            PresentationState::Error(ErrorPresentation {
                action: Some(TextAction::Proofread),
                title: "Proofreading failed".to_owned(),
                message: "Try again.".to_owned(),
                recovery: RecoveryAction::Retry,
                diagnostic_code: "proofreading.failed".to_owned(),
            }),
            PresentationViewModel::Error {
                action: Some(PresentationAction::Proofread),
                title: "Proofreading failed".to_owned(),
                message: "Try again.".to_owned(),
            },
        ),
    ];

    for (core_state, expected_view_model) in cases {
        assert_eq!(PresentationViewModel::from(core_state.clone()), expected_view_model);
        assert_eq!(view_model(core_state), expected_view_model);
    }
}

#[test]
fn initial_presentation_is_idle() {
    assert_eq!(initial_presentation(), PresentationViewModel::Idle);
}

#[test]
fn actions_and_language_pairs_convert_both_ways() {
    assert_eq!(presentation_action(TextAction::Proofread), PresentationAction::Proofread);
    assert_eq!(TextAction::from(PresentationAction::Translate), TextAction::Translate);
    assert_eq!(PresentationAction::from(TextAction::Proofread), PresentationAction::Proofread);
    let pair = LanguagePairViewModel::from(LanguagePair {
        source: "German".to_owned(),
        target: "English".to_owned(),
    });
    assert_eq!(pair.source, "German");
    assert_eq!(pair.target, "English");
}
