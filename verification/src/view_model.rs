//! The presentation as the native popup receives it.
use vstd::prelude::*;

use crate::presentation::{LanguagePair, PresentationState, TextAction};

verus! {

/// The operation associated with a popup state.
#[derive(Clone, Copy, Debug, PartialEq, Eq, Structural)]
pub enum PresentationAction {
    Translate,
    Proofread,
}

/// A source and target language pair for the popup.
#[derive(Clone, Debug, PartialEq, Eq)]
pub struct LanguagePairViewModel {
    pub source: String,
    pub target: String,
}

/// A snapshot of the popup state.
#[derive(Clone, Debug, PartialEq, Eq)]
pub enum PresentationViewModel {
    Idle,
    Loading { action: PresentationAction },
    ProofreadingDisclosure,
    Translation { original_text: String, language_pair: LanguagePairViewModel, translated_text: String },
    Proofreading { original_text: String, corrected_text: String, explanation: String },
    NoIssues,
    Error { action: Option<PresentationAction>, title: String, message: String },
}

/// The popup's action for a text action.
pub open spec fn spec_presentation_action(action: TextAction) -> PresentationAction {
    match action {
        TextAction::Translate => PresentationAction::Translate,
        TextAction::Proofread => PresentationAction::Proofread,
    }
}

/// The text action of a popup action.
pub open spec fn spec_text_action(action: PresentationAction) -> TextAction {
    match action {
        PresentationAction::Translate => TextAction::Translate,
        PresentationAction::Proofread => TextAction::Proofread,
    }
}

/// The popup's view of a state: every field carried over as it is; an error keeps its
/// action, title and message.
pub open spec fn spec_view_model(state: PresentationState) -> PresentationViewModel {
    match state {
        PresentationState::Idle => PresentationViewModel::Idle,
        PresentationState::Loading { action } => PresentationViewModel::Loading {
            action: spec_presentation_action(action),
        },
        PresentationState::ProofreadingDisclosure => PresentationViewModel::ProofreadingDisclosure,
        PresentationState::Translation(t) => PresentationViewModel::Translation {
            original_text: t.original_text,
            language_pair: LanguagePairViewModel { source: t.language_pair.source, target: t.language_pair.target },
            translated_text: t.translated_text,
        },
        PresentationState::Proofreading(p) => PresentationViewModel::Proofreading {
            original_text: p.original_text,
            corrected_text: p.corrected_text,
            explanation: p.explanation,
        },
        PresentationState::NoIssues => PresentationViewModel::NoIssues,
        PresentationState::Error(e) => PresentationViewModel::Error {
            action: match e.action {
                Some(a) => Some(spec_presentation_action(a)),
                None => None,
            },
            title: e.title,
            message: e.message,
        },
    }
}

impl From<TextAction> for PresentationAction {
    fn from(action: TextAction) -> (r: Self) {
        match action {
            TextAction::Translate => PresentationAction::Translate,
            TextAction::Proofread => PresentationAction::Proofread,
        }
    }
}

impl vstd::std_specs::convert::FromSpecImpl<TextAction> for PresentationAction {
    open spec fn obeys_from_spec() -> bool {
        true
    }

    open spec fn from_spec(v: TextAction) -> Self {
        spec_presentation_action(v)
    }
}

impl From<PresentationAction> for TextAction {
    fn from(action: PresentationAction) -> (r: Self) {
        match action {
            PresentationAction::Translate => TextAction::Translate,
            PresentationAction::Proofread => TextAction::Proofread,
        }
    }
}

impl vstd::std_specs::convert::FromSpecImpl<PresentationAction> for TextAction {
    open spec fn obeys_from_spec() -> bool {
        true
    }

    open spec fn from_spec(v: PresentationAction) -> Self {
        spec_text_action(v)
    }
}

impl From<LanguagePair> for LanguagePairViewModel {
    fn from(pair: LanguagePair) -> (r: Self) {
        LanguagePairViewModel { source: pair.source, target: pair.target }
    }
}

impl vstd::std_specs::convert::FromSpecImpl<LanguagePair> for LanguagePairViewModel {
    open spec fn obeys_from_spec() -> bool {
        true
    }

    open spec fn from_spec(v: LanguagePair) -> Self {
        LanguagePairViewModel { source: v.source, target: v.target }
    }
}

/// The popup's action for a text action.
pub fn presentation_action(action: TextAction) -> (r: PresentationAction)
    ensures
        r == spec_presentation_action(action),
{
    match action {
        TextAction::Translate => PresentationAction::Translate,
        TextAction::Proofread => PresentationAction::Proofread,
    }
}

/// The popup's view of a state.
pub fn view_model(state: PresentationState) -> (r: PresentationViewModel)
    ensures
        r == spec_view_model(state),
{
    match state {
        PresentationState::Idle => PresentationViewModel::Idle,
        PresentationState::Loading { action } => PresentationViewModel::Loading { action: presentation_action(action) },
        PresentationState::ProofreadingDisclosure => PresentationViewModel::ProofreadingDisclosure,
        PresentationState::Translation(t) => PresentationViewModel::Translation {
            original_text: t.original_text,
            language_pair: LanguagePairViewModel { source: t.language_pair.source, target: t.language_pair.target },
            translated_text: t.translated_text,
        },
        PresentationState::Proofreading(p) => PresentationViewModel::Proofreading {
            original_text: p.original_text,
            corrected_text: p.corrected_text,
            explanation: p.explanation,
        },
        PresentationState::NoIssues => PresentationViewModel::NoIssues,
        PresentationState::Error(e) => PresentationViewModel::Error {
            action: match e.action {
                Some(a) => Some(presentation_action(a)),
                None => None,
            },
            title: e.title,
            message: e.message,
        },
    }
}

impl From<PresentationState> for PresentationViewModel {
    fn from(state: PresentationState) -> (r: Self) {
        view_model(state)
    }
}

impl vstd::std_specs::convert::FromSpecImpl<PresentationState> for PresentationViewModel {
    open spec fn obeys_from_spec() -> bool {
        true
    }

    open spec fn from_spec(v: PresentationState) -> Self {
        spec_view_model(v)
    }
}

/// The popup state when the application starts.
pub fn initial_presentation() -> (r: PresentationViewModel)
    ensures
        r == PresentationViewModel::Idle,
{
    view_model(PresentationState::Idle)
}

/// The popup is hidden only when the state is idle, and its action is the state's.
pub proof fn law_view_model_keeps_visibility_and_action(state: PresentationState)
    ensures
        (spec_view_model(state) is Idle) <==> (state is Idle),
        !(state is Error) ==> match state.spec_action() {
            Some(a) => match spec_view_model(state) {
                PresentationViewModel::Loading { action } => action == spec_presentation_action(a),
                _ => true,
            },
            None => spec_view_model(state) is Idle,
        },
        state matches PresentationState::Error(e) ==> spec_view_model(state) matches PresentationViewModel::Error {
            action,
            ..
        } && action == match e.action {
            Some(a) => Some(spec_presentation_action(a)),
            None => None,
        },
{
}

/// The text action of a popup action is the one it came from.
pub proof fn law_actions_convert_both_ways(action: TextAction)
    ensures
        spec_text_action(spec_presentation_action(action)) == action,
{
}

} // verus!
