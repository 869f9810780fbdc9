//! What the popup shows for each stage of a text action.
use vstd::prelude::*;

verus! {

/// The user-requested operation associated with a presentation state.
#[derive(Clone, Copy, Debug, PartialEq, Eq, Structural)]
pub enum TextAction {
    Translate,
    Proofread,
}

/// What the user can do to recover from a failure.
#[derive(Clone, Copy, Debug, PartialEq, Eq, Structural)]
pub enum RecoveryAction {
    Dismiss,
    Retry,
    GrantAccessibility,
    OpenSettings,
    ChangeLanguage,
}

/// Source and target language labels displayed with a translation.
#[derive(Clone, Debug, PartialEq, Eq)]
pub struct LanguagePair {
    pub source: String,
    pub target: String,
}

/// Content displayed after a successful translation.
#[derive(Clone, Debug, PartialEq, Eq)]
pub struct TranslationPresentation {
    pub original_text: String,
    pub language_pair: LanguagePair,
    pub translated_text: String,
}

/// Content displayed when proofreading produces a correction.
#[derive(Clone, Debug, PartialEq, Eq)]
pub struct ProofreadingPresentation {
    pub original_text: String,
    pub corrected_text: String,
    pub explanation: String,
}

/// User-facing information for a failed operation.
#[derive(Clone, Debug, PartialEq, Eq)]
pub struct ErrorPresentation {
    pub action: Option<TextAction>,
    pub title: String,
    pub message: String,
    pub recovery: RecoveryAction,
    pub diagnostic_code: String,
}

/// The complete presentation state owned by the application layer.
#[derive(Clone, Debug, PartialEq, Eq)]
pub enum PresentationState {
    Idle,
    Loading { action: TextAction },
    ProofreadingDisclosure,
    Translation(TranslationPresentation),
    Proofreading(ProofreadingPresentation),
    NoIssues,
    Error(ErrorPresentation),
}

impl PresentationState {
    /// The operation responsible for a state, when one is known.
    pub open spec fn spec_action(&self) -> Option<TextAction> {
        match self {
            PresentationState::Idle => None,
            PresentationState::Loading { action } => Some(*action),
            PresentationState::Translation(_) => Some(TextAction::Translate),
            PresentationState::ProofreadingDisclosure => Some(TextAction::Proofread),
            PresentationState::Proofreading(_) => Some(TextAction::Proofread),
            PresentationState::NoIssues => Some(TextAction::Proofread),
            PresentationState::Error(error) => error.action,
        }
    }

    /// Returns whether the popup should be visible for this state.
    pub fn is_visible(&self) -> (r: bool)
        ensures
            r == !(self is Idle),
    {
        match self {
            PresentationState::Idle => false,
            _ => true,
        }
    }

    /// Returns the operation responsible for this state, when one is known.
    pub fn action(&self) -> (r: Option<TextAction>)
        ensures
            r == self.spec_action(),
    {
        match self {
            PresentationState::Idle => None,
            PresentationState::Loading { action } => Some(*action),
            PresentationState::Translation(_) => Some(TextAction::Translate),
            PresentationState::ProofreadingDisclosure => Some(TextAction::Proofread),
            PresentationState::Proofreading(_) => Some(TextAction::Proofread),
            PresentationState::NoIssues => Some(TextAction::Proofread),
            PresentationState::Error(error) => error.action,
        }
    }
}

/// Only the idle state hides the popup, and every visible result state names its action.
pub proof fn law_idle_is_the_only_hidden_state(state: PresentationState)
    ensures
        (state is Idle) <==> state.spec_action() is None && !(state is Error),
        !(state is Idle) && !(state is Error) ==> state.spec_action() is Some,
{
}

} // verus!
