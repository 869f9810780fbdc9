//! User-facing explanations for failed text actions.
use vstd::prelude::*;

use crate::capture::CaptureFailure;
use crate::presentation::{ErrorPresentation, PresentationState, RecoveryAction, TextAction};
use crate::proofreading::ProofreaderError;
use crate::validation::ProofreadingPolicyViolation;
use crate::coordinator::ProcessingFailure;
use crate::text::owned;

verus! {

/// The title, message, recovery and diagnostic code shown for a failure.
pub type FailureText = (Seq<char>, Seq<char>, RecoveryAction, Seq<char>);

/// A static failure text.
pub type StaticFailureText = (&'static str, &'static str, RecoveryAction, &'static str);

/// The characters of a static failure text.
pub open spec fn failure_text_view(t: StaticFailureText) -> FailureText {
    (t.0@, t.1@, t.2, t.3@)
}

/// Whether `state` is the error presentation of `text` for `action`.
pub open spec fn is_error_state(state: PresentationState, action: TextAction, text: FailureText) -> bool {
    state matches PresentationState::Error(e) && e.action == Some(action) && e.title@ == text.0
        && e.message@ == text.1 && e.recovery == text.2 && e.diagnostic_code@ == text.3
}

/// Builds the error presentation of a failure text.
fn error_state(action: TextAction, text: StaticFailureText) -> (r: PresentationState)
    ensures
        is_error_state(r, action, failure_text_view(text)),
{
    PresentationState::Error(
        ErrorPresentation {
            action: Some(action),
            title: owned(text.0),
            message: owned(text.1),
            recovery: text.2,
            diagnostic_code: owned(text.3),
        },
    )
}

/// What is shown when a selection could not be captured.
pub open spec fn capture_failure_text(failure: CaptureFailure) -> FailureText {
    match failure {
        CaptureFailure::NoSelection => ("No text selected"@, "Select some text, then invoke the action again."@, RecoveryAction::Dismiss, "capture.no-selection"@),
        CaptureFailure::TimedOut => ("Selection timed out"@, "Keep the source app active and try again."@, RecoveryAction::Retry, "capture.timed-out"@),
        CaptureFailure::PermissionDenied => ("Accessibility access required"@, "Allow Verba to capture selected text, then try again."@, RecoveryAction::GrantAccessibility, "capture.permission-denied"@),
        CaptureFailure::SecureField => ("Secure text can’t be captured"@, "Select text outside the secure field, then invoke the action again."@, RecoveryAction::Dismiss, "capture.secure-field"@),
        CaptureFailure::FieldSecurityUnavailable => ("Selection safety couldn’t be verified"@, "Keep the source app active, select text in a standard field, and try again."@, RecoveryAction::Retry, "capture.field-security-unavailable"@),
        CaptureFailure::UnsupportedContent => ("Text selection required"@, "The selected content does not contain readable text."@, RecoveryAction::Dismiss, "capture.unsupported-content"@),
        CaptureFailure::ClipboardUnavailable => ("Clipboard unavailable"@, "Verba could not safely capture the selection. Try again."@, RecoveryAction::Retry, "capture.clipboard-unavailable"@),
        CaptureFailure::Cancelled => ("Capture cancelled"@, "The clipboard changed before capture finished. Try again."@, RecoveryAction::Retry, "capture.cancelled"@),
    }
}

fn capture_failure_static(failure: CaptureFailure) -> (r: StaticFailureText)
    ensures
        failure_text_view(r) == capture_failure_text(failure),
{
    match failure {
        CaptureFailure::NoSelection => ("No text selected", "Select some text, then invoke the action again.", RecoveryAction::Dismiss, "capture.no-selection"),
        CaptureFailure::TimedOut => ("Selection timed out", "Keep the source app active and try again.", RecoveryAction::Retry, "capture.timed-out"),
        CaptureFailure::PermissionDenied => ("Accessibility access required", "Allow Verba to capture selected text, then try again.", RecoveryAction::GrantAccessibility, "capture.permission-denied"),
        CaptureFailure::SecureField => ("Secure text can’t be captured", "Select text outside the secure field, then invoke the action again.", RecoveryAction::Dismiss, "capture.secure-field"),
        CaptureFailure::FieldSecurityUnavailable => ("Selection safety couldn’t be verified", "Keep the source app active, select text in a standard field, and try again.", RecoveryAction::Retry, "capture.field-security-unavailable"),
        CaptureFailure::UnsupportedContent => ("Text selection required", "The selected content does not contain readable text.", RecoveryAction::Dismiss, "capture.unsupported-content"),
        CaptureFailure::ClipboardUnavailable => ("Clipboard unavailable", "Verba could not safely capture the selection. Try again.", RecoveryAction::Retry, "capture.clipboard-unavailable"),
        CaptureFailure::Cancelled => ("Capture cancelled", "The clipboard changed before capture finished. Try again.", RecoveryAction::Retry, "capture.cancelled"),
    }
}

/// The error presentation for a selection that could not be captured.
pub fn capture_failure_presentation(action: TextAction, failure: CaptureFailure) -> (r: PresentationState)
    ensures
        is_error_state(r, action, capture_failure_text(failure)),
{
    error_state(action, capture_failure_static(failure))
}

/// What is shown when the proofreading provider failed.
pub open spec fn provider_failure_text(error: ProofreaderError) -> FailureText {
    match error {
        ProofreaderError::MissingCredential => ("OpenAI API key required"@, "Add your API key, then invoke Proofread again."@, RecoveryAction::OpenSettings, "proofreading.provider.missing-credential"@),
        ProofreaderError::Authentication => ("OpenAI API key rejected"@, "Replace the key before invoking Proofread again."@, RecoveryAction::OpenSettings, "proofreading.provider.authentication"@),
        ProofreaderError::RateLimited => ("OpenAI rate limit reached"@, "Wait a moment, then invoke Proofread again."@, RecoveryAction::Retry, "proofreading.provider.rate-limited"@),
        ProofreaderError::QuotaExceeded => ("OpenAI quota unavailable"@, "Check your OpenAI account limits or replace the API key."@, RecoveryAction::OpenSettings, "proofreading.provider.quota-exceeded"@),
        ProofreaderError::Offline => ("No internet connection"@, "Reconnect to the internet, then invoke Proofread again."@, RecoveryAction::Retry, "proofreading.provider.offline"@),
        ProofreaderError::TimedOut => ("OpenAI request timed out"@, "Check your connection, then invoke Proofread again."@, RecoveryAction::Retry, "proofreading.provider.timed-out"@),
        ProofreaderError::Refused => ("Proofreading refused"@, "Select different text, then invoke Proofread again."@, RecoveryAction::Dismiss, "proofreading.provider.refused"@),
        ProofreaderError::Incomplete => ("Invalid proofreading response"@, "Verba couldn’t use the response. Try again."@, RecoveryAction::Retry, "proofreading.provider.incomplete"@),
        ProofreaderError::MalformedResponse => ("Invalid proofreading response"@, "Verba couldn’t use the response. Try again."@, RecoveryAction::Retry, "proofreading.provider.malformed-response"@),
        ProofreaderError::ResponseTooLarge => ("Invalid proofreading response"@, "The response was larger than Verba accepts. Try again."@, RecoveryAction::Retry, "proofreading.provider.response-too-large"@),
        ProofreaderError::ServiceUnavailable => ("OpenAI unavailable"@, "Wait a moment, then invoke Proofread again."@, RecoveryAction::Retry, "proofreading.provider.service-unavailable"@),
        ProofreaderError::Cancelled => ("Request cancelled"@, "Invoke Proofread again when you’re ready."@, RecoveryAction::Dismiss, "proofreading.provider.cancelled"@),
        ProofreaderError::Failed => ("Proofreading failed"@, "Check your connection, then try again."@, RecoveryAction::Retry, "proofreading.provider.failed"@),
    }
}

fn provider_failure_static(error: ProofreaderError) -> (r: StaticFailureText)
    ensures
        failure_text_view(r) == provider_failure_text(error),
{
    match error {
        ProofreaderError::MissingCredential => ("OpenAI API key required", "Add your API key, then invoke Proofread again.", RecoveryAction::OpenSettings, "proofreading.provider.missing-credential"),
        ProofreaderError::Authentication => ("OpenAI API key rejected", "Replace the key before invoking Proofread again.", RecoveryAction::OpenSettings, "proofreading.provider.authentication"),
        ProofreaderError::RateLimited => ("OpenAI rate limit reached", "Wait a moment, then invoke Proofread again.", RecoveryAction::Retry, "proofreading.provider.rate-limited"),
        ProofreaderError::QuotaExceeded => ("OpenAI quota unavailable", "Check your OpenAI account limits or replace the API key.", RecoveryAction::OpenSettings, "proofreading.provider.quota-exceeded"),
        ProofreaderError::Offline => ("No internet connection", "Reconnect to the internet, then invoke Proofread again.", RecoveryAction::Retry, "proofreading.provider.offline"),
        ProofreaderError::TimedOut => ("OpenAI request timed out", "Check your connection, then invoke Proofread again.", RecoveryAction::Retry, "proofreading.provider.timed-out"),
        ProofreaderError::Refused => ("Proofreading refused", "Select different text, then invoke Proofread again.", RecoveryAction::Dismiss, "proofreading.provider.refused"),
        ProofreaderError::Incomplete => ("Invalid proofreading response", "Verba couldn’t use the response. Try again.", RecoveryAction::Retry, "proofreading.provider.incomplete"),
        ProofreaderError::MalformedResponse => ("Invalid proofreading response", "Verba couldn’t use the response. Try again.", RecoveryAction::Retry, "proofreading.provider.malformed-response"),
        ProofreaderError::ResponseTooLarge => ("Invalid proofreading response", "The response was larger than Verba accepts. Try again.", RecoveryAction::Retry, "proofreading.provider.response-too-large"),
        ProofreaderError::ServiceUnavailable => ("OpenAI unavailable", "Wait a moment, then invoke Proofread again.", RecoveryAction::Retry, "proofreading.provider.service-unavailable"),
        ProofreaderError::Cancelled => ("Request cancelled", "Invoke Proofread again when you’re ready.", RecoveryAction::Dismiss, "proofreading.provider.cancelled"),
        ProofreaderError::Failed => ("Proofreading failed", "Check your connection, then try again.", RecoveryAction::Retry, "proofreading.provider.failed"),
    }
}

/// What is shown when a correction broke the layout policy.
pub open spec fn policy_violation_text(violation: ProofreadingPolicyViolation) -> FailureText {
    match violation {
        ProofreadingPolicyViolation::OuterWhitespace => ("Proofreading result rejected"@, "The result changed protected text formatting. Try proofreading again."@, RecoveryAction::Retry, "proofreading.policy-violation.outer-whitespace"@),
        ProofreadingPolicyViolation::LineStructure => ("Proofreading result rejected"@, "The result changed protected text formatting. Try proofreading again."@, RecoveryAction::Retry, "proofreading.policy-violation.line-structure"@),
        ProofreadingPolicyViolation::FormattingMarkers => ("Proofreading result rejected"@, "The result changed protected text formatting. Try proofreading again."@, RecoveryAction::Retry, "proofreading.policy-violation.formatting-markers"@),
    }
}

fn policy_violation_static(violation: ProofreadingPolicyViolation) -> (r: StaticFailureText)
    ensures
        failure_text_view(r) == policy_violation_text(violation),
{
    match violation {
        ProofreadingPolicyViolation::OuterWhitespace => ("Proofreading result rejected", "The result changed protected text formatting. Try proofreading again.", RecoveryAction::Retry, "proofreading.policy-violation.outer-whitespace"),
        ProofreadingPolicyViolation::LineStructure => ("Proofreading result rejected", "The result changed protected text formatting. Try proofreading again.", RecoveryAction::Retry, "proofreading.policy-violation.line-structure"),
        ProofreadingPolicyViolation::FormattingMarkers => ("Proofreading result rejected", "The result changed protected text formatting. Try proofreading again.", RecoveryAction::Retry, "proofreading.policy-violation.formatting-markers"),
    }
}

/// What is shown when processing a captured selection failed.
pub open spec fn processing_failure_text(action: TextAction, failure: ProcessingFailure) -> FailureText {
    match (action, failure) {
        (_, ProcessingFailure::Cancelled) => ("Request cancelled"@, "Invoke the action again when you’re ready."@, RecoveryAction::Dismiss, "processing.cancelled"@),
        (TextAction::Translate, ProcessingFailure::InvalidOutput) => ("Translation unavailable"@, "Verba couldn’t use the translation result. Try again."@, RecoveryAction::Retry, "translation.invalid-output"@),
        (TextAction::Proofread, ProcessingFailure::InvalidOutput) => ("Proofreading unavailable"@, "Verba couldn’t use the proofreading result. Try again."@, RecoveryAction::Retry, "proofreading.invalid-output"@),
        (TextAction::Proofread, ProcessingFailure::ProofreadingPolicyViolation(violation)) => policy_violation_text(violation),
        (TextAction::Translate, ProcessingFailure::ProofreadingPolicyViolation(_)) => ("Translation failed"@, "Try translating the selection again."@, RecoveryAction::Retry, "translation.unexpected-failure-kind"@),
        (TextAction::Translate, ProcessingFailure::UnsupportedConfiguration) => ("Language pair unavailable"@, "Choose a different target language in Settings, then try again."@, RecoveryAction::ChangeLanguage, "translation.unsupported-configuration"@),
        (TextAction::Proofread, ProcessingFailure::UnsupportedConfiguration) => ("Proofreading setup required"@, "Review the proofreading settings, then try again."@, RecoveryAction::OpenSettings, "proofreading.unsupported-configuration"@),
        (_, ProcessingFailure::EmptyInput) => ("No text to process"@, "Select some text, then invoke the action again."@, RecoveryAction::Dismiss, "processing.empty-input"@),
        (TextAction::Translate, ProcessingFailure::InputTooLong) => ("Selection too long"@, "Select at most 10,000 characters and invoke Translate again."@, RecoveryAction::Dismiss, "translation.input-too-long"@),
        (TextAction::Proofread, ProcessingFailure::InputTooLong) => ("Selection too long"@, "Select at most 10,000 characters and invoke Proofread again."@, RecoveryAction::Dismiss, "proofreading.input-too-long"@),
        (TextAction::Translate, ProcessingFailure::SameLanguage) => ("Text is already in the target language"@, "Choose a different target language or select different text."@, RecoveryAction::ChangeLanguage, "translation.same-language"@),
        (TextAction::Proofread, ProcessingFailure::SameLanguage) => ("Proofreading failed"@, "Try proofreading the selection again."@, RecoveryAction::Retry, "proofreading.unexpected-same-language"@),
        (TextAction::Proofread, ProcessingFailure::ProofreadingProvider(error)) => provider_failure_text(error),
        (TextAction::Translate, ProcessingFailure::ProofreadingProvider(_)) => ("Translation failed"@, "Try translating the selection again."@, RecoveryAction::Retry, "translation.unexpected-failure-kind"@),
        (TextAction::Translate, ProcessingFailure::Failed) => ("Translation failed"@, "Try translating the selection again."@, RecoveryAction::Retry, "translation.failed"@),
        (TextAction::Proofread, ProcessingFailure::Failed) => ("Proofreading failed"@, "Try proofreading the selection again."@, RecoveryAction::Retry, "proofreading.failed"@),
    }
}

fn processing_failure_static(action: TextAction, failure: ProcessingFailure) -> (r: StaticFailureText)
    ensures
        failure_text_view(r) == processing_failure_text(action, failure),
{
    match (action, failure) {
        (_, ProcessingFailure::Cancelled) => ("Request cancelled", "Invoke the action again when you’re ready.", RecoveryAction::Dismiss, "processing.cancelled"),
        (TextAction::Translate, ProcessingFailure::InvalidOutput) => ("Translation unavailable", "Verba couldn’t use the translation result. Try again.", RecoveryAction::Retry, "translation.invalid-output"),
        (TextAction::Proofread, ProcessingFailure::InvalidOutput) => ("Proofreading unavailable", "Verba couldn’t use the proofreading result. Try again.", RecoveryAction::Retry, "proofreading.invalid-output"),
        (TextAction::Proofread, ProcessingFailure::ProofreadingPolicyViolation(violation)) => policy_violation_static(violation),
        (TextAction::Translate, ProcessingFailure::ProofreadingPolicyViolation(_)) => ("Translation failed", "Try translating the selection again.", RecoveryAction::Retry, "translation.unexpected-failure-kind"),
        (TextAction::Translate, ProcessingFailure::UnsupportedConfiguration) => ("Language pair unavailable", "Choose a different target language in Settings, then try again.", RecoveryAction::ChangeLanguage, "translation.unsupported-configuration"),
        (TextAction::Proofread, ProcessingFailure::UnsupportedConfiguration) => ("Proofreading setup required", "Review the proofreading settings, then try again.", RecoveryAction::OpenSettings, "proofreading.unsupported-configuration"),
        (_, ProcessingFailure::EmptyInput) => ("No text to process", "Select some text, then invoke the action again.", RecoveryAction::Dismiss, "processing.empty-input"),
        (TextAction::Translate, ProcessingFailure::InputTooLong) => ("Selection too long", "Select at most 10,000 characters and invoke Translate again.", RecoveryAction::Dismiss, "translation.input-too-long"),
        (TextAction::Proofread, ProcessingFailure::InputTooLong) => ("Selection too long", "Select at most 10,000 characters and invoke Proofread again.", RecoveryAction::Dismiss, "proofreading.input-too-long"),
        (TextAction::Translate, ProcessingFailure::SameLanguage) => ("Text is already in the target language", "Choose a different target language or select different text.", RecoveryAction::ChangeLanguage, "translation.same-language"),
        (TextAction::Proofread, ProcessingFailure::SameLanguage) => ("Proofreading failed", "Try proofreading the selection again.", RecoveryAction::Retry, "proofreading.unexpected-same-language"),
        (TextAction::Proofread, ProcessingFailure::ProofreadingProvider(error)) => provider_failure_static(error),
        (TextAction::Translate, ProcessingFailure::ProofreadingProvider(_)) => ("Translation failed", "Try translating the selection again.", RecoveryAction::Retry, "translation.unexpected-failure-kind"),
        (TextAction::Translate, ProcessingFailure::Failed) => ("Translation failed", "Try translating the selection again.", RecoveryAction::Retry, "translation.failed"),
        (TextAction::Proofread, ProcessingFailure::Failed) => ("Proofreading failed", "Try proofreading the selection again.", RecoveryAction::Retry, "proofreading.failed"),
    }
}

/// The error presentation for a failed processing step.
pub fn processing_failure_presentation(action: TextAction, failure: ProcessingFailure) -> (r:
    PresentationState)
    ensures
        is_error_state(r, action, processing_failure_text(action, failure)),
{
    error_state(action, processing_failure_static(action, failure))
}

/// What is shown when the proofreading acknowledgement could not be saved.
pub open spec fn consent_persistence_text() -> FailureText {
    ("Privacy setting unavailable"@, "Verba couldn’t save your acknowledgement. Try again."@, RecoveryAction::Retry, "proofreading.consent-persistence"@)
}

/// The error presentation for an acknowledgement that could not be saved.
pub fn consent_persistence_presentation() -> (r: PresentationState)
    ensures
        is_error_state(r, TextAction::Proofread, consent_persistence_text()),
{
    error_state(
        TextAction::Proofread,
        ("Privacy setting unavailable", "Verba couldn’t save your acknowledgement. Try again.", RecoveryAction::Retry, "proofreading.consent-persistence"),
    )
}

} // verus!
