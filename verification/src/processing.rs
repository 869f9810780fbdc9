//! The processor behind the popup: it runs translation and proofreading for a captured
//! selection and turns their outcomes and failures into what the coordinator presents.
//! Translation goes through the platform's native translator.
use vstd::prelude::*;

use std::sync::Arc;

use crate::cancellation::CancellationToken;
use crate::coordinator::{ProcessingFailure, ProcessingOutcome, ProcessingRequest};
use crate::presentation::{LanguagePair, ProofreadingPresentation, TextAction, TranslationPresentation};
use crate::proofreading::{
    Proofreader, ProofreadingConsent, ProofreadingFailure, ProofreadingResult, ProofreadText, correction_failure,
    proofreading_input_failure, proofreading_text_failure,
};
use crate::text::{is_blank, owned, trimmed};
use crate::translation::{
    LanguageIdentifier, TranslateText, TranslationFailure, TranslationRequest, TranslationResult, TranslationSettings,
    Translator, TranslatorResponse, is_language_tag, normalized_language_tag, translation_input_failure,
};

verus! {

/// The processing failure a translation failure is shown as.
pub open spec fn spec_translation_processing_failure(failure: TranslationFailure) -> ProcessingFailure {
    match failure {
        TranslationFailure::Cancelled => ProcessingFailure::Cancelled,
        TranslationFailure::InvalidResult => ProcessingFailure::InvalidOutput,
        TranslationFailure::EmptyInput => ProcessingFailure::EmptyInput,
        TranslationFailure::InputTooLong { .. } => ProcessingFailure::InputTooLong,
        TranslationFailure::SameLanguage { .. } => ProcessingFailure::SameLanguage,
        TranslationFailure::Failed => ProcessingFailure::Failed,
        TranslationFailure::UnsupportedPair { .. } => ProcessingFailure::UnsupportedConfiguration,
    }
}

/// The processing failure a translation failure is shown as.
pub fn translation_processing_failure(failure: TranslationFailure) -> (r: ProcessingFailure)
    ensures
        r == spec_translation_processing_failure(failure),
{
    match failure {
        TranslationFailure::Cancelled => ProcessingFailure::Cancelled,
        TranslationFailure::InvalidResult => ProcessingFailure::InvalidOutput,
        TranslationFailure::EmptyInput => ProcessingFailure::EmptyInput,
        TranslationFailure::InputTooLong { .. } => ProcessingFailure::InputTooLong,
        TranslationFailure::SameLanguage { .. } => ProcessingFailure::SameLanguage,
        TranslationFailure::Failed => ProcessingFailure::Failed,
        TranslationFailure::UnsupportedPair { .. } => ProcessingFailure::UnsupportedConfiguration,
    }
}

/// The processing failure a proofreading failure is shown as.
pub open spec fn spec_proofreading_processing_failure(failure: ProofreadingFailure) -> ProcessingFailure {
    match failure {
        ProofreadingFailure::Cancelled => ProcessingFailure::Cancelled,
        ProofreadingFailure::InvalidResult => ProcessingFailure::InvalidOutput,
        ProofreadingFailure::ConsentRequired => ProcessingFailure::UnsupportedConfiguration,
        ProofreadingFailure::InputTooLong { .. } => ProcessingFailure::InputTooLong,
        ProofreadingFailure::EstimatedInputTooLarge { .. } => ProcessingFailure::InputTooLong,
        ProofreadingFailure::PolicyViolation(v) => ProcessingFailure::ProofreadingPolicyViolation(v),
        ProofreadingFailure::Provider(e) => ProcessingFailure::ProofreadingProvider(e),
        ProofreadingFailure::EmptyInput => ProcessingFailure::EmptyInput,
    }
}

/// The processing failure a proofreading failure is shown as.
pub fn proofreading_processing_failure(failure: ProofreadingFailure) -> (r: ProcessingFailure)
    ensures
        r == spec_proofreading_processing_failure(failure),
{
    match failure {
        ProofreadingFailure::Cancelled => ProcessingFailure::Cancelled,
        ProofreadingFailure::InvalidResult => ProcessingFailure::InvalidOutput,
        ProofreadingFailure::ConsentRequired => ProcessingFailure::UnsupportedConfiguration,
        ProofreadingFailure::InputTooLong { .. } => ProcessingFailure::InputTooLong,
        ProofreadingFailure::EstimatedInputTooLarge { .. } => ProcessingFailure::InputTooLong,
        ProofreadingFailure::PolicyViolation(v) => ProcessingFailure::ProofreadingPolicyViolation(v),
        ProofreadingFailure::Provider(e) => ProcessingFailure::ProofreadingProvider(e),
        ProofreadingFailure::EmptyInput => ProcessingFailure::EmptyInput,
    }
}

/// Whether `outcome` shows the translation `result`.
pub open spec fn shows_translation(outcome: ProcessingOutcome, result: TranslationResult) -> bool {
    outcome matches ProcessingOutcome::Translation(t) && t.original_text@ == result.spec_original()
        && t.language_pair.source@ == result.spec_source() && t.language_pair.target@ == result.spec_target()
        && t.translated_text@ == result.spec_translated()
}

/// The popup content of a translation.
pub fn translation_outcome(result: &TranslationResult) -> (r: ProcessingOutcome)
    ensures
        shows_translation(r, *result),
{
    ProcessingOutcome::Translation(
        TranslationPresentation {
            original_text: owned(result.original_text()),
            language_pair: LanguagePair {
                source: owned(result.source_language().as_str()),
                target: owned(result.target_language().as_str()),
            },
            translated_text: owned(result.translated_text()),
        },
    )
}

/// Whether `outcome` shows the proofreading `result` of `original`.
pub open spec fn shows_proofreading(outcome: ProcessingOutcome, original: Seq<char>, result: ProofreadingResult) -> bool {
    match result {
        ProofreadingResult::NoIssues => outcome is NoIssues,
        ProofreadingResult::Corrected(c) => outcome matches ProcessingOutcome::Proofreading(p) && p.original_text@
            == original && p.corrected_text@ == c.spec_corrected() && p.explanation@ == c.spec_explanation(),
    }
}

/// The popup content of a proofreading of `original_text`.
pub fn proofreading_outcome(original_text: &str, result: &ProofreadingResult) -> (r: ProcessingOutcome)
    ensures
        shows_proofreading(r, original_text@, *result),
{
    match result {
        ProofreadingResult::NoIssues => ProcessingOutcome::NoIssues,
        ProofreadingResult::Corrected(correction) => ProcessingOutcome::Proofreading(
            ProofreadingPresentation {
                original_text: owned(original_text),
                corrected_text: owned(correction.corrected_text()),
                explanation: owned(correction.explanation()),
            },
        ),
    }
}

/// Runs the text actions for captured selections.
pub struct ApplicationProcessor<T: ?Sized, P: ?Sized> {
    translation: TranslateText<T>,
    proofreading: ProofreadText<P>,
}

impl<T: Translator + ?Sized, P: Proofreader + ?Sized> ApplicationProcessor<T, P> {
    /// The translator service translations go to.
    pub closed spec fn spec_translator(&self) -> Arc<T> {
        self.translation.spec_translator()
    }

    /// The proofreader service proofreading goes to.
    pub closed spec fn spec_proofreader(&self) -> Arc<P> {
        self.proofreading.spec_proofreader()
    }

    pub fn new(translator: Arc<T>, proofreader: Arc<P>) -> (r: Self)
        ensures
            r.spec_translator() == translator,
            r.spec_proofreader() == proofreader,
    {
        ApplicationProcessor { translation: TranslateText::new(translator), proofreading: ProofreadText::new(proofreader) }
    }

    /// Translates `text` into the target language of `settings`.
    pub fn translate(&self, text: &str, settings: &TranslationSettings, cancellation: &CancellationToken) -> (r: Result<
        ProcessingOutcome,
        ProcessingFailure,
    >)
        ensures
            translation_input_failure(text@) matches Some(f) ==> (r == Err::<ProcessingOutcome, ProcessingFailure>(
                ProcessingFailure::Cancelled,
            ) || r == Err::<ProcessingOutcome, ProcessingFailure>(spec_translation_processing_failure(f))),
            r matches Ok(o) ==> (o matches ProcessingOutcome::Translation(t) && t.original_text@ == text@
                && t.language_pair.target@ == settings.spec_target() && t.language_pair.source@
                != settings.spec_target() && !is_blank(t.translated_text@)),
    {
        match self.translation.execute(text, settings, cancellation) {
            Ok(result) => Ok(translation_outcome(&result)),
            Err(failure) => Err(translation_processing_failure(failure)),
        }
    }

    /// Proofreads `text`; the consent was given before the selection reached processing.
    pub fn proofread(&self, text: &str, cancellation: &CancellationToken) -> (r: Result<
        ProcessingOutcome,
        ProcessingFailure,
    >)
        ensures
            proofreading_input_failure(text, ProofreadingConsent::Granted) matches Some(f) ==> (r == Err::<
                ProcessingOutcome,
                ProcessingFailure,
            >(ProcessingFailure::Cancelled) || r == Err::<ProcessingOutcome, ProcessingFailure>(
                spec_proofreading_processing_failure(f),
            )),
            r matches Ok(o) ==> o is NoIssues || (o matches ProcessingOutcome::Proofreading(p) && p.original_text@
                == text@ && correction_failure(text@, p.corrected_text@) is None),
    {
        match self.proofreading.execute(text, ProofreadingConsent::Granted, cancellation) {
            Ok(result) => Ok(proofreading_outcome(text, &result)),
            Err(failure) => Err(proofreading_processing_failure(failure)),
        }
    }

    /// Runs the action of a captured selection, unless it was cancelled already.
    pub fn process(
        &self,
        request: ProcessingRequest,
        settings: &TranslationSettings,
        cancellation: &CancellationToken,
    ) -> (r: Result<ProcessingOutcome, ProcessingFailure>)
        ensures
            r matches Ok(o) ==> match request.action {
                TextAction::Translate => o matches ProcessingOutcome::Translation(t) && t.original_text@
                    == request.text@.0 && t.language_pair.target@ == settings.spec_target(),
                TextAction::Proofread => o is NoIssues || (o matches ProcessingOutcome::Proofreading(p)
                    && p.original_text@ == request.text@.0),
            },
            request.action == TextAction::Translate ==> (translation_input_failure(request.text@.0) matches Some(f)
                ==> (r == Err::<ProcessingOutcome, ProcessingFailure>(ProcessingFailure::Cancelled) || r == Err::<
                ProcessingOutcome,
                ProcessingFailure,
            >(spec_translation_processing_failure(f)))),
            request.action == TextAction::Proofread ==> (proofreading_text_failure(
                request.text@.0,
                ProofreadingConsent::Granted,
            ) matches Some(f) ==> (r == Err::<ProcessingOutcome, ProcessingFailure>(ProcessingFailure::Cancelled)
                || r == Err::<ProcessingOutcome, ProcessingFailure>(spec_proofreading_processing_failure(f)))),
    {
        if cancellation.is_cancelled() {
            return Err(ProcessingFailure::Cancelled);
        }
        let action = request.action;
        let text = request.text.into_string();
        match action {
            TextAction::Translate => self.translate(text.as_str(), settings, cancellation),
            TextAction::Proofread => self.proofread(text.as_str(), cancellation),
        }
    }
}

/// A translation request for the native translator.
#[derive(Clone, Debug, PartialEq, Eq)]
pub struct NativeTranslationRequest {
    pub text: String,
    pub target_language_identifier: String,
}

/// The native translator's answer.
#[derive(Clone, Debug, PartialEq, Eq)]
pub struct NativeTranslationResponse {
    pub source_language_identifier: String,
    pub translated_text: String,
}

/// Why the native translator did not translate.
#[derive(Clone, Copy, Debug, PartialEq, Eq, Structural)]
pub enum NativeTranslationError {
    UnsupportedPair,
    UnableToIdentifyLanguage,
    Cancelled,
    Failed,
}

impl NativeTranslationError {
    /// The text of the description.
    pub open spec fn spec_message(self) -> Seq<char> {
        match self {
            NativeTranslationError::UnsupportedPair => "unsupported language pair"@,
            NativeTranslationError::UnableToIdentifyLanguage => "unable to identify source language"@,
            NativeTranslationError::Cancelled => "translation cancelled"@,
            NativeTranslationError::Failed => "translation failed"@,
        }
    }

    /// A short description of the error.
    pub fn message(&self) -> (r: &'static str)
        ensures
            r@ == self.spec_message(),
    {
        match self {
            NativeTranslationError::UnsupportedPair => "unsupported language pair",
            NativeTranslationError::UnableToIdentifyLanguage => "unable to identify source language",
            NativeTranslationError::Cancelled => "translation cancelled",
            NativeTranslationError::Failed => "translation failed",
        }
    }
}

/// The platform's translator.
pub trait NativeTranslator {
    fn translate(&self, request: NativeTranslationRequest) -> Result<NativeTranslationResponse, NativeTranslationError>;
}

/// The native request for a translation request.
pub fn native_request(request: &TranslationRequest) -> (r: NativeTranslationRequest)
    ensures
        r.text@ == request.spec_text(),
        r.target_language_identifier@ == request.spec_target(),
{
    NativeTranslationRequest {
        text: owned(request.text()),
        target_language_identifier: owned(request.target_language().as_str()),
    }
}

/// The translation failure for a native error: an unsupported pair names the target and no
/// source, a cancellation stays one, anything else failed.
pub fn native_translation_failure(error: NativeTranslationError, target: &LanguageIdentifier) -> (r: TranslationFailure)
    ensures
        error == NativeTranslationError::UnsupportedPair ==> (r matches TranslationFailure::UnsupportedPair {
            source_language,
            target_language,
        } && source_language is None && target_language@ == target@),
        error == NativeTranslationError::Cancelled ==> r == TranslationFailure::Cancelled,
        error == NativeTranslationError::UnableToIdentifyLanguage || error == NativeTranslationError::Failed ==> r
            == TranslationFailure::Failed,
{
    match error {
        NativeTranslationError::UnsupportedPair => TranslationFailure::UnsupportedPair {
            source_language: None,
            target_language: target.duplicate(),
        },
        NativeTranslationError::Cancelled => TranslationFailure::Cancelled,
        NativeTranslationError::UnableToIdentifyLanguage => TranslationFailure::Failed,
        NativeTranslationError::Failed => TranslationFailure::Failed,
    }
}

/// The translator's answer from the native one: the source language must be a valid
/// identifier.
pub fn translator_response_from_native(response: NativeTranslationResponse) -> (r: Result<
    TranslatorResponse,
    TranslationFailure,
>)
    ensures
        is_language_tag(trimmed(response.source_language_identifier@)) ==> (r matches Ok(t) && t.spec_source()
            == normalized_language_tag(response.source_language_identifier@) && t.spec_translated()
            == response.translated_text@),
        !is_language_tag(trimmed(response.source_language_identifier@)) ==> r == Err::<
            TranslatorResponse,
            TranslationFailure,
        >(TranslationFailure::InvalidResult),
{
    match LanguageIdentifier::new(response.source_language_identifier.as_str()) {
        Ok(source) => Ok(TranslatorResponse::new(source, response.translated_text.as_str())),
        Err(_) => Err(TranslationFailure::InvalidResult),
    }
}

/// The translator backed by the platform's native translator.
pub struct ForeignTranslator<N: ?Sized> {
    translator: Arc<N>,
}

impl<N: NativeTranslator + ?Sized> ForeignTranslator<N> {
    /// The native translator requests go to.
    pub closed spec fn spec_native(&self) -> Arc<N> {
        self.translator
    }

    pub fn new(translator: Arc<N>) -> (r: Self)
        ensures
            r.spec_native() == translator,
    {
        ForeignTranslator { translator }
    }
}

impl<N: NativeTranslator + ?Sized> Translator for ForeignTranslator<N> {
    /// A translation carries the normalized form of a valid source identifier; a failure is
    /// an unusable answer, a cancellation, a failure, or an unsupported pair naming the
    /// target and no source.
    open spec fn answers(
        &self,
        text: Seq<char>,
        target: Seq<char>,
        response: Result<TranslatorResponse, TranslationFailure>,
    ) -> bool {
        &&& response matches Ok(t) ==> exists|source: Seq<char>|
            is_language_tag(trimmed(source)) && t.spec_source() == #[trigger] normalized_language_tag(source)
        &&& response matches Err(e) ==> e == TranslationFailure::InvalidResult || e == TranslationFailure::Cancelled
            || e == TranslationFailure::Failed || (e matches TranslationFailure::UnsupportedPair {
            source_language,
            target_language,
        } && source_language is None && target_language@ == target)
    }

    /// Asks the native translator with the request's text and target. An answer counts
    /// only with a valid source identifier; an error becomes the translation failure
    /// [`native_translation_failure`] gives.
    fn translate(&self, request: &TranslationRequest, cancellation: &CancellationToken) -> (r: Result<
        TranslatorResponse,
        TranslationFailure,
    >)
        ensures
            r matches Ok(t) ==> exists|source: Seq<char>|
                is_language_tag(trimmed(source)) && t.spec_source() == #[trigger] normalized_language_tag(source),
            r matches Err(e) ==> e == TranslationFailure::InvalidResult || e == TranslationFailure::Cancelled || e
                == TranslationFailure::Failed || (e matches TranslationFailure::UnsupportedPair {
                source_language,
                target_language,
            } && source_language is None && target_language@ == request.spec_target()),
    {
        match self.translator.translate(native_request(request)) {
            Ok(response) => {
                let ghost source = response.source_language_identifier@;
                let r = translator_response_from_native(response);
                proof {
                    if r is Ok {
                        assert(is_language_tag(trimmed(source)) && r->Ok_0.spec_source() == normalized_language_tag(
                            source,
                        ));
                    }
                }
                r
            },
            Err(error) => Err(native_translation_failure(error, request.target_language())),
        }
    }
}

} // verus!
