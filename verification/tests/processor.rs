use std::sync::{Arc, Mutex};

use verba::cancellation::CancellationToken;
use verba::capture::CapturedText;
use verba::coordinator::{ProcessingFailure, ProcessingOutcome, ProcessingRequest, RequestId};
use verba::preferences::{TranslationPreferences, TranslationSettingsStore, TranslationSettingsStoreError};
use verba::presentation::{LanguagePair, ProofreadingPresentation, TextAction, TranslationPresentation};
use verba::processing::{
    native_request, native_translation_failure, proofreading_processing_failure,
    translation_processing_failure, translator_response_from_native, ApplicationProcessor,
    ForeignTranslator, NativeTranslationError, NativeTranslationRequest, NativeTranslationResponse,
    NativeTranslator,
};
use verba::proofreading::{
    Proofreader, ProofreaderError, ProofreaderResponse, ProofreadingCorrection, ProofreadingFailure,
    ProofreadingRequest,
};
use verba::translation::{
    LanguageIdentifier, TranslationFailure, TranslationRequest, TranslationSettings, Translator,
};
use verba::validation::ProofreadingPolicyViolation;

struct FakeNativeTranslator {
    requests: Mutex<Vec<NativeTranslationRequest>>,
    result: Result<NativeTranslationResponse, NativeTranslationError>,
}

impl FakeNativeTranslator {
    fn answering(source: &str, text: &str) -> Self {
        Self {
            requests: Mutex::new(Vec::new()),
            result: Ok(NativeTranslationResponse {
                source_language_identifier: source.to_owned(),
                translated_text: text.to_owned(),
            }),
        }
    }

    fn failing(error: NativeTranslationError) -> Self {
        Self { requests: Mutex::new(Vec::new()), result: Err(error) }
    }
}

impl NativeTranslator for FakeNativeTranslator {
    fn translate(
        &self,
        request: NativeTranslationRequest,
    ) -> Result<NativeTranslationResponse, NativeTranslationError> {
        self.requests.lock().unwrap().push(request);
        self.result.clone()
    }
}

struct MemorySettingsStore;

impl TranslationSettingsStore for MemorySettingsStore {
    fn load_target_language(
        &self,
    ) -> Result<Option<LanguageIdentifier>, TranslationSettingsStoreError> {
        Ok(None)
    }

    fn save_target_language(
        &self,
        _target_language: &LanguageIdentifier,
    ) -> Result<(), TranslationSettingsStoreError> {
        Ok(())
    }
}

struct FakeProofreader {
    result: Mutex<Option<Result<ProofreaderResponse, ProofreaderError>>>,
    requests: Mutex<Vec<String>>,
}

impl FakeProofreader {
    fn new(result: Result<ProofreaderResponse, ProofreaderError>) -> Self {
        Self { result: Mutex::new(Some(result)), requests: Mutex::new(Vec::new()) }
    }
}

impl Proofreader for FakeProofreader {
    fn proofread(
        &self,
        request: &ProofreadingRequest,
        _cancellation: &CancellationToken,
    ) -> Result<ProofreaderResponse, ProofreaderError> {
        self.requests.lock().unwrap().push(request.text().to_owned());
        self.result.lock().unwrap().take().expect("proofreader should be called once")
    }
}

type Processor = ApplicationProcessor<ForeignTranslator<FakeNativeTranslator>, FakeProofreader>;

fn language(identifier: &str) -> LanguageIdentifier {
    LanguageIdentifier::new(identifier).unwrap()
}

fn test_processor(proofreader: Arc<FakeProofreader>) -> Processor {
    ApplicationProcessor::new(
        Arc::new(ForeignTranslator::new(Arc::new(FakeNativeTranslator::answering("de", "Hello")))),
        proofreader,
    )
}

#[test]
fn translates_with_the_native_adapter() {
    let translator = Arc::new(FakeNativeTranslator::answering("de", "Hello"));
    let mut preferences = TranslationPreferences::load(Arc::new(MemorySettingsStore)).unwrap();
    let processor = ApplicationProcessor::new(
        Arc::new(ForeignTranslator::new(translator.clone())),
        Arc::new(FakeProofreader::new(Ok(ProofreaderResponse::NoIssues))),
    );

    let first_outcome = processor
        .translate("Hallo", &preferences.settings(), &CancellationToken::default())
        .unwrap();

    preferences.set_supported_targets(vec![language("en"), language("fr")]).unwrap();
    preferences.set_target_language(language("fr")).unwrap();
    let second_outcome = processor
        .translate("Hallo", &preferences.settings(), &CancellationToken::default())
        .unwrap();

    assert_eq!(
        first_outcome,
        ProcessingOutcome::Translation(TranslationPresentation {
            original_text: "Hallo".to_owned(),
            language_pair: LanguagePair { source: "de".to_owned(), target: "en".to_owned() },
            translated_text: "Hello".to_owned(),
        })
    );
    assert!(matches!(
        second_outcome,
        ProcessingOutcome::Translation(TranslationPresentation {
            language_pair: LanguagePair { ref target, .. },
            ..
        }) if target == "fr"
    ));
    assert_eq!(
        translator.requests.lock().unwrap().as_slice(),
        &[
            NativeTranslationRequest {
                text: "Hallo".to_owned(),
                target_language_identifier: "en".to_owned(),
            },
            NativeTranslationRequest {
                text: "Hallo".to_owned(),
                target_language_identifier: "fr".to_owned(),
            },
        ]
    );
}

#[test]
fn proofreading_renders_corrected_and_no_issues_outcomes() {
    let correction = ProofreadingCorrection::new("This is correct.", "Fixed subject-verb agreement.");
    let proofreader =
        Arc::new(FakeProofreader::new(Ok(ProofreaderResponse::Corrected(correction))));
    let processor = test_processor(proofreader.clone());

    assert_eq!(
        processor.proofread("This are correct.", &CancellationToken::default()),
        Ok(ProcessingOutcome::Proofreading(ProofreadingPresentation {
            original_text: "This are correct.".to_owned(),
            corrected_text: "This is correct.".to_owned(),
            explanation: "Fixed subject-verb agreement.".to_owned(),
        }))
    );
    assert_eq!(proofreader.requests.lock().unwrap().as_slice(), ["This are correct."]);

    let processor =
        test_processor(Arc::new(FakeProofreader::new(Ok(ProofreaderResponse::NoIssues))));
    assert_eq!(
        processor.proofread("Looks good.", &CancellationToken::default()),
        Ok(ProcessingOutcome::NoIssues)
    );
}

#[test]
fn proofreading_preserves_typed_provider_failures_for_user_recovery() {
    for error in [
        ProofreaderError::MissingCredential,
        ProofreaderError::Authentication,
        ProofreaderError::RateLimited,
        ProofreaderError::QuotaExceeded,
        ProofreaderError::Offline,
        ProofreaderError::TimedOut,
        ProofreaderError::Refused,
        ProofreaderError::Incomplete,
        ProofreaderError::MalformedResponse,
        ProofreaderError::ServiceUnavailable,
        ProofreaderError::Failed,
    ] {
        let processor = test_processor(Arc::new(FakeProofreader::new(Err(error))));
        assert_eq!(
            processor.proofread("Text", &CancellationToken::default()),
            Err(ProcessingFailure::ProofreadingProvider(error))
        );
    }
}

#[test]
fn unsupported_pairs_point_to_configuration() {
    assert_eq!(
        translation_processing_failure(TranslationFailure::UnsupportedPair {
            source_language: Some(language("de")),
            target_language: language("ga"),
        }),
        ProcessingFailure::UnsupportedConfiguration
    );
}

#[test]
fn preserves_recoverable_translation_failure_categories() {
    let cases = [
        (TranslationFailure::EmptyInput, ProcessingFailure::EmptyInput),
        (
            TranslationFailure::InputTooLong { maximum_characters: 10_000, actual_characters: 10_001 },
            ProcessingFailure::InputTooLong,
        ),
        (TranslationFailure::SameLanguage { language: language("de") }, ProcessingFailure::SameLanguage),
        (TranslationFailure::InvalidResult, ProcessingFailure::InvalidOutput),
        (TranslationFailure::Failed, ProcessingFailure::Failed),
        (TranslationFailure::Cancelled, ProcessingFailure::Cancelled),
    ];

    for (failure, expected) in cases {
        assert_eq!(translation_processing_failure(failure), expected);
    }
}

#[test]
fn preserves_recoverable_proofreading_failure_categories() {
    let cases = [
        (ProofreadingFailure::EmptyInput, ProcessingFailure::EmptyInput),
        (
            ProofreadingFailure::InputTooLong { maximum_characters: 10_000, actual_characters: 10_001 },
            ProcessingFailure::InputTooLong,
        ),
        (ProofreadingFailure::InvalidResult, ProcessingFailure::InvalidOutput),
        (ProofreadingFailure::ConsentRequired, ProcessingFailure::UnsupportedConfiguration),
        (ProofreadingFailure::Cancelled, ProcessingFailure::Cancelled),
        (
            ProofreadingFailure::PolicyViolation(ProofreadingPolicyViolation::LineStructure),
            ProcessingFailure::ProofreadingPolicyViolation(ProofreadingPolicyViolation::LineStructure),
        ),
    ];

    for (failure, expected) in cases {
        assert_eq!(proofreading_processing_failure(failure), expected);
    }
}

#[test]
fn foreign_translator_converts_requests_and_responses() {
    let native = Arc::new(FakeNativeTranslator::answering(" DE ", "Hello"));
    let translator = ForeignTranslator::new(native.clone());
    let request = verba::translation::TranslateText::<ForeignTranslator<FakeNativeTranslator>>::request_for(
        "Hallo",
        &TranslationSettings::default(),
    )
    .unwrap();

    let response = translator.translate(&request, &CancellationToken::default()).unwrap();
    assert_eq!(response.source_language(), &language("de"));
    assert_eq!(response.translated_text(), "Hello");
    assert_eq!(
        native.requests.lock().unwrap().as_slice(),
        &[NativeTranslationRequest {
            text: "Hallo".to_owned(),
            target_language_identifier: "en".to_owned(),
        }]
    );

    let unsupported = ForeignTranslator::new(Arc::new(FakeNativeTranslator::failing(
        NativeTranslationError::UnsupportedPair,
    )));
    assert_eq!(
        unsupported.translate(&request, &CancellationToken::default()),
        Err(TranslationFailure::UnsupportedPair { source_language: None, target_language: language("en") })
    );
}

#[test]
fn native_failures_and_malformed_answers_are_mapped() {
    let target = language("en");
    assert_eq!(native_translation_failure(NativeTranslationError::Cancelled, &target), TranslationFailure::Cancelled);
    assert_eq!(
        native_translation_failure(NativeTranslationError::UnableToIdentifyLanguage, &target),
        TranslationFailure::Failed
    );
    assert_eq!(
        translator_response_from_native(NativeTranslationResponse {
            source_language_identifier: "not a language".to_owned(),
            translated_text: "Hello".to_owned(),
        }),
        Err(TranslationFailure::InvalidResult)
    );
    let request: TranslationRequest = verba::translation::TranslateText::<
        ForeignTranslator<FakeNativeTranslator>,
    >::request_for("Bonjour", &TranslationSettings::new(language("de")))
    .unwrap();
    let native = native_request(&request);
    assert_eq!(native.text, "Bonjour");
    assert_eq!(native.target_language_identifier, "de");
    assert_eq!(NativeTranslationError::Failed.message(), "translation failed");
}

#[test]
fn processing_a_request_runs_its_action_unless_cancelled() {
    let processor = test_processor(Arc::new(FakeProofreader::new(Ok(ProofreaderResponse::NoIssues))));
    let request = ProcessingRequest {
        request_id: RequestId(1),
        action: TextAction::Proofread,
        text: CapturedText::new("Looks good.").unwrap(),
    };
    assert_eq!(
        processor.process(request.clone(), &TranslationSettings::default(), &CancellationToken::new()),
        Ok(ProcessingOutcome::NoIssues)
    );
    let cancelled = CancellationToken::new();
    cancelled.cancel();
    assert_eq!(
        processor.process(request, &TranslationSettings::default(), &cancelled),
        Err(ProcessingFailure::Cancelled)
    );
}
