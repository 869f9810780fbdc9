use std::sync::{Arc, Mutex};

use verba::cancellation::CancellationToken;
use verba::preferences::{
    TranslationPreferenceFailure, TranslationPreferences, TranslationSettingsStore,
    TranslationSettingsStoreError,
};
use verba::translation::{
    LanguageIdentifier, LanguageIdentifierError, TranslateText, TranslationFailure,
    TranslationRequest, TranslationSettings, Translator, TranslatorResponse,
    MAX_TRANSLATION_CHARACTERS,
};

struct FakeTranslator {
    result: Result<TranslatorResponse, TranslationFailure>,
    requests: Mutex<Vec<TranslationRequest>>,
}

impl FakeTranslator {
    fn new(result: Result<TranslatorResponse, TranslationFailure>) -> Self {
        Self { result, requests: Mutex::new(Vec::new()) }
    }

    fn requests(&self) -> Vec<TranslationRequest> {
        self.requests.lock().unwrap().clone()
    }
}

impl Translator for FakeTranslator {
    fn translate(
        &self,
        request: &TranslationRequest,
        _cancellation: &CancellationToken,
    ) -> Result<TranslatorResponse, TranslationFailure> {
        self.requests.lock().unwrap().push(request.clone());
        self.result.clone()
    }
}

struct FakeStore {
    loaded: Result<Option<LanguageIdentifier>, TranslationSettingsStoreError>,
    saves: Mutex<Vec<LanguageIdentifier>>,
    save_error: bool,
}

impl FakeStore {
    fn new(target: Option<&str>) -> Arc<Self> {
        Arc::new(Self {
            loaded: Ok(target.map(language)),
            saves: Mutex::new(Vec::new()),
            save_error: false,
        })
    }
}

impl TranslationSettingsStore for FakeStore {
    fn load_target_language(
        &self,
    ) -> Result<Option<LanguageIdentifier>, TranslationSettingsStoreError> {
        self.loaded.clone()
    }

    fn save_target_language(
        &self,
        target_language: &LanguageIdentifier,
    ) -> Result<(), TranslationSettingsStoreError> {
        if self.save_error {
            return Err(TranslationSettingsStoreError::Unavailable);
        }
        self.saves.lock().unwrap().push(target_language.clone());
        Ok(())
    }
}

fn language(identifier: &str) -> LanguageIdentifier {
    LanguageIdentifier::new(identifier).unwrap()
}

fn response(source_language: &str, translated_text: &str) -> TranslatorResponse {
    TranslatorResponse::new(language(source_language), translated_text)
}

#[test]
fn loads_the_persisted_target_language() {
    let preferences = TranslationPreferences::load(FakeStore::new(Some("fr"))).unwrap();

    assert_eq!(preferences.settings().target_language(), &language("fr"));
}

#[test]
fn keeps_a_supported_selection_and_applies_changes_immediately() {
    let store = FakeStore::new(Some("fr"));
    let mut preferences = TranslationPreferences::load(store.clone()).unwrap();

    let selected = preferences.set_supported_targets(vec![language("de"), language("fr")]).unwrap();
    assert_eq!(selected, language("fr"));
    assert!(store.saves.lock().unwrap().is_empty());

    preferences.set_target_language(language("de")).unwrap();
    assert_eq!(preferences.settings().target_language(), &language("de"));
    assert_eq!(store.saves.lock().unwrap().as_slice(), &[language("de")]);
}

#[test]
fn falls_back_to_english_then_the_first_supported_target() {
    let english_store = FakeStore::new(Some("ga"));
    let mut english_preferences = TranslationPreferences::load(english_store.clone()).unwrap();
    assert_eq!(
        english_preferences.set_supported_targets(vec![language("fr"), language("en")]).unwrap(),
        language("en")
    );
    assert_eq!(english_store.saves.lock().unwrap().as_slice(), &[language("en")]);

    let first_store = FakeStore::new(Some("ga"));
    let mut first_preferences = TranslationPreferences::load(first_store.clone()).unwrap();
    assert_eq!(
        first_preferences.set_supported_targets(vec![language("de"), language("fr")]).unwrap(),
        language("de")
    );
    assert_eq!(first_store.saves.lock().unwrap().as_slice(), &[language("de")]);
}

#[test]
fn rejects_empty_unsupported_and_unpersisted_updates() {
    let store = Arc::new(FakeStore {
        loaded: Ok(None),
        saves: Mutex::new(Vec::new()),
        save_error: true,
    });
    let mut preferences = TranslationPreferences::load(store).unwrap();

    assert_eq!(
        preferences.set_supported_targets(vec![]),
        Err(TranslationPreferenceFailure::NoSupportedTargets)
    );
    assert_eq!(
        preferences.set_target_language(language("de")),
        Err(TranslationPreferenceFailure::UnsupportedTarget)
    );
    assert_eq!(
        preferences.set_supported_targets(vec![language("de")]),
        Err(TranslationPreferenceFailure::PersistenceFailed)
    );
    assert_eq!(preferences.settings(), TranslationSettings::default());
}

#[test]
fn supported_targets_drop_repetitions_in_first_order() {
    let store = FakeStore::new(Some("fr"));
    let mut preferences = TranslationPreferences::load(store).unwrap();
    preferences
        .set_supported_targets(vec![language("fr"), language("de"), language("FR"), language("de")])
        .unwrap();
    assert_eq!(preferences.supported_targets(), &vec![language("fr"), language("de")]);
}

#[test]
fn language_identifiers_are_normalized_and_validated() {
    assert_eq!(language(" ZH-Hans ").as_str(), "zh-hans");

    for invalid in ["", "e", "en_US", "en-", "12", "languagecode"] {
        assert_eq!(LanguageIdentifier::new(invalid), Err(LanguageIdentifierError::Invalid));
    }
}

#[test]
fn target_language_settings_default_to_english_and_can_change() {
    let mut settings = TranslationSettings::default();
    assert_eq!(settings.target_language(), &language("en"));

    settings.set_target_language(language("de"));
    assert_eq!(settings.target_language(), &language("de"));
}

#[test]
fn translates_valid_text_and_preserves_the_request_context() {
    let translator = Arc::new(FakeTranslator::new(Ok(response("de", "Hello"))));
    let use_case = TranslateText::new(translator.clone());
    let settings = TranslationSettings::default();

    let result = use_case.execute(" Hallo\n", &settings, &CancellationToken::default()).unwrap();

    assert_eq!(result.original_text(), " Hallo\n");
    assert_eq!(result.source_language(), &language("de"));
    assert_eq!(result.target_language(), &language("en"));
    assert_eq!(result.translated_text(), "Hello");
    let requests = translator.requests();
    assert_eq!(requests.len(), 1);
    assert_eq!(requests[0].text(), " Hallo\n");
    assert_eq!(requests[0].target_language(), &language("en"));
}

#[test]
fn rejects_empty_input_without_calling_the_translator() {
    let translator = Arc::new(FakeTranslator::new(Ok(response("de", "unused"))));
    let use_case = TranslateText::new(translator.clone());

    for text in ["", "  \n\t"] {
        assert_eq!(
            use_case.execute(text, &TranslationSettings::default(), &CancellationToken::default()),
            Err(TranslationFailure::EmptyInput)
        );
    }

    assert!(translator.requests().is_empty());
}

#[test]
fn rejects_oversized_input_by_character_count() {
    let translator = Arc::new(FakeTranslator::new(Ok(response("de", "unused"))));
    let use_case = TranslateText::new(translator.clone());
    let text = "é".repeat(MAX_TRANSLATION_CHARACTERS + 1);

    assert_eq!(
        use_case.execute(&text, &TranslationSettings::default(), &CancellationToken::default()),
        Err(TranslationFailure::InputTooLong {
            maximum_characters: MAX_TRANSLATION_CHARACTERS,
            actual_characters: MAX_TRANSLATION_CHARACTERS + 1,
        })
    );
    assert!(translator.requests().is_empty());
}

#[test]
fn reports_same_language_results() {
    let translator = Arc::new(FakeTranslator::new(Ok(response("en", "Hello"))));
    let use_case = TranslateText::new(translator);

    assert_eq!(
        use_case.execute("Hello", &TranslationSettings::default(), &CancellationToken::default()),
        Err(TranslationFailure::SameLanguage { language: language("en") })
    );
}

#[test]
fn skips_translation_when_the_request_is_already_cancelled() {
    let translator = Arc::new(FakeTranslator::new(Ok(response("de", "unused"))));
    let use_case = TranslateText::new(translator.clone());
    let cancellation = CancellationToken::default();
    cancellation.cancel();

    assert_eq!(
        use_case.execute("Hallo", &TranslationSettings::default(), &cancellation),
        Err(TranslationFailure::Cancelled)
    );
    assert!(translator.requests().is_empty());
}

#[test]
fn preserves_unsupported_pair_details_from_the_translator() {
    let failure = TranslationFailure::UnsupportedPair {
        source_language: Some(language("ga")),
        target_language: language("en"),
    };
    let translator = Arc::new(FakeTranslator::new(Err(failure.clone())));
    let use_case = TranslateText::new(translator);

    assert_eq!(
        use_case.execute("Dia dhuit", &TranslationSettings::default(), &CancellationToken::default()),
        Err(failure)
    );
}

#[test]
fn rejects_an_empty_translator_result() {
    let translator = Arc::new(FakeTranslator::new(Ok(response("de", " \n"))));
    let use_case = TranslateText::new(translator);

    assert_eq!(
        use_case.execute("Hallo", &TranslationSettings::default(), &CancellationToken::default()),
        Err(TranslationFailure::InvalidResult)
    );
}

#[test]
fn character_limit_is_inclusive() {
    let translator = Arc::new(FakeTranslator::new(Ok(response("de", "ok"))));
    let use_case = TranslateText::new(translator.clone());
    let text = "a".repeat(MAX_TRANSLATION_CHARACTERS);
    assert!(use_case
        .execute(&text, &TranslationSettings::default(), &CancellationToken::default())
        .is_ok());
    assert_eq!(translator.requests().len(), 1);
}

struct CancellingTranslator {
    failure: TranslationFailure,
}

impl Translator for CancellingTranslator {
    fn translate(
        &self,
        _request: &TranslationRequest,
        cancellation: &CancellationToken,
    ) -> Result<TranslatorResponse, TranslationFailure> {
        cancellation.cancel();
        Err(self.failure.clone())
    }
}

#[test]
fn a_translator_failure_wins_over_a_cancellation_during_the_call() {
    let use_case = TranslateText::new(Arc::new(CancellingTranslator { failure: TranslationFailure::Failed }));
    let cancellation = CancellationToken::default();
    assert_eq!(
        use_case.execute("Hallo", &TranslationSettings::default(), &cancellation),
        Err(TranslationFailure::Failed)
    );
    let request = TranslateText::<CancellingTranslator>::request_for("Hallo", &TranslationSettings::default()).unwrap();
    assert_eq!(
        TranslateText::<CancellingTranslator>::result_for(request, Err(TranslationFailure::Failed), true),
        Err(TranslationFailure::Failed)
    );
}
