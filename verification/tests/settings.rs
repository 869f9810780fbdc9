use std::collections::HashMap;
use std::sync::{Arc, Mutex};

use verba::preferences::{TranslationSettingsStore, TranslationSettingsStoreError};
use verba::presentation::TextAction;
use verba::proofreading::{ProofreadingConsentStore, ProofreadingConsentStoreError};
use verba::settings::{
    reads_back, stored_acknowledgement, stored_configuration, stored_target,
    MacOsProofreadingConsentStore, MacOsShortcutSettingsStore, MacOsTranslationSettingsStore,
    StringPreferences, PROOFREADING_DISCLOSURE_KEY, PROOFREAD_SHORTCUT_KEY, TARGET_LANGUAGE_KEY,
    TRANSLATE_SHORTCUT_KEY,
};
use verba::shortcut::{
    Shortcut, ShortcutConfiguration, ShortcutKey, ShortcutModifiers, ShortcutSettingsStore,
    ShortcutSettingsStoreError,
};
use verba::translation::LanguageIdentifier;

#[derive(Default)]
struct MemoryPreferences {
    values: Mutex<HashMap<String, String>>,
    writes: Mutex<Vec<(String, String)>>,
    ignored_writes: Mutex<Vec<String>>,
}

impl StringPreferences for MemoryPreferences {
    fn get(&self, key: &str) -> Option<String> {
        self.values.lock().unwrap().get(key).cloned()
    }

    fn set(&self, key: &str, value: Option<&str>) {
        let mut ignored_writes = self.ignored_writes.lock().unwrap();
        if let Some(index) = ignored_writes.iter().position(|ignored| ignored == key) {
            ignored_writes.remove(index);
            return;
        }
        drop(ignored_writes);

        let mut values = self.values.lock().unwrap();
        if let Some(value) = value {
            values.insert(key.to_owned(), value.to_owned());
            self.writes.lock().unwrap().push((key.to_owned(), value.to_owned()));
        } else {
            values.remove(key);
        }
    }
}

#[test]
fn loads_valid_identifiers_and_ignores_invalid_values() {
    let preferences = Arc::new(MemoryPreferences::default());
    let store = MacOsTranslationSettingsStore::new(preferences.clone());

    preferences.values.lock().unwrap().insert(TARGET_LANGUAGE_KEY.to_owned(), "FR".to_owned());
    assert_eq!(store.load_target_language().unwrap(), Some(LanguageIdentifier::new("fr").unwrap()));

    preferences
        .values
        .lock()
        .unwrap()
        .insert(TARGET_LANGUAGE_KEY.to_owned(), "not_a_language".to_owned());
    assert_eq!(store.load_target_language().unwrap(), None);
}

#[test]
fn saves_the_normalized_identifier() {
    let preferences = Arc::new(MemoryPreferences::default());
    let store = MacOsTranslationSettingsStore::new(preferences.clone());

    store.save_target_language(&LanguageIdentifier::new("DE").unwrap()).unwrap();

    assert_eq!(
        preferences.writes.lock().unwrap().as_slice(),
        &[(TARGET_LANGUAGE_KEY.to_owned(), "de".to_owned())]
    );
}

#[test]
fn target_language_save_fails_when_user_defaults_does_not_observe_the_write() {
    let preferences = Arc::new(MemoryPreferences::default());
    preferences.values.lock().unwrap().insert(TARGET_LANGUAGE_KEY.to_owned(), "en".to_owned());
    preferences.ignored_writes.lock().unwrap().push(TARGET_LANGUAGE_KEY.to_owned());
    let store = MacOsTranslationSettingsStore::new(preferences);

    assert_eq!(
        store.save_target_language(&LanguageIdentifier::new("de").unwrap()),
        Err(TranslationSettingsStoreError::Unavailable)
    );
    assert_eq!(store.load_target_language().unwrap(), Some(LanguageIdentifier::new("en").unwrap()));
}

#[test]
fn loads_and_persists_the_non_secret_proofreading_acknowledgement() {
    let preferences = Arc::new(MemoryPreferences::default());
    let store = MacOsProofreadingConsentStore::new(preferences.clone());

    assert!(!store.load_acknowledged().unwrap());
    preferences
        .values
        .lock()
        .unwrap()
        .insert(PROOFREADING_DISCLOSURE_KEY.to_owned(), "false".to_owned());
    assert!(!store.load_acknowledged().unwrap());
    preferences
        .values
        .lock()
        .unwrap()
        .insert(PROOFREADING_DISCLOSURE_KEY.to_owned(), "true".to_owned());
    assert!(store.load_acknowledged().unwrap());

    store.save_acknowledged().unwrap();
    assert_eq!(
        preferences.writes.lock().unwrap().as_slice(),
        &[(PROOFREADING_DISCLOSURE_KEY.to_owned(), "true".to_owned())]
    );
}

#[test]
fn consent_save_fails_when_user_defaults_does_not_observe_the_write() {
    let preferences = Arc::new(MemoryPreferences::default());
    preferences
        .values
        .lock()
        .unwrap()
        .insert(PROOFREADING_DISCLOSURE_KEY.to_owned(), "false".to_owned());
    preferences.ignored_writes.lock().unwrap().push(PROOFREADING_DISCLOSURE_KEY.to_owned());
    let store = MacOsProofreadingConsentStore::new(preferences);

    assert_eq!(store.save_acknowledged(), Err(ProofreadingConsentStoreError));
    assert!(!store.load_acknowledged().unwrap());
}

#[test]
fn shortcut_settings_round_trip_and_invalid_values_fall_back() {
    let preferences = Arc::new(MemoryPreferences::default());
    let store = MacOsShortcutSettingsStore::new(preferences.clone());
    let configuration = ShortcutConfiguration::default();

    assert_eq!(store.load().unwrap(), None);
    store.save(&configuration).unwrap();
    assert_eq!(store.load().unwrap(), Some(configuration));

    preferences
        .values
        .lock()
        .unwrap()
        .insert(TRANSLATE_SHORTCUT_KEY.to_owned(), "character:Q|1000".to_owned());
    assert_eq!(store.load().unwrap(), None);
}

#[test]
fn shortcut_readback_mismatch_restores_the_previous_configuration() {
    let preferences = Arc::new(MemoryPreferences::default());
    let store = MacOsShortcutSettingsStore::new(preferences.clone());
    let current = ShortcutConfiguration::default();
    store.save(&current).unwrap();

    let replacement = current
        .with_shortcut(
            TextAction::Translate,
            Shortcut::new(
                ShortcutKey::character('L').unwrap(),
                ShortcutModifiers::new(false, true, true, false),
            )
            .unwrap(),
        )
        .unwrap()
        .with_shortcut(
            TextAction::Proofread,
            Shortcut::new(
                ShortcutKey::character('O').unwrap(),
                ShortcutModifiers::new(false, true, true, false),
            )
            .unwrap(),
        )
        .unwrap();
    preferences.ignored_writes.lock().unwrap().push(PROOFREAD_SHORTCUT_KEY.to_owned());

    assert_eq!(store.save(&replacement), Err(ShortcutSettingsStoreError));
    assert_eq!(store.load().unwrap(), Some(current));
}

#[test]
fn stored_values_decode_on_plain_strings() {
    assert!(reads_back(&Some("de".to_owned()), "de"));
    assert!(!reads_back(&None, "de"));
    assert_eq!(stored_target(Some(" DE ".to_owned())), Some(LanguageIdentifier::new("de").unwrap()));
    assert_eq!(stored_target(None), None);
    assert!(stored_acknowledgement(Some("true".to_owned())));
    assert!(!stored_acknowledgement(Some("yes".to_owned())));
    assert_eq!(
        stored_configuration(Some("character:T|0110".to_owned()), Some("character:P|0110".to_owned())),
        Some(ShortcutConfiguration::default())
    );
    assert_eq!(
        stored_configuration(Some("character:T|0110".to_owned()), Some("character:T|0110".to_owned())),
        None
    );
    assert_eq!(stored_configuration(None, Some("character:P|0110".to_owned())), None);
}

#[test]
fn saved_target_language_reads_back_as_itself() {
    let preferences = Arc::new(MemoryPreferences::default());
    let store = MacOsTranslationSettingsStore::new(preferences);
    for identifier in [" ZH-Hans ", "pt-BR", "en"] {
        let language = LanguageIdentifier::new(identifier).unwrap();
        store.save_target_language(&language).unwrap();
        assert_eq!(store.load_target_language().unwrap(), Some(language));
    }
}

#[test]
fn a_configuration_with_a_reserved_shortcut_does_not_read_back() {
    let preferences = Arc::new(MemoryPreferences::default());
    let store = MacOsShortcutSettingsStore::new(preferences);
    let command_space = Shortcut::new(
        ShortcutKey::named(verba::shortcut::NamedShortcutKey::Space),
        ShortcutModifiers::new(true, false, false, false),
    )
    .unwrap();
    let configuration = ShortcutConfiguration::default().with_shortcut(TextAction::Translate, command_space).unwrap();
    store.save(&configuration).unwrap();
    assert_eq!(store.load().unwrap(), None);
}
