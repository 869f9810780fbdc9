use std::sync::{Arc, Mutex};

use verba::presentation::TextAction;
use verba::shortcut::{
    NamedShortcutKey, ShortcutConfiguration, ShortcutEventHandler, ShortcutKey, ShortcutRegistry,
    ShortcutRegistryError, ShortcutSettingsStore, ShortcutSettingsStoreError,
};
use verba::shortcut_settings::{
    configuration_view_model, display_shortcut, parse_key, register_and_save, registration_error,
    replacement_configuration, shortcut_from_input, ShortcutConfigurationViewModel, ShortcutInput,
    ShortcutSettingsAction, ShortcutSettingsError,
};

#[derive(Default)]
struct RecordingStore {
    saved: Mutex<Vec<ShortcutConfiguration>>,
    fail: bool,
}

impl ShortcutSettingsStore for RecordingStore {
    fn load(&self) -> Result<Option<ShortcutConfiguration>, ShortcutSettingsStoreError> {
        Ok(None)
    }

    fn save(&self, configuration: &ShortcutConfiguration) -> Result<(), ShortcutSettingsStoreError> {
        if self.fail {
            return Err(ShortcutSettingsStoreError);
        }
        self.saved.lock().unwrap().push(*configuration);
        Ok(())
    }
}

struct NoopHandler;

impl ShortcutEventHandler for NoopHandler {
    fn on_shortcut(&self, _action: TextAction) {}
}

fn handler() -> Arc<dyn ShortcutEventHandler> {
    Arc::new(NoopHandler)
}

#[derive(Default)]
struct RecordingRegistry {
    configuration: Option<ShortcutConfiguration>,
}

impl ShortcutRegistry for RecordingRegistry {
    fn register(
        &mut self,
        shortcuts: &ShortcutConfiguration,
        _event_handler: &Arc<dyn ShortcutEventHandler>,
    ) -> Result<(), ShortcutRegistryError> {
        self.configuration = Some(*shortcuts);
        Ok(())
    }

    fn unregister_all(&mut self) -> Result<(), ShortcutRegistryError> {
        self.configuration = None;
        Ok(())
    }
}

struct FailedRollbackRegistry {
    calls: usize,
}

impl ShortcutRegistry for FailedRollbackRegistry {
    fn register(
        &mut self,
        _shortcuts: &ShortcutConfiguration,
        _event_handler: &Arc<dyn ShortcutEventHandler>,
    ) -> Result<(), ShortcutRegistryError> {
        self.calls += 1;
        if self.calls == 1 {
            Ok(())
        } else {
            Err(ShortcutRegistryError::RegistrationFailed)
        }
    }

    fn unregister_all(&mut self) -> Result<(), ShortcutRegistryError> {
        Ok(())
    }
}

fn input(key: &str, control: bool, option: bool) -> ShortcutInput {
    ShortcutInput { key: key.to_owned(), command: false, control, option, shift: false }
}

#[test]
fn validates_and_formats_recorded_shortcuts() {
    let current = ShortcutConfiguration::default();
    assert_eq!(
        configuration_view_model(current),
        ShortcutConfigurationViewModel { translate: "⌃⌥T".to_owned(), proofread: "⌃⌥P".to_owned() }
    );
    assert_eq!(
        replacement_configuration(current, ShortcutSettingsAction::Translate, &input("P", true, true)),
        Err(ShortcutSettingsError::DuplicateShortcut)
    );
    assert_eq!(
        replacement_configuration(
            current,
            ShortcutSettingsAction::Translate,
            &ShortcutInput { key: "space".to_owned(), command: true, control: false, option: false, shift: false }
        ),
        Err(ShortcutSettingsError::ReservedShortcut)
    );
}

#[test]
fn persistence_failure_restores_the_previous_registration() {
    let current = ShortcutConfiguration::default();
    let replacement =
        replacement_configuration(current, ShortcutSettingsAction::Translate, &input("L", true, true)).unwrap();
    let mut registry = RecordingRegistry::default();
    registry.register(&current, &handler()).unwrap();

    assert_eq!(
        register_and_save(
            &mut registry,
            &handler(),
            &RecordingStore { fail: true, ..Default::default() },
            current,
            replacement,
        ),
        Err(ShortcutSettingsError::PersistenceFailed)
    );
    assert_eq!(registry.configuration, Some(current));
}

#[test]
fn failed_persistence_reports_a_failed_rollback() {
    let current = ShortcutConfiguration::default();
    let replacement =
        replacement_configuration(current, ShortcutSettingsAction::Translate, &input("L", true, true)).unwrap();

    assert_eq!(
        register_and_save(
            &mut FailedRollbackRegistry { calls: 0 },
            &handler(),
            &RecordingStore { fail: true, ..Default::default() },
            current,
            replacement,
        ),
        Err(ShortcutSettingsError::RollbackFailed)
    );
}

#[test]
fn a_saved_replacement_stays_registered() {
    let current = ShortcutConfiguration::default();
    let replacement =
        replacement_configuration(current, ShortcutSettingsAction::Proofread, &input("F5", false, false)).unwrap();
    let mut registry = RecordingRegistry::default();
    let store = RecordingStore::default();

    assert_eq!(register_and_save(&mut registry, &handler(), &store, current, replacement), Ok(()));
    assert_eq!(registry.configuration, Some(replacement));
    assert_eq!(store.saved.lock().unwrap().as_slice(), &[replacement]);
    assert_eq!(configuration_view_model(replacement).proofread, "F5");
}

#[test]
fn recorded_keys_are_parsed_and_displayed() {
    assert_eq!(parse_key("t"), Ok(ShortcutKey::character('T').unwrap()));
    assert_eq!(parse_key("F12"), Ok(ShortcutKey::function(12).unwrap()));
    assert_eq!(parse_key("arrow-left"), Ok(ShortcutKey::named(NamedShortcutKey::ArrowLeft)));
    assert_eq!(parse_key("F21"), Err(ShortcutSettingsError::InvalidKey));
    assert_eq!(parse_key("ab"), Err(ShortcutSettingsError::InvalidKey));
    assert_eq!(
        shortcut_from_input(&input("T", false, false)),
        Err(ShortcutSettingsError::MissingPrimaryModifier)
    );
    let shortcut = shortcut_from_input(&ShortcutInput {
        key: "return".to_owned(),
        command: true,
        control: true,
        option: true,
        shift: true,
    })
    .unwrap();
    assert_eq!(display_shortcut(shortcut), "⌃⌥⇧⌘↩");
    assert_eq!(
        registration_error(ShortcutRegistryError::ShortcutUnavailable {
            shortcut: ShortcutConfiguration::default().shortcut_for(TextAction::Translate)
        }),
        ShortcutSettingsError::ShortcutUnavailable
    );
    assert_eq!(ShortcutSettingsError::DuplicateShortcut.message().is_empty(), false);
}
