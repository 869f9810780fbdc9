use std::collections::VecDeque;
use std::sync::{Arc, Mutex};

use verba::hot_keys::{dispatch_hot_key, status_result, HotKeyRegistry, HotKeySystem, SystemError, EVENT_HOT_KEY_EXISTS};
use verba::keycodes::{
    hot_key_action, hot_key_id, key_code, modifier_flags, EventHotKeyId, HOT_KEY_SIGNATURE,
    PROOFREAD_HOT_KEY_ID, TRANSLATE_HOT_KEY_ID,
};
use verba::presentation::TextAction;
use verba::shortcut::{
    NamedShortcutKey, Shortcut, ShortcutConfiguration, ShortcutEventHandler, ShortcutKey, ShortcutModifiers,
    ShortcutRegistry, ShortcutRegistryError,
};

#[derive(Default)]
struct RecordingHandler(Mutex<Vec<TextAction>>);

impl ShortcutEventHandler for RecordingHandler {
    fn on_shortcut(&self, action: TextAction) {
        self.0.lock().expect("action lock poisoned").push(action);
    }
}

#[derive(Clone, Copy, Debug, Eq, PartialEq)]
struct RegisterCall {
    key_code: u32,
    modifiers: u32,
    id: EventHotKeyId,
}

#[derive(Default)]
struct FakeSystemState {
    install_count: usize,
    removed_handlers: Vec<u32>,
    register_calls: Vec<RegisterCall>,
    unregistered_hot_keys: Vec<u32>,
    registration_failures: VecDeque<(usize, SystemError)>,
    next_reference: u32,
}

#[derive(Default)]
struct FakeSystem {
    state: Arc<Mutex<FakeSystemState>>,
    handler: Option<Arc<dyn ShortcutEventHandler>>,
}

impl FakeSystem {
    fn dispatch(&self, id: EventHotKeyId) -> bool {
        dispatch_hot_key(self.handler.as_deref(), id)
    }
}

impl HotKeySystem for FakeSystem {
    type HotKeyRef = u32;
    type EventHandlerRef = u32;

    fn install_event_handler(&mut self) -> Result<u32, SystemError> {
        self.state.lock().unwrap().install_count += 1;
        Ok(100)
    }

    fn remove_event_handler(&mut self, reference: u32) -> Result<(), SystemError> {
        self.state.lock().unwrap().removed_handlers.push(reference);
        Ok(())
    }

    fn register_hot_key(&mut self, key_code: u32, modifiers: u32, id: EventHotKeyId) -> Result<u32, SystemError> {
        let mut state = self.state.lock().unwrap();
        state.register_calls.push(RegisterCall { key_code, modifiers, id });
        let call_number = state.register_calls.len();
        if state.registration_failures.front().is_some_and(|(failure_call, _)| *failure_call == call_number) {
            let (_, error) = state.registration_failures.pop_front().unwrap();
            return Err(error);
        }
        state.next_reference += 1;
        Ok(state.next_reference)
    }

    fn unregister_hot_key(&mut self, reference: u32) -> Result<(), SystemError> {
        self.state.lock().unwrap().unregistered_hot_keys.push(reference);
        Ok(())
    }

    fn set_handler(&mut self, handler: &Arc<dyn ShortcutEventHandler>) {
        self.handler = Some(handler.clone());
    }

    fn clear_handler(&mut self) {
        self.handler = None;
    }
}

fn shortcut(character: char) -> Shortcut {
    Shortcut::new(
        ShortcutKey::character(character).expect("fixture key should be valid"),
        ShortcutModifiers::new(false, true, true, false),
    )
    .expect("fixture shortcut should be valid")
}

fn as_handler(handler: &Arc<RecordingHandler>) -> Arc<dyn ShortcutEventHandler> {
    handler.clone()
}

const TRANSLATE: EventHotKeyId = EventHotKeyId { signature: HOT_KEY_SIGNATURE, id: TRANSLATE_HOT_KEY_ID };
const PROOFREAD: EventHotKeyId = EventHotKeyId { signature: HOT_KEY_SIGNATURE, id: PROOFREAD_HOT_KEY_ID };

#[test]
fn maps_core_keys_and_modifiers_to_carbon_values() {
    assert_eq!(key_code(ShortcutKey::character('T').unwrap()), Some(0x11));
    assert_eq!(key_code(ShortcutKey::character('P').unwrap()), Some(0x23));
    assert_eq!(key_code(ShortcutKey::function(12).unwrap()), Some(0x6F));
    assert_eq!(key_code(ShortcutKey::named(NamedShortcutKey::ArrowLeft)), Some(0x7B));
    assert_eq!(
        modifier_flags(ShortcutModifiers::new(true, true, true, true)),
        (1 << 8) | (1 << 9) | (1 << 11) | (1 << 12)
    );
}

#[test]
fn callback_dispatches_only_verba_hot_key_ids() {
    let handler = Arc::new(RecordingHandler::default());
    let mut system = FakeSystem::default();
    system.set_handler(&as_handler(&handler));

    assert!(system.dispatch(TRANSLATE));
    assert!(system.dispatch(PROOFREAD));
    assert!(!system.dispatch(EventHotKeyId { signature: u32::from_be_bytes(*b"Else"), id: TRANSLATE_HOT_KEY_ID }));
    assert_eq!(*handler.0.lock().unwrap(), vec![TextAction::Translate, TextAction::Proofread]);

    system.clear_handler();
    assert!(!system.dispatch(TRANSLATE));
}

#[test]
fn registration_replaces_changed_shortcuts_and_handler() {
    let system = FakeSystem::default();
    let state = system.state.clone();
    let mut registry = HotKeyRegistry::new(system);
    let original = ShortcutConfiguration::default();
    let first_handler = Arc::new(RecordingHandler::default());

    registry.register(&original, &as_handler(&first_handler)).expect("initial registration should succeed");
    let replacement_handler = Arc::new(RecordingHandler::default());
    registry
        .register(&original, &as_handler(&replacement_handler))
        .expect("unchanged shortcuts should update their handler");

    let replacement = ShortcutConfiguration::new(shortcut('A'), shortcut('B')).unwrap();
    registry
        .register(&replacement, &as_handler(&replacement_handler))
        .expect("replacement registration should succeed");
    assert!(registry.system.dispatch(TRANSLATE));

    let state = state.lock().unwrap();
    assert_eq!(state.install_count, 1);
    assert_eq!(state.register_calls.len(), 4);
    assert_eq!(state.unregistered_hot_keys, vec![1, 2]);
    assert_eq!(registry.configuration(), Some(replacement));
    assert_eq!(*replacement_handler.0.lock().unwrap(), vec![TextAction::Translate]);
    assert!(first_handler.0.lock().unwrap().is_empty());
}

#[test]
fn failed_replacement_restores_previous_shortcuts_and_handler() {
    let system = FakeSystem::default();
    let state = system.state.clone();
    let mut registry = HotKeyRegistry::new(system);
    let original = ShortcutConfiguration::default();
    let original_handler = Arc::new(RecordingHandler::default());
    registry.register(&original, &as_handler(&original_handler)).expect("initial registration should succeed");

    state.lock().unwrap().registration_failures.push_back((4, SystemError::HotKeyExists));
    let replacement = ShortcutConfiguration::new(shortcut('A'), shortcut('B')).unwrap();
    let replacement_handler = Arc::new(RecordingHandler::default());

    assert_eq!(
        registry.register(&replacement, &as_handler(&replacement_handler)),
        Err(ShortcutRegistryError::ShortcutUnavailable {
            shortcut: replacement.shortcut_for(TextAction::Proofread),
        })
    );
    assert_eq!(registry.configuration(), Some(original));
    assert!(registry.system.dispatch(PROOFREAD));
    assert_eq!(*original_handler.0.lock().unwrap(), vec![TextAction::Proofread]);

    let state = state.lock().unwrap();
    assert_eq!(state.register_calls.len(), 6);
    assert_eq!(state.unregistered_hot_keys, vec![1, 2, 3]);
}

#[test]
fn unregister_all_removes_hot_keys_and_event_handler() {
    let system = FakeSystem::default();
    let state = system.state.clone();
    let mut registry = HotKeyRegistry::new(system);
    registry
        .register(&ShortcutConfiguration::default(), &as_handler(&Arc::new(RecordingHandler::default())))
        .expect("registration should succeed");

    registry.unregister_all().expect("unregistration should succeed");
    let state = state.lock().unwrap();
    assert_eq!(state.unregistered_hot_keys, vec![1, 2]);
    assert_eq!(state.removed_handlers, vec![100]);
    assert_eq!(registry.configuration(), None);
    assert!(!registry.system.dispatch(TRANSLATE));
}

#[test]
fn public_registry_is_constructible_without_native_side_effects() {
    let system = FakeSystem::default();
    let state = system.state.clone();
    let registry = HotKeyRegistry::new(system);
    assert_eq!(registry.configuration(), None);
    let state = state.lock().unwrap();
    assert_eq!(state.install_count, 0);
    assert!(state.register_calls.is_empty());
}

#[test]
fn hot_key_identifiers_round_trip_and_statuses_map() {
    for action in [TextAction::Translate, TextAction::Proofread] {
        assert_eq!(hot_key_action(hot_key_id(action)), Some(action));
    }
    assert_eq!(hot_key_action(EventHotKeyId { signature: HOT_KEY_SIGNATURE, id: 3 }), None);
    assert_eq!(status_result(0), Ok(()));
    assert_eq!(status_result(EVENT_HOT_KEY_EXISTS), Err(SystemError::HotKeyExists));
    assert_eq!(status_result(-50), Err(SystemError::Failed));
}
