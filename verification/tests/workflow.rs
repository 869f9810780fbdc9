use std::collections::{HashMap, VecDeque};
use std::sync::{Arc, Mutex};

use verba::cancellation::CancellationToken;
use verba::capture::CapturedText;
use verba::coordinator::{CoordinatorEffect, ProcessingRequest, RequestId, ShortcutCoordinator};
use verba::preferences::{TranslationPreferences, TranslationSettingsStore, TranslationSettingsStoreError};
use verba::presentation::TextAction;
use verba::processing::{
    ApplicationProcessor, ForeignTranslator, NativeTranslationError, NativeTranslationRequest,
    NativeTranslationResponse, NativeTranslator,
};
use verba::proofreading::{
    Proofreader, ProofreaderError, ProofreaderResponse, ProofreadingCorrection, ProofreadingRequest,
};
use verba::shortcut::{
    ShortcutConfiguration, ShortcutEventHandler, ShortcutRegistry, ShortcutRegistryError,
};
use verba::translation::LanguageIdentifier;
use verba::view_model::{LanguagePairViewModel, PresentationAction, PresentationViewModel};

struct RecordingNativeTranslator {
    responses: Mutex<VecDeque<&'static str>>,
    requests: Mutex<Vec<NativeTranslationRequest>>,
}

impl RecordingNativeTranslator {
    fn new(responses: Vec<&'static str>) -> Arc<Self> {
        Arc::new(Self {
            responses: Mutex::new(responses.into_iter().collect()),
            requests: Mutex::new(Vec::new()),
        })
    }
}

impl NativeTranslator for RecordingNativeTranslator {
    fn translate(
        &self,
        request: NativeTranslationRequest,
    ) -> Result<NativeTranslationResponse, NativeTranslationError> {
        self.requests.lock().unwrap().push(request);
        let translated = self
            .responses
            .lock()
            .unwrap()
            .pop_front()
            .expect("the workflow should have a queued translation response");
        Ok(NativeTranslationResponse {
            source_language_identifier: "de".to_owned(),
            translated_text: translated.to_owned(),
        })
    }
}

struct RecordingProofreader {
    responses: Mutex<VecDeque<Result<ProofreaderResponse, ProofreaderError>>>,
    requests: Mutex<Vec<ProofreadingRequest>>,
}

impl RecordingProofreader {
    fn corrected(corrected_text: &str, explanation: &str) -> Arc<Self> {
        Arc::new(Self {
            responses: Mutex::new(VecDeque::from([Ok(ProofreaderResponse::Corrected(
                ProofreadingCorrection::new(corrected_text, explanation),
            ))])),
            requests: Mutex::new(Vec::new()),
        })
    }

    fn no_issues() -> Arc<Self> {
        Arc::new(Self {
            responses: Mutex::new(VecDeque::from([Ok(ProofreaderResponse::NoIssues)])),
            requests: Mutex::new(Vec::new()),
        })
    }
}

impl Proofreader for RecordingProofreader {
    fn proofread(
        &self,
        request: &ProofreadingRequest,
        _cancellation: &CancellationToken,
    ) -> Result<ProofreaderResponse, ProofreaderError> {
        self.requests.lock().unwrap().push(request.clone());
        self.responses
            .lock()
            .unwrap()
            .pop_front()
            .expect("the workflow should have a queued proofreading response")
    }
}

#[derive(Default)]
struct MemoryTranslationSettingsStore {
    target_language: Mutex<Option<LanguageIdentifier>>,
}

impl TranslationSettingsStore for MemoryTranslationSettingsStore {
    fn load_target_language(
        &self,
    ) -> Result<Option<LanguageIdentifier>, TranslationSettingsStoreError> {
        Ok(self.target_language.lock().unwrap().clone())
    }

    fn save_target_language(
        &self,
        target_language: &LanguageIdentifier,
    ) -> Result<(), TranslationSettingsStoreError> {
        *self.target_language.lock().unwrap() = Some(target_language.clone());
        Ok(())
    }
}

/// Queues the shortcut presses that the system delivers.
#[derive(Default)]
struct PressQueue {
    presses: Mutex<VecDeque<TextAction>>,
}

impl ShortcutEventHandler for PressQueue {
    fn on_shortcut(&self, action: TextAction) {
        self.presses.lock().unwrap().push_back(action);
    }
}

#[derive(Default)]
struct WorkflowShortcutRegistry {
    handler: Option<Arc<dyn ShortcutEventHandler>>,
    registrations: usize,
    unregistrations: usize,
}

impl WorkflowShortcutRegistry {
    fn trigger(&self, action: TextAction) {
        self.handler.as_ref().expect("shortcuts should be registered").on_shortcut(action);
    }
}

impl ShortcutRegistry for WorkflowShortcutRegistry {
    fn register(
        &mut self,
        _shortcuts: &ShortcutConfiguration,
        event_handler: &Arc<dyn ShortcutEventHandler>,
    ) -> Result<(), ShortcutRegistryError> {
        self.handler = Some(event_handler.clone());
        self.registrations += 1;
        Ok(())
    }

    fn unregister_all(&mut self) -> Result<(), ShortcutRegistryError> {
        self.handler = None;
        self.unregistrations += 1;
        Ok(())
    }
}

type Processor = ApplicationProcessor<ForeignTranslator<RecordingNativeTranslator>, RecordingProofreader>;

/// The application's workflow, run step by step on the test's thread: shortcut presses,
/// capture from a queue of selections, processing, and the popup's view model.
struct App {
    coordinator: ShortcutCoordinator,
    processor: Processor,
    preferences: TranslationPreferences<MemoryTranslationSettingsStore>,
    selections: VecDeque<&'static str>,
    presses: Arc<PressQueue>,
    registry: WorkflowShortcutRegistry,
    tokens: HashMap<RequestId, CancellationToken>,
    held: Vec<ProcessingRequest>,
    hold_processing: bool,
    popup: Vec<(u64, PresentationViewModel)>,
}

impl App {
    fn new(
        selections: Vec<&'static str>,
        translator: Arc<RecordingNativeTranslator>,
        proofreader: Arc<RecordingProofreader>,
        preferences: TranslationPreferences<MemoryTranslationSettingsStore>,
    ) -> Self {
        let presses = Arc::new(PressQueue::default());
        let mut registry = WorkflowShortcutRegistry::default();
        let handler: Arc<dyn ShortcutEventHandler> = presses.clone();
        registry.register(&ShortcutConfiguration::default(), &handler).unwrap();
        App {
            coordinator: ShortcutCoordinator::new(),
            processor: ApplicationProcessor::new(Arc::new(ForeignTranslator::new(translator)), proofreader),
            preferences,
            selections: selections.into_iter().collect(),
            presses,
            registry,
            tokens: HashMap::new(),
            held: Vec::new(),
            hold_processing: false,
            popup: Vec::new(),
        }
    }

    fn press(&mut self, action: TextAction) {
        self.registry.trigger(action);
        loop {
            let next = self.presses.presses.lock().unwrap().pop_front();
            let Some(action) = next else { break };
            let effects = self.coordinator.on_shortcut(action);
            self.run(effects);
        }
    }

    fn run(&mut self, effects: Vec<CoordinatorEffect>) {
        let mut queue: VecDeque<CoordinatorEffect> = effects.into_iter().collect();
        while let Some(effect) = queue.pop_front() {
            match effect {
                CoordinatorEffect::Present(update) => {
                    self.popup.push((update.request_id.value(), PresentationViewModel::from(update.state)))
                }
                CoordinatorEffect::CaptureCompleted(_) | CoordinatorEffect::Record(_) => {}
                CoordinatorEffect::Cancel(id) => {
                    if let Some(token) = self.tokens.get(&id) {
                        token.cancel();
                    }
                }
                CoordinatorEffect::Capture { request_id, .. } => {
                    self.tokens.insert(request_id, CancellationToken::new());
                    let text = self.selections.pop_front().expect("a queued selection");
                    let captured = CapturedText::new(text).unwrap();
                    queue.extend(self.coordinator.capture_finished(request_id, Ok(captured), true));
                }
                CoordinatorEffect::Process(request) => {
                    if self.hold_processing {
                        self.held.push(request);
                    } else {
                        queue.extend(self.process(request));
                    }
                }
            }
        }
    }

    fn process(&mut self, request: ProcessingRequest) -> Vec<CoordinatorEffect> {
        let token = self.tokens.get(&request.request_id).cloned().unwrap_or_default();
        let (id, action) = (request.request_id, request.action);
        let result = self.processor.process(request, &self.preferences.settings(), &token);
        self.coordinator.processing_finished(id, action, result)
    }

    fn release_held(&mut self) {
        let held = std::mem::take(&mut self.held);
        for request in held {
            let effects = self.process(request);
            self.run(effects);
        }
    }

    fn cancel_active(&mut self) -> bool {
        let (cancelled, effects) = self.coordinator.cancel_active();
        self.run(effects);
        cancelled
    }

    fn shutdown(&mut self) {
        let effects = self.coordinator.shutdown();
        self.run(effects);
    }
}

fn language(identifier: &str) -> LanguageIdentifier {
    LanguageIdentifier::new(identifier).unwrap()
}

fn preferences(
    store: Arc<MemoryTranslationSettingsStore>,
) -> TranslationPreferences<MemoryTranslationSettingsStore> {
    let mut preferences = TranslationPreferences::load(store).unwrap();
    preferences.set_supported_targets(vec![language("en"), language("fr")]).unwrap();
    preferences
}

#[test]
fn translation_runs_from_shortcut_through_the_popup_view_model() {
    let translator = RecordingNativeTranslator::new(vec!["Hello world"]);
    let mut app = App::new(
        vec!["Hallo Welt"],
        translator.clone(),
        RecordingProofreader::no_issues(),
        preferences(Arc::new(MemoryTranslationSettingsStore::default())),
    );

    app.press(TextAction::Translate);

    assert_eq!(
        app.popup,
        vec![
            (1, PresentationViewModel::Loading { action: PresentationAction::Translate }),
            (
                1,
                PresentationViewModel::Translation {
                    original_text: "Hallo Welt".to_owned(),
                    language_pair: LanguagePairViewModel {
                        source: "de".to_owned(),
                        target: "en".to_owned(),
                    },
                    translated_text: "Hello world".to_owned(),
                },
            ),
        ]
    );
    assert_eq!(
        translator.requests.lock().unwrap().as_slice(),
        &[NativeTranslationRequest {
            text: "Hallo Welt".to_owned(),
            target_language_identifier: "en".to_owned(),
        }]
    );
    app.shutdown();
}

#[test]
fn proofreading_runs_from_shortcut_through_the_popup_view_model() {
    let proofreader = RecordingProofreader::corrected("This is correct.", "Added the missing verb.");
    let mut app = App::new(
        vec!["This correct."],
        RecordingNativeTranslator::new(vec![]),
        proofreader.clone(),
        preferences(Arc::new(MemoryTranslationSettingsStore::default())),
    );

    app.press(TextAction::Proofread);

    assert_eq!(
        app.popup,
        vec![
            (1, PresentationViewModel::Loading { action: PresentationAction::Proofread }),
            (
                1,
                PresentationViewModel::Proofreading {
                    original_text: "This correct.".to_owned(),
                    corrected_text: "This is correct.".to_owned(),
                    explanation: "Added the missing verb.".to_owned(),
                },
            ),
        ]
    );
    let requests = proofreader.requests.lock().unwrap();
    assert_eq!(requests[0].text(), "This correct.");
    assert!(requests[0].policy().preserves_language());
    assert!(requests[0].policy().preserves_tone());
    assert!(requests[0].policy().preserves_whitespace());
    assert!(requests[0].policy().preserves_formatting());
    drop(requests);
    app.shutdown();
}

#[test]
fn cancelling_an_active_translation_returns_the_popup_to_idle() {
    let translator = RecordingNativeTranslator::new(vec!["Hello"]);
    let mut app = App::new(
        vec!["Hallo"],
        translator.clone(),
        RecordingProofreader::no_issues(),
        preferences(Arc::new(MemoryTranslationSettingsStore::default())),
    );
    app.hold_processing = true;

    app.press(TextAction::Translate);
    assert_eq!(app.held.len(), 1);
    assert!(app.cancel_active());
    app.release_held();

    assert_eq!(app.popup.len(), 2);
    assert_eq!(app.popup.last().unwrap().1, PresentationViewModel::Idle);
    assert!(!app
        .popup
        .iter()
        .any(|(_, state)| matches!(state, PresentationViewModel::Translation { .. })));
    assert!(translator.requests.lock().unwrap().is_empty());
}

#[test]
fn cancelling_proofreading_drops_the_pending_provider_request() {
    let proofreader = RecordingProofreader::no_issues();
    let mut app = App::new(
        vec!["This needs work."],
        RecordingNativeTranslator::new(vec![]),
        proofreader.clone(),
        preferences(Arc::new(MemoryTranslationSettingsStore::default())),
    );
    app.hold_processing = true;

    app.press(TextAction::Proofread);
    assert!(app.cancel_active());
    app.release_held();

    assert_eq!(app.popup.len(), 2);
    assert_eq!(app.popup.last().unwrap().1, PresentationViewModel::Idle);
    assert!(proofreader.requests.lock().unwrap().is_empty());
}

#[test]
fn shutdown_cancels_work_without_publishing_a_new_popup_state() {
    let translator = RecordingNativeTranslator::new(vec!["Hello"]);
    let mut app = App::new(
        vec!["Hallo"],
        translator.clone(),
        RecordingProofreader::no_issues(),
        preferences(Arc::new(MemoryTranslationSettingsStore::default())),
    );
    app.hold_processing = true;

    app.press(TextAction::Translate);
    app.shutdown();
    app.release_held();

    assert_eq!(
        app.popup,
        vec![(1, PresentationViewModel::Loading { action: PresentationAction::Translate })]
    );
    assert!(translator.requests.lock().unwrap().is_empty());
}

#[test]
fn a_different_overlapping_shortcut_replaces_the_active_workflow() {
    let translator = RecordingNativeTranslator::new(vec!["Hello"]);
    let proofreader = RecordingProofreader::corrected("This is right.", "Fixed grammar.");
    let mut app = App::new(
        vec!["Hallo", "This right."],
        translator,
        proofreader,
        preferences(Arc::new(MemoryTranslationSettingsStore::default())),
    );
    app.hold_processing = true;

    app.press(TextAction::Translate);
    app.press(TextAction::Proofread);
    app.release_held();

    assert_eq!(
        app.popup.last().unwrap().1,
        PresentationViewModel::Proofreading {
            original_text: "This right.".to_owned(),
            corrected_text: "This is right.".to_owned(),
            explanation: "Fixed grammar.".to_owned(),
        }
    );
    assert!(!app
        .popup
        .iter()
        .any(|(_, state)| matches!(state, PresentationViewModel::Translation { .. })));
    app.shutdown();
}

#[test]
fn shortcuts_still_drive_the_workflow_after_sleep_and_wake_registration() {
    let translator = RecordingNativeTranslator::new(vec!["Hello"]);
    let mut app = App::new(
        vec!["Hallo"],
        translator,
        RecordingProofreader::no_issues(),
        preferences(Arc::new(MemoryTranslationSettingsStore::default())),
    );

    app.registry.unregister_all().unwrap();
    let handler: Arc<dyn ShortcutEventHandler> = app.presses.clone();
    app.registry.register(&ShortcutConfiguration::default(), &handler).unwrap();
    app.press(TextAction::Translate);

    assert!(matches!(app.popup.last().unwrap().1, PresentationViewModel::Translation { .. }));
    assert_eq!(app.registry.registrations, 2);
    assert_eq!(app.registry.unregistrations, 1);
    app.shutdown();
}

#[test]
fn target_language_changes_apply_to_the_next_shortcut_without_restarting() {
    let translator = RecordingNativeTranslator::new(vec!["Hello", "Bonjour"]);
    let mut app = App::new(
        vec!["Hallo", "Hallo"],
        translator.clone(),
        RecordingProofreader::no_issues(),
        preferences(Arc::new(MemoryTranslationSettingsStore::default())),
    );

    app.press(TextAction::Translate);
    assert_eq!(app.popup.len(), 2);
    app.preferences.set_target_language(language("fr")).unwrap();
    app.press(TextAction::Translate);

    assert_eq!(app.popup.len(), 4);
    assert_eq!(
        translator
            .requests
            .lock()
            .unwrap()
            .iter()
            .map(|request| request.target_language_identifier.clone())
            .collect::<Vec<_>>(),
        vec!["en".to_owned(), "fr".to_owned()]
    );
    assert!(matches!(
        app.popup.last().unwrap().1,
        PresentationViewModel::Translation { ref language_pair, .. } if language_pair.target == "fr"
    ));
    app.shutdown();
}

#[test]
fn a_relaunched_workflow_loads_the_persisted_target_language() {
    let store = Arc::new(MemoryTranslationSettingsStore::default());
    let mut first_launch_preferences = preferences(store.clone());
    first_launch_preferences.set_target_language(language("fr")).unwrap();
    drop(first_launch_preferences);

    let translator = RecordingNativeTranslator::new(vec!["Bonjour"]);
    let mut app = App::new(
        vec!["Hallo"],
        translator.clone(),
        RecordingProofreader::no_issues(),
        preferences(store),
    );

    app.press(TextAction::Translate);

    assert_eq!(translator.requests.lock().unwrap()[0].target_language_identifier, "fr");
    assert!(matches!(
        app.popup.last().unwrap().1,
        PresentationViewModel::Translation { ref language_pair, .. } if language_pair.target == "fr"
    ));
    app.shutdown();
}
