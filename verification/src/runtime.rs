//! The decisions of the application runtime: its lifecycle across sleep, wake and
//! shutdown, the errors it reports to the native side, and the observers it reports to.
use vstd::prelude::*;

use crate::coordinator::{WorkflowMetrics, WorkflowMilestone};
use crate::preferences::TranslationPreferenceFailure;
use crate::translation::{LanguageIdentifier, is_language_tag, normalized_language_tag};
use crate::text::trimmed;
use crate::view_model::{PresentationAction, PresentationViewModel, presentation_action, spec_presentation_action};

verus! {

/// Where the runtime stands.
#[derive(Clone, Copy, Debug, PartialEq, Eq, Structural)]
pub enum ApplicationLifecycle {
    Running,
    Suspended,
    ShutDown,
}

/// What stopping the runtime asks of the workflow.
#[derive(Clone, Copy, Debug, PartialEq, Eq, Structural)]
pub enum StopPlan {
    /// Already stopped that way, or shut down: nothing to do.
    Nothing,
    /// Going to sleep: cancel the active request, showing idle, and unregister shortcuts.
    CancelAndUnregister,
    /// Shutting down: cancel the active request silently and unregister shortcuts.
    ShutdownAndUnregister,
}

/// What stopping towards `target` from `current` asks for; `target` is suspended or shut
/// down.
pub open spec fn spec_stop_plan(current: ApplicationLifecycle, target: ApplicationLifecycle) -> StopPlan {
    if current == ApplicationLifecycle::ShutDown || (current == ApplicationLifecycle::Suspended && target
        == ApplicationLifecycle::Suspended) {
        StopPlan::Nothing
    } else if target == ApplicationLifecycle::Suspended {
        StopPlan::CancelAndUnregister
    } else {
        StopPlan::ShutdownAndUnregister
    }
}

/// The lifecycle after stopping towards `target`: unchanged when there was nothing to do,
/// the target otherwise, even when unregistering failed.
pub open spec fn spec_after_stop(current: ApplicationLifecycle, target: ApplicationLifecycle) -> ApplicationLifecycle {
    if spec_stop_plan(current, target) == StopPlan::Nothing {
        current
    } else {
        target
    }
}

/// What resuming after wake asks for: nothing when running, a refusal when shut down, and
/// registering the shortcuts again when suspended.
#[derive(Clone, Copy, Debug, PartialEq, Eq, Structural)]
pub enum ResumePlan {
    AlreadyRunning,
    Refused,
    RegisterShortcuts,
}

/// What resuming from `current` asks for.
pub open spec fn spec_resume_plan(current: ApplicationLifecycle) -> ResumePlan {
    match current {
        ApplicationLifecycle::Running => ResumePlan::AlreadyRunning,
        ApplicationLifecycle::ShutDown => ResumePlan::Refused,
        ApplicationLifecycle::Suspended => ResumePlan::RegisterShortcuts,
    }
}

/// The lifecycle of the runtime.
pub struct RuntimeLifecycle {
    state: ApplicationLifecycle,
}

impl View for RuntimeLifecycle {
    type V = ApplicationLifecycle;

    closed spec fn view(&self) -> ApplicationLifecycle {
        self.state
    }
}

impl RuntimeLifecycle {
    /// A running runtime.
    pub fn new() -> (r: Self)
        ensures
            r@ == ApplicationLifecycle::Running,
    {
        RuntimeLifecycle { state: ApplicationLifecycle::Running }
    }

    pub fn state(&self) -> (r: ApplicationLifecycle)
        ensures
            r == self@,
    {
        self.state
    }

    /// What stopping towards `target` asks for.
    pub fn stop_plan(&self, target: ApplicationLifecycle) -> (r: StopPlan)
        ensures
            r == spec_stop_plan(self@, target),
    {
        if self.state == ApplicationLifecycle::ShutDown || (self.state == ApplicationLifecycle::Suspended && target
            == ApplicationLifecycle::Suspended) {
            StopPlan::Nothing
        } else if target == ApplicationLifecycle::Suspended {
            StopPlan::CancelAndUnregister
        } else {
            StopPlan::ShutdownAndUnregister
        }
    }

    /// Records that the runtime stopped towards `target`.
    pub fn stopped(&mut self, target: ApplicationLifecycle)
        ensures
            final(self)@ == spec_after_stop(old(self)@, target),
    {
        match self.stop_plan(target) {
            StopPlan::Nothing => {},
            _ => self.state = target,
        }
    }

    /// What resuming after wake asks for.
    pub fn resume_plan(&self) -> (r: ResumePlan)
        ensures
            r == spec_resume_plan(self@),
    {
        match self.state {
            ApplicationLifecycle::Running => ResumePlan::AlreadyRunning,
            ApplicationLifecycle::ShutDown => ResumePlan::Refused,
            ApplicationLifecycle::Suspended => ResumePlan::RegisterShortcuts,
        }
    }

    /// Records that the shortcuts were registered again after wake.
    pub fn resumed(&mut self)
        requires
            old(self)@ == ApplicationLifecycle::Suspended,
        ensures
            final(self)@ == ApplicationLifecycle::Running,
    {
        self.state = ApplicationLifecycle::Running;
    }
}

/// Once shut down, the runtime stays shut down: stopping does nothing and resuming is
/// refused.
pub proof fn law_shutdown_is_final(target: ApplicationLifecycle)
    ensures
        spec_stop_plan(ApplicationLifecycle::ShutDown, target) == StopPlan::Nothing,
        spec_after_stop(ApplicationLifecycle::ShutDown, target) == ApplicationLifecycle::ShutDown,
        spec_resume_plan(ApplicationLifecycle::ShutDown) == ResumePlan::Refused,
{
}

/// Going to sleep twice does the work once.
pub proof fn law_sleeping_twice_is_sleeping_once(current: ApplicationLifecycle)
    ensures
        ({
            let once = spec_after_stop(current, ApplicationLifecycle::Suspended);
            &&& spec_stop_plan(once, ApplicationLifecycle::Suspended) == StopPlan::Nothing
            &&& spec_after_stop(once, ApplicationLifecycle::Suspended) == once
        }),
{
}

/// Sleep followed by a successful wake brings a running runtime back to running.
pub proof fn law_wake_undoes_sleep()
    ensures
        spec_resume_plan(spec_after_stop(ApplicationLifecycle::Running, ApplicationLifecycle::Suspended))
            == ResumePlan::RegisterShortcuts,
{
}

/// Why the runtime could not start.
#[derive(Clone, Copy, Debug, PartialEq, Eq, Structural)]
pub enum ApplicationRuntimeError {
    ShortcutRegistrationFailed,
    SettingsUnavailable,
    ProofreadingUnavailable,
}

impl ApplicationRuntimeError {
    /// The text of the description.
    pub open spec fn spec_message(self) -> Seq<char> {
        match self {
            ApplicationRuntimeError::ShortcutRegistrationFailed => "shortcut registration failed"@,
            ApplicationRuntimeError::SettingsUnavailable => "settings unavailable"@,
            ApplicationRuntimeError::ProofreadingUnavailable => "proofreading unavailable"@,
        }
    }

    /// A short description of the error.
    pub fn message(&self) -> (r: &'static str)
        ensures
            r@ == self.spec_message(),
    {
        match self {
            ApplicationRuntimeError::ShortcutRegistrationFailed => "shortcut registration failed",
            ApplicationRuntimeError::SettingsUnavailable => "settings unavailable",
            ApplicationRuntimeError::ProofreadingUnavailable => "proofreading unavailable",
        }
    }
}

/// Why a lifecycle change failed.
#[derive(Clone, Copy, Debug, PartialEq, Eq, Structural)]
pub enum RuntimeLifecycleError {
    ShortcutRegistrationFailed,
    ShortcutUnregistrationFailed,
    ShutDown,
}

impl RuntimeLifecycleError {
    /// The text of the description.
    pub open spec fn spec_message(self) -> Seq<char> {
        match self {
            RuntimeLifecycleError::ShortcutRegistrationFailed => "shortcut registration failed after wake"@,
            RuntimeLifecycleError::ShortcutUnregistrationFailed => "shortcut unregistration failed"@,
            RuntimeLifecycleError::ShutDown => "application runtime is shut down"@,
        }
    }

    /// A short description of the error.
    pub fn message(&self) -> (r: &'static str)
        ensures
            r@ == self.spec_message(),
    {
        match self {
            RuntimeLifecycleError::ShortcutRegistrationFailed => "shortcut registration failed after wake",
            RuntimeLifecycleError::ShortcutUnregistrationFailed => "shortcut unregistration failed",
            RuntimeLifecycleError::ShutDown => "application runtime is shut down",
        }
    }
}

/// The proofreading acknowledgement could not be saved.
#[derive(Clone, Copy, Debug, PartialEq, Eq, Structural)]
pub enum ProofreadingDisclosureError {
    PersistenceFailed,
}

impl ProofreadingDisclosureError {
    pub fn message(&self) -> (r: &'static str)
        ensures
            r@ == "proofreading acknowledgement could not be saved"@,
    {
        "proofreading acknowledgement could not be saved"
    }
}

/// Why a target language preference was refused.
#[derive(Clone, Copy, Debug, PartialEq, Eq, Structural)]
pub enum TargetLanguagePreferenceError {
    InvalidIdentifier,
    NoSupportedTargets,
    UnsupportedTarget,
    PersistenceFailed,
}

impl TargetLanguagePreferenceError {
    /// The text of the description.
    pub open spec fn spec_message(self) -> Seq<char> {
        match self {
            TargetLanguagePreferenceError::InvalidIdentifier => "invalid language identifier"@,
            TargetLanguagePreferenceError::NoSupportedTargets => "no supported target languages"@,
            TargetLanguagePreferenceError::UnsupportedTarget => "unsupported target language"@,
            TargetLanguagePreferenceError::PersistenceFailed => "target language could not be saved"@,
        }
    }

    /// A short description of the error.
    pub fn message(&self) -> (r: &'static str)
        ensures
            r@ == self.spec_message(),
    {
        match self {
            TargetLanguagePreferenceError::InvalidIdentifier => "invalid language identifier",
            TargetLanguagePreferenceError::NoSupportedTargets => "no supported target languages",
            TargetLanguagePreferenceError::UnsupportedTarget => "unsupported target language",
            TargetLanguagePreferenceError::PersistenceFailed => "target language could not be saved",
        }
    }
}

/// The preference error for a refused preference change.
pub open spec fn spec_target_language_error(failure: TranslationPreferenceFailure) -> TargetLanguagePreferenceError {
    match failure {
        TranslationPreferenceFailure::NoSupportedTargets => TargetLanguagePreferenceError::NoSupportedTargets,
        TranslationPreferenceFailure::UnsupportedTarget => TargetLanguagePreferenceError::UnsupportedTarget,
        TranslationPreferenceFailure::PersistenceFailed => TargetLanguagePreferenceError::PersistenceFailed,
    }
}

impl From<TranslationPreferenceFailure> for TargetLanguagePreferenceError {
    fn from(failure: TranslationPreferenceFailure) -> (r: Self) {
        match failure {
            TranslationPreferenceFailure::NoSupportedTargets => TargetLanguagePreferenceError::NoSupportedTargets,
            TranslationPreferenceFailure::UnsupportedTarget => TargetLanguagePreferenceError::UnsupportedTarget,
            TranslationPreferenceFailure::PersistenceFailed => TargetLanguagePreferenceError::PersistenceFailed,
        }
    }
}

impl vstd::std_specs::convert::FromSpecImpl<TranslationPreferenceFailure> for TargetLanguagePreferenceError {
    open spec fn obeys_from_spec() -> bool {
        true
    }

    open spec fn from_spec(v: TranslationPreferenceFailure) -> Self {
        spec_target_language_error(v)
    }
}

/// The identifiers of a list of language names: all of them must be valid.
pub fn parse_target_languages(identifiers: &Vec<String>) -> (r: Result<Vec<LanguageIdentifier>, TargetLanguagePreferenceError>)
    ensures
        (forall|i: int| 0 <= i < identifiers@.len() ==> is_language_tag(trimmed(#[trigger] identifiers@[i]@)))
            ==> (r matches Ok(ids) && ids@.len() == identifiers@.len() && forall|i: int|
            0 <= i < ids@.len() ==> #[trigger] ids@[i]@ == normalized_language_tag(identifiers@[i]@)),
        !(forall|i: int| 0 <= i < identifiers@.len() ==> is_language_tag(trimmed(#[trigger] identifiers@[i]@))) ==> r
            == Err::<Vec<LanguageIdentifier>, TargetLanguagePreferenceError>(
            TargetLanguagePreferenceError::InvalidIdentifier,
        ),
{
    let mut result: Vec<LanguageIdentifier> = Vec::new();
    let mut i: usize = 0;
    while i < identifiers.len()
        invariant
            i <= identifiers.len(),
            result@.len() == i,
            forall|k: int| 0 <= k < i ==> is_language_tag(trimmed(#[trigger] identifiers@[k]@)),
            forall|k: int| 0 <= k < i ==> #[trigger] result@[k]@ == normalized_language_tag(identifiers@[k]@),
        decreases identifiers.len() - i,
    {
        match LanguageIdentifier::new(identifiers[i].as_str()) {
            Ok(id) => result.push(id),
            Err(_) => return Err(TargetLanguagePreferenceError::InvalidIdentifier),
        }
        i = i + 1;
    }
    Ok(result)
}

/// Receives popup states for the native popup.
pub trait PresentationObserver {
    fn present(&self, request_id: u64, presentation: PresentationViewModel);
}

/// Receives workflow milestones on the native side.
pub trait PerformanceObserver {
    fn request_started(&self, request_id: u64, action: PresentationAction);

    fn capture_completed(&self, request_id: u64);

    fn processing_completed(&self, request_id: u64);

    fn request_cancelled(&self, request_id: u64);
}

/// Passes workflow milestones on to a native observer.
pub struct ForeignWorkflowMetrics<O: ?Sized> {
    observer: std::sync::Arc<O>,
}

impl<O: PerformanceObserver + ?Sized> ForeignWorkflowMetrics<O> {
    /// The observer milestones are passed to.
    pub closed spec fn spec_observer(&self) -> std::sync::Arc<O> {
        self.observer
    }

    pub fn new(observer: std::sync::Arc<O>) -> (r: Self)
        ensures
            r.spec_observer() == observer,
    {
        ForeignWorkflowMetrics { observer }
    }
}

impl<O: PerformanceObserver + ?Sized> WorkflowMetrics for ForeignWorkflowMetrics<O> {
    fn record(&self, milestone: WorkflowMilestone) {
        match milestone {
            WorkflowMilestone::RequestStarted { request_id, action } => self.observer.request_started(
                request_id.value(),
                presentation_action(action),
            ),
            WorkflowMilestone::CaptureCompleted { request_id } => self.observer.capture_completed(request_id.value()),
            WorkflowMilestone::ProcessingCompleted { request_id } => self.observer.processing_completed(
                request_id.value(),
            ),
            WorkflowMilestone::RequestCancelled { request_id } => self.observer.request_cancelled(request_id.value()),
        }
    }
}

} // verus!
