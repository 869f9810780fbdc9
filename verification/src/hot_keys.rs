//! Registering the shortcuts as system-wide hot keys.
//!
//! A new configuration replaces the registered one as a whole; when the new one cannot be
//! registered, the previous one is registered again. Pressed hot keys reach the handler
//! only when they carry Verba's signature.
use vstd::prelude::*;

use std::sync::Arc;

use crate::keycodes::{
    EventHotKeyId, hot_key_action, hot_key_id, key_code, modifier_flags, spec_hot_key_action, spec_hot_key_id,
    spec_key_code, spec_modifier_flags,
};
use crate::presentation::TextAction;
use crate::shortcut::{Shortcut, ShortcutConfiguration, ShortcutEventHandler, ShortcutRegistry, ShortcutRegistryError};

verus! {

/// Carbon's status for a hot key that another application holds.
pub const EVENT_HOT_KEY_EXISTS: i32 = -9878;

/// Why the system refused a hot-key operation.
#[derive(Clone, Copy, Debug, PartialEq, Eq, Structural)]
pub enum SystemError {
    HotKeyExists,
    Failed,
}

/// The outcome of a Carbon status.
pub open spec fn spec_status_result(status: i32) -> Result<(), SystemError> {
    if status == 0 {
        Ok(())
    } else if status == EVENT_HOT_KEY_EXISTS {
        Err(SystemError::HotKeyExists)
    } else {
        Err(SystemError::Failed)
    }
}

/// The outcome of a Carbon status.
pub fn status_result(status: i32) -> (r: Result<(), SystemError>)
    ensures
        r == spec_status_result(status),
{
    if status == 0 {
        Ok(())
    } else if status == EVENT_HOT_KEY_EXISTS {
        Err(SystemError::HotKeyExists)
    } else {
        Err(SystemError::Failed)
    }
}

/// The system's hot-key service.
///
/// Each answer is one its `installs`, `removes`, `registers` and `unregisters` allow, for
/// the state the service was in when asked; a service that does not say otherwise may give
/// any answer.
pub trait HotKeySystem {
    type HotKeyRef: Copy;

    type EventHandlerRef: Copy;

    /// Whether `answer` may be what installing the event handler gives.
    open spec fn installs(&self, answer: Result<Self::EventHandlerRef, SystemError>) -> bool {
        true
    }

    fn install_event_handler(&mut self) -> (r: Result<Self::EventHandlerRef, SystemError>)
        ensures
            old(self).installs(r),
    ;

    /// Whether `answer` may be what removing the event handler `reference` gives.
    open spec fn removes(&self, reference: Self::EventHandlerRef, answer: Result<(), SystemError>) -> bool {
        true
    }

    fn remove_event_handler(&mut self, reference: Self::EventHandlerRef) -> (r: Result<(), SystemError>)
        ensures
            old(self).removes(reference, r),
    ;

    /// Whether `answer` may be what registering the hot key `key_code` with `modifiers`
    /// under `id` gives.
    open spec fn registers(
        &self,
        key_code: u32,
        modifiers: u32,
        id: EventHotKeyId,
        answer: Result<Self::HotKeyRef, SystemError>,
    ) -> bool {
        true
    }

    fn register_hot_key(&mut self, key_code: u32, modifiers: u32, id: EventHotKeyId) -> (r: Result<
        Self::HotKeyRef,
        SystemError,
    >)
        ensures
            old(self).registers(key_code, modifiers, id, r),
    ;

    /// Whether `answer` may be what unregistering the hot key `reference` gives.
    open spec fn unregisters(&self, reference: Self::HotKeyRef, answer: Result<(), SystemError>) -> bool {
        true
    }

    fn unregister_hot_key(&mut self, reference: Self::HotKeyRef) -> (r: Result<(), SystemError>)
        ensures
            old(self).unregisters(reference, r),
    ;

    /// Makes pressed hot keys reach `handler` from now on.
    fn set_handler(&mut self, handler: &Arc<dyn ShortcutEventHandler>);

    /// Makes pressed hot keys reach no handler.
    fn clear_handler(&mut self);
}

/// The Carbon modifier flags of a shortcut.
pub open spec fn shortcut_flags(shortcut: Shortcut) -> u32 {
    let m = shortcut.spec_modifiers();
    spec_modifier_flags(m.spec_command(), m.spec_control(), m.spec_option(), m.spec_shift())
}

/// Whether the system may have accepted the hot key of `action` in `configuration`.
pub open spec fn accepts_hot_key<S: HotKeySystem>(configuration: ShortcutConfiguration, action: TextAction) -> bool {
    let shortcut = configuration.spec_shortcut_for(action);
    spec_key_code(shortcut.spec_key()) matches Some(code) && exists|s: S, reference: S::HotKeyRef|
        #[trigger] s.registers(code, shortcut_flags(shortcut), spec_hot_key_id(action), Ok(reference))
}

/// Whether the hot key of `action` in `configuration` has no key code, or the system may
/// have refused it.
pub open spec fn refuses_hot_key<S: HotKeySystem>(configuration: ShortcutConfiguration, action: TextAction) -> bool {
    let shortcut = configuration.spec_shortcut_for(action);
    match spec_key_code(shortcut.spec_key()) {
        None => true,
        Some(code) => exists|s: S, error: SystemError|
            #[trigger] s.registers(code, shortcut_flags(shortcut), spec_hot_key_id(action), Err(error)),
    }
}

/// Whether the system may have accepted both hot keys of `configuration`.
pub open spec fn accepts_configuration<S: HotKeySystem>(configuration: ShortcutConfiguration) -> bool {
    accepts_hot_key::<S>(configuration, TextAction::Translate) && accepts_hot_key::<S>(
        configuration,
        TextAction::Proofread,
    )
}

/// Whether one of the hot keys of `configuration` could not be registered.
pub open spec fn refuses_configuration<S: HotKeySystem>(configuration: ShortcutConfiguration) -> bool {
    refuses_hot_key::<S>(configuration, TextAction::Translate) || refuses_hot_key::<S>(
        configuration,
        TextAction::Proofread,
    )
}

/// Whether the system may have refused to install the event handler.
pub open spec fn refuses_install<S: HotKeySystem>() -> bool {
    exists|s: S, error: SystemError| #[trigger] s.installs(Err(error))
}

/// Whether the system may have refused to release a hot key.
pub open spec fn refuses_unregistration<S: HotKeySystem>() -> bool {
    exists|s: S, reference: S::HotKeyRef, error: SystemError| #[trigger] s.unregisters(reference, Err(error))
}

/// Whether the system may have refused to remove an event handler.
pub open spec fn refuses_removal<S: HotKeySystem>() -> bool {
    exists|s: S, reference: S::EventHandlerRef, error: SystemError| #[trigger] s.removes(reference, Err(error))
}

/// Hands a pressed hot key to `handler` when it is one of Verba's; says whether it was
/// handled.
pub fn dispatch_hot_key<H: ShortcutEventHandler + ?Sized>(handler: Option<&H>, id: EventHotKeyId) -> (r: bool)
    ensures
        r <==> spec_hot_key_action(id) is Some && handler is Some,
{
    let action = match hot_key_action(id) {
        Some(action) => action,
        None => return false,
    };
    match handler {
        Some(handler) => {
            handler.on_shortcut(action);
            true
        },
        None => false,
    }
}

/// The hot keys registered for a configuration of shortcuts.
pub struct HotKeyRegistry<S: HotKeySystem> {
    pub system: S,
    has_handler: bool,
    event_handler_ref: Option<S::EventHandlerRef>,
    hot_key_refs: Vec<S::HotKeyRef>,
    configuration: Option<ShortcutConfiguration>,
}

impl<S: HotKeySystem> HotKeyRegistry<S> {
    /// The registered configuration, if any.
    pub closed spec fn spec_configuration(&self) -> Option<ShortcutConfiguration> {
        self.configuration
    }

    /// Whether a handler receives pressed hot keys.
    pub closed spec fn spec_has_handler(&self) -> bool {
        self.has_handler
    }

    /// Whether the system's event handler is installed.
    pub closed spec fn spec_event_handler_installed(&self) -> bool {
        self.event_handler_ref is Some
    }

    /// How many hot keys are registered.
    pub closed spec fn spec_hot_key_count(&self) -> nat {
        self.hot_key_refs@.len()
    }

    /// A registry with nothing registered.
    pub fn new(system: S) -> (r: Self)
        ensures
            r.spec_configuration() is None,
            !r.spec_has_handler(),
            !r.spec_event_handler_installed(),
            r.spec_hot_key_count() == 0,
    {
        HotKeyRegistry {
            system,
            has_handler: false,
            event_handler_ref: None,
            hot_key_refs: Vec::new(),
            configuration: None,
        }
    }

    /// The registered configuration, if any.
    pub fn configuration(&self) -> (r: Option<ShortcutConfiguration>)
        ensures
            r == self.spec_configuration(),
    {
        self.configuration
    }

    /// Installs the system's event handler once.
    fn ensure_event_handler(&mut self) -> (r: Result<(), ShortcutRegistryError>)
        ensures
            r is Ok ==> final(self).spec_event_handler_installed(),
            old(self).spec_event_handler_installed() ==> r is Ok,
            r is Err ==> r == Err::<(), ShortcutRegistryError>(ShortcutRegistryError::RegistrationFailed)
                && refuses_install::<S>(),
            final(self).spec_configuration() == old(self).spec_configuration(),
            final(self).spec_has_handler() == old(self).spec_has_handler(),
            final(self).spec_hot_key_count() == old(self).spec_hot_key_count(),
    {
        if self.event_handler_ref.is_some() {
            return Ok(());
        }
        let ghost before = self.system;
        match self.system.install_event_handler() {
            Ok(reference) => {
                self.event_handler_ref = Some(reference);
                Ok(())
            },
            Err(error) => {
                assert(before.installs(Err(error)));
                Err(ShortcutRegistryError::RegistrationFailed)
            },
        }
    }

    /// Unregisters hot keys, ignoring failures.
    fn cleanup_hot_keys(&mut self, references: Vec<S::HotKeyRef>)
        ensures
            final(self).spec_configuration() == old(self).spec_configuration(),
            final(self).spec_has_handler() == old(self).spec_has_handler(),
            final(self).spec_event_handler_installed() == old(self).spec_event_handler_installed(),
            final(self).spec_hot_key_count() == old(self).spec_hot_key_count(),
    {
        let mut i: usize = 0;
        while i < references.len()
            invariant
                i <= references.len(),
                self.spec_configuration() == old(self).spec_configuration(),
                self.spec_has_handler() == old(self).spec_has_handler(),
                self.spec_event_handler_installed() == old(self).spec_event_handler_installed(),
                self.spec_hot_key_count() == old(self).spec_hot_key_count(),
            decreases references.len() - i,
        {
            let _ = self.system.unregister_hot_key(references[i]);
            i = i + 1;
        }
    }

    /// Registers the hot keys of both actions; when one fails, those registered are
    /// unregistered again. A hot key another application holds names its shortcut.
    fn register_configuration(&mut self, configuration: ShortcutConfiguration) -> (r: Result<
        Vec<S::HotKeyRef>,
        ShortcutRegistryError,
    >)
        ensures
            r matches Ok(refs) ==> refs@.len() == 2 && accepts_configuration::<S>(configuration),
            r is Err ==> refuses_configuration::<S>(configuration),
            r matches Err(e) ==> (e == ShortcutRegistryError::RegistrationFailed || (e matches ShortcutRegistryError::ShortcutUnavailable {
                shortcut,
            } && (shortcut == configuration.spec_shortcut_for(TextAction::Translate) || shortcut
                == configuration.spec_shortcut_for(TextAction::Proofread)))),
            final(self).spec_configuration() == old(self).spec_configuration(),
            final(self).spec_has_handler() == old(self).spec_has_handler(),
            final(self).spec_event_handler_installed() == old(self).spec_event_handler_installed(),
            final(self).spec_hot_key_count() == old(self).spec_hot_key_count(),
    {
        let mut registered: Vec<S::HotKeyRef> = Vec::new();
        let mut round: usize = 0;
        while round < 2
            invariant
                round <= 2,
                registered@.len() == round,
                round >= 1 ==> accepts_hot_key::<S>(configuration, TextAction::Translate),
                round >= 2 ==> accepts_hot_key::<S>(configuration, TextAction::Proofread),
                self.spec_configuration() == old(self).spec_configuration(),
                self.spec_has_handler() == old(self).spec_has_handler(),
                self.spec_event_handler_installed() == old(self).spec_event_handler_installed(),
                self.spec_hot_key_count() == old(self).spec_hot_key_count(),
            decreases 2 - round,
        {
            let action = if round == 0 { TextAction::Translate } else { TextAction::Proofread };
            let shortcut = configuration.shortcut_for(action);
            let code = match key_code(shortcut.key()) {
                Some(code) => code,
                None => {
                    assert(refuses_hot_key::<S>(configuration, action));
                    self.cleanup_hot_keys(registered);
                    return Err(ShortcutRegistryError::RegistrationFailed);
                },
            };
            let flags = modifier_flags(shortcut.modifiers());
            let id = hot_key_id(action);
            assert(flags == shortcut_flags(shortcut));
            let ghost before = self.system;
            let answer = self.system.register_hot_key(code, flags, id);
            match answer {
                Ok(reference) => {
                    assert(before.registers(code, flags, id, Ok(reference)));
                    assert(accepts_hot_key::<S>(configuration, action));
                    registered.push(reference)
                },
                Err(error) => {
                    assert(before.registers(code, flags, id, Err(error)));
                    assert(refuses_hot_key::<S>(configuration, action));
                    self.cleanup_hot_keys(registered);
                    return match error {
                        SystemError::HotKeyExists => Err(ShortcutRegistryError::ShortcutUnavailable { shortcut }),
                        SystemError::Failed => Err(ShortcutRegistryError::RegistrationFailed),
                    };
                },
            }
            round = round + 1;
        }
        Ok(registered)
    }

    /// Unregisters every hot key; those the system refuses to release stay recorded.
    fn unregister_hot_keys(&mut self) -> (r: Result<(), ShortcutRegistryError>)
        ensures
            r is Ok ==> final(self).spec_hot_key_count() == 0,
            r is Err ==> r == Err::<(), ShortcutRegistryError>(ShortcutRegistryError::UnregistrationFailed)
                && refuses_unregistration::<S>(),
            old(self).spec_hot_key_count() == 0 ==> r is Ok,
            final(self).spec_configuration() == old(self).spec_configuration(),
            final(self).spec_has_handler() == old(self).spec_has_handler(),
            final(self).spec_event_handler_installed() == old(self).spec_event_handler_installed(),
    {
        let mut references: Vec<S::HotKeyRef> = Vec::new();
        std::mem::swap(&mut references, &mut self.hot_key_refs);
        let mut failed: Vec<S::HotKeyRef> = Vec::new();
        let mut i: usize = 0;
        while i < references.len()
            invariant
                i <= references.len(),
                references@.len() == old(self).spec_hot_key_count(),
                self.spec_configuration() == old(self).spec_configuration(),
                self.spec_has_handler() == old(self).spec_has_handler(),
                self.spec_event_handler_installed() == old(self).spec_event_handler_installed(),
                failed@.len() > 0 ==> refuses_unregistration::<S>(),
                failed@.len() <= i,
            decreases references.len() - i,
        {
            let reference = references[i];
            let ghost before = self.system;
            match self.system.unregister_hot_key(reference) {
                Ok(()) => {},
                Err(error) => {
                    assert(before.unregisters(reference, Err(error)));
                    failed.push(reference)
                },
            }
            i = i + 1;
        }
        let none_failed = failed.len() == 0;
        self.hot_key_refs = failed;
        if none_failed {
            Ok(())
        } else {
            Err(ShortcutRegistryError::UnregistrationFailed)
        }
    }

    /// Removes the system's event handler, if installed.
    fn remove_event_handler(&mut self) -> (r: Result<(), ShortcutRegistryError>)
        ensures
            r is Ok ==> !final(self).spec_event_handler_installed(),
            r is Err ==> r == Err::<(), ShortcutRegistryError>(ShortcutRegistryError::UnregistrationFailed)
                && refuses_removal::<S>(),
            !old(self).spec_event_handler_installed() ==> r is Ok,
            final(self).spec_configuration() == old(self).spec_configuration(),
            final(self).spec_has_handler() == old(self).spec_has_handler(),
            final(self).spec_hot_key_count() == old(self).spec_hot_key_count(),
    {
        let reference = match self.event_handler_ref {
            Some(reference) => reference,
            None => return Ok(()),
        };
        let ghost before = self.system;
        match self.system.remove_event_handler(reference) {
            Ok(()) => {
                self.event_handler_ref = None;
                Ok(())
            },
            Err(error) => {
                assert(before.removes(reference, Err(error)));
                Err(ShortcutRegistryError::UnregistrationFailed)
            },
        }
    }

}

impl<S: HotKeySystem> ShortcutRegistry for HotKeyRegistry<S> {
    /// Registering succeeds at once when the configuration is registered already and the
    /// event handler installed; a new configuration succeeds only when the system accepted
    /// both its hot keys; a failure comes from a refusal of the system.
    open spec fn registers_configuration(&self, shortcuts: ShortcutConfiguration, answer: Result<(), ShortcutRegistryError>) -> bool {
        &&& self.spec_event_handler_installed() && self.spec_configuration() == Some(shortcuts) ==> answer is Ok
        &&& answer is Ok && self.spec_configuration() != Some(shortcuts) ==> accepts_configuration::<S>(shortcuts)
        &&& answer is Err ==> refuses_install::<S>() || refuses_unregistration::<S>() || refuses_configuration::<S>(
            shortcuts,
        )
    }

    /// Unregistering succeeds when nothing is registered; a failure comes from a refusal of
    /// the system.
    open spec fn unregisters_all(&self, answer: Result<(), ShortcutRegistryError>) -> bool {
        &&& self.spec_hot_key_count() == 0 && !self.spec_event_handler_installed() ==> answer is Ok
        &&& answer is Err ==> refuses_unregistration::<S>() || refuses_removal::<S>()
    }

    /// Registers a configuration and its handler. The same configuration only changes the
    /// handler. A new one replaces the registered one; if it cannot be registered, the
    /// previous one is registered again, and if even that fails nothing stays registered
    /// and presses reach no handler.
    fn register(
        &mut self,
        shortcuts: &ShortcutConfiguration,
        event_handler: &Arc<dyn ShortcutEventHandler>,
    ) -> (r: Result<(), ShortcutRegistryError>)
        ensures
            r is Ok ==> final(self).spec_configuration() == Some(*shortcuts) && final(self).spec_has_handler()
                && final(self).spec_event_handler_installed(),
            r is Err ==> final(self).spec_configuration() == old(self).spec_configuration()
                || final(self).spec_configuration() is None,
            old(self).spec_event_handler_installed() && old(self).spec_configuration() == Some(*shortcuts) ==> r is Ok
                && final(self).spec_hot_key_count() == old(self).spec_hot_key_count(),
            r is Ok && old(self).spec_configuration() != Some(*shortcuts) ==> accepts_configuration::<S>(*shortcuts),
            r is Err ==> {
                ||| refuses_install::<S>() && final(self).spec_configuration() == old(self).spec_configuration()
                ||| refuses_unregistration::<S>() && final(self).spec_configuration() is None
                ||| refuses_configuration::<S>(*shortcuts) && match old(self).spec_configuration() {
                    Some(previous) => (final(self).spec_configuration() == Some(previous)
                        && final(self).spec_has_handler() == old(self).spec_has_handler()
                        && accepts_configuration::<S>(previous)) || (final(self).spec_configuration() is None
                        && !final(self).spec_has_handler() && refuses_configuration::<S>(previous)),
                    None => final(self).spec_configuration() is None,
                }
            },
    {
        match self.ensure_event_handler() {
            Ok(()) => {},
            Err(e) => return Err(e),
        }
        let same = match self.configuration {
            Some(current) => current == *shortcuts,
            None => false,
        };
        if same {
            self.system.set_handler(event_handler);
            self.has_handler = true;
            return Ok(());
        }
        let previous = self.configuration.take();
        match self.unregister_hot_keys() {
            Ok(()) => {},
            Err(e) => return Err(e),
        }
        match self.register_configuration(*shortcuts) {
            Ok(references) => {
                self.hot_key_refs = references;
                self.configuration = Some(*shortcuts);
                self.system.set_handler(event_handler);
                self.has_handler = true;
                Ok(())
            },
            Err(error) => {
                match previous {
                    Some(previous) => match self.register_configuration(previous) {
                        Ok(references) => {
                            self.hot_key_refs = references;
                            self.configuration = Some(previous);
                        },
                        Err(_) => {
                            self.hot_key_refs = Vec::new();
                            self.system.clear_handler();
                            self.has_handler = false;
                        },
                    },
                    None => {},
                }
                Err(error)
            },
        }
    }

    /// Unregisters every hot key, drops the handler and removes the system's event handler.
    fn unregister_all(&mut self) -> (r: Result<(), ShortcutRegistryError>)
        ensures
            final(self).spec_configuration() is None,
            r is Ok ==> !final(self).spec_has_handler() && !final(self).spec_event_handler_installed()
                && final(self).spec_hot_key_count() == 0,
            r is Err ==> refuses_unregistration::<S>() || refuses_removal::<S>(),
            old(self).spec_hot_key_count() == 0 && !old(self).spec_event_handler_installed() ==> r is Ok,
    {
        self.configuration = None;
        match self.unregister_hot_keys() {
            Ok(()) => {},
            Err(e) => return Err(e),
        }
        self.system.clear_handler();
        self.has_handler = false;
        self.remove_event_handler()
    }
}

} // verus!
