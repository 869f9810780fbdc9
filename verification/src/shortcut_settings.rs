//! Changing a shortcut from the settings window: reading the recorded key, showing
//! shortcuts, and replacing a shortcut so that the registration and the stored settings
//! stay in step.
use vstd::prelude::*;

use std::sync::Arc;

use crate::presentation::TextAction;
use crate::shortcut::{
    NamedShortcutKey, Shortcut, ShortcutConfiguration, ShortcutConfigurationError, ShortcutEventHandler, ShortcutKey,
    ShortcutKeyKind, ShortcutModifiers, ShortcutRegistry, ShortcutRegistryError, ShortcutSettingsStore,
    ShortcutSettingsStoreError,
    ShortcutValidationError, ascii_upper, is_acceptable_shortcut, is_function_number, is_reserved_shortcut,
    is_shortcut_character, other_action,
};
use crate::shortcut_text::{
    decimal_digits, decimal_string, law_stored_names_denote_their_keys, parse_named_key_in, parse_u8,
    spec_parse_named_key, spec_parse_u8,
};
use crate::text::{chars_of, push_char, string_from_chars};

verus! {

/// The action whose shortcut the settings change.
#[derive(Clone, Copy, Debug, PartialEq, Eq, Structural)]
pub enum ShortcutSettingsAction {
    Translate,
    Proofread,
}

/// The text action of a settings action.
pub open spec fn spec_settings_text_action(action: ShortcutSettingsAction) -> TextAction {
    match action {
        ShortcutSettingsAction::Translate => TextAction::Translate,
        ShortcutSettingsAction::Proofread => TextAction::Proofread,
    }
}

impl From<ShortcutSettingsAction> for TextAction {
    fn from(action: ShortcutSettingsAction) -> (r: Self) {
        match action {
            ShortcutSettingsAction::Translate => TextAction::Translate,
            ShortcutSettingsAction::Proofread => TextAction::Proofread,
        }
    }
}

impl vstd::std_specs::convert::FromSpecImpl<ShortcutSettingsAction> for TextAction {
    open spec fn obeys_from_spec() -> bool {
        true
    }

    open spec fn from_spec(v: ShortcutSettingsAction) -> Self {
        spec_settings_text_action(v)
    }
}

/// A shortcut as the settings window records it: the key's name and the modifiers held.
#[derive(Clone, Debug, PartialEq, Eq)]
pub struct ShortcutInput {
    pub key: String,
    pub command: bool,
    pub control: bool,
    pub option: bool,
    pub shift: bool,
}

/// Both shortcuts as the settings window shows them.
#[derive(Clone, Debug, PartialEq, Eq)]
pub struct ShortcutConfigurationViewModel {
    pub translate: String,
    pub proofread: String,
}

/// Why a shortcut could not be changed.
#[derive(Clone, Copy, Debug, PartialEq, Eq, Structural)]
pub enum ShortcutSettingsError {
    InvalidKey,
    MissingPrimaryModifier,
    ReservedShortcut,
    DuplicateShortcut,
    ShortcutUnavailable,
    RegistrationFailed,
    PersistenceFailed,
    RollbackFailed,
}

impl ShortcutSettingsError {
    /// The text of the description.
    pub open spec fn spec_message(self) -> Seq<char> {
        match self {
            ShortcutSettingsError::InvalidKey => "invalid shortcut key"@,
            ShortcutSettingsError::MissingPrimaryModifier => "shortcut requires Command, Control, or Option"@,
            ShortcutSettingsError::ReservedShortcut => "shortcut is reserved by macOS"@,
            ShortcutSettingsError::DuplicateShortcut => "shortcut is already assigned"@,
            ShortcutSettingsError::ShortcutUnavailable => "shortcut is already in use"@,
            ShortcutSettingsError::RegistrationFailed => "shortcut registration failed"@,
            ShortcutSettingsError::PersistenceFailed => "shortcut could not be saved"@,
            ShortcutSettingsError::RollbackFailed => "previous shortcut could not be restored"@,
        }
    }

    /// A short description of the error.
    pub fn message(&self) -> (r: &'static str)
        ensures
            r@ == self.spec_message(),
    {
        match self {
            ShortcutSettingsError::InvalidKey => "invalid shortcut key",
            ShortcutSettingsError::MissingPrimaryModifier => "shortcut requires Command, Control, or Option",
            ShortcutSettingsError::ReservedShortcut => "shortcut is reserved by macOS",
            ShortcutSettingsError::DuplicateShortcut => "shortcut is already assigned",
            ShortcutSettingsError::ShortcutUnavailable => "shortcut is already in use",
            ShortcutSettingsError::RegistrationFailed => "shortcut registration failed",
            ShortcutSettingsError::PersistenceFailed => "shortcut could not be saved",
            ShortcutSettingsError::RollbackFailed => "previous shortcut could not be restored",
        }
    }
}

/// The settings error for an invalid shortcut.
pub open spec fn spec_validation_settings_error(error: ShortcutValidationError) -> ShortcutSettingsError {
    match error {
        ShortcutValidationError::InvalidCharacter => ShortcutSettingsError::InvalidKey,
        ShortcutValidationError::InvalidFunctionKey => ShortcutSettingsError::InvalidKey,
        ShortcutValidationError::MissingPrimaryModifier => ShortcutSettingsError::MissingPrimaryModifier,
        ShortcutValidationError::ReservedShortcut => ShortcutSettingsError::ReservedShortcut,
    }
}

impl From<ShortcutValidationError> for ShortcutSettingsError {
    fn from(error: ShortcutValidationError) -> (r: Self) {
        match error {
            ShortcutValidationError::InvalidCharacter => ShortcutSettingsError::InvalidKey,
            ShortcutValidationError::InvalidFunctionKey => ShortcutSettingsError::InvalidKey,
            ShortcutValidationError::MissingPrimaryModifier => ShortcutSettingsError::MissingPrimaryModifier,
            ShortcutValidationError::ReservedShortcut => ShortcutSettingsError::ReservedShortcut,
        }
    }
}

impl vstd::std_specs::convert::FromSpecImpl<ShortcutValidationError> for ShortcutSettingsError {
    open spec fn obeys_from_spec() -> bool {
        true
    }

    open spec fn from_spec(v: ShortcutValidationError) -> Self {
        spec_validation_settings_error(v)
    }
}

/// The key a recorded name stands for: one character is a printed key, `F` and a number a
/// function key, and the stored names the named keys.
pub open spec fn spec_parse_key(name: Seq<char>) -> Result<ShortcutKeyKind, ShortcutSettingsError> {
    if name.len() == 1 {
        if is_shortcut_character(ascii_upper(name[0])) {
            Ok(ShortcutKeyKind::Character(ascii_upper(name[0])))
        } else {
            Err(ShortcutSettingsError::InvalidKey)
        }
    } else if name.len() > 0 && name[0] == 'F' {
        match spec_parse_u8(name.drop_first()) {
            Some(n) => if is_function_number(n) {
                Ok(ShortcutKeyKind::Function(n))
            } else {
                Err(ShortcutSettingsError::InvalidKey)
            },
            None => Err(ShortcutSettingsError::InvalidKey),
        }
    } else {
        match spec_parse_named_key(name) {
            Some(k) => Ok(ShortcutKeyKind::Named(k)),
            None => Err(ShortcutSettingsError::InvalidKey),
        }
    }
}

/// The settings window's key names denote the keys they name: a recorded name reads as
/// the Up Arrow key exactly when it is `arrow-up`, and so on for every named key.
pub proof fn law_key_names_denote_their_keys(name: Seq<char>)
    ensures
        (spec_parse_key(name) == Ok::<ShortcutKeyKind, ShortcutSettingsError>(ShortcutKeyKind::Named(NamedShortcutKey::Space))) == (name == "space"@),
        (spec_parse_key(name) == Ok::<ShortcutKeyKind, ShortcutSettingsError>(ShortcutKeyKind::Named(NamedShortcutKey::Return))) == (name == "return"@),
        (spec_parse_key(name) == Ok::<ShortcutKeyKind, ShortcutSettingsError>(ShortcutKeyKind::Named(NamedShortcutKey::Tab))) == (name == "tab"@),
        (spec_parse_key(name) == Ok::<ShortcutKeyKind, ShortcutSettingsError>(ShortcutKeyKind::Named(NamedShortcutKey::Escape))) == (name == "escape"@),
        (spec_parse_key(name) == Ok::<ShortcutKeyKind, ShortcutSettingsError>(ShortcutKeyKind::Named(NamedShortcutKey::Delete))) == (name == "delete"@),
        (spec_parse_key(name) == Ok::<ShortcutKeyKind, ShortcutSettingsError>(ShortcutKeyKind::Named(NamedShortcutKey::ArrowUp))) == (name == "arrow-up"@),
        (spec_parse_key(name) == Ok::<ShortcutKeyKind, ShortcutSettingsError>(ShortcutKeyKind::Named(NamedShortcutKey::ArrowDown))) == (name == "arrow-down"@),
        (spec_parse_key(name) == Ok::<ShortcutKeyKind, ShortcutSettingsError>(ShortcutKeyKind::Named(NamedShortcutKey::ArrowLeft))) == (name == "arrow-left"@),
        (spec_parse_key(name) == Ok::<ShortcutKeyKind, ShortcutSettingsError>(ShortcutKeyKind::Named(NamedShortcutKey::ArrowRight))) == (name == "arrow-right"@),
{
    law_stored_names_denote_their_keys(name, NamedShortcutKey::Space);
    reveal_strlit("space");
    reveal_strlit("return");
    reveal_strlit("tab");
    reveal_strlit("escape");
    reveal_strlit("delete");
    reveal_strlit("arrow-up");
    reveal_strlit("arrow-down");
    reveal_strlit("arrow-left");
    reveal_strlit("arrow-right");
}

/// The key a recorded name stands for.
pub fn parse_key(name: &str) -> (r: Result<ShortcutKey, ShortcutSettingsError>)
    ensures
        match spec_parse_key(name@) {
            Ok(kind) => r matches Ok(k) && k.kind() == kind,
            Err(e) => r == Err::<ShortcutKey, ShortcutSettingsError>(e),
        },
{
    let v = chars_of(name);
    if v.len() == 1 {
        return match ShortcutKey::character(v[0]) {
            Ok(k) => Ok(k),
            Err(_) => Err(ShortcutSettingsError::InvalidKey),
        };
    }
    if v.len() > 0 && v[0] == 'F' {
        proof {
            assert(v@.subrange(1, v@.len() as int) =~= name@.drop_first());
        }
        return match parse_u8(&v, 1, v.len()) {
            Some(n) => match ShortcutKey::function(n) {
                Ok(k) => Ok(k),
                Err(_) => Err(ShortcutSettingsError::InvalidKey),
            },
            None => Err(ShortcutSettingsError::InvalidKey),
        };
    }
    proof {
        assert(v@.subrange(0, v@.len() as int) =~= name@);
    }
    match parse_named_key_in(&v, 0, v.len()) {
        Some(named) => Ok(ShortcutKey::named(named)),
        None => Err(ShortcutSettingsError::InvalidKey),
    }
}

/// The shortcut a recorded input stands for, if the user may assign it.
pub open spec fn spec_shortcut_from_input(
    name: Seq<char>,
    modifiers: ShortcutModifiers,
) -> Result<(ShortcutKeyKind, ShortcutModifiers), ShortcutSettingsError> {
    match spec_parse_key(name) {
        Err(e) => Err(e),
        Ok(kind) => {
            let key = ShortcutKey::with_kind(kind);
            if !is_acceptable_shortcut(key, modifiers) {
                Err(ShortcutSettingsError::MissingPrimaryModifier)
            } else if is_reserved_shortcut(key, modifiers) {
                Err(ShortcutSettingsError::ReservedShortcut)
            } else {
                Ok((kind, modifiers))
            }
        },
    }
}

/// The shortcut a recorded input stands for, if the user may assign it.
pub fn shortcut_from_input(input: &ShortcutInput) -> (r: Result<Shortcut, ShortcutSettingsError>)
    ensures
        match spec_shortcut_from_input(
            input.key@,
            ShortcutModifiers::with_flags(input.command, input.control, input.option, input.shift),
        ) {
            Ok((kind, m)) => r matches Ok(s) && s.spec_key().kind() == kind && s.spec_modifiers() == m,
            Err(e) => r == Err::<Shortcut, ShortcutSettingsError>(e),
        },
{
    let key = parse_key(input.key.as_str())?;
    let modifiers = ShortcutModifiers::new(input.command, input.control, input.option, input.shift);
    proof {
        ShortcutModifiers::lemma_flags(input.command, input.control, input.option, input.shift, modifiers);
        ShortcutKey::lemma_kind(key.kind(), key);
    }
    match Shortcut::assignable(key, modifiers) {
        Ok(s) => Ok(s),
        Err(e) => Err(ShortcutSettingsError::from(e)),
    }
}

/// The display of a key.
pub open spec fn spec_key_display(kind: ShortcutKeyKind) -> Seq<char> {
    match kind {
        ShortcutKeyKind::Character(c) => seq![c],
        ShortcutKeyKind::Function(n) => seq!['F'] + decimal_digits(n as nat),
        ShortcutKeyKind::Named(k) => match k {
            NamedShortcutKey::Space => "Space"@,
            NamedShortcutKey::Return => "↩"@,
            NamedShortcutKey::Tab => "⇥"@,
            NamedShortcutKey::Escape => "Esc"@,
            NamedShortcutKey::Delete => "⌫"@,
            NamedShortcutKey::ArrowUp => "↑"@,
            NamedShortcutKey::ArrowDown => "↓"@,
            NamedShortcutKey::ArrowLeft => "←"@,
            NamedShortcutKey::ArrowRight => "→"@,
        },
    }
}

/// A modifier symbol when the modifier is held.
pub open spec fn symbol_if(held: bool, symbol: char) -> Seq<char> {
    if held {
        seq![symbol]
    } else {
        Seq::empty()
    }
}

/// How a shortcut is shown: Control, Option, Shift and Command symbols in that order, then
/// the key.
pub open spec fn spec_display_shortcut(shortcut: Shortcut) -> Seq<char> {
    let m = shortcut.spec_modifiers();
    symbol_if(m.spec_control(), '⌃') + symbol_if(m.spec_option(), '⌥') + symbol_if(m.spec_shift(), '⇧') + symbol_if(
        m.spec_command(),
        '⌘',
    ) + spec_key_display(shortcut.spec_key().kind())
}

fn push_symbol(v: &mut Vec<char>, held: bool, symbol: char)
    ensures
        final(v)@ == old(v)@ + symbol_if(held, symbol),
{
    if held {
        v.push(symbol);
        assert(old(v)@.push(symbol) =~= old(v)@ + seq![symbol]);
    } else {
        assert(old(v)@ + Seq::<char>::empty() =~= old(v)@);
    }
}

fn push_text(v: &mut Vec<char>, s: &str)
    ensures
        final(v)@ == old(v)@ + s@,
{
    let w = chars_of(s);
    let ghost start = v@;
    let mut i: usize = 0;
    while i < w.len()
        invariant
            i <= w.len(),
            w@ == s@,
            v@ == start + w@.take(i as int),
        decreases w.len() - i,
    {
        v.push(w[i]);
        proof {
            assert(start + w@.take(i + 1) =~= (start + w@.take(i as int)).push(w@[i as int]));
        }
        i = i + 1;
    }
    assert(w@.take(w@.len() as int) =~= w@);
}

/// How a shortcut is shown.
pub fn display_shortcut(shortcut: Shortcut) -> (r: String)
    ensures
        r@ == spec_display_shortcut(shortcut),
{
    let m = shortcut.modifiers();
    let key = shortcut.key();
    let mut v: Vec<char> = Vec::new();
    push_symbol(&mut v, m.control(), '⌃');
    push_symbol(&mut v, m.option(), '⌥');
    push_symbol(&mut v, m.shift(), '⇧');
    push_symbol(&mut v, m.command(), '⌘');
    let ghost prefix = v@;
    match key.character_value() {
        Some(c) => {
            v.push(c);
            assert(prefix.push(c) =~= prefix + seq![c]);
        },
        None => match key.function_number() {
            Some(n) => {
                v.push('F');
                let digits = decimal_string(n);
                let ghost before = v@;
                let mut i: usize = 0;
                while i < digits.len()
                    invariant
                        i <= digits.len(),
                        v@ == before + digits@.take(i as int),
                    decreases digits.len() - i,
                {
                    v.push(digits[i]);
                    proof {
                        assert(before + digits@.take(i + 1) =~= (before + digits@.take(i as int)).push(digits@[i as int]));
                    }
                    i = i + 1;
                }
                assert(digits@.take(digits@.len() as int) =~= digits@);
                assert(prefix.push('F') + digits@ =~= prefix + (seq!['F'] + digits@));
            },
            None => match key.named_value() {
                Some(named) => {
                    push_text(
                        &mut v,
                        match named {
                            NamedShortcutKey::Space => "Space",
                            NamedShortcutKey::Return => "↩",
                            NamedShortcutKey::Tab => "⇥",
                            NamedShortcutKey::Escape => "Esc",
                            NamedShortcutKey::Delete => "⌫",
                            NamedShortcutKey::ArrowUp => "↑",
                            NamedShortcutKey::ArrowDown => "↓",
                            NamedShortcutKey::ArrowLeft => "←",
                            NamedShortcutKey::ArrowRight => "→",
                        },
                    );
                },
                None => {},
            },
        },
    }
    proof {
        assert(v@ =~= spec_display_shortcut(shortcut));
    }
    string_from_chars(&v)
}

/// Both shortcuts as the settings window shows them.
pub fn configuration_view_model(configuration: ShortcutConfiguration) -> (r: ShortcutConfigurationViewModel)
    ensures
        r.translate@ == spec_display_shortcut(configuration.spec_shortcut_for(TextAction::Translate)),
        r.proofread@ == spec_display_shortcut(configuration.spec_shortcut_for(TextAction::Proofread)),
{
    ShortcutConfigurationViewModel {
        translate: display_shortcut(configuration.shortcut_for(TextAction::Translate)),
        proofread: display_shortcut(configuration.shortcut_for(TextAction::Proofread)),
    }
}

/// The configuration after replacing the shortcut of `action` by the recorded input; a
/// shortcut the other action holds is a duplicate.
pub fn replacement_configuration(
    current: ShortcutConfiguration,
    action: ShortcutSettingsAction,
    input: &ShortcutInput,
) -> (r: Result<ShortcutConfiguration, ShortcutSettingsError>)
    ensures
        ({
            let text_action = spec_settings_text_action(action);
            match spec_shortcut_from_input(
                input.key@,
                ShortcutModifiers::with_flags(input.command, input.control, input.option, input.shift),
            ) {
                Err(e) => r == Err::<ShortcutConfiguration, ShortcutSettingsError>(e),
                Ok((kind, m)) => {
                    let other = current.spec_shortcut_for(other_action(text_action));
                    if other.spec_key().kind() == kind && other.spec_modifiers() == m {
                        r == Err::<ShortcutConfiguration, ShortcutSettingsError>(
                            ShortcutSettingsError::DuplicateShortcut,
                        )
                    } else {
                        r matches Ok(c) && c.spec_shortcut_for(text_action).spec_key().kind() == kind
                            && c.spec_shortcut_for(text_action).spec_modifiers() == m && c.spec_shortcut_for(
                            other_action(text_action),
                        ) == other
                    }
                },
            }
        }),
{
    let shortcut = shortcut_from_input(input)?;
    let text_action = TextAction::from(action);
    proof {
        let other = current.spec_shortcut_for(other_action(text_action));
        Shortcut::lemma_parts(shortcut, other);
        ShortcutKey::lemma_kind(shortcut.spec_key().kind(), shortcut.spec_key());
        ShortcutKey::lemma_kind(other.spec_key().kind(), other.spec_key());
    }
    match current.with_shortcut(text_action, shortcut) {
        Ok(c) => Ok(c),
        Err(ShortcutConfigurationError::Collision { .. }) => Err(ShortcutSettingsError::DuplicateShortcut),
    }
}

/// The settings error for a registration failure.
pub open spec fn spec_registration_error(error: ShortcutRegistryError) -> ShortcutSettingsError {
    match error {
        ShortcutRegistryError::ShortcutUnavailable { .. } => ShortcutSettingsError::ShortcutUnavailable,
        _ => ShortcutSettingsError::RegistrationFailed,
    }
}

/// The settings error for a registration failure.
pub fn registration_error(error: ShortcutRegistryError) -> (r: ShortcutSettingsError)
    ensures
        r == spec_registration_error(error),
{
    match error {
        ShortcutRegistryError::ShortcutUnavailable { .. } => ShortcutSettingsError::ShortcutUnavailable,
        _ => ShortcutSettingsError::RegistrationFailed,
    }
}

/// Registers the replacement, then stores it; when it cannot be stored, the current
/// configuration is registered again and the failure reported (or the failed rollback).
pub fn register_and_save<R: ShortcutRegistry, S: ShortcutSettingsStore + ?Sized>(
    registry: &mut R,
    event_handler: &Arc<dyn ShortcutEventHandler>,
    store: &S,
    current: ShortcutConfiguration,
    replacement: ShortcutConfiguration,
) -> (r: Result<(), ShortcutSettingsError>)
    ensures
        r matches Err(e) ==> e == ShortcutSettingsError::ShortcutUnavailable || e
            == ShortcutSettingsError::RegistrationFailed || e == ShortcutSettingsError::PersistenceFailed || e
            == ShortcutSettingsError::RollbackFailed,
        exists|registered: Result<(), ShortcutRegistryError>|
            #[trigger] old(registry).registers_configuration(replacement, registered) && match registered {
                Err(e) => r == Err::<(), ShortcutSettingsError>(spec_registration_error(e)),
                Ok(_) => exists|saved: Result<(), ShortcutSettingsStoreError>|
                    #[trigger] store.saves(replacement, saved) && (saved is Ok ==> r is Ok) && (saved is Err
                        ==> rolled_back::<R>(current, r)),
            },
{
    let ghost before = *registry;
    let registered = registry.register(&replacement, event_handler);
    assert(before.registers_configuration(replacement, registered));
    match registered {
        Ok(()) => {},
        Err(e) => return Err(registration_error(e)),
    }
    let saved = store.save(&replacement);
    assert(store.saves(replacement, saved));
    match saved {
        Ok(()) => Ok(()),
        Err(_) => {
            let ghost middle = *registry;
            let rolled = registry.register(&current, event_handler);
            assert(middle.registers_configuration(current, rolled));
            match rolled {
                Ok(()) => Err(ShortcutSettingsError::PersistenceFailed),
                Err(_) => Err(ShortcutSettingsError::RollbackFailed),
            }
        },
    }
}

/// Whether `r` is what registering `current` again gives after a failed save: the
/// persistence failure when the registry took it back, a failed rollback otherwise.
pub open spec fn rolled_back<R: ShortcutRegistry>(current: ShortcutConfiguration, r: Result<(), ShortcutSettingsError>) -> bool {
    exists|registry: R, answer: Result<(), ShortcutRegistryError>|
        #[trigger] registry.registers_configuration(current, answer) && (answer is Ok ==> r == Err::<
            (),
            ShortcutSettingsError,
        >(ShortcutSettingsError::PersistenceFailed)) && (answer is Err ==> r == Err::<(), ShortcutSettingsError>(
            ShortcutSettingsError::RollbackFailed,
        ))
}

} // verus!
