//! Global keyboard shortcuts that trigger the text actions.
use vstd::prelude::*;

use std::sync::Arc;

use crate::presentation::TextAction;

verus! {

/// Keys that are named rather than printed.
#[derive(Clone, Copy, Debug, PartialEq, Eq, Hash, Structural)]
pub enum NamedShortcutKey {
    Space,
    Return,
    Tab,
    Escape,
    Delete,
    ArrowUp,
    ArrowDown,
    ArrowLeft,
    ArrowRight,
}

/// The three kinds of key a shortcut can use.
#[derive(Clone, Copy, Debug, PartialEq, Eq, Hash, Structural)]
pub enum ShortcutKeyKind {
    Character(char),
    Function(u8),
    Named(NamedShortcutKey),
}

/// A validated shortcut key.
#[derive(Clone, Copy, Debug, PartialEq, Eq, Hash, Structural)]
pub struct ShortcutKey(ShortcutKeyKind);

/// `char::to_ascii_uppercase`.
pub open spec fn ascii_upper(c: char) -> char {
    if 'a' <= c <= 'z' {
        ((c as u32) - 32) as char
    } else {
        c
    }
}

/// Printed keys a shortcut may use: upper-case letters, digits and US punctuation keys.
pub open spec fn is_shortcut_character(c: char) -> bool {
    ||| 'A' <= c <= 'Z'
    ||| '0' <= c <= '9'
    ||| c == '-'
    ||| c == '='
    ||| c == '['
    ||| c == ']'
    ||| c == ';'
    ||| c == '\''
    ||| c == '\\'
    ||| c == ','
    ||| c == '.'
    ||| c == '/'
    ||| c == '`'
}

/// Function keys F1 to F20.
pub open spec fn is_function_number(n: u8) -> bool {
    1 <= n <= 20
}

/// `char::to_ascii_uppercase`.
pub fn to_ascii_upper(c: char) -> (r: char)
    ensures
        r == ascii_upper(c),
{
    if 'a' <= c && c <= 'z' {
        let v = (c as u32) - 32;
        proof {
            assert(v == (c as u32) - 32);
        }
        let r = char_from_ascii(v);
        r
    } else {
        c
    }
}

/// Converts an ASCII code point back to its character.
fn char_from_ascii(v: u32) -> (r: char)
    requires
        v < 128,
    ensures
        r == v as char,
{
    (v as u8) as char
}

impl ShortcutKey {
    pub closed spec fn kind(self) -> ShortcutKeyKind {
        self.0
    }

    /// The key of a kind.
    pub closed spec fn with_kind(kind: ShortcutKeyKind) -> ShortcutKey {
        ShortcutKey(kind)
    }

    /// A key is its kind.
    pub proof fn lemma_kind(kind: ShortcutKeyKind, key: ShortcutKey)
        ensures
            ShortcutKey::with_kind(kind).kind() == kind,
            key.kind() == kind ==> key == ShortcutKey::with_kind(kind),
    {
    }

    /// Keys as a caller can build them: characters are valid and upper case, function numbers in range.
    pub open spec fn is_valid(self) -> bool {
        match self.kind() {
            ShortcutKeyKind::Character(c) => is_shortcut_character(c),
            ShortcutKeyKind::Function(n) => is_function_number(n),
            ShortcutKeyKind::Named(_) => true,
        }
    }

    /// A printed key; lower-case letters are normalized to upper case.
    pub fn character(character: char) -> (r: Result<Self, ShortcutValidationError>)
        ensures
            is_shortcut_character(ascii_upper(character)) ==> (r matches Ok(k) && k.kind() == ShortcutKeyKind::Character(ascii_upper(character))),
            !is_shortcut_character(ascii_upper(character)) ==> r == Err::<Self, ShortcutValidationError>(
                ShortcutValidationError::InvalidCharacter,
            ),
    {
        let c = to_ascii_upper(character);
        let valid = ('A' <= c && c <= 'Z') || ('0' <= c && c <= '9') || c == '-' || c == '='
            || c == '[' || c == ']' || c == ';' || c == '\'' || c == '\\' || c == ',' || c == '.'
            || c == '/' || c == '`';
        if !valid {
            return Err(ShortcutValidationError::InvalidCharacter);
        }
        Ok(ShortcutKey(ShortcutKeyKind::Character(c)))
    }

    /// A function key F1 to F20.
    pub fn function(number: u8) -> (r: Result<Self, ShortcutValidationError>)
        ensures
            is_function_number(number) ==> (r matches Ok(k) && k.kind() == ShortcutKeyKind::Function(number)),
            !is_function_number(number) ==> r == Err::<Self, ShortcutValidationError>(
                ShortcutValidationError::InvalidFunctionKey,
            ),
    {
        if number < 1 || number > 20 {
            return Err(ShortcutValidationError::InvalidFunctionKey);
        }
        Ok(ShortcutKey(ShortcutKeyKind::Function(number)))
    }

    pub fn named(key: NamedShortcutKey) -> (r: Self)
        ensures
            r.kind() == ShortcutKeyKind::Named(key),
    {
        ShortcutKey(ShortcutKeyKind::Named(key))
    }

    pub fn character_value(self) -> (r: Option<char>)
        ensures
            r == (match self.kind() {
                ShortcutKeyKind::Character(c) => Some(c),
                _ => None::<char>,
            }),
    {
        match self.0 {
            ShortcutKeyKind::Character(c) => Some(c),
            _ => None,
        }
    }

    pub fn function_number(self) -> (r: Option<u8>)
        ensures
            r == (match self.kind() {
                ShortcutKeyKind::Function(n) => Some(n),
                _ => None::<u8>,
            }),
    {
        match self.0 {
            ShortcutKeyKind::Function(n) => Some(n),
            _ => None,
        }
    }

    pub fn named_value(self) -> (r: Option<NamedShortcutKey>)
        ensures
            r == (match self.kind() {
                ShortcutKeyKind::Named(k) => Some(k),
                _ => None::<NamedShortcutKey>,
            }),
    {
        match self.0 {
            ShortcutKeyKind::Named(k) => Some(k),
            _ => None,
        }
    }

    fn is_function(self) -> (r: bool)
        ensures
            r == (self.kind() is Function),
    {
        match self.0 {
            ShortcutKeyKind::Function(_) => true,
            _ => false,
        }
    }
}

/// Modifier keys held with a shortcut.
#[derive(Clone, Copy, Debug, Default, PartialEq, Eq, Hash, Structural)]
pub struct ShortcutModifiers {
    command: bool,
    control: bool,
    option: bool,
    shift: bool,
}

impl ShortcutModifiers {
    pub closed spec fn spec_command(self) -> bool {
        self.command
    }

    pub closed spec fn spec_control(self) -> bool {
        self.control
    }

    pub closed spec fn spec_option(self) -> bool {
        self.option
    }

    pub closed spec fn spec_shift(self) -> bool {
        self.shift
    }

    /// The modifiers with these keys held.
    pub closed spec fn with_flags(command: bool, control: bool, option: bool, shift: bool) -> ShortcutModifiers {
        ShortcutModifiers { command, control, option, shift }
    }

    /// Modifiers are the keys they hold.
    pub proof fn lemma_flags(command: bool, control: bool, option: bool, shift: bool, m: ShortcutModifiers)
        ensures
            ShortcutModifiers::with_flags(command, control, option, shift).spec_command() == command,
            ShortcutModifiers::with_flags(command, control, option, shift).spec_control() == control,
            ShortcutModifiers::with_flags(command, control, option, shift).spec_option() == option,
            ShortcutModifiers::with_flags(command, control, option, shift).spec_shift() == shift,
            m == ShortcutModifiers::with_flags(m.spec_command(), m.spec_control(), m.spec_option(), m.spec_shift()),
    {
    }

    /// Command, Control or Option: shift alone does not make a global shortcut.
    pub open spec fn spec_has_primary_modifier(self) -> bool {
        self.spec_command() || self.spec_control() || self.spec_option()
    }

    pub fn new(command: bool, control: bool, option: bool, shift: bool) -> (r: Self)
        ensures
            r.spec_command() == command,
            r.spec_control() == control,
            r.spec_option() == option,
            r.spec_shift() == shift,
    {
        ShortcutModifiers { command, control, option, shift }
    }

    /// No modifier held (`ShortcutModifiers::default()`).
    pub fn none() -> (r: Self)
        ensures
            !r.spec_command() && !r.spec_control() && !r.spec_option() && !r.spec_shift(),
    {
        ShortcutModifiers { command: false, control: false, option: false, shift: false }
    }

    pub fn command(self) -> (r: bool)
        ensures
            r == self.spec_command(),
    {
        self.command
    }

    pub fn control(self) -> (r: bool)
        ensures
            r == self.spec_control(),
    {
        self.control
    }

    pub fn option(self) -> (r: bool)
        ensures
            r == self.spec_option(),
    {
        self.option
    }

    pub fn shift(self) -> (r: bool)
        ensures
            r == self.spec_shift(),
    {
        self.shift
    }

    fn has_primary_modifier(self) -> (r: bool)
        ensures
            r == self.spec_has_primary_modifier(),
    {
        self.command || self.control || self.option
    }
}

/// A key together with its modifiers.
#[derive(Clone, Copy, Debug, PartialEq, Eq, Hash, Structural)]
pub struct Shortcut {
    key: ShortcutKey,
    modifiers: ShortcutModifiers,
}

/// A shortcut is acceptable when its key is a function key or a primary modifier is held.
pub open spec fn is_acceptable_shortcut(key: ShortcutKey, modifiers: ShortcutModifiers) -> bool {
    key.kind() is Function || modifiers.spec_has_primary_modifier()
}

/// Shortcuts the system keeps for itself: Command (with or without Shift) and Space, Tab or Q.
pub open spec fn is_reserved_shortcut(key: ShortcutKey, modifiers: ShortcutModifiers) -> bool {
    &&& modifiers.spec_command()
    &&& !modifiers.spec_control()
    &&& !modifiers.spec_option()
    &&& (key.kind() == ShortcutKeyKind::Named(NamedShortcutKey::Space) || key.kind()
        == ShortcutKeyKind::Named(NamedShortcutKey::Tab) || key.kind()
        == ShortcutKeyKind::Character('Q'))
}

impl Shortcut {
    pub closed spec fn spec_key(self) -> ShortcutKey {
        self.key
    }

    pub closed spec fn spec_modifiers(self) -> ShortcutModifiers {
        self.modifiers
    }

    /// A shortcut is its key and its modifiers.
    pub proof fn lemma_parts(a: Shortcut, b: Shortcut)
        ensures
            (a == b) <==> (a.spec_key() == b.spec_key() && a.spec_modifiers() == b.spec_modifiers()),
    {
    }

    /// Ordinary keys need Command, Control or Option; function keys may stand alone.
    pub fn new(key: ShortcutKey, modifiers: ShortcutModifiers) -> (r: Result<
        Self,
        ShortcutValidationError,
    >)
        ensures
            is_acceptable_shortcut(key, modifiers) ==> (r matches Ok(sc) && sc.spec_key() == key && sc.spec_modifiers() == modifiers),
            !is_acceptable_shortcut(key, modifiers) ==> r == Err::<Self, ShortcutValidationError>(
                ShortcutValidationError::MissingPrimaryModifier,
            ),
    {
        if !key.is_function() && !modifiers.has_primary_modifier() {
            return Err(ShortcutValidationError::MissingPrimaryModifier);
        }
        Ok(Shortcut { key, modifiers })
    }

    /// A shortcut the user may assign: acceptable, and not one the system reserves.
    pub fn assignable(key: ShortcutKey, modifiers: ShortcutModifiers) -> (r: Result<
        Self,
        ShortcutValidationError,
    >)
        ensures
            !is_acceptable_shortcut(key, modifiers) ==> r == Err::<Self, ShortcutValidationError>(
                ShortcutValidationError::MissingPrimaryModifier,
            ),
            is_acceptable_shortcut(key, modifiers) && is_reserved_shortcut(key, modifiers) ==> r
                == Err::<Self, ShortcutValidationError>(ShortcutValidationError::ReservedShortcut),
            is_acceptable_shortcut(key, modifiers) && !is_reserved_shortcut(key, modifiers) ==> (r matches Ok(sc) && sc.spec_key() == key && sc.spec_modifiers() == modifiers),
    {
        let shortcut = Shortcut::new(key, modifiers)?;
        if shortcut.is_reserved() {
            return Err(ShortcutValidationError::ReservedShortcut);
        }
        Ok(shortcut)
    }

    /// Whether the system keeps this shortcut for itself.
    pub fn is_reserved(self) -> (r: bool)
        ensures
            r == is_reserved_shortcut(self.spec_key(), self.spec_modifiers()),
    {
        let m = self.modifiers;
        m.command && !m.control && !m.option && (self.key == ShortcutKey(
            ShortcutKeyKind::Named(NamedShortcutKey::Space),
        ) || self.key == ShortcutKey(ShortcutKeyKind::Named(NamedShortcutKey::Tab)) || self.key
            == ShortcutKey(ShortcutKeyKind::Character('Q')))
    }

    pub fn key(self) -> (r: ShortcutKey)
        ensures
            r == self.spec_key(),
    {
        self.key
    }

    pub fn modifiers(self) -> (r: ShortcutModifiers)
        ensures
            r == self.spec_modifiers(),
    {
        self.modifiers
    }
}

/// Exactly Control and Option held.
pub open spec fn is_control_option(m: ShortcutModifiers) -> bool {
    !m.spec_command() && m.spec_control() && m.spec_option() && !m.spec_shift()
}

/// Control-Option-T.
pub fn default_translate_shortcut() -> (r: Shortcut)
    ensures
        r.spec_key().kind() == ShortcutKeyKind::Character('T'),
        is_control_option(r.spec_modifiers()),
{
    Shortcut {
        key: ShortcutKey(ShortcutKeyKind::Character('T')),
        modifiers: ShortcutModifiers { command: false, control: true, option: true, shift: false },
    }
}

/// Control-Option-P.
pub fn default_proofread_shortcut() -> (r: Shortcut)
    ensures
        r.spec_key().kind() == ShortcutKeyKind::Character('P'),
        is_control_option(r.spec_modifiers()),
{
    Shortcut {
        key: ShortcutKey(ShortcutKeyKind::Character('P')),
        modifiers: ShortcutModifiers { command: false, control: true, option: true, shift: false },
    }
}

/// Why a key or shortcut was rejected.
#[derive(Clone, Copy, Debug, PartialEq, Eq, Structural)]
pub enum ShortcutValidationError {
    InvalidCharacter,
    InvalidFunctionKey,
    MissingPrimaryModifier,
    ReservedShortcut,
}

/// The text action that is not `action`.
pub open spec fn other_action(action: TextAction) -> TextAction {
    match action {
        TextAction::Translate => TextAction::Proofread,
        TextAction::Proofread => TextAction::Translate,
    }
}

/// Distinct shortcuts for the two text actions.
#[derive(Clone, Copy, Debug, PartialEq, Eq, Structural)]
pub struct ShortcutConfiguration {
    translate: Shortcut,
    proofread: Shortcut,
}

impl ShortcutConfiguration {
    #[verifier::type_invariant]
    closed spec fn inv(self) -> bool {
        self.translate != self.proofread
    }

    /// The shortcut assigned to an action.
    pub closed spec fn spec_shortcut_for(self, action: TextAction) -> Shortcut {
        match action {
            TextAction::Translate => self.translate,
            TextAction::Proofread => self.proofread,
        }
    }

    /// Two actions never share a shortcut.
    pub fn new(translate: Shortcut, proofread: Shortcut) -> (r: Result<
        Self,
        ShortcutConfigurationError,
    >)
        ensures
            translate == proofread ==> r == Err::<Self, ShortcutConfigurationError>(
                ShortcutConfigurationError::Collision { shortcut: translate },
            ),
            translate != proofread ==> (r matches Ok(c) && c.spec_shortcut_for(TextAction::Translate)
                == translate && c.spec_shortcut_for(TextAction::Proofread) == proofread),
    {
        if translate == proofread {
            return Err(ShortcutConfigurationError::Collision { shortcut: translate });
        }
        Ok(ShortcutConfiguration { translate, proofread })
    }

    /// The shortcut of an action, which is never the other action's shortcut.
    pub fn shortcut_for(self, action: TextAction) -> (r: Shortcut)
        ensures
            r == self.spec_shortcut_for(action),
            r != self.spec_shortcut_for(other_action(action)),
    {
        proof {
            use_type_invariant(self);
        }
        match action {
            TextAction::Translate => self.translate,
            TextAction::Proofread => self.proofread,
        }
    }

    /// Replaces one action's shortcut, refusing a collision with the other action.
    pub fn with_shortcut(self, action: TextAction, shortcut: Shortcut) -> (r: Result<
        Self,
        ShortcutConfigurationError,
    >)
        ensures
            ({
                let other = other_action(action);
                &&& shortcut == self.spec_shortcut_for(other) ==> r == Err::<
                    Self,
                    ShortcutConfigurationError,
                >(ShortcutConfigurationError::Collision {
                    shortcut: match action {
                        TextAction::Translate => shortcut,
                        TextAction::Proofread => self.spec_shortcut_for(TextAction::Translate),
                    },
                })
                &&& shortcut != self.spec_shortcut_for(other) ==> (r matches Ok(c)
                    && c.spec_shortcut_for(action) == shortcut && c.spec_shortcut_for(other)
                    == self.spec_shortcut_for(other))
            }),
    {
        match action {
            TextAction::Translate => ShortcutConfiguration::new(shortcut, self.proofread),
            TextAction::Proofread => ShortcutConfiguration::new(self.translate, shortcut),
        }
    }

    /// Control-Option-T to translate and Control-Option-P to proofread.
    pub fn default_configuration() -> (r: Self)
        ensures
            r.spec_shortcut_for(TextAction::Translate).spec_key().kind() == ShortcutKeyKind::Character('T'),
            r.spec_shortcut_for(TextAction::Proofread).spec_key().kind() == ShortcutKeyKind::Character('P'),
            is_control_option(r.spec_shortcut_for(TextAction::Translate).spec_modifiers()),
            is_control_option(r.spec_shortcut_for(TextAction::Proofread).spec_modifiers()),
    {
        ShortcutConfiguration {
            translate: default_translate_shortcut(),
            proofread: default_proofread_shortcut(),
        }
    }
}

impl Default for ShortcutConfiguration {
    /// Control-Option-T to translate and Control-Option-P to proofread.
    fn default() -> (r: Self)
        ensures
            r.spec_shortcut_for(TextAction::Translate).spec_key().kind() == ShortcutKeyKind::Character('T'),
            r.spec_shortcut_for(TextAction::Proofread).spec_key().kind() == ShortcutKeyKind::Character('P'),
            is_control_option(r.spec_shortcut_for(TextAction::Translate).spec_modifiers()),
            is_control_option(r.spec_shortcut_for(TextAction::Proofread).spec_modifiers()),
    {
        ShortcutConfiguration::default_configuration()
    }
}

/// Two shortcuts collided in a configuration.
#[derive(Clone, Copy, Debug, PartialEq, Eq, Structural)]
pub enum ShortcutConfigurationError {
    Collision { shortcut: Shortcut },
}

/// Receives shortcut presses.
pub trait ShortcutEventHandler {
    fn on_shortcut(&self, action: TextAction);
}

/// Registers a configuration of global shortcuts with the system.
///
/// Each answer is one its `registers_configuration` and `unregisters_all` allow, for the
/// state the registry was in when asked; a registry that does not say otherwise may give
/// any answer.
pub trait ShortcutRegistry {
    /// Whether `answer` may be what registering `shortcuts` gives.
    open spec fn registers_configuration(&self, shortcuts: ShortcutConfiguration, answer: Result<(), ShortcutRegistryError>) -> bool {
        true
    }

    fn register(
        &mut self,
        shortcuts: &ShortcutConfiguration,
        event_handler: &Arc<dyn ShortcutEventHandler>,
    ) -> (r: Result<(), ShortcutRegistryError>)
        ensures
            old(self).registers_configuration(*shortcuts, r),
    ;

    /// Whether `answer` may be what unregistering everything gives.
    open spec fn unregisters_all(&self, answer: Result<(), ShortcutRegistryError>) -> bool {
        true
    }

    fn unregister_all(&mut self) -> (r: Result<(), ShortcutRegistryError>)
        ensures
            old(self).unregisters_all(r),
    ;
}

/// Why the system refused to register or unregister shortcuts.
#[derive(Clone, Copy, Debug, PartialEq, Eq, Structural)]
pub enum ShortcutRegistryError {
    ShortcutUnavailable { shortcut: Shortcut },
    RegistrationFailed,
    UnregistrationFailed,
}

/// Persisting the shortcut configuration failed.
#[derive(Clone, Copy, Debug, PartialEq, Eq, Structural)]
pub struct ShortcutSettingsStoreError;

/// Where the chosen shortcuts are kept between launches.
///
/// Each answer is one its `loads` and `saves` allow; a store that does not say otherwise
/// may give any answer.
pub trait ShortcutSettingsStore {
    /// Whether `answer` may be what loading the shortcuts gives.
    open spec fn loads(&self, answer: Result<Option<ShortcutConfiguration>, ShortcutSettingsStoreError>) -> bool {
        true
    }

    fn load(&self) -> (r: Result<Option<ShortcutConfiguration>, ShortcutSettingsStoreError>)
        ensures
            self.loads(r),
    ;

    /// Whether `answer` may be what saving `configuration` gives.
    open spec fn saves(&self, configuration: ShortcutConfiguration, answer: Result<(), ShortcutSettingsStoreError>) -> bool {
        true
    }

    fn save(&self, configuration: &ShortcutConfiguration) -> (r: Result<(), ShortcutSettingsStoreError>)
        ensures
            self.saves(*configuration, r),
    ;
}

} // verus!
