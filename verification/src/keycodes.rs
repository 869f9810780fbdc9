//! Carbon hot-key values for shortcuts: virtual key codes, modifier flags and the
//! identifiers under which the two text actions are registered.
use vstd::prelude::*;

use crate::presentation::TextAction;
use crate::shortcut::{NamedShortcutKey, ShortcutKey, ShortcutKeyKind, ShortcutModifiers};

verus! {

/// Carbon's `cmdKey` modifier flag.
pub const COMMAND_KEY: u32 = 0x100;

/// Carbon's `shiftKey` modifier flag.
pub const SHIFT_KEY: u32 = 0x200;

/// Carbon's `optionKey` modifier flag.
pub const OPTION_KEY: u32 = 0x800;

/// Carbon's `controlKey` modifier flag.
pub const CONTROL_KEY: u32 = 0x1000;

/// The four-character signature `Vrba` that marks Verba's hot keys.
pub const HOT_KEY_SIGNATURE: u32 = 0x5672_6261;

/// The hot-key number of the translate action.
pub const TRANSLATE_HOT_KEY_ID: u32 = 1;

/// The hot-key number of the proofread action.
pub const PROOFREAD_HOT_KEY_ID: u32 = 2;

/// The identifier Carbon reports for a pressed hot key.
#[derive(Clone, Copy, Debug, PartialEq, Eq, Structural)]
pub struct EventHotKeyId {
    pub signature: u32,
    pub id: u32,
}

/// The Carbon modifier flags of `modifiers`.
pub open spec fn spec_modifier_flags(command: bool, control: bool, option: bool, shift: bool) -> u32 {
    (if command { COMMAND_KEY } else { 0u32 }) | (if control { CONTROL_KEY } else { 0u32 }) | (if option {
        OPTION_KEY
    } else {
        0u32
    }) | (if shift { SHIFT_KEY } else { 0u32 })
}

/// The Carbon modifier flags of a shortcut's modifiers.
pub fn modifier_flags(modifiers: ShortcutModifiers) -> (r: u32)
    ensures
        r == spec_modifier_flags(
            modifiers.spec_command(),
            modifiers.spec_control(),
            modifiers.spec_option(),
            modifiers.spec_shift(),
        ),
{
    let command: u32 = if modifiers.command() { COMMAND_KEY } else { 0 };
    let control: u32 = if modifiers.control() { CONTROL_KEY } else { 0 };
    let option: u32 = if modifiers.option() { OPTION_KEY } else { 0 };
    let shift: u32 = if modifiers.shift() { SHIFT_KEY } else { 0 };
    command | control | option | shift
}

/// The ANSI virtual key code of a printed key, as on a US keyboard.
pub open spec fn character_key_code(c: char) -> Option<u32> {
    if c == 'A' { Some(0x00u32) }
    else if c == 'S' { Some(0x01u32) }
    else if c == 'D' { Some(0x02u32) }
    else if c == 'F' { Some(0x03u32) }
    else if c == 'H' { Some(0x04u32) }
    else if c == 'G' { Some(0x05u32) }
    else if c == 'Z' { Some(0x06u32) }
    else if c == 'X' { Some(0x07u32) }
    else if c == 'C' { Some(0x08u32) }
    else if c == 'V' { Some(0x09u32) }
    else if c == 'B' { Some(0x0Bu32) }
    else if c == 'Q' { Some(0x0Cu32) }
    else if c == 'W' { Some(0x0Du32) }
    else if c == 'E' { Some(0x0Eu32) }
    else if c == 'R' { Some(0x0Fu32) }
    else if c == 'Y' { Some(0x10u32) }
    else if c == 'T' { Some(0x11u32) }
    else if c == '1' { Some(0x12u32) }
    else if c == '2' { Some(0x13u32) }
    else if c == '3' { Some(0x14u32) }
    else if c == '4' { Some(0x15u32) }
    else if c == '6' { Some(0x16u32) }
    else if c == '5' { Some(0x17u32) }
    else if c == '=' { Some(0x18u32) }
    else if c == '9' { Some(0x19u32) }
    else if c == '7' { Some(0x1Au32) }
    else if c == '-' { Some(0x1Bu32) }
    else if c == '8' { Some(0x1Cu32) }
    else if c == '0' { Some(0x1Du32) }
    else if c == ']' { Some(0x1Eu32) }
    else if c == 'O' { Some(0x1Fu32) }
    else if c == 'U' { Some(0x20u32) }
    else if c == '[' { Some(0x21u32) }
    else if c == 'I' { Some(0x22u32) }
    else if c == 'P' { Some(0x23u32) }
    else if c == 'L' { Some(0x25u32) }
    else if c == 'J' { Some(0x26u32) }
    else if c == '\'' { Some(0x27u32) }
    else if c == 'K' { Some(0x28u32) }
    else if c == ';' { Some(0x29u32) }
    else if c == '\\' { Some(0x2Au32) }
    else if c == ',' { Some(0x2Bu32) }
    else if c == '/' { Some(0x2Cu32) }
    else if c == 'N' { Some(0x2Du32) }
    else if c == 'M' { Some(0x2Eu32) }
    else if c == '.' { Some(0x2Fu32) }
    else if c == '`' { Some(0x32u32) }
    else { None }
}

/// The virtual key code of function key F`n`.
pub open spec fn function_key_code(n: u8) -> Option<u32> {
    if n == 1 { Some(0x7Au32) }
    else if n == 2 { Some(0x78u32) }
    else if n == 3 { Some(0x63u32) }
    else if n == 4 { Some(0x76u32) }
    else if n == 5 { Some(0x60u32) }
    else if n == 6 { Some(0x61u32) }
    else if n == 7 { Some(0x62u32) }
    else if n == 8 { Some(0x64u32) }
    else if n == 9 { Some(0x65u32) }
    else if n == 10 { Some(0x6Du32) }
    else if n == 11 { Some(0x67u32) }
    else if n == 12 { Some(0x6Fu32) }
    else if n == 13 { Some(0x69u32) }
    else if n == 14 { Some(0x6Bu32) }
    else if n == 15 { Some(0x71u32) }
    else if n == 16 { Some(0x6Au32) }
    else if n == 17 { Some(0x40u32) }
    else if n == 18 { Some(0x4Fu32) }
    else if n == 19 { Some(0x50u32) }
    else if n == 20 { Some(0x5Au32) }
    else { None }
}

/// The virtual key code of a named key.
pub open spec fn named_key_code(key: NamedShortcutKey) -> u32 {
    match key {
        NamedShortcutKey::Space => 0x31,
        NamedShortcutKey::Return => 0x24,
        NamedShortcutKey::Tab => 0x30,
        NamedShortcutKey::Escape => 0x35,
        NamedShortcutKey::Delete => 0x33,
        NamedShortcutKey::ArrowUp => 0x7E,
        NamedShortcutKey::ArrowDown => 0x7D,
        NamedShortcutKey::ArrowLeft => 0x7B,
        NamedShortcutKey::ArrowRight => 0x7C,
    }
}

/// The virtual key code of a shortcut key, if it has one.
pub open spec fn spec_key_code(key: ShortcutKey) -> Option<u32> {
    match key.kind() {
        ShortcutKeyKind::Character(c) => character_key_code(c),
        ShortcutKeyKind::Function(n) => function_key_code(n),
        ShortcutKeyKind::Named(named) => Some(named_key_code(named)),
    }
}

fn character_code(c: char) -> (r: Option<u32>)
    ensures
        r == character_key_code(c),
{
    match c {
        'A' => Some(0x00),
        'S' => Some(0x01),
        'D' => Some(0x02),
        'F' => Some(0x03),
        'H' => Some(0x04),
        'G' => Some(0x05),
        'Z' => Some(0x06),
        'X' => Some(0x07),
        'C' => Some(0x08),
        'V' => Some(0x09),
        'B' => Some(0x0B),
        'Q' => Some(0x0C),
        'W' => Some(0x0D),
        'E' => Some(0x0E),
        'R' => Some(0x0F),
        'Y' => Some(0x10),
        'T' => Some(0x11),
        '1' => Some(0x12),
        '2' => Some(0x13),
        '3' => Some(0x14),
        '4' => Some(0x15),
        '6' => Some(0x16),
        '5' => Some(0x17),
        '=' => Some(0x18),
        '9' => Some(0x19),
        '7' => Some(0x1A),
        '-' => Some(0x1B),
        '8' => Some(0x1C),
        '0' => Some(0x1D),
        ']' => Some(0x1E),
        'O' => Some(0x1F),
        'U' => Some(0x20),
        '[' => Some(0x21),
        'I' => Some(0x22),
        'P' => Some(0x23),
        'L' => Some(0x25),
        'J' => Some(0x26),
        '\'' => Some(0x27),
        'K' => Some(0x28),
        ';' => Some(0x29),
        '\\' => Some(0x2A),
        ',' => Some(0x2B),
        '/' => Some(0x2C),
        'N' => Some(0x2D),
        'M' => Some(0x2E),
        '.' => Some(0x2F),
        '`' => Some(0x32),
        _ => None,
    }
}

fn function_code(n: u8) -> (r: Option<u32>)
    ensures
        r == function_key_code(n),
{
    match n {
        1 => Some(0x7A),
        2 => Some(0x78),
        3 => Some(0x63),
        4 => Some(0x76),
        5 => Some(0x60),
        6 => Some(0x61),
        7 => Some(0x62),
        8 => Some(0x64),
        9 => Some(0x65),
        10 => Some(0x6D),
        11 => Some(0x67),
        12 => Some(0x6F),
        13 => Some(0x69),
        14 => Some(0x6B),
        15 => Some(0x71),
        16 => Some(0x6A),
        17 => Some(0x40),
        18 => Some(0x4F),
        19 => Some(0x50),
        20 => Some(0x5A),
        _ => None,
    }
}

/// The virtual key code Carbon registers for a shortcut key.
pub fn key_code(key: ShortcutKey) -> (r: Option<u32>)
    ensures
        r == spec_key_code(key),
{
    match key.character_value() {
        Some(c) => return character_code(c),
        None => {},
    }
    match key.function_number() {
        Some(n) => return function_code(n),
        None => {},
    }
    match key.named_value() {
        Some(named) => Some(
            match named {
                NamedShortcutKey::Space => 0x31,
                NamedShortcutKey::Return => 0x24,
                NamedShortcutKey::Tab => 0x30,
                NamedShortcutKey::Escape => 0x35,
                NamedShortcutKey::Delete => 0x33,
                NamedShortcutKey::ArrowUp => 0x7E,
                NamedShortcutKey::ArrowDown => 0x7D,
                NamedShortcutKey::ArrowLeft => 0x7B,
                NamedShortcutKey::ArrowRight => 0x7C,
            },
        ),
        None => None,
    }
}

/// The hot-key identifier under which `action` is registered.
pub open spec fn spec_hot_key_id(action: TextAction) -> EventHotKeyId {
    EventHotKeyId {
        signature: HOT_KEY_SIGNATURE,
        id: match action {
            TextAction::Translate => TRANSLATE_HOT_KEY_ID,
            TextAction::Proofread => PROOFREAD_HOT_KEY_ID,
        },
    }
}

/// The hot-key identifier under which `action` is registered.
pub fn hot_key_id(action: TextAction) -> (r: EventHotKeyId)
    ensures
        r == spec_hot_key_id(action),
{
    EventHotKeyId {
        signature: HOT_KEY_SIGNATURE,
        id: match action {
            TextAction::Translate => TRANSLATE_HOT_KEY_ID,
            TextAction::Proofread => PROOFREAD_HOT_KEY_ID,
        },
    }
}

/// The action a pressed hot key stands for: only Verba's signature and the two action
/// numbers are recognised.
pub open spec fn spec_hot_key_action(id: EventHotKeyId) -> Option<TextAction> {
    if id.signature != HOT_KEY_SIGNATURE {
        None
    } else if id.id == TRANSLATE_HOT_KEY_ID {
        Some(TextAction::Translate)
    } else if id.id == PROOFREAD_HOT_KEY_ID {
        Some(TextAction::Proofread)
    } else {
        None
    }
}

/// The action a pressed hot key stands for, if it is one of Verba's.
pub fn hot_key_action(id: EventHotKeyId) -> (r: Option<TextAction>)
    ensures
        r == spec_hot_key_action(id),
{
    if id.signature != HOT_KEY_SIGNATURE {
        return None;
    }
    if id.id == TRANSLATE_HOT_KEY_ID {
        Some(TextAction::Translate)
    } else if id.id == PROOFREAD_HOT_KEY_ID {
        Some(TextAction::Proofread)
    } else {
        None
    }
}

/// A pressed hot key is dispatched to the action it was registered for.
pub proof fn law_hot_key_dispatches_its_action(action: TextAction)
    ensures
        spec_hot_key_action(spec_hot_key_id(action)) == Some(action),
{
}

/// The two actions are registered under different hot-key identifiers.
pub proof fn law_actions_have_distinct_hot_keys()
    ensures
        spec_hot_key_id(TextAction::Translate) != spec_hot_key_id(TextAction::Proofread),
{
}

/// Every valid shortcut key has a virtual key code, so any shortcut the configuration
/// accepts can be registered.
pub proof fn law_valid_keys_have_key_codes(key: ShortcutKey)
    requires
        key.is_valid(),
    ensures
        spec_key_code(key) is Some,
{
}

/// Distinct printed keys have distinct virtual key codes.
pub proof fn law_character_key_codes_are_distinct(a: char, b: char)
    requires
        character_key_code(a) is Some,
        character_key_code(a) == character_key_code(b),
    ensures
        a == b,
{
}

/// Each modifier has a flag of its own, so the flags give the modifiers back.
pub proof fn law_modifier_flags_are_independent(command: bool, control: bool, option: bool, shift: bool)
    ensures
        (spec_modifier_flags(command, control, option, shift) & COMMAND_KEY != 0) == command,
        (spec_modifier_flags(command, control, option, shift) & CONTROL_KEY != 0) == control,
        (spec_modifier_flags(command, control, option, shift) & OPTION_KEY != 0) == option,
        (spec_modifier_flags(command, control, option, shift) & SHIFT_KEY != 0) == shift,
{
    assert((((if command { 0x100u32 } else { 0u32 }) | (if control { 0x1000u32 } else { 0u32 }) | (if option {
        0x800u32
    } else {
        0u32
    }) | (if shift { 0x200u32 } else { 0u32 })) & 0x100u32 != 0) == command) by (bit_vector);
    assert((((if command { 0x100u32 } else { 0u32 }) | (if control { 0x1000u32 } else { 0u32 }) | (if option {
        0x800u32
    } else {
        0u32
    }) | (if shift { 0x200u32 } else { 0u32 })) & 0x1000u32 != 0) == control) by (bit_vector);
    assert((((if command { 0x100u32 } else { 0u32 }) | (if control { 0x1000u32 } else { 0u32 }) | (if option {
        0x800u32
    } else {
        0u32
    }) | (if shift { 0x200u32 } else { 0u32 })) & 0x800u32 != 0) == option) by (bit_vector);
    assert((((if command { 0x100u32 } else { 0u32 }) | (if control { 0x1000u32 } else { 0u32 }) | (if option {
        0x800u32
    } else {
        0u32
    }) | (if shift { 0x200u32 } else { 0u32 })) & 0x200u32 != 0) == shift) by (bit_vector);
}

/// The modifier flags are Carbon's modifier bits: bit 8 (`cmdKeyBit`) for command, bit 9
/// (`shiftKeyBit`) for shift, bit 11 (`optionKeyBit`) for option and bit 12
/// (`controlKeyBit`) for control, and no other bit.
pub proof fn law_modifier_flags_are_carbon_bits(command: bool, control: bool, option: bool, shift: bool)
    ensures
        ((spec_modifier_flags(command, control, option, shift) >> 8u32) & 1u32 == 1u32) == command,
        ((spec_modifier_flags(command, control, option, shift) >> 9u32) & 1u32 == 1u32) == shift,
        ((spec_modifier_flags(command, control, option, shift) >> 11u32) & 1u32 == 1u32) == option,
        ((spec_modifier_flags(command, control, option, shift) >> 12u32) & 1u32 == 1u32) == control,
        spec_modifier_flags(command, control, option, shift) & !0x1B00u32 == 0u32,
{
    assert(((((if command { 0x100u32 } else { 0u32 }) | (if control { 0x1000u32 } else { 0u32 }) | (if option { 0x800u32 } else { 0u32 }) | (if shift { 0x200u32 } else { 0u32 })) >> 8u32) & 1u32 == 1u32) == command) by (bit_vector);
    assert(((((if command { 0x100u32 } else { 0u32 }) | (if control { 0x1000u32 } else { 0u32 }) | (if option { 0x800u32 } else { 0u32 }) | (if shift { 0x200u32 } else { 0u32 })) >> 9u32) & 1u32 == 1u32) == shift) by (bit_vector);
    assert(((((if command { 0x100u32 } else { 0u32 }) | (if control { 0x1000u32 } else { 0u32 }) | (if option { 0x800u32 } else { 0u32 }) | (if shift { 0x200u32 } else { 0u32 })) >> 11u32) & 1u32 == 1u32) == option) by (bit_vector);
    assert(((((if command { 0x100u32 } else { 0u32 }) | (if control { 0x1000u32 } else { 0u32 }) | (if option { 0x800u32 } else { 0u32 }) | (if shift { 0x200u32 } else { 0u32 })) >> 12u32) & 1u32 == 1u32) == control) by (bit_vector);
    assert(((if command { 0x100u32 } else { 0u32 }) | (if control { 0x1000u32 } else { 0u32 }) | (if option { 0x800u32 } else { 0u32 }) | (if shift { 0x200u32 } else { 0u32 })) & !0x1B00u32 == 0u32) by (bit_vector);
}

// ---------------------------------------------------------------------------------------------
// Carbon's virtual key codes, as `Events.h` of the HIToolbox framework names them
/// Carbon's `kVK_ANSI_A`.
pub const KVK_ANSI_A: u32 = 0x00;
/// Carbon's `kVK_ANSI_S`.
pub const KVK_ANSI_S: u32 = 0x01;
/// Carbon's `kVK_ANSI_D`.
pub const KVK_ANSI_D: u32 = 0x02;
/// Carbon's `kVK_ANSI_F`.
pub const KVK_ANSI_F: u32 = 0x03;
/// Carbon's `kVK_ANSI_H`.
pub const KVK_ANSI_H: u32 = 0x04;
/// Carbon's `kVK_ANSI_G`.
pub const KVK_ANSI_G: u32 = 0x05;
/// Carbon's `kVK_ANSI_Z`.
pub const KVK_ANSI_Z: u32 = 0x06;
/// Carbon's `kVK_ANSI_X`.
pub const KVK_ANSI_X: u32 = 0x07;
/// Carbon's `kVK_ANSI_C`.
pub const KVK_ANSI_C: u32 = 0x08;
/// Carbon's `kVK_ANSI_V`.
pub const KVK_ANSI_V: u32 = 0x09;
/// Carbon's `kVK_ANSI_B`.
pub const KVK_ANSI_B: u32 = 0x0B;
/// Carbon's `kVK_ANSI_Q`.
pub const KVK_ANSI_Q: u32 = 0x0C;
/// Carbon's `kVK_ANSI_W`.
pub const KVK_ANSI_W: u32 = 0x0D;
/// Carbon's `kVK_ANSI_E`.
pub const KVK_ANSI_E: u32 = 0x0E;
/// Carbon's `kVK_ANSI_R`.
pub const KVK_ANSI_R: u32 = 0x0F;
/// Carbon's `kVK_ANSI_Y`.
pub const KVK_ANSI_Y: u32 = 0x10;
/// Carbon's `kVK_ANSI_T`.
pub const KVK_ANSI_T: u32 = 0x11;
/// Carbon's `kVK_ANSI_1`.
pub const KVK_ANSI_1: u32 = 0x12;
/// Carbon's `kVK_ANSI_2`.
pub const KVK_ANSI_2: u32 = 0x13;
/// Carbon's `kVK_ANSI_3`.
pub const KVK_ANSI_3: u32 = 0x14;
/// Carbon's `kVK_ANSI_4`.
pub const KVK_ANSI_4: u32 = 0x15;
/// Carbon's `kVK_ANSI_6`.
pub const KVK_ANSI_6: u32 = 0x16;
/// Carbon's `kVK_ANSI_5`.
pub const KVK_ANSI_5: u32 = 0x17;
/// Carbon's `kVK_ANSI_Equal`.
pub const KVK_ANSI_EQUAL: u32 = 0x18;
/// Carbon's `kVK_ANSI_9`.
pub const KVK_ANSI_9: u32 = 0x19;
/// Carbon's `kVK_ANSI_7`.
pub const KVK_ANSI_7: u32 = 0x1A;
/// Carbon's `kVK_ANSI_Minus`.
pub const KVK_ANSI_MINUS: u32 = 0x1B;
/// Carbon's `kVK_ANSI_8`.
pub const KVK_ANSI_8: u32 = 0x1C;
/// Carbon's `kVK_ANSI_0`.
pub const KVK_ANSI_0: u32 = 0x1D;
/// Carbon's `kVK_ANSI_RightBracket`.
pub const KVK_ANSI_RIGHT_BRACKET: u32 = 0x1E;
/// Carbon's `kVK_ANSI_O`.
pub const KVK_ANSI_O: u32 = 0x1F;
/// Carbon's `kVK_ANSI_U`.
pub const KVK_ANSI_U: u32 = 0x20;
/// Carbon's `kVK_ANSI_LeftBracket`.
pub const KVK_ANSI_LEFT_BRACKET: u32 = 0x21;
/// Carbon's `kVK_ANSI_I`.
pub const KVK_ANSI_I: u32 = 0x22;
/// Carbon's `kVK_ANSI_P`.
pub const KVK_ANSI_P: u32 = 0x23;
/// Carbon's `kVK_ANSI_L`.
pub const KVK_ANSI_L: u32 = 0x25;
/// Carbon's `kVK_ANSI_J`.
pub const KVK_ANSI_J: u32 = 0x26;
/// Carbon's `kVK_ANSI_Quote`.
pub const KVK_ANSI_QUOTE: u32 = 0x27;
/// Carbon's `kVK_ANSI_K`.
pub const KVK_ANSI_K: u32 = 0x28;
/// Carbon's `kVK_ANSI_Semicolon`.
pub const KVK_ANSI_SEMICOLON: u32 = 0x29;
/// Carbon's `kVK_ANSI_Backslash`.
pub const KVK_ANSI_BACKSLASH: u32 = 0x2A;
/// Carbon's `kVK_ANSI_Comma`.
pub const KVK_ANSI_COMMA: u32 = 0x2B;
/// Carbon's `kVK_ANSI_Slash`.
pub const KVK_ANSI_SLASH: u32 = 0x2C;
/// Carbon's `kVK_ANSI_N`.
pub const KVK_ANSI_N: u32 = 0x2D;
/// Carbon's `kVK_ANSI_M`.
pub const KVK_ANSI_M: u32 = 0x2E;
/// Carbon's `kVK_ANSI_Period`.
pub const KVK_ANSI_PERIOD: u32 = 0x2F;
/// Carbon's `kVK_ANSI_Grave`.
pub const KVK_ANSI_GRAVE: u32 = 0x32;
/// Carbon's `kVK_Return`.
pub const KVK_RETURN: u32 = 0x24;
/// Carbon's `kVK_Tab`.
pub const KVK_TAB: u32 = 0x30;
/// Carbon's `kVK_Space`.
pub const KVK_SPACE: u32 = 0x31;
/// Carbon's `kVK_Delete`.
pub const KVK_DELETE: u32 = 0x33;
/// Carbon's `kVK_Escape`.
pub const KVK_ESCAPE: u32 = 0x35;
/// Carbon's `kVK_LeftArrow`.
pub const KVK_LEFT_ARROW: u32 = 0x7B;
/// Carbon's `kVK_RightArrow`.
pub const KVK_RIGHT_ARROW: u32 = 0x7C;
/// Carbon's `kVK_DownArrow`.
pub const KVK_DOWN_ARROW: u32 = 0x7D;
/// Carbon's `kVK_UpArrow`.
pub const KVK_UP_ARROW: u32 = 0x7E;
/// Carbon's `kVK_F1`.
pub const KVK_F1: u32 = 0x7A;
/// Carbon's `kVK_F2`.
pub const KVK_F2: u32 = 0x78;
/// Carbon's `kVK_F3`.
pub const KVK_F3: u32 = 0x63;
/// Carbon's `kVK_F4`.
pub const KVK_F4: u32 = 0x76;
/// Carbon's `kVK_F5`.
pub const KVK_F5: u32 = 0x60;
/// Carbon's `kVK_F6`.
pub const KVK_F6: u32 = 0x61;
/// Carbon's `kVK_F7`.
pub const KVK_F7: u32 = 0x62;
/// Carbon's `kVK_F8`.
pub const KVK_F8: u32 = 0x64;
/// Carbon's `kVK_F9`.
pub const KVK_F9: u32 = 0x65;
/// Carbon's `kVK_F10`.
pub const KVK_F10: u32 = 0x6D;
/// Carbon's `kVK_F11`.
pub const KVK_F11: u32 = 0x67;
/// Carbon's `kVK_F12`.
pub const KVK_F12: u32 = 0x6F;
/// Carbon's `kVK_F13`.
pub const KVK_F13: u32 = 0x69;
/// Carbon's `kVK_F14`.
pub const KVK_F14: u32 = 0x6B;
/// Carbon's `kVK_F15`.
pub const KVK_F15: u32 = 0x71;
/// Carbon's `kVK_F16`.
pub const KVK_F16: u32 = 0x6A;
/// Carbon's `kVK_F17`.
pub const KVK_F17: u32 = 0x40;
/// Carbon's `kVK_F18`.
pub const KVK_F18: u32 = 0x4F;
/// Carbon's `kVK_F19`.
pub const KVK_F19: u32 = 0x50;
/// Carbon's `kVK_F20`.
pub const KVK_F20: u32 = 0x5A;

/// The key Carbon's virtual key code `code` stands for on a US keyboard, among the keys a
/// shortcut can use.
pub open spec fn carbon_key_for_code(code: u32) -> Option<ShortcutKeyKind> {
    if code == KVK_ANSI_A {
        Some(ShortcutKeyKind::Character('A'))
    } else if code == KVK_ANSI_S {
        Some(ShortcutKeyKind::Character('S'))
    } else if code == KVK_ANSI_D {
        Some(ShortcutKeyKind::Character('D'))
    } else if code == KVK_ANSI_F {
        Some(ShortcutKeyKind::Character('F'))
    } else if code == KVK_ANSI_H {
        Some(ShortcutKeyKind::Character('H'))
    } else if code == KVK_ANSI_G {
        Some(ShortcutKeyKind::Character('G'))
    } else if code == KVK_ANSI_Z {
        Some(ShortcutKeyKind::Character('Z'))
    } else if code == KVK_ANSI_X {
        Some(ShortcutKeyKind::Character('X'))
    } else if code == KVK_ANSI_C {
        Some(ShortcutKeyKind::Character('C'))
    } else if code == KVK_ANSI_V {
        Some(ShortcutKeyKind::Character('V'))
    } else if code == KVK_ANSI_B {
        Some(ShortcutKeyKind::Character('B'))
    } else if code == KVK_ANSI_Q {
        Some(ShortcutKeyKind::Character('Q'))
    } else if code == KVK_ANSI_W {
        Some(ShortcutKeyKind::Character('W'))
    } else if code == KVK_ANSI_E {
        Some(ShortcutKeyKind::Character('E'))
    } else if code == KVK_ANSI_R {
        Some(ShortcutKeyKind::Character('R'))
    } else if code == KVK_ANSI_Y {
        Some(ShortcutKeyKind::Character('Y'))
    } else if code == KVK_ANSI_T {
        Some(ShortcutKeyKind::Character('T'))
    } else if code == KVK_ANSI_1 {
        Some(ShortcutKeyKind::Character('1'))
    } else if code == KVK_ANSI_2 {
        Some(ShortcutKeyKind::Character('2'))
    } else if code == KVK_ANSI_3 {
        Some(ShortcutKeyKind::Character('3'))
    } else if code == KVK_ANSI_4 {
        Some(ShortcutKeyKind::Character('4'))
    } else if code == KVK_ANSI_6 {
        Some(ShortcutKeyKind::Character('6'))
    } else if code == KVK_ANSI_5 {
        Some(ShortcutKeyKind::Character('5'))
    } else if code == KVK_ANSI_EQUAL {
        Some(ShortcutKeyKind::Character('='))
    } else if code == KVK_ANSI_9 {
        Some(ShortcutKeyKind::Character('9'))
    } else if code == KVK_ANSI_7 {
        Some(ShortcutKeyKind::Character('7'))
    } else if code == KVK_ANSI_MINUS {
        Some(ShortcutKeyKind::Character('-'))
    } else if code == KVK_ANSI_8 {
        Some(ShortcutKeyKind::Character('8'))
    } else if code == KVK_ANSI_0 {
        Some(ShortcutKeyKind::Character('0'))
    } else if code == KVK_ANSI_RIGHT_BRACKET {
        Some(ShortcutKeyKind::Character(']'))
    } else if code == KVK_ANSI_O {
        Some(ShortcutKeyKind::Character('O'))
    } else if code == KVK_ANSI_U {
        Some(ShortcutKeyKind::Character('U'))
    } else if code == KVK_ANSI_LEFT_BRACKET {
        Some(ShortcutKeyKind::Character('['))
    } else if code == KVK_ANSI_I {
        Some(ShortcutKeyKind::Character('I'))
    } else if code == KVK_ANSI_P {
        Some(ShortcutKeyKind::Character('P'))
    } else if code == KVK_ANSI_L {
        Some(ShortcutKeyKind::Character('L'))
    } else if code == KVK_ANSI_J {
        Some(ShortcutKeyKind::Character('J'))
    } else if code == KVK_ANSI_QUOTE {
        Some(ShortcutKeyKind::Character('\''))
    } else if code == KVK_ANSI_K {
        Some(ShortcutKeyKind::Character('K'))
    } else if code == KVK_ANSI_SEMICOLON {
        Some(ShortcutKeyKind::Character(';'))
    } else if code == KVK_ANSI_BACKSLASH {
        Some(ShortcutKeyKind::Character('\\'))
    } else if code == KVK_ANSI_COMMA {
        Some(ShortcutKeyKind::Character(','))
    } else if code == KVK_ANSI_SLASH {
        Some(ShortcutKeyKind::Character('/'))
    } else if code == KVK_ANSI_N {
        Some(ShortcutKeyKind::Character('N'))
    } else if code == KVK_ANSI_M {
        Some(ShortcutKeyKind::Character('M'))
    } else if code == KVK_ANSI_PERIOD {
        Some(ShortcutKeyKind::Character('.'))
    } else if code == KVK_ANSI_GRAVE {
        Some(ShortcutKeyKind::Character('`'))
    } else if code == KVK_RETURN {
        Some(ShortcutKeyKind::Named(NamedShortcutKey::Return))
    } else if code == KVK_TAB {
        Some(ShortcutKeyKind::Named(NamedShortcutKey::Tab))
    } else if code == KVK_SPACE {
        Some(ShortcutKeyKind::Named(NamedShortcutKey::Space))
    } else if code == KVK_DELETE {
        Some(ShortcutKeyKind::Named(NamedShortcutKey::Delete))
    } else if code == KVK_ESCAPE {
        Some(ShortcutKeyKind::Named(NamedShortcutKey::Escape))
    } else if code == KVK_LEFT_ARROW {
        Some(ShortcutKeyKind::Named(NamedShortcutKey::ArrowLeft))
    } else if code == KVK_RIGHT_ARROW {
        Some(ShortcutKeyKind::Named(NamedShortcutKey::ArrowRight))
    } else if code == KVK_DOWN_ARROW {
        Some(ShortcutKeyKind::Named(NamedShortcutKey::ArrowDown))
    } else if code == KVK_UP_ARROW {
        Some(ShortcutKeyKind::Named(NamedShortcutKey::ArrowUp))
    } else if code == KVK_F1 {
        Some(ShortcutKeyKind::Function(1))
    } else if code == KVK_F2 {
        Some(ShortcutKeyKind::Function(2))
    } else if code == KVK_F3 {
        Some(ShortcutKeyKind::Function(3))
    } else if code == KVK_F4 {
        Some(ShortcutKeyKind::Function(4))
    } else if code == KVK_F5 {
        Some(ShortcutKeyKind::Function(5))
    } else if code == KVK_F6 {
        Some(ShortcutKeyKind::Function(6))
    } else if code == KVK_F7 {
        Some(ShortcutKeyKind::Function(7))
    } else if code == KVK_F8 {
        Some(ShortcutKeyKind::Function(8))
    } else if code == KVK_F9 {
        Some(ShortcutKeyKind::Function(9))
    } else if code == KVK_F10 {
        Some(ShortcutKeyKind::Function(10))
    } else if code == KVK_F11 {
        Some(ShortcutKeyKind::Function(11))
    } else if code == KVK_F12 {
        Some(ShortcutKeyKind::Function(12))
    } else if code == KVK_F13 {
        Some(ShortcutKeyKind::Function(13))
    } else if code == KVK_F14 {
        Some(ShortcutKeyKind::Function(14))
    } else if code == KVK_F15 {
        Some(ShortcutKeyKind::Function(15))
    } else if code == KVK_F16 {
        Some(ShortcutKeyKind::Function(16))
    } else if code == KVK_F17 {
        Some(ShortcutKeyKind::Function(17))
    } else if code == KVK_F18 {
        Some(ShortcutKeyKind::Function(18))
    } else if code == KVK_F19 {
        Some(ShortcutKeyKind::Function(19))
    } else if code == KVK_F20 {
        Some(ShortcutKeyKind::Function(20))
    } else {
        None
    }
}

/// Every shortcut key is registered under Carbon's virtual key code for that key: a key
/// gets code `code` exactly when `code` is the one Carbon gives that key, for printed
/// keys, function keys and named keys alike. So no two keys share a code, and a pressed
/// key fires only the shortcut recorded for it.
pub proof fn law_key_codes_are_carbon_virtual_keys(key: ShortcutKey, code: u32)
    ensures
        (spec_key_code(key) == Some(code)) == (carbon_key_for_code(code) == Some(key.kind())),
{
}

} // verus!
