use verba::presentation::TextAction;
use verba::shortcut::{
    default_proofread_shortcut, default_translate_shortcut, NamedShortcutKey, Shortcut,
    ShortcutConfiguration, ShortcutConfigurationError, ShortcutKey, ShortcutModifiers,
    ShortcutValidationError,
};

#[test]
fn character_keys_are_ascii_and_case_normalized() {
    assert_eq!(
        ShortcutKey::character('t').expect("ASCII letters should be valid"),
        ShortcutKey::character('T').expect("ASCII letters should be valid")
    );
    assert_eq!(
        ShortcutKey::character('T').expect("ASCII letters should be valid").character_value(),
        Some('T')
    );
    assert_eq!(ShortcutKey::character('é'), Err(ShortcutValidationError::InvalidCharacter));
    assert_eq!(ShortcutKey::character(' '), Err(ShortcutValidationError::InvalidCharacter));
    assert_eq!(ShortcutKey::character('!'), Err(ShortcutValidationError::InvalidCharacter));
}

#[test]
fn function_key_range_is_validated() {
    assert_eq!(ShortcutKey::function(0), Err(ShortcutValidationError::InvalidFunctionKey));
    assert_eq!(ShortcutKey::function(21), Err(ShortcutValidationError::InvalidFunctionKey));
    assert_eq!(ShortcutKey::function(12).expect("F12 should be valid").function_number(), Some(12));
    assert_eq!(ShortcutKey::function(20).expect("F20 should be valid").function_number(), Some(20));
}

#[test]
fn ordinary_keys_require_a_primary_modifier() {
    let key = ShortcutKey::character('T').expect("T should be valid");

    assert_eq!(
        Shortcut::new(key, ShortcutModifiers::default()),
        Err(ShortcutValidationError::MissingPrimaryModifier)
    );
    assert_eq!(
        Shortcut::new(key, ShortcutModifiers::new(false, false, false, true)),
        Err(ShortcutValidationError::MissingPrimaryModifier)
    );
    assert!(Shortcut::new(key, ShortcutModifiers::new(false, true, false, false)).is_ok());
    assert!(Shortcut::new(
        ShortcutKey::named(NamedShortcutKey::Space),
        ShortcutModifiers::new(true, false, false, false)
    )
    .is_ok());
    assert!(Shortcut::new(
        ShortcutKey::function(8).expect("F8 should be valid"),
        ShortcutModifiers::default()
    )
    .is_ok());
}

#[test]
fn defaults_assign_distinct_shortcuts_to_both_actions() {
    let shortcuts = ShortcutConfiguration::default();

    assert_eq!(shortcuts.shortcut_for(TextAction::Translate), default_translate_shortcut());
    assert_eq!(shortcuts.shortcut_for(TextAction::Proofread), default_proofread_shortcut());
    assert_ne!(default_translate_shortcut(), default_proofread_shortcut());
}

#[test]
fn configuration_rejects_initial_and_updated_collisions() {
    assert_eq!(
        ShortcutConfiguration::new(default_translate_shortcut(), default_translate_shortcut()),
        Err(ShortcutConfigurationError::Collision { shortcut: default_translate_shortcut() })
    );

    assert_eq!(
        ShortcutConfiguration::default()
            .with_shortcut(TextAction::Proofread, default_translate_shortcut()),
        Err(ShortcutConfigurationError::Collision { shortcut: default_translate_shortcut() })
    );
}

#[test]
fn system_shortcuts_cannot_be_assigned() {
    let command = ShortcutModifiers::new(true, false, false, false);
    let command_shift = ShortcutModifiers::new(true, false, false, true);
    for key in [
        ShortcutKey::named(NamedShortcutKey::Space),
        ShortcutKey::named(NamedShortcutKey::Tab),
        ShortcutKey::character('q').unwrap(),
    ] {
        assert_eq!(Shortcut::assignable(key, command), Err(ShortcutValidationError::ReservedShortcut));
        assert_eq!(
            Shortcut::assignable(key, command_shift),
            Err(ShortcutValidationError::ReservedShortcut)
        );
        assert!(Shortcut::new(key, command).unwrap().is_reserved());
    }
    let control_q = Shortcut::assignable(
        ShortcutKey::character('Q').unwrap(),
        ShortcutModifiers::new(false, true, false, false),
    )
    .unwrap();
    assert!(!control_q.is_reserved());
    assert_eq!(control_q.key().character_value(), Some('Q'));
    assert!(control_q.modifiers().control());
}

#[test]
fn replacing_one_shortcut_keeps_the_other() {
    let f5 = Shortcut::new(ShortcutKey::function(5).unwrap(), ShortcutModifiers::none()).unwrap();
    let updated = ShortcutConfiguration::default().with_shortcut(TextAction::Translate, f5).unwrap();
    assert_eq!(updated.shortcut_for(TextAction::Translate), f5);
    assert_eq!(updated.shortcut_for(TextAction::Proofread), default_proofread_shortcut());
}
