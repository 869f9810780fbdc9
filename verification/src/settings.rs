//! Preferences kept as strings in the user's defaults: the target language, the
//! proofreading acknowledgement and the shortcuts.
//!
//! A write counts only once it is read back; a write that does not read back is undone.
use vstd::prelude::*;

use std::sync::Arc;

use crate::preferences::{TranslationSettingsStore, TranslationSettingsStoreError};
use crate::presentation::TextAction;
use crate::proofreading::{ProofreadingConsentStore, ProofreadingConsentStoreError};
use crate::shortcut::{is_acceptable_shortcut, is_reserved_shortcut, Shortcut, ShortcutConfiguration, ShortcutSettingsStore, ShortcutSettingsStoreError};
use crate::shortcut_text::{decode_shortcut, encode_shortcut, law_stored_shortcuts_read_back, spec_decode_shortcut, spec_encode_shortcut};
use crate::text::{text_eq, trimmed};
use crate::translation::{LanguageIdentifier, is_language_tag, lemma_normalized_tag_is_stable, normalized_language_tag};

verus! {

/// Where the target language is kept.
pub const TARGET_LANGUAGE_KEY: &'static str = "translation.targetLanguageIdentifier";

/// Where the proofreading acknowledgement is kept.
pub const PROOFREADING_DISCLOSURE_KEY: &'static str = "proofreading.disclosureAcknowledged";

/// Where the translate shortcut is kept.
pub const TRANSLATE_SHORTCUT_KEY: &'static str = "shortcuts.translate";

/// Where the proofread shortcut is kept.
pub const PROOFREAD_SHORTCUT_KEY: &'static str = "shortcuts.proofread";

/// String values under keys.
///
/// What a read gives is one its `gives` allows; preferences that do not say otherwise may
/// give any value.
pub trait StringPreferences {
    /// Whether `answer` may be the value read under `key`.
    open spec fn gives(&self, key: Seq<char>, answer: Option<Seq<char>>) -> bool {
        true
    }

    fn get(&self, key: &str) -> (r: Option<String>)
        ensures
            self.gives(key@, opt_chars(r)),
    ;

    fn set(&self, key: &str, value: Option<&str>);
}

/// Whether a value read back is `expected`.
pub fn reads_back(observed: &Option<String>, expected: &str) -> (r: bool)
    ensures
        r == (observed matches Some(v) && v@ == expected@),
{
    match observed {
        Some(v) => text_eq(v.as_str(), expected),
        None => false,
    }
}

/// An optional string, borrowed.
fn as_deref(value: &Option<String>) -> (r: Option<&str>)
    ensures
        value is None ==> r is None,
        value matches Some(v) ==> r matches Some(s) && s@ == v@,
{
    match value {
        Some(v) => Some(v.as_str()),
        None => None,
    }
}

/// Writes `value` under `key` and reads it back; when it does not read back, the previous
/// value is put back and the write reported as failed.
pub fn set_and_verify<P: StringPreferences + ?Sized>(preferences: &P, key: &str, value: &str) -> (r: bool)
    ensures
        exists|observed: Option<Seq<char>>|
            #[trigger] preferences.gives(key@, observed) && r == (observed == Some(value@)),
{
    let previous = preferences.get(key);
    preferences.set(key, Some(value));
    let observed = preferences.get(key);
    let ghost answer = opt_chars(observed);
    if reads_back(&observed, value) {
        assert(preferences.gives(key@, answer) && answer == Some(value@));
        return true;
    }
    assert(preferences.gives(key@, answer) && answer != Some(value@));
    preferences.set(key, as_deref(&previous));
    false
}

/// The target language a stored value names: the identifier it normalizes to, if valid.
pub open spec fn spec_stored_target(stored: Option<Seq<char>>) -> Option<Seq<char>> {
    match stored {
        Some(v) => if is_language_tag(trimmed(v)) {
            Some(normalized_language_tag(v))
        } else {
            None
        },
        None => None,
    }
}

/// A saved target language reads back as itself: an identifier is stored as its own
/// text, and what a stored identifier names is that identifier again.
pub proof fn law_saved_target_reads_back(identifier: Seq<char>)
    requires
        is_language_tag(trimmed(identifier)),
    ensures
        spec_stored_target(Some(normalized_language_tag(identifier))) == Some(normalized_language_tag(identifier)),
{
    lemma_normalized_tag_is_stable(identifier);
}

/// The target language a stored value names.
pub fn stored_target(stored: Option<String>) -> (r: Option<LanguageIdentifier>)
    ensures
        match spec_stored_target(
            match stored {
                Some(v) => Some(v@),
                None => None,
            },
        ) {
            Some(t) => r matches Some(id) && id@ == t,
            None => r is None,
        },
{
    match stored {
        Some(v) => match LanguageIdentifier::new(v.as_str()) {
            Ok(id) => Some(id),
            Err(_) => None,
        },
        None => None,
    }
}

/// Whether a stored acknowledgement grants proofreading: only the exact value `true`.
pub fn stored_acknowledgement(stored: Option<String>) -> (r: bool)
    ensures
        r == (stored matches Some(v) && v@ == "true"@),
{
    match stored {
        Some(v) => text_eq(v.as_str(), "true"),
        None => false,
    }
}

/// The shortcut configuration two stored values hold: both must decode, and the two
/// shortcuts must differ.
pub open spec fn stored_configuration_is(
    r: Option<ShortcutConfiguration>,
    translate: Option<Seq<char>>,
    proofread: Option<Seq<char>>,
) -> bool {
    match (translate, proofread) {
        (Some(t), Some(p)) => match (spec_decode_shortcut(t), spec_decode_shortcut(p)) {
            (Some(a), Some(b)) => if a != b {
                r matches Some(c) && c.spec_shortcut_for(TextAction::Translate).spec_key() == a.0
                    && c.spec_shortcut_for(TextAction::Translate).spec_modifiers() == a.1
                    && c.spec_shortcut_for(TextAction::Proofread).spec_key() == b.0
                    && c.spec_shortcut_for(TextAction::Proofread).spec_modifiers() == b.1
            } else {
                r is None
            },
            _ => r is None,
        },
        _ => r is None,
    }
}

/// The characters of an optional string.
pub open spec fn opt_chars(value: Option<String>) -> Option<Seq<char>> {
    match value {
        Some(v) => Some(v@),
        None => None,
    }
}

/// The shortcut configuration two stored values hold.
pub fn stored_configuration(translate: Option<String>, proofread: Option<String>) -> (r: Option<
    ShortcutConfiguration,
>)
    ensures
        stored_configuration_is(r, opt_chars(translate), opt_chars(proofread)),
{
    let t = match translate {
        Some(t) => t,
        None => return None,
    };
    let p = match proofread {
        Some(p) => p,
        None => return None,
    };
    let ts = match decode_shortcut(t.as_str()) {
        Some(s) => s,
        None => return None,
    };
    let ps = match decode_shortcut(p.as_str()) {
        Some(s) => s,
        None => return None,
    };
    proof {
        Shortcut::lemma_parts(ts, ps);
    }
    match ShortcutConfiguration::new(ts, ps) {
        Ok(c) => Some(c),
        Err(_) => None,
    }
}

/// Whether a shortcut reads back from its stored text: a valid key, a primary modifier or a
/// function key, and no shortcut the system keeps.
pub open spec fn is_storable(shortcut: Shortcut) -> bool {
    &&& shortcut.spec_key().is_valid()
    &&& is_acceptable_shortcut(shortcut.spec_key(), shortcut.spec_modifiers())
    &&& !is_reserved_shortcut(shortcut.spec_key(), shortcut.spec_modifiers())
}

/// A saved configuration of assignable shortcuts reads back as the same configuration.
pub proof fn law_saved_configuration_reads_back(configuration: ShortcutConfiguration)
    requires
        configuration.spec_shortcut_for(TextAction::Translate) != configuration.spec_shortcut_for(
            TextAction::Proofread,
        ),
        is_storable(configuration.spec_shortcut_for(TextAction::Translate)),
        is_storable(configuration.spec_shortcut_for(TextAction::Proofread)),
    ensures
        stored_configuration_is(
            Some(configuration),
            Some(spec_encode_shortcut(configuration.spec_shortcut_for(TextAction::Translate))),
            Some(spec_encode_shortcut(configuration.spec_shortcut_for(TextAction::Proofread))),
        ),
{
    let t = configuration.spec_shortcut_for(TextAction::Translate);
    let p = configuration.spec_shortcut_for(TextAction::Proofread);
    law_stored_shortcuts_read_back(t);
    law_stored_shortcuts_read_back(p);
    Shortcut::lemma_parts(t, p);
}

/// The target language kept in the user's defaults.
pub struct MacOsTranslationSettingsStore<P: ?Sized> {
    preferences: Arc<P>,
}

impl<P: StringPreferences + ?Sized> MacOsTranslationSettingsStore<P> {
    /// The preferences the target language is kept in.
    pub closed spec fn spec_preferences(&self) -> Arc<P> {
        self.preferences
    }

    pub fn new(preferences: Arc<P>) -> (r: Self)
        ensures
            r.spec_preferences() == preferences,
    {
        MacOsTranslationSettingsStore { preferences }
    }
}

impl<P: StringPreferences + ?Sized> TranslationSettingsStore for MacOsTranslationSettingsStore<P> {
    /// Loading never fails, and gives the identifier the stored value names.
    open spec fn loads(&self, answer: Result<Option<Seq<char>>, TranslationSettingsStoreError>) -> bool {
        answer matches Ok(loaded) && exists|stored: Option<Seq<char>>|
            #[trigger] self.spec_preferences().gives(TARGET_LANGUAGE_KEY@, stored) && spec_stored_target(stored) == loaded
    }

    /// Saving succeeds exactly when the identifier reads back.
    open spec fn saves(&self, target_language: Seq<char>, answer: Result<(), TranslationSettingsStoreError>) -> bool {
        exists|observed: Option<Seq<char>>|
            #[trigger] self.spec_preferences().gives(TARGET_LANGUAGE_KEY@, observed) && (answer is Ok <==> observed
                == Some(target_language))
    }

    /// The stored target language; a value that is not a valid identifier is ignored.
    fn load_target_language(&self) -> (r: Result<Option<LanguageIdentifier>, TranslationSettingsStoreError>)
        ensures
            r matches Ok(loaded) && exists|stored: Option<Seq<char>>|
                #[trigger] self.spec_preferences().gives(TARGET_LANGUAGE_KEY@, stored) && spec_stored_target(stored)
                    == match loaded {
                    Some(id) => Some(id@),
                    None => None,
                },
    {
        let stored = self.preferences.get(TARGET_LANGUAGE_KEY);
        let ghost chars = opt_chars(stored);
        let loaded = stored_target(stored);
        assert(self.spec_preferences().gives(TARGET_LANGUAGE_KEY@, chars));
        Ok(loaded)
    }

    /// Stores the normalized identifier, failing when it does not read back.
    fn save_target_language(&self, target_language: &LanguageIdentifier) -> (r: Result<(), TranslationSettingsStoreError>)
        ensures
            exists|observed: Option<Seq<char>>|
                #[trigger] self.spec_preferences().gives(TARGET_LANGUAGE_KEY@, observed) && (r is Ok <==> observed
                    == Some(target_language@)),
    {
        let stored = set_and_verify(&*self.preferences, TARGET_LANGUAGE_KEY, target_language.as_str());
        proof {
            let o = choose|o: Option<Seq<char>>|
                #[trigger] (*self.preferences).gives(TARGET_LANGUAGE_KEY@, o) && stored == (o == Some(target_language@));
            assert(self.spec_preferences().gives(TARGET_LANGUAGE_KEY@, o));
        }
        if stored {
            Ok(())
        } else {
            Err(TranslationSettingsStoreError::Unavailable)
        }
    }
}

/// The proofreading acknowledgement kept in the user's defaults; it holds no secret.
pub struct MacOsProofreadingConsentStore<P: ?Sized> {
    preferences: Arc<P>,
}

impl<P: StringPreferences + ?Sized> MacOsProofreadingConsentStore<P> {
    /// The preferences the acknowledgement is kept in.
    pub closed spec fn spec_preferences(&self) -> Arc<P> {
        self.preferences
    }

    pub fn new(preferences: Arc<P>) -> (r: Self)
        ensures
            r.spec_preferences() == preferences,
    {
        MacOsProofreadingConsentStore { preferences }
    }
}

impl<P: StringPreferences + ?Sized> ProofreadingConsentStore for MacOsProofreadingConsentStore<P> {
    /// Loading never fails, and reports whether the stored value is exactly `true`.
    open spec fn loads(&self, answer: Result<bool, ProofreadingConsentStoreError>) -> bool {
        answer matches Ok(acknowledged) && exists|stored: Option<Seq<char>>|
            #[trigger] self.spec_preferences().gives(PROOFREADING_DISCLOSURE_KEY@, stored) && acknowledged == (stored
                == Some("true"@))
    }

    /// Saving succeeds exactly when `true` reads back.
    open spec fn saves(&self, answer: Result<(), ProofreadingConsentStoreError>) -> bool {
        exists|observed: Option<Seq<char>>|
            #[trigger] self.spec_preferences().gives(PROOFREADING_DISCLOSURE_KEY@, observed) && (answer is Ok <==> observed
                == Some("true"@))
    }

    /// Whether the stored value is exactly `true`; reading never fails.
    fn load_acknowledged(&self) -> (r: Result<bool, ProofreadingConsentStoreError>)
        ensures
            r matches Ok(acknowledged) && exists|stored: Option<Seq<char>>|
                #[trigger] self.spec_preferences().gives(PROOFREADING_DISCLOSURE_KEY@, stored) && acknowledged == (stored
                    == Some("true"@)),
    {
        let stored = self.preferences.get(PROOFREADING_DISCLOSURE_KEY);
        let ghost chars = opt_chars(stored);
        let acknowledged = stored_acknowledgement(stored);
        assert(self.spec_preferences().gives(PROOFREADING_DISCLOSURE_KEY@, chars) && acknowledged == (chars == Some(
            "true"@,
        )));
        Ok(acknowledged)
    }

    /// Stores `true`, failing when it does not read back.
    fn save_acknowledged(&self) -> (r: Result<(), ProofreadingConsentStoreError>)
        ensures
            exists|observed: Option<Seq<char>>|
                #[trigger] self.spec_preferences().gives(PROOFREADING_DISCLOSURE_KEY@, observed) && (r is Ok <==> observed
                    == Some("true"@)),
    {
        let stored = set_and_verify(&*self.preferences, PROOFREADING_DISCLOSURE_KEY, "true");
        proof {
            let o = choose|o: Option<Seq<char>>|
                #[trigger] (*self.preferences).gives(PROOFREADING_DISCLOSURE_KEY@, o) && stored == (o == Some("true"@));
            assert(self.spec_preferences().gives(PROOFREADING_DISCLOSURE_KEY@, o));
        }
        if stored {
            Ok(())
        } else {
            Err(ProofreadingConsentStoreError)
        }
    }
}

/// The shortcuts kept in the user's defaults.
pub struct MacOsShortcutSettingsStore<P: ?Sized> {
    preferences: Arc<P>,
}

impl<P: StringPreferences + ?Sized> MacOsShortcutSettingsStore<P> {
    /// The preferences the shortcuts are kept in.
    pub closed spec fn spec_preferences(&self) -> Arc<P> {
        self.preferences
    }

    pub fn new(preferences: Arc<P>) -> (r: Self)
        ensures
            r.spec_preferences() == preferences,
    {
        MacOsShortcutSettingsStore { preferences }
    }
}

impl<P: StringPreferences + ?Sized> ShortcutSettingsStore for MacOsShortcutSettingsStore<P> {
    /// Loading never fails, and gives the configuration the two stored texts hold.
    open spec fn loads(&self, answer: Result<Option<ShortcutConfiguration>, ShortcutSettingsStoreError>) -> bool {
        answer matches Ok(loaded) && exists|translate: Option<Seq<char>>, proofread: Option<Seq<char>>|
            #![trigger stored_configuration_is(loaded, translate, proofread)]
            self.spec_preferences().gives(TRANSLATE_SHORTCUT_KEY@, translate) && (translate is Some
                ==> self.spec_preferences().gives(PROOFREAD_SHORTCUT_KEY@, proofread)) && stored_configuration_is(
                loaded,
                translate,
                proofread,
            )
    }

    /// Saving succeeds when both shortcuts read back, and fails when one does not.
    open spec fn saves(&self, configuration: ShortcutConfiguration, answer: Result<(), ShortcutSettingsStoreError>) -> bool {
        &&& answer is Ok ==> self.spec_preferences().gives(
            TRANSLATE_SHORTCUT_KEY@,
            Some(spec_encode_shortcut(configuration.spec_shortcut_for(TextAction::Translate))),
        ) && self.spec_preferences().gives(
            PROOFREAD_SHORTCUT_KEY@,
            Some(spec_encode_shortcut(configuration.spec_shortcut_for(TextAction::Proofread))),
        )
        &&& answer is Err ==> (exists|observed: Option<Seq<char>>|
            #[trigger] self.spec_preferences().gives(TRANSLATE_SHORTCUT_KEY@, observed) && observed != Some(
                spec_encode_shortcut(configuration.spec_shortcut_for(TextAction::Translate)),
            )) || (exists|observed: Option<Seq<char>>|
            #[trigger] self.spec_preferences().gives(PROOFREAD_SHORTCUT_KEY@, observed) && observed != Some(
                spec_encode_shortcut(configuration.spec_shortcut_for(TextAction::Proofread)),
            ))
    }

    /// The stored shortcuts; missing or invalid values give none, so the defaults apply.
    fn load(&self) -> (r: Result<Option<ShortcutConfiguration>, ShortcutSettingsStoreError>)
        ensures
            r matches Ok(loaded) && exists|translate: Option<Seq<char>>, proofread: Option<Seq<char>>|
                #![trigger stored_configuration_is(loaded, translate, proofread)]
                self.spec_preferences().gives(TRANSLATE_SHORTCUT_KEY@, translate) && (translate is Some
                    ==> self.spec_preferences().gives(PROOFREAD_SHORTCUT_KEY@, proofread))
                    && stored_configuration_is(loaded, translate, proofread),
    {
        let stored_translate = self.preferences.get(TRANSLATE_SHORTCUT_KEY);
        let ghost t = opt_chars(stored_translate);
        let translate = match stored_translate {
            Some(t) => t,
            None => {
                assert(stored_configuration_is(None, t, None));
                return Ok(None);
            },
        };
        let stored_proofread = self.preferences.get(PROOFREAD_SHORTCUT_KEY);
        let ghost p = opt_chars(stored_proofread);
        let proofread = match stored_proofread {
            Some(p) => p,
            None => {
                assert(stored_configuration_is(None, t, p));
                return Ok(None);
            },
        };
        let loaded = stored_configuration(Some(translate), Some(proofread));
        assert(stored_configuration_is(loaded, t, p));
        Ok(loaded)
    }

    /// Stores both shortcuts; when either does not read back, both previous values are put
    /// back and the save fails.
    fn save(&self, configuration: &ShortcutConfiguration) -> (r: Result<(), ShortcutSettingsStoreError>)
        ensures
            r is Ok ==> self.spec_preferences().gives(
                TRANSLATE_SHORTCUT_KEY@,
                Some(spec_encode_shortcut(configuration.spec_shortcut_for(TextAction::Translate))),
            ) && self.spec_preferences().gives(
                PROOFREAD_SHORTCUT_KEY@,
                Some(spec_encode_shortcut(configuration.spec_shortcut_for(TextAction::Proofread))),
            ),
            r is Err ==> (exists|observed: Option<Seq<char>>|
                #[trigger] self.spec_preferences().gives(TRANSLATE_SHORTCUT_KEY@, observed) && observed != Some(
                    spec_encode_shortcut(configuration.spec_shortcut_for(TextAction::Translate)),
                )) || (exists|observed: Option<Seq<char>>|
                #[trigger] self.spec_preferences().gives(PROOFREAD_SHORTCUT_KEY@, observed) && observed != Some(
                    spec_encode_shortcut(configuration.spec_shortcut_for(TextAction::Proofread)),
                )),
    {
        let previous_translate = self.preferences.get(TRANSLATE_SHORTCUT_KEY);
        let previous_proofread = self.preferences.get(PROOFREAD_SHORTCUT_KEY);
        let translate = encode_shortcut(configuration.shortcut_for(TextAction::Translate));
        let proofread = encode_shortcut(configuration.shortcut_for(TextAction::Proofread));
        self.preferences.set(TRANSLATE_SHORTCUT_KEY, Some(translate.as_str()));
        self.preferences.set(PROOFREAD_SHORTCUT_KEY, Some(proofread.as_str()));
        let observed_translate = self.preferences.get(TRANSLATE_SHORTCUT_KEY);
        let ghost answer_translate = opt_chars(observed_translate);
        if reads_back(&observed_translate, translate.as_str()) {
            let observed_proofread = self.preferences.get(PROOFREAD_SHORTCUT_KEY);
            let ghost answer_proofread = opt_chars(observed_proofread);
            if reads_back(&observed_proofread, proofread.as_str()) {
                return Ok(());
            }
            assert(self.spec_preferences().gives(PROOFREAD_SHORTCUT_KEY@, answer_proofread) && answer_proofread
                != Some(proofread@));
        } else {
            assert(self.spec_preferences().gives(TRANSLATE_SHORTCUT_KEY@, answer_translate) && answer_translate
                != Some(translate@));
        }
        self.preferences.set(TRANSLATE_SHORTCUT_KEY, as_deref(&previous_translate));
        self.preferences.set(PROOFREAD_SHORTCUT_KEY, as_deref(&previous_proofread));
        Err(ShortcutSettingsStoreError)
    }
}

} // verus!
