//! The persisted choice of target language.
use vstd::prelude::*;

use std::sync::Arc;

use crate::translation::{LanguageIdentifier, TranslationSettings};

verus! {

/// The settings store could not be read or written.
#[derive(Clone, Copy, Debug, PartialEq, Eq, Structural)]
pub enum TranslationSettingsStoreError {
    Unavailable,
}

/// The identifier of a loaded target language.
pub open spec fn loaded_target_view(loaded: Result<Option<LanguageIdentifier>, TranslationSettingsStoreError>) -> Result<
    Option<Seq<char>>,
    TranslationSettingsStoreError,
> {
    match loaded {
        Ok(Some(id)) => Ok(Some(id@)),
        Ok(None) => Ok(None),
        Err(e) => Err(e),
    }
}

/// Where the target language is kept between launches.
///
/// Each answer is one its `loads` and `saves` allow; a store that does not say otherwise
/// may give any answer.
pub trait TranslationSettingsStore {
    /// Whether `answer` may be what loading the target language gives.
    open spec fn loads(&self, answer: Result<Option<Seq<char>>, TranslationSettingsStoreError>) -> bool {
        true
    }

    fn load_target_language(&self) -> (r: Result<Option<LanguageIdentifier>, TranslationSettingsStoreError>)
        ensures
            self.loads(loaded_target_view(r)),
    ;

    /// Whether `answer` may be what saving `target_language` gives.
    open spec fn saves(&self, target_language: Seq<char>, answer: Result<(), TranslationSettingsStoreError>) -> bool {
        true
    }

    fn save_target_language(
        &self,
        target_language: &LanguageIdentifier,
    ) -> (r: Result<(), TranslationSettingsStoreError>)
        ensures
            self.saves(target_language@, r),
    ;
}

/// Why a preference change was refused.
#[derive(Clone, Copy, Debug, PartialEq, Eq, Structural)]
pub enum TranslationPreferenceFailure {
    NoSupportedTargets,
    UnsupportedTarget,
    PersistenceFailed,
}

/// The languages of a list of identifiers.
pub open spec fn languages(ids: Seq<LanguageIdentifier>) -> Seq<Seq<char>> {
    ids.map_values(|id: LanguageIdentifier| id@)
}

/// A list with later repetitions removed, keeping first occurrences in order.
pub open spec fn first_occurrences(s: Seq<Seq<char>>) -> Seq<Seq<char>>
    decreases s.len(),
{
    if s.len() == 0 {
        Seq::<Seq<char>>::empty()
    } else {
        let init = first_occurrences(s.drop_last());
        if init.contains(s.last()) {
            init
        } else {
            init.push(s.last())
        }
    }
}

/// English.
pub open spec fn english() -> Seq<char> {
    seq!['e', 'n']
}

/// The target chosen when the current one is not supported: English if offered, else the first.
pub open spec fn fallback_target(supported: Seq<Seq<char>>) -> Seq<char> {
    if supported.contains(english()) {
        english()
    } else {
        supported[0]
    }
}

pub proof fn lemma_first_occurrences(s: Seq<Seq<char>>)
    ensures
        forall|x: Seq<char>| first_occurrences(s).contains(x) <==> s.contains(x),
        first_occurrences(s).no_duplicates(),
        s.len() > 0 ==> first_occurrences(s).len() > 0,
    decreases s.len(),
{
    if s.len() > 0 {
        let init = s.drop_last();
        lemma_first_occurrences(init);
        let f = first_occurrences(init);
        let fs = first_occurrences(s);
        assert forall|x: Seq<char>| fs.contains(x) <==> s.contains(x) by {
            if f.contains(x) {
                let k = choose|k: int| 0 <= k < f.len() && f[k] == x;
                if !f.contains(s.last()) {
                    assert(fs[k] == x);
                }
                assert(fs.contains(x));
            }
            if fs.contains(x) && !f.contains(x) {
                let k = choose|k: int| 0 <= k < fs.len() && fs[k] == x;
                if f.contains(s.last()) {
                    assert(f[k] == x);
                } else {
                    if k < f.len() {
                        assert(f[k] == x);
                    }
                    assert(x == s.last());
                }
            }
            if s.contains(x) {
                let k = choose|k: int| 0 <= k < s.len() && s[k] == x;
                if k < s.len() - 1 {
                    assert(init[k] == x);
                    assert(init.contains(x));
                } else {
                    assert(x == s.last());
                    if !f.contains(x) {
                        assert(fs[f.len() as int] == x);
                    }
                }
            }
            if init.contains(x) {
                let k = choose|k: int| 0 <= k < init.len() && init[k] == x;
                assert(s[k] == x);
            }
            if x == s.last() {
                assert(s[s.len() - 1] == x);
            }
        }
        if !f.contains(s.last()) {
            let g = f.push(s.last());
            assert forall|i: int, j: int| 0 <= i < g.len() && 0 <= j < g.len() && i != j implies g[i]
                != g[j] by {
                if i < f.len() && j < f.len() {
                } else if i == f.len() {
                    assert(f[j] == g[j]);
                    if g[i] == g[j] {
                        assert(f.contains(s.last()));
                    }
                } else {
                    assert(f[i] == g[i]);
                    if g[i] == g[j] {
                        assert(f.contains(s.last()));
                    }
                }
            }
        }
    }
}

/// The target-language preference together with the languages the translator supports.
pub struct TranslationPreferences<S: ?Sized> {
    store: Arc<S>,
    settings: TranslationSettings,
    supported_targets: Vec<LanguageIdentifier>,
}

impl<S: TranslationSettingsStore + ?Sized> TranslationPreferences<S> {
    /// The chosen target language.
    pub closed spec fn spec_target(&self) -> Seq<char> {
        self.settings.spec_target()
    }

    /// The supported target languages, without repetitions, in the order first given.
    pub closed spec fn spec_supported(&self) -> Seq<Seq<char>> {
        languages(self.supported_targets@)
    }

    /// Once supported targets are known, the chosen target is one of them.
    pub open spec fn is_consistent(&self) -> bool {
        self.spec_supported().len() > 0 ==> self.spec_supported().contains(self.spec_target())
    }

    /// The settings that a loaded target language gives: that language, or English.
    pub fn settings_from_loaded(loaded: Option<LanguageIdentifier>) -> (r: TranslationSettings)
        ensures
            r.spec_target() == (match loaded {
                Some(id) => id@,
                None => english(),
            }),
    {
        match loaded {
            Some(id) => TranslationSettings::new(id),
            None => TranslationSettings::english(),
        }
    }

    /// The store the target language is saved to.
    pub closed spec fn spec_store(&self) -> Arc<S> {
        self.store
    }

    /// Loads the persisted target language, defaulting to English; no targets are supported
    /// yet. The store's failure is passed on.
    pub fn load(store: Arc<S>) -> (r: Result<
        Self,
        TranslationSettingsStoreError,
    >)
        ensures
            r matches Ok(p) ==> p.spec_supported().len() == 0 && p.is_consistent() && p.spec_store() == store
                && exists|loaded: Option<Seq<char>>|
                #[trigger] store.loads(Ok(loaded)) && p.spec_target() == match loaded {
                    Some(id) => id,
                    None => english(),
                },
            r matches Err(e) ==> store.loads(Err(e)),
    {
        let answer = store.load_target_language();
        let ghost view = loaded_target_view(answer);
        let loaded = match answer {
            Ok(loaded) => loaded,
            Err(e) => return Err(e),
        };
        let settings = Self::settings_from_loaded(loaded);
        assert(store.loads(Ok(view->Ok_0)));
        Ok(TranslationPreferences { store, settings, supported_targets: Vec::new() })
    }

    /// The current settings.
    pub fn settings(&self) -> (r: TranslationSettings)
        ensures
            r.spec_target() == self.spec_target(),
    {
        self.settings.duplicate()
    }

    /// The supported targets, in order.
    pub fn supported_targets(&self) -> (r: &Vec<LanguageIdentifier>)
        ensures
            languages(r@) == self.spec_supported(),
    {
        &self.supported_targets
    }

    /// Whether `target` is among `ids`.
    fn contains(ids: &Vec<LanguageIdentifier>, target: &LanguageIdentifier) -> (r: bool)
        ensures
            r == languages(ids@).contains(target@),
    {
        let mut i: usize = 0;
        while i < ids.len()
            invariant
                i <= ids.len(),
                forall|k: int| 0 <= k < i ==> ids@[k]@ != target@,
            decreases ids.len() - i,
        {
            if ids[i].same_as(target) {
                proof {
                    assert(languages(ids@)[i as int] == target@);
                }
                return true;
            }
            i += 1;
        }
        proof {
            if languages(ids@).contains(target@) {
                let k = choose|k: int| 0 <= k < languages(ids@).len() && languages(ids@)[k] == target@;
                assert(ids@[k]@ == target@);
            }
        }
        false
    }

    /// The list without repetitions, keeping first occurrences in order.
    fn without_repetitions(targets: Vec<LanguageIdentifier>) -> (r: Vec<LanguageIdentifier>)
        ensures
            languages(r@) == first_occurrences(languages(targets@)),
    {
        let mut out: Vec<LanguageIdentifier> = Vec::new();
        let mut i: usize = 0;
        while i < targets.len()
            invariant
                i <= targets.len(),
                languages(out@) == first_occurrences(languages(targets@.take(i as int))),
            decreases targets.len() - i,
        {
            let ghost prefix = targets@.take(i as int);
            assert(languages(targets@.take(i + 1)).drop_last() =~= languages(prefix));
            assert(languages(targets@.take(i + 1)).last() == targets@[i as int]@);
            if !Self::contains(&out, &targets[i]) {
                let ghost before = out@;
                out.push(targets[i].duplicate());
                assert(languages(out@) =~= languages(before).push(targets@[i as int]@));
            }
            i += 1;
        }
        assert(targets@.take(targets.len() as int) =~= targets@);
        out
    }

    /// The fallback among `targets`: English when offered, else the first.
    fn fallback(targets: &Vec<LanguageIdentifier>) -> (r: LanguageIdentifier)
        requires
            targets.len() > 0,
        ensures
            r@ == fallback_target(languages(targets@)),
    {
        let english = LanguageIdentifier::english();
        if Self::contains(targets, &english) {
            english
        } else {
            targets[0].duplicate()
        }
    }

    /// Records the targets the translator supports and returns the target that stays chosen.
    ///
    /// A chosen target that is not supported is replaced, once persisted, by English when
    /// offered or else by the first supported target; if persisting fails nothing changes.
    pub fn set_supported_targets(&mut self, targets: Vec<LanguageIdentifier>) -> (r: Result<
        LanguageIdentifier,
        TranslationPreferenceFailure,
    >)
        ensures
            ({
                let supported = first_occurrences(languages(targets@));
                &&& supported.len() == 0 ==> r == Err::<
                    LanguageIdentifier,
                    TranslationPreferenceFailure,
                >(TranslationPreferenceFailure::NoSupportedTargets) && final(self).spec_target()
                    == old(self).spec_target() && final(self).spec_supported() == old(
                    self,
                ).spec_supported()
                &&& supported.len() > 0 && supported.contains(old(self).spec_target()) ==> (
                r matches Ok(t) && t@ == old(self).spec_target() && final(self).spec_target()
                    == old(self).spec_target() && final(self).spec_supported() == supported)
                &&& supported.len() > 0 && !supported.contains(old(self).spec_target()) ==> exists|
                    answer: Result<(), TranslationSettingsStoreError>,
                |
                    #[trigger] old(self).spec_store().saves(fallback_target(supported), answer) && (answer is Ok ==> (
                    r matches Ok(t) && t@ == fallback_target(supported) && final(self).spec_target()
                        == fallback_target(supported) && final(self).spec_supported() == supported)) && (answer is Err
                        ==> (r == Err::<
                        LanguageIdentifier,
                        TranslationPreferenceFailure,
                    >(TranslationPreferenceFailure::PersistenceFailed) && final(self).spec_target()
                        == old(self).spec_target() && final(self).spec_supported() == old(
                        self,
                    ).spec_supported()))
            }),
            old(self).is_consistent() ==> final(self).is_consistent(),
            final(self).spec_store() == old(self).spec_store(),
    {
        let targets = Self::without_repetitions(targets);
        proof {
            lemma_first_occurrences(languages(targets@));
        }
        if targets.len() == 0 {
            return Err(TranslationPreferenceFailure::NoSupportedTargets);
        }
        if !Self::contains(&targets, self.settings.target_language()) {
            let fallback = Self::fallback(&targets);
            proof {
                let supported = languages(targets@);
                if supported.contains(english()) {
                } else {
                    assert(supported.contains(supported[0]));
                }
            }
            let answer = self.store.save_target_language(&fallback);
            assert(self.spec_store().saves(fallback@, answer));
            match answer {
                Ok(()) => {},
                Err(_) => return Err(TranslationPreferenceFailure::PersistenceFailed),
            }
            self.settings.set_target_language(fallback);
        }
        self.supported_targets = targets;
        Ok(self.settings.target_language().duplicate())
    }

    /// Chooses a supported target language, persisting it first when it changes.
    pub fn set_target_language(&mut self, target: LanguageIdentifier) -> (r: Result<
        (),
        TranslationPreferenceFailure,
    >)
        ensures
            !old(self).spec_supported().contains(target@) ==> r == Err::<
                (),
                TranslationPreferenceFailure,
            >(TranslationPreferenceFailure::UnsupportedTarget) && final(self).spec_target() == old(
                self,
            ).spec_target(),
            old(self).spec_supported().contains(target@) && target@ == old(self).spec_target()
                ==> r == Ok::<(), TranslationPreferenceFailure>(()) && final(self).spec_target()
                == old(self).spec_target(),
            old(self).spec_supported().contains(target@) && target@ != old(self).spec_target() ==> exists|
                answer: Result<(), TranslationSettingsStoreError>,
            |
                #[trigger] old(self).spec_store().saves(target@, answer) && (answer is Ok ==> r is Ok
                    && final(self).spec_target() == target@) && (answer is Err ==> r == Err::<
                    (),
                    TranslationPreferenceFailure,
                >(TranslationPreferenceFailure::PersistenceFailed) && final(self).spec_target() == old(
                    self,
                ).spec_target()),
            final(self).spec_supported() == old(self).spec_supported(),
            old(self).is_consistent() ==> final(self).is_consistent(),
            final(self).spec_store() == old(self).spec_store(),
    {
        if !Self::contains(&self.supported_targets, &target) {
            return Err(TranslationPreferenceFailure::UnsupportedTarget);
        }
        if self.settings.target_language().same_as(&target) {
            return Ok(());
        }
        let answer = self.store.save_target_language(&target);
        assert(self.spec_store().saves(target@, answer));
        match answer {
            Ok(()) => {},
            Err(_) => return Err(TranslationPreferenceFailure::PersistenceFailed),
        }
        self.settings.set_target_language(target);
        Ok(())
    }
}

} // verus!
