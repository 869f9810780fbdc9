//! Translating a selection into the chosen target language.
use vstd::prelude::*;

use std::sync::Arc;

use crate::cancellation::CancellationToken;
use crate::text::{is_white_space, lemma_leading_ws_end_bounds, lemma_trailing_ws_start_bounds, trim_end_index, trim_start_index, 
    char_count, chars_of, is_blank, lemma_trim_bounds, owned, push_char, text_is_blank, trim_bounds,
    trimmed,
};

verus! {

/// The longest selection, in characters, that is sent for translation.
pub const MAX_TRANSLATION_CHARACTERS: usize = 10_000;

/// `u8::is_ascii_alphabetic` on a character.
pub open spec fn is_ascii_alpha(c: char) -> bool {
    ('a' <= c <= 'z') || ('A' <= c <= 'Z')
}

/// `u8::is_ascii_alphanumeric` on a character.
pub open spec fn is_ascii_alnum(c: char) -> bool {
    is_ascii_alpha(c) || ('0' <= c <= '9')
}

/// `char::to_ascii_lowercase`.
pub open spec fn ascii_lower(c: char) -> char {
    if 'A' <= c <= 'Z' {
        ((c as u32) + 32) as char
    } else {
        c
    }
}

/// The pieces of a text between dashes, as `str::split('-')` yields them.
pub open spec fn dash_pieces(t: Seq<char>) -> Seq<Seq<char>>
    decreases t.len(),
{
    if t.len() == 0 {
        seq![Seq::<char>::empty()]
    } else {
        let init = dash_pieces(t.drop_last());
        if t.last() == '-' {
            init.push(Seq::<char>::empty())
        } else {
            init.update(init.len() - 1, init.last().push(t.last()))
        }
    }
}

/// Characters allowed in the piece at position `j`: letters in the primary language subtag,
/// letters or digits in the subtags that follow.
pub open spec fn subtag_char_ok(j: int, c: char) -> bool {
    if j == 0 {
        is_ascii_alpha(c)
    } else {
        is_ascii_alnum(c)
    }
}

/// The piece at position `j` of an identifier: two to eight letters for the primary language
/// subtag, one to eight letters or digits for each further subtag.
pub open spec fn subtag_ok(j: int, p: Seq<char>) -> bool {
    &&& (if j == 0 {
        2 <= p.len() <= 8
    } else {
        1 <= p.len() <= 8
    })
    &&& forall|k: int| 0 <= k < p.len() ==> subtag_char_ok(j, #[trigger] p[k])
}

/// A well-formed language identifier such as `en`, `zh-Hans` or `pt-BR`.
pub open spec fn is_language_tag(t: Seq<char>) -> bool {
    let pieces = dash_pieces(t);
    forall|j: int| 0 <= j < pieces.len() ==> subtag_ok(j, #[trigger] pieces[j])
}

/// The identifier kept for a text: trimmed and in lower case.
pub open spec fn normalized_language_tag(s: Seq<char>) -> Seq<char> {
    trimmed(s).map_values(|c: char| ascii_lower(c))
}

proof fn lemma_dash_pieces_nonempty(t: Seq<char>)
    ensures
        dash_pieces(t).len() >= 1,
    decreases t.len(),
{
    if t.len() > 0 {
        lemma_dash_pieces_nonempty(t.drop_last());
    }
}

/// The text in lower case.
pub open spec fn lower_text(s: Seq<char>) -> Seq<char> {
    s.map_values(|c: char| ascii_lower(c))
}

/// Lower-casing changes no dash, no letter into a non-letter, and no digit.
proof fn lemma_lower_char(c: char)
    ensures
        (ascii_lower(c) == '-') == (c == '-'),
        is_ascii_alpha(ascii_lower(c)) == is_ascii_alpha(c),
        is_ascii_alnum(ascii_lower(c)) == is_ascii_alnum(c),
        ascii_lower(ascii_lower(c)) == ascii_lower(c),
        is_white_space(ascii_lower(c)) == is_white_space(c),
{
}

/// Splitting a lower-cased text at its dashes gives the lower-cased pieces.
proof fn lemma_dash_pieces_lower(t: Seq<char>)
    ensures
        dash_pieces(lower_text(t)) == dash_pieces(t).map_values(|p: Seq<char>| lower_text(p)),
    decreases t.len(),
{
    if t.len() == 0 {
        assert(lower_text(t) =~= Seq::<char>::empty());
        assert(dash_pieces(t).map_values(|p: Seq<char>| lower_text(p)) =~= seq![lower_text(Seq::<char>::empty())]);
        assert(lower_text(Seq::<char>::empty()) =~= Seq::<char>::empty());
    } else {
        let u = lower_text(t);
        assert(u.drop_last() =~= lower_text(t.drop_last()));
        lemma_dash_pieces_lower(t.drop_last());
        lemma_dash_pieces_nonempty(t.drop_last());
        lemma_lower_char(t.last());
        let init = dash_pieces(t.drop_last());
        let init_lower = init.map_values(|p: Seq<char>| lower_text(p));
        if t.last() == '-' {
            assert(lower_text(Seq::<char>::empty()) =~= Seq::<char>::empty());
            assert(dash_pieces(t).map_values(|p: Seq<char>| lower_text(p)) =~= init_lower.push(Seq::<char>::empty()));
        } else {
            assert(lower_text(init.last().push(t.last())) =~= lower_text(init.last()).push(ascii_lower(t.last())));
            assert(dash_pieces(t).map_values(|p: Seq<char>| lower_text(p)) =~= init_lower.update(
                init_lower.len() - 1,
                init_lower.last().push(u.last()),
            ));
        }
    }
}

/// A lower-cased piece is acceptable exactly when the piece is.
proof fn lemma_subtag_lower(j: int, p: Seq<char>)
    ensures
        subtag_ok(j, lower_text(p)) == subtag_ok(j, p),
{
    assert forall|k: int| 0 <= k < p.len() implies subtag_char_ok(j, #[trigger] lower_text(p)[k]) == subtag_char_ok(
        j,
        p[k],
    ) by {
        lemma_lower_char(p[k]);
    }
    if subtag_ok(j, p) {
        assert forall|k: int| 0 <= k < lower_text(p).len() implies subtag_char_ok(j, #[trigger] lower_text(p)[k]) by {
            assert(subtag_char_ok(j, p[k]));
        }
    }
    if subtag_ok(j, lower_text(p)) {
        assert forall|k: int| 0 <= k < p.len() implies subtag_char_ok(j, #[trigger] p[k]) by {
            assert(subtag_char_ok(j, lower_text(p)[k]));
        }
    }
}

/// A text whose first and last characters are not white space is its own trim.
proof fn lemma_trimmed_when_unpadded(s: Seq<char>)
    requires
        s.len() > 0 ==> !is_white_space(s[0]) && !is_white_space(s.last()),
    ensures
        trimmed(s) == s,
{
    if s.len() > 0 {
        assert(trim_start_index(s) == 0);
        assert(trim_end_index(s) == s.len());
    }
    assert(trimmed(s) =~= s);
}

/// A trimmed text starts and ends with characters that are not white space.
proof fn lemma_trimmed_is_unpadded(s: Seq<char>)
    ensures
        trimmed(s).len() > 0 ==> !is_white_space(trimmed(s)[0]) && !is_white_space(trimmed(s).last()),
{
    lemma_trim_bounds(s);
    lemma_leading_ws_end_bounds(s, 0);
    lemma_trailing_ws_start_bounds(s, trim_start_index(s), s.len() as int);
}

/// A normalized identifier is a valid identifier, and normalizing it again changes nothing:
/// what is stored of an identifier reads back as the same identifier.
pub proof fn lemma_normalized_tag_is_stable(text: Seq<char>)
    requires
        is_language_tag(trimmed(text)),
    ensures
        is_language_tag(trimmed(normalized_language_tag(text))),
        normalized_language_tag(normalized_language_tag(text)) == normalized_language_tag(text),
{
    let t = trimmed(text);
    let n = normalized_language_tag(text);
    assert(n =~= lower_text(t));
    lemma_trimmed_is_unpadded(text);
    if t.len() > 0 {
        lemma_lower_char(t[0]);
        lemma_lower_char(t.last());
        assert(n[0] == ascii_lower(t[0]));
        assert(n.last() == ascii_lower(t.last()));
    }
    lemma_trimmed_when_unpadded(n);
    lemma_dash_pieces_lower(t);
    let pieces = dash_pieces(t);
    assert forall|j: int| 0 <= j < dash_pieces(n).len() implies subtag_ok(j, #[trigger] dash_pieces(n)[j]) by {
        lemma_subtag_lower(j, pieces[j]);
    }
    assert forall|k: int| 0 <= k < n.len() implies #[trigger] ascii_lower(n[k]) == n[k] by {
        lemma_lower_char(t[k]);
    }
    assert(normalized_language_tag(n) =~= n);
}

/// A text without dashes is one piece.
proof fn lemma_dash_pieces_without_dash(s: Seq<char>)
    requires
        forall|k: int| 0 <= k < s.len() ==> s[k] != '-',
    ensures
        dash_pieces(s) == seq![s],
    decreases s.len(),
{
    if s.len() > 0 {
        lemma_dash_pieces_without_dash(s.drop_last());
        assert(s.drop_last().push(s.last()) =~= s);
        assert(seq![s.drop_last()].update(0, s.drop_last().push(s.last())) =~= seq![s]);
    } else {
        assert(s =~= Seq::<char>::empty());
    }
}

/// A dash followed by a text without dashes adds that text as a last piece.
proof fn lemma_dash_pieces_append(t: Seq<char>, s: Seq<char>)
    requires
        forall|k: int| 0 <= k < s.len() ==> s[k] != '-',
    ensures
        dash_pieces(t + seq!['-'] + s) == dash_pieces(t).push(s),
    decreases s.len(),
{
    lemma_dash_pieces_nonempty(t);
    let joined = t + seq!['-'] + s;
    if s.len() == 0 {
        assert(joined.drop_last() =~= t);
        assert(s =~= Seq::<char>::empty());
    } else {
        lemma_dash_pieces_append(t, s.drop_last());
        assert(joined.drop_last() =~= t + seq!['-'] + s.drop_last());
        assert(joined.last() == s.last());
        let init = dash_pieces(t).push(s.drop_last());
        assert(init.last() == s.drop_last());
        assert(s.drop_last().push(s.last()) =~= s);
        assert(init.update(init.len() - 1, init.last().push(s.last())) =~= dash_pieces(t).push(s));
    }
}

/// The primary language subtag. A text without dashes is a language identifier exactly
/// when it is two to eight ASCII letters.
pub proof fn law_primary_language_subtags(primary: Seq<char>)
    requires
        forall|k: int| 0 <= k < primary.len() ==> primary[k] != '-',
    ensures
        is_language_tag(primary) == (2 <= primary.len() <= 8 && forall|k: int|
            0 <= k < primary.len() ==> ('a' <= #[trigger] primary[k] <= 'z') || ('A' <= primary[k] <= 'Z')),
{
    lemma_dash_pieces_without_dash(primary);
    if is_language_tag(primary) {
        assert(subtag_ok(0, dash_pieces(primary)[0]));
    }
}

/// Further subtags. A language identifier followed by a dash and a text without dashes is a
/// language identifier exactly when that text is one to eight ASCII letters or digits, so
/// that a region such as `419` in `es-419` or a script such as `Hans` in `zh-Hans` is
/// accepted; a text that is no language identifier stays none whatever follows it.
pub proof fn law_further_language_subtags(tag: Seq<char>, subtag: Seq<char>)
    requires
        forall|k: int| 0 <= k < subtag.len() ==> subtag[k] != '-',
    ensures
        is_language_tag(tag + seq!['-'] + subtag) == (is_language_tag(tag) && 1 <= subtag.len() <= 8 && forall|
            k: int,
        |
            0 <= k < subtag.len() ==> ('a' <= #[trigger] subtag[k] <= 'z') || ('A' <= subtag[k] <= 'Z') || ('0'
                <= subtag[k] <= '9')),
{
    lemma_dash_pieces_append(tag, subtag);
    lemma_dash_pieces_nonempty(tag);
    let before = dash_pieces(tag);
    let pieces = dash_pieces(tag + seq!['-'] + subtag);
    let m = before.len() as int;
    if is_language_tag(tag + seq!['-'] + subtag) {
        assert(subtag_ok(m, pieces[m]));
        assert forall|j: int| 0 <= j < before.len() implies subtag_ok(j, #[trigger] before[j]) by {
            assert(subtag_ok(j, pieces[j]));
        }
        assert forall|k: int| 0 <= k < subtag.len() implies ('a' <= #[trigger] subtag[k] <= 'z') || ('A' <= subtag[k]
            <= 'Z') || ('0' <= subtag[k] <= '9') by {
            assert(subtag_char_ok(m, pieces[m][k]));
        }
    }
    if is_language_tag(tag) && 1 <= subtag.len() <= 8 && forall|k: int|
        0 <= k < subtag.len() ==> ('a' <= #[trigger] subtag[k] <= 'z') || ('A' <= subtag[k] <= 'Z') || ('0'
            <= subtag[k] <= '9') {
        assert forall|j: int| 0 <= j < pieces.len() implies subtag_ok(j, #[trigger] pieces[j]) by {
            if j < m {
                assert(subtag_ok(j, before[j]));
            } else {
                assert forall|k: int| 0 <= k < pieces[j].len() implies subtag_char_ok(j, #[trigger] pieces[j][k]) by {
                    assert(pieces[j][k] == subtag[k]);
                }
            }
        }
    }
}

/// Identifiers are kept in lower case. The identifier kept for a text is its trimmed form
/// with each ASCII capital replaced by the small letter 32 code points after it, and every
/// other character as it is.
pub proof fn law_identifiers_are_kept_in_lower_case(text: Seq<char>)
    ensures
        normalized_language_tag(text).len() == trimmed(text).len(),
        forall|k: int|
            0 <= k < trimmed(text).len() ==> if 'A' <= #[trigger] trimmed(text)[k] <= 'Z' {
                normalized_language_tag(text)[k] as u32 == trimmed(text)[k] as u32 + 32
            } else {
                normalized_language_tag(text)[k] == trimmed(text)[k]
            },
{
}

/// A validated, lower-case language identifier.
#[derive(Clone, Debug, PartialEq, Eq, Hash)]
pub struct LanguageIdentifier(String);

impl View for LanguageIdentifier {
    type V = Seq<char>;

    closed spec fn view(&self) -> Seq<char> {
        self.0@
    }
}

/// `char::to_ascii_lowercase`.
pub fn to_ascii_lower(c: char) -> (r: char)
    ensures
        r == ascii_lower(c),
{
    if 'A' <= c && c <= 'Z' {
        let v = (c as u32) + 32;
        let r = (v as u8) as char;
        r
    } else {
        c
    }
}

/// Scans `t` piece by piece and checks the shape of each piece.
fn check_language_tag(t: &Vec<char>) -> (r: bool)
    ensures
        r == is_language_tag(t@),
{
    let mut i: usize = 0;
    // Index of the piece being read, its length so far, whether its characters fit,
    // and whether every earlier piece had the right shape.
    let mut piece: usize = 0;
    let mut len: usize = 0;
    let mut chars_fit = true;
    let mut done_ok = true;
    proof {
        assert(dash_pieces(t@.take(0)) =~= seq![Seq::<char>::empty()]) by {
            assert(t@.take(0) =~= Seq::<char>::empty());
        }
    }
    while i < t.len()
        invariant
            i <= t.len(),
            piece <= i,
            len <= i,
            dash_pieces(t@.take(i as int)).len() == piece + 1,
            dash_pieces(t@.take(i as int))[piece as int].len() == len,
            chars_fit == (forall|k: int|
                0 <= k < len ==> subtag_char_ok(
                    piece as int,
                    #[trigger] dash_pieces(t@.take(i as int))[piece as int][k],
                )),
            done_ok == (forall|j: int|
                0 <= j < piece ==> subtag_ok(j, #[trigger] dash_pieces(t@.take(i as int))[j])),
        decreases t.len() - i,
    {
        let c = t[i];
        let ghost before = t@.take(i as int);
        let ghost old_pieces = dash_pieces(before);
        assert(t@.take(i + 1).drop_last() =~= before);
        assert(t@.take(i + 1).last() == c);
        let ghost old_piece = piece;
        let ghost old_fit = chars_fit;
        let ghost old_len = len;
        if c == '-' {
            let piece_ok = if piece == 0 {
                chars_fit && 2 <= len && len <= 8
            } else {
                chars_fit && 1 <= len && len <= 8
            };
            proof {
                assert(piece_ok == subtag_ok(piece as int, old_pieces[piece as int]));
            }
            done_ok = done_ok && piece_ok;
            piece = piece + 1;
            len = 0;
            chars_fit = true;
            proof {
                let pieces = dash_pieces(t@.take(i + 1));
                assert(pieces =~= old_pieces.push(Seq::<char>::empty()));
                assert forall|j: int| 0 <= j < old_piece implies pieces[j] == old_pieces[j] by {}
                assert(done_ok == (forall|j: int|
                    0 <= j < piece ==> subtag_ok(j, #[trigger] pieces[j]))) by {
                    if done_ok {
                        assert forall|j: int| 0 <= j < piece implies subtag_ok(j, #[trigger] pieces[j]) by {
                            if j < old_piece {
                                assert(pieces[j] == old_pieces[j]);
                            } else {
                                assert(j == old_piece);
                                assert(pieces[j] == old_pieces[j]);
                            }
                        }
                    } else {
                        if forall|j: int| 0 <= j < piece ==> subtag_ok(j, #[trigger] pieces[j]) {
                            assert forall|j: int| 0 <= j < old_piece implies subtag_ok(j, #[trigger] old_pieces[j]) by {
                                assert(pieces[j] == old_pieces[j]);
                            }
                            assert(subtag_ok(old_piece as int, pieces[old_piece as int]));
                            assert(pieces[old_piece as int] == old_pieces[old_piece as int]);
                        }
                    }
                }
            }
        } else {
            let fits = if piece == 0 {
                ('a' <= c && c <= 'z') || ('A' <= c && c <= 'Z')
            } else {
                ('a' <= c && c <= 'z') || ('A' <= c && c <= 'Z') || ('0' <= c && c <= '9')
            };
            proof {
                assert(fits == subtag_char_ok(piece as int, c));
            }
            chars_fit = chars_fit && fits;
            len = len + 1;
            proof {
                let pieces = dash_pieces(t@.take(i + 1));
                assert(pieces =~= old_pieces.update(
                    old_pieces.len() - 1,
                    old_pieces.last().push(c),
                ));
                assert(pieces[piece as int] =~= old_pieces[piece as int].push(c));
                assert forall|j: int| 0 <= j < piece implies pieces[j] == old_pieces[j] by {}
                assert(chars_fit == (forall|k: int|
                    0 <= k < len ==> subtag_char_ok(piece as int, #[trigger] pieces[piece as int][k]))) by {
                    if chars_fit {
                        assert forall|k: int| 0 <= k < len implies subtag_char_ok(piece as int, #[trigger] pieces[piece as int][k]) by {
                            if k < old_len {
                                assert(pieces[piece as int][k] == old_pieces[piece as int][k]);
                            }
                        }
                    } else {
                        if forall|k: int| 0 <= k < len ==> subtag_char_ok(piece as int, #[trigger] pieces[piece as int][k]) {
                            assert forall|k: int| 0 <= k < old_len implies subtag_char_ok(piece as int, #[trigger] old_pieces[piece as int][k]) by {
                                assert(pieces[piece as int][k] == old_pieces[piece as int][k]);
                            }
                            assert(subtag_char_ok(piece as int, pieces[piece as int][old_len as int]));
                        }
                    }
                }
                assert(done_ok == (forall|j: int|
                    0 <= j < piece ==> subtag_ok(j, #[trigger] pieces[j]))) by {
                    if forall|j: int| 0 <= j < piece ==> subtag_ok(j, #[trigger] pieces[j]) {
                        assert forall|j: int| 0 <= j < piece implies subtag_ok(j, #[trigger] old_pieces[j]) by {
                            assert(pieces[j] == old_pieces[j]);
                        }
                    }
                    if forall|j: int| 0 <= j < piece ==> subtag_ok(j, #[trigger] old_pieces[j]) {
                        assert forall|j: int| 0 <= j < piece implies subtag_ok(j, #[trigger] pieces[j]) by {
                            assert(pieces[j] == old_pieces[j]);
                        }
                    }
                }
            }
        }
        i = i + 1;
    }
    assert(t@.take(t.len() as int) =~= t@);
    let last_ok = if piece == 0 {
        chars_fit && 2 <= len && len <= 8
    } else {
        chars_fit && 1 <= len && len <= 8
    };
    proof {
        let pieces = dash_pieces(t@);
        assert(last_ok == subtag_ok(piece as int, pieces[piece as int]));
        if done_ok && last_ok {
            assert forall|j: int| 0 <= j < pieces.len() implies subtag_ok(j, #[trigger] pieces[j]) by {
                if j < piece {
                } else {
                    assert(j == piece);
                }
            }
        }
        if is_language_tag(t@) {
            assert(subtag_ok(piece as int, pieces[piece as int]));
        }
    }
    done_ok && last_ok
}

impl LanguageIdentifier {
    /// Trims and validates an identifier such as ` ZH-Hans `, keeping it in lower case.
    pub fn new(identifier: &str) -> (r: Result<Self, LanguageIdentifierError>)
        ensures
            is_language_tag(trimmed(identifier@)) ==> (r matches Ok(id) && id@
                == normalized_language_tag(identifier@)),
            !is_language_tag(trimmed(identifier@)) ==> r == Err::<Self, LanguageIdentifierError>(
                LanguageIdentifierError::Invalid,
            ),
    {
        let v = chars_of(identifier);
        let (a, b) = trim_bounds(&v);
        let mut t: Vec<char> = Vec::new();
        let mut i = a;
        while i < b
            invariant
                a <= i <= b <= v.len(),
                t@ == v@.subrange(a as int, i as int),
            decreases b - i,
        {
            t.push(v[i]);
            assert(v@.subrange(a as int, i + 1) =~= v@.subrange(a as int, i as int).push(v@[i as int]));
            i += 1;
        }
        assert(t@ == trimmed(identifier@));
        if !check_language_tag(&t) {
            return Err(LanguageIdentifierError::Invalid);
        }
        let mut lower = String::new();
        let mut k: usize = 0;
        while k < t.len()
            invariant
                k <= t.len(),
                lower@ == t@.take(k as int).map_values(|c: char| ascii_lower(c)),
            decreases t.len() - k,
        {
            let c = to_ascii_lower(t[k]);
            push_char(&mut lower, c);
            assert(t@.take(k + 1).map_values(|c: char| ascii_lower(c)) =~= t@.take(
                k as int,
            ).map_values(|c: char| ascii_lower(c)).push(ascii_lower(t@[k as int])));
            k += 1;
        }
        assert(t@.take(t.len() as int) =~= t@);
        Ok(LanguageIdentifier(lower))
    }

    /// English, the identifier used when nothing else was chosen.
    pub fn english() -> (r: Self)
        ensures
            r@ == seq!['e', 'n'],
    {
        let mut s = String::new();
        push_char(&mut s, 'e');
        push_char(&mut s, 'n');
        LanguageIdentifier(s)
    }

    pub fn as_str(&self) -> (r: &str)
        ensures
            r@ == self@,
    {
        self.0.as_str()
    }

    pub fn into_string(self) -> (r: String)
        ensures
            r@ == self@,
    {
        self.0
    }

    /// A copy of the identifier.
    pub fn duplicate(&self) -> (r: Self)
        ensures
            r@ == self@,
    {
        LanguageIdentifier(self.0.clone())
    }

    /// Whether two identifiers name the same language.
    pub fn same_as(&self, other: &Self) -> (r: bool)
        ensures
            r == (self@ == other@),
    {
        self.0 == other.0
    }
}

/// An identifier that is not a well-formed language tag.
#[derive(Clone, Copy, Debug, PartialEq, Eq, Structural)]
pub enum LanguageIdentifierError {
    Invalid,
}

/// The user's translation settings.
#[derive(Clone, Debug, PartialEq, Eq)]
pub struct TranslationSettings {
    target_language: LanguageIdentifier,
}

impl TranslationSettings {
    pub closed spec fn spec_target(&self) -> Seq<char> {
        self.target_language@
    }

    pub fn new(target_language: LanguageIdentifier) -> (r: Self)
        ensures
            r.spec_target() == target_language@,
    {
        TranslationSettings { target_language }
    }

    /// Settings that translate into English.
    pub fn english() -> (r: Self)
        ensures
            r.spec_target() == seq!['e', 'n'],
    {
        TranslationSettings { target_language: LanguageIdentifier::english() }
    }

    pub fn target_language(&self) -> (r: &LanguageIdentifier)
        ensures
            r@ == self.spec_target(),
    {
        &self.target_language
    }

    pub fn set_target_language(&mut self, target_language: LanguageIdentifier)
        ensures
            final(self).spec_target() == target_language@,
    {
        self.target_language = target_language;
    }

    /// A copy of the settings.
    pub fn duplicate(&self) -> (r: Self)
        ensures
            r.spec_target() == self.spec_target(),
    {
        TranslationSettings { target_language: self.target_language.duplicate() }
    }
}

impl Default for TranslationSettings {
    fn default() -> (r: Self)
        ensures
            r.spec_target() == seq!['e', 'n'],
    {
        TranslationSettings::english()
    }
}

/// What is handed to a translator.
#[derive(Clone, Debug, PartialEq, Eq)]
pub struct TranslationRequest {
    text: String,
    target_language: LanguageIdentifier,
}

impl TranslationRequest {
    pub closed spec fn spec_text(&self) -> Seq<char> {
        self.text@
    }

    pub closed spec fn spec_target(&self) -> Seq<char> {
        self.target_language@
    }

    pub fn text(&self) -> (r: &str)
        ensures
            r@ == self.spec_text(),
    {
        self.text.as_str()
    }

    pub fn target_language(&self) -> (r: &LanguageIdentifier)
        ensures
            r@ == self.spec_target(),
    {
        &self.target_language
    }
}

/// What a translator answers.
#[derive(Clone, Debug, PartialEq, Eq)]
pub struct TranslatorResponse {
    source_language: LanguageIdentifier,
    translated_text: String,
}

impl TranslatorResponse {
    pub closed spec fn spec_source(&self) -> Seq<char> {
        self.source_language@
    }

    pub closed spec fn spec_translated(&self) -> Seq<char> {
        self.translated_text@
    }

    pub fn new(source_language: LanguageIdentifier, translated_text: &str) -> (r: Self)
        ensures
            r.spec_source() == source_language@,
            r.spec_translated() == translated_text@,
    {
        TranslatorResponse { source_language, translated_text: owned(translated_text) }
    }

    pub fn source_language(&self) -> (r: &LanguageIdentifier)
        ensures
            r@ == self.spec_source(),
    {
        &self.source_language
    }

    pub fn translated_text(&self) -> (r: &str)
        ensures
            r@ == self.spec_translated(),
    {
        self.translated_text.as_str()
    }
}

/// A finished translation together with the request it answers.
#[derive(Clone, Debug, PartialEq, Eq)]
pub struct TranslationResult {
    original_text: String,
    source_language: LanguageIdentifier,
    target_language: LanguageIdentifier,
    translated_text: String,
}

impl TranslationResult {
    pub closed spec fn spec_original(&self) -> Seq<char> {
        self.original_text@
    }

    pub closed spec fn spec_source(&self) -> Seq<char> {
        self.source_language@
    }

    pub closed spec fn spec_target(&self) -> Seq<char> {
        self.target_language@
    }

    pub closed spec fn spec_translated(&self) -> Seq<char> {
        self.translated_text@
    }

    pub fn original_text(&self) -> (r: &str)
        ensures
            r@ == self.spec_original(),
    {
        self.original_text.as_str()
    }

    pub fn source_language(&self) -> (r: &LanguageIdentifier)
        ensures
            r@ == self.spec_source(),
    {
        &self.source_language
    }

    pub fn target_language(&self) -> (r: &LanguageIdentifier)
        ensures
            r@ == self.spec_target(),
    {
        &self.target_language
    }

    pub fn translated_text(&self) -> (r: &str)
        ensures
            r@ == self.spec_translated(),
    {
        self.translated_text.as_str()
    }
}

/// Why a translation was not produced.
#[derive(Clone, Debug, PartialEq, Eq)]
pub enum TranslationFailure {
    EmptyInput,
    InputTooLong { maximum_characters: usize, actual_characters: usize },
    SameLanguage { language: LanguageIdentifier },
    UnsupportedPair {
        source_language: Option<LanguageIdentifier>,
        target_language: LanguageIdentifier,
    },
    Cancelled,
    InvalidResult,
    Failed,
}

/// A translation service.
pub trait Translator {
    /// Whether `response` may be the service's answer to translating `text` into `target`.
    /// A service that does not say otherwise may give any answer.
    open spec fn answers(
        &self,
        text: Seq<char>,
        target: Seq<char>,
        response: Result<TranslatorResponse, TranslationFailure>,
    ) -> bool {
        true
    }

    fn translate(
        &self,
        request: &TranslationRequest,
        cancellation: &CancellationToken,
    ) -> (r: Result<TranslatorResponse, TranslationFailure>)
        ensures
            self.answers(request.spec_text(), request.spec_target(), r),
    ;
}

/// Whether `r` is what an answer `response` to translating `text` into `target` gives
/// when no cancellation came: the translator's failure; an answer in the target language
/// or a blank one refused; otherwise the translation of `text`.
pub open spec fn is_checked_translation(
    text: Seq<char>,
    target: Seq<char>,
    response: Result<TranslatorResponse, TranslationFailure>,
    r: Result<TranslationResult, TranslationFailure>,
) -> bool {
    match response {
        Err(f) => r == Err::<TranslationResult, TranslationFailure>(f),
        Ok(resp) => if resp.spec_source() == target {
            r matches Err(TranslationFailure::SameLanguage { language }) && language@ == resp.spec_source()
        } else if is_blank(resp.spec_translated()) {
            r == Err::<TranslationResult, TranslationFailure>(TranslationFailure::InvalidResult)
        } else {
            r matches Ok(res) && res.spec_original() == text && res.spec_source() == resp.spec_source()
                && res.spec_target() == target && res.spec_translated() == resp.spec_translated()
        },
    }
}

/// The failure, if any, that rules a text out before any translator sees it.
pub open spec fn translation_input_failure(text: Seq<char>) -> Option<TranslationFailure> {
    if is_blank(text) {
        Some(TranslationFailure::EmptyInput)
    } else if text.len() > MAX_TRANSLATION_CHARACTERS {
        Some(
            TranslationFailure::InputTooLong {
                maximum_characters: MAX_TRANSLATION_CHARACTERS,
                actual_characters: text.len() as usize,
            },
        )
    } else {
        None
    }
}

/// Translates a selection with a translator service.
pub struct TranslateText<T: ?Sized> {
    translator: Arc<T>,
}

impl<T: Translator + ?Sized> TranslateText<T> {
    /// The translator service the use case asks.
    pub closed spec fn spec_translator(&self) -> Arc<T> {
        self.translator
    }

    pub fn new(translator: Arc<T>) -> (r: Self)
        ensures
            r.spec_translator() == translator,
    {
        TranslateText { translator }
    }

    /// Validates a selection and builds the request for the configured target language.
    pub fn request_for(text: &str, settings: &TranslationSettings) -> (r: Result<
        TranslationRequest,
        TranslationFailure,
    >)
        ensures
            translation_input_failure(text@) matches Some(f) ==> r == Err::<
                TranslationRequest,
                TranslationFailure,
            >(f),
            translation_input_failure(text@) is None ==> (r matches Ok(req) && req.spec_text()
                == text@ && req.spec_target() == settings.spec_target()),
    {
        if text_is_blank(text) {
            return Err(TranslationFailure::EmptyInput);
        }
        let count = char_count(text);
        if count > MAX_TRANSLATION_CHARACTERS {
            return Err(
                TranslationFailure::InputTooLong {
                    maximum_characters: MAX_TRANSLATION_CHARACTERS,
                    actual_characters: count,
                },
            );
        }
        Ok(TranslationRequest { text: owned(text), target_language: settings.target_language.duplicate() })
    }

    /// Checks a translator's answer to a request.
    ///
    /// The translator's own failure comes first; then a cancellation observed after the
    /// call; then an answer in the target language, then a blank answer, are refused.
    pub fn result_for(
        request: TranslationRequest,
        response: Result<TranslatorResponse, TranslationFailure>,
        cancelled: bool,
    ) -> (r: Result<TranslationResult, TranslationFailure>)
        ensures
            response matches Err(f) ==> r == Err::<TranslationResult, TranslationFailure>(f),
            response is Ok && cancelled ==> r == Err::<TranslationResult, TranslationFailure>(
                TranslationFailure::Cancelled,
            ),
            !cancelled ==> match response {
                Err(f) => r == Err::<TranslationResult, TranslationFailure>(f),
                Ok(resp) => {
                    if resp.spec_source() == request.spec_target() {
                        r matches Err(TranslationFailure::SameLanguage { language }) && language@
                            == resp.spec_source()
                    } else if is_blank(resp.spec_translated()) {
                        r == Err::<TranslationResult, TranslationFailure>(TranslationFailure::InvalidResult)
                    } else {
                        r matches Ok(res) && res.spec_original() == request.spec_text()
                            && res.spec_source() == resp.spec_source() && res.spec_target()
                            == request.spec_target() && res.spec_translated() == resp.spec_translated()
                    }
                },
            },
    {
        let response = match response {
            Err(f) => return Err(f),
            Ok(resp) => resp,
        };
        if cancelled {
            return Err(TranslationFailure::Cancelled);
        }
        if response.source_language.same_as(&request.target_language) {
            return Err(TranslationFailure::SameLanguage { language: response.source_language });
        }
        if text_is_blank(response.translated_text.as_str()) {
            return Err(TranslationFailure::InvalidResult);
        }
        Ok(
            TranslationResult {
                original_text: request.text,
                source_language: response.source_language,
                target_language: request.target_language,
                translated_text: response.translated_text,
            },
        )
    }

    /// Validates the selection, asks the translator and checks its answer.
    ///
    /// The translator is not called for a request already cancelled or an invalid selection;
    /// whatever it answers, the outcome is what `result_for` makes of that answer.
    pub fn execute(&self, text: &str, settings: &TranslationSettings, cancellation: &CancellationToken) -> (r:
        Result<TranslationResult, TranslationFailure>)
        ensures
            translation_input_failure(text@) matches Some(f) ==> (r == Err::<
                TranslationResult,
                TranslationFailure,
            >(TranslationFailure::Cancelled) || r == Err::<TranslationResult, TranslationFailure>(f)),
            r matches Ok(res) ==> res.spec_original() == text@ && res.spec_target()
                == settings.spec_target() && !is_blank(res.spec_translated()) && res.spec_source()
                != settings.spec_target(),
            translation_input_failure(text@) is None ==> r == Err::<TranslationResult, TranslationFailure>(
                TranslationFailure::Cancelled,
            ) || exists|response: Result<TranslatorResponse, TranslationFailure>|
                #[trigger] self.spec_translator().answers(text@, settings.spec_target(), response)
                    && is_checked_translation(text@, settings.spec_target(), response, r),
            r matches Err(f) ==> ((f is EmptyInput || f is InputTooLong) ==> translation_input_failure(text@)
                == Some(f) || self.spec_translator().answers(text@, settings.spec_target(), Err(f))),
    {
        if cancellation.is_cancelled() {
            return Err(TranslationFailure::Cancelled);
        }
        let request = Self::request_for(text, settings)?;
        let response = self.translator.translate(&request, cancellation);
        assert(self.spec_translator().answers(text@, settings.spec_target(), response));
        let cancelled = cancellation.is_cancelled();
        Self::result_for(request, response, cancelled)
    }
}

} // verus!
