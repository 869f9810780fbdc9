//! Mechanical checks that a proofreading correction kept the text's layout.
use vstd::prelude::*;

use crate::text::{
    chars_of, is_white_space, leading_white_space_end, leading_ws_end, lemma_leading_ws_end_bounds,
    lemma_trailing_ws_start_bounds, trailing_white_space_start, trailing_ws_start,
};

verus! {

/// Which protected property of the text a correction changed.
#[derive(Clone, Copy, Debug, PartialEq, Eq, Structural)]
pub enum ProofreadingPolicyViolation {
    OuterWhitespace,
    LineStructure,
    FormattingMarkers,
}

/// The outcome of each mechanical check.
#[derive(Clone, Copy, Debug, PartialEq, Eq, Structural)]
pub struct ProofreadingPolicyValidation {
    outer_whitespace_preserved: bool,
    line_structure_preserved: bool,
    formatting_markers_preserved: bool,
}

/// The first violated check, in the order outer white space, line structure, markers.
pub open spec fn spec_first_violation(outer: bool, lines: bool, markers: bool) -> Option<
    ProofreadingPolicyViolation,
> {
    if !outer {
        Some(ProofreadingPolicyViolation::OuterWhitespace)
    } else if !lines {
        Some(ProofreadingPolicyViolation::LineStructure)
    } else if !markers {
        Some(ProofreadingPolicyViolation::FormattingMarkers)
    } else {
        None
    }
}

impl ProofreadingPolicyValidation {
    pub closed spec fn spec_outer(self) -> bool {
        self.outer_whitespace_preserved
    }

    pub closed spec fn spec_lines(self) -> bool {
        self.line_structure_preserved
    }

    pub closed spec fn spec_markers(self) -> bool {
        self.formatting_markers_preserved
    }

    pub fn outer_whitespace_preserved(self) -> (r: bool)
        ensures
            r == self.spec_outer(),
    {
        self.outer_whitespace_preserved
    }

    pub fn line_structure_preserved(self) -> (r: bool)
        ensures
            r == self.spec_lines(),
    {
        self.line_structure_preserved
    }

    pub fn formatting_markers_preserved(self) -> (r: bool)
        ensures
            r == self.spec_markers(),
    {
        self.formatting_markers_preserved
    }

    pub fn first_violation(self) -> (r: Option<ProofreadingPolicyViolation>)
        ensures
            r == spec_first_violation(self.spec_outer(), self.spec_lines(), self.spec_markers()),
    {
        if !self.outer_whitespace_preserved {
            return Some(ProofreadingPolicyViolation::OuterWhitespace);
        }
        if !self.line_structure_preserved {
            return Some(ProofreadingPolicyViolation::LineStructure);
        }
        if !self.formatting_markers_preserved {
            return Some(ProofreadingPolicyViolation::FormattingMarkers);
        }
        None
    }
}

// ---------------------------------------------------------------------------------------------
// Outer white space
/// The white space before the first and after the last other character.
///
/// A text made only of white space is its own leading and trailing white space.
pub open spec fn outer_whitespace(s: Seq<char>) -> (Seq<char>, Seq<char>) {
    (s.take(leading_ws_end(s, 0)), s.skip(trailing_ws_start(s, 0, s.len() as int)))
}

// ---------------------------------------------------------------------------------------------
// Line breaks
/// The kind of a line break.
#[derive(Clone, Copy, Debug, PartialEq, Eq, Structural)]
pub enum LineBreak {
    LineFeed,
    CarriageReturn,
    CarriageReturnLineFeed,
}

/// The line breaks of a text, in order; `\r\n` counts as one break.
pub open spec fn line_break_signature(s: Seq<char>) -> Seq<LineBreak>
    decreases s.len(),
{
    if s.len() == 0 {
        Seq::<LineBreak>::empty()
    } else if s[0] == '\r' && s.len() >= 2 && s[1] == '\n' {
        seq![LineBreak::CarriageReturnLineFeed] + line_break_signature(s.skip(2))
    } else if s[0] == '\r' {
        seq![LineBreak::CarriageReturn] + line_break_signature(s.skip(1))
    } else if s[0] == '\n' {
        seq![LineBreak::LineFeed] + line_break_signature(s.skip(1))
    } else {
        line_break_signature(s.skip(1))
    }
}

/// The lines of `s` when `current` has already been read into the line being built.
pub open spec fn split_lines(s: Seq<char>, current: Seq<char>) -> Seq<Seq<char>>
    decreases s.len(),
{
    if s.len() == 0 {
        seq![current]
    } else if s[0] == '\r' && s.len() >= 2 && s[1] == '\n' {
        seq![current] + split_lines(s.skip(2), Seq::<char>::empty())
    } else if s[0] == '\r' || s[0] == '\n' {
        seq![current] + split_lines(s.skip(1), Seq::<char>::empty())
    } else {
        split_lines(s.skip(1), current.push(s[0]))
    }
}

/// The lines of a text, split at `\n`, `\r` and `\r\n`; a text has at least one line.
pub open spec fn logical_lines(s: Seq<char>) -> Seq<Seq<char>> {
    split_lines(s, Seq::<char>::empty())
}

/// Which lines of a text are blank.
pub open spec fn blank_line_signature(s: Seq<char>) -> Seq<bool> {
    logical_lines(s).map_values(|line: Seq<char>| crate::text::is_blank(line))
}

// ---------------------------------------------------------------------------------------------
// Formatting markers
/// Characters that open inline emphasis or code.
pub open spec fn is_inline_marker(c: char) -> bool {
    c == '`' || c == '*' || c == '_' || c == '~'
}

/// End of the run of `m` characters starting at `i`.
pub open spec fn run_end(s: Seq<char>, i: int, m: char) -> int
    decreases s.len() - i,
{
    if i < 0 || i >= s.len() || s[i] != m {
        if i < 0 {
            0
        } else {
            i
        }
    } else {
        run_end(s, i + 1, m)
    }
}

/// End of the run of spaces and tabs starting at `i`.
pub open spec fn indent_end(s: Seq<char>, i: int) -> int
    decreases s.len() - i,
{
    if i < 0 || i >= s.len() || !(s[i] == ' ' || s[i] == '\t') {
        if i < 0 {
            0
        } else {
            i
        }
    } else {
        indent_end(s, i + 1)
    }
}

/// End of the run of `>`, spaces and tabs starting at `i`.
pub open spec fn quote_end(s: Seq<char>, i: int) -> int
    decreases s.len() - i,
{
    if i < 0 || i >= s.len() || !(s[i] == '>' || s[i] == ' ' || s[i] == '\t') {
        if i < 0 {
            0
        } else {
            i
        }
    } else {
        quote_end(s, i + 1)
    }
}

/// End of the run of ASCII digits starting at `i`.
pub open spec fn digits_end(s: Seq<char>, i: int) -> int
    decreases s.len() - i,
{
    if i < 0 || i >= s.len() || !('0' <= s[i] <= '9') {
        if i < 0 {
            0
        } else {
            i
        }
    } else {
        digits_end(s, i + 1)
    }
}

pub proof fn lemma_run_end(s: Seq<char>, i: int, m: char)
    requires
        0 <= i <= s.len(),
    ensures
        i <= run_end(s, i, m) <= s.len(),
        i < s.len() && s[i] == m ==> run_end(s, i, m) > i,
        forall|k: int| i <= k < run_end(s, i, m) ==> #[trigger] s[k] == m,
        run_end(s, i, m) < s.len() ==> s[run_end(s, i, m)] != m,
    decreases s.len() - i,
{
    if i < s.len() && s[i] == m {
        lemma_run_end(s, i + 1, m);
    }
}

pub proof fn lemma_indent_end(s: Seq<char>, i: int)
    requires
        0 <= i <= s.len(),
    ensures
        i <= indent_end(s, i) <= s.len(),
    decreases s.len() - i,
{
    if i < s.len() && (s[i] == ' ' || s[i] == '\t') {
        lemma_indent_end(s, i + 1);
    }
}

pub proof fn lemma_quote_end(s: Seq<char>, i: int)
    requires
        0 <= i <= s.len(),
    ensures
        i <= quote_end(s, i) <= s.len(),
    decreases s.len() - i,
{
    if i < s.len() && (s[i] == '>' || s[i] == ' ' || s[i] == '\t') {
        lemma_quote_end(s, i + 1);
    }
}

pub proof fn lemma_digits_end(s: Seq<char>, i: int)
    requires
        0 <= i <= s.len(),
    ensures
        i <= digits_end(s, i) <= s.len(),
    decreases s.len() - i,
{
    if i < s.len() && ('0' <= s[i] <= '9') {
        lemma_digits_end(s, i + 1);
    }
}

/// The block marker a line starts with, after its indentation: a code fence, a quote,
/// a bullet or a numbered-list item. The marker is returned with the indentation before it.
pub open spec fn line_prefix_marker(line: Seq<char>) -> Option<Seq<char>> {
    let ie = indent_end(line, 0);
    let n = line.len();
    if ie < n && n - ie >= 3 && ((line[ie] == '`' && line[ie + 1] == '`' && line[ie + 2] == '`') || (line[ie]
        == '~' && line[ie + 1] == '~' && line[ie + 2] == '~')) {
        Some(line.take(run_end(line, ie, line[ie])))
    } else if ie < n && line[ie] == '>' {
        Some(line.take(quote_end(line, ie)))
    } else if ie + 2 <= n && (line[ie] == '-' || line[ie] == '*' || line[ie] == '+') && (line[ie
        + 1] == ' ' || line[ie + 1] == '\t') {
        Some(line.take(ie + 1))
    } else {
        let de = digits_end(line, ie);
        if de > ie && de < n && n - de >= 2 && (line[de] == '.' || line[de] == ')') && (line[de + 1] == ' '
            || line[de + 1] == '\t') {
            Some(line.take(de + 1))
        } else {
            None
        }
    }
}

/// The inline emphasis and code markers of a line from position `i`: every backtick run,
/// and every run of two or more `*`, `_` or `~`.
pub open spec fn inline_markers_from(s: Seq<char>, i: int) -> Seq<Seq<char>>
    decreases s.len() - i,
{
    if i < 0 || i >= s.len() {
        Seq::<Seq<char>>::empty()
    } else if is_inline_marker(s[i]) {
        let e = run_end(s, i, s[i]);
        proof {
            lemma_run_end(s, i, s[i]);
        }
        if s[i] == '`' || e - i >= 2 {
            seq![s.subrange(i, e)] + inline_markers_from(s, e)
        } else {
            inline_markers_from(s, e)
        }
    } else {
        inline_markers_from(s, i + 1)
    }
}

/// A formatting marker: a block marker at the start of a line, or an inline marker.
pub type Marker = (bool, Seq<char>);

/// The formatting markers of a line, block marker first.
pub open spec fn line_markers(line: Seq<char>) -> Seq<Marker> {
    let prefix = match line_prefix_marker(line) {
        Some(p) => seq![(true, p)],
        None => Seq::<Marker>::empty(),
    };
    prefix + inline_markers_from(line, 0).map_values(|m: Seq<char>| (false, m))
}

/// The formatting markers of each line of a text.
pub open spec fn formatting_marker_signature(s: Seq<char>) -> Seq<Seq<Marker>> {
    logical_lines(s).map_values(|line: Seq<char>| line_markers(line))
}

/// Whether a correction kept the outer white space, the line structure and the
/// formatting markers of the original text.
pub open spec fn spec_policy_validation(original: Seq<char>, corrected: Seq<char>) -> (bool, bool, bool) {
    (
        outer_whitespace(original) == outer_whitespace(corrected),
        line_break_signature(original) == line_break_signature(corrected) && blank_line_signature(
            original,
        ) == blank_line_signature(corrected),
        formatting_marker_signature(original) == formatting_marker_signature(corrected),
    )
}

/// A text kept as it is keeps every protected property: the checks only object to changes.
pub proof fn law_unchanged_text_passes_every_check(text: Seq<char>)
    ensures
        spec_policy_validation(text, text) == (true, true, true),
        ({
            let v = spec_policy_validation(text, text);
            spec_first_violation(v.0, v.1, v.2) is None
        }),
{
}

/// The checks are symmetric: a correction keeps the original's protected properties
/// exactly when the original keeps the correction's.
pub proof fn law_checks_are_symmetric(original: Seq<char>, corrected: Seq<char>)
    ensures
        spec_policy_validation(original, corrected) == spec_policy_validation(corrected, original),
{
}

/// Indentation made of spaces and tabs ends where the indentation of a line ends.
proof fn lemma_indent_end_of(indent: Seq<char>, line: Seq<char>, i: int)
    requires
        0 <= i <= indent.len() < line.len(),
        line.take(indent.len() as int) == indent,
        forall|k: int| 0 <= k < indent.len() ==> indent[k] == ' ' || indent[k] == '\t',
        !(line[indent.len() as int] == ' ' || line[indent.len() as int] == '\t'),
    ensures
        indent_end(line, i) == indent.len(),
    decreases indent.len() - i,
{
    if i < indent.len() {
        assert(line[i] == line.take(indent.len() as int)[i]);
        lemma_indent_end_of(indent, line, i + 1);
    }
}

/// A run of digits at `start` ends where the digits end.
proof fn lemma_digits_end_of(line: Seq<char>, start: int, count: int, i: int)
    requires
        0 <= start <= i <= start + count < line.len(),
        forall|k: int| start <= k < start + count ==> '0' <= #[trigger] line[k] <= '9',
        !('0' <= line[start + count] <= '9'),
    ensures
        digits_end(line, i) == start + count,
    decreases start + count - i,
{
    if i < start + count {
        lemma_digits_end_of(line, start, count, i + 1);
    }
}

/// A numbered-list item has a block marker. When a line's content after its indentation of
/// spaces and tabs starts with one or more ASCII digits, then `.` or `)`, then a space or a
/// tab, its block marker is the indentation, the digits and the punctuation.
pub proof fn law_numbered_items_have_block_markers(
    indent: Seq<char>,
    digits: Seq<char>,
    punctuation: char,
    separator: char,
    rest: Seq<char>,
)
    requires
        forall|k: int| 0 <= k < indent.len() ==> indent[k] == ' ' || indent[k] == '\t',
        digits.len() >= 1,
        forall|k: int| 0 <= k < digits.len() ==> '0' <= #[trigger] digits[k] <= '9',
        punctuation == '.' || punctuation == ')',
        separator == ' ' || separator == '\t',
    ensures
        line_prefix_marker(indent + digits + seq![punctuation, separator] + rest) == Some(
            indent + digits + seq![punctuation],
        ),
{
    let line = indent + digits + seq![punctuation, separator] + rest;
    let ie = indent.len() as int;
    let de = ie + digits.len();
    assert(line.take(ie) =~= indent);
    assert(line[ie] == digits[0]);
    lemma_indent_end_of(indent, line, 0);
    assert forall|k: int| ie <= k < de implies '0' <= #[trigger] line[k] <= '9' by {
        assert(line[k] == digits[k - ie]);
    }
    assert(line[de] == punctuation);
    assert(line[de + 1] == separator);
    lemma_digits_end_of(line, ie, digits.len() as int, ie);
    assert(line.take(de + 1) =~= indent + digits + seq![punctuation]);
}

/// A bulleted item has a block marker. When a line's content after its indentation of
/// spaces and tabs starts with `-`, `*` or `+` and then a space or a tab, its block marker
/// is the indentation and the bullet.
pub proof fn law_bulleted_items_have_block_markers(indent: Seq<char>, bullet: char, separator: char, rest: Seq<char>)
    requires
        forall|k: int| 0 <= k < indent.len() ==> indent[k] == ' ' || indent[k] == '\t',
        bullet == '-' || bullet == '*' || bullet == '+',
        separator == ' ' || separator == '\t',
    ensures
        line_prefix_marker(indent + seq![bullet, separator] + rest) == Some(indent + seq![bullet]),
{
    let line = indent + seq![bullet, separator] + rest;
    let ie = indent.len() as int;
    assert(line.take(ie) =~= indent);
    assert(line[ie] == bullet && line[ie + 1] == separator);
    lemma_indent_end_of(indent, line, 0);
    assert(line.take(ie + 1) =~= indent + seq![bullet]);
}

/// A quoted line has a block marker. When a line's content after its indentation of spaces
/// and tabs starts with `>`, its block marker is the indentation followed by the `>` and
/// the quote characters, spaces and tabs after it.
pub proof fn law_quoted_lines_have_block_markers(indent: Seq<char>, rest: Seq<char>)
    requires
        forall|k: int| 0 <= k < indent.len() ==> indent[k] == ' ' || indent[k] == '\t',
    ensures
        line_prefix_marker(indent + seq!['>'] + rest) matches Some(m) && m.len() > indent.len() && m.take(
            indent.len() + 1 as int,
        ) == indent + seq!['>'] && m == (indent + seq!['>'] + rest).take(m.len() as int),
{
    let line = indent + seq!['>'] + rest;
    let ie = indent.len() as int;
    assert(line.take(ie) =~= indent);
    assert(line[ie] == '>');
    lemma_indent_end_of(indent, line, 0);
    lemma_quote_end(line, ie + 1);
    let m = line.take(quote_end(line, ie));
    assert(m.take(ie + 1) =~= indent + seq!['>']);
}

/// A code fence has a block marker. When a line's content after its indentation of spaces
/// and tabs starts with three backticks or three tildes, its block marker is the
/// indentation and the whole run of that character.
pub proof fn law_code_fences_have_block_markers(indent: Seq<char>, fence: char, rest: Seq<char>)
    requires
        forall|k: int| 0 <= k < indent.len() ==> indent[k] == ' ' || indent[k] == '\t',
        fence == '`' || fence == '~',
    ensures
        line_prefix_marker(indent + seq![fence, fence, fence] + rest) matches Some(m) && m.len() >= indent.len()
            + 3 && m.take(indent.len() + 3 as int) == indent + seq![fence, fence, fence] && m == (indent + seq![
            fence,
            fence,
            fence,
        ] + rest).take(m.len() as int) && forall|k: int| indent.len() <= k < m.len() ==> #[trigger] m[k] == fence,
{
    let line = indent + seq![fence, fence, fence] + rest;
    let ie = indent.len() as int;
    assert(line.take(ie) =~= indent);
    assert(line[ie] == fence && line[ie + 1] == fence && line[ie + 2] == fence);
    lemma_indent_end_of(indent, line, 0);
    lemma_run_end(line, ie, fence);
    let e = run_end(line, ie, fence);
    if e < ie + 3 {
        assert(line[e] == fence);
    }
    let m = line.take(e);
    assert(m.take(ie + 3) =~= indent + seq![fence, fence, fence]);
    assert forall|k: int| ie <= k < m.len() implies #[trigger] m[k] == fence by {
        assert(line[k] == fence);
    }
}

/// Plain text before position `end` holds no inline marker, so scanning from within it
/// finds the markers from `end` on.
proof fn lemma_inline_markers_skip_plain(line: Seq<char>, i: int, end: int)
    requires
        0 <= i <= end <= line.len(),
        forall|k: int| 0 <= k < end ==> !is_inline_marker(#[trigger] line[k]),
    ensures
        inline_markers_from(line, i) == inline_markers_from(line, end),
    decreases end - i,
{
    if i < end {
        lemma_inline_markers_skip_plain(line, i + 1, end);
    }
}

/// Inline code and emphasis are formatting markers. When a line starts with text free of
/// `` ` ``, `*`, `_` and `~`, followed by a run of backticks, or a run of two or more `*`,
/// `_` or `~`, that the rest of the line does not continue, that run is the first inline
/// marker of the line.
pub proof fn law_inline_marker_runs_are_markers(plain: Seq<char>, marker: Seq<char>, rest: Seq<char>)
    requires
        forall|k: int| 0 <= k < plain.len() ==> !(#[trigger] plain[k] == '`' || plain[k] == '*' || plain[k] == '_'
            || plain[k] == '~'),
        marker.len() >= 1,
        marker[0] == '`' || (marker.len() >= 2 && (marker[0] == '*' || marker[0] == '_' || marker[0] == '~')),
        forall|k: int| 0 <= k < marker.len() ==> #[trigger] marker[k] == marker[0],
        rest.len() > 0 ==> rest[0] != marker[0],
    ensures
        inline_markers_from(plain + marker + rest, 0).len() > 0,
        inline_markers_from(plain + marker + rest, 0)[0] == marker,
{
    let line = plain + marker + rest;
    let p = plain.len() as int;
    let c = marker[0];
    let end = p + marker.len();
    assert forall|k: int| 0 <= k < p implies !is_inline_marker(#[trigger] line[k]) by {
        assert(line[k] == plain[k]);
    }
    lemma_inline_markers_skip_plain(line, 0, p);
    assert(line[p] == c);
    lemma_run_end(line, p, c);
    let e = run_end(line, p, c);
    if e < end {
        assert(line[e] == marker[e - p]);
    }
    if e > end {
        assert(line[end] == rest[0]);
    }
    assert(line.subrange(p, e) =~= marker);
}

/// The block marker of a line is what its formatting markers start with, if anything.
proof fn lemma_line_markers_start_with_the_block_marker(line: Seq<char>)
    ensures
        match line_prefix_marker(line) {
            Some(p) => line_markers(line).len() > 0 && line_markers(line)[0] == (true, p),
            None => line_markers(line).len() > 0 ==> !line_markers(line)[0].0,
        },
{
}

/// A correction that changes the block marker of a line, such as one that drops the
/// numbered-list marker of an item, fails the formatting-marker check.
pub proof fn law_changed_block_markers_are_violations(original: Seq<char>, corrected: Seq<char>, k: int)
    requires
        0 <= k < logical_lines(original).len(),
        0 <= k < logical_lines(corrected).len(),
        line_prefix_marker(logical_lines(original)[k]) != line_prefix_marker(logical_lines(corrected)[k]),
    ensures
        !spec_policy_validation(original, corrected).2,
{
    let a = logical_lines(original)[k];
    let b = logical_lines(corrected)[k];
    lemma_line_markers_start_with_the_block_marker(a);
    lemma_line_markers_start_with_the_block_marker(b);
    if formatting_marker_signature(original) == formatting_marker_signature(corrected) {
        assert(formatting_marker_signature(original)[k] == line_markers(a));
        assert(formatting_marker_signature(corrected)[k] == line_markers(b));
    }
}

// ---------------------------------------------------------------------------------------------
// Executable checks

/// Whether `a[a0..a1]` and `b[b0..b1]` hold the same characters.
fn ranges_equal(a: &Vec<char>, a0: usize, a1: usize, b: &Vec<char>, b0: usize, b1: usize) -> (r:
    bool)
    requires
        a0 <= a1 <= a.len(),
        b0 <= b1 <= b.len(),
    ensures
        r == (a@.subrange(a0 as int, a1 as int) == b@.subrange(b0 as int, b1 as int)),
{
    if a1 - a0 != b1 - b0 {
        proof {
            assert(a@.subrange(a0 as int, a1 as int).len() != b@.subrange(b0 as int, b1 as int).len());
        }
        return false;
    }
    let n = a1 - a0;
    let mut k: usize = 0;
    while k < n
        invariant
            n == a1 - a0 == b1 - b0,
            a0 <= a1 <= a.len(),
            b0 <= b1 <= b.len(),
            k <= n,
            forall|j: int|
                0 <= j < k ==> #[trigger] a@.subrange(a0 as int, a1 as int)[j] == b@.subrange(
                    b0 as int,
                    b1 as int,
                )[j],
        decreases n - k,
    {
        if a[a0 + k] != b[b0 + k] {
            proof {
                assert(a@.subrange(a0 as int, a1 as int)[k as int] != b@.subrange(b0 as int, b1 as int)[k as int]);
            }
            return false;
        }
        k += 1;
    }
    assert(a@.subrange(a0 as int, a1 as int) =~= b@.subrange(b0 as int, b1 as int));
    true
}

/// Whether two texts have the same outer white space.
fn outer_whitespace_equal(a: &Vec<char>, b: &Vec<char>) -> (r: bool)
    ensures
        r == (outer_whitespace(a@) == outer_whitespace(b@)),
{
    proof {
        lemma_leading_ws_end_bounds(a@, 0);
        lemma_leading_ws_end_bounds(b@, 0);
        lemma_trailing_ws_start_bounds(a@, 0, a@.len() as int);
        lemma_trailing_ws_start_bounds(b@, 0, b@.len() as int);
    }
    let la = leading_white_space_end(a, 0);
    let lb = leading_white_space_end(b, 0);
    let ta = trailing_white_space_start(a, 0, a.len());
    let tb = trailing_white_space_start(b, 0, b.len());
    assert(a@.take(la as int) =~= a@.subrange(0, la as int));
    assert(b@.take(lb as int) =~= b@.subrange(0, lb as int));
    assert(a@.skip(ta as int) =~= a@.subrange(ta as int, a@.len() as int));
    assert(b@.skip(tb as int) =~= b@.subrange(tb as int, b@.len() as int));
    ranges_equal(a, 0, la, b, 0, lb) && ranges_equal(a, ta, a.len(), b, tb, b.len())
}

/// The line breaks of a text.
fn line_breaks(v: &Vec<char>) -> (r: Vec<LineBreak>)
    ensures
        r@ == line_break_signature(v@),
{
    let mut sig: Vec<LineBreak> = Vec::new();
    let mut i: usize = 0;
    assert(v@.skip(0) =~= v@);
    while i < v.len()
        invariant
            i <= v.len(),
            sig@ + line_break_signature(v@.skip(i as int)) == line_break_signature(v@),
        decreases v.len() - i,
    {
        let ghost rest = v@.skip(i as int);
        assert(rest[0] == v@[i as int]);
        if v[i] == '\r' && i + 1 < v.len() && v[i + 1] == '\n' {
            assert(rest[1] == v@[i + 1]);
            assert(rest.skip(2) =~= v@.skip(i + 2));
            sig.push(LineBreak::CarriageReturnLineFeed);
            assert(sig@ + line_break_signature(v@.skip(i + 2)) =~= line_break_signature(v@));
            i += 2;
        } else {
            assert(rest.skip(1) =~= v@.skip(i + 1));
            if v[i] == '\r' {
                proof {
                    if rest.len() >= 2 {
                        assert(rest[1] == v@[i + 1]);
                    }
                }
                sig.push(LineBreak::CarriageReturn);
                assert(sig@ + line_break_signature(v@.skip(i + 1)) =~= line_break_signature(v@));
            } else if v[i] == '\n' {
                sig.push(LineBreak::LineFeed);
                assert(sig@ + line_break_signature(v@.skip(i + 1)) =~= line_break_signature(v@));
            }
            i += 1;
        }
    }
    assert(v@.skip(v.len() as int) =~= Seq::<char>::empty());
    assert(sig@ =~= line_break_signature(v@));
    sig
}

/// Whether two sequences of line breaks are equal.
fn breaks_equal(a: &Vec<LineBreak>, b: &Vec<LineBreak>) -> (r: bool)
    ensures
        r == (a@ == b@),
{
    if a.len() != b.len() {
        return false;
    }
    let mut k: usize = 0;
    while k < a.len()
        invariant
            a.len() == b.len(),
            k <= a.len(),
            forall|j: int| 0 <= j < k ==> a@[j] == b@[j],
        decreases a.len() - k,
    {
        if a[k] != b[k] {
            assert(a@[k as int] != b@[k as int]);
            return false;
        }
        k += 1;
    }
    assert(a@ =~= b@);
    true
}

/// The texts of a list of line ranges.
pub open spec fn range_texts(s: Seq<char>, ranges: Seq<(usize, usize)>) -> Seq<Seq<char>> {
    ranges.map_values(|p: (usize, usize)| s.subrange(p.0 as int, p.1 as int))
}

/// Ranges that lie within a text of length `n`.
pub open spec fn ranges_within(ranges: Seq<(usize, usize)>, n: int) -> bool {
    forall|k: int| 0 <= k < ranges.len() ==> #[trigger] ranges[k].0 <= ranges[k].1 <= n
}

/// The ranges of the logical lines of a text.
fn line_ranges(v: &Vec<char>) -> (r: Vec<(usize, usize)>)
    ensures
        ranges_within(r@, v@.len() as int),
        range_texts(v@, r@) == logical_lines(v@),
{
    let mut ranges: Vec<(usize, usize)> = Vec::new();
    let mut i: usize = 0;
    let mut start: usize = 0;
    assert(v@.skip(0) =~= v@);
    assert(v@.subrange(0, 0) =~= Seq::<char>::empty());
    while i < v.len()
        invariant
            start <= i <= v.len(),
            ranges_within(ranges@, v@.len() as int),
            range_texts(v@, ranges@) + split_lines(v@.skip(i as int), v@.subrange(start as int, i as int))
                == logical_lines(v@),
        decreases v.len() - i,
    {
        let ghost rest = v@.skip(i as int);
        let ghost cur = v@.subrange(start as int, i as int);
        let ghost before = ranges@;
        assert(rest[0] == v@[i as int]);
        if v[i] == '\r' || v[i] == '\n' {
            ranges.push((start, i));
            assert(range_texts(v@, ranges@) =~= range_texts(v@, before).push(cur));
            if v[i] == '\r' && i + 1 < v.len() && v[i + 1] == '\n' {
                assert(rest[1] == v@[i + 1]);
                assert(rest.skip(2) =~= v@.skip(i + 2));
                i += 2;
            } else {
                proof {
                    if v@[i as int] == '\r' && rest.len() >= 2 {
                        assert(rest[1] == v@[i + 1]);
                    }
                }
                assert(rest.skip(1) =~= v@.skip(i + 1));
                i += 1;
            }
            start = i;
            assert(v@.subrange(start as int, i as int) =~= Seq::<char>::empty());
            assert(range_texts(v@, ranges@) + split_lines(v@.skip(i as int), v@.subrange(start as int, i as int))
                =~= logical_lines(v@));
        } else {
            assert(rest.skip(1) =~= v@.skip(i + 1));
            assert(v@.subrange(start as int, i + 1) =~= cur.push(v@[i as int]));
            i += 1;
        }
    }
    let ghost before = ranges@;
    ranges.push((start, i));
    assert(v@.skip(i as int) =~= Seq::<char>::empty());
    assert(range_texts(v@, ranges@) =~= range_texts(v@, before).push(v@.subrange(start as int, i as int)));
    assert(range_texts(v@, ranges@) =~= logical_lines(v@));
    ranges
}

/// Whether `v[a..b]` is blank.
fn range_is_blank(v: &Vec<char>, a: usize, b: usize) -> (r: bool)
    requires
        a <= b <= v.len(),
    ensures
        r == crate::text::is_blank(v@.subrange(a as int, b as int)),
{
    proof {
        crate::text::lemma_blank_iff_all_white_space(v@.subrange(a as int, b as int));
    }
    let mut k = a;
    while k < b
        invariant
            a <= k <= b <= v.len(),
            forall|j: int| a <= j < k ==> is_white_space(#[trigger] v@[j]),
        decreases b - k,
    {
        if !crate::text::char_is_white_space(v[k]) {
            assert(v@.subrange(a as int, b as int)[k - a] == v@[k as int]);
            assert(!is_white_space(v@.subrange(a as int, b as int)[k - a]));
            proof {
                crate::text::lemma_blank_iff_all_white_space(v@.subrange(a as int, b as int));
            }
            return false;
        }
        k += 1;
    }
    assert forall|j: int| 0 <= j < v@.subrange(a as int, b as int).len() implies is_white_space(
        #[trigger] v@.subrange(a as int, b as int)[j],
    ) by {
        assert(v@.subrange(a as int, b as int)[j] == v@[a + j]);
    }
    true
}

/// The characters `v[a..b]` as a vector.
fn copy_range(v: &Vec<char>, a: usize, b: usize) -> (r: Vec<char>)
    requires
        a <= b <= v.len(),
    ensures
        r@ == v@.subrange(a as int, b as int),
{
    let mut out: Vec<char> = Vec::new();
    let mut k = a;
    while k < b
        invariant
            a <= k <= b <= v.len(),
            out@ == v@.subrange(a as int, k as int),
        decreases b - k,
    {
        out.push(v[k]);
        assert(v@.subrange(a as int, k + 1) =~= v@.subrange(a as int, k as int).push(v@[k as int]));
        k += 1;
    }
    out
}

/// End of the run of `m` starting at `i`.
fn run_end_at(s: &Vec<char>, i: usize, m: char) -> (r: usize)
    requires
        i <= s.len(),
    ensures
        r == run_end(s@, i as int, m),
{
    let mut k = i;
    while k < s.len() && s[k] == m
        invariant
            i <= k <= s.len(),
            run_end(s@, i as int, m) == run_end(s@, k as int, m),
        decreases s.len() - k,
    {
        k += 1;
    }
    k
}

/// End of the spaces and tabs starting at `i`.
fn indent_end_at(s: &Vec<char>, i: usize) -> (r: usize)
    requires
        i <= s.len(),
    ensures
        r == indent_end(s@, i as int),
{
    let mut k = i;
    while k < s.len() && (s[k] == ' ' || s[k] == '\t')
        invariant
            i <= k <= s.len(),
            indent_end(s@, i as int) == indent_end(s@, k as int),
        decreases s.len() - k,
    {
        k += 1;
    }
    k
}

/// End of the `>`, spaces and tabs starting at `i`.
fn quote_end_at(s: &Vec<char>, i: usize) -> (r: usize)
    requires
        i <= s.len(),
    ensures
        r == quote_end(s@, i as int),
{
    let mut k = i;
    while k < s.len() && (s[k] == '>' || s[k] == ' ' || s[k] == '\t')
        invariant
            i <= k <= s.len(),
            quote_end(s@, i as int) == quote_end(s@, k as int),
        decreases s.len() - k,
    {
        k += 1;
    }
    k
}

/// End of the digits starting at `i`.
fn digits_end_at(s: &Vec<char>, i: usize) -> (r: usize)
    requires
        i <= s.len(),
    ensures
        r == digits_end(s@, i as int),
{
    let mut k = i;
    while k < s.len() && ('0' <= s[k] && s[k] <= '9')
        invariant
            i <= k <= s.len(),
            digits_end(s@, i as int) == digits_end(s@, k as int),
        decreases s.len() - k,
    {
        k += 1;
    }
    k
}

/// The length of the block marker a line starts with, if any.
fn prefix_marker_end(line: &Vec<char>) -> (r: Option<usize>)
    ensures
        match r {
            Some(e) => e <= line.len() && line_prefix_marker(line@) == Some(line@.take(e as int)),
            None => line_prefix_marker(line@) is None,
        },
{
    proof {
        lemma_indent_end(line@, 0);
    }
    let ie = indent_end_at(line, 0);
    let n = line.len();
    if ie < n && n - ie >= 3 && ((line[ie] == '`' && line[ie + 1] == '`' && line[ie + 2] == '`') || (line[ie]
        == '~' && line[ie + 1] == '~' && line[ie + 2] == '~')) {
        proof {
            lemma_run_end(line@, ie as int, line@[ie as int]);
        }
        return Some(run_end_at(line, ie, line[ie]));
    }
    if ie < n && line[ie] == '>' {
        proof {
            lemma_quote_end(line@, ie as int);
        }
        return Some(quote_end_at(line, ie));
    }
    if ie < n && n - ie >= 2 && (line[ie] == '-' || line[ie] == '*' || line[ie] == '+') && (line[ie + 1] == ' '
        || line[ie + 1] == '\t') {
        return Some(ie + 1);
    }
    proof {
        lemma_digits_end(line@, ie as int);
    }
    let de = digits_end_at(line, ie);
    if de > ie && de < n && n - de >= 2 && (line[de] == '.' || line[de] == ')') && (line[de + 1] == ' '
        || line[de + 1] == '\t') {
        return Some(de + 1);
    }
    None
}

/// A marker found in a line: whether it is the block marker, and its range in the line.
pub open spec fn marker_texts(line: Seq<char>, ms: Seq<(bool, usize, usize)>) -> Seq<Marker> {
    ms.map_values(|m: (bool, usize, usize)| (m.0, line.subrange(m.1 as int, m.2 as int)))
}

/// Marker ranges that lie within a line of length `n`.
pub open spec fn markers_within(ms: Seq<(bool, usize, usize)>, n: int) -> bool {
    forall|k: int| 0 <= k < ms.len() ==> #[trigger] ms[k].1 <= ms[k].2 <= n
}

/// The formatting markers of a line, as ranges of the line.
fn markers_of_line(line: &Vec<char>) -> (r: Vec<(bool, usize, usize)>)
    ensures
        markers_within(r@, line@.len() as int),
        marker_texts(line@, r@) == line_markers(line@),
{
    let mut out: Vec<(bool, usize, usize)> = Vec::new();
    match prefix_marker_end(line) {
        Some(e) => {
            out.push((true, 0, e));
            assert(line@.subrange(0, e as int) =~= line@.take(e as int));
        },
        None => {},
    }
    let ghost prefix = marker_texts(line@, out@);
    assert(prefix == match line_prefix_marker(line@) {
        Some(p) => seq![(true, p)],
        None => Seq::<Marker>::empty(),
    });
    let mut i: usize = 0;
    while i < line.len()
        invariant
            i <= line.len(),
            markers_within(out@, line@.len() as int),
            marker_texts(line@, out@) + inline_markers_from(line@, i as int).map_values(
                |m: Seq<char>| (false, m),
            ) == line_markers(line@),
        decreases line.len() - i,
    {
        let c = line[i];
        if c == '`' || c == '*' || c == '_' || c == '~' {
            proof {
                lemma_run_end(line@, i as int, c);
            }
            let e = run_end_at(line, i, c);
            if c == '`' || e - i >= 2 {
                let ghost before = out@;
                out.push((false, i, e));
                assert(marker_texts(line@, out@) =~= marker_texts(line@, before).push(
                    (false, line@.subrange(i as int, e as int)),
                ));
                assert(inline_markers_from(line@, i as int) =~= seq![line@.subrange(i as int, e as int)]
                    + inline_markers_from(line@, e as int));
                assert(inline_markers_from(line@, i as int).map_values(|m: Seq<char>| (false, m))
                    =~= seq![(false, line@.subrange(i as int, e as int))] + inline_markers_from(
                    line@,
                    e as int,
                ).map_values(|m: Seq<char>| (false, m)));
                assert(marker_texts(line@, out@) + inline_markers_from(line@, e as int).map_values(
                    |m: Seq<char>| (false, m),
                ) =~= line_markers(line@));
            }
            i = e;
        } else {
            i += 1;
        }
    }
    assert(inline_markers_from(line@, i as int) =~= Seq::<Seq<char>>::empty());
    assert(marker_texts(line@, out@) =~= line_markers(line@));
    out
}

/// Whether two lines carry the same formatting markers.
fn line_markers_equal(a: &Vec<char>, b: &Vec<char>) -> (r: bool)
    ensures
        r == (line_markers(a@) == line_markers(b@)),
{
    let ma = markers_of_line(a);
    let mb = markers_of_line(b);
    if ma.len() != mb.len() {
        proof {
            assert(marker_texts(a@, ma@).len() != marker_texts(b@, mb@).len());
        }
        return false;
    }
    let mut k: usize = 0;
    while k < ma.len()
        invariant
            ma.len() == mb.len(),
            k <= ma.len(),
            markers_within(ma@, a@.len() as int),
            markers_within(mb@, b@.len() as int),
            marker_texts(a@, ma@) == line_markers(a@),
            marker_texts(b@, mb@) == line_markers(b@),
            forall|j: int| 0 <= j < k ==> #[trigger] marker_texts(a@, ma@)[j] == marker_texts(b@, mb@)[j],
        decreases ma.len() - k,
    {
        let (pa, a0, a1) = ma[k];
        let (pb, b0, b1) = mb[k];
        assert(ma@[k as int].1 <= ma@[k as int].2 <= a@.len());
        assert(mb@[k as int].1 <= mb@[k as int].2 <= b@.len());
        let same = pa == pb && ranges_equal(a, a0, a1, b, b0, b1);
        assert(marker_texts(a@, ma@)[k as int] == (pa, a@.subrange(a0 as int, a1 as int)));
        assert(marker_texts(b@, mb@)[k as int] == (pb, b@.subrange(b0 as int, b1 as int)));
        if !same {
            assert(marker_texts(a@, ma@)[k as int] != marker_texts(b@, mb@)[k as int]);
            assert(marker_texts(a@, ma@) != marker_texts(b@, mb@));
            return false;
        }
        k += 1;
    }
    assert(marker_texts(a@, ma@) =~= marker_texts(b@, mb@));
    true
}

/// Compares the line structure and formatting markers of two texts, line by line.
fn lines_compare(a: &Vec<char>, b: &Vec<char>) -> (r: (bool, bool))
    ensures
        r.0 == (blank_line_signature(a@) == blank_line_signature(b@)),
        r.1 == (formatting_marker_signature(a@) == formatting_marker_signature(b@)),
{
    let ra = line_ranges(a);
    let rb = line_ranges(b);
    let ghost la = logical_lines(a@);
    let ghost lb = logical_lines(b@);
    if ra.len() != rb.len() {
        proof {
            assert(range_texts(a@, ra@).len() == ra@.len());
            assert(blank_line_signature(a@).len() != blank_line_signature(b@).len());
            assert(formatting_marker_signature(a@).len() != formatting_marker_signature(b@).len());
        }
        return (false, false);
    }
    let mut blanks_same = true;
    let mut markers_same = true;
    let mut k: usize = 0;
    while k < ra.len()
        invariant
            ra.len() == rb.len(),
            k <= ra.len(),
            ranges_within(ra@, a@.len() as int),
            ranges_within(rb@, b@.len() as int),
            range_texts(a@, ra@) == la,
            range_texts(b@, rb@) == lb,
            la == logical_lines(a@),
            lb == logical_lines(b@),
            blanks_same == (forall|j: int| 0 <= j < k ==> crate::text::is_blank(#[trigger] la[j])
                == crate::text::is_blank(lb[j])),
            markers_same == (forall|j: int| 0 <= j < k ==> line_markers(#[trigger] la[j]) == line_markers(lb[j])),
        decreases ra.len() - k,
    {
        let (a0, a1) = ra[k];
        let (b0, b1) = rb[k];
        assert(ra@[k as int].0 <= ra@[k as int].1 <= a@.len());
        assert(rb@[k as int].0 <= rb@[k as int].1 <= b@.len());
        assert(la[k as int] == a@.subrange(a0 as int, a1 as int));
        assert(lb[k as int] == b@.subrange(b0 as int, b1 as int));
        let blank_a = range_is_blank(a, a0, a1);
        let blank_b = range_is_blank(b, b0, b1);
        blanks_same = blanks_same && blank_a == blank_b;
        let line_a = copy_range(a, a0, a1);
        let line_b = copy_range(b, b0, b1);
        let same = line_markers_equal(&line_a, &line_b);
        markers_same = markers_same && same;
        k += 1;
    }
    proof {
        let ba = blank_line_signature(a@);
        let bb = blank_line_signature(b@);
        if blanks_same {
            assert(ba =~= bb);
        } else {
            let j = choose|j: int| 0 <= j < ra.len() && !(crate::text::is_blank(#[trigger] la[j])
                == crate::text::is_blank(lb[j]));
            assert(ba[j] != bb[j]);
        }
        let fa = formatting_marker_signature(a@);
        let fb = formatting_marker_signature(b@);
        if markers_same {
            assert(fa =~= fb);
        } else {
            let j = choose|j: int| 0 <= j < ra.len() && !(line_markers(#[trigger] la[j]) == line_markers(lb[j]));
            assert(fa[j] != fb[j]);
        }
    }
    (blanks_same, markers_same)
}

/// Checks that a correction kept the original's outer white space, its line breaks and
/// blank lines, and its block and inline formatting markers.
pub fn evaluate_proofreading_policy(original_text: &str, corrected_text: &str) -> (r:
    ProofreadingPolicyValidation)
    ensures
        (r.spec_outer(), r.spec_lines(), r.spec_markers()) == spec_policy_validation(
            original_text@,
            corrected_text@,
        ),
{
    let a = chars_of(original_text);
    let b = chars_of(corrected_text);
    let outer = outer_whitespace_equal(&a, &b);
    let breaks_same = breaks_equal(&line_breaks(&a), &line_breaks(&b));
    let (blanks_same, markers_same) = lines_compare(&a, &b);
    ProofreadingPolicyValidation {
        outer_whitespace_preserved: outer,
        line_structure_preserved: breaks_same && blanks_same,
        formatting_markers_preserved: markers_same,
    }
}

} // verus!
