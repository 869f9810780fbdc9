//! Character-level text helpers shared by the domain modules.
use vstd::prelude::*;

verus! {

/// The Unicode `White_Space` property, which is what `char::is_whitespace` tests.
pub open spec fn is_white_space(c: char) -> bool {
    let v = c as u32;
    ||| 0x9 <= v <= 0xD
    ||| v == 0x20
    ||| v == 0x85
    ||| v == 0xA0
    ||| v == 0x1680
    ||| 0x2000 <= v <= 0x200A
    ||| v == 0x2028
    ||| v == 0x2029
    ||| v == 0x202F
    ||| v == 0x205F
    ||| v == 0x3000
}

/// Index of the first character at or after `i` that is not white space (or the length).
pub open spec fn leading_ws_end(s: Seq<char>, i: int) -> int
    decreases s.len() - i,
{
    if i >= s.len() {
        s.len() as int
    } else if is_white_space(s[i]) {
        leading_ws_end(s, i + 1)
    } else {
        i
    }
}

/// Index just past the last character before `j` (and at or after `lo`) that is not white space.
pub open spec fn trailing_ws_start(s: Seq<char>, lo: int, j: int) -> int
    decreases j - lo,
{
    if j <= lo {
        lo
    } else if is_white_space(s[j - 1]) {
        trailing_ws_start(s, lo, j - 1)
    } else {
        j
    }
}

/// Start of the text once leading white space is removed.
pub open spec fn trim_start_index(s: Seq<char>) -> int {
    leading_ws_end(s, 0)
}

/// End of the text once trailing white space is removed.
pub open spec fn trim_end_index(s: Seq<char>) -> int {
    trailing_ws_start(s, trim_start_index(s), s.len() as int)
}

/// What `str::trim` leaves of a text.
pub open spec fn trimmed(s: Seq<char>) -> Seq<char> {
    s.subrange(trim_start_index(s), trim_end_index(s))
}

/// A text that is empty once trimmed (`text.trim().is_empty()`).
pub open spec fn is_blank(s: Seq<char>) -> bool {
    trim_start_index(s) == s.len()
}

pub proof fn lemma_leading_ws_end_bounds(s: Seq<char>, i: int)
    requires
        0 <= i <= s.len(),
    ensures
        i <= leading_ws_end(s, i) <= s.len(),
        forall|k: int| i <= k < leading_ws_end(s, i) ==> is_white_space(#[trigger] s[k]),
        leading_ws_end(s, i) < s.len() ==> !is_white_space(s[leading_ws_end(s, i)]),
    decreases s.len() - i,
{
    if i < s.len() && is_white_space(s[i]) {
        lemma_leading_ws_end_bounds(s, i + 1);
    }
}

pub proof fn lemma_trailing_ws_start_bounds(s: Seq<char>, lo: int, j: int)
    requires
        0 <= lo <= j <= s.len(),
    ensures
        lo <= trailing_ws_start(s, lo, j) <= j,
        forall|k: int| trailing_ws_start(s, lo, j) <= k < j ==> is_white_space(#[trigger] s[k]),
        trailing_ws_start(s, lo, j) > lo ==> !is_white_space(s[trailing_ws_start(s, lo, j) - 1]),
    decreases j - lo,
{
    if j > lo && is_white_space(s[j - 1]) {
        lemma_trailing_ws_start_bounds(s, lo, j - 1);
    }
}

/// A text is blank exactly when every character in it is white space.
pub proof fn lemma_blank_iff_all_white_space(s: Seq<char>)
    ensures
        is_blank(s) <==> forall|k: int| 0 <= k < s.len() ==> is_white_space(#[trigger] s[k]),
{
    lemma_leading_ws_end_bounds(s, 0);
}

pub proof fn lemma_trim_bounds(s: Seq<char>)
    ensures
        0 <= trim_start_index(s) <= trim_end_index(s) <= s.len(),
        is_blank(s) ==> trimmed(s).len() == 0,
        !is_blank(s) ==> trimmed(s).len() > 0,
{
    lemma_leading_ws_end_bounds(s, 0);
    lemma_trailing_ws_start_bounds(s, trim_start_index(s), s.len() as int);
    if !is_blank(s) {
        let a = trim_start_index(s);
        assert(!is_white_space(s[a]));
        if trim_end_index(s) == a {
            assert(is_white_space(s[a]));
        }
    }
}

/// `char::is_whitespace`.
pub fn char_is_white_space(c: char) -> (r: bool)
    ensures
        r == is_white_space(c),
{
    let v = c as u32;
    (0x9 <= v && v <= 0xD) || v == 0x20 || v == 0x85 || v == 0xA0 || v == 0x1680 || (0x2000 <= v
        && v <= 0x200A) || v == 0x2028 || v == 0x2029 || v == 0x202F || v == 0x205F || v == 0x3000
}

/// The characters of a text, in order.
pub fn chars_of(s: &str) -> (v: Vec<char>)
    ensures
        v@ == s@,
{
    let mut v: Vec<char> = Vec::new();
    for c in it: s.chars()
        invariant
            it.seq() == s@,
            v@ == it.seq().take(it.index() as int),
    {
        v.push(c);
    }
    v
}

/// `String::push`.
#[verifier::external_body]
pub(crate) fn push_char(s: &mut String, c: char)
    ensures
        final(s)@ == old(s)@.push(c),
{
    s.push(c);
}

/// `str::to_owned`, gathered here so callers name the conversion once.
pub fn owned(s: &str) -> (r: String)
    ensures
        r@ == s@,
{
    s.to_owned()
}

/// Builds a `String` holding the characters `v[from..to]`.
pub fn string_from_range(v: &Vec<char>, from: usize, to: usize) -> (r: String)
    requires
        from <= to <= v.len(),
    ensures
        r@ == v@.subrange(from as int, to as int),
{
    let mut r = String::new();
    let mut i = from;
    while i < to
        invariant
            from <= i <= to <= v.len(),
            r@ == v@.subrange(from as int, i as int),
        decreases to - i,
    {
        push_char(&mut r, v[i]);
        assert(v@.subrange(from as int, i + 1) =~= v@.subrange(from as int, i as int).push(v@[i as int]));
        i += 1;
    }
    r
}

/// Builds a `String` holding all the characters of `v`.
pub fn string_from_chars(v: &Vec<char>) -> (r: String)
    ensures
        r@ == v@,
{
    let r = string_from_range(v, 0, v.len());
    assert(v@.subrange(0, v@.len() as int) =~= v@);
    r
}

/// Index of the first non-white-space character at or after `i`.
pub fn leading_white_space_end(v: &Vec<char>, i: usize) -> (r: usize)
    requires
        i <= v.len(),
    ensures
        r == leading_ws_end(v@, i as int),
{
    let mut j = i;
    while j < v.len() && char_is_white_space(v[j])
        invariant
            i <= j <= v.len(),
            leading_ws_end(v@, i as int) == leading_ws_end(v@, j as int),
        decreases v.len() - j,
    {
        j += 1;
    }
    j
}

/// Index just past the last non-white-space character in `v[lo..j]` (or `lo`).
pub fn trailing_white_space_start(v: &Vec<char>, lo: usize, j: usize) -> (r: usize)
    requires
        lo <= j <= v.len(),
    ensures
        r == trailing_ws_start(v@, lo as int, j as int),
{
    let mut k = j;
    while k > lo && char_is_white_space(v[k - 1])
        invariant
            lo <= k <= j,
            j <= v.len(),
            trailing_ws_start(v@, lo as int, j as int) == trailing_ws_start(v@, lo as int, k as int),
        decreases k - lo,
    {
        k -= 1;
    }
    k
}

/// The bounds of what `str::trim` keeps.
pub fn trim_bounds(v: &Vec<char>) -> (r: (usize, usize))
    ensures
        r.0 == trim_start_index(v@),
        r.1 == trim_end_index(v@),
        r.0 <= r.1 <= v.len(),
{
    proof {
        lemma_trim_bounds(v@);
    }
    let a = leading_white_space_end(v, 0);
    let b = trailing_white_space_start(v, a, v.len());
    (a, b)
}

/// `text.trim().is_empty()`.
pub fn text_is_blank(s: &str) -> (r: bool)
    ensures
        r == is_blank(s@),
{
    let v = chars_of(s);
    leading_white_space_end(&v, 0) == v.len()
}

/// `text.trim().to_owned()`.
pub fn trimmed_string(s: &str) -> (r: String)
    ensures
        r@ == trimmed(s@),
{
    let v = chars_of(s);
    let (a, b) = trim_bounds(&v);
    string_from_range(&v, a, b)
}

/// `text.chars().count()`.
pub fn char_count(s: &str) -> (r: usize)
    ensures
        r == s@.len(),
{
    let v = chars_of(s);
    v.len()
}

/// Equality of two texts.
pub fn text_eq(a: &str, b: &str) -> (r: bool)
    ensures
        r == (a@ == b@),
{
    let va = chars_of(a);
    let vb = chars_of(b);
    if va.len() != vb.len() {
        return false;
    }
    let mut i: usize = 0;
    while i < va.len()
        invariant
            va@ == a@,
            vb@ == b@,
            va.len() == vb.len(),
            i <= va.len(),
            forall|k: int| 0 <= k < i ==> va@[k] == vb@[k],
        decreases va.len() - i,
    {
        if va[i] != vb[i] {
            assert(va@[i as int] != vb@[i as int]);
            assert(va@ != vb@);
            return false;
        }
        i += 1;
    }
    assert(va@ =~= vb@);
    true
}

} // verus!
