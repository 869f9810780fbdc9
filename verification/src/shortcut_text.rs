//! Shortcuts as text: the stored form `kind:value|CCOS` (kind `character`, `function` or
//! `named`, then one flag per modifier: Command, Control, Option, Shift), the names of the
//! named keys, and decimal numbers.
use vstd::prelude::*;

use crate::shortcut::{
    NamedShortcutKey, Shortcut, ShortcutKey, ShortcutKeyKind, ShortcutModifiers, ascii_upper,
    is_acceptable_shortcut, is_function_number, is_reserved_shortcut, is_shortcut_character,
};
use crate::text::{chars_of, string_from_chars};

verus! {

/// The character of decimal digit `d`.
pub open spec fn digit_char(d: nat) -> char {
    ((('0' as u32) + d) as u32) as char
}

/// Whether `c` is a decimal digit.
pub open spec fn is_digit(c: char) -> bool {
    '0' <= c <= '9'
}

/// The value of a decimal digit.
pub open spec fn digit_value(c: char) -> nat {
    ((c as u32) - ('0' as u32)) as nat
}

/// The decimal digits of `n`, without leading zeros.
pub open spec fn decimal_digits(n: nat) -> Seq<char>
    decreases n,
{
    if n < 10 {
        seq![digit_char(n)]
    } else {
        decimal_digits(n / 10).push(digit_char(n % 10))
    }
}

/// The value of a run of decimal digits.
pub open spec fn digits_value(s: Seq<char>) -> nat
    decreases s.len(),
{
    if s.len() == 0 {
        0
    } else {
        digits_value(s.drop_last()) * 10 + digit_value(s.last())
    }
}

/// The digits of a number after its optional plus sign.
pub open spec fn unsigned_digits(s: Seq<char>) -> Seq<char> {
    if s.len() > 0 && s[0] == '+' {
        s.drop_first()
    } else {
        s
    }
}

/// Whether every character is a decimal digit.
pub open spec fn all_digits(s: Seq<char>) -> bool {
    forall|i: int| 0 <= i < s.len() ==> is_digit(#[trigger] s[i])
}

/// A number as `u8` reads it: an optional plus sign, then at least one digit, and a value
/// of at most 255.
pub open spec fn spec_parse_u8(s: Seq<char>) -> Option<u8> {
    let digits = unsigned_digits(s);
    if digits.len() > 0 && all_digits(digits) && digits_value(digits) <= 255 {
        Some(digits_value(digits) as u8)
    } else {
        None
    }
}

/// Reads a number as `u8` does.
pub fn parse_u8(v: &Vec<char>, from: usize, to: usize) -> (r: Option<u8>)
    requires
        from <= to <= v.len(),
    ensures
        r == spec_parse_u8(v@.subrange(from as int, to as int)),
{
    let ghost s = v@.subrange(from as int, to as int);
    let start: usize = if from < to && v[from] == '+' { from + 1 } else { from };
    let ghost digits = v@.subrange(start as int, to as int);
    proof {
        if s.len() > 0 && s[0] == '+' {
            assert(s.drop_first() =~= digits);
        } else {
            assert(s =~= digits);
        }
    }
    if start == to {
        return None;
    }
    let mut value: u32 = 0;
    let mut i: usize = start;
    while i < to
        invariant
            from <= start <= i <= to <= v.len(),
            digits == v@.subrange(start as int, to as int),
            s == v@.subrange(from as int, to as int),
            unsigned_digits(s) == digits,
            forall|k: int| 0 <= k < i - start ==> is_digit(#[trigger] digits[k]),
            value == digits_value(digits.take(i - start)),
            value <= 255,
        decreases to - i,
    {
        let c = v[i];
        if !('0' <= c && c <= '9') {
            proof {
                assert(!is_digit(digits[i - start]));
            }
            return None;
        }
        let d = (c as u32) - ('0' as u32);
        proof {
            assert(digits.take(i - start + 1).drop_last() =~= digits.take(i - start));
            assert(digits.take(i - start + 1).last() == c);
        }
        if value * 10 + d > 255 {
            proof {
                assert(is_digit(digits[i - start]));
                lemma_digits_value_grows(digits, i - start + 1);
                assert(digits.take(digits.len() as int) =~= digits);
            }
            return None;
        }
        value = value * 10 + d;
        i = i + 1;
    }
    proof {
        assert(digits.take(digits.len() as int) =~= digits);
    }
    Some(value as u8)
}

/// A longer run of digits has at least the value of its prefix.
proof fn lemma_digits_value_grows(digits: Seq<char>, n: int)
    requires
        0 <= n <= digits.len(),
        forall|k: int| 0 <= k < n ==> is_digit(#[trigger] digits[k]),
    ensures
        forall|m: int| n <= m <= digits.len() ==> digits_value(digits.take(m)) >= digits_value(digits.take(n)),
    decreases digits.len() - n,
{
    assert forall|m: int| n <= m <= digits.len() implies digits_value(digits.take(m)) >= digits_value(
        digits.take(n),
    ) by {
        lemma_digits_value_prefix(digits, n, m);
    }
}

/// The value of a prefix is at most that of a longer prefix.
proof fn lemma_digits_value_prefix(digits: Seq<char>, n: int, m: int)
    requires
        0 <= n <= m <= digits.len(),
    ensures
        digits_value(digits.take(m)) >= digits_value(digits.take(n)),
    decreases m - n,
{
    if m > n {
        lemma_digits_value_prefix(digits, n, m - 1);
        assert(digits.take(m).drop_last() =~= digits.take(m - 1));
    }
}

/// The decimal digits of a `u8`.
pub fn decimal_string(n: u8) -> (r: Vec<char>)
    ensures
        r@ == decimal_digits(n as nat),
{
    proof {
        reveal_with_fuel(decimal_digits, 3);
    }
    let mut r: Vec<char> = Vec::new();
    if n >= 100 {
        r.push(digit(n / 100));
        r.push(digit((n / 10) % 10));
        r.push(digit(n % 10));
        proof {
            assert((n / 10) as nat / 10 == n / 100);
            assert(decimal_digits(n as nat) =~= seq![digit_char((n / 100) as nat), digit_char(((n / 10) % 10) as nat), digit_char((n % 10) as nat)]);
        }
    } else if n >= 10 {
        r.push(digit(n / 10));
        r.push(digit(n % 10));
        proof {
            assert(decimal_digits(n as nat) =~= seq![digit_char((n / 10) as nat), digit_char((n % 10) as nat)]);
        }
    } else {
        r.push(digit(n));
    }
    r
}

/// The character of a decimal digit.
fn digit(d: u8) -> (r: char)
    requires
        d < 10,
    ensures
        r == digit_char(d as nat),
{
    let code: u32 = ('0' as u32) + (d as u32);
    proof {
        assert(0x30 <= code < 0x3a);
    }
    char_from_digit_code(code)
}

/// The character with an ASCII digit's code.
fn char_from_digit_code(code: u32) -> (r: char)
    requires
        0x30 <= code < 0x3a,
    ensures
        r == code as char,
{
    let b: u8 = code as u8;
    b as char
}

/// Reading the digits of a number gives the number back.
pub proof fn lemma_decimal_round_trip(n: nat)
    ensures
        digits_value(decimal_digits(n)) == n,
        decimal_digits(n).len() > 0,
        forall|i: int| 0 <= i < decimal_digits(n).len() ==> is_digit(#[trigger] decimal_digits(n)[i]),
        decimal_digits(n)[0] != '+',
    decreases n,
{
    assert(digit_value(digit_char(n % 10)) == n % 10);
    if n >= 10 {
        lemma_decimal_round_trip(n / 10);
        let d = decimal_digits(n / 10);
        assert(decimal_digits(n).drop_last() =~= d);
        assert(decimal_digits(n).last() == digit_char(n % 10));
        assert(digits_value(decimal_digits(n)) == digits_value(d) * 10 + digit_value(digit_char(n % 10)));
        assert((n / 10) * 10 + n % 10 == n) by (nonlinear_arith);
        assert forall|i: int| 0 <= i < decimal_digits(n).len() implies is_digit(#[trigger] decimal_digits(n)[i]) by {
            if i < d.len() {
                assert(decimal_digits(n)[i] == d[i]);
            }
        }
        assert(decimal_digits(n)[0] == d[0]);
    } else {
        assert(decimal_digits(n) =~= seq![digit_char(n)]);
        assert(seq![digit_char(n)].drop_last() =~= Seq::<char>::empty());
        assert(n % 10 == n);
        assert(digits_value(Seq::<char>::empty()) == 0);
        assert(digits_value(seq![digit_char(n)]) == digit_value(digit_char(n)));
    }
}

/// A `u8` read from its decimal digits is itself.
pub proof fn lemma_parse_decimal(n: u8)
    ensures
        spec_parse_u8(decimal_digits(n as nat)) == Some(n),
{
    lemma_decimal_round_trip(n as nat);
}

/// The first position of `c` in `s`.
pub open spec fn index_of(s: Seq<char>, c: char) -> Option<int>
    decreases s.len(),
{
    if s.len() == 0 {
        None
    } else if s[0] == c {
        Some(0)
    } else {
        match index_of(s.drop_first(), c) {
            Some(i) => Some(i + 1),
            None => None,
        }
    }
}

/// `index_of` finds the first occurrence, and only fails when there is none.
pub proof fn lemma_index_of(s: Seq<char>, c: char)
    ensures
        index_of(s, c) matches Some(i) ==> 0 <= i < s.len() && s[i] == c && forall|k: int| 0 <= k < i ==> s[k] != c,
        index_of(s, c) is None ==> forall|k: int| 0 <= k < s.len() ==> s[k] != c,
        (forall|k: int| 0 <= k < s.len() ==> s[k] != c) ==> index_of(s, c) is None,
    decreases s.len(),
{
    if s.len() > 0 && s[0] != c {
        lemma_index_of(s.drop_first(), c);
        assert forall|k: int| 1 <= k < s.len() implies s[k] == s.drop_first()[k - 1] by {}
    }
}

/// The position of `c` found after a run without it, at the start of what follows.
pub proof fn lemma_index_of_after(a: Seq<char>, c: char, b: Seq<char>)
    requires
        forall|k: int| 0 <= k < a.len() ==> a[k] != c,
        b.len() > 0,
        b[0] == c,
    ensures
        index_of(a + b, c) == Some(a.len() as int),
{
    lemma_index_of(a + b, c);
    let s = a + b;
    assert(s[a.len() as int] == c);
    if index_of(s, c) is None {
        assert(false);
    }
    let i = index_of(s, c)->Some_0;
    if i < a.len() {
        assert(s[i] == a[i]);
    }
    if i > a.len() {
        assert(s[a.len() as int] == c);
    }
}

/// The first position of `c` in `v[from..to]`, counted from `from`.
fn find_char(v: &Vec<char>, from: usize, to: usize, c: char) -> (r: Option<usize>)
    requires
        from <= to <= v.len(),
    ensures
        match index_of(v@.subrange(from as int, to as int), c) {
            Some(i) => r == Some((from + i) as usize),
            None => r is None,
        },
        r matches Some(i) ==> from <= i < to && v@[i as int] == c,
{
    let ghost s = v@.subrange(from as int, to as int);
    proof {
        lemma_index_of(s, c);
    }
    let mut i = from;
    while i < to
        invariant
            from <= i <= to <= v.len(),
            s == v@.subrange(from as int, to as int),
            forall|k: int| from <= k < i ==> v@[k] != c,
        decreases to - i,
    {
        if v[i] == c {
            proof {
                assert(s.subrange(0, (i - from) as int) + s.subrange((i - from) as int, s.len() as int) =~= s);
                lemma_index_of_after(s.subrange(0, (i - from) as int), c, s.subrange((i - from) as int, s.len() as int));
            }
            return Some(i);
        }
        i = i + 1;
    }
    proof {
        assert forall|k: int| 0 <= k < s.len() implies s[k] != c by {
            assert(s[k] == v@[from + k]);
        }
    }
    None
}

/// Whether `v[from..to]` spells `s`.
fn spells(v: &Vec<char>, from: usize, to: usize, s: &str) -> (r: bool)
    requires
        from <= to <= v.len(),
    ensures
        r == (v@.subrange(from as int, to as int) == s@),
{
    let w = chars_of(s);
    if to - from != w.len() {
        return false;
    }
    let mut i: usize = 0;
    while i < w.len()
        invariant
            i <= w.len(),
            to - from == w.len(),
            from <= to <= v.len(),
            w@ == s@,
            forall|k: int| 0 <= k < i ==> v@[from + k] == w@[k],
        decreases w.len() - i,
    {
        if v[from + i] != w[i] {
            assert(v@.subrange(from as int, to as int)[i as int] != s@[i as int]);
            return false;
        }
        i = i + 1;
    }
    assert(v@.subrange(from as int, to as int) =~= s@);
    true
}

/// The stored name of a named key.
pub open spec fn spec_named_key_identifier(key: NamedShortcutKey) -> Seq<char> {
    match key {
        NamedShortcutKey::Space => "space"@,
        NamedShortcutKey::Return => "return"@,
        NamedShortcutKey::Tab => "tab"@,
        NamedShortcutKey::Escape => "escape"@,
        NamedShortcutKey::Delete => "delete"@,
        NamedShortcutKey::ArrowUp => "arrow-up"@,
        NamedShortcutKey::ArrowDown => "arrow-down"@,
        NamedShortcutKey::ArrowLeft => "arrow-left"@,
        NamedShortcutKey::ArrowRight => "arrow-right"@,
    }
}

/// The stored name of a named key.
pub fn named_key_identifier(key: NamedShortcutKey) -> (r: &'static str)
    ensures
        r@ == spec_named_key_identifier(key),
{
    match key {
        NamedShortcutKey::Space => "space",
        NamedShortcutKey::Return => "return",
        NamedShortcutKey::Tab => "tab",
        NamedShortcutKey::Escape => "escape",
        NamedShortcutKey::Delete => "delete",
        NamedShortcutKey::ArrowUp => "arrow-up",
        NamedShortcutKey::ArrowDown => "arrow-down",
        NamedShortcutKey::ArrowLeft => "arrow-left",
        NamedShortcutKey::ArrowRight => "arrow-right",
    }
}

/// The named key with a stored name.
pub open spec fn spec_parse_named_key(name: Seq<char>) -> Option<NamedShortcutKey> {
    if name == "space"@ {
        Some(NamedShortcutKey::Space)
    } else if name == "return"@ {
        Some(NamedShortcutKey::Return)
    } else if name == "tab"@ {
        Some(NamedShortcutKey::Tab)
    } else if name == "escape"@ {
        Some(NamedShortcutKey::Escape)
    } else if name == "delete"@ {
        Some(NamedShortcutKey::Delete)
    } else if name == "arrow-up"@ {
        Some(NamedShortcutKey::ArrowUp)
    } else if name == "arrow-down"@ {
        Some(NamedShortcutKey::ArrowDown)
    } else if name == "arrow-left"@ {
        Some(NamedShortcutKey::ArrowLeft)
    } else if name == "arrow-right"@ {
        Some(NamedShortcutKey::ArrowRight)
    } else {
        None
    }
}

/// The named key spelled by `v[from..to]`.
pub fn parse_named_key_in(v: &Vec<char>, from: usize, to: usize) -> (r: Option<NamedShortcutKey>)
    requires
        from <= to <= v.len(),
    ensures
        r == spec_parse_named_key(v@.subrange(from as int, to as int)),
{
    if spells(v, from, to, "space") {
        Some(NamedShortcutKey::Space)
    } else if spells(v, from, to, "return") {
        Some(NamedShortcutKey::Return)
    } else if spells(v, from, to, "tab") {
        Some(NamedShortcutKey::Tab)
    } else if spells(v, from, to, "escape") {
        Some(NamedShortcutKey::Escape)
    } else if spells(v, from, to, "delete") {
        Some(NamedShortcutKey::Delete)
    } else if spells(v, from, to, "arrow-up") {
        Some(NamedShortcutKey::ArrowUp)
    } else if spells(v, from, to, "arrow-down") {
        Some(NamedShortcutKey::ArrowDown)
    } else if spells(v, from, to, "arrow-left") {
        Some(NamedShortcutKey::ArrowLeft)
    } else if spells(v, from, to, "arrow-right") {
        Some(NamedShortcutKey::ArrowRight)
    } else {
        None
    }
}

/// The named key with a stored name.
pub fn parse_named_key(name: &str) -> (r: Option<NamedShortcutKey>)
    ensures
        r == spec_parse_named_key(name@),
{
    let v = chars_of(name);
    let r = parse_named_key_in(&v, 0, v.len());
    proof {
        assert(v@.subrange(0, v@.len() as int) =~= name@);
    }
    r
}

/// Every named key reads back from its stored name.
pub proof fn lemma_named_key_round_trip(key: NamedShortcutKey)
    ensures
        spec_parse_named_key(spec_named_key_identifier(key)) == Some(key),
{
    reveal_strlit("space");
    reveal_strlit("return");
    reveal_strlit("tab");
    reveal_strlit("escape");
    reveal_strlit("delete");
    reveal_strlit("arrow-up");
    reveal_strlit("arrow-down");
    reveal_strlit("arrow-left");
    reveal_strlit("arrow-right");
    assert("return"@[0] != "space"@[0]);
    assert("escape"@[0] != "return"@[0]);
    assert("delete"@[0] != "return"@[0]);
    assert("delete"@[0] != "escape"@[0]);
    assert("arrow-left"@[6] != "arrow-down"@[6]);
    assert("return"@ != "space"@);
    assert("escape"@ != "return"@);
    assert("delete"@ != "return"@);
    assert("delete"@ != "escape"@);
    assert("arrow-left"@ != "arrow-down"@);
    assert("tab"@ != "space"@ && "tab"@ != "return"@);
    assert("escape"@ != "space"@ && "escape"@ != "tab"@);
    assert("delete"@ != "space"@ && "delete"@ != "tab"@);
    assert("space"@.len() == 5 && "return"@.len() == 6 && "tab"@.len() == 3 && "escape"@.len() == 6);
    assert("delete"@.len() == 6 && "arrow-up"@.len() == 8 && "arrow-down"@.len() == 10);
    assert("arrow-left"@.len() == 10 && "arrow-right"@.len() == 11);
}

/// Each stored name denotes the key it names: a name reads as the space bar exactly when it
/// is `space`, as the Up Arrow key exactly when it is `arrow-up`, and so on for every named
/// key; every other name reads as none. A key is stored under the name that reads back as it.
pub proof fn law_stored_names_denote_their_keys(name: Seq<char>, key: NamedShortcutKey)
    ensures
        (spec_parse_named_key(name) == Some(NamedShortcutKey::Space)) == (name == "space"@),
        (spec_parse_named_key(name) == Some(NamedShortcutKey::Return)) == (name == "return"@),
        (spec_parse_named_key(name) == Some(NamedShortcutKey::Tab)) == (name == "tab"@),
        (spec_parse_named_key(name) == Some(NamedShortcutKey::Escape)) == (name == "escape"@),
        (spec_parse_named_key(name) == Some(NamedShortcutKey::Delete)) == (name == "delete"@),
        (spec_parse_named_key(name) == Some(NamedShortcutKey::ArrowUp)) == (name == "arrow-up"@),
        (spec_parse_named_key(name) == Some(NamedShortcutKey::ArrowDown)) == (name == "arrow-down"@),
        (spec_parse_named_key(name) == Some(NamedShortcutKey::ArrowLeft)) == (name == "arrow-left"@),
        (spec_parse_named_key(name) == Some(NamedShortcutKey::ArrowRight)) == (name == "arrow-right"@),
        spec_parse_named_key(spec_named_key_identifier(key)) == Some(key),
{
    reveal_strlit("space");
    reveal_strlit("return");
    reveal_strlit("tab");
    reveal_strlit("escape");
    reveal_strlit("delete");
    reveal_strlit("arrow-up");
    reveal_strlit("arrow-down");
    reveal_strlit("arrow-left");
    reveal_strlit("arrow-right");
    lemma_named_key_round_trip(key);
    assert("return"@[0] != "space"@[0]);
    assert("escape"@[0] != "return"@[0]);
    assert("delete"@[0] != "return"@[0]);
    assert("delete"@[0] != "escape"@[0]);
    assert("arrow-left"@[6] != "arrow-down"@[6]);
    assert("return"@ != "space"@);
    assert("escape"@ != "return"@);
    assert("delete"@ != "return"@);
    assert("delete"@ != "escape"@);
    assert("arrow-left"@ != "arrow-down"@);
    assert("arrow-up"@[6] != "arrow-left"@[6]);
    assert("arrow-up"@ != "arrow-left"@);
    assert("arrow-right"@[6] != "arrow-left"@[6]);
    assert("tab"@ != "space"@ && "tab"@ != "return"@);
    assert("escape"@ != "space"@ && "escape"@ != "tab"@);
    assert("delete"@ != "space"@ && "delete"@ != "tab"@);
    assert("space"@.len() == 5 && "return"@.len() == 6 && "tab"@.len() == 3 && "escape"@.len() == 6);
    assert("delete"@.len() == 6 && "arrow-up"@.len() == 8 && "arrow-down"@.len() == 10);
    assert("arrow-left"@.len() == 10 && "arrow-right"@.len() == 11);
}

/// The stored flag of a modifier.
pub open spec fn flag_char(held: bool) -> char {
    if held {
        '1'
    } else {
        '0'
    }
}

/// Whether a character is a stored flag.
pub open spec fn is_flag(c: char) -> bool {
    c == '0' || c == '1'
}

/// The stored text of a key.
pub open spec fn spec_key_text(kind: ShortcutKeyKind) -> Seq<char> {
    match kind {
        ShortcutKeyKind::Character(c) => "character:"@.push(c),
        ShortcutKeyKind::Function(n) => "function:"@ + decimal_digits(n as nat),
        ShortcutKeyKind::Named(k) => "named:"@ + spec_named_key_identifier(k),
    }
}

/// The stored text of a shortcut.
pub open spec fn spec_encode_shortcut(shortcut: Shortcut) -> Seq<char> {
    let m = shortcut.spec_modifiers();
    spec_key_text(shortcut.spec_key().kind()) + seq![
        '|',
        flag_char(m.spec_command()),
        flag_char(m.spec_control()),
        flag_char(m.spec_option()),
        flag_char(m.spec_shift()),
    ]
}

/// The key of a stored kind and value: a character must be one character (upper-cased),
/// a function number must be in range, a name must be known.
pub open spec fn spec_decode_key(kind: Seq<char>, value: Seq<char>) -> Option<ShortcutKey> {
    if kind == "character"@ {
        if value.len() == 1 && is_shortcut_character(ascii_upper(value[0])) {
            Some(ShortcutKey::with_kind(ShortcutKeyKind::Character(ascii_upper(value[0]))))
        } else {
            None
        }
    } else if kind == "function"@ {
        match spec_parse_u8(value) {
            Some(n) => if is_function_number(n) {
                Some(ShortcutKey::with_kind(ShortcutKeyKind::Function(n)))
            } else {
                None
            },
            None => None,
        }
    } else if kind == "named"@ {
        match spec_parse_named_key(value) {
            Some(k) => Some(ShortcutKey::with_kind(ShortcutKeyKind::Named(k))),
            None => None,
        }
    } else {
        None
    }
}

/// The modifiers of four stored flags.
pub open spec fn spec_decode_flags(flags: Seq<char>) -> Option<ShortcutModifiers> {
    if flags.len() != 4 || !is_flag(flags[0]) || !is_flag(flags[1]) || !is_flag(flags[2]) || !is_flag(flags[3]) {
        None
    } else {
        Some(ShortcutModifiers::with_flags(flags[0] == '1', flags[1] == '1', flags[2] == '1', flags[3] == '1'))
    }
}

/// The shortcut a stored text holds: the text before the first `|` is the key, split at its
/// first `:` into kind and value; after the `|` come exactly four flags. The shortcut must
/// be one the user may assign.
pub open spec fn spec_decode_shortcut(text: Seq<char>) -> Option<(ShortcutKey, ShortcutModifiers)> {
    match index_of(text, '|') {
        None => None,
        Some(bar) => match spec_decode_flags(text.skip(bar + 1)) {
            None => None,
            Some(modifiers) => {
                let key = text.take(bar);
                match index_of(key, ':') {
                    None => None,
                    Some(colon) => match spec_decode_key(key.take(colon), key.skip(colon + 1)) {
                        None => None,
                        Some(k) => if is_acceptable_shortcut(k, modifiers) && !is_reserved_shortcut(k, modifiers) {
                            Some((k, modifiers))
                        } else {
                            None
                        },
                    },
                }
            },
        },
    }
}

fn push_all(v: &mut Vec<char>, s: &str)
    ensures
        final(v)@ == old(v)@ + s@,
{
    let w = chars_of(s);
    let ghost start = v@;
    let mut i: usize = 0;
    while i < w.len()
        invariant
            i <= w.len(),
            w@ == s@,
            v@ == start + w@.take(i as int),
        decreases w.len() - i,
    {
        v.push(w[i]);
        proof {
            assert(start + w@.take(i + 1) =~= (start + w@.take(i as int)).push(w@[i as int]));
        }
        i = i + 1;
    }
    assert(w@.take(w@.len() as int) =~= w@);
}

fn push_flag(v: &mut Vec<char>, held: bool)
    ensures
        final(v)@ == old(v)@.push(flag_char(held)),
{
    v.push(if held { '1' } else { '0' });
}

/// The stored text of a shortcut.
pub fn encode_shortcut(shortcut: Shortcut) -> (r: String)
    ensures
        r@ == spec_encode_shortcut(shortcut),
{
    let key = shortcut.key();
    let mut v: Vec<char> = Vec::new();
    match key.character_value() {
        Some(c) => {
            push_all(&mut v, "character:");
            v.push(c);
        },
        None => match key.function_number() {
            Some(n) => {
                push_all(&mut v, "function:");
                let digits = decimal_string(n);
                let ghost before = v@;
                let mut i: usize = 0;
                while i < digits.len()
                    invariant
                        i <= digits.len(),
                        v@ == before + digits@.take(i as int),
                    decreases digits.len() - i,
                {
                    v.push(digits[i]);
                    proof {
                        assert(before + digits@.take(i + 1) =~= (before + digits@.take(i as int)).push(digits@[i as int]));
                    }
                    i = i + 1;
                }
                proof {
                    assert(digits@.take(digits@.len() as int) =~= digits@);
                }
            },
            None => match key.named_value() {
                Some(k) => {
                    push_all(&mut v, "named:");
                    push_all(&mut v, named_key_identifier(k));
                },
                None => {},
            },
        },
    }
    proof {
        assert(v@ =~= spec_key_text(key.kind()));
    }
    let m = shortcut.modifiers();
    v.push('|');
    push_flag(&mut v, m.command());
    push_flag(&mut v, m.control());
    push_flag(&mut v, m.option());
    push_flag(&mut v, m.shift());
    proof {
        assert(v@ =~= spec_encode_shortcut(shortcut));
    }
    string_from_chars(&v)
}

/// The modifiers of the four flags in `v[from..to]`.
fn decode_flags(v: &Vec<char>, from: usize, to: usize) -> (r: Option<ShortcutModifiers>)
    requires
        from <= to <= v.len(),
    ensures
        r == spec_decode_flags(v@.subrange(from as int, to as int)),
{
    let ghost flags = v@.subrange(from as int, to as int);
    if to - from != 4 {
        return None;
    }
    let f0 = v[from];
    let f1 = v[from + 1];
    let f2 = v[from + 2];
    let f3 = v[from + 3];
    assert(flags[0] == f0 && flags[1] == f1 && flags[2] == f2 && flags[3] == f3);
    if !(f0 == '0' || f0 == '1') || !(f1 == '0' || f1 == '1') || !(f2 == '0' || f2 == '1') || !(f3 == '0' || f3
        == '1') {
        return None;
    }
    let modifiers = ShortcutModifiers::new(f0 == '1', f1 == '1', f2 == '1', f3 == '1');
    proof {
        ShortcutModifiers::lemma_flags(f0 == '1', f1 == '1', f2 == '1', f3 == '1', modifiers);
    }
    Some(modifiers)
}

/// The key of the stored kind `v[from..colon]` and value `v[colon + 1..to]`.
fn decode_key(v: &Vec<char>, from: usize, colon: usize, to: usize) -> (r: Option<ShortcutKey>)
    requires
        from <= colon < to <= v.len(),
    ensures
        r == spec_decode_key(v@.subrange(from as int, colon as int), v@.subrange(colon + 1, to as int)),
{
    let ghost kind_text = v@.subrange(from as int, colon as int);
    let ghost value_text = v@.subrange(colon + 1, to as int);
    if spells(&v, from, colon, "character") {
        if to - (colon + 1) != 1 {
            return None;
        }
        assert(value_text[0] == v[colon + 1]);
        match ShortcutKey::character(v[colon + 1]) {
            Ok(k) => {
                proof {
                    ShortcutKey::lemma_kind(k.kind(), k);
                }
                Some(k)
            },
            Err(_) => None,
        }
    } else if spells(&v, from, colon, "function") {
        match parse_u8(&v, colon + 1, to) {
            Some(n) => match ShortcutKey::function(n) {
                Ok(k) => {
                    proof {
                        ShortcutKey::lemma_kind(k.kind(), k);
                    }
                    Some(k)
                },
                Err(_) => None,
            },
            None => None,
        }
    } else if spells(&v, from, colon, "named") {
        match parse_named_key_in(&v, colon + 1, to) {
            Some(named) => {
                let k = ShortcutKey::named(named);
                proof {
                    ShortcutKey::lemma_kind(k.kind(), k);
                }
                Some(k)
            },
            None => None,
        }
    } else {
        None
    }
}

/// The shortcut a stored text holds, if it is well formed and assignable.
pub fn decode_shortcut(text: &str) -> (r: Option<Shortcut>)
    ensures
        match spec_decode_shortcut(text@) {
            Some((k, m)) => r matches Some(s) && s.spec_key() == k && s.spec_modifiers() == m,
            None => r is None,
        },
{
    let v = chars_of(text);
    proof {
        assert(v@.subrange(0, v@.len() as int) =~= v@);
        lemma_index_of(text@, '|');
    }
    let bar = match find_char(&v, 0, v.len(), '|') {
        Some(bar) => bar,
        None => return None,
    };
    assert(index_of(text@, '|') == Some(bar as int));
    proof {
        assert(v@.subrange(bar + 1, v@.len() as int) =~= text@.skip(bar + 1));
        assert(v@.subrange(0, bar as int) =~= text@.take(bar as int));
    }
    let modifiers = match decode_flags(&v, bar + 1, v.len()) {
        Some(m) => m,
        None => return None,
    };
    let colon = match find_char(&v, 0, bar, ':') {
        Some(colon) => colon,
        None => return None,
    };
    proof {
        lemma_index_of(text@.take(bar as int), ':');
        assert(v@.subrange(0, bar as int) =~= text@.take(bar as int));
        assert(index_of(text@.take(bar as int), ':') == Some(colon as int));
        assert(v@.subrange(0, colon as int) =~= text@.take(bar as int).take(colon as int));
        assert(v@.subrange(colon + 1, bar as int) =~= text@.take(bar as int).skip(colon + 1));
    }
    let key = match decode_key(&v, 0, colon, bar) {
        Some(k) => k,
        None => return None,
    };
    match Shortcut::assignable(key, modifiers) {
        Ok(shortcut) => Some(shortcut),
        Err(_) => None,
    }
}

/// The names of named keys hold neither `:` nor `|`.
proof fn lemma_named_identifier_separators(key: NamedShortcutKey)
    ensures
        forall|i: int| 0 <= i < spec_named_key_identifier(key).len() ==> #[trigger] spec_named_key_identifier(key)[i]
            != ':' && spec_named_key_identifier(key)[i] != '|',
{
    reveal_strlit("space");
    reveal_strlit("return");
    reveal_strlit("tab");
    reveal_strlit("escape");
    reveal_strlit("delete");
    reveal_strlit("arrow-up");
    reveal_strlit("arrow-down");
    reveal_strlit("arrow-left");
    reveal_strlit("arrow-right");
}

/// The stored text of a valid key holds no `|`, and reads back as the key from its first
/// `:` on.
proof fn lemma_key_text_decodes(kind: ShortcutKeyKind)
    requires
        ShortcutKey::with_kind(kind).is_valid(),
    ensures
        forall|i: int| 0 <= i < spec_key_text(kind).len() ==> #[trigger] spec_key_text(kind)[i] != '|',
        index_of(spec_key_text(kind), ':') matches Some(c) && spec_decode_key(
            spec_key_text(kind).take(c),
            spec_key_text(kind).skip(c + 1),
        ) == Some(ShortcutKey::with_kind(kind)),
{
    ShortcutKey::lemma_kind(kind, ShortcutKey::with_kind(kind));
    let text = spec_key_text(kind);
    let (prefix, value) = match kind {
        ShortcutKeyKind::Character(c) => ("character:"@, seq![c]),
        ShortcutKeyKind::Function(n) => ("function:"@, decimal_digits(n as nat)),
        ShortcutKeyKind::Named(k) => ("named:"@, spec_named_key_identifier(k)),
    };
    assert(text =~= prefix + value);
    match kind {
        ShortcutKeyKind::Character(c) => {
            reveal_strlit("character:");
            reveal_strlit("character");
        },
        ShortcutKeyKind::Function(n) => {
            reveal_strlit("function:");
            reveal_strlit("function");
            reveal_strlit("character");
            assert("function"@[0] != "character"@[0]);
            lemma_decimal_round_trip(n as nat);
            lemma_parse_decimal(n);
            assert forall|k: int| 0 <= k < value.len() implies value[k] != '|' && value[k] != ':' by {
                assert(is_digit(value[k]));
            }
        },
        ShortcutKeyKind::Named(k) => {
            reveal_strlit("named:");
            reveal_strlit("named");
            reveal_strlit("character");
            reveal_strlit("function");
            lemma_named_key_round_trip(k);
            lemma_named_identifier_separators(k);
        },
    }
    assert forall|k: int| 0 <= k < value.len() implies value[k] != '|' && value[k] != ':' by {}
    assert forall|k: int| 0 <= k < text.len() implies text[k] != '|' by {
        if k < prefix.len() {
            assert(text[k] == prefix[k]);
        } else {
            assert(text[k] == value[k - prefix.len()]);
        }
    }
    let body = prefix.drop_last();
    assert(prefix =~= body.push(':'));
    assert forall|k: int| 0 <= k < body.len() implies body[k] != ':' by {}
    assert(text =~= body + (seq![':'] + value));
    lemma_index_of_after(body, ':', seq![':'] + value);
    assert(text.take(body.len() as int) =~= body);
    assert(text.skip(body.len() as int + 1) =~= value);
    match kind {
        ShortcutKeyKind::Character(c) => {
            reveal_strlit("character:");
            reveal_strlit("character");
            assert(body =~= "character"@);
            assert(value.len() == 1 && value[0] == c);
            assert(ascii_upper(c) == c);
            assert(spec_decode_key(body, value) == Some(ShortcutKey::with_kind(kind)));
        },
        ShortcutKeyKind::Function(n) => {
            reveal_strlit("function:");
            reveal_strlit("function");
            reveal_strlit("character");
            assert(body =~= "function"@);
            assert("function"@[0] != "character"@[0]);
            lemma_parse_decimal(n);
            assert(spec_decode_key(body, value) == Some(ShortcutKey::with_kind(kind)));
        },
        ShortcutKeyKind::Named(k) => {
            reveal_strlit("named:");
            reveal_strlit("named");
            reveal_strlit("character");
            reveal_strlit("function");
            assert(body =~= "named"@);
            assert("named"@.len() != "character"@.len());
            assert("named"@.len() != "function"@.len());
            lemma_named_key_round_trip(k);
            assert(spec_decode_key(body, value) == Some(ShortcutKey::with_kind(kind)));
        },
    }
}

/// A shortcut the user may assign reads back from its stored text unchanged.
pub proof fn law_stored_shortcuts_read_back(shortcut: Shortcut)
    requires
        shortcut.spec_key().is_valid(),
        is_acceptable_shortcut(shortcut.spec_key(), shortcut.spec_modifiers()),
        !is_reserved_shortcut(shortcut.spec_key(), shortcut.spec_modifiers()),
    ensures
        spec_decode_shortcut(spec_encode_shortcut(shortcut)) == Some((shortcut.spec_key(), shortcut.spec_modifiers())),
{
    let key = shortcut.spec_key();
    let m = shortcut.spec_modifiers();
    let text = spec_encode_shortcut(shortcut);
    let key_text = spec_key_text(key.kind());
    let tail = seq!['|', flag_char(m.spec_command()), flag_char(m.spec_control()), flag_char(m.spec_option()), flag_char(m.spec_shift())];
    ShortcutKey::lemma_kind(key.kind(), key);
    ShortcutModifiers::lemma_flags(m.spec_command(), m.spec_control(), m.spec_option(), m.spec_shift(), m);
    lemma_key_text_decodes(key.kind());
    lemma_index_of_after(key_text, '|', tail);
    assert(text =~= key_text + tail);
    assert(text.take(key_text.len() as int) =~= key_text);
    assert(text.skip(key_text.len() as int + 1) =~= tail.drop_first());
    assert(spec_decode_flags(tail.drop_first()) == Some(m));
}

} // verus!
