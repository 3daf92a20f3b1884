//! The grammar of style values: lengths, percentages, grid tracks and
//! placements, colours and keywords.
//!
//! Values are read as sequences of characters.  A part of a value is a
//! window `[lo, hi)` of character positions; parsed numbers that the host
//! turns into floating-point values are handed back as such windows
//! (`TextRange`), so that everything decided about a value is decided here.
use vstd::prelude::*;

verus! {

/// Rust's `char::is_whitespace`: the Unicode `White_Space` property.
pub open spec fn is_ws(c: char) -> bool {
    ||| '\u{9}' <= c <= '\u{d}'
    ||| c == ' '
    ||| c == '\u{85}'
    ||| c == '\u{a0}'
    ||| c == '\u{1680}'
    ||| '\u{2000}' <= c <= '\u{200a}'
    ||| c == '\u{2028}'
    ||| c == '\u{2029}'
    ||| c == '\u{202f}'
    ||| c == '\u{205f}'
    ||| c == '\u{3000}'
}

/// Whether `c` is white space (see `is_ws`).
pub fn whitespace(c: char) -> (b: bool)
    ensures
        b == is_ws(c),
{
    ('\u{9}' <= c && c <= '\u{d}') || c == ' ' || c == '\u{85}' || c == '\u{a0}' || c == '\u{1680}' || ('\u{2000}'
        <= c && c <= '\u{200a}') || c == '\u{2028}' || c == '\u{2029}' || c == '\u{202f}' || c == '\u{205f}' || c
        == '\u{3000}'
}

/// A window `[start, end)` of character positions in a value.
#[derive(Debug, Clone, Copy, PartialEq, Eq, Structural)]
pub struct TextRange {
    pub start: usize,
    pub end: usize,
}

/// The characters of `s`.
pub fn chars_of(s: &str) -> (v: Vec<char>)
    ensures
        v@ == s@,
{
    let mut v: Vec<char> = Vec::new();
    for c in it: s.chars()
        invariant
            it.seq() == s@,
            v@ == it.seq().take(it.index() as int),
    {
        proof {
            assert(it.seq().take(it.index() + 1) == it.seq().take(it.index() as int).push(c));
        }
        v.push(c);
    }
    assert(s@.take(s@.len() as int) == s@);
    v
}

/// First position in `[lo, hi)` that is not white space, else `hi`.
pub open spec fn skip_ws(s: Seq<char>, lo: int, hi: int) -> int
    decreases hi - lo,
{
    if lo < hi && is_ws(s[lo]) {
        skip_ws(s, lo + 1, hi)
    } else {
        lo
    }
}

/// End of `[lo, hi)` once trailing white space is dropped.
pub open spec fn drop_ws_end(s: Seq<char>, lo: int, hi: int) -> int
    decreases hi - lo,
{
    if lo < hi && is_ws(s[hi - 1]) {
        drop_ws_end(s, lo, hi - 1)
    } else {
        hi
    }
}

/// `str::trim` on the window `[lo, hi)`: the window without leading and
/// trailing white space.
pub open spec fn trimmed(s: Seq<char>, lo: int, hi: int) -> (int, int) {
    let a = skip_ws(s, lo, hi);
    (a, drop_ws_end(s, a, hi))
}

/// Leading white space skipped.
pub fn skip_ws_exec(s: &Vec<char>, lo: usize, hi: usize) -> (a: usize)
    requires
        lo <= hi <= s@.len(),
    ensures
        a == skip_ws(s@, lo as int, hi as int),
        lo <= a <= hi,
{
    let mut a = lo;
    while a < hi && whitespace(s[a])
        invariant
            lo <= a <= hi <= s@.len(),
            skip_ws(s@, lo as int, hi as int) == skip_ws(s@, a as int, hi as int),
        decreases hi - a,
    {
        a = a + 1;
    }
    a
}

/// Trailing white space dropped.
pub fn drop_ws_end_exec(s: &Vec<char>, lo: usize, hi: usize) -> (b: usize)
    requires
        lo <= hi <= s@.len(),
    ensures
        b == drop_ws_end(s@, lo as int, hi as int),
        lo <= b <= hi,
{
    let mut b = hi;
    while b > lo && whitespace(s[b - 1])
        invariant
            lo <= b <= hi <= s@.len(),
            drop_ws_end(s@, lo as int, hi as int) == drop_ws_end(s@, lo as int, b as int),
        decreases b - lo,
    {
        b = b - 1;
    }
    b
}

/// The window `[lo, hi)` trimmed.
pub fn trim_window(s: &Vec<char>, lo: usize, hi: usize) -> (r: (usize, usize))
    requires
        lo <= hi <= s@.len(),
    ensures
        (r.0 as int, r.1 as int) == trimmed(s@, lo as int, hi as int),
        lo <= r.0 <= r.1 <= hi,
{
    let a = skip_ws_exec(s, lo, hi);
    let b = drop_ws_end_exec(s, a, hi);
    (a, b)
}

/// The window `[lo, hi)` is exactly the word `w`.
pub open spec fn is_word(s: Seq<char>, lo: int, hi: int, w: Seq<char>) -> bool {
    hi - lo == w.len() && forall|k: int| 0 <= k < w.len() ==> s[lo + k] == w[k]
}

/// The window `[lo, hi)` ends with `w`.
pub open spec fn ends_with(s: Seq<char>, lo: int, hi: int, w: Seq<char>) -> bool {
    hi - lo >= w.len() && forall|k: int| 0 <= k < w.len() ==> s[hi - w.len() + k] == w[k]
}

/// The window `[lo, hi)` starts with `w`.
pub open spec fn starts_with(s: Seq<char>, lo: int, hi: int, w: Seq<char>) -> bool {
    hi - lo >= w.len() && forall|k: int| 0 <= k < w.len() ==> s[lo + k] == w[k]
}

/// `str::trim_end_matches(w)`: end of `[lo, hi)` once every trailing copy of
/// `w` is dropped.
pub open spec fn strip_end(s: Seq<char>, lo: int, hi: int, w: Seq<char>) -> int
    decreases hi - lo,
{
    if w.len() > 0 && ends_with(s, lo, hi, w) {
        strip_end(s, lo, hi - w.len(), w)
    } else {
        hi
    }
}

/// `str::trim_start_matches(w)`: start of `[lo, hi)` once every leading
/// copy of `w` is dropped.
pub open spec fn strip_start(s: Seq<char>, lo: int, hi: int, w: Seq<char>) -> int
    decreases hi - lo,
{
    if w.len() > 0 && starts_with(s, lo, hi, w) {
        strip_start(s, lo + w.len(), hi, w)
    } else {
        lo
    }
}

/// Whether the window is exactly `w`.
pub fn is_word_exec(s: &Vec<char>, lo: usize, hi: usize, w: &Vec<char>) -> (b: bool)
    requires
        lo <= hi <= s@.len(),
    ensures
        b == is_word(s@, lo as int, hi as int, w@),
{
    if hi - lo != w.len() {
        return false;
    }
    let mut k: usize = 0;
    while k < w.len()
        invariant
            hi - lo == w@.len(),
            lo <= hi <= s@.len(),
            k <= w@.len(),
            forall|j: int| 0 <= j < k ==> s@[lo + j] == w@[j],
        decreases w.len() - k,
    {
        if s[lo + k] != w[k] {
            return false;
        }
        k = k + 1;
    }
    true
}

/// Whether the window ends with `w`.
pub fn ends_with_exec(s: &Vec<char>, lo: usize, hi: usize, w: &Vec<char>) -> (b: bool)
    requires
        lo <= hi <= s@.len(),
    ensures
        b == ends_with(s@, lo as int, hi as int, w@),
{
    if hi - lo < w.len() {
        return false;
    }
    let base = hi - w.len();
    let mut k: usize = 0;
    while k < w.len()
        invariant
            hi - lo >= w@.len(),
            base == hi - w@.len(),
            lo <= hi <= s@.len(),
            k <= w@.len(),
            forall|j: int| 0 <= j < k ==> s@[base + j] == w@[j],
        decreases w.len() - k,
    {
        if s[base + k] != w[k] {
            return false;
        }
        k = k + 1;
    }
    true
}

/// Whether the window starts with `w`.
pub fn starts_with_exec(s: &Vec<char>, lo: usize, hi: usize, w: &Vec<char>) -> (b: bool)
    requires
        lo <= hi <= s@.len(),
    ensures
        b == starts_with(s@, lo as int, hi as int, w@),
{
    if hi - lo < w.len() {
        return false;
    }
    let mut k: usize = 0;
    while k < w.len()
        invariant
            hi - lo >= w@.len(),
            lo <= hi <= s@.len(),
            k <= w@.len(),
            forall|j: int| 0 <= j < k ==> s@[lo + j] == w@[j],
        decreases w.len() - k,
    {
        if s[lo + k] != w[k] {
            return false;
        }
        k = k + 1;
    }
    true
}

/// Every trailing copy of `w` dropped.
pub fn strip_end_exec(s: &Vec<char>, lo: usize, hi: usize, w: &Vec<char>) -> (e: usize)
    requires
        lo <= hi <= s@.len(),
    ensures
        e == strip_end(s@, lo as int, hi as int, w@),
        lo <= e <= hi,
{
    let mut e = hi;
    while w.len() > 0 && ends_with_exec(s, lo, e, w)
        invariant
            lo <= e <= hi <= s@.len(),
            strip_end(s@, lo as int, hi as int, w@) == strip_end(s@, lo as int, e as int, w@),
        decreases e - lo,
    {
        e = e - w.len();
    }
    e
}

/// Every leading copy of `w` dropped.
pub fn strip_start_exec(s: &Vec<char>, lo: usize, hi: usize, w: &Vec<char>) -> (a: usize)
    requires
        lo <= hi <= s@.len(),
    ensures
        a == strip_start(s@, lo as int, hi as int, w@),
        lo <= a <= hi,
{
    let mut a = lo;
    while w.len() > 0 && starts_with_exec(s, a, hi, w)
        invariant
            lo <= a <= hi <= s@.len(),
            strip_start(s@, lo as int, hi as int, w@) == strip_start(s@, a as int, hi as int, w@),
        decreases hi - a,
    {
        a = a + w.len();
    }
    a
}

/// An ASCII decimal digit.
pub open spec fn is_digit(c: char) -> bool {
    '0' <= c <= '9'
}

/// End of the run of digits that starts at `i` within `[i, hi)`.
pub open spec fn digits_end(s: Seq<char>, i: int, hi: int) -> int
    decreases hi - i,
{
    if i < hi && is_digit(s[i]) {
        digits_end(s, i + 1, hi)
    } else {
        i
    }
}

/// End of the run of digits starting at `i`.
pub fn digits_end_exec(s: &Vec<char>, i: usize, hi: usize) -> (e: usize)
    requires
        i <= hi <= s@.len(),
    ensures
        e == digits_end(s@, i as int, hi as int),
        i <= e <= hi,
{
    let mut e = i;
    while e < hi && '0' <= s[e] && s[e] <= '9'
        invariant
            i <= e <= hi <= s@.len(),
            digits_end(s@, i as int, hi as int) == digits_end(s@, e as int, hi as int),
        decreases hi - e,
    {
        e = e + 1;
    }
    e
}

/// ASCII lower case.
pub open spec fn lower(c: char) -> char {
    if 'A' <= c <= 'Z' {
        ((c as u32) + 32) as char
    } else {
        c
    }
}

/// The window is `w` (given in lower case) ignoring ASCII case.
pub open spec fn is_word_nocase(s: Seq<char>, lo: int, hi: int, w: Seq<char>) -> bool {
    hi - lo == w.len() && forall|k: int| 0 <= k < w.len() ==> lower(s[lo + k]) == w[k]
}

/// What follows a mantissa, from `i` to `hi`, is empty or an exponent:
/// `e` or `E`, an optional sign, and at least one digit.
pub open spec fn exponent_ok(s: Seq<char>, i: int, hi: int) -> bool {
    i >= hi || ((s[i] == 'e' || s[i] == 'E') && {
        let j = if i + 1 < hi && (s[i + 1] == '+' || s[i + 1] == '-') {
            i + 2
        } else {
            i + 1
        };
        j < hi && digits_end(s, j, hi) == hi
    })
}

/// `[i, hi)` is a decimal number: digits, optionally a point and digits, at
/// least one digit in all, then an optional exponent.
pub open spec fn decimal_ok(s: Seq<char>, i: int, hi: int) -> bool {
    let a = digits_end(s, i, hi);
    if a < hi && s[a] == '.' {
        let b = digits_end(s, a + 1, hi);
        (a - i) + (b - (a + 1)) > 0 && exponent_ok(s, b, hi)
    } else {
        a > i && exponent_ok(s, a, hi)
    }
}

/// `[lo, hi)` is text that `f32::from_str` accepts: an optional sign, then
/// `inf`, `infinity` or `nan` in any case, or a decimal number.
pub open spec fn float_ok(s: Seq<char>, lo: int, hi: int) -> bool {
    let i = if lo < hi && (s[lo] == '+' || s[lo] == '-') {
        lo + 1
    } else {
        lo
    };
    ||| is_word_nocase(s, i, hi, seq!['i', 'n', 'f'])
    ||| is_word_nocase(s, i, hi, seq!['i', 'n', 'f', 'i', 'n', 'i', 't', 'y'])
    ||| is_word_nocase(s, i, hi, seq!['n', 'a', 'n'])
    ||| decimal_ok(s, i, hi)
}

fn lower_exec(c: char) -> (l: char)
    ensures
        l == lower(c),
{
    if 'A' <= c && c <= 'Z' {
        let u = c as u32 + 32;
        assert(('a' as u32) <= u <= ('z' as u32));
        assert(u < 0xD800);
        let l = (u as u8) as char;
        assert(l == (u as char));
        l
    } else {
        c
    }
}

fn is_word_nocase_exec(s: &Vec<char>, lo: usize, hi: usize, w: &Vec<char>) -> (b: bool)
    requires
        lo <= hi <= s@.len(),
    ensures
        b == is_word_nocase(s@, lo as int, hi as int, w@),
{
    if hi - lo != w.len() {
        return false;
    }
    let mut k: usize = 0;
    while k < w.len()
        invariant
            hi - lo == w@.len(),
            lo <= hi <= s@.len(),
            k <= w@.len(),
            forall|j: int| 0 <= j < k ==> lower(s@[lo + j]) == w@[j],
        decreases w.len() - k,
    {
        if lower_exec(s[lo + k]) != w[k] {
            return false;
        }
        k = k + 1;
    }
    true
}

fn exponent_ok_exec(s: &Vec<char>, i: usize, hi: usize) -> (b: bool)
    requires
        i <= hi <= s@.len(),
    ensures
        b == exponent_ok(s@, i as int, hi as int),
{
    if i >= hi {
        return true;
    }
    if s[i] != 'e' && s[i] != 'E' {
        return false;
    }
    let j = if i + 1 < hi && (s[i + 1] == '+' || s[i + 1] == '-') {
        i + 2
    } else {
        i + 1
    };
    j < hi && digits_end_exec(s, j, hi) == hi
}

/// Whether `f32::from_str` accepts the window (see `float_ok`).
pub fn float_ok_exec(s: &Vec<char>, lo: usize, hi: usize) -> (b: bool)
    requires
        lo <= hi <= s@.len(),
    ensures
        b == float_ok(s@, lo as int, hi as int),
{
    let i = if lo < hi && (s[lo] == '+' || s[lo] == '-') {
        lo + 1
    } else {
        lo
    };
    let inf = vec!['i', 'n', 'f'];
    let infinity = vec!['i', 'n', 'f', 'i', 'n', 'i', 't', 'y'];
    let nan = vec!['n', 'a', 'n'];
    assert(inf@ == seq!['i', 'n', 'f']);
    assert(infinity@ == seq!['i', 'n', 'f', 'i', 'n', 'i', 't', 'y']);
    assert(nan@ == seq!['n', 'a', 'n']);
    if is_word_nocase_exec(s, i, hi, &inf) || is_word_nocase_exec(s, i, hi, &infinity) || is_word_nocase_exec(
        s,
        i,
        hi,
        &nan,
    ) {
        return true;
    }
    let a = digits_end_exec(s, i, hi);
    if a < hi && s[a] == '.' {
        let b = digits_end_exec(s, a + 1, hi);
        (a - i) + (b - (a + 1)) > 0 && exponent_ok_exec(s, b, hi)
    } else {
        a > i && exponent_ok_exec(s, a, hi)
    }
}

/// Whether the window is exactly the literal `lit`.
pub fn window_is(s: &Vec<char>, lo: usize, hi: usize, lit: &str) -> (b: bool)
    requires
        lo <= hi <= s@.len(),
    ensures
        b == is_word(s@, lo as int, hi as int, lit@),
{
    let w = chars_of(lit);
    is_word_exec(s, lo, hi, &w)
}

/// Whether the window ends with the literal `lit`.
pub fn window_ends(s: &Vec<char>, lo: usize, hi: usize, lit: &str) -> (b: bool)
    requires
        lo <= hi <= s@.len(),
    ensures
        b == ends_with(s@, lo as int, hi as int, lit@),
{
    let w = chars_of(lit);
    ends_with_exec(s, lo, hi, &w)
}

/// Decimal value of the digits in `[lo, hi)`.
pub open spec fn digits_value(s: Seq<char>, lo: int, hi: int) -> int
    decreases hi - lo,
{
    if hi <= lo {
        0
    } else {
        digits_value(s, lo, hi - 1) * 10 + ((s[hi - 1] as u32) - ('0' as u32))
    }
}

/// The integer that `FromStr` reads from `[lo, hi)`: an optional `+` (or
/// `-` when `signed`), then one or more digits; range aside.
pub open spec fn int_value(s: Seq<char>, lo: int, hi: int, signed: bool) -> Option<int> {
    let neg = signed && lo < hi && s[lo] == '-';
    let i = if lo < hi && (s[lo] == '+' || neg) {
        lo + 1
    } else {
        lo
    };
    if i < hi && digits_end(s, i, hi) == hi {
        Some(if neg {
            -digits_value(s, i, hi)
        } else {
            digits_value(s, i, hi)
        })
    } else {
        None
    }
}

/// `FromStr` for an integer type with range `[min, max]`.
pub open spec fn parsed_int(s: Seq<char>, lo: int, hi: int, signed: bool, min: int, max: int) -> Option<int> {
    match int_value(s, lo, hi, signed) {
        Some(v) => if min <= v <= max {
            Some(v)
        } else {
            None
        },
        None => None,
    }
}

proof fn lemma_digits_value_nonneg(s: Seq<char>, lo: int, hi: int)
    requires
        forall|j: int| lo <= j < hi ==> is_digit(#[trigger] s[j]),
    ensures
        0 <= digits_value(s, lo, hi),
    decreases hi - lo,
{
    if lo < hi {
        lemma_digits_value_nonneg(s, lo, hi - 1);
    }
}

proof fn lemma_digits_value_grows(s: Seq<char>, lo: int, k: int, hi: int)
    requires
        lo <= k <= hi,
        forall|j: int| lo <= j < hi ==> is_digit(#[trigger] s[j]),
    ensures
        0 <= digits_value(s, lo, k) <= digits_value(s, lo, hi),
    decreases hi - k,
{
    lemma_digits_value_nonneg(s, lo, k);
    if k < hi {
        lemma_digits_value_grows(s, lo, k, hi - 1);
        lemma_digits_value_nonneg(s, lo, hi - 1);
        assert(is_digit(s[hi - 1]));
    }
}

proof fn lemma_digits_end_all(s: Seq<char>, i: int, hi: int)
    requires
        i <= hi,
        digits_end(s, i, hi) == hi,
    ensures
        forall|j: int| i <= j < hi ==> is_digit(#[trigger] s[j]),
    decreases hi - i,
{
    if i < hi {
        lemma_digits_end_all(s, i + 1, hi);
    }
}

/// The integer that `FromStr` reads from the window, for a type with range
/// `[min, max]` inside `(-2^40, 2^40)`; `None` when it is not an integer or
/// out of range.
pub fn parse_int(s: &Vec<char>, lo: usize, hi: usize, signed: bool, min: i64, max: i64) -> (r: Option<i64>)
    requires
        lo <= hi <= s@.len(),
        -0x100_0000_0000 < min <= max < 0x100_0000_0000,
    ensures
        r == (match parsed_int(s@, lo as int, hi as int, signed, min as int, max as int) {
            Some(v) => Some(v as i64),
            None => None::<i64>,
        }),
{
    let neg = signed && lo < hi && s[lo] == '-';
    let i = if lo < hi && (s[lo] == '+' || neg) {
        lo + 1
    } else {
        lo
    };
    if !(i < hi && digits_end_exec(s, i, hi) == hi) {
        return None;
    }
    proof {
        lemma_digits_end_all(s@, i as int, hi as int);
    }
    let mut acc: u64 = 0;
    let mut k: usize = i;
    while k < hi
        invariant
            i <= k <= hi <= s@.len(),
            lo <= i < hi,
            neg == (signed && lo < hi && s@[lo as int] == '-'),
            i == (if lo < hi && (s@[lo as int] == '+' || neg) { lo + 1 } else { lo as int }),
            digits_end(s@, i as int, hi as int) == hi,
            -0x100_0000_0000 < min <= max < 0x100_0000_0000,
            forall|j: int| i <= j < hi ==> is_digit(#[trigger] s@[j]),
            acc == digits_value(s@, i as int, k as int),
            acc <= 0x100_0000_0000,
        decreases hi - k,
    {
        let d = (s[k] as u32 - '0' as u32) as u64;
        assert(is_digit(s@[k as int]));
        acc = acc * 10 + d;
        k = k + 1;
        assert(acc == digits_value(s@, i as int, k as int));
        if acc > 0x100_0000_0000 {
            proof {
                lemma_digits_value_grows(s@, i as int, k as int, hi as int);
                assert(digits_value(s@, i as int, hi as int) > 0x100_0000_0000);
                assert(int_value(s@, lo as int, hi as int, signed) == Some(if neg {
                    -digits_value(s@, i as int, hi as int)
                } else {
                    digits_value(s@, i as int, hi as int)
                }));
                assert(parsed_int(s@, lo as int, hi as int, signed, min as int, max as int) is None);
            }
            return None;
        }
    }
    let v: i64 = if neg {
        -(acc as i64)
    } else {
        acc as i64
    };
    if min <= v && v <= max {
        Some(v)
    } else {
        None
    }
}

/// Unit of a length.
#[derive(Debug, Clone, Copy, PartialEq, Eq, Structural)]
pub enum LengthUnit {
    /// `px`: the number as it stands.
    Px,
    /// `rem`: 16 times the number.
    Rem,
    /// `em`: 16 times the number.
    Em,
    /// No unit: the number as it stands.
    Bare,
}

/// A length: the window holding its number (text that `f32::from_str`
/// accepts) and its unit.
#[derive(Debug, Clone, Copy, PartialEq, Eq, Structural)]
pub struct LengthText {
    pub number: TextRange,
    pub unit: LengthUnit,
}

/// The window as a `TextRange`.
pub open spec fn range(lo: int, hi: int) -> TextRange {
    TextRange { start: lo as usize, end: hi as usize }
}

/// A length read from `[lo, hi)`: the value trimmed, then a `px`, `rem` or
/// `em` suffix taken off (every trailing copy of it), and the rest must be a
/// number.
pub open spec fn length_of(s: Seq<char>, lo: int, hi: int) -> Option<LengthText> {
    let (a, b) = trimmed(s, lo, hi);
    let (e, unit) = if ends_with(s, a, b, "px"@) {
        (strip_end(s, a, b, "px"@), LengthUnit::Px)
    } else if ends_with(s, a, b, "rem"@) {
        (strip_end(s, a, b, "rem"@), LengthUnit::Rem)
    } else if ends_with(s, a, b, "em"@) {
        (strip_end(s, a, b, "em"@), LengthUnit::Em)
    } else {
        (b, LengthUnit::Bare)
    };
    if float_ok(s, a, e) {
        Some(LengthText { number: range(a, e), unit })
    } else {
        None
    }
}

/// Reads a length from the window (see `length_of`).
pub fn parse_length(s: &Vec<char>, lo: usize, hi: usize) -> (r: Option<LengthText>)
    requires
        lo <= hi <= s@.len(),
    ensures
        r == length_of(s@, lo as int, hi as int),
{
    let (a, b) = trim_window(s, lo, hi);
    let (e, unit) = if window_ends(s, a, b, "px") {
        (strip_end_exec(s, a, b, &chars_of("px")), LengthUnit::Px)
    } else if window_ends(s, a, b, "rem") {
        (strip_end_exec(s, a, b, &chars_of("rem")), LengthUnit::Rem)
    } else if window_ends(s, a, b, "em") {
        (strip_end_exec(s, a, b, &chars_of("em")), LengthUnit::Em)
    } else {
        (b, LengthUnit::Bare)
    };
    if float_ok_exec(s, a, e) {
        Some(LengthText { number: TextRange { start: a, end: e }, unit })
    } else {
        None
    }
}

/// A size: `auto`, a percentage (the window of its number; the size is a
/// hundredth of it), or a length.
#[derive(Debug, Clone, Copy, PartialEq, Eq, Structural)]
pub enum SizeSpec {
    Auto,
    Percent(TextRange),
    Length(LengthText),
}

/// A size read from `[lo, hi)` as it stands: `auto`; a number followed by
/// `%` (every trailing `%` taken off); else a length; else `auto`.
pub open spec fn size_of(s: Seq<char>, lo: int, hi: int) -> SizeSpec {
    if is_word(s, lo, hi, "auto"@) {
        SizeSpec::Auto
    } else if ends_with(s, lo, hi, "%"@) && float_ok(s, lo, strip_end(s, lo, hi, "%"@)) {
        SizeSpec::Percent(range(lo, strip_end(s, lo, hi, "%"@)))
    } else {
        match length_of(s, lo, hi) {
            Some(l) => SizeSpec::Length(l),
            None => SizeSpec::Auto,
        }
    }
}

/// Reads a width or height from the window (see `size_of`).
pub fn parse_dimension(s: &Vec<char>, lo: usize, hi: usize) -> (r: SizeSpec)
    requires
        lo <= hi <= s@.len(),
    ensures
        r == size_of(s@, lo as int, hi as int),
{
    if window_is(s, lo, hi, "auto") {
        return SizeSpec::Auto;
    }
    if window_ends(s, lo, hi, "%") {
        let e = strip_end_exec(s, lo, hi, &chars_of("%"));
        if float_ok_exec(s, lo, e) {
            return SizeSpec::Percent(TextRange { start: lo, end: e });
        }
    }
    match parse_length(s, lo, hi) {
        Some(l) => SizeSpec::Length(l),
        None => SizeSpec::Auto,
    }
}

/// An inset read from `[lo, hi)`: the value trimmed, then read as a size.
pub open spec fn inset_of(s: Seq<char>, lo: int, hi: int) -> SizeSpec {
    let (a, b) = trimmed(s, lo, hi);
    size_of(s, a, b)
}

/// Reads a `top`, `right`, `bottom` or `left` inset (see `inset_of`).
pub fn parse_length_percentage_auto(s: &Vec<char>, lo: usize, hi: usize) -> (r: SizeSpec)
    requires
        lo <= hi <= s@.len(),
    ensures
        r == inset_of(s@, lo as int, hi as int),
{
    let (a, b) = trim_window(s, lo, hi);
    parse_dimension(s, a, b)
}

/// One grid track size: `auto`, a flexible fraction (the window of its
/// number), or a length.
#[derive(Debug, Clone, Copy, PartialEq, Eq, Structural)]
pub enum TrackSpec {
    Auto,
    Flex(TextRange),
    Length(LengthText),
}

/// A track size read from `[lo, hi)`: trimmed; `auto`; a number followed by
/// `fr` (every trailing `fr` taken off); a length; else nothing.
pub open spec fn track_of(s: Seq<char>, lo: int, hi: int) -> Option<TrackSpec> {
    let (a, b) = trimmed(s, lo, hi);
    if is_word(s, a, b, "auto"@) {
        Some(TrackSpec::Auto)
    } else if ends_with(s, a, b, "fr"@) && float_ok(s, a, strip_end(s, a, b, "fr"@)) {
        Some(TrackSpec::Flex(range(a, strip_end(s, a, b, "fr"@))))
    } else {
        match length_of(s, a, b) {
            Some(l) => Some(TrackSpec::Length(l)),
            None => None,
        }
    }
}

/// Reads one track size (see `track_of`).
pub fn parse_track_sizing(s: &Vec<char>, lo: usize, hi: usize) -> (r: Option<TrackSpec>)
    requires
        lo <= hi <= s@.len(),
    ensures
        r == track_of(s@, lo as int, hi as int),
{
    let (a, b) = trim_window(s, lo, hi);
    if window_is(s, a, b, "auto") {
        return Some(TrackSpec::Auto);
    }
    if window_ends(s, a, b, "fr") {
        let e = strip_end_exec(s, a, b, &chars_of("fr"));
        if float_ok_exec(s, a, e) {
            return Some(TrackSpec::Flex(TextRange { start: a, end: e }));
        }
    }
    match parse_length(s, a, b) {
        Some(l) => Some(TrackSpec::Length(l)),
        None => None,
    }
}

/// End of the word that starts at `i`: the first white space at or after
/// `i` within `[i, hi)`, else `hi`.
pub open spec fn word_end(s: Seq<char>, i: int, hi: int) -> int
    decreases hi - i,
{
    if i < hi && !is_ws(s[i]) {
        word_end(s, i + 1, hi)
    } else {
        i
    }
}

/// The track sizes of the white-space separated words of `[i, hi)`, in
/// order, leaving out words that are no track size.
pub open spec fn tracks_from(s: Seq<char>, i: int, hi: int) -> Seq<TrackSpec>
    decreases hi - i,
{
    let a = skip_ws(s, i, hi);
    if a >= hi || a < i {
        Seq::empty()
    } else {
        let b = word_end(s, a, hi);
        if b <= a || b > hi {
            Seq::empty()
        } else {
            let rest = tracks_from(s, b, hi);
            match track_of(s, a, b) {
                Some(t) => seq![t] + rest,
                None => rest,
            }
        }
    }
}

proof fn lemma_skip_ws_bounds(s: Seq<char>, lo: int, hi: int)
    requires
        lo <= hi,
    ensures
        lo <= skip_ws(s, lo, hi) <= hi,
        skip_ws(s, lo, hi) < hi ==> !is_ws(s[skip_ws(s, lo, hi)]),
    decreases hi - lo,
{
    if lo < hi && is_ws(s[lo]) {
        lemma_skip_ws_bounds(s, lo + 1, hi);
    }
}

fn word_end_exec(s: &Vec<char>, i: usize, hi: usize) -> (e: usize)
    requires
        i <= hi <= s@.len(),
    ensures
        e == word_end(s@, i as int, hi as int),
        i <= e <= hi,
        i < hi && !is_ws(s@[i as int]) ==> e > i,
{
    let mut e = i;
    while e < hi && !whitespace(s[e])
        invariant
            i <= e <= hi <= s@.len(),
            word_end(s@, i as int, hi as int) == word_end(s@, e as int, hi as int),
        decreases hi - e,
    {
        e = e + 1;
    }
    e
}

/// Reads a grid template: the track sizes of the white-space separated
/// words of the window (see `tracks_from`).
pub fn parse_track_list(s: &Vec<char>, lo: usize, hi: usize) -> (r: Vec<TrackSpec>)
    requires
        lo <= hi <= s@.len(),
    ensures
        r@ == tracks_from(s@, lo as int, hi as int),
{
    let mut out: Vec<TrackSpec> = Vec::new();
    let mut i = lo;
    while i < hi
        invariant
            lo <= i <= hi <= s@.len(),
            out@ + tracks_from(s@, i as int, hi as int) == tracks_from(s@, lo as int, hi as int),
        decreases hi - i,
    {
        let a = skip_ws_exec(s, i, hi);
        proof {
            lemma_skip_ws_bounds(s@, i as int, hi as int);
        }
        if a >= hi {
            assert(tracks_from(s@, i as int, hi as int) == Seq::<TrackSpec>::empty());
            assert(out@ + Seq::<TrackSpec>::empty() == out@);
            i = hi;
        } else {
            let b = word_end_exec(s, a, hi);
            assert(b > a);
            let ghost rest = tracks_from(s@, b as int, hi as int);
            match parse_track_sizing(s, a, b) {
                Some(t) => {
                    let ghost o0 = out@;
                    out.push(t);
                    assert(o0 + (seq![t] + rest) == out@ + rest);
                },
                None => {},
            }
            i = b;
        }
    }
    assert(tracks_from(s@, i as int, hi as int) == Seq::<TrackSpec>::empty());
    assert(out@ + Seq::<TrackSpec>::empty() == out@);
    out
}

/// Where a grid item starts or ends.
#[derive(Debug, Clone, Copy, PartialEq, Eq, Structural)]
pub enum PlacementSpec {
    Auto,
    /// Spans this many tracks.
    Span(u16),
    /// At this line (negative lines count from the end).
    Line(i16),
}

/// A placement read from `[lo, hi)`: trimmed; `auto`; `span` (every leading
/// copy taken off) followed by a `u16`; an `i16` line; else `auto`.
pub open spec fn placement_of(s: Seq<char>, lo: int, hi: int) -> PlacementSpec {
    let (a, b) = trimmed(s, lo, hi);
    let c = strip_start(s, a, b, "span"@);
    let (c2, d2) = trimmed(s, c, b);
    if is_word(s, a, b, "auto"@) {
        PlacementSpec::Auto
    } else if starts_with(s, a, b, "span"@) && parsed_int(s, c2, d2, false, 0, 0xffff) is Some {
        PlacementSpec::Span(parsed_int(s, c2, d2, false, 0, 0xffff)->0 as u16)
    } else if parsed_int(s, a, b, true, -0x8000, 0x7fff) is Some {
        PlacementSpec::Line(parsed_int(s, a, b, true, -0x8000, 0x7fff)->0 as i16)
    } else {
        PlacementSpec::Auto
    }
}

/// Reads a grid placement (see `placement_of`).
pub fn parse_grid_placement(s: &Vec<char>, lo: usize, hi: usize) -> (r: PlacementSpec)
    requires
        lo <= hi <= s@.len(),
    ensures
        r == placement_of(s@, lo as int, hi as int),
{
    let (a, b) = trim_window(s, lo, hi);
    if window_is(s, a, b, "auto") {
        return PlacementSpec::Auto;
    }
    let span = chars_of("span");
    if starts_with_exec(s, a, b, &span) {
        let c = strip_start_exec(s, a, b, &span);
        let (c2, d2) = trim_window(s, c, b);
        match parse_int(s, c2, d2, false, 0, 0xffff) {
            Some(n) => {
                return PlacementSpec::Span(n as u16);
            },
            None => {},
        }
    }
    match parse_int(s, a, b, true, -0x8000, 0x7fff) {
        Some(n) => PlacementSpec::Line(n as i16),
        None => PlacementSpec::Auto,
    }
}

/// First `/` in `[i, hi)`, else `hi`.
pub open spec fn slash_at(s: Seq<char>, i: int, hi: int) -> int
    decreases hi - i,
{
    if i < hi && s[i] != '/' {
        slash_at(s, i + 1, hi)
    } else {
        i
    }
}

fn slash_at_exec(s: &Vec<char>, i: usize, hi: usize) -> (e: usize)
    requires
        i <= hi <= s@.len(),
    ensures
        e == slash_at(s@, i as int, hi as int),
        i <= e <= hi,
{
    let mut e = i;
    while e < hi && s[e] != '/'
        invariant
            i <= e <= hi <= s@.len(),
            slash_at(s@, i as int, hi as int) == slash_at(s@, e as int, hi as int),
        decreases hi - e,
    {
        e = e + 1;
    }
    e
}

/// A grid line pair read from `[lo, hi)`: the start from the text before
/// the first `/`, the end from the text between it and the next `/` (or
/// `auto` when there is no `/`).
pub open spec fn grid_line_of(s: Seq<char>, lo: int, hi: int) -> (PlacementSpec, PlacementSpec) {
    let p = slash_at(s, lo, hi);
    (
        placement_of(s, lo, p),
        if p < hi {
            placement_of(s, p + 1, slash_at(s, p + 1, hi))
        } else {
            PlacementSpec::Auto
        },
    )
}

proof fn lemma_slash_bounds(s: Seq<char>, i: int, hi: int)
    requires
        i <= hi,
    ensures
        i <= slash_at(s, i, hi) <= hi,
    decreases hi - i,
{
    if i < hi && s[i] != '/' {
        lemma_slash_bounds(s, i + 1, hi);
    }
}

/// Reads `grid-column` or `grid-row` (see `grid_line_of`).
pub fn parse_grid_line(s: &Vec<char>, lo: usize, hi: usize) -> (r: (PlacementSpec, PlacementSpec))
    requires
        lo <= hi <= s@.len(),
    ensures
        r == grid_line_of(s@, lo as int, hi as int),
{
    let p = slash_at_exec(s, lo, hi);
    let start = parse_grid_placement(s, lo, p);
    if p < hi {
        let q = slash_at_exec(s, p + 1, hi);
        (start, parse_grid_placement(s, p + 1, q))
    } else {
        (start, PlacementSpec::Auto)
    }
}

/// The value of a hexadecimal digit.
pub open spec fn hex_value(c: char) -> Option<int> {
    if '0' <= c <= '9' {
        Some((c as u32) - ('0' as u32))
    } else if 'a' <= c <= 'f' {
        Some((c as u32) - ('a' as u32) + 10)
    } else if 'A' <= c <= 'F' {
        Some((c as u32) - ('A' as u32) + 10)
    } else {
        None
    }
}

/// `u8::from_str_radix(.., 16)` on two characters: two hexadecimal digits,
/// or `+` and one digit.
pub open spec fn hex_pair(c1: char, c2: char) -> Option<u8> {
    match (hex_value(c1), hex_value(c2)) {
        (Some(h), Some(l)) => Some((h * 16 + l) as u8),
        (None, Some(l)) => if c1 == '+' {
            Some(l as u8)
        } else {
            None
        },
        _ => None,
    }
}

fn hex_value_exec(c: char) -> (r: Option<u8>)
    ensures
        r == (match hex_value(c) {
            Some(v) => Some(v as u8),
            None => None::<u8>,
        }),
        r matches Some(v) ==> v < 16,
{
    if '0' <= c && c <= '9' {
        Some((c as u32 - '0' as u32) as u8)
    } else if 'a' <= c && c <= 'f' {
        Some((c as u32 - 'a' as u32 + 10) as u8)
    } else if 'A' <= c && c <= 'F' {
        Some((c as u32 - 'A' as u32 + 10) as u8)
    } else {
        None
    }
}

fn hex_pair_exec(c1: char, c2: char) -> (r: Option<u8>)
    ensures
        r == hex_pair(c1, c2),
{
    match (hex_value_exec(c1), hex_value_exec(c2)) {
        (Some(h), Some(l)) => Some(h * 16 + l),
        (None, Some(l)) => if c1 == '+' {
            Some(l)
        } else {
            None
        },
        _ => None,
    }
}

/// A colour: red, green and blue from a `#rrggbb` value (opaque), or a
/// named colour.
#[derive(Debug, Clone, Copy, PartialEq, Eq, Structural)]
pub enum ColorSpec {
    Rgb { r: u8, g: u8, b: u8 },
    /// Fully transparent black.
    Transparent,
    White,
    Black,
    Red,
    /// Green at half intensity, as in CSS.
    Green,
    Blue,
}

/// A colour read from `[lo, hi)`: trimmed; `#` and six hexadecimal
/// characters read in pairs (a pair may also be `+` and one digit); or one
/// of the names `transparent`, `white`, `black`, `red`, `green`, `blue`.
pub open spec fn color_of(s: Seq<char>, lo: int, hi: int) -> Option<ColorSpec> {
    let (a, b) = trimmed(s, lo, hi);
    if a < b && s[a] == '#' {
        if b - a == 7 && hex_pair(s[a + 1], s[a + 2]) is Some && hex_pair(s[a + 3], s[a + 4]) is Some && hex_pair(
            s[a + 5],
            s[a + 6],
        ) is Some {
            Some(
                ColorSpec::Rgb {
                    r: hex_pair(s[a + 1], s[a + 2])->0,
                    g: hex_pair(s[a + 3], s[a + 4])->0,
                    b: hex_pair(s[a + 5], s[a + 6])->0,
                },
            )
        } else {
            None
        }
    } else if is_word(s, a, b, "transparent"@) {
        Some(ColorSpec::Transparent)
    } else if is_word(s, a, b, "white"@) {
        Some(ColorSpec::White)
    } else if is_word(s, a, b, "black"@) {
        Some(ColorSpec::Black)
    } else if is_word(s, a, b, "red"@) {
        Some(ColorSpec::Red)
    } else if is_word(s, a, b, "green"@) {
        Some(ColorSpec::Green)
    } else if is_word(s, a, b, "blue"@) {
        Some(ColorSpec::Blue)
    } else {
        None
    }
}

/// A UTF-8 continuation byte.
pub open spec fn is_continuation(x: u8) -> bool {
    0x80 <= x < 0xc0
}

/// The bytes pass `u8::from_str_radix(.., 16)` as a pair.
pub open spec fn hex_pair_bytes_ok(x: u8, y: u8) -> bool {
    &&& x < 0x80 && y < 0x80
    &&& hex_pair(x as char, y as char) is Some
}

/// Reading the trimmed colour value `t` as `#rrggbb` cuts it after its
/// third and (once the first pair is read) its fifth byte; a cut inside a
/// character is a slicing panic.
pub open spec fn color_cut_panics(t: Seq<char>) -> bool {
    let b = vstd::utf8::encode_utf8(t);
    &&& b.len() == 7
    &&& b[0] == 0x23
    &&& (is_continuation(b[3]) || (hex_pair_bytes_ok(b[1], b[2]) && is_continuation(b[5])))
}

/// Reading `[lo, hi)` as a colour cuts a character apart.
pub open spec fn color_panics(s: Seq<char>, lo: int, hi: int) -> bool {
    let (a, b) = trimmed(s, lo, hi);
    color_cut_panics(s.subrange(a, b))
}

/// Reads a colour (see `color_of`).  Values whose `#rrggbb` reading would
/// cut a character apart are left out.
pub fn parse_color(s: &Vec<char>, lo: usize, hi: usize) -> (r: Option<ColorSpec>)
    requires
        lo <= hi <= s@.len(),
        !color_panics(s@, lo as int, hi as int),
    ensures
        r == color_of(s@, lo as int, hi as int),
{
    let (a, b) = trim_window(s, lo, hi);
    if a < b && s[a] == '#' {
        if b - a == 7 {
            let r = hex_pair_exec(s[a + 1], s[a + 2]);
            let g = hex_pair_exec(s[a + 3], s[a + 4]);
            let bl = hex_pair_exec(s[a + 5], s[a + 6]);
            match (r, g, bl) {
                (Some(r), Some(g), Some(bl)) => Some(ColorSpec::Rgb { r, g, b: bl }),
                _ => None,
            }
        } else {
            None
        }
    } else if window_is(s, a, b, "transparent") {
        Some(ColorSpec::Transparent)
    } else if window_is(s, a, b, "white") {
        Some(ColorSpec::White)
    } else if window_is(s, a, b, "black") {
        Some(ColorSpec::Black)
    } else if window_is(s, a, b, "red") {
        Some(ColorSpec::Red)
    } else if window_is(s, a, b, "green") {
        Some(ColorSpec::Green)
    } else if window_is(s, a, b, "blue") {
        Some(ColorSpec::Blue)
    } else {
        None
    }
}

/// The `display` values.
#[derive(Debug, Clone, Copy, PartialEq, Eq, Structural)]
pub enum DisplayKind {
    Flex,
    Grid,
    Hidden,
}

/// The `flex-direction` values.
#[derive(Debug, Clone, Copy, PartialEq, Eq, Structural)]
pub enum DirectionKind {
    Row,
    RowReverse,
    Column,
    ColumnReverse,
}

/// The `justify-content` values.
#[derive(Debug, Clone, Copy, PartialEq, Eq, Structural)]
pub enum JustifyKind {
    FlexStart,
    FlexEnd,
    Center,
    SpaceBetween,
    SpaceAround,
    SpaceEvenly,
}

/// The `align-items` values.
#[derive(Debug, Clone, Copy, PartialEq, Eq, Structural)]
pub enum AlignKind {
    FlexStart,
    FlexEnd,
    Center,
    Stretch,
    Baseline,
}

/// CSS positioning: the `position` values.
#[derive(Debug, Clone, Copy, PartialEq, Eq, Structural)]
pub enum Position {
    Relative,
    Absolute,
    Fixed,
}

impl Default for Position {
    fn default() -> (p: Position)
        ensures
            p == Position::Relative,
    {
        Position::Relative
    }
}

/// Overflow behaviour of a container: the `overflow` values.
#[derive(Debug, Clone, Copy, PartialEq, Eq, Structural)]
pub enum Overflow {
    Visible,
    Hidden,
    Scroll,
}

impl Default for Overflow {
    fn default() -> (o: Overflow)
        ensures
            o == Overflow::Visible,
    {
        Overflow::Visible
    }
}

/// A side of a box.
#[derive(Debug, Clone, Copy, PartialEq, Eq, Structural)]
pub enum Side {
    Top,
    Right,
    Bottom,
    Left,
}

/// `display`: `flex`, `grid`, `none`; anything else is `flex`.
pub open spec fn display_of(s: Seq<char>, lo: int, hi: int) -> DisplayKind {
    if is_word(s, lo, hi, "grid"@) {
        DisplayKind::Grid
    } else if is_word(s, lo, hi, "none"@) {
        DisplayKind::Hidden
    } else {
        DisplayKind::Flex
    }
}

/// `flex-direction`: anything unknown is `row`.
pub open spec fn direction_of(s: Seq<char>, lo: int, hi: int) -> DirectionKind {
    if is_word(s, lo, hi, "row-reverse"@) {
        DirectionKind::RowReverse
    } else if is_word(s, lo, hi, "column"@) {
        DirectionKind::Column
    } else if is_word(s, lo, hi, "column-reverse"@) {
        DirectionKind::ColumnReverse
    } else {
        DirectionKind::Row
    }
}

/// `justify-content`: `start` means `flex-start` and `end` `flex-end`;
/// anything unknown is `flex-start`.
pub open spec fn justify_of(s: Seq<char>, lo: int, hi: int) -> JustifyKind {
    if is_word(s, lo, hi, "flex-end"@) || is_word(s, lo, hi, "end"@) {
        JustifyKind::FlexEnd
    } else if is_word(s, lo, hi, "center"@) {
        JustifyKind::Center
    } else if is_word(s, lo, hi, "space-between"@) {
        JustifyKind::SpaceBetween
    } else if is_word(s, lo, hi, "space-around"@) {
        JustifyKind::SpaceAround
    } else if is_word(s, lo, hi, "space-evenly"@) {
        JustifyKind::SpaceEvenly
    } else {
        JustifyKind::FlexStart
    }
}

/// `align-items`: `start` means `flex-start` and `end` `flex-end`; anything
/// unknown is `stretch`.
pub open spec fn align_of(s: Seq<char>, lo: int, hi: int) -> AlignKind {
    if is_word(s, lo, hi, "flex-start"@) || is_word(s, lo, hi, "start"@) {
        AlignKind::FlexStart
    } else if is_word(s, lo, hi, "flex-end"@) || is_word(s, lo, hi, "end"@) {
        AlignKind::FlexEnd
    } else if is_word(s, lo, hi, "center"@) {
        AlignKind::Center
    } else if is_word(s, lo, hi, "baseline"@) {
        AlignKind::Baseline
    } else {
        AlignKind::Stretch
    }
}

/// `position`: anything unknown is `relative`.
pub open spec fn position_of(s: Seq<char>, lo: int, hi: int) -> Position {
    if is_word(s, lo, hi, "absolute"@) {
        Position::Absolute
    } else if is_word(s, lo, hi, "fixed"@) {
        Position::Fixed
    } else {
        Position::Relative
    }
}

/// `overflow`: `auto` scrolls; anything unknown is `visible`.
pub open spec fn overflow_of(s: Seq<char>, lo: int, hi: int) -> Overflow {
    if is_word(s, lo, hi, "hidden"@) {
        Overflow::Hidden
    } else if is_word(s, lo, hi, "scroll"@) || is_word(s, lo, hi, "auto"@) {
        Overflow::Scroll
    } else {
        Overflow::Visible
    }
}

fn display_exec(s: &Vec<char>) -> (k: DisplayKind)
    ensures
        k == display_of(s@, 0, s@.len() as int),
{
    let n = s.len();
    if window_is(s, 0, n, "grid") {
        DisplayKind::Grid
    } else if window_is(s, 0, n, "none") {
        DisplayKind::Hidden
    } else {
        DisplayKind::Flex
    }
}

fn direction_exec(s: &Vec<char>) -> (k: DirectionKind)
    ensures
        k == direction_of(s@, 0, s@.len() as int),
{
    let n = s.len();
    if window_is(s, 0, n, "row-reverse") {
        DirectionKind::RowReverse
    } else if window_is(s, 0, n, "column") {
        DirectionKind::Column
    } else if window_is(s, 0, n, "column-reverse") {
        DirectionKind::ColumnReverse
    } else {
        DirectionKind::Row
    }
}

fn justify_exec(s: &Vec<char>) -> (k: JustifyKind)
    ensures
        k == justify_of(s@, 0, s@.len() as int),
{
    let n = s.len();
    if window_is(s, 0, n, "flex-end") || window_is(s, 0, n, "end") {
        JustifyKind::FlexEnd
    } else if window_is(s, 0, n, "center") {
        JustifyKind::Center
    } else if window_is(s, 0, n, "space-between") {
        JustifyKind::SpaceBetween
    } else if window_is(s, 0, n, "space-around") {
        JustifyKind::SpaceAround
    } else if window_is(s, 0, n, "space-evenly") {
        JustifyKind::SpaceEvenly
    } else {
        JustifyKind::FlexStart
    }
}

fn align_exec(s: &Vec<char>) -> (k: AlignKind)
    ensures
        k == align_of(s@, 0, s@.len() as int),
{
    let n = s.len();
    if window_is(s, 0, n, "flex-start") || window_is(s, 0, n, "start") {
        AlignKind::FlexStart
    } else if window_is(s, 0, n, "flex-end") || window_is(s, 0, n, "end") {
        AlignKind::FlexEnd
    } else if window_is(s, 0, n, "center") {
        AlignKind::Center
    } else if window_is(s, 0, n, "baseline") {
        AlignKind::Baseline
    } else {
        AlignKind::Stretch
    }
}

fn position_exec(s: &Vec<char>) -> (k: Position)
    ensures
        k == position_of(s@, 0, s@.len() as int),
{
    let n = s.len();
    if window_is(s, 0, n, "absolute") {
        Position::Absolute
    } else if window_is(s, 0, n, "fixed") {
        Position::Fixed
    } else {
        Position::Relative
    }
}

fn overflow_exec(s: &Vec<char>) -> (k: Overflow)
    ensures
        k == overflow_of(s@, 0, s@.len() as int),
{
    let n = s.len();
    if window_is(s, 0, n, "hidden") {
        Overflow::Hidden
    } else if window_is(s, 0, n, "scroll") || window_is(s, 0, n, "auto") {
        Overflow::Scroll
    } else {
        Overflow::Visible
    }
}

/// The change that setting one style property makes.  Numbers the host
/// reads as floating-point values are given as windows of the value.
#[derive(Debug, Clone, Copy, PartialEq, Eq, Structural)]
pub enum StyleUpdate {
    Display(DisplayKind),
    FlexDirection(DirectionKind),
    JustifyContent(JustifyKind),
    AlignItems(AlignKind),
    Width(SizeSpec),
    Height(SizeSpec),
    MinWidth(SizeSpec),
    MinHeight(SizeSpec),
    MaxWidth(SizeSpec),
    MaxHeight(SizeSpec),
    /// `None` clears the background.
    BackgroundColor(Option<ColorSpec>),
    /// `None` clears the text colour.
    TextColor(Option<ColorSpec>),
    /// `None` means the default of 16.
    FontSize(Option<LengthText>),
    /// The whole value when it is a number; `None` means 1.
    Opacity(Option<TextRange>),
    /// `None` means 0.
    BorderRadius(Option<LengthText>),
    /// `None` means 0.
    BorderWidth(Option<LengthText>),
    /// The same margin on all four sides.
    Margin(LengthText),
    /// The same padding on all four sides.
    Padding(LengthText),
    /// The same gap between rows and between columns.
    Gap(LengthText),
    Position(Position),
    Inset(Side, SizeSpec),
    /// Columns from `parse_track_list` on the whole value.
    GridTemplateColumns,
    /// Rows from `parse_track_list` on the whole value.
    GridTemplateRows,
    GridColumn(PlacementSpec, PlacementSpec),
    GridRow(PlacementSpec, PlacementSpec),
    Overflow(Overflow),
    ZIndex(i32),
    /// The whole value when it is a number; `None` means 0.
    FlexGrow(Option<TextRange>),
    /// The whole value when it is a number; `None` means 1.
    FlexShrink(Option<TextRange>),
    /// Unknown property, or a margin, padding or gap that is no length.
    Unchanged,
}

/// The whole value when `f32::from_str` accepts it.
pub open spec fn number_of(v: Seq<char>) -> Option<TextRange> {
    if float_ok(v, 0, v.len() as int) {
        Some(range(0, v.len() as int))
    } else {
        None
    }
}

/// A property read as a colour property.
pub open spec fn is_color_property(p: Seq<char>) -> bool {
    p == "background-color"@ || p == "background"@ || p == "color"@
}

/// The change that setting property `p` to `v` makes.
pub open spec fn update_of(p: Seq<char>, v: Seq<char>) -> StyleUpdate {
    let n = v.len() as int;
    if p == "display"@ {
        StyleUpdate::Display(display_of(v, 0, n))
    } else if p == "flex-direction"@ {
        StyleUpdate::FlexDirection(direction_of(v, 0, n))
    } else if p == "justify-content"@ {
        StyleUpdate::JustifyContent(justify_of(v, 0, n))
    } else if p == "align-items"@ {
        StyleUpdate::AlignItems(align_of(v, 0, n))
    } else if p == "width"@ {
        StyleUpdate::Width(size_of(v, 0, n))
    } else if p == "height"@ {
        StyleUpdate::Height(size_of(v, 0, n))
    } else if p == "background-color"@ || p == "background"@ {
        StyleUpdate::BackgroundColor(color_of(v, 0, n))
    } else if p == "color"@ {
        StyleUpdate::TextColor(color_of(v, 0, n))
    } else if p == "font-size"@ {
        StyleUpdate::FontSize(length_of(v, 0, n))
    } else if p == "opacity"@ {
        StyleUpdate::Opacity(number_of(v))
    } else if p == "border-radius"@ {
        StyleUpdate::BorderRadius(length_of(v, 0, n))
    } else if p == "border-width"@ {
        StyleUpdate::BorderWidth(length_of(v, 0, n))
    } else if p == "margin"@ || p == "padding"@ || p == "gap"@ {
        match length_of(v, 0, n) {
            Some(l) => if p == "margin"@ {
                StyleUpdate::Margin(l)
            } else if p == "padding"@ {
                StyleUpdate::Padding(l)
            } else {
                StyleUpdate::Gap(l)
            },
            None => StyleUpdate::Unchanged,
        }
    } else if p == "position"@ {
        StyleUpdate::Position(position_of(v, 0, n))
    } else if p == "top"@ {
        StyleUpdate::Inset(Side::Top, inset_of(v, 0, n))
    } else if p == "right"@ {
        StyleUpdate::Inset(Side::Right, inset_of(v, 0, n))
    } else if p == "bottom"@ {
        StyleUpdate::Inset(Side::Bottom, inset_of(v, 0, n))
    } else if p == "left"@ {
        StyleUpdate::Inset(Side::Left, inset_of(v, 0, n))
    } else if p == "grid-template-columns"@ {
        StyleUpdate::GridTemplateColumns
    } else if p == "grid-template-rows"@ {
        StyleUpdate::GridTemplateRows
    } else if p == "grid-column"@ {
        StyleUpdate::GridColumn(grid_line_of(v, 0, n).0, grid_line_of(v, 0, n).1)
    } else if p == "grid-row"@ {
        StyleUpdate::GridRow(grid_line_of(v, 0, n).0, grid_line_of(v, 0, n).1)
    } else if p == "overflow"@ {
        StyleUpdate::Overflow(overflow_of(v, 0, n))
    } else if p == "z-index"@ {
        StyleUpdate::ZIndex(
            match parsed_int(v, 0, n, true, i32::MIN as int, i32::MAX as int) {
                Some(z) => z as i32,
                None => 0,
            },
        )
    } else if p == "flex-grow"@ {
        StyleUpdate::FlexGrow(number_of(v))
    } else if p == "flex-shrink"@ {
        StyleUpdate::FlexShrink(number_of(v))
    } else if p == "min-width"@ {
        StyleUpdate::MinWidth(size_of(v, 0, n))
    } else if p == "min-height"@ {
        StyleUpdate::MinHeight(size_of(v, 0, n))
    } else if p == "max-width"@ {
        StyleUpdate::MaxWidth(size_of(v, 0, n))
    } else if p == "max-height"@ {
        StyleUpdate::MaxHeight(size_of(v, 0, n))
    } else {
        StyleUpdate::Unchanged
    }
}

fn str_eq(a: &str, b: &str) -> (r: bool)
    ensures
        r == (a@ == b@),
{
    let x = chars_of(a);
    let n = x.len();
    let r = window_is(&x, 0, n, b);
    assert(r == (x@ == b@)) by {
        if r {
            assert(x@ =~= b@);
        }
    }
    r
}

fn whole_number(v: &Vec<char>) -> (r: Option<TextRange>)
    ensures
        r == number_of(v@),
{
    if float_ok_exec(v, 0, v.len()) {
        Some(TextRange { start: 0, end: v.len() })
    } else {
        None
    }
}

/// The change that setting `property` to `value` makes (see `update_of`).
/// Colour values whose `#rrggbb` reading would cut a character apart are
/// left out.
pub fn style_update(property: &str, value: &str) -> (u: StyleUpdate)
    requires
        is_color_property(property@) ==> !color_panics(value@, 0, value@.len() as int),
    ensures
        u == update_of(property@, value@),
{
    let v = chars_of(value);
    let n = v.len();
    let p = property;
    if str_eq(p, "display") {
        StyleUpdate::Display(display_exec(&v))
    } else if str_eq(p, "flex-direction") {
        StyleUpdate::FlexDirection(direction_exec(&v))
    } else if str_eq(p, "justify-content") {
        StyleUpdate::JustifyContent(justify_exec(&v))
    } else if str_eq(p, "align-items") {
        StyleUpdate::AlignItems(align_exec(&v))
    } else if str_eq(p, "width") {
        StyleUpdate::Width(parse_dimension(&v, 0, n))
    } else if str_eq(p, "height") {
        StyleUpdate::Height(parse_dimension(&v, 0, n))
    } else if str_eq(p, "background-color") || str_eq(p, "background") {
        StyleUpdate::BackgroundColor(parse_color(&v, 0, n))
    } else if str_eq(p, "color") {
        StyleUpdate::TextColor(parse_color(&v, 0, n))
    } else if str_eq(p, "font-size") {
        StyleUpdate::FontSize(parse_length(&v, 0, n))
    } else if str_eq(p, "opacity") {
        StyleUpdate::Opacity(whole_number(&v))
    } else if str_eq(p, "border-radius") {
        StyleUpdate::BorderRadius(parse_length(&v, 0, n))
    } else if str_eq(p, "border-width") {
        StyleUpdate::BorderWidth(parse_length(&v, 0, n))
    } else if str_eq(p, "margin") || str_eq(p, "padding") || str_eq(p, "gap") {
        match parse_length(&v, 0, n) {
            Some(l) => if str_eq(p, "margin") {
                StyleUpdate::Margin(l)
            } else if str_eq(p, "padding") {
                StyleUpdate::Padding(l)
            } else {
                StyleUpdate::Gap(l)
            },
            None => StyleUpdate::Unchanged,
        }
    } else if str_eq(p, "position") {
        StyleUpdate::Position(position_exec(&v))
    } else if str_eq(p, "top") {
        StyleUpdate::Inset(Side::Top, parse_length_percentage_auto(&v, 0, n))
    } else if str_eq(p, "right") {
        StyleUpdate::Inset(Side::Right, parse_length_percentage_auto(&v, 0, n))
    } else if str_eq(p, "bottom") {
        StyleUpdate::Inset(Side::Bottom, parse_length_percentage_auto(&v, 0, n))
    } else if str_eq(p, "left") {
        StyleUpdate::Inset(Side::Left, parse_length_percentage_auto(&v, 0, n))
    } else if str_eq(p, "grid-template-columns") {
        StyleUpdate::GridTemplateColumns
    } else if str_eq(p, "grid-template-rows") {
        StyleUpdate::GridTemplateRows
    } else if str_eq(p, "grid-column") {
        let (a, b) = parse_grid_line(&v, 0, n);
        StyleUpdate::GridColumn(a, b)
    } else if str_eq(p, "grid-row") {
        let (a, b) = parse_grid_line(&v, 0, n);
        StyleUpdate::GridRow(a, b)
    } else if str_eq(p, "overflow") {
        StyleUpdate::Overflow(overflow_exec(&v))
    } else if str_eq(p, "z-index") {
        StyleUpdate::ZIndex(
            match parse_int(&v, 0, n, true, -0x8000_0000, 0x7fff_ffff) {
                Some(z) => z as i32,
                None => 0,
            },
        )
    } else if str_eq(p, "flex-grow") {
        StyleUpdate::FlexGrow(whole_number(&v))
    } else if str_eq(p, "flex-shrink") {
        StyleUpdate::FlexShrink(whole_number(&v))
    } else if str_eq(p, "min-width") {
        StyleUpdate::MinWidth(parse_dimension(&v, 0, n))
    } else if str_eq(p, "min-height") {
        StyleUpdate::MinHeight(parse_dimension(&v, 0, n))
    } else if str_eq(p, "max-width") {
        StyleUpdate::MaxWidth(parse_dimension(&v, 0, n))
    } else if str_eq(p, "max-height") {
        StyleUpdate::MaxHeight(parse_dimension(&v, 0, n))
    } else {
        StyleUpdate::Unchanged
    }
}

/// The layout an element starts with, by tag.
#[derive(Debug, Clone, Copy, PartialEq, Eq, Structural)]
pub enum TagLayout {
    /// `div`, `section`, `article`, `main`, `nav`: a flex column.
    Column,
    /// `span`: a flex row.
    Row,
    /// `button`: flex, content centred both ways, padding 8 left and right
    /// and 4 top and bottom.
    Button,
    /// Anything else: the layout engine's default.
    Plain,
}

/// The layout for a tag.
pub open spec fn tag_layout_of(t: Seq<char>) -> TagLayout {
    if t == "div"@ || t == "section"@ || t == "article"@ || t == "main"@ || t == "nav"@ {
        TagLayout::Column
    } else if t == "span"@ {
        TagLayout::Row
    } else if t == "button"@ {
        TagLayout::Button
    } else {
        TagLayout::Plain
    }
}

/// The layout an element with tag `tag` starts with.
pub fn default_style_for_tag(tag: &str) -> (l: TagLayout)
    ensures
        l == tag_layout_of(tag@),
{
    if str_eq(tag, "div") || str_eq(tag, "section") || str_eq(tag, "article") || str_eq(tag, "main") || str_eq(
        tag,
        "nav",
    ) {
        TagLayout::Column
    } else if str_eq(tag, "span") {
        TagLayout::Row
    } else if str_eq(tag, "button") {
        TagLayout::Button
    } else {
        TagLayout::Plain
    }
}

} // verus!
