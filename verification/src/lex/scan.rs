//! The lexical grammar of GraphQL as a function on characters.
//!
//! Ignored characters (byte order mark, tab, space, line terminators, commas
//! and `#` comments) are skipped. At every other position the longest token
//! that starts there is taken: names, punctuators, string values (quoted or
//! block), int and float values, and malformed numbers such as `01` or
//! `123L`, which become error tokens. When numeric readings of equal length
//! compete, a float wins over an int and an int over an error. A character
//! that starts no token at all becomes an error token of its own.
use vstd::prelude::*;

use super::kind::{keyword_kind, keyword_kind_of, punctuator_kind, punctuator_kind_of, spells, TokenKind};

verus! {

/// Character classes whose runs the lexer measures.
#[derive(Clone, Copy, PartialEq, Eq, Structural)]
pub enum CharClass {
    /// `[0-9]`
    Digit,
    /// `[A-Za-z0-9_]`
    NameContinue,
    /// `[0-9A-Za-z]`
    Alnum,
    /// `[\u{0009}\u{0020}-\u{ffff}]`: what a comment may hold.
    CommentChar,
    /// Anything but `"`.
    NotQuote,
}

pub open spec fn is_digit(c: char) -> bool {
    '0' <= c && c <= '9'
}

pub open spec fn is_letter(c: char) -> bool {
    ('a' <= c && c <= 'z') || ('A' <= c && c <= 'Z')
}

/// `[A-Za-z_]`
pub open spec fn is_name_start(c: char) -> bool {
    is_letter(c) || c == '_'
}

pub open spec fn in_class(class: CharClass, c: char) -> bool {
    match class {
        CharClass::Digit => is_digit(c),
        CharClass::NameContinue => is_letter(c) || is_digit(c) || c == '_',
        CharClass::Alnum => is_letter(c) || is_digit(c),
        CharClass::CommentChar => c == '\t' || (' ' <= c && c <= '\u{ffff}'),
        CharClass::NotQuote => c != '"',
    }
}

/// Characters that are skipped on their own: byte order mark, white space,
/// line terminators and insignificant commas.
pub open spec fn is_ignored(c: char) -> bool {
    c == '\u{feff}' || c == '\t' || c == ' ' || c == '\n' || c == '\r' || c == ','
}

/// The end of the longest run of `class` characters that starts at `i`.
pub open spec fn run(s: Seq<char>, i: int, class: CharClass) -> int
    decreases s.len() - i,
{
    if 0 <= i < s.len() && in_class(class, s[i]) {
        run(s, i + 1, class)
    } else {
        i
    }
}

pub proof fn lemma_run(s: Seq<char>, i: int, class: CharClass)
    requires
        0 <= i <= s.len(),
    ensures
        i <= run(s, i, class) <= s.len(),
        forall|k: int| i <= k < run(s, i, class) ==> in_class(class, #[trigger] s[k]),
        run(s, i, class) < s.len() ==> !in_class(class, s[run(s, i, class)]),
    decreases s.len() - i,
{
    if i < s.len() && in_class(class, s[i]) {
        lemma_run(s, i + 1, class);
    }
}

/// The first position at or after `i` that is not ignored.
pub open spec fn skip(s: Seq<char>, i: int) -> int
    decreases s.len() - i,
{
    if i < 0 || i >= s.len() {
        i
    } else if is_ignored(s[i]) {
        skip(s, i + 1)
    } else if s[i] == '#' {
        proof {
            lemma_run(s, i + 1, CharClass::CommentChar);
        }
        skip(s, run(s, i + 1, CharClass::CommentChar))
    } else {
        i
    }
}

pub proof fn lemma_skip(s: Seq<char>, i: int)
    requires
        0 <= i <= s.len(),
    ensures
        i <= skip(s, i) <= s.len(),
        skip(s, i) < s.len() ==> !is_ignored(s[skip(s, i)]) && s[skip(s, i)] != '#',
    decreases s.len() - i,
{
    if i < s.len() {
        if is_ignored(s[i]) {
            lemma_skip(s, i + 1);
        } else if s[i] == '#' {
            lemma_run(s, i + 1, CharClass::CommentChar);
            lemma_skip(s, run(s, i + 1, CharClass::CommentChar));
        }
    }
}

/// The end of a quoted string whose body starts at `j`, or -1 if the body
/// is not closed by an unescaped `"`. Only `\"` and `\\` are escapes.
pub open spec fn quoted_end(s: Seq<char>, j: int) -> int
    decreases s.len() - j,
{
    if j < 0 || j >= s.len() {
        -1
    } else if s[j] == '"' {
        j + 1
    } else if s[j] == '\\' {
        if j + 1 < s.len() && (s[j + 1] == '"' || s[j + 1] == '\\') {
            quoted_end(s, j + 2)
        } else {
            -1
        }
    } else {
        quoted_end(s, j + 1)
    }
}

pub proof fn lemma_quoted_end(s: Seq<char>, j: int)
    requires
        0 <= j,
    ensures
        quoted_end(s, j) == -1 || j < quoted_end(s, j) <= s.len(),
    decreases s.len() - j,
{
    if j < s.len() && s[j] != '"' {
        if s[j] == '\\' {
            if j + 1 < s.len() && (s[j + 1] == '"' || s[j + 1] == '\\') {
                lemma_quoted_end(s, j + 2);
            }
        } else {
            lemma_quoted_end(s, j + 1);
        }
    }
}

/// Whether `s[i..i + 3]` is `"""`.
pub open spec fn triple_quote_at(s: Seq<char>, i: int) -> bool {
    0 <= i && i + 3 <= s.len() && s[i] == '"' && s[i + 1] == '"' && s[i + 2] == '"'
}

/// The end of a block string `"""…"""` starting at `i` (its body holds no
/// `"`), or -1.
pub open spec fn block_end(s: Seq<char>, i: int) -> int {
    if triple_quote_at(s, i) {
        let k = run(s, i + 3, CharClass::NotQuote);
        if triple_quote_at(s, k) {
            k + 3
        } else {
            -1
        }
    } else {
        -1
    }
}

/// The end of the longest string value starting at `i`, or -1.
pub open spec fn string_end(s: Seq<char>, i: int) -> int {
    let block = block_end(s, i);
    let quoted = if 0 <= i < s.len() && s[i] == '"' {
        quoted_end(s, i + 1)
    } else {
        -1
    };
    if block >= quoted {
        block
    } else {
        quoted
    }
}

/// After an optional `-` at `i`.
pub open spec fn sign_end(s: Seq<char>, i: int) -> int {
    if 0 <= i < s.len() && s[i] == '-' {
        i + 1
    } else {
        i
    }
}

/// The end of `-?(0|[1-9][0-9]*)` at `i`, or -1.
pub open spec fn int_end(s: Seq<char>, i: int) -> int {
    let p = sign_end(s, i);
    if 0 <= p < s.len() && s[p] == '0' {
        p + 1
    } else if 0 <= p < s.len() && is_digit(s[p]) {
        run(s, p + 1, CharClass::Digit)
    } else {
        -1
    }
}

/// The end of `\.[0-9]+` at `c`, or -1.
pub open spec fn fraction_end(s: Seq<char>, c: int) -> int {
    if 0 <= c && c + 1 < s.len() && s[c] == '.' && is_digit(s[c + 1]) {
        run(s, c + 1, CharClass::Digit)
    } else {
        -1
    }
}

/// The end of `[eE][+-]?[0-9]+` at `c`, or -1.
pub open spec fn exponent_end(s: Seq<char>, c: int) -> int {
    if 0 <= c < s.len() && (s[c] == 'e' || s[c] == 'E') {
        let d = if c + 1 < s.len() && (s[c + 1] == '+' || s[c + 1] == '-') {
            c + 2
        } else {
            c + 1
        };
        if d < s.len() && is_digit(s[d]) {
            run(s, d, CharClass::Digit)
        } else {
            -1
        }
    } else {
        -1
    }
}

/// End of a float written with a fraction and no exponent, or -1.
pub open spec fn float_fraction_end(s: Seq<char>, i: int) -> int {
    let core = int_end(s, i);
    if core >= 0 {
        fraction_end(s, core)
    } else {
        -1
    }
}

/// End of a float written with an exponent, or -1.
pub open spec fn float_exponent_end(s: Seq<char>, i: int) -> int {
    let core = int_end(s, i);
    let f = float_fraction_end(s, i);
    if core >= 0 {
        exponent_end(s, if f >= 0 { f } else { core })
    } else {
        -1
    }
}

/// A number directly followed by name characters, such as `01` or `123L`.
pub open spec fn error_digits_end(s: Seq<char>, i: int) -> int {
    let p = sign_end(s, i);
    let e = run(s, p + 1, CharClass::NameContinue);
    if int_end(s, i) >= 0 && e >= p + 2 {
        e
    } else {
        -1
    }
}

/// A float (`end` from one of the two forms above) directly followed by a
/// letter or `_` and then letters and digits.
pub open spec fn error_suffix_end(s: Seq<char>, end: int) -> int {
    if 0 <= end < s.len() && is_name_start(s[end]) {
        run(s, end + 1, CharClass::Alnum)
    } else {
        -1
    }
}

pub open spec fn max2(a: int, b: int) -> int {
    if a >= b {
        a
    } else {
        b
    }
}

/// The numeric token at `i`, where `int_end(s, i) >= 0`.
pub open spec fn numeric_token(s: Seq<char>, i: int) -> (TokenKind, int) {
    let core = int_end(s, i);
    let f1 = float_fraction_end(s, i);
    let f2 = float_exponent_end(s, i);
    let float = max2(f1, f2);
    let error = max2(error_digits_end(s, i), max2(error_suffix_end(s, f1), error_suffix_end(s, f2)));
    if float >= core && float >= error {
        (TokenKind::FloatValue, float)
    } else if core >= error {
        (TokenKind::IntValue, core)
    } else {
        (TokenKind::Error, error)
    }
}

/// The kind and end of the token that starts at `i`, a position that is
/// not ignored.
pub open spec fn next_token(s: Seq<char>, i: int) -> (TokenKind, int) {
    let c = s[i];
    if is_name_start(c) {
        let e = run(s, i + 1, CharClass::NameContinue);
        (keyword_kind(s.subrange(i, e)), e)
    } else if punctuator_kind(s.subrange(i, i + 1)) is Some {
        (punctuator_kind(s.subrange(i, i + 1))->0, i + 1)
    } else if i + 3 <= s.len() && s.subrange(i, i + 3) == "..."@ {
        (TokenKind::Dots, i + 3)
    } else if c == '"' && string_end(s, i) > i {
        (TokenKind::StringValue, string_end(s, i))
    } else if int_end(s, i) >= 0 {
        numeric_token(s, i)
    } else {
        (TokenKind::Error, i + 1)
    }
}

pub proof fn lemma_int_end(s: Seq<char>, i: int)
    requires
        0 <= i < s.len(),
    ensures
        int_end(s, i) == -1 || i < int_end(s, i) <= s.len(),
        float_fraction_end(s, i) == -1 || int_end(s, i) < float_fraction_end(s, i) <= s.len(),
        float_exponent_end(s, i) == -1 || int_end(s, i) < float_exponent_end(s, i) <= s.len(),
        error_digits_end(s, i) == -1 || i < error_digits_end(s, i) <= s.len(),
        error_suffix_end(s, float_fraction_end(s, i)) == -1 || i < error_suffix_end(
            s,
            float_fraction_end(s, i),
        ) <= s.len(),
        error_suffix_end(s, float_exponent_end(s, i)) == -1 || i < error_suffix_end(
            s,
            float_exponent_end(s, i),
        ) <= s.len(),
{
    let p = sign_end(s, i);
    if p < s.len() {
        lemma_run(s, p + 1, CharClass::Digit);
        lemma_run(s, p + 1, CharClass::NameContinue);
    }
    let core = int_end(s, i);
    if core >= 0 {
        if core + 1 < s.len() {
            lemma_run(s, core + 1, CharClass::Digit);
        }
        let f = float_fraction_end(s, i);
        let m = if f >= 0 {
            f
        } else {
            core
        };
        if m + 2 < s.len() {
            lemma_run(s, m + 2, CharClass::Digit);
        }
        if m + 1 < s.len() {
            lemma_run(s, m + 1, CharClass::Digit);
        }
        if f >= 0 && f < s.len() {
            lemma_run(s, f + 1, CharClass::Alnum);
        }
        let g = float_exponent_end(s, i);
        if g >= 0 && g < s.len() {
            lemma_run(s, g + 1, CharClass::Alnum);
        }
    }
}

pub proof fn lemma_next_token(s: Seq<char>, i: int)
    requires
        0 <= i < s.len(),
    ensures
        i < next_token(s, i).1 <= s.len(),
{
    lemma_run(s, i + 1, CharClass::NameContinue);
    lemma_int_end(s, i);
    lemma_quoted_end(s, i + 1);
    if triple_quote_at(s, i) {
        lemma_run(s, i + 3, CharClass::NotQuote);
    }
}

/// The tokens from position `i` on, each as its kind and the character
/// range that it covers.
pub open spec fn tokens_from(s: Seq<char>, i: int) -> Seq<(TokenKind, int, int)>
    decreases s.len() - i,
{
    if i < 0 || i > s.len() {
        Seq::empty()
    } else {
        let j = skip(s, i);
        proof {
            lemma_skip(s, i);
        }
        if j >= s.len() {
            Seq::empty()
        } else {
            let (kind, end) = next_token(s, j);
            proof {
                lemma_next_token(s, j);
            }
            seq![(kind, j, end)] + tokens_from(s, end)
        }
    }
}

/// The tokens of a whole source text.
pub open spec fn tokenize(s: Seq<char>) -> Seq<(TokenKind, int, int)> {
    tokens_from(s, 0)
}

// ---------------------------------------------------------------------
// Executable scanning.

pub fn is_in_class(class: CharClass, c: char) -> (r: bool)
    ensures
        r == in_class(class, c),
{
    match class {
        CharClass::Digit => '0' <= c && c <= '9',
        CharClass::NameContinue => ('a' <= c && c <= 'z') || ('A' <= c && c <= 'Z') || ('0' <= c
            && c <= '9') || c == '_',
        CharClass::Alnum => ('a' <= c && c <= 'z') || ('A' <= c && c <= 'Z') || ('0' <= c && c
            <= '9'),
        CharClass::CommentChar => c == '\t' || (' ' <= c && c <= '\u{ffff}'),
        CharClass::NotQuote => c != '"',
    }
}

/// [`run`] over a character vector.
pub fn class_run(chars: &[char], i: usize, class: CharClass) -> (r: usize)
    requires
        i <= chars@.len(),
    ensures
        r == run(chars@, i as int, class),
{
    let mut k = i;
    while k < chars.len() && is_in_class(class, chars[k])
        invariant
            i <= k <= chars@.len(),
            run(chars@, i as int, class) == run(chars@, k as int, class),
        decreases chars@.len() - k,
    {
        k = k + 1;
    }
    k
}

/// [`skip`] over a character vector.
pub fn skip_ignored(chars: &[char], i: usize) -> (r: usize)
    requires
        i <= chars@.len(),
    ensures
        r == skip(chars@, i as int),
{
    let mut k = i;
    loop
        invariant
            i <= k <= chars@.len(),
            skip(chars@, i as int) == skip(chars@, k as int),
        decreases chars@.len() - k,
    {
        if k >= chars.len() {
            return k;
        }
        let c = chars[k];
        if c == '\u{feff}' || c == '\t' || c == ' ' || c == '\n' || c == '\r' || c == ',' {
            k = k + 1;
        } else if c == '#' {
            proof {
                lemma_run(chars@, k + 1, CharClass::CommentChar);
            }
            k = class_run(chars, k + 1, CharClass::CommentChar);
        } else {
            return k;
        }
    }
}

/// [`quoted_end`] over a character vector, with -1 as `None`.
pub fn scan_quoted(chars: &[char], j: usize) -> (r: Option<usize>)
    ensures
        match r {
            Some(e) => e == quoted_end(chars@, j as int),
            None => quoted_end(chars@, j as int) == -1,
        },
{
    let mut k = j;
    loop
        invariant
            j <= k,
            quoted_end(chars@, j as int) == quoted_end(chars@, k as int),
        decreases chars@.len() - k,
    {
        if k >= chars.len() {
            return None;
        }
        if chars[k] == '"' {
            return Some(k + 1);
        } else if chars[k] == '\\' {
            if k + 1 < chars.len() && (chars[k + 1] == '"' || chars[k + 1] == '\\') {
                k = k + 2;
            } else {
                return None;
            }
        } else {
            k = k + 1;
        }
    }
}

fn triple_quote(chars: &[char], i: usize) -> (r: bool)
    ensures
        r == triple_quote_at(chars@, i as int),
{
    i < chars.len() && chars.len() - i >= 3 && chars[i] == '"' && chars[i + 1] == '"' && chars[i
        + 2] == '"'
}

/// [`string_end`] over a character vector, with -1 as `None`.
pub fn scan_string(chars: &[char], i: usize) -> (r: Option<usize>)
    requires
        i < chars@.len(),
    ensures
        match r {
            Some(e) => e == string_end(chars@, i as int),
            None => string_end(chars@, i as int) == -1,
        },
{
    let n = chars.len();
    let block: Option<usize> = if triple_quote(chars, i) {
        proof {
            lemma_run(chars@, i + 3, CharClass::NotQuote);
        }
        let k = class_run(chars, i + 3, CharClass::NotQuote);
        if triple_quote(chars, k) {
            Some(k + 3)
        } else {
            None
        }
    } else {
        None
    };
    let quoted: Option<usize> = if chars[i] == '"' {
        scan_quoted(chars, i + 1)
    } else {
        None
    };
    match (block, quoted) {
        (Some(b), Some(q)) => if b >= q {
            Some(b)
        } else {
            Some(q)
        },
        (Some(b), None) => Some(b),
        (None, Some(q)) => Some(q),
        (None, None) => None,
    }
}

spec fn opt_end(e: Option<usize>) -> int {
    match e {
        Some(v) => v as int,
        None => -1,
    }
}

/// [`int_end`] over a character vector.
fn scan_int(chars: &[char], i: usize) -> (r: Option<usize>)
    requires
        i < chars@.len(),
    ensures
        match r {
            Some(e) => e == int_end(chars@, i as int),
            None => int_end(chars@, i as int) == -1,
        },
{
    let p = if chars[i] == '-' {
        i + 1
    } else {
        i
    };
    if p < chars.len() && chars[p] == '0' {
        Some(p + 1)
    } else if p < chars.len() && '0' <= chars[p] && chars[p] <= '9' {
        Some(class_run(chars, p + 1, CharClass::Digit))
    } else {
        None
    }
}

/// [`fraction_end`] over a character vector.
fn scan_fraction(chars: &[char], c: usize) -> (r: Option<usize>)
    ensures
        match r {
            Some(e) => e == fraction_end(chars@, c as int),
            None => fraction_end(chars@, c as int) == -1,
        },
{
    if c < chars.len() && chars.len() - c >= 2 && chars[c] == '.' && '0' <= chars[c + 1]
        && chars[c + 1] <= '9' {
        Some(class_run(chars, c + 1, CharClass::Digit))
    } else {
        None
    }
}

/// [`exponent_end`] over a character vector.
fn scan_exponent(chars: &[char], c: usize) -> (r: Option<usize>)
    ensures
        match r {
            Some(e) => e == exponent_end(chars@, c as int),
            None => exponent_end(chars@, c as int) == -1,
        },
{
    if c < chars.len() && (chars[c] == 'e' || chars[c] == 'E') {
        let d = if c + 1 < chars.len() && (chars[c + 1] == '+' || chars[c + 1] == '-') {
            c + 2
        } else {
            c + 1
        };
        if d < chars.len() && '0' <= chars[d] && chars[d] <= '9' {
            Some(class_run(chars, d, CharClass::Digit))
        } else {
            None
        }
    } else {
        None
    }
}

/// [`error_suffix_end`] over a character vector.
fn scan_error_suffix(chars: &[char], end: Option<usize>) -> (r: Option<usize>)
    ensures
        match r {
            Some(e) => e == error_suffix_end(chars@, opt_end(end)),
            None => error_suffix_end(chars@, opt_end(end)) == -1,
        },
{
    match end {
        Some(e) => {
            if e < chars.len() && (('a' <= chars[e] && chars[e] <= 'z') || ('A' <= chars[e]
                && chars[e] <= 'Z') || chars[e] == '_') {
                Some(class_run(chars, e + 1, CharClass::Alnum))
            } else {
                None
            }
        },
        None => None,
    }
}

fn max_end(a: Option<usize>, b: Option<usize>) -> (r: Option<usize>)
    ensures
        opt_end(r) == max2(opt_end(a), opt_end(b)),
{
    match (a, b) {
        (Some(x), Some(y)) => if x >= y {
            Some(x)
        } else {
            Some(y)
        },
        (Some(x), None) => Some(x),
        (None, Some(y)) => Some(y),
        (None, None) => None,
    }
}

/// [`numeric_token`] over a character vector.
fn scan_numeric(chars: &[char], i: usize, core: usize) -> (r: (TokenKind, usize))
    requires
        i < chars@.len(),
        core == int_end(chars@, i as int),
    ensures
        r.0 == numeric_token(chars@, i as int).0,
        r.1 == numeric_token(chars@, i as int).1,
{
    let f1 = scan_fraction(chars, core);
    let m = match f1 {
        Some(f) => f,
        None => core,
    };
    let f2 = scan_exponent(chars, m);
    let p = if chars[i] == '-' {
        i + 1
    } else {
        i
    };
    let e = class_run(chars, p + 1, CharClass::NameContinue);
    let e1: Option<usize> = if e > p && e - p >= 2 {
        Some(e)
    } else {
        None
    };
    let e2 = scan_error_suffix(chars, f1);
    let e3 = scan_error_suffix(chars, f2);
    let float = max_end(f1, f2);
    let error = max_end(e1, max_end(e2, e3));
    match (float, error) {
        (Some(f), Some(x)) => if f >= core && f >= x {
            (TokenKind::FloatValue, f)
        } else if core >= x {
            (TokenKind::IntValue, core)
        } else {
            (TokenKind::Error, x)
        },
        (Some(f), None) => if f >= core {
            (TokenKind::FloatValue, f)
        } else {
            (TokenKind::IntValue, core)
        },
        (None, Some(x)) => if core >= x {
            (TokenKind::IntValue, core)
        } else {
            (TokenKind::Error, x)
        },
        (None, None) => (TokenKind::IntValue, core),
    }
}

/// [`next_token`] over a character vector.
pub fn scan_token(chars: &[char], i: usize) -> (r: (TokenKind, usize))
    requires
        i < chars@.len(),
    ensures
        r.0 == next_token(chars@, i as int).0,
        r.1 == next_token(chars@, i as int).1,
{
    let c = chars[i];
    if ('a' <= c && c <= 'z') || ('A' <= c && c <= 'Z') || c == '_' {
        let e = class_run(chars, i + 1, CharClass::NameContinue);
        proof {
            lemma_run(chars@, i + 1, CharClass::NameContinue);
        }
        return (keyword_kind_of(chars, i, e), e);
    }
    match punctuator_kind_of(chars, i, i + 1) {
        Some(kind) => {
            return (kind, i + 1);
        },
        None => {},
    }
    if chars.len() - i >= 3 && spells(chars, i, i + 3, "...") {
        return (TokenKind::Dots, i + 3);
    }
    if c == '"' {
        match scan_string(chars, i) {
            Some(e) => {
                if e > i {
                    return (TokenKind::StringValue, e);
                }
            },
            None => {},
        }
    }
    match scan_int(chars, i) {
        Some(core) => {
            proof {
                lemma_int_end(chars@, i as int);
            }
            scan_numeric(chars, i, core)
        },
        None => (TokenKind::Error, i + 1),
    }
}

/// [`tokenize`]: the kind and character range of every token of `chars`.
pub fn scan(chars: &[char]) -> (r: Vec<(TokenKind, usize, usize)>)
    ensures
        r@.len() == tokenize(chars@).len(),
        forall|k: int|
            0 <= k < r@.len() ==> (#[trigger] r@[k]).0 == tokenize(chars@)[k].0 && r@[k].1
                == tokenize(chars@)[k].1 && r@[k].2 == tokenize(chars@)[k].2,
{
    let ghost s = chars@;
    let mut out: Vec<(TokenKind, usize, usize)> = Vec::new();
    let mut i: usize = 0;
    let ghost mut done: Seq<(TokenKind, int, int)> = Seq::empty();
    while i < chars.len()
        invariant
            i <= chars@.len(),
            s == chars@,
            done + tokens_from(s, i as int) == tokenize(s),
            out@.len() == done.len(),
            forall|k: int|
                0 <= k < out@.len() ==> (#[trigger] out@[k]).0 == done[k].0 && out@[k].1
                    == done[k].1 && out@[k].2 == done[k].2,
        decreases chars@.len() - i,
    {
        let j = skip_ignored(chars, i);
        proof {
            lemma_skip(s, i as int);
        }
        if j >= chars.len() {
            assert(tokens_from(s, i as int) =~= Seq::empty());
            i = j;
        } else {
            let (kind, end) = scan_token(chars, j);
            proof {
                lemma_next_token(s, j as int);
                assert(tokens_from(s, i as int) == seq![(kind, j as int, end as int)]
                    + tokens_from(s, end as int));
                assert(done + tokens_from(s, i as int) =~= done.push(
                    (kind, j as int, end as int),
                ) + tokens_from(s, end as int));
                done = done.push((kind, j as int, end as int));
            }
            out.push((kind, j, end));
            i = end;
        }
    }
    proof {
        assert(tokens_from(s, i as int) =~= Seq::empty());
        assert(done =~= tokenize(s));
    }
    out
}

} // verus!
