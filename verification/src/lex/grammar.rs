use vstd::prelude::*;

use super::kind::{find_punctuator, keyword_kind, punctuator_kind, spec_punctuator_entry, TokenKind, PUNCTUATOR_COUNT};
use super::scan::{
    block_end, quoted_end, string_end, triple_quote_at, exponent_end, float_fraction_end, int_end, is_digit, is_name_start, next_token, run, skip,
    tokens_from, CharClass,
};

verus! {

/// The digits of an integer without its sign, from `a` up to `j`: `0`
/// alone, or a nonzero digit and more digits.
pub open spec fn unsigned_int_at(s: Seq<char>, a: int, j: int) -> bool {
    &&& 0 <= a < j <= s.len()
    &&& forall|k: int| a <= k < j ==> is_digit(#[trigger] s[k])
    &&& s[a] == '0' ==> j == a + 1
}

/// An integer `-?(0|[1-9][0-9]*)` from `i` up to `j`, with nothing after
/// it that would carry on a number or a name (a digit, `.` or a name
/// character).
pub open spec fn whole_int_at(s: Seq<char>, i: int, j: int) -> bool {
    &&& unsigned_int_at(s, i, j) || (0 <= i < s.len() && s[i] == '-' && unsigned_int_at(s, i + 1, j))
    &&& j == s.len() || !(is_digit(s[j]) || s[j] == '.' || is_name_start(s[j]))
}

/// An integer that stands where a token starts is one integer token, its
/// minus sign included.
pub proof fn law_int_token(s: Seq<char>, i: int, j: int)
    requires
        whole_int_at(s, i, j),
    ensures
        next_token(s, i) == (TokenKind::IntValue, j),
        tokens_from(s, i).len() > 0,
        tokens_from(s, i)[0] == (TokenKind::IntValue, i, j),
{
    let c = s[i];
    assert(c == '-' || is_digit(c));
    lemma_no_punctuator(c);
    assert(s.subrange(i, i + 1) =~= seq![c]);
    if i + 3 <= s.len() && s.subrange(i, i + 3) == "..."@ {
        reveal_strlit("...");
        assert(s.subrange(i, i + 3)[0] == c);
    }
    let p = if c == '-' {
        i + 1
    } else {
        i
    };
    if s[p] != '0' {
        lemma_run_to(s, p + 1, j, CharClass::Digit);
    }
    assert(int_end(s, i) == j);
    lemma_run_to(s, p + 1, j, CharClass::NameContinue);
    assert(skip(s, i) == i);
}

/// Digits from `a` up to `j`, at least one.
pub open spec fn digits_at(s: Seq<char>, a: int, j: int) -> bool {
    &&& 0 <= a < j <= s.len()
    &&& forall|k: int| a <= k < j ==> is_digit(#[trigger] s[k])
}

/// An integer part `-?(0|[1-9][0-9]*)` from `i` up to `c`.
pub open spec fn int_part_at(s: Seq<char>, i: int, c: int) -> bool {
    unsigned_int_at(s, i, c) || (0 <= i < s.len() && s[i] == '-' && unsigned_int_at(s, i + 1, c))
}

/// Nothing after `j` that would carry on a number or a name.
pub open spec fn ends_number(s: Seq<char>, j: int) -> bool {
    j == s.len() || !(is_digit(s[j]) || s[j] == '.' || is_name_start(s[j]))
}

/// A float with a fraction and no exponent, `-?(0|[1-9][0-9]*)\.[0-9]+`,
/// where a token starts, is one float token.
pub proof fn law_fraction_float_token(s: Seq<char>, i: int, c: int, j: int)
    requires
        int_part_at(s, i, c),
        c < s.len() && s[c] == '.',
        digits_at(s, c + 1, j),
        ends_number(s, j),
    ensures
        next_token(s, i) == (TokenKind::FloatValue, j),
        tokens_from(s, i).len() > 0,
        tokens_from(s, i)[0] == (TokenKind::FloatValue, i, j),
{
    lemma_number_start(s, i, c);
    lemma_run_to(s, c + 1, j, CharClass::Digit);
    assert(float_fraction_end(s, i) == j);
    assert(exponent_end(s, j) == -1);
    let p = if s[i] == '-' {
        i + 1
    } else {
        i
    };
    lemma_run_le(s, p + 1, c, CharClass::NameContinue);
    assert(skip(s, i) == i);
}

/// A float with an exponent, `-?(0|[1-9][0-9]*)(\.[0-9]+)?[eE][+-]?[0-9]+`,
/// where a token starts, is one float token.
pub proof fn law_exponent_float_token(s: Seq<char>, i: int, c: int, m: int, d: int, j: int)
    requires
        int_part_at(s, i, c),
        m == c || (c < s.len() && s[c] == '.' && digits_at(s, c + 1, m)),
        m < s.len() && (s[m] == 'e' || s[m] == 'E'),
        d == m + 1 || (d == m + 2 && (s[m + 1] == '+' || s[m + 1] == '-')),
        digits_at(s, d, j),
        ends_number(s, j),
    ensures
        next_token(s, i) == (TokenKind::FloatValue, j),
        tokens_from(s, i).len() > 0,
        tokens_from(s, i)[0] == (TokenKind::FloatValue, i, j),
{
    lemma_number_start(s, i, c);
    if m > c {
        lemma_run_to(s, c + 1, m, CharClass::Digit);
        assert(float_fraction_end(s, i) == m);
        lemma_run_le(s, m + 1, j, CharClass::Alnum);
    } else {
        assert(float_fraction_end(s, i) == -1);
    }
    lemma_run_to(s, d, j, CharClass::Digit);
    assert(exponent_end(s, m) == j);
    let p = if s[i] == '-' {
        i + 1
    } else {
        i
    };
    lemma_run_le(s, p + 1, j, CharClass::NameContinue);
    assert(skip(s, i) == i);
}

/// A name, `[A-Za-z_][A-Za-z0-9_]*` taken as far as it goes, where a token
/// starts, is one token: a keyword's kind for a reserved word, and a name
/// otherwise.
pub proof fn law_name_token(s: Seq<char>, i: int, j: int)
    requires
        0 <= i < j <= s.len(),
        is_name_start(s[i]),
        forall|k: int| i < k < j ==> super::scan::in_class(CharClass::NameContinue, #[trigger] s[k]),
        j == s.len() || !super::scan::in_class(CharClass::NameContinue, s[j]),
    ensures
        next_token(s, i) == (keyword_kind(s.subrange(i, j)), j),
        tokens_from(s, i).len() > 0,
        tokens_from(s, i)[0] == (keyword_kind(s.subrange(i, j)), i, j),
{
    lemma_run_to(s, i + 1, j, CharClass::NameContinue);
    assert(skip(s, i) == i);
}

/// A quoted string whose body holds no quote and no backslash, where a
/// token starts (and not the start of a block string), is one string token.
pub proof fn law_string_token(s: Seq<char>, i: int, j: int)
    requires
        0 <= i && i + 2 <= j <= s.len(),
        s[i] == '"',
        s[j - 1] == '"',
        forall|k: int| i < k < j - 1 ==> #[trigger] s[k] != '"' && s[k] != '\\',
        !triple_quote_at(s, i),
    ensures
        next_token(s, i) == (TokenKind::StringValue, j),
        tokens_from(s, i).len() > 0,
        tokens_from(s, i)[0] == (TokenKind::StringValue, i, j),
{
    lemma_quoted_to(s, i + 1, j);
    assert(block_end(s, i) == -1);
    assert(string_end(s, i) == j);
    lemma_find_none_other('"', 0);
    assert(s.subrange(i, i + 1) =~= seq!['"']);
    if i + 3 <= s.len() && s.subrange(i, i + 3) == "..."@ {
        reveal_strlit("...");
        assert(s.subrange(i, i + 3)[0] == s[i]);
    }
    assert(skip(s, i) == i);
}

proof fn lemma_quoted_to(s: Seq<char>, a: int, j: int)
    requires
        0 <= a < j <= s.len(),
        s[j - 1] == '"',
        forall|k: int| a <= k < j - 1 ==> #[trigger] s[k] != '"' && s[k] != '\\',
    ensures
        quoted_end(s, a) == j,
    decreases j - a,
{
    if a < j - 1 {
        lemma_quoted_to(s, a + 1, j);
    }
}

proof fn lemma_find_none_other(c: char, index: int)
    requires
        c == '"' || c == '.',
        index >= 0,
    ensures
        find_punctuator(seq![c], index) is None,
    decreases PUNCTUATOR_COUNT - index,
{
    if index < PUNCTUATOR_COUNT {
        reveal_strlit("&");
        reveal_strlit("@");
        reveal_strlit("!");
        reveal_strlit("{");
        reveal_strlit("}");
        reveal_strlit("[");
        reveal_strlit("]");
        reveal_strlit(":");
        reveal_strlit("$");
        reveal_strlit("=");
        reveal_strlit("(");
        reveal_strlit(")");
        reveal_strlit("|");
        reveal_strlit("...");
        let e = spec_punctuator_entry(index as usize).0;
        if e == seq![c] {
            assert(e[0] == c);
            assert(e.len() == 1);
        }
        lemma_find_none_other(c, index + 1);
    }
}

/// Each punctuator where a token starts is one token of its own kind.
pub proof fn law_punctuator_token(s: Seq<char>, i: int)
    requires
        0 <= i < s.len(),
        s[i] == '&' || s[i] == '@' || s[i] == '!' || s[i] == '{' || s[i] == '}' || s[i] == '[' || s[i] == ']' || s[i] == ':' || s[i] == '$' || s[i] == '=' || s[i] == '(' || s[i] == ')' || s[i] == '|',
    ensures
        s[i] == '&' ==> next_token(s, i) == (TokenKind::Ampersand, i + 1),
        s[i] == '@' ==> next_token(s, i) == (TokenKind::At, i + 1),
        s[i] == '!' ==> next_token(s, i) == (TokenKind::Bang, i + 1),
        s[i] == '{' ==> next_token(s, i) == (TokenKind::BraceLeft, i + 1),
        s[i] == '}' ==> next_token(s, i) == (TokenKind::BraceRight, i + 1),
        s[i] == '[' ==> next_token(s, i) == (TokenKind::BracketLeft, i + 1),
        s[i] == ']' ==> next_token(s, i) == (TokenKind::BracketRight, i + 1),
        s[i] == ':' ==> next_token(s, i) == (TokenKind::Colon, i + 1),
        s[i] == '$' ==> next_token(s, i) == (TokenKind::Dollar, i + 1),
        s[i] == '=' ==> next_token(s, i) == (TokenKind::Eq, i + 1),
        s[i] == '(' ==> next_token(s, i) == (TokenKind::ParenLeft, i + 1),
        s[i] == ')' ==> next_token(s, i) == (TokenKind::ParenRight, i + 1),
        s[i] == '|' ==> next_token(s, i) == (TokenKind::Pipe, i + 1),
        tokens_from(s, i).len() > 0,
        tokens_from(s, i)[0] == (next_token(s, i).0, i, i + 1),
{
    reveal_strlit("&");
    reveal_strlit("@");
    reveal_strlit("!");
    reveal_strlit("{");
    reveal_strlit("}");
    reveal_strlit("[");
    reveal_strlit("]");
    reveal_strlit(":");
    reveal_strlit("$");
    reveal_strlit("=");
    reveal_strlit("(");
    reveal_strlit(")");
    reveal_strlit("|");
    assert(s.subrange(i, i + 1) =~= seq![s[i]]);
    if s[i] == '&' {
        assert(seq![s[i]] =~= "&"@);
        lemma_find_first(s[i], 0);
    }
    if s[i] == '@' {
        assert(seq![s[i]] =~= "@"@);
        lemma_find_first(s[i], 1);
    }
    if s[i] == '!' {
        assert(seq![s[i]] =~= "!"@);
        lemma_find_first(s[i], 2);
    }
    if s[i] == '{' {
        assert(seq![s[i]] =~= "{"@);
        lemma_find_first(s[i], 3);
    }
    if s[i] == '}' {
        assert(seq![s[i]] =~= "}"@);
        lemma_find_first(s[i], 4);
    }
    if s[i] == '[' {
        assert(seq![s[i]] =~= "["@);
        lemma_find_first(s[i], 5);
    }
    if s[i] == ']' {
        assert(seq![s[i]] =~= "]"@);
        lemma_find_first(s[i], 6);
    }
    if s[i] == ':' {
        assert(seq![s[i]] =~= ":"@);
        lemma_find_first(s[i], 7);
    }
    if s[i] == '$' {
        assert(seq![s[i]] =~= "$"@);
        lemma_find_first(s[i], 8);
    }
    if s[i] == '=' {
        assert(seq![s[i]] =~= "="@);
        lemma_find_first(s[i], 10);
    }
    if s[i] == '(' {
        assert(seq![s[i]] =~= "("@);
        lemma_find_first(s[i], 11);
    }
    if s[i] == ')' {
        assert(seq![s[i]] =~= ")"@);
        lemma_find_first(s[i], 12);
    }
    if s[i] == '|' {
        assert(seq![s[i]] =~= "|"@);
        lemma_find_first(s[i], 13);
    }
    assert(skip(s, i) == i);
}

/// The first entry of the table of punctuators spelled as `c` alone is the
/// one at `k`, when that entry is.
proof fn lemma_find_first(c: char, k: int)
    requires
        0 <= k < PUNCTUATOR_COUNT,
        spec_punctuator_entry(k as usize).0 == seq![c],
    ensures
        find_punctuator(seq![c], 0) == Some(k),
{
    reveal_strlit("&");
    reveal_strlit("@");
    reveal_strlit("!");
    reveal_strlit("{");
    reveal_strlit("}");
    reveal_strlit("[");
    reveal_strlit("]");
    reveal_strlit(":");
    reveal_strlit("$");
    reveal_strlit("...");
    reveal_strlit("=");
    reveal_strlit("(");
    reveal_strlit(")");
    reveal_strlit("|");
    assert forall|j: int| 0 <= j < k implies #[trigger] spec_punctuator_entry(j as usize).0 != seq![c] by {
        if spec_punctuator_entry(j as usize).0 == seq![c] {
            assert(spec_punctuator_entry(j as usize).0[0] == c);
            assert(spec_punctuator_entry(k as usize).0[0] == c);
        }
    }
    lemma_find_from(c, 0, k);
}

proof fn lemma_find_from(c: char, index: int, k: int)
    requires
        0 <= index <= k < PUNCTUATOR_COUNT,
        spec_punctuator_entry(k as usize).0 == seq![c],
        forall|j: int| index <= j < k ==> #[trigger] spec_punctuator_entry(j as usize).0 != seq![c],
    ensures
        find_punctuator(seq![c], index) == Some(k),
    decreases k - index,
{
    if index < k {
        lemma_find_from(c, index + 1, k);
    }
}

/// Three dots where a token starts are one token.
pub proof fn law_dots_token(s: Seq<char>, i: int)
    requires
        0 <= i && i + 3 <= s.len(),
        s[i] == '.' && s[i + 1] == '.' && s[i + 2] == '.',
    ensures
        next_token(s, i) == (TokenKind::Dots, i + 3),
        tokens_from(s, i).len() > 0,
        tokens_from(s, i)[0] == (TokenKind::Dots, i, i + 3),
{
    reveal_strlit("...");
    reveal_strlit("&");
    reveal_strlit("@");
    reveal_strlit("!");
    reveal_strlit("{");
    reveal_strlit("}");
    reveal_strlit("[");
    reveal_strlit("]");
    reveal_strlit(":");
    reveal_strlit("$");
    reveal_strlit("=");
    reveal_strlit("(");
    reveal_strlit(")");
    reveal_strlit("|");
    assert(s.subrange(i, i + 1) =~= seq!['.']);
    assert(s.subrange(i, i + 3) =~= "..."@);
    lemma_find_none_other('.', 0);
    assert(skip(s, i) == i);
}

/// White space, line terminators, commas and byte order marks between
/// tokens are passed over.
pub proof fn law_ignored_skipped(s: Seq<char>, i: int)
    requires
        0 <= i < s.len(),
        super::scan::is_ignored(s[i]),
    ensures
        tokens_from(s, i) == tokens_from(s, i + 1),
{
    assert(skip(s, i) == skip(s, i + 1));
}

/// A comment, from `#` to the end of its line, is passed over.
pub proof fn law_comment_skipped(s: Seq<char>, i: int, j: int)
    requires
        0 <= i < j <= s.len(),
        s[i] == '#',
        forall|k: int| i < k < j ==> super::scan::in_class(CharClass::CommentChar, #[trigger] s[k]),
        j == s.len() || !super::scan::in_class(CharClass::CommentChar, s[j]),
    ensures
        tokens_from(s, i) == tokens_from(s, j),
{
    lemma_run_to(s, i + 1, j, CharClass::CommentChar);
    assert(skip(s, i) == skip(s, j));
}

/// Where a number starts: no other kind of token starts there, and its
/// integer part ends at `c`.
proof fn lemma_number_start(s: Seq<char>, i: int, c: int)
    requires
        int_part_at(s, i, c),
        c == s.len() || !is_digit(s[c]),
    ensures
        int_end(s, i) == c,
        !is_name_start(s[i]),
        punctuator_kind(s.subrange(i, i + 1)) is None,
        !(i + 3 <= s.len() && s.subrange(i, i + 3) == "..."@),
        s[i] != '"',
{
    let ch = s[i];
    assert(ch == '-' || is_digit(ch));
    lemma_no_punctuator(ch);
    assert(s.subrange(i, i + 1) =~= seq![ch]);
    if i + 3 <= s.len() && s.subrange(i, i + 3) == "..."@ {
        reveal_strlit("...");
        assert(s.subrange(i, i + 3)[0] == ch);
    }
    let p = if ch == '-' {
        i + 1
    } else {
        i
    };
    if s[p] != '0' {
        lemma_run_to(s, p + 1, c, CharClass::Digit);
    }
}

/// A run of `class` characters from `a` stops at `j` at the latest when
/// the character at `j` is not of the class.
proof fn lemma_run_le(s: Seq<char>, a: int, j: int, class: CharClass)
    requires
        0 <= a <= j <= s.len(),
        j == s.len() || !super::scan::in_class(class, s[j]),
    ensures
        a <= run(s, a, class) <= j,
    decreases j - a,
{
    if a < j && super::scan::in_class(class, s[a]) {
        lemma_run_le(s, a + 1, j, class);
    }
}

/// The end of the run of `class` characters from `a` is `j` when all
/// characters from `a` up to `j` are of the class and the one at `j` is not.
proof fn lemma_run_to(s: Seq<char>, a: int, j: int, class: CharClass)
    requires
        0 <= a <= j <= s.len(),
        forall|k: int| a <= k < j ==> super::scan::in_class(class, #[trigger] s[k]),
        j == s.len() || !super::scan::in_class(class, s[j]),
    ensures
        run(s, a, class) == j,
    decreases j - a,
{
    if a < j {
        lemma_run_to(s, a + 1, j, class);
    }
}

/// Neither a minus sign nor a digit is a punctuator.
proof fn lemma_no_punctuator(c: char)
    requires
        c == '-' || is_digit(c),
    ensures
        punctuator_kind(seq![c]) is None,
{
    lemma_find_none(c, 0);
}

proof fn lemma_find_none(c: char, index: int)
    requires
        c == '-' || is_digit(c),
        index >= 0,
    ensures
        find_punctuator(seq![c], index) is None,
    decreases PUNCTUATOR_COUNT - index,
{
    if index < PUNCTUATOR_COUNT {
        reveal_strlit("&");
        reveal_strlit("@");
        reveal_strlit("!");
        reveal_strlit("{");
        reveal_strlit("}");
        reveal_strlit("[");
        reveal_strlit("]");
        reveal_strlit(":");
        reveal_strlit("$");
        reveal_strlit("...");
        reveal_strlit("=");
        reveal_strlit("(");
        reveal_strlit(")");
        reveal_strlit("|");
        let e = spec_punctuator_entry(index as usize).0;
        if e == seq![c] {
            assert(e[0] == c);
        }
        lemma_find_none(c, index + 1);
    }
}

} // verus!
