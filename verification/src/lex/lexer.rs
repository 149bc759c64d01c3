use vstd::prelude::*;

use super::chars::chars_of;
use super::kind::{spec_keyword_entry, spec_punctuator_entry, find_keyword, find_punctuator, TokenKind};
use super::raw::RawToken;
use super::scan::{lemma_next_token, lemma_skip, next_token, scan, skip, tokenize, tokens_from};
use super::source::SourceId;
use super::span::Span;
use crate::ast::types::Spanned;
use super::token::{is_lexed_kind, Token};

verus! {

broadcast use vstd::string::group_string_axioms;

/// How many bytes UTF-8 takes for `c`.
pub open spec fn char_width(c: char) -> int {
    if c <= '\u{7f}' {
        1
    } else if c <= '\u{7ff}' {
        2
    } else if c <= '\u{ffff}' {
        3
    } else {
        4
    }
}

/// The byte offset of the character at index `i` of `s` in UTF-8.
pub open spec fn byte_offset(s: Seq<char>, i: int) -> int
    decreases i,
{
    if i <= 0 || i > s.len() {
        0
    } else {
        byte_offset(s, i - 1) + char_width(s[i - 1])
    }
}

proof fn lemma_byte_offset_bounds(s: Seq<char>, i: int)
    requires
        0 <= i <= s.len(),
    ensures
        i <= byte_offset(s, i) <= 4 * i,
    decreases i,
{
    if i > 0 {
        lemma_byte_offset_bounds(s, i - 1);
    }
}

pub proof fn lemma_byte_offset(s: Seq<char>, i: int, j: int)
    requires
        0 <= i <= j <= s.len(),
    ensures
        i <= byte_offset(s, i) <= byte_offset(s, j) <= 4 * j,
    decreases j,
{
    lemma_byte_offset_bounds(s, i);
    lemma_byte_offset_bounds(s, j);
    if i < j {
        lemma_byte_offset(s, i, j - 1);
    }
}

/// A token of `s` as the lexer hands it out: its kind, its text and its
/// byte span in the source `source_id`.
pub open spec fn lexed_token(source_id: SourceId, s: Seq<char>, t: (TokenKind, int, int)) -> (
    TokenKind,
    Seq<char>,
    Span,
) {
    (
        t.0,
        s.subrange(t.1, t.2),
        Span {
            source_id,
            start: byte_offset(s, t.1) as usize,
            end: byte_offset(s, t.2) as usize,
        },
    )
}

/// The tokens of the source text `s` registered as `source_id`.
pub open spec fn lexed(source_id: SourceId, s: Seq<char>) -> Seq<(TokenKind, Seq<char>, Span)> {
    tokenize(s).map_values(|t: (TokenKind, int, int)| lexed_token(source_id, s, t))
}

proof fn lemma_entries()
    ensures
        forall|i: int| 0 <= i < 38 ==> (#[trigger] spec_keyword_entry(i as usize)).1.spec_is_name(),
        forall|i: int| 0 <= i < 14 ==> (#[trigger] spec_punctuator_entry(i as usize)).1.spec_is_punctuator(),
{
    assert forall|i: int| 0 <= i < 38 implies (#[trigger] spec_keyword_entry(i as usize)).1.spec_is_name() by {
        assert(0 <= i < 38);
    }
    assert forall|i: int| 0 <= i < 14 implies (#[trigger] spec_punctuator_entry(i as usize)).1.spec_is_punctuator() by {
        assert(0 <= i < 14);
    }
}

proof fn lemma_find_keyword(text: Seq<char>, i: int)
    requires
        0 <= i,
    ensures
        find_keyword(text, i) matches Some(k) ==> 0 <= k < 38,
    decreases 38 - i,
{
    if i < 38 && spec_keyword_entry(i as usize).0 != text {
        lemma_find_keyword(text, i + 1);
    }
}

proof fn lemma_find_punctuator(text: Seq<char>, i: int)
    requires
        0 <= i,
    ensures
        find_punctuator(text, i) matches Some(k) ==> 0 <= k < 14,
    decreases 14 - i,
{
    if i < 14 && spec_punctuator_entry(i as usize).0 != text {
        lemma_find_punctuator(text, i + 1);
    }
}

pub proof fn lemma_next_token_kind(s: Seq<char>, i: int)
    requires
        0 <= i < s.len(),
    ensures
        is_lexed_kind(next_token(s, i).0),
{
    lemma_entries();
    let e = super::scan::run(s, i + 1, super::scan::CharClass::NameContinue);
    lemma_find_keyword(s.subrange(i, e), 0);
    lemma_find_punctuator(s.subrange(i, i + 1), 0);
}

/// Every token of `tokens_from(s, i)` lies within `s`, after `i`, and has a
/// kind that the lexer hands out.
pub proof fn lemma_tokens_from(s: Seq<char>, i: int)
    requires
        0 <= i <= s.len(),
    ensures
        forall|k: int|
            0 <= k < tokens_from(s, i).len() ==> {
                let t = #[trigger] tokens_from(s, i)[k];
                &&& i <= t.1 < t.2 <= s.len()
                &&& is_lexed_kind(t.0)
            },
    decreases s.len() - i,
{
    lemma_skip(s, i);
    let j = skip(s, i);
    if j < s.len() {
        lemma_next_token(s, j);
        lemma_next_token_kind(s, j);
        let end = next_token(s, j).1;
        lemma_tokens_from(s, end);
        let rest = tokens_from(s, end);
        assert(tokens_from(s, i) == seq![(next_token(s, j).0, j, end)] + rest);
        assert forall|k: int| 0 <= k < tokens_from(s, i).len() implies {
            let t = #[trigger] tokens_from(s, i)[k];
            &&& i <= t.1 < t.2 <= s.len()
            &&& is_lexed_kind(t.0)
        } by {
            if k > 0 {
                assert(tokens_from(s, i)[k] == rest[k - 1]);
            }
        }
    }
}

/// The byte offset of every character boundary of `chars`.
pub fn byte_offsets(chars: &[char]) -> (r: Vec<usize>)
    requires
        chars@.len() * 4 <= usize::MAX,
    ensures
        r@.len() == chars@.len() + 1,
        forall|i: int| 0 <= i <= chars@.len() ==> r@[i] == byte_offset(chars@, i),
{
    let mut r: Vec<usize> = Vec::new();
    r.push(0);
    let mut i: usize = 0;
    let mut offset: usize = 0;
    while i < chars.len()
        invariant
            chars@.len() * 4 <= usize::MAX,
            i <= chars@.len(),
            r@.len() == i + 1,
            offset == byte_offset(chars@, i as int),
            forall|k: int| 0 <= k <= i ==> r@[k] == byte_offset(chars@, k),
        decreases chars@.len() - i,
    {
        proof {
            lemma_byte_offset(chars@, i as int, i + 1);
        }
        let c = chars[i];
        let width: usize = if c <= '\u{7f}' {
            1
        } else if c <= '\u{7ff}' {
            2
        } else if c <= '\u{ffff}' {
            3
        } else {
            4
        };
        offset = offset + width;
        i = i + 1;
        r.push(offset);
    }
    r
}

/// The tokens of a source text, handed out one at a time.
pub struct Lexer {
    rest: Vec<Token>,
    last_span: Option<Span>,
}

impl Lexer {
    /// The tokens not handed out yet, in order.
    pub closed spec fn remaining(&self) -> Seq<(TokenKind, Seq<char>, Span)> {
        Seq::new(self.rest@.len(), |i: int| self.rest@[self.rest@.len() - 1 - i]@)
    }

    /// The span of the token handed out last, if any.
    pub closed spec fn last(&self) -> Option<Span> {
        self.last_span
    }

    /// Every token is of the variant that its kind belongs in.
    pub closed spec fn wf(&self) -> bool {
        forall|i: int| 0 <= i < self.rest@.len() ==> (#[trigger] self.rest@[i]).wf()
    }

    /// The next token, without handing it out.
    pub fn peek(&self) -> (r: Option<&Token>)
        ensures
            match r {
                Some(t) => self.remaining().len() > 0 && t@ == self.remaining()[0] && (self.wf()
                    ==> t.wf()),
                None => self.remaining().len() == 0,
            },
    {
        let n = self.rest.len();
        if n == 0 {
            None
        } else {
            Some(&self.rest[n - 1])
        }
    }

    /// Hands out the next token.
    pub fn next(&mut self) -> (r: Option<Token>)
        ensures
            old(self).wf() ==> final(self).wf(),
            match r {
                Some(t) => {
                    &&& old(self).remaining().len() > 0
                    &&& t@ == old(self).remaining()[0]
                    &&& old(self).wf() ==> t.wf()
                    &&& final(self).remaining() == old(self).remaining().drop_first()
                    &&& final(self).last() == Some(t@.2)
                },
                None => {
                    &&& old(self).remaining().len() == 0
                    &&& final(self).remaining() == old(self).remaining()
                    &&& final(self).last() == old(self).last()
                },
            },
    {
        match self.rest.pop() {
            Some(token) => {
                self.last_span = Some(token.span());
                assert(self.remaining() =~= old(self).remaining().drop_first());
                Some(token)
            },
            None => None,
        }
    }

    /// The gap between the last token handed out and the next one, or the
    /// empty span after the last or before the next when there is only one
    /// of them.
    pub open spec fn position(&self) -> Span {
        match (self.last(), self.remaining().len() > 0) {
            (Some(left), true) => Span::spec_between(left, self.remaining()[0].2),
            (Some(left), false) => Span::spec_collapse_to_end(left),
            (None, _) => Span::spec_collapse_to_start(self.remaining()[0].2),
        }
    }

    /// Where the parser stands: see `position`.
    pub fn span(&self) -> (r: Span)
        requires
            self.last() is Some || self.remaining().len() > 0,
        ensures
            r == self.position(),
    {
        match (self.last_span, self.peek()) {
            (Some(left), Some(right)) => Span::between(left, right.span()),
            (Some(left), None) => left.collapse_to_end(),
            (None, Some(right)) => right.span().collapse_to_start(),
            (None, None) => {
                proof {
                    assert(false);
                }
                Span::default_span()
            },
        }
    }
}

/// A lexer stands between the last token handed out and the next one.
impl Spanned for Lexer {
    open spec fn spanned(&self) -> bool {
        self.last() is Some || self.remaining().len() > 0
    }

    open spec fn current_span(&self) -> Span {
        self.position()
    }

    fn span(&mut self) -> (r: Span) {
        Lexer::span(self)
    }
}

/// The lexer over `source`, which is registered as `source_id`.
pub fn lexer(source_id: SourceId, source: &str) -> (r: Lexer)
    requires
        source@.len() * 4 <= usize::MAX,
    ensures
        r.remaining() == lexed(source_id, source@),
        r.last() is None,
        r.wf(),
{
    let chars = chars_of(source);
    let raw = scan(chars.as_slice());
    let offsets = byte_offsets(chars.as_slice());
    let ghost s = source@;
    let ghost toks = tokenize(s);
    proof {
        lemma_tokens_from(s, 0);
    }
    let n = raw.len();
    let mut rest: Vec<Token> = Vec::new();
    let mut k: usize = n;
    while k > 0
        invariant
            k <= n,
            n == raw@.len(),
            n == toks.len(),
            s == source@,
            s == chars@,
            toks == tokenize(s),
            offsets@.len() == s.len() + 1,
            forall|i: int| 0 <= i <= s.len() ==> offsets@[i] == byte_offset(s, i),
            forall|i: int|
                0 <= i < raw@.len() ==> (#[trigger] raw@[i]).0 == toks[i].0 && raw@[i].1
                    == toks[i].1 && raw@[i].2 == toks[i].2,
            forall|i: int|
                0 <= i < toks.len() ==> {
                    let t = #[trigger] toks[i];
                    &&& 0 <= t.1 < t.2 <= s.len()
                    &&& is_lexed_kind(t.0)
                },
            rest@.len() == n - k,
            forall|j: int|
                0 <= j < rest@.len() ==> (#[trigger] rest@[j])@ == lexed_token(
                    source_id,
                    s,
                    toks[n - 1 - j],
                ) && rest@[j].wf(),
        decreases k,
    {
        let (kind, start, end) = raw[k - 1];
        assert(toks[k - 1] == toks[(k - 1) as int]);
        let text = source.substring_char(start, end).to_owned();
        let span = Span { source_id, start: offsets[start], end: offsets[end] };
        let token = Token::from_raw(RawToken { kind, source: text, span });
        rest.push(token);
        k = k - 1;
    }
    let r = Lexer { rest, last_span: None };
    assert(r.remaining() =~= lexed(source_id, s));
    r
}

} // verus!
