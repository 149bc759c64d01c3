use vstd::prelude::*;

use super::chars::chars_of;
use super::kind::{keyword_kind, keyword_kind_of, punctuator_kind, punctuator_kind_of, TokenKind};
use super::raw::{empty_span, RawToken};

use super::span::Span;

use unindent::unindent;

verus! {

broadcast use vstd::string::group_string_axioms;

/// A token that the lexer could not make sense of.
#[derive(Debug)]
pub struct Error(pub RawToken);

impl Error {
    pub fn span(&self) -> (r: Span)
        ensures
            r == self.0.span,
    {
        self.0.span
    }

    pub fn as_raw_token(&self) -> (r: &RawToken)
        ensures
            r == &self.0,
    {
        &self.0
    }
}

/// A name (or keyword): `[A-Za-z_][A-Za-z0-9_]*`. Names are case-sensitive.
#[derive(Debug)]
pub struct Name(pub RawToken);

impl Name {
    /// The name spelled `source`, with its keyword kind if it is a reserved word.
    pub fn new(source: &str) -> (r: Name)
        ensures
            r.0.kind == keyword_kind(source@),
            r.0.source@ == source@,
            r.0.span == empty_span(),
    {
        let chars = chars_of(source);
        let kind = keyword_kind_of(chars.as_slice(), 0, chars.len());
        assert(chars@.subrange(0, chars@.len() as int) =~= source@);
        RawToken::new(kind, source.to_owned()).into_name()
    }

    pub fn span(&self) -> (r: Span)
        ensures
            r == self.0.span,
    {
        self.0.span
    }

    pub fn as_raw_token(&self) -> (r: &RawToken)
        ensures
            r == &self.0,
    {
        &self.0
    }

    /// The text of this name.
    pub fn as_str(&self) -> (r: &str)
        ensures
            r@ == self.0.source@,
    {
        self.0.source.as_str()
    }
}

impl RawToken {
    fn into_name(self) -> (r: Name)
        ensures
            r.0 == self,
    {
        Name(self)
    }
}

/// A punctuator: `! $ & ( ) ... : = @ [ ] { | }`.
#[derive(Debug)]
pub struct Punctuator(pub RawToken);

impl Punctuator {
    /// The punctuator spelled `source`.
    pub fn new(source: &str) -> (r: Punctuator)
        requires
            punctuator_kind(source@) is Some,
        ensures
            r.0.kind == punctuator_kind(source@)->0,
            r.0.source@ == source@,
            r.0.span == empty_span(),
    {
        let chars = chars_of(source);
        assert(chars@.subrange(0, chars@.len() as int) =~= source@);
        let kind = match punctuator_kind_of(chars.as_slice(), 0, chars.len()) {
            Some(kind) => kind,
            None => TokenKind::Error,
        };
        Punctuator(RawToken::new(kind, source.to_owned()))
    }

    pub fn span(&self) -> (r: Span)
        ensures
            r == self.0.span,
    {
        self.0.span
    }

    pub fn as_raw_token(&self) -> (r: &RawToken)
        ensures
            r == &self.0,
    {
        &self.0
    }
}

/// Why the text of an int value does not make an `i32`.
#[derive(Clone, Copy, Debug, PartialEq, Eq, Structural)]
pub enum IntErrorKind {
    Empty,
    InvalidDigit,
    PosOverflow,
    NegOverflow,
}

pub open spec fn digit_value(c: char) -> int {
    (c as int) - ('0' as int)
}

/// Reading the digits `text[i..]` onto `acc`, left to right, as a value
/// that grows away from zero in the direction `negative`: the first
/// character that is not a digit, or the first digit that leaves the
/// range of `i32`, decides the error.
pub open spec fn read_digits(text: Seq<char>, i: int, acc: int, negative: bool) -> Result<
    int,
    IntErrorKind,
>
    decreases text.len() - i,
{
    if i < 0 || i >= text.len() {
        Ok(acc)
    } else if !('0' <= text[i] && text[i] <= '9') {
        Err(IntErrorKind::InvalidDigit)
    } else {
        let next = if negative {
            acc * 10 - digit_value(text[i])
        } else {
            acc * 10 + digit_value(text[i])
        };
        if next > i32::MAX {
            Err(IntErrorKind::PosOverflow)
        } else if next < i32::MIN {
            Err(IntErrorKind::NegOverflow)
        } else {
            read_digits(text, i + 1, next, negative)
        }
    }
}

/// The `i32` that `text` spells in decimal, with an optional `+` or `-`.
pub open spec fn parse_i32(text: Seq<char>) -> Result<int, IntErrorKind> {
    if text.len() == 0 {
        Err(IntErrorKind::Empty)
    } else if text[0] == '+' || text[0] == '-' {
        if text.len() == 1 {
            Err(IntErrorKind::InvalidDigit)
        } else {
            read_digits(text, 1, 0, text[0] == '-')
        }
    } else {
        read_digits(text, 0, 0, false)
    }
}

/// An int value (literal).
#[derive(Debug)]
pub struct IntValue(pub RawToken);

impl IntValue {
    pub fn span(&self) -> (r: Span)
        ensures
            r == self.0.span,
    {
        self.0.span
    }

    pub fn as_raw_token(&self) -> (r: &RawToken)
        ensures
            r == &self.0,
    {
        &self.0
    }

    /// The value of this literal as an `i32`.
    pub fn to_i32(&self) -> (r: Result<i32, IntErrorKind>)
        ensures
            match r {
                Ok(v) => parse_i32(self.0.source@) == Ok::<int, IntErrorKind>(v as int),
                Err(e) => parse_i32(self.0.source@) == Err::<int, IntErrorKind>(e),
            },
    {
        let chars = chars_of(self.0.source.as_str());
        let n = chars.len();
        if n == 0 {
            return Err(IntErrorKind::Empty);
        }
        let negative = chars[0] == '-';
        let mut i: usize = 0;
        if chars[0] == '+' || chars[0] == '-' {
            if n == 1 {
                return Err(IntErrorKind::InvalidDigit);
            }
            i = 1;
        }
        let mut acc: i32 = 0;
        let ghost text = chars@;
        while i < n
            invariant
                text == chars@,
                text == self.0.source@,
                n == text.len(),
                n > 0,
                i <= n,
                negative == (text[0] == '-'),
                parse_i32(text) == read_digits(text, i as int, acc as int, negative),
            decreases n - i,
        {
            let c = chars[i];
            if !('0' <= c && c <= '9') {
                return Err(IntErrorKind::InvalidDigit);
            }
            let d = (c as u32 - '0' as u32) as i64;
            assert(d == digit_value(c));
            let wide = acc as i64;
            assert(-2147483648 * 10 - 9 <= wide * 10 - d <= 2147483647 * 10 + 9) by (nonlinear_arith)
                requires
                    -2147483648 <= wide <= 2147483647,
                    0 <= d <= 9,
            ;
            let next: i64 = if negative {
                wide * 10 - d
            } else {
                wide * 10 + d
            };
            if next > i32::MAX as i64 {
                return Err(IntErrorKind::PosOverflow);
            }
            if next < i32::MIN as i64 {
                return Err(IntErrorKind::NegOverflow);
            }
            acc = next as i32;
            i = i + 1;
        }
        Ok(acc)
    }
}

/// A float value (literal). Its numeric value is read outside the library.
#[derive(Debug)]
pub struct FloatValue(pub RawToken);

impl FloatValue {
    pub fn span(&self) -> (r: Span)
        ensures
            r == self.0.span,
    {
        self.0.span
    }

    pub fn as_raw_token(&self) -> (r: &RawToken)
        ensures
            r == &self.0,
    {
        &self.0
    }
}

/// A string value (literal), quoted or block.
#[derive(Debug)]
pub struct StringValue(pub RawToken);

impl StringValue {
    pub fn span(&self) -> (r: Span)
        ensures
            r == self.0.span,
    {
        self.0.span
    }

    pub fn as_raw_token(&self) -> (r: &RawToken)
        ensures
            r == &self.0,
    {
        &self.0
    }
}

/// The text of a block string with the common indentation of its lines
/// removed, as the `unindent` crate computes it.
pub uninterp spec fn unindented(text: Seq<char>) -> Seq<char>;

/// Removes the indentation that all lines of `text` after the first share
/// (`unindent::unindent`). The result is named [`unindented`]: it depends on
/// `text` alone.
#[verifier::external_body]
fn unindent_text(text: &str) -> (r: String)
    ensures
        r@ == unindented(text@),
{
    unindent(text)
}

/// Whether a string token's text starts with `"""`.
pub open spec fn is_block_text(text: Seq<char>) -> bool {
    text.len() >= 3 && text[0] == '"' && text[1] == '"' && text[2] == '"'
}

/// The text of a string token as the lexer produces it: quoted, or a block
/// string that also ends in `"""`.
pub open spec fn is_string_text(text: Seq<char>) -> bool {
    text.len() >= 2 && (is_block_text(text) ==> text.len() >= 6)
}

/// `text` with every `\"` read as `"`, left to right.
pub open spec fn unescape_quotes(text: Seq<char>) -> Seq<char>
    decreases text.len(),
{
    if text.len() == 0 {
        Seq::empty()
    } else if text.len() >= 2 && text[0] == '\\' && text[1] == '"' {
        seq!['"'] + unescape_quotes(text.skip(2))
    } else {
        seq![text[0]] + unescape_quotes(text.skip(1))
    }
}

/// What a string token stands for: the unindented body of a block string,
/// or the body of a quoted string with `\"` read as `"`.
pub open spec fn string_contents(text: Seq<char>) -> Seq<char> {
    if is_block_text(text) {
        unindented(text.subrange(3, text.len() - 3))
    } else {
        unescape_quotes(text.subrange(1, text.len() - 1))
    }
}

impl StringValue {
    /// A block string whose body is `value`.
    pub fn block(value: &str) -> (r: StringValue)
        ensures
            r.0.kind == TokenKind::StringValue,
            r.0.source@ == seq!['"', '"', '"'] + value@ + seq!['"', '"', '"'],
            r.0.span == empty_span(),
    {
        let quotes = "\"\"\"";
        proof {
            reveal_strlit("\"\"\"");
        }
        assert(quotes@ =~= seq!['"', '"', '"']);
        let mut source = String::from_str(quotes);
        source.append(value);
        source.append(quotes);
        StringValue(RawToken::new(TokenKind::StringValue, source))
    }

    /// The value that this literal stands for: see [`string_contents`].
    pub fn to_string(&self) -> (r: String)
        requires
            is_string_text(self.0.source@),
        ensures
            r@ == string_contents(self.0.source@),
    {
        let text = self.0.source.as_str();
        let n = text.unicode_len();
        let chars = chars_of(text);
        if n >= 3 && chars[0] == '"' && chars[1] == '"' && chars[2] == '"' {
            return unindent_text(text.substring_char(3, n - 3));
        }
        let ghost body = text@.subrange(1, n - 1);
        let quote = "\"";
        proof {
            reveal_strlit("\"");
        }
        assert(quote@ =~= seq!['"']);
        let mut out = String::new();
        let mut j: usize = 1;
        while j < n - 1
            invariant
                1 <= j <= n - 1,
                n >= 2,
                n == text@.len(),
                chars@ == text@,
                quote@ == seq!['"'],
                body == text@.subrange(1, n - 1),
                out@ + unescape_quotes(text@.subrange(j as int, n - 1)) == unescape_quotes(body),
            decreases n - 1 - j,
        {
            let ghost rest = text@.subrange(j as int, n - 1);
            if j + 2 < n && chars[j] == '\\' && chars[j + 1] == '"' {
                assert(rest.skip(2) =~= text@.subrange(j + 2, n - 1));
                assert(unescape_quotes(rest) == seq!['"'] + unescape_quotes(rest.skip(2)));
                out.append(quote);
                j = j + 2;
            } else {
                assert(rest.skip(1) =~= text@.subrange(j + 1, n - 1));
                assert(unescape_quotes(rest) == seq![rest[0]] + unescape_quotes(rest.skip(1)));
                let one = text.substring_char(j, j + 1);
                assert(one@ =~= seq![rest[0]]);
                out.append(one);
                j = j + 1;
            }
            assert(out@ + unescape_quotes(text@.subrange(j as int, n - 1)) =~= unescape_quotes(body));
        }
        assert(text@.subrange(j as int, n - 1) =~= Seq::<char>::empty());
        assert(out@ =~= unescape_quotes(body));
        out
    }
}

/// A token of a GraphQL document.
#[derive(Debug)]
pub enum Token {
    Error(Error),
    Name(Name),
    Punctuator(Punctuator),
    IntValue(IntValue),
    FloatValue(FloatValue),
    StringValue(StringValue),
}

/// The kinds that the lexer hands out.
pub open spec fn is_lexed_kind(kind: TokenKind) -> bool {
    ||| kind == TokenKind::Error
    ||| kind == TokenKind::IntValue
    ||| kind == TokenKind::FloatValue
    ||| kind == TokenKind::StringValue
    ||| kind.spec_is_name()
    ||| kind.spec_is_punctuator()
}

impl Token {
    /// The raw token inside.
    pub open spec fn raw(&self) -> RawToken {
        match self {
            Token::Error(t) => t.0,
            Token::Name(t) => t.0,
            Token::Punctuator(t) => t.0,
            Token::IntValue(t) => t.0,
            Token::FloatValue(t) => t.0,
            Token::StringValue(t) => t.0,
        }
    }

    /// Kind, text and place.
    pub open spec fn view(&self) -> (TokenKind, Seq<char>, Span) {
        (self.raw().kind, self.raw().source@, self.raw().span)
    }

    /// The variant that a kind belongs in.
    pub open spec fn wf(&self) -> bool {
        match self {
            Token::Error(t) => t.0.kind == TokenKind::Error,
            Token::Name(t) => t.0.kind.spec_is_name(),
            Token::Punctuator(t) => t.0.kind.spec_is_punctuator(),
            Token::IntValue(t) => t.0.kind == TokenKind::IntValue,
            Token::FloatValue(t) => t.0.kind == TokenKind::FloatValue,
            Token::StringValue(t) => t.0.kind == TokenKind::StringValue,
        }
    }

    pub fn as_raw_token(&self) -> (r: &RawToken)
        ensures
            *r == self.raw(),
    {
        match self {
            Token::Error(t) => &t.0,
            Token::Name(t) => &t.0,
            Token::Punctuator(t) => &t.0,
            Token::IntValue(t) => &t.0,
            Token::FloatValue(t) => &t.0,
            Token::StringValue(t) => &t.0,
        }
    }

    pub fn span(&self) -> (r: Span)
        ensures
            r == self.raw().span,
    {
        self.as_raw_token().span
    }

    /// The token for a raw token of a kind that the lexer hands out.
    pub fn from_raw(raw: RawToken) -> (r: Token)
        requires
            is_lexed_kind(raw.kind),
        ensures
            r.raw() == raw,
            r.wf(),
    {
        match raw.kind {
            TokenKind::Error => Token::Error(Error(raw)),
            TokenKind::IntValue => Token::IntValue(IntValue(raw)),
            TokenKind::FloatValue => Token::FloatValue(FloatValue(raw)),
            TokenKind::StringValue => Token::StringValue(StringValue(raw)),
            _ => {
                if raw.kind.is_name() {
                    Token::Name(Name(raw))
                } else {
                    Token::Punctuator(Punctuator(raw))
                }
            },
        }
    }

    /// A copy of this token.
    pub fn duplicate(&self) -> (r: Token)
        ensures
            r@ == self@,
            r.wf() == self.wf(),
    {
        match self {
            Token::Error(t) => Token::Error(Error(t.0.duplicate())),
            Token::Name(t) => Token::Name(Name(t.0.duplicate())),
            Token::Punctuator(t) => Token::Punctuator(Punctuator(t.0.duplicate())),
            Token::IntValue(t) => Token::IntValue(IntValue(t.0.duplicate())),
            Token::FloatValue(t) => Token::FloatValue(FloatValue(t.0.duplicate())),
            Token::StringValue(t) => Token::StringValue(StringValue(t.0.duplicate())),
        }
    }
}

} // verus!
