use vstd::prelude::*;

use crate::lex::kind::TokenKind;
use crate::lex::raw::RawToken;
use crate::lex::Span;
use crate::lex::token::{FloatValue, IntValue, Name, Punctuator, StringValue, Token};

use super::recovery::RecoveryPoint;
use super::stream::{Error, Stream};

verus! {

/// `new` is `old` after reading its next token and nothing else.
pub open spec fn took(old: Stream, new: Stream) -> bool {
    &&& new.wf()
    &&& old.len() > 0
    &&& new.remaining() == old.remaining().drop_first()
    &&& new.started()
    &&& new.skipped() == old.skipped()
    &&& new.last_read() == Some(old.remaining()[0].0)
    &&& new.origin() == old.origin()
    &&& new.read_log() == old.read_log() + seq![old.remaining()[0].2]
}

/// What reading one token gives: the token when the point stands for it,
/// and else an error that leaves the stream as it was.
pub open spec fn token_read<T>(old: Stream, new: Stream, point: RecoveryPoint, r: Result<T, Error>) -> bool {
    &&& (r is Ok) == old.at(point)
    &&& r is Ok ==> took(old, new)
    &&& r is Err ==> new == old && r == Err::<T, Error>(Error::Expected(point))
}

/// A raw token as the stream sees it: its kind, text and span.
pub open spec fn raw_view(t: RawToken) -> (TokenKind, Seq<char>, Span) {
    (t.kind, t.source@, t.span)
}

/// Reads a name.
pub fn name(s: &mut Stream) -> (r: Result<Name, Error>)
    requires
        old(s).wf(),
    ensures
        token_read(*old(s), *final(s), RecoveryPoint::spec_from_kind(TokenKind::Name), r),
        r matches Ok(t) ==> raw_view(t.0) == old(s).remaining()[0],
{
    let point = RecoveryPoint::from_kind(TokenKind::Name);
    if !s.recognize(point) {
        return Err(Error::Expected(point));
    }
    match s.take() {
        Some(Token::Name(token)) => Ok(token),
        _ => Err(Error::Expected(point)),
    }
}

/// Reads a name other than the keyword `on`.
pub fn name_unless_on(s: &mut Stream) -> (r: Result<Name, Error>)
    requires
        old(s).wf(),
    ensures
        token_read(*old(s), *final(s), RecoveryPoint::spec_name_unless_on(), r),
        r matches Ok(t) ==> raw_view(t.0) == old(s).remaining()[0],
{
    let point = RecoveryPoint::name_unless_on();
    if !s.recognize(point) {
        return Err(Error::Expected(point));
    }
    match s.take() {
        Some(Token::Name(token)) => Ok(token),
        _ => Err(Error::Expected(point)),
    }
}

/// Reads a keyword of `expected` kind.
pub fn keyword(s: &mut Stream, expected: TokenKind) -> (r: Result<Name, Error>)
    requires
        old(s).wf(),
        expected.spec_is_name(),
    ensures
        token_read(*old(s), *final(s), RecoveryPoint::spec_from_kind(expected), r),
        r matches Ok(t) ==> raw_view(t.0) == old(s).remaining()[0],
{
    let point = RecoveryPoint::from_kind(expected);
    if !s.recognize(point) {
        return Err(Error::Expected(point));
    }
    match s.take() {
        Some(Token::Name(token)) => Ok(token),
        _ => Err(Error::Expected(point)),
    }
}

/// Reads a punctuator of `expected` kind.
pub fn punctuator(s: &mut Stream, expected: TokenKind) -> (r: Result<Punctuator, Error>)
    requires
        old(s).wf(),
        expected.spec_is_punctuator(),
    ensures
        token_read(*old(s), *final(s), RecoveryPoint::spec_from_kind(expected), r),
        r matches Ok(t) ==> raw_view(t.0) == old(s).remaining()[0],
{
    let point = RecoveryPoint::from_kind(expected);
    if !s.recognize(point) {
        return Err(Error::Expected(point));
    }
    match s.take() {
        Some(Token::Punctuator(token)) => Ok(token),
        _ => Err(Error::Expected(point)),
    }
}

/// Reads an integer value.
pub fn int_value(s: &mut Stream) -> (r: Result<IntValue, Error>)
    requires
        old(s).wf(),
    ensures
        token_read(*old(s), *final(s), RecoveryPoint::spec_from_kind(TokenKind::IntValue), r),
        r matches Ok(t) ==> raw_view(t.0) == old(s).remaining()[0],
{
    let point = RecoveryPoint::from_kind(TokenKind::IntValue);
    if !s.recognize(point) {
        return Err(Error::Expected(point));
    }
    match s.take() {
        Some(Token::IntValue(token)) => Ok(token),
        _ => Err(Error::Expected(point)),
    }
}

/// Reads a float value.
pub fn float_value(s: &mut Stream) -> (r: Result<FloatValue, Error>)
    requires
        old(s).wf(),
    ensures
        token_read(*old(s), *final(s), RecoveryPoint::spec_from_kind(TokenKind::FloatValue), r),
        r matches Ok(t) ==> raw_view(t.0) == old(s).remaining()[0],
{
    let point = RecoveryPoint::from_kind(TokenKind::FloatValue);
    if !s.recognize(point) {
        return Err(Error::Expected(point));
    }
    match s.take() {
        Some(Token::FloatValue(token)) => Ok(token),
        _ => Err(Error::Expected(point)),
    }
}

/// Reads a string value.
pub fn string_value(s: &mut Stream) -> (r: Result<StringValue, Error>)
    requires
        old(s).wf(),
    ensures
        token_read(*old(s), *final(s), RecoveryPoint::spec_from_kind(TokenKind::StringValue), r),
        r matches Ok(t) ==> raw_view(t.0) == old(s).remaining()[0],
{
    let point = RecoveryPoint::from_kind(TokenKind::StringValue);
    if !s.recognize(point) {
        return Err(Error::Expected(point));
    }
    match s.take() {
        Some(Token::StringValue(token)) => Ok(token),
        _ => Err(Error::Expected(point)),
    }
}

} // verus!
