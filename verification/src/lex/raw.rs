use vstd::prelude::*;

use super::kind::TokenKind;
use super::source::SourceId;
use super::span::Span;

verus! {

/// The span that a token has when it was not read from a source.
pub open spec fn empty_span() -> Span {
    Span { source_id: SourceId(0), start: 0, end: 0 }
}

/// A token as the lexer produces it: its kind, its text and where it stands.
#[derive(Debug)]
pub struct RawToken {
    pub kind: TokenKind,
    pub source: String,
    pub span: Span,
}

impl RawToken {
    /// A token of `kind` spelled `source` that stands nowhere.
    pub fn new(kind: TokenKind, source: String) -> (r: RawToken)
        ensures
            r.kind == kind,
            r.source@ == source@,
            r.span == empty_span(),
    {
        RawToken { kind, source, span: Span { source_id: SourceId(0), start: 0, end: 0 } }
    }

    /// Whether two tokens have the same kind and the same text, wherever
    /// they stand.
    pub fn congruent(&self, other: &Self) -> (r: bool)
        ensures
            r == (self.kind == other.kind && self.source@ == other.source@),
    {
        self.kind == other.kind && self.source == other.source
    }

    /// A copy of this token.
    pub fn duplicate(&self) -> (r: RawToken)
        ensures
            r.kind == self.kind,
            r.source@ == self.source@,
            r.span == self.span,
    {
        RawToken { kind: self.kind, source: self.source.clone(), span: self.span }
    }
}

} // verus!
