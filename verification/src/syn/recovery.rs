use vstd::prelude::*;

use crate::lex::kind::TokenKind;
use crate::lex::token::Token;

use super::kinds::KindSet;

verus! {

/// The tokens that a parser can start with, or that a parser stops at when
/// it skips tokens that it does not expect: the kinds it includes, where a
/// name of any kind counts as a name, except the keyword `on` when
/// `exclude_on` is set.
#[derive(Clone, Copy, Debug)]
pub struct RecoveryPoint {
    pub kinds: KindSet,
    pub exclude_on: bool,
}

/// Whether a token of `kind` is one that `point` stands for.
pub open spec fn accepts(point: RecoveryPoint, kind: TokenKind) -> bool {
    ||| point.kinds@.contains(kind)
    ||| kind.spec_is_name() && point.kinds@.contains(TokenKind::Name) && (!point.exclude_on
        || kind != TokenKind::KeywordOn)
}

impl RecoveryPoint {
    /// The point that stands for tokens of one kind.
    pub open spec fn spec_from_kind(kind: TokenKind) -> RecoveryPoint {
        RecoveryPoint { kinds: KindSet::spec_single(kind), exclude_on: false }
    }

    /// The point that stands for names, but not the keyword `on`.
    pub open spec fn spec_name_unless_on() -> RecoveryPoint {
        RecoveryPoint { kinds: KindSet::spec_single(TokenKind::Name), exclude_on: true }
    }

    /// The point that stands for tokens of one kind.
    pub fn from_kind(kind: TokenKind) -> (r: RecoveryPoint)
        ensures
            r == RecoveryPoint::spec_from_kind(kind),
            r.kinds@ == set![kind],
            !r.exclude_on,
    {
        RecoveryPoint { kinds: KindSet::single(kind), exclude_on: false }
    }

    /// The point that stands for nothing.
    pub fn none() -> (r: RecoveryPoint)
        ensures
            r.kinds@ == Set::<TokenKind>::empty(),
            !r.exclude_on,
            forall|kind: TokenKind| !accepts(r, kind),
    {
        RecoveryPoint { kinds: KindSet::empty(), exclude_on: false }
    }

    /// The point that stands for names, but not the keyword `on`.
    pub fn name_unless_on() -> (r: RecoveryPoint)
        ensures
            r == RecoveryPoint::spec_name_unless_on(),
            r.kinds@ == set![TokenKind::Name],
            r.exclude_on,
    {
        RecoveryPoint { kinds: KindSet::single(TokenKind::Name), exclude_on: true }
    }

    /// The point that stands for what either point stands for. The keyword
    /// `on` stays left out only where each point that takes names leaves it
    /// out.
    pub fn or(self, other: RecoveryPoint) -> (r: RecoveryPoint)
        ensures
            r.kinds@ == self.kinds@.union(other.kinds@),
            r.exclude_on == ((self.exclude_on || other.exclude_on) && (!self.kinds@.contains(
                TokenKind::Name,
            ) || self.exclude_on) && (!other.kinds@.contains(TokenKind::Name)
                || other.exclude_on)),
    {
        let self_names = self.kinds.contains(TokenKind::Name);
        let other_names = other.kinds.contains(TokenKind::Name);
        RecoveryPoint {
            kinds: self.kinds.union(other.kinds),
            exclude_on: (self.exclude_on || other.exclude_on) && (!self_names || self.exclude_on)
                && (!other_names || other.exclude_on),
        }
    }

    /// Whether the point stands for `token`.
    pub fn recognizes(&self, token: &Token) -> (r: bool)
        requires
            token.wf(),
        ensures
            r == accepts(*self, token.raw().kind),
    {
        let kind = token.as_raw_token().kind;
        if self.kinds.contains(kind) {
            true
        } else {
            match token {
                Token::Name(_) => self.kinds.contains(TokenKind::Name) && (!self.exclude_on
                    || kind != TokenKind::KeywordOn),
                _ => {
                    proof {
                        assert(!kind.spec_is_name());
                    }
                    false
                },
            }
        }
    }
}

impl Default for RecoveryPoint {
    fn default() -> (r: RecoveryPoint)
        ensures
            r.kinds@ == Set::<TokenKind>::empty(),
            !r.exclude_on,
    {
        RecoveryPoint::none()
    }
}

} // verus!
