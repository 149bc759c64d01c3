use vstd::prelude::*;

use crate::lex::kind::TokenKind;

verus! {

/// The place of each kind in the order of declaration.
pub open spec fn kind_index(kind: TokenKind) -> u64 {
    match kind {
        TokenKind::ByteOrderMark => 0,
        TokenKind::WhiteSpace => 1,
        TokenKind::LineTerminator => 2,
        TokenKind::Comment => 3,
        TokenKind::Comma => 4,
        TokenKind::Punctuator => 5,
        TokenKind::Name => 6,
        TokenKind::IntValue => 7,
        TokenKind::FloatValue => 8,
        TokenKind::StringValue => 9,
        TokenKind::Error => 10,
        TokenKind::KeywordQuery => 11,
        TokenKind::KeywordMutation => 12,
        TokenKind::KeywordSubscription => 13,
        TokenKind::KeywordOn => 14,
        TokenKind::KeywordFragment => 15,
        TokenKind::KeywordTrue => 16,
        TokenKind::KeywordFalse => 17,
        TokenKind::KeywordNull => 18,
        TokenKind::KeywordSchema => 19,
        TokenKind::KeywordExtend => 20,
        TokenKind::KeywordScalar => 21,
        TokenKind::KeywordType => 22,
        TokenKind::KeywordImplements => 23,
        TokenKind::KeywordInterface => 24,
        TokenKind::KeywordUnion => 25,
        TokenKind::KeywordEnum => 26,
        TokenKind::KeywordInput => 27,
        TokenKind::KeywordDirective => 28,
        TokenKind::KeywordRepeatable => 29,
        TokenKind::KeywordDirectiveQuery => 30,
        TokenKind::KeywordDirectiveMutation => 31,
        TokenKind::KeywordDirectiveSubscription => 32,
        TokenKind::KeywordDirectiveField => 33,
        TokenKind::KeywordDirectiveFragmentDefinition => 34,
        TokenKind::KeywordDirectiveFragmentSpread => 35,
        TokenKind::KeywordDirectiveInlineFragment => 36,
        TokenKind::KeywordDirectiveVariableDefinition => 37,
        TokenKind::KeywordDirectiveSchema => 38,
        TokenKind::KeywordDirectiveScalar => 39,
        TokenKind::KeywordDirectiveObject => 40,
        TokenKind::KeywordDirectiveFieldDefinition => 41,
        TokenKind::KeywordDirectiveArgumentDefinition => 42,
        TokenKind::KeywordDirectiveInterface => 43,
        TokenKind::KeywordDirectiveUnion => 44,
        TokenKind::KeywordDirectiveEnum => 45,
        TokenKind::KeywordDirectiveEnumValue => 46,
        TokenKind::KeywordDirectiveInputObject => 47,
        TokenKind::KeywordDirectiveInputFieldDefinition => 48,
        TokenKind::Ampersand => 49,
        TokenKind::At => 50,
        TokenKind::Bang => 51,
        TokenKind::BraceLeft => 52,
        TokenKind::BraceRight => 53,
        TokenKind::BracketLeft => 54,
        TokenKind::BracketRight => 55,
        TokenKind::Colon => 56,
        TokenKind::Dollar => 57,
        TokenKind::Dots => 58,
        TokenKind::Eq => 59,
        TokenKind::ParenLeft => 60,
        TokenKind::ParenRight => 61,
        TokenKind::Pipe => 62,
    }
}

/// The place of a kind in the order of declaration.
fn index_of(kind: TokenKind) -> (r: u64)
    ensures
        r == kind_index(kind),
{
    match kind {
        TokenKind::ByteOrderMark => 0,
        TokenKind::WhiteSpace => 1,
        TokenKind::LineTerminator => 2,
        TokenKind::Comment => 3,
        TokenKind::Comma => 4,
        TokenKind::Punctuator => 5,
        TokenKind::Name => 6,
        TokenKind::IntValue => 7,
        TokenKind::FloatValue => 8,
        TokenKind::StringValue => 9,
        TokenKind::Error => 10,
        TokenKind::KeywordQuery => 11,
        TokenKind::KeywordMutation => 12,
        TokenKind::KeywordSubscription => 13,
        TokenKind::KeywordOn => 14,
        TokenKind::KeywordFragment => 15,
        TokenKind::KeywordTrue => 16,
        TokenKind::KeywordFalse => 17,
        TokenKind::KeywordNull => 18,
        TokenKind::KeywordSchema => 19,
        TokenKind::KeywordExtend => 20,
        TokenKind::KeywordScalar => 21,
        TokenKind::KeywordType => 22,
        TokenKind::KeywordImplements => 23,
        TokenKind::KeywordInterface => 24,
        TokenKind::KeywordUnion => 25,
        TokenKind::KeywordEnum => 26,
        TokenKind::KeywordInput => 27,
        TokenKind::KeywordDirective => 28,
        TokenKind::KeywordRepeatable => 29,
        TokenKind::KeywordDirectiveQuery => 30,
        TokenKind::KeywordDirectiveMutation => 31,
        TokenKind::KeywordDirectiveSubscription => 32,
        TokenKind::KeywordDirectiveField => 33,
        TokenKind::KeywordDirectiveFragmentDefinition => 34,
        TokenKind::KeywordDirectiveFragmentSpread => 35,
        TokenKind::KeywordDirectiveInlineFragment => 36,
        TokenKind::KeywordDirectiveVariableDefinition => 37,
        TokenKind::KeywordDirectiveSchema => 38,
        TokenKind::KeywordDirectiveScalar => 39,
        TokenKind::KeywordDirectiveObject => 40,
        TokenKind::KeywordDirectiveFieldDefinition => 41,
        TokenKind::KeywordDirectiveArgumentDefinition => 42,
        TokenKind::KeywordDirectiveInterface => 43,
        TokenKind::KeywordDirectiveUnion => 44,
        TokenKind::KeywordDirectiveEnum => 45,
        TokenKind::KeywordDirectiveEnumValue => 46,
        TokenKind::KeywordDirectiveInputObject => 47,
        TokenKind::KeywordDirectiveInputFieldDefinition => 48,
        TokenKind::Ampersand => 49,
        TokenKind::At => 50,
        TokenKind::Bang => 51,
        TokenKind::BraceLeft => 52,
        TokenKind::BraceRight => 53,
        TokenKind::BracketLeft => 54,
        TokenKind::BracketRight => 55,
        TokenKind::Colon => 56,
        TokenKind::Dollar => 57,
        TokenKind::Dots => 58,
        TokenKind::Eq => 59,
        TokenKind::ParenLeft => 60,
        TokenKind::ParenRight => 61,
        TokenKind::Pipe => 62,
    }
}

/// Bit `i` of `bits` is set.
pub open spec fn bit_set(bits: u64, i: u64) -> bool {
    (bits >> i) & 1 == 1
}

proof fn lemma_bit_none(i: u64)
    requires
        i < 64,
    ensures
        !bit_set(0, i),
{
    assert((0u64 >> i) & 1 != 1) by (bit_vector)
        requires
            i < 64,
    ;
}

proof fn lemma_bit_single(i: u64, j: u64)
    requires
        i < 64,
        j < 64,
    ensures
        bit_set(1u64 << i, j) == (i == j),
{
    assert((((1u64 << i) >> j) & 1 == 1) == (i == j)) by (bit_vector)
        requires
            i < 64,
            j < 64,
    ;
}

proof fn lemma_bit_or(a: u64, b: u64, i: u64)
    requires
        i < 64,
    ensures
        bit_set(a | b, i) == (bit_set(a, i) || bit_set(b, i)),
{
    assert((((a | b) >> i) & 1 == 1) == (((a >> i) & 1 == 1) || ((b >> i) & 1 == 1))) by (bit_vector)
        requires
            i < 64,
    ;
}

/// A set of token kinds.
#[derive(Clone, Copy, Debug)]
pub struct KindSet {
    bits: u64,
}

impl KindSet {
    /// The kinds in the set.
    pub closed spec fn view(&self) -> Set<TokenKind> {
        Set::new(|kind: TokenKind| bit_set(self.bits, kind_index(kind)))
    }

    /// The set with no kind.
    pub fn empty() -> (r: KindSet)
        ensures
            r@ == Set::<TokenKind>::empty(),
    {
        let r = KindSet { bits: 0 };
        assert forall|kind: TokenKind| !r@.contains(kind) by {
            lemma_bit_none(kind_index(kind));
        }
        assert(r@ =~= Set::<TokenKind>::empty());
        r
    }

    /// The set of one kind.
    pub closed spec fn spec_single(kind: TokenKind) -> KindSet {
        KindSet { bits: 1u64 << kind_index(kind) }
    }

    /// The set of one kind holds that kind alone.
    pub broadcast proof fn lemma_single(kind: TokenKind)
        ensures
            (#[trigger] KindSet::spec_single(kind))@ == set![kind],
    {
        let r = KindSet::spec_single(kind);
        assert forall|k: TokenKind| r@.contains(k) == (k == kind) by {
            lemma_bit_single(kind_index(kind), kind_index(k));
        }
        assert(r@ =~= set![kind]);
    }

    /// The set of one kind.
    pub fn single(kind: TokenKind) -> (r: KindSet)
        ensures
            r == KindSet::spec_single(kind),
            r@ == set![kind],
    {
        let i = index_of(kind);
        proof {
            KindSet::lemma_single(kind);
        }
        KindSet { bits: 1u64 << i }
    }

    /// The kinds in either set.
    pub fn union(self, other: KindSet) -> (r: KindSet)
        ensures
            r@ == self@.union(other@),
    {
        let r = KindSet { bits: self.bits | other.bits };
        assert forall|k: TokenKind| r@.contains(k) == (self@.contains(k) || other@.contains(k)) by {
            lemma_bit_or(self.bits, other.bits, kind_index(k));
        }
        assert(r@ =~= self@.union(other@));
        r
    }

    /// Whether `kind` is in the set.
    pub fn contains(&self, kind: TokenKind) -> (r: bool)
        ensures
            r == self@.contains(kind),
    {
        (self.bits >> index_of(kind)) & 1 == 1
    }
}

} // verus!
