use vstd::prelude::*;

verus! {

/// The kinds of lexical tokens in a GraphQL document.
///
/// The first group is skipped by the lexer and never handed out; names are
/// refined into keyword kinds and punctuators into one kind per symbol.
#[derive(Clone, Copy, Debug, PartialEq, Eq, Structural)]
pub enum TokenKind {
    ByteOrderMark,
    WhiteSpace,
    LineTerminator,
    Comment,
    Comma,
    Punctuator,
    Name,
    IntValue,
    FloatValue,
    StringValue,
    Error,
    KeywordQuery,
    KeywordMutation,
    KeywordSubscription,
    KeywordOn,
    KeywordFragment,
    KeywordTrue,
    KeywordFalse,
    KeywordNull,
    KeywordSchema,
    KeywordExtend,
    KeywordScalar,
    KeywordType,
    KeywordImplements,
    KeywordInterface,
    KeywordUnion,
    KeywordEnum,
    KeywordInput,
    KeywordDirective,
    KeywordRepeatable,
    KeywordDirectiveQuery,
    KeywordDirectiveMutation,
    KeywordDirectiveSubscription,
    KeywordDirectiveField,
    KeywordDirectiveFragmentDefinition,
    KeywordDirectiveFragmentSpread,
    KeywordDirectiveInlineFragment,
    KeywordDirectiveVariableDefinition,
    KeywordDirectiveSchema,
    KeywordDirectiveScalar,
    KeywordDirectiveObject,
    KeywordDirectiveFieldDefinition,
    KeywordDirectiveArgumentDefinition,
    KeywordDirectiveInterface,
    KeywordDirectiveUnion,
    KeywordDirectiveEnum,
    KeywordDirectiveEnumValue,
    KeywordDirectiveInputObject,
    KeywordDirectiveInputFieldDefinition,
    Ampersand,
    At,
    Bang,
    BraceLeft,
    BraceRight,
    BracketLeft,
    BracketRight,
    Colon,
    Dollar,
    Dots,
    Eq,
    ParenLeft,
    ParenRight,
    Pipe,
}

/// How many reserved words there are.
pub const KEYWORD_COUNT: usize = 38;

/// How many punctuators there are.
pub const PUNCTUATOR_COUNT: usize = 14;

/// The reserved words and the kinds that they lex to.
pub open spec fn spec_keyword_entry(index: usize) -> (Seq<char>, TokenKind) {
    match index {
        0 => ("query"@, TokenKind::KeywordQuery),
        1 => ("mutation"@, TokenKind::KeywordMutation),
        2 => ("subscription"@, TokenKind::KeywordSubscription),
        3 => ("on"@, TokenKind::KeywordOn),
        4 => ("fragment"@, TokenKind::KeywordFragment),
        5 => ("true"@, TokenKind::KeywordTrue),
        6 => ("false"@, TokenKind::KeywordFalse),
        7 => ("null"@, TokenKind::KeywordNull),
        8 => ("schema"@, TokenKind::KeywordSchema),
        9 => ("extend"@, TokenKind::KeywordExtend),
        10 => ("scalar"@, TokenKind::KeywordScalar),
        11 => ("type"@, TokenKind::KeywordType),
        12 => ("implements"@, TokenKind::KeywordImplements),
        13 => ("interface"@, TokenKind::KeywordInterface),
        14 => ("union"@, TokenKind::KeywordUnion),
        15 => ("enum"@, TokenKind::KeywordEnum),
        16 => ("input"@, TokenKind::KeywordInput),
        17 => ("directive"@, TokenKind::KeywordDirective),
        18 => ("repeatable"@, TokenKind::KeywordRepeatable),
        19 => ("QUERY"@, TokenKind::KeywordDirectiveQuery),
        20 => ("MUTATION"@, TokenKind::KeywordDirectiveMutation),
        21 => ("SUBSCRIPTION"@, TokenKind::KeywordDirectiveSubscription),
        22 => ("FIELD"@, TokenKind::KeywordDirectiveField),
        23 => ("FRAGMENT_DEFINITION"@, TokenKind::KeywordDirectiveFragmentDefinition),
        24 => ("FRAGMENT_SPREAD"@, TokenKind::KeywordDirectiveFragmentSpread),
        25 => ("INLINE_FRAGMENT"@, TokenKind::KeywordDirectiveInlineFragment),
        26 => ("VARIABLE_DEFINITION"@, TokenKind::KeywordDirectiveVariableDefinition),
        27 => ("SCHEMA"@, TokenKind::KeywordDirectiveSchema),
        28 => ("SCALAR"@, TokenKind::KeywordDirectiveScalar),
        29 => ("OBJECT"@, TokenKind::KeywordDirectiveObject),
        30 => ("FIELD_DEFINITION"@, TokenKind::KeywordDirectiveFieldDefinition),
        31 => ("ARGUMENT_DEFINITION"@, TokenKind::KeywordDirectiveArgumentDefinition),
        32 => ("INTERFACE"@, TokenKind::KeywordDirectiveInterface),
        33 => ("UNION"@, TokenKind::KeywordDirectiveUnion),
        34 => ("ENUM"@, TokenKind::KeywordDirectiveEnum),
        35 => ("ENUM_VALUE"@, TokenKind::KeywordDirectiveEnumValue),
        36 => ("INPUT_OBJECT"@, TokenKind::KeywordDirectiveInputObject),
        37 => ("INPUT_FIELD_DEFINITION"@, TokenKind::KeywordDirectiveInputFieldDefinition),
        _ => (Seq::empty(), TokenKind::Error),
    }
}

/// The entry at `index` of [`spec_keyword_entry`].
pub fn keyword_entry(index: usize) -> (r: (&'static str, TokenKind))
    requires
        index < KEYWORD_COUNT,
    ensures
        r.0@ == spec_keyword_entry(index).0,
        r.1 == spec_keyword_entry(index).1,
{
    match index {
        0 => ("query", TokenKind::KeywordQuery),
        1 => ("mutation", TokenKind::KeywordMutation),
        2 => ("subscription", TokenKind::KeywordSubscription),
        3 => ("on", TokenKind::KeywordOn),
        4 => ("fragment", TokenKind::KeywordFragment),
        5 => ("true", TokenKind::KeywordTrue),
        6 => ("false", TokenKind::KeywordFalse),
        7 => ("null", TokenKind::KeywordNull),
        8 => ("schema", TokenKind::KeywordSchema),
        9 => ("extend", TokenKind::KeywordExtend),
        10 => ("scalar", TokenKind::KeywordScalar),
        11 => ("type", TokenKind::KeywordType),
        12 => ("implements", TokenKind::KeywordImplements),
        13 => ("interface", TokenKind::KeywordInterface),
        14 => ("union", TokenKind::KeywordUnion),
        15 => ("enum", TokenKind::KeywordEnum),
        16 => ("input", TokenKind::KeywordInput),
        17 => ("directive", TokenKind::KeywordDirective),
        18 => ("repeatable", TokenKind::KeywordRepeatable),
        19 => ("QUERY", TokenKind::KeywordDirectiveQuery),
        20 => ("MUTATION", TokenKind::KeywordDirectiveMutation),
        21 => ("SUBSCRIPTION", TokenKind::KeywordDirectiveSubscription),
        22 => ("FIELD", TokenKind::KeywordDirectiveField),
        23 => ("FRAGMENT_DEFINITION", TokenKind::KeywordDirectiveFragmentDefinition),
        24 => ("FRAGMENT_SPREAD", TokenKind::KeywordDirectiveFragmentSpread),
        25 => ("INLINE_FRAGMENT", TokenKind::KeywordDirectiveInlineFragment),
        26 => ("VARIABLE_DEFINITION", TokenKind::KeywordDirectiveVariableDefinition),
        27 => ("SCHEMA", TokenKind::KeywordDirectiveSchema),
        28 => ("SCALAR", TokenKind::KeywordDirectiveScalar),
        29 => ("OBJECT", TokenKind::KeywordDirectiveObject),
        30 => ("FIELD_DEFINITION", TokenKind::KeywordDirectiveFieldDefinition),
        31 => ("ARGUMENT_DEFINITION", TokenKind::KeywordDirectiveArgumentDefinition),
        32 => ("INTERFACE", TokenKind::KeywordDirectiveInterface),
        33 => ("UNION", TokenKind::KeywordDirectiveUnion),
        34 => ("ENUM", TokenKind::KeywordDirectiveEnum),
        35 => ("ENUM_VALUE", TokenKind::KeywordDirectiveEnumValue),
        36 => ("INPUT_OBJECT", TokenKind::KeywordDirectiveInputObject),
        _ => ("INPUT_FIELD_DEFINITION", TokenKind::KeywordDirectiveInputFieldDefinition),
    }
}

/// The punctuators and their kinds.
pub open spec fn spec_punctuator_entry(index: usize) -> (Seq<char>, TokenKind) {
    match index {
        0 => ("&"@, TokenKind::Ampersand),
        1 => ("@"@, TokenKind::At),
        2 => ("!"@, TokenKind::Bang),
        3 => ("{"@, TokenKind::BraceLeft),
        4 => ("}"@, TokenKind::BraceRight),
        5 => ("["@, TokenKind::BracketLeft),
        6 => ("]"@, TokenKind::BracketRight),
        7 => (":"@, TokenKind::Colon),
        8 => ("$"@, TokenKind::Dollar),
        9 => ("..."@, TokenKind::Dots),
        10 => ("="@, TokenKind::Eq),
        11 => ("("@, TokenKind::ParenLeft),
        12 => (")"@, TokenKind::ParenRight),
        13 => ("|"@, TokenKind::Pipe),
        _ => (Seq::empty(), TokenKind::Error),
    }
}

/// The entry at `index` of [`spec_punctuator_entry`].
pub fn punctuator_entry(index: usize) -> (r: (&'static str, TokenKind))
    requires
        index < PUNCTUATOR_COUNT,
    ensures
        r.0@ == spec_punctuator_entry(index).0,
        r.1 == spec_punctuator_entry(index).1,
{
    match index {
        0 => ("&", TokenKind::Ampersand),
        1 => ("@", TokenKind::At),
        2 => ("!", TokenKind::Bang),
        3 => ("{", TokenKind::BraceLeft),
        4 => ("}", TokenKind::BraceRight),
        5 => ("[", TokenKind::BracketLeft),
        6 => ("]", TokenKind::BracketRight),
        7 => (":", TokenKind::Colon),
        8 => ("$", TokenKind::Dollar),
        9 => ("...", TokenKind::Dots),
        10 => ("=", TokenKind::Eq),
        11 => ("(", TokenKind::ParenLeft),
        12 => (")", TokenKind::ParenRight),
        _ => ("|", TokenKind::Pipe),
    }
}

/// The index of the first entry from `index` on whose spelling is `text`.
pub open spec fn find_keyword(text: Seq<char>, index: int) -> Option<int>
    decreases KEYWORD_COUNT - index,
{
    if index < 0 || index >= KEYWORD_COUNT {
        None
    } else if spec_keyword_entry(index as usize).0 == text {
        Some(index)
    } else {
        find_keyword(text, index + 1)
    }
}

/// The index of the first punctuator entry from `index` on spelled `text`.
pub open spec fn find_punctuator(text: Seq<char>, index: int) -> Option<int>
    decreases PUNCTUATOR_COUNT - index,
{
    if index < 0 || index >= PUNCTUATOR_COUNT {
        None
    } else if spec_punctuator_entry(index as usize).0 == text {
        Some(index)
    } else {
        find_punctuator(text, index + 1)
    }
}

/// The kind that a name with the text `text` gets: a keyword kind for each
/// reserved word, [`TokenKind::Name`] otherwise.
pub open spec fn keyword_kind(text: Seq<char>) -> TokenKind {
    match find_keyword(text, 0) {
        Some(i) => spec_keyword_entry(i as usize).1,
        None => TokenKind::Name,
    }
}

/// The kind of the punctuator spelled `text`, if `text` is one.
pub open spec fn punctuator_kind(text: Seq<char>) -> Option<TokenKind> {
    match find_punctuator(text, 0) {
        Some(i) => Some(spec_punctuator_entry(i as usize).1),
        None => None,
    }
}

impl TokenKind {
    /// Names and keywords.
    pub open spec fn spec_is_name(self) -> bool {
        match self {
            TokenKind::Name
            | TokenKind::KeywordQuery
            | TokenKind::KeywordMutation
            | TokenKind::KeywordSubscription
            | TokenKind::KeywordOn
            | TokenKind::KeywordFragment
            | TokenKind::KeywordTrue
            | TokenKind::KeywordFalse
            | TokenKind::KeywordNull
            | TokenKind::KeywordSchema
            | TokenKind::KeywordExtend
            | TokenKind::KeywordScalar
            | TokenKind::KeywordType
            | TokenKind::KeywordImplements
            | TokenKind::KeywordInterface
            | TokenKind::KeywordUnion
            | TokenKind::KeywordEnum
            | TokenKind::KeywordInput
            | TokenKind::KeywordDirective
            | TokenKind::KeywordRepeatable
            | TokenKind::KeywordDirectiveQuery
            | TokenKind::KeywordDirectiveMutation
            | TokenKind::KeywordDirectiveSubscription
            | TokenKind::KeywordDirectiveField
            | TokenKind::KeywordDirectiveFragmentDefinition
            | TokenKind::KeywordDirectiveFragmentSpread
            | TokenKind::KeywordDirectiveInlineFragment
            | TokenKind::KeywordDirectiveVariableDefinition
            | TokenKind::KeywordDirectiveSchema
            | TokenKind::KeywordDirectiveScalar
            | TokenKind::KeywordDirectiveObject
            | TokenKind::KeywordDirectiveFieldDefinition
            | TokenKind::KeywordDirectiveArgumentDefinition
            | TokenKind::KeywordDirectiveInterface
            | TokenKind::KeywordDirectiveUnion
            | TokenKind::KeywordDirectiveEnum
            | TokenKind::KeywordDirectiveEnumValue
            | TokenKind::KeywordDirectiveInputObject
            | TokenKind::KeywordDirectiveInputFieldDefinition => true,
            _ => false,
        }
    }

    /// Punctuator kinds.
    pub open spec fn spec_is_punctuator(self) -> bool {
        match self {
            TokenKind::Punctuator
            | TokenKind::Ampersand
            | TokenKind::At
            | TokenKind::Bang
            | TokenKind::BraceLeft
            | TokenKind::BraceRight
            | TokenKind::BracketLeft
            | TokenKind::BracketRight
            | TokenKind::Colon
            | TokenKind::Dollar
            | TokenKind::Dots
            | TokenKind::Eq
            | TokenKind::ParenLeft
            | TokenKind::ParenRight
            | TokenKind::Pipe => true,
            _ => false,
        }
    }

    /// Whether this is the kind of a name: [`TokenKind::Name`] or a keyword.
    #[verifier::when_used_as_spec(spec_is_name)]
    pub fn is_name(self) -> (r: bool)
        ensures
            r == self.spec_is_name(),
    {
        match self {
            TokenKind::Name
            | TokenKind::KeywordQuery
            | TokenKind::KeywordMutation
            | TokenKind::KeywordSubscription
            | TokenKind::KeywordOn
            | TokenKind::KeywordFragment
            | TokenKind::KeywordTrue
            | TokenKind::KeywordFalse
            | TokenKind::KeywordNull
            | TokenKind::KeywordSchema
            | TokenKind::KeywordExtend
            | TokenKind::KeywordScalar
            | TokenKind::KeywordType
            | TokenKind::KeywordImplements
            | TokenKind::KeywordInterface
            | TokenKind::KeywordUnion
            | TokenKind::KeywordEnum
            | TokenKind::KeywordInput
            | TokenKind::KeywordDirective
            | TokenKind::KeywordRepeatable
            | TokenKind::KeywordDirectiveQuery
            | TokenKind::KeywordDirectiveMutation
            | TokenKind::KeywordDirectiveSubscription
            | TokenKind::KeywordDirectiveField
            | TokenKind::KeywordDirectiveFragmentDefinition
            | TokenKind::KeywordDirectiveFragmentSpread
            | TokenKind::KeywordDirectiveInlineFragment
            | TokenKind::KeywordDirectiveVariableDefinition
            | TokenKind::KeywordDirectiveSchema
            | TokenKind::KeywordDirectiveScalar
            | TokenKind::KeywordDirectiveObject
            | TokenKind::KeywordDirectiveFieldDefinition
            | TokenKind::KeywordDirectiveArgumentDefinition
            | TokenKind::KeywordDirectiveInterface
            | TokenKind::KeywordDirectiveUnion
            | TokenKind::KeywordDirectiveEnum
            | TokenKind::KeywordDirectiveEnumValue
            | TokenKind::KeywordDirectiveInputObject
            | TokenKind::KeywordDirectiveInputFieldDefinition => true,
            _ => false,
        }
    }

    /// Whether this is the kind of a punctuator.
    #[verifier::when_used_as_spec(spec_is_punctuator)]
    pub fn is_punctuator(self) -> (r: bool)
        ensures
            r == self.spec_is_punctuator(),
    {
        match self {
            TokenKind::Punctuator
            | TokenKind::Ampersand
            | TokenKind::At
            | TokenKind::Bang
            | TokenKind::BraceLeft
            | TokenKind::BraceRight
            | TokenKind::BracketLeft
            | TokenKind::BracketRight
            | TokenKind::Colon
            | TokenKind::Dollar
            | TokenKind::Dots
            | TokenKind::Eq
            | TokenKind::ParenLeft
            | TokenKind::ParenRight
            | TokenKind::Pipe => true,
            _ => false,
        }
    }
}

/// Whether the characters `chars[start..end]` spell `word`.
pub fn spells(chars: &[char], start: usize, end: usize, word: &str) -> (r: bool)
    requires
        start <= end <= chars@.len(),
    ensures
        r == (chars@.subrange(start as int, end as int) == word@),
{
    let n = word.unicode_len();
    if end - start != n {
        return false;
    }
    let mut i: usize = 0;
    while i < n
        invariant
            i <= n,
            n == word@.len(),
            end - start == n,
            start <= end <= chars@.len(),
            forall|j: int| 0 <= j < i ==> chars@[start + j] == word@[j],
        decreases n - i,
    {
        if chars[start + i] != word.get_char(i) {
            assert(chars@.subrange(start as int, end as int)[i as int] != word@[i as int]);
            return false;
        }
        i = i + 1;
    }
    assert(chars@.subrange(start as int, end as int) =~= word@);
    true
}

/// The kind of the name spelled by `chars[start..end]`: see [`keyword_kind`].
pub fn keyword_kind_of(chars: &[char], start: usize, end: usize) -> (r: TokenKind)
    requires
        start <= end <= chars@.len(),
    ensures
        r == keyword_kind(chars@.subrange(start as int, end as int)),
{
    let ghost text = chars@.subrange(start as int, end as int);
    let mut i: usize = 0;
    while i < KEYWORD_COUNT
        invariant
            i <= KEYWORD_COUNT,
            start <= end <= chars@.len(),
            text == chars@.subrange(start as int, end as int),
            find_keyword(text, 0) == find_keyword(text, i as int),
        decreases KEYWORD_COUNT - i,
    {
        let (word, kind) = keyword_entry(i);
        if spells(chars, start, end, word) {
            return kind;
        }
        i = i + 1;
    }
    TokenKind::Name
}

/// The kind of the punctuator spelled by `chars[start..end]`, if any.
pub fn punctuator_kind_of(chars: &[char], start: usize, end: usize) -> (r: Option<TokenKind>)
    requires
        start <= end <= chars@.len(),
    ensures
        r == punctuator_kind(chars@.subrange(start as int, end as int)),
{
    let ghost text = chars@.subrange(start as int, end as int);
    let mut i: usize = 0;
    while i < PUNCTUATOR_COUNT
        invariant
            i <= PUNCTUATOR_COUNT,
            start <= end <= chars@.len(),
            text == chars@.subrange(start as int, end as int),
            find_punctuator(text, 0) == find_punctuator(text, i as int),
        decreases PUNCTUATOR_COUNT - i,
    {
        let (word, kind) = punctuator_entry(i);
        if spells(chars, start, end, word) {
            return Some(kind);
        }
        i = i + 1;
    }
    None
}

} // verus!
