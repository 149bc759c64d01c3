use vstd::prelude::*;

use crate::ast::context::{List, Shared};
use crate::ast::types::{Alias, Argument, Arguments, BooleanValue, DefaultValue, Directive, Directives, EnumValue, ExecutableDefinition, ExecutableDocument, Field, FragmentDefinition, FragmentSpread, InlineFragment, ListType, ListValue, Missing, MissingToken, NamedType, NonNullType, NullValue, ObjectField, ObjectValue, OperationDefinition, OperationType, Recoverable, Selection, SelectionSet, Type, TypeCondition, Value, Variable, VariableDefinition, VariableDefinitions};
use crate::ast::tokens::{tokens_non_null_type, tokens_argument, tokens_arguments, tokens_boolean_value, tokens_default_value, tokens_directive, tokens_directives, tokens_enum_value, tokens_executable_definition, tokens_executable_document, tokens_field, tokens_fragment_definition, tokens_fragment_spread, tokens_inline_fragment, tokens_list_executable_definition, tokens_list_object_field, tokens_list_selection, tokens_list_shared_argument, tokens_list_shared_directive, tokens_list_shared_value, tokens_list_shared_variable_definition, tokens_list_type, tokens_list_value, tokens_named_type, tokens_null_value, tokens_object_field, tokens_object_value, tokens_operation_definition, tokens_operation_type, tokens_selection, tokens_selection_set, tokens_type, tokens_type_condition, tokens_value, tokens_variable, tokens_variable_definition, tokens_variable_definitions};
use crate::chk::errors::{all_recorded, lemma_all_recorded_add, lemma_all_recorded_one, recorded};
use crate::chk::traverse::{sites_argument, sites_arguments, sites_boolean_value, sites_default_value, sites_directive, sites_directives, sites_enum_value, sites_executable_definition, sites_executable_document, sites_field, sites_fragment_definition, sites_fragment_spread, sites_inline_fragment, sites_list_executable_definition, sites_list_object_field, sites_list_selection, sites_list_shared_argument, sites_list_shared_directive, sites_list_shared_value, sites_list_shared_variable_definition, sites_list_type, sites_list_value, sites_named_type, sites_non_null_type, sites_null_value, sites_object_field, sites_object_value, sites_operation_definition, sites_operation_type, sites_selection, sites_selection_set, sites_type, sites_type_condition, sites_value, sites_variable, sites_variable_definition, sites_variable_definitions, Site};
use crate::diagnostics::{span_count, var_count, DiagnosticKind};
use crate::lex::kind::TokenKind;
use crate::lex::token::Punctuator;
use crate::lex::Span;

use super::combinators::{float_value, int_value, keyword, name, name_unless_on, punctuator, raw_view, string_value};
use super::kinds::KindSet;
use super::recovery::{accepts, RecoveryPoint};
use super::stream::{ends_with, lemma_join_assoc, lemma_join_take, advanced, begins, read_into, Error, Stream};
use super::RECURSION_LIMIT;

verus! {

broadcast use {
    lemma_join_assoc,
    lemma_join_take,
    Seq::add_empty_left,
    Seq::add_empty_right,
    lemma_all_recorded_add, lemma_all_recorded_one, KindSet::lemma_single};

/// The token that a diagnostic of `kind` reports as missing, where the
/// parser stands.
pub(crate) fn missing_unary(s: &Stream, kind: DiagnosticKind) -> (m: MissingToken)
    requires
        s.started(),
        var_count(kind) == 0,
        span_count(kind) == 1,
    ensures
        m.missing == Missing::Unary(kind),
        recorded(Site::Missing(m)),
{
    s.missing(Missing::Unary(kind))
}

/// The closing delimiter that a diagnostic of `kind` reports as missing,
/// where the parser stands, for the opening one at `first`.
pub(crate) fn missing_binary(s: &Stream, kind: DiagnosticKind, first: Span) -> (m: MissingToken)
    requires
        s.started(),
        var_count(kind) == 0,
        span_count(kind) == 2,
    ensures
        m.missing == Missing::Binary(kind, first),
        recorded(Site::Missing(m)),
{
    s.missing(Missing::Binary(kind, first))
}

/// The point for tokens of either kind.
pub(crate) fn either(a: TokenKind, b: TokenKind) -> (r: RecoveryPoint)
    ensures
        r.kinds@ == set![a, b],
        !r.exclude_on,
{
    RecoveryPoint::from_kind(a).or(RecoveryPoint::from_kind(b))
}

/// The tokens that a value starts with.
pub open spec fn value_start_kinds() -> Set<TokenKind> {
    set![TokenKind::IntValue, TokenKind::FloatValue].union(
        set![TokenKind::StringValue, TokenKind::KeywordTrue],
    ).union(set![TokenKind::KeywordFalse, TokenKind::KeywordNull]).union(
        set![TokenKind::Name, TokenKind::Dollar],
    ).union(set![TokenKind::BracketLeft, TokenKind::BraceLeft])
}

/// The recovery point for those kinds.
pub(crate) fn value_start() -> (r: RecoveryPoint)
    ensures
        r.kinds@ == value_start_kinds(),
        !r.exclude_on,
{
    either(TokenKind::IntValue, TokenKind::FloatValue).or(
        either(TokenKind::StringValue, TokenKind::KeywordTrue),
    ).or(either(TokenKind::KeywordFalse, TokenKind::KeywordNull)).or(
        either(TokenKind::Name, TokenKind::Dollar),
    ).or(either(TokenKind::BracketLeft, TokenKind::BraceLeft))
}

/// The tokens that a type starts with.
pub open spec fn type_start_kinds() -> Set<TokenKind> {
    set![TokenKind::Name, TokenKind::BracketLeft]
}

/// The recovery point for those kinds.
pub(crate) fn type_start() -> (r: RecoveryPoint)
    ensures
        r.kinds@ == type_start_kinds(),
        !r.exclude_on,
{
    either(TokenKind::Name, TokenKind::BracketLeft)
}

/// The tokens that a selection starts with.
pub open spec fn selection_start_kinds() -> Set<TokenKind> {
    set![TokenKind::Name, TokenKind::Dots]
}

/// The recovery point for those kinds.
pub(crate) fn selection_start() -> (r: RecoveryPoint)
    ensures
        r.kinds@ == selection_start_kinds(),
        !r.exclude_on,
{
    either(TokenKind::Name, TokenKind::Dots)
}

/// The keywords of the kinds of operations.
pub open spec fn operation_type_start_kinds() -> Set<TokenKind> {
    set![TokenKind::KeywordQuery, TokenKind::KeywordMutation].union(
        set![TokenKind::KeywordSubscription],
    )
}

/// The recovery point for those kinds.
pub(crate) fn operation_type_start() -> (r: RecoveryPoint)
    ensures
        r.kinds@ == operation_type_start_kinds(),
        !r.exclude_on,
{
    either(TokenKind::KeywordQuery, TokenKind::KeywordMutation).or(
        RecoveryPoint::from_kind(TokenKind::KeywordSubscription),
    )
}

/// The tokens that an executable definition starts with.
pub open spec fn executable_definition_start_kinds() -> Set<TokenKind> {
    operation_type_start_kinds().union(set![TokenKind::KeywordFragment, TokenKind::BraceLeft])
}

/// The recovery point for those kinds.
pub(crate) fn executable_definition_start() -> (r: RecoveryPoint)
    ensures
        r.kinds@ == executable_definition_start_kinds(),
        !r.exclude_on,
{
    operation_type_start().or(either(TokenKind::KeywordFragment, TokenKind::BraceLeft))
}

/// The tokens that an inline fragment starts with, after its dots.
pub open spec fn inline_fragment_start_kinds() -> Set<TokenKind> {
    set![TokenKind::KeywordOn, TokenKind::At].union(set![TokenKind::BraceLeft])
}

/// The recovery point for those kinds.
pub(crate) fn inline_fragment_start() -> (r: RecoveryPoint)
    ensures
        r.kinds@ == inline_fragment_start_kinds(),
        !r.exclude_on,
{
    either(TokenKind::KeywordOn, TokenKind::At).or(RecoveryPoint::from_kind(TokenKind::BraceLeft))
}

/// Which value a token of `kind` begins: a literal of its own kind (`true`
/// the true boolean, `false` the false one), an enum value for any other
/// name, a variable for `$`, a list for `[` and an object for `{`.
pub open spec fn value_begun_by(v: Value, kind: TokenKind) -> bool {
    match v {
        Value::IntValue(_) => kind == TokenKind::IntValue,
        Value::FloatValue(_) => kind == TokenKind::FloatValue,
        Value::StringValue(_) => kind == TokenKind::StringValue,
        Value::BooleanValue(b) => if b is True {
            kind == TokenKind::KeywordTrue
        } else {
            kind == TokenKind::KeywordFalse
        },
        Value::NullValue(_) => kind == TokenKind::KeywordNull,
        Value::EnumValue(_) => (kind == TokenKind::Name || kind.spec_is_name()) && kind
            != TokenKind::KeywordTrue && kind != TokenKind::KeywordFalse && kind
            != TokenKind::KeywordNull,
        Value::Variable(_) => kind == TokenKind::Dollar,
        Value::ListValue(_) => kind == TokenKind::BracketLeft,
        Value::ObjectValue(_) => kind == TokenKind::BraceLeft,
    }
}

/// Parses a value, nested `depth` deep at most: a scalar, a variable, a
/// list or an object.
#[verifier::spinoff_prover]
pub fn value(s: &mut Stream, rp: RecoveryPoint, depth: usize) -> (r: Result<Shared<Value>, Error>)
    requires
        old(s).wf(),
    ensures
        advanced(*old(s), *final(s)),
        r matches Err(Error::MaxRecursion(_)) ==> old(s).len() > depth || old(s).len() > RECURSION_LIMIT,
        begins(*old(s), value_start_kinds(), false) ==> !(r matches Err(Error::Expected(_))),
        r matches Ok(n) ==> final(s).len() < old(s).len() && all_recorded(sites_value(*n.0)) && read_into(*old(s), *final(s), tokens_value(*n.0), 0),
        r matches Ok(n) ==> value_begun_by(*n.0, old(s).remaining()[0].0),
    decreases depth, 2nat,
{
    let v = if s.recognize(RecoveryPoint::from_kind(TokenKind::IntValue)) {
        Value::IntValue(int_value(s)?)
    } else if s.recognize(RecoveryPoint::from_kind(TokenKind::FloatValue)) {
        Value::FloatValue(float_value(s)?)
    } else if s.recognize(RecoveryPoint::from_kind(TokenKind::StringValue)) {
        Value::StringValue(string_value(s)?)
    } else if s.recognize(either(TokenKind::KeywordTrue, TokenKind::KeywordFalse)) {
        Value::BooleanValue(boolean_value(s)?)
    } else if s.recognize(RecoveryPoint::from_kind(TokenKind::KeywordNull)) {
        Value::NullValue(null_value(s)?)
    } else if s.recognize(RecoveryPoint::from_kind(TokenKind::Name)) {
        Value::EnumValue(enum_value(s)?)
    } else if s.recognize(RecoveryPoint::from_kind(TokenKind::Dollar)) {
        Value::Variable(variable(s, rp)?)
    } else if s.recognize(RecoveryPoint::from_kind(TokenKind::BracketLeft)) {
        Value::ListValue(list_value(s, rp, depth)?)
    } else if s.recognize(RecoveryPoint::from_kind(TokenKind::BraceLeft)) {
        Value::ObjectValue(object_value(s, rp, depth)?)
    } else {
        return Err(Error::Expected(value_start()));
    };
    Ok(Shared::new(v))
}

/// Parses `true` or `false`.
#[verifier::spinoff_prover]
pub fn boolean_value(s: &mut Stream) -> (r: Result<BooleanValue, Error>)
    requires
        old(s).wf(),
    ensures
        advanced(*old(s), *final(s)),
        r matches Err(Error::MaxRecursion(_)) ==> old(s).len() > RECURSION_LIMIT,
        begins(*old(s), set![TokenKind::KeywordTrue, TokenKind::KeywordFalse], false) ==> !(r matches Err(Error::Expected(_))),
        r matches Ok(n) ==> final(s).len() < old(s).len() && all_recorded(sites_boolean_value(n)) && read_into(*old(s), *final(s), tokens_boolean_value(n), 0),
        r matches Ok(BooleanValue::True(t)) ==> old(s).remaining()[0].0 == TokenKind::KeywordTrue
            && raw_view(t.0) == old(s).remaining()[0],
        r matches Ok(BooleanValue::False(t)) ==> old(s).remaining()[0].0 == TokenKind::KeywordFalse
            && raw_view(t.0) == old(s).remaining()[0],
{
    if s.recognize(RecoveryPoint::from_kind(TokenKind::KeywordTrue)) {
        Ok(BooleanValue::True(keyword(s, TokenKind::KeywordTrue)?))
    } else if s.recognize(RecoveryPoint::from_kind(TokenKind::KeywordFalse)) {
        Ok(BooleanValue::False(keyword(s, TokenKind::KeywordFalse)?))
    } else {
        Err(Error::Expected(either(TokenKind::KeywordTrue, TokenKind::KeywordFalse)))
    }
}

/// Parses `null`.
#[verifier::spinoff_prover]
pub fn null_value(s: &mut Stream) -> (r: Result<NullValue, Error>)
    requires
        old(s).wf(),
    ensures
        advanced(*old(s), *final(s)),
        r matches Err(Error::MaxRecursion(_)) ==> old(s).len() > RECURSION_LIMIT,
        begins(*old(s), set![TokenKind::KeywordNull], false) ==> !(r matches Err(Error::Expected(_))),
        r matches Ok(n) ==> final(s).len() < old(s).len() && all_recorded(sites_null_value(n)) && read_into(*old(s), *final(s), tokens_null_value(n), 0),
{
    Ok(NullValue(keyword(s, TokenKind::KeywordNull)?))
}

/// Parses an enum value: a name.
#[verifier::spinoff_prover]
pub fn enum_value(s: &mut Stream) -> (r: Result<EnumValue, Error>)
    requires
        old(s).wf(),
    ensures
        advanced(*old(s), *final(s)),
        r matches Err(Error::MaxRecursion(_)) ==> old(s).len() > RECURSION_LIMIT,
        begins(*old(s), set![TokenKind::Name], false) ==> !(r matches Err(Error::Expected(_))),
        r matches Ok(n) ==> final(s).len() < old(s).len() && all_recorded(sites_enum_value(n)) && read_into(*old(s), *final(s), tokens_enum_value(n), 0),
        r is Err ==> *final(s) == *old(s),
{
    Ok(EnumValue(name(s)?))
}

/// Parses a list value, whose items are nested `depth` deep at most.
#[verifier::spinoff_prover]
pub fn list_value(s: &mut Stream, rp: RecoveryPoint, depth: usize) -> (r: Result<ListValue, Error>)
    requires
        old(s).wf(),
    ensures
        advanced(*old(s), *final(s)),
        r matches Err(Error::MaxRecursion(_)) ==> old(s).len() > depth || old(s).len() > RECURSION_LIMIT,
        begins(*old(s), set![TokenKind::BracketLeft], false) ==> !(r matches Err(Error::Expected(_))),
        r matches Ok(n) ==> final(s).len() < old(s).len() && all_recorded(sites_list_value(n)) && read_into(*old(s), *final(s), tokens_list_value(n), 0),
        r matches Ok(n) ==> (n.brackets.1 matches Recoverable::Missing(m) ==> m.missing is Binary && m.missing->Binary_0 == DiagnosticKind::MissingListValueClosingBracket),
    decreases depth, 1nat,
{
    let left = punctuator(s, TokenKind::BracketLeft)?;
    let close = RecoveryPoint::from_kind(TokenKind::BracketRight);
    let item = value_start();
    let inner = rp.or(close);
    let next = inner.or(item);
    let mut values: Vec<Shared<Value>> = Vec::new();
    let ghost entry = *s;
    loop
        invariant
            item.kinds@ == value_start_kinds(),
            !item.exclude_on,
            advanced(*old(s), *s),
            s.len() < old(s).len(),
            all_recorded(sites_list_shared_value(values@)),
            entry.len() - s.len() == tokens_list_shared_value(values@).len() + s.skipped().len() - entry.skipped().len(),
            s.read_log() == entry.read_log() + tokens_list_shared_value(values@),
        decreases s.len(),
    {
        if !s.discard(item, inner) {
            break;
        }
        if depth == 0 {
            return Err(Error::MaxRecursion(s.span()));
        }
        let v = value(s, next, depth - 1)?;
        let ghost before = values@;
        values.push(v);
        assert(values@.drop_last() =~= before);
    }
    let right = if s.discard(close, rp) {
        Recoverable::Present(punctuator(s, TokenKind::BracketRight)?)
    } else {
        Recoverable::Missing(
            missing_binary(s, DiagnosticKind::MissingListValueClosingBracket, left.span()),
        )
    };
    Ok(ListValue { brackets: (left, right), values: List(values) })
}

/// Parses an object value, whose fields hold values nested `depth` deep at
/// most.
#[verifier::spinoff_prover]
pub fn object_value(s: &mut Stream, rp: RecoveryPoint, depth: usize) -> (r: Result<ObjectValue, Error>)
    requires
        old(s).wf(),
    ensures
        advanced(*old(s), *final(s)),
        r matches Err(Error::MaxRecursion(_)) ==> old(s).len() > depth || old(s).len() > RECURSION_LIMIT,
        begins(*old(s), set![TokenKind::BraceLeft], false) ==> !(r matches Err(Error::Expected(_))),
        r matches Ok(n) ==> final(s).len() < old(s).len() && all_recorded(sites_object_value(n)) && read_into(*old(s), *final(s), tokens_object_value(n), 0),
        r matches Ok(n) ==> (n.braces.1 matches Recoverable::Missing(m) ==> m.missing is Binary && m.missing->Binary_0 == DiagnosticKind::MissingObjectValueClosingBrace),
    decreases depth, 1nat,
{
    let left = punctuator(s, TokenKind::BraceLeft)?;
    let close = RecoveryPoint::from_kind(TokenKind::BraceRight);
    let item = RecoveryPoint::from_kind(TokenKind::Name);
    let inner = rp.or(close);
    let next = inner.or(item);
    let mut fields: Vec<ObjectField> = Vec::new();
    let ghost entry = *s;
    loop
        invariant
            item.kinds@ == set![TokenKind::Name],
            !item.exclude_on,
            advanced(*old(s), *s),
            s.len() < old(s).len(),
            all_recorded(sites_list_object_field(fields@)),
            entry.len() - s.len() == tokens_list_object_field(fields@).len() + s.skipped().len() - entry.skipped().len(),
            s.read_log() == entry.read_log() + tokens_list_object_field(fields@),
        decreases s.len(),
    {
        if !s.discard(item, inner) {
            break;
        }
        let f = object_field(s, next, depth)?;
        let ghost before = fields@;
        fields.push(f);
        assert(fields@.drop_last() =~= before);
    }
    let right = if s.discard(close, rp) {
        Recoverable::Present(punctuator(s, TokenKind::BraceRight)?)
    } else {
        Recoverable::Missing(
            missing_binary(s, DiagnosticKind::MissingObjectValueClosingBrace, left.span()),
        )
    };
    Ok(ObjectValue { braces: (left, right), object_fields: List(fields) })
}

/// Parses a field of an object value: a name, a colon and a value nested
/// `depth` deep at most.
#[verifier::spinoff_prover]
pub fn object_field(s: &mut Stream, rp: RecoveryPoint, depth: usize) -> (r: Result<ObjectField, Error>)
    requires
        old(s).wf(),
    ensures
        advanced(*old(s), *final(s)),
        r matches Err(Error::MaxRecursion(_)) ==> old(s).len() > depth || old(s).len() > RECURSION_LIMIT,
        begins(*old(s), set![TokenKind::Name], false) ==> !(r matches Err(Error::Expected(_))),
        r matches Ok(n) ==> final(s).len() < old(s).len() && all_recorded(sites_object_field(n)) && read_into(*old(s), *final(s), tokens_object_field(n), 0),
        r matches Ok(n) ==> (n.colon matches Recoverable::Missing(m) ==> m.missing == Missing::Unary(DiagnosticKind::MissingObjectFieldColon)),
        r matches Ok(n) ==> (n.value matches Recoverable::Missing(m) ==> m.missing == Missing::Unary(DiagnosticKind::MissingObjectFieldValue)),
    decreases depth, 0nat,
{
    let field_name = name(s)?;
    let ghost after_name = s.read_log();
    let start = value_start();
    let colon = if s.discard(RecoveryPoint::from_kind(TokenKind::Colon), rp.or(start)) {
        Recoverable::Present(punctuator(s, TokenKind::Colon)?)
    } else {
        Recoverable::Missing(missing_unary(s, DiagnosticKind::MissingObjectFieldColon))
    };
    let ghost head = seq![field_name.0.span] + if colon is Present {
        seq![colon->Present_0.0.span]
    } else {
        Seq::empty()
    };
    assert(s.read_log() == old(s).read_log() + head);
    let v = if s.discard(start, rp) {
        if depth == 0 {
            return Err(Error::MaxRecursion(s.span()));
        }
        Recoverable::Present(value(s, rp, depth - 1)?)
    } else {
        Recoverable::Missing(missing_unary(s, DiagnosticKind::MissingObjectFieldValue))
    };
    let n = ObjectField { name: field_name, colon, value: v };
    assert(tokens_object_field(n) == head + if n.value is Present {
        tokens_value(*n.value->Present_0.0)
    } else {
        Seq::<Span>::empty()
    });
    Ok(n)
}

/// Parses a variable: a dollar sign and a name.
#[verifier::spinoff_prover]
pub fn variable(s: &mut Stream, rp: RecoveryPoint) -> (r: Result<Variable, Error>)
    requires
        old(s).wf(),
    ensures
        advanced(*old(s), *final(s)),
        r matches Err(Error::MaxRecursion(_)) ==> old(s).len() > RECURSION_LIMIT,
        begins(*old(s), set![TokenKind::Dollar], false) ==> !(r matches Err(Error::Expected(_))),
        r matches Ok(n) ==> final(s).len() < old(s).len() && all_recorded(sites_variable(n)) && read_into(*old(s), *final(s), tokens_variable(n), 0),
{
    let dollar = punctuator(s, TokenKind::Dollar)?;
    let variable_name = if s.discard(RecoveryPoint::from_kind(TokenKind::Name), rp) {
        Recoverable::Present(name(s)?)
    } else {
        Recoverable::Missing(s.missing(Missing::Unknown))
    };
    Ok(Variable { dollar, name: variable_name })
}

/// Parses a default value: an equals sign and a value.
#[verifier::spinoff_prover]
pub fn default_value(s: &mut Stream, rp: RecoveryPoint) -> (r: Result<DefaultValue, Error>)
    requires
        old(s).wf(),
    ensures
        advanced(*old(s), *final(s)),
        r matches Err(Error::MaxRecursion(_)) ==> old(s).len() > RECURSION_LIMIT,
        begins(*old(s), set![TokenKind::Eq], false) ==> !(r matches Err(Error::Expected(_))),
        r matches Ok(n) ==> final(s).len() < old(s).len() && all_recorded(sites_default_value(n)) && read_into(*old(s), *final(s), tokens_default_value(n), 0),
        r matches Ok(n) ==> (n.value matches Recoverable::Missing(m) ==> m.missing == Missing::Unary(DiagnosticKind::MissingDefaultValue)),
{
    let eq = punctuator(s, TokenKind::Eq)?;
    let v = if s.discard(value_start(), rp) {
        Recoverable::Present(value(s, rp, RECURSION_LIMIT)?)
    } else {
        Recoverable::Missing(missing_unary(s, DiagnosticKind::MissingDefaultValue))
    };
    Ok(DefaultValue { eq, value: v })
}

/// Which type a token of `kind` begins: a named type for a name, a list
/// type for `[`; a non-null type wraps one of those.
pub open spec fn type_begun_by(t: Type, kind: TokenKind) -> bool {
    match t {
        Type::Named(_) => kind == TokenKind::Name || kind.spec_is_name(),
        Type::List(_) => kind == TokenKind::BracketLeft,
        Type::NonNull(n) => match *n.ty.0 {
            Type::Named(_) => kind == TokenKind::Name || kind.spec_is_name(),
            Type::List(_) => kind == TokenKind::BracketLeft,
            Type::NonNull(_) => false,
        },
    }
}

/// Parses a type, whose list types are nested `depth` deep at most: a named
/// type or a list type, which an exclamation mark makes non-null.
#[verifier::spinoff_prover]
pub fn ty(s: &mut Stream, rp: RecoveryPoint, depth: usize) -> (r: Result<Shared<Type>, Error>)
    requires
        old(s).wf(),
    ensures
        advanced(*old(s), *final(s)),
        r matches Err(Error::MaxRecursion(_)) ==> old(s).len() > depth || old(s).len() > RECURSION_LIMIT,
        begins(*old(s), type_start_kinds(), false) ==> !(r matches Err(Error::Expected(_))),
        r matches Ok(n) ==> final(s).len() < old(s).len() && all_recorded(sites_type(*n.0)) && read_into(*old(s), *final(s), tokens_type(*n.0), 0),
        r matches Ok(n) ==> type_begun_by(*n.0, old(s).remaining()[0].0),
        r matches Ok(n) ==> (*n.0 is NonNull ==> final(s).last_read() == Some(TokenKind::Bang)),
        r matches Ok(n) ==> (!(*n.0 is NonNull) ==> !final(s).at(
            RecoveryPoint::spec_from_kind(TokenKind::Bang),
        )),
    decreases depth, 0nat,
{
    let bang = RecoveryPoint::from_kind(TokenKind::Bang);
    let inner = if s.recognize(RecoveryPoint::from_kind(TokenKind::Name)) {
        Type::Named(named_type(s)?)
    } else if s.recognize(RecoveryPoint::from_kind(TokenKind::BracketLeft)) {
        if depth == 0 {
            return Err(Error::MaxRecursion(s.span()));
        }
        Type::List(list_type(s, rp.or(bang), depth - 1)?)
    } else {
        return Err(Error::Expected(type_start()));
    };
    if s.recognize(bang) {
        let b = punctuator(s, TokenKind::Bang)?;
        let non_null = NonNullType { ty: Shared::new(inner), bang: b };
        assert(sites_non_null_type(non_null) == sites_type(inner));
        assert(tokens_non_null_type(non_null).len() == tokens_type(inner).len() + 1);
        Ok(Shared::new(Type::NonNull(non_null)))
    } else {
        Ok(Shared::new(inner))
    }
}

/// Parses a named type: a name.
#[verifier::spinoff_prover]
pub fn named_type(s: &mut Stream) -> (r: Result<NamedType, Error>)
    requires
        old(s).wf(),
    ensures
        advanced(*old(s), *final(s)),
        r matches Err(Error::MaxRecursion(_)) ==> old(s).len() > RECURSION_LIMIT,
        begins(*old(s), set![TokenKind::Name], false) ==> !(r matches Err(Error::Expected(_))),
        r matches Ok(n) ==> final(s).len() < old(s).len() && all_recorded(sites_named_type(n)) && read_into(*old(s), *final(s), tokens_named_type(n), 0),
{
    Ok(NamedType(name(s)?))
}

/// Parses a list type: a type, nested `depth` deep at most, in brackets.
#[verifier::spinoff_prover]
pub fn list_type(s: &mut Stream, rp: RecoveryPoint, depth: usize) -> (r: Result<ListType, Error>)
    requires
        old(s).wf(),
    ensures
        advanced(*old(s), *final(s)),
        r matches Err(Error::MaxRecursion(_)) ==> old(s).len() > depth + 1 || old(s).len() > RECURSION_LIMIT,
        begins(*old(s), set![TokenKind::BracketLeft], false) ==> !(r matches Err(Error::Expected(_))),
        r matches Ok(n) ==> final(s).len() < old(s).len() && all_recorded(sites_list_type(n)) && read_into(*old(s), *final(s), tokens_list_type(n), 0),
        r matches Ok(n) ==> (n.ty matches Recoverable::Missing(m) ==> m.missing == Missing::Unary(DiagnosticKind::MissingListTypeWrappedType)),
        r matches Ok(n) ==> (n.brackets.1 matches Recoverable::Missing(m) ==> m.missing is Binary && m.missing->Binary_0 == DiagnosticKind::MissingListTypeClosingBracket),
    decreases depth, 1nat,
{
    let left = punctuator(s, TokenKind::BracketLeft)?;
    let close = RecoveryPoint::from_kind(TokenKind::BracketRight);
    let inner = rp.or(close);
    let wrapped = if s.discard(type_start(), inner) {
        Recoverable::Present(ty(s, inner, depth)?)
    } else {
        Recoverable::Missing(missing_unary(s, DiagnosticKind::MissingListTypeWrappedType))
    };
    let right = if s.discard(close, rp) {
        Recoverable::Present(punctuator(s, TokenKind::BracketRight)?)
    } else {
        Recoverable::Missing(
            missing_binary(s, DiagnosticKind::MissingListTypeClosingBracket, left.span()),
        )
    };
    Ok(ListType { brackets: (left, right), ty: wrapped })
}

/// Parses directives, one after the other.
#[verifier::spinoff_prover]
pub fn directives(s: &mut Stream, rp: RecoveryPoint) -> (r: Result<Directives, Error>)
    requires
        old(s).wf(),
    ensures
        advanced(*old(s), *final(s)),
        r matches Err(Error::MaxRecursion(_)) ==> old(s).len() > RECURSION_LIMIT,
        !(r matches Err(Error::Expected(_))),
        r matches Ok(n) ==> all_recorded(sites_directives(n)) && read_into(*old(s), *final(s), tokens_directives(n), 0),
{
    let item = RecoveryPoint::from_kind(TokenKind::At);
    let next = rp.or(item);
    let mut items: Vec<Shared<Directive>> = Vec::new();
    let ghost entry = *s;
    loop
        invariant
            item.kinds@ == set![TokenKind::At],
            !item.exclude_on,
            advanced(*old(s), *s),
            all_recorded(sites_list_shared_directive(items@)),
            entry.len() - s.len() == tokens_list_shared_directive(items@).len() + s.skipped().len() - entry.skipped().len(),
            s.read_log() == entry.read_log() + tokens_list_shared_directive(items@),
        decreases s.len(),
    {
        if !s.discard(item, rp) {
            break;
        }
        let d = directive(s, next)?;
        let ghost before = items@;
        items.push(d);
        assert(items@.drop_last() =~= before);
    }
    Ok(Directives { directives: List(items) })
}

/// Parses a directive: an at sign, a name and arguments.
#[verifier::spinoff_prover]
pub fn directive(s: &mut Stream, rp: RecoveryPoint) -> (r: Result<Shared<Directive>, Error>)
    requires
        old(s).wf(),
    ensures
        advanced(*old(s), *final(s)),
        r matches Err(Error::MaxRecursion(_)) ==> old(s).len() > RECURSION_LIMIT,
        begins(*old(s), set![TokenKind::At], false) ==> !(r matches Err(Error::Expected(_))),
        r matches Ok(n) ==> final(s).len() < old(s).len() && all_recorded(sites_directive(*n.0)) && read_into(*old(s), *final(s), tokens_directive(*n.0), 0),
        r matches Ok(n) ==> ((*n.0).name matches Recoverable::Missing(m) ==> m.missing == Missing::Unary(DiagnosticKind::MissingDirectiveName)),
{
    let at = punctuator(s, TokenKind::At)?;
    let paren = RecoveryPoint::from_kind(TokenKind::ParenLeft);
    let directive_name = if s.discard(RecoveryPoint::from_kind(TokenKind::Name), rp.or(paren)) {
        Recoverable::Present(name(s)?)
    } else {
        Recoverable::Missing(missing_unary(s, DiagnosticKind::MissingDirectiveName))
    };
    let args = if s.recognize(paren) {
        Some(Shared::new(arguments(s, rp)?))
    } else {
        None
    };
    Ok(Shared::new(Directive { at, name: directive_name, arguments: args }))
}

/// Parses arguments: a list of arguments in parentheses.
#[verifier::spinoff_prover]
pub fn arguments(s: &mut Stream, rp: RecoveryPoint) -> (r: Result<Arguments, Error>)
    requires
        old(s).wf(),
    ensures
        advanced(*old(s), *final(s)),
        r matches Err(Error::MaxRecursion(_)) ==> old(s).len() > RECURSION_LIMIT,
        begins(*old(s), set![TokenKind::ParenLeft], false) ==> !(r matches Err(Error::Expected(_))),
        r matches Ok(n) ==> final(s).len() < old(s).len() && all_recorded(sites_arguments(n)) && read_into(*old(s), *final(s), tokens_arguments(n), 0),
        r matches Ok(n) ==> (n.parens.1 matches Recoverable::Missing(m) ==> m.missing is Binary && m.missing->Binary_0 == DiagnosticKind::MissingArgumentsClosingParentheses),
{
    let left = punctuator(s, TokenKind::ParenLeft)?;
    let close = RecoveryPoint::from_kind(TokenKind::ParenRight);
    let item = RecoveryPoint::from_kind(TokenKind::Name);
    let inner = rp.or(close);
    let next = inner.or(item);
    let mut items: Vec<Shared<Argument>> = Vec::new();
    let ghost entry = *s;
    loop
        invariant
            item.kinds@ == set![TokenKind::Name],
            !item.exclude_on,
            advanced(*old(s), *s),
            s.len() < old(s).len(),
            all_recorded(sites_list_shared_argument(items@)),
            entry.len() - s.len() == tokens_list_shared_argument(items@).len() + s.skipped().len() - entry.skipped().len(),
            s.read_log() == entry.read_log() + tokens_list_shared_argument(items@),
        decreases s.len(),
    {
        if !s.discard(item, inner) {
            break;
        }
        let a = argument(s, next)?;
        let ghost before = items@;
        items.push(a);
        assert(items@.drop_last() =~= before);
    }
    let right = if s.discard(close, rp) {
        Recoverable::Present(punctuator(s, TokenKind::ParenRight)?)
    } else {
        Recoverable::Missing(
            missing_binary(s, DiagnosticKind::MissingArgumentsClosingParentheses, left.span()),
        )
    };
    Ok(Arguments { parens: (left, right), items: List(items) })
}

/// Parses an argument: a name, a colon and a value.
#[verifier::spinoff_prover]
pub fn argument(s: &mut Stream, rp: RecoveryPoint) -> (r: Result<Shared<Argument>, Error>)
    requires
        old(s).wf(),
    ensures
        advanced(*old(s), *final(s)),
        r matches Err(Error::MaxRecursion(_)) ==> old(s).len() > RECURSION_LIMIT,
        begins(*old(s), set![TokenKind::Name], false) ==> !(r matches Err(Error::Expected(_))),
        r matches Ok(n) ==> final(s).len() < old(s).len() && all_recorded(sites_argument(*n.0)) && read_into(*old(s), *final(s), tokens_argument(*n.0), 0),
        r matches Ok(n) ==> ((*n.0).colon matches Recoverable::Missing(m) ==> m.missing == Missing::Unary(DiagnosticKind::MissingArgumentColon)),
        r matches Ok(n) ==> ((*n.0).value matches Recoverable::Missing(m) ==> m.missing == Missing::Unary(DiagnosticKind::MissingArgumentValue)),
{
    let argument_name = name(s)?;
    let start = value_start();
    let colon = if s.discard(RecoveryPoint::from_kind(TokenKind::Colon), rp.or(start)) {
        Recoverable::Present(punctuator(s, TokenKind::Colon)?)
    } else {
        Recoverable::Missing(missing_unary(s, DiagnosticKind::MissingArgumentColon))
    };
    let v = if s.discard(start, rp) {
        Recoverable::Present(value(s, rp, RECURSION_LIMIT)?)
    } else {
        Recoverable::Missing(missing_unary(s, DiagnosticKind::MissingArgumentValue))
    };
    Ok(Shared::new(Argument { name: argument_name, colon, value: v }))
}

/// Parses an executable document: executable definitions, one after the
/// other, skipping the tokens that start none.
#[verifier::spinoff_prover]
pub fn executable_document(s: &mut Stream, rp: RecoveryPoint) -> (r: Result<
    ExecutableDocument,
    Error,
>)
    requires
        old(s).wf(),
    ensures
        advanced(*old(s), *final(s)),
        r matches Err(Error::MaxRecursion(_)) ==> old(s).len() > RECURSION_LIMIT,
        !(r matches Err(Error::Expected(_))),
        r matches Ok(n) ==> all_recorded(sites_executable_document(n)) && read_into(*old(s), *final(s), tokens_executable_document(n), 0),
        r is Ok ==> final(s).len() == 0 || final(s).at(rp),
{
    let item = executable_definition_start();
    let next = rp.or(item);
    let mut definitions: Vec<ExecutableDefinition> = Vec::new();
    let ghost entry = *s;
    loop
        invariant
            item.kinds@ == executable_definition_start_kinds(),
            !item.exclude_on,
            advanced(*old(s), *s),
            all_recorded(sites_list_executable_definition(definitions@)),
            entry.len() - s.len() == tokens_list_executable_definition(definitions@).len() + s.skipped().len() - entry.skipped().len(),
            s.read_log() == entry.read_log() + tokens_list_executable_definition(definitions@),
        ensures
            advanced(*old(s), *s),
            all_recorded(sites_list_executable_definition(definitions@)),
            entry.len() - s.len() == tokens_list_executable_definition(definitions@).len() + s.skipped().len() - entry.skipped().len(),
            s.read_log() == entry.read_log() + tokens_list_executable_definition(definitions@),
            s.len() == 0 || s.at(rp),
        decreases s.len(),
    {
        if !s.discard(item, rp) {
            break;
        }
        let d = executable_definition(s, next)?;
        let ghost before = definitions@;
        definitions.push(d);
        assert(definitions@.drop_last() =~= before);
    }
    Ok(ExecutableDocument { definitions: List(definitions) })
}

/// Parses an executable definition: an operation, a fragment, or a lone
/// selection set, which stands for a query.
#[verifier::spinoff_prover]
pub fn executable_definition(s: &mut Stream, rp: RecoveryPoint) -> (r: Result<
    ExecutableDefinition,
    Error,
>)
    requires
        old(s).wf(),
    ensures
        advanced(*old(s), *final(s)),
        r matches Err(Error::MaxRecursion(_)) ==> old(s).len() > RECURSION_LIMIT,
        begins(*old(s), executable_definition_start_kinds(), false) ==> !(r matches Err(Error::Expected(_))),
        r matches Ok(n) ==> final(s).len() < old(s).len() && all_recorded(
            sites_executable_definition(n),
        ) && read_into(*old(s), *final(s), tokens_executable_definition(n), 0),
{
    if s.recognize(operation_type_start()) {
        let operation = operation_definition(s, rp)?;
        Ok(ExecutableDefinition::OperationDefinition(Shared::new(operation)))
    } else if s.recognize(RecoveryPoint::from_kind(TokenKind::KeywordFragment)) {
        let fragment = fragment_definition(s, rp)?;
        Ok(ExecutableDefinition::FragmentDefinition(Shared::new(fragment)))
    } else if s.recognize(RecoveryPoint::from_kind(TokenKind::BraceLeft)) {
        let set = selection_set(s, rp, RECURSION_LIMIT)?;
        let operation = OperationDefinition {
            ty: None,
            name: None,
            variable_definitions: None,
            directives: None,
            selection_set: Recoverable::Present(Shared::new(set)),
        };
        Ok(ExecutableDefinition::OperationDefinition(Shared::new(operation)))
    } else {
        Err(Error::Expected(executable_definition_start()))
    }
}

/// Parses an operation: its kind, a name, variable definitions, directives
/// and a selection set.
#[verifier::spinoff_prover]
#[verifier::rlimit(60)]
pub fn operation_definition(s: &mut Stream, rp: RecoveryPoint) -> (r: Result<
    OperationDefinition,
    Error,
>)
    requires
        old(s).wf(),
    ensures
        advanced(*old(s), *final(s)),
        r matches Err(Error::MaxRecursion(_)) ==> old(s).len() > RECURSION_LIMIT,
        begins(*old(s), operation_type_start_kinds(), false) ==> !(r matches Err(Error::Expected(_))),
        r matches Ok(n) ==> final(s).len() < old(s).len() && all_recorded(
            sites_operation_definition(n),
        ) && read_into(*old(s), *final(s), tokens_operation_definition(n), 0),
{
    let at = RecoveryPoint::from_kind(TokenKind::At);
    let brace = RecoveryPoint::from_kind(TokenKind::BraceLeft);
    let paren = RecoveryPoint::from_kind(TokenKind::ParenLeft);
    let kind = operation_type(s)?;
    let operation_name = if s.recognize(RecoveryPoint::from_kind(TokenKind::Name)) {
        Some(name(s)?)
    } else {
        None
    };
    let variables = if s.recognize(paren) {
        Some(variable_definitions(s, rp.or(at).or(brace))?)
    } else {
        None
    };
    let directive_list = if s.recognize(at) {
        Some(directives(s, rp.or(brace))?)
    } else {
        None
    };
    let set = if s.discard(brace, rp) {
        Recoverable::Present(Shared::new(selection_set(s, rp, RECURSION_LIMIT)?))
    } else {
        Recoverable::Missing(
            missing_unary(s, DiagnosticKind::MissingOperationDefinitionSelectionSet),
        )
    };
    Ok(
        OperationDefinition {
            ty: Some(kind),
            name: operation_name,
            variable_definitions: variables,
            directives: directive_list,
            selection_set: set,
        },
    )
}

/// The keyword that each variant of `OperationType` is written with.
pub open spec fn operation_type_keyword(n: OperationType) -> TokenKind {
    match n {
        OperationType::Query(_) => TokenKind::KeywordQuery,
        OperationType::Mutation(_) => TokenKind::KeywordMutation,
        OperationType::Subscription(_) => TokenKind::KeywordSubscription,
    }
}

/// Parses the keyword of a kind of operation.
#[verifier::spinoff_prover]
pub fn operation_type(s: &mut Stream) -> (r: Result<OperationType, Error>)
    requires
        old(s).wf(),
    ensures
        advanced(*old(s), *final(s)),
        r matches Err(Error::MaxRecursion(_)) ==> old(s).len() > RECURSION_LIMIT,
        begins(*old(s), operation_type_start_kinds(), false) ==> !(r matches Err(Error::Expected(_))),
        r matches Ok(n) ==> final(s).len() < old(s).len() && all_recorded(sites_operation_type(n)) && read_into(*old(s), *final(s), tokens_operation_type(n), 0),
        r matches Ok(n) ==> operation_type_keyword(n) == old(s).remaining()[0].0,
{
    if s.recognize(RecoveryPoint::from_kind(TokenKind::KeywordQuery)) {
        Ok(OperationType::Query(keyword(s, TokenKind::KeywordQuery)?))
    } else if s.recognize(RecoveryPoint::from_kind(TokenKind::KeywordMutation)) {
        Ok(OperationType::Mutation(keyword(s, TokenKind::KeywordMutation)?))
    } else if s.recognize(RecoveryPoint::from_kind(TokenKind::KeywordSubscription)) {
        Ok(OperationType::Subscription(keyword(s, TokenKind::KeywordSubscription)?))
    } else {
        Err(Error::Expected(operation_type_start()))
    }
}

/// Parses a selection set: selections, nested `depth` deep at most, in
/// braces.
#[verifier::spinoff_prover]
pub fn selection_set(s: &mut Stream, rp: RecoveryPoint, depth: usize) -> (r: Result<
    SelectionSet,
    Error,
>)
    requires
        old(s).wf(),
    ensures
        advanced(*old(s), *final(s)),
        r matches Err(Error::MaxRecursion(_)) ==> old(s).len() > depth || old(s).len() > RECURSION_LIMIT,
        begins(*old(s), set![TokenKind::BraceLeft], false) ==> !(r matches Err(Error::Expected(_))),
        r matches Ok(n) ==> final(s).len() < old(s).len() && all_recorded(sites_selection_set(n)) && read_into(*old(s), *final(s), tokens_selection_set(n), 0),
        r matches Ok(n) ==> (n.braces.1 matches Recoverable::Missing(m) ==> m.missing is Binary && m.missing->Binary_0 == DiagnosticKind::MissingSelectionSetClosingBrace),
    decreases depth, 0nat,
{
    let left = punctuator(s, TokenKind::BraceLeft)?;
    let close = RecoveryPoint::from_kind(TokenKind::BraceRight);
    let item = selection_start();
    let inner = rp.or(close);
    let next = inner.or(item);
    let mut selections: Vec<Selection> = Vec::new();
    let ghost entry = *s;
    loop
        invariant
            item.kinds@ == selection_start_kinds(),
            !item.exclude_on,
            advanced(*old(s), *s),
            s.len() < old(s).len(),
            all_recorded(sites_list_selection(selections@)),
            entry.len() - s.len() == tokens_list_selection(selections@).len() + s.skipped().len() - entry.skipped().len(),
            s.read_log() == entry.read_log() + tokens_list_selection(selections@),
        decreases s.len(),
    {
        if !s.discard(item, inner) {
            break;
        }
        if depth == 0 {
            return Err(Error::MaxRecursion(s.span()));
        }
        let selection = selection(s, next, depth - 1)?;
        let ghost before = selections@;
        selections.push(selection);
        assert(selections@.drop_last() =~= before);
    }
    let right = if s.discard(close, rp) {
        Recoverable::Present(punctuator(s, TokenKind::BraceRight)?)
    } else {
        Recoverable::Missing(
            missing_binary(s, DiagnosticKind::MissingSelectionSetClosingBrace, left.span()),
        )
    };
    Ok(SelectionSet { braces: (left, right), selections: List(selections) })
}

/// Parses a selection: a field, a fragment spread or an inline fragment.
#[verifier::spinoff_prover]
pub fn selection(s: &mut Stream, rp: RecoveryPoint, depth: usize) -> (r: Result<Selection, Error>)
    requires
        old(s).wf(),
    ensures
        advanced(*old(s), *final(s)),
        r matches Err(Error::MaxRecursion(_)) ==> old(s).len() > depth || old(s).len() > RECURSION_LIMIT,
        begins(*old(s), selection_start_kinds(), false) ==> !(r matches Err(Error::Expected(_))),
        r matches Ok(n) ==> final(s).len() < old(s).len() && all_recorded(sites_selection(n)) && read_into(*old(s), *final(s), tokens_selection(n), 0),
        r matches Ok(n) ==> (n is Field <==> (old(s).remaining()[0].0 == TokenKind::Name
            || old(s).remaining()[0].0.spec_is_name())),
    decreases depth, 3nat,
{
    if s.recognize(RecoveryPoint::from_kind(TokenKind::Name)) {
        Ok(Selection::Field(Shared::new(field(s, rp, depth)?)))
    } else if s.recognize(RecoveryPoint::from_kind(TokenKind::Dots)) {
        let dots = punctuator(s, TokenKind::Dots)?;
        selection_fragment_with_dots(s, rp, dots, depth)
    } else {
        Err(Error::Expected(selection_start()))
    }
}

/// Parses what follows the dots of a fragment: an inline fragment, or the
/// name of the fragment to spread.
#[verifier::spinoff_prover]
pub fn selection_fragment_with_dots(
    s: &mut Stream,
    rp: RecoveryPoint,
    dots: Punctuator,
    depth: usize,
) -> (r: Result<Selection, Error>)
    requires
        old(s).wf(),
        ends_with(old(s).read_log(), seq![dots.0.span]),
        old(s).started(),
    ensures
        advanced(*old(s), *final(s)),
        r matches Err(Error::MaxRecursion(_)) ==> old(s).len() > depth || old(s).len() > RECURSION_LIMIT,
        !(r matches Err(Error::Expected(_))),
        r matches Ok(n) ==> all_recorded(sites_selection(n)) && read_into(*old(s), *final(s), tokens_selection(n), 1),
        r matches Ok(n) ==> !(n is Field),
    decreases depth, 2nat,
{
    let inline = inline_fragment_start();
    let spread = RecoveryPoint::name_unless_on();
    let either_fragment = inline.or(spread);
    if s.discard(either_fragment, rp) {
        if s.recognize(inline) {
            Ok(Selection::InlineFragment(inline_fragment(s, rp, dots, depth)?))
        } else if s.recognize(spread) {
            Ok(Selection::FragmentSpread(fragment_spread(s, rp, dots)?))
        } else {
            Err(Error::Expected(either_fragment))
        }
    } else {
        let m = missing_unary(s, DiagnosticKind::MissingInlineFragmentSelectionSet);
        Ok(
            Selection::InlineFragment(
                InlineFragment {
                    dots,
                    type_condition: None,
                    directives: None,
                    selection_set: Recoverable::Missing(m),
                },
            ),
        )
    }
}

/// Parses a field: a name, or an alias, a colon and a name; arguments,
/// directives, and a selection set nested `depth` deep at most.
#[verifier::spinoff_prover]
#[verifier::rlimit(60)]
pub fn field(s: &mut Stream, rp: RecoveryPoint, depth: usize) -> (r: Result<Field, Error>)
    requires
        old(s).wf(),
    ensures
        advanced(*old(s), *final(s)),
        r matches Err(Error::MaxRecursion(_)) ==> old(s).len() > depth || old(s).len() > RECURSION_LIMIT,
        begins(*old(s), set![TokenKind::Name], false) ==> !(r matches Err(Error::Expected(_))),
        r matches Ok(n) ==> final(s).len() < old(s).len() && all_recorded(sites_field(n)) && read_into(*old(s), *final(s), tokens_field(n), 0),
        r matches Ok(n) ==> (n.alias is Some <==> (old(s).len() > 1 && old(s).remaining()[1].0
            == TokenKind::Colon)),
        r matches Ok(n) ==> (n.alias matches Some(a) ==> raw_view(a.name.0) == old(s).remaining()[0]
            && raw_view(a.colon.0) == old(s).remaining()[1]),
        r matches Ok(n) ==> (n.alias is None ==> (n.name matches Recoverable::Present(f) && raw_view(
            f.0,
        ) == old(s).remaining()[0])),
        r matches Ok(n) ==> (n.alias is Some ==> (n.name matches Recoverable::Present(f) ==> exists|
            j: int,
        |
            2 <= j < old(s).len() && raw_view(f.0) == #[trigger] old(s).remaining()[j] && forall|
                k: int,
            |
                2 <= k < j ==> !accepts(
                    RecoveryPoint::spec_from_kind(TokenKind::Name),
                    #[trigger] old(s).remaining()[k].0,
                ))),
    decreases depth, 1nat,
{
    let at = RecoveryPoint::from_kind(TokenKind::At);
    let brace = RecoveryPoint::from_kind(TokenKind::BraceLeft);
    let paren = RecoveryPoint::from_kind(TokenKind::ParenLeft);
    let first = name(s)?;
    let ghost after_first = *s;
    let alias = if s.recognize(RecoveryPoint::from_kind(TokenKind::Colon)) {
        let colon = punctuator(s, TokenKind::Colon)?;
        let ghost after_colon = *s;
        let field_name = if s.discard(
            RecoveryPoint::from_kind(TokenKind::Name),
            rp.or(paren).or(at).or(brace),
        ) {
            let ghost d = after_colon.len() - s.len();
            let f = name(s)?;
            proof {
                let j = d + 2;
                assert(after_first.remaining() == old(s).remaining().drop_first());
                assert(after_colon.remaining() == after_first.remaining().drop_first());
                assert(old(s).remaining()[j] == after_colon.remaining()[d]);
                assert forall|k: int| 2 <= k < j implies !accepts(
                    RecoveryPoint::spec_from_kind(TokenKind::Name),
                    #[trigger] old(s).remaining()[k].0,
                ) by {
                    assert(old(s).remaining()[k] == after_colon.remaining()[k - 2]);
                }
            }
            Recoverable::Present(f)
        } else {
            Recoverable::Missing(missing_unary(s, DiagnosticKind::MissingFieldName))
        };
        Some((colon, field_name))
    } else {
        None
    };
    let args = if s.recognize(paren) {
        Some(Shared::new(arguments(s, rp.or(at).or(brace))?))
    } else {
        None
    };
    let directive_list = if s.recognize(at) {
        Some(directives(s, rp.or(brace))?)
    } else {
        None
    };
    let set = if s.recognize(brace) {
        Some(Shared::new(selection_set(s, rp, depth)?))
    } else {
        None
    };
    match alias {
        Some((colon, field_name)) => Ok(
            Field {
                alias: Some(Alias { name: first, colon }),
                name: field_name,
                arguments: args,
                directives: directive_list,
                selection_set: set,
            },
        ),
        None => Ok(
            Field {
                alias: None,
                name: Recoverable::Present(first),
                arguments: args,
                directives: directive_list,
                selection_set: set,
            },
        ),
    }
}

/// Parses a fragment spread after its dots: the name of the fragment and
/// directives.
#[verifier::spinoff_prover]
pub fn fragment_spread(s: &mut Stream, rp: RecoveryPoint, dots: Punctuator) -> (r: Result<
    Shared<FragmentSpread>,
    Error,
>)
    requires
        old(s).wf(),
        ends_with(old(s).read_log(), seq![dots.0.span]),
    ensures
        advanced(*old(s), *final(s)),
        r matches Err(Error::MaxRecursion(_)) ==> old(s).len() > RECURSION_LIMIT,
        begins(*old(s), set![TokenKind::Name], true) ==> !(r matches Err(Error::Expected(_))),
        r matches Ok(n) ==> final(s).len() < old(s).len() && all_recorded(
            sites_fragment_spread(*n.0),
        ) && read_into(*old(s), *final(s), tokens_fragment_spread(*n.0), 1),
{
    let fragment_name = name_unless_on(s)?;
    let directive_list = if s.recognize(RecoveryPoint::from_kind(TokenKind::At)) {
        Some(directives(s, rp)?)
    } else {
        None
    };
    Ok(Shared::new(FragmentSpread { dots, fragment_name, directives: directive_list }))
}

/// Parses an inline fragment after its dots: a type condition, directives
/// and a selection set nested `depth` deep at most.
#[verifier::spinoff_prover]
#[verifier::rlimit(100)]
pub fn inline_fragment(s: &mut Stream, rp: RecoveryPoint, dots: Punctuator, depth: usize) -> (r:
    Result<InlineFragment, Error>)
    requires
        old(s).wf(),
        ends_with(old(s).read_log(), seq![dots.0.span]),
        old(s).started(),
    ensures
        advanced(*old(s), *final(s)),
        r matches Err(Error::MaxRecursion(_)) ==> old(s).len() > depth || old(s).len() > RECURSION_LIMIT,
        !(r matches Err(Error::Expected(_))),
        r matches Ok(n) ==> all_recorded(sites_inline_fragment(n)) && read_into(*old(s), *final(s), tokens_inline_fragment(n), 1),
    decreases depth, 1nat,
{
    let at = RecoveryPoint::from_kind(TokenKind::At);
    let brace = RecoveryPoint::from_kind(TokenKind::BraceLeft);
    let condition = if s.recognize(RecoveryPoint::from_kind(TokenKind::KeywordOn)) {
        Some(type_condition(s, rp.or(brace).or(at))?)
    } else {
        None
    };
    let directive_list = if s.recognize(at) {
        Some(directives(s, rp.or(brace))?)
    } else {
        None
    };
    let set = if s.discard(brace, rp) {
        Recoverable::Present(Shared::new(selection_set(s, rp, depth)?))
    } else {
        Recoverable::Missing(missing_unary(s, DiagnosticKind::MissingInlineFragmentSelectionSet))
    };
    Ok(InlineFragment { dots, type_condition: condition, directives: directive_list, selection_set: set })
}

/// Parses a fragment definition: the keyword, a name, a type condition,
/// directives and a selection set.
#[verifier::spinoff_prover]
#[verifier::rlimit(60)]
pub fn fragment_definition(s: &mut Stream, rp: RecoveryPoint) -> (r: Result<
    FragmentDefinition,
    Error,
>)
    requires
        old(s).wf(),
    ensures
        advanced(*old(s), *final(s)),
        r matches Err(Error::MaxRecursion(_)) ==> old(s).len() > RECURSION_LIMIT,
        begins(*old(s), set![TokenKind::KeywordFragment], false) ==> !(r matches Err(Error::Expected(_))),
        r matches Ok(n) ==> final(s).len() < old(s).len() && all_recorded(
            sites_fragment_definition(n),
        ) && read_into(*old(s), *final(s), tokens_fragment_definition(n), 0),
        r matches Ok(n) ==> (n.fragment_name matches Recoverable::Missing(m) ==> m.missing == Missing::Unary(DiagnosticKind::MissingFragmentName)),
        r matches Ok(n) ==> (n.type_condition matches Recoverable::Missing(m) ==> m.missing == Missing::Unary(DiagnosticKind::MissingFragmentTypeCondition)),
{
    let at = RecoveryPoint::from_kind(TokenKind::At);
    let brace = RecoveryPoint::from_kind(TokenKind::BraceLeft);
    let on = RecoveryPoint::from_kind(TokenKind::KeywordOn);
    let fragment = keyword(s, TokenKind::KeywordFragment)?;
    let fragment_name = if s.discard(RecoveryPoint::name_unless_on(), rp.or(on).or(at).or(brace)) {
        Recoverable::Present(name_unless_on(s)?)
    } else {
        Recoverable::Missing(missing_unary(s, DiagnosticKind::MissingFragmentName))
    };
    let condition = if s.discard(on, rp.or(at).or(brace)) {
        Recoverable::Present(type_condition(s, rp.or(at).or(brace))?)
    } else {
        Recoverable::Missing(missing_unary(s, DiagnosticKind::MissingFragmentTypeCondition))
    };
    let directive_list = if s.recognize(at) {
        Some(directives(s, rp.or(brace))?)
    } else {
        None
    };
    let set = if s.discard(brace, rp) {
        Recoverable::Present(Shared::new(selection_set(s, rp, RECURSION_LIMIT)?))
    } else {
        Recoverable::Missing(missing_unary(s, DiagnosticKind::MissingFragmentSelectionSet))
    };
    Ok(
        FragmentDefinition {
            fragment,
            fragment_name,
            type_condition: condition,
            directives: directive_list,
            selection_set: set,
        },
    )
}

/// Parses a type condition: `on` and a named type.
#[verifier::spinoff_prover]
pub fn type_condition(s: &mut Stream, rp: RecoveryPoint) -> (r: Result<TypeCondition, Error>)
    requires
        old(s).wf(),
    ensures
        advanced(*old(s), *final(s)),
        r matches Err(Error::MaxRecursion(_)) ==> old(s).len() > RECURSION_LIMIT,
        begins(*old(s), set![TokenKind::KeywordOn], false) ==> !(r matches Err(Error::Expected(_))),
        r matches Ok(n) ==> final(s).len() < old(s).len() && all_recorded(sites_type_condition(n)) && read_into(*old(s), *final(s), tokens_type_condition(n), 0),
        r matches Ok(n) ==> (n.named_type matches Recoverable::Missing(m) ==> m.missing == Missing::Unary(DiagnosticKind::MissingTypeConditionNamedType)),
{
    let on = keyword(s, TokenKind::KeywordOn)?;
    let named = if s.discard(RecoveryPoint::from_kind(TokenKind::Name), rp) {
        Recoverable::Present(named_type(s)?)
    } else {
        Recoverable::Missing(missing_unary(s, DiagnosticKind::MissingTypeConditionNamedType))
    };
    Ok(TypeCondition { on, named_type: named })
}

/// Parses variable definitions: a list of them in parentheses.
#[verifier::spinoff_prover]
pub fn variable_definitions(s: &mut Stream, rp: RecoveryPoint) -> (r: Result<
    VariableDefinitions,
    Error,
>)
    requires
        old(s).wf(),
    ensures
        advanced(*old(s), *final(s)),
        r matches Err(Error::MaxRecursion(_)) ==> old(s).len() > RECURSION_LIMIT,
        begins(*old(s), set![TokenKind::ParenLeft], false) ==> !(r matches Err(Error::Expected(_))),
        r matches Ok(n) ==> final(s).len() < old(s).len() && all_recorded(
            sites_variable_definitions(n),
        ) && read_into(*old(s), *final(s), tokens_variable_definitions(n), 0),
        r matches Ok(n) ==> (n.parens.1 matches Recoverable::Missing(m) ==> m.missing is Binary && m.missing->Binary_0 == DiagnosticKind::MissingVariableDefinitionsClosingParenthesis),
{
    let left = punctuator(s, TokenKind::ParenLeft)?;
    let close = RecoveryPoint::from_kind(TokenKind::ParenRight);
    let item = RecoveryPoint::from_kind(TokenKind::Dollar);
    let inner = rp.or(close);
    let next = inner.or(item);
    let mut items: Vec<Shared<VariableDefinition>> = Vec::new();
    let ghost entry = *s;
    loop
        invariant
            item.kinds@ == set![TokenKind::Dollar],
            !item.exclude_on,
            advanced(*old(s), *s),
            s.len() < old(s).len(),
            all_recorded(sites_list_shared_variable_definition(items@)),
            entry.len() - s.len() == tokens_list_shared_variable_definition(items@).len() + s.skipped().len() - entry.skipped().len(),
            s.read_log() == entry.read_log() + tokens_list_shared_variable_definition(items@),
        decreases s.len(),
    {
        if !s.discard(item, inner) {
            break;
        }
        let d = variable_definition(s, next)?;
        let ghost before = items@;
        items.push(d);
        assert(items@.drop_last() =~= before);
    }
    let right = if s.discard(close, rp) {
        Recoverable::Present(punctuator(s, TokenKind::ParenRight)?)
    } else {
        Recoverable::Missing(
            missing_binary(
                s,
                DiagnosticKind::MissingVariableDefinitionsClosingParenthesis,
                left.span(),
            ),
        )
    };
    Ok(VariableDefinitions { parens: (left, right), variable_definitions: List(items) })
}

/// Parses a variable definition: a variable, a colon, a type, a default
/// value and directives.
#[verifier::spinoff_prover]
pub fn variable_definition(s: &mut Stream, rp: RecoveryPoint) -> (r: Result<
    Shared<VariableDefinition>,
    Error,
>)
    requires
        old(s).wf(),
    ensures
        advanced(*old(s), *final(s)),
        r matches Err(Error::MaxRecursion(_)) ==> old(s).len() > RECURSION_LIMIT,
        begins(*old(s), set![TokenKind::Dollar], false) ==> !(r matches Err(Error::Expected(_))),
        r matches Ok(n) ==> final(s).len() < old(s).len() && all_recorded(
            sites_variable_definition(*n.0),
        ) && read_into(*old(s), *final(s), tokens_variable_definition(*n.0), 0),
        r matches Ok(n) ==> ((*n.0).colon matches Recoverable::Missing(m) ==> m.missing == Missing::Unary(DiagnosticKind::MissingVariableDefinitionColon)),
        r matches Ok(n) ==> ((*n.0).ty matches Recoverable::Missing(m) ==> m.missing == Missing::Unary(DiagnosticKind::MissingVariableDefinitionType)),
{
    let at = RecoveryPoint::from_kind(TokenKind::At);
    let eq = RecoveryPoint::from_kind(TokenKind::Eq);
    let colon_point = RecoveryPoint::from_kind(TokenKind::Colon);
    let start = type_start();
    let v = variable(s, rp.or(colon_point).or(start).or(eq).or(at))?;
    let colon = if s.discard(colon_point, rp.or(start).or(eq).or(at)) {
        Recoverable::Present(punctuator(s, TokenKind::Colon)?)
    } else {
        Recoverable::Missing(missing_unary(s, DiagnosticKind::MissingVariableDefinitionColon))
    };
    let t = if s.discard(start, rp.or(eq).or(at)) {
        Recoverable::Present(ty(s, rp.or(eq).or(at), RECURSION_LIMIT)?)
    } else {
        Recoverable::Missing(missing_unary(s, DiagnosticKind::MissingVariableDefinitionType))
    };
    let default = if s.recognize(eq) {
        Some(default_value(s, rp.or(at))?)
    } else {
        None
    };
    let directive_list = if s.recognize(at) {
        Some(directives(s, rp)?)
    } else {
        None
    };
    Ok(
        Shared::new(
            VariableDefinition {
                variable: v,
                colon,
                ty: t,
                default_value: default,
                directives: directive_list,
            },
        ),
    )
}

} // verus!
