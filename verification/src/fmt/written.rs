//! What formatting writes, read as tokens: every token of a node, in the
//! order of the source, and nothing else but layout.
use vstd::prelude::*;

use crate::ast::context::{node_of, Shared};
use crate::ast::types::{
    Alias, Argument, Arguments, BooleanValue, DefaultValue, Directive, Directives,
    ExecutableDefinition, Field, FragmentDefinition, FragmentSpread, InlineFragment, ListType,
    ListValue, NonNullType, ObjectField, ObjectValue, OperationDefinition, OperationType, Recoverable,
    Selection, SelectionSet, Type, TypeCondition, Value, Variable, VariableDefinition,
    VariableDefinitions,
};
use crate::lex::token::{Name, Punctuator};

use super::layout::{
    is_layout, lemma_comma_is_layout, lemma_written_at_shape, lemma_written_join, lemma_written_lines,
    lemma_written_push, lemma_written_spacing, token_text, written,
};
use super::type_refs::{list_type_collapsed, non_null_type_collapsed, type_collapsed};
use super::types::{
    page_item, comma_item, each_item, fold, formatted, indent_open_step, indented, line_comma_item, line_item, lines_step,
    nothing, squeezed, squeezed_push_step, then, Format, Shape,
};
use super::selections::{
    field_collapsed, inline_fragment_collapsed, selection_collapsed, selection_line_step,
    selection_set_collapsed, selections_any_expand, selections_each, selections_line,
};
use super::values::{
    field_line_comma_step, fields_each, fields_line_comma, list_value_collapsed, list_value_expanded,
    object_field_collapsed, object_value_collapsed, object_value_expanded, value_collapsed,
    value_comma_step, value_expanded, value_formatted, value_line_comma_step, value_overflows,
    values_any_expand, values_comma, values_line_comma,
};

verus! {

broadcast use {
    lemma_written_join,
    lemma_written_spacing,
    lemma_written_at_shape,
    lemma_written_push,
    lemma_written_lines,
    Seq::add_empty_left,
    Seq::add_empty_right,
};

/// Both layouts of `x`, from any shape, write `texts`.
pub open spec fn writes_texts<T: Format>(x: T, texts: Seq<Seq<char>>) -> bool {
    &&& forall|sh: Shape| #[trigger] written(x.collapsed(sh).0) == texts
    &&& forall|sh: Shape| #[trigger] written(x.expanded(sh).0) == texts
}

/// The texts of the items, one after the other.
pub open spec fn all_texts<T>(items: Seq<T>, f: spec_fn(T) -> Seq<Seq<char>>) -> Seq<Seq<char>>
    decreases items.len(),
{
    if items.len() == 0 {
        Seq::empty()
    } else {
        all_texts(items.drop_last(), f) + f(items.last())
    }
}

// The tokens of nodes, in the order of the source.
pub open spec fn texts_name(n: Name) -> Seq<Seq<char>> {
    token_text(n.0.source@)
}

pub open spec fn texts_punctuator(n: Punctuator) -> Seq<Seq<char>> {
    token_text(n.0.source@)
}

pub open spec fn texts_closing(n: Recoverable<Punctuator>) -> Seq<Seq<char>> {
    match n {
        Recoverable::Present(x) => texts_punctuator(x),
        Recoverable::Missing(_) => Seq::empty(),
    }
}

pub open spec fn texts_variable(n: Variable) -> Seq<Seq<char>> {
    texts_punctuator(n.dollar) + match n.name {
        Recoverable::Present(x) => texts_name(x),
        Recoverable::Missing(_) => Seq::empty(),
    }
}

pub open spec fn texts_boolean_value(n: BooleanValue) -> Seq<Seq<char>> {
    match n {
        BooleanValue::True(x) => texts_name(x),
        BooleanValue::False(x) => texts_name(x),
    }
}

pub open spec fn texts_value(v: Value) -> Seq<Seq<char>>
    decreases v, 1nat,
{
    match v {
        Value::Variable(x) => texts_variable(x),
        Value::IntValue(x) => token_text(x.0.source@),
        Value::FloatValue(x) => token_text(x.0.source@),
        Value::StringValue(x) => token_text(x.0.source@),
        Value::BooleanValue(x) => texts_boolean_value(x),
        Value::NullValue(x) => texts_name(x.0),
        Value::EnumValue(x) => texts_name(x.0),
        Value::ListValue(x) => texts_list_value(x),
        Value::ObjectValue(x) => texts_object_value(x),
    }
}

pub open spec fn texts_list_value(n: ListValue) -> Seq<Seq<char>>
    decreases n, 0nat,
{
    texts_punctuator(n.brackets.0) + texts_values(n.values.0@) + texts_closing(n.brackets.1)
}

pub open spec fn texts_values(s: Seq<Shared<Value>>) -> Seq<Seq<char>>
    decreases s, 0nat,
{
    if s.len() == 0 {
        Seq::empty()
    } else {
        texts_values(s.drop_last()) + texts_value(*s.last().0)
    }
}

pub open spec fn texts_object_value(n: ObjectValue) -> Seq<Seq<char>>
    decreases n, 0nat,
{
    texts_punctuator(n.braces.0) + texts_object_fields(n.object_fields.0@) + texts_closing(
        n.braces.1,
    )
}

pub open spec fn texts_object_fields(s: Seq<ObjectField>) -> Seq<Seq<char>>
    decreases s, 0nat,
{
    if s.len() == 0 {
        Seq::empty()
    } else {
        texts_object_fields(s.drop_last()) + texts_object_field(s.last())
    }
}

pub open spec fn texts_object_field(n: ObjectField) -> Seq<Seq<char>>
    decreases n, 0nat,
{
    texts_name(n.name) + texts_closing(n.colon) + match n.value {
        Recoverable::Present(x) => texts_value(*x.0),
        Recoverable::Missing(_) => Seq::empty(),
    }
}

pub open spec fn texts_argument(n: Argument) -> Seq<Seq<char>> {
    texts_name(n.name) + texts_closing(n.colon) + match n.value {
        Recoverable::Present(x) => texts_value(*x.0),
        Recoverable::Missing(_) => Seq::empty(),
    }
}

pub open spec fn argument_texts() -> spec_fn(Shared<Argument>) -> Seq<Seq<char>> {
    |x: Shared<Argument>| texts_argument(*x.0)
}

pub open spec fn texts_arguments(n: Arguments) -> Seq<Seq<char>> {
    texts_punctuator(n.parens.0) + all_texts(n.items.0@, argument_texts()) + texts_closing(
        n.parens.1,
    )
}

pub open spec fn texts_directive(n: Directive) -> Seq<Seq<char>> {
    texts_punctuator(n.at) + match n.name {
        Recoverable::Present(x) => texts_name(x),
        Recoverable::Missing(_) => Seq::empty(),
    } + match n.arguments {
        Some(x) => texts_arguments(*x.0),
        None => Seq::empty(),
    }
}

pub open spec fn directive_texts() -> spec_fn(Shared<Directive>) -> Seq<Seq<char>> {
    |x: Shared<Directive>| texts_directive(*x.0)
}

pub open spec fn texts_directives(n: Directives) -> Seq<Seq<char>> {
    all_texts(n.directives.0@, directive_texts())
}

pub open spec fn texts_fragment_spread(n: FragmentSpread) -> Seq<Seq<char>> {
    texts_punctuator(n.dots) + texts_name(n.fragment_name) + match n.directives {
        Some(x) => texts_directives(x),
        None => Seq::empty(),
    }
}

pub open spec fn texts_alias(n: Alias) -> Seq<Seq<char>> {
    texts_name(n.name) + texts_punctuator(n.colon)
}

pub open spec fn texts_type_condition(n: TypeCondition) -> Seq<Seq<char>> {
    texts_name(n.on) + match n.named_type {
        Recoverable::Present(x) => texts_name(x.0),
        Recoverable::Missing(_) => Seq::empty(),
    }
}

pub open spec fn texts_field(n: Field) -> Seq<Seq<char>>
    decreases n, 0nat,
{
    (match n.alias {
        Some(x) => texts_alias(x),
        None => Seq::empty(),
    }) + match n.name {
        Recoverable::Present(x) => texts_name(x),
        Recoverable::Missing(_) => Seq::empty(),
    } + match n.arguments {
        Some(x) => texts_arguments(*x.0),
        None => Seq::empty(),
    } + match n.directives {
        Some(x) => texts_directives(x),
        None => Seq::empty(),
    } + match n.selection_set {
        Some(x) => texts_selection_set(*x.0),
        None => Seq::empty(),
    }
}

pub open spec fn texts_selection_set(n: SelectionSet) -> Seq<Seq<char>>
    decreases n, 0nat,
{
    texts_punctuator(n.braces.0) + texts_selections(n.selections.0@) + texts_closing(n.braces.1)
}

pub open spec fn texts_selections(s: Seq<Selection>) -> Seq<Seq<char>>
    decreases s, 0nat,
{
    if s.len() == 0 {
        Seq::empty()
    } else {
        texts_selections(s.drop_last()) + texts_selection(s.last())
    }
}

pub open spec fn texts_selection(s: Selection) -> Seq<Seq<char>>
    decreases s, 1nat,
{
    match s {
        Selection::Field(x) => texts_field(*x.0),
        Selection::FragmentSpread(x) => texts_fragment_spread(*x.0),
        Selection::InlineFragment(x) => texts_inline_fragment(x),
    }
}

pub open spec fn texts_inline_fragment(n: InlineFragment) -> Seq<Seq<char>>
    decreases n, 0nat,
{
    texts_punctuator(n.dots) + match n.type_condition {
        Some(x) => texts_type_condition(x),
        None => Seq::empty(),
    } + match n.directives {
        Some(x) => texts_directives(x),
        None => Seq::empty(),
    } + match n.selection_set {
        Recoverable::Present(x) => texts_selection_set(*x.0),
        Recoverable::Missing(_) => Seq::empty(),
    }
}

pub open spec fn texts_type(t: Type) -> Seq<Seq<char>>
    decreases t, 1nat,
{
    match t {
        Type::Named(x) => texts_name(x.0),
        Type::List(x) => texts_list_type(x),
        Type::NonNull(x) => texts_non_null_type(x),
    }
}

pub open spec fn texts_list_type(n: ListType) -> Seq<Seq<char>>
    decreases n, 0nat,
{
    texts_punctuator(n.brackets.0) + match n.ty {
        Recoverable::Present(x) => texts_type(*x.0),
        Recoverable::Missing(_) => Seq::empty(),
    } + texts_closing(n.brackets.1)
}

pub open spec fn texts_non_null_type(n: NonNullType) -> Seq<Seq<char>>
    decreases n, 0nat,
{
    texts_type(*n.ty.0) + texts_punctuator(n.bang)
}

pub open spec fn texts_operation_type(n: OperationType) -> Seq<Seq<char>> {
    match n {
        OperationType::Query(x) => texts_name(x),
        OperationType::Mutation(x) => texts_name(x),
        OperationType::Subscription(x) => texts_name(x),
    }
}

pub open spec fn texts_default_value(n: DefaultValue) -> Seq<Seq<char>> {
    texts_punctuator(n.eq) + match n.value {
        Recoverable::Present(x) => texts_value(*x.0),
        Recoverable::Missing(_) => Seq::empty(),
    }
}

pub open spec fn texts_variable_definition(n: VariableDefinition) -> Seq<Seq<char>> {
    texts_variable(n.variable) + texts_closing(n.colon) + match n.ty {
        Recoverable::Present(x) => texts_type(*x.0),
        Recoverable::Missing(_) => Seq::empty(),
    } + match n.default_value {
        Some(x) => texts_default_value(x),
        None => Seq::empty(),
    } + match n.directives {
        Some(x) => texts_directives(x),
        None => Seq::empty(),
    }
}

pub open spec fn variable_definition_texts() -> spec_fn(Shared<VariableDefinition>) -> Seq<Seq<char>> {
    |x: Shared<VariableDefinition>| texts_variable_definition(*x.0)
}

pub open spec fn texts_variable_definitions(n: VariableDefinitions) -> Seq<Seq<char>> {
    texts_punctuator(n.parens.0) + all_texts(n.variable_definitions.0@, variable_definition_texts())
        + texts_closing(n.parens.1)
}

pub open spec fn texts_operation_definition(n: OperationDefinition) -> Seq<Seq<char>> {
    (match n.ty {
        Some(x) => texts_operation_type(x),
        None => Seq::empty(),
    }) + match n.name {
        Some(x) => texts_name(x),
        None => Seq::empty(),
    } + match n.variable_definitions {
        Some(x) => texts_variable_definitions(x),
        None => Seq::empty(),
    } + match n.directives {
        Some(x) => texts_directives(x),
        None => Seq::empty(),
    } + match n.selection_set {
        Recoverable::Present(x) => texts_selection_set(*x.0),
        Recoverable::Missing(_) => Seq::empty(),
    }
}

pub open spec fn texts_fragment_definition(n: FragmentDefinition) -> Seq<Seq<char>> {
    texts_name(n.fragment) + match n.fragment_name {
        Recoverable::Present(x) => texts_name(x),
        Recoverable::Missing(_) => Seq::empty(),
    } + match n.type_condition {
        Recoverable::Present(x) => texts_type_condition(x),
        Recoverable::Missing(_) => Seq::empty(),
    } + match n.directives {
        Some(x) => texts_directives(x),
        None => Seq::empty(),
    } + match n.selection_set {
        Recoverable::Present(x) => texts_selection_set(*x.0),
        Recoverable::Missing(_) => Seq::empty(),
    }
}

pub open spec fn texts_executable_definition(n: ExecutableDefinition) -> Seq<Seq<char>> {
    match n {
        ExecutableDefinition::OperationDefinition(x) => texts_operation_definition(*x.0),
        ExecutableDefinition::FragmentDefinition(x) => texts_fragment_definition(*x.0),
    }
}

// The wrappers.
/// How a node is laid out from any shape writes what both its layouts write.
pub proof fn lemma_formatted<T: Format>(x: T, texts: Seq<Seq<char>>)
    requires
        writes_texts(x, texts),
    ensures
        forall|sh: Shape| #[trigger] written(formatted(&x, sh).0) == texts,
{
    assert forall|sh: Shape| #[trigger] written(formatted(&x, sh).0) == texts by {
        assert(written(x.collapsed(sh).0) == texts);
        assert(written(x.expanded(sh).0) == texts);
    }
}

pub proof fn lemma_option<T: Format>(o: Option<T>, texts: Seq<Seq<char>>)
    requires
        o matches Some(x) ==> writes_texts(x, texts),
        o is None ==> texts == Seq::<Seq<char>>::empty(),
    ensures
        writes_texts(o, texts),
        forall|sh: Shape| #[trigger] written(formatted(&o, sh).0) == texts,
{
    assert forall|sh: Shape| #[trigger] written(o.collapsed(sh).0) == texts by {
        if let Some(x) = o {
            assert(written(x.collapsed(sh).0) == texts);
        }
    }
    assert forall|sh: Shape| #[trigger] written(o.expanded(sh).0) == texts by {
        if let Some(x) = o {
            assert(written(x.expanded(sh).0) == texts);
        }
    }
    lemma_formatted(o, texts);
}

pub proof fn lemma_recoverable<T: Format>(o: Recoverable<T>, texts: Seq<Seq<char>>)
    requires
        o matches Recoverable::Present(x) ==> writes_texts(x, texts),
        o is Missing ==> texts == Seq::<Seq<char>>::empty(),
    ensures
        writes_texts(o, texts),
        forall|sh: Shape| #[trigger] written(formatted(&o, sh).0) == texts,
{
    assert forall|sh: Shape| #[trigger] written(o.collapsed(sh).0) == texts by {
        if let Recoverable::Present(x) = o {
            assert(written(x.collapsed(sh).0) == texts);
        }
    }
    assert forall|sh: Shape| #[trigger] written(o.expanded(sh).0) == texts by {
        if let Recoverable::Present(x) = o {
            assert(written(x.expanded(sh).0) == texts);
        }
    }
    lemma_formatted(o, texts);
}

pub proof fn lemma_shared<T: Format>(o: Shared<T>, texts: Seq<Seq<char>>)
    requires
        writes_texts(*o.0, texts),
    ensures
        writes_texts(o, texts),
        forall|sh: Shape| #[trigger] written(formatted(&o, sh).0) == texts,
{
    assert forall|sh: Shape| #[trigger] written(o.collapsed(sh).0) == texts by {
        assert(written((*o.0).collapsed(sh).0) == texts);
    }
    assert forall|sh: Shape| #[trigger] written(o.expanded(sh).0) == texts by {
        assert(written((*o.0).expanded(sh).0) == texts);
    }
    lemma_formatted(o, texts);
}

/// Items laid out one after the other, each on a line of its own, or each
/// on a line of its own with a comma, write the tokens of each in turn.
pub proof fn lemma_fold_texts<T: Format>(items: Seq<T>, sh: Shape, f: spec_fn(T) -> Seq<Seq<char>>)
    requires
        forall|i: int| 0 <= i < items.len() ==> writes_texts(#[trigger] items[i], f(items[i])),
    ensures
        written(fold(items, sh, each_item::<T>()).0) == all_texts(items, f),
        written(fold(items, sh, line_item::<T>()).0) == all_texts(items, f),
        written(fold(items, sh, line_comma_item::<T>()).0) == all_texts(items, f),
        written(fold(items, sh, comma_item::<T>()).0) == all_texts(items, f),
        written(fold(items, sh, page_item::<T>()).0) == all_texts(items, f),
    decreases items.len(),
{
    if items.len() > 0 {
        let shorter = items.drop_last();
        assert forall|i: int| 0 <= i < shorter.len() implies writes_texts(
            #[trigger] shorter[i],
            f(shorter[i]),
        ) by {
            assert(shorter[i] == items[i]);
        }
        lemma_fold_texts(shorter, sh, f);
        let x = items.last();
        assert(writes_texts(items[items.len() - 1], f(items[items.len() - 1])));
        lemma_formatted(x, f(x));
        lemma_comma_is_layout();
    }
}

// The laws.
/// A token writes its own text.
pub proof fn law_written_name(n: Name)
    ensures
        writes_texts(n, texts_name(n)),
        forall|sh: Shape| #[trigger] written(formatted(&n, sh).0) == texts_name(n),
{
    lemma_formatted(n, texts_name(n));
}

/// A punctuator writes its own text.
pub proof fn law_written_punctuator(n: Punctuator)
    ensures
        writes_texts(n, texts_punctuator(n)),
        forall|sh: Shape| #[trigger] written(formatted(&n, sh).0) == texts_punctuator(n),
{
    lemma_formatted(n, texts_punctuator(n));
}

pub proof fn lemma_written_closing(n: Recoverable<Punctuator>)
    ensures
        writes_texts(n, texts_closing(n)),
        forall|sh: Shape| #[trigger] written(formatted(&n, sh).0) == texts_closing(n),
{
    if let Recoverable::Present(x) = n {
        law_written_punctuator(x);
    }
    lemma_recoverable(n, texts_closing(n));
}

proof fn lemma_written_recoverable_name(n: Recoverable<Name>)
    ensures
        writes_texts(
            n,
            match n {
                Recoverable::Present(x) => texts_name(x),
                Recoverable::Missing(_) => Seq::empty(),
            },
        ),
        forall|sh: Shape| #[trigger]
            written(formatted(&n, sh).0) == match n {
                Recoverable::Present(x) => texts_name(x),
                Recoverable::Missing(_) => Seq::<Seq<char>>::empty(),
            },
{
    if let Recoverable::Present(x) = n {
        law_written_name(x);
    }
    lemma_recoverable(
        n,
        match n {
            Recoverable::Present(x) => texts_name(x),
            Recoverable::Missing(_) => Seq::empty(),
        },
    );
}

/// A variable writes `$` and its name.
pub proof fn law_written_variable(n: Variable)
    ensures
        writes_texts(n, texts_variable(n)),
{
    law_written_punctuator(n.dollar);
    lemma_written_recoverable_name(n.name);
}

/// A value writes its tokens, in order, whichever way it is laid out.
pub proof fn law_written_value(v: Value)
    ensures
        writes_texts(v, texts_value(v)),
        forall|sh: Shape| #[trigger] written(value_collapsed(v, sh).0) == texts_value(v),
        forall|sh: Shape| #[trigger] written(value_expanded(v, sh).0) == texts_value(v),
        forall|sh: Shape| #[trigger] written(value_formatted(v, sh).0) == texts_value(v),
    decreases v, 3nat,
{
    assert forall|sh: Shape| #[trigger] written(value_collapsed(v, sh).0) == texts_value(v) by {
        lemma_value_at(v, sh);
    }
    assert forall|sh: Shape| #[trigger] written(value_expanded(v, sh).0) == texts_value(v) by {
        lemma_value_at(v, sh);
    }
    assert forall|sh: Shape| #[trigger] written(value_formatted(v, sh).0) == texts_value(v) by {
        lemma_value_at(v, sh);
    }
    assert forall|sh: Shape| #[trigger] written(v.collapsed(sh).0) == texts_value(v) by {
        lemma_value_at(v, sh);
    }
    assert forall|sh: Shape| #[trigger] written(v.expanded(sh).0) == texts_value(v) by {
        lemma_value_at(v, sh);
    }
}

proof fn lemma_value_at(v: Value, sh: Shape)
    ensures
        written(value_collapsed(v, sh).0) == texts_value(v),
        written(value_expanded(v, sh).0) == texts_value(v),
        written(value_formatted(v, sh).0) == texts_value(v),
    decreases v, 2nat,
{
    match v {
        Value::Variable(x) => {
            law_written_variable(x);
            assert(written(x.collapsed(sh).0) == texts_variable(x));
            assert(written(x.expanded(sh).0) == texts_variable(x));
        },
        Value::BooleanValue(x) => {
            match x {
                BooleanValue::True(y) => {
                    assert(written(y.collapsed(sh).0) == texts_name(y));
                },
                BooleanValue::False(y) => {
                    assert(written(y.collapsed(sh).0) == texts_name(y));
                },
            }
        },
        Value::ListValue(x) => {
            law_written_list_value(x);
            assert(written(list_value_collapsed(x, sh).0) == texts_list_value(x));
            assert(written(list_value_expanded(x, sh).0) == texts_list_value(x));
        },
        Value::ObjectValue(x) => {
            law_written_object_value(x);
            assert(written(object_value_collapsed(x, sh).0) == texts_object_value(x));
            assert(written(object_value_expanded(x, sh).0) == texts_object_value(x));
        },
        _ => {
        },
    }
    assert(value_formatted(v, sh) == value_expanded(v, sh) || value_formatted(v, sh)
        == value_collapsed(v, sh));
}

/// A list value writes its brackets and its values, in order.
pub proof fn law_written_list_value(n: ListValue)
    ensures
        forall|sh: Shape| #[trigger] written(list_value_collapsed(n, sh).0) == texts_list_value(n),
        forall|sh: Shape| #[trigger] written(list_value_expanded(n, sh).0) == texts_list_value(n),
    decreases n, 1nat,
{
    law_written_punctuator(n.brackets.0);
    lemma_written_closing(n.brackets.1);
    let s = n.values.0@;
    assert forall|sh: Shape| #[trigger]
        written(list_value_collapsed(n, sh).0) == texts_list_value(n) by {
        let s1 = formatted(&n.brackets.0, sh);
        lemma_values_texts(s, s1.1.with_whitespace(true));
        let s2 = squeezed(s1.1, values_comma(s, s1.1.with_whitespace(true)));
        let s3 = squeezed(s2.1, formatted(&n.brackets.1, s2.1.with_whitespace(true)));
        assert(written(s1.0) == texts_punctuator(n.brackets.0));
        assert(written(s2.0) == texts_values(s));
        assert(written(s3.0) == texts_closing(n.brackets.1));
    }
    assert forall|sh: Shape| #[trigger]
        written(list_value_expanded(n, sh).0) == texts_list_value(n) by {
        let s1 = formatted(&n.brackets.0, sh);
        let start = indent_open_step(s1.1).1;
        lemma_values_texts(s, start);
        let s2 = if values_any_expand(s) {
            indented(s1.1, values_line_comma(s, start))
        } else {
            indented(s1.1, values_comma(s, start))
        };
        let s3 = squeezed(s2.1, formatted(&n.brackets.1, s2.1.with_whitespace(true)));
        assert(written(s1.0) == texts_punctuator(n.brackets.0));
        assert(written(s2.0) == texts_values(s));
        assert(written(s3.0) == texts_closing(n.brackets.1));
    }
}

proof fn lemma_values_texts(s: Seq<Shared<Value>>, sh: Shape)
    ensures
        written(values_comma(s, sh).0) == texts_values(s),
        written(values_line_comma(s, sh).0) == texts_values(s),
    decreases s, 0nat,
{
    if s.len() > 0 {
        lemma_values_texts(s.drop_last(), sh);
        let v = node_of(s.last());
        law_written_value(v);
        lemma_comma_is_layout();
        let before = values_comma(s.drop_last(), sh);
        let i = s.len() - 1;
        let comma = if i != 0 {
            squeezed_push_step(before.1, seq![','])
        } else {
            nothing(before.1)
        };
        assert(written(comma.0) == Seq::<Seq<char>>::empty());
        let wrap = if value_overflows(v, comma.1.room()) {
            lines_step(comma.1, 1)
        } else {
            nothing(comma.1)
        };
        assert(written(wrap.0) == Seq::<Seq<char>>::empty());
        assert(written(value_formatted(v, wrap.1).0) == texts_value(v));
        assert(value_comma_step(i, v, before.1) == then(then(comma, wrap), value_formatted(v, wrap.1)));
        assert(written(value_comma_step(i, v, before.1).0) == texts_value(v));
        let before2 = values_line_comma(s.drop_last(), sh);
        let start = lines_step(before2.1, 1);
        let body = value_formatted(v, start.1);
        assert(written(body.0) == texts_value(v));
        assert(written(squeezed_push_step(body.1, seq![',']).0) == Seq::<Seq<char>>::empty());
        assert(written(value_line_comma_step(v, before2.1).0) == texts_value(v));
    }
}

/// An object value writes its braces and its fields, in order.
pub proof fn law_written_object_value(n: ObjectValue)
    ensures
        forall|sh: Shape| #[trigger] written(object_value_collapsed(n, sh).0) == texts_object_value(n),
        forall|sh: Shape| #[trigger] written(object_value_expanded(n, sh).0) == texts_object_value(n),
    decreases n, 1nat,
{
    law_written_punctuator(n.braces.0);
    lemma_written_closing(n.braces.1);
    let s = n.object_fields.0@;
    assert forall|sh: Shape| #[trigger]
        written(object_value_collapsed(n, sh).0) == texts_object_value(n) by {
        let s1 = formatted(&n.braces.0, sh);
        lemma_fields_texts(s, s1.1);
        let s2 = fields_each(s, s1.1);
        let s3 = formatted(&n.braces.1, s2.1);
        assert(written(s1.0) == texts_punctuator(n.braces.0));
        assert(written(s2.0) == texts_object_fields(s));
        assert(written(s3.0) == texts_closing(n.braces.1));
    }
    assert forall|sh: Shape| #[trigger]
        written(object_value_expanded(n, sh).0) == texts_object_value(n) by {
        let s1 = formatted(&n.braces.0, sh);
        let start = indent_open_step(s1.1).1;
        lemma_fields_texts(s, start);
        let s2 = indented(s1.1, fields_line_comma(s, start));
        let s3 = formatted(&n.braces.1, s2.1);
        assert(written(s1.0) == texts_punctuator(n.braces.0));
        assert(written(s2.0) == texts_object_fields(s));
        assert(written(s3.0) == texts_closing(n.braces.1));
    }
}

proof fn lemma_fields_texts(s: Seq<ObjectField>, sh: Shape)
    ensures
        written(fields_each(s, sh).0) == texts_object_fields(s),
        written(fields_line_comma(s, sh).0) == texts_object_fields(s),
    decreases s, 0nat,
{
    if s.len() > 0 {
        lemma_fields_texts(s.drop_last(), sh);
        let f = s.last();
        law_written_object_field(f);
        lemma_comma_is_layout();
        let before = fields_each(s.drop_last(), sh);
        assert(written(object_field_collapsed(f, before.1).0) == texts_object_field(f));
        let before2 = fields_line_comma(s.drop_last(), sh);
        let start = lines_step(before2.1, 1);
        let body = object_field_collapsed(f, start.1);
        assert(written(body.0) == texts_object_field(f));
        assert(written(squeezed_push_step(body.1, seq![',']).0) == Seq::<Seq<char>>::empty());
        assert(written(field_line_comma_step(f, before2.1).0) == texts_object_field(f));
    }
}

/// An object field writes its name, its colon and its value.
pub proof fn law_written_object_field(n: ObjectField)
    ensures
        forall|sh: Shape| #[trigger] written(object_field_collapsed(n, sh).0) == texts_object_field(n),
        writes_texts(n, texts_object_field(n)),
    decreases n, 0nat,
{
    law_written_name(n.name);
    lemma_written_closing(n.colon);
    if let Recoverable::Present(x) = n.value {
        law_written_value(node_of(x));
    }
    assert forall|sh: Shape| #[trigger]
        written(object_field_collapsed(n, sh).0) == texts_object_field(n) by {
        let s1 = formatted(&n.name, sh);
        let s2 = squeezed(s1.1, formatted(&n.colon, s1.1.with_whitespace(true)));
        let s3 = match n.value {
            Recoverable::Present(x) => value_formatted(*x.0, s2.1),
            Recoverable::Missing(_) => nothing(s2.1),
        };
        assert(written(s1.0) == texts_name(n.name));
        assert(written(s2.0) == texts_closing(n.colon));
        if let Recoverable::Present(x) = n.value {
            assert(written(value_formatted(*x.0, s2.1).0) == texts_value(*x.0));
        }
        assert(written(s3.0) == match n.value {
            Recoverable::Present(x) => texts_value(*x.0),
            Recoverable::Missing(_) => Seq::<Seq<char>>::empty(),
        });
    }
    assert forall|sh: Shape| #[trigger] written(n.collapsed(sh).0) == texts_object_field(n) by {
        assert(written(object_field_collapsed(n, sh).0) == texts_object_field(n));
    }
    assert forall|sh: Shape| #[trigger] written(n.expanded(sh).0) == texts_object_field(n) by {
        assert(written(object_field_collapsed(n, sh).0) == texts_object_field(n));
    }
}

/// An argument writes its name, its colon and its value.
pub proof fn law_written_argument(n: Argument)
    ensures
        writes_texts(n, texts_argument(n)),
{
    law_written_name(n.name);
    lemma_written_closing(n.colon);
    if let Recoverable::Present(x) = n.value {
        law_written_value(node_of(x));
        lemma_shared(x, texts_value(node_of(x)));
    }
    lemma_recoverable(
        n.value,
        match n.value {
            Recoverable::Present(x) => texts_value(node_of(x)),
            Recoverable::Missing(_) => Seq::empty(),
        },
    );
}

/// Arguments write their parentheses and each argument, in order.
pub proof fn law_written_arguments(n: Arguments)
    ensures
        writes_texts(n, texts_arguments(n)),
{
    let f = argument_texts();
    let items = n.items.0@;
    assert forall|i: int| 0 <= i < items.len() implies writes_texts(#[trigger] items[i], f(items[i])) by {
        law_written_argument(node_of(items[i]));
        lemma_shared(items[i], texts_argument(node_of(items[i])));
    }
    law_written_punctuator(n.parens.0);
    lemma_written_closing(n.parens.1);
    assert forall|sh: Shape| #[trigger] written(n.collapsed(sh).0) == texts_arguments(n) by {
        let s1 = formatted(&n.parens.0, sh);
        let inner = fold(items, s1.1.with_whitespace(true), each_item::<Shared<Argument>>());
        lemma_fold_texts(items, s1.1.with_whitespace(true), f);
        let s2 = squeezed(s1.1, inner);
        let s3 = squeezed(s2.1, formatted(&n.parens.1, s2.1.with_whitespace(true)));
        assert(written(s1.0) == texts_punctuator(n.parens.0));
        assert(written(s2.0) == all_texts(items, f));
        assert(written(s3.0) == texts_closing(n.parens.1));
        assert(n.collapsed(sh) == then(then(s1, s2), s3));
    }
    assert forall|sh: Shape| #[trigger] written(n.expanded(sh).0) == texts_arguments(n) by {
        let s1 = formatted(&n.parens.0, sh);
        let start = indent_open_step(s1.1).1;
        lemma_fold_texts(items, start, f);
        let s2 = indented(s1.1, fold(items, start, line_comma_item::<Shared<Argument>>()));
        let s3 = squeezed(s2.1, formatted(&n.parens.1, s2.1.with_whitespace(true)));
        assert(written(s1.0) == texts_punctuator(n.parens.0));
        assert(written(s2.0) == all_texts(items, f));
        assert(written(s3.0) == texts_closing(n.parens.1));
        assert(n.expanded(sh) == then(then(s1, s2), s3));
    }
}

/// A directive writes `@`, its name and its arguments.
pub proof fn law_written_directive(n: Directive)
    ensures
        writes_texts(n, texts_directive(n)),
{
    law_written_punctuator(n.at);
    lemma_written_recoverable_name(n.name);
    if let Some(x) = n.arguments {
        law_written_arguments(node_of(x));
        lemma_shared(x, texts_arguments(node_of(x)));
    }
    lemma_option(
        n.arguments,
        match n.arguments {
            Some(x) => texts_arguments(node_of(x)),
            None => Seq::empty(),
        },
    );
}

/// Directives write each directive, in order.
pub proof fn law_written_directives(n: Directives)
    ensures
        writes_texts(n, texts_directives(n)),
{
    let f = directive_texts();
    let items = n.directives.0@;
    assert forall|i: int| 0 <= i < items.len() implies writes_texts(#[trigger] items[i], f(items[i])) by {
        law_written_directive(node_of(items[i]));
        lemma_shared(items[i], texts_directive(node_of(items[i])));
    }
    assert forall|sh: Shape| #[trigger] written(n.collapsed(sh).0) == texts_directives(n) by {
        lemma_fold_texts(items, sh, f);
        assert(n.collapsed(sh) == fold(items, sh, each_item::<Shared<Directive>>()));
    }
    assert forall|sh: Shape| #[trigger] written(n.expanded(sh).0) == texts_directives(n) by {
        let start = indent_open_step(sh).1;
        lemma_fold_texts(items, start, f);
        let inner = fold(items, start, line_item::<Shared<Directive>>());
        assert(written(inner.0) == texts_directives(n));
        assert(n.expanded(sh) == indented(sh, inner));
    }
}

/// A fragment spread writes its dots, the fragment's name and its
/// directives: every token it holds, in order, whichever way it is laid
/// out.
pub proof fn law_written_fragment_spread(n: FragmentSpread)
    ensures
        writes_texts(n, texts_fragment_spread(n)),
        forall|sh: Shape| #[trigger] written(formatted(&n, sh).0) == texts_fragment_spread(n),
{
    law_written_punctuator(n.dots);
    law_written_name(n.fragment_name);
    if let Some(x) = n.directives {
        law_written_directives(x);
    }
    lemma_option(
        n.directives,
        match n.directives {
            Some(x) => texts_directives(x),
            None => Seq::empty(),
        },
    );
    lemma_formatted(n, texts_fragment_spread(n));
}

/// An alias writes its name and its colon.
pub proof fn law_written_alias(n: Alias)
    ensures
        writes_texts(n, texts_alias(n)),
{
    law_written_name(n.name);
    law_written_punctuator(n.colon);
}

/// A type condition writes `on` and the type's name.
pub proof fn law_written_type_condition(n: TypeCondition)
    ensures
        writes_texts(n, texts_type_condition(n)),
{
    law_written_name(n.on);
    if let Recoverable::Present(x) = n.named_type {
        law_written_name(x.0);
        lemma_formatted(x, texts_name(x.0));
    }
    lemma_recoverable(
        n.named_type,
        match n.named_type {
            Recoverable::Present(x) => texts_name(x.0),
            Recoverable::Missing(_) => Seq::empty(),
        },
    );
}

/// A field writes its alias, its name, its arguments, its directives and
/// its selection set: every token it holds, in order.
pub proof fn law_written_field(n: Field)
    ensures
        writes_texts(n, texts_field(n)),
        forall|sh: Shape| #[trigger] written(field_collapsed(n, sh).0) == texts_field(n),
    decreases n, 1nat,
{
    if let Some(x) = n.alias {
        law_written_alias(x);
    }
    lemma_option(
        n.alias,
        match n.alias {
            Some(x) => texts_alias(x),
            None => Seq::empty(),
        },
    );
    lemma_written_recoverable_name(n.name);
    if let Some(x) = n.arguments {
        law_written_arguments(node_of(x));
        lemma_shared(x, texts_arguments(node_of(x)));
    }
    lemma_option(
        n.arguments,
        match n.arguments {
            Some(x) => texts_arguments(node_of(x)),
            None => Seq::empty(),
        },
    );
    if let Some(x) = n.directives {
        law_written_directives(x);
    }
    lemma_option(
        n.directives,
        match n.directives {
            Some(x) => texts_directives(x),
            None => Seq::empty(),
        },
    );
    if let Some(x) = n.selection_set {
        law_written_selection_set(node_of(x));
    }
    assert forall|sh: Shape| #[trigger] written(field_collapsed(n, sh).0) == texts_field(n) by {
        let s1 = formatted(&n.alias, sh);
        let s2 = formatted(&n.name, s1.1);
        let s3 = squeezed(s2.1, formatted(&n.arguments, s2.1.with_whitespace(true)));
        let s4 = formatted(&n.directives, s3.1);
        if let Some(x) = n.selection_set {
            assert(written(selection_set_collapsed(*x.0, s4.1).0) == texts_selection_set(*x.0));
        }
    }
}

/// A selection set writes its braces and its selections, in order.
pub proof fn law_written_selection_set(n: SelectionSet)
    ensures
        writes_texts(n, texts_selection_set(n)),
        forall|sh: Shape| #[trigger] written(selection_set_collapsed(n, sh).0) == texts_selection_set(n),
    decreases n, 2nat,
{
    law_written_punctuator(n.braces.0);
    lemma_written_closing(n.braces.1);
    let s = n.selections.0@;
    assert forall|sh: Shape| #[trigger]
        written(selection_set_collapsed(n, sh).0) == texts_selection_set(n) by {
        let s1 = formatted(&n.braces.0, sh);
        let start = indent_open_step(s1.1).1;
        lemma_selections_texts(s, start);
        let s2 = if selections_any_expand(s) {
            indented(s1.1, selections_line(s, start))
        } else {
            indented(s1.1, selections_each(s, start))
        };
        let s3 = formatted(&n.braces.1, s2.1);
        assert(written(s1.0) == texts_punctuator(n.braces.0));
        assert(written(s2.0) == texts_selections(s));
        assert(written(s3.0) == texts_closing(n.braces.1));
    }
}

proof fn lemma_selections_texts(s: Seq<Selection>, sh: Shape)
    ensures
        written(selections_each(s, sh).0) == texts_selections(s),
        written(selections_line(s, sh).0) == texts_selections(s),
    decreases s, 0nat,
{
    if s.len() > 0 {
        lemma_selections_texts(s.drop_last(), sh);
        let x = s.last();
        law_written_selection(x);
        let before = selections_each(s.drop_last(), sh);
        assert(written(selection_collapsed(x, before.1).0) == texts_selection(x));
        let before2 = selections_line(s.drop_last(), sh);
        let start = lines_step(before2.1, 1);
        assert(written(selection_collapsed(x, start.1).0) == texts_selection(x));
        assert(written(selection_line_step(x, before2.1).0) == texts_selection(x));
    }
}

/// A selection writes the tokens of the field or fragment it is.
pub proof fn law_written_selection(s: Selection)
    ensures
        writes_texts(s, texts_selection(s)),
        forall|sh: Shape| #[trigger] written(selection_collapsed(s, sh).0) == texts_selection(s),
    decreases s, 3nat,
{
    match s {
        Selection::Field(x) => {
            law_written_field(node_of(x));
        },
        Selection::FragmentSpread(x) => {
            law_written_fragment_spread(node_of(x));
            lemma_shared(x, texts_fragment_spread(node_of(x)));
        },
        Selection::InlineFragment(x) => {
            law_written_inline_fragment(x);
        },
    }
    assert forall|sh: Shape| #[trigger] written(selection_collapsed(s, sh).0) == texts_selection(s) by {
        match s {
            Selection::Field(x) => {
                assert(written(field_collapsed(*x.0, sh).0) == texts_field(*x.0));
            },
            Selection::FragmentSpread(x) => {
                assert(written(x.collapsed(sh).0) == texts_fragment_spread(*x.0));
            },
            Selection::InlineFragment(x) => {
                assert(written(inline_fragment_collapsed(x, sh).0) == texts_inline_fragment(x));
            },
        }
    }
    assert forall|sh: Shape| #[trigger] written(s.collapsed(sh).0) == texts_selection(s) by {
        assert(written(selection_collapsed(s, sh).0) == texts_selection(s));
    }
    assert forall|sh: Shape| #[trigger] written(s.expanded(sh).0) == texts_selection(s) by {
        assert(written(selection_collapsed(s, sh).0) == texts_selection(s));
    }
}

/// An inline fragment writes its dots, its type condition, its directives
/// and its selection set, in order.
pub proof fn law_written_inline_fragment(n: InlineFragment)
    ensures
        writes_texts(n, texts_inline_fragment(n)),
        forall|sh: Shape| #[trigger] written(inline_fragment_collapsed(n, sh).0) == texts_inline_fragment(n),
    decreases n, 1nat,
{
    law_written_punctuator(n.dots);
    if let Some(x) = n.type_condition {
        law_written_type_condition(x);
    }
    lemma_option(
        n.type_condition,
        match n.type_condition {
            Some(x) => texts_type_condition(x),
            None => Seq::empty(),
        },
    );
    if let Some(x) = n.directives {
        law_written_directives(x);
    }
    lemma_option(
        n.directives,
        match n.directives {
            Some(x) => texts_directives(x),
            None => Seq::empty(),
        },
    );
    if let Recoverable::Present(x) = n.selection_set {
        law_written_selection_set(node_of(x));
    }
    assert forall|sh: Shape| #[trigger]
        written(inline_fragment_collapsed(n, sh).0) == texts_inline_fragment(n) by {
        let s1 = formatted(&n.dots, sh);
        let s2 = formatted(&n.type_condition, s1.1);
        let s3 = formatted(&n.directives, s2.1);
        if let Recoverable::Present(x) = n.selection_set {
            assert(written(selection_set_collapsed(*x.0, s3.1).0) == texts_selection_set(*x.0));
        }
    }
}

/// A type writes its tokens, in order.
pub proof fn law_written_type(t: Type)
    ensures
        writes_texts(t, texts_type(t)),
        forall|sh: Shape| #[trigger] written(type_collapsed(t, sh).0) == texts_type(t),
    decreases t, 2nat,
{
    match t {
        Type::Named(x) => {
            law_written_name(x.0);
        },
        Type::List(x) => {
            law_written_list_type(x);
        },
        Type::NonNull(x) => {
            law_written_non_null_type(x);
        },
    }
    assert forall|sh: Shape| #[trigger] written(type_collapsed(t, sh).0) == texts_type(t) by {
        match t {
            Type::Named(x) => {
                assert(written(formatted(&x.0, sh).0) == texts_name(x.0));
            },
            Type::List(x) => {
                assert(written(list_type_collapsed(x, sh).0) == texts_list_type(x));
            },
            Type::NonNull(x) => {
                assert(written(non_null_type_collapsed(x, sh).0) == texts_non_null_type(x));
            },
        }
    }
}

/// A list type writes its brackets and the type inside, in order.
pub proof fn law_written_list_type(n: ListType)
    ensures
        forall|sh: Shape| #[trigger] written(list_type_collapsed(n, sh).0) == texts_list_type(n),
    decreases n, 1nat,
{
    law_written_punctuator(n.brackets.0);
    lemma_written_closing(n.brackets.1);
    if let Recoverable::Present(x) = n.ty {
        law_written_type(node_of(x));
    }
    assert forall|sh: Shape| #[trigger] written(list_type_collapsed(n, sh).0) == texts_list_type(n) by {
        let s1 = formatted(&n.brackets.0, sh);
        if let Recoverable::Present(x) = n.ty {
            assert(written(type_collapsed(*x.0, s1.1.with_whitespace(true)).0) == texts_type(*x.0));
        }
    }
}

/// A non-null type writes the type and its bang.
pub proof fn law_written_non_null_type(n: NonNullType)
    ensures
        forall|sh: Shape| #[trigger] written(non_null_type_collapsed(n, sh).0) == texts_non_null_type(n),
    decreases n, 1nat,
{
    law_written_type(node_of(n.ty));
    law_written_punctuator(n.bang);
    assert forall|sh: Shape| #[trigger]
        written(non_null_type_collapsed(n, sh).0) == texts_non_null_type(n) by {
        assert(written(type_collapsed(*n.ty.0, sh).0) == texts_type(*n.ty.0));
    }
}

/// The keyword of an operation writes itself.
pub proof fn law_written_operation_type(n: OperationType)
    ensures
        writes_texts(n, texts_operation_type(n)),
{
}

/// A default value writes `=` and the value.
pub proof fn law_written_default_value(n: DefaultValue)
    ensures
        writes_texts(n, texts_default_value(n)),
{
    law_written_punctuator(n.eq);
    if let Recoverable::Present(x) = n.value {
        law_written_value(node_of(x));
        lemma_shared(x, texts_value(node_of(x)));
    }
    lemma_recoverable(
        n.value,
        match n.value {
            Recoverable::Present(x) => texts_value(node_of(x)),
            Recoverable::Missing(_) => Seq::empty(),
        },
    );
}

/// A variable definition writes the variable, its colon, its type, its
/// default value and its directives, in order.
pub proof fn law_written_variable_definition(n: VariableDefinition)
    ensures
        writes_texts(n, texts_variable_definition(n)),
{
    law_written_variable(n.variable);
    lemma_formatted(n.variable, texts_variable(n.variable));
    lemma_written_closing(n.colon);
    if let Recoverable::Present(x) = n.ty {
        law_written_type(node_of(x));
        lemma_shared(x, texts_type(node_of(x)));
    }
    lemma_recoverable(
        n.ty,
        match n.ty {
            Recoverable::Present(x) => texts_type(node_of(x)),
            Recoverable::Missing(_) => Seq::empty(),
        },
    );
    if let Some(x) = n.default_value {
        law_written_default_value(x);
    }
    lemma_option(
        n.default_value,
        match n.default_value {
            Some(x) => texts_default_value(x),
            None => Seq::empty(),
        },
    );
    if let Some(x) = n.directives {
        law_written_directives(x);
    }
    lemma_option(
        n.directives,
        match n.directives {
            Some(x) => texts_directives(x),
            None => Seq::empty(),
        },
    );
}

/// Variable definitions write their parentheses and each definition, in
/// order.
pub proof fn law_written_variable_definitions(n: VariableDefinitions)
    ensures
        writes_texts(n, texts_variable_definitions(n)),
{
    let f = variable_definition_texts();
    let items = n.variable_definitions.0@;
    assert forall|i: int| 0 <= i < items.len() implies writes_texts(#[trigger] items[i], f(items[i])) by {
        law_written_variable_definition(node_of(items[i]));
        lemma_shared(items[i], texts_variable_definition(node_of(items[i])));
    }
    law_written_punctuator(n.parens.0);
    lemma_written_closing(n.parens.1);
    assert forall|sh: Shape| #[trigger] written(n.collapsed(sh).0) == texts_variable_definitions(n) by {
        let s1 = formatted(&n.parens.0, sh);
        lemma_fold_texts(items, indent_open_step(s1.1).1, f);
        lemma_fold_texts(items, s1.1.with_whitespace(true), f);
        let s2 = if n.spec_expands() {
            indented(
                s1.1,
                fold(items, indent_open_step(s1.1).1, line_comma_item::<Shared<VariableDefinition>>()),
            )
        } else {
            squeezed(
                s1.1,
                fold(items, s1.1.with_whitespace(true), comma_item::<Shared<VariableDefinition>>()),
            )
        };
        let s3 = squeezed(s2.1, formatted(&n.parens.1, s2.1.with_whitespace(true)));
        assert(written(s1.0) == texts_punctuator(n.parens.0));
        assert(written(s2.0) == all_texts(items, f));
        assert(written(s3.0) == texts_closing(n.parens.1));
        assert(n.collapsed(sh) == then(then(s1, s2), s3));
    }
    assert forall|sh: Shape| #[trigger] written(n.expanded(sh).0) == texts_variable_definitions(n) by {
        assert(written(n.collapsed(sh).0) == texts_variable_definitions(n));
    }
}

/// An operation writes its keyword, its name, its variables, its
/// directives and its selection set: every token it holds, in order.
pub proof fn law_written_operation_definition(n: OperationDefinition)
    ensures
        writes_texts(n, texts_operation_definition(n)),
{
    if let Some(x) = n.ty {
        law_written_operation_type(x);
    }
    lemma_option(
        n.ty,
        match n.ty {
            Some(x) => texts_operation_type(x),
            None => Seq::empty(),
        },
    );
    if let Some(x) = n.name {
        law_written_name(x);
    }
    lemma_option(
        n.name,
        match n.name {
            Some(x) => texts_name(x),
            None => Seq::empty(),
        },
    );
    if let Some(x) = n.variable_definitions {
        law_written_variable_definitions(x);
    }
    lemma_option(
        n.variable_definitions,
        match n.variable_definitions {
            Some(x) => texts_variable_definitions(x),
            None => Seq::empty(),
        },
    );
    if let Some(x) = n.directives {
        law_written_directives(x);
    }
    lemma_option(
        n.directives,
        match n.directives {
            Some(x) => texts_directives(x),
            None => Seq::empty(),
        },
    );
    lemma_written_selection_set_field(n.selection_set);
}

proof fn lemma_written_selection_set_field(n: Recoverable<Shared<SelectionSet>>)
    ensures
        writes_texts(
            n,
            match n {
                Recoverable::Present(x) => texts_selection_set(*x.0),
                Recoverable::Missing(_) => Seq::empty(),
            },
        ),
        forall|sh: Shape| #[trigger]
            written(formatted(&n, sh).0) == match n {
                Recoverable::Present(x) => texts_selection_set(*x.0),
                Recoverable::Missing(_) => Seq::<Seq<char>>::empty(),
            },
{
    if let Recoverable::Present(x) = n {
        law_written_selection_set(node_of(x));
        lemma_shared(x, texts_selection_set(node_of(x)));
    }
    lemma_recoverable(
        n,
        match n {
            Recoverable::Present(x) => texts_selection_set(node_of(x)),
            Recoverable::Missing(_) => Seq::empty(),
        },
    );
}

/// A fragment definition writes `fragment`, its name, its type condition,
/// its directives and its selection set, in order.
pub proof fn law_written_fragment_definition(n: FragmentDefinition)
    ensures
        writes_texts(n, texts_fragment_definition(n)),
{
    law_written_name(n.fragment);
    lemma_written_recoverable_name(n.fragment_name);
    if let Recoverable::Present(x) = n.type_condition {
        law_written_type_condition(x);
    }
    lemma_recoverable(
        n.type_condition,
        match n.type_condition {
            Recoverable::Present(x) => texts_type_condition(x),
            Recoverable::Missing(_) => Seq::empty(),
        },
    );
    if let Some(x) = n.directives {
        law_written_directives(x);
    }
    lemma_option(
        n.directives,
        match n.directives {
            Some(x) => texts_directives(x),
            None => Seq::empty(),
        },
    );
    lemma_written_selection_set_field(n.selection_set);
}

/// An executable definition writes the tokens of the operation or fragment
/// it is.
pub proof fn law_written_executable_definition(n: ExecutableDefinition)
    ensures
        writes_texts(n, texts_executable_definition(n)),
{
    match n {
        ExecutableDefinition::OperationDefinition(x) => {
            law_written_operation_definition(node_of(x));
            lemma_shared(x, texts_operation_definition(node_of(x)));
        },
        ExecutableDefinition::FragmentDefinition(x) => {
            law_written_fragment_definition(node_of(x));
            lemma_shared(x, texts_fragment_definition(node_of(x)));
        },
    }
}

} // verus!
