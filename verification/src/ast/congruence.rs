use vstd::prelude::*;

use crate::ast::context::node_of;

use crate::ast::context::Shared;
use crate::ast::types::{
    Alias, Argument, Arguments, ArgumentsDefinition, BooleanValue, DefaultValue, Definition, Description, Directive, DirectiveDefinition, DirectiveLocation, DirectiveLocations, Directives, Document, EnumTypeDefinition, EnumTypeExtension, EnumValue, EnumValueDefinition, EnumValuesDefinition, ExecutableDefinition, ExecutableDirectiveLocation, ExecutableDocument, Field, FieldDefinition, FieldsDefinition, FragmentDefinition, FragmentSpread, ImplementsInterfaces, InlineFragment, InputFieldsDefinition, InputObjectTypeDefinition, InputObjectTypeExtension, InputValueDefinition, InterfaceTypeDefinition, InterfaceTypeExtension, ListType, ListValue, Missing, NamedType, NonNullType, NullValue, ObjectField, ObjectTypeDefinition, ObjectTypeExtension, ObjectValue, OperationDefinition, OperationType, Recoverable, RootOperationTypeDefinition, RootOperationTypeDefinitions, ScalarTypeDefinition, ScalarTypeExtension, SchemaDefinition, SchemaExtension, Selection, SelectionSet, Type, TypeCondition, TypeDefinition, TypeExtension, TypeSystemDefinition, TypeSystemDefinitionOrExtension, TypeSystemDirectiveLocation, TypeSystemDocument, TypeSystemExtension, TypeSystemExtensionDocument, UnionMemberTypes, UnionTypeDefinition, UnionTypeExtension, Value, Variable, VariableDefinition, VariableDefinitions,
};
use crate::lex::token::Punctuator;

verus! {

/// Whether `a` and `b` are the same tree: the same tokens in the same
/// places, wherever they stand; missing parts are congruent to each other.
pub open spec fn congruent_document(a: Document, b: Document) -> bool
    decreases a, 0nat,
{
    (congruent_list_shared_definition(a.definitions.0@, b.definitions.0@))
}

/// Whether `a` and `b` are the same tree: the same tokens in the same
/// places, wherever they stand; missing parts are congruent to each other.
pub open spec fn congruent_definition(a: Definition, b: Definition) -> bool
    decreases a, 0nat,
{
    match (a, b) {
        (Definition::ExecutableDefinition(x), Definition::ExecutableDefinition(y)) => congruent_executable_definition(x, y),
        (Definition::TypeSystemDefinitionOrExtension(x), Definition::TypeSystemDefinitionOrExtension(y)) => congruent_type_system_definition_or_extension(x, y),
        _ => false,
    }
}

/// Whether `a` and `b` are the same tree: the same tokens in the same
/// places, wherever they stand; missing parts are congruent to each other.
pub open spec fn congruent_executable_document(a: ExecutableDocument, b: ExecutableDocument) -> bool
    decreases a, 0nat,
{
    (congruent_list_executable_definition(a.definitions.0@, b.definitions.0@))
}

/// Whether `a` and `b` are the same tree: the same tokens in the same
/// places, wherever they stand; missing parts are congruent to each other.
pub open spec fn congruent_executable_definition(a: ExecutableDefinition, b: ExecutableDefinition) -> bool
    decreases a, 0nat,
{
    match (a, b) {
        (ExecutableDefinition::OperationDefinition(x), ExecutableDefinition::OperationDefinition(y)) => congruent_operation_definition((*x.0), (*y.0)),
        (ExecutableDefinition::FragmentDefinition(x), ExecutableDefinition::FragmentDefinition(y)) => congruent_fragment_definition((*x.0), (*y.0)),
        _ => false,
    }
}

/// Whether `a` and `b` are the same tree: the same tokens in the same
/// places, wherever they stand; missing parts are congruent to each other.
pub open spec fn congruent_operation_definition(a: OperationDefinition, b: OperationDefinition) -> bool
    decreases a, 0nat,
{
    (match (a.ty, b.ty) { (Some(x), Some(y)) => congruent_operation_type(x, y), (None, None) => true, _ => false })
    && (match (a.name, b.name) { (Some(x), Some(y)) => (x.0.kind == y.0.kind && x.0.source@ == y.0.source@), (None, None) => true, _ => false })
    && (match (a.variable_definitions, b.variable_definitions) { (Some(x), Some(y)) => congruent_variable_definitions(x, y), (None, None) => true, _ => false })
    && (match (a.directives, b.directives) { (Some(x), Some(y)) => congruent_directives(x, y), (None, None) => true, _ => false })
    && (match (a.selection_set, b.selection_set) { (Recoverable::Present(x), Recoverable::Present(y)) => congruent_selection_set((*x.0), (*y.0)), (Recoverable::Missing(_), Recoverable::Missing(_)) => true, _ => false })
}

/// Whether `a` and `b` are the same tree: the same tokens in the same
/// places, wherever they stand; missing parts are congruent to each other.
pub open spec fn congruent_operation_type(a: OperationType, b: OperationType) -> bool
    decreases a, 0nat,
{
    match (a, b) {
        (OperationType::Query(x), OperationType::Query(y)) => (x.0.kind == y.0.kind && x.0.source@ == y.0.source@),
        (OperationType::Mutation(x), OperationType::Mutation(y)) => (x.0.kind == y.0.kind && x.0.source@ == y.0.source@),
        (OperationType::Subscription(x), OperationType::Subscription(y)) => (x.0.kind == y.0.kind && x.0.source@ == y.0.source@),
        _ => false,
    }
}

/// Whether `a` and `b` are the same tree: the same tokens in the same
/// places, wherever they stand; missing parts are congruent to each other.
pub open spec fn congruent_selection_set(a: SelectionSet, b: SelectionSet) -> bool
    decreases a, 0nat,
{
    (((a.braces.0.0.kind == b.braces.0.0.kind && a.braces.0.0.source@ == b.braces.0.0.source@) && match (a.braces.1, b.braces.1) { (Recoverable::Present(x), Recoverable::Present(y)) => (x.0.kind == y.0.kind && x.0.source@ == y.0.source@), (Recoverable::Missing(_), Recoverable::Missing(_)) => true, _ => false }))
    && (congruent_list_selection(a.selections.0@, b.selections.0@))
}

/// Whether `a` and `b` are the same tree: the same tokens in the same
/// places, wherever they stand; missing parts are congruent to each other.
pub open spec fn congruent_selection(a: Selection, b: Selection) -> bool
    decreases a, 0nat,
{
    match (a, b) {
        (Selection::Field(x), Selection::Field(y)) => congruent_field((*x.0), (*y.0)),
        (Selection::FragmentSpread(x), Selection::FragmentSpread(y)) => congruent_fragment_spread((*x.0), (*y.0)),
        (Selection::InlineFragment(x), Selection::InlineFragment(y)) => congruent_inline_fragment(x, y),
        _ => false,
    }
}

/// Whether `a` and `b` are the same tree: the same tokens in the same
/// places, wherever they stand; missing parts are congruent to each other.
pub open spec fn congruent_field(a: Field, b: Field) -> bool
    decreases a, 0nat,
{
    (match (a.alias, b.alias) { (Some(x), Some(y)) => congruent_alias(x, y), (None, None) => true, _ => false })
    && (match (a.name, b.name) { (Recoverable::Present(x), Recoverable::Present(y)) => (x.0.kind == y.0.kind && x.0.source@ == y.0.source@), (Recoverable::Missing(_), Recoverable::Missing(_)) => true, _ => false })
    && (match (a.arguments, b.arguments) { (Some(x), Some(y)) => congruent_arguments((*x.0), (*y.0)), (None, None) => true, _ => false })
    && (match (a.directives, b.directives) { (Some(x), Some(y)) => congruent_directives(x, y), (None, None) => true, _ => false })
    && (match (a.selection_set, b.selection_set) { (Some(x), Some(y)) => congruent_selection_set((*x.0), (*y.0)), (None, None) => true, _ => false })
}

/// Whether `a` and `b` are the same tree: the same tokens in the same
/// places, wherever they stand; missing parts are congruent to each other.
pub open spec fn congruent_alias(a: Alias, b: Alias) -> bool
    decreases a, 0nat,
{
    ((a.name.0.kind == b.name.0.kind && a.name.0.source@ == b.name.0.source@))
    && ((a.colon.0.kind == b.colon.0.kind && a.colon.0.source@ == b.colon.0.source@))
}

/// Whether `a` and `b` are the same tree: the same tokens in the same
/// places, wherever they stand; missing parts are congruent to each other.
pub open spec fn congruent_arguments(a: Arguments, b: Arguments) -> bool
    decreases a, 0nat,
{
    (((a.parens.0.0.kind == b.parens.0.0.kind && a.parens.0.0.source@ == b.parens.0.0.source@) && match (a.parens.1, b.parens.1) { (Recoverable::Present(x), Recoverable::Present(y)) => (x.0.kind == y.0.kind && x.0.source@ == y.0.source@), (Recoverable::Missing(_), Recoverable::Missing(_)) => true, _ => false }))
    && (congruent_list_shared_argument(a.items.0@, b.items.0@))
}

/// Whether `a` and `b` are the same tree: the same tokens in the same
/// places, wherever they stand; missing parts are congruent to each other.
pub open spec fn congruent_argument(a: Argument, b: Argument) -> bool
    decreases a, 0nat,
{
    ((a.name.0.kind == b.name.0.kind && a.name.0.source@ == b.name.0.source@))
    && (match (a.colon, b.colon) { (Recoverable::Present(x), Recoverable::Present(y)) => (x.0.kind == y.0.kind && x.0.source@ == y.0.source@), (Recoverable::Missing(_), Recoverable::Missing(_)) => true, _ => false })
    && (match (a.value, b.value) { (Recoverable::Present(x), Recoverable::Present(y)) => congruent_value((*x.0), (*y.0)), (Recoverable::Missing(_), Recoverable::Missing(_)) => true, _ => false })
}

/// Whether `a` and `b` are the same tree: the same tokens in the same
/// places, wherever they stand; missing parts are congruent to each other.
pub open spec fn congruent_fragment_spread(a: FragmentSpread, b: FragmentSpread) -> bool
    decreases a, 0nat,
{
    ((a.dots.0.kind == b.dots.0.kind && a.dots.0.source@ == b.dots.0.source@))
    && ((a.fragment_name.0.kind == b.fragment_name.0.kind && a.fragment_name.0.source@ == b.fragment_name.0.source@))
    && (match (a.directives, b.directives) { (Some(x), Some(y)) => congruent_directives(x, y), (None, None) => true, _ => false })
}

/// Whether `a` and `b` are the same tree: the same tokens in the same
/// places, wherever they stand; missing parts are congruent to each other.
pub open spec fn congruent_inline_fragment(a: InlineFragment, b: InlineFragment) -> bool
    decreases a, 0nat,
{
    ((a.dots.0.kind == b.dots.0.kind && a.dots.0.source@ == b.dots.0.source@))
    && (match (a.type_condition, b.type_condition) { (Some(x), Some(y)) => congruent_type_condition(x, y), (None, None) => true, _ => false })
    && (match (a.directives, b.directives) { (Some(x), Some(y)) => congruent_directives(x, y), (None, None) => true, _ => false })
    && (match (a.selection_set, b.selection_set) { (Recoverable::Present(x), Recoverable::Present(y)) => congruent_selection_set((*x.0), (*y.0)), (Recoverable::Missing(_), Recoverable::Missing(_)) => true, _ => false })
}

/// Whether `a` and `b` are the same tree: the same tokens in the same
/// places, wherever they stand; missing parts are congruent to each other.
pub open spec fn congruent_fragment_definition(a: FragmentDefinition, b: FragmentDefinition) -> bool
    decreases a, 0nat,
{
    ((a.fragment.0.kind == b.fragment.0.kind && a.fragment.0.source@ == b.fragment.0.source@))
    && (match (a.fragment_name, b.fragment_name) { (Recoverable::Present(x), Recoverable::Present(y)) => (x.0.kind == y.0.kind && x.0.source@ == y.0.source@), (Recoverable::Missing(_), Recoverable::Missing(_)) => true, _ => false })
    && (match (a.type_condition, b.type_condition) { (Recoverable::Present(x), Recoverable::Present(y)) => congruent_type_condition(x, y), (Recoverable::Missing(_), Recoverable::Missing(_)) => true, _ => false })
    && (match (a.directives, b.directives) { (Some(x), Some(y)) => congruent_directives(x, y), (None, None) => true, _ => false })
    && (match (a.selection_set, b.selection_set) { (Recoverable::Present(x), Recoverable::Present(y)) => congruent_selection_set((*x.0), (*y.0)), (Recoverable::Missing(_), Recoverable::Missing(_)) => true, _ => false })
}

/// Whether `a` and `b` are the same tree: the same tokens in the same
/// places, wherever they stand; missing parts are congruent to each other.
pub open spec fn congruent_type_condition(a: TypeCondition, b: TypeCondition) -> bool
    decreases a, 0nat,
{
    ((a.on.0.kind == b.on.0.kind && a.on.0.source@ == b.on.0.source@))
    && (match (a.named_type, b.named_type) { (Recoverable::Present(x), Recoverable::Present(y)) => congruent_named_type(x, y), (Recoverable::Missing(_), Recoverable::Missing(_)) => true, _ => false })
}

/// Whether `a` and `b` are the same tree: the same tokens in the same
/// places, wherever they stand; missing parts are congruent to each other.
pub open spec fn congruent_value(a: Value, b: Value) -> bool
    decreases a, 0nat,
{
    match (a, b) {
        (Value::Variable(x), Value::Variable(y)) => congruent_variable(x, y),
        (Value::IntValue(x), Value::IntValue(y)) => (x.0.kind == y.0.kind && x.0.source@ == y.0.source@),
        (Value::FloatValue(x), Value::FloatValue(y)) => (x.0.kind == y.0.kind && x.0.source@ == y.0.source@),
        (Value::StringValue(x), Value::StringValue(y)) => (x.0.kind == y.0.kind && x.0.source@ == y.0.source@),
        (Value::BooleanValue(x), Value::BooleanValue(y)) => congruent_boolean_value(x, y),
        (Value::NullValue(x), Value::NullValue(y)) => congruent_null_value(x, y),
        (Value::EnumValue(x), Value::EnumValue(y)) => congruent_enum_value(x, y),
        (Value::ListValue(x), Value::ListValue(y)) => congruent_list_value(x, y),
        (Value::ObjectValue(x), Value::ObjectValue(y)) => congruent_object_value(x, y),
        _ => false,
    }
}

/// Whether `a` and `b` are the same tree: the same tokens in the same
/// places, wherever they stand; missing parts are congruent to each other.
pub open spec fn congruent_boolean_value(a: BooleanValue, b: BooleanValue) -> bool
    decreases a, 0nat,
{
    match (a, b) {
        (BooleanValue::True(x), BooleanValue::True(y)) => (x.0.kind == y.0.kind && x.0.source@ == y.0.source@),
        (BooleanValue::False(x), BooleanValue::False(y)) => (x.0.kind == y.0.kind && x.0.source@ == y.0.source@),
        _ => false,
    }
}

/// Whether `a` and `b` are the same tree: the same tokens in the same
/// places, wherever they stand; missing parts are congruent to each other.
pub open spec fn congruent_null_value(a: NullValue, b: NullValue) -> bool
    decreases a, 0nat,
{
    (a.0.0.kind == b.0.0.kind && a.0.0.source@ == b.0.0.source@)
}

/// Whether `a` and `b` are the same tree: the same tokens in the same
/// places, wherever they stand; missing parts are congruent to each other.
pub open spec fn congruent_enum_value(a: EnumValue, b: EnumValue) -> bool
    decreases a, 0nat,
{
    (a.0.0.kind == b.0.0.kind && a.0.0.source@ == b.0.0.source@)
}

/// Whether `a` and `b` are the same tree: the same tokens in the same
/// places, wherever they stand; missing parts are congruent to each other.
pub open spec fn congruent_list_value(a: ListValue, b: ListValue) -> bool
    decreases a, 0nat,
{
    (((a.brackets.0.0.kind == b.brackets.0.0.kind && a.brackets.0.0.source@ == b.brackets.0.0.source@) && match (a.brackets.1, b.brackets.1) { (Recoverable::Present(x), Recoverable::Present(y)) => (x.0.kind == y.0.kind && x.0.source@ == y.0.source@), (Recoverable::Missing(_), Recoverable::Missing(_)) => true, _ => false }))
    && (congruent_list_shared_value(a.values.0@, b.values.0@))
}

/// Whether `a` and `b` are the same tree: the same tokens in the same
/// places, wherever they stand; missing parts are congruent to each other.
pub open spec fn congruent_object_value(a: ObjectValue, b: ObjectValue) -> bool
    decreases a, 0nat,
{
    (((a.braces.0.0.kind == b.braces.0.0.kind && a.braces.0.0.source@ == b.braces.0.0.source@) && match (a.braces.1, b.braces.1) { (Recoverable::Present(x), Recoverable::Present(y)) => (x.0.kind == y.0.kind && x.0.source@ == y.0.source@), (Recoverable::Missing(_), Recoverable::Missing(_)) => true, _ => false }))
    && (congruent_list_object_field(a.object_fields.0@, b.object_fields.0@))
}

/// Whether `a` and `b` are the same tree: the same tokens in the same
/// places, wherever they stand; missing parts are congruent to each other.
pub open spec fn congruent_object_field(a: ObjectField, b: ObjectField) -> bool
    decreases a, 0nat,
{
    ((a.name.0.kind == b.name.0.kind && a.name.0.source@ == b.name.0.source@))
    && (match (a.colon, b.colon) { (Recoverable::Present(x), Recoverable::Present(y)) => (x.0.kind == y.0.kind && x.0.source@ == y.0.source@), (Recoverable::Missing(_), Recoverable::Missing(_)) => true, _ => false })
    && (match (a.value, b.value) { (Recoverable::Present(x), Recoverable::Present(y)) => congruent_value((*x.0), (*y.0)), (Recoverable::Missing(_), Recoverable::Missing(_)) => true, _ => false })
}

/// Whether `a` and `b` are the same tree: the same tokens in the same
/// places, wherever they stand; missing parts are congruent to each other.
pub open spec fn congruent_variable_definitions(a: VariableDefinitions, b: VariableDefinitions) -> bool
    decreases a, 0nat,
{
    (((a.parens.0.0.kind == b.parens.0.0.kind && a.parens.0.0.source@ == b.parens.0.0.source@) && match (a.parens.1, b.parens.1) { (Recoverable::Present(x), Recoverable::Present(y)) => (x.0.kind == y.0.kind && x.0.source@ == y.0.source@), (Recoverable::Missing(_), Recoverable::Missing(_)) => true, _ => false }))
    && (congruent_list_shared_variable_definition(a.variable_definitions.0@, b.variable_definitions.0@))
}

/// Whether `a` and `b` are the same tree: the same tokens in the same
/// places, wherever they stand; missing parts are congruent to each other.
pub open spec fn congruent_variable_definition(a: VariableDefinition, b: VariableDefinition) -> bool
    decreases a, 0nat,
{
    (congruent_variable(a.variable, b.variable))
    && (match (a.colon, b.colon) { (Recoverable::Present(x), Recoverable::Present(y)) => (x.0.kind == y.0.kind && x.0.source@ == y.0.source@), (Recoverable::Missing(_), Recoverable::Missing(_)) => true, _ => false })
    && (match (a.ty, b.ty) { (Recoverable::Present(x), Recoverable::Present(y)) => congruent_type((*x.0), (*y.0)), (Recoverable::Missing(_), Recoverable::Missing(_)) => true, _ => false })
    && (match (a.default_value, b.default_value) { (Some(x), Some(y)) => congruent_default_value(x, y), (None, None) => true, _ => false })
    && (match (a.directives, b.directives) { (Some(x), Some(y)) => congruent_directives(x, y), (None, None) => true, _ => false })
}

/// Whether `a` and `b` are the same tree: the same tokens in the same
/// places, wherever they stand; missing parts are congruent to each other.
pub open spec fn congruent_variable(a: Variable, b: Variable) -> bool
    decreases a, 0nat,
{
    ((a.dollar.0.kind == b.dollar.0.kind && a.dollar.0.source@ == b.dollar.0.source@))
    && (match (a.name, b.name) { (Recoverable::Present(x), Recoverable::Present(y)) => (x.0.kind == y.0.kind && x.0.source@ == y.0.source@), (Recoverable::Missing(_), Recoverable::Missing(_)) => true, _ => false })
}

/// Whether `a` and `b` are the same tree: the same tokens in the same
/// places, wherever they stand; missing parts are congruent to each other.
pub open spec fn congruent_default_value(a: DefaultValue, b: DefaultValue) -> bool
    decreases a, 0nat,
{
    ((a.eq.0.kind == b.eq.0.kind && a.eq.0.source@ == b.eq.0.source@))
    && (match (a.value, b.value) { (Recoverable::Present(x), Recoverable::Present(y)) => congruent_value((*x.0), (*y.0)), (Recoverable::Missing(_), Recoverable::Missing(_)) => true, _ => false })
}

/// Whether `a` and `b` are the same tree: the same tokens in the same
/// places, wherever they stand; missing parts are congruent to each other.
pub open spec fn congruent_type(a: Type, b: Type) -> bool
    decreases a, 0nat,
{
    match (a, b) {
        (Type::Named(x), Type::Named(y)) => congruent_named_type(x, y),
        (Type::List(x), Type::List(y)) => congruent_list_type(x, y),
        (Type::NonNull(x), Type::NonNull(y)) => congruent_non_null_type(x, y),
        _ => false,
    }
}

/// Whether `a` and `b` are the same tree: the same tokens in the same
/// places, wherever they stand; missing parts are congruent to each other.
pub open spec fn congruent_named_type(a: NamedType, b: NamedType) -> bool
    decreases a, 0nat,
{
    (a.0.0.kind == b.0.0.kind && a.0.0.source@ == b.0.0.source@)
}

/// Whether `a` and `b` are the same tree: the same tokens in the same
/// places, wherever they stand; missing parts are congruent to each other.
pub open spec fn congruent_list_type(a: ListType, b: ListType) -> bool
    decreases a, 0nat,
{
    (((a.brackets.0.0.kind == b.brackets.0.0.kind && a.brackets.0.0.source@ == b.brackets.0.0.source@) && match (a.brackets.1, b.brackets.1) { (Recoverable::Present(x), Recoverable::Present(y)) => (x.0.kind == y.0.kind && x.0.source@ == y.0.source@), (Recoverable::Missing(_), Recoverable::Missing(_)) => true, _ => false }))
    && (match (a.ty, b.ty) { (Recoverable::Present(x), Recoverable::Present(y)) => congruent_type((*x.0), (*y.0)), (Recoverable::Missing(_), Recoverable::Missing(_)) => true, _ => false })
}

/// Whether `a` and `b` are the same tree: the same tokens in the same
/// places, wherever they stand; missing parts are congruent to each other.
pub open spec fn congruent_non_null_type(a: NonNullType, b: NonNullType) -> bool
    decreases a, 0nat,
{
    (congruent_type((*a.ty.0), (*b.ty.0)))
    && ((a.bang.0.kind == b.bang.0.kind && a.bang.0.source@ == b.bang.0.source@))
}

/// Whether `a` and `b` are the same tree: the same tokens in the same
/// places, wherever they stand; missing parts are congruent to each other.
pub open spec fn congruent_directives(a: Directives, b: Directives) -> bool
    decreases a, 0nat,
{
    (congruent_list_shared_directive(a.directives.0@, b.directives.0@))
}

/// Whether `a` and `b` are the same tree: the same tokens in the same
/// places, wherever they stand; missing parts are congruent to each other.
pub open spec fn congruent_directive(a: Directive, b: Directive) -> bool
    decreases a, 0nat,
{
    ((a.at.0.kind == b.at.0.kind && a.at.0.source@ == b.at.0.source@))
    && (match (a.name, b.name) { (Recoverable::Present(x), Recoverable::Present(y)) => (x.0.kind == y.0.kind && x.0.source@ == y.0.source@), (Recoverable::Missing(_), Recoverable::Missing(_)) => true, _ => false })
    && (match (a.arguments, b.arguments) { (Some(x), Some(y)) => congruent_arguments((*x.0), (*y.0)), (None, None) => true, _ => false })
}

/// Whether `a` and `b` are the same tree: the same tokens in the same
/// places, wherever they stand; missing parts are congruent to each other.
pub open spec fn congruent_type_system_document(a: TypeSystemDocument, b: TypeSystemDocument) -> bool
    decreases a, 0nat,
{
    (congruent_list_type_system_definition(a.definitions.0@, b.definitions.0@))
}

/// Whether `a` and `b` are the same tree: the same tokens in the same
/// places, wherever they stand; missing parts are congruent to each other.
pub open spec fn congruent_type_system_definition(a: TypeSystemDefinition, b: TypeSystemDefinition) -> bool
    decreases a, 0nat,
{
    match (a, b) {
        (TypeSystemDefinition::SchemaDefinition(x), TypeSystemDefinition::SchemaDefinition(y)) => congruent_schema_definition(x, y),
        (TypeSystemDefinition::TypeDefinition(x), TypeSystemDefinition::TypeDefinition(y)) => congruent_type_definition((*x.0), (*y.0)),
        (TypeSystemDefinition::DirectiveDefinition(x), TypeSystemDefinition::DirectiveDefinition(y)) => congruent_directive_definition((*x.0), (*y.0)),
        (TypeSystemDefinition::Error(x), TypeSystemDefinition::Error(y)) => congruent_description(x, y),
        _ => false,
    }
}

/// Whether `a` and `b` are the same tree: the same tokens in the same
/// places, wherever they stand; missing parts are congruent to each other.
pub open spec fn congruent_type_system_extension_document(a: TypeSystemExtensionDocument, b: TypeSystemExtensionDocument) -> bool
    decreases a, 0nat,
{
    (congruent_list_type_system_definition_or_extension(a.definitions.0@, b.definitions.0@))
}

/// Whether `a` and `b` are the same tree: the same tokens in the same
/// places, wherever they stand; missing parts are congruent to each other.
pub open spec fn congruent_type_system_definition_or_extension(a: TypeSystemDefinitionOrExtension, b: TypeSystemDefinitionOrExtension) -> bool
    decreases a, 0nat,
{
    match (a, b) {
        (TypeSystemDefinitionOrExtension::TypeSystemDefinition(x), TypeSystemDefinitionOrExtension::TypeSystemDefinition(y)) => congruent_type_system_definition(x, y),
        (TypeSystemDefinitionOrExtension::TypeSystemExtension(x), TypeSystemDefinitionOrExtension::TypeSystemExtension(y)) => congruent_type_system_extension(x, y),
        _ => false,
    }
}

/// Whether `a` and `b` are the same tree: the same tokens in the same
/// places, wherever they stand; missing parts are congruent to each other.
pub open spec fn congruent_type_system_extension(a: TypeSystemExtension, b: TypeSystemExtension) -> bool
    decreases a, 0nat,
{
    match (a, b) {
        (TypeSystemExtension::SchemaExtension(x), TypeSystemExtension::SchemaExtension(y)) => congruent_schema_extension(x, y),
        (TypeSystemExtension::TypeExtension(x), TypeSystemExtension::TypeExtension(y)) => congruent_type_extension((*x.0), (*y.0)),
        (TypeSystemExtension::Error(x), TypeSystemExtension::Error(y)) => (x.0.kind == y.0.kind && x.0.source@ == y.0.source@),
        _ => false,
    }
}

/// Whether `a` and `b` are the same tree: the same tokens in the same
/// places, wherever they stand; missing parts are congruent to each other.
pub open spec fn congruent_description(a: Description, b: Description) -> bool
    decreases a, 0nat,
{
    (a.0.0.kind == b.0.0.kind && a.0.0.source@ == b.0.0.source@)
}

/// Whether `a` and `b` are the same tree: the same tokens in the same
/// places, wherever they stand; missing parts are congruent to each other.
pub open spec fn congruent_schema_definition(a: SchemaDefinition, b: SchemaDefinition) -> bool
    decreases a, 0nat,
{
    (match (a.description, b.description) { (Some(x), Some(y)) => congruent_description(x, y), (None, None) => true, _ => false })
    && ((a.schema.0.kind == b.schema.0.kind && a.schema.0.source@ == b.schema.0.source@))
    && (match (a.directives, b.directives) { (Some(x), Some(y)) => congruent_directives(x, y), (None, None) => true, _ => false })
    && (match (a.type_definitions, b.type_definitions) { (Recoverable::Present(x), Recoverable::Present(y)) => congruent_root_operation_type_definitions(x, y), (Recoverable::Missing(_), Recoverable::Missing(_)) => true, _ => false })
}

/// Whether `a` and `b` are the same tree: the same tokens in the same
/// places, wherever they stand; missing parts are congruent to each other.
pub open spec fn congruent_root_operation_type_definitions(a: RootOperationTypeDefinitions, b: RootOperationTypeDefinitions) -> bool
    decreases a, 0nat,
{
    (((a.braces.0.0.kind == b.braces.0.0.kind && a.braces.0.0.source@ == b.braces.0.0.source@) && match (a.braces.1, b.braces.1) { (Recoverable::Present(x), Recoverable::Present(y)) => (x.0.kind == y.0.kind && x.0.source@ == y.0.source@), (Recoverable::Missing(_), Recoverable::Missing(_)) => true, _ => false }))
    && (match (a.definitions, b.definitions) { (Recoverable::Present(x), Recoverable::Present(y)) => congruent_list_root_operation_type_definition(x.0@, y.0@), (Recoverable::Missing(_), Recoverable::Missing(_)) => true, _ => false })
}

/// Whether `a` and `b` are the same tree: the same tokens in the same
/// places, wherever they stand; missing parts are congruent to each other.
pub open spec fn congruent_root_operation_type_definition(a: RootOperationTypeDefinition, b: RootOperationTypeDefinition) -> bool
    decreases a, 0nat,
{
    (congruent_operation_type(a.operation_type, b.operation_type))
    && (match (a.colon, b.colon) { (Recoverable::Present(x), Recoverable::Present(y)) => (x.0.kind == y.0.kind && x.0.source@ == y.0.source@), (Recoverable::Missing(_), Recoverable::Missing(_)) => true, _ => false })
    && (match (a.named_type, b.named_type) { (Recoverable::Present(x), Recoverable::Present(y)) => congruent_named_type(x, y), (Recoverable::Missing(_), Recoverable::Missing(_)) => true, _ => false })
}

/// Whether `a` and `b` are the same tree: the same tokens in the same
/// places, wherever they stand; missing parts are congruent to each other.
pub open spec fn congruent_schema_extension(a: SchemaExtension, b: SchemaExtension) -> bool
    decreases a, 0nat,
{
    (((a.extend_schema.0.0.kind == b.extend_schema.0.0.kind && a.extend_schema.0.0.source@ == b.extend_schema.0.0.source@) && (a.extend_schema.1.0.kind == b.extend_schema.1.0.kind && a.extend_schema.1.0.source@ == b.extend_schema.1.0.source@)))
    && (match (a.directives, b.directives) { (Some(x), Some(y)) => congruent_directives(x, y), (None, None) => true, _ => false })
    && (match (a.type_definitions, b.type_definitions) { (Some(x), Some(y)) => congruent_root_operation_type_definitions(x, y), (None, None) => true, _ => false })
}

/// Whether `a` and `b` are the same tree: the same tokens in the same
/// places, wherever they stand; missing parts are congruent to each other.
pub open spec fn congruent_type_definition(a: TypeDefinition, b: TypeDefinition) -> bool
    decreases a, 0nat,
{
    match (a, b) {
        (TypeDefinition::ScalarTypeDefinition(x), TypeDefinition::ScalarTypeDefinition(y)) => congruent_scalar_type_definition(x, y),
        (TypeDefinition::ObjectTypeDefinition(x), TypeDefinition::ObjectTypeDefinition(y)) => congruent_object_type_definition(x, y),
        (TypeDefinition::InterfaceTypeDefinition(x), TypeDefinition::InterfaceTypeDefinition(y)) => congruent_interface_type_definition(x, y),
        (TypeDefinition::UnionTypeDefinition(x), TypeDefinition::UnionTypeDefinition(y)) => congruent_union_type_definition(x, y),
        (TypeDefinition::EnumTypeDefinition(x), TypeDefinition::EnumTypeDefinition(y)) => congruent_enum_type_definition(x, y),
        (TypeDefinition::InputObjectTypeDefinition(x), TypeDefinition::InputObjectTypeDefinition(y)) => congruent_input_object_type_definition(x, y),
        _ => false,
    }
}

/// Whether `a` and `b` are the same tree: the same tokens in the same
/// places, wherever they stand; missing parts are congruent to each other.
pub open spec fn congruent_type_extension(a: TypeExtension, b: TypeExtension) -> bool
    decreases a, 0nat,
{
    match (a, b) {
        (TypeExtension::ScalarTypeExtension(x), TypeExtension::ScalarTypeExtension(y)) => congruent_scalar_type_extension(x, y),
        (TypeExtension::ObjectTypeExtension(x), TypeExtension::ObjectTypeExtension(y)) => congruent_object_type_extension(x, y),
        (TypeExtension::InterfaceTypeExtension(x), TypeExtension::InterfaceTypeExtension(y)) => congruent_interface_type_extension(x, y),
        (TypeExtension::UnionTypeExtension(x), TypeExtension::UnionTypeExtension(y)) => congruent_union_type_extension(x, y),
        (TypeExtension::EnumTypeExtension(x), TypeExtension::EnumTypeExtension(y)) => congruent_enum_type_extension(x, y),
        (TypeExtension::InputObjectTypeExtension(x), TypeExtension::InputObjectTypeExtension(y)) => congruent_input_object_type_extension(x, y),
        _ => false,
    }
}

/// Whether `a` and `b` are the same tree: the same tokens in the same
/// places, wherever they stand; missing parts are congruent to each other.
pub open spec fn congruent_scalar_type_definition(a: ScalarTypeDefinition, b: ScalarTypeDefinition) -> bool
    decreases a, 0nat,
{
    ((a.scalar.0.kind == b.scalar.0.kind && a.scalar.0.source@ == b.scalar.0.source@))
    && (match (a.name, b.name) { (Recoverable::Present(x), Recoverable::Present(y)) => (x.0.kind == y.0.kind && x.0.source@ == y.0.source@), (Recoverable::Missing(_), Recoverable::Missing(_)) => true, _ => false })
    && (match (a.directives, b.directives) { (Some(x), Some(y)) => congruent_directives(x, y), (None, None) => true, _ => false })
}

/// Whether `a` and `b` are the same tree: the same tokens in the same
/// places, wherever they stand; missing parts are congruent to each other.
pub open spec fn congruent_scalar_type_extension(a: ScalarTypeExtension, b: ScalarTypeExtension) -> bool
    decreases a, 0nat,
{
    (((a.extend_scalar.0.0.kind == b.extend_scalar.0.0.kind && a.extend_scalar.0.0.source@ == b.extend_scalar.0.0.source@) && (a.extend_scalar.1.0.kind == b.extend_scalar.1.0.kind && a.extend_scalar.1.0.source@ == b.extend_scalar.1.0.source@)))
    && (match (a.name, b.name) { (Recoverable::Present(x), Recoverable::Present(y)) => congruent_named_type(x, y), (Recoverable::Missing(_), Recoverable::Missing(_)) => true, _ => false })
    && (match (a.directives, b.directives) { (Recoverable::Present(x), Recoverable::Present(y)) => congruent_directives(x, y), (Recoverable::Missing(_), Recoverable::Missing(_)) => true, _ => false })
}

/// Whether `a` and `b` are the same tree: the same tokens in the same
/// places, wherever they stand; missing parts are congruent to each other.
pub open spec fn congruent_object_type_definition(a: ObjectTypeDefinition, b: ObjectTypeDefinition) -> bool
    decreases a, 0nat,
{
    (match (a.description, b.description) { (Some(x), Some(y)) => congruent_description(x, y), (None, None) => true, _ => false })
    && ((a.ty.0.kind == b.ty.0.kind && a.ty.0.source@ == b.ty.0.source@))
    && (match (a.name, b.name) { (Recoverable::Present(x), Recoverable::Present(y)) => (x.0.kind == y.0.kind && x.0.source@ == y.0.source@), (Recoverable::Missing(_), Recoverable::Missing(_)) => true, _ => false })
    && (match (a.implements_interfaces, b.implements_interfaces) { (Some(x), Some(y)) => congruent_implements_interfaces(x, y), (None, None) => true, _ => false })
    && (match (a.directives, b.directives) { (Some(x), Some(y)) => congruent_directives(x, y), (None, None) => true, _ => false })
    && (match (a.fields_definition, b.fields_definition) { (Some(x), Some(y)) => congruent_fields_definition(x, y), (None, None) => true, _ => false })
}

/// Whether `a` and `b` are the same tree: the same tokens in the same
/// places, wherever they stand; missing parts are congruent to each other.
pub open spec fn congruent_implements_interfaces(a: ImplementsInterfaces, b: ImplementsInterfaces) -> bool
    decreases a, 0nat,
{
    ((a.implements.0.kind == b.implements.0.kind && a.implements.0.source@ == b.implements.0.source@))
    && (match (a.ampersand, b.ampersand) { (Some(x), Some(y)) => (x.0.kind == y.0.kind && x.0.source@ == y.0.source@), (None, None) => true, _ => false })
    && (match (a.first, b.first) { (Recoverable::Present(x), Recoverable::Present(y)) => congruent_named_type((*x.0), (*y.0)), (Recoverable::Missing(_), Recoverable::Missing(_)) => true, _ => false })
    && (congruent_list_punctuator_recoverable_shared_named_type(a.types.0@, b.types.0@))
}

/// Whether `a` and `b` are the same tree: the same tokens in the same
/// places, wherever they stand; missing parts are congruent to each other.
pub open spec fn congruent_fields_definition(a: FieldsDefinition, b: FieldsDefinition) -> bool
    decreases a, 0nat,
{
    (((a.braces.0.0.kind == b.braces.0.0.kind && a.braces.0.0.source@ == b.braces.0.0.source@) && match (a.braces.1, b.braces.1) { (Recoverable::Present(x), Recoverable::Present(y)) => (x.0.kind == y.0.kind && x.0.source@ == y.0.source@), (Recoverable::Missing(_), Recoverable::Missing(_)) => true, _ => false }))
    && (congruent_list_shared_field_definition(a.definitions.0@, b.definitions.0@))
}

/// Whether `a` and `b` are the same tree: the same tokens in the same
/// places, wherever they stand; missing parts are congruent to each other.
pub open spec fn congruent_field_definition(a: FieldDefinition, b: FieldDefinition) -> bool
    decreases a, 0nat,
{
    (match (a.description, b.description) { (Some(x), Some(y)) => congruent_description(x, y), (None, None) => true, _ => false })
    && ((a.name.0.kind == b.name.0.kind && a.name.0.source@ == b.name.0.source@))
    && (match (a.arguments_definition, b.arguments_definition) { (Some(x), Some(y)) => congruent_arguments_definition((*x.0), (*y.0)), (None, None) => true, _ => false })
    && (match (a.colon, b.colon) { (Recoverable::Present(x), Recoverable::Present(y)) => (x.0.kind == y.0.kind && x.0.source@ == y.0.source@), (Recoverable::Missing(_), Recoverable::Missing(_)) => true, _ => false })
    && (match (a.ty, b.ty) { (Recoverable::Present(x), Recoverable::Present(y)) => congruent_type((*x.0), (*y.0)), (Recoverable::Missing(_), Recoverable::Missing(_)) => true, _ => false })
    && (match (a.directives, b.directives) { (Some(x), Some(y)) => congruent_directives(x, y), (None, None) => true, _ => false })
}

/// Whether `a` and `b` are the same tree: the same tokens in the same
/// places, wherever they stand; missing parts are congruent to each other.
pub open spec fn congruent_arguments_definition(a: ArgumentsDefinition, b: ArgumentsDefinition) -> bool
    decreases a, 0nat,
{
    (((a.parens.0.0.kind == b.parens.0.0.kind && a.parens.0.0.source@ == b.parens.0.0.source@) && match (a.parens.1, b.parens.1) { (Recoverable::Present(x), Recoverable::Present(y)) => (x.0.kind == y.0.kind && x.0.source@ == y.0.source@), (Recoverable::Missing(_), Recoverable::Missing(_)) => true, _ => false }))
    && (congruent_list_shared_input_value_definition(a.definitions.0@, b.definitions.0@))
}

/// Whether `a` and `b` are the same tree: the same tokens in the same
/// places, wherever they stand; missing parts are congruent to each other.
pub open spec fn congruent_input_value_definition(a: InputValueDefinition, b: InputValueDefinition) -> bool
    decreases a, 0nat,
{
    (match (a.description, b.description) { (Some(x), Some(y)) => congruent_description(x, y), (None, None) => true, _ => false })
    && ((a.name.0.kind == b.name.0.kind && a.name.0.source@ == b.name.0.source@))
    && (match (a.colon, b.colon) { (Recoverable::Present(x), Recoverable::Present(y)) => (x.0.kind == y.0.kind && x.0.source@ == y.0.source@), (Recoverable::Missing(_), Recoverable::Missing(_)) => true, _ => false })
    && (match (a.ty, b.ty) { (Recoverable::Present(x), Recoverable::Present(y)) => congruent_type((*x.0), (*y.0)), (Recoverable::Missing(_), Recoverable::Missing(_)) => true, _ => false })
    && (match (a.default_value, b.default_value) { (Some(x), Some(y)) => congruent_default_value(x, y), (None, None) => true, _ => false })
    && (match (a.directives, b.directives) { (Some(x), Some(y)) => congruent_directives(x, y), (None, None) => true, _ => false })
}

/// Whether `a` and `b` are the same tree: the same tokens in the same
/// places, wherever they stand; missing parts are congruent to each other.
pub open spec fn congruent_object_type_extension(a: ObjectTypeExtension, b: ObjectTypeExtension) -> bool
    decreases a, 0nat,
{
    (((a.extend_type.0.0.kind == b.extend_type.0.0.kind && a.extend_type.0.0.source@ == b.extend_type.0.0.source@) && (a.extend_type.1.0.kind == b.extend_type.1.0.kind && a.extend_type.1.0.source@ == b.extend_type.1.0.source@)))
    && (match (a.name, b.name) { (Recoverable::Present(x), Recoverable::Present(y)) => congruent_named_type(x, y), (Recoverable::Missing(_), Recoverable::Missing(_)) => true, _ => false })
    && (match (a.implements_interfaces, b.implements_interfaces) { (Some(x), Some(y)) => congruent_implements_interfaces(x, y), (None, None) => true, _ => false })
    && (match (a.directives, b.directives) { (Some(x), Some(y)) => congruent_directives(x, y), (None, None) => true, _ => false })
    && (match (a.fields_definition, b.fields_definition) { (Some(x), Some(y)) => congruent_fields_definition(x, y), (None, None) => true, _ => false })
}

/// Whether `a` and `b` are the same tree: the same tokens in the same
/// places, wherever they stand; missing parts are congruent to each other.
pub open spec fn congruent_interface_type_definition(a: InterfaceTypeDefinition, b: InterfaceTypeDefinition) -> bool
    decreases a, 0nat,
{
    (match (a.description, b.description) { (Some(x), Some(y)) => congruent_description(x, y), (None, None) => true, _ => false })
    && ((a.interface.0.kind == b.interface.0.kind && a.interface.0.source@ == b.interface.0.source@))
    && (match (a.name, b.name) { (Recoverable::Present(x), Recoverable::Present(y)) => (x.0.kind == y.0.kind && x.0.source@ == y.0.source@), (Recoverable::Missing(_), Recoverable::Missing(_)) => true, _ => false })
    && (match (a.implements_interfaces, b.implements_interfaces) { (Some(x), Some(y)) => congruent_implements_interfaces(x, y), (None, None) => true, _ => false })
    && (match (a.directives, b.directives) { (Some(x), Some(y)) => congruent_directives(x, y), (None, None) => true, _ => false })
    && (match (a.fields_definition, b.fields_definition) { (Some(x), Some(y)) => congruent_fields_definition(x, y), (None, None) => true, _ => false })
}

/// Whether `a` and `b` are the same tree: the same tokens in the same
/// places, wherever they stand; missing parts are congruent to each other.
pub open spec fn congruent_interface_type_extension(a: InterfaceTypeExtension, b: InterfaceTypeExtension) -> bool
    decreases a, 0nat,
{
    (((a.extend_interface.0.0.kind == b.extend_interface.0.0.kind && a.extend_interface.0.0.source@ == b.extend_interface.0.0.source@) && (a.extend_interface.1.0.kind == b.extend_interface.1.0.kind && a.extend_interface.1.0.source@ == b.extend_interface.1.0.source@)))
    && (match (a.name, b.name) { (Recoverable::Present(x), Recoverable::Present(y)) => congruent_named_type(x, y), (Recoverable::Missing(_), Recoverable::Missing(_)) => true, _ => false })
    && (match (a.implements_interfaces, b.implements_interfaces) { (Some(x), Some(y)) => congruent_implements_interfaces(x, y), (None, None) => true, _ => false })
    && (match (a.directives, b.directives) { (Some(x), Some(y)) => congruent_directives(x, y), (None, None) => true, _ => false })
    && (match (a.fields_definition, b.fields_definition) { (Some(x), Some(y)) => congruent_fields_definition(x, y), (None, None) => true, _ => false })
}

/// Whether `a` and `b` are the same tree: the same tokens in the same
/// places, wherever they stand; missing parts are congruent to each other.
pub open spec fn congruent_union_type_definition(a: UnionTypeDefinition, b: UnionTypeDefinition) -> bool
    decreases a, 0nat,
{
    (match (a.description, b.description) { (Some(x), Some(y)) => congruent_description(x, y), (None, None) => true, _ => false })
    && ((a.union_kw.0.kind == b.union_kw.0.kind && a.union_kw.0.source@ == b.union_kw.0.source@))
    && (match (a.name, b.name) { (Recoverable::Present(x), Recoverable::Present(y)) => (x.0.kind == y.0.kind && x.0.source@ == y.0.source@), (Recoverable::Missing(_), Recoverable::Missing(_)) => true, _ => false })
    && (match (a.directives, b.directives) { (Some(x), Some(y)) => congruent_directives(x, y), (None, None) => true, _ => false })
    && (match (a.member_types, b.member_types) { (Some(x), Some(y)) => congruent_union_member_types(x, y), (None, None) => true, _ => false })
}

/// Whether `a` and `b` are the same tree: the same tokens in the same
/// places, wherever they stand; missing parts are congruent to each other.
pub open spec fn congruent_union_member_types(a: UnionMemberTypes, b: UnionMemberTypes) -> bool
    decreases a, 0nat,
{
    ((a.eq.0.kind == b.eq.0.kind && a.eq.0.source@ == b.eq.0.source@))
    && (match (a.pipe, b.pipe) { (Some(x), Some(y)) => (x.0.kind == y.0.kind && x.0.source@ == y.0.source@), (None, None) => true, _ => false })
    && (match (a.first, b.first) { (Recoverable::Present(x), Recoverable::Present(y)) => congruent_named_type((*x.0), (*y.0)), (Recoverable::Missing(_), Recoverable::Missing(_)) => true, _ => false })
    && (congruent_list_punctuator_recoverable_shared_named_type(a.types.0@, b.types.0@))
}

/// Whether `a` and `b` are the same tree: the same tokens in the same
/// places, wherever they stand; missing parts are congruent to each other.
pub open spec fn congruent_union_type_extension(a: UnionTypeExtension, b: UnionTypeExtension) -> bool
    decreases a, 0nat,
{
    (((a.extend_union.0.0.kind == b.extend_union.0.0.kind && a.extend_union.0.0.source@ == b.extend_union.0.0.source@) && (a.extend_union.1.0.kind == b.extend_union.1.0.kind && a.extend_union.1.0.source@ == b.extend_union.1.0.source@)))
    && (match (a.name, b.name) { (Recoverable::Present(x), Recoverable::Present(y)) => congruent_named_type(x, y), (Recoverable::Missing(_), Recoverable::Missing(_)) => true, _ => false })
    && (match (a.directives, b.directives) { (Some(x), Some(y)) => congruent_directives(x, y), (None, None) => true, _ => false })
    && (match (a.member_types, b.member_types) { (Some(x), Some(y)) => congruent_union_member_types(x, y), (None, None) => true, _ => false })
}

/// Whether `a` and `b` are the same tree: the same tokens in the same
/// places, wherever they stand; missing parts are congruent to each other.
pub open spec fn congruent_enum_type_definition(a: EnumTypeDefinition, b: EnumTypeDefinition) -> bool
    decreases a, 0nat,
{
    (match (a.description, b.description) { (Some(x), Some(y)) => congruent_description(x, y), (None, None) => true, _ => false })
    && ((a.enum_kw.0.kind == b.enum_kw.0.kind && a.enum_kw.0.source@ == b.enum_kw.0.source@))
    && (match (a.name, b.name) { (Recoverable::Present(x), Recoverable::Present(y)) => (x.0.kind == y.0.kind && x.0.source@ == y.0.source@), (Recoverable::Missing(_), Recoverable::Missing(_)) => true, _ => false })
    && (match (a.directives, b.directives) { (Some(x), Some(y)) => congruent_directives(x, y), (None, None) => true, _ => false })
    && (match (a.values_definition, b.values_definition) { (Some(x), Some(y)) => congruent_enum_values_definition(x, y), (None, None) => true, _ => false })
}

/// Whether `a` and `b` are the same tree: the same tokens in the same
/// places, wherever they stand; missing parts are congruent to each other.
pub open spec fn congruent_enum_values_definition(a: EnumValuesDefinition, b: EnumValuesDefinition) -> bool
    decreases a, 0nat,
{
    (((a.braces.0.0.kind == b.braces.0.0.kind && a.braces.0.0.source@ == b.braces.0.0.source@) && match (a.braces.1, b.braces.1) { (Recoverable::Present(x), Recoverable::Present(y)) => (x.0.kind == y.0.kind && x.0.source@ == y.0.source@), (Recoverable::Missing(_), Recoverable::Missing(_)) => true, _ => false }))
    && (congruent_list_shared_enum_value_definition(a.definitions.0@, b.definitions.0@))
}

/// Whether `a` and `b` are the same tree: the same tokens in the same
/// places, wherever they stand; missing parts are congruent to each other.
pub open spec fn congruent_enum_value_definition(a: EnumValueDefinition, b: EnumValueDefinition) -> bool
    decreases a, 0nat,
{
    (match (a.description, b.description) { (Some(x), Some(y)) => congruent_description(x, y), (None, None) => true, _ => false })
    && (congruent_enum_value(a.enum_value, b.enum_value))
    && (match (a.directives, b.directives) { (Some(x), Some(y)) => congruent_directives(x, y), (None, None) => true, _ => false })
}

/// Whether `a` and `b` are the same tree: the same tokens in the same
/// places, wherever they stand; missing parts are congruent to each other.
pub open spec fn congruent_enum_type_extension(a: EnumTypeExtension, b: EnumTypeExtension) -> bool
    decreases a, 0nat,
{
    (match (a.name, b.name) { (Recoverable::Present(x), Recoverable::Present(y)) => congruent_named_type(x, y), (Recoverable::Missing(_), Recoverable::Missing(_)) => true, _ => false })
    && (match (a.directives, b.directives) { (Some(x), Some(y)) => congruent_directives(x, y), (None, None) => true, _ => false })
    && (match (a.values_definition, b.values_definition) { (Some(x), Some(y)) => congruent_enum_values_definition(x, y), (None, None) => true, _ => false })
}

/// Whether `a` and `b` are the same tree: the same tokens in the same
/// places, wherever they stand; missing parts are congruent to each other.
pub open spec fn congruent_input_object_type_definition(a: InputObjectTypeDefinition, b: InputObjectTypeDefinition) -> bool
    decreases a, 0nat,
{
    (match (a.description, b.description) { (Some(x), Some(y)) => congruent_description(x, y), (None, None) => true, _ => false })
    && ((a.input.0.kind == b.input.0.kind && a.input.0.source@ == b.input.0.source@))
    && (match (a.name, b.name) { (Recoverable::Present(x), Recoverable::Present(y)) => (x.0.kind == y.0.kind && x.0.source@ == y.0.source@), (Recoverable::Missing(_), Recoverable::Missing(_)) => true, _ => false })
    && (match (a.directives, b.directives) { (Some(x), Some(y)) => congruent_directives(x, y), (None, None) => true, _ => false })
    && (match (a.fields_definition, b.fields_definition) { (Some(x), Some(y)) => congruent_input_fields_definition(x, y), (None, None) => true, _ => false })
}

/// Whether `a` and `b` are the same tree: the same tokens in the same
/// places, wherever they stand; missing parts are congruent to each other.
pub open spec fn congruent_input_fields_definition(a: InputFieldsDefinition, b: InputFieldsDefinition) -> bool
    decreases a, 0nat,
{
    (((a.braces.0.0.kind == b.braces.0.0.kind && a.braces.0.0.source@ == b.braces.0.0.source@) && match (a.braces.1, b.braces.1) { (Recoverable::Present(x), Recoverable::Present(y)) => (x.0.kind == y.0.kind && x.0.source@ == y.0.source@), (Recoverable::Missing(_), Recoverable::Missing(_)) => true, _ => false }))
    && (congruent_list_shared_input_value_definition(a.definitions.0@, b.definitions.0@))
}

/// Whether `a` and `b` are the same tree: the same tokens in the same
/// places, wherever they stand; missing parts are congruent to each other.
pub open spec fn congruent_input_object_type_extension(a: InputObjectTypeExtension, b: InputObjectTypeExtension) -> bool
    decreases a, 0nat,
{
    (((a.extend_input.0.0.kind == b.extend_input.0.0.kind && a.extend_input.0.0.source@ == b.extend_input.0.0.source@) && (a.extend_input.1.0.kind == b.extend_input.1.0.kind && a.extend_input.1.0.source@ == b.extend_input.1.0.source@)))
    && (match (a.name, b.name) { (Recoverable::Present(x), Recoverable::Present(y)) => congruent_named_type(x, y), (Recoverable::Missing(_), Recoverable::Missing(_)) => true, _ => false })
    && (match (a.directives, b.directives) { (Some(x), Some(y)) => congruent_directives(x, y), (None, None) => true, _ => false })
    && (match (a.fields_definition, b.fields_definition) { (Some(x), Some(y)) => congruent_input_fields_definition(x, y), (None, None) => true, _ => false })
}

/// Whether `a` and `b` are the same tree: the same tokens in the same
/// places, wherever they stand; missing parts are congruent to each other.
pub open spec fn congruent_directive_definition(a: DirectiveDefinition, b: DirectiveDefinition) -> bool
    decreases a, 0nat,
{
    (match (a.description, b.description) { (Some(x), Some(y)) => congruent_description(x, y), (None, None) => true, _ => false })
    && ((a.directive.0.kind == b.directive.0.kind && a.directive.0.source@ == b.directive.0.source@))
    && (match (a.at, b.at) { (Recoverable::Present(x), Recoverable::Present(y)) => (x.0.kind == y.0.kind && x.0.source@ == y.0.source@), (Recoverable::Missing(_), Recoverable::Missing(_)) => true, _ => false })
    && (match (a.name, b.name) { (Recoverable::Present(x), Recoverable::Present(y)) => (x.0.kind == y.0.kind && x.0.source@ == y.0.source@), (Recoverable::Missing(_), Recoverable::Missing(_)) => true, _ => false })
    && (match (a.arguments_definition, b.arguments_definition) { (Some(x), Some(y)) => congruent_arguments_definition((*x.0), (*y.0)), (None, None) => true, _ => false })
    && (match (a.repeatable, b.repeatable) { (Some(x), Some(y)) => (x.0.kind == y.0.kind && x.0.source@ == y.0.source@), (None, None) => true, _ => false })
    && (match (a.locations, b.locations) { (Recoverable::Present(x), Recoverable::Present(y)) => congruent_directive_locations(x, y), (Recoverable::Missing(_), Recoverable::Missing(_)) => true, _ => false })
}

/// Whether `a` and `b` are the same tree: the same tokens in the same
/// places, wherever they stand; missing parts are congruent to each other.
pub open spec fn congruent_directive_locations(a: DirectiveLocations, b: DirectiveLocations) -> bool
    decreases a, 0nat,
{
    ((a.on.0.kind == b.on.0.kind && a.on.0.source@ == b.on.0.source@))
    && (match (a.pipe, b.pipe) { (Some(x), Some(y)) => (x.0.kind == y.0.kind && x.0.source@ == y.0.source@), (None, None) => true, _ => false })
    && (match (a.first, b.first) { (Recoverable::Present(x), Recoverable::Present(y)) => congruent_directive_location(x, y), (Recoverable::Missing(_), Recoverable::Missing(_)) => true, _ => false })
    && (congruent_list_punctuator_recoverable_directive_location(a.locations.0@, b.locations.0@))
}

/// Whether `a` and `b` are the same tree: the same tokens in the same
/// places, wherever they stand; missing parts are congruent to each other.
pub open spec fn congruent_directive_location(a: DirectiveLocation, b: DirectiveLocation) -> bool
    decreases a, 0nat,
{
    match (a, b) {
        (DirectiveLocation::ExecutableDirectiveLocation(x), DirectiveLocation::ExecutableDirectiveLocation(y)) => congruent_executable_directive_location(x, y),
        (DirectiveLocation::TypeSystemDirectiveLocation(x), DirectiveLocation::TypeSystemDirectiveLocation(y)) => congruent_type_system_directive_location(x, y),
        _ => false,
    }
}

/// Whether `a` and `b` are the same tree: the same tokens in the same
/// places, wherever they stand; missing parts are congruent to each other.
pub open spec fn congruent_executable_directive_location(a: ExecutableDirectiveLocation, b: ExecutableDirectiveLocation) -> bool
    decreases a, 0nat,
{
    match (a, b) {
        (ExecutableDirectiveLocation::Query(x), ExecutableDirectiveLocation::Query(y)) => (x.0.kind == y.0.kind && x.0.source@ == y.0.source@),
        (ExecutableDirectiveLocation::Mutation(x), ExecutableDirectiveLocation::Mutation(y)) => (x.0.kind == y.0.kind && x.0.source@ == y.0.source@),
        (ExecutableDirectiveLocation::Subscription(x), ExecutableDirectiveLocation::Subscription(y)) => (x.0.kind == y.0.kind && x.0.source@ == y.0.source@),
        (ExecutableDirectiveLocation::Field(x), ExecutableDirectiveLocation::Field(y)) => (x.0.kind == y.0.kind && x.0.source@ == y.0.source@),
        (ExecutableDirectiveLocation::FragmentDefinition(x), ExecutableDirectiveLocation::FragmentDefinition(y)) => (x.0.kind == y.0.kind && x.0.source@ == y.0.source@),
        (ExecutableDirectiveLocation::FragmentSpread(x), ExecutableDirectiveLocation::FragmentSpread(y)) => (x.0.kind == y.0.kind && x.0.source@ == y.0.source@),
        (ExecutableDirectiveLocation::InlineFragment(x), ExecutableDirectiveLocation::InlineFragment(y)) => (x.0.kind == y.0.kind && x.0.source@ == y.0.source@),
        (ExecutableDirectiveLocation::VariableDefinition(x), ExecutableDirectiveLocation::VariableDefinition(y)) => (x.0.kind == y.0.kind && x.0.source@ == y.0.source@),
        _ => false,
    }
}

/// Whether `a` and `b` are the same tree: the same tokens in the same
/// places, wherever they stand; missing parts are congruent to each other.
pub open spec fn congruent_type_system_directive_location(a: TypeSystemDirectiveLocation, b: TypeSystemDirectiveLocation) -> bool
    decreases a, 0nat,
{
    match (a, b) {
        (TypeSystemDirectiveLocation::Schema(x), TypeSystemDirectiveLocation::Schema(y)) => (x.0.kind == y.0.kind && x.0.source@ == y.0.source@),
        (TypeSystemDirectiveLocation::Scalar(x), TypeSystemDirectiveLocation::Scalar(y)) => (x.0.kind == y.0.kind && x.0.source@ == y.0.source@),
        (TypeSystemDirectiveLocation::Object(x), TypeSystemDirectiveLocation::Object(y)) => (x.0.kind == y.0.kind && x.0.source@ == y.0.source@),
        (TypeSystemDirectiveLocation::FieldDefinition(x), TypeSystemDirectiveLocation::FieldDefinition(y)) => (x.0.kind == y.0.kind && x.0.source@ == y.0.source@),
        (TypeSystemDirectiveLocation::ArgumentDefinition(x), TypeSystemDirectiveLocation::ArgumentDefinition(y)) => (x.0.kind == y.0.kind && x.0.source@ == y.0.source@),
        (TypeSystemDirectiveLocation::Interface(x), TypeSystemDirectiveLocation::Interface(y)) => (x.0.kind == y.0.kind && x.0.source@ == y.0.source@),
        (TypeSystemDirectiveLocation::Union(x), TypeSystemDirectiveLocation::Union(y)) => (x.0.kind == y.0.kind && x.0.source@ == y.0.source@),
        (TypeSystemDirectiveLocation::Enum(x), TypeSystemDirectiveLocation::Enum(y)) => (x.0.kind == y.0.kind && x.0.source@ == y.0.source@),
        (TypeSystemDirectiveLocation::EnumValue(x), TypeSystemDirectiveLocation::EnumValue(y)) => (x.0.kind == y.0.kind && x.0.source@ == y.0.source@),
        (TypeSystemDirectiveLocation::InputObject(x), TypeSystemDirectiveLocation::InputObject(y)) => (x.0.kind == y.0.kind && x.0.source@ == y.0.source@),
        (TypeSystemDirectiveLocation::InputFieldDefinition(x), TypeSystemDirectiveLocation::InputFieldDefinition(y)) => (x.0.kind == y.0.kind && x.0.source@ == y.0.source@),
        _ => false,
    }
}

pub open spec fn congruent_list_shared_definition(s: Seq<Shared<Definition>>, t: Seq<Shared<Definition>>) -> bool
    decreases s, 1nat,
{
    s.len() == t.len() && (s.len() == 0 || (congruent_list_shared_definition(s.drop_last(), t.drop_last()) && congruent_definition((*s.last().0), (*t.last().0))))
}

pub open spec fn congruent_list_punctuator_recoverable_shared_named_type(s: Seq<(Punctuator, Recoverable<Shared<NamedType>>)>, t: Seq<(Punctuator, Recoverable<Shared<NamedType>>)>) -> bool
    decreases s, 1nat,
{
    s.len() == t.len() && (s.len() == 0 || (congruent_list_punctuator_recoverable_shared_named_type(s.drop_last(), t.drop_last()) && ((s.last().0.0.kind == t.last().0.0.kind && s.last().0.0.source@ == t.last().0.0.source@) && match (s.last().1, t.last().1) { (Recoverable::Present(x), Recoverable::Present(y)) => congruent_named_type((*x.0), (*y.0)), (Recoverable::Missing(_), Recoverable::Missing(_)) => true, _ => false })))
}

pub open spec fn congruent_list_shared_enum_value_definition(s: Seq<Shared<EnumValueDefinition>>, t: Seq<Shared<EnumValueDefinition>>) -> bool
    decreases s, 1nat,
{
    s.len() == t.len() && (s.len() == 0 || (congruent_list_shared_enum_value_definition(s.drop_last(), t.drop_last()) && congruent_enum_value_definition((*s.last().0), (*t.last().0))))
}

pub open spec fn congruent_list_type_system_definition(s: Seq<TypeSystemDefinition>, t: Seq<TypeSystemDefinition>) -> bool
    decreases s, 1nat,
{
    s.len() == t.len() && (s.len() == 0 || (congruent_list_type_system_definition(s.drop_last(), t.drop_last()) && congruent_type_system_definition(s.last(), t.last())))
}

pub open spec fn congruent_list_shared_input_value_definition(s: Seq<Shared<InputValueDefinition>>, t: Seq<Shared<InputValueDefinition>>) -> bool
    decreases s, 1nat,
{
    s.len() == t.len() && (s.len() == 0 || (congruent_list_shared_input_value_definition(s.drop_last(), t.drop_last()) && congruent_input_value_definition((*s.last().0), (*t.last().0))))
}

pub open spec fn congruent_list_type_system_definition_or_extension(s: Seq<TypeSystemDefinitionOrExtension>, t: Seq<TypeSystemDefinitionOrExtension>) -> bool
    decreases s, 1nat,
{
    s.len() == t.len() && (s.len() == 0 || (congruent_list_type_system_definition_or_extension(s.drop_last(), t.drop_last()) && congruent_type_system_definition_or_extension(s.last(), t.last())))
}

pub open spec fn congruent_list_selection(s: Seq<Selection>, t: Seq<Selection>) -> bool
    decreases s, 1nat,
{
    s.len() == t.len() && (s.len() == 0 || (congruent_list_selection(s.drop_last(), t.drop_last()) && congruent_selection(s.last(), t.last())))
}

pub open spec fn congruent_list_shared_variable_definition(s: Seq<Shared<VariableDefinition>>, t: Seq<Shared<VariableDefinition>>) -> bool
    decreases s, 1nat,
{
    s.len() == t.len() && (s.len() == 0 || (congruent_list_shared_variable_definition(s.drop_last(), t.drop_last()) && congruent_variable_definition((*s.last().0), (*t.last().0))))
}

pub open spec fn congruent_list_root_operation_type_definition(s: Seq<RootOperationTypeDefinition>, t: Seq<RootOperationTypeDefinition>) -> bool
    decreases s, 1nat,
{
    s.len() == t.len() && (s.len() == 0 || (congruent_list_root_operation_type_definition(s.drop_last(), t.drop_last()) && congruent_root_operation_type_definition(s.last(), t.last())))
}

pub open spec fn congruent_list_shared_argument(s: Seq<Shared<Argument>>, t: Seq<Shared<Argument>>) -> bool
    decreases s, 1nat,
{
    s.len() == t.len() && (s.len() == 0 || (congruent_list_shared_argument(s.drop_last(), t.drop_last()) && congruent_argument((*s.last().0), (*t.last().0))))
}

pub open spec fn congruent_list_shared_field_definition(s: Seq<Shared<FieldDefinition>>, t: Seq<Shared<FieldDefinition>>) -> bool
    decreases s, 1nat,
{
    s.len() == t.len() && (s.len() == 0 || (congruent_list_shared_field_definition(s.drop_last(), t.drop_last()) && congruent_field_definition((*s.last().0), (*t.last().0))))
}

pub open spec fn congruent_list_object_field(s: Seq<ObjectField>, t: Seq<ObjectField>) -> bool
    decreases s, 1nat,
{
    s.len() == t.len() && (s.len() == 0 || (congruent_list_object_field(s.drop_last(), t.drop_last()) && congruent_object_field(s.last(), t.last())))
}

pub open spec fn congruent_list_punctuator_recoverable_directive_location(s: Seq<(Punctuator, Recoverable<DirectiveLocation>)>, t: Seq<(Punctuator, Recoverable<DirectiveLocation>)>) -> bool
    decreases s, 1nat,
{
    s.len() == t.len() && (s.len() == 0 || (congruent_list_punctuator_recoverable_directive_location(s.drop_last(), t.drop_last()) && ((s.last().0.0.kind == t.last().0.0.kind && s.last().0.0.source@ == t.last().0.0.source@) && match (s.last().1, t.last().1) { (Recoverable::Present(x), Recoverable::Present(y)) => congruent_directive_location(x, y), (Recoverable::Missing(_), Recoverable::Missing(_)) => true, _ => false })))
}

pub open spec fn congruent_list_shared_value(s: Seq<Shared<Value>>, t: Seq<Shared<Value>>) -> bool
    decreases s, 1nat,
{
    s.len() == t.len() && (s.len() == 0 || (congruent_list_shared_value(s.drop_last(), t.drop_last()) && congruent_value((*s.last().0), (*t.last().0))))
}

pub open spec fn congruent_list_shared_directive(s: Seq<Shared<Directive>>, t: Seq<Shared<Directive>>) -> bool
    decreases s, 1nat,
{
    s.len() == t.len() && (s.len() == 0 || (congruent_list_shared_directive(s.drop_last(), t.drop_last()) && congruent_directive((*s.last().0), (*t.last().0))))
}

pub open spec fn congruent_list_executable_definition(s: Seq<ExecutableDefinition>, t: Seq<ExecutableDefinition>) -> bool
    decreases s, 1nat,
{
    s.len() == t.len() && (s.len() == 0 || (congruent_list_executable_definition(s.drop_last(), t.drop_last()) && congruent_executable_definition(s.last(), t.last())))
}

pub(crate) fn are_congruent_document(a: &Document, b: &Document) -> (r: bool)
    ensures
        r == congruent_document(*a, *b),
    decreases a, 0nat,
{
    are_congruent_list_shared_definition(&a.definitions.0, &b.definitions.0)
}

pub(crate) fn are_congruent_definition(a: &Definition, b: &Definition) -> (r: bool)
    ensures
        r == congruent_definition(*a, *b),
    decreases a, 0nat,
{
    match (a, b) {
            (Definition::ExecutableDefinition(x), Definition::ExecutableDefinition(y)) => are_congruent_executable_definition(&(*x), &(*y)),
            (Definition::TypeSystemDefinitionOrExtension(x), Definition::TypeSystemDefinitionOrExtension(y)) => are_congruent_type_system_definition_or_extension(&(*x), &(*y)),
            _ => false,
        }
}

pub(crate) fn are_congruent_executable_document(a: &ExecutableDocument, b: &ExecutableDocument) -> (r: bool)
    ensures
        r == congruent_executable_document(*a, *b),
    decreases a, 0nat,
{
    are_congruent_list_executable_definition(&a.definitions.0, &b.definitions.0)
}

pub(crate) fn are_congruent_executable_definition(a: &ExecutableDefinition, b: &ExecutableDefinition) -> (r: bool)
    ensures
        r == congruent_executable_definition(*a, *b),
    decreases a, 0nat,
{
    match (a, b) {
            (ExecutableDefinition::OperationDefinition(x), ExecutableDefinition::OperationDefinition(y)) => are_congruent_operation_definition(&(*(*x).0), &(*(*y).0)),
            (ExecutableDefinition::FragmentDefinition(x), ExecutableDefinition::FragmentDefinition(y)) => are_congruent_fragment_definition(&(*(*x).0), &(*(*y).0)),
            _ => false,
        }
}

pub(crate) fn are_congruent_operation_definition(a: &OperationDefinition, b: &OperationDefinition) -> (r: bool)
    ensures
        r == congruent_operation_definition(*a, *b),
    decreases a, 0nat,
{
    (match (&a.ty, &b.ty) { (Some(x), Some(y)) => are_congruent_operation_type(&x, &y), (None, None) => true, _ => false })
        && (match (&a.name, &b.name) { (Some(x), Some(y)) => x.0.congruent(&y.0), (None, None) => true, _ => false })
        && (match (&a.variable_definitions, &b.variable_definitions) { (Some(x), Some(y)) => are_congruent_variable_definitions(&x, &y), (None, None) => true, _ => false })
        && (match (&a.directives, &b.directives) { (Some(x), Some(y)) => are_congruent_directives(&x, &y), (None, None) => true, _ => false })
        && (match (&a.selection_set, &b.selection_set) { (Recoverable::Present(x), Recoverable::Present(y)) => are_congruent_selection_set(&(*x.0), &(*y.0)), (Recoverable::Missing(_), Recoverable::Missing(_)) => true, _ => false })
}

pub(crate) fn are_congruent_operation_type(a: &OperationType, b: &OperationType) -> (r: bool)
    ensures
        r == congruent_operation_type(*a, *b),
    decreases a, 0nat,
{
    match (a, b) {
            (OperationType::Query(x), OperationType::Query(y)) => (*x).0.congruent(&(*y).0),
            (OperationType::Mutation(x), OperationType::Mutation(y)) => (*x).0.congruent(&(*y).0),
            (OperationType::Subscription(x), OperationType::Subscription(y)) => (*x).0.congruent(&(*y).0),
            _ => false,
        }
}

pub(crate) fn are_congruent_selection_set(a: &SelectionSet, b: &SelectionSet) -> (r: bool)
    ensures
        r == congruent_selection_set(*a, *b),
    decreases a, 0nat,
{
    (a.braces.0.0.congruent(&b.braces.0.0) && (match (&a.braces.1, &b.braces.1) { (Recoverable::Present(x), Recoverable::Present(y)) => x.0.congruent(&y.0), (Recoverable::Missing(_), Recoverable::Missing(_)) => true, _ => false }))
        && are_congruent_list_selection(&a.selections.0, &b.selections.0)
}

pub(crate) fn are_congruent_selection(a: &Selection, b: &Selection) -> (r: bool)
    ensures
        r == congruent_selection(*a, *b),
    decreases a, 0nat,
{
    match (a, b) {
            (Selection::Field(x), Selection::Field(y)) => are_congruent_field(&(*(*x).0), &(*(*y).0)),
            (Selection::FragmentSpread(x), Selection::FragmentSpread(y)) => are_congruent_fragment_spread(&(*(*x).0), &(*(*y).0)),
            (Selection::InlineFragment(x), Selection::InlineFragment(y)) => are_congruent_inline_fragment(&(*x), &(*y)),
            _ => false,
        }
}

pub(crate) fn are_congruent_field(a: &Field, b: &Field) -> (r: bool)
    ensures
        r == congruent_field(*a, *b),
    decreases a, 0nat,
{
    (match (&a.alias, &b.alias) { (Some(x), Some(y)) => are_congruent_alias(&x, &y), (None, None) => true, _ => false })
        && (match (&a.name, &b.name) { (Recoverable::Present(x), Recoverable::Present(y)) => x.0.congruent(&y.0), (Recoverable::Missing(_), Recoverable::Missing(_)) => true, _ => false })
        && (match (&a.arguments, &b.arguments) { (Some(x), Some(y)) => are_congruent_arguments(&(*x.0), &(*y.0)), (None, None) => true, _ => false })
        && (match (&a.directives, &b.directives) { (Some(x), Some(y)) => are_congruent_directives(&x, &y), (None, None) => true, _ => false })
        && (match (&a.selection_set, &b.selection_set) { (Some(x), Some(y)) => are_congruent_selection_set(&(*x.0), &(*y.0)), (None, None) => true, _ => false })
}

pub(crate) fn are_congruent_alias(a: &Alias, b: &Alias) -> (r: bool)
    ensures
        r == congruent_alias(*a, *b),
    decreases a, 0nat,
{
    a.name.0.congruent(&b.name.0)
        && a.colon.0.congruent(&b.colon.0)
}

pub(crate) fn are_congruent_arguments(a: &Arguments, b: &Arguments) -> (r: bool)
    ensures
        r == congruent_arguments(*a, *b),
    decreases a, 0nat,
{
    (a.parens.0.0.congruent(&b.parens.0.0) && (match (&a.parens.1, &b.parens.1) { (Recoverable::Present(x), Recoverable::Present(y)) => x.0.congruent(&y.0), (Recoverable::Missing(_), Recoverable::Missing(_)) => true, _ => false }))
        && are_congruent_list_shared_argument(&a.items.0, &b.items.0)
}

pub(crate) fn are_congruent_argument(a: &Argument, b: &Argument) -> (r: bool)
    ensures
        r == congruent_argument(*a, *b),
    decreases a, 0nat,
{
    a.name.0.congruent(&b.name.0)
        && (match (&a.colon, &b.colon) { (Recoverable::Present(x), Recoverable::Present(y)) => x.0.congruent(&y.0), (Recoverable::Missing(_), Recoverable::Missing(_)) => true, _ => false })
        && (match (&a.value, &b.value) { (Recoverable::Present(x), Recoverable::Present(y)) => are_congruent_value(&(*x.0), &(*y.0)), (Recoverable::Missing(_), Recoverable::Missing(_)) => true, _ => false })
}

pub(crate) fn are_congruent_fragment_spread(a: &FragmentSpread, b: &FragmentSpread) -> (r: bool)
    ensures
        r == congruent_fragment_spread(*a, *b),
    decreases a, 0nat,
{
    a.dots.0.congruent(&b.dots.0)
        && a.fragment_name.0.congruent(&b.fragment_name.0)
        && (match (&a.directives, &b.directives) { (Some(x), Some(y)) => are_congruent_directives(&x, &y), (None, None) => true, _ => false })
}

pub(crate) fn are_congruent_inline_fragment(a: &InlineFragment, b: &InlineFragment) -> (r: bool)
    ensures
        r == congruent_inline_fragment(*a, *b),
    decreases a, 0nat,
{
    a.dots.0.congruent(&b.dots.0)
        && (match (&a.type_condition, &b.type_condition) { (Some(x), Some(y)) => are_congruent_type_condition(&x, &y), (None, None) => true, _ => false })
        && (match (&a.directives, &b.directives) { (Some(x), Some(y)) => are_congruent_directives(&x, &y), (None, None) => true, _ => false })
        && (match (&a.selection_set, &b.selection_set) { (Recoverable::Present(x), Recoverable::Present(y)) => are_congruent_selection_set(&(*x.0), &(*y.0)), (Recoverable::Missing(_), Recoverable::Missing(_)) => true, _ => false })
}

pub(crate) fn are_congruent_fragment_definition(a: &FragmentDefinition, b: &FragmentDefinition) -> (r: bool)
    ensures
        r == congruent_fragment_definition(*a, *b),
    decreases a, 0nat,
{
    a.fragment.0.congruent(&b.fragment.0)
        && (match (&a.fragment_name, &b.fragment_name) { (Recoverable::Present(x), Recoverable::Present(y)) => x.0.congruent(&y.0), (Recoverable::Missing(_), Recoverable::Missing(_)) => true, _ => false })
        && (match (&a.type_condition, &b.type_condition) { (Recoverable::Present(x), Recoverable::Present(y)) => are_congruent_type_condition(&x, &y), (Recoverable::Missing(_), Recoverable::Missing(_)) => true, _ => false })
        && (match (&a.directives, &b.directives) { (Some(x), Some(y)) => are_congruent_directives(&x, &y), (None, None) => true, _ => false })
        && (match (&a.selection_set, &b.selection_set) { (Recoverable::Present(x), Recoverable::Present(y)) => are_congruent_selection_set(&(*x.0), &(*y.0)), (Recoverable::Missing(_), Recoverable::Missing(_)) => true, _ => false })
}

pub(crate) fn are_congruent_type_condition(a: &TypeCondition, b: &TypeCondition) -> (r: bool)
    ensures
        r == congruent_type_condition(*a, *b),
    decreases a, 0nat,
{
    a.on.0.congruent(&b.on.0)
        && (match (&a.named_type, &b.named_type) { (Recoverable::Present(x), Recoverable::Present(y)) => are_congruent_named_type(&x, &y), (Recoverable::Missing(_), Recoverable::Missing(_)) => true, _ => false })
}

pub(crate) fn are_congruent_value(a: &Value, b: &Value) -> (r: bool)
    ensures
        r == congruent_value(*a, *b),
    decreases a, 0nat,
{
    match (a, b) {
            (Value::Variable(x), Value::Variable(y)) => are_congruent_variable(&(*x), &(*y)),
            (Value::IntValue(x), Value::IntValue(y)) => (*x).0.congruent(&(*y).0),
            (Value::FloatValue(x), Value::FloatValue(y)) => (*x).0.congruent(&(*y).0),
            (Value::StringValue(x), Value::StringValue(y)) => (*x).0.congruent(&(*y).0),
            (Value::BooleanValue(x), Value::BooleanValue(y)) => are_congruent_boolean_value(&(*x), &(*y)),
            (Value::NullValue(x), Value::NullValue(y)) => are_congruent_null_value(&(*x), &(*y)),
            (Value::EnumValue(x), Value::EnumValue(y)) => are_congruent_enum_value(&(*x), &(*y)),
            (Value::ListValue(x), Value::ListValue(y)) => are_congruent_list_value(&(*x), &(*y)),
            (Value::ObjectValue(x), Value::ObjectValue(y)) => are_congruent_object_value(&(*x), &(*y)),
            _ => false,
        }
}

pub(crate) fn are_congruent_boolean_value(a: &BooleanValue, b: &BooleanValue) -> (r: bool)
    ensures
        r == congruent_boolean_value(*a, *b),
    decreases a, 0nat,
{
    match (a, b) {
            (BooleanValue::True(x), BooleanValue::True(y)) => (*x).0.congruent(&(*y).0),
            (BooleanValue::False(x), BooleanValue::False(y)) => (*x).0.congruent(&(*y).0),
            _ => false,
        }
}

pub(crate) fn are_congruent_null_value(a: &NullValue, b: &NullValue) -> (r: bool)
    ensures
        r == congruent_null_value(*a, *b),
    decreases a, 0nat,
{
    a.0.0.congruent(&b.0.0)
}

pub(crate) fn are_congruent_enum_value(a: &EnumValue, b: &EnumValue) -> (r: bool)
    ensures
        r == congruent_enum_value(*a, *b),
    decreases a, 0nat,
{
    a.0.0.congruent(&b.0.0)
}

pub(crate) fn are_congruent_list_value(a: &ListValue, b: &ListValue) -> (r: bool)
    ensures
        r == congruent_list_value(*a, *b),
    decreases a, 0nat,
{
    (a.brackets.0.0.congruent(&b.brackets.0.0) && (match (&a.brackets.1, &b.brackets.1) { (Recoverable::Present(x), Recoverable::Present(y)) => x.0.congruent(&y.0), (Recoverable::Missing(_), Recoverable::Missing(_)) => true, _ => false }))
        && are_congruent_list_shared_value(&a.values.0, &b.values.0)
}

pub(crate) fn are_congruent_object_value(a: &ObjectValue, b: &ObjectValue) -> (r: bool)
    ensures
        r == congruent_object_value(*a, *b),
    decreases a, 0nat,
{
    (a.braces.0.0.congruent(&b.braces.0.0) && (match (&a.braces.1, &b.braces.1) { (Recoverable::Present(x), Recoverable::Present(y)) => x.0.congruent(&y.0), (Recoverable::Missing(_), Recoverable::Missing(_)) => true, _ => false }))
        && are_congruent_list_object_field(&a.object_fields.0, &b.object_fields.0)
}

pub(crate) fn are_congruent_object_field(a: &ObjectField, b: &ObjectField) -> (r: bool)
    ensures
        r == congruent_object_field(*a, *b),
    decreases a, 0nat,
{
    a.name.0.congruent(&b.name.0)
        && (match (&a.colon, &b.colon) { (Recoverable::Present(x), Recoverable::Present(y)) => x.0.congruent(&y.0), (Recoverable::Missing(_), Recoverable::Missing(_)) => true, _ => false })
        && (match (&a.value, &b.value) { (Recoverable::Present(x), Recoverable::Present(y)) => are_congruent_value(&(*x.0), &(*y.0)), (Recoverable::Missing(_), Recoverable::Missing(_)) => true, _ => false })
}

pub(crate) fn are_congruent_variable_definitions(a: &VariableDefinitions, b: &VariableDefinitions) -> (r: bool)
    ensures
        r == congruent_variable_definitions(*a, *b),
    decreases a, 0nat,
{
    (a.parens.0.0.congruent(&b.parens.0.0) && (match (&a.parens.1, &b.parens.1) { (Recoverable::Present(x), Recoverable::Present(y)) => x.0.congruent(&y.0), (Recoverable::Missing(_), Recoverable::Missing(_)) => true, _ => false }))
        && are_congruent_list_shared_variable_definition(&a.variable_definitions.0, &b.variable_definitions.0)
}

pub(crate) fn are_congruent_variable_definition(a: &VariableDefinition, b: &VariableDefinition) -> (r: bool)
    ensures
        r == congruent_variable_definition(*a, *b),
    decreases a, 0nat,
{
    are_congruent_variable(&a.variable, &b.variable)
        && (match (&a.colon, &b.colon) { (Recoverable::Present(x), Recoverable::Present(y)) => x.0.congruent(&y.0), (Recoverable::Missing(_), Recoverable::Missing(_)) => true, _ => false })
        && (match (&a.ty, &b.ty) { (Recoverable::Present(x), Recoverable::Present(y)) => are_congruent_type(&(*x.0), &(*y.0)), (Recoverable::Missing(_), Recoverable::Missing(_)) => true, _ => false })
        && (match (&a.default_value, &b.default_value) { (Some(x), Some(y)) => are_congruent_default_value(&x, &y), (None, None) => true, _ => false })
        && (match (&a.directives, &b.directives) { (Some(x), Some(y)) => are_congruent_directives(&x, &y), (None, None) => true, _ => false })
}

pub(crate) fn are_congruent_variable(a: &Variable, b: &Variable) -> (r: bool)
    ensures
        r == congruent_variable(*a, *b),
    decreases a, 0nat,
{
    a.dollar.0.congruent(&b.dollar.0)
        && (match (&a.name, &b.name) { (Recoverable::Present(x), Recoverable::Present(y)) => x.0.congruent(&y.0), (Recoverable::Missing(_), Recoverable::Missing(_)) => true, _ => false })
}

pub(crate) fn are_congruent_default_value(a: &DefaultValue, b: &DefaultValue) -> (r: bool)
    ensures
        r == congruent_default_value(*a, *b),
    decreases a, 0nat,
{
    a.eq.0.congruent(&b.eq.0)
        && (match (&a.value, &b.value) { (Recoverable::Present(x), Recoverable::Present(y)) => are_congruent_value(&(*x.0), &(*y.0)), (Recoverable::Missing(_), Recoverable::Missing(_)) => true, _ => false })
}

pub(crate) fn are_congruent_type(a: &Type, b: &Type) -> (r: bool)
    ensures
        r == congruent_type(*a, *b),
    decreases a, 0nat,
{
    match (a, b) {
            (Type::Named(x), Type::Named(y)) => are_congruent_named_type(&(*x), &(*y)),
            (Type::List(x), Type::List(y)) => are_congruent_list_type(&(*x), &(*y)),
            (Type::NonNull(x), Type::NonNull(y)) => are_congruent_non_null_type(&(*x), &(*y)),
            _ => false,
        }
}

pub(crate) fn are_congruent_named_type(a: &NamedType, b: &NamedType) -> (r: bool)
    ensures
        r == congruent_named_type(*a, *b),
    decreases a, 0nat,
{
    a.0.0.congruent(&b.0.0)
}

pub(crate) fn are_congruent_list_type(a: &ListType, b: &ListType) -> (r: bool)
    ensures
        r == congruent_list_type(*a, *b),
    decreases a, 0nat,
{
    (a.brackets.0.0.congruent(&b.brackets.0.0) && (match (&a.brackets.1, &b.brackets.1) { (Recoverable::Present(x), Recoverable::Present(y)) => x.0.congruent(&y.0), (Recoverable::Missing(_), Recoverable::Missing(_)) => true, _ => false }))
        && (match (&a.ty, &b.ty) { (Recoverable::Present(x), Recoverable::Present(y)) => are_congruent_type(&(*x.0), &(*y.0)), (Recoverable::Missing(_), Recoverable::Missing(_)) => true, _ => false })
}

pub(crate) fn are_congruent_non_null_type(a: &NonNullType, b: &NonNullType) -> (r: bool)
    ensures
        r == congruent_non_null_type(*a, *b),
    decreases a, 0nat,
{
    are_congruent_type(&(*a.ty.0), &(*b.ty.0))
        && a.bang.0.congruent(&b.bang.0)
}

pub(crate) fn are_congruent_directives(a: &Directives, b: &Directives) -> (r: bool)
    ensures
        r == congruent_directives(*a, *b),
    decreases a, 0nat,
{
    are_congruent_list_shared_directive(&a.directives.0, &b.directives.0)
}

pub(crate) fn are_congruent_directive(a: &Directive, b: &Directive) -> (r: bool)
    ensures
        r == congruent_directive(*a, *b),
    decreases a, 0nat,
{
    a.at.0.congruent(&b.at.0)
        && (match (&a.name, &b.name) { (Recoverable::Present(x), Recoverable::Present(y)) => x.0.congruent(&y.0), (Recoverable::Missing(_), Recoverable::Missing(_)) => true, _ => false })
        && (match (&a.arguments, &b.arguments) { (Some(x), Some(y)) => are_congruent_arguments(&(*x.0), &(*y.0)), (None, None) => true, _ => false })
}

pub(crate) fn are_congruent_type_system_document(a: &TypeSystemDocument, b: &TypeSystemDocument) -> (r: bool)
    ensures
        r == congruent_type_system_document(*a, *b),
    decreases a, 0nat,
{
    are_congruent_list_type_system_definition(&a.definitions.0, &b.definitions.0)
}

pub(crate) fn are_congruent_type_system_definition(a: &TypeSystemDefinition, b: &TypeSystemDefinition) -> (r: bool)
    ensures
        r == congruent_type_system_definition(*a, *b),
    decreases a, 0nat,
{
    match (a, b) {
            (TypeSystemDefinition::SchemaDefinition(x), TypeSystemDefinition::SchemaDefinition(y)) => are_congruent_schema_definition(&(*x), &(*y)),
            (TypeSystemDefinition::TypeDefinition(x), TypeSystemDefinition::TypeDefinition(y)) => are_congruent_type_definition(&(*(*x).0), &(*(*y).0)),
            (TypeSystemDefinition::DirectiveDefinition(x), TypeSystemDefinition::DirectiveDefinition(y)) => are_congruent_directive_definition(&(*(*x).0), &(*(*y).0)),
            (TypeSystemDefinition::Error(x), TypeSystemDefinition::Error(y)) => are_congruent_description(&(*x), &(*y)),
            _ => false,
        }
}

pub(crate) fn are_congruent_type_system_extension_document(a: &TypeSystemExtensionDocument, b: &TypeSystemExtensionDocument) -> (r: bool)
    ensures
        r == congruent_type_system_extension_document(*a, *b),
    decreases a, 0nat,
{
    are_congruent_list_type_system_definition_or_extension(&a.definitions.0, &b.definitions.0)
}

pub(crate) fn are_congruent_type_system_definition_or_extension(a: &TypeSystemDefinitionOrExtension, b: &TypeSystemDefinitionOrExtension) -> (r: bool)
    ensures
        r == congruent_type_system_definition_or_extension(*a, *b),
    decreases a, 0nat,
{
    match (a, b) {
            (TypeSystemDefinitionOrExtension::TypeSystemDefinition(x), TypeSystemDefinitionOrExtension::TypeSystemDefinition(y)) => are_congruent_type_system_definition(&(*x), &(*y)),
            (TypeSystemDefinitionOrExtension::TypeSystemExtension(x), TypeSystemDefinitionOrExtension::TypeSystemExtension(y)) => are_congruent_type_system_extension(&(*x), &(*y)),
            _ => false,
        }
}

pub(crate) fn are_congruent_type_system_extension(a: &TypeSystemExtension, b: &TypeSystemExtension) -> (r: bool)
    ensures
        r == congruent_type_system_extension(*a, *b),
    decreases a, 0nat,
{
    match (a, b) {
            (TypeSystemExtension::SchemaExtension(x), TypeSystemExtension::SchemaExtension(y)) => are_congruent_schema_extension(&(*x), &(*y)),
            (TypeSystemExtension::TypeExtension(x), TypeSystemExtension::TypeExtension(y)) => are_congruent_type_extension(&(*(*x).0), &(*(*y).0)),
            (TypeSystemExtension::Error(x), TypeSystemExtension::Error(y)) => (*x).0.congruent(&(*y).0),
            _ => false,
        }
}

pub(crate) fn are_congruent_description(a: &Description, b: &Description) -> (r: bool)
    ensures
        r == congruent_description(*a, *b),
    decreases a, 0nat,
{
    a.0.0.congruent(&b.0.0)
}

pub(crate) fn are_congruent_schema_definition(a: &SchemaDefinition, b: &SchemaDefinition) -> (r: bool)
    ensures
        r == congruent_schema_definition(*a, *b),
    decreases a, 0nat,
{
    (match (&a.description, &b.description) { (Some(x), Some(y)) => are_congruent_description(&x, &y), (None, None) => true, _ => false })
        && a.schema.0.congruent(&b.schema.0)
        && (match (&a.directives, &b.directives) { (Some(x), Some(y)) => are_congruent_directives(&x, &y), (None, None) => true, _ => false })
        && (match (&a.type_definitions, &b.type_definitions) { (Recoverable::Present(x), Recoverable::Present(y)) => are_congruent_root_operation_type_definitions(&x, &y), (Recoverable::Missing(_), Recoverable::Missing(_)) => true, _ => false })
}

pub(crate) fn are_congruent_root_operation_type_definitions(a: &RootOperationTypeDefinitions, b: &RootOperationTypeDefinitions) -> (r: bool)
    ensures
        r == congruent_root_operation_type_definitions(*a, *b),
    decreases a, 0nat,
{
    (a.braces.0.0.congruent(&b.braces.0.0) && (match (&a.braces.1, &b.braces.1) { (Recoverable::Present(x), Recoverable::Present(y)) => x.0.congruent(&y.0), (Recoverable::Missing(_), Recoverable::Missing(_)) => true, _ => false }))
        && (match (&a.definitions, &b.definitions) { (Recoverable::Present(x), Recoverable::Present(y)) => are_congruent_list_root_operation_type_definition(&x.0, &y.0), (Recoverable::Missing(_), Recoverable::Missing(_)) => true, _ => false })
}

pub(crate) fn are_congruent_root_operation_type_definition(a: &RootOperationTypeDefinition, b: &RootOperationTypeDefinition) -> (r: bool)
    ensures
        r == congruent_root_operation_type_definition(*a, *b),
    decreases a, 0nat,
{
    are_congruent_operation_type(&a.operation_type, &b.operation_type)
        && (match (&a.colon, &b.colon) { (Recoverable::Present(x), Recoverable::Present(y)) => x.0.congruent(&y.0), (Recoverable::Missing(_), Recoverable::Missing(_)) => true, _ => false })
        && (match (&a.named_type, &b.named_type) { (Recoverable::Present(x), Recoverable::Present(y)) => are_congruent_named_type(&x, &y), (Recoverable::Missing(_), Recoverable::Missing(_)) => true, _ => false })
}

pub(crate) fn are_congruent_schema_extension(a: &SchemaExtension, b: &SchemaExtension) -> (r: bool)
    ensures
        r == congruent_schema_extension(*a, *b),
    decreases a, 0nat,
{
    (a.extend_schema.0.0.congruent(&b.extend_schema.0.0) && a.extend_schema.1.0.congruent(&b.extend_schema.1.0))
        && (match (&a.directives, &b.directives) { (Some(x), Some(y)) => are_congruent_directives(&x, &y), (None, None) => true, _ => false })
        && (match (&a.type_definitions, &b.type_definitions) { (Some(x), Some(y)) => are_congruent_root_operation_type_definitions(&x, &y), (None, None) => true, _ => false })
}

pub(crate) fn are_congruent_type_definition(a: &TypeDefinition, b: &TypeDefinition) -> (r: bool)
    ensures
        r == congruent_type_definition(*a, *b),
    decreases a, 0nat,
{
    match (a, b) {
            (TypeDefinition::ScalarTypeDefinition(x), TypeDefinition::ScalarTypeDefinition(y)) => are_congruent_scalar_type_definition(&(*x), &(*y)),
            (TypeDefinition::ObjectTypeDefinition(x), TypeDefinition::ObjectTypeDefinition(y)) => are_congruent_object_type_definition(&(*x), &(*y)),
            (TypeDefinition::InterfaceTypeDefinition(x), TypeDefinition::InterfaceTypeDefinition(y)) => are_congruent_interface_type_definition(&(*x), &(*y)),
            (TypeDefinition::UnionTypeDefinition(x), TypeDefinition::UnionTypeDefinition(y)) => are_congruent_union_type_definition(&(*x), &(*y)),
            (TypeDefinition::EnumTypeDefinition(x), TypeDefinition::EnumTypeDefinition(y)) => are_congruent_enum_type_definition(&(*x), &(*y)),
            (TypeDefinition::InputObjectTypeDefinition(x), TypeDefinition::InputObjectTypeDefinition(y)) => are_congruent_input_object_type_definition(&(*x), &(*y)),
            _ => false,
        }
}

pub(crate) fn are_congruent_type_extension(a: &TypeExtension, b: &TypeExtension) -> (r: bool)
    ensures
        r == congruent_type_extension(*a, *b),
    decreases a, 0nat,
{
    match (a, b) {
            (TypeExtension::ScalarTypeExtension(x), TypeExtension::ScalarTypeExtension(y)) => are_congruent_scalar_type_extension(&(*x), &(*y)),
            (TypeExtension::ObjectTypeExtension(x), TypeExtension::ObjectTypeExtension(y)) => are_congruent_object_type_extension(&(*x), &(*y)),
            (TypeExtension::InterfaceTypeExtension(x), TypeExtension::InterfaceTypeExtension(y)) => are_congruent_interface_type_extension(&(*x), &(*y)),
            (TypeExtension::UnionTypeExtension(x), TypeExtension::UnionTypeExtension(y)) => are_congruent_union_type_extension(&(*x), &(*y)),
            (TypeExtension::EnumTypeExtension(x), TypeExtension::EnumTypeExtension(y)) => are_congruent_enum_type_extension(&(*x), &(*y)),
            (TypeExtension::InputObjectTypeExtension(x), TypeExtension::InputObjectTypeExtension(y)) => are_congruent_input_object_type_extension(&(*x), &(*y)),
            _ => false,
        }
}

pub(crate) fn are_congruent_scalar_type_definition(a: &ScalarTypeDefinition, b: &ScalarTypeDefinition) -> (r: bool)
    ensures
        r == congruent_scalar_type_definition(*a, *b),
    decreases a, 0nat,
{
    a.scalar.0.congruent(&b.scalar.0)
        && (match (&a.name, &b.name) { (Recoverable::Present(x), Recoverable::Present(y)) => x.0.congruent(&y.0), (Recoverable::Missing(_), Recoverable::Missing(_)) => true, _ => false })
        && (match (&a.directives, &b.directives) { (Some(x), Some(y)) => are_congruent_directives(&x, &y), (None, None) => true, _ => false })
}

pub(crate) fn are_congruent_scalar_type_extension(a: &ScalarTypeExtension, b: &ScalarTypeExtension) -> (r: bool)
    ensures
        r == congruent_scalar_type_extension(*a, *b),
    decreases a, 0nat,
{
    (a.extend_scalar.0.0.congruent(&b.extend_scalar.0.0) && a.extend_scalar.1.0.congruent(&b.extend_scalar.1.0))
        && (match (&a.name, &b.name) { (Recoverable::Present(x), Recoverable::Present(y)) => are_congruent_named_type(&x, &y), (Recoverable::Missing(_), Recoverable::Missing(_)) => true, _ => false })
        && (match (&a.directives, &b.directives) { (Recoverable::Present(x), Recoverable::Present(y)) => are_congruent_directives(&x, &y), (Recoverable::Missing(_), Recoverable::Missing(_)) => true, _ => false })
}

pub(crate) fn are_congruent_object_type_definition(a: &ObjectTypeDefinition, b: &ObjectTypeDefinition) -> (r: bool)
    ensures
        r == congruent_object_type_definition(*a, *b),
    decreases a, 0nat,
{
    (match (&a.description, &b.description) { (Some(x), Some(y)) => are_congruent_description(&x, &y), (None, None) => true, _ => false })
        && a.ty.0.congruent(&b.ty.0)
        && (match (&a.name, &b.name) { (Recoverable::Present(x), Recoverable::Present(y)) => x.0.congruent(&y.0), (Recoverable::Missing(_), Recoverable::Missing(_)) => true, _ => false })
        && (match (&a.implements_interfaces, &b.implements_interfaces) { (Some(x), Some(y)) => are_congruent_implements_interfaces(&x, &y), (None, None) => true, _ => false })
        && (match (&a.directives, &b.directives) { (Some(x), Some(y)) => are_congruent_directives(&x, &y), (None, None) => true, _ => false })
        && (match (&a.fields_definition, &b.fields_definition) { (Some(x), Some(y)) => are_congruent_fields_definition(&x, &y), (None, None) => true, _ => false })
}

pub(crate) fn are_congruent_implements_interfaces(a: &ImplementsInterfaces, b: &ImplementsInterfaces) -> (r: bool)
    ensures
        r == congruent_implements_interfaces(*a, *b),
    decreases a, 0nat,
{
    a.implements.0.congruent(&b.implements.0)
        && (match (&a.ampersand, &b.ampersand) { (Some(x), Some(y)) => x.0.congruent(&y.0), (None, None) => true, _ => false })
        && (match (&a.first, &b.first) { (Recoverable::Present(x), Recoverable::Present(y)) => are_congruent_named_type(&(*x.0), &(*y.0)), (Recoverable::Missing(_), Recoverable::Missing(_)) => true, _ => false })
        && are_congruent_list_punctuator_recoverable_shared_named_type(&a.types.0, &b.types.0)
}

pub(crate) fn are_congruent_fields_definition(a: &FieldsDefinition, b: &FieldsDefinition) -> (r: bool)
    ensures
        r == congruent_fields_definition(*a, *b),
    decreases a, 0nat,
{
    (a.braces.0.0.congruent(&b.braces.0.0) && (match (&a.braces.1, &b.braces.1) { (Recoverable::Present(x), Recoverable::Present(y)) => x.0.congruent(&y.0), (Recoverable::Missing(_), Recoverable::Missing(_)) => true, _ => false }))
        && are_congruent_list_shared_field_definition(&a.definitions.0, &b.definitions.0)
}

pub(crate) fn are_congruent_field_definition(a: &FieldDefinition, b: &FieldDefinition) -> (r: bool)
    ensures
        r == congruent_field_definition(*a, *b),
    decreases a, 0nat,
{
    (match (&a.description, &b.description) { (Some(x), Some(y)) => are_congruent_description(&x, &y), (None, None) => true, _ => false })
        && a.name.0.congruent(&b.name.0)
        && (match (&a.arguments_definition, &b.arguments_definition) { (Some(x), Some(y)) => are_congruent_arguments_definition(&(*x.0), &(*y.0)), (None, None) => true, _ => false })
        && (match (&a.colon, &b.colon) { (Recoverable::Present(x), Recoverable::Present(y)) => x.0.congruent(&y.0), (Recoverable::Missing(_), Recoverable::Missing(_)) => true, _ => false })
        && (match (&a.ty, &b.ty) { (Recoverable::Present(x), Recoverable::Present(y)) => are_congruent_type(&(*x.0), &(*y.0)), (Recoverable::Missing(_), Recoverable::Missing(_)) => true, _ => false })
        && (match (&a.directives, &b.directives) { (Some(x), Some(y)) => are_congruent_directives(&x, &y), (None, None) => true, _ => false })
}

pub(crate) fn are_congruent_arguments_definition(a: &ArgumentsDefinition, b: &ArgumentsDefinition) -> (r: bool)
    ensures
        r == congruent_arguments_definition(*a, *b),
    decreases a, 0nat,
{
    (a.parens.0.0.congruent(&b.parens.0.0) && (match (&a.parens.1, &b.parens.1) { (Recoverable::Present(x), Recoverable::Present(y)) => x.0.congruent(&y.0), (Recoverable::Missing(_), Recoverable::Missing(_)) => true, _ => false }))
        && are_congruent_list_shared_input_value_definition(&a.definitions.0, &b.definitions.0)
}

pub(crate) fn are_congruent_input_value_definition(a: &InputValueDefinition, b: &InputValueDefinition) -> (r: bool)
    ensures
        r == congruent_input_value_definition(*a, *b),
    decreases a, 0nat,
{
    (match (&a.description, &b.description) { (Some(x), Some(y)) => are_congruent_description(&x, &y), (None, None) => true, _ => false })
        && a.name.0.congruent(&b.name.0)
        && (match (&a.colon, &b.colon) { (Recoverable::Present(x), Recoverable::Present(y)) => x.0.congruent(&y.0), (Recoverable::Missing(_), Recoverable::Missing(_)) => true, _ => false })
        && (match (&a.ty, &b.ty) { (Recoverable::Present(x), Recoverable::Present(y)) => are_congruent_type(&(*x.0), &(*y.0)), (Recoverable::Missing(_), Recoverable::Missing(_)) => true, _ => false })
        && (match (&a.default_value, &b.default_value) { (Some(x), Some(y)) => are_congruent_default_value(&x, &y), (None, None) => true, _ => false })
        && (match (&a.directives, &b.directives) { (Some(x), Some(y)) => are_congruent_directives(&x, &y), (None, None) => true, _ => false })
}

pub(crate) fn are_congruent_object_type_extension(a: &ObjectTypeExtension, b: &ObjectTypeExtension) -> (r: bool)
    ensures
        r == congruent_object_type_extension(*a, *b),
    decreases a, 0nat,
{
    (a.extend_type.0.0.congruent(&b.extend_type.0.0) && a.extend_type.1.0.congruent(&b.extend_type.1.0))
        && (match (&a.name, &b.name) { (Recoverable::Present(x), Recoverable::Present(y)) => are_congruent_named_type(&x, &y), (Recoverable::Missing(_), Recoverable::Missing(_)) => true, _ => false })
        && (match (&a.implements_interfaces, &b.implements_interfaces) { (Some(x), Some(y)) => are_congruent_implements_interfaces(&x, &y), (None, None) => true, _ => false })
        && (match (&a.directives, &b.directives) { (Some(x), Some(y)) => are_congruent_directives(&x, &y), (None, None) => true, _ => false })
        && (match (&a.fields_definition, &b.fields_definition) { (Some(x), Some(y)) => are_congruent_fields_definition(&x, &y), (None, None) => true, _ => false })
}

pub(crate) fn are_congruent_interface_type_definition(a: &InterfaceTypeDefinition, b: &InterfaceTypeDefinition) -> (r: bool)
    ensures
        r == congruent_interface_type_definition(*a, *b),
    decreases a, 0nat,
{
    (match (&a.description, &b.description) { (Some(x), Some(y)) => are_congruent_description(&x, &y), (None, None) => true, _ => false })
        && a.interface.0.congruent(&b.interface.0)
        && (match (&a.name, &b.name) { (Recoverable::Present(x), Recoverable::Present(y)) => x.0.congruent(&y.0), (Recoverable::Missing(_), Recoverable::Missing(_)) => true, _ => false })
        && (match (&a.implements_interfaces, &b.implements_interfaces) { (Some(x), Some(y)) => are_congruent_implements_interfaces(&x, &y), (None, None) => true, _ => false })
        && (match (&a.directives, &b.directives) { (Some(x), Some(y)) => are_congruent_directives(&x, &y), (None, None) => true, _ => false })
        && (match (&a.fields_definition, &b.fields_definition) { (Some(x), Some(y)) => are_congruent_fields_definition(&x, &y), (None, None) => true, _ => false })
}

pub(crate) fn are_congruent_interface_type_extension(a: &InterfaceTypeExtension, b: &InterfaceTypeExtension) -> (r: bool)
    ensures
        r == congruent_interface_type_extension(*a, *b),
    decreases a, 0nat,
{
    (a.extend_interface.0.0.congruent(&b.extend_interface.0.0) && a.extend_interface.1.0.congruent(&b.extend_interface.1.0))
        && (match (&a.name, &b.name) { (Recoverable::Present(x), Recoverable::Present(y)) => are_congruent_named_type(&x, &y), (Recoverable::Missing(_), Recoverable::Missing(_)) => true, _ => false })
        && (match (&a.implements_interfaces, &b.implements_interfaces) { (Some(x), Some(y)) => are_congruent_implements_interfaces(&x, &y), (None, None) => true, _ => false })
        && (match (&a.directives, &b.directives) { (Some(x), Some(y)) => are_congruent_directives(&x, &y), (None, None) => true, _ => false })
        && (match (&a.fields_definition, &b.fields_definition) { (Some(x), Some(y)) => are_congruent_fields_definition(&x, &y), (None, None) => true, _ => false })
}

pub(crate) fn are_congruent_union_type_definition(a: &UnionTypeDefinition, b: &UnionTypeDefinition) -> (r: bool)
    ensures
        r == congruent_union_type_definition(*a, *b),
    decreases a, 0nat,
{
    (match (&a.description, &b.description) { (Some(x), Some(y)) => are_congruent_description(&x, &y), (None, None) => true, _ => false })
        && a.union_kw.0.congruent(&b.union_kw.0)
        && (match (&a.name, &b.name) { (Recoverable::Present(x), Recoverable::Present(y)) => x.0.congruent(&y.0), (Recoverable::Missing(_), Recoverable::Missing(_)) => true, _ => false })
        && (match (&a.directives, &b.directives) { (Some(x), Some(y)) => are_congruent_directives(&x, &y), (None, None) => true, _ => false })
        && (match (&a.member_types, &b.member_types) { (Some(x), Some(y)) => are_congruent_union_member_types(&x, &y), (None, None) => true, _ => false })
}

pub(crate) fn are_congruent_union_member_types(a: &UnionMemberTypes, b: &UnionMemberTypes) -> (r: bool)
    ensures
        r == congruent_union_member_types(*a, *b),
    decreases a, 0nat,
{
    a.eq.0.congruent(&b.eq.0)
        && (match (&a.pipe, &b.pipe) { (Some(x), Some(y)) => x.0.congruent(&y.0), (None, None) => true, _ => false })
        && (match (&a.first, &b.first) { (Recoverable::Present(x), Recoverable::Present(y)) => are_congruent_named_type(&(*x.0), &(*y.0)), (Recoverable::Missing(_), Recoverable::Missing(_)) => true, _ => false })
        && are_congruent_list_punctuator_recoverable_shared_named_type(&a.types.0, &b.types.0)
}

pub(crate) fn are_congruent_union_type_extension(a: &UnionTypeExtension, b: &UnionTypeExtension) -> (r: bool)
    ensures
        r == congruent_union_type_extension(*a, *b),
    decreases a, 0nat,
{
    (a.extend_union.0.0.congruent(&b.extend_union.0.0) && a.extend_union.1.0.congruent(&b.extend_union.1.0))
        && (match (&a.name, &b.name) { (Recoverable::Present(x), Recoverable::Present(y)) => are_congruent_named_type(&x, &y), (Recoverable::Missing(_), Recoverable::Missing(_)) => true, _ => false })
        && (match (&a.directives, &b.directives) { (Some(x), Some(y)) => are_congruent_directives(&x, &y), (None, None) => true, _ => false })
        && (match (&a.member_types, &b.member_types) { (Some(x), Some(y)) => are_congruent_union_member_types(&x, &y), (None, None) => true, _ => false })
}

pub(crate) fn are_congruent_enum_type_definition(a: &EnumTypeDefinition, b: &EnumTypeDefinition) -> (r: bool)
    ensures
        r == congruent_enum_type_definition(*a, *b),
    decreases a, 0nat,
{
    (match (&a.description, &b.description) { (Some(x), Some(y)) => are_congruent_description(&x, &y), (None, None) => true, _ => false })
        && a.enum_kw.0.congruent(&b.enum_kw.0)
        && (match (&a.name, &b.name) { (Recoverable::Present(x), Recoverable::Present(y)) => x.0.congruent(&y.0), (Recoverable::Missing(_), Recoverable::Missing(_)) => true, _ => false })
        && (match (&a.directives, &b.directives) { (Some(x), Some(y)) => are_congruent_directives(&x, &y), (None, None) => true, _ => false })
        && (match (&a.values_definition, &b.values_definition) { (Some(x), Some(y)) => are_congruent_enum_values_definition(&x, &y), (None, None) => true, _ => false })
}

pub(crate) fn are_congruent_enum_values_definition(a: &EnumValuesDefinition, b: &EnumValuesDefinition) -> (r: bool)
    ensures
        r == congruent_enum_values_definition(*a, *b),
    decreases a, 0nat,
{
    (a.braces.0.0.congruent(&b.braces.0.0) && (match (&a.braces.1, &b.braces.1) { (Recoverable::Present(x), Recoverable::Present(y)) => x.0.congruent(&y.0), (Recoverable::Missing(_), Recoverable::Missing(_)) => true, _ => false }))
        && are_congruent_list_shared_enum_value_definition(&a.definitions.0, &b.definitions.0)
}

pub(crate) fn are_congruent_enum_value_definition(a: &EnumValueDefinition, b: &EnumValueDefinition) -> (r: bool)
    ensures
        r == congruent_enum_value_definition(*a, *b),
    decreases a, 0nat,
{
    (match (&a.description, &b.description) { (Some(x), Some(y)) => are_congruent_description(&x, &y), (None, None) => true, _ => false })
        && are_congruent_enum_value(&a.enum_value, &b.enum_value)
        && (match (&a.directives, &b.directives) { (Some(x), Some(y)) => are_congruent_directives(&x, &y), (None, None) => true, _ => false })
}

pub(crate) fn are_congruent_enum_type_extension(a: &EnumTypeExtension, b: &EnumTypeExtension) -> (r: bool)
    ensures
        r == congruent_enum_type_extension(*a, *b),
    decreases a, 0nat,
{
    (match (&a.name, &b.name) { (Recoverable::Present(x), Recoverable::Present(y)) => are_congruent_named_type(&x, &y), (Recoverable::Missing(_), Recoverable::Missing(_)) => true, _ => false })
        && (match (&a.directives, &b.directives) { (Some(x), Some(y)) => are_congruent_directives(&x, &y), (None, None) => true, _ => false })
        && (match (&a.values_definition, &b.values_definition) { (Some(x), Some(y)) => are_congruent_enum_values_definition(&x, &y), (None, None) => true, _ => false })
}

pub(crate) fn are_congruent_input_object_type_definition(a: &InputObjectTypeDefinition, b: &InputObjectTypeDefinition) -> (r: bool)
    ensures
        r == congruent_input_object_type_definition(*a, *b),
    decreases a, 0nat,
{
    (match (&a.description, &b.description) { (Some(x), Some(y)) => are_congruent_description(&x, &y), (None, None) => true, _ => false })
        && a.input.0.congruent(&b.input.0)
        && (match (&a.name, &b.name) { (Recoverable::Present(x), Recoverable::Present(y)) => x.0.congruent(&y.0), (Recoverable::Missing(_), Recoverable::Missing(_)) => true, _ => false })
        && (match (&a.directives, &b.directives) { (Some(x), Some(y)) => are_congruent_directives(&x, &y), (None, None) => true, _ => false })
        && (match (&a.fields_definition, &b.fields_definition) { (Some(x), Some(y)) => are_congruent_input_fields_definition(&x, &y), (None, None) => true, _ => false })
}

pub(crate) fn are_congruent_input_fields_definition(a: &InputFieldsDefinition, b: &InputFieldsDefinition) -> (r: bool)
    ensures
        r == congruent_input_fields_definition(*a, *b),
    decreases a, 0nat,
{
    (a.braces.0.0.congruent(&b.braces.0.0) && (match (&a.braces.1, &b.braces.1) { (Recoverable::Present(x), Recoverable::Present(y)) => x.0.congruent(&y.0), (Recoverable::Missing(_), Recoverable::Missing(_)) => true, _ => false }))
        && are_congruent_list_shared_input_value_definition(&a.definitions.0, &b.definitions.0)
}

pub(crate) fn are_congruent_input_object_type_extension(a: &InputObjectTypeExtension, b: &InputObjectTypeExtension) -> (r: bool)
    ensures
        r == congruent_input_object_type_extension(*a, *b),
    decreases a, 0nat,
{
    (a.extend_input.0.0.congruent(&b.extend_input.0.0) && a.extend_input.1.0.congruent(&b.extend_input.1.0))
        && (match (&a.name, &b.name) { (Recoverable::Present(x), Recoverable::Present(y)) => are_congruent_named_type(&x, &y), (Recoverable::Missing(_), Recoverable::Missing(_)) => true, _ => false })
        && (match (&a.directives, &b.directives) { (Some(x), Some(y)) => are_congruent_directives(&x, &y), (None, None) => true, _ => false })
        && (match (&a.fields_definition, &b.fields_definition) { (Some(x), Some(y)) => are_congruent_input_fields_definition(&x, &y), (None, None) => true, _ => false })
}

pub(crate) fn are_congruent_directive_definition(a: &DirectiveDefinition, b: &DirectiveDefinition) -> (r: bool)
    ensures
        r == congruent_directive_definition(*a, *b),
    decreases a, 0nat,
{
    (match (&a.description, &b.description) { (Some(x), Some(y)) => are_congruent_description(&x, &y), (None, None) => true, _ => false })
        && a.directive.0.congruent(&b.directive.0)
        && (match (&a.at, &b.at) { (Recoverable::Present(x), Recoverable::Present(y)) => x.0.congruent(&y.0), (Recoverable::Missing(_), Recoverable::Missing(_)) => true, _ => false })
        && (match (&a.name, &b.name) { (Recoverable::Present(x), Recoverable::Present(y)) => x.0.congruent(&y.0), (Recoverable::Missing(_), Recoverable::Missing(_)) => true, _ => false })
        && (match (&a.arguments_definition, &b.arguments_definition) { (Some(x), Some(y)) => are_congruent_arguments_definition(&(*x.0), &(*y.0)), (None, None) => true, _ => false })
        && (match (&a.repeatable, &b.repeatable) { (Some(x), Some(y)) => x.0.congruent(&y.0), (None, None) => true, _ => false })
        && (match (&a.locations, &b.locations) { (Recoverable::Present(x), Recoverable::Present(y)) => are_congruent_directive_locations(&x, &y), (Recoverable::Missing(_), Recoverable::Missing(_)) => true, _ => false })
}

pub(crate) fn are_congruent_directive_locations(a: &DirectiveLocations, b: &DirectiveLocations) -> (r: bool)
    ensures
        r == congruent_directive_locations(*a, *b),
    decreases a, 0nat,
{
    a.on.0.congruent(&b.on.0)
        && (match (&a.pipe, &b.pipe) { (Some(x), Some(y)) => x.0.congruent(&y.0), (None, None) => true, _ => false })
        && (match (&a.first, &b.first) { (Recoverable::Present(x), Recoverable::Present(y)) => are_congruent_directive_location(&x, &y), (Recoverable::Missing(_), Recoverable::Missing(_)) => true, _ => false })
        && are_congruent_list_punctuator_recoverable_directive_location(&a.locations.0, &b.locations.0)
}

pub(crate) fn are_congruent_directive_location(a: &DirectiveLocation, b: &DirectiveLocation) -> (r: bool)
    ensures
        r == congruent_directive_location(*a, *b),
    decreases a, 0nat,
{
    match (a, b) {
            (DirectiveLocation::ExecutableDirectiveLocation(x), DirectiveLocation::ExecutableDirectiveLocation(y)) => are_congruent_executable_directive_location(&(*x), &(*y)),
            (DirectiveLocation::TypeSystemDirectiveLocation(x), DirectiveLocation::TypeSystemDirectiveLocation(y)) => are_congruent_type_system_directive_location(&(*x), &(*y)),
            _ => false,
        }
}

pub(crate) fn are_congruent_executable_directive_location(a: &ExecutableDirectiveLocation, b: &ExecutableDirectiveLocation) -> (r: bool)
    ensures
        r == congruent_executable_directive_location(*a, *b),
    decreases a, 0nat,
{
    match (a, b) {
            (ExecutableDirectiveLocation::Query(x), ExecutableDirectiveLocation::Query(y)) => (*x).0.congruent(&(*y).0),
            (ExecutableDirectiveLocation::Mutation(x), ExecutableDirectiveLocation::Mutation(y)) => (*x).0.congruent(&(*y).0),
            (ExecutableDirectiveLocation::Subscription(x), ExecutableDirectiveLocation::Subscription(y)) => (*x).0.congruent(&(*y).0),
            (ExecutableDirectiveLocation::Field(x), ExecutableDirectiveLocation::Field(y)) => (*x).0.congruent(&(*y).0),
            (ExecutableDirectiveLocation::FragmentDefinition(x), ExecutableDirectiveLocation::FragmentDefinition(y)) => (*x).0.congruent(&(*y).0),
            (ExecutableDirectiveLocation::FragmentSpread(x), ExecutableDirectiveLocation::FragmentSpread(y)) => (*x).0.congruent(&(*y).0),
            (ExecutableDirectiveLocation::InlineFragment(x), ExecutableDirectiveLocation::InlineFragment(y)) => (*x).0.congruent(&(*y).0),
            (ExecutableDirectiveLocation::VariableDefinition(x), ExecutableDirectiveLocation::VariableDefinition(y)) => (*x).0.congruent(&(*y).0),
            _ => false,
        }
}

pub(crate) fn are_congruent_type_system_directive_location(a: &TypeSystemDirectiveLocation, b: &TypeSystemDirectiveLocation) -> (r: bool)
    ensures
        r == congruent_type_system_directive_location(*a, *b),
    decreases a, 0nat,
{
    match (a, b) {
            (TypeSystemDirectiveLocation::Schema(x), TypeSystemDirectiveLocation::Schema(y)) => (*x).0.congruent(&(*y).0),
            (TypeSystemDirectiveLocation::Scalar(x), TypeSystemDirectiveLocation::Scalar(y)) => (*x).0.congruent(&(*y).0),
            (TypeSystemDirectiveLocation::Object(x), TypeSystemDirectiveLocation::Object(y)) => (*x).0.congruent(&(*y).0),
            (TypeSystemDirectiveLocation::FieldDefinition(x), TypeSystemDirectiveLocation::FieldDefinition(y)) => (*x).0.congruent(&(*y).0),
            (TypeSystemDirectiveLocation::ArgumentDefinition(x), TypeSystemDirectiveLocation::ArgumentDefinition(y)) => (*x).0.congruent(&(*y).0),
            (TypeSystemDirectiveLocation::Interface(x), TypeSystemDirectiveLocation::Interface(y)) => (*x).0.congruent(&(*y).0),
            (TypeSystemDirectiveLocation::Union(x), TypeSystemDirectiveLocation::Union(y)) => (*x).0.congruent(&(*y).0),
            (TypeSystemDirectiveLocation::Enum(x), TypeSystemDirectiveLocation::Enum(y)) => (*x).0.congruent(&(*y).0),
            (TypeSystemDirectiveLocation::EnumValue(x), TypeSystemDirectiveLocation::EnumValue(y)) => (*x).0.congruent(&(*y).0),
            (TypeSystemDirectiveLocation::InputObject(x), TypeSystemDirectiveLocation::InputObject(y)) => (*x).0.congruent(&(*y).0),
            (TypeSystemDirectiveLocation::InputFieldDefinition(x), TypeSystemDirectiveLocation::InputFieldDefinition(y)) => (*x).0.congruent(&(*y).0),
            _ => false,
        }
}

fn are_congruent_list_shared_definition(s: &Vec<Shared<Definition>>, t: &Vec<Shared<Definition>>) -> (r: bool)
    ensures
        r == congruent_list_shared_definition(s@, t@),
    decreases s@, 1nat,
{
    if s.len() != t.len() {
        return false;
    }
    let mut all = true;
    let mut i: usize = 0;
    while i < s.len()
        invariant
            i <= s@.len(),
            s@.len() == t@.len(),
            all == congruent_list_shared_definition(s@.take(i as int), t@.take(i as int)),
        decreases s.len() - i,
    {
        proof {
            assert(s@.take(i + 1).drop_last() =~= s@.take(i as int));
            assert(t@.take(i + 1).drop_last() =~= t@.take(i as int));
        }
        all = all && are_congruent_definition(&(*s[i].0), &(*t[i].0));
        i = i + 1;
    }
    proof {
        assert(s@.take(i as int) =~= s@);
        assert(t@.take(i as int) =~= t@);
    }
    all
}

fn are_congruent_list_punctuator_recoverable_shared_named_type(s: &Vec<(Punctuator, Recoverable<Shared<NamedType>>)>, t: &Vec<(Punctuator, Recoverable<Shared<NamedType>>)>) -> (r: bool)
    ensures
        r == congruent_list_punctuator_recoverable_shared_named_type(s@, t@),
    decreases s@, 1nat,
{
    if s.len() != t.len() {
        return false;
    }
    let mut all = true;
    let mut i: usize = 0;
    while i < s.len()
        invariant
            i <= s@.len(),
            s@.len() == t@.len(),
            all == congruent_list_punctuator_recoverable_shared_named_type(s@.take(i as int), t@.take(i as int)),
        decreases s.len() - i,
    {
        proof {
            assert(s@.take(i + 1).drop_last() =~= s@.take(i as int));
            assert(t@.take(i + 1).drop_last() =~= t@.take(i as int));
        }
        all = all && (s[i].0.0.congruent(&t[i].0.0) && (match (&s[i].1, &t[i].1) { (Recoverable::Present(x), Recoverable::Present(y)) => are_congruent_named_type(&(*x.0), &(*y.0)), (Recoverable::Missing(_), Recoverable::Missing(_)) => true, _ => false }));
        i = i + 1;
    }
    proof {
        assert(s@.take(i as int) =~= s@);
        assert(t@.take(i as int) =~= t@);
    }
    all
}

fn are_congruent_list_shared_enum_value_definition(s: &Vec<Shared<EnumValueDefinition>>, t: &Vec<Shared<EnumValueDefinition>>) -> (r: bool)
    ensures
        r == congruent_list_shared_enum_value_definition(s@, t@),
    decreases s@, 1nat,
{
    if s.len() != t.len() {
        return false;
    }
    let mut all = true;
    let mut i: usize = 0;
    while i < s.len()
        invariant
            i <= s@.len(),
            s@.len() == t@.len(),
            all == congruent_list_shared_enum_value_definition(s@.take(i as int), t@.take(i as int)),
        decreases s.len() - i,
    {
        proof {
            assert(s@.take(i + 1).drop_last() =~= s@.take(i as int));
            assert(t@.take(i + 1).drop_last() =~= t@.take(i as int));
        }
        all = all && are_congruent_enum_value_definition(&(*s[i].0), &(*t[i].0));
        i = i + 1;
    }
    proof {
        assert(s@.take(i as int) =~= s@);
        assert(t@.take(i as int) =~= t@);
    }
    all
}

fn are_congruent_list_type_system_definition(s: &Vec<TypeSystemDefinition>, t: &Vec<TypeSystemDefinition>) -> (r: bool)
    ensures
        r == congruent_list_type_system_definition(s@, t@),
    decreases s@, 1nat,
{
    if s.len() != t.len() {
        return false;
    }
    let mut all = true;
    let mut i: usize = 0;
    while i < s.len()
        invariant
            i <= s@.len(),
            s@.len() == t@.len(),
            all == congruent_list_type_system_definition(s@.take(i as int), t@.take(i as int)),
        decreases s.len() - i,
    {
        proof {
            assert(s@.take(i + 1).drop_last() =~= s@.take(i as int));
            assert(t@.take(i + 1).drop_last() =~= t@.take(i as int));
        }
        all = all && are_congruent_type_system_definition(&s[i], &t[i]);
        i = i + 1;
    }
    proof {
        assert(s@.take(i as int) =~= s@);
        assert(t@.take(i as int) =~= t@);
    }
    all
}

fn are_congruent_list_shared_input_value_definition(s: &Vec<Shared<InputValueDefinition>>, t: &Vec<Shared<InputValueDefinition>>) -> (r: bool)
    ensures
        r == congruent_list_shared_input_value_definition(s@, t@),
    decreases s@, 1nat,
{
    if s.len() != t.len() {
        return false;
    }
    let mut all = true;
    let mut i: usize = 0;
    while i < s.len()
        invariant
            i <= s@.len(),
            s@.len() == t@.len(),
            all == congruent_list_shared_input_value_definition(s@.take(i as int), t@.take(i as int)),
        decreases s.len() - i,
    {
        proof {
            assert(s@.take(i + 1).drop_last() =~= s@.take(i as int));
            assert(t@.take(i + 1).drop_last() =~= t@.take(i as int));
        }
        all = all && are_congruent_input_value_definition(&(*s[i].0), &(*t[i].0));
        i = i + 1;
    }
    proof {
        assert(s@.take(i as int) =~= s@);
        assert(t@.take(i as int) =~= t@);
    }
    all
}

fn are_congruent_list_type_system_definition_or_extension(s: &Vec<TypeSystemDefinitionOrExtension>, t: &Vec<TypeSystemDefinitionOrExtension>) -> (r: bool)
    ensures
        r == congruent_list_type_system_definition_or_extension(s@, t@),
    decreases s@, 1nat,
{
    if s.len() != t.len() {
        return false;
    }
    let mut all = true;
    let mut i: usize = 0;
    while i < s.len()
        invariant
            i <= s@.len(),
            s@.len() == t@.len(),
            all == congruent_list_type_system_definition_or_extension(s@.take(i as int), t@.take(i as int)),
        decreases s.len() - i,
    {
        proof {
            assert(s@.take(i + 1).drop_last() =~= s@.take(i as int));
            assert(t@.take(i + 1).drop_last() =~= t@.take(i as int));
        }
        all = all && are_congruent_type_system_definition_or_extension(&s[i], &t[i]);
        i = i + 1;
    }
    proof {
        assert(s@.take(i as int) =~= s@);
        assert(t@.take(i as int) =~= t@);
    }
    all
}

fn are_congruent_list_selection(s: &Vec<Selection>, t: &Vec<Selection>) -> (r: bool)
    ensures
        r == congruent_list_selection(s@, t@),
    decreases s@, 1nat,
{
    if s.len() != t.len() {
        return false;
    }
    let mut all = true;
    let mut i: usize = 0;
    while i < s.len()
        invariant
            i <= s@.len(),
            s@.len() == t@.len(),
            all == congruent_list_selection(s@.take(i as int), t@.take(i as int)),
        decreases s.len() - i,
    {
        proof {
            assert(s@.take(i + 1).drop_last() =~= s@.take(i as int));
            assert(t@.take(i + 1).drop_last() =~= t@.take(i as int));
        }
        all = all && are_congruent_selection(&s[i], &t[i]);
        i = i + 1;
    }
    proof {
        assert(s@.take(i as int) =~= s@);
        assert(t@.take(i as int) =~= t@);
    }
    all
}

fn are_congruent_list_shared_variable_definition(s: &Vec<Shared<VariableDefinition>>, t: &Vec<Shared<VariableDefinition>>) -> (r: bool)
    ensures
        r == congruent_list_shared_variable_definition(s@, t@),
    decreases s@, 1nat,
{
    if s.len() != t.len() {
        return false;
    }
    let mut all = true;
    let mut i: usize = 0;
    while i < s.len()
        invariant
            i <= s@.len(),
            s@.len() == t@.len(),
            all == congruent_list_shared_variable_definition(s@.take(i as int), t@.take(i as int)),
        decreases s.len() - i,
    {
        proof {
            assert(s@.take(i + 1).drop_last() =~= s@.take(i as int));
            assert(t@.take(i + 1).drop_last() =~= t@.take(i as int));
        }
        all = all && are_congruent_variable_definition(&(*s[i].0), &(*t[i].0));
        i = i + 1;
    }
    proof {
        assert(s@.take(i as int) =~= s@);
        assert(t@.take(i as int) =~= t@);
    }
    all
}

fn are_congruent_list_root_operation_type_definition(s: &Vec<RootOperationTypeDefinition>, t: &Vec<RootOperationTypeDefinition>) -> (r: bool)
    ensures
        r == congruent_list_root_operation_type_definition(s@, t@),
    decreases s@, 1nat,
{
    if s.len() != t.len() {
        return false;
    }
    let mut all = true;
    let mut i: usize = 0;
    while i < s.len()
        invariant
            i <= s@.len(),
            s@.len() == t@.len(),
            all == congruent_list_root_operation_type_definition(s@.take(i as int), t@.take(i as int)),
        decreases s.len() - i,
    {
        proof {
            assert(s@.take(i + 1).drop_last() =~= s@.take(i as int));
            assert(t@.take(i + 1).drop_last() =~= t@.take(i as int));
        }
        all = all && are_congruent_root_operation_type_definition(&s[i], &t[i]);
        i = i + 1;
    }
    proof {
        assert(s@.take(i as int) =~= s@);
        assert(t@.take(i as int) =~= t@);
    }
    all
}

fn are_congruent_list_shared_argument(s: &Vec<Shared<Argument>>, t: &Vec<Shared<Argument>>) -> (r: bool)
    ensures
        r == congruent_list_shared_argument(s@, t@),
    decreases s@, 1nat,
{
    if s.len() != t.len() {
        return false;
    }
    let mut all = true;
    let mut i: usize = 0;
    while i < s.len()
        invariant
            i <= s@.len(),
            s@.len() == t@.len(),
            all == congruent_list_shared_argument(s@.take(i as int), t@.take(i as int)),
        decreases s.len() - i,
    {
        proof {
            assert(s@.take(i + 1).drop_last() =~= s@.take(i as int));
            assert(t@.take(i + 1).drop_last() =~= t@.take(i as int));
        }
        all = all && are_congruent_argument(&(*s[i].0), &(*t[i].0));
        i = i + 1;
    }
    proof {
        assert(s@.take(i as int) =~= s@);
        assert(t@.take(i as int) =~= t@);
    }
    all
}

fn are_congruent_list_shared_field_definition(s: &Vec<Shared<FieldDefinition>>, t: &Vec<Shared<FieldDefinition>>) -> (r: bool)
    ensures
        r == congruent_list_shared_field_definition(s@, t@),
    decreases s@, 1nat,
{
    if s.len() != t.len() {
        return false;
    }
    let mut all = true;
    let mut i: usize = 0;
    while i < s.len()
        invariant
            i <= s@.len(),
            s@.len() == t@.len(),
            all == congruent_list_shared_field_definition(s@.take(i as int), t@.take(i as int)),
        decreases s.len() - i,
    {
        proof {
            assert(s@.take(i + 1).drop_last() =~= s@.take(i as int));
            assert(t@.take(i + 1).drop_last() =~= t@.take(i as int));
        }
        all = all && are_congruent_field_definition(&(*s[i].0), &(*t[i].0));
        i = i + 1;
    }
    proof {
        assert(s@.take(i as int) =~= s@);
        assert(t@.take(i as int) =~= t@);
    }
    all
}

fn are_congruent_list_object_field(s: &Vec<ObjectField>, t: &Vec<ObjectField>) -> (r: bool)
    ensures
        r == congruent_list_object_field(s@, t@),
    decreases s@, 1nat,
{
    if s.len() != t.len() {
        return false;
    }
    let mut all = true;
    let mut i: usize = 0;
    while i < s.len()
        invariant
            i <= s@.len(),
            s@.len() == t@.len(),
            all == congruent_list_object_field(s@.take(i as int), t@.take(i as int)),
        decreases s.len() - i,
    {
        proof {
            assert(s@.take(i + 1).drop_last() =~= s@.take(i as int));
            assert(t@.take(i + 1).drop_last() =~= t@.take(i as int));
        }
        all = all && are_congruent_object_field(&s[i], &t[i]);
        i = i + 1;
    }
    proof {
        assert(s@.take(i as int) =~= s@);
        assert(t@.take(i as int) =~= t@);
    }
    all
}

fn are_congruent_list_punctuator_recoverable_directive_location(s: &Vec<(Punctuator, Recoverable<DirectiveLocation>)>, t: &Vec<(Punctuator, Recoverable<DirectiveLocation>)>) -> (r: bool)
    ensures
        r == congruent_list_punctuator_recoverable_directive_location(s@, t@),
    decreases s@, 1nat,
{
    if s.len() != t.len() {
        return false;
    }
    let mut all = true;
    let mut i: usize = 0;
    while i < s.len()
        invariant
            i <= s@.len(),
            s@.len() == t@.len(),
            all == congruent_list_punctuator_recoverable_directive_location(s@.take(i as int), t@.take(i as int)),
        decreases s.len() - i,
    {
        proof {
            assert(s@.take(i + 1).drop_last() =~= s@.take(i as int));
            assert(t@.take(i + 1).drop_last() =~= t@.take(i as int));
        }
        all = all && (s[i].0.0.congruent(&t[i].0.0) && (match (&s[i].1, &t[i].1) { (Recoverable::Present(x), Recoverable::Present(y)) => are_congruent_directive_location(&x, &y), (Recoverable::Missing(_), Recoverable::Missing(_)) => true, _ => false }));
        i = i + 1;
    }
    proof {
        assert(s@.take(i as int) =~= s@);
        assert(t@.take(i as int) =~= t@);
    }
    all
}

fn are_congruent_list_shared_value(s: &Vec<Shared<Value>>, t: &Vec<Shared<Value>>) -> (r: bool)
    ensures
        r == congruent_list_shared_value(s@, t@),
    decreases s@, 1nat,
{
    if s.len() != t.len() {
        return false;
    }
    let mut all = true;
    let mut i: usize = 0;
    while i < s.len()
        invariant
            i <= s@.len(),
            s@.len() == t@.len(),
            all == congruent_list_shared_value(s@.take(i as int), t@.take(i as int)),
        decreases s.len() - i,
    {
        proof {
            assert(s@.take(i + 1).drop_last() =~= s@.take(i as int));
            assert(t@.take(i + 1).drop_last() =~= t@.take(i as int));
        }
        all = all && are_congruent_value(&(*s[i].0), &(*t[i].0));
        i = i + 1;
    }
    proof {
        assert(s@.take(i as int) =~= s@);
        assert(t@.take(i as int) =~= t@);
    }
    all
}

fn are_congruent_list_shared_directive(s: &Vec<Shared<Directive>>, t: &Vec<Shared<Directive>>) -> (r: bool)
    ensures
        r == congruent_list_shared_directive(s@, t@),
    decreases s@, 1nat,
{
    if s.len() != t.len() {
        return false;
    }
    let mut all = true;
    let mut i: usize = 0;
    while i < s.len()
        invariant
            i <= s@.len(),
            s@.len() == t@.len(),
            all == congruent_list_shared_directive(s@.take(i as int), t@.take(i as int)),
        decreases s.len() - i,
    {
        proof {
            assert(s@.take(i + 1).drop_last() =~= s@.take(i as int));
            assert(t@.take(i + 1).drop_last() =~= t@.take(i as int));
        }
        all = all && are_congruent_directive(&(*s[i].0), &(*t[i].0));
        i = i + 1;
    }
    proof {
        assert(s@.take(i as int) =~= s@);
        assert(t@.take(i as int) =~= t@);
    }
    all
}

fn are_congruent_list_executable_definition(s: &Vec<ExecutableDefinition>, t: &Vec<ExecutableDefinition>) -> (r: bool)
    ensures
        r == congruent_list_executable_definition(s@, t@),
    decreases s@, 1nat,
{
    if s.len() != t.len() {
        return false;
    }
    let mut all = true;
    let mut i: usize = 0;
    while i < s.len()
        invariant
            i <= s@.len(),
            s@.len() == t@.len(),
            all == congruent_list_executable_definition(s@.take(i as int), t@.take(i as int)),
        decreases s.len() - i,
    {
        proof {
            assert(s@.take(i + 1).drop_last() =~= s@.take(i as int));
            assert(t@.take(i + 1).drop_last() =~= t@.take(i as int));
        }
        all = all && are_congruent_executable_definition(&s[i], &t[i]);
        i = i + 1;
    }
    proof {
        assert(s@.take(i as int) =~= s@);
        assert(t@.take(i as int) =~= t@);
    }
    all
}

pub proof fn lemma_reflexive_document(a: Document)
    ensures
        congruent_document(a, a),
    decreases a, 0nat,
{
    lemma_reflexive_list_shared_definition(a.definitions.0@);
}

pub proof fn lemma_symmetric_document(a: Document, b: Document)
    ensures
        congruent_document(a, b) == congruent_document(b, a),
    decreases a, 0nat,
{
    lemma_symmetric_list_shared_definition(a.definitions.0@, b.definitions.0@);
}

pub proof fn lemma_transitive_document(a: Document, b: Document, c: Document)
    requires
        congruent_document(a, b) && congruent_document(b, c),
    ensures
        congruent_document(a, c),
    decreases a, 0nat,
{
    lemma_transitive_list_shared_definition(a.definitions.0@, b.definitions.0@, c.definitions.0@);
}

pub proof fn lemma_reflexive_definition(a: Definition)
    ensures
        congruent_definition(a, a),
    decreases a, 0nat,
{
    match (a) {
        (Definition::ExecutableDefinition(x)) => {
            lemma_reflexive_executable_definition(x);
        },
        (Definition::TypeSystemDefinitionOrExtension(x)) => {
            lemma_reflexive_type_system_definition_or_extension(x);
        },
    }
}

pub proof fn lemma_symmetric_definition(a: Definition, b: Definition)
    ensures
        congruent_definition(a, b) == congruent_definition(b, a),
    decreases a, 0nat,
{
    match (a, b) {
        (Definition::ExecutableDefinition(x), Definition::ExecutableDefinition(y)) => {
            lemma_symmetric_executable_definition(x, y);
        },
        (Definition::TypeSystemDefinitionOrExtension(x), Definition::TypeSystemDefinitionOrExtension(y)) => {
            lemma_symmetric_type_system_definition_or_extension(x, y);
        },
        _ => {},
    }
}

pub proof fn lemma_transitive_definition(a: Definition, b: Definition, c: Definition)
    requires
        congruent_definition(a, b) && congruent_definition(b, c),
    ensures
        congruent_definition(a, c),
    decreases a, 0nat,
{
    match (a, b, c) {
        (Definition::ExecutableDefinition(x), Definition::ExecutableDefinition(y), Definition::ExecutableDefinition(z)) => {
            lemma_transitive_executable_definition(x, y, z);
        },
        (Definition::TypeSystemDefinitionOrExtension(x), Definition::TypeSystemDefinitionOrExtension(y), Definition::TypeSystemDefinitionOrExtension(z)) => {
            lemma_transitive_type_system_definition_or_extension(x, y, z);
        },
        _ => {},
    }
}

pub proof fn lemma_reflexive_executable_document(a: ExecutableDocument)
    ensures
        congruent_executable_document(a, a),
    decreases a, 0nat,
{
    lemma_reflexive_list_executable_definition(a.definitions.0@);
}

pub proof fn lemma_symmetric_executable_document(a: ExecutableDocument, b: ExecutableDocument)
    ensures
        congruent_executable_document(a, b) == congruent_executable_document(b, a),
    decreases a, 0nat,
{
    lemma_symmetric_list_executable_definition(a.definitions.0@, b.definitions.0@);
}

pub proof fn lemma_transitive_executable_document(a: ExecutableDocument, b: ExecutableDocument, c: ExecutableDocument)
    requires
        congruent_executable_document(a, b) && congruent_executable_document(b, c),
    ensures
        congruent_executable_document(a, c),
    decreases a, 0nat,
{
    lemma_transitive_list_executable_definition(a.definitions.0@, b.definitions.0@, c.definitions.0@);
}

pub proof fn lemma_reflexive_executable_definition(a: ExecutableDefinition)
    ensures
        congruent_executable_definition(a, a),
    decreases a, 0nat,
{
    match (a) {
        (ExecutableDefinition::OperationDefinition(x)) => {
            lemma_reflexive_operation_definition(node_of(x));
        },
        (ExecutableDefinition::FragmentDefinition(x)) => {
            lemma_reflexive_fragment_definition(node_of(x));
        },
    }
}

pub proof fn lemma_symmetric_executable_definition(a: ExecutableDefinition, b: ExecutableDefinition)
    ensures
        congruent_executable_definition(a, b) == congruent_executable_definition(b, a),
    decreases a, 0nat,
{
    match (a, b) {
        (ExecutableDefinition::OperationDefinition(x), ExecutableDefinition::OperationDefinition(y)) => {
            lemma_symmetric_operation_definition(node_of(x), node_of(y));
        },
        (ExecutableDefinition::FragmentDefinition(x), ExecutableDefinition::FragmentDefinition(y)) => {
            lemma_symmetric_fragment_definition(node_of(x), node_of(y));
        },
        _ => {},
    }
}

pub proof fn lemma_transitive_executable_definition(a: ExecutableDefinition, b: ExecutableDefinition, c: ExecutableDefinition)
    requires
        congruent_executable_definition(a, b) && congruent_executable_definition(b, c),
    ensures
        congruent_executable_definition(a, c),
    decreases a, 0nat,
{
    match (a, b, c) {
        (ExecutableDefinition::OperationDefinition(x), ExecutableDefinition::OperationDefinition(y), ExecutableDefinition::OperationDefinition(z)) => {
            lemma_transitive_operation_definition(node_of(x), node_of(y), node_of(z));
        },
        (ExecutableDefinition::FragmentDefinition(x), ExecutableDefinition::FragmentDefinition(y), ExecutableDefinition::FragmentDefinition(z)) => {
            lemma_transitive_fragment_definition(node_of(x), node_of(y), node_of(z));
        },
        _ => {},
    }
}

pub proof fn lemma_reflexive_operation_definition(a: OperationDefinition)
    ensures
        congruent_operation_definition(a, a),
    decreases a, 0nat,
{
    match a.ty {
        Some(x) => {
            lemma_reflexive_operation_type(x);
        },
        _ => {},
    }
    match a.variable_definitions {
        Some(x) => {
            lemma_reflexive_variable_definitions(x);
        },
        _ => {},
    }
    match a.directives {
        Some(x) => {
            lemma_reflexive_directives(x);
        },
        _ => {},
    }
    match a.selection_set {
        Recoverable::Present(x) => {
            lemma_reflexive_selection_set(node_of(x));
        },
        _ => {},
    }
}

pub proof fn lemma_symmetric_operation_definition(a: OperationDefinition, b: OperationDefinition)
    ensures
        congruent_operation_definition(a, b) == congruent_operation_definition(b, a),
    decreases a, 0nat,
{
    match (a.ty, b.ty) {
        (Some(x), Some(y)) => {
            lemma_symmetric_operation_type(x, y);
        },
        _ => {},
    }
    match (a.variable_definitions, b.variable_definitions) {
        (Some(x), Some(y)) => {
            lemma_symmetric_variable_definitions(x, y);
        },
        _ => {},
    }
    match (a.directives, b.directives) {
        (Some(x), Some(y)) => {
            lemma_symmetric_directives(x, y);
        },
        _ => {},
    }
    match (a.selection_set, b.selection_set) {
        (Recoverable::Present(x), Recoverable::Present(y)) => {
            lemma_symmetric_selection_set(node_of(x), node_of(y));
        },
        _ => {},
    }
}

pub proof fn lemma_transitive_operation_definition(a: OperationDefinition, b: OperationDefinition, c: OperationDefinition)
    requires
        congruent_operation_definition(a, b) && congruent_operation_definition(b, c),
    ensures
        congruent_operation_definition(a, c),
    decreases a, 0nat,
{
    match (a.ty, b.ty, c.ty) {
        (Some(x), Some(y), Some(z)) => {
            lemma_transitive_operation_type(x, y, z);
        },
        _ => {},
    }
    match (a.variable_definitions, b.variable_definitions, c.variable_definitions) {
        (Some(x), Some(y), Some(z)) => {
            lemma_transitive_variable_definitions(x, y, z);
        },
        _ => {},
    }
    match (a.directives, b.directives, c.directives) {
        (Some(x), Some(y), Some(z)) => {
            lemma_transitive_directives(x, y, z);
        },
        _ => {},
    }
    match (a.selection_set, b.selection_set, c.selection_set) {
        (Recoverable::Present(x), Recoverable::Present(y), Recoverable::Present(z)) => {
            lemma_transitive_selection_set(node_of(x), node_of(y), node_of(z));
        },
        _ => {},
    }
}

pub proof fn lemma_reflexive_operation_type(a: OperationType)
    ensures
        congruent_operation_type(a, a),
    decreases a, 0nat,
{
    match (a) {
        (OperationType::Query(x)) => {
        },
        (OperationType::Mutation(x)) => {
        },
        (OperationType::Subscription(x)) => {
        },
    }
}

pub proof fn lemma_symmetric_operation_type(a: OperationType, b: OperationType)
    ensures
        congruent_operation_type(a, b) == congruent_operation_type(b, a),
    decreases a, 0nat,
{
    match (a, b) {
        (OperationType::Query(x), OperationType::Query(y)) => {
        },
        (OperationType::Mutation(x), OperationType::Mutation(y)) => {
        },
        (OperationType::Subscription(x), OperationType::Subscription(y)) => {
        },
        _ => {},
    }
}

pub proof fn lemma_transitive_operation_type(a: OperationType, b: OperationType, c: OperationType)
    requires
        congruent_operation_type(a, b) && congruent_operation_type(b, c),
    ensures
        congruent_operation_type(a, c),
    decreases a, 0nat,
{
    match (a, b, c) {
        (OperationType::Query(x), OperationType::Query(y), OperationType::Query(z)) => {
        },
        (OperationType::Mutation(x), OperationType::Mutation(y), OperationType::Mutation(z)) => {
        },
        (OperationType::Subscription(x), OperationType::Subscription(y), OperationType::Subscription(z)) => {
        },
        _ => {},
    }
}

pub proof fn lemma_reflexive_selection_set(a: SelectionSet)
    ensures
        congruent_selection_set(a, a),
    decreases a, 0nat,
{
    lemma_reflexive_list_selection(a.selections.0@);
}

pub proof fn lemma_symmetric_selection_set(a: SelectionSet, b: SelectionSet)
    ensures
        congruent_selection_set(a, b) == congruent_selection_set(b, a),
    decreases a, 0nat,
{
    lemma_symmetric_list_selection(a.selections.0@, b.selections.0@);
}

pub proof fn lemma_transitive_selection_set(a: SelectionSet, b: SelectionSet, c: SelectionSet)
    requires
        congruent_selection_set(a, b) && congruent_selection_set(b, c),
    ensures
        congruent_selection_set(a, c),
    decreases a, 0nat,
{
    lemma_transitive_list_selection(a.selections.0@, b.selections.0@, c.selections.0@);
}

pub proof fn lemma_reflexive_selection(a: Selection)
    ensures
        congruent_selection(a, a),
    decreases a, 0nat,
{
    match (a) {
        (Selection::Field(x)) => {
            lemma_reflexive_field(node_of(x));
        },
        (Selection::FragmentSpread(x)) => {
            lemma_reflexive_fragment_spread(node_of(x));
        },
        (Selection::InlineFragment(x)) => {
            lemma_reflexive_inline_fragment(x);
        },
    }
}

pub proof fn lemma_symmetric_selection(a: Selection, b: Selection)
    ensures
        congruent_selection(a, b) == congruent_selection(b, a),
    decreases a, 0nat,
{
    match (a, b) {
        (Selection::Field(x), Selection::Field(y)) => {
            lemma_symmetric_field(node_of(x), node_of(y));
        },
        (Selection::FragmentSpread(x), Selection::FragmentSpread(y)) => {
            lemma_symmetric_fragment_spread(node_of(x), node_of(y));
        },
        (Selection::InlineFragment(x), Selection::InlineFragment(y)) => {
            lemma_symmetric_inline_fragment(x, y);
        },
        _ => {},
    }
}

pub proof fn lemma_transitive_selection(a: Selection, b: Selection, c: Selection)
    requires
        congruent_selection(a, b) && congruent_selection(b, c),
    ensures
        congruent_selection(a, c),
    decreases a, 0nat,
{
    match (a, b, c) {
        (Selection::Field(x), Selection::Field(y), Selection::Field(z)) => {
            lemma_transitive_field(node_of(x), node_of(y), node_of(z));
        },
        (Selection::FragmentSpread(x), Selection::FragmentSpread(y), Selection::FragmentSpread(z)) => {
            lemma_transitive_fragment_spread(node_of(x), node_of(y), node_of(z));
        },
        (Selection::InlineFragment(x), Selection::InlineFragment(y), Selection::InlineFragment(z)) => {
            lemma_transitive_inline_fragment(x, y, z);
        },
        _ => {},
    }
}

pub proof fn lemma_reflexive_field(a: Field)
    ensures
        congruent_field(a, a),
    decreases a, 0nat,
{
    match a.alias {
        Some(x) => {
            lemma_reflexive_alias(x);
        },
        _ => {},
    }
    match a.arguments {
        Some(x) => {
            lemma_reflexive_arguments(node_of(x));
        },
        _ => {},
    }
    match a.directives {
        Some(x) => {
            lemma_reflexive_directives(x);
        },
        _ => {},
    }
    match a.selection_set {
        Some(x) => {
            lemma_reflexive_selection_set(node_of(x));
        },
        _ => {},
    }
}

pub proof fn lemma_symmetric_field(a: Field, b: Field)
    ensures
        congruent_field(a, b) == congruent_field(b, a),
    decreases a, 0nat,
{
    match (a.alias, b.alias) {
        (Some(x), Some(y)) => {
            lemma_symmetric_alias(x, y);
        },
        _ => {},
    }
    match (a.arguments, b.arguments) {
        (Some(x), Some(y)) => {
            lemma_symmetric_arguments(node_of(x), node_of(y));
        },
        _ => {},
    }
    match (a.directives, b.directives) {
        (Some(x), Some(y)) => {
            lemma_symmetric_directives(x, y);
        },
        _ => {},
    }
    match (a.selection_set, b.selection_set) {
        (Some(x), Some(y)) => {
            lemma_symmetric_selection_set(node_of(x), node_of(y));
        },
        _ => {},
    }
}

pub proof fn lemma_transitive_field(a: Field, b: Field, c: Field)
    requires
        congruent_field(a, b) && congruent_field(b, c),
    ensures
        congruent_field(a, c),
    decreases a, 0nat,
{
    match (a.alias, b.alias, c.alias) {
        (Some(x), Some(y), Some(z)) => {
            lemma_transitive_alias(x, y, z);
        },
        _ => {},
    }
    match (a.arguments, b.arguments, c.arguments) {
        (Some(x), Some(y), Some(z)) => {
            lemma_transitive_arguments(node_of(x), node_of(y), node_of(z));
        },
        _ => {},
    }
    match (a.directives, b.directives, c.directives) {
        (Some(x), Some(y), Some(z)) => {
            lemma_transitive_directives(x, y, z);
        },
        _ => {},
    }
    match (a.selection_set, b.selection_set, c.selection_set) {
        (Some(x), Some(y), Some(z)) => {
            lemma_transitive_selection_set(node_of(x), node_of(y), node_of(z));
        },
        _ => {},
    }
}

pub proof fn lemma_reflexive_alias(a: Alias)
    ensures
        congruent_alias(a, a),
    decreases a, 0nat,
{

}

pub proof fn lemma_symmetric_alias(a: Alias, b: Alias)
    ensures
        congruent_alias(a, b) == congruent_alias(b, a),
    decreases a, 0nat,
{

}

pub proof fn lemma_transitive_alias(a: Alias, b: Alias, c: Alias)
    requires
        congruent_alias(a, b) && congruent_alias(b, c),
    ensures
        congruent_alias(a, c),
    decreases a, 0nat,
{

}

pub proof fn lemma_reflexive_arguments(a: Arguments)
    ensures
        congruent_arguments(a, a),
    decreases a, 0nat,
{
    lemma_reflexive_list_shared_argument(a.items.0@);
}

pub proof fn lemma_symmetric_arguments(a: Arguments, b: Arguments)
    ensures
        congruent_arguments(a, b) == congruent_arguments(b, a),
    decreases a, 0nat,
{
    lemma_symmetric_list_shared_argument(a.items.0@, b.items.0@);
}

pub proof fn lemma_transitive_arguments(a: Arguments, b: Arguments, c: Arguments)
    requires
        congruent_arguments(a, b) && congruent_arguments(b, c),
    ensures
        congruent_arguments(a, c),
    decreases a, 0nat,
{
    lemma_transitive_list_shared_argument(a.items.0@, b.items.0@, c.items.0@);
}

pub proof fn lemma_reflexive_argument(a: Argument)
    ensures
        congruent_argument(a, a),
    decreases a, 0nat,
{
    match a.value {
        Recoverable::Present(x) => {
            lemma_reflexive_value(node_of(x));
        },
        _ => {},
    }
}

pub proof fn lemma_symmetric_argument(a: Argument, b: Argument)
    ensures
        congruent_argument(a, b) == congruent_argument(b, a),
    decreases a, 0nat,
{
    match (a.value, b.value) {
        (Recoverable::Present(x), Recoverable::Present(y)) => {
            lemma_symmetric_value(node_of(x), node_of(y));
        },
        _ => {},
    }
}

pub proof fn lemma_transitive_argument(a: Argument, b: Argument, c: Argument)
    requires
        congruent_argument(a, b) && congruent_argument(b, c),
    ensures
        congruent_argument(a, c),
    decreases a, 0nat,
{
    match (a.value, b.value, c.value) {
        (Recoverable::Present(x), Recoverable::Present(y), Recoverable::Present(z)) => {
            lemma_transitive_value(node_of(x), node_of(y), node_of(z));
        },
        _ => {},
    }
}

pub proof fn lemma_reflexive_fragment_spread(a: FragmentSpread)
    ensures
        congruent_fragment_spread(a, a),
    decreases a, 0nat,
{
    match a.directives {
        Some(x) => {
            lemma_reflexive_directives(x);
        },
        _ => {},
    }
}

pub proof fn lemma_symmetric_fragment_spread(a: FragmentSpread, b: FragmentSpread)
    ensures
        congruent_fragment_spread(a, b) == congruent_fragment_spread(b, a),
    decreases a, 0nat,
{
    match (a.directives, b.directives) {
        (Some(x), Some(y)) => {
            lemma_symmetric_directives(x, y);
        },
        _ => {},
    }
}

pub proof fn lemma_transitive_fragment_spread(a: FragmentSpread, b: FragmentSpread, c: FragmentSpread)
    requires
        congruent_fragment_spread(a, b) && congruent_fragment_spread(b, c),
    ensures
        congruent_fragment_spread(a, c),
    decreases a, 0nat,
{
    match (a.directives, b.directives, c.directives) {
        (Some(x), Some(y), Some(z)) => {
            lemma_transitive_directives(x, y, z);
        },
        _ => {},
    }
}

pub proof fn lemma_reflexive_inline_fragment(a: InlineFragment)
    ensures
        congruent_inline_fragment(a, a),
    decreases a, 0nat,
{
    match a.type_condition {
        Some(x) => {
            lemma_reflexive_type_condition(x);
        },
        _ => {},
    }
    match a.directives {
        Some(x) => {
            lemma_reflexive_directives(x);
        },
        _ => {},
    }
    match a.selection_set {
        Recoverable::Present(x) => {
            lemma_reflexive_selection_set(node_of(x));
        },
        _ => {},
    }
}

pub proof fn lemma_symmetric_inline_fragment(a: InlineFragment, b: InlineFragment)
    ensures
        congruent_inline_fragment(a, b) == congruent_inline_fragment(b, a),
    decreases a, 0nat,
{
    match (a.type_condition, b.type_condition) {
        (Some(x), Some(y)) => {
            lemma_symmetric_type_condition(x, y);
        },
        _ => {},
    }
    match (a.directives, b.directives) {
        (Some(x), Some(y)) => {
            lemma_symmetric_directives(x, y);
        },
        _ => {},
    }
    match (a.selection_set, b.selection_set) {
        (Recoverable::Present(x), Recoverable::Present(y)) => {
            lemma_symmetric_selection_set(node_of(x), node_of(y));
        },
        _ => {},
    }
}

pub proof fn lemma_transitive_inline_fragment(a: InlineFragment, b: InlineFragment, c: InlineFragment)
    requires
        congruent_inline_fragment(a, b) && congruent_inline_fragment(b, c),
    ensures
        congruent_inline_fragment(a, c),
    decreases a, 0nat,
{
    match (a.type_condition, b.type_condition, c.type_condition) {
        (Some(x), Some(y), Some(z)) => {
            lemma_transitive_type_condition(x, y, z);
        },
        _ => {},
    }
    match (a.directives, b.directives, c.directives) {
        (Some(x), Some(y), Some(z)) => {
            lemma_transitive_directives(x, y, z);
        },
        _ => {},
    }
    match (a.selection_set, b.selection_set, c.selection_set) {
        (Recoverable::Present(x), Recoverable::Present(y), Recoverable::Present(z)) => {
            lemma_transitive_selection_set(node_of(x), node_of(y), node_of(z));
        },
        _ => {},
    }
}

pub proof fn lemma_reflexive_fragment_definition(a: FragmentDefinition)
    ensures
        congruent_fragment_definition(a, a),
    decreases a, 0nat,
{
    match a.type_condition {
        Recoverable::Present(x) => {
            lemma_reflexive_type_condition(x);
        },
        _ => {},
    }
    match a.directives {
        Some(x) => {
            lemma_reflexive_directives(x);
        },
        _ => {},
    }
    match a.selection_set {
        Recoverable::Present(x) => {
            lemma_reflexive_selection_set(node_of(x));
        },
        _ => {},
    }
}

pub proof fn lemma_symmetric_fragment_definition(a: FragmentDefinition, b: FragmentDefinition)
    ensures
        congruent_fragment_definition(a, b) == congruent_fragment_definition(b, a),
    decreases a, 0nat,
{
    match (a.type_condition, b.type_condition) {
        (Recoverable::Present(x), Recoverable::Present(y)) => {
            lemma_symmetric_type_condition(x, y);
        },
        _ => {},
    }
    match (a.directives, b.directives) {
        (Some(x), Some(y)) => {
            lemma_symmetric_directives(x, y);
        },
        _ => {},
    }
    match (a.selection_set, b.selection_set) {
        (Recoverable::Present(x), Recoverable::Present(y)) => {
            lemma_symmetric_selection_set(node_of(x), node_of(y));
        },
        _ => {},
    }
}

pub proof fn lemma_transitive_fragment_definition(a: FragmentDefinition, b: FragmentDefinition, c: FragmentDefinition)
    requires
        congruent_fragment_definition(a, b) && congruent_fragment_definition(b, c),
    ensures
        congruent_fragment_definition(a, c),
    decreases a, 0nat,
{
    match (a.type_condition, b.type_condition, c.type_condition) {
        (Recoverable::Present(x), Recoverable::Present(y), Recoverable::Present(z)) => {
            lemma_transitive_type_condition(x, y, z);
        },
        _ => {},
    }
    match (a.directives, b.directives, c.directives) {
        (Some(x), Some(y), Some(z)) => {
            lemma_transitive_directives(x, y, z);
        },
        _ => {},
    }
    match (a.selection_set, b.selection_set, c.selection_set) {
        (Recoverable::Present(x), Recoverable::Present(y), Recoverable::Present(z)) => {
            lemma_transitive_selection_set(node_of(x), node_of(y), node_of(z));
        },
        _ => {},
    }
}

pub proof fn lemma_reflexive_type_condition(a: TypeCondition)
    ensures
        congruent_type_condition(a, a),
    decreases a, 0nat,
{
    match a.named_type {
        Recoverable::Present(x) => {
            lemma_reflexive_named_type(x);
        },
        _ => {},
    }
}

pub proof fn lemma_symmetric_type_condition(a: TypeCondition, b: TypeCondition)
    ensures
        congruent_type_condition(a, b) == congruent_type_condition(b, a),
    decreases a, 0nat,
{
    match (a.named_type, b.named_type) {
        (Recoverable::Present(x), Recoverable::Present(y)) => {
            lemma_symmetric_named_type(x, y);
        },
        _ => {},
    }
}

pub proof fn lemma_transitive_type_condition(a: TypeCondition, b: TypeCondition, c: TypeCondition)
    requires
        congruent_type_condition(a, b) && congruent_type_condition(b, c),
    ensures
        congruent_type_condition(a, c),
    decreases a, 0nat,
{
    match (a.named_type, b.named_type, c.named_type) {
        (Recoverable::Present(x), Recoverable::Present(y), Recoverable::Present(z)) => {
            lemma_transitive_named_type(x, y, z);
        },
        _ => {},
    }
}

pub proof fn lemma_reflexive_value(a: Value)
    ensures
        congruent_value(a, a),
    decreases a, 0nat,
{
    match (a) {
        (Value::Variable(x)) => {
            lemma_reflexive_variable(x);
        },
        (Value::IntValue(x)) => {
        },
        (Value::FloatValue(x)) => {
        },
        (Value::StringValue(x)) => {
        },
        (Value::BooleanValue(x)) => {
            lemma_reflexive_boolean_value(x);
        },
        (Value::NullValue(x)) => {
            lemma_reflexive_null_value(x);
        },
        (Value::EnumValue(x)) => {
            lemma_reflexive_enum_value(x);
        },
        (Value::ListValue(x)) => {
            lemma_reflexive_list_value(x);
        },
        (Value::ObjectValue(x)) => {
            lemma_reflexive_object_value(x);
        },
    }
}

pub proof fn lemma_symmetric_value(a: Value, b: Value)
    ensures
        congruent_value(a, b) == congruent_value(b, a),
    decreases a, 0nat,
{
    match (a, b) {
        (Value::Variable(x), Value::Variable(y)) => {
            lemma_symmetric_variable(x, y);
        },
        (Value::IntValue(x), Value::IntValue(y)) => {
        },
        (Value::FloatValue(x), Value::FloatValue(y)) => {
        },
        (Value::StringValue(x), Value::StringValue(y)) => {
        },
        (Value::BooleanValue(x), Value::BooleanValue(y)) => {
            lemma_symmetric_boolean_value(x, y);
        },
        (Value::NullValue(x), Value::NullValue(y)) => {
            lemma_symmetric_null_value(x, y);
        },
        (Value::EnumValue(x), Value::EnumValue(y)) => {
            lemma_symmetric_enum_value(x, y);
        },
        (Value::ListValue(x), Value::ListValue(y)) => {
            lemma_symmetric_list_value(x, y);
        },
        (Value::ObjectValue(x), Value::ObjectValue(y)) => {
            lemma_symmetric_object_value(x, y);
        },
        _ => {},
    }
}

pub proof fn lemma_transitive_value(a: Value, b: Value, c: Value)
    requires
        congruent_value(a, b) && congruent_value(b, c),
    ensures
        congruent_value(a, c),
    decreases a, 0nat,
{
    match (a, b, c) {
        (Value::Variable(x), Value::Variable(y), Value::Variable(z)) => {
            lemma_transitive_variable(x, y, z);
        },
        (Value::IntValue(x), Value::IntValue(y), Value::IntValue(z)) => {
        },
        (Value::FloatValue(x), Value::FloatValue(y), Value::FloatValue(z)) => {
        },
        (Value::StringValue(x), Value::StringValue(y), Value::StringValue(z)) => {
        },
        (Value::BooleanValue(x), Value::BooleanValue(y), Value::BooleanValue(z)) => {
            lemma_transitive_boolean_value(x, y, z);
        },
        (Value::NullValue(x), Value::NullValue(y), Value::NullValue(z)) => {
            lemma_transitive_null_value(x, y, z);
        },
        (Value::EnumValue(x), Value::EnumValue(y), Value::EnumValue(z)) => {
            lemma_transitive_enum_value(x, y, z);
        },
        (Value::ListValue(x), Value::ListValue(y), Value::ListValue(z)) => {
            lemma_transitive_list_value(x, y, z);
        },
        (Value::ObjectValue(x), Value::ObjectValue(y), Value::ObjectValue(z)) => {
            lemma_transitive_object_value(x, y, z);
        },
        _ => {},
    }
}

pub proof fn lemma_reflexive_boolean_value(a: BooleanValue)
    ensures
        congruent_boolean_value(a, a),
    decreases a, 0nat,
{
    match (a) {
        (BooleanValue::True(x)) => {
        },
        (BooleanValue::False(x)) => {
        },
    }
}

pub proof fn lemma_symmetric_boolean_value(a: BooleanValue, b: BooleanValue)
    ensures
        congruent_boolean_value(a, b) == congruent_boolean_value(b, a),
    decreases a, 0nat,
{
    match (a, b) {
        (BooleanValue::True(x), BooleanValue::True(y)) => {
        },
        (BooleanValue::False(x), BooleanValue::False(y)) => {
        },
        _ => {},
    }
}

pub proof fn lemma_transitive_boolean_value(a: BooleanValue, b: BooleanValue, c: BooleanValue)
    requires
        congruent_boolean_value(a, b) && congruent_boolean_value(b, c),
    ensures
        congruent_boolean_value(a, c),
    decreases a, 0nat,
{
    match (a, b, c) {
        (BooleanValue::True(x), BooleanValue::True(y), BooleanValue::True(z)) => {
        },
        (BooleanValue::False(x), BooleanValue::False(y), BooleanValue::False(z)) => {
        },
        _ => {},
    }
}

pub proof fn lemma_reflexive_null_value(a: NullValue)
    ensures
        congruent_null_value(a, a),
    decreases a, 0nat,
{

}

pub proof fn lemma_symmetric_null_value(a: NullValue, b: NullValue)
    ensures
        congruent_null_value(a, b) == congruent_null_value(b, a),
    decreases a, 0nat,
{

}

pub proof fn lemma_transitive_null_value(a: NullValue, b: NullValue, c: NullValue)
    requires
        congruent_null_value(a, b) && congruent_null_value(b, c),
    ensures
        congruent_null_value(a, c),
    decreases a, 0nat,
{

}

pub proof fn lemma_reflexive_enum_value(a: EnumValue)
    ensures
        congruent_enum_value(a, a),
    decreases a, 0nat,
{

}

pub proof fn lemma_symmetric_enum_value(a: EnumValue, b: EnumValue)
    ensures
        congruent_enum_value(a, b) == congruent_enum_value(b, a),
    decreases a, 0nat,
{

}

pub proof fn lemma_transitive_enum_value(a: EnumValue, b: EnumValue, c: EnumValue)
    requires
        congruent_enum_value(a, b) && congruent_enum_value(b, c),
    ensures
        congruent_enum_value(a, c),
    decreases a, 0nat,
{

}

pub proof fn lemma_reflexive_list_value(a: ListValue)
    ensures
        congruent_list_value(a, a),
    decreases a, 0nat,
{
    lemma_reflexive_list_shared_value(a.values.0@);
}

pub proof fn lemma_symmetric_list_value(a: ListValue, b: ListValue)
    ensures
        congruent_list_value(a, b) == congruent_list_value(b, a),
    decreases a, 0nat,
{
    lemma_symmetric_list_shared_value(a.values.0@, b.values.0@);
}

pub proof fn lemma_transitive_list_value(a: ListValue, b: ListValue, c: ListValue)
    requires
        congruent_list_value(a, b) && congruent_list_value(b, c),
    ensures
        congruent_list_value(a, c),
    decreases a, 0nat,
{
    lemma_transitive_list_shared_value(a.values.0@, b.values.0@, c.values.0@);
}

pub proof fn lemma_reflexive_object_value(a: ObjectValue)
    ensures
        congruent_object_value(a, a),
    decreases a, 0nat,
{
    lemma_reflexive_list_object_field(a.object_fields.0@);
}

pub proof fn lemma_symmetric_object_value(a: ObjectValue, b: ObjectValue)
    ensures
        congruent_object_value(a, b) == congruent_object_value(b, a),
    decreases a, 0nat,
{
    lemma_symmetric_list_object_field(a.object_fields.0@, b.object_fields.0@);
}

pub proof fn lemma_transitive_object_value(a: ObjectValue, b: ObjectValue, c: ObjectValue)
    requires
        congruent_object_value(a, b) && congruent_object_value(b, c),
    ensures
        congruent_object_value(a, c),
    decreases a, 0nat,
{
    lemma_transitive_list_object_field(a.object_fields.0@, b.object_fields.0@, c.object_fields.0@);
}

pub proof fn lemma_reflexive_object_field(a: ObjectField)
    ensures
        congruent_object_field(a, a),
    decreases a, 0nat,
{
    match a.value {
        Recoverable::Present(x) => {
            lemma_reflexive_value(node_of(x));
        },
        _ => {},
    }
}

pub proof fn lemma_symmetric_object_field(a: ObjectField, b: ObjectField)
    ensures
        congruent_object_field(a, b) == congruent_object_field(b, a),
    decreases a, 0nat,
{
    match (a.value, b.value) {
        (Recoverable::Present(x), Recoverable::Present(y)) => {
            lemma_symmetric_value(node_of(x), node_of(y));
        },
        _ => {},
    }
}

pub proof fn lemma_transitive_object_field(a: ObjectField, b: ObjectField, c: ObjectField)
    requires
        congruent_object_field(a, b) && congruent_object_field(b, c),
    ensures
        congruent_object_field(a, c),
    decreases a, 0nat,
{
    match (a.value, b.value, c.value) {
        (Recoverable::Present(x), Recoverable::Present(y), Recoverable::Present(z)) => {
            lemma_transitive_value(node_of(x), node_of(y), node_of(z));
        },
        _ => {},
    }
}

pub proof fn lemma_reflexive_variable_definitions(a: VariableDefinitions)
    ensures
        congruent_variable_definitions(a, a),
    decreases a, 0nat,
{
    lemma_reflexive_list_shared_variable_definition(a.variable_definitions.0@);
}

pub proof fn lemma_symmetric_variable_definitions(a: VariableDefinitions, b: VariableDefinitions)
    ensures
        congruent_variable_definitions(a, b) == congruent_variable_definitions(b, a),
    decreases a, 0nat,
{
    lemma_symmetric_list_shared_variable_definition(a.variable_definitions.0@, b.variable_definitions.0@);
}

pub proof fn lemma_transitive_variable_definitions(a: VariableDefinitions, b: VariableDefinitions, c: VariableDefinitions)
    requires
        congruent_variable_definitions(a, b) && congruent_variable_definitions(b, c),
    ensures
        congruent_variable_definitions(a, c),
    decreases a, 0nat,
{
    lemma_transitive_list_shared_variable_definition(a.variable_definitions.0@, b.variable_definitions.0@, c.variable_definitions.0@);
}

pub proof fn lemma_reflexive_variable_definition(a: VariableDefinition)
    ensures
        congruent_variable_definition(a, a),
    decreases a, 0nat,
{
    lemma_reflexive_variable(a.variable);
    match a.ty {
        Recoverable::Present(x) => {
            lemma_reflexive_type(node_of(x));
        },
        _ => {},
    }
    match a.default_value {
        Some(x) => {
            lemma_reflexive_default_value(x);
        },
        _ => {},
    }
    match a.directives {
        Some(x) => {
            lemma_reflexive_directives(x);
        },
        _ => {},
    }
}

pub proof fn lemma_symmetric_variable_definition(a: VariableDefinition, b: VariableDefinition)
    ensures
        congruent_variable_definition(a, b) == congruent_variable_definition(b, a),
    decreases a, 0nat,
{
    lemma_symmetric_variable(a.variable, b.variable);
    match (a.ty, b.ty) {
        (Recoverable::Present(x), Recoverable::Present(y)) => {
            lemma_symmetric_type(node_of(x), node_of(y));
        },
        _ => {},
    }
    match (a.default_value, b.default_value) {
        (Some(x), Some(y)) => {
            lemma_symmetric_default_value(x, y);
        },
        _ => {},
    }
    match (a.directives, b.directives) {
        (Some(x), Some(y)) => {
            lemma_symmetric_directives(x, y);
        },
        _ => {},
    }
}

pub proof fn lemma_transitive_variable_definition(a: VariableDefinition, b: VariableDefinition, c: VariableDefinition)
    requires
        congruent_variable_definition(a, b) && congruent_variable_definition(b, c),
    ensures
        congruent_variable_definition(a, c),
    decreases a, 0nat,
{
    lemma_transitive_variable(a.variable, b.variable, c.variable);
    match (a.ty, b.ty, c.ty) {
        (Recoverable::Present(x), Recoverable::Present(y), Recoverable::Present(z)) => {
            lemma_transitive_type(node_of(x), node_of(y), node_of(z));
        },
        _ => {},
    }
    match (a.default_value, b.default_value, c.default_value) {
        (Some(x), Some(y), Some(z)) => {
            lemma_transitive_default_value(x, y, z);
        },
        _ => {},
    }
    match (a.directives, b.directives, c.directives) {
        (Some(x), Some(y), Some(z)) => {
            lemma_transitive_directives(x, y, z);
        },
        _ => {},
    }
}

pub proof fn lemma_reflexive_variable(a: Variable)
    ensures
        congruent_variable(a, a),
    decreases a, 0nat,
{

}

pub proof fn lemma_symmetric_variable(a: Variable, b: Variable)
    ensures
        congruent_variable(a, b) == congruent_variable(b, a),
    decreases a, 0nat,
{

}

pub proof fn lemma_transitive_variable(a: Variable, b: Variable, c: Variable)
    requires
        congruent_variable(a, b) && congruent_variable(b, c),
    ensures
        congruent_variable(a, c),
    decreases a, 0nat,
{

}

pub proof fn lemma_reflexive_default_value(a: DefaultValue)
    ensures
        congruent_default_value(a, a),
    decreases a, 0nat,
{
    match a.value {
        Recoverable::Present(x) => {
            lemma_reflexive_value(node_of(x));
        },
        _ => {},
    }
}

pub proof fn lemma_symmetric_default_value(a: DefaultValue, b: DefaultValue)
    ensures
        congruent_default_value(a, b) == congruent_default_value(b, a),
    decreases a, 0nat,
{
    match (a.value, b.value) {
        (Recoverable::Present(x), Recoverable::Present(y)) => {
            lemma_symmetric_value(node_of(x), node_of(y));
        },
        _ => {},
    }
}

pub proof fn lemma_transitive_default_value(a: DefaultValue, b: DefaultValue, c: DefaultValue)
    requires
        congruent_default_value(a, b) && congruent_default_value(b, c),
    ensures
        congruent_default_value(a, c),
    decreases a, 0nat,
{
    match (a.value, b.value, c.value) {
        (Recoverable::Present(x), Recoverable::Present(y), Recoverable::Present(z)) => {
            lemma_transitive_value(node_of(x), node_of(y), node_of(z));
        },
        _ => {},
    }
}

pub proof fn lemma_reflexive_type(a: Type)
    ensures
        congruent_type(a, a),
    decreases a, 0nat,
{
    match (a) {
        (Type::Named(x)) => {
            lemma_reflexive_named_type(x);
        },
        (Type::List(x)) => {
            lemma_reflexive_list_type(x);
        },
        (Type::NonNull(x)) => {
            lemma_reflexive_non_null_type(x);
        },
    }
}

pub proof fn lemma_symmetric_type(a: Type, b: Type)
    ensures
        congruent_type(a, b) == congruent_type(b, a),
    decreases a, 0nat,
{
    match (a, b) {
        (Type::Named(x), Type::Named(y)) => {
            lemma_symmetric_named_type(x, y);
        },
        (Type::List(x), Type::List(y)) => {
            lemma_symmetric_list_type(x, y);
        },
        (Type::NonNull(x), Type::NonNull(y)) => {
            lemma_symmetric_non_null_type(x, y);
        },
        _ => {},
    }
}

pub proof fn lemma_transitive_type(a: Type, b: Type, c: Type)
    requires
        congruent_type(a, b) && congruent_type(b, c),
    ensures
        congruent_type(a, c),
    decreases a, 0nat,
{
    match (a, b, c) {
        (Type::Named(x), Type::Named(y), Type::Named(z)) => {
            lemma_transitive_named_type(x, y, z);
        },
        (Type::List(x), Type::List(y), Type::List(z)) => {
            lemma_transitive_list_type(x, y, z);
        },
        (Type::NonNull(x), Type::NonNull(y), Type::NonNull(z)) => {
            lemma_transitive_non_null_type(x, y, z);
        },
        _ => {},
    }
}

pub proof fn lemma_reflexive_named_type(a: NamedType)
    ensures
        congruent_named_type(a, a),
    decreases a, 0nat,
{

}

pub proof fn lemma_symmetric_named_type(a: NamedType, b: NamedType)
    ensures
        congruent_named_type(a, b) == congruent_named_type(b, a),
    decreases a, 0nat,
{

}

pub proof fn lemma_transitive_named_type(a: NamedType, b: NamedType, c: NamedType)
    requires
        congruent_named_type(a, b) && congruent_named_type(b, c),
    ensures
        congruent_named_type(a, c),
    decreases a, 0nat,
{

}

pub proof fn lemma_reflexive_list_type(a: ListType)
    ensures
        congruent_list_type(a, a),
    decreases a, 0nat,
{
    match a.ty {
        Recoverable::Present(x) => {
            lemma_reflexive_type(node_of(x));
        },
        _ => {},
    }
}

pub proof fn lemma_symmetric_list_type(a: ListType, b: ListType)
    ensures
        congruent_list_type(a, b) == congruent_list_type(b, a),
    decreases a, 0nat,
{
    match (a.ty, b.ty) {
        (Recoverable::Present(x), Recoverable::Present(y)) => {
            lemma_symmetric_type(node_of(x), node_of(y));
        },
        _ => {},
    }
}

pub proof fn lemma_transitive_list_type(a: ListType, b: ListType, c: ListType)
    requires
        congruent_list_type(a, b) && congruent_list_type(b, c),
    ensures
        congruent_list_type(a, c),
    decreases a, 0nat,
{
    match (a.ty, b.ty, c.ty) {
        (Recoverable::Present(x), Recoverable::Present(y), Recoverable::Present(z)) => {
            lemma_transitive_type(node_of(x), node_of(y), node_of(z));
        },
        _ => {},
    }
}

pub proof fn lemma_reflexive_non_null_type(a: NonNullType)
    ensures
        congruent_non_null_type(a, a),
    decreases a, 0nat,
{
    lemma_reflexive_type(node_of(a.ty));
}

pub proof fn lemma_symmetric_non_null_type(a: NonNullType, b: NonNullType)
    ensures
        congruent_non_null_type(a, b) == congruent_non_null_type(b, a),
    decreases a, 0nat,
{
    lemma_symmetric_type(node_of(a.ty), node_of(b.ty));
}

pub proof fn lemma_transitive_non_null_type(a: NonNullType, b: NonNullType, c: NonNullType)
    requires
        congruent_non_null_type(a, b) && congruent_non_null_type(b, c),
    ensures
        congruent_non_null_type(a, c),
    decreases a, 0nat,
{
    lemma_transitive_type(node_of(a.ty), node_of(b.ty), node_of(c.ty));
}

pub proof fn lemma_reflexive_directives(a: Directives)
    ensures
        congruent_directives(a, a),
    decreases a, 0nat,
{
    lemma_reflexive_list_shared_directive(a.directives.0@);
}

pub proof fn lemma_symmetric_directives(a: Directives, b: Directives)
    ensures
        congruent_directives(a, b) == congruent_directives(b, a),
    decreases a, 0nat,
{
    lemma_symmetric_list_shared_directive(a.directives.0@, b.directives.0@);
}

pub proof fn lemma_transitive_directives(a: Directives, b: Directives, c: Directives)
    requires
        congruent_directives(a, b) && congruent_directives(b, c),
    ensures
        congruent_directives(a, c),
    decreases a, 0nat,
{
    lemma_transitive_list_shared_directive(a.directives.0@, b.directives.0@, c.directives.0@);
}

pub proof fn lemma_reflexive_directive(a: Directive)
    ensures
        congruent_directive(a, a),
    decreases a, 0nat,
{
    match a.arguments {
        Some(x) => {
            lemma_reflexive_arguments(node_of(x));
        },
        _ => {},
    }
}

pub proof fn lemma_symmetric_directive(a: Directive, b: Directive)
    ensures
        congruent_directive(a, b) == congruent_directive(b, a),
    decreases a, 0nat,
{
    match (a.arguments, b.arguments) {
        (Some(x), Some(y)) => {
            lemma_symmetric_arguments(node_of(x), node_of(y));
        },
        _ => {},
    }
}

pub proof fn lemma_transitive_directive(a: Directive, b: Directive, c: Directive)
    requires
        congruent_directive(a, b) && congruent_directive(b, c),
    ensures
        congruent_directive(a, c),
    decreases a, 0nat,
{
    match (a.arguments, b.arguments, c.arguments) {
        (Some(x), Some(y), Some(z)) => {
            lemma_transitive_arguments(node_of(x), node_of(y), node_of(z));
        },
        _ => {},
    }
}

pub proof fn lemma_reflexive_type_system_document(a: TypeSystemDocument)
    ensures
        congruent_type_system_document(a, a),
    decreases a, 0nat,
{
    lemma_reflexive_list_type_system_definition(a.definitions.0@);
}

pub proof fn lemma_symmetric_type_system_document(a: TypeSystemDocument, b: TypeSystemDocument)
    ensures
        congruent_type_system_document(a, b) == congruent_type_system_document(b, a),
    decreases a, 0nat,
{
    lemma_symmetric_list_type_system_definition(a.definitions.0@, b.definitions.0@);
}

pub proof fn lemma_transitive_type_system_document(a: TypeSystemDocument, b: TypeSystemDocument, c: TypeSystemDocument)
    requires
        congruent_type_system_document(a, b) && congruent_type_system_document(b, c),
    ensures
        congruent_type_system_document(a, c),
    decreases a, 0nat,
{
    lemma_transitive_list_type_system_definition(a.definitions.0@, b.definitions.0@, c.definitions.0@);
}

pub proof fn lemma_reflexive_type_system_definition(a: TypeSystemDefinition)
    ensures
        congruent_type_system_definition(a, a),
    decreases a, 0nat,
{
    match (a) {
        (TypeSystemDefinition::SchemaDefinition(x)) => {
            lemma_reflexive_schema_definition(x);
        },
        (TypeSystemDefinition::TypeDefinition(x)) => {
            lemma_reflexive_type_definition(node_of(x));
        },
        (TypeSystemDefinition::DirectiveDefinition(x)) => {
            lemma_reflexive_directive_definition(node_of(x));
        },
        (TypeSystemDefinition::Error(x)) => {
            lemma_reflexive_description(x);
        },
    }
}

pub proof fn lemma_symmetric_type_system_definition(a: TypeSystemDefinition, b: TypeSystemDefinition)
    ensures
        congruent_type_system_definition(a, b) == congruent_type_system_definition(b, a),
    decreases a, 0nat,
{
    match (a, b) {
        (TypeSystemDefinition::SchemaDefinition(x), TypeSystemDefinition::SchemaDefinition(y)) => {
            lemma_symmetric_schema_definition(x, y);
        },
        (TypeSystemDefinition::TypeDefinition(x), TypeSystemDefinition::TypeDefinition(y)) => {
            lemma_symmetric_type_definition(node_of(x), node_of(y));
        },
        (TypeSystemDefinition::DirectiveDefinition(x), TypeSystemDefinition::DirectiveDefinition(y)) => {
            lemma_symmetric_directive_definition(node_of(x), node_of(y));
        },
        (TypeSystemDefinition::Error(x), TypeSystemDefinition::Error(y)) => {
            lemma_symmetric_description(x, y);
        },
        _ => {},
    }
}

pub proof fn lemma_transitive_type_system_definition(a: TypeSystemDefinition, b: TypeSystemDefinition, c: TypeSystemDefinition)
    requires
        congruent_type_system_definition(a, b) && congruent_type_system_definition(b, c),
    ensures
        congruent_type_system_definition(a, c),
    decreases a, 0nat,
{
    match (a, b, c) {
        (TypeSystemDefinition::SchemaDefinition(x), TypeSystemDefinition::SchemaDefinition(y), TypeSystemDefinition::SchemaDefinition(z)) => {
            lemma_transitive_schema_definition(x, y, z);
        },
        (TypeSystemDefinition::TypeDefinition(x), TypeSystemDefinition::TypeDefinition(y), TypeSystemDefinition::TypeDefinition(z)) => {
            lemma_transitive_type_definition(node_of(x), node_of(y), node_of(z));
        },
        (TypeSystemDefinition::DirectiveDefinition(x), TypeSystemDefinition::DirectiveDefinition(y), TypeSystemDefinition::DirectiveDefinition(z)) => {
            lemma_transitive_directive_definition(node_of(x), node_of(y), node_of(z));
        },
        (TypeSystemDefinition::Error(x), TypeSystemDefinition::Error(y), TypeSystemDefinition::Error(z)) => {
            lemma_transitive_description(x, y, z);
        },
        _ => {},
    }
}

pub proof fn lemma_reflexive_type_system_extension_document(a: TypeSystemExtensionDocument)
    ensures
        congruent_type_system_extension_document(a, a),
    decreases a, 0nat,
{
    lemma_reflexive_list_type_system_definition_or_extension(a.definitions.0@);
}

pub proof fn lemma_symmetric_type_system_extension_document(a: TypeSystemExtensionDocument, b: TypeSystemExtensionDocument)
    ensures
        congruent_type_system_extension_document(a, b) == congruent_type_system_extension_document(b, a),
    decreases a, 0nat,
{
    lemma_symmetric_list_type_system_definition_or_extension(a.definitions.0@, b.definitions.0@);
}

pub proof fn lemma_transitive_type_system_extension_document(a: TypeSystemExtensionDocument, b: TypeSystemExtensionDocument, c: TypeSystemExtensionDocument)
    requires
        congruent_type_system_extension_document(a, b) && congruent_type_system_extension_document(b, c),
    ensures
        congruent_type_system_extension_document(a, c),
    decreases a, 0nat,
{
    lemma_transitive_list_type_system_definition_or_extension(a.definitions.0@, b.definitions.0@, c.definitions.0@);
}

pub proof fn lemma_reflexive_type_system_definition_or_extension(a: TypeSystemDefinitionOrExtension)
    ensures
        congruent_type_system_definition_or_extension(a, a),
    decreases a, 0nat,
{
    match (a) {
        (TypeSystemDefinitionOrExtension::TypeSystemDefinition(x)) => {
            lemma_reflexive_type_system_definition(x);
        },
        (TypeSystemDefinitionOrExtension::TypeSystemExtension(x)) => {
            lemma_reflexive_type_system_extension(x);
        },
    }
}

pub proof fn lemma_symmetric_type_system_definition_or_extension(a: TypeSystemDefinitionOrExtension, b: TypeSystemDefinitionOrExtension)
    ensures
        congruent_type_system_definition_or_extension(a, b) == congruent_type_system_definition_or_extension(b, a),
    decreases a, 0nat,
{
    match (a, b) {
        (TypeSystemDefinitionOrExtension::TypeSystemDefinition(x), TypeSystemDefinitionOrExtension::TypeSystemDefinition(y)) => {
            lemma_symmetric_type_system_definition(x, y);
        },
        (TypeSystemDefinitionOrExtension::TypeSystemExtension(x), TypeSystemDefinitionOrExtension::TypeSystemExtension(y)) => {
            lemma_symmetric_type_system_extension(x, y);
        },
        _ => {},
    }
}

pub proof fn lemma_transitive_type_system_definition_or_extension(a: TypeSystemDefinitionOrExtension, b: TypeSystemDefinitionOrExtension, c: TypeSystemDefinitionOrExtension)
    requires
        congruent_type_system_definition_or_extension(a, b) && congruent_type_system_definition_or_extension(b, c),
    ensures
        congruent_type_system_definition_or_extension(a, c),
    decreases a, 0nat,
{
    match (a, b, c) {
        (TypeSystemDefinitionOrExtension::TypeSystemDefinition(x), TypeSystemDefinitionOrExtension::TypeSystemDefinition(y), TypeSystemDefinitionOrExtension::TypeSystemDefinition(z)) => {
            lemma_transitive_type_system_definition(x, y, z);
        },
        (TypeSystemDefinitionOrExtension::TypeSystemExtension(x), TypeSystemDefinitionOrExtension::TypeSystemExtension(y), TypeSystemDefinitionOrExtension::TypeSystemExtension(z)) => {
            lemma_transitive_type_system_extension(x, y, z);
        },
        _ => {},
    }
}

pub proof fn lemma_reflexive_type_system_extension(a: TypeSystemExtension)
    ensures
        congruent_type_system_extension(a, a),
    decreases a, 0nat,
{
    match (a) {
        (TypeSystemExtension::SchemaExtension(x)) => {
            lemma_reflexive_schema_extension(x);
        },
        (TypeSystemExtension::TypeExtension(x)) => {
            lemma_reflexive_type_extension(node_of(x));
        },
        (TypeSystemExtension::Error(x)) => {
        },
    }
}

pub proof fn lemma_symmetric_type_system_extension(a: TypeSystemExtension, b: TypeSystemExtension)
    ensures
        congruent_type_system_extension(a, b) == congruent_type_system_extension(b, a),
    decreases a, 0nat,
{
    match (a, b) {
        (TypeSystemExtension::SchemaExtension(x), TypeSystemExtension::SchemaExtension(y)) => {
            lemma_symmetric_schema_extension(x, y);
        },
        (TypeSystemExtension::TypeExtension(x), TypeSystemExtension::TypeExtension(y)) => {
            lemma_symmetric_type_extension(node_of(x), node_of(y));
        },
        (TypeSystemExtension::Error(x), TypeSystemExtension::Error(y)) => {
        },
        _ => {},
    }
}

pub proof fn lemma_transitive_type_system_extension(a: TypeSystemExtension, b: TypeSystemExtension, c: TypeSystemExtension)
    requires
        congruent_type_system_extension(a, b) && congruent_type_system_extension(b, c),
    ensures
        congruent_type_system_extension(a, c),
    decreases a, 0nat,
{
    match (a, b, c) {
        (TypeSystemExtension::SchemaExtension(x), TypeSystemExtension::SchemaExtension(y), TypeSystemExtension::SchemaExtension(z)) => {
            lemma_transitive_schema_extension(x, y, z);
        },
        (TypeSystemExtension::TypeExtension(x), TypeSystemExtension::TypeExtension(y), TypeSystemExtension::TypeExtension(z)) => {
            lemma_transitive_type_extension(node_of(x), node_of(y), node_of(z));
        },
        (TypeSystemExtension::Error(x), TypeSystemExtension::Error(y), TypeSystemExtension::Error(z)) => {
        },
        _ => {},
    }
}

pub proof fn lemma_reflexive_description(a: Description)
    ensures
        congruent_description(a, a),
    decreases a, 0nat,
{

}

pub proof fn lemma_symmetric_description(a: Description, b: Description)
    ensures
        congruent_description(a, b) == congruent_description(b, a),
    decreases a, 0nat,
{

}

pub proof fn lemma_transitive_description(a: Description, b: Description, c: Description)
    requires
        congruent_description(a, b) && congruent_description(b, c),
    ensures
        congruent_description(a, c),
    decreases a, 0nat,
{

}

pub proof fn lemma_reflexive_schema_definition(a: SchemaDefinition)
    ensures
        congruent_schema_definition(a, a),
    decreases a, 0nat,
{
    match a.description {
        Some(x) => {
            lemma_reflexive_description(x);
        },
        _ => {},
    }
    match a.directives {
        Some(x) => {
            lemma_reflexive_directives(x);
        },
        _ => {},
    }
    match a.type_definitions {
        Recoverable::Present(x) => {
            lemma_reflexive_root_operation_type_definitions(x);
        },
        _ => {},
    }
}

pub proof fn lemma_symmetric_schema_definition(a: SchemaDefinition, b: SchemaDefinition)
    ensures
        congruent_schema_definition(a, b) == congruent_schema_definition(b, a),
    decreases a, 0nat,
{
    match (a.description, b.description) {
        (Some(x), Some(y)) => {
            lemma_symmetric_description(x, y);
        },
        _ => {},
    }
    match (a.directives, b.directives) {
        (Some(x), Some(y)) => {
            lemma_symmetric_directives(x, y);
        },
        _ => {},
    }
    match (a.type_definitions, b.type_definitions) {
        (Recoverable::Present(x), Recoverable::Present(y)) => {
            lemma_symmetric_root_operation_type_definitions(x, y);
        },
        _ => {},
    }
}

pub proof fn lemma_transitive_schema_definition(a: SchemaDefinition, b: SchemaDefinition, c: SchemaDefinition)
    requires
        congruent_schema_definition(a, b) && congruent_schema_definition(b, c),
    ensures
        congruent_schema_definition(a, c),
    decreases a, 0nat,
{
    match (a.description, b.description, c.description) {
        (Some(x), Some(y), Some(z)) => {
            lemma_transitive_description(x, y, z);
        },
        _ => {},
    }
    match (a.directives, b.directives, c.directives) {
        (Some(x), Some(y), Some(z)) => {
            lemma_transitive_directives(x, y, z);
        },
        _ => {},
    }
    match (a.type_definitions, b.type_definitions, c.type_definitions) {
        (Recoverable::Present(x), Recoverable::Present(y), Recoverable::Present(z)) => {
            lemma_transitive_root_operation_type_definitions(x, y, z);
        },
        _ => {},
    }
}

pub proof fn lemma_reflexive_root_operation_type_definitions(a: RootOperationTypeDefinitions)
    ensures
        congruent_root_operation_type_definitions(a, a),
    decreases a, 0nat,
{
    match a.definitions {
        Recoverable::Present(x) => {
            lemma_reflexive_list_root_operation_type_definition(x.0@);
        },
        _ => {},
    }
}

pub proof fn lemma_symmetric_root_operation_type_definitions(a: RootOperationTypeDefinitions, b: RootOperationTypeDefinitions)
    ensures
        congruent_root_operation_type_definitions(a, b) == congruent_root_operation_type_definitions(b, a),
    decreases a, 0nat,
{
    match (a.definitions, b.definitions) {
        (Recoverable::Present(x), Recoverable::Present(y)) => {
            lemma_symmetric_list_root_operation_type_definition(x.0@, y.0@);
        },
        _ => {},
    }
}

pub proof fn lemma_transitive_root_operation_type_definitions(a: RootOperationTypeDefinitions, b: RootOperationTypeDefinitions, c: RootOperationTypeDefinitions)
    requires
        congruent_root_operation_type_definitions(a, b) && congruent_root_operation_type_definitions(b, c),
    ensures
        congruent_root_operation_type_definitions(a, c),
    decreases a, 0nat,
{
    match (a.definitions, b.definitions, c.definitions) {
        (Recoverable::Present(x), Recoverable::Present(y), Recoverable::Present(z)) => {
            lemma_transitive_list_root_operation_type_definition(x.0@, y.0@, z.0@);
        },
        _ => {},
    }
}

pub proof fn lemma_reflexive_root_operation_type_definition(a: RootOperationTypeDefinition)
    ensures
        congruent_root_operation_type_definition(a, a),
    decreases a, 0nat,
{
    lemma_reflexive_operation_type(a.operation_type);
    match a.named_type {
        Recoverable::Present(x) => {
            lemma_reflexive_named_type(x);
        },
        _ => {},
    }
}

pub proof fn lemma_symmetric_root_operation_type_definition(a: RootOperationTypeDefinition, b: RootOperationTypeDefinition)
    ensures
        congruent_root_operation_type_definition(a, b) == congruent_root_operation_type_definition(b, a),
    decreases a, 0nat,
{
    lemma_symmetric_operation_type(a.operation_type, b.operation_type);
    match (a.named_type, b.named_type) {
        (Recoverable::Present(x), Recoverable::Present(y)) => {
            lemma_symmetric_named_type(x, y);
        },
        _ => {},
    }
}

pub proof fn lemma_transitive_root_operation_type_definition(a: RootOperationTypeDefinition, b: RootOperationTypeDefinition, c: RootOperationTypeDefinition)
    requires
        congruent_root_operation_type_definition(a, b) && congruent_root_operation_type_definition(b, c),
    ensures
        congruent_root_operation_type_definition(a, c),
    decreases a, 0nat,
{
    lemma_transitive_operation_type(a.operation_type, b.operation_type, c.operation_type);
    match (a.named_type, b.named_type, c.named_type) {
        (Recoverable::Present(x), Recoverable::Present(y), Recoverable::Present(z)) => {
            lemma_transitive_named_type(x, y, z);
        },
        _ => {},
    }
}

pub proof fn lemma_reflexive_schema_extension(a: SchemaExtension)
    ensures
        congruent_schema_extension(a, a),
    decreases a, 0nat,
{
    match a.directives {
        Some(x) => {
            lemma_reflexive_directives(x);
        },
        _ => {},
    }
    match a.type_definitions {
        Some(x) => {
            lemma_reflexive_root_operation_type_definitions(x);
        },
        _ => {},
    }
}

pub proof fn lemma_symmetric_schema_extension(a: SchemaExtension, b: SchemaExtension)
    ensures
        congruent_schema_extension(a, b) == congruent_schema_extension(b, a),
    decreases a, 0nat,
{
    match (a.directives, b.directives) {
        (Some(x), Some(y)) => {
            lemma_symmetric_directives(x, y);
        },
        _ => {},
    }
    match (a.type_definitions, b.type_definitions) {
        (Some(x), Some(y)) => {
            lemma_symmetric_root_operation_type_definitions(x, y);
        },
        _ => {},
    }
}

pub proof fn lemma_transitive_schema_extension(a: SchemaExtension, b: SchemaExtension, c: SchemaExtension)
    requires
        congruent_schema_extension(a, b) && congruent_schema_extension(b, c),
    ensures
        congruent_schema_extension(a, c),
    decreases a, 0nat,
{
    match (a.directives, b.directives, c.directives) {
        (Some(x), Some(y), Some(z)) => {
            lemma_transitive_directives(x, y, z);
        },
        _ => {},
    }
    match (a.type_definitions, b.type_definitions, c.type_definitions) {
        (Some(x), Some(y), Some(z)) => {
            lemma_transitive_root_operation_type_definitions(x, y, z);
        },
        _ => {},
    }
}

pub proof fn lemma_reflexive_type_definition(a: TypeDefinition)
    ensures
        congruent_type_definition(a, a),
    decreases a, 0nat,
{
    match (a) {
        (TypeDefinition::ScalarTypeDefinition(x)) => {
            lemma_reflexive_scalar_type_definition(x);
        },
        (TypeDefinition::ObjectTypeDefinition(x)) => {
            lemma_reflexive_object_type_definition(x);
        },
        (TypeDefinition::InterfaceTypeDefinition(x)) => {
            lemma_reflexive_interface_type_definition(x);
        },
        (TypeDefinition::UnionTypeDefinition(x)) => {
            lemma_reflexive_union_type_definition(x);
        },
        (TypeDefinition::EnumTypeDefinition(x)) => {
            lemma_reflexive_enum_type_definition(x);
        },
        (TypeDefinition::InputObjectTypeDefinition(x)) => {
            lemma_reflexive_input_object_type_definition(x);
        },
    }
}

pub proof fn lemma_symmetric_type_definition(a: TypeDefinition, b: TypeDefinition)
    ensures
        congruent_type_definition(a, b) == congruent_type_definition(b, a),
    decreases a, 0nat,
{
    match (a, b) {
        (TypeDefinition::ScalarTypeDefinition(x), TypeDefinition::ScalarTypeDefinition(y)) => {
            lemma_symmetric_scalar_type_definition(x, y);
        },
        (TypeDefinition::ObjectTypeDefinition(x), TypeDefinition::ObjectTypeDefinition(y)) => {
            lemma_symmetric_object_type_definition(x, y);
        },
        (TypeDefinition::InterfaceTypeDefinition(x), TypeDefinition::InterfaceTypeDefinition(y)) => {
            lemma_symmetric_interface_type_definition(x, y);
        },
        (TypeDefinition::UnionTypeDefinition(x), TypeDefinition::UnionTypeDefinition(y)) => {
            lemma_symmetric_union_type_definition(x, y);
        },
        (TypeDefinition::EnumTypeDefinition(x), TypeDefinition::EnumTypeDefinition(y)) => {
            lemma_symmetric_enum_type_definition(x, y);
        },
        (TypeDefinition::InputObjectTypeDefinition(x), TypeDefinition::InputObjectTypeDefinition(y)) => {
            lemma_symmetric_input_object_type_definition(x, y);
        },
        _ => {},
    }
}

pub proof fn lemma_transitive_type_definition(a: TypeDefinition, b: TypeDefinition, c: TypeDefinition)
    requires
        congruent_type_definition(a, b) && congruent_type_definition(b, c),
    ensures
        congruent_type_definition(a, c),
    decreases a, 0nat,
{
    match (a, b, c) {
        (TypeDefinition::ScalarTypeDefinition(x), TypeDefinition::ScalarTypeDefinition(y), TypeDefinition::ScalarTypeDefinition(z)) => {
            lemma_transitive_scalar_type_definition(x, y, z);
        },
        (TypeDefinition::ObjectTypeDefinition(x), TypeDefinition::ObjectTypeDefinition(y), TypeDefinition::ObjectTypeDefinition(z)) => {
            lemma_transitive_object_type_definition(x, y, z);
        },
        (TypeDefinition::InterfaceTypeDefinition(x), TypeDefinition::InterfaceTypeDefinition(y), TypeDefinition::InterfaceTypeDefinition(z)) => {
            lemma_transitive_interface_type_definition(x, y, z);
        },
        (TypeDefinition::UnionTypeDefinition(x), TypeDefinition::UnionTypeDefinition(y), TypeDefinition::UnionTypeDefinition(z)) => {
            lemma_transitive_union_type_definition(x, y, z);
        },
        (TypeDefinition::EnumTypeDefinition(x), TypeDefinition::EnumTypeDefinition(y), TypeDefinition::EnumTypeDefinition(z)) => {
            lemma_transitive_enum_type_definition(x, y, z);
        },
        (TypeDefinition::InputObjectTypeDefinition(x), TypeDefinition::InputObjectTypeDefinition(y), TypeDefinition::InputObjectTypeDefinition(z)) => {
            lemma_transitive_input_object_type_definition(x, y, z);
        },
        _ => {},
    }
}

pub proof fn lemma_reflexive_type_extension(a: TypeExtension)
    ensures
        congruent_type_extension(a, a),
    decreases a, 0nat,
{
    match (a) {
        (TypeExtension::ScalarTypeExtension(x)) => {
            lemma_reflexive_scalar_type_extension(x);
        },
        (TypeExtension::ObjectTypeExtension(x)) => {
            lemma_reflexive_object_type_extension(x);
        },
        (TypeExtension::InterfaceTypeExtension(x)) => {
            lemma_reflexive_interface_type_extension(x);
        },
        (TypeExtension::UnionTypeExtension(x)) => {
            lemma_reflexive_union_type_extension(x);
        },
        (TypeExtension::EnumTypeExtension(x)) => {
            lemma_reflexive_enum_type_extension(x);
        },
        (TypeExtension::InputObjectTypeExtension(x)) => {
            lemma_reflexive_input_object_type_extension(x);
        },
    }
}

pub proof fn lemma_symmetric_type_extension(a: TypeExtension, b: TypeExtension)
    ensures
        congruent_type_extension(a, b) == congruent_type_extension(b, a),
    decreases a, 0nat,
{
    match (a, b) {
        (TypeExtension::ScalarTypeExtension(x), TypeExtension::ScalarTypeExtension(y)) => {
            lemma_symmetric_scalar_type_extension(x, y);
        },
        (TypeExtension::ObjectTypeExtension(x), TypeExtension::ObjectTypeExtension(y)) => {
            lemma_symmetric_object_type_extension(x, y);
        },
        (TypeExtension::InterfaceTypeExtension(x), TypeExtension::InterfaceTypeExtension(y)) => {
            lemma_symmetric_interface_type_extension(x, y);
        },
        (TypeExtension::UnionTypeExtension(x), TypeExtension::UnionTypeExtension(y)) => {
            lemma_symmetric_union_type_extension(x, y);
        },
        (TypeExtension::EnumTypeExtension(x), TypeExtension::EnumTypeExtension(y)) => {
            lemma_symmetric_enum_type_extension(x, y);
        },
        (TypeExtension::InputObjectTypeExtension(x), TypeExtension::InputObjectTypeExtension(y)) => {
            lemma_symmetric_input_object_type_extension(x, y);
        },
        _ => {},
    }
}

pub proof fn lemma_transitive_type_extension(a: TypeExtension, b: TypeExtension, c: TypeExtension)
    requires
        congruent_type_extension(a, b) && congruent_type_extension(b, c),
    ensures
        congruent_type_extension(a, c),
    decreases a, 0nat,
{
    match (a, b, c) {
        (TypeExtension::ScalarTypeExtension(x), TypeExtension::ScalarTypeExtension(y), TypeExtension::ScalarTypeExtension(z)) => {
            lemma_transitive_scalar_type_extension(x, y, z);
        },
        (TypeExtension::ObjectTypeExtension(x), TypeExtension::ObjectTypeExtension(y), TypeExtension::ObjectTypeExtension(z)) => {
            lemma_transitive_object_type_extension(x, y, z);
        },
        (TypeExtension::InterfaceTypeExtension(x), TypeExtension::InterfaceTypeExtension(y), TypeExtension::InterfaceTypeExtension(z)) => {
            lemma_transitive_interface_type_extension(x, y, z);
        },
        (TypeExtension::UnionTypeExtension(x), TypeExtension::UnionTypeExtension(y), TypeExtension::UnionTypeExtension(z)) => {
            lemma_transitive_union_type_extension(x, y, z);
        },
        (TypeExtension::EnumTypeExtension(x), TypeExtension::EnumTypeExtension(y), TypeExtension::EnumTypeExtension(z)) => {
            lemma_transitive_enum_type_extension(x, y, z);
        },
        (TypeExtension::InputObjectTypeExtension(x), TypeExtension::InputObjectTypeExtension(y), TypeExtension::InputObjectTypeExtension(z)) => {
            lemma_transitive_input_object_type_extension(x, y, z);
        },
        _ => {},
    }
}

pub proof fn lemma_reflexive_scalar_type_definition(a: ScalarTypeDefinition)
    ensures
        congruent_scalar_type_definition(a, a),
    decreases a, 0nat,
{
    match a.directives {
        Some(x) => {
            lemma_reflexive_directives(x);
        },
        _ => {},
    }
}

pub proof fn lemma_symmetric_scalar_type_definition(a: ScalarTypeDefinition, b: ScalarTypeDefinition)
    ensures
        congruent_scalar_type_definition(a, b) == congruent_scalar_type_definition(b, a),
    decreases a, 0nat,
{
    match (a.directives, b.directives) {
        (Some(x), Some(y)) => {
            lemma_symmetric_directives(x, y);
        },
        _ => {},
    }
}

pub proof fn lemma_transitive_scalar_type_definition(a: ScalarTypeDefinition, b: ScalarTypeDefinition, c: ScalarTypeDefinition)
    requires
        congruent_scalar_type_definition(a, b) && congruent_scalar_type_definition(b, c),
    ensures
        congruent_scalar_type_definition(a, c),
    decreases a, 0nat,
{
    match (a.directives, b.directives, c.directives) {
        (Some(x), Some(y), Some(z)) => {
            lemma_transitive_directives(x, y, z);
        },
        _ => {},
    }
}

pub proof fn lemma_reflexive_scalar_type_extension(a: ScalarTypeExtension)
    ensures
        congruent_scalar_type_extension(a, a),
    decreases a, 0nat,
{
    match a.name {
        Recoverable::Present(x) => {
            lemma_reflexive_named_type(x);
        },
        _ => {},
    }
    match a.directives {
        Recoverable::Present(x) => {
            lemma_reflexive_directives(x);
        },
        _ => {},
    }
}

pub proof fn lemma_symmetric_scalar_type_extension(a: ScalarTypeExtension, b: ScalarTypeExtension)
    ensures
        congruent_scalar_type_extension(a, b) == congruent_scalar_type_extension(b, a),
    decreases a, 0nat,
{
    match (a.name, b.name) {
        (Recoverable::Present(x), Recoverable::Present(y)) => {
            lemma_symmetric_named_type(x, y);
        },
        _ => {},
    }
    match (a.directives, b.directives) {
        (Recoverable::Present(x), Recoverable::Present(y)) => {
            lemma_symmetric_directives(x, y);
        },
        _ => {},
    }
}

pub proof fn lemma_transitive_scalar_type_extension(a: ScalarTypeExtension, b: ScalarTypeExtension, c: ScalarTypeExtension)
    requires
        congruent_scalar_type_extension(a, b) && congruent_scalar_type_extension(b, c),
    ensures
        congruent_scalar_type_extension(a, c),
    decreases a, 0nat,
{
    match (a.name, b.name, c.name) {
        (Recoverable::Present(x), Recoverable::Present(y), Recoverable::Present(z)) => {
            lemma_transitive_named_type(x, y, z);
        },
        _ => {},
    }
    match (a.directives, b.directives, c.directives) {
        (Recoverable::Present(x), Recoverable::Present(y), Recoverable::Present(z)) => {
            lemma_transitive_directives(x, y, z);
        },
        _ => {},
    }
}

pub proof fn lemma_reflexive_object_type_definition(a: ObjectTypeDefinition)
    ensures
        congruent_object_type_definition(a, a),
    decreases a, 0nat,
{
    match a.description {
        Some(x) => {
            lemma_reflexive_description(x);
        },
        _ => {},
    }
    match a.implements_interfaces {
        Some(x) => {
            lemma_reflexive_implements_interfaces(x);
        },
        _ => {},
    }
    match a.directives {
        Some(x) => {
            lemma_reflexive_directives(x);
        },
        _ => {},
    }
    match a.fields_definition {
        Some(x) => {
            lemma_reflexive_fields_definition(x);
        },
        _ => {},
    }
}

pub proof fn lemma_symmetric_object_type_definition(a: ObjectTypeDefinition, b: ObjectTypeDefinition)
    ensures
        congruent_object_type_definition(a, b) == congruent_object_type_definition(b, a),
    decreases a, 0nat,
{
    match (a.description, b.description) {
        (Some(x), Some(y)) => {
            lemma_symmetric_description(x, y);
        },
        _ => {},
    }
    match (a.implements_interfaces, b.implements_interfaces) {
        (Some(x), Some(y)) => {
            lemma_symmetric_implements_interfaces(x, y);
        },
        _ => {},
    }
    match (a.directives, b.directives) {
        (Some(x), Some(y)) => {
            lemma_symmetric_directives(x, y);
        },
        _ => {},
    }
    match (a.fields_definition, b.fields_definition) {
        (Some(x), Some(y)) => {
            lemma_symmetric_fields_definition(x, y);
        },
        _ => {},
    }
}

pub proof fn lemma_transitive_object_type_definition(a: ObjectTypeDefinition, b: ObjectTypeDefinition, c: ObjectTypeDefinition)
    requires
        congruent_object_type_definition(a, b) && congruent_object_type_definition(b, c),
    ensures
        congruent_object_type_definition(a, c),
    decreases a, 0nat,
{
    match (a.description, b.description, c.description) {
        (Some(x), Some(y), Some(z)) => {
            lemma_transitive_description(x, y, z);
        },
        _ => {},
    }
    match (a.implements_interfaces, b.implements_interfaces, c.implements_interfaces) {
        (Some(x), Some(y), Some(z)) => {
            lemma_transitive_implements_interfaces(x, y, z);
        },
        _ => {},
    }
    match (a.directives, b.directives, c.directives) {
        (Some(x), Some(y), Some(z)) => {
            lemma_transitive_directives(x, y, z);
        },
        _ => {},
    }
    match (a.fields_definition, b.fields_definition, c.fields_definition) {
        (Some(x), Some(y), Some(z)) => {
            lemma_transitive_fields_definition(x, y, z);
        },
        _ => {},
    }
}

pub proof fn lemma_reflexive_implements_interfaces(a: ImplementsInterfaces)
    ensures
        congruent_implements_interfaces(a, a),
    decreases a, 0nat,
{
    match a.first {
        Recoverable::Present(x) => {
            lemma_reflexive_named_type(node_of(x));
        },
        _ => {},
    }
    lemma_reflexive_list_punctuator_recoverable_shared_named_type(a.types.0@);
}

pub proof fn lemma_symmetric_implements_interfaces(a: ImplementsInterfaces, b: ImplementsInterfaces)
    ensures
        congruent_implements_interfaces(a, b) == congruent_implements_interfaces(b, a),
    decreases a, 0nat,
{
    match (a.first, b.first) {
        (Recoverable::Present(x), Recoverable::Present(y)) => {
            lemma_symmetric_named_type(node_of(x), node_of(y));
        },
        _ => {},
    }
    lemma_symmetric_list_punctuator_recoverable_shared_named_type(a.types.0@, b.types.0@);
}

pub proof fn lemma_transitive_implements_interfaces(a: ImplementsInterfaces, b: ImplementsInterfaces, c: ImplementsInterfaces)
    requires
        congruent_implements_interfaces(a, b) && congruent_implements_interfaces(b, c),
    ensures
        congruent_implements_interfaces(a, c),
    decreases a, 0nat,
{
    match (a.first, b.first, c.first) {
        (Recoverable::Present(x), Recoverable::Present(y), Recoverable::Present(z)) => {
            lemma_transitive_named_type(node_of(x), node_of(y), node_of(z));
        },
        _ => {},
    }
    lemma_transitive_list_punctuator_recoverable_shared_named_type(a.types.0@, b.types.0@, c.types.0@);
}

pub proof fn lemma_reflexive_fields_definition(a: FieldsDefinition)
    ensures
        congruent_fields_definition(a, a),
    decreases a, 0nat,
{
    lemma_reflexive_list_shared_field_definition(a.definitions.0@);
}

pub proof fn lemma_symmetric_fields_definition(a: FieldsDefinition, b: FieldsDefinition)
    ensures
        congruent_fields_definition(a, b) == congruent_fields_definition(b, a),
    decreases a, 0nat,
{
    lemma_symmetric_list_shared_field_definition(a.definitions.0@, b.definitions.0@);
}

pub proof fn lemma_transitive_fields_definition(a: FieldsDefinition, b: FieldsDefinition, c: FieldsDefinition)
    requires
        congruent_fields_definition(a, b) && congruent_fields_definition(b, c),
    ensures
        congruent_fields_definition(a, c),
    decreases a, 0nat,
{
    lemma_transitive_list_shared_field_definition(a.definitions.0@, b.definitions.0@, c.definitions.0@);
}

pub proof fn lemma_reflexive_field_definition(a: FieldDefinition)
    ensures
        congruent_field_definition(a, a),
    decreases a, 0nat,
{
    match a.description {
        Some(x) => {
            lemma_reflexive_description(x);
        },
        _ => {},
    }
    match a.arguments_definition {
        Some(x) => {
            lemma_reflexive_arguments_definition(node_of(x));
        },
        _ => {},
    }
    match a.ty {
        Recoverable::Present(x) => {
            lemma_reflexive_type(node_of(x));
        },
        _ => {},
    }
    match a.directives {
        Some(x) => {
            lemma_reflexive_directives(x);
        },
        _ => {},
    }
}

pub proof fn lemma_symmetric_field_definition(a: FieldDefinition, b: FieldDefinition)
    ensures
        congruent_field_definition(a, b) == congruent_field_definition(b, a),
    decreases a, 0nat,
{
    match (a.description, b.description) {
        (Some(x), Some(y)) => {
            lemma_symmetric_description(x, y);
        },
        _ => {},
    }
    match (a.arguments_definition, b.arguments_definition) {
        (Some(x), Some(y)) => {
            lemma_symmetric_arguments_definition(node_of(x), node_of(y));
        },
        _ => {},
    }
    match (a.ty, b.ty) {
        (Recoverable::Present(x), Recoverable::Present(y)) => {
            lemma_symmetric_type(node_of(x), node_of(y));
        },
        _ => {},
    }
    match (a.directives, b.directives) {
        (Some(x), Some(y)) => {
            lemma_symmetric_directives(x, y);
        },
        _ => {},
    }
}

pub proof fn lemma_transitive_field_definition(a: FieldDefinition, b: FieldDefinition, c: FieldDefinition)
    requires
        congruent_field_definition(a, b) && congruent_field_definition(b, c),
    ensures
        congruent_field_definition(a, c),
    decreases a, 0nat,
{
    match (a.description, b.description, c.description) {
        (Some(x), Some(y), Some(z)) => {
            lemma_transitive_description(x, y, z);
        },
        _ => {},
    }
    match (a.arguments_definition, b.arguments_definition, c.arguments_definition) {
        (Some(x), Some(y), Some(z)) => {
            lemma_transitive_arguments_definition(node_of(x), node_of(y), node_of(z));
        },
        _ => {},
    }
    match (a.ty, b.ty, c.ty) {
        (Recoverable::Present(x), Recoverable::Present(y), Recoverable::Present(z)) => {
            lemma_transitive_type(node_of(x), node_of(y), node_of(z));
        },
        _ => {},
    }
    match (a.directives, b.directives, c.directives) {
        (Some(x), Some(y), Some(z)) => {
            lemma_transitive_directives(x, y, z);
        },
        _ => {},
    }
}

pub proof fn lemma_reflexive_arguments_definition(a: ArgumentsDefinition)
    ensures
        congruent_arguments_definition(a, a),
    decreases a, 0nat,
{
    lemma_reflexive_list_shared_input_value_definition(a.definitions.0@);
}

pub proof fn lemma_symmetric_arguments_definition(a: ArgumentsDefinition, b: ArgumentsDefinition)
    ensures
        congruent_arguments_definition(a, b) == congruent_arguments_definition(b, a),
    decreases a, 0nat,
{
    lemma_symmetric_list_shared_input_value_definition(a.definitions.0@, b.definitions.0@);
}

pub proof fn lemma_transitive_arguments_definition(a: ArgumentsDefinition, b: ArgumentsDefinition, c: ArgumentsDefinition)
    requires
        congruent_arguments_definition(a, b) && congruent_arguments_definition(b, c),
    ensures
        congruent_arguments_definition(a, c),
    decreases a, 0nat,
{
    lemma_transitive_list_shared_input_value_definition(a.definitions.0@, b.definitions.0@, c.definitions.0@);
}

pub proof fn lemma_reflexive_input_value_definition(a: InputValueDefinition)
    ensures
        congruent_input_value_definition(a, a),
    decreases a, 0nat,
{
    match a.description {
        Some(x) => {
            lemma_reflexive_description(x);
        },
        _ => {},
    }
    match a.ty {
        Recoverable::Present(x) => {
            lemma_reflexive_type(node_of(x));
        },
        _ => {},
    }
    match a.default_value {
        Some(x) => {
            lemma_reflexive_default_value(x);
        },
        _ => {},
    }
    match a.directives {
        Some(x) => {
            lemma_reflexive_directives(x);
        },
        _ => {},
    }
}

pub proof fn lemma_symmetric_input_value_definition(a: InputValueDefinition, b: InputValueDefinition)
    ensures
        congruent_input_value_definition(a, b) == congruent_input_value_definition(b, a),
    decreases a, 0nat,
{
    match (a.description, b.description) {
        (Some(x), Some(y)) => {
            lemma_symmetric_description(x, y);
        },
        _ => {},
    }
    match (a.ty, b.ty) {
        (Recoverable::Present(x), Recoverable::Present(y)) => {
            lemma_symmetric_type(node_of(x), node_of(y));
        },
        _ => {},
    }
    match (a.default_value, b.default_value) {
        (Some(x), Some(y)) => {
            lemma_symmetric_default_value(x, y);
        },
        _ => {},
    }
    match (a.directives, b.directives) {
        (Some(x), Some(y)) => {
            lemma_symmetric_directives(x, y);
        },
        _ => {},
    }
}

pub proof fn lemma_transitive_input_value_definition(a: InputValueDefinition, b: InputValueDefinition, c: InputValueDefinition)
    requires
        congruent_input_value_definition(a, b) && congruent_input_value_definition(b, c),
    ensures
        congruent_input_value_definition(a, c),
    decreases a, 0nat,
{
    match (a.description, b.description, c.description) {
        (Some(x), Some(y), Some(z)) => {
            lemma_transitive_description(x, y, z);
        },
        _ => {},
    }
    match (a.ty, b.ty, c.ty) {
        (Recoverable::Present(x), Recoverable::Present(y), Recoverable::Present(z)) => {
            lemma_transitive_type(node_of(x), node_of(y), node_of(z));
        },
        _ => {},
    }
    match (a.default_value, b.default_value, c.default_value) {
        (Some(x), Some(y), Some(z)) => {
            lemma_transitive_default_value(x, y, z);
        },
        _ => {},
    }
    match (a.directives, b.directives, c.directives) {
        (Some(x), Some(y), Some(z)) => {
            lemma_transitive_directives(x, y, z);
        },
        _ => {},
    }
}

pub proof fn lemma_reflexive_object_type_extension(a: ObjectTypeExtension)
    ensures
        congruent_object_type_extension(a, a),
    decreases a, 0nat,
{
    match a.name {
        Recoverable::Present(x) => {
            lemma_reflexive_named_type(x);
        },
        _ => {},
    }
    match a.implements_interfaces {
        Some(x) => {
            lemma_reflexive_implements_interfaces(x);
        },
        _ => {},
    }
    match a.directives {
        Some(x) => {
            lemma_reflexive_directives(x);
        },
        _ => {},
    }
    match a.fields_definition {
        Some(x) => {
            lemma_reflexive_fields_definition(x);
        },
        _ => {},
    }
}

pub proof fn lemma_symmetric_object_type_extension(a: ObjectTypeExtension, b: ObjectTypeExtension)
    ensures
        congruent_object_type_extension(a, b) == congruent_object_type_extension(b, a),
    decreases a, 0nat,
{
    match (a.name, b.name) {
        (Recoverable::Present(x), Recoverable::Present(y)) => {
            lemma_symmetric_named_type(x, y);
        },
        _ => {},
    }
    match (a.implements_interfaces, b.implements_interfaces) {
        (Some(x), Some(y)) => {
            lemma_symmetric_implements_interfaces(x, y);
        },
        _ => {},
    }
    match (a.directives, b.directives) {
        (Some(x), Some(y)) => {
            lemma_symmetric_directives(x, y);
        },
        _ => {},
    }
    match (a.fields_definition, b.fields_definition) {
        (Some(x), Some(y)) => {
            lemma_symmetric_fields_definition(x, y);
        },
        _ => {},
    }
}

pub proof fn lemma_transitive_object_type_extension(a: ObjectTypeExtension, b: ObjectTypeExtension, c: ObjectTypeExtension)
    requires
        congruent_object_type_extension(a, b) && congruent_object_type_extension(b, c),
    ensures
        congruent_object_type_extension(a, c),
    decreases a, 0nat,
{
    match (a.name, b.name, c.name) {
        (Recoverable::Present(x), Recoverable::Present(y), Recoverable::Present(z)) => {
            lemma_transitive_named_type(x, y, z);
        },
        _ => {},
    }
    match (a.implements_interfaces, b.implements_interfaces, c.implements_interfaces) {
        (Some(x), Some(y), Some(z)) => {
            lemma_transitive_implements_interfaces(x, y, z);
        },
        _ => {},
    }
    match (a.directives, b.directives, c.directives) {
        (Some(x), Some(y), Some(z)) => {
            lemma_transitive_directives(x, y, z);
        },
        _ => {},
    }
    match (a.fields_definition, b.fields_definition, c.fields_definition) {
        (Some(x), Some(y), Some(z)) => {
            lemma_transitive_fields_definition(x, y, z);
        },
        _ => {},
    }
}

pub proof fn lemma_reflexive_interface_type_definition(a: InterfaceTypeDefinition)
    ensures
        congruent_interface_type_definition(a, a),
    decreases a, 0nat,
{
    match a.description {
        Some(x) => {
            lemma_reflexive_description(x);
        },
        _ => {},
    }
    match a.implements_interfaces {
        Some(x) => {
            lemma_reflexive_implements_interfaces(x);
        },
        _ => {},
    }
    match a.directives {
        Some(x) => {
            lemma_reflexive_directives(x);
        },
        _ => {},
    }
    match a.fields_definition {
        Some(x) => {
            lemma_reflexive_fields_definition(x);
        },
        _ => {},
    }
}

pub proof fn lemma_symmetric_interface_type_definition(a: InterfaceTypeDefinition, b: InterfaceTypeDefinition)
    ensures
        congruent_interface_type_definition(a, b) == congruent_interface_type_definition(b, a),
    decreases a, 0nat,
{
    match (a.description, b.description) {
        (Some(x), Some(y)) => {
            lemma_symmetric_description(x, y);
        },
        _ => {},
    }
    match (a.implements_interfaces, b.implements_interfaces) {
        (Some(x), Some(y)) => {
            lemma_symmetric_implements_interfaces(x, y);
        },
        _ => {},
    }
    match (a.directives, b.directives) {
        (Some(x), Some(y)) => {
            lemma_symmetric_directives(x, y);
        },
        _ => {},
    }
    match (a.fields_definition, b.fields_definition) {
        (Some(x), Some(y)) => {
            lemma_symmetric_fields_definition(x, y);
        },
        _ => {},
    }
}

pub proof fn lemma_transitive_interface_type_definition(a: InterfaceTypeDefinition, b: InterfaceTypeDefinition, c: InterfaceTypeDefinition)
    requires
        congruent_interface_type_definition(a, b) && congruent_interface_type_definition(b, c),
    ensures
        congruent_interface_type_definition(a, c),
    decreases a, 0nat,
{
    match (a.description, b.description, c.description) {
        (Some(x), Some(y), Some(z)) => {
            lemma_transitive_description(x, y, z);
        },
        _ => {},
    }
    match (a.implements_interfaces, b.implements_interfaces, c.implements_interfaces) {
        (Some(x), Some(y), Some(z)) => {
            lemma_transitive_implements_interfaces(x, y, z);
        },
        _ => {},
    }
    match (a.directives, b.directives, c.directives) {
        (Some(x), Some(y), Some(z)) => {
            lemma_transitive_directives(x, y, z);
        },
        _ => {},
    }
    match (a.fields_definition, b.fields_definition, c.fields_definition) {
        (Some(x), Some(y), Some(z)) => {
            lemma_transitive_fields_definition(x, y, z);
        },
        _ => {},
    }
}

pub proof fn lemma_reflexive_interface_type_extension(a: InterfaceTypeExtension)
    ensures
        congruent_interface_type_extension(a, a),
    decreases a, 0nat,
{
    match a.name {
        Recoverable::Present(x) => {
            lemma_reflexive_named_type(x);
        },
        _ => {},
    }
    match a.implements_interfaces {
        Some(x) => {
            lemma_reflexive_implements_interfaces(x);
        },
        _ => {},
    }
    match a.directives {
        Some(x) => {
            lemma_reflexive_directives(x);
        },
        _ => {},
    }
    match a.fields_definition {
        Some(x) => {
            lemma_reflexive_fields_definition(x);
        },
        _ => {},
    }
}

pub proof fn lemma_symmetric_interface_type_extension(a: InterfaceTypeExtension, b: InterfaceTypeExtension)
    ensures
        congruent_interface_type_extension(a, b) == congruent_interface_type_extension(b, a),
    decreases a, 0nat,
{
    match (a.name, b.name) {
        (Recoverable::Present(x), Recoverable::Present(y)) => {
            lemma_symmetric_named_type(x, y);
        },
        _ => {},
    }
    match (a.implements_interfaces, b.implements_interfaces) {
        (Some(x), Some(y)) => {
            lemma_symmetric_implements_interfaces(x, y);
        },
        _ => {},
    }
    match (a.directives, b.directives) {
        (Some(x), Some(y)) => {
            lemma_symmetric_directives(x, y);
        },
        _ => {},
    }
    match (a.fields_definition, b.fields_definition) {
        (Some(x), Some(y)) => {
            lemma_symmetric_fields_definition(x, y);
        },
        _ => {},
    }
}

pub proof fn lemma_transitive_interface_type_extension(a: InterfaceTypeExtension, b: InterfaceTypeExtension, c: InterfaceTypeExtension)
    requires
        congruent_interface_type_extension(a, b) && congruent_interface_type_extension(b, c),
    ensures
        congruent_interface_type_extension(a, c),
    decreases a, 0nat,
{
    match (a.name, b.name, c.name) {
        (Recoverable::Present(x), Recoverable::Present(y), Recoverable::Present(z)) => {
            lemma_transitive_named_type(x, y, z);
        },
        _ => {},
    }
    match (a.implements_interfaces, b.implements_interfaces, c.implements_interfaces) {
        (Some(x), Some(y), Some(z)) => {
            lemma_transitive_implements_interfaces(x, y, z);
        },
        _ => {},
    }
    match (a.directives, b.directives, c.directives) {
        (Some(x), Some(y), Some(z)) => {
            lemma_transitive_directives(x, y, z);
        },
        _ => {},
    }
    match (a.fields_definition, b.fields_definition, c.fields_definition) {
        (Some(x), Some(y), Some(z)) => {
            lemma_transitive_fields_definition(x, y, z);
        },
        _ => {},
    }
}

pub proof fn lemma_reflexive_union_type_definition(a: UnionTypeDefinition)
    ensures
        congruent_union_type_definition(a, a),
    decreases a, 0nat,
{
    match a.description {
        Some(x) => {
            lemma_reflexive_description(x);
        },
        _ => {},
    }
    match a.directives {
        Some(x) => {
            lemma_reflexive_directives(x);
        },
        _ => {},
    }
    match a.member_types {
        Some(x) => {
            lemma_reflexive_union_member_types(x);
        },
        _ => {},
    }
}

pub proof fn lemma_symmetric_union_type_definition(a: UnionTypeDefinition, b: UnionTypeDefinition)
    ensures
        congruent_union_type_definition(a, b) == congruent_union_type_definition(b, a),
    decreases a, 0nat,
{
    match (a.description, b.description) {
        (Some(x), Some(y)) => {
            lemma_symmetric_description(x, y);
        },
        _ => {},
    }
    match (a.directives, b.directives) {
        (Some(x), Some(y)) => {
            lemma_symmetric_directives(x, y);
        },
        _ => {},
    }
    match (a.member_types, b.member_types) {
        (Some(x), Some(y)) => {
            lemma_symmetric_union_member_types(x, y);
        },
        _ => {},
    }
}

pub proof fn lemma_transitive_union_type_definition(a: UnionTypeDefinition, b: UnionTypeDefinition, c: UnionTypeDefinition)
    requires
        congruent_union_type_definition(a, b) && congruent_union_type_definition(b, c),
    ensures
        congruent_union_type_definition(a, c),
    decreases a, 0nat,
{
    match (a.description, b.description, c.description) {
        (Some(x), Some(y), Some(z)) => {
            lemma_transitive_description(x, y, z);
        },
        _ => {},
    }
    match (a.directives, b.directives, c.directives) {
        (Some(x), Some(y), Some(z)) => {
            lemma_transitive_directives(x, y, z);
        },
        _ => {},
    }
    match (a.member_types, b.member_types, c.member_types) {
        (Some(x), Some(y), Some(z)) => {
            lemma_transitive_union_member_types(x, y, z);
        },
        _ => {},
    }
}

pub proof fn lemma_reflexive_union_member_types(a: UnionMemberTypes)
    ensures
        congruent_union_member_types(a, a),
    decreases a, 0nat,
{
    match a.first {
        Recoverable::Present(x) => {
            lemma_reflexive_named_type(node_of(x));
        },
        _ => {},
    }
    lemma_reflexive_list_punctuator_recoverable_shared_named_type(a.types.0@);
}

pub proof fn lemma_symmetric_union_member_types(a: UnionMemberTypes, b: UnionMemberTypes)
    ensures
        congruent_union_member_types(a, b) == congruent_union_member_types(b, a),
    decreases a, 0nat,
{
    match (a.first, b.first) {
        (Recoverable::Present(x), Recoverable::Present(y)) => {
            lemma_symmetric_named_type(node_of(x), node_of(y));
        },
        _ => {},
    }
    lemma_symmetric_list_punctuator_recoverable_shared_named_type(a.types.0@, b.types.0@);
}

pub proof fn lemma_transitive_union_member_types(a: UnionMemberTypes, b: UnionMemberTypes, c: UnionMemberTypes)
    requires
        congruent_union_member_types(a, b) && congruent_union_member_types(b, c),
    ensures
        congruent_union_member_types(a, c),
    decreases a, 0nat,
{
    match (a.first, b.first, c.first) {
        (Recoverable::Present(x), Recoverable::Present(y), Recoverable::Present(z)) => {
            lemma_transitive_named_type(node_of(x), node_of(y), node_of(z));
        },
        _ => {},
    }
    lemma_transitive_list_punctuator_recoverable_shared_named_type(a.types.0@, b.types.0@, c.types.0@);
}

pub proof fn lemma_reflexive_union_type_extension(a: UnionTypeExtension)
    ensures
        congruent_union_type_extension(a, a),
    decreases a, 0nat,
{
    match a.name {
        Recoverable::Present(x) => {
            lemma_reflexive_named_type(x);
        },
        _ => {},
    }
    match a.directives {
        Some(x) => {
            lemma_reflexive_directives(x);
        },
        _ => {},
    }
    match a.member_types {
        Some(x) => {
            lemma_reflexive_union_member_types(x);
        },
        _ => {},
    }
}

pub proof fn lemma_symmetric_union_type_extension(a: UnionTypeExtension, b: UnionTypeExtension)
    ensures
        congruent_union_type_extension(a, b) == congruent_union_type_extension(b, a),
    decreases a, 0nat,
{
    match (a.name, b.name) {
        (Recoverable::Present(x), Recoverable::Present(y)) => {
            lemma_symmetric_named_type(x, y);
        },
        _ => {},
    }
    match (a.directives, b.directives) {
        (Some(x), Some(y)) => {
            lemma_symmetric_directives(x, y);
        },
        _ => {},
    }
    match (a.member_types, b.member_types) {
        (Some(x), Some(y)) => {
            lemma_symmetric_union_member_types(x, y);
        },
        _ => {},
    }
}

pub proof fn lemma_transitive_union_type_extension(a: UnionTypeExtension, b: UnionTypeExtension, c: UnionTypeExtension)
    requires
        congruent_union_type_extension(a, b) && congruent_union_type_extension(b, c),
    ensures
        congruent_union_type_extension(a, c),
    decreases a, 0nat,
{
    match (a.name, b.name, c.name) {
        (Recoverable::Present(x), Recoverable::Present(y), Recoverable::Present(z)) => {
            lemma_transitive_named_type(x, y, z);
        },
        _ => {},
    }
    match (a.directives, b.directives, c.directives) {
        (Some(x), Some(y), Some(z)) => {
            lemma_transitive_directives(x, y, z);
        },
        _ => {},
    }
    match (a.member_types, b.member_types, c.member_types) {
        (Some(x), Some(y), Some(z)) => {
            lemma_transitive_union_member_types(x, y, z);
        },
        _ => {},
    }
}

pub proof fn lemma_reflexive_enum_type_definition(a: EnumTypeDefinition)
    ensures
        congruent_enum_type_definition(a, a),
    decreases a, 0nat,
{
    match a.description {
        Some(x) => {
            lemma_reflexive_description(x);
        },
        _ => {},
    }
    match a.directives {
        Some(x) => {
            lemma_reflexive_directives(x);
        },
        _ => {},
    }
    match a.values_definition {
        Some(x) => {
            lemma_reflexive_enum_values_definition(x);
        },
        _ => {},
    }
}

pub proof fn lemma_symmetric_enum_type_definition(a: EnumTypeDefinition, b: EnumTypeDefinition)
    ensures
        congruent_enum_type_definition(a, b) == congruent_enum_type_definition(b, a),
    decreases a, 0nat,
{
    match (a.description, b.description) {
        (Some(x), Some(y)) => {
            lemma_symmetric_description(x, y);
        },
        _ => {},
    }
    match (a.directives, b.directives) {
        (Some(x), Some(y)) => {
            lemma_symmetric_directives(x, y);
        },
        _ => {},
    }
    match (a.values_definition, b.values_definition) {
        (Some(x), Some(y)) => {
            lemma_symmetric_enum_values_definition(x, y);
        },
        _ => {},
    }
}

pub proof fn lemma_transitive_enum_type_definition(a: EnumTypeDefinition, b: EnumTypeDefinition, c: EnumTypeDefinition)
    requires
        congruent_enum_type_definition(a, b) && congruent_enum_type_definition(b, c),
    ensures
        congruent_enum_type_definition(a, c),
    decreases a, 0nat,
{
    match (a.description, b.description, c.description) {
        (Some(x), Some(y), Some(z)) => {
            lemma_transitive_description(x, y, z);
        },
        _ => {},
    }
    match (a.directives, b.directives, c.directives) {
        (Some(x), Some(y), Some(z)) => {
            lemma_transitive_directives(x, y, z);
        },
        _ => {},
    }
    match (a.values_definition, b.values_definition, c.values_definition) {
        (Some(x), Some(y), Some(z)) => {
            lemma_transitive_enum_values_definition(x, y, z);
        },
        _ => {},
    }
}

pub proof fn lemma_reflexive_enum_values_definition(a: EnumValuesDefinition)
    ensures
        congruent_enum_values_definition(a, a),
    decreases a, 0nat,
{
    lemma_reflexive_list_shared_enum_value_definition(a.definitions.0@);
}

pub proof fn lemma_symmetric_enum_values_definition(a: EnumValuesDefinition, b: EnumValuesDefinition)
    ensures
        congruent_enum_values_definition(a, b) == congruent_enum_values_definition(b, a),
    decreases a, 0nat,
{
    lemma_symmetric_list_shared_enum_value_definition(a.definitions.0@, b.definitions.0@);
}

pub proof fn lemma_transitive_enum_values_definition(a: EnumValuesDefinition, b: EnumValuesDefinition, c: EnumValuesDefinition)
    requires
        congruent_enum_values_definition(a, b) && congruent_enum_values_definition(b, c),
    ensures
        congruent_enum_values_definition(a, c),
    decreases a, 0nat,
{
    lemma_transitive_list_shared_enum_value_definition(a.definitions.0@, b.definitions.0@, c.definitions.0@);
}

pub proof fn lemma_reflexive_enum_value_definition(a: EnumValueDefinition)
    ensures
        congruent_enum_value_definition(a, a),
    decreases a, 0nat,
{
    match a.description {
        Some(x) => {
            lemma_reflexive_description(x);
        },
        _ => {},
    }
    lemma_reflexive_enum_value(a.enum_value);
    match a.directives {
        Some(x) => {
            lemma_reflexive_directives(x);
        },
        _ => {},
    }
}

pub proof fn lemma_symmetric_enum_value_definition(a: EnumValueDefinition, b: EnumValueDefinition)
    ensures
        congruent_enum_value_definition(a, b) == congruent_enum_value_definition(b, a),
    decreases a, 0nat,
{
    match (a.description, b.description) {
        (Some(x), Some(y)) => {
            lemma_symmetric_description(x, y);
        },
        _ => {},
    }
    lemma_symmetric_enum_value(a.enum_value, b.enum_value);
    match (a.directives, b.directives) {
        (Some(x), Some(y)) => {
            lemma_symmetric_directives(x, y);
        },
        _ => {},
    }
}

pub proof fn lemma_transitive_enum_value_definition(a: EnumValueDefinition, b: EnumValueDefinition, c: EnumValueDefinition)
    requires
        congruent_enum_value_definition(a, b) && congruent_enum_value_definition(b, c),
    ensures
        congruent_enum_value_definition(a, c),
    decreases a, 0nat,
{
    match (a.description, b.description, c.description) {
        (Some(x), Some(y), Some(z)) => {
            lemma_transitive_description(x, y, z);
        },
        _ => {},
    }
    lemma_transitive_enum_value(a.enum_value, b.enum_value, c.enum_value);
    match (a.directives, b.directives, c.directives) {
        (Some(x), Some(y), Some(z)) => {
            lemma_transitive_directives(x, y, z);
        },
        _ => {},
    }
}

pub proof fn lemma_reflexive_enum_type_extension(a: EnumTypeExtension)
    ensures
        congruent_enum_type_extension(a, a),
    decreases a, 0nat,
{
    match a.name {
        Recoverable::Present(x) => {
            lemma_reflexive_named_type(x);
        },
        _ => {},
    }
    match a.directives {
        Some(x) => {
            lemma_reflexive_directives(x);
        },
        _ => {},
    }
    match a.values_definition {
        Some(x) => {
            lemma_reflexive_enum_values_definition(x);
        },
        _ => {},
    }
}

pub proof fn lemma_symmetric_enum_type_extension(a: EnumTypeExtension, b: EnumTypeExtension)
    ensures
        congruent_enum_type_extension(a, b) == congruent_enum_type_extension(b, a),
    decreases a, 0nat,
{
    match (a.name, b.name) {
        (Recoverable::Present(x), Recoverable::Present(y)) => {
            lemma_symmetric_named_type(x, y);
        },
        _ => {},
    }
    match (a.directives, b.directives) {
        (Some(x), Some(y)) => {
            lemma_symmetric_directives(x, y);
        },
        _ => {},
    }
    match (a.values_definition, b.values_definition) {
        (Some(x), Some(y)) => {
            lemma_symmetric_enum_values_definition(x, y);
        },
        _ => {},
    }
}

pub proof fn lemma_transitive_enum_type_extension(a: EnumTypeExtension, b: EnumTypeExtension, c: EnumTypeExtension)
    requires
        congruent_enum_type_extension(a, b) && congruent_enum_type_extension(b, c),
    ensures
        congruent_enum_type_extension(a, c),
    decreases a, 0nat,
{
    match (a.name, b.name, c.name) {
        (Recoverable::Present(x), Recoverable::Present(y), Recoverable::Present(z)) => {
            lemma_transitive_named_type(x, y, z);
        },
        _ => {},
    }
    match (a.directives, b.directives, c.directives) {
        (Some(x), Some(y), Some(z)) => {
            lemma_transitive_directives(x, y, z);
        },
        _ => {},
    }
    match (a.values_definition, b.values_definition, c.values_definition) {
        (Some(x), Some(y), Some(z)) => {
            lemma_transitive_enum_values_definition(x, y, z);
        },
        _ => {},
    }
}

pub proof fn lemma_reflexive_input_object_type_definition(a: InputObjectTypeDefinition)
    ensures
        congruent_input_object_type_definition(a, a),
    decreases a, 0nat,
{
    match a.description {
        Some(x) => {
            lemma_reflexive_description(x);
        },
        _ => {},
    }
    match a.directives {
        Some(x) => {
            lemma_reflexive_directives(x);
        },
        _ => {},
    }
    match a.fields_definition {
        Some(x) => {
            lemma_reflexive_input_fields_definition(x);
        },
        _ => {},
    }
}

pub proof fn lemma_symmetric_input_object_type_definition(a: InputObjectTypeDefinition, b: InputObjectTypeDefinition)
    ensures
        congruent_input_object_type_definition(a, b) == congruent_input_object_type_definition(b, a),
    decreases a, 0nat,
{
    match (a.description, b.description) {
        (Some(x), Some(y)) => {
            lemma_symmetric_description(x, y);
        },
        _ => {},
    }
    match (a.directives, b.directives) {
        (Some(x), Some(y)) => {
            lemma_symmetric_directives(x, y);
        },
        _ => {},
    }
    match (a.fields_definition, b.fields_definition) {
        (Some(x), Some(y)) => {
            lemma_symmetric_input_fields_definition(x, y);
        },
        _ => {},
    }
}

pub proof fn lemma_transitive_input_object_type_definition(a: InputObjectTypeDefinition, b: InputObjectTypeDefinition, c: InputObjectTypeDefinition)
    requires
        congruent_input_object_type_definition(a, b) && congruent_input_object_type_definition(b, c),
    ensures
        congruent_input_object_type_definition(a, c),
    decreases a, 0nat,
{
    match (a.description, b.description, c.description) {
        (Some(x), Some(y), Some(z)) => {
            lemma_transitive_description(x, y, z);
        },
        _ => {},
    }
    match (a.directives, b.directives, c.directives) {
        (Some(x), Some(y), Some(z)) => {
            lemma_transitive_directives(x, y, z);
        },
        _ => {},
    }
    match (a.fields_definition, b.fields_definition, c.fields_definition) {
        (Some(x), Some(y), Some(z)) => {
            lemma_transitive_input_fields_definition(x, y, z);
        },
        _ => {},
    }
}

pub proof fn lemma_reflexive_input_fields_definition(a: InputFieldsDefinition)
    ensures
        congruent_input_fields_definition(a, a),
    decreases a, 0nat,
{
    lemma_reflexive_list_shared_input_value_definition(a.definitions.0@);
}

pub proof fn lemma_symmetric_input_fields_definition(a: InputFieldsDefinition, b: InputFieldsDefinition)
    ensures
        congruent_input_fields_definition(a, b) == congruent_input_fields_definition(b, a),
    decreases a, 0nat,
{
    lemma_symmetric_list_shared_input_value_definition(a.definitions.0@, b.definitions.0@);
}

pub proof fn lemma_transitive_input_fields_definition(a: InputFieldsDefinition, b: InputFieldsDefinition, c: InputFieldsDefinition)
    requires
        congruent_input_fields_definition(a, b) && congruent_input_fields_definition(b, c),
    ensures
        congruent_input_fields_definition(a, c),
    decreases a, 0nat,
{
    lemma_transitive_list_shared_input_value_definition(a.definitions.0@, b.definitions.0@, c.definitions.0@);
}

pub proof fn lemma_reflexive_input_object_type_extension(a: InputObjectTypeExtension)
    ensures
        congruent_input_object_type_extension(a, a),
    decreases a, 0nat,
{
    match a.name {
        Recoverable::Present(x) => {
            lemma_reflexive_named_type(x);
        },
        _ => {},
    }
    match a.directives {
        Some(x) => {
            lemma_reflexive_directives(x);
        },
        _ => {},
    }
    match a.fields_definition {
        Some(x) => {
            lemma_reflexive_input_fields_definition(x);
        },
        _ => {},
    }
}

pub proof fn lemma_symmetric_input_object_type_extension(a: InputObjectTypeExtension, b: InputObjectTypeExtension)
    ensures
        congruent_input_object_type_extension(a, b) == congruent_input_object_type_extension(b, a),
    decreases a, 0nat,
{
    match (a.name, b.name) {
        (Recoverable::Present(x), Recoverable::Present(y)) => {
            lemma_symmetric_named_type(x, y);
        },
        _ => {},
    }
    match (a.directives, b.directives) {
        (Some(x), Some(y)) => {
            lemma_symmetric_directives(x, y);
        },
        _ => {},
    }
    match (a.fields_definition, b.fields_definition) {
        (Some(x), Some(y)) => {
            lemma_symmetric_input_fields_definition(x, y);
        },
        _ => {},
    }
}

pub proof fn lemma_transitive_input_object_type_extension(a: InputObjectTypeExtension, b: InputObjectTypeExtension, c: InputObjectTypeExtension)
    requires
        congruent_input_object_type_extension(a, b) && congruent_input_object_type_extension(b, c),
    ensures
        congruent_input_object_type_extension(a, c),
    decreases a, 0nat,
{
    match (a.name, b.name, c.name) {
        (Recoverable::Present(x), Recoverable::Present(y), Recoverable::Present(z)) => {
            lemma_transitive_named_type(x, y, z);
        },
        _ => {},
    }
    match (a.directives, b.directives, c.directives) {
        (Some(x), Some(y), Some(z)) => {
            lemma_transitive_directives(x, y, z);
        },
        _ => {},
    }
    match (a.fields_definition, b.fields_definition, c.fields_definition) {
        (Some(x), Some(y), Some(z)) => {
            lemma_transitive_input_fields_definition(x, y, z);
        },
        _ => {},
    }
}

pub proof fn lemma_reflexive_directive_definition(a: DirectiveDefinition)
    ensures
        congruent_directive_definition(a, a),
    decreases a, 0nat,
{
    match a.description {
        Some(x) => {
            lemma_reflexive_description(x);
        },
        _ => {},
    }
    match a.arguments_definition {
        Some(x) => {
            lemma_reflexive_arguments_definition(node_of(x));
        },
        _ => {},
    }
    match a.locations {
        Recoverable::Present(x) => {
            lemma_reflexive_directive_locations(x);
        },
        _ => {},
    }
}

pub proof fn lemma_symmetric_directive_definition(a: DirectiveDefinition, b: DirectiveDefinition)
    ensures
        congruent_directive_definition(a, b) == congruent_directive_definition(b, a),
    decreases a, 0nat,
{
    match (a.description, b.description) {
        (Some(x), Some(y)) => {
            lemma_symmetric_description(x, y);
        },
        _ => {},
    }
    match (a.arguments_definition, b.arguments_definition) {
        (Some(x), Some(y)) => {
            lemma_symmetric_arguments_definition(node_of(x), node_of(y));
        },
        _ => {},
    }
    match (a.locations, b.locations) {
        (Recoverable::Present(x), Recoverable::Present(y)) => {
            lemma_symmetric_directive_locations(x, y);
        },
        _ => {},
    }
}

pub proof fn lemma_transitive_directive_definition(a: DirectiveDefinition, b: DirectiveDefinition, c: DirectiveDefinition)
    requires
        congruent_directive_definition(a, b) && congruent_directive_definition(b, c),
    ensures
        congruent_directive_definition(a, c),
    decreases a, 0nat,
{
    match (a.description, b.description, c.description) {
        (Some(x), Some(y), Some(z)) => {
            lemma_transitive_description(x, y, z);
        },
        _ => {},
    }
    match (a.arguments_definition, b.arguments_definition, c.arguments_definition) {
        (Some(x), Some(y), Some(z)) => {
            lemma_transitive_arguments_definition(node_of(x), node_of(y), node_of(z));
        },
        _ => {},
    }
    match (a.locations, b.locations, c.locations) {
        (Recoverable::Present(x), Recoverable::Present(y), Recoverable::Present(z)) => {
            lemma_transitive_directive_locations(x, y, z);
        },
        _ => {},
    }
}

pub proof fn lemma_reflexive_directive_locations(a: DirectiveLocations)
    ensures
        congruent_directive_locations(a, a),
    decreases a, 0nat,
{
    match a.first {
        Recoverable::Present(x) => {
            lemma_reflexive_directive_location(x);
        },
        _ => {},
    }
    lemma_reflexive_list_punctuator_recoverable_directive_location(a.locations.0@);
}

pub proof fn lemma_symmetric_directive_locations(a: DirectiveLocations, b: DirectiveLocations)
    ensures
        congruent_directive_locations(a, b) == congruent_directive_locations(b, a),
    decreases a, 0nat,
{
    match (a.first, b.first) {
        (Recoverable::Present(x), Recoverable::Present(y)) => {
            lemma_symmetric_directive_location(x, y);
        },
        _ => {},
    }
    lemma_symmetric_list_punctuator_recoverable_directive_location(a.locations.0@, b.locations.0@);
}

pub proof fn lemma_transitive_directive_locations(a: DirectiveLocations, b: DirectiveLocations, c: DirectiveLocations)
    requires
        congruent_directive_locations(a, b) && congruent_directive_locations(b, c),
    ensures
        congruent_directive_locations(a, c),
    decreases a, 0nat,
{
    match (a.first, b.first, c.first) {
        (Recoverable::Present(x), Recoverable::Present(y), Recoverable::Present(z)) => {
            lemma_transitive_directive_location(x, y, z);
        },
        _ => {},
    }
    lemma_transitive_list_punctuator_recoverable_directive_location(a.locations.0@, b.locations.0@, c.locations.0@);
}

pub proof fn lemma_reflexive_directive_location(a: DirectiveLocation)
    ensures
        congruent_directive_location(a, a),
    decreases a, 0nat,
{
    match (a) {
        (DirectiveLocation::ExecutableDirectiveLocation(x)) => {
            lemma_reflexive_executable_directive_location(x);
        },
        (DirectiveLocation::TypeSystemDirectiveLocation(x)) => {
            lemma_reflexive_type_system_directive_location(x);
        },
    }
}

pub proof fn lemma_symmetric_directive_location(a: DirectiveLocation, b: DirectiveLocation)
    ensures
        congruent_directive_location(a, b) == congruent_directive_location(b, a),
    decreases a, 0nat,
{
    match (a, b) {
        (DirectiveLocation::ExecutableDirectiveLocation(x), DirectiveLocation::ExecutableDirectiveLocation(y)) => {
            lemma_symmetric_executable_directive_location(x, y);
        },
        (DirectiveLocation::TypeSystemDirectiveLocation(x), DirectiveLocation::TypeSystemDirectiveLocation(y)) => {
            lemma_symmetric_type_system_directive_location(x, y);
        },
        _ => {},
    }
}

pub proof fn lemma_transitive_directive_location(a: DirectiveLocation, b: DirectiveLocation, c: DirectiveLocation)
    requires
        congruent_directive_location(a, b) && congruent_directive_location(b, c),
    ensures
        congruent_directive_location(a, c),
    decreases a, 0nat,
{
    match (a, b, c) {
        (DirectiveLocation::ExecutableDirectiveLocation(x), DirectiveLocation::ExecutableDirectiveLocation(y), DirectiveLocation::ExecutableDirectiveLocation(z)) => {
            lemma_transitive_executable_directive_location(x, y, z);
        },
        (DirectiveLocation::TypeSystemDirectiveLocation(x), DirectiveLocation::TypeSystemDirectiveLocation(y), DirectiveLocation::TypeSystemDirectiveLocation(z)) => {
            lemma_transitive_type_system_directive_location(x, y, z);
        },
        _ => {},
    }
}

pub proof fn lemma_reflexive_executable_directive_location(a: ExecutableDirectiveLocation)
    ensures
        congruent_executable_directive_location(a, a),
    decreases a, 0nat,
{
    match (a) {
        (ExecutableDirectiveLocation::Query(x)) => {
        },
        (ExecutableDirectiveLocation::Mutation(x)) => {
        },
        (ExecutableDirectiveLocation::Subscription(x)) => {
        },
        (ExecutableDirectiveLocation::Field(x)) => {
        },
        (ExecutableDirectiveLocation::FragmentDefinition(x)) => {
        },
        (ExecutableDirectiveLocation::FragmentSpread(x)) => {
        },
        (ExecutableDirectiveLocation::InlineFragment(x)) => {
        },
        (ExecutableDirectiveLocation::VariableDefinition(x)) => {
        },
    }
}

pub proof fn lemma_symmetric_executable_directive_location(a: ExecutableDirectiveLocation, b: ExecutableDirectiveLocation)
    ensures
        congruent_executable_directive_location(a, b) == congruent_executable_directive_location(b, a),
    decreases a, 0nat,
{
    match (a, b) {
        (ExecutableDirectiveLocation::Query(x), ExecutableDirectiveLocation::Query(y)) => {
        },
        (ExecutableDirectiveLocation::Mutation(x), ExecutableDirectiveLocation::Mutation(y)) => {
        },
        (ExecutableDirectiveLocation::Subscription(x), ExecutableDirectiveLocation::Subscription(y)) => {
        },
        (ExecutableDirectiveLocation::Field(x), ExecutableDirectiveLocation::Field(y)) => {
        },
        (ExecutableDirectiveLocation::FragmentDefinition(x), ExecutableDirectiveLocation::FragmentDefinition(y)) => {
        },
        (ExecutableDirectiveLocation::FragmentSpread(x), ExecutableDirectiveLocation::FragmentSpread(y)) => {
        },
        (ExecutableDirectiveLocation::InlineFragment(x), ExecutableDirectiveLocation::InlineFragment(y)) => {
        },
        (ExecutableDirectiveLocation::VariableDefinition(x), ExecutableDirectiveLocation::VariableDefinition(y)) => {
        },
        _ => {},
    }
}

pub proof fn lemma_transitive_executable_directive_location(a: ExecutableDirectiveLocation, b: ExecutableDirectiveLocation, c: ExecutableDirectiveLocation)
    requires
        congruent_executable_directive_location(a, b) && congruent_executable_directive_location(b, c),
    ensures
        congruent_executable_directive_location(a, c),
    decreases a, 0nat,
{
    match (a, b, c) {
        (ExecutableDirectiveLocation::Query(x), ExecutableDirectiveLocation::Query(y), ExecutableDirectiveLocation::Query(z)) => {
        },
        (ExecutableDirectiveLocation::Mutation(x), ExecutableDirectiveLocation::Mutation(y), ExecutableDirectiveLocation::Mutation(z)) => {
        },
        (ExecutableDirectiveLocation::Subscription(x), ExecutableDirectiveLocation::Subscription(y), ExecutableDirectiveLocation::Subscription(z)) => {
        },
        (ExecutableDirectiveLocation::Field(x), ExecutableDirectiveLocation::Field(y), ExecutableDirectiveLocation::Field(z)) => {
        },
        (ExecutableDirectiveLocation::FragmentDefinition(x), ExecutableDirectiveLocation::FragmentDefinition(y), ExecutableDirectiveLocation::FragmentDefinition(z)) => {
        },
        (ExecutableDirectiveLocation::FragmentSpread(x), ExecutableDirectiveLocation::FragmentSpread(y), ExecutableDirectiveLocation::FragmentSpread(z)) => {
        },
        (ExecutableDirectiveLocation::InlineFragment(x), ExecutableDirectiveLocation::InlineFragment(y), ExecutableDirectiveLocation::InlineFragment(z)) => {
        },
        (ExecutableDirectiveLocation::VariableDefinition(x), ExecutableDirectiveLocation::VariableDefinition(y), ExecutableDirectiveLocation::VariableDefinition(z)) => {
        },
        _ => {},
    }
}

pub proof fn lemma_reflexive_type_system_directive_location(a: TypeSystemDirectiveLocation)
    ensures
        congruent_type_system_directive_location(a, a),
    decreases a, 0nat,
{
    match (a) {
        (TypeSystemDirectiveLocation::Schema(x)) => {
        },
        (TypeSystemDirectiveLocation::Scalar(x)) => {
        },
        (TypeSystemDirectiveLocation::Object(x)) => {
        },
        (TypeSystemDirectiveLocation::FieldDefinition(x)) => {
        },
        (TypeSystemDirectiveLocation::ArgumentDefinition(x)) => {
        },
        (TypeSystemDirectiveLocation::Interface(x)) => {
        },
        (TypeSystemDirectiveLocation::Union(x)) => {
        },
        (TypeSystemDirectiveLocation::Enum(x)) => {
        },
        (TypeSystemDirectiveLocation::EnumValue(x)) => {
        },
        (TypeSystemDirectiveLocation::InputObject(x)) => {
        },
        (TypeSystemDirectiveLocation::InputFieldDefinition(x)) => {
        },
    }
}

pub proof fn lemma_symmetric_type_system_directive_location(a: TypeSystemDirectiveLocation, b: TypeSystemDirectiveLocation)
    ensures
        congruent_type_system_directive_location(a, b) == congruent_type_system_directive_location(b, a),
    decreases a, 0nat,
{
    match (a, b) {
        (TypeSystemDirectiveLocation::Schema(x), TypeSystemDirectiveLocation::Schema(y)) => {
        },
        (TypeSystemDirectiveLocation::Scalar(x), TypeSystemDirectiveLocation::Scalar(y)) => {
        },
        (TypeSystemDirectiveLocation::Object(x), TypeSystemDirectiveLocation::Object(y)) => {
        },
        (TypeSystemDirectiveLocation::FieldDefinition(x), TypeSystemDirectiveLocation::FieldDefinition(y)) => {
        },
        (TypeSystemDirectiveLocation::ArgumentDefinition(x), TypeSystemDirectiveLocation::ArgumentDefinition(y)) => {
        },
        (TypeSystemDirectiveLocation::Interface(x), TypeSystemDirectiveLocation::Interface(y)) => {
        },
        (TypeSystemDirectiveLocation::Union(x), TypeSystemDirectiveLocation::Union(y)) => {
        },
        (TypeSystemDirectiveLocation::Enum(x), TypeSystemDirectiveLocation::Enum(y)) => {
        },
        (TypeSystemDirectiveLocation::EnumValue(x), TypeSystemDirectiveLocation::EnumValue(y)) => {
        },
        (TypeSystemDirectiveLocation::InputObject(x), TypeSystemDirectiveLocation::InputObject(y)) => {
        },
        (TypeSystemDirectiveLocation::InputFieldDefinition(x), TypeSystemDirectiveLocation::InputFieldDefinition(y)) => {
        },
        _ => {},
    }
}

pub proof fn lemma_transitive_type_system_directive_location(a: TypeSystemDirectiveLocation, b: TypeSystemDirectiveLocation, c: TypeSystemDirectiveLocation)
    requires
        congruent_type_system_directive_location(a, b) && congruent_type_system_directive_location(b, c),
    ensures
        congruent_type_system_directive_location(a, c),
    decreases a, 0nat,
{
    match (a, b, c) {
        (TypeSystemDirectiveLocation::Schema(x), TypeSystemDirectiveLocation::Schema(y), TypeSystemDirectiveLocation::Schema(z)) => {
        },
        (TypeSystemDirectiveLocation::Scalar(x), TypeSystemDirectiveLocation::Scalar(y), TypeSystemDirectiveLocation::Scalar(z)) => {
        },
        (TypeSystemDirectiveLocation::Object(x), TypeSystemDirectiveLocation::Object(y), TypeSystemDirectiveLocation::Object(z)) => {
        },
        (TypeSystemDirectiveLocation::FieldDefinition(x), TypeSystemDirectiveLocation::FieldDefinition(y), TypeSystemDirectiveLocation::FieldDefinition(z)) => {
        },
        (TypeSystemDirectiveLocation::ArgumentDefinition(x), TypeSystemDirectiveLocation::ArgumentDefinition(y), TypeSystemDirectiveLocation::ArgumentDefinition(z)) => {
        },
        (TypeSystemDirectiveLocation::Interface(x), TypeSystemDirectiveLocation::Interface(y), TypeSystemDirectiveLocation::Interface(z)) => {
        },
        (TypeSystemDirectiveLocation::Union(x), TypeSystemDirectiveLocation::Union(y), TypeSystemDirectiveLocation::Union(z)) => {
        },
        (TypeSystemDirectiveLocation::Enum(x), TypeSystemDirectiveLocation::Enum(y), TypeSystemDirectiveLocation::Enum(z)) => {
        },
        (TypeSystemDirectiveLocation::EnumValue(x), TypeSystemDirectiveLocation::EnumValue(y), TypeSystemDirectiveLocation::EnumValue(z)) => {
        },
        (TypeSystemDirectiveLocation::InputObject(x), TypeSystemDirectiveLocation::InputObject(y), TypeSystemDirectiveLocation::InputObject(z)) => {
        },
        (TypeSystemDirectiveLocation::InputFieldDefinition(x), TypeSystemDirectiveLocation::InputFieldDefinition(y), TypeSystemDirectiveLocation::InputFieldDefinition(z)) => {
        },
        _ => {},
    }
}

pub proof fn lemma_reflexive_list_shared_definition(s: Seq<Shared<Definition>>)
    ensures
        congruent_list_shared_definition(s, s),
    decreases s, 1nat,
{
    if s.len() > 0 {
        lemma_reflexive_list_shared_definition(s.drop_last());
        lemma_reflexive_definition(node_of(s.last()));
    }
}

pub proof fn lemma_symmetric_list_shared_definition(s: Seq<Shared<Definition>>, t: Seq<Shared<Definition>>)
    ensures
        congruent_list_shared_definition(s, t) == congruent_list_shared_definition(t, s),
    decreases s, 1nat,
{
    if s.len() > 0 && s.len() == t.len() {
        lemma_symmetric_list_shared_definition(s.drop_last(), t.drop_last());
        lemma_symmetric_definition(node_of(s.last()), node_of(t.last()));
    }
}

pub proof fn lemma_transitive_list_shared_definition(s: Seq<Shared<Definition>>, t: Seq<Shared<Definition>>, u: Seq<Shared<Definition>>)
    requires
        congruent_list_shared_definition(s, t) && congruent_list_shared_definition(t, u),
    ensures
        congruent_list_shared_definition(s, u),
    decreases s, 1nat,
{
    if s.len() > 0 && s.len() == t.len() {
        lemma_transitive_list_shared_definition(s.drop_last(), t.drop_last(), u.drop_last());
        lemma_transitive_definition(node_of(s.last()), node_of(t.last()), node_of(u.last()));
    }
}

pub proof fn lemma_reflexive_list_punctuator_recoverable_shared_named_type(s: Seq<(Punctuator, Recoverable<Shared<NamedType>>)>)
    ensures
        congruent_list_punctuator_recoverable_shared_named_type(s, s),
    decreases s, 1nat,
{
    if s.len() > 0 {
        lemma_reflexive_list_punctuator_recoverable_shared_named_type(s.drop_last());
        match s.last().1 {
            Recoverable::Present(x) => {
                lemma_reflexive_named_type(node_of(x));
            },
            _ => {},
        }
    }
}

pub proof fn lemma_symmetric_list_punctuator_recoverable_shared_named_type(s: Seq<(Punctuator, Recoverable<Shared<NamedType>>)>, t: Seq<(Punctuator, Recoverable<Shared<NamedType>>)>)
    ensures
        congruent_list_punctuator_recoverable_shared_named_type(s, t) == congruent_list_punctuator_recoverable_shared_named_type(t, s),
    decreases s, 1nat,
{
    if s.len() > 0 && s.len() == t.len() {
        lemma_symmetric_list_punctuator_recoverable_shared_named_type(s.drop_last(), t.drop_last());
        match (s.last().1, t.last().1) {
            (Recoverable::Present(x), Recoverable::Present(y)) => {
                lemma_symmetric_named_type(node_of(x), node_of(y));
            },
            _ => {},
        }
    }
}

pub proof fn lemma_transitive_list_punctuator_recoverable_shared_named_type(s: Seq<(Punctuator, Recoverable<Shared<NamedType>>)>, t: Seq<(Punctuator, Recoverable<Shared<NamedType>>)>, u: Seq<(Punctuator, Recoverable<Shared<NamedType>>)>)
    requires
        congruent_list_punctuator_recoverable_shared_named_type(s, t) && congruent_list_punctuator_recoverable_shared_named_type(t, u),
    ensures
        congruent_list_punctuator_recoverable_shared_named_type(s, u),
    decreases s, 1nat,
{
    if s.len() > 0 && s.len() == t.len() {
        lemma_transitive_list_punctuator_recoverable_shared_named_type(s.drop_last(), t.drop_last(), u.drop_last());
        match (s.last().1, t.last().1, u.last().1) {
            (Recoverable::Present(x), Recoverable::Present(y), Recoverable::Present(z)) => {
                lemma_transitive_named_type(node_of(x), node_of(y), node_of(z));
            },
            _ => {},
        }
    }
}

pub proof fn lemma_reflexive_list_shared_enum_value_definition(s: Seq<Shared<EnumValueDefinition>>)
    ensures
        congruent_list_shared_enum_value_definition(s, s),
    decreases s, 1nat,
{
    if s.len() > 0 {
        lemma_reflexive_list_shared_enum_value_definition(s.drop_last());
        lemma_reflexive_enum_value_definition(node_of(s.last()));
    }
}

pub proof fn lemma_symmetric_list_shared_enum_value_definition(s: Seq<Shared<EnumValueDefinition>>, t: Seq<Shared<EnumValueDefinition>>)
    ensures
        congruent_list_shared_enum_value_definition(s, t) == congruent_list_shared_enum_value_definition(t, s),
    decreases s, 1nat,
{
    if s.len() > 0 && s.len() == t.len() {
        lemma_symmetric_list_shared_enum_value_definition(s.drop_last(), t.drop_last());
        lemma_symmetric_enum_value_definition(node_of(s.last()), node_of(t.last()));
    }
}

pub proof fn lemma_transitive_list_shared_enum_value_definition(s: Seq<Shared<EnumValueDefinition>>, t: Seq<Shared<EnumValueDefinition>>, u: Seq<Shared<EnumValueDefinition>>)
    requires
        congruent_list_shared_enum_value_definition(s, t) && congruent_list_shared_enum_value_definition(t, u),
    ensures
        congruent_list_shared_enum_value_definition(s, u),
    decreases s, 1nat,
{
    if s.len() > 0 && s.len() == t.len() {
        lemma_transitive_list_shared_enum_value_definition(s.drop_last(), t.drop_last(), u.drop_last());
        lemma_transitive_enum_value_definition(node_of(s.last()), node_of(t.last()), node_of(u.last()));
    }
}

pub proof fn lemma_reflexive_list_type_system_definition(s: Seq<TypeSystemDefinition>)
    ensures
        congruent_list_type_system_definition(s, s),
    decreases s, 1nat,
{
    if s.len() > 0 {
        lemma_reflexive_list_type_system_definition(s.drop_last());
        lemma_reflexive_type_system_definition(s.last());
    }
}

pub proof fn lemma_symmetric_list_type_system_definition(s: Seq<TypeSystemDefinition>, t: Seq<TypeSystemDefinition>)
    ensures
        congruent_list_type_system_definition(s, t) == congruent_list_type_system_definition(t, s),
    decreases s, 1nat,
{
    if s.len() > 0 && s.len() == t.len() {
        lemma_symmetric_list_type_system_definition(s.drop_last(), t.drop_last());
        lemma_symmetric_type_system_definition(s.last(), t.last());
    }
}

pub proof fn lemma_transitive_list_type_system_definition(s: Seq<TypeSystemDefinition>, t: Seq<TypeSystemDefinition>, u: Seq<TypeSystemDefinition>)
    requires
        congruent_list_type_system_definition(s, t) && congruent_list_type_system_definition(t, u),
    ensures
        congruent_list_type_system_definition(s, u),
    decreases s, 1nat,
{
    if s.len() > 0 && s.len() == t.len() {
        lemma_transitive_list_type_system_definition(s.drop_last(), t.drop_last(), u.drop_last());
        lemma_transitive_type_system_definition(s.last(), t.last(), u.last());
    }
}

pub proof fn lemma_reflexive_list_shared_input_value_definition(s: Seq<Shared<InputValueDefinition>>)
    ensures
        congruent_list_shared_input_value_definition(s, s),
    decreases s, 1nat,
{
    if s.len() > 0 {
        lemma_reflexive_list_shared_input_value_definition(s.drop_last());
        lemma_reflexive_input_value_definition(node_of(s.last()));
    }
}

pub proof fn lemma_symmetric_list_shared_input_value_definition(s: Seq<Shared<InputValueDefinition>>, t: Seq<Shared<InputValueDefinition>>)
    ensures
        congruent_list_shared_input_value_definition(s, t) == congruent_list_shared_input_value_definition(t, s),
    decreases s, 1nat,
{
    if s.len() > 0 && s.len() == t.len() {
        lemma_symmetric_list_shared_input_value_definition(s.drop_last(), t.drop_last());
        lemma_symmetric_input_value_definition(node_of(s.last()), node_of(t.last()));
    }
}

pub proof fn lemma_transitive_list_shared_input_value_definition(s: Seq<Shared<InputValueDefinition>>, t: Seq<Shared<InputValueDefinition>>, u: Seq<Shared<InputValueDefinition>>)
    requires
        congruent_list_shared_input_value_definition(s, t) && congruent_list_shared_input_value_definition(t, u),
    ensures
        congruent_list_shared_input_value_definition(s, u),
    decreases s, 1nat,
{
    if s.len() > 0 && s.len() == t.len() {
        lemma_transitive_list_shared_input_value_definition(s.drop_last(), t.drop_last(), u.drop_last());
        lemma_transitive_input_value_definition(node_of(s.last()), node_of(t.last()), node_of(u.last()));
    }
}

pub proof fn lemma_reflexive_list_type_system_definition_or_extension(s: Seq<TypeSystemDefinitionOrExtension>)
    ensures
        congruent_list_type_system_definition_or_extension(s, s),
    decreases s, 1nat,
{
    if s.len() > 0 {
        lemma_reflexive_list_type_system_definition_or_extension(s.drop_last());
        lemma_reflexive_type_system_definition_or_extension(s.last());
    }
}

pub proof fn lemma_symmetric_list_type_system_definition_or_extension(s: Seq<TypeSystemDefinitionOrExtension>, t: Seq<TypeSystemDefinitionOrExtension>)
    ensures
        congruent_list_type_system_definition_or_extension(s, t) == congruent_list_type_system_definition_or_extension(t, s),
    decreases s, 1nat,
{
    if s.len() > 0 && s.len() == t.len() {
        lemma_symmetric_list_type_system_definition_or_extension(s.drop_last(), t.drop_last());
        lemma_symmetric_type_system_definition_or_extension(s.last(), t.last());
    }
}

pub proof fn lemma_transitive_list_type_system_definition_or_extension(s: Seq<TypeSystemDefinitionOrExtension>, t: Seq<TypeSystemDefinitionOrExtension>, u: Seq<TypeSystemDefinitionOrExtension>)
    requires
        congruent_list_type_system_definition_or_extension(s, t) && congruent_list_type_system_definition_or_extension(t, u),
    ensures
        congruent_list_type_system_definition_or_extension(s, u),
    decreases s, 1nat,
{
    if s.len() > 0 && s.len() == t.len() {
        lemma_transitive_list_type_system_definition_or_extension(s.drop_last(), t.drop_last(), u.drop_last());
        lemma_transitive_type_system_definition_or_extension(s.last(), t.last(), u.last());
    }
}

pub proof fn lemma_reflexive_list_selection(s: Seq<Selection>)
    ensures
        congruent_list_selection(s, s),
    decreases s, 1nat,
{
    if s.len() > 0 {
        lemma_reflexive_list_selection(s.drop_last());
        lemma_reflexive_selection(s.last());
    }
}

pub proof fn lemma_symmetric_list_selection(s: Seq<Selection>, t: Seq<Selection>)
    ensures
        congruent_list_selection(s, t) == congruent_list_selection(t, s),
    decreases s, 1nat,
{
    if s.len() > 0 && s.len() == t.len() {
        lemma_symmetric_list_selection(s.drop_last(), t.drop_last());
        lemma_symmetric_selection(s.last(), t.last());
    }
}

pub proof fn lemma_transitive_list_selection(s: Seq<Selection>, t: Seq<Selection>, u: Seq<Selection>)
    requires
        congruent_list_selection(s, t) && congruent_list_selection(t, u),
    ensures
        congruent_list_selection(s, u),
    decreases s, 1nat,
{
    if s.len() > 0 && s.len() == t.len() {
        lemma_transitive_list_selection(s.drop_last(), t.drop_last(), u.drop_last());
        lemma_transitive_selection(s.last(), t.last(), u.last());
    }
}

pub proof fn lemma_reflexive_list_shared_variable_definition(s: Seq<Shared<VariableDefinition>>)
    ensures
        congruent_list_shared_variable_definition(s, s),
    decreases s, 1nat,
{
    if s.len() > 0 {
        lemma_reflexive_list_shared_variable_definition(s.drop_last());
        lemma_reflexive_variable_definition(node_of(s.last()));
    }
}

pub proof fn lemma_symmetric_list_shared_variable_definition(s: Seq<Shared<VariableDefinition>>, t: Seq<Shared<VariableDefinition>>)
    ensures
        congruent_list_shared_variable_definition(s, t) == congruent_list_shared_variable_definition(t, s),
    decreases s, 1nat,
{
    if s.len() > 0 && s.len() == t.len() {
        lemma_symmetric_list_shared_variable_definition(s.drop_last(), t.drop_last());
        lemma_symmetric_variable_definition(node_of(s.last()), node_of(t.last()));
    }
}

pub proof fn lemma_transitive_list_shared_variable_definition(s: Seq<Shared<VariableDefinition>>, t: Seq<Shared<VariableDefinition>>, u: Seq<Shared<VariableDefinition>>)
    requires
        congruent_list_shared_variable_definition(s, t) && congruent_list_shared_variable_definition(t, u),
    ensures
        congruent_list_shared_variable_definition(s, u),
    decreases s, 1nat,
{
    if s.len() > 0 && s.len() == t.len() {
        lemma_transitive_list_shared_variable_definition(s.drop_last(), t.drop_last(), u.drop_last());
        lemma_transitive_variable_definition(node_of(s.last()), node_of(t.last()), node_of(u.last()));
    }
}

pub proof fn lemma_reflexive_list_root_operation_type_definition(s: Seq<RootOperationTypeDefinition>)
    ensures
        congruent_list_root_operation_type_definition(s, s),
    decreases s, 1nat,
{
    if s.len() > 0 {
        lemma_reflexive_list_root_operation_type_definition(s.drop_last());
        lemma_reflexive_root_operation_type_definition(s.last());
    }
}

pub proof fn lemma_symmetric_list_root_operation_type_definition(s: Seq<RootOperationTypeDefinition>, t: Seq<RootOperationTypeDefinition>)
    ensures
        congruent_list_root_operation_type_definition(s, t) == congruent_list_root_operation_type_definition(t, s),
    decreases s, 1nat,
{
    if s.len() > 0 && s.len() == t.len() {
        lemma_symmetric_list_root_operation_type_definition(s.drop_last(), t.drop_last());
        lemma_symmetric_root_operation_type_definition(s.last(), t.last());
    }
}

pub proof fn lemma_transitive_list_root_operation_type_definition(s: Seq<RootOperationTypeDefinition>, t: Seq<RootOperationTypeDefinition>, u: Seq<RootOperationTypeDefinition>)
    requires
        congruent_list_root_operation_type_definition(s, t) && congruent_list_root_operation_type_definition(t, u),
    ensures
        congruent_list_root_operation_type_definition(s, u),
    decreases s, 1nat,
{
    if s.len() > 0 && s.len() == t.len() {
        lemma_transitive_list_root_operation_type_definition(s.drop_last(), t.drop_last(), u.drop_last());
        lemma_transitive_root_operation_type_definition(s.last(), t.last(), u.last());
    }
}

pub proof fn lemma_reflexive_list_shared_argument(s: Seq<Shared<Argument>>)
    ensures
        congruent_list_shared_argument(s, s),
    decreases s, 1nat,
{
    if s.len() > 0 {
        lemma_reflexive_list_shared_argument(s.drop_last());
        lemma_reflexive_argument(node_of(s.last()));
    }
}

pub proof fn lemma_symmetric_list_shared_argument(s: Seq<Shared<Argument>>, t: Seq<Shared<Argument>>)
    ensures
        congruent_list_shared_argument(s, t) == congruent_list_shared_argument(t, s),
    decreases s, 1nat,
{
    if s.len() > 0 && s.len() == t.len() {
        lemma_symmetric_list_shared_argument(s.drop_last(), t.drop_last());
        lemma_symmetric_argument(node_of(s.last()), node_of(t.last()));
    }
}

pub proof fn lemma_transitive_list_shared_argument(s: Seq<Shared<Argument>>, t: Seq<Shared<Argument>>, u: Seq<Shared<Argument>>)
    requires
        congruent_list_shared_argument(s, t) && congruent_list_shared_argument(t, u),
    ensures
        congruent_list_shared_argument(s, u),
    decreases s, 1nat,
{
    if s.len() > 0 && s.len() == t.len() {
        lemma_transitive_list_shared_argument(s.drop_last(), t.drop_last(), u.drop_last());
        lemma_transitive_argument(node_of(s.last()), node_of(t.last()), node_of(u.last()));
    }
}

pub proof fn lemma_reflexive_list_shared_field_definition(s: Seq<Shared<FieldDefinition>>)
    ensures
        congruent_list_shared_field_definition(s, s),
    decreases s, 1nat,
{
    if s.len() > 0 {
        lemma_reflexive_list_shared_field_definition(s.drop_last());
        lemma_reflexive_field_definition(node_of(s.last()));
    }
}

pub proof fn lemma_symmetric_list_shared_field_definition(s: Seq<Shared<FieldDefinition>>, t: Seq<Shared<FieldDefinition>>)
    ensures
        congruent_list_shared_field_definition(s, t) == congruent_list_shared_field_definition(t, s),
    decreases s, 1nat,
{
    if s.len() > 0 && s.len() == t.len() {
        lemma_symmetric_list_shared_field_definition(s.drop_last(), t.drop_last());
        lemma_symmetric_field_definition(node_of(s.last()), node_of(t.last()));
    }
}

pub proof fn lemma_transitive_list_shared_field_definition(s: Seq<Shared<FieldDefinition>>, t: Seq<Shared<FieldDefinition>>, u: Seq<Shared<FieldDefinition>>)
    requires
        congruent_list_shared_field_definition(s, t) && congruent_list_shared_field_definition(t, u),
    ensures
        congruent_list_shared_field_definition(s, u),
    decreases s, 1nat,
{
    if s.len() > 0 && s.len() == t.len() {
        lemma_transitive_list_shared_field_definition(s.drop_last(), t.drop_last(), u.drop_last());
        lemma_transitive_field_definition(node_of(s.last()), node_of(t.last()), node_of(u.last()));
    }
}

pub proof fn lemma_reflexive_list_object_field(s: Seq<ObjectField>)
    ensures
        congruent_list_object_field(s, s),
    decreases s, 1nat,
{
    if s.len() > 0 {
        lemma_reflexive_list_object_field(s.drop_last());
        lemma_reflexive_object_field(s.last());
    }
}

pub proof fn lemma_symmetric_list_object_field(s: Seq<ObjectField>, t: Seq<ObjectField>)
    ensures
        congruent_list_object_field(s, t) == congruent_list_object_field(t, s),
    decreases s, 1nat,
{
    if s.len() > 0 && s.len() == t.len() {
        lemma_symmetric_list_object_field(s.drop_last(), t.drop_last());
        lemma_symmetric_object_field(s.last(), t.last());
    }
}

pub proof fn lemma_transitive_list_object_field(s: Seq<ObjectField>, t: Seq<ObjectField>, u: Seq<ObjectField>)
    requires
        congruent_list_object_field(s, t) && congruent_list_object_field(t, u),
    ensures
        congruent_list_object_field(s, u),
    decreases s, 1nat,
{
    if s.len() > 0 && s.len() == t.len() {
        lemma_transitive_list_object_field(s.drop_last(), t.drop_last(), u.drop_last());
        lemma_transitive_object_field(s.last(), t.last(), u.last());
    }
}

pub proof fn lemma_reflexive_list_punctuator_recoverable_directive_location(s: Seq<(Punctuator, Recoverable<DirectiveLocation>)>)
    ensures
        congruent_list_punctuator_recoverable_directive_location(s, s),
    decreases s, 1nat,
{
    if s.len() > 0 {
        lemma_reflexive_list_punctuator_recoverable_directive_location(s.drop_last());
        match s.last().1 {
            Recoverable::Present(x) => {
                lemma_reflexive_directive_location(x);
            },
            _ => {},
        }
    }
}

pub proof fn lemma_symmetric_list_punctuator_recoverable_directive_location(s: Seq<(Punctuator, Recoverable<DirectiveLocation>)>, t: Seq<(Punctuator, Recoverable<DirectiveLocation>)>)
    ensures
        congruent_list_punctuator_recoverable_directive_location(s, t) == congruent_list_punctuator_recoverable_directive_location(t, s),
    decreases s, 1nat,
{
    if s.len() > 0 && s.len() == t.len() {
        lemma_symmetric_list_punctuator_recoverable_directive_location(s.drop_last(), t.drop_last());
        match (s.last().1, t.last().1) {
            (Recoverable::Present(x), Recoverable::Present(y)) => {
                lemma_symmetric_directive_location(x, y);
            },
            _ => {},
        }
    }
}

pub proof fn lemma_transitive_list_punctuator_recoverable_directive_location(s: Seq<(Punctuator, Recoverable<DirectiveLocation>)>, t: Seq<(Punctuator, Recoverable<DirectiveLocation>)>, u: Seq<(Punctuator, Recoverable<DirectiveLocation>)>)
    requires
        congruent_list_punctuator_recoverable_directive_location(s, t) && congruent_list_punctuator_recoverable_directive_location(t, u),
    ensures
        congruent_list_punctuator_recoverable_directive_location(s, u),
    decreases s, 1nat,
{
    if s.len() > 0 && s.len() == t.len() {
        lemma_transitive_list_punctuator_recoverable_directive_location(s.drop_last(), t.drop_last(), u.drop_last());
        match (s.last().1, t.last().1, u.last().1) {
            (Recoverable::Present(x), Recoverable::Present(y), Recoverable::Present(z)) => {
                lemma_transitive_directive_location(x, y, z);
            },
            _ => {},
        }
    }
}

pub proof fn lemma_reflexive_list_shared_value(s: Seq<Shared<Value>>)
    ensures
        congruent_list_shared_value(s, s),
    decreases s, 1nat,
{
    if s.len() > 0 {
        lemma_reflexive_list_shared_value(s.drop_last());
        lemma_reflexive_value(node_of(s.last()));
    }
}

pub proof fn lemma_symmetric_list_shared_value(s: Seq<Shared<Value>>, t: Seq<Shared<Value>>)
    ensures
        congruent_list_shared_value(s, t) == congruent_list_shared_value(t, s),
    decreases s, 1nat,
{
    if s.len() > 0 && s.len() == t.len() {
        lemma_symmetric_list_shared_value(s.drop_last(), t.drop_last());
        lemma_symmetric_value(node_of(s.last()), node_of(t.last()));
    }
}

pub proof fn lemma_transitive_list_shared_value(s: Seq<Shared<Value>>, t: Seq<Shared<Value>>, u: Seq<Shared<Value>>)
    requires
        congruent_list_shared_value(s, t) && congruent_list_shared_value(t, u),
    ensures
        congruent_list_shared_value(s, u),
    decreases s, 1nat,
{
    if s.len() > 0 && s.len() == t.len() {
        lemma_transitive_list_shared_value(s.drop_last(), t.drop_last(), u.drop_last());
        lemma_transitive_value(node_of(s.last()), node_of(t.last()), node_of(u.last()));
    }
}

pub proof fn lemma_reflexive_list_shared_directive(s: Seq<Shared<Directive>>)
    ensures
        congruent_list_shared_directive(s, s),
    decreases s, 1nat,
{
    if s.len() > 0 {
        lemma_reflexive_list_shared_directive(s.drop_last());
        lemma_reflexive_directive(node_of(s.last()));
    }
}

pub proof fn lemma_symmetric_list_shared_directive(s: Seq<Shared<Directive>>, t: Seq<Shared<Directive>>)
    ensures
        congruent_list_shared_directive(s, t) == congruent_list_shared_directive(t, s),
    decreases s, 1nat,
{
    if s.len() > 0 && s.len() == t.len() {
        lemma_symmetric_list_shared_directive(s.drop_last(), t.drop_last());
        lemma_symmetric_directive(node_of(s.last()), node_of(t.last()));
    }
}

pub proof fn lemma_transitive_list_shared_directive(s: Seq<Shared<Directive>>, t: Seq<Shared<Directive>>, u: Seq<Shared<Directive>>)
    requires
        congruent_list_shared_directive(s, t) && congruent_list_shared_directive(t, u),
    ensures
        congruent_list_shared_directive(s, u),
    decreases s, 1nat,
{
    if s.len() > 0 && s.len() == t.len() {
        lemma_transitive_list_shared_directive(s.drop_last(), t.drop_last(), u.drop_last());
        lemma_transitive_directive(node_of(s.last()), node_of(t.last()), node_of(u.last()));
    }
}

pub proof fn lemma_reflexive_list_executable_definition(s: Seq<ExecutableDefinition>)
    ensures
        congruent_list_executable_definition(s, s),
    decreases s, 1nat,
{
    if s.len() > 0 {
        lemma_reflexive_list_executable_definition(s.drop_last());
        lemma_reflexive_executable_definition(s.last());
    }
}

pub proof fn lemma_symmetric_list_executable_definition(s: Seq<ExecutableDefinition>, t: Seq<ExecutableDefinition>)
    ensures
        congruent_list_executable_definition(s, t) == congruent_list_executable_definition(t, s),
    decreases s, 1nat,
{
    if s.len() > 0 && s.len() == t.len() {
        lemma_symmetric_list_executable_definition(s.drop_last(), t.drop_last());
        lemma_symmetric_executable_definition(s.last(), t.last());
    }
}

pub proof fn lemma_transitive_list_executable_definition(s: Seq<ExecutableDefinition>, t: Seq<ExecutableDefinition>, u: Seq<ExecutableDefinition>)
    requires
        congruent_list_executable_definition(s, t) && congruent_list_executable_definition(t, u),
    ensures
        congruent_list_executable_definition(s, u),
    decreases s, 1nat,
{
    if s.len() > 0 && s.len() == t.len() {
        lemma_transitive_list_executable_definition(s.drop_last(), t.drop_last(), u.drop_last());
        lemma_transitive_executable_definition(s.last(), t.last(), u.last());
    }
}

} // verus!
