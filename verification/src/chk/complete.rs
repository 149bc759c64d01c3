use vstd::prelude::*;

use crate::ast::context::Shared;
use crate::ast::types::{Argument, Arguments, ArgumentsDefinition, BooleanValue, DefaultValue, Definition, Directive, DirectiveDefinition, DirectiveLocation, DirectiveLocations, Directives, Document, EnumTypeDefinition, EnumTypeExtension, EnumValue, EnumValueDefinition, EnumValuesDefinition, ExecutableDefinition, ExecutableDirectiveLocation, ExecutableDocument, Field, FieldDefinition, FieldsDefinition, FragmentDefinition, FragmentSpread, ImplementsInterfaces, InlineFragment, InputFieldsDefinition, InputObjectTypeDefinition, InputObjectTypeExtension, InputValueDefinition, InterfaceTypeDefinition, InterfaceTypeExtension, ListType, ListValue, Missing, NamedType, NonNullType, NullValue, ObjectField, ObjectTypeDefinition, ObjectTypeExtension, ObjectValue, OperationDefinition, Recoverable, RootOperationTypeDefinition, RootOperationTypeDefinitions, ScalarTypeDefinition, ScalarTypeExtension, SchemaDefinition, SchemaExtension, Selection, SelectionSet, Type, TypeCondition, TypeDefinition, TypeExtension, TypeSystemDefinition, TypeSystemDefinitionOrExtension, TypeSystemDirectiveLocation, TypeSystemDocument, TypeSystemExtension, TypeSystemExtensionDocument, UnionMemberTypes, UnionTypeDefinition, UnionTypeExtension, Value, Variable, VariableDefinition, VariableDefinitions};
use crate::lex::token::Punctuator;

use super::traverse::{sites_alias, sites_argument, sites_arguments, sites_arguments_definition, sites_boolean_value, sites_default_value, sites_definition, sites_description, sites_directive, sites_directive_definition, sites_directive_location, sites_directive_locations, sites_directives, sites_document, sites_enum_type_definition, sites_enum_type_extension, sites_enum_value, sites_enum_value_definition, sites_enum_values_definition, sites_executable_definition, sites_executable_directive_location, sites_executable_document, sites_field, sites_field_definition, sites_fields_definition, sites_fragment_definition, sites_fragment_spread, sites_implements_interfaces, sites_inline_fragment, sites_input_fields_definition, sites_input_object_type_definition, sites_input_object_type_extension, sites_input_value_definition, sites_interface_type_definition, sites_interface_type_extension, sites_list_executable_definition, sites_list_object_field, sites_list_punctuator_recoverable_directive_location, sites_list_punctuator_recoverable_shared_named_type, sites_list_root_operation_type_definition, sites_list_selection, sites_list_shared_argument, sites_list_shared_definition, sites_list_shared_directive, sites_list_shared_enum_value_definition, sites_list_shared_field_definition, sites_list_shared_input_value_definition, sites_list_shared_value, sites_list_shared_variable_definition, sites_list_type, sites_list_type_system_definition, sites_list_type_system_definition_or_extension, sites_list_value, sites_named_type, sites_non_null_type, sites_null_value, sites_object_field, sites_object_type_definition, sites_object_type_extension, sites_object_value, sites_operation_definition, sites_operation_type, sites_root_operation_type_definition, sites_root_operation_type_definitions, sites_scalar_type_definition, sites_scalar_type_extension, sites_schema_definition, sites_schema_extension, sites_selection, sites_selection_set, sites_type, sites_type_condition, sites_type_definition, sites_type_extension, sites_type_system_definition, sites_type_system_definition_or_extension, sites_type_system_directive_location, sites_type_system_document, sites_type_system_extension, sites_type_system_extension_document, sites_union_member_types, sites_union_type_definition, sites_union_type_extension, sites_value, sites_variable, sites_variable_definition, sites_variable_definitions, Site};

verus! {

broadcast use {vstd::seq_lib::lemma_seq_concat_contains_all_elements, vstd::seq_lib::lemma_seq_contains_after_push};

/// Nothing is lost in the syntax errors of a `Document`: they report
/// its own missing tokens and the errors of the nodes it holds.
pub proof fn law_sites_document_complete(n: Document)
    ensures
        forall|s: Site| #[trigger] sites_list_shared_definition(n.definitions.0@).contains(s) ==> sites_document(n).contains(s),
{
}

/// Nothing is lost in the syntax errors of a `Definition`: they report
/// the errors of the variant it holds.
pub proof fn law_sites_definition_complete(n: Definition)
    ensures
        n matches Definition::ExecutableDefinition(y) ==> (forall|s: Site| #[trigger] sites_executable_definition(y).contains(s) ==> sites_definition(n).contains(s)),
        n matches Definition::TypeSystemDefinitionOrExtension(y) ==> (forall|s: Site| #[trigger] sites_type_system_definition_or_extension(y).contains(s) ==> sites_definition(n).contains(s)),
{
}

/// Nothing is lost in the syntax errors of a `ExecutableDocument`: they report
/// its own missing tokens and the errors of the nodes it holds.
pub proof fn law_sites_executable_document_complete(n: ExecutableDocument)
    ensures
        forall|s: Site| #[trigger] sites_list_executable_definition(n.definitions.0@).contains(s) ==> sites_executable_document(n).contains(s),
{
}

/// Nothing is lost in the syntax errors of a `ExecutableDefinition`: they report
/// the errors of the variant it holds.
pub proof fn law_sites_executable_definition_complete(n: ExecutableDefinition)
    ensures
        n matches ExecutableDefinition::OperationDefinition(y) ==> (forall|s: Site| #[trigger] sites_operation_definition(*y.0).contains(s) ==> sites_executable_definition(n).contains(s)),
        n matches ExecutableDefinition::FragmentDefinition(y) ==> (forall|s: Site| #[trigger] sites_fragment_definition(*y.0).contains(s) ==> sites_executable_definition(n).contains(s)),
{
}

/// Nothing is lost in the syntax errors of a `OperationDefinition`: they report
/// its own missing tokens and the errors of the nodes it holds.
pub proof fn law_sites_operation_definition_complete(n: OperationDefinition)
    ensures
        n.ty matches Some(x0) ==> (forall|s: Site| #[trigger] sites_operation_type(x0).contains(s) ==> sites_operation_definition(n).contains(s)),
        n.variable_definitions matches Some(x0) ==> (forall|s: Site| #[trigger] sites_variable_definitions(x0).contains(s) ==> sites_operation_definition(n).contains(s)),
        n.directives matches Some(x0) ==> (forall|s: Site| #[trigger] sites_directives(x0).contains(s) ==> sites_operation_definition(n).contains(s)),
        n.selection_set matches Recoverable::Missing(m) ==> sites_operation_definition(n).contains(Site::Missing(m)),
        n.selection_set matches Recoverable::Present(x0) ==> (forall|s: Site| #[trigger] sites_selection_set(*x0.0).contains(s) ==> sites_operation_definition(n).contains(s)),
{
}

/// Nothing is lost in the syntax errors of a `SelectionSet`: they report
/// its own missing tokens and the errors of the nodes it holds.
pub proof fn law_sites_selection_set_complete(n: SelectionSet)
    ensures
        n.braces.1 matches Recoverable::Missing(m) ==> sites_selection_set(n).contains(Site::Missing(m)),
        forall|s: Site| #[trigger] sites_list_selection(n.selections.0@).contains(s) ==> sites_selection_set(n).contains(s),
{
}

/// Nothing is lost in the syntax errors of a `Selection`: they report
/// the errors of the variant it holds.
pub proof fn law_sites_selection_complete(n: Selection)
    ensures
        n matches Selection::Field(y) ==> (forall|s: Site| #[trigger] sites_field(*y.0).contains(s) ==> sites_selection(n).contains(s)),
        n matches Selection::FragmentSpread(y) ==> (forall|s: Site| #[trigger] sites_fragment_spread(*y.0).contains(s) ==> sites_selection(n).contains(s)),
        n matches Selection::InlineFragment(y) ==> (forall|s: Site| #[trigger] sites_inline_fragment(y).contains(s) ==> sites_selection(n).contains(s)),
{
}

/// Nothing is lost in the syntax errors of a `Field`: they report
/// its own missing tokens and the errors of the nodes it holds.
pub proof fn law_sites_field_complete(n: Field)
    ensures
        n.alias matches Some(x0) ==> (forall|s: Site| #[trigger] sites_alias(x0).contains(s) ==> sites_field(n).contains(s)),
        n.name matches Recoverable::Missing(m) ==> sites_field(n).contains(Site::Missing(m)),
        n.arguments matches Some(x0) ==> (forall|s: Site| #[trigger] sites_arguments(*x0.0).contains(s) ==> sites_field(n).contains(s)),
        n.directives matches Some(x0) ==> (forall|s: Site| #[trigger] sites_directives(x0).contains(s) ==> sites_field(n).contains(s)),
        n.selection_set matches Some(x0) ==> (forall|s: Site| #[trigger] sites_selection_set(*x0.0).contains(s) ==> sites_field(n).contains(s)),
{
}

/// Nothing is lost in the syntax errors of a `Arguments`: they report
/// its own missing tokens and the errors of the nodes it holds.
pub proof fn law_sites_arguments_complete(n: Arguments)
    ensures
        n.parens.1 matches Recoverable::Missing(m) ==> sites_arguments(n).contains(Site::Missing(m)),
        forall|s: Site| #[trigger] sites_list_shared_argument(n.items.0@).contains(s) ==> sites_arguments(n).contains(s),
{
}

/// Nothing is lost in the syntax errors of a `Argument`: they report
/// its own missing tokens and the errors of the nodes it holds.
pub proof fn law_sites_argument_complete(n: Argument)
    ensures
        n.colon matches Recoverable::Missing(m) ==> sites_argument(n).contains(Site::Missing(m)),
        n.value matches Recoverable::Missing(m) ==> sites_argument(n).contains(Site::Missing(m)),
        n.value matches Recoverable::Present(x0) ==> (forall|s: Site| #[trigger] sites_value(*x0.0).contains(s) ==> sites_argument(n).contains(s)),
{
}

/// Nothing is lost in the syntax errors of a `FragmentSpread`: they report
/// its own missing tokens and the errors of the nodes it holds.
pub proof fn law_sites_fragment_spread_complete(n: FragmentSpread)
    ensures
        n.directives matches Some(x0) ==> (forall|s: Site| #[trigger] sites_directives(x0).contains(s) ==> sites_fragment_spread(n).contains(s)),
{
}

/// Nothing is lost in the syntax errors of a `InlineFragment`: they report
/// its own missing tokens and the errors of the nodes it holds.
pub proof fn law_sites_inline_fragment_complete(n: InlineFragment)
    ensures
        n.type_condition matches Some(x0) ==> (forall|s: Site| #[trigger] sites_type_condition(x0).contains(s) ==> sites_inline_fragment(n).contains(s)),
        n.directives matches Some(x0) ==> (forall|s: Site| #[trigger] sites_directives(x0).contains(s) ==> sites_inline_fragment(n).contains(s)),
        n.selection_set matches Recoverable::Missing(m) ==> sites_inline_fragment(n).contains(Site::Missing(m)),
        n.selection_set matches Recoverable::Present(x0) ==> (forall|s: Site| #[trigger] sites_selection_set(*x0.0).contains(s) ==> sites_inline_fragment(n).contains(s)),
{
}

/// Nothing is lost in the syntax errors of a `FragmentDefinition`: they report
/// its own missing tokens and the errors of the nodes it holds.
pub proof fn law_sites_fragment_definition_complete(n: FragmentDefinition)
    ensures
        n.fragment_name matches Recoverable::Missing(m) ==> sites_fragment_definition(n).contains(Site::Missing(m)),
        n.type_condition matches Recoverable::Missing(m) ==> sites_fragment_definition(n).contains(Site::Missing(m)),
        n.type_condition matches Recoverable::Present(x0) ==> (forall|s: Site| #[trigger] sites_type_condition(x0).contains(s) ==> sites_fragment_definition(n).contains(s)),
        n.directives matches Some(x0) ==> (forall|s: Site| #[trigger] sites_directives(x0).contains(s) ==> sites_fragment_definition(n).contains(s)),
        n.selection_set matches Recoverable::Missing(m) ==> sites_fragment_definition(n).contains(Site::Missing(m)),
        n.selection_set matches Recoverable::Present(x0) ==> (forall|s: Site| #[trigger] sites_selection_set(*x0.0).contains(s) ==> sites_fragment_definition(n).contains(s)),
{
}

/// Nothing is lost in the syntax errors of a `TypeCondition`: they report
/// its own missing tokens and the errors of the nodes it holds.
pub proof fn law_sites_type_condition_complete(n: TypeCondition)
    ensures
        n.named_type matches Recoverable::Missing(m) ==> sites_type_condition(n).contains(Site::Missing(m)),
        n.named_type matches Recoverable::Present(x0) ==> (forall|s: Site| #[trigger] sites_named_type(x0).contains(s) ==> sites_type_condition(n).contains(s)),
{
}

/// Nothing is lost in the syntax errors of a `Value`: they report
/// the errors of the variant it holds.
pub proof fn law_sites_value_complete(n: Value)
    ensures
        n matches Value::Variable(y) ==> (forall|s: Site| #[trigger] sites_variable(y).contains(s) ==> sites_value(n).contains(s)),
        n matches Value::BooleanValue(y) ==> (forall|s: Site| #[trigger] sites_boolean_value(y).contains(s) ==> sites_value(n).contains(s)),
        n matches Value::NullValue(y) ==> (forall|s: Site| #[trigger] sites_null_value(y).contains(s) ==> sites_value(n).contains(s)),
        n matches Value::EnumValue(y) ==> (forall|s: Site| #[trigger] sites_enum_value(y).contains(s) ==> sites_value(n).contains(s)),
        n matches Value::ListValue(y) ==> (forall|s: Site| #[trigger] sites_list_value(y).contains(s) ==> sites_value(n).contains(s)),
        n matches Value::ObjectValue(y) ==> (forall|s: Site| #[trigger] sites_object_value(y).contains(s) ==> sites_value(n).contains(s)),
{
}

/// Nothing is lost in the syntax errors of a `ListValue`: they report
/// its own missing tokens and the errors of the nodes it holds.
pub proof fn law_sites_list_value_complete(n: ListValue)
    ensures
        n.brackets.1 matches Recoverable::Missing(m) ==> sites_list_value(n).contains(Site::Missing(m)),
        forall|s: Site| #[trigger] sites_list_shared_value(n.values.0@).contains(s) ==> sites_list_value(n).contains(s),
{
}

/// Nothing is lost in the syntax errors of a `ObjectValue`: they report
/// its own missing tokens and the errors of the nodes it holds.
pub proof fn law_sites_object_value_complete(n: ObjectValue)
    ensures
        n.braces.1 matches Recoverable::Missing(m) ==> sites_object_value(n).contains(Site::Missing(m)),
        forall|s: Site| #[trigger] sites_list_object_field(n.object_fields.0@).contains(s) ==> sites_object_value(n).contains(s),
{
}

/// Nothing is lost in the syntax errors of a `ObjectField`: they report
/// its own missing tokens and the errors of the nodes it holds.
pub proof fn law_sites_object_field_complete(n: ObjectField)
    ensures
        n.colon matches Recoverable::Missing(m) ==> sites_object_field(n).contains(Site::Missing(m)),
        n.value matches Recoverable::Missing(m) ==> sites_object_field(n).contains(Site::Missing(m)),
        n.value matches Recoverable::Present(x0) ==> (forall|s: Site| #[trigger] sites_value(*x0.0).contains(s) ==> sites_object_field(n).contains(s)),
{
}

/// Nothing is lost in the syntax errors of a `VariableDefinitions`: they report
/// its own missing tokens and the errors of the nodes it holds.
pub proof fn law_sites_variable_definitions_complete(n: VariableDefinitions)
    ensures
        n.parens.1 matches Recoverable::Missing(m) ==> sites_variable_definitions(n).contains(Site::Missing(m)),
        forall|s: Site| #[trigger] sites_list_shared_variable_definition(n.variable_definitions.0@).contains(s) ==> sites_variable_definitions(n).contains(s),
{
}

/// Nothing is lost in the syntax errors of a `VariableDefinition`: they report
/// its own missing tokens and the errors of the nodes it holds.
pub proof fn law_sites_variable_definition_complete(n: VariableDefinition)
    ensures
        forall|s: Site| #[trigger] sites_variable(n.variable).contains(s) ==> sites_variable_definition(n).contains(s),
        n.colon matches Recoverable::Missing(m) ==> sites_variable_definition(n).contains(Site::Missing(m)),
        n.ty matches Recoverable::Missing(m) ==> sites_variable_definition(n).contains(Site::Missing(m)),
        n.ty matches Recoverable::Present(x0) ==> (forall|s: Site| #[trigger] sites_type(*x0.0).contains(s) ==> sites_variable_definition(n).contains(s)),
        n.default_value matches Some(x0) ==> (forall|s: Site| #[trigger] sites_default_value(x0).contains(s) ==> sites_variable_definition(n).contains(s)),
        n.directives matches Some(x0) ==> (forall|s: Site| #[trigger] sites_directives(x0).contains(s) ==> sites_variable_definition(n).contains(s)),
{
}

/// Nothing is lost in the syntax errors of a `Variable`: they report
/// its own missing tokens and the errors of the nodes it holds.
pub proof fn law_sites_variable_complete(n: Variable)
    ensures
        n.name matches Recoverable::Missing(m) ==> sites_variable(n).contains(Site::Missing(m)),
{
}

/// Nothing is lost in the syntax errors of a `DefaultValue`: they report
/// its own missing tokens and the errors of the nodes it holds.
pub proof fn law_sites_default_value_complete(n: DefaultValue)
    ensures
        n.value matches Recoverable::Missing(m) ==> sites_default_value(n).contains(Site::Missing(m)),
        n.value matches Recoverable::Present(x0) ==> (forall|s: Site| #[trigger] sites_value(*x0.0).contains(s) ==> sites_default_value(n).contains(s)),
{
}

/// Nothing is lost in the syntax errors of a `Type`: they report
/// the errors of the variant it holds.
pub proof fn law_sites_type_complete(n: Type)
    ensures
        n matches Type::Named(y) ==> (forall|s: Site| #[trigger] sites_named_type(y).contains(s) ==> sites_type(n).contains(s)),
        n matches Type::List(y) ==> (forall|s: Site| #[trigger] sites_list_type(y).contains(s) ==> sites_type(n).contains(s)),
        n matches Type::NonNull(y) ==> (forall|s: Site| #[trigger] sites_non_null_type(y).contains(s) ==> sites_type(n).contains(s)),
{
}

/// Nothing is lost in the syntax errors of a `ListType`: they report
/// its own missing tokens and the errors of the nodes it holds.
pub proof fn law_sites_list_type_complete(n: ListType)
    ensures
        n.brackets.1 matches Recoverable::Missing(m) ==> sites_list_type(n).contains(Site::Missing(m)),
        n.ty matches Recoverable::Missing(m) ==> sites_list_type(n).contains(Site::Missing(m)),
        n.ty matches Recoverable::Present(x0) ==> (forall|s: Site| #[trigger] sites_type(*x0.0).contains(s) ==> sites_list_type(n).contains(s)),
{
}

/// Nothing is lost in the syntax errors of a `NonNullType`: they report
/// its own missing tokens and the errors of the nodes it holds.
pub proof fn law_sites_non_null_type_complete(n: NonNullType)
    ensures
        forall|s: Site| #[trigger] sites_type(*n.ty.0).contains(s) ==> sites_non_null_type(n).contains(s),
{
}

/// Nothing is lost in the syntax errors of a `Directives`: they report
/// its own missing tokens and the errors of the nodes it holds.
pub proof fn law_sites_directives_complete(n: Directives)
    ensures
        forall|s: Site| #[trigger] sites_list_shared_directive(n.directives.0@).contains(s) ==> sites_directives(n).contains(s),
{
}

/// Nothing is lost in the syntax errors of a `Directive`: they report
/// its own missing tokens and the errors of the nodes it holds.
pub proof fn law_sites_directive_complete(n: Directive)
    ensures
        n.name matches Recoverable::Missing(m) ==> sites_directive(n).contains(Site::Missing(m)),
        n.arguments matches Some(x0) ==> (forall|s: Site| #[trigger] sites_arguments(*x0.0).contains(s) ==> sites_directive(n).contains(s)),
{
}

/// Nothing is lost in the syntax errors of a `TypeSystemDocument`: they report
/// its own missing tokens and the errors of the nodes it holds.
pub proof fn law_sites_type_system_document_complete(n: TypeSystemDocument)
    ensures
        forall|s: Site| #[trigger] sites_list_type_system_definition(n.definitions.0@).contains(s) ==> sites_type_system_document(n).contains(s),
{
}

/// Nothing is lost in the syntax errors of a `TypeSystemDefinition`: they report
/// the errors of the variant it holds.
pub proof fn law_sites_type_system_definition_complete(n: TypeSystemDefinition)
    ensures
        n matches TypeSystemDefinition::SchemaDefinition(y) ==> (forall|s: Site| #[trigger] sites_schema_definition(y).contains(s) ==> sites_type_system_definition(n).contains(s)),
        n matches TypeSystemDefinition::TypeDefinition(y) ==> (forall|s: Site| #[trigger] sites_type_definition(*y.0).contains(s) ==> sites_type_system_definition(n).contains(s)),
        n matches TypeSystemDefinition::DirectiveDefinition(y) ==> (forall|s: Site| #[trigger] sites_directive_definition(*y.0).contains(s) ==> sites_type_system_definition(n).contains(s)),
        n matches TypeSystemDefinition::Error(d) ==> sites_type_system_definition(n).contains(Site::Unrecognized(d.0.0.span)),
{
}

/// Nothing is lost in the syntax errors of a `TypeSystemExtensionDocument`: they report
/// its own missing tokens and the errors of the nodes it holds.
pub proof fn law_sites_type_system_extension_document_complete(n: TypeSystemExtensionDocument)
    ensures
        forall|s: Site| #[trigger] sites_list_type_system_definition_or_extension(n.definitions.0@).contains(s) ==> sites_type_system_extension_document(n).contains(s),
{
}

/// Nothing is lost in the syntax errors of a `TypeSystemDefinitionOrExtension`: they report
/// the errors of the variant it holds.
pub proof fn law_sites_type_system_definition_or_extension_complete(n: TypeSystemDefinitionOrExtension)
    ensures
        n matches TypeSystemDefinitionOrExtension::TypeSystemDefinition(y) ==> (forall|s: Site| #[trigger] sites_type_system_definition(y).contains(s) ==> sites_type_system_definition_or_extension(n).contains(s)),
        n matches TypeSystemDefinitionOrExtension::TypeSystemExtension(y) ==> (forall|s: Site| #[trigger] sites_type_system_extension(y).contains(s) ==> sites_type_system_definition_or_extension(n).contains(s)),
{
}

/// Nothing is lost in the syntax errors of a `TypeSystemExtension`: they report
/// the errors of the variant it holds.
pub proof fn law_sites_type_system_extension_complete(n: TypeSystemExtension)
    ensures
        n matches TypeSystemExtension::SchemaExtension(y) ==> (forall|s: Site| #[trigger] sites_schema_extension(y).contains(s) ==> sites_type_system_extension(n).contains(s)),
        n matches TypeSystemExtension::TypeExtension(y) ==> (forall|s: Site| #[trigger] sites_type_extension(*y.0).contains(s) ==> sites_type_system_extension(n).contains(s)),
        n matches TypeSystemExtension::Error(d) ==> sites_type_system_extension(n).contains(Site::Unrecognized(d.0.span)),
{
}

/// Nothing is lost in the syntax errors of a `SchemaDefinition`: they report
/// its own missing tokens and the errors of the nodes it holds.
pub proof fn law_sites_schema_definition_complete(n: SchemaDefinition)
    ensures
        n.description matches Some(x0) ==> (forall|s: Site| #[trigger] sites_description(x0).contains(s) ==> sites_schema_definition(n).contains(s)),
        n.directives matches Some(x0) ==> (forall|s: Site| #[trigger] sites_directives(x0).contains(s) ==> sites_schema_definition(n).contains(s)),
        n.type_definitions matches Recoverable::Missing(m) ==> sites_schema_definition(n).contains(Site::Missing(m)),
        n.type_definitions matches Recoverable::Present(x0) ==> (forall|s: Site| #[trigger] sites_root_operation_type_definitions(x0).contains(s) ==> sites_schema_definition(n).contains(s)),
{
}

/// Nothing is lost in the syntax errors of a `RootOperationTypeDefinitions`: they report
/// its own missing tokens and the errors of the nodes it holds.
pub proof fn law_sites_root_operation_type_definitions_complete(n: RootOperationTypeDefinitions)
    ensures
        n.braces.1 matches Recoverable::Missing(m) ==> sites_root_operation_type_definitions(n).contains(Site::Missing(m)),
        n.definitions matches Recoverable::Missing(m) ==> sites_root_operation_type_definitions(n).contains(Site::Missing(m)),
        n.definitions matches Recoverable::Present(x0) ==> (forall|s: Site| #[trigger] sites_list_root_operation_type_definition(x0.0@).contains(s) ==> sites_root_operation_type_definitions(n).contains(s)),
{
}

/// Nothing is lost in the syntax errors of a `RootOperationTypeDefinition`: they report
/// its own missing tokens and the errors of the nodes it holds.
pub proof fn law_sites_root_operation_type_definition_complete(n: RootOperationTypeDefinition)
    ensures
        forall|s: Site| #[trigger] sites_operation_type(n.operation_type).contains(s) ==> sites_root_operation_type_definition(n).contains(s),
        n.colon matches Recoverable::Missing(m) ==> sites_root_operation_type_definition(n).contains(Site::Missing(m)),
        n.named_type matches Recoverable::Missing(m) ==> sites_root_operation_type_definition(n).contains(Site::Missing(m)),
        n.named_type matches Recoverable::Present(x0) ==> (forall|s: Site| #[trigger] sites_named_type(x0).contains(s) ==> sites_root_operation_type_definition(n).contains(s)),
{
}

/// Nothing is lost in the syntax errors of a `SchemaExtension`: they report
/// its own missing tokens and the errors of the nodes it holds.
pub proof fn law_sites_schema_extension_complete(n: SchemaExtension)
    ensures
        n.directives matches Some(x0) ==> (forall|s: Site| #[trigger] sites_directives(x0).contains(s) ==> sites_schema_extension(n).contains(s)),
        n.type_definitions matches Some(x0) ==> (forall|s: Site| #[trigger] sites_root_operation_type_definitions(x0).contains(s) ==> sites_schema_extension(n).contains(s)),
{
}

/// Nothing is lost in the syntax errors of a `TypeDefinition`: they report
/// the errors of the variant it holds.
pub proof fn law_sites_type_definition_complete(n: TypeDefinition)
    ensures
        n matches TypeDefinition::ScalarTypeDefinition(y) ==> (forall|s: Site| #[trigger] sites_scalar_type_definition(y).contains(s) ==> sites_type_definition(n).contains(s)),
        n matches TypeDefinition::ObjectTypeDefinition(y) ==> (forall|s: Site| #[trigger] sites_object_type_definition(y).contains(s) ==> sites_type_definition(n).contains(s)),
        n matches TypeDefinition::InterfaceTypeDefinition(y) ==> (forall|s: Site| #[trigger] sites_interface_type_definition(y).contains(s) ==> sites_type_definition(n).contains(s)),
        n matches TypeDefinition::UnionTypeDefinition(y) ==> (forall|s: Site| #[trigger] sites_union_type_definition(y).contains(s) ==> sites_type_definition(n).contains(s)),
        n matches TypeDefinition::EnumTypeDefinition(y) ==> (forall|s: Site| #[trigger] sites_enum_type_definition(y).contains(s) ==> sites_type_definition(n).contains(s)),
        n matches TypeDefinition::InputObjectTypeDefinition(y) ==> (forall|s: Site| #[trigger] sites_input_object_type_definition(y).contains(s) ==> sites_type_definition(n).contains(s)),
{
}

/// Nothing is lost in the syntax errors of a `TypeExtension`: they report
/// the errors of the variant it holds.
pub proof fn law_sites_type_extension_complete(n: TypeExtension)
    ensures
        n matches TypeExtension::ScalarTypeExtension(y) ==> (forall|s: Site| #[trigger] sites_scalar_type_extension(y).contains(s) ==> sites_type_extension(n).contains(s)),
        n matches TypeExtension::ObjectTypeExtension(y) ==> (forall|s: Site| #[trigger] sites_object_type_extension(y).contains(s) ==> sites_type_extension(n).contains(s)),
        n matches TypeExtension::InterfaceTypeExtension(y) ==> (forall|s: Site| #[trigger] sites_interface_type_extension(y).contains(s) ==> sites_type_extension(n).contains(s)),
        n matches TypeExtension::UnionTypeExtension(y) ==> (forall|s: Site| #[trigger] sites_union_type_extension(y).contains(s) ==> sites_type_extension(n).contains(s)),
        n matches TypeExtension::EnumTypeExtension(y) ==> (forall|s: Site| #[trigger] sites_enum_type_extension(y).contains(s) ==> sites_type_extension(n).contains(s)),
        n matches TypeExtension::InputObjectTypeExtension(y) ==> (forall|s: Site| #[trigger] sites_input_object_type_extension(y).contains(s) ==> sites_type_extension(n).contains(s)),
{
}

/// Nothing is lost in the syntax errors of a `ScalarTypeDefinition`: they report
/// its own missing tokens and the errors of the nodes it holds.
pub proof fn law_sites_scalar_type_definition_complete(n: ScalarTypeDefinition)
    ensures
        n.description matches Some(x0) ==> (forall|s: Site| #[trigger] sites_description(x0).contains(s) ==> sites_scalar_type_definition(n).contains(s)),
        n.name matches Recoverable::Missing(m) ==> sites_scalar_type_definition(n).contains(Site::Missing(m)),
        n.directives matches Some(x0) ==> (forall|s: Site| #[trigger] sites_directives(x0).contains(s) ==> sites_scalar_type_definition(n).contains(s)),
{
}

/// Nothing is lost in the syntax errors of a `ScalarTypeExtension`: they report
/// its own missing tokens and the errors of the nodes it holds.
pub proof fn law_sites_scalar_type_extension_complete(n: ScalarTypeExtension)
    ensures
        n.name matches Recoverable::Missing(m) ==> sites_scalar_type_extension(n).contains(Site::Missing(m)),
        n.name matches Recoverable::Present(x0) ==> (forall|s: Site| #[trigger] sites_named_type(x0).contains(s) ==> sites_scalar_type_extension(n).contains(s)),
        n.directives matches Recoverable::Missing(m) ==> sites_scalar_type_extension(n).contains(Site::Missing(m)),
        n.directives matches Recoverable::Present(x0) ==> (forall|s: Site| #[trigger] sites_directives(x0).contains(s) ==> sites_scalar_type_extension(n).contains(s)),
{
}

/// Nothing is lost in the syntax errors of a `ObjectTypeDefinition`: they report
/// its own missing tokens and the errors of the nodes it holds.
pub proof fn law_sites_object_type_definition_complete(n: ObjectTypeDefinition)
    ensures
        n.description matches Some(x0) ==> (forall|s: Site| #[trigger] sites_description(x0).contains(s) ==> sites_object_type_definition(n).contains(s)),
        n.name matches Recoverable::Missing(m) ==> sites_object_type_definition(n).contains(Site::Missing(m)),
        n.implements_interfaces matches Some(x0) ==> (forall|s: Site| #[trigger] sites_implements_interfaces(x0).contains(s) ==> sites_object_type_definition(n).contains(s)),
        n.directives matches Some(x0) ==> (forall|s: Site| #[trigger] sites_directives(x0).contains(s) ==> sites_object_type_definition(n).contains(s)),
        n.fields_definition matches Some(x0) ==> (forall|s: Site| #[trigger] sites_fields_definition(x0).contains(s) ==> sites_object_type_definition(n).contains(s)),
{
}

/// Nothing is lost in the syntax errors of a `ImplementsInterfaces`: they report
/// its own missing tokens and the errors of the nodes it holds.
pub proof fn law_sites_implements_interfaces_complete(n: ImplementsInterfaces)
    ensures
        n.first matches Recoverable::Missing(m) ==> sites_implements_interfaces(n).contains(Site::Missing(m)),
        n.first matches Recoverable::Present(x0) ==> (forall|s: Site| #[trigger] sites_named_type(*x0.0).contains(s) ==> sites_implements_interfaces(n).contains(s)),
        forall|s: Site| #[trigger] sites_list_punctuator_recoverable_shared_named_type(n.types.0@).contains(s) ==> sites_implements_interfaces(n).contains(s),
{
}

/// Nothing is lost in the syntax errors of a `FieldsDefinition`: they report
/// its own missing tokens and the errors of the nodes it holds.
pub proof fn law_sites_fields_definition_complete(n: FieldsDefinition)
    ensures
        n.braces.1 matches Recoverable::Missing(m) ==> sites_fields_definition(n).contains(Site::Missing(m)),
        forall|s: Site| #[trigger] sites_list_shared_field_definition(n.definitions.0@).contains(s) ==> sites_fields_definition(n).contains(s),
{
}

/// Nothing is lost in the syntax errors of a `FieldDefinition`: they report
/// its own missing tokens and the errors of the nodes it holds.
pub proof fn law_sites_field_definition_complete(n: FieldDefinition)
    ensures
        n.description matches Some(x0) ==> (forall|s: Site| #[trigger] sites_description(x0).contains(s) ==> sites_field_definition(n).contains(s)),
        n.arguments_definition matches Some(x0) ==> (forall|s: Site| #[trigger] sites_arguments_definition(*x0.0).contains(s) ==> sites_field_definition(n).contains(s)),
        n.colon matches Recoverable::Missing(m) ==> sites_field_definition(n).contains(Site::Missing(m)),
        n.ty matches Recoverable::Missing(m) ==> sites_field_definition(n).contains(Site::Missing(m)),
        n.ty matches Recoverable::Present(x0) ==> (forall|s: Site| #[trigger] sites_type(*x0.0).contains(s) ==> sites_field_definition(n).contains(s)),
        n.directives matches Some(x0) ==> (forall|s: Site| #[trigger] sites_directives(x0).contains(s) ==> sites_field_definition(n).contains(s)),
{
}

/// Nothing is lost in the syntax errors of a `ArgumentsDefinition`: they report
/// its own missing tokens and the errors of the nodes it holds.
pub proof fn law_sites_arguments_definition_complete(n: ArgumentsDefinition)
    ensures
        n.parens.1 matches Recoverable::Missing(m) ==> sites_arguments_definition(n).contains(Site::Missing(m)),
        forall|s: Site| #[trigger] sites_list_shared_input_value_definition(n.definitions.0@).contains(s) ==> sites_arguments_definition(n).contains(s),
{
}

/// Nothing is lost in the syntax errors of a `InputValueDefinition`: they report
/// its own missing tokens and the errors of the nodes it holds.
pub proof fn law_sites_input_value_definition_complete(n: InputValueDefinition)
    ensures
        n.description matches Some(x0) ==> (forall|s: Site| #[trigger] sites_description(x0).contains(s) ==> sites_input_value_definition(n).contains(s)),
        n.colon matches Recoverable::Missing(m) ==> sites_input_value_definition(n).contains(Site::Missing(m)),
        n.ty matches Recoverable::Missing(m) ==> sites_input_value_definition(n).contains(Site::Missing(m)),
        n.ty matches Recoverable::Present(x0) ==> (forall|s: Site| #[trigger] sites_type(*x0.0).contains(s) ==> sites_input_value_definition(n).contains(s)),
        n.default_value matches Some(x0) ==> (forall|s: Site| #[trigger] sites_default_value(x0).contains(s) ==> sites_input_value_definition(n).contains(s)),
        n.directives matches Some(x0) ==> (forall|s: Site| #[trigger] sites_directives(x0).contains(s) ==> sites_input_value_definition(n).contains(s)),
{
}

/// Nothing is lost in the syntax errors of a `ObjectTypeExtension`: they report
/// its own missing tokens and the errors of the nodes it holds.
pub proof fn law_sites_object_type_extension_complete(n: ObjectTypeExtension)
    ensures
        n.name matches Recoverable::Missing(m) ==> sites_object_type_extension(n).contains(Site::Missing(m)),
        n.name matches Recoverable::Present(x0) ==> (forall|s: Site| #[trigger] sites_named_type(x0).contains(s) ==> sites_object_type_extension(n).contains(s)),
        n.implements_interfaces matches Some(x0) ==> (forall|s: Site| #[trigger] sites_implements_interfaces(x0).contains(s) ==> sites_object_type_extension(n).contains(s)),
        n.directives matches Some(x0) ==> (forall|s: Site| #[trigger] sites_directives(x0).contains(s) ==> sites_object_type_extension(n).contains(s)),
        n.fields_definition matches Some(x0) ==> (forall|s: Site| #[trigger] sites_fields_definition(x0).contains(s) ==> sites_object_type_extension(n).contains(s)),
{
}

/// Nothing is lost in the syntax errors of a `InterfaceTypeDefinition`: they report
/// its own missing tokens and the errors of the nodes it holds.
pub proof fn law_sites_interface_type_definition_complete(n: InterfaceTypeDefinition)
    ensures
        n.description matches Some(x0) ==> (forall|s: Site| #[trigger] sites_description(x0).contains(s) ==> sites_interface_type_definition(n).contains(s)),
        n.name matches Recoverable::Missing(m) ==> sites_interface_type_definition(n).contains(Site::Missing(m)),
        n.implements_interfaces matches Some(x0) ==> (forall|s: Site| #[trigger] sites_implements_interfaces(x0).contains(s) ==> sites_interface_type_definition(n).contains(s)),
        n.directives matches Some(x0) ==> (forall|s: Site| #[trigger] sites_directives(x0).contains(s) ==> sites_interface_type_definition(n).contains(s)),
        n.fields_definition matches Some(x0) ==> (forall|s: Site| #[trigger] sites_fields_definition(x0).contains(s) ==> sites_interface_type_definition(n).contains(s)),
{
}

/// Nothing is lost in the syntax errors of a `InterfaceTypeExtension`: they report
/// its own missing tokens and the errors of the nodes it holds.
pub proof fn law_sites_interface_type_extension_complete(n: InterfaceTypeExtension)
    ensures
        n.name matches Recoverable::Missing(m) ==> sites_interface_type_extension(n).contains(Site::Missing(m)),
        n.name matches Recoverable::Present(x0) ==> (forall|s: Site| #[trigger] sites_named_type(x0).contains(s) ==> sites_interface_type_extension(n).contains(s)),
        n.implements_interfaces matches Some(x0) ==> (forall|s: Site| #[trigger] sites_implements_interfaces(x0).contains(s) ==> sites_interface_type_extension(n).contains(s)),
        n.directives matches Some(x0) ==> (forall|s: Site| #[trigger] sites_directives(x0).contains(s) ==> sites_interface_type_extension(n).contains(s)),
        n.fields_definition matches Some(x0) ==> (forall|s: Site| #[trigger] sites_fields_definition(x0).contains(s) ==> sites_interface_type_extension(n).contains(s)),
{
}

/// Nothing is lost in the syntax errors of a `UnionTypeDefinition`: they report
/// its own missing tokens and the errors of the nodes it holds.
pub proof fn law_sites_union_type_definition_complete(n: UnionTypeDefinition)
    ensures
        n.description matches Some(x0) ==> (forall|s: Site| #[trigger] sites_description(x0).contains(s) ==> sites_union_type_definition(n).contains(s)),
        n.name matches Recoverable::Missing(m) ==> sites_union_type_definition(n).contains(Site::Missing(m)),
        n.directives matches Some(x0) ==> (forall|s: Site| #[trigger] sites_directives(x0).contains(s) ==> sites_union_type_definition(n).contains(s)),
        n.member_types matches Some(x0) ==> (forall|s: Site| #[trigger] sites_union_member_types(x0).contains(s) ==> sites_union_type_definition(n).contains(s)),
{
}

/// Nothing is lost in the syntax errors of a `UnionMemberTypes`: they report
/// its own missing tokens and the errors of the nodes it holds.
pub proof fn law_sites_union_member_types_complete(n: UnionMemberTypes)
    ensures
        n.first matches Recoverable::Missing(m) ==> sites_union_member_types(n).contains(Site::Missing(m)),
        n.first matches Recoverable::Present(x0) ==> (forall|s: Site| #[trigger] sites_named_type(*x0.0).contains(s) ==> sites_union_member_types(n).contains(s)),
        forall|s: Site| #[trigger] sites_list_punctuator_recoverable_shared_named_type(n.types.0@).contains(s) ==> sites_union_member_types(n).contains(s),
{
}

/// Nothing is lost in the syntax errors of a `UnionTypeExtension`: they report
/// its own missing tokens and the errors of the nodes it holds.
pub proof fn law_sites_union_type_extension_complete(n: UnionTypeExtension)
    ensures
        n.name matches Recoverable::Missing(m) ==> sites_union_type_extension(n).contains(Site::Missing(m)),
        n.name matches Recoverable::Present(x0) ==> (forall|s: Site| #[trigger] sites_named_type(x0).contains(s) ==> sites_union_type_extension(n).contains(s)),
        n.directives matches Some(x0) ==> (forall|s: Site| #[trigger] sites_directives(x0).contains(s) ==> sites_union_type_extension(n).contains(s)),
        n.member_types matches Some(x0) ==> (forall|s: Site| #[trigger] sites_union_member_types(x0).contains(s) ==> sites_union_type_extension(n).contains(s)),
{
}

/// Nothing is lost in the syntax errors of a `EnumTypeDefinition`: they report
/// its own missing tokens and the errors of the nodes it holds.
pub proof fn law_sites_enum_type_definition_complete(n: EnumTypeDefinition)
    ensures
        n.description matches Some(x0) ==> (forall|s: Site| #[trigger] sites_description(x0).contains(s) ==> sites_enum_type_definition(n).contains(s)),
        n.name matches Recoverable::Missing(m) ==> sites_enum_type_definition(n).contains(Site::Missing(m)),
        n.directives matches Some(x0) ==> (forall|s: Site| #[trigger] sites_directives(x0).contains(s) ==> sites_enum_type_definition(n).contains(s)),
        n.values_definition matches Some(x0) ==> (forall|s: Site| #[trigger] sites_enum_values_definition(x0).contains(s) ==> sites_enum_type_definition(n).contains(s)),
{
}

/// Nothing is lost in the syntax errors of a `EnumValuesDefinition`: they report
/// its own missing tokens and the errors of the nodes it holds.
pub proof fn law_sites_enum_values_definition_complete(n: EnumValuesDefinition)
    ensures
        n.braces.1 matches Recoverable::Missing(m) ==> sites_enum_values_definition(n).contains(Site::Missing(m)),
        forall|s: Site| #[trigger] sites_list_shared_enum_value_definition(n.definitions.0@).contains(s) ==> sites_enum_values_definition(n).contains(s),
{
}

/// Nothing is lost in the syntax errors of a `EnumValueDefinition`: they report
/// its own missing tokens and the errors of the nodes it holds.
pub proof fn law_sites_enum_value_definition_complete(n: EnumValueDefinition)
    ensures
        n.description matches Some(x0) ==> (forall|s: Site| #[trigger] sites_description(x0).contains(s) ==> sites_enum_value_definition(n).contains(s)),
        forall|s: Site| #[trigger] sites_enum_value(n.enum_value).contains(s) ==> sites_enum_value_definition(n).contains(s),
        n.directives matches Some(x0) ==> (forall|s: Site| #[trigger] sites_directives(x0).contains(s) ==> sites_enum_value_definition(n).contains(s)),
{
}

/// Nothing is lost in the syntax errors of a `EnumTypeExtension`: they report
/// its own missing tokens and the errors of the nodes it holds.
pub proof fn law_sites_enum_type_extension_complete(n: EnumTypeExtension)
    ensures
        n.name matches Recoverable::Missing(m) ==> sites_enum_type_extension(n).contains(Site::Missing(m)),
        n.name matches Recoverable::Present(x0) ==> (forall|s: Site| #[trigger] sites_named_type(x0).contains(s) ==> sites_enum_type_extension(n).contains(s)),
        n.directives matches Some(x0) ==> (forall|s: Site| #[trigger] sites_directives(x0).contains(s) ==> sites_enum_type_extension(n).contains(s)),
        n.values_definition matches Some(x0) ==> (forall|s: Site| #[trigger] sites_enum_values_definition(x0).contains(s) ==> sites_enum_type_extension(n).contains(s)),
{
}

/// Nothing is lost in the syntax errors of a `InputObjectTypeDefinition`: they report
/// its own missing tokens and the errors of the nodes it holds.
pub proof fn law_sites_input_object_type_definition_complete(n: InputObjectTypeDefinition)
    ensures
        n.description matches Some(x0) ==> (forall|s: Site| #[trigger] sites_description(x0).contains(s) ==> sites_input_object_type_definition(n).contains(s)),
        n.name matches Recoverable::Missing(m) ==> sites_input_object_type_definition(n).contains(Site::Missing(m)),
        n.directives matches Some(x0) ==> (forall|s: Site| #[trigger] sites_directives(x0).contains(s) ==> sites_input_object_type_definition(n).contains(s)),
        n.fields_definition matches Some(x0) ==> (forall|s: Site| #[trigger] sites_input_fields_definition(x0).contains(s) ==> sites_input_object_type_definition(n).contains(s)),
{
}

/// Nothing is lost in the syntax errors of a `InputFieldsDefinition`: they report
/// its own missing tokens and the errors of the nodes it holds.
pub proof fn law_sites_input_fields_definition_complete(n: InputFieldsDefinition)
    ensures
        n.braces.1 matches Recoverable::Missing(m) ==> sites_input_fields_definition(n).contains(Site::Missing(m)),
        forall|s: Site| #[trigger] sites_list_shared_input_value_definition(n.definitions.0@).contains(s) ==> sites_input_fields_definition(n).contains(s),
{
}

/// Nothing is lost in the syntax errors of a `InputObjectTypeExtension`: they report
/// its own missing tokens and the errors of the nodes it holds.
pub proof fn law_sites_input_object_type_extension_complete(n: InputObjectTypeExtension)
    ensures
        n.name matches Recoverable::Missing(m) ==> sites_input_object_type_extension(n).contains(Site::Missing(m)),
        n.name matches Recoverable::Present(x0) ==> (forall|s: Site| #[trigger] sites_named_type(x0).contains(s) ==> sites_input_object_type_extension(n).contains(s)),
        n.directives matches Some(x0) ==> (forall|s: Site| #[trigger] sites_directives(x0).contains(s) ==> sites_input_object_type_extension(n).contains(s)),
        n.fields_definition matches Some(x0) ==> (forall|s: Site| #[trigger] sites_input_fields_definition(x0).contains(s) ==> sites_input_object_type_extension(n).contains(s)),
{
}

/// Nothing is lost in the syntax errors of a `DirectiveDefinition`: they report
/// its own missing tokens and the errors of the nodes it holds.
pub proof fn law_sites_directive_definition_complete(n: DirectiveDefinition)
    ensures
        n.description matches Some(x0) ==> (forall|s: Site| #[trigger] sites_description(x0).contains(s) ==> sites_directive_definition(n).contains(s)),
        n.at matches Recoverable::Missing(m) ==> sites_directive_definition(n).contains(Site::Missing(m)),
        n.name matches Recoverable::Missing(m) ==> sites_directive_definition(n).contains(Site::Missing(m)),
        n.arguments_definition matches Some(x0) ==> (forall|s: Site| #[trigger] sites_arguments_definition(*x0.0).contains(s) ==> sites_directive_definition(n).contains(s)),
        n.locations matches Recoverable::Missing(m) ==> sites_directive_definition(n).contains(Site::Missing(m)),
        n.locations matches Recoverable::Present(x0) ==> (forall|s: Site| #[trigger] sites_directive_locations(x0).contains(s) ==> sites_directive_definition(n).contains(s)),
{
}

/// Nothing is lost in the syntax errors of a `DirectiveLocations`: they report
/// its own missing tokens and the errors of the nodes it holds.
pub proof fn law_sites_directive_locations_complete(n: DirectiveLocations)
    ensures
        n.first matches Recoverable::Missing(m) ==> sites_directive_locations(n).contains(Site::Missing(m)),
        n.first matches Recoverable::Present(x0) ==> (forall|s: Site| #[trigger] sites_directive_location(x0).contains(s) ==> sites_directive_locations(n).contains(s)),
        forall|s: Site| #[trigger] sites_list_punctuator_recoverable_directive_location(n.locations.0@).contains(s) ==> sites_directive_locations(n).contains(s),
{
}

/// Nothing is lost in the syntax errors of a `DirectiveLocation`: they report
/// the errors of the variant it holds.
pub proof fn law_sites_directive_location_complete(n: DirectiveLocation)
    ensures
        n matches DirectiveLocation::ExecutableDirectiveLocation(y) ==> (forall|s: Site| #[trigger] sites_executable_directive_location(y).contains(s) ==> sites_directive_location(n).contains(s)),
        n matches DirectiveLocation::TypeSystemDirectiveLocation(y) ==> (forall|s: Site| #[trigger] sites_type_system_directive_location(y).contains(s) ==> sites_directive_location(n).contains(s)),
{
}

/// The syntax errors of one item of a list of `(Punctuator, Recoverable<DirectiveLocation>)`.
pub open spec fn sites_item_punctuator_recoverable_directive_location(x: (Punctuator, Recoverable<DirectiveLocation>)) -> Seq<Site> {
    match x.1 { Recoverable::Present(x) => sites_directive_location(x), Recoverable::Missing(m) => seq![Site::Missing(m)] }
}

/// Nothing is lost in the syntax errors of a list: they report the errors
/// of each item.
pub proof fn law_sites_list_punctuator_recoverable_directive_location_complete(xs: Seq<(Punctuator, Recoverable<DirectiveLocation>)>)
    ensures
        forall|i: int, s: Site| 0 <= i < xs.len() && #[trigger] sites_item_punctuator_recoverable_directive_location(xs[i]).contains(s) ==> sites_list_punctuator_recoverable_directive_location(xs).contains(s),
    decreases xs.len(),
{
    if xs.len() > 0 {
        law_sites_list_punctuator_recoverable_directive_location_complete(xs.drop_last());
        assert forall|i: int, s: Site| 0 <= i < xs.len() && #[trigger] sites_item_punctuator_recoverable_directive_location(xs[i]).contains(s) implies sites_list_punctuator_recoverable_directive_location(xs).contains(s) by {
            if i < xs.len() - 1 {
                assert(xs[i] == xs.drop_last()[i]);
            }
        }
    }
}

/// The syntax errors of one item of a list of `(Punctuator, Recoverable<Shared<NamedType>>)`.
pub open spec fn sites_item_punctuator_recoverable_shared_named_type(x: (Punctuator, Recoverable<Shared<NamedType>>)) -> Seq<Site> {
    match x.1 { Recoverable::Present(x) => sites_named_type(*x.0), Recoverable::Missing(m) => seq![Site::Missing(m)] }
}

/// Nothing is lost in the syntax errors of a list: they report the errors
/// of each item.
pub proof fn law_sites_list_punctuator_recoverable_shared_named_type_complete(xs: Seq<(Punctuator, Recoverable<Shared<NamedType>>)>)
    ensures
        forall|i: int, s: Site| 0 <= i < xs.len() && #[trigger] sites_item_punctuator_recoverable_shared_named_type(xs[i]).contains(s) ==> sites_list_punctuator_recoverable_shared_named_type(xs).contains(s),
    decreases xs.len(),
{
    if xs.len() > 0 {
        law_sites_list_punctuator_recoverable_shared_named_type_complete(xs.drop_last());
        assert forall|i: int, s: Site| 0 <= i < xs.len() && #[trigger] sites_item_punctuator_recoverable_shared_named_type(xs[i]).contains(s) implies sites_list_punctuator_recoverable_shared_named_type(xs).contains(s) by {
            if i < xs.len() - 1 {
                assert(xs[i] == xs.drop_last()[i]);
            }
        }
    }
}

/// The syntax errors of one item of a list of `ExecutableDefinition`.
pub open spec fn sites_item_executable_definition(x: ExecutableDefinition) -> Seq<Site> {
    sites_executable_definition(x)
}

/// Nothing is lost in the syntax errors of a list: they report the errors
/// of each item.
pub proof fn law_sites_list_executable_definition_complete(xs: Seq<ExecutableDefinition>)
    ensures
        forall|i: int, s: Site| 0 <= i < xs.len() && #[trigger] sites_item_executable_definition(xs[i]).contains(s) ==> sites_list_executable_definition(xs).contains(s),
    decreases xs.len(),
{
    if xs.len() > 0 {
        law_sites_list_executable_definition_complete(xs.drop_last());
        assert forall|i: int, s: Site| 0 <= i < xs.len() && #[trigger] sites_item_executable_definition(xs[i]).contains(s) implies sites_list_executable_definition(xs).contains(s) by {
            if i < xs.len() - 1 {
                assert(xs[i] == xs.drop_last()[i]);
            }
        }
    }
}

/// The syntax errors of one item of a list of `ObjectField`.
pub open spec fn sites_item_object_field(x: ObjectField) -> Seq<Site> {
    sites_object_field(x)
}

/// Nothing is lost in the syntax errors of a list: they report the errors
/// of each item.
pub proof fn law_sites_list_object_field_complete(xs: Seq<ObjectField>)
    ensures
        forall|i: int, s: Site| 0 <= i < xs.len() && #[trigger] sites_item_object_field(xs[i]).contains(s) ==> sites_list_object_field(xs).contains(s),
    decreases xs.len(),
{
    if xs.len() > 0 {
        law_sites_list_object_field_complete(xs.drop_last());
        assert forall|i: int, s: Site| 0 <= i < xs.len() && #[trigger] sites_item_object_field(xs[i]).contains(s) implies sites_list_object_field(xs).contains(s) by {
            if i < xs.len() - 1 {
                assert(xs[i] == xs.drop_last()[i]);
            }
        }
    }
}

/// The syntax errors of one item of a list of `RootOperationTypeDefinition`.
pub open spec fn sites_item_root_operation_type_definition(x: RootOperationTypeDefinition) -> Seq<Site> {
    sites_root_operation_type_definition(x)
}

/// Nothing is lost in the syntax errors of a list: they report the errors
/// of each item.
pub proof fn law_sites_list_root_operation_type_definition_complete(xs: Seq<RootOperationTypeDefinition>)
    ensures
        forall|i: int, s: Site| 0 <= i < xs.len() && #[trigger] sites_item_root_operation_type_definition(xs[i]).contains(s) ==> sites_list_root_operation_type_definition(xs).contains(s),
    decreases xs.len(),
{
    if xs.len() > 0 {
        law_sites_list_root_operation_type_definition_complete(xs.drop_last());
        assert forall|i: int, s: Site| 0 <= i < xs.len() && #[trigger] sites_item_root_operation_type_definition(xs[i]).contains(s) implies sites_list_root_operation_type_definition(xs).contains(s) by {
            if i < xs.len() - 1 {
                assert(xs[i] == xs.drop_last()[i]);
            }
        }
    }
}

/// The syntax errors of one item of a list of `Selection`.
pub open spec fn sites_item_selection(x: Selection) -> Seq<Site> {
    sites_selection(x)
}

/// Nothing is lost in the syntax errors of a list: they report the errors
/// of each item.
pub proof fn law_sites_list_selection_complete(xs: Seq<Selection>)
    ensures
        forall|i: int, s: Site| 0 <= i < xs.len() && #[trigger] sites_item_selection(xs[i]).contains(s) ==> sites_list_selection(xs).contains(s),
    decreases xs.len(),
{
    if xs.len() > 0 {
        law_sites_list_selection_complete(xs.drop_last());
        assert forall|i: int, s: Site| 0 <= i < xs.len() && #[trigger] sites_item_selection(xs[i]).contains(s) implies sites_list_selection(xs).contains(s) by {
            if i < xs.len() - 1 {
                assert(xs[i] == xs.drop_last()[i]);
            }
        }
    }
}

/// The syntax errors of one item of a list of `Shared<Argument>`.
pub open spec fn sites_item_shared_argument(x: Shared<Argument>) -> Seq<Site> {
    sites_argument(*x.0)
}

/// Nothing is lost in the syntax errors of a list: they report the errors
/// of each item.
pub proof fn law_sites_list_shared_argument_complete(xs: Seq<Shared<Argument>>)
    ensures
        forall|i: int, s: Site| 0 <= i < xs.len() && #[trigger] sites_item_shared_argument(xs[i]).contains(s) ==> sites_list_shared_argument(xs).contains(s),
    decreases xs.len(),
{
    if xs.len() > 0 {
        law_sites_list_shared_argument_complete(xs.drop_last());
        assert forall|i: int, s: Site| 0 <= i < xs.len() && #[trigger] sites_item_shared_argument(xs[i]).contains(s) implies sites_list_shared_argument(xs).contains(s) by {
            if i < xs.len() - 1 {
                assert(xs[i] == xs.drop_last()[i]);
            }
        }
    }
}

/// The syntax errors of one item of a list of `Shared<Definition>`.
pub open spec fn sites_item_shared_definition(x: Shared<Definition>) -> Seq<Site> {
    sites_definition(*x.0)
}

/// Nothing is lost in the syntax errors of a list: they report the errors
/// of each item.
pub proof fn law_sites_list_shared_definition_complete(xs: Seq<Shared<Definition>>)
    ensures
        forall|i: int, s: Site| 0 <= i < xs.len() && #[trigger] sites_item_shared_definition(xs[i]).contains(s) ==> sites_list_shared_definition(xs).contains(s),
    decreases xs.len(),
{
    if xs.len() > 0 {
        law_sites_list_shared_definition_complete(xs.drop_last());
        assert forall|i: int, s: Site| 0 <= i < xs.len() && #[trigger] sites_item_shared_definition(xs[i]).contains(s) implies sites_list_shared_definition(xs).contains(s) by {
            if i < xs.len() - 1 {
                assert(xs[i] == xs.drop_last()[i]);
            }
        }
    }
}

/// The syntax errors of one item of a list of `Shared<Directive>`.
pub open spec fn sites_item_shared_directive(x: Shared<Directive>) -> Seq<Site> {
    sites_directive(*x.0)
}

/// Nothing is lost in the syntax errors of a list: they report the errors
/// of each item.
pub proof fn law_sites_list_shared_directive_complete(xs: Seq<Shared<Directive>>)
    ensures
        forall|i: int, s: Site| 0 <= i < xs.len() && #[trigger] sites_item_shared_directive(xs[i]).contains(s) ==> sites_list_shared_directive(xs).contains(s),
    decreases xs.len(),
{
    if xs.len() > 0 {
        law_sites_list_shared_directive_complete(xs.drop_last());
        assert forall|i: int, s: Site| 0 <= i < xs.len() && #[trigger] sites_item_shared_directive(xs[i]).contains(s) implies sites_list_shared_directive(xs).contains(s) by {
            if i < xs.len() - 1 {
                assert(xs[i] == xs.drop_last()[i]);
            }
        }
    }
}

/// The syntax errors of one item of a list of `Shared<EnumValueDefinition>`.
pub open spec fn sites_item_shared_enum_value_definition(x: Shared<EnumValueDefinition>) -> Seq<Site> {
    sites_enum_value_definition(*x.0)
}

/// Nothing is lost in the syntax errors of a list: they report the errors
/// of each item.
pub proof fn law_sites_list_shared_enum_value_definition_complete(xs: Seq<Shared<EnumValueDefinition>>)
    ensures
        forall|i: int, s: Site| 0 <= i < xs.len() && #[trigger] sites_item_shared_enum_value_definition(xs[i]).contains(s) ==> sites_list_shared_enum_value_definition(xs).contains(s),
    decreases xs.len(),
{
    if xs.len() > 0 {
        law_sites_list_shared_enum_value_definition_complete(xs.drop_last());
        assert forall|i: int, s: Site| 0 <= i < xs.len() && #[trigger] sites_item_shared_enum_value_definition(xs[i]).contains(s) implies sites_list_shared_enum_value_definition(xs).contains(s) by {
            if i < xs.len() - 1 {
                assert(xs[i] == xs.drop_last()[i]);
            }
        }
    }
}

/// The syntax errors of one item of a list of `Shared<FieldDefinition>`.
pub open spec fn sites_item_shared_field_definition(x: Shared<FieldDefinition>) -> Seq<Site> {
    sites_field_definition(*x.0)
}

/// Nothing is lost in the syntax errors of a list: they report the errors
/// of each item.
pub proof fn law_sites_list_shared_field_definition_complete(xs: Seq<Shared<FieldDefinition>>)
    ensures
        forall|i: int, s: Site| 0 <= i < xs.len() && #[trigger] sites_item_shared_field_definition(xs[i]).contains(s) ==> sites_list_shared_field_definition(xs).contains(s),
    decreases xs.len(),
{
    if xs.len() > 0 {
        law_sites_list_shared_field_definition_complete(xs.drop_last());
        assert forall|i: int, s: Site| 0 <= i < xs.len() && #[trigger] sites_item_shared_field_definition(xs[i]).contains(s) implies sites_list_shared_field_definition(xs).contains(s) by {
            if i < xs.len() - 1 {
                assert(xs[i] == xs.drop_last()[i]);
            }
        }
    }
}

/// The syntax errors of one item of a list of `Shared<InputValueDefinition>`.
pub open spec fn sites_item_shared_input_value_definition(x: Shared<InputValueDefinition>) -> Seq<Site> {
    sites_input_value_definition(*x.0)
}

/// Nothing is lost in the syntax errors of a list: they report the errors
/// of each item.
pub proof fn law_sites_list_shared_input_value_definition_complete(xs: Seq<Shared<InputValueDefinition>>)
    ensures
        forall|i: int, s: Site| 0 <= i < xs.len() && #[trigger] sites_item_shared_input_value_definition(xs[i]).contains(s) ==> sites_list_shared_input_value_definition(xs).contains(s),
    decreases xs.len(),
{
    if xs.len() > 0 {
        law_sites_list_shared_input_value_definition_complete(xs.drop_last());
        assert forall|i: int, s: Site| 0 <= i < xs.len() && #[trigger] sites_item_shared_input_value_definition(xs[i]).contains(s) implies sites_list_shared_input_value_definition(xs).contains(s) by {
            if i < xs.len() - 1 {
                assert(xs[i] == xs.drop_last()[i]);
            }
        }
    }
}

/// The syntax errors of one item of a list of `Shared<Value>`.
pub open spec fn sites_item_shared_value(x: Shared<Value>) -> Seq<Site> {
    sites_value(*x.0)
}

/// Nothing is lost in the syntax errors of a list: they report the errors
/// of each item.
pub proof fn law_sites_list_shared_value_complete(xs: Seq<Shared<Value>>)
    ensures
        forall|i: int, s: Site| 0 <= i < xs.len() && #[trigger] sites_item_shared_value(xs[i]).contains(s) ==> sites_list_shared_value(xs).contains(s),
    decreases xs.len(),
{
    if xs.len() > 0 {
        law_sites_list_shared_value_complete(xs.drop_last());
        assert forall|i: int, s: Site| 0 <= i < xs.len() && #[trigger] sites_item_shared_value(xs[i]).contains(s) implies sites_list_shared_value(xs).contains(s) by {
            if i < xs.len() - 1 {
                assert(xs[i] == xs.drop_last()[i]);
            }
        }
    }
}

/// The syntax errors of one item of a list of `Shared<VariableDefinition>`.
pub open spec fn sites_item_shared_variable_definition(x: Shared<VariableDefinition>) -> Seq<Site> {
    sites_variable_definition(*x.0)
}

/// Nothing is lost in the syntax errors of a list: they report the errors
/// of each item.
pub proof fn law_sites_list_shared_variable_definition_complete(xs: Seq<Shared<VariableDefinition>>)
    ensures
        forall|i: int, s: Site| 0 <= i < xs.len() && #[trigger] sites_item_shared_variable_definition(xs[i]).contains(s) ==> sites_list_shared_variable_definition(xs).contains(s),
    decreases xs.len(),
{
    if xs.len() > 0 {
        law_sites_list_shared_variable_definition_complete(xs.drop_last());
        assert forall|i: int, s: Site| 0 <= i < xs.len() && #[trigger] sites_item_shared_variable_definition(xs[i]).contains(s) implies sites_list_shared_variable_definition(xs).contains(s) by {
            if i < xs.len() - 1 {
                assert(xs[i] == xs.drop_last()[i]);
            }
        }
    }
}

/// The syntax errors of one item of a list of `TypeSystemDefinition`.
pub open spec fn sites_item_type_system_definition(x: TypeSystemDefinition) -> Seq<Site> {
    sites_type_system_definition(x)
}

/// Nothing is lost in the syntax errors of a list: they report the errors
/// of each item.
pub proof fn law_sites_list_type_system_definition_complete(xs: Seq<TypeSystemDefinition>)
    ensures
        forall|i: int, s: Site| 0 <= i < xs.len() && #[trigger] sites_item_type_system_definition(xs[i]).contains(s) ==> sites_list_type_system_definition(xs).contains(s),
    decreases xs.len(),
{
    if xs.len() > 0 {
        law_sites_list_type_system_definition_complete(xs.drop_last());
        assert forall|i: int, s: Site| 0 <= i < xs.len() && #[trigger] sites_item_type_system_definition(xs[i]).contains(s) implies sites_list_type_system_definition(xs).contains(s) by {
            if i < xs.len() - 1 {
                assert(xs[i] == xs.drop_last()[i]);
            }
        }
    }
}

/// The syntax errors of one item of a list of `TypeSystemDefinitionOrExtension`.
pub open spec fn sites_item_type_system_definition_or_extension(x: TypeSystemDefinitionOrExtension) -> Seq<Site> {
    sites_type_system_definition_or_extension(x)
}

/// Nothing is lost in the syntax errors of a list: they report the errors
/// of each item.
pub proof fn law_sites_list_type_system_definition_or_extension_complete(xs: Seq<TypeSystemDefinitionOrExtension>)
    ensures
        forall|i: int, s: Site| 0 <= i < xs.len() && #[trigger] sites_item_type_system_definition_or_extension(xs[i]).contains(s) ==> sites_list_type_system_definition_or_extension(xs).contains(s),
    decreases xs.len(),
{
    if xs.len() > 0 {
        law_sites_list_type_system_definition_or_extension_complete(xs.drop_last());
        assert forall|i: int, s: Site| 0 <= i < xs.len() && #[trigger] sites_item_type_system_definition_or_extension(xs[i]).contains(s) implies sites_list_type_system_definition_or_extension(xs).contains(s) by {
            if i < xs.len() - 1 {
                assert(xs[i] == xs.drop_last()[i]);
            }
        }
    }
}

} // verus!
