use vstd::prelude::*;

use crate::ast::context::Shared;
use crate::ast::types::{
    Alias, Argument, Arguments, ArgumentsDefinition, BooleanValue, DefaultValue, Definition, Description, Directive, DirectiveDefinition, DirectiveLocation, DirectiveLocations, Directives, Document, EnumTypeDefinition, EnumTypeExtension, EnumValue, EnumValueDefinition, EnumValuesDefinition, ExecutableDefinition, ExecutableDirectiveLocation, ExecutableDocument, Field, FieldDefinition, FieldsDefinition, FragmentDefinition, FragmentSpread, ImplementsInterfaces, InlineFragment, InputFieldsDefinition, InputObjectTypeDefinition, InputObjectTypeExtension, InputValueDefinition, InterfaceTypeDefinition, InterfaceTypeExtension, ListType, ListValue, Missing, NamedType, NonNullType, NullValue, ObjectField, ObjectTypeDefinition, ObjectTypeExtension, ObjectValue, OperationDefinition, OperationType, Recoverable, RootOperationTypeDefinition, RootOperationTypeDefinitions, ScalarTypeDefinition, ScalarTypeExtension, SchemaDefinition, SchemaExtension, Selection, SelectionSet, Type, TypeCondition, TypeDefinition, TypeExtension, TypeSystemDefinition, TypeSystemDefinitionOrExtension, TypeSystemDirectiveLocation, TypeSystemDocument, TypeSystemExtension, TypeSystemExtensionDocument, UnionMemberTypes, UnionTypeDefinition, UnionTypeExtension, Value, Variable, VariableDefinition, VariableDefinitions,
};
use crate::lex::token::Punctuator;
use crate::lex::Span;

verus! {

/// The spans of all the tokens of a `Document`, in the order they stand in the source.
pub open spec fn tokens_document(n: Document) -> Seq<Span>
    decreases n, 0nat,
{
    (tokens_list_shared_definition(n.definitions.0@))
}

/// The spans of all the tokens of a `Definition`, in the order they stand in the source.
pub open spec fn tokens_definition(n: Definition) -> Seq<Span>
    decreases n, 0nat,
{
    match n {
        Definition::ExecutableDefinition(x) => tokens_executable_definition(x),
        Definition::TypeSystemDefinitionOrExtension(x) => tokens_type_system_definition_or_extension(x),
    }
}

/// The spans of all the tokens of a `ExecutableDocument`, in the order they stand in the source.
pub open spec fn tokens_executable_document(n: ExecutableDocument) -> Seq<Span>
    decreases n, 0nat,
{
    (tokens_list_executable_definition(n.definitions.0@))
}

/// The spans of all the tokens of a `ExecutableDefinition`, in the order they stand in the source.
pub open spec fn tokens_executable_definition(n: ExecutableDefinition) -> Seq<Span>
    decreases n, 0nat,
{
    match n {
        ExecutableDefinition::OperationDefinition(x) => tokens_operation_definition(*x.0),
        ExecutableDefinition::FragmentDefinition(x) => tokens_fragment_definition(*x.0),
    }
}

/// The spans of all the tokens of a `OperationDefinition`, in the order they stand in the source.
pub open spec fn tokens_operation_definition(n: OperationDefinition) -> Seq<Span>
    decreases n, 0nat,
{
    (match n.ty { Some(x) => tokens_operation_type(x), None => Seq::empty() }) + (match n.name { Some(x) => seq![x.0.span], None => Seq::empty() }) + (match n.variable_definitions { Some(x) => tokens_variable_definitions(x), None => Seq::empty() }) + (match n.directives { Some(x) => tokens_directives(x), None => Seq::empty() }) + (match n.selection_set { Recoverable::Present(x) => tokens_selection_set(*x.0), Recoverable::Missing(_) => Seq::empty() })
}

/// The spans of all the tokens of a `OperationType`, in the order they stand in the source.
pub open spec fn tokens_operation_type(n: OperationType) -> Seq<Span>
    decreases n, 0nat,
{
    match n {
        OperationType::Query(x) => seq![x.0.span],
        OperationType::Mutation(x) => seq![x.0.span],
        OperationType::Subscription(x) => seq![x.0.span],
    }
}

/// The spans of all the tokens of a `SelectionSet`, in the order they stand in the source.
pub open spec fn tokens_selection_set(n: SelectionSet) -> Seq<Span>
    decreases n, 0nat,
{
    (seq![n.braces.0.0.span]) + (tokens_list_selection(n.selections.0@)) + (match n.braces.1 { Recoverable::Present(x) => seq![x.0.span], Recoverable::Missing(_) => Seq::empty() })
}

/// The spans of all the tokens of a `Selection`, in the order they stand in the source.
pub open spec fn tokens_selection(n: Selection) -> Seq<Span>
    decreases n, 0nat,
{
    match n {
        Selection::Field(x) => tokens_field(*x.0),
        Selection::FragmentSpread(x) => tokens_fragment_spread(*x.0),
        Selection::InlineFragment(x) => tokens_inline_fragment(x),
    }
}

/// The spans of all the tokens of a `Field`, in the order they stand in the source.
pub open spec fn tokens_field(n: Field) -> Seq<Span>
    decreases n, 0nat,
{
    (match n.alias { Some(x) => tokens_alias(x), None => Seq::empty() }) + (match n.name { Recoverable::Present(x) => seq![x.0.span], Recoverable::Missing(_) => Seq::empty() }) + (match n.arguments { Some(x) => tokens_arguments(*x.0), None => Seq::empty() }) + (match n.directives { Some(x) => tokens_directives(x), None => Seq::empty() }) + (match n.selection_set { Some(x) => tokens_selection_set(*x.0), None => Seq::empty() })
}

/// The spans of all the tokens of a `Alias`, in the order they stand in the source.
pub open spec fn tokens_alias(n: Alias) -> Seq<Span>
    decreases n, 0nat,
{
    (seq![n.name.0.span]) + (seq![n.colon.0.span])
}

/// The spans of all the tokens of a `Arguments`, in the order they stand in the source.
pub open spec fn tokens_arguments(n: Arguments) -> Seq<Span>
    decreases n, 0nat,
{
    (seq![n.parens.0.0.span]) + (tokens_list_shared_argument(n.items.0@)) + (match n.parens.1 { Recoverable::Present(x) => seq![x.0.span], Recoverable::Missing(_) => Seq::empty() })
}

/// The spans of all the tokens of a `Argument`, in the order they stand in the source.
pub open spec fn tokens_argument(n: Argument) -> Seq<Span>
    decreases n, 0nat,
{
    (seq![n.name.0.span]) + (match n.colon { Recoverable::Present(x) => seq![x.0.span], Recoverable::Missing(_) => Seq::empty() }) + (match n.value { Recoverable::Present(x) => tokens_value(*x.0), Recoverable::Missing(_) => Seq::empty() })
}

/// The spans of all the tokens of a `FragmentSpread`, in the order they stand in the source.
pub open spec fn tokens_fragment_spread(n: FragmentSpread) -> Seq<Span>
    decreases n, 0nat,
{
    (seq![n.dots.0.span]) + (seq![n.fragment_name.0.span]) + (match n.directives { Some(x) => tokens_directives(x), None => Seq::empty() })
}

/// The spans of all the tokens of a `InlineFragment`, in the order they stand in the source.
pub open spec fn tokens_inline_fragment(n: InlineFragment) -> Seq<Span>
    decreases n, 0nat,
{
    (seq![n.dots.0.span]) + (match n.type_condition { Some(x) => tokens_type_condition(x), None => Seq::empty() }) + (match n.directives { Some(x) => tokens_directives(x), None => Seq::empty() }) + (match n.selection_set { Recoverable::Present(x) => tokens_selection_set(*x.0), Recoverable::Missing(_) => Seq::empty() })
}

/// The spans of all the tokens of a `FragmentDefinition`, in the order they stand in the source.
pub open spec fn tokens_fragment_definition(n: FragmentDefinition) -> Seq<Span>
    decreases n, 0nat,
{
    (seq![n.fragment.0.span]) + (match n.fragment_name { Recoverable::Present(x) => seq![x.0.span], Recoverable::Missing(_) => Seq::empty() }) + (match n.type_condition { Recoverable::Present(x) => tokens_type_condition(x), Recoverable::Missing(_) => Seq::empty() }) + (match n.directives { Some(x) => tokens_directives(x), None => Seq::empty() }) + (match n.selection_set { Recoverable::Present(x) => tokens_selection_set(*x.0), Recoverable::Missing(_) => Seq::empty() })
}

/// The spans of all the tokens of a `TypeCondition`, in the order they stand in the source.
pub open spec fn tokens_type_condition(n: TypeCondition) -> Seq<Span>
    decreases n, 0nat,
{
    (seq![n.on.0.span]) + (match n.named_type { Recoverable::Present(x) => tokens_named_type(x), Recoverable::Missing(_) => Seq::empty() })
}

/// The spans of all the tokens of a `Value`, in the order they stand in the source.
pub open spec fn tokens_value(n: Value) -> Seq<Span>
    decreases n, 0nat,
{
    match n {
        Value::Variable(x) => tokens_variable(x),
        Value::IntValue(x) => seq![x.0.span],
        Value::FloatValue(x) => seq![x.0.span],
        Value::StringValue(x) => seq![x.0.span],
        Value::BooleanValue(x) => tokens_boolean_value(x),
        Value::NullValue(x) => tokens_null_value(x),
        Value::EnumValue(x) => tokens_enum_value(x),
        Value::ListValue(x) => tokens_list_value(x),
        Value::ObjectValue(x) => tokens_object_value(x),
    }
}

/// The spans of all the tokens of a `BooleanValue`, in the order they stand in the source.
pub open spec fn tokens_boolean_value(n: BooleanValue) -> Seq<Span>
    decreases n, 0nat,
{
    match n {
        BooleanValue::True(x) => seq![x.0.span],
        BooleanValue::False(x) => seq![x.0.span],
    }
}

/// The spans of all the tokens of a `NullValue`, in the order they stand in the source.
pub open spec fn tokens_null_value(n: NullValue) -> Seq<Span>
    decreases n, 0nat,
{
    seq![n.0.0.span]
}

/// The spans of all the tokens of a `EnumValue`, in the order they stand in the source.
pub open spec fn tokens_enum_value(n: EnumValue) -> Seq<Span>
    decreases n, 0nat,
{
    seq![n.0.0.span]
}

/// The spans of all the tokens of a `ListValue`, in the order they stand in the source.
pub open spec fn tokens_list_value(n: ListValue) -> Seq<Span>
    decreases n, 0nat,
{
    (seq![n.brackets.0.0.span]) + (tokens_list_shared_value(n.values.0@)) + (match n.brackets.1 { Recoverable::Present(x) => seq![x.0.span], Recoverable::Missing(_) => Seq::empty() })
}

/// The spans of all the tokens of a `ObjectValue`, in the order they stand in the source.
pub open spec fn tokens_object_value(n: ObjectValue) -> Seq<Span>
    decreases n, 0nat,
{
    (seq![n.braces.0.0.span]) + (tokens_list_object_field(n.object_fields.0@)) + (match n.braces.1 { Recoverable::Present(x) => seq![x.0.span], Recoverable::Missing(_) => Seq::empty() })
}

/// The spans of all the tokens of a `ObjectField`, in the order they stand in the source.
pub open spec fn tokens_object_field(n: ObjectField) -> Seq<Span>
    decreases n, 0nat,
{
    (seq![n.name.0.span]) + (match n.colon { Recoverable::Present(x) => seq![x.0.span], Recoverable::Missing(_) => Seq::empty() }) + (match n.value { Recoverable::Present(x) => tokens_value(*x.0), Recoverable::Missing(_) => Seq::empty() })
}

/// The spans of all the tokens of a `VariableDefinitions`, in the order they stand in the source.
pub open spec fn tokens_variable_definitions(n: VariableDefinitions) -> Seq<Span>
    decreases n, 0nat,
{
    (seq![n.parens.0.0.span]) + (tokens_list_shared_variable_definition(n.variable_definitions.0@)) + (match n.parens.1 { Recoverable::Present(x) => seq![x.0.span], Recoverable::Missing(_) => Seq::empty() })
}

/// The spans of all the tokens of a `VariableDefinition`, in the order they stand in the source.
pub open spec fn tokens_variable_definition(n: VariableDefinition) -> Seq<Span>
    decreases n, 0nat,
{
    (tokens_variable(n.variable)) + (match n.colon { Recoverable::Present(x) => seq![x.0.span], Recoverable::Missing(_) => Seq::empty() }) + (match n.ty { Recoverable::Present(x) => tokens_type(*x.0), Recoverable::Missing(_) => Seq::empty() }) + (match n.default_value { Some(x) => tokens_default_value(x), None => Seq::empty() }) + (match n.directives { Some(x) => tokens_directives(x), None => Seq::empty() })
}

/// The spans of all the tokens of a `Variable`, in the order they stand in the source.
pub open spec fn tokens_variable(n: Variable) -> Seq<Span>
    decreases n, 0nat,
{
    (seq![n.dollar.0.span]) + (match n.name { Recoverable::Present(x) => seq![x.0.span], Recoverable::Missing(_) => Seq::empty() })
}

/// The spans of all the tokens of a `DefaultValue`, in the order they stand in the source.
pub open spec fn tokens_default_value(n: DefaultValue) -> Seq<Span>
    decreases n, 0nat,
{
    (seq![n.eq.0.span]) + (match n.value { Recoverable::Present(x) => tokens_value(*x.0), Recoverable::Missing(_) => Seq::empty() })
}

/// The spans of all the tokens of a `Type`, in the order they stand in the source.
pub open spec fn tokens_type(n: Type) -> Seq<Span>
    decreases n, 0nat,
{
    match n {
        Type::Named(x) => tokens_named_type(x),
        Type::List(x) => tokens_list_type(x),
        Type::NonNull(x) => tokens_non_null_type(x),
    }
}

/// The spans of all the tokens of a `NamedType`, in the order they stand in the source.
pub open spec fn tokens_named_type(n: NamedType) -> Seq<Span>
    decreases n, 0nat,
{
    seq![n.0.0.span]
}

/// The spans of all the tokens of a `ListType`, in the order they stand in the source.
pub open spec fn tokens_list_type(n: ListType) -> Seq<Span>
    decreases n, 0nat,
{
    (seq![n.brackets.0.0.span]) + (match n.ty { Recoverable::Present(x) => tokens_type(*x.0), Recoverable::Missing(_) => Seq::empty() }) + (match n.brackets.1 { Recoverable::Present(x) => seq![x.0.span], Recoverable::Missing(_) => Seq::empty() })
}

/// The spans of all the tokens of a `NonNullType`, in the order they stand in the source.
pub open spec fn tokens_non_null_type(n: NonNullType) -> Seq<Span>
    decreases n, 0nat,
{
    (tokens_type(*n.ty.0)) + (seq![n.bang.0.span])
}

/// The spans of all the tokens of a `Directives`, in the order they stand in the source.
pub open spec fn tokens_directives(n: Directives) -> Seq<Span>
    decreases n, 0nat,
{
    (tokens_list_shared_directive(n.directives.0@))
}

/// The spans of all the tokens of a `Directive`, in the order they stand in the source.
pub open spec fn tokens_directive(n: Directive) -> Seq<Span>
    decreases n, 0nat,
{
    (seq![n.at.0.span]) + (match n.name { Recoverable::Present(x) => seq![x.0.span], Recoverable::Missing(_) => Seq::empty() }) + (match n.arguments { Some(x) => tokens_arguments(*x.0), None => Seq::empty() })
}

/// The spans of all the tokens of a `TypeSystemDocument`, in the order they stand in the source.
pub open spec fn tokens_type_system_document(n: TypeSystemDocument) -> Seq<Span>
    decreases n, 0nat,
{
    (tokens_list_type_system_definition(n.definitions.0@))
}

/// The spans of all the tokens of a `TypeSystemDefinition`, in the order they stand in the source.
pub open spec fn tokens_type_system_definition(n: TypeSystemDefinition) -> Seq<Span>
    decreases n, 0nat,
{
    match n {
        TypeSystemDefinition::SchemaDefinition(x) => tokens_schema_definition(x),
        TypeSystemDefinition::TypeDefinition(x) => tokens_type_definition(*x.0),
        TypeSystemDefinition::DirectiveDefinition(x) => tokens_directive_definition(*x.0),
        TypeSystemDefinition::Error(x) => tokens_description(x),
    }
}

/// The spans of all the tokens of a `TypeSystemExtensionDocument`, in the order they stand in the source.
pub open spec fn tokens_type_system_extension_document(n: TypeSystemExtensionDocument) -> Seq<Span>
    decreases n, 0nat,
{
    (tokens_list_type_system_definition_or_extension(n.definitions.0@))
}

/// The spans of all the tokens of a `TypeSystemDefinitionOrExtension`, in the order they stand in the source.
pub open spec fn tokens_type_system_definition_or_extension(n: TypeSystemDefinitionOrExtension) -> Seq<Span>
    decreases n, 0nat,
{
    match n {
        TypeSystemDefinitionOrExtension::TypeSystemDefinition(x) => tokens_type_system_definition(x),
        TypeSystemDefinitionOrExtension::TypeSystemExtension(x) => tokens_type_system_extension(x),
    }
}

/// The spans of all the tokens of a `TypeSystemExtension`, in the order they stand in the source.
pub open spec fn tokens_type_system_extension(n: TypeSystemExtension) -> Seq<Span>
    decreases n, 0nat,
{
    match n {
        TypeSystemExtension::SchemaExtension(x) => tokens_schema_extension(x),
        TypeSystemExtension::TypeExtension(x) => tokens_type_extension(*x.0),
        TypeSystemExtension::Error(x) => seq![x.0.span],
    }
}

/// The spans of all the tokens of a `Description`, in the order they stand in the source.
pub open spec fn tokens_description(n: Description) -> Seq<Span>
    decreases n, 0nat,
{
    seq![n.0.0.span]
}

/// The spans of all the tokens of a `SchemaDefinition`, in the order they stand in the source.
pub open spec fn tokens_schema_definition(n: SchemaDefinition) -> Seq<Span>
    decreases n, 0nat,
{
    (match n.description { Some(x) => tokens_description(x), None => Seq::empty() }) + (seq![n.schema.0.span]) + (match n.directives { Some(x) => tokens_directives(x), None => Seq::empty() }) + (match n.type_definitions { Recoverable::Present(x) => tokens_root_operation_type_definitions(x), Recoverable::Missing(_) => Seq::empty() })
}

/// The spans of all the tokens of a `RootOperationTypeDefinitions`, in the order they stand in the source.
pub open spec fn tokens_root_operation_type_definitions(n: RootOperationTypeDefinitions) -> Seq<Span>
    decreases n, 0nat,
{
    (seq![n.braces.0.0.span]) + (match n.definitions { Recoverable::Present(x) => tokens_list_root_operation_type_definition(x.0@), Recoverable::Missing(_) => Seq::empty() }) + (match n.braces.1 { Recoverable::Present(x) => seq![x.0.span], Recoverable::Missing(_) => Seq::empty() })
}

/// The spans of all the tokens of a `RootOperationTypeDefinition`, in the order they stand in the source.
pub open spec fn tokens_root_operation_type_definition(n: RootOperationTypeDefinition) -> Seq<Span>
    decreases n, 0nat,
{
    (tokens_operation_type(n.operation_type)) + (match n.colon { Recoverable::Present(x) => seq![x.0.span], Recoverable::Missing(_) => Seq::empty() }) + (match n.named_type { Recoverable::Present(x) => tokens_named_type(x), Recoverable::Missing(_) => Seq::empty() })
}

/// The spans of all the tokens of a `SchemaExtension`, in the order they stand in the source.
pub open spec fn tokens_schema_extension(n: SchemaExtension) -> Seq<Span>
    decreases n, 0nat,
{
    (seq![n.extend_schema.0.0.span] + seq![n.extend_schema.1.0.span]) + (match n.directives { Some(x) => tokens_directives(x), None => Seq::empty() }) + (match n.type_definitions { Some(x) => tokens_root_operation_type_definitions(x), None => Seq::empty() })
}

/// The spans of all the tokens of a `TypeDefinition`, in the order they stand in the source.
pub open spec fn tokens_type_definition(n: TypeDefinition) -> Seq<Span>
    decreases n, 0nat,
{
    match n {
        TypeDefinition::ScalarTypeDefinition(x) => tokens_scalar_type_definition(x),
        TypeDefinition::ObjectTypeDefinition(x) => tokens_object_type_definition(x),
        TypeDefinition::InterfaceTypeDefinition(x) => tokens_interface_type_definition(x),
        TypeDefinition::UnionTypeDefinition(x) => tokens_union_type_definition(x),
        TypeDefinition::EnumTypeDefinition(x) => tokens_enum_type_definition(x),
        TypeDefinition::InputObjectTypeDefinition(x) => tokens_input_object_type_definition(x),
    }
}

/// The spans of all the tokens of a `TypeExtension`, in the order they stand in the source.
pub open spec fn tokens_type_extension(n: TypeExtension) -> Seq<Span>
    decreases n, 0nat,
{
    match n {
        TypeExtension::ScalarTypeExtension(x) => tokens_scalar_type_extension(x),
        TypeExtension::ObjectTypeExtension(x) => tokens_object_type_extension(x),
        TypeExtension::InterfaceTypeExtension(x) => tokens_interface_type_extension(x),
        TypeExtension::UnionTypeExtension(x) => tokens_union_type_extension(x),
        TypeExtension::EnumTypeExtension(x) => tokens_enum_type_extension(x),
        TypeExtension::InputObjectTypeExtension(x) => tokens_input_object_type_extension(x),
    }
}

/// The spans of all the tokens of a `ScalarTypeDefinition`, in the order they stand in the source.
pub open spec fn tokens_scalar_type_definition(n: ScalarTypeDefinition) -> Seq<Span>
    decreases n, 0nat,
{
    (match n.description { Some(x) => tokens_description(x), None => Seq::empty() }) + (seq![n.scalar.0.span]) + (match n.name { Recoverable::Present(x) => seq![x.0.span], Recoverable::Missing(_) => Seq::empty() }) + (match n.directives { Some(x) => tokens_directives(x), None => Seq::empty() })
}

/// The spans of all the tokens of a `ScalarTypeExtension`, in the order they stand in the source.
pub open spec fn tokens_scalar_type_extension(n: ScalarTypeExtension) -> Seq<Span>
    decreases n, 0nat,
{
    (seq![n.extend_scalar.0.0.span] + seq![n.extend_scalar.1.0.span]) + (match n.name { Recoverable::Present(x) => tokens_named_type(x), Recoverable::Missing(_) => Seq::empty() }) + (match n.directives { Recoverable::Present(x) => tokens_directives(x), Recoverable::Missing(_) => Seq::empty() })
}

/// The spans of all the tokens of a `ObjectTypeDefinition`, in the order they stand in the source.
pub open spec fn tokens_object_type_definition(n: ObjectTypeDefinition) -> Seq<Span>
    decreases n, 0nat,
{
    (match n.description { Some(x) => tokens_description(x), None => Seq::empty() }) + (seq![n.ty.0.span]) + (match n.name { Recoverable::Present(x) => seq![x.0.span], Recoverable::Missing(_) => Seq::empty() }) + (match n.implements_interfaces { Some(x) => tokens_implements_interfaces(x), None => Seq::empty() }) + (match n.directives { Some(x) => tokens_directives(x), None => Seq::empty() }) + (match n.fields_definition { Some(x) => tokens_fields_definition(x), None => Seq::empty() })
}

/// The spans of all the tokens of a `ImplementsInterfaces`, in the order they stand in the source.
pub open spec fn tokens_implements_interfaces(n: ImplementsInterfaces) -> Seq<Span>
    decreases n, 0nat,
{
    (seq![n.implements.0.span]) + (match n.ampersand { Some(x) => seq![x.0.span], None => Seq::empty() }) + (match n.first { Recoverable::Present(x) => tokens_named_type(*x.0), Recoverable::Missing(_) => Seq::empty() }) + (tokens_list_punctuator_recoverable_shared_named_type(n.types.0@))
}

/// The spans of all the tokens of a `FieldsDefinition`, in the order they stand in the source.
pub open spec fn tokens_fields_definition(n: FieldsDefinition) -> Seq<Span>
    decreases n, 0nat,
{
    (seq![n.braces.0.0.span]) + (tokens_list_shared_field_definition(n.definitions.0@)) + (match n.braces.1 { Recoverable::Present(x) => seq![x.0.span], Recoverable::Missing(_) => Seq::empty() })
}

/// The spans of all the tokens of a `FieldDefinition`, in the order they stand in the source.
pub open spec fn tokens_field_definition(n: FieldDefinition) -> Seq<Span>
    decreases n, 0nat,
{
    (match n.description { Some(x) => tokens_description(x), None => Seq::empty() }) + (seq![n.name.0.span]) + (match n.arguments_definition { Some(x) => tokens_arguments_definition(*x.0), None => Seq::empty() }) + (match n.colon { Recoverable::Present(x) => seq![x.0.span], Recoverable::Missing(_) => Seq::empty() }) + (match n.ty { Recoverable::Present(x) => tokens_type(*x.0), Recoverable::Missing(_) => Seq::empty() }) + (match n.directives { Some(x) => tokens_directives(x), None => Seq::empty() })
}

/// The spans of all the tokens of a `ArgumentsDefinition`, in the order they stand in the source.
pub open spec fn tokens_arguments_definition(n: ArgumentsDefinition) -> Seq<Span>
    decreases n, 0nat,
{
    (seq![n.parens.0.0.span]) + (tokens_list_shared_input_value_definition(n.definitions.0@)) + (match n.parens.1 { Recoverable::Present(x) => seq![x.0.span], Recoverable::Missing(_) => Seq::empty() })
}

/// The spans of all the tokens of a `InputValueDefinition`, in the order they stand in the source.
pub open spec fn tokens_input_value_definition(n: InputValueDefinition) -> Seq<Span>
    decreases n, 0nat,
{
    (match n.description { Some(x) => tokens_description(x), None => Seq::empty() }) + (seq![n.name.0.span]) + (match n.colon { Recoverable::Present(x) => seq![x.0.span], Recoverable::Missing(_) => Seq::empty() }) + (match n.ty { Recoverable::Present(x) => tokens_type(*x.0), Recoverable::Missing(_) => Seq::empty() }) + (match n.default_value { Some(x) => tokens_default_value(x), None => Seq::empty() }) + (match n.directives { Some(x) => tokens_directives(x), None => Seq::empty() })
}

/// The spans of all the tokens of a `ObjectTypeExtension`, in the order they stand in the source.
pub open spec fn tokens_object_type_extension(n: ObjectTypeExtension) -> Seq<Span>
    decreases n, 0nat,
{
    (seq![n.extend_type.0.0.span] + seq![n.extend_type.1.0.span]) + (match n.name { Recoverable::Present(x) => tokens_named_type(x), Recoverable::Missing(_) => Seq::empty() }) + (match n.implements_interfaces { Some(x) => tokens_implements_interfaces(x), None => Seq::empty() }) + (match n.directives { Some(x) => tokens_directives(x), None => Seq::empty() }) + (match n.fields_definition { Some(x) => tokens_fields_definition(x), None => Seq::empty() })
}

/// The spans of all the tokens of a `InterfaceTypeDefinition`, in the order they stand in the source.
pub open spec fn tokens_interface_type_definition(n: InterfaceTypeDefinition) -> Seq<Span>
    decreases n, 0nat,
{
    (match n.description { Some(x) => tokens_description(x), None => Seq::empty() }) + (seq![n.interface.0.span]) + (match n.name { Recoverable::Present(x) => seq![x.0.span], Recoverable::Missing(_) => Seq::empty() }) + (match n.implements_interfaces { Some(x) => tokens_implements_interfaces(x), None => Seq::empty() }) + (match n.directives { Some(x) => tokens_directives(x), None => Seq::empty() }) + (match n.fields_definition { Some(x) => tokens_fields_definition(x), None => Seq::empty() })
}

/// The spans of all the tokens of a `InterfaceTypeExtension`, in the order they stand in the source.
pub open spec fn tokens_interface_type_extension(n: InterfaceTypeExtension) -> Seq<Span>
    decreases n, 0nat,
{
    (seq![n.extend_interface.0.0.span] + seq![n.extend_interface.1.0.span]) + (match n.name { Recoverable::Present(x) => tokens_named_type(x), Recoverable::Missing(_) => Seq::empty() }) + (match n.implements_interfaces { Some(x) => tokens_implements_interfaces(x), None => Seq::empty() }) + (match n.directives { Some(x) => tokens_directives(x), None => Seq::empty() }) + (match n.fields_definition { Some(x) => tokens_fields_definition(x), None => Seq::empty() })
}

/// The spans of all the tokens of a `UnionTypeDefinition`, in the order they stand in the source.
pub open spec fn tokens_union_type_definition(n: UnionTypeDefinition) -> Seq<Span>
    decreases n, 0nat,
{
    (match n.description { Some(x) => tokens_description(x), None => Seq::empty() }) + (seq![n.union_kw.0.span]) + (match n.name { Recoverable::Present(x) => seq![x.0.span], Recoverable::Missing(_) => Seq::empty() }) + (match n.directives { Some(x) => tokens_directives(x), None => Seq::empty() }) + (match n.member_types { Some(x) => tokens_union_member_types(x), None => Seq::empty() })
}

/// The spans of all the tokens of a `UnionMemberTypes`, in the order they stand in the source.
pub open spec fn tokens_union_member_types(n: UnionMemberTypes) -> Seq<Span>
    decreases n, 0nat,
{
    (seq![n.eq.0.span]) + (match n.pipe { Some(x) => seq![x.0.span], None => Seq::empty() }) + (match n.first { Recoverable::Present(x) => tokens_named_type(*x.0), Recoverable::Missing(_) => Seq::empty() }) + (tokens_list_punctuator_recoverable_shared_named_type(n.types.0@))
}

/// The spans of all the tokens of a `UnionTypeExtension`, in the order they stand in the source.
pub open spec fn tokens_union_type_extension(n: UnionTypeExtension) -> Seq<Span>
    decreases n, 0nat,
{
    (seq![n.extend_union.0.0.span] + seq![n.extend_union.1.0.span]) + (match n.name { Recoverable::Present(x) => tokens_named_type(x), Recoverable::Missing(_) => Seq::empty() }) + (match n.directives { Some(x) => tokens_directives(x), None => Seq::empty() }) + (match n.member_types { Some(x) => tokens_union_member_types(x), None => Seq::empty() })
}

/// The spans of all the tokens of a `EnumTypeDefinition`, in the order they stand in the source.
pub open spec fn tokens_enum_type_definition(n: EnumTypeDefinition) -> Seq<Span>
    decreases n, 0nat,
{
    (match n.description { Some(x) => tokens_description(x), None => Seq::empty() }) + (seq![n.enum_kw.0.span]) + (match n.name { Recoverable::Present(x) => seq![x.0.span], Recoverable::Missing(_) => Seq::empty() }) + (match n.directives { Some(x) => tokens_directives(x), None => Seq::empty() }) + (match n.values_definition { Some(x) => tokens_enum_values_definition(x), None => Seq::empty() })
}

/// The spans of all the tokens of a `EnumValuesDefinition`, in the order they stand in the source.
pub open spec fn tokens_enum_values_definition(n: EnumValuesDefinition) -> Seq<Span>
    decreases n, 0nat,
{
    (seq![n.braces.0.0.span]) + (tokens_list_shared_enum_value_definition(n.definitions.0@)) + (match n.braces.1 { Recoverable::Present(x) => seq![x.0.span], Recoverable::Missing(_) => Seq::empty() })
}

/// The spans of all the tokens of a `EnumValueDefinition`, in the order they stand in the source.
pub open spec fn tokens_enum_value_definition(n: EnumValueDefinition) -> Seq<Span>
    decreases n, 0nat,
{
    (match n.description { Some(x) => tokens_description(x), None => Seq::empty() }) + (tokens_enum_value(n.enum_value)) + (match n.directives { Some(x) => tokens_directives(x), None => Seq::empty() })
}

/// The spans of all the tokens of a `EnumTypeExtension`, in the order they stand in the source.
pub open spec fn tokens_enum_type_extension(n: EnumTypeExtension) -> Seq<Span>
    decreases n, 0nat,
{
    (seq![n.extend_enum.0.0.span] + seq![n.extend_enum.1.0.span]) + (match n.name { Recoverable::Present(x) => tokens_named_type(x), Recoverable::Missing(_) => Seq::empty() }) + (match n.directives { Some(x) => tokens_directives(x), None => Seq::empty() }) + (match n.values_definition { Some(x) => tokens_enum_values_definition(x), None => Seq::empty() })
}

/// The spans of all the tokens of a `InputObjectTypeDefinition`, in the order they stand in the source.
pub open spec fn tokens_input_object_type_definition(n: InputObjectTypeDefinition) -> Seq<Span>
    decreases n, 0nat,
{
    (match n.description { Some(x) => tokens_description(x), None => Seq::empty() }) + (seq![n.input.0.span]) + (match n.name { Recoverable::Present(x) => seq![x.0.span], Recoverable::Missing(_) => Seq::empty() }) + (match n.directives { Some(x) => tokens_directives(x), None => Seq::empty() }) + (match n.fields_definition { Some(x) => tokens_input_fields_definition(x), None => Seq::empty() })
}

/// The spans of all the tokens of a `InputFieldsDefinition`, in the order they stand in the source.
pub open spec fn tokens_input_fields_definition(n: InputFieldsDefinition) -> Seq<Span>
    decreases n, 0nat,
{
    (seq![n.braces.0.0.span]) + (tokens_list_shared_input_value_definition(n.definitions.0@)) + (match n.braces.1 { Recoverable::Present(x) => seq![x.0.span], Recoverable::Missing(_) => Seq::empty() })
}

/// The spans of all the tokens of a `InputObjectTypeExtension`, in the order they stand in the source.
pub open spec fn tokens_input_object_type_extension(n: InputObjectTypeExtension) -> Seq<Span>
    decreases n, 0nat,
{
    (seq![n.extend_input.0.0.span] + seq![n.extend_input.1.0.span]) + (match n.name { Recoverable::Present(x) => tokens_named_type(x), Recoverable::Missing(_) => Seq::empty() }) + (match n.directives { Some(x) => tokens_directives(x), None => Seq::empty() }) + (match n.fields_definition { Some(x) => tokens_input_fields_definition(x), None => Seq::empty() })
}

/// The spans of all the tokens of a `DirectiveDefinition`, in the order they stand in the source.
pub open spec fn tokens_directive_definition(n: DirectiveDefinition) -> Seq<Span>
    decreases n, 0nat,
{
    (match n.description { Some(x) => tokens_description(x), None => Seq::empty() }) + (seq![n.directive.0.span]) + (match n.at { Recoverable::Present(x) => seq![x.0.span], Recoverable::Missing(_) => Seq::empty() }) + (match n.name { Recoverable::Present(x) => seq![x.0.span], Recoverable::Missing(_) => Seq::empty() }) + (match n.arguments_definition { Some(x) => tokens_arguments_definition(*x.0), None => Seq::empty() }) + (match n.repeatable { Some(x) => seq![x.0.span], None => Seq::empty() }) + (match n.locations { Recoverable::Present(x) => tokens_directive_locations(x), Recoverable::Missing(_) => Seq::empty() })
}

/// The spans of all the tokens of a `DirectiveLocations`, in the order they stand in the source.
pub open spec fn tokens_directive_locations(n: DirectiveLocations) -> Seq<Span>
    decreases n, 0nat,
{
    (seq![n.on.0.span]) + (match n.pipe { Some(x) => seq![x.0.span], None => Seq::empty() }) + (match n.first { Recoverable::Present(x) => tokens_directive_location(x), Recoverable::Missing(_) => Seq::empty() }) + (tokens_list_punctuator_recoverable_directive_location(n.locations.0@))
}

/// The spans of all the tokens of a `DirectiveLocation`, in the order they stand in the source.
pub open spec fn tokens_directive_location(n: DirectiveLocation) -> Seq<Span>
    decreases n, 0nat,
{
    match n {
        DirectiveLocation::ExecutableDirectiveLocation(x) => tokens_executable_directive_location(x),
        DirectiveLocation::TypeSystemDirectiveLocation(x) => tokens_type_system_directive_location(x),
    }
}

/// The spans of all the tokens of a `ExecutableDirectiveLocation`, in the order they stand in the source.
pub open spec fn tokens_executable_directive_location(n: ExecutableDirectiveLocation) -> Seq<Span>
    decreases n, 0nat,
{
    match n {
        ExecutableDirectiveLocation::Query(x) => seq![x.0.span],
        ExecutableDirectiveLocation::Mutation(x) => seq![x.0.span],
        ExecutableDirectiveLocation::Subscription(x) => seq![x.0.span],
        ExecutableDirectiveLocation::Field(x) => seq![x.0.span],
        ExecutableDirectiveLocation::FragmentDefinition(x) => seq![x.0.span],
        ExecutableDirectiveLocation::FragmentSpread(x) => seq![x.0.span],
        ExecutableDirectiveLocation::InlineFragment(x) => seq![x.0.span],
        ExecutableDirectiveLocation::VariableDefinition(x) => seq![x.0.span],
    }
}

/// The spans of all the tokens of a `TypeSystemDirectiveLocation`, in the order they stand in the source.
pub open spec fn tokens_type_system_directive_location(n: TypeSystemDirectiveLocation) -> Seq<Span>
    decreases n, 0nat,
{
    match n {
        TypeSystemDirectiveLocation::Schema(x) => seq![x.0.span],
        TypeSystemDirectiveLocation::Scalar(x) => seq![x.0.span],
        TypeSystemDirectiveLocation::Object(x) => seq![x.0.span],
        TypeSystemDirectiveLocation::FieldDefinition(x) => seq![x.0.span],
        TypeSystemDirectiveLocation::ArgumentDefinition(x) => seq![x.0.span],
        TypeSystemDirectiveLocation::Interface(x) => seq![x.0.span],
        TypeSystemDirectiveLocation::Union(x) => seq![x.0.span],
        TypeSystemDirectiveLocation::Enum(x) => seq![x.0.span],
        TypeSystemDirectiveLocation::EnumValue(x) => seq![x.0.span],
        TypeSystemDirectiveLocation::InputObject(x) => seq![x.0.span],
        TypeSystemDirectiveLocation::InputFieldDefinition(x) => seq![x.0.span],
    }
}

pub open spec fn tokens_list_shared_definition(s: Seq<Shared<Definition>>) -> Seq<Span>
    decreases s, 1nat,
{
    if s.len() == 0 {
        Seq::empty()
    } else {
        tokens_list_shared_definition(s.drop_last()) + (tokens_definition(*s.last().0))
    }
}

pub open spec fn tokens_list_executable_definition(s: Seq<ExecutableDefinition>) -> Seq<Span>
    decreases s, 1nat,
{
    if s.len() == 0 {
        Seq::empty()
    } else {
        tokens_list_executable_definition(s.drop_last()) + (tokens_executable_definition(s.last()))
    }
}

pub open spec fn tokens_list_selection(s: Seq<Selection>) -> Seq<Span>
    decreases s, 1nat,
{
    if s.len() == 0 {
        Seq::empty()
    } else {
        tokens_list_selection(s.drop_last()) + (tokens_selection(s.last()))
    }
}

pub open spec fn tokens_list_shared_argument(s: Seq<Shared<Argument>>) -> Seq<Span>
    decreases s, 1nat,
{
    if s.len() == 0 {
        Seq::empty()
    } else {
        tokens_list_shared_argument(s.drop_last()) + (tokens_argument(*s.last().0))
    }
}

pub open spec fn tokens_list_shared_value(s: Seq<Shared<Value>>) -> Seq<Span>
    decreases s, 1nat,
{
    if s.len() == 0 {
        Seq::empty()
    } else {
        tokens_list_shared_value(s.drop_last()) + (tokens_value(*s.last().0))
    }
}

pub open spec fn tokens_list_object_field(s: Seq<ObjectField>) -> Seq<Span>
    decreases s, 1nat,
{
    if s.len() == 0 {
        Seq::empty()
    } else {
        tokens_list_object_field(s.drop_last()) + (tokens_object_field(s.last()))
    }
}

pub open spec fn tokens_list_shared_variable_definition(s: Seq<Shared<VariableDefinition>>) -> Seq<Span>
    decreases s, 1nat,
{
    if s.len() == 0 {
        Seq::empty()
    } else {
        tokens_list_shared_variable_definition(s.drop_last()) + (tokens_variable_definition(*s.last().0))
    }
}

pub open spec fn tokens_list_shared_directive(s: Seq<Shared<Directive>>) -> Seq<Span>
    decreases s, 1nat,
{
    if s.len() == 0 {
        Seq::empty()
    } else {
        tokens_list_shared_directive(s.drop_last()) + (tokens_directive(*s.last().0))
    }
}

pub open spec fn tokens_list_type_system_definition(s: Seq<TypeSystemDefinition>) -> Seq<Span>
    decreases s, 1nat,
{
    if s.len() == 0 {
        Seq::empty()
    } else {
        tokens_list_type_system_definition(s.drop_last()) + (tokens_type_system_definition(s.last()))
    }
}

pub open spec fn tokens_list_type_system_definition_or_extension(s: Seq<TypeSystemDefinitionOrExtension>) -> Seq<Span>
    decreases s, 1nat,
{
    if s.len() == 0 {
        Seq::empty()
    } else {
        tokens_list_type_system_definition_or_extension(s.drop_last()) + (tokens_type_system_definition_or_extension(s.last()))
    }
}

pub open spec fn tokens_list_root_operation_type_definition(s: Seq<RootOperationTypeDefinition>) -> Seq<Span>
    decreases s, 1nat,
{
    if s.len() == 0 {
        Seq::empty()
    } else {
        tokens_list_root_operation_type_definition(s.drop_last()) + (tokens_root_operation_type_definition(s.last()))
    }
}

pub open spec fn tokens_list_punctuator_recoverable_shared_named_type(s: Seq<(Punctuator, Recoverable<Shared<NamedType>>)>) -> Seq<Span>
    decreases s, 1nat,
{
    if s.len() == 0 {
        Seq::empty()
    } else {
        tokens_list_punctuator_recoverable_shared_named_type(s.drop_last()) + (seq![s.last().0.0.span] + match s.last().1 { Recoverable::Present(x) => tokens_named_type(*x.0), Recoverable::Missing(_) => Seq::empty() })
    }
}

pub open spec fn tokens_list_shared_field_definition(s: Seq<Shared<FieldDefinition>>) -> Seq<Span>
    decreases s, 1nat,
{
    if s.len() == 0 {
        Seq::empty()
    } else {
        tokens_list_shared_field_definition(s.drop_last()) + (tokens_field_definition(*s.last().0))
    }
}

pub open spec fn tokens_list_shared_input_value_definition(s: Seq<Shared<InputValueDefinition>>) -> Seq<Span>
    decreases s, 1nat,
{
    if s.len() == 0 {
        Seq::empty()
    } else {
        tokens_list_shared_input_value_definition(s.drop_last()) + (tokens_input_value_definition(*s.last().0))
    }
}

pub open spec fn tokens_list_shared_enum_value_definition(s: Seq<Shared<EnumValueDefinition>>) -> Seq<Span>
    decreases s, 1nat,
{
    if s.len() == 0 {
        Seq::empty()
    } else {
        tokens_list_shared_enum_value_definition(s.drop_last()) + (tokens_enum_value_definition(*s.last().0))
    }
}

pub open spec fn tokens_list_punctuator_recoverable_directive_location(s: Seq<(Punctuator, Recoverable<DirectiveLocation>)>) -> Seq<Span>
    decreases s, 1nat,
{
    if s.len() == 0 {
        Seq::empty()
    } else {
        tokens_list_punctuator_recoverable_directive_location(s.drop_last()) + (seq![s.last().0.0.span] + match s.last().1 { Recoverable::Present(x) => tokens_directive_location(x), Recoverable::Missing(_) => Seq::empty() })
    }
}

} // verus!
