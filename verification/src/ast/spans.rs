use vstd::prelude::*;

use crate::ast::context::node_of;

use crate::ast::context::Shared;
use crate::ast::types::{
    Alias, Argument, Arguments, ArgumentsDefinition, BooleanValue, DefaultValue, Definition, Description, Directive, DirectiveDefinition, DirectiveLocation, DirectiveLocations, Directives, Document, EnumTypeDefinition, EnumTypeExtension, EnumValue, EnumValueDefinition, EnumValuesDefinition, ExecutableDefinition, ExecutableDirectiveLocation, ExecutableDocument, Field, FieldDefinition, FieldsDefinition, FragmentDefinition, FragmentSpread, ImplementsInterfaces, InlineFragment, InputFieldsDefinition, InputObjectTypeDefinition, InputObjectTypeExtension, InputValueDefinition, InterfaceTypeDefinition, InterfaceTypeExtension, ListType, ListValue, Missing, NamedType, NonNullType, NullValue, ObjectField, ObjectTypeDefinition, ObjectTypeExtension, ObjectValue, OperationDefinition, OperationType, Recoverable, RootOperationTypeDefinition, RootOperationTypeDefinitions, ScalarTypeDefinition, ScalarTypeExtension, SchemaDefinition, SchemaExtension, Selection, SelectionSet, Type, TypeCondition, TypeDefinition, TypeExtension, TypeSystemDefinition, TypeSystemDefinitionOrExtension, TypeSystemDirectiveLocation, TypeSystemDocument, TypeSystemExtension, TypeSystemExtensionDocument, UnionMemberTypes, UnionTypeDefinition, UnionTypeExtension, Value, Variable, VariableDefinition, VariableDefinitions,
};
use crate::lex::token::Punctuator;
use crate::lex::Span;

use vstd::seq_lib::lemma_concat_associative;

verus! {

/// The spans of the tokens of a `Document`, in the order of a traversal.
pub open spec fn spans_document(n: Document) -> Seq<Span>
    decreases n, 0nat,
{
    (spans_list_shared_definition(n.definitions.0@))
}

/// The spans of the tokens of a `Definition`, in the order of a traversal.
pub open spec fn spans_definition(n: Definition) -> Seq<Span>
    decreases n, 0nat,
{
    match n {
        Definition::ExecutableDefinition(x) => spans_executable_definition(x),
        Definition::TypeSystemDefinitionOrExtension(x) => spans_type_system_definition_or_extension(x),
    }
}

/// The spans of the tokens of a `ExecutableDocument`, in the order of a traversal.
pub open spec fn spans_executable_document(n: ExecutableDocument) -> Seq<Span>
    decreases n, 0nat,
{
    (spans_list_executable_definition(n.definitions.0@))
}

/// The spans of the tokens of a `ExecutableDefinition`, in the order of a traversal.
pub open spec fn spans_executable_definition(n: ExecutableDefinition) -> Seq<Span>
    decreases n, 0nat,
{
    match n {
        ExecutableDefinition::OperationDefinition(x) => spans_operation_definition(*x.0),
        ExecutableDefinition::FragmentDefinition(x) => spans_fragment_definition(*x.0),
    }
}

/// The spans of the tokens of a `OperationDefinition`, in the order of a traversal.
pub open spec fn spans_operation_definition(n: OperationDefinition) -> Seq<Span>
    decreases n, 0nat,
{
    (match n.ty { Some(x) => spans_operation_type(x), None => Seq::empty() }) + (match n.name { Some(x) => seq![x.0.span], None => Seq::empty() }) + (match n.variable_definitions { Some(x) => spans_variable_definitions(x), None => Seq::empty() }) + (match n.directives { Some(x) => spans_directives(x), None => Seq::empty() }) + (match n.selection_set { Recoverable::Present(x) => spans_selection_set(*x.0), Recoverable::Missing(_) => Seq::empty() })
}

/// The spans of the tokens of a `OperationType`, in the order of a traversal.
pub open spec fn spans_operation_type(n: OperationType) -> Seq<Span>
    decreases n, 0nat,
{
    match n {
        OperationType::Query(x) => seq![x.0.span],
        OperationType::Mutation(x) => seq![x.0.span],
        OperationType::Subscription(x) => seq![x.0.span],
    }
}

/// The spans of the tokens of a `SelectionSet`, in the order of a traversal.
pub open spec fn spans_selection_set(n: SelectionSet) -> Seq<Span>
    decreases n, 0nat,
{
    (seq![n.braces.0.0.span] + match n.braces.1 { Recoverable::Present(x) => seq![x.0.span], Recoverable::Missing(_) => Seq::empty() }) + (spans_list_selection(n.selections.0@))
}

/// The spans of the tokens of a `Selection`, in the order of a traversal.
pub open spec fn spans_selection(n: Selection) -> Seq<Span>
    decreases n, 0nat,
{
    match n {
        Selection::Field(x) => spans_field(*x.0),
        Selection::FragmentSpread(x) => spans_fragment_spread(*x.0),
        Selection::InlineFragment(x) => spans_inline_fragment(x),
    }
}

/// The spans of the tokens of a `Field`, in the order of a traversal.
pub open spec fn spans_field(n: Field) -> Seq<Span>
    decreases n, 0nat,
{
    (match n.alias { Some(x) => spans_alias(x), None => Seq::empty() }) + (match n.name { Recoverable::Present(x) => seq![x.0.span], Recoverable::Missing(_) => Seq::empty() }) + (match n.arguments { Some(x) => spans_arguments(*x.0), None => Seq::empty() }) + (match n.directives { Some(x) => spans_directives(x), None => Seq::empty() }) + (match n.selection_set { Some(x) => spans_selection_set(*x.0), None => Seq::empty() })
}

/// The spans of the tokens of a `Alias`, in the order of a traversal.
pub open spec fn spans_alias(n: Alias) -> Seq<Span>
    decreases n, 0nat,
{
    (seq![n.name.0.span]) + (seq![n.colon.0.span])
}

/// The spans of the tokens of a `Arguments`, in the order of a traversal.
pub open spec fn spans_arguments(n: Arguments) -> Seq<Span>
    decreases n, 0nat,
{
    (seq![n.parens.0.0.span] + match n.parens.1 { Recoverable::Present(x) => seq![x.0.span], Recoverable::Missing(_) => Seq::empty() }) + (spans_list_shared_argument(n.items.0@))
}

/// The spans of the tokens of a `Argument`, in the order of a traversal.
pub open spec fn spans_argument(n: Argument) -> Seq<Span>
    decreases n, 0nat,
{
    (seq![n.name.0.span]) + (match n.colon { Recoverable::Present(x) => seq![x.0.span], Recoverable::Missing(_) => Seq::empty() }) + (match n.value { Recoverable::Present(x) => spans_value(*x.0), Recoverable::Missing(_) => Seq::empty() })
}

/// The spans of the tokens of a `FragmentSpread`, in the order of a traversal.
pub open spec fn spans_fragment_spread(n: FragmentSpread) -> Seq<Span>
    decreases n, 0nat,
{
    (seq![n.dots.0.span]) + (seq![n.fragment_name.0.span]) + (match n.directives { Some(x) => spans_directives(x), None => Seq::empty() })
}

/// The spans of the tokens of a `InlineFragment`, in the order of a traversal.
pub open spec fn spans_inline_fragment(n: InlineFragment) -> Seq<Span>
    decreases n, 0nat,
{
    (seq![n.dots.0.span]) + (match n.type_condition { Some(x) => spans_type_condition(x), None => Seq::empty() }) + (match n.directives { Some(x) => spans_directives(x), None => Seq::empty() }) + (match n.selection_set { Recoverable::Present(x) => spans_selection_set(*x.0), Recoverable::Missing(_) => Seq::empty() })
}

/// The spans of the tokens of a `FragmentDefinition`, in the order of a traversal.
pub open spec fn spans_fragment_definition(n: FragmentDefinition) -> Seq<Span>
    decreases n, 0nat,
{
    (seq![n.fragment.0.span]) + (match n.fragment_name { Recoverable::Present(x) => seq![x.0.span], Recoverable::Missing(_) => Seq::empty() }) + (match n.type_condition { Recoverable::Present(x) => spans_type_condition(x), Recoverable::Missing(_) => Seq::empty() }) + (match n.directives { Some(x) => spans_directives(x), None => Seq::empty() }) + (match n.selection_set { Recoverable::Present(x) => spans_selection_set(*x.0), Recoverable::Missing(_) => Seq::empty() })
}

/// The spans of the tokens of a `TypeCondition`, in the order of a traversal.
pub open spec fn spans_type_condition(n: TypeCondition) -> Seq<Span>
    decreases n, 0nat,
{
    (seq![n.on.0.span]) + (match n.named_type { Recoverable::Present(x) => spans_named_type(x), Recoverable::Missing(_) => Seq::empty() })
}

/// The spans of the tokens of a `Value`, in the order of a traversal.
pub open spec fn spans_value(n: Value) -> Seq<Span>
    decreases n, 0nat,
{
    match n {
        Value::Variable(x) => spans_variable(x),
        Value::IntValue(x) => seq![x.0.span],
        Value::FloatValue(x) => seq![x.0.span],
        Value::StringValue(x) => seq![x.0.span],
        Value::BooleanValue(x) => spans_boolean_value(x),
        Value::NullValue(x) => spans_null_value(x),
        Value::EnumValue(x) => spans_enum_value(x),
        Value::ListValue(x) => spans_list_value(x),
        Value::ObjectValue(x) => spans_object_value(x),
    }
}

/// The spans of the tokens of a `BooleanValue`, in the order of a traversal.
pub open spec fn spans_boolean_value(n: BooleanValue) -> Seq<Span>
    decreases n, 0nat,
{
    match n {
        BooleanValue::True(x) => seq![x.0.span],
        BooleanValue::False(x) => seq![x.0.span],
    }
}

/// The spans of the tokens of a `NullValue`, in the order of a traversal.
pub open spec fn spans_null_value(n: NullValue) -> Seq<Span>
    decreases n, 0nat,
{
    seq![n.0.0.span]
}

/// The spans of the tokens of a `EnumValue`, in the order of a traversal.
pub open spec fn spans_enum_value(n: EnumValue) -> Seq<Span>
    decreases n, 0nat,
{
    seq![n.0.0.span]
}

/// The spans of the tokens of a `ListValue`, in the order of a traversal.
pub open spec fn spans_list_value(n: ListValue) -> Seq<Span>
    decreases n, 0nat,
{
    (seq![n.brackets.0.0.span] + match n.brackets.1 { Recoverable::Present(x) => seq![x.0.span], Recoverable::Missing(_) => Seq::empty() }) + (spans_list_shared_value(n.values.0@))
}

/// The spans of the tokens of a `ObjectValue`, in the order of a traversal.
pub open spec fn spans_object_value(n: ObjectValue) -> Seq<Span>
    decreases n, 0nat,
{
    (seq![n.braces.0.0.span] + match n.braces.1 { Recoverable::Present(x) => seq![x.0.span], Recoverable::Missing(_) => Seq::empty() }) + (spans_list_object_field(n.object_fields.0@))
}

/// The spans of the tokens of a `ObjectField`, in the order of a traversal.
pub open spec fn spans_object_field(n: ObjectField) -> Seq<Span>
    decreases n, 0nat,
{
    (seq![n.name.0.span]) + (match n.colon { Recoverable::Present(x) => seq![x.0.span], Recoverable::Missing(_) => Seq::empty() }) + (match n.value { Recoverable::Present(x) => spans_value(*x.0), Recoverable::Missing(_) => Seq::empty() })
}

/// The spans of the tokens of a `VariableDefinitions`, in the order of a traversal.
pub open spec fn spans_variable_definitions(n: VariableDefinitions) -> Seq<Span>
    decreases n, 0nat,
{
    (seq![n.parens.0.0.span] + match n.parens.1 { Recoverable::Present(x) => seq![x.0.span], Recoverable::Missing(_) => Seq::empty() }) + (spans_list_shared_variable_definition(n.variable_definitions.0@))
}

/// The spans of the tokens of a `VariableDefinition`, in the order of a traversal.
pub open spec fn spans_variable_definition(n: VariableDefinition) -> Seq<Span>
    decreases n, 0nat,
{
    (spans_variable(n.variable)) + (match n.colon { Recoverable::Present(x) => seq![x.0.span], Recoverable::Missing(_) => Seq::empty() }) + (match n.ty { Recoverable::Present(x) => spans_type(*x.0), Recoverable::Missing(_) => Seq::empty() }) + (match n.default_value { Some(x) => spans_default_value(x), None => Seq::empty() }) + (match n.directives { Some(x) => spans_directives(x), None => Seq::empty() })
}

/// The spans of the tokens of a `Variable`, in the order of a traversal.
pub open spec fn spans_variable(n: Variable) -> Seq<Span>
    decreases n, 0nat,
{
    (seq![n.dollar.0.span]) + (match n.name { Recoverable::Present(x) => seq![x.0.span], Recoverable::Missing(_) => Seq::empty() })
}

/// The spans of the tokens of a `DefaultValue`, in the order of a traversal.
pub open spec fn spans_default_value(n: DefaultValue) -> Seq<Span>
    decreases n, 0nat,
{
    (seq![n.eq.0.span]) + (match n.value { Recoverable::Present(x) => spans_value(*x.0), Recoverable::Missing(_) => Seq::empty() })
}

/// The spans of the tokens of a `Type`, in the order of a traversal.
pub open spec fn spans_type(n: Type) -> Seq<Span>
    decreases n, 0nat,
{
    match n {
        Type::Named(x) => spans_named_type(x),
        Type::List(x) => spans_list_type(x),
        Type::NonNull(x) => spans_non_null_type(x),
    }
}

/// The spans of the tokens of a `NamedType`, in the order of a traversal.
pub open spec fn spans_named_type(n: NamedType) -> Seq<Span>
    decreases n, 0nat,
{
    seq![n.0.0.span]
}

/// The spans of the tokens of a `ListType`, in the order of a traversal.
pub open spec fn spans_list_type(n: ListType) -> Seq<Span>
    decreases n, 0nat,
{
    (seq![n.brackets.0.0.span] + match n.brackets.1 { Recoverable::Present(x) => seq![x.0.span], Recoverable::Missing(_) => Seq::empty() }) + (match n.ty { Recoverable::Present(x) => spans_type(*x.0), Recoverable::Missing(_) => Seq::empty() })
}

/// The spans of the tokens of a `NonNullType`, in the order of a traversal.
pub open spec fn spans_non_null_type(n: NonNullType) -> Seq<Span>
    decreases n, 0nat,
{
    (spans_type(*n.ty.0)) + (seq![n.bang.0.span])
}

/// The spans of the tokens of a `Directives`, in the order of a traversal.
pub open spec fn spans_directives(n: Directives) -> Seq<Span>
    decreases n, 0nat,
{
    (spans_list_shared_directive(n.directives.0@))
}

/// The spans of the tokens of a `Directive`, in the order of a traversal.
pub open spec fn spans_directive(n: Directive) -> Seq<Span>
    decreases n, 0nat,
{
    (seq![n.at.0.span]) + (match n.name { Recoverable::Present(x) => seq![x.0.span], Recoverable::Missing(_) => Seq::empty() }) + (match n.arguments { Some(x) => spans_arguments(*x.0), None => Seq::empty() })
}

/// The spans of the tokens of a `TypeSystemDocument`, in the order of a traversal.
pub open spec fn spans_type_system_document(n: TypeSystemDocument) -> Seq<Span>
    decreases n, 0nat,
{
    (spans_list_type_system_definition(n.definitions.0@))
}

/// The spans of the tokens of a `TypeSystemDefinition`, in the order of a traversal.
pub open spec fn spans_type_system_definition(n: TypeSystemDefinition) -> Seq<Span>
    decreases n, 0nat,
{
    match n {
        TypeSystemDefinition::SchemaDefinition(x) => spans_schema_definition(x),
        TypeSystemDefinition::TypeDefinition(x) => spans_type_definition(*x.0),
        TypeSystemDefinition::DirectiveDefinition(x) => spans_directive_definition(*x.0),
        TypeSystemDefinition::Error(x) => spans_description(x),
    }
}

/// The spans of the tokens of a `TypeSystemExtensionDocument`, in the order of a traversal.
pub open spec fn spans_type_system_extension_document(n: TypeSystemExtensionDocument) -> Seq<Span>
    decreases n, 0nat,
{
    (spans_list_type_system_definition_or_extension(n.definitions.0@))
}

/// The spans of the tokens of a `TypeSystemDefinitionOrExtension`, in the order of a traversal.
pub open spec fn spans_type_system_definition_or_extension(n: TypeSystemDefinitionOrExtension) -> Seq<Span>
    decreases n, 0nat,
{
    match n {
        TypeSystemDefinitionOrExtension::TypeSystemDefinition(x) => spans_type_system_definition(x),
        TypeSystemDefinitionOrExtension::TypeSystemExtension(x) => spans_type_system_extension(x),
    }
}

/// The spans of the tokens of a `TypeSystemExtension`, in the order of a traversal.
pub open spec fn spans_type_system_extension(n: TypeSystemExtension) -> Seq<Span>
    decreases n, 0nat,
{
    match n {
        TypeSystemExtension::SchemaExtension(x) => spans_schema_extension(x),
        TypeSystemExtension::TypeExtension(x) => spans_type_extension(*x.0),
        TypeSystemExtension::Error(x) => seq![x.0.span],
    }
}

/// The spans of the tokens of a `Description`, in the order of a traversal.
pub open spec fn spans_description(n: Description) -> Seq<Span>
    decreases n, 0nat,
{
    seq![n.0.0.span]
}

/// The spans of the tokens of a `SchemaDefinition`, in the order of a traversal.
pub open spec fn spans_schema_definition(n: SchemaDefinition) -> Seq<Span>
    decreases n, 0nat,
{
    (match n.description { Some(x) => spans_description(x), None => Seq::empty() }) + (seq![n.schema.0.span]) + (match n.directives { Some(x) => spans_directives(x), None => Seq::empty() }) + (match n.type_definitions { Recoverable::Present(x) => spans_root_operation_type_definitions(x), Recoverable::Missing(_) => Seq::empty() })
}

/// The spans of the tokens of a `RootOperationTypeDefinitions`, in the order of a traversal.
pub open spec fn spans_root_operation_type_definitions(n: RootOperationTypeDefinitions) -> Seq<Span>
    decreases n, 0nat,
{
    (seq![n.braces.0.0.span] + match n.braces.1 { Recoverable::Present(x) => seq![x.0.span], Recoverable::Missing(_) => Seq::empty() }) + (match n.definitions { Recoverable::Present(x) => spans_list_root_operation_type_definition(x.0@), Recoverable::Missing(_) => Seq::empty() })
}

/// The spans of the tokens of a `RootOperationTypeDefinition`, in the order of a traversal.
pub open spec fn spans_root_operation_type_definition(n: RootOperationTypeDefinition) -> Seq<Span>
    decreases n, 0nat,
{
    (spans_operation_type(n.operation_type)) + (match n.colon { Recoverable::Present(x) => seq![x.0.span], Recoverable::Missing(_) => Seq::empty() }) + (match n.named_type { Recoverable::Present(x) => spans_named_type(x), Recoverable::Missing(_) => Seq::empty() })
}

/// The spans of the tokens of a `SchemaExtension`, in the order of a traversal.
pub open spec fn spans_schema_extension(n: SchemaExtension) -> Seq<Span>
    decreases n, 0nat,
{
    (seq![n.extend_schema.0.0.span] + seq![n.extend_schema.1.0.span]) + (match n.directives { Some(x) => spans_directives(x), None => Seq::empty() }) + (match n.type_definitions { Some(x) => spans_root_operation_type_definitions(x), None => Seq::empty() })
}

/// The spans of the tokens of a `TypeDefinition`, in the order of a traversal.
pub open spec fn spans_type_definition(n: TypeDefinition) -> Seq<Span>
    decreases n, 0nat,
{
    match n {
        TypeDefinition::ScalarTypeDefinition(x) => spans_scalar_type_definition(x),
        TypeDefinition::ObjectTypeDefinition(x) => spans_object_type_definition(x),
        TypeDefinition::InterfaceTypeDefinition(x) => spans_interface_type_definition(x),
        TypeDefinition::UnionTypeDefinition(x) => spans_union_type_definition(x),
        TypeDefinition::EnumTypeDefinition(x) => spans_enum_type_definition(x),
        TypeDefinition::InputObjectTypeDefinition(x) => spans_input_object_type_definition(x),
    }
}

/// The spans of the tokens of a `TypeExtension`, in the order of a traversal.
pub open spec fn spans_type_extension(n: TypeExtension) -> Seq<Span>
    decreases n, 0nat,
{
    match n {
        TypeExtension::ScalarTypeExtension(x) => spans_scalar_type_extension(x),
        TypeExtension::ObjectTypeExtension(x) => spans_object_type_extension(x),
        TypeExtension::InterfaceTypeExtension(x) => spans_interface_type_extension(x),
        TypeExtension::UnionTypeExtension(x) => spans_union_type_extension(x),
        TypeExtension::EnumTypeExtension(x) => spans_enum_type_extension(x),
        TypeExtension::InputObjectTypeExtension(x) => spans_input_object_type_extension(x),
    }
}

/// The spans of the tokens of a `ScalarTypeDefinition`, in the order of a traversal.
pub open spec fn spans_scalar_type_definition(n: ScalarTypeDefinition) -> Seq<Span>
    decreases n, 0nat,
{
    (seq![n.scalar.0.span]) + (match n.name { Recoverable::Present(x) => seq![x.0.span], Recoverable::Missing(_) => Seq::empty() }) + (match n.directives { Some(x) => spans_directives(x), None => Seq::empty() })
}

/// The spans of the tokens of a `ScalarTypeExtension`, in the order of a traversal.
pub open spec fn spans_scalar_type_extension(n: ScalarTypeExtension) -> Seq<Span>
    decreases n, 0nat,
{
    (seq![n.extend_scalar.0.0.span] + seq![n.extend_scalar.1.0.span]) + (match n.name { Recoverable::Present(x) => spans_named_type(x), Recoverable::Missing(_) => Seq::empty() }) + (match n.directives { Recoverable::Present(x) => spans_directives(x), Recoverable::Missing(_) => Seq::empty() })
}

/// The spans of the tokens of a `ObjectTypeDefinition`, in the order of a traversal.
pub open spec fn spans_object_type_definition(n: ObjectTypeDefinition) -> Seq<Span>
    decreases n, 0nat,
{
    (match n.description { Some(x) => spans_description(x), None => Seq::empty() }) + (seq![n.ty.0.span]) + (match n.name { Recoverable::Present(x) => seq![x.0.span], Recoverable::Missing(_) => Seq::empty() }) + (match n.implements_interfaces { Some(x) => spans_implements_interfaces(x), None => Seq::empty() }) + (match n.directives { Some(x) => spans_directives(x), None => Seq::empty() }) + (match n.fields_definition { Some(x) => spans_fields_definition(x), None => Seq::empty() })
}

/// The spans of the tokens of a `ImplementsInterfaces`, in the order of a traversal.
pub open spec fn spans_implements_interfaces(n: ImplementsInterfaces) -> Seq<Span>
    decreases n, 0nat,
{
    (seq![n.implements.0.span]) + (match n.ampersand { Some(x) => seq![x.0.span], None => Seq::empty() }) + (match n.first { Recoverable::Present(x) => spans_named_type(*x.0), Recoverable::Missing(_) => Seq::empty() }) + (spans_list_punctuator_recoverable_shared_named_type(n.types.0@))
}

/// The spans of the tokens of a `FieldsDefinition`, in the order of a traversal.
pub open spec fn spans_fields_definition(n: FieldsDefinition) -> Seq<Span>
    decreases n, 0nat,
{
    (seq![n.braces.0.0.span] + match n.braces.1 { Recoverable::Present(x) => seq![x.0.span], Recoverable::Missing(_) => Seq::empty() }) + (spans_list_shared_field_definition(n.definitions.0@))
}

/// The spans of the tokens of a `FieldDefinition`, in the order of a traversal.
pub open spec fn spans_field_definition(n: FieldDefinition) -> Seq<Span>
    decreases n, 0nat,
{
    (match n.description { Some(x) => spans_description(x), None => Seq::empty() }) + (seq![n.name.0.span]) + (match n.arguments_definition { Some(x) => spans_arguments_definition(*x.0), None => Seq::empty() }) + (match n.colon { Recoverable::Present(x) => seq![x.0.span], Recoverable::Missing(_) => Seq::empty() }) + (match n.ty { Recoverable::Present(x) => spans_type(*x.0), Recoverable::Missing(_) => Seq::empty() }) + (match n.directives { Some(x) => spans_directives(x), None => Seq::empty() })
}

/// The spans of the tokens of a `ArgumentsDefinition`, in the order of a traversal.
pub open spec fn spans_arguments_definition(n: ArgumentsDefinition) -> Seq<Span>
    decreases n, 0nat,
{
    (seq![n.parens.0.0.span] + match n.parens.1 { Recoverable::Present(x) => seq![x.0.span], Recoverable::Missing(_) => Seq::empty() }) + (spans_list_shared_input_value_definition(n.definitions.0@))
}

/// The spans of the tokens of a `InputValueDefinition`, in the order of a traversal.
pub open spec fn spans_input_value_definition(n: InputValueDefinition) -> Seq<Span>
    decreases n, 0nat,
{
    (match n.description { Some(x) => spans_description(x), None => Seq::empty() }) + (seq![n.name.0.span]) + (match n.colon { Recoverable::Present(x) => seq![x.0.span], Recoverable::Missing(_) => Seq::empty() }) + (match n.ty { Recoverable::Present(x) => spans_type(*x.0), Recoverable::Missing(_) => Seq::empty() }) + (match n.default_value { Some(x) => spans_default_value(x), None => Seq::empty() }) + (match n.directives { Some(x) => spans_directives(x), None => Seq::empty() })
}

/// The spans of the tokens of a `ObjectTypeExtension`, in the order of a traversal.
pub open spec fn spans_object_type_extension(n: ObjectTypeExtension) -> Seq<Span>
    decreases n, 0nat,
{
    (seq![n.extend_type.0.0.span] + seq![n.extend_type.1.0.span]) + (match n.name { Recoverable::Present(x) => spans_named_type(x), Recoverable::Missing(_) => Seq::empty() }) + (match n.implements_interfaces { Some(x) => spans_implements_interfaces(x), None => Seq::empty() }) + (match n.directives { Some(x) => spans_directives(x), None => Seq::empty() }) + (match n.fields_definition { Some(x) => spans_fields_definition(x), None => Seq::empty() })
}

/// The spans of the tokens of a `InterfaceTypeDefinition`, in the order of a traversal.
pub open spec fn spans_interface_type_definition(n: InterfaceTypeDefinition) -> Seq<Span>
    decreases n, 0nat,
{
    (match n.description { Some(x) => spans_description(x), None => Seq::empty() }) + (seq![n.interface.0.span]) + (match n.name { Recoverable::Present(x) => seq![x.0.span], Recoverable::Missing(_) => Seq::empty() }) + (match n.implements_interfaces { Some(x) => spans_implements_interfaces(x), None => Seq::empty() }) + (match n.directives { Some(x) => spans_directives(x), None => Seq::empty() }) + (match n.fields_definition { Some(x) => spans_fields_definition(x), None => Seq::empty() })
}

/// The spans of the tokens of a `InterfaceTypeExtension`, in the order of a traversal.
pub open spec fn spans_interface_type_extension(n: InterfaceTypeExtension) -> Seq<Span>
    decreases n, 0nat,
{
    (seq![n.extend_interface.0.0.span] + seq![n.extend_interface.1.0.span]) + (match n.name { Recoverable::Present(x) => spans_named_type(x), Recoverable::Missing(_) => Seq::empty() }) + (match n.implements_interfaces { Some(x) => spans_implements_interfaces(x), None => Seq::empty() }) + (match n.directives { Some(x) => spans_directives(x), None => Seq::empty() }) + (match n.fields_definition { Some(x) => spans_fields_definition(x), None => Seq::empty() })
}

/// The spans of the tokens of a `UnionTypeDefinition`, in the order of a traversal.
pub open spec fn spans_union_type_definition(n: UnionTypeDefinition) -> Seq<Span>
    decreases n, 0nat,
{
    (match n.description { Some(x) => spans_description(x), None => Seq::empty() }) + (seq![n.union_kw.0.span]) + (match n.name { Recoverable::Present(x) => seq![x.0.span], Recoverable::Missing(_) => Seq::empty() }) + (match n.directives { Some(x) => spans_directives(x), None => Seq::empty() }) + (match n.member_types { Some(x) => spans_union_member_types(x), None => Seq::empty() })
}

/// The spans of the tokens of a `UnionMemberTypes`, in the order of a traversal.
pub open spec fn spans_union_member_types(n: UnionMemberTypes) -> Seq<Span>
    decreases n, 0nat,
{
    (seq![n.eq.0.span]) + (match n.pipe { Some(x) => seq![x.0.span], None => Seq::empty() }) + (match n.first { Recoverable::Present(x) => spans_named_type(*x.0), Recoverable::Missing(_) => Seq::empty() }) + (spans_list_punctuator_recoverable_shared_named_type(n.types.0@))
}

/// The spans of the tokens of a `UnionTypeExtension`, in the order of a traversal.
pub open spec fn spans_union_type_extension(n: UnionTypeExtension) -> Seq<Span>
    decreases n, 0nat,
{
    (seq![n.extend_union.0.0.span] + seq![n.extend_union.1.0.span]) + (match n.name { Recoverable::Present(x) => spans_named_type(x), Recoverable::Missing(_) => Seq::empty() }) + (match n.directives { Some(x) => spans_directives(x), None => Seq::empty() }) + (match n.member_types { Some(x) => spans_union_member_types(x), None => Seq::empty() })
}

/// The spans of the tokens of a `EnumTypeDefinition`, in the order of a traversal.
pub open spec fn spans_enum_type_definition(n: EnumTypeDefinition) -> Seq<Span>
    decreases n, 0nat,
{
    (match n.description { Some(x) => spans_description(x), None => Seq::empty() }) + (seq![n.enum_kw.0.span]) + (match n.name { Recoverable::Present(x) => seq![x.0.span], Recoverable::Missing(_) => Seq::empty() }) + (match n.directives { Some(x) => spans_directives(x), None => Seq::empty() }) + (match n.values_definition { Some(x) => spans_enum_values_definition(x), None => Seq::empty() })
}

/// The spans of the tokens of a `EnumValuesDefinition`, in the order of a traversal.
pub open spec fn spans_enum_values_definition(n: EnumValuesDefinition) -> Seq<Span>
    decreases n, 0nat,
{
    (seq![n.braces.0.0.span] + match n.braces.1 { Recoverable::Present(x) => seq![x.0.span], Recoverable::Missing(_) => Seq::empty() }) + (spans_list_shared_enum_value_definition(n.definitions.0@))
}

/// The spans of the tokens of a `EnumValueDefinition`, in the order of a traversal.
pub open spec fn spans_enum_value_definition(n: EnumValueDefinition) -> Seq<Span>
    decreases n, 0nat,
{
    (match n.description { Some(x) => spans_description(x), None => Seq::empty() }) + (spans_enum_value(n.enum_value)) + (match n.directives { Some(x) => spans_directives(x), None => Seq::empty() })
}

/// The spans of the tokens of a `EnumTypeExtension`, in the order of a traversal.
pub open spec fn spans_enum_type_extension(n: EnumTypeExtension) -> Seq<Span>
    decreases n, 0nat,
{
    (match n.name { Recoverable::Present(x) => spans_named_type(x), Recoverable::Missing(_) => Seq::empty() }) + (match n.directives { Some(x) => spans_directives(x), None => Seq::empty() }) + (match n.values_definition { Some(x) => spans_enum_values_definition(x), None => Seq::empty() })
}

/// The spans of the tokens of a `InputObjectTypeDefinition`, in the order of a traversal.
pub open spec fn spans_input_object_type_definition(n: InputObjectTypeDefinition) -> Seq<Span>
    decreases n, 0nat,
{
    (match n.description { Some(x) => spans_description(x), None => Seq::empty() }) + (seq![n.input.0.span]) + (match n.name { Recoverable::Present(x) => seq![x.0.span], Recoverable::Missing(_) => Seq::empty() }) + (match n.directives { Some(x) => spans_directives(x), None => Seq::empty() }) + (match n.fields_definition { Some(x) => spans_input_fields_definition(x), None => Seq::empty() })
}

/// The spans of the tokens of a `InputFieldsDefinition`, in the order of a traversal.
pub open spec fn spans_input_fields_definition(n: InputFieldsDefinition) -> Seq<Span>
    decreases n, 0nat,
{
    (seq![n.braces.0.0.span] + match n.braces.1 { Recoverable::Present(x) => seq![x.0.span], Recoverable::Missing(_) => Seq::empty() }) + (spans_list_shared_input_value_definition(n.definitions.0@))
}

/// The spans of the tokens of a `InputObjectTypeExtension`, in the order of a traversal.
pub open spec fn spans_input_object_type_extension(n: InputObjectTypeExtension) -> Seq<Span>
    decreases n, 0nat,
{
    (seq![n.extend_input.0.0.span] + seq![n.extend_input.1.0.span]) + (match n.name { Recoverable::Present(x) => spans_named_type(x), Recoverable::Missing(_) => Seq::empty() }) + (match n.directives { Some(x) => spans_directives(x), None => Seq::empty() }) + (match n.fields_definition { Some(x) => spans_input_fields_definition(x), None => Seq::empty() })
}

/// The spans of the tokens of a `DirectiveDefinition`, in the order of a traversal.
pub open spec fn spans_directive_definition(n: DirectiveDefinition) -> Seq<Span>
    decreases n, 0nat,
{
    (match n.description { Some(x) => spans_description(x), None => Seq::empty() }) + (seq![n.directive.0.span]) + (match n.at { Recoverable::Present(x) => seq![x.0.span], Recoverable::Missing(_) => Seq::empty() }) + (match n.name { Recoverable::Present(x) => seq![x.0.span], Recoverable::Missing(_) => Seq::empty() }) + (match n.arguments_definition { Some(x) => spans_arguments_definition(*x.0), None => Seq::empty() }) + (match n.repeatable { Some(x) => seq![x.0.span], None => Seq::empty() }) + (match n.locations { Recoverable::Present(x) => spans_directive_locations(x), Recoverable::Missing(_) => Seq::empty() })
}

/// The spans of the tokens of a `DirectiveLocations`, in the order of a traversal.
pub open spec fn spans_directive_locations(n: DirectiveLocations) -> Seq<Span>
    decreases n, 0nat,
{
    (seq![n.on.0.span]) + (match n.pipe { Some(x) => seq![x.0.span], None => Seq::empty() }) + (match n.first { Recoverable::Present(x) => spans_directive_location(x), Recoverable::Missing(_) => Seq::empty() }) + (spans_list_punctuator_recoverable_directive_location(n.locations.0@))
}

/// The spans of the tokens of a `DirectiveLocation`, in the order of a traversal.
pub open spec fn spans_directive_location(n: DirectiveLocation) -> Seq<Span>
    decreases n, 0nat,
{
    match n {
        DirectiveLocation::ExecutableDirectiveLocation(x) => spans_executable_directive_location(x),
        DirectiveLocation::TypeSystemDirectiveLocation(x) => spans_type_system_directive_location(x),
    }
}

/// The spans of the tokens of a `ExecutableDirectiveLocation`, in the order of a traversal.
pub open spec fn spans_executable_directive_location(n: ExecutableDirectiveLocation) -> Seq<Span>
    decreases n, 0nat,
{
    match n {
        ExecutableDirectiveLocation::Query(x) => seq![x.0.span],
        ExecutableDirectiveLocation::Mutation(x) => seq![x.0.span],
        ExecutableDirectiveLocation::Subscription(x) => seq![x.0.span],
        ExecutableDirectiveLocation::Field(x) => seq![x.0.span],
        ExecutableDirectiveLocation::FragmentDefinition(x) => seq![x.0.span],
        ExecutableDirectiveLocation::FragmentSpread(x) => seq![x.0.span],
        ExecutableDirectiveLocation::InlineFragment(x) => seq![x.0.span],
        ExecutableDirectiveLocation::VariableDefinition(x) => seq![x.0.span],
    }
}

/// The spans of the tokens of a `TypeSystemDirectiveLocation`, in the order of a traversal.
pub open spec fn spans_type_system_directive_location(n: TypeSystemDirectiveLocation) -> Seq<Span>
    decreases n, 0nat,
{
    match n {
        TypeSystemDirectiveLocation::Schema(x) => seq![x.0.span],
        TypeSystemDirectiveLocation::Scalar(x) => seq![x.0.span],
        TypeSystemDirectiveLocation::Object(x) => seq![x.0.span],
        TypeSystemDirectiveLocation::FieldDefinition(x) => seq![x.0.span],
        TypeSystemDirectiveLocation::ArgumentDefinition(x) => seq![x.0.span],
        TypeSystemDirectiveLocation::Interface(x) => seq![x.0.span],
        TypeSystemDirectiveLocation::Union(x) => seq![x.0.span],
        TypeSystemDirectiveLocation::Enum(x) => seq![x.0.span],
        TypeSystemDirectiveLocation::EnumValue(x) => seq![x.0.span],
        TypeSystemDirectiveLocation::InputObject(x) => seq![x.0.span],
        TypeSystemDirectiveLocation::InputFieldDefinition(x) => seq![x.0.span],
    }
}

pub open spec fn spans_list_shared_definition(s: Seq<Shared<Definition>>) -> Seq<Span>
    decreases s, 1nat,
{
    if s.len() == 0 {
        Seq::empty()
    } else {
        spans_list_shared_definition(s.drop_last()) + (spans_definition(*s.last().0))
    }
}

pub open spec fn spans_list_executable_definition(s: Seq<ExecutableDefinition>) -> Seq<Span>
    decreases s, 1nat,
{
    if s.len() == 0 {
        Seq::empty()
    } else {
        spans_list_executable_definition(s.drop_last()) + (spans_executable_definition(s.last()))
    }
}

pub open spec fn spans_list_selection(s: Seq<Selection>) -> Seq<Span>
    decreases s, 1nat,
{
    if s.len() == 0 {
        Seq::empty()
    } else {
        spans_list_selection(s.drop_last()) + (spans_selection(s.last()))
    }
}

pub open spec fn spans_list_shared_argument(s: Seq<Shared<Argument>>) -> Seq<Span>
    decreases s, 1nat,
{
    if s.len() == 0 {
        Seq::empty()
    } else {
        spans_list_shared_argument(s.drop_last()) + (spans_argument(*s.last().0))
    }
}

pub open spec fn spans_list_shared_value(s: Seq<Shared<Value>>) -> Seq<Span>
    decreases s, 1nat,
{
    if s.len() == 0 {
        Seq::empty()
    } else {
        spans_list_shared_value(s.drop_last()) + (spans_value(*s.last().0))
    }
}

pub open spec fn spans_list_object_field(s: Seq<ObjectField>) -> Seq<Span>
    decreases s, 1nat,
{
    if s.len() == 0 {
        Seq::empty()
    } else {
        spans_list_object_field(s.drop_last()) + (spans_object_field(s.last()))
    }
}

pub open spec fn spans_list_shared_variable_definition(s: Seq<Shared<VariableDefinition>>) -> Seq<Span>
    decreases s, 1nat,
{
    if s.len() == 0 {
        Seq::empty()
    } else {
        spans_list_shared_variable_definition(s.drop_last()) + (spans_variable_definition(*s.last().0))
    }
}

pub open spec fn spans_list_shared_directive(s: Seq<Shared<Directive>>) -> Seq<Span>
    decreases s, 1nat,
{
    if s.len() == 0 {
        Seq::empty()
    } else {
        spans_list_shared_directive(s.drop_last()) + (spans_directive(*s.last().0))
    }
}

pub open spec fn spans_list_type_system_definition(s: Seq<TypeSystemDefinition>) -> Seq<Span>
    decreases s, 1nat,
{
    if s.len() == 0 {
        Seq::empty()
    } else {
        spans_list_type_system_definition(s.drop_last()) + (spans_type_system_definition(s.last()))
    }
}

pub open spec fn spans_list_type_system_definition_or_extension(s: Seq<TypeSystemDefinitionOrExtension>) -> Seq<Span>
    decreases s, 1nat,
{
    if s.len() == 0 {
        Seq::empty()
    } else {
        spans_list_type_system_definition_or_extension(s.drop_last()) + (spans_type_system_definition_or_extension(s.last()))
    }
}

pub open spec fn spans_list_root_operation_type_definition(s: Seq<RootOperationTypeDefinition>) -> Seq<Span>
    decreases s, 1nat,
{
    if s.len() == 0 {
        Seq::empty()
    } else {
        spans_list_root_operation_type_definition(s.drop_last()) + (spans_root_operation_type_definition(s.last()))
    }
}

pub open spec fn spans_list_punctuator_recoverable_shared_named_type(s: Seq<(Punctuator, Recoverable<Shared<NamedType>>)>) -> Seq<Span>
    decreases s, 1nat,
{
    if s.len() == 0 {
        Seq::empty()
    } else {
        spans_list_punctuator_recoverable_shared_named_type(s.drop_last()) + (seq![s.last().0.0.span] + match s.last().1 { Recoverable::Present(x) => spans_named_type(*x.0), Recoverable::Missing(_) => Seq::empty() })
    }
}

pub open spec fn spans_list_shared_field_definition(s: Seq<Shared<FieldDefinition>>) -> Seq<Span>
    decreases s, 1nat,
{
    if s.len() == 0 {
        Seq::empty()
    } else {
        spans_list_shared_field_definition(s.drop_last()) + (spans_field_definition(*s.last().0))
    }
}

pub open spec fn spans_list_shared_input_value_definition(s: Seq<Shared<InputValueDefinition>>) -> Seq<Span>
    decreases s, 1nat,
{
    if s.len() == 0 {
        Seq::empty()
    } else {
        spans_list_shared_input_value_definition(s.drop_last()) + (spans_input_value_definition(*s.last().0))
    }
}

pub open spec fn spans_list_shared_enum_value_definition(s: Seq<Shared<EnumValueDefinition>>) -> Seq<Span>
    decreases s, 1nat,
{
    if s.len() == 0 {
        Seq::empty()
    } else {
        spans_list_shared_enum_value_definition(s.drop_last()) + (spans_enum_value_definition(*s.last().0))
    }
}

pub open spec fn spans_list_punctuator_recoverable_directive_location(s: Seq<(Punctuator, Recoverable<DirectiveLocation>)>) -> Seq<Span>
    decreases s, 1nat,
{
    if s.len() == 0 {
        Seq::empty()
    } else {
        spans_list_punctuator_recoverable_directive_location(s.drop_last()) + (seq![s.last().0.0.span] + match s.last().1 { Recoverable::Present(x) => spans_directive_location(x), Recoverable::Missing(_) => Seq::empty() })
    }
}

/// Appends the spans of the tokens of `n` to `acc`.
#[verifier::spinoff_prover]
pub fn gather_document(n: &Document, acc: &mut Vec<Span>)
    ensures
        final(acc)@ == old(acc)@ + spans_document(*n),
    decreases n, 0nat,
{
    let ghost start = acc@;
    let ghost d = *n;
    let ghost q1 = spans_list_shared_definition(d.definitions.0@);
    gather_list_shared_definition(&n.definitions.0, acc);
    assert(acc@ =~= start + q1);
    let ghost s1 = q1;
    assert(acc@ =~= start + spans_document(*n));
}

/// Appends the spans of the tokens of `n` to `acc`.
#[verifier::spinoff_prover]
pub fn gather_definition(n: &Definition, acc: &mut Vec<Span>)
    ensures
        final(acc)@ == old(acc)@ + spans_definition(*n),
    decreases n, 0nat,
{
    let ghost start = acc@;
    match n {
        Definition::ExecutableDefinition(x) => {
            gather_executable_definition(&(*x), acc);
        },
        Definition::TypeSystemDefinitionOrExtension(x) => {
            gather_type_system_definition_or_extension(&(*x), acc);
        },
    }
    assert(acc@ =~= start + spans_definition(*n));
}

/// Appends the spans of the tokens of `n` to `acc`.
#[verifier::spinoff_prover]
pub fn gather_executable_document(n: &ExecutableDocument, acc: &mut Vec<Span>)
    ensures
        final(acc)@ == old(acc)@ + spans_executable_document(*n),
    decreases n, 0nat,
{
    let ghost start = acc@;
    let ghost d = *n;
    let ghost q1 = spans_list_executable_definition(d.definitions.0@);
    gather_list_executable_definition(&n.definitions.0, acc);
    assert(acc@ =~= start + q1);
    let ghost s1 = q1;
    assert(acc@ =~= start + spans_executable_document(*n));
}

/// Appends the spans of the tokens of `n` to `acc`.
#[verifier::spinoff_prover]
pub fn gather_executable_definition(n: &ExecutableDefinition, acc: &mut Vec<Span>)
    ensures
        final(acc)@ == old(acc)@ + spans_executable_definition(*n),
    decreases n, 0nat,
{
    let ghost start = acc@;
    match n {
        ExecutableDefinition::OperationDefinition(x) => {
            gather_operation_definition(&(*(*x).0), acc);
        },
        ExecutableDefinition::FragmentDefinition(x) => {
            gather_fragment_definition(&(*(*x).0), acc);
        },
    }
    assert(acc@ =~= start + spans_executable_definition(*n));
}

/// Appends the spans of the tokens of `n` to `acc`.
#[verifier::spinoff_prover]
pub fn gather_operation_definition(n: &OperationDefinition, acc: &mut Vec<Span>)
    ensures
        final(acc)@ == old(acc)@ + spans_operation_definition(*n),
    decreases n, 0nat,
{
    let ghost start = acc@;
    let ghost d = *n;
    let ghost q1 = match d.ty { Some(x) => spans_operation_type(x), None => Seq::empty() };
    if let Some(x) = &n.ty {
        gather_operation_type(&x, acc);
    }
    assert(acc@ =~= start + q1);
    let ghost s1 = q1;
    let ghost q2 = match d.name { Some(x) => seq![x.0.span], None => Seq::empty() };
    let ghost before2 = acc@;
    if let Some(x) = &n.name {
        acc.push(x.0.span);
    }
    assert(acc@ =~= before2 + q2);
    proof { lemma_concat_associative(start, s1, q2); }
    let ghost s2 = s1 + q2;
    assert(acc@ =~= start + s2);
    let ghost q3 = match d.variable_definitions { Some(x) => spans_variable_definitions(x), None => Seq::empty() };
    let ghost before3 = acc@;
    if let Some(x) = &n.variable_definitions {
        gather_variable_definitions(&x, acc);
    }
    assert(acc@ =~= before3 + q3);
    proof { lemma_concat_associative(start, s2, q3); }
    let ghost s3 = s2 + q3;
    assert(acc@ =~= start + s3);
    let ghost q4 = match d.directives { Some(x) => spans_directives(x), None => Seq::empty() };
    let ghost before4 = acc@;
    if let Some(x) = &n.directives {
        gather_directives(&x, acc);
    }
    assert(acc@ =~= before4 + q4);
    proof { lemma_concat_associative(start, s3, q4); }
    let ghost s4 = s3 + q4;
    assert(acc@ =~= start + s4);
    let ghost q5 = match d.selection_set { Recoverable::Present(x) => spans_selection_set(node_of(x)), Recoverable::Missing(_) => Seq::empty() };
    let ghost before5 = acc@;
    if let Recoverable::Present(x) = &n.selection_set {
        gather_selection_set(&(*x.0), acc);
    }
    assert(acc@ =~= before5 + q5);
    proof { lemma_concat_associative(start, s4, q5); }
    let ghost s5 = s4 + q5;
    assert(acc@ =~= start + s5);
    assert(acc@ =~= start + spans_operation_definition(*n));
}

/// Appends the spans of the tokens of `n` to `acc`.
#[verifier::spinoff_prover]
pub fn gather_operation_type(n: &OperationType, acc: &mut Vec<Span>)
    ensures
        final(acc)@ == old(acc)@ + spans_operation_type(*n),
    decreases n, 0nat,
{
    let ghost start = acc@;
    match n {
        OperationType::Query(x) => {
            acc.push((*x).0.span);
        },
        OperationType::Mutation(x) => {
            acc.push((*x).0.span);
        },
        OperationType::Subscription(x) => {
            acc.push((*x).0.span);
        },
    }
    assert(acc@ =~= start + spans_operation_type(*n));
}

/// Appends the spans of the tokens of `n` to `acc`.
#[verifier::spinoff_prover]
pub fn gather_selection_set(n: &SelectionSet, acc: &mut Vec<Span>)
    ensures
        final(acc)@ == old(acc)@ + spans_selection_set(*n),
    decreases n, 0nat,
{
    let ghost start = acc@;
    let ghost d = *n;
    let ghost q1 = seq![d.braces.0.0.span] + match d.braces.1 { Recoverable::Present(x) => seq![x.0.span], Recoverable::Missing(_) => Seq::empty() };
    acc.push(n.braces.0.0.span);
    if let Recoverable::Present(x) = &n.braces.1 {
        acc.push(x.0.span);
    }
    assert(acc@ =~= start + q1);
    let ghost s1 = q1;
    let ghost q2 = spans_list_selection(d.selections.0@);
    let ghost before2 = acc@;
    gather_list_selection(&n.selections.0, acc);
    assert(acc@ =~= before2 + q2);
    proof { lemma_concat_associative(start, s1, q2); }
    let ghost s2 = s1 + q2;
    assert(acc@ =~= start + s2);
    assert(acc@ =~= start + spans_selection_set(*n));
}

/// Appends the spans of the tokens of `n` to `acc`.
#[verifier::spinoff_prover]
pub fn gather_selection(n: &Selection, acc: &mut Vec<Span>)
    ensures
        final(acc)@ == old(acc)@ + spans_selection(*n),
    decreases n, 0nat,
{
    let ghost start = acc@;
    match n {
        Selection::Field(x) => {
            gather_field(&(*(*x).0), acc);
        },
        Selection::FragmentSpread(x) => {
            gather_fragment_spread(&(*(*x).0), acc);
        },
        Selection::InlineFragment(x) => {
            gather_inline_fragment(&(*x), acc);
        },
    }
    assert(acc@ =~= start + spans_selection(*n));
}

/// Appends the spans of the tokens of `n` to `acc`.
#[verifier::spinoff_prover]
pub fn gather_field(n: &Field, acc: &mut Vec<Span>)
    ensures
        final(acc)@ == old(acc)@ + spans_field(*n),
    decreases n, 0nat,
{
    let ghost start = acc@;
    let ghost d = *n;
    let ghost q1 = match d.alias { Some(x) => spans_alias(x), None => Seq::empty() };
    if let Some(x) = &n.alias {
        gather_alias(&x, acc);
    }
    assert(acc@ =~= start + q1);
    let ghost s1 = q1;
    let ghost q2 = match d.name { Recoverable::Present(x) => seq![x.0.span], Recoverable::Missing(_) => Seq::empty() };
    let ghost before2 = acc@;
    if let Recoverable::Present(x) = &n.name {
        acc.push(x.0.span);
    }
    assert(acc@ =~= before2 + q2);
    proof { lemma_concat_associative(start, s1, q2); }
    let ghost s2 = s1 + q2;
    assert(acc@ =~= start + s2);
    let ghost q3 = match d.arguments { Some(x) => spans_arguments(node_of(x)), None => Seq::empty() };
    let ghost before3 = acc@;
    if let Some(x) = &n.arguments {
        gather_arguments(&(*x.0), acc);
    }
    assert(acc@ =~= before3 + q3);
    proof { lemma_concat_associative(start, s2, q3); }
    let ghost s3 = s2 + q3;
    assert(acc@ =~= start + s3);
    let ghost q4 = match d.directives { Some(x) => spans_directives(x), None => Seq::empty() };
    let ghost before4 = acc@;
    if let Some(x) = &n.directives {
        gather_directives(&x, acc);
    }
    assert(acc@ =~= before4 + q4);
    proof { lemma_concat_associative(start, s3, q4); }
    let ghost s4 = s3 + q4;
    assert(acc@ =~= start + s4);
    let ghost q5 = match d.selection_set { Some(x) => spans_selection_set(node_of(x)), None => Seq::empty() };
    let ghost before5 = acc@;
    if let Some(x) = &n.selection_set {
        gather_selection_set(&(*x.0), acc);
    }
    assert(acc@ =~= before5 + q5);
    proof { lemma_concat_associative(start, s4, q5); }
    let ghost s5 = s4 + q5;
    assert(acc@ =~= start + s5);
    assert(acc@ =~= start + spans_field(*n));
}

/// Appends the spans of the tokens of `n` to `acc`.
#[verifier::spinoff_prover]
pub fn gather_alias(n: &Alias, acc: &mut Vec<Span>)
    ensures
        final(acc)@ == old(acc)@ + spans_alias(*n),
    decreases n, 0nat,
{
    let ghost start = acc@;
    let ghost d = *n;
    let ghost q1 = seq![d.name.0.span];
    acc.push(n.name.0.span);
    assert(acc@ =~= start + q1);
    let ghost s1 = q1;
    let ghost q2 = seq![d.colon.0.span];
    let ghost before2 = acc@;
    acc.push(n.colon.0.span);
    assert(acc@ =~= before2 + q2);
    proof { lemma_concat_associative(start, s1, q2); }
    let ghost s2 = s1 + q2;
    assert(acc@ =~= start + s2);
    assert(acc@ =~= start + spans_alias(*n));
}

/// Appends the spans of the tokens of `n` to `acc`.
#[verifier::spinoff_prover]
pub fn gather_arguments(n: &Arguments, acc: &mut Vec<Span>)
    ensures
        final(acc)@ == old(acc)@ + spans_arguments(*n),
    decreases n, 0nat,
{
    let ghost start = acc@;
    let ghost d = *n;
    let ghost q1 = seq![d.parens.0.0.span] + match d.parens.1 { Recoverable::Present(x) => seq![x.0.span], Recoverable::Missing(_) => Seq::empty() };
    acc.push(n.parens.0.0.span);
    if let Recoverable::Present(x) = &n.parens.1 {
        acc.push(x.0.span);
    }
    assert(acc@ =~= start + q1);
    let ghost s1 = q1;
    let ghost q2 = spans_list_shared_argument(d.items.0@);
    let ghost before2 = acc@;
    gather_list_shared_argument(&n.items.0, acc);
    assert(acc@ =~= before2 + q2);
    proof { lemma_concat_associative(start, s1, q2); }
    let ghost s2 = s1 + q2;
    assert(acc@ =~= start + s2);
    assert(acc@ =~= start + spans_arguments(*n));
}

/// Appends the spans of the tokens of `n` to `acc`.
#[verifier::spinoff_prover]
pub fn gather_argument(n: &Argument, acc: &mut Vec<Span>)
    ensures
        final(acc)@ == old(acc)@ + spans_argument(*n),
    decreases n, 0nat,
{
    let ghost start = acc@;
    let ghost d = *n;
    let ghost q1 = seq![d.name.0.span];
    acc.push(n.name.0.span);
    assert(acc@ =~= start + q1);
    let ghost s1 = q1;
    let ghost q2 = match d.colon { Recoverable::Present(x) => seq![x.0.span], Recoverable::Missing(_) => Seq::empty() };
    let ghost before2 = acc@;
    if let Recoverable::Present(x) = &n.colon {
        acc.push(x.0.span);
    }
    assert(acc@ =~= before2 + q2);
    proof { lemma_concat_associative(start, s1, q2); }
    let ghost s2 = s1 + q2;
    assert(acc@ =~= start + s2);
    let ghost q3 = match d.value { Recoverable::Present(x) => spans_value(node_of(x)), Recoverable::Missing(_) => Seq::empty() };
    let ghost before3 = acc@;
    if let Recoverable::Present(x) = &n.value {
        gather_value(&(*x.0), acc);
    }
    assert(acc@ =~= before3 + q3);
    proof { lemma_concat_associative(start, s2, q3); }
    let ghost s3 = s2 + q3;
    assert(acc@ =~= start + s3);
    assert(acc@ =~= start + spans_argument(*n));
}

/// Appends the spans of the tokens of `n` to `acc`.
#[verifier::spinoff_prover]
pub fn gather_fragment_spread(n: &FragmentSpread, acc: &mut Vec<Span>)
    ensures
        final(acc)@ == old(acc)@ + spans_fragment_spread(*n),
    decreases n, 0nat,
{
    let ghost start = acc@;
    let ghost d = *n;
    let ghost q1 = seq![d.dots.0.span];
    acc.push(n.dots.0.span);
    assert(acc@ =~= start + q1);
    let ghost s1 = q1;
    let ghost q2 = seq![d.fragment_name.0.span];
    let ghost before2 = acc@;
    acc.push(n.fragment_name.0.span);
    assert(acc@ =~= before2 + q2);
    proof { lemma_concat_associative(start, s1, q2); }
    let ghost s2 = s1 + q2;
    assert(acc@ =~= start + s2);
    let ghost q3 = match d.directives { Some(x) => spans_directives(x), None => Seq::empty() };
    let ghost before3 = acc@;
    if let Some(x) = &n.directives {
        gather_directives(&x, acc);
    }
    assert(acc@ =~= before3 + q3);
    proof { lemma_concat_associative(start, s2, q3); }
    let ghost s3 = s2 + q3;
    assert(acc@ =~= start + s3);
    assert(acc@ =~= start + spans_fragment_spread(*n));
}

/// Appends the spans of the tokens of `n` to `acc`.
#[verifier::spinoff_prover]
pub fn gather_inline_fragment(n: &InlineFragment, acc: &mut Vec<Span>)
    ensures
        final(acc)@ == old(acc)@ + spans_inline_fragment(*n),
    decreases n, 0nat,
{
    let ghost start = acc@;
    let ghost d = *n;
    let ghost q1 = seq![d.dots.0.span];
    acc.push(n.dots.0.span);
    assert(acc@ =~= start + q1);
    let ghost s1 = q1;
    let ghost q2 = match d.type_condition { Some(x) => spans_type_condition(x), None => Seq::empty() };
    let ghost before2 = acc@;
    if let Some(x) = &n.type_condition {
        gather_type_condition(&x, acc);
    }
    assert(acc@ =~= before2 + q2);
    proof { lemma_concat_associative(start, s1, q2); }
    let ghost s2 = s1 + q2;
    assert(acc@ =~= start + s2);
    let ghost q3 = match d.directives { Some(x) => spans_directives(x), None => Seq::empty() };
    let ghost before3 = acc@;
    if let Some(x) = &n.directives {
        gather_directives(&x, acc);
    }
    assert(acc@ =~= before3 + q3);
    proof { lemma_concat_associative(start, s2, q3); }
    let ghost s3 = s2 + q3;
    assert(acc@ =~= start + s3);
    let ghost q4 = match d.selection_set { Recoverable::Present(x) => spans_selection_set(node_of(x)), Recoverable::Missing(_) => Seq::empty() };
    let ghost before4 = acc@;
    if let Recoverable::Present(x) = &n.selection_set {
        gather_selection_set(&(*x.0), acc);
    }
    assert(acc@ =~= before4 + q4);
    proof { lemma_concat_associative(start, s3, q4); }
    let ghost s4 = s3 + q4;
    assert(acc@ =~= start + s4);
    assert(acc@ =~= start + spans_inline_fragment(*n));
}

/// Appends the spans of the tokens of `n` to `acc`.
#[verifier::spinoff_prover]
pub fn gather_fragment_definition(n: &FragmentDefinition, acc: &mut Vec<Span>)
    ensures
        final(acc)@ == old(acc)@ + spans_fragment_definition(*n),
    decreases n, 0nat,
{
    let ghost start = acc@;
    let ghost d = *n;
    let ghost q1 = seq![d.fragment.0.span];
    acc.push(n.fragment.0.span);
    assert(acc@ =~= start + q1);
    let ghost s1 = q1;
    let ghost q2 = match d.fragment_name { Recoverable::Present(x) => seq![x.0.span], Recoverable::Missing(_) => Seq::empty() };
    let ghost before2 = acc@;
    if let Recoverable::Present(x) = &n.fragment_name {
        acc.push(x.0.span);
    }
    assert(acc@ =~= before2 + q2);
    proof { lemma_concat_associative(start, s1, q2); }
    let ghost s2 = s1 + q2;
    assert(acc@ =~= start + s2);
    let ghost q3 = match d.type_condition { Recoverable::Present(x) => spans_type_condition(x), Recoverable::Missing(_) => Seq::empty() };
    let ghost before3 = acc@;
    if let Recoverable::Present(x) = &n.type_condition {
        gather_type_condition(&x, acc);
    }
    assert(acc@ =~= before3 + q3);
    proof { lemma_concat_associative(start, s2, q3); }
    let ghost s3 = s2 + q3;
    assert(acc@ =~= start + s3);
    let ghost q4 = match d.directives { Some(x) => spans_directives(x), None => Seq::empty() };
    let ghost before4 = acc@;
    if let Some(x) = &n.directives {
        gather_directives(&x, acc);
    }
    assert(acc@ =~= before4 + q4);
    proof { lemma_concat_associative(start, s3, q4); }
    let ghost s4 = s3 + q4;
    assert(acc@ =~= start + s4);
    let ghost q5 = match d.selection_set { Recoverable::Present(x) => spans_selection_set(node_of(x)), Recoverable::Missing(_) => Seq::empty() };
    let ghost before5 = acc@;
    if let Recoverable::Present(x) = &n.selection_set {
        gather_selection_set(&(*x.0), acc);
    }
    assert(acc@ =~= before5 + q5);
    proof { lemma_concat_associative(start, s4, q5); }
    let ghost s5 = s4 + q5;
    assert(acc@ =~= start + s5);
    assert(acc@ =~= start + spans_fragment_definition(*n));
}

/// Appends the spans of the tokens of `n` to `acc`.
#[verifier::spinoff_prover]
pub fn gather_type_condition(n: &TypeCondition, acc: &mut Vec<Span>)
    ensures
        final(acc)@ == old(acc)@ + spans_type_condition(*n),
    decreases n, 0nat,
{
    let ghost start = acc@;
    let ghost d = *n;
    let ghost q1 = seq![d.on.0.span];
    acc.push(n.on.0.span);
    assert(acc@ =~= start + q1);
    let ghost s1 = q1;
    let ghost q2 = match d.named_type { Recoverable::Present(x) => spans_named_type(x), Recoverable::Missing(_) => Seq::empty() };
    let ghost before2 = acc@;
    if let Recoverable::Present(x) = &n.named_type {
        gather_named_type(&x, acc);
    }
    assert(acc@ =~= before2 + q2);
    proof { lemma_concat_associative(start, s1, q2); }
    let ghost s2 = s1 + q2;
    assert(acc@ =~= start + s2);
    assert(acc@ =~= start + spans_type_condition(*n));
}

/// Appends the spans of the tokens of `n` to `acc`.
#[verifier::spinoff_prover]
pub fn gather_value(n: &Value, acc: &mut Vec<Span>)
    ensures
        final(acc)@ == old(acc)@ + spans_value(*n),
    decreases n, 0nat,
{
    let ghost start = acc@;
    match n {
        Value::Variable(x) => {
            gather_variable(&(*x), acc);
        },
        Value::IntValue(x) => {
            acc.push((*x).0.span);
        },
        Value::FloatValue(x) => {
            acc.push((*x).0.span);
        },
        Value::StringValue(x) => {
            acc.push((*x).0.span);
        },
        Value::BooleanValue(x) => {
            gather_boolean_value(&(*x), acc);
        },
        Value::NullValue(x) => {
            gather_null_value(&(*x), acc);
        },
        Value::EnumValue(x) => {
            gather_enum_value(&(*x), acc);
        },
        Value::ListValue(x) => {
            gather_list_value(&(*x), acc);
        },
        Value::ObjectValue(x) => {
            gather_object_value(&(*x), acc);
        },
    }
    assert(acc@ =~= start + spans_value(*n));
}

/// Appends the spans of the tokens of `n` to `acc`.
#[verifier::spinoff_prover]
pub fn gather_boolean_value(n: &BooleanValue, acc: &mut Vec<Span>)
    ensures
        final(acc)@ == old(acc)@ + spans_boolean_value(*n),
    decreases n, 0nat,
{
    let ghost start = acc@;
    match n {
        BooleanValue::True(x) => {
            acc.push((*x).0.span);
        },
        BooleanValue::False(x) => {
            acc.push((*x).0.span);
        },
    }
    assert(acc@ =~= start + spans_boolean_value(*n));
}

/// Appends the spans of the tokens of `n` to `acc`.
#[verifier::spinoff_prover]
pub fn gather_null_value(n: &NullValue, acc: &mut Vec<Span>)
    ensures
        final(acc)@ == old(acc)@ + spans_null_value(*n),
    decreases n, 0nat,
{
    let ghost start = acc@;
    acc.push(n.0.0.span);
    assert(acc@ =~= start + spans_null_value(*n));
}

/// Appends the spans of the tokens of `n` to `acc`.
#[verifier::spinoff_prover]
pub fn gather_enum_value(n: &EnumValue, acc: &mut Vec<Span>)
    ensures
        final(acc)@ == old(acc)@ + spans_enum_value(*n),
    decreases n, 0nat,
{
    let ghost start = acc@;
    acc.push(n.0.0.span);
    assert(acc@ =~= start + spans_enum_value(*n));
}

/// Appends the spans of the tokens of `n` to `acc`.
#[verifier::spinoff_prover]
pub fn gather_list_value(n: &ListValue, acc: &mut Vec<Span>)
    ensures
        final(acc)@ == old(acc)@ + spans_list_value(*n),
    decreases n, 0nat,
{
    let ghost start = acc@;
    let ghost d = *n;
    let ghost q1 = seq![d.brackets.0.0.span] + match d.brackets.1 { Recoverable::Present(x) => seq![x.0.span], Recoverable::Missing(_) => Seq::empty() };
    acc.push(n.brackets.0.0.span);
    if let Recoverable::Present(x) = &n.brackets.1 {
        acc.push(x.0.span);
    }
    assert(acc@ =~= start + q1);
    let ghost s1 = q1;
    let ghost q2 = spans_list_shared_value(d.values.0@);
    let ghost before2 = acc@;
    gather_list_shared_value(&n.values.0, acc);
    assert(acc@ =~= before2 + q2);
    proof { lemma_concat_associative(start, s1, q2); }
    let ghost s2 = s1 + q2;
    assert(acc@ =~= start + s2);
    assert(acc@ =~= start + spans_list_value(*n));
}

/// Appends the spans of the tokens of `n` to `acc`.
#[verifier::spinoff_prover]
pub fn gather_object_value(n: &ObjectValue, acc: &mut Vec<Span>)
    ensures
        final(acc)@ == old(acc)@ + spans_object_value(*n),
    decreases n, 0nat,
{
    let ghost start = acc@;
    let ghost d = *n;
    let ghost q1 = seq![d.braces.0.0.span] + match d.braces.1 { Recoverable::Present(x) => seq![x.0.span], Recoverable::Missing(_) => Seq::empty() };
    acc.push(n.braces.0.0.span);
    if let Recoverable::Present(x) = &n.braces.1 {
        acc.push(x.0.span);
    }
    assert(acc@ =~= start + q1);
    let ghost s1 = q1;
    let ghost q2 = spans_list_object_field(d.object_fields.0@);
    let ghost before2 = acc@;
    gather_list_object_field(&n.object_fields.0, acc);
    assert(acc@ =~= before2 + q2);
    proof { lemma_concat_associative(start, s1, q2); }
    let ghost s2 = s1 + q2;
    assert(acc@ =~= start + s2);
    assert(acc@ =~= start + spans_object_value(*n));
}

/// Appends the spans of the tokens of `n` to `acc`.
#[verifier::spinoff_prover]
pub fn gather_object_field(n: &ObjectField, acc: &mut Vec<Span>)
    ensures
        final(acc)@ == old(acc)@ + spans_object_field(*n),
    decreases n, 0nat,
{
    let ghost start = acc@;
    let ghost d = *n;
    let ghost q1 = seq![d.name.0.span];
    acc.push(n.name.0.span);
    assert(acc@ =~= start + q1);
    let ghost s1 = q1;
    let ghost q2 = match d.colon { Recoverable::Present(x) => seq![x.0.span], Recoverable::Missing(_) => Seq::empty() };
    let ghost before2 = acc@;
    if let Recoverable::Present(x) = &n.colon {
        acc.push(x.0.span);
    }
    assert(acc@ =~= before2 + q2);
    proof { lemma_concat_associative(start, s1, q2); }
    let ghost s2 = s1 + q2;
    assert(acc@ =~= start + s2);
    let ghost q3 = match d.value { Recoverable::Present(x) => spans_value(node_of(x)), Recoverable::Missing(_) => Seq::empty() };
    let ghost before3 = acc@;
    if let Recoverable::Present(x) = &n.value {
        gather_value(&(*x.0), acc);
    }
    assert(acc@ =~= before3 + q3);
    proof { lemma_concat_associative(start, s2, q3); }
    let ghost s3 = s2 + q3;
    assert(acc@ =~= start + s3);
    assert(acc@ =~= start + spans_object_field(*n));
}

/// Appends the spans of the tokens of `n` to `acc`.
#[verifier::spinoff_prover]
pub fn gather_variable_definitions(n: &VariableDefinitions, acc: &mut Vec<Span>)
    ensures
        final(acc)@ == old(acc)@ + spans_variable_definitions(*n),
    decreases n, 0nat,
{
    let ghost start = acc@;
    let ghost d = *n;
    let ghost q1 = seq![d.parens.0.0.span] + match d.parens.1 { Recoverable::Present(x) => seq![x.0.span], Recoverable::Missing(_) => Seq::empty() };
    acc.push(n.parens.0.0.span);
    if let Recoverable::Present(x) = &n.parens.1 {
        acc.push(x.0.span);
    }
    assert(acc@ =~= start + q1);
    let ghost s1 = q1;
    let ghost q2 = spans_list_shared_variable_definition(d.variable_definitions.0@);
    let ghost before2 = acc@;
    gather_list_shared_variable_definition(&n.variable_definitions.0, acc);
    assert(acc@ =~= before2 + q2);
    proof { lemma_concat_associative(start, s1, q2); }
    let ghost s2 = s1 + q2;
    assert(acc@ =~= start + s2);
    assert(acc@ =~= start + spans_variable_definitions(*n));
}

/// Appends the spans of the tokens of `n` to `acc`.
#[verifier::spinoff_prover]
pub fn gather_variable_definition(n: &VariableDefinition, acc: &mut Vec<Span>)
    ensures
        final(acc)@ == old(acc)@ + spans_variable_definition(*n),
    decreases n, 0nat,
{
    let ghost start = acc@;
    let ghost d = *n;
    let ghost q1 = spans_variable(d.variable);
    gather_variable(&n.variable, acc);
    assert(acc@ =~= start + q1);
    let ghost s1 = q1;
    let ghost q2 = match d.colon { Recoverable::Present(x) => seq![x.0.span], Recoverable::Missing(_) => Seq::empty() };
    let ghost before2 = acc@;
    if let Recoverable::Present(x) = &n.colon {
        acc.push(x.0.span);
    }
    assert(acc@ =~= before2 + q2);
    proof { lemma_concat_associative(start, s1, q2); }
    let ghost s2 = s1 + q2;
    assert(acc@ =~= start + s2);
    let ghost q3 = match d.ty { Recoverable::Present(x) => spans_type(node_of(x)), Recoverable::Missing(_) => Seq::empty() };
    let ghost before3 = acc@;
    if let Recoverable::Present(x) = &n.ty {
        gather_type(&(*x.0), acc);
    }
    assert(acc@ =~= before3 + q3);
    proof { lemma_concat_associative(start, s2, q3); }
    let ghost s3 = s2 + q3;
    assert(acc@ =~= start + s3);
    let ghost q4 = match d.default_value { Some(x) => spans_default_value(x), None => Seq::empty() };
    let ghost before4 = acc@;
    if let Some(x) = &n.default_value {
        gather_default_value(&x, acc);
    }
    assert(acc@ =~= before4 + q4);
    proof { lemma_concat_associative(start, s3, q4); }
    let ghost s4 = s3 + q4;
    assert(acc@ =~= start + s4);
    let ghost q5 = match d.directives { Some(x) => spans_directives(x), None => Seq::empty() };
    let ghost before5 = acc@;
    if let Some(x) = &n.directives {
        gather_directives(&x, acc);
    }
    assert(acc@ =~= before5 + q5);
    proof { lemma_concat_associative(start, s4, q5); }
    let ghost s5 = s4 + q5;
    assert(acc@ =~= start + s5);
    assert(acc@ =~= start + spans_variable_definition(*n));
}

/// Appends the spans of the tokens of `n` to `acc`.
#[verifier::spinoff_prover]
pub fn gather_variable(n: &Variable, acc: &mut Vec<Span>)
    ensures
        final(acc)@ == old(acc)@ + spans_variable(*n),
    decreases n, 0nat,
{
    let ghost start = acc@;
    let ghost d = *n;
    let ghost q1 = seq![d.dollar.0.span];
    acc.push(n.dollar.0.span);
    assert(acc@ =~= start + q1);
    let ghost s1 = q1;
    let ghost q2 = match d.name { Recoverable::Present(x) => seq![x.0.span], Recoverable::Missing(_) => Seq::empty() };
    let ghost before2 = acc@;
    if let Recoverable::Present(x) = &n.name {
        acc.push(x.0.span);
    }
    assert(acc@ =~= before2 + q2);
    proof { lemma_concat_associative(start, s1, q2); }
    let ghost s2 = s1 + q2;
    assert(acc@ =~= start + s2);
    assert(acc@ =~= start + spans_variable(*n));
}

/// Appends the spans of the tokens of `n` to `acc`.
#[verifier::spinoff_prover]
pub fn gather_default_value(n: &DefaultValue, acc: &mut Vec<Span>)
    ensures
        final(acc)@ == old(acc)@ + spans_default_value(*n),
    decreases n, 0nat,
{
    let ghost start = acc@;
    let ghost d = *n;
    let ghost q1 = seq![d.eq.0.span];
    acc.push(n.eq.0.span);
    assert(acc@ =~= start + q1);
    let ghost s1 = q1;
    let ghost q2 = match d.value { Recoverable::Present(x) => spans_value(node_of(x)), Recoverable::Missing(_) => Seq::empty() };
    let ghost before2 = acc@;
    if let Recoverable::Present(x) = &n.value {
        gather_value(&(*x.0), acc);
    }
    assert(acc@ =~= before2 + q2);
    proof { lemma_concat_associative(start, s1, q2); }
    let ghost s2 = s1 + q2;
    assert(acc@ =~= start + s2);
    assert(acc@ =~= start + spans_default_value(*n));
}

/// Appends the spans of the tokens of `n` to `acc`.
#[verifier::spinoff_prover]
pub fn gather_type(n: &Type, acc: &mut Vec<Span>)
    ensures
        final(acc)@ == old(acc)@ + spans_type(*n),
    decreases n, 0nat,
{
    let ghost start = acc@;
    match n {
        Type::Named(x) => {
            gather_named_type(&(*x), acc);
        },
        Type::List(x) => {
            gather_list_type(&(*x), acc);
        },
        Type::NonNull(x) => {
            gather_non_null_type(&(*x), acc);
        },
    }
    assert(acc@ =~= start + spans_type(*n));
}

/// Appends the spans of the tokens of `n` to `acc`.
#[verifier::spinoff_prover]
pub fn gather_named_type(n: &NamedType, acc: &mut Vec<Span>)
    ensures
        final(acc)@ == old(acc)@ + spans_named_type(*n),
    decreases n, 0nat,
{
    let ghost start = acc@;
    acc.push(n.0.0.span);
    assert(acc@ =~= start + spans_named_type(*n));
}

/// Appends the spans of the tokens of `n` to `acc`.
#[verifier::spinoff_prover]
pub fn gather_list_type(n: &ListType, acc: &mut Vec<Span>)
    ensures
        final(acc)@ == old(acc)@ + spans_list_type(*n),
    decreases n, 0nat,
{
    let ghost start = acc@;
    let ghost d = *n;
    let ghost q1 = seq![d.brackets.0.0.span] + match d.brackets.1 { Recoverable::Present(x) => seq![x.0.span], Recoverable::Missing(_) => Seq::empty() };
    acc.push(n.brackets.0.0.span);
    if let Recoverable::Present(x) = &n.brackets.1 {
        acc.push(x.0.span);
    }
    assert(acc@ =~= start + q1);
    let ghost s1 = q1;
    let ghost q2 = match d.ty { Recoverable::Present(x) => spans_type(node_of(x)), Recoverable::Missing(_) => Seq::empty() };
    let ghost before2 = acc@;
    if let Recoverable::Present(x) = &n.ty {
        gather_type(&(*x.0), acc);
    }
    assert(acc@ =~= before2 + q2);
    proof { lemma_concat_associative(start, s1, q2); }
    let ghost s2 = s1 + q2;
    assert(acc@ =~= start + s2);
    assert(acc@ =~= start + spans_list_type(*n));
}

/// Appends the spans of the tokens of `n` to `acc`.
#[verifier::spinoff_prover]
pub fn gather_non_null_type(n: &NonNullType, acc: &mut Vec<Span>)
    ensures
        final(acc)@ == old(acc)@ + spans_non_null_type(*n),
    decreases n, 0nat,
{
    let ghost start = acc@;
    let ghost d = *n;
    let ghost q1 = spans_type(node_of(d.ty));
    gather_type(&(*n.ty.0), acc);
    assert(acc@ =~= start + q1);
    let ghost s1 = q1;
    let ghost q2 = seq![d.bang.0.span];
    let ghost before2 = acc@;
    acc.push(n.bang.0.span);
    assert(acc@ =~= before2 + q2);
    proof { lemma_concat_associative(start, s1, q2); }
    let ghost s2 = s1 + q2;
    assert(acc@ =~= start + s2);
    assert(acc@ =~= start + spans_non_null_type(*n));
}

/// Appends the spans of the tokens of `n` to `acc`.
#[verifier::spinoff_prover]
pub fn gather_directives(n: &Directives, acc: &mut Vec<Span>)
    ensures
        final(acc)@ == old(acc)@ + spans_directives(*n),
    decreases n, 0nat,
{
    let ghost start = acc@;
    let ghost d = *n;
    let ghost q1 = spans_list_shared_directive(d.directives.0@);
    gather_list_shared_directive(&n.directives.0, acc);
    assert(acc@ =~= start + q1);
    let ghost s1 = q1;
    assert(acc@ =~= start + spans_directives(*n));
}

/// Appends the spans of the tokens of `n` to `acc`.
#[verifier::spinoff_prover]
pub fn gather_directive(n: &Directive, acc: &mut Vec<Span>)
    ensures
        final(acc)@ == old(acc)@ + spans_directive(*n),
    decreases n, 0nat,
{
    let ghost start = acc@;
    let ghost d = *n;
    let ghost q1 = seq![d.at.0.span];
    acc.push(n.at.0.span);
    assert(acc@ =~= start + q1);
    let ghost s1 = q1;
    let ghost q2 = match d.name { Recoverable::Present(x) => seq![x.0.span], Recoverable::Missing(_) => Seq::empty() };
    let ghost before2 = acc@;
    if let Recoverable::Present(x) = &n.name {
        acc.push(x.0.span);
    }
    assert(acc@ =~= before2 + q2);
    proof { lemma_concat_associative(start, s1, q2); }
    let ghost s2 = s1 + q2;
    assert(acc@ =~= start + s2);
    let ghost q3 = match d.arguments { Some(x) => spans_arguments(node_of(x)), None => Seq::empty() };
    let ghost before3 = acc@;
    if let Some(x) = &n.arguments {
        gather_arguments(&(*x.0), acc);
    }
    assert(acc@ =~= before3 + q3);
    proof { lemma_concat_associative(start, s2, q3); }
    let ghost s3 = s2 + q3;
    assert(acc@ =~= start + s3);
    assert(acc@ =~= start + spans_directive(*n));
}

/// Appends the spans of the tokens of `n` to `acc`.
#[verifier::spinoff_prover]
pub fn gather_type_system_document(n: &TypeSystemDocument, acc: &mut Vec<Span>)
    ensures
        final(acc)@ == old(acc)@ + spans_type_system_document(*n),
    decreases n, 0nat,
{
    let ghost start = acc@;
    let ghost d = *n;
    let ghost q1 = spans_list_type_system_definition(d.definitions.0@);
    gather_list_type_system_definition(&n.definitions.0, acc);
    assert(acc@ =~= start + q1);
    let ghost s1 = q1;
    assert(acc@ =~= start + spans_type_system_document(*n));
}

/// Appends the spans of the tokens of `n` to `acc`.
#[verifier::spinoff_prover]
pub fn gather_type_system_definition(n: &TypeSystemDefinition, acc: &mut Vec<Span>)
    ensures
        final(acc)@ == old(acc)@ + spans_type_system_definition(*n),
    decreases n, 0nat,
{
    let ghost start = acc@;
    match n {
        TypeSystemDefinition::SchemaDefinition(x) => {
            gather_schema_definition(&(*x), acc);
        },
        TypeSystemDefinition::TypeDefinition(x) => {
            gather_type_definition(&(*(*x).0), acc);
        },
        TypeSystemDefinition::DirectiveDefinition(x) => {
            gather_directive_definition(&(*(*x).0), acc);
        },
        TypeSystemDefinition::Error(x) => {
            gather_description(&(*x), acc);
        },
    }
    assert(acc@ =~= start + spans_type_system_definition(*n));
}

/// Appends the spans of the tokens of `n` to `acc`.
#[verifier::spinoff_prover]
pub fn gather_type_system_extension_document(n: &TypeSystemExtensionDocument, acc: &mut Vec<Span>)
    ensures
        final(acc)@ == old(acc)@ + spans_type_system_extension_document(*n),
    decreases n, 0nat,
{
    let ghost start = acc@;
    let ghost d = *n;
    let ghost q1 = spans_list_type_system_definition_or_extension(d.definitions.0@);
    gather_list_type_system_definition_or_extension(&n.definitions.0, acc);
    assert(acc@ =~= start + q1);
    let ghost s1 = q1;
    assert(acc@ =~= start + spans_type_system_extension_document(*n));
}

/// Appends the spans of the tokens of `n` to `acc`.
#[verifier::spinoff_prover]
pub fn gather_type_system_definition_or_extension(n: &TypeSystemDefinitionOrExtension, acc: &mut Vec<Span>)
    ensures
        final(acc)@ == old(acc)@ + spans_type_system_definition_or_extension(*n),
    decreases n, 0nat,
{
    let ghost start = acc@;
    match n {
        TypeSystemDefinitionOrExtension::TypeSystemDefinition(x) => {
            gather_type_system_definition(&(*x), acc);
        },
        TypeSystemDefinitionOrExtension::TypeSystemExtension(x) => {
            gather_type_system_extension(&(*x), acc);
        },
    }
    assert(acc@ =~= start + spans_type_system_definition_or_extension(*n));
}

/// Appends the spans of the tokens of `n` to `acc`.
#[verifier::spinoff_prover]
pub fn gather_type_system_extension(n: &TypeSystemExtension, acc: &mut Vec<Span>)
    ensures
        final(acc)@ == old(acc)@ + spans_type_system_extension(*n),
    decreases n, 0nat,
{
    let ghost start = acc@;
    match n {
        TypeSystemExtension::SchemaExtension(x) => {
            gather_schema_extension(&(*x), acc);
        },
        TypeSystemExtension::TypeExtension(x) => {
            gather_type_extension(&(*(*x).0), acc);
        },
        TypeSystemExtension::Error(x) => {
            acc.push((*x).0.span);
        },
    }
    assert(acc@ =~= start + spans_type_system_extension(*n));
}

/// Appends the spans of the tokens of `n` to `acc`.
#[verifier::spinoff_prover]
pub fn gather_description(n: &Description, acc: &mut Vec<Span>)
    ensures
        final(acc)@ == old(acc)@ + spans_description(*n),
    decreases n, 0nat,
{
    let ghost start = acc@;
    acc.push(n.0.0.span);
    assert(acc@ =~= start + spans_description(*n));
}

/// Appends the spans of the tokens of `n` to `acc`.
#[verifier::spinoff_prover]
pub fn gather_schema_definition(n: &SchemaDefinition, acc: &mut Vec<Span>)
    ensures
        final(acc)@ == old(acc)@ + spans_schema_definition(*n),
    decreases n, 0nat,
{
    let ghost start = acc@;
    let ghost d = *n;
    let ghost q1 = match d.description { Some(x) => spans_description(x), None => Seq::empty() };
    if let Some(x) = &n.description {
        gather_description(&x, acc);
    }
    assert(acc@ =~= start + q1);
    let ghost s1 = q1;
    let ghost q2 = seq![d.schema.0.span];
    let ghost before2 = acc@;
    acc.push(n.schema.0.span);
    assert(acc@ =~= before2 + q2);
    proof { lemma_concat_associative(start, s1, q2); }
    let ghost s2 = s1 + q2;
    assert(acc@ =~= start + s2);
    let ghost q3 = match d.directives { Some(x) => spans_directives(x), None => Seq::empty() };
    let ghost before3 = acc@;
    if let Some(x) = &n.directives {
        gather_directives(&x, acc);
    }
    assert(acc@ =~= before3 + q3);
    proof { lemma_concat_associative(start, s2, q3); }
    let ghost s3 = s2 + q3;
    assert(acc@ =~= start + s3);
    let ghost q4 = match d.type_definitions { Recoverable::Present(x) => spans_root_operation_type_definitions(x), Recoverable::Missing(_) => Seq::empty() };
    let ghost before4 = acc@;
    if let Recoverable::Present(x) = &n.type_definitions {
        gather_root_operation_type_definitions(&x, acc);
    }
    assert(acc@ =~= before4 + q4);
    proof { lemma_concat_associative(start, s3, q4); }
    let ghost s4 = s3 + q4;
    assert(acc@ =~= start + s4);
    assert(acc@ =~= start + spans_schema_definition(*n));
}

/// Appends the spans of the tokens of `n` to `acc`.
#[verifier::spinoff_prover]
pub fn gather_root_operation_type_definitions(n: &RootOperationTypeDefinitions, acc: &mut Vec<Span>)
    ensures
        final(acc)@ == old(acc)@ + spans_root_operation_type_definitions(*n),
    decreases n, 0nat,
{
    let ghost start = acc@;
    let ghost d = *n;
    let ghost q1 = seq![d.braces.0.0.span] + match d.braces.1 { Recoverable::Present(x) => seq![x.0.span], Recoverable::Missing(_) => Seq::empty() };
    acc.push(n.braces.0.0.span);
    if let Recoverable::Present(x) = &n.braces.1 {
        acc.push(x.0.span);
    }
    assert(acc@ =~= start + q1);
    let ghost s1 = q1;
    let ghost q2 = match d.definitions { Recoverable::Present(x) => spans_list_root_operation_type_definition(x.0@), Recoverable::Missing(_) => Seq::empty() };
    let ghost before2 = acc@;
    if let Recoverable::Present(x) = &n.definitions {
        gather_list_root_operation_type_definition(&x.0, acc);
    }
    assert(acc@ =~= before2 + q2);
    proof { lemma_concat_associative(start, s1, q2); }
    let ghost s2 = s1 + q2;
    assert(acc@ =~= start + s2);
    assert(acc@ =~= start + spans_root_operation_type_definitions(*n));
}

/// Appends the spans of the tokens of `n` to `acc`.
#[verifier::spinoff_prover]
pub fn gather_root_operation_type_definition(n: &RootOperationTypeDefinition, acc: &mut Vec<Span>)
    ensures
        final(acc)@ == old(acc)@ + spans_root_operation_type_definition(*n),
    decreases n, 0nat,
{
    let ghost start = acc@;
    let ghost d = *n;
    let ghost q1 = spans_operation_type(d.operation_type);
    gather_operation_type(&n.operation_type, acc);
    assert(acc@ =~= start + q1);
    let ghost s1 = q1;
    let ghost q2 = match d.colon { Recoverable::Present(x) => seq![x.0.span], Recoverable::Missing(_) => Seq::empty() };
    let ghost before2 = acc@;
    if let Recoverable::Present(x) = &n.colon {
        acc.push(x.0.span);
    }
    assert(acc@ =~= before2 + q2);
    proof { lemma_concat_associative(start, s1, q2); }
    let ghost s2 = s1 + q2;
    assert(acc@ =~= start + s2);
    let ghost q3 = match d.named_type { Recoverable::Present(x) => spans_named_type(x), Recoverable::Missing(_) => Seq::empty() };
    let ghost before3 = acc@;
    if let Recoverable::Present(x) = &n.named_type {
        gather_named_type(&x, acc);
    }
    assert(acc@ =~= before3 + q3);
    proof { lemma_concat_associative(start, s2, q3); }
    let ghost s3 = s2 + q3;
    assert(acc@ =~= start + s3);
    assert(acc@ =~= start + spans_root_operation_type_definition(*n));
}

/// Appends the spans of the tokens of `n` to `acc`.
#[verifier::spinoff_prover]
pub fn gather_schema_extension(n: &SchemaExtension, acc: &mut Vec<Span>)
    ensures
        final(acc)@ == old(acc)@ + spans_schema_extension(*n),
    decreases n, 0nat,
{
    let ghost start = acc@;
    let ghost d = *n;
    let ghost q1 = seq![d.extend_schema.0.0.span] + seq![d.extend_schema.1.0.span];
    acc.push(n.extend_schema.0.0.span);
    acc.push(n.extend_schema.1.0.span);
    assert(acc@ =~= start + q1);
    let ghost s1 = q1;
    let ghost q2 = match d.directives { Some(x) => spans_directives(x), None => Seq::empty() };
    let ghost before2 = acc@;
    if let Some(x) = &n.directives {
        gather_directives(&x, acc);
    }
    assert(acc@ =~= before2 + q2);
    proof { lemma_concat_associative(start, s1, q2); }
    let ghost s2 = s1 + q2;
    assert(acc@ =~= start + s2);
    let ghost q3 = match d.type_definitions { Some(x) => spans_root_operation_type_definitions(x), None => Seq::empty() };
    let ghost before3 = acc@;
    if let Some(x) = &n.type_definitions {
        gather_root_operation_type_definitions(&x, acc);
    }
    assert(acc@ =~= before3 + q3);
    proof { lemma_concat_associative(start, s2, q3); }
    let ghost s3 = s2 + q3;
    assert(acc@ =~= start + s3);
    assert(acc@ =~= start + spans_schema_extension(*n));
}

/// Appends the spans of the tokens of `n` to `acc`.
#[verifier::spinoff_prover]
pub fn gather_type_definition(n: &TypeDefinition, acc: &mut Vec<Span>)
    ensures
        final(acc)@ == old(acc)@ + spans_type_definition(*n),
    decreases n, 0nat,
{
    let ghost start = acc@;
    match n {
        TypeDefinition::ScalarTypeDefinition(x) => {
            gather_scalar_type_definition(&(*x), acc);
        },
        TypeDefinition::ObjectTypeDefinition(x) => {
            gather_object_type_definition(&(*x), acc);
        },
        TypeDefinition::InterfaceTypeDefinition(x) => {
            gather_interface_type_definition(&(*x), acc);
        },
        TypeDefinition::UnionTypeDefinition(x) => {
            gather_union_type_definition(&(*x), acc);
        },
        TypeDefinition::EnumTypeDefinition(x) => {
            gather_enum_type_definition(&(*x), acc);
        },
        TypeDefinition::InputObjectTypeDefinition(x) => {
            gather_input_object_type_definition(&(*x), acc);
        },
    }
    assert(acc@ =~= start + spans_type_definition(*n));
}

/// Appends the spans of the tokens of `n` to `acc`.
#[verifier::spinoff_prover]
pub fn gather_type_extension(n: &TypeExtension, acc: &mut Vec<Span>)
    ensures
        final(acc)@ == old(acc)@ + spans_type_extension(*n),
    decreases n, 0nat,
{
    let ghost start = acc@;
    match n {
        TypeExtension::ScalarTypeExtension(x) => {
            gather_scalar_type_extension(&(*x), acc);
        },
        TypeExtension::ObjectTypeExtension(x) => {
            gather_object_type_extension(&(*x), acc);
        },
        TypeExtension::InterfaceTypeExtension(x) => {
            gather_interface_type_extension(&(*x), acc);
        },
        TypeExtension::UnionTypeExtension(x) => {
            gather_union_type_extension(&(*x), acc);
        },
        TypeExtension::EnumTypeExtension(x) => {
            gather_enum_type_extension(&(*x), acc);
        },
        TypeExtension::InputObjectTypeExtension(x) => {
            gather_input_object_type_extension(&(*x), acc);
        },
    }
    assert(acc@ =~= start + spans_type_extension(*n));
}

/// Appends the spans of the tokens of `n` to `acc`.
#[verifier::spinoff_prover]
pub fn gather_scalar_type_definition(n: &ScalarTypeDefinition, acc: &mut Vec<Span>)
    ensures
        final(acc)@ == old(acc)@ + spans_scalar_type_definition(*n),
    decreases n, 0nat,
{
    let ghost start = acc@;
    let ghost d = *n;
    let ghost q1 = seq![d.scalar.0.span];
    acc.push(n.scalar.0.span);
    assert(acc@ =~= start + q1);
    let ghost s1 = q1;
    let ghost q2 = match d.name { Recoverable::Present(x) => seq![x.0.span], Recoverable::Missing(_) => Seq::empty() };
    let ghost before2 = acc@;
    if let Recoverable::Present(x) = &n.name {
        acc.push(x.0.span);
    }
    assert(acc@ =~= before2 + q2);
    proof { lemma_concat_associative(start, s1, q2); }
    let ghost s2 = s1 + q2;
    assert(acc@ =~= start + s2);
    let ghost q3 = match d.directives { Some(x) => spans_directives(x), None => Seq::empty() };
    let ghost before3 = acc@;
    if let Some(x) = &n.directives {
        gather_directives(&x, acc);
    }
    assert(acc@ =~= before3 + q3);
    proof { lemma_concat_associative(start, s2, q3); }
    let ghost s3 = s2 + q3;
    assert(acc@ =~= start + s3);
    assert(acc@ =~= start + spans_scalar_type_definition(*n));
}

/// Appends the spans of the tokens of `n` to `acc`.
#[verifier::spinoff_prover]
pub fn gather_scalar_type_extension(n: &ScalarTypeExtension, acc: &mut Vec<Span>)
    ensures
        final(acc)@ == old(acc)@ + spans_scalar_type_extension(*n),
    decreases n, 0nat,
{
    let ghost start = acc@;
    let ghost d = *n;
    let ghost q1 = seq![d.extend_scalar.0.0.span] + seq![d.extend_scalar.1.0.span];
    acc.push(n.extend_scalar.0.0.span);
    acc.push(n.extend_scalar.1.0.span);
    assert(acc@ =~= start + q1);
    let ghost s1 = q1;
    let ghost q2 = match d.name { Recoverable::Present(x) => spans_named_type(x), Recoverable::Missing(_) => Seq::empty() };
    let ghost before2 = acc@;
    if let Recoverable::Present(x) = &n.name {
        gather_named_type(&x, acc);
    }
    assert(acc@ =~= before2 + q2);
    proof { lemma_concat_associative(start, s1, q2); }
    let ghost s2 = s1 + q2;
    assert(acc@ =~= start + s2);
    let ghost q3 = match d.directives { Recoverable::Present(x) => spans_directives(x), Recoverable::Missing(_) => Seq::empty() };
    let ghost before3 = acc@;
    if let Recoverable::Present(x) = &n.directives {
        gather_directives(&x, acc);
    }
    assert(acc@ =~= before3 + q3);
    proof { lemma_concat_associative(start, s2, q3); }
    let ghost s3 = s2 + q3;
    assert(acc@ =~= start + s3);
    assert(acc@ =~= start + spans_scalar_type_extension(*n));
}

/// Appends the spans of the tokens of `n` to `acc`.
#[verifier::spinoff_prover]
pub fn gather_object_type_definition(n: &ObjectTypeDefinition, acc: &mut Vec<Span>)
    ensures
        final(acc)@ == old(acc)@ + spans_object_type_definition(*n),
    decreases n, 0nat,
{
    let ghost start = acc@;
    let ghost d = *n;
    let ghost q1 = match d.description { Some(x) => spans_description(x), None => Seq::empty() };
    if let Some(x) = &n.description {
        gather_description(&x, acc);
    }
    assert(acc@ =~= start + q1);
    let ghost s1 = q1;
    let ghost q2 = seq![d.ty.0.span];
    let ghost before2 = acc@;
    acc.push(n.ty.0.span);
    assert(acc@ =~= before2 + q2);
    proof { lemma_concat_associative(start, s1, q2); }
    let ghost s2 = s1 + q2;
    assert(acc@ =~= start + s2);
    let ghost q3 = match d.name { Recoverable::Present(x) => seq![x.0.span], Recoverable::Missing(_) => Seq::empty() };
    let ghost before3 = acc@;
    if let Recoverable::Present(x) = &n.name {
        acc.push(x.0.span);
    }
    assert(acc@ =~= before3 + q3);
    proof { lemma_concat_associative(start, s2, q3); }
    let ghost s3 = s2 + q3;
    assert(acc@ =~= start + s3);
    let ghost q4 = match d.implements_interfaces { Some(x) => spans_implements_interfaces(x), None => Seq::empty() };
    let ghost before4 = acc@;
    if let Some(x) = &n.implements_interfaces {
        gather_implements_interfaces(&x, acc);
    }
    assert(acc@ =~= before4 + q4);
    proof { lemma_concat_associative(start, s3, q4); }
    let ghost s4 = s3 + q4;
    assert(acc@ =~= start + s4);
    let ghost q5 = match d.directives { Some(x) => spans_directives(x), None => Seq::empty() };
    let ghost before5 = acc@;
    if let Some(x) = &n.directives {
        gather_directives(&x, acc);
    }
    assert(acc@ =~= before5 + q5);
    proof { lemma_concat_associative(start, s4, q5); }
    let ghost s5 = s4 + q5;
    assert(acc@ =~= start + s5);
    let ghost q6 = match d.fields_definition { Some(x) => spans_fields_definition(x), None => Seq::empty() };
    let ghost before6 = acc@;
    if let Some(x) = &n.fields_definition {
        gather_fields_definition(&x, acc);
    }
    assert(acc@ =~= before6 + q6);
    proof { lemma_concat_associative(start, s5, q6); }
    let ghost s6 = s5 + q6;
    assert(acc@ =~= start + s6);
    assert(acc@ =~= start + spans_object_type_definition(*n));
}

/// Appends the spans of the tokens of `n` to `acc`.
#[verifier::spinoff_prover]
pub fn gather_implements_interfaces(n: &ImplementsInterfaces, acc: &mut Vec<Span>)
    ensures
        final(acc)@ == old(acc)@ + spans_implements_interfaces(*n),
    decreases n, 0nat,
{
    let ghost start = acc@;
    let ghost d = *n;
    let ghost q1 = seq![d.implements.0.span];
    acc.push(n.implements.0.span);
    assert(acc@ =~= start + q1);
    let ghost s1 = q1;
    let ghost q2 = match d.ampersand { Some(x) => seq![x.0.span], None => Seq::empty() };
    let ghost before2 = acc@;
    if let Some(x) = &n.ampersand {
        acc.push(x.0.span);
    }
    assert(acc@ =~= before2 + q2);
    proof { lemma_concat_associative(start, s1, q2); }
    let ghost s2 = s1 + q2;
    assert(acc@ =~= start + s2);
    let ghost q3 = match d.first { Recoverable::Present(x) => spans_named_type(node_of(x)), Recoverable::Missing(_) => Seq::empty() };
    let ghost before3 = acc@;
    if let Recoverable::Present(x) = &n.first {
        gather_named_type(&(*x.0), acc);
    }
    assert(acc@ =~= before3 + q3);
    proof { lemma_concat_associative(start, s2, q3); }
    let ghost s3 = s2 + q3;
    assert(acc@ =~= start + s3);
    let ghost q4 = spans_list_punctuator_recoverable_shared_named_type(d.types.0@);
    let ghost before4 = acc@;
    gather_list_punctuator_recoverable_shared_named_type(&n.types.0, acc);
    assert(acc@ =~= before4 + q4);
    proof { lemma_concat_associative(start, s3, q4); }
    let ghost s4 = s3 + q4;
    assert(acc@ =~= start + s4);
    assert(acc@ =~= start + spans_implements_interfaces(*n));
}

/// Appends the spans of the tokens of `n` to `acc`.
#[verifier::spinoff_prover]
pub fn gather_fields_definition(n: &FieldsDefinition, acc: &mut Vec<Span>)
    ensures
        final(acc)@ == old(acc)@ + spans_fields_definition(*n),
    decreases n, 0nat,
{
    let ghost start = acc@;
    let ghost d = *n;
    let ghost q1 = seq![d.braces.0.0.span] + match d.braces.1 { Recoverable::Present(x) => seq![x.0.span], Recoverable::Missing(_) => Seq::empty() };
    acc.push(n.braces.0.0.span);
    if let Recoverable::Present(x) = &n.braces.1 {
        acc.push(x.0.span);
    }
    assert(acc@ =~= start + q1);
    let ghost s1 = q1;
    let ghost q2 = spans_list_shared_field_definition(d.definitions.0@);
    let ghost before2 = acc@;
    gather_list_shared_field_definition(&n.definitions.0, acc);
    assert(acc@ =~= before2 + q2);
    proof { lemma_concat_associative(start, s1, q2); }
    let ghost s2 = s1 + q2;
    assert(acc@ =~= start + s2);
    assert(acc@ =~= start + spans_fields_definition(*n));
}

/// Appends the spans of the tokens of `n` to `acc`.
#[verifier::spinoff_prover]
pub fn gather_field_definition(n: &FieldDefinition, acc: &mut Vec<Span>)
    ensures
        final(acc)@ == old(acc)@ + spans_field_definition(*n),
    decreases n, 0nat,
{
    let ghost start = acc@;
    let ghost d = *n;
    let ghost q1 = match d.description { Some(x) => spans_description(x), None => Seq::empty() };
    if let Some(x) = &n.description {
        gather_description(&x, acc);
    }
    assert(acc@ =~= start + q1);
    let ghost s1 = q1;
    let ghost q2 = seq![d.name.0.span];
    let ghost before2 = acc@;
    acc.push(n.name.0.span);
    assert(acc@ =~= before2 + q2);
    proof { lemma_concat_associative(start, s1, q2); }
    let ghost s2 = s1 + q2;
    assert(acc@ =~= start + s2);
    let ghost q3 = match d.arguments_definition { Some(x) => spans_arguments_definition(node_of(x)), None => Seq::empty() };
    let ghost before3 = acc@;
    if let Some(x) = &n.arguments_definition {
        gather_arguments_definition(&(*x.0), acc);
    }
    assert(acc@ =~= before3 + q3);
    proof { lemma_concat_associative(start, s2, q3); }
    let ghost s3 = s2 + q3;
    assert(acc@ =~= start + s3);
    let ghost q4 = match d.colon { Recoverable::Present(x) => seq![x.0.span], Recoverable::Missing(_) => Seq::empty() };
    let ghost before4 = acc@;
    if let Recoverable::Present(x) = &n.colon {
        acc.push(x.0.span);
    }
    assert(acc@ =~= before4 + q4);
    proof { lemma_concat_associative(start, s3, q4); }
    let ghost s4 = s3 + q4;
    assert(acc@ =~= start + s4);
    let ghost q5 = match d.ty { Recoverable::Present(x) => spans_type(node_of(x)), Recoverable::Missing(_) => Seq::empty() };
    let ghost before5 = acc@;
    if let Recoverable::Present(x) = &n.ty {
        gather_type(&(*x.0), acc);
    }
    assert(acc@ =~= before5 + q5);
    proof { lemma_concat_associative(start, s4, q5); }
    let ghost s5 = s4 + q5;
    assert(acc@ =~= start + s5);
    let ghost q6 = match d.directives { Some(x) => spans_directives(x), None => Seq::empty() };
    let ghost before6 = acc@;
    if let Some(x) = &n.directives {
        gather_directives(&x, acc);
    }
    assert(acc@ =~= before6 + q6);
    proof { lemma_concat_associative(start, s5, q6); }
    let ghost s6 = s5 + q6;
    assert(acc@ =~= start + s6);
    assert(acc@ =~= start + spans_field_definition(*n));
}

/// Appends the spans of the tokens of `n` to `acc`.
#[verifier::spinoff_prover]
pub fn gather_arguments_definition(n: &ArgumentsDefinition, acc: &mut Vec<Span>)
    ensures
        final(acc)@ == old(acc)@ + spans_arguments_definition(*n),
    decreases n, 0nat,
{
    let ghost start = acc@;
    let ghost d = *n;
    let ghost q1 = seq![d.parens.0.0.span] + match d.parens.1 { Recoverable::Present(x) => seq![x.0.span], Recoverable::Missing(_) => Seq::empty() };
    acc.push(n.parens.0.0.span);
    if let Recoverable::Present(x) = &n.parens.1 {
        acc.push(x.0.span);
    }
    assert(acc@ =~= start + q1);
    let ghost s1 = q1;
    let ghost q2 = spans_list_shared_input_value_definition(d.definitions.0@);
    let ghost before2 = acc@;
    gather_list_shared_input_value_definition(&n.definitions.0, acc);
    assert(acc@ =~= before2 + q2);
    proof { lemma_concat_associative(start, s1, q2); }
    let ghost s2 = s1 + q2;
    assert(acc@ =~= start + s2);
    assert(acc@ =~= start + spans_arguments_definition(*n));
}

/// Appends the spans of the tokens of `n` to `acc`.
#[verifier::spinoff_prover]
pub fn gather_input_value_definition(n: &InputValueDefinition, acc: &mut Vec<Span>)
    ensures
        final(acc)@ == old(acc)@ + spans_input_value_definition(*n),
    decreases n, 0nat,
{
    let ghost start = acc@;
    let ghost d = *n;
    let ghost q1 = match d.description { Some(x) => spans_description(x), None => Seq::empty() };
    if let Some(x) = &n.description {
        gather_description(&x, acc);
    }
    assert(acc@ =~= start + q1);
    let ghost s1 = q1;
    let ghost q2 = seq![d.name.0.span];
    let ghost before2 = acc@;
    acc.push(n.name.0.span);
    assert(acc@ =~= before2 + q2);
    proof { lemma_concat_associative(start, s1, q2); }
    let ghost s2 = s1 + q2;
    assert(acc@ =~= start + s2);
    let ghost q3 = match d.colon { Recoverable::Present(x) => seq![x.0.span], Recoverable::Missing(_) => Seq::empty() };
    let ghost before3 = acc@;
    if let Recoverable::Present(x) = &n.colon {
        acc.push(x.0.span);
    }
    assert(acc@ =~= before3 + q3);
    proof { lemma_concat_associative(start, s2, q3); }
    let ghost s3 = s2 + q3;
    assert(acc@ =~= start + s3);
    let ghost q4 = match d.ty { Recoverable::Present(x) => spans_type(node_of(x)), Recoverable::Missing(_) => Seq::empty() };
    let ghost before4 = acc@;
    if let Recoverable::Present(x) = &n.ty {
        gather_type(&(*x.0), acc);
    }
    assert(acc@ =~= before4 + q4);
    proof { lemma_concat_associative(start, s3, q4); }
    let ghost s4 = s3 + q4;
    assert(acc@ =~= start + s4);
    let ghost q5 = match d.default_value { Some(x) => spans_default_value(x), None => Seq::empty() };
    let ghost before5 = acc@;
    if let Some(x) = &n.default_value {
        gather_default_value(&x, acc);
    }
    assert(acc@ =~= before5 + q5);
    proof { lemma_concat_associative(start, s4, q5); }
    let ghost s5 = s4 + q5;
    assert(acc@ =~= start + s5);
    let ghost q6 = match d.directives { Some(x) => spans_directives(x), None => Seq::empty() };
    let ghost before6 = acc@;
    if let Some(x) = &n.directives {
        gather_directives(&x, acc);
    }
    assert(acc@ =~= before6 + q6);
    proof { lemma_concat_associative(start, s5, q6); }
    let ghost s6 = s5 + q6;
    assert(acc@ =~= start + s6);
    assert(acc@ =~= start + spans_input_value_definition(*n));
}

/// Appends the spans of the tokens of `n` to `acc`.
#[verifier::spinoff_prover]
pub fn gather_object_type_extension(n: &ObjectTypeExtension, acc: &mut Vec<Span>)
    ensures
        final(acc)@ == old(acc)@ + spans_object_type_extension(*n),
    decreases n, 0nat,
{
    let ghost start = acc@;
    let ghost d = *n;
    let ghost q1 = seq![d.extend_type.0.0.span] + seq![d.extend_type.1.0.span];
    acc.push(n.extend_type.0.0.span);
    acc.push(n.extend_type.1.0.span);
    assert(acc@ =~= start + q1);
    let ghost s1 = q1;
    let ghost q2 = match d.name { Recoverable::Present(x) => spans_named_type(x), Recoverable::Missing(_) => Seq::empty() };
    let ghost before2 = acc@;
    if let Recoverable::Present(x) = &n.name {
        gather_named_type(&x, acc);
    }
    assert(acc@ =~= before2 + q2);
    proof { lemma_concat_associative(start, s1, q2); }
    let ghost s2 = s1 + q2;
    assert(acc@ =~= start + s2);
    let ghost q3 = match d.implements_interfaces { Some(x) => spans_implements_interfaces(x), None => Seq::empty() };
    let ghost before3 = acc@;
    if let Some(x) = &n.implements_interfaces {
        gather_implements_interfaces(&x, acc);
    }
    assert(acc@ =~= before3 + q3);
    proof { lemma_concat_associative(start, s2, q3); }
    let ghost s3 = s2 + q3;
    assert(acc@ =~= start + s3);
    let ghost q4 = match d.directives { Some(x) => spans_directives(x), None => Seq::empty() };
    let ghost before4 = acc@;
    if let Some(x) = &n.directives {
        gather_directives(&x, acc);
    }
    assert(acc@ =~= before4 + q4);
    proof { lemma_concat_associative(start, s3, q4); }
    let ghost s4 = s3 + q4;
    assert(acc@ =~= start + s4);
    let ghost q5 = match d.fields_definition { Some(x) => spans_fields_definition(x), None => Seq::empty() };
    let ghost before5 = acc@;
    if let Some(x) = &n.fields_definition {
        gather_fields_definition(&x, acc);
    }
    assert(acc@ =~= before5 + q5);
    proof { lemma_concat_associative(start, s4, q5); }
    let ghost s5 = s4 + q5;
    assert(acc@ =~= start + s5);
    assert(acc@ =~= start + spans_object_type_extension(*n));
}

/// Appends the spans of the tokens of `n` to `acc`.
#[verifier::spinoff_prover]
pub fn gather_interface_type_definition(n: &InterfaceTypeDefinition, acc: &mut Vec<Span>)
    ensures
        final(acc)@ == old(acc)@ + spans_interface_type_definition(*n),
    decreases n, 0nat,
{
    let ghost start = acc@;
    let ghost d = *n;
    let ghost q1 = match d.description { Some(x) => spans_description(x), None => Seq::empty() };
    if let Some(x) = &n.description {
        gather_description(&x, acc);
    }
    assert(acc@ =~= start + q1);
    let ghost s1 = q1;
    let ghost q2 = seq![d.interface.0.span];
    let ghost before2 = acc@;
    acc.push(n.interface.0.span);
    assert(acc@ =~= before2 + q2);
    proof { lemma_concat_associative(start, s1, q2); }
    let ghost s2 = s1 + q2;
    assert(acc@ =~= start + s2);
    let ghost q3 = match d.name { Recoverable::Present(x) => seq![x.0.span], Recoverable::Missing(_) => Seq::empty() };
    let ghost before3 = acc@;
    if let Recoverable::Present(x) = &n.name {
        acc.push(x.0.span);
    }
    assert(acc@ =~= before3 + q3);
    proof { lemma_concat_associative(start, s2, q3); }
    let ghost s3 = s2 + q3;
    assert(acc@ =~= start + s3);
    let ghost q4 = match d.implements_interfaces { Some(x) => spans_implements_interfaces(x), None => Seq::empty() };
    let ghost before4 = acc@;
    if let Some(x) = &n.implements_interfaces {
        gather_implements_interfaces(&x, acc);
    }
    assert(acc@ =~= before4 + q4);
    proof { lemma_concat_associative(start, s3, q4); }
    let ghost s4 = s3 + q4;
    assert(acc@ =~= start + s4);
    let ghost q5 = match d.directives { Some(x) => spans_directives(x), None => Seq::empty() };
    let ghost before5 = acc@;
    if let Some(x) = &n.directives {
        gather_directives(&x, acc);
    }
    assert(acc@ =~= before5 + q5);
    proof { lemma_concat_associative(start, s4, q5); }
    let ghost s5 = s4 + q5;
    assert(acc@ =~= start + s5);
    let ghost q6 = match d.fields_definition { Some(x) => spans_fields_definition(x), None => Seq::empty() };
    let ghost before6 = acc@;
    if let Some(x) = &n.fields_definition {
        gather_fields_definition(&x, acc);
    }
    assert(acc@ =~= before6 + q6);
    proof { lemma_concat_associative(start, s5, q6); }
    let ghost s6 = s5 + q6;
    assert(acc@ =~= start + s6);
    assert(acc@ =~= start + spans_interface_type_definition(*n));
}

/// Appends the spans of the tokens of `n` to `acc`.
#[verifier::spinoff_prover]
pub fn gather_interface_type_extension(n: &InterfaceTypeExtension, acc: &mut Vec<Span>)
    ensures
        final(acc)@ == old(acc)@ + spans_interface_type_extension(*n),
    decreases n, 0nat,
{
    let ghost start = acc@;
    let ghost d = *n;
    let ghost q1 = seq![d.extend_interface.0.0.span] + seq![d.extend_interface.1.0.span];
    acc.push(n.extend_interface.0.0.span);
    acc.push(n.extend_interface.1.0.span);
    assert(acc@ =~= start + q1);
    let ghost s1 = q1;
    let ghost q2 = match d.name { Recoverable::Present(x) => spans_named_type(x), Recoverable::Missing(_) => Seq::empty() };
    let ghost before2 = acc@;
    if let Recoverable::Present(x) = &n.name {
        gather_named_type(&x, acc);
    }
    assert(acc@ =~= before2 + q2);
    proof { lemma_concat_associative(start, s1, q2); }
    let ghost s2 = s1 + q2;
    assert(acc@ =~= start + s2);
    let ghost q3 = match d.implements_interfaces { Some(x) => spans_implements_interfaces(x), None => Seq::empty() };
    let ghost before3 = acc@;
    if let Some(x) = &n.implements_interfaces {
        gather_implements_interfaces(&x, acc);
    }
    assert(acc@ =~= before3 + q3);
    proof { lemma_concat_associative(start, s2, q3); }
    let ghost s3 = s2 + q3;
    assert(acc@ =~= start + s3);
    let ghost q4 = match d.directives { Some(x) => spans_directives(x), None => Seq::empty() };
    let ghost before4 = acc@;
    if let Some(x) = &n.directives {
        gather_directives(&x, acc);
    }
    assert(acc@ =~= before4 + q4);
    proof { lemma_concat_associative(start, s3, q4); }
    let ghost s4 = s3 + q4;
    assert(acc@ =~= start + s4);
    let ghost q5 = match d.fields_definition { Some(x) => spans_fields_definition(x), None => Seq::empty() };
    let ghost before5 = acc@;
    if let Some(x) = &n.fields_definition {
        gather_fields_definition(&x, acc);
    }
    assert(acc@ =~= before5 + q5);
    proof { lemma_concat_associative(start, s4, q5); }
    let ghost s5 = s4 + q5;
    assert(acc@ =~= start + s5);
    assert(acc@ =~= start + spans_interface_type_extension(*n));
}

/// Appends the spans of the tokens of `n` to `acc`.
#[verifier::spinoff_prover]
pub fn gather_union_type_definition(n: &UnionTypeDefinition, acc: &mut Vec<Span>)
    ensures
        final(acc)@ == old(acc)@ + spans_union_type_definition(*n),
    decreases n, 0nat,
{
    let ghost start = acc@;
    let ghost d = *n;
    let ghost q1 = match d.description { Some(x) => spans_description(x), None => Seq::empty() };
    if let Some(x) = &n.description {
        gather_description(&x, acc);
    }
    assert(acc@ =~= start + q1);
    let ghost s1 = q1;
    let ghost q2 = seq![d.union_kw.0.span];
    let ghost before2 = acc@;
    acc.push(n.union_kw.0.span);
    assert(acc@ =~= before2 + q2);
    proof { lemma_concat_associative(start, s1, q2); }
    let ghost s2 = s1 + q2;
    assert(acc@ =~= start + s2);
    let ghost q3 = match d.name { Recoverable::Present(x) => seq![x.0.span], Recoverable::Missing(_) => Seq::empty() };
    let ghost before3 = acc@;
    if let Recoverable::Present(x) = &n.name {
        acc.push(x.0.span);
    }
    assert(acc@ =~= before3 + q3);
    proof { lemma_concat_associative(start, s2, q3); }
    let ghost s3 = s2 + q3;
    assert(acc@ =~= start + s3);
    let ghost q4 = match d.directives { Some(x) => spans_directives(x), None => Seq::empty() };
    let ghost before4 = acc@;
    if let Some(x) = &n.directives {
        gather_directives(&x, acc);
    }
    assert(acc@ =~= before4 + q4);
    proof { lemma_concat_associative(start, s3, q4); }
    let ghost s4 = s3 + q4;
    assert(acc@ =~= start + s4);
    let ghost q5 = match d.member_types { Some(x) => spans_union_member_types(x), None => Seq::empty() };
    let ghost before5 = acc@;
    if let Some(x) = &n.member_types {
        gather_union_member_types(&x, acc);
    }
    assert(acc@ =~= before5 + q5);
    proof { lemma_concat_associative(start, s4, q5); }
    let ghost s5 = s4 + q5;
    assert(acc@ =~= start + s5);
    assert(acc@ =~= start + spans_union_type_definition(*n));
}

/// Appends the spans of the tokens of `n` to `acc`.
#[verifier::spinoff_prover]
pub fn gather_union_member_types(n: &UnionMemberTypes, acc: &mut Vec<Span>)
    ensures
        final(acc)@ == old(acc)@ + spans_union_member_types(*n),
    decreases n, 0nat,
{
    let ghost start = acc@;
    let ghost d = *n;
    let ghost q1 = seq![d.eq.0.span];
    acc.push(n.eq.0.span);
    assert(acc@ =~= start + q1);
    let ghost s1 = q1;
    let ghost q2 = match d.pipe { Some(x) => seq![x.0.span], None => Seq::empty() };
    let ghost before2 = acc@;
    if let Some(x) = &n.pipe {
        acc.push(x.0.span);
    }
    assert(acc@ =~= before2 + q2);
    proof { lemma_concat_associative(start, s1, q2); }
    let ghost s2 = s1 + q2;
    assert(acc@ =~= start + s2);
    let ghost q3 = match d.first { Recoverable::Present(x) => spans_named_type(node_of(x)), Recoverable::Missing(_) => Seq::empty() };
    let ghost before3 = acc@;
    if let Recoverable::Present(x) = &n.first {
        gather_named_type(&(*x.0), acc);
    }
    assert(acc@ =~= before3 + q3);
    proof { lemma_concat_associative(start, s2, q3); }
    let ghost s3 = s2 + q3;
    assert(acc@ =~= start + s3);
    let ghost q4 = spans_list_punctuator_recoverable_shared_named_type(d.types.0@);
    let ghost before4 = acc@;
    gather_list_punctuator_recoverable_shared_named_type(&n.types.0, acc);
    assert(acc@ =~= before4 + q4);
    proof { lemma_concat_associative(start, s3, q4); }
    let ghost s4 = s3 + q4;
    assert(acc@ =~= start + s4);
    assert(acc@ =~= start + spans_union_member_types(*n));
}

/// Appends the spans of the tokens of `n` to `acc`.
#[verifier::spinoff_prover]
pub fn gather_union_type_extension(n: &UnionTypeExtension, acc: &mut Vec<Span>)
    ensures
        final(acc)@ == old(acc)@ + spans_union_type_extension(*n),
    decreases n, 0nat,
{
    let ghost start = acc@;
    let ghost d = *n;
    let ghost q1 = seq![d.extend_union.0.0.span] + seq![d.extend_union.1.0.span];
    acc.push(n.extend_union.0.0.span);
    acc.push(n.extend_union.1.0.span);
    assert(acc@ =~= start + q1);
    let ghost s1 = q1;
    let ghost q2 = match d.name { Recoverable::Present(x) => spans_named_type(x), Recoverable::Missing(_) => Seq::empty() };
    let ghost before2 = acc@;
    if let Recoverable::Present(x) = &n.name {
        gather_named_type(&x, acc);
    }
    assert(acc@ =~= before2 + q2);
    proof { lemma_concat_associative(start, s1, q2); }
    let ghost s2 = s1 + q2;
    assert(acc@ =~= start + s2);
    let ghost q3 = match d.directives { Some(x) => spans_directives(x), None => Seq::empty() };
    let ghost before3 = acc@;
    if let Some(x) = &n.directives {
        gather_directives(&x, acc);
    }
    assert(acc@ =~= before3 + q3);
    proof { lemma_concat_associative(start, s2, q3); }
    let ghost s3 = s2 + q3;
    assert(acc@ =~= start + s3);
    let ghost q4 = match d.member_types { Some(x) => spans_union_member_types(x), None => Seq::empty() };
    let ghost before4 = acc@;
    if let Some(x) = &n.member_types {
        gather_union_member_types(&x, acc);
    }
    assert(acc@ =~= before4 + q4);
    proof { lemma_concat_associative(start, s3, q4); }
    let ghost s4 = s3 + q4;
    assert(acc@ =~= start + s4);
    assert(acc@ =~= start + spans_union_type_extension(*n));
}

/// Appends the spans of the tokens of `n` to `acc`.
#[verifier::spinoff_prover]
pub fn gather_enum_type_definition(n: &EnumTypeDefinition, acc: &mut Vec<Span>)
    ensures
        final(acc)@ == old(acc)@ + spans_enum_type_definition(*n),
    decreases n, 0nat,
{
    let ghost start = acc@;
    let ghost d = *n;
    let ghost q1 = match d.description { Some(x) => spans_description(x), None => Seq::empty() };
    if let Some(x) = &n.description {
        gather_description(&x, acc);
    }
    assert(acc@ =~= start + q1);
    let ghost s1 = q1;
    let ghost q2 = seq![d.enum_kw.0.span];
    let ghost before2 = acc@;
    acc.push(n.enum_kw.0.span);
    assert(acc@ =~= before2 + q2);
    proof { lemma_concat_associative(start, s1, q2); }
    let ghost s2 = s1 + q2;
    assert(acc@ =~= start + s2);
    let ghost q3 = match d.name { Recoverable::Present(x) => seq![x.0.span], Recoverable::Missing(_) => Seq::empty() };
    let ghost before3 = acc@;
    if let Recoverable::Present(x) = &n.name {
        acc.push(x.0.span);
    }
    assert(acc@ =~= before3 + q3);
    proof { lemma_concat_associative(start, s2, q3); }
    let ghost s3 = s2 + q3;
    assert(acc@ =~= start + s3);
    let ghost q4 = match d.directives { Some(x) => spans_directives(x), None => Seq::empty() };
    let ghost before4 = acc@;
    if let Some(x) = &n.directives {
        gather_directives(&x, acc);
    }
    assert(acc@ =~= before4 + q4);
    proof { lemma_concat_associative(start, s3, q4); }
    let ghost s4 = s3 + q4;
    assert(acc@ =~= start + s4);
    let ghost q5 = match d.values_definition { Some(x) => spans_enum_values_definition(x), None => Seq::empty() };
    let ghost before5 = acc@;
    if let Some(x) = &n.values_definition {
        gather_enum_values_definition(&x, acc);
    }
    assert(acc@ =~= before5 + q5);
    proof { lemma_concat_associative(start, s4, q5); }
    let ghost s5 = s4 + q5;
    assert(acc@ =~= start + s5);
    assert(acc@ =~= start + spans_enum_type_definition(*n));
}

/// Appends the spans of the tokens of `n` to `acc`.
#[verifier::spinoff_prover]
pub fn gather_enum_values_definition(n: &EnumValuesDefinition, acc: &mut Vec<Span>)
    ensures
        final(acc)@ == old(acc)@ + spans_enum_values_definition(*n),
    decreases n, 0nat,
{
    let ghost start = acc@;
    let ghost d = *n;
    let ghost q1 = seq![d.braces.0.0.span] + match d.braces.1 { Recoverable::Present(x) => seq![x.0.span], Recoverable::Missing(_) => Seq::empty() };
    acc.push(n.braces.0.0.span);
    if let Recoverable::Present(x) = &n.braces.1 {
        acc.push(x.0.span);
    }
    assert(acc@ =~= start + q1);
    let ghost s1 = q1;
    let ghost q2 = spans_list_shared_enum_value_definition(d.definitions.0@);
    let ghost before2 = acc@;
    gather_list_shared_enum_value_definition(&n.definitions.0, acc);
    assert(acc@ =~= before2 + q2);
    proof { lemma_concat_associative(start, s1, q2); }
    let ghost s2 = s1 + q2;
    assert(acc@ =~= start + s2);
    assert(acc@ =~= start + spans_enum_values_definition(*n));
}

/// Appends the spans of the tokens of `n` to `acc`.
#[verifier::spinoff_prover]
pub fn gather_enum_value_definition(n: &EnumValueDefinition, acc: &mut Vec<Span>)
    ensures
        final(acc)@ == old(acc)@ + spans_enum_value_definition(*n),
    decreases n, 0nat,
{
    let ghost start = acc@;
    let ghost d = *n;
    let ghost q1 = match d.description { Some(x) => spans_description(x), None => Seq::empty() };
    if let Some(x) = &n.description {
        gather_description(&x, acc);
    }
    assert(acc@ =~= start + q1);
    let ghost s1 = q1;
    let ghost q2 = spans_enum_value(d.enum_value);
    let ghost before2 = acc@;
    gather_enum_value(&n.enum_value, acc);
    assert(acc@ =~= before2 + q2);
    proof { lemma_concat_associative(start, s1, q2); }
    let ghost s2 = s1 + q2;
    assert(acc@ =~= start + s2);
    let ghost q3 = match d.directives { Some(x) => spans_directives(x), None => Seq::empty() };
    let ghost before3 = acc@;
    if let Some(x) = &n.directives {
        gather_directives(&x, acc);
    }
    assert(acc@ =~= before3 + q3);
    proof { lemma_concat_associative(start, s2, q3); }
    let ghost s3 = s2 + q3;
    assert(acc@ =~= start + s3);
    assert(acc@ =~= start + spans_enum_value_definition(*n));
}

/// Appends the spans of the tokens of `n` to `acc`.
#[verifier::spinoff_prover]
pub fn gather_enum_type_extension(n: &EnumTypeExtension, acc: &mut Vec<Span>)
    ensures
        final(acc)@ == old(acc)@ + spans_enum_type_extension(*n),
    decreases n, 0nat,
{
    let ghost start = acc@;
    let ghost d = *n;
    let ghost q1 = match d.name { Recoverable::Present(x) => spans_named_type(x), Recoverable::Missing(_) => Seq::empty() };
    if let Recoverable::Present(x) = &n.name {
        gather_named_type(&x, acc);
    }
    assert(acc@ =~= start + q1);
    let ghost s1 = q1;
    let ghost q2 = match d.directives { Some(x) => spans_directives(x), None => Seq::empty() };
    let ghost before2 = acc@;
    if let Some(x) = &n.directives {
        gather_directives(&x, acc);
    }
    assert(acc@ =~= before2 + q2);
    proof { lemma_concat_associative(start, s1, q2); }
    let ghost s2 = s1 + q2;
    assert(acc@ =~= start + s2);
    let ghost q3 = match d.values_definition { Some(x) => spans_enum_values_definition(x), None => Seq::empty() };
    let ghost before3 = acc@;
    if let Some(x) = &n.values_definition {
        gather_enum_values_definition(&x, acc);
    }
    assert(acc@ =~= before3 + q3);
    proof { lemma_concat_associative(start, s2, q3); }
    let ghost s3 = s2 + q3;
    assert(acc@ =~= start + s3);
    assert(acc@ =~= start + spans_enum_type_extension(*n));
}

/// Appends the spans of the tokens of `n` to `acc`.
#[verifier::spinoff_prover]
pub fn gather_input_object_type_definition(n: &InputObjectTypeDefinition, acc: &mut Vec<Span>)
    ensures
        final(acc)@ == old(acc)@ + spans_input_object_type_definition(*n),
    decreases n, 0nat,
{
    let ghost start = acc@;
    let ghost d = *n;
    let ghost q1 = match d.description { Some(x) => spans_description(x), None => Seq::empty() };
    if let Some(x) = &n.description {
        gather_description(&x, acc);
    }
    assert(acc@ =~= start + q1);
    let ghost s1 = q1;
    let ghost q2 = seq![d.input.0.span];
    let ghost before2 = acc@;
    acc.push(n.input.0.span);
    assert(acc@ =~= before2 + q2);
    proof { lemma_concat_associative(start, s1, q2); }
    let ghost s2 = s1 + q2;
    assert(acc@ =~= start + s2);
    let ghost q3 = match d.name { Recoverable::Present(x) => seq![x.0.span], Recoverable::Missing(_) => Seq::empty() };
    let ghost before3 = acc@;
    if let Recoverable::Present(x) = &n.name {
        acc.push(x.0.span);
    }
    assert(acc@ =~= before3 + q3);
    proof { lemma_concat_associative(start, s2, q3); }
    let ghost s3 = s2 + q3;
    assert(acc@ =~= start + s3);
    let ghost q4 = match d.directives { Some(x) => spans_directives(x), None => Seq::empty() };
    let ghost before4 = acc@;
    if let Some(x) = &n.directives {
        gather_directives(&x, acc);
    }
    assert(acc@ =~= before4 + q4);
    proof { lemma_concat_associative(start, s3, q4); }
    let ghost s4 = s3 + q4;
    assert(acc@ =~= start + s4);
    let ghost q5 = match d.fields_definition { Some(x) => spans_input_fields_definition(x), None => Seq::empty() };
    let ghost before5 = acc@;
    if let Some(x) = &n.fields_definition {
        gather_input_fields_definition(&x, acc);
    }
    assert(acc@ =~= before5 + q5);
    proof { lemma_concat_associative(start, s4, q5); }
    let ghost s5 = s4 + q5;
    assert(acc@ =~= start + s5);
    assert(acc@ =~= start + spans_input_object_type_definition(*n));
}

/// Appends the spans of the tokens of `n` to `acc`.
#[verifier::spinoff_prover]
pub fn gather_input_fields_definition(n: &InputFieldsDefinition, acc: &mut Vec<Span>)
    ensures
        final(acc)@ == old(acc)@ + spans_input_fields_definition(*n),
    decreases n, 0nat,
{
    let ghost start = acc@;
    let ghost d = *n;
    let ghost q1 = seq![d.braces.0.0.span] + match d.braces.1 { Recoverable::Present(x) => seq![x.0.span], Recoverable::Missing(_) => Seq::empty() };
    acc.push(n.braces.0.0.span);
    if let Recoverable::Present(x) = &n.braces.1 {
        acc.push(x.0.span);
    }
    assert(acc@ =~= start + q1);
    let ghost s1 = q1;
    let ghost q2 = spans_list_shared_input_value_definition(d.definitions.0@);
    let ghost before2 = acc@;
    gather_list_shared_input_value_definition(&n.definitions.0, acc);
    assert(acc@ =~= before2 + q2);
    proof { lemma_concat_associative(start, s1, q2); }
    let ghost s2 = s1 + q2;
    assert(acc@ =~= start + s2);
    assert(acc@ =~= start + spans_input_fields_definition(*n));
}

/// Appends the spans of the tokens of `n` to `acc`.
#[verifier::spinoff_prover]
pub fn gather_input_object_type_extension(n: &InputObjectTypeExtension, acc: &mut Vec<Span>)
    ensures
        final(acc)@ == old(acc)@ + spans_input_object_type_extension(*n),
    decreases n, 0nat,
{
    let ghost start = acc@;
    let ghost d = *n;
    let ghost q1 = seq![d.extend_input.0.0.span] + seq![d.extend_input.1.0.span];
    acc.push(n.extend_input.0.0.span);
    acc.push(n.extend_input.1.0.span);
    assert(acc@ =~= start + q1);
    let ghost s1 = q1;
    let ghost q2 = match d.name { Recoverable::Present(x) => spans_named_type(x), Recoverable::Missing(_) => Seq::empty() };
    let ghost before2 = acc@;
    if let Recoverable::Present(x) = &n.name {
        gather_named_type(&x, acc);
    }
    assert(acc@ =~= before2 + q2);
    proof { lemma_concat_associative(start, s1, q2); }
    let ghost s2 = s1 + q2;
    assert(acc@ =~= start + s2);
    let ghost q3 = match d.directives { Some(x) => spans_directives(x), None => Seq::empty() };
    let ghost before3 = acc@;
    if let Some(x) = &n.directives {
        gather_directives(&x, acc);
    }
    assert(acc@ =~= before3 + q3);
    proof { lemma_concat_associative(start, s2, q3); }
    let ghost s3 = s2 + q3;
    assert(acc@ =~= start + s3);
    let ghost q4 = match d.fields_definition { Some(x) => spans_input_fields_definition(x), None => Seq::empty() };
    let ghost before4 = acc@;
    if let Some(x) = &n.fields_definition {
        gather_input_fields_definition(&x, acc);
    }
    assert(acc@ =~= before4 + q4);
    proof { lemma_concat_associative(start, s3, q4); }
    let ghost s4 = s3 + q4;
    assert(acc@ =~= start + s4);
    assert(acc@ =~= start + spans_input_object_type_extension(*n));
}

/// Appends the spans of the tokens of `n` to `acc`.
#[verifier::spinoff_prover]
pub fn gather_directive_definition(n: &DirectiveDefinition, acc: &mut Vec<Span>)
    ensures
        final(acc)@ == old(acc)@ + spans_directive_definition(*n),
    decreases n, 0nat,
{
    let ghost start = acc@;
    let ghost d = *n;
    let ghost q1 = match d.description { Some(x) => spans_description(x), None => Seq::empty() };
    if let Some(x) = &n.description {
        gather_description(&x, acc);
    }
    assert(acc@ =~= start + q1);
    let ghost s1 = q1;
    let ghost q2 = seq![d.directive.0.span];
    let ghost before2 = acc@;
    acc.push(n.directive.0.span);
    assert(acc@ =~= before2 + q2);
    proof { lemma_concat_associative(start, s1, q2); }
    let ghost s2 = s1 + q2;
    assert(acc@ =~= start + s2);
    let ghost q3 = match d.at { Recoverable::Present(x) => seq![x.0.span], Recoverable::Missing(_) => Seq::empty() };
    let ghost before3 = acc@;
    if let Recoverable::Present(x) = &n.at {
        acc.push(x.0.span);
    }
    assert(acc@ =~= before3 + q3);
    proof { lemma_concat_associative(start, s2, q3); }
    let ghost s3 = s2 + q3;
    assert(acc@ =~= start + s3);
    let ghost q4 = match d.name { Recoverable::Present(x) => seq![x.0.span], Recoverable::Missing(_) => Seq::empty() };
    let ghost before4 = acc@;
    if let Recoverable::Present(x) = &n.name {
        acc.push(x.0.span);
    }
    assert(acc@ =~= before4 + q4);
    proof { lemma_concat_associative(start, s3, q4); }
    let ghost s4 = s3 + q4;
    assert(acc@ =~= start + s4);
    let ghost q5 = match d.arguments_definition { Some(x) => spans_arguments_definition(node_of(x)), None => Seq::empty() };
    let ghost before5 = acc@;
    if let Some(x) = &n.arguments_definition {
        gather_arguments_definition(&(*x.0), acc);
    }
    assert(acc@ =~= before5 + q5);
    proof { lemma_concat_associative(start, s4, q5); }
    let ghost s5 = s4 + q5;
    assert(acc@ =~= start + s5);
    let ghost q6 = match d.repeatable { Some(x) => seq![x.0.span], None => Seq::empty() };
    let ghost before6 = acc@;
    if let Some(x) = &n.repeatable {
        acc.push(x.0.span);
    }
    assert(acc@ =~= before6 + q6);
    proof { lemma_concat_associative(start, s5, q6); }
    let ghost s6 = s5 + q6;
    assert(acc@ =~= start + s6);
    let ghost q7 = match d.locations { Recoverable::Present(x) => spans_directive_locations(x), Recoverable::Missing(_) => Seq::empty() };
    let ghost before7 = acc@;
    if let Recoverable::Present(x) = &n.locations {
        gather_directive_locations(&x, acc);
    }
    assert(acc@ =~= before7 + q7);
    proof { lemma_concat_associative(start, s6, q7); }
    let ghost s7 = s6 + q7;
    assert(acc@ =~= start + s7);
    assert(acc@ =~= start + spans_directive_definition(*n));
}

/// Appends the spans of the tokens of `n` to `acc`.
#[verifier::spinoff_prover]
pub fn gather_directive_locations(n: &DirectiveLocations, acc: &mut Vec<Span>)
    ensures
        final(acc)@ == old(acc)@ + spans_directive_locations(*n),
    decreases n, 0nat,
{
    let ghost start = acc@;
    let ghost d = *n;
    let ghost q1 = seq![d.on.0.span];
    acc.push(n.on.0.span);
    assert(acc@ =~= start + q1);
    let ghost s1 = q1;
    let ghost q2 = match d.pipe { Some(x) => seq![x.0.span], None => Seq::empty() };
    let ghost before2 = acc@;
    if let Some(x) = &n.pipe {
        acc.push(x.0.span);
    }
    assert(acc@ =~= before2 + q2);
    proof { lemma_concat_associative(start, s1, q2); }
    let ghost s2 = s1 + q2;
    assert(acc@ =~= start + s2);
    let ghost q3 = match d.first { Recoverable::Present(x) => spans_directive_location(x), Recoverable::Missing(_) => Seq::empty() };
    let ghost before3 = acc@;
    if let Recoverable::Present(x) = &n.first {
        gather_directive_location(&x, acc);
    }
    assert(acc@ =~= before3 + q3);
    proof { lemma_concat_associative(start, s2, q3); }
    let ghost s3 = s2 + q3;
    assert(acc@ =~= start + s3);
    let ghost q4 = spans_list_punctuator_recoverable_directive_location(d.locations.0@);
    let ghost before4 = acc@;
    gather_list_punctuator_recoverable_directive_location(&n.locations.0, acc);
    assert(acc@ =~= before4 + q4);
    proof { lemma_concat_associative(start, s3, q4); }
    let ghost s4 = s3 + q4;
    assert(acc@ =~= start + s4);
    assert(acc@ =~= start + spans_directive_locations(*n));
}

/// Appends the spans of the tokens of `n` to `acc`.
#[verifier::spinoff_prover]
pub fn gather_directive_location(n: &DirectiveLocation, acc: &mut Vec<Span>)
    ensures
        final(acc)@ == old(acc)@ + spans_directive_location(*n),
    decreases n, 0nat,
{
    let ghost start = acc@;
    match n {
        DirectiveLocation::ExecutableDirectiveLocation(x) => {
            gather_executable_directive_location(&(*x), acc);
        },
        DirectiveLocation::TypeSystemDirectiveLocation(x) => {
            gather_type_system_directive_location(&(*x), acc);
        },
    }
    assert(acc@ =~= start + spans_directive_location(*n));
}

/// Appends the spans of the tokens of `n` to `acc`.
#[verifier::spinoff_prover]
pub fn gather_executable_directive_location(n: &ExecutableDirectiveLocation, acc: &mut Vec<Span>)
    ensures
        final(acc)@ == old(acc)@ + spans_executable_directive_location(*n),
    decreases n, 0nat,
{
    let ghost start = acc@;
    match n {
        ExecutableDirectiveLocation::Query(x) => {
            acc.push((*x).0.span);
        },
        ExecutableDirectiveLocation::Mutation(x) => {
            acc.push((*x).0.span);
        },
        ExecutableDirectiveLocation::Subscription(x) => {
            acc.push((*x).0.span);
        },
        ExecutableDirectiveLocation::Field(x) => {
            acc.push((*x).0.span);
        },
        ExecutableDirectiveLocation::FragmentDefinition(x) => {
            acc.push((*x).0.span);
        },
        ExecutableDirectiveLocation::FragmentSpread(x) => {
            acc.push((*x).0.span);
        },
        ExecutableDirectiveLocation::InlineFragment(x) => {
            acc.push((*x).0.span);
        },
        ExecutableDirectiveLocation::VariableDefinition(x) => {
            acc.push((*x).0.span);
        },
    }
    assert(acc@ =~= start + spans_executable_directive_location(*n));
}

/// Appends the spans of the tokens of `n` to `acc`.
#[verifier::spinoff_prover]
pub fn gather_type_system_directive_location(n: &TypeSystemDirectiveLocation, acc: &mut Vec<Span>)
    ensures
        final(acc)@ == old(acc)@ + spans_type_system_directive_location(*n),
    decreases n, 0nat,
{
    let ghost start = acc@;
    match n {
        TypeSystemDirectiveLocation::Schema(x) => {
            acc.push((*x).0.span);
        },
        TypeSystemDirectiveLocation::Scalar(x) => {
            acc.push((*x).0.span);
        },
        TypeSystemDirectiveLocation::Object(x) => {
            acc.push((*x).0.span);
        },
        TypeSystemDirectiveLocation::FieldDefinition(x) => {
            acc.push((*x).0.span);
        },
        TypeSystemDirectiveLocation::ArgumentDefinition(x) => {
            acc.push((*x).0.span);
        },
        TypeSystemDirectiveLocation::Interface(x) => {
            acc.push((*x).0.span);
        },
        TypeSystemDirectiveLocation::Union(x) => {
            acc.push((*x).0.span);
        },
        TypeSystemDirectiveLocation::Enum(x) => {
            acc.push((*x).0.span);
        },
        TypeSystemDirectiveLocation::EnumValue(x) => {
            acc.push((*x).0.span);
        },
        TypeSystemDirectiveLocation::InputObject(x) => {
            acc.push((*x).0.span);
        },
        TypeSystemDirectiveLocation::InputFieldDefinition(x) => {
            acc.push((*x).0.span);
        },
    }
    assert(acc@ =~= start + spans_type_system_directive_location(*n));
}

#[verifier::spinoff_prover]
fn gather_list_shared_definition(items: &Vec<Shared<Definition>>, acc: &mut Vec<Span>)
    ensures
        final(acc)@ == old(acc)@ + spans_list_shared_definition(items@),
    decreases items@, 1nat,
{
    let ghost start = acc@;
    let mut i: usize = 0;
    while i < items.len()
        invariant
            i <= items@.len(),
            acc@ == start + spans_list_shared_definition(items@.take(i as int)),
        decreases items.len() - i,
    {
        proof {
            assert(items@.take(i + 1).drop_last() =~= items@.take(i as int));
            assert(items@.take(i + 1).last() == items@[i as int]);
        }
        let ghost before = acc@;
        gather_definition(&(*items[i].0), acc);
        assert(acc@ =~= start + spans_list_shared_definition(items@.take(i + 1)));
        i = i + 1;
    }
    assert(items@.take(i as int) =~= items@);
}

#[verifier::spinoff_prover]
fn gather_list_executable_definition(items: &Vec<ExecutableDefinition>, acc: &mut Vec<Span>)
    ensures
        final(acc)@ == old(acc)@ + spans_list_executable_definition(items@),
    decreases items@, 1nat,
{
    let ghost start = acc@;
    let mut i: usize = 0;
    while i < items.len()
        invariant
            i <= items@.len(),
            acc@ == start + spans_list_executable_definition(items@.take(i as int)),
        decreases items.len() - i,
    {
        proof {
            assert(items@.take(i + 1).drop_last() =~= items@.take(i as int));
            assert(items@.take(i + 1).last() == items@[i as int]);
        }
        let ghost before = acc@;
        gather_executable_definition(&items[i], acc);
        assert(acc@ =~= start + spans_list_executable_definition(items@.take(i + 1)));
        i = i + 1;
    }
    assert(items@.take(i as int) =~= items@);
}

#[verifier::spinoff_prover]
fn gather_list_selection(items: &Vec<Selection>, acc: &mut Vec<Span>)
    ensures
        final(acc)@ == old(acc)@ + spans_list_selection(items@),
    decreases items@, 1nat,
{
    let ghost start = acc@;
    let mut i: usize = 0;
    while i < items.len()
        invariant
            i <= items@.len(),
            acc@ == start + spans_list_selection(items@.take(i as int)),
        decreases items.len() - i,
    {
        proof {
            assert(items@.take(i + 1).drop_last() =~= items@.take(i as int));
            assert(items@.take(i + 1).last() == items@[i as int]);
        }
        let ghost before = acc@;
        gather_selection(&items[i], acc);
        assert(acc@ =~= start + spans_list_selection(items@.take(i + 1)));
        i = i + 1;
    }
    assert(items@.take(i as int) =~= items@);
}

#[verifier::spinoff_prover]
fn gather_list_shared_argument(items: &Vec<Shared<Argument>>, acc: &mut Vec<Span>)
    ensures
        final(acc)@ == old(acc)@ + spans_list_shared_argument(items@),
    decreases items@, 1nat,
{
    let ghost start = acc@;
    let mut i: usize = 0;
    while i < items.len()
        invariant
            i <= items@.len(),
            acc@ == start + spans_list_shared_argument(items@.take(i as int)),
        decreases items.len() - i,
    {
        proof {
            assert(items@.take(i + 1).drop_last() =~= items@.take(i as int));
            assert(items@.take(i + 1).last() == items@[i as int]);
        }
        let ghost before = acc@;
        gather_argument(&(*items[i].0), acc);
        assert(acc@ =~= start + spans_list_shared_argument(items@.take(i + 1)));
        i = i + 1;
    }
    assert(items@.take(i as int) =~= items@);
}

#[verifier::spinoff_prover]
fn gather_list_shared_value(items: &Vec<Shared<Value>>, acc: &mut Vec<Span>)
    ensures
        final(acc)@ == old(acc)@ + spans_list_shared_value(items@),
    decreases items@, 1nat,
{
    let ghost start = acc@;
    let mut i: usize = 0;
    while i < items.len()
        invariant
            i <= items@.len(),
            acc@ == start + spans_list_shared_value(items@.take(i as int)),
        decreases items.len() - i,
    {
        proof {
            assert(items@.take(i + 1).drop_last() =~= items@.take(i as int));
            assert(items@.take(i + 1).last() == items@[i as int]);
        }
        let ghost before = acc@;
        gather_value(&(*items[i].0), acc);
        assert(acc@ =~= start + spans_list_shared_value(items@.take(i + 1)));
        i = i + 1;
    }
    assert(items@.take(i as int) =~= items@);
}

#[verifier::spinoff_prover]
fn gather_list_object_field(items: &Vec<ObjectField>, acc: &mut Vec<Span>)
    ensures
        final(acc)@ == old(acc)@ + spans_list_object_field(items@),
    decreases items@, 1nat,
{
    let ghost start = acc@;
    let mut i: usize = 0;
    while i < items.len()
        invariant
            i <= items@.len(),
            acc@ == start + spans_list_object_field(items@.take(i as int)),
        decreases items.len() - i,
    {
        proof {
            assert(items@.take(i + 1).drop_last() =~= items@.take(i as int));
            assert(items@.take(i + 1).last() == items@[i as int]);
        }
        let ghost before = acc@;
        gather_object_field(&items[i], acc);
        assert(acc@ =~= start + spans_list_object_field(items@.take(i + 1)));
        i = i + 1;
    }
    assert(items@.take(i as int) =~= items@);
}

#[verifier::spinoff_prover]
fn gather_list_shared_variable_definition(items: &Vec<Shared<VariableDefinition>>, acc: &mut Vec<Span>)
    ensures
        final(acc)@ == old(acc)@ + spans_list_shared_variable_definition(items@),
    decreases items@, 1nat,
{
    let ghost start = acc@;
    let mut i: usize = 0;
    while i < items.len()
        invariant
            i <= items@.len(),
            acc@ == start + spans_list_shared_variable_definition(items@.take(i as int)),
        decreases items.len() - i,
    {
        proof {
            assert(items@.take(i + 1).drop_last() =~= items@.take(i as int));
            assert(items@.take(i + 1).last() == items@[i as int]);
        }
        let ghost before = acc@;
        gather_variable_definition(&(*items[i].0), acc);
        assert(acc@ =~= start + spans_list_shared_variable_definition(items@.take(i + 1)));
        i = i + 1;
    }
    assert(items@.take(i as int) =~= items@);
}

#[verifier::spinoff_prover]
fn gather_list_shared_directive(items: &Vec<Shared<Directive>>, acc: &mut Vec<Span>)
    ensures
        final(acc)@ == old(acc)@ + spans_list_shared_directive(items@),
    decreases items@, 1nat,
{
    let ghost start = acc@;
    let mut i: usize = 0;
    while i < items.len()
        invariant
            i <= items@.len(),
            acc@ == start + spans_list_shared_directive(items@.take(i as int)),
        decreases items.len() - i,
    {
        proof {
            assert(items@.take(i + 1).drop_last() =~= items@.take(i as int));
            assert(items@.take(i + 1).last() == items@[i as int]);
        }
        let ghost before = acc@;
        gather_directive(&(*items[i].0), acc);
        assert(acc@ =~= start + spans_list_shared_directive(items@.take(i + 1)));
        i = i + 1;
    }
    assert(items@.take(i as int) =~= items@);
}

#[verifier::spinoff_prover]
fn gather_list_type_system_definition(items: &Vec<TypeSystemDefinition>, acc: &mut Vec<Span>)
    ensures
        final(acc)@ == old(acc)@ + spans_list_type_system_definition(items@),
    decreases items@, 1nat,
{
    let ghost start = acc@;
    let mut i: usize = 0;
    while i < items.len()
        invariant
            i <= items@.len(),
            acc@ == start + spans_list_type_system_definition(items@.take(i as int)),
        decreases items.len() - i,
    {
        proof {
            assert(items@.take(i + 1).drop_last() =~= items@.take(i as int));
            assert(items@.take(i + 1).last() == items@[i as int]);
        }
        let ghost before = acc@;
        gather_type_system_definition(&items[i], acc);
        assert(acc@ =~= start + spans_list_type_system_definition(items@.take(i + 1)));
        i = i + 1;
    }
    assert(items@.take(i as int) =~= items@);
}

#[verifier::spinoff_prover]
fn gather_list_type_system_definition_or_extension(items: &Vec<TypeSystemDefinitionOrExtension>, acc: &mut Vec<Span>)
    ensures
        final(acc)@ == old(acc)@ + spans_list_type_system_definition_or_extension(items@),
    decreases items@, 1nat,
{
    let ghost start = acc@;
    let mut i: usize = 0;
    while i < items.len()
        invariant
            i <= items@.len(),
            acc@ == start + spans_list_type_system_definition_or_extension(items@.take(i as int)),
        decreases items.len() - i,
    {
        proof {
            assert(items@.take(i + 1).drop_last() =~= items@.take(i as int));
            assert(items@.take(i + 1).last() == items@[i as int]);
        }
        let ghost before = acc@;
        gather_type_system_definition_or_extension(&items[i], acc);
        assert(acc@ =~= start + spans_list_type_system_definition_or_extension(items@.take(i + 1)));
        i = i + 1;
    }
    assert(items@.take(i as int) =~= items@);
}

#[verifier::spinoff_prover]
fn gather_list_root_operation_type_definition(items: &Vec<RootOperationTypeDefinition>, acc: &mut Vec<Span>)
    ensures
        final(acc)@ == old(acc)@ + spans_list_root_operation_type_definition(items@),
    decreases items@, 1nat,
{
    let ghost start = acc@;
    let mut i: usize = 0;
    while i < items.len()
        invariant
            i <= items@.len(),
            acc@ == start + spans_list_root_operation_type_definition(items@.take(i as int)),
        decreases items.len() - i,
    {
        proof {
            assert(items@.take(i + 1).drop_last() =~= items@.take(i as int));
            assert(items@.take(i + 1).last() == items@[i as int]);
        }
        let ghost before = acc@;
        gather_root_operation_type_definition(&items[i], acc);
        assert(acc@ =~= start + spans_list_root_operation_type_definition(items@.take(i + 1)));
        i = i + 1;
    }
    assert(items@.take(i as int) =~= items@);
}

#[verifier::spinoff_prover]
fn gather_list_punctuator_recoverable_shared_named_type(items: &Vec<(Punctuator, Recoverable<Shared<NamedType>>)>, acc: &mut Vec<Span>)
    ensures
        final(acc)@ == old(acc)@ + spans_list_punctuator_recoverable_shared_named_type(items@),
    decreases items@, 1nat,
{
    let ghost start = acc@;
    let mut i: usize = 0;
    while i < items.len()
        invariant
            i <= items@.len(),
            acc@ == start + spans_list_punctuator_recoverable_shared_named_type(items@.take(i as int)),
        decreases items.len() - i,
    {
        proof {
            assert(items@.take(i + 1).drop_last() =~= items@.take(i as int));
            assert(items@.take(i + 1).last() == items@[i as int]);
        }
        let ghost before = acc@;
        acc.push(items[i].0.0.span);
        if let Recoverable::Present(x) = &items[i].1 {
            gather_named_type(&(*x.0), acc);
        }
        assert(acc@ =~= start + spans_list_punctuator_recoverable_shared_named_type(items@.take(i + 1)));
        i = i + 1;
    }
    assert(items@.take(i as int) =~= items@);
}

#[verifier::spinoff_prover]
fn gather_list_shared_field_definition(items: &Vec<Shared<FieldDefinition>>, acc: &mut Vec<Span>)
    ensures
        final(acc)@ == old(acc)@ + spans_list_shared_field_definition(items@),
    decreases items@, 1nat,
{
    let ghost start = acc@;
    let mut i: usize = 0;
    while i < items.len()
        invariant
            i <= items@.len(),
            acc@ == start + spans_list_shared_field_definition(items@.take(i as int)),
        decreases items.len() - i,
    {
        proof {
            assert(items@.take(i + 1).drop_last() =~= items@.take(i as int));
            assert(items@.take(i + 1).last() == items@[i as int]);
        }
        let ghost before = acc@;
        gather_field_definition(&(*items[i].0), acc);
        assert(acc@ =~= start + spans_list_shared_field_definition(items@.take(i + 1)));
        i = i + 1;
    }
    assert(items@.take(i as int) =~= items@);
}

#[verifier::spinoff_prover]
fn gather_list_shared_input_value_definition(items: &Vec<Shared<InputValueDefinition>>, acc: &mut Vec<Span>)
    ensures
        final(acc)@ == old(acc)@ + spans_list_shared_input_value_definition(items@),
    decreases items@, 1nat,
{
    let ghost start = acc@;
    let mut i: usize = 0;
    while i < items.len()
        invariant
            i <= items@.len(),
            acc@ == start + spans_list_shared_input_value_definition(items@.take(i as int)),
        decreases items.len() - i,
    {
        proof {
            assert(items@.take(i + 1).drop_last() =~= items@.take(i as int));
            assert(items@.take(i + 1).last() == items@[i as int]);
        }
        let ghost before = acc@;
        gather_input_value_definition(&(*items[i].0), acc);
        assert(acc@ =~= start + spans_list_shared_input_value_definition(items@.take(i + 1)));
        i = i + 1;
    }
    assert(items@.take(i as int) =~= items@);
}

#[verifier::spinoff_prover]
fn gather_list_shared_enum_value_definition(items: &Vec<Shared<EnumValueDefinition>>, acc: &mut Vec<Span>)
    ensures
        final(acc)@ == old(acc)@ + spans_list_shared_enum_value_definition(items@),
    decreases items@, 1nat,
{
    let ghost start = acc@;
    let mut i: usize = 0;
    while i < items.len()
        invariant
            i <= items@.len(),
            acc@ == start + spans_list_shared_enum_value_definition(items@.take(i as int)),
        decreases items.len() - i,
    {
        proof {
            assert(items@.take(i + 1).drop_last() =~= items@.take(i as int));
            assert(items@.take(i + 1).last() == items@[i as int]);
        }
        let ghost before = acc@;
        gather_enum_value_definition(&(*items[i].0), acc);
        assert(acc@ =~= start + spans_list_shared_enum_value_definition(items@.take(i + 1)));
        i = i + 1;
    }
    assert(items@.take(i as int) =~= items@);
}

#[verifier::spinoff_prover]
fn gather_list_punctuator_recoverable_directive_location(items: &Vec<(Punctuator, Recoverable<DirectiveLocation>)>, acc: &mut Vec<Span>)
    ensures
        final(acc)@ == old(acc)@ + spans_list_punctuator_recoverable_directive_location(items@),
    decreases items@, 1nat,
{
    let ghost start = acc@;
    let mut i: usize = 0;
    while i < items.len()
        invariant
            i <= items@.len(),
            acc@ == start + spans_list_punctuator_recoverable_directive_location(items@.take(i as int)),
        decreases items.len() - i,
    {
        proof {
            assert(items@.take(i + 1).drop_last() =~= items@.take(i as int));
            assert(items@.take(i + 1).last() == items@[i as int]);
        }
        let ghost before = acc@;
        acc.push(items[i].0.0.span);
        if let Recoverable::Present(x) = &items[i].1 {
            gather_directive_location(&x, acc);
        }
        assert(acc@ =~= start + spans_list_punctuator_recoverable_directive_location(items@.take(i + 1)));
        i = i + 1;
    }
    assert(items@.take(i as int) =~= items@);
}

} // verus!
