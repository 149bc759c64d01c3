use vstd::prelude::*;

use crate::ast::context::Shared;
use crate::ast::types::{
    Alias, Argument, Arguments, ArgumentsDefinition, BooleanValue, DefaultValue, Definition, Description, Directive, DirectiveDefinition, DirectiveLocation, DirectiveLocations, Directives, Document, EnumTypeDefinition, EnumTypeExtension, EnumValue, EnumValueDefinition, EnumValuesDefinition, ExecutableDefinition, ExecutableDirectiveLocation, ExecutableDocument, Field, FieldDefinition, FieldsDefinition, FragmentDefinition, FragmentSpread, ImplementsInterfaces, InlineFragment, InputFieldsDefinition, InputObjectTypeDefinition, InputObjectTypeExtension, InputValueDefinition, InterfaceTypeDefinition, InterfaceTypeExtension, ListType, ListValue, Missing, MissingToken, NamedType, NonNullType, NullValue, ObjectField, ObjectTypeDefinition, ObjectTypeExtension, ObjectValue, OperationDefinition, OperationType, Recoverable, RootOperationTypeDefinition, RootOperationTypeDefinitions, ScalarTypeDefinition, ScalarTypeExtension, SchemaDefinition, SchemaExtension, Selection, SelectionSet, Type, TypeCondition, TypeDefinition, TypeExtension, TypeSystemDefinition, TypeSystemDefinitionOrExtension, TypeSystemDirectiveLocation, TypeSystemDocument, TypeSystemExtension, TypeSystemExtensionDocument, UnionMemberTypes, UnionTypeDefinition, UnionTypeExtension, Value, Variable, VariableDefinition, VariableDefinitions,
};
use crate::lex::token::Punctuator;
use crate::lex::Span;

verus! {

/// A syntax error found in a syntax tree: a token that is missing, or a
/// definition that could not be recognized.
#[derive(Clone, Copy, Debug)]
pub enum Site {
    Missing(MissingToken),
    Unrecognized(Span),
}

/// The syntax errors of a `Document`, in the order of a traversal.
pub open spec fn sites_document(n: Document) -> Seq<Site>
    decreases n, 0nat,
{
    (sites_list_shared_definition(n.definitions.0@))
}

/// The syntax errors of a `Definition`, in the order of a traversal.
pub open spec fn sites_definition(n: Definition) -> Seq<Site>
    decreases n, 0nat,
{
    match n {
        Definition::ExecutableDefinition(x) => sites_executable_definition(x),
        Definition::TypeSystemDefinitionOrExtension(x) => sites_type_system_definition_or_extension(x),
    }
}

/// The syntax errors of a `ExecutableDocument`, in the order of a traversal.
pub open spec fn sites_executable_document(n: ExecutableDocument) -> Seq<Site>
    decreases n, 0nat,
{
    (sites_list_executable_definition(n.definitions.0@))
}

/// The syntax errors of a `ExecutableDefinition`, in the order of a traversal.
pub open spec fn sites_executable_definition(n: ExecutableDefinition) -> Seq<Site>
    decreases n, 0nat,
{
    match n {
        ExecutableDefinition::OperationDefinition(x) => sites_operation_definition(*x.0),
        ExecutableDefinition::FragmentDefinition(x) => sites_fragment_definition(*x.0),
    }
}

/// The syntax errors of a `OperationDefinition`, in the order of a traversal.
pub open spec fn sites_operation_definition(n: OperationDefinition) -> Seq<Site>
    decreases n, 0nat,
{
    (match n.ty { Some(x) => sites_operation_type(x), None => Seq::empty() }) + (match n.variable_definitions { Some(x) => sites_variable_definitions(x), None => Seq::empty() }) + (match n.directives { Some(x) => sites_directives(x), None => Seq::empty() }) + (match n.selection_set { Recoverable::Present(x) => sites_selection_set(*x.0), Recoverable::Missing(m) => seq![Site::Missing(m)] })
}

/// The syntax errors of a `OperationType`, in the order of a traversal.
pub open spec fn sites_operation_type(n: OperationType) -> Seq<Site>
    decreases n, 0nat,
{
    match n {
        OperationType::Query(x) => Seq::empty(),
        OperationType::Mutation(x) => Seq::empty(),
        OperationType::Subscription(x) => Seq::empty(),
    }
}

/// The syntax errors of a `SelectionSet`, in the order of a traversal.
pub open spec fn sites_selection_set(n: SelectionSet) -> Seq<Site>
    decreases n, 0nat,
{
    (match n.braces.1 { Recoverable::Present(x) => Seq::empty(), Recoverable::Missing(m) => seq![Site::Missing(m)] }) + (sites_list_selection(n.selections.0@))
}

/// The syntax errors of a `Selection`, in the order of a traversal.
pub open spec fn sites_selection(n: Selection) -> Seq<Site>
    decreases n, 0nat,
{
    match n {
        Selection::Field(x) => sites_field(*x.0),
        Selection::FragmentSpread(x) => sites_fragment_spread(*x.0),
        Selection::InlineFragment(x) => sites_inline_fragment(x),
    }
}

/// The syntax errors of a `Field`, in the order of a traversal.
pub open spec fn sites_field(n: Field) -> Seq<Site>
    decreases n, 0nat,
{
    (match n.alias { Some(x) => sites_alias(x), None => Seq::empty() }) + (match n.name { Recoverable::Present(x) => Seq::empty(), Recoverable::Missing(m) => seq![Site::Missing(m)] }) + (match n.arguments { Some(x) => sites_arguments(*x.0), None => Seq::empty() }) + (match n.directives { Some(x) => sites_directives(x), None => Seq::empty() }) + (match n.selection_set { Some(x) => sites_selection_set(*x.0), None => Seq::empty() })
}

/// The syntax errors of a `Alias`, in the order of a traversal.
pub open spec fn sites_alias(n: Alias) -> Seq<Site>
    decreases n, 0nat,
{
    Seq::empty()
}

/// The syntax errors of a `Arguments`, in the order of a traversal.
pub open spec fn sites_arguments(n: Arguments) -> Seq<Site>
    decreases n, 0nat,
{
    (match n.parens.1 { Recoverable::Present(x) => Seq::empty(), Recoverable::Missing(m) => seq![Site::Missing(m)] }) + (sites_list_shared_argument(n.items.0@))
}

/// The syntax errors of a `Argument`, in the order of a traversal.
pub open spec fn sites_argument(n: Argument) -> Seq<Site>
    decreases n, 0nat,
{
    (match n.colon { Recoverable::Present(x) => Seq::empty(), Recoverable::Missing(m) => seq![Site::Missing(m)] }) + (match n.value { Recoverable::Present(x) => sites_value(*x.0), Recoverable::Missing(m) => seq![Site::Missing(m)] })
}

/// The syntax errors of a `FragmentSpread`, in the order of a traversal.
pub open spec fn sites_fragment_spread(n: FragmentSpread) -> Seq<Site>
    decreases n, 0nat,
{
    (match n.directives { Some(x) => sites_directives(x), None => Seq::empty() })
}

/// The syntax errors of a `InlineFragment`, in the order of a traversal.
pub open spec fn sites_inline_fragment(n: InlineFragment) -> Seq<Site>
    decreases n, 0nat,
{
    (match n.type_condition { Some(x) => sites_type_condition(x), None => Seq::empty() }) + (match n.directives { Some(x) => sites_directives(x), None => Seq::empty() }) + (match n.selection_set { Recoverable::Present(x) => sites_selection_set(*x.0), Recoverable::Missing(m) => seq![Site::Missing(m)] })
}

/// The syntax errors of a `FragmentDefinition`, in the order of a traversal.
pub open spec fn sites_fragment_definition(n: FragmentDefinition) -> Seq<Site>
    decreases n, 0nat,
{
    (match n.fragment_name { Recoverable::Present(x) => Seq::empty(), Recoverable::Missing(m) => seq![Site::Missing(m)] }) + (match n.type_condition { Recoverable::Present(x) => sites_type_condition(x), Recoverable::Missing(m) => seq![Site::Missing(m)] }) + (match n.directives { Some(x) => sites_directives(x), None => Seq::empty() }) + (match n.selection_set { Recoverable::Present(x) => sites_selection_set(*x.0), Recoverable::Missing(m) => seq![Site::Missing(m)] })
}

/// The syntax errors of a `TypeCondition`, in the order of a traversal.
pub open spec fn sites_type_condition(n: TypeCondition) -> Seq<Site>
    decreases n, 0nat,
{
    (match n.named_type { Recoverable::Present(x) => sites_named_type(x), Recoverable::Missing(m) => seq![Site::Missing(m)] })
}

/// The syntax errors of a `Value`, in the order of a traversal.
pub open spec fn sites_value(n: Value) -> Seq<Site>
    decreases n, 0nat,
{
    match n {
        Value::Variable(x) => sites_variable(x),
        Value::IntValue(x) => Seq::empty(),
        Value::FloatValue(x) => Seq::empty(),
        Value::StringValue(x) => Seq::empty(),
        Value::BooleanValue(x) => sites_boolean_value(x),
        Value::NullValue(x) => sites_null_value(x),
        Value::EnumValue(x) => sites_enum_value(x),
        Value::ListValue(x) => sites_list_value(x),
        Value::ObjectValue(x) => sites_object_value(x),
    }
}

/// The syntax errors of a `BooleanValue`, in the order of a traversal.
pub open spec fn sites_boolean_value(n: BooleanValue) -> Seq<Site>
    decreases n, 0nat,
{
    match n {
        BooleanValue::True(x) => Seq::empty(),
        BooleanValue::False(x) => Seq::empty(),
    }
}

/// The syntax errors of a `NullValue`, in the order of a traversal.
pub open spec fn sites_null_value(n: NullValue) -> Seq<Site>
    decreases n, 0nat,
{
    Seq::empty()
}

/// The syntax errors of a `EnumValue`, in the order of a traversal.
pub open spec fn sites_enum_value(n: EnumValue) -> Seq<Site>
    decreases n, 0nat,
{
    Seq::empty()
}

/// The syntax errors of a `ListValue`, in the order of a traversal.
pub open spec fn sites_list_value(n: ListValue) -> Seq<Site>
    decreases n, 0nat,
{
    (match n.brackets.1 { Recoverable::Present(x) => Seq::empty(), Recoverable::Missing(m) => seq![Site::Missing(m)] }) + (sites_list_shared_value(n.values.0@))
}

/// The syntax errors of a `ObjectValue`, in the order of a traversal.
pub open spec fn sites_object_value(n: ObjectValue) -> Seq<Site>
    decreases n, 0nat,
{
    (match n.braces.1 { Recoverable::Present(x) => Seq::empty(), Recoverable::Missing(m) => seq![Site::Missing(m)] }) + (sites_list_object_field(n.object_fields.0@))
}

/// The syntax errors of a `ObjectField`, in the order of a traversal.
pub open spec fn sites_object_field(n: ObjectField) -> Seq<Site>
    decreases n, 0nat,
{
    (match n.colon { Recoverable::Present(x) => Seq::empty(), Recoverable::Missing(m) => seq![Site::Missing(m)] }) + (match n.value { Recoverable::Present(x) => sites_value(*x.0), Recoverable::Missing(m) => seq![Site::Missing(m)] })
}

/// The syntax errors of a `VariableDefinitions`, in the order of a traversal.
pub open spec fn sites_variable_definitions(n: VariableDefinitions) -> Seq<Site>
    decreases n, 0nat,
{
    (match n.parens.1 { Recoverable::Present(x) => Seq::empty(), Recoverable::Missing(m) => seq![Site::Missing(m)] }) + (sites_list_shared_variable_definition(n.variable_definitions.0@))
}

/// The syntax errors of a `VariableDefinition`, in the order of a traversal.
pub open spec fn sites_variable_definition(n: VariableDefinition) -> Seq<Site>
    decreases n, 0nat,
{
    (sites_variable(n.variable)) + (match n.colon { Recoverable::Present(x) => Seq::empty(), Recoverable::Missing(m) => seq![Site::Missing(m)] }) + (match n.ty { Recoverable::Present(x) => sites_type(*x.0), Recoverable::Missing(m) => seq![Site::Missing(m)] }) + (match n.default_value { Some(x) => sites_default_value(x), None => Seq::empty() }) + (match n.directives { Some(x) => sites_directives(x), None => Seq::empty() })
}

/// The syntax errors of a `Variable`, in the order of a traversal.
pub open spec fn sites_variable(n: Variable) -> Seq<Site>
    decreases n, 0nat,
{
    (match n.name { Recoverable::Present(x) => Seq::empty(), Recoverable::Missing(m) => seq![Site::Missing(m)] })
}

/// The syntax errors of a `DefaultValue`, in the order of a traversal.
pub open spec fn sites_default_value(n: DefaultValue) -> Seq<Site>
    decreases n, 0nat,
{
    (match n.value { Recoverable::Present(x) => sites_value(*x.0), Recoverable::Missing(m) => seq![Site::Missing(m)] })
}

/// The syntax errors of a `Type`, in the order of a traversal.
pub open spec fn sites_type(n: Type) -> Seq<Site>
    decreases n, 0nat,
{
    match n {
        Type::Named(x) => sites_named_type(x),
        Type::List(x) => sites_list_type(x),
        Type::NonNull(x) => sites_non_null_type(x),
    }
}

/// The syntax errors of a `NamedType`, in the order of a traversal.
pub open spec fn sites_named_type(n: NamedType) -> Seq<Site>
    decreases n, 0nat,
{
    Seq::empty()
}

/// The syntax errors of a `ListType`, in the order of a traversal.
pub open spec fn sites_list_type(n: ListType) -> Seq<Site>
    decreases n, 0nat,
{
    (match n.brackets.1 { Recoverable::Present(x) => Seq::empty(), Recoverable::Missing(m) => seq![Site::Missing(m)] }) + (match n.ty { Recoverable::Present(x) => sites_type(*x.0), Recoverable::Missing(m) => seq![Site::Missing(m)] })
}

/// The syntax errors of a `NonNullType`, in the order of a traversal.
pub open spec fn sites_non_null_type(n: NonNullType) -> Seq<Site>
    decreases n, 0nat,
{
    (sites_type(*n.ty.0))
}

/// The syntax errors of a `Directives`, in the order of a traversal.
pub open spec fn sites_directives(n: Directives) -> Seq<Site>
    decreases n, 0nat,
{
    (sites_list_shared_directive(n.directives.0@))
}

/// The syntax errors of a `Directive`, in the order of a traversal.
pub open spec fn sites_directive(n: Directive) -> Seq<Site>
    decreases n, 0nat,
{
    (match n.name { Recoverable::Present(x) => Seq::empty(), Recoverable::Missing(m) => seq![Site::Missing(m)] }) + (match n.arguments { Some(x) => sites_arguments(*x.0), None => Seq::empty() })
}

/// The syntax errors of a `TypeSystemDocument`, in the order of a traversal.
pub open spec fn sites_type_system_document(n: TypeSystemDocument) -> Seq<Site>
    decreases n, 0nat,
{
    (sites_list_type_system_definition(n.definitions.0@))
}

/// The syntax errors of a `TypeSystemDefinition`, in the order of a traversal.
pub open spec fn sites_type_system_definition(n: TypeSystemDefinition) -> Seq<Site>
    decreases n, 0nat,
{
    match n {
        TypeSystemDefinition::SchemaDefinition(x) => sites_schema_definition(x),
        TypeSystemDefinition::TypeDefinition(x) => sites_type_definition(*x.0),
        TypeSystemDefinition::DirectiveDefinition(x) => sites_directive_definition(*x.0),
        TypeSystemDefinition::Error(d) => seq![Site::Unrecognized(d.0.0.span)],
    }
}

/// The syntax errors of a `TypeSystemExtensionDocument`, in the order of a traversal.
pub open spec fn sites_type_system_extension_document(n: TypeSystemExtensionDocument) -> Seq<Site>
    decreases n, 0nat,
{
    (sites_list_type_system_definition_or_extension(n.definitions.0@))
}

/// The syntax errors of a `TypeSystemDefinitionOrExtension`, in the order of a traversal.
pub open spec fn sites_type_system_definition_or_extension(n: TypeSystemDefinitionOrExtension) -> Seq<Site>
    decreases n, 0nat,
{
    match n {
        TypeSystemDefinitionOrExtension::TypeSystemDefinition(x) => sites_type_system_definition(x),
        TypeSystemDefinitionOrExtension::TypeSystemExtension(x) => sites_type_system_extension(x),
    }
}

/// The syntax errors of a `TypeSystemExtension`, in the order of a traversal.
pub open spec fn sites_type_system_extension(n: TypeSystemExtension) -> Seq<Site>
    decreases n, 0nat,
{
    match n {
        TypeSystemExtension::SchemaExtension(x) => sites_schema_extension(x),
        TypeSystemExtension::TypeExtension(x) => sites_type_extension(*x.0),
        TypeSystemExtension::Error(d) => seq![Site::Unrecognized(d.0.span)],
    }
}

/// The syntax errors of a `Description`, in the order of a traversal.
pub open spec fn sites_description(n: Description) -> Seq<Site>
    decreases n, 0nat,
{
    Seq::empty()
}

/// The syntax errors of a `SchemaDefinition`, in the order of a traversal.
pub open spec fn sites_schema_definition(n: SchemaDefinition) -> Seq<Site>
    decreases n, 0nat,
{
    (match n.description { Some(x) => sites_description(x), None => Seq::empty() }) + (match n.directives { Some(x) => sites_directives(x), None => Seq::empty() }) + (match n.type_definitions { Recoverable::Present(x) => sites_root_operation_type_definitions(x), Recoverable::Missing(m) => seq![Site::Missing(m)] })
}

/// The syntax errors of a `RootOperationTypeDefinitions`, in the order of a traversal.
pub open spec fn sites_root_operation_type_definitions(n: RootOperationTypeDefinitions) -> Seq<Site>
    decreases n, 0nat,
{
    (match n.braces.1 { Recoverable::Present(x) => Seq::empty(), Recoverable::Missing(m) => seq![Site::Missing(m)] }) + (match n.definitions { Recoverable::Present(x) => sites_list_root_operation_type_definition(x.0@), Recoverable::Missing(m) => seq![Site::Missing(m)] })
}

/// The syntax errors of a `RootOperationTypeDefinition`, in the order of a traversal.
pub open spec fn sites_root_operation_type_definition(n: RootOperationTypeDefinition) -> Seq<Site>
    decreases n, 0nat,
{
    (sites_operation_type(n.operation_type)) + (match n.colon { Recoverable::Present(x) => Seq::empty(), Recoverable::Missing(m) => seq![Site::Missing(m)] }) + (match n.named_type { Recoverable::Present(x) => sites_named_type(x), Recoverable::Missing(m) => seq![Site::Missing(m)] })
}

/// The syntax errors of a `SchemaExtension`, in the order of a traversal.
pub open spec fn sites_schema_extension(n: SchemaExtension) -> Seq<Site>
    decreases n, 0nat,
{
    (match n.directives { Some(x) => sites_directives(x), None => Seq::empty() }) + (match n.type_definitions { Some(x) => sites_root_operation_type_definitions(x), None => Seq::empty() })
}

/// The syntax errors of a `TypeDefinition`, in the order of a traversal.
pub open spec fn sites_type_definition(n: TypeDefinition) -> Seq<Site>
    decreases n, 0nat,
{
    match n {
        TypeDefinition::ScalarTypeDefinition(x) => sites_scalar_type_definition(x),
        TypeDefinition::ObjectTypeDefinition(x) => sites_object_type_definition(x),
        TypeDefinition::InterfaceTypeDefinition(x) => sites_interface_type_definition(x),
        TypeDefinition::UnionTypeDefinition(x) => sites_union_type_definition(x),
        TypeDefinition::EnumTypeDefinition(x) => sites_enum_type_definition(x),
        TypeDefinition::InputObjectTypeDefinition(x) => sites_input_object_type_definition(x),
    }
}

/// The syntax errors of a `TypeExtension`, in the order of a traversal.
pub open spec fn sites_type_extension(n: TypeExtension) -> Seq<Site>
    decreases n, 0nat,
{
    match n {
        TypeExtension::ScalarTypeExtension(x) => sites_scalar_type_extension(x),
        TypeExtension::ObjectTypeExtension(x) => sites_object_type_extension(x),
        TypeExtension::InterfaceTypeExtension(x) => sites_interface_type_extension(x),
        TypeExtension::UnionTypeExtension(x) => sites_union_type_extension(x),
        TypeExtension::EnumTypeExtension(x) => sites_enum_type_extension(x),
        TypeExtension::InputObjectTypeExtension(x) => sites_input_object_type_extension(x),
    }
}

/// The syntax errors of a `ScalarTypeDefinition`, in the order of a traversal.
pub open spec fn sites_scalar_type_definition(n: ScalarTypeDefinition) -> Seq<Site>
    decreases n, 0nat,
{
    (match n.name { Recoverable::Present(x) => Seq::empty(), Recoverable::Missing(m) => seq![Site::Missing(m)] }) + (match n.directives { Some(x) => sites_directives(x), None => Seq::empty() })
}

/// The syntax errors of a `ScalarTypeExtension`, in the order of a traversal.
pub open spec fn sites_scalar_type_extension(n: ScalarTypeExtension) -> Seq<Site>
    decreases n, 0nat,
{
    (match n.name { Recoverable::Present(x) => sites_named_type(x), Recoverable::Missing(m) => seq![Site::Missing(m)] }) + (match n.directives { Recoverable::Present(x) => sites_directives(x), Recoverable::Missing(m) => seq![Site::Missing(m)] })
}

/// The syntax errors of a `ObjectTypeDefinition`, in the order of a traversal.
pub open spec fn sites_object_type_definition(n: ObjectTypeDefinition) -> Seq<Site>
    decreases n, 0nat,
{
    (match n.description { Some(x) => sites_description(x), None => Seq::empty() }) + (match n.name { Recoverable::Present(x) => Seq::empty(), Recoverable::Missing(m) => seq![Site::Missing(m)] }) + (match n.implements_interfaces { Some(x) => sites_implements_interfaces(x), None => Seq::empty() }) + (match n.directives { Some(x) => sites_directives(x), None => Seq::empty() }) + (match n.fields_definition { Some(x) => sites_fields_definition(x), None => Seq::empty() })
}

/// The syntax errors of a `ImplementsInterfaces`, in the order of a traversal.
pub open spec fn sites_implements_interfaces(n: ImplementsInterfaces) -> Seq<Site>
    decreases n, 0nat,
{
    (match n.first { Recoverable::Present(x) => sites_named_type(*x.0), Recoverable::Missing(m) => seq![Site::Missing(m)] }) + (sites_list_punctuator_recoverable_shared_named_type(n.types.0@))
}

/// The syntax errors of a `FieldsDefinition`, in the order of a traversal.
pub open spec fn sites_fields_definition(n: FieldsDefinition) -> Seq<Site>
    decreases n, 0nat,
{
    (match n.braces.1 { Recoverable::Present(x) => Seq::empty(), Recoverable::Missing(m) => seq![Site::Missing(m)] }) + (sites_list_shared_field_definition(n.definitions.0@))
}

/// The syntax errors of a `FieldDefinition`, in the order of a traversal.
pub open spec fn sites_field_definition(n: FieldDefinition) -> Seq<Site>
    decreases n, 0nat,
{
    (match n.description { Some(x) => sites_description(x), None => Seq::empty() }) + (match n.arguments_definition { Some(x) => sites_arguments_definition(*x.0), None => Seq::empty() }) + (match n.colon { Recoverable::Present(x) => Seq::empty(), Recoverable::Missing(m) => seq![Site::Missing(m)] }) + (match n.ty { Recoverable::Present(x) => sites_type(*x.0), Recoverable::Missing(m) => seq![Site::Missing(m)] }) + (match n.directives { Some(x) => sites_directives(x), None => Seq::empty() })
}

/// The syntax errors of a `ArgumentsDefinition`, in the order of a traversal.
pub open spec fn sites_arguments_definition(n: ArgumentsDefinition) -> Seq<Site>
    decreases n, 0nat,
{
    (match n.parens.1 { Recoverable::Present(x) => Seq::empty(), Recoverable::Missing(m) => seq![Site::Missing(m)] }) + (sites_list_shared_input_value_definition(n.definitions.0@))
}

/// The syntax errors of a `InputValueDefinition`, in the order of a traversal.
pub open spec fn sites_input_value_definition(n: InputValueDefinition) -> Seq<Site>
    decreases n, 0nat,
{
    (match n.description { Some(x) => sites_description(x), None => Seq::empty() }) + (match n.colon { Recoverable::Present(x) => Seq::empty(), Recoverable::Missing(m) => seq![Site::Missing(m)] }) + (match n.ty { Recoverable::Present(x) => sites_type(*x.0), Recoverable::Missing(m) => seq![Site::Missing(m)] }) + (match n.default_value { Some(x) => sites_default_value(x), None => Seq::empty() }) + (match n.directives { Some(x) => sites_directives(x), None => Seq::empty() })
}

/// The syntax errors of a `ObjectTypeExtension`, in the order of a traversal.
pub open spec fn sites_object_type_extension(n: ObjectTypeExtension) -> Seq<Site>
    decreases n, 0nat,
{
    (match n.name { Recoverable::Present(x) => sites_named_type(x), Recoverable::Missing(m) => seq![Site::Missing(m)] }) + (match n.implements_interfaces { Some(x) => sites_implements_interfaces(x), None => Seq::empty() }) + (match n.directives { Some(x) => sites_directives(x), None => Seq::empty() }) + (match n.fields_definition { Some(x) => sites_fields_definition(x), None => Seq::empty() })
}

/// The syntax errors of a `InterfaceTypeDefinition`, in the order of a traversal.
pub open spec fn sites_interface_type_definition(n: InterfaceTypeDefinition) -> Seq<Site>
    decreases n, 0nat,
{
    (match n.description { Some(x) => sites_description(x), None => Seq::empty() }) + (match n.name { Recoverable::Present(x) => Seq::empty(), Recoverable::Missing(m) => seq![Site::Missing(m)] }) + (match n.implements_interfaces { Some(x) => sites_implements_interfaces(x), None => Seq::empty() }) + (match n.directives { Some(x) => sites_directives(x), None => Seq::empty() }) + (match n.fields_definition { Some(x) => sites_fields_definition(x), None => Seq::empty() })
}

/// The syntax errors of a `InterfaceTypeExtension`, in the order of a traversal.
pub open spec fn sites_interface_type_extension(n: InterfaceTypeExtension) -> Seq<Site>
    decreases n, 0nat,
{
    (match n.name { Recoverable::Present(x) => sites_named_type(x), Recoverable::Missing(m) => seq![Site::Missing(m)] }) + (match n.implements_interfaces { Some(x) => sites_implements_interfaces(x), None => Seq::empty() }) + (match n.directives { Some(x) => sites_directives(x), None => Seq::empty() }) + (match n.fields_definition { Some(x) => sites_fields_definition(x), None => Seq::empty() })
}

/// The syntax errors of a `UnionTypeDefinition`, in the order of a traversal.
pub open spec fn sites_union_type_definition(n: UnionTypeDefinition) -> Seq<Site>
    decreases n, 0nat,
{
    (match n.description { Some(x) => sites_description(x), None => Seq::empty() }) + (match n.name { Recoverable::Present(x) => Seq::empty(), Recoverable::Missing(m) => seq![Site::Missing(m)] }) + (match n.directives { Some(x) => sites_directives(x), None => Seq::empty() }) + (match n.member_types { Some(x) => sites_union_member_types(x), None => Seq::empty() })
}

/// The syntax errors of a `UnionMemberTypes`, in the order of a traversal.
pub open spec fn sites_union_member_types(n: UnionMemberTypes) -> Seq<Site>
    decreases n, 0nat,
{
    (match n.first { Recoverable::Present(x) => sites_named_type(*x.0), Recoverable::Missing(m) => seq![Site::Missing(m)] }) + (sites_list_punctuator_recoverable_shared_named_type(n.types.0@))
}

/// The syntax errors of a `UnionTypeExtension`, in the order of a traversal.
pub open spec fn sites_union_type_extension(n: UnionTypeExtension) -> Seq<Site>
    decreases n, 0nat,
{
    (match n.name { Recoverable::Present(x) => sites_named_type(x), Recoverable::Missing(m) => seq![Site::Missing(m)] }) + (match n.directives { Some(x) => sites_directives(x), None => Seq::empty() }) + (match n.member_types { Some(x) => sites_union_member_types(x), None => Seq::empty() })
}

/// The syntax errors of a `EnumTypeDefinition`, in the order of a traversal.
pub open spec fn sites_enum_type_definition(n: EnumTypeDefinition) -> Seq<Site>
    decreases n, 0nat,
{
    (match n.description { Some(x) => sites_description(x), None => Seq::empty() }) + (match n.name { Recoverable::Present(x) => Seq::empty(), Recoverable::Missing(m) => seq![Site::Missing(m)] }) + (match n.directives { Some(x) => sites_directives(x), None => Seq::empty() }) + (match n.values_definition { Some(x) => sites_enum_values_definition(x), None => Seq::empty() })
}

/// The syntax errors of a `EnumValuesDefinition`, in the order of a traversal.
pub open spec fn sites_enum_values_definition(n: EnumValuesDefinition) -> Seq<Site>
    decreases n, 0nat,
{
    (match n.braces.1 { Recoverable::Present(x) => Seq::empty(), Recoverable::Missing(m) => seq![Site::Missing(m)] }) + (sites_list_shared_enum_value_definition(n.definitions.0@))
}

/// The syntax errors of a `EnumValueDefinition`, in the order of a traversal.
pub open spec fn sites_enum_value_definition(n: EnumValueDefinition) -> Seq<Site>
    decreases n, 0nat,
{
    (match n.description { Some(x) => sites_description(x), None => Seq::empty() }) + (sites_enum_value(n.enum_value)) + (match n.directives { Some(x) => sites_directives(x), None => Seq::empty() })
}

/// The syntax errors of a `EnumTypeExtension`, in the order of a traversal.
pub open spec fn sites_enum_type_extension(n: EnumTypeExtension) -> Seq<Site>
    decreases n, 0nat,
{
    (match n.name { Recoverable::Present(x) => sites_named_type(x), Recoverable::Missing(m) => seq![Site::Missing(m)] }) + (match n.directives { Some(x) => sites_directives(x), None => Seq::empty() }) + (match n.values_definition { Some(x) => sites_enum_values_definition(x), None => Seq::empty() })
}

/// The syntax errors of a `InputObjectTypeDefinition`, in the order of a traversal.
pub open spec fn sites_input_object_type_definition(n: InputObjectTypeDefinition) -> Seq<Site>
    decreases n, 0nat,
{
    (match n.description { Some(x) => sites_description(x), None => Seq::empty() }) + (match n.name { Recoverable::Present(x) => Seq::empty(), Recoverable::Missing(m) => seq![Site::Missing(m)] }) + (match n.directives { Some(x) => sites_directives(x), None => Seq::empty() }) + (match n.fields_definition { Some(x) => sites_input_fields_definition(x), None => Seq::empty() })
}

/// The syntax errors of a `InputFieldsDefinition`, in the order of a traversal.
pub open spec fn sites_input_fields_definition(n: InputFieldsDefinition) -> Seq<Site>
    decreases n, 0nat,
{
    (match n.braces.1 { Recoverable::Present(x) => Seq::empty(), Recoverable::Missing(m) => seq![Site::Missing(m)] }) + (sites_list_shared_input_value_definition(n.definitions.0@))
}

/// The syntax errors of a `InputObjectTypeExtension`, in the order of a traversal.
pub open spec fn sites_input_object_type_extension(n: InputObjectTypeExtension) -> Seq<Site>
    decreases n, 0nat,
{
    (match n.name { Recoverable::Present(x) => sites_named_type(x), Recoverable::Missing(m) => seq![Site::Missing(m)] }) + (match n.directives { Some(x) => sites_directives(x), None => Seq::empty() }) + (match n.fields_definition { Some(x) => sites_input_fields_definition(x), None => Seq::empty() })
}

/// The syntax errors of a `DirectiveDefinition`, in the order of a traversal.
pub open spec fn sites_directive_definition(n: DirectiveDefinition) -> Seq<Site>
    decreases n, 0nat,
{
    (match n.description { Some(x) => sites_description(x), None => Seq::empty() }) + (match n.at { Recoverable::Present(x) => Seq::empty(), Recoverable::Missing(m) => seq![Site::Missing(m)] }) + (match n.name { Recoverable::Present(x) => Seq::empty(), Recoverable::Missing(m) => seq![Site::Missing(m)] }) + (match n.arguments_definition { Some(x) => sites_arguments_definition(*x.0), None => Seq::empty() }) + (match n.locations { Recoverable::Present(x) => sites_directive_locations(x), Recoverable::Missing(m) => seq![Site::Missing(m)] })
}

/// The syntax errors of a `DirectiveLocations`, in the order of a traversal.
pub open spec fn sites_directive_locations(n: DirectiveLocations) -> Seq<Site>
    decreases n, 0nat,
{
    (match n.first { Recoverable::Present(x) => sites_directive_location(x), Recoverable::Missing(m) => seq![Site::Missing(m)] }) + (sites_list_punctuator_recoverable_directive_location(n.locations.0@))
}

/// The syntax errors of a `DirectiveLocation`, in the order of a traversal.
pub open spec fn sites_directive_location(n: DirectiveLocation) -> Seq<Site>
    decreases n, 0nat,
{
    match n {
        DirectiveLocation::ExecutableDirectiveLocation(x) => sites_executable_directive_location(x),
        DirectiveLocation::TypeSystemDirectiveLocation(x) => sites_type_system_directive_location(x),
    }
}

/// The syntax errors of a `ExecutableDirectiveLocation`, in the order of a traversal.
pub open spec fn sites_executable_directive_location(n: ExecutableDirectiveLocation) -> Seq<Site>
    decreases n, 0nat,
{
    match n {
        ExecutableDirectiveLocation::Query(x) => Seq::empty(),
        ExecutableDirectiveLocation::Mutation(x) => Seq::empty(),
        ExecutableDirectiveLocation::Subscription(x) => Seq::empty(),
        ExecutableDirectiveLocation::Field(x) => Seq::empty(),
        ExecutableDirectiveLocation::FragmentDefinition(x) => Seq::empty(),
        ExecutableDirectiveLocation::FragmentSpread(x) => Seq::empty(),
        ExecutableDirectiveLocation::InlineFragment(x) => Seq::empty(),
        ExecutableDirectiveLocation::VariableDefinition(x) => Seq::empty(),
    }
}

/// The syntax errors of a `TypeSystemDirectiveLocation`, in the order of a traversal.
pub open spec fn sites_type_system_directive_location(n: TypeSystemDirectiveLocation) -> Seq<Site>
    decreases n, 0nat,
{
    match n {
        TypeSystemDirectiveLocation::Schema(x) => Seq::empty(),
        TypeSystemDirectiveLocation::Scalar(x) => Seq::empty(),
        TypeSystemDirectiveLocation::Object(x) => Seq::empty(),
        TypeSystemDirectiveLocation::FieldDefinition(x) => Seq::empty(),
        TypeSystemDirectiveLocation::ArgumentDefinition(x) => Seq::empty(),
        TypeSystemDirectiveLocation::Interface(x) => Seq::empty(),
        TypeSystemDirectiveLocation::Union(x) => Seq::empty(),
        TypeSystemDirectiveLocation::Enum(x) => Seq::empty(),
        TypeSystemDirectiveLocation::EnumValue(x) => Seq::empty(),
        TypeSystemDirectiveLocation::InputObject(x) => Seq::empty(),
        TypeSystemDirectiveLocation::InputFieldDefinition(x) => Seq::empty(),
    }
}

pub open spec fn sites_list_shared_definition(s: Seq<Shared<Definition>>) -> Seq<Site>
    decreases s, 1nat,
{
    if s.len() == 0 {
        Seq::empty()
    } else {
        sites_list_shared_definition(s.drop_last()) + (sites_definition(*s.last().0))
    }
}

pub open spec fn sites_list_executable_definition(s: Seq<ExecutableDefinition>) -> Seq<Site>
    decreases s, 1nat,
{
    if s.len() == 0 {
        Seq::empty()
    } else {
        sites_list_executable_definition(s.drop_last()) + (sites_executable_definition(s.last()))
    }
}

pub open spec fn sites_list_selection(s: Seq<Selection>) -> Seq<Site>
    decreases s, 1nat,
{
    if s.len() == 0 {
        Seq::empty()
    } else {
        sites_list_selection(s.drop_last()) + (sites_selection(s.last()))
    }
}

pub open spec fn sites_list_shared_argument(s: Seq<Shared<Argument>>) -> Seq<Site>
    decreases s, 1nat,
{
    if s.len() == 0 {
        Seq::empty()
    } else {
        sites_list_shared_argument(s.drop_last()) + (sites_argument(*s.last().0))
    }
}

pub open spec fn sites_list_shared_value(s: Seq<Shared<Value>>) -> Seq<Site>
    decreases s, 1nat,
{
    if s.len() == 0 {
        Seq::empty()
    } else {
        sites_list_shared_value(s.drop_last()) + (sites_value(*s.last().0))
    }
}

pub open spec fn sites_list_object_field(s: Seq<ObjectField>) -> Seq<Site>
    decreases s, 1nat,
{
    if s.len() == 0 {
        Seq::empty()
    } else {
        sites_list_object_field(s.drop_last()) + (sites_object_field(s.last()))
    }
}

pub open spec fn sites_list_shared_variable_definition(s: Seq<Shared<VariableDefinition>>) -> Seq<Site>
    decreases s, 1nat,
{
    if s.len() == 0 {
        Seq::empty()
    } else {
        sites_list_shared_variable_definition(s.drop_last()) + (sites_variable_definition(*s.last().0))
    }
}

pub open spec fn sites_list_shared_directive(s: Seq<Shared<Directive>>) -> Seq<Site>
    decreases s, 1nat,
{
    if s.len() == 0 {
        Seq::empty()
    } else {
        sites_list_shared_directive(s.drop_last()) + (sites_directive(*s.last().0))
    }
}

pub open spec fn sites_list_type_system_definition(s: Seq<TypeSystemDefinition>) -> Seq<Site>
    decreases s, 1nat,
{
    if s.len() == 0 {
        Seq::empty()
    } else {
        sites_list_type_system_definition(s.drop_last()) + (sites_type_system_definition(s.last()))
    }
}

pub open spec fn sites_list_type_system_definition_or_extension(s: Seq<TypeSystemDefinitionOrExtension>) -> Seq<Site>
    decreases s, 1nat,
{
    if s.len() == 0 {
        Seq::empty()
    } else {
        sites_list_type_system_definition_or_extension(s.drop_last()) + (sites_type_system_definition_or_extension(s.last()))
    }
}

pub open spec fn sites_list_root_operation_type_definition(s: Seq<RootOperationTypeDefinition>) -> Seq<Site>
    decreases s, 1nat,
{
    if s.len() == 0 {
        Seq::empty()
    } else {
        sites_list_root_operation_type_definition(s.drop_last()) + (sites_root_operation_type_definition(s.last()))
    }
}

pub open spec fn sites_list_punctuator_recoverable_shared_named_type(s: Seq<(Punctuator, Recoverable<Shared<NamedType>>)>) -> Seq<Site>
    decreases s, 1nat,
{
    if s.len() == 0 {
        Seq::empty()
    } else {
        sites_list_punctuator_recoverable_shared_named_type(s.drop_last()) + (match s.last().1 { Recoverable::Present(x) => sites_named_type(*x.0), Recoverable::Missing(m) => seq![Site::Missing(m)] })
    }
}

pub open spec fn sites_list_shared_field_definition(s: Seq<Shared<FieldDefinition>>) -> Seq<Site>
    decreases s, 1nat,
{
    if s.len() == 0 {
        Seq::empty()
    } else {
        sites_list_shared_field_definition(s.drop_last()) + (sites_field_definition(*s.last().0))
    }
}

pub open spec fn sites_list_shared_input_value_definition(s: Seq<Shared<InputValueDefinition>>) -> Seq<Site>
    decreases s, 1nat,
{
    if s.len() == 0 {
        Seq::empty()
    } else {
        sites_list_shared_input_value_definition(s.drop_last()) + (sites_input_value_definition(*s.last().0))
    }
}

pub open spec fn sites_list_shared_enum_value_definition(s: Seq<Shared<EnumValueDefinition>>) -> Seq<Site>
    decreases s, 1nat,
{
    if s.len() == 0 {
        Seq::empty()
    } else {
        sites_list_shared_enum_value_definition(s.drop_last()) + (sites_enum_value_definition(*s.last().0))
    }
}

pub open spec fn sites_list_punctuator_recoverable_directive_location(s: Seq<(Punctuator, Recoverable<DirectiveLocation>)>) -> Seq<Site>
    decreases s, 1nat,
{
    if s.len() == 0 {
        Seq::empty()
    } else {
        sites_list_punctuator_recoverable_directive_location(s.drop_last()) + (match s.last().1 { Recoverable::Present(x) => sites_directive_location(x), Recoverable::Missing(m) => seq![Site::Missing(m)] })
    }
}

/// Appends the syntax errors of `n` to `acc`.
#[verifier::spinoff_prover]
pub fn collect_document(n: &Document, acc: &mut Vec<Site>)
    ensures
        final(acc)@ == old(acc)@ + sites_document(*n),
    decreases n, 0nat,
{
    let ghost start = acc@;
    collect_list_shared_definition(&n.definitions.0, acc);
    assert(acc@ =~= start + sites_document(*n));
}

/// Appends the syntax errors of `n` to `acc`.
#[verifier::spinoff_prover]
pub fn collect_definition(n: &Definition, acc: &mut Vec<Site>)
    ensures
        final(acc)@ == old(acc)@ + sites_definition(*n),
    decreases n, 0nat,
{
    let ghost start = acc@;
    match n {
        Definition::ExecutableDefinition(x) => {
            collect_executable_definition(&(*x), acc);
        },
        Definition::TypeSystemDefinitionOrExtension(x) => {
            collect_type_system_definition_or_extension(&(*x), acc);
        },
    }
    assert(acc@ =~= start + sites_definition(*n));
}

/// Appends the syntax errors of `n` to `acc`.
#[verifier::spinoff_prover]
pub fn collect_executable_document(n: &ExecutableDocument, acc: &mut Vec<Site>)
    ensures
        final(acc)@ == old(acc)@ + sites_executable_document(*n),
    decreases n, 0nat,
{
    let ghost start = acc@;
    collect_list_executable_definition(&n.definitions.0, acc);
    assert(acc@ =~= start + sites_executable_document(*n));
}

/// Appends the syntax errors of `n` to `acc`.
#[verifier::spinoff_prover]
pub fn collect_executable_definition(n: &ExecutableDefinition, acc: &mut Vec<Site>)
    ensures
        final(acc)@ == old(acc)@ + sites_executable_definition(*n),
    decreases n, 0nat,
{
    let ghost start = acc@;
    match n {
        ExecutableDefinition::OperationDefinition(x) => {
            collect_operation_definition(&(*(*x).0), acc);
        },
        ExecutableDefinition::FragmentDefinition(x) => {
            collect_fragment_definition(&(*(*x).0), acc);
        },
    }
    assert(acc@ =~= start + sites_executable_definition(*n));
}

/// Appends the syntax errors of `n` to `acc`.
#[verifier::spinoff_prover]
pub fn collect_operation_definition(n: &OperationDefinition, acc: &mut Vec<Site>)
    ensures
        final(acc)@ == old(acc)@ + sites_operation_definition(*n),
    decreases n, 0nat,
{
    let ghost start = acc@;
    if let Some(x) = &n.ty {
        collect_operation_type(&x, acc);
    }
    if let Some(x) = &n.variable_definitions {
        collect_variable_definitions(&x, acc);
    }
    if let Some(x) = &n.directives {
        collect_directives(&x, acc);
    }
    match &n.selection_set {
        Recoverable::Present(x) => {
                collect_selection_set(&(*x.0), acc);
        },
        Recoverable::Missing(m) => {
            acc.push(Site::Missing(*m));
        },
    }
    assert(acc@ =~= start + sites_operation_definition(*n));
}

/// Appends the syntax errors of `n` to `acc`.
#[verifier::spinoff_prover]
pub fn collect_operation_type(n: &OperationType, acc: &mut Vec<Site>)
    ensures
        final(acc)@ == old(acc)@ + sites_operation_type(*n),
    decreases n, 0nat,
{
    let ghost start = acc@;
    match n {
        OperationType::Query(x) => {
        },
        OperationType::Mutation(x) => {
        },
        OperationType::Subscription(x) => {
        },
    }
    assert(acc@ =~= start + sites_operation_type(*n));
}

/// Appends the syntax errors of `n` to `acc`.
#[verifier::spinoff_prover]
pub fn collect_selection_set(n: &SelectionSet, acc: &mut Vec<Site>)
    ensures
        final(acc)@ == old(acc)@ + sites_selection_set(*n),
    decreases n, 0nat,
{
    let ghost start = acc@;
    match &n.braces.1 {
        Recoverable::Present(x) => {
        },
        Recoverable::Missing(m) => {
            acc.push(Site::Missing(*m));
        },
    }
    collect_list_selection(&n.selections.0, acc);
    assert(acc@ =~= start + sites_selection_set(*n));
}

/// Appends the syntax errors of `n` to `acc`.
#[verifier::spinoff_prover]
pub fn collect_selection(n: &Selection, acc: &mut Vec<Site>)
    ensures
        final(acc)@ == old(acc)@ + sites_selection(*n),
    decreases n, 0nat,
{
    let ghost start = acc@;
    match n {
        Selection::Field(x) => {
            collect_field(&(*(*x).0), acc);
        },
        Selection::FragmentSpread(x) => {
            collect_fragment_spread(&(*(*x).0), acc);
        },
        Selection::InlineFragment(x) => {
            collect_inline_fragment(&(*x), acc);
        },
    }
    assert(acc@ =~= start + sites_selection(*n));
}

/// Appends the syntax errors of `n` to `acc`.
#[verifier::spinoff_prover]
pub fn collect_field(n: &Field, acc: &mut Vec<Site>)
    ensures
        final(acc)@ == old(acc)@ + sites_field(*n),
    decreases n, 0nat,
{
    let ghost start = acc@;
    if let Some(x) = &n.alias {
        collect_alias(&x, acc);
    }
    match &n.name {
        Recoverable::Present(x) => {
        },
        Recoverable::Missing(m) => {
            acc.push(Site::Missing(*m));
        },
    }
    if let Some(x) = &n.arguments {
        collect_arguments(&(*x.0), acc);
    }
    if let Some(x) = &n.directives {
        collect_directives(&x, acc);
    }
    if let Some(x) = &n.selection_set {
        collect_selection_set(&(*x.0), acc);
    }
    assert(acc@ =~= start + sites_field(*n));
}

/// Appends the syntax errors of `n` to `acc`.
#[verifier::spinoff_prover]
pub fn collect_alias(n: &Alias, acc: &mut Vec<Site>)
    ensures
        final(acc)@ == old(acc)@ + sites_alias(*n),
    decreases n, 0nat,
{
    let ghost start = acc@;

    assert(acc@ =~= start + sites_alias(*n));
}

/// Appends the syntax errors of `n` to `acc`.
#[verifier::spinoff_prover]
pub fn collect_arguments(n: &Arguments, acc: &mut Vec<Site>)
    ensures
        final(acc)@ == old(acc)@ + sites_arguments(*n),
    decreases n, 0nat,
{
    let ghost start = acc@;
    match &n.parens.1 {
        Recoverable::Present(x) => {
        },
        Recoverable::Missing(m) => {
            acc.push(Site::Missing(*m));
        },
    }
    collect_list_shared_argument(&n.items.0, acc);
    assert(acc@ =~= start + sites_arguments(*n));
}

/// Appends the syntax errors of `n` to `acc`.
#[verifier::spinoff_prover]
pub fn collect_argument(n: &Argument, acc: &mut Vec<Site>)
    ensures
        final(acc)@ == old(acc)@ + sites_argument(*n),
    decreases n, 0nat,
{
    let ghost start = acc@;
    match &n.colon {
        Recoverable::Present(x) => {
        },
        Recoverable::Missing(m) => {
            acc.push(Site::Missing(*m));
        },
    }
    match &n.value {
        Recoverable::Present(x) => {
                collect_value(&(*x.0), acc);
        },
        Recoverable::Missing(m) => {
            acc.push(Site::Missing(*m));
        },
    }
    assert(acc@ =~= start + sites_argument(*n));
}

/// Appends the syntax errors of `n` to `acc`.
#[verifier::spinoff_prover]
pub fn collect_fragment_spread(n: &FragmentSpread, acc: &mut Vec<Site>)
    ensures
        final(acc)@ == old(acc)@ + sites_fragment_spread(*n),
    decreases n, 0nat,
{
    let ghost start = acc@;
    if let Some(x) = &n.directives {
        collect_directives(&x, acc);
    }
    assert(acc@ =~= start + sites_fragment_spread(*n));
}

/// Appends the syntax errors of `n` to `acc`.
#[verifier::spinoff_prover]
pub fn collect_inline_fragment(n: &InlineFragment, acc: &mut Vec<Site>)
    ensures
        final(acc)@ == old(acc)@ + sites_inline_fragment(*n),
    decreases n, 0nat,
{
    let ghost start = acc@;
    if let Some(x) = &n.type_condition {
        collect_type_condition(&x, acc);
    }
    if let Some(x) = &n.directives {
        collect_directives(&x, acc);
    }
    match &n.selection_set {
        Recoverable::Present(x) => {
                collect_selection_set(&(*x.0), acc);
        },
        Recoverable::Missing(m) => {
            acc.push(Site::Missing(*m));
        },
    }
    assert(acc@ =~= start + sites_inline_fragment(*n));
}

/// Appends the syntax errors of `n` to `acc`.
#[verifier::spinoff_prover]
pub fn collect_fragment_definition(n: &FragmentDefinition, acc: &mut Vec<Site>)
    ensures
        final(acc)@ == old(acc)@ + sites_fragment_definition(*n),
    decreases n, 0nat,
{
    let ghost start = acc@;
    match &n.fragment_name {
        Recoverable::Present(x) => {
        },
        Recoverable::Missing(m) => {
            acc.push(Site::Missing(*m));
        },
    }
    match &n.type_condition {
        Recoverable::Present(x) => {
                collect_type_condition(&x, acc);
        },
        Recoverable::Missing(m) => {
            acc.push(Site::Missing(*m));
        },
    }
    if let Some(x) = &n.directives {
        collect_directives(&x, acc);
    }
    match &n.selection_set {
        Recoverable::Present(x) => {
                collect_selection_set(&(*x.0), acc);
        },
        Recoverable::Missing(m) => {
            acc.push(Site::Missing(*m));
        },
    }
    assert(acc@ =~= start + sites_fragment_definition(*n));
}

/// Appends the syntax errors of `n` to `acc`.
#[verifier::spinoff_prover]
pub fn collect_type_condition(n: &TypeCondition, acc: &mut Vec<Site>)
    ensures
        final(acc)@ == old(acc)@ + sites_type_condition(*n),
    decreases n, 0nat,
{
    let ghost start = acc@;
    match &n.named_type {
        Recoverable::Present(x) => {
                collect_named_type(&x, acc);
        },
        Recoverable::Missing(m) => {
            acc.push(Site::Missing(*m));
        },
    }
    assert(acc@ =~= start + sites_type_condition(*n));
}

/// Appends the syntax errors of `n` to `acc`.
#[verifier::spinoff_prover]
pub fn collect_value(n: &Value, acc: &mut Vec<Site>)
    ensures
        final(acc)@ == old(acc)@ + sites_value(*n),
    decreases n, 0nat,
{
    let ghost start = acc@;
    match n {
        Value::Variable(x) => {
            collect_variable(&(*x), acc);
        },
        Value::IntValue(x) => {
        },
        Value::FloatValue(x) => {
        },
        Value::StringValue(x) => {
        },
        Value::BooleanValue(x) => {
            collect_boolean_value(&(*x), acc);
        },
        Value::NullValue(x) => {
            collect_null_value(&(*x), acc);
        },
        Value::EnumValue(x) => {
            collect_enum_value(&(*x), acc);
        },
        Value::ListValue(x) => {
            collect_list_value(&(*x), acc);
        },
        Value::ObjectValue(x) => {
            collect_object_value(&(*x), acc);
        },
    }
    assert(acc@ =~= start + sites_value(*n));
}

/// Appends the syntax errors of `n` to `acc`.
#[verifier::spinoff_prover]
pub fn collect_boolean_value(n: &BooleanValue, acc: &mut Vec<Site>)
    ensures
        final(acc)@ == old(acc)@ + sites_boolean_value(*n),
    decreases n, 0nat,
{
    let ghost start = acc@;
    match n {
        BooleanValue::True(x) => {
        },
        BooleanValue::False(x) => {
        },
    }
    assert(acc@ =~= start + sites_boolean_value(*n));
}

/// Appends the syntax errors of `n` to `acc`.
#[verifier::spinoff_prover]
pub fn collect_null_value(n: &NullValue, acc: &mut Vec<Site>)
    ensures
        final(acc)@ == old(acc)@ + sites_null_value(*n),
    decreases n, 0nat,
{
    let ghost start = acc@;

    assert(acc@ =~= start + sites_null_value(*n));
}

/// Appends the syntax errors of `n` to `acc`.
#[verifier::spinoff_prover]
pub fn collect_enum_value(n: &EnumValue, acc: &mut Vec<Site>)
    ensures
        final(acc)@ == old(acc)@ + sites_enum_value(*n),
    decreases n, 0nat,
{
    let ghost start = acc@;

    assert(acc@ =~= start + sites_enum_value(*n));
}

/// Appends the syntax errors of `n` to `acc`.
#[verifier::spinoff_prover]
pub fn collect_list_value(n: &ListValue, acc: &mut Vec<Site>)
    ensures
        final(acc)@ == old(acc)@ + sites_list_value(*n),
    decreases n, 0nat,
{
    let ghost start = acc@;
    match &n.brackets.1 {
        Recoverable::Present(x) => {
        },
        Recoverable::Missing(m) => {
            acc.push(Site::Missing(*m));
        },
    }
    collect_list_shared_value(&n.values.0, acc);
    assert(acc@ =~= start + sites_list_value(*n));
}

/// Appends the syntax errors of `n` to `acc`.
#[verifier::spinoff_prover]
pub fn collect_object_value(n: &ObjectValue, acc: &mut Vec<Site>)
    ensures
        final(acc)@ == old(acc)@ + sites_object_value(*n),
    decreases n, 0nat,
{
    let ghost start = acc@;
    match &n.braces.1 {
        Recoverable::Present(x) => {
        },
        Recoverable::Missing(m) => {
            acc.push(Site::Missing(*m));
        },
    }
    collect_list_object_field(&n.object_fields.0, acc);
    assert(acc@ =~= start + sites_object_value(*n));
}

/// Appends the syntax errors of `n` to `acc`.
#[verifier::spinoff_prover]
pub fn collect_object_field(n: &ObjectField, acc: &mut Vec<Site>)
    ensures
        final(acc)@ == old(acc)@ + sites_object_field(*n),
    decreases n, 0nat,
{
    let ghost start = acc@;
    match &n.colon {
        Recoverable::Present(x) => {
        },
        Recoverable::Missing(m) => {
            acc.push(Site::Missing(*m));
        },
    }
    match &n.value {
        Recoverable::Present(x) => {
                collect_value(&(*x.0), acc);
        },
        Recoverable::Missing(m) => {
            acc.push(Site::Missing(*m));
        },
    }
    assert(acc@ =~= start + sites_object_field(*n));
}

/// Appends the syntax errors of `n` to `acc`.
#[verifier::spinoff_prover]
pub fn collect_variable_definitions(n: &VariableDefinitions, acc: &mut Vec<Site>)
    ensures
        final(acc)@ == old(acc)@ + sites_variable_definitions(*n),
    decreases n, 0nat,
{
    let ghost start = acc@;
    match &n.parens.1 {
        Recoverable::Present(x) => {
        },
        Recoverable::Missing(m) => {
            acc.push(Site::Missing(*m));
        },
    }
    collect_list_shared_variable_definition(&n.variable_definitions.0, acc);
    assert(acc@ =~= start + sites_variable_definitions(*n));
}

/// Appends the syntax errors of `n` to `acc`.
#[verifier::spinoff_prover]
pub fn collect_variable_definition(n: &VariableDefinition, acc: &mut Vec<Site>)
    ensures
        final(acc)@ == old(acc)@ + sites_variable_definition(*n),
    decreases n, 0nat,
{
    let ghost start = acc@;
    collect_variable(&n.variable, acc);
    match &n.colon {
        Recoverable::Present(x) => {
        },
        Recoverable::Missing(m) => {
            acc.push(Site::Missing(*m));
        },
    }
    match &n.ty {
        Recoverable::Present(x) => {
                collect_type(&(*x.0), acc);
        },
        Recoverable::Missing(m) => {
            acc.push(Site::Missing(*m));
        },
    }
    if let Some(x) = &n.default_value {
        collect_default_value(&x, acc);
    }
    if let Some(x) = &n.directives {
        collect_directives(&x, acc);
    }
    assert(acc@ =~= start + sites_variable_definition(*n));
}

/// Appends the syntax errors of `n` to `acc`.
#[verifier::spinoff_prover]
pub fn collect_variable(n: &Variable, acc: &mut Vec<Site>)
    ensures
        final(acc)@ == old(acc)@ + sites_variable(*n),
    decreases n, 0nat,
{
    let ghost start = acc@;
    match &n.name {
        Recoverable::Present(x) => {
        },
        Recoverable::Missing(m) => {
            acc.push(Site::Missing(*m));
        },
    }
    assert(acc@ =~= start + sites_variable(*n));
}

/// Appends the syntax errors of `n` to `acc`.
#[verifier::spinoff_prover]
pub fn collect_default_value(n: &DefaultValue, acc: &mut Vec<Site>)
    ensures
        final(acc)@ == old(acc)@ + sites_default_value(*n),
    decreases n, 0nat,
{
    let ghost start = acc@;
    match &n.value {
        Recoverable::Present(x) => {
                collect_value(&(*x.0), acc);
        },
        Recoverable::Missing(m) => {
            acc.push(Site::Missing(*m));
        },
    }
    assert(acc@ =~= start + sites_default_value(*n));
}

/// Appends the syntax errors of `n` to `acc`.
#[verifier::spinoff_prover]
pub fn collect_type(n: &Type, acc: &mut Vec<Site>)
    ensures
        final(acc)@ == old(acc)@ + sites_type(*n),
    decreases n, 0nat,
{
    let ghost start = acc@;
    match n {
        Type::Named(x) => {
            collect_named_type(&(*x), acc);
        },
        Type::List(x) => {
            collect_list_type(&(*x), acc);
        },
        Type::NonNull(x) => {
            collect_non_null_type(&(*x), acc);
        },
    }
    assert(acc@ =~= start + sites_type(*n));
}

/// Appends the syntax errors of `n` to `acc`.
#[verifier::spinoff_prover]
pub fn collect_named_type(n: &NamedType, acc: &mut Vec<Site>)
    ensures
        final(acc)@ == old(acc)@ + sites_named_type(*n),
    decreases n, 0nat,
{
    let ghost start = acc@;

    assert(acc@ =~= start + sites_named_type(*n));
}

/// Appends the syntax errors of `n` to `acc`.
#[verifier::spinoff_prover]
pub fn collect_list_type(n: &ListType, acc: &mut Vec<Site>)
    ensures
        final(acc)@ == old(acc)@ + sites_list_type(*n),
    decreases n, 0nat,
{
    let ghost start = acc@;
    match &n.brackets.1 {
        Recoverable::Present(x) => {
        },
        Recoverable::Missing(m) => {
            acc.push(Site::Missing(*m));
        },
    }
    match &n.ty {
        Recoverable::Present(x) => {
                collect_type(&(*x.0), acc);
        },
        Recoverable::Missing(m) => {
            acc.push(Site::Missing(*m));
        },
    }
    assert(acc@ =~= start + sites_list_type(*n));
}

/// Appends the syntax errors of `n` to `acc`.
#[verifier::spinoff_prover]
pub fn collect_non_null_type(n: &NonNullType, acc: &mut Vec<Site>)
    ensures
        final(acc)@ == old(acc)@ + sites_non_null_type(*n),
    decreases n, 0nat,
{
    let ghost start = acc@;
    collect_type(&(*n.ty.0), acc);
    assert(acc@ =~= start + sites_non_null_type(*n));
}

/// Appends the syntax errors of `n` to `acc`.
#[verifier::spinoff_prover]
pub fn collect_directives(n: &Directives, acc: &mut Vec<Site>)
    ensures
        final(acc)@ == old(acc)@ + sites_directives(*n),
    decreases n, 0nat,
{
    let ghost start = acc@;
    collect_list_shared_directive(&n.directives.0, acc);
    assert(acc@ =~= start + sites_directives(*n));
}

/// Appends the syntax errors of `n` to `acc`.
#[verifier::spinoff_prover]
pub fn collect_directive(n: &Directive, acc: &mut Vec<Site>)
    ensures
        final(acc)@ == old(acc)@ + sites_directive(*n),
    decreases n, 0nat,
{
    let ghost start = acc@;
    match &n.name {
        Recoverable::Present(x) => {
        },
        Recoverable::Missing(m) => {
            acc.push(Site::Missing(*m));
        },
    }
    if let Some(x) = &n.arguments {
        collect_arguments(&(*x.0), acc);
    }
    assert(acc@ =~= start + sites_directive(*n));
}

/// Appends the syntax errors of `n` to `acc`.
#[verifier::spinoff_prover]
pub fn collect_type_system_document(n: &TypeSystemDocument, acc: &mut Vec<Site>)
    ensures
        final(acc)@ == old(acc)@ + sites_type_system_document(*n),
    decreases n, 0nat,
{
    let ghost start = acc@;
    collect_list_type_system_definition(&n.definitions.0, acc);
    assert(acc@ =~= start + sites_type_system_document(*n));
}

/// Appends the syntax errors of `n` to `acc`.
#[verifier::spinoff_prover]
pub fn collect_type_system_definition(n: &TypeSystemDefinition, acc: &mut Vec<Site>)
    ensures
        final(acc)@ == old(acc)@ + sites_type_system_definition(*n),
    decreases n, 0nat,
{
    let ghost start = acc@;
    match n {
        TypeSystemDefinition::SchemaDefinition(x) => {
            collect_schema_definition(&(*x), acc);
        },
        TypeSystemDefinition::TypeDefinition(x) => {
            collect_type_definition(&(*(*x).0), acc);
        },
        TypeSystemDefinition::DirectiveDefinition(x) => {
            collect_directive_definition(&(*(*x).0), acc);
        },
        TypeSystemDefinition::Error(d) => {
            acc.push(Site::Unrecognized(d.0.0.span));
        },
    }
    assert(acc@ =~= start + sites_type_system_definition(*n));
}

/// Appends the syntax errors of `n` to `acc`.
#[verifier::spinoff_prover]
pub fn collect_type_system_extension_document(n: &TypeSystemExtensionDocument, acc: &mut Vec<Site>)
    ensures
        final(acc)@ == old(acc)@ + sites_type_system_extension_document(*n),
    decreases n, 0nat,
{
    let ghost start = acc@;
    collect_list_type_system_definition_or_extension(&n.definitions.0, acc);
    assert(acc@ =~= start + sites_type_system_extension_document(*n));
}

/// Appends the syntax errors of `n` to `acc`.
#[verifier::spinoff_prover]
pub fn collect_type_system_definition_or_extension(n: &TypeSystemDefinitionOrExtension, acc: &mut Vec<Site>)
    ensures
        final(acc)@ == old(acc)@ + sites_type_system_definition_or_extension(*n),
    decreases n, 0nat,
{
    let ghost start = acc@;
    match n {
        TypeSystemDefinitionOrExtension::TypeSystemDefinition(x) => {
            collect_type_system_definition(&(*x), acc);
        },
        TypeSystemDefinitionOrExtension::TypeSystemExtension(x) => {
            collect_type_system_extension(&(*x), acc);
        },
    }
    assert(acc@ =~= start + sites_type_system_definition_or_extension(*n));
}

/// Appends the syntax errors of `n` to `acc`.
#[verifier::spinoff_prover]
pub fn collect_type_system_extension(n: &TypeSystemExtension, acc: &mut Vec<Site>)
    ensures
        final(acc)@ == old(acc)@ + sites_type_system_extension(*n),
    decreases n, 0nat,
{
    let ghost start = acc@;
    match n {
        TypeSystemExtension::SchemaExtension(x) => {
            collect_schema_extension(&(*x), acc);
        },
        TypeSystemExtension::TypeExtension(x) => {
            collect_type_extension(&(*(*x).0), acc);
        },
        TypeSystemExtension::Error(d) => {
            acc.push(Site::Unrecognized(d.0.span));
        },
    }
    assert(acc@ =~= start + sites_type_system_extension(*n));
}

/// Appends the syntax errors of `n` to `acc`.
#[verifier::spinoff_prover]
pub fn collect_description(n: &Description, acc: &mut Vec<Site>)
    ensures
        final(acc)@ == old(acc)@ + sites_description(*n),
    decreases n, 0nat,
{
    let ghost start = acc@;

    assert(acc@ =~= start + sites_description(*n));
}

/// Appends the syntax errors of `n` to `acc`.
#[verifier::spinoff_prover]
pub fn collect_schema_definition(n: &SchemaDefinition, acc: &mut Vec<Site>)
    ensures
        final(acc)@ == old(acc)@ + sites_schema_definition(*n),
    decreases n, 0nat,
{
    let ghost start = acc@;
    if let Some(x) = &n.description {
        collect_description(&x, acc);
    }
    if let Some(x) = &n.directives {
        collect_directives(&x, acc);
    }
    match &n.type_definitions {
        Recoverable::Present(x) => {
                collect_root_operation_type_definitions(&x, acc);
        },
        Recoverable::Missing(m) => {
            acc.push(Site::Missing(*m));
        },
    }
    assert(acc@ =~= start + sites_schema_definition(*n));
}

/// Appends the syntax errors of `n` to `acc`.
#[verifier::spinoff_prover]
pub fn collect_root_operation_type_definitions(n: &RootOperationTypeDefinitions, acc: &mut Vec<Site>)
    ensures
        final(acc)@ == old(acc)@ + sites_root_operation_type_definitions(*n),
    decreases n, 0nat,
{
    let ghost start = acc@;
    match &n.braces.1 {
        Recoverable::Present(x) => {
        },
        Recoverable::Missing(m) => {
            acc.push(Site::Missing(*m));
        },
    }
    match &n.definitions {
        Recoverable::Present(x) => {
                collect_list_root_operation_type_definition(&x.0, acc);
        },
        Recoverable::Missing(m) => {
            acc.push(Site::Missing(*m));
        },
    }
    assert(acc@ =~= start + sites_root_operation_type_definitions(*n));
}

/// Appends the syntax errors of `n` to `acc`.
#[verifier::spinoff_prover]
pub fn collect_root_operation_type_definition(n: &RootOperationTypeDefinition, acc: &mut Vec<Site>)
    ensures
        final(acc)@ == old(acc)@ + sites_root_operation_type_definition(*n),
    decreases n, 0nat,
{
    let ghost start = acc@;
    collect_operation_type(&n.operation_type, acc);
    match &n.colon {
        Recoverable::Present(x) => {
        },
        Recoverable::Missing(m) => {
            acc.push(Site::Missing(*m));
        },
    }
    match &n.named_type {
        Recoverable::Present(x) => {
                collect_named_type(&x, acc);
        },
        Recoverable::Missing(m) => {
            acc.push(Site::Missing(*m));
        },
    }
    assert(acc@ =~= start + sites_root_operation_type_definition(*n));
}

/// Appends the syntax errors of `n` to `acc`.
#[verifier::spinoff_prover]
pub fn collect_schema_extension(n: &SchemaExtension, acc: &mut Vec<Site>)
    ensures
        final(acc)@ == old(acc)@ + sites_schema_extension(*n),
    decreases n, 0nat,
{
    let ghost start = acc@;
    if let Some(x) = &n.directives {
        collect_directives(&x, acc);
    }
    if let Some(x) = &n.type_definitions {
        collect_root_operation_type_definitions(&x, acc);
    }
    assert(acc@ =~= start + sites_schema_extension(*n));
}

/// Appends the syntax errors of `n` to `acc`.
#[verifier::spinoff_prover]
pub fn collect_type_definition(n: &TypeDefinition, acc: &mut Vec<Site>)
    ensures
        final(acc)@ == old(acc)@ + sites_type_definition(*n),
    decreases n, 0nat,
{
    let ghost start = acc@;
    match n {
        TypeDefinition::ScalarTypeDefinition(x) => {
            collect_scalar_type_definition(&(*x), acc);
        },
        TypeDefinition::ObjectTypeDefinition(x) => {
            collect_object_type_definition(&(*x), acc);
        },
        TypeDefinition::InterfaceTypeDefinition(x) => {
            collect_interface_type_definition(&(*x), acc);
        },
        TypeDefinition::UnionTypeDefinition(x) => {
            collect_union_type_definition(&(*x), acc);
        },
        TypeDefinition::EnumTypeDefinition(x) => {
            collect_enum_type_definition(&(*x), acc);
        },
        TypeDefinition::InputObjectTypeDefinition(x) => {
            collect_input_object_type_definition(&(*x), acc);
        },
    }
    assert(acc@ =~= start + sites_type_definition(*n));
}

/// Appends the syntax errors of `n` to `acc`.
#[verifier::spinoff_prover]
pub fn collect_type_extension(n: &TypeExtension, acc: &mut Vec<Site>)
    ensures
        final(acc)@ == old(acc)@ + sites_type_extension(*n),
    decreases n, 0nat,
{
    let ghost start = acc@;
    match n {
        TypeExtension::ScalarTypeExtension(x) => {
            collect_scalar_type_extension(&(*x), acc);
        },
        TypeExtension::ObjectTypeExtension(x) => {
            collect_object_type_extension(&(*x), acc);
        },
        TypeExtension::InterfaceTypeExtension(x) => {
            collect_interface_type_extension(&(*x), acc);
        },
        TypeExtension::UnionTypeExtension(x) => {
            collect_union_type_extension(&(*x), acc);
        },
        TypeExtension::EnumTypeExtension(x) => {
            collect_enum_type_extension(&(*x), acc);
        },
        TypeExtension::InputObjectTypeExtension(x) => {
            collect_input_object_type_extension(&(*x), acc);
        },
    }
    assert(acc@ =~= start + sites_type_extension(*n));
}

/// Appends the syntax errors of `n` to `acc`.
#[verifier::spinoff_prover]
pub fn collect_scalar_type_definition(n: &ScalarTypeDefinition, acc: &mut Vec<Site>)
    ensures
        final(acc)@ == old(acc)@ + sites_scalar_type_definition(*n),
    decreases n, 0nat,
{
    let ghost start = acc@;
    match &n.name {
        Recoverable::Present(x) => {
        },
        Recoverable::Missing(m) => {
            acc.push(Site::Missing(*m));
        },
    }
    if let Some(x) = &n.directives {
        collect_directives(&x, acc);
    }
    assert(acc@ =~= start + sites_scalar_type_definition(*n));
}

/// Appends the syntax errors of `n` to `acc`.
#[verifier::spinoff_prover]
pub fn collect_scalar_type_extension(n: &ScalarTypeExtension, acc: &mut Vec<Site>)
    ensures
        final(acc)@ == old(acc)@ + sites_scalar_type_extension(*n),
    decreases n, 0nat,
{
    let ghost start = acc@;
    match &n.name {
        Recoverable::Present(x) => {
                collect_named_type(&x, acc);
        },
        Recoverable::Missing(m) => {
            acc.push(Site::Missing(*m));
        },
    }
    match &n.directives {
        Recoverable::Present(x) => {
                collect_directives(&x, acc);
        },
        Recoverable::Missing(m) => {
            acc.push(Site::Missing(*m));
        },
    }
    assert(acc@ =~= start + sites_scalar_type_extension(*n));
}

/// Appends the syntax errors of `n` to `acc`.
#[verifier::spinoff_prover]
pub fn collect_object_type_definition(n: &ObjectTypeDefinition, acc: &mut Vec<Site>)
    ensures
        final(acc)@ == old(acc)@ + sites_object_type_definition(*n),
    decreases n, 0nat,
{
    let ghost start = acc@;
    if let Some(x) = &n.description {
        collect_description(&x, acc);
    }
    match &n.name {
        Recoverable::Present(x) => {
        },
        Recoverable::Missing(m) => {
            acc.push(Site::Missing(*m));
        },
    }
    if let Some(x) = &n.implements_interfaces {
        collect_implements_interfaces(&x, acc);
    }
    if let Some(x) = &n.directives {
        collect_directives(&x, acc);
    }
    if let Some(x) = &n.fields_definition {
        collect_fields_definition(&x, acc);
    }
    assert(acc@ =~= start + sites_object_type_definition(*n));
}

/// Appends the syntax errors of `n` to `acc`.
#[verifier::spinoff_prover]
pub fn collect_implements_interfaces(n: &ImplementsInterfaces, acc: &mut Vec<Site>)
    ensures
        final(acc)@ == old(acc)@ + sites_implements_interfaces(*n),
    decreases n, 0nat,
{
    let ghost start = acc@;
    match &n.first {
        Recoverable::Present(x) => {
                collect_named_type(&(*x.0), acc);
        },
        Recoverable::Missing(m) => {
            acc.push(Site::Missing(*m));
        },
    }
    collect_list_punctuator_recoverable_shared_named_type(&n.types.0, acc);
    assert(acc@ =~= start + sites_implements_interfaces(*n));
}

/// Appends the syntax errors of `n` to `acc`.
#[verifier::spinoff_prover]
pub fn collect_fields_definition(n: &FieldsDefinition, acc: &mut Vec<Site>)
    ensures
        final(acc)@ == old(acc)@ + sites_fields_definition(*n),
    decreases n, 0nat,
{
    let ghost start = acc@;
    match &n.braces.1 {
        Recoverable::Present(x) => {
        },
        Recoverable::Missing(m) => {
            acc.push(Site::Missing(*m));
        },
    }
    collect_list_shared_field_definition(&n.definitions.0, acc);
    assert(acc@ =~= start + sites_fields_definition(*n));
}

/// Appends the syntax errors of `n` to `acc`.
#[verifier::spinoff_prover]
pub fn collect_field_definition(n: &FieldDefinition, acc: &mut Vec<Site>)
    ensures
        final(acc)@ == old(acc)@ + sites_field_definition(*n),
    decreases n, 0nat,
{
    let ghost start = acc@;
    if let Some(x) = &n.description {
        collect_description(&x, acc);
    }
    if let Some(x) = &n.arguments_definition {
        collect_arguments_definition(&(*x.0), acc);
    }
    match &n.colon {
        Recoverable::Present(x) => {
        },
        Recoverable::Missing(m) => {
            acc.push(Site::Missing(*m));
        },
    }
    match &n.ty {
        Recoverable::Present(x) => {
                collect_type(&(*x.0), acc);
        },
        Recoverable::Missing(m) => {
            acc.push(Site::Missing(*m));
        },
    }
    if let Some(x) = &n.directives {
        collect_directives(&x, acc);
    }
    assert(acc@ =~= start + sites_field_definition(*n));
}

/// Appends the syntax errors of `n` to `acc`.
#[verifier::spinoff_prover]
pub fn collect_arguments_definition(n: &ArgumentsDefinition, acc: &mut Vec<Site>)
    ensures
        final(acc)@ == old(acc)@ + sites_arguments_definition(*n),
    decreases n, 0nat,
{
    let ghost start = acc@;
    match &n.parens.1 {
        Recoverable::Present(x) => {
        },
        Recoverable::Missing(m) => {
            acc.push(Site::Missing(*m));
        },
    }
    collect_list_shared_input_value_definition(&n.definitions.0, acc);
    assert(acc@ =~= start + sites_arguments_definition(*n));
}

/// Appends the syntax errors of `n` to `acc`.
#[verifier::spinoff_prover]
pub fn collect_input_value_definition(n: &InputValueDefinition, acc: &mut Vec<Site>)
    ensures
        final(acc)@ == old(acc)@ + sites_input_value_definition(*n),
    decreases n, 0nat,
{
    let ghost start = acc@;
    if let Some(x) = &n.description {
        collect_description(&x, acc);
    }
    match &n.colon {
        Recoverable::Present(x) => {
        },
        Recoverable::Missing(m) => {
            acc.push(Site::Missing(*m));
        },
    }
    match &n.ty {
        Recoverable::Present(x) => {
                collect_type(&(*x.0), acc);
        },
        Recoverable::Missing(m) => {
            acc.push(Site::Missing(*m));
        },
    }
    if let Some(x) = &n.default_value {
        collect_default_value(&x, acc);
    }
    if let Some(x) = &n.directives {
        collect_directives(&x, acc);
    }
    assert(acc@ =~= start + sites_input_value_definition(*n));
}

/// Appends the syntax errors of `n` to `acc`.
#[verifier::spinoff_prover]
pub fn collect_object_type_extension(n: &ObjectTypeExtension, acc: &mut Vec<Site>)
    ensures
        final(acc)@ == old(acc)@ + sites_object_type_extension(*n),
    decreases n, 0nat,
{
    let ghost start = acc@;
    match &n.name {
        Recoverable::Present(x) => {
                collect_named_type(&x, acc);
        },
        Recoverable::Missing(m) => {
            acc.push(Site::Missing(*m));
        },
    }
    if let Some(x) = &n.implements_interfaces {
        collect_implements_interfaces(&x, acc);
    }
    if let Some(x) = &n.directives {
        collect_directives(&x, acc);
    }
    if let Some(x) = &n.fields_definition {
        collect_fields_definition(&x, acc);
    }
    assert(acc@ =~= start + sites_object_type_extension(*n));
}

/// Appends the syntax errors of `n` to `acc`.
#[verifier::spinoff_prover]
pub fn collect_interface_type_definition(n: &InterfaceTypeDefinition, acc: &mut Vec<Site>)
    ensures
        final(acc)@ == old(acc)@ + sites_interface_type_definition(*n),
    decreases n, 0nat,
{
    let ghost start = acc@;
    if let Some(x) = &n.description {
        collect_description(&x, acc);
    }
    match &n.name {
        Recoverable::Present(x) => {
        },
        Recoverable::Missing(m) => {
            acc.push(Site::Missing(*m));
        },
    }
    if let Some(x) = &n.implements_interfaces {
        collect_implements_interfaces(&x, acc);
    }
    if let Some(x) = &n.directives {
        collect_directives(&x, acc);
    }
    if let Some(x) = &n.fields_definition {
        collect_fields_definition(&x, acc);
    }
    assert(acc@ =~= start + sites_interface_type_definition(*n));
}

/// Appends the syntax errors of `n` to `acc`.
#[verifier::spinoff_prover]
pub fn collect_interface_type_extension(n: &InterfaceTypeExtension, acc: &mut Vec<Site>)
    ensures
        final(acc)@ == old(acc)@ + sites_interface_type_extension(*n),
    decreases n, 0nat,
{
    let ghost start = acc@;
    match &n.name {
        Recoverable::Present(x) => {
                collect_named_type(&x, acc);
        },
        Recoverable::Missing(m) => {
            acc.push(Site::Missing(*m));
        },
    }
    if let Some(x) = &n.implements_interfaces {
        collect_implements_interfaces(&x, acc);
    }
    if let Some(x) = &n.directives {
        collect_directives(&x, acc);
    }
    if let Some(x) = &n.fields_definition {
        collect_fields_definition(&x, acc);
    }
    assert(acc@ =~= start + sites_interface_type_extension(*n));
}

/// Appends the syntax errors of `n` to `acc`.
#[verifier::spinoff_prover]
pub fn collect_union_type_definition(n: &UnionTypeDefinition, acc: &mut Vec<Site>)
    ensures
        final(acc)@ == old(acc)@ + sites_union_type_definition(*n),
    decreases n, 0nat,
{
    let ghost start = acc@;
    if let Some(x) = &n.description {
        collect_description(&x, acc);
    }
    match &n.name {
        Recoverable::Present(x) => {
        },
        Recoverable::Missing(m) => {
            acc.push(Site::Missing(*m));
        },
    }
    if let Some(x) = &n.directives {
        collect_directives(&x, acc);
    }
    if let Some(x) = &n.member_types {
        collect_union_member_types(&x, acc);
    }
    assert(acc@ =~= start + sites_union_type_definition(*n));
}

/// Appends the syntax errors of `n` to `acc`.
#[verifier::spinoff_prover]
pub fn collect_union_member_types(n: &UnionMemberTypes, acc: &mut Vec<Site>)
    ensures
        final(acc)@ == old(acc)@ + sites_union_member_types(*n),
    decreases n, 0nat,
{
    let ghost start = acc@;
    match &n.first {
        Recoverable::Present(x) => {
                collect_named_type(&(*x.0), acc);
        },
        Recoverable::Missing(m) => {
            acc.push(Site::Missing(*m));
        },
    }
    collect_list_punctuator_recoverable_shared_named_type(&n.types.0, acc);
    assert(acc@ =~= start + sites_union_member_types(*n));
}

/// Appends the syntax errors of `n` to `acc`.
#[verifier::spinoff_prover]
pub fn collect_union_type_extension(n: &UnionTypeExtension, acc: &mut Vec<Site>)
    ensures
        final(acc)@ == old(acc)@ + sites_union_type_extension(*n),
    decreases n, 0nat,
{
    let ghost start = acc@;
    match &n.name {
        Recoverable::Present(x) => {
                collect_named_type(&x, acc);
        },
        Recoverable::Missing(m) => {
            acc.push(Site::Missing(*m));
        },
    }
    if let Some(x) = &n.directives {
        collect_directives(&x, acc);
    }
    if let Some(x) = &n.member_types {
        collect_union_member_types(&x, acc);
    }
    assert(acc@ =~= start + sites_union_type_extension(*n));
}

/// Appends the syntax errors of `n` to `acc`.
#[verifier::spinoff_prover]
pub fn collect_enum_type_definition(n: &EnumTypeDefinition, acc: &mut Vec<Site>)
    ensures
        final(acc)@ == old(acc)@ + sites_enum_type_definition(*n),
    decreases n, 0nat,
{
    let ghost start = acc@;
    if let Some(x) = &n.description {
        collect_description(&x, acc);
    }
    match &n.name {
        Recoverable::Present(x) => {
        },
        Recoverable::Missing(m) => {
            acc.push(Site::Missing(*m));
        },
    }
    if let Some(x) = &n.directives {
        collect_directives(&x, acc);
    }
    if let Some(x) = &n.values_definition {
        collect_enum_values_definition(&x, acc);
    }
    assert(acc@ =~= start + sites_enum_type_definition(*n));
}

/// Appends the syntax errors of `n` to `acc`.
#[verifier::spinoff_prover]
pub fn collect_enum_values_definition(n: &EnumValuesDefinition, acc: &mut Vec<Site>)
    ensures
        final(acc)@ == old(acc)@ + sites_enum_values_definition(*n),
    decreases n, 0nat,
{
    let ghost start = acc@;
    match &n.braces.1 {
        Recoverable::Present(x) => {
        },
        Recoverable::Missing(m) => {
            acc.push(Site::Missing(*m));
        },
    }
    collect_list_shared_enum_value_definition(&n.definitions.0, acc);
    assert(acc@ =~= start + sites_enum_values_definition(*n));
}

/// Appends the syntax errors of `n` to `acc`.
#[verifier::spinoff_prover]
pub fn collect_enum_value_definition(n: &EnumValueDefinition, acc: &mut Vec<Site>)
    ensures
        final(acc)@ == old(acc)@ + sites_enum_value_definition(*n),
    decreases n, 0nat,
{
    let ghost start = acc@;
    if let Some(x) = &n.description {
        collect_description(&x, acc);
    }
    collect_enum_value(&n.enum_value, acc);
    if let Some(x) = &n.directives {
        collect_directives(&x, acc);
    }
    assert(acc@ =~= start + sites_enum_value_definition(*n));
}

/// Appends the syntax errors of `n` to `acc`.
#[verifier::spinoff_prover]
pub fn collect_enum_type_extension(n: &EnumTypeExtension, acc: &mut Vec<Site>)
    ensures
        final(acc)@ == old(acc)@ + sites_enum_type_extension(*n),
    decreases n, 0nat,
{
    let ghost start = acc@;
    match &n.name {
        Recoverable::Present(x) => {
                collect_named_type(&x, acc);
        },
        Recoverable::Missing(m) => {
            acc.push(Site::Missing(*m));
        },
    }
    if let Some(x) = &n.directives {
        collect_directives(&x, acc);
    }
    if let Some(x) = &n.values_definition {
        collect_enum_values_definition(&x, acc);
    }
    assert(acc@ =~= start + sites_enum_type_extension(*n));
}

/// Appends the syntax errors of `n` to `acc`.
#[verifier::spinoff_prover]
pub fn collect_input_object_type_definition(n: &InputObjectTypeDefinition, acc: &mut Vec<Site>)
    ensures
        final(acc)@ == old(acc)@ + sites_input_object_type_definition(*n),
    decreases n, 0nat,
{
    let ghost start = acc@;
    if let Some(x) = &n.description {
        collect_description(&x, acc);
    }
    match &n.name {
        Recoverable::Present(x) => {
        },
        Recoverable::Missing(m) => {
            acc.push(Site::Missing(*m));
        },
    }
    if let Some(x) = &n.directives {
        collect_directives(&x, acc);
    }
    if let Some(x) = &n.fields_definition {
        collect_input_fields_definition(&x, acc);
    }
    assert(acc@ =~= start + sites_input_object_type_definition(*n));
}

/// Appends the syntax errors of `n` to `acc`.
#[verifier::spinoff_prover]
pub fn collect_input_fields_definition(n: &InputFieldsDefinition, acc: &mut Vec<Site>)
    ensures
        final(acc)@ == old(acc)@ + sites_input_fields_definition(*n),
    decreases n, 0nat,
{
    let ghost start = acc@;
    match &n.braces.1 {
        Recoverable::Present(x) => {
        },
        Recoverable::Missing(m) => {
            acc.push(Site::Missing(*m));
        },
    }
    collect_list_shared_input_value_definition(&n.definitions.0, acc);
    assert(acc@ =~= start + sites_input_fields_definition(*n));
}

/// Appends the syntax errors of `n` to `acc`.
#[verifier::spinoff_prover]
pub fn collect_input_object_type_extension(n: &InputObjectTypeExtension, acc: &mut Vec<Site>)
    ensures
        final(acc)@ == old(acc)@ + sites_input_object_type_extension(*n),
    decreases n, 0nat,
{
    let ghost start = acc@;
    match &n.name {
        Recoverable::Present(x) => {
                collect_named_type(&x, acc);
        },
        Recoverable::Missing(m) => {
            acc.push(Site::Missing(*m));
        },
    }
    if let Some(x) = &n.directives {
        collect_directives(&x, acc);
    }
    if let Some(x) = &n.fields_definition {
        collect_input_fields_definition(&x, acc);
    }
    assert(acc@ =~= start + sites_input_object_type_extension(*n));
}

/// Appends the syntax errors of `n` to `acc`.
#[verifier::spinoff_prover]
pub fn collect_directive_definition(n: &DirectiveDefinition, acc: &mut Vec<Site>)
    ensures
        final(acc)@ == old(acc)@ + sites_directive_definition(*n),
    decreases n, 0nat,
{
    let ghost start = acc@;
    if let Some(x) = &n.description {
        collect_description(&x, acc);
    }
    match &n.at {
        Recoverable::Present(x) => {
        },
        Recoverable::Missing(m) => {
            acc.push(Site::Missing(*m));
        },
    }
    match &n.name {
        Recoverable::Present(x) => {
        },
        Recoverable::Missing(m) => {
            acc.push(Site::Missing(*m));
        },
    }
    if let Some(x) = &n.arguments_definition {
        collect_arguments_definition(&(*x.0), acc);
    }
    match &n.locations {
        Recoverable::Present(x) => {
                collect_directive_locations(&x, acc);
        },
        Recoverable::Missing(m) => {
            acc.push(Site::Missing(*m));
        },
    }
    assert(acc@ =~= start + sites_directive_definition(*n));
}

/// Appends the syntax errors of `n` to `acc`.
#[verifier::spinoff_prover]
pub fn collect_directive_locations(n: &DirectiveLocations, acc: &mut Vec<Site>)
    ensures
        final(acc)@ == old(acc)@ + sites_directive_locations(*n),
    decreases n, 0nat,
{
    let ghost start = acc@;
    match &n.first {
        Recoverable::Present(x) => {
                collect_directive_location(&x, acc);
        },
        Recoverable::Missing(m) => {
            acc.push(Site::Missing(*m));
        },
    }
    collect_list_punctuator_recoverable_directive_location(&n.locations.0, acc);
    assert(acc@ =~= start + sites_directive_locations(*n));
}

/// Appends the syntax errors of `n` to `acc`.
#[verifier::spinoff_prover]
pub fn collect_directive_location(n: &DirectiveLocation, acc: &mut Vec<Site>)
    ensures
        final(acc)@ == old(acc)@ + sites_directive_location(*n),
    decreases n, 0nat,
{
    let ghost start = acc@;
    match n {
        DirectiveLocation::ExecutableDirectiveLocation(x) => {
            collect_executable_directive_location(&(*x), acc);
        },
        DirectiveLocation::TypeSystemDirectiveLocation(x) => {
            collect_type_system_directive_location(&(*x), acc);
        },
    }
    assert(acc@ =~= start + sites_directive_location(*n));
}

/// Appends the syntax errors of `n` to `acc`.
#[verifier::spinoff_prover]
pub fn collect_executable_directive_location(n: &ExecutableDirectiveLocation, acc: &mut Vec<Site>)
    ensures
        final(acc)@ == old(acc)@ + sites_executable_directive_location(*n),
    decreases n, 0nat,
{
    let ghost start = acc@;
    match n {
        ExecutableDirectiveLocation::Query(x) => {
        },
        ExecutableDirectiveLocation::Mutation(x) => {
        },
        ExecutableDirectiveLocation::Subscription(x) => {
        },
        ExecutableDirectiveLocation::Field(x) => {
        },
        ExecutableDirectiveLocation::FragmentDefinition(x) => {
        },
        ExecutableDirectiveLocation::FragmentSpread(x) => {
        },
        ExecutableDirectiveLocation::InlineFragment(x) => {
        },
        ExecutableDirectiveLocation::VariableDefinition(x) => {
        },
    }
    assert(acc@ =~= start + sites_executable_directive_location(*n));
}

/// Appends the syntax errors of `n` to `acc`.
#[verifier::spinoff_prover]
pub fn collect_type_system_directive_location(n: &TypeSystemDirectiveLocation, acc: &mut Vec<Site>)
    ensures
        final(acc)@ == old(acc)@ + sites_type_system_directive_location(*n),
    decreases n, 0nat,
{
    let ghost start = acc@;
    match n {
        TypeSystemDirectiveLocation::Schema(x) => {
        },
        TypeSystemDirectiveLocation::Scalar(x) => {
        },
        TypeSystemDirectiveLocation::Object(x) => {
        },
        TypeSystemDirectiveLocation::FieldDefinition(x) => {
        },
        TypeSystemDirectiveLocation::ArgumentDefinition(x) => {
        },
        TypeSystemDirectiveLocation::Interface(x) => {
        },
        TypeSystemDirectiveLocation::Union(x) => {
        },
        TypeSystemDirectiveLocation::Enum(x) => {
        },
        TypeSystemDirectiveLocation::EnumValue(x) => {
        },
        TypeSystemDirectiveLocation::InputObject(x) => {
        },
        TypeSystemDirectiveLocation::InputFieldDefinition(x) => {
        },
    }
    assert(acc@ =~= start + sites_type_system_directive_location(*n));
}

#[verifier::spinoff_prover]
fn collect_list_shared_definition(items: &Vec<Shared<Definition>>, acc: &mut Vec<Site>)
    ensures
        final(acc)@ == old(acc)@ + sites_list_shared_definition(items@),
    decreases items@, 1nat,
{
    let ghost start = acc@;
    let mut i: usize = 0;
    while i < items.len()
        invariant
            i <= items@.len(),
            acc@ == start + sites_list_shared_definition(items@.take(i as int)),
        decreases items.len() - i,
    {
        proof {
            assert(items@.take(i + 1).drop_last() =~= items@.take(i as int));
            assert(items@.take(i + 1).last() == items@[i as int]);
        }
        let ghost before = acc@;
        collect_definition(&(*items[i].0), acc);
        assert(acc@ =~= start + sites_list_shared_definition(items@.take(i + 1)));
        i = i + 1;
    }
    assert(items@.take(i as int) =~= items@);
}

#[verifier::spinoff_prover]
fn collect_list_executable_definition(items: &Vec<ExecutableDefinition>, acc: &mut Vec<Site>)
    ensures
        final(acc)@ == old(acc)@ + sites_list_executable_definition(items@),
    decreases items@, 1nat,
{
    let ghost start = acc@;
    let mut i: usize = 0;
    while i < items.len()
        invariant
            i <= items@.len(),
            acc@ == start + sites_list_executable_definition(items@.take(i as int)),
        decreases items.len() - i,
    {
        proof {
            assert(items@.take(i + 1).drop_last() =~= items@.take(i as int));
            assert(items@.take(i + 1).last() == items@[i as int]);
        }
        let ghost before = acc@;
        collect_executable_definition(&items[i], acc);
        assert(acc@ =~= start + sites_list_executable_definition(items@.take(i + 1)));
        i = i + 1;
    }
    assert(items@.take(i as int) =~= items@);
}

#[verifier::spinoff_prover]
fn collect_list_selection(items: &Vec<Selection>, acc: &mut Vec<Site>)
    ensures
        final(acc)@ == old(acc)@ + sites_list_selection(items@),
    decreases items@, 1nat,
{
    let ghost start = acc@;
    let mut i: usize = 0;
    while i < items.len()
        invariant
            i <= items@.len(),
            acc@ == start + sites_list_selection(items@.take(i as int)),
        decreases items.len() - i,
    {
        proof {
            assert(items@.take(i + 1).drop_last() =~= items@.take(i as int));
            assert(items@.take(i + 1).last() == items@[i as int]);
        }
        let ghost before = acc@;
        collect_selection(&items[i], acc);
        assert(acc@ =~= start + sites_list_selection(items@.take(i + 1)));
        i = i + 1;
    }
    assert(items@.take(i as int) =~= items@);
}

#[verifier::spinoff_prover]
fn collect_list_shared_argument(items: &Vec<Shared<Argument>>, acc: &mut Vec<Site>)
    ensures
        final(acc)@ == old(acc)@ + sites_list_shared_argument(items@),
    decreases items@, 1nat,
{
    let ghost start = acc@;
    let mut i: usize = 0;
    while i < items.len()
        invariant
            i <= items@.len(),
            acc@ == start + sites_list_shared_argument(items@.take(i as int)),
        decreases items.len() - i,
    {
        proof {
            assert(items@.take(i + 1).drop_last() =~= items@.take(i as int));
            assert(items@.take(i + 1).last() == items@[i as int]);
        }
        let ghost before = acc@;
        collect_argument(&(*items[i].0), acc);
        assert(acc@ =~= start + sites_list_shared_argument(items@.take(i + 1)));
        i = i + 1;
    }
    assert(items@.take(i as int) =~= items@);
}

#[verifier::spinoff_prover]
fn collect_list_shared_value(items: &Vec<Shared<Value>>, acc: &mut Vec<Site>)
    ensures
        final(acc)@ == old(acc)@ + sites_list_shared_value(items@),
    decreases items@, 1nat,
{
    let ghost start = acc@;
    let mut i: usize = 0;
    while i < items.len()
        invariant
            i <= items@.len(),
            acc@ == start + sites_list_shared_value(items@.take(i as int)),
        decreases items.len() - i,
    {
        proof {
            assert(items@.take(i + 1).drop_last() =~= items@.take(i as int));
            assert(items@.take(i + 1).last() == items@[i as int]);
        }
        let ghost before = acc@;
        collect_value(&(*items[i].0), acc);
        assert(acc@ =~= start + sites_list_shared_value(items@.take(i + 1)));
        i = i + 1;
    }
    assert(items@.take(i as int) =~= items@);
}

#[verifier::spinoff_prover]
fn collect_list_object_field(items: &Vec<ObjectField>, acc: &mut Vec<Site>)
    ensures
        final(acc)@ == old(acc)@ + sites_list_object_field(items@),
    decreases items@, 1nat,
{
    let ghost start = acc@;
    let mut i: usize = 0;
    while i < items.len()
        invariant
            i <= items@.len(),
            acc@ == start + sites_list_object_field(items@.take(i as int)),
        decreases items.len() - i,
    {
        proof {
            assert(items@.take(i + 1).drop_last() =~= items@.take(i as int));
            assert(items@.take(i + 1).last() == items@[i as int]);
        }
        let ghost before = acc@;
        collect_object_field(&items[i], acc);
        assert(acc@ =~= start + sites_list_object_field(items@.take(i + 1)));
        i = i + 1;
    }
    assert(items@.take(i as int) =~= items@);
}

#[verifier::spinoff_prover]
fn collect_list_shared_variable_definition(items: &Vec<Shared<VariableDefinition>>, acc: &mut Vec<Site>)
    ensures
        final(acc)@ == old(acc)@ + sites_list_shared_variable_definition(items@),
    decreases items@, 1nat,
{
    let ghost start = acc@;
    let mut i: usize = 0;
    while i < items.len()
        invariant
            i <= items@.len(),
            acc@ == start + sites_list_shared_variable_definition(items@.take(i as int)),
        decreases items.len() - i,
    {
        proof {
            assert(items@.take(i + 1).drop_last() =~= items@.take(i as int));
            assert(items@.take(i + 1).last() == items@[i as int]);
        }
        let ghost before = acc@;
        collect_variable_definition(&(*items[i].0), acc);
        assert(acc@ =~= start + sites_list_shared_variable_definition(items@.take(i + 1)));
        i = i + 1;
    }
    assert(items@.take(i as int) =~= items@);
}

#[verifier::spinoff_prover]
fn collect_list_shared_directive(items: &Vec<Shared<Directive>>, acc: &mut Vec<Site>)
    ensures
        final(acc)@ == old(acc)@ + sites_list_shared_directive(items@),
    decreases items@, 1nat,
{
    let ghost start = acc@;
    let mut i: usize = 0;
    while i < items.len()
        invariant
            i <= items@.len(),
            acc@ == start + sites_list_shared_directive(items@.take(i as int)),
        decreases items.len() - i,
    {
        proof {
            assert(items@.take(i + 1).drop_last() =~= items@.take(i as int));
            assert(items@.take(i + 1).last() == items@[i as int]);
        }
        let ghost before = acc@;
        collect_directive(&(*items[i].0), acc);
        assert(acc@ =~= start + sites_list_shared_directive(items@.take(i + 1)));
        i = i + 1;
    }
    assert(items@.take(i as int) =~= items@);
}

#[verifier::spinoff_prover]
fn collect_list_type_system_definition(items: &Vec<TypeSystemDefinition>, acc: &mut Vec<Site>)
    ensures
        final(acc)@ == old(acc)@ + sites_list_type_system_definition(items@),
    decreases items@, 1nat,
{
    let ghost start = acc@;
    let mut i: usize = 0;
    while i < items.len()
        invariant
            i <= items@.len(),
            acc@ == start + sites_list_type_system_definition(items@.take(i as int)),
        decreases items.len() - i,
    {
        proof {
            assert(items@.take(i + 1).drop_last() =~= items@.take(i as int));
            assert(items@.take(i + 1).last() == items@[i as int]);
        }
        let ghost before = acc@;
        collect_type_system_definition(&items[i], acc);
        assert(acc@ =~= start + sites_list_type_system_definition(items@.take(i + 1)));
        i = i + 1;
    }
    assert(items@.take(i as int) =~= items@);
}

#[verifier::spinoff_prover]
fn collect_list_type_system_definition_or_extension(items: &Vec<TypeSystemDefinitionOrExtension>, acc: &mut Vec<Site>)
    ensures
        final(acc)@ == old(acc)@ + sites_list_type_system_definition_or_extension(items@),
    decreases items@, 1nat,
{
    let ghost start = acc@;
    let mut i: usize = 0;
    while i < items.len()
        invariant
            i <= items@.len(),
            acc@ == start + sites_list_type_system_definition_or_extension(items@.take(i as int)),
        decreases items.len() - i,
    {
        proof {
            assert(items@.take(i + 1).drop_last() =~= items@.take(i as int));
            assert(items@.take(i + 1).last() == items@[i as int]);
        }
        let ghost before = acc@;
        collect_type_system_definition_or_extension(&items[i], acc);
        assert(acc@ =~= start + sites_list_type_system_definition_or_extension(items@.take(i + 1)));
        i = i + 1;
    }
    assert(items@.take(i as int) =~= items@);
}

#[verifier::spinoff_prover]
fn collect_list_root_operation_type_definition(items: &Vec<RootOperationTypeDefinition>, acc: &mut Vec<Site>)
    ensures
        final(acc)@ == old(acc)@ + sites_list_root_operation_type_definition(items@),
    decreases items@, 1nat,
{
    let ghost start = acc@;
    let mut i: usize = 0;
    while i < items.len()
        invariant
            i <= items@.len(),
            acc@ == start + sites_list_root_operation_type_definition(items@.take(i as int)),
        decreases items.len() - i,
    {
        proof {
            assert(items@.take(i + 1).drop_last() =~= items@.take(i as int));
            assert(items@.take(i + 1).last() == items@[i as int]);
        }
        let ghost before = acc@;
        collect_root_operation_type_definition(&items[i], acc);
        assert(acc@ =~= start + sites_list_root_operation_type_definition(items@.take(i + 1)));
        i = i + 1;
    }
    assert(items@.take(i as int) =~= items@);
}

#[verifier::spinoff_prover]
fn collect_list_punctuator_recoverable_shared_named_type(items: &Vec<(Punctuator, Recoverable<Shared<NamedType>>)>, acc: &mut Vec<Site>)
    ensures
        final(acc)@ == old(acc)@ + sites_list_punctuator_recoverable_shared_named_type(items@),
    decreases items@, 1nat,
{
    let ghost start = acc@;
    let mut i: usize = 0;
    while i < items.len()
        invariant
            i <= items@.len(),
            acc@ == start + sites_list_punctuator_recoverable_shared_named_type(items@.take(i as int)),
        decreases items.len() - i,
    {
        proof {
            assert(items@.take(i + 1).drop_last() =~= items@.take(i as int));
            assert(items@.take(i + 1).last() == items@[i as int]);
        }
        let ghost before = acc@;
        match &items[i].1 {
            Recoverable::Present(x) => {
                    collect_named_type(&(*x.0), acc);
            },
            Recoverable::Missing(m) => {
                acc.push(Site::Missing(*m));
            },
        }
        assert(acc@ =~= start + sites_list_punctuator_recoverable_shared_named_type(items@.take(i + 1)));
        i = i + 1;
    }
    assert(items@.take(i as int) =~= items@);
}

#[verifier::spinoff_prover]
fn collect_list_shared_field_definition(items: &Vec<Shared<FieldDefinition>>, acc: &mut Vec<Site>)
    ensures
        final(acc)@ == old(acc)@ + sites_list_shared_field_definition(items@),
    decreases items@, 1nat,
{
    let ghost start = acc@;
    let mut i: usize = 0;
    while i < items.len()
        invariant
            i <= items@.len(),
            acc@ == start + sites_list_shared_field_definition(items@.take(i as int)),
        decreases items.len() - i,
    {
        proof {
            assert(items@.take(i + 1).drop_last() =~= items@.take(i as int));
            assert(items@.take(i + 1).last() == items@[i as int]);
        }
        let ghost before = acc@;
        collect_field_definition(&(*items[i].0), acc);
        assert(acc@ =~= start + sites_list_shared_field_definition(items@.take(i + 1)));
        i = i + 1;
    }
    assert(items@.take(i as int) =~= items@);
}

#[verifier::spinoff_prover]
fn collect_list_shared_input_value_definition(items: &Vec<Shared<InputValueDefinition>>, acc: &mut Vec<Site>)
    ensures
        final(acc)@ == old(acc)@ + sites_list_shared_input_value_definition(items@),
    decreases items@, 1nat,
{
    let ghost start = acc@;
    let mut i: usize = 0;
    while i < items.len()
        invariant
            i <= items@.len(),
            acc@ == start + sites_list_shared_input_value_definition(items@.take(i as int)),
        decreases items.len() - i,
    {
        proof {
            assert(items@.take(i + 1).drop_last() =~= items@.take(i as int));
            assert(items@.take(i + 1).last() == items@[i as int]);
        }
        let ghost before = acc@;
        collect_input_value_definition(&(*items[i].0), acc);
        assert(acc@ =~= start + sites_list_shared_input_value_definition(items@.take(i + 1)));
        i = i + 1;
    }
    assert(items@.take(i as int) =~= items@);
}

#[verifier::spinoff_prover]
fn collect_list_shared_enum_value_definition(items: &Vec<Shared<EnumValueDefinition>>, acc: &mut Vec<Site>)
    ensures
        final(acc)@ == old(acc)@ + sites_list_shared_enum_value_definition(items@),
    decreases items@, 1nat,
{
    let ghost start = acc@;
    let mut i: usize = 0;
    while i < items.len()
        invariant
            i <= items@.len(),
            acc@ == start + sites_list_shared_enum_value_definition(items@.take(i as int)),
        decreases items.len() - i,
    {
        proof {
            assert(items@.take(i + 1).drop_last() =~= items@.take(i as int));
            assert(items@.take(i + 1).last() == items@[i as int]);
        }
        let ghost before = acc@;
        collect_enum_value_definition(&(*items[i].0), acc);
        assert(acc@ =~= start + sites_list_shared_enum_value_definition(items@.take(i + 1)));
        i = i + 1;
    }
    assert(items@.take(i as int) =~= items@);
}

#[verifier::spinoff_prover]
fn collect_list_punctuator_recoverable_directive_location(items: &Vec<(Punctuator, Recoverable<DirectiveLocation>)>, acc: &mut Vec<Site>)
    ensures
        final(acc)@ == old(acc)@ + sites_list_punctuator_recoverable_directive_location(items@),
    decreases items@, 1nat,
{
    let ghost start = acc@;
    let mut i: usize = 0;
    while i < items.len()
        invariant
            i <= items@.len(),
            acc@ == start + sites_list_punctuator_recoverable_directive_location(items@.take(i as int)),
        decreases items.len() - i,
    {
        proof {
            assert(items@.take(i + 1).drop_last() =~= items@.take(i as int));
            assert(items@.take(i + 1).last() == items@[i as int]);
        }
        let ghost before = acc@;
        match &items[i].1 {
            Recoverable::Present(x) => {
                    collect_directive_location(&x, acc);
            },
            Recoverable::Missing(m) => {
                acc.push(Site::Missing(*m));
            },
        }
        assert(acc@ =~= start + sites_list_punctuator_recoverable_directive_location(items@.take(i + 1)));
        i = i + 1;
    }
    assert(items@.take(i as int) =~= items@);
}

} // verus!
