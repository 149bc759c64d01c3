use vstd::prelude::*;

use crate::ast::context::Shared;
use crate::ast::types::{
    Alias, Argument, Arguments, ArgumentsDefinition, BooleanValue, DefaultValue, Definition, Description, Directive, DirectiveDefinition, DirectiveLocation, DirectiveLocations, Directives, Document, EnumTypeDefinition, EnumTypeExtension, EnumValue, EnumValueDefinition, EnumValuesDefinition, ExecutableDefinition, ExecutableDirectiveLocation, ExecutableDocument, Field, FieldDefinition, FieldsDefinition, FragmentDefinition, FragmentSpread, ImplementsInterfaces, InlineFragment, InputFieldsDefinition, InputObjectTypeDefinition, InputObjectTypeExtension, InputValueDefinition, InterfaceTypeDefinition, InterfaceTypeExtension, ListType, ListValue, Missing, NamedType, NonNullType, NullValue, ObjectField, ObjectTypeDefinition, ObjectTypeExtension, ObjectValue, OperationDefinition, OperationType, Recoverable, RootOperationTypeDefinition, RootOperationTypeDefinitions, ScalarTypeDefinition, ScalarTypeExtension, SchemaDefinition, SchemaExtension, Selection, SelectionSet, Type, TypeCondition, TypeDefinition, TypeExtension, TypeSystemDefinition, TypeSystemDefinitionOrExtension, TypeSystemDirectiveLocation, TypeSystemDocument, TypeSystemExtension, TypeSystemExtensionDocument, UnionMemberTypes, UnionTypeDefinition, UnionTypeExtension, Value, Variable, VariableDefinition, VariableDefinitions,
};
use crate::lex::token::Punctuator;

use super::dependency::{definition_product, dependency_view, Dependency, Producer};

verus! {

/// The visitor that records what definitions need: the root type of each
/// operation, and each named type.
pub struct Tracker;

impl Tracker {
    /// Records the root type that an operation needs.
    pub fn visit_operation_definition(&self, node: &OperationDefinition, accumulator: &mut Vec<Dependency>)
        ensures
            final(accumulator)@ == old(accumulator)@.push(operation_dependency(node.ty)),
    {
        accumulator.push(
            match node.ty {
                Some(OperationType::Mutation(_)) => Dependency::Mutation,
                Some(OperationType::Subscription(_)) => Dependency::Subscription,
                _ => Dependency::Query,
            },
        );
    }

    /// Records the type that a named type names.
    pub fn visit_named_type(&self, node: &NamedType, accumulator: &mut Vec<Dependency>)
        ensures
            final(accumulator)@ == old(accumulator)@.push(Dependency::Type(node.0.0.source)),
    {
        accumulator.push(Dependency::Type(node.0.0.source.clone()));
    }
}

/// A definition that needs things from the rest of a document.
pub trait Consumer {
    /// What the definition provides, then what it needs, spelled out.
    spec fn consumed(&self) -> Seq<(int, Seq<char>)>;

    /// What the definition provides, then what it needs: the root type of
    /// each operation and each named type, in the order of a traversal.
    fn consumes(&self) -> (r: Vec<Dependency>)
        ensures
            r@.map_values(|d: Dependency| dependency_view(d)) == self.consumed(),
    ;
}

/// The sequence of an optional item.
pub open spec fn optional<A>(o: Option<A>) -> Seq<A> {
    match o {
        Some(a) => seq![a],
        None => Seq::empty(),
    }
}

impl Consumer for Definition {
    open spec fn consumed(&self) -> Seq<(int, Seq<char>)> {
        optional(definition_product(*self)) + uses_definition(*self).map_values(
            |d: Dependency| dependency_view(d),
        )
    }

    fn consumes(&self) -> (r: Vec<Dependency>) {
        let mut r: Vec<Dependency> = Vec::new();
        let product = self.product();
        match product {
            Some(p) => r.push(p),
            None => {},
        }
        let ghost first = r@;
        track_definition(self, &mut r);
        assert(r@ =~= first + uses_definition(*self));
        assert(first.map_values(|d: Dependency| dependency_view(d)) =~= optional(
            definition_product(*self),
        ));
        assert(r@.map_values(|d: Dependency| dependency_view(d)) =~= first.map_values(
            |d: Dependency| dependency_view(d),
        ) + uses_definition(*self).map_values(|d: Dependency| dependency_view(d)));
        r
    }
}

/// What an operation of an optional kind needs: the root type of that
/// kind, where an operation of no kind is a query.
pub open spec fn operation_dependency(ty: Option<OperationType>) -> Dependency {
    match ty {
        Some(OperationType::Mutation(_)) => Dependency::Mutation,
        Some(OperationType::Subscription(_)) => Dependency::Subscription,
        _ => Dependency::Query,
    }
}

/// What a `Document` needs from the rest of a document, in the order of a
/// traversal: the root type of each operation and each named type.
pub open spec fn uses_document(n: Document) -> Seq<Dependency>
    decreases n, 0nat,
{
    (uses_list_shared_definition(n.definitions.0@))
}

/// What a `Definition` needs from the rest of a document, in the order of a
/// traversal: the root type of each operation and each named type.
pub open spec fn uses_definition(n: Definition) -> Seq<Dependency>
    decreases n, 0nat,
{
    match n {
        Definition::ExecutableDefinition(x) => uses_executable_definition(x),
        Definition::TypeSystemDefinitionOrExtension(x) => uses_type_system_definition_or_extension(x),
    }
}

/// What a `ExecutableDocument` needs from the rest of a document, in the order of a
/// traversal: the root type of each operation and each named type.
pub open spec fn uses_executable_document(n: ExecutableDocument) -> Seq<Dependency>
    decreases n, 0nat,
{
    (uses_list_executable_definition(n.definitions.0@))
}

/// What a `ExecutableDefinition` needs from the rest of a document, in the order of a
/// traversal: the root type of each operation and each named type.
pub open spec fn uses_executable_definition(n: ExecutableDefinition) -> Seq<Dependency>
    decreases n, 0nat,
{
    match n {
        ExecutableDefinition::OperationDefinition(x) => uses_operation_definition(*x.0),
        ExecutableDefinition::FragmentDefinition(x) => uses_fragment_definition(*x.0),
    }
}

/// What a `OperationDefinition` needs from the rest of a document, in the order of a
/// traversal: the root type of each operation and each named type.
pub open spec fn uses_operation_definition(n: OperationDefinition) -> Seq<Dependency>
    decreases n, 0nat,
{
    seq![operation_dependency(n.ty)] + ((match n.ty { Some(x) => uses_operation_type(x), None => Seq::empty() }) + (match n.variable_definitions { Some(x) => uses_variable_definitions(x), None => Seq::empty() }) + (match n.directives { Some(x) => uses_directives(x), None => Seq::empty() }) + (match n.selection_set { Recoverable::Present(x) => uses_selection_set(*x.0), Recoverable::Missing(_) => Seq::empty() }))
}

/// What a `OperationType` needs from the rest of a document, in the order of a
/// traversal: the root type of each operation and each named type.
pub open spec fn uses_operation_type(n: OperationType) -> Seq<Dependency>
    decreases n, 0nat,
{
    match n {
        OperationType::Query(x) => Seq::empty(),
        OperationType::Mutation(x) => Seq::empty(),
        OperationType::Subscription(x) => Seq::empty(),
    }
}

/// What a `SelectionSet` needs from the rest of a document, in the order of a
/// traversal: the root type of each operation and each named type.
pub open spec fn uses_selection_set(n: SelectionSet) -> Seq<Dependency>
    decreases n, 0nat,
{
    (uses_list_selection(n.selections.0@))
}

/// What a `Selection` needs from the rest of a document, in the order of a
/// traversal: the root type of each operation and each named type.
pub open spec fn uses_selection(n: Selection) -> Seq<Dependency>
    decreases n, 0nat,
{
    match n {
        Selection::Field(x) => uses_field(*x.0),
        Selection::FragmentSpread(x) => uses_fragment_spread(*x.0),
        Selection::InlineFragment(x) => uses_inline_fragment(x),
    }
}

/// What a `Field` needs from the rest of a document, in the order of a
/// traversal: the root type of each operation and each named type.
pub open spec fn uses_field(n: Field) -> Seq<Dependency>
    decreases n, 0nat,
{
    (match n.alias { Some(x) => uses_alias(x), None => Seq::empty() }) + (match n.arguments { Some(x) => uses_arguments(*x.0), None => Seq::empty() }) + (match n.directives { Some(x) => uses_directives(x), None => Seq::empty() }) + (match n.selection_set { Some(x) => uses_selection_set(*x.0), None => Seq::empty() })
}

/// What a `Alias` needs from the rest of a document, in the order of a
/// traversal: the root type of each operation and each named type.
pub open spec fn uses_alias(n: Alias) -> Seq<Dependency>
    decreases n, 0nat,
{
    Seq::empty()
}

/// What a `Arguments` needs from the rest of a document, in the order of a
/// traversal: the root type of each operation and each named type.
pub open spec fn uses_arguments(n: Arguments) -> Seq<Dependency>
    decreases n, 0nat,
{
    (uses_list_shared_argument(n.items.0@))
}

/// What a `Argument` needs from the rest of a document, in the order of a
/// traversal: the root type of each operation and each named type.
pub open spec fn uses_argument(n: Argument) -> Seq<Dependency>
    decreases n, 0nat,
{
    (match n.value { Recoverable::Present(x) => uses_value(*x.0), Recoverable::Missing(_) => Seq::empty() })
}

/// What a `FragmentSpread` needs from the rest of a document, in the order of a
/// traversal: the root type of each operation and each named type.
pub open spec fn uses_fragment_spread(n: FragmentSpread) -> Seq<Dependency>
    decreases n, 0nat,
{
    (match n.directives { Some(x) => uses_directives(x), None => Seq::empty() })
}

/// What a `InlineFragment` needs from the rest of a document, in the order of a
/// traversal: the root type of each operation and each named type.
pub open spec fn uses_inline_fragment(n: InlineFragment) -> Seq<Dependency>
    decreases n, 0nat,
{
    (match n.type_condition { Some(x) => uses_type_condition(x), None => Seq::empty() }) + (match n.directives { Some(x) => uses_directives(x), None => Seq::empty() }) + (match n.selection_set { Recoverable::Present(x) => uses_selection_set(*x.0), Recoverable::Missing(_) => Seq::empty() })
}

/// What a `FragmentDefinition` needs from the rest of a document, in the order of a
/// traversal: the root type of each operation and each named type.
pub open spec fn uses_fragment_definition(n: FragmentDefinition) -> Seq<Dependency>
    decreases n, 0nat,
{
    (match n.type_condition { Recoverable::Present(x) => uses_type_condition(x), Recoverable::Missing(_) => Seq::empty() }) + (match n.directives { Some(x) => uses_directives(x), None => Seq::empty() }) + (match n.selection_set { Recoverable::Present(x) => uses_selection_set(*x.0), Recoverable::Missing(_) => Seq::empty() })
}

/// What a `TypeCondition` needs from the rest of a document, in the order of a
/// traversal: the root type of each operation and each named type.
pub open spec fn uses_type_condition(n: TypeCondition) -> Seq<Dependency>
    decreases n, 0nat,
{
    (match n.named_type { Recoverable::Present(x) => uses_named_type(x), Recoverable::Missing(_) => Seq::empty() })
}

/// What a `Value` needs from the rest of a document, in the order of a
/// traversal: the root type of each operation and each named type.
pub open spec fn uses_value(n: Value) -> Seq<Dependency>
    decreases n, 0nat,
{
    match n {
        Value::Variable(x) => uses_variable(x),
        Value::IntValue(x) => Seq::empty(),
        Value::FloatValue(x) => Seq::empty(),
        Value::StringValue(x) => Seq::empty(),
        Value::BooleanValue(x) => uses_boolean_value(x),
        Value::NullValue(x) => uses_null_value(x),
        Value::EnumValue(x) => uses_enum_value(x),
        Value::ListValue(x) => uses_list_value(x),
        Value::ObjectValue(x) => uses_object_value(x),
    }
}

/// What a `BooleanValue` needs from the rest of a document, in the order of a
/// traversal: the root type of each operation and each named type.
pub open spec fn uses_boolean_value(n: BooleanValue) -> Seq<Dependency>
    decreases n, 0nat,
{
    match n {
        BooleanValue::True(x) => Seq::empty(),
        BooleanValue::False(x) => Seq::empty(),
    }
}

/// What a `NullValue` needs from the rest of a document, in the order of a
/// traversal: the root type of each operation and each named type.
pub open spec fn uses_null_value(n: NullValue) -> Seq<Dependency>
    decreases n, 0nat,
{
    Seq::empty()
}

/// What a `EnumValue` needs from the rest of a document, in the order of a
/// traversal: the root type of each operation and each named type.
pub open spec fn uses_enum_value(n: EnumValue) -> Seq<Dependency>
    decreases n, 0nat,
{
    Seq::empty()
}

/// What a `ListValue` needs from the rest of a document, in the order of a
/// traversal: the root type of each operation and each named type.
pub open spec fn uses_list_value(n: ListValue) -> Seq<Dependency>
    decreases n, 0nat,
{
    (uses_list_shared_value(n.values.0@))
}

/// What a `ObjectValue` needs from the rest of a document, in the order of a
/// traversal: the root type of each operation and each named type.
pub open spec fn uses_object_value(n: ObjectValue) -> Seq<Dependency>
    decreases n, 0nat,
{
    (uses_list_object_field(n.object_fields.0@))
}

/// What a `ObjectField` needs from the rest of a document, in the order of a
/// traversal: the root type of each operation and each named type.
pub open spec fn uses_object_field(n: ObjectField) -> Seq<Dependency>
    decreases n, 0nat,
{
    (match n.value { Recoverable::Present(x) => uses_value(*x.0), Recoverable::Missing(_) => Seq::empty() })
}

/// What a `VariableDefinitions` needs from the rest of a document, in the order of a
/// traversal: the root type of each operation and each named type.
pub open spec fn uses_variable_definitions(n: VariableDefinitions) -> Seq<Dependency>
    decreases n, 0nat,
{
    (uses_list_shared_variable_definition(n.variable_definitions.0@))
}

/// What a `VariableDefinition` needs from the rest of a document, in the order of a
/// traversal: the root type of each operation and each named type.
pub open spec fn uses_variable_definition(n: VariableDefinition) -> Seq<Dependency>
    decreases n, 0nat,
{
    (uses_variable(n.variable)) + (match n.ty { Recoverable::Present(x) => uses_type(*x.0), Recoverable::Missing(_) => Seq::empty() }) + (match n.default_value { Some(x) => uses_default_value(x), None => Seq::empty() }) + (match n.directives { Some(x) => uses_directives(x), None => Seq::empty() })
}

/// What a `Variable` needs from the rest of a document, in the order of a
/// traversal: the root type of each operation and each named type.
pub open spec fn uses_variable(n: Variable) -> Seq<Dependency>
    decreases n, 0nat,
{
    Seq::empty()
}

/// What a `DefaultValue` needs from the rest of a document, in the order of a
/// traversal: the root type of each operation and each named type.
pub open spec fn uses_default_value(n: DefaultValue) -> Seq<Dependency>
    decreases n, 0nat,
{
    (match n.value { Recoverable::Present(x) => uses_value(*x.0), Recoverable::Missing(_) => Seq::empty() })
}

/// What a `Type` needs from the rest of a document, in the order of a
/// traversal: the root type of each operation and each named type.
pub open spec fn uses_type(n: Type) -> Seq<Dependency>
    decreases n, 0nat,
{
    match n {
        Type::Named(x) => uses_named_type(x),
        Type::List(x) => uses_list_type(x),
        Type::NonNull(x) => uses_non_null_type(x),
    }
}

/// What a `NamedType` needs from the rest of a document, in the order of a
/// traversal: the root type of each operation and each named type.
pub open spec fn uses_named_type(n: NamedType) -> Seq<Dependency>
    decreases n, 0nat,
{
    seq![Dependency::Type(n.0.0.source)]
}

/// What a `ListType` needs from the rest of a document, in the order of a
/// traversal: the root type of each operation and each named type.
pub open spec fn uses_list_type(n: ListType) -> Seq<Dependency>
    decreases n, 0nat,
{
    (match n.ty { Recoverable::Present(x) => uses_type(*x.0), Recoverable::Missing(_) => Seq::empty() })
}

/// What a `NonNullType` needs from the rest of a document, in the order of a
/// traversal: the root type of each operation and each named type.
pub open spec fn uses_non_null_type(n: NonNullType) -> Seq<Dependency>
    decreases n, 0nat,
{
    (uses_type(*n.ty.0))
}

/// What a `Directives` needs from the rest of a document, in the order of a
/// traversal: the root type of each operation and each named type.
pub open spec fn uses_directives(n: Directives) -> Seq<Dependency>
    decreases n, 0nat,
{
    (uses_list_shared_directive(n.directives.0@))
}

/// What a `Directive` needs from the rest of a document, in the order of a
/// traversal: the root type of each operation and each named type.
pub open spec fn uses_directive(n: Directive) -> Seq<Dependency>
    decreases n, 0nat,
{
    (match n.arguments { Some(x) => uses_arguments(*x.0), None => Seq::empty() })
}

/// What a `TypeSystemDocument` needs from the rest of a document, in the order of a
/// traversal: the root type of each operation and each named type.
pub open spec fn uses_type_system_document(n: TypeSystemDocument) -> Seq<Dependency>
    decreases n, 0nat,
{
    (uses_list_type_system_definition(n.definitions.0@))
}

/// What a `TypeSystemDefinition` needs from the rest of a document, in the order of a
/// traversal: the root type of each operation and each named type.
pub open spec fn uses_type_system_definition(n: TypeSystemDefinition) -> Seq<Dependency>
    decreases n, 0nat,
{
    match n {
        TypeSystemDefinition::SchemaDefinition(x) => uses_schema_definition(x),
        TypeSystemDefinition::TypeDefinition(x) => uses_type_definition(*x.0),
        TypeSystemDefinition::DirectiveDefinition(x) => uses_directive_definition(*x.0),
        TypeSystemDefinition::Error(x) => uses_description(x),
    }
}

/// What a `TypeSystemExtensionDocument` needs from the rest of a document, in the order of a
/// traversal: the root type of each operation and each named type.
pub open spec fn uses_type_system_extension_document(n: TypeSystemExtensionDocument) -> Seq<Dependency>
    decreases n, 0nat,
{
    (uses_list_type_system_definition_or_extension(n.definitions.0@))
}

/// What a `TypeSystemDefinitionOrExtension` needs from the rest of a document, in the order of a
/// traversal: the root type of each operation and each named type.
pub open spec fn uses_type_system_definition_or_extension(n: TypeSystemDefinitionOrExtension) -> Seq<Dependency>
    decreases n, 0nat,
{
    match n {
        TypeSystemDefinitionOrExtension::TypeSystemDefinition(x) => uses_type_system_definition(x),
        TypeSystemDefinitionOrExtension::TypeSystemExtension(x) => uses_type_system_extension(x),
    }
}

/// What a `TypeSystemExtension` needs from the rest of a document, in the order of a
/// traversal: the root type of each operation and each named type.
pub open spec fn uses_type_system_extension(n: TypeSystemExtension) -> Seq<Dependency>
    decreases n, 0nat,
{
    match n {
        TypeSystemExtension::SchemaExtension(x) => uses_schema_extension(x),
        TypeSystemExtension::TypeExtension(x) => uses_type_extension(*x.0),
        TypeSystemExtension::Error(x) => Seq::empty(),
    }
}

/// What a `Description` needs from the rest of a document, in the order of a
/// traversal: the root type of each operation and each named type.
pub open spec fn uses_description(n: Description) -> Seq<Dependency>
    decreases n, 0nat,
{
    Seq::empty()
}

/// What a `SchemaDefinition` needs from the rest of a document, in the order of a
/// traversal: the root type of each operation and each named type.
pub open spec fn uses_schema_definition(n: SchemaDefinition) -> Seq<Dependency>
    decreases n, 0nat,
{
    (match n.description { Some(x) => uses_description(x), None => Seq::empty() }) + (match n.directives { Some(x) => uses_directives(x), None => Seq::empty() }) + (match n.type_definitions { Recoverable::Present(x) => uses_root_operation_type_definitions(x), Recoverable::Missing(_) => Seq::empty() })
}

/// What a `RootOperationTypeDefinitions` needs from the rest of a document, in the order of a
/// traversal: the root type of each operation and each named type.
pub open spec fn uses_root_operation_type_definitions(n: RootOperationTypeDefinitions) -> Seq<Dependency>
    decreases n, 0nat,
{
    (match n.definitions { Recoverable::Present(x) => uses_list_root_operation_type_definition(x.0@), Recoverable::Missing(_) => Seq::empty() })
}

/// What a `RootOperationTypeDefinition` needs from the rest of a document, in the order of a
/// traversal: the root type of each operation and each named type.
pub open spec fn uses_root_operation_type_definition(n: RootOperationTypeDefinition) -> Seq<Dependency>
    decreases n, 0nat,
{
    (uses_operation_type(n.operation_type)) + (match n.named_type { Recoverable::Present(x) => uses_named_type(x), Recoverable::Missing(_) => Seq::empty() })
}

/// What a `SchemaExtension` needs from the rest of a document, in the order of a
/// traversal: the root type of each operation and each named type.
pub open spec fn uses_schema_extension(n: SchemaExtension) -> Seq<Dependency>
    decreases n, 0nat,
{
    (match n.directives { Some(x) => uses_directives(x), None => Seq::empty() }) + (match n.type_definitions { Some(x) => uses_root_operation_type_definitions(x), None => Seq::empty() })
}

/// What a `TypeDefinition` needs from the rest of a document, in the order of a
/// traversal: the root type of each operation and each named type.
pub open spec fn uses_type_definition(n: TypeDefinition) -> Seq<Dependency>
    decreases n, 0nat,
{
    match n {
        TypeDefinition::ScalarTypeDefinition(x) => uses_scalar_type_definition(x),
        TypeDefinition::ObjectTypeDefinition(x) => uses_object_type_definition(x),
        TypeDefinition::InterfaceTypeDefinition(x) => uses_interface_type_definition(x),
        TypeDefinition::UnionTypeDefinition(x) => uses_union_type_definition(x),
        TypeDefinition::EnumTypeDefinition(x) => uses_enum_type_definition(x),
        TypeDefinition::InputObjectTypeDefinition(x) => uses_input_object_type_definition(x),
    }
}

/// What a `TypeExtension` needs from the rest of a document, in the order of a
/// traversal: the root type of each operation and each named type.
pub open spec fn uses_type_extension(n: TypeExtension) -> Seq<Dependency>
    decreases n, 0nat,
{
    match n {
        TypeExtension::ScalarTypeExtension(x) => uses_scalar_type_extension(x),
        TypeExtension::ObjectTypeExtension(x) => uses_object_type_extension(x),
        TypeExtension::InterfaceTypeExtension(x) => uses_interface_type_extension(x),
        TypeExtension::UnionTypeExtension(x) => uses_union_type_extension(x),
        TypeExtension::EnumTypeExtension(x) => uses_enum_type_extension(x),
        TypeExtension::InputObjectTypeExtension(x) => uses_input_object_type_extension(x),
    }
}

/// What a `ScalarTypeDefinition` needs from the rest of a document, in the order of a
/// traversal: the root type of each operation and each named type.
pub open spec fn uses_scalar_type_definition(n: ScalarTypeDefinition) -> Seq<Dependency>
    decreases n, 0nat,
{
    (match n.directives { Some(x) => uses_directives(x), None => Seq::empty() })
}

/// What a `ScalarTypeExtension` needs from the rest of a document, in the order of a
/// traversal: the root type of each operation and each named type.
pub open spec fn uses_scalar_type_extension(n: ScalarTypeExtension) -> Seq<Dependency>
    decreases n, 0nat,
{
    (match n.name { Recoverable::Present(x) => uses_named_type(x), Recoverable::Missing(_) => Seq::empty() }) + (match n.directives { Recoverable::Present(x) => uses_directives(x), Recoverable::Missing(_) => Seq::empty() })
}

/// What a `ObjectTypeDefinition` needs from the rest of a document, in the order of a
/// traversal: the root type of each operation and each named type.
pub open spec fn uses_object_type_definition(n: ObjectTypeDefinition) -> Seq<Dependency>
    decreases n, 0nat,
{
    (match n.description { Some(x) => uses_description(x), None => Seq::empty() }) + (match n.implements_interfaces { Some(x) => uses_implements_interfaces(x), None => Seq::empty() }) + (match n.directives { Some(x) => uses_directives(x), None => Seq::empty() }) + (match n.fields_definition { Some(x) => uses_fields_definition(x), None => Seq::empty() })
}

/// What a `ImplementsInterfaces` needs from the rest of a document, in the order of a
/// traversal: the root type of each operation and each named type.
pub open spec fn uses_implements_interfaces(n: ImplementsInterfaces) -> Seq<Dependency>
    decreases n, 0nat,
{
    (match n.first { Recoverable::Present(x) => uses_named_type(*x.0), Recoverable::Missing(_) => Seq::empty() }) + (uses_list_punctuator_recoverable_shared_named_type(n.types.0@))
}

/// What a `FieldsDefinition` needs from the rest of a document, in the order of a
/// traversal: the root type of each operation and each named type.
pub open spec fn uses_fields_definition(n: FieldsDefinition) -> Seq<Dependency>
    decreases n, 0nat,
{
    (uses_list_shared_field_definition(n.definitions.0@))
}

/// What a `FieldDefinition` needs from the rest of a document, in the order of a
/// traversal: the root type of each operation and each named type.
pub open spec fn uses_field_definition(n: FieldDefinition) -> Seq<Dependency>
    decreases n, 0nat,
{
    (match n.description { Some(x) => uses_description(x), None => Seq::empty() }) + (match n.arguments_definition { Some(x) => uses_arguments_definition(*x.0), None => Seq::empty() }) + (match n.ty { Recoverable::Present(x) => uses_type(*x.0), Recoverable::Missing(_) => Seq::empty() }) + (match n.directives { Some(x) => uses_directives(x), None => Seq::empty() })
}

/// What a `ArgumentsDefinition` needs from the rest of a document, in the order of a
/// traversal: the root type of each operation and each named type.
pub open spec fn uses_arguments_definition(n: ArgumentsDefinition) -> Seq<Dependency>
    decreases n, 0nat,
{
    (uses_list_shared_input_value_definition(n.definitions.0@))
}

/// What a `InputValueDefinition` needs from the rest of a document, in the order of a
/// traversal: the root type of each operation and each named type.
pub open spec fn uses_input_value_definition(n: InputValueDefinition) -> Seq<Dependency>
    decreases n, 0nat,
{
    (match n.description { Some(x) => uses_description(x), None => Seq::empty() }) + (match n.ty { Recoverable::Present(x) => uses_type(*x.0), Recoverable::Missing(_) => Seq::empty() }) + (match n.default_value { Some(x) => uses_default_value(x), None => Seq::empty() }) + (match n.directives { Some(x) => uses_directives(x), None => Seq::empty() })
}

/// What a `ObjectTypeExtension` needs from the rest of a document, in the order of a
/// traversal: the root type of each operation and each named type.
pub open spec fn uses_object_type_extension(n: ObjectTypeExtension) -> Seq<Dependency>
    decreases n, 0nat,
{
    (match n.name { Recoverable::Present(x) => uses_named_type(x), Recoverable::Missing(_) => Seq::empty() }) + (match n.implements_interfaces { Some(x) => uses_implements_interfaces(x), None => Seq::empty() }) + (match n.directives { Some(x) => uses_directives(x), None => Seq::empty() }) + (match n.fields_definition { Some(x) => uses_fields_definition(x), None => Seq::empty() })
}

/// What a `InterfaceTypeDefinition` needs from the rest of a document, in the order of a
/// traversal: the root type of each operation and each named type.
pub open spec fn uses_interface_type_definition(n: InterfaceTypeDefinition) -> Seq<Dependency>
    decreases n, 0nat,
{
    (match n.description { Some(x) => uses_description(x), None => Seq::empty() }) + (match n.implements_interfaces { Some(x) => uses_implements_interfaces(x), None => Seq::empty() }) + (match n.directives { Some(x) => uses_directives(x), None => Seq::empty() }) + (match n.fields_definition { Some(x) => uses_fields_definition(x), None => Seq::empty() })
}

/// What a `InterfaceTypeExtension` needs from the rest of a document, in the order of a
/// traversal: the root type of each operation and each named type.
pub open spec fn uses_interface_type_extension(n: InterfaceTypeExtension) -> Seq<Dependency>
    decreases n, 0nat,
{
    (match n.name { Recoverable::Present(x) => uses_named_type(x), Recoverable::Missing(_) => Seq::empty() }) + (match n.implements_interfaces { Some(x) => uses_implements_interfaces(x), None => Seq::empty() }) + (match n.directives { Some(x) => uses_directives(x), None => Seq::empty() }) + (match n.fields_definition { Some(x) => uses_fields_definition(x), None => Seq::empty() })
}

/// What a `UnionTypeDefinition` needs from the rest of a document, in the order of a
/// traversal: the root type of each operation and each named type.
pub open spec fn uses_union_type_definition(n: UnionTypeDefinition) -> Seq<Dependency>
    decreases n, 0nat,
{
    (match n.description { Some(x) => uses_description(x), None => Seq::empty() }) + (match n.directives { Some(x) => uses_directives(x), None => Seq::empty() }) + (match n.member_types { Some(x) => uses_union_member_types(x), None => Seq::empty() })
}

/// What a `UnionMemberTypes` needs from the rest of a document, in the order of a
/// traversal: the root type of each operation and each named type.
pub open spec fn uses_union_member_types(n: UnionMemberTypes) -> Seq<Dependency>
    decreases n, 0nat,
{
    (match n.first { Recoverable::Present(x) => uses_named_type(*x.0), Recoverable::Missing(_) => Seq::empty() }) + (uses_list_punctuator_recoverable_shared_named_type(n.types.0@))
}

/// What a `UnionTypeExtension` needs from the rest of a document, in the order of a
/// traversal: the root type of each operation and each named type.
pub open spec fn uses_union_type_extension(n: UnionTypeExtension) -> Seq<Dependency>
    decreases n, 0nat,
{
    (match n.name { Recoverable::Present(x) => uses_named_type(x), Recoverable::Missing(_) => Seq::empty() }) + (match n.directives { Some(x) => uses_directives(x), None => Seq::empty() }) + (match n.member_types { Some(x) => uses_union_member_types(x), None => Seq::empty() })
}

/// What a `EnumTypeDefinition` needs from the rest of a document, in the order of a
/// traversal: the root type of each operation and each named type.
pub open spec fn uses_enum_type_definition(n: EnumTypeDefinition) -> Seq<Dependency>
    decreases n, 0nat,
{
    (match n.description { Some(x) => uses_description(x), None => Seq::empty() }) + (match n.directives { Some(x) => uses_directives(x), None => Seq::empty() }) + (match n.values_definition { Some(x) => uses_enum_values_definition(x), None => Seq::empty() })
}

/// What a `EnumValuesDefinition` needs from the rest of a document, in the order of a
/// traversal: the root type of each operation and each named type.
pub open spec fn uses_enum_values_definition(n: EnumValuesDefinition) -> Seq<Dependency>
    decreases n, 0nat,
{
    (uses_list_shared_enum_value_definition(n.definitions.0@))
}

/// What a `EnumValueDefinition` needs from the rest of a document, in the order of a
/// traversal: the root type of each operation and each named type.
pub open spec fn uses_enum_value_definition(n: EnumValueDefinition) -> Seq<Dependency>
    decreases n, 0nat,
{
    (match n.description { Some(x) => uses_description(x), None => Seq::empty() }) + (uses_enum_value(n.enum_value)) + (match n.directives { Some(x) => uses_directives(x), None => Seq::empty() })
}

/// What a `EnumTypeExtension` needs from the rest of a document, in the order of a
/// traversal: the root type of each operation and each named type.
pub open spec fn uses_enum_type_extension(n: EnumTypeExtension) -> Seq<Dependency>
    decreases n, 0nat,
{
    (match n.name { Recoverable::Present(x) => uses_named_type(x), Recoverable::Missing(_) => Seq::empty() }) + (match n.directives { Some(x) => uses_directives(x), None => Seq::empty() }) + (match n.values_definition { Some(x) => uses_enum_values_definition(x), None => Seq::empty() })
}

/// What a `InputObjectTypeDefinition` needs from the rest of a document, in the order of a
/// traversal: the root type of each operation and each named type.
pub open spec fn uses_input_object_type_definition(n: InputObjectTypeDefinition) -> Seq<Dependency>
    decreases n, 0nat,
{
    (match n.description { Some(x) => uses_description(x), None => Seq::empty() }) + (match n.directives { Some(x) => uses_directives(x), None => Seq::empty() }) + (match n.fields_definition { Some(x) => uses_input_fields_definition(x), None => Seq::empty() })
}

/// What a `InputFieldsDefinition` needs from the rest of a document, in the order of a
/// traversal: the root type of each operation and each named type.
pub open spec fn uses_input_fields_definition(n: InputFieldsDefinition) -> Seq<Dependency>
    decreases n, 0nat,
{
    (uses_list_shared_input_value_definition(n.definitions.0@))
}

/// What a `InputObjectTypeExtension` needs from the rest of a document, in the order of a
/// traversal: the root type of each operation and each named type.
pub open spec fn uses_input_object_type_extension(n: InputObjectTypeExtension) -> Seq<Dependency>
    decreases n, 0nat,
{
    (match n.name { Recoverable::Present(x) => uses_named_type(x), Recoverable::Missing(_) => Seq::empty() }) + (match n.directives { Some(x) => uses_directives(x), None => Seq::empty() }) + (match n.fields_definition { Some(x) => uses_input_fields_definition(x), None => Seq::empty() })
}

/// What a `DirectiveDefinition` needs from the rest of a document, in the order of a
/// traversal: the root type of each operation and each named type.
pub open spec fn uses_directive_definition(n: DirectiveDefinition) -> Seq<Dependency>
    decreases n, 0nat,
{
    (match n.description { Some(x) => uses_description(x), None => Seq::empty() }) + (match n.arguments_definition { Some(x) => uses_arguments_definition(*x.0), None => Seq::empty() }) + (match n.locations { Recoverable::Present(x) => uses_directive_locations(x), Recoverable::Missing(_) => Seq::empty() })
}

/// What a `DirectiveLocations` needs from the rest of a document, in the order of a
/// traversal: the root type of each operation and each named type.
pub open spec fn uses_directive_locations(n: DirectiveLocations) -> Seq<Dependency>
    decreases n, 0nat,
{
    (match n.first { Recoverable::Present(x) => uses_directive_location(x), Recoverable::Missing(_) => Seq::empty() }) + (uses_list_punctuator_recoverable_directive_location(n.locations.0@))
}

/// What a `DirectiveLocation` needs from the rest of a document, in the order of a
/// traversal: the root type of each operation and each named type.
pub open spec fn uses_directive_location(n: DirectiveLocation) -> Seq<Dependency>
    decreases n, 0nat,
{
    match n {
        DirectiveLocation::ExecutableDirectiveLocation(x) => uses_executable_directive_location(x),
        DirectiveLocation::TypeSystemDirectiveLocation(x) => uses_type_system_directive_location(x),
    }
}

/// What a `ExecutableDirectiveLocation` needs from the rest of a document, in the order of a
/// traversal: the root type of each operation and each named type.
pub open spec fn uses_executable_directive_location(n: ExecutableDirectiveLocation) -> Seq<Dependency>
    decreases n, 0nat,
{
    match n {
        ExecutableDirectiveLocation::Query(x) => Seq::empty(),
        ExecutableDirectiveLocation::Mutation(x) => Seq::empty(),
        ExecutableDirectiveLocation::Subscription(x) => Seq::empty(),
        ExecutableDirectiveLocation::Field(x) => Seq::empty(),
        ExecutableDirectiveLocation::FragmentDefinition(x) => Seq::empty(),
        ExecutableDirectiveLocation::FragmentSpread(x) => Seq::empty(),
        ExecutableDirectiveLocation::InlineFragment(x) => Seq::empty(),
        ExecutableDirectiveLocation::VariableDefinition(x) => Seq::empty(),
    }
}

/// What a `TypeSystemDirectiveLocation` needs from the rest of a document, in the order of a
/// traversal: the root type of each operation and each named type.
pub open spec fn uses_type_system_directive_location(n: TypeSystemDirectiveLocation) -> Seq<Dependency>
    decreases n, 0nat,
{
    match n {
        TypeSystemDirectiveLocation::Schema(x) => Seq::empty(),
        TypeSystemDirectiveLocation::Scalar(x) => Seq::empty(),
        TypeSystemDirectiveLocation::Object(x) => Seq::empty(),
        TypeSystemDirectiveLocation::FieldDefinition(x) => Seq::empty(),
        TypeSystemDirectiveLocation::ArgumentDefinition(x) => Seq::empty(),
        TypeSystemDirectiveLocation::Interface(x) => Seq::empty(),
        TypeSystemDirectiveLocation::Union(x) => Seq::empty(),
        TypeSystemDirectiveLocation::Enum(x) => Seq::empty(),
        TypeSystemDirectiveLocation::EnumValue(x) => Seq::empty(),
        TypeSystemDirectiveLocation::InputObject(x) => Seq::empty(),
        TypeSystemDirectiveLocation::InputFieldDefinition(x) => Seq::empty(),
    }
}

pub open spec fn uses_list_shared_definition(s: Seq<Shared<Definition>>) -> Seq<Dependency>
    decreases s, 1nat,
{
    if s.len() == 0 {
        Seq::empty()
    } else {
        uses_list_shared_definition(s.drop_last()) + (uses_definition(*s.last().0))
    }
}

pub open spec fn uses_list_executable_definition(s: Seq<ExecutableDefinition>) -> Seq<Dependency>
    decreases s, 1nat,
{
    if s.len() == 0 {
        Seq::empty()
    } else {
        uses_list_executable_definition(s.drop_last()) + (uses_executable_definition(s.last()))
    }
}

pub open spec fn uses_list_selection(s: Seq<Selection>) -> Seq<Dependency>
    decreases s, 1nat,
{
    if s.len() == 0 {
        Seq::empty()
    } else {
        uses_list_selection(s.drop_last()) + (uses_selection(s.last()))
    }
}

pub open spec fn uses_list_shared_argument(s: Seq<Shared<Argument>>) -> Seq<Dependency>
    decreases s, 1nat,
{
    if s.len() == 0 {
        Seq::empty()
    } else {
        uses_list_shared_argument(s.drop_last()) + (uses_argument(*s.last().0))
    }
}

pub open spec fn uses_list_shared_value(s: Seq<Shared<Value>>) -> Seq<Dependency>
    decreases s, 1nat,
{
    if s.len() == 0 {
        Seq::empty()
    } else {
        uses_list_shared_value(s.drop_last()) + (uses_value(*s.last().0))
    }
}

pub open spec fn uses_list_object_field(s: Seq<ObjectField>) -> Seq<Dependency>
    decreases s, 1nat,
{
    if s.len() == 0 {
        Seq::empty()
    } else {
        uses_list_object_field(s.drop_last()) + (uses_object_field(s.last()))
    }
}

pub open spec fn uses_list_shared_variable_definition(s: Seq<Shared<VariableDefinition>>) -> Seq<Dependency>
    decreases s, 1nat,
{
    if s.len() == 0 {
        Seq::empty()
    } else {
        uses_list_shared_variable_definition(s.drop_last()) + (uses_variable_definition(*s.last().0))
    }
}

pub open spec fn uses_list_shared_directive(s: Seq<Shared<Directive>>) -> Seq<Dependency>
    decreases s, 1nat,
{
    if s.len() == 0 {
        Seq::empty()
    } else {
        uses_list_shared_directive(s.drop_last()) + (uses_directive(*s.last().0))
    }
}

pub open spec fn uses_list_type_system_definition(s: Seq<TypeSystemDefinition>) -> Seq<Dependency>
    decreases s, 1nat,
{
    if s.len() == 0 {
        Seq::empty()
    } else {
        uses_list_type_system_definition(s.drop_last()) + (uses_type_system_definition(s.last()))
    }
}

pub open spec fn uses_list_type_system_definition_or_extension(s: Seq<TypeSystemDefinitionOrExtension>) -> Seq<Dependency>
    decreases s, 1nat,
{
    if s.len() == 0 {
        Seq::empty()
    } else {
        uses_list_type_system_definition_or_extension(s.drop_last()) + (uses_type_system_definition_or_extension(s.last()))
    }
}

pub open spec fn uses_list_root_operation_type_definition(s: Seq<RootOperationTypeDefinition>) -> Seq<Dependency>
    decreases s, 1nat,
{
    if s.len() == 0 {
        Seq::empty()
    } else {
        uses_list_root_operation_type_definition(s.drop_last()) + (uses_root_operation_type_definition(s.last()))
    }
}

pub open spec fn uses_list_punctuator_recoverable_shared_named_type(s: Seq<(Punctuator, Recoverable<Shared<NamedType>>)>) -> Seq<Dependency>
    decreases s, 1nat,
{
    if s.len() == 0 {
        Seq::empty()
    } else {
        uses_list_punctuator_recoverable_shared_named_type(s.drop_last()) + (match s.last().1 { Recoverable::Present(x) => uses_named_type(*x.0), Recoverable::Missing(_) => Seq::empty() })
    }
}

pub open spec fn uses_list_shared_field_definition(s: Seq<Shared<FieldDefinition>>) -> Seq<Dependency>
    decreases s, 1nat,
{
    if s.len() == 0 {
        Seq::empty()
    } else {
        uses_list_shared_field_definition(s.drop_last()) + (uses_field_definition(*s.last().0))
    }
}

pub open spec fn uses_list_shared_input_value_definition(s: Seq<Shared<InputValueDefinition>>) -> Seq<Dependency>
    decreases s, 1nat,
{
    if s.len() == 0 {
        Seq::empty()
    } else {
        uses_list_shared_input_value_definition(s.drop_last()) + (uses_input_value_definition(*s.last().0))
    }
}

pub open spec fn uses_list_shared_enum_value_definition(s: Seq<Shared<EnumValueDefinition>>) -> Seq<Dependency>
    decreases s, 1nat,
{
    if s.len() == 0 {
        Seq::empty()
    } else {
        uses_list_shared_enum_value_definition(s.drop_last()) + (uses_enum_value_definition(*s.last().0))
    }
}

pub open spec fn uses_list_punctuator_recoverable_directive_location(s: Seq<(Punctuator, Recoverable<DirectiveLocation>)>) -> Seq<Dependency>
    decreases s, 1nat,
{
    if s.len() == 0 {
        Seq::empty()
    } else {
        uses_list_punctuator_recoverable_directive_location(s.drop_last()) + (match s.last().1 { Recoverable::Present(x) => uses_directive_location(x), Recoverable::Missing(_) => Seq::empty() })
    }
}

/// Appends what `n` needs from the rest of a document to `acc`.
#[verifier::spinoff_prover]
pub fn track_document(n: &Document, acc: &mut Vec<Dependency>)
    ensures
        final(acc)@ == old(acc)@ + uses_document(*n),
    decreases n, 0nat,
{
    let ghost start = acc@;
    track_list_shared_definition(&n.definitions.0, acc);
    assert(acc@ =~= start + uses_document(*n));
}

/// Appends what `n` needs from the rest of a document to `acc`.
#[verifier::spinoff_prover]
pub fn track_definition(n: &Definition, acc: &mut Vec<Dependency>)
    ensures
        final(acc)@ == old(acc)@ + uses_definition(*n),
    decreases n, 0nat,
{
    let ghost start = acc@;
    match n {
        Definition::ExecutableDefinition(x) => {
            track_executable_definition(&(*x), acc);
        },
        Definition::TypeSystemDefinitionOrExtension(x) => {
            track_type_system_definition_or_extension(&(*x), acc);
        },
    }
    assert(acc@ =~= start + uses_definition(*n));
}

/// Appends what `n` needs from the rest of a document to `acc`.
#[verifier::spinoff_prover]
pub fn track_executable_document(n: &ExecutableDocument, acc: &mut Vec<Dependency>)
    ensures
        final(acc)@ == old(acc)@ + uses_executable_document(*n),
    decreases n, 0nat,
{
    let ghost start = acc@;
    track_list_executable_definition(&n.definitions.0, acc);
    assert(acc@ =~= start + uses_executable_document(*n));
}

/// Appends what `n` needs from the rest of a document to `acc`.
#[verifier::spinoff_prover]
pub fn track_executable_definition(n: &ExecutableDefinition, acc: &mut Vec<Dependency>)
    ensures
        final(acc)@ == old(acc)@ + uses_executable_definition(*n),
    decreases n, 0nat,
{
    let ghost start = acc@;
    match n {
        ExecutableDefinition::OperationDefinition(x) => {
            track_operation_definition(&(*(*x).0), acc);
        },
        ExecutableDefinition::FragmentDefinition(x) => {
            track_fragment_definition(&(*(*x).0), acc);
        },
    }
    assert(acc@ =~= start + uses_executable_definition(*n));
}

/// Appends what `n` needs from the rest of a document to `acc`.
#[verifier::spinoff_prover]
pub fn track_operation_definition(n: &OperationDefinition, acc: &mut Vec<Dependency>)
    ensures
        final(acc)@ == old(acc)@ + uses_operation_definition(*n),
    decreases n, 0nat,
{
    let ghost start = acc@;
    Tracker.visit_operation_definition(n, acc);
    if let Some(x) = &n.ty {
        track_operation_type(&x, acc);
    }
    if let Some(x) = &n.variable_definitions {
        track_variable_definitions(&x, acc);
    }
    if let Some(x) = &n.directives {
        track_directives(&x, acc);
    }
    if let Recoverable::Present(x) = &n.selection_set {
        track_selection_set(&(*x.0), acc);
    }
    assert(acc@ =~= start + uses_operation_definition(*n));
}

/// Appends what `n` needs from the rest of a document to `acc`.
#[verifier::spinoff_prover]
pub fn track_operation_type(n: &OperationType, acc: &mut Vec<Dependency>)
    ensures
        final(acc)@ == old(acc)@ + uses_operation_type(*n),
    decreases n, 0nat,
{
    let ghost start = acc@;
    match n {
        OperationType::Query(x) => {
        },
        OperationType::Mutation(x) => {
        },
        OperationType::Subscription(x) => {
        },
    }
    assert(acc@ =~= start + uses_operation_type(*n));
}

/// Appends what `n` needs from the rest of a document to `acc`.
#[verifier::spinoff_prover]
pub fn track_selection_set(n: &SelectionSet, acc: &mut Vec<Dependency>)
    ensures
        final(acc)@ == old(acc)@ + uses_selection_set(*n),
    decreases n, 0nat,
{
    let ghost start = acc@;
    track_list_selection(&n.selections.0, acc);
    assert(acc@ =~= start + uses_selection_set(*n));
}

/// Appends what `n` needs from the rest of a document to `acc`.
#[verifier::spinoff_prover]
pub fn track_selection(n: &Selection, acc: &mut Vec<Dependency>)
    ensures
        final(acc)@ == old(acc)@ + uses_selection(*n),
    decreases n, 0nat,
{
    let ghost start = acc@;
    match n {
        Selection::Field(x) => {
            track_field(&(*(*x).0), acc);
        },
        Selection::FragmentSpread(x) => {
            track_fragment_spread(&(*(*x).0), acc);
        },
        Selection::InlineFragment(x) => {
            track_inline_fragment(&(*x), acc);
        },
    }
    assert(acc@ =~= start + uses_selection(*n));
}

/// Appends what `n` needs from the rest of a document to `acc`.
#[verifier::spinoff_prover]
pub fn track_field(n: &Field, acc: &mut Vec<Dependency>)
    ensures
        final(acc)@ == old(acc)@ + uses_field(*n),
    decreases n, 0nat,
{
    let ghost start = acc@;
    if let Some(x) = &n.alias {
        track_alias(&x, acc);
    }
    if let Some(x) = &n.arguments {
        track_arguments(&(*x.0), acc);
    }
    if let Some(x) = &n.directives {
        track_directives(&x, acc);
    }
    if let Some(x) = &n.selection_set {
        track_selection_set(&(*x.0), acc);
    }
    assert(acc@ =~= start + uses_field(*n));
}

/// Appends what `n` needs from the rest of a document to `acc`.
#[verifier::spinoff_prover]
pub fn track_alias(n: &Alias, acc: &mut Vec<Dependency>)
    ensures
        final(acc)@ == old(acc)@ + uses_alias(*n),
    decreases n, 0nat,
{
    let ghost start = acc@;

    assert(acc@ =~= start + uses_alias(*n));
}

/// Appends what `n` needs from the rest of a document to `acc`.
#[verifier::spinoff_prover]
pub fn track_arguments(n: &Arguments, acc: &mut Vec<Dependency>)
    ensures
        final(acc)@ == old(acc)@ + uses_arguments(*n),
    decreases n, 0nat,
{
    let ghost start = acc@;
    track_list_shared_argument(&n.items.0, acc);
    assert(acc@ =~= start + uses_arguments(*n));
}

/// Appends what `n` needs from the rest of a document to `acc`.
#[verifier::spinoff_prover]
pub fn track_argument(n: &Argument, acc: &mut Vec<Dependency>)
    ensures
        final(acc)@ == old(acc)@ + uses_argument(*n),
    decreases n, 0nat,
{
    let ghost start = acc@;
    if let Recoverable::Present(x) = &n.value {
        track_value(&(*x.0), acc);
    }
    assert(acc@ =~= start + uses_argument(*n));
}

/// Appends what `n` needs from the rest of a document to `acc`.
#[verifier::spinoff_prover]
pub fn track_fragment_spread(n: &FragmentSpread, acc: &mut Vec<Dependency>)
    ensures
        final(acc)@ == old(acc)@ + uses_fragment_spread(*n),
    decreases n, 0nat,
{
    let ghost start = acc@;
    if let Some(x) = &n.directives {
        track_directives(&x, acc);
    }
    assert(acc@ =~= start + uses_fragment_spread(*n));
}

/// Appends what `n` needs from the rest of a document to `acc`.
#[verifier::spinoff_prover]
pub fn track_inline_fragment(n: &InlineFragment, acc: &mut Vec<Dependency>)
    ensures
        final(acc)@ == old(acc)@ + uses_inline_fragment(*n),
    decreases n, 0nat,
{
    let ghost start = acc@;
    if let Some(x) = &n.type_condition {
        track_type_condition(&x, acc);
    }
    if let Some(x) = &n.directives {
        track_directives(&x, acc);
    }
    if let Recoverable::Present(x) = &n.selection_set {
        track_selection_set(&(*x.0), acc);
    }
    assert(acc@ =~= start + uses_inline_fragment(*n));
}

/// Appends what `n` needs from the rest of a document to `acc`.
#[verifier::spinoff_prover]
pub fn track_fragment_definition(n: &FragmentDefinition, acc: &mut Vec<Dependency>)
    ensures
        final(acc)@ == old(acc)@ + uses_fragment_definition(*n),
    decreases n, 0nat,
{
    let ghost start = acc@;
    if let Recoverable::Present(x) = &n.type_condition {
        track_type_condition(&x, acc);
    }
    if let Some(x) = &n.directives {
        track_directives(&x, acc);
    }
    if let Recoverable::Present(x) = &n.selection_set {
        track_selection_set(&(*x.0), acc);
    }
    assert(acc@ =~= start + uses_fragment_definition(*n));
}

/// Appends what `n` needs from the rest of a document to `acc`.
#[verifier::spinoff_prover]
pub fn track_type_condition(n: &TypeCondition, acc: &mut Vec<Dependency>)
    ensures
        final(acc)@ == old(acc)@ + uses_type_condition(*n),
    decreases n, 0nat,
{
    let ghost start = acc@;
    if let Recoverable::Present(x) = &n.named_type {
        track_named_type(&x, acc);
    }
    assert(acc@ =~= start + uses_type_condition(*n));
}

/// Appends what `n` needs from the rest of a document to `acc`.
#[verifier::spinoff_prover]
pub fn track_value(n: &Value, acc: &mut Vec<Dependency>)
    ensures
        final(acc)@ == old(acc)@ + uses_value(*n),
    decreases n, 0nat,
{
    let ghost start = acc@;
    match n {
        Value::Variable(x) => {
            track_variable(&(*x), acc);
        },
        Value::IntValue(x) => {
        },
        Value::FloatValue(x) => {
        },
        Value::StringValue(x) => {
        },
        Value::BooleanValue(x) => {
            track_boolean_value(&(*x), acc);
        },
        Value::NullValue(x) => {
            track_null_value(&(*x), acc);
        },
        Value::EnumValue(x) => {
            track_enum_value(&(*x), acc);
        },
        Value::ListValue(x) => {
            track_list_value(&(*x), acc);
        },
        Value::ObjectValue(x) => {
            track_object_value(&(*x), acc);
        },
    }
    assert(acc@ =~= start + uses_value(*n));
}

/// Appends what `n` needs from the rest of a document to `acc`.
#[verifier::spinoff_prover]
pub fn track_boolean_value(n: &BooleanValue, acc: &mut Vec<Dependency>)
    ensures
        final(acc)@ == old(acc)@ + uses_boolean_value(*n),
    decreases n, 0nat,
{
    let ghost start = acc@;
    match n {
        BooleanValue::True(x) => {
        },
        BooleanValue::False(x) => {
        },
    }
    assert(acc@ =~= start + uses_boolean_value(*n));
}

/// Appends what `n` needs from the rest of a document to `acc`.
#[verifier::spinoff_prover]
pub fn track_null_value(n: &NullValue, acc: &mut Vec<Dependency>)
    ensures
        final(acc)@ == old(acc)@ + uses_null_value(*n),
    decreases n, 0nat,
{
    let ghost start = acc@;

    assert(acc@ =~= start + uses_null_value(*n));
}

/// Appends what `n` needs from the rest of a document to `acc`.
#[verifier::spinoff_prover]
pub fn track_enum_value(n: &EnumValue, acc: &mut Vec<Dependency>)
    ensures
        final(acc)@ == old(acc)@ + uses_enum_value(*n),
    decreases n, 0nat,
{
    let ghost start = acc@;

    assert(acc@ =~= start + uses_enum_value(*n));
}

/// Appends what `n` needs from the rest of a document to `acc`.
#[verifier::spinoff_prover]
pub fn track_list_value(n: &ListValue, acc: &mut Vec<Dependency>)
    ensures
        final(acc)@ == old(acc)@ + uses_list_value(*n),
    decreases n, 0nat,
{
    let ghost start = acc@;
    track_list_shared_value(&n.values.0, acc);
    assert(acc@ =~= start + uses_list_value(*n));
}

/// Appends what `n` needs from the rest of a document to `acc`.
#[verifier::spinoff_prover]
pub fn track_object_value(n: &ObjectValue, acc: &mut Vec<Dependency>)
    ensures
        final(acc)@ == old(acc)@ + uses_object_value(*n),
    decreases n, 0nat,
{
    let ghost start = acc@;
    track_list_object_field(&n.object_fields.0, acc);
    assert(acc@ =~= start + uses_object_value(*n));
}

/// Appends what `n` needs from the rest of a document to `acc`.
#[verifier::spinoff_prover]
pub fn track_object_field(n: &ObjectField, acc: &mut Vec<Dependency>)
    ensures
        final(acc)@ == old(acc)@ + uses_object_field(*n),
    decreases n, 0nat,
{
    let ghost start = acc@;
    if let Recoverable::Present(x) = &n.value {
        track_value(&(*x.0), acc);
    }
    assert(acc@ =~= start + uses_object_field(*n));
}

/// Appends what `n` needs from the rest of a document to `acc`.
#[verifier::spinoff_prover]
pub fn track_variable_definitions(n: &VariableDefinitions, acc: &mut Vec<Dependency>)
    ensures
        final(acc)@ == old(acc)@ + uses_variable_definitions(*n),
    decreases n, 0nat,
{
    let ghost start = acc@;
    track_list_shared_variable_definition(&n.variable_definitions.0, acc);
    assert(acc@ =~= start + uses_variable_definitions(*n));
}

/// Appends what `n` needs from the rest of a document to `acc`.
#[verifier::spinoff_prover]
pub fn track_variable_definition(n: &VariableDefinition, acc: &mut Vec<Dependency>)
    ensures
        final(acc)@ == old(acc)@ + uses_variable_definition(*n),
    decreases n, 0nat,
{
    let ghost start = acc@;
    track_variable(&n.variable, acc);
    if let Recoverable::Present(x) = &n.ty {
        track_type(&(*x.0), acc);
    }
    if let Some(x) = &n.default_value {
        track_default_value(&x, acc);
    }
    if let Some(x) = &n.directives {
        track_directives(&x, acc);
    }
    assert(acc@ =~= start + uses_variable_definition(*n));
}

/// Appends what `n` needs from the rest of a document to `acc`.
#[verifier::spinoff_prover]
pub fn track_variable(n: &Variable, acc: &mut Vec<Dependency>)
    ensures
        final(acc)@ == old(acc)@ + uses_variable(*n),
    decreases n, 0nat,
{
    let ghost start = acc@;

    assert(acc@ =~= start + uses_variable(*n));
}

/// Appends what `n` needs from the rest of a document to `acc`.
#[verifier::spinoff_prover]
pub fn track_default_value(n: &DefaultValue, acc: &mut Vec<Dependency>)
    ensures
        final(acc)@ == old(acc)@ + uses_default_value(*n),
    decreases n, 0nat,
{
    let ghost start = acc@;
    if let Recoverable::Present(x) = &n.value {
        track_value(&(*x.0), acc);
    }
    assert(acc@ =~= start + uses_default_value(*n));
}

/// Appends what `n` needs from the rest of a document to `acc`.
#[verifier::spinoff_prover]
pub fn track_type(n: &Type, acc: &mut Vec<Dependency>)
    ensures
        final(acc)@ == old(acc)@ + uses_type(*n),
    decreases n, 0nat,
{
    let ghost start = acc@;
    match n {
        Type::Named(x) => {
            track_named_type(&(*x), acc);
        },
        Type::List(x) => {
            track_list_type(&(*x), acc);
        },
        Type::NonNull(x) => {
            track_non_null_type(&(*x), acc);
        },
    }
    assert(acc@ =~= start + uses_type(*n));
}

/// Appends what `n` needs from the rest of a document to `acc`.
#[verifier::spinoff_prover]
pub fn track_named_type(n: &NamedType, acc: &mut Vec<Dependency>)
    ensures
        final(acc)@ == old(acc)@ + uses_named_type(*n),
    decreases n, 0nat,
{
    let ghost start = acc@;
    Tracker.visit_named_type(n, acc);
    assert(acc@ =~= start + uses_named_type(*n));
}

/// Appends what `n` needs from the rest of a document to `acc`.
#[verifier::spinoff_prover]
pub fn track_list_type(n: &ListType, acc: &mut Vec<Dependency>)
    ensures
        final(acc)@ == old(acc)@ + uses_list_type(*n),
    decreases n, 0nat,
{
    let ghost start = acc@;
    if let Recoverable::Present(x) = &n.ty {
        track_type(&(*x.0), acc);
    }
    assert(acc@ =~= start + uses_list_type(*n));
}

/// Appends what `n` needs from the rest of a document to `acc`.
#[verifier::spinoff_prover]
pub fn track_non_null_type(n: &NonNullType, acc: &mut Vec<Dependency>)
    ensures
        final(acc)@ == old(acc)@ + uses_non_null_type(*n),
    decreases n, 0nat,
{
    let ghost start = acc@;
    track_type(&(*n.ty.0), acc);
    assert(acc@ =~= start + uses_non_null_type(*n));
}

/// Appends what `n` needs from the rest of a document to `acc`.
#[verifier::spinoff_prover]
pub fn track_directives(n: &Directives, acc: &mut Vec<Dependency>)
    ensures
        final(acc)@ == old(acc)@ + uses_directives(*n),
    decreases n, 0nat,
{
    let ghost start = acc@;
    track_list_shared_directive(&n.directives.0, acc);
    assert(acc@ =~= start + uses_directives(*n));
}

/// Appends what `n` needs from the rest of a document to `acc`.
#[verifier::spinoff_prover]
pub fn track_directive(n: &Directive, acc: &mut Vec<Dependency>)
    ensures
        final(acc)@ == old(acc)@ + uses_directive(*n),
    decreases n, 0nat,
{
    let ghost start = acc@;
    if let Some(x) = &n.arguments {
        track_arguments(&(*x.0), acc);
    }
    assert(acc@ =~= start + uses_directive(*n));
}

/// Appends what `n` needs from the rest of a document to `acc`.
#[verifier::spinoff_prover]
pub fn track_type_system_document(n: &TypeSystemDocument, acc: &mut Vec<Dependency>)
    ensures
        final(acc)@ == old(acc)@ + uses_type_system_document(*n),
    decreases n, 0nat,
{
    let ghost start = acc@;
    track_list_type_system_definition(&n.definitions.0, acc);
    assert(acc@ =~= start + uses_type_system_document(*n));
}

/// Appends what `n` needs from the rest of a document to `acc`.
#[verifier::spinoff_prover]
pub fn track_type_system_definition(n: &TypeSystemDefinition, acc: &mut Vec<Dependency>)
    ensures
        final(acc)@ == old(acc)@ + uses_type_system_definition(*n),
    decreases n, 0nat,
{
    let ghost start = acc@;
    match n {
        TypeSystemDefinition::SchemaDefinition(x) => {
            track_schema_definition(&(*x), acc);
        },
        TypeSystemDefinition::TypeDefinition(x) => {
            track_type_definition(&(*(*x).0), acc);
        },
        TypeSystemDefinition::DirectiveDefinition(x) => {
            track_directive_definition(&(*(*x).0), acc);
        },
        TypeSystemDefinition::Error(x) => {
            track_description(&(*x), acc);
        },
    }
    assert(acc@ =~= start + uses_type_system_definition(*n));
}

/// Appends what `n` needs from the rest of a document to `acc`.
#[verifier::spinoff_prover]
pub fn track_type_system_extension_document(n: &TypeSystemExtensionDocument, acc: &mut Vec<Dependency>)
    ensures
        final(acc)@ == old(acc)@ + uses_type_system_extension_document(*n),
    decreases n, 0nat,
{
    let ghost start = acc@;
    track_list_type_system_definition_or_extension(&n.definitions.0, acc);
    assert(acc@ =~= start + uses_type_system_extension_document(*n));
}

/// Appends what `n` needs from the rest of a document to `acc`.
#[verifier::spinoff_prover]
pub fn track_type_system_definition_or_extension(n: &TypeSystemDefinitionOrExtension, acc: &mut Vec<Dependency>)
    ensures
        final(acc)@ == old(acc)@ + uses_type_system_definition_or_extension(*n),
    decreases n, 0nat,
{
    let ghost start = acc@;
    match n {
        TypeSystemDefinitionOrExtension::TypeSystemDefinition(x) => {
            track_type_system_definition(&(*x), acc);
        },
        TypeSystemDefinitionOrExtension::TypeSystemExtension(x) => {
            track_type_system_extension(&(*x), acc);
        },
    }
    assert(acc@ =~= start + uses_type_system_definition_or_extension(*n));
}

/// Appends what `n` needs from the rest of a document to `acc`.
#[verifier::spinoff_prover]
pub fn track_type_system_extension(n: &TypeSystemExtension, acc: &mut Vec<Dependency>)
    ensures
        final(acc)@ == old(acc)@ + uses_type_system_extension(*n),
    decreases n, 0nat,
{
    let ghost start = acc@;
    match n {
        TypeSystemExtension::SchemaExtension(x) => {
            track_schema_extension(&(*x), acc);
        },
        TypeSystemExtension::TypeExtension(x) => {
            track_type_extension(&(*(*x).0), acc);
        },
        TypeSystemExtension::Error(x) => {
        },
    }
    assert(acc@ =~= start + uses_type_system_extension(*n));
}

/// Appends what `n` needs from the rest of a document to `acc`.
#[verifier::spinoff_prover]
pub fn track_description(n: &Description, acc: &mut Vec<Dependency>)
    ensures
        final(acc)@ == old(acc)@ + uses_description(*n),
    decreases n, 0nat,
{
    let ghost start = acc@;

    assert(acc@ =~= start + uses_description(*n));
}

/// Appends what `n` needs from the rest of a document to `acc`.
#[verifier::spinoff_prover]
pub fn track_schema_definition(n: &SchemaDefinition, acc: &mut Vec<Dependency>)
    ensures
        final(acc)@ == old(acc)@ + uses_schema_definition(*n),
    decreases n, 0nat,
{
    let ghost start = acc@;
    if let Some(x) = &n.description {
        track_description(&x, acc);
    }
    if let Some(x) = &n.directives {
        track_directives(&x, acc);
    }
    if let Recoverable::Present(x) = &n.type_definitions {
        track_root_operation_type_definitions(&x, acc);
    }
    assert(acc@ =~= start + uses_schema_definition(*n));
}

/// Appends what `n` needs from the rest of a document to `acc`.
#[verifier::spinoff_prover]
pub fn track_root_operation_type_definitions(n: &RootOperationTypeDefinitions, acc: &mut Vec<Dependency>)
    ensures
        final(acc)@ == old(acc)@ + uses_root_operation_type_definitions(*n),
    decreases n, 0nat,
{
    let ghost start = acc@;
    if let Recoverable::Present(x) = &n.definitions {
        track_list_root_operation_type_definition(&x.0, acc);
    }
    assert(acc@ =~= start + uses_root_operation_type_definitions(*n));
}

/// Appends what `n` needs from the rest of a document to `acc`.
#[verifier::spinoff_prover]
pub fn track_root_operation_type_definition(n: &RootOperationTypeDefinition, acc: &mut Vec<Dependency>)
    ensures
        final(acc)@ == old(acc)@ + uses_root_operation_type_definition(*n),
    decreases n, 0nat,
{
    let ghost start = acc@;
    track_operation_type(&n.operation_type, acc);
    if let Recoverable::Present(x) = &n.named_type {
        track_named_type(&x, acc);
    }
    assert(acc@ =~= start + uses_root_operation_type_definition(*n));
}

/// Appends what `n` needs from the rest of a document to `acc`.
#[verifier::spinoff_prover]
pub fn track_schema_extension(n: &SchemaExtension, acc: &mut Vec<Dependency>)
    ensures
        final(acc)@ == old(acc)@ + uses_schema_extension(*n),
    decreases n, 0nat,
{
    let ghost start = acc@;
    if let Some(x) = &n.directives {
        track_directives(&x, acc);
    }
    if let Some(x) = &n.type_definitions {
        track_root_operation_type_definitions(&x, acc);
    }
    assert(acc@ =~= start + uses_schema_extension(*n));
}

/// Appends what `n` needs from the rest of a document to `acc`.
#[verifier::spinoff_prover]
pub fn track_type_definition(n: &TypeDefinition, acc: &mut Vec<Dependency>)
    ensures
        final(acc)@ == old(acc)@ + uses_type_definition(*n),
    decreases n, 0nat,
{
    let ghost start = acc@;
    match n {
        TypeDefinition::ScalarTypeDefinition(x) => {
            track_scalar_type_definition(&(*x), acc);
        },
        TypeDefinition::ObjectTypeDefinition(x) => {
            track_object_type_definition(&(*x), acc);
        },
        TypeDefinition::InterfaceTypeDefinition(x) => {
            track_interface_type_definition(&(*x), acc);
        },
        TypeDefinition::UnionTypeDefinition(x) => {
            track_union_type_definition(&(*x), acc);
        },
        TypeDefinition::EnumTypeDefinition(x) => {
            track_enum_type_definition(&(*x), acc);
        },
        TypeDefinition::InputObjectTypeDefinition(x) => {
            track_input_object_type_definition(&(*x), acc);
        },
    }
    assert(acc@ =~= start + uses_type_definition(*n));
}

/// Appends what `n` needs from the rest of a document to `acc`.
#[verifier::spinoff_prover]
pub fn track_type_extension(n: &TypeExtension, acc: &mut Vec<Dependency>)
    ensures
        final(acc)@ == old(acc)@ + uses_type_extension(*n),
    decreases n, 0nat,
{
    let ghost start = acc@;
    match n {
        TypeExtension::ScalarTypeExtension(x) => {
            track_scalar_type_extension(&(*x), acc);
        },
        TypeExtension::ObjectTypeExtension(x) => {
            track_object_type_extension(&(*x), acc);
        },
        TypeExtension::InterfaceTypeExtension(x) => {
            track_interface_type_extension(&(*x), acc);
        },
        TypeExtension::UnionTypeExtension(x) => {
            track_union_type_extension(&(*x), acc);
        },
        TypeExtension::EnumTypeExtension(x) => {
            track_enum_type_extension(&(*x), acc);
        },
        TypeExtension::InputObjectTypeExtension(x) => {
            track_input_object_type_extension(&(*x), acc);
        },
    }
    assert(acc@ =~= start + uses_type_extension(*n));
}

/// Appends what `n` needs from the rest of a document to `acc`.
#[verifier::spinoff_prover]
pub fn track_scalar_type_definition(n: &ScalarTypeDefinition, acc: &mut Vec<Dependency>)
    ensures
        final(acc)@ == old(acc)@ + uses_scalar_type_definition(*n),
    decreases n, 0nat,
{
    let ghost start = acc@;
    if let Some(x) = &n.directives {
        track_directives(&x, acc);
    }
    assert(acc@ =~= start + uses_scalar_type_definition(*n));
}

/// Appends what `n` needs from the rest of a document to `acc`.
#[verifier::spinoff_prover]
pub fn track_scalar_type_extension(n: &ScalarTypeExtension, acc: &mut Vec<Dependency>)
    ensures
        final(acc)@ == old(acc)@ + uses_scalar_type_extension(*n),
    decreases n, 0nat,
{
    let ghost start = acc@;
    if let Recoverable::Present(x) = &n.name {
        track_named_type(&x, acc);
    }
    if let Recoverable::Present(x) = &n.directives {
        track_directives(&x, acc);
    }
    assert(acc@ =~= start + uses_scalar_type_extension(*n));
}

/// Appends what `n` needs from the rest of a document to `acc`.
#[verifier::spinoff_prover]
pub fn track_object_type_definition(n: &ObjectTypeDefinition, acc: &mut Vec<Dependency>)
    ensures
        final(acc)@ == old(acc)@ + uses_object_type_definition(*n),
    decreases n, 0nat,
{
    let ghost start = acc@;
    if let Some(x) = &n.description {
        track_description(&x, acc);
    }
    if let Some(x) = &n.implements_interfaces {
        track_implements_interfaces(&x, acc);
    }
    if let Some(x) = &n.directives {
        track_directives(&x, acc);
    }
    if let Some(x) = &n.fields_definition {
        track_fields_definition(&x, acc);
    }
    assert(acc@ =~= start + uses_object_type_definition(*n));
}

/// Appends what `n` needs from the rest of a document to `acc`.
#[verifier::spinoff_prover]
pub fn track_implements_interfaces(n: &ImplementsInterfaces, acc: &mut Vec<Dependency>)
    ensures
        final(acc)@ == old(acc)@ + uses_implements_interfaces(*n),
    decreases n, 0nat,
{
    let ghost start = acc@;
    if let Recoverable::Present(x) = &n.first {
        track_named_type(&(*x.0), acc);
    }
    track_list_punctuator_recoverable_shared_named_type(&n.types.0, acc);
    assert(acc@ =~= start + uses_implements_interfaces(*n));
}

/// Appends what `n` needs from the rest of a document to `acc`.
#[verifier::spinoff_prover]
pub fn track_fields_definition(n: &FieldsDefinition, acc: &mut Vec<Dependency>)
    ensures
        final(acc)@ == old(acc)@ + uses_fields_definition(*n),
    decreases n, 0nat,
{
    let ghost start = acc@;
    track_list_shared_field_definition(&n.definitions.0, acc);
    assert(acc@ =~= start + uses_fields_definition(*n));
}

/// Appends what `n` needs from the rest of a document to `acc`.
#[verifier::spinoff_prover]
pub fn track_field_definition(n: &FieldDefinition, acc: &mut Vec<Dependency>)
    ensures
        final(acc)@ == old(acc)@ + uses_field_definition(*n),
    decreases n, 0nat,
{
    let ghost start = acc@;
    if let Some(x) = &n.description {
        track_description(&x, acc);
    }
    if let Some(x) = &n.arguments_definition {
        track_arguments_definition(&(*x.0), acc);
    }
    if let Recoverable::Present(x) = &n.ty {
        track_type(&(*x.0), acc);
    }
    if let Some(x) = &n.directives {
        track_directives(&x, acc);
    }
    assert(acc@ =~= start + uses_field_definition(*n));
}

/// Appends what `n` needs from the rest of a document to `acc`.
#[verifier::spinoff_prover]
pub fn track_arguments_definition(n: &ArgumentsDefinition, acc: &mut Vec<Dependency>)
    ensures
        final(acc)@ == old(acc)@ + uses_arguments_definition(*n),
    decreases n, 0nat,
{
    let ghost start = acc@;
    track_list_shared_input_value_definition(&n.definitions.0, acc);
    assert(acc@ =~= start + uses_arguments_definition(*n));
}

/// Appends what `n` needs from the rest of a document to `acc`.
#[verifier::spinoff_prover]
pub fn track_input_value_definition(n: &InputValueDefinition, acc: &mut Vec<Dependency>)
    ensures
        final(acc)@ == old(acc)@ + uses_input_value_definition(*n),
    decreases n, 0nat,
{
    let ghost start = acc@;
    if let Some(x) = &n.description {
        track_description(&x, acc);
    }
    if let Recoverable::Present(x) = &n.ty {
        track_type(&(*x.0), acc);
    }
    if let Some(x) = &n.default_value {
        track_default_value(&x, acc);
    }
    if let Some(x) = &n.directives {
        track_directives(&x, acc);
    }
    assert(acc@ =~= start + uses_input_value_definition(*n));
}

/// Appends what `n` needs from the rest of a document to `acc`.
#[verifier::spinoff_prover]
pub fn track_object_type_extension(n: &ObjectTypeExtension, acc: &mut Vec<Dependency>)
    ensures
        final(acc)@ == old(acc)@ + uses_object_type_extension(*n),
    decreases n, 0nat,
{
    let ghost start = acc@;
    if let Recoverable::Present(x) = &n.name {
        track_named_type(&x, acc);
    }
    if let Some(x) = &n.implements_interfaces {
        track_implements_interfaces(&x, acc);
    }
    if let Some(x) = &n.directives {
        track_directives(&x, acc);
    }
    if let Some(x) = &n.fields_definition {
        track_fields_definition(&x, acc);
    }
    assert(acc@ =~= start + uses_object_type_extension(*n));
}

/// Appends what `n` needs from the rest of a document to `acc`.
#[verifier::spinoff_prover]
pub fn track_interface_type_definition(n: &InterfaceTypeDefinition, acc: &mut Vec<Dependency>)
    ensures
        final(acc)@ == old(acc)@ + uses_interface_type_definition(*n),
    decreases n, 0nat,
{
    let ghost start = acc@;
    if let Some(x) = &n.description {
        track_description(&x, acc);
    }
    if let Some(x) = &n.implements_interfaces {
        track_implements_interfaces(&x, acc);
    }
    if let Some(x) = &n.directives {
        track_directives(&x, acc);
    }
    if let Some(x) = &n.fields_definition {
        track_fields_definition(&x, acc);
    }
    assert(acc@ =~= start + uses_interface_type_definition(*n));
}

/// Appends what `n` needs from the rest of a document to `acc`.
#[verifier::spinoff_prover]
pub fn track_interface_type_extension(n: &InterfaceTypeExtension, acc: &mut Vec<Dependency>)
    ensures
        final(acc)@ == old(acc)@ + uses_interface_type_extension(*n),
    decreases n, 0nat,
{
    let ghost start = acc@;
    if let Recoverable::Present(x) = &n.name {
        track_named_type(&x, acc);
    }
    if let Some(x) = &n.implements_interfaces {
        track_implements_interfaces(&x, acc);
    }
    if let Some(x) = &n.directives {
        track_directives(&x, acc);
    }
    if let Some(x) = &n.fields_definition {
        track_fields_definition(&x, acc);
    }
    assert(acc@ =~= start + uses_interface_type_extension(*n));
}

/// Appends what `n` needs from the rest of a document to `acc`.
#[verifier::spinoff_prover]
pub fn track_union_type_definition(n: &UnionTypeDefinition, acc: &mut Vec<Dependency>)
    ensures
        final(acc)@ == old(acc)@ + uses_union_type_definition(*n),
    decreases n, 0nat,
{
    let ghost start = acc@;
    if let Some(x) = &n.description {
        track_description(&x, acc);
    }
    if let Some(x) = &n.directives {
        track_directives(&x, acc);
    }
    if let Some(x) = &n.member_types {
        track_union_member_types(&x, acc);
    }
    assert(acc@ =~= start + uses_union_type_definition(*n));
}

/// Appends what `n` needs from the rest of a document to `acc`.
#[verifier::spinoff_prover]
pub fn track_union_member_types(n: &UnionMemberTypes, acc: &mut Vec<Dependency>)
    ensures
        final(acc)@ == old(acc)@ + uses_union_member_types(*n),
    decreases n, 0nat,
{
    let ghost start = acc@;
    if let Recoverable::Present(x) = &n.first {
        track_named_type(&(*x.0), acc);
    }
    track_list_punctuator_recoverable_shared_named_type(&n.types.0, acc);
    assert(acc@ =~= start + uses_union_member_types(*n));
}

/// Appends what `n` needs from the rest of a document to `acc`.
#[verifier::spinoff_prover]
pub fn track_union_type_extension(n: &UnionTypeExtension, acc: &mut Vec<Dependency>)
    ensures
        final(acc)@ == old(acc)@ + uses_union_type_extension(*n),
    decreases n, 0nat,
{
    let ghost start = acc@;
    if let Recoverable::Present(x) = &n.name {
        track_named_type(&x, acc);
    }
    if let Some(x) = &n.directives {
        track_directives(&x, acc);
    }
    if let Some(x) = &n.member_types {
        track_union_member_types(&x, acc);
    }
    assert(acc@ =~= start + uses_union_type_extension(*n));
}

/// Appends what `n` needs from the rest of a document to `acc`.
#[verifier::spinoff_prover]
pub fn track_enum_type_definition(n: &EnumTypeDefinition, acc: &mut Vec<Dependency>)
    ensures
        final(acc)@ == old(acc)@ + uses_enum_type_definition(*n),
    decreases n, 0nat,
{
    let ghost start = acc@;
    if let Some(x) = &n.description {
        track_description(&x, acc);
    }
    if let Some(x) = &n.directives {
        track_directives(&x, acc);
    }
    if let Some(x) = &n.values_definition {
        track_enum_values_definition(&x, acc);
    }
    assert(acc@ =~= start + uses_enum_type_definition(*n));
}

/// Appends what `n` needs from the rest of a document to `acc`.
#[verifier::spinoff_prover]
pub fn track_enum_values_definition(n: &EnumValuesDefinition, acc: &mut Vec<Dependency>)
    ensures
        final(acc)@ == old(acc)@ + uses_enum_values_definition(*n),
    decreases n, 0nat,
{
    let ghost start = acc@;
    track_list_shared_enum_value_definition(&n.definitions.0, acc);
    assert(acc@ =~= start + uses_enum_values_definition(*n));
}

/// Appends what `n` needs from the rest of a document to `acc`.
#[verifier::spinoff_prover]
pub fn track_enum_value_definition(n: &EnumValueDefinition, acc: &mut Vec<Dependency>)
    ensures
        final(acc)@ == old(acc)@ + uses_enum_value_definition(*n),
    decreases n, 0nat,
{
    let ghost start = acc@;
    if let Some(x) = &n.description {
        track_description(&x, acc);
    }
    track_enum_value(&n.enum_value, acc);
    if let Some(x) = &n.directives {
        track_directives(&x, acc);
    }
    assert(acc@ =~= start + uses_enum_value_definition(*n));
}

/// Appends what `n` needs from the rest of a document to `acc`.
#[verifier::spinoff_prover]
pub fn track_enum_type_extension(n: &EnumTypeExtension, acc: &mut Vec<Dependency>)
    ensures
        final(acc)@ == old(acc)@ + uses_enum_type_extension(*n),
    decreases n, 0nat,
{
    let ghost start = acc@;
    if let Recoverable::Present(x) = &n.name {
        track_named_type(&x, acc);
    }
    if let Some(x) = &n.directives {
        track_directives(&x, acc);
    }
    if let Some(x) = &n.values_definition {
        track_enum_values_definition(&x, acc);
    }
    assert(acc@ =~= start + uses_enum_type_extension(*n));
}

/// Appends what `n` needs from the rest of a document to `acc`.
#[verifier::spinoff_prover]
pub fn track_input_object_type_definition(n: &InputObjectTypeDefinition, acc: &mut Vec<Dependency>)
    ensures
        final(acc)@ == old(acc)@ + uses_input_object_type_definition(*n),
    decreases n, 0nat,
{
    let ghost start = acc@;
    if let Some(x) = &n.description {
        track_description(&x, acc);
    }
    if let Some(x) = &n.directives {
        track_directives(&x, acc);
    }
    if let Some(x) = &n.fields_definition {
        track_input_fields_definition(&x, acc);
    }
    assert(acc@ =~= start + uses_input_object_type_definition(*n));
}

/// Appends what `n` needs from the rest of a document to `acc`.
#[verifier::spinoff_prover]
pub fn track_input_fields_definition(n: &InputFieldsDefinition, acc: &mut Vec<Dependency>)
    ensures
        final(acc)@ == old(acc)@ + uses_input_fields_definition(*n),
    decreases n, 0nat,
{
    let ghost start = acc@;
    track_list_shared_input_value_definition(&n.definitions.0, acc);
    assert(acc@ =~= start + uses_input_fields_definition(*n));
}

/// Appends what `n` needs from the rest of a document to `acc`.
#[verifier::spinoff_prover]
pub fn track_input_object_type_extension(n: &InputObjectTypeExtension, acc: &mut Vec<Dependency>)
    ensures
        final(acc)@ == old(acc)@ + uses_input_object_type_extension(*n),
    decreases n, 0nat,
{
    let ghost start = acc@;
    if let Recoverable::Present(x) = &n.name {
        track_named_type(&x, acc);
    }
    if let Some(x) = &n.directives {
        track_directives(&x, acc);
    }
    if let Some(x) = &n.fields_definition {
        track_input_fields_definition(&x, acc);
    }
    assert(acc@ =~= start + uses_input_object_type_extension(*n));
}

/// Appends what `n` needs from the rest of a document to `acc`.
#[verifier::spinoff_prover]
pub fn track_directive_definition(n: &DirectiveDefinition, acc: &mut Vec<Dependency>)
    ensures
        final(acc)@ == old(acc)@ + uses_directive_definition(*n),
    decreases n, 0nat,
{
    let ghost start = acc@;
    if let Some(x) = &n.description {
        track_description(&x, acc);
    }
    if let Some(x) = &n.arguments_definition {
        track_arguments_definition(&(*x.0), acc);
    }
    if let Recoverable::Present(x) = &n.locations {
        track_directive_locations(&x, acc);
    }
    assert(acc@ =~= start + uses_directive_definition(*n));
}

/// Appends what `n` needs from the rest of a document to `acc`.
#[verifier::spinoff_prover]
pub fn track_directive_locations(n: &DirectiveLocations, acc: &mut Vec<Dependency>)
    ensures
        final(acc)@ == old(acc)@ + uses_directive_locations(*n),
    decreases n, 0nat,
{
    let ghost start = acc@;
    if let Recoverable::Present(x) = &n.first {
        track_directive_location(&x, acc);
    }
    track_list_punctuator_recoverable_directive_location(&n.locations.0, acc);
    assert(acc@ =~= start + uses_directive_locations(*n));
}

/// Appends what `n` needs from the rest of a document to `acc`.
#[verifier::spinoff_prover]
pub fn track_directive_location(n: &DirectiveLocation, acc: &mut Vec<Dependency>)
    ensures
        final(acc)@ == old(acc)@ + uses_directive_location(*n),
    decreases n, 0nat,
{
    let ghost start = acc@;
    match n {
        DirectiveLocation::ExecutableDirectiveLocation(x) => {
            track_executable_directive_location(&(*x), acc);
        },
        DirectiveLocation::TypeSystemDirectiveLocation(x) => {
            track_type_system_directive_location(&(*x), acc);
        },
    }
    assert(acc@ =~= start + uses_directive_location(*n));
}

/// Appends what `n` needs from the rest of a document to `acc`.
#[verifier::spinoff_prover]
pub fn track_executable_directive_location(n: &ExecutableDirectiveLocation, acc: &mut Vec<Dependency>)
    ensures
        final(acc)@ == old(acc)@ + uses_executable_directive_location(*n),
    decreases n, 0nat,
{
    let ghost start = acc@;
    match n {
        ExecutableDirectiveLocation::Query(x) => {
        },
        ExecutableDirectiveLocation::Mutation(x) => {
        },
        ExecutableDirectiveLocation::Subscription(x) => {
        },
        ExecutableDirectiveLocation::Field(x) => {
        },
        ExecutableDirectiveLocation::FragmentDefinition(x) => {
        },
        ExecutableDirectiveLocation::FragmentSpread(x) => {
        },
        ExecutableDirectiveLocation::InlineFragment(x) => {
        },
        ExecutableDirectiveLocation::VariableDefinition(x) => {
        },
    }
    assert(acc@ =~= start + uses_executable_directive_location(*n));
}

/// Appends what `n` needs from the rest of a document to `acc`.
#[verifier::spinoff_prover]
pub fn track_type_system_directive_location(n: &TypeSystemDirectiveLocation, acc: &mut Vec<Dependency>)
    ensures
        final(acc)@ == old(acc)@ + uses_type_system_directive_location(*n),
    decreases n, 0nat,
{
    let ghost start = acc@;
    match n {
        TypeSystemDirectiveLocation::Schema(x) => {
        },
        TypeSystemDirectiveLocation::Scalar(x) => {
        },
        TypeSystemDirectiveLocation::Object(x) => {
        },
        TypeSystemDirectiveLocation::FieldDefinition(x) => {
        },
        TypeSystemDirectiveLocation::ArgumentDefinition(x) => {
        },
        TypeSystemDirectiveLocation::Interface(x) => {
        },
        TypeSystemDirectiveLocation::Union(x) => {
        },
        TypeSystemDirectiveLocation::Enum(x) => {
        },
        TypeSystemDirectiveLocation::EnumValue(x) => {
        },
        TypeSystemDirectiveLocation::InputObject(x) => {
        },
        TypeSystemDirectiveLocation::InputFieldDefinition(x) => {
        },
    }
    assert(acc@ =~= start + uses_type_system_directive_location(*n));
}

#[verifier::spinoff_prover]
fn track_list_shared_definition(items: &Vec<Shared<Definition>>, acc: &mut Vec<Dependency>)
    ensures
        final(acc)@ == old(acc)@ + uses_list_shared_definition(items@),
    decreases items@, 1nat,
{
    let ghost start = acc@;
    let mut i: usize = 0;
    while i < items.len()
        invariant
            i <= items@.len(),
            acc@ == start + uses_list_shared_definition(items@.take(i as int)),
        decreases items.len() - i,
    {
        proof {
            assert(items@.take(i + 1).drop_last() =~= items@.take(i as int));
            assert(items@.take(i + 1).last() == items@[i as int]);
        }
        let ghost before = acc@;
        track_definition(&(*items[i].0), acc);
        assert(acc@ =~= start + uses_list_shared_definition(items@.take(i + 1)));
        i = i + 1;
    }
    assert(items@.take(i as int) =~= items@);
}

#[verifier::spinoff_prover]
fn track_list_executable_definition(items: &Vec<ExecutableDefinition>, acc: &mut Vec<Dependency>)
    ensures
        final(acc)@ == old(acc)@ + uses_list_executable_definition(items@),
    decreases items@, 1nat,
{
    let ghost start = acc@;
    let mut i: usize = 0;
    while i < items.len()
        invariant
            i <= items@.len(),
            acc@ == start + uses_list_executable_definition(items@.take(i as int)),
        decreases items.len() - i,
    {
        proof {
            assert(items@.take(i + 1).drop_last() =~= items@.take(i as int));
            assert(items@.take(i + 1).last() == items@[i as int]);
        }
        let ghost before = acc@;
        track_executable_definition(&items[i], acc);
        assert(acc@ =~= start + uses_list_executable_definition(items@.take(i + 1)));
        i = i + 1;
    }
    assert(items@.take(i as int) =~= items@);
}

#[verifier::spinoff_prover]
fn track_list_selection(items: &Vec<Selection>, acc: &mut Vec<Dependency>)
    ensures
        final(acc)@ == old(acc)@ + uses_list_selection(items@),
    decreases items@, 1nat,
{
    let ghost start = acc@;
    let mut i: usize = 0;
    while i < items.len()
        invariant
            i <= items@.len(),
            acc@ == start + uses_list_selection(items@.take(i as int)),
        decreases items.len() - i,
    {
        proof {
            assert(items@.take(i + 1).drop_last() =~= items@.take(i as int));
            assert(items@.take(i + 1).last() == items@[i as int]);
        }
        let ghost before = acc@;
        track_selection(&items[i], acc);
        assert(acc@ =~= start + uses_list_selection(items@.take(i + 1)));
        i = i + 1;
    }
    assert(items@.take(i as int) =~= items@);
}

#[verifier::spinoff_prover]
fn track_list_shared_argument(items: &Vec<Shared<Argument>>, acc: &mut Vec<Dependency>)
    ensures
        final(acc)@ == old(acc)@ + uses_list_shared_argument(items@),
    decreases items@, 1nat,
{
    let ghost start = acc@;
    let mut i: usize = 0;
    while i < items.len()
        invariant
            i <= items@.len(),
            acc@ == start + uses_list_shared_argument(items@.take(i as int)),
        decreases items.len() - i,
    {
        proof {
            assert(items@.take(i + 1).drop_last() =~= items@.take(i as int));
            assert(items@.take(i + 1).last() == items@[i as int]);
        }
        let ghost before = acc@;
        track_argument(&(*items[i].0), acc);
        assert(acc@ =~= start + uses_list_shared_argument(items@.take(i + 1)));
        i = i + 1;
    }
    assert(items@.take(i as int) =~= items@);
}

#[verifier::spinoff_prover]
fn track_list_shared_value(items: &Vec<Shared<Value>>, acc: &mut Vec<Dependency>)
    ensures
        final(acc)@ == old(acc)@ + uses_list_shared_value(items@),
    decreases items@, 1nat,
{
    let ghost start = acc@;
    let mut i: usize = 0;
    while i < items.len()
        invariant
            i <= items@.len(),
            acc@ == start + uses_list_shared_value(items@.take(i as int)),
        decreases items.len() - i,
    {
        proof {
            assert(items@.take(i + 1).drop_last() =~= items@.take(i as int));
            assert(items@.take(i + 1).last() == items@[i as int]);
        }
        let ghost before = acc@;
        track_value(&(*items[i].0), acc);
        assert(acc@ =~= start + uses_list_shared_value(items@.take(i + 1)));
        i = i + 1;
    }
    assert(items@.take(i as int) =~= items@);
}

#[verifier::spinoff_prover]
fn track_list_object_field(items: &Vec<ObjectField>, acc: &mut Vec<Dependency>)
    ensures
        final(acc)@ == old(acc)@ + uses_list_object_field(items@),
    decreases items@, 1nat,
{
    let ghost start = acc@;
    let mut i: usize = 0;
    while i < items.len()
        invariant
            i <= items@.len(),
            acc@ == start + uses_list_object_field(items@.take(i as int)),
        decreases items.len() - i,
    {
        proof {
            assert(items@.take(i + 1).drop_last() =~= items@.take(i as int));
            assert(items@.take(i + 1).last() == items@[i as int]);
        }
        let ghost before = acc@;
        track_object_field(&items[i], acc);
        assert(acc@ =~= start + uses_list_object_field(items@.take(i + 1)));
        i = i + 1;
    }
    assert(items@.take(i as int) =~= items@);
}

#[verifier::spinoff_prover]
fn track_list_shared_variable_definition(items: &Vec<Shared<VariableDefinition>>, acc: &mut Vec<Dependency>)
    ensures
        final(acc)@ == old(acc)@ + uses_list_shared_variable_definition(items@),
    decreases items@, 1nat,
{
    let ghost start = acc@;
    let mut i: usize = 0;
    while i < items.len()
        invariant
            i <= items@.len(),
            acc@ == start + uses_list_shared_variable_definition(items@.take(i as int)),
        decreases items.len() - i,
    {
        proof {
            assert(items@.take(i + 1).drop_last() =~= items@.take(i as int));
            assert(items@.take(i + 1).last() == items@[i as int]);
        }
        let ghost before = acc@;
        track_variable_definition(&(*items[i].0), acc);
        assert(acc@ =~= start + uses_list_shared_variable_definition(items@.take(i + 1)));
        i = i + 1;
    }
    assert(items@.take(i as int) =~= items@);
}

#[verifier::spinoff_prover]
fn track_list_shared_directive(items: &Vec<Shared<Directive>>, acc: &mut Vec<Dependency>)
    ensures
        final(acc)@ == old(acc)@ + uses_list_shared_directive(items@),
    decreases items@, 1nat,
{
    let ghost start = acc@;
    let mut i: usize = 0;
    while i < items.len()
        invariant
            i <= items@.len(),
            acc@ == start + uses_list_shared_directive(items@.take(i as int)),
        decreases items.len() - i,
    {
        proof {
            assert(items@.take(i + 1).drop_last() =~= items@.take(i as int));
            assert(items@.take(i + 1).last() == items@[i as int]);
        }
        let ghost before = acc@;
        track_directive(&(*items[i].0), acc);
        assert(acc@ =~= start + uses_list_shared_directive(items@.take(i + 1)));
        i = i + 1;
    }
    assert(items@.take(i as int) =~= items@);
}

#[verifier::spinoff_prover]
fn track_list_type_system_definition(items: &Vec<TypeSystemDefinition>, acc: &mut Vec<Dependency>)
    ensures
        final(acc)@ == old(acc)@ + uses_list_type_system_definition(items@),
    decreases items@, 1nat,
{
    let ghost start = acc@;
    let mut i: usize = 0;
    while i < items.len()
        invariant
            i <= items@.len(),
            acc@ == start + uses_list_type_system_definition(items@.take(i as int)),
        decreases items.len() - i,
    {
        proof {
            assert(items@.take(i + 1).drop_last() =~= items@.take(i as int));
            assert(items@.take(i + 1).last() == items@[i as int]);
        }
        let ghost before = acc@;
        track_type_system_definition(&items[i], acc);
        assert(acc@ =~= start + uses_list_type_system_definition(items@.take(i + 1)));
        i = i + 1;
    }
    assert(items@.take(i as int) =~= items@);
}

#[verifier::spinoff_prover]
fn track_list_type_system_definition_or_extension(items: &Vec<TypeSystemDefinitionOrExtension>, acc: &mut Vec<Dependency>)
    ensures
        final(acc)@ == old(acc)@ + uses_list_type_system_definition_or_extension(items@),
    decreases items@, 1nat,
{
    let ghost start = acc@;
    let mut i: usize = 0;
    while i < items.len()
        invariant
            i <= items@.len(),
            acc@ == start + uses_list_type_system_definition_or_extension(items@.take(i as int)),
        decreases items.len() - i,
    {
        proof {
            assert(items@.take(i + 1).drop_last() =~= items@.take(i as int));
            assert(items@.take(i + 1).last() == items@[i as int]);
        }
        let ghost before = acc@;
        track_type_system_definition_or_extension(&items[i], acc);
        assert(acc@ =~= start + uses_list_type_system_definition_or_extension(items@.take(i + 1)));
        i = i + 1;
    }
    assert(items@.take(i as int) =~= items@);
}

#[verifier::spinoff_prover]
fn track_list_root_operation_type_definition(items: &Vec<RootOperationTypeDefinition>, acc: &mut Vec<Dependency>)
    ensures
        final(acc)@ == old(acc)@ + uses_list_root_operation_type_definition(items@),
    decreases items@, 1nat,
{
    let ghost start = acc@;
    let mut i: usize = 0;
    while i < items.len()
        invariant
            i <= items@.len(),
            acc@ == start + uses_list_root_operation_type_definition(items@.take(i as int)),
        decreases items.len() - i,
    {
        proof {
            assert(items@.take(i + 1).drop_last() =~= items@.take(i as int));
            assert(items@.take(i + 1).last() == items@[i as int]);
        }
        let ghost before = acc@;
        track_root_operation_type_definition(&items[i], acc);
        assert(acc@ =~= start + uses_list_root_operation_type_definition(items@.take(i + 1)));
        i = i + 1;
    }
    assert(items@.take(i as int) =~= items@);
}

#[verifier::spinoff_prover]
fn track_list_punctuator_recoverable_shared_named_type(items: &Vec<(Punctuator, Recoverable<Shared<NamedType>>)>, acc: &mut Vec<Dependency>)
    ensures
        final(acc)@ == old(acc)@ + uses_list_punctuator_recoverable_shared_named_type(items@),
    decreases items@, 1nat,
{
    let ghost start = acc@;
    let mut i: usize = 0;
    while i < items.len()
        invariant
            i <= items@.len(),
            acc@ == start + uses_list_punctuator_recoverable_shared_named_type(items@.take(i as int)),
        decreases items.len() - i,
    {
        proof {
            assert(items@.take(i + 1).drop_last() =~= items@.take(i as int));
            assert(items@.take(i + 1).last() == items@[i as int]);
        }
        let ghost before = acc@;
        if let Recoverable::Present(x) = &items[i].1 {
            track_named_type(&(*x.0), acc);
        }
        assert(acc@ =~= start + uses_list_punctuator_recoverable_shared_named_type(items@.take(i + 1)));
        i = i + 1;
    }
    assert(items@.take(i as int) =~= items@);
}

#[verifier::spinoff_prover]
fn track_list_shared_field_definition(items: &Vec<Shared<FieldDefinition>>, acc: &mut Vec<Dependency>)
    ensures
        final(acc)@ == old(acc)@ + uses_list_shared_field_definition(items@),
    decreases items@, 1nat,
{
    let ghost start = acc@;
    let mut i: usize = 0;
    while i < items.len()
        invariant
            i <= items@.len(),
            acc@ == start + uses_list_shared_field_definition(items@.take(i as int)),
        decreases items.len() - i,
    {
        proof {
            assert(items@.take(i + 1).drop_last() =~= items@.take(i as int));
            assert(items@.take(i + 1).last() == items@[i as int]);
        }
        let ghost before = acc@;
        track_field_definition(&(*items[i].0), acc);
        assert(acc@ =~= start + uses_list_shared_field_definition(items@.take(i + 1)));
        i = i + 1;
    }
    assert(items@.take(i as int) =~= items@);
}

#[verifier::spinoff_prover]
fn track_list_shared_input_value_definition(items: &Vec<Shared<InputValueDefinition>>, acc: &mut Vec<Dependency>)
    ensures
        final(acc)@ == old(acc)@ + uses_list_shared_input_value_definition(items@),
    decreases items@, 1nat,
{
    let ghost start = acc@;
    let mut i: usize = 0;
    while i < items.len()
        invariant
            i <= items@.len(),
            acc@ == start + uses_list_shared_input_value_definition(items@.take(i as int)),
        decreases items.len() - i,
    {
        proof {
            assert(items@.take(i + 1).drop_last() =~= items@.take(i as int));
            assert(items@.take(i + 1).last() == items@[i as int]);
        }
        let ghost before = acc@;
        track_input_value_definition(&(*items[i].0), acc);
        assert(acc@ =~= start + uses_list_shared_input_value_definition(items@.take(i + 1)));
        i = i + 1;
    }
    assert(items@.take(i as int) =~= items@);
}

#[verifier::spinoff_prover]
fn track_list_shared_enum_value_definition(items: &Vec<Shared<EnumValueDefinition>>, acc: &mut Vec<Dependency>)
    ensures
        final(acc)@ == old(acc)@ + uses_list_shared_enum_value_definition(items@),
    decreases items@, 1nat,
{
    let ghost start = acc@;
    let mut i: usize = 0;
    while i < items.len()
        invariant
            i <= items@.len(),
            acc@ == start + uses_list_shared_enum_value_definition(items@.take(i as int)),
        decreases items.len() - i,
    {
        proof {
            assert(items@.take(i + 1).drop_last() =~= items@.take(i as int));
            assert(items@.take(i + 1).last() == items@[i as int]);
        }
        let ghost before = acc@;
        track_enum_value_definition(&(*items[i].0), acc);
        assert(acc@ =~= start + uses_list_shared_enum_value_definition(items@.take(i + 1)));
        i = i + 1;
    }
    assert(items@.take(i as int) =~= items@);
}

#[verifier::spinoff_prover]
fn track_list_punctuator_recoverable_directive_location(items: &Vec<(Punctuator, Recoverable<DirectiveLocation>)>, acc: &mut Vec<Dependency>)
    ensures
        final(acc)@ == old(acc)@ + uses_list_punctuator_recoverable_directive_location(items@),
    decreases items@, 1nat,
{
    let ghost start = acc@;
    let mut i: usize = 0;
    while i < items.len()
        invariant
            i <= items@.len(),
            acc@ == start + uses_list_punctuator_recoverable_directive_location(items@.take(i as int)),
        decreases items.len() - i,
    {
        proof {
            assert(items@.take(i + 1).drop_last() =~= items@.take(i as int));
            assert(items@.take(i + 1).last() == items@[i as int]);
        }
        let ghost before = acc@;
        if let Recoverable::Present(x) = &items[i].1 {
            track_directive_location(&x, acc);
        }
        assert(acc@ =~= start + uses_list_punctuator_recoverable_directive_location(items@.take(i + 1)));
        i = i + 1;
    }
    assert(items@.take(i as int) =~= items@);
}

} // verus!
