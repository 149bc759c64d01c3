//! What formatting writes of type systems, read as tokens: every token of
//! a node, in the order of the source, but for the separators of lists of
//! names, which are written anew.
use vstd::prelude::*;

use crate::ast::context::{node_of, Shared};
use crate::ast::types::{
    present_locations, present_types, ArgumentsDefinition, Definition, Description,
    DirectiveDefinition, DirectiveLocation, DirectiveLocations, Document, EnumTypeDefinition,
    EnumTypeExtension, EnumValue, EnumValueDefinition, EnumValuesDefinition,
    ExecutableDirectiveLocation, FieldDefinition, FieldsDefinition, ImplementsInterfaces,
    InputFieldsDefinition, InputObjectTypeDefinition, InputObjectTypeExtension,
    InputValueDefinition, InterfaceTypeDefinition, InterfaceTypeExtension, NamedType,
    ObjectTypeDefinition, ObjectTypeExtension, Recoverable, RootOperationTypeDefinition,
    RootOperationTypeDefinitions, ScalarTypeDefinition, ScalarTypeExtension, SchemaDefinition,
    SchemaExtension, TypeDefinition, TypeExtension, TypeSystemDefinition,
    TypeSystemDefinitionOrExtension, TypeSystemDirectiveLocation, TypeSystemDocument,
    TypeSystemExtension, TypeSystemExtensionDocument, UnionMemberTypes, UnionTypeDefinition,
    UnionTypeExtension,
};

use super::layout::{
    lemma_written_at_shape, lemma_written_join, lemma_written_lines, lemma_written_push,
    lemma_written_spacing, token_text, written,
};
use super::schema::{line_separated_item, separated_item};
use super::types::{fold, formatted, indent_open_step, Format, Shape};
use super::written::{
    all_texts, lemma_fold_texts, lemma_formatted, lemma_option, lemma_recoverable, lemma_shared,
    law_written_default_value, law_written_directives, law_written_executable_definition,
    law_written_name, law_written_operation_type, law_written_punctuator, law_written_type,
    lemma_written_closing, texts_closing, texts_default_value, texts_directives,
    texts_executable_definition, texts_name, texts_operation_type, texts_punctuator, texts_type,
    writes_texts,
};

verus! {

broadcast use {
    lemma_written_join,
    lemma_written_spacing,
    lemma_written_at_shape,
    lemma_written_push,
    lemma_written_lines,
    Seq::add_empty_left,
    Seq::add_empty_right,
};

pub open spec fn texts_schema_definition(n: SchemaDefinition) -> Seq<Seq<char>> {
    (match n.description { Some(x1) => token_text(x1.0.0.source@), None => Seq::<Seq<char>>::empty() }) + texts_name(n.schema) + (match n.directives { Some(x2) => texts_directives(x2), None => Seq::<Seq<char>>::empty() }) + (match n.type_definitions { Recoverable::Present(x3) => texts_root_operation_type_definitions(x3), Recoverable::Missing(_) => Seq::<Seq<char>>::empty() })
}

pub open spec fn texts_root_operation_type_definition(n: RootOperationTypeDefinition) -> Seq<Seq<char>> {
    texts_operation_type(n.operation_type) + (match n.colon { Recoverable::Present(x10) => texts_punctuator(x10), Recoverable::Missing(_) => Seq::<Seq<char>>::empty() }) + (match n.named_type { Recoverable::Present(x11) => texts_name(x11.0), Recoverable::Missing(_) => Seq::<Seq<char>>::empty() })
}

pub open spec fn texts_schema_extension(n: SchemaExtension) -> Seq<Seq<char>> {
    (texts_name(n.extend_schema.0) + texts_name(n.extend_schema.1)) + (match n.directives { Some(x16) => texts_directives(x16), None => Seq::<Seq<char>>::empty() }) + (match n.type_definitions { Some(x17) => texts_root_operation_type_definitions(x17), None => Seq::<Seq<char>>::empty() })
}

pub open spec fn texts_scalar_type_definition(n: ScalarTypeDefinition) -> Seq<Seq<char>> {
    (match n.description { Some(x22) => token_text(x22.0.0.source@), None => Seq::<Seq<char>>::empty() }) + texts_name(n.scalar) + (match n.name { Recoverable::Present(x23) => texts_name(x23), Recoverable::Missing(_) => Seq::<Seq<char>>::empty() }) + (match n.directives { Some(x24) => texts_directives(x24), None => Seq::<Seq<char>>::empty() })
}

pub open spec fn texts_scalar_type_extension(n: ScalarTypeExtension) -> Seq<Seq<char>> {
    (texts_name(n.extend_scalar.0) + texts_name(n.extend_scalar.1)) + (match n.name { Recoverable::Present(x31) => texts_name(x31.0), Recoverable::Missing(_) => Seq::<Seq<char>>::empty() }) + (match n.directives { Recoverable::Present(x32) => texts_directives(x32), Recoverable::Missing(_) => Seq::<Seq<char>>::empty() })
}

pub open spec fn texts_object_type_definition(n: ObjectTypeDefinition) -> Seq<Seq<char>> {
    (match n.description { Some(x37) => token_text(x37.0.0.source@), None => Seq::<Seq<char>>::empty() }) + texts_name(n.ty) + (match n.name { Recoverable::Present(x38) => texts_name(x38), Recoverable::Missing(_) => Seq::<Seq<char>>::empty() }) + (match n.implements_interfaces { Some(x39) => texts_implements_interfaces(x39), None => Seq::<Seq<char>>::empty() }) + (match n.directives { Some(x40) => texts_directives(x40), None => Seq::<Seq<char>>::empty() }) + (match n.fields_definition { Some(x41) => texts_fields_definition(x41), None => Seq::<Seq<char>>::empty() })
}

pub open spec fn texts_field_definition(n: FieldDefinition) -> Seq<Seq<char>> {
    (match n.description { Some(x52) => token_text(x52.0.0.source@), None => Seq::<Seq<char>>::empty() }) + texts_name(n.name) + (match n.arguments_definition { Some(x53) => texts_arguments_definition(*x53.0), None => Seq::<Seq<char>>::empty() }) + (match n.colon { Recoverable::Present(x54) => texts_punctuator(x54), Recoverable::Missing(_) => Seq::<Seq<char>>::empty() }) + (match n.ty { Recoverable::Present(x55) => texts_type(*x55.0), Recoverable::Missing(_) => Seq::<Seq<char>>::empty() }) + (match n.directives { Some(x56) => texts_directives(x56), None => Seq::<Seq<char>>::empty() })
}

pub open spec fn texts_input_value_definition(n: InputValueDefinition) -> Seq<Seq<char>> {
    (match n.description { Some(x67) => token_text(x67.0.0.source@), None => Seq::<Seq<char>>::empty() }) + texts_name(n.name) + (match n.colon { Recoverable::Present(x68) => texts_punctuator(x68), Recoverable::Missing(_) => Seq::<Seq<char>>::empty() }) + (match n.ty { Recoverable::Present(x69) => texts_type(*x69.0), Recoverable::Missing(_) => Seq::<Seq<char>>::empty() }) + (match n.default_value { Some(x70) => texts_default_value(x70), None => Seq::<Seq<char>>::empty() }) + (match n.directives { Some(x71) => texts_directives(x71), None => Seq::<Seq<char>>::empty() })
}

pub open spec fn texts_object_type_extension(n: ObjectTypeExtension) -> Seq<Seq<char>> {
    (texts_name(n.extend_type.0) + texts_name(n.extend_type.1)) + (match n.name { Recoverable::Present(x82) => texts_name(x82.0), Recoverable::Missing(_) => Seq::<Seq<char>>::empty() }) + (match n.implements_interfaces { Some(x83) => texts_implements_interfaces(x83), None => Seq::<Seq<char>>::empty() }) + (match n.directives { Some(x84) => texts_directives(x84), None => Seq::<Seq<char>>::empty() }) + (match n.fields_definition { Some(x85) => texts_fields_definition(x85), None => Seq::<Seq<char>>::empty() })
}

pub open spec fn texts_interface_type_definition(n: InterfaceTypeDefinition) -> Seq<Seq<char>> {
    (match n.description { Some(x94) => token_text(x94.0.0.source@), None => Seq::<Seq<char>>::empty() }) + texts_name(n.interface) + (match n.name { Recoverable::Present(x95) => texts_name(x95), Recoverable::Missing(_) => Seq::<Seq<char>>::empty() }) + (match n.implements_interfaces { Some(x96) => texts_implements_interfaces(x96), None => Seq::<Seq<char>>::empty() }) + (match n.directives { Some(x97) => texts_directives(x97), None => Seq::<Seq<char>>::empty() }) + (match n.fields_definition { Some(x98) => texts_fields_definition(x98), None => Seq::<Seq<char>>::empty() })
}

pub open spec fn texts_interface_type_extension(n: InterfaceTypeExtension) -> Seq<Seq<char>> {
    (texts_name(n.extend_interface.0) + texts_name(n.extend_interface.1)) + (match n.name { Recoverable::Present(x109) => texts_name(x109.0), Recoverable::Missing(_) => Seq::<Seq<char>>::empty() }) + (match n.implements_interfaces { Some(x110) => texts_implements_interfaces(x110), None => Seq::<Seq<char>>::empty() }) + (match n.directives { Some(x111) => texts_directives(x111), None => Seq::<Seq<char>>::empty() }) + (match n.fields_definition { Some(x112) => texts_fields_definition(x112), None => Seq::<Seq<char>>::empty() })
}

pub open spec fn texts_union_type_definition(n: UnionTypeDefinition) -> Seq<Seq<char>> {
    (match n.description { Some(x121) => token_text(x121.0.0.source@), None => Seq::<Seq<char>>::empty() }) + texts_name(n.union_kw) + (match n.name { Recoverable::Present(x122) => texts_name(x122), Recoverable::Missing(_) => Seq::<Seq<char>>::empty() }) + (match n.directives { Some(x123) => texts_directives(x123), None => Seq::<Seq<char>>::empty() }) + (match n.member_types { Some(x124) => texts_union_member_types(x124), None => Seq::<Seq<char>>::empty() })
}

pub open spec fn texts_union_type_extension(n: UnionTypeExtension) -> Seq<Seq<char>> {
    (texts_name(n.extend_union.0) + texts_name(n.extend_union.1)) + (match n.name { Recoverable::Present(x133) => texts_name(x133.0), Recoverable::Missing(_) => Seq::<Seq<char>>::empty() }) + (match n.directives { Some(x134) => texts_directives(x134), None => Seq::<Seq<char>>::empty() }) + (match n.member_types { Some(x135) => texts_union_member_types(x135), None => Seq::<Seq<char>>::empty() })
}

pub open spec fn texts_enum_type_definition(n: EnumTypeDefinition) -> Seq<Seq<char>> {
    (match n.description { Some(x142) => token_text(x142.0.0.source@), None => Seq::<Seq<char>>::empty() }) + texts_name(n.enum_kw) + (match n.name { Recoverable::Present(x143) => texts_name(x143), Recoverable::Missing(_) => Seq::<Seq<char>>::empty() }) + (match n.directives { Some(x144) => texts_directives(x144), None => Seq::<Seq<char>>::empty() }) + (match n.values_definition { Some(x145) => texts_enum_values_definition(x145), None => Seq::<Seq<char>>::empty() })
}

pub open spec fn texts_enum_value_definition(n: EnumValueDefinition) -> Seq<Seq<char>> {
    (match n.description { Some(x154) => token_text(x154.0.0.source@), None => Seq::<Seq<char>>::empty() }) + texts_name(n.enum_value.0) + (match n.directives { Some(x155) => texts_directives(x155), None => Seq::<Seq<char>>::empty() })
}

pub open spec fn texts_enum_type_extension(n: EnumTypeExtension) -> Seq<Seq<char>> {
    (texts_name(n.extend_enum.0) + texts_name(n.extend_enum.1)) + (match n.name { Recoverable::Present(x160) => texts_name(x160.0), Recoverable::Missing(_) => Seq::<Seq<char>>::empty() }) + (match n.directives { Some(x161) => texts_directives(x161), None => Seq::<Seq<char>>::empty() }) + (match n.values_definition { Some(x162) => texts_enum_values_definition(x162), None => Seq::<Seq<char>>::empty() })
}

pub open spec fn texts_input_object_type_definition(n: InputObjectTypeDefinition) -> Seq<Seq<char>> {
    (match n.description { Some(x169) => token_text(x169.0.0.source@), None => Seq::<Seq<char>>::empty() }) + texts_name(n.input) + (match n.name { Recoverable::Present(x170) => texts_name(x170), Recoverable::Missing(_) => Seq::<Seq<char>>::empty() }) + (match n.directives { Some(x171) => texts_directives(x171), None => Seq::<Seq<char>>::empty() }) + (match n.fields_definition { Some(x172) => texts_input_fields_definition(x172), None => Seq::<Seq<char>>::empty() })
}

pub open spec fn texts_input_object_type_extension(n: InputObjectTypeExtension) -> Seq<Seq<char>> {
    (texts_name(n.extend_input.0) + texts_name(n.extend_input.1)) + (match n.name { Recoverable::Present(x181) => texts_name(x181.0), Recoverable::Missing(_) => Seq::<Seq<char>>::empty() }) + (match n.directives { Some(x182) => texts_directives(x182), None => Seq::<Seq<char>>::empty() }) + (match n.fields_definition { Some(x183) => texts_input_fields_definition(x183), None => Seq::<Seq<char>>::empty() })
}

pub open spec fn texts_directive_definition(n: DirectiveDefinition) -> Seq<Seq<char>> {
    (match n.description { Some(x190) => token_text(x190.0.0.source@), None => Seq::<Seq<char>>::empty() }) + texts_name(n.directive) + (match n.at { Recoverable::Present(x191) => texts_punctuator(x191), Recoverable::Missing(_) => Seq::<Seq<char>>::empty() }) + (match n.name { Recoverable::Present(x192) => texts_name(x192), Recoverable::Missing(_) => Seq::<Seq<char>>::empty() }) + (match n.arguments_definition { Some(x193) => texts_arguments_definition(*x193.0), None => Seq::<Seq<char>>::empty() }) + (match n.repeatable { Some(x194) => texts_name(x194), None => Seq::<Seq<char>>::empty() }) + (match n.locations { Recoverable::Present(x195) => texts_directive_locations(x195), Recoverable::Missing(_) => Seq::<Seq<char>>::empty() })
}

pub open spec fn texts_type_system_definition(n: TypeSystemDefinition) -> Seq<Seq<char>> {
    match n {
        TypeSystemDefinition::SchemaDefinition(x) => texts_schema_definition(x),
        TypeSystemDefinition::TypeDefinition(x) => texts_type_definition(*x.0),
        TypeSystemDefinition::DirectiveDefinition(x) => texts_directive_definition(*x.0),
        TypeSystemDefinition::Error(x) => token_text(x.0.0.source@),
    }
}

pub open spec fn texts_type_definition(n: TypeDefinition) -> Seq<Seq<char>> {
    match n {
        TypeDefinition::ScalarTypeDefinition(x) => texts_scalar_type_definition(x),
        TypeDefinition::ObjectTypeDefinition(x) => texts_object_type_definition(x),
        TypeDefinition::InterfaceTypeDefinition(x) => texts_interface_type_definition(x),
        TypeDefinition::UnionTypeDefinition(x) => texts_union_type_definition(x),
        TypeDefinition::EnumTypeDefinition(x) => texts_enum_type_definition(x),
        TypeDefinition::InputObjectTypeDefinition(x) => texts_input_object_type_definition(x),
    }
}

pub open spec fn texts_type_extension(n: TypeExtension) -> Seq<Seq<char>> {
    match n {
        TypeExtension::ScalarTypeExtension(x) => texts_scalar_type_extension(x),
        TypeExtension::ObjectTypeExtension(x) => texts_object_type_extension(x),
        TypeExtension::InterfaceTypeExtension(x) => texts_interface_type_extension(x),
        TypeExtension::UnionTypeExtension(x) => texts_union_type_extension(x),
        TypeExtension::EnumTypeExtension(x) => texts_enum_type_extension(x),
        TypeExtension::InputObjectTypeExtension(x) => texts_input_object_type_extension(x),
    }
}

pub open spec fn texts_type_system_extension(n: TypeSystemExtension) -> Seq<Seq<char>> {
    match n {
        TypeSystemExtension::SchemaExtension(x) => texts_schema_extension(x),
        TypeSystemExtension::TypeExtension(x) => texts_type_extension(*x.0),
        TypeSystemExtension::Error(x) => texts_name(x),
    }
}

pub open spec fn texts_type_system_definition_or_extension(n: TypeSystemDefinitionOrExtension) -> Seq<Seq<char>> {
    match n {
        TypeSystemDefinitionOrExtension::TypeSystemDefinition(x) => texts_type_system_definition(x),
        TypeSystemDefinitionOrExtension::TypeSystemExtension(x) => texts_type_system_extension(x),
    }
}

pub open spec fn texts_directive_location(n: DirectiveLocation) -> Seq<Seq<char>> {
    match n {
        DirectiveLocation::ExecutableDirectiveLocation(x) => texts_executable_directive_location(x),
        DirectiveLocation::TypeSystemDirectiveLocation(x) => texts_type_system_directive_location(x),
    }
}

pub open spec fn texts_definition(n: Definition) -> Seq<Seq<char>> {
    match n {
        Definition::ExecutableDefinition(x) => texts_executable_definition(x),
        Definition::TypeSystemDefinitionOrExtension(x) => texts_type_system_definition_or_extension(x),
    }
}


pub open spec fn definition_texts() -> spec_fn(Shared<Definition>) -> Seq<Seq<char>> {
    |x: Shared<Definition>| texts_definition(*x.0)
}

pub open spec fn texts_document(n: Document) -> Seq<Seq<char>> {
    all_texts(n.definitions.0@, definition_texts())
}

pub open spec fn type_system_definition_texts() -> spec_fn(TypeSystemDefinition) -> Seq<Seq<char>> {
    |x: TypeSystemDefinition| texts_type_system_definition(x)
}

pub open spec fn texts_type_system_document(n: TypeSystemDocument) -> Seq<Seq<char>> {
    all_texts(n.definitions.0@, type_system_definition_texts())
}

pub open spec fn definition_or_extension_texts() -> spec_fn(TypeSystemDefinitionOrExtension) -> Seq<
    Seq<char>,
> {
    |x: TypeSystemDefinitionOrExtension| texts_type_system_definition_or_extension(x)
}

pub open spec fn texts_type_system_extension_document(n: TypeSystemExtensionDocument) -> Seq<
    Seq<char>,
> {
    all_texts(n.definitions.0@, definition_or_extension_texts())
}

pub open spec fn root_operation_type_definition_texts() -> spec_fn(RootOperationTypeDefinition) -> Seq<
    Seq<char>,
> {
    |x: RootOperationTypeDefinition| texts_root_operation_type_definition(x)
}

pub open spec fn texts_root_operation_type_definitions(n: RootOperationTypeDefinitions) -> Seq<
    Seq<char>,
> {
    texts_punctuator(n.braces.0) + match n.definitions {
        Recoverable::Present(l) => all_texts(l.0@, root_operation_type_definition_texts()),
        Recoverable::Missing(_) => Seq::empty(),
    } + texts_closing(n.braces.1)
}

pub open spec fn field_definition_texts() -> spec_fn(Shared<FieldDefinition>) -> Seq<Seq<char>> {
    |x: Shared<FieldDefinition>| texts_field_definition(*x.0)
}

pub open spec fn texts_fields_definition(n: FieldsDefinition) -> Seq<Seq<char>> {
    texts_punctuator(n.braces.0) + all_texts(n.definitions.0@, field_definition_texts())
        + texts_closing(n.braces.1)
}

pub open spec fn input_value_definition_texts() -> spec_fn(Shared<InputValueDefinition>) -> Seq<
    Seq<char>,
> {
    |x: Shared<InputValueDefinition>| texts_input_value_definition(*x.0)
}

pub open spec fn texts_arguments_definition(n: ArgumentsDefinition) -> Seq<Seq<char>> {
    texts_punctuator(n.parens.0) + all_texts(n.definitions.0@, input_value_definition_texts())
        + texts_closing(n.parens.1)
}

pub open spec fn texts_input_fields_definition(n: InputFieldsDefinition) -> Seq<Seq<char>> {
    texts_punctuator(n.braces.0) + all_texts(n.definitions.0@, input_value_definition_texts())
        + texts_closing(n.braces.1)
}

pub open spec fn enum_value_definition_texts() -> spec_fn(Shared<EnumValueDefinition>) -> Seq<
    Seq<char>,
> {
    |x: Shared<EnumValueDefinition>| texts_enum_value_definition(*x.0)
}

pub open spec fn texts_enum_values_definition(n: EnumValuesDefinition) -> Seq<Seq<char>> {
    texts_punctuator(n.braces.0) + all_texts(n.definitions.0@, enum_value_definition_texts())
        + texts_closing(n.braces.1)
}

/// The texts of the items, the token `sep` between each two.
pub open spec fn separated_texts<T>(items: Seq<T>, f: spec_fn(T) -> Seq<Seq<char>>, sep: Seq<char>) -> Seq<
    Seq<char>,
>
    decreases items.len(),
{
    if items.len() == 0 {
        Seq::empty()
    } else {
        separated_texts(items.drop_last(), f, sep) + (if items.len() > 1 {
            token_text(sep)
        } else {
            Seq::empty()
        }) + f(items.last())
    }
}

/// The texts of the items, each after the token `sep`.
pub open spec fn prefixed_texts<T>(items: Seq<T>, f: spec_fn(T) -> Seq<Seq<char>>, sep: Seq<char>) -> Seq<
    Seq<char>,
>
    decreases items.len(),
{
    if items.len() == 0 {
        Seq::empty()
    } else {
        prefixed_texts(items.drop_last(), f, sep) + token_text(sep) + f(items.last())
    }
}

pub open spec fn named_type_texts() -> spec_fn(Shared<NamedType>) -> Seq<Seq<char>> {
    |x: Shared<NamedType>| texts_name(x.0.0)
}

/// The interfaces named, with `&` between each two (the ampersands as
/// written, and missing names, are not kept).
pub open spec fn texts_implements_interfaces(n: ImplementsInterfaces) -> Seq<Seq<char>> {
    texts_name(n.implements) + separated_texts(
        present_types(n.first, n.types.0@),
        named_type_texts(),
        "&"@,
    )
}

/// The member types named, with `|` between each two, or before each when
/// they are laid out one per line (the pipes as written, and missing names,
/// are not kept).
pub open spec fn texts_union_member_types(n: UnionMemberTypes) -> Seq<Seq<char>> {
    let items = present_types(n.first, n.types.0@);
    texts_punctuator(n.eq) + if items.len() > 3 {
        prefixed_texts(items, named_type_texts(), "|"@)
    } else {
        separated_texts(items, named_type_texts(), "|"@)
    }
}

pub open spec fn location_texts() -> spec_fn(DirectiveLocation) -> Seq<Seq<char>> {
    |x: DirectiveLocation| texts_directive_location(x)
}

/// The locations named, with `|` between each two, or before each when they
/// are laid out one per line (the pipes as written, and missing locations,
/// are not kept).
pub open spec fn texts_directive_locations(n: DirectiveLocations) -> Seq<Seq<char>> {
    let items = present_locations(n.first, n.locations.0@);
    texts_name(n.on) + if items.len() > 3 {
        prefixed_texts(items, location_texts(), "|"@)
    } else {
        separated_texts(items, location_texts(), "|"@)
    }
}

pub open spec fn texts_executable_directive_location(n: ExecutableDirectiveLocation) -> Seq<Seq<char>> {
    match n {
        ExecutableDirectiveLocation::Query(x) => texts_name(x),
        ExecutableDirectiveLocation::Mutation(x) => texts_name(x),
        ExecutableDirectiveLocation::Subscription(x) => texts_name(x),
        ExecutableDirectiveLocation::Field(x) => texts_name(x),
        ExecutableDirectiveLocation::FragmentDefinition(x) => texts_name(x),
        ExecutableDirectiveLocation::FragmentSpread(x) => texts_name(x),
        ExecutableDirectiveLocation::InlineFragment(x) => texts_name(x),
        ExecutableDirectiveLocation::VariableDefinition(x) => texts_name(x),
    }
}

pub open spec fn texts_type_system_directive_location(n: TypeSystemDirectiveLocation) -> Seq<Seq<char>> {
    match n {
        TypeSystemDirectiveLocation::Schema(x) => texts_name(x),
        TypeSystemDirectiveLocation::Scalar(x) => texts_name(x),
        TypeSystemDirectiveLocation::Object(x) => texts_name(x),
        TypeSystemDirectiveLocation::FieldDefinition(x) => texts_name(x),
        TypeSystemDirectiveLocation::ArgumentDefinition(x) => texts_name(x),
        TypeSystemDirectiveLocation::Interface(x) => texts_name(x),
        TypeSystemDirectiveLocation::Union(x) => texts_name(x),
        TypeSystemDirectiveLocation::Enum(x) => texts_name(x),
        TypeSystemDirectiveLocation::EnumValue(x) => texts_name(x),
        TypeSystemDirectiveLocation::InputObject(x) => texts_name(x),
        TypeSystemDirectiveLocation::InputFieldDefinition(x) => texts_name(x),
    }
}

/// A `SchemaDefinition` writes every token it holds, in order.
pub proof fn law_written_schema_definition(n: SchemaDefinition)
    ensures
        writes_texts(n, texts_schema_definition(n)),
{
    if let Some(x4) = n.description {
        law_written_description(x4);
    }
    lemma_option(n.description, (match n.description { Some(x5) => token_text(x5.0.0.source@), None => Seq::<Seq<char>>::empty() }));
    law_written_name(n.schema);
    if let Some(x6) = n.directives {
        law_written_directives(x6);
    }
    lemma_option(n.directives, (match n.directives { Some(x7) => texts_directives(x7), None => Seq::<Seq<char>>::empty() }));
    if let Recoverable::Present(x8) = n.type_definitions {
        law_written_root_operation_type_definitions(x8);
    }
    lemma_recoverable(n.type_definitions, (match n.type_definitions { Recoverable::Present(x9) => texts_root_operation_type_definitions(x9), Recoverable::Missing(_) => Seq::<Seq<char>>::empty() }));
    assert forall|sh: Shape| #[trigger] written(n.collapsed(sh).0) == texts_schema_definition(n) by {}
    assert forall|sh: Shape| #[trigger] written(n.expanded(sh).0) == texts_schema_definition(n) by {}
}

/// A `RootOperationTypeDefinition` writes every token it holds, in order.
pub proof fn law_written_root_operation_type_definition(n: RootOperationTypeDefinition)
    ensures
        writes_texts(n, texts_root_operation_type_definition(n)),
{
    law_written_operation_type(n.operation_type);
    if let Recoverable::Present(x12) = n.colon {
        law_written_punctuator(x12);
    }
    lemma_recoverable(n.colon, (match n.colon { Recoverable::Present(x13) => texts_punctuator(x13), Recoverable::Missing(_) => Seq::<Seq<char>>::empty() }));
    if let Recoverable::Present(x14) = n.named_type {
        law_written_named_type(x14);
    }
    lemma_recoverable(n.named_type, (match n.named_type { Recoverable::Present(x15) => texts_name(x15.0), Recoverable::Missing(_) => Seq::<Seq<char>>::empty() }));
    assert forall|sh: Shape| #[trigger] written(n.collapsed(sh).0) == texts_root_operation_type_definition(n) by {}
    assert forall|sh: Shape| #[trigger] written(n.expanded(sh).0) == texts_root_operation_type_definition(n) by {}
}

/// A `SchemaExtension` writes every token it holds, in order.
pub proof fn law_written_schema_extension(n: SchemaExtension)
    ensures
        writes_texts(n, texts_schema_extension(n)),
{
    law_written_name(n.extend_schema.0);
    law_written_name(n.extend_schema.1);
    lemma_pair(n.extend_schema, texts_name(n.extend_schema.0), texts_name(n.extend_schema.1));
    if let Some(x18) = n.directives {
        law_written_directives(x18);
    }
    lemma_option(n.directives, (match n.directives { Some(x19) => texts_directives(x19), None => Seq::<Seq<char>>::empty() }));
    if let Some(x20) = n.type_definitions {
        law_written_root_operation_type_definitions(x20);
    }
    lemma_option(n.type_definitions, (match n.type_definitions { Some(x21) => texts_root_operation_type_definitions(x21), None => Seq::<Seq<char>>::empty() }));
    assert forall|sh: Shape| #[trigger] written(n.collapsed(sh).0) == texts_schema_extension(n) by {}
    assert forall|sh: Shape| #[trigger] written(n.expanded(sh).0) == texts_schema_extension(n) by {}
}

/// A `ScalarTypeDefinition` writes every token it holds, in order.
pub proof fn law_written_scalar_type_definition(n: ScalarTypeDefinition)
    ensures
        writes_texts(n, texts_scalar_type_definition(n)),
{
    if let Some(x25) = n.description {
        law_written_description(x25);
    }
    lemma_option(n.description, (match n.description { Some(x26) => token_text(x26.0.0.source@), None => Seq::<Seq<char>>::empty() }));
    law_written_name(n.scalar);
    if let Recoverable::Present(x27) = n.name {
        law_written_name(x27);
    }
    lemma_recoverable(n.name, (match n.name { Recoverable::Present(x28) => texts_name(x28), Recoverable::Missing(_) => Seq::<Seq<char>>::empty() }));
    if let Some(x29) = n.directives {
        law_written_directives(x29);
    }
    lemma_option(n.directives, (match n.directives { Some(x30) => texts_directives(x30), None => Seq::<Seq<char>>::empty() }));
    assert forall|sh: Shape| #[trigger] written(n.collapsed(sh).0) == texts_scalar_type_definition(n) by {}
    assert forall|sh: Shape| #[trigger] written(n.expanded(sh).0) == texts_scalar_type_definition(n) by {}
}

/// A `ScalarTypeExtension` writes every token it holds, in order.
pub proof fn law_written_scalar_type_extension(n: ScalarTypeExtension)
    ensures
        writes_texts(n, texts_scalar_type_extension(n)),
{
    law_written_name(n.extend_scalar.0);
    law_written_name(n.extend_scalar.1);
    lemma_pair(n.extend_scalar, texts_name(n.extend_scalar.0), texts_name(n.extend_scalar.1));
    if let Recoverable::Present(x33) = n.name {
        law_written_named_type(x33);
    }
    lemma_recoverable(n.name, (match n.name { Recoverable::Present(x34) => texts_name(x34.0), Recoverable::Missing(_) => Seq::<Seq<char>>::empty() }));
    if let Recoverable::Present(x35) = n.directives {
        law_written_directives(x35);
    }
    lemma_recoverable(n.directives, (match n.directives { Recoverable::Present(x36) => texts_directives(x36), Recoverable::Missing(_) => Seq::<Seq<char>>::empty() }));
    assert forall|sh: Shape| #[trigger] written(n.collapsed(sh).0) == texts_scalar_type_extension(n) by {}
    assert forall|sh: Shape| #[trigger] written(n.expanded(sh).0) == texts_scalar_type_extension(n) by {}
}

/// An `ObjectTypeDefinition` writes every token it holds, in order.
pub proof fn law_written_object_type_definition(n: ObjectTypeDefinition)
    ensures
        writes_texts(n, texts_object_type_definition(n)),
{
    if let Some(x42) = n.description {
        law_written_description(x42);
    }
    lemma_option(n.description, (match n.description { Some(x43) => token_text(x43.0.0.source@), None => Seq::<Seq<char>>::empty() }));
    law_written_name(n.ty);
    if let Recoverable::Present(x44) = n.name {
        law_written_name(x44);
    }
    lemma_recoverable(n.name, (match n.name { Recoverable::Present(x45) => texts_name(x45), Recoverable::Missing(_) => Seq::<Seq<char>>::empty() }));
    if let Some(x46) = n.implements_interfaces {
        law_written_implements_interfaces(x46);
    }
    lemma_option(n.implements_interfaces, (match n.implements_interfaces { Some(x47) => texts_implements_interfaces(x47), None => Seq::<Seq<char>>::empty() }));
    if let Some(x48) = n.directives {
        law_written_directives(x48);
    }
    lemma_option(n.directives, (match n.directives { Some(x49) => texts_directives(x49), None => Seq::<Seq<char>>::empty() }));
    if let Some(x50) = n.fields_definition {
        law_written_fields_definition(x50);
    }
    lemma_option(n.fields_definition, (match n.fields_definition { Some(x51) => texts_fields_definition(x51), None => Seq::<Seq<char>>::empty() }));
    assert forall|sh: Shape| #[trigger] written(n.collapsed(sh).0) == texts_object_type_definition(n) by {}
    assert forall|sh: Shape| #[trigger] written(n.expanded(sh).0) == texts_object_type_definition(n) by {}
}

/// A `FieldDefinition` writes every token it holds, in order.
pub proof fn law_written_field_definition(n: FieldDefinition)
    ensures
        writes_texts(n, texts_field_definition(n)),
{
    if let Some(x57) = n.description {
        law_written_description(x57);
    }
    lemma_option(n.description, (match n.description { Some(x58) => token_text(x58.0.0.source@), None => Seq::<Seq<char>>::empty() }));
    law_written_name(n.name);
    if let Some(x59) = n.arguments_definition {
        law_written_arguments_definition(node_of(x59));
        lemma_shared(x59, texts_arguments_definition(node_of(x59)));
    }
    lemma_option(n.arguments_definition, (match n.arguments_definition { Some(x60) => texts_arguments_definition(node_of(x60)), None => Seq::<Seq<char>>::empty() }));
    if let Recoverable::Present(x61) = n.colon {
        law_written_punctuator(x61);
    }
    lemma_recoverable(n.colon, (match n.colon { Recoverable::Present(x62) => texts_punctuator(x62), Recoverable::Missing(_) => Seq::<Seq<char>>::empty() }));
    if let Recoverable::Present(x63) = n.ty {
        law_written_type(node_of(x63));
        lemma_shared(x63, texts_type(node_of(x63)));
    }
    lemma_recoverable(n.ty, (match n.ty { Recoverable::Present(x64) => texts_type(node_of(x64)), Recoverable::Missing(_) => Seq::<Seq<char>>::empty() }));
    if let Some(x65) = n.directives {
        law_written_directives(x65);
    }
    lemma_option(n.directives, (match n.directives { Some(x66) => texts_directives(x66), None => Seq::<Seq<char>>::empty() }));
    assert forall|sh: Shape| #[trigger] written(n.collapsed(sh).0) == texts_field_definition(n) by {}
    assert forall|sh: Shape| #[trigger] written(n.expanded(sh).0) == texts_field_definition(n) by {}
}

/// An `InputValueDefinition` writes every token it holds, in order.
pub proof fn law_written_input_value_definition(n: InputValueDefinition)
    ensures
        writes_texts(n, texts_input_value_definition(n)),
{
    if let Some(x72) = n.description {
        law_written_description(x72);
    }
    lemma_option(n.description, (match n.description { Some(x73) => token_text(x73.0.0.source@), None => Seq::<Seq<char>>::empty() }));
    law_written_name(n.name);
    if let Recoverable::Present(x74) = n.colon {
        law_written_punctuator(x74);
    }
    lemma_recoverable(n.colon, (match n.colon { Recoverable::Present(x75) => texts_punctuator(x75), Recoverable::Missing(_) => Seq::<Seq<char>>::empty() }));
    if let Recoverable::Present(x76) = n.ty {
        law_written_type(node_of(x76));
        lemma_shared(x76, texts_type(node_of(x76)));
    }
    lemma_recoverable(n.ty, (match n.ty { Recoverable::Present(x77) => texts_type(node_of(x77)), Recoverable::Missing(_) => Seq::<Seq<char>>::empty() }));
    if let Some(x78) = n.default_value {
        law_written_default_value(x78);
    }
    lemma_option(n.default_value, (match n.default_value { Some(x79) => texts_default_value(x79), None => Seq::<Seq<char>>::empty() }));
    if let Some(x80) = n.directives {
        law_written_directives(x80);
    }
    lemma_option(n.directives, (match n.directives { Some(x81) => texts_directives(x81), None => Seq::<Seq<char>>::empty() }));
    assert forall|sh: Shape| #[trigger] written(n.collapsed(sh).0) == texts_input_value_definition(n) by {}
    assert forall|sh: Shape| #[trigger] written(n.expanded(sh).0) == texts_input_value_definition(n) by {}
}

/// An `ObjectTypeExtension` writes every token it holds, in order.
pub proof fn law_written_object_type_extension(n: ObjectTypeExtension)
    ensures
        writes_texts(n, texts_object_type_extension(n)),
{
    law_written_name(n.extend_type.0);
    law_written_name(n.extend_type.1);
    lemma_pair(n.extend_type, texts_name(n.extend_type.0), texts_name(n.extend_type.1));
    if let Recoverable::Present(x86) = n.name {
        law_written_named_type(x86);
    }
    lemma_recoverable(n.name, (match n.name { Recoverable::Present(x87) => texts_name(x87.0), Recoverable::Missing(_) => Seq::<Seq<char>>::empty() }));
    if let Some(x88) = n.implements_interfaces {
        law_written_implements_interfaces(x88);
    }
    lemma_option(n.implements_interfaces, (match n.implements_interfaces { Some(x89) => texts_implements_interfaces(x89), None => Seq::<Seq<char>>::empty() }));
    if let Some(x90) = n.directives {
        law_written_directives(x90);
    }
    lemma_option(n.directives, (match n.directives { Some(x91) => texts_directives(x91), None => Seq::<Seq<char>>::empty() }));
    if let Some(x92) = n.fields_definition {
        law_written_fields_definition(x92);
    }
    lemma_option(n.fields_definition, (match n.fields_definition { Some(x93) => texts_fields_definition(x93), None => Seq::<Seq<char>>::empty() }));
    assert forall|sh: Shape| #[trigger] written(n.collapsed(sh).0) == texts_object_type_extension(n) by {}
    assert forall|sh: Shape| #[trigger] written(n.expanded(sh).0) == texts_object_type_extension(n) by {}
}

/// An `InterfaceTypeDefinition` writes every token it holds, in order.
pub proof fn law_written_interface_type_definition(n: InterfaceTypeDefinition)
    ensures
        writes_texts(n, texts_interface_type_definition(n)),
{
    if let Some(x99) = n.description {
        law_written_description(x99);
    }
    lemma_option(n.description, (match n.description { Some(x100) => token_text(x100.0.0.source@), None => Seq::<Seq<char>>::empty() }));
    law_written_name(n.interface);
    if let Recoverable::Present(x101) = n.name {
        law_written_name(x101);
    }
    lemma_recoverable(n.name, (match n.name { Recoverable::Present(x102) => texts_name(x102), Recoverable::Missing(_) => Seq::<Seq<char>>::empty() }));
    if let Some(x103) = n.implements_interfaces {
        law_written_implements_interfaces(x103);
    }
    lemma_option(n.implements_interfaces, (match n.implements_interfaces { Some(x104) => texts_implements_interfaces(x104), None => Seq::<Seq<char>>::empty() }));
    if let Some(x105) = n.directives {
        law_written_directives(x105);
    }
    lemma_option(n.directives, (match n.directives { Some(x106) => texts_directives(x106), None => Seq::<Seq<char>>::empty() }));
    if let Some(x107) = n.fields_definition {
        law_written_fields_definition(x107);
    }
    lemma_option(n.fields_definition, (match n.fields_definition { Some(x108) => texts_fields_definition(x108), None => Seq::<Seq<char>>::empty() }));
    assert forall|sh: Shape| #[trigger] written(n.collapsed(sh).0) == texts_interface_type_definition(n) by {}
    assert forall|sh: Shape| #[trigger] written(n.expanded(sh).0) == texts_interface_type_definition(n) by {}
}

/// An `InterfaceTypeExtension` writes every token it holds, in order.
pub proof fn law_written_interface_type_extension(n: InterfaceTypeExtension)
    ensures
        writes_texts(n, texts_interface_type_extension(n)),
{
    law_written_name(n.extend_interface.0);
    law_written_name(n.extend_interface.1);
    lemma_pair(n.extend_interface, texts_name(n.extend_interface.0), texts_name(n.extend_interface.1));
    if let Recoverable::Present(x113) = n.name {
        law_written_named_type(x113);
    }
    lemma_recoverable(n.name, (match n.name { Recoverable::Present(x114) => texts_name(x114.0), Recoverable::Missing(_) => Seq::<Seq<char>>::empty() }));
    if let Some(x115) = n.implements_interfaces {
        law_written_implements_interfaces(x115);
    }
    lemma_option(n.implements_interfaces, (match n.implements_interfaces { Some(x116) => texts_implements_interfaces(x116), None => Seq::<Seq<char>>::empty() }));
    if let Some(x117) = n.directives {
        law_written_directives(x117);
    }
    lemma_option(n.directives, (match n.directives { Some(x118) => texts_directives(x118), None => Seq::<Seq<char>>::empty() }));
    if let Some(x119) = n.fields_definition {
        law_written_fields_definition(x119);
    }
    lemma_option(n.fields_definition, (match n.fields_definition { Some(x120) => texts_fields_definition(x120), None => Seq::<Seq<char>>::empty() }));
    assert forall|sh: Shape| #[trigger] written(n.collapsed(sh).0) == texts_interface_type_extension(n) by {}
    assert forall|sh: Shape| #[trigger] written(n.expanded(sh).0) == texts_interface_type_extension(n) by {}
}

/// An `UnionTypeDefinition` writes every token it holds, in order.
pub proof fn law_written_union_type_definition(n: UnionTypeDefinition)
    ensures
        writes_texts(n, texts_union_type_definition(n)),
{
    if let Some(x125) = n.description {
        law_written_description(x125);
    }
    lemma_option(n.description, (match n.description { Some(x126) => token_text(x126.0.0.source@), None => Seq::<Seq<char>>::empty() }));
    law_written_name(n.union_kw);
    if let Recoverable::Present(x127) = n.name {
        law_written_name(x127);
    }
    lemma_recoverable(n.name, (match n.name { Recoverable::Present(x128) => texts_name(x128), Recoverable::Missing(_) => Seq::<Seq<char>>::empty() }));
    if let Some(x129) = n.directives {
        law_written_directives(x129);
    }
    lemma_option(n.directives, (match n.directives { Some(x130) => texts_directives(x130), None => Seq::<Seq<char>>::empty() }));
    if let Some(x131) = n.member_types {
        law_written_union_member_types(x131);
    }
    lemma_option(n.member_types, (match n.member_types { Some(x132) => texts_union_member_types(x132), None => Seq::<Seq<char>>::empty() }));
    assert forall|sh: Shape| #[trigger] written(n.collapsed(sh).0) == texts_union_type_definition(n) by {}
    assert forall|sh: Shape| #[trigger] written(n.expanded(sh).0) == texts_union_type_definition(n) by {}
}

/// An `UnionTypeExtension` writes every token it holds, in order.
pub proof fn law_written_union_type_extension(n: UnionTypeExtension)
    ensures
        writes_texts(n, texts_union_type_extension(n)),
{
    law_written_name(n.extend_union.0);
    law_written_name(n.extend_union.1);
    lemma_pair(n.extend_union, texts_name(n.extend_union.0), texts_name(n.extend_union.1));
    if let Recoverable::Present(x136) = n.name {
        law_written_named_type(x136);
    }
    lemma_recoverable(n.name, (match n.name { Recoverable::Present(x137) => texts_name(x137.0), Recoverable::Missing(_) => Seq::<Seq<char>>::empty() }));
    if let Some(x138) = n.directives {
        law_written_directives(x138);
    }
    lemma_option(n.directives, (match n.directives { Some(x139) => texts_directives(x139), None => Seq::<Seq<char>>::empty() }));
    if let Some(x140) = n.member_types {
        law_written_union_member_types(x140);
    }
    lemma_option(n.member_types, (match n.member_types { Some(x141) => texts_union_member_types(x141), None => Seq::<Seq<char>>::empty() }));
    assert forall|sh: Shape| #[trigger] written(n.collapsed(sh).0) == texts_union_type_extension(n) by {}
    assert forall|sh: Shape| #[trigger] written(n.expanded(sh).0) == texts_union_type_extension(n) by {}
}

/// An `EnumTypeDefinition` writes every token it holds, in order.
pub proof fn law_written_enum_type_definition(n: EnumTypeDefinition)
    ensures
        writes_texts(n, texts_enum_type_definition(n)),
{
    if let Some(x146) = n.description {
        law_written_description(x146);
    }
    lemma_option(n.description, (match n.description { Some(x147) => token_text(x147.0.0.source@), None => Seq::<Seq<char>>::empty() }));
    law_written_name(n.enum_kw);
    if let Recoverable::Present(x148) = n.name {
        law_written_name(x148);
    }
    lemma_recoverable(n.name, (match n.name { Recoverable::Present(x149) => texts_name(x149), Recoverable::Missing(_) => Seq::<Seq<char>>::empty() }));
    if let Some(x150) = n.directives {
        law_written_directives(x150);
    }
    lemma_option(n.directives, (match n.directives { Some(x151) => texts_directives(x151), None => Seq::<Seq<char>>::empty() }));
    if let Some(x152) = n.values_definition {
        law_written_enum_values_definition(x152);
    }
    lemma_option(n.values_definition, (match n.values_definition { Some(x153) => texts_enum_values_definition(x153), None => Seq::<Seq<char>>::empty() }));
    assert forall|sh: Shape| #[trigger] written(n.collapsed(sh).0) == texts_enum_type_definition(n) by {}
    assert forall|sh: Shape| #[trigger] written(n.expanded(sh).0) == texts_enum_type_definition(n) by {}
}

/// An `EnumValueDefinition` writes every token it holds, in order.
pub proof fn law_written_enum_value_definition(n: EnumValueDefinition)
    ensures
        writes_texts(n, texts_enum_value_definition(n)),
{
    if let Some(x156) = n.description {
        law_written_description(x156);
    }
    lemma_option(n.description, (match n.description { Some(x157) => token_text(x157.0.0.source@), None => Seq::<Seq<char>>::empty() }));
    law_written_enum_value(n.enum_value);
    if let Some(x158) = n.directives {
        law_written_directives(x158);
    }
    lemma_option(n.directives, (match n.directives { Some(x159) => texts_directives(x159), None => Seq::<Seq<char>>::empty() }));
    assert forall|sh: Shape| #[trigger] written(n.collapsed(sh).0) == texts_enum_value_definition(n) by {}
    assert forall|sh: Shape| #[trigger] written(n.expanded(sh).0) == texts_enum_value_definition(n) by {}
}

/// An `EnumTypeExtension` writes every token it holds, in order.
pub proof fn law_written_enum_type_extension(n: EnumTypeExtension)
    ensures
        writes_texts(n, texts_enum_type_extension(n)),
{
    law_written_name(n.extend_enum.0);
    law_written_name(n.extend_enum.1);
    lemma_pair(n.extend_enum, texts_name(n.extend_enum.0), texts_name(n.extend_enum.1));
    if let Recoverable::Present(x163) = n.name {
        law_written_named_type(x163);
    }
    lemma_recoverable(n.name, (match n.name { Recoverable::Present(x164) => texts_name(x164.0), Recoverable::Missing(_) => Seq::<Seq<char>>::empty() }));
    if let Some(x165) = n.directives {
        law_written_directives(x165);
    }
    lemma_option(n.directives, (match n.directives { Some(x166) => texts_directives(x166), None => Seq::<Seq<char>>::empty() }));
    if let Some(x167) = n.values_definition {
        law_written_enum_values_definition(x167);
    }
    lemma_option(n.values_definition, (match n.values_definition { Some(x168) => texts_enum_values_definition(x168), None => Seq::<Seq<char>>::empty() }));
    assert forall|sh: Shape| #[trigger] written(n.collapsed(sh).0) == texts_enum_type_extension(n) by {}
    assert forall|sh: Shape| #[trigger] written(n.expanded(sh).0) == texts_enum_type_extension(n) by {}
}

/// An `InputObjectTypeDefinition` writes every token it holds, in order.
pub proof fn law_written_input_object_type_definition(n: InputObjectTypeDefinition)
    ensures
        writes_texts(n, texts_input_object_type_definition(n)),
{
    if let Some(x173) = n.description {
        law_written_description(x173);
    }
    lemma_option(n.description, (match n.description { Some(x174) => token_text(x174.0.0.source@), None => Seq::<Seq<char>>::empty() }));
    law_written_name(n.input);
    if let Recoverable::Present(x175) = n.name {
        law_written_name(x175);
    }
    lemma_recoverable(n.name, (match n.name { Recoverable::Present(x176) => texts_name(x176), Recoverable::Missing(_) => Seq::<Seq<char>>::empty() }));
    if let Some(x177) = n.directives {
        law_written_directives(x177);
    }
    lemma_option(n.directives, (match n.directives { Some(x178) => texts_directives(x178), None => Seq::<Seq<char>>::empty() }));
    if let Some(x179) = n.fields_definition {
        law_written_input_fields_definition(x179);
    }
    lemma_option(n.fields_definition, (match n.fields_definition { Some(x180) => texts_input_fields_definition(x180), None => Seq::<Seq<char>>::empty() }));
    assert forall|sh: Shape| #[trigger] written(n.collapsed(sh).0) == texts_input_object_type_definition(n) by {}
    assert forall|sh: Shape| #[trigger] written(n.expanded(sh).0) == texts_input_object_type_definition(n) by {}
}

/// An `InputObjectTypeExtension` writes every token it holds, in order.
pub proof fn law_written_input_object_type_extension(n: InputObjectTypeExtension)
    ensures
        writes_texts(n, texts_input_object_type_extension(n)),
{
    law_written_name(n.extend_input.0);
    law_written_name(n.extend_input.1);
    lemma_pair(n.extend_input, texts_name(n.extend_input.0), texts_name(n.extend_input.1));
    if let Recoverable::Present(x184) = n.name {
        law_written_named_type(x184);
    }
    lemma_recoverable(n.name, (match n.name { Recoverable::Present(x185) => texts_name(x185.0), Recoverable::Missing(_) => Seq::<Seq<char>>::empty() }));
    if let Some(x186) = n.directives {
        law_written_directives(x186);
    }
    lemma_option(n.directives, (match n.directives { Some(x187) => texts_directives(x187), None => Seq::<Seq<char>>::empty() }));
    if let Some(x188) = n.fields_definition {
        law_written_input_fields_definition(x188);
    }
    lemma_option(n.fields_definition, (match n.fields_definition { Some(x189) => texts_input_fields_definition(x189), None => Seq::<Seq<char>>::empty() }));
    assert forall|sh: Shape| #[trigger] written(n.collapsed(sh).0) == texts_input_object_type_extension(n) by {}
    assert forall|sh: Shape| #[trigger] written(n.expanded(sh).0) == texts_input_object_type_extension(n) by {}
}

/// A `DirectiveDefinition` writes every token it holds, in order.
pub proof fn law_written_directive_definition(n: DirectiveDefinition)
    ensures
        writes_texts(n, texts_directive_definition(n)),
{
    if let Some(x196) = n.description {
        law_written_description(x196);
    }
    lemma_option(n.description, (match n.description { Some(x197) => token_text(x197.0.0.source@), None => Seq::<Seq<char>>::empty() }));
    law_written_name(n.directive);
    if let Recoverable::Present(x198) = n.at {
        law_written_punctuator(x198);
    }
    lemma_recoverable(n.at, (match n.at { Recoverable::Present(x199) => texts_punctuator(x199), Recoverable::Missing(_) => Seq::<Seq<char>>::empty() }));
    if let Recoverable::Present(x200) = n.name {
        law_written_name(x200);
    }
    lemma_recoverable(n.name, (match n.name { Recoverable::Present(x201) => texts_name(x201), Recoverable::Missing(_) => Seq::<Seq<char>>::empty() }));
    if let Some(x202) = n.arguments_definition {
        law_written_arguments_definition(node_of(x202));
        lemma_shared(x202, texts_arguments_definition(node_of(x202)));
    }
    lemma_option(n.arguments_definition, (match n.arguments_definition { Some(x203) => texts_arguments_definition(node_of(x203)), None => Seq::<Seq<char>>::empty() }));
    if let Some(x204) = n.repeatable {
        law_written_name(x204);
    }
    lemma_option(n.repeatable, (match n.repeatable { Some(x205) => texts_name(x205), None => Seq::<Seq<char>>::empty() }));
    if let Recoverable::Present(x206) = n.locations {
        law_written_directive_locations(x206);
    }
    lemma_recoverable(n.locations, (match n.locations { Recoverable::Present(x207) => texts_directive_locations(x207), Recoverable::Missing(_) => Seq::<Seq<char>>::empty() }));
    assert forall|sh: Shape| #[trigger] written(n.collapsed(sh).0) == texts_directive_definition(n) by {}
    assert forall|sh: Shape| #[trigger] written(n.expanded(sh).0) == texts_directive_definition(n) by {}
}

/// A `TypeSystemDefinition` writes the tokens of what it holds.
pub proof fn law_written_type_system_definition(n: TypeSystemDefinition)
    ensures
        writes_texts(n, texts_type_system_definition(n)),
{
    match n {
        TypeSystemDefinition::SchemaDefinition(x) => {
            law_written_schema_definition(x);
        },
        TypeSystemDefinition::TypeDefinition(x) => {
            law_written_type_definition(node_of(x));
            lemma_shared(x, texts_type_definition(node_of(x)));
        },
        TypeSystemDefinition::DirectiveDefinition(x) => {
            law_written_directive_definition(node_of(x));
            lemma_shared(x, texts_directive_definition(node_of(x)));
        },
        TypeSystemDefinition::Error(x) => {
            law_written_description(x);
        },
    }
}

/// A `TypeDefinition` writes the tokens of what it holds.
pub proof fn law_written_type_definition(n: TypeDefinition)
    ensures
        writes_texts(n, texts_type_definition(n)),
{
    match n {
        TypeDefinition::ScalarTypeDefinition(x) => {
            law_written_scalar_type_definition(x);
        },
        TypeDefinition::ObjectTypeDefinition(x) => {
            law_written_object_type_definition(x);
        },
        TypeDefinition::InterfaceTypeDefinition(x) => {
            law_written_interface_type_definition(x);
        },
        TypeDefinition::UnionTypeDefinition(x) => {
            law_written_union_type_definition(x);
        },
        TypeDefinition::EnumTypeDefinition(x) => {
            law_written_enum_type_definition(x);
        },
        TypeDefinition::InputObjectTypeDefinition(x) => {
            law_written_input_object_type_definition(x);
        },
    }
}

/// A `TypeExtension` writes the tokens of what it holds.
pub proof fn law_written_type_extension(n: TypeExtension)
    ensures
        writes_texts(n, texts_type_extension(n)),
{
    match n {
        TypeExtension::ScalarTypeExtension(x) => {
            law_written_scalar_type_extension(x);
        },
        TypeExtension::ObjectTypeExtension(x) => {
            law_written_object_type_extension(x);
        },
        TypeExtension::InterfaceTypeExtension(x) => {
            law_written_interface_type_extension(x);
        },
        TypeExtension::UnionTypeExtension(x) => {
            law_written_union_type_extension(x);
        },
        TypeExtension::EnumTypeExtension(x) => {
            law_written_enum_type_extension(x);
        },
        TypeExtension::InputObjectTypeExtension(x) => {
            law_written_input_object_type_extension(x);
        },
    }
}

/// A `TypeSystemExtension` writes the tokens of what it holds.
pub proof fn law_written_type_system_extension(n: TypeSystemExtension)
    ensures
        writes_texts(n, texts_type_system_extension(n)),
{
    match n {
        TypeSystemExtension::SchemaExtension(x) => {
            law_written_schema_extension(x);
        },
        TypeSystemExtension::TypeExtension(x) => {
            law_written_type_extension(node_of(x));
            lemma_shared(x, texts_type_extension(node_of(x)));
        },
        TypeSystemExtension::Error(x) => {
            law_written_name(x);
        },
    }
}

/// A `TypeSystemDefinitionOrExtension` writes the tokens of what it holds.
pub proof fn law_written_type_system_definition_or_extension(n: TypeSystemDefinitionOrExtension)
    ensures
        writes_texts(n, texts_type_system_definition_or_extension(n)),
{
    match n {
        TypeSystemDefinitionOrExtension::TypeSystemDefinition(x) => {
            law_written_type_system_definition(x);
        },
        TypeSystemDefinitionOrExtension::TypeSystemExtension(x) => {
            law_written_type_system_extension(x);
        },
    }
}

/// A `DirectiveLocation` writes the tokens of what it holds.
pub proof fn law_written_directive_location(n: DirectiveLocation)
    ensures
        writes_texts(n, texts_directive_location(n)),
{
    match n {
        DirectiveLocation::ExecutableDirectiveLocation(x) => {
            law_written_executable_directive_location(x);
        },
        DirectiveLocation::TypeSystemDirectiveLocation(x) => {
            law_written_type_system_directive_location(x);
        },
    }
}

/// A `Definition` writes the tokens of what it holds.
pub proof fn law_written_definition(n: Definition)
    ensures
        writes_texts(n, texts_definition(n)),
{
    match n {
        Definition::ExecutableDefinition(x) => {
            law_written_executable_definition(x);
        },
        Definition::TypeSystemDefinitionOrExtension(x) => {
            law_written_type_system_definition_or_extension(x);
        },
    }
}

/// A named type writes its name.
pub proof fn law_written_named_type(n: NamedType)
    ensures
        writes_texts(n, texts_name(n.0)),
{
    law_written_name(n.0);
}

/// An enum value writes its name.
pub proof fn law_written_enum_value(n: EnumValue)
    ensures
        writes_texts(n, texts_name(n.0)),
{
    law_written_name(n.0);
}

/// A description writes its string as it stands.
pub proof fn law_written_description(n: Description)
    ensures
        writes_texts(n, token_text(n.0.0.source@)),
{
    lemma_formatted(n.0, token_text(n.0.0.source@));
}

/// A location of a directive writes its keyword.
pub proof fn law_written_executable_directive_location(n: ExecutableDirectiveLocation)
    ensures
        writes_texts(n, texts_executable_directive_location(n)),
{
}

/// A location of a directive writes its keyword.
pub proof fn law_written_type_system_directive_location(n: TypeSystemDirectiveLocation)
    ensures
        writes_texts(n, texts_type_system_directive_location(n)),
{
}

/// Two nodes one after the other write the tokens of the first, then of
/// the second.
pub proof fn lemma_pair<A: Format, B: Format>(n: (A, B), a: Seq<Seq<char>>, b: Seq<Seq<char>>)
    requires
        writes_texts(n.0, a),
        writes_texts(n.1, b),
    ensures
        writes_texts(n, a + b),
{
    lemma_formatted(n.0, a);
    lemma_formatted(n.1, b);
    assert forall|sh: Shape| #[trigger] written(n.collapsed(sh).0) == a + b by {
        let first = formatted(&n.0, sh);
        assert(written(formatted(&n.1, first.1).0) == b);
    }
}

/// Items each after the token `sep` on a line of their own, or with `sep`
/// between each two, write the separators and the tokens of each item.
pub proof fn lemma_fold_separated<T: Format>(items: Seq<T>, sh: Shape, f: spec_fn(T) -> Seq<Seq<char>>, sep: Seq<char>)
    requires
        forall|i: int| 0 <= i < items.len() ==> writes_texts(#[trigger] items[i], f(items[i])),
    ensures
        written(fold(items, sh, separated_item::<T>(sep)).0) == separated_texts(items, f, sep),
        written(fold(items, sh, line_separated_item::<T>(sep)).0) == prefixed_texts(items, f, sep),
    decreases items.len(),
{
    if items.len() > 0 {
        let shorter = items.drop_last();
        assert forall|i: int| 0 <= i < shorter.len() implies writes_texts(
            #[trigger] shorter[i],
            f(shorter[i]),
        ) by {
            assert(shorter[i] == items[i]);
        }
        lemma_fold_separated(shorter, sh, f, sep);
        let x = items.last();
        assert(writes_texts(items[items.len() - 1], f(items[items.len() - 1])));
        lemma_formatted(x, f(x));
    }
}

/// The interfaces a type implements are written as `implements` and the
/// names present, `&` between each two.
pub proof fn law_written_implements_interfaces(n: ImplementsInterfaces)
    ensures
        writes_texts(n, texts_implements_interfaces(n)),
{
    law_written_name(n.implements);
    let items = present_types(n.first, n.types.0@);
    let f = named_type_texts();
    assert forall|i: int| 0 <= i < items.len() implies writes_texts(#[trigger] items[i], f(items[i])) by {
        law_written_named_type(node_of(items[i]));
        lemma_shared(items[i], texts_name(items[i].0.0));
    }
    assert forall|sh: Shape| #[trigger] written(n.collapsed(sh).0) == texts_implements_interfaces(n) by {
        let s1 = formatted(&n.implements, sh);
        lemma_fold_separated(items, s1.1, f, "&"@);
    }
    assert forall|sh: Shape| #[trigger] written(n.expanded(sh).0) == texts_implements_interfaces(n) by {
        let s1 = formatted(&n.implements, sh);
        lemma_fold_separated(items, s1.1, f, "&"@);
    }
}

/// Union member types are written as `=` and the names present, `|`
/// between each two or before each.
pub proof fn law_written_union_member_types(n: UnionMemberTypes)
    ensures
        writes_texts(n, texts_union_member_types(n)),
{
    law_written_punctuator(n.eq);
    let items = present_types(n.first, n.types.0@);
    let f = named_type_texts();
    assert forall|i: int| 0 <= i < items.len() implies writes_texts(#[trigger] items[i], f(items[i])) by {
        law_written_named_type(node_of(items[i]));
        lemma_shared(items[i], texts_name(items[i].0.0));
    }
    assert forall|sh: Shape| #[trigger] written(n.collapsed(sh).0) == texts_union_member_types(n) by {
        let s1 = formatted(&n.eq, sh);
        lemma_fold_separated(items, s1.1, f, "|"@);
        lemma_fold_separated(items, indent_open_step(s1.1).1, f, "|"@);
    }
    assert forall|sh: Shape| #[trigger] written(n.expanded(sh).0) == texts_union_member_types(n) by {
        assert(written(n.collapsed(sh).0) == texts_union_member_types(n));
    }
}

/// The locations of a directive are written as `on` and the locations
/// present, `|` between each two or before each.
pub proof fn law_written_directive_locations(n: DirectiveLocations)
    ensures
        writes_texts(n, texts_directive_locations(n)),
{
    law_written_name(n.on);
    let items = present_locations(n.first, n.locations.0@);
    let f = location_texts();
    assert forall|i: int| 0 <= i < items.len() implies writes_texts(#[trigger] items[i], f(items[i])) by {
        law_written_directive_location(items[i]);
    }
    assert forall|sh: Shape| #[trigger] written(n.collapsed(sh).0) == texts_directive_locations(n) by {
        let s1 = formatted(&n.on, sh);
        lemma_fold_separated(items, s1.1, f, "|"@);
        lemma_fold_separated(items, indent_open_step(s1.1).1, f, "|"@);
    }
    assert forall|sh: Shape| #[trigger] written(n.expanded(sh).0) == texts_directive_locations(n) by {
        assert(written(n.collapsed(sh).0) == texts_directive_locations(n));
    }
}

/// A document writes each definition, in order.
pub proof fn law_written_document(n: Document)
    ensures
        writes_texts(n, texts_document(n)),
{
    let items = n.definitions.0@;
    let f = definition_texts();
    assert forall|i: int| 0 <= i < items.len() implies writes_texts(#[trigger] items[i], f(items[i])) by {
        law_written_definition(node_of(items[i]));
        lemma_shared(items[i], texts_definition(node_of(items[i])));
    }
    assert forall|sh: Shape| #[trigger] written(n.collapsed(sh).0) == texts_document(n) by {
        lemma_fold_texts(items, sh, f);
    }
    assert forall|sh: Shape| #[trigger] written(n.expanded(sh).0) == texts_document(n) by {
        lemma_fold_texts(items, sh, f);
    }
}

/// A type system document writes each definition, in order.
pub proof fn law_written_type_system_document(n: TypeSystemDocument)
    ensures
        writes_texts(n, texts_type_system_document(n)),
{
    let items = n.definitions.0@;
    let f = type_system_definition_texts();
    assert forall|i: int| 0 <= i < items.len() implies writes_texts(#[trigger] items[i], f(items[i])) by {
        law_written_type_system_definition(items[i]);
    }
    assert forall|sh: Shape| #[trigger] written(n.collapsed(sh).0) == texts_type_system_document(n) by {
        lemma_fold_texts(items, sh, f);
    }
    assert forall|sh: Shape| #[trigger] written(n.expanded(sh).0) == texts_type_system_document(n) by {
        lemma_fold_texts(items, sh, f);
    }
}

/// A type system extension document writes each definition or extension,
/// in order.
pub proof fn law_written_type_system_extension_document(n: TypeSystemExtensionDocument)
    ensures
        writes_texts(n, texts_type_system_extension_document(n)),
{
    let items = n.definitions.0@;
    let f = definition_or_extension_texts();
    assert forall|i: int| 0 <= i < items.len() implies writes_texts(#[trigger] items[i], f(items[i])) by {
        law_written_type_system_definition_or_extension(items[i]);
    }
    assert forall|sh: Shape| #[trigger]
        written(n.collapsed(sh).0) == texts_type_system_extension_document(n) by {
        lemma_fold_texts(items, sh, f);
    }
    assert forall|sh: Shape| #[trigger]
        written(n.expanded(sh).0) == texts_type_system_extension_document(n) by {
        lemma_fold_texts(items, sh, f);
    }
}

/// The root operation types are written in braces, each in turn.
pub proof fn law_written_root_operation_type_definitions(n: RootOperationTypeDefinitions)
    ensures
        writes_texts(n, texts_root_operation_type_definitions(n)),
{
    law_written_punctuator(n.braces.0);
    lemma_written_closing(n.braces.1);
    let items = match n.definitions {
        Recoverable::Present(l) => l.0@,
        Recoverable::Missing(_) => Seq::empty(),
    };
    let f = root_operation_type_definition_texts();
    assert forall|i: int| 0 <= i < items.len() implies writes_texts(#[trigger] items[i], f(items[i])) by {
        law_written_root_operation_type_definition(items[i]);
    }
    assert(all_texts(items, f) == match n.definitions {
        Recoverable::Present(l) => all_texts(l.0@, f),
        Recoverable::Missing(_) => Seq::<Seq<char>>::empty(),
    });
    assert forall|sh: Shape| #[trigger]
        written(n.collapsed(sh).0) == texts_root_operation_type_definitions(n) by {
        let s1 = formatted(&n.braces.0, sh);
        lemma_fold_texts(items, indent_open_step(s1.1).1, f);
    }
    assert forall|sh: Shape| #[trigger]
        written(n.expanded(sh).0) == texts_root_operation_type_definitions(n) by {
        assert(written(n.collapsed(sh).0) == texts_root_operation_type_definitions(n));
    }
}

/// A `FieldsDefinition` writes its braces and each definition, in order.
pub proof fn law_written_fields_definition(n: FieldsDefinition)
    ensures
        writes_texts(n, texts_fields_definition(n)),
{
    law_written_punctuator(n.braces.0);
    lemma_written_closing(n.braces.1);
    let items = n.definitions.0@;
    let f = field_definition_texts();
    assert forall|i: int| 0 <= i < items.len() implies writes_texts(#[trigger] items[i], f(items[i])) by {
        law_written_field_definition(node_of(items[i]));
        lemma_shared(items[i], texts_field_definition(node_of(items[i])));
    }
    assert forall|sh: Shape| #[trigger] written(n.collapsed(sh).0) == texts_fields_definition(n) by {
        let s1 = formatted(&n.braces.0, sh);
        lemma_fold_texts(items, indent_open_step(s1.1).1, f);
        lemma_fold_texts(items, s1.1.with_whitespace(true), f);
    }
    assert forall|sh: Shape| #[trigger] written(n.expanded(sh).0) == texts_fields_definition(n) by {
        let s1 = formatted(&n.braces.0, sh);
        lemma_fold_texts(items, indent_open_step(s1.1).1, f);
    }
}

/// An `InputFieldsDefinition` writes its braces and each definition, in order.
pub proof fn law_written_input_fields_definition(n: InputFieldsDefinition)
    ensures
        writes_texts(n, texts_input_fields_definition(n)),
{
    law_written_punctuator(n.braces.0);
    lemma_written_closing(n.braces.1);
    let items = n.definitions.0@;
    let f = input_value_definition_texts();
    assert forall|i: int| 0 <= i < items.len() implies writes_texts(#[trigger] items[i], f(items[i])) by {
        law_written_input_value_definition(node_of(items[i]));
        lemma_shared(items[i], texts_input_value_definition(node_of(items[i])));
    }
    assert forall|sh: Shape| #[trigger] written(n.collapsed(sh).0) == texts_input_fields_definition(n) by {
        let s1 = formatted(&n.braces.0, sh);
        lemma_fold_texts(items, indent_open_step(s1.1).1, f);
        lemma_fold_texts(items, s1.1.with_whitespace(true), f);
    }
    assert forall|sh: Shape| #[trigger] written(n.expanded(sh).0) == texts_input_fields_definition(n) by {
        let s1 = formatted(&n.braces.0, sh);
        lemma_fold_texts(items, indent_open_step(s1.1).1, f);
    }
}

/// An `EnumValuesDefinition` writes its braces and each definition, in order.
pub proof fn law_written_enum_values_definition(n: EnumValuesDefinition)
    ensures
        writes_texts(n, texts_enum_values_definition(n)),
{
    law_written_punctuator(n.braces.0);
    lemma_written_closing(n.braces.1);
    let items = n.definitions.0@;
    let f = enum_value_definition_texts();
    assert forall|i: int| 0 <= i < items.len() implies writes_texts(#[trigger] items[i], f(items[i])) by {
        law_written_enum_value_definition(node_of(items[i]));
        lemma_shared(items[i], texts_enum_value_definition(node_of(items[i])));
    }
    assert forall|sh: Shape| #[trigger] written(n.collapsed(sh).0) == texts_enum_values_definition(n) by {
        let s1 = formatted(&n.braces.0, sh);
        lemma_fold_texts(items, indent_open_step(s1.1).1, f);
        lemma_fold_texts(items, s1.1.with_whitespace(true), f);
    }
    assert forall|sh: Shape| #[trigger] written(n.expanded(sh).0) == texts_enum_values_definition(n) by {
        let s1 = formatted(&n.braces.0, sh);
        lemma_fold_texts(items, indent_open_step(s1.1).1, f);
    }
}

/// An `ArgumentsDefinition` writes its parens and each definition, in order.
pub proof fn law_written_arguments_definition(n: ArgumentsDefinition)
    ensures
        writes_texts(n, texts_arguments_definition(n)),
{
    law_written_punctuator(n.parens.0);
    lemma_written_closing(n.parens.1);
    let items = n.definitions.0@;
    let f = input_value_definition_texts();
    assert forall|i: int| 0 <= i < items.len() implies writes_texts(#[trigger] items[i], f(items[i])) by {
        law_written_input_value_definition(node_of(items[i]));
        lemma_shared(items[i], texts_input_value_definition(node_of(items[i])));
    }
    assert forall|sh: Shape| #[trigger] written(n.collapsed(sh).0) == texts_arguments_definition(n) by {
        let s1 = formatted(&n.parens.0, sh);
        lemma_fold_texts(items, indent_open_step(s1.1).1, f);
        lemma_fold_texts(items, s1.1.with_whitespace(true), f);
    }
    assert forall|sh: Shape| #[trigger] written(n.expanded(sh).0) == texts_arguments_definition(n) by {
        let s1 = formatted(&n.parens.0, sh);
        lemma_fold_texts(items, indent_open_step(s1.1).1, f);
    }
}

} // verus!
