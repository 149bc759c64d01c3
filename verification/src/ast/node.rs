use vstd::prelude::*;

use crate::lex::span::spec_joined;
use crate::lex::Span;

use super::types::{
    Alias, Argument, Arguments, ArgumentsDefinition, BooleanValue, DefaultValue, Definition, Description, Directive, DirectiveDefinition, DirectiveLocation, DirectiveLocations, Directives, Document, EnumTypeDefinition, EnumTypeExtension, EnumValue, EnumValueDefinition, EnumValuesDefinition, ExecutableDefinition, ExecutableDirectiveLocation, ExecutableDocument, Field, FieldDefinition, FieldsDefinition, FragmentDefinition, FragmentSpread, ImplementsInterfaces, InlineFragment, InputFieldsDefinition, InputObjectTypeDefinition, InputObjectTypeExtension, InputValueDefinition, InterfaceTypeDefinition, InterfaceTypeExtension, ListType, ListValue, NamedType, NonNullType, NullValue, ObjectField, ObjectTypeDefinition, ObjectTypeExtension, ObjectValue, OperationDefinition, OperationType, RootOperationTypeDefinition, RootOperationTypeDefinitions, ScalarTypeDefinition, ScalarTypeExtension, SchemaDefinition, SchemaExtension, Selection, SelectionSet, Type, TypeCondition, TypeDefinition, TypeExtension, TypeSystemDefinition, TypeSystemDefinitionOrExtension, TypeSystemDirectiveLocation, TypeSystemDocument, TypeSystemExtension, TypeSystemExtensionDocument, UnionMemberTypes, UnionTypeDefinition, UnionTypeExtension, Value, Variable, VariableDefinition, VariableDefinitions,
};
use super::spans::{gather_alias, gather_argument, gather_arguments, gather_arguments_definition, gather_boolean_value, gather_default_value, gather_definition, gather_description, gather_directive, gather_directive_definition, gather_directive_location, gather_directive_locations, gather_directives, gather_document, gather_enum_type_definition, gather_enum_type_extension, gather_enum_value, gather_enum_value_definition, gather_enum_values_definition, gather_executable_definition, gather_executable_directive_location, gather_executable_document, gather_field, gather_field_definition, gather_fields_definition, gather_fragment_definition, gather_fragment_spread, gather_implements_interfaces, gather_inline_fragment, gather_input_fields_definition, gather_input_object_type_definition, gather_input_object_type_extension, gather_input_value_definition, gather_interface_type_definition, gather_interface_type_extension, gather_list_type, gather_list_value, gather_named_type, gather_non_null_type, gather_null_value, gather_object_field, gather_object_type_definition, gather_object_type_extension, gather_object_value, gather_operation_definition, gather_operation_type, gather_root_operation_type_definition, gather_root_operation_type_definitions, gather_scalar_type_definition, gather_scalar_type_extension, gather_schema_definition, gather_schema_extension, gather_selection, gather_selection_set, gather_type, gather_type_condition, gather_type_definition, gather_type_extension, gather_type_system_definition, gather_type_system_definition_or_extension, gather_type_system_directive_location, gather_type_system_document, gather_type_system_extension, gather_type_system_extension_document, gather_union_member_types, gather_union_type_definition, gather_union_type_extension, gather_value, gather_variable, gather_variable_definition, gather_variable_definitions, spans_alias, spans_argument, spans_arguments, spans_arguments_definition, spans_boolean_value, spans_default_value, spans_definition, spans_description, spans_directive, spans_directive_definition, spans_directive_location, spans_directive_locations, spans_directives, spans_document, spans_enum_type_definition, spans_enum_type_extension, spans_enum_value, spans_enum_value_definition, spans_enum_values_definition, spans_executable_definition, spans_executable_directive_location, spans_executable_document, spans_field, spans_field_definition, spans_fields_definition, spans_fragment_definition, spans_fragment_spread, spans_implements_interfaces, spans_inline_fragment, spans_input_fields_definition, spans_input_object_type_definition, spans_input_object_type_extension, spans_input_value_definition, spans_interface_type_definition, spans_interface_type_extension, spans_list_type, spans_list_value, spans_named_type, spans_non_null_type, spans_null_value, spans_object_field, spans_object_type_definition, spans_object_type_extension, spans_object_value, spans_operation_definition, spans_operation_type, spans_root_operation_type_definition, spans_root_operation_type_definitions, spans_scalar_type_definition, spans_scalar_type_extension, spans_schema_definition, spans_schema_extension, spans_selection, spans_selection_set, spans_type, spans_type_condition, spans_type_definition, spans_type_extension, spans_type_system_definition, spans_type_system_definition_or_extension, spans_type_system_directive_location, spans_type_system_document, spans_type_system_extension, spans_type_system_extension_document, spans_union_member_types, spans_union_type_definition, spans_union_type_extension, spans_value, spans_variable, spans_variable_definition, spans_variable_definitions};
use super::congruence::{
    congruent_document, are_congruent_document, lemma_reflexive_document, lemma_symmetric_document, lemma_transitive_document, congruent_definition, are_congruent_definition, lemma_reflexive_definition, lemma_symmetric_definition, lemma_transitive_definition, congruent_executable_document, are_congruent_executable_document, lemma_reflexive_executable_document, lemma_symmetric_executable_document, lemma_transitive_executable_document, congruent_executable_definition, are_congruent_executable_definition, lemma_reflexive_executable_definition, lemma_symmetric_executable_definition, lemma_transitive_executable_definition, congruent_operation_definition, are_congruent_operation_definition, lemma_reflexive_operation_definition, lemma_symmetric_operation_definition, lemma_transitive_operation_definition, congruent_operation_type, are_congruent_operation_type, lemma_reflexive_operation_type, lemma_symmetric_operation_type, lemma_transitive_operation_type, congruent_selection_set, are_congruent_selection_set, lemma_reflexive_selection_set, lemma_symmetric_selection_set, lemma_transitive_selection_set, congruent_selection, are_congruent_selection, lemma_reflexive_selection, lemma_symmetric_selection, lemma_transitive_selection, congruent_field, are_congruent_field, lemma_reflexive_field, lemma_symmetric_field, lemma_transitive_field, congruent_alias, are_congruent_alias, lemma_reflexive_alias, lemma_symmetric_alias, lemma_transitive_alias, congruent_arguments, are_congruent_arguments, lemma_reflexive_arguments, lemma_symmetric_arguments, lemma_transitive_arguments, congruent_argument, are_congruent_argument, lemma_reflexive_argument, lemma_symmetric_argument, lemma_transitive_argument, congruent_fragment_spread, are_congruent_fragment_spread, lemma_reflexive_fragment_spread, lemma_symmetric_fragment_spread, lemma_transitive_fragment_spread, congruent_inline_fragment, are_congruent_inline_fragment, lemma_reflexive_inline_fragment, lemma_symmetric_inline_fragment, lemma_transitive_inline_fragment, congruent_fragment_definition, are_congruent_fragment_definition, lemma_reflexive_fragment_definition, lemma_symmetric_fragment_definition, lemma_transitive_fragment_definition, congruent_type_condition, are_congruent_type_condition, lemma_reflexive_type_condition, lemma_symmetric_type_condition, lemma_transitive_type_condition, congruent_value, are_congruent_value, lemma_reflexive_value, lemma_symmetric_value, lemma_transitive_value, congruent_boolean_value, are_congruent_boolean_value, lemma_reflexive_boolean_value, lemma_symmetric_boolean_value, lemma_transitive_boolean_value, congruent_null_value, are_congruent_null_value, lemma_reflexive_null_value, lemma_symmetric_null_value, lemma_transitive_null_value, congruent_enum_value, are_congruent_enum_value, lemma_reflexive_enum_value, lemma_symmetric_enum_value, lemma_transitive_enum_value, congruent_list_value, are_congruent_list_value, lemma_reflexive_list_value, lemma_symmetric_list_value, lemma_transitive_list_value, congruent_object_value, are_congruent_object_value, lemma_reflexive_object_value, lemma_symmetric_object_value, lemma_transitive_object_value, congruent_object_field, are_congruent_object_field, lemma_reflexive_object_field, lemma_symmetric_object_field, lemma_transitive_object_field, congruent_variable_definitions, are_congruent_variable_definitions, lemma_reflexive_variable_definitions, lemma_symmetric_variable_definitions, lemma_transitive_variable_definitions, congruent_variable_definition, are_congruent_variable_definition, lemma_reflexive_variable_definition, lemma_symmetric_variable_definition, lemma_transitive_variable_definition, congruent_variable, are_congruent_variable, lemma_reflexive_variable, lemma_symmetric_variable, lemma_transitive_variable, congruent_default_value, are_congruent_default_value, lemma_reflexive_default_value, lemma_symmetric_default_value, lemma_transitive_default_value, congruent_type, are_congruent_type, lemma_reflexive_type, lemma_symmetric_type, lemma_transitive_type, congruent_named_type, are_congruent_named_type, lemma_reflexive_named_type, lemma_symmetric_named_type, lemma_transitive_named_type, congruent_list_type, are_congruent_list_type, lemma_reflexive_list_type, lemma_symmetric_list_type, lemma_transitive_list_type, congruent_non_null_type, are_congruent_non_null_type, lemma_reflexive_non_null_type, lemma_symmetric_non_null_type, lemma_transitive_non_null_type, congruent_directives, are_congruent_directives, lemma_reflexive_directives, lemma_symmetric_directives, lemma_transitive_directives, congruent_directive, are_congruent_directive, lemma_reflexive_directive, lemma_symmetric_directive, lemma_transitive_directive, congruent_type_system_document, are_congruent_type_system_document, lemma_reflexive_type_system_document, lemma_symmetric_type_system_document, lemma_transitive_type_system_document, congruent_type_system_definition, are_congruent_type_system_definition, lemma_reflexive_type_system_definition, lemma_symmetric_type_system_definition, lemma_transitive_type_system_definition, congruent_type_system_extension_document, are_congruent_type_system_extension_document, lemma_reflexive_type_system_extension_document, lemma_symmetric_type_system_extension_document, lemma_transitive_type_system_extension_document, congruent_type_system_definition_or_extension, are_congruent_type_system_definition_or_extension, lemma_reflexive_type_system_definition_or_extension, lemma_symmetric_type_system_definition_or_extension, lemma_transitive_type_system_definition_or_extension, congruent_type_system_extension, are_congruent_type_system_extension, lemma_reflexive_type_system_extension, lemma_symmetric_type_system_extension, lemma_transitive_type_system_extension, congruent_description, are_congruent_description, lemma_reflexive_description, lemma_symmetric_description, lemma_transitive_description, congruent_schema_definition, are_congruent_schema_definition, lemma_reflexive_schema_definition, lemma_symmetric_schema_definition, lemma_transitive_schema_definition, congruent_root_operation_type_definitions, are_congruent_root_operation_type_definitions, lemma_reflexive_root_operation_type_definitions, lemma_symmetric_root_operation_type_definitions, lemma_transitive_root_operation_type_definitions, congruent_root_operation_type_definition, are_congruent_root_operation_type_definition, lemma_reflexive_root_operation_type_definition, lemma_symmetric_root_operation_type_definition, lemma_transitive_root_operation_type_definition, congruent_schema_extension, are_congruent_schema_extension, lemma_reflexive_schema_extension, lemma_symmetric_schema_extension, lemma_transitive_schema_extension, congruent_type_definition, are_congruent_type_definition, lemma_reflexive_type_definition, lemma_symmetric_type_definition, lemma_transitive_type_definition, congruent_type_extension, are_congruent_type_extension, lemma_reflexive_type_extension, lemma_symmetric_type_extension, lemma_transitive_type_extension, congruent_scalar_type_definition, are_congruent_scalar_type_definition, lemma_reflexive_scalar_type_definition, lemma_symmetric_scalar_type_definition, lemma_transitive_scalar_type_definition, congruent_scalar_type_extension, are_congruent_scalar_type_extension, lemma_reflexive_scalar_type_extension, lemma_symmetric_scalar_type_extension, lemma_transitive_scalar_type_extension, congruent_object_type_definition, are_congruent_object_type_definition, lemma_reflexive_object_type_definition, lemma_symmetric_object_type_definition, lemma_transitive_object_type_definition, congruent_implements_interfaces, are_congruent_implements_interfaces, lemma_reflexive_implements_interfaces, lemma_symmetric_implements_interfaces, lemma_transitive_implements_interfaces, congruent_fields_definition, are_congruent_fields_definition, lemma_reflexive_fields_definition, lemma_symmetric_fields_definition, lemma_transitive_fields_definition, congruent_field_definition, are_congruent_field_definition, lemma_reflexive_field_definition, lemma_symmetric_field_definition, lemma_transitive_field_definition, congruent_arguments_definition, are_congruent_arguments_definition, lemma_reflexive_arguments_definition, lemma_symmetric_arguments_definition, lemma_transitive_arguments_definition, congruent_input_value_definition, are_congruent_input_value_definition, lemma_reflexive_input_value_definition, lemma_symmetric_input_value_definition, lemma_transitive_input_value_definition, congruent_object_type_extension, are_congruent_object_type_extension, lemma_reflexive_object_type_extension, lemma_symmetric_object_type_extension, lemma_transitive_object_type_extension, congruent_interface_type_definition, are_congruent_interface_type_definition, lemma_reflexive_interface_type_definition, lemma_symmetric_interface_type_definition, lemma_transitive_interface_type_definition, congruent_interface_type_extension, are_congruent_interface_type_extension, lemma_reflexive_interface_type_extension, lemma_symmetric_interface_type_extension, lemma_transitive_interface_type_extension, congruent_union_type_definition, are_congruent_union_type_definition, lemma_reflexive_union_type_definition, lemma_symmetric_union_type_definition, lemma_transitive_union_type_definition, congruent_union_member_types, are_congruent_union_member_types, lemma_reflexive_union_member_types, lemma_symmetric_union_member_types, lemma_transitive_union_member_types, congruent_union_type_extension, are_congruent_union_type_extension, lemma_reflexive_union_type_extension, lemma_symmetric_union_type_extension, lemma_transitive_union_type_extension, congruent_enum_type_definition, are_congruent_enum_type_definition, lemma_reflexive_enum_type_definition, lemma_symmetric_enum_type_definition, lemma_transitive_enum_type_definition, congruent_enum_values_definition, are_congruent_enum_values_definition, lemma_reflexive_enum_values_definition, lemma_symmetric_enum_values_definition, lemma_transitive_enum_values_definition, congruent_enum_value_definition, are_congruent_enum_value_definition, lemma_reflexive_enum_value_definition, lemma_symmetric_enum_value_definition, lemma_transitive_enum_value_definition, congruent_enum_type_extension, are_congruent_enum_type_extension, lemma_reflexive_enum_type_extension, lemma_symmetric_enum_type_extension, lemma_transitive_enum_type_extension, congruent_input_object_type_definition, are_congruent_input_object_type_definition, lemma_reflexive_input_object_type_definition, lemma_symmetric_input_object_type_definition, lemma_transitive_input_object_type_definition, congruent_input_fields_definition, are_congruent_input_fields_definition, lemma_reflexive_input_fields_definition, lemma_symmetric_input_fields_definition, lemma_transitive_input_fields_definition, congruent_input_object_type_extension, are_congruent_input_object_type_extension, lemma_reflexive_input_object_type_extension, lemma_symmetric_input_object_type_extension, lemma_transitive_input_object_type_extension, congruent_directive_definition, are_congruent_directive_definition, lemma_reflexive_directive_definition, lemma_symmetric_directive_definition, lemma_transitive_directive_definition, congruent_directive_locations, are_congruent_directive_locations, lemma_reflexive_directive_locations, lemma_symmetric_directive_locations, lemma_transitive_directive_locations, congruent_directive_location, are_congruent_directive_location, lemma_reflexive_directive_location, lemma_symmetric_directive_location, lemma_transitive_directive_location, congruent_executable_directive_location, are_congruent_executable_directive_location, lemma_reflexive_executable_directive_location, lemma_symmetric_executable_directive_location, lemma_transitive_executable_directive_location, congruent_type_system_directive_location, are_congruent_type_system_directive_location, lemma_reflexive_type_system_directive_location, lemma_symmetric_type_system_directive_location, lemma_transitive_type_system_directive_location,
};

verus! {

/// The span that covers the spans of `spans`, in the source of the first;
/// the empty span of no source when there are none.
pub open spec fn covering(spans: Seq<Span>) -> Span
    decreases spans.len(),
{
    if spans.len() == 0 {
        Span { source_id: crate::lex::SourceId(0), start: 0, end: 0 }
    } else if spans.len() == 1 {
        spans[0]
    } else {
        spec_joined(covering(spans.drop_last()), spans.last())
    }
}

/// The visitor that joins the spans of the tokens it visits.
pub struct SpanCollector;

impl SpanCollector {
    /// Joins `span` into what was collected so far.
    pub fn visit_span(&self, span: Span, accumulator: &mut Option<Span>)
        ensures
            *final(accumulator) == Some(
                match *old(accumulator) {
                    Some(collected) => spec_joined(collected, span),
                    None => span,
                },
            ),
    {
        match accumulator {
            Some(collected) => {
                collected.join(span);
            },
            None => {
                *accumulator = Some(span);
            },
        }
    }
}

/// The span that covers the spans of `spans`.
pub fn cover(spans: &Vec<Span>) -> (r: Span)
    ensures
        r == covering(spans@),
{
    let mut collected: Option<Span> = None;
    let mut i: usize = 0;
    while i < spans.len()
        invariant
            i <= spans@.len(),
            collected == (if i == 0 {
                None
            } else {
                Some(covering(spans@.take(i as int)))
            }),
        decreases spans.len() - i,
    {
        assert(spans@.take(i + 1).drop_last() =~= spans@.take(i as int));
        SpanCollector.visit_span(spans[i], &mut collected);
        i = i + 1;
    }
    assert(spans@.take(i as int) =~= spans@);
    match collected {
        Some(span) => span,
        None => Span::default_span(),
    }
}

/// A node of a syntax tree, made of tokens.
pub trait Node {
    /// The spans of the tokens of the node, in order.
    spec fn token_spans(&self) -> Seq<Span>;

    /// The span that covers the tokens of the node; the empty span of no
    /// source when it has none.
    fn span(&self) -> (r: Span)
        ensures
            r == covering(self.token_spans()),
    ;

    /// Whether the node and `other` are the same tree: the same tokens, of
    /// the same kinds and texts, in the same places of the tree, wherever
    /// they stand in a source. Parts missing from both count as the same.
    spec fn spec_congruent(&self, other: &Self) -> bool;

    fn congruent(&self, other: &Self) -> (r: bool)
        ensures
            r == self.spec_congruent(other),
    ;

    /// Every tree is congruent to itself.
    proof fn congruence_reflexive(&self)
        ensures
            self.spec_congruent(self),
    ;

    /// Congruence does not depend on the order of the two trees.
    proof fn congruence_symmetric(&self, other: &Self)
        ensures
            self.spec_congruent(other) == other.spec_congruent(self),
    ;

    /// Two trees congruent to a third are congruent to each other.
    proof fn congruence_transitive(&self, middle: &Self, last: &Self)
        requires
            self.spec_congruent(middle),
            middle.spec_congruent(last),
        ensures
            self.spec_congruent(last),
    ;
}

impl Node for Document {

    open spec fn spec_congruent(&self, other: &Self) -> bool {
        congruent_document(*self, *other)
    }

    fn congruent(&self, other: &Self) -> (r: bool) {
        are_congruent_document(self, other)
    }

    proof fn congruence_reflexive(&self) {
        lemma_reflexive_document(*self);
    }

    proof fn congruence_symmetric(&self, other: &Self) {
        lemma_symmetric_document(*self, *other);
    }

    proof fn congruence_transitive(&self, middle: &Self, last: &Self) {
        lemma_transitive_document(*self, *middle, *last);
    }
    open spec fn token_spans(&self) -> Seq<Span> {
        spans_document(*self)
    }

    fn span(&self) -> (r: Span) {
        let mut spans: Vec<Span> = Vec::new();
        gather_document(self, &mut spans);
        assert(spans@ =~= self.token_spans());
        cover(&spans)
    }
}

impl Node for Definition {

    open spec fn spec_congruent(&self, other: &Self) -> bool {
        congruent_definition(*self, *other)
    }

    fn congruent(&self, other: &Self) -> (r: bool) {
        are_congruent_definition(self, other)
    }

    proof fn congruence_reflexive(&self) {
        lemma_reflexive_definition(*self);
    }

    proof fn congruence_symmetric(&self, other: &Self) {
        lemma_symmetric_definition(*self, *other);
    }

    proof fn congruence_transitive(&self, middle: &Self, last: &Self) {
        lemma_transitive_definition(*self, *middle, *last);
    }
    open spec fn token_spans(&self) -> Seq<Span> {
        spans_definition(*self)
    }

    fn span(&self) -> (r: Span) {
        let mut spans: Vec<Span> = Vec::new();
        gather_definition(self, &mut spans);
        assert(spans@ =~= self.token_spans());
        cover(&spans)
    }
}

impl Node for ExecutableDocument {

    open spec fn spec_congruent(&self, other: &Self) -> bool {
        congruent_executable_document(*self, *other)
    }

    fn congruent(&self, other: &Self) -> (r: bool) {
        are_congruent_executable_document(self, other)
    }

    proof fn congruence_reflexive(&self) {
        lemma_reflexive_executable_document(*self);
    }

    proof fn congruence_symmetric(&self, other: &Self) {
        lemma_symmetric_executable_document(*self, *other);
    }

    proof fn congruence_transitive(&self, middle: &Self, last: &Self) {
        lemma_transitive_executable_document(*self, *middle, *last);
    }
    open spec fn token_spans(&self) -> Seq<Span> {
        spans_executable_document(*self)
    }

    fn span(&self) -> (r: Span) {
        let mut spans: Vec<Span> = Vec::new();
        gather_executable_document(self, &mut spans);
        assert(spans@ =~= self.token_spans());
        cover(&spans)
    }
}

impl Node for ExecutableDefinition {

    open spec fn spec_congruent(&self, other: &Self) -> bool {
        congruent_executable_definition(*self, *other)
    }

    fn congruent(&self, other: &Self) -> (r: bool) {
        are_congruent_executable_definition(self, other)
    }

    proof fn congruence_reflexive(&self) {
        lemma_reflexive_executable_definition(*self);
    }

    proof fn congruence_symmetric(&self, other: &Self) {
        lemma_symmetric_executable_definition(*self, *other);
    }

    proof fn congruence_transitive(&self, middle: &Self, last: &Self) {
        lemma_transitive_executable_definition(*self, *middle, *last);
    }
    open spec fn token_spans(&self) -> Seq<Span> {
        spans_executable_definition(*self)
    }

    fn span(&self) -> (r: Span) {
        let mut spans: Vec<Span> = Vec::new();
        gather_executable_definition(self, &mut spans);
        assert(spans@ =~= self.token_spans());
        cover(&spans)
    }
}

impl Node for OperationDefinition {

    open spec fn spec_congruent(&self, other: &Self) -> bool {
        congruent_operation_definition(*self, *other)
    }

    fn congruent(&self, other: &Self) -> (r: bool) {
        are_congruent_operation_definition(self, other)
    }

    proof fn congruence_reflexive(&self) {
        lemma_reflexive_operation_definition(*self);
    }

    proof fn congruence_symmetric(&self, other: &Self) {
        lemma_symmetric_operation_definition(*self, *other);
    }

    proof fn congruence_transitive(&self, middle: &Self, last: &Self) {
        lemma_transitive_operation_definition(*self, *middle, *last);
    }
    open spec fn token_spans(&self) -> Seq<Span> {
        spans_operation_definition(*self)
    }

    fn span(&self) -> (r: Span) {
        let mut spans: Vec<Span> = Vec::new();
        gather_operation_definition(self, &mut spans);
        assert(spans@ =~= self.token_spans());
        cover(&spans)
    }
}

impl Node for OperationType {

    open spec fn spec_congruent(&self, other: &Self) -> bool {
        congruent_operation_type(*self, *other)
    }

    fn congruent(&self, other: &Self) -> (r: bool) {
        are_congruent_operation_type(self, other)
    }

    proof fn congruence_reflexive(&self) {
        lemma_reflexive_operation_type(*self);
    }

    proof fn congruence_symmetric(&self, other: &Self) {
        lemma_symmetric_operation_type(*self, *other);
    }

    proof fn congruence_transitive(&self, middle: &Self, last: &Self) {
        lemma_transitive_operation_type(*self, *middle, *last);
    }
    open spec fn token_spans(&self) -> Seq<Span> {
        spans_operation_type(*self)
    }

    fn span(&self) -> (r: Span) {
        let mut spans: Vec<Span> = Vec::new();
        gather_operation_type(self, &mut spans);
        assert(spans@ =~= self.token_spans());
        cover(&spans)
    }
}

impl Node for SelectionSet {

    open spec fn spec_congruent(&self, other: &Self) -> bool {
        congruent_selection_set(*self, *other)
    }

    fn congruent(&self, other: &Self) -> (r: bool) {
        are_congruent_selection_set(self, other)
    }

    proof fn congruence_reflexive(&self) {
        lemma_reflexive_selection_set(*self);
    }

    proof fn congruence_symmetric(&self, other: &Self) {
        lemma_symmetric_selection_set(*self, *other);
    }

    proof fn congruence_transitive(&self, middle: &Self, last: &Self) {
        lemma_transitive_selection_set(*self, *middle, *last);
    }
    open spec fn token_spans(&self) -> Seq<Span> {
        spans_selection_set(*self)
    }

    fn span(&self) -> (r: Span) {
        let mut spans: Vec<Span> = Vec::new();
        gather_selection_set(self, &mut spans);
        assert(spans@ =~= self.token_spans());
        cover(&spans)
    }
}

impl Node for Selection {

    open spec fn spec_congruent(&self, other: &Self) -> bool {
        congruent_selection(*self, *other)
    }

    fn congruent(&self, other: &Self) -> (r: bool) {
        are_congruent_selection(self, other)
    }

    proof fn congruence_reflexive(&self) {
        lemma_reflexive_selection(*self);
    }

    proof fn congruence_symmetric(&self, other: &Self) {
        lemma_symmetric_selection(*self, *other);
    }

    proof fn congruence_transitive(&self, middle: &Self, last: &Self) {
        lemma_transitive_selection(*self, *middle, *last);
    }
    open spec fn token_spans(&self) -> Seq<Span> {
        spans_selection(*self)
    }

    fn span(&self) -> (r: Span) {
        let mut spans: Vec<Span> = Vec::new();
        gather_selection(self, &mut spans);
        assert(spans@ =~= self.token_spans());
        cover(&spans)
    }
}

impl Node for Field {

    open spec fn spec_congruent(&self, other: &Self) -> bool {
        congruent_field(*self, *other)
    }

    fn congruent(&self, other: &Self) -> (r: bool) {
        are_congruent_field(self, other)
    }

    proof fn congruence_reflexive(&self) {
        lemma_reflexive_field(*self);
    }

    proof fn congruence_symmetric(&self, other: &Self) {
        lemma_symmetric_field(*self, *other);
    }

    proof fn congruence_transitive(&self, middle: &Self, last: &Self) {
        lemma_transitive_field(*self, *middle, *last);
    }
    open spec fn token_spans(&self) -> Seq<Span> {
        spans_field(*self)
    }

    fn span(&self) -> (r: Span) {
        let mut spans: Vec<Span> = Vec::new();
        gather_field(self, &mut spans);
        assert(spans@ =~= self.token_spans());
        cover(&spans)
    }
}

impl Node for Alias {

    open spec fn spec_congruent(&self, other: &Self) -> bool {
        congruent_alias(*self, *other)
    }

    fn congruent(&self, other: &Self) -> (r: bool) {
        are_congruent_alias(self, other)
    }

    proof fn congruence_reflexive(&self) {
        lemma_reflexive_alias(*self);
    }

    proof fn congruence_symmetric(&self, other: &Self) {
        lemma_symmetric_alias(*self, *other);
    }

    proof fn congruence_transitive(&self, middle: &Self, last: &Self) {
        lemma_transitive_alias(*self, *middle, *last);
    }
    open spec fn token_spans(&self) -> Seq<Span> {
        spans_alias(*self)
    }

    fn span(&self) -> (r: Span) {
        let mut spans: Vec<Span> = Vec::new();
        gather_alias(self, &mut spans);
        assert(spans@ =~= self.token_spans());
        cover(&spans)
    }
}

impl Node for Arguments {

    open spec fn spec_congruent(&self, other: &Self) -> bool {
        congruent_arguments(*self, *other)
    }

    fn congruent(&self, other: &Self) -> (r: bool) {
        are_congruent_arguments(self, other)
    }

    proof fn congruence_reflexive(&self) {
        lemma_reflexive_arguments(*self);
    }

    proof fn congruence_symmetric(&self, other: &Self) {
        lemma_symmetric_arguments(*self, *other);
    }

    proof fn congruence_transitive(&self, middle: &Self, last: &Self) {
        lemma_transitive_arguments(*self, *middle, *last);
    }
    open spec fn token_spans(&self) -> Seq<Span> {
        spans_arguments(*self)
    }

    fn span(&self) -> (r: Span) {
        let mut spans: Vec<Span> = Vec::new();
        gather_arguments(self, &mut spans);
        assert(spans@ =~= self.token_spans());
        cover(&spans)
    }
}

impl Node for Argument {

    open spec fn spec_congruent(&self, other: &Self) -> bool {
        congruent_argument(*self, *other)
    }

    fn congruent(&self, other: &Self) -> (r: bool) {
        are_congruent_argument(self, other)
    }

    proof fn congruence_reflexive(&self) {
        lemma_reflexive_argument(*self);
    }

    proof fn congruence_symmetric(&self, other: &Self) {
        lemma_symmetric_argument(*self, *other);
    }

    proof fn congruence_transitive(&self, middle: &Self, last: &Self) {
        lemma_transitive_argument(*self, *middle, *last);
    }
    open spec fn token_spans(&self) -> Seq<Span> {
        spans_argument(*self)
    }

    fn span(&self) -> (r: Span) {
        let mut spans: Vec<Span> = Vec::new();
        gather_argument(self, &mut spans);
        assert(spans@ =~= self.token_spans());
        cover(&spans)
    }
}

impl Node for FragmentSpread {

    open spec fn spec_congruent(&self, other: &Self) -> bool {
        congruent_fragment_spread(*self, *other)
    }

    fn congruent(&self, other: &Self) -> (r: bool) {
        are_congruent_fragment_spread(self, other)
    }

    proof fn congruence_reflexive(&self) {
        lemma_reflexive_fragment_spread(*self);
    }

    proof fn congruence_symmetric(&self, other: &Self) {
        lemma_symmetric_fragment_spread(*self, *other);
    }

    proof fn congruence_transitive(&self, middle: &Self, last: &Self) {
        lemma_transitive_fragment_spread(*self, *middle, *last);
    }
    open spec fn token_spans(&self) -> Seq<Span> {
        spans_fragment_spread(*self)
    }

    fn span(&self) -> (r: Span) {
        let mut spans: Vec<Span> = Vec::new();
        gather_fragment_spread(self, &mut spans);
        assert(spans@ =~= self.token_spans());
        cover(&spans)
    }
}

impl Node for InlineFragment {

    open spec fn spec_congruent(&self, other: &Self) -> bool {
        congruent_inline_fragment(*self, *other)
    }

    fn congruent(&self, other: &Self) -> (r: bool) {
        are_congruent_inline_fragment(self, other)
    }

    proof fn congruence_reflexive(&self) {
        lemma_reflexive_inline_fragment(*self);
    }

    proof fn congruence_symmetric(&self, other: &Self) {
        lemma_symmetric_inline_fragment(*self, *other);
    }

    proof fn congruence_transitive(&self, middle: &Self, last: &Self) {
        lemma_transitive_inline_fragment(*self, *middle, *last);
    }
    open spec fn token_spans(&self) -> Seq<Span> {
        spans_inline_fragment(*self)
    }

    fn span(&self) -> (r: Span) {
        let mut spans: Vec<Span> = Vec::new();
        gather_inline_fragment(self, &mut spans);
        assert(spans@ =~= self.token_spans());
        cover(&spans)
    }
}

impl Node for FragmentDefinition {

    open spec fn spec_congruent(&self, other: &Self) -> bool {
        congruent_fragment_definition(*self, *other)
    }

    fn congruent(&self, other: &Self) -> (r: bool) {
        are_congruent_fragment_definition(self, other)
    }

    proof fn congruence_reflexive(&self) {
        lemma_reflexive_fragment_definition(*self);
    }

    proof fn congruence_symmetric(&self, other: &Self) {
        lemma_symmetric_fragment_definition(*self, *other);
    }

    proof fn congruence_transitive(&self, middle: &Self, last: &Self) {
        lemma_transitive_fragment_definition(*self, *middle, *last);
    }
    open spec fn token_spans(&self) -> Seq<Span> {
        spans_fragment_definition(*self)
    }

    fn span(&self) -> (r: Span) {
        let mut spans: Vec<Span> = Vec::new();
        gather_fragment_definition(self, &mut spans);
        assert(spans@ =~= self.token_spans());
        cover(&spans)
    }
}

impl Node for TypeCondition {

    open spec fn spec_congruent(&self, other: &Self) -> bool {
        congruent_type_condition(*self, *other)
    }

    fn congruent(&self, other: &Self) -> (r: bool) {
        are_congruent_type_condition(self, other)
    }

    proof fn congruence_reflexive(&self) {
        lemma_reflexive_type_condition(*self);
    }

    proof fn congruence_symmetric(&self, other: &Self) {
        lemma_symmetric_type_condition(*self, *other);
    }

    proof fn congruence_transitive(&self, middle: &Self, last: &Self) {
        lemma_transitive_type_condition(*self, *middle, *last);
    }
    open spec fn token_spans(&self) -> Seq<Span> {
        spans_type_condition(*self)
    }

    fn span(&self) -> (r: Span) {
        let mut spans: Vec<Span> = Vec::new();
        gather_type_condition(self, &mut spans);
        assert(spans@ =~= self.token_spans());
        cover(&spans)
    }
}

impl Node for Value {

    open spec fn spec_congruent(&self, other: &Self) -> bool {
        congruent_value(*self, *other)
    }

    fn congruent(&self, other: &Self) -> (r: bool) {
        are_congruent_value(self, other)
    }

    proof fn congruence_reflexive(&self) {
        lemma_reflexive_value(*self);
    }

    proof fn congruence_symmetric(&self, other: &Self) {
        lemma_symmetric_value(*self, *other);
    }

    proof fn congruence_transitive(&self, middle: &Self, last: &Self) {
        lemma_transitive_value(*self, *middle, *last);
    }
    open spec fn token_spans(&self) -> Seq<Span> {
        spans_value(*self)
    }

    fn span(&self) -> (r: Span) {
        let mut spans: Vec<Span> = Vec::new();
        gather_value(self, &mut spans);
        assert(spans@ =~= self.token_spans());
        cover(&spans)
    }
}

impl Node for BooleanValue {

    open spec fn spec_congruent(&self, other: &Self) -> bool {
        congruent_boolean_value(*self, *other)
    }

    fn congruent(&self, other: &Self) -> (r: bool) {
        are_congruent_boolean_value(self, other)
    }

    proof fn congruence_reflexive(&self) {
        lemma_reflexive_boolean_value(*self);
    }

    proof fn congruence_symmetric(&self, other: &Self) {
        lemma_symmetric_boolean_value(*self, *other);
    }

    proof fn congruence_transitive(&self, middle: &Self, last: &Self) {
        lemma_transitive_boolean_value(*self, *middle, *last);
    }
    open spec fn token_spans(&self) -> Seq<Span> {
        spans_boolean_value(*self)
    }

    fn span(&self) -> (r: Span) {
        let mut spans: Vec<Span> = Vec::new();
        gather_boolean_value(self, &mut spans);
        assert(spans@ =~= self.token_spans());
        cover(&spans)
    }
}

impl Node for NullValue {

    open spec fn spec_congruent(&self, other: &Self) -> bool {
        congruent_null_value(*self, *other)
    }

    fn congruent(&self, other: &Self) -> (r: bool) {
        are_congruent_null_value(self, other)
    }

    proof fn congruence_reflexive(&self) {
        lemma_reflexive_null_value(*self);
    }

    proof fn congruence_symmetric(&self, other: &Self) {
        lemma_symmetric_null_value(*self, *other);
    }

    proof fn congruence_transitive(&self, middle: &Self, last: &Self) {
        lemma_transitive_null_value(*self, *middle, *last);
    }
    open spec fn token_spans(&self) -> Seq<Span> {
        spans_null_value(*self)
    }

    fn span(&self) -> (r: Span) {
        let mut spans: Vec<Span> = Vec::new();
        gather_null_value(self, &mut spans);
        assert(spans@ =~= self.token_spans());
        cover(&spans)
    }
}

impl Node for EnumValue {

    open spec fn spec_congruent(&self, other: &Self) -> bool {
        congruent_enum_value(*self, *other)
    }

    fn congruent(&self, other: &Self) -> (r: bool) {
        are_congruent_enum_value(self, other)
    }

    proof fn congruence_reflexive(&self) {
        lemma_reflexive_enum_value(*self);
    }

    proof fn congruence_symmetric(&self, other: &Self) {
        lemma_symmetric_enum_value(*self, *other);
    }

    proof fn congruence_transitive(&self, middle: &Self, last: &Self) {
        lemma_transitive_enum_value(*self, *middle, *last);
    }
    open spec fn token_spans(&self) -> Seq<Span> {
        spans_enum_value(*self)
    }

    fn span(&self) -> (r: Span) {
        let mut spans: Vec<Span> = Vec::new();
        gather_enum_value(self, &mut spans);
        assert(spans@ =~= self.token_spans());
        cover(&spans)
    }
}

impl Node for ListValue {

    open spec fn spec_congruent(&self, other: &Self) -> bool {
        congruent_list_value(*self, *other)
    }

    fn congruent(&self, other: &Self) -> (r: bool) {
        are_congruent_list_value(self, other)
    }

    proof fn congruence_reflexive(&self) {
        lemma_reflexive_list_value(*self);
    }

    proof fn congruence_symmetric(&self, other: &Self) {
        lemma_symmetric_list_value(*self, *other);
    }

    proof fn congruence_transitive(&self, middle: &Self, last: &Self) {
        lemma_transitive_list_value(*self, *middle, *last);
    }
    open spec fn token_spans(&self) -> Seq<Span> {
        spans_list_value(*self)
    }

    fn span(&self) -> (r: Span) {
        let mut spans: Vec<Span> = Vec::new();
        gather_list_value(self, &mut spans);
        assert(spans@ =~= self.token_spans());
        cover(&spans)
    }
}

impl Node for ObjectValue {

    open spec fn spec_congruent(&self, other: &Self) -> bool {
        congruent_object_value(*self, *other)
    }

    fn congruent(&self, other: &Self) -> (r: bool) {
        are_congruent_object_value(self, other)
    }

    proof fn congruence_reflexive(&self) {
        lemma_reflexive_object_value(*self);
    }

    proof fn congruence_symmetric(&self, other: &Self) {
        lemma_symmetric_object_value(*self, *other);
    }

    proof fn congruence_transitive(&self, middle: &Self, last: &Self) {
        lemma_transitive_object_value(*self, *middle, *last);
    }
    open spec fn token_spans(&self) -> Seq<Span> {
        spans_object_value(*self)
    }

    fn span(&self) -> (r: Span) {
        let mut spans: Vec<Span> = Vec::new();
        gather_object_value(self, &mut spans);
        assert(spans@ =~= self.token_spans());
        cover(&spans)
    }
}

impl Node for ObjectField {

    open spec fn spec_congruent(&self, other: &Self) -> bool {
        congruent_object_field(*self, *other)
    }

    fn congruent(&self, other: &Self) -> (r: bool) {
        are_congruent_object_field(self, other)
    }

    proof fn congruence_reflexive(&self) {
        lemma_reflexive_object_field(*self);
    }

    proof fn congruence_symmetric(&self, other: &Self) {
        lemma_symmetric_object_field(*self, *other);
    }

    proof fn congruence_transitive(&self, middle: &Self, last: &Self) {
        lemma_transitive_object_field(*self, *middle, *last);
    }
    open spec fn token_spans(&self) -> Seq<Span> {
        spans_object_field(*self)
    }

    fn span(&self) -> (r: Span) {
        let mut spans: Vec<Span> = Vec::new();
        gather_object_field(self, &mut spans);
        assert(spans@ =~= self.token_spans());
        cover(&spans)
    }
}

impl Node for VariableDefinitions {

    open spec fn spec_congruent(&self, other: &Self) -> bool {
        congruent_variable_definitions(*self, *other)
    }

    fn congruent(&self, other: &Self) -> (r: bool) {
        are_congruent_variable_definitions(self, other)
    }

    proof fn congruence_reflexive(&self) {
        lemma_reflexive_variable_definitions(*self);
    }

    proof fn congruence_symmetric(&self, other: &Self) {
        lemma_symmetric_variable_definitions(*self, *other);
    }

    proof fn congruence_transitive(&self, middle: &Self, last: &Self) {
        lemma_transitive_variable_definitions(*self, *middle, *last);
    }
    open spec fn token_spans(&self) -> Seq<Span> {
        spans_variable_definitions(*self)
    }

    fn span(&self) -> (r: Span) {
        let mut spans: Vec<Span> = Vec::new();
        gather_variable_definitions(self, &mut spans);
        assert(spans@ =~= self.token_spans());
        cover(&spans)
    }
}

impl Node for VariableDefinition {

    open spec fn spec_congruent(&self, other: &Self) -> bool {
        congruent_variable_definition(*self, *other)
    }

    fn congruent(&self, other: &Self) -> (r: bool) {
        are_congruent_variable_definition(self, other)
    }

    proof fn congruence_reflexive(&self) {
        lemma_reflexive_variable_definition(*self);
    }

    proof fn congruence_symmetric(&self, other: &Self) {
        lemma_symmetric_variable_definition(*self, *other);
    }

    proof fn congruence_transitive(&self, middle: &Self, last: &Self) {
        lemma_transitive_variable_definition(*self, *middle, *last);
    }
    open spec fn token_spans(&self) -> Seq<Span> {
        spans_variable_definition(*self)
    }

    fn span(&self) -> (r: Span) {
        let mut spans: Vec<Span> = Vec::new();
        gather_variable_definition(self, &mut spans);
        assert(spans@ =~= self.token_spans());
        cover(&spans)
    }
}

impl Node for Variable {

    open spec fn spec_congruent(&self, other: &Self) -> bool {
        congruent_variable(*self, *other)
    }

    fn congruent(&self, other: &Self) -> (r: bool) {
        are_congruent_variable(self, other)
    }

    proof fn congruence_reflexive(&self) {
        lemma_reflexive_variable(*self);
    }

    proof fn congruence_symmetric(&self, other: &Self) {
        lemma_symmetric_variable(*self, *other);
    }

    proof fn congruence_transitive(&self, middle: &Self, last: &Self) {
        lemma_transitive_variable(*self, *middle, *last);
    }
    open spec fn token_spans(&self) -> Seq<Span> {
        spans_variable(*self)
    }

    fn span(&self) -> (r: Span) {
        let mut spans: Vec<Span> = Vec::new();
        gather_variable(self, &mut spans);
        assert(spans@ =~= self.token_spans());
        cover(&spans)
    }
}

impl Node for DefaultValue {

    open spec fn spec_congruent(&self, other: &Self) -> bool {
        congruent_default_value(*self, *other)
    }

    fn congruent(&self, other: &Self) -> (r: bool) {
        are_congruent_default_value(self, other)
    }

    proof fn congruence_reflexive(&self) {
        lemma_reflexive_default_value(*self);
    }

    proof fn congruence_symmetric(&self, other: &Self) {
        lemma_symmetric_default_value(*self, *other);
    }

    proof fn congruence_transitive(&self, middle: &Self, last: &Self) {
        lemma_transitive_default_value(*self, *middle, *last);
    }
    open spec fn token_spans(&self) -> Seq<Span> {
        spans_default_value(*self)
    }

    fn span(&self) -> (r: Span) {
        let mut spans: Vec<Span> = Vec::new();
        gather_default_value(self, &mut spans);
        assert(spans@ =~= self.token_spans());
        cover(&spans)
    }
}

impl Node for Type {

    open spec fn spec_congruent(&self, other: &Self) -> bool {
        congruent_type(*self, *other)
    }

    fn congruent(&self, other: &Self) -> (r: bool) {
        are_congruent_type(self, other)
    }

    proof fn congruence_reflexive(&self) {
        lemma_reflexive_type(*self);
    }

    proof fn congruence_symmetric(&self, other: &Self) {
        lemma_symmetric_type(*self, *other);
    }

    proof fn congruence_transitive(&self, middle: &Self, last: &Self) {
        lemma_transitive_type(*self, *middle, *last);
    }
    open spec fn token_spans(&self) -> Seq<Span> {
        spans_type(*self)
    }

    fn span(&self) -> (r: Span) {
        let mut spans: Vec<Span> = Vec::new();
        gather_type(self, &mut spans);
        assert(spans@ =~= self.token_spans());
        cover(&spans)
    }
}

impl Node for NamedType {

    open spec fn spec_congruent(&self, other: &Self) -> bool {
        congruent_named_type(*self, *other)
    }

    fn congruent(&self, other: &Self) -> (r: bool) {
        are_congruent_named_type(self, other)
    }

    proof fn congruence_reflexive(&self) {
        lemma_reflexive_named_type(*self);
    }

    proof fn congruence_symmetric(&self, other: &Self) {
        lemma_symmetric_named_type(*self, *other);
    }

    proof fn congruence_transitive(&self, middle: &Self, last: &Self) {
        lemma_transitive_named_type(*self, *middle, *last);
    }
    open spec fn token_spans(&self) -> Seq<Span> {
        spans_named_type(*self)
    }

    fn span(&self) -> (r: Span) {
        let mut spans: Vec<Span> = Vec::new();
        gather_named_type(self, &mut spans);
        assert(spans@ =~= self.token_spans());
        cover(&spans)
    }
}

impl Node for ListType {

    open spec fn spec_congruent(&self, other: &Self) -> bool {
        congruent_list_type(*self, *other)
    }

    fn congruent(&self, other: &Self) -> (r: bool) {
        are_congruent_list_type(self, other)
    }

    proof fn congruence_reflexive(&self) {
        lemma_reflexive_list_type(*self);
    }

    proof fn congruence_symmetric(&self, other: &Self) {
        lemma_symmetric_list_type(*self, *other);
    }

    proof fn congruence_transitive(&self, middle: &Self, last: &Self) {
        lemma_transitive_list_type(*self, *middle, *last);
    }
    open spec fn token_spans(&self) -> Seq<Span> {
        spans_list_type(*self)
    }

    fn span(&self) -> (r: Span) {
        let mut spans: Vec<Span> = Vec::new();
        gather_list_type(self, &mut spans);
        assert(spans@ =~= self.token_spans());
        cover(&spans)
    }
}

impl Node for NonNullType {

    open spec fn spec_congruent(&self, other: &Self) -> bool {
        congruent_non_null_type(*self, *other)
    }

    fn congruent(&self, other: &Self) -> (r: bool) {
        are_congruent_non_null_type(self, other)
    }

    proof fn congruence_reflexive(&self) {
        lemma_reflexive_non_null_type(*self);
    }

    proof fn congruence_symmetric(&self, other: &Self) {
        lemma_symmetric_non_null_type(*self, *other);
    }

    proof fn congruence_transitive(&self, middle: &Self, last: &Self) {
        lemma_transitive_non_null_type(*self, *middle, *last);
    }
    open spec fn token_spans(&self) -> Seq<Span> {
        spans_non_null_type(*self)
    }

    fn span(&self) -> (r: Span) {
        let mut spans: Vec<Span> = Vec::new();
        gather_non_null_type(self, &mut spans);
        assert(spans@ =~= self.token_spans());
        cover(&spans)
    }
}

impl Node for Directives {

    open spec fn spec_congruent(&self, other: &Self) -> bool {
        congruent_directives(*self, *other)
    }

    fn congruent(&self, other: &Self) -> (r: bool) {
        are_congruent_directives(self, other)
    }

    proof fn congruence_reflexive(&self) {
        lemma_reflexive_directives(*self);
    }

    proof fn congruence_symmetric(&self, other: &Self) {
        lemma_symmetric_directives(*self, *other);
    }

    proof fn congruence_transitive(&self, middle: &Self, last: &Self) {
        lemma_transitive_directives(*self, *middle, *last);
    }
    open spec fn token_spans(&self) -> Seq<Span> {
        spans_directives(*self)
    }

    fn span(&self) -> (r: Span) {
        let mut spans: Vec<Span> = Vec::new();
        gather_directives(self, &mut spans);
        assert(spans@ =~= self.token_spans());
        cover(&spans)
    }
}

impl Node for Directive {

    open spec fn spec_congruent(&self, other: &Self) -> bool {
        congruent_directive(*self, *other)
    }

    fn congruent(&self, other: &Self) -> (r: bool) {
        are_congruent_directive(self, other)
    }

    proof fn congruence_reflexive(&self) {
        lemma_reflexive_directive(*self);
    }

    proof fn congruence_symmetric(&self, other: &Self) {
        lemma_symmetric_directive(*self, *other);
    }

    proof fn congruence_transitive(&self, middle: &Self, last: &Self) {
        lemma_transitive_directive(*self, *middle, *last);
    }
    open spec fn token_spans(&self) -> Seq<Span> {
        spans_directive(*self)
    }

    fn span(&self) -> (r: Span) {
        let mut spans: Vec<Span> = Vec::new();
        gather_directive(self, &mut spans);
        assert(spans@ =~= self.token_spans());
        cover(&spans)
    }
}

impl Node for TypeSystemDocument {

    open spec fn spec_congruent(&self, other: &Self) -> bool {
        congruent_type_system_document(*self, *other)
    }

    fn congruent(&self, other: &Self) -> (r: bool) {
        are_congruent_type_system_document(self, other)
    }

    proof fn congruence_reflexive(&self) {
        lemma_reflexive_type_system_document(*self);
    }

    proof fn congruence_symmetric(&self, other: &Self) {
        lemma_symmetric_type_system_document(*self, *other);
    }

    proof fn congruence_transitive(&self, middle: &Self, last: &Self) {
        lemma_transitive_type_system_document(*self, *middle, *last);
    }
    open spec fn token_spans(&self) -> Seq<Span> {
        spans_type_system_document(*self)
    }

    fn span(&self) -> (r: Span) {
        let mut spans: Vec<Span> = Vec::new();
        gather_type_system_document(self, &mut spans);
        assert(spans@ =~= self.token_spans());
        cover(&spans)
    }
}

impl Node for TypeSystemDefinition {

    open spec fn spec_congruent(&self, other: &Self) -> bool {
        congruent_type_system_definition(*self, *other)
    }

    fn congruent(&self, other: &Self) -> (r: bool) {
        are_congruent_type_system_definition(self, other)
    }

    proof fn congruence_reflexive(&self) {
        lemma_reflexive_type_system_definition(*self);
    }

    proof fn congruence_symmetric(&self, other: &Self) {
        lemma_symmetric_type_system_definition(*self, *other);
    }

    proof fn congruence_transitive(&self, middle: &Self, last: &Self) {
        lemma_transitive_type_system_definition(*self, *middle, *last);
    }
    open spec fn token_spans(&self) -> Seq<Span> {
        spans_type_system_definition(*self)
    }

    fn span(&self) -> (r: Span) {
        let mut spans: Vec<Span> = Vec::new();
        gather_type_system_definition(self, &mut spans);
        assert(spans@ =~= self.token_spans());
        cover(&spans)
    }
}

impl Node for TypeSystemExtensionDocument {

    open spec fn spec_congruent(&self, other: &Self) -> bool {
        congruent_type_system_extension_document(*self, *other)
    }

    fn congruent(&self, other: &Self) -> (r: bool) {
        are_congruent_type_system_extension_document(self, other)
    }

    proof fn congruence_reflexive(&self) {
        lemma_reflexive_type_system_extension_document(*self);
    }

    proof fn congruence_symmetric(&self, other: &Self) {
        lemma_symmetric_type_system_extension_document(*self, *other);
    }

    proof fn congruence_transitive(&self, middle: &Self, last: &Self) {
        lemma_transitive_type_system_extension_document(*self, *middle, *last);
    }
    open spec fn token_spans(&self) -> Seq<Span> {
        spans_type_system_extension_document(*self)
    }

    fn span(&self) -> (r: Span) {
        let mut spans: Vec<Span> = Vec::new();
        gather_type_system_extension_document(self, &mut spans);
        assert(spans@ =~= self.token_spans());
        cover(&spans)
    }
}

impl Node for TypeSystemDefinitionOrExtension {

    open spec fn spec_congruent(&self, other: &Self) -> bool {
        congruent_type_system_definition_or_extension(*self, *other)
    }

    fn congruent(&self, other: &Self) -> (r: bool) {
        are_congruent_type_system_definition_or_extension(self, other)
    }

    proof fn congruence_reflexive(&self) {
        lemma_reflexive_type_system_definition_or_extension(*self);
    }

    proof fn congruence_symmetric(&self, other: &Self) {
        lemma_symmetric_type_system_definition_or_extension(*self, *other);
    }

    proof fn congruence_transitive(&self, middle: &Self, last: &Self) {
        lemma_transitive_type_system_definition_or_extension(*self, *middle, *last);
    }
    open spec fn token_spans(&self) -> Seq<Span> {
        spans_type_system_definition_or_extension(*self)
    }

    fn span(&self) -> (r: Span) {
        let mut spans: Vec<Span> = Vec::new();
        gather_type_system_definition_or_extension(self, &mut spans);
        assert(spans@ =~= self.token_spans());
        cover(&spans)
    }
}

impl Node for TypeSystemExtension {

    open spec fn spec_congruent(&self, other: &Self) -> bool {
        congruent_type_system_extension(*self, *other)
    }

    fn congruent(&self, other: &Self) -> (r: bool) {
        are_congruent_type_system_extension(self, other)
    }

    proof fn congruence_reflexive(&self) {
        lemma_reflexive_type_system_extension(*self);
    }

    proof fn congruence_symmetric(&self, other: &Self) {
        lemma_symmetric_type_system_extension(*self, *other);
    }

    proof fn congruence_transitive(&self, middle: &Self, last: &Self) {
        lemma_transitive_type_system_extension(*self, *middle, *last);
    }
    open spec fn token_spans(&self) -> Seq<Span> {
        spans_type_system_extension(*self)
    }

    fn span(&self) -> (r: Span) {
        let mut spans: Vec<Span> = Vec::new();
        gather_type_system_extension(self, &mut spans);
        assert(spans@ =~= self.token_spans());
        cover(&spans)
    }
}

impl Node for Description {

    open spec fn spec_congruent(&self, other: &Self) -> bool {
        congruent_description(*self, *other)
    }

    fn congruent(&self, other: &Self) -> (r: bool) {
        are_congruent_description(self, other)
    }

    proof fn congruence_reflexive(&self) {
        lemma_reflexive_description(*self);
    }

    proof fn congruence_symmetric(&self, other: &Self) {
        lemma_symmetric_description(*self, *other);
    }

    proof fn congruence_transitive(&self, middle: &Self, last: &Self) {
        lemma_transitive_description(*self, *middle, *last);
    }
    open spec fn token_spans(&self) -> Seq<Span> {
        spans_description(*self)
    }

    fn span(&self) -> (r: Span) {
        let mut spans: Vec<Span> = Vec::new();
        gather_description(self, &mut spans);
        assert(spans@ =~= self.token_spans());
        cover(&spans)
    }
}

impl Node for SchemaDefinition {

    open spec fn spec_congruent(&self, other: &Self) -> bool {
        congruent_schema_definition(*self, *other)
    }

    fn congruent(&self, other: &Self) -> (r: bool) {
        are_congruent_schema_definition(self, other)
    }

    proof fn congruence_reflexive(&self) {
        lemma_reflexive_schema_definition(*self);
    }

    proof fn congruence_symmetric(&self, other: &Self) {
        lemma_symmetric_schema_definition(*self, *other);
    }

    proof fn congruence_transitive(&self, middle: &Self, last: &Self) {
        lemma_transitive_schema_definition(*self, *middle, *last);
    }
    open spec fn token_spans(&self) -> Seq<Span> {
        spans_schema_definition(*self)
    }

    fn span(&self) -> (r: Span) {
        let mut spans: Vec<Span> = Vec::new();
        gather_schema_definition(self, &mut spans);
        assert(spans@ =~= self.token_spans());
        cover(&spans)
    }
}

impl Node for RootOperationTypeDefinitions {

    open spec fn spec_congruent(&self, other: &Self) -> bool {
        congruent_root_operation_type_definitions(*self, *other)
    }

    fn congruent(&self, other: &Self) -> (r: bool) {
        are_congruent_root_operation_type_definitions(self, other)
    }

    proof fn congruence_reflexive(&self) {
        lemma_reflexive_root_operation_type_definitions(*self);
    }

    proof fn congruence_symmetric(&self, other: &Self) {
        lemma_symmetric_root_operation_type_definitions(*self, *other);
    }

    proof fn congruence_transitive(&self, middle: &Self, last: &Self) {
        lemma_transitive_root_operation_type_definitions(*self, *middle, *last);
    }
    open spec fn token_spans(&self) -> Seq<Span> {
        spans_root_operation_type_definitions(*self)
    }

    fn span(&self) -> (r: Span) {
        let mut spans: Vec<Span> = Vec::new();
        gather_root_operation_type_definitions(self, &mut spans);
        assert(spans@ =~= self.token_spans());
        cover(&spans)
    }
}

impl Node for RootOperationTypeDefinition {

    open spec fn spec_congruent(&self, other: &Self) -> bool {
        congruent_root_operation_type_definition(*self, *other)
    }

    fn congruent(&self, other: &Self) -> (r: bool) {
        are_congruent_root_operation_type_definition(self, other)
    }

    proof fn congruence_reflexive(&self) {
        lemma_reflexive_root_operation_type_definition(*self);
    }

    proof fn congruence_symmetric(&self, other: &Self) {
        lemma_symmetric_root_operation_type_definition(*self, *other);
    }

    proof fn congruence_transitive(&self, middle: &Self, last: &Self) {
        lemma_transitive_root_operation_type_definition(*self, *middle, *last);
    }
    open spec fn token_spans(&self) -> Seq<Span> {
        spans_root_operation_type_definition(*self)
    }

    fn span(&self) -> (r: Span) {
        let mut spans: Vec<Span> = Vec::new();
        gather_root_operation_type_definition(self, &mut spans);
        assert(spans@ =~= self.token_spans());
        cover(&spans)
    }
}

impl Node for SchemaExtension {

    open spec fn spec_congruent(&self, other: &Self) -> bool {
        congruent_schema_extension(*self, *other)
    }

    fn congruent(&self, other: &Self) -> (r: bool) {
        are_congruent_schema_extension(self, other)
    }

    proof fn congruence_reflexive(&self) {
        lemma_reflexive_schema_extension(*self);
    }

    proof fn congruence_symmetric(&self, other: &Self) {
        lemma_symmetric_schema_extension(*self, *other);
    }

    proof fn congruence_transitive(&self, middle: &Self, last: &Self) {
        lemma_transitive_schema_extension(*self, *middle, *last);
    }
    open spec fn token_spans(&self) -> Seq<Span> {
        spans_schema_extension(*self)
    }

    fn span(&self) -> (r: Span) {
        let mut spans: Vec<Span> = Vec::new();
        gather_schema_extension(self, &mut spans);
        assert(spans@ =~= self.token_spans());
        cover(&spans)
    }
}

impl Node for TypeDefinition {

    open spec fn spec_congruent(&self, other: &Self) -> bool {
        congruent_type_definition(*self, *other)
    }

    fn congruent(&self, other: &Self) -> (r: bool) {
        are_congruent_type_definition(self, other)
    }

    proof fn congruence_reflexive(&self) {
        lemma_reflexive_type_definition(*self);
    }

    proof fn congruence_symmetric(&self, other: &Self) {
        lemma_symmetric_type_definition(*self, *other);
    }

    proof fn congruence_transitive(&self, middle: &Self, last: &Self) {
        lemma_transitive_type_definition(*self, *middle, *last);
    }
    open spec fn token_spans(&self) -> Seq<Span> {
        spans_type_definition(*self)
    }

    fn span(&self) -> (r: Span) {
        let mut spans: Vec<Span> = Vec::new();
        gather_type_definition(self, &mut spans);
        assert(spans@ =~= self.token_spans());
        cover(&spans)
    }
}

impl Node for TypeExtension {

    open spec fn spec_congruent(&self, other: &Self) -> bool {
        congruent_type_extension(*self, *other)
    }

    fn congruent(&self, other: &Self) -> (r: bool) {
        are_congruent_type_extension(self, other)
    }

    proof fn congruence_reflexive(&self) {
        lemma_reflexive_type_extension(*self);
    }

    proof fn congruence_symmetric(&self, other: &Self) {
        lemma_symmetric_type_extension(*self, *other);
    }

    proof fn congruence_transitive(&self, middle: &Self, last: &Self) {
        lemma_transitive_type_extension(*self, *middle, *last);
    }
    open spec fn token_spans(&self) -> Seq<Span> {
        spans_type_extension(*self)
    }

    fn span(&self) -> (r: Span) {
        let mut spans: Vec<Span> = Vec::new();
        gather_type_extension(self, &mut spans);
        assert(spans@ =~= self.token_spans());
        cover(&spans)
    }
}

impl Node for ScalarTypeDefinition {

    open spec fn spec_congruent(&self, other: &Self) -> bool {
        congruent_scalar_type_definition(*self, *other)
    }

    fn congruent(&self, other: &Self) -> (r: bool) {
        are_congruent_scalar_type_definition(self, other)
    }

    proof fn congruence_reflexive(&self) {
        lemma_reflexive_scalar_type_definition(*self);
    }

    proof fn congruence_symmetric(&self, other: &Self) {
        lemma_symmetric_scalar_type_definition(*self, *other);
    }

    proof fn congruence_transitive(&self, middle: &Self, last: &Self) {
        lemma_transitive_scalar_type_definition(*self, *middle, *last);
    }
    open spec fn token_spans(&self) -> Seq<Span> {
        spans_scalar_type_definition(*self)
    }

    fn span(&self) -> (r: Span) {
        let mut spans: Vec<Span> = Vec::new();
        gather_scalar_type_definition(self, &mut spans);
        assert(spans@ =~= self.token_spans());
        cover(&spans)
    }
}

impl Node for ScalarTypeExtension {

    open spec fn spec_congruent(&self, other: &Self) -> bool {
        congruent_scalar_type_extension(*self, *other)
    }

    fn congruent(&self, other: &Self) -> (r: bool) {
        are_congruent_scalar_type_extension(self, other)
    }

    proof fn congruence_reflexive(&self) {
        lemma_reflexive_scalar_type_extension(*self);
    }

    proof fn congruence_symmetric(&self, other: &Self) {
        lemma_symmetric_scalar_type_extension(*self, *other);
    }

    proof fn congruence_transitive(&self, middle: &Self, last: &Self) {
        lemma_transitive_scalar_type_extension(*self, *middle, *last);
    }
    open spec fn token_spans(&self) -> Seq<Span> {
        spans_scalar_type_extension(*self)
    }

    fn span(&self) -> (r: Span) {
        let mut spans: Vec<Span> = Vec::new();
        gather_scalar_type_extension(self, &mut spans);
        assert(spans@ =~= self.token_spans());
        cover(&spans)
    }
}

impl Node for ObjectTypeDefinition {

    open spec fn spec_congruent(&self, other: &Self) -> bool {
        congruent_object_type_definition(*self, *other)
    }

    fn congruent(&self, other: &Self) -> (r: bool) {
        are_congruent_object_type_definition(self, other)
    }

    proof fn congruence_reflexive(&self) {
        lemma_reflexive_object_type_definition(*self);
    }

    proof fn congruence_symmetric(&self, other: &Self) {
        lemma_symmetric_object_type_definition(*self, *other);
    }

    proof fn congruence_transitive(&self, middle: &Self, last: &Self) {
        lemma_transitive_object_type_definition(*self, *middle, *last);
    }
    open spec fn token_spans(&self) -> Seq<Span> {
        spans_object_type_definition(*self)
    }

    fn span(&self) -> (r: Span) {
        let mut spans: Vec<Span> = Vec::new();
        gather_object_type_definition(self, &mut spans);
        assert(spans@ =~= self.token_spans());
        cover(&spans)
    }
}

impl Node for ImplementsInterfaces {

    open spec fn spec_congruent(&self, other: &Self) -> bool {
        congruent_implements_interfaces(*self, *other)
    }

    fn congruent(&self, other: &Self) -> (r: bool) {
        are_congruent_implements_interfaces(self, other)
    }

    proof fn congruence_reflexive(&self) {
        lemma_reflexive_implements_interfaces(*self);
    }

    proof fn congruence_symmetric(&self, other: &Self) {
        lemma_symmetric_implements_interfaces(*self, *other);
    }

    proof fn congruence_transitive(&self, middle: &Self, last: &Self) {
        lemma_transitive_implements_interfaces(*self, *middle, *last);
    }
    open spec fn token_spans(&self) -> Seq<Span> {
        spans_implements_interfaces(*self)
    }

    fn span(&self) -> (r: Span) {
        let mut spans: Vec<Span> = Vec::new();
        gather_implements_interfaces(self, &mut spans);
        assert(spans@ =~= self.token_spans());
        cover(&spans)
    }
}

impl Node for FieldsDefinition {

    open spec fn spec_congruent(&self, other: &Self) -> bool {
        congruent_fields_definition(*self, *other)
    }

    fn congruent(&self, other: &Self) -> (r: bool) {
        are_congruent_fields_definition(self, other)
    }

    proof fn congruence_reflexive(&self) {
        lemma_reflexive_fields_definition(*self);
    }

    proof fn congruence_symmetric(&self, other: &Self) {
        lemma_symmetric_fields_definition(*self, *other);
    }

    proof fn congruence_transitive(&self, middle: &Self, last: &Self) {
        lemma_transitive_fields_definition(*self, *middle, *last);
    }
    open spec fn token_spans(&self) -> Seq<Span> {
        spans_fields_definition(*self)
    }

    fn span(&self) -> (r: Span) {
        let mut spans: Vec<Span> = Vec::new();
        gather_fields_definition(self, &mut spans);
        assert(spans@ =~= self.token_spans());
        cover(&spans)
    }
}

impl Node for FieldDefinition {

    open spec fn spec_congruent(&self, other: &Self) -> bool {
        congruent_field_definition(*self, *other)
    }

    fn congruent(&self, other: &Self) -> (r: bool) {
        are_congruent_field_definition(self, other)
    }

    proof fn congruence_reflexive(&self) {
        lemma_reflexive_field_definition(*self);
    }

    proof fn congruence_symmetric(&self, other: &Self) {
        lemma_symmetric_field_definition(*self, *other);
    }

    proof fn congruence_transitive(&self, middle: &Self, last: &Self) {
        lemma_transitive_field_definition(*self, *middle, *last);
    }
    open spec fn token_spans(&self) -> Seq<Span> {
        spans_field_definition(*self)
    }

    fn span(&self) -> (r: Span) {
        let mut spans: Vec<Span> = Vec::new();
        gather_field_definition(self, &mut spans);
        assert(spans@ =~= self.token_spans());
        cover(&spans)
    }
}

impl Node for ArgumentsDefinition {

    open spec fn spec_congruent(&self, other: &Self) -> bool {
        congruent_arguments_definition(*self, *other)
    }

    fn congruent(&self, other: &Self) -> (r: bool) {
        are_congruent_arguments_definition(self, other)
    }

    proof fn congruence_reflexive(&self) {
        lemma_reflexive_arguments_definition(*self);
    }

    proof fn congruence_symmetric(&self, other: &Self) {
        lemma_symmetric_arguments_definition(*self, *other);
    }

    proof fn congruence_transitive(&self, middle: &Self, last: &Self) {
        lemma_transitive_arguments_definition(*self, *middle, *last);
    }
    open spec fn token_spans(&self) -> Seq<Span> {
        spans_arguments_definition(*self)
    }

    fn span(&self) -> (r: Span) {
        let mut spans: Vec<Span> = Vec::new();
        gather_arguments_definition(self, &mut spans);
        assert(spans@ =~= self.token_spans());
        cover(&spans)
    }
}

impl Node for InputValueDefinition {

    open spec fn spec_congruent(&self, other: &Self) -> bool {
        congruent_input_value_definition(*self, *other)
    }

    fn congruent(&self, other: &Self) -> (r: bool) {
        are_congruent_input_value_definition(self, other)
    }

    proof fn congruence_reflexive(&self) {
        lemma_reflexive_input_value_definition(*self);
    }

    proof fn congruence_symmetric(&self, other: &Self) {
        lemma_symmetric_input_value_definition(*self, *other);
    }

    proof fn congruence_transitive(&self, middle: &Self, last: &Self) {
        lemma_transitive_input_value_definition(*self, *middle, *last);
    }
    open spec fn token_spans(&self) -> Seq<Span> {
        spans_input_value_definition(*self)
    }

    fn span(&self) -> (r: Span) {
        let mut spans: Vec<Span> = Vec::new();
        gather_input_value_definition(self, &mut spans);
        assert(spans@ =~= self.token_spans());
        cover(&spans)
    }
}

impl Node for ObjectTypeExtension {

    open spec fn spec_congruent(&self, other: &Self) -> bool {
        congruent_object_type_extension(*self, *other)
    }

    fn congruent(&self, other: &Self) -> (r: bool) {
        are_congruent_object_type_extension(self, other)
    }

    proof fn congruence_reflexive(&self) {
        lemma_reflexive_object_type_extension(*self);
    }

    proof fn congruence_symmetric(&self, other: &Self) {
        lemma_symmetric_object_type_extension(*self, *other);
    }

    proof fn congruence_transitive(&self, middle: &Self, last: &Self) {
        lemma_transitive_object_type_extension(*self, *middle, *last);
    }
    open spec fn token_spans(&self) -> Seq<Span> {
        spans_object_type_extension(*self)
    }

    fn span(&self) -> (r: Span) {
        let mut spans: Vec<Span> = Vec::new();
        gather_object_type_extension(self, &mut spans);
        assert(spans@ =~= self.token_spans());
        cover(&spans)
    }
}

impl Node for InterfaceTypeDefinition {

    open spec fn spec_congruent(&self, other: &Self) -> bool {
        congruent_interface_type_definition(*self, *other)
    }

    fn congruent(&self, other: &Self) -> (r: bool) {
        are_congruent_interface_type_definition(self, other)
    }

    proof fn congruence_reflexive(&self) {
        lemma_reflexive_interface_type_definition(*self);
    }

    proof fn congruence_symmetric(&self, other: &Self) {
        lemma_symmetric_interface_type_definition(*self, *other);
    }

    proof fn congruence_transitive(&self, middle: &Self, last: &Self) {
        lemma_transitive_interface_type_definition(*self, *middle, *last);
    }
    open spec fn token_spans(&self) -> Seq<Span> {
        spans_interface_type_definition(*self)
    }

    fn span(&self) -> (r: Span) {
        let mut spans: Vec<Span> = Vec::new();
        gather_interface_type_definition(self, &mut spans);
        assert(spans@ =~= self.token_spans());
        cover(&spans)
    }
}

impl Node for InterfaceTypeExtension {

    open spec fn spec_congruent(&self, other: &Self) -> bool {
        congruent_interface_type_extension(*self, *other)
    }

    fn congruent(&self, other: &Self) -> (r: bool) {
        are_congruent_interface_type_extension(self, other)
    }

    proof fn congruence_reflexive(&self) {
        lemma_reflexive_interface_type_extension(*self);
    }

    proof fn congruence_symmetric(&self, other: &Self) {
        lemma_symmetric_interface_type_extension(*self, *other);
    }

    proof fn congruence_transitive(&self, middle: &Self, last: &Self) {
        lemma_transitive_interface_type_extension(*self, *middle, *last);
    }
    open spec fn token_spans(&self) -> Seq<Span> {
        spans_interface_type_extension(*self)
    }

    fn span(&self) -> (r: Span) {
        let mut spans: Vec<Span> = Vec::new();
        gather_interface_type_extension(self, &mut spans);
        assert(spans@ =~= self.token_spans());
        cover(&spans)
    }
}

impl Node for UnionTypeDefinition {

    open spec fn spec_congruent(&self, other: &Self) -> bool {
        congruent_union_type_definition(*self, *other)
    }

    fn congruent(&self, other: &Self) -> (r: bool) {
        are_congruent_union_type_definition(self, other)
    }

    proof fn congruence_reflexive(&self) {
        lemma_reflexive_union_type_definition(*self);
    }

    proof fn congruence_symmetric(&self, other: &Self) {
        lemma_symmetric_union_type_definition(*self, *other);
    }

    proof fn congruence_transitive(&self, middle: &Self, last: &Self) {
        lemma_transitive_union_type_definition(*self, *middle, *last);
    }
    open spec fn token_spans(&self) -> Seq<Span> {
        spans_union_type_definition(*self)
    }

    fn span(&self) -> (r: Span) {
        let mut spans: Vec<Span> = Vec::new();
        gather_union_type_definition(self, &mut spans);
        assert(spans@ =~= self.token_spans());
        cover(&spans)
    }
}

impl Node for UnionMemberTypes {

    open spec fn spec_congruent(&self, other: &Self) -> bool {
        congruent_union_member_types(*self, *other)
    }

    fn congruent(&self, other: &Self) -> (r: bool) {
        are_congruent_union_member_types(self, other)
    }

    proof fn congruence_reflexive(&self) {
        lemma_reflexive_union_member_types(*self);
    }

    proof fn congruence_symmetric(&self, other: &Self) {
        lemma_symmetric_union_member_types(*self, *other);
    }

    proof fn congruence_transitive(&self, middle: &Self, last: &Self) {
        lemma_transitive_union_member_types(*self, *middle, *last);
    }
    open spec fn token_spans(&self) -> Seq<Span> {
        spans_union_member_types(*self)
    }

    fn span(&self) -> (r: Span) {
        let mut spans: Vec<Span> = Vec::new();
        gather_union_member_types(self, &mut spans);
        assert(spans@ =~= self.token_spans());
        cover(&spans)
    }
}

impl Node for UnionTypeExtension {

    open spec fn spec_congruent(&self, other: &Self) -> bool {
        congruent_union_type_extension(*self, *other)
    }

    fn congruent(&self, other: &Self) -> (r: bool) {
        are_congruent_union_type_extension(self, other)
    }

    proof fn congruence_reflexive(&self) {
        lemma_reflexive_union_type_extension(*self);
    }

    proof fn congruence_symmetric(&self, other: &Self) {
        lemma_symmetric_union_type_extension(*self, *other);
    }

    proof fn congruence_transitive(&self, middle: &Self, last: &Self) {
        lemma_transitive_union_type_extension(*self, *middle, *last);
    }
    open spec fn token_spans(&self) -> Seq<Span> {
        spans_union_type_extension(*self)
    }

    fn span(&self) -> (r: Span) {
        let mut spans: Vec<Span> = Vec::new();
        gather_union_type_extension(self, &mut spans);
        assert(spans@ =~= self.token_spans());
        cover(&spans)
    }
}

impl Node for EnumTypeDefinition {

    open spec fn spec_congruent(&self, other: &Self) -> bool {
        congruent_enum_type_definition(*self, *other)
    }

    fn congruent(&self, other: &Self) -> (r: bool) {
        are_congruent_enum_type_definition(self, other)
    }

    proof fn congruence_reflexive(&self) {
        lemma_reflexive_enum_type_definition(*self);
    }

    proof fn congruence_symmetric(&self, other: &Self) {
        lemma_symmetric_enum_type_definition(*self, *other);
    }

    proof fn congruence_transitive(&self, middle: &Self, last: &Self) {
        lemma_transitive_enum_type_definition(*self, *middle, *last);
    }
    open spec fn token_spans(&self) -> Seq<Span> {
        spans_enum_type_definition(*self)
    }

    fn span(&self) -> (r: Span) {
        let mut spans: Vec<Span> = Vec::new();
        gather_enum_type_definition(self, &mut spans);
        assert(spans@ =~= self.token_spans());
        cover(&spans)
    }
}

impl Node for EnumValuesDefinition {

    open spec fn spec_congruent(&self, other: &Self) -> bool {
        congruent_enum_values_definition(*self, *other)
    }

    fn congruent(&self, other: &Self) -> (r: bool) {
        are_congruent_enum_values_definition(self, other)
    }

    proof fn congruence_reflexive(&self) {
        lemma_reflexive_enum_values_definition(*self);
    }

    proof fn congruence_symmetric(&self, other: &Self) {
        lemma_symmetric_enum_values_definition(*self, *other);
    }

    proof fn congruence_transitive(&self, middle: &Self, last: &Self) {
        lemma_transitive_enum_values_definition(*self, *middle, *last);
    }
    open spec fn token_spans(&self) -> Seq<Span> {
        spans_enum_values_definition(*self)
    }

    fn span(&self) -> (r: Span) {
        let mut spans: Vec<Span> = Vec::new();
        gather_enum_values_definition(self, &mut spans);
        assert(spans@ =~= self.token_spans());
        cover(&spans)
    }
}

impl Node for EnumValueDefinition {

    open spec fn spec_congruent(&self, other: &Self) -> bool {
        congruent_enum_value_definition(*self, *other)
    }

    fn congruent(&self, other: &Self) -> (r: bool) {
        are_congruent_enum_value_definition(self, other)
    }

    proof fn congruence_reflexive(&self) {
        lemma_reflexive_enum_value_definition(*self);
    }

    proof fn congruence_symmetric(&self, other: &Self) {
        lemma_symmetric_enum_value_definition(*self, *other);
    }

    proof fn congruence_transitive(&self, middle: &Self, last: &Self) {
        lemma_transitive_enum_value_definition(*self, *middle, *last);
    }
    open spec fn token_spans(&self) -> Seq<Span> {
        spans_enum_value_definition(*self)
    }

    fn span(&self) -> (r: Span) {
        let mut spans: Vec<Span> = Vec::new();
        gather_enum_value_definition(self, &mut spans);
        assert(spans@ =~= self.token_spans());
        cover(&spans)
    }
}

impl Node for EnumTypeExtension {

    open spec fn spec_congruent(&self, other: &Self) -> bool {
        congruent_enum_type_extension(*self, *other)
    }

    fn congruent(&self, other: &Self) -> (r: bool) {
        are_congruent_enum_type_extension(self, other)
    }

    proof fn congruence_reflexive(&self) {
        lemma_reflexive_enum_type_extension(*self);
    }

    proof fn congruence_symmetric(&self, other: &Self) {
        lemma_symmetric_enum_type_extension(*self, *other);
    }

    proof fn congruence_transitive(&self, middle: &Self, last: &Self) {
        lemma_transitive_enum_type_extension(*self, *middle, *last);
    }
    open spec fn token_spans(&self) -> Seq<Span> {
        spans_enum_type_extension(*self)
    }

    fn span(&self) -> (r: Span) {
        let mut spans: Vec<Span> = Vec::new();
        gather_enum_type_extension(self, &mut spans);
        assert(spans@ =~= self.token_spans());
        cover(&spans)
    }
}

impl Node for InputObjectTypeDefinition {

    open spec fn spec_congruent(&self, other: &Self) -> bool {
        congruent_input_object_type_definition(*self, *other)
    }

    fn congruent(&self, other: &Self) -> (r: bool) {
        are_congruent_input_object_type_definition(self, other)
    }

    proof fn congruence_reflexive(&self) {
        lemma_reflexive_input_object_type_definition(*self);
    }

    proof fn congruence_symmetric(&self, other: &Self) {
        lemma_symmetric_input_object_type_definition(*self, *other);
    }

    proof fn congruence_transitive(&self, middle: &Self, last: &Self) {
        lemma_transitive_input_object_type_definition(*self, *middle, *last);
    }
    open spec fn token_spans(&self) -> Seq<Span> {
        spans_input_object_type_definition(*self)
    }

    fn span(&self) -> (r: Span) {
        let mut spans: Vec<Span> = Vec::new();
        gather_input_object_type_definition(self, &mut spans);
        assert(spans@ =~= self.token_spans());
        cover(&spans)
    }
}

impl Node for InputFieldsDefinition {

    open spec fn spec_congruent(&self, other: &Self) -> bool {
        congruent_input_fields_definition(*self, *other)
    }

    fn congruent(&self, other: &Self) -> (r: bool) {
        are_congruent_input_fields_definition(self, other)
    }

    proof fn congruence_reflexive(&self) {
        lemma_reflexive_input_fields_definition(*self);
    }

    proof fn congruence_symmetric(&self, other: &Self) {
        lemma_symmetric_input_fields_definition(*self, *other);
    }

    proof fn congruence_transitive(&self, middle: &Self, last: &Self) {
        lemma_transitive_input_fields_definition(*self, *middle, *last);
    }
    open spec fn token_spans(&self) -> Seq<Span> {
        spans_input_fields_definition(*self)
    }

    fn span(&self) -> (r: Span) {
        let mut spans: Vec<Span> = Vec::new();
        gather_input_fields_definition(self, &mut spans);
        assert(spans@ =~= self.token_spans());
        cover(&spans)
    }
}

impl Node for InputObjectTypeExtension {

    open spec fn spec_congruent(&self, other: &Self) -> bool {
        congruent_input_object_type_extension(*self, *other)
    }

    fn congruent(&self, other: &Self) -> (r: bool) {
        are_congruent_input_object_type_extension(self, other)
    }

    proof fn congruence_reflexive(&self) {
        lemma_reflexive_input_object_type_extension(*self);
    }

    proof fn congruence_symmetric(&self, other: &Self) {
        lemma_symmetric_input_object_type_extension(*self, *other);
    }

    proof fn congruence_transitive(&self, middle: &Self, last: &Self) {
        lemma_transitive_input_object_type_extension(*self, *middle, *last);
    }
    open spec fn token_spans(&self) -> Seq<Span> {
        spans_input_object_type_extension(*self)
    }

    fn span(&self) -> (r: Span) {
        let mut spans: Vec<Span> = Vec::new();
        gather_input_object_type_extension(self, &mut spans);
        assert(spans@ =~= self.token_spans());
        cover(&spans)
    }
}

impl Node for DirectiveDefinition {

    open spec fn spec_congruent(&self, other: &Self) -> bool {
        congruent_directive_definition(*self, *other)
    }

    fn congruent(&self, other: &Self) -> (r: bool) {
        are_congruent_directive_definition(self, other)
    }

    proof fn congruence_reflexive(&self) {
        lemma_reflexive_directive_definition(*self);
    }

    proof fn congruence_symmetric(&self, other: &Self) {
        lemma_symmetric_directive_definition(*self, *other);
    }

    proof fn congruence_transitive(&self, middle: &Self, last: &Self) {
        lemma_transitive_directive_definition(*self, *middle, *last);
    }
    open spec fn token_spans(&self) -> Seq<Span> {
        spans_directive_definition(*self)
    }

    fn span(&self) -> (r: Span) {
        let mut spans: Vec<Span> = Vec::new();
        gather_directive_definition(self, &mut spans);
        assert(spans@ =~= self.token_spans());
        cover(&spans)
    }
}

impl Node for DirectiveLocations {

    open spec fn spec_congruent(&self, other: &Self) -> bool {
        congruent_directive_locations(*self, *other)
    }

    fn congruent(&self, other: &Self) -> (r: bool) {
        are_congruent_directive_locations(self, other)
    }

    proof fn congruence_reflexive(&self) {
        lemma_reflexive_directive_locations(*self);
    }

    proof fn congruence_symmetric(&self, other: &Self) {
        lemma_symmetric_directive_locations(*self, *other);
    }

    proof fn congruence_transitive(&self, middle: &Self, last: &Self) {
        lemma_transitive_directive_locations(*self, *middle, *last);
    }
    open spec fn token_spans(&self) -> Seq<Span> {
        spans_directive_locations(*self)
    }

    fn span(&self) -> (r: Span) {
        let mut spans: Vec<Span> = Vec::new();
        gather_directive_locations(self, &mut spans);
        assert(spans@ =~= self.token_spans());
        cover(&spans)
    }
}

impl Node for DirectiveLocation {

    open spec fn spec_congruent(&self, other: &Self) -> bool {
        congruent_directive_location(*self, *other)
    }

    fn congruent(&self, other: &Self) -> (r: bool) {
        are_congruent_directive_location(self, other)
    }

    proof fn congruence_reflexive(&self) {
        lemma_reflexive_directive_location(*self);
    }

    proof fn congruence_symmetric(&self, other: &Self) {
        lemma_symmetric_directive_location(*self, *other);
    }

    proof fn congruence_transitive(&self, middle: &Self, last: &Self) {
        lemma_transitive_directive_location(*self, *middle, *last);
    }
    open spec fn token_spans(&self) -> Seq<Span> {
        spans_directive_location(*self)
    }

    fn span(&self) -> (r: Span) {
        let mut spans: Vec<Span> = Vec::new();
        gather_directive_location(self, &mut spans);
        assert(spans@ =~= self.token_spans());
        cover(&spans)
    }
}

impl Node for ExecutableDirectiveLocation {

    open spec fn spec_congruent(&self, other: &Self) -> bool {
        congruent_executable_directive_location(*self, *other)
    }

    fn congruent(&self, other: &Self) -> (r: bool) {
        are_congruent_executable_directive_location(self, other)
    }

    proof fn congruence_reflexive(&self) {
        lemma_reflexive_executable_directive_location(*self);
    }

    proof fn congruence_symmetric(&self, other: &Self) {
        lemma_symmetric_executable_directive_location(*self, *other);
    }

    proof fn congruence_transitive(&self, middle: &Self, last: &Self) {
        lemma_transitive_executable_directive_location(*self, *middle, *last);
    }
    open spec fn token_spans(&self) -> Seq<Span> {
        spans_executable_directive_location(*self)
    }

    fn span(&self) -> (r: Span) {
        let mut spans: Vec<Span> = Vec::new();
        gather_executable_directive_location(self, &mut spans);
        assert(spans@ =~= self.token_spans());
        cover(&spans)
    }
}

impl Node for TypeSystemDirectiveLocation {

    open spec fn spec_congruent(&self, other: &Self) -> bool {
        congruent_type_system_directive_location(*self, *other)
    }

    fn congruent(&self, other: &Self) -> (r: bool) {
        are_congruent_type_system_directive_location(self, other)
    }

    proof fn congruence_reflexive(&self) {
        lemma_reflexive_type_system_directive_location(*self);
    }

    proof fn congruence_symmetric(&self, other: &Self) {
        lemma_symmetric_type_system_directive_location(*self, *other);
    }

    proof fn congruence_transitive(&self, middle: &Self, last: &Self) {
        lemma_transitive_type_system_directive_location(*self, *middle, *last);
    }
    open spec fn token_spans(&self) -> Seq<Span> {
        spans_type_system_directive_location(*self)
    }

    fn span(&self) -> (r: Span) {
        let mut spans: Vec<Span> = Vec::new();
        gather_type_system_directive_location(self, &mut spans);
        assert(spans@ =~= self.token_spans());
        cover(&spans)
    }
}

} // verus!
