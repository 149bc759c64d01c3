use vstd::prelude::*;

use crate::ast::types::{
    Alias, Argument, Arguments, ArgumentsDefinition, BooleanValue, DefaultValue, Definition, Description, Directive, DirectiveDefinition, DirectiveLocation, DirectiveLocations, Directives, Document, EnumTypeDefinition, EnumTypeExtension, EnumValue, EnumValueDefinition, EnumValuesDefinition, ExecutableDefinition, ExecutableDirectiveLocation, ExecutableDocument, Field, FieldDefinition, FieldsDefinition, FragmentDefinition, FragmentSpread, ImplementsInterfaces, InlineFragment, InputFieldsDefinition, InputObjectTypeDefinition, InputObjectTypeExtension, InputValueDefinition, InterfaceTypeDefinition, InterfaceTypeExtension, ListType, ListValue, NamedType, NonNullType, NullValue, ObjectField, ObjectTypeDefinition, ObjectTypeExtension, ObjectValue, OperationDefinition, OperationType, RootOperationTypeDefinition, RootOperationTypeDefinitions, ScalarTypeDefinition, ScalarTypeExtension, SchemaDefinition, SchemaExtension, Selection, SelectionSet, Type, TypeCondition, TypeDefinition, TypeExtension, TypeSystemDefinition, TypeSystemDefinitionOrExtension, TypeSystemDirectiveLocation, TypeSystemDocument, TypeSystemExtension, TypeSystemExtensionDocument, UnionMemberTypes, UnionTypeDefinition, UnionTypeExtension, Value, Variable, VariableDefinition, VariableDefinitions,
};
use crate::diagnostics::Diagnostic;

use super::errors::{report_all, Errors};
use super::traverse::{Site, collect_alias, collect_argument, collect_arguments, collect_arguments_definition, collect_boolean_value, collect_default_value, collect_definition, collect_description, collect_directive, collect_directive_definition, collect_directive_location, collect_directive_locations, collect_directives, collect_document, collect_enum_type_definition, collect_enum_type_extension, collect_enum_value, collect_enum_value_definition, collect_enum_values_definition, collect_executable_definition, collect_executable_directive_location, collect_executable_document, collect_field, collect_field_definition, collect_fields_definition, collect_fragment_definition, collect_fragment_spread, collect_implements_interfaces, collect_inline_fragment, collect_input_fields_definition, collect_input_object_type_definition, collect_input_object_type_extension, collect_input_value_definition, collect_interface_type_definition, collect_interface_type_extension, collect_list_type, collect_list_value, collect_named_type, collect_non_null_type, collect_null_value, collect_object_field, collect_object_type_definition, collect_object_type_extension, collect_object_value, collect_operation_definition, collect_operation_type, collect_root_operation_type_definition, collect_root_operation_type_definitions, collect_scalar_type_definition, collect_scalar_type_extension, collect_schema_definition, collect_schema_extension, collect_selection, collect_selection_set, collect_type, collect_type_condition, collect_type_definition, collect_type_extension, collect_type_system_definition, collect_type_system_definition_or_extension, collect_type_system_directive_location, collect_type_system_document, collect_type_system_extension, collect_type_system_extension_document, collect_union_member_types, collect_union_type_definition, collect_union_type_extension, collect_value, collect_variable, collect_variable_definition, collect_variable_definitions, sites_alias, sites_argument, sites_arguments, sites_arguments_definition, sites_boolean_value, sites_default_value, sites_definition, sites_description, sites_directive, sites_directive_definition, sites_directive_location, sites_directive_locations, sites_directives, sites_document, sites_enum_type_definition, sites_enum_type_extension, sites_enum_value, sites_enum_value_definition, sites_enum_values_definition, sites_executable_definition, sites_executable_directive_location, sites_executable_document, sites_field, sites_field_definition, sites_fields_definition, sites_fragment_definition, sites_fragment_spread, sites_implements_interfaces, sites_inline_fragment, sites_input_fields_definition, sites_input_object_type_definition, sites_input_object_type_extension, sites_input_value_definition, sites_interface_type_definition, sites_interface_type_extension, sites_list_type, sites_list_value, sites_named_type, sites_non_null_type, sites_null_value, sites_object_field, sites_object_type_definition, sites_object_type_extension, sites_object_value, sites_operation_definition, sites_operation_type, sites_root_operation_type_definition, sites_root_operation_type_definitions, sites_scalar_type_definition, sites_scalar_type_extension, sites_schema_definition, sites_schema_extension, sites_selection, sites_selection_set, sites_type, sites_type_condition, sites_type_definition, sites_type_extension, sites_type_system_definition, sites_type_system_definition_or_extension, sites_type_system_directive_location, sites_type_system_document, sites_type_system_extension, sites_type_system_extension_document, sites_union_member_types, sites_union_type_definition, sites_union_type_extension, sites_value, sites_variable, sites_variable_definition, sites_variable_definitions};

verus! {

impl Errors for Document {
    open spec fn error_sites(&self) -> Seq<Site> {
        sites_document(*self)
    }

    fn errors(&self) -> (ds: Vec<Diagnostic>) {
        let mut sites: Vec<Site> = Vec::new();
        collect_document(self, &mut sites);
        assert(sites@ =~= self.error_sites());
        report_all(&sites)
    }
}

impl Errors for Definition {
    open spec fn error_sites(&self) -> Seq<Site> {
        sites_definition(*self)
    }

    fn errors(&self) -> (ds: Vec<Diagnostic>) {
        let mut sites: Vec<Site> = Vec::new();
        collect_definition(self, &mut sites);
        assert(sites@ =~= self.error_sites());
        report_all(&sites)
    }
}

impl Errors for ExecutableDocument {
    open spec fn error_sites(&self) -> Seq<Site> {
        sites_executable_document(*self)
    }

    fn errors(&self) -> (ds: Vec<Diagnostic>) {
        let mut sites: Vec<Site> = Vec::new();
        collect_executable_document(self, &mut sites);
        assert(sites@ =~= self.error_sites());
        report_all(&sites)
    }
}

impl Errors for ExecutableDefinition {
    open spec fn error_sites(&self) -> Seq<Site> {
        sites_executable_definition(*self)
    }

    fn errors(&self) -> (ds: Vec<Diagnostic>) {
        let mut sites: Vec<Site> = Vec::new();
        collect_executable_definition(self, &mut sites);
        assert(sites@ =~= self.error_sites());
        report_all(&sites)
    }
}

impl Errors for OperationDefinition {
    open spec fn error_sites(&self) -> Seq<Site> {
        sites_operation_definition(*self)
    }

    fn errors(&self) -> (ds: Vec<Diagnostic>) {
        let mut sites: Vec<Site> = Vec::new();
        collect_operation_definition(self, &mut sites);
        assert(sites@ =~= self.error_sites());
        report_all(&sites)
    }
}

impl Errors for OperationType {
    open spec fn error_sites(&self) -> Seq<Site> {
        sites_operation_type(*self)
    }

    fn errors(&self) -> (ds: Vec<Diagnostic>) {
        let mut sites: Vec<Site> = Vec::new();
        collect_operation_type(self, &mut sites);
        assert(sites@ =~= self.error_sites());
        report_all(&sites)
    }
}

impl Errors for SelectionSet {
    open spec fn error_sites(&self) -> Seq<Site> {
        sites_selection_set(*self)
    }

    fn errors(&self) -> (ds: Vec<Diagnostic>) {
        let mut sites: Vec<Site> = Vec::new();
        collect_selection_set(self, &mut sites);
        assert(sites@ =~= self.error_sites());
        report_all(&sites)
    }
}

impl Errors for Selection {
    open spec fn error_sites(&self) -> Seq<Site> {
        sites_selection(*self)
    }

    fn errors(&self) -> (ds: Vec<Diagnostic>) {
        let mut sites: Vec<Site> = Vec::new();
        collect_selection(self, &mut sites);
        assert(sites@ =~= self.error_sites());
        report_all(&sites)
    }
}

impl Errors for Field {
    open spec fn error_sites(&self) -> Seq<Site> {
        sites_field(*self)
    }

    fn errors(&self) -> (ds: Vec<Diagnostic>) {
        let mut sites: Vec<Site> = Vec::new();
        collect_field(self, &mut sites);
        assert(sites@ =~= self.error_sites());
        report_all(&sites)
    }
}

impl Errors for Alias {
    open spec fn error_sites(&self) -> Seq<Site> {
        sites_alias(*self)
    }

    fn errors(&self) -> (ds: Vec<Diagnostic>) {
        let mut sites: Vec<Site> = Vec::new();
        collect_alias(self, &mut sites);
        assert(sites@ =~= self.error_sites());
        report_all(&sites)
    }
}

impl Errors for Arguments {
    open spec fn error_sites(&self) -> Seq<Site> {
        sites_arguments(*self)
    }

    fn errors(&self) -> (ds: Vec<Diagnostic>) {
        let mut sites: Vec<Site> = Vec::new();
        collect_arguments(self, &mut sites);
        assert(sites@ =~= self.error_sites());
        report_all(&sites)
    }
}

impl Errors for Argument {
    open spec fn error_sites(&self) -> Seq<Site> {
        sites_argument(*self)
    }

    fn errors(&self) -> (ds: Vec<Diagnostic>) {
        let mut sites: Vec<Site> = Vec::new();
        collect_argument(self, &mut sites);
        assert(sites@ =~= self.error_sites());
        report_all(&sites)
    }
}

impl Errors for FragmentSpread {
    open spec fn error_sites(&self) -> Seq<Site> {
        sites_fragment_spread(*self)
    }

    fn errors(&self) -> (ds: Vec<Diagnostic>) {
        let mut sites: Vec<Site> = Vec::new();
        collect_fragment_spread(self, &mut sites);
        assert(sites@ =~= self.error_sites());
        report_all(&sites)
    }
}

impl Errors for InlineFragment {
    open spec fn error_sites(&self) -> Seq<Site> {
        sites_inline_fragment(*self)
    }

    fn errors(&self) -> (ds: Vec<Diagnostic>) {
        let mut sites: Vec<Site> = Vec::new();
        collect_inline_fragment(self, &mut sites);
        assert(sites@ =~= self.error_sites());
        report_all(&sites)
    }
}

impl Errors for FragmentDefinition {
    open spec fn error_sites(&self) -> Seq<Site> {
        sites_fragment_definition(*self)
    }

    fn errors(&self) -> (ds: Vec<Diagnostic>) {
        let mut sites: Vec<Site> = Vec::new();
        collect_fragment_definition(self, &mut sites);
        assert(sites@ =~= self.error_sites());
        report_all(&sites)
    }
}

impl Errors for TypeCondition {
    open spec fn error_sites(&self) -> Seq<Site> {
        sites_type_condition(*self)
    }

    fn errors(&self) -> (ds: Vec<Diagnostic>) {
        let mut sites: Vec<Site> = Vec::new();
        collect_type_condition(self, &mut sites);
        assert(sites@ =~= self.error_sites());
        report_all(&sites)
    }
}

impl Errors for Value {
    open spec fn error_sites(&self) -> Seq<Site> {
        sites_value(*self)
    }

    fn errors(&self) -> (ds: Vec<Diagnostic>) {
        let mut sites: Vec<Site> = Vec::new();
        collect_value(self, &mut sites);
        assert(sites@ =~= self.error_sites());
        report_all(&sites)
    }
}

impl Errors for BooleanValue {
    open spec fn error_sites(&self) -> Seq<Site> {
        sites_boolean_value(*self)
    }

    fn errors(&self) -> (ds: Vec<Diagnostic>) {
        let mut sites: Vec<Site> = Vec::new();
        collect_boolean_value(self, &mut sites);
        assert(sites@ =~= self.error_sites());
        report_all(&sites)
    }
}

impl Errors for NullValue {
    open spec fn error_sites(&self) -> Seq<Site> {
        sites_null_value(*self)
    }

    fn errors(&self) -> (ds: Vec<Diagnostic>) {
        let mut sites: Vec<Site> = Vec::new();
        collect_null_value(self, &mut sites);
        assert(sites@ =~= self.error_sites());
        report_all(&sites)
    }
}

impl Errors for EnumValue {
    open spec fn error_sites(&self) -> Seq<Site> {
        sites_enum_value(*self)
    }

    fn errors(&self) -> (ds: Vec<Diagnostic>) {
        let mut sites: Vec<Site> = Vec::new();
        collect_enum_value(self, &mut sites);
        assert(sites@ =~= self.error_sites());
        report_all(&sites)
    }
}

impl Errors for ListValue {
    open spec fn error_sites(&self) -> Seq<Site> {
        sites_list_value(*self)
    }

    fn errors(&self) -> (ds: Vec<Diagnostic>) {
        let mut sites: Vec<Site> = Vec::new();
        collect_list_value(self, &mut sites);
        assert(sites@ =~= self.error_sites());
        report_all(&sites)
    }
}

impl Errors for ObjectValue {
    open spec fn error_sites(&self) -> Seq<Site> {
        sites_object_value(*self)
    }

    fn errors(&self) -> (ds: Vec<Diagnostic>) {
        let mut sites: Vec<Site> = Vec::new();
        collect_object_value(self, &mut sites);
        assert(sites@ =~= self.error_sites());
        report_all(&sites)
    }
}

impl Errors for ObjectField {
    open spec fn error_sites(&self) -> Seq<Site> {
        sites_object_field(*self)
    }

    fn errors(&self) -> (ds: Vec<Diagnostic>) {
        let mut sites: Vec<Site> = Vec::new();
        collect_object_field(self, &mut sites);
        assert(sites@ =~= self.error_sites());
        report_all(&sites)
    }
}

impl Errors for VariableDefinitions {
    open spec fn error_sites(&self) -> Seq<Site> {
        sites_variable_definitions(*self)
    }

    fn errors(&self) -> (ds: Vec<Diagnostic>) {
        let mut sites: Vec<Site> = Vec::new();
        collect_variable_definitions(self, &mut sites);
        assert(sites@ =~= self.error_sites());
        report_all(&sites)
    }
}

impl Errors for VariableDefinition {
    open spec fn error_sites(&self) -> Seq<Site> {
        sites_variable_definition(*self)
    }

    fn errors(&self) -> (ds: Vec<Diagnostic>) {
        let mut sites: Vec<Site> = Vec::new();
        collect_variable_definition(self, &mut sites);
        assert(sites@ =~= self.error_sites());
        report_all(&sites)
    }
}

impl Errors for Variable {
    open spec fn error_sites(&self) -> Seq<Site> {
        sites_variable(*self)
    }

    fn errors(&self) -> (ds: Vec<Diagnostic>) {
        let mut sites: Vec<Site> = Vec::new();
        collect_variable(self, &mut sites);
        assert(sites@ =~= self.error_sites());
        report_all(&sites)
    }
}

impl Errors for DefaultValue {
    open spec fn error_sites(&self) -> Seq<Site> {
        sites_default_value(*self)
    }

    fn errors(&self) -> (ds: Vec<Diagnostic>) {
        let mut sites: Vec<Site> = Vec::new();
        collect_default_value(self, &mut sites);
        assert(sites@ =~= self.error_sites());
        report_all(&sites)
    }
}

impl Errors for Type {
    open spec fn error_sites(&self) -> Seq<Site> {
        sites_type(*self)
    }

    fn errors(&self) -> (ds: Vec<Diagnostic>) {
        let mut sites: Vec<Site> = Vec::new();
        collect_type(self, &mut sites);
        assert(sites@ =~= self.error_sites());
        report_all(&sites)
    }
}

impl Errors for NamedType {
    open spec fn error_sites(&self) -> Seq<Site> {
        sites_named_type(*self)
    }

    fn errors(&self) -> (ds: Vec<Diagnostic>) {
        let mut sites: Vec<Site> = Vec::new();
        collect_named_type(self, &mut sites);
        assert(sites@ =~= self.error_sites());
        report_all(&sites)
    }
}

impl Errors for ListType {
    open spec fn error_sites(&self) -> Seq<Site> {
        sites_list_type(*self)
    }

    fn errors(&self) -> (ds: Vec<Diagnostic>) {
        let mut sites: Vec<Site> = Vec::new();
        collect_list_type(self, &mut sites);
        assert(sites@ =~= self.error_sites());
        report_all(&sites)
    }
}

impl Errors for NonNullType {
    open spec fn error_sites(&self) -> Seq<Site> {
        sites_non_null_type(*self)
    }

    fn errors(&self) -> (ds: Vec<Diagnostic>) {
        let mut sites: Vec<Site> = Vec::new();
        collect_non_null_type(self, &mut sites);
        assert(sites@ =~= self.error_sites());
        report_all(&sites)
    }
}

impl Errors for Directives {
    open spec fn error_sites(&self) -> Seq<Site> {
        sites_directives(*self)
    }

    fn errors(&self) -> (ds: Vec<Diagnostic>) {
        let mut sites: Vec<Site> = Vec::new();
        collect_directives(self, &mut sites);
        assert(sites@ =~= self.error_sites());
        report_all(&sites)
    }
}

impl Errors for Directive {
    open spec fn error_sites(&self) -> Seq<Site> {
        sites_directive(*self)
    }

    fn errors(&self) -> (ds: Vec<Diagnostic>) {
        let mut sites: Vec<Site> = Vec::new();
        collect_directive(self, &mut sites);
        assert(sites@ =~= self.error_sites());
        report_all(&sites)
    }
}

impl Errors for TypeSystemDocument {
    open spec fn error_sites(&self) -> Seq<Site> {
        sites_type_system_document(*self)
    }

    fn errors(&self) -> (ds: Vec<Diagnostic>) {
        let mut sites: Vec<Site> = Vec::new();
        collect_type_system_document(self, &mut sites);
        assert(sites@ =~= self.error_sites());
        report_all(&sites)
    }
}

impl Errors for TypeSystemDefinition {
    open spec fn error_sites(&self) -> Seq<Site> {
        sites_type_system_definition(*self)
    }

    fn errors(&self) -> (ds: Vec<Diagnostic>) {
        let mut sites: Vec<Site> = Vec::new();
        collect_type_system_definition(self, &mut sites);
        assert(sites@ =~= self.error_sites());
        report_all(&sites)
    }
}

impl Errors for TypeSystemExtensionDocument {
    open spec fn error_sites(&self) -> Seq<Site> {
        sites_type_system_extension_document(*self)
    }

    fn errors(&self) -> (ds: Vec<Diagnostic>) {
        let mut sites: Vec<Site> = Vec::new();
        collect_type_system_extension_document(self, &mut sites);
        assert(sites@ =~= self.error_sites());
        report_all(&sites)
    }
}

impl Errors for TypeSystemDefinitionOrExtension {
    open spec fn error_sites(&self) -> Seq<Site> {
        sites_type_system_definition_or_extension(*self)
    }

    fn errors(&self) -> (ds: Vec<Diagnostic>) {
        let mut sites: Vec<Site> = Vec::new();
        collect_type_system_definition_or_extension(self, &mut sites);
        assert(sites@ =~= self.error_sites());
        report_all(&sites)
    }
}

impl Errors for TypeSystemExtension {
    open spec fn error_sites(&self) -> Seq<Site> {
        sites_type_system_extension(*self)
    }

    fn errors(&self) -> (ds: Vec<Diagnostic>) {
        let mut sites: Vec<Site> = Vec::new();
        collect_type_system_extension(self, &mut sites);
        assert(sites@ =~= self.error_sites());
        report_all(&sites)
    }
}

impl Errors for Description {
    open spec fn error_sites(&self) -> Seq<Site> {
        sites_description(*self)
    }

    fn errors(&self) -> (ds: Vec<Diagnostic>) {
        let mut sites: Vec<Site> = Vec::new();
        collect_description(self, &mut sites);
        assert(sites@ =~= self.error_sites());
        report_all(&sites)
    }
}

impl Errors for SchemaDefinition {
    open spec fn error_sites(&self) -> Seq<Site> {
        sites_schema_definition(*self)
    }

    fn errors(&self) -> (ds: Vec<Diagnostic>) {
        let mut sites: Vec<Site> = Vec::new();
        collect_schema_definition(self, &mut sites);
        assert(sites@ =~= self.error_sites());
        report_all(&sites)
    }
}

impl Errors for RootOperationTypeDefinitions {
    open spec fn error_sites(&self) -> Seq<Site> {
        sites_root_operation_type_definitions(*self)
    }

    fn errors(&self) -> (ds: Vec<Diagnostic>) {
        let mut sites: Vec<Site> = Vec::new();
        collect_root_operation_type_definitions(self, &mut sites);
        assert(sites@ =~= self.error_sites());
        report_all(&sites)
    }
}

impl Errors for RootOperationTypeDefinition {
    open spec fn error_sites(&self) -> Seq<Site> {
        sites_root_operation_type_definition(*self)
    }

    fn errors(&self) -> (ds: Vec<Diagnostic>) {
        let mut sites: Vec<Site> = Vec::new();
        collect_root_operation_type_definition(self, &mut sites);
        assert(sites@ =~= self.error_sites());
        report_all(&sites)
    }
}

impl Errors for SchemaExtension {
    open spec fn error_sites(&self) -> Seq<Site> {
        sites_schema_extension(*self)
    }

    fn errors(&self) -> (ds: Vec<Diagnostic>) {
        let mut sites: Vec<Site> = Vec::new();
        collect_schema_extension(self, &mut sites);
        assert(sites@ =~= self.error_sites());
        report_all(&sites)
    }
}

impl Errors for TypeDefinition {
    open spec fn error_sites(&self) -> Seq<Site> {
        sites_type_definition(*self)
    }

    fn errors(&self) -> (ds: Vec<Diagnostic>) {
        let mut sites: Vec<Site> = Vec::new();
        collect_type_definition(self, &mut sites);
        assert(sites@ =~= self.error_sites());
        report_all(&sites)
    }
}

impl Errors for TypeExtension {
    open spec fn error_sites(&self) -> Seq<Site> {
        sites_type_extension(*self)
    }

    fn errors(&self) -> (ds: Vec<Diagnostic>) {
        let mut sites: Vec<Site> = Vec::new();
        collect_type_extension(self, &mut sites);
        assert(sites@ =~= self.error_sites());
        report_all(&sites)
    }
}

impl Errors for ScalarTypeDefinition {
    open spec fn error_sites(&self) -> Seq<Site> {
        sites_scalar_type_definition(*self)
    }

    fn errors(&self) -> (ds: Vec<Diagnostic>) {
        let mut sites: Vec<Site> = Vec::new();
        collect_scalar_type_definition(self, &mut sites);
        assert(sites@ =~= self.error_sites());
        report_all(&sites)
    }
}

impl Errors for ScalarTypeExtension {
    open spec fn error_sites(&self) -> Seq<Site> {
        sites_scalar_type_extension(*self)
    }

    fn errors(&self) -> (ds: Vec<Diagnostic>) {
        let mut sites: Vec<Site> = Vec::new();
        collect_scalar_type_extension(self, &mut sites);
        assert(sites@ =~= self.error_sites());
        report_all(&sites)
    }
}

impl Errors for ObjectTypeDefinition {
    open spec fn error_sites(&self) -> Seq<Site> {
        sites_object_type_definition(*self)
    }

    fn errors(&self) -> (ds: Vec<Diagnostic>) {
        let mut sites: Vec<Site> = Vec::new();
        collect_object_type_definition(self, &mut sites);
        assert(sites@ =~= self.error_sites());
        report_all(&sites)
    }
}

impl Errors for ImplementsInterfaces {
    open spec fn error_sites(&self) -> Seq<Site> {
        sites_implements_interfaces(*self)
    }

    fn errors(&self) -> (ds: Vec<Diagnostic>) {
        let mut sites: Vec<Site> = Vec::new();
        collect_implements_interfaces(self, &mut sites);
        assert(sites@ =~= self.error_sites());
        report_all(&sites)
    }
}

impl Errors for FieldsDefinition {
    open spec fn error_sites(&self) -> Seq<Site> {
        sites_fields_definition(*self)
    }

    fn errors(&self) -> (ds: Vec<Diagnostic>) {
        let mut sites: Vec<Site> = Vec::new();
        collect_fields_definition(self, &mut sites);
        assert(sites@ =~= self.error_sites());
        report_all(&sites)
    }
}

impl Errors for FieldDefinition {
    open spec fn error_sites(&self) -> Seq<Site> {
        sites_field_definition(*self)
    }

    fn errors(&self) -> (ds: Vec<Diagnostic>) {
        let mut sites: Vec<Site> = Vec::new();
        collect_field_definition(self, &mut sites);
        assert(sites@ =~= self.error_sites());
        report_all(&sites)
    }
}

impl Errors for ArgumentsDefinition {
    open spec fn error_sites(&self) -> Seq<Site> {
        sites_arguments_definition(*self)
    }

    fn errors(&self) -> (ds: Vec<Diagnostic>) {
        let mut sites: Vec<Site> = Vec::new();
        collect_arguments_definition(self, &mut sites);
        assert(sites@ =~= self.error_sites());
        report_all(&sites)
    }
}

impl Errors for InputValueDefinition {
    open spec fn error_sites(&self) -> Seq<Site> {
        sites_input_value_definition(*self)
    }

    fn errors(&self) -> (ds: Vec<Diagnostic>) {
        let mut sites: Vec<Site> = Vec::new();
        collect_input_value_definition(self, &mut sites);
        assert(sites@ =~= self.error_sites());
        report_all(&sites)
    }
}

impl Errors for ObjectTypeExtension {
    open spec fn error_sites(&self) -> Seq<Site> {
        sites_object_type_extension(*self)
    }

    fn errors(&self) -> (ds: Vec<Diagnostic>) {
        let mut sites: Vec<Site> = Vec::new();
        collect_object_type_extension(self, &mut sites);
        assert(sites@ =~= self.error_sites());
        report_all(&sites)
    }
}

impl Errors for InterfaceTypeDefinition {
    open spec fn error_sites(&self) -> Seq<Site> {
        sites_interface_type_definition(*self)
    }

    fn errors(&self) -> (ds: Vec<Diagnostic>) {
        let mut sites: Vec<Site> = Vec::new();
        collect_interface_type_definition(self, &mut sites);
        assert(sites@ =~= self.error_sites());
        report_all(&sites)
    }
}

impl Errors for InterfaceTypeExtension {
    open spec fn error_sites(&self) -> Seq<Site> {
        sites_interface_type_extension(*self)
    }

    fn errors(&self) -> (ds: Vec<Diagnostic>) {
        let mut sites: Vec<Site> = Vec::new();
        collect_interface_type_extension(self, &mut sites);
        assert(sites@ =~= self.error_sites());
        report_all(&sites)
    }
}

impl Errors for UnionTypeDefinition {
    open spec fn error_sites(&self) -> Seq<Site> {
        sites_union_type_definition(*self)
    }

    fn errors(&self) -> (ds: Vec<Diagnostic>) {
        let mut sites: Vec<Site> = Vec::new();
        collect_union_type_definition(self, &mut sites);
        assert(sites@ =~= self.error_sites());
        report_all(&sites)
    }
}

impl Errors for UnionMemberTypes {
    open spec fn error_sites(&self) -> Seq<Site> {
        sites_union_member_types(*self)
    }

    fn errors(&self) -> (ds: Vec<Diagnostic>) {
        let mut sites: Vec<Site> = Vec::new();
        collect_union_member_types(self, &mut sites);
        assert(sites@ =~= self.error_sites());
        report_all(&sites)
    }
}

impl Errors for UnionTypeExtension {
    open spec fn error_sites(&self) -> Seq<Site> {
        sites_union_type_extension(*self)
    }

    fn errors(&self) -> (ds: Vec<Diagnostic>) {
        let mut sites: Vec<Site> = Vec::new();
        collect_union_type_extension(self, &mut sites);
        assert(sites@ =~= self.error_sites());
        report_all(&sites)
    }
}

impl Errors for EnumTypeDefinition {
    open spec fn error_sites(&self) -> Seq<Site> {
        sites_enum_type_definition(*self)
    }

    fn errors(&self) -> (ds: Vec<Diagnostic>) {
        let mut sites: Vec<Site> = Vec::new();
        collect_enum_type_definition(self, &mut sites);
        assert(sites@ =~= self.error_sites());
        report_all(&sites)
    }
}

impl Errors for EnumValuesDefinition {
    open spec fn error_sites(&self) -> Seq<Site> {
        sites_enum_values_definition(*self)
    }

    fn errors(&self) -> (ds: Vec<Diagnostic>) {
        let mut sites: Vec<Site> = Vec::new();
        collect_enum_values_definition(self, &mut sites);
        assert(sites@ =~= self.error_sites());
        report_all(&sites)
    }
}

impl Errors for EnumValueDefinition {
    open spec fn error_sites(&self) -> Seq<Site> {
        sites_enum_value_definition(*self)
    }

    fn errors(&self) -> (ds: Vec<Diagnostic>) {
        let mut sites: Vec<Site> = Vec::new();
        collect_enum_value_definition(self, &mut sites);
        assert(sites@ =~= self.error_sites());
        report_all(&sites)
    }
}

impl Errors for EnumTypeExtension {
    open spec fn error_sites(&self) -> Seq<Site> {
        sites_enum_type_extension(*self)
    }

    fn errors(&self) -> (ds: Vec<Diagnostic>) {
        let mut sites: Vec<Site> = Vec::new();
        collect_enum_type_extension(self, &mut sites);
        assert(sites@ =~= self.error_sites());
        report_all(&sites)
    }
}

impl Errors for InputObjectTypeDefinition {
    open spec fn error_sites(&self) -> Seq<Site> {
        sites_input_object_type_definition(*self)
    }

    fn errors(&self) -> (ds: Vec<Diagnostic>) {
        let mut sites: Vec<Site> = Vec::new();
        collect_input_object_type_definition(self, &mut sites);
        assert(sites@ =~= self.error_sites());
        report_all(&sites)
    }
}

impl Errors for InputFieldsDefinition {
    open spec fn error_sites(&self) -> Seq<Site> {
        sites_input_fields_definition(*self)
    }

    fn errors(&self) -> (ds: Vec<Diagnostic>) {
        let mut sites: Vec<Site> = Vec::new();
        collect_input_fields_definition(self, &mut sites);
        assert(sites@ =~= self.error_sites());
        report_all(&sites)
    }
}

impl Errors for InputObjectTypeExtension {
    open spec fn error_sites(&self) -> Seq<Site> {
        sites_input_object_type_extension(*self)
    }

    fn errors(&self) -> (ds: Vec<Diagnostic>) {
        let mut sites: Vec<Site> = Vec::new();
        collect_input_object_type_extension(self, &mut sites);
        assert(sites@ =~= self.error_sites());
        report_all(&sites)
    }
}

impl Errors for DirectiveDefinition {
    open spec fn error_sites(&self) -> Seq<Site> {
        sites_directive_definition(*self)
    }

    fn errors(&self) -> (ds: Vec<Diagnostic>) {
        let mut sites: Vec<Site> = Vec::new();
        collect_directive_definition(self, &mut sites);
        assert(sites@ =~= self.error_sites());
        report_all(&sites)
    }
}

impl Errors for DirectiveLocations {
    open spec fn error_sites(&self) -> Seq<Site> {
        sites_directive_locations(*self)
    }

    fn errors(&self) -> (ds: Vec<Diagnostic>) {
        let mut sites: Vec<Site> = Vec::new();
        collect_directive_locations(self, &mut sites);
        assert(sites@ =~= self.error_sites());
        report_all(&sites)
    }
}

impl Errors for DirectiveLocation {
    open spec fn error_sites(&self) -> Seq<Site> {
        sites_directive_location(*self)
    }

    fn errors(&self) -> (ds: Vec<Diagnostic>) {
        let mut sites: Vec<Site> = Vec::new();
        collect_directive_location(self, &mut sites);
        assert(sites@ =~= self.error_sites());
        report_all(&sites)
    }
}

impl Errors for ExecutableDirectiveLocation {
    open spec fn error_sites(&self) -> Seq<Site> {
        sites_executable_directive_location(*self)
    }

    fn errors(&self) -> (ds: Vec<Diagnostic>) {
        let mut sites: Vec<Site> = Vec::new();
        collect_executable_directive_location(self, &mut sites);
        assert(sites@ =~= self.error_sites());
        report_all(&sites)
    }
}

impl Errors for TypeSystemDirectiveLocation {
    open spec fn error_sites(&self) -> Seq<Site> {
        sites_type_system_directive_location(*self)
    }

    fn errors(&self) -> (ds: Vec<Diagnostic>) {
        let mut sites: Vec<Site> = Vec::new();
        collect_type_system_directive_location(self, &mut sites);
        assert(sites@ =~= self.error_sites());
        report_all(&sites)
    }
}

} // verus!
