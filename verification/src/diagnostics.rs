use vstd::prelude::*;

use crate::lex::Span;

verus! {

/// What a diagnostic reports.
#[derive(Clone, Copy, Debug, PartialEq, Eq, Structural)]
pub enum DiagnosticKind {
    /// (E0001) Syntax error.
    UnrecognizedTokens,
    /// (E0002) Operation definition must have a name.
    MissingOperationDefinitionName,
    /// (E0003) Operation definition must have a selection set.
    MissingOperationDefinitionSelectionSet,
    /// (E0004) Selection set is missing closing curly brace.
    MissingSelectionSetClosingBrace,
    /// (E0005) Field must have a name.
    MissingFieldName,
    /// (E0006) Arguments are missing closing parenthesis.
    MissingArgumentsClosingParentheses,
    /// (E0007) Argument is missing colon.
    MissingArgumentColon,
    /// (E0008) Argument is missing value.
    MissingArgumentValue,
    /// (E0009) Inline fragment is missing selection set.
    MissingInlineFragmentSelectionSet,
    /// (E0010) Fragment definition must have a name.
    MissingFragmentName,
    /// (E0011) Fragment definition must have a type condition.
    MissingFragmentTypeCondition,
    /// (E0012) Fragment definition must have a selection set.
    MissingFragmentSelectionSet,
    /// (E0013) Type condition must have a named type.
    MissingTypeConditionNamedType,
    /// (E0014) List value must have closing bracket.
    MissingListValueClosingBracket,
    /// (E0015) Object value must have closing brace.
    MissingObjectValueClosingBrace,
    /// (E0016) Object field must have a colon.
    MissingObjectFieldColon,
    /// (E0017) Object field must have a value.
    MissingObjectFieldValue,
    /// (E0018) Variable definitions must have a closing parenthesis.
    MissingVariableDefinitionsClosingParenthesis,
    /// (E0019) Variable definition must have a colon.
    MissingVariableDefinitionColon,
    /// (E0020) Variable definition must have a type.
    MissingVariableDefinitionType,
    /// (E0021) Default value must have a value.
    MissingDefaultValue,
    /// (E0022) List type must have a closing bracket.
    MissingListTypeClosingBracket,
    /// (E0023) List type must wrap another type.
    MissingListTypeWrappedType,
    /// (E0024) Directive must have a name.
    MissingDirectiveName,
    /// (E0025) Schema definition must define one or more root operation types.
    MissingRootOperationTypeDefinitions,
    /// (E0026) Root operation type definitions must have a closing brace.
    MissingRootOperationTypeDefinitionsClosingBrace,
    /// (E0027) Root operation type definition must have a colon.
    MissingRootOperationTypeDefinitionColon,
    /// (E0028) Root operation type definition must have a named type.
    MissingRootOperationTypeDefinitionNamedType,
    /// (E0029) Scalar type definition must have a name.
    MissingScalarTypeDefinitionName,
    /// (E0030) Scalar type extension must have a name.
    MissingScalarTypeExtensionName,
    /// (E0031) Scalar type extension must have one or more directives.
    MissingScalarTypeExtensionDirectives,
    /// (E0032) Object type definition must have a name.
    MissingObjectTypeDefinitionName,
    /// (E0033) Implemented interfaces must not be empty.
    MissingFirstImplementsInterface,
    /// (E0034) Implemented interface name is missing.
    MissingSecondImplementsInterface,
    /// (E0035) Fields definition must have a closing brace.
    MissingFieldsDefinitionClosingBrace,
    /// (E0036) Field definition must have a colon.
    MissingFieldDefinitionColon,
    /// (E0037) Field definition must have a type.
    MissingFieldDefinitionType,
    /// (E0038) Arguments definition must have a closing parenthesis.
    MissingArgumentsDefinitionClosingParenthesis,
    /// (E0039) Input value definition must have a colon.
    MissingInputValueDefinitionColon,
    /// (E0040) Input value definition must have a type.
    MissingInputValueDefinitionType,
    /// (E0041) Object type extension must have a name.
    MissingObjectTypeExtensionName,
    /// (E0042) Interface type definition must have a name.
    MissingInterfaceTypeDefinitionName,
    /// (E0043) Interface type extension must have a name.
    MissingInterfaceTypeExtensionName,
    /// (E0044) Union type definition must have a name.
    MissingUnionTypeDefinitionName,
    /// (E0045) Union type definition must have one or more member types.
    MissingFirstUnionMemberType,
    /// (E0046) Union member type must have a name.
    MissingSecondUnionMemberType,
    /// (E0047) Union type extension must have a name.
    MissingUnionTypeExtensionName,
    /// (E0048) Enum type definition must have a name.
    MissingEnumTypeDefinitionName,
    /// (E0049) Enum values must have a closing brace.
    MissingEnumValuesClosingBrace,
    /// (E0050) Enum type extension must have a name.
    MissingEnumTypeExtensionName,
    /// (E0051) Input object type definition must have a name.
    MissingInputObjectTypeDefinitionName,
    /// (E0052) Input fields definition must have a closing brace.
    MissingInputFieldsDefinitionClosingBrace,
    /// (E0053) Input object type extension must have a name.
    MissingInputObjectTypeExtensionName,
    /// (E0054) Directive's name must start with an `@`.
    MissingDirectiveDefinitionAt,
    /// (E0055) Directive definition must have a name.
    MissingDirectiveDefinitionName,
    /// (E0056) Directive definition must have one or more locations.
    MissingDirectiveDefinitionLocations,
    /// (E0057) Directive definition must have one or more locations.
    MissingFirstDirectiveLocation,
    /// (E0058) Directive location must be defined.
    MissingSecondDirectiveLocation,
    /// (E0100) Named type must exist.
    UnknownNamedType,
    /// (E0101) Type must define one or more fields.
    EmptyType,
    /// (E0102) Field name must be unique.
    DuplicateField,
    /// (E0103) Field name must be unique across extended types.
    DuplicateExtendedField,
    /// (E0104) Field name must not start with `__`.
    ReservedFieldName,
    /// (E0105) Field must be output type.
    FieldNotOutputType,
    /// (E0106) Argument name must be unique.
    DuplicateArgumentName,
    /// (E0107) Input value name must not start with `__`.
    ReservedInputValueName,
    /// (E0108) Input value must be input type.
    InputValueNotInputType,
    /// (E0109) Type must not implement same interface twice.
    DuplicateImplementsInterface,
    /// (E0110) Implemented type must be interface.
    ImplementsNonInterfaceType,
    /// (E0111) Type must also implement inherited interfaces.
    MissingInheritedInterface,
    /// (E0112) Type must implement field from interface.
    MissingInterfaceField,
    /// (E0113) Type must implement field with argument from interface.
    MissingInterfaceFieldArgument,
    /// (E0114) Type must implement field with argument of same type as interface.
    InvalidInterfaceFieldArgumentType,
    /// (E0115) Type must not require extra arguments for fields implementing interface.
    UnexpectedNonNullExtraInterfaceFieldArgument,
    /// (E0116) Implemented type and type from interface must be covariant.
    NonCovariantInterfaceField,
    /// (E0117) Interface must not implement itself.
    SelfReferentialInterface,
    /// (E0118) Union must have at least one member type.
    MissingUnionMembers,
    /// (E0119) Union members must be unique.
    DuplicateUnionMember,
    /// (E0120) Union members must be object types.
    NonObjectUnionMember,
    /// (E0121) Enum must have at least one value.
    MissingEnumValues,
    /// (E0122) Enum values must be unique.
    DuplicateEnumValue,
    /// (E0123) Input type must not be self-referential.
    SelfReferentialInputType,
    /// (E0124) Directive name must not start with `__`.
    ReservedDirectiveName,
    /// (E0125) Directive must not be self-referential.
    SelfReferentialDirective,
    /// (E0126) Type name must be unique.
    DuplicateTypeName,
    /// (E0126) Directive name must be unique.
    DuplicateDirectiveName,
    /// (E0127) Type extension must extend type of same kind.
    DifferentExtensionType,
    /// (E0200) Expected a non-null value.
    ExpectedNonNullValue,
    /// (E0201) Expected a list value.
    ExpectedListValue,
    /// (E0202) Expected an int value.
    ExpectedIntValue,
    /// (E0203) Expected a float value.
    ExpectedFloatValue,
    /// (E0204) Expected a string value.
    ExpectedStringValue,
    /// (E0205) Expected a boolean value.
    ExpectedBooleanValue,
    /// (E0206) Expected an input object value.
    ExpectedInputObjectValue,
    /// (E0207) Expected a value for required input field.
    MissingInputField,
    /// (E0208) All fields in input object must exist in schema definition.
    UnrecognizedInputField,
    /// (E0209) Enum values must exist in schema definition.
    UnrecognizedEnumValue,
    /// (E0300) Operation definitions must be unique.
    DuplicateOperationName,
    /// (E0301) Anonymous operation definitions must be alone.
    LoneAnonymousOperation,
    /// (E0303) Queried field does not exist.
    UndefinedField,
}

/// The code of each kind: `E` and four digits.
pub open spec fn spec_code(kind: DiagnosticKind) -> &'static str {
    match kind {
        DiagnosticKind::UnrecognizedTokens => "E0001",
        DiagnosticKind::MissingOperationDefinitionName => "E0002",
        DiagnosticKind::MissingOperationDefinitionSelectionSet => "E0003",
        DiagnosticKind::MissingSelectionSetClosingBrace => "E0004",
        DiagnosticKind::MissingFieldName => "E0005",
        DiagnosticKind::MissingArgumentsClosingParentheses => "E0006",
        DiagnosticKind::MissingArgumentColon => "E0007",
        DiagnosticKind::MissingArgumentValue => "E0008",
        DiagnosticKind::MissingInlineFragmentSelectionSet => "E0009",
        DiagnosticKind::MissingFragmentName => "E0010",
        DiagnosticKind::MissingFragmentTypeCondition => "E0011",
        DiagnosticKind::MissingFragmentSelectionSet => "E0012",
        DiagnosticKind::MissingTypeConditionNamedType => "E0013",
        DiagnosticKind::MissingListValueClosingBracket => "E0014",
        DiagnosticKind::MissingObjectValueClosingBrace => "E0015",
        DiagnosticKind::MissingObjectFieldColon => "E0016",
        DiagnosticKind::MissingObjectFieldValue => "E0017",
        DiagnosticKind::MissingVariableDefinitionsClosingParenthesis => "E0018",
        DiagnosticKind::MissingVariableDefinitionColon => "E0019",
        DiagnosticKind::MissingVariableDefinitionType => "E0020",
        DiagnosticKind::MissingDefaultValue => "E0021",
        DiagnosticKind::MissingListTypeClosingBracket => "E0022",
        DiagnosticKind::MissingListTypeWrappedType => "E0023",
        DiagnosticKind::MissingDirectiveName => "E0024",
        DiagnosticKind::MissingRootOperationTypeDefinitions => "E0025",
        DiagnosticKind::MissingRootOperationTypeDefinitionsClosingBrace => "E0026",
        DiagnosticKind::MissingRootOperationTypeDefinitionColon => "E0027",
        DiagnosticKind::MissingRootOperationTypeDefinitionNamedType => "E0028",
        DiagnosticKind::MissingScalarTypeDefinitionName => "E0029",
        DiagnosticKind::MissingScalarTypeExtensionName => "E0030",
        DiagnosticKind::MissingScalarTypeExtensionDirectives => "E0031",
        DiagnosticKind::MissingObjectTypeDefinitionName => "E0032",
        DiagnosticKind::MissingFirstImplementsInterface => "E0033",
        DiagnosticKind::MissingSecondImplementsInterface => "E0034",
        DiagnosticKind::MissingFieldsDefinitionClosingBrace => "E0035",
        DiagnosticKind::MissingFieldDefinitionColon => "E0036",
        DiagnosticKind::MissingFieldDefinitionType => "E0037",
        DiagnosticKind::MissingArgumentsDefinitionClosingParenthesis => "E0038",
        DiagnosticKind::MissingInputValueDefinitionColon => "E0039",
        DiagnosticKind::MissingInputValueDefinitionType => "E0040",
        DiagnosticKind::MissingObjectTypeExtensionName => "E0041",
        DiagnosticKind::MissingInterfaceTypeDefinitionName => "E0042",
        DiagnosticKind::MissingInterfaceTypeExtensionName => "E0043",
        DiagnosticKind::MissingUnionTypeDefinitionName => "E0044",
        DiagnosticKind::MissingFirstUnionMemberType => "E0045",
        DiagnosticKind::MissingSecondUnionMemberType => "E0046",
        DiagnosticKind::MissingUnionTypeExtensionName => "E0047",
        DiagnosticKind::MissingEnumTypeDefinitionName => "E0048",
        DiagnosticKind::MissingEnumValuesClosingBrace => "E0049",
        DiagnosticKind::MissingEnumTypeExtensionName => "E0050",
        DiagnosticKind::MissingInputObjectTypeDefinitionName => "E0051",
        DiagnosticKind::MissingInputFieldsDefinitionClosingBrace => "E0052",
        DiagnosticKind::MissingInputObjectTypeExtensionName => "E0053",
        DiagnosticKind::MissingDirectiveDefinitionAt => "E0054",
        DiagnosticKind::MissingDirectiveDefinitionName => "E0055",
        DiagnosticKind::MissingDirectiveDefinitionLocations => "E0056",
        DiagnosticKind::MissingFirstDirectiveLocation => "E0057",
        DiagnosticKind::MissingSecondDirectiveLocation => "E0058",
        DiagnosticKind::UnknownNamedType => "E0100",
        DiagnosticKind::EmptyType => "E0101",
        DiagnosticKind::DuplicateField => "E0102",
        DiagnosticKind::DuplicateExtendedField => "E0103",
        DiagnosticKind::ReservedFieldName => "E0104",
        DiagnosticKind::FieldNotOutputType => "E0105",
        DiagnosticKind::DuplicateArgumentName => "E0106",
        DiagnosticKind::ReservedInputValueName => "E0107",
        DiagnosticKind::InputValueNotInputType => "E0108",
        DiagnosticKind::DuplicateImplementsInterface => "E0109",
        DiagnosticKind::ImplementsNonInterfaceType => "E0110",
        DiagnosticKind::MissingInheritedInterface => "E0111",
        DiagnosticKind::MissingInterfaceField => "E0112",
        DiagnosticKind::MissingInterfaceFieldArgument => "E0113",
        DiagnosticKind::InvalidInterfaceFieldArgumentType => "E0114",
        DiagnosticKind::UnexpectedNonNullExtraInterfaceFieldArgument => "E0115",
        DiagnosticKind::NonCovariantInterfaceField => "E0116",
        DiagnosticKind::SelfReferentialInterface => "E0117",
        DiagnosticKind::MissingUnionMembers => "E0118",
        DiagnosticKind::DuplicateUnionMember => "E0119",
        DiagnosticKind::NonObjectUnionMember => "E0120",
        DiagnosticKind::MissingEnumValues => "E0121",
        DiagnosticKind::DuplicateEnumValue => "E0122",
        DiagnosticKind::SelfReferentialInputType => "E0123",
        DiagnosticKind::ReservedDirectiveName => "E0124",
        DiagnosticKind::SelfReferentialDirective => "E0125",
        DiagnosticKind::DuplicateTypeName => "E0126",
        DiagnosticKind::DuplicateDirectiveName => "E0126",
        DiagnosticKind::DifferentExtensionType => "E0127",
        DiagnosticKind::ExpectedNonNullValue => "E0200",
        DiagnosticKind::ExpectedListValue => "E0201",
        DiagnosticKind::ExpectedIntValue => "E0202",
        DiagnosticKind::ExpectedFloatValue => "E0203",
        DiagnosticKind::ExpectedStringValue => "E0204",
        DiagnosticKind::ExpectedBooleanValue => "E0205",
        DiagnosticKind::ExpectedInputObjectValue => "E0206",
        DiagnosticKind::MissingInputField => "E0207",
        DiagnosticKind::UnrecognizedInputField => "E0208",
        DiagnosticKind::UnrecognizedEnumValue => "E0209",
        DiagnosticKind::DuplicateOperationName => "E0300",
        DiagnosticKind::LoneAnonymousOperation => "E0301",
        DiagnosticKind::UndefinedField => "E0303",
    }
}

/// The headline of each kind.
pub open spec fn spec_message(kind: DiagnosticKind) -> &'static str {
    match kind {
        DiagnosticKind::UnrecognizedTokens => "Syntax error.",
        DiagnosticKind::MissingOperationDefinitionName => "Operation definition must have a name.",
        DiagnosticKind::MissingOperationDefinitionSelectionSet => "Operation definition must have a selection set.",
        DiagnosticKind::MissingSelectionSetClosingBrace => "Selection set is missing closing curly brace.",
        DiagnosticKind::MissingFieldName => "Field must have a name.",
        DiagnosticKind::MissingArgumentsClosingParentheses => "Arguments are missing closing parenthesis.",
        DiagnosticKind::MissingArgumentColon => "Argument is missing colon.",
        DiagnosticKind::MissingArgumentValue => "Argument is missing value.",
        DiagnosticKind::MissingInlineFragmentSelectionSet => "Inline fragment is missing selection set.",
        DiagnosticKind::MissingFragmentName => "Fragment definition must have a name.",
        DiagnosticKind::MissingFragmentTypeCondition => "Fragment definition must have a type condition.",
        DiagnosticKind::MissingFragmentSelectionSet => "Fragment definition must have a selection set.",
        DiagnosticKind::MissingTypeConditionNamedType => "Type condition must have a named type.",
        DiagnosticKind::MissingListValueClosingBracket => "List value must have closing bracket.",
        DiagnosticKind::MissingObjectValueClosingBrace => "Object value must have closing brace.",
        DiagnosticKind::MissingObjectFieldColon => "Object field must have a colon.",
        DiagnosticKind::MissingObjectFieldValue => "Object field must have a value.",
        DiagnosticKind::MissingVariableDefinitionsClosingParenthesis => "Variable definitions must have a closing parenthesis.",
        DiagnosticKind::MissingVariableDefinitionColon => "Variable definition must have a colon.",
        DiagnosticKind::MissingVariableDefinitionType => "Variable definition must have a type.",
        DiagnosticKind::MissingDefaultValue => "Default value must have a value.",
        DiagnosticKind::MissingListTypeClosingBracket => "List type must have a closing bracket.",
        DiagnosticKind::MissingListTypeWrappedType => "List type must wrap another type.",
        DiagnosticKind::MissingDirectiveName => "Directive must have a name.",
        DiagnosticKind::MissingRootOperationTypeDefinitions => "Schema definition must define one or more root operation types.",
        DiagnosticKind::MissingRootOperationTypeDefinitionsClosingBrace => "Root operation type definitions must have a closing brace.",
        DiagnosticKind::MissingRootOperationTypeDefinitionColon => "Root operation type definition must have a colon.",
        DiagnosticKind::MissingRootOperationTypeDefinitionNamedType => "Root operation type definition must have a named type.",
        DiagnosticKind::MissingScalarTypeDefinitionName => "Scalar type definition must have a name.",
        DiagnosticKind::MissingScalarTypeExtensionName => "Scalar type extension must have a name.",
        DiagnosticKind::MissingScalarTypeExtensionDirectives => "Scalar type extension must have one or more directives.",
        DiagnosticKind::MissingObjectTypeDefinitionName => "Object type definition must have a name.",
        DiagnosticKind::MissingFirstImplementsInterface => "Implemented interfaces must not be empty.",
        DiagnosticKind::MissingSecondImplementsInterface => "Implemented interface name is missing.",
        DiagnosticKind::MissingFieldsDefinitionClosingBrace => "Fields definition must have a closing brace.",
        DiagnosticKind::MissingFieldDefinitionColon => "Field definition must have a colon.",
        DiagnosticKind::MissingFieldDefinitionType => "Field definition must have a type.",
        DiagnosticKind::MissingArgumentsDefinitionClosingParenthesis => "Arguments definition must have a closing parenthesis.",
        DiagnosticKind::MissingInputValueDefinitionColon => "Input value definition must have a colon.",
        DiagnosticKind::MissingInputValueDefinitionType => "Input value definition must have a type.",
        DiagnosticKind::MissingObjectTypeExtensionName => "Object type extension must have a name.",
        DiagnosticKind::MissingInterfaceTypeDefinitionName => "Interface type definition must have a name.",
        DiagnosticKind::MissingInterfaceTypeExtensionName => "Interface type extension must have a name.",
        DiagnosticKind::MissingUnionTypeDefinitionName => "Union type definition must have a name.",
        DiagnosticKind::MissingFirstUnionMemberType => "Union type definition must have one or more member types.",
        DiagnosticKind::MissingSecondUnionMemberType => "Union member type must have a name.",
        DiagnosticKind::MissingUnionTypeExtensionName => "Union type extension must have a name.",
        DiagnosticKind::MissingEnumTypeDefinitionName => "Enum type definition must have a name.",
        DiagnosticKind::MissingEnumValuesClosingBrace => "Enum values must have a closing brace.",
        DiagnosticKind::MissingEnumTypeExtensionName => "Enum type extension must have a name.",
        DiagnosticKind::MissingInputObjectTypeDefinitionName => "Input object type definition must have a name.",
        DiagnosticKind::MissingInputFieldsDefinitionClosingBrace => "Input fields definition must have a closing brace.",
        DiagnosticKind::MissingInputObjectTypeExtensionName => "Input object type extension must have a name.",
        DiagnosticKind::MissingDirectiveDefinitionAt => "Directive's name must start with an `@`.",
        DiagnosticKind::MissingDirectiveDefinitionName => "Directive definition must have a name.",
        DiagnosticKind::MissingDirectiveDefinitionLocations => "Directive definition must have one or more locations.",
        DiagnosticKind::MissingFirstDirectiveLocation => "Directive definition must have one or more locations.",
        DiagnosticKind::MissingSecondDirectiveLocation => "Directive location must be defined.",
        DiagnosticKind::UnknownNamedType => "Named type must exist.",
        DiagnosticKind::EmptyType => "Type must define one or more fields.",
        DiagnosticKind::DuplicateField => "Field name must be unique.",
        DiagnosticKind::DuplicateExtendedField => "Field name must be unique across extended types.",
        DiagnosticKind::ReservedFieldName => "Field name must not start with `__`.",
        DiagnosticKind::FieldNotOutputType => "Field must be output type.",
        DiagnosticKind::DuplicateArgumentName => "Argument name must be unique.",
        DiagnosticKind::ReservedInputValueName => "Input value name must not start with `__`.",
        DiagnosticKind::InputValueNotInputType => "Input value must be input type.",
        DiagnosticKind::DuplicateImplementsInterface => "Type must not implement same interface twice.",
        DiagnosticKind::ImplementsNonInterfaceType => "Implemented type must be interface.",
        DiagnosticKind::MissingInheritedInterface => "Type must also implement inherited interfaces.",
        DiagnosticKind::MissingInterfaceField => "Type must implement field from interface.",
        DiagnosticKind::MissingInterfaceFieldArgument => "Type must implement field with argument from interface.",
        DiagnosticKind::InvalidInterfaceFieldArgumentType => "Type must implement field with argument of same type as interface.",
        DiagnosticKind::UnexpectedNonNullExtraInterfaceFieldArgument => "Type must not require extra arguments for fields implementing interface.",
        DiagnosticKind::NonCovariantInterfaceField => "Implemented type and type from interface must be covariant.",
        DiagnosticKind::SelfReferentialInterface => "Interface must not implement itself.",
        DiagnosticKind::MissingUnionMembers => "Union must have at least one member type.",
        DiagnosticKind::DuplicateUnionMember => "Union members must be unique.",
        DiagnosticKind::NonObjectUnionMember => "Union members must be object types.",
        DiagnosticKind::MissingEnumValues => "Enum must have at least one value.",
        DiagnosticKind::DuplicateEnumValue => "Enum values must be unique.",
        DiagnosticKind::SelfReferentialInputType => "Input type must not be self-referential.",
        DiagnosticKind::ReservedDirectiveName => "Directive name must not start with `__`.",
        DiagnosticKind::SelfReferentialDirective => "Directive must not be self-referential.",
        DiagnosticKind::DuplicateTypeName => "Type name must be unique.",
        DiagnosticKind::DuplicateDirectiveName => "Directive name must be unique.",
        DiagnosticKind::DifferentExtensionType => "Type extension must extend type of same kind.",
        DiagnosticKind::ExpectedNonNullValue => "Expected a non-null value.",
        DiagnosticKind::ExpectedListValue => "Expected a list value.",
        DiagnosticKind::ExpectedIntValue => "Expected an int value.",
        DiagnosticKind::ExpectedFloatValue => "Expected a float value.",
        DiagnosticKind::ExpectedStringValue => "Expected a string value.",
        DiagnosticKind::ExpectedBooleanValue => "Expected a boolean value.",
        DiagnosticKind::ExpectedInputObjectValue => "Expected an input object value.",
        DiagnosticKind::MissingInputField => "Expected a value for required input field.",
        DiagnosticKind::UnrecognizedInputField => "All fields in input object must exist in schema definition.",
        DiagnosticKind::UnrecognizedEnumValue => "Enum values must exist in schema definition.",
        DiagnosticKind::DuplicateOperationName => "Operation definitions must be unique.",
        DiagnosticKind::LoneAnonymousOperation => "Anonymous operation definitions must be alone.",
        DiagnosticKind::UndefinedField => "Queried field does not exist.",
    }
}

/// Whether each kind is no longer reported.
pub open spec fn deprecated(kind: DiagnosticKind) -> bool {
    match kind {
        DiagnosticKind::UnrecognizedTokens => false,
        DiagnosticKind::MissingOperationDefinitionName => true,
        DiagnosticKind::MissingOperationDefinitionSelectionSet => false,
        DiagnosticKind::MissingSelectionSetClosingBrace => false,
        DiagnosticKind::MissingFieldName => false,
        DiagnosticKind::MissingArgumentsClosingParentheses => false,
        DiagnosticKind::MissingArgumentColon => false,
        DiagnosticKind::MissingArgumentValue => false,
        DiagnosticKind::MissingInlineFragmentSelectionSet => false,
        DiagnosticKind::MissingFragmentName => false,
        DiagnosticKind::MissingFragmentTypeCondition => false,
        DiagnosticKind::MissingFragmentSelectionSet => false,
        DiagnosticKind::MissingTypeConditionNamedType => false,
        DiagnosticKind::MissingListValueClosingBracket => false,
        DiagnosticKind::MissingObjectValueClosingBrace => false,
        DiagnosticKind::MissingObjectFieldColon => false,
        DiagnosticKind::MissingObjectFieldValue => false,
        DiagnosticKind::MissingVariableDefinitionsClosingParenthesis => false,
        DiagnosticKind::MissingVariableDefinitionColon => false,
        DiagnosticKind::MissingVariableDefinitionType => false,
        DiagnosticKind::MissingDefaultValue => false,
        DiagnosticKind::MissingListTypeClosingBracket => false,
        DiagnosticKind::MissingListTypeWrappedType => false,
        DiagnosticKind::MissingDirectiveName => false,
        DiagnosticKind::MissingRootOperationTypeDefinitions => false,
        DiagnosticKind::MissingRootOperationTypeDefinitionsClosingBrace => false,
        DiagnosticKind::MissingRootOperationTypeDefinitionColon => false,
        DiagnosticKind::MissingRootOperationTypeDefinitionNamedType => false,
        DiagnosticKind::MissingScalarTypeDefinitionName => false,
        DiagnosticKind::MissingScalarTypeExtensionName => false,
        DiagnosticKind::MissingScalarTypeExtensionDirectives => false,
        DiagnosticKind::MissingObjectTypeDefinitionName => false,
        DiagnosticKind::MissingFirstImplementsInterface => false,
        DiagnosticKind::MissingSecondImplementsInterface => false,
        DiagnosticKind::MissingFieldsDefinitionClosingBrace => false,
        DiagnosticKind::MissingFieldDefinitionColon => false,
        DiagnosticKind::MissingFieldDefinitionType => false,
        DiagnosticKind::MissingArgumentsDefinitionClosingParenthesis => false,
        DiagnosticKind::MissingInputValueDefinitionColon => false,
        DiagnosticKind::MissingInputValueDefinitionType => false,
        DiagnosticKind::MissingObjectTypeExtensionName => false,
        DiagnosticKind::MissingInterfaceTypeDefinitionName => false,
        DiagnosticKind::MissingInterfaceTypeExtensionName => false,
        DiagnosticKind::MissingUnionTypeDefinitionName => false,
        DiagnosticKind::MissingFirstUnionMemberType => false,
        DiagnosticKind::MissingSecondUnionMemberType => false,
        DiagnosticKind::MissingUnionTypeExtensionName => false,
        DiagnosticKind::MissingEnumTypeDefinitionName => false,
        DiagnosticKind::MissingEnumValuesClosingBrace => false,
        DiagnosticKind::MissingEnumTypeExtensionName => false,
        DiagnosticKind::MissingInputObjectTypeDefinitionName => false,
        DiagnosticKind::MissingInputFieldsDefinitionClosingBrace => false,
        DiagnosticKind::MissingInputObjectTypeExtensionName => false,
        DiagnosticKind::MissingDirectiveDefinitionAt => false,
        DiagnosticKind::MissingDirectiveDefinitionName => false,
        DiagnosticKind::MissingDirectiveDefinitionLocations => false,
        DiagnosticKind::MissingFirstDirectiveLocation => false,
        DiagnosticKind::MissingSecondDirectiveLocation => false,
        DiagnosticKind::UnknownNamedType => false,
        DiagnosticKind::EmptyType => false,
        DiagnosticKind::DuplicateField => false,
        DiagnosticKind::DuplicateExtendedField => false,
        DiagnosticKind::ReservedFieldName => false,
        DiagnosticKind::FieldNotOutputType => false,
        DiagnosticKind::DuplicateArgumentName => false,
        DiagnosticKind::ReservedInputValueName => false,
        DiagnosticKind::InputValueNotInputType => false,
        DiagnosticKind::DuplicateImplementsInterface => false,
        DiagnosticKind::ImplementsNonInterfaceType => false,
        DiagnosticKind::MissingInheritedInterface => false,
        DiagnosticKind::MissingInterfaceField => false,
        DiagnosticKind::MissingInterfaceFieldArgument => false,
        DiagnosticKind::InvalidInterfaceFieldArgumentType => false,
        DiagnosticKind::UnexpectedNonNullExtraInterfaceFieldArgument => false,
        DiagnosticKind::NonCovariantInterfaceField => false,
        DiagnosticKind::SelfReferentialInterface => false,
        DiagnosticKind::MissingUnionMembers => false,
        DiagnosticKind::DuplicateUnionMember => false,
        DiagnosticKind::NonObjectUnionMember => false,
        DiagnosticKind::MissingEnumValues => false,
        DiagnosticKind::DuplicateEnumValue => false,
        DiagnosticKind::SelfReferentialInputType => false,
        DiagnosticKind::ReservedDirectiveName => false,
        DiagnosticKind::SelfReferentialDirective => false,
        DiagnosticKind::DuplicateTypeName => false,
        DiagnosticKind::DuplicateDirectiveName => false,
        DiagnosticKind::DifferentExtensionType => false,
        DiagnosticKind::ExpectedNonNullValue => false,
        DiagnosticKind::ExpectedListValue => false,
        DiagnosticKind::ExpectedIntValue => false,
        DiagnosticKind::ExpectedFloatValue => false,
        DiagnosticKind::ExpectedStringValue => false,
        DiagnosticKind::ExpectedBooleanValue => false,
        DiagnosticKind::ExpectedInputObjectValue => false,
        DiagnosticKind::MissingInputField => false,
        DiagnosticKind::UnrecognizedInputField => false,
        DiagnosticKind::UnrecognizedEnumValue => false,
        DiagnosticKind::DuplicateOperationName => false,
        DiagnosticKind::LoneAnonymousOperation => false,
        DiagnosticKind::UndefinedField => false,
    }
}

/// How many spans a diagnostic of each kind points at.
pub open spec fn span_count(kind: DiagnosticKind) -> nat {
    match kind {
        DiagnosticKind::UnrecognizedTokens => 1,
        DiagnosticKind::MissingOperationDefinitionName => 1,
        DiagnosticKind::MissingOperationDefinitionSelectionSet => 1,
        DiagnosticKind::MissingSelectionSetClosingBrace => 2,
        DiagnosticKind::MissingFieldName => 1,
        DiagnosticKind::MissingArgumentsClosingParentheses => 2,
        DiagnosticKind::MissingArgumentColon => 1,
        DiagnosticKind::MissingArgumentValue => 1,
        DiagnosticKind::MissingInlineFragmentSelectionSet => 1,
        DiagnosticKind::MissingFragmentName => 1,
        DiagnosticKind::MissingFragmentTypeCondition => 1,
        DiagnosticKind::MissingFragmentSelectionSet => 1,
        DiagnosticKind::MissingTypeConditionNamedType => 1,
        DiagnosticKind::MissingListValueClosingBracket => 2,
        DiagnosticKind::MissingObjectValueClosingBrace => 2,
        DiagnosticKind::MissingObjectFieldColon => 1,
        DiagnosticKind::MissingObjectFieldValue => 1,
        DiagnosticKind::MissingVariableDefinitionsClosingParenthesis => 2,
        DiagnosticKind::MissingVariableDefinitionColon => 1,
        DiagnosticKind::MissingVariableDefinitionType => 1,
        DiagnosticKind::MissingDefaultValue => 1,
        DiagnosticKind::MissingListTypeClosingBracket => 2,
        DiagnosticKind::MissingListTypeWrappedType => 1,
        DiagnosticKind::MissingDirectiveName => 1,
        DiagnosticKind::MissingRootOperationTypeDefinitions => 1,
        DiagnosticKind::MissingRootOperationTypeDefinitionsClosingBrace => 2,
        DiagnosticKind::MissingRootOperationTypeDefinitionColon => 1,
        DiagnosticKind::MissingRootOperationTypeDefinitionNamedType => 1,
        DiagnosticKind::MissingScalarTypeDefinitionName => 1,
        DiagnosticKind::MissingScalarTypeExtensionName => 1,
        DiagnosticKind::MissingScalarTypeExtensionDirectives => 1,
        DiagnosticKind::MissingObjectTypeDefinitionName => 1,
        DiagnosticKind::MissingFirstImplementsInterface => 1,
        DiagnosticKind::MissingSecondImplementsInterface => 1,
        DiagnosticKind::MissingFieldsDefinitionClosingBrace => 2,
        DiagnosticKind::MissingFieldDefinitionColon => 1,
        DiagnosticKind::MissingFieldDefinitionType => 1,
        DiagnosticKind::MissingArgumentsDefinitionClosingParenthesis => 2,
        DiagnosticKind::MissingInputValueDefinitionColon => 1,
        DiagnosticKind::MissingInputValueDefinitionType => 1,
        DiagnosticKind::MissingObjectTypeExtensionName => 1,
        DiagnosticKind::MissingInterfaceTypeDefinitionName => 1,
        DiagnosticKind::MissingInterfaceTypeExtensionName => 1,
        DiagnosticKind::MissingUnionTypeDefinitionName => 1,
        DiagnosticKind::MissingFirstUnionMemberType => 1,
        DiagnosticKind::MissingSecondUnionMemberType => 1,
        DiagnosticKind::MissingUnionTypeExtensionName => 1,
        DiagnosticKind::MissingEnumTypeDefinitionName => 1,
        DiagnosticKind::MissingEnumValuesClosingBrace => 2,
        DiagnosticKind::MissingEnumTypeExtensionName => 1,
        DiagnosticKind::MissingInputObjectTypeDefinitionName => 1,
        DiagnosticKind::MissingInputFieldsDefinitionClosingBrace => 2,
        DiagnosticKind::MissingInputObjectTypeExtensionName => 1,
        DiagnosticKind::MissingDirectiveDefinitionAt => 1,
        DiagnosticKind::MissingDirectiveDefinitionName => 1,
        DiagnosticKind::MissingDirectiveDefinitionLocations => 1,
        DiagnosticKind::MissingFirstDirectiveLocation => 1,
        DiagnosticKind::MissingSecondDirectiveLocation => 1,
        DiagnosticKind::UnknownNamedType => 1,
        DiagnosticKind::EmptyType => 1,
        DiagnosticKind::DuplicateField => 2,
        DiagnosticKind::DuplicateExtendedField => 3,
        DiagnosticKind::ReservedFieldName => 1,
        DiagnosticKind::FieldNotOutputType => 1,
        DiagnosticKind::DuplicateArgumentName => 2,
        DiagnosticKind::ReservedInputValueName => 1,
        DiagnosticKind::InputValueNotInputType => 1,
        DiagnosticKind::DuplicateImplementsInterface => 2,
        DiagnosticKind::ImplementsNonInterfaceType => 1,
        DiagnosticKind::MissingInheritedInterface => 1,
        DiagnosticKind::MissingInterfaceField => 1,
        DiagnosticKind::MissingInterfaceFieldArgument => 1,
        DiagnosticKind::InvalidInterfaceFieldArgumentType => 1,
        DiagnosticKind::UnexpectedNonNullExtraInterfaceFieldArgument => 1,
        DiagnosticKind::NonCovariantInterfaceField => 1,
        DiagnosticKind::SelfReferentialInterface => 1,
        DiagnosticKind::MissingUnionMembers => 1,
        DiagnosticKind::DuplicateUnionMember => 2,
        DiagnosticKind::NonObjectUnionMember => 1,
        DiagnosticKind::MissingEnumValues => 1,
        DiagnosticKind::DuplicateEnumValue => 2,
        DiagnosticKind::SelfReferentialInputType => 1,
        DiagnosticKind::ReservedDirectiveName => 1,
        DiagnosticKind::SelfReferentialDirective => 1,
        DiagnosticKind::DuplicateTypeName => 2,
        DiagnosticKind::DuplicateDirectiveName => 2,
        DiagnosticKind::DifferentExtensionType => 2,
        DiagnosticKind::ExpectedNonNullValue => 1,
        DiagnosticKind::ExpectedListValue => 1,
        DiagnosticKind::ExpectedIntValue => 1,
        DiagnosticKind::ExpectedFloatValue => 1,
        DiagnosticKind::ExpectedStringValue => 1,
        DiagnosticKind::ExpectedBooleanValue => 1,
        DiagnosticKind::ExpectedInputObjectValue => 1,
        DiagnosticKind::MissingInputField => 1,
        DiagnosticKind::UnrecognizedInputField => 1,
        DiagnosticKind::UnrecognizedEnumValue => 1,
        DiagnosticKind::DuplicateOperationName => 2,
        DiagnosticKind::LoneAnonymousOperation => 1,
        DiagnosticKind::UndefinedField => 1,
    }
}

/// How many values a diagnostic of each kind names in its labels.
pub open spec fn var_count(kind: DiagnosticKind) -> nat {
    match kind {
        DiagnosticKind::UnrecognizedTokens => 0,
        DiagnosticKind::MissingOperationDefinitionName => 0,
        DiagnosticKind::MissingOperationDefinitionSelectionSet => 0,
        DiagnosticKind::MissingSelectionSetClosingBrace => 0,
        DiagnosticKind::MissingFieldName => 0,
        DiagnosticKind::MissingArgumentsClosingParentheses => 0,
        DiagnosticKind::MissingArgumentColon => 0,
        DiagnosticKind::MissingArgumentValue => 0,
        DiagnosticKind::MissingInlineFragmentSelectionSet => 0,
        DiagnosticKind::MissingFragmentName => 0,
        DiagnosticKind::MissingFragmentTypeCondition => 0,
        DiagnosticKind::MissingFragmentSelectionSet => 0,
        DiagnosticKind::MissingTypeConditionNamedType => 0,
        DiagnosticKind::MissingListValueClosingBracket => 0,
        DiagnosticKind::MissingObjectValueClosingBrace => 0,
        DiagnosticKind::MissingObjectFieldColon => 0,
        DiagnosticKind::MissingObjectFieldValue => 0,
        DiagnosticKind::MissingVariableDefinitionsClosingParenthesis => 0,
        DiagnosticKind::MissingVariableDefinitionColon => 0,
        DiagnosticKind::MissingVariableDefinitionType => 0,
        DiagnosticKind::MissingDefaultValue => 0,
        DiagnosticKind::MissingListTypeClosingBracket => 0,
        DiagnosticKind::MissingListTypeWrappedType => 0,
        DiagnosticKind::MissingDirectiveName => 0,
        DiagnosticKind::MissingRootOperationTypeDefinitions => 0,
        DiagnosticKind::MissingRootOperationTypeDefinitionsClosingBrace => 0,
        DiagnosticKind::MissingRootOperationTypeDefinitionColon => 0,
        DiagnosticKind::MissingRootOperationTypeDefinitionNamedType => 0,
        DiagnosticKind::MissingScalarTypeDefinitionName => 0,
        DiagnosticKind::MissingScalarTypeExtensionName => 0,
        DiagnosticKind::MissingScalarTypeExtensionDirectives => 0,
        DiagnosticKind::MissingObjectTypeDefinitionName => 0,
        DiagnosticKind::MissingFirstImplementsInterface => 0,
        DiagnosticKind::MissingSecondImplementsInterface => 0,
        DiagnosticKind::MissingFieldsDefinitionClosingBrace => 0,
        DiagnosticKind::MissingFieldDefinitionColon => 0,
        DiagnosticKind::MissingFieldDefinitionType => 0,
        DiagnosticKind::MissingArgumentsDefinitionClosingParenthesis => 0,
        DiagnosticKind::MissingInputValueDefinitionColon => 0,
        DiagnosticKind::MissingInputValueDefinitionType => 0,
        DiagnosticKind::MissingObjectTypeExtensionName => 0,
        DiagnosticKind::MissingInterfaceTypeDefinitionName => 0,
        DiagnosticKind::MissingInterfaceTypeExtensionName => 0,
        DiagnosticKind::MissingUnionTypeDefinitionName => 0,
        DiagnosticKind::MissingFirstUnionMemberType => 0,
        DiagnosticKind::MissingSecondUnionMemberType => 0,
        DiagnosticKind::MissingUnionTypeExtensionName => 0,
        DiagnosticKind::MissingEnumTypeDefinitionName => 0,
        DiagnosticKind::MissingEnumValuesClosingBrace => 0,
        DiagnosticKind::MissingEnumTypeExtensionName => 0,
        DiagnosticKind::MissingInputObjectTypeDefinitionName => 0,
        DiagnosticKind::MissingInputFieldsDefinitionClosingBrace => 0,
        DiagnosticKind::MissingInputObjectTypeExtensionName => 0,
        DiagnosticKind::MissingDirectiveDefinitionAt => 0,
        DiagnosticKind::MissingDirectiveDefinitionName => 0,
        DiagnosticKind::MissingDirectiveDefinitionLocations => 0,
        DiagnosticKind::MissingFirstDirectiveLocation => 0,
        DiagnosticKind::MissingSecondDirectiveLocation => 0,
        DiagnosticKind::UnknownNamedType => 1,
        DiagnosticKind::EmptyType => 1,
        DiagnosticKind::DuplicateField => 1,
        DiagnosticKind::DuplicateExtendedField => 2,
        DiagnosticKind::ReservedFieldName => 1,
        DiagnosticKind::FieldNotOutputType => 2,
        DiagnosticKind::DuplicateArgumentName => 1,
        DiagnosticKind::ReservedInputValueName => 1,
        DiagnosticKind::InputValueNotInputType => 2,
        DiagnosticKind::DuplicateImplementsInterface => 2,
        DiagnosticKind::ImplementsNonInterfaceType => 2,
        DiagnosticKind::MissingInheritedInterface => 3,
        DiagnosticKind::MissingInterfaceField => 3,
        DiagnosticKind::MissingInterfaceFieldArgument => 4,
        DiagnosticKind::InvalidInterfaceFieldArgumentType => 6,
        DiagnosticKind::UnexpectedNonNullExtraInterfaceFieldArgument => 5,
        DiagnosticKind::NonCovariantInterfaceField => 5,
        DiagnosticKind::SelfReferentialInterface => 1,
        DiagnosticKind::MissingUnionMembers => 1,
        DiagnosticKind::DuplicateUnionMember => 1,
        DiagnosticKind::NonObjectUnionMember => 1,
        DiagnosticKind::MissingEnumValues => 1,
        DiagnosticKind::DuplicateEnumValue => 1,
        DiagnosticKind::SelfReferentialInputType => 3,
        DiagnosticKind::ReservedDirectiveName => 1,
        DiagnosticKind::SelfReferentialDirective => 2,
        DiagnosticKind::DuplicateTypeName => 1,
        DiagnosticKind::DuplicateDirectiveName => 1,
        DiagnosticKind::DifferentExtensionType => 3,
        DiagnosticKind::ExpectedNonNullValue => 1,
        DiagnosticKind::ExpectedListValue => 1,
        DiagnosticKind::ExpectedIntValue => 1,
        DiagnosticKind::ExpectedFloatValue => 1,
        DiagnosticKind::ExpectedStringValue => 1,
        DiagnosticKind::ExpectedBooleanValue => 1,
        DiagnosticKind::ExpectedInputObjectValue => 1,
        DiagnosticKind::MissingInputField => 2,
        DiagnosticKind::UnrecognizedInputField => 2,
        DiagnosticKind::UnrecognizedEnumValue => 2,
        DiagnosticKind::DuplicateOperationName => 1,
        DiagnosticKind::LoneAnonymousOperation => 0,
        DiagnosticKind::UndefinedField => 2,
    }
}

/// Which of its spans a diagnostic of each kind is reported at.
pub open spec fn primary(kind: DiagnosticKind) -> int {
    match kind {
        DiagnosticKind::UnrecognizedTokens => 0,
        DiagnosticKind::MissingOperationDefinitionName => 0,
        DiagnosticKind::MissingOperationDefinitionSelectionSet => 0,
        DiagnosticKind::MissingSelectionSetClosingBrace => 1,
        DiagnosticKind::MissingFieldName => 0,
        DiagnosticKind::MissingArgumentsClosingParentheses => 1,
        DiagnosticKind::MissingArgumentColon => 0,
        DiagnosticKind::MissingArgumentValue => 0,
        DiagnosticKind::MissingInlineFragmentSelectionSet => 0,
        DiagnosticKind::MissingFragmentName => 0,
        DiagnosticKind::MissingFragmentTypeCondition => 0,
        DiagnosticKind::MissingFragmentSelectionSet => 0,
        DiagnosticKind::MissingTypeConditionNamedType => 0,
        DiagnosticKind::MissingListValueClosingBracket => 1,
        DiagnosticKind::MissingObjectValueClosingBrace => 1,
        DiagnosticKind::MissingObjectFieldColon => 0,
        DiagnosticKind::MissingObjectFieldValue => 0,
        DiagnosticKind::MissingVariableDefinitionsClosingParenthesis => 1,
        DiagnosticKind::MissingVariableDefinitionColon => 0,
        DiagnosticKind::MissingVariableDefinitionType => 0,
        DiagnosticKind::MissingDefaultValue => 0,
        DiagnosticKind::MissingListTypeClosingBracket => 1,
        DiagnosticKind::MissingListTypeWrappedType => 0,
        DiagnosticKind::MissingDirectiveName => 0,
        DiagnosticKind::MissingRootOperationTypeDefinitions => 0,
        DiagnosticKind::MissingRootOperationTypeDefinitionsClosingBrace => 1,
        DiagnosticKind::MissingRootOperationTypeDefinitionColon => 0,
        DiagnosticKind::MissingRootOperationTypeDefinitionNamedType => 0,
        DiagnosticKind::MissingScalarTypeDefinitionName => 0,
        DiagnosticKind::MissingScalarTypeExtensionName => 0,
        DiagnosticKind::MissingScalarTypeExtensionDirectives => 0,
        DiagnosticKind::MissingObjectTypeDefinitionName => 0,
        DiagnosticKind::MissingFirstImplementsInterface => 0,
        DiagnosticKind::MissingSecondImplementsInterface => 0,
        DiagnosticKind::MissingFieldsDefinitionClosingBrace => 1,
        DiagnosticKind::MissingFieldDefinitionColon => 0,
        DiagnosticKind::MissingFieldDefinitionType => 0,
        DiagnosticKind::MissingArgumentsDefinitionClosingParenthesis => 1,
        DiagnosticKind::MissingInputValueDefinitionColon => 0,
        DiagnosticKind::MissingInputValueDefinitionType => 0,
        DiagnosticKind::MissingObjectTypeExtensionName => 0,
        DiagnosticKind::MissingInterfaceTypeDefinitionName => 0,
        DiagnosticKind::MissingInterfaceTypeExtensionName => 0,
        DiagnosticKind::MissingUnionTypeDefinitionName => 0,
        DiagnosticKind::MissingFirstUnionMemberType => 0,
        DiagnosticKind::MissingSecondUnionMemberType => 0,
        DiagnosticKind::MissingUnionTypeExtensionName => 0,
        DiagnosticKind::MissingEnumTypeDefinitionName => 0,
        DiagnosticKind::MissingEnumValuesClosingBrace => 1,
        DiagnosticKind::MissingEnumTypeExtensionName => 0,
        DiagnosticKind::MissingInputObjectTypeDefinitionName => 0,
        DiagnosticKind::MissingInputFieldsDefinitionClosingBrace => 1,
        DiagnosticKind::MissingInputObjectTypeExtensionName => 0,
        DiagnosticKind::MissingDirectiveDefinitionAt => 0,
        DiagnosticKind::MissingDirectiveDefinitionName => 0,
        DiagnosticKind::MissingDirectiveDefinitionLocations => 0,
        DiagnosticKind::MissingFirstDirectiveLocation => 0,
        DiagnosticKind::MissingSecondDirectiveLocation => 0,
        DiagnosticKind::UnknownNamedType => 0,
        DiagnosticKind::EmptyType => 0,
        DiagnosticKind::DuplicateField => 1,
        DiagnosticKind::DuplicateExtendedField => 2,
        DiagnosticKind::ReservedFieldName => 0,
        DiagnosticKind::FieldNotOutputType => 0,
        DiagnosticKind::DuplicateArgumentName => 1,
        DiagnosticKind::ReservedInputValueName => 0,
        DiagnosticKind::InputValueNotInputType => 0,
        DiagnosticKind::DuplicateImplementsInterface => 1,
        DiagnosticKind::ImplementsNonInterfaceType => 0,
        DiagnosticKind::MissingInheritedInterface => 0,
        DiagnosticKind::MissingInterfaceField => 0,
        DiagnosticKind::MissingInterfaceFieldArgument => 0,
        DiagnosticKind::InvalidInterfaceFieldArgumentType => 0,
        DiagnosticKind::UnexpectedNonNullExtraInterfaceFieldArgument => 0,
        DiagnosticKind::NonCovariantInterfaceField => 0,
        DiagnosticKind::SelfReferentialInterface => 0,
        DiagnosticKind::MissingUnionMembers => 0,
        DiagnosticKind::DuplicateUnionMember => 1,
        DiagnosticKind::NonObjectUnionMember => 0,
        DiagnosticKind::MissingEnumValues => 0,
        DiagnosticKind::DuplicateEnumValue => 1,
        DiagnosticKind::SelfReferentialInputType => 0,
        DiagnosticKind::ReservedDirectiveName => 0,
        DiagnosticKind::SelfReferentialDirective => 0,
        DiagnosticKind::DuplicateTypeName => 1,
        DiagnosticKind::DuplicateDirectiveName => 1,
        DiagnosticKind::DifferentExtensionType => 1,
        DiagnosticKind::ExpectedNonNullValue => 0,
        DiagnosticKind::ExpectedListValue => 0,
        DiagnosticKind::ExpectedIntValue => 0,
        DiagnosticKind::ExpectedFloatValue => 0,
        DiagnosticKind::ExpectedStringValue => 0,
        DiagnosticKind::ExpectedBooleanValue => 0,
        DiagnosticKind::ExpectedInputObjectValue => 0,
        DiagnosticKind::MissingInputField => 0,
        DiagnosticKind::UnrecognizedInputField => 0,
        DiagnosticKind::UnrecognizedEnumValue => 0,
        DiagnosticKind::DuplicateOperationName => 1,
        DiagnosticKind::LoneAnonymousOperation => 0,
        DiagnosticKind::UndefinedField => 0,
    }
}

/// For each label of a kind, which span it points at.
pub open spec fn label_spans(kind: DiagnosticKind) -> Seq<int> {
    match kind {
        DiagnosticKind::UnrecognizedTokens => seq![0],
        DiagnosticKind::MissingOperationDefinitionName => seq![0],
        DiagnosticKind::MissingOperationDefinitionSelectionSet => seq![0],
        DiagnosticKind::MissingSelectionSetClosingBrace => seq![0, 1],
        DiagnosticKind::MissingFieldName => seq![0],
        DiagnosticKind::MissingArgumentsClosingParentheses => seq![0, 1],
        DiagnosticKind::MissingArgumentColon => seq![0],
        DiagnosticKind::MissingArgumentValue => seq![0],
        DiagnosticKind::MissingInlineFragmentSelectionSet => seq![0],
        DiagnosticKind::MissingFragmentName => seq![0],
        DiagnosticKind::MissingFragmentTypeCondition => seq![0],
        DiagnosticKind::MissingFragmentSelectionSet => seq![0],
        DiagnosticKind::MissingTypeConditionNamedType => seq![0],
        DiagnosticKind::MissingListValueClosingBracket => seq![0, 1],
        DiagnosticKind::MissingObjectValueClosingBrace => seq![0, 1],
        DiagnosticKind::MissingObjectFieldColon => seq![0],
        DiagnosticKind::MissingObjectFieldValue => seq![0],
        DiagnosticKind::MissingVariableDefinitionsClosingParenthesis => seq![0, 1],
        DiagnosticKind::MissingVariableDefinitionColon => seq![0],
        DiagnosticKind::MissingVariableDefinitionType => seq![0],
        DiagnosticKind::MissingDefaultValue => seq![0],
        DiagnosticKind::MissingListTypeClosingBracket => seq![0, 1],
        DiagnosticKind::MissingListTypeWrappedType => seq![0],
        DiagnosticKind::MissingDirectiveName => seq![0],
        DiagnosticKind::MissingRootOperationTypeDefinitions => seq![0],
        DiagnosticKind::MissingRootOperationTypeDefinitionsClosingBrace => seq![0, 1],
        DiagnosticKind::MissingRootOperationTypeDefinitionColon => seq![0],
        DiagnosticKind::MissingRootOperationTypeDefinitionNamedType => seq![0],
        DiagnosticKind::MissingScalarTypeDefinitionName => seq![0],
        DiagnosticKind::MissingScalarTypeExtensionName => seq![0],
        DiagnosticKind::MissingScalarTypeExtensionDirectives => seq![0],
        DiagnosticKind::MissingObjectTypeDefinitionName => seq![0],
        DiagnosticKind::MissingFirstImplementsInterface => seq![0],
        DiagnosticKind::MissingSecondImplementsInterface => seq![0],
        DiagnosticKind::MissingFieldsDefinitionClosingBrace => seq![0, 1],
        DiagnosticKind::MissingFieldDefinitionColon => seq![0],
        DiagnosticKind::MissingFieldDefinitionType => seq![0],
        DiagnosticKind::MissingArgumentsDefinitionClosingParenthesis => seq![0, 1],
        DiagnosticKind::MissingInputValueDefinitionColon => seq![0],
        DiagnosticKind::MissingInputValueDefinitionType => seq![0],
        DiagnosticKind::MissingObjectTypeExtensionName => seq![0],
        DiagnosticKind::MissingInterfaceTypeDefinitionName => seq![0],
        DiagnosticKind::MissingInterfaceTypeExtensionName => seq![0],
        DiagnosticKind::MissingUnionTypeDefinitionName => seq![0],
        DiagnosticKind::MissingFirstUnionMemberType => seq![0],
        DiagnosticKind::MissingSecondUnionMemberType => seq![0],
        DiagnosticKind::MissingUnionTypeExtensionName => seq![0],
        DiagnosticKind::MissingEnumTypeDefinitionName => seq![0],
        DiagnosticKind::MissingEnumValuesClosingBrace => seq![0, 1],
        DiagnosticKind::MissingEnumTypeExtensionName => seq![0],
        DiagnosticKind::MissingInputObjectTypeDefinitionName => seq![0],
        DiagnosticKind::MissingInputFieldsDefinitionClosingBrace => seq![0, 1],
        DiagnosticKind::MissingInputObjectTypeExtensionName => seq![0],
        DiagnosticKind::MissingDirectiveDefinitionAt => seq![0],
        DiagnosticKind::MissingDirectiveDefinitionName => seq![0],
        DiagnosticKind::MissingDirectiveDefinitionLocations => seq![0],
        DiagnosticKind::MissingFirstDirectiveLocation => seq![0],
        DiagnosticKind::MissingSecondDirectiveLocation => seq![0],
        DiagnosticKind::UnknownNamedType => seq![0],
        DiagnosticKind::EmptyType => seq![0],
        DiagnosticKind::DuplicateField => seq![0, 1],
        DiagnosticKind::DuplicateExtendedField => seq![0, 1, 2],
        DiagnosticKind::ReservedFieldName => seq![0],
        DiagnosticKind::FieldNotOutputType => seq![0],
        DiagnosticKind::DuplicateArgumentName => seq![0, 1],
        DiagnosticKind::ReservedInputValueName => seq![0],
        DiagnosticKind::InputValueNotInputType => seq![0],
        DiagnosticKind::DuplicateImplementsInterface => seq![0, 1],
        DiagnosticKind::ImplementsNonInterfaceType => seq![0],
        DiagnosticKind::MissingInheritedInterface => seq![0],
        DiagnosticKind::MissingInterfaceField => seq![0],
        DiagnosticKind::MissingInterfaceFieldArgument => seq![0],
        DiagnosticKind::InvalidInterfaceFieldArgumentType => seq![0],
        DiagnosticKind::UnexpectedNonNullExtraInterfaceFieldArgument => seq![0],
        DiagnosticKind::NonCovariantInterfaceField => seq![0],
        DiagnosticKind::SelfReferentialInterface => seq![0],
        DiagnosticKind::MissingUnionMembers => seq![0],
        DiagnosticKind::DuplicateUnionMember => seq![0, 1],
        DiagnosticKind::NonObjectUnionMember => seq![0],
        DiagnosticKind::MissingEnumValues => seq![0],
        DiagnosticKind::DuplicateEnumValue => seq![0, 1],
        DiagnosticKind::SelfReferentialInputType => seq![0],
        DiagnosticKind::ReservedDirectiveName => seq![0],
        DiagnosticKind::SelfReferentialDirective => seq![0],
        DiagnosticKind::DuplicateTypeName => seq![0, 1],
        DiagnosticKind::DuplicateDirectiveName => seq![0, 1],
        DiagnosticKind::DifferentExtensionType => seq![0, 1],
        DiagnosticKind::ExpectedNonNullValue => seq![0],
        DiagnosticKind::ExpectedListValue => seq![0],
        DiagnosticKind::ExpectedIntValue => seq![0],
        DiagnosticKind::ExpectedFloatValue => seq![0],
        DiagnosticKind::ExpectedStringValue => seq![0],
        DiagnosticKind::ExpectedBooleanValue => seq![0],
        DiagnosticKind::ExpectedInputObjectValue => seq![0],
        DiagnosticKind::MissingInputField => seq![0],
        DiagnosticKind::UnrecognizedInputField => seq![0],
        DiagnosticKind::UnrecognizedEnumValue => seq![0],
        DiagnosticKind::DuplicateOperationName => seq![0, 1],
        DiagnosticKind::LoneAnonymousOperation => seq![0],
        DiagnosticKind::UndefinedField => seq![0],
    }
}

/// The text of each label of a kind, given the values it names.
pub open spec fn label_texts(kind: DiagnosticKind, vars: Seq<Seq<char>>) -> Seq<Seq<char>> {
    match kind {
        DiagnosticKind::UnrecognizedTokens => seq!["Couldn't recognize these tokens here."@],
        DiagnosticKind::MissingOperationDefinitionName => seq!["Expected a name for operation definition here."@],
        DiagnosticKind::MissingOperationDefinitionSelectionSet => seq!["Expected a selection set for operation definition here."@],
        DiagnosticKind::MissingSelectionSetClosingBrace => seq!["This `{` here ..."@, "... should have a matching `}` here."@],
        DiagnosticKind::MissingFieldName => seq!["Missing name of this field here."@],
        DiagnosticKind::MissingArgumentsClosingParentheses => seq!["This `(` here ..."@, "... should have a matching `)` here."@],
        DiagnosticKind::MissingArgumentColon => seq!["Argument should have a colon here."@],
        DiagnosticKind::MissingArgumentValue => seq!["Argument should have a value here."@],
        DiagnosticKind::MissingInlineFragmentSelectionSet => seq!["Inline fragment here should have a selection set."@],
        DiagnosticKind::MissingFragmentName => seq!["Fragment definition here does not have a name."@],
        DiagnosticKind::MissingFragmentTypeCondition => seq!["Fragment definition here does not have a type condition."@],
        DiagnosticKind::MissingFragmentSelectionSet => seq!["Fragment definition here does not have a selection set."@],
        DiagnosticKind::MissingTypeConditionNamedType => seq!["Type condition here does not have a named type."@],
        DiagnosticKind::MissingListValueClosingBracket => seq!["This `[` here ..."@, "... should have a matching `]` here."@],
        DiagnosticKind::MissingObjectValueClosingBrace => seq!["This `{` here ..."@, "... should have a matching `}` here."@],
        DiagnosticKind::MissingObjectFieldColon => seq!["This object field here is missing a colon."@],
        DiagnosticKind::MissingObjectFieldValue => seq!["This object field here is missing a value."@],
        DiagnosticKind::MissingVariableDefinitionsClosingParenthesis => seq!["This `(` here ..."@, "... must have a matching `)` here."@],
        DiagnosticKind::MissingVariableDefinitionColon => seq!["This variable definition here is missing a colon."@],
        DiagnosticKind::MissingVariableDefinitionType => seq!["This variable definition here is missing a type."@],
        DiagnosticKind::MissingDefaultValue => seq!["This default value here is missing a value."@],
        DiagnosticKind::MissingListTypeClosingBracket => seq!["This `[` here ..."@, "... must have a matching `]` here."@],
        DiagnosticKind::MissingListTypeWrappedType => seq!["This list type here is missing a wrapped type."@],
        DiagnosticKind::MissingDirectiveName => seq!["This directive here is missing a name."@],
        DiagnosticKind::MissingRootOperationTypeDefinitions => seq!["This schema definition doesn't define any root operation types."@],
        DiagnosticKind::MissingRootOperationTypeDefinitionsClosingBrace => seq!["This `{` here ..."@, "... should have a matching `}` here."@],
        DiagnosticKind::MissingRootOperationTypeDefinitionColon => seq!["This root operation type definition here is missing a colon."@],
        DiagnosticKind::MissingRootOperationTypeDefinitionNamedType => seq!["This root operation type definition here is missing a named type."@],
        DiagnosticKind::MissingScalarTypeDefinitionName => seq!["This scalar type definition here is missing a name."@],
        DiagnosticKind::MissingScalarTypeExtensionName => seq!["This scalar type extension here is missing a name."@],
        DiagnosticKind::MissingScalarTypeExtensionDirectives => seq!["This scalar type extension here is missing directives."@],
        DiagnosticKind::MissingObjectTypeDefinitionName => seq!["This object type definition here is missing a name."@],
        DiagnosticKind::MissingFirstImplementsInterface => seq!["This object type here implements an interface, but its name is missing."@],
        DiagnosticKind::MissingSecondImplementsInterface => seq!["This object type here implements another interface, but its name is missing."@],
        DiagnosticKind::MissingFieldsDefinitionClosingBrace => seq!["This `{` here ..."@, "... must have a matching `}` here."@],
        DiagnosticKind::MissingFieldDefinitionColon => seq!["This field definition here is missing a colon."@],
        DiagnosticKind::MissingFieldDefinitionType => seq!["This field definition here is missing a type."@],
        DiagnosticKind::MissingArgumentsDefinitionClosingParenthesis => seq!["This `(` here ..."@, "... must have a matching `)` here."@],
        DiagnosticKind::MissingInputValueDefinitionColon => seq!["This input value definition here is missing a colon."@],
        DiagnosticKind::MissingInputValueDefinitionType => seq!["This input value definition here is missing a type."@],
        DiagnosticKind::MissingObjectTypeExtensionName => seq!["This object type extension here is missing a name."@],
        DiagnosticKind::MissingInterfaceTypeDefinitionName => seq!["This interface type definition here is missing a name."@],
        DiagnosticKind::MissingInterfaceTypeExtensionName => seq!["This interface type extension here is missing a name."@],
        DiagnosticKind::MissingUnionTypeDefinitionName => seq!["This union type definition here is missing a name."@],
        DiagnosticKind::MissingFirstUnionMemberType => seq!["This union type definition here is missing a member type."@],
        DiagnosticKind::MissingSecondUnionMemberType => seq!["This union type definition here defines another member type but its name is missing."@],
        DiagnosticKind::MissingUnionTypeExtensionName => seq!["This union type extension here is missing a name."@],
        DiagnosticKind::MissingEnumTypeDefinitionName => seq!["This enum type definition here is missing a name."@],
        DiagnosticKind::MissingEnumValuesClosingBrace => seq!["This `{` here ..."@, "... must have a matching `}` here."@],
        DiagnosticKind::MissingEnumTypeExtensionName => seq!["This enum type extension here is missing a name."@],
        DiagnosticKind::MissingInputObjectTypeDefinitionName => seq!["This input object type definition here is missing a name."@],
        DiagnosticKind::MissingInputFieldsDefinitionClosingBrace => seq!["This `{` here ..."@, "... must have a `}` here."@],
        DiagnosticKind::MissingInputObjectTypeExtensionName => seq!["This input object type extension here is missing a name."@],
        DiagnosticKind::MissingDirectiveDefinitionAt => seq!["This directive's name here does not start with an `@`."@],
        DiagnosticKind::MissingDirectiveDefinitionName => seq!["This directive definition here is missing a name."@],
        DiagnosticKind::MissingDirectiveDefinitionLocations => seq!["This directive definition here is missing locations."@],
        DiagnosticKind::MissingFirstDirectiveLocation => seq!["This directive definition here is missing a location."@],
        DiagnosticKind::MissingSecondDirectiveLocation => seq!["This directive definition here is missing a location."@],
        DiagnosticKind::UnknownNamedType => seq!["Type `"@ + vars[0] + "` is referenced to here but never defined."@],
        DiagnosticKind::EmptyType => seq!["Type `"@ + vars[0] + "` is defined here but the schema doesn't define any fields for it."@],
        DiagnosticKind::DuplicateField => seq!["Field `"@ + vars[0] + "` is first defined here ..."@, "... and later defines the same field again here."@],
        DiagnosticKind::DuplicateExtendedField => seq!["Type `"@ + vars[0] + "` first defines field `"@ + vars[1] + "` here, ..."@, "... gets extended here ..."@, "... and later defines the same field again here."@],
        DiagnosticKind::ReservedFieldName => seq!["Field `"@ + vars[0] + "` is defined here and starts with `__`, which is reserved."@],
        DiagnosticKind::FieldNotOutputType => seq!["Field `"@ + vars[0] + "` is defined here as type `"@ + vars[1] + "`, which is an input type."@],
        DiagnosticKind::DuplicateArgumentName => seq!["Argument `"@ + vars[0] + "` is first defined here ..."@, "... and later defined again here."@],
        DiagnosticKind::ReservedInputValueName => seq!["Input value `"@ + vars[0] + "` is defined here and starts with `__`, which is reserved."@],
        DiagnosticKind::InputValueNotInputType => seq!["Input value `"@ + vars[0] + "` is defined here as type `"@ + vars[1] + "`, which is an output type."@],
        DiagnosticKind::DuplicateImplementsInterface => seq!["Type `"@ + vars[0] + "` first implements interface `"@ + vars[1] + "` here ..."@, "... and later implements the same interface again here."@],
        DiagnosticKind::ImplementsNonInterfaceType => seq!["Type `"@ + vars[0] + "` implements type `"@ + vars[1] + "` here, but `"@ + vars[1] + "` is not an interface."@],
        DiagnosticKind::MissingInheritedInterface => seq!["Type `"@ + vars[0] + "` implements interface `"@ + vars[1] + "` here, which requires that `"@ + vars[2] + "` is also implemented."@],
        DiagnosticKind::MissingInterfaceField => seq!["Type `"@ + vars[0] + "` implements interface `"@ + vars[1] + "` here, which requires that field `"@ + vars[2] + "` is implemented."@],
        DiagnosticKind::MissingInterfaceFieldArgument => seq!["Type `"@ + vars[0] + "` implements interface `"@ + vars[1] + "` here, which requires that field `"@ + vars[2] + "` has an argument `"@ + vars[3] + "`."@],
        DiagnosticKind::InvalidInterfaceFieldArgumentType => seq!["Type `"@ + vars[0] + "` implements interface `"@ + vars[1] + "` here, which requires that field `"@ + vars[2] + "` has an argument `"@ + vars[3] + "` of type `"@ + vars[4] + "` instead of `"@ + vars[5] + "`."@],
        DiagnosticKind::UnexpectedNonNullExtraInterfaceFieldArgument => seq!["Type `"@ + vars[0] + "` implements interface `"@ + vars[1] + "` here and defines a field `"@ + vars[2] + "` with required argument `"@ + vars[3] + "` of type `"@ + vars[4] + "` that matches a field in the interface."@],
        DiagnosticKind::NonCovariantInterfaceField => seq!["Type `"@ + vars[0] + "` implements interface `"@ + vars[1] + "` that defines a field `"@ + vars[2] + "` of type `"@ + vars[3] + "`, but `"@ + vars[2] + "` is `"@ + vars[4] + "` here, which is incompatible."@],
        DiagnosticKind::SelfReferentialInterface => seq!["Interface `"@ + vars[0] + "` attempts to implement itself here."@],
        DiagnosticKind::MissingUnionMembers => seq!["Union `"@ + vars[0] + "` here doesn't have any member types."@],
        DiagnosticKind::DuplicateUnionMember => seq!["Union member type `"@ + vars[0] + "` first occurs here ..."@, "... and later again here."@],
        DiagnosticKind::NonObjectUnionMember => seq!["Union member type `"@ + vars[0] + "` is not an object type."@],
        DiagnosticKind::MissingEnumValues => seq!["Enum `"@ + vars[0] + "` here doesn't have any values."@],
        DiagnosticKind::DuplicateEnumValue => seq!["Enum value `"@ + vars[0] + "` first occurs here ..."@, "... and later again here."@],
        DiagnosticKind::SelfReferentialInputType => seq!["Input type `"@ + vars[0] + "` references itself here through field `"@ + vars[1] + "` of type `"@ + vars[2] + "`."@],
        DiagnosticKind::ReservedDirectiveName => seq!["Directive `"@ + vars[0] + "` is defined here, but its name start with `__` which is reserved."@],
        DiagnosticKind::SelfReferentialDirective => seq!["Directive `"@ + vars[0] + "` references itself here through directive `"@ + vars[1] + "`."@],
        DiagnosticKind::DuplicateTypeName => seq!["Type `"@ + vars[0] + "` is first defined here ..."@, "... and later again here."@],
        DiagnosticKind::DuplicateDirectiveName => seq!["Directive `"@ + vars[0] + "` is first defined here ..."@, "... and later again here."@],
        DiagnosticKind::DifferentExtensionType => seq!["Type `"@ + vars[0] + "` is first defined as `"@ + vars[1] + "` here ..."@, "... and later again as `"@ + vars[2] + "` here."@],
        DiagnosticKind::ExpectedNonNullValue => seq!["This should be a `"@ + vars[0] + "` here."@],
        DiagnosticKind::ExpectedListValue => seq!["This should be a `"@ + vars[0] + "` here."@],
        DiagnosticKind::ExpectedIntValue => seq!["This should be a `"@ + vars[0] + "` here."@],
        DiagnosticKind::ExpectedFloatValue => seq!["This should be a `"@ + vars[0] + "` here."@],
        DiagnosticKind::ExpectedStringValue => seq!["This should be a `"@ + vars[0] + "` here."@],
        DiagnosticKind::ExpectedBooleanValue => seq!["This should be a `"@ + vars[0] + "` here."@],
        DiagnosticKind::ExpectedInputObjectValue => seq!["This should be a `"@ + vars[0] + "` here."@],
        DiagnosticKind::MissingInputField => seq!["This input object here must have a field `"@ + vars[0] + "` of type `"@ + vars[1] + "`."@],
        DiagnosticKind::UnrecognizedInputField => seq!["Value is provided for field `"@ + vars[0] + "` here, but type `"@ + vars[1] + "` has no such field."@],
        DiagnosticKind::UnrecognizedEnumValue => seq!["Enum value `"@ + vars[1] + "` here is not a valid value for enum `"@ + vars[0] + "`."@],
        DiagnosticKind::DuplicateOperationName => seq!["Operation `"@ + vars[0] + "` is first defined here ..."@, "... and later defined again here."@],
        DiagnosticKind::LoneAnonymousOperation => seq!["Anonymous operation defined here must not coexist with named operation definitions."@],
        DiagnosticKind::UndefinedField => seq!["Type `"@ + vars[0] + "` does not have a field named `"@ + vars[1] + "`."@],
    }
}

/// A diagnostic: an error found in a document, with the spans it points at
/// and the values its labels name.
#[derive(Debug)]
pub struct Diagnostic {
    kind: DiagnosticKind,
    vars: Vec<String>,
    spans: Vec<Span>,
}

/// What the diagnostics of every kind offer.
pub trait DiagnosticInfo {
    /// The code of this diagnostic: a letter and four digits.
    fn code(&self) -> &'static str;

    /// The message of this diagnostic.
    fn message(&self) -> &'static str;

    /// The primary span that triggered this diagnostic.
    fn span(&self) -> Span;

    /// The labels of this diagnostic: spans, each with an explanation.
    fn labels(&self) -> Vec<(Span, String)>;

    /// Whether this diagnostic is no longer reported.
    fn is_deprecated(&self) -> bool;
}

impl Diagnostic {
    pub closed spec fn kind(&self) -> DiagnosticKind {
        self.kind
    }

    /// The values named in the labels.
    pub closed spec fn vars(&self) -> Seq<Seq<char>> {
        self.vars@.map_values(|v: String| v@)
    }

    /// The spans the diagnostic points at.
    pub closed spec fn spans(&self) -> Seq<Span> {
        self.spans@
    }

    pub closed spec fn wf(&self) -> bool {
        &&& self.spans@.len() == span_count(self.kind)
        &&& self.vars@.len() == var_count(self.kind)
    }

    /// A diagnostic of `kind`, which names no values, pointing at `spans`.
    pub fn with_spans(kind: DiagnosticKind, spans: Vec<Span>) -> (d: Diagnostic)
        requires
            var_count(kind) == 0,
            spans@.len() == span_count(kind),
        ensures
            d.wf(),
            d.kind() == kind,
            d.spans() == spans@,
            d.vars() == Seq::<Seq<char>>::empty(),
    {
        let d = Diagnostic { kind, vars: Vec::new(), spans };
        assert(d.vars() =~= Seq::<Seq<char>>::empty());
        d
    }

    /// The kind of this diagnostic.
    pub fn diagnostic_kind(&self) -> (kind: DiagnosticKind)
        ensures
            kind == self.kind(),
    {
        self.kind
    }

    /// (E0001) Syntax error.
    pub fn unrecognized_tokens(span: Span) -> (d: Diagnostic)
        ensures
            d.wf(),
            d.kind() == DiagnosticKind::UnrecognizedTokens,
            d.spans() == seq![span],
            d.vars() == Seq::<Seq<char>>::empty(),
    {
        let mut vars: Vec<String> = Vec::new();
        let mut spans: Vec<Span> = Vec::new();
        spans.push(span);
        let d = Diagnostic { kind: DiagnosticKind::UnrecognizedTokens, vars, spans };
        assert(d.vars() =~= Seq::<Seq<char>>::empty());
        d
    }

    /// (E0002) Operation definition must have a name.
    pub fn missing_operation_definition_name(span: Span) -> (d: Diagnostic)
        ensures
            d.wf(),
            d.kind() == DiagnosticKind::MissingOperationDefinitionName,
            d.spans() == seq![span],
            d.vars() == Seq::<Seq<char>>::empty(),
    {
        let mut vars: Vec<String> = Vec::new();
        let mut spans: Vec<Span> = Vec::new();
        spans.push(span);
        let d = Diagnostic { kind: DiagnosticKind::MissingOperationDefinitionName, vars, spans };
        assert(d.vars() =~= Seq::<Seq<char>>::empty());
        d
    }

    /// (E0003) Operation definition must have a selection set.
    pub fn missing_operation_definition_selection_set(span: Span) -> (d: Diagnostic)
        ensures
            d.wf(),
            d.kind() == DiagnosticKind::MissingOperationDefinitionSelectionSet,
            d.spans() == seq![span],
            d.vars() == Seq::<Seq<char>>::empty(),
    {
        let mut vars: Vec<String> = Vec::new();
        let mut spans: Vec<Span> = Vec::new();
        spans.push(span);
        let d = Diagnostic { kind: DiagnosticKind::MissingOperationDefinitionSelectionSet, vars, spans };
        assert(d.vars() =~= Seq::<Seq<char>>::empty());
        d
    }

    /// (E0004) Selection set is missing closing curly brace.
    pub fn missing_selection_set_closing_brace(first: Span, second: Span) -> (d: Diagnostic)
        ensures
            d.wf(),
            d.kind() == DiagnosticKind::MissingSelectionSetClosingBrace,
            d.spans() == seq![first, second],
            d.vars() == Seq::<Seq<char>>::empty(),
    {
        let mut vars: Vec<String> = Vec::new();
        let mut spans: Vec<Span> = Vec::new();
        spans.push(first);
        spans.push(second);
        let d = Diagnostic { kind: DiagnosticKind::MissingSelectionSetClosingBrace, vars, spans };
        assert(d.vars() =~= Seq::<Seq<char>>::empty());
        d
    }

    /// (E0005) Field must have a name.
    pub fn missing_field_name(span: Span) -> (d: Diagnostic)
        ensures
            d.wf(),
            d.kind() == DiagnosticKind::MissingFieldName,
            d.spans() == seq![span],
            d.vars() == Seq::<Seq<char>>::empty(),
    {
        let mut vars: Vec<String> = Vec::new();
        let mut spans: Vec<Span> = Vec::new();
        spans.push(span);
        let d = Diagnostic { kind: DiagnosticKind::MissingFieldName, vars, spans };
        assert(d.vars() =~= Seq::<Seq<char>>::empty());
        d
    }

    /// (E0006) Arguments are missing closing parenthesis.
    pub fn missing_arguments_closing_parentheses(first: Span, second: Span) -> (d: Diagnostic)
        ensures
            d.wf(),
            d.kind() == DiagnosticKind::MissingArgumentsClosingParentheses,
            d.spans() == seq![first, second],
            d.vars() == Seq::<Seq<char>>::empty(),
    {
        let mut vars: Vec<String> = Vec::new();
        let mut spans: Vec<Span> = Vec::new();
        spans.push(first);
        spans.push(second);
        let d = Diagnostic { kind: DiagnosticKind::MissingArgumentsClosingParentheses, vars, spans };
        assert(d.vars() =~= Seq::<Seq<char>>::empty());
        d
    }

    /// (E0007) Argument is missing colon.
    pub fn missing_argument_colon(span: Span) -> (d: Diagnostic)
        ensures
            d.wf(),
            d.kind() == DiagnosticKind::MissingArgumentColon,
            d.spans() == seq![span],
            d.vars() == Seq::<Seq<char>>::empty(),
    {
        let mut vars: Vec<String> = Vec::new();
        let mut spans: Vec<Span> = Vec::new();
        spans.push(span);
        let d = Diagnostic { kind: DiagnosticKind::MissingArgumentColon, vars, spans };
        assert(d.vars() =~= Seq::<Seq<char>>::empty());
        d
    }

    /// (E0008) Argument is missing value.
    pub fn missing_argument_value(span: Span) -> (d: Diagnostic)
        ensures
            d.wf(),
            d.kind() == DiagnosticKind::MissingArgumentValue,
            d.spans() == seq![span],
            d.vars() == Seq::<Seq<char>>::empty(),
    {
        let mut vars: Vec<String> = Vec::new();
        let mut spans: Vec<Span> = Vec::new();
        spans.push(span);
        let d = Diagnostic { kind: DiagnosticKind::MissingArgumentValue, vars, spans };
        assert(d.vars() =~= Seq::<Seq<char>>::empty());
        d
    }

    /// (E0009) Inline fragment is missing selection set.
    pub fn missing_inline_fragment_selection_set(span: Span) -> (d: Diagnostic)
        ensures
            d.wf(),
            d.kind() == DiagnosticKind::MissingInlineFragmentSelectionSet,
            d.spans() == seq![span],
            d.vars() == Seq::<Seq<char>>::empty(),
    {
        let mut vars: Vec<String> = Vec::new();
        let mut spans: Vec<Span> = Vec::new();
        spans.push(span);
        let d = Diagnostic { kind: DiagnosticKind::MissingInlineFragmentSelectionSet, vars, spans };
        assert(d.vars() =~= Seq::<Seq<char>>::empty());
        d
    }

    /// (E0010) Fragment definition must have a name.
    pub fn missing_fragment_name(span: Span) -> (d: Diagnostic)
        ensures
            d.wf(),
            d.kind() == DiagnosticKind::MissingFragmentName,
            d.spans() == seq![span],
            d.vars() == Seq::<Seq<char>>::empty(),
    {
        let mut vars: Vec<String> = Vec::new();
        let mut spans: Vec<Span> = Vec::new();
        spans.push(span);
        let d = Diagnostic { kind: DiagnosticKind::MissingFragmentName, vars, spans };
        assert(d.vars() =~= Seq::<Seq<char>>::empty());
        d
    }

    /// (E0011) Fragment definition must have a type condition.
    pub fn missing_fragment_type_condition(span: Span) -> (d: Diagnostic)
        ensures
            d.wf(),
            d.kind() == DiagnosticKind::MissingFragmentTypeCondition,
            d.spans() == seq![span],
            d.vars() == Seq::<Seq<char>>::empty(),
    {
        let mut vars: Vec<String> = Vec::new();
        let mut spans: Vec<Span> = Vec::new();
        spans.push(span);
        let d = Diagnostic { kind: DiagnosticKind::MissingFragmentTypeCondition, vars, spans };
        assert(d.vars() =~= Seq::<Seq<char>>::empty());
        d
    }

    /// (E0012) Fragment definition must have a selection set.
    pub fn missing_fragment_selection_set(span: Span) -> (d: Diagnostic)
        ensures
            d.wf(),
            d.kind() == DiagnosticKind::MissingFragmentSelectionSet,
            d.spans() == seq![span],
            d.vars() == Seq::<Seq<char>>::empty(),
    {
        let mut vars: Vec<String> = Vec::new();
        let mut spans: Vec<Span> = Vec::new();
        spans.push(span);
        let d = Diagnostic { kind: DiagnosticKind::MissingFragmentSelectionSet, vars, spans };
        assert(d.vars() =~= Seq::<Seq<char>>::empty());
        d
    }

    /// (E0013) Type condition must have a named type.
    pub fn missing_type_condition_named_type(span: Span) -> (d: Diagnostic)
        ensures
            d.wf(),
            d.kind() == DiagnosticKind::MissingTypeConditionNamedType,
            d.spans() == seq![span],
            d.vars() == Seq::<Seq<char>>::empty(),
    {
        let mut vars: Vec<String> = Vec::new();
        let mut spans: Vec<Span> = Vec::new();
        spans.push(span);
        let d = Diagnostic { kind: DiagnosticKind::MissingTypeConditionNamedType, vars, spans };
        assert(d.vars() =~= Seq::<Seq<char>>::empty());
        d
    }

    /// (E0014) List value must have closing bracket.
    pub fn missing_list_value_closing_bracket(first: Span, second: Span) -> (d: Diagnostic)
        ensures
            d.wf(),
            d.kind() == DiagnosticKind::MissingListValueClosingBracket,
            d.spans() == seq![first, second],
            d.vars() == Seq::<Seq<char>>::empty(),
    {
        let mut vars: Vec<String> = Vec::new();
        let mut spans: Vec<Span> = Vec::new();
        spans.push(first);
        spans.push(second);
        let d = Diagnostic { kind: DiagnosticKind::MissingListValueClosingBracket, vars, spans };
        assert(d.vars() =~= Seq::<Seq<char>>::empty());
        d
    }

    /// (E0015) Object value must have closing brace.
    pub fn missing_object_value_closing_brace(first: Span, second: Span) -> (d: Diagnostic)
        ensures
            d.wf(),
            d.kind() == DiagnosticKind::MissingObjectValueClosingBrace,
            d.spans() == seq![first, second],
            d.vars() == Seq::<Seq<char>>::empty(),
    {
        let mut vars: Vec<String> = Vec::new();
        let mut spans: Vec<Span> = Vec::new();
        spans.push(first);
        spans.push(second);
        let d = Diagnostic { kind: DiagnosticKind::MissingObjectValueClosingBrace, vars, spans };
        assert(d.vars() =~= Seq::<Seq<char>>::empty());
        d
    }

    /// (E0016) Object field must have a colon.
    pub fn missing_object_field_colon(span: Span) -> (d: Diagnostic)
        ensures
            d.wf(),
            d.kind() == DiagnosticKind::MissingObjectFieldColon,
            d.spans() == seq![span],
            d.vars() == Seq::<Seq<char>>::empty(),
    {
        let mut vars: Vec<String> = Vec::new();
        let mut spans: Vec<Span> = Vec::new();
        spans.push(span);
        let d = Diagnostic { kind: DiagnosticKind::MissingObjectFieldColon, vars, spans };
        assert(d.vars() =~= Seq::<Seq<char>>::empty());
        d
    }

    /// (E0017) Object field must have a value.
    pub fn missing_object_field_value(span: Span) -> (d: Diagnostic)
        ensures
            d.wf(),
            d.kind() == DiagnosticKind::MissingObjectFieldValue,
            d.spans() == seq![span],
            d.vars() == Seq::<Seq<char>>::empty(),
    {
        let mut vars: Vec<String> = Vec::new();
        let mut spans: Vec<Span> = Vec::new();
        spans.push(span);
        let d = Diagnostic { kind: DiagnosticKind::MissingObjectFieldValue, vars, spans };
        assert(d.vars() =~= Seq::<Seq<char>>::empty());
        d
    }

    /// (E0018) Variable definitions must have a closing parenthesis.
    pub fn missing_variable_definitions_closing_parenthesis(first: Span, second: Span) -> (d: Diagnostic)
        ensures
            d.wf(),
            d.kind() == DiagnosticKind::MissingVariableDefinitionsClosingParenthesis,
            d.spans() == seq![first, second],
            d.vars() == Seq::<Seq<char>>::empty(),
    {
        let mut vars: Vec<String> = Vec::new();
        let mut spans: Vec<Span> = Vec::new();
        spans.push(first);
        spans.push(second);
        let d = Diagnostic { kind: DiagnosticKind::MissingVariableDefinitionsClosingParenthesis, vars, spans };
        assert(d.vars() =~= Seq::<Seq<char>>::empty());
        d
    }

    /// (E0019) Variable definition must have a colon.
    pub fn missing_variable_definition_colon(span: Span) -> (d: Diagnostic)
        ensures
            d.wf(),
            d.kind() == DiagnosticKind::MissingVariableDefinitionColon,
            d.spans() == seq![span],
            d.vars() == Seq::<Seq<char>>::empty(),
    {
        let mut vars: Vec<String> = Vec::new();
        let mut spans: Vec<Span> = Vec::new();
        spans.push(span);
        let d = Diagnostic { kind: DiagnosticKind::MissingVariableDefinitionColon, vars, spans };
        assert(d.vars() =~= Seq::<Seq<char>>::empty());
        d
    }

    /// (E0020) Variable definition must have a type.
    pub fn missing_variable_definition_type(span: Span) -> (d: Diagnostic)
        ensures
            d.wf(),
            d.kind() == DiagnosticKind::MissingVariableDefinitionType,
            d.spans() == seq![span],
            d.vars() == Seq::<Seq<char>>::empty(),
    {
        let mut vars: Vec<String> = Vec::new();
        let mut spans: Vec<Span> = Vec::new();
        spans.push(span);
        let d = Diagnostic { kind: DiagnosticKind::MissingVariableDefinitionType, vars, spans };
        assert(d.vars() =~= Seq::<Seq<char>>::empty());
        d
    }

    /// (E0021) Default value must have a value.
    pub fn missing_default_value(span: Span) -> (d: Diagnostic)
        ensures
            d.wf(),
            d.kind() == DiagnosticKind::MissingDefaultValue,
            d.spans() == seq![span],
            d.vars() == Seq::<Seq<char>>::empty(),
    {
        let mut vars: Vec<String> = Vec::new();
        let mut spans: Vec<Span> = Vec::new();
        spans.push(span);
        let d = Diagnostic { kind: DiagnosticKind::MissingDefaultValue, vars, spans };
        assert(d.vars() =~= Seq::<Seq<char>>::empty());
        d
    }

    /// (E0022) List type must have a closing bracket.
    pub fn missing_list_type_closing_bracket(first: Span, second: Span) -> (d: Diagnostic)
        ensures
            d.wf(),
            d.kind() == DiagnosticKind::MissingListTypeClosingBracket,
            d.spans() == seq![first, second],
            d.vars() == Seq::<Seq<char>>::empty(),
    {
        let mut vars: Vec<String> = Vec::new();
        let mut spans: Vec<Span> = Vec::new();
        spans.push(first);
        spans.push(second);
        let d = Diagnostic { kind: DiagnosticKind::MissingListTypeClosingBracket, vars, spans };
        assert(d.vars() =~= Seq::<Seq<char>>::empty());
        d
    }

    /// (E0023) List type must wrap another type.
    pub fn missing_list_type_wrapped_type(span: Span) -> (d: Diagnostic)
        ensures
            d.wf(),
            d.kind() == DiagnosticKind::MissingListTypeWrappedType,
            d.spans() == seq![span],
            d.vars() == Seq::<Seq<char>>::empty(),
    {
        let mut vars: Vec<String> = Vec::new();
        let mut spans: Vec<Span> = Vec::new();
        spans.push(span);
        let d = Diagnostic { kind: DiagnosticKind::MissingListTypeWrappedType, vars, spans };
        assert(d.vars() =~= Seq::<Seq<char>>::empty());
        d
    }

    /// (E0024) Directive must have a name.
    pub fn missing_directive_name(span: Span) -> (d: Diagnostic)
        ensures
            d.wf(),
            d.kind() == DiagnosticKind::MissingDirectiveName,
            d.spans() == seq![span],
            d.vars() == Seq::<Seq<char>>::empty(),
    {
        let mut vars: Vec<String> = Vec::new();
        let mut spans: Vec<Span> = Vec::new();
        spans.push(span);
        let d = Diagnostic { kind: DiagnosticKind::MissingDirectiveName, vars, spans };
        assert(d.vars() =~= Seq::<Seq<char>>::empty());
        d
    }

    /// (E0025) Schema definition must define one or more root operation types.
    pub fn missing_root_operation_type_definitions(span: Span) -> (d: Diagnostic)
        ensures
            d.wf(),
            d.kind() == DiagnosticKind::MissingRootOperationTypeDefinitions,
            d.spans() == seq![span],
            d.vars() == Seq::<Seq<char>>::empty(),
    {
        let mut vars: Vec<String> = Vec::new();
        let mut spans: Vec<Span> = Vec::new();
        spans.push(span);
        let d = Diagnostic { kind: DiagnosticKind::MissingRootOperationTypeDefinitions, vars, spans };
        assert(d.vars() =~= Seq::<Seq<char>>::empty());
        d
    }

    /// (E0026) Root operation type definitions must have a closing brace.
    pub fn missing_root_operation_type_definitions_closing_brace(first: Span, second: Span) -> (d: Diagnostic)
        ensures
            d.wf(),
            d.kind() == DiagnosticKind::MissingRootOperationTypeDefinitionsClosingBrace,
            d.spans() == seq![first, second],
            d.vars() == Seq::<Seq<char>>::empty(),
    {
        let mut vars: Vec<String> = Vec::new();
        let mut spans: Vec<Span> = Vec::new();
        spans.push(first);
        spans.push(second);
        let d = Diagnostic { kind: DiagnosticKind::MissingRootOperationTypeDefinitionsClosingBrace, vars, spans };
        assert(d.vars() =~= Seq::<Seq<char>>::empty());
        d
    }

    /// (E0027) Root operation type definition must have a colon.
    pub fn missing_root_operation_type_definition_colon(span: Span) -> (d: Diagnostic)
        ensures
            d.wf(),
            d.kind() == DiagnosticKind::MissingRootOperationTypeDefinitionColon,
            d.spans() == seq![span],
            d.vars() == Seq::<Seq<char>>::empty(),
    {
        let mut vars: Vec<String> = Vec::new();
        let mut spans: Vec<Span> = Vec::new();
        spans.push(span);
        let d = Diagnostic { kind: DiagnosticKind::MissingRootOperationTypeDefinitionColon, vars, spans };
        assert(d.vars() =~= Seq::<Seq<char>>::empty());
        d
    }

    /// (E0028) Root operation type definition must have a named type.
    pub fn missing_root_operation_type_definition_named_type(span: Span) -> (d: Diagnostic)
        ensures
            d.wf(),
            d.kind() == DiagnosticKind::MissingRootOperationTypeDefinitionNamedType,
            d.spans() == seq![span],
            d.vars() == Seq::<Seq<char>>::empty(),
    {
        let mut vars: Vec<String> = Vec::new();
        let mut spans: Vec<Span> = Vec::new();
        spans.push(span);
        let d = Diagnostic { kind: DiagnosticKind::MissingRootOperationTypeDefinitionNamedType, vars, spans };
        assert(d.vars() =~= Seq::<Seq<char>>::empty());
        d
    }

    /// (E0029) Scalar type definition must have a name.
    pub fn missing_scalar_type_definition_name(span: Span) -> (d: Diagnostic)
        ensures
            d.wf(),
            d.kind() == DiagnosticKind::MissingScalarTypeDefinitionName,
            d.spans() == seq![span],
            d.vars() == Seq::<Seq<char>>::empty(),
    {
        let mut vars: Vec<String> = Vec::new();
        let mut spans: Vec<Span> = Vec::new();
        spans.push(span);
        let d = Diagnostic { kind: DiagnosticKind::MissingScalarTypeDefinitionName, vars, spans };
        assert(d.vars() =~= Seq::<Seq<char>>::empty());
        d
    }

    /// (E0030) Scalar type extension must have a name.
    pub fn missing_scalar_type_extension_name(span: Span) -> (d: Diagnostic)
        ensures
            d.wf(),
            d.kind() == DiagnosticKind::MissingScalarTypeExtensionName,
            d.spans() == seq![span],
            d.vars() == Seq::<Seq<char>>::empty(),
    {
        let mut vars: Vec<String> = Vec::new();
        let mut spans: Vec<Span> = Vec::new();
        spans.push(span);
        let d = Diagnostic { kind: DiagnosticKind::MissingScalarTypeExtensionName, vars, spans };
        assert(d.vars() =~= Seq::<Seq<char>>::empty());
        d
    }

    /// (E0031) Scalar type extension must have one or more directives.
    pub fn missing_scalar_type_extension_directives(span: Span) -> (d: Diagnostic)
        ensures
            d.wf(),
            d.kind() == DiagnosticKind::MissingScalarTypeExtensionDirectives,
            d.spans() == seq![span],
            d.vars() == Seq::<Seq<char>>::empty(),
    {
        let mut vars: Vec<String> = Vec::new();
        let mut spans: Vec<Span> = Vec::new();
        spans.push(span);
        let d = Diagnostic { kind: DiagnosticKind::MissingScalarTypeExtensionDirectives, vars, spans };
        assert(d.vars() =~= Seq::<Seq<char>>::empty());
        d
    }

    /// (E0032) Object type definition must have a name.
    pub fn missing_object_type_definition_name(span: Span) -> (d: Diagnostic)
        ensures
            d.wf(),
            d.kind() == DiagnosticKind::MissingObjectTypeDefinitionName,
            d.spans() == seq![span],
            d.vars() == Seq::<Seq<char>>::empty(),
    {
        let mut vars: Vec<String> = Vec::new();
        let mut spans: Vec<Span> = Vec::new();
        spans.push(span);
        let d = Diagnostic { kind: DiagnosticKind::MissingObjectTypeDefinitionName, vars, spans };
        assert(d.vars() =~= Seq::<Seq<char>>::empty());
        d
    }

    /// (E0033) Implemented interfaces must not be empty.
    pub fn missing_first_implements_interface(span: Span) -> (d: Diagnostic)
        ensures
            d.wf(),
            d.kind() == DiagnosticKind::MissingFirstImplementsInterface,
            d.spans() == seq![span],
            d.vars() == Seq::<Seq<char>>::empty(),
    {
        let mut vars: Vec<String> = Vec::new();
        let mut spans: Vec<Span> = Vec::new();
        spans.push(span);
        let d = Diagnostic { kind: DiagnosticKind::MissingFirstImplementsInterface, vars, spans };
        assert(d.vars() =~= Seq::<Seq<char>>::empty());
        d
    }

    /// (E0034) Implemented interface name is missing.
    pub fn missing_second_implements_interface(span: Span) -> (d: Diagnostic)
        ensures
            d.wf(),
            d.kind() == DiagnosticKind::MissingSecondImplementsInterface,
            d.spans() == seq![span],
            d.vars() == Seq::<Seq<char>>::empty(),
    {
        let mut vars: Vec<String> = Vec::new();
        let mut spans: Vec<Span> = Vec::new();
        spans.push(span);
        let d = Diagnostic { kind: DiagnosticKind::MissingSecondImplementsInterface, vars, spans };
        assert(d.vars() =~= Seq::<Seq<char>>::empty());
        d
    }

    /// (E0035) Fields definition must have a closing brace.
    pub fn missing_fields_definition_closing_brace(first: Span, second: Span) -> (d: Diagnostic)
        ensures
            d.wf(),
            d.kind() == DiagnosticKind::MissingFieldsDefinitionClosingBrace,
            d.spans() == seq![first, second],
            d.vars() == Seq::<Seq<char>>::empty(),
    {
        let mut vars: Vec<String> = Vec::new();
        let mut spans: Vec<Span> = Vec::new();
        spans.push(first);
        spans.push(second);
        let d = Diagnostic { kind: DiagnosticKind::MissingFieldsDefinitionClosingBrace, vars, spans };
        assert(d.vars() =~= Seq::<Seq<char>>::empty());
        d
    }

    /// (E0036) Field definition must have a colon.
    pub fn missing_field_definition_colon(span: Span) -> (d: Diagnostic)
        ensures
            d.wf(),
            d.kind() == DiagnosticKind::MissingFieldDefinitionColon,
            d.spans() == seq![span],
            d.vars() == Seq::<Seq<char>>::empty(),
    {
        let mut vars: Vec<String> = Vec::new();
        let mut spans: Vec<Span> = Vec::new();
        spans.push(span);
        let d = Diagnostic { kind: DiagnosticKind::MissingFieldDefinitionColon, vars, spans };
        assert(d.vars() =~= Seq::<Seq<char>>::empty());
        d
    }

    /// (E0037) Field definition must have a type.
    pub fn missing_field_definition_type(span: Span) -> (d: Diagnostic)
        ensures
            d.wf(),
            d.kind() == DiagnosticKind::MissingFieldDefinitionType,
            d.spans() == seq![span],
            d.vars() == Seq::<Seq<char>>::empty(),
    {
        let mut vars: Vec<String> = Vec::new();
        let mut spans: Vec<Span> = Vec::new();
        spans.push(span);
        let d = Diagnostic { kind: DiagnosticKind::MissingFieldDefinitionType, vars, spans };
        assert(d.vars() =~= Seq::<Seq<char>>::empty());
        d
    }

    /// (E0038) Arguments definition must have a closing parenthesis.
    pub fn missing_arguments_definition_closing_parenthesis(first: Span, second: Span) -> (d: Diagnostic)
        ensures
            d.wf(),
            d.kind() == DiagnosticKind::MissingArgumentsDefinitionClosingParenthesis,
            d.spans() == seq![first, second],
            d.vars() == Seq::<Seq<char>>::empty(),
    {
        let mut vars: Vec<String> = Vec::new();
        let mut spans: Vec<Span> = Vec::new();
        spans.push(first);
        spans.push(second);
        let d = Diagnostic { kind: DiagnosticKind::MissingArgumentsDefinitionClosingParenthesis, vars, spans };
        assert(d.vars() =~= Seq::<Seq<char>>::empty());
        d
    }

    /// (E0039) Input value definition must have a colon.
    pub fn missing_input_value_definition_colon(span: Span) -> (d: Diagnostic)
        ensures
            d.wf(),
            d.kind() == DiagnosticKind::MissingInputValueDefinitionColon,
            d.spans() == seq![span],
            d.vars() == Seq::<Seq<char>>::empty(),
    {
        let mut vars: Vec<String> = Vec::new();
        let mut spans: Vec<Span> = Vec::new();
        spans.push(span);
        let d = Diagnostic { kind: DiagnosticKind::MissingInputValueDefinitionColon, vars, spans };
        assert(d.vars() =~= Seq::<Seq<char>>::empty());
        d
    }

    /// (E0040) Input value definition must have a type.
    pub fn missing_input_value_definition_type(span: Span) -> (d: Diagnostic)
        ensures
            d.wf(),
            d.kind() == DiagnosticKind::MissingInputValueDefinitionType,
            d.spans() == seq![span],
            d.vars() == Seq::<Seq<char>>::empty(),
    {
        let mut vars: Vec<String> = Vec::new();
        let mut spans: Vec<Span> = Vec::new();
        spans.push(span);
        let d = Diagnostic { kind: DiagnosticKind::MissingInputValueDefinitionType, vars, spans };
        assert(d.vars() =~= Seq::<Seq<char>>::empty());
        d
    }

    /// (E0041) Object type extension must have a name.
    pub fn missing_object_type_extension_name(span: Span) -> (d: Diagnostic)
        ensures
            d.wf(),
            d.kind() == DiagnosticKind::MissingObjectTypeExtensionName,
            d.spans() == seq![span],
            d.vars() == Seq::<Seq<char>>::empty(),
    {
        let mut vars: Vec<String> = Vec::new();
        let mut spans: Vec<Span> = Vec::new();
        spans.push(span);
        let d = Diagnostic { kind: DiagnosticKind::MissingObjectTypeExtensionName, vars, spans };
        assert(d.vars() =~= Seq::<Seq<char>>::empty());
        d
    }

    /// (E0042) Interface type definition must have a name.
    pub fn missing_interface_type_definition_name(span: Span) -> (d: Diagnostic)
        ensures
            d.wf(),
            d.kind() == DiagnosticKind::MissingInterfaceTypeDefinitionName,
            d.spans() == seq![span],
            d.vars() == Seq::<Seq<char>>::empty(),
    {
        let mut vars: Vec<String> = Vec::new();
        let mut spans: Vec<Span> = Vec::new();
        spans.push(span);
        let d = Diagnostic { kind: DiagnosticKind::MissingInterfaceTypeDefinitionName, vars, spans };
        assert(d.vars() =~= Seq::<Seq<char>>::empty());
        d
    }

    /// (E0043) Interface type extension must have a name.
    pub fn missing_interface_type_extension_name(span: Span) -> (d: Diagnostic)
        ensures
            d.wf(),
            d.kind() == DiagnosticKind::MissingInterfaceTypeExtensionName,
            d.spans() == seq![span],
            d.vars() == Seq::<Seq<char>>::empty(),
    {
        let mut vars: Vec<String> = Vec::new();
        let mut spans: Vec<Span> = Vec::new();
        spans.push(span);
        let d = Diagnostic { kind: DiagnosticKind::MissingInterfaceTypeExtensionName, vars, spans };
        assert(d.vars() =~= Seq::<Seq<char>>::empty());
        d
    }

    /// (E0044) Union type definition must have a name.
    pub fn missing_union_type_definition_name(span: Span) -> (d: Diagnostic)
        ensures
            d.wf(),
            d.kind() == DiagnosticKind::MissingUnionTypeDefinitionName,
            d.spans() == seq![span],
            d.vars() == Seq::<Seq<char>>::empty(),
    {
        let mut vars: Vec<String> = Vec::new();
        let mut spans: Vec<Span> = Vec::new();
        spans.push(span);
        let d = Diagnostic { kind: DiagnosticKind::MissingUnionTypeDefinitionName, vars, spans };
        assert(d.vars() =~= Seq::<Seq<char>>::empty());
        d
    }

    /// (E0045) Union type definition must have one or more member types.
    pub fn missing_first_union_member_type(span: Span) -> (d: Diagnostic)
        ensures
            d.wf(),
            d.kind() == DiagnosticKind::MissingFirstUnionMemberType,
            d.spans() == seq![span],
            d.vars() == Seq::<Seq<char>>::empty(),
    {
        let mut vars: Vec<String> = Vec::new();
        let mut spans: Vec<Span> = Vec::new();
        spans.push(span);
        let d = Diagnostic { kind: DiagnosticKind::MissingFirstUnionMemberType, vars, spans };
        assert(d.vars() =~= Seq::<Seq<char>>::empty());
        d
    }

    /// (E0046) Union member type must have a name.
    pub fn missing_second_union_member_type(span: Span) -> (d: Diagnostic)
        ensures
            d.wf(),
            d.kind() == DiagnosticKind::MissingSecondUnionMemberType,
            d.spans() == seq![span],
            d.vars() == Seq::<Seq<char>>::empty(),
    {
        let mut vars: Vec<String> = Vec::new();
        let mut spans: Vec<Span> = Vec::new();
        spans.push(span);
        let d = Diagnostic { kind: DiagnosticKind::MissingSecondUnionMemberType, vars, spans };
        assert(d.vars() =~= Seq::<Seq<char>>::empty());
        d
    }

    /// (E0047) Union type extension must have a name.
    pub fn missing_union_type_extension_name(span: Span) -> (d: Diagnostic)
        ensures
            d.wf(),
            d.kind() == DiagnosticKind::MissingUnionTypeExtensionName,
            d.spans() == seq![span],
            d.vars() == Seq::<Seq<char>>::empty(),
    {
        let mut vars: Vec<String> = Vec::new();
        let mut spans: Vec<Span> = Vec::new();
        spans.push(span);
        let d = Diagnostic { kind: DiagnosticKind::MissingUnionTypeExtensionName, vars, spans };
        assert(d.vars() =~= Seq::<Seq<char>>::empty());
        d
    }

    /// (E0048) Enum type definition must have a name.
    pub fn missing_enum_type_definition_name(span: Span) -> (d: Diagnostic)
        ensures
            d.wf(),
            d.kind() == DiagnosticKind::MissingEnumTypeDefinitionName,
            d.spans() == seq![span],
            d.vars() == Seq::<Seq<char>>::empty(),
    {
        let mut vars: Vec<String> = Vec::new();
        let mut spans: Vec<Span> = Vec::new();
        spans.push(span);
        let d = Diagnostic { kind: DiagnosticKind::MissingEnumTypeDefinitionName, vars, spans };
        assert(d.vars() =~= Seq::<Seq<char>>::empty());
        d
    }

    /// (E0049) Enum values must have a closing brace.
    pub fn missing_enum_values_closing_brace(first: Span, second: Span) -> (d: Diagnostic)
        ensures
            d.wf(),
            d.kind() == DiagnosticKind::MissingEnumValuesClosingBrace,
            d.spans() == seq![first, second],
            d.vars() == Seq::<Seq<char>>::empty(),
    {
        let mut vars: Vec<String> = Vec::new();
        let mut spans: Vec<Span> = Vec::new();
        spans.push(first);
        spans.push(second);
        let d = Diagnostic { kind: DiagnosticKind::MissingEnumValuesClosingBrace, vars, spans };
        assert(d.vars() =~= Seq::<Seq<char>>::empty());
        d
    }

    /// (E0050) Enum type extension must have a name.
    pub fn missing_enum_type_extension_name(span: Span) -> (d: Diagnostic)
        ensures
            d.wf(),
            d.kind() == DiagnosticKind::MissingEnumTypeExtensionName,
            d.spans() == seq![span],
            d.vars() == Seq::<Seq<char>>::empty(),
    {
        let mut vars: Vec<String> = Vec::new();
        let mut spans: Vec<Span> = Vec::new();
        spans.push(span);
        let d = Diagnostic { kind: DiagnosticKind::MissingEnumTypeExtensionName, vars, spans };
        assert(d.vars() =~= Seq::<Seq<char>>::empty());
        d
    }

    /// (E0051) Input object type definition must have a name.
    pub fn missing_input_object_type_definition_name(span: Span) -> (d: Diagnostic)
        ensures
            d.wf(),
            d.kind() == DiagnosticKind::MissingInputObjectTypeDefinitionName,
            d.spans() == seq![span],
            d.vars() == Seq::<Seq<char>>::empty(),
    {
        let mut vars: Vec<String> = Vec::new();
        let mut spans: Vec<Span> = Vec::new();
        spans.push(span);
        let d = Diagnostic { kind: DiagnosticKind::MissingInputObjectTypeDefinitionName, vars, spans };
        assert(d.vars() =~= Seq::<Seq<char>>::empty());
        d
    }

    /// (E0052) Input fields definition must have a closing brace.
    pub fn missing_input_fields_definition_closing_brace(first: Span, second: Span) -> (d: Diagnostic)
        ensures
            d.wf(),
            d.kind() == DiagnosticKind::MissingInputFieldsDefinitionClosingBrace,
            d.spans() == seq![first, second],
            d.vars() == Seq::<Seq<char>>::empty(),
    {
        let mut vars: Vec<String> = Vec::new();
        let mut spans: Vec<Span> = Vec::new();
        spans.push(first);
        spans.push(second);
        let d = Diagnostic { kind: DiagnosticKind::MissingInputFieldsDefinitionClosingBrace, vars, spans };
        assert(d.vars() =~= Seq::<Seq<char>>::empty());
        d
    }

    /// (E0053) Input object type extension must have a name.
    pub fn missing_input_object_type_extension_name(span: Span) -> (d: Diagnostic)
        ensures
            d.wf(),
            d.kind() == DiagnosticKind::MissingInputObjectTypeExtensionName,
            d.spans() == seq![span],
            d.vars() == Seq::<Seq<char>>::empty(),
    {
        let mut vars: Vec<String> = Vec::new();
        let mut spans: Vec<Span> = Vec::new();
        spans.push(span);
        let d = Diagnostic { kind: DiagnosticKind::MissingInputObjectTypeExtensionName, vars, spans };
        assert(d.vars() =~= Seq::<Seq<char>>::empty());
        d
    }

    /// (E0054) Directive's name must start with an `@`.
    pub fn missing_directive_definition_at(span: Span) -> (d: Diagnostic)
        ensures
            d.wf(),
            d.kind() == DiagnosticKind::MissingDirectiveDefinitionAt,
            d.spans() == seq![span],
            d.vars() == Seq::<Seq<char>>::empty(),
    {
        let mut vars: Vec<String> = Vec::new();
        let mut spans: Vec<Span> = Vec::new();
        spans.push(span);
        let d = Diagnostic { kind: DiagnosticKind::MissingDirectiveDefinitionAt, vars, spans };
        assert(d.vars() =~= Seq::<Seq<char>>::empty());
        d
    }

    /// (E0055) Directive definition must have a name.
    pub fn missing_directive_definition_name(span: Span) -> (d: Diagnostic)
        ensures
            d.wf(),
            d.kind() == DiagnosticKind::MissingDirectiveDefinitionName,
            d.spans() == seq![span],
            d.vars() == Seq::<Seq<char>>::empty(),
    {
        let mut vars: Vec<String> = Vec::new();
        let mut spans: Vec<Span> = Vec::new();
        spans.push(span);
        let d = Diagnostic { kind: DiagnosticKind::MissingDirectiveDefinitionName, vars, spans };
        assert(d.vars() =~= Seq::<Seq<char>>::empty());
        d
    }

    /// (E0056) Directive definition must have one or more locations.
    pub fn missing_directive_definition_locations(span: Span) -> (d: Diagnostic)
        ensures
            d.wf(),
            d.kind() == DiagnosticKind::MissingDirectiveDefinitionLocations,
            d.spans() == seq![span],
            d.vars() == Seq::<Seq<char>>::empty(),
    {
        let mut vars: Vec<String> = Vec::new();
        let mut spans: Vec<Span> = Vec::new();
        spans.push(span);
        let d = Diagnostic { kind: DiagnosticKind::MissingDirectiveDefinitionLocations, vars, spans };
        assert(d.vars() =~= Seq::<Seq<char>>::empty());
        d
    }

    /// (E0057) Directive definition must have one or more locations.
    pub fn missing_first_directive_location(span: Span) -> (d: Diagnostic)
        ensures
            d.wf(),
            d.kind() == DiagnosticKind::MissingFirstDirectiveLocation,
            d.spans() == seq![span],
            d.vars() == Seq::<Seq<char>>::empty(),
    {
        let mut vars: Vec<String> = Vec::new();
        let mut spans: Vec<Span> = Vec::new();
        spans.push(span);
        let d = Diagnostic { kind: DiagnosticKind::MissingFirstDirectiveLocation, vars, spans };
        assert(d.vars() =~= Seq::<Seq<char>>::empty());
        d
    }

    /// (E0058) Directive location must be defined.
    pub fn missing_second_directive_location(span: Span) -> (d: Diagnostic)
        ensures
            d.wf(),
            d.kind() == DiagnosticKind::MissingSecondDirectiveLocation,
            d.spans() == seq![span],
            d.vars() == Seq::<Seq<char>>::empty(),
    {
        let mut vars: Vec<String> = Vec::new();
        let mut spans: Vec<Span> = Vec::new();
        spans.push(span);
        let d = Diagnostic { kind: DiagnosticKind::MissingSecondDirectiveLocation, vars, spans };
        assert(d.vars() =~= Seq::<Seq<char>>::empty());
        d
    }

    /// (E0100) Named type must exist.
    pub fn unknown_named_type(name: String, span: Span) -> (d: Diagnostic)
        ensures
            d.wf(),
            d.kind() == DiagnosticKind::UnknownNamedType,
            d.spans() == seq![span],
            d.vars() == seq![name@],
    {
        let mut vars: Vec<String> = Vec::new();
        vars.push(name);
        let mut spans: Vec<Span> = Vec::new();
        spans.push(span);
        let d = Diagnostic { kind: DiagnosticKind::UnknownNamedType, vars, spans };
        assert(d.vars() =~= seq![d.vars@[0]@]);
        d
    }

    /// (E0101) Type must define one or more fields.
    pub fn empty_type(name: String, span: Span) -> (d: Diagnostic)
        ensures
            d.wf(),
            d.kind() == DiagnosticKind::EmptyType,
            d.spans() == seq![span],
            d.vars() == seq![name@],
    {
        let mut vars: Vec<String> = Vec::new();
        vars.push(name);
        let mut spans: Vec<Span> = Vec::new();
        spans.push(span);
        let d = Diagnostic { kind: DiagnosticKind::EmptyType, vars, spans };
        assert(d.vars() =~= seq![d.vars@[0]@]);
        d
    }

    /// (E0102) Field name must be unique.
    pub fn duplicate_field(field: String, first: Span, second: Span) -> (d: Diagnostic)
        ensures
            d.wf(),
            d.kind() == DiagnosticKind::DuplicateField,
            d.spans() == seq![first, second],
            d.vars() == seq![field@],
    {
        let mut vars: Vec<String> = Vec::new();
        vars.push(field);
        let mut spans: Vec<Span> = Vec::new();
        spans.push(first);
        spans.push(second);
        let d = Diagnostic { kind: DiagnosticKind::DuplicateField, vars, spans };
        assert(d.vars() =~= seq![d.vars@[0]@]);
        d
    }

    /// (E0103) Field name must be unique across extended types.
    pub fn duplicate_extended_field(name: String, field: String, first: Span, extension: Span, second: Span) -> (d: Diagnostic)
        ensures
            d.wf(),
            d.kind() == DiagnosticKind::DuplicateExtendedField,
            d.spans() == seq![first, extension, second],
            d.vars() == seq![name@, field@],
    {
        let mut vars: Vec<String> = Vec::new();
        vars.push(name);
        vars.push(field);
        let mut spans: Vec<Span> = Vec::new();
        spans.push(first);
        spans.push(extension);
        spans.push(second);
        let d = Diagnostic { kind: DiagnosticKind::DuplicateExtendedField, vars, spans };
        assert(d.vars() =~= seq![d.vars@[0]@, d.vars@[1]@]);
        d
    }

    /// (E0104) Field name must not start with `__`.
    pub fn reserved_field_name(name: String, span: Span) -> (d: Diagnostic)
        ensures
            d.wf(),
            d.kind() == DiagnosticKind::ReservedFieldName,
            d.spans() == seq![span],
            d.vars() == seq![name@],
    {
        let mut vars: Vec<String> = Vec::new();
        vars.push(name);
        let mut spans: Vec<Span> = Vec::new();
        spans.push(span);
        let d = Diagnostic { kind: DiagnosticKind::ReservedFieldName, vars, spans };
        assert(d.vars() =~= seq![d.vars@[0]@]);
        d
    }

    /// (E0105) Field must be output type.
    pub fn field_not_output_type(name: String, ty: String, span: Span) -> (d: Diagnostic)
        ensures
            d.wf(),
            d.kind() == DiagnosticKind::FieldNotOutputType,
            d.spans() == seq![span],
            d.vars() == seq![name@, ty@],
    {
        let mut vars: Vec<String> = Vec::new();
        vars.push(name);
        vars.push(ty);
        let mut spans: Vec<Span> = Vec::new();
        spans.push(span);
        let d = Diagnostic { kind: DiagnosticKind::FieldNotOutputType, vars, spans };
        assert(d.vars() =~= seq![d.vars@[0]@, d.vars@[1]@]);
        d
    }

    /// (E0106) Argument name must be unique.
    pub fn duplicate_argument_name(name: String, first: Span, second: Span) -> (d: Diagnostic)
        ensures
            d.wf(),
            d.kind() == DiagnosticKind::DuplicateArgumentName,
            d.spans() == seq![first, second],
            d.vars() == seq![name@],
    {
        let mut vars: Vec<String> = Vec::new();
        vars.push(name);
        let mut spans: Vec<Span> = Vec::new();
        spans.push(first);
        spans.push(second);
        let d = Diagnostic { kind: DiagnosticKind::DuplicateArgumentName, vars, spans };
        assert(d.vars() =~= seq![d.vars@[0]@]);
        d
    }

    /// (E0107) Input value name must not start with `__`.
    pub fn reserved_input_value_name(name: String, span: Span) -> (d: Diagnostic)
        ensures
            d.wf(),
            d.kind() == DiagnosticKind::ReservedInputValueName,
            d.spans() == seq![span],
            d.vars() == seq![name@],
    {
        let mut vars: Vec<String> = Vec::new();
        vars.push(name);
        let mut spans: Vec<Span> = Vec::new();
        spans.push(span);
        let d = Diagnostic { kind: DiagnosticKind::ReservedInputValueName, vars, spans };
        assert(d.vars() =~= seq![d.vars@[0]@]);
        d
    }

    /// (E0108) Input value must be input type.
    pub fn input_value_not_input_type(name: String, ty: String, span: Span) -> (d: Diagnostic)
        ensures
            d.wf(),
            d.kind() == DiagnosticKind::InputValueNotInputType,
            d.spans() == seq![span],
            d.vars() == seq![name@, ty@],
    {
        let mut vars: Vec<String> = Vec::new();
        vars.push(name);
        vars.push(ty);
        let mut spans: Vec<Span> = Vec::new();
        spans.push(span);
        let d = Diagnostic { kind: DiagnosticKind::InputValueNotInputType, vars, spans };
        assert(d.vars() =~= seq![d.vars@[0]@, d.vars@[1]@]);
        d
    }

    /// (E0109) Type must not implement same interface twice.
    pub fn duplicate_implements_interface(name: String, interface: String, first: Span, second: Span) -> (d: Diagnostic)
        ensures
            d.wf(),
            d.kind() == DiagnosticKind::DuplicateImplementsInterface,
            d.spans() == seq![first, second],
            d.vars() == seq![name@, interface@],
    {
        let mut vars: Vec<String> = Vec::new();
        vars.push(name);
        vars.push(interface);
        let mut spans: Vec<Span> = Vec::new();
        spans.push(first);
        spans.push(second);
        let d = Diagnostic { kind: DiagnosticKind::DuplicateImplementsInterface, vars, spans };
        assert(d.vars() =~= seq![d.vars@[0]@, d.vars@[1]@]);
        d
    }

    /// (E0110) Implemented type must be interface.
    pub fn implements_non_interface_type(name: String, interface: String, span: Span) -> (d: Diagnostic)
        ensures
            d.wf(),
            d.kind() == DiagnosticKind::ImplementsNonInterfaceType,
            d.spans() == seq![span],
            d.vars() == seq![name@, interface@],
    {
        let mut vars: Vec<String> = Vec::new();
        vars.push(name);
        vars.push(interface);
        let mut spans: Vec<Span> = Vec::new();
        spans.push(span);
        let d = Diagnostic { kind: DiagnosticKind::ImplementsNonInterfaceType, vars, spans };
        assert(d.vars() =~= seq![d.vars@[0]@, d.vars@[1]@]);
        d
    }

    /// (E0111) Type must also implement inherited interfaces.
    pub fn missing_inherited_interface(name: String, interface: String, inherited: String, span: Span) -> (d: Diagnostic)
        ensures
            d.wf(),
            d.kind() == DiagnosticKind::MissingInheritedInterface,
            d.spans() == seq![span],
            d.vars() == seq![name@, interface@, inherited@],
    {
        let mut vars: Vec<String> = Vec::new();
        vars.push(name);
        vars.push(interface);
        vars.push(inherited);
        let mut spans: Vec<Span> = Vec::new();
        spans.push(span);
        let d = Diagnostic { kind: DiagnosticKind::MissingInheritedInterface, vars, spans };
        assert(d.vars() =~= seq![d.vars@[0]@, d.vars@[1]@, d.vars@[2]@]);
        d
    }

    /// (E0112) Type must implement field from interface.
    pub fn missing_interface_field(name: String, interface: String, field: String, span: Span) -> (d: Diagnostic)
        ensures
            d.wf(),
            d.kind() == DiagnosticKind::MissingInterfaceField,
            d.spans() == seq![span],
            d.vars() == seq![name@, interface@, field@],
    {
        let mut vars: Vec<String> = Vec::new();
        vars.push(name);
        vars.push(interface);
        vars.push(field);
        let mut spans: Vec<Span> = Vec::new();
        spans.push(span);
        let d = Diagnostic { kind: DiagnosticKind::MissingInterfaceField, vars, spans };
        assert(d.vars() =~= seq![d.vars@[0]@, d.vars@[1]@, d.vars@[2]@]);
        d
    }

    /// (E0113) Type must implement field with argument from interface.
    pub fn missing_interface_field_argument(name: String, interface: String, field: String, argument: String, span: Span) -> (d: Diagnostic)
        ensures
            d.wf(),
            d.kind() == DiagnosticKind::MissingInterfaceFieldArgument,
            d.spans() == seq![span],
            d.vars() == seq![name@, interface@, field@, argument@],
    {
        let mut vars: Vec<String> = Vec::new();
        vars.push(name);
        vars.push(interface);
        vars.push(field);
        vars.push(argument);
        let mut spans: Vec<Span> = Vec::new();
        spans.push(span);
        let d = Diagnostic { kind: DiagnosticKind::MissingInterfaceFieldArgument, vars, spans };
        assert(d.vars() =~= seq![d.vars@[0]@, d.vars@[1]@, d.vars@[2]@, d.vars@[3]@]);
        d
    }

    /// (E0114) Type must implement field with argument of same type as interface.
    pub fn invalid_interface_field_argument_type(name: String, interface: String, field: String, argument: String, expected: String, ty: String, span: Span) -> (d: Diagnostic)
        ensures
            d.wf(),
            d.kind() == DiagnosticKind::InvalidInterfaceFieldArgumentType,
            d.spans() == seq![span],
            d.vars() == seq![name@, interface@, field@, argument@, expected@, ty@],
    {
        let mut vars: Vec<String> = Vec::new();
        vars.push(name);
        vars.push(interface);
        vars.push(field);
        vars.push(argument);
        vars.push(expected);
        vars.push(ty);
        let mut spans: Vec<Span> = Vec::new();
        spans.push(span);
        let d = Diagnostic { kind: DiagnosticKind::InvalidInterfaceFieldArgumentType, vars, spans };
        assert(d.vars() =~= seq![d.vars@[0]@, d.vars@[1]@, d.vars@[2]@, d.vars@[3]@, d.vars@[4]@, d.vars@[5]@]);
        d
    }

    /// (E0115) Type must not require extra arguments for fields implementing interface.
    pub fn unexpected_non_null_extra_interface_field_argument(name: String, interface: String, field: String, argument: String, ty: String, span: Span) -> (d: Diagnostic)
        ensures
            d.wf(),
            d.kind() == DiagnosticKind::UnexpectedNonNullExtraInterfaceFieldArgument,
            d.spans() == seq![span],
            d.vars() == seq![name@, interface@, field@, argument@, ty@],
    {
        let mut vars: Vec<String> = Vec::new();
        vars.push(name);
        vars.push(interface);
        vars.push(field);
        vars.push(argument);
        vars.push(ty);
        let mut spans: Vec<Span> = Vec::new();
        spans.push(span);
        let d = Diagnostic { kind: DiagnosticKind::UnexpectedNonNullExtraInterfaceFieldArgument, vars, spans };
        assert(d.vars() =~= seq![d.vars@[0]@, d.vars@[1]@, d.vars@[2]@, d.vars@[3]@, d.vars@[4]@]);
        d
    }

    /// (E0116) Implemented type and type from interface must be covariant.
    pub fn non_covariant_interface_field(name: String, interface: String, field: String, expected: String, ty: String, span: Span) -> (d: Diagnostic)
        ensures
            d.wf(),
            d.kind() == DiagnosticKind::NonCovariantInterfaceField,
            d.spans() == seq![span],
            d.vars() == seq![name@, interface@, field@, expected@, ty@],
    {
        let mut vars: Vec<String> = Vec::new();
        vars.push(name);
        vars.push(interface);
        vars.push(field);
        vars.push(expected);
        vars.push(ty);
        let mut spans: Vec<Span> = Vec::new();
        spans.push(span);
        let d = Diagnostic { kind: DiagnosticKind::NonCovariantInterfaceField, vars, spans };
        assert(d.vars() =~= seq![d.vars@[0]@, d.vars@[1]@, d.vars@[2]@, d.vars@[3]@, d.vars@[4]@]);
        d
    }

    /// (E0117) Interface must not implement itself.
    pub fn self_referential_interface(name: String, span: Span) -> (d: Diagnostic)
        ensures
            d.wf(),
            d.kind() == DiagnosticKind::SelfReferentialInterface,
            d.spans() == seq![span],
            d.vars() == seq![name@],
    {
        let mut vars: Vec<String> = Vec::new();
        vars.push(name);
        let mut spans: Vec<Span> = Vec::new();
        spans.push(span);
        let d = Diagnostic { kind: DiagnosticKind::SelfReferentialInterface, vars, spans };
        assert(d.vars() =~= seq![d.vars@[0]@]);
        d
    }

    /// (E0118) Union must have at least one member type.
    pub fn missing_union_members(name: String, span: Span) -> (d: Diagnostic)
        ensures
            d.wf(),
            d.kind() == DiagnosticKind::MissingUnionMembers,
            d.spans() == seq![span],
            d.vars() == seq![name@],
    {
        let mut vars: Vec<String> = Vec::new();
        vars.push(name);
        let mut spans: Vec<Span> = Vec::new();
        spans.push(span);
        let d = Diagnostic { kind: DiagnosticKind::MissingUnionMembers, vars, spans };
        assert(d.vars() =~= seq![d.vars@[0]@]);
        d
    }

    /// (E0119) Union members must be unique.
    pub fn duplicate_union_member(name: String, first: Span, second: Span) -> (d: Diagnostic)
        ensures
            d.wf(),
            d.kind() == DiagnosticKind::DuplicateUnionMember,
            d.spans() == seq![first, second],
            d.vars() == seq![name@],
    {
        let mut vars: Vec<String> = Vec::new();
        vars.push(name);
        let mut spans: Vec<Span> = Vec::new();
        spans.push(first);
        spans.push(second);
        let d = Diagnostic { kind: DiagnosticKind::DuplicateUnionMember, vars, spans };
        assert(d.vars() =~= seq![d.vars@[0]@]);
        d
    }

    /// (E0120) Union members must be object types.
    pub fn non_object_union_member(name: String, span: Span) -> (d: Diagnostic)
        ensures
            d.wf(),
            d.kind() == DiagnosticKind::NonObjectUnionMember,
            d.spans() == seq![span],
            d.vars() == seq![name@],
    {
        let mut vars: Vec<String> = Vec::new();
        vars.push(name);
        let mut spans: Vec<Span> = Vec::new();
        spans.push(span);
        let d = Diagnostic { kind: DiagnosticKind::NonObjectUnionMember, vars, spans };
        assert(d.vars() =~= seq![d.vars@[0]@]);
        d
    }

    /// (E0121) Enum must have at least one value.
    pub fn missing_enum_values(name: String, span: Span) -> (d: Diagnostic)
        ensures
            d.wf(),
            d.kind() == DiagnosticKind::MissingEnumValues,
            d.spans() == seq![span],
            d.vars() == seq![name@],
    {
        let mut vars: Vec<String> = Vec::new();
        vars.push(name);
        let mut spans: Vec<Span> = Vec::new();
        spans.push(span);
        let d = Diagnostic { kind: DiagnosticKind::MissingEnumValues, vars, spans };
        assert(d.vars() =~= seq![d.vars@[0]@]);
        d
    }

    /// (E0122) Enum values must be unique.
    pub fn duplicate_enum_value(name: String, first: Span, second: Span) -> (d: Diagnostic)
        ensures
            d.wf(),
            d.kind() == DiagnosticKind::DuplicateEnumValue,
            d.spans() == seq![first, second],
            d.vars() == seq![name@],
    {
        let mut vars: Vec<String> = Vec::new();
        vars.push(name);
        let mut spans: Vec<Span> = Vec::new();
        spans.push(first);
        spans.push(second);
        let d = Diagnostic { kind: DiagnosticKind::DuplicateEnumValue, vars, spans };
        assert(d.vars() =~= seq![d.vars@[0]@]);
        d
    }

    /// (E0123) Input type must not be self-referential.
    pub fn self_referential_input_type(name: String, field: String, ty: String, span: Span) -> (d: Diagnostic)
        ensures
            d.wf(),
            d.kind() == DiagnosticKind::SelfReferentialInputType,
            d.spans() == seq![span],
            d.vars() == seq![name@, field@, ty@],
    {
        let mut vars: Vec<String> = Vec::new();
        vars.push(name);
        vars.push(field);
        vars.push(ty);
        let mut spans: Vec<Span> = Vec::new();
        spans.push(span);
        let d = Diagnostic { kind: DiagnosticKind::SelfReferentialInputType, vars, spans };
        assert(d.vars() =~= seq![d.vars@[0]@, d.vars@[1]@, d.vars@[2]@]);
        d
    }

    /// (E0124) Directive name must not start with `__`.
    pub fn reserved_directive_name(name: String, span: Span) -> (d: Diagnostic)
        ensures
            d.wf(),
            d.kind() == DiagnosticKind::ReservedDirectiveName,
            d.spans() == seq![span],
            d.vars() == seq![name@],
    {
        let mut vars: Vec<String> = Vec::new();
        vars.push(name);
        let mut spans: Vec<Span> = Vec::new();
        spans.push(span);
        let d = Diagnostic { kind: DiagnosticKind::ReservedDirectiveName, vars, spans };
        assert(d.vars() =~= seq![d.vars@[0]@]);
        d
    }

    /// (E0125) Directive must not be self-referential.
    pub fn self_referential_directive(name: String, directive: String, span: Span) -> (d: Diagnostic)
        ensures
            d.wf(),
            d.kind() == DiagnosticKind::SelfReferentialDirective,
            d.spans() == seq![span],
            d.vars() == seq![name@, directive@],
    {
        let mut vars: Vec<String> = Vec::new();
        vars.push(name);
        vars.push(directive);
        let mut spans: Vec<Span> = Vec::new();
        spans.push(span);
        let d = Diagnostic { kind: DiagnosticKind::SelfReferentialDirective, vars, spans };
        assert(d.vars() =~= seq![d.vars@[0]@, d.vars@[1]@]);
        d
    }

    /// (E0126) Type name must be unique.
    pub fn duplicate_type_name(name: String, first: Span, second: Span) -> (d: Diagnostic)
        ensures
            d.wf(),
            d.kind() == DiagnosticKind::DuplicateTypeName,
            d.spans() == seq![first, second],
            d.vars() == seq![name@],
    {
        let mut vars: Vec<String> = Vec::new();
        vars.push(name);
        let mut spans: Vec<Span> = Vec::new();
        spans.push(first);
        spans.push(second);
        let d = Diagnostic { kind: DiagnosticKind::DuplicateTypeName, vars, spans };
        assert(d.vars() =~= seq![d.vars@[0]@]);
        d
    }

    /// (E0126) Directive name must be unique.
    pub fn duplicate_directive_name(name: String, first: Span, second: Span) -> (d: Diagnostic)
        ensures
            d.wf(),
            d.kind() == DiagnosticKind::DuplicateDirectiveName,
            d.spans() == seq![first, second],
            d.vars() == seq![name@],
    {
        let mut vars: Vec<String> = Vec::new();
        vars.push(name);
        let mut spans: Vec<Span> = Vec::new();
        spans.push(first);
        spans.push(second);
        let d = Diagnostic { kind: DiagnosticKind::DuplicateDirectiveName, vars, spans };
        assert(d.vars() =~= seq![d.vars@[0]@]);
        d
    }

    /// (E0127) Type extension must extend type of same kind.
    pub fn different_extension_type(name: String, first_type: String, second_type: String, first: Span, second: Span) -> (d: Diagnostic)
        ensures
            d.wf(),
            d.kind() == DiagnosticKind::DifferentExtensionType,
            d.spans() == seq![first, second],
            d.vars() == seq![name@, first_type@, second_type@],
    {
        let mut vars: Vec<String> = Vec::new();
        vars.push(name);
        vars.push(first_type);
        vars.push(second_type);
        let mut spans: Vec<Span> = Vec::new();
        spans.push(first);
        spans.push(second);
        let d = Diagnostic { kind: DiagnosticKind::DifferentExtensionType, vars, spans };
        assert(d.vars() =~= seq![d.vars@[0]@, d.vars@[1]@, d.vars@[2]@]);
        d
    }

    /// (E0200) Expected a non-null value.
    pub fn expected_non_null_value(ty: String, span: Span) -> (d: Diagnostic)
        ensures
            d.wf(),
            d.kind() == DiagnosticKind::ExpectedNonNullValue,
            d.spans() == seq![span],
            d.vars() == seq![ty@],
    {
        let mut vars: Vec<String> = Vec::new();
        vars.push(ty);
        let mut spans: Vec<Span> = Vec::new();
        spans.push(span);
        let d = Diagnostic { kind: DiagnosticKind::ExpectedNonNullValue, vars, spans };
        assert(d.vars() =~= seq![d.vars@[0]@]);
        d
    }

    /// (E0201) Expected a list value.
    pub fn expected_list_value(ty: String, span: Span) -> (d: Diagnostic)
        ensures
            d.wf(),
            d.kind() == DiagnosticKind::ExpectedListValue,
            d.spans() == seq![span],
            d.vars() == seq![ty@],
    {
        let mut vars: Vec<String> = Vec::new();
        vars.push(ty);
        let mut spans: Vec<Span> = Vec::new();
        spans.push(span);
        let d = Diagnostic { kind: DiagnosticKind::ExpectedListValue, vars, spans };
        assert(d.vars() =~= seq![d.vars@[0]@]);
        d
    }

    /// (E0202) Expected an int value.
    pub fn expected_int_value(ty: String, span: Span) -> (d: Diagnostic)
        ensures
            d.wf(),
            d.kind() == DiagnosticKind::ExpectedIntValue,
            d.spans() == seq![span],
            d.vars() == seq![ty@],
    {
        let mut vars: Vec<String> = Vec::new();
        vars.push(ty);
        let mut spans: Vec<Span> = Vec::new();
        spans.push(span);
        let d = Diagnostic { kind: DiagnosticKind::ExpectedIntValue, vars, spans };
        assert(d.vars() =~= seq![d.vars@[0]@]);
        d
    }

    /// (E0203) Expected a float value.
    pub fn expected_float_value(ty: String, span: Span) -> (d: Diagnostic)
        ensures
            d.wf(),
            d.kind() == DiagnosticKind::ExpectedFloatValue,
            d.spans() == seq![span],
            d.vars() == seq![ty@],
    {
        let mut vars: Vec<String> = Vec::new();
        vars.push(ty);
        let mut spans: Vec<Span> = Vec::new();
        spans.push(span);
        let d = Diagnostic { kind: DiagnosticKind::ExpectedFloatValue, vars, spans };
        assert(d.vars() =~= seq![d.vars@[0]@]);
        d
    }

    /// (E0204) Expected a string value.
    pub fn expected_string_value(ty: String, span: Span) -> (d: Diagnostic)
        ensures
            d.wf(),
            d.kind() == DiagnosticKind::ExpectedStringValue,
            d.spans() == seq![span],
            d.vars() == seq![ty@],
    {
        let mut vars: Vec<String> = Vec::new();
        vars.push(ty);
        let mut spans: Vec<Span> = Vec::new();
        spans.push(span);
        let d = Diagnostic { kind: DiagnosticKind::ExpectedStringValue, vars, spans };
        assert(d.vars() =~= seq![d.vars@[0]@]);
        d
    }

    /// (E0205) Expected a boolean value.
    pub fn expected_boolean_value(ty: String, span: Span) -> (d: Diagnostic)
        ensures
            d.wf(),
            d.kind() == DiagnosticKind::ExpectedBooleanValue,
            d.spans() == seq![span],
            d.vars() == seq![ty@],
    {
        let mut vars: Vec<String> = Vec::new();
        vars.push(ty);
        let mut spans: Vec<Span> = Vec::new();
        spans.push(span);
        let d = Diagnostic { kind: DiagnosticKind::ExpectedBooleanValue, vars, spans };
        assert(d.vars() =~= seq![d.vars@[0]@]);
        d
    }

    /// (E0206) Expected an input object value.
    pub fn expected_input_object_value(ty: String, span: Span) -> (d: Diagnostic)
        ensures
            d.wf(),
            d.kind() == DiagnosticKind::ExpectedInputObjectValue,
            d.spans() == seq![span],
            d.vars() == seq![ty@],
    {
        let mut vars: Vec<String> = Vec::new();
        vars.push(ty);
        let mut spans: Vec<Span> = Vec::new();
        spans.push(span);
        let d = Diagnostic { kind: DiagnosticKind::ExpectedInputObjectValue, vars, spans };
        assert(d.vars() =~= seq![d.vars@[0]@]);
        d
    }

    /// (E0207) Expected a value for required input field.
    pub fn missing_input_field(name: String, ty: String, span: Span) -> (d: Diagnostic)
        ensures
            d.wf(),
            d.kind() == DiagnosticKind::MissingInputField,
            d.spans() == seq![span],
            d.vars() == seq![name@, ty@],
    {
        let mut vars: Vec<String> = Vec::new();
        vars.push(name);
        vars.push(ty);
        let mut spans: Vec<Span> = Vec::new();
        spans.push(span);
        let d = Diagnostic { kind: DiagnosticKind::MissingInputField, vars, spans };
        assert(d.vars() =~= seq![d.vars@[0]@, d.vars@[1]@]);
        d
    }

    /// (E0208) All fields in input object must exist in schema definition.
    pub fn unrecognized_input_field(name: String, ty: String, span: Span) -> (d: Diagnostic)
        ensures
            d.wf(),
            d.kind() == DiagnosticKind::UnrecognizedInputField,
            d.spans() == seq![span],
            d.vars() == seq![name@, ty@],
    {
        let mut vars: Vec<String> = Vec::new();
        vars.push(name);
        vars.push(ty);
        let mut spans: Vec<Span> = Vec::new();
        spans.push(span);
        let d = Diagnostic { kind: DiagnosticKind::UnrecognizedInputField, vars, spans };
        assert(d.vars() =~= seq![d.vars@[0]@, d.vars@[1]@]);
        d
    }

    /// (E0209) Enum values must exist in schema definition.
    pub fn unrecognized_enum_value(name: String, value: String, span: Span) -> (d: Diagnostic)
        ensures
            d.wf(),
            d.kind() == DiagnosticKind::UnrecognizedEnumValue,
            d.spans() == seq![span],
            d.vars() == seq![name@, value@],
    {
        let mut vars: Vec<String> = Vec::new();
        vars.push(name);
        vars.push(value);
        let mut spans: Vec<Span> = Vec::new();
        spans.push(span);
        let d = Diagnostic { kind: DiagnosticKind::UnrecognizedEnumValue, vars, spans };
        assert(d.vars() =~= seq![d.vars@[0]@, d.vars@[1]@]);
        d
    }

    /// (E0300) Operation definitions must be unique.
    pub fn duplicate_operation_name(name: String, first: Span, second: Span) -> (d: Diagnostic)
        ensures
            d.wf(),
            d.kind() == DiagnosticKind::DuplicateOperationName,
            d.spans() == seq![first, second],
            d.vars() == seq![name@],
    {
        let mut vars: Vec<String> = Vec::new();
        vars.push(name);
        let mut spans: Vec<Span> = Vec::new();
        spans.push(first);
        spans.push(second);
        let d = Diagnostic { kind: DiagnosticKind::DuplicateOperationName, vars, spans };
        assert(d.vars() =~= seq![d.vars@[0]@]);
        d
    }

    /// (E0301) Anonymous operation definitions must be alone.
    pub fn lone_anonymous_operation(span: Span) -> (d: Diagnostic)
        ensures
            d.wf(),
            d.kind() == DiagnosticKind::LoneAnonymousOperation,
            d.spans() == seq![span],
            d.vars() == Seq::<Seq<char>>::empty(),
    {
        let mut vars: Vec<String> = Vec::new();
        let mut spans: Vec<Span> = Vec::new();
        spans.push(span);
        let d = Diagnostic { kind: DiagnosticKind::LoneAnonymousOperation, vars, spans };
        assert(d.vars() =~= Seq::<Seq<char>>::empty());
        d
    }

    /// (E0303) Queried field does not exist.
    pub fn undefined_field(ty: String, field: String, span: Span) -> (d: Diagnostic)
        ensures
            d.wf(),
            d.kind() == DiagnosticKind::UndefinedField,
            d.spans() == seq![span],
            d.vars() == seq![ty@, field@],
    {
        let mut vars: Vec<String> = Vec::new();
        vars.push(ty);
        vars.push(field);
        let mut spans: Vec<Span> = Vec::new();
        spans.push(span);
        let d = Diagnostic { kind: DiagnosticKind::UndefinedField, vars, spans };
        assert(d.vars() =~= seq![d.vars@[0]@, d.vars@[1]@]);
        d
    }

}

/// The texts of the labels of a diagnostic of `kind` naming `vars`.
fn label_strings(kind: DiagnosticKind, vars: &Vec<String>) -> (texts: Vec<String>)
    requires
        vars@.len() == var_count(kind),
    ensures
        texts@.len() == label_texts(kind, vars@.map_values(|v: String| v@)).len(),
        forall|i: int| 0 <= i < texts@.len() ==> #[trigger] texts@[i]@ == label_texts(kind, vars@.map_values(|v: String| v@))[i],
{
    let ghost vs = vars@.map_values(|v: String| v@);
    let mut texts: Vec<String> = Vec::new();
    match kind {
        DiagnosticKind::UnrecognizedTokens => {
            let mut text = String::new();
            text.append("Couldn't recognize these tokens here.");
            assert(text@ =~= "Couldn't recognize these tokens here."@);
            texts.push(text);
        },
        DiagnosticKind::MissingOperationDefinitionName => {
            let mut text = String::new();
            text.append("Expected a name for operation definition here.");
            assert(text@ =~= "Expected a name for operation definition here."@);
            texts.push(text);
        },
        DiagnosticKind::MissingOperationDefinitionSelectionSet => {
            let mut text = String::new();
            text.append("Expected a selection set for operation definition here.");
            assert(text@ =~= "Expected a selection set for operation definition here."@);
            texts.push(text);
        },
        DiagnosticKind::MissingSelectionSetClosingBrace => {
            let mut text = String::new();
            text.append("This `{` here ...");
            assert(text@ =~= "This `{` here ..."@);
            texts.push(text);
            let mut text = String::new();
            text.append("... should have a matching `}` here.");
            assert(text@ =~= "... should have a matching `}` here."@);
            texts.push(text);
        },
        DiagnosticKind::MissingFieldName => {
            let mut text = String::new();
            text.append("Missing name of this field here.");
            assert(text@ =~= "Missing name of this field here."@);
            texts.push(text);
        },
        DiagnosticKind::MissingArgumentsClosingParentheses => {
            let mut text = String::new();
            text.append("This `(` here ...");
            assert(text@ =~= "This `(` here ..."@);
            texts.push(text);
            let mut text = String::new();
            text.append("... should have a matching `)` here.");
            assert(text@ =~= "... should have a matching `)` here."@);
            texts.push(text);
        },
        DiagnosticKind::MissingArgumentColon => {
            let mut text = String::new();
            text.append("Argument should have a colon here.");
            assert(text@ =~= "Argument should have a colon here."@);
            texts.push(text);
        },
        DiagnosticKind::MissingArgumentValue => {
            let mut text = String::new();
            text.append("Argument should have a value here.");
            assert(text@ =~= "Argument should have a value here."@);
            texts.push(text);
        },
        DiagnosticKind::MissingInlineFragmentSelectionSet => {
            let mut text = String::new();
            text.append("Inline fragment here should have a selection set.");
            assert(text@ =~= "Inline fragment here should have a selection set."@);
            texts.push(text);
        },
        DiagnosticKind::MissingFragmentName => {
            let mut text = String::new();
            text.append("Fragment definition here does not have a name.");
            assert(text@ =~= "Fragment definition here does not have a name."@);
            texts.push(text);
        },
        DiagnosticKind::MissingFragmentTypeCondition => {
            let mut text = String::new();
            text.append("Fragment definition here does not have a type condition.");
            assert(text@ =~= "Fragment definition here does not have a type condition."@);
            texts.push(text);
        },
        DiagnosticKind::MissingFragmentSelectionSet => {
            let mut text = String::new();
            text.append("Fragment definition here does not have a selection set.");
            assert(text@ =~= "Fragment definition here does not have a selection set."@);
            texts.push(text);
        },
        DiagnosticKind::MissingTypeConditionNamedType => {
            let mut text = String::new();
            text.append("Type condition here does not have a named type.");
            assert(text@ =~= "Type condition here does not have a named type."@);
            texts.push(text);
        },
        DiagnosticKind::MissingListValueClosingBracket => {
            let mut text = String::new();
            text.append("This `[` here ...");
            assert(text@ =~= "This `[` here ..."@);
            texts.push(text);
            let mut text = String::new();
            text.append("... should have a matching `]` here.");
            assert(text@ =~= "... should have a matching `]` here."@);
            texts.push(text);
        },
        DiagnosticKind::MissingObjectValueClosingBrace => {
            let mut text = String::new();
            text.append("This `{` here ...");
            assert(text@ =~= "This `{` here ..."@);
            texts.push(text);
            let mut text = String::new();
            text.append("... should have a matching `}` here.");
            assert(text@ =~= "... should have a matching `}` here."@);
            texts.push(text);
        },
        DiagnosticKind::MissingObjectFieldColon => {
            let mut text = String::new();
            text.append("This object field here is missing a colon.");
            assert(text@ =~= "This object field here is missing a colon."@);
            texts.push(text);
        },
        DiagnosticKind::MissingObjectFieldValue => {
            let mut text = String::new();
            text.append("This object field here is missing a value.");
            assert(text@ =~= "This object field here is missing a value."@);
            texts.push(text);
        },
        DiagnosticKind::MissingVariableDefinitionsClosingParenthesis => {
            let mut text = String::new();
            text.append("This `(` here ...");
            assert(text@ =~= "This `(` here ..."@);
            texts.push(text);
            let mut text = String::new();
            text.append("... must have a matching `)` here.");
            assert(text@ =~= "... must have a matching `)` here."@);
            texts.push(text);
        },
        DiagnosticKind::MissingVariableDefinitionColon => {
            let mut text = String::new();
            text.append("This variable definition here is missing a colon.");
            assert(text@ =~= "This variable definition here is missing a colon."@);
            texts.push(text);
        },
        DiagnosticKind::MissingVariableDefinitionType => {
            let mut text = String::new();
            text.append("This variable definition here is missing a type.");
            assert(text@ =~= "This variable definition here is missing a type."@);
            texts.push(text);
        },
        DiagnosticKind::MissingDefaultValue => {
            let mut text = String::new();
            text.append("This default value here is missing a value.");
            assert(text@ =~= "This default value here is missing a value."@);
            texts.push(text);
        },
        DiagnosticKind::MissingListTypeClosingBracket => {
            let mut text = String::new();
            text.append("This `[` here ...");
            assert(text@ =~= "This `[` here ..."@);
            texts.push(text);
            let mut text = String::new();
            text.append("... must have a matching `]` here.");
            assert(text@ =~= "... must have a matching `]` here."@);
            texts.push(text);
        },
        DiagnosticKind::MissingListTypeWrappedType => {
            let mut text = String::new();
            text.append("This list type here is missing a wrapped type.");
            assert(text@ =~= "This list type here is missing a wrapped type."@);
            texts.push(text);
        },
        DiagnosticKind::MissingDirectiveName => {
            let mut text = String::new();
            text.append("This directive here is missing a name.");
            assert(text@ =~= "This directive here is missing a name."@);
            texts.push(text);
        },
        DiagnosticKind::MissingRootOperationTypeDefinitions => {
            let mut text = String::new();
            text.append("This schema definition doesn't define any root operation types.");
            assert(text@ =~= "This schema definition doesn't define any root operation types."@);
            texts.push(text);
        },
        DiagnosticKind::MissingRootOperationTypeDefinitionsClosingBrace => {
            let mut text = String::new();
            text.append("This `{` here ...");
            assert(text@ =~= "This `{` here ..."@);
            texts.push(text);
            let mut text = String::new();
            text.append("... should have a matching `}` here.");
            assert(text@ =~= "... should have a matching `}` here."@);
            texts.push(text);
        },
        DiagnosticKind::MissingRootOperationTypeDefinitionColon => {
            let mut text = String::new();
            text.append("This root operation type definition here is missing a colon.");
            assert(text@ =~= "This root operation type definition here is missing a colon."@);
            texts.push(text);
        },
        DiagnosticKind::MissingRootOperationTypeDefinitionNamedType => {
            let mut text = String::new();
            text.append("This root operation type definition here is missing a named type.");
            assert(text@ =~= "This root operation type definition here is missing a named type."@);
            texts.push(text);
        },
        DiagnosticKind::MissingScalarTypeDefinitionName => {
            let mut text = String::new();
            text.append("This scalar type definition here is missing a name.");
            assert(text@ =~= "This scalar type definition here is missing a name."@);
            texts.push(text);
        },
        DiagnosticKind::MissingScalarTypeExtensionName => {
            let mut text = String::new();
            text.append("This scalar type extension here is missing a name.");
            assert(text@ =~= "This scalar type extension here is missing a name."@);
            texts.push(text);
        },
        DiagnosticKind::MissingScalarTypeExtensionDirectives => {
            let mut text = String::new();
            text.append("This scalar type extension here is missing directives.");
            assert(text@ =~= "This scalar type extension here is missing directives."@);
            texts.push(text);
        },
        DiagnosticKind::MissingObjectTypeDefinitionName => {
            let mut text = String::new();
            text.append("This object type definition here is missing a name.");
            assert(text@ =~= "This object type definition here is missing a name."@);
            texts.push(text);
        },
        DiagnosticKind::MissingFirstImplementsInterface => {
            let mut text = String::new();
            text.append("This object type here implements an interface, but its name is missing.");
            assert(text@ =~= "This object type here implements an interface, but its name is missing."@);
            texts.push(text);
        },
        DiagnosticKind::MissingSecondImplementsInterface => {
            let mut text = String::new();
            text.append("This object type here implements another interface, but its name is missing.");
            assert(text@ =~= "This object type here implements another interface, but its name is missing."@);
            texts.push(text);
        },
        DiagnosticKind::MissingFieldsDefinitionClosingBrace => {
            let mut text = String::new();
            text.append("This `{` here ...");
            assert(text@ =~= "This `{` here ..."@);
            texts.push(text);
            let mut text = String::new();
            text.append("... must have a matching `}` here.");
            assert(text@ =~= "... must have a matching `}` here."@);
            texts.push(text);
        },
        DiagnosticKind::MissingFieldDefinitionColon => {
            let mut text = String::new();
            text.append("This field definition here is missing a colon.");
            assert(text@ =~= "This field definition here is missing a colon."@);
            texts.push(text);
        },
        DiagnosticKind::MissingFieldDefinitionType => {
            let mut text = String::new();
            text.append("This field definition here is missing a type.");
            assert(text@ =~= "This field definition here is missing a type."@);
            texts.push(text);
        },
        DiagnosticKind::MissingArgumentsDefinitionClosingParenthesis => {
            let mut text = String::new();
            text.append("This `(` here ...");
            assert(text@ =~= "This `(` here ..."@);
            texts.push(text);
            let mut text = String::new();
            text.append("... must have a matching `)` here.");
            assert(text@ =~= "... must have a matching `)` here."@);
            texts.push(text);
        },
        DiagnosticKind::MissingInputValueDefinitionColon => {
            let mut text = String::new();
            text.append("This input value definition here is missing a colon.");
            assert(text@ =~= "This input value definition here is missing a colon."@);
            texts.push(text);
        },
        DiagnosticKind::MissingInputValueDefinitionType => {
            let mut text = String::new();
            text.append("This input value definition here is missing a type.");
            assert(text@ =~= "This input value definition here is missing a type."@);
            texts.push(text);
        },
        DiagnosticKind::MissingObjectTypeExtensionName => {
            let mut text = String::new();
            text.append("This object type extension here is missing a name.");
            assert(text@ =~= "This object type extension here is missing a name."@);
            texts.push(text);
        },
        DiagnosticKind::MissingInterfaceTypeDefinitionName => {
            let mut text = String::new();
            text.append("This interface type definition here is missing a name.");
            assert(text@ =~= "This interface type definition here is missing a name."@);
            texts.push(text);
        },
        DiagnosticKind::MissingInterfaceTypeExtensionName => {
            let mut text = String::new();
            text.append("This interface type extension here is missing a name.");
            assert(text@ =~= "This interface type extension here is missing a name."@);
            texts.push(text);
        },
        DiagnosticKind::MissingUnionTypeDefinitionName => {
            let mut text = String::new();
            text.append("This union type definition here is missing a name.");
            assert(text@ =~= "This union type definition here is missing a name."@);
            texts.push(text);
        },
        DiagnosticKind::MissingFirstUnionMemberType => {
            let mut text = String::new();
            text.append("This union type definition here is missing a member type.");
            assert(text@ =~= "This union type definition here is missing a member type."@);
            texts.push(text);
        },
        DiagnosticKind::MissingSecondUnionMemberType => {
            let mut text = String::new();
            text.append("This union type definition here defines another member type but its name is missing.");
            assert(text@ =~= "This union type definition here defines another member type but its name is missing."@);
            texts.push(text);
        },
        DiagnosticKind::MissingUnionTypeExtensionName => {
            let mut text = String::new();
            text.append("This union type extension here is missing a name.");
            assert(text@ =~= "This union type extension here is missing a name."@);
            texts.push(text);
        },
        DiagnosticKind::MissingEnumTypeDefinitionName => {
            let mut text = String::new();
            text.append("This enum type definition here is missing a name.");
            assert(text@ =~= "This enum type definition here is missing a name."@);
            texts.push(text);
        },
        DiagnosticKind::MissingEnumValuesClosingBrace => {
            let mut text = String::new();
            text.append("This `{` here ...");
            assert(text@ =~= "This `{` here ..."@);
            texts.push(text);
            let mut text = String::new();
            text.append("... must have a matching `}` here.");
            assert(text@ =~= "... must have a matching `}` here."@);
            texts.push(text);
        },
        DiagnosticKind::MissingEnumTypeExtensionName => {
            let mut text = String::new();
            text.append("This enum type extension here is missing a name.");
            assert(text@ =~= "This enum type extension here is missing a name."@);
            texts.push(text);
        },
        DiagnosticKind::MissingInputObjectTypeDefinitionName => {
            let mut text = String::new();
            text.append("This input object type definition here is missing a name.");
            assert(text@ =~= "This input object type definition here is missing a name."@);
            texts.push(text);
        },
        DiagnosticKind::MissingInputFieldsDefinitionClosingBrace => {
            let mut text = String::new();
            text.append("This `{` here ...");
            assert(text@ =~= "This `{` here ..."@);
            texts.push(text);
            let mut text = String::new();
            text.append("... must have a `}` here.");
            assert(text@ =~= "... must have a `}` here."@);
            texts.push(text);
        },
        DiagnosticKind::MissingInputObjectTypeExtensionName => {
            let mut text = String::new();
            text.append("This input object type extension here is missing a name.");
            assert(text@ =~= "This input object type extension here is missing a name."@);
            texts.push(text);
        },
        DiagnosticKind::MissingDirectiveDefinitionAt => {
            let mut text = String::new();
            text.append("This directive's name here does not start with an `@`.");
            assert(text@ =~= "This directive's name here does not start with an `@`."@);
            texts.push(text);
        },
        DiagnosticKind::MissingDirectiveDefinitionName => {
            let mut text = String::new();
            text.append("This directive definition here is missing a name.");
            assert(text@ =~= "This directive definition here is missing a name."@);
            texts.push(text);
        },
        DiagnosticKind::MissingDirectiveDefinitionLocations => {
            let mut text = String::new();
            text.append("This directive definition here is missing locations.");
            assert(text@ =~= "This directive definition here is missing locations."@);
            texts.push(text);
        },
        DiagnosticKind::MissingFirstDirectiveLocation => {
            let mut text = String::new();
            text.append("This directive definition here is missing a location.");
            assert(text@ =~= "This directive definition here is missing a location."@);
            texts.push(text);
        },
        DiagnosticKind::MissingSecondDirectiveLocation => {
            let mut text = String::new();
            text.append("This directive definition here is missing a location.");
            assert(text@ =~= "This directive definition here is missing a location."@);
            texts.push(text);
        },
        DiagnosticKind::UnknownNamedType => {
            let mut text = String::new();
            text.append("Type `");
            text.append(vars[0].as_str());
            text.append("` is referenced to here but never defined.");
            assert(text@ =~= "Type `"@ + vs[0] + "` is referenced to here but never defined."@);
            texts.push(text);
        },
        DiagnosticKind::EmptyType => {
            let mut text = String::new();
            text.append("Type `");
            text.append(vars[0].as_str());
            text.append("` is defined here but the schema doesn't define any fields for it.");
            assert(text@ =~= "Type `"@ + vs[0] + "` is defined here but the schema doesn't define any fields for it."@);
            texts.push(text);
        },
        DiagnosticKind::DuplicateField => {
            let mut text = String::new();
            text.append("Field `");
            text.append(vars[0].as_str());
            text.append("` is first defined here ...");
            assert(text@ =~= "Field `"@ + vs[0] + "` is first defined here ..."@);
            texts.push(text);
            let mut text = String::new();
            text.append("... and later defines the same field again here.");
            assert(text@ =~= "... and later defines the same field again here."@);
            texts.push(text);
        },
        DiagnosticKind::DuplicateExtendedField => {
            let mut text = String::new();
            text.append("Type `");
            text.append(vars[0].as_str());
            text.append("` first defines field `");
            text.append(vars[1].as_str());
            text.append("` here, ...");
            assert(text@ =~= "Type `"@ + vs[0] + "` first defines field `"@ + vs[1] + "` here, ..."@);
            texts.push(text);
            let mut text = String::new();
            text.append("... gets extended here ...");
            assert(text@ =~= "... gets extended here ..."@);
            texts.push(text);
            let mut text = String::new();
            text.append("... and later defines the same field again here.");
            assert(text@ =~= "... and later defines the same field again here."@);
            texts.push(text);
        },
        DiagnosticKind::ReservedFieldName => {
            let mut text = String::new();
            text.append("Field `");
            text.append(vars[0].as_str());
            text.append("` is defined here and starts with `__`, which is reserved.");
            assert(text@ =~= "Field `"@ + vs[0] + "` is defined here and starts with `__`, which is reserved."@);
            texts.push(text);
        },
        DiagnosticKind::FieldNotOutputType => {
            let mut text = String::new();
            text.append("Field `");
            text.append(vars[0].as_str());
            text.append("` is defined here as type `");
            text.append(vars[1].as_str());
            text.append("`, which is an input type.");
            assert(text@ =~= "Field `"@ + vs[0] + "` is defined here as type `"@ + vs[1] + "`, which is an input type."@);
            texts.push(text);
        },
        DiagnosticKind::DuplicateArgumentName => {
            let mut text = String::new();
            text.append("Argument `");
            text.append(vars[0].as_str());
            text.append("` is first defined here ...");
            assert(text@ =~= "Argument `"@ + vs[0] + "` is first defined here ..."@);
            texts.push(text);
            let mut text = String::new();
            text.append("... and later defined again here.");
            assert(text@ =~= "... and later defined again here."@);
            texts.push(text);
        },
        DiagnosticKind::ReservedInputValueName => {
            let mut text = String::new();
            text.append("Input value `");
            text.append(vars[0].as_str());
            text.append("` is defined here and starts with `__`, which is reserved.");
            assert(text@ =~= "Input value `"@ + vs[0] + "` is defined here and starts with `__`, which is reserved."@);
            texts.push(text);
        },
        DiagnosticKind::InputValueNotInputType => {
            let mut text = String::new();
            text.append("Input value `");
            text.append(vars[0].as_str());
            text.append("` is defined here as type `");
            text.append(vars[1].as_str());
            text.append("`, which is an output type.");
            assert(text@ =~= "Input value `"@ + vs[0] + "` is defined here as type `"@ + vs[1] + "`, which is an output type."@);
            texts.push(text);
        },
        DiagnosticKind::DuplicateImplementsInterface => {
            let mut text = String::new();
            text.append("Type `");
            text.append(vars[0].as_str());
            text.append("` first implements interface `");
            text.append(vars[1].as_str());
            text.append("` here ...");
            assert(text@ =~= "Type `"@ + vs[0] + "` first implements interface `"@ + vs[1] + "` here ..."@);
            texts.push(text);
            let mut text = String::new();
            text.append("... and later implements the same interface again here.");
            assert(text@ =~= "... and later implements the same interface again here."@);
            texts.push(text);
        },
        DiagnosticKind::ImplementsNonInterfaceType => {
            let mut text = String::new();
            text.append("Type `");
            text.append(vars[0].as_str());
            text.append("` implements type `");
            text.append(vars[1].as_str());
            text.append("` here, but `");
            text.append(vars[1].as_str());
            text.append("` is not an interface.");
            assert(text@ =~= "Type `"@ + vs[0] + "` implements type `"@ + vs[1] + "` here, but `"@ + vs[1] + "` is not an interface."@);
            texts.push(text);
        },
        DiagnosticKind::MissingInheritedInterface => {
            let mut text = String::new();
            text.append("Type `");
            text.append(vars[0].as_str());
            text.append("` implements interface `");
            text.append(vars[1].as_str());
            text.append("` here, which requires that `");
            text.append(vars[2].as_str());
            text.append("` is also implemented.");
            assert(text@ =~= "Type `"@ + vs[0] + "` implements interface `"@ + vs[1] + "` here, which requires that `"@ + vs[2] + "` is also implemented."@);
            texts.push(text);
        },
        DiagnosticKind::MissingInterfaceField => {
            let mut text = String::new();
            text.append("Type `");
            text.append(vars[0].as_str());
            text.append("` implements interface `");
            text.append(vars[1].as_str());
            text.append("` here, which requires that field `");
            text.append(vars[2].as_str());
            text.append("` is implemented.");
            assert(text@ =~= "Type `"@ + vs[0] + "` implements interface `"@ + vs[1] + "` here, which requires that field `"@ + vs[2] + "` is implemented."@);
            texts.push(text);
        },
        DiagnosticKind::MissingInterfaceFieldArgument => {
            let mut text = String::new();
            text.append("Type `");
            text.append(vars[0].as_str());
            text.append("` implements interface `");
            text.append(vars[1].as_str());
            text.append("` here, which requires that field `");
            text.append(vars[2].as_str());
            text.append("` has an argument `");
            text.append(vars[3].as_str());
            text.append("`.");
            assert(text@ =~= "Type `"@ + vs[0] + "` implements interface `"@ + vs[1] + "` here, which requires that field `"@ + vs[2] + "` has an argument `"@ + vs[3] + "`."@);
            texts.push(text);
        },
        DiagnosticKind::InvalidInterfaceFieldArgumentType => {
            let mut text = String::new();
            text.append("Type `");
            text.append(vars[0].as_str());
            text.append("` implements interface `");
            text.append(vars[1].as_str());
            text.append("` here, which requires that field `");
            text.append(vars[2].as_str());
            text.append("` has an argument `");
            text.append(vars[3].as_str());
            text.append("` of type `");
            text.append(vars[4].as_str());
            text.append("` instead of `");
            text.append(vars[5].as_str());
            text.append("`.");
            assert(text@ =~= "Type `"@ + vs[0] + "` implements interface `"@ + vs[1] + "` here, which requires that field `"@ + vs[2] + "` has an argument `"@ + vs[3] + "` of type `"@ + vs[4] + "` instead of `"@ + vs[5] + "`."@);
            texts.push(text);
        },
        DiagnosticKind::UnexpectedNonNullExtraInterfaceFieldArgument => {
            let mut text = String::new();
            text.append("Type `");
            text.append(vars[0].as_str());
            text.append("` implements interface `");
            text.append(vars[1].as_str());
            text.append("` here and defines a field `");
            text.append(vars[2].as_str());
            text.append("` with required argument `");
            text.append(vars[3].as_str());
            text.append("` of type `");
            text.append(vars[4].as_str());
            text.append("` that matches a field in the interface.");
            assert(text@ =~= "Type `"@ + vs[0] + "` implements interface `"@ + vs[1] + "` here and defines a field `"@ + vs[2] + "` with required argument `"@ + vs[3] + "` of type `"@ + vs[4] + "` that matches a field in the interface."@);
            texts.push(text);
        },
        DiagnosticKind::NonCovariantInterfaceField => {
            let mut text = String::new();
            text.append("Type `");
            text.append(vars[0].as_str());
            text.append("` implements interface `");
            text.append(vars[1].as_str());
            text.append("` that defines a field `");
            text.append(vars[2].as_str());
            text.append("` of type `");
            text.append(vars[3].as_str());
            text.append("`, but `");
            text.append(vars[2].as_str());
            text.append("` is `");
            text.append(vars[4].as_str());
            text.append("` here, which is incompatible.");
            assert(text@ =~= "Type `"@ + vs[0] + "` implements interface `"@ + vs[1] + "` that defines a field `"@ + vs[2] + "` of type `"@ + vs[3] + "`, but `"@ + vs[2] + "` is `"@ + vs[4] + "` here, which is incompatible."@);
            texts.push(text);
        },
        DiagnosticKind::SelfReferentialInterface => {
            let mut text = String::new();
            text.append("Interface `");
            text.append(vars[0].as_str());
            text.append("` attempts to implement itself here.");
            assert(text@ =~= "Interface `"@ + vs[0] + "` attempts to implement itself here."@);
            texts.push(text);
        },
        DiagnosticKind::MissingUnionMembers => {
            let mut text = String::new();
            text.append("Union `");
            text.append(vars[0].as_str());
            text.append("` here doesn't have any member types.");
            assert(text@ =~= "Union `"@ + vs[0] + "` here doesn't have any member types."@);
            texts.push(text);
        },
        DiagnosticKind::DuplicateUnionMember => {
            let mut text = String::new();
            text.append("Union member type `");
            text.append(vars[0].as_str());
            text.append("` first occurs here ...");
            assert(text@ =~= "Union member type `"@ + vs[0] + "` first occurs here ..."@);
            texts.push(text);
            let mut text = String::new();
            text.append("... and later again here.");
            assert(text@ =~= "... and later again here."@);
            texts.push(text);
        },
        DiagnosticKind::NonObjectUnionMember => {
            let mut text = String::new();
            text.append("Union member type `");
            text.append(vars[0].as_str());
            text.append("` is not an object type.");
            assert(text@ =~= "Union member type `"@ + vs[0] + "` is not an object type."@);
            texts.push(text);
        },
        DiagnosticKind::MissingEnumValues => {
            let mut text = String::new();
            text.append("Enum `");
            text.append(vars[0].as_str());
            text.append("` here doesn't have any values.");
            assert(text@ =~= "Enum `"@ + vs[0] + "` here doesn't have any values."@);
            texts.push(text);
        },
        DiagnosticKind::DuplicateEnumValue => {
            let mut text = String::new();
            text.append("Enum value `");
            text.append(vars[0].as_str());
            text.append("` first occurs here ...");
            assert(text@ =~= "Enum value `"@ + vs[0] + "` first occurs here ..."@);
            texts.push(text);
            let mut text = String::new();
            text.append("... and later again here.");
            assert(text@ =~= "... and later again here."@);
            texts.push(text);
        },
        DiagnosticKind::SelfReferentialInputType => {
            let mut text = String::new();
            text.append("Input type `");
            text.append(vars[0].as_str());
            text.append("` references itself here through field `");
            text.append(vars[1].as_str());
            text.append("` of type `");
            text.append(vars[2].as_str());
            text.append("`.");
            assert(text@ =~= "Input type `"@ + vs[0] + "` references itself here through field `"@ + vs[1] + "` of type `"@ + vs[2] + "`."@);
            texts.push(text);
        },
        DiagnosticKind::ReservedDirectiveName => {
            let mut text = String::new();
            text.append("Directive `");
            text.append(vars[0].as_str());
            text.append("` is defined here, but its name start with `__` which is reserved.");
            assert(text@ =~= "Directive `"@ + vs[0] + "` is defined here, but its name start with `__` which is reserved."@);
            texts.push(text);
        },
        DiagnosticKind::SelfReferentialDirective => {
            let mut text = String::new();
            text.append("Directive `");
            text.append(vars[0].as_str());
            text.append("` references itself here through directive `");
            text.append(vars[1].as_str());
            text.append("`.");
            assert(text@ =~= "Directive `"@ + vs[0] + "` references itself here through directive `"@ + vs[1] + "`."@);
            texts.push(text);
        },
        DiagnosticKind::DuplicateTypeName => {
            let mut text = String::new();
            text.append("Type `");
            text.append(vars[0].as_str());
            text.append("` is first defined here ...");
            assert(text@ =~= "Type `"@ + vs[0] + "` is first defined here ..."@);
            texts.push(text);
            let mut text = String::new();
            text.append("... and later again here.");
            assert(text@ =~= "... and later again here."@);
            texts.push(text);
        },
        DiagnosticKind::DuplicateDirectiveName => {
            let mut text = String::new();
            text.append("Directive `");
            text.append(vars[0].as_str());
            text.append("` is first defined here ...");
            assert(text@ =~= "Directive `"@ + vs[0] + "` is first defined here ..."@);
            texts.push(text);
            let mut text = String::new();
            text.append("... and later again here.");
            assert(text@ =~= "... and later again here."@);
            texts.push(text);
        },
        DiagnosticKind::DifferentExtensionType => {
            let mut text = String::new();
            text.append("Type `");
            text.append(vars[0].as_str());
            text.append("` is first defined as `");
            text.append(vars[1].as_str());
            text.append("` here ...");
            assert(text@ =~= "Type `"@ + vs[0] + "` is first defined as `"@ + vs[1] + "` here ..."@);
            texts.push(text);
            let mut text = String::new();
            text.append("... and later again as `");
            text.append(vars[2].as_str());
            text.append("` here.");
            assert(text@ =~= "... and later again as `"@ + vs[2] + "` here."@);
            texts.push(text);
        },
        DiagnosticKind::ExpectedNonNullValue => {
            let mut text = String::new();
            text.append("This should be a `");
            text.append(vars[0].as_str());
            text.append("` here.");
            assert(text@ =~= "This should be a `"@ + vs[0] + "` here."@);
            texts.push(text);
        },
        DiagnosticKind::ExpectedListValue => {
            let mut text = String::new();
            text.append("This should be a `");
            text.append(vars[0].as_str());
            text.append("` here.");
            assert(text@ =~= "This should be a `"@ + vs[0] + "` here."@);
            texts.push(text);
        },
        DiagnosticKind::ExpectedIntValue => {
            let mut text = String::new();
            text.append("This should be a `");
            text.append(vars[0].as_str());
            text.append("` here.");
            assert(text@ =~= "This should be a `"@ + vs[0] + "` here."@);
            texts.push(text);
        },
        DiagnosticKind::ExpectedFloatValue => {
            let mut text = String::new();
            text.append("This should be a `");
            text.append(vars[0].as_str());
            text.append("` here.");
            assert(text@ =~= "This should be a `"@ + vs[0] + "` here."@);
            texts.push(text);
        },
        DiagnosticKind::ExpectedStringValue => {
            let mut text = String::new();
            text.append("This should be a `");
            text.append(vars[0].as_str());
            text.append("` here.");
            assert(text@ =~= "This should be a `"@ + vs[0] + "` here."@);
            texts.push(text);
        },
        DiagnosticKind::ExpectedBooleanValue => {
            let mut text = String::new();
            text.append("This should be a `");
            text.append(vars[0].as_str());
            text.append("` here.");
            assert(text@ =~= "This should be a `"@ + vs[0] + "` here."@);
            texts.push(text);
        },
        DiagnosticKind::ExpectedInputObjectValue => {
            let mut text = String::new();
            text.append("This should be a `");
            text.append(vars[0].as_str());
            text.append("` here.");
            assert(text@ =~= "This should be a `"@ + vs[0] + "` here."@);
            texts.push(text);
        },
        DiagnosticKind::MissingInputField => {
            let mut text = String::new();
            text.append("This input object here must have a field `");
            text.append(vars[0].as_str());
            text.append("` of type `");
            text.append(vars[1].as_str());
            text.append("`.");
            assert(text@ =~= "This input object here must have a field `"@ + vs[0] + "` of type `"@ + vs[1] + "`."@);
            texts.push(text);
        },
        DiagnosticKind::UnrecognizedInputField => {
            let mut text = String::new();
            text.append("Value is provided for field `");
            text.append(vars[0].as_str());
            text.append("` here, but type `");
            text.append(vars[1].as_str());
            text.append("` has no such field.");
            assert(text@ =~= "Value is provided for field `"@ + vs[0] + "` here, but type `"@ + vs[1] + "` has no such field."@);
            texts.push(text);
        },
        DiagnosticKind::UnrecognizedEnumValue => {
            let mut text = String::new();
            text.append("Enum value `");
            text.append(vars[1].as_str());
            text.append("` here is not a valid value for enum `");
            text.append(vars[0].as_str());
            text.append("`.");
            assert(text@ =~= "Enum value `"@ + vs[1] + "` here is not a valid value for enum `"@ + vs[0] + "`."@);
            texts.push(text);
        },
        DiagnosticKind::DuplicateOperationName => {
            let mut text = String::new();
            text.append("Operation `");
            text.append(vars[0].as_str());
            text.append("` is first defined here ...");
            assert(text@ =~= "Operation `"@ + vs[0] + "` is first defined here ..."@);
            texts.push(text);
            let mut text = String::new();
            text.append("... and later defined again here.");
            assert(text@ =~= "... and later defined again here."@);
            texts.push(text);
        },
        DiagnosticKind::LoneAnonymousOperation => {
            let mut text = String::new();
            text.append("Anonymous operation defined here must not coexist with named operation definitions.");
            assert(text@ =~= "Anonymous operation defined here must not coexist with named operation definitions."@);
            texts.push(text);
        },
        DiagnosticKind::UndefinedField => {
            let mut text = String::new();
            text.append("Type `");
            text.append(vars[0].as_str());
            text.append("` does not have a field named `");
            text.append(vars[1].as_str());
            text.append("`.");
            assert(text@ =~= "Type `"@ + vs[0] + "` does not have a field named `"@ + vs[1] + "`."@);
            texts.push(text);
        },
    }
    texts
}

impl DiagnosticInfo for Diagnostic {
    fn code(&self) -> (code: &'static str)
        ensures
            code == spec_code(self.kind()),
    {
        kind_code(self.kind)
    }

    fn message(&self) -> (message: &'static str)
        ensures
            message == spec_message(self.kind()),
    {
        kind_message(self.kind)
    }

    fn span(&self) -> (span: Span)
        ensures
            self.wf() ==> span == self.spans()[primary(self.kind())],
    {
        let i = kind_primary(self.kind);
        if i < self.spans.len() {
            self.spans[i]
        } else {
            Span { source_id: crate::lex::SourceId(0), start: 0, end: 0 }
        }
    }

    fn labels(&self) -> (labels: Vec<(Span, String)>)
        ensures
            self.wf() ==> {
                &&& labels@.len() == label_spans(self.kind()).len()
                &&& forall|i: int| 0 <= i < labels@.len() ==> {
                    &&& (#[trigger] labels@[i]).0 == self.spans()[label_spans(self.kind())[i]]
                    &&& labels@[i].1@ == label_texts(self.kind(), self.vars())[i]
                }
            },
    {
        if self.vars.len() != kind_var_count(self.kind) || self.spans.len() != kind_span_count(self.kind) {
            return Vec::new();
        }
        let mut texts = label_strings(self.kind, &self.vars);
        let targets = kind_label_spans(self.kind);
        let mut labels: Vec<(Span, String)> = Vec::new();
        let mut i: usize = 0;
        let ghost all = label_texts(self.kind, self.vars());
        while i < targets.len() && texts.len() > 0
            invariant
                self.wf(),
                targets@ == label_spans(self.kind()).map_values(|k: int| k as usize),
                all.len() == targets@.len(),
                all == label_texts(self.kind(), self.vars()),
                i <= targets@.len(),
                texts@.len() == targets@.len() - i,
                forall|j: int| 0 <= j < texts@.len() ==> texts@[j]@ == all[i + j],
                labels@.len() == i,
                forall|j: int| 0 <= j < i ==> {
                    &&& (#[trigger] labels@[j]).0 == self.spans()[label_spans(self.kind())[j]]
                    &&& labels@[j].1@ == label_texts(self.kind(), self.vars())[j]
                },
                forall|j: int| 0 <= j < targets@.len() ==> targets@[j] < self.spans@.len(),
            decreases targets.len() - i,
        {
            let text = texts.remove(0);
            labels.push((self.spans[targets[i]], text));
            i = i + 1;
        }
        labels
    }

    fn is_deprecated(&self) -> (deprecated_: bool)
        ensures
            deprecated_ == deprecated(self.kind()),
    {
        kind_deprecated(self.kind)
    }
}

fn kind_code(kind: DiagnosticKind) -> (r: &'static str)
    ensures
        r == spec_code(kind),
{
    match kind {
        DiagnosticKind::UnrecognizedTokens => "E0001",
        DiagnosticKind::MissingOperationDefinitionName => "E0002",
        DiagnosticKind::MissingOperationDefinitionSelectionSet => "E0003",
        DiagnosticKind::MissingSelectionSetClosingBrace => "E0004",
        DiagnosticKind::MissingFieldName => "E0005",
        DiagnosticKind::MissingArgumentsClosingParentheses => "E0006",
        DiagnosticKind::MissingArgumentColon => "E0007",
        DiagnosticKind::MissingArgumentValue => "E0008",
        DiagnosticKind::MissingInlineFragmentSelectionSet => "E0009",
        DiagnosticKind::MissingFragmentName => "E0010",
        DiagnosticKind::MissingFragmentTypeCondition => "E0011",
        DiagnosticKind::MissingFragmentSelectionSet => "E0012",
        DiagnosticKind::MissingTypeConditionNamedType => "E0013",
        DiagnosticKind::MissingListValueClosingBracket => "E0014",
        DiagnosticKind::MissingObjectValueClosingBrace => "E0015",
        DiagnosticKind::MissingObjectFieldColon => "E0016",
        DiagnosticKind::MissingObjectFieldValue => "E0017",
        DiagnosticKind::MissingVariableDefinitionsClosingParenthesis => "E0018",
        DiagnosticKind::MissingVariableDefinitionColon => "E0019",
        DiagnosticKind::MissingVariableDefinitionType => "E0020",
        DiagnosticKind::MissingDefaultValue => "E0021",
        DiagnosticKind::MissingListTypeClosingBracket => "E0022",
        DiagnosticKind::MissingListTypeWrappedType => "E0023",
        DiagnosticKind::MissingDirectiveName => "E0024",
        DiagnosticKind::MissingRootOperationTypeDefinitions => "E0025",
        DiagnosticKind::MissingRootOperationTypeDefinitionsClosingBrace => "E0026",
        DiagnosticKind::MissingRootOperationTypeDefinitionColon => "E0027",
        DiagnosticKind::MissingRootOperationTypeDefinitionNamedType => "E0028",
        DiagnosticKind::MissingScalarTypeDefinitionName => "E0029",
        DiagnosticKind::MissingScalarTypeExtensionName => "E0030",
        DiagnosticKind::MissingScalarTypeExtensionDirectives => "E0031",
        DiagnosticKind::MissingObjectTypeDefinitionName => "E0032",
        DiagnosticKind::MissingFirstImplementsInterface => "E0033",
        DiagnosticKind::MissingSecondImplementsInterface => "E0034",
        DiagnosticKind::MissingFieldsDefinitionClosingBrace => "E0035",
        DiagnosticKind::MissingFieldDefinitionColon => "E0036",
        DiagnosticKind::MissingFieldDefinitionType => "E0037",
        DiagnosticKind::MissingArgumentsDefinitionClosingParenthesis => "E0038",
        DiagnosticKind::MissingInputValueDefinitionColon => "E0039",
        DiagnosticKind::MissingInputValueDefinitionType => "E0040",
        DiagnosticKind::MissingObjectTypeExtensionName => "E0041",
        DiagnosticKind::MissingInterfaceTypeDefinitionName => "E0042",
        DiagnosticKind::MissingInterfaceTypeExtensionName => "E0043",
        DiagnosticKind::MissingUnionTypeDefinitionName => "E0044",
        DiagnosticKind::MissingFirstUnionMemberType => "E0045",
        DiagnosticKind::MissingSecondUnionMemberType => "E0046",
        DiagnosticKind::MissingUnionTypeExtensionName => "E0047",
        DiagnosticKind::MissingEnumTypeDefinitionName => "E0048",
        DiagnosticKind::MissingEnumValuesClosingBrace => "E0049",
        DiagnosticKind::MissingEnumTypeExtensionName => "E0050",
        DiagnosticKind::MissingInputObjectTypeDefinitionName => "E0051",
        DiagnosticKind::MissingInputFieldsDefinitionClosingBrace => "E0052",
        DiagnosticKind::MissingInputObjectTypeExtensionName => "E0053",
        DiagnosticKind::MissingDirectiveDefinitionAt => "E0054",
        DiagnosticKind::MissingDirectiveDefinitionName => "E0055",
        DiagnosticKind::MissingDirectiveDefinitionLocations => "E0056",
        DiagnosticKind::MissingFirstDirectiveLocation => "E0057",
        DiagnosticKind::MissingSecondDirectiveLocation => "E0058",
        DiagnosticKind::UnknownNamedType => "E0100",
        DiagnosticKind::EmptyType => "E0101",
        DiagnosticKind::DuplicateField => "E0102",
        DiagnosticKind::DuplicateExtendedField => "E0103",
        DiagnosticKind::ReservedFieldName => "E0104",
        DiagnosticKind::FieldNotOutputType => "E0105",
        DiagnosticKind::DuplicateArgumentName => "E0106",
        DiagnosticKind::ReservedInputValueName => "E0107",
        DiagnosticKind::InputValueNotInputType => "E0108",
        DiagnosticKind::DuplicateImplementsInterface => "E0109",
        DiagnosticKind::ImplementsNonInterfaceType => "E0110",
        DiagnosticKind::MissingInheritedInterface => "E0111",
        DiagnosticKind::MissingInterfaceField => "E0112",
        DiagnosticKind::MissingInterfaceFieldArgument => "E0113",
        DiagnosticKind::InvalidInterfaceFieldArgumentType => "E0114",
        DiagnosticKind::UnexpectedNonNullExtraInterfaceFieldArgument => "E0115",
        DiagnosticKind::NonCovariantInterfaceField => "E0116",
        DiagnosticKind::SelfReferentialInterface => "E0117",
        DiagnosticKind::MissingUnionMembers => "E0118",
        DiagnosticKind::DuplicateUnionMember => "E0119",
        DiagnosticKind::NonObjectUnionMember => "E0120",
        DiagnosticKind::MissingEnumValues => "E0121",
        DiagnosticKind::DuplicateEnumValue => "E0122",
        DiagnosticKind::SelfReferentialInputType => "E0123",
        DiagnosticKind::ReservedDirectiveName => "E0124",
        DiagnosticKind::SelfReferentialDirective => "E0125",
        DiagnosticKind::DuplicateTypeName => "E0126",
        DiagnosticKind::DuplicateDirectiveName => "E0126",
        DiagnosticKind::DifferentExtensionType => "E0127",
        DiagnosticKind::ExpectedNonNullValue => "E0200",
        DiagnosticKind::ExpectedListValue => "E0201",
        DiagnosticKind::ExpectedIntValue => "E0202",
        DiagnosticKind::ExpectedFloatValue => "E0203",
        DiagnosticKind::ExpectedStringValue => "E0204",
        DiagnosticKind::ExpectedBooleanValue => "E0205",
        DiagnosticKind::ExpectedInputObjectValue => "E0206",
        DiagnosticKind::MissingInputField => "E0207",
        DiagnosticKind::UnrecognizedInputField => "E0208",
        DiagnosticKind::UnrecognizedEnumValue => "E0209",
        DiagnosticKind::DuplicateOperationName => "E0300",
        DiagnosticKind::LoneAnonymousOperation => "E0301",
        DiagnosticKind::UndefinedField => "E0303",
    }
}

fn kind_message(kind: DiagnosticKind) -> (r: &'static str)
    ensures
        r == spec_message(kind),
{
    match kind {
        DiagnosticKind::UnrecognizedTokens => "Syntax error.",
        DiagnosticKind::MissingOperationDefinitionName => "Operation definition must have a name.",
        DiagnosticKind::MissingOperationDefinitionSelectionSet => "Operation definition must have a selection set.",
        DiagnosticKind::MissingSelectionSetClosingBrace => "Selection set is missing closing curly brace.",
        DiagnosticKind::MissingFieldName => "Field must have a name.",
        DiagnosticKind::MissingArgumentsClosingParentheses => "Arguments are missing closing parenthesis.",
        DiagnosticKind::MissingArgumentColon => "Argument is missing colon.",
        DiagnosticKind::MissingArgumentValue => "Argument is missing value.",
        DiagnosticKind::MissingInlineFragmentSelectionSet => "Inline fragment is missing selection set.",
        DiagnosticKind::MissingFragmentName => "Fragment definition must have a name.",
        DiagnosticKind::MissingFragmentTypeCondition => "Fragment definition must have a type condition.",
        DiagnosticKind::MissingFragmentSelectionSet => "Fragment definition must have a selection set.",
        DiagnosticKind::MissingTypeConditionNamedType => "Type condition must have a named type.",
        DiagnosticKind::MissingListValueClosingBracket => "List value must have closing bracket.",
        DiagnosticKind::MissingObjectValueClosingBrace => "Object value must have closing brace.",
        DiagnosticKind::MissingObjectFieldColon => "Object field must have a colon.",
        DiagnosticKind::MissingObjectFieldValue => "Object field must have a value.",
        DiagnosticKind::MissingVariableDefinitionsClosingParenthesis => "Variable definitions must have a closing parenthesis.",
        DiagnosticKind::MissingVariableDefinitionColon => "Variable definition must have a colon.",
        DiagnosticKind::MissingVariableDefinitionType => "Variable definition must have a type.",
        DiagnosticKind::MissingDefaultValue => "Default value must have a value.",
        DiagnosticKind::MissingListTypeClosingBracket => "List type must have a closing bracket.",
        DiagnosticKind::MissingListTypeWrappedType => "List type must wrap another type.",
        DiagnosticKind::MissingDirectiveName => "Directive must have a name.",
        DiagnosticKind::MissingRootOperationTypeDefinitions => "Schema definition must define one or more root operation types.",
        DiagnosticKind::MissingRootOperationTypeDefinitionsClosingBrace => "Root operation type definitions must have a closing brace.",
        DiagnosticKind::MissingRootOperationTypeDefinitionColon => "Root operation type definition must have a colon.",
        DiagnosticKind::MissingRootOperationTypeDefinitionNamedType => "Root operation type definition must have a named type.",
        DiagnosticKind::MissingScalarTypeDefinitionName => "Scalar type definition must have a name.",
        DiagnosticKind::MissingScalarTypeExtensionName => "Scalar type extension must have a name.",
        DiagnosticKind::MissingScalarTypeExtensionDirectives => "Scalar type extension must have one or more directives.",
        DiagnosticKind::MissingObjectTypeDefinitionName => "Object type definition must have a name.",
        DiagnosticKind::MissingFirstImplementsInterface => "Implemented interfaces must not be empty.",
        DiagnosticKind::MissingSecondImplementsInterface => "Implemented interface name is missing.",
        DiagnosticKind::MissingFieldsDefinitionClosingBrace => "Fields definition must have a closing brace.",
        DiagnosticKind::MissingFieldDefinitionColon => "Field definition must have a colon.",
        DiagnosticKind::MissingFieldDefinitionType => "Field definition must have a type.",
        DiagnosticKind::MissingArgumentsDefinitionClosingParenthesis => "Arguments definition must have a closing parenthesis.",
        DiagnosticKind::MissingInputValueDefinitionColon => "Input value definition must have a colon.",
        DiagnosticKind::MissingInputValueDefinitionType => "Input value definition must have a type.",
        DiagnosticKind::MissingObjectTypeExtensionName => "Object type extension must have a name.",
        DiagnosticKind::MissingInterfaceTypeDefinitionName => "Interface type definition must have a name.",
        DiagnosticKind::MissingInterfaceTypeExtensionName => "Interface type extension must have a name.",
        DiagnosticKind::MissingUnionTypeDefinitionName => "Union type definition must have a name.",
        DiagnosticKind::MissingFirstUnionMemberType => "Union type definition must have one or more member types.",
        DiagnosticKind::MissingSecondUnionMemberType => "Union member type must have a name.",
        DiagnosticKind::MissingUnionTypeExtensionName => "Union type extension must have a name.",
        DiagnosticKind::MissingEnumTypeDefinitionName => "Enum type definition must have a name.",
        DiagnosticKind::MissingEnumValuesClosingBrace => "Enum values must have a closing brace.",
        DiagnosticKind::MissingEnumTypeExtensionName => "Enum type extension must have a name.",
        DiagnosticKind::MissingInputObjectTypeDefinitionName => "Input object type definition must have a name.",
        DiagnosticKind::MissingInputFieldsDefinitionClosingBrace => "Input fields definition must have a closing brace.",
        DiagnosticKind::MissingInputObjectTypeExtensionName => "Input object type extension must have a name.",
        DiagnosticKind::MissingDirectiveDefinitionAt => "Directive's name must start with an `@`.",
        DiagnosticKind::MissingDirectiveDefinitionName => "Directive definition must have a name.",
        DiagnosticKind::MissingDirectiveDefinitionLocations => "Directive definition must have one or more locations.",
        DiagnosticKind::MissingFirstDirectiveLocation => "Directive definition must have one or more locations.",
        DiagnosticKind::MissingSecondDirectiveLocation => "Directive location must be defined.",
        DiagnosticKind::UnknownNamedType => "Named type must exist.",
        DiagnosticKind::EmptyType => "Type must define one or more fields.",
        DiagnosticKind::DuplicateField => "Field name must be unique.",
        DiagnosticKind::DuplicateExtendedField => "Field name must be unique across extended types.",
        DiagnosticKind::ReservedFieldName => "Field name must not start with `__`.",
        DiagnosticKind::FieldNotOutputType => "Field must be output type.",
        DiagnosticKind::DuplicateArgumentName => "Argument name must be unique.",
        DiagnosticKind::ReservedInputValueName => "Input value name must not start with `__`.",
        DiagnosticKind::InputValueNotInputType => "Input value must be input type.",
        DiagnosticKind::DuplicateImplementsInterface => "Type must not implement same interface twice.",
        DiagnosticKind::ImplementsNonInterfaceType => "Implemented type must be interface.",
        DiagnosticKind::MissingInheritedInterface => "Type must also implement inherited interfaces.",
        DiagnosticKind::MissingInterfaceField => "Type must implement field from interface.",
        DiagnosticKind::MissingInterfaceFieldArgument => "Type must implement field with argument from interface.",
        DiagnosticKind::InvalidInterfaceFieldArgumentType => "Type must implement field with argument of same type as interface.",
        DiagnosticKind::UnexpectedNonNullExtraInterfaceFieldArgument => "Type must not require extra arguments for fields implementing interface.",
        DiagnosticKind::NonCovariantInterfaceField => "Implemented type and type from interface must be covariant.",
        DiagnosticKind::SelfReferentialInterface => "Interface must not implement itself.",
        DiagnosticKind::MissingUnionMembers => "Union must have at least one member type.",
        DiagnosticKind::DuplicateUnionMember => "Union members must be unique.",
        DiagnosticKind::NonObjectUnionMember => "Union members must be object types.",
        DiagnosticKind::MissingEnumValues => "Enum must have at least one value.",
        DiagnosticKind::DuplicateEnumValue => "Enum values must be unique.",
        DiagnosticKind::SelfReferentialInputType => "Input type must not be self-referential.",
        DiagnosticKind::ReservedDirectiveName => "Directive name must not start with `__`.",
        DiagnosticKind::SelfReferentialDirective => "Directive must not be self-referential.",
        DiagnosticKind::DuplicateTypeName => "Type name must be unique.",
        DiagnosticKind::DuplicateDirectiveName => "Directive name must be unique.",
        DiagnosticKind::DifferentExtensionType => "Type extension must extend type of same kind.",
        DiagnosticKind::ExpectedNonNullValue => "Expected a non-null value.",
        DiagnosticKind::ExpectedListValue => "Expected a list value.",
        DiagnosticKind::ExpectedIntValue => "Expected an int value.",
        DiagnosticKind::ExpectedFloatValue => "Expected a float value.",
        DiagnosticKind::ExpectedStringValue => "Expected a string value.",
        DiagnosticKind::ExpectedBooleanValue => "Expected a boolean value.",
        DiagnosticKind::ExpectedInputObjectValue => "Expected an input object value.",
        DiagnosticKind::MissingInputField => "Expected a value for required input field.",
        DiagnosticKind::UnrecognizedInputField => "All fields in input object must exist in schema definition.",
        DiagnosticKind::UnrecognizedEnumValue => "Enum values must exist in schema definition.",
        DiagnosticKind::DuplicateOperationName => "Operation definitions must be unique.",
        DiagnosticKind::LoneAnonymousOperation => "Anonymous operation definitions must be alone.",
        DiagnosticKind::UndefinedField => "Queried field does not exist.",
    }
}

fn kind_deprecated(kind: DiagnosticKind) -> (r: bool)
    ensures
        r == deprecated(kind),
{
    match kind {
        DiagnosticKind::UnrecognizedTokens => false,
        DiagnosticKind::MissingOperationDefinitionName => true,
        DiagnosticKind::MissingOperationDefinitionSelectionSet => false,
        DiagnosticKind::MissingSelectionSetClosingBrace => false,
        DiagnosticKind::MissingFieldName => false,
        DiagnosticKind::MissingArgumentsClosingParentheses => false,
        DiagnosticKind::MissingArgumentColon => false,
        DiagnosticKind::MissingArgumentValue => false,
        DiagnosticKind::MissingInlineFragmentSelectionSet => false,
        DiagnosticKind::MissingFragmentName => false,
        DiagnosticKind::MissingFragmentTypeCondition => false,
        DiagnosticKind::MissingFragmentSelectionSet => false,
        DiagnosticKind::MissingTypeConditionNamedType => false,
        DiagnosticKind::MissingListValueClosingBracket => false,
        DiagnosticKind::MissingObjectValueClosingBrace => false,
        DiagnosticKind::MissingObjectFieldColon => false,
        DiagnosticKind::MissingObjectFieldValue => false,
        DiagnosticKind::MissingVariableDefinitionsClosingParenthesis => false,
        DiagnosticKind::MissingVariableDefinitionColon => false,
        DiagnosticKind::MissingVariableDefinitionType => false,
        DiagnosticKind::MissingDefaultValue => false,
        DiagnosticKind::MissingListTypeClosingBracket => false,
        DiagnosticKind::MissingListTypeWrappedType => false,
        DiagnosticKind::MissingDirectiveName => false,
        DiagnosticKind::MissingRootOperationTypeDefinitions => false,
        DiagnosticKind::MissingRootOperationTypeDefinitionsClosingBrace => false,
        DiagnosticKind::MissingRootOperationTypeDefinitionColon => false,
        DiagnosticKind::MissingRootOperationTypeDefinitionNamedType => false,
        DiagnosticKind::MissingScalarTypeDefinitionName => false,
        DiagnosticKind::MissingScalarTypeExtensionName => false,
        DiagnosticKind::MissingScalarTypeExtensionDirectives => false,
        DiagnosticKind::MissingObjectTypeDefinitionName => false,
        DiagnosticKind::MissingFirstImplementsInterface => false,
        DiagnosticKind::MissingSecondImplementsInterface => false,
        DiagnosticKind::MissingFieldsDefinitionClosingBrace => false,
        DiagnosticKind::MissingFieldDefinitionColon => false,
        DiagnosticKind::MissingFieldDefinitionType => false,
        DiagnosticKind::MissingArgumentsDefinitionClosingParenthesis => false,
        DiagnosticKind::MissingInputValueDefinitionColon => false,
        DiagnosticKind::MissingInputValueDefinitionType => false,
        DiagnosticKind::MissingObjectTypeExtensionName => false,
        DiagnosticKind::MissingInterfaceTypeDefinitionName => false,
        DiagnosticKind::MissingInterfaceTypeExtensionName => false,
        DiagnosticKind::MissingUnionTypeDefinitionName => false,
        DiagnosticKind::MissingFirstUnionMemberType => false,
        DiagnosticKind::MissingSecondUnionMemberType => false,
        DiagnosticKind::MissingUnionTypeExtensionName => false,
        DiagnosticKind::MissingEnumTypeDefinitionName => false,
        DiagnosticKind::MissingEnumValuesClosingBrace => false,
        DiagnosticKind::MissingEnumTypeExtensionName => false,
        DiagnosticKind::MissingInputObjectTypeDefinitionName => false,
        DiagnosticKind::MissingInputFieldsDefinitionClosingBrace => false,
        DiagnosticKind::MissingInputObjectTypeExtensionName => false,
        DiagnosticKind::MissingDirectiveDefinitionAt => false,
        DiagnosticKind::MissingDirectiveDefinitionName => false,
        DiagnosticKind::MissingDirectiveDefinitionLocations => false,
        DiagnosticKind::MissingFirstDirectiveLocation => false,
        DiagnosticKind::MissingSecondDirectiveLocation => false,
        DiagnosticKind::UnknownNamedType => false,
        DiagnosticKind::EmptyType => false,
        DiagnosticKind::DuplicateField => false,
        DiagnosticKind::DuplicateExtendedField => false,
        DiagnosticKind::ReservedFieldName => false,
        DiagnosticKind::FieldNotOutputType => false,
        DiagnosticKind::DuplicateArgumentName => false,
        DiagnosticKind::ReservedInputValueName => false,
        DiagnosticKind::InputValueNotInputType => false,
        DiagnosticKind::DuplicateImplementsInterface => false,
        DiagnosticKind::ImplementsNonInterfaceType => false,
        DiagnosticKind::MissingInheritedInterface => false,
        DiagnosticKind::MissingInterfaceField => false,
        DiagnosticKind::MissingInterfaceFieldArgument => false,
        DiagnosticKind::InvalidInterfaceFieldArgumentType => false,
        DiagnosticKind::UnexpectedNonNullExtraInterfaceFieldArgument => false,
        DiagnosticKind::NonCovariantInterfaceField => false,
        DiagnosticKind::SelfReferentialInterface => false,
        DiagnosticKind::MissingUnionMembers => false,
        DiagnosticKind::DuplicateUnionMember => false,
        DiagnosticKind::NonObjectUnionMember => false,
        DiagnosticKind::MissingEnumValues => false,
        DiagnosticKind::DuplicateEnumValue => false,
        DiagnosticKind::SelfReferentialInputType => false,
        DiagnosticKind::ReservedDirectiveName => false,
        DiagnosticKind::SelfReferentialDirective => false,
        DiagnosticKind::DuplicateTypeName => false,
        DiagnosticKind::DuplicateDirectiveName => false,
        DiagnosticKind::DifferentExtensionType => false,
        DiagnosticKind::ExpectedNonNullValue => false,
        DiagnosticKind::ExpectedListValue => false,
        DiagnosticKind::ExpectedIntValue => false,
        DiagnosticKind::ExpectedFloatValue => false,
        DiagnosticKind::ExpectedStringValue => false,
        DiagnosticKind::ExpectedBooleanValue => false,
        DiagnosticKind::ExpectedInputObjectValue => false,
        DiagnosticKind::MissingInputField => false,
        DiagnosticKind::UnrecognizedInputField => false,
        DiagnosticKind::UnrecognizedEnumValue => false,
        DiagnosticKind::DuplicateOperationName => false,
        DiagnosticKind::LoneAnonymousOperation => false,
        DiagnosticKind::UndefinedField => false,
    }
}

fn kind_primary(kind: DiagnosticKind) -> (r: usize)
    ensures
        r == primary(kind),
{
    match kind {
        DiagnosticKind::UnrecognizedTokens => 0,
        DiagnosticKind::MissingOperationDefinitionName => 0,
        DiagnosticKind::MissingOperationDefinitionSelectionSet => 0,
        DiagnosticKind::MissingSelectionSetClosingBrace => 1,
        DiagnosticKind::MissingFieldName => 0,
        DiagnosticKind::MissingArgumentsClosingParentheses => 1,
        DiagnosticKind::MissingArgumentColon => 0,
        DiagnosticKind::MissingArgumentValue => 0,
        DiagnosticKind::MissingInlineFragmentSelectionSet => 0,
        DiagnosticKind::MissingFragmentName => 0,
        DiagnosticKind::MissingFragmentTypeCondition => 0,
        DiagnosticKind::MissingFragmentSelectionSet => 0,
        DiagnosticKind::MissingTypeConditionNamedType => 0,
        DiagnosticKind::MissingListValueClosingBracket => 1,
        DiagnosticKind::MissingObjectValueClosingBrace => 1,
        DiagnosticKind::MissingObjectFieldColon => 0,
        DiagnosticKind::MissingObjectFieldValue => 0,
        DiagnosticKind::MissingVariableDefinitionsClosingParenthesis => 1,
        DiagnosticKind::MissingVariableDefinitionColon => 0,
        DiagnosticKind::MissingVariableDefinitionType => 0,
        DiagnosticKind::MissingDefaultValue => 0,
        DiagnosticKind::MissingListTypeClosingBracket => 1,
        DiagnosticKind::MissingListTypeWrappedType => 0,
        DiagnosticKind::MissingDirectiveName => 0,
        DiagnosticKind::MissingRootOperationTypeDefinitions => 0,
        DiagnosticKind::MissingRootOperationTypeDefinitionsClosingBrace => 1,
        DiagnosticKind::MissingRootOperationTypeDefinitionColon => 0,
        DiagnosticKind::MissingRootOperationTypeDefinitionNamedType => 0,
        DiagnosticKind::MissingScalarTypeDefinitionName => 0,
        DiagnosticKind::MissingScalarTypeExtensionName => 0,
        DiagnosticKind::MissingScalarTypeExtensionDirectives => 0,
        DiagnosticKind::MissingObjectTypeDefinitionName => 0,
        DiagnosticKind::MissingFirstImplementsInterface => 0,
        DiagnosticKind::MissingSecondImplementsInterface => 0,
        DiagnosticKind::MissingFieldsDefinitionClosingBrace => 1,
        DiagnosticKind::MissingFieldDefinitionColon => 0,
        DiagnosticKind::MissingFieldDefinitionType => 0,
        DiagnosticKind::MissingArgumentsDefinitionClosingParenthesis => 1,
        DiagnosticKind::MissingInputValueDefinitionColon => 0,
        DiagnosticKind::MissingInputValueDefinitionType => 0,
        DiagnosticKind::MissingObjectTypeExtensionName => 0,
        DiagnosticKind::MissingInterfaceTypeDefinitionName => 0,
        DiagnosticKind::MissingInterfaceTypeExtensionName => 0,
        DiagnosticKind::MissingUnionTypeDefinitionName => 0,
        DiagnosticKind::MissingFirstUnionMemberType => 0,
        DiagnosticKind::MissingSecondUnionMemberType => 0,
        DiagnosticKind::MissingUnionTypeExtensionName => 0,
        DiagnosticKind::MissingEnumTypeDefinitionName => 0,
        DiagnosticKind::MissingEnumValuesClosingBrace => 1,
        DiagnosticKind::MissingEnumTypeExtensionName => 0,
        DiagnosticKind::MissingInputObjectTypeDefinitionName => 0,
        DiagnosticKind::MissingInputFieldsDefinitionClosingBrace => 1,
        DiagnosticKind::MissingInputObjectTypeExtensionName => 0,
        DiagnosticKind::MissingDirectiveDefinitionAt => 0,
        DiagnosticKind::MissingDirectiveDefinitionName => 0,
        DiagnosticKind::MissingDirectiveDefinitionLocations => 0,
        DiagnosticKind::MissingFirstDirectiveLocation => 0,
        DiagnosticKind::MissingSecondDirectiveLocation => 0,
        DiagnosticKind::UnknownNamedType => 0,
        DiagnosticKind::EmptyType => 0,
        DiagnosticKind::DuplicateField => 1,
        DiagnosticKind::DuplicateExtendedField => 2,
        DiagnosticKind::ReservedFieldName => 0,
        DiagnosticKind::FieldNotOutputType => 0,
        DiagnosticKind::DuplicateArgumentName => 1,
        DiagnosticKind::ReservedInputValueName => 0,
        DiagnosticKind::InputValueNotInputType => 0,
        DiagnosticKind::DuplicateImplementsInterface => 1,
        DiagnosticKind::ImplementsNonInterfaceType => 0,
        DiagnosticKind::MissingInheritedInterface => 0,
        DiagnosticKind::MissingInterfaceField => 0,
        DiagnosticKind::MissingInterfaceFieldArgument => 0,
        DiagnosticKind::InvalidInterfaceFieldArgumentType => 0,
        DiagnosticKind::UnexpectedNonNullExtraInterfaceFieldArgument => 0,
        DiagnosticKind::NonCovariantInterfaceField => 0,
        DiagnosticKind::SelfReferentialInterface => 0,
        DiagnosticKind::MissingUnionMembers => 0,
        DiagnosticKind::DuplicateUnionMember => 1,
        DiagnosticKind::NonObjectUnionMember => 0,
        DiagnosticKind::MissingEnumValues => 0,
        DiagnosticKind::DuplicateEnumValue => 1,
        DiagnosticKind::SelfReferentialInputType => 0,
        DiagnosticKind::ReservedDirectiveName => 0,
        DiagnosticKind::SelfReferentialDirective => 0,
        DiagnosticKind::DuplicateTypeName => 1,
        DiagnosticKind::DuplicateDirectiveName => 1,
        DiagnosticKind::DifferentExtensionType => 1,
        DiagnosticKind::ExpectedNonNullValue => 0,
        DiagnosticKind::ExpectedListValue => 0,
        DiagnosticKind::ExpectedIntValue => 0,
        DiagnosticKind::ExpectedFloatValue => 0,
        DiagnosticKind::ExpectedStringValue => 0,
        DiagnosticKind::ExpectedBooleanValue => 0,
        DiagnosticKind::ExpectedInputObjectValue => 0,
        DiagnosticKind::MissingInputField => 0,
        DiagnosticKind::UnrecognizedInputField => 0,
        DiagnosticKind::UnrecognizedEnumValue => 0,
        DiagnosticKind::DuplicateOperationName => 1,
        DiagnosticKind::LoneAnonymousOperation => 0,
        DiagnosticKind::UndefinedField => 0,
    }
}

fn kind_var_count(kind: DiagnosticKind) -> (r: usize)
    ensures
        r == var_count(kind),
{
    match kind {
        DiagnosticKind::UnrecognizedTokens => 0,
        DiagnosticKind::MissingOperationDefinitionName => 0,
        DiagnosticKind::MissingOperationDefinitionSelectionSet => 0,
        DiagnosticKind::MissingSelectionSetClosingBrace => 0,
        DiagnosticKind::MissingFieldName => 0,
        DiagnosticKind::MissingArgumentsClosingParentheses => 0,
        DiagnosticKind::MissingArgumentColon => 0,
        DiagnosticKind::MissingArgumentValue => 0,
        DiagnosticKind::MissingInlineFragmentSelectionSet => 0,
        DiagnosticKind::MissingFragmentName => 0,
        DiagnosticKind::MissingFragmentTypeCondition => 0,
        DiagnosticKind::MissingFragmentSelectionSet => 0,
        DiagnosticKind::MissingTypeConditionNamedType => 0,
        DiagnosticKind::MissingListValueClosingBracket => 0,
        DiagnosticKind::MissingObjectValueClosingBrace => 0,
        DiagnosticKind::MissingObjectFieldColon => 0,
        DiagnosticKind::MissingObjectFieldValue => 0,
        DiagnosticKind::MissingVariableDefinitionsClosingParenthesis => 0,
        DiagnosticKind::MissingVariableDefinitionColon => 0,
        DiagnosticKind::MissingVariableDefinitionType => 0,
        DiagnosticKind::MissingDefaultValue => 0,
        DiagnosticKind::MissingListTypeClosingBracket => 0,
        DiagnosticKind::MissingListTypeWrappedType => 0,
        DiagnosticKind::MissingDirectiveName => 0,
        DiagnosticKind::MissingRootOperationTypeDefinitions => 0,
        DiagnosticKind::MissingRootOperationTypeDefinitionsClosingBrace => 0,
        DiagnosticKind::MissingRootOperationTypeDefinitionColon => 0,
        DiagnosticKind::MissingRootOperationTypeDefinitionNamedType => 0,
        DiagnosticKind::MissingScalarTypeDefinitionName => 0,
        DiagnosticKind::MissingScalarTypeExtensionName => 0,
        DiagnosticKind::MissingScalarTypeExtensionDirectives => 0,
        DiagnosticKind::MissingObjectTypeDefinitionName => 0,
        DiagnosticKind::MissingFirstImplementsInterface => 0,
        DiagnosticKind::MissingSecondImplementsInterface => 0,
        DiagnosticKind::MissingFieldsDefinitionClosingBrace => 0,
        DiagnosticKind::MissingFieldDefinitionColon => 0,
        DiagnosticKind::MissingFieldDefinitionType => 0,
        DiagnosticKind::MissingArgumentsDefinitionClosingParenthesis => 0,
        DiagnosticKind::MissingInputValueDefinitionColon => 0,
        DiagnosticKind::MissingInputValueDefinitionType => 0,
        DiagnosticKind::MissingObjectTypeExtensionName => 0,
        DiagnosticKind::MissingInterfaceTypeDefinitionName => 0,
        DiagnosticKind::MissingInterfaceTypeExtensionName => 0,
        DiagnosticKind::MissingUnionTypeDefinitionName => 0,
        DiagnosticKind::MissingFirstUnionMemberType => 0,
        DiagnosticKind::MissingSecondUnionMemberType => 0,
        DiagnosticKind::MissingUnionTypeExtensionName => 0,
        DiagnosticKind::MissingEnumTypeDefinitionName => 0,
        DiagnosticKind::MissingEnumValuesClosingBrace => 0,
        DiagnosticKind::MissingEnumTypeExtensionName => 0,
        DiagnosticKind::MissingInputObjectTypeDefinitionName => 0,
        DiagnosticKind::MissingInputFieldsDefinitionClosingBrace => 0,
        DiagnosticKind::MissingInputObjectTypeExtensionName => 0,
        DiagnosticKind::MissingDirectiveDefinitionAt => 0,
        DiagnosticKind::MissingDirectiveDefinitionName => 0,
        DiagnosticKind::MissingDirectiveDefinitionLocations => 0,
        DiagnosticKind::MissingFirstDirectiveLocation => 0,
        DiagnosticKind::MissingSecondDirectiveLocation => 0,
        DiagnosticKind::UnknownNamedType => 1,
        DiagnosticKind::EmptyType => 1,
        DiagnosticKind::DuplicateField => 1,
        DiagnosticKind::DuplicateExtendedField => 2,
        DiagnosticKind::ReservedFieldName => 1,
        DiagnosticKind::FieldNotOutputType => 2,
        DiagnosticKind::DuplicateArgumentName => 1,
        DiagnosticKind::ReservedInputValueName => 1,
        DiagnosticKind::InputValueNotInputType => 2,
        DiagnosticKind::DuplicateImplementsInterface => 2,
        DiagnosticKind::ImplementsNonInterfaceType => 2,
        DiagnosticKind::MissingInheritedInterface => 3,
        DiagnosticKind::MissingInterfaceField => 3,
        DiagnosticKind::MissingInterfaceFieldArgument => 4,
        DiagnosticKind::InvalidInterfaceFieldArgumentType => 6,
        DiagnosticKind::UnexpectedNonNullExtraInterfaceFieldArgument => 5,
        DiagnosticKind::NonCovariantInterfaceField => 5,
        DiagnosticKind::SelfReferentialInterface => 1,
        DiagnosticKind::MissingUnionMembers => 1,
        DiagnosticKind::DuplicateUnionMember => 1,
        DiagnosticKind::NonObjectUnionMember => 1,
        DiagnosticKind::MissingEnumValues => 1,
        DiagnosticKind::DuplicateEnumValue => 1,
        DiagnosticKind::SelfReferentialInputType => 3,
        DiagnosticKind::ReservedDirectiveName => 1,
        DiagnosticKind::SelfReferentialDirective => 2,
        DiagnosticKind::DuplicateTypeName => 1,
        DiagnosticKind::DuplicateDirectiveName => 1,
        DiagnosticKind::DifferentExtensionType => 3,
        DiagnosticKind::ExpectedNonNullValue => 1,
        DiagnosticKind::ExpectedListValue => 1,
        DiagnosticKind::ExpectedIntValue => 1,
        DiagnosticKind::ExpectedFloatValue => 1,
        DiagnosticKind::ExpectedStringValue => 1,
        DiagnosticKind::ExpectedBooleanValue => 1,
        DiagnosticKind::ExpectedInputObjectValue => 1,
        DiagnosticKind::MissingInputField => 2,
        DiagnosticKind::UnrecognizedInputField => 2,
        DiagnosticKind::UnrecognizedEnumValue => 2,
        DiagnosticKind::DuplicateOperationName => 1,
        DiagnosticKind::LoneAnonymousOperation => 0,
        DiagnosticKind::UndefinedField => 2,
    }
}

fn kind_span_count(kind: DiagnosticKind) -> (r: usize)
    ensures
        r == span_count(kind),
{
    match kind {
        DiagnosticKind::UnrecognizedTokens => 1,
        DiagnosticKind::MissingOperationDefinitionName => 1,
        DiagnosticKind::MissingOperationDefinitionSelectionSet => 1,
        DiagnosticKind::MissingSelectionSetClosingBrace => 2,
        DiagnosticKind::MissingFieldName => 1,
        DiagnosticKind::MissingArgumentsClosingParentheses => 2,
        DiagnosticKind::MissingArgumentColon => 1,
        DiagnosticKind::MissingArgumentValue => 1,
        DiagnosticKind::MissingInlineFragmentSelectionSet => 1,
        DiagnosticKind::MissingFragmentName => 1,
        DiagnosticKind::MissingFragmentTypeCondition => 1,
        DiagnosticKind::MissingFragmentSelectionSet => 1,
        DiagnosticKind::MissingTypeConditionNamedType => 1,
        DiagnosticKind::MissingListValueClosingBracket => 2,
        DiagnosticKind::MissingObjectValueClosingBrace => 2,
        DiagnosticKind::MissingObjectFieldColon => 1,
        DiagnosticKind::MissingObjectFieldValue => 1,
        DiagnosticKind::MissingVariableDefinitionsClosingParenthesis => 2,
        DiagnosticKind::MissingVariableDefinitionColon => 1,
        DiagnosticKind::MissingVariableDefinitionType => 1,
        DiagnosticKind::MissingDefaultValue => 1,
        DiagnosticKind::MissingListTypeClosingBracket => 2,
        DiagnosticKind::MissingListTypeWrappedType => 1,
        DiagnosticKind::MissingDirectiveName => 1,
        DiagnosticKind::MissingRootOperationTypeDefinitions => 1,
        DiagnosticKind::MissingRootOperationTypeDefinitionsClosingBrace => 2,
        DiagnosticKind::MissingRootOperationTypeDefinitionColon => 1,
        DiagnosticKind::MissingRootOperationTypeDefinitionNamedType => 1,
        DiagnosticKind::MissingScalarTypeDefinitionName => 1,
        DiagnosticKind::MissingScalarTypeExtensionName => 1,
        DiagnosticKind::MissingScalarTypeExtensionDirectives => 1,
        DiagnosticKind::MissingObjectTypeDefinitionName => 1,
        DiagnosticKind::MissingFirstImplementsInterface => 1,
        DiagnosticKind::MissingSecondImplementsInterface => 1,
        DiagnosticKind::MissingFieldsDefinitionClosingBrace => 2,
        DiagnosticKind::MissingFieldDefinitionColon => 1,
        DiagnosticKind::MissingFieldDefinitionType => 1,
        DiagnosticKind::MissingArgumentsDefinitionClosingParenthesis => 2,
        DiagnosticKind::MissingInputValueDefinitionColon => 1,
        DiagnosticKind::MissingInputValueDefinitionType => 1,
        DiagnosticKind::MissingObjectTypeExtensionName => 1,
        DiagnosticKind::MissingInterfaceTypeDefinitionName => 1,
        DiagnosticKind::MissingInterfaceTypeExtensionName => 1,
        DiagnosticKind::MissingUnionTypeDefinitionName => 1,
        DiagnosticKind::MissingFirstUnionMemberType => 1,
        DiagnosticKind::MissingSecondUnionMemberType => 1,
        DiagnosticKind::MissingUnionTypeExtensionName => 1,
        DiagnosticKind::MissingEnumTypeDefinitionName => 1,
        DiagnosticKind::MissingEnumValuesClosingBrace => 2,
        DiagnosticKind::MissingEnumTypeExtensionName => 1,
        DiagnosticKind::MissingInputObjectTypeDefinitionName => 1,
        DiagnosticKind::MissingInputFieldsDefinitionClosingBrace => 2,
        DiagnosticKind::MissingInputObjectTypeExtensionName => 1,
        DiagnosticKind::MissingDirectiveDefinitionAt => 1,
        DiagnosticKind::MissingDirectiveDefinitionName => 1,
        DiagnosticKind::MissingDirectiveDefinitionLocations => 1,
        DiagnosticKind::MissingFirstDirectiveLocation => 1,
        DiagnosticKind::MissingSecondDirectiveLocation => 1,
        DiagnosticKind::UnknownNamedType => 1,
        DiagnosticKind::EmptyType => 1,
        DiagnosticKind::DuplicateField => 2,
        DiagnosticKind::DuplicateExtendedField => 3,
        DiagnosticKind::ReservedFieldName => 1,
        DiagnosticKind::FieldNotOutputType => 1,
        DiagnosticKind::DuplicateArgumentName => 2,
        DiagnosticKind::ReservedInputValueName => 1,
        DiagnosticKind::InputValueNotInputType => 1,
        DiagnosticKind::DuplicateImplementsInterface => 2,
        DiagnosticKind::ImplementsNonInterfaceType => 1,
        DiagnosticKind::MissingInheritedInterface => 1,
        DiagnosticKind::MissingInterfaceField => 1,
        DiagnosticKind::MissingInterfaceFieldArgument => 1,
        DiagnosticKind::InvalidInterfaceFieldArgumentType => 1,
        DiagnosticKind::UnexpectedNonNullExtraInterfaceFieldArgument => 1,
        DiagnosticKind::NonCovariantInterfaceField => 1,
        DiagnosticKind::SelfReferentialInterface => 1,
        DiagnosticKind::MissingUnionMembers => 1,
        DiagnosticKind::DuplicateUnionMember => 2,
        DiagnosticKind::NonObjectUnionMember => 1,
        DiagnosticKind::MissingEnumValues => 1,
        DiagnosticKind::DuplicateEnumValue => 2,
        DiagnosticKind::SelfReferentialInputType => 1,
        DiagnosticKind::ReservedDirectiveName => 1,
        DiagnosticKind::SelfReferentialDirective => 1,
        DiagnosticKind::DuplicateTypeName => 2,
        DiagnosticKind::DuplicateDirectiveName => 2,
        DiagnosticKind::DifferentExtensionType => 2,
        DiagnosticKind::ExpectedNonNullValue => 1,
        DiagnosticKind::ExpectedListValue => 1,
        DiagnosticKind::ExpectedIntValue => 1,
        DiagnosticKind::ExpectedFloatValue => 1,
        DiagnosticKind::ExpectedStringValue => 1,
        DiagnosticKind::ExpectedBooleanValue => 1,
        DiagnosticKind::ExpectedInputObjectValue => 1,
        DiagnosticKind::MissingInputField => 1,
        DiagnosticKind::UnrecognizedInputField => 1,
        DiagnosticKind::UnrecognizedEnumValue => 1,
        DiagnosticKind::DuplicateOperationName => 2,
        DiagnosticKind::LoneAnonymousOperation => 1,
        DiagnosticKind::UndefinedField => 1,
    }
}

fn kind_label_spans(kind: DiagnosticKind) -> (r: Vec<usize>)
    ensures
        r@ == label_spans(kind).map_values(|k: int| k as usize),
        forall|j: int| 0 <= j < r@.len() ==> r@[j] < span_count(kind),
{
    let r = match kind {
        DiagnosticKind::UnrecognizedTokens => vec![0],
        DiagnosticKind::MissingOperationDefinitionName => vec![0],
        DiagnosticKind::MissingOperationDefinitionSelectionSet => vec![0],
        DiagnosticKind::MissingSelectionSetClosingBrace => vec![0, 1],
        DiagnosticKind::MissingFieldName => vec![0],
        DiagnosticKind::MissingArgumentsClosingParentheses => vec![0, 1],
        DiagnosticKind::MissingArgumentColon => vec![0],
        DiagnosticKind::MissingArgumentValue => vec![0],
        DiagnosticKind::MissingInlineFragmentSelectionSet => vec![0],
        DiagnosticKind::MissingFragmentName => vec![0],
        DiagnosticKind::MissingFragmentTypeCondition => vec![0],
        DiagnosticKind::MissingFragmentSelectionSet => vec![0],
        DiagnosticKind::MissingTypeConditionNamedType => vec![0],
        DiagnosticKind::MissingListValueClosingBracket => vec![0, 1],
        DiagnosticKind::MissingObjectValueClosingBrace => vec![0, 1],
        DiagnosticKind::MissingObjectFieldColon => vec![0],
        DiagnosticKind::MissingObjectFieldValue => vec![0],
        DiagnosticKind::MissingVariableDefinitionsClosingParenthesis => vec![0, 1],
        DiagnosticKind::MissingVariableDefinitionColon => vec![0],
        DiagnosticKind::MissingVariableDefinitionType => vec![0],
        DiagnosticKind::MissingDefaultValue => vec![0],
        DiagnosticKind::MissingListTypeClosingBracket => vec![0, 1],
        DiagnosticKind::MissingListTypeWrappedType => vec![0],
        DiagnosticKind::MissingDirectiveName => vec![0],
        DiagnosticKind::MissingRootOperationTypeDefinitions => vec![0],
        DiagnosticKind::MissingRootOperationTypeDefinitionsClosingBrace => vec![0, 1],
        DiagnosticKind::MissingRootOperationTypeDefinitionColon => vec![0],
        DiagnosticKind::MissingRootOperationTypeDefinitionNamedType => vec![0],
        DiagnosticKind::MissingScalarTypeDefinitionName => vec![0],
        DiagnosticKind::MissingScalarTypeExtensionName => vec![0],
        DiagnosticKind::MissingScalarTypeExtensionDirectives => vec![0],
        DiagnosticKind::MissingObjectTypeDefinitionName => vec![0],
        DiagnosticKind::MissingFirstImplementsInterface => vec![0],
        DiagnosticKind::MissingSecondImplementsInterface => vec![0],
        DiagnosticKind::MissingFieldsDefinitionClosingBrace => vec![0, 1],
        DiagnosticKind::MissingFieldDefinitionColon => vec![0],
        DiagnosticKind::MissingFieldDefinitionType => vec![0],
        DiagnosticKind::MissingArgumentsDefinitionClosingParenthesis => vec![0, 1],
        DiagnosticKind::MissingInputValueDefinitionColon => vec![0],
        DiagnosticKind::MissingInputValueDefinitionType => vec![0],
        DiagnosticKind::MissingObjectTypeExtensionName => vec![0],
        DiagnosticKind::MissingInterfaceTypeDefinitionName => vec![0],
        DiagnosticKind::MissingInterfaceTypeExtensionName => vec![0],
        DiagnosticKind::MissingUnionTypeDefinitionName => vec![0],
        DiagnosticKind::MissingFirstUnionMemberType => vec![0],
        DiagnosticKind::MissingSecondUnionMemberType => vec![0],
        DiagnosticKind::MissingUnionTypeExtensionName => vec![0],
        DiagnosticKind::MissingEnumTypeDefinitionName => vec![0],
        DiagnosticKind::MissingEnumValuesClosingBrace => vec![0, 1],
        DiagnosticKind::MissingEnumTypeExtensionName => vec![0],
        DiagnosticKind::MissingInputObjectTypeDefinitionName => vec![0],
        DiagnosticKind::MissingInputFieldsDefinitionClosingBrace => vec![0, 1],
        DiagnosticKind::MissingInputObjectTypeExtensionName => vec![0],
        DiagnosticKind::MissingDirectiveDefinitionAt => vec![0],
        DiagnosticKind::MissingDirectiveDefinitionName => vec![0],
        DiagnosticKind::MissingDirectiveDefinitionLocations => vec![0],
        DiagnosticKind::MissingFirstDirectiveLocation => vec![0],
        DiagnosticKind::MissingSecondDirectiveLocation => vec![0],
        DiagnosticKind::UnknownNamedType => vec![0],
        DiagnosticKind::EmptyType => vec![0],
        DiagnosticKind::DuplicateField => vec![0, 1],
        DiagnosticKind::DuplicateExtendedField => vec![0, 1, 2],
        DiagnosticKind::ReservedFieldName => vec![0],
        DiagnosticKind::FieldNotOutputType => vec![0],
        DiagnosticKind::DuplicateArgumentName => vec![0, 1],
        DiagnosticKind::ReservedInputValueName => vec![0],
        DiagnosticKind::InputValueNotInputType => vec![0],
        DiagnosticKind::DuplicateImplementsInterface => vec![0, 1],
        DiagnosticKind::ImplementsNonInterfaceType => vec![0],
        DiagnosticKind::MissingInheritedInterface => vec![0],
        DiagnosticKind::MissingInterfaceField => vec![0],
        DiagnosticKind::MissingInterfaceFieldArgument => vec![0],
        DiagnosticKind::InvalidInterfaceFieldArgumentType => vec![0],
        DiagnosticKind::UnexpectedNonNullExtraInterfaceFieldArgument => vec![0],
        DiagnosticKind::NonCovariantInterfaceField => vec![0],
        DiagnosticKind::SelfReferentialInterface => vec![0],
        DiagnosticKind::MissingUnionMembers => vec![0],
        DiagnosticKind::DuplicateUnionMember => vec![0, 1],
        DiagnosticKind::NonObjectUnionMember => vec![0],
        DiagnosticKind::MissingEnumValues => vec![0],
        DiagnosticKind::DuplicateEnumValue => vec![0, 1],
        DiagnosticKind::SelfReferentialInputType => vec![0],
        DiagnosticKind::ReservedDirectiveName => vec![0],
        DiagnosticKind::SelfReferentialDirective => vec![0],
        DiagnosticKind::DuplicateTypeName => vec![0, 1],
        DiagnosticKind::DuplicateDirectiveName => vec![0, 1],
        DiagnosticKind::DifferentExtensionType => vec![0, 1],
        DiagnosticKind::ExpectedNonNullValue => vec![0],
        DiagnosticKind::ExpectedListValue => vec![0],
        DiagnosticKind::ExpectedIntValue => vec![0],
        DiagnosticKind::ExpectedFloatValue => vec![0],
        DiagnosticKind::ExpectedStringValue => vec![0],
        DiagnosticKind::ExpectedBooleanValue => vec![0],
        DiagnosticKind::ExpectedInputObjectValue => vec![0],
        DiagnosticKind::MissingInputField => vec![0],
        DiagnosticKind::UnrecognizedInputField => vec![0],
        DiagnosticKind::UnrecognizedEnumValue => vec![0],
        DiagnosticKind::DuplicateOperationName => vec![0, 1],
        DiagnosticKind::LoneAnonymousOperation => vec![0],
        DiagnosticKind::UndefinedField => vec![0],
    };
    assert(r@ =~= label_spans(kind).map_values(|k: int| k as usize));
    r
}

} // verus!
