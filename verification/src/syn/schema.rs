use vstd::prelude::*;

use crate::ast::context::{node_of, List, Shared};
use crate::ast::types::{
    Missing, ArgumentsDefinition, Description, DirectiveDefinition, DirectiveLocation, DirectiveLocations, EnumTypeDefinition, EnumTypeExtension, EnumValueDefinition, EnumValuesDefinition, ExecutableDirectiveLocation, FieldDefinition, FieldsDefinition, ImplementsInterfaces, InputFieldsDefinition, InputObjectTypeDefinition, InputObjectTypeExtension, InputValueDefinition, InterfaceTypeDefinition, InterfaceTypeExtension, NamedType, ObjectTypeDefinition, ObjectTypeExtension, Recoverable, RootOperationTypeDefinition, RootOperationTypeDefinitions, ScalarTypeDefinition, ScalarTypeExtension, SchemaDefinition, SchemaExtension, TypeDefinition, TypeExtension, TypeSystemDefinition, TypeSystemDefinitionOrExtension, TypeSystemDirectiveLocation, TypeSystemDocument, TypeSystemExtension, TypeSystemExtensionDocument, UnionMemberTypes, UnionTypeDefinition, UnionTypeExtension,
};
use crate::ast::tokens::{tokens_directives, tokens_named_type, 
    tokens_arguments_definition, tokens_description, tokens_directive_definition, tokens_directive_location, tokens_directive_locations, tokens_enum_type_definition, tokens_enum_type_extension, tokens_enum_value_definition, tokens_enum_values_definition, tokens_executable_directive_location, tokens_field_definition, tokens_fields_definition, tokens_implements_interfaces, tokens_input_fields_definition, tokens_input_object_type_definition, tokens_input_object_type_extension, tokens_input_value_definition, tokens_interface_type_definition, tokens_interface_type_extension, tokens_list_punctuator_recoverable_directive_location, tokens_list_punctuator_recoverable_shared_named_type, tokens_list_root_operation_type_definition, tokens_list_shared_enum_value_definition, tokens_list_shared_field_definition, tokens_list_shared_input_value_definition, tokens_list_type_system_definition, tokens_list_type_system_definition_or_extension, tokens_object_type_definition, tokens_object_type_extension, tokens_root_operation_type_definition, tokens_root_operation_type_definitions, tokens_scalar_type_definition, tokens_scalar_type_extension, tokens_schema_definition, tokens_schema_extension, tokens_type_definition, tokens_type_extension, tokens_type_system_definition, tokens_type_system_definition_or_extension, tokens_type_system_directive_location, tokens_type_system_document, tokens_type_system_extension, tokens_type_system_extension_document, tokens_union_member_types, tokens_union_type_definition, tokens_union_type_extension,
};
use crate::chk::errors::{all_recorded, lemma_all_recorded_add, lemma_all_recorded_one};
use crate::chk::traverse::{
    sites_arguments_definition, sites_description, sites_directive_definition, sites_directive_location, sites_directive_locations, sites_enum_type_definition, sites_enum_type_extension, sites_enum_value_definition, sites_enum_values_definition, sites_executable_directive_location, sites_field_definition, sites_fields_definition, sites_implements_interfaces, sites_input_fields_definition, sites_input_object_type_definition, sites_input_object_type_extension, sites_input_value_definition, sites_interface_type_definition, sites_interface_type_extension, sites_list_punctuator_recoverable_directive_location, sites_list_punctuator_recoverable_shared_named_type, sites_list_root_operation_type_definition, sites_list_shared_enum_value_definition, sites_list_shared_field_definition, sites_list_shared_input_value_definition, sites_list_type_system_definition, sites_list_type_system_definition_or_extension, sites_object_type_definition, sites_object_type_extension, sites_root_operation_type_definition, sites_root_operation_type_definitions, sites_scalar_type_definition, sites_scalar_type_extension, sites_schema_definition, sites_schema_extension, sites_type_definition, sites_type_extension, sites_type_system_definition, sites_type_system_definition_or_extension, sites_type_system_directive_location, sites_type_system_document, sites_type_system_extension, sites_type_system_extension_document, sites_union_member_types, sites_union_type_definition, sites_union_type_extension,
};
use crate::diagnostics::DiagnosticKind;
use crate::lex::kind::TokenKind;
use crate::lex::token::{Name, Punctuator};
use crate::lex::Span;

use super::combinators::{keyword, name, name_unless_on, punctuator, string_value};
use super::executable::{
    default_value, directives, either, operation_type_start_kinds, enum_value, missing_binary, missing_unary, named_type,
    operation_type, operation_type_start, ty, type_start,
};
use super::kinds::KindSet;
use super::recovery::RecoveryPoint;
use super::stream::{ends_with, lemma_join_assoc, lemma_join_take, advanced, begins, count, read_into, stray_description, Error, Stream};
use super::RECURSION_LIMIT;

verus! {

broadcast use {
    lemma_join_assoc,
    lemma_join_take,
    Seq::add_empty_left,
    Seq::add_empty_right,
    lemma_all_recorded_add, lemma_all_recorded_one, KindSet::lemma_single};

/// The keywords that a type definition starts with.
pub open spec fn type_definition_start_kinds() -> Set<TokenKind> {
    set![TokenKind::KeywordScalar, TokenKind::KeywordType].union(
        set![TokenKind::KeywordInterface, TokenKind::KeywordUnion],
    ).union(set![TokenKind::KeywordEnum, TokenKind::KeywordInput])
}

/// The recovery point for those kinds.
pub(crate) fn type_definition_start() -> (r: RecoveryPoint)
    ensures
        r.kinds@ == type_definition_start_kinds(),
        !r.exclude_on,
{
    either(TokenKind::KeywordScalar, TokenKind::KeywordType).or(
        either(TokenKind::KeywordInterface, TokenKind::KeywordUnion),
    ).or(either(TokenKind::KeywordEnum, TokenKind::KeywordInput))
}

/// The keywords that a type system definition starts with, after its
/// description.
pub open spec fn described_definition_start_kinds() -> Set<TokenKind> {
    type_definition_start_kinds().union(set![TokenKind::KeywordSchema, TokenKind::KeywordDirective])
}

/// The recovery point for those kinds.
pub(crate) fn described_definition_start() -> (r: RecoveryPoint)
    ensures
        r.kinds@ == described_definition_start_kinds(),
        !r.exclude_on,
{
    type_definition_start().or(either(TokenKind::KeywordSchema, TokenKind::KeywordDirective))
}

/// The tokens that a type system definition starts with.
pub open spec fn type_system_definition_start_kinds() -> Set<TokenKind> {
    described_definition_start_kinds().union(set![TokenKind::StringValue])
}

/// The recovery point for those kinds.
pub(crate) fn type_system_definition_start() -> (r: RecoveryPoint)
    ensures
        r.kinds@ == type_system_definition_start_kinds(),
        !r.exclude_on,
{
    described_definition_start().or(RecoveryPoint::from_kind(TokenKind::StringValue))
}

/// The tokens that a type system definition or extension starts with.
pub open spec fn type_system_definition_or_extension_start_kinds() -> Set<TokenKind> {
    type_system_definition_start_kinds().union(set![TokenKind::KeywordExtend])
}

/// The recovery point for those kinds.
pub(crate) fn type_system_definition_or_extension_start() -> (r: RecoveryPoint)
    ensures
        r.kinds@ == type_system_definition_or_extension_start_kinds(),
        !r.exclude_on,
{
    type_system_definition_start().or(RecoveryPoint::from_kind(TokenKind::KeywordExtend))
}

/// The tokens that a field or an input value definition starts with.
pub open spec fn value_definition_start_kinds() -> Set<TokenKind> {
    set![TokenKind::StringValue, TokenKind::Name]
}

/// The recovery point for those kinds.
pub(crate) fn value_definition_start() -> (r: RecoveryPoint)
    ensures
        r.kinds@ == value_definition_start_kinds(),
        !r.exclude_on,
{
    either(TokenKind::StringValue, TokenKind::Name)
}

/// The keywords of the locations of directives.
pub open spec fn directive_location_start_kinds() -> Set<TokenKind> {
    executable_directive_location_start_kinds().union(type_system_directive_location_start_kinds())
}

/// The recovery point for those kinds.
pub(crate) fn directive_location_start() -> (r: RecoveryPoint)
    ensures
        r.kinds@ == directive_location_start_kinds(),
        !r.exclude_on,
{
    executable_directive_location_start().or(type_system_directive_location_start())
}

/// The keywords of the locations of directives in executable documents.
pub open spec fn executable_directive_location_start_kinds() -> Set<TokenKind> {
    set![TokenKind::KeywordDirectiveQuery, TokenKind::KeywordDirectiveMutation].union(
        set![TokenKind::KeywordDirectiveSubscription, TokenKind::KeywordDirectiveField],
    ).union(
        set![TokenKind::KeywordDirectiveFragmentDefinition, TokenKind::KeywordDirectiveFragmentSpread],
    ).union(
        set![TokenKind::KeywordDirectiveInlineFragment, TokenKind::KeywordDirectiveVariableDefinition],
    )
}

/// The recovery point for those kinds.
pub(crate) fn executable_directive_location_start() -> (r: RecoveryPoint)
    ensures
        r.kinds@ == executable_directive_location_start_kinds(),
        !r.exclude_on,
{
    either(TokenKind::KeywordDirectiveQuery, TokenKind::KeywordDirectiveMutation).or(
        either(TokenKind::KeywordDirectiveSubscription, TokenKind::KeywordDirectiveField),
    ).or(
        either(
            TokenKind::KeywordDirectiveFragmentDefinition,
            TokenKind::KeywordDirectiveFragmentSpread,
        ),
    ).or(
        either(
            TokenKind::KeywordDirectiveInlineFragment,
            TokenKind::KeywordDirectiveVariableDefinition,
        ),
    )
}

/// The keywords of the locations of directives in type systems.
pub open spec fn type_system_directive_location_start_kinds() -> Set<TokenKind> {
    set![TokenKind::KeywordDirectiveSchema, TokenKind::KeywordDirectiveScalar].union(
        set![TokenKind::KeywordDirectiveObject, TokenKind::KeywordDirectiveFieldDefinition],
    ).union(
        set![TokenKind::KeywordDirectiveArgumentDefinition, TokenKind::KeywordDirectiveInterface],
    ).union(set![TokenKind::KeywordDirectiveUnion, TokenKind::KeywordDirectiveEnum]).union(
        set![TokenKind::KeywordDirectiveEnumValue, TokenKind::KeywordDirectiveInputObject],
    ).union(set![TokenKind::KeywordDirectiveInputFieldDefinition])
}

/// The recovery point for those kinds.
pub(crate) fn type_system_directive_location_start() -> (r: RecoveryPoint)
    ensures
        r.kinds@ == type_system_directive_location_start_kinds(),
        !r.exclude_on,
{
    either(TokenKind::KeywordDirectiveSchema, TokenKind::KeywordDirectiveScalar).or(
        either(TokenKind::KeywordDirectiveObject, TokenKind::KeywordDirectiveFieldDefinition),
    ).or(
        either(TokenKind::KeywordDirectiveArgumentDefinition, TokenKind::KeywordDirectiveInterface),
    ).or(either(TokenKind::KeywordDirectiveUnion, TokenKind::KeywordDirectiveEnum)).or(
        either(TokenKind::KeywordDirectiveEnumValue, TokenKind::KeywordDirectiveInputObject),
    ).or(RecoveryPoint::from_kind(TokenKind::KeywordDirectiveInputFieldDefinition))
}

/// Parses a type system document: type system definitions, one after the
/// other, up to the first token that starts none.
#[verifier::spinoff_prover]
pub fn type_system_document(s: &mut Stream, rp: RecoveryPoint) -> (r: Result<
    TypeSystemDocument,
    Error,
>)
    requires
        old(s).wf(),
    ensures
        advanced(*old(s), *final(s)),
        r matches Err(Error::MaxRecursion(_)) ==> old(s).len() > RECURSION_LIMIT,
        !stray_description(*final(s)) ==> !(r matches Err(Error::Expected(_))),
        r matches Ok(n) ==> all_recorded(sites_type_system_document(n)) && read_into(*old(s), *final(s), tokens_type_system_document(n), 0),
{
    let item = type_system_definition_start();
    let next = rp.or(item);
    let mut definitions: Vec<TypeSystemDefinition> = Vec::new();
    let ghost entry = *s;
    while s.recognize(item)
        invariant
            item.kinds@ == type_system_definition_start_kinds(),
            !item.exclude_on,
            advanced(*old(s), *s),
            all_recorded(sites_list_type_system_definition(definitions@)),
            entry.len() - s.len() == tokens_list_type_system_definition(definitions@).len() + s.skipped().len() - entry.skipped().len(),
            s.read_log() == entry.read_log() + tokens_list_type_system_definition(definitions@),
        decreases s.len(),
    {
        let d = type_system_definition(s, next)?;
        let ghost before = definitions@;
        definitions.push(d);
        assert(definitions@.drop_last() =~= before);
    }
    Ok(TypeSystemDocument { definitions: List(definitions) })
}

/// Parses a type system definition: a description, and the definition that
/// it documents; a description that documents nothing stands for itself.
#[verifier::spinoff_prover]
pub fn type_system_definition(s: &mut Stream, rp: RecoveryPoint) -> (r: Result<
    TypeSystemDefinition,
    Error,
>)
    requires
        old(s).wf(),
    ensures
        advanced(*old(s), *final(s)),
        r matches Err(Error::MaxRecursion(_)) ==> old(s).len() > RECURSION_LIMIT,
        begins(*old(s), type_system_definition_start_kinds(), false) && !stray_description(*final(s)) ==> !(r matches Err(Error::Expected(_))),
        r matches Ok(n) ==> final(s).len() < old(s).len() && all_recorded(
            sites_type_system_definition(n),
        ) && read_into(*old(s), *final(s), tokens_type_system_definition(n), 0),
{
    let described = described_definition_start();
    if s.recognize(RecoveryPoint::from_kind(TokenKind::StringValue)) {
        let d = description(s)?;
        if s.recognize(described) {
            type_system_definition_with_description(s, rp, Some(d))
        } else {
            Ok(TypeSystemDefinition::Error(d))
        }
    } else if s.recognize(described) {
        type_system_definition_with_description(s, rp, None)
    } else {
        Err(Error::Expected(type_system_definition_start()))
    }
}

/// Parses the definition that a description documents: a schema, a type or
/// a directive.
#[verifier::spinoff_prover]
pub fn type_system_definition_with_description(
    s: &mut Stream,
    rp: RecoveryPoint,
    description: Option<Description>,
) -> (r: Result<TypeSystemDefinition, Error>)
    requires
        old(s).wf(),
        description matches Some(d) ==> ends_with(old(s).read_log(), seq![d.0.0.span]),
        description is Some ==> old(s).started(),
    ensures
        advanced(*old(s), *final(s)),
        r matches Err(Error::MaxRecursion(_)) ==> old(s).len() > RECURSION_LIMIT,
        begins(*old(s), described_definition_start_kinds(), false) && !stray_description(*final(s)) ==> !(r matches Err(Error::Expected(_))),
        r matches Ok(n) ==> final(s).len() < old(s).len() && all_recorded(
            sites_type_system_definition(n),
        ) && read_into(*old(s), *final(s), tokens_type_system_definition(n), count(description)),
{
    if s.recognize(RecoveryPoint::from_kind(TokenKind::KeywordSchema)) {
        Ok(TypeSystemDefinition::SchemaDefinition(schema_definition(s, rp, description)?))
    } else if s.recognize(type_definition_start()) {
        Ok(TypeSystemDefinition::TypeDefinition(Shared::new(type_definition(s, rp, description)?)))
    } else if s.recognize(RecoveryPoint::from_kind(TokenKind::KeywordDirective)) {
        Ok(
            TypeSystemDefinition::DirectiveDefinition(
                Shared::new(directive_definition(s, rp, description)?),
            ),
        )
    } else {
        Err(Error::Expected(described_definition_start()))
    }
}

/// Parses a type system extension document: type system definitions and
/// extensions, one after the other, up to the first token that starts none.
#[verifier::spinoff_prover]
pub fn type_system_extension_document(s: &mut Stream, rp: RecoveryPoint) -> (r: Result<
    TypeSystemExtensionDocument,
    Error,
>)
    requires
        old(s).wf(),
    ensures
        advanced(*old(s), *final(s)),
        r matches Err(Error::MaxRecursion(_)) ==> old(s).len() > RECURSION_LIMIT,
        !stray_description(*final(s)) ==> !(r matches Err(Error::Expected(_))),
        r matches Ok(n) ==> all_recorded(sites_type_system_extension_document(n)) && read_into(*old(s), *final(s), tokens_type_system_extension_document(n), 0),
{
    let item = type_system_definition_or_extension_start();
    let next = rp.or(item);
    let mut definitions: Vec<TypeSystemDefinitionOrExtension> = Vec::new();
    let ghost entry = *s;
    while s.recognize(item)
        invariant
            item.kinds@ == type_system_definition_or_extension_start_kinds(),
            !item.exclude_on,
            advanced(*old(s), *s),
            all_recorded(sites_list_type_system_definition_or_extension(definitions@)),
            entry.len() - s.len() == tokens_list_type_system_definition_or_extension(definitions@).len() + s.skipped().len() - entry.skipped().len(),
            s.read_log() == entry.read_log() + tokens_list_type_system_definition_or_extension(definitions@),
        decreases s.len(),
    {
        let d = type_system_definition_or_extension(s, next)?;
        let ghost before = definitions@;
        definitions.push(d);
        assert(definitions@.drop_last() =~= before);
    }
    Ok(TypeSystemExtensionDocument { definitions: List(definitions) })
}

/// Parses a type system definition or a type system extension.
#[verifier::spinoff_prover]
pub fn type_system_definition_or_extension(s: &mut Stream, rp: RecoveryPoint) -> (r: Result<
    TypeSystemDefinitionOrExtension,
    Error,
>)
    requires
        old(s).wf(),
    ensures
        advanced(*old(s), *final(s)),
        r matches Err(Error::MaxRecursion(_)) ==> old(s).len() > RECURSION_LIMIT,
        begins(*old(s), type_system_definition_or_extension_start_kinds(), false) && !stray_description(*final(s)) ==> !(r matches Err(Error::Expected(_))),
        r matches Ok(n) ==> final(s).len() < old(s).len() && all_recorded(
            sites_type_system_definition_or_extension(n),
        ) && read_into(*old(s), *final(s), tokens_type_system_definition_or_extension(n), 0),
{
    if s.recognize(type_system_definition_start()) {
        Ok(
            TypeSystemDefinitionOrExtension::TypeSystemDefinition(
                type_system_definition(s, rp)?,
            ),
        )
    } else if s.recognize(RecoveryPoint::from_kind(TokenKind::KeywordExtend)) {
        Ok(TypeSystemDefinitionOrExtension::TypeSystemExtension(type_system_extension(s, rp)?))
    } else {
        Err(Error::Expected(type_system_definition_or_extension_start()))
    }
}

/// Parses a type system extension: `extend` and what it extends; an
/// `extend` that extends nothing stands for itself.
#[verifier::spinoff_prover]
pub fn type_system_extension(s: &mut Stream, rp: RecoveryPoint) -> (r: Result<
    TypeSystemExtension,
    Error,
>)
    requires
        old(s).wf(),
    ensures
        advanced(*old(s), *final(s)),
        r matches Err(Error::MaxRecursion(_)) ==> old(s).len() > RECURSION_LIMIT,
        begins(*old(s), set![TokenKind::KeywordExtend], false) && !stray_description(*final(s)) ==> !(r matches Err(Error::Expected(_))),
        r matches Ok(n) ==> final(s).len() < old(s).len() && all_recorded(
            sites_type_system_extension(n),
        ) && read_into(*old(s), *final(s), tokens_type_system_extension(n), 0),
{
    let extend = keyword(s, TokenKind::KeywordExtend)?;
    type_system_extension_with_extend(s, rp, extend)
}

/// Parses what follows `extend`: a schema extension or a type extension.
#[verifier::spinoff_prover]
pub fn type_system_extension_with_extend(s: &mut Stream, rp: RecoveryPoint, extend: Name) -> (r:
    Result<TypeSystemExtension, Error>)
    requires
        old(s).wf(),
        ends_with(old(s).read_log(), seq![extend.0.span]),
        old(s).started(),
    ensures
        advanced(*old(s), *final(s)),
        r matches Err(Error::MaxRecursion(_)) ==> old(s).len() > RECURSION_LIMIT,
        !stray_description(*final(s)) ==> !(r matches Err(Error::Expected(_))),
        r matches Ok(n) ==> all_recorded(sites_type_system_extension(n)) && read_into(*old(s), *final(s), tokens_type_system_extension(n), 1),
{
    if s.recognize(RecoveryPoint::from_kind(TokenKind::KeywordSchema)) {
        Ok(TypeSystemExtension::SchemaExtension(schema_extension(s, rp, extend)?))
    } else if s.recognize(type_definition_start()) {
        Ok(TypeSystemExtension::TypeExtension(Shared::new(type_extension(s, rp, extend)?)))
    } else {
        Ok(TypeSystemExtension::Error(extend))
    }
}

/// Parses a description: a string.
#[verifier::spinoff_prover]
pub fn description(s: &mut Stream) -> (r: Result<Description, Error>)
    requires
        old(s).wf(),
    ensures
        advanced(*old(s), *final(s)),
        r matches Err(Error::MaxRecursion(_)) ==> old(s).len() > RECURSION_LIMIT,
        begins(*old(s), set![TokenKind::StringValue], false) ==> !(r matches Err(Error::Expected(_))),
        r matches Ok(n) ==> final(s).len() < old(s).len() && all_recorded(sites_description(n)) && read_into(*old(s), *final(s), tokens_description(n), 0),
        r is Ok ==> final(s).last_read() == Some(TokenKind::StringValue),
{
    Ok(Description(string_value(s)?))
}

/// Parses a schema definition: `schema`, directives and the root operation
/// types.
#[verifier::spinoff_prover]
pub fn schema_definition(s: &mut Stream, rp: RecoveryPoint, description: Option<Description>) -> (r:
    Result<SchemaDefinition, Error>)
    requires
        old(s).wf(),
        description matches Some(d) ==> ends_with(old(s).read_log(), seq![d.0.0.span]),
    ensures
        advanced(*old(s), *final(s)),
        r matches Err(Error::MaxRecursion(_)) ==> old(s).len() > RECURSION_LIMIT,
        begins(*old(s), set![TokenKind::KeywordSchema], false) ==> !(r matches Err(Error::Expected(_))),
        r matches Ok(n) ==> final(s).len() < old(s).len() && all_recorded(
            sites_schema_definition(n),
        ) && read_into(*old(s), *final(s), tokens_schema_definition(n), count(description)),
{
    let brace = RecoveryPoint::from_kind(TokenKind::BraceLeft);
    let schema = keyword(s, TokenKind::KeywordSchema)?;
    let directive_list = if s.recognize(RecoveryPoint::from_kind(TokenKind::At)) {
        Some(directives(s, rp.or(brace))?)
    } else {
        None
    };
    let type_definitions = if s.discard(brace, rp) {
        Recoverable::Present(root_operation_type_definitions(s, rp)?)
    } else {
        Recoverable::Missing(missing_unary(s, DiagnosticKind::MissingRootOperationTypeDefinitions))
    };
    Ok(SchemaDefinition { description, schema, directives: directive_list, type_definitions })
}

/// Parses the root operation types of a schema, in braces.
#[verifier::spinoff_prover]
pub fn root_operation_type_definitions(s: &mut Stream, rp: RecoveryPoint) -> (r: Result<
    RootOperationTypeDefinitions,
    Error,
>)
    requires
        old(s).wf(),
    ensures
        advanced(*old(s), *final(s)),
        r matches Err(Error::MaxRecursion(_)) ==> old(s).len() > RECURSION_LIMIT,
        begins(*old(s), set![TokenKind::BraceLeft], false) ==> !(r matches Err(Error::Expected(_))),
        r matches Ok(n) ==> final(s).len() < old(s).len() && all_recorded(
            sites_root_operation_type_definitions(n),
        ) && read_into(*old(s), *final(s), tokens_root_operation_type_definitions(n), 0),
        r matches Ok(n) ==> (n.definitions matches Recoverable::Missing(m) ==> m.missing == Missing::Unary(DiagnosticKind::MissingRootOperationTypeDefinitions)),
        r matches Ok(n) ==> (n.braces.1 matches Recoverable::Missing(m) ==> m.missing is Binary && m.missing->Binary_0 == DiagnosticKind::MissingRootOperationTypeDefinitionsClosingBrace),
{
    let left = punctuator(s, TokenKind::BraceLeft)?;
    let close = RecoveryPoint::from_kind(TokenKind::BraceRight);
    let item = operation_type_start();
    let inner = rp.or(close);
    let definitions = if s.discard(item, inner) {
        let next = inner.or(item);
        let mut items: Vec<RootOperationTypeDefinition> = Vec::new();
        let ghost entry = *s;
        while s.recognize(item)
            invariant
                item.kinds@ == operation_type_start_kinds(),
                !item.exclude_on,
                advanced(*old(s), *s),
                s.len() < old(s).len(),
                all_recorded(sites_list_root_operation_type_definition(items@)),
                entry.len() - s.len() == tokens_list_root_operation_type_definition(items@).len() + s.skipped().len() - entry.skipped().len(),
                s.read_log() == entry.read_log() + tokens_list_root_operation_type_definition(items@),
            decreases s.len(),
        {
            let d = root_operation_type_definition(s, next)?;
            let ghost before = items@;
            items.push(d);
            assert(items@.drop_last() =~= before);
        }
        Recoverable::Present(List(items))
    } else {
        Recoverable::Missing(missing_unary(s, DiagnosticKind::MissingRootOperationTypeDefinitions))
    };
    let right = if s.discard(close, rp) {
        Recoverable::Present(punctuator(s, TokenKind::BraceRight)?)
    } else {
        Recoverable::Missing(
            missing_binary(
                s,
                DiagnosticKind::MissingRootOperationTypeDefinitionsClosingBrace,
                left.span(),
            ),
        )
    };
    Ok(RootOperationTypeDefinitions { braces: (left, right), definitions })
}

/// Parses a root operation type: the kind of operation, a colon and a named
/// type.
#[verifier::spinoff_prover]
pub fn root_operation_type_definition(s: &mut Stream, rp: RecoveryPoint) -> (r: Result<
    RootOperationTypeDefinition,
    Error,
>)
    requires
        old(s).wf(),
    ensures
        advanced(*old(s), *final(s)),
        r matches Err(Error::MaxRecursion(_)) ==> old(s).len() > RECURSION_LIMIT,
        begins(*old(s), operation_type_start_kinds(), false) ==> !(r matches Err(Error::Expected(_))),
        r matches Ok(n) ==> final(s).len() < old(s).len() && all_recorded(
            sites_root_operation_type_definition(n),
        ) && read_into(*old(s), *final(s), tokens_root_operation_type_definition(n), 0),
        r matches Ok(n) ==> (n.colon matches Recoverable::Missing(m) ==> m.missing == Missing::Unary(DiagnosticKind::MissingRootOperationTypeDefinitionColon)),
        r matches Ok(n) ==> (n.named_type matches Recoverable::Missing(m) ==> m.missing == Missing::Unary(DiagnosticKind::MissingRootOperationTypeDefinitionNamedType)),
{
    let name_point = RecoveryPoint::from_kind(TokenKind::Name);
    let kind = operation_type(s)?;
    let colon = if s.discard(RecoveryPoint::from_kind(TokenKind::Colon), rp.or(name_point)) {
        Recoverable::Present(punctuator(s, TokenKind::Colon)?)
    } else {
        Recoverable::Missing(
            missing_unary(s, DiagnosticKind::MissingRootOperationTypeDefinitionColon),
        )
    };
    let named = if s.discard(name_point, rp) {
        Recoverable::Present(named_type(s)?)
    } else {
        Recoverable::Missing(
            missing_unary(s, DiagnosticKind::MissingRootOperationTypeDefinitionNamedType),
        )
    };
    Ok(RootOperationTypeDefinition { operation_type: kind, colon, named_type: named })
}

/// Parses a schema extension after `extend`: `schema`, directives and root
/// operation types.
#[verifier::spinoff_prover]
pub fn schema_extension(s: &mut Stream, rp: RecoveryPoint, extend: Name) -> (r: Result<
    SchemaExtension,
    Error,
>)
    requires
        old(s).wf(),
        ends_with(old(s).read_log(), seq![extend.0.span]),
    ensures
        advanced(*old(s), *final(s)),
        r matches Err(Error::MaxRecursion(_)) ==> old(s).len() > RECURSION_LIMIT,
        begins(*old(s), set![TokenKind::KeywordSchema], false) ==> !(r matches Err(Error::Expected(_))),
        r matches Ok(n) ==> final(s).len() < old(s).len() && all_recorded(sites_schema_extension(n)) && read_into(*old(s), *final(s), tokens_schema_extension(n), 1),
{
    let brace = RecoveryPoint::from_kind(TokenKind::BraceLeft);
    let schema = keyword(s, TokenKind::KeywordSchema)?;
    let directive_list = if s.recognize(RecoveryPoint::from_kind(TokenKind::At)) {
        Some(directives(s, rp.or(brace))?)
    } else {
        None
    };
    let type_definitions = if s.recognize(brace) {
        Some(root_operation_type_definitions(s, rp)?)
    } else {
        None
    };
    Ok(SchemaExtension { extend_schema: (extend, schema), directives: directive_list, type_definitions })
}

/// Parses a type definition: a scalar, an object, an interface, a union, an
/// enum or an input object.
#[verifier::spinoff_prover]
pub fn type_definition(s: &mut Stream, rp: RecoveryPoint, description: Option<Description>) -> (r:
    Result<TypeDefinition, Error>)
    requires
        old(s).wf(),
        description matches Some(d) ==> ends_with(old(s).read_log(), seq![d.0.0.span]),
    ensures
        advanced(*old(s), *final(s)),
        r matches Err(Error::MaxRecursion(_)) ==> old(s).len() > RECURSION_LIMIT,
        begins(*old(s), type_definition_start_kinds(), false) && !stray_description(*final(s)) ==> !(r matches Err(Error::Expected(_))),
        r matches Ok(n) ==> final(s).len() < old(s).len() && all_recorded(sites_type_definition(n)) && read_into(*old(s), *final(s), tokens_type_definition(n), count(description)),
{
    if s.recognize(RecoveryPoint::from_kind(TokenKind::KeywordScalar)) {
        Ok(TypeDefinition::ScalarTypeDefinition(scalar_type_definition(s, rp, description)?))
    } else if s.recognize(RecoveryPoint::from_kind(TokenKind::KeywordType)) {
        Ok(TypeDefinition::ObjectTypeDefinition(object_type_definition(s, rp, description)?))
    } else if s.recognize(RecoveryPoint::from_kind(TokenKind::KeywordInterface)) {
        Ok(
            TypeDefinition::InterfaceTypeDefinition(
                interface_type_definition(s, rp, description)?,
            ),
        )
    } else if s.recognize(RecoveryPoint::from_kind(TokenKind::KeywordUnion)) {
        Ok(TypeDefinition::UnionTypeDefinition(union_type_definition(s, rp, description)?))
    } else if s.recognize(RecoveryPoint::from_kind(TokenKind::KeywordEnum)) {
        Ok(TypeDefinition::EnumTypeDefinition(enum_type_definition(s, rp, description)?))
    } else if s.recognize(RecoveryPoint::from_kind(TokenKind::KeywordInput)) {
        Ok(
            TypeDefinition::InputObjectTypeDefinition(
                input_object_type_definition(s, rp, description)?,
            ),
        )
    } else {
        Err(Error::Expected(type_definition_start()))
    }
}

/// Parses a type extension after `extend`.
#[verifier::spinoff_prover]
pub fn type_extension(s: &mut Stream, rp: RecoveryPoint, extend: Name) -> (r: Result<
    TypeExtension,
    Error,
>)
    requires
        old(s).wf(),
        ends_with(old(s).read_log(), seq![extend.0.span]),
    ensures
        advanced(*old(s), *final(s)),
        r matches Err(Error::MaxRecursion(_)) ==> old(s).len() > RECURSION_LIMIT,
        begins(*old(s), type_definition_start_kinds(), false) && !stray_description(*final(s)) ==> !(r matches Err(Error::Expected(_))),
        r matches Ok(n) ==> final(s).len() < old(s).len() && all_recorded(sites_type_extension(n)) && read_into(*old(s), *final(s), tokens_type_extension(n), 1),
{
    if s.recognize(RecoveryPoint::from_kind(TokenKind::KeywordScalar)) {
        Ok(TypeExtension::ScalarTypeExtension(scalar_type_extension(s, rp, extend)?))
    } else if s.recognize(RecoveryPoint::from_kind(TokenKind::KeywordType)) {
        Ok(TypeExtension::ObjectTypeExtension(object_type_extension(s, rp, extend)?))
    } else if s.recognize(RecoveryPoint::from_kind(TokenKind::KeywordInterface)) {
        Ok(TypeExtension::InterfaceTypeExtension(interface_type_extension(s, rp, extend)?))
    } else if s.recognize(RecoveryPoint::from_kind(TokenKind::KeywordUnion)) {
        Ok(TypeExtension::UnionTypeExtension(union_type_extension(s, rp, extend)?))
    } else if s.recognize(RecoveryPoint::from_kind(TokenKind::KeywordEnum)) {
        Ok(TypeExtension::EnumTypeExtension(enum_type_extension(s, rp, extend)?))
    } else if s.recognize(RecoveryPoint::from_kind(TokenKind::KeywordInput)) {
        Ok(
            TypeExtension::InputObjectTypeExtension(
                input_object_type_extension(s, rp, extend)?,
            ),
        )
    } else {
        Err(Error::Expected(type_definition_start()))
    }
}

/// Parses a scalar type definition: `scalar`, a name and directives.
#[verifier::spinoff_prover]
pub fn scalar_type_definition(
    s: &mut Stream,
    rp: RecoveryPoint,
    description: Option<Description>,
) -> (r: Result<ScalarTypeDefinition, Error>)
    requires
        old(s).wf(),
        description matches Some(d) ==> ends_with(old(s).read_log(), seq![d.0.0.span]),
    ensures
        advanced(*old(s), *final(s)),
        r matches Err(Error::MaxRecursion(_)) ==> old(s).len() > RECURSION_LIMIT,
        begins(*old(s), set![TokenKind::KeywordScalar], false) ==> !(r matches Err(Error::Expected(_))),
        r matches Ok(n) ==> final(s).len() < old(s).len() && all_recorded(
            sites_scalar_type_definition(n),
        ) && read_into(*old(s), *final(s), tokens_scalar_type_definition(n), count(description)),
        r matches Ok(n) ==> (n.name matches Recoverable::Missing(m) ==> m.missing == Missing::Unary(DiagnosticKind::MissingScalarTypeDefinitionName)),
{
    let at = RecoveryPoint::from_kind(TokenKind::At);
    let scalar = keyword(s, TokenKind::KeywordScalar)?;
    let defined_name = if s.discard(RecoveryPoint::from_kind(TokenKind::Name), rp.or(at)) {
        Recoverable::Present(name(s)?)
    } else {
        Recoverable::Missing(missing_unary(s, DiagnosticKind::MissingScalarTypeDefinitionName))
    };
    let directive_list = if s.recognize(at) {
        Some(directives(s, rp)?)
    } else {
        None
    };
    Ok(ScalarTypeDefinition { description, scalar, name: defined_name, directives: directive_list })
}

/// Parses a scalar type extension after `extend`: `scalar`, a name and
/// directives.
#[verifier::spinoff_prover]
pub fn scalar_type_extension(s: &mut Stream, rp: RecoveryPoint, extend: Name) -> (r: Result<
    ScalarTypeExtension,
    Error,
>)
    requires
        old(s).wf(),
        ends_with(old(s).read_log(), seq![extend.0.span]),
    ensures
        advanced(*old(s), *final(s)),
        r matches Err(Error::MaxRecursion(_)) ==> old(s).len() > RECURSION_LIMIT,
        begins(*old(s), set![TokenKind::KeywordScalar], false) ==> !(r matches Err(Error::Expected(_))),
        r matches Ok(n) ==> final(s).len() < old(s).len() && all_recorded(
            sites_scalar_type_extension(n),
        ) && read_into(*old(s), *final(s), tokens_scalar_type_extension(n), 1),
        r matches Ok(n) ==> (n.name matches Recoverable::Missing(m) ==> m.missing == Missing::Unary(DiagnosticKind::MissingScalarTypeExtensionName)),
        r matches Ok(n) ==> (n.directives matches Recoverable::Missing(m) ==> m.missing == Missing::Unary(DiagnosticKind::MissingScalarTypeExtensionDirectives)),
{
    let at = RecoveryPoint::from_kind(TokenKind::At);
    let scalar = keyword(s, TokenKind::KeywordScalar)?;
    let defined_name = if s.discard(RecoveryPoint::from_kind(TokenKind::Name), rp.or(at)) {
        Recoverable::Present(named_type(s)?)
    } else {
        Recoverable::Missing(missing_unary(s, DiagnosticKind::MissingScalarTypeExtensionName))
    };
    let directive_list = if s.discard(at, rp) {
        Recoverable::Present(directives(s, rp)?)
    } else {
        Recoverable::Missing(
            missing_unary(s, DiagnosticKind::MissingScalarTypeExtensionDirectives),
        )
    };
    Ok(ScalarTypeExtension { extend_scalar: (extend, scalar), name: defined_name, directives: directive_list })
}

/// Parses an object type definition: `type`, a name, the interfaces it
/// implements, directives and fields.
#[verifier::spinoff_prover]
#[verifier::rlimit(100)]
pub fn object_type_definition(
    s: &mut Stream,
    rp: RecoveryPoint,
    description: Option<Description>,
) -> (r: Result<ObjectTypeDefinition, Error>)
    requires
        old(s).wf(),
        description matches Some(d) ==> ends_with(old(s).read_log(), seq![d.0.0.span]),
    ensures
        advanced(*old(s), *final(s)),
        r matches Err(Error::MaxRecursion(_)) ==> old(s).len() > RECURSION_LIMIT,
        begins(*old(s), set![TokenKind::KeywordType], false) && !stray_description(*final(s)) ==> !(r matches Err(Error::Expected(_))),
        r matches Ok(n) ==> final(s).len() < old(s).len() && all_recorded(
            sites_object_type_definition(n),
        ) && read_into(*old(s), *final(s), tokens_object_type_definition(n), count(description)),
{
    let implements = RecoveryPoint::from_kind(TokenKind::KeywordImplements);
    let at = RecoveryPoint::from_kind(TokenKind::At);
    let brace = RecoveryPoint::from_kind(TokenKind::BraceLeft);
    let ty = keyword(s, TokenKind::KeywordType)?;
    let defined_name = if s.discard(
        RecoveryPoint::from_kind(TokenKind::Name),
        rp.or(implements).or(at).or(brace),
    ) {
        Recoverable::Present(name(s)?)
    } else {
        Recoverable::Missing(missing_unary(s, DiagnosticKind::MissingObjectTypeDefinitionName))
    };
    let interfaces = if s.recognize(implements) {
        Some(implements_interfaces(s, rp.or(at).or(brace))?)
    } else {
        None
    };
    let directive_list = if s.recognize(at) {
        Some(directives(s, rp.or(brace))?)
    } else {
        None
    };
    let fields = if s.recognize(brace) {
        Some(fields_definition(s, rp)?)
    } else {
        None
    };
    Ok(
        ObjectTypeDefinition {
            description,
            ty,
            name: defined_name,
            implements_interfaces: interfaces,
            directives: directive_list,
            fields_definition: fields,
        },
    )
}

/// Parses the interfaces that a type implements: `implements`, and named
/// types separated by ampersands.
#[verifier::spinoff_prover]
pub fn implements_interfaces(s: &mut Stream, rp: RecoveryPoint) -> (r: Result<
    ImplementsInterfaces,
    Error,
>)
    requires
        old(s).wf(),
    ensures
        advanced(*old(s), *final(s)),
        r matches Err(Error::MaxRecursion(_)) ==> old(s).len() > RECURSION_LIMIT,
        begins(*old(s), set![TokenKind::KeywordImplements], false) ==> !(r matches Err(Error::Expected(_))),
        r matches Ok(n) ==> final(s).len() < old(s).len() && all_recorded(
            sites_implements_interfaces(n),
        ) && read_into(*old(s), *final(s), tokens_implements_interfaces(n), 0),
{
    let ampersand_point = RecoveryPoint::from_kind(TokenKind::Ampersand);
    let name_point = RecoveryPoint::from_kind(TokenKind::Name);
    let implements = keyword(s, TokenKind::KeywordImplements)?;
    let ampersand = if s.recognize(ampersand_point) {
        Some(punctuator(s, TokenKind::Ampersand)?)
    } else {
        None
    };
    let first = if s.discard(name_point, rp.or(ampersand_point)) {
        Recoverable::Present(Shared::new(named_type(s)?))
    } else {
        Recoverable::Missing(missing_unary(s, DiagnosticKind::MissingFirstImplementsInterface))
    };
    let next = rp.or(ampersand_point);
    let mut types: Vec<(Punctuator, Recoverable<Shared<NamedType>>)> = Vec::new();
    let ghost entry = *s;
    while s.recognize(ampersand_point)
        invariant
            ampersand_point == RecoveryPoint::spec_from_kind(TokenKind::Ampersand),
            name_point == RecoveryPoint::spec_from_kind(TokenKind::Name),
            advanced(*old(s), *s),
            s.len() < old(s).len(),
            all_recorded(sites_list_punctuator_recoverable_shared_named_type(types@)),
            entry.len() - s.len() == tokens_list_punctuator_recoverable_shared_named_type(types@).len() + s.skipped().len() - entry.skipped().len(),
            s.read_log() == entry.read_log() + tokens_list_punctuator_recoverable_shared_named_type(types@),
        decreases s.len(),
    {
        let separator = punctuator(s, TokenKind::Ampersand)?;
        let interface = if s.discard(name_point, next) {
            Recoverable::Present(Shared::new(named_type(s)?))
        } else {
            Recoverable::Missing(
                missing_unary(s, DiagnosticKind::MissingSecondImplementsInterface),
            )
        };
        let ghost before = types@;
        types.push((separator, interface));
        assert(types@.drop_last() =~= before);
    }
    Ok(ImplementsInterfaces { implements, ampersand, first, types: List(types) })
}

/// Parses the fields of a type, in braces.
#[verifier::spinoff_prover]
pub fn fields_definition(s: &mut Stream, rp: RecoveryPoint) -> (r: Result<FieldsDefinition, Error>)
    requires
        old(s).wf(),
    ensures
        advanced(*old(s), *final(s)),
        r matches Err(Error::MaxRecursion(_)) ==> old(s).len() > RECURSION_LIMIT,
        begins(*old(s), set![TokenKind::BraceLeft], false) && !stray_description(*final(s)) ==> !(r matches Err(Error::Expected(_))),
        r matches Ok(n) ==> final(s).len() < old(s).len() && all_recorded(
            sites_fields_definition(n),
        ) && read_into(*old(s), *final(s), tokens_fields_definition(n), 0),
        r matches Ok(n) ==> (n.braces.1 matches Recoverable::Missing(m) ==> m.missing is Binary && m.missing->Binary_0 == DiagnosticKind::MissingFieldsDefinitionClosingBrace),
{
    let left = punctuator(s, TokenKind::BraceLeft)?;
    let close = RecoveryPoint::from_kind(TokenKind::BraceRight);
    let item = value_definition_start();
    let next = rp.or(close).or(item);
    let mut definitions: Vec<Shared<FieldDefinition>> = Vec::new();
    let ghost entry = *s;
    while s.recognize(item)
        invariant
            item.kinds@ == value_definition_start_kinds(),
            !item.exclude_on,
            advanced(*old(s), *s),
            s.len() < old(s).len(),
            all_recorded(sites_list_shared_field_definition(definitions@)),
            entry.len() - s.len() == tokens_list_shared_field_definition(definitions@).len() + s.skipped().len() - entry.skipped().len(),
            s.read_log() == entry.read_log() + tokens_list_shared_field_definition(definitions@),
        decreases s.len(),
    {
        let d = field_definition(s, next)?;
        let ghost before = definitions@;
        definitions.push(Shared::new(d));
        assert(definitions@.drop_last() =~= before);
    }
    let right = if s.discard(close, rp) {
        Recoverable::Present(punctuator(s, TokenKind::BraceRight)?)
    } else {
        Recoverable::Missing(
            missing_binary(s, DiagnosticKind::MissingFieldsDefinitionClosingBrace, left.span()),
        )
    };
    Ok(FieldsDefinition { braces: (left, right), definitions: List(definitions) })
}

/// Parses a field definition: a description, a name, arguments, a colon, a
/// type and directives.
#[verifier::spinoff_prover]
#[verifier::rlimit(100)]
pub fn field_definition(s: &mut Stream, rp: RecoveryPoint) -> (r: Result<FieldDefinition, Error>)
    requires
        old(s).wf(),
    ensures
        advanced(*old(s), *final(s)),
        r matches Err(Error::MaxRecursion(_)) ==> old(s).len() > RECURSION_LIMIT,
        begins(*old(s), value_definition_start_kinds(), false) && !stray_description(*final(s)) ==> !(r matches Err(Error::Expected(_))),
        r matches Ok(n) ==> final(s).len() < old(s).len() && all_recorded(sites_field_definition(n)) && read_into(*old(s), *final(s), tokens_field_definition(n), 0),
        r matches Ok(n) ==> (n.ty matches Recoverable::Missing(m) ==> m.missing == Missing::Unary(DiagnosticKind::MissingFieldDefinitionType)),
{
    let at = RecoveryPoint::from_kind(TokenKind::At);
    let colon_point = RecoveryPoint::from_kind(TokenKind::Colon);
    let start = type_start();
    let field_description = if s.recognize(RecoveryPoint::from_kind(TokenKind::StringValue)) {
        Some(description(s)?)
    } else {
        None
    };
    let field_name = name(s)?;
    let arguments = if s.recognize(RecoveryPoint::from_kind(TokenKind::ParenLeft)) {
        Some(Shared::new(arguments_definition(s, rp.or(colon_point).or(start).or(at))?))
    } else {
        None
    };
    let colon = if s.discard(colon_point, rp.or(start).or(at)) {
        Recoverable::Present(punctuator(s, TokenKind::Colon)?)
    } else {
        Recoverable::Missing(missing_unary(s, DiagnosticKind::MissingFieldDefinitionColon))
    };
    let t = if s.discard(start, rp.or(at)) {
        Recoverable::Present(ty(s, rp.or(at), RECURSION_LIMIT)?)
    } else {
        Recoverable::Missing(missing_unary(s, DiagnosticKind::MissingFieldDefinitionType))
    };
    let directive_list = if s.recognize(at) {
        Some(directives(s, rp)?)
    } else {
        None
    };
    Ok(
        FieldDefinition {
            description: field_description,
            name: field_name,
            arguments_definition: arguments,
            colon,
            ty: t,
            directives: directive_list,
        },
    )
}

/// Parses the arguments of a field or a directive, in parentheses.
#[verifier::spinoff_prover]
pub fn arguments_definition(s: &mut Stream, rp: RecoveryPoint) -> (r: Result<
    ArgumentsDefinition,
    Error,
>)
    requires
        old(s).wf(),
    ensures
        advanced(*old(s), *final(s)),
        r matches Err(Error::MaxRecursion(_)) ==> old(s).len() > RECURSION_LIMIT,
        begins(*old(s), set![TokenKind::ParenLeft], false) && !stray_description(*final(s)) ==> !(r matches Err(Error::Expected(_))),
        r matches Ok(n) ==> final(s).len() < old(s).len() && all_recorded(
            sites_arguments_definition(n),
        ) && read_into(*old(s), *final(s), tokens_arguments_definition(n), 0),
{
    let left = punctuator(s, TokenKind::ParenLeft)?;
    let close = RecoveryPoint::from_kind(TokenKind::ParenRight);
    let item = value_definition_start();
    let next = rp.or(close).or(item);
    let mut definitions: Vec<Shared<InputValueDefinition>> = Vec::new();
    let ghost entry = *s;
    while s.recognize(item)
        invariant
            item.kinds@ == value_definition_start_kinds(),
            !item.exclude_on,
            advanced(*old(s), *s),
            s.len() < old(s).len(),
            all_recorded(sites_list_shared_input_value_definition(definitions@)),
            entry.len() - s.len() == tokens_list_shared_input_value_definition(definitions@).len() + s.skipped().len() - entry.skipped().len(),
            s.read_log() == entry.read_log() + tokens_list_shared_input_value_definition(definitions@),
        decreases s.len(),
    {
        let d = input_value_definition(s, next)?;
        let ghost before = definitions@;
        definitions.push(Shared::new(d));
        assert(definitions@.drop_last() =~= before);
    }
    let right = if s.discard(close, rp) {
        Recoverable::Present(punctuator(s, TokenKind::ParenRight)?)
    } else {
        Recoverable::Missing(
            missing_binary(
                s,
                DiagnosticKind::MissingArgumentsDefinitionClosingParenthesis,
                left.span(),
            ),
        )
    };
    Ok(ArgumentsDefinition { parens: (left, right), definitions: List(definitions) })
}

/// Parses an input value definition: a description, a name, a colon, a
/// type, a default value and directives.
#[verifier::spinoff_prover]
#[verifier::rlimit(100)]
pub fn input_value_definition(s: &mut Stream, rp: RecoveryPoint) -> (r: Result<
    InputValueDefinition,
    Error,
>)
    requires
        old(s).wf(),
    ensures
        advanced(*old(s), *final(s)),
        r matches Err(Error::MaxRecursion(_)) ==> old(s).len() > RECURSION_LIMIT,
        begins(*old(s), value_definition_start_kinds(), false) && !stray_description(*final(s)) ==> !(r matches Err(Error::Expected(_))),
        r matches Ok(n) ==> final(s).len() < old(s).len() && all_recorded(
            sites_input_value_definition(n),
        ) && read_into(*old(s), *final(s), tokens_input_value_definition(n), 0),
        r matches Ok(n) ==> (n.ty matches Recoverable::Missing(m) ==> m.missing == Missing::Unary(DiagnosticKind::MissingInputValueDefinitionType)),
{
    let at = RecoveryPoint::from_kind(TokenKind::At);
    let eq = RecoveryPoint::from_kind(TokenKind::Eq);
    let colon_point = RecoveryPoint::from_kind(TokenKind::Colon);
    let start = type_start();
    let value_description = if s.recognize(RecoveryPoint::from_kind(TokenKind::StringValue)) {
        Some(description(s)?)
    } else {
        None
    };
    let value_name = name(s)?;
    let colon = if s.discard(colon_point, rp.or(start).or(eq).or(at)) {
        Recoverable::Present(punctuator(s, TokenKind::Colon)?)
    } else {
        Recoverable::Missing(missing_unary(s, DiagnosticKind::MissingInputValueDefinitionColon))
    };
    let t = if s.discard(start, rp.or(eq).or(at)) {
        Recoverable::Present(ty(s, rp.or(eq).or(at), RECURSION_LIMIT)?)
    } else {
        Recoverable::Missing(missing_unary(s, DiagnosticKind::MissingInputValueDefinitionType))
    };
    let default = if s.recognize(eq) {
        Some(default_value(s, rp.or(at))?)
    } else {
        None
    };
    let directive_list = if s.recognize(at) {
        Some(directives(s, rp)?)
    } else {
        None
    };
    Ok(
        InputValueDefinition {
            description: value_description,
            name: value_name,
            colon,
            ty: t,
            default_value: default,
            directives: directive_list,
        },
    )
}

/// Parses an object type extension after `extend`: `type`, a name, the
/// interfaces it implements, directives and fields.
#[verifier::spinoff_prover]
#[verifier::rlimit(100)]
pub fn object_type_extension(s: &mut Stream, rp: RecoveryPoint, extend: Name) -> (r: Result<
    ObjectTypeExtension,
    Error,
>)
    requires
        old(s).wf(),
        ends_with(old(s).read_log(), seq![extend.0.span]),
    ensures
        advanced(*old(s), *final(s)),
        r matches Err(Error::MaxRecursion(_)) ==> old(s).len() > RECURSION_LIMIT,
        begins(*old(s), set![TokenKind::KeywordType], false) && !stray_description(*final(s)) ==> !(r matches Err(Error::Expected(_))),
        r matches Ok(n) ==> final(s).len() < old(s).len() && all_recorded(
            sites_object_type_extension(n),
        ) && read_into(*old(s), *final(s), tokens_object_type_extension(n), 1),
        r matches Ok(n) ==> (n.name matches Recoverable::Missing(m) ==> m.missing == Missing::Unary(DiagnosticKind::MissingObjectTypeExtensionName)),
{
    let implements = RecoveryPoint::from_kind(TokenKind::KeywordImplements);
    let at = RecoveryPoint::from_kind(TokenKind::At);
    let brace = RecoveryPoint::from_kind(TokenKind::BraceLeft);
    let ghost base = old(s).read_log().take(old(s).read_log().len() - 1);
    let ty = keyword(s, TokenKind::KeywordType)?;
    let ghost head = seq![extend.0.span] + seq![ty.0.span];
    assert(s.read_log() == base + head);
    let defined_name = if s.discard(
        RecoveryPoint::from_kind(TokenKind::Name),
        rp.or(implements).or(at).or(brace),
    ) {
        Recoverable::Present(named_type(s)?)
    } else {
        Recoverable::Missing(missing_unary(s, DiagnosticKind::MissingObjectTypeExtensionName))
    };
    let ghost head = head + if defined_name is Present {
        tokens_named_type(defined_name->Present_0)
    } else {
        Seq::empty()
    };
    assert(s.read_log() == base + head);
    let interfaces = if s.recognize(implements) {
        Some(implements_interfaces(s, rp.or(at).or(brace))?)
    } else {
        None
    };
    let ghost head = head + if interfaces is Some {
        tokens_implements_interfaces(interfaces->Some_0)
    } else {
        Seq::empty()
    };
    assert(s.read_log() == base + head);
    let directive_list = if s.recognize(at) {
        Some(directives(s, rp.or(brace))?)
    } else {
        None
    };
    let ghost head = head + if directive_list is Some {
        tokens_directives(directive_list->Some_0)
    } else {
        Seq::empty()
    };
    assert(s.read_log() == base + head);
    let fields = if s.recognize(brace) {
        Some(fields_definition(s, rp)?)
    } else {
        None
    };
    Ok(
        ObjectTypeExtension {
            extend_type: (extend, ty),
            name: defined_name,
            implements_interfaces: interfaces,
            directives: directive_list,
            fields_definition: fields,
        },
    )
}

/// Parses an interface type definition: `interface`, a name, the
/// interfaces it implements, directives and fields.
#[verifier::spinoff_prover]
#[verifier::rlimit(100)]
pub fn interface_type_definition(
    s: &mut Stream,
    rp: RecoveryPoint,
    description: Option<Description>,
) -> (r: Result<InterfaceTypeDefinition, Error>)
    requires
        old(s).wf(),
        description matches Some(d) ==> ends_with(old(s).read_log(), seq![d.0.0.span]),
    ensures
        advanced(*old(s), *final(s)),
        r matches Err(Error::MaxRecursion(_)) ==> old(s).len() > RECURSION_LIMIT,
        begins(*old(s), set![TokenKind::KeywordInterface], false) && !stray_description(*final(s)) ==> !(r matches Err(Error::Expected(_))),
        r matches Ok(n) ==> final(s).len() < old(s).len() && all_recorded(
            sites_interface_type_definition(n),
        ) && read_into(*old(s), *final(s), tokens_interface_type_definition(n), count(description)),
        r matches Ok(n) ==> (n.name matches Recoverable::Missing(m) ==> m.missing == Missing::Unary(DiagnosticKind::MissingInterfaceTypeDefinitionName)),
{
    let implements = RecoveryPoint::from_kind(TokenKind::KeywordImplements);
    let at = RecoveryPoint::from_kind(TokenKind::At);
    let brace = RecoveryPoint::from_kind(TokenKind::BraceLeft);
    let interface = keyword(s, TokenKind::KeywordInterface)?;
    let defined_name = if s.discard(
        RecoveryPoint::from_kind(TokenKind::Name),
        rp.or(implements).or(at).or(brace),
    ) {
        Recoverable::Present(name(s)?)
    } else {
        Recoverable::Missing(missing_unary(s, DiagnosticKind::MissingInterfaceTypeDefinitionName))
    };
    let interfaces = if s.recognize(implements) {
        Some(implements_interfaces(s, rp.or(at).or(brace))?)
    } else {
        None
    };
    let directive_list = if s.recognize(at) {
        Some(directives(s, rp.or(brace))?)
    } else {
        None
    };
    let fields = if s.recognize(brace) {
        Some(fields_definition(s, rp)?)
    } else {
        None
    };
    Ok(
        InterfaceTypeDefinition {
            description,
            interface,
            name: defined_name,
            implements_interfaces: interfaces,
            directives: directive_list,
            fields_definition: fields,
        },
    )
}

/// Parses an interface type extension after `extend`: `interface`, a name,
/// the interfaces it implements, directives and fields.
#[verifier::spinoff_prover]
#[verifier::rlimit(100)]
pub fn interface_type_extension(s: &mut Stream, rp: RecoveryPoint, extend: Name) -> (r: Result<
    InterfaceTypeExtension,
    Error,
>)
    requires
        old(s).wf(),
        ends_with(old(s).read_log(), seq![extend.0.span]),
    ensures
        advanced(*old(s), *final(s)),
        r matches Err(Error::MaxRecursion(_)) ==> old(s).len() > RECURSION_LIMIT,
        begins(*old(s), set![TokenKind::KeywordInterface], false) && !stray_description(*final(s)) ==> !(r matches Err(Error::Expected(_))),
        r matches Ok(n) ==> final(s).len() < old(s).len() && all_recorded(
            sites_interface_type_extension(n),
        ) && read_into(*old(s), *final(s), tokens_interface_type_extension(n), 1),
        r matches Ok(n) ==> (n.name matches Recoverable::Missing(m) ==> m.missing == Missing::Unary(DiagnosticKind::MissingInterfaceTypeExtensionName)),
{
    let implements = RecoveryPoint::from_kind(TokenKind::KeywordImplements);
    let at = RecoveryPoint::from_kind(TokenKind::At);
    let brace = RecoveryPoint::from_kind(TokenKind::BraceLeft);
    let interface = keyword(s, TokenKind::KeywordInterface)?;
    let defined_name = if s.discard(
        RecoveryPoint::from_kind(TokenKind::Name),
        rp.or(implements).or(at).or(brace),
    ) {
        Recoverable::Present(named_type(s)?)
    } else {
        Recoverable::Missing(missing_unary(s, DiagnosticKind::MissingInterfaceTypeExtensionName))
    };
    let interfaces = if s.recognize(implements) {
        Some(implements_interfaces(s, rp.or(at).or(brace))?)
    } else {
        None
    };
    let directive_list = if s.recognize(at) {
        Some(directives(s, rp.or(brace))?)
    } else {
        None
    };
    let fields = if s.recognize(brace) {
        Some(fields_definition(s, rp)?)
    } else {
        None
    };
    Ok(
        InterfaceTypeExtension {
            extend_interface: (extend, interface),
            name: defined_name,
            implements_interfaces: interfaces,
            directives: directive_list,
            fields_definition: fields,
        },
    )
}

/// Parses a union type definition: `union`, a name, directives and member
/// types.
#[verifier::spinoff_prover]
#[verifier::rlimit(100)]
pub fn union_type_definition(
    s: &mut Stream,
    rp: RecoveryPoint,
    description: Option<Description>,
) -> (r: Result<UnionTypeDefinition, Error>)
    requires
        old(s).wf(),
        description matches Some(d) ==> ends_with(old(s).read_log(), seq![d.0.0.span]),
    ensures
        advanced(*old(s), *final(s)),
        r matches Err(Error::MaxRecursion(_)) ==> old(s).len() > RECURSION_LIMIT,
        begins(*old(s), set![TokenKind::KeywordUnion], false) ==> !(r matches Err(Error::Expected(_))),
        r matches Ok(n) ==> final(s).len() < old(s).len() && all_recorded(
            sites_union_type_definition(n),
        ) && read_into(*old(s), *final(s), tokens_union_type_definition(n), count(description)),
        r matches Ok(n) ==> (n.name matches Recoverable::Missing(m) ==> m.missing == Missing::Unary(DiagnosticKind::MissingUnionTypeDefinitionName)),
{
    let at = RecoveryPoint::from_kind(TokenKind::At);
    let eq = RecoveryPoint::from_kind(TokenKind::Eq);
    let union_kw = keyword(s, TokenKind::KeywordUnion)?;
    let defined_name = if s.discard(RecoveryPoint::from_kind(TokenKind::Name), rp.or(at).or(eq)) {
        Recoverable::Present(name(s)?)
    } else {
        Recoverable::Missing(missing_unary(s, DiagnosticKind::MissingUnionTypeDefinitionName))
    };
    let directive_list = if s.recognize(at) {
        Some(directives(s, rp.or(eq))?)
    } else {
        None
    };
    let members = if s.recognize(eq) {
        Some(union_member_types(s, rp)?)
    } else {
        None
    };
    Ok(
        UnionTypeDefinition {
            description,
            union_kw,
            name: defined_name,
            directives: directive_list,
            member_types: members,
        },
    )
}

/// Parses the member types of a union: an equals sign, and named types
/// separated by pipes.
#[verifier::spinoff_prover]
pub fn union_member_types(s: &mut Stream, rp: RecoveryPoint) -> (r: Result<UnionMemberTypes, Error>)
    requires
        old(s).wf(),
    ensures
        advanced(*old(s), *final(s)),
        r matches Err(Error::MaxRecursion(_)) ==> old(s).len() > RECURSION_LIMIT,
        begins(*old(s), set![TokenKind::Eq], false) ==> !(r matches Err(Error::Expected(_))),
        r matches Ok(n) ==> final(s).len() < old(s).len() && all_recorded(
            sites_union_member_types(n),
        ) && read_into(*old(s), *final(s), tokens_union_member_types(n), 0),
{
    let pipe_point = RecoveryPoint::from_kind(TokenKind::Pipe);
    let name_point = RecoveryPoint::from_kind(TokenKind::Name);
    let eq = punctuator(s, TokenKind::Eq)?;
    let pipe = if s.recognize(pipe_point) {
        Some(punctuator(s, TokenKind::Pipe)?)
    } else {
        None
    };
    let first = if s.discard(name_point, rp.or(pipe_point)) {
        Recoverable::Present(Shared::new(named_type(s)?))
    } else {
        Recoverable::Missing(missing_unary(s, DiagnosticKind::MissingFirstUnionMemberType))
    };
    let next = rp.or(pipe_point);
    let mut types: Vec<(Punctuator, Recoverable<Shared<NamedType>>)> = Vec::new();
    let ghost entry = *s;
    while s.recognize(pipe_point)
        invariant
            pipe_point == RecoveryPoint::spec_from_kind(TokenKind::Pipe),
            name_point == RecoveryPoint::spec_from_kind(TokenKind::Name),
            advanced(*old(s), *s),
            s.len() < old(s).len(),
            all_recorded(sites_list_punctuator_recoverable_shared_named_type(types@)),
            entry.len() - s.len() == tokens_list_punctuator_recoverable_shared_named_type(types@).len() + s.skipped().len() - entry.skipped().len(),
            s.read_log() == entry.read_log() + tokens_list_punctuator_recoverable_shared_named_type(types@),
        decreases s.len(),
    {
        let separator = punctuator(s, TokenKind::Pipe)?;
        let member = if s.discard(name_point, next) {
            Recoverable::Present(Shared::new(named_type(s)?))
        } else {
            Recoverable::Missing(missing_unary(s, DiagnosticKind::MissingSecondUnionMemberType))
        };
        let ghost before = types@;
        types.push((separator, member));
        assert(types@.drop_last() =~= before);
    }
    Ok(UnionMemberTypes { eq, pipe, first, types: List(types) })
}

/// Parses a union type extension after `extend`: `union`, a name,
/// directives and member types.
#[verifier::spinoff_prover]
#[verifier::rlimit(100)]
pub fn union_type_extension(s: &mut Stream, rp: RecoveryPoint, extend: Name) -> (r: Result<
    UnionTypeExtension,
    Error,
>)
    requires
        old(s).wf(),
        ends_with(old(s).read_log(), seq![extend.0.span]),
    ensures
        advanced(*old(s), *final(s)),
        r matches Err(Error::MaxRecursion(_)) ==> old(s).len() > RECURSION_LIMIT,
        begins(*old(s), set![TokenKind::KeywordUnion], false) ==> !(r matches Err(Error::Expected(_))),
        r matches Ok(n) ==> final(s).len() < old(s).len() && all_recorded(
            sites_union_type_extension(n),
        ) && read_into(*old(s), *final(s), tokens_union_type_extension(n), 1),
        r matches Ok(n) ==> (n.name matches Recoverable::Missing(m) ==> m.missing == Missing::Unary(DiagnosticKind::MissingUnionTypeExtensionName)),
{
    let at = RecoveryPoint::from_kind(TokenKind::At);
    let eq = RecoveryPoint::from_kind(TokenKind::Eq);
    let union_kw = keyword(s, TokenKind::KeywordUnion)?;
    let defined_name = if s.discard(RecoveryPoint::from_kind(TokenKind::Name), rp.or(at).or(eq)) {
        Recoverable::Present(named_type(s)?)
    } else {
        Recoverable::Missing(missing_unary(s, DiagnosticKind::MissingUnionTypeExtensionName))
    };
    let directive_list = if s.recognize(at) {
        Some(directives(s, rp.or(eq))?)
    } else {
        None
    };
    let members = if s.recognize(eq) {
        Some(union_member_types(s, rp)?)
    } else {
        None
    };
    Ok(
        UnionTypeExtension {
            extend_union: (extend, union_kw),
            name: defined_name,
            directives: directive_list,
            member_types: members,
        },
    )
}

/// Parses an enum type definition: `enum`, a name, directives and values.
#[verifier::spinoff_prover]
#[verifier::rlimit(100)]
pub fn enum_type_definition(
    s: &mut Stream,
    rp: RecoveryPoint,
    description: Option<Description>,
) -> (r: Result<EnumTypeDefinition, Error>)
    requires
        old(s).wf(),
        description matches Some(d) ==> ends_with(old(s).read_log(), seq![d.0.0.span]),
    ensures
        advanced(*old(s), *final(s)),
        r matches Err(Error::MaxRecursion(_)) ==> old(s).len() > RECURSION_LIMIT,
        begins(*old(s), set![TokenKind::KeywordEnum], false) && !stray_description(*final(s)) ==> !(r matches Err(Error::Expected(_))),
        r matches Ok(n) ==> final(s).len() < old(s).len() && all_recorded(
            sites_enum_type_definition(n),
        ) && read_into(*old(s), *final(s), tokens_enum_type_definition(n), count(description)),
        r matches Ok(n) ==> (n.name matches Recoverable::Missing(m) ==> m.missing == Missing::Unary(DiagnosticKind::MissingEnumTypeDefinitionName)),
{
    let at = RecoveryPoint::from_kind(TokenKind::At);
    let brace = RecoveryPoint::from_kind(TokenKind::BraceLeft);
    let enum_kw = keyword(s, TokenKind::KeywordEnum)?;
    let defined_name = if s.discard(RecoveryPoint::from_kind(TokenKind::Name), rp.or(at).or(brace)) {
        Recoverable::Present(name(s)?)
    } else {
        Recoverable::Missing(missing_unary(s, DiagnosticKind::MissingEnumTypeDefinitionName))
    };
    let directive_list = if s.recognize(at) {
        Some(directives(s, rp.or(brace))?)
    } else {
        None
    };
    let values = if s.recognize(brace) {
        Some(enum_values_definition(s, rp)?)
    } else {
        None
    };
    Ok(
        EnumTypeDefinition {
            description,
            enum_kw,
            name: defined_name,
            directives: directive_list,
            values_definition: values,
        },
    )
}

/// Parses the values of an enum, in braces.
#[verifier::spinoff_prover]
pub fn enum_values_definition(s: &mut Stream, rp: RecoveryPoint) -> (r: Result<
    EnumValuesDefinition,
    Error,
>)
    requires
        old(s).wf(),
    ensures
        advanced(*old(s), *final(s)),
        r matches Err(Error::MaxRecursion(_)) ==> old(s).len() > RECURSION_LIMIT,
        begins(*old(s), set![TokenKind::BraceLeft], false) && !stray_description(*final(s)) ==> !(r matches Err(Error::Expected(_))),
        r matches Ok(n) ==> final(s).len() < old(s).len() && all_recorded(
            sites_enum_values_definition(n),
        ) && read_into(*old(s), *final(s), tokens_enum_values_definition(n), 0),
        r matches Ok(n) ==> (n.braces.1 matches Recoverable::Missing(m) ==> m.missing is Binary && m.missing->Binary_0 == DiagnosticKind::MissingEnumValuesClosingBrace),
{
    let left = punctuator(s, TokenKind::BraceLeft)?;
    let close = RecoveryPoint::from_kind(TokenKind::BraceRight);
    let item = value_definition_start();
    let next = rp.or(close).or(item);
    let mut definitions: Vec<Shared<EnumValueDefinition>> = Vec::new();
    let ghost entry = *s;
    while s.recognize(item)
        invariant
            item.kinds@ == value_definition_start_kinds(),
            !item.exclude_on,
            advanced(*old(s), *s),
            s.len() < old(s).len(),
            all_recorded(sites_list_shared_enum_value_definition(definitions@)),
            entry.len() - s.len() == tokens_list_shared_enum_value_definition(definitions@).len() + s.skipped().len() - entry.skipped().len(),
            s.read_log() == entry.read_log() + tokens_list_shared_enum_value_definition(definitions@),
        decreases s.len(),
    {
        let d = enum_value_definition(s, next)?;
        let ghost before = definitions@;
        definitions.push(Shared::new(d));
        assert(definitions@.drop_last() =~= before);
    }
    let right = if s.discard(close, rp) {
        Recoverable::Present(punctuator(s, TokenKind::BraceRight)?)
    } else {
        Recoverable::Missing(
            missing_binary(s, DiagnosticKind::MissingEnumValuesClosingBrace, left.span()),
        )
    };
    Ok(EnumValuesDefinition { braces: (left, right), definitions: List(definitions) })
}

/// Parses an enum value definition: a description, the value and
/// directives.
#[verifier::spinoff_prover]
pub fn enum_value_definition(s: &mut Stream, rp: RecoveryPoint) -> (r: Result<
    EnumValueDefinition,
    Error,
>)
    requires
        old(s).wf(),
    ensures
        advanced(*old(s), *final(s)),
        r matches Err(Error::MaxRecursion(_)) ==> old(s).len() > RECURSION_LIMIT,
        begins(*old(s), value_definition_start_kinds(), false) && !stray_description(*final(s)) ==> !(r matches Err(Error::Expected(_))),
        r matches Ok(n) ==> final(s).len() < old(s).len() && all_recorded(
            sites_enum_value_definition(n),
        ) && read_into(*old(s), *final(s), tokens_enum_value_definition(n), 0),
{
    let value_description = if s.recognize(RecoveryPoint::from_kind(TokenKind::StringValue)) {
        Some(description(s)?)
    } else {
        None
    };
    let value = enum_value(s)?;
    let directive_list = if s.recognize(RecoveryPoint::from_kind(TokenKind::At)) {
        Some(directives(s, rp)?)
    } else {
        None
    };
    Ok(
        EnumValueDefinition {
            description: value_description,
            enum_value: value,
            directives: directive_list,
        },
    )
}

/// Parses an enum type extension after `extend`: `enum`, a name,
/// directives and values.
#[verifier::spinoff_prover]
#[verifier::rlimit(100)]
pub fn enum_type_extension(s: &mut Stream, rp: RecoveryPoint, extend: Name) -> (r: Result<
    EnumTypeExtension,
    Error,
>)
    requires
        old(s).wf(),
        ends_with(old(s).read_log(), seq![extend.0.span]),
    ensures
        advanced(*old(s), *final(s)),
        r matches Err(Error::MaxRecursion(_)) ==> old(s).len() > RECURSION_LIMIT,
        begins(*old(s), set![TokenKind::KeywordEnum], false) && !stray_description(*final(s)) ==> !(r matches Err(Error::Expected(_))),
        r matches Ok(n) ==> final(s).len() < old(s).len() && all_recorded(
            sites_enum_type_extension(n),
        ) && read_into(*old(s), *final(s), tokens_enum_type_extension(n), 1),
        r matches Ok(n) ==> (n.name matches Recoverable::Missing(m) ==> m.missing == Missing::Unary(DiagnosticKind::MissingEnumTypeExtensionName)),
{
    let at = RecoveryPoint::from_kind(TokenKind::At);
    let brace = RecoveryPoint::from_kind(TokenKind::BraceLeft);
    let enum_kw = keyword(s, TokenKind::KeywordEnum)?;
    let defined_name = if s.discard(RecoveryPoint::from_kind(TokenKind::Name), rp.or(at).or(brace)) {
        Recoverable::Present(named_type(s)?)
    } else {
        Recoverable::Missing(missing_unary(s, DiagnosticKind::MissingEnumTypeExtensionName))
    };
    let directive_list = if s.recognize(at) {
        Some(directives(s, rp.or(brace))?)
    } else {
        None
    };
    let values = if s.recognize(brace) {
        Some(enum_values_definition(s, rp)?)
    } else {
        None
    };
    Ok(
        EnumTypeExtension {
            extend_enum: (extend, enum_kw),
            name: defined_name,
            directives: directive_list,
            values_definition: values,
        },
    )
}

/// Parses an input object type definition: `input`, a name, directives and
/// fields.
#[verifier::spinoff_prover]
#[verifier::rlimit(100)]
pub fn input_object_type_definition(
    s: &mut Stream,
    rp: RecoveryPoint,
    description: Option<Description>,
) -> (r: Result<InputObjectTypeDefinition, Error>)
    requires
        old(s).wf(),
        description matches Some(d) ==> ends_with(old(s).read_log(), seq![d.0.0.span]),
    ensures
        advanced(*old(s), *final(s)),
        r matches Err(Error::MaxRecursion(_)) ==> old(s).len() > RECURSION_LIMIT,
        begins(*old(s), set![TokenKind::KeywordInput], false) && !stray_description(*final(s)) ==> !(r matches Err(Error::Expected(_))),
        r matches Ok(n) ==> final(s).len() < old(s).len() && all_recorded(
            sites_input_object_type_definition(n),
        ) && read_into(*old(s), *final(s), tokens_input_object_type_definition(n), count(description)),
{
    let at = RecoveryPoint::from_kind(TokenKind::At);
    let brace = RecoveryPoint::from_kind(TokenKind::BraceLeft);
    let input = keyword(s, TokenKind::KeywordInput)?;
    let defined_name = if s.discard(RecoveryPoint::from_kind(TokenKind::Name), rp.or(at).or(brace)) {
        Recoverable::Present(name(s)?)
    } else {
        Recoverable::Missing(
            missing_unary(s, DiagnosticKind::MissingInputObjectTypeDefinitionName),
        )
    };
    let directive_list = if s.recognize(at) {
        Some(directives(s, rp.or(brace))?)
    } else {
        None
    };
    let fields = if s.recognize(brace) {
        Some(input_fields_definition(s, rp)?)
    } else {
        None
    };
    Ok(
        InputObjectTypeDefinition {
            description,
            input,
            name: defined_name,
            directives: directive_list,
            fields_definition: fields,
        },
    )
}

/// Parses the fields of an input object, in braces.
#[verifier::spinoff_prover]
pub fn input_fields_definition(s: &mut Stream, rp: RecoveryPoint) -> (r: Result<
    InputFieldsDefinition,
    Error,
>)
    requires
        old(s).wf(),
    ensures
        advanced(*old(s), *final(s)),
        r matches Err(Error::MaxRecursion(_)) ==> old(s).len() > RECURSION_LIMIT,
        begins(*old(s), set![TokenKind::BraceLeft], false) && !stray_description(*final(s)) ==> !(r matches Err(Error::Expected(_))),
        r matches Ok(n) ==> final(s).len() < old(s).len() && all_recorded(
            sites_input_fields_definition(n),
        ) && read_into(*old(s), *final(s), tokens_input_fields_definition(n), 0),
        r matches Ok(n) ==> (n.braces.1 matches Recoverable::Missing(m) ==> m.missing is Binary && m.missing->Binary_0 == DiagnosticKind::MissingInputFieldsDefinitionClosingBrace),
{
    let left = punctuator(s, TokenKind::BraceLeft)?;
    let close = RecoveryPoint::from_kind(TokenKind::BraceRight);
    let item = value_definition_start();
    let next = rp.or(close).or(item);
    let mut definitions: Vec<Shared<InputValueDefinition>> = Vec::new();
    let ghost entry = *s;
    while s.recognize(item)
        invariant
            item.kinds@ == value_definition_start_kinds(),
            !item.exclude_on,
            advanced(*old(s), *s),
            s.len() < old(s).len(),
            all_recorded(sites_list_shared_input_value_definition(definitions@)),
            entry.len() - s.len() == tokens_list_shared_input_value_definition(definitions@).len() + s.skipped().len() - entry.skipped().len(),
            s.read_log() == entry.read_log() + tokens_list_shared_input_value_definition(definitions@),
        decreases s.len(),
    {
        let d = input_value_definition(s, next)?;
        let ghost before = definitions@;
        definitions.push(Shared::new(d));
        assert(definitions@.drop_last() =~= before);
    }
    let right = if s.discard(close, rp) {
        Recoverable::Present(punctuator(s, TokenKind::BraceRight)?)
    } else {
        Recoverable::Missing(
            missing_binary(
                s,
                DiagnosticKind::MissingInputFieldsDefinitionClosingBrace,
                left.span(),
            ),
        )
    };
    Ok(InputFieldsDefinition { braces: (left, right), definitions: List(definitions) })
}

/// Parses an input object type extension after `extend`: `input`, a name,
/// directives and fields.
#[verifier::spinoff_prover]
#[verifier::rlimit(100)]
pub fn input_object_type_extension(s: &mut Stream, rp: RecoveryPoint, extend: Name) -> (r: Result<
    InputObjectTypeExtension,
    Error,
>)
    requires
        old(s).wf(),
        ends_with(old(s).read_log(), seq![extend.0.span]),
    ensures
        advanced(*old(s), *final(s)),
        r matches Err(Error::MaxRecursion(_)) ==> old(s).len() > RECURSION_LIMIT,
        begins(*old(s), set![TokenKind::KeywordInput], false) && !stray_description(*final(s)) ==> !(r matches Err(Error::Expected(_))),
        r matches Ok(n) ==> final(s).len() < old(s).len() && all_recorded(
            sites_input_object_type_extension(n),
        ) && read_into(*old(s), *final(s), tokens_input_object_type_extension(n), 1),
        r matches Ok(n) ==> (n.name matches Recoverable::Missing(m) ==> m.missing == Missing::Unary(DiagnosticKind::MissingInputObjectTypeExtensionName)),
{
    let at = RecoveryPoint::from_kind(TokenKind::At);
    let brace = RecoveryPoint::from_kind(TokenKind::BraceLeft);
    let input = keyword(s, TokenKind::KeywordInput)?;
    let defined_name = if s.discard(RecoveryPoint::from_kind(TokenKind::Name), rp.or(at).or(brace)) {
        Recoverable::Present(named_type(s)?)
    } else {
        Recoverable::Missing(
            missing_unary(s, DiagnosticKind::MissingInputObjectTypeExtensionName),
        )
    };
    let directive_list = if s.recognize(at) {
        Some(directives(s, rp.or(brace))?)
    } else {
        None
    };
    let fields = if s.recognize(brace) {
        Some(input_fields_definition(s, rp)?)
    } else {
        None
    };
    Ok(
        InputObjectTypeExtension {
            extend_input: (extend, input),
            name: defined_name,
            directives: directive_list,
            fields_definition: fields,
        },
    )
}

/// Parses a directive definition: `directive`, an at sign, a name,
/// arguments, `repeatable` and the locations.
#[verifier::spinoff_prover]
#[verifier::rlimit(100)]
pub fn directive_definition(
    s: &mut Stream,
    rp: RecoveryPoint,
    description: Option<Description>,
) -> (r: Result<DirectiveDefinition, Error>)
    requires
        old(s).wf(),
        description matches Some(d) ==> ends_with(old(s).read_log(), seq![d.0.0.span]),
    ensures
        advanced(*old(s), *final(s)),
        r matches Err(Error::MaxRecursion(_)) ==> old(s).len() > RECURSION_LIMIT,
        begins(*old(s), set![TokenKind::KeywordDirective], false) && !stray_description(*final(s)) ==> !(r matches Err(Error::Expected(_))),
        r matches Ok(n) ==> final(s).len() < old(s).len() && all_recorded(
            sites_directive_definition(n),
        ) && read_into(*old(s), *final(s), tokens_directive_definition(n), count(description)),
{
    let at_point = RecoveryPoint::from_kind(TokenKind::At);
    let paren = RecoveryPoint::from_kind(TokenKind::ParenLeft);
    let repeatable_point = RecoveryPoint::from_kind(TokenKind::KeywordRepeatable);
    let on = RecoveryPoint::from_kind(TokenKind::KeywordOn);
    let named = RecoveryPoint::name_unless_on();
    let directive = keyword(s, TokenKind::KeywordDirective)?;
    let at = if s.discard(at_point, rp.or(named).or(paren).or(repeatable_point).or(on)) {
        Recoverable::Present(punctuator(s, TokenKind::At)?)
    } else {
        Recoverable::Missing(missing_unary(s, DiagnosticKind::MissingDirectiveDefinitionAt))
    };
    let directive_name = if s.discard(named, rp.or(paren).or(repeatable_point).or(on)) {
        Recoverable::Present(name_unless_on(s)?)
    } else {
        Recoverable::Missing(missing_unary(s, DiagnosticKind::MissingDirectiveDefinitionName))
    };
    let arguments = if s.recognize(paren) {
        Some(Shared::new(arguments_definition(s, rp.or(repeatable_point).or(on))?))
    } else {
        None
    };
    let repeatable = if s.recognize(repeatable_point) {
        Some(keyword(s, TokenKind::KeywordRepeatable)?)
    } else {
        None
    };
    let locations = if s.discard(on, rp) {
        Recoverable::Present(directive_locations(s, rp)?)
    } else {
        Recoverable::Missing(
            missing_unary(s, DiagnosticKind::MissingDirectiveDefinitionLocations),
        )
    };
    Ok(
        DirectiveDefinition {
            description,
            directive,
            at,
            name: directive_name,
            arguments_definition: arguments,
            repeatable,
            locations,
        },
    )
}

/// Parses the locations of a directive: `on`, and locations separated by
/// pipes.
#[verifier::spinoff_prover]
pub fn directive_locations(s: &mut Stream, rp: RecoveryPoint) -> (r: Result<
    DirectiveLocations,
    Error,
>)
    requires
        old(s).wf(),
    ensures
        advanced(*old(s), *final(s)),
        r matches Err(Error::MaxRecursion(_)) ==> old(s).len() > RECURSION_LIMIT,
        begins(*old(s), set![TokenKind::KeywordOn], false) ==> !(r matches Err(Error::Expected(_))),
        r matches Ok(n) ==> final(s).len() < old(s).len() && all_recorded(
            sites_directive_locations(n),
        ) && read_into(*old(s), *final(s), tokens_directive_locations(n), 0),
{
    let pipe_point = RecoveryPoint::from_kind(TokenKind::Pipe);
    let start = directive_location_start();
    let on = keyword(s, TokenKind::KeywordOn)?;
    let pipe = if s.recognize(pipe_point) {
        Some(punctuator(s, TokenKind::Pipe)?)
    } else {
        None
    };
    let first = if s.discard(start, rp.or(pipe_point)) {
        Recoverable::Present(directive_location(s)?)
    } else {
        Recoverable::Missing(missing_unary(s, DiagnosticKind::MissingFirstDirectiveLocation))
    };
    let next = rp.or(pipe_point);
    let mut locations: Vec<(Punctuator, Recoverable<DirectiveLocation>)> = Vec::new();
    let ghost entry = *s;
    while s.recognize(pipe_point)
        invariant
            pipe_point == RecoveryPoint::spec_from_kind(TokenKind::Pipe),
            start.kinds@ == directive_location_start_kinds(),
            !start.exclude_on,
            advanced(*old(s), *s),
            s.len() < old(s).len(),
            all_recorded(sites_list_punctuator_recoverable_directive_location(locations@)),
            entry.len() - s.len() == tokens_list_punctuator_recoverable_directive_location(locations@).len() + s.skipped().len() - entry.skipped().len(),
            s.read_log() == entry.read_log() + tokens_list_punctuator_recoverable_directive_location(locations@),
        decreases s.len(),
    {
        let separator = punctuator(s, TokenKind::Pipe)?;
        let location = if s.discard(start, next) {
            Recoverable::Present(directive_location(s)?)
        } else {
            Recoverable::Missing(missing_unary(s, DiagnosticKind::MissingSecondDirectiveLocation))
        };
        let ghost before = locations@;
        locations.push((separator, location));
        assert(locations@.drop_last() =~= before);
    }
    Ok(DirectiveLocations { on, pipe, first, locations: List(locations) })
}

/// Parses the location of a directive.
#[verifier::spinoff_prover]
pub fn directive_location(s: &mut Stream) -> (r: Result<DirectiveLocation, Error>)
    requires
        old(s).wf(),
    ensures
        advanced(*old(s), *final(s)),
        r matches Err(Error::MaxRecursion(_)) ==> old(s).len() > RECURSION_LIMIT,
        begins(*old(s), directive_location_start_kinds(), false) ==> !(r matches Err(Error::Expected(_))),
        r matches Ok(n) ==> final(s).len() < old(s).len() && all_recorded(
            sites_directive_location(n),
        ) && read_into(*old(s), *final(s), tokens_directive_location(n), 0),
        r matches Ok(DirectiveLocation::ExecutableDirectiveLocation(x))
            ==> executable_directive_location_keyword(x) == old(s).remaining()[0].0,
        r matches Ok(DirectiveLocation::TypeSystemDirectiveLocation(x))
            ==> type_system_directive_location_keyword(x) == old(s).remaining()[0].0,
{
    if s.recognize(executable_directive_location_start()) {
        Ok(DirectiveLocation::ExecutableDirectiveLocation(executable_directive_location(s)?))
    } else if s.recognize(type_system_directive_location_start()) {
        Ok(DirectiveLocation::TypeSystemDirectiveLocation(type_system_directive_location(s)?))
    } else {
        Err(Error::Expected(directive_location_start()))
    }
}

/// The keyword that each variant of `ExecutableDirectiveLocation` is written with.
pub open spec fn executable_directive_location_keyword(n: ExecutableDirectiveLocation) -> TokenKind {
    match n {
        ExecutableDirectiveLocation::Query(_) => TokenKind::KeywordDirectiveQuery,
        ExecutableDirectiveLocation::Mutation(_) => TokenKind::KeywordDirectiveMutation,
        ExecutableDirectiveLocation::Subscription(_) => TokenKind::KeywordDirectiveSubscription,
        ExecutableDirectiveLocation::Field(_) => TokenKind::KeywordDirectiveField,
        ExecutableDirectiveLocation::FragmentDefinition(_) => TokenKind::KeywordDirectiveFragmentDefinition,
        ExecutableDirectiveLocation::FragmentSpread(_) => TokenKind::KeywordDirectiveFragmentSpread,
        ExecutableDirectiveLocation::InlineFragment(_) => TokenKind::KeywordDirectiveInlineFragment,
        ExecutableDirectiveLocation::VariableDefinition(_) => TokenKind::KeywordDirectiveVariableDefinition,
    }
}

/// Parses the location of a directive in executable documents.
#[verifier::spinoff_prover]
pub fn executable_directive_location(s: &mut Stream) -> (r: Result<ExecutableDirectiveLocation, Error>)
    requires
        old(s).wf(),
    ensures
        advanced(*old(s), *final(s)),
        r matches Err(Error::MaxRecursion(_)) ==> old(s).len() > RECURSION_LIMIT,
        begins(*old(s), executable_directive_location_start_kinds(), false) ==> !(r matches Err(Error::Expected(_))),
        r matches Ok(n) ==> final(s).len() < old(s).len() && all_recorded(sites_executable_directive_location(n)) && read_into(*old(s), *final(s), tokens_executable_directive_location(n), 0),
        r matches Ok(n) ==> executable_directive_location_keyword(n) == old(s).remaining()[0].0,
{
    if s.recognize(RecoveryPoint::from_kind(TokenKind::KeywordDirectiveQuery)) {
        Ok(ExecutableDirectiveLocation::Query(keyword(s, TokenKind::KeywordDirectiveQuery)?))
    } else if s.recognize(RecoveryPoint::from_kind(TokenKind::KeywordDirectiveMutation)) {
        Ok(ExecutableDirectiveLocation::Mutation(keyword(s, TokenKind::KeywordDirectiveMutation)?))
    } else if s.recognize(RecoveryPoint::from_kind(TokenKind::KeywordDirectiveSubscription)) {
        Ok(ExecutableDirectiveLocation::Subscription(keyword(s, TokenKind::KeywordDirectiveSubscription)?))
    } else if s.recognize(RecoveryPoint::from_kind(TokenKind::KeywordDirectiveField)) {
        Ok(ExecutableDirectiveLocation::Field(keyword(s, TokenKind::KeywordDirectiveField)?))
    } else if s.recognize(RecoveryPoint::from_kind(TokenKind::KeywordDirectiveFragmentDefinition)) {
        Ok(ExecutableDirectiveLocation::FragmentDefinition(keyword(s, TokenKind::KeywordDirectiveFragmentDefinition)?))
    } else if s.recognize(RecoveryPoint::from_kind(TokenKind::KeywordDirectiveFragmentSpread)) {
        Ok(ExecutableDirectiveLocation::FragmentSpread(keyword(s, TokenKind::KeywordDirectiveFragmentSpread)?))
    } else if s.recognize(RecoveryPoint::from_kind(TokenKind::KeywordDirectiveInlineFragment)) {
        Ok(ExecutableDirectiveLocation::InlineFragment(keyword(s, TokenKind::KeywordDirectiveInlineFragment)?))
    } else if s.recognize(RecoveryPoint::from_kind(TokenKind::KeywordDirectiveVariableDefinition)) {
        Ok(ExecutableDirectiveLocation::VariableDefinition(keyword(s, TokenKind::KeywordDirectiveVariableDefinition)?))
    } else {
        Err(Error::Expected(executable_directive_location_start()))
    }
}

/// The keyword that each variant of `TypeSystemDirectiveLocation` is written with.
pub open spec fn type_system_directive_location_keyword(n: TypeSystemDirectiveLocation) -> TokenKind {
    match n {
        TypeSystemDirectiveLocation::Schema(_) => TokenKind::KeywordDirectiveSchema,
        TypeSystemDirectiveLocation::Scalar(_) => TokenKind::KeywordDirectiveScalar,
        TypeSystemDirectiveLocation::Object(_) => TokenKind::KeywordDirectiveObject,
        TypeSystemDirectiveLocation::FieldDefinition(_) => TokenKind::KeywordDirectiveFieldDefinition,
        TypeSystemDirectiveLocation::ArgumentDefinition(_) => TokenKind::KeywordDirectiveArgumentDefinition,
        TypeSystemDirectiveLocation::Interface(_) => TokenKind::KeywordDirectiveInterface,
        TypeSystemDirectiveLocation::Union(_) => TokenKind::KeywordDirectiveUnion,
        TypeSystemDirectiveLocation::Enum(_) => TokenKind::KeywordDirectiveEnum,
        TypeSystemDirectiveLocation::EnumValue(_) => TokenKind::KeywordDirectiveEnumValue,
        TypeSystemDirectiveLocation::InputObject(_) => TokenKind::KeywordDirectiveInputObject,
        TypeSystemDirectiveLocation::InputFieldDefinition(_) => TokenKind::KeywordDirectiveInputFieldDefinition,
    }
}

/// Parses the location of a directive in type systems.
#[verifier::spinoff_prover]
pub fn type_system_directive_location(s: &mut Stream) -> (r: Result<TypeSystemDirectiveLocation, Error>)
    requires
        old(s).wf(),
    ensures
        advanced(*old(s), *final(s)),
        r matches Err(Error::MaxRecursion(_)) ==> old(s).len() > RECURSION_LIMIT,
        begins(*old(s), type_system_directive_location_start_kinds(), false) ==> !(r matches Err(Error::Expected(_))),
        r matches Ok(n) ==> final(s).len() < old(s).len() && all_recorded(sites_type_system_directive_location(n)) && read_into(*old(s), *final(s), tokens_type_system_directive_location(n), 0),
        r matches Ok(n) ==> type_system_directive_location_keyword(n) == old(s).remaining()[0].0,
{
    if s.recognize(RecoveryPoint::from_kind(TokenKind::KeywordDirectiveSchema)) {
        Ok(TypeSystemDirectiveLocation::Schema(keyword(s, TokenKind::KeywordDirectiveSchema)?))
    } else if s.recognize(RecoveryPoint::from_kind(TokenKind::KeywordDirectiveScalar)) {
        Ok(TypeSystemDirectiveLocation::Scalar(keyword(s, TokenKind::KeywordDirectiveScalar)?))
    } else if s.recognize(RecoveryPoint::from_kind(TokenKind::KeywordDirectiveObject)) {
        Ok(TypeSystemDirectiveLocation::Object(keyword(s, TokenKind::KeywordDirectiveObject)?))
    } else if s.recognize(RecoveryPoint::from_kind(TokenKind::KeywordDirectiveFieldDefinition)) {
        Ok(TypeSystemDirectiveLocation::FieldDefinition(keyword(s, TokenKind::KeywordDirectiveFieldDefinition)?))
    } else if s.recognize(RecoveryPoint::from_kind(TokenKind::KeywordDirectiveArgumentDefinition)) {
        Ok(TypeSystemDirectiveLocation::ArgumentDefinition(keyword(s, TokenKind::KeywordDirectiveArgumentDefinition)?))
    } else if s.recognize(RecoveryPoint::from_kind(TokenKind::KeywordDirectiveInterface)) {
        Ok(TypeSystemDirectiveLocation::Interface(keyword(s, TokenKind::KeywordDirectiveInterface)?))
    } else if s.recognize(RecoveryPoint::from_kind(TokenKind::KeywordDirectiveUnion)) {
        Ok(TypeSystemDirectiveLocation::Union(keyword(s, TokenKind::KeywordDirectiveUnion)?))
    } else if s.recognize(RecoveryPoint::from_kind(TokenKind::KeywordDirectiveEnum)) {
        Ok(TypeSystemDirectiveLocation::Enum(keyword(s, TokenKind::KeywordDirectiveEnum)?))
    } else if s.recognize(RecoveryPoint::from_kind(TokenKind::KeywordDirectiveEnumValue)) {
        Ok(TypeSystemDirectiveLocation::EnumValue(keyword(s, TokenKind::KeywordDirectiveEnumValue)?))
    } else if s.recognize(RecoveryPoint::from_kind(TokenKind::KeywordDirectiveInputObject)) {
        Ok(TypeSystemDirectiveLocation::InputObject(keyword(s, TokenKind::KeywordDirectiveInputObject)?))
    } else if s.recognize(RecoveryPoint::from_kind(TokenKind::KeywordDirectiveInputFieldDefinition)) {
        Ok(TypeSystemDirectiveLocation::InputFieldDefinition(keyword(s, TokenKind::KeywordDirectiveInputFieldDefinition)?))
    } else {
        Err(Error::Expected(type_system_directive_location_start()))
    }
}

} // verus!
