use litho::ast::types::{
    Definition, Document, ExecutableDefinition, ExecutableDocument, Recoverable, Selection,
    TypeDefinition, TypeSystemDefinition, TypeSystemDefinitionOrExtension, TypeSystemDocument,
    TypeSystemExtension, Value,
};
use litho::chk::errors::{collect_errors, Errors};
use litho::diagnostics::{DiagnosticInfo, DiagnosticKind};
use litho::lex::lexer::lexer;
use litho::lex::SourceId;
use litho::syn::stream::{Error, Stream};
use litho::syn::Parse;
use litho::ast::context::Shared;
use litho::codegen::generator::export_typescript_value;
use litho::syn::executable::{directive, field};
use litho::syn::recovery::RecoveryPoint;

const SCHEMA: &str = r#"
"""The schema."""
schema { query: Query mutation: Mutation }

"A query."
type Query implements Node & Entity @key(fields: "id") {
  "The id."
  id: ID!
  users(first: Int = 10, after: String): [User!]! @deprecated(reason: "no")
}

interface Node { id: ID! }
union SearchResult = | User | Post
enum Color { RED "Green." GREEN @deprecated BLUE }
input Filter { name: String = "x" tags: [String!] = ["a", "b"] }
scalar Date @specifiedBy(url: "https://example.com")
directive @key(fields: String!) repeatable on OBJECT | INTERFACE
extend type Query { extra: Int }
extend schema @tag
"#;

#[test]
fn test_parse_schema_without_errors() {
    let (document, rest) = Document::parse_from_str(SourceId(0), SCHEMA).unwrap();
    assert!(rest.is_empty());
    assert_eq!(document.definitions.0.len(), 10);
    assert!(document.errors().is_empty());
    assert!(collect_errors(&(document, rest)).is_empty());
}

#[test]
fn test_parse_type_system_document() {
    let (document, rest) = TypeSystemDocument::parse_from_str(SourceId(0), SCHEMA).unwrap();
    // A type system document stops at the first extension.
    assert_eq!(document.definitions.0.len(), 8);
    assert!(!rest.is_empty());
    assert_eq!(rest[0].span().start, SCHEMA.find("extend type").unwrap());
    assert!(document.errors().is_empty());
    match &document.definitions.0[1] {
        TypeSystemDefinition::TypeDefinition(definition) => match &*definition.0 {
            TypeDefinition::ObjectTypeDefinition(object) => {
                assert!(object.description.is_some());
                let fields = object.fields_definition.as_ref().unwrap();
                assert_eq!(fields.definitions.0.len(), 2);
                assert_eq!(object.implements_interfaces.as_ref().unwrap().types.0.len(), 1);
            }
            _ => panic!("expected an object type"),
        },
        _ => panic!("expected a type definition"),
    }
}

#[test]
fn test_parse_executable_document() {
    let source = r#"
query Q($id: ID! = 1) @live {
  user(id: $id) {
    ...Details
    ... on User { name }
    alias: field(a: [1, 2.5, "s", true, null, ENUM, {k: $id}])
  }
}
fragment Details on User { id }
{ a }
"#;
    let (document, rest) = ExecutableDocument::parse_from_str(SourceId(0), source).unwrap();
    assert!(rest.is_empty());
    assert_eq!(document.definitions.0.len(), 3);
    assert!(document.errors().is_empty());
    match &document.definitions.0[0] {
        ExecutableDefinition::OperationDefinition(operation) => {
            assert!(operation.0.name.is_some());
            assert!(operation.0.variable_definitions.is_some());
            match &operation.0.selection_set {
                Recoverable::Present(set) => match &set.0.selections.0[0] {
                    Selection::Field(user) => {
                        let inner = user.0.selection_set.as_ref().unwrap();
                        assert_eq!(inner.0.selections.0.len(), 3);
                        assert!(matches!(inner.0.selections.0[0], Selection::FragmentSpread(_)));
                        assert!(matches!(inner.0.selections.0[1], Selection::InlineFragment(_)));
                        match &inner.0.selections.0[2] {
                            Selection::Field(field) => {
                                assert!(field.0.alias.is_some());
                                let arguments = field.0.arguments.as_ref().unwrap();
                                match &arguments.0.items.0[0].0.value {
                                    Recoverable::Present(value) => match &*value.0 {
                                        Value::ListValue(list) => {
                                            assert_eq!(list.values.0.len(), 7)
                                        }
                                        _ => panic!("expected a list"),
                                    },
                                    _ => panic!("expected a value"),
                                }
                            }
                            _ => panic!("expected a field"),
                        }
                    }
                    _ => panic!("expected a field"),
                },
                _ => panic!("expected a selection set"),
            }
        }
        _ => panic!("expected an operation"),
    }
    assert!(matches!(document.definitions.0[1], ExecutableDefinition::FragmentDefinition(_)));
}

#[test]
fn test_missing_tokens_are_reported() {
    let source = "query { a(b: )";
    let (document, rest) = Document::parse_from_str(SourceId(0), source).unwrap();
    assert!(rest.is_empty());
    let errors = collect_errors(&(document, rest));
    assert_eq!(errors.len(), 2);
    assert_eq!(errors[0].diagnostic_kind(), DiagnosticKind::MissingSelectionSetClosingBrace);
    assert_eq!(errors[1].diagnostic_kind(), DiagnosticKind::MissingArgumentValue);
    // The closing brace is missing after the last token; the opening brace
    // is labelled too.
    let labels = errors[0].labels();
    assert_eq!(labels[0].0.start, 6);
    assert_eq!(labels[1].0.start, source.len());
}

#[test]
fn test_unexpected_tokens_are_skipped() {
    let source = "type A { a: Int } ) type B";
    let (document, rest) = Document::parse_from_str(SourceId(0), source).unwrap();
    assert_eq!(document.definitions.0.len(), 2);
    assert_eq!(rest.len(), 1);
    assert_eq!(rest[0].span().start, 18);
    let errors = collect_errors(&(document, rest));
    assert_eq!(errors.len(), 1);
    assert_eq!(errors[0].diagnostic_kind(), DiagnosticKind::UnrecognizedTokens);
}

#[test]
fn test_description_alone_is_an_error() {
    let (document, _) = Document::parse_from_str(SourceId(0), "\"alone\" extend").unwrap();
    assert_eq!(document.definitions.0.len(), 2);
    match &*document.definitions.0[0].0 {
        Definition::TypeSystemDefinitionOrExtension(
            TypeSystemDefinitionOrExtension::TypeSystemDefinition(TypeSystemDefinition::Error(_)),
        ) => {}
        _ => panic!("expected an error definition"),
    }
    match &*document.definitions.0[1].0 {
        Definition::TypeSystemDefinitionOrExtension(
            TypeSystemDefinitionOrExtension::TypeSystemExtension(TypeSystemExtension::Error(_)),
        ) => {}
        _ => panic!("expected an error extension"),
    }
    let errors = document.errors();
    assert_eq!(errors.len(), 2);
    assert_eq!(errors[0].code(), "E0001");
}

#[test]
fn test_recursion_limit() {
    let nested = |n: usize| format!("{}{}", "{a".repeat(n), "}".repeat(n));
    let deep = nested(32);
    let (document, rest) = Document::parse_from_str(SourceId(0), &deep).unwrap();
    assert!(rest.is_empty());
    assert!(document.errors().is_empty());
    let too_deep = nested(33);
    assert!(matches!(
        Document::parse_from_str(SourceId(0), &too_deep),
        Err(Error::MaxRecursion(_))
    ));
}

#[test]
fn test_description_needs_a_field() {
    let result = Document::parse_from_str(SourceId(0), "type A { \"doc\" }");
    assert!(matches!(result, Err(Error::Expected(_))));
}

#[test]
fn test_parse_from_stream() {
    let stream = Stream::new(lexer(SourceId(3), "scalar"));
    let (document, rest) = Document::parse(stream).unwrap();
    assert!(rest.is_empty());
    let errors = document.errors();
    assert_eq!(errors.len(), 1);
    assert_eq!(errors[0].diagnostic_kind(), DiagnosticKind::MissingScalarTypeDefinitionName);
    assert_eq!(errors[0].span().source_id, SourceId(3));
}

#[test]
fn test_field_alias_comes_first() {
    let mut stream = Stream::new(lexer(SourceId(0), "short: longName"));
    let parsed = field(&mut stream, RecoveryPoint::none(), 32).unwrap();
    assert_eq!(parsed.alias.as_ref().unwrap().name.0.source, "short");
    match &parsed.name {
        Recoverable::Present(name) => assert_eq!(name.0.source, "longName"),
        Recoverable::Missing(_) => panic!("expected a field name"),
    }
    let mut stream = Stream::new(lexer(SourceId(0), "plain"));
    let parsed = field(&mut stream, RecoveryPoint::none(), 32).unwrap();
    assert!(parsed.alias.is_none());
    match &parsed.name {
        Recoverable::Present(name) => assert_eq!(name.0.source, "plain"),
        Recoverable::Missing(_) => panic!("expected a field name"),
    }
}

#[test]
fn test_field_needs_a_name() {
    let mut stream = Stream::new(lexer(SourceId(0), "{ a }"));
    assert!(matches!(
        field(&mut stream, RecoveryPoint::none(), 32),
        Err(Error::Expected(_))
    ));
}

#[test]
fn test_export_typescript_value() {
    let read = |text: &str| {
        let mut stream = Stream::new(lexer(SourceId(0), text));
        directive(&mut stream, RecoveryPoint::none()).unwrap()
    };
    let export = read("@litho_export(other: 1, typescript: {skip: true})");
    match export_typescript_value(&export.0) {
        Some(Value::ObjectValue(object)) => assert_eq!(object.object_fields.0.len(), 1),
        _ => panic!("expected the object of the typescript argument"),
    }
    assert!(export_typescript_value(&read("@other(typescript: {skip: true})").0).is_none());
    assert!(export_typescript_value(&read("@litho_export(other: 1)").0).is_none());
    assert!(export_typescript_value(&read("@litho_export(typescript: )").0).is_none());
    let again = Shared::clone(&export);
    assert!(Shared::ptr_eq(&export, &again));
    assert!(!Shared::ptr_eq(&export, &read("@litho_export(other: 1, typescript: {skip: true})")));
}
