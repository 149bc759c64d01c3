use litho::ast::context::{List, Shared};
use litho::ast::types::{
    Definition, Description, Document, Missing, MissingToken, Recoverable, ScalarTypeDefinition,
    SelectionSet, TypeDefinition, TypeSystemDefinition, TypeSystemDefinitionOrExtension,
};
use litho::chk::errors::{collect_errors, report, CollectErrors, Errors};
use litho::chk::traverse::Site;
use litho::diagnostics::{DiagnosticInfo, DiagnosticKind};
use litho::lex::kind::TokenKind;
use litho::lex::raw::RawToken;
use litho::lex::span::Span;
use litho::lex::token::{Name, Punctuator, StringValue, Token};
use litho::lex::SourceId;

fn span(start: usize, end: usize) -> Span {
    Span { source_id: SourceId(0), start, end }
}

fn scalar(name: Recoverable<Name>) -> Definition {
    Definition::TypeSystemDefinitionOrExtension(TypeSystemDefinitionOrExtension::TypeSystemDefinition(
        TypeSystemDefinition::TypeDefinition(Shared::new(TypeDefinition::ScalarTypeDefinition(
            ScalarTypeDefinition { description: None, scalar: Name::new("scalar"), name, directives: None },
        ))),
    ))
}

fn stray_description(at: Span) -> Definition {
    let mut raw = RawToken::new(TokenKind::StringValue, String::from("\"doc\""));
    raw.span = at;
    Definition::TypeSystemDefinitionOrExtension(TypeSystemDefinitionOrExtension::TypeSystemDefinition(
        TypeSystemDefinition::Error(Description(StringValue(raw))),
    ))
}

fn missing_name(at: Span) -> Recoverable<Name> {
    Recoverable::Missing(MissingToken {
        span: at,
        missing: Missing::Unary(DiagnosticKind::MissingScalarTypeDefinitionName),
    })
}

#[test]
fn test_complete_document_has_no_errors() {
    let document = Document {
        definitions: List(vec![Shared::new(scalar(Recoverable::Present(Name::new("Date"))))]),
    };
    assert!(document.errors().is_empty());
    assert!(collect_errors(&(document, vec![])).is_empty());
}

#[test]
fn test_collect_errors_in_traversal_order() {
    let document = Document {
        definitions: List(vec![
            Shared::new(scalar(missing_name(span(6, 7)))),
            Shared::new(stray_description(span(10, 15))),
        ]),
    };
    let mut extra = RawToken::new(TokenKind::Ampersand, String::from("&"));
    extra.span = span(20, 21);
    let errors = collect_errors(&(document, vec![Token::Punctuator(Punctuator(extra))]));
    assert_eq!(errors.len(), 3);
    assert_eq!(errors[0].diagnostic_kind(), DiagnosticKind::MissingScalarTypeDefinitionName);
    assert_eq!(errors[0].code(), "E0029");
    assert_eq!(errors[0].span(), span(6, 7));
    assert_eq!(errors[1].diagnostic_kind(), DiagnosticKind::UnrecognizedTokens);
    assert_eq!(errors[1].span(), span(10, 15));
    assert_eq!(errors[2].diagnostic_kind(), DiagnosticKind::UnrecognizedTokens);
    assert_eq!(errors[2].code(), "E0001");
    assert_eq!(errors[2].span(), span(20, 21));
}

#[test]
fn test_missing_closing_brace_points_at_both_braces() {
    let mut open = Punctuator::new("{");
    open.0.span = span(0, 1);
    let set = SelectionSet {
        braces: (
            open,
            Recoverable::Missing(MissingToken {
                span: span(8, 8),
                missing: Missing::Binary(DiagnosticKind::MissingSelectionSetClosingBrace, span(0, 1)),
            }),
        ),
        selections: List(vec![]),
    };
    let errors = set.errors();
    assert_eq!(errors.len(), 1);
    assert_eq!(errors[0].code(), "E0004");
    let labels = errors[0].labels();
    assert_eq!(labels.len(), 2);
    assert_eq!(labels[0].0, span(0, 1));
    assert_eq!(labels[1].0, span(8, 8));
}

#[test]
fn test_visitor_methods() {
    let mut accumulator = vec![];
    CollectErrors.visit_recoverable(&Recoverable::Present(Name::new("a")), &mut accumulator);
    assert!(accumulator.is_empty());
    CollectErrors.visit_recoverable(&missing_name(span(3, 4)), &mut accumulator);
    assert_eq!(accumulator.len(), 1);
    assert_eq!(accumulator[0].span(), span(3, 4));
    let mut raw = RawToken::new(TokenKind::StringValue, String::from("\"x\""));
    raw.span = span(5, 8);
    CollectErrors.visit_type_system_definition(
        &TypeSystemDefinition::Error(Description(StringValue(raw))),
        &mut accumulator,
    );
    assert_eq!(accumulator.len(), 2);
    assert_eq!(accumulator[1].diagnostic_kind(), DiagnosticKind::UnrecognizedTokens);
    assert_eq!(accumulator[1].span(), span(5, 8));
}

#[test]
fn test_report_site() {
    let d = report(&Site::Unrecognized(span(1, 2)));
    assert_eq!(d.code(), "E0001");
    assert_eq!(d.span(), span(1, 2));
}
