use litho::ast::types::{Missing, MissingToken};
use litho::diagnostics::{Diagnostic, DiagnosticInfo, DiagnosticKind};
use litho::lex::span::Span;
use litho::lex::SourceId;

fn span(start: usize, end: usize) -> Span {
    Span { source_id: SourceId(1), start, end }
}

#[test]
fn test_diagnostic_with_two_spans() {
    let d = Diagnostic::missing_selection_set_closing_brace(span(0, 1), span(9, 9));
    assert_eq!(d.code(), "E0004");
    assert_eq!(d.message(), "Selection set is missing closing curly brace.");
    assert_eq!(d.span(), span(9, 9));
    assert_eq!(
        d.labels(),
        vec![
            (span(0, 1), "This `{` here ...".to_owned()),
            (span(9, 9), "... should have a matching `}` here.".to_owned()),
        ]
    );
    assert!(!d.is_deprecated());
}

#[test]
fn test_diagnostic_names_values() {
    let d = Diagnostic::unknown_named_type("Foo".to_owned(), span(3, 6));
    assert_eq!(d.code(), "E0100");
    assert_eq!(d.span(), span(3, 6));
    assert_eq!(
        d.labels(),
        vec![(span(3, 6), "Type `Foo` is referenced to here but never defined.".to_owned())]
    );

    let d = Diagnostic::duplicate_extended_field(
        "User".to_owned(),
        "id".to_owned(),
        span(1, 2),
        span(3, 4),
        span(5, 6),
    );
    assert_eq!(d.code(), "E0103");
    assert_eq!(d.span(), span(5, 6));
    assert_eq!(
        d.labels(),
        vec![
            (span(1, 2), "Type `User` first defines field `id` here, ...".to_owned()),
            (span(3, 4), "... gets extended here ...".to_owned()),
            (span(5, 6), "... and later defines the same field again here.".to_owned()),
        ]
    );
}

#[test]
fn test_diagnostic_deprecated() {
    let d = Diagnostic::missing_operation_definition_name(span(0, 0));
    assert_eq!(d.code(), "E0002");
    assert!(d.is_deprecated());
}

#[test]
fn test_missing_token_to_diagnostic() {
    let token = MissingToken { span: span(4, 4), missing: Missing::unary(DiagnosticKind::MissingFieldName) };
    let d = token.to_diagnostic();
    assert_eq!(d.diagnostic_kind(), DiagnosticKind::MissingFieldName);
    assert_eq!(d.code(), "E0005");
    assert_eq!(d.span(), span(4, 4));

    let token = MissingToken {
        span: span(8, 8),
        missing: Missing::Binary(DiagnosticKind::MissingArgumentsClosingParentheses, span(2, 3)),
    };
    let d = token.to_diagnostic();
    assert_eq!(d.code(), "E0006");
    assert_eq!(d.span(), span(8, 8));
    assert_eq!(d.labels()[0].0, span(2, 3));
    assert_eq!(d.labels()[1].0, span(8, 8));
}
