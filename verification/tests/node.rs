use litho::ast::node::{Node, SpanCollector};
use litho::ast::types::Document;
use litho::compiler::tracker::{Consumer, Tracker};
use litho::compiler::Dependency;
use litho::lex::span::Span;
use litho::lex::SourceId;
use litho::syn::Parse;

fn span(start: usize, end: usize) -> Span {
    Span { source_id: SourceId(1), start, end }
}

#[test]
fn test_node_span_covers_its_tokens() {
    let source = "  type A { a: Int }  ";
    let (document, _) = Document::parse_from_str(SourceId(1), source).unwrap();
    assert_eq!(document.span(), span(2, 19));
    let definition = &document.definitions.0[0];
    assert_eq!(definition.0.span(), span(2, 19));
}

#[test]
fn test_empty_node_span() {
    let (document, rest) = Document::parse_from_str(SourceId(1), "   ").unwrap();
    assert!(rest.is_empty());
    assert_eq!(document.span(), Span { source_id: SourceId(0), start: 0, end: 0 });
}

#[test]
fn test_span_collector_joins() {
    let mut collected = None;
    SpanCollector.visit_span(span(4, 6), &mut collected);
    assert_eq!(collected, Some(span(4, 6)));
    SpanCollector.visit_span(span(1, 2), &mut collected);
    SpanCollector.visit_span(span(8, 9), &mut collected);
    assert_eq!(collected, Some(span(1, 9)));
}

#[test]
fn test_operation_consumes_root_type_and_named_types() {
    let (document, _) =
        Document::parse_from_str(SourceId(1), "query Q { a ... on T { b } }").unwrap();
    let consumes = document.definitions.0[0].0.consumes();
    assert_eq!(
        consumes,
        vec![Dependency::Fragment(String::from("Q")), Dependency::Query, Dependency::Type(String::from("T"))]
    );
}

#[test]
fn test_type_consumes_named_types() {
    let (document, _) = Document::parse_from_str(
        SourceId(1),
        "type A implements B { f(x: In): [C!] } subscription { s }",
    )
    .unwrap();
    assert_eq!(
        document.definitions.0[0].0.consumes(),
        vec![
            Dependency::Type(String::from("A")),
            Dependency::Type(String::from("B")),
            Dependency::Type(String::from("In")),
            Dependency::Type(String::from("C")),
        ]
    );
    assert_eq!(document.definitions.0[1].0.consumes(), vec![Dependency::Subscription]);
}

#[test]
fn test_tracker_visits() {
    let (document, _) = Document::parse_from_str(SourceId(1), "mutation { m }").unwrap();
    let mut accumulator = vec![];
    if let litho::ast::types::Definition::ExecutableDefinition(
        litho::ast::types::ExecutableDefinition::OperationDefinition(operation),
    ) = &*document.definitions.0[0].0
    {
        Tracker.visit_operation_definition(&operation.0, &mut accumulator);
    }
    assert_eq!(accumulator, vec![Dependency::Mutation]);
}
