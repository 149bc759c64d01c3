use litho::ast::types::Document;
use litho::compiler::compiler::Compiler;
use litho::diagnostics::{Diagnostic, DiagnosticKind};
use litho::lex::span::Span;
use litho::lex::SourceId;
use litho::syn::Parse;

fn parse(source_id: usize, text: &str) -> (Document, Vec<litho::lex::token::Token>) {
    Document::parse_from_str(SourceId(source_id), text).unwrap()
}

fn sorted(mut ids: Vec<SourceId>) -> Vec<usize> {
    let mut numbers: Vec<usize> = ids.drain(..).map(|id| id.0).collect();
    numbers.sort();
    numbers
}

#[test]
fn test_add_document_invalidates_dependents() {
    let mut compiler = Compiler::new();
    let changed = compiler.add_document(SourceId(1), parse(1, "type A { b: B }"), false);
    assert_eq!(sorted(changed), vec![1]);
    assert_eq!(compiler.definition_ids(SourceId(1)), vec![0]);
    // Adding the type that A needs makes the diagnostics of A stale.
    let changed = compiler.add_document(SourceId(2), parse(2, "type B { x: Int }"), false);
    assert_eq!(sorted(changed), vec![1, 2]);
    assert_eq!(compiler.definition_ids(SourceId(2)), vec![1]);
    assert!(compiler.document(SourceId(2)).is_some());
    assert!(compiler.document(SourceId(3)).is_none());
}

#[test]
fn test_remove_document_invalidates_dependents() {
    let mut compiler = Compiler::new();
    compiler.add_document(SourceId(1), parse(1, "type A { b: B }"), false);
    compiler.add_document(SourceId(2), parse(2, "type B { x: Int }"), false);
    compiler.add_document(SourceId(3), parse(3, "type C { x: Int }"), false);
    let changed = compiler.remove_document(SourceId(2));
    assert_eq!(sorted(changed), vec![1, 2]);
    assert!(compiler.document(SourceId(2)).is_none());
    assert!(compiler.definition_ids(SourceId(2)).is_empty());
    // Removing what nobody holds changes nothing.
    assert!(compiler.remove_document(SourceId(9)).is_empty());
}

#[test]
fn test_diagnostics_of_a_document() {
    let mut compiler = Compiler::new();
    compiler.add_document(SourceId(1), parse(1, "type A { b: B } scalar"), false);
    let diagnostics = compiler.diagnostics(SourceId(1));
    assert_eq!(diagnostics.len(), 1);
    assert_eq!(diagnostics[0].diagnostic_kind(), DiagnosticKind::MissingScalarTypeDefinitionName);
    let ids = compiler.definition_ids(SourceId(1));
    assert_eq!(ids.len(), 2);
    let span = Span { source_id: SourceId(1), start: 0, end: 4 };
    compiler.record_definition_diagnostics(ids[0], vec![Diagnostic::unrecognized_tokens(span)]);
    // Diagnostics already kept are not replaced.
    compiler.record_definition_diagnostics(ids[0], vec![]);
    let diagnostics = compiler.diagnostics(SourceId(1));
    assert_eq!(diagnostics.len(), 2);
    assert_eq!(diagnostics[1].diagnostic_kind(), DiagnosticKind::UnrecognizedTokens);
    // Adding what the first definition needs drops its diagnostics.
    compiler.add_document(SourceId(2), parse(2, "type B"), false);
    assert_eq!(compiler.diagnostics(SourceId(1)).len(), 1);
    assert!(compiler.diagnostics(SourceId(7)).is_empty());
}

#[test]
fn test_replace_document() {
    let mut compiler = Compiler::new();
    compiler.add_document(SourceId(1), parse(1, "type A { b: B }"), false);
    compiler.add_document(SourceId(2), parse(2, "type B"), false);
    let changed = compiler.replace_document(SourceId(2), parse(2, "type B type D"), true);
    assert_eq!(sorted(changed), vec![1, 2]);
    assert_eq!(compiler.definition_ids(SourceId(2)), vec![2, 3]);
    assert_eq!(compiler.document(SourceId(2)).unwrap().definitions.0.len(), 2);
}

#[test]
fn test_update_resolved_imports() {
    let mut compiler = Compiler::new();
    let mut imports = std::collections::HashMap::new();
    imports.insert(String::from("https://example.com"), Ok(SourceId(4)));
    compiler.update_resolved_imports(imports);
    assert!(compiler.document(SourceId(4)).is_none());
}
