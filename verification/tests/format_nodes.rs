use litho::ast::node::Node;
use litho::ast::types::Document;
use litho::fmt::{Diff, Format};
use litho::lex::SourceId;
use litho::syn::Parse;

fn formatted(source: &str) -> String {
    let (document, rest) = Document::parse_from_str(SourceId(0), source).unwrap();
    assert!(rest.is_empty());
    document.format_to_string(80)
}

#[test]
fn test_example() {
    let (node, _) = Document::parse_from_str(
        SourceId(0),
        "\"\"\"
            Hello World!
            \"\"\"
            schema @litho(url: [{ hello: \"world\", blabla: true }, true]) {
            query: HelloQuery
            mutation: HelloMutation
        }

        \"\"\"
        Long description
            Some additional
       This is weird
       \"\"\"
        type Example

        query example { id }
        ",
    )
    .unwrap();
    let output = node.format_to_string(80);
    println!("Output: {}", output);
    assert!(output.starts_with("\"\"\""));
    assert!(output.contains("schema\n    @litho(\n        url: [\n            {\n"));
    assert!(output.contains("type Example"));
    assert!(output.ends_with("query example {\n    id\n}"));
}

#[test]
fn test_format_operation() {
    assert_eq!(formatted("query example { id }"), "query example {\n    id\n}");
}

#[test]
fn test_format_nested_selections_and_arguments() {
    assert_eq!(
        formatted("{ user(id: 1, tags: [\"a\", \"b\"]) { name } }"),
        "{\n    user(id: 1 tags: [\"a\", \"b\"]) {\n        name\n    }\n}"
    );
}

#[test]
fn test_format_object_type() {
    assert_eq!(
        formatted("type Query { id: ID! name(first: Int): String }"),
        "type Query {\n    id: ID!\n    name(\n        first: Int,\n    ): String\n}"
    );
}

#[test]
fn test_format_schema_with_description() {
    assert_eq!(
        formatted("\"\"\"The schema.\"\"\" schema { query: Query }"),
        "\"\"\"The schema.\"\"\"\nschema {\n    query: Query\n}"
    );
}

#[test]
fn test_format_union_members() {
    assert_eq!(formatted("union U = | A | B"), "union U = A | B");
    assert_eq!(
        formatted("union U = A | B | C | D"),
        "union U =\n    | A\n    | B\n    | C\n    | D\n"
    );
}

#[test]
fn test_format_directive_definition() {
    assert_eq!(
        formatted("directive @key(fields: String!) repeatable on OBJECT | INTERFACE"),
        "directive @key(\n    fields: String!,\n) repeatable on OBJECT | INTERFACE"
    );
}

#[test]
fn test_format_definitions_on_pages() {
    assert_eq!(formatted("scalar A scalar B"), "scalar A\n\nscalar B");
}

#[test]
fn test_format_implements_interfaces() {
    assert_eq!(formatted("type T implements A & B"), "type T implements A & B");
}

#[test]
fn test_format_object_value_expands() {
    assert_eq!(
        formatted("{ f(o: { a: 1, b: 2 }) }"),
        "{\n    f(\n        o: {\n            a: 1,\n            b: 2,\n        },\n    )\n}"
    );
}

#[test]
fn test_format_is_stable() {
    let once = formatted("type Query { id: ID! name(first: Int): String }");
    assert_eq!(formatted(&once), once);
}

#[test]
fn test_diff_reformats_parsed_document() {
    let source = "query   example{id}";
    let (document, _) = Document::parse_from_str(SourceId(3), source).unwrap();
    let diffs = Diff::compute(SourceId(3), source, &document);
    assert_eq!(diffs.len(), 1);
    assert_eq!(diffs[0].span.end, source.len());
    assert_eq!(diffs[0].replacement, "query example {\n    id\n}");
}

const ROUNDTRIP: &str = r#"
"""The schema."""
schema @tag(name: "x") { query: Query mutation: Mutation }

"A query."
type Query implements Node & Entity @key(fields: "id") {
  "The id."
  id: ID!
  users(first: Int = 10, after: String, filter: Filter = { a: 1, b: [1, 2] }): [User!]! @deprecated(reason: "no")
}

union SearchResult = User | Post | Comment
enum Color { RED "Green." GREEN @deprecated BLUE }
input Filter { name: String = "x" tags: [String!] = ["a", "b"] }
directive @key(fields: String!) repeatable on OBJECT | INTERFACE
extend type Query { extra: Int }

query Users($first: Int = 10, $after: String) @cached {
  users(first: $first, after: $after) {
    id
    ... on User { name }
    ...Details
    alias: email
  }
}

fragment Details on User { id }
"#;

#[test]
fn test_format_then_parse_is_congruent() {
    let (document, rest) = Document::parse_from_str(SourceId(0), ROUNDTRIP).unwrap();
    assert!(rest.is_empty());
    let text = document.format_to_string(80);
    let (again, rest) = Document::parse_from_str(SourceId(1), &text).unwrap();
    assert!(rest.is_empty());
    assert!(again.congruent(&document));
    assert!(document.congruent(&again));
    assert_eq!(again.format_to_string(80), text);
}

#[test]
fn test_congruence_ignores_places_but_not_text() {
    let (a, _) = Document::parse_from_str(SourceId(0), "type A { b: C }").unwrap();
    let (b, _) = Document::parse_from_str(SourceId(1), "type   A {\n  b : C\n}").unwrap();
    let (c, _) = Document::parse_from_str(SourceId(0), "type A { b: D }").unwrap();
    assert!(a.congruent(&a));
    assert!(a.congruent(&b));
    assert!(!a.congruent(&c));
}
