use litho::fmt::{Diff, Format, Formatter, Measurer};
use litho::lex::span::Span;
use litho::lex::token::Name;
use litho::lex::SourceId;

fn names(items: &[&str]) -> Vec<Name> {
    items.iter().map(|s| Name::new(s)).collect()
}

#[test]
fn test_formatter_separates_tokens() {
    let mut f = Formatter::new(String::new(), 80);
    f.push("a").unwrap();
    f.push("b").unwrap();
    f.line().unwrap();
    f.push("c").unwrap();
    assert_eq!(f.into_writer(), "a b\nc");
}

#[test]
fn test_formatter_lines_settle() {
    let mut f = Formatter::new(String::new(), 80);
    f.line().unwrap();
    f.page().unwrap();
    f.push("a").unwrap();
    f.line().unwrap();
    f.line().unwrap();
    f.push("b").unwrap();
    f.line().unwrap();
    f.page().unwrap();
    f.page().unwrap();
    f.push("c").unwrap();
    f.lines(3).unwrap();
    assert_eq!(f.into_writer(), "a\nb\n\nc\n\n\n");
}

#[test]
fn test_formatter_indent_and_squeeze() {
    let mut f = Formatter::new(String::new(), 80);
    f.push("{").unwrap();
    f.indent(|f| {
        f.push("x")?;
        f.squeeze(|f| f.push(","))?;
        f.push("y")
    })
    .unwrap();
    f.push("}").unwrap();
    assert_eq!(f.into_writer(), "{\n    x, y\n}");
}

#[test]
fn test_formatter_each_variants() {
    let items = names(&["a", "b"]);

    let mut f = Formatter::new(String::new(), 80);
    f.each(&items).unwrap();
    assert_eq!(f.into_writer(), "a b");

    let mut f = Formatter::new(String::new(), 80);
    f.each_page(&items).unwrap();
    assert_eq!(f.into_writer(), "a\n\nb");

    let mut f = Formatter::new(String::new(), 80);
    f.each_line(&items).unwrap();
    assert_eq!(f.into_writer(), "a\nb");

    let mut f = Formatter::new(String::new(), 80);
    f.each_line_comma(&items).unwrap();
    assert_eq!(f.into_writer(), "a,\nb,");
}

#[test]
fn test_formatter_each_comma_wraps() {
    let items = names(&["a", "b", "c"]);

    let mut f = Formatter::new(String::new(), 80);
    f.each_comma(&items).unwrap();
    assert_eq!(f.into_writer(), "a, b, c");

    let mut f = Formatter::new(String::new(), 3);
    f.each_comma(&items).unwrap();
    assert_eq!(f.into_writer(), "a, b,\nc");
}

#[test]
fn test_measure_and_format_to_string() {
    let name = Name::new("hello");
    assert!(Measurer::measure(&name, 5).is_ok());
    assert!(Measurer::measure(&name, 4).is_err());
    assert_eq!(name.format_to_string(80), "hello");
    assert_eq!(name.format_to_string(1), "hello");
}

#[test]
fn test_diff_replaces_whole_source() {
    let source = "query { a }";
    let diffs = Diff::compute(SourceId(1), source, &Name::new("x"));
    assert_eq!(diffs.len(), 1);
    assert_eq!(diffs[0].span, Span { source_id: SourceId(1), start: 0, end: 11 });
    assert_eq!(diffs[0].replacement, "x");
}
