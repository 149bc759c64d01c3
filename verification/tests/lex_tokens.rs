use litho::lex::kind::TokenKind;
use litho::lex::raw::RawToken;
use litho::lex::span::Span;
use litho::lex::token::{IntErrorKind, IntValue, Name, Punctuator, StringValue};
use litho::lex::{SourceId, SourceMap};

fn span(start: usize, end: usize) -> Span {
    Span { source_id: SourceId(1), start, end }
}

#[test]
fn test_span_join_covers_both() {
    let mut a = span(4, 8);
    a.join(span(2, 5));
    assert_eq!(a, span(2, 8));
    assert_eq!(span(10, 12).joined(span(1, 3)), span(1, 12));
    assert_eq!(span(3, 7).joined(span(3, 7)), span(3, 7));
    assert_eq!(span(1, 2).joined(span(5, 9)), span(5, 9).joined(span(1, 2)));
}

#[test]
fn test_span_between_and_collapse() {
    assert_eq!(Span::between(span(1, 3), span(7, 9)), span(3, 7));
    assert_eq!(span(4, 9).collapse_to_start(), span(4, 4));
    assert_eq!(span(4, 9).collapse_to_end(), span(9, 9));
    assert_eq!(Span::default_span(), Span { source_id: SourceId(0), start: 0, end: 0 });
}

#[test]
fn test_span_before_and_contains() {
    let s = span(3, 6);
    assert!(s.before(7));
    assert!(!s.before(6));
    assert!(s.contains(3));
    assert!(s.contains(6));
    assert!(!s.contains(2));
    assert!(!s.contains(7));
}

#[test]
fn test_source_map_one_id_per_key() {
    let mut map = SourceMap::new();
    let a = map.get_or_insert("a.graphql".to_owned());
    let b = map.get_or_insert("b.graphql".to_owned());
    let again = map.get_or_insert("a.graphql".to_owned());
    assert_eq!(a, SourceId(1));
    assert_eq!(b, SourceId(2));
    assert_eq!(again, a);
    assert_eq!(map.get(&"b.graphql".to_owned()), Some(b));
    assert_eq!(map.get(&"c.graphql".to_owned()), None);
    assert_eq!(map.get_id(&a).map(String::as_str), Some("a.graphql"));
    assert_eq!(map.get_id(&SourceId(0)), None);
    assert_eq!(map.get_id(&SourceId(3)), None);
}

#[test]
fn test_name_kinds() {
    assert_eq!(Name::new("query").as_raw_token().kind, TokenKind::KeywordQuery);
    assert_eq!(Name::new("fragment").as_raw_token().kind, TokenKind::KeywordFragment);
    assert_eq!(Name::new("queries").as_raw_token().kind, TokenKind::Name);
    assert_eq!(Name::new("hello").as_str(), "hello");
    assert_eq!(Punctuator::new("...").as_raw_token().kind, TokenKind::Dots);
    assert_eq!(Punctuator::new("{").as_raw_token().kind, TokenKind::BraceLeft);
}

#[test]
fn test_raw_token_congruent() {
    let a = RawToken::new(TokenKind::Name, "foo".to_owned());
    let mut b = RawToken::new(TokenKind::Name, "foo".to_owned());
    b.span = span(5, 8);
    let c = RawToken::new(TokenKind::Name, "bar".to_owned());
    let d = RawToken::new(TokenKind::StringValue, "foo".to_owned());
    assert!(a.congruent(&b));
    assert!(!a.congruent(&c));
    assert!(!a.congruent(&d));
}

fn int_literal(text: &str) -> IntValue {
    IntValue(RawToken::new(TokenKind::IntValue, text.to_owned()))
}

#[test]
fn test_int_value_to_i32() {
    assert_eq!(int_literal("0").to_i32(), Ok(0));
    assert_eq!(int_literal("42").to_i32(), Ok(42));
    assert_eq!(int_literal("-17").to_i32(), Ok(-17));
    assert_eq!(int_literal("2147483647").to_i32(), Ok(i32::MAX));
    assert_eq!(int_literal("-2147483648").to_i32(), Ok(i32::MIN));
    assert_eq!(int_literal("2147483648").to_i32(), Err(IntErrorKind::PosOverflow));
    assert_eq!(int_literal("-2147483649").to_i32(), Err(IntErrorKind::NegOverflow));
    assert_eq!(int_literal("").to_i32(), Err(IntErrorKind::Empty));
    assert_eq!(int_literal("12a").to_i32(), Err(IntErrorKind::InvalidDigit));
}

fn string(text: &str) -> StringValue {
    StringValue(RawToken::new(TokenKind::StringValue, text.to_owned()))
}

#[test]
fn test_string_value_contents() {
    assert_eq!(string("\"foo\"").to_string(), "foo");
    assert_eq!(string("\"say \\\"hi\\\"\"").to_string(), "say \"hi\"");
    assert_eq!(string("\"\"").to_string(), "");
    assert_eq!(string("\"\"\"block\"\"\"").to_string(), "block");
    assert_eq!(string("\"\"\"\n    first\n      second\n    \"\"\"").to_string(), "first\n  second\n");
}

#[test]
fn test_string_value_block() {
    let value = StringValue::block("Hello");
    assert_eq!(value.as_raw_token().source, "\"\"\"Hello\"\"\"");
    assert_eq!(value.as_raw_token().kind, TokenKind::StringValue);
    assert_eq!(value.to_string(), "Hello");
}

#[test]
fn test_default_source_map_starts_at_one() {
    let mut map = SourceMap::default();
    assert_eq!(map.get_or_insert("schema.graphql".to_owned()), SourceId(1));
}
