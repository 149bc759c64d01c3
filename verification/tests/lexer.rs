use litho::ast::types::Spanned;
use litho::lex::kind::TokenKind;
use litho::lex::lexer::lexer;
use litho::lex::SourceId;

fn kinds(source: &str) -> Vec<TokenKind> {
    let mut tokens = lexer(SourceId::default(), source);
    let mut kinds = Vec::new();
    while let Some(token) = tokens.next() {
        kinds.push(token.as_raw_token().kind);
    }
    kinds
}

fn test_equals(source: &str, rhs: &[TokenKind]) {
    assert_eq!(kinds(source), rhs);
}

#[test]
fn test_unicode_byte_order_mark() {
    test_equals(" \u{feff} ", &[]);
}

#[test]
fn test_whitespace() {
    test_equals(" \u{0009} ", &[]);
    test_equals(" \u{0020} ", &[]);
    test_equals(" other name ", &[TokenKind::Name, TokenKind::Name]);
}

#[test]
fn test_line_terminators() {
    test_equals(" \u{000a} ", &[]);
    test_equals(" \u{000d}\u{000a} ", &[]);
    test_equals(" \u{000d} ", &[]);
}

#[test]
fn test_comments() {
    test_equals(" # Hello World! ", &[]);
    test_equals(" # Hello World!\rhello ", &[TokenKind::Name]);
    test_equals(" # Hello World!\r\nhello ", &[TokenKind::Name]);
    test_equals(" # Hello World!\nhello ", &[TokenKind::Name]);
}

#[test]
fn test_insignificant_commas() {
    test_equals("foo, bar", &[TokenKind::Name, TokenKind::Name]);
}

#[test]
fn test_name() {
    test_equals(" name ", &[TokenKind::Name]);
    test_equals(" Name ", &[TokenKind::Name]);
    test_equals(" NAME ", &[TokenKind::Name]);
    test_equals(" other_name ", &[TokenKind::Name]);
    test_equals(" othername ", &[TokenKind::Name]);
}

#[test]
fn test_int_value() {
    test_equals(" 01 ", &[TokenKind::Error]);
    test_equals(" 1 ", &[TokenKind::IntValue]);
    test_equals(" 1L ", &[TokenKind::Error]);
}

#[test]
fn test_float_value() {
    test_equals(" 1.0 ", &[TokenKind::FloatValue]);
    test_equals(" 1e50 ", &[TokenKind::FloatValue]);
    test_equals(" 6.0221413e23 ", &[TokenKind::FloatValue]);
    test_equals(" 0.0 ", &[TokenKind::FloatValue]);
}

#[test]
fn test_string_value() {
    test_equals(
        " \"foo\" \"bar\" ",
        &[TokenKind::StringValue, TokenKind::StringValue],
    );
    test_equals(" \"foo \\\" \\\"bar\" ", &[TokenKind::StringValue]);
    test_equals(
        " \"foo \\\\\" \"bar\" ",
        &[TokenKind::StringValue, TokenKind::StringValue],
    );
    test_equals(" \"\"\"block\"\"\" ", &[TokenKind::StringValue]);
}

#[test]
fn test_spanned_stands_between_tokens() {
    let mut l = lexer(SourceId(0), "ab  cd");
    assert_eq!(Spanned::span(&mut l).start, 0);
    assert_eq!(Spanned::span(&mut l).end, 0);
    l.next().unwrap();
    let place = Spanned::span(&mut l);
    assert_eq!((place.start, place.end), (2, 4));
    l.next().unwrap();
    let place = Spanned::span(&mut l);
    assert_eq!((place.start, place.end), (6, 6));
}
