use litho::codegen::position::advance;
use litho::codegen::LineIndex;

#[test]
fn test_line_index_lookup() {
    let index = LineIndex::new("ab\ncde\n\nf");
    assert_eq!(index.lookup(0), (0, 0));
    assert_eq!(index.lookup(1), (0, 1));
    assert_eq!(index.lookup(2), (0, 2));
    assert_eq!(index.lookup(3), (1, 0));
    assert_eq!(index.lookup(5), (1, 2));
    assert_eq!(index.lookup(7), (2, 0));
    assert_eq!(index.lookup(8), (3, 0));
    assert_eq!(index.lookup(12), (3, 4));
}

#[test]
fn test_line_index_counts_bytes() {
    let index = LineIndex::new("é\nx");
    assert_eq!(index.lookup(2), (0, 2));
    assert_eq!(index.lookup(3), (1, 0));
}

#[test]
fn test_line_index_empty_source() {
    let index = LineIndex::new("");
    assert_eq!(index.lookup(0), (0, 0));
    assert_eq!(index.lookup(4), (0, 4));
}

#[test]
fn test_line_index_trailing_line_feed() {
    let index = LineIndex::new("a\n");
    assert_eq!(index.lookup(0), (0, 0));
    assert_eq!(index.lookup(2), (0, 2));
}

#[test]
fn test_advance_in_parts_matches_at_once() {
    assert_eq!(advance(0, 0, "ab\ncd"), (1, 2));
    assert_eq!(advance(2, 5, "xy"), (2, 7));
    assert_eq!(advance(0, 3, "é\n"), (1, 0));
    let (line, column) = advance(0, 0, "ab\nc");
    assert_eq!(advance(line, column, "d\nef"), advance(0, 0, "ab\ncd\nef"));
    let (line, column) = advance(4, 1, "no feed");
    assert_eq!(advance(line, column, "é"), advance(4, 1, "no feedé"));
}
