use vstd::prelude::*;

use crate::lex::chars::chars_of;
use crate::lex::lexer::{byte_offset, byte_offsets};

verus! {

/// How many line feeds `s` holds.
pub open spec fn line_feeds(s: Seq<char>) -> nat
    decreases s.len(),
{
    if s.len() == 0 {
        0
    } else {
        line_feeds(s.drop_last()) + if s.last() == '\n' { 1nat } else { 0nat }
    }
}

/// The index just after the last line feed of the first `n` characters of
/// `s` (0 if there is none).
pub open spec fn line_start(s: Seq<char>, n: int) -> int
    decreases n,
{
    if n <= 0 {
        0
    } else if s[n - 1] == '\n' {
        n
    } else {
        line_start(s, n - 1)
    }
}

/// Where the cursor of generated text stands after `text` is appended at
/// line `line`, column `column` (columns in bytes): on the same line, moved
/// by the bytes of `text`, when `text` holds no line feed; otherwise as many
/// lines down as it holds line feeds, at the bytes after the last one.
pub open spec fn advanced(line: int, column: int, text: Seq<char>) -> (int, int) {
    let feeds = line_feeds(text);
    let last = line_start(text, text.len() as int);
    if feeds == 0 {
        (line, column + byte_offset(text, text.len() as int))
    } else {
        (line + feeds, byte_offset(text, text.len() as int) - byte_offset(text, last))
    }
}

/// Moves a cursor at `line`, `column` past `text`: see [`advanced`].
pub fn advance(line: usize, column: usize, text: &str) -> (r: (usize, usize))
    requires
        text@.len() * 4 <= usize::MAX,
        line + text@.len() <= usize::MAX,
        column + 4 * text@.len() <= usize::MAX,
    ensures
        r.0 == advanced(line as int, column as int, text@).0,
        r.1 == advanced(line as int, column as int, text@).1,
{
    let chars = chars_of(text);
    let offsets = byte_offsets(chars.as_slice());
    let mut feeds: usize = 0;
    let mut last: usize = 0;
    let mut i: usize = 0;
    while i < chars.len()
        invariant
            chars@ == text@,
            i <= chars@.len(),
            offsets@.len() == chars@.len() + 1,
            forall|k: int| 0 <= k <= chars@.len() ==> offsets@[k] == byte_offset(chars@, k),
            feeds == line_feeds(chars@.take(i as int)),
            feeds <= i,
            last == line_start(chars@, i as int),
            last <= i,
        decreases chars.len() - i,
    {
        proof {
            assert(chars@.take(i + 1).drop_last() =~= chars@.take(i as int));
        }
        if chars[i] == '\n' {
            feeds = feeds + 1;
            last = i + 1;
        }
        i = i + 1;
    }
    assert(chars@.take(i as int) =~= chars@);
    proof {
        crate::lex::lexer::lemma_byte_offset(chars@, last as int, chars@.len() as int);
    }
    if feeds == 0 {
        (line, column + offsets[chars.len()])
    } else {
        (line + feeds, offsets[chars.len()] - offsets[last])
    }
}

/// Appending `a` and then `b` moves the cursor as appending `a + b` at
/// once: the cursor always stands at the end of all the text appended.
pub proof fn law_advance_in_parts(line: int, column: int, a: Seq<char>, b: Seq<char>)
    ensures
        advanced(advanced(line, column, a).0, advanced(line, column, a).1, b) == advanced(
            line,
            column,
            a + b,
        ),
{
    let n = a.len() as int;
    let m = b.len() as int;
    lemma_feeds_concat(a, b);
    lemma_offset_concat(a, b, m);
    lemma_start_concat(a, b, m);
    lemma_feeds_start(b);
    lemma_feeds_start(a);
    lemma_feeds_start(a + b);
    lemma_start_bounds(a, n);
    lemma_start_bounds(b, m);
    lemma_offset_prefix(a, b, line_start(a, n));
    lemma_offset_concat(a, b, line_start(b, m));
}

proof fn lemma_feeds_concat(a: Seq<char>, b: Seq<char>)
    ensures
        line_feeds(a + b) == line_feeds(a) + line_feeds(b),
    decreases b.len(),
{
    if b.len() == 0 {
        assert(a + b =~= a);
    } else {
        lemma_feeds_concat(a, b.drop_last());
        assert((a + b).drop_last() =~= a + b.drop_last());
    }
}

proof fn lemma_offset_prefix(a: Seq<char>, b: Seq<char>, k: int)
    requires
        0 <= k <= a.len(),
    ensures
        byte_offset(a + b, k) == byte_offset(a, k),
    decreases k,
{
    if k > 0 {
        lemma_offset_prefix(a, b, k - 1);
    }
}

proof fn lemma_offset_concat(a: Seq<char>, b: Seq<char>, k: int)
    requires
        0 <= k <= b.len(),
    ensures
        byte_offset(a + b, a.len() + k) == byte_offset(a, a.len() as int) + byte_offset(b, k),
    decreases k,
{
    if k == 0 {
        lemma_offset_prefix(a, b, a.len() as int);
    } else {
        lemma_offset_concat(a, b, k - 1);
        assert((a + b)[a.len() + k - 1] == b[k - 1]);
    }
}

proof fn lemma_start_bounds(s: Seq<char>, n: int)
    ensures
        n > 0 ==> 0 <= line_start(s, n) <= n,
        n <= 0 ==> line_start(s, n) == 0,
    decreases n,
{
    if n > 0 {
        lemma_start_bounds(s, n - 1);
    }
}

proof fn lemma_start_concat(a: Seq<char>, b: Seq<char>, k: int)
    requires
        0 <= k <= b.len(),
    ensures
        line_start(a + b, a.len() + k) == if line_start(b, k) > 0 {
            a.len() + line_start(b, k)
        } else {
            line_start(a, a.len() as int)
        },
    decreases k,
{
    if k == 0 {
        lemma_start_prefix(a, b, a.len() as int);
    } else {
        lemma_start_concat(a, b, k - 1);
        assert((a + b)[a.len() + k - 1] == b[k - 1]);
        lemma_start_bounds(b, k - 1);
    }
}

proof fn lemma_start_prefix(a: Seq<char>, b: Seq<char>, k: int)
    requires
        0 <= k <= a.len(),
    ensures
        line_start(a + b, k) == line_start(a, k),
    decreases k,
{
    if k > 0 {
        lemma_start_prefix(a, b, k - 1);
        assert((a + b)[k - 1] == a[k - 1]);
    }
}

proof fn lemma_feeds_start(s: Seq<char>)
    ensures
        (line_feeds(s) == 0) == (line_start(s, s.len() as int) == 0),
    decreases s.len(),
{
    if s.len() > 0 {
        lemma_feeds_start(s.drop_last());
        lemma_start_prefix(s.drop_last(), seq![s.last()], s.len() - 1);
        assert(s.drop_last() + seq![s.last()] =~= s);
        lemma_start_bounds(s.drop_last(), s.len() - 1);
    }
}

} // verus!
