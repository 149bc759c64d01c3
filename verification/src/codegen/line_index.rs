use vstd::prelude::*;

use crate::lex::chars::chars_of;
use crate::lex::lexer::{byte_offset, byte_offsets, lemma_byte_offset};

verus! {

/// Whether a line starts at character `i` of `s`: `s` has a character
/// there, and it is the first or follows a line feed.
pub open spec fn starts_line(s: Seq<char>, i: int) -> bool {
    0 <= i < s.len() && (i == 0 || s[i - 1] == '\n')
}

/// The byte offsets of the lines of `s` that start before character `n`,
/// in order.
pub open spec fn line_starts_upto(s: Seq<char>, n: int) -> Seq<int>
    decreases n,
{
    if n <= 0 {
        Seq::empty()
    } else if starts_line(s, n - 1) {
        line_starts_upto(s, n - 1).push(byte_offset(s, n - 1))
    } else {
        line_starts_upto(s, n - 1)
    }
}

/// The byte offset of each line of `s`, as splitting after each line feed
/// gives them (no empty line after a final line feed).
pub open spec fn line_starts(s: Seq<char>) -> Seq<int> {
    line_starts_upto(s, s.len() as int)
}

/// How many of the sorted `starts` are at most `index`.
pub open spec fn count_upto(starts: Seq<usize>, index: usize) -> int
    decreases starts.len(),
{
    if starts.len() == 0 {
        0
    } else if starts.last() <= index {
        starts.len() as int
    } else {
        count_upto(starts.drop_last(), index)
    }
}

/// The line of a byte offset, and its column in bytes, given the offsets
/// where lines start and the total length: the last line that starts at or
/// before the offset; with no lines at all, line 0 and the offset past the
/// end.
pub open spec fn locate(starts: Seq<usize>, len: usize, index: usize) -> (usize, usize) {
    let k = count_upto(starts, index);
    if k == 0 {
        (starts.len() as usize, (index - len) as usize)
    } else {
        ((k - 1) as usize, (index - starts[k - 1]) as usize)
    }
}

/// Finds the line and column of byte offsets in a text.
pub struct LineIndex {
    starts: Vec<usize>,
    len: usize,
}

impl LineIndex {
    /// The byte offsets where lines start.
    pub closed spec fn starts(&self) -> Seq<usize> {
        self.starts@
    }

    /// The length of the text in bytes.
    pub closed spec fn len(&self) -> usize {
        self.len
    }

    /// The index of `source`: its line starts and its length.
    pub open spec fn indexes(&self, source: Seq<char>) -> bool {
        &&& self.starts().len() == line_starts(source).len()
        &&& forall|i: int| 0 <= i < self.starts().len() ==> self.starts()[i] == line_starts(source)[i]
        &&& self.len() == byte_offset(source, source.len() as int)
    }

    /// Line starts increase, the first line starts at 0, and a text with no
    /// lines is empty.
    #[verifier::type_invariant]
    pub closed spec fn wf(&self) -> bool {
        &&& forall|i: int, j: int| 0 <= i < j < self.starts@.len() ==> self.starts@[i] < self.starts@[j]
        &&& self.starts@.len() > 0 ==> self.starts@[0] == 0
        &&& self.starts@.len() == 0 ==> self.len == 0
    }

    /// Indexes the lines of `source`.
    pub fn new(source: &str) -> (index: LineIndex)
        requires
            source@.len() * 4 <= usize::MAX,
        ensures
            index.indexes(source@),
    {
        let chars = chars_of(source);
        let offsets = byte_offsets(chars.as_slice());
        let mut starts: Vec<usize> = Vec::new();
        let mut i: usize = 0;
        while i < chars.len()
            invariant
                chars@ == source@,
                chars@.len() * 4 <= usize::MAX,
                offsets@.len() == chars@.len() + 1,
                forall|k: int| 0 <= k <= chars@.len() ==> offsets@[k] == byte_offset(chars@, k),
                i <= chars@.len(),
                starts@.len() == line_starts_upto(chars@, i as int).len(),
                forall|k: int| 0 <= k < starts@.len() ==> starts@[k] == line_starts_upto(chars@, i as int)[k],
                forall|k: int, l: int| 0 <= k < l < starts@.len() ==> starts@[k] < starts@[l],
                forall|k: int| 0 <= k < starts@.len() ==> starts@[k] < byte_offset(chars@, i as int) || (i == 0),
                starts@.len() > 0 ==> starts@[0] == 0,
                i > 0 ==> starts@.len() > 0,
            decreases chars.len() - i,
        {
            proof {
                lemma_byte_offset(chars@, i as int, i + 1);
            }
            if i == 0 || chars[i - 1] == '\n' {
                starts.push(offsets[i]);
            }
            proof {
                lemma_byte_offset(chars@, i as int, i + 1);
                assert(byte_offset(chars@, i + 1) == byte_offset(chars@, i as int) + crate::lex::lexer::char_width(chars@[i as int]));
            }
            i = i + 1;
        }
        let len = offsets[chars.len()];
        LineIndex { starts, len }
    }

    /// The line and column (both from 0, the column in bytes) of the byte
    /// offset `index`.
    pub fn lookup(&self, index: usize) -> (r: (usize, usize))
        ensures
            r == locate(self.starts(), self.len(), index),
    {
        proof {
            use_type_invariant(self);
        }
        let mut lo: usize = 0;
        let mut hi: usize = self.starts.len();
        while lo < hi
            invariant
                self.wf(),
                lo <= hi <= self.starts@.len(),
                forall|k: int| 0 <= k < lo ==> self.starts@[k] <= index,
                forall|k: int| hi <= k < self.starts@.len() ==> self.starts@[k] > index,
            decreases hi - lo,
        {
            let mid = lo + (hi - lo) / 2;
            if self.starts[mid] <= index {
                lo = mid + 1;
            } else {
                hi = mid;
            }
        }
        proof {
            lemma_count_upto(self.starts@, index, lo as int);
        }
        if lo == 0 {
            (self.starts.len(), index - self.len)
        } else {
            (lo - 1, index - self.starts[lo - 1])
        }
    }
}

impl LineIndex {
    /// Every byte offset from the start of a line up to the start of the
    /// next one is found on that line, at its distance from the line's
    /// start; in particular a line's first byte is at column 0.
    pub proof fn law_lookup_within_line(&self, line: int, index: usize)
        requires
            self.wf(),
            0 <= line < self.starts().len(),
            self.starts()[line] <= index,
            line + 1 < self.starts().len() ==> index < self.starts()[line + 1],
        ensures
            locate(self.starts(), self.len(), index) == (line as usize, (index - self.starts()[line]) as usize),
    {
        lemma_count_upto(self.starts(), index, line + 1);
    }
}

/// In sorted `starts`, the count of those at most `index` is the split
/// point between them and the rest.
proof fn lemma_count_upto(starts: Seq<usize>, index: usize, split: int)
    requires
        0 <= split <= starts.len(),
        forall|k: int| 0 <= k < split ==> starts[k] <= index,
        forall|k: int| split <= k < starts.len() ==> starts[k] > index,
    ensures
        count_upto(starts, index) == split,
    decreases starts.len(),
{
    if starts.len() > 0 && split < starts.len() {
        lemma_count_upto(starts.drop_last(), index, split);
    }
}

} // verus!
