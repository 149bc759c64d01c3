use vstd::prelude::*;

use super::types::{byte_len, overflows, Error, Format, Formatter, Write};

verus! {

/// A sink that keeps no text, only counts how wide it would be, and refuses
/// a write once the count passes its width. A write that breaks a line
/// counts as the whole width.
pub struct Measurer(usize, usize);

/// Whether `s` holds a line break.
pub open spec fn breaks_line(s: Seq<char>) -> bool {
    s.contains('\r') || s.contains('\n')
}

impl Write for Measurer {
    /// The width counted so far, and the width allowed.
    type Model = (usize, usize);

    closed spec fn model(&self) -> (usize, usize) {
        (self.0, self.1)
    }

    open spec fn after(m: (usize, usize), s: Seq<char>) -> (usize, usize) {
        if breaks_line(s) {
            (m.0.wrapping_add(m.1), m.1)
        } else {
            (m.0.wrapping_add(byte_len(s)), m.1)
        }
    }

    open spec fn refuses(m: (usize, usize), s: Seq<char>) -> bool {
        Self::after(m, s).0 > m.1
    }

    fn write_str(&mut self, s: &str) -> (r: Result<(), Error>) {
        if has_line_break(s) {
            self.0 = self.0.wrapping_add(self.1);
        } else {
            self.0 = self.0.wrapping_add(s.len());
        }
        if self.0 > self.1 {
            Err(Error)
        } else {
            Ok(())
        }
    }
}

impl Measurer {
    /// A measurer that allows `width`, with nothing counted yet.
    pub fn new(width: usize) -> (m: Measurer)
        ensures
            m.model() == (0usize, width),
    {
        Measurer(0, width)
    }

    /// Lays `node` out on one line, in lines `width` wide, and fails when
    /// it does not fit.
    pub fn measure<T: Format>(node: &T, width: usize) -> (r: Result<(), Error>)
        ensures
            r is Err <==> overflows(node, width),
    {
        let mut formatter = Formatter::new(Measurer(0, width), width);
        proof {
            assert(formatter.model() == (0usize, width));
        }
        node.format_collapsed(&mut formatter)
    }
}

/// Whether `s` holds a line break.
fn has_line_break(s: &str) -> (b: bool)
    ensures
        b == breaks_line(s@),
{
    let chars = crate::lex::chars::chars_of(s);
    let mut i: usize = 0;
    while i < chars.len()
        invariant
            i <= chars@.len(),
            chars@ == s@,
            forall|j: int| 0 <= j < i ==> chars@[j] != '\r' && chars@[j] != '\n',
        decreases chars.len() - i,
    {
        if chars[i] == '\r' || chars[i] == '\n' {
            assert(s@[i as int] == chars@[i as int]);
            return true;
        }
        i = i + 1;
    }
    proof {
        assert(!s@.contains('\r'));
        assert(!s@.contains('\n'));
    }
    false
}

} // verus!
