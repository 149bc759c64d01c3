use std::ops::Range;
use vstd::prelude::*;
use vstd::utf8::encode_utf8;

use super::measurer::Measurer;

verus! {

/// Writing to a sink failed: the sink refused the text.
#[derive(Debug, Clone, Copy, PartialEq, Eq, Structural)]
pub struct Error;

/// A sink for formatted text.
///
/// A sink is described by a model of its state: each write moves the model
/// on, and some writes are refused (the call then returns an error, though
/// the model has still moved on).
pub trait Write: Sized {
    type Model;

    spec fn model(&self) -> Self::Model;

    /// Whether writing `s` in state `m` fails.
    spec fn refuses(m: Self::Model, s: Seq<char>) -> bool;

    /// The state after writing `s` in state `m`.
    spec fn after(m: Self::Model, s: Seq<char>) -> Self::Model;

    fn write_str(&mut self, s: &str) -> (r: Result<(), Error>)
        ensures
            final(self).model() == Self::after(old(self).model(), s@),
            r is Err <==> Self::refuses(old(self).model(), s@),
    ;
}

/// A `String` collects everything written to it and never refuses.
impl Write for String {
    type Model = Seq<char>;

    open spec fn model(&self) -> Seq<char> {
        self@
    }

    open spec fn refuses(m: Seq<char>, s: Seq<char>) -> bool {
        false
    }

    open spec fn after(m: Seq<char>, s: Seq<char>) -> Seq<char> {
        m + s
    }

    fn write_str(&mut self, s: &str) -> (r: Result<(), Error>) {
        self.append(s);
        Ok(())
    }
}

/// The number of bytes of the UTF-8 encoding of `s`, as `str::len` gives it.
pub open spec fn byte_len(s: Seq<char>) -> usize {
    encode_utf8(s).len() as usize
}

/// The writes a formatting step makes, in order: the text of each, with the
/// shape the formatter has when it makes it.
pub type Writes = Seq<(Seq<char>, Shape)>;

/// Where a formatter stands on the page.
pub struct Shape {
    indent: usize,
    range: Range<usize>,
    line: usize,
    whitespace: bool,
    blank_lines: usize,
}

impl Shape {
    /// Columns of indentation for a new line.
    pub closed spec fn indentation(self) -> usize {
        self.indent
    }

    /// Bytes written on the current line so far.
    pub closed spec fn column(self) -> usize {
        self.range.start
    }

    /// The line width.
    pub closed spec fn margin(self) -> usize {
        self.range.end
    }

    /// Line breaks written so far.
    pub closed spec fn line_number(self) -> usize {
        self.line
    }

    /// Whether the next token follows whitespace (and so needs no space).
    pub closed spec fn after_whitespace(self) -> bool {
        self.whitespace
    }

    /// Line breaks written since the last token.
    pub closed spec fn blank_lines(self) -> usize {
        self.blank_lines
    }

    /// Room left on the current line.
    pub closed spec fn room(self) -> usize {
        if self.range.start < self.range.end {
            (self.range.end - self.range.start) as usize
        } else {
            0
        }
    }

    /// The shape of a fresh formatter.
    pub closed spec fn initial(line_width: usize) -> Shape {
        Shape {
            indent: 0,
            range: Range { start: 0, end: line_width },
            line: 0,
            whitespace: true,
            blank_lines: 2,
        }
    }

    pub closed spec fn with_whitespace(self, whitespace: bool) -> Shape {
        Shape { whitespace, ..self }
    }

    pub closed spec fn with_blank_lines(self, blank_lines: usize) -> Shape {
        Shape { blank_lines, ..self }
    }

    pub closed spec fn with_indentation(self, indent: usize) -> Shape {
        Shape { indent, ..self }
    }
}

/// Runs `writes` on a sink in state `m`, stopping at the first refused
/// write: the sink's state afterwards, the formatter's shape afterwards
/// (`end` when every write went through, else the shape at the refused
/// write), and whether every write went through.
pub open spec fn run<W: Write>(m: W::Model, writes: Writes, end: Shape) -> (W::Model, Shape, bool)
    decreases writes.len(),
{
    if writes.len() == 0 {
        (m, end, true)
    } else if W::refuses(m, writes[0].0) {
        (W::after(m, writes[0].0), writes[0].1, false)
    } else {
        run::<W>(W::after(m, writes[0].0), writes.drop_first(), end)
    }
}

/// `run` of a formatting step given as its writes and its final shape.
pub open spec fn steps<W: Write>(m: W::Model, step: (Writes, Shape)) -> (W::Model, Shape, bool) {
    run::<W>(m, step.0, step.1)
}

/// Running two lists of writes one after the other.
pub proof fn lemma_run_append<W: Write>(
    m: W::Model,
    first: Writes,
    mid: Shape,
    second: Writes,
    end: Shape,
)
    ensures
        run::<W>(m, first + second, end) == if run::<W>(m, first, mid).2 {
            run::<W>(run::<W>(m, first, mid).0, second, end)
        } else {
            run::<W>(m, first, mid)
        },
    decreases first.len(),
{
    if first.len() == 0 {
        assert(first + second =~= second);
    } else {
        assert((first + second)[0] == first[0]);
        assert((first + second).drop_first() =~= first.drop_first() + second);
        lemma_run_append::<W>(W::after(m, first[0].0), first.drop_first(), mid, second, end);
    }
}

/// Sequencing two formatting steps, the second starting where the first
/// ends.
pub open spec fn then(first: (Writes, Shape), second: (Writes, Shape)) -> (Writes, Shape) {
    (first.0 + second.0, second.1)
}

pub proof fn lemma_then<W: Write>(m: W::Model, first: (Writes, Shape), second: (Writes, Shape))
    ensures
        steps::<W>(m, then(first, second)) == if steps::<W>(m, first).2 {
            steps::<W>(steps::<W>(m, first).0, second)
        } else {
            steps::<W>(m, first)
        },
{
    lemma_run_append::<W>(m, first.0, first.1, second.0, second.1);
}

/// The step that does nothing.
pub open spec fn nothing(sh: Shape) -> (Writes, Shape) {
    (Seq::empty(), sh)
}

/// `n` spaces.
pub open spec fn spaces(n: usize) -> Seq<char> {
    Seq::new(n as nat, |i: int| ' ')
}

/// What `push` writes: a separating space, or the indentation at the start
/// of a line, then the token.
pub closed spec fn push_step(sh: Shape, token: Seq<char>) -> (Writes, Shape) {
    let prefix: Writes = if !sh.whitespace {
        seq![(seq![' '], sh)]
    } else if sh.range.start == 0 {
        seq![(spaces(sh.indent), sh)]
    } else {
        Seq::empty()
    };
    (
        prefix.push((token, sh)),
        Shape {
            whitespace: false,
            blank_lines: 0,
            range: Range { start: sh.range.start.wrapping_add(byte_len(token)), end: sh.range.end },
            ..sh
        },
    )
}

/// What `lines(n)` writes: enough line breaks to have `n` of them since the
/// last token.
pub closed spec fn lines_step(sh: Shape, n: usize) -> (Writes, Shape) {
    if sh.blank_lines >= n {
        nothing(sh)
    } else {
        let k = (n - sh.blank_lines) as usize;
        (
            Seq::new(k as nat, |i: int| (seq!['\n'], sh)),
            Shape {
                range: Range { start: 0, end: sh.range.end },
                line: sh.line.wrapping_add(k),
                blank_lines: n,
                whitespace: true,
                ..sh
            },
        )
    }
}

/// What `squeeze(|f| f.push(token))` writes: the token with no space
/// before it.
pub open spec fn squeezed_push_step(sh: Shape, token: Seq<char>) -> (Writes, Shape) {
    let step = push_step(sh.with_whitespace(true), token);
    (at_shape(step.0, sh), step.1.with_whitespace(sh.after_whitespace()))
}

/// How `format` lays out `node` from shape `sh`: broken up over several
/// lines if it must, or if it can and does not fit in the room left.
pub open spec fn formatted<T: Format>(node: &T, sh: Shape) -> (Writes, Shape) {
    if node.spec_expands() || (node.spec_can_expand() && overflows(node, sh.room())) {
        node.expanded(sh)
    } else {
        node.collapsed(sh)
    }
}

/// Whether `node`, laid out on one line, is wider than `width`.
pub open spec fn overflows<T: Format>(node: &T, width: usize) -> bool {
    !steps::<Measurer>((0usize, width), node.collapsed(Shape::initial(width))).2
}

/// Something that can be laid out by a formatter.
///
/// Each way of laying it out is described by the writes it makes from a
/// given shape; the formatting methods make exactly those writes.
pub trait Format: Sized {
    /// The writes of the layout on one line.
    spec fn collapsed(&self, sh: Shape) -> (Writes, Shape);

    /// The writes of the layout broken over lines.
    spec fn expanded(&self, sh: Shape) -> (Writes, Shape);

    spec fn spec_expands(&self) -> bool;

    spec fn spec_can_expand(&self) -> bool;

    fn format_collapsed<W: Write>(&self, formatter: &mut Formatter<W>) -> (r: Result<(), Error>)
        ensures
            final(formatter).outcome(r) == steps::<W>(old(formatter).model(), self.collapsed(old(formatter).shape())),
    ;

    fn format_expanded<W: Write>(&self, formatter: &mut Formatter<W>) -> (r: Result<(), Error>)
        ensures
            final(formatter).outcome(r) == steps::<W>(old(formatter).model(), self.expanded(old(formatter).shape())),
    ;

    /// Whether the node must be broken over lines.
    fn expands(&self) -> (b: bool)
        ensures
            b == self.spec_expands(),
    ;

    /// Whether the node may be broken over lines.
    fn can_expand(&self) -> (b: bool)
        ensures
            b == self.spec_can_expand(),
    ;

    /// Lays the node out, broken over lines where it must be, or where it
    /// can be and does not fit.
    fn format<W: Write>(&self, formatter: &mut Formatter<W>) -> (r: Result<(), Error>)
        ensures
            final(formatter).outcome(r) == steps::<W>(
                old(formatter).model(),
                if self.spec_expands() || (self.spec_can_expand() && !steps::<Measurer>(
                    (0usize, old(formatter).shape().room()),
                    self.collapsed(Shape::initial(old(formatter).shape().room())),
                ).2) {
                    self.expanded(old(formatter).shape())
                } else {
                    self.collapsed(old(formatter).shape())
                },
            ),
    {
        let room = formatter.room();
        let mut measure = Formatter::new(Measurer::new(room), room);
        let expanded = self.expands() || (self.can_expand() && self.format_collapsed(&mut measure).is_err());
        if expanded {
            self.format_expanded(formatter)
        } else {
            self.format_collapsed(formatter)
        }
    }

    /// The node laid out in lines `line_width` wide.
    fn format_to_string(&self, line_width: usize) -> (text: String)
        ensures
            ({
                let sh = Shape::initial(line_width);
                text@ == steps::<String>(
                    Seq::empty(),
                    if self.spec_expands() || (self.spec_can_expand() && !steps::<Measurer>(
                        (0usize, sh.room()),
                        self.collapsed(Shape::initial(sh.room())),
                    ).2) {
                        self.expanded(sh)
                    } else {
                        self.collapsed(sh)
                    },
                ).0
            }),
    {
        let mut formatter = Formatter::new(String::new(), line_width);
        let _ = self.format(&mut formatter);
        formatter.writer
    }
}


/// What `squeeze(|f| f.push(token))` leaves behind when a write fails: the
/// shape as it was before, since `squeeze` restores the spacing either way.
pub open spec fn at_shape(writes: Writes, sh: Shape) -> Writes {
    writes.map_values(|w: (Seq<char>, Shape)| (w.0, sh))
}

/// Running writes whose recorded shapes were all replaced by `sh`.
pub proof fn lemma_run_at_shape<W: Write>(m: W::Model, writes: Writes, end: Shape, sh: Shape, end2: Shape)
    ensures
        run::<W>(m, at_shape(writes, sh), end2) == (
            run::<W>(m, writes, end).0,
            if run::<W>(m, writes, end).2 { end2 } else { sh },
            run::<W>(m, writes, end).2,
        ),
    decreases writes.len(),
{
    if writes.len() > 0 {
        assert(at_shape(writes, sh).drop_first() =~= at_shape(writes.drop_first(), sh));
        lemma_run_at_shape::<W>(W::after(m, writes[0].0), writes.drop_first(), end, sh, end2);
    }
}

/// The writes of several steps, one per item, each starting where the one
/// before ended; `step` is given each item's index, the item, and the shape
/// it starts from.
pub open spec fn fold<T>(items: Seq<T>, sh: Shape, step: spec_fn(int, T, Shape) -> (Writes, Shape)) -> (
    Writes,
    Shape,
)
    decreases items.len(),
{
    if items.len() == 0 {
        nothing(sh)
    } else {
        let before = fold(items.drop_last(), sh, step);
        then(before, step(items.len() - 1, items.last(), before.1))
    }
}

/// Once a prefix of the items fails, formatting more items changes nothing.
pub proof fn lemma_fold_fails<W: Write, T>(
    m: W::Model,
    items: Seq<T>,
    sh: Shape,
    step: spec_fn(int, T, Shape) -> (Writes, Shape),
    j: int,
)
    requires
        0 <= j <= items.len(),
        !steps::<W>(m, fold(items.take(j), sh, step)).2,
    ensures
        steps::<W>(m, fold(items, sh, step)) == steps::<W>(m, fold(items.take(j), sh, step)),
    decreases items.len(),
{
    if j == items.len() {
        assert(items.take(j) =~= items);
    } else {
        let shorter = items.drop_last();
        assert(shorter.take(j) =~= items.take(j));
        lemma_fold_fails::<W, T>(m, shorter, sh, step, j);
        let before = fold(shorter, sh, step);
        lemma_then::<W>(m, before, step(items.len() - 1, items.last(), before.1));
    }
}

/// Formatting one more item after a prefix that went through.
pub proof fn lemma_fold_next<W: Write, T>(
    m: W::Model,
    items: Seq<T>,
    sh: Shape,
    step: spec_fn(int, T, Shape) -> (Writes, Shape),
    i: int,
)
    requires
        0 <= i < items.len(),
        steps::<W>(m, fold(items.take(i), sh, step)).2,
    ensures
        ({
            let done = steps::<W>(m, fold(items.take(i), sh, step));
            &&& done.1 == fold(items.take(i), sh, step).1
            &&& steps::<W>(m, fold(items.take(i + 1), sh, step)) == steps::<W>(
                done.0,
                step(i, items[i], done.1),
            )
        }),
{
    let prefix = items.take(i + 1);
    assert(prefix.drop_last() =~= items.take(i));
    let before = fold(items.take(i), sh, step);
    lemma_run_end::<W>(m, before.0, before.1, before.1);
    lemma_then::<W>(m, before, step(i, items[i], before.1));
}

/// Each item laid out where the one before ended.
pub open spec fn each_item<T: Format>() -> spec_fn(int, T, Shape) -> (Writes, Shape) {
    |i: int, item: T, sh: Shape| formatted(&item, sh)
}

/// Each item after a blank line.
pub open spec fn page_item<T: Format>() -> spec_fn(int, T, Shape) -> (Writes, Shape) {
    |i: int, item: T, sh: Shape|
        {
            let blank = lines_step(sh, 2);
            then(blank, formatted(&item, blank.1))
        }
}

/// Each item on a line of its own.
pub open spec fn line_item<T: Format>() -> spec_fn(int, T, Shape) -> (Writes, Shape) {
    |i: int, item: T, sh: Shape|
        {
            let start = lines_step(sh, 1);
            then(start, formatted(&item, start.1))
        }
}

/// Each item on a line of its own, followed by a comma.
pub open spec fn line_comma_item<T: Format>() -> spec_fn(int, T, Shape) -> (Writes, Shape) {
    |i: int, item: T, sh: Shape|
        {
            let start = lines_step(sh, 1);
            let body = formatted(&item, start.1);
            then(then(start, body), squeezed_push_step(body.1, seq![',']))
        }
}

/// Items separated by commas; an item that does not fit in the room left
/// starts a new line.
pub open spec fn comma_item<T: Format>() -> spec_fn(int, T, Shape) -> (Writes, Shape) {
    |i: int, item: T, sh: Shape|
        {
            let comma = if i != 0 {
                squeezed_push_step(sh, seq![','])
            } else {
                nothing(sh)
            };
            let wrap = if overflows(&item, comma.1.room()) {
                lines_step(comma.1, 1)
            } else {
                nothing(comma.1)
            };
            then(then(comma, wrap), formatted(&item, wrap.1))
        }
}

/// A formatter: writes tokens to a sink, separated by single spaces,
/// indented at the start of each line.
pub struct Formatter<W> {
    writer: W,
    shape: Shape,
}

impl<W: Write> Formatter<W> {
    pub closed spec fn writer(&self) -> W {
        self.writer
    }

    pub closed spec fn shape(&self) -> Shape {
        self.shape
    }

    /// The state of the sink.
    pub open spec fn model(&self) -> W::Model {
        self.writer().model()
    }

    /// The sink's state, the shape, and whether a call that returned `r`
    /// succeeded.
    pub open spec fn outcome(&self, r: Result<(), Error>) -> (W::Model, Shape, bool) {
        (self.model(), self.shape(), r is Ok)
    }

    /// A formatter that writes to `writer`, lines `line_width` wide.
    pub fn new(writer: W, line_width: usize) -> (formatter: Formatter<W>)
        ensures
            formatter.writer() == writer,
            formatter.shape() == Shape::initial(line_width),
    {
        Formatter {
            writer,
            shape: Shape {
                indent: 0,
                range: Range { start: 0, end: line_width },
                line: 0,
                whitespace: true,
                blank_lines: 2,
            },
        }
    }

    /// The sink, with everything written to it.
    pub fn into_writer(self) -> (writer: W)
        ensures
            writer == self.writer(),
    {
        self.writer
    }

    /// The room left on the current line.
    pub fn room(&self) -> (room: usize)
        ensures
            room == self.shape().room(),
    {
        if self.shape.range.start < self.shape.range.end {
            self.shape.range.end - self.shape.range.start
        } else {
            0
        }
    }

    /// Writes line breaks until `num_lines` of them follow the last token.
    pub fn lines(&mut self, num_lines: usize) -> (r: Result<(), Error>)
        ensures
            final(self).outcome(r) == steps::<W>(old(self).model(), lines_step(old(self).shape(), num_lines)),
    {
        if self.shape.blank_lines >= num_lines {
            return Ok(());
        }
        let count = num_lines - self.shape.blank_lines;
        let ghost sh = self.shape;
        let ghost m0 = self.model();
        let ghost all: Writes = Seq::new(count as nat, |i: int| (seq!['\n'], sh));
        assert(lines_step(sh, num_lines).0 =~= all);
        let mut i: usize = 0;
        while i < count
            invariant
                i <= count,
                self.shape == sh,
                sh == old(self).shape,
                m0 == old(self).model(),
                lines_step(sh, num_lines).0 == all,
                count == num_lines - sh.blank_lines,
                all == Seq::new(count as nat, |j: int| (seq!['\n'], sh)),
                run::<W>(m0, all.take(i as int), sh) == (self.model(), sh, true),
            decreases count - i,
        {
            proof {
                reveal_strlit("\n");
            }
            let ghost before = self.model();
            let r = self.writer.write_str("\n");
            proof {
                let one: Writes = seq![(seq!['\n'], sh)];
                assert(all.take(i + 1) =~= all.take(i as int) + one);
                lemma_run_append::<W>(m0, all.take(i as int), sh, one, sh);
                lemma_run_one::<W>(before, (seq!['\n'], sh), sh);
                assert("\n"@ =~= seq!['\n']);
            }
            if r.is_err() {
                proof {
                    let rest = all.skip(i + 1);
                    assert(all =~= all.take(i + 1) + rest);
                    lemma_run_append::<W>(m0, all.take(i + 1), sh, rest, lines_step(sh, num_lines).1);
                }
                return r;
            }
            i = i + 1;
        }
        self.shape.range.start = 0;
        self.shape.line = self.shape.line.wrapping_add(count);
        self.shape.blank_lines = num_lines;
        self.shape.whitespace = true;
        assert(all.take(count as int) =~= all);
        proof {
            lemma_run_end::<W>(m0, all, sh, self.shape);
        }
        Ok(())
    }

    /// Ends the current line (unless a line just ended).
    pub fn line(&mut self) -> (r: Result<(), Error>)
        ensures
            final(self).outcome(r) == steps::<W>(old(self).model(), lines_step(old(self).shape(), 1)),
    {
        self.lines(1)
    }

    /// Leaves a blank line (unless one was just left).
    pub fn page(&mut self) -> (r: Result<(), Error>)
        ensures
            final(self).outcome(r) == steps::<W>(old(self).model(), lines_step(old(self).shape(), 2)),
    {
        self.lines(2)
    }

    /// Writes `token`, after a space if the last thing written was a token,
    /// or after the indentation if it starts a line.
    pub fn push(&mut self, token: &str) -> (r: Result<(), Error>)
        ensures
            final(self).outcome(r) == steps::<W>(old(self).model(), push_step(old(self).shape(), token@)),
    {
        let ghost sh = self.shape;
        let ghost m0 = self.model();
        let ghost prefix: Writes = if !sh.whitespace {
            seq![(seq![' '], sh)]
        } else if sh.range.start == 0 {
            seq![(spaces(sh.indent), sh)]
        } else {
            Seq::empty()
        };
        let ghost last: Writes = seq![(token@, sh)];
        proof {
            assert(prefix.push((token@, sh)) =~= prefix + last);
            lemma_run_append::<W>(m0, prefix, sh, last, push_step(sh, token@).1);
        }
        if !self.shape.whitespace {
            proof {
                reveal_strlit(" ");
            }
            let r = self.writer.write_str(" ");
            proof {
                assert(" "@ =~= seq![' ']);
                lemma_run_one::<W>(m0, (seq![' '], sh), sh);
            }
            if r.is_err() {
                return r;
            }
        } else if self.shape.range.start == 0 {
            let pad = indentation(self.shape.indent);
            let r = self.writer.write_str(pad.as_str());
            proof {
                lemma_run_one::<W>(m0, (spaces(sh.indent), sh), sh);
            }
            if r.is_err() {
                return r;
            }
        }
        let ghost mid = self.model();
        assert(run::<W>(m0, prefix, sh) == (mid, sh, true)) by {
            if prefix.len() == 0 {
            }
        }
        let r = self.writer.write_str(token);
        proof {
            lemma_run_one::<W>(mid, (token@, sh), push_step(sh, token@).1);
            if prefix.len() == 0 {
                assert(prefix + last =~= last);
            }
        }
        if r.is_err() {
            return r;
        }
        self.shape.whitespace = false;
        self.shape.blank_lines = 0;
        self.shape.range.start = self.shape.range.start.wrapping_add(token.len());
        Ok(())
    }

    /// Writes `token` with no space before it, leaving the spacing as it
    /// was.
    pub(crate) fn push_squeezed(&mut self, token: &str) -> (r: Result<(), Error>)
        ensures
            final(self).outcome(r) == steps::<W>(old(self).model(), squeezed_push_step(old(self).shape(), token@)),
    {
        let ghost sh = self.shape;
        let whitespace = self.shape.whitespace;
        self.shape.whitespace = true;
        let r = self.push(token);
        self.shape.whitespace = whitespace;
        proof {
            let inner = sh.with_whitespace(true);
            let step = push_step(inner, token@);
            assert(step.0 =~= at_shape(step.0, inner));
            lemma_run_at_shape::<W>(old(self).model(), step.0, step.1, inner, step.1);
            lemma_run_at_shape::<W>(old(self).model(), step.0, step.1, sh, step.1.with_whitespace(whitespace));
        }
        r
    }

    /// Lays out each item, where the one before ended.
    pub fn each<T: Format>(&mut self, items: &[T]) -> (r: Result<(), Error>)
        ensures
            final(self).outcome(r) == steps::<W>(old(self).model(), fold(items@, old(self).shape(), each_item::<T>())),
    {
        let ghost m0 = self.model();
        let ghost sh0 = self.shape;
        let ghost step = each_item::<T>();
        let mut i: usize = 0;
        while i < items.len()
            invariant
                i <= items@.len(),
                m0 == old(self).model(),
                sh0 == old(self).shape(),
                step == each_item::<T>(),
                steps::<W>(m0, fold(items@.take(i as int), sh0, step)) == (self.model(), self.shape(), true),
            decreases items.len() - i,
        {
            proof {
                lemma_fold_next::<W, T>(m0, items@, sh0, step, i as int);
            }
            let r = items[i].format(self);
            if r.is_err() {
                proof {
                    lemma_fold_fails::<W, T>(m0, items@, sh0, step, i + 1);
                }
                return r;
            }
            i = i + 1;
        }
        assert(items@.take(i as int) =~= items@);
        Ok(())
    }

    /// Lays out each item after a blank line.
    pub fn each_page<T: Format>(&mut self, items: &[T]) -> (r: Result<(), Error>)
        ensures
            final(self).outcome(r) == steps::<W>(old(self).model(), fold(items@, old(self).shape(), page_item::<T>())),
    {
        let ghost m0 = self.model();
        let ghost sh0 = self.shape;
        let ghost step = page_item::<T>();
        let mut i: usize = 0;
        while i < items.len()
            invariant
                i <= items@.len(),
                m0 == old(self).model(),
                sh0 == old(self).shape(),
                step == page_item::<T>(),
                steps::<W>(m0, fold(items@.take(i as int), sh0, step)) == (self.model(), self.shape(), true),
            decreases items.len() - i,
        {
            let ghost mb = self.model();
            let ghost shb = self.shape;
            proof {
                lemma_fold_next::<W, T>(m0, items@, sh0, step, i as int);
                let blank = lines_step(shb, 2);
                assert(step(i as int, items@[i as int], shb) == then(blank, formatted(&items@[i as int], blank.1)));
                lemma_then::<W>(mb, blank, formatted(&items@[i as int], blank.1));
                lemma_steps_end::<W>(mb, blank);
            }
            let r = self.page();
            if r.is_err() {
                proof {
                    lemma_fold_fails::<W, T>(m0, items@, sh0, step, i + 1);
                }
                return r;
            }
            let r = items[i].format(self);
            if r.is_err() {
                proof {
                    lemma_fold_fails::<W, T>(m0, items@, sh0, step, i + 1);
                }
                return r;
            }
            i = i + 1;
        }
        assert(items@.take(i as int) =~= items@);
        Ok(())
    }

    /// Lays out each item on a line of its own.
    pub fn each_line<T: Format>(&mut self, items: &[T]) -> (r: Result<(), Error>)
        ensures
            final(self).outcome(r) == steps::<W>(old(self).model(), fold(items@, old(self).shape(), line_item::<T>())),
    {
        let ghost m0 = self.model();
        let ghost sh0 = self.shape;
        let ghost step = line_item::<T>();
        let mut i: usize = 0;
        while i < items.len()
            invariant
                i <= items@.len(),
                m0 == old(self).model(),
                sh0 == old(self).shape(),
                step == line_item::<T>(),
                steps::<W>(m0, fold(items@.take(i as int), sh0, step)) == (self.model(), self.shape(), true),
            decreases items.len() - i,
        {
            let ghost mb = self.model();
            let ghost shb = self.shape;
            proof {
                lemma_fold_next::<W, T>(m0, items@, sh0, step, i as int);
                let start = lines_step(shb, 1);
                assert(step(i as int, items@[i as int], shb) == then(start, formatted(&items@[i as int], start.1)));
                lemma_then::<W>(mb, start, formatted(&items@[i as int], start.1));
                lemma_steps_end::<W>(mb, start);
            }
            let r = self.line();
            if r.is_err() {
                proof {
                    lemma_fold_fails::<W, T>(m0, items@, sh0, step, i + 1);
                }
                return r;
            }
            let r = items[i].format(self);
            if r.is_err() {
                proof {
                    lemma_fold_fails::<W, T>(m0, items@, sh0, step, i + 1);
                }
                return r;
            }
            i = i + 1;
        }
        assert(items@.take(i as int) =~= items@);
        Ok(())
    }

    /// Lays out each item on a line of its own, followed by a comma.
    pub fn each_line_comma<T: Format>(&mut self, items: &[T]) -> (r: Result<(), Error>)
        ensures
            final(self).outcome(r) == steps::<W>(
                old(self).model(),
                fold(items@, old(self).shape(), line_comma_item::<T>()),
            ),
    {
        let ghost m0 = self.model();
        let ghost sh0 = self.shape;
        let ghost step = line_comma_item::<T>();
        let mut i: usize = 0;
        while i < items.len()
            invariant
                i <= items@.len(),
                m0 == old(self).model(),
                sh0 == old(self).shape(),
                step == line_comma_item::<T>(),
                steps::<W>(m0, fold(items@.take(i as int), sh0, step)) == (self.model(), self.shape(), true),
            decreases items.len() - i,
        {
            let ghost mb = self.model();
            let ghost shb = self.shape;
            proof {
                lemma_fold_next::<W, T>(m0, items@, sh0, step, i as int);
                reveal_strlit(",");
                assert(","@ =~= seq![',']);
                let start = lines_step(shb, 1);
                let body = formatted(&items@[i as int], start.1);
                assert(step(i as int, items@[i as int], shb) == then(
                    then(start, body),
                    squeezed_push_step(body.1, seq![',']),
                ));
                lemma_then::<W>(mb, then(start, body), squeezed_push_step(body.1, seq![',']));
                lemma_then::<W>(mb, start, body);
                lemma_steps_end::<W>(mb, start);
                lemma_steps_end::<W>(mb, then(start, body));
                lemma_steps_end::<W>(steps::<W>(mb, start).0, body);
            }
            let r = self.line();
            if r.is_err() {
                proof {
                    lemma_fold_fails::<W, T>(m0, items@, sh0, step, i + 1);
                }
                return r;
            }
            let r = items[i].format(self);
            if r.is_err() {
                proof {
                    lemma_fold_fails::<W, T>(m0, items@, sh0, step, i + 1);
                }
                return r;
            }
            let r = self.push_squeezed(",");
            if r.is_err() {
                proof {
                    lemma_fold_fails::<W, T>(m0, items@, sh0, step, i + 1);
                }
                return r;
            }
            i = i + 1;
        }
        assert(items@.take(i as int) =~= items@);
        Ok(())
    }

    /// Lays out the items separated by commas, starting a new line before
    /// an item that does not fit in the room left.
    pub fn each_comma<T: Format>(&mut self, items: &[T]) -> (r: Result<(), Error>)
        ensures
            final(self).outcome(r) == steps::<W>(old(self).model(), fold(items@, old(self).shape(), comma_item::<T>())),
    {
        let ghost m0 = self.model();
        let ghost sh0 = self.shape;
        let ghost step = comma_item::<T>();
        let mut i: usize = 0;
        while i < items.len()
            invariant
                i <= items@.len(),
                m0 == old(self).model(),
                sh0 == old(self).shape(),
                step == comma_item::<T>(),
                steps::<W>(m0, fold(items@.take(i as int), sh0, step)) == (self.model(), self.shape(), true),
            decreases items.len() - i,
        {
            let ghost mb = self.model();
            let ghost shb = self.shape;
            let ghost item = items@[i as int];
            let ghost comma = if i != 0 {
                squeezed_push_step(shb, seq![','])
            } else {
                nothing(shb)
            };
            proof {
                lemma_fold_next::<W, T>(m0, items@, sh0, step, i as int);
                reveal_strlit(",");
                assert(","@ =~= seq![',']);
                let wrap = if overflows(&item, comma.1.room()) {
                    lines_step(comma.1, 1)
                } else {
                    nothing(comma.1)
                };
                assert(step(i as int, item, shb) == then(then(comma, wrap), formatted(&item, wrap.1)));
                lemma_then::<W>(mb, then(comma, wrap), formatted(&item, wrap.1));
                lemma_then::<W>(mb, comma, wrap);
                lemma_steps_end::<W>(mb, comma);
                lemma_steps_end::<W>(mb, then(comma, wrap));
                lemma_steps_end::<W>(steps::<W>(mb, comma).0, wrap);
                if i == 0 {
                    assert(comma.0 + wrap.0 =~= wrap.0);
                }
            }
            if i != 0 {
                let r = self.push_squeezed(",");
                if r.is_err() {
                    proof {
                        lemma_fold_fails::<W, T>(m0, items@, sh0, step, i + 1);
                    }
                    return r;
                }
            }
            let room = self.room();
            if Measurer::measure(&items[i], room).is_err() {
                let r = self.line();
                if r.is_err() {
                    proof {
                        lemma_fold_fails::<W, T>(m0, items@, sh0, step, i + 1);
                    }
                    return r;
                }
            }
            let r = items[i].format(self);
            if r.is_err() {
                proof {
                    lemma_fold_fails::<W, T>(m0, items@, sh0, step, i + 1);
                }
                return r;
            }
            i = i + 1;
        }
        assert(items@.take(i as int) =~= items@);
        Ok(())
    }

    /// Runs `closure` with no space before its first token, then restores
    /// the spacing as it was.
    pub fn squeeze<F>(&mut self, closure: F) -> (r: Result<(), Error>) where
        F: FnOnce(&mut Formatter<W>) -> Result<(), Error>,

        requires
            forall|f: &mut Formatter<W>| call_requires(closure, (f,)),
        ensures
            exists|mid: &mut Formatter<W>|
                {
                    &&& mid.model() == old(self).model()
                    &&& mid.shape() == old(self).shape().with_whitespace(true)
                    &&& #[trigger] call_ensures(closure, (mid,), r)
                    &&& final(self).model() == final(mid).model()
                    &&& final(self).shape() == final(mid).shape().with_whitespace(
                        old(self).shape().after_whitespace(),
                    )
                },
    {
        let whitespace = self.shape.whitespace;
        self.shape.whitespace = true;
        let result = closure(self);
        self.shape.whitespace = whitespace;
        result
    }

    /// Runs `closure` on the lines after this one, indented one level
    /// deeper, and ends its last line.
    pub fn indent<F>(&mut self, closure: F) -> (r: Result<(), Error>) where
        F: FnOnce(&mut Formatter<W>) -> Result<(), Error>,

        requires
            forall|f: &mut Formatter<W>| call_requires(closure, (f,)),
        ensures
            ({
                let deeper = old(self).shape().with_indentation(
                    old(self).shape().indentation().wrapping_add(4),
                ).with_blank_lines(0);
                let opened = steps::<W>(old(self).model(), lines_step(deeper, 1));
                &&& !opened.2 ==> final(self).outcome(r) == opened
                &&& opened.2 ==> exists|mid: &mut Formatter<W>, inner: Result<(), Error>|
                    {
                        let closed = steps::<W>(final(mid).model(), lines_step(final(mid).shape(), 1));
                        &&& mid.model() == opened.0
                        &&& mid.shape() == opened.1.with_blank_lines(2)
                        &&& #[trigger] call_ensures(closure, (mid,), inner)
                        &&& !closed.2 ==> final(self).outcome(r) == closed
                        &&& closed.2 ==> {
                            &&& final(self).model() == closed.0
                            &&& final(self).shape() == closed.1.with_indentation(
                                closed.1.indentation().wrapping_sub(4),
                            ).with_blank_lines(0)
                            &&& r == inner
                        }
                    }
            }),
    {
        self.shape.indent = self.shape.indent.wrapping_add(4);
        self.shape.blank_lines = 0;
        let opened = self.line();
        if opened.is_err() {
            return opened;
        }
        self.shape.blank_lines = 2;
        let result = closure(self);
        let closed = self.line();
        if closed.is_err() {
            return closed;
        }
        self.shape.indent = self.shape.indent.wrapping_sub(4);
        self.shape.blank_lines = 0;
        result
    }

    /// Starts a squeezed body: no space before its first token. Gives the
    /// spacing to restore.
    pub(crate) fn begin_squeeze(&mut self) -> (whitespace: bool)
        ensures
            final(self).model() == old(self).model(),
            final(self).shape() == old(self).shape().with_whitespace(true),
            whitespace == old(self).shape().after_whitespace(),
    {
        let whitespace = self.shape.whitespace;
        self.shape.whitespace = true;
        whitespace
    }

    /// Ends a squeezed body, restoring the spacing.
    pub(crate) fn end_squeeze(&mut self, whitespace: bool)
        ensures
            final(self).model() == old(self).model(),
            final(self).shape() == old(self).shape().with_whitespace(whitespace),
    {
        self.shape.whitespace = whitespace;
    }

    /// Starts an indented body on a new line one level deeper.
    pub(crate) fn open_indent(&mut self) -> (r: Result<(), Error>)
        ensures
            final(self).outcome(r) == steps::<W>(old(self).model(), indent_open_step(old(self).shape())),
    {
        let ghost sh = self.shape;
        self.shape.indent = self.shape.indent.wrapping_add(4);
        self.shape.blank_lines = 0;
        let ghost deeper = self.shape;
        let opened = self.line();
        if opened.is_err() {
            proof {
                let o = lines_step(deeper, 1);
                lemma_run_fails::<W>(old(self).model(), o.0, o.1, o.1.with_blank_lines(2));
            }
            return opened;
        }
        proof {
            lemma_steps_end::<W>(old(self).model(), lines_step(deeper, 1));
            lemma_run_end::<W>(
                old(self).model(),
                lines_step(deeper, 1).0,
                lines_step(deeper, 1).1,
                lines_step(deeper, 1).1.with_blank_lines(2),
            );
        }
        self.shape.blank_lines = 2;
        opened
    }

    /// Ends an indented body: a line break, back one level.
    pub(crate) fn close_indent(&mut self) -> (r: Result<(), Error>)
        ensures
            final(self).outcome(r) == steps::<W>(old(self).model(), indent_close_step(old(self).shape())),
    {
        let ghost sh = self.shape;
        let closed = self.line();
        if closed.is_err() {
            proof {
                let c = lines_step(sh, 1);
                lemma_run_fails::<W>(
                    old(self).model(),
                    c.0,
                    c.1,
                    c.1.with_indentation(c.1.indentation().wrapping_sub(4)).with_blank_lines(0),
                );
            }
            return closed;
        }
        proof {
            let c = lines_step(sh, 1);
            lemma_steps_end::<W>(old(self).model(), c);
            lemma_run_end::<W>(
                old(self).model(),
                c.0,
                c.1,
                c.1.with_indentation(c.1.indentation().wrapping_sub(4)).with_blank_lines(0),
            );
        }
        self.shape.indent = self.shape.indent.wrapping_sub(4);
        self.shape.blank_lines = 0;
        closed
    }
}

/// What `squeeze` makes of a step `inner` that starts with no space
/// before it: the same writes, with the spacing of `sh` restored afterwards
/// (also at a refused write).
pub open spec fn squeezed(sh: Shape, inner: (Writes, Shape)) -> (Writes, Shape) {
    (
        with_spacing(inner.0, sh.after_whitespace()),
        inner.1.with_whitespace(sh.after_whitespace()),
    )
}

/// `writes` with the spacing of each recorded shape set to `whitespace`.
pub open spec fn with_spacing(writes: Writes, whitespace: bool) -> Writes {
    writes.map_values(|w: (Seq<char>, Shape)| (w.0, w.1.with_whitespace(whitespace)))
}

/// What `indent` writes before its body: a line break one level deeper;
/// the body then starts as if after a blank line.
pub open spec fn indent_open_step(sh: Shape) -> (Writes, Shape) {
    let deeper = sh.with_indentation(sh.indentation().wrapping_add(4)).with_blank_lines(0);
    let opened = lines_step(deeper, 1);
    (opened.0, opened.1.with_blank_lines(2))
}

/// What `indent` writes after its body: a line break, back one level.
pub open spec fn indent_close_step(sh: Shape) -> (Writes, Shape) {
    let closed = lines_step(sh, 1);
    (closed.0, closed.1.with_indentation(closed.1.indentation().wrapping_sub(4)).with_blank_lines(0))
}

/// An indented body: `inner` starts where `indent_open_step(sh)` ends.
pub open spec fn indented(sh: Shape, inner: (Writes, Shape)) -> (Writes, Shape) {
    then(then(indent_open_step(sh), inner), indent_close_step(inner.1))
}

/// Running writes whose spacing was set afterwards.
pub proof fn lemma_run_with_spacing<W: Write>(m: W::Model, writes: Writes, end: Shape, whitespace: bool)
    ensures
        run::<W>(m, with_spacing(writes, whitespace), end.with_whitespace(whitespace)) == (
            run::<W>(m, writes, end).0,
            run::<W>(m, writes, end).1.with_whitespace(whitespace),
            run::<W>(m, writes, end).2,
        ),
    decreases writes.len(),
{
    if writes.len() > 0 {
        assert(with_spacing(writes, whitespace).drop_first() =~= with_spacing(writes.drop_first(), whitespace));
        lemma_run_with_spacing::<W>(W::after(m, writes[0].0), writes.drop_first(), end, whitespace);
    }
}

/// A squeezed step runs as its body, with the spacing restored.
pub proof fn lemma_squeezed<W: Write>(m: W::Model, sh: Shape, inner: (Writes, Shape))
    ensures
        steps::<W>(m, squeezed(sh, inner)) == (
            steps::<W>(m, inner).0,
            steps::<W>(m, inner).1.with_whitespace(sh.after_whitespace()),
            steps::<W>(m, inner).2,
        ),
{
    lemma_run_with_spacing::<W>(m, inner.0, inner.1, sh.after_whitespace());
}

/// Extending steps that went through by one more step.
pub proof fn lemma_step_on<W: Write>(m: W::Model, done: (Writes, Shape), next: (Writes, Shape))
    requires
        steps::<W>(m, done).2,
    ensures
        steps::<W>(m, done).1 == done.1,
        steps::<W>(m, then(done, next)) == steps::<W>(steps::<W>(m, done).0, next),
{
    lemma_steps_end::<W>(m, done);
    lemma_then::<W>(m, done, next);
}

/// Steps that failed stay failed, whatever follows them.
pub proof fn lemma_fails_then<W: Write>(m: W::Model, done: (Writes, Shape), next: (Writes, Shape))
    requires
        !steps::<W>(m, done).2,
    ensures
        steps::<W>(m, then(done, next)) == steps::<W>(m, done),
{
    lemma_then::<W>(m, done, next);
}

/// Whether one of `items` must be broken over lines.
pub(crate) fn any_expands<T: Format>(items: &[T]) -> (b: bool)
    ensures
        b == exists|i: int| 0 <= i < items@.len() && #[trigger] items@[i].spec_expands(),
{
    let mut i: usize = 0;
    while i < items.len()
        invariant
            i <= items@.len(),
            forall|j: int| 0 <= j < i ==> !(#[trigger] items@[j].spec_expands()),
        decreases items.len() - i,
    {
        if items[i].expands() {
            return true;
        }
        i = i + 1;
    }
    false
}

/// Running a single write.
pub proof fn lemma_run_one<W: Write>(m: W::Model, write: (Seq<char>, Shape), end: Shape)
    ensures
        run::<W>(m, seq![write], end) == if W::refuses(m, write.0) {
            (W::after(m, write.0), write.1, false)
        } else {
            (W::after(m, write.0), end, true)
        },
{
    let one: Writes = seq![write];
    assert(one.drop_first() =~= Seq::<(Seq<char>, Shape)>::empty());
    assert(run::<W>(W::after(m, write.0), one.drop_first(), end) == (W::after(m, write.0), end, true));
}

/// Once every write has gone through, `run` ends in the given shape.
proof fn lemma_run_end<W: Write>(m: W::Model, writes: Writes, sh: Shape, end: Shape)
    requires
        run::<W>(m, writes, sh).2,
    ensures
        run::<W>(m, writes, end) == (run::<W>(m, writes, sh).0, end, true),
    decreases writes.len(),
{
    if writes.len() > 0 {
        lemma_run_end::<W>(W::after(m, writes[0].0), writes.drop_first(), sh, end);
    }
}

/// Where writes are refused does not depend on the shape they would end in.
proof fn lemma_run_fails<W: Write>(m: W::Model, writes: Writes, end: Shape, other: Shape)
    requires
        !run::<W>(m, writes, end).2,
    ensures
        run::<W>(m, writes, other) == run::<W>(m, writes, end),
    decreases writes.len(),
{
    if writes.len() > 0 && !W::refuses(m, writes[0].0) {
        lemma_run_fails::<W>(W::after(m, writes[0].0), writes.drop_first(), end, other);
    }
}

/// A step that went through ends in its final shape.
pub proof fn lemma_steps_end<W: Write>(m: W::Model, step: (Writes, Shape))
    ensures
        steps::<W>(m, step).2 ==> steps::<W>(m, step).1 == step.1,
{
    if steps::<W>(m, step).2 {
        lemma_run_end::<W>(m, step.0, step.1, step.1);
    }
}

/// Writing to a `String` never fails, and appends every write in order.
pub proof fn law_string_never_refuses(m: Seq<char>, writes: Writes, end: Shape)
    ensures
        run::<String>(m, writes, end).2,
        run::<String>(m, writes, end).1 == end,
        run::<String>(m, writes, end).0 == m + writes.fold_left(
            Seq::<char>::empty(),
            |acc: Seq<char>, w: (Seq<char>, Shape)| acc + w.0,
        ),
    decreases writes.len(),
{
    let f = |acc: Seq<char>, w: (Seq<char>, Shape)| acc + w.0;
    if writes.len() == 0 {
        assert(m + Seq::<char>::empty() =~= m);
    } else {
        law_string_never_refuses(m + writes[0].0, writes.drop_first(), end);
        writes.lemma_fold_left_alt(Seq::<char>::empty(), f);
        writes.drop_first().lemma_fold_left_alt(writes[0].0, f);
        lemma_fold_from(writes.drop_first(), writes[0].0);
        assert(m + writes[0].0 + writes.drop_first().fold_left(Seq::<char>::empty(), f) =~= m + (
        writes[0].0 + writes.drop_first().fold_left(Seq::<char>::empty(), f)));
    }
}

/// Folding the texts of `writes` from `start` prepends `start`.
proof fn lemma_fold_from(writes: Writes, start: Seq<char>)
    ensures
        writes.fold_left(start, |acc: Seq<char>, w: (Seq<char>, Shape)| acc + w.0) == start
            + writes.fold_left(Seq::<char>::empty(), |acc: Seq<char>, w: (Seq<char>, Shape)| acc + w.0),
    decreases writes.len(),
{
    let f = |acc: Seq<char>, w: (Seq<char>, Shape)| acc + w.0;
    if writes.len() == 0 {
        assert(start + Seq::<char>::empty() =~= start);
    } else {
        let init = writes.drop_last();
        lemma_fold_from(init, start);
        assert(start + init.fold_left(Seq::<char>::empty(), f) + writes.last().0 =~= start + (init.fold_left(
            Seq::<char>::empty(),
            f,
        ) + writes.last().0));
    }
}

/// Once the requested line breaks have been written, asking for them again
/// writes nothing and leaves the shape as it is.
pub proof fn law_lines_settle(sh: Shape, n: usize)
    ensures
        lines_step(lines_step(sh, n).1, n) == nothing(lines_step(sh, n).1),
{
}

/// Asking for `n` line breaks after the last token writes as many line
/// breaks as are still lacking, and nothing else; afterwards at least `n`
/// follow the last token, the column is the first and whitespace precedes
/// what comes next. So asking again writes nothing.
pub proof fn law_lines_count(sh: Shape, n: usize)
    ensures
        lines_step(sh, n).0.len() == if n > sh.blank_lines() {
            n - sh.blank_lines()
        } else {
            0
        },
        forall|i: int|
            0 <= i < lines_step(sh, n).0.len() ==> (#[trigger] lines_step(sh, n).0[i]).0 == seq![
                '\n',
            ],
        lines_step(sh, n).1.blank_lines() == if n > sh.blank_lines() {
            n
        } else {
            sh.blank_lines()
        },
        n > sh.blank_lines() ==> lines_step(sh, n).1.column() == 0 && lines_step(sh, n).1.after_whitespace(),
        lines_step(lines_step(sh, n).1, n).0.len() == 0,
{
}

/// What `push` writes: blanks (a separating space, or the indentation at
/// the start of a line), then the token itself, last.
pub proof fn lemma_push_step_pieces(sh: Shape, token: Seq<char>)
    ensures
        push_step(sh, token).0.len() >= 1,
        push_step(sh, token).0.last().0 == token,
        forall|i: int, k: int|
            0 <= i < push_step(sh, token).0.len() - 1 && 0 <= k < push_step(sh, token).0[i].0.len()
                ==> #[trigger] push_step(sh, token).0[i].0[k] == ' ',
{
}

/// A token pushed onto a fresh formatter is written as it is.
pub proof fn law_first_token(line_width: usize, token: Seq<char>)
    ensures
        steps::<String>(Seq::empty(), push_step(Shape::initial(line_width), token)).0 == token,
{
    let sh = Shape::initial(line_width);
    let step = push_step(sh, token);
    assert(spaces(0) =~= Seq::<char>::empty());
    lemma_run_append::<String>(Seq::empty(), seq![(spaces(0), sh)], sh, seq![(token, sh)], step.1);
    assert(step.0 =~= seq![(spaces(0), sh)] + seq![(token, sh)]);
    lemma_run_one::<String>(Seq::empty(), (spaces(0), sh), sh);
    lemma_run_one::<String>(spaces(0), (token, sh), step.1);
    assert(Seq::<char>::empty() + spaces(0) + token =~= token);
}

/// Two tokens pushed one after the other are separated by one space.
pub proof fn law_tokens_spaced(m: Seq<char>, sh: Shape, first: Seq<char>, second: Seq<char>)
    ensures
        ({
            let one = push_step(sh, first);
            let text = steps::<String>(m, one).0;
            steps::<String>(m, then(one, push_step(one.1, second))).0 == text + seq![' '] + second
        }),
{
    let one = push_step(sh, first);
    let two = push_step(one.1, second);
    lemma_then::<String>(m, one, two);
    law_string_never_refuses(m, one.0, one.1);
    let text = steps::<String>(m, one).0;
    assert(two.0 =~= seq![(seq![' '], one.1)] + seq![(second, one.1)]);
    lemma_run_append::<String>(text, seq![(seq![' '], one.1)], one.1, seq![(second, one.1)], two.1);
    lemma_run_one::<String>(text, (seq![' '], one.1), one.1);
    lemma_run_one::<String>(text + seq![' '], (second, one.1), two.1);
}

/// A token pushed with no space after another on the same line follows it
/// directly.
pub proof fn law_squeezed_token_adjacent(m: Seq<char>, sh: Shape, first: Seq<char>, second: Seq<char>)
    requires
        push_step(sh, first).1.column() != 0,
    ensures
        ({
            let one = push_step(sh, first);
            let text = steps::<String>(m, one).0;
            steps::<String>(m, then(one, squeezed_push_step(one.1, second))).0 == text + second
        }),
{
    let one = push_step(sh, first);
    let two = squeezed_push_step(one.1, second);
    let inner = push_step(one.1.with_whitespace(true), second);
    lemma_then::<String>(m, one, two);
    law_string_never_refuses(m, one.0, one.1);
    let text = steps::<String>(m, one).0;
    assert(inner.0 =~= seq![(second, one.1.with_whitespace(true))]);
    lemma_run_at_shape::<String>(text, inner.0, inner.1, one.1, two.1);
    lemma_run_one::<String>(text, (second, one.1.with_whitespace(true)), inner.1);
}

/// `n` spaces, as a string.
fn indentation(n: usize) -> (s: String)
    ensures
        s@ == spaces(n),
{
    let mut s = String::new();
    let mut i: usize = 0;
    while i < n
        invariant
            i <= n,
            s@ == Seq::new(i as nat, |j: int| ' '),
        decreases n - i,
    {
        proof {
            reveal_strlit(" ");
        }
        s.append(" ");
        i = i + 1;
        assert(s@ =~= Seq::new(i as nat, |j: int| ' '));
    }
    s
}

} // verus!
