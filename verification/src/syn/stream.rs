use vstd::prelude::*;

use crate::ast::types::{Missing, MissingToken, Spanned};
use crate::lex::kind::TokenKind;
use crate::lex::lexer::Lexer;
use crate::lex::token::Token;
use crate::lex::Span;

use super::recovery::{accepts, RecoveryPoint};

verus! {

/// Why a parse stopped.
#[derive(Clone, Copy, Debug)]
pub enum Error {
    /// A token that the grammar requires is not there; the point stands for
    /// the tokens that would have done.
    Expected(RecoveryPoint),
    /// Nodes are nested deeper than the parser follows, at this span.
    MaxRecursion(Span),
}

/// The tokens that the parser reads, with those that it skipped.
pub struct Stream {
    lexer: Lexer,
    unexpected: Vec<Token>,
    read_kind: Ghost<Option<TokenKind>>,
    origin: Ghost<Seq<(TokenKind, Seq<char>, Span)>>,
    taken: Ghost<nat>,
    log: Ghost<Seq<Span>>,
    marks: Ghost<Seq<bool>>,
}

/// A stream stands between the last token read and the next one.
impl Spanned for Stream {
    open spec fn spanned(&self) -> bool {
        self.started() || self.len() > 0
    }

    open spec fn current_span(&self) -> Span {
        self.position()
    }

    fn span(&mut self) -> (r: Span) {
        Stream::span(self)
    }
}

/// Whether the next token of `s` is of one of `kinds`; a name stands for
/// every keyword too (but `on` when `exclude_on`).
pub open spec fn begins(s: Stream, kinds: Set<TokenKind>, exclude_on: bool) -> bool {
    &&& s.len() > 0
    &&& {
        let k = s.remaining()[0].0;
        ||| kinds.contains(k)
        ||| k.spec_is_name() && kinds.contains(TokenKind::Name) && (!exclude_on || k != TokenKind::KeywordOn)
    }
}

/// The parser stands after a string that documents nothing: the last token
/// read is a string, and no name comes next.
pub open spec fn stray_description(s: Stream) -> bool {
    &&& s.last_read() == Some(TokenKind::StringValue)
    &&& !begins(s, set![TokenKind::Name], false)
}

/// At `i` of `tokens` stands a string that no name follows.
pub open spec fn stray_at(tokens: Seq<(TokenKind, Seq<char>, Span)>, i: int) -> bool {
    &&& 0 <= i < tokens.len()
    &&& tokens[i].0 == TokenKind::StringValue
    &&& (i + 1 == tokens.len() || !(tokens[i + 1].0 == TokenKind::Name || tokens[i
        + 1].0.spec_is_name()))
}

/// From the last token taken from `s` on, a string stands that no name
/// follows.
pub open spec fn stray_ahead(s: Stream) -> bool {
    exists|i: int| s.taken() - 1 <= i && #[trigger] stray_at(s.origin(), i)
}

/// Where a parse of `old` stops after a string that documents nothing, that
/// string stands in what was ahead of `old`.
pub proof fn lemma_stray_ahead(old: Stream, new: Stream)
    requires
        old.wf(),
        advanced(old, new),
        stray_description(new),
    ensures
        stray_ahead(old),
{
    assert(new.remaining().len() == new.origin().len() - new.taken());
    assert(old.remaining().len() == old.origin().len() - old.taken());
    let i = new.taken() - 1;
    if new.len() > 0 {
        assert(new.remaining()[0] == new.origin()[i + 1]);
    }
    assert(stray_at(old.origin(), i));
}

/// `new` is `old` after reading or skipping tokens.
pub open spec fn advanced(old: Stream, new: Stream) -> bool {
    &&& new.wf()
    &&& new.origin() == old.origin()
    &&& new.len() <= old.len()
    &&& (old.started() ==> new.started())
    &&& (new.len() < old.len() ==> new.started())
}

/// The tokens read from `old` to `new` are, in order, those at `spans`
/// after the first `given` (which were read before `old`); together with
/// the tokens skipped meanwhile, they are all the tokens taken.
pub open spec fn read_into(old: Stream, new: Stream, spans: Seq<Span>, given: nat) -> bool {
    &&& old.len() - new.len() + given == spans.len() + new.skipped().len() - old.skipped().len()
    &&& new.read_log() == (if given == 0 {
        old.read_log() + spans
    } else {
        old.read_log().take(old.read_log().len() - given) + spans
    })
}

/// The spans of the tokens among the first of `tokens` that `marks` does
/// not mark as skipped (one mark for each), in order.
pub open spec fn kept(tokens: Seq<(TokenKind, Seq<char>, Span)>, marks: Seq<bool>) -> Seq<Span>
    decreases marks.len(),
{
    if marks.len() == 0 {
        Seq::empty()
    } else {
        kept(tokens, marks.drop_last()) + if marks.last() {
            Seq::empty()
        } else {
            seq![tokens[marks.len() - 1].2]
        }
    }
}

/// The tokens among the first of `tokens` that `marks` marks as skipped,
/// in order.
pub open spec fn dropped(tokens: Seq<(TokenKind, Seq<char>, Span)>, marks: Seq<bool>) -> Seq<
    (TokenKind, Seq<char>, Span),
>
    decreases marks.len(),
{
    if marks.len() == 0 {
        Seq::empty()
    } else if marks.last() {
        dropped(tokens, marks.drop_last()).push(tokens[marks.len() - 1])
    } else {
        dropped(tokens, marks.drop_last())
    }
}

/// A parse of `tokens` that gave a tree with the tokens at `tree` and
/// handed back `rest`: the first tokens, one for each mark, are in the tree
/// in order where unmarked; `rest` holds the tokens after them, then the
/// marked ones in order.
pub open spec fn split_as(
    tokens: Seq<(TokenKind, Seq<char>, Span)>,
    marks: Seq<bool>,
    tree: Seq<Span>,
    rest: Seq<Token>,
) -> bool {
    let skipped = dropped(tokens, marks);
    &&& marks.len() <= tokens.len()
    &&& tree == kept(tokens, marks)
    &&& rest.len() == tokens.len() - marks.len() + skipped.len()
    &&& forall|i: int|
        0 <= i < tokens.len() - marks.len() ==> (#[trigger] rest[i])@ == tokens[marks.len() + i]
    &&& forall|i: int|
        0 <= i < skipped.len() ==> (#[trigger] rest[tokens.len() - marks.len() + i])@ == skipped[i]
}

/// A parse of `tokens` that gave a tree with the tokens at `tree` and
/// handed back `rest`, split them as some marks tell: see `split_as`.
pub open spec fn splits(tokens: Seq<(TokenKind, Seq<char>, Span)>, tree: Seq<Span>, rest: Seq<Token>) -> bool {
    exists|marks: Seq<bool>| split_as(tokens, marks, tree, rest)
}

/// A parse that began on a fresh stream `start`, ended on `end` with a tree
/// whose tokens were all read meanwhile, and handed back what `end` had not
/// read and had skipped, split the tokens of `start` as `end`'s marks tell.
pub proof fn lemma_split(start: Stream, end: Stream, tree: Seq<Span>, rest: Seq<Token>)
    requires
        start.wf(),
        start.taken() == 0,
        advanced(start, end),
        end.read_log() == start.read_log() + tree,
        rest.len() == end.len() + end.skipped().len(),
        forall|i: int| 0 <= i < end.len() ==> (#[trigger] rest[i])@ == end.remaining()[i],
        forall|i: int| 0 <= i < end.skipped().len() ==> rest[end.len() + i] == #[trigger] end.skipped()[i],
    ensures
        split_as(start.remaining(), end.marks(), tree, rest),
        splits(start.remaining(), tree, rest),
{
    assert(start.marks() =~= Seq::<bool>::empty());
    assert(start.remaining() =~= start.origin());
    assert(start.read_log() =~= Seq::<Span>::empty());
    assert(end.read_log() =~= tree);
    let tokens = start.remaining();
    let marks = end.marks();
    let skipped = dropped(tokens, marks);
    assert forall|i: int| 0 <= i < tokens.len() - marks.len() implies (#[trigger] rest[i])@ == tokens[marks.len() + i] by {
        assert(end.remaining()[i] == tokens[marks.len() + i]);
    }
    assert forall|i: int| 0 <= i < skipped.len() implies (#[trigger] rest[tokens.len() - marks.len() + i])@ == skipped[i] by {
        assert(rest[end.len() + i] == end.skipped()[i]);
    }
}

/// `log` ends with `tail`.
pub open spec fn ends_with(log: Seq<Span>, tail: Seq<Span>) -> bool {
    &&& log.len() >= tail.len()
    &&& log == log.take(log.len() - tail.len()) + tail
}

/// What comes before the second part of a join is the first part.
pub broadcast proof fn lemma_join_take(a: Seq<Span>, b: Seq<Span>, n: int)
    requires
        n == a.len(),
    ensures
        #[trigger] (a + b).take(n) == a,
{
    assert((a + b).take(n) =~= a);
}

/// Sequences join in any grouping.
pub broadcast proof fn lemma_join_assoc(a: Seq<Span>, b: Seq<Span>, c: Seq<Span>)
    ensures
        #[trigger] ((a + b) + c) == a + (b + c),
{
    assert((a + b) + c =~= a + (b + c));
}

/// How many items an option holds.
pub open spec fn count<A>(o: Option<A>) -> nat {
    if o is Some {
        1
    } else {
        0
    }
}

impl Stream {
    /// The tokens not read yet, in order.
    pub closed spec fn remaining(&self) -> Seq<(TokenKind, Seq<char>, Span)> {
        self.lexer.remaining()
    }

    /// How many tokens are not read yet.
    pub open spec fn len(&self) -> nat {
        self.remaining().len()
    }

    /// Whether a token has been read, so that the stream has a place.
    pub closed spec fn started(&self) -> bool {
        self.lexer.last() is Some
    }

    /// The tokens skipped so far, in order.
    pub closed spec fn skipped(&self) -> Seq<Token> {
        self.unexpected@
    }

    /// The kind of the last token read (not skipped) since the stream was
    /// made, if any.
    pub closed spec fn last_read(&self) -> Option<TokenKind> {
        self.read_kind@
    }

    /// Every token is of the variant that its kind belongs in.
    pub closed spec fn wf(&self) -> bool {
        &&& self.lexer.wf()
        &&& self.taken@ <= self.origin@.len()
        &&& self.origin@.skip(self.taken@ as int) == self.remaining()
        &&& (self.read_kind@ matches Some(k) ==> self.taken@ > 0 && self.origin@[self.taken@ - 1].0
            == k)
        &&& self.marks@.len() == self.taken@
        &&& self.log@ == kept(self.origin@, self.marks@)
        &&& self.unexpected@.len() == dropped(self.origin@, self.marks@).len()
        &&& forall|i: int|
            0 <= i < self.unexpected@.len() ==> (#[trigger] self.unexpected@[i])@ == dropped(
                self.origin@,
                self.marks@,
            )[i]
    }

    /// For each token taken so far, whether it was skipped.
    pub closed spec fn marks(&self) -> Seq<bool> {
        self.marks@
    }

    /// The tokens taken so far are, in order, those read and those skipped
    /// as the marks tell them apart; the rest are still to come.
    pub proof fn lemma_taken_apart(&self)
        requires
            self.wf(),
        ensures
            self.marks().len() == self.taken(),
            self.taken() <= self.origin().len(),
            self.remaining() == self.origin().skip(self.taken() as int),
            self.read_log() == kept(self.origin(), self.marks()),
            self.skipped().len() == dropped(self.origin(), self.marks()).len(),
            forall|i: int|
                0 <= i < self.skipped().len() ==> (#[trigger] self.skipped()[i])@ == dropped(
                    self.origin(),
                    self.marks(),
                )[i],
    {
    }

    /// The tokens that the stream was made with, in order.
    pub closed spec fn origin(&self) -> Seq<(TokenKind, Seq<char>, Span)> {
        self.origin@
    }

    /// The spans of the tokens read (not skipped), in order.
    pub closed spec fn read_log(&self) -> Seq<Span> {
        self.log@
    }

    /// How many tokens of `origin` have been read or skipped.
    pub closed spec fn taken(&self) -> nat {
        self.taken@
    }

    /// Whether the next token is one that `point` stands for.
    pub open spec fn at(&self, point: RecoveryPoint) -> bool {
        self.len() > 0 && accepts(point, self.remaining()[0].0)
    }

    /// The stream that reads the tokens of `lexer`, with none skipped.
    pub fn new(lexer: Lexer) -> (s: Stream)
        requires
            lexer.wf(),
        ensures
            s.remaining() == lexer.remaining(),
            s.started() == (lexer.last() is Some),
            s.wf(),
            s.skipped() == Seq::<Token>::empty(),
            s.last_read() is None,
            s.origin() == lexer.remaining(),
            s.taken() == 0,
            s.read_log() == Seq::<Span>::empty(),
    {
        let s = Stream {
            lexer,
            unexpected: Vec::new(),
            read_kind: Ghost(None),
            origin: Ghost(lexer.remaining()),
            taken: Ghost(0),
            log: Ghost(Seq::empty()),
            marks: Ghost(Seq::empty()),
        };
        assert(s.origin@.skip(0) =~= s.remaining());
        s
    }

    /// The tokens that were not read, then those that were skipped.
    pub fn into_unexpected(self) -> (r: Vec<Token>)
        ensures
            r@.len() == self.len() + self.skipped().len(),
            forall|i: int| 0 <= i < self.len() ==> (#[trigger] r@[i])@ == self.remaining()[i],
            forall|i: int|
                0 <= i < self.skipped().len() ==> r@[self.len() + i] == #[trigger] self.skipped()[i],
    {
        let ghost start = self.remaining();
        let ghost skipped = self.unexpected@;
        let mut lexer = self.lexer;
        let mut r: Vec<Token> = Vec::new();
        loop
            invariant
                start.len() == r@.len() + lexer.remaining().len(),
                lexer.remaining() == start.skip(r@.len() as int),
                forall|i: int| 0 <= i < r@.len() ==> (#[trigger] r@[i])@ == start[i],
            ensures
                lexer.remaining().len() == 0,
                start.len() == r@.len(),
                forall|i: int| 0 <= i < r@.len() ==> (#[trigger] r@[i])@ == start[i],
            decreases lexer.remaining().len(),
        {
            match lexer.next() {
                Some(token) => {
                    assert(token@ == start[r@.len() as int]);
                    r.push(token);
                    assert(lexer.remaining() =~= start.skip(r@.len() as int));
                },
                None => {
                    break;
                },
            }
        }
        let mut unexpected = self.unexpected;
        let n = r.len();
        r.append(&mut unexpected);
        assert forall|i: int| 0 <= i < skipped.len() implies r@[n + i] == #[trigger] skipped[i] by {}
        r
    }

    /// Whether the next token is one that `point` stands for.
    pub fn recognize(&self, point: RecoveryPoint) -> (r: bool)
        requires
            self.wf(),
        ensures
            r == self.at(point),
    {
        match self.lexer.peek() {
            Some(token) => point.recognizes(token),
            None => false,
        }
    }

    /// Skips the tokens that neither `recognizer` nor `recovery_point` stands
    /// for; tells whether the next token is then one that `recognizer`
    /// stands for.
    pub fn discard(&mut self, recognizer: RecoveryPoint, recovery_point: RecoveryPoint) -> (r:
        bool)
        requires
            old(self).wf(),
        ensures
            advanced(*old(self), *final(self)),
            old(self).remaining().skip(old(self).len() - final(self).len()) == final(self).remaining(),
            final(self).skipped().len() == old(self).skipped().len() + old(self).len()
                - final(self).len(),
            final(self).skipped().take(old(self).skipped().len() as int) == old(self).skipped(),
            r == final(self).at(recognizer),
            final(self).len() == old(self).len() ==> final(self).last_read() == old(self).last_read(),
            final(self).read_log() == old(self).read_log(),
            !r ==> final(self).len() == 0 || final(self).at(recovery_point),
            forall|i: int|
                0 <= i < old(self).len() - final(self).len() ==> !accepts(
                    recognizer,
                    #[trigger] old(self).remaining()[i].0,
                ) && !accepts(recovery_point, old(self).remaining()[i].0),
    {
        let ghost start = self.remaining();
        loop
            invariant
                self.wf(),
                self.len() <= start.len(),
                start.skip(start.len() - self.len()) == self.remaining(),
                old(self).started() ==> self.started(),
                self.len() < start.len() ==> self.started(),
                start == old(self).remaining(),
                self.origin() == old(self).origin(),
                self.read_log() == old(self).read_log(),
                self.len() == start.len() ==> self.last_read() == old(self).last_read(),
                self.skipped().len() == old(self).skipped().len() + (start.len() - self.len()),
                self.skipped().take(old(self).skipped().len() as int) == old(self).skipped(),
                forall|i: int|
                    0 <= i < start.len() - self.len() ==> !accepts(recognizer, #[trigger] start[i].0)
                        && !accepts(recovery_point, start[i].0),
            ensures
                self.wf(),
                self.len() <= start.len(),
                start.skip(start.len() - self.len()) == self.remaining(),
                old(self).started() ==> self.started(),
                self.len() < start.len() ==> self.started(),
                self.origin() == old(self).origin(),
                self.read_log() == old(self).read_log(),
                self.len() == start.len() ==> self.last_read() == old(self).last_read(),
                self.skipped().len() == old(self).skipped().len() + (start.len() - self.len()),
                self.skipped().take(old(self).skipped().len() as int) == old(self).skipped(),
                forall|i: int|
                    0 <= i < start.len() - self.len() ==> !accepts(recognizer, #[trigger] start[i].0)
                        && !accepts(recovery_point, start[i].0),
                self.at(recognizer) || self.len() == 0 || self.at(recovery_point),
            decreases self.len(),
        {
            if self.recognize(recognizer) || self.recognize(recovery_point) {
                break;
            }
            let ghost before = self.remaining();
            match self.lexer.next() {
                Some(token) => {
                    assert(before[0] == start[start.len() - before.len()]);
                    let ghost skipped = self.unexpected@;
                    self.unexpected.push(token);
                    self.read_kind = Ghost(None);
                    let ghost marks = self.marks@;
                    self.marks = Ghost(marks.push(true));
                    assert(self.marks@.drop_last() =~= marks);
                    assert(token@ == self.origin@[marks.len() as int]);
                    assert(dropped(self.origin@, self.marks@) =~= dropped(self.origin@, marks).push(
                        token@,
                    ));
                    assert(kept(self.origin@, self.marks@) =~= kept(self.origin@, marks));
                    self.taken = Ghost(self.taken@ + 1);
                    assert(self.origin@.skip(self.taken@ as int) =~= self.remaining());
                    assert(self.remaining() =~= start.skip(start.len() - self.len()));
                    assert(self.skipped().take(old(self).skipped().len() as int) =~= skipped.take(
                        old(self).skipped().len() as int,
                    ));
                },
                None => {
                    break;
                },
            }
        }
        self.recognize(recognizer)
    }

    /// Where the parser stands: between the last token read and the next
    /// one.
    pub closed spec fn position(&self) -> Span {
        self.lexer.position()
    }

    /// Where the parser stands: see `position`.
    pub fn span(&self) -> (r: Span)
        requires
            self.started() || self.len() > 0,
        ensures
            r == self.position(),
    {
        self.lexer.span()
    }

    /// The missing token that `missing` explains, where the parser stands.
    pub fn missing(&self, missing: Missing) -> (r: MissingToken)
        requires
            self.started(),
        ensures
            r.missing == missing,
            r.span == self.position(),
    {
        MissingToken { span: self.span(), missing }
    }

    /// Reads the next token.
    pub(crate) fn take(&mut self) -> (r: Option<Token>)
        requires
            old(self).wf(),
        ensures
            final(self).wf(),
            final(self).skipped() == old(self).skipped(),
            final(self).origin() == old(self).origin(),
            match r {
                Some(t) => {
                    &&& old(self).len() > 0
                    &&& t.wf()
                    &&& t@ == old(self).remaining()[0]
                    &&& final(self).remaining() == old(self).remaining().drop_first()
                    &&& final(self).started()
                    &&& final(self).last_read() == Some(t@.0)
                    &&& final(self).read_log() == old(self).read_log() + seq![t@.2]
                },
                None => final(self).remaining() == old(self).remaining() && final(self).len() == 0
                    && (old(self).started() ==> final(self).started())
                    && final(self).last_read() == old(self).last_read()
                    && final(self).read_log() == old(self).read_log(),
            },
    {
        let r = self.lexer.next();
        if let Some(t) = &r {
            self.read_kind = Ghost(Some(t@.0));
            let ghost marks = self.marks@;
            self.marks = Ghost(marks.push(false));
            assert(self.marks@.drop_last() =~= marks);
            assert(t@ == self.origin@[marks.len() as int]);
            assert(dropped(self.origin@, self.marks@) =~= dropped(self.origin@, marks));
            self.taken = Ghost(self.taken@ + 1);
            self.log = Ghost(self.log@ + seq![t@.2]);
            assert(self.origin@.skip(self.taken@ as int) =~= self.remaining());
        }
        r
    }
}

} // verus!
