//! Writes read as tokens: the texts written, other than layout.
use vstd::prelude::*;

use super::types::{at_shape, law_lines_count, lemma_push_step_pieces, lines_step, push_step, with_spacing, Shape, Writes};

verus! {

/// Layout: spaces, line breaks and commas, which the lexer passes over.
pub open spec fn is_layout(text: Seq<char>) -> bool {
    forall|k: int| 0 <= k < text.len() ==> text[k] == ' ' || text[k] == '\n' || text[k] == ','
}

/// A text as it counts among tokens: itself, unless it is layout.
pub open spec fn token_text(text: Seq<char>) -> Seq<Seq<char>> {
    if is_layout(text) {
        Seq::empty()
    } else {
        seq![text]
    }
}

/// The texts that `writes` write, other than layout, in order.
pub open spec fn written(writes: Writes) -> Seq<Seq<char>>
    decreases writes.len(),
{
    if writes.len() == 0 {
        Seq::empty()
    } else {
        written(writes.drop_last()) + token_text(writes.last().0)
    }
}

pub broadcast proof fn lemma_written_join(a: Writes, b: Writes)
    ensures
        #[trigger] written(a + b) == written(a) + written(b),
    decreases b.len(),
{
    if b.len() == 0 {
        assert(a + b =~= a);
        assert(written(a) + written(b) =~= written(a));
    } else {
        lemma_written_join(a, b.drop_last());
        assert((a + b).drop_last() =~= a + b.drop_last());
        assert((a + b).last() == b.last());
        assert(written(a) + written(b.drop_last()) + token_text(b.last().0) =~= written(a) + (written(
            b.drop_last(),
        ) + token_text(b.last().0)));
    }
}

proof fn lemma_written_same_texts(a: Writes, b: Writes)
    requires
        a.len() == b.len(),
        forall|i: int| 0 <= i < a.len() ==> (#[trigger] a[i]).0 == b[i].0,
    ensures
        written(a) == written(b),
    decreases a.len(),
{
    if a.len() > 0 {
        lemma_written_same_texts(a.drop_last(), b.drop_last());
        assert(a.last().0 == b[b.len() - 1].0);
    }
}

proof fn lemma_written_layout(w: Writes)
    requires
        forall|i: int| 0 <= i < w.len() ==> is_layout(#[trigger] w[i].0),
    ensures
        written(w) == Seq::<Seq<char>>::empty(),
    decreases w.len(),
{
    if w.len() > 0 {
        lemma_written_layout(w.drop_last());
        assert(is_layout(w[w.len() - 1].0));
    }
}

pub broadcast proof fn lemma_written_spacing(w: Writes, whitespace: bool)
    ensures
        #[trigger] written(with_spacing(w, whitespace)) == written(w),
{
    lemma_written_same_texts(with_spacing(w, whitespace), w);
}

pub broadcast proof fn lemma_written_at_shape(w: Writes, sh: Shape)
    ensures
        #[trigger] written(at_shape(w, sh)) == written(w),
{
    lemma_written_same_texts(at_shape(w, sh), w);
}

pub broadcast proof fn lemma_written_push(sh: Shape, token: Seq<char>)
    ensures
        #[trigger] written(push_step(sh, token).0) == token_text(token),
{
    lemma_push_step_pieces(sh, token);
    let w = push_step(sh, token).0;
    assert forall|i: int| 0 <= i < w.drop_last().len() implies is_layout(
        #[trigger] w.drop_last()[i].0,
    ) by {
        assert(w.drop_last()[i] == w[i]);
    }
    lemma_written_layout(w.drop_last());
}

pub broadcast proof fn lemma_written_lines(sh: Shape, n: usize)
    ensures
        #[trigger] written(lines_step(sh, n).0) == Seq::<Seq<char>>::empty(),
{
    law_lines_count(sh, n);
    let w = lines_step(sh, n).0;
    assert forall|i: int| 0 <= i < w.len() implies is_layout(#[trigger] w[i].0) by {
        assert(w[i].0 == seq!['\n']);
    }
    lemma_written_layout(w);
}

/// A comma is layout.
pub proof fn lemma_comma_is_layout()
    ensures
        token_text(seq![',']) == Seq::<Seq<char>>::empty(),
{
    assert(is_layout(seq![',']));
}

} // verus!
