use vstd::prelude::*;

use crate::ast::context::node_of;

use crate::ast::types::{Field, InlineFragment, Recoverable, Selection, SelectionSet};

use super::types::{fold, lemma_fold_fails, lemma_fold_next, lemma_steps_end, lemma_then};
use super::types::{formatted, indent_close_step, indent_open_step, indented, lines_step};
use super::types::{lemma_fails_then, lemma_squeezed, lemma_step_on};
use super::types::{nothing, squeezed, steps, then};
use super::types::{Error, Format, Formatter, Shape, Write, Writes};

verus! {

/// A selection set: its selections indented in braces, one per line when one of them must be broken up.
pub open spec fn selection_set_collapsed(n: SelectionSet, sh: Shape) -> (Writes, Shape)
    decreases n, 0nat,
{
    let s1 = formatted(&n.braces.0, sh);
    let s2 = if selections_any_expand(n.selections.0@) { indented(s1.1, selections_line(n.selections.0@, indent_open_step(s1.1).1)) } else { indented(s1.1, selections_each(n.selections.0@, indent_open_step(s1.1).1)) };
    let s3 = formatted(&n.braces.1, s2.1);
    then(then(s1, s2), s3)
}

fn format_selection_set_collapsed<W: Write>(n: &SelectionSet, formatter: &mut Formatter<W>) -> (r: Result<(), Error>)
    ensures
        final(formatter).outcome(r) == steps::<W>(old(formatter).model(), selection_set_collapsed(*n, old(formatter).shape())),
    decreases n, 0nat,
{
    let ghost node = *n;
    let ghost m0 = formatter.model();
    let ghost sh0 = formatter.shape();
    let ghost s1 = formatted(&node.braces.0, sh0);
    let ghost s2 = if selections_any_expand(node.selections.0@) { indented(s1.1, selections_line(node.selections.0@, indent_open_step(s1.1).1)) } else { indented(s1.1, selections_each(node.selections.0@, indent_open_step(s1.1).1)) };
    let ghost s3 = formatted(&node.braces.1, s2.1);
    let ghost a1 = s1;
    let ghost a2 = then(a1, s2);
    let ghost a3 = then(a2, s3);
    assert(selection_set_collapsed(*n, sh0) == a3);
    let r = n.braces.0.format(formatter);
    if r.is_err() {
        proof {
            lemma_fails_then::<W>(m0, a1, s2);
            lemma_fails_then::<W>(m0, a2, s3);
        }
        return r;
    }
    proof {
        lemma_step_on::<W>(m0, a1, s2);
    }
    let r = if selections_any_expand_exec(&n.selections.0) {
        {
            let ghost mi7 = formatter.model();
            let ghost shi8 = formatter.shape();
            let ghost open9 = indent_open_step(shi8);
            let ghost body10 = selections_line(node.selections.0@, indent_open_step(shi8).1);
            let ghost close11 = indent_close_step(body10.1);
            let r = formatter.open_indent();
            if r.is_err() {
                proof {
                    lemma_fails_then::<W>(mi7, open9, body10);
                    lemma_fails_then::<W>(mi7, then(open9, body10), close11);
                }
                r
            } else {
                proof {
                    lemma_step_on::<W>(mi7, open9, body10);
                }
                let r = format_selections_line(&n.selections.0, formatter);
                if r.is_err() {
                    proof {
                        lemma_fails_then::<W>(mi7, then(open9, body10), close11);
                    }
                    r
                } else {
                    proof {
                        lemma_step_on::<W>(mi7, then(open9, body10), close11);
                    }
                    formatter.close_indent()
                }
            }
        }
    } else {
        {
            let ghost mi12 = formatter.model();
            let ghost shi13 = formatter.shape();
            let ghost open14 = indent_open_step(shi13);
            let ghost body15 = selections_each(node.selections.0@, indent_open_step(shi13).1);
            let ghost close16 = indent_close_step(body15.1);
            let r = formatter.open_indent();
            if r.is_err() {
                proof {
                    lemma_fails_then::<W>(mi12, open14, body15);
                    lemma_fails_then::<W>(mi12, then(open14, body15), close16);
                }
                r
            } else {
                proof {
                    lemma_step_on::<W>(mi12, open14, body15);
                }
                let r = format_selections_each(&n.selections.0, formatter);
                if r.is_err() {
                    proof {
                        lemma_fails_then::<W>(mi12, then(open14, body15), close16);
                    }
                    r
                } else {
                    proof {
                        lemma_step_on::<W>(mi12, then(open14, body15), close16);
                    }
                    formatter.close_indent()
                }
            }
        }
    };
    if r.is_err() {
        proof {
            lemma_fails_then::<W>(m0, a2, s3);
        }
        return r;
    }
    proof {
        lemma_step_on::<W>(m0, a2, s3);
    }
    n.braces.1.format(formatter)
}

/// A field: its alias, name, arguments with no space before them, directives and selection set.
pub open spec fn field_collapsed(n: Field, sh: Shape) -> (Writes, Shape)
    decreases n, 0nat,
{
    let s1 = formatted(&n.alias, sh);
    let s2 = formatted(&n.name, s1.1);
    let s3 = squeezed(s2.1, formatted(&n.arguments, s2.1.with_whitespace(true)));
    let s4 = formatted(&n.directives, s3.1);
    let s5 = match n.selection_set { Some(x) => selection_set_collapsed(*x.0, s4.1), None => nothing(s4.1) };
    then(then(then(then(s1, s2), s3), s4), s5)
}

fn format_field_collapsed<W: Write>(n: &Field, formatter: &mut Formatter<W>) -> (r: Result<(), Error>)
    ensures
        final(formatter).outcome(r) == steps::<W>(old(formatter).model(), field_collapsed(*n, old(formatter).shape())),
    decreases n, 0nat,
{
    let ghost node = *n;
    let ghost m0 = formatter.model();
    let ghost sh0 = formatter.shape();
    let ghost s1 = formatted(&node.alias, sh0);
    let ghost s2 = formatted(&node.name, s1.1);
    let ghost s3 = squeezed(s2.1, formatted(&node.arguments, s2.1.with_whitespace(true)));
    let ghost s4 = formatted(&node.directives, s3.1);
    let ghost s5 = match node.selection_set { Some(x) => selection_set_collapsed(node_of(x), s4.1), None => nothing(s4.1) };
    let ghost a1 = s1;
    let ghost a2 = then(a1, s2);
    let ghost a3 = then(a2, s3);
    let ghost a4 = then(a3, s4);
    let ghost a5 = then(a4, s5);
    assert(field_collapsed(*n, sh0) == a5);
    let r = n.alias.format(formatter);
    if r.is_err() {
        proof {
            lemma_fails_then::<W>(m0, a1, s2);
            lemma_fails_then::<W>(m0, a2, s3);
            lemma_fails_then::<W>(m0, a3, s4);
            lemma_fails_then::<W>(m0, a4, s5);
        }
        return r;
    }
    proof {
        lemma_step_on::<W>(m0, a1, s2);
    }
    let r = n.name.format(formatter);
    if r.is_err() {
        proof {
            lemma_fails_then::<W>(m0, a2, s3);
            lemma_fails_then::<W>(m0, a3, s4);
            lemma_fails_then::<W>(m0, a4, s5);
        }
        return r;
    }
    proof {
        lemma_step_on::<W>(m0, a2, s3);
    }
    let r = {
        let ghost mq17 = formatter.model();
        let ghost shq18 = formatter.shape();
        let ws = formatter.begin_squeeze();
        let r = n.arguments.format(formatter);
        formatter.end_squeeze(ws);
        proof {
            lemma_squeezed::<W>(mq17, shq18, formatted(&node.arguments, shq18.with_whitespace(true)));
        }
        r
    };
    if r.is_err() {
        proof {
            lemma_fails_then::<W>(m0, a3, s4);
            lemma_fails_then::<W>(m0, a4, s5);
        }
        return r;
    }
    proof {
        lemma_step_on::<W>(m0, a3, s4);
    }
    let r = n.directives.format(formatter);
    if r.is_err() {
        proof {
            lemma_fails_then::<W>(m0, a4, s5);
        }
        return r;
    }
    proof {
        lemma_step_on::<W>(m0, a4, s5);
    }
    match &n.selection_set {
        Some(x) => format_selection_set_collapsed(&*x.0, formatter),
        None => Ok(()),
    }
}

/// An inline fragment: its dots, type condition, directives and selection set.
pub open spec fn inline_fragment_collapsed(n: InlineFragment, sh: Shape) -> (Writes, Shape)
    decreases n, 0nat,
{
    let s1 = formatted(&n.dots, sh);
    let s2 = formatted(&n.type_condition, s1.1);
    let s3 = formatted(&n.directives, s2.1);
    let s4 = match n.selection_set { Recoverable::Present(x) => selection_set_collapsed(*x.0, s3.1), Recoverable::Missing(_) => nothing(s3.1) };
    then(then(then(s1, s2), s3), s4)
}

fn format_inline_fragment_collapsed<W: Write>(n: &InlineFragment, formatter: &mut Formatter<W>) -> (r: Result<(), Error>)
    ensures
        final(formatter).outcome(r) == steps::<W>(old(formatter).model(), inline_fragment_collapsed(*n, old(formatter).shape())),
    decreases n, 0nat,
{
    let ghost node = *n;
    let ghost m0 = formatter.model();
    let ghost sh0 = formatter.shape();
    let ghost s1 = formatted(&node.dots, sh0);
    let ghost s2 = formatted(&node.type_condition, s1.1);
    let ghost s3 = formatted(&node.directives, s2.1);
    let ghost s4 = match node.selection_set { Recoverable::Present(x) => selection_set_collapsed(node_of(x), s3.1), Recoverable::Missing(_) => nothing(s3.1) };
    let ghost a1 = s1;
    let ghost a2 = then(a1, s2);
    let ghost a3 = then(a2, s3);
    let ghost a4 = then(a3, s4);
    assert(inline_fragment_collapsed(*n, sh0) == a4);
    let r = n.dots.format(formatter);
    if r.is_err() {
        proof {
            lemma_fails_then::<W>(m0, a1, s2);
            lemma_fails_then::<W>(m0, a2, s3);
            lemma_fails_then::<W>(m0, a3, s4);
        }
        return r;
    }
    proof {
        lemma_step_on::<W>(m0, a1, s2);
    }
    let r = n.type_condition.format(formatter);
    if r.is_err() {
        proof {
            lemma_fails_then::<W>(m0, a2, s3);
            lemma_fails_then::<W>(m0, a3, s4);
        }
        return r;
    }
    proof {
        lemma_step_on::<W>(m0, a2, s3);
    }
    let r = n.directives.format(formatter);
    if r.is_err() {
        proof {
            lemma_fails_then::<W>(m0, a3, s4);
        }
        return r;
    }
    proof {
        lemma_step_on::<W>(m0, a3, s4);
    }
    match &n.selection_set {
        Recoverable::Present(x) => format_selection_set_collapsed(&*x.0, formatter),
        Recoverable::Missing(_) => Ok(()),
    }
}

/// Whether a selection must be broken over lines: a field with an alias
/// or a selection set of its own, and every fragment.
pub open spec fn selection_expands(s: Selection) -> bool {
    match s {
        Selection::Field(x) => x.0.alias is Some || x.0.selection_set is Some,
        Selection::FragmentSpread(_) => true,
        Selection::InlineFragment(_) => true,
    }
}

/// Whether one of the selections must be broken over lines.
pub open spec fn selections_any_expand(s: Seq<Selection>) -> bool {
    exists|i: int| 0 <= i < s.len() && #[trigger] selection_expands(s[i])
}

/// How a selection is laid out: as the kind of selection it is.
pub open spec fn selection_collapsed(s: Selection, sh: Shape) -> (Writes, Shape)
    decreases s, 1nat,
{
    match s {
        Selection::Field(x) => field_collapsed(*x.0, sh),
        Selection::FragmentSpread(x) => x.collapsed(sh),
        Selection::InlineFragment(x) => inline_fragment_collapsed(x, sh),
    }
}

/// Selections one after another.
pub open spec fn selections_each(s: Seq<Selection>, sh: Shape) -> (Writes, Shape)
    decreases s, 0nat,
{
    if s.len() == 0 {
        nothing(sh)
    } else {
        let before = selections_each(s.drop_last(), sh);
        then(before, selection_collapsed(s.last(), before.1))
    }
}

pub open spec fn selection_item() -> spec_fn(int, Selection, Shape) -> (Writes, Shape) {
    |i: int, s: Selection, sh: Shape| selection_collapsed(s, sh)
}

/// Selections one per line.
pub open spec fn selections_line(s: Seq<Selection>, sh: Shape) -> (Writes, Shape)
    decreases s, 0nat,
{
    if s.len() == 0 {
        nothing(sh)
    } else {
        let before = selections_line(s.drop_last(), sh);
        then(before, selection_line_step(s.last(), before.1))
    }
}

/// A selection on a line of its own.
pub open spec fn selection_line_step(s: Selection, sh: Shape) -> (Writes, Shape)
    decreases s, 2nat,
{
    let start = lines_step(sh, 1);
    then(start, selection_collapsed(s, start.1))
}

pub open spec fn selection_line_item() -> spec_fn(int, Selection, Shape) -> (Writes, Shape) {
    |i: int, s: Selection, sh: Shape| selection_line_step(s, sh)
}

proof fn lemma_selections_each(s: Seq<Selection>, sh: Shape)
    ensures
        selections_each(s, sh) == fold(s, sh, selection_item()),
    decreases s.len(),
{
    if s.len() > 0 {
        lemma_selections_each(s.drop_last(), sh);
    }
}

proof fn lemma_selections_line(s: Seq<Selection>, sh: Shape)
    ensures
        selections_line(s, sh) == fold(s, sh, selection_line_item()),
    decreases s.len(),
{
    if s.len() > 0 {
        lemma_selections_line(s.drop_last(), sh);
    }
}

fn selection_expands_exec(s: &Selection) -> (b: bool)
    ensures
        b == selection_expands(*s),
{
    match s {
        Selection::Field(x) => x.0.alias.is_some() || x.0.selection_set.is_some(),
        Selection::FragmentSpread(_) => true,
        Selection::InlineFragment(_) => true,
    }
}

fn selections_any_expand_exec(items: &Vec<Selection>) -> (b: bool)
    ensures
        b == selections_any_expand(items@),
{
    let mut i: usize = 0;
    while i < items.len()
        invariant
            i <= items@.len(),
            forall|j: int| 0 <= j < i ==> !(#[trigger] selection_expands(items@[j])),
        decreases items.len() - i,
    {
        if selection_expands_exec(&items[i]) {
            return true;
        }
        i = i + 1;
    }
    false
}

fn format_selection_collapsed<W: Write>(s: &Selection, formatter: &mut Formatter<W>) -> (r: Result<(), Error>)
    ensures
        final(formatter).outcome(r) == steps::<W>(old(formatter).model(), selection_collapsed(*s, old(formatter).shape())),
    decreases s, 1nat,
{
    match s {
        Selection::Field(x) => format_field_collapsed(&*x.0, formatter),
        Selection::FragmentSpread(x) => x.format_collapsed(formatter),
        Selection::InlineFragment(x) => format_inline_fragment_collapsed(x, formatter),
    }
}

fn format_selections_each<W: Write>(items: &Vec<Selection>, formatter: &mut Formatter<W>) -> (r: Result<(), Error>)
    ensures
        final(formatter).outcome(r) == steps::<W>(old(formatter).model(), selections_each(items@, old(formatter).shape())),
    decreases items@, 0nat,
{
    let ghost m0 = formatter.model();
    let ghost sh0 = formatter.shape();
    let ghost step = selection_item();
    proof {
        lemma_selections_each(items@, sh0);
    }
    let mut i: usize = 0;
    while i < items.len()
        invariant
            i <= items@.len(),
            m0 == old(formatter).model(),
            sh0 == old(formatter).shape(),
            step == selection_item(),
            selections_each(items@, sh0) == fold(items@, sh0, step),
            steps::<W>(m0, fold(items@.take(i as int), sh0, step)) == (formatter.model(), formatter.shape(), true),
        decreases items.len() - i,
    {
        proof {
            lemma_fold_next::<W, Selection>(m0, items@, sh0, step, i as int);
        }
        let r = format_selection_collapsed(&items[i], formatter);
        if r.is_err() {
            proof {
                lemma_fold_fails::<W, Selection>(m0, items@, sh0, step, i + 1);
            }
            return r;
        }
        i = i + 1;
    }
    assert(items@.take(i as int) =~= items@);
    Ok(())
}

fn format_selections_line<W: Write>(items: &Vec<Selection>, formatter: &mut Formatter<W>) -> (r: Result<(), Error>)
    ensures
        final(formatter).outcome(r) == steps::<W>(old(formatter).model(), selections_line(items@, old(formatter).shape())),
    decreases items@, 0nat,
{
    let ghost m0 = formatter.model();
    let ghost sh0 = formatter.shape();
    let ghost step = selection_line_item();
    proof {
        lemma_selections_line(items@, sh0);
    }
    let mut i: usize = 0;
    while i < items.len()
        invariant
            i <= items@.len(),
            m0 == old(formatter).model(),
            sh0 == old(formatter).shape(),
            step == selection_line_item(),
            selections_line(items@, sh0) == fold(items@, sh0, step),
            steps::<W>(m0, fold(items@.take(i as int), sh0, step)) == (formatter.model(), formatter.shape(), true),
        decreases items.len() - i,
    {
        let ghost mb = formatter.model();
        let ghost shb = formatter.shape();
        proof {
            lemma_fold_next::<W, Selection>(m0, items@, sh0, step, i as int);
            let start = lines_step(shb, 1);
            assert(step(i as int, items@[i as int], shb) == then(start, selection_collapsed(items@[i as int], start.1)));
            lemma_then::<W>(mb, start, selection_collapsed(items@[i as int], start.1));
            lemma_steps_end::<W>(mb, start);
        }
        let r = formatter.line();
        if r.is_err() {
            proof {
                lemma_fold_fails::<W, Selection>(m0, items@, sh0, step, i + 1);
            }
            return r;
        }
        let r = format_selection_collapsed(&items[i], formatter);
        if r.is_err() {
            proof {
                lemma_fold_fails::<W, Selection>(m0, items@, sh0, step, i + 1);
            }
            return r;
        }
        i = i + 1;
    }
    assert(items@.take(i as int) =~= items@);
    Ok(())
}

/// A selection set is laid out in braces, its selections indented, one per
/// line when one of them must be broken up.
impl Format for SelectionSet {
    open spec fn collapsed(&self, sh: Shape) -> (Writes, Shape) {
        selection_set_collapsed(*self, sh)
    }

    open spec fn expanded(&self, sh: Shape) -> (Writes, Shape) {
        selection_set_collapsed(*self, sh)
    }

    open spec fn spec_expands(&self) -> bool {
        selections_any_expand(self.selections.0@)
    }

    open spec fn spec_can_expand(&self) -> bool {
        false
    }

    fn format_collapsed<W: Write>(&self, formatter: &mut Formatter<W>) -> (r: Result<(), Error>) {
        format_selection_set_collapsed(self, formatter)
    }

    fn format_expanded<W: Write>(&self, formatter: &mut Formatter<W>) -> (r: Result<(), Error>) {
        format_selection_set_collapsed(self, formatter)
    }

    fn expands(&self) -> (b: bool) {
        selections_any_expand_exec(&self.selections.0)
    }

    fn can_expand(&self) -> (b: bool) {
        false
    }
}

/// A selection is laid out as the kind of selection it is.
impl Format for Selection {
    open spec fn collapsed(&self, sh: Shape) -> (Writes, Shape) {
        selection_collapsed(*self, sh)
    }

    open spec fn expanded(&self, sh: Shape) -> (Writes, Shape) {
        selection_collapsed(*self, sh)
    }

    open spec fn spec_expands(&self) -> bool {
        selection_expands(*self)
    }

    open spec fn spec_can_expand(&self) -> bool {
        false
    }

    fn format_collapsed<W: Write>(&self, formatter: &mut Formatter<W>) -> (r: Result<(), Error>) {
        format_selection_collapsed(self, formatter)
    }

    fn format_expanded<W: Write>(&self, formatter: &mut Formatter<W>) -> (r: Result<(), Error>) {
        format_selection_collapsed(self, formatter)
    }

    fn expands(&self) -> (b: bool) {
        selection_expands_exec(self)
    }

    fn can_expand(&self) -> (b: bool) {
        false
    }
}

/// A field is laid out as its alias, name, arguments (with no space before
/// them), directives and selection set.
impl Format for Field {
    open spec fn collapsed(&self, sh: Shape) -> (Writes, Shape) {
        field_collapsed(*self, sh)
    }

    open spec fn expanded(&self, sh: Shape) -> (Writes, Shape) {
        field_collapsed(*self, sh)
    }

    open spec fn spec_expands(&self) -> bool {
        self.alias is Some || self.selection_set is Some
    }

    open spec fn spec_can_expand(&self) -> bool {
        false
    }

    fn format_collapsed<W: Write>(&self, formatter: &mut Formatter<W>) -> (r: Result<(), Error>) {
        format_field_collapsed(self, formatter)
    }

    fn format_expanded<W: Write>(&self, formatter: &mut Formatter<W>) -> (r: Result<(), Error>) {
        format_field_collapsed(self, formatter)
    }

    fn expands(&self) -> (b: bool) {
        self.alias.is_some() || self.selection_set.is_some()
    }

    fn can_expand(&self) -> (b: bool) {
        false
    }
}

impl Format for InlineFragment {
    open spec fn collapsed(&self, sh: Shape) -> (Writes, Shape) {
        inline_fragment_collapsed(*self, sh)
    }

    open spec fn expanded(&self, sh: Shape) -> (Writes, Shape) {
        inline_fragment_collapsed(*self, sh)
    }

    open spec fn spec_expands(&self) -> bool {
        true
    }

    open spec fn spec_can_expand(&self) -> bool {
        false
    }

    fn format_collapsed<W: Write>(&self, formatter: &mut Formatter<W>) -> (r: Result<(), Error>) {
        format_inline_fragment_collapsed(self, formatter)
    }

    fn format_expanded<W: Write>(&self, formatter: &mut Formatter<W>) -> (r: Result<(), Error>) {
        format_inline_fragment_collapsed(self, formatter)
    }

    fn expands(&self) -> (b: bool) {
        true
    }

    fn can_expand(&self) -> (b: bool) {
        false
    }
}

} // verus!
