use vstd::prelude::*;

use crate::ast::context::node_of;

use crate::ast::types::{ListType, NonNullType, Recoverable, Type};

use super::types::formatted;
use super::types::{lemma_fails_then, lemma_squeezed, lemma_step_on};
use super::types::{nothing, squeezed, steps, then};
use super::types::{Error, Format, Formatter, Shape, Write, Writes};

verus! {

/// A list type: the type it holds in brackets, with no space inside them.
pub open spec fn list_type_collapsed(n: ListType, sh: Shape) -> (Writes, Shape)
    decreases n, 0nat,
{
    let s1 = formatted(&n.brackets.0, sh);
    let s2 = squeezed(s1.1, match n.ty { Recoverable::Present(x) => type_collapsed(*x.0, s1.1.with_whitespace(true)), Recoverable::Missing(_) => nothing(s1.1.with_whitespace(true)) });
    let s3 = squeezed(s2.1, formatted(&n.brackets.1, s2.1.with_whitespace(true)));
    then(then(s1, s2), s3)
}

fn format_list_type_collapsed<W: Write>(n: &ListType, formatter: &mut Formatter<W>) -> (r: Result<(), Error>)
    ensures
        final(formatter).outcome(r) == steps::<W>(old(formatter).model(), list_type_collapsed(*n, old(formatter).shape())),
    decreases n, 0nat,
{
    let ghost node = *n;
    let ghost m0 = formatter.model();
    let ghost sh0 = formatter.shape();
    let ghost s1 = formatted(&node.brackets.0, sh0);
    let ghost s2 = squeezed(s1.1, match node.ty { Recoverable::Present(x) => type_collapsed(node_of(x), s1.1.with_whitespace(true)), Recoverable::Missing(_) => nothing(s1.1.with_whitespace(true)) });
    let ghost s3 = squeezed(s2.1, formatted(&node.brackets.1, s2.1.with_whitespace(true)));
    let ghost a1 = s1;
    let ghost a2 = then(a1, s2);
    let ghost a3 = then(a2, s3);
    assert(list_type_collapsed(*n, sh0) == a3);
    let r = n.brackets.0.format(formatter);
    if r.is_err() {
        proof {
            lemma_fails_then::<W>(m0, a1, s2);
            lemma_fails_then::<W>(m0, a2, s3);
        }
        return r;
    }
    proof {
        lemma_step_on::<W>(m0, a1, s2);
    }
    let r = {
        let ghost mq1 = formatter.model();
        let ghost shq2 = formatter.shape();
        let ws = formatter.begin_squeeze();
        let r = match &n.ty {
            Recoverable::Present(x) => format_type_collapsed(&*x.0, formatter),
            Recoverable::Missing(_) => Ok(()),
        };
        formatter.end_squeeze(ws);
        proof {
            lemma_squeezed::<W>(mq1, shq2, match node.ty { Recoverable::Present(x) => type_collapsed(node_of(x), shq2.with_whitespace(true)), Recoverable::Missing(_) => nothing(shq2.with_whitespace(true)) });
        }
        r
    };
    if r.is_err() {
        proof {
            lemma_fails_then::<W>(m0, a2, s3);
        }
        return r;
    }
    proof {
        lemma_step_on::<W>(m0, a2, s3);
    }
    {
        let ghost mq3 = formatter.model();
        let ghost shq4 = formatter.shape();
        let ws = formatter.begin_squeeze();
        let r = n.brackets.1.format(formatter);
        formatter.end_squeeze(ws);
        proof {
            lemma_squeezed::<W>(mq3, shq4, formatted(&node.brackets.1, shq4.with_whitespace(true)));
        }
        r
    }
}

/// A non-null type: the type it wraps, then a bang with no space before it.
pub open spec fn non_null_type_collapsed(n: NonNullType, sh: Shape) -> (Writes, Shape)
    decreases n, 0nat,
{
    let s1 = type_collapsed(*n.ty.0, sh);
    let s2 = squeezed(s1.1, formatted(&n.bang, s1.1.with_whitespace(true)));
    then(s1, s2)
}

fn format_non_null_type_collapsed<W: Write>(n: &NonNullType, formatter: &mut Formatter<W>) -> (r: Result<(), Error>)
    ensures
        final(formatter).outcome(r) == steps::<W>(old(formatter).model(), non_null_type_collapsed(*n, old(formatter).shape())),
    decreases n, 0nat,
{
    let ghost node = *n;
    let ghost m0 = formatter.model();
    let ghost sh0 = formatter.shape();
    let ghost s1 = type_collapsed(node_of(node.ty), sh0);
    let ghost s2 = squeezed(s1.1, formatted(&node.bang, s1.1.with_whitespace(true)));
    let ghost a1 = s1;
    let ghost a2 = then(a1, s2);
    assert(non_null_type_collapsed(*n, sh0) == a2);
    let r = format_type_collapsed(&*n.ty.0, formatter);
    if r.is_err() {
        proof {
            lemma_fails_then::<W>(m0, a1, s2);
        }
        return r;
    }
    proof {
        lemma_step_on::<W>(m0, a1, s2);
    }
    {
        let ghost mq5 = formatter.model();
        let ghost shq6 = formatter.shape();
        let ws = formatter.begin_squeeze();
        let r = n.bang.format(formatter);
        formatter.end_squeeze(ws);
        proof {
            lemma_squeezed::<W>(mq5, shq6, formatted(&node.bang, shq6.with_whitespace(true)));
        }
        r
    }
}

/// How a type is laid out: as the kind of type it is. No type is ever
/// broken over lines.
pub open spec fn type_collapsed(t: Type, sh: Shape) -> (Writes, Shape)
    decreases t, 1nat,
{
    match t {
        Type::Named(x) => x.collapsed(sh),
        Type::List(x) => list_type_collapsed(x, sh),
        Type::NonNull(x) => non_null_type_collapsed(x, sh),
    }
}

fn format_type_collapsed<W: Write>(t: &Type, formatter: &mut Formatter<W>) -> (r: Result<(), Error>)
    ensures
        final(formatter).outcome(r) == steps::<W>(old(formatter).model(), type_collapsed(*t, old(formatter).shape())),
    decreases t, 1nat,
{
    match t {
        Type::Named(x) => x.format_collapsed(formatter),
        Type::List(x) => format_list_type_collapsed(x, formatter),
        Type::NonNull(x) => format_non_null_type_collapsed(x, formatter),
    }
}

/// A type is laid out as the kind of type it is, on one line.
impl Format for Type {
    open spec fn collapsed(&self, sh: Shape) -> (Writes, Shape) {
        type_collapsed(*self, sh)
    }

    open spec fn expanded(&self, sh: Shape) -> (Writes, Shape) {
        type_collapsed(*self, sh)
    }

    open spec fn spec_expands(&self) -> bool {
        false
    }

    open spec fn spec_can_expand(&self) -> bool {
        false
    }

    fn format_collapsed<W: Write>(&self, formatter: &mut Formatter<W>) -> (r: Result<(), Error>) {
        format_type_collapsed(self, formatter)
    }

    fn format_expanded<W: Write>(&self, formatter: &mut Formatter<W>) -> (r: Result<(), Error>) {
        format_type_collapsed(self, formatter)
    }

    fn expands(&self) -> (b: bool) {
        false
    }

    fn can_expand(&self) -> (b: bool) {
        false
    }
}

impl Format for ListType {
    open spec fn collapsed(&self, sh: Shape) -> (Writes, Shape) {
        list_type_collapsed(*self, sh)
    }

    open spec fn expanded(&self, sh: Shape) -> (Writes, Shape) {
        list_type_collapsed(*self, sh)
    }

    open spec fn spec_expands(&self) -> bool {
        false
    }

    open spec fn spec_can_expand(&self) -> bool {
        false
    }

    fn format_collapsed<W: Write>(&self, formatter: &mut Formatter<W>) -> (r: Result<(), Error>) {
        format_list_type_collapsed(self, formatter)
    }

    fn format_expanded<W: Write>(&self, formatter: &mut Formatter<W>) -> (r: Result<(), Error>) {
        format_list_type_collapsed(self, formatter)
    }

    fn expands(&self) -> (b: bool) {
        false
    }

    fn can_expand(&self) -> (b: bool) {
        false
    }
}

impl Format for NonNullType {
    open spec fn collapsed(&self, sh: Shape) -> (Writes, Shape) {
        non_null_type_collapsed(*self, sh)
    }

    open spec fn expanded(&self, sh: Shape) -> (Writes, Shape) {
        non_null_type_collapsed(*self, sh)
    }

    open spec fn spec_expands(&self) -> bool {
        false
    }

    open spec fn spec_can_expand(&self) -> bool {
        false
    }

    fn format_collapsed<W: Write>(&self, formatter: &mut Formatter<W>) -> (r: Result<(), Error>) {
        format_non_null_type_collapsed(self, formatter)
    }

    fn format_expanded<W: Write>(&self, formatter: &mut Formatter<W>) -> (r: Result<(), Error>) {
        format_non_null_type_collapsed(self, formatter)
    }

    fn expands(&self) -> (b: bool) {
        false
    }

    fn can_expand(&self) -> (b: bool) {
        false
    }
}

} // verus!
