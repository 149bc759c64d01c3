use vstd::prelude::*;

use crate::ast::context::Shared;
use crate::ast::types::Recoverable;

use super::types::{formatted, nothing, then, Error, Format, Formatter, Shape, Write, Writes};
use super::types::{lemma_fails_then, lemma_step_on};

verus! {

/// An optional node is laid out as the node, when there is one.
impl<T: Format> Format for Option<T> {
    open spec fn collapsed(&self, sh: Shape) -> (Writes, Shape) {
        match self {
            Some(node) => node.collapsed(sh),
            None => nothing(sh),
        }
    }

    open spec fn expanded(&self, sh: Shape) -> (Writes, Shape) {
        match self {
            Some(node) => node.expanded(sh),
            None => nothing(sh),
        }
    }

    open spec fn spec_expands(&self) -> bool {
        match self {
            Some(node) => node.spec_expands(),
            None => false,
        }
    }

    open spec fn spec_can_expand(&self) -> bool {
        match self {
            Some(node) => node.spec_can_expand(),
            None => false,
        }
    }

    fn format_collapsed<W: Write>(&self, formatter: &mut Formatter<W>) -> (r: Result<(), Error>) {
        match self {
            Some(node) => node.format_collapsed(formatter),
            None => Ok(()),
        }
    }

    fn format_expanded<W: Write>(&self, formatter: &mut Formatter<W>) -> (r: Result<(), Error>) {
        match self {
            Some(node) => node.format_expanded(formatter),
            None => Ok(()),
        }
    }

    fn expands(&self) -> (b: bool) {
        match self {
            Some(node) => node.expands(),
            None => false,
        }
    }

    fn can_expand(&self) -> (b: bool) {
        match self {
            Some(node) => node.can_expand(),
            None => false,
        }
    }
}

/// A node that may be missing is laid out as the node, when it is there.
impl<T: Format> Format for Recoverable<T> {
    open spec fn collapsed(&self, sh: Shape) -> (Writes, Shape) {
        match self {
            Recoverable::Present(node) => node.collapsed(sh),
            Recoverable::Missing(_) => nothing(sh),
        }
    }

    open spec fn expanded(&self, sh: Shape) -> (Writes, Shape) {
        match self {
            Recoverable::Present(node) => node.expanded(sh),
            Recoverable::Missing(_) => nothing(sh),
        }
    }

    open spec fn spec_expands(&self) -> bool {
        match self {
            Recoverable::Present(node) => node.spec_expands(),
            Recoverable::Missing(_) => false,
        }
    }

    open spec fn spec_can_expand(&self) -> bool {
        match self {
            Recoverable::Present(node) => node.spec_can_expand(),
            Recoverable::Missing(_) => false,
        }
    }

    fn format_collapsed<W: Write>(&self, formatter: &mut Formatter<W>) -> (r: Result<(), Error>) {
        match self {
            Recoverable::Present(node) => node.format_collapsed(formatter),
            Recoverable::Missing(_) => Ok(()),
        }
    }

    fn format_expanded<W: Write>(&self, formatter: &mut Formatter<W>) -> (r: Result<(), Error>) {
        match self {
            Recoverable::Present(node) => node.format_expanded(formatter),
            Recoverable::Missing(_) => Ok(()),
        }
    }

    fn expands(&self) -> (b: bool) {
        match self {
            Recoverable::Present(node) => node.expands(),
            Recoverable::Missing(_) => false,
        }
    }

    fn can_expand(&self) -> (b: bool) {
        match self {
            Recoverable::Present(node) => node.can_expand(),
            Recoverable::Missing(_) => false,
        }
    }
}

/// A shared node is laid out as the node it holds.
impl<T: Format> Format for Shared<T> {
    open spec fn collapsed(&self, sh: Shape) -> (Writes, Shape) {
        (*self.0).collapsed(sh)
    }

    open spec fn expanded(&self, sh: Shape) -> (Writes, Shape) {
        (*self.0).expanded(sh)
    }

    open spec fn spec_expands(&self) -> bool {
        (*self.0).spec_expands()
    }

    open spec fn spec_can_expand(&self) -> bool {
        (*self.0).spec_can_expand()
    }

    fn format_collapsed<W: Write>(&self, formatter: &mut Formatter<W>) -> (r: Result<(), Error>) {
        (*self.0).format_collapsed(formatter)
    }

    fn format_expanded<W: Write>(&self, formatter: &mut Formatter<W>) -> (r: Result<(), Error>) {
        (*self.0).format_expanded(formatter)
    }

    fn expands(&self) -> (b: bool) {
        (*self.0).expands()
    }

    fn can_expand(&self) -> (b: bool) {
        (*self.0).can_expand()
    }
}

/// A pair of nodes is laid out as the one, then the other.
impl<A: Format, B: Format> Format for (A, B) {
    open spec fn collapsed(&self, sh: Shape) -> (Writes, Shape) {
        let first = formatted(&self.0, sh);
        then(first, formatted(&self.1, first.1))
    }

    open spec fn expanded(&self, sh: Shape) -> (Writes, Shape) {
        self.collapsed(sh)
    }

    open spec fn spec_expands(&self) -> bool {
        false
    }

    open spec fn spec_can_expand(&self) -> bool {
        false
    }

    fn format_collapsed<W: Write>(&self, formatter: &mut Formatter<W>) -> (r: Result<(), Error>) {
        let ghost m0 = formatter.model();
        let ghost first = formatted(&self.0, formatter.shape());
        let ghost second = formatted(&self.1, first.1);
        let r = self.0.format(formatter);
        if r.is_err() {
            proof {
                lemma_fails_then::<W>(m0, first, second);
            }
            return r;
        }
        proof {
            lemma_step_on::<W>(m0, first, second);
        }
        self.1.format(formatter)
    }

    fn format_expanded<W: Write>(&self, formatter: &mut Formatter<W>) -> (r: Result<(), Error>) {
        self.format_collapsed(formatter)
    }

    fn expands(&self) -> (b: bool) {
        false
    }

    fn can_expand(&self) -> (b: bool) {
        false
    }
}

} // verus!
