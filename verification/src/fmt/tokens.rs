use vstd::prelude::*;

use crate::lex::token::{FloatValue, IntValue, Name, Punctuator, StringValue};

use super::types::{push_step, Error, Format, Formatter, Shape, Write, Writes};

verus! {

/// A token is laid out as its source text.
impl Format for Name {
    open spec fn collapsed(&self, sh: Shape) -> (Writes, Shape) {
        push_step(sh, self.0.source@)
    }

    open spec fn expanded(&self, sh: Shape) -> (Writes, Shape) {
        push_step(sh, self.0.source@)
    }

    open spec fn spec_expands(&self) -> bool {
        false
    }

    open spec fn spec_can_expand(&self) -> bool {
        false
    }

    fn format_collapsed<W: Write>(&self, formatter: &mut Formatter<W>) -> (r: Result<(), Error>) {
        formatter.push(self.0.source.as_str())
    }

    fn format_expanded<W: Write>(&self, formatter: &mut Formatter<W>) -> (r: Result<(), Error>) {
        formatter.push(self.0.source.as_str())
    }

    fn expands(&self) -> (b: bool) {
        false
    }

    fn can_expand(&self) -> (b: bool) {
        false
    }

}

/// A token is laid out as its source text.
impl Format for Punctuator {
    open spec fn collapsed(&self, sh: Shape) -> (Writes, Shape) {
        push_step(sh, self.0.source@)
    }

    open spec fn expanded(&self, sh: Shape) -> (Writes, Shape) {
        push_step(sh, self.0.source@)
    }

    open spec fn spec_expands(&self) -> bool {
        false
    }

    open spec fn spec_can_expand(&self) -> bool {
        false
    }

    fn format_collapsed<W: Write>(&self, formatter: &mut Formatter<W>) -> (r: Result<(), Error>) {
        formatter.push(self.0.source.as_str())
    }

    fn format_expanded<W: Write>(&self, formatter: &mut Formatter<W>) -> (r: Result<(), Error>) {
        formatter.push(self.0.source.as_str())
    }

    fn expands(&self) -> (b: bool) {
        false
    }

    fn can_expand(&self) -> (b: bool) {
        false
    }

}

/// A token is laid out as its source text.
impl Format for IntValue {
    open spec fn collapsed(&self, sh: Shape) -> (Writes, Shape) {
        push_step(sh, self.0.source@)
    }

    open spec fn expanded(&self, sh: Shape) -> (Writes, Shape) {
        push_step(sh, self.0.source@)
    }

    open spec fn spec_expands(&self) -> bool {
        false
    }

    open spec fn spec_can_expand(&self) -> bool {
        false
    }

    fn format_collapsed<W: Write>(&self, formatter: &mut Formatter<W>) -> (r: Result<(), Error>) {
        formatter.push(self.0.source.as_str())
    }

    fn format_expanded<W: Write>(&self, formatter: &mut Formatter<W>) -> (r: Result<(), Error>) {
        formatter.push(self.0.source.as_str())
    }

    fn expands(&self) -> (b: bool) {
        false
    }

    fn can_expand(&self) -> (b: bool) {
        false
    }

}

/// A token is laid out as its source text.
impl Format for FloatValue {
    open spec fn collapsed(&self, sh: Shape) -> (Writes, Shape) {
        push_step(sh, self.0.source@)
    }

    open spec fn expanded(&self, sh: Shape) -> (Writes, Shape) {
        push_step(sh, self.0.source@)
    }

    open spec fn spec_expands(&self) -> bool {
        false
    }

    open spec fn spec_can_expand(&self) -> bool {
        false
    }

    fn format_collapsed<W: Write>(&self, formatter: &mut Formatter<W>) -> (r: Result<(), Error>) {
        formatter.push(self.0.source.as_str())
    }

    fn format_expanded<W: Write>(&self, formatter: &mut Formatter<W>) -> (r: Result<(), Error>) {
        formatter.push(self.0.source.as_str())
    }

    fn expands(&self) -> (b: bool) {
        false
    }

    fn can_expand(&self) -> (b: bool) {
        false
    }

}

/// A token is laid out as its source text.
impl Format for StringValue {
    open spec fn collapsed(&self, sh: Shape) -> (Writes, Shape) {
        push_step(sh, self.0.source@)
    }

    open spec fn expanded(&self, sh: Shape) -> (Writes, Shape) {
        push_step(sh, self.0.source@)
    }

    open spec fn spec_expands(&self) -> bool {
        false
    }

    open spec fn spec_can_expand(&self) -> bool {
        false
    }

    fn format_collapsed<W: Write>(&self, formatter: &mut Formatter<W>) -> (r: Result<(), Error>) {
        formatter.push(self.0.source.as_str())
    }

    fn format_expanded<W: Write>(&self, formatter: &mut Formatter<W>) -> (r: Result<(), Error>) {
        formatter.push(self.0.source.as_str())
    }

    fn expands(&self) -> (b: bool) {
        false
    }

    fn can_expand(&self) -> (b: bool) {
        false
    }

}

} // verus!
