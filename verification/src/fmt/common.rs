use vstd::prelude::*;

use crate::ast::context::Shared;
use crate::ast::types::{Argument, Arguments, BooleanValue, Definition, Directive, Directives, Document, EnumValue, NamedType, NullValue, OperationType, Variable};

use super::types::{any_expands, fold, formatted, indent_close_step, indent_open_step, indented};
use super::types::{each_item, line_comma_item, line_item, page_item};
use super::types::{lemma_fails_then, lemma_squeezed, lemma_step_on, squeezed, then};
use super::types::{Error, Format, Formatter, Shape, Write, Writes};

verus! {

/// Definitions are laid out one after another, a blank line between each two.
impl Format for Document {
    open spec fn collapsed(&self, sh: Shape) -> (Writes, Shape) {
        let s1 = fold(self.definitions.0@, sh, page_item::<Shared<Definition>>());
        s1
    }

    open spec fn expanded(&self, sh: Shape) -> (Writes, Shape) {
        self.collapsed(sh)
    }

    open spec fn spec_expands(&self) -> bool {
        false
    }

    open spec fn spec_can_expand(&self) -> bool {
        false
    }

    fn format_collapsed<W: Write>(&self, formatter: &mut Formatter<W>) -> (r: Result<(), Error>) {
        formatter.each_page(self.definitions.0.as_slice())
    }

    fn format_expanded<W: Write>(&self, formatter: &mut Formatter<W>) -> (r: Result<(), Error>) {
        self.format_collapsed(formatter)
    }

    fn expands(&self) -> (b: bool) {
        false
    }

    fn can_expand(&self) -> (b: bool) {
        false
    }
}

/// Each kind is laid out as the node it holds.
impl Format for Definition {
    open spec fn collapsed(&self, sh: Shape) -> (Writes, Shape) {
        match self {
            Definition::ExecutableDefinition(node) => node.collapsed(sh),
            Definition::TypeSystemDefinitionOrExtension(node) => node.collapsed(sh),
        }
    }

    open spec fn expanded(&self, sh: Shape) -> (Writes, Shape) {
        match self {
            Definition::ExecutableDefinition(node) => node.expanded(sh),
            Definition::TypeSystemDefinitionOrExtension(node) => node.expanded(sh),
        }
    }

    open spec fn spec_expands(&self) -> bool {
        match self {
            Definition::ExecutableDefinition(node) => node.spec_expands(),
            Definition::TypeSystemDefinitionOrExtension(node) => node.spec_expands(),
        }
    }

    open spec fn spec_can_expand(&self) -> bool {
        match self {
            Definition::ExecutableDefinition(node) => node.spec_can_expand(),
            Definition::TypeSystemDefinitionOrExtension(node) => node.spec_can_expand(),
        }
    }

    fn format_collapsed<W: Write>(&self, formatter: &mut Formatter<W>) -> (r: Result<(), Error>) {
        match self {
            Definition::ExecutableDefinition(node) => node.format_collapsed(formatter),
            Definition::TypeSystemDefinitionOrExtension(node) => node.format_collapsed(formatter),
        }
    }

    fn format_expanded<W: Write>(&self, formatter: &mut Formatter<W>) -> (r: Result<(), Error>) {
        match self {
            Definition::ExecutableDefinition(node) => node.format_expanded(formatter),
            Definition::TypeSystemDefinitionOrExtension(node) => node.format_expanded(formatter),
        }
    }

    fn expands(&self) -> (b: bool) {
        match self {
            Definition::ExecutableDefinition(node) => node.expands(),
            Definition::TypeSystemDefinitionOrExtension(node) => node.expands(),
        }
    }

    fn can_expand(&self) -> (b: bool) {
        match self {
            Definition::ExecutableDefinition(node) => node.can_expand(),
            Definition::TypeSystemDefinitionOrExtension(node) => node.can_expand(),
        }
    }
}

/// Each kind is laid out as the node it holds.
impl Format for OperationType {
    open spec fn collapsed(&self, sh: Shape) -> (Writes, Shape) {
        match self {
            OperationType::Query(node) => node.collapsed(sh),
            OperationType::Mutation(node) => node.collapsed(sh),
            OperationType::Subscription(node) => node.collapsed(sh),
        }
    }

    open spec fn expanded(&self, sh: Shape) -> (Writes, Shape) {
        match self {
            OperationType::Query(node) => node.expanded(sh),
            OperationType::Mutation(node) => node.expanded(sh),
            OperationType::Subscription(node) => node.expanded(sh),
        }
    }

    open spec fn spec_expands(&self) -> bool {
        match self {
            OperationType::Query(node) => node.spec_expands(),
            OperationType::Mutation(node) => node.spec_expands(),
            OperationType::Subscription(node) => node.spec_expands(),
        }
    }

    open spec fn spec_can_expand(&self) -> bool {
        match self {
            OperationType::Query(node) => node.spec_can_expand(),
            OperationType::Mutation(node) => node.spec_can_expand(),
            OperationType::Subscription(node) => node.spec_can_expand(),
        }
    }

    fn format_collapsed<W: Write>(&self, formatter: &mut Formatter<W>) -> (r: Result<(), Error>) {
        match self {
            OperationType::Query(node) => node.format_collapsed(formatter),
            OperationType::Mutation(node) => node.format_collapsed(formatter),
            OperationType::Subscription(node) => node.format_collapsed(formatter),
        }
    }

    fn format_expanded<W: Write>(&self, formatter: &mut Formatter<W>) -> (r: Result<(), Error>) {
        match self {
            OperationType::Query(node) => node.format_expanded(formatter),
            OperationType::Mutation(node) => node.format_expanded(formatter),
            OperationType::Subscription(node) => node.format_expanded(formatter),
        }
    }

    fn expands(&self) -> (b: bool) {
        match self {
            OperationType::Query(node) => node.expands(),
            OperationType::Mutation(node) => node.expands(),
            OperationType::Subscription(node) => node.expands(),
        }
    }

    fn can_expand(&self) -> (b: bool) {
        match self {
            OperationType::Query(node) => node.can_expand(),
            OperationType::Mutation(node) => node.can_expand(),
            OperationType::Subscription(node) => node.can_expand(),
        }
    }
}

/// Arguments are laid out in parentheses, separated by commas, or one per line when broken up.
impl Format for Arguments {
    open spec fn collapsed(&self, sh: Shape) -> (Writes, Shape) {
        let s1 = formatted(&self.parens.0, sh);
        let s2 = squeezed(s1.1, fold(self.items.0@, s1.1.with_whitespace(true), each_item::<Shared<Argument>>()));
        let s3 = squeezed(s2.1, formatted(&self.parens.1, s2.1.with_whitespace(true)));
        then(then(s1, s2), s3)
    }

    open spec fn expanded(&self, sh: Shape) -> (Writes, Shape) {
        let s1 = formatted(&self.parens.0, sh);
        let s2 = indented(s1.1, fold(self.items.0@, indent_open_step(s1.1).1, line_comma_item::<Shared<Argument>>()));
        let s3 = squeezed(s2.1, formatted(&self.parens.1, s2.1.with_whitespace(true)));
        then(then(s1, s2), s3)
    }

    open spec fn spec_expands(&self) -> bool {
        exists|i: int| 0 <= i < self.items.0@.len() && #[trigger] self.items.0@[i].spec_expands()
    }

    open spec fn spec_can_expand(&self) -> bool {
        true
    }

    fn format_collapsed<W: Write>(&self, formatter: &mut Formatter<W>) -> (r: Result<(), Error>) {
        let ghost node = *self;
        let ghost m0 = formatter.model();
        let ghost sh0 = formatter.shape();
        let ghost s1 = formatted(&node.parens.0, sh0);
        let ghost s2 = squeezed(s1.1, fold(node.items.0@, s1.1.with_whitespace(true), each_item::<Shared<Argument>>()));
        let ghost s3 = squeezed(s2.1, formatted(&node.parens.1, s2.1.with_whitespace(true)));
        let ghost a1 = s1;
        let ghost a2 = then(a1, s2);
        let ghost a3 = then(a2, s3);
        assert(self.collapsed(sh0) == a3);
        let r = self.parens.0.format(formatter);
        if r.is_err() {
            proof {
                lemma_fails_then::<W>(m0, a1, s2);
                lemma_fails_then::<W>(m0, a2, s3);
            }
            return r;
        }
        proof {
            lemma_step_on::<W>(m0, a1, s2);
        }
        let r = {
            let ghost mq1 = formatter.model();
            let ghost shq2 = formatter.shape();
            let ws = formatter.begin_squeeze();
            let r = formatter.each(self.items.0.as_slice());
            formatter.end_squeeze(ws);
            proof {
                lemma_squeezed::<W>(mq1, shq2, fold(node.items.0@, shq2.with_whitespace(true), each_item::<Shared<Argument>>()));
            }
            r
        };
        if r.is_err() {
            proof {
                lemma_fails_then::<W>(m0, a2, s3);
            }
            return r;
        }
        proof {
            lemma_step_on::<W>(m0, a2, s3);
        }
        {
            let ghost mq3 = formatter.model();
            let ghost shq4 = formatter.shape();
            let ws = formatter.begin_squeeze();
            let r = self.parens.1.format(formatter);
            formatter.end_squeeze(ws);
            proof {
                lemma_squeezed::<W>(mq3, shq4, formatted(&node.parens.1, shq4.with_whitespace(true)));
            }
            r
        }
    }

    fn format_expanded<W: Write>(&self, formatter: &mut Formatter<W>) -> (r: Result<(), Error>) {
        let ghost node = *self;
        let ghost m0 = formatter.model();
        let ghost sh0 = formatter.shape();
        let ghost s1 = formatted(&node.parens.0, sh0);
        let ghost s2 = indented(s1.1, fold(node.items.0@, indent_open_step(s1.1).1, line_comma_item::<Shared<Argument>>()));
        let ghost s3 = squeezed(s2.1, formatted(&node.parens.1, s2.1.with_whitespace(true)));
        let ghost a1 = s1;
        let ghost a2 = then(a1, s2);
        let ghost a3 = then(a2, s3);
        assert(self.expanded(sh0) == a3);
        let r = self.parens.0.format(formatter);
        if r.is_err() {
            proof {
                lemma_fails_then::<W>(m0, a1, s2);
                lemma_fails_then::<W>(m0, a2, s3);
            }
            return r;
        }
        proof {
            lemma_step_on::<W>(m0, a1, s2);
        }
        let r = {
            let ghost mi5 = formatter.model();
            let ghost shi6 = formatter.shape();
            let ghost open7 = indent_open_step(shi6);
            let ghost body8 = fold(node.items.0@, indent_open_step(shi6).1, line_comma_item::<Shared<Argument>>());
            let ghost close9 = indent_close_step(body8.1);
            let r = formatter.open_indent();
            if r.is_err() {
                proof {
                    lemma_fails_then::<W>(mi5, open7, body8);
                    lemma_fails_then::<W>(mi5, then(open7, body8), close9);
                }
                r
            } else {
                proof {
                    lemma_step_on::<W>(mi5, open7, body8);
                }
                let r = formatter.each_line_comma(self.items.0.as_slice());
                if r.is_err() {
                    proof {
                        lemma_fails_then::<W>(mi5, then(open7, body8), close9);
                    }
                    r
                } else {
                    proof {
                        lemma_step_on::<W>(mi5, then(open7, body8), close9);
                    }
                    formatter.close_indent()
                }
            }
        };
        if r.is_err() {
            proof {
                lemma_fails_then::<W>(m0, a2, s3);
            }
            return r;
        }
        proof {
            lemma_step_on::<W>(m0, a2, s3);
        }
        {
            let ghost mq10 = formatter.model();
            let ghost shq11 = formatter.shape();
            let ws = formatter.begin_squeeze();
            let r = self.parens.1.format(formatter);
            formatter.end_squeeze(ws);
            proof {
                lemma_squeezed::<W>(mq10, shq11, formatted(&node.parens.1, shq11.with_whitespace(true)));
            }
            r
        }
    }

    fn expands(&self) -> (b: bool) {
        any_expands(self.items.0.as_slice())
    }

    fn can_expand(&self) -> (b: bool) {
        true
    }
}

impl Format for Argument {
    open spec fn collapsed(&self, sh: Shape) -> (Writes, Shape) {
        let s1 = formatted(&self.name, sh);
        let s2 = squeezed(s1.1, formatted(&self.colon, s1.1.with_whitespace(true)));
        let s3 = formatted(&self.value, s2.1);
        then(then(s1, s2), s3)
    }

    open spec fn expanded(&self, sh: Shape) -> (Writes, Shape) {
        self.collapsed(sh)
    }

    open spec fn spec_expands(&self) -> bool {
        self.value.spec_expands()
    }

    open spec fn spec_can_expand(&self) -> bool {
        false
    }

    fn format_collapsed<W: Write>(&self, formatter: &mut Formatter<W>) -> (r: Result<(), Error>) {
        let ghost node = *self;
        let ghost m0 = formatter.model();
        let ghost sh0 = formatter.shape();
        let ghost s1 = formatted(&node.name, sh0);
        let ghost s2 = squeezed(s1.1, formatted(&node.colon, s1.1.with_whitespace(true)));
        let ghost s3 = formatted(&node.value, s2.1);
        let ghost a1 = s1;
        let ghost a2 = then(a1, s2);
        let ghost a3 = then(a2, s3);
        assert(self.collapsed(sh0) == a3);
        let r = self.name.format(formatter);
        if r.is_err() {
            proof {
                lemma_fails_then::<W>(m0, a1, s2);
                lemma_fails_then::<W>(m0, a2, s3);
            }
            return r;
        }
        proof {
            lemma_step_on::<W>(m0, a1, s2);
        }
        let r = {
            let ghost mq12 = formatter.model();
            let ghost shq13 = formatter.shape();
            let ws = formatter.begin_squeeze();
            let r = self.colon.format(formatter);
            formatter.end_squeeze(ws);
            proof {
                lemma_squeezed::<W>(mq12, shq13, formatted(&node.colon, shq13.with_whitespace(true)));
            }
            r
        };
        if r.is_err() {
            proof {
                lemma_fails_then::<W>(m0, a2, s3);
            }
            return r;
        }
        proof {
            lemma_step_on::<W>(m0, a2, s3);
        }
        self.value.format(formatter)
    }

    fn format_expanded<W: Write>(&self, formatter: &mut Formatter<W>) -> (r: Result<(), Error>) {
        self.format_collapsed(formatter)
    }

    fn expands(&self) -> (b: bool) {
        self.value.expands()
    }

    fn can_expand(&self) -> (b: bool) {
        false
    }
}

/// Each kind is laid out as the node it holds.
impl Format for BooleanValue {
    open spec fn collapsed(&self, sh: Shape) -> (Writes, Shape) {
        match self {
            BooleanValue::True(node) => node.collapsed(sh),
            BooleanValue::False(node) => node.collapsed(sh),
        }
    }

    open spec fn expanded(&self, sh: Shape) -> (Writes, Shape) {
        match self {
            BooleanValue::True(node) => node.expanded(sh),
            BooleanValue::False(node) => node.expanded(sh),
        }
    }

    open spec fn spec_expands(&self) -> bool {
        match self {
            BooleanValue::True(node) => node.spec_expands(),
            BooleanValue::False(node) => node.spec_expands(),
        }
    }

    open spec fn spec_can_expand(&self) -> bool {
        match self {
            BooleanValue::True(node) => node.spec_can_expand(),
            BooleanValue::False(node) => node.spec_can_expand(),
        }
    }

    fn format_collapsed<W: Write>(&self, formatter: &mut Formatter<W>) -> (r: Result<(), Error>) {
        match self {
            BooleanValue::True(node) => node.format_collapsed(formatter),
            BooleanValue::False(node) => node.format_collapsed(formatter),
        }
    }

    fn format_expanded<W: Write>(&self, formatter: &mut Formatter<W>) -> (r: Result<(), Error>) {
        match self {
            BooleanValue::True(node) => node.format_expanded(formatter),
            BooleanValue::False(node) => node.format_expanded(formatter),
        }
    }

    fn expands(&self) -> (b: bool) {
        match self {
            BooleanValue::True(node) => node.expands(),
            BooleanValue::False(node) => node.expands(),
        }
    }

    fn can_expand(&self) -> (b: bool) {
        match self {
            BooleanValue::True(node) => node.can_expand(),
            BooleanValue::False(node) => node.can_expand(),
        }
    }
}

/// Laid out as the node it wraps.
impl Format for NullValue {
    open spec fn collapsed(&self, sh: Shape) -> (Writes, Shape) {
        let s1 = formatted(&self.0, sh);
        s1
    }

    open spec fn expanded(&self, sh: Shape) -> (Writes, Shape) {
        self.collapsed(sh)
    }

    open spec fn spec_expands(&self) -> bool {
        false
    }

    open spec fn spec_can_expand(&self) -> bool {
        false
    }

    fn format_collapsed<W: Write>(&self, formatter: &mut Formatter<W>) -> (r: Result<(), Error>) {
        self.0.format(formatter)
    }

    fn format_expanded<W: Write>(&self, formatter: &mut Formatter<W>) -> (r: Result<(), Error>) {
        self.format_collapsed(formatter)
    }

    fn expands(&self) -> (b: bool) {
        false
    }

    fn can_expand(&self) -> (b: bool) {
        false
    }
}

/// Laid out as the node it wraps.
impl Format for EnumValue {
    open spec fn collapsed(&self, sh: Shape) -> (Writes, Shape) {
        let s1 = formatted(&self.0, sh);
        s1
    }

    open spec fn expanded(&self, sh: Shape) -> (Writes, Shape) {
        self.collapsed(sh)
    }

    open spec fn spec_expands(&self) -> bool {
        false
    }

    open spec fn spec_can_expand(&self) -> bool {
        false
    }

    fn format_collapsed<W: Write>(&self, formatter: &mut Formatter<W>) -> (r: Result<(), Error>) {
        self.0.format(formatter)
    }

    fn format_expanded<W: Write>(&self, formatter: &mut Formatter<W>) -> (r: Result<(), Error>) {
        self.format_collapsed(formatter)
    }

    fn expands(&self) -> (b: bool) {
        false
    }

    fn can_expand(&self) -> (b: bool) {
        false
    }
}

impl Format for Variable {
    open spec fn collapsed(&self, sh: Shape) -> (Writes, Shape) {
        let s1 = formatted(&self.dollar, sh);
        let s2 = squeezed(s1.1, formatted(&self.name, s1.1.with_whitespace(true)));
        then(s1, s2)
    }

    open spec fn expanded(&self, sh: Shape) -> (Writes, Shape) {
        self.collapsed(sh)
    }

    open spec fn spec_expands(&self) -> bool {
        false
    }

    open spec fn spec_can_expand(&self) -> bool {
        false
    }

    fn format_collapsed<W: Write>(&self, formatter: &mut Formatter<W>) -> (r: Result<(), Error>) {
        let ghost node = *self;
        let ghost m0 = formatter.model();
        let ghost sh0 = formatter.shape();
        let ghost s1 = formatted(&node.dollar, sh0);
        let ghost s2 = squeezed(s1.1, formatted(&node.name, s1.1.with_whitespace(true)));
        let ghost a1 = s1;
        let ghost a2 = then(a1, s2);
        assert(self.collapsed(sh0) == a2);
        let r = self.dollar.format(formatter);
        if r.is_err() {
            proof {
                lemma_fails_then::<W>(m0, a1, s2);
            }
            return r;
        }
        proof {
            lemma_step_on::<W>(m0, a1, s2);
        }
        {
            let ghost mq14 = formatter.model();
            let ghost shq15 = formatter.shape();
            let ws = formatter.begin_squeeze();
            let r = self.name.format(formatter);
            formatter.end_squeeze(ws);
            proof {
                lemma_squeezed::<W>(mq14, shq15, formatted(&node.name, shq15.with_whitespace(true)));
            }
            r
        }
    }

    fn format_expanded<W: Write>(&self, formatter: &mut Formatter<W>) -> (r: Result<(), Error>) {
        self.format_collapsed(formatter)
    }

    fn expands(&self) -> (b: bool) {
        false
    }

    fn can_expand(&self) -> (b: bool) {
        false
    }
}

/// Laid out as the node it wraps.
impl Format for NamedType {
    open spec fn collapsed(&self, sh: Shape) -> (Writes, Shape) {
        let s1 = formatted(&self.0, sh);
        s1
    }

    open spec fn expanded(&self, sh: Shape) -> (Writes, Shape) {
        self.collapsed(sh)
    }

    open spec fn spec_expands(&self) -> bool {
        false
    }

    open spec fn spec_can_expand(&self) -> bool {
        false
    }

    fn format_collapsed<W: Write>(&self, formatter: &mut Formatter<W>) -> (r: Result<(), Error>) {
        self.0.format(formatter)
    }

    fn format_expanded<W: Write>(&self, formatter: &mut Formatter<W>) -> (r: Result<(), Error>) {
        self.format_collapsed(formatter)
    }

    fn expands(&self) -> (b: bool) {
        false
    }

    fn can_expand(&self) -> (b: bool) {
        false
    }
}

/// Directives follow one another, or go one per line when broken up.
impl Format for Directives {
    open spec fn collapsed(&self, sh: Shape) -> (Writes, Shape) {
        let s1 = fold(self.directives.0@, sh, each_item::<Shared<Directive>>());
        s1
    }

    open spec fn expanded(&self, sh: Shape) -> (Writes, Shape) {
        let s1 = indented(sh, fold(self.directives.0@, indent_open_step(sh).1, line_item::<Shared<Directive>>()));
        s1
    }

    open spec fn spec_expands(&self) -> bool {
        self.directives.0@.len() > 3
    }

    open spec fn spec_can_expand(&self) -> bool {
        true
    }

    fn format_collapsed<W: Write>(&self, formatter: &mut Formatter<W>) -> (r: Result<(), Error>) {
        formatter.each(self.directives.0.as_slice())
    }

    fn format_expanded<W: Write>(&self, formatter: &mut Formatter<W>) -> (r: Result<(), Error>) {
        let ghost node = *self;
        {
            let ghost mi16 = formatter.model();
            let ghost shi17 = formatter.shape();
            let ghost open18 = indent_open_step(shi17);
            let ghost body19 = fold(node.directives.0@, indent_open_step(shi17).1, line_item::<Shared<Directive>>());
            let ghost close20 = indent_close_step(body19.1);
            let r = formatter.open_indent();
            if r.is_err() {
                proof {
                    lemma_fails_then::<W>(mi16, open18, body19);
                    lemma_fails_then::<W>(mi16, then(open18, body19), close20);
                }
                r
            } else {
                proof {
                    lemma_step_on::<W>(mi16, open18, body19);
                }
                let r = formatter.each_line(self.directives.0.as_slice());
                if r.is_err() {
                    proof {
                        lemma_fails_then::<W>(mi16, then(open18, body19), close20);
                    }
                    r
                } else {
                    proof {
                        lemma_step_on::<W>(mi16, then(open18, body19), close20);
                    }
                    formatter.close_indent()
                }
            }
        }
    }

    fn expands(&self) -> (b: bool) {
        self.directives.0.len() > 3
    }

    fn can_expand(&self) -> (b: bool) {
        true
    }
}

impl Format for Directive {
    open spec fn collapsed(&self, sh: Shape) -> (Writes, Shape) {
        let s1 = formatted(&self.at, sh);
        let s2 = squeezed(s1.1, formatted(&self.name, s1.1.with_whitespace(true)));
        let s3 = squeezed(s2.1, formatted(&self.arguments, s2.1.with_whitespace(true)));
        then(then(s1, s2), s3)
    }

    open spec fn expanded(&self, sh: Shape) -> (Writes, Shape) {
        self.collapsed(sh)
    }

    open spec fn spec_expands(&self) -> bool {
        false
    }

    open spec fn spec_can_expand(&self) -> bool {
        false
    }

    fn format_collapsed<W: Write>(&self, formatter: &mut Formatter<W>) -> (r: Result<(), Error>) {
        let ghost node = *self;
        let ghost m0 = formatter.model();
        let ghost sh0 = formatter.shape();
        let ghost s1 = formatted(&node.at, sh0);
        let ghost s2 = squeezed(s1.1, formatted(&node.name, s1.1.with_whitespace(true)));
        let ghost s3 = squeezed(s2.1, formatted(&node.arguments, s2.1.with_whitespace(true)));
        let ghost a1 = s1;
        let ghost a2 = then(a1, s2);
        let ghost a3 = then(a2, s3);
        assert(self.collapsed(sh0) == a3);
        let r = self.at.format(formatter);
        if r.is_err() {
            proof {
                lemma_fails_then::<W>(m0, a1, s2);
                lemma_fails_then::<W>(m0, a2, s3);
            }
            return r;
        }
        proof {
            lemma_step_on::<W>(m0, a1, s2);
        }
        let r = {
            let ghost mq21 = formatter.model();
            let ghost shq22 = formatter.shape();
            let ws = formatter.begin_squeeze();
            let r = self.name.format(formatter);
            formatter.end_squeeze(ws);
            proof {
                lemma_squeezed::<W>(mq21, shq22, formatted(&node.name, shq22.with_whitespace(true)));
            }
            r
        };
        if r.is_err() {
            proof {
                lemma_fails_then::<W>(m0, a2, s3);
            }
            return r;
        }
        proof {
            lemma_step_on::<W>(m0, a2, s3);
        }
        {
            let ghost mq23 = formatter.model();
            let ghost shq24 = formatter.shape();
            let ws = formatter.begin_squeeze();
            let r = self.arguments.format(formatter);
            formatter.end_squeeze(ws);
            proof {
                lemma_squeezed::<W>(mq23, shq24, formatted(&node.arguments, shq24.with_whitespace(true)));
            }
            r
        }
    }

    fn format_expanded<W: Write>(&self, formatter: &mut Formatter<W>) -> (r: Result<(), Error>) {
        self.format_collapsed(formatter)
    }

    fn expands(&self) -> (b: bool) {
        false
    }

    fn can_expand(&self) -> (b: bool) {
        false
    }
}

} // verus!
