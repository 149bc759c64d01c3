use vstd::prelude::*;

use crate::ast::context::Shared;
use crate::ast::types::{Alias, DefaultValue, ExecutableDefinition, FragmentDefinition, FragmentSpread, OperationDefinition, TypeCondition, VariableDefinition, VariableDefinitions};

use super::types::{any_expands, fold, formatted, indent_close_step, indent_open_step, indented};
use super::types::{line_comma_item, comma_item};
use super::types::{lemma_fails_then, lemma_squeezed, lemma_step_on, squeezed, then};
use super::types::{Error, Format, Formatter, Shape, Write, Writes};

verus! {

/// Each kind is laid out as the node it holds.
impl Format for ExecutableDefinition {
    open spec fn collapsed(&self, sh: Shape) -> (Writes, Shape) {
        match self {
            ExecutableDefinition::OperationDefinition(node) => node.collapsed(sh),
            ExecutableDefinition::FragmentDefinition(node) => node.collapsed(sh),
        }
    }

    open spec fn expanded(&self, sh: Shape) -> (Writes, Shape) {
        match self {
            ExecutableDefinition::OperationDefinition(node) => node.expanded(sh),
            ExecutableDefinition::FragmentDefinition(node) => node.expanded(sh),
        }
    }

    open spec fn spec_expands(&self) -> bool {
        match self {
            ExecutableDefinition::OperationDefinition(node) => node.spec_expands(),
            ExecutableDefinition::FragmentDefinition(node) => node.spec_expands(),
        }
    }

    open spec fn spec_can_expand(&self) -> bool {
        match self {
            ExecutableDefinition::OperationDefinition(node) => node.spec_can_expand(),
            ExecutableDefinition::FragmentDefinition(node) => node.spec_can_expand(),
        }
    }

    fn format_collapsed<W: Write>(&self, formatter: &mut Formatter<W>) -> (r: Result<(), Error>) {
        match self {
            ExecutableDefinition::OperationDefinition(node) => node.format_collapsed(formatter),
            ExecutableDefinition::FragmentDefinition(node) => node.format_collapsed(formatter),
        }
    }

    fn format_expanded<W: Write>(&self, formatter: &mut Formatter<W>) -> (r: Result<(), Error>) {
        match self {
            ExecutableDefinition::OperationDefinition(node) => node.format_expanded(formatter),
            ExecutableDefinition::FragmentDefinition(node) => node.format_expanded(formatter),
        }
    }

    fn expands(&self) -> (b: bool) {
        match self {
            ExecutableDefinition::OperationDefinition(node) => node.expands(),
            ExecutableDefinition::FragmentDefinition(node) => node.expands(),
        }
    }

    fn can_expand(&self) -> (b: bool) {
        match self {
            ExecutableDefinition::OperationDefinition(node) => node.can_expand(),
            ExecutableDefinition::FragmentDefinition(node) => node.can_expand(),
        }
    }
}

impl Format for OperationDefinition {
    open spec fn collapsed(&self, sh: Shape) -> (Writes, Shape) {
        let s1 = formatted(&self.ty, sh);
        let s2 = formatted(&self.name, s1.1);
        let s3 = squeezed(s2.1, formatted(&self.variable_definitions, s2.1.with_whitespace(true)));
        let s4 = formatted(&self.directives, s3.1);
        let s5 = formatted(&self.selection_set, s4.1);
        then(then(then(then(s1, s2), s3), s4), s5)
    }

    open spec fn expanded(&self, sh: Shape) -> (Writes, Shape) {
        self.collapsed(sh)
    }

    open spec fn spec_expands(&self) -> bool {
        false
    }

    open spec fn spec_can_expand(&self) -> bool {
        false
    }

    fn format_collapsed<W: Write>(&self, formatter: &mut Formatter<W>) -> (r: Result<(), Error>) {
        let ghost node = *self;
        let ghost m0 = formatter.model();
        let ghost sh0 = formatter.shape();
        let ghost s1 = formatted(&node.ty, sh0);
        let ghost s2 = formatted(&node.name, s1.1);
        let ghost s3 = squeezed(s2.1, formatted(&node.variable_definitions, s2.1.with_whitespace(true)));
        let ghost s4 = formatted(&node.directives, s3.1);
        let ghost s5 = formatted(&node.selection_set, s4.1);
        let ghost a1 = s1;
        let ghost a2 = then(a1, s2);
        let ghost a3 = then(a2, s3);
        let ghost a4 = then(a3, s4);
        let ghost a5 = then(a4, s5);
        assert(self.collapsed(sh0) == a5);
        let r = self.ty.format(formatter);
        if r.is_err() {
            proof {
                lemma_fails_then::<W>(m0, a1, s2);
                lemma_fails_then::<W>(m0, a2, s3);
                lemma_fails_then::<W>(m0, a3, s4);
                lemma_fails_then::<W>(m0, a4, s5);
            }
            return r;
        }
        proof {
            lemma_step_on::<W>(m0, a1, s2);
        }
        let r = self.name.format(formatter);
        if r.is_err() {
            proof {
                lemma_fails_then::<W>(m0, a2, s3);
                lemma_fails_then::<W>(m0, a3, s4);
                lemma_fails_then::<W>(m0, a4, s5);
            }
            return r;
        }
        proof {
            lemma_step_on::<W>(m0, a2, s3);
        }
        let r = {
            let ghost mq1 = formatter.model();
            let ghost shq2 = formatter.shape();
            let ws = formatter.begin_squeeze();
            let r = self.variable_definitions.format(formatter);
            formatter.end_squeeze(ws);
            proof {
                lemma_squeezed::<W>(mq1, shq2, formatted(&node.variable_definitions, shq2.with_whitespace(true)));
            }
            r
        };
        if r.is_err() {
            proof {
                lemma_fails_then::<W>(m0, a3, s4);
                lemma_fails_then::<W>(m0, a4, s5);
            }
            return r;
        }
        proof {
            lemma_step_on::<W>(m0, a3, s4);
        }
        let r = self.directives.format(formatter);
        if r.is_err() {
            proof {
                lemma_fails_then::<W>(m0, a4, s5);
            }
            return r;
        }
        proof {
            lemma_step_on::<W>(m0, a4, s5);
        }
        self.selection_set.format(formatter)
    }

    fn format_expanded<W: Write>(&self, formatter: &mut Formatter<W>) -> (r: Result<(), Error>) {
        self.format_collapsed(formatter)
    }

    fn expands(&self) -> (b: bool) {
        false
    }

    fn can_expand(&self) -> (b: bool) {
        false
    }
}

impl Format for Alias {
    open spec fn collapsed(&self, sh: Shape) -> (Writes, Shape) {
        let s1 = formatted(&self.name, sh);
        let s2 = formatted(&self.colon, s1.1);
        then(s1, s2)
    }

    open spec fn expanded(&self, sh: Shape) -> (Writes, Shape) {
        self.collapsed(sh)
    }

    open spec fn spec_expands(&self) -> bool {
        false
    }

    open spec fn spec_can_expand(&self) -> bool {
        false
    }

    fn format_collapsed<W: Write>(&self, formatter: &mut Formatter<W>) -> (r: Result<(), Error>) {
        let ghost node = *self;
        let ghost m0 = formatter.model();
        let ghost sh0 = formatter.shape();
        let ghost s1 = formatted(&node.name, sh0);
        let ghost s2 = formatted(&node.colon, s1.1);
        let ghost a1 = s1;
        let ghost a2 = then(a1, s2);
        assert(self.collapsed(sh0) == a2);
        let r = self.name.format(formatter);
        if r.is_err() {
            proof {
                lemma_fails_then::<W>(m0, a1, s2);
            }
            return r;
        }
        proof {
            lemma_step_on::<W>(m0, a1, s2);
        }
        self.colon.format(formatter)
    }

    fn format_expanded<W: Write>(&self, formatter: &mut Formatter<W>) -> (r: Result<(), Error>) {
        self.format_collapsed(formatter)
    }

    fn expands(&self) -> (b: bool) {
        false
    }

    fn can_expand(&self) -> (b: bool) {
        false
    }
}

impl Format for FragmentSpread {
    open spec fn collapsed(&self, sh: Shape) -> (Writes, Shape) {
        let s1 = formatted(&self.dots, sh);
        let s2 = formatted(&self.fragment_name, s1.1);
        let s3 = formatted(&self.directives, s2.1);
        then(then(s1, s2), s3)
    }

    open spec fn expanded(&self, sh: Shape) -> (Writes, Shape) {
        self.collapsed(sh)
    }

    open spec fn spec_expands(&self) -> bool {
        true
    }

    open spec fn spec_can_expand(&self) -> bool {
        false
    }

    fn format_collapsed<W: Write>(&self, formatter: &mut Formatter<W>) -> (r: Result<(), Error>) {
        let ghost node = *self;
        let ghost m0 = formatter.model();
        let ghost sh0 = formatter.shape();
        let ghost s1 = formatted(&node.dots, sh0);
        let ghost s2 = formatted(&node.fragment_name, s1.1);
        let ghost s3 = formatted(&node.directives, s2.1);
        let ghost a1 = s1;
        let ghost a2 = then(a1, s2);
        let ghost a3 = then(a2, s3);
        assert(self.collapsed(sh0) == a3);
        let r = self.dots.format(formatter);
        if r.is_err() {
            proof {
                lemma_fails_then::<W>(m0, a1, s2);
                lemma_fails_then::<W>(m0, a2, s3);
            }
            return r;
        }
        proof {
            lemma_step_on::<W>(m0, a1, s2);
        }
        let r = self.fragment_name.format(formatter);
        if r.is_err() {
            proof {
                lemma_fails_then::<W>(m0, a2, s3);
            }
            return r;
        }
        proof {
            lemma_step_on::<W>(m0, a2, s3);
        }
        self.directives.format(formatter)
    }

    fn format_expanded<W: Write>(&self, formatter: &mut Formatter<W>) -> (r: Result<(), Error>) {
        self.format_collapsed(formatter)
    }

    fn expands(&self) -> (b: bool) {
        true
    }

    fn can_expand(&self) -> (b: bool) {
        false
    }
}

impl Format for FragmentDefinition {
    open spec fn collapsed(&self, sh: Shape) -> (Writes, Shape) {
        let s1 = formatted(&self.fragment, sh);
        let s2 = formatted(&self.fragment_name, s1.1);
        let s3 = formatted(&self.type_condition, s2.1);
        let s4 = formatted(&self.directives, s3.1);
        let s5 = formatted(&self.selection_set, s4.1);
        then(then(then(then(s1, s2), s3), s4), s5)
    }

    open spec fn expanded(&self, sh: Shape) -> (Writes, Shape) {
        self.collapsed(sh)
    }

    open spec fn spec_expands(&self) -> bool {
        true
    }

    open spec fn spec_can_expand(&self) -> bool {
        false
    }

    fn format_collapsed<W: Write>(&self, formatter: &mut Formatter<W>) -> (r: Result<(), Error>) {
        let ghost node = *self;
        let ghost m0 = formatter.model();
        let ghost sh0 = formatter.shape();
        let ghost s1 = formatted(&node.fragment, sh0);
        let ghost s2 = formatted(&node.fragment_name, s1.1);
        let ghost s3 = formatted(&node.type_condition, s2.1);
        let ghost s4 = formatted(&node.directives, s3.1);
        let ghost s5 = formatted(&node.selection_set, s4.1);
        let ghost a1 = s1;
        let ghost a2 = then(a1, s2);
        let ghost a3 = then(a2, s3);
        let ghost a4 = then(a3, s4);
        let ghost a5 = then(a4, s5);
        assert(self.collapsed(sh0) == a5);
        let r = self.fragment.format(formatter);
        if r.is_err() {
            proof {
                lemma_fails_then::<W>(m0, a1, s2);
                lemma_fails_then::<W>(m0, a2, s3);
                lemma_fails_then::<W>(m0, a3, s4);
                lemma_fails_then::<W>(m0, a4, s5);
            }
            return r;
        }
        proof {
            lemma_step_on::<W>(m0, a1, s2);
        }
        let r = self.fragment_name.format(formatter);
        if r.is_err() {
            proof {
                lemma_fails_then::<W>(m0, a2, s3);
                lemma_fails_then::<W>(m0, a3, s4);
                lemma_fails_then::<W>(m0, a4, s5);
            }
            return r;
        }
        proof {
            lemma_step_on::<W>(m0, a2, s3);
        }
        let r = self.type_condition.format(formatter);
        if r.is_err() {
            proof {
                lemma_fails_then::<W>(m0, a3, s4);
                lemma_fails_then::<W>(m0, a4, s5);
            }
            return r;
        }
        proof {
            lemma_step_on::<W>(m0, a3, s4);
        }
        let r = self.directives.format(formatter);
        if r.is_err() {
            proof {
                lemma_fails_then::<W>(m0, a4, s5);
            }
            return r;
        }
        proof {
            lemma_step_on::<W>(m0, a4, s5);
        }
        self.selection_set.format(formatter)
    }

    fn format_expanded<W: Write>(&self, formatter: &mut Formatter<W>) -> (r: Result<(), Error>) {
        self.format_collapsed(formatter)
    }

    fn expands(&self) -> (b: bool) {
        true
    }

    fn can_expand(&self) -> (b: bool) {
        false
    }
}

impl Format for TypeCondition {
    open spec fn collapsed(&self, sh: Shape) -> (Writes, Shape) {
        let s1 = formatted(&self.on, sh);
        let s2 = formatted(&self.named_type, s1.1);
        then(s1, s2)
    }

    open spec fn expanded(&self, sh: Shape) -> (Writes, Shape) {
        self.collapsed(sh)
    }

    open spec fn spec_expands(&self) -> bool {
        false
    }

    open spec fn spec_can_expand(&self) -> bool {
        false
    }

    fn format_collapsed<W: Write>(&self, formatter: &mut Formatter<W>) -> (r: Result<(), Error>) {
        let ghost node = *self;
        let ghost m0 = formatter.model();
        let ghost sh0 = formatter.shape();
        let ghost s1 = formatted(&node.on, sh0);
        let ghost s2 = formatted(&node.named_type, s1.1);
        let ghost a1 = s1;
        let ghost a2 = then(a1, s2);
        assert(self.collapsed(sh0) == a2);
        let r = self.on.format(formatter);
        if r.is_err() {
            proof {
                lemma_fails_then::<W>(m0, a1, s2);
            }
            return r;
        }
        proof {
            lemma_step_on::<W>(m0, a1, s2);
        }
        self.named_type.format(formatter)
    }

    fn format_expanded<W: Write>(&self, formatter: &mut Formatter<W>) -> (r: Result<(), Error>) {
        self.format_collapsed(formatter)
    }

    fn expands(&self) -> (b: bool) {
        false
    }

    fn can_expand(&self) -> (b: bool) {
        false
    }
}

/// Variable definitions go in parentheses, one per line when one of them must be broken up.
impl Format for VariableDefinitions {
    open spec fn collapsed(&self, sh: Shape) -> (Writes, Shape) {
        let s1 = formatted(&self.parens.0, sh);
        let s2 = if self.spec_expands() { indented(s1.1, fold(self.variable_definitions.0@, indent_open_step(s1.1).1, line_comma_item::<Shared<VariableDefinition>>())) } else { squeezed(s1.1, fold(self.variable_definitions.0@, s1.1.with_whitespace(true), comma_item::<Shared<VariableDefinition>>())) };
        let s3 = squeezed(s2.1, formatted(&self.parens.1, s2.1.with_whitespace(true)));
        then(then(s1, s2), s3)
    }

    open spec fn expanded(&self, sh: Shape) -> (Writes, Shape) {
        self.collapsed(sh)
    }

    open spec fn spec_expands(&self) -> bool {
        exists|i: int| 0 <= i < self.variable_definitions.0@.len() && #[trigger] self.variable_definitions.0@[i].spec_expands()
    }

    open spec fn spec_can_expand(&self) -> bool {
        false
    }

    fn format_collapsed<W: Write>(&self, formatter: &mut Formatter<W>) -> (r: Result<(), Error>) {
        let ghost node = *self;
        let ghost m0 = formatter.model();
        let ghost sh0 = formatter.shape();
        let ghost s1 = formatted(&node.parens.0, sh0);
        let ghost s2 = if self.spec_expands() { indented(s1.1, fold(node.variable_definitions.0@, indent_open_step(s1.1).1, line_comma_item::<Shared<VariableDefinition>>())) } else { squeezed(s1.1, fold(node.variable_definitions.0@, s1.1.with_whitespace(true), comma_item::<Shared<VariableDefinition>>())) };
        let ghost s3 = squeezed(s2.1, formatted(&node.parens.1, s2.1.with_whitespace(true)));
        let ghost a1 = s1;
        let ghost a2 = then(a1, s2);
        let ghost a3 = then(a2, s3);
        assert(self.collapsed(sh0) == a3);
        let r = self.parens.0.format(formatter);
        if r.is_err() {
            proof {
                lemma_fails_then::<W>(m0, a1, s2);
                lemma_fails_then::<W>(m0, a2, s3);
            }
            return r;
        }
        proof {
            lemma_step_on::<W>(m0, a1, s2);
        }
        let r = if self.expands() {
            {
                let ghost mi3 = formatter.model();
                let ghost shi4 = formatter.shape();
                let ghost open5 = indent_open_step(shi4);
                let ghost body6 = fold(node.variable_definitions.0@, indent_open_step(shi4).1, line_comma_item::<Shared<VariableDefinition>>());
                let ghost close7 = indent_close_step(body6.1);
                let r = formatter.open_indent();
                if r.is_err() {
                    proof {
                        lemma_fails_then::<W>(mi3, open5, body6);
                        lemma_fails_then::<W>(mi3, then(open5, body6), close7);
                    }
                    r
                } else {
                    proof {
                        lemma_step_on::<W>(mi3, open5, body6);
                    }
                    let r = formatter.each_line_comma(self.variable_definitions.0.as_slice());
                    if r.is_err() {
                        proof {
                            lemma_fails_then::<W>(mi3, then(open5, body6), close7);
                        }
                        r
                    } else {
                        proof {
                            lemma_step_on::<W>(mi3, then(open5, body6), close7);
                        }
                        formatter.close_indent()
                    }
                }
            }
        } else {
            {
                let ghost mq8 = formatter.model();
                let ghost shq9 = formatter.shape();
                let ws = formatter.begin_squeeze();
                let r = formatter.each_comma(self.variable_definitions.0.as_slice());
                formatter.end_squeeze(ws);
                proof {
                    lemma_squeezed::<W>(mq8, shq9, fold(node.variable_definitions.0@, shq9.with_whitespace(true), comma_item::<Shared<VariableDefinition>>()));
                }
                r
            }
        };
        if r.is_err() {
            proof {
                lemma_fails_then::<W>(m0, a2, s3);
            }
            return r;
        }
        proof {
            lemma_step_on::<W>(m0, a2, s3);
        }
        {
            let ghost mq10 = formatter.model();
            let ghost shq11 = formatter.shape();
            let ws = formatter.begin_squeeze();
            let r = self.parens.1.format(formatter);
            formatter.end_squeeze(ws);
            proof {
                lemma_squeezed::<W>(mq10, shq11, formatted(&node.parens.1, shq11.with_whitespace(true)));
            }
            r
        }
    }

    fn format_expanded<W: Write>(&self, formatter: &mut Formatter<W>) -> (r: Result<(), Error>) {
        self.format_collapsed(formatter)
    }

    fn expands(&self) -> (b: bool) {
        any_expands(self.variable_definitions.0.as_slice())
    }

    fn can_expand(&self) -> (b: bool) {
        false
    }
}

impl Format for VariableDefinition {
    open spec fn collapsed(&self, sh: Shape) -> (Writes, Shape) {
        let s1 = formatted(&self.variable, sh);
        let s2 = squeezed(s1.1, formatted(&self.colon, s1.1.with_whitespace(true)));
        let s3 = formatted(&self.ty, s2.1);
        let s4 = formatted(&self.default_value, s3.1);
        let s5 = formatted(&self.directives, s4.1);
        then(then(then(then(s1, s2), s3), s4), s5)
    }

    open spec fn expanded(&self, sh: Shape) -> (Writes, Shape) {
        self.collapsed(sh)
    }

    open spec fn spec_expands(&self) -> bool {
        self.default_value.spec_expands()
    }

    open spec fn spec_can_expand(&self) -> bool {
        false
    }

    fn format_collapsed<W: Write>(&self, formatter: &mut Formatter<W>) -> (r: Result<(), Error>) {
        let ghost node = *self;
        let ghost m0 = formatter.model();
        let ghost sh0 = formatter.shape();
        let ghost s1 = formatted(&node.variable, sh0);
        let ghost s2 = squeezed(s1.1, formatted(&node.colon, s1.1.with_whitespace(true)));
        let ghost s3 = formatted(&node.ty, s2.1);
        let ghost s4 = formatted(&node.default_value, s3.1);
        let ghost s5 = formatted(&node.directives, s4.1);
        let ghost a1 = s1;
        let ghost a2 = then(a1, s2);
        let ghost a3 = then(a2, s3);
        let ghost a4 = then(a3, s4);
        let ghost a5 = then(a4, s5);
        assert(self.collapsed(sh0) == a5);
        let r = self.variable.format(formatter);
        if r.is_err() {
            proof {
                lemma_fails_then::<W>(m0, a1, s2);
                lemma_fails_then::<W>(m0, a2, s3);
                lemma_fails_then::<W>(m0, a3, s4);
                lemma_fails_then::<W>(m0, a4, s5);
            }
            return r;
        }
        proof {
            lemma_step_on::<W>(m0, a1, s2);
        }
        let r = {
            let ghost mq12 = formatter.model();
            let ghost shq13 = formatter.shape();
            let ws = formatter.begin_squeeze();
            let r = self.colon.format(formatter);
            formatter.end_squeeze(ws);
            proof {
                lemma_squeezed::<W>(mq12, shq13, formatted(&node.colon, shq13.with_whitespace(true)));
            }
            r
        };
        if r.is_err() {
            proof {
                lemma_fails_then::<W>(m0, a2, s3);
                lemma_fails_then::<W>(m0, a3, s4);
                lemma_fails_then::<W>(m0, a4, s5);
            }
            return r;
        }
        proof {
            lemma_step_on::<W>(m0, a2, s3);
        }
        let r = self.ty.format(formatter);
        if r.is_err() {
            proof {
                lemma_fails_then::<W>(m0, a3, s4);
                lemma_fails_then::<W>(m0, a4, s5);
            }
            return r;
        }
        proof {
            lemma_step_on::<W>(m0, a3, s4);
        }
        let r = self.default_value.format(formatter);
        if r.is_err() {
            proof {
                lemma_fails_then::<W>(m0, a4, s5);
            }
            return r;
        }
        proof {
            lemma_step_on::<W>(m0, a4, s5);
        }
        self.directives.format(formatter)
    }

    fn format_expanded<W: Write>(&self, formatter: &mut Formatter<W>) -> (r: Result<(), Error>) {
        self.format_collapsed(formatter)
    }

    fn expands(&self) -> (b: bool) {
        self.default_value.expands()
    }

    fn can_expand(&self) -> (b: bool) {
        false
    }
}

impl Format for DefaultValue {
    open spec fn collapsed(&self, sh: Shape) -> (Writes, Shape) {
        let s1 = formatted(&self.eq, sh);
        let s2 = formatted(&self.value, s1.1);
        then(s1, s2)
    }

    open spec fn expanded(&self, sh: Shape) -> (Writes, Shape) {
        self.collapsed(sh)
    }

    open spec fn spec_expands(&self) -> bool {
        self.value.spec_expands()
    }

    open spec fn spec_can_expand(&self) -> bool {
        false
    }

    fn format_collapsed<W: Write>(&self, formatter: &mut Formatter<W>) -> (r: Result<(), Error>) {
        let ghost node = *self;
        let ghost m0 = formatter.model();
        let ghost sh0 = formatter.shape();
        let ghost s1 = formatted(&node.eq, sh0);
        let ghost s2 = formatted(&node.value, s1.1);
        let ghost a1 = s1;
        let ghost a2 = then(a1, s2);
        assert(self.collapsed(sh0) == a2);
        let r = self.eq.format(formatter);
        if r.is_err() {
            proof {
                lemma_fails_then::<W>(m0, a1, s2);
            }
            return r;
        }
        proof {
            lemma_step_on::<W>(m0, a1, s2);
        }
        self.value.format(formatter)
    }

    fn format_expanded<W: Write>(&self, formatter: &mut Formatter<W>) -> (r: Result<(), Error>) {
        self.format_collapsed(formatter)
    }

    fn expands(&self) -> (b: bool) {
        self.value.expands()
    }

    fn can_expand(&self) -> (b: bool) {
        false
    }
}

} // verus!
