use vstd::prelude::*;

use crate::ast::context::Shared;
use crate::ast::types::{ArgumentsDefinition, Description, DirectiveDefinition, DirectiveLocation, DirectiveLocations, EnumTypeDefinition, EnumTypeExtension, EnumValueDefinition, EnumValuesDefinition, ExecutableDirectiveLocation, FieldDefinition, FieldsDefinition, ImplementsInterfaces, InputFieldsDefinition, InputObjectTypeDefinition, InputObjectTypeExtension, InputValueDefinition, InterfaceTypeDefinition, InterfaceTypeExtension, ObjectTypeDefinition, ObjectTypeExtension, RootOperationTypeDefinition, RootOperationTypeDefinitions, ScalarTypeDefinition, ScalarTypeExtension, SchemaDefinition, SchemaExtension, TypeDefinition, TypeExtension, TypeSystemDefinition, TypeSystemDefinitionOrExtension, TypeSystemDirectiveLocation, TypeSystemDocument, TypeSystemExtension, TypeSystemExtensionDocument, UnionMemberTypes, UnionTypeDefinition, UnionTypeExtension};

use super::types::{any_expands, fold, formatted, indent_close_step, indent_open_step, indented, lines_step};
use super::types::{line_comma_item, line_item, comma_item, page_item};
use super::types::{lemma_fails_then, lemma_squeezed, lemma_step_on, nothing, squeezed, steps, then};
use super::types::{Error, Format, Formatter, Shape, Write, Writes};
use crate::ast::types::{present_locations, present_types, NamedType, Recoverable};
use super::types::{push_step, lemma_fold_fails, lemma_fold_next, lemma_steps_end, lemma_then};

verus! {

/// Definitions are laid out one after another, a blank line between each two.
impl Format for TypeSystemDocument {
    open spec fn collapsed(&self, sh: Shape) -> (Writes, Shape) {
        let s1 = fold(self.definitions.0@, sh, page_item::<TypeSystemDefinition>());
        s1
    }

    open spec fn expanded(&self, sh: Shape) -> (Writes, Shape) {
        self.collapsed(sh)
    }

    open spec fn spec_expands(&self) -> bool {
        false
    }

    open spec fn spec_can_expand(&self) -> bool {
        false
    }

    fn format_collapsed<W: Write>(&self, formatter: &mut Formatter<W>) -> (r: Result<(), Error>) {
        formatter.each_page(self.definitions.0.as_slice())
    }

    fn format_expanded<W: Write>(&self, formatter: &mut Formatter<W>) -> (r: Result<(), Error>) {
        self.format_collapsed(formatter)
    }

    fn expands(&self) -> (b: bool) {
        false
    }

    fn can_expand(&self) -> (b: bool) {
        false
    }
}

/// Each kind is laid out as the node it holds.
impl Format for TypeSystemDefinition {
    open spec fn collapsed(&self, sh: Shape) -> (Writes, Shape) {
        match self {
            TypeSystemDefinition::SchemaDefinition(node) => node.collapsed(sh),
            TypeSystemDefinition::TypeDefinition(node) => node.collapsed(sh),
            TypeSystemDefinition::DirectiveDefinition(node) => node.collapsed(sh),
            TypeSystemDefinition::Error(node) => node.collapsed(sh),
        }
    }

    open spec fn expanded(&self, sh: Shape) -> (Writes, Shape) {
        match self {
            TypeSystemDefinition::SchemaDefinition(node) => node.expanded(sh),
            TypeSystemDefinition::TypeDefinition(node) => node.expanded(sh),
            TypeSystemDefinition::DirectiveDefinition(node) => node.expanded(sh),
            TypeSystemDefinition::Error(node) => node.expanded(sh),
        }
    }

    open spec fn spec_expands(&self) -> bool {
        match self {
            TypeSystemDefinition::SchemaDefinition(node) => node.spec_expands(),
            TypeSystemDefinition::TypeDefinition(node) => node.spec_expands(),
            TypeSystemDefinition::DirectiveDefinition(node) => node.spec_expands(),
            TypeSystemDefinition::Error(node) => node.spec_expands(),
        }
    }

    open spec fn spec_can_expand(&self) -> bool {
        match self {
            TypeSystemDefinition::SchemaDefinition(node) => node.spec_can_expand(),
            TypeSystemDefinition::TypeDefinition(node) => node.spec_can_expand(),
            TypeSystemDefinition::DirectiveDefinition(node) => node.spec_can_expand(),
            TypeSystemDefinition::Error(node) => node.spec_can_expand(),
        }
    }

    fn format_collapsed<W: Write>(&self, formatter: &mut Formatter<W>) -> (r: Result<(), Error>) {
        match self {
            TypeSystemDefinition::SchemaDefinition(node) => node.format_collapsed(formatter),
            TypeSystemDefinition::TypeDefinition(node) => node.format_collapsed(formatter),
            TypeSystemDefinition::DirectiveDefinition(node) => node.format_collapsed(formatter),
            TypeSystemDefinition::Error(node) => node.format_collapsed(formatter),
        }
    }

    fn format_expanded<W: Write>(&self, formatter: &mut Formatter<W>) -> (r: Result<(), Error>) {
        match self {
            TypeSystemDefinition::SchemaDefinition(node) => node.format_expanded(formatter),
            TypeSystemDefinition::TypeDefinition(node) => node.format_expanded(formatter),
            TypeSystemDefinition::DirectiveDefinition(node) => node.format_expanded(formatter),
            TypeSystemDefinition::Error(node) => node.format_expanded(formatter),
        }
    }

    fn expands(&self) -> (b: bool) {
        match self {
            TypeSystemDefinition::SchemaDefinition(node) => node.expands(),
            TypeSystemDefinition::TypeDefinition(node) => node.expands(),
            TypeSystemDefinition::DirectiveDefinition(node) => node.expands(),
            TypeSystemDefinition::Error(node) => node.expands(),
        }
    }

    fn can_expand(&self) -> (b: bool) {
        match self {
            TypeSystemDefinition::SchemaDefinition(node) => node.can_expand(),
            TypeSystemDefinition::TypeDefinition(node) => node.can_expand(),
            TypeSystemDefinition::DirectiveDefinition(node) => node.can_expand(),
            TypeSystemDefinition::Error(node) => node.can_expand(),
        }
    }
}

/// Definitions are laid out one after another, a blank line between each two.
impl Format for TypeSystemExtensionDocument {
    open spec fn collapsed(&self, sh: Shape) -> (Writes, Shape) {
        let s1 = fold(self.definitions.0@, sh, page_item::<TypeSystemDefinitionOrExtension>());
        s1
    }

    open spec fn expanded(&self, sh: Shape) -> (Writes, Shape) {
        self.collapsed(sh)
    }

    open spec fn spec_expands(&self) -> bool {
        false
    }

    open spec fn spec_can_expand(&self) -> bool {
        false
    }

    fn format_collapsed<W: Write>(&self, formatter: &mut Formatter<W>) -> (r: Result<(), Error>) {
        formatter.each_page(self.definitions.0.as_slice())
    }

    fn format_expanded<W: Write>(&self, formatter: &mut Formatter<W>) -> (r: Result<(), Error>) {
        self.format_collapsed(formatter)
    }

    fn expands(&self) -> (b: bool) {
        false
    }

    fn can_expand(&self) -> (b: bool) {
        false
    }
}

/// Each kind is laid out as the node it holds.
impl Format for TypeSystemDefinitionOrExtension {
    open spec fn collapsed(&self, sh: Shape) -> (Writes, Shape) {
        match self {
            TypeSystemDefinitionOrExtension::TypeSystemDefinition(node) => node.collapsed(sh),
            TypeSystemDefinitionOrExtension::TypeSystemExtension(node) => node.collapsed(sh),
        }
    }

    open spec fn expanded(&self, sh: Shape) -> (Writes, Shape) {
        match self {
            TypeSystemDefinitionOrExtension::TypeSystemDefinition(node) => node.expanded(sh),
            TypeSystemDefinitionOrExtension::TypeSystemExtension(node) => node.expanded(sh),
        }
    }

    open spec fn spec_expands(&self) -> bool {
        match self {
            TypeSystemDefinitionOrExtension::TypeSystemDefinition(node) => node.spec_expands(),
            TypeSystemDefinitionOrExtension::TypeSystemExtension(node) => node.spec_expands(),
        }
    }

    open spec fn spec_can_expand(&self) -> bool {
        match self {
            TypeSystemDefinitionOrExtension::TypeSystemDefinition(node) => node.spec_can_expand(),
            TypeSystemDefinitionOrExtension::TypeSystemExtension(node) => node.spec_can_expand(),
        }
    }

    fn format_collapsed<W: Write>(&self, formatter: &mut Formatter<W>) -> (r: Result<(), Error>) {
        match self {
            TypeSystemDefinitionOrExtension::TypeSystemDefinition(node) => node.format_collapsed(formatter),
            TypeSystemDefinitionOrExtension::TypeSystemExtension(node) => node.format_collapsed(formatter),
        }
    }

    fn format_expanded<W: Write>(&self, formatter: &mut Formatter<W>) -> (r: Result<(), Error>) {
        match self {
            TypeSystemDefinitionOrExtension::TypeSystemDefinition(node) => node.format_expanded(formatter),
            TypeSystemDefinitionOrExtension::TypeSystemExtension(node) => node.format_expanded(formatter),
        }
    }

    fn expands(&self) -> (b: bool) {
        match self {
            TypeSystemDefinitionOrExtension::TypeSystemDefinition(node) => node.expands(),
            TypeSystemDefinitionOrExtension::TypeSystemExtension(node) => node.expands(),
        }
    }

    fn can_expand(&self) -> (b: bool) {
        match self {
            TypeSystemDefinitionOrExtension::TypeSystemDefinition(node) => node.can_expand(),
            TypeSystemDefinitionOrExtension::TypeSystemExtension(node) => node.can_expand(),
        }
    }
}

/// Each kind is laid out as the node it holds.
impl Format for TypeSystemExtension {
    open spec fn collapsed(&self, sh: Shape) -> (Writes, Shape) {
        match self {
            TypeSystemExtension::SchemaExtension(node) => node.collapsed(sh),
            TypeSystemExtension::TypeExtension(node) => node.collapsed(sh),
            TypeSystemExtension::Error(node) => node.collapsed(sh),
        }
    }

    open spec fn expanded(&self, sh: Shape) -> (Writes, Shape) {
        match self {
            TypeSystemExtension::SchemaExtension(node) => node.expanded(sh),
            TypeSystemExtension::TypeExtension(node) => node.expanded(sh),
            TypeSystemExtension::Error(node) => node.expanded(sh),
        }
    }

    open spec fn spec_expands(&self) -> bool {
        match self {
            TypeSystemExtension::SchemaExtension(node) => node.spec_expands(),
            TypeSystemExtension::TypeExtension(node) => node.spec_expands(),
            TypeSystemExtension::Error(node) => node.spec_expands(),
        }
    }

    open spec fn spec_can_expand(&self) -> bool {
        match self {
            TypeSystemExtension::SchemaExtension(node) => node.spec_can_expand(),
            TypeSystemExtension::TypeExtension(node) => node.spec_can_expand(),
            TypeSystemExtension::Error(node) => node.spec_can_expand(),
        }
    }

    fn format_collapsed<W: Write>(&self, formatter: &mut Formatter<W>) -> (r: Result<(), Error>) {
        match self {
            TypeSystemExtension::SchemaExtension(node) => node.format_collapsed(formatter),
            TypeSystemExtension::TypeExtension(node) => node.format_collapsed(formatter),
            TypeSystemExtension::Error(node) => node.format_collapsed(formatter),
        }
    }

    fn format_expanded<W: Write>(&self, formatter: &mut Formatter<W>) -> (r: Result<(), Error>) {
        match self {
            TypeSystemExtension::SchemaExtension(node) => node.format_expanded(formatter),
            TypeSystemExtension::TypeExtension(node) => node.format_expanded(formatter),
            TypeSystemExtension::Error(node) => node.format_expanded(formatter),
        }
    }

    fn expands(&self) -> (b: bool) {
        match self {
            TypeSystemExtension::SchemaExtension(node) => node.expands(),
            TypeSystemExtension::TypeExtension(node) => node.expands(),
            TypeSystemExtension::Error(node) => node.expands(),
        }
    }

    fn can_expand(&self) -> (b: bool) {
        match self {
            TypeSystemExtension::SchemaExtension(node) => node.can_expand(),
            TypeSystemExtension::TypeExtension(node) => node.can_expand(),
            TypeSystemExtension::Error(node) => node.can_expand(),
        }
    }
}

/// Laid out as the node it wraps.
impl Format for Description {
    open spec fn collapsed(&self, sh: Shape) -> (Writes, Shape) {
        let s1 = formatted(&self.0, sh);
        s1
    }

    open spec fn expanded(&self, sh: Shape) -> (Writes, Shape) {
        self.collapsed(sh)
    }

    open spec fn spec_expands(&self) -> bool {
        false
    }

    open spec fn spec_can_expand(&self) -> bool {
        false
    }

    fn format_collapsed<W: Write>(&self, formatter: &mut Formatter<W>) -> (r: Result<(), Error>) {
        self.0.format(formatter)
    }

    fn format_expanded<W: Write>(&self, formatter: &mut Formatter<W>) -> (r: Result<(), Error>) {
        self.format_collapsed(formatter)
    }

    fn expands(&self) -> (b: bool) {
        false
    }

    fn can_expand(&self) -> (b: bool) {
        false
    }
}

/// A definition starts after a blank line, its description on a line of its own.
impl Format for SchemaDefinition {
    open spec fn collapsed(&self, sh: Shape) -> (Writes, Shape) {
        let s1 = lines_step(sh, 2);
        let s2 = formatted(&self.description, s1.1);
        let s3 = lines_step(s2.1, 1);
        let s4 = formatted(&self.schema, s3.1);
        let s5 = formatted(&self.directives, s4.1);
        let s6 = formatted(&self.type_definitions, s5.1);
        then(then(then(then(then(s1, s2), s3), s4), s5), s6)
    }

    open spec fn expanded(&self, sh: Shape) -> (Writes, Shape) {
        self.collapsed(sh)
    }

    open spec fn spec_expands(&self) -> bool {
        false
    }

    open spec fn spec_can_expand(&self) -> bool {
        false
    }

    fn format_collapsed<W: Write>(&self, formatter: &mut Formatter<W>) -> (r: Result<(), Error>) {
        let ghost node = *self;
        let ghost m0 = formatter.model();
        let ghost sh0 = formatter.shape();
        let ghost s1 = lines_step(sh0, 2);
        let ghost s2 = formatted(&node.description, s1.1);
        let ghost s3 = lines_step(s2.1, 1);
        let ghost s4 = formatted(&node.schema, s3.1);
        let ghost s5 = formatted(&node.directives, s4.1);
        let ghost s6 = formatted(&node.type_definitions, s5.1);
        let ghost a1 = s1;
        let ghost a2 = then(a1, s2);
        let ghost a3 = then(a2, s3);
        let ghost a4 = then(a3, s4);
        let ghost a5 = then(a4, s5);
        let ghost a6 = then(a5, s6);
        assert(self.collapsed(sh0) == a6);
        let r = formatter.page();
        if r.is_err() {
            proof {
                lemma_fails_then::<W>(m0, a1, s2);
                lemma_fails_then::<W>(m0, a2, s3);
                lemma_fails_then::<W>(m0, a3, s4);
                lemma_fails_then::<W>(m0, a4, s5);
                lemma_fails_then::<W>(m0, a5, s6);
            }
            return r;
        }
        proof {
            lemma_step_on::<W>(m0, a1, s2);
        }
        let r = self.description.format(formatter);
        if r.is_err() {
            proof {
                lemma_fails_then::<W>(m0, a2, s3);
                lemma_fails_then::<W>(m0, a3, s4);
                lemma_fails_then::<W>(m0, a4, s5);
                lemma_fails_then::<W>(m0, a5, s6);
            }
            return r;
        }
        proof {
            lemma_step_on::<W>(m0, a2, s3);
        }
        let r = formatter.line();
        if r.is_err() {
            proof {
                lemma_fails_then::<W>(m0, a3, s4);
                lemma_fails_then::<W>(m0, a4, s5);
                lemma_fails_then::<W>(m0, a5, s6);
            }
            return r;
        }
        proof {
            lemma_step_on::<W>(m0, a3, s4);
        }
        let r = self.schema.format(formatter);
        if r.is_err() {
            proof {
                lemma_fails_then::<W>(m0, a4, s5);
                lemma_fails_then::<W>(m0, a5, s6);
            }
            return r;
        }
        proof {
            lemma_step_on::<W>(m0, a4, s5);
        }
        let r = self.directives.format(formatter);
        if r.is_err() {
            proof {
                lemma_fails_then::<W>(m0, a5, s6);
            }
            return r;
        }
        proof {
            lemma_step_on::<W>(m0, a5, s6);
        }
        self.type_definitions.format(formatter)
    }

    fn format_expanded<W: Write>(&self, formatter: &mut Formatter<W>) -> (r: Result<(), Error>) {
        self.format_collapsed(formatter)
    }

    fn expands(&self) -> (b: bool) {
        false
    }

    fn can_expand(&self) -> (b: bool) {
        false
    }
}

/// Root operation types go in braces, one per line.
impl Format for RootOperationTypeDefinitions {
    open spec fn collapsed(&self, sh: Shape) -> (Writes, Shape) {
        let s1 = formatted(&self.braces.0, sh);
        let s2 = indented(s1.1, fold(match self.definitions { Recoverable::Present(l) => l.0@, Recoverable::Missing(_) => Seq::empty() }, indent_open_step(s1.1).1, line_item::<RootOperationTypeDefinition>()));
        let s3 = formatted(&self.braces.1, s2.1);
        then(then(s1, s2), s3)
    }

    open spec fn expanded(&self, sh: Shape) -> (Writes, Shape) {
        self.collapsed(sh)
    }

    open spec fn spec_expands(&self) -> bool {
        false
    }

    open spec fn spec_can_expand(&self) -> bool {
        false
    }

    fn format_collapsed<W: Write>(&self, formatter: &mut Formatter<W>) -> (r: Result<(), Error>) {
        let ghost node = *self;
        let ghost m0 = formatter.model();
        let ghost sh0 = formatter.shape();
        let ghost s1 = formatted(&node.braces.0, sh0);
        let ghost s2 = indented(s1.1, fold(match node.definitions { Recoverable::Present(l) => l.0@, Recoverable::Missing(_) => Seq::empty() }, indent_open_step(s1.1).1, line_item::<RootOperationTypeDefinition>()));
        let ghost s3 = formatted(&node.braces.1, s2.1);
        let ghost a1 = s1;
        let ghost a2 = then(a1, s2);
        let ghost a3 = then(a2, s3);
        assert(self.collapsed(sh0) == a3);
        let r = self.braces.0.format(formatter);
        if r.is_err() {
            proof {
                lemma_fails_then::<W>(m0, a1, s2);
                lemma_fails_then::<W>(m0, a2, s3);
            }
            return r;
        }
        proof {
            lemma_step_on::<W>(m0, a1, s2);
        }
        let r = {
            let ghost mi1 = formatter.model();
            let ghost shi2 = formatter.shape();
            let ghost open3 = indent_open_step(shi2);
            let ghost body4 = fold(match node.definitions { Recoverable::Present(l) => l.0@, Recoverable::Missing(_) => Seq::empty() }, indent_open_step(shi2).1, line_item::<RootOperationTypeDefinition>());
            let ghost close5 = indent_close_step(body4.1);
            let r = formatter.open_indent();
            if r.is_err() {
                proof {
                    lemma_fails_then::<W>(mi1, open3, body4);
                    lemma_fails_then::<W>(mi1, then(open3, body4), close5);
                }
                r
            } else {
                proof {
                    lemma_step_on::<W>(mi1, open3, body4);
                }
                let r = match &self.definitions {
                    Recoverable::Present(l) => formatter.each_line(l.0.as_slice()),
                    Recoverable::Missing(_) => Ok(()),
                };
                if r.is_err() {
                    proof {
                        lemma_fails_then::<W>(mi1, then(open3, body4), close5);
                    }
                    r
                } else {
                    proof {
                        lemma_step_on::<W>(mi1, then(open3, body4), close5);
                    }
                    formatter.close_indent()
                }
            }
        };
        if r.is_err() {
            proof {
                lemma_fails_then::<W>(m0, a2, s3);
            }
            return r;
        }
        proof {
            lemma_step_on::<W>(m0, a2, s3);
        }
        self.braces.1.format(formatter)
    }

    fn format_expanded<W: Write>(&self, formatter: &mut Formatter<W>) -> (r: Result<(), Error>) {
        self.format_collapsed(formatter)
    }

    fn expands(&self) -> (b: bool) {
        false
    }

    fn can_expand(&self) -> (b: bool) {
        false
    }
}

impl Format for RootOperationTypeDefinition {
    open spec fn collapsed(&self, sh: Shape) -> (Writes, Shape) {
        let s1 = formatted(&self.operation_type, sh);
        let s2 = squeezed(s1.1, formatted(&self.colon, s1.1.with_whitespace(true)));
        let s3 = formatted(&self.named_type, s2.1);
        then(then(s1, s2), s3)
    }

    open spec fn expanded(&self, sh: Shape) -> (Writes, Shape) {
        self.collapsed(sh)
    }

    open spec fn spec_expands(&self) -> bool {
        false
    }

    open spec fn spec_can_expand(&self) -> bool {
        false
    }

    fn format_collapsed<W: Write>(&self, formatter: &mut Formatter<W>) -> (r: Result<(), Error>) {
        let ghost node = *self;
        let ghost m0 = formatter.model();
        let ghost sh0 = formatter.shape();
        let ghost s1 = formatted(&node.operation_type, sh0);
        let ghost s2 = squeezed(s1.1, formatted(&node.colon, s1.1.with_whitespace(true)));
        let ghost s3 = formatted(&node.named_type, s2.1);
        let ghost a1 = s1;
        let ghost a2 = then(a1, s2);
        let ghost a3 = then(a2, s3);
        assert(self.collapsed(sh0) == a3);
        let r = self.operation_type.format(formatter);
        if r.is_err() {
            proof {
                lemma_fails_then::<W>(m0, a1, s2);
                lemma_fails_then::<W>(m0, a2, s3);
            }
            return r;
        }
        proof {
            lemma_step_on::<W>(m0, a1, s2);
        }
        let r = {
            let ghost mq6 = formatter.model();
            let ghost shq7 = formatter.shape();
            let ws = formatter.begin_squeeze();
            let r = self.colon.format(formatter);
            formatter.end_squeeze(ws);
            proof {
                lemma_squeezed::<W>(mq6, shq7, formatted(&node.colon, shq7.with_whitespace(true)));
            }
            r
        };
        if r.is_err() {
            proof {
                lemma_fails_then::<W>(m0, a2, s3);
            }
            return r;
        }
        proof {
            lemma_step_on::<W>(m0, a2, s3);
        }
        self.named_type.format(formatter)
    }

    fn format_expanded<W: Write>(&self, formatter: &mut Formatter<W>) -> (r: Result<(), Error>) {
        self.format_collapsed(formatter)
    }

    fn expands(&self) -> (b: bool) {
        false
    }

    fn can_expand(&self) -> (b: bool) {
        false
    }
}

impl Format for SchemaExtension {
    open spec fn collapsed(&self, sh: Shape) -> (Writes, Shape) {
        let s1 = formatted(&self.extend_schema, sh);
        let s2 = formatted(&self.directives, s1.1);
        let s3 = formatted(&self.type_definitions, s2.1);
        then(then(s1, s2), s3)
    }

    open spec fn expanded(&self, sh: Shape) -> (Writes, Shape) {
        self.collapsed(sh)
    }

    open spec fn spec_expands(&self) -> bool {
        false
    }

    open spec fn spec_can_expand(&self) -> bool {
        false
    }

    fn format_collapsed<W: Write>(&self, formatter: &mut Formatter<W>) -> (r: Result<(), Error>) {
        let ghost node = *self;
        let ghost m0 = formatter.model();
        let ghost sh0 = formatter.shape();
        let ghost s1 = formatted(&node.extend_schema, sh0);
        let ghost s2 = formatted(&node.directives, s1.1);
        let ghost s3 = formatted(&node.type_definitions, s2.1);
        let ghost a1 = s1;
        let ghost a2 = then(a1, s2);
        let ghost a3 = then(a2, s3);
        assert(self.collapsed(sh0) == a3);
        let r = self.extend_schema.format(formatter);
        if r.is_err() {
            proof {
                lemma_fails_then::<W>(m0, a1, s2);
                lemma_fails_then::<W>(m0, a2, s3);
            }
            return r;
        }
        proof {
            lemma_step_on::<W>(m0, a1, s2);
        }
        let r = self.directives.format(formatter);
        if r.is_err() {
            proof {
                lemma_fails_then::<W>(m0, a2, s3);
            }
            return r;
        }
        proof {
            lemma_step_on::<W>(m0, a2, s3);
        }
        self.type_definitions.format(formatter)
    }

    fn format_expanded<W: Write>(&self, formatter: &mut Formatter<W>) -> (r: Result<(), Error>) {
        self.format_collapsed(formatter)
    }

    fn expands(&self) -> (b: bool) {
        false
    }

    fn can_expand(&self) -> (b: bool) {
        false
    }
}

/// Each kind is laid out as the node it holds.
impl Format for TypeDefinition {
    open spec fn collapsed(&self, sh: Shape) -> (Writes, Shape) {
        match self {
            TypeDefinition::ScalarTypeDefinition(node) => node.collapsed(sh),
            TypeDefinition::ObjectTypeDefinition(node) => node.collapsed(sh),
            TypeDefinition::InterfaceTypeDefinition(node) => node.collapsed(sh),
            TypeDefinition::UnionTypeDefinition(node) => node.collapsed(sh),
            TypeDefinition::EnumTypeDefinition(node) => node.collapsed(sh),
            TypeDefinition::InputObjectTypeDefinition(node) => node.collapsed(sh),
        }
    }

    open spec fn expanded(&self, sh: Shape) -> (Writes, Shape) {
        match self {
            TypeDefinition::ScalarTypeDefinition(node) => node.expanded(sh),
            TypeDefinition::ObjectTypeDefinition(node) => node.expanded(sh),
            TypeDefinition::InterfaceTypeDefinition(node) => node.expanded(sh),
            TypeDefinition::UnionTypeDefinition(node) => node.expanded(sh),
            TypeDefinition::EnumTypeDefinition(node) => node.expanded(sh),
            TypeDefinition::InputObjectTypeDefinition(node) => node.expanded(sh),
        }
    }

    open spec fn spec_expands(&self) -> bool {
        match self {
            TypeDefinition::ScalarTypeDefinition(node) => node.spec_expands(),
            TypeDefinition::ObjectTypeDefinition(node) => node.spec_expands(),
            TypeDefinition::InterfaceTypeDefinition(node) => node.spec_expands(),
            TypeDefinition::UnionTypeDefinition(node) => node.spec_expands(),
            TypeDefinition::EnumTypeDefinition(node) => node.spec_expands(),
            TypeDefinition::InputObjectTypeDefinition(node) => node.spec_expands(),
        }
    }

    open spec fn spec_can_expand(&self) -> bool {
        match self {
            TypeDefinition::ScalarTypeDefinition(node) => node.spec_can_expand(),
            TypeDefinition::ObjectTypeDefinition(node) => node.spec_can_expand(),
            TypeDefinition::InterfaceTypeDefinition(node) => node.spec_can_expand(),
            TypeDefinition::UnionTypeDefinition(node) => node.spec_can_expand(),
            TypeDefinition::EnumTypeDefinition(node) => node.spec_can_expand(),
            TypeDefinition::InputObjectTypeDefinition(node) => node.spec_can_expand(),
        }
    }

    fn format_collapsed<W: Write>(&self, formatter: &mut Formatter<W>) -> (r: Result<(), Error>) {
        match self {
            TypeDefinition::ScalarTypeDefinition(node) => node.format_collapsed(formatter),
            TypeDefinition::ObjectTypeDefinition(node) => node.format_collapsed(formatter),
            TypeDefinition::InterfaceTypeDefinition(node) => node.format_collapsed(formatter),
            TypeDefinition::UnionTypeDefinition(node) => node.format_collapsed(formatter),
            TypeDefinition::EnumTypeDefinition(node) => node.format_collapsed(formatter),
            TypeDefinition::InputObjectTypeDefinition(node) => node.format_collapsed(formatter),
        }
    }

    fn format_expanded<W: Write>(&self, formatter: &mut Formatter<W>) -> (r: Result<(), Error>) {
        match self {
            TypeDefinition::ScalarTypeDefinition(node) => node.format_expanded(formatter),
            TypeDefinition::ObjectTypeDefinition(node) => node.format_expanded(formatter),
            TypeDefinition::InterfaceTypeDefinition(node) => node.format_expanded(formatter),
            TypeDefinition::UnionTypeDefinition(node) => node.format_expanded(formatter),
            TypeDefinition::EnumTypeDefinition(node) => node.format_expanded(formatter),
            TypeDefinition::InputObjectTypeDefinition(node) => node.format_expanded(formatter),
        }
    }

    fn expands(&self) -> (b: bool) {
        match self {
            TypeDefinition::ScalarTypeDefinition(node) => node.expands(),
            TypeDefinition::ObjectTypeDefinition(node) => node.expands(),
            TypeDefinition::InterfaceTypeDefinition(node) => node.expands(),
            TypeDefinition::UnionTypeDefinition(node) => node.expands(),
            TypeDefinition::EnumTypeDefinition(node) => node.expands(),
            TypeDefinition::InputObjectTypeDefinition(node) => node.expands(),
        }
    }

    fn can_expand(&self) -> (b: bool) {
        match self {
            TypeDefinition::ScalarTypeDefinition(node) => node.can_expand(),
            TypeDefinition::ObjectTypeDefinition(node) => node.can_expand(),
            TypeDefinition::InterfaceTypeDefinition(node) => node.can_expand(),
            TypeDefinition::UnionTypeDefinition(node) => node.can_expand(),
            TypeDefinition::EnumTypeDefinition(node) => node.can_expand(),
            TypeDefinition::InputObjectTypeDefinition(node) => node.can_expand(),
        }
    }
}

/// Each kind is laid out as the node it holds.
impl Format for TypeExtension {
    open spec fn collapsed(&self, sh: Shape) -> (Writes, Shape) {
        match self {
            TypeExtension::ScalarTypeExtension(node) => node.collapsed(sh),
            TypeExtension::ObjectTypeExtension(node) => node.collapsed(sh),
            TypeExtension::InterfaceTypeExtension(node) => node.collapsed(sh),
            TypeExtension::UnionTypeExtension(node) => node.collapsed(sh),
            TypeExtension::EnumTypeExtension(node) => node.collapsed(sh),
            TypeExtension::InputObjectTypeExtension(node) => node.collapsed(sh),
        }
    }

    open spec fn expanded(&self, sh: Shape) -> (Writes, Shape) {
        match self {
            TypeExtension::ScalarTypeExtension(node) => node.expanded(sh),
            TypeExtension::ObjectTypeExtension(node) => node.expanded(sh),
            TypeExtension::InterfaceTypeExtension(node) => node.expanded(sh),
            TypeExtension::UnionTypeExtension(node) => node.expanded(sh),
            TypeExtension::EnumTypeExtension(node) => node.expanded(sh),
            TypeExtension::InputObjectTypeExtension(node) => node.expanded(sh),
        }
    }

    open spec fn spec_expands(&self) -> bool {
        match self {
            TypeExtension::ScalarTypeExtension(node) => node.spec_expands(),
            TypeExtension::ObjectTypeExtension(node) => node.spec_expands(),
            TypeExtension::InterfaceTypeExtension(node) => node.spec_expands(),
            TypeExtension::UnionTypeExtension(node) => node.spec_expands(),
            TypeExtension::EnumTypeExtension(node) => node.spec_expands(),
            TypeExtension::InputObjectTypeExtension(node) => node.spec_expands(),
        }
    }

    open spec fn spec_can_expand(&self) -> bool {
        match self {
            TypeExtension::ScalarTypeExtension(node) => node.spec_can_expand(),
            TypeExtension::ObjectTypeExtension(node) => node.spec_can_expand(),
            TypeExtension::InterfaceTypeExtension(node) => node.spec_can_expand(),
            TypeExtension::UnionTypeExtension(node) => node.spec_can_expand(),
            TypeExtension::EnumTypeExtension(node) => node.spec_can_expand(),
            TypeExtension::InputObjectTypeExtension(node) => node.spec_can_expand(),
        }
    }

    fn format_collapsed<W: Write>(&self, formatter: &mut Formatter<W>) -> (r: Result<(), Error>) {
        match self {
            TypeExtension::ScalarTypeExtension(node) => node.format_collapsed(formatter),
            TypeExtension::ObjectTypeExtension(node) => node.format_collapsed(formatter),
            TypeExtension::InterfaceTypeExtension(node) => node.format_collapsed(formatter),
            TypeExtension::UnionTypeExtension(node) => node.format_collapsed(formatter),
            TypeExtension::EnumTypeExtension(node) => node.format_collapsed(formatter),
            TypeExtension::InputObjectTypeExtension(node) => node.format_collapsed(formatter),
        }
    }

    fn format_expanded<W: Write>(&self, formatter: &mut Formatter<W>) -> (r: Result<(), Error>) {
        match self {
            TypeExtension::ScalarTypeExtension(node) => node.format_expanded(formatter),
            TypeExtension::ObjectTypeExtension(node) => node.format_expanded(formatter),
            TypeExtension::InterfaceTypeExtension(node) => node.format_expanded(formatter),
            TypeExtension::UnionTypeExtension(node) => node.format_expanded(formatter),
            TypeExtension::EnumTypeExtension(node) => node.format_expanded(formatter),
            TypeExtension::InputObjectTypeExtension(node) => node.format_expanded(formatter),
        }
    }

    fn expands(&self) -> (b: bool) {
        match self {
            TypeExtension::ScalarTypeExtension(node) => node.expands(),
            TypeExtension::ObjectTypeExtension(node) => node.expands(),
            TypeExtension::InterfaceTypeExtension(node) => node.expands(),
            TypeExtension::UnionTypeExtension(node) => node.expands(),
            TypeExtension::EnumTypeExtension(node) => node.expands(),
            TypeExtension::InputObjectTypeExtension(node) => node.expands(),
        }
    }

    fn can_expand(&self) -> (b: bool) {
        match self {
            TypeExtension::ScalarTypeExtension(node) => node.can_expand(),
            TypeExtension::ObjectTypeExtension(node) => node.can_expand(),
            TypeExtension::InterfaceTypeExtension(node) => node.can_expand(),
            TypeExtension::UnionTypeExtension(node) => node.can_expand(),
            TypeExtension::EnumTypeExtension(node) => node.can_expand(),
            TypeExtension::InputObjectTypeExtension(node) => node.can_expand(),
        }
    }
}

impl Format for ScalarTypeDefinition {
    open spec fn collapsed(&self, sh: Shape) -> (Writes, Shape) {
        let s1 = lines_step(sh, 2);
        let s2 = formatted(&self.description, s1.1);
        let s3 = lines_step(s2.1, 1);
        let s4 = formatted(&self.scalar, s3.1);
        let s5 = formatted(&self.name, s4.1);
        let s6 = formatted(&self.directives, s5.1);
        then(then(then(then(then(s1, s2), s3), s4), s5), s6)
    }

    open spec fn expanded(&self, sh: Shape) -> (Writes, Shape) {
        self.collapsed(sh)
    }

    open spec fn spec_expands(&self) -> bool {
        false
    }

    open spec fn spec_can_expand(&self) -> bool {
        false
    }

    fn format_collapsed<W: Write>(&self, formatter: &mut Formatter<W>) -> (r: Result<(), Error>) {
        let ghost node = *self;
        let ghost m0 = formatter.model();
        let ghost sh0 = formatter.shape();
        let ghost s1 = lines_step(sh0, 2);
        let ghost s2 = formatted(&node.description, s1.1);
        let ghost s3 = lines_step(s2.1, 1);
        let ghost s4 = formatted(&node.scalar, s3.1);
        let ghost s5 = formatted(&node.name, s4.1);
        let ghost s6 = formatted(&node.directives, s5.1);
        let ghost a1 = s1;
        let ghost a2 = then(a1, s2);
        let ghost a3 = then(a2, s3);
        let ghost a4 = then(a3, s4);
        let ghost a5 = then(a4, s5);
        let ghost a6 = then(a5, s6);
        assert(self.collapsed(sh0) == a6);
        let r = formatter.page();
        if r.is_err() {
            proof {
                lemma_fails_then::<W>(m0, a1, s2);
                lemma_fails_then::<W>(m0, a2, s3);
                lemma_fails_then::<W>(m0, a3, s4);
                lemma_fails_then::<W>(m0, a4, s5);
                lemma_fails_then::<W>(m0, a5, s6);
            }
            return r;
        }
        proof {
            lemma_step_on::<W>(m0, a1, s2);
        }
        let r = self.description.format(formatter);
        if r.is_err() {
            proof {
                lemma_fails_then::<W>(m0, a2, s3);
                lemma_fails_then::<W>(m0, a3, s4);
                lemma_fails_then::<W>(m0, a4, s5);
                lemma_fails_then::<W>(m0, a5, s6);
            }
            return r;
        }
        proof {
            lemma_step_on::<W>(m0, a2, s3);
        }
        let r = formatter.line();
        if r.is_err() {
            proof {
                lemma_fails_then::<W>(m0, a3, s4);
                lemma_fails_then::<W>(m0, a4, s5);
                lemma_fails_then::<W>(m0, a5, s6);
            }
            return r;
        }
        proof {
            lemma_step_on::<W>(m0, a3, s4);
        }
        let r = self.scalar.format(formatter);
        if r.is_err() {
            proof {
                lemma_fails_then::<W>(m0, a4, s5);
                lemma_fails_then::<W>(m0, a5, s6);
            }
            return r;
        }
        proof {
            lemma_step_on::<W>(m0, a4, s5);
        }
        let r = self.name.format(formatter);
        if r.is_err() {
            proof {
                lemma_fails_then::<W>(m0, a5, s6);
            }
            return r;
        }
        proof {
            lemma_step_on::<W>(m0, a5, s6);
        }
        self.directives.format(formatter)
    }

    fn format_expanded<W: Write>(&self, formatter: &mut Formatter<W>) -> (r: Result<(), Error>) {
        self.format_collapsed(formatter)
    }

    fn expands(&self) -> (b: bool) {
        false
    }

    fn can_expand(&self) -> (b: bool) {
        false
    }
}

impl Format for ScalarTypeExtension {
    open spec fn collapsed(&self, sh: Shape) -> (Writes, Shape) {
        let s1 = formatted(&self.extend_scalar, sh);
        let s2 = formatted(&self.name, s1.1);
        let s3 = formatted(&self.directives, s2.1);
        then(then(s1, s2), s3)
    }

    open spec fn expanded(&self, sh: Shape) -> (Writes, Shape) {
        self.collapsed(sh)
    }

    open spec fn spec_expands(&self) -> bool {
        false
    }

    open spec fn spec_can_expand(&self) -> bool {
        false
    }

    fn format_collapsed<W: Write>(&self, formatter: &mut Formatter<W>) -> (r: Result<(), Error>) {
        let ghost node = *self;
        let ghost m0 = formatter.model();
        let ghost sh0 = formatter.shape();
        let ghost s1 = formatted(&node.extend_scalar, sh0);
        let ghost s2 = formatted(&node.name, s1.1);
        let ghost s3 = formatted(&node.directives, s2.1);
        let ghost a1 = s1;
        let ghost a2 = then(a1, s2);
        let ghost a3 = then(a2, s3);
        assert(self.collapsed(sh0) == a3);
        let r = self.extend_scalar.format(formatter);
        if r.is_err() {
            proof {
                lemma_fails_then::<W>(m0, a1, s2);
                lemma_fails_then::<W>(m0, a2, s3);
            }
            return r;
        }
        proof {
            lemma_step_on::<W>(m0, a1, s2);
        }
        let r = self.name.format(formatter);
        if r.is_err() {
            proof {
                lemma_fails_then::<W>(m0, a2, s3);
            }
            return r;
        }
        proof {
            lemma_step_on::<W>(m0, a2, s3);
        }
        self.directives.format(formatter)
    }

    fn format_expanded<W: Write>(&self, formatter: &mut Formatter<W>) -> (r: Result<(), Error>) {
        self.format_collapsed(formatter)
    }

    fn expands(&self) -> (b: bool) {
        false
    }

    fn can_expand(&self) -> (b: bool) {
        false
    }
}

impl Format for ObjectTypeDefinition {
    open spec fn collapsed(&self, sh: Shape) -> (Writes, Shape) {
        let s1 = lines_step(sh, 2);
        let s2 = formatted(&self.description, s1.1);
        let s3 = lines_step(s2.1, 1);
        let s4 = formatted(&self.ty, s3.1);
        let s5 = formatted(&self.name, s4.1);
        let s6 = formatted(&self.implements_interfaces, s5.1);
        let s7 = formatted(&self.directives, s6.1);
        let s8 = formatted(&self.fields_definition, s7.1);
        then(then(then(then(then(then(then(s1, s2), s3), s4), s5), s6), s7), s8)
    }

    open spec fn expanded(&self, sh: Shape) -> (Writes, Shape) {
        self.collapsed(sh)
    }

    open spec fn spec_expands(&self) -> bool {
        false
    }

    open spec fn spec_can_expand(&self) -> bool {
        false
    }

    fn format_collapsed<W: Write>(&self, formatter: &mut Formatter<W>) -> (r: Result<(), Error>) {
        let ghost node = *self;
        let ghost m0 = formatter.model();
        let ghost sh0 = formatter.shape();
        let ghost s1 = lines_step(sh0, 2);
        let ghost s2 = formatted(&node.description, s1.1);
        let ghost s3 = lines_step(s2.1, 1);
        let ghost s4 = formatted(&node.ty, s3.1);
        let ghost s5 = formatted(&node.name, s4.1);
        let ghost s6 = formatted(&node.implements_interfaces, s5.1);
        let ghost s7 = formatted(&node.directives, s6.1);
        let ghost s8 = formatted(&node.fields_definition, s7.1);
        let ghost a1 = s1;
        let ghost a2 = then(a1, s2);
        let ghost a3 = then(a2, s3);
        let ghost a4 = then(a3, s4);
        let ghost a5 = then(a4, s5);
        let ghost a6 = then(a5, s6);
        let ghost a7 = then(a6, s7);
        let ghost a8 = then(a7, s8);
        assert(self.collapsed(sh0) == a8);
        let r = formatter.page();
        if r.is_err() {
            proof {
                lemma_fails_then::<W>(m0, a1, s2);
                lemma_fails_then::<W>(m0, a2, s3);
                lemma_fails_then::<W>(m0, a3, s4);
                lemma_fails_then::<W>(m0, a4, s5);
                lemma_fails_then::<W>(m0, a5, s6);
                lemma_fails_then::<W>(m0, a6, s7);
                lemma_fails_then::<W>(m0, a7, s8);
            }
            return r;
        }
        proof {
            lemma_step_on::<W>(m0, a1, s2);
        }
        let r = self.description.format(formatter);
        if r.is_err() {
            proof {
                lemma_fails_then::<W>(m0, a2, s3);
                lemma_fails_then::<W>(m0, a3, s4);
                lemma_fails_then::<W>(m0, a4, s5);
                lemma_fails_then::<W>(m0, a5, s6);
                lemma_fails_then::<W>(m0, a6, s7);
                lemma_fails_then::<W>(m0, a7, s8);
            }
            return r;
        }
        proof {
            lemma_step_on::<W>(m0, a2, s3);
        }
        let r = formatter.line();
        if r.is_err() {
            proof {
                lemma_fails_then::<W>(m0, a3, s4);
                lemma_fails_then::<W>(m0, a4, s5);
                lemma_fails_then::<W>(m0, a5, s6);
                lemma_fails_then::<W>(m0, a6, s7);
                lemma_fails_then::<W>(m0, a7, s8);
            }
            return r;
        }
        proof {
            lemma_step_on::<W>(m0, a3, s4);
        }
        let r = self.ty.format(formatter);
        if r.is_err() {
            proof {
                lemma_fails_then::<W>(m0, a4, s5);
                lemma_fails_then::<W>(m0, a5, s6);
                lemma_fails_then::<W>(m0, a6, s7);
                lemma_fails_then::<W>(m0, a7, s8);
            }
            return r;
        }
        proof {
            lemma_step_on::<W>(m0, a4, s5);
        }
        let r = self.name.format(formatter);
        if r.is_err() {
            proof {
                lemma_fails_then::<W>(m0, a5, s6);
                lemma_fails_then::<W>(m0, a6, s7);
                lemma_fails_then::<W>(m0, a7, s8);
            }
            return r;
        }
        proof {
            lemma_step_on::<W>(m0, a5, s6);
        }
        let r = self.implements_interfaces.format(formatter);
        if r.is_err() {
            proof {
                lemma_fails_then::<W>(m0, a6, s7);
                lemma_fails_then::<W>(m0, a7, s8);
            }
            return r;
        }
        proof {
            lemma_step_on::<W>(m0, a6, s7);
        }
        let r = self.directives.format(formatter);
        if r.is_err() {
            proof {
                lemma_fails_then::<W>(m0, a7, s8);
            }
            return r;
        }
        proof {
            lemma_step_on::<W>(m0, a7, s8);
        }
        self.fields_definition.format(formatter)
    }

    fn format_expanded<W: Write>(&self, formatter: &mut Formatter<W>) -> (r: Result<(), Error>) {
        self.format_collapsed(formatter)
    }

    fn expands(&self) -> (b: bool) {
        false
    }

    fn can_expand(&self) -> (b: bool) {
        false
    }
}

/// The interfaces follow the keyword, an ampersand between each two.
impl Format for ImplementsInterfaces {
    open spec fn collapsed(&self, sh: Shape) -> (Writes, Shape) {
        let s1 = formatted(&self.implements, sh);
        let s2 = fold(present_types(self.first, self.types.0@), s1.1, separated_item::<Shared<NamedType>>("&"@));
        then(s1, s2)
    }

    open spec fn expanded(&self, sh: Shape) -> (Writes, Shape) {
        self.collapsed(sh)
    }

    open spec fn spec_expands(&self) -> bool {
        false
    }

    open spec fn spec_can_expand(&self) -> bool {
        false
    }

    fn format_collapsed<W: Write>(&self, formatter: &mut Formatter<W>) -> (r: Result<(), Error>) {
        let ghost node = *self;
        let ghost m0 = formatter.model();
        let ghost sh0 = formatter.shape();
        let ghost s1 = formatted(&node.implements, sh0);
        let ghost s2 = fold(present_types(node.first, node.types.0@), s1.1, separated_item::<Shared<NamedType>>("&"@));
        let ghost a1 = s1;
        let ghost a2 = then(a1, s2);
        assert(self.collapsed(sh0) == a2);
        let r = self.implements.format(formatter);
        if r.is_err() {
            proof {
                lemma_fails_then::<W>(m0, a1, s2);
            }
            return r;
        }
        proof {
            lemma_step_on::<W>(m0, a1, s2);
        }
        format_separated(&self.named_types(), "&", formatter)
    }

    fn format_expanded<W: Write>(&self, formatter: &mut Formatter<W>) -> (r: Result<(), Error>) {
        self.format_collapsed(formatter)
    }

    fn expands(&self) -> (b: bool) {
        false
    }

    fn can_expand(&self) -> (b: bool) {
        false
    }
}

/// Field definitions go in braces, one per line.
impl Format for FieldsDefinition {
    open spec fn collapsed(&self, sh: Shape) -> (Writes, Shape) {
        let s1 = formatted(&self.braces.0, sh);
        let s2 = indented(s1.1, fold(self.definitions.0@, indent_open_step(s1.1).1, line_item::<Shared<FieldDefinition>>()));
        let s3 = formatted(&self.braces.1, s2.1);
        then(then(s1, s2), s3)
    }

    open spec fn expanded(&self, sh: Shape) -> (Writes, Shape) {
        self.collapsed(sh)
    }

    open spec fn spec_expands(&self) -> bool {
        false
    }

    open spec fn spec_can_expand(&self) -> bool {
        false
    }

    fn format_collapsed<W: Write>(&self, formatter: &mut Formatter<W>) -> (r: Result<(), Error>) {
        let ghost node = *self;
        let ghost m0 = formatter.model();
        let ghost sh0 = formatter.shape();
        let ghost s1 = formatted(&node.braces.0, sh0);
        let ghost s2 = indented(s1.1, fold(node.definitions.0@, indent_open_step(s1.1).1, line_item::<Shared<FieldDefinition>>()));
        let ghost s3 = formatted(&node.braces.1, s2.1);
        let ghost a1 = s1;
        let ghost a2 = then(a1, s2);
        let ghost a3 = then(a2, s3);
        assert(self.collapsed(sh0) == a3);
        let r = self.braces.0.format(formatter);
        if r.is_err() {
            proof {
                lemma_fails_then::<W>(m0, a1, s2);
                lemma_fails_then::<W>(m0, a2, s3);
            }
            return r;
        }
        proof {
            lemma_step_on::<W>(m0, a1, s2);
        }
        let r = {
            let ghost mi8 = formatter.model();
            let ghost shi9 = formatter.shape();
            let ghost open10 = indent_open_step(shi9);
            let ghost body11 = fold(node.definitions.0@, indent_open_step(shi9).1, line_item::<Shared<FieldDefinition>>());
            let ghost close12 = indent_close_step(body11.1);
            let r = formatter.open_indent();
            if r.is_err() {
                proof {
                    lemma_fails_then::<W>(mi8, open10, body11);
                    lemma_fails_then::<W>(mi8, then(open10, body11), close12);
                }
                r
            } else {
                proof {
                    lemma_step_on::<W>(mi8, open10, body11);
                }
                let r = formatter.each_line(self.definitions.0.as_slice());
                if r.is_err() {
                    proof {
                        lemma_fails_then::<W>(mi8, then(open10, body11), close12);
                    }
                    r
                } else {
                    proof {
                        lemma_step_on::<W>(mi8, then(open10, body11), close12);
                    }
                    formatter.close_indent()
                }
            }
        };
        if r.is_err() {
            proof {
                lemma_fails_then::<W>(m0, a2, s3);
            }
            return r;
        }
        proof {
            lemma_step_on::<W>(m0, a2, s3);
        }
        self.braces.1.format(formatter)
    }

    fn format_expanded<W: Write>(&self, formatter: &mut Formatter<W>) -> (r: Result<(), Error>) {
        self.format_collapsed(formatter)
    }

    fn expands(&self) -> (b: bool) {
        false
    }

    fn can_expand(&self) -> (b: bool) {
        false
    }
}

/// A field definition starts on a line of its own, after its description.
impl Format for FieldDefinition {
    open spec fn collapsed(&self, sh: Shape) -> (Writes, Shape) {
        let s1 = match self.description { Some(d) => then(lines_step(sh, 2), formatted(&d, lines_step(sh, 2).1)), None => nothing(sh) };
        let s2 = lines_step(s1.1, 1);
        let s3 = formatted(&self.name, s2.1);
        let s4 = squeezed(s3.1, formatted(&self.arguments_definition, s3.1.with_whitespace(true)));
        let s5 = squeezed(s4.1, formatted(&self.colon, s4.1.with_whitespace(true)));
        let s6 = formatted(&self.ty, s5.1);
        let s7 = formatted(&self.directives, s6.1);
        then(then(then(then(then(then(s1, s2), s3), s4), s5), s6), s7)
    }

    open spec fn expanded(&self, sh: Shape) -> (Writes, Shape) {
        self.collapsed(sh)
    }

    open spec fn spec_expands(&self) -> bool {
        false
    }

    open spec fn spec_can_expand(&self) -> bool {
        false
    }

    fn format_collapsed<W: Write>(&self, formatter: &mut Formatter<W>) -> (r: Result<(), Error>) {
        let ghost node = *self;
        let ghost m0 = formatter.model();
        let ghost sh0 = formatter.shape();
        let ghost s1 = match node.description { Some(d) => then(lines_step(sh0, 2), formatted(&d, lines_step(sh0, 2).1)), None => nothing(sh0) };
        let ghost s2 = lines_step(s1.1, 1);
        let ghost s3 = formatted(&node.name, s2.1);
        let ghost s4 = squeezed(s3.1, formatted(&node.arguments_definition, s3.1.with_whitespace(true)));
        let ghost s5 = squeezed(s4.1, formatted(&node.colon, s4.1.with_whitespace(true)));
        let ghost s6 = formatted(&node.ty, s5.1);
        let ghost s7 = formatted(&node.directives, s6.1);
        let ghost a1 = s1;
        let ghost a2 = then(a1, s2);
        let ghost a3 = then(a2, s3);
        let ghost a4 = then(a3, s4);
        let ghost a5 = then(a4, s5);
        let ghost a6 = then(a5, s6);
        let ghost a7 = then(a6, s7);
        assert(self.collapsed(sh0) == a7);
        let r = match &self.description {
            Some(d) => {
                let ghost mo13 = formatter.model();
                let ghost sho14 = formatter.shape();
                let ghost page15 = lines_step(sho14, 2);
                let ghost desc16 = formatted(d, page15.1);
                let r = formatter.page();
                if r.is_err() {
                    proof {
                        lemma_fails_then::<W>(mo13, page15, desc16);
                    }
                    r
                } else {
                    proof {
                        lemma_step_on::<W>(mo13, page15, desc16);
                    }
                    d.format(formatter)
                }
            },
            None => Ok(()),
        };
        if r.is_err() {
            proof {
                lemma_fails_then::<W>(m0, a1, s2);
                lemma_fails_then::<W>(m0, a2, s3);
                lemma_fails_then::<W>(m0, a3, s4);
                lemma_fails_then::<W>(m0, a4, s5);
                lemma_fails_then::<W>(m0, a5, s6);
                lemma_fails_then::<W>(m0, a6, s7);
            }
            return r;
        }
        proof {
            lemma_step_on::<W>(m0, a1, s2);
        }
        let r = formatter.line();
        if r.is_err() {
            proof {
                lemma_fails_then::<W>(m0, a2, s3);
                lemma_fails_then::<W>(m0, a3, s4);
                lemma_fails_then::<W>(m0, a4, s5);
                lemma_fails_then::<W>(m0, a5, s6);
                lemma_fails_then::<W>(m0, a6, s7);
            }
            return r;
        }
        proof {
            lemma_step_on::<W>(m0, a2, s3);
        }
        let r = self.name.format(formatter);
        if r.is_err() {
            proof {
                lemma_fails_then::<W>(m0, a3, s4);
                lemma_fails_then::<W>(m0, a4, s5);
                lemma_fails_then::<W>(m0, a5, s6);
                lemma_fails_then::<W>(m0, a6, s7);
            }
            return r;
        }
        proof {
            lemma_step_on::<W>(m0, a3, s4);
        }
        let r = {
            let ghost mq17 = formatter.model();
            let ghost shq18 = formatter.shape();
            let ws = formatter.begin_squeeze();
            let r = self.arguments_definition.format(formatter);
            formatter.end_squeeze(ws);
            proof {
                lemma_squeezed::<W>(mq17, shq18, formatted(&node.arguments_definition, shq18.with_whitespace(true)));
            }
            r
        };
        if r.is_err() {
            proof {
                lemma_fails_then::<W>(m0, a4, s5);
                lemma_fails_then::<W>(m0, a5, s6);
                lemma_fails_then::<W>(m0, a6, s7);
            }
            return r;
        }
        proof {
            lemma_step_on::<W>(m0, a4, s5);
        }
        let r = {
            let ghost mq19 = formatter.model();
            let ghost shq20 = formatter.shape();
            let ws = formatter.begin_squeeze();
            let r = self.colon.format(formatter);
            formatter.end_squeeze(ws);
            proof {
                lemma_squeezed::<W>(mq19, shq20, formatted(&node.colon, shq20.with_whitespace(true)));
            }
            r
        };
        if r.is_err() {
            proof {
                lemma_fails_then::<W>(m0, a5, s6);
                lemma_fails_then::<W>(m0, a6, s7);
            }
            return r;
        }
        proof {
            lemma_step_on::<W>(m0, a5, s6);
        }
        let r = self.ty.format(formatter);
        if r.is_err() {
            proof {
                lemma_fails_then::<W>(m0, a6, s7);
            }
            return r;
        }
        proof {
            lemma_step_on::<W>(m0, a6, s7);
        }
        self.directives.format(formatter)
    }

    fn format_expanded<W: Write>(&self, formatter: &mut Formatter<W>) -> (r: Result<(), Error>) {
        self.format_collapsed(formatter)
    }

    fn expands(&self) -> (b: bool) {
        false
    }

    fn can_expand(&self) -> (b: bool) {
        false
    }
}

/// Argument definitions go in parentheses, separated by commas, or one per line when broken up.
impl Format for ArgumentsDefinition {
    open spec fn collapsed(&self, sh: Shape) -> (Writes, Shape) {
        let s1 = formatted(&self.parens.0, sh);
        let s2 = squeezed(s1.1, fold(self.definitions.0@, s1.1.with_whitespace(true), comma_item::<Shared<InputValueDefinition>>()));
        let s3 = formatted(&self.parens.1, s2.1);
        then(then(s1, s2), s3)
    }

    open spec fn expanded(&self, sh: Shape) -> (Writes, Shape) {
        let s1 = formatted(&self.parens.0, sh);
        let s2 = indented(s1.1, fold(self.definitions.0@, indent_open_step(s1.1).1, line_comma_item::<Shared<InputValueDefinition>>()));
        let s3 = formatted(&self.parens.1, s2.1);
        then(then(s1, s2), s3)
    }

    open spec fn spec_expands(&self) -> bool {
        exists|i: int| 0 <= i < self.definitions.0@.len() && #[trigger] self.definitions.0@[i].spec_expands()
    }

    open spec fn spec_can_expand(&self) -> bool {
        true
    }

    fn format_collapsed<W: Write>(&self, formatter: &mut Formatter<W>) -> (r: Result<(), Error>) {
        let ghost node = *self;
        let ghost m0 = formatter.model();
        let ghost sh0 = formatter.shape();
        let ghost s1 = formatted(&node.parens.0, sh0);
        let ghost s2 = squeezed(s1.1, fold(node.definitions.0@, s1.1.with_whitespace(true), comma_item::<Shared<InputValueDefinition>>()));
        let ghost s3 = formatted(&node.parens.1, s2.1);
        let ghost a1 = s1;
        let ghost a2 = then(a1, s2);
        let ghost a3 = then(a2, s3);
        assert(self.collapsed(sh0) == a3);
        let r = self.parens.0.format(formatter);
        if r.is_err() {
            proof {
                lemma_fails_then::<W>(m0, a1, s2);
                lemma_fails_then::<W>(m0, a2, s3);
            }
            return r;
        }
        proof {
            lemma_step_on::<W>(m0, a1, s2);
        }
        let r = {
            let ghost mq21 = formatter.model();
            let ghost shq22 = formatter.shape();
            let ws = formatter.begin_squeeze();
            let r = formatter.each_comma(self.definitions.0.as_slice());
            formatter.end_squeeze(ws);
            proof {
                lemma_squeezed::<W>(mq21, shq22, fold(node.definitions.0@, shq22.with_whitespace(true), comma_item::<Shared<InputValueDefinition>>()));
            }
            r
        };
        if r.is_err() {
            proof {
                lemma_fails_then::<W>(m0, a2, s3);
            }
            return r;
        }
        proof {
            lemma_step_on::<W>(m0, a2, s3);
        }
        self.parens.1.format(formatter)
    }

    fn format_expanded<W: Write>(&self, formatter: &mut Formatter<W>) -> (r: Result<(), Error>) {
        let ghost node = *self;
        let ghost m0 = formatter.model();
        let ghost sh0 = formatter.shape();
        let ghost s1 = formatted(&node.parens.0, sh0);
        let ghost s2 = indented(s1.1, fold(node.definitions.0@, indent_open_step(s1.1).1, line_comma_item::<Shared<InputValueDefinition>>()));
        let ghost s3 = formatted(&node.parens.1, s2.1);
        let ghost a1 = s1;
        let ghost a2 = then(a1, s2);
        let ghost a3 = then(a2, s3);
        assert(self.expanded(sh0) == a3);
        let r = self.parens.0.format(formatter);
        if r.is_err() {
            proof {
                lemma_fails_then::<W>(m0, a1, s2);
                lemma_fails_then::<W>(m0, a2, s3);
            }
            return r;
        }
        proof {
            lemma_step_on::<W>(m0, a1, s2);
        }
        let r = {
            let ghost mi23 = formatter.model();
            let ghost shi24 = formatter.shape();
            let ghost open25 = indent_open_step(shi24);
            let ghost body26 = fold(node.definitions.0@, indent_open_step(shi24).1, line_comma_item::<Shared<InputValueDefinition>>());
            let ghost close27 = indent_close_step(body26.1);
            let r = formatter.open_indent();
            if r.is_err() {
                proof {
                    lemma_fails_then::<W>(mi23, open25, body26);
                    lemma_fails_then::<W>(mi23, then(open25, body26), close27);
                }
                r
            } else {
                proof {
                    lemma_step_on::<W>(mi23, open25, body26);
                }
                let r = formatter.each_line_comma(self.definitions.0.as_slice());
                if r.is_err() {
                    proof {
                        lemma_fails_then::<W>(mi23, then(open25, body26), close27);
                    }
                    r
                } else {
                    proof {
                        lemma_step_on::<W>(mi23, then(open25, body26), close27);
                    }
                    formatter.close_indent()
                }
            }
        };
        if r.is_err() {
            proof {
                lemma_fails_then::<W>(m0, a2, s3);
            }
            return r;
        }
        proof {
            lemma_step_on::<W>(m0, a2, s3);
        }
        self.parens.1.format(formatter)
    }

    fn expands(&self) -> (b: bool) {
        any_expands(self.definitions.0.as_slice())
    }

    fn can_expand(&self) -> (b: bool) {
        true
    }
}

/// An input value definition starts on a line of its own, after its description.
impl Format for InputValueDefinition {
    open spec fn collapsed(&self, sh: Shape) -> (Writes, Shape) {
        let s1 = match self.description { Some(d) => then(lines_step(sh, 2), formatted(&d, lines_step(sh, 2).1)), None => nothing(sh) };
        let s2 = lines_step(s1.1, 1);
        let s3 = formatted(&self.name, s2.1);
        let s4 = squeezed(s3.1, formatted(&self.colon, s3.1.with_whitespace(true)));
        let s5 = formatted(&self.ty, s4.1);
        let s6 = formatted(&self.default_value, s5.1);
        let s7 = formatted(&self.directives, s6.1);
        then(then(then(then(then(then(s1, s2), s3), s4), s5), s6), s7)
    }

    open spec fn expanded(&self, sh: Shape) -> (Writes, Shape) {
        self.collapsed(sh)
    }

    open spec fn spec_expands(&self) -> bool {
        self.description is Some || self.default_value is Some || self.directives is Some
    }

    open spec fn spec_can_expand(&self) -> bool {
        false
    }

    fn format_collapsed<W: Write>(&self, formatter: &mut Formatter<W>) -> (r: Result<(), Error>) {
        let ghost node = *self;
        let ghost m0 = formatter.model();
        let ghost sh0 = formatter.shape();
        let ghost s1 = match node.description { Some(d) => then(lines_step(sh0, 2), formatted(&d, lines_step(sh0, 2).1)), None => nothing(sh0) };
        let ghost s2 = lines_step(s1.1, 1);
        let ghost s3 = formatted(&node.name, s2.1);
        let ghost s4 = squeezed(s3.1, formatted(&node.colon, s3.1.with_whitespace(true)));
        let ghost s5 = formatted(&node.ty, s4.1);
        let ghost s6 = formatted(&node.default_value, s5.1);
        let ghost s7 = formatted(&node.directives, s6.1);
        let ghost a1 = s1;
        let ghost a2 = then(a1, s2);
        let ghost a3 = then(a2, s3);
        let ghost a4 = then(a3, s4);
        let ghost a5 = then(a4, s5);
        let ghost a6 = then(a5, s6);
        let ghost a7 = then(a6, s7);
        assert(self.collapsed(sh0) == a7);
        let r = match &self.description {
            Some(d) => {
                let ghost mo28 = formatter.model();
                let ghost sho29 = formatter.shape();
                let ghost page30 = lines_step(sho29, 2);
                let ghost desc31 = formatted(d, page30.1);
                let r = formatter.page();
                if r.is_err() {
                    proof {
                        lemma_fails_then::<W>(mo28, page30, desc31);
                    }
                    r
                } else {
                    proof {
                        lemma_step_on::<W>(mo28, page30, desc31);
                    }
                    d.format(formatter)
                }
            },
            None => Ok(()),
        };
        if r.is_err() {
            proof {
                lemma_fails_then::<W>(m0, a1, s2);
                lemma_fails_then::<W>(m0, a2, s3);
                lemma_fails_then::<W>(m0, a3, s4);
                lemma_fails_then::<W>(m0, a4, s5);
                lemma_fails_then::<W>(m0, a5, s6);
                lemma_fails_then::<W>(m0, a6, s7);
            }
            return r;
        }
        proof {
            lemma_step_on::<W>(m0, a1, s2);
        }
        let r = formatter.line();
        if r.is_err() {
            proof {
                lemma_fails_then::<W>(m0, a2, s3);
                lemma_fails_then::<W>(m0, a3, s4);
                lemma_fails_then::<W>(m0, a4, s5);
                lemma_fails_then::<W>(m0, a5, s6);
                lemma_fails_then::<W>(m0, a6, s7);
            }
            return r;
        }
        proof {
            lemma_step_on::<W>(m0, a2, s3);
        }
        let r = self.name.format(formatter);
        if r.is_err() {
            proof {
                lemma_fails_then::<W>(m0, a3, s4);
                lemma_fails_then::<W>(m0, a4, s5);
                lemma_fails_then::<W>(m0, a5, s6);
                lemma_fails_then::<W>(m0, a6, s7);
            }
            return r;
        }
        proof {
            lemma_step_on::<W>(m0, a3, s4);
        }
        let r = {
            let ghost mq32 = formatter.model();
            let ghost shq33 = formatter.shape();
            let ws = formatter.begin_squeeze();
            let r = self.colon.format(formatter);
            formatter.end_squeeze(ws);
            proof {
                lemma_squeezed::<W>(mq32, shq33, formatted(&node.colon, shq33.with_whitespace(true)));
            }
            r
        };
        if r.is_err() {
            proof {
                lemma_fails_then::<W>(m0, a4, s5);
                lemma_fails_then::<W>(m0, a5, s6);
                lemma_fails_then::<W>(m0, a6, s7);
            }
            return r;
        }
        proof {
            lemma_step_on::<W>(m0, a4, s5);
        }
        let r = self.ty.format(formatter);
        if r.is_err() {
            proof {
                lemma_fails_then::<W>(m0, a5, s6);
                lemma_fails_then::<W>(m0, a6, s7);
            }
            return r;
        }
        proof {
            lemma_step_on::<W>(m0, a5, s6);
        }
        let r = self.default_value.format(formatter);
        if r.is_err() {
            proof {
                lemma_fails_then::<W>(m0, a6, s7);
            }
            return r;
        }
        proof {
            lemma_step_on::<W>(m0, a6, s7);
        }
        self.directives.format(formatter)
    }

    fn format_expanded<W: Write>(&self, formatter: &mut Formatter<W>) -> (r: Result<(), Error>) {
        self.format_collapsed(formatter)
    }

    fn expands(&self) -> (b: bool) {
        self.description.is_some() || self.default_value.is_some() || self.directives.is_some()
    }

    fn can_expand(&self) -> (b: bool) {
        false
    }
}

impl Format for ObjectTypeExtension {
    open spec fn collapsed(&self, sh: Shape) -> (Writes, Shape) {
        let s1 = formatted(&self.extend_type, sh);
        let s2 = formatted(&self.name, s1.1);
        let s3 = formatted(&self.implements_interfaces, s2.1);
        let s4 = formatted(&self.directives, s3.1);
        let s5 = formatted(&self.fields_definition, s4.1);
        then(then(then(then(s1, s2), s3), s4), s5)
    }

    open spec fn expanded(&self, sh: Shape) -> (Writes, Shape) {
        self.collapsed(sh)
    }

    open spec fn spec_expands(&self) -> bool {
        false
    }

    open spec fn spec_can_expand(&self) -> bool {
        false
    }

    fn format_collapsed<W: Write>(&self, formatter: &mut Formatter<W>) -> (r: Result<(), Error>) {
        let ghost node = *self;
        let ghost m0 = formatter.model();
        let ghost sh0 = formatter.shape();
        let ghost s1 = formatted(&node.extend_type, sh0);
        let ghost s2 = formatted(&node.name, s1.1);
        let ghost s3 = formatted(&node.implements_interfaces, s2.1);
        let ghost s4 = formatted(&node.directives, s3.1);
        let ghost s5 = formatted(&node.fields_definition, s4.1);
        let ghost a1 = s1;
        let ghost a2 = then(a1, s2);
        let ghost a3 = then(a2, s3);
        let ghost a4 = then(a3, s4);
        let ghost a5 = then(a4, s5);
        assert(self.collapsed(sh0) == a5);
        let r = self.extend_type.format(formatter);
        if r.is_err() {
            proof {
                lemma_fails_then::<W>(m0, a1, s2);
                lemma_fails_then::<W>(m0, a2, s3);
                lemma_fails_then::<W>(m0, a3, s4);
                lemma_fails_then::<W>(m0, a4, s5);
            }
            return r;
        }
        proof {
            lemma_step_on::<W>(m0, a1, s2);
        }
        let r = self.name.format(formatter);
        if r.is_err() {
            proof {
                lemma_fails_then::<W>(m0, a2, s3);
                lemma_fails_then::<W>(m0, a3, s4);
                lemma_fails_then::<W>(m0, a4, s5);
            }
            return r;
        }
        proof {
            lemma_step_on::<W>(m0, a2, s3);
        }
        let r = self.implements_interfaces.format(formatter);
        if r.is_err() {
            proof {
                lemma_fails_then::<W>(m0, a3, s4);
                lemma_fails_then::<W>(m0, a4, s5);
            }
            return r;
        }
        proof {
            lemma_step_on::<W>(m0, a3, s4);
        }
        let r = self.directives.format(formatter);
        if r.is_err() {
            proof {
                lemma_fails_then::<W>(m0, a4, s5);
            }
            return r;
        }
        proof {
            lemma_step_on::<W>(m0, a4, s5);
        }
        self.fields_definition.format(formatter)
    }

    fn format_expanded<W: Write>(&self, formatter: &mut Formatter<W>) -> (r: Result<(), Error>) {
        self.format_collapsed(formatter)
    }

    fn expands(&self) -> (b: bool) {
        false
    }

    fn can_expand(&self) -> (b: bool) {
        false
    }
}

impl Format for InterfaceTypeDefinition {
    open spec fn collapsed(&self, sh: Shape) -> (Writes, Shape) {
        let s1 = lines_step(sh, 2);
        let s2 = formatted(&self.description, s1.1);
        let s3 = lines_step(s2.1, 1);
        let s4 = formatted(&self.interface, s3.1);
        let s5 = formatted(&self.name, s4.1);
        let s6 = formatted(&self.implements_interfaces, s5.1);
        let s7 = formatted(&self.directives, s6.1);
        let s8 = formatted(&self.fields_definition, s7.1);
        then(then(then(then(then(then(then(s1, s2), s3), s4), s5), s6), s7), s8)
    }

    open spec fn expanded(&self, sh: Shape) -> (Writes, Shape) {
        self.collapsed(sh)
    }

    open spec fn spec_expands(&self) -> bool {
        false
    }

    open spec fn spec_can_expand(&self) -> bool {
        false
    }

    fn format_collapsed<W: Write>(&self, formatter: &mut Formatter<W>) -> (r: Result<(), Error>) {
        let ghost node = *self;
        let ghost m0 = formatter.model();
        let ghost sh0 = formatter.shape();
        let ghost s1 = lines_step(sh0, 2);
        let ghost s2 = formatted(&node.description, s1.1);
        let ghost s3 = lines_step(s2.1, 1);
        let ghost s4 = formatted(&node.interface, s3.1);
        let ghost s5 = formatted(&node.name, s4.1);
        let ghost s6 = formatted(&node.implements_interfaces, s5.1);
        let ghost s7 = formatted(&node.directives, s6.1);
        let ghost s8 = formatted(&node.fields_definition, s7.1);
        let ghost a1 = s1;
        let ghost a2 = then(a1, s2);
        let ghost a3 = then(a2, s3);
        let ghost a4 = then(a3, s4);
        let ghost a5 = then(a4, s5);
        let ghost a6 = then(a5, s6);
        let ghost a7 = then(a6, s7);
        let ghost a8 = then(a7, s8);
        assert(self.collapsed(sh0) == a8);
        let r = formatter.page();
        if r.is_err() {
            proof {
                lemma_fails_then::<W>(m0, a1, s2);
                lemma_fails_then::<W>(m0, a2, s3);
                lemma_fails_then::<W>(m0, a3, s4);
                lemma_fails_then::<W>(m0, a4, s5);
                lemma_fails_then::<W>(m0, a5, s6);
                lemma_fails_then::<W>(m0, a6, s7);
                lemma_fails_then::<W>(m0, a7, s8);
            }
            return r;
        }
        proof {
            lemma_step_on::<W>(m0, a1, s2);
        }
        let r = self.description.format(formatter);
        if r.is_err() {
            proof {
                lemma_fails_then::<W>(m0, a2, s3);
                lemma_fails_then::<W>(m0, a3, s4);
                lemma_fails_then::<W>(m0, a4, s5);
                lemma_fails_then::<W>(m0, a5, s6);
                lemma_fails_then::<W>(m0, a6, s7);
                lemma_fails_then::<W>(m0, a7, s8);
            }
            return r;
        }
        proof {
            lemma_step_on::<W>(m0, a2, s3);
        }
        let r = formatter.line();
        if r.is_err() {
            proof {
                lemma_fails_then::<W>(m0, a3, s4);
                lemma_fails_then::<W>(m0, a4, s5);
                lemma_fails_then::<W>(m0, a5, s6);
                lemma_fails_then::<W>(m0, a6, s7);
                lemma_fails_then::<W>(m0, a7, s8);
            }
            return r;
        }
        proof {
            lemma_step_on::<W>(m0, a3, s4);
        }
        let r = self.interface.format(formatter);
        if r.is_err() {
            proof {
                lemma_fails_then::<W>(m0, a4, s5);
                lemma_fails_then::<W>(m0, a5, s6);
                lemma_fails_then::<W>(m0, a6, s7);
                lemma_fails_then::<W>(m0, a7, s8);
            }
            return r;
        }
        proof {
            lemma_step_on::<W>(m0, a4, s5);
        }
        let r = self.name.format(formatter);
        if r.is_err() {
            proof {
                lemma_fails_then::<W>(m0, a5, s6);
                lemma_fails_then::<W>(m0, a6, s7);
                lemma_fails_then::<W>(m0, a7, s8);
            }
            return r;
        }
        proof {
            lemma_step_on::<W>(m0, a5, s6);
        }
        let r = self.implements_interfaces.format(formatter);
        if r.is_err() {
            proof {
                lemma_fails_then::<W>(m0, a6, s7);
                lemma_fails_then::<W>(m0, a7, s8);
            }
            return r;
        }
        proof {
            lemma_step_on::<W>(m0, a6, s7);
        }
        let r = self.directives.format(formatter);
        if r.is_err() {
            proof {
                lemma_fails_then::<W>(m0, a7, s8);
            }
            return r;
        }
        proof {
            lemma_step_on::<W>(m0, a7, s8);
        }
        self.fields_definition.format(formatter)
    }

    fn format_expanded<W: Write>(&self, formatter: &mut Formatter<W>) -> (r: Result<(), Error>) {
        self.format_collapsed(formatter)
    }

    fn expands(&self) -> (b: bool) {
        false
    }

    fn can_expand(&self) -> (b: bool) {
        false
    }
}

impl Format for InterfaceTypeExtension {
    open spec fn collapsed(&self, sh: Shape) -> (Writes, Shape) {
        let s1 = formatted(&self.extend_interface, sh);
        let s2 = formatted(&self.name, s1.1);
        let s3 = formatted(&self.implements_interfaces, s2.1);
        let s4 = formatted(&self.directives, s3.1);
        let s5 = formatted(&self.fields_definition, s4.1);
        then(then(then(then(s1, s2), s3), s4), s5)
    }

    open spec fn expanded(&self, sh: Shape) -> (Writes, Shape) {
        self.collapsed(sh)
    }

    open spec fn spec_expands(&self) -> bool {
        false
    }

    open spec fn spec_can_expand(&self) -> bool {
        false
    }

    fn format_collapsed<W: Write>(&self, formatter: &mut Formatter<W>) -> (r: Result<(), Error>) {
        let ghost node = *self;
        let ghost m0 = formatter.model();
        let ghost sh0 = formatter.shape();
        let ghost s1 = formatted(&node.extend_interface, sh0);
        let ghost s2 = formatted(&node.name, s1.1);
        let ghost s3 = formatted(&node.implements_interfaces, s2.1);
        let ghost s4 = formatted(&node.directives, s3.1);
        let ghost s5 = formatted(&node.fields_definition, s4.1);
        let ghost a1 = s1;
        let ghost a2 = then(a1, s2);
        let ghost a3 = then(a2, s3);
        let ghost a4 = then(a3, s4);
        let ghost a5 = then(a4, s5);
        assert(self.collapsed(sh0) == a5);
        let r = self.extend_interface.format(formatter);
        if r.is_err() {
            proof {
                lemma_fails_then::<W>(m0, a1, s2);
                lemma_fails_then::<W>(m0, a2, s3);
                lemma_fails_then::<W>(m0, a3, s4);
                lemma_fails_then::<W>(m0, a4, s5);
            }
            return r;
        }
        proof {
            lemma_step_on::<W>(m0, a1, s2);
        }
        let r = self.name.format(formatter);
        if r.is_err() {
            proof {
                lemma_fails_then::<W>(m0, a2, s3);
                lemma_fails_then::<W>(m0, a3, s4);
                lemma_fails_then::<W>(m0, a4, s5);
            }
            return r;
        }
        proof {
            lemma_step_on::<W>(m0, a2, s3);
        }
        let r = self.implements_interfaces.format(formatter);
        if r.is_err() {
            proof {
                lemma_fails_then::<W>(m0, a3, s4);
                lemma_fails_then::<W>(m0, a4, s5);
            }
            return r;
        }
        proof {
            lemma_step_on::<W>(m0, a3, s4);
        }
        let r = self.directives.format(formatter);
        if r.is_err() {
            proof {
                lemma_fails_then::<W>(m0, a4, s5);
            }
            return r;
        }
        proof {
            lemma_step_on::<W>(m0, a4, s5);
        }
        self.fields_definition.format(formatter)
    }

    fn format_expanded<W: Write>(&self, formatter: &mut Formatter<W>) -> (r: Result<(), Error>) {
        self.format_collapsed(formatter)
    }

    fn expands(&self) -> (b: bool) {
        false
    }

    fn can_expand(&self) -> (b: bool) {
        false
    }
}

impl Format for UnionTypeDefinition {
    open spec fn collapsed(&self, sh: Shape) -> (Writes, Shape) {
        let s1 = lines_step(sh, 2);
        let s2 = formatted(&self.description, s1.1);
        let s3 = lines_step(s2.1, 1);
        let s4 = formatted(&self.union_kw, s3.1);
        let s5 = formatted(&self.name, s4.1);
        let s6 = formatted(&self.directives, s5.1);
        let s7 = formatted(&self.member_types, s6.1);
        then(then(then(then(then(then(s1, s2), s3), s4), s5), s6), s7)
    }

    open spec fn expanded(&self, sh: Shape) -> (Writes, Shape) {
        self.collapsed(sh)
    }

    open spec fn spec_expands(&self) -> bool {
        false
    }

    open spec fn spec_can_expand(&self) -> bool {
        false
    }

    fn format_collapsed<W: Write>(&self, formatter: &mut Formatter<W>) -> (r: Result<(), Error>) {
        let ghost node = *self;
        let ghost m0 = formatter.model();
        let ghost sh0 = formatter.shape();
        let ghost s1 = lines_step(sh0, 2);
        let ghost s2 = formatted(&node.description, s1.1);
        let ghost s3 = lines_step(s2.1, 1);
        let ghost s4 = formatted(&node.union_kw, s3.1);
        let ghost s5 = formatted(&node.name, s4.1);
        let ghost s6 = formatted(&node.directives, s5.1);
        let ghost s7 = formatted(&node.member_types, s6.1);
        let ghost a1 = s1;
        let ghost a2 = then(a1, s2);
        let ghost a3 = then(a2, s3);
        let ghost a4 = then(a3, s4);
        let ghost a5 = then(a4, s5);
        let ghost a6 = then(a5, s6);
        let ghost a7 = then(a6, s7);
        assert(self.collapsed(sh0) == a7);
        let r = formatter.page();
        if r.is_err() {
            proof {
                lemma_fails_then::<W>(m0, a1, s2);
                lemma_fails_then::<W>(m0, a2, s3);
                lemma_fails_then::<W>(m0, a3, s4);
                lemma_fails_then::<W>(m0, a4, s5);
                lemma_fails_then::<W>(m0, a5, s6);
                lemma_fails_then::<W>(m0, a6, s7);
            }
            return r;
        }
        proof {
            lemma_step_on::<W>(m0, a1, s2);
        }
        let r = self.description.format(formatter);
        if r.is_err() {
            proof {
                lemma_fails_then::<W>(m0, a2, s3);
                lemma_fails_then::<W>(m0, a3, s4);
                lemma_fails_then::<W>(m0, a4, s5);
                lemma_fails_then::<W>(m0, a5, s6);
                lemma_fails_then::<W>(m0, a6, s7);
            }
            return r;
        }
        proof {
            lemma_step_on::<W>(m0, a2, s3);
        }
        let r = formatter.line();
        if r.is_err() {
            proof {
                lemma_fails_then::<W>(m0, a3, s4);
                lemma_fails_then::<W>(m0, a4, s5);
                lemma_fails_then::<W>(m0, a5, s6);
                lemma_fails_then::<W>(m0, a6, s7);
            }
            return r;
        }
        proof {
            lemma_step_on::<W>(m0, a3, s4);
        }
        let r = self.union_kw.format(formatter);
        if r.is_err() {
            proof {
                lemma_fails_then::<W>(m0, a4, s5);
                lemma_fails_then::<W>(m0, a5, s6);
                lemma_fails_then::<W>(m0, a6, s7);
            }
            return r;
        }
        proof {
            lemma_step_on::<W>(m0, a4, s5);
        }
        let r = self.name.format(formatter);
        if r.is_err() {
            proof {
                lemma_fails_then::<W>(m0, a5, s6);
                lemma_fails_then::<W>(m0, a6, s7);
            }
            return r;
        }
        proof {
            lemma_step_on::<W>(m0, a5, s6);
        }
        let r = self.directives.format(formatter);
        if r.is_err() {
            proof {
                lemma_fails_then::<W>(m0, a6, s7);
            }
            return r;
        }
        proof {
            lemma_step_on::<W>(m0, a6, s7);
        }
        self.member_types.format(formatter)
    }

    fn format_expanded<W: Write>(&self, formatter: &mut Formatter<W>) -> (r: Result<(), Error>) {
        self.format_collapsed(formatter)
    }

    fn expands(&self) -> (b: bool) {
        false
    }

    fn can_expand(&self) -> (b: bool) {
        false
    }
}

/// Member types follow the equals sign, a pipe between each two, or each on a line of its own after a pipe when there are more than three.
impl Format for UnionMemberTypes {
    open spec fn collapsed(&self, sh: Shape) -> (Writes, Shape) {
        let s1 = formatted(&self.eq, sh);
        let s2 = if self.spec_expands() { indented(s1.1, fold(present_types(self.first, self.types.0@), indent_open_step(s1.1).1, line_separated_item::<Shared<NamedType>>("|"@))) } else { fold(present_types(self.first, self.types.0@), s1.1, separated_item::<Shared<NamedType>>("|"@)) };
        then(s1, s2)
    }

    open spec fn expanded(&self, sh: Shape) -> (Writes, Shape) {
        self.collapsed(sh)
    }

    open spec fn spec_expands(&self) -> bool {
        present_types(self.first, self.types.0@).len() > 3
    }

    open spec fn spec_can_expand(&self) -> bool {
        false
    }

    fn format_collapsed<W: Write>(&self, formatter: &mut Formatter<W>) -> (r: Result<(), Error>) {
        let ghost node = *self;
        let ghost m0 = formatter.model();
        let ghost sh0 = formatter.shape();
        let ghost s1 = formatted(&node.eq, sh0);
        let ghost s2 = if self.spec_expands() { indented(s1.1, fold(present_types(node.first, node.types.0@), indent_open_step(s1.1).1, line_separated_item::<Shared<NamedType>>("|"@))) } else { fold(present_types(node.first, node.types.0@), s1.1, separated_item::<Shared<NamedType>>("|"@)) };
        let ghost a1 = s1;
        let ghost a2 = then(a1, s2);
        assert(self.collapsed(sh0) == a2);
        let r = self.eq.format(formatter);
        if r.is_err() {
            proof {
                lemma_fails_then::<W>(m0, a1, s2);
            }
            return r;
        }
        proof {
            lemma_step_on::<W>(m0, a1, s2);
        }
        if self.expands() {
            {
                let ghost mi34 = formatter.model();
                let ghost shi35 = formatter.shape();
                let ghost open36 = indent_open_step(shi35);
                let ghost body37 = fold(present_types(node.first, node.types.0@), indent_open_step(shi35).1, line_separated_item::<Shared<NamedType>>("|"@));
                let ghost close38 = indent_close_step(body37.1);
                let r = formatter.open_indent();
                if r.is_err() {
                    proof {
                        lemma_fails_then::<W>(mi34, open36, body37);
                        lemma_fails_then::<W>(mi34, then(open36, body37), close38);
                    }
                    r
                } else {
                    proof {
                        lemma_step_on::<W>(mi34, open36, body37);
                    }
                    let r = format_line_separated(&self.named_types(), "|", formatter);
                    if r.is_err() {
                        proof {
                            lemma_fails_then::<W>(mi34, then(open36, body37), close38);
                        }
                        r
                    } else {
                        proof {
                            lemma_step_on::<W>(mi34, then(open36, body37), close38);
                        }
                        formatter.close_indent()
                    }
                }
            }
        } else {
            format_separated(&self.named_types(), "|", formatter)
        }
    }

    fn format_expanded<W: Write>(&self, formatter: &mut Formatter<W>) -> (r: Result<(), Error>) {
        self.format_collapsed(formatter)
    }

    fn expands(&self) -> (b: bool) {
        self.named_types().len() > 3
    }

    fn can_expand(&self) -> (b: bool) {
        false
    }
}

impl Format for UnionTypeExtension {
    open spec fn collapsed(&self, sh: Shape) -> (Writes, Shape) {
        let s1 = formatted(&self.extend_union, sh);
        let s2 = formatted(&self.name, s1.1);
        let s3 = formatted(&self.directives, s2.1);
        let s4 = formatted(&self.member_types, s3.1);
        then(then(then(s1, s2), s3), s4)
    }

    open spec fn expanded(&self, sh: Shape) -> (Writes, Shape) {
        self.collapsed(sh)
    }

    open spec fn spec_expands(&self) -> bool {
        false
    }

    open spec fn spec_can_expand(&self) -> bool {
        false
    }

    fn format_collapsed<W: Write>(&self, formatter: &mut Formatter<W>) -> (r: Result<(), Error>) {
        let ghost node = *self;
        let ghost m0 = formatter.model();
        let ghost sh0 = formatter.shape();
        let ghost s1 = formatted(&node.extend_union, sh0);
        let ghost s2 = formatted(&node.name, s1.1);
        let ghost s3 = formatted(&node.directives, s2.1);
        let ghost s4 = formatted(&node.member_types, s3.1);
        let ghost a1 = s1;
        let ghost a2 = then(a1, s2);
        let ghost a3 = then(a2, s3);
        let ghost a4 = then(a3, s4);
        assert(self.collapsed(sh0) == a4);
        let r = self.extend_union.format(formatter);
        if r.is_err() {
            proof {
                lemma_fails_then::<W>(m0, a1, s2);
                lemma_fails_then::<W>(m0, a2, s3);
                lemma_fails_then::<W>(m0, a3, s4);
            }
            return r;
        }
        proof {
            lemma_step_on::<W>(m0, a1, s2);
        }
        let r = self.name.format(formatter);
        if r.is_err() {
            proof {
                lemma_fails_then::<W>(m0, a2, s3);
                lemma_fails_then::<W>(m0, a3, s4);
            }
            return r;
        }
        proof {
            lemma_step_on::<W>(m0, a2, s3);
        }
        let r = self.directives.format(formatter);
        if r.is_err() {
            proof {
                lemma_fails_then::<W>(m0, a3, s4);
            }
            return r;
        }
        proof {
            lemma_step_on::<W>(m0, a3, s4);
        }
        self.member_types.format(formatter)
    }

    fn format_expanded<W: Write>(&self, formatter: &mut Formatter<W>) -> (r: Result<(), Error>) {
        self.format_collapsed(formatter)
    }

    fn expands(&self) -> (b: bool) {
        false
    }

    fn can_expand(&self) -> (b: bool) {
        false
    }
}

impl Format for EnumTypeDefinition {
    open spec fn collapsed(&self, sh: Shape) -> (Writes, Shape) {
        let s1 = lines_step(sh, 2);
        let s2 = formatted(&self.description, s1.1);
        let s3 = lines_step(s2.1, 1);
        let s4 = formatted(&self.enum_kw, s3.1);
        let s5 = formatted(&self.name, s4.1);
        let s6 = formatted(&self.directives, s5.1);
        let s7 = formatted(&self.values_definition, s6.1);
        then(then(then(then(then(then(s1, s2), s3), s4), s5), s6), s7)
    }

    open spec fn expanded(&self, sh: Shape) -> (Writes, Shape) {
        self.collapsed(sh)
    }

    open spec fn spec_expands(&self) -> bool {
        false
    }

    open spec fn spec_can_expand(&self) -> bool {
        false
    }

    fn format_collapsed<W: Write>(&self, formatter: &mut Formatter<W>) -> (r: Result<(), Error>) {
        let ghost node = *self;
        let ghost m0 = formatter.model();
        let ghost sh0 = formatter.shape();
        let ghost s1 = lines_step(sh0, 2);
        let ghost s2 = formatted(&node.description, s1.1);
        let ghost s3 = lines_step(s2.1, 1);
        let ghost s4 = formatted(&node.enum_kw, s3.1);
        let ghost s5 = formatted(&node.name, s4.1);
        let ghost s6 = formatted(&node.directives, s5.1);
        let ghost s7 = formatted(&node.values_definition, s6.1);
        let ghost a1 = s1;
        let ghost a2 = then(a1, s2);
        let ghost a3 = then(a2, s3);
        let ghost a4 = then(a3, s4);
        let ghost a5 = then(a4, s5);
        let ghost a6 = then(a5, s6);
        let ghost a7 = then(a6, s7);
        assert(self.collapsed(sh0) == a7);
        let r = formatter.page();
        if r.is_err() {
            proof {
                lemma_fails_then::<W>(m0, a1, s2);
                lemma_fails_then::<W>(m0, a2, s3);
                lemma_fails_then::<W>(m0, a3, s4);
                lemma_fails_then::<W>(m0, a4, s5);
                lemma_fails_then::<W>(m0, a5, s6);
                lemma_fails_then::<W>(m0, a6, s7);
            }
            return r;
        }
        proof {
            lemma_step_on::<W>(m0, a1, s2);
        }
        let r = self.description.format(formatter);
        if r.is_err() {
            proof {
                lemma_fails_then::<W>(m0, a2, s3);
                lemma_fails_then::<W>(m0, a3, s4);
                lemma_fails_then::<W>(m0, a4, s5);
                lemma_fails_then::<W>(m0, a5, s6);
                lemma_fails_then::<W>(m0, a6, s7);
            }
            return r;
        }
        proof {
            lemma_step_on::<W>(m0, a2, s3);
        }
        let r = formatter.line();
        if r.is_err() {
            proof {
                lemma_fails_then::<W>(m0, a3, s4);
                lemma_fails_then::<W>(m0, a4, s5);
                lemma_fails_then::<W>(m0, a5, s6);
                lemma_fails_then::<W>(m0, a6, s7);
            }
            return r;
        }
        proof {
            lemma_step_on::<W>(m0, a3, s4);
        }
        let r = self.enum_kw.format(formatter);
        if r.is_err() {
            proof {
                lemma_fails_then::<W>(m0, a4, s5);
                lemma_fails_then::<W>(m0, a5, s6);
                lemma_fails_then::<W>(m0, a6, s7);
            }
            return r;
        }
        proof {
            lemma_step_on::<W>(m0, a4, s5);
        }
        let r = self.name.format(formatter);
        if r.is_err() {
            proof {
                lemma_fails_then::<W>(m0, a5, s6);
                lemma_fails_then::<W>(m0, a6, s7);
            }
            return r;
        }
        proof {
            lemma_step_on::<W>(m0, a5, s6);
        }
        let r = self.directives.format(formatter);
        if r.is_err() {
            proof {
                lemma_fails_then::<W>(m0, a6, s7);
            }
            return r;
        }
        proof {
            lemma_step_on::<W>(m0, a6, s7);
        }
        self.values_definition.format(formatter)
    }

    fn format_expanded<W: Write>(&self, formatter: &mut Formatter<W>) -> (r: Result<(), Error>) {
        self.format_collapsed(formatter)
    }

    fn expands(&self) -> (b: bool) {
        false
    }

    fn can_expand(&self) -> (b: bool) {
        false
    }
}

/// Enum values go in braces, one per line.
impl Format for EnumValuesDefinition {
    open spec fn collapsed(&self, sh: Shape) -> (Writes, Shape) {
        let s1 = formatted(&self.braces.0, sh);
        let s2 = indented(s1.1, fold(self.definitions.0@, indent_open_step(s1.1).1, line_item::<Shared<EnumValueDefinition>>()));
        let s3 = formatted(&self.braces.1, s2.1);
        then(then(s1, s2), s3)
    }

    open spec fn expanded(&self, sh: Shape) -> (Writes, Shape) {
        self.collapsed(sh)
    }

    open spec fn spec_expands(&self) -> bool {
        false
    }

    open spec fn spec_can_expand(&self) -> bool {
        false
    }

    fn format_collapsed<W: Write>(&self, formatter: &mut Formatter<W>) -> (r: Result<(), Error>) {
        let ghost node = *self;
        let ghost m0 = formatter.model();
        let ghost sh0 = formatter.shape();
        let ghost s1 = formatted(&node.braces.0, sh0);
        let ghost s2 = indented(s1.1, fold(node.definitions.0@, indent_open_step(s1.1).1, line_item::<Shared<EnumValueDefinition>>()));
        let ghost s3 = formatted(&node.braces.1, s2.1);
        let ghost a1 = s1;
        let ghost a2 = then(a1, s2);
        let ghost a3 = then(a2, s3);
        assert(self.collapsed(sh0) == a3);
        let r = self.braces.0.format(formatter);
        if r.is_err() {
            proof {
                lemma_fails_then::<W>(m0, a1, s2);
                lemma_fails_then::<W>(m0, a2, s3);
            }
            return r;
        }
        proof {
            lemma_step_on::<W>(m0, a1, s2);
        }
        let r = {
            let ghost mi39 = formatter.model();
            let ghost shi40 = formatter.shape();
            let ghost open41 = indent_open_step(shi40);
            let ghost body42 = fold(node.definitions.0@, indent_open_step(shi40).1, line_item::<Shared<EnumValueDefinition>>());
            let ghost close43 = indent_close_step(body42.1);
            let r = formatter.open_indent();
            if r.is_err() {
                proof {
                    lemma_fails_then::<W>(mi39, open41, body42);
                    lemma_fails_then::<W>(mi39, then(open41, body42), close43);
                }
                r
            } else {
                proof {
                    lemma_step_on::<W>(mi39, open41, body42);
                }
                let r = formatter.each_line(self.definitions.0.as_slice());
                if r.is_err() {
                    proof {
                        lemma_fails_then::<W>(mi39, then(open41, body42), close43);
                    }
                    r
                } else {
                    proof {
                        lemma_step_on::<W>(mi39, then(open41, body42), close43);
                    }
                    formatter.close_indent()
                }
            }
        };
        if r.is_err() {
            proof {
                lemma_fails_then::<W>(m0, a2, s3);
            }
            return r;
        }
        proof {
            lemma_step_on::<W>(m0, a2, s3);
        }
        self.braces.1.format(formatter)
    }

    fn format_expanded<W: Write>(&self, formatter: &mut Formatter<W>) -> (r: Result<(), Error>) {
        self.format_collapsed(formatter)
    }

    fn expands(&self) -> (b: bool) {
        false
    }

    fn can_expand(&self) -> (b: bool) {
        false
    }
}

/// An enum value starts on a line of its own, after its description.
impl Format for EnumValueDefinition {
    open spec fn collapsed(&self, sh: Shape) -> (Writes, Shape) {
        let s1 = match self.description { Some(d) => then(lines_step(sh, 2), formatted(&d, lines_step(sh, 2).1)), None => nothing(sh) };
        let s2 = lines_step(s1.1, 1);
        let s3 = formatted(&self.enum_value, s2.1);
        let s4 = formatted(&self.directives, s3.1);
        then(then(then(s1, s2), s3), s4)
    }

    open spec fn expanded(&self, sh: Shape) -> (Writes, Shape) {
        self.collapsed(sh)
    }

    open spec fn spec_expands(&self) -> bool {
        false
    }

    open spec fn spec_can_expand(&self) -> bool {
        false
    }

    fn format_collapsed<W: Write>(&self, formatter: &mut Formatter<W>) -> (r: Result<(), Error>) {
        let ghost node = *self;
        let ghost m0 = formatter.model();
        let ghost sh0 = formatter.shape();
        let ghost s1 = match node.description { Some(d) => then(lines_step(sh0, 2), formatted(&d, lines_step(sh0, 2).1)), None => nothing(sh0) };
        let ghost s2 = lines_step(s1.1, 1);
        let ghost s3 = formatted(&node.enum_value, s2.1);
        let ghost s4 = formatted(&node.directives, s3.1);
        let ghost a1 = s1;
        let ghost a2 = then(a1, s2);
        let ghost a3 = then(a2, s3);
        let ghost a4 = then(a3, s4);
        assert(self.collapsed(sh0) == a4);
        let r = match &self.description {
            Some(d) => {
                let ghost mo44 = formatter.model();
                let ghost sho45 = formatter.shape();
                let ghost page46 = lines_step(sho45, 2);
                let ghost desc47 = formatted(d, page46.1);
                let r = formatter.page();
                if r.is_err() {
                    proof {
                        lemma_fails_then::<W>(mo44, page46, desc47);
                    }
                    r
                } else {
                    proof {
                        lemma_step_on::<W>(mo44, page46, desc47);
                    }
                    d.format(formatter)
                }
            },
            None => Ok(()),
        };
        if r.is_err() {
            proof {
                lemma_fails_then::<W>(m0, a1, s2);
                lemma_fails_then::<W>(m0, a2, s3);
                lemma_fails_then::<W>(m0, a3, s4);
            }
            return r;
        }
        proof {
            lemma_step_on::<W>(m0, a1, s2);
        }
        let r = formatter.line();
        if r.is_err() {
            proof {
                lemma_fails_then::<W>(m0, a2, s3);
                lemma_fails_then::<W>(m0, a3, s4);
            }
            return r;
        }
        proof {
            lemma_step_on::<W>(m0, a2, s3);
        }
        let r = self.enum_value.format(formatter);
        if r.is_err() {
            proof {
                lemma_fails_then::<W>(m0, a3, s4);
            }
            return r;
        }
        proof {
            lemma_step_on::<W>(m0, a3, s4);
        }
        self.directives.format(formatter)
    }

    fn format_expanded<W: Write>(&self, formatter: &mut Formatter<W>) -> (r: Result<(), Error>) {
        self.format_collapsed(formatter)
    }

    fn expands(&self) -> (b: bool) {
        false
    }

    fn can_expand(&self) -> (b: bool) {
        false
    }
}

impl Format for EnumTypeExtension {
    open spec fn collapsed(&self, sh: Shape) -> (Writes, Shape) {
        let s1 = formatted(&self.extend_enum, sh);
        let s2 = formatted(&self.name, s1.1);
        let s3 = formatted(&self.directives, s2.1);
        let s4 = formatted(&self.values_definition, s3.1);
        then(then(then(s1, s2), s3), s4)
    }

    open spec fn expanded(&self, sh: Shape) -> (Writes, Shape) {
        self.collapsed(sh)
    }

    open spec fn spec_expands(&self) -> bool {
        false
    }

    open spec fn spec_can_expand(&self) -> bool {
        false
    }

    fn format_collapsed<W: Write>(&self, formatter: &mut Formatter<W>) -> (r: Result<(), Error>) {
        let ghost node = *self;
        let ghost m0 = formatter.model();
        let ghost sh0 = formatter.shape();
        let ghost s1 = formatted(&node.extend_enum, sh0);
        let ghost s2 = formatted(&node.name, s1.1);
        let ghost s3 = formatted(&node.directives, s2.1);
        let ghost s4 = formatted(&node.values_definition, s3.1);
        let ghost a1 = s1;
        let ghost a2 = then(a1, s2);
        let ghost a3 = then(a2, s3);
        let ghost a4 = then(a3, s4);
        assert(self.collapsed(sh0) == a4);
        let r = self.extend_enum.format(formatter);
        if r.is_err() {
            proof {
                lemma_fails_then::<W>(m0, a1, s2);
                lemma_fails_then::<W>(m0, a2, s3);
                lemma_fails_then::<W>(m0, a3, s4);
            }
            return r;
        }
        proof {
            lemma_step_on::<W>(m0, a1, s2);
        }
        let r = self.name.format(formatter);
        if r.is_err() {
            proof {
                lemma_fails_then::<W>(m0, a2, s3);
                lemma_fails_then::<W>(m0, a3, s4);
            }
            return r;
        }
        proof {
            lemma_step_on::<W>(m0, a2, s3);
        }
        let r = self.directives.format(formatter);
        if r.is_err() {
            proof {
                lemma_fails_then::<W>(m0, a3, s4);
            }
            return r;
        }
        proof {
            lemma_step_on::<W>(m0, a3, s4);
        }
        self.values_definition.format(formatter)
    }

    fn format_expanded<W: Write>(&self, formatter: &mut Formatter<W>) -> (r: Result<(), Error>) {
        self.format_collapsed(formatter)
    }

    fn expands(&self) -> (b: bool) {
        false
    }

    fn can_expand(&self) -> (b: bool) {
        false
    }
}

impl Format for InputObjectTypeDefinition {
    open spec fn collapsed(&self, sh: Shape) -> (Writes, Shape) {
        let s1 = lines_step(sh, 2);
        let s2 = formatted(&self.description, s1.1);
        let s3 = lines_step(s2.1, 1);
        let s4 = formatted(&self.input, s3.1);
        let s5 = formatted(&self.name, s4.1);
        let s6 = formatted(&self.directives, s5.1);
        let s7 = formatted(&self.fields_definition, s6.1);
        then(then(then(then(then(then(s1, s2), s3), s4), s5), s6), s7)
    }

    open spec fn expanded(&self, sh: Shape) -> (Writes, Shape) {
        self.collapsed(sh)
    }

    open spec fn spec_expands(&self) -> bool {
        false
    }

    open spec fn spec_can_expand(&self) -> bool {
        false
    }

    fn format_collapsed<W: Write>(&self, formatter: &mut Formatter<W>) -> (r: Result<(), Error>) {
        let ghost node = *self;
        let ghost m0 = formatter.model();
        let ghost sh0 = formatter.shape();
        let ghost s1 = lines_step(sh0, 2);
        let ghost s2 = formatted(&node.description, s1.1);
        let ghost s3 = lines_step(s2.1, 1);
        let ghost s4 = formatted(&node.input, s3.1);
        let ghost s5 = formatted(&node.name, s4.1);
        let ghost s6 = formatted(&node.directives, s5.1);
        let ghost s7 = formatted(&node.fields_definition, s6.1);
        let ghost a1 = s1;
        let ghost a2 = then(a1, s2);
        let ghost a3 = then(a2, s3);
        let ghost a4 = then(a3, s4);
        let ghost a5 = then(a4, s5);
        let ghost a6 = then(a5, s6);
        let ghost a7 = then(a6, s7);
        assert(self.collapsed(sh0) == a7);
        let r = formatter.page();
        if r.is_err() {
            proof {
                lemma_fails_then::<W>(m0, a1, s2);
                lemma_fails_then::<W>(m0, a2, s3);
                lemma_fails_then::<W>(m0, a3, s4);
                lemma_fails_then::<W>(m0, a4, s5);
                lemma_fails_then::<W>(m0, a5, s6);
                lemma_fails_then::<W>(m0, a6, s7);
            }
            return r;
        }
        proof {
            lemma_step_on::<W>(m0, a1, s2);
        }
        let r = self.description.format(formatter);
        if r.is_err() {
            proof {
                lemma_fails_then::<W>(m0, a2, s3);
                lemma_fails_then::<W>(m0, a3, s4);
                lemma_fails_then::<W>(m0, a4, s5);
                lemma_fails_then::<W>(m0, a5, s6);
                lemma_fails_then::<W>(m0, a6, s7);
            }
            return r;
        }
        proof {
            lemma_step_on::<W>(m0, a2, s3);
        }
        let r = formatter.line();
        if r.is_err() {
            proof {
                lemma_fails_then::<W>(m0, a3, s4);
                lemma_fails_then::<W>(m0, a4, s5);
                lemma_fails_then::<W>(m0, a5, s6);
                lemma_fails_then::<W>(m0, a6, s7);
            }
            return r;
        }
        proof {
            lemma_step_on::<W>(m0, a3, s4);
        }
        let r = self.input.format(formatter);
        if r.is_err() {
            proof {
                lemma_fails_then::<W>(m0, a4, s5);
                lemma_fails_then::<W>(m0, a5, s6);
                lemma_fails_then::<W>(m0, a6, s7);
            }
            return r;
        }
        proof {
            lemma_step_on::<W>(m0, a4, s5);
        }
        let r = self.name.format(formatter);
        if r.is_err() {
            proof {
                lemma_fails_then::<W>(m0, a5, s6);
                lemma_fails_then::<W>(m0, a6, s7);
            }
            return r;
        }
        proof {
            lemma_step_on::<W>(m0, a5, s6);
        }
        let r = self.directives.format(formatter);
        if r.is_err() {
            proof {
                lemma_fails_then::<W>(m0, a6, s7);
            }
            return r;
        }
        proof {
            lemma_step_on::<W>(m0, a6, s7);
        }
        self.fields_definition.format(formatter)
    }

    fn format_expanded<W: Write>(&self, formatter: &mut Formatter<W>) -> (r: Result<(), Error>) {
        self.format_collapsed(formatter)
    }

    fn expands(&self) -> (b: bool) {
        false
    }

    fn can_expand(&self) -> (b: bool) {
        false
    }
}

/// Input fields go in braces, one per line.
impl Format for InputFieldsDefinition {
    open spec fn collapsed(&self, sh: Shape) -> (Writes, Shape) {
        let s1 = formatted(&self.braces.0, sh);
        let s2 = indented(s1.1, fold(self.definitions.0@, indent_open_step(s1.1).1, line_item::<Shared<InputValueDefinition>>()));
        let s3 = formatted(&self.braces.1, s2.1);
        then(then(s1, s2), s3)
    }

    open spec fn expanded(&self, sh: Shape) -> (Writes, Shape) {
        self.collapsed(sh)
    }

    open spec fn spec_expands(&self) -> bool {
        false
    }

    open spec fn spec_can_expand(&self) -> bool {
        false
    }

    fn format_collapsed<W: Write>(&self, formatter: &mut Formatter<W>) -> (r: Result<(), Error>) {
        let ghost node = *self;
        let ghost m0 = formatter.model();
        let ghost sh0 = formatter.shape();
        let ghost s1 = formatted(&node.braces.0, sh0);
        let ghost s2 = indented(s1.1, fold(node.definitions.0@, indent_open_step(s1.1).1, line_item::<Shared<InputValueDefinition>>()));
        let ghost s3 = formatted(&node.braces.1, s2.1);
        let ghost a1 = s1;
        let ghost a2 = then(a1, s2);
        let ghost a3 = then(a2, s3);
        assert(self.collapsed(sh0) == a3);
        let r = self.braces.0.format(formatter);
        if r.is_err() {
            proof {
                lemma_fails_then::<W>(m0, a1, s2);
                lemma_fails_then::<W>(m0, a2, s3);
            }
            return r;
        }
        proof {
            lemma_step_on::<W>(m0, a1, s2);
        }
        let r = {
            let ghost mi48 = formatter.model();
            let ghost shi49 = formatter.shape();
            let ghost open50 = indent_open_step(shi49);
            let ghost body51 = fold(node.definitions.0@, indent_open_step(shi49).1, line_item::<Shared<InputValueDefinition>>());
            let ghost close52 = indent_close_step(body51.1);
            let r = formatter.open_indent();
            if r.is_err() {
                proof {
                    lemma_fails_then::<W>(mi48, open50, body51);
                    lemma_fails_then::<W>(mi48, then(open50, body51), close52);
                }
                r
            } else {
                proof {
                    lemma_step_on::<W>(mi48, open50, body51);
                }
                let r = formatter.each_line(self.definitions.0.as_slice());
                if r.is_err() {
                    proof {
                        lemma_fails_then::<W>(mi48, then(open50, body51), close52);
                    }
                    r
                } else {
                    proof {
                        lemma_step_on::<W>(mi48, then(open50, body51), close52);
                    }
                    formatter.close_indent()
                }
            }
        };
        if r.is_err() {
            proof {
                lemma_fails_then::<W>(m0, a2, s3);
            }
            return r;
        }
        proof {
            lemma_step_on::<W>(m0, a2, s3);
        }
        self.braces.1.format(formatter)
    }

    fn format_expanded<W: Write>(&self, formatter: &mut Formatter<W>) -> (r: Result<(), Error>) {
        self.format_collapsed(formatter)
    }

    fn expands(&self) -> (b: bool) {
        false
    }

    fn can_expand(&self) -> (b: bool) {
        false
    }
}

impl Format for InputObjectTypeExtension {
    open spec fn collapsed(&self, sh: Shape) -> (Writes, Shape) {
        let s1 = formatted(&self.extend_input, sh);
        let s2 = formatted(&self.name, s1.1);
        let s3 = formatted(&self.directives, s2.1);
        let s4 = formatted(&self.fields_definition, s3.1);
        then(then(then(s1, s2), s3), s4)
    }

    open spec fn expanded(&self, sh: Shape) -> (Writes, Shape) {
        self.collapsed(sh)
    }

    open spec fn spec_expands(&self) -> bool {
        false
    }

    open spec fn spec_can_expand(&self) -> bool {
        false
    }

    fn format_collapsed<W: Write>(&self, formatter: &mut Formatter<W>) -> (r: Result<(), Error>) {
        let ghost node = *self;
        let ghost m0 = formatter.model();
        let ghost sh0 = formatter.shape();
        let ghost s1 = formatted(&node.extend_input, sh0);
        let ghost s2 = formatted(&node.name, s1.1);
        let ghost s3 = formatted(&node.directives, s2.1);
        let ghost s4 = formatted(&node.fields_definition, s3.1);
        let ghost a1 = s1;
        let ghost a2 = then(a1, s2);
        let ghost a3 = then(a2, s3);
        let ghost a4 = then(a3, s4);
        assert(self.collapsed(sh0) == a4);
        let r = self.extend_input.format(formatter);
        if r.is_err() {
            proof {
                lemma_fails_then::<W>(m0, a1, s2);
                lemma_fails_then::<W>(m0, a2, s3);
                lemma_fails_then::<W>(m0, a3, s4);
            }
            return r;
        }
        proof {
            lemma_step_on::<W>(m0, a1, s2);
        }
        let r = self.name.format(formatter);
        if r.is_err() {
            proof {
                lemma_fails_then::<W>(m0, a2, s3);
                lemma_fails_then::<W>(m0, a3, s4);
            }
            return r;
        }
        proof {
            lemma_step_on::<W>(m0, a2, s3);
        }
        let r = self.directives.format(formatter);
        if r.is_err() {
            proof {
                lemma_fails_then::<W>(m0, a3, s4);
            }
            return r;
        }
        proof {
            lemma_step_on::<W>(m0, a3, s4);
        }
        self.fields_definition.format(formatter)
    }

    fn format_expanded<W: Write>(&self, formatter: &mut Formatter<W>) -> (r: Result<(), Error>) {
        self.format_collapsed(formatter)
    }

    fn expands(&self) -> (b: bool) {
        false
    }

    fn can_expand(&self) -> (b: bool) {
        false
    }
}

impl Format for DirectiveDefinition {
    open spec fn collapsed(&self, sh: Shape) -> (Writes, Shape) {
        let s1 = lines_step(sh, 2);
        let s2 = formatted(&self.description, s1.1);
        let s3 = lines_step(s2.1, 1);
        let s4 = formatted(&self.directive, s3.1);
        let s5 = formatted(&self.at, s4.1);
        let s6 = squeezed(s5.1, formatted(&self.name, s5.1.with_whitespace(true)));
        let s7 = squeezed(s6.1, formatted(&self.arguments_definition, s6.1.with_whitespace(true)));
        let s8 = formatted(&self.repeatable, s7.1);
        let s9 = formatted(&self.locations, s8.1);
        then(then(then(then(then(then(then(then(s1, s2), s3), s4), s5), s6), s7), s8), s9)
    }

    open spec fn expanded(&self, sh: Shape) -> (Writes, Shape) {
        self.collapsed(sh)
    }

    open spec fn spec_expands(&self) -> bool {
        false
    }

    open spec fn spec_can_expand(&self) -> bool {
        false
    }

    fn format_collapsed<W: Write>(&self, formatter: &mut Formatter<W>) -> (r: Result<(), Error>) {
        let ghost node = *self;
        let ghost m0 = formatter.model();
        let ghost sh0 = formatter.shape();
        let ghost s1 = lines_step(sh0, 2);
        let ghost s2 = formatted(&node.description, s1.1);
        let ghost s3 = lines_step(s2.1, 1);
        let ghost s4 = formatted(&node.directive, s3.1);
        let ghost s5 = formatted(&node.at, s4.1);
        let ghost s6 = squeezed(s5.1, formatted(&node.name, s5.1.with_whitespace(true)));
        let ghost s7 = squeezed(s6.1, formatted(&node.arguments_definition, s6.1.with_whitespace(true)));
        let ghost s8 = formatted(&node.repeatable, s7.1);
        let ghost s9 = formatted(&node.locations, s8.1);
        let ghost a1 = s1;
        let ghost a2 = then(a1, s2);
        let ghost a3 = then(a2, s3);
        let ghost a4 = then(a3, s4);
        let ghost a5 = then(a4, s5);
        let ghost a6 = then(a5, s6);
        let ghost a7 = then(a6, s7);
        let ghost a8 = then(a7, s8);
        let ghost a9 = then(a8, s9);
        assert(self.collapsed(sh0) == a9);
        let r = formatter.page();
        if r.is_err() {
            proof {
                lemma_fails_then::<W>(m0, a1, s2);
                lemma_fails_then::<W>(m0, a2, s3);
                lemma_fails_then::<W>(m0, a3, s4);
                lemma_fails_then::<W>(m0, a4, s5);
                lemma_fails_then::<W>(m0, a5, s6);
                lemma_fails_then::<W>(m0, a6, s7);
                lemma_fails_then::<W>(m0, a7, s8);
                lemma_fails_then::<W>(m0, a8, s9);
            }
            return r;
        }
        proof {
            lemma_step_on::<W>(m0, a1, s2);
        }
        let r = self.description.format(formatter);
        if r.is_err() {
            proof {
                lemma_fails_then::<W>(m0, a2, s3);
                lemma_fails_then::<W>(m0, a3, s4);
                lemma_fails_then::<W>(m0, a4, s5);
                lemma_fails_then::<W>(m0, a5, s6);
                lemma_fails_then::<W>(m0, a6, s7);
                lemma_fails_then::<W>(m0, a7, s8);
                lemma_fails_then::<W>(m0, a8, s9);
            }
            return r;
        }
        proof {
            lemma_step_on::<W>(m0, a2, s3);
        }
        let r = formatter.line();
        if r.is_err() {
            proof {
                lemma_fails_then::<W>(m0, a3, s4);
                lemma_fails_then::<W>(m0, a4, s5);
                lemma_fails_then::<W>(m0, a5, s6);
                lemma_fails_then::<W>(m0, a6, s7);
                lemma_fails_then::<W>(m0, a7, s8);
                lemma_fails_then::<W>(m0, a8, s9);
            }
            return r;
        }
        proof {
            lemma_step_on::<W>(m0, a3, s4);
        }
        let r = self.directive.format(formatter);
        if r.is_err() {
            proof {
                lemma_fails_then::<W>(m0, a4, s5);
                lemma_fails_then::<W>(m0, a5, s6);
                lemma_fails_then::<W>(m0, a6, s7);
                lemma_fails_then::<W>(m0, a7, s8);
                lemma_fails_then::<W>(m0, a8, s9);
            }
            return r;
        }
        proof {
            lemma_step_on::<W>(m0, a4, s5);
        }
        let r = self.at.format(formatter);
        if r.is_err() {
            proof {
                lemma_fails_then::<W>(m0, a5, s6);
                lemma_fails_then::<W>(m0, a6, s7);
                lemma_fails_then::<W>(m0, a7, s8);
                lemma_fails_then::<W>(m0, a8, s9);
            }
            return r;
        }
        proof {
            lemma_step_on::<W>(m0, a5, s6);
        }
        let r = {
            let ghost mq53 = formatter.model();
            let ghost shq54 = formatter.shape();
            let ws = formatter.begin_squeeze();
            let r = self.name.format(formatter);
            formatter.end_squeeze(ws);
            proof {
                lemma_squeezed::<W>(mq53, shq54, formatted(&node.name, shq54.with_whitespace(true)));
            }
            r
        };
        if r.is_err() {
            proof {
                lemma_fails_then::<W>(m0, a6, s7);
                lemma_fails_then::<W>(m0, a7, s8);
                lemma_fails_then::<W>(m0, a8, s9);
            }
            return r;
        }
        proof {
            lemma_step_on::<W>(m0, a6, s7);
        }
        let r = {
            let ghost mq55 = formatter.model();
            let ghost shq56 = formatter.shape();
            let ws = formatter.begin_squeeze();
            let r = self.arguments_definition.format(formatter);
            formatter.end_squeeze(ws);
            proof {
                lemma_squeezed::<W>(mq55, shq56, formatted(&node.arguments_definition, shq56.with_whitespace(true)));
            }
            r
        };
        if r.is_err() {
            proof {
                lemma_fails_then::<W>(m0, a7, s8);
                lemma_fails_then::<W>(m0, a8, s9);
            }
            return r;
        }
        proof {
            lemma_step_on::<W>(m0, a7, s8);
        }
        let r = self.repeatable.format(formatter);
        if r.is_err() {
            proof {
                lemma_fails_then::<W>(m0, a8, s9);
            }
            return r;
        }
        proof {
            lemma_step_on::<W>(m0, a8, s9);
        }
        self.locations.format(formatter)
    }

    fn format_expanded<W: Write>(&self, formatter: &mut Formatter<W>) -> (r: Result<(), Error>) {
        self.format_collapsed(formatter)
    }

    fn expands(&self) -> (b: bool) {
        false
    }

    fn can_expand(&self) -> (b: bool) {
        false
    }
}

/// Locations follow the keyword, a pipe between each two, or each on a line of its own after a pipe when there are more than three.
impl Format for DirectiveLocations {
    open spec fn collapsed(&self, sh: Shape) -> (Writes, Shape) {
        let s1 = formatted(&self.on, sh);
        let s2 = if self.spec_expands() { indented(s1.1, fold(present_locations(self.first, self.locations.0@), indent_open_step(s1.1).1, line_separated_item::<DirectiveLocation>("|"@))) } else { fold(present_locations(self.first, self.locations.0@), s1.1, separated_item::<DirectiveLocation>("|"@)) };
        then(s1, s2)
    }

    open spec fn expanded(&self, sh: Shape) -> (Writes, Shape) {
        self.collapsed(sh)
    }

    open spec fn spec_expands(&self) -> bool {
        present_locations(self.first, self.locations.0@).len() > 3
    }

    open spec fn spec_can_expand(&self) -> bool {
        false
    }

    fn format_collapsed<W: Write>(&self, formatter: &mut Formatter<W>) -> (r: Result<(), Error>) {
        let ghost node = *self;
        let ghost m0 = formatter.model();
        let ghost sh0 = formatter.shape();
        let ghost s1 = formatted(&node.on, sh0);
        let ghost s2 = if self.spec_expands() { indented(s1.1, fold(present_locations(node.first, node.locations.0@), indent_open_step(s1.1).1, line_separated_item::<DirectiveLocation>("|"@))) } else { fold(present_locations(node.first, node.locations.0@), s1.1, separated_item::<DirectiveLocation>("|"@)) };
        let ghost a1 = s1;
        let ghost a2 = then(a1, s2);
        assert(self.collapsed(sh0) == a2);
        let r = self.on.format(formatter);
        if r.is_err() {
            proof {
                lemma_fails_then::<W>(m0, a1, s2);
            }
            return r;
        }
        proof {
            lemma_step_on::<W>(m0, a1, s2);
        }
        if self.expands() {
            {
                let ghost mi57 = formatter.model();
                let ghost shi58 = formatter.shape();
                let ghost open59 = indent_open_step(shi58);
                let ghost body60 = fold(present_locations(node.first, node.locations.0@), indent_open_step(shi58).1, line_separated_item::<DirectiveLocation>("|"@));
                let ghost close61 = indent_close_step(body60.1);
                let r = formatter.open_indent();
                if r.is_err() {
                    proof {
                        lemma_fails_then::<W>(mi57, open59, body60);
                        lemma_fails_then::<W>(mi57, then(open59, body60), close61);
                    }
                    r
                } else {
                    proof {
                        lemma_step_on::<W>(mi57, open59, body60);
                    }
                    let r = format_line_separated(&self.locations(), "|", formatter);
                    if r.is_err() {
                        proof {
                            lemma_fails_then::<W>(mi57, then(open59, body60), close61);
                        }
                        r
                    } else {
                        proof {
                            lemma_step_on::<W>(mi57, then(open59, body60), close61);
                        }
                        formatter.close_indent()
                    }
                }
            }
        } else {
            format_separated(&self.locations(), "|", formatter)
        }
    }

    fn format_expanded<W: Write>(&self, formatter: &mut Formatter<W>) -> (r: Result<(), Error>) {
        self.format_collapsed(formatter)
    }

    fn expands(&self) -> (b: bool) {
        self.locations().len() > 3
    }

    fn can_expand(&self) -> (b: bool) {
        false
    }
}

/// Each kind is laid out as the node it holds.
impl Format for DirectiveLocation {
    open spec fn collapsed(&self, sh: Shape) -> (Writes, Shape) {
        match self {
            DirectiveLocation::ExecutableDirectiveLocation(node) => node.collapsed(sh),
            DirectiveLocation::TypeSystemDirectiveLocation(node) => node.collapsed(sh),
        }
    }

    open spec fn expanded(&self, sh: Shape) -> (Writes, Shape) {
        match self {
            DirectiveLocation::ExecutableDirectiveLocation(node) => node.expanded(sh),
            DirectiveLocation::TypeSystemDirectiveLocation(node) => node.expanded(sh),
        }
    }

    open spec fn spec_expands(&self) -> bool {
        match self {
            DirectiveLocation::ExecutableDirectiveLocation(node) => node.spec_expands(),
            DirectiveLocation::TypeSystemDirectiveLocation(node) => node.spec_expands(),
        }
    }

    open spec fn spec_can_expand(&self) -> bool {
        match self {
            DirectiveLocation::ExecutableDirectiveLocation(node) => node.spec_can_expand(),
            DirectiveLocation::TypeSystemDirectiveLocation(node) => node.spec_can_expand(),
        }
    }

    fn format_collapsed<W: Write>(&self, formatter: &mut Formatter<W>) -> (r: Result<(), Error>) {
        match self {
            DirectiveLocation::ExecutableDirectiveLocation(node) => node.format_collapsed(formatter),
            DirectiveLocation::TypeSystemDirectiveLocation(node) => node.format_collapsed(formatter),
        }
    }

    fn format_expanded<W: Write>(&self, formatter: &mut Formatter<W>) -> (r: Result<(), Error>) {
        match self {
            DirectiveLocation::ExecutableDirectiveLocation(node) => node.format_expanded(formatter),
            DirectiveLocation::TypeSystemDirectiveLocation(node) => node.format_expanded(formatter),
        }
    }

    fn expands(&self) -> (b: bool) {
        match self {
            DirectiveLocation::ExecutableDirectiveLocation(node) => node.expands(),
            DirectiveLocation::TypeSystemDirectiveLocation(node) => node.expands(),
        }
    }

    fn can_expand(&self) -> (b: bool) {
        match self {
            DirectiveLocation::ExecutableDirectiveLocation(node) => node.can_expand(),
            DirectiveLocation::TypeSystemDirectiveLocation(node) => node.can_expand(),
        }
    }
}

/// Each kind is laid out as the node it holds.
impl Format for ExecutableDirectiveLocation {
    open spec fn collapsed(&self, sh: Shape) -> (Writes, Shape) {
        match self {
            ExecutableDirectiveLocation::Query(node) => node.collapsed(sh),
            ExecutableDirectiveLocation::Mutation(node) => node.collapsed(sh),
            ExecutableDirectiveLocation::Subscription(node) => node.collapsed(sh),
            ExecutableDirectiveLocation::Field(node) => node.collapsed(sh),
            ExecutableDirectiveLocation::FragmentDefinition(node) => node.collapsed(sh),
            ExecutableDirectiveLocation::FragmentSpread(node) => node.collapsed(sh),
            ExecutableDirectiveLocation::InlineFragment(node) => node.collapsed(sh),
            ExecutableDirectiveLocation::VariableDefinition(node) => node.collapsed(sh),
        }
    }

    open spec fn expanded(&self, sh: Shape) -> (Writes, Shape) {
        match self {
            ExecutableDirectiveLocation::Query(node) => node.expanded(sh),
            ExecutableDirectiveLocation::Mutation(node) => node.expanded(sh),
            ExecutableDirectiveLocation::Subscription(node) => node.expanded(sh),
            ExecutableDirectiveLocation::Field(node) => node.expanded(sh),
            ExecutableDirectiveLocation::FragmentDefinition(node) => node.expanded(sh),
            ExecutableDirectiveLocation::FragmentSpread(node) => node.expanded(sh),
            ExecutableDirectiveLocation::InlineFragment(node) => node.expanded(sh),
            ExecutableDirectiveLocation::VariableDefinition(node) => node.expanded(sh),
        }
    }

    open spec fn spec_expands(&self) -> bool {
        match self {
            ExecutableDirectiveLocation::Query(node) => node.spec_expands(),
            ExecutableDirectiveLocation::Mutation(node) => node.spec_expands(),
            ExecutableDirectiveLocation::Subscription(node) => node.spec_expands(),
            ExecutableDirectiveLocation::Field(node) => node.spec_expands(),
            ExecutableDirectiveLocation::FragmentDefinition(node) => node.spec_expands(),
            ExecutableDirectiveLocation::FragmentSpread(node) => node.spec_expands(),
            ExecutableDirectiveLocation::InlineFragment(node) => node.spec_expands(),
            ExecutableDirectiveLocation::VariableDefinition(node) => node.spec_expands(),
        }
    }

    open spec fn spec_can_expand(&self) -> bool {
        match self {
            ExecutableDirectiveLocation::Query(node) => node.spec_can_expand(),
            ExecutableDirectiveLocation::Mutation(node) => node.spec_can_expand(),
            ExecutableDirectiveLocation::Subscription(node) => node.spec_can_expand(),
            ExecutableDirectiveLocation::Field(node) => node.spec_can_expand(),
            ExecutableDirectiveLocation::FragmentDefinition(node) => node.spec_can_expand(),
            ExecutableDirectiveLocation::FragmentSpread(node) => node.spec_can_expand(),
            ExecutableDirectiveLocation::InlineFragment(node) => node.spec_can_expand(),
            ExecutableDirectiveLocation::VariableDefinition(node) => node.spec_can_expand(),
        }
    }

    fn format_collapsed<W: Write>(&self, formatter: &mut Formatter<W>) -> (r: Result<(), Error>) {
        match self {
            ExecutableDirectiveLocation::Query(node) => node.format_collapsed(formatter),
            ExecutableDirectiveLocation::Mutation(node) => node.format_collapsed(formatter),
            ExecutableDirectiveLocation::Subscription(node) => node.format_collapsed(formatter),
            ExecutableDirectiveLocation::Field(node) => node.format_collapsed(formatter),
            ExecutableDirectiveLocation::FragmentDefinition(node) => node.format_collapsed(formatter),
            ExecutableDirectiveLocation::FragmentSpread(node) => node.format_collapsed(formatter),
            ExecutableDirectiveLocation::InlineFragment(node) => node.format_collapsed(formatter),
            ExecutableDirectiveLocation::VariableDefinition(node) => node.format_collapsed(formatter),
        }
    }

    fn format_expanded<W: Write>(&self, formatter: &mut Formatter<W>) -> (r: Result<(), Error>) {
        match self {
            ExecutableDirectiveLocation::Query(node) => node.format_expanded(formatter),
            ExecutableDirectiveLocation::Mutation(node) => node.format_expanded(formatter),
            ExecutableDirectiveLocation::Subscription(node) => node.format_expanded(formatter),
            ExecutableDirectiveLocation::Field(node) => node.format_expanded(formatter),
            ExecutableDirectiveLocation::FragmentDefinition(node) => node.format_expanded(formatter),
            ExecutableDirectiveLocation::FragmentSpread(node) => node.format_expanded(formatter),
            ExecutableDirectiveLocation::InlineFragment(node) => node.format_expanded(formatter),
            ExecutableDirectiveLocation::VariableDefinition(node) => node.format_expanded(formatter),
        }
    }

    fn expands(&self) -> (b: bool) {
        match self {
            ExecutableDirectiveLocation::Query(node) => node.expands(),
            ExecutableDirectiveLocation::Mutation(node) => node.expands(),
            ExecutableDirectiveLocation::Subscription(node) => node.expands(),
            ExecutableDirectiveLocation::Field(node) => node.expands(),
            ExecutableDirectiveLocation::FragmentDefinition(node) => node.expands(),
            ExecutableDirectiveLocation::FragmentSpread(node) => node.expands(),
            ExecutableDirectiveLocation::InlineFragment(node) => node.expands(),
            ExecutableDirectiveLocation::VariableDefinition(node) => node.expands(),
        }
    }

    fn can_expand(&self) -> (b: bool) {
        match self {
            ExecutableDirectiveLocation::Query(node) => node.can_expand(),
            ExecutableDirectiveLocation::Mutation(node) => node.can_expand(),
            ExecutableDirectiveLocation::Subscription(node) => node.can_expand(),
            ExecutableDirectiveLocation::Field(node) => node.can_expand(),
            ExecutableDirectiveLocation::FragmentDefinition(node) => node.can_expand(),
            ExecutableDirectiveLocation::FragmentSpread(node) => node.can_expand(),
            ExecutableDirectiveLocation::InlineFragment(node) => node.can_expand(),
            ExecutableDirectiveLocation::VariableDefinition(node) => node.can_expand(),
        }
    }
}

/// Each kind is laid out as the node it holds.
impl Format for TypeSystemDirectiveLocation {
    open spec fn collapsed(&self, sh: Shape) -> (Writes, Shape) {
        match self {
            TypeSystemDirectiveLocation::Schema(node) => node.collapsed(sh),
            TypeSystemDirectiveLocation::Scalar(node) => node.collapsed(sh),
            TypeSystemDirectiveLocation::Object(node) => node.collapsed(sh),
            TypeSystemDirectiveLocation::FieldDefinition(node) => node.collapsed(sh),
            TypeSystemDirectiveLocation::ArgumentDefinition(node) => node.collapsed(sh),
            TypeSystemDirectiveLocation::Interface(node) => node.collapsed(sh),
            TypeSystemDirectiveLocation::Union(node) => node.collapsed(sh),
            TypeSystemDirectiveLocation::Enum(node) => node.collapsed(sh),
            TypeSystemDirectiveLocation::EnumValue(node) => node.collapsed(sh),
            TypeSystemDirectiveLocation::InputObject(node) => node.collapsed(sh),
            TypeSystemDirectiveLocation::InputFieldDefinition(node) => node.collapsed(sh),
        }
    }

    open spec fn expanded(&self, sh: Shape) -> (Writes, Shape) {
        match self {
            TypeSystemDirectiveLocation::Schema(node) => node.expanded(sh),
            TypeSystemDirectiveLocation::Scalar(node) => node.expanded(sh),
            TypeSystemDirectiveLocation::Object(node) => node.expanded(sh),
            TypeSystemDirectiveLocation::FieldDefinition(node) => node.expanded(sh),
            TypeSystemDirectiveLocation::ArgumentDefinition(node) => node.expanded(sh),
            TypeSystemDirectiveLocation::Interface(node) => node.expanded(sh),
            TypeSystemDirectiveLocation::Union(node) => node.expanded(sh),
            TypeSystemDirectiveLocation::Enum(node) => node.expanded(sh),
            TypeSystemDirectiveLocation::EnumValue(node) => node.expanded(sh),
            TypeSystemDirectiveLocation::InputObject(node) => node.expanded(sh),
            TypeSystemDirectiveLocation::InputFieldDefinition(node) => node.expanded(sh),
        }
    }

    open spec fn spec_expands(&self) -> bool {
        match self {
            TypeSystemDirectiveLocation::Schema(node) => node.spec_expands(),
            TypeSystemDirectiveLocation::Scalar(node) => node.spec_expands(),
            TypeSystemDirectiveLocation::Object(node) => node.spec_expands(),
            TypeSystemDirectiveLocation::FieldDefinition(node) => node.spec_expands(),
            TypeSystemDirectiveLocation::ArgumentDefinition(node) => node.spec_expands(),
            TypeSystemDirectiveLocation::Interface(node) => node.spec_expands(),
            TypeSystemDirectiveLocation::Union(node) => node.spec_expands(),
            TypeSystemDirectiveLocation::Enum(node) => node.spec_expands(),
            TypeSystemDirectiveLocation::EnumValue(node) => node.spec_expands(),
            TypeSystemDirectiveLocation::InputObject(node) => node.spec_expands(),
            TypeSystemDirectiveLocation::InputFieldDefinition(node) => node.spec_expands(),
        }
    }

    open spec fn spec_can_expand(&self) -> bool {
        match self {
            TypeSystemDirectiveLocation::Schema(node) => node.spec_can_expand(),
            TypeSystemDirectiveLocation::Scalar(node) => node.spec_can_expand(),
            TypeSystemDirectiveLocation::Object(node) => node.spec_can_expand(),
            TypeSystemDirectiveLocation::FieldDefinition(node) => node.spec_can_expand(),
            TypeSystemDirectiveLocation::ArgumentDefinition(node) => node.spec_can_expand(),
            TypeSystemDirectiveLocation::Interface(node) => node.spec_can_expand(),
            TypeSystemDirectiveLocation::Union(node) => node.spec_can_expand(),
            TypeSystemDirectiveLocation::Enum(node) => node.spec_can_expand(),
            TypeSystemDirectiveLocation::EnumValue(node) => node.spec_can_expand(),
            TypeSystemDirectiveLocation::InputObject(node) => node.spec_can_expand(),
            TypeSystemDirectiveLocation::InputFieldDefinition(node) => node.spec_can_expand(),
        }
    }

    fn format_collapsed<W: Write>(&self, formatter: &mut Formatter<W>) -> (r: Result<(), Error>) {
        match self {
            TypeSystemDirectiveLocation::Schema(node) => node.format_collapsed(formatter),
            TypeSystemDirectiveLocation::Scalar(node) => node.format_collapsed(formatter),
            TypeSystemDirectiveLocation::Object(node) => node.format_collapsed(formatter),
            TypeSystemDirectiveLocation::FieldDefinition(node) => node.format_collapsed(formatter),
            TypeSystemDirectiveLocation::ArgumentDefinition(node) => node.format_collapsed(formatter),
            TypeSystemDirectiveLocation::Interface(node) => node.format_collapsed(formatter),
            TypeSystemDirectiveLocation::Union(node) => node.format_collapsed(formatter),
            TypeSystemDirectiveLocation::Enum(node) => node.format_collapsed(formatter),
            TypeSystemDirectiveLocation::EnumValue(node) => node.format_collapsed(formatter),
            TypeSystemDirectiveLocation::InputObject(node) => node.format_collapsed(formatter),
            TypeSystemDirectiveLocation::InputFieldDefinition(node) => node.format_collapsed(formatter),
        }
    }

    fn format_expanded<W: Write>(&self, formatter: &mut Formatter<W>) -> (r: Result<(), Error>) {
        match self {
            TypeSystemDirectiveLocation::Schema(node) => node.format_expanded(formatter),
            TypeSystemDirectiveLocation::Scalar(node) => node.format_expanded(formatter),
            TypeSystemDirectiveLocation::Object(node) => node.format_expanded(formatter),
            TypeSystemDirectiveLocation::FieldDefinition(node) => node.format_expanded(formatter),
            TypeSystemDirectiveLocation::ArgumentDefinition(node) => node.format_expanded(formatter),
            TypeSystemDirectiveLocation::Interface(node) => node.format_expanded(formatter),
            TypeSystemDirectiveLocation::Union(node) => node.format_expanded(formatter),
            TypeSystemDirectiveLocation::Enum(node) => node.format_expanded(formatter),
            TypeSystemDirectiveLocation::EnumValue(node) => node.format_expanded(formatter),
            TypeSystemDirectiveLocation::InputObject(node) => node.format_expanded(formatter),
            TypeSystemDirectiveLocation::InputFieldDefinition(node) => node.format_expanded(formatter),
        }
    }

    fn expands(&self) -> (b: bool) {
        match self {
            TypeSystemDirectiveLocation::Schema(node) => node.expands(),
            TypeSystemDirectiveLocation::Scalar(node) => node.expands(),
            TypeSystemDirectiveLocation::Object(node) => node.expands(),
            TypeSystemDirectiveLocation::FieldDefinition(node) => node.expands(),
            TypeSystemDirectiveLocation::ArgumentDefinition(node) => node.expands(),
            TypeSystemDirectiveLocation::Interface(node) => node.expands(),
            TypeSystemDirectiveLocation::Union(node) => node.expands(),
            TypeSystemDirectiveLocation::Enum(node) => node.expands(),
            TypeSystemDirectiveLocation::EnumValue(node) => node.expands(),
            TypeSystemDirectiveLocation::InputObject(node) => node.expands(),
            TypeSystemDirectiveLocation::InputFieldDefinition(node) => node.expands(),
        }
    }

    fn can_expand(&self) -> (b: bool) {
        match self {
            TypeSystemDirectiveLocation::Schema(node) => node.can_expand(),
            TypeSystemDirectiveLocation::Scalar(node) => node.can_expand(),
            TypeSystemDirectiveLocation::Object(node) => node.can_expand(),
            TypeSystemDirectiveLocation::FieldDefinition(node) => node.can_expand(),
            TypeSystemDirectiveLocation::ArgumentDefinition(node) => node.can_expand(),
            TypeSystemDirectiveLocation::Interface(node) => node.can_expand(),
            TypeSystemDirectiveLocation::Union(node) => node.can_expand(),
            TypeSystemDirectiveLocation::Enum(node) => node.can_expand(),
            TypeSystemDirectiveLocation::EnumValue(node) => node.can_expand(),
            TypeSystemDirectiveLocation::InputObject(node) => node.can_expand(),
            TypeSystemDirectiveLocation::InputFieldDefinition(node) => node.can_expand(),
        }
    }
}

/// Items separated by the token `sep`: each item after the first comes
/// after the separator.
pub open spec fn separated_item<T: Format>(sep: Seq<char>) -> spec_fn(int, T, Shape) -> (Writes, Shape) {
    |i: int, item: T, sh: Shape|
        {
            let s = if i != 0 {
                push_step(sh, sep)
            } else {
                nothing(sh)
            };
            then(s, formatted(&item, s.1))
        }
}

/// Items each on a line of its own, after the token `sep`.
pub open spec fn line_separated_item<T: Format>(sep: Seq<char>) -> spec_fn(int, T, Shape) -> (Writes, Shape) {
    |i: int, item: T, sh: Shape|
        {
            let l = lines_step(sh, 1);
            let p = push_step(l.1, sep);
            then(then(l, p), formatted(&item, p.1))
        }
}

/// Lays out the items, the token `sep` between each two.
fn format_separated<W: Write, T: Format>(items: &Vec<&T>, sep: &str, formatter: &mut Formatter<W>) -> (r: Result<
    (),
    Error,
>)
    ensures
        final(formatter).outcome(r) == steps::<W>(
            old(formatter).model(),
            fold(items@.map_values(|t: &T| *t), old(formatter).shape(), separated_item::<T>(sep@)),
        ),
{
    let ghost all = items@.map_values(|t: &T| *t);
    let ghost m0 = formatter.model();
    let ghost sh0 = formatter.shape();
    let ghost step = separated_item::<T>(sep@);
    let mut i: usize = 0;
    while i < items.len()
        invariant
            i <= items@.len(),
            all == items@.map_values(|t: &T| *t),
            m0 == old(formatter).model(),
            sh0 == old(formatter).shape(),
            step == separated_item::<T>(sep@),
            steps::<W>(m0, fold(all.take(i as int), sh0, step)) == (formatter.model(), formatter.shape(), true),
        decreases items.len() - i,
    {
        let ghost mb = formatter.model();
        let ghost shb = formatter.shape();
        let ghost item = all[i as int];
        let ghost s = if i != 0 {
            push_step(shb, sep@)
        } else {
            nothing(shb)
        };
        proof {
            lemma_fold_next::<W, T>(m0, all, sh0, step, i as int);
            assert(step(i as int, item, shb) == then(s, formatted(&item, s.1)));
            lemma_then::<W>(mb, s, formatted(&item, s.1));
            lemma_steps_end::<W>(mb, s);
        }
        if i != 0 {
            let r = formatter.push(sep);
            if r.is_err() {
                proof {
                    lemma_fold_fails::<W, T>(m0, all, sh0, step, i + 1);
                }
                return r;
            }
        }
        let r = items[i].format(formatter);
        if r.is_err() {
            proof {
                lemma_fold_fails::<W, T>(m0, all, sh0, step, i + 1);
            }
            return r;
        }
        i = i + 1;
    }
    assert(all.take(i as int) =~= all);
    Ok(())
}

/// Lays out the items each on a line of its own, after the token `sep`.
fn format_line_separated<W: Write, T: Format>(items: &Vec<&T>, sep: &str, formatter: &mut Formatter<W>) -> (r: Result<
    (),
    Error,
>)
    ensures
        final(formatter).outcome(r) == steps::<W>(
            old(formatter).model(),
            fold(items@.map_values(|t: &T| *t), old(formatter).shape(), line_separated_item::<T>(sep@)),
        ),
{
    let ghost all = items@.map_values(|t: &T| *t);
    let ghost m0 = formatter.model();
    let ghost sh0 = formatter.shape();
    let ghost step = line_separated_item::<T>(sep@);
    let mut i: usize = 0;
    while i < items.len()
        invariant
            i <= items@.len(),
            all == items@.map_values(|t: &T| *t),
            m0 == old(formatter).model(),
            sh0 == old(formatter).shape(),
            step == line_separated_item::<T>(sep@),
            steps::<W>(m0, fold(all.take(i as int), sh0, step)) == (formatter.model(), formatter.shape(), true),
        decreases items.len() - i,
    {
        let ghost mb = formatter.model();
        let ghost shb = formatter.shape();
        let ghost item = all[i as int];
        let ghost l = lines_step(shb, 1);
        let ghost p = push_step(l.1, sep@);
        proof {
            lemma_fold_next::<W, T>(m0, all, sh0, step, i as int);
            assert(step(i as int, item, shb) == then(then(l, p), formatted(&item, p.1)));
            lemma_then::<W>(mb, then(l, p), formatted(&item, p.1));
            lemma_then::<W>(mb, l, p);
            lemma_steps_end::<W>(mb, l);
            lemma_steps_end::<W>(mb, then(l, p));
            lemma_steps_end::<W>(steps::<W>(mb, l).0, p);
        }
        let r = formatter.line();
        if r.is_err() {
            proof {
                lemma_fold_fails::<W, T>(m0, all, sh0, step, i + 1);
            }
            return r;
        }
        let r = formatter.push(sep);
        if r.is_err() {
            proof {
                lemma_fold_fails::<W, T>(m0, all, sh0, step, i + 1);
            }
            return r;
        }
        let r = items[i].format(formatter);
        if r.is_err() {
            proof {
                lemma_fold_fails::<W, T>(m0, all, sh0, step, i + 1);
            }
            return r;
        }
        i = i + 1;
    }
    assert(all.take(i as int) =~= all);
    Ok(())
}

} // verus!
