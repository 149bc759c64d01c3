use vstd::prelude::*;

use crate::ast::context::Shared;
use crate::ast::types::{
    Directive, Value, EnumValueDefinition, FieldDefinition, InputValueDefinition, NamedType, Recoverable, Type,
    TypeDefinition,
};
use crate::lex::chars::same_text;
use crate::lex::raw::RawToken;
use crate::lex::token::Name;
use crate::lex::Span;

verus! {

/// A piece of generated text: literal text, or a token copied from a source,
/// which the source map points back to.
pub enum Piece {
    Text(String),
    Token(RawToken),
}

/// A piece spelled out: its text, and for a token the span it comes from.
pub open spec fn piece_view(piece: Piece) -> (Seq<char>, Option<Span>) {
    match piece {
        Piece::Text(text) => (text@, None),
        Piece::Token(token) => (token.source@, Some(token.span)),
    }
}

/// Pieces spelled out.
pub open spec fn pieces(v: Seq<Piece>) -> Seq<(Seq<char>, Option<Span>)> {
    v.map_values(|piece: Piece| piece_view(piece))
}

/// Literal text.
pub open spec fn text(s: &str) -> (Seq<char>, Option<Span>) {
    (s@, None)
}

/// The token of a name.
pub open spec fn token(name: Name) -> (Seq<char>, Option<Span>) {
    (name.0.source@, Some(name.0.span))
}

/// How the directive `@litho_export(typescript: ...)` asks a type, or the
/// schema, to be exported.
pub struct LithoExportTypescript {
    pub skip: bool,
    pub prepend: Option<String>,
    pub rewrite: Option<String>,
}

/// The TypeScript type that a GraphQL scalar stands for, if it is a built-in
/// one.
pub open spec fn builtin_type(name: Seq<char>) -> Option<&'static str> {
    if name == "Boolean"@ {
        Some("boolean")
    } else if name == "Int"@ || name == "Float"@ {
        Some("number")
    } else if name == "String"@ || name == "ID"@ {
        Some("string")
    } else {
        None
    }
}

/// The TypeScript pieces of a type: a list is its item type and `[]`, a
/// missing item type is `never`, a non-null type is its nullable one, and a
/// named type is its built-in TypeScript name or its own name.
pub open spec fn type_pieces(ty: Type) -> Seq<(Seq<char>, Option<Span>)>
    decreases ty,
{
    match ty {
        Type::List(list) => (match list.ty {
            Recoverable::Present(item) => type_pieces(*item.0),
            Recoverable::Missing(_) => seq![text("never")],
        }) + seq![text("[]")],
        Type::Named(named) => match builtin_type(named.0.0.source@) {
            Some(builtin) => seq![text(builtin)],
            None => seq![token(named.0)],
        },
        Type::NonNull(non_null) => type_pieces(*non_null.ty.0),
    }
}

/// The TypeScript pieces of a type that may be missing.
pub open spec fn optional_type_pieces(ty: Recoverable<Shared<Type>>) -> Seq<(Seq<char>, Option<Span>)> {
    match ty {
        Recoverable::Present(t) => type_pieces(*t.0),
        Recoverable::Missing(_) => seq![text("never")],
    }
}

/// Whether a type that may be missing is there and nullable.
pub open spec fn nullable(ty: Recoverable<Shared<Type>>) -> bool {
    ty matches Recoverable::Present(t) && !(*t.0 is NonNull)
}

/// One member of an exported interface, class or input: its name, `?` when
/// its type is nullable, its type, ` | null` when nullable and `or_null`,
/// and `end`.
pub open spec fn member_pieces(
    name: Name,
    ty: Recoverable<Shared<Type>>,
    or_null: bool,
    end: &str,
) -> Seq<(Seq<char>, Option<Span>)> {
    seq![text("    "), token(name)] + (if nullable(ty) {
        seq![text("?")]
    } else {
        Seq::empty()
    }) + seq![text(": ")] + optional_type_pieces(ty) + (if or_null && nullable(ty) {
        seq![text(" | null")]
    } else {
        Seq::empty()
    }) + seq![text(end)]
}

/// The members of the fields of a class (`;`) or an interface (`,`).
pub open spec fn field_members(fields: Seq<Shared<FieldDefinition>>, end: &str) -> Seq<
    (Seq<char>, Option<Span>),
>
    decreases fields.len(),
{
    if fields.len() == 0 {
        Seq::empty()
    } else {
        field_members(fields.drop_last(), end) + member_pieces(
            fields.last().0.name,
            fields.last().0.ty,
            true,
            end,
        )
    }
}

/// The members of the fields of an input.
pub open spec fn input_members(fields: Seq<Shared<InputValueDefinition>>) -> Seq<
    (Seq<char>, Option<Span>),
>
    decreases fields.len(),
{
    if fields.len() == 0 {
        Seq::empty()
    } else {
        input_members(fields.drop_last()) + member_pieces(
            fields.last().0.name,
            fields.last().0.ty,
            false,
            ",\n",
        )
    }
}

/// The members of an exported enum: each value, named after itself, in
/// JavaScript (`:`) or in a declaration (` =`).
pub open spec fn enum_members(values: Seq<Shared<EnumValueDefinition>>, separator: &str) -> Seq<
    (Seq<char>, Option<Span>),
>
    decreases values.len(),
{
    if values.len() == 0 {
        Seq::empty()
    } else {
        let value = values.last().0.enum_value.0;
        enum_members(values.drop_last(), separator) + seq![
            text("    "),
            token(value),
            text(separator),
            token(value),
            text("\",\n"),
        ]
    }
}

/// The members of an exported union: each member type on a line of its
/// own.
pub open spec fn union_members(members: Seq<NamedType>) -> Seq<(Seq<char>, Option<Span>)>
    decreases members.len(),
{
    if members.len() == 0 {
        Seq::empty()
    } else {
        union_members(members.drop_last()) + seq![text("\n    | "), token(members.last().0)]
    }
}

/// The JavaScript of an exported enum.
pub open spec fn enum_js(name: Name, values: Seq<Shared<EnumValueDefinition>>) -> Seq<(Seq<char>, Option<Span>)> {
    seq![text("exports."), token(name), text(" = {\n")] + enum_members(values, ": \"") + seq![text("}\n\n")]
}

/// The declaration of an exported enum.
pub open spec fn enum_dts(name: Name, values: Seq<Shared<EnumValueDefinition>>) -> Seq<(Seq<char>, Option<Span>)> {
    seq![text("export enum "), token(name), text(" {\n")] + enum_members(values, " = \"") + seq![text("}\n\n")]
}

/// The declaration of an exported input object.
pub open spec fn input_dts(name: Name, fields: Seq<Shared<InputValueDefinition>>) -> Seq<(Seq<char>, Option<Span>)> {
    seq![text("export interface "), token(name), text(" {\n")] + input_members(fields) + seq![text("}\n\n")]
}

/// The declaration of an exported interface.
pub open spec fn interface_dts(name: Name, fields: Seq<Shared<FieldDefinition>>) -> Seq<(Seq<char>, Option<Span>)> {
    seq![text("export interface "), token(name), text(" {\n")] + field_members(fields, ",\n") + seq![text("}\n\n")]
}

/// The JavaScript of an exported object type.
pub open spec fn object_js(name: Name) -> Seq<(Seq<char>, Option<Span>)> {
    seq![text("exports."), token(name), text(" = class "), token(name), text(" {}\n\n")]
}

/// The declaration of an exported object type.
pub open spec fn object_dts(name: Name, fields: Seq<Shared<FieldDefinition>>) -> Seq<(Seq<char>, Option<Span>)> {
    seq![text("export class "), token(name), text(" {\n")] + field_members(fields, ";\n") + seq![text("}\n\n")]
}

/// The declaration of an exported scalar.
pub open spec fn scalar_dts(name: Name) -> Seq<(Seq<char>, Option<Span>)> {
    seq![text("export type "), token(name), text(" = any;\n\n")]
}

/// The declaration of an exported union.
pub open spec fn union_dts(name: Name, members: Seq<NamedType>) -> Seq<(Seq<char>, Option<Span>)> {
    seq![text("export type "), token(name), text(" = ")] + union_members(members) + seq![text(";\n\n")]
}

/// Whether one of the export settings asks a type to be skipped.
pub open spec fn skips(settings: Seq<LithoExportTypescript>) -> bool {
    exists|i: int| 0 <= i < settings.len() && #[trigger] settings[i].skip
}

/// The text that the export settings of the schema put first: each
/// `prepend`, in order.
pub open spec fn prepended(settings: Seq<LithoExportTypescript>) -> Seq<(Seq<char>, Option<Span>)>
    decreases settings.len(),
{
    if settings.len() == 0 {
        Seq::empty()
    } else {
        prepended(settings.drop_last()) + (match settings.last().prepend {
            Some(prepend) => seq![(prepend@, None)],
            None => Seq::empty(),
        })
    }
}

/// Appends literal text.
fn push_text(out: &mut Vec<Piece>, s: &str)
    ensures
        pieces(final(out)@) == pieces(old(out)@).push(text(s)),
{
    out.push(Piece::Text(s.to_owned()));
    assert(pieces(out@) =~= pieces(old(out)@).push(text(s)));
}

/// Appends the token of a name.
fn push_token(out: &mut Vec<Piece>, name: &Name)
    ensures
        pieces(final(out)@) == pieces(old(out)@).push(token(*name)),
{
    out.push(Piece::Token(name.0.duplicate()));
    assert(pieces(out@) =~= pieces(old(out)@).push(token(*name)));
}

/// Generates the JavaScript code and the TypeScript declarations of the
/// types of a schema.
pub struct Generator {
    pub js: Vec<Piece>,
    pub dts: Vec<Piece>,
}

/// The value that a directive `@litho_export(typescript: ...)` gives as
/// export settings: that of its first argument named `typescript`, when the
/// directive is named `litho_export` and the argument has a value.
pub fn export_typescript_value(d: &Directive) -> (r: Option<&Value>)
    ensures
        r is Some <==> {
            &&& d.name is Present
            &&& crate::ast::types::text(d.name->Present_0) == "litho_export"@
            &&& exists|i: int|
                {
                    &&& 0 <= i < d.argument_list().len()
                    &&& crate::ast::types::text(#[trigger] d.argument_list()[i].0.name) == "typescript"@
                    &&& forall|j: int|
                        0 <= j < i ==> #[trigger] crate::ast::types::text(d.argument_list()[j].0.name)
                            != "typescript"@
                    &&& d.argument_list()[i].0.value is Present
                }
        },
        r matches Some(v) ==> exists|i: int|
            {
                &&& 0 <= i < d.argument_list().len()
                &&& crate::ast::types::text(#[trigger] d.argument_list()[i].0.name) == "typescript"@
                &&& forall|j: int|
                    0 <= j < i ==> #[trigger] crate::ast::types::text(d.argument_list()[j].0.name) != "typescript"@
                &&& d.argument_list()[i].0.value is Present
                &&& *d.argument_list()[i].0.value->Present_0.0 == *v
            },
{
    let named = match &d.name {
        Recoverable::Present(name) => same_text(name.0.source.as_str(), "litho_export"),
        Recoverable::Missing(_) => false,
    };
    if !named {
        return None;
    }
    match d.argument("typescript") {
        Some(argument) => match &argument.0.value {
            Recoverable::Present(value) => Some(&value.0),
            Recoverable::Missing(_) => None,
        },
        None => None,
    }
}

impl Generator {
    /// A generator that generated nothing yet.
    pub fn new() -> (generator: Generator)
        ensures
            generator.js@ == Seq::<Piece>::empty(),
            generator.dts@ == Seq::<Piece>::empty(),
    {
        Generator { js: Vec::new(), dts: Vec::new() }
    }

    /// Declares the text that the export settings of the schema put first.
    pub fn preprocess_export_directives(&mut self, settings: &Vec<LithoExportTypescript>)
        ensures
            pieces(final(self).dts@) == pieces(old(self).dts@) + prepended(settings@),
            final(self).js@ == old(self).js@,
    {
        let mut i: usize = 0;
        while i < settings.len()
            invariant
                i <= settings@.len(),
                pieces(self.dts@) == pieces(old(self).dts@) + prepended(settings@.take(i as int)),
                self.js@ == old(self).js@,
            decreases settings.len() - i,
        {
            assert(settings@.take(i + 1).drop_last() =~= settings@.take(i as int));
            match &settings[i].prepend {
                Some(prepend) => {
                    let ghost before = self.dts@;
                    self.dts.push(Piece::Text(prepend.clone()));
                    assert(pieces(self.dts@) =~= pieces(before).push((prepend@, None)));
                },
                None => {},
            }
            i = i + 1;
            assert(pieces(self.dts@) =~= pieces(old(self).dts@) + prepended(settings@.take(i as int)));
        }
        assert(settings@.take(i as int) =~= settings@);
    }

    /// Declares a type.
    pub fn write_type(&mut self, ty: &Type)
        ensures
            pieces(final(self).dts@) == pieces(old(self).dts@) + type_pieces(*ty),
            final(self).js@ == old(self).js@,
        decreases ty,
    {
        let ghost before = self.dts@;
        match ty {
            Type::List(list) => {
                match list.ty.ok() {
                    Some(item) => self.write_type(&*item.0),
                    None => push_text(&mut self.dts, "never"),
                }
                push_text(&mut self.dts, "[]");
            },
            Type::Named(named) => {
                let source = named.0.0.source.as_str();
                if same_text(source, "Boolean") {
                    push_text(&mut self.dts, "boolean");
                } else if same_text(source, "Int") || same_text(source, "Float") {
                    push_text(&mut self.dts, "number");
                } else if same_text(source, "String") || same_text(source, "ID") {
                    push_text(&mut self.dts, "string");
                } else {
                    push_token(&mut self.dts, &named.0);
                }
            },
            Type::NonNull(non_null) => {
                self.write_type(&*non_null.ty.0);
            },
        }
        assert(pieces(self.dts@) =~= pieces(before) + type_pieces(*ty));
    }

    /// Declares a type that may be missing; `never` stands for a missing one.
    fn write_optional_type(&mut self, ty: &Recoverable<Shared<Type>>)
        ensures
            pieces(final(self).dts@) == pieces(old(self).dts@) + optional_type_pieces(*ty),
            final(self).js@ == old(self).js@,
    {
        match ty.ok() {
            Some(t) => self.write_type(&*t.0),
            None => push_text(&mut self.dts, "never"),
        }
    }

    /// Declares one member of an interface, a class or an input.
    fn write_member(&mut self, name: &Name, ty: &Recoverable<Shared<Type>>, or_null: bool, end: &str)
        ensures
            pieces(final(self).dts@) == pieces(old(self).dts@) + member_pieces(*name, *ty, or_null, end),
            final(self).js@ == old(self).js@,
    {
        let ghost before = pieces(self.dts@);
        let is_nullable = match ty.ok() {
            Some(t) => t.0.is_nullable(),
            None => false,
        };
        push_text(&mut self.dts, "    ");
        push_token(&mut self.dts, name);
        if is_nullable {
            push_text(&mut self.dts, "?");
        }
        push_text(&mut self.dts, ": ");
        let ghost middle = pieces(self.dts@);
        self.write_optional_type(ty);
        if or_null && is_nullable {
            push_text(&mut self.dts, " | null");
        }
        push_text(&mut self.dts, end);
        assert(pieces(self.dts@) =~= before + member_pieces(*name, *ty, or_null, end));
    }

    /// Exports an enum: an object of its values in JavaScript, and an enum
    /// declaration.
    pub fn process_enum(&mut self, name: &Name, values: &Vec<Shared<EnumValueDefinition>>)
        ensures
            pieces(final(self).js@) == pieces(old(self).js@) + enum_js(*name, values@),
            pieces(final(self).dts@) == pieces(old(self).dts@) + enum_dts(*name, values@),
    {
        let ghost js = pieces(self.js@);
        let ghost dts = pieces(self.dts@);
        push_text(&mut self.js, "exports.");
        push_token(&mut self.js, name);
        push_text(&mut self.js, " = {\n");
        push_text(&mut self.dts, "export enum ");
        push_token(&mut self.dts, name);
        push_text(&mut self.dts, " {\n");
        let ghost js_head = pieces(self.js@);
        let ghost dts_head = pieces(self.dts@);
        let mut i: usize = 0;
        while i < values.len()
            invariant
                i <= values@.len(),
                pieces(self.js@) == js_head + enum_members(values@.take(i as int), ": \""),
                pieces(self.dts@) == dts_head + enum_members(values@.take(i as int), " = \""),
            decreases values.len() - i,
        {
            let value = &values[i].0.enum_value.0;
            assert(values@.take(i + 1).drop_last() =~= values@.take(i as int));
            let ghost js_before = pieces(self.js@);
            let ghost dts_before = pieces(self.dts@);
            push_text(&mut self.js, "    ");
            push_token(&mut self.js, value);
            push_text(&mut self.js, ": \"");
            push_token(&mut self.js, value);
            push_text(&mut self.js, "\",\n");
            push_text(&mut self.dts, "    ");
            push_token(&mut self.dts, value);
            push_text(&mut self.dts, " = \"");
            push_token(&mut self.dts, value);
            push_text(&mut self.dts, "\",\n");
            i = i + 1;
            assert(pieces(self.js@) =~= js_head + enum_members(values@.take(i as int), ": \""));
            assert(pieces(self.dts@) =~= dts_head + enum_members(values@.take(i as int), " = \""));
        }
        assert(values@.take(i as int) =~= values@);
        push_text(&mut self.js, "}\n\n");
        push_text(&mut self.dts, "}\n\n");
        assert(pieces(self.js@) =~= js + seq![text("exports."), token(*name), text(" = {\n")]
            + enum_members(values@, ": \"") + seq![text("}\n\n")]);
        assert(pieces(self.dts@) =~= dts + seq![text("export enum "), token(*name), text(" {\n")]
            + enum_members(values@, " = \"") + seq![text("}\n\n")]);
    }

    /// Exports an input object: an interface declaration of its fields.
    pub fn process_input_object(&mut self, name: &Name, fields: &Vec<Shared<InputValueDefinition>>)
        ensures
            pieces(final(self).dts@) == pieces(old(self).dts@) + input_dts(*name, fields@),
            final(self).js@ == old(self).js@,
    {
        let ghost dts = pieces(self.dts@);
        push_text(&mut self.dts, "export interface ");
        push_token(&mut self.dts, name);
        push_text(&mut self.dts, " {\n");
        let ghost head = pieces(self.dts@);
        let mut i: usize = 0;
        while i < fields.len()
            invariant
                i <= fields@.len(),
                pieces(self.dts@) == head + input_members(fields@.take(i as int)),
                self.js@ == old(self).js@,
            decreases fields.len() - i,
        {
            assert(fields@.take(i + 1).drop_last() =~= fields@.take(i as int));
            let field = &fields[i].0;
            self.write_member(&field.name, &field.ty, false, ",\n");
            i = i + 1;
            assert(pieces(self.dts@) =~= head + input_members(fields@.take(i as int)));
        }
        assert(fields@.take(i as int) =~= fields@);
        push_text(&mut self.dts, "}\n\n");
        assert(pieces(self.dts@) =~= dts + seq![text("export interface "), token(*name), text(" {\n")]
            + input_members(fields@) + seq![text("}\n\n")]);
    }

    /// Declares the fields of an interface or a class, each ending in `end`.
    fn write_fields(&mut self, fields: &Vec<Shared<FieldDefinition>>, end: &str)
        ensures
            pieces(final(self).dts@) == pieces(old(self).dts@) + field_members(fields@, end),
            final(self).js@ == old(self).js@,
    {
        let ghost head = pieces(self.dts@);
        let mut i: usize = 0;
        while i < fields.len()
            invariant
                i <= fields@.len(),
                pieces(self.dts@) == head + field_members(fields@.take(i as int), end),
                self.js@ == old(self).js@,
            decreases fields.len() - i,
        {
            assert(fields@.take(i + 1).drop_last() =~= fields@.take(i as int));
            let field = &fields[i].0;
            self.write_member(&field.name, &field.ty, true, end);
            i = i + 1;
            assert(pieces(self.dts@) =~= head + field_members(fields@.take(i as int), end));
        }
        assert(fields@.take(i as int) =~= fields@);
    }

    /// Exports an interface: an interface declaration of its fields.
    pub fn process_interface(&mut self, name: &Name, fields: &Vec<Shared<FieldDefinition>>)
        ensures
            pieces(final(self).dts@) == pieces(old(self).dts@) + interface_dts(*name, fields@),
            final(self).js@ == old(self).js@,
    {
        let ghost dts = pieces(self.dts@);
        push_text(&mut self.dts, "export interface ");
        push_token(&mut self.dts, name);
        push_text(&mut self.dts, " {\n");
        self.write_fields(fields, ",\n");
        push_text(&mut self.dts, "}\n\n");
        assert(pieces(self.dts@) =~= dts + seq![text("export interface "), token(*name), text(" {\n")]
            + field_members(fields@, ",\n") + seq![text("}\n\n")]);
    }

    /// Exports an object type: an empty class in JavaScript, and a class
    /// declaration of its fields.
    pub fn process_object(&mut self, name: &Name, fields: &Vec<Shared<FieldDefinition>>)
        ensures
            pieces(final(self).js@) == pieces(old(self).js@) + object_js(*name),
            pieces(final(self).dts@) == pieces(old(self).dts@) + object_dts(*name, fields@),
    {
        let ghost js = pieces(self.js@);
        let ghost dts = pieces(self.dts@);
        push_text(&mut self.js, "exports.");
        push_token(&mut self.js, name);
        push_text(&mut self.js, " = class ");
        push_token(&mut self.js, name);
        push_text(&mut self.js, " {}\n\n");
        assert(pieces(self.js@) =~= js + seq![
            text("exports."),
            token(*name),
            text(" = class "),
            token(*name),
            text(" {}\n\n"),
        ]);
        let ghost js_done = self.js@;
        push_text(&mut self.dts, "export class ");
        push_token(&mut self.dts, name);
        push_text(&mut self.dts, " {\n");
        self.write_fields(fields, ";\n");
        push_text(&mut self.dts, "}\n\n");
        assert(pieces(self.dts@) =~= dts + seq![text("export class "), token(*name), text(" {\n")]
            + field_members(fields@, ";\n") + seq![text("}\n\n")]);
    }

    /// Exports a scalar: a type that takes anything.
    pub fn process_scalar(&mut self, name: &Name)
        ensures
            pieces(final(self).dts@) == pieces(old(self).dts@) + scalar_dts(*name),
            final(self).js@ == old(self).js@,
    {
        let ghost dts = pieces(self.dts@);
        push_text(&mut self.dts, "export type ");
        push_token(&mut self.dts, name);
        push_text(&mut self.dts, " = any;\n\n");
        assert(pieces(self.dts@) =~= dts + seq![text("export type "), token(*name), text(" = any;\n\n")]);
    }

    /// Exports a union: a type that is one of its members.
    pub fn process_union(&mut self, name: &Name, members: &Vec<NamedType>)
        ensures
            pieces(final(self).dts@) == pieces(old(self).dts@) + union_dts(*name, members@),
            final(self).js@ == old(self).js@,
    {
        let ghost dts = pieces(self.dts@);
        push_text(&mut self.dts, "export type ");
        push_token(&mut self.dts, name);
        push_text(&mut self.dts, " = ");
        let ghost head = pieces(self.dts@);
        let mut i: usize = 0;
        while i < members.len()
            invariant
                i <= members@.len(),
                pieces(self.dts@) == head + union_members(members@.take(i as int)),
                self.js@ == old(self).js@,
            decreases members.len() - i,
        {
            assert(members@.take(i + 1).drop_last() =~= members@.take(i as int));
            push_text(&mut self.dts, "\n    | ");
            push_token(&mut self.dts, &members[i].0);
            i = i + 1;
            assert(pieces(self.dts@) =~= head + union_members(members@.take(i as int)));
        }
        assert(members@.take(i as int) =~= members@);
        push_text(&mut self.dts, ";\n\n");
        assert(pieces(self.dts@) =~= dts + seq![text("export type "), token(*name), text(" = ")]
            + union_members(members@) + seq![text(";\n\n")]);
    }

    /// Exports a type definition, unless its name is missing or one of the
    /// export settings of the type asks to skip it. What the type is made of
    /// is given: `fields` for an object type or an interface, `input_fields`
    /// for an input object, `values` for an enum and `members` for a union.
    pub fn process_type_definition(
        &mut self,
        ty: &TypeDefinition,
        settings: &Vec<LithoExportTypescript>,
        fields: &Vec<Shared<FieldDefinition>>,
        input_fields: &Vec<Shared<InputValueDefinition>>,
        values: &Vec<Shared<EnumValueDefinition>>,
        members: &Vec<NamedType>,
    )
        ensures
            match ty.spec_name() {
                Recoverable::Present(name) if !skips(settings@) => match ty {
                    TypeDefinition::EnumTypeDefinition(_) => {
                        &&& pieces(final(self).js@) == pieces(old(self).js@) + enum_js(name, values@)
                        &&& pieces(final(self).dts@) == pieces(old(self).dts@) + enum_dts(name, values@)
                    },
                    TypeDefinition::InputObjectTypeDefinition(_) => {
                        &&& final(self).js@ == old(self).js@
                        &&& pieces(final(self).dts@) == pieces(old(self).dts@) + input_dts(name, input_fields@)
                    },
                    TypeDefinition::InterfaceTypeDefinition(_) => {
                        &&& final(self).js@ == old(self).js@
                        &&& pieces(final(self).dts@) == pieces(old(self).dts@) + interface_dts(name, fields@)
                    },
                    TypeDefinition::ObjectTypeDefinition(_) => {
                        &&& pieces(final(self).js@) == pieces(old(self).js@) + object_js(name)
                        &&& pieces(final(self).dts@) == pieces(old(self).dts@) + object_dts(name, fields@)
                    },
                    TypeDefinition::ScalarTypeDefinition(_) => {
                        &&& final(self).js@ == old(self).js@
                        &&& pieces(final(self).dts@) == pieces(old(self).dts@) + scalar_dts(name)
                    },
                    TypeDefinition::UnionTypeDefinition(_) => {
                        &&& final(self).js@ == old(self).js@
                        &&& pieces(final(self).dts@) == pieces(old(self).dts@) + union_dts(name, members@)
                    },
                },
                _ => final(self).js@ == old(self).js@ && final(self).dts@ == old(self).dts@,
            },
    {
        let name = match ty.name().ok() {
            Some(name) => name,
            None => return ,
        };
        let mut i: usize = 0;
        while i < settings.len()
            invariant
                i <= settings@.len(),
                forall|k: int| 0 <= k < i ==> !(#[trigger] settings@[k]).skip,
            decreases settings.len() - i,
        {
            if settings[i].skip {
                return ;
            }
            i = i + 1;
        }
        match ty {
            TypeDefinition::EnumTypeDefinition(_) => self.process_enum(name, values),
            TypeDefinition::InputObjectTypeDefinition(_) => self.process_input_object(name, input_fields),
            TypeDefinition::InterfaceTypeDefinition(_) => self.process_interface(name, fields),
            TypeDefinition::ObjectTypeDefinition(_) => self.process_object(name, fields),
            TypeDefinition::ScalarTypeDefinition(_) => self.process_scalar(name),
            TypeDefinition::UnionTypeDefinition(_) => self.process_union(name, members),
        }
    }
}

} // verus!
