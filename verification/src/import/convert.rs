use vstd::prelude::*;

use crate::ast::context::{List, MultiThreadedContext, Shared};
use crate::ast::types::{
    text, ArgumentsDefinition, Definition, Description, Document, EnumTypeDefinition, EnumValue,
    EnumValueDefinition, EnumValuesDefinition, FieldDefinition, FieldsDefinition,
    ImplementsInterfaces, InputFieldsDefinition, InputObjectTypeDefinition, InputValueDefinition,
    InterfaceTypeDefinition, ListType, NamedType, NonNullType, ObjectTypeDefinition, OperationType,
    Recoverable, RootOperationTypeDefinition, RootOperationTypeDefinitions, ScalarTypeDefinition,
    SchemaDefinition, Type, TypeDefinition, TypeSystemDefinition, TypeSystemDefinitionOrExtension,
    UnionMemberTypes, UnionTypeDefinition,
};
use crate::lex::kind::TokenKind;
use crate::lex::raw::RawToken;
use crate::lex::token::{Name, Punctuator, StringValue};

use super::introspection;
use super::introspection::TypeKind;

verus! {

/// Turns what introspection describes into the syntax tree that defines it.
pub trait Retrospect<U> {
    fn retrospect(self, context: &MultiThreadedContext) -> Option<U>;
}

/// The text of a block string whose body is `body`.
pub open spec fn block_text(body: Seq<char>) -> Seq<char> {
    seq!['"', '"', '"'] + body + seq!['"', '"', '"']
}

/// Whether `d` describes `description`: there is a description exactly
/// when it is given and not empty, and it is a block string of it.
pub open spec fn describes(description: Option<String>, d: Option<Description>) -> bool {
    match description {
        Some(s) => if s@.len() == 0 {
            d is None
        } else {
            d matches Some(desc) && desc.0.0.source@ == block_text(s@)
        },
        None => d is None,
    }
}

/// Whether a type reference can be written down: every wrapper wraps
/// something, and the innermost type has a name.
pub open spec fn reference_converts(t: introspection::Type) -> bool
    decreases t,
{
    match t.kind {
        TypeKind::List | TypeKind::NonNull => match t.of_type {
            Some(inner) => reference_converts(*inner),
            None => false,
        },
        _ => t.name is Some,
    }
}

/// Whether `ty` writes down the type reference `t`.
pub open spec fn same_reference(t: introspection::Type, ty: Type) -> bool
    decreases t,
{
    match t.kind {
        TypeKind::NonNull => match (t.of_type, ty) {
            (Some(inner), Type::NonNull(nn)) => same_reference(*inner, *nn.ty.0),
            _ => false,
        },
        TypeKind::List => match (t.of_type, ty) {
            (Some(inner), Type::List(list)) => match list.ty {
                Recoverable::Present(item) => same_reference(*inner, *item.0),
                Recoverable::Missing(_) => false,
            },
            _ => false,
        },
        _ => match (t.name, ty) {
            (Some(name), Type::Named(named)) => text(named.0) == name@,
            _ => false,
        },
    }
}

/// The input values of `values` whose types can be written down, in order.
pub open spec fn converting_inputs(values: Seq<introspection::InputValue>) -> Seq<introspection::InputValue>
    decreases values.len(),
{
    if values.len() == 0 {
        Seq::empty()
    } else {
        let init = converting_inputs(values.drop_last());
        if reference_converts(values.last().ty) {
            init.push(values.last())
        } else {
            init
        }
    }
}

/// The fields of `fields` whose types can be written down, in order.
pub open spec fn converting_fields(fields: Seq<introspection::Field>) -> Seq<introspection::Field>
    decreases fields.len(),
{
    if fields.len() == 0 {
        Seq::empty()
    } else {
        let init = converting_fields(fields.drop_last());
        if reference_converts(fields.last().ty) {
            init.push(fields.last())
        } else {
            init
        }
    }
}

/// Whether `def` defines the input value `v`.
pub open spec fn input_matches(v: introspection::InputValue, def: InputValueDefinition) -> bool {
    &&& text(def.name) == v.name@
    &&& def.ty matches Recoverable::Present(ty) && same_reference(v.ty, *ty.0)
    &&& describes(v.description, def.description)
    &&& def.default_value is None
    &&& def.directives is None
}

/// Whether `defs` define, one by one, the input values of `values` whose
/// types can be written down.
pub open spec fn inputs_match(values: Seq<introspection::InputValue>, defs: Seq<Shared<InputValueDefinition>>) -> bool {
    let kept = converting_inputs(values);
    &&& defs.len() == kept.len()
    &&& forall|k: int| 0 <= k < defs.len() ==> input_matches(kept[k], *(#[trigger] defs[k]).0)
}

/// Whether `def` defines the arguments `args`: none when there are none.
pub open spec fn arguments_match(args: Seq<introspection::InputValue>, def: Option<Shared<ArgumentsDefinition>>) -> bool {
    if args.len() == 0 {
        def is None
    } else {
        def matches Some(d) && inputs_match(args, d.0.definitions.0@)
    }
}

/// Whether `def` defines the field `f`.
pub open spec fn field_matches(f: introspection::Field, def: FieldDefinition) -> bool {
    &&& text(def.name) == f.name@
    &&& def.ty matches Recoverable::Present(ty) && same_reference(f.ty, *ty.0)
    &&& arguments_match(f.args@, def.arguments_definition)
    &&& describes(f.description, def.description)
    &&& def.directives is None
}

/// Whether `defs` define, one by one, the fields of `fields` whose types
/// can be written down.
pub open spec fn fields_match(fields: Seq<introspection::Field>, defs: Seq<Shared<FieldDefinition>>) -> bool {
    let kept = converting_fields(fields);
    &&& defs.len() == kept.len()
    &&& forall|k: int| 0 <= k < defs.len() ==> field_matches(kept[k], *(#[trigger] defs[k]).0)
}

/// The names of the types of `types` after the first that have names.
pub open spec fn later_names(types: Seq<introspection::Type>) -> Seq<Seq<char>>
    decreases types.len(),
{
    if types.len() <= 1 {
        Seq::empty()
    } else {
        let init = later_names(types.drop_last());
        match types.last().name {
            Some(name) => init.push(name@),
            None => init,
        }
    }
}

/// Whether a list of named types (as in `implements` and union members)
/// lists `types`: the first must have a name; the rest are those that have
/// one.
pub open spec fn names_match(
    types: Seq<introspection::Type>,
    first: Recoverable<Shared<NamedType>>,
    rest: Seq<(Punctuator, Recoverable<Shared<NamedType>>)>,
) -> bool {
    &&& types.len() > 0
    &&& types[0].name matches Some(name) && first matches Recoverable::Present(t) && text(t.0.0) == name@
    &&& rest.len() == later_names(types).len()
    &&& forall|k: int|
        0 <= k < rest.len() ==> ((#[trigger] rest[k]).1 matches Recoverable::Present(t) && text(t.0.0)
            == later_names(types)[k])
}

/// Whether a type named `name` is left out of an import: the built-in
/// scalars, and names starting with `__`, which introspection reserves.
pub open spec fn left_out(name: Seq<char>) -> bool {
    ||| name == seq!['I', 'n', 't']
    ||| name == seq!['F', 'l', 'o', 'a', 't']
    ||| name == seq!['S', 't', 'r', 'i', 'n', 'g']
    ||| name == seq!['B', 'o', 'o', 'l', 'e', 'a', 'n']
    ||| name == seq!['I', 'D']
    ||| (name.len() >= 2 && name[0] == '_' && name[1] == '_')
}

/// Whether the type `t` becomes a definition: it has a name that is not
/// left out, and it is not a wrapper.
pub open spec fn definition_converts(t: introspection::Type) -> bool {
    &&& t.name matches Some(name) && !left_out(name@)
    &&& !(t.kind is List || t.kind is NonNull)
}

/// Whether the punctuator is spelled `c`.
pub open spec fn spelled(p: Punctuator, c: char) -> bool {
    p.0.source@ == seq![c]
}

/// Whether a pair of braces is spelled `{` and `}`, both present.
pub open spec fn braced(braces: (Punctuator, Recoverable<Punctuator>)) -> bool {
    &&& spelled(braces.0, '{')
    &&& braces.1 matches Recoverable::Present(close) && spelled(close, '}')
}

/// Whether `def` defines the type `t`: the kind with its keyword, the name,
/// the description, no directives, and what the kind has (fields,
/// interfaces, members, values, input fields) with the tokens around them.
pub open spec fn definition_matches(t: introspection::Type, def: TypeDefinition) -> bool {
    &&& def.spec_name() matches Recoverable::Present(n) && t.name matches Some(name) && text(n) == name@
    &&& match (t.kind, def) {
        (TypeKind::Scalar, TypeDefinition::ScalarTypeDefinition(d)) => {
            &&& describes(t.description, d.description)
            &&& text(d.scalar) == seq!['s', 'c', 'a', 'l', 'a', 'r']
            &&& d.directives is None
        },
        (TypeKind::Object, TypeDefinition::ObjectTypeDefinition(d)) => {
            &&& describes(t.description, d.description)
            &&& text(d.ty) == seq!['t', 'y', 'p', 'e']
            &&& d.directives is None
            &&& (d.fields_definition matches Some(fd) ==> braced(fd.braces))
            &&& (d.implements_interfaces matches Some(i) ==> text(i.implements) == seq!['i', 'm', 'p', 'l', 'e', 'm', 'e', 'n', 't', 's'])
            &&& match t.fields {
                Some(fields) => d.fields_definition matches Some(fd) && fields_match(fields@, fd.definitions.0@),
                None => d.fields_definition is None,
            }
            &&& match t.interfaces {
                Some(types) => if types@.len() > 0 && types@[0].name is Some {
                    d.implements_interfaces matches Some(i) && names_match(types@, i.first, i.types.0@)
                } else {
                    d.implements_interfaces is None
                },
                None => d.implements_interfaces is None,
            }
        },
        (TypeKind::Interface, TypeDefinition::InterfaceTypeDefinition(d)) => {
            &&& describes(t.description, d.description)
            &&& text(d.interface) == seq!['i', 'n', 't', 'e', 'r', 'f', 'a', 'c', 'e']
            &&& d.directives is None
            &&& (d.fields_definition matches Some(fd) ==> braced(fd.braces))
            &&& (d.implements_interfaces matches Some(i) ==> text(i.implements) == seq!['i', 'm', 'p', 'l', 'e', 'm', 'e', 'n', 't', 's'])
            &&& match t.fields {
                Some(fields) => d.fields_definition matches Some(fd) && fields_match(fields@, fd.definitions.0@),
                None => d.fields_definition is None,
            }
            &&& match t.interfaces {
                Some(types) => if types@.len() > 0 && types@[0].name is Some {
                    d.implements_interfaces matches Some(i) && names_match(types@, i.first, i.types.0@)
                } else {
                    d.implements_interfaces is None
                },
                None => d.implements_interfaces is None,
            }
        },
        (TypeKind::Union, TypeDefinition::UnionTypeDefinition(d)) => {
            &&& describes(t.description, d.description)
            &&& text(d.union_kw) == seq!['u', 'n', 'i', 'o', 'n']
            &&& d.directives is None
            &&& (d.member_types matches Some(m) ==> spelled(m.eq, '='))
            &&& match t.possible_types {
                Some(types) => if types@.len() > 0 && types@[0].name is Some {
                    d.member_types matches Some(m) && names_match(types@, m.first, m.types.0@)
                } else {
                    d.member_types is None
                },
                None => d.member_types is None,
            }
        },
        (TypeKind::Enum, TypeDefinition::EnumTypeDefinition(d)) => {
            &&& describes(t.description, d.description)
            &&& text(d.enum_kw) == seq!['e', 'n', 'u', 'm']
            &&& d.directives is None
            &&& (d.values_definition matches Some(vd) ==> braced(vd.braces))
            &&& match t.enum_values {
                Some(values) => if values@.len() == 0 {
                    d.values_definition is None
                } else {
                    d.values_definition matches Some(vd) && vd.definitions.0@.len() == values@.len()
                        && forall|k: int|
                        0 <= k < values@.len() ==> text((#[trigger] vd.definitions.0@[k]).0.enum_value.0)
                            == values@[k].name@ && describes(values@[k].description, vd.definitions.0@[k].0.description)
                },
                None => d.values_definition is None,
            }
        },
        (TypeKind::InputObject, TypeDefinition::InputObjectTypeDefinition(d)) => {
            &&& describes(t.description, d.description)
            &&& text(d.input) == seq!['i', 'n', 'p', 'u', 't']
            &&& d.directives is None
            &&& (d.fields_definition matches Some(fd) ==> braced(fd.braces))
            &&& match t.input_fields {
                Some(values) => if values@.len() == 0 {
                    d.fields_definition is None
                } else {
                    d.fields_definition matches Some(fd) && inputs_match(values@, fd.definitions.0@)
                },
                None => d.fields_definition is None,
            }
        },
        _ => false,
    }
}

/// The types of `types` that become definitions, in order.
pub open spec fn converting_types(types: Seq<introspection::Type>) -> Seq<introspection::Type>
    decreases types.len(),
{
    if types.len() == 0 {
        Seq::empty()
    } else {
        let init = converting_types(types.drop_last());
        if definition_converts(types.last()) {
            init.push(types.last())
        } else {
            init
        }
    }
}

/// The root operations that a schema names, in order: query, mutation,
/// subscription, each where its type has a name.
pub open spec fn root_names(schema: introspection::Schema) -> Seq<(int, Seq<char>)> {
    let query = match schema.query_type.name {
        Some(name) => seq![(0int, name@)],
        None => Seq::empty(),
    };
    let mutation = match schema.mutation_type {
        Some(t) => match t.name {
            Some(name) => seq![(1int, name@)],
            None => Seq::empty(),
        },
        None => Seq::empty(),
    };
    let subscription = match schema.subscription_type {
        Some(t) => match t.name {
            Some(name) => seq![(2int, name@)],
            None => Seq::empty(),
        },
        None => Seq::empty(),
    };
    query + mutation + subscription
}

/// The kind of an operation type, as a number: query, mutation,
/// subscription.
pub open spec fn operation_kind(o: OperationType) -> int {
    match o {
        OperationType::Query(_) => 0,
        OperationType::Mutation(_) => 1,
        OperationType::Subscription(_) => 2,
    }
}

/// The punctuator of `kind`, spelled `source`.
fn punctuator(source: &str, kind: TokenKind) -> (p: Punctuator)
    ensures
        p.0.source@ == source@,
        p.0.kind == kind,
{
    Punctuator(RawToken::new(kind, source.to_owned()))
}

impl Retrospect<Description> for Option<String> {
    fn retrospect(self, context: &MultiThreadedContext) -> (r: Option<Description>)
        ensures
            describes(self, r),
    {
        description(&self)
    }
}

/// The description that `d` gives, if it gives one.
fn description(d: &Option<String>) -> (r: Option<Description>)
    ensures
        describes(*d, r),
{
    match d {
        Some(s) => {
            if s.as_str().unicode_len() == 0 {
                None
            } else {
                let value = StringValue::block(s.as_str());
                Some(Description(value))
            }
        },
        None => None,
    }
}

/// The type reference that `t` describes.
fn reference(t: &introspection::Type) -> (r: Option<Type>)
    ensures
        r is Some <==> reference_converts(*t),
        r matches Some(ty) ==> same_reference(*t, ty),
    decreases t,
{
    match t.kind {
        TypeKind::NonNull => match &t.of_type {
            Some(inner) => match reference(&**inner) {
                Some(ty) => {
                    proof {
                        reveal_strlit("!");
                    }
                    Some(Type::NonNull(NonNullType { ty: Shared::new(ty), bang: punctuator("!", TokenKind::Bang) }))
                },
                None => None,
            },
            None => None,
        },
        TypeKind::List => match &t.of_type {
            Some(inner) => match reference(&**inner) {
                Some(ty) => {
                    proof {
                        reveal_strlit("[");
                        reveal_strlit("]");
                    }
                    Some(
                        Type::List(
                            ListType {
                                brackets: (punctuator("[", TokenKind::BracketLeft), Recoverable::Present(punctuator("]", TokenKind::BracketRight))),
                                ty: Recoverable::Present(Shared::new(ty)),
                            },
                        ),
                    )
                },
                None => None,
            },
            None => None,
        },
        _ => match &t.name {
            Some(name) => Some(Type::Named(NamedType(Name::new(name.as_str())))),
            None => None,
        },
    }
}

impl Retrospect<Type> for introspection::Type {
    fn retrospect(self, context: &MultiThreadedContext) -> (r: Option<Type>)
        ensures
            r is Some <==> reference_converts(self),
            r matches Some(ty) ==> same_reference(self, ty),
    {
        reference(&self)
    }
}

/// The definition of the input value `v`, if its type can be written down.
fn input_value(v: &introspection::InputValue) -> (r: Option<InputValueDefinition>)
    ensures
        r is Some <==> reference_converts(v.ty),
        r matches Some(def) ==> input_matches(*v, def),
{
    match reference(&v.ty) {
        Some(ty) => {
            proof {
                reveal_strlit(":");
            }
            Some(
                InputValueDefinition {
                    name: Name::new(v.name.as_str()),
                    colon: Recoverable::Present(punctuator(":", TokenKind::Colon)),
                    ty: Recoverable::Present(Shared::new(ty)),
                    description: description(&v.description),
                    default_value: None,
                    directives: None,
                },
            )
        },
        None => None,
    }
}

/// The definitions of the input values of `values` whose types can be
/// written down.
fn input_values(values: &Vec<introspection::InputValue>) -> (r: Vec<Shared<InputValueDefinition>>)
    ensures
        inputs_match(values@, r@),
{
    let mut r: Vec<Shared<InputValueDefinition>> = Vec::new();
    let mut i: usize = 0;
    while i < values.len()
        invariant
            i <= values@.len(),
            inputs_match(values@.take(i as int), r@),
        decreases values.len() - i,
    {
        proof {
            assert(values@.take(i + 1).drop_last() =~= values@.take(i as int));
        }
        match input_value(&values[i]) {
            Some(def) => r.push(Shared::new(def)),
            None => {},
        }
        proof {
            assert(values@.take(i + 1).last() == values@[i as int]);
        }
        i = i + 1;
    }
    assert(values@.take(i as int) =~= values@);
    r
}

impl Retrospect<InputValueDefinition> for introspection::InputValue {
    fn retrospect(self, context: &MultiThreadedContext) -> (r: Option<InputValueDefinition>)
        ensures
            r is Some <==> reference_converts(self.ty),
            r matches Some(def) ==> input_matches(self, def),
    {
        input_value(&self)
    }
}

/// The arguments that `args` define: none when there are none.
fn arguments(args: &Vec<introspection::InputValue>) -> (r: Option<Shared<ArgumentsDefinition>>)
    ensures
        arguments_match(args@, r),
{
    if args.len() == 0 {
        return None;
    }
    proof {
        reveal_strlit("(");
        reveal_strlit(")");
    }
    Some(
        Shared::new(
            ArgumentsDefinition {
                parens: (punctuator("(", TokenKind::ParenLeft), Recoverable::Present(punctuator(")", TokenKind::ParenRight))),
                definitions: List::new(input_values(args)),
            },
        ),
    )
}

/// The definition of the field `f`, if its type can be written down.
fn field(f: &introspection::Field) -> (r: Option<FieldDefinition>)
    ensures
        r is Some <==> reference_converts(f.ty),
        r matches Some(def) ==> field_matches(*f, def),
{
    match reference(&f.ty) {
        Some(ty) => {
            proof {
                reveal_strlit(":");
            }
            Some(
                FieldDefinition {
                    name: Name::new(f.name.as_str()),
                    colon: Recoverable::Present(punctuator(":", TokenKind::Colon)),
                    arguments_definition: arguments(&f.args),
                    description: description(&f.description),
                    directives: None,
                    ty: Recoverable::Present(Shared::new(ty)),
                },
            )
        },
        None => None,
    }
}

impl Retrospect<FieldDefinition> for introspection::Field {
    fn retrospect(self, context: &MultiThreadedContext) -> (r: Option<FieldDefinition>)
        ensures
            r is Some <==> reference_converts(self.ty),
            r matches Some(def) ==> field_matches(self, def),
    {
        field(&self)
    }
}

/// The fields that `fields` define: those whose types can be written down.
fn fields_definition(fields: &Vec<introspection::Field>) -> (r: FieldsDefinition)
    ensures
        fields_match(fields@, r.definitions.0@),
        braced(r.braces),
{
    let mut defs: Vec<Shared<FieldDefinition>> = Vec::new();
    let mut i: usize = 0;
    while i < fields.len()
        invariant
            i <= fields@.len(),
            fields_match(fields@.take(i as int), defs@),
        decreases fields.len() - i,
    {
        proof {
            assert(fields@.take(i + 1).drop_last() =~= fields@.take(i as int));
        }
        match field(&fields[i]) {
            Some(def) => defs.push(Shared::new(def)),
            None => {},
        }
        proof {
            assert(fields@.take(i + 1).last() == fields@[i as int]);
        }
        i = i + 1;
    }
    assert(fields@.take(i as int) =~= fields@);
    proof {
        reveal_strlit("{");
        reveal_strlit("}");
        assert("{"@ =~= seq!['{']);
        assert("}"@ =~= seq!['}']);
    }
    FieldsDefinition {
        braces: (punctuator("{", TokenKind::BraceLeft), Recoverable::Present(punctuator("}", TokenKind::BraceRight))),
        definitions: List::new(defs),
    }
}

/// The named types that `types` list, the first one written after
/// `keyword` and the others each after `separator`; nothing when the first
/// type has no name.
fn named_types(types: &Vec<introspection::Type>, separator: &str, kind: TokenKind) -> (r: Option<(Recoverable<Shared<NamedType>>, Vec<(Punctuator, Recoverable<Shared<NamedType>>)>)>)
    ensures
        r is Some <==> (types@.len() > 0 && types@[0].name is Some),
        r matches Some(p) ==> names_match(types@, p.0, p.1@),
{
    if types.len() == 0 {
        return None;
    }
    let first = match &types[0].name {
        Some(name) => Recoverable::Present(Shared::new(NamedType(Name::new(name.as_str())))),
        None => {
            return None;
        },
    };
    let mut rest: Vec<(Punctuator, Recoverable<Shared<NamedType>>)> = Vec::new();
    let mut i: usize = 1;
    while i < types.len()
        invariant
            1 <= i <= types@.len(),
            rest@.len() == later_names(types@.take(i as int)).len(),
            forall|k: int|
                0 <= k < rest@.len() ==> ((#[trigger] rest@[k]).1 matches Recoverable::Present(t) && text(t.0.0)
                    == later_names(types@.take(i as int))[k]),
        decreases types.len() - i,
    {
        proof {
            assert(types@.take(i + 1).drop_last() =~= types@.take(i as int));
            assert(types@.take(i + 1).last() == types@[i as int]);
        }
        match &types[i].name {
            Some(name) => {
                rest.push((punctuator(separator, kind), Recoverable::Present(Shared::new(NamedType(Name::new(name.as_str()))))));
            },
            None => {},
        }
        i = i + 1;
    }
    assert(types@.take(i as int) =~= types@);
    Some((first, rest))
}

/// The definition of an enum value.
fn enum_value(v: &introspection::EnumValue) -> (r: EnumValueDefinition)
    ensures
        text(r.enum_value.0) == v.name@,
        describes(v.description, r.description),
        r.directives is None,
{
    EnumValueDefinition {
        enum_value: EnumValue(Name::new(v.name.as_str())),
        description: description(&v.description),
        directives: None,
    }
}

/// The definition of the type `t`, if it becomes one.
fn type_definition(t: &introspection::Type) -> (r: Option<TypeDefinition>)
    ensures
        r is Some <==> definition_converts(*t),
        r matches Some(def) ==> definition_matches(*t, def),
{
    let name = match &t.name {
        Some(name) => name,
        None => {
            return None;
        },
    };
    if is_left_out(name.as_str()) {
        return None;
    }
    let name_token = Name::new(name.as_str());
    proof {
        reveal_strlit("scalar");
        reveal_strlit("type");
        reveal_strlit("interface");
        reveal_strlit("union");
        reveal_strlit("enum");
        reveal_strlit("input");
        reveal_strlit("implements");
        reveal_strlit("&");
        reveal_strlit("|");
        reveal_strlit("=");
        reveal_strlit("{");
        reveal_strlit("}");
        assert("{"@ =~= seq!['{']);
        assert("}"@ =~= seq!['}']);
        assert("="@ =~= seq!['=']);
        assert("scalar"@ =~= seq!['s', 'c', 'a', 'l', 'a', 'r']);
        assert("type"@ =~= seq!['t', 'y', 'p', 'e']);
        assert("interface"@ =~= seq!['i', 'n', 't', 'e', 'r', 'f', 'a', 'c', 'e']);
        assert("union"@ =~= seq!['u', 'n', 'i', 'o', 'n']);
        assert("enum"@ =~= seq!['e', 'n', 'u', 'm']);
        assert("input"@ =~= seq!['i', 'n', 'p', 'u', 't']);
        assert("implements"@ =~= seq!['i', 'm', 'p', 'l', 'e', 'm', 'e', 'n', 't', 's']);
    }
    match t.kind {
        TypeKind::Scalar => Some(
            TypeDefinition::ScalarTypeDefinition(
                ScalarTypeDefinition {
                    scalar: Name::new("scalar"),
                    name: Recoverable::Present(name_token),
                    description: description(&t.description),
                    directives: None,
                },
            ),
        ),
        TypeKind::Object => {
            let fields_definition = match &t.fields {
                Some(f) => Some(fields_definition(f)),
                None => None,
            };
            let implements_interfaces = match &t.interfaces {
                Some(types) => match named_types(types, "&", TokenKind::Ampersand) {
                    Some((first, rest)) => Some(
                        ImplementsInterfaces {
                            implements: Name::new("implements"),
                            first,
                            ampersand: None,
                            types: List::new(rest),
                        },
                    ),
                    None => None,
                },
                None => None,
            };
            Some(
                TypeDefinition::ObjectTypeDefinition(
                    ObjectTypeDefinition {
                        ty: Name::new("type"),
                        name: Recoverable::Present(name_token),
                        description: description(&t.description),
                        directives: None,
                        fields_definition,
                        implements_interfaces,
                    },
                ),
            )
        },
        TypeKind::Interface => {
            let fields_definition = match &t.fields {
                Some(f) => Some(fields_definition(f)),
                None => None,
            };
            let implements_interfaces = match &t.interfaces {
                Some(types) => match named_types(types, "&", TokenKind::Ampersand) {
                    Some((first, rest)) => Some(
                        ImplementsInterfaces {
                            implements: Name::new("implements"),
                            first,
                            ampersand: None,
                            types: List::new(rest),
                        },
                    ),
                    None => None,
                },
                None => None,
            };
            Some(
                TypeDefinition::InterfaceTypeDefinition(
                    InterfaceTypeDefinition {
                        interface: Name::new("interface"),
                        name: Recoverable::Present(name_token),
                        description: description(&t.description),
                        directives: None,
                        fields_definition,
                        implements_interfaces,
                    },
                ),
            )
        },
        TypeKind::Union => {
            let member_types = match &t.possible_types {
                Some(types) => match named_types(types, "|", TokenKind::Pipe) {
                    Some((first, rest)) => Some(
                        UnionMemberTypes {
                            eq: punctuator("=", TokenKind::Eq),
                            first,
                            pipe: None,
                            types: List::new(rest),
                        },
                    ),
                    None => None,
                },
                None => None,
            };
            Some(
                TypeDefinition::UnionTypeDefinition(
                    UnionTypeDefinition {
                        union_kw: Name::new("union"),
                        name: Recoverable::Present(name_token),
                        member_types,
                        description: description(&t.description),
                        directives: None,
                    },
                ),
            )
        },
        TypeKind::Enum => {
            let values_definition = match &t.enum_values {
                Some(values) => {
                    if values.len() == 0 {
                        None
                    } else {
                        let mut defs: Vec<Shared<EnumValueDefinition>> = Vec::new();
                        let mut i: usize = 0;
                        while i < values.len()
                            invariant
                                i <= values@.len(),
                                defs@.len() == i,
                                forall|k: int|
                                    0 <= k < i ==> text((#[trigger] defs@[k]).0.enum_value.0) == values@[k].name@
                                        && describes(values@[k].description, defs@[k].0.description),
                            decreases values.len() - i,
                        {
                            defs.push(Shared::new(enum_value(&values[i])));
                            i = i + 1;
                        }
                        Some(
                            EnumValuesDefinition {
                                braces: (punctuator("{", TokenKind::BraceLeft), Recoverable::Present(punctuator("}", TokenKind::BraceRight))),
                                definitions: List::new(defs),
                            },
                        )
                    }
                },
                None => None,
            };
            Some(
                TypeDefinition::EnumTypeDefinition(
                    EnumTypeDefinition {
                        enum_kw: Name::new("enum"),
                        name: Recoverable::Present(name_token),
                        values_definition,
                        description: description(&t.description),
                        directives: None,
                    },
                ),
            )
        },
        TypeKind::InputObject => {
            let fields_definition = match &t.input_fields {
                Some(values) => {
                    if values.len() == 0 {
                        None
                    } else {
                        Some(
                            InputFieldsDefinition {
                                braces: (punctuator("{", TokenKind::BraceLeft), Recoverable::Present(punctuator("}", TokenKind::BraceRight))),
                                definitions: List::new(input_values(values)),
                            },
                        )
                    }
                },
                None => None,
            };
            Some(
                TypeDefinition::InputObjectTypeDefinition(
                    InputObjectTypeDefinition {
                        input: Name::new("input"),
                        name: Recoverable::Present(name_token),
                        description: description(&t.description),
                        directives: None,
                        fields_definition,
                    },
                ),
            )
        },
        TypeKind::List | TypeKind::NonNull => None,
    }
}

/// Whether the type named `name` is left out of an import.
fn is_left_out(name: &str) -> (b: bool)
    ensures
        b == left_out(name@),
{
    proof {
        reveal_strlit("Int");
        reveal_strlit("Float");
        reveal_strlit("String");
        reveal_strlit("Boolean");
        reveal_strlit("ID");
        assert("Int"@ =~= seq!['I', 'n', 't']);
        assert("Float"@ =~= seq!['F', 'l', 'o', 'a', 't']);
        assert("String"@ =~= seq!['S', 't', 'r', 'i', 'n', 'g']);
        assert("Boolean"@ =~= seq!['B', 'o', 'o', 'l', 'e', 'a', 'n']);
        assert("ID"@ =~= seq!['I', 'D']);
    }
    let chars = crate::lex::chars::chars_of(name);
    let reserved = chars.len() >= 2 && chars[0] == '_' && chars[1] == '_';
    crate::lex::chars::same_text(name, "Int") || crate::lex::chars::same_text(name, "Float")
        || crate::lex::chars::same_text(name, "String") || crate::lex::chars::same_text(name, "Boolean")
        || crate::lex::chars::same_text(name, "ID") || reserved
}

impl Retrospect<TypeDefinition> for introspection::Type {
    fn retrospect(self, context: &MultiThreadedContext) -> (r: Option<TypeDefinition>)
        ensures
            r is Some <==> definition_converts(self),
            r matches Some(def) ==> definition_matches(self, def),
    {
        type_definition(&self)
    }
}

/// The root operation of kind `kind` (query, mutation, subscription) whose
/// type is named `name`.
fn root_operation(kind: u8, name: &String) -> (r: RootOperationTypeDefinition)
    requires
        kind < 3,
    ensures
        operation_kind(r.operation_type) == kind,
        r.named_type matches Recoverable::Present(t) && text(t.0) == name@,
{
    proof {
        reveal_strlit(":");
    }
    let operation_type = if kind == 0 {
        OperationType::Query(Name::new("query"))
    } else if kind == 1 {
        OperationType::Mutation(Name::new("mutation"))
    } else {
        OperationType::Subscription(Name::new("subscription"))
    };
    RootOperationTypeDefinition {
        operation_type,
        colon: Recoverable::Present(punctuator(":", TokenKind::Colon)),
        named_type: Recoverable::Present(NamedType(Name::new(name.as_str()))),
    }
}

/// Whether `defs` are the root operations `roots`, one by one.
pub open spec fn roots_match(roots: Seq<(int, Seq<char>)>, defs: Seq<RootOperationTypeDefinition>) -> bool {
    &&& defs.len() == roots.len()
    &&& forall|k: int|
        0 <= k < defs.len() ==> {
            &&& operation_kind((#[trigger] defs[k]).operation_type) == roots[k].0
            &&& defs[k].named_type matches Recoverable::Present(t) && text(t.0) == roots[k].1
        }
}

/// Whether `document` defines `schema`: first the schema definition with
/// its root operations, then one definition for each type that becomes one,
/// in order.
pub open spec fn document_matches(schema: introspection::Schema, document: Document) -> bool {
    let defs = document.definitions.0@;
    let types = converting_types(schema.types@);
    &&& defs.len() == types.len() + 1
    &&& *defs[0].0 matches Definition::TypeSystemDefinitionOrExtension(
        TypeSystemDefinitionOrExtension::TypeSystemDefinition(TypeSystemDefinition::SchemaDefinition(s)),
    ) && s.type_definitions matches Recoverable::Present(r) && r.definitions matches Recoverable::Present(
        list,
    ) && roots_match(root_names(schema), list.0@) && s.description is None && s.directives is None
        && text(s.schema) == seq!['s', 'c', 'h', 'e', 'm', 'a'] && braced(r.braces)
    &&& forall|k: int|
        0 <= k < types.len() ==> (*(#[trigger] defs[k + 1]).0 matches Definition::TypeSystemDefinitionOrExtension(
            TypeSystemDefinitionOrExtension::TypeSystemDefinition(TypeSystemDefinition::TypeDefinition(t)),
        ) && definition_matches(types[k], *t.0))
}

impl Retrospect<Document> for introspection::Schema {
    fn retrospect(self, context: &MultiThreadedContext) -> (r: Option<Document>)
        ensures
            r matches Some(document) && document_matches(self, document),
    {
        let mut roots: Vec<RootOperationTypeDefinition> = Vec::new();
        let ghost all = root_names(self);
        if let Some(name) = &self.query_type.name {
            roots.push(root_operation(0, name));
        }
        if let Some(t) = &self.mutation_type {
            if let Some(name) = &t.name {
                roots.push(root_operation(1, name));
            }
        }
        if let Some(t) = &self.subscription_type {
            if let Some(name) = &t.name {
                roots.push(root_operation(2, name));
            }
        }
        assert(roots_match(all, roots@));
        proof {
            reveal_strlit("schema");
            reveal_strlit("{");
            reveal_strlit("}");
            assert("schema"@ =~= seq!['s', 'c', 'h', 'e', 'm', 'a']);
            assert("{"@ =~= seq!['{']);
            assert("}"@ =~= seq!['}']);
        }
        let schema_definition = SchemaDefinition {
            schema: Name::new("schema"),
            type_definitions: Recoverable::Present(
                RootOperationTypeDefinitions {
                    braces: (punctuator("{", TokenKind::BraceLeft), Recoverable::Present(punctuator("}", TokenKind::BraceRight))),
                    definitions: Recoverable::Present(List::new(roots)),
                },
            ),
            description: None,
            directives: None,
        };
        let mut definitions: Vec<Shared<Definition>> = Vec::new();
        definitions.push(
            Shared::new(
                Definition::TypeSystemDefinitionOrExtension(
                    TypeSystemDefinitionOrExtension::TypeSystemDefinition(
                        TypeSystemDefinition::SchemaDefinition(schema_definition),
                    ),
                ),
            ),
        );
        let types = &self.types;
        let mut i: usize = 0;
        while i < types.len()
            invariant
                i <= types@.len(),
                types@ == self.types@,
                all == root_names(self),
                definitions@.len() == converting_types(types@.take(i as int)).len() + 1,
                *definitions@[0].0 matches Definition::TypeSystemDefinitionOrExtension(
                    TypeSystemDefinitionOrExtension::TypeSystemDefinition(TypeSystemDefinition::SchemaDefinition(s)),
                ) && s.type_definitions matches Recoverable::Present(r) && r.definitions matches Recoverable::Present(
                    list,
                ) && roots_match(all, list.0@) && s.description is None && s.directives is None
                    && text(s.schema) == seq!['s', 'c', 'h', 'e', 'm', 'a'] && braced(r.braces),
                forall|k: int|
                    0 <= k < converting_types(types@.take(i as int)).len() ==> (*(#[trigger] definitions@[k + 1]).0 matches Definition::TypeSystemDefinitionOrExtension(
                        TypeSystemDefinitionOrExtension::TypeSystemDefinition(TypeSystemDefinition::TypeDefinition(t)),
                    ) && definition_matches(converting_types(types@.take(i as int))[k], *t.0)),
            decreases types.len() - i,
        {
            proof {
                assert(types@.take(i + 1).drop_last() =~= types@.take(i as int));
                assert(types@.take(i + 1).last() == types@[i as int]);
            }
            match type_definition(&types[i]) {
                Some(def) => definitions.push(
                    Shared::new(
                        Definition::TypeSystemDefinitionOrExtension(
                            TypeSystemDefinitionOrExtension::TypeSystemDefinition(
                                TypeSystemDefinition::TypeDefinition(Shared::new(def)),
                            ),
                        ),
                    ),
                ),
                None => {},
            }
            i = i + 1;
        }
        assert(types@.take(i as int) =~= types@);
        Some(Document { definitions: List::new(definitions) })
    }
}

} // verus!
