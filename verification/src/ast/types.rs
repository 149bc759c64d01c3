use vstd::prelude::*;

use crate::diagnostics::{span_count, var_count, Diagnostic, DiagnosticKind};
use crate::lex::chars::same_text;
use crate::lex::token::{FloatValue, IntValue, Name, Punctuator, StringValue};
use crate::lex::Span;

use super::context::{List, Shared};

verus! {

/// Why a token that the grammar expects is missing: nothing known, or the
/// diagnostic to report, given the span where the token should have been
/// (and, for a missing closing delimiter, the span of the opening one).
#[derive(Clone, Copy, Debug)]
pub enum Missing {
    Unknown,
    Unary(DiagnosticKind),
    Binary(DiagnosticKind, Span),
}

impl Missing {
    /// The diagnostic of `kind` reports the missing token.
    pub fn unary(kind: DiagnosticKind) -> (missing: Missing)
        ensures
            missing == Missing::Unary(kind),
    {
        Missing::Unary(kind)
    }

    /// Each diagnostic that a missing token reports names no value, and
    /// points at one span (or two, for a missing closing delimiter).
    pub open spec fn wf(self) -> bool {
        match self {
            Missing::Unknown => true,
            Missing::Unary(kind) => var_count(kind) == 0 && span_count(kind) == 1,
            Missing::Binary(kind, _) => var_count(kind) == 0 && span_count(kind) == 2,
        }
    }
}

/// Something whose current place in a source can be asked for.
pub trait Spanned: Sized {
    /// Whether there is a place to give: something was read, or is left.
    spec fn spanned(&self) -> bool;

    /// The current place.
    spec fn current_span(&self) -> Span;

    fn span(&mut self) -> (r: Span)
        requires
            old(self).spanned(),
        ensures
            r == old(self).current_span(),
            *final(self) == *old(self),
    ;
}

/// A token that the grammar expects but that is not there.
#[derive(Clone, Copy, Debug)]
pub struct MissingToken {
    pub span: Span,
    pub missing: Missing,
}

impl MissingToken {
    /// The diagnostic that reports this missing token.
    pub fn to_diagnostic(&self) -> (d: Diagnostic)
        requires
            self.missing.wf(),
            !(self.missing is Unknown),
        ensures
            d.wf(),
            match self.missing {
                Missing::Unary(kind) => d.kind() == kind && d.spans() == seq![self.span],
                Missing::Binary(kind, first) => d.kind() == kind && d.spans() == seq![first, self.span],
                Missing::Unknown => false,
            },
            d.vars() == Seq::<Seq<char>>::empty(),
    {
        match self.missing {
            Missing::Unary(kind) => {
                let mut spans: Vec<Span> = Vec::new();
                spans.push(self.span);
                let d = Diagnostic::with_spans(kind, spans);
                assert(d.spans() =~= seq![self.span]);
                d
            },
            Missing::Binary(kind, first) => {
                let mut spans: Vec<Span> = Vec::new();
                spans.push(first);
                spans.push(self.span);
                let d = Diagnostic::with_spans(kind, spans);
                assert(d.spans() =~= seq![first, self.span]);
                d
            },
            Missing::Unknown => {
                proof {
                    assert(false);
                }
                Diagnostic::with_spans(DiagnosticKind::UnrecognizedTokens, vec![self.span])
            },
        }
    }
}

/// A node that the grammar expects: present, or missing with the reason.
#[derive(Debug)]
pub enum Recoverable<T> {
    Present(T),
    Missing(MissingToken),
}

impl<T> Recoverable<T> {
    /// The node, if it is present.
    pub open spec fn present(self) -> Option<T> {
        match self {
            Recoverable::Present(t) => Some(t),
            Recoverable::Missing(_) => None,
        }
    }

    /// The node, if it is present.
    pub fn ok(&self) -> (r: Option<&T>)
        ensures
            opt_ref(r) == self.present(),
    {
        match self {
            Recoverable::Present(t) => Some(t),
            Recoverable::Missing(_) => None,
        }
    }
}

/// The value behind an optional reference.
pub open spec fn opt_ref<T>(o: Option<&T>) -> Option<T> {
    match o {
        Some(x) => Some(*x),
        None => None,
    }
}

/// The text of a name.
pub open spec fn text(name: Name) -> Seq<char> {
    name.0.source@
}

/// A GraphQL document: the definitions of a file or a request.
pub struct Document {
    pub definitions: List<Shared<Definition>>,
}

pub enum Definition {
    ExecutableDefinition(ExecutableDefinition),
    TypeSystemDefinitionOrExtension(TypeSystemDefinitionOrExtension),
}

/// Identifies a definition.
#[derive(Clone, Copy, Debug, PartialEq, Eq, Hash, Structural)]
pub struct DefinitionId(pub usize);

pub struct ExecutableDocument {
    pub definitions: List<ExecutableDefinition>,
}

pub enum ExecutableDefinition {
    OperationDefinition(Shared<OperationDefinition>),
    FragmentDefinition(Shared<FragmentDefinition>),
}

pub struct OperationDefinition {
    pub ty: Option<OperationType>,
    pub name: Option<Name>,
    pub variable_definitions: Option<VariableDefinitions>,
    pub directives: Option<Directives>,
    pub selection_set: Recoverable<Shared<SelectionSet>>,
}

/// The kind of an operation, with its keyword.
pub enum OperationType {
    Query(Name),
    Mutation(Name),
    Subscription(Name),
}

pub struct SelectionSet {
    pub braces: (Punctuator, Recoverable<Punctuator>),
    pub selections: List<Selection>,
}

pub enum Selection {
    Field(Shared<Field>),
    FragmentSpread(Shared<FragmentSpread>),
    InlineFragment(InlineFragment),
}

pub struct Field {
    pub alias: Option<Alias>,
    pub name: Recoverable<Name>,
    pub arguments: Option<Shared<Arguments>>,
    pub directives: Option<Directives>,
    pub selection_set: Option<Shared<SelectionSet>>,
}

/// The name under which a field's result is returned.
pub struct Alias {
    pub name: Name,
    pub colon: Punctuator,
}

pub struct Arguments {
    pub parens: (Punctuator, Recoverable<Punctuator>),
    pub items: List<Shared<Argument>>,
}

pub struct Argument {
    pub name: Name,
    pub colon: Recoverable<Punctuator>,
    pub value: Recoverable<Shared<Value>>,
}

pub struct FragmentSpread {
    pub dots: Punctuator,
    pub fragment_name: Name,
    pub directives: Option<Directives>,
}

pub struct InlineFragment {
    pub dots: Punctuator,
    pub type_condition: Option<TypeCondition>,
    pub directives: Option<Directives>,
    pub selection_set: Recoverable<Shared<SelectionSet>>,
}

pub struct FragmentDefinition {
    pub fragment: Name,
    pub fragment_name: Recoverable<Name>,
    pub type_condition: Recoverable<TypeCondition>,
    pub directives: Option<Directives>,
    pub selection_set: Recoverable<Shared<SelectionSet>>,
}

pub struct TypeCondition {
    pub on: Name,
    pub named_type: Recoverable<NamedType>,
}

pub enum Value {
    Variable(Variable),
    IntValue(IntValue),
    FloatValue(FloatValue),
    StringValue(StringValue),
    BooleanValue(BooleanValue),
    NullValue(NullValue),
    EnumValue(EnumValue),
    ListValue(ListValue),
    ObjectValue(ObjectValue),
}

impl Value {
    pub fn is_variable(&self) -> (b: bool)
        ensures
            b == (self is Variable),
    {
        matches!(self, Value::Variable(_))
    }

    pub fn is_int(&self) -> (b: bool)
        ensures
            b == (self is IntValue),
    {
        matches!(self, Value::IntValue(_))
    }

    pub fn is_float(&self) -> (b: bool)
        ensures
            b == (self is FloatValue),
    {
        matches!(self, Value::FloatValue(_))
    }

    /// An int or a float: both are accepted where a float is expected.
    pub fn is_float_like(&self) -> (b: bool)
        ensures
            b == (self is IntValue || self is FloatValue),
    {
        self.is_int() || self.is_float()
    }

    pub fn is_string(&self) -> (b: bool)
        ensures
            b == (self is StringValue),
    {
        matches!(self, Value::StringValue(_))
    }

    pub fn is_boolean(&self) -> (b: bool)
        ensures
            b == (self is BooleanValue),
    {
        matches!(self, Value::BooleanValue(_))
    }

    pub fn is_null(&self) -> (b: bool)
        ensures
            b == (self is NullValue),
    {
        matches!(self, Value::NullValue(_))
    }

    /// A string: what is accepted where an ID is expected.
    pub fn is_id_like(&self) -> (b: bool)
        ensures
            b == (self is StringValue),
    {
        self.is_string()
    }

    pub fn is_list(&self) -> (b: bool)
        ensures
            b == (self is ListValue),
    {
        matches!(self, Value::ListValue(_))
    }
}

/// `true` or `false`.
pub enum BooleanValue {
    True(Name),
    False(Name),
}

impl BooleanValue {
    pub fn to_bool(&self) -> (b: bool)
        ensures
            b == (self is True),
    {
        matches!(self, BooleanValue::True(_))
    }
}

/// `null`.
pub struct NullValue(pub Name);

/// A value of an enum type: a name other than `true`, `false` and `null`.
pub struct EnumValue(pub Name);

pub struct ListValue {
    pub brackets: (Punctuator, Recoverable<Punctuator>),
    pub values: List<Shared<Value>>,
}

pub struct ObjectValue {
    pub braces: (Punctuator, Recoverable<Punctuator>),
    pub object_fields: List<ObjectField>,
}

pub struct ObjectField {
    pub name: Name,
    pub colon: Recoverable<Punctuator>,
    pub value: Recoverable<Shared<Value>>,
}

pub struct VariableDefinitions {
    pub parens: (Punctuator, Recoverable<Punctuator>),
    pub variable_definitions: List<Shared<VariableDefinition>>,
}

pub struct VariableDefinition {
    pub variable: Variable,
    pub colon: Recoverable<Punctuator>,
    pub ty: Recoverable<Shared<Type>>,
    pub default_value: Option<DefaultValue>,
    pub directives: Option<Directives>,
}

pub struct Variable {
    pub dollar: Punctuator,
    pub name: Recoverable<Name>,
}

pub struct DefaultValue {
    pub eq: Punctuator,
    pub value: Recoverable<Shared<Value>>,
}

pub enum Type {
    Named(NamedType),
    List(ListType),
    NonNull(NonNullType),
}

/// The named type that a type wraps, if the types it wraps are present.
pub open spec fn named_type_of(ty: Type) -> Option<NamedType>
    decreases ty,
{
    match ty {
        Type::Named(named) => Some(named),
        Type::List(list) => match list.ty {
            Recoverable::Present(inner) => named_type_of(*inner.0),
            Recoverable::Missing(_) => None,
        },
        Type::NonNull(non_null) => named_type_of(*non_null.ty.0),
    }
}

/// `ty` with every outer non-null wrapper taken off.
pub open spec fn nullable_of(ty: Shared<Type>) -> Shared<Type>
    decreases ty,
{
    match *ty.0 {
        Type::NonNull(non_null) => nullable_of(non_null.ty),
        _ => ty,
    }
}

/// The type of the items of a list type, seen through non-null wrappers.
pub open spec fn list_value_type_of(ty: Type) -> Option<Shared<Type>>
    decreases ty,
{
    match ty {
        Type::List(list) => list.ty.present(),
        Type::NonNull(non_null) => list_value_type_of(*non_null.ty.0),
        Type::Named(_) => None,
    }
}

/// Whether two types are the same type: the same names, wrapped in the
/// same way, with nothing missing.
pub open spec fn same_type(lhs: Type, rhs: Type) -> bool
    decreases lhs,
{
    match (lhs, rhs) {
        (Type::Named(l), Type::Named(r)) => text(l.0) == text(r.0),
        (Type::List(l), Type::List(r)) => match (l.ty, r.ty) {
            (Recoverable::Present(li), Recoverable::Present(ri)) => same_type(*li.0, *ri.0),
            _ => false,
        },
        (Type::NonNull(l), Type::NonNull(r)) => same_type(*l.ty.0, *r.ty.0),
        _ => false,
    }
}

impl Type {
    /// The name of the named type that this type wraps.
    pub fn name(&self) -> (r: Option<&String>)
        ensures
            opt_ref(r) == match named_type_of(*self) {
                Some(named) => Some(named.0.0.source),
                None => None,
            },
    {
        match self.named_type() {
            Some(named) => Some(&named.0.0.source),
            None => None,
        }
    }

    /// The named type that this type wraps.
    pub fn named_type(&self) -> (r: Option<&NamedType>)
        ensures
            opt_ref(r) == named_type_of(*self),
        decreases self,
    {
        match self {
            Type::Named(ty) => Some(ty),
            Type::List(ty) => match ty.ty.ok() {
                Some(inner) => inner.0.named_type(),
                None => None,
            },
            Type::NonNull(ty) => ty.ty.0.named_type(),
        }
    }

    /// Whether `null` is a value of this type.
    pub fn is_nullable(&self) -> (b: bool)
        ensures
            b == !(self is NonNull),
    {
        !self.is_required()
    }

    /// Whether this is a non-null type.
    pub fn is_required(&self) -> (b: bool)
        ensures
            b == (self is NonNull),
    {
        matches!(self, Type::NonNull(_))
    }

    /// The type with every outer non-null wrapper taken off.
    pub fn as_nullable(this: &Shared<Type>) -> (r: &Shared<Type>)
        ensures
            *r == nullable_of(*this),
        decreases this,
    {
        match &*this.0 {
            Type::NonNull(ty) => Type::as_nullable(&ty.ty),
            _ => this,
        }
    }

    /// The type of the items, if this is a list type (seen through
    /// non-null wrappers).
    pub fn list_value_type(&self) -> (r: Option<&Shared<Type>>)
        ensures
            opt_ref(r) == list_value_type_of(*self),
        decreases self,
    {
        match self {
            Type::List(ty) => ty.ty.ok(),
            Type::NonNull(ty) => ty.ty.0.list_value_type(),
            Type::Named(_) => None,
        }
    }

    /// Whether `other` is the same type as this one.
    pub fn is_invariant(&self, other: &Type) -> (b: bool)
        ensures
            b == same_type(*self, *other),
        decreases self,
    {
        match (self, other) {
            (Type::Named(lhs), Type::Named(rhs)) => lhs.0.0.source == rhs.0.0.source,
            (Type::List(lhs), Type::List(rhs)) => match (lhs.ty.ok(), rhs.ty.ok()) {
                (Some(l), Some(r)) => l.0.is_invariant(&r.0),
                _ => false,
            },
            (Type::NonNull(lhs), Type::NonNull(rhs)) => lhs.ty.0.is_invariant(&rhs.ty.0),
            _ => false,
        }
    }
}

/// How a type reads: its name, a list type in brackets (with `...` for a
/// missing element type), a non-null type followed by a bang.
pub open spec fn type_text(ty: Type) -> Seq<char>
    decreases ty,
{
    match ty {
        Type::Named(named) => named.0.0.source@,
        Type::List(list) => seq!['['] + match list.ty {
            Recoverable::Present(inner) => type_text(*inner.0),
            Recoverable::Missing(_) => seq!['.', '.', '.'],
        } + seq![']'],
        Type::NonNull(non_null) => type_text(*non_null.ty.0) + seq!['!'],
    }
}

impl Type {
    /// The type as it reads in a schema.
    pub fn to_string(&self) -> (r: String)
        ensures
            r@ == type_text(*self),
        decreases self,
    {
        match self {
            Type::Named(named) => named.0.0.source.clone(),
            Type::List(list) => {
                let mut r = String::new();
                proof {
                    reveal_strlit("[");
                    reveal_strlit("]");
                    reveal_strlit("...");
                }
                r.append("[");
                match &list.ty {
                    Recoverable::Present(inner) => {
                        let text = inner.0.to_string();
                        r.append(text.as_str());
                    },
                    Recoverable::Missing(_) => {
                        r.append("...");
                    },
                }
                r.append("]");
                r
            },
            Type::NonNull(non_null) => {
                let mut r = non_null.ty.0.to_string();
                proof {
                    reveal_strlit("!");
                }
                r.append("!");
                r
            },
        }
    }
}

/// A reference to a type by its name.
pub struct NamedType(pub Name);

pub struct ListType {
    pub brackets: (Punctuator, Recoverable<Punctuator>),
    pub ty: Recoverable<Shared<Type>>,
}

pub struct NonNullType {
    pub ty: Shared<Type>,
    pub bang: Punctuator,
}

pub struct Directives {
    pub directives: List<Shared<Directive>>,
}

pub struct Directive {
    pub at: Punctuator,
    pub name: Recoverable<Name>,
    pub arguments: Option<Shared<Arguments>>,
}

impl Directive {
    /// The arguments of this directive (none if it has no parentheses).
    pub open spec fn argument_list(self) -> Seq<Shared<Argument>> {
        match self.arguments {
            Some(args) => args.0.items.0@,
            None => Seq::empty(),
        }
    }

    /// The first argument of this directive named `name`.
    pub fn argument(&self, name: &str) -> (r: Option<&Shared<Argument>>)
        ensures
            match r {
                Some(arg) => exists|i: int|
                    {
                        &&& 0 <= i < self.argument_list().len()
                        &&& #[trigger] self.argument_list()[i] == *arg
                        &&& forall|j: int| 0 <= j < i ==> #[trigger] text(self.argument_list()[j].0.name) != name@
                    } && text(arg.0.name) == name@,
                None => forall|j: int|
                    0 <= j < self.argument_list().len() ==> #[trigger] text(self.argument_list()[j].0.name) != name@,
            },
    {
        match &self.arguments {
            Some(arguments) => {
                let items = &arguments.0.items.0;
                let mut i: usize = 0;
                while i < items.len()
                    invariant
                        i <= items@.len(),
                        self.argument_list() == items@,
                        forall|j: int| 0 <= j < i ==> #[trigger] text(items@[j].0.name) != name@,
                    decreases items.len() - i,
                {
                    if same_text(items[i].0.name.0.source.as_str(), name) {
                        return Some(&items[i]);
                    }
                    i = i + 1;
                }
                None
            },
            None => None,
        }
    }
}

pub struct TypeSystemDocument {
    pub definitions: List<TypeSystemDefinition>,
}

pub enum TypeSystemDefinition {
    SchemaDefinition(SchemaDefinition),
    TypeDefinition(Shared<TypeDefinition>),
    DirectiveDefinition(Shared<DirectiveDefinition>),
    Error(Description),
}

pub struct TypeSystemExtensionDocument {
    pub definitions: List<TypeSystemDefinitionOrExtension>,
}

pub enum TypeSystemDefinitionOrExtension {
    TypeSystemDefinition(TypeSystemDefinition),
    TypeSystemExtension(TypeSystemExtension),
}

pub enum TypeSystemExtension {
    SchemaExtension(SchemaExtension),
    TypeExtension(Shared<TypeExtension>),
    Error(Name),
}

/// A description: a string that documents what follows it.
pub struct Description(pub StringValue);

pub struct SchemaDefinition {
    pub description: Option<Description>,
    pub schema: Name,
    pub directives: Option<Directives>,
    pub type_definitions: Recoverable<RootOperationTypeDefinitions>,
}

pub struct RootOperationTypeDefinitions {
    pub braces: (Punctuator, Recoverable<Punctuator>),
    pub definitions: Recoverable<List<RootOperationTypeDefinition>>,
}

pub struct RootOperationTypeDefinition {
    pub operation_type: OperationType,
    pub colon: Recoverable<Punctuator>,
    pub named_type: Recoverable<NamedType>,
}

pub struct SchemaExtension {
    pub extend_schema: (Name, Name),
    pub directives: Option<Directives>,
    pub type_definitions: Option<RootOperationTypeDefinitions>,
}

pub enum TypeDefinition {
    ScalarTypeDefinition(ScalarTypeDefinition),
    ObjectTypeDefinition(ObjectTypeDefinition),
    InterfaceTypeDefinition(InterfaceTypeDefinition),
    UnionTypeDefinition(UnionTypeDefinition),
    EnumTypeDefinition(EnumTypeDefinition),
    InputObjectTypeDefinition(InputObjectTypeDefinition),
}

impl TypeDefinition {
    /// The keyword that starts the definition.
    pub fn keyword(&self) -> (r: &Name)
        ensures
            *r == match *self {
                TypeDefinition::ScalarTypeDefinition(d) => d.scalar,
                TypeDefinition::ObjectTypeDefinition(d) => d.ty,
                TypeDefinition::InterfaceTypeDefinition(d) => d.interface,
                TypeDefinition::UnionTypeDefinition(d) => d.union_kw,
                TypeDefinition::EnumTypeDefinition(d) => d.enum_kw,
                TypeDefinition::InputObjectTypeDefinition(d) => d.input,
            },
    {
        match self {
            TypeDefinition::ScalarTypeDefinition(d) => &d.scalar,
            TypeDefinition::ObjectTypeDefinition(d) => &d.ty,
            TypeDefinition::InterfaceTypeDefinition(d) => &d.interface,
            TypeDefinition::UnionTypeDefinition(d) => &d.union_kw,
            TypeDefinition::EnumTypeDefinition(d) => &d.enum_kw,
            TypeDefinition::InputObjectTypeDefinition(d) => &d.input,
        }
    }

    pub fn description(&self) -> (r: Option<&Description>)
        ensures
            opt_ref(r) == match *self {
                TypeDefinition::ScalarTypeDefinition(d) => d.description,
                TypeDefinition::ObjectTypeDefinition(d) => d.description,
                TypeDefinition::InterfaceTypeDefinition(d) => d.description,
                TypeDefinition::UnionTypeDefinition(d) => d.description,
                TypeDefinition::EnumTypeDefinition(d) => d.description,
                TypeDefinition::InputObjectTypeDefinition(d) => d.description,
            },
    {
        match self {
            TypeDefinition::ScalarTypeDefinition(d) => d.description.as_ref(),
            TypeDefinition::ObjectTypeDefinition(d) => d.description.as_ref(),
            TypeDefinition::InterfaceTypeDefinition(d) => d.description.as_ref(),
            TypeDefinition::UnionTypeDefinition(d) => d.description.as_ref(),
            TypeDefinition::EnumTypeDefinition(d) => d.description.as_ref(),
            TypeDefinition::InputObjectTypeDefinition(d) => d.description.as_ref(),
        }
    }

    /// The name of the defined type.
    pub open spec fn spec_name(self) -> Recoverable<Name> {
        match self {
            TypeDefinition::ScalarTypeDefinition(d) => d.name,
            TypeDefinition::ObjectTypeDefinition(d) => d.name,
            TypeDefinition::InterfaceTypeDefinition(d) => d.name,
            TypeDefinition::UnionTypeDefinition(d) => d.name,
            TypeDefinition::EnumTypeDefinition(d) => d.name,
            TypeDefinition::InputObjectTypeDefinition(d) => d.name,
        }
    }

    pub fn name(&self) -> (r: &Recoverable<Name>)
        ensures
            *r == self.spec_name(),
    {
        match self {
            TypeDefinition::ScalarTypeDefinition(d) => &d.name,
            TypeDefinition::ObjectTypeDefinition(d) => &d.name,
            TypeDefinition::InterfaceTypeDefinition(d) => &d.name,
            TypeDefinition::UnionTypeDefinition(d) => &d.name,
            TypeDefinition::EnumTypeDefinition(d) => &d.name,
            TypeDefinition::InputObjectTypeDefinition(d) => &d.name,
        }
    }

    /// Whether values of the type may be given as input: scalars, enums and
    /// input objects.
    pub fn is_input(&self) -> (b: bool)
        ensures
            b == (self is EnumTypeDefinition || self is InputObjectTypeDefinition || self is ScalarTypeDefinition),
    {
        match self {
            TypeDefinition::EnumTypeDefinition(_)
            | TypeDefinition::InputObjectTypeDefinition(_)
            | TypeDefinition::ScalarTypeDefinition(_) => true,
            TypeDefinition::InterfaceTypeDefinition(_)
            | TypeDefinition::ObjectTypeDefinition(_)
            | TypeDefinition::UnionTypeDefinition(_) => false,
        }
    }

    /// Whether values of the type may be returned: every type but input
    /// objects.
    pub fn is_output(&self) -> (b: bool)
        ensures
            b == !(self is InputObjectTypeDefinition),
    {
        match self {
            TypeDefinition::InputObjectTypeDefinition(_) => false,
            TypeDefinition::EnumTypeDefinition(_)
            | TypeDefinition::InterfaceTypeDefinition(_)
            | TypeDefinition::ObjectTypeDefinition(_)
            | TypeDefinition::ScalarTypeDefinition(_)
            | TypeDefinition::UnionTypeDefinition(_) => true,
        }
    }

    pub fn is_enum(&self) -> (b: bool)
        ensures
            b == (self is EnumTypeDefinition),
    {
        matches!(self, TypeDefinition::EnumTypeDefinition(_))
    }

    pub fn is_interface(&self) -> (b: bool)
        ensures
            b == (self is InterfaceTypeDefinition),
    {
        matches!(self, TypeDefinition::InterfaceTypeDefinition(_))
    }

    pub fn is_input_object_type(&self) -> (b: bool)
        ensures
            b == (self is InputObjectTypeDefinition),
    {
        matches!(self, TypeDefinition::InputObjectTypeDefinition(_))
    }

    pub fn is_scalar(&self) -> (b: bool)
        ensures
            b == (self is ScalarTypeDefinition),
    {
        matches!(self, TypeDefinition::ScalarTypeDefinition(_))
    }

    /// Scalars and enums: the leaves of a response.
    pub fn is_scalar_like(&self) -> (b: bool)
        ensures
            b == (self is ScalarTypeDefinition || self is EnumTypeDefinition),
    {
        self.is_scalar() || self.is_enum()
    }

    pub fn is_union(&self) -> (b: bool)
        ensures
            b == (self is UnionTypeDefinition),
    {
        matches!(self, TypeDefinition::UnionTypeDefinition(_))
    }

    /// Objects, interfaces and unions: the types that have fields to select.
    pub fn is_composite(&self) -> (b: bool)
        ensures
            b == (self is ObjectTypeDefinition || self is InterfaceTypeDefinition || self is UnionTypeDefinition),
    {
        self.is_object_type() || self.is_interface() || self.is_union()
    }

    pub fn is_object_type(&self) -> (b: bool)
        ensures
            b == (self is ObjectTypeDefinition),
    {
        matches!(self, TypeDefinition::ObjectTypeDefinition(_))
    }

    pub fn directives(&self) -> (r: Option<&Directives>)
        ensures
            opt_ref(r) == match *self {
                TypeDefinition::ScalarTypeDefinition(d) => d.directives,
                TypeDefinition::ObjectTypeDefinition(d) => d.directives,
                TypeDefinition::InterfaceTypeDefinition(d) => d.directives,
                TypeDefinition::UnionTypeDefinition(d) => d.directives,
                TypeDefinition::EnumTypeDefinition(d) => d.directives,
                TypeDefinition::InputObjectTypeDefinition(d) => d.directives,
            },
    {
        match self {
            TypeDefinition::EnumTypeDefinition(d) => d.directives.as_ref(),
            TypeDefinition::InputObjectTypeDefinition(d) => d.directives.as_ref(),
            TypeDefinition::InterfaceTypeDefinition(d) => d.directives.as_ref(),
            TypeDefinition::ObjectTypeDefinition(d) => d.directives.as_ref(),
            TypeDefinition::ScalarTypeDefinition(d) => d.directives.as_ref(),
            TypeDefinition::UnionTypeDefinition(d) => d.directives.as_ref(),
        }
    }

    /// The interfaces that an object or interface type implements.
    pub fn implements_interfaces(&self) -> (r: Option<&ImplementsInterfaces>)
        ensures
            opt_ref(r) == match *self {
                TypeDefinition::ObjectTypeDefinition(d) => d.implements_interfaces,
                TypeDefinition::InterfaceTypeDefinition(d) => d.implements_interfaces,
                _ => None,
            },
    {
        match self {
            TypeDefinition::InterfaceTypeDefinition(d) => d.implements_interfaces.as_ref(),
            TypeDefinition::ObjectTypeDefinition(d) => d.implements_interfaces.as_ref(),
            _ => None,
        }
    }

    /// The fields of an object or interface type.
    pub fn fields_definition(&self) -> (r: Option<&FieldsDefinition>)
        ensures
            opt_ref(r) == match *self {
                TypeDefinition::ObjectTypeDefinition(d) => d.fields_definition,
                TypeDefinition::InterfaceTypeDefinition(d) => d.fields_definition,
                _ => None,
            },
    {
        match self {
            TypeDefinition::InterfaceTypeDefinition(d) => d.fields_definition.as_ref(),
            TypeDefinition::ObjectTypeDefinition(d) => d.fields_definition.as_ref(),
            _ => None,
        }
    }
}

pub enum TypeExtension {
    ScalarTypeExtension(ScalarTypeExtension),
    ObjectTypeExtension(ObjectTypeExtension),
    InterfaceTypeExtension(InterfaceTypeExtension),
    UnionTypeExtension(UnionTypeExtension),
    EnumTypeExtension(EnumTypeExtension),
    InputObjectTypeExtension(InputObjectTypeExtension),
}

impl TypeExtension {
    /// The keyword after `extend`.
    pub fn keyword(&self) -> (r: &Name)
        ensures
            *r == match *self {
                TypeExtension::ScalarTypeExtension(e) => e.extend_scalar.1,
                TypeExtension::ObjectTypeExtension(e) => e.extend_type.1,
                TypeExtension::InterfaceTypeExtension(e) => e.extend_interface.1,
                TypeExtension::UnionTypeExtension(e) => e.extend_union.1,
                TypeExtension::EnumTypeExtension(e) => e.extend_enum.1,
                TypeExtension::InputObjectTypeExtension(e) => e.extend_input.1,
            },
    {
        match self {
            TypeExtension::ScalarTypeExtension(e) => &e.extend_scalar.1,
            TypeExtension::ObjectTypeExtension(e) => &e.extend_type.1,
            TypeExtension::InterfaceTypeExtension(e) => &e.extend_interface.1,
            TypeExtension::UnionTypeExtension(e) => &e.extend_union.1,
            TypeExtension::EnumTypeExtension(e) => &e.extend_enum.1,
            TypeExtension::InputObjectTypeExtension(e) => &e.extend_input.1,
        }
    }

    /// The name of the extended type.
    pub open spec fn spec_named_type(self) -> Recoverable<NamedType> {
        match self {
            TypeExtension::ScalarTypeExtension(e) => e.name,
            TypeExtension::ObjectTypeExtension(e) => e.name,
            TypeExtension::InterfaceTypeExtension(e) => e.name,
            TypeExtension::UnionTypeExtension(e) => e.name,
            TypeExtension::EnumTypeExtension(e) => e.name,
            TypeExtension::InputObjectTypeExtension(e) => e.name,
        }
    }

    /// The name of the extended type, if it is there.
    pub fn name(&self) -> (r: Option<&String>)
        ensures
            opt_ref(r) == match self.spec_named_type() {
                Recoverable::Present(t) => Some(t.0.0.source),
                Recoverable::Missing(_) => None,
            },
    {
        let named = match self {
            TypeExtension::ScalarTypeExtension(e) => &e.name,
            TypeExtension::ObjectTypeExtension(e) => &e.name,
            TypeExtension::InterfaceTypeExtension(e) => &e.name,
            TypeExtension::UnionTypeExtension(e) => &e.name,
            TypeExtension::EnumTypeExtension(e) => &e.name,
            TypeExtension::InputObjectTypeExtension(e) => &e.name,
        };
        match named.ok() {
            Some(t) => Some(&t.0.0.source),
            None => None,
        }
    }

    pub fn directives(&self) -> (r: Option<&Directives>)
        ensures
            opt_ref(r) == match *self {
                TypeExtension::ScalarTypeExtension(e) => e.directives.present(),
                TypeExtension::ObjectTypeExtension(e) => e.directives,
                TypeExtension::InterfaceTypeExtension(e) => e.directives,
                TypeExtension::UnionTypeExtension(e) => e.directives,
                TypeExtension::EnumTypeExtension(e) => e.directives,
                TypeExtension::InputObjectTypeExtension(e) => e.directives,
            },
    {
        match self {
            TypeExtension::EnumTypeExtension(e) => e.directives.as_ref(),
            TypeExtension::InputObjectTypeExtension(e) => e.directives.as_ref(),
            TypeExtension::InterfaceTypeExtension(e) => e.directives.as_ref(),
            TypeExtension::ObjectTypeExtension(e) => e.directives.as_ref(),
            TypeExtension::ScalarTypeExtension(e) => e.directives.ok(),
            TypeExtension::UnionTypeExtension(e) => e.directives.as_ref(),
        }
    }

    pub fn implements_interfaces(&self) -> (r: Option<&ImplementsInterfaces>)
        ensures
            opt_ref(r) == match *self {
                TypeExtension::ObjectTypeExtension(e) => e.implements_interfaces,
                TypeExtension::InterfaceTypeExtension(e) => e.implements_interfaces,
                _ => None,
            },
    {
        match self {
            TypeExtension::InterfaceTypeExtension(e) => e.implements_interfaces.as_ref(),
            TypeExtension::ObjectTypeExtension(e) => e.implements_interfaces.as_ref(),
            _ => None,
        }
    }

    pub fn fields_definition(&self) -> (r: Option<&FieldsDefinition>)
        ensures
            opt_ref(r) == match *self {
                TypeExtension::ObjectTypeExtension(e) => e.fields_definition,
                TypeExtension::InterfaceTypeExtension(e) => e.fields_definition,
                _ => None,
            },
    {
        match self {
            TypeExtension::InterfaceTypeExtension(e) => e.fields_definition.as_ref(),
            TypeExtension::ObjectTypeExtension(e) => e.fields_definition.as_ref(),
            _ => None,
        }
    }
}

pub struct ScalarTypeDefinition {
    pub description: Option<Description>,
    pub scalar: Name,
    pub name: Recoverable<Name>,
    pub directives: Option<Directives>,
}

pub struct ScalarTypeExtension {
    pub extend_scalar: (Name, Name),
    pub name: Recoverable<NamedType>,
    pub directives: Recoverable<Directives>,
}

pub struct ObjectTypeDefinition {
    pub description: Option<Description>,
    pub ty: Name,
    pub name: Recoverable<Name>,
    pub implements_interfaces: Option<ImplementsInterfaces>,
    pub directives: Option<Directives>,
    pub fields_definition: Option<FieldsDefinition>,
}

/// The types of `rest` that are present, in order.
pub open spec fn present_tail(rest: Seq<(Punctuator, Recoverable<Shared<NamedType>>)>) -> Seq<Shared<NamedType>>
    decreases rest.len(),
{
    if rest.len() == 0 {
        Seq::empty()
    } else {
        let init = present_tail(rest.drop_last());
        match rest.last().1 {
            Recoverable::Present(t) => init.push(t),
            Recoverable::Missing(_) => init,
        }
    }
}

/// The types of `first` and `rest` that are present, in order.
pub open spec fn present_types(
    first: Recoverable<Shared<NamedType>>,
    rest: Seq<(Punctuator, Recoverable<Shared<NamedType>>)>,
) -> Seq<Shared<NamedType>> {
    match first {
        Recoverable::Present(t) => seq![t] + present_tail(rest),
        Recoverable::Missing(_) => present_tail(rest),
    }
}

/// Whether one of `types` is named `name`.
pub open spec fn names_type(types: Seq<Shared<NamedType>>, name: Seq<char>) -> bool {
    exists|i: int| 0 <= i < types.len() && #[trigger] text(types[i].0.0) == name
}

/// The named types of `first` and `rest` that are present.
fn collect_types<'a>(
    first: &'a Recoverable<Shared<NamedType>>,
    rest: &'a Vec<(Punctuator, Recoverable<Shared<NamedType>>)>,
) -> (r: Vec<&'a Shared<NamedType>>)
    ensures
        r@.map_values(|t: &Shared<NamedType>| *t) == present_types(*first, rest@),
{
    let mut r: Vec<&Shared<NamedType>> = Vec::new();
    if let Recoverable::Present(t) = first {
        r.push(t);
    }
    let ghost start = r@.map_values(|t: &Shared<NamedType>| *t);
    let mut i: usize = 0;
    while i < rest.len()
        invariant
            i <= rest@.len(),
            start == match *first {
                Recoverable::Present(t) => seq![t],
                Recoverable::Missing(_) => Seq::<Shared<NamedType>>::empty(),
            },
            r@.map_values(|t: &Shared<NamedType>| *t) == start + present_tail(rest@.take(i as int)),
        decreases rest.len() - i,
    {
        let ghost before = r@.map_values(|t: &Shared<NamedType>| *t);
        proof {
            assert(rest@.take(i + 1).drop_last() =~= rest@.take(i as int));
        }
        let ghost before = r@.map_values(|t: &Shared<NamedType>| *t);
        if let Recoverable::Present(t) = &rest[i].1 {
            r.push(t);
            assert(r@.map_values(|t: &Shared<NamedType>| *t) =~= before.push(*t));
        }
        assert(rest@.take(i + 1).last() == rest@[i as int]);
        assert(r@.map_values(|t: &Shared<NamedType>| *t) =~= start + present_tail(rest@.take(i + 1)));
        i = i + 1;
    }
    assert(rest@.take(rest@.len() as int) =~= rest@);
    r
}

/// Whether one of `types` is named `name`.
fn any_named(types: &Vec<&Shared<NamedType>>, name: &str) -> (b: bool)
    ensures
        b == names_type(types@.map_values(|t: &Shared<NamedType>| *t), name@),
{
    let ghost all = types@.map_values(|t: &Shared<NamedType>| *t);
    let mut i: usize = 0;
    while i < types.len()
        invariant
            i <= types@.len(),
            all == types@.map_values(|t: &Shared<NamedType>| *t),
            forall|j: int| 0 <= j < i ==> #[trigger] text(all[j].0.0) != name@,
        decreases types.len() - i,
    {
        if same_text(types[i].0.0.0.source.as_str(), name) {
            assert(text(all[i as int].0.0) == name@);
            return true;
        }
        i = i + 1;
    }
    false
}

impl ObjectTypeDefinition {
    /// Whether this type declares that it implements the interface `name`.
    pub fn implements_interface(&self, name: &str) -> (b: bool)
        ensures
            b == match self.implements_interfaces {
                Some(i) => names_type(present_types(i.first, i.types.0@), name@),
                None => false,
            },
    {
        match &self.implements_interfaces {
            Some(interfaces) => interfaces.implements_interface(name),
            None => false,
        }
    }
}

pub struct ImplementsInterfaces {
    pub implements: Name,
    pub ampersand: Option<Punctuator>,
    pub first: Recoverable<Shared<NamedType>>,
    pub types: List<(Punctuator, Recoverable<Shared<NamedType>>)>,
}

impl ImplementsInterfaces {
    /// The interfaces named, where present, in order.
    pub fn named_types(&self) -> (r: Vec<&Shared<NamedType>>)
        ensures
            r@.map_values(|t: &Shared<NamedType>| *t) == present_types(self.first, self.types.0@),
    {
        collect_types(&self.first, &self.types.0)
    }

    /// Whether one of the interfaces is named `name`.
    pub fn implements_interface(&self, name: &str) -> (b: bool)
        ensures
            b == names_type(present_types(self.first, self.types.0@), name@),
    {
        let types = self.named_types();
        any_named(&types, name)
    }
}

pub struct FieldsDefinition {
    pub braces: (Punctuator, Recoverable<Punctuator>),
    pub definitions: List<Shared<FieldDefinition>>,
}

impl FieldsDefinition {
    /// The first field named `name`.
    pub fn field(&self, name: &str) -> (r: Option<&FieldDefinition>)
        ensures
            match r {
                Some(field) => exists|i: int|
                    {
                        &&& 0 <= i < self.definitions.0@.len()
                        &&& *(#[trigger] self.definitions.0@[i]).0 == *field
                        &&& forall|j: int| 0 <= j < i ==> #[trigger] text(self.definitions.0@[j].0.name) != name@
                    } && text(field.name) == name@,
                None => forall|j: int| 0 <= j < self.definitions.0@.len() ==> #[trigger] text(self.definitions.0@[j].0.name) != name@,
            },
    {
        let items = &self.definitions.0;
        let mut i: usize = 0;
        while i < items.len()
            invariant
                i <= items@.len(),
                items@ == self.definitions.0@,
                forall|j: int| 0 <= j < i ==> #[trigger] text(items@[j].0.name) != name@,
            decreases items.len() - i,
        {
            if same_text(items[i].0.name.0.source.as_str(), name) {
                return Some(&*items[i].0);
            }
            i = i + 1;
        }
        None
    }
}

pub struct FieldDefinition {
    pub description: Option<Description>,
    pub name: Name,
    pub arguments_definition: Option<Shared<ArgumentsDefinition>>,
    pub colon: Recoverable<Punctuator>,
    pub ty: Recoverable<Shared<Type>>,
    pub directives: Option<Directives>,
}

pub struct ArgumentsDefinition {
    pub parens: (Punctuator, Recoverable<Punctuator>),
    pub definitions: List<Shared<InputValueDefinition>>,
}

impl ArgumentsDefinition {
    /// The first argument named `name`.
    pub fn argument(&self, name: &str) -> (r: Option<&Shared<InputValueDefinition>>)
        ensures
            match r {
                Some(arg) => exists|i: int|
                    {
                        &&& 0 <= i < self.definitions.0@.len()
                        &&& #[trigger] self.definitions.0@[i] == *arg
                        &&& forall|j: int| 0 <= j < i ==> #[trigger] text(self.definitions.0@[j].0.name) != name@
                    } && text(arg.0.name) == name@,
                None => forall|j: int| 0 <= j < self.definitions.0@.len() ==> #[trigger] text(self.definitions.0@[j].0.name) != name@,
            },
    {
        let items = &self.definitions.0;
        let mut i: usize = 0;
        while i < items.len()
            invariant
                i <= items@.len(),
                items@ == self.definitions.0@,
                forall|j: int| 0 <= j < i ==> #[trigger] text(items@[j].0.name) != name@,
            decreases items.len() - i,
        {
            if same_text(items[i].0.name.0.source.as_str(), name) {
                return Some(&items[i]);
            }
            i = i + 1;
        }
        None
    }
}

pub struct InputValueDefinition {
    pub description: Option<Description>,
    pub name: Name,
    pub colon: Recoverable<Punctuator>,
    pub ty: Recoverable<Shared<Type>>,
    pub default_value: Option<DefaultValue>,
    pub directives: Option<Directives>,
}

impl InputValueDefinition {
    /// Whether a value must be given for this input: its type is non-null,
    /// and it has no default value other than `null`.
    pub open spec fn spec_is_required(self) -> bool {
        match self.ty {
            Recoverable::Present(ty) => {
                &&& *ty.0 is NonNull
                &&& match self.default_value {
                    Some(default) => match default.value {
                        Recoverable::Present(value) => *value.0 is NullValue,
                        Recoverable::Missing(_) => true,
                    },
                    None => true,
                }
            },
            Recoverable::Missing(_) => false,
        }
    }

    pub fn is_required(&self) -> (b: bool)
        ensures
            b == self.spec_is_required(),
    {
        let ty = match self.ty.ok() {
            Some(ty) => {
                if ty.0.is_required() {
                    ty
                } else {
                    return false;
                }
            },
            None => return false,
        };
        let value = match &self.default_value {
            Some(default) => default.value.ok(),
            None => None,
        };
        match value {
            Some(value) => ty.0.is_required() && value.0.is_null(),
            None => ty.0.is_required(),
        }
    }
}

pub struct ObjectTypeExtension {
    pub extend_type: (Name, Name),
    pub name: Recoverable<NamedType>,
    pub implements_interfaces: Option<ImplementsInterfaces>,
    pub directives: Option<Directives>,
    pub fields_definition: Option<FieldsDefinition>,
}

pub struct InterfaceTypeDefinition {
    pub description: Option<Description>,
    pub interface: Name,
    pub name: Recoverable<Name>,
    pub implements_interfaces: Option<ImplementsInterfaces>,
    pub directives: Option<Directives>,
    pub fields_definition: Option<FieldsDefinition>,
}

impl InterfaceTypeDefinition {
    /// Whether this interface declares that it implements the interface
    /// `name`.
    pub fn implements_interface(&self, name: &str) -> (b: bool)
        ensures
            b == match self.implements_interfaces {
                Some(i) => names_type(present_types(i.first, i.types.0@), name@),
                None => false,
            },
    {
        match &self.implements_interfaces {
            Some(interfaces) => interfaces.implements_interface(name),
            None => false,
        }
    }
}

pub struct InterfaceTypeExtension {
    pub extend_interface: (Name, Name),
    pub name: Recoverable<NamedType>,
    pub implements_interfaces: Option<ImplementsInterfaces>,
    pub directives: Option<Directives>,
    pub fields_definition: Option<FieldsDefinition>,
}

pub struct UnionTypeDefinition {
    pub description: Option<Description>,
    pub union_kw: Name,
    pub name: Recoverable<Name>,
    pub directives: Option<Directives>,
    pub member_types: Option<UnionMemberTypes>,
}

impl UnionTypeDefinition {
    /// Whether the type `name` is a member of this union.
    pub fn includes_member_type(&self, name: &str) -> (b: bool)
        ensures
            b == match self.member_types {
                Some(m) => names_type(present_types(m.first, m.types.0@), name@),
                None => false,
            },
    {
        match &self.member_types {
            Some(types) => types.includes_member_type(name),
            None => false,
        }
    }
}

pub struct UnionMemberTypes {
    pub eq: Punctuator,
    pub pipe: Option<Punctuator>,
    pub first: Recoverable<Shared<NamedType>>,
    pub types: List<(Punctuator, Recoverable<Shared<NamedType>>)>,
}

impl UnionMemberTypes {
    /// The member types, where present, in order.
    pub fn named_types(&self) -> (r: Vec<&Shared<NamedType>>)
        ensures
            r@.map_values(|t: &Shared<NamedType>| *t) == present_types(self.first, self.types.0@),
    {
        collect_types(&self.first, &self.types.0)
    }

    /// Whether one of the member types is named `name`.
    pub fn includes_member_type(&self, name: &str) -> (b: bool)
        ensures
            b == names_type(present_types(self.first, self.types.0@), name@),
    {
        let types = self.named_types();
        any_named(&types, name)
    }
}

pub struct UnionTypeExtension {
    pub extend_union: (Name, Name),
    pub name: Recoverable<NamedType>,
    pub directives: Option<Directives>,
    pub member_types: Option<UnionMemberTypes>,
}

pub struct EnumTypeDefinition {
    pub description: Option<Description>,
    pub enum_kw: Name,
    pub name: Recoverable<Name>,
    pub directives: Option<Directives>,
    pub values_definition: Option<EnumValuesDefinition>,
}

pub struct EnumValuesDefinition {
    pub braces: (Punctuator, Recoverable<Punctuator>),
    pub definitions: List<Shared<EnumValueDefinition>>,
}

pub struct EnumValueDefinition {
    pub description: Option<Description>,
    pub enum_value: EnumValue,
    pub directives: Option<Directives>,
}

pub struct EnumTypeExtension {
    pub extend_enum: (Name, Name),
    pub name: Recoverable<NamedType>,
    pub directives: Option<Directives>,
    pub values_definition: Option<EnumValuesDefinition>,
}

pub struct InputObjectTypeDefinition {
    pub description: Option<Description>,
    pub input: Name,
    pub name: Recoverable<Name>,
    pub directives: Option<Directives>,
    pub fields_definition: Option<InputFieldsDefinition>,
}

pub struct InputFieldsDefinition {
    pub braces: (Punctuator, Recoverable<Punctuator>),
    pub definitions: List<Shared<InputValueDefinition>>,
}

pub struct InputObjectTypeExtension {
    pub extend_input: (Name, Name),
    pub name: Recoverable<NamedType>,
    pub directives: Option<Directives>,
    pub fields_definition: Option<InputFieldsDefinition>,
}

pub struct DirectiveDefinition {
    pub description: Option<Description>,
    pub directive: Name,
    pub at: Recoverable<Punctuator>,
    pub name: Recoverable<Name>,
    pub arguments_definition: Option<Shared<ArgumentsDefinition>>,
    pub repeatable: Option<Name>,
    pub locations: Recoverable<DirectiveLocations>,
}

pub struct DirectiveLocations {
    pub on: Name,
    pub pipe: Option<Punctuator>,
    pub first: Recoverable<DirectiveLocation>,
    pub locations: List<(Punctuator, Recoverable<DirectiveLocation>)>,
}

/// The locations of `rest` that are present, in order.
pub open spec fn present_location_tail(rest: Seq<(Punctuator, Recoverable<DirectiveLocation>)>) -> Seq<DirectiveLocation>
    decreases rest.len(),
{
    if rest.len() == 0 {
        Seq::empty()
    } else {
        let init = present_location_tail(rest.drop_last());
        match rest.last().1 {
            Recoverable::Present(t) => init.push(t),
            Recoverable::Missing(_) => init,
        }
    }
}

/// The locations of `first` and `rest` that are present, in order.
pub open spec fn present_locations(
    first: Recoverable<DirectiveLocation>,
    rest: Seq<(Punctuator, Recoverable<DirectiveLocation>)>,
) -> Seq<DirectiveLocation> {
    match first {
        Recoverable::Present(t) => seq![t] + present_location_tail(rest),
        Recoverable::Missing(_) => present_location_tail(rest),
    }
}

impl DirectiveLocations {
    /// The locations named, where present, in order.
    pub fn locations(&self) -> (r: Vec<&DirectiveLocation>)
        ensures
            r@.map_values(|l: &DirectiveLocation| *l) == present_locations(self.first, self.locations.0@),
    {
        let rest = &self.locations.0;
        let mut r: Vec<&DirectiveLocation> = Vec::new();
        if let Recoverable::Present(t) = &self.first {
            r.push(t);
        }
        let ghost start = r@.map_values(|l: &DirectiveLocation| *l);
        let mut i: usize = 0;
        while i < rest.len()
            invariant
                i <= rest@.len(),
                rest@ == self.locations.0@,
                start == match self.first {
                    Recoverable::Present(t) => seq![t],
                    Recoverable::Missing(_) => Seq::<DirectiveLocation>::empty(),
                },
                r@.map_values(|l: &DirectiveLocation| *l) == start + present_location_tail(rest@.take(i as int)),
            decreases rest.len() - i,
        {
            proof {
                assert(rest@.take(i + 1).drop_last() =~= rest@.take(i as int));
            }
            let ghost before = r@.map_values(|l: &DirectiveLocation| *l);
            if let Recoverable::Present(t) = &rest[i].1 {
                r.push(t);
                assert(r@.map_values(|l: &DirectiveLocation| *l) =~= before.push(*t));
            }
            assert(rest@.take(i + 1).last() == rest@[i as int]);
            assert(r@.map_values(|l: &DirectiveLocation| *l) =~= start + present_location_tail(rest@.take(i + 1)));
            i = i + 1;
        }
        assert(rest@.take(rest@.len() as int) =~= rest@);
        r
    }
}

/// Where a directive may be used.
pub enum DirectiveLocation {
    ExecutableDirectiveLocation(ExecutableDirectiveLocation),
    TypeSystemDirectiveLocation(TypeSystemDirectiveLocation),
}

/// A place in an executable document where a directive may be used.
pub enum ExecutableDirectiveLocation {
    Query(Name),
    Mutation(Name),
    Subscription(Name),
    Field(Name),
    FragmentDefinition(Name),
    FragmentSpread(Name),
    InlineFragment(Name),
    VariableDefinition(Name),
}

/// A place in a type system document where a directive may be used.
pub enum TypeSystemDirectiveLocation {
    Schema(Name),
    Scalar(Name),
    Object(Name),
    FieldDefinition(Name),
    ArgumentDefinition(Name),
    Interface(Name),
    Union(Name),
    Enum(Name),
    EnumValue(Name),
    InputObject(Name),
    InputFieldDefinition(Name),
}

} // verus!
