use vstd::prelude::*;

use crate::ast::types::{
    text, Definition, DirectiveDefinition, ExecutableDefinition, FragmentDefinition,
    OperationDefinition, Recoverable, SchemaDefinition, SchemaExtension, TypeDefinition,
    TypeExtension, TypeSystemDefinition, TypeSystemDefinitionOrExtension, TypeSystemExtension,
};

verus! {

/// What a definition provides to, or needs from, the rest of a document.
#[derive(Debug, Clone, PartialEq, Eq, Hash)]
pub enum Dependency {
    Query,
    Mutation,
    Subscription,
    Schema,
    Type(String),
    Directive(String),
    Fragment(String),
}

/// The spelled-out form of a dependency: its kind, and the name it carries
/// (empty for those that carry none).
pub open spec fn dependency_view(d: Dependency) -> (int, Seq<char>) {
    match d {
        Dependency::Query => (0, Seq::empty()),
        Dependency::Mutation => (1, Seq::empty()),
        Dependency::Subscription => (2, Seq::empty()),
        Dependency::Schema => (3, Seq::empty()),
        Dependency::Type(name) => (4, name@),
        Dependency::Directive(name) => (5, name@),
        Dependency::Fragment(name) => (6, name@),
    }
}

/// A definition that provides something to the rest of a document.
pub trait Producer {
    /// What this definition provides, if anything.
    fn product(&self) -> Option<Dependency>;
}

/// What a definition provides: a named fragment, a directive, a type, or
/// the schema. An operation provides a fragment of its name. A definition
/// whose name is missing provides nothing.
pub open spec fn definition_product(d: Definition) -> Option<(int, Seq<char>)> {
    match d {
        Definition::ExecutableDefinition(e) => executable_product(e),
        Definition::TypeSystemDefinitionOrExtension(t) => match t {
            TypeSystemDefinitionOrExtension::TypeSystemDefinition(s) => type_system_product(s),
            TypeSystemDefinitionOrExtension::TypeSystemExtension(s) => extension_product(s),
        },
    }
}

pub open spec fn executable_product(e: ExecutableDefinition) -> Option<(int, Seq<char>)> {
    match e {
        ExecutableDefinition::FragmentDefinition(f) => match f.0.fragment_name {
            Recoverable::Present(name) => Some((6, text(name))),
            Recoverable::Missing(_) => None,
        },
        ExecutableDefinition::OperationDefinition(o) => match o.0.name {
            Some(name) => Some((6, text(name))),
            None => None,
        },
    }
}

pub open spec fn type_system_product(s: TypeSystemDefinition) -> Option<(int, Seq<char>)> {
    match s {
        TypeSystemDefinition::DirectiveDefinition(d) => match d.0.name {
            Recoverable::Present(name) => Some((5, text(name))),
            Recoverable::Missing(_) => None,
        },
        TypeSystemDefinition::SchemaDefinition(_) => Some((3, Seq::empty())),
        TypeSystemDefinition::TypeDefinition(t) => match t.0.spec_name() {
            Recoverable::Present(name) => Some((4, text(name))),
            Recoverable::Missing(_) => None,
        },
        TypeSystemDefinition::Error(_) => None,
    }
}

pub open spec fn extension_product(s: TypeSystemExtension) -> Option<(int, Seq<char>)> {
    match s {
        TypeSystemExtension::SchemaExtension(_) => Some((3, Seq::empty())),
        TypeSystemExtension::TypeExtension(t) => match t.0.spec_named_type() {
            Recoverable::Present(named) => Some((4, text(named.0))),
            Recoverable::Missing(_) => None,
        },
        TypeSystemExtension::Error(_) => None,
    }
}

/// The spelled-out form of an optional dependency.
pub open spec fn product_view(r: Option<Dependency>) -> Option<(int, Seq<char>)> {
    match r {
        Some(d) => Some(dependency_view(d)),
        None => None,
    }
}

impl Producer for FragmentDefinition {
    fn product(&self) -> (r: Option<Dependency>)
        ensures
            product_view(r) == match self.fragment_name {
                Recoverable::Present(name) => Some((6int, text(name))),
                Recoverable::Missing(_) => None,
            },
    {
        match self.fragment_name.ok() {
            Some(name) => Some(Dependency::Fragment(name.0.source.clone())),
            None => None,
        }
    }
}

impl Producer for OperationDefinition {
    fn product(&self) -> (r: Option<Dependency>)
        ensures
            product_view(r) == match self.name {
                Some(name) => Some((6int, text(name))),
                None => None,
            },
    {
        match &self.name {
            Some(name) => Some(Dependency::Fragment(name.0.source.clone())),
            None => None,
        }
    }
}

impl Producer for ExecutableDefinition {
    fn product(&self) -> (r: Option<Dependency>)
        ensures
            product_view(r) == executable_product(*self),
    {
        match self {
            ExecutableDefinition::FragmentDefinition(definition) => definition.0.product(),
            ExecutableDefinition::OperationDefinition(definition) => definition.0.product(),
        }
    }
}

impl Producer for DirectiveDefinition {
    fn product(&self) -> (r: Option<Dependency>)
        ensures
            product_view(r) == match self.name {
                Recoverable::Present(name) => Some((5int, text(name))),
                Recoverable::Missing(_) => None,
            },
    {
        match self.name.ok() {
            Some(name) => Some(Dependency::Directive(name.0.source.clone())),
            None => None,
        }
    }
}

impl Producer for SchemaDefinition {
    fn product(&self) -> (r: Option<Dependency>)
        ensures
            product_view(r) == Some((3int, Seq::<char>::empty())),
    {
        Some(Dependency::Schema)
    }
}

impl Producer for TypeDefinition {
    fn product(&self) -> (r: Option<Dependency>)
        ensures
            product_view(r) == match self.spec_name() {
                Recoverable::Present(name) => Some((4int, text(name))),
                Recoverable::Missing(_) => None,
            },
    {
        match self.name().ok() {
            Some(name) => Some(Dependency::Type(name.0.source.clone())),
            None => None,
        }
    }
}

impl Producer for TypeSystemDefinition {
    fn product(&self) -> (r: Option<Dependency>)
        ensures
            product_view(r) == type_system_product(*self),
    {
        match self {
            TypeSystemDefinition::DirectiveDefinition(definition) => definition.0.product(),
            TypeSystemDefinition::SchemaDefinition(definition) => definition.product(),
            TypeSystemDefinition::TypeDefinition(definition) => definition.0.product(),
            TypeSystemDefinition::Error(_) => None,
        }
    }
}

impl Producer for SchemaExtension {
    fn product(&self) -> (r: Option<Dependency>)
        ensures
            product_view(r) == Some((3int, Seq::<char>::empty())),
    {
        Some(Dependency::Schema)
    }
}

impl Producer for TypeExtension {
    fn product(&self) -> (r: Option<Dependency>)
        ensures
            product_view(r) == match self.spec_named_type() {
                Recoverable::Present(named) => Some((4int, text(named.0))),
                Recoverable::Missing(_) => None,
            },
    {
        match self.name() {
            Some(name) => Some(Dependency::Type(name.clone())),
            None => None,
        }
    }
}

impl Producer for TypeSystemExtension {
    fn product(&self) -> (r: Option<Dependency>)
        ensures
            product_view(r) == extension_product(*self),
    {
        match self {
            TypeSystemExtension::SchemaExtension(extension) => extension.product(),
            TypeSystemExtension::TypeExtension(extension) => extension.0.product(),
            TypeSystemExtension::Error(_) => None,
        }
    }
}

impl Producer for TypeSystemDefinitionOrExtension {
    fn product(&self) -> (r: Option<Dependency>)
        ensures
            product_view(r) == match *self {
                TypeSystemDefinitionOrExtension::TypeSystemDefinition(s) => type_system_product(s),
                TypeSystemDefinitionOrExtension::TypeSystemExtension(s) => extension_product(s),
            },
    {
        match self {
            TypeSystemDefinitionOrExtension::TypeSystemDefinition(definition) => definition.product(),
            TypeSystemDefinitionOrExtension::TypeSystemExtension(definition) => definition.product(),
        }
    }
}

impl Producer for Definition {
    fn product(&self) -> (r: Option<Dependency>)
        ensures
            product_view(r) == definition_product(*self),
    {
        match self {
            Definition::ExecutableDefinition(definition) => definition.product(),
            Definition::TypeSystemDefinitionOrExtension(definition) => definition.product(),
        }
    }
}

} // verus!
