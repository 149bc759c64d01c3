use vstd::prelude::*;

verus! {

/// The response to an introspection query.
pub struct Response {
    pub data: Data,
}

pub struct Data {
    pub schema: Schema,
}

/// A schema as introspection describes it.
pub struct Schema {
    pub query_type: Type,
    pub mutation_type: Option<Type>,
    pub subscription_type: Option<Type>,
    pub types: Vec<Type>,
    pub directives: Vec<Directive>,
}

/// A type, or a reference to one: `of_type` holds what a list or non-null
/// type wraps.
pub struct Type {
    pub kind: TypeKind,
    pub name: Option<String>,
    pub description: Option<String>,
    pub fields: Option<Vec<Field>>,
    pub interfaces: Option<Vec<Type>>,
    pub possible_types: Option<Vec<Type>>,
    pub enum_values: Option<Vec<EnumValue>>,
    pub input_fields: Option<Vec<InputValue>>,
    pub of_type: Option<Box<Type>>,
    pub specified_by_url: Option<String>,
}

#[derive(Clone, Copy, Debug, PartialEq, Eq, Structural)]
pub enum TypeKind {
    Scalar,
    Object,
    Interface,
    Union,
    Enum,
    InputObject,
    List,
    NonNull,
}

pub struct Field {
    pub name: String,
    pub description: Option<String>,
    pub args: Vec<InputValue>,
    pub ty: Type,
    pub is_deprecated: bool,
    pub deprecation_reason: Option<String>,
}

pub struct InputValue {
    pub name: String,
    pub description: Option<String>,
    pub ty: Type,
    pub default_value: Option<String>,
}

pub struct EnumValue {
    pub name: String,
    pub description: Option<String>,
    pub is_deprecated: bool,
    pub deprecation_reason: Option<String>,
}

pub struct Directive {
    pub name: String,
    pub description: Option<String>,
    pub locations: Vec<DirectiveLocation>,
    pub args: Vec<InputValue>,
    pub is_repeatable: bool,
}

#[derive(Clone, Copy, Debug, PartialEq, Eq, Structural)]
pub enum DirectiveLocation {
    Query,
    Mutation,
    Subscription,
    Field,
    FragmentDefinition,
    FragmentSpread,
    InlineFragment,
    VariableDefinition,
    Schema,
    Scalar,
    Object,
    FieldDefinition,
    ArgumentDefinition,
    Interface,
    Union,
    Enum,
    EnumValue,
    InputObject,
    InputFieldDefinition,
}

} // verus!
