use litho::ast::context::{List, Shared};
use litho::ast::json::JsonValue;
use litho::ast::types::{
    Argument, Arguments, BooleanValue, DefaultValue, Directive, EnumValue, FieldDefinition,
    FieldsDefinition, FragmentDefinition, InputValueDefinition, ListType, ListValue, Missing,
    MissingToken, NamedType, NonNullType, NullValue, ObjectField, ObjectValue, OperationDefinition,
    Recoverable, ScalarTypeDefinition, SchemaDefinition, Type, TypeCondition, TypeDefinition,
    UnionMemberTypes, Value, Variable,
};
use litho::compiler::{Dependency, Producer};
use litho::lex::kind::TokenKind;
use litho::lex::raw::RawToken;
use litho::lex::span::Span;
use litho::lex::token::{FloatValue, IntValue, Name, Punctuator, StringValue};
use litho::lex::SourceId;

fn p(s: &str) -> Punctuator {
    Punctuator::new(s)
}

fn missing<T>() -> Recoverable<T> {
    Recoverable::Missing(MissingToken {
        span: Span { source_id: SourceId(0), start: 0, end: 0 },
        missing: Missing::Unknown,
    })
}

fn named(name: &str) -> Type {
    Type::Named(NamedType(Name::new(name)))
}

fn list_of(ty: Type) -> Type {
    Type::List(ListType { brackets: (p("["), Recoverable::Present(p("]"))), ty: Recoverable::Present(Shared::new(ty)) })
}

fn non_null(ty: Type) -> Type {
    Type::NonNull(NonNullType { ty: Shared::new(ty), bang: p("!") })
}

#[test]
fn test_type_queries() {
    let ty = non_null(list_of(named("Int")));
    assert!(ty.is_required());
    assert!(!ty.is_nullable());
    assert_eq!(ty.name().map(String::as_str), Some("Int"));
    assert_eq!(ty.named_type().map(|t| t.0.as_str()), Some("Int"));
    let item = ty.list_value_type().unwrap();
    assert_eq!(item.0.name().map(String::as_str), Some("Int"));
    assert!(item.0.is_nullable());

    let shared = Shared::new(non_null(non_null(named("ID"))));
    let nullable = Type::as_nullable(&shared);
    assert!(matches!(*nullable.0, Type::Named(_)));

    let broken = Type::List(ListType { brackets: (p("["), missing()), ty: missing() });
    assert_eq!(broken.name(), None);
    assert!(broken.list_value_type().is_none());
    assert!(named("String").list_value_type().is_none());
}

#[test]
fn test_type_is_invariant() {
    let a = non_null(list_of(named("Int")));
    assert!(a.is_invariant(&non_null(list_of(named("Int")))));
    assert!(!a.is_invariant(&non_null(list_of(named("String")))));
    assert!(!a.is_invariant(&list_of(named("Int"))));
    let broken = Type::List(ListType { brackets: (p("["), missing()), ty: missing() });
    assert!(!broken.is_invariant(&broken));
}

fn input(ty: Type, default: Option<Value>) -> InputValueDefinition {
    InputValueDefinition {
        description: None,
        name: Name::new("arg"),
        colon: Recoverable::Present(p(":")),
        ty: Recoverable::Present(Shared::new(ty)),
        default_value: default.map(|v| DefaultValue { eq: p("="), value: Recoverable::Present(Shared::new(v)) }),
        directives: None,
    }
}

fn int_literal(text: &str) -> Value {
    Value::IntValue(IntValue(RawToken::new(TokenKind::IntValue, text.to_owned())))
}

#[test]
fn test_input_value_is_required() {
    assert!(input(non_null(named("Int")), None).is_required());
    assert!(input(non_null(named("Int")), Some(Value::NullValue(NullValue(Name::new("null"))))).is_required());
    assert!(!input(non_null(named("Int")), Some(int_literal("1"))).is_required());
    assert!(!input(named("Int"), None).is_required());
}

fn argument(name: &str, value: Value) -> Shared<Argument> {
    Shared::new(Argument { name: Name::new(name), colon: Recoverable::Present(p(":")), value: Recoverable::Present(Shared::new(value)) })
}

#[test]
fn test_directive_argument() {
    let directive = Directive {
        at: p("@"),
        name: Recoverable::Present(Name::new("include")),
        arguments: Some(Shared::new(Arguments {
            parens: (p("("), Recoverable::Present(p(")"))),
            items: List::new(vec![argument("a", int_literal("1")), argument("b", int_literal("2")), argument("b", int_literal("3"))]),
        })),
    };
    let b = directive.argument("b").unwrap();
    assert!(matches!(&*b.0.value.ok().unwrap().0, Value::IntValue(v) if v.0.source == "2"));
    assert!(directive.argument("z").is_none());
    let bare = Directive { at: p("@"), name: Recoverable::Present(Name::new("skip")), arguments: None };
    assert!(bare.argument("a").is_none());
}

fn field(name: &str) -> Shared<FieldDefinition> {
    Shared::new(FieldDefinition {
        description: None,
        name: Name::new(name),
        arguments_definition: None,
        colon: Recoverable::Present(p(":")),
        ty: Recoverable::Present(Shared::new(named("String"))),
        directives: None,
    })
}

#[test]
fn test_fields_definition_field() {
    let fields = FieldsDefinition { braces: (p("{"), Recoverable::Present(p("}"))), definitions: List::new(vec![field("id"), field("name")]) };
    assert_eq!(fields.field("name").map(|f| f.name.as_str()), Some("name"));
    assert!(fields.field("age").is_none());
}

#[test]
fn test_union_member_types() {
    let members = UnionMemberTypes {
        eq: p("="),
        pipe: None,
        first: Recoverable::Present(Shared::new(NamedType(Name::new("Cat")))),
        types: List::new(vec![
            (p("|"), missing()),
            (p("|"), Recoverable::Present(Shared::new(NamedType(Name::new("Dog"))))),
        ]),
    };
    let names: Vec<&str> = members.named_types().iter().map(|t| t.0.0.as_str()).collect();
    assert_eq!(names, vec!["Cat", "Dog"]);
    assert!(members.includes_member_type("Dog"));
    assert!(!members.includes_member_type("Bird"));
}

fn string(text: &str) -> Value {
    Value::StringValue(StringValue(RawToken::new(TokenKind::StringValue, text.to_owned())))
}

fn list(values: Vec<Value>) -> Value {
    Value::ListValue(ListValue {
        brackets: (p("["), Recoverable::Present(p("]"))),
        values: List::new(values.into_iter().map(Shared::new).collect()),
    })
}

#[test]
fn test_value_to_json() {
    let value = list(vec![
        int_literal("1"),
        string("\"a\""),
        Value::BooleanValue(BooleanValue::True(Name::new("true"))),
        Value::NullValue(NullValue(Name::new("null"))),
        Value::EnumValue(EnumValue(Name::new("RED"))),
        Value::FloatValue(FloatValue(RawToken::new(TokenKind::FloatValue, "1.5".to_owned()))),
    ]);
    assert_eq!(
        value.to_json(),
        Some(JsonValue::Array(vec![
            JsonValue::Number(1),
            JsonValue::String("a".to_owned()),
            JsonValue::Bool(true),
            JsonValue::Null,
            JsonValue::String("RED".to_owned()),
            JsonValue::Float("1.5".to_owned()),
        ]))
    );
    let object = Value::ObjectValue(ObjectValue {
        braces: (p("{"), Recoverable::Present(p("}"))),
        object_fields: List::new(vec![ObjectField { name: Name::new("x"), colon: Recoverable::Present(p(":")), value: Recoverable::Present(Shared::new(int_literal("7"))) }]),
    });
    assert_eq!(object.to_json(), Some(JsonValue::Object(vec![("x".to_owned(), JsonValue::Number(7))])));
    let holey = Value::ObjectValue(ObjectValue {
        braces: (p("{"), Recoverable::Present(p("}"))),
        object_fields: List::new(vec![ObjectField { name: Name::new("x"), colon: missing(), value: missing() }]),
    });
    assert_eq!(holey.to_json(), None);
    assert_eq!(list(vec![int_literal("99999999999")]).to_json(), None);
    let variable = Value::Variable(Variable { dollar: p("$"), name: Recoverable::Present(Name::new("v")) });
    assert_eq!(variable.to_json(), None);
    assert_eq!(Value::EnumValue(EnumValue(Name::new("false"))).to_json(), Some(JsonValue::Bool(false)));
}

#[test]
fn test_value_kind_queries() {
    assert!(int_literal("1").is_int());
    assert!(int_literal("1").is_float_like());
    assert!(string("\"s\"").is_id_like());
    assert!(!string("\"s\"").is_int());
    assert!(list(vec![]).is_list());
    assert!(BooleanValue::True(Name::new("true")).to_bool());
    assert!(!BooleanValue::False(Name::new("false")).to_bool());
}

#[test]
fn test_dependency_products() {
    let fragment = FragmentDefinition {
        fragment: Name::new("fragment"),
        fragment_name: Recoverable::Present(Name::new("Parts")),
        type_condition: Recoverable::Present(TypeCondition { on: Name::new("on"), named_type: Recoverable::Present(NamedType(Name::new("User"))) }),
        directives: None,
        selection_set: missing(),
    };
    assert_eq!(fragment.product(), Some(Dependency::Fragment("Parts".to_owned())));
    let operation = OperationDefinition { ty: None, name: Some(Name::new("Q")), variable_definitions: None, directives: None, selection_set: missing() };
    assert_eq!(operation.product(), Some(Dependency::Fragment("Q".to_owned())));
    let anonymous = OperationDefinition { ty: None, name: None, variable_definitions: None, directives: None, selection_set: missing() };
    assert_eq!(anonymous.product(), None);
    let schema = SchemaDefinition { description: None, schema: Name::new("schema"), directives: None, type_definitions: missing() };
    assert_eq!(schema.product(), Some(Dependency::Schema));
    let scalar = TypeDefinition::ScalarTypeDefinition(ScalarTypeDefinition { description: None, scalar: Name::new("scalar"), name: Recoverable::Present(Name::new("Date")), directives: None });
    assert_eq!(scalar.product(), Some(Dependency::Type("Date".to_owned())));
    assert!(scalar.is_scalar_like());
    assert!(scalar.is_input());
    assert!(scalar.is_output());
    assert!(!scalar.is_composite());
    assert_eq!(scalar.keyword().as_str(), "scalar");
    assert!(scalar.fields_definition().is_none());
}

#[test]
fn test_type_reads_as_written() {
    assert_eq!(named("Int").to_string(), "Int");
    assert_eq!(non_null(list_of(non_null(named("User")))).to_string(), "[User!]!");
    let broken = Type::List(ListType { brackets: (p("["), missing()), ty: missing() });
    assert_eq!(broken.to_string(), "[...]");
}

#[test]
fn test_shared_clone_is_the_same_node() {
    let a = Shared::new(1u8);
    let b = a.clone();
    let c = Shared::new(1u8);
    assert!(Shared::ptr_eq(&a, &a));
    assert!(Shared::ptr_eq(&a, &b));
    assert!(!Shared::ptr_eq(&a, &c));
}
