use litho::ast::context::MultiThreadedContext;
use litho::ast::types::{Definition, Recoverable, TypeDefinition, TypeSystemDefinition, TypeSystemDefinitionOrExtension};
use litho::import::introspection::{EnumValue, Field, Schema, Type, TypeKind};
use litho::import::Retrospect;

fn ty(kind: TypeKind, name: Option<&str>) -> Type {
    Type {
        kind,
        name: name.map(str::to_owned),
        description: None,
        fields: None,
        interfaces: None,
        possible_types: None,
        enum_values: None,
        input_fields: None,
        of_type: None,
        specified_by_url: None,
    }
}

fn wrap(kind: TypeKind, inner: Type) -> Type {
    Type { of_type: Some(Box::new(inner)), ..ty(kind, None) }
}

fn field(name: &str, t: Type) -> Field {
    Field { name: name.to_owned(), description: None, args: vec![], ty: t, is_deprecated: false, deprecation_reason: None }
}

#[test]
fn test_retrospect_type_reference() {
    let context = MultiThreadedContext::new();
    let reference = wrap(TypeKind::NonNull, wrap(TypeKind::List, ty(TypeKind::Scalar, Some("Int"))));
    let converted: Option<litho::ast::types::Type> = reference.retrospect(&context);
    let converted = converted.unwrap();
    assert!(converted.is_required());
    assert_eq!(converted.name().map(String::as_str), Some("Int"));
    let dangling = wrap(TypeKind::List, ty(TypeKind::Scalar, None));
    let none: Option<litho::ast::types::Type> = dangling.retrospect(&context);
    assert!(none.is_none());
}

#[test]
fn test_retrospect_type_definitions() {
    let context = MultiThreadedContext::new();
    let skipped: Option<TypeDefinition> = ty(TypeKind::Scalar, Some("String")).retrospect(&context);
    assert!(skipped.is_none());
    let reserved: Option<TypeDefinition> = ty(TypeKind::Object, Some("__Type")).retrospect(&context);
    assert!(reserved.is_none());
    let wrapper: Option<TypeDefinition> = wrap(TypeKind::List, ty(TypeKind::Object, Some("A"))).retrospect(&context);
    assert!(wrapper.is_none());

    let mut object = ty(TypeKind::Object, Some("Query"));
    object.description = Some("The root".to_owned());
    object.fields = Some(vec![
        field("hello", ty(TypeKind::Scalar, Some("String"))),
        field("broken", ty(TypeKind::Scalar, None)),
    ]);
    let def: Option<TypeDefinition> = object.retrospect(&context);
    let def = def.unwrap();
    assert!(def.is_object_type());
    assert_eq!(def.name().ok().map(|n| n.as_str()), Some("Query"));
    assert_eq!(def.description().unwrap().0.to_string(), "The root");
    let fields = def.fields_definition().unwrap();
    assert_eq!(fields.definitions.0.len(), 1);
    assert!(fields.field("hello").is_some());

    let mut union = ty(TypeKind::Union, Some("Pet"));
    union.possible_types = Some(vec![ty(TypeKind::Object, Some("Cat")), ty(TypeKind::Object, None), ty(TypeKind::Object, Some("Dog"))]);
    let def: Option<TypeDefinition> = union.retrospect(&context);
    match def.unwrap() {
        TypeDefinition::UnionTypeDefinition(u) => {
            assert!(u.includes_member_type("Cat"));
            assert!(u.includes_member_type("Dog"));
            assert_eq!(u.member_types.unwrap().named_types().len(), 2);
        }
        _ => panic!("expected a union"),
    }

    let mut colors = ty(TypeKind::Enum, Some("Color"));
    colors.enum_values = Some(vec![
        EnumValue { name: "RED".to_owned(), description: Some(String::new()), is_deprecated: false, deprecation_reason: None },
        EnumValue { name: "GREEN".to_owned(), description: None, is_deprecated: false, deprecation_reason: None },
    ]);
    let def: Option<TypeDefinition> = colors.retrospect(&context);
    match def.unwrap() {
        TypeDefinition::EnumTypeDefinition(e) => {
            let values = e.values_definition.unwrap();
            assert_eq!(values.definitions.0.len(), 2);
            assert_eq!(values.definitions.0[0].0.enum_value.0.as_str(), "RED");
            assert!(values.definitions.0[0].0.description.is_none());
        }
        _ => panic!("expected an enum"),
    }
}

#[test]
fn test_retrospect_schema() {
    let context = MultiThreadedContext::new();
    let schema = Schema {
        query_type: ty(TypeKind::Object, Some("Query")),
        mutation_type: None,
        subscription_type: Some(ty(TypeKind::Object, Some("Subscription"))),
        types: vec![
            ty(TypeKind::Object, Some("Query")),
            ty(TypeKind::Scalar, Some("Boolean")),
            ty(TypeKind::Scalar, Some("Date")),
            ty(TypeKind::Object, Some("__Directive")),
        ],
        directives: vec![],
    };
    let document = schema.retrospect(&context).unwrap();
    let definitions = &document.definitions.0;
    assert_eq!(definitions.len(), 3);
    match &*definitions[0].0 {
        Definition::TypeSystemDefinitionOrExtension(TypeSystemDefinitionOrExtension::TypeSystemDefinition(
            TypeSystemDefinition::SchemaDefinition(s),
        )) => match &s.type_definitions {
            Recoverable::Present(roots) => match &roots.definitions {
                Recoverable::Present(list) => {
                    let names: Vec<&str> = list.0.iter().map(|r| r.named_type.ok().unwrap().0.as_str()).collect();
                    assert_eq!(names, vec!["Query", "Subscription"]);
                }
                _ => panic!("expected root operations"),
            },
            _ => panic!("expected root operations"),
        },
        _ => panic!("expected the schema definition first"),
    }
    let names: Vec<String> = definitions[1..]
        .iter()
        .map(|d| match &*d.0 {
            Definition::TypeSystemDefinitionOrExtension(TypeSystemDefinitionOrExtension::TypeSystemDefinition(
                TypeSystemDefinition::TypeDefinition(t),
            )) => t.0.name().ok().unwrap().as_str().to_owned(),
            _ => panic!("expected a type definition"),
        })
        .collect();
    assert_eq!(names, vec!["Query".to_owned(), "Date".to_owned()]);
}
