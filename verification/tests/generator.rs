use litho::ast::context::Shared;
use litho::ast::types::{
    Definition, Document, NamedType, TypeDefinition, TypeSystemDefinition,
    TypeSystemDefinitionOrExtension,
};
use litho::codegen::generator::{Generator, LithoExportTypescript, Piece};
use litho::lex::token::Name;
use litho::lex::SourceId;
use litho::syn::Parse;

fn render(pieces: &[Piece]) -> String {
    let mut out = String::new();
    for piece in pieces {
        match piece {
            Piece::Text(text) => out.push_str(text),
            Piece::Token(token) => out.push_str(&token.source),
        }
    }
    out
}

fn type_definition(source: &str) -> (Document, usize) {
    let (document, rest) = Document::parse_from_str(SourceId(1), source).unwrap();
    assert!(rest.is_empty());
    let count = document.definitions.0.len();
    (document, count)
}

fn nth(document: &Document, i: usize) -> &TypeDefinition {
    match &*document.definitions.0[i].0 {
        Definition::TypeSystemDefinitionOrExtension(
            TypeSystemDefinitionOrExtension::TypeSystemDefinition(TypeSystemDefinition::TypeDefinition(ty)),
        ) => &ty.0,
        _ => panic!("expected a type definition"),
    }
}

#[test]
fn test_process_object() {
    let (document, _) = type_definition("type User { id: ID! name: String tags: [String!] friend: User }");
    let mut generator = Generator::new();
    match nth(&document, 0) {
        TypeDefinition::ObjectTypeDefinition(object) => {
            let fields = &object.fields_definition.as_ref().unwrap().definitions.0;
            let name = match &object.name {
                litho::ast::types::Recoverable::Present(name) => name,
                _ => panic!("expected a name"),
            };
            generator.process_object(name, fields);
        }
        _ => panic!("expected an object type"),
    }
    assert_eq!(render(&generator.js), "exports.User = class User {}\n\n");
    assert_eq!(
        render(&generator.dts),
        "export class User {\n    id: string;\n    name?: string | null;\n    tags?: string[] | null;\n    friend?: User | null;\n}\n\n"
    );
    // Tokens point back to their source.
    match &generator.dts[1] {
        Piece::Token(token) => assert_eq!(token.span.start, 5),
        _ => panic!("expected a token"),
    }
}

#[test]
fn test_process_type_definitions() {
    let (document, count) = type_definition(
        "enum Color { RED GREEN } input Filter { name: String! limit: Int } interface Node { id: ID } scalar Date union Result = A | B type Skipped",
    );
    assert_eq!(count, 6);
    let mut generator = Generator::new();
    let none_fields = vec![];
    let none_inputs = vec![];
    let none_values = vec![];
    let none_members: Vec<NamedType> = vec![];
    let settings = vec![];
    for i in 0..count {
        let ty = nth(&document, i);
        match ty {
            TypeDefinition::EnumTypeDefinition(e) => {
                let values = &e.values_definition.as_ref().unwrap().definitions.0;
                generator.process_type_definition(ty, &settings, &none_fields, &none_inputs, values, &none_members);
            }
            TypeDefinition::InputObjectTypeDefinition(input) => {
                let fields = &input.fields_definition.as_ref().unwrap().definitions.0;
                generator.process_type_definition(ty, &settings, &none_fields, fields, &none_values, &none_members);
            }
            TypeDefinition::InterfaceTypeDefinition(interface) => {
                let fields = &interface.fields_definition.as_ref().unwrap().definitions.0;
                generator.process_type_definition(ty, &settings, fields, &none_inputs, &none_values, &none_members);
            }
            TypeDefinition::UnionTypeDefinition(union) => {
                let mut members = vec![];
                let member_types = union.member_types.as_ref().unwrap();
                if let litho::ast::types::Recoverable::Present(first) = &member_types.first {
                    members.push(NamedType(Name::new(&first.0 .0 .0.source)));
                }
                for (_, member) in &member_types.types.0 {
                    if let litho::ast::types::Recoverable::Present(member) = member {
                        members.push(NamedType(Name::new(&member.0 .0 .0.source)));
                    }
                }
                generator.process_type_definition(ty, &settings, &none_fields, &none_inputs, &none_values, &members);
            }
            TypeDefinition::ObjectTypeDefinition(_) => {
                let skip = vec![LithoExportTypescript { skip: true, prepend: None, rewrite: None }];
                generator.process_type_definition(ty, &skip, &none_fields, &none_inputs, &none_values, &none_members);
            }
            _ => {
                generator.process_type_definition(ty, &settings, &none_fields, &none_inputs, &none_values, &none_members);
            }
        }
    }
    assert_eq!(render(&generator.js), "exports.Color = {\n    RED: \"RED\",\n    GREEN: \"GREEN\",\n}\n\n");
    assert_eq!(
        render(&generator.dts),
        [
            "export enum Color {\n    RED = \"RED\",\n    GREEN = \"GREEN\",\n}\n\n",
            "export interface Filter {\n    name: string,\n    limit?: number,\n}\n\n",
            "export interface Node {\n    id?: string | null,\n}\n\n",
            "export type Date = any;\n\n",
            "export type Result = \n    | A\n    | B;\n\n",
        ]
        .join("")
    );
}

#[test]
fn test_write_type_and_prepend() {
    let (document, _) = type_definition("type T { a: [[Float]!]! b: Boolean }");
    let mut generator = Generator::new();
    generator.preprocess_export_directives(&vec![
        LithoExportTypescript { skip: false, prepend: Some(String::from("// generated\n")), rewrite: None },
        LithoExportTypescript { skip: false, prepend: None, rewrite: None },
    ]);
    match nth(&document, 0) {
        TypeDefinition::ObjectTypeDefinition(object) => {
            let fields = &object.fields_definition.as_ref().unwrap().definitions.0;
            for field in fields {
                if let litho::ast::types::Recoverable::Present(ty) = &field.0.ty {
                    generator.write_type(&ty.0);
                    generator.dts.push(Piece::Text(String::from(";")));
                }
            }
        }
        _ => panic!("expected an object type"),
    }
    assert_eq!(render(&generator.dts), "// generated\nnumber[][];boolean;");
    assert!(generator.js.is_empty());
}

#[test]
fn test_missing_name_exports_nothing() {
    let (document, _) = type_definition("scalar");
    let mut generator = Generator::new();
    generator.process_type_definition(nth(&document, 0), &vec![], &vec![], &vec![], &vec![], &vec![]);
    assert!(generator.dts.is_empty());
    let _unused: Vec<Shared<litho::ast::types::FieldDefinition>> = vec![];
}
