use proc_macro2::{Delimiter, TokenStream, TokenTree};
use swift_bridge_ir::bridged_type::shared_struct::struct_field::{
    separate_by_commas, NamedStructField, NormalizedStructField, NormalizedStructFieldAccessor,
    StructFields, UnnamedStructField,
};
use swift_bridge_ir::bridged_type::shared_struct::{SharedStruct, StructSwiftRepr};
use swift_bridge_ir::type_expr::{SourceSpan, TypeExpr};

fn path(ident: &str, line: usize) -> TypeExpr {
    TypeExpr::Path { ident: ident.to_string(), argument: None, span: SourceSpan { line, column: 4 } }
}

fn named(name: &str, ty: &str) -> NamedStructField {
    NamedStructField { name: name.to_string(), ty: path(ty, 1) }
}

fn unnamed(idx: usize, ty: &str) -> UnnamedStructField {
    UnnamedStructField { ty: path(ty, 1), idx }
}

fn tokens(text: &str) -> TokenStream {
    text.parse().unwrap()
}

/// The texts of the tokens of a stream, a group standing as its delimiters
/// round its own tokens.
fn flatten(stream: TokenStream) -> Vec<String> {
    let mut out = Vec::new();
    for tree in stream {
        match tree {
            TokenTree::Group(group) => {
                let (open, close) = match group.delimiter() {
                    Delimiter::Parenthesis => ("(", ")"),
                    Delimiter::Brace => ("{", "}"),
                    Delimiter::Bracket => ("[", "]"),
                    Delimiter::None => ("", ""),
                };
                out.push(open.to_string());
                out.extend(flatten(group.stream()));
                out.push(close.to_string());
            }
            other => out.push(other.to_string()),
        }
    }
    out
}

#[test]
fn is_empty_of_each_layout() {
    assert!(StructFields::Unit.is_empty());
    assert!(StructFields::Named(vec![]).is_empty());
    assert!(StructFields::Unnamed(vec![]).is_empty());
    assert!(!StructFields::Named(vec![named("a", "u8")]).is_empty());
    assert!(!StructFields::Unnamed(vec![unnamed(0, "u8")]).is_empty());
}

#[test]
fn normalized_fields_of_named_struct() {
    let fields = StructFields::Named(vec![named("first", "u8"), named("second", "String")]);
    let normalized = fields.normalized_fields();
    assert_eq!(
        normalized,
        vec![
            NormalizedStructField {
                accessor: NormalizedStructFieldAccessor::Named("first".to_string()),
                ty: path("u8", 1),
            },
            NormalizedStructField {
                accessor: NormalizedStructFieldAccessor::Named("second".to_string()),
                ty: path("String", 1),
            },
        ]
    );
}

#[test]
fn normalized_fields_of_tuple_struct() {
    let fields = StructFields::Unnamed(vec![unnamed(0, "u8"), unnamed(1, "bool")]);
    let normalized = fields.normalized_fields();
    assert_eq!(normalized.len(), 2);
    assert_eq!(normalized[0].accessor, NormalizedStructFieldAccessor::Unnamed(0));
    assert_eq!(normalized[1].accessor, NormalizedStructFieldAccessor::Unnamed(1));
    assert_eq!(normalized[1].ty, path("bool", 1));
}

#[test]
fn normalized_fields_of_unit_struct() {
    assert_eq!(StructFields::Unit.normalized_fields(), vec![]);
}

#[test]
fn unnamed_struct_with_two_fields_has_accessors_0_and_1() {
    let fields = StructFields::Unnamed(vec![unnamed(0, "u8"), unnamed(1, "u16")]);
    let names: Vec<String> = fields
        .normalized_fields()
        .iter()
        .map(|field| field.accessor.swift_name_string())
        .collect();
    assert_eq!(names, vec!["_0".to_string(), "_1".to_string()]);
}

#[test]
fn unnamed_field_name_is_underscore_and_position() {
    assert_eq!(unnamed(0, "u8").swift_name_string(), "_0");
    assert_eq!(unnamed(9, "u8").swift_name_string(), "_9");
    assert_eq!(unnamed(10, "u8").swift_name_string(), "_10");
    assert_eq!(unnamed(4096, "u8").swift_name_string(), "_4096");
}

#[test]
fn named_field_keeps_its_name() {
    assert_eq!(named("some_field", "u8").swift_name_string(), "some_field");
    assert_eq!(
        NormalizedStructFieldAccessor::Named("other".to_string()).swift_name_string(),
        "other"
    );
}

#[test]
fn field_equality_goes_by_name_and_written_type() {
    let here = NamedStructField { name: "a".to_string(), ty: path("u8", 1) };
    let there = NamedStructField { name: "a".to_string(), ty: path("u8", 20) };
    assert!(here == there);
    assert!(here != named("b", "u8"));
    assert!(here != named("a", "u16"));
    assert!(unnamed(0, "u8") == UnnamedStructField { ty: path("u8", 7), idx: 0 });
    assert!(unnamed(0, "u8") != unnamed(1, "u8"));
    assert!(unnamed(0, "u8") != unnamed(0, "i8"));
}

#[test]
fn wrap_named_fields_in_braces() {
    let fields = StructFields::Named(vec![named("a", "u8"), named("b", "u16")]);
    let wrapped = fields.wrap_declaration_fields(&[tokens("a : u8"), tokens("b : u16")]);
    assert_eq!(wrapped.to_string(), "{ a : u8 , b : u16 }");
    assert_eq!(
        flatten(wrapped),
        vec!["{", "a", ":", "u8", ",", "b", ":", "u16", "}"]
    );
}

#[test]
fn wrap_unnamed_fields_in_parentheses_with_semicolon() {
    let fields = StructFields::Unnamed(vec![unnamed(0, "u8"), unnamed(1, "u16")]);
    let wrapped = fields.wrap_declaration_fields(&[tokens("u8"), tokens("u16")]);
    assert_eq!(wrapped.to_string(), tokens("(u8 , u16) ;").to_string());
    assert_eq!(flatten(wrapped), vec!["(", "u8", ",", "u16", ")", ";"]);
}

#[test]
fn wrap_unit_struct_is_a_semicolon() {
    let wrapped = StructFields::Unit.wrap_declaration_fields(&[]);
    assert_eq!(wrapped.to_string(), ";");
    assert_eq!(flatten(wrapped), vec![";"]);
}

#[test]
fn wrap_goes_by_the_layout_not_by_the_tokens() {
    let wrapped = StructFields::Unit.wrap_declaration_fields(&[tokens("a : u8")]);
    assert_eq!(flatten(wrapped), vec![";"]);
    let wrapped = StructFields::Named(vec![]).wrap_declaration_fields(&[]);
    assert_eq!(flatten(wrapped), vec!["{", "}"]);
    let wrapped = StructFields::Unnamed(vec![]).wrap_declaration_fields(&[]);
    assert_eq!(flatten(wrapped), vec!["(", ")", ";"]);
}

#[test]
fn wrap_keeps_groups_inside_the_fields() {
    let fields = StructFields::Named(vec![named("a", "Vec")]);
    let field = tokens("pub a : Vec < (u8 , u8) >");
    let wrapped = fields.wrap_declaration_fields(&[field.clone()]);
    let mut expected = vec!["{".to_string()];
    expected.extend(flatten(field));
    expected.push("}".to_string());
    assert_eq!(flatten(wrapped), expected);
}

#[test]
fn separate_by_commas_puts_a_comma_between_neighbours() {
    assert_eq!(flatten(separate_by_commas(&[])), Vec::<String>::new());
    assert_eq!(flatten(separate_by_commas(&[tokens("a")])), vec!["a"]);
    assert_eq!(
        flatten(separate_by_commas(&[tokens("a"), tokens("b c"), tokens("d")])),
        vec!["a", ",", "b", "c", ",", "d"]
    );
}

#[test]
fn separate_by_commas_leaves_its_input_alone() {
    let items = [tokens("a : u8"), tokens("b : u16")];
    let _ = separate_by_commas(&items);
    assert_eq!(items[0].to_string(), "a : u8");
    assert_eq!(items[1].to_string(), "b : u16");
}

#[test]
fn shared_struct_swift_name() {
    let mut shared = SharedStruct {
        name: "Foo".to_string(),
        swift_repr: StructSwiftRepr::Structure,
        fields: StructFields::Unit,
        swift_name: None,
        span: SourceSpan { line: 1, column: 0 },
    };
    assert_eq!(shared.swift_name_string(), "Foo");
    shared.swift_name = Some("Renamed".to_string());
    assert_eq!(shared.swift_name_string(), "Renamed");
    assert_eq!(shared.swift_name(), "Renamed");
}

#[test]
fn unnamed_numbers_the_fields_by_position() {
    let fields = StructFields::unnamed(vec![path("u8", 1), path("bool", 2), path("Foo", 3)]);
    assert_eq!(
        fields,
        StructFields::Unnamed(vec![unnamed(0, "u8"), unnamed(1, "bool"), unnamed(2, "Foo")])
    );
    assert_eq!(StructFields::unnamed(vec![]), StructFields::Unnamed(vec![]));
    let names: Vec<String> = fields
        .normalized_fields()
        .iter()
        .map(|field| field.accessor.swift_name_string())
        .collect();
    assert_eq!(names, vec!["_0", "_1", "_2"]);
}
