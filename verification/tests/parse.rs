use swift_bridge_ir::bridged_type::shared_struct::struct_field::StructFields;
use swift_bridge_ir::bridged_type::shared_struct::{SharedStruct, StructSwiftRepr};
use swift_bridge_ir::parse::{
    HostLang, OpaqueForeignTypeDeclaration, SharedTypeDeclaration, TypeDeclaration,
    TypeDeclarations,
};
use swift_bridge_ir::type_expr::SourceSpan;

fn at(line: usize) -> SourceSpan {
    SourceSpan { line, column: 0 }
}

fn opaque(host_lang: HostLang, ident: &str, line: usize) -> OpaqueForeignTypeDeclaration {
    OpaqueForeignTypeDeclaration {
        ident: ident.to_string(),
        host_lang,
        free_link_name_override: None,
        span: at(line),
    }
}

fn shared(name: &str) -> TypeDeclaration {
    TypeDeclaration::Shared(SharedTypeDeclaration::Struct(SharedStruct {
        name: name.to_string(),
        swift_repr: StructSwiftRepr::Structure,
        fields: StructFields::Unit,
        swift_name: None,
        span: at(1),
    }))
}

#[test]
fn host_lang_tells_its_side() {
    assert!(HostLang::Rust.is_rust());
    assert!(!HostLang::Rust.is_swift());
    assert!(HostLang::Swift.is_swift());
    assert!(!HostLang::Swift.is_rust());
}

#[test]
fn new_table_is_empty() {
    let types = TypeDeclarations::new();
    assert_eq!(types.len(), 0);
    assert!(types.types().is_empty());
    assert_eq!(types.get("Foo"), None);
}

#[test]
fn insert_keeps_declared_order() {
    let mut types = TypeDeclarations::new();
    assert!(types.insert(TypeDeclaration::Opaque(opaque(HostLang::Rust, "B", 1))));
    assert!(types.insert(shared("A")));
    assert!(types.insert(TypeDeclaration::Opaque(opaque(HostLang::Swift, "C", 3))));
    assert_eq!(types.len(), 3);
    let names: Vec<&str> = types.types().iter().map(|ty| ty.name().as_str()).collect();
    assert_eq!(names, vec!["B", "A", "C"]);
}

#[test]
fn insert_refuses_a_taken_identifier() {
    let mut types = TypeDeclarations::new();
    assert!(types.insert(TypeDeclaration::Opaque(opaque(HostLang::Rust, "Foo", 1))));
    assert!(!types.insert(TypeDeclaration::Opaque(opaque(HostLang::Swift, "Foo", 2))));
    assert!(!types.insert(shared("Foo")));
    assert_eq!(types.len(), 1);
    assert_eq!(
        types.get("Foo"),
        Some(&TypeDeclaration::Opaque(opaque(HostLang::Rust, "Foo", 1)))
    );
}

#[test]
fn get_finds_each_declaration_under_its_own_name() {
    let mut types = TypeDeclarations::new();
    assert!(types.insert(TypeDeclaration::Opaque(opaque(HostLang::Rust, "Foo", 1))));
    assert!(types.insert(shared("Bar")));
    assert_eq!(types.get("Bar"), Some(&shared("Bar")));
    assert_eq!(
        types.get("Foo"),
        Some(&TypeDeclaration::Opaque(opaque(HostLang::Rust, "Foo", 1)))
    );
    assert_eq!(types.get("Fo"), None);
    assert_eq!(types.get("foo"), None);
}

#[test]
fn free_names_of_an_opaque_type() {
    let foo = opaque(HostLang::Swift, "Foo", 1);
    assert_eq!(foo.free_link_name("__swift_bridge__"), "__swift_bridge__$Foo$_free");
    assert_eq!(foo.free_func_name("__swift_bridge__"), "__swift_bridge__Foo__free");
    assert_eq!(foo.free_link_name("pre"), "pre$Foo$_free");
    assert_eq!(foo.ty_name_ident(), "Foo");
}

#[test]
fn free_link_name_override_replaces_the_derived_symbol() {
    let mut foo = opaque(HostLang::Rust, "Foo", 1);
    foo.free_link_name_override = Some("custom_free".to_string());
    assert_eq!(foo.free_link_name("__swift_bridge__"), "custom_free");
    assert_eq!(foo.free_func_name("__swift_bridge__"), "__swift_bridge__Foo__free");
}
