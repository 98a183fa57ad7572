use swift_bridge_ir::bridged_type::shared_struct::struct_field::StructFields;
use swift_bridge_ir::bridged_type::shared_struct::{SharedStruct, StructSwiftRepr};
use swift_bridge_ir::bridged_type::{BridgedType, Numeric, Ownership, TypePosition};
use swift_bridge_ir::errors::{CodegenError, CodegenErrorKind};
use swift_bridge_ir::parse::{
    HostLang, OpaqueForeignTypeDeclaration, SharedTypeDeclaration, TypeDeclaration,
    TypeDeclarations,
};
use swift_bridge_ir::type_expr::{SourceSpan, TypeExpr};

fn at(line: usize) -> SourceSpan {
    SourceSpan { line, column: 8 }
}

fn path(ident: &str) -> TypeExpr {
    TypeExpr::Path { ident: ident.to_string(), argument: None, span: at(1) }
}

fn path_at(ident: &str, line: usize) -> TypeExpr {
    TypeExpr::Path { ident: ident.to_string(), argument: None, span: at(line) }
}

fn generic(ident: &str, argument: TypeExpr, line: usize) -> TypeExpr {
    TypeExpr::Path {
        ident: ident.to_string(),
        argument: Some(Box::new(argument)),
        span: at(line),
    }
}

fn reference(mutable: bool, elem: TypeExpr, line: usize) -> TypeExpr {
    TypeExpr::Reference { mutable, elem: Box::new(elem), span: at(line) }
}

fn slice(elem: TypeExpr, line: usize) -> TypeExpr {
    TypeExpr::Slice { elem: Box::new(elem), span: at(line) }
}

fn pointer(mutable: bool, pointee: TypeExpr) -> TypeExpr {
    TypeExpr::Pointer { mutable, pointee: Box::new(pointee), span: at(1) }
}

fn unclassifiable(line: usize) -> CodegenError {
    CodegenError { kind: CodegenErrorKind::UnclassifiableType, span: at(line) }
}

fn table() -> TypeDeclarations {
    let mut types = TypeDeclarations::new();
    assert!(types.insert(TypeDeclaration::Opaque(OpaqueForeignTypeDeclaration {
        ident: "RustType".to_string(),
        host_lang: HostLang::Rust,
        free_link_name_override: None,
        span: at(1),
    })));
    assert!(types.insert(TypeDeclaration::Opaque(OpaqueForeignTypeDeclaration {
        ident: "SwiftType".to_string(),
        host_lang: HostLang::Swift,
        free_link_name_override: None,
        span: at(2),
    })));
    assert!(types.insert(TypeDeclaration::Shared(SharedTypeDeclaration::Struct(SharedStruct {
        name: "Shared".to_string(),
        swift_repr: StructSwiftRepr::Structure,
        fields: StructFields::Unit,
        swift_name: Some("SharedInSwift".to_string()),
        span: at(3),
    }))));
    types
}

fn classify(ty: TypeExpr) -> Result<BridgedType, CodegenError> {
    BridgedType::new_with_type(&ty, &table())
}

fn rust_handle(ownership: Ownership) -> BridgedType {
    BridgedType::OpaqueHandle {
        name: "RustType".to_string(),
        host_lang: HostLang::Rust,
        ownership,
    }
}

fn swift_handle(ownership: Ownership) -> BridgedType {
    BridgedType::OpaqueHandle {
        name: "SwiftType".to_string(),
        host_lang: HostLang::Swift,
        ownership,
    }
}

fn shared() -> BridgedType {
    BridgedType::SharedValue { name: "Shared".to_string(), swift_name: "SharedInSwift".to_string() }
}

fn boxed(ty: BridgedType) -> Box<BridgedType> {
    Box::new(ty)
}

#[test]
fn classify_unit_and_missing_return_type_as_void() {
    assert_eq!(classify(TypeExpr::Unit { span: at(1) }), Ok(BridgedType::Void));
    assert_eq!(BridgedType::new_with_return_type(&None, &table()), Ok(BridgedType::Void));
    assert_eq!(
        BridgedType::new_with_return_type(&Some(path("u8")), &table()),
        Ok(BridgedType::Numeric(Numeric::U8))
    );
}

#[test]
fn classify_every_primitive() {
    let numerics = [
        ("u8", Numeric::U8),
        ("i8", Numeric::I8),
        ("u16", Numeric::U16),
        ("i16", Numeric::I16),
        ("u32", Numeric::U32),
        ("i32", Numeric::I32),
        ("u64", Numeric::U64),
        ("i64", Numeric::I64),
        ("usize", Numeric::Usize),
        ("isize", Numeric::Isize),
        ("f32", Numeric::F32),
        ("f64", Numeric::F64),
    ];
    for (ident, numeric) in numerics {
        assert_eq!(classify(path(ident)), Ok(BridgedType::Numeric(numeric)));
        assert_eq!(Numeric::named(ident), Some(numeric));
    }
    assert_eq!(Numeric::named("u128"), None);
    assert_eq!(classify(path("bool")), Ok(BridgedType::Bool));
}

#[test]
fn classify_strings() {
    assert_eq!(classify(path("String")), Ok(BridgedType::OwnedString));
    assert_eq!(classify(reference(false, path("str"), 1)), Ok(BridgedType::StringRef));
    assert_eq!(classify(reference(false, path("String"), 1)), Ok(BridgedType::StringRef));
    assert_eq!(classify(path_at("str", 5)), Err(unclassifiable(5)));
}

#[test]
fn classify_vectors_and_slices() {
    assert_eq!(
        classify(generic("Vec", path("u8"), 1)),
        Ok(BridgedType::OwnedVector(boxed(BridgedType::Numeric(Numeric::U8))))
    );
    assert_eq!(
        classify(generic("Vec", path("String"), 1)),
        Ok(BridgedType::OwnedVector(boxed(BridgedType::OwnedString)))
    );
    assert_eq!(
        classify(reference(false, slice(path("u8"), 1), 1)),
        Ok(BridgedType::SliceRef(boxed(BridgedType::Numeric(Numeric::U8))))
    );
    assert_eq!(
        classify(reference(false, generic("Vec", path("i32"), 1), 1)),
        Ok(BridgedType::SliceRef(boxed(BridgedType::Numeric(Numeric::I32))))
    );
    assert_eq!(classify(slice(path("u8"), 9)), Err(unclassifiable(9)));
}

#[test]
fn classify_declared_types() {
    assert_eq!(classify(path("RustType")), Ok(rust_handle(Ownership::Owned)));
    assert_eq!(classify(path("SwiftType")), Ok(swift_handle(Ownership::Owned)));
    assert_eq!(classify(path("Shared")), Ok(shared()));
}

#[test]
fn classify_references_to_handles_by_mutability() {
    assert_eq!(classify(reference(false, path("RustType"), 1)), Ok(rust_handle(Ownership::Ref)));
    assert_eq!(classify(reference(true, path("RustType"), 1)), Ok(rust_handle(Ownership::RefMut)));
    assert_eq!(classify(reference(true, path("SwiftType"), 1)), Ok(swift_handle(Ownership::RefMut)));
}

#[test]
fn classify_rejects_references_to_anything_else() {
    assert_eq!(classify(reference(false, path("u8"), 4)), Err(unclassifiable(4)));
    assert_eq!(classify(reference(false, path("Shared"), 4)), Err(unclassifiable(4)));
    assert_eq!(
        classify(reference(false, reference(false, path("RustType"), 5), 4)),
        Err(unclassifiable(4))
    );
}

#[test]
fn classify_reports_the_innermost_offending_expression() {
    assert_eq!(classify(path_at("Nowhere", 12)), Err(unclassifiable(12)));
    assert_eq!(classify(generic("Vec", path_at("Nowhere", 13), 12)), Err(unclassifiable(13)));
    assert_eq!(
        classify(reference(false, slice(path_at("Nowhere", 14), 13), 12)),
        Err(unclassifiable(14))
    );
    assert_eq!(classify(reference(false, path_at("Nowhere", 15), 12)), Err(unclassifiable(15)));
    assert_eq!(classify(generic("Result", path("u8"), 16)), Err(unclassifiable(16)));
    assert_eq!(classify(TypeExpr::Unsupported { span: at(17) }), Err(unclassifiable(17)));
}

#[test]
fn classify_optionals_with_flag_and_with_null() {
    assert_eq!(
        classify(generic("Option", path("u8"), 1)),
        Ok(BridgedType::Optional(boxed(BridgedType::Numeric(Numeric::U8))))
    );
    assert_eq!(
        classify(generic("Option", path("bool"), 1)),
        Ok(BridgedType::Optional(boxed(BridgedType::Bool)))
    );
    assert_eq!(
        classify(generic("Option", path("String"), 1)),
        Ok(BridgedType::Optional(boxed(BridgedType::OwnedString)))
    );
    assert_eq!(
        classify(generic("Option", path("RustType"), 1)),
        Ok(BridgedType::Optional(boxed(rust_handle(Ownership::Owned))))
    );
}

#[test]
fn classify_rejects_optionals_without_a_boundary_form() {
    assert_eq!(classify(generic("Option", path("Shared"), 7)), Err(unclassifiable(7)));
    assert_eq!(classify(generic("Option", path("SwiftType"), 7)), Err(unclassifiable(7)));
    assert_eq!(
        classify(generic("Option", generic("Option", path("u8"), 8), 7)),
        Err(unclassifiable(7))
    );
    assert_eq!(classify(generic("Option", path_at("Nowhere", 8), 7)), Err(unclassifiable(8)));
}

#[test]
fn classify_pointers() {
    assert_eq!(
        classify(pointer(false, path("c_void"))),
        Ok(BridgedType::RawPointer { mutable: false, pointee: None })
    );
    assert_eq!(
        classify(pointer(true, path("c_void"))),
        Ok(BridgedType::RawPointer { mutable: true, pointee: None })
    );
    assert_eq!(
        classify(pointer(false, path("u8"))),
        Ok(BridgedType::RawPointer {
            mutable: false,
            pointee: Some(boxed(BridgedType::Numeric(Numeric::U8))),
        })
    );
}

#[test]
fn built_in_names_come_before_declared_ones() {
    let mut types = TypeDeclarations::new();
    assert!(types.insert(TypeDeclaration::Opaque(OpaqueForeignTypeDeclaration {
        ident: "u8".to_string(),
        host_lang: HostLang::Rust,
        free_link_name_override: None,
        span: at(1),
    })));
    assert_eq!(
        BridgedType::new_with_type(&path("u8"), &types),
        Ok(BridgedType::Numeric(Numeric::U8))
    );
}

#[test]
fn classification_does_not_depend_on_the_place() {
    assert_eq!(classify(path_at("RustType", 1)), classify(path_at("RustType", 99)));
}

#[test]
fn swift_type_of_primitives() {
    let cases = [
        (Numeric::U8, "UInt8"),
        (Numeric::I8, "Int8"),
        (Numeric::U16, "UInt16"),
        (Numeric::I16, "Int16"),
        (Numeric::U32, "UInt32"),
        (Numeric::I32, "Int32"),
        (Numeric::U64, "UInt64"),
        (Numeric::I64, "Int64"),
        (Numeric::Usize, "UInt"),
        (Numeric::Isize, "Int"),
        (Numeric::F32, "Float"),
        (Numeric::F64, "Double"),
    ];
    for (numeric, swift) in cases {
        for host_lang in [HostLang::Rust, HostLang::Swift] {
            assert_eq!(
                BridgedType::Numeric(numeric).to_swift_type(host_lang, TypePosition::FnArg),
                swift
            );
        }
    }
    assert_eq!(BridgedType::Bool.to_swift_type(HostLang::Rust, TypePosition::FnReturn), "Bool");
    assert_eq!(BridgedType::Void.to_swift_type(HostLang::Rust, TypePosition::FnReturn), "()");
}

#[test]
fn swift_type_by_host_and_position() {
    let arg = TypePosition::FnArg;
    let ret = TypePosition::FnReturn;
    assert_eq!(BridgedType::OwnedString.to_swift_type(HostLang::Rust, ret), "RustString");
    assert_eq!(
        BridgedType::OwnedString.to_swift_type(HostLang::Swift, arg),
        "UnsafeMutableRawPointer"
    );
    assert_eq!(BridgedType::StringRef.to_swift_type(HostLang::Rust, arg), "String");
    assert_eq!(BridgedType::StringRef.to_swift_type(HostLang::Rust, ret), "RustStr");
    assert_eq!(BridgedType::StringRef.to_swift_type(HostLang::Swift, arg), "RustStr");
    let bytes = BridgedType::SliceRef(boxed(BridgedType::Numeric(Numeric::U8)));
    assert_eq!(bytes.to_swift_type(HostLang::Rust, ret), "UnsafeBufferPointer<UInt8>");
    assert_eq!(bytes.to_swift_type(HostLang::Swift, ret), "__private__FfiSlice");
    let strings = BridgedType::OwnedVector(boxed(BridgedType::OwnedString));
    assert_eq!(strings.to_swift_type(HostLang::Rust, ret), "RustVec<RustString>");
    assert_eq!(strings.to_swift_type(HostLang::Swift, ret), "UnsafeMutableRawPointer");
    assert_eq!(shared().to_swift_type(HostLang::Rust, arg), "SharedInSwift");
    assert_eq!(shared().to_swift_type(HostLang::Swift, arg), "SharedInSwift");
}

#[test]
fn swift_type_of_pointers() {
    let arg = TypePosition::FnArg;
    let void = |mutable| BridgedType::RawPointer { mutable, pointee: None };
    assert_eq!(void(false).to_swift_type(HostLang::Rust, arg), "UnsafeRawPointer");
    assert_eq!(void(true).to_swift_type(HostLang::Rust, arg), "UnsafeMutableRawPointer");
    let typed = |mutable| BridgedType::RawPointer {
        mutable,
        pointee: Some(boxed(BridgedType::Numeric(Numeric::U8))),
    };
    assert_eq!(typed(false).to_swift_type(HostLang::Rust, arg), "UnsafePointer<UInt8>");
    assert_eq!(typed(true).to_swift_type(HostLang::Rust, arg), "UnsafeMutablePointer<UInt8>");
}

#[test]
fn swift_type_of_handles_names_the_tier() {
    let arg = TypePosition::FnArg;
    assert_eq!(rust_handle(Ownership::Owned).to_swift_type(HostLang::Rust, arg), "RustType");
    assert_eq!(rust_handle(Ownership::Ref).to_swift_type(HostLang::Rust, arg), "RustTypeRef");
    assert_eq!(rust_handle(Ownership::RefMut).to_swift_type(HostLang::Rust, arg), "RustTypeRefMut");
    assert_eq!(
        rust_handle(Ownership::Ref).to_swift_type(HostLang::Swift, arg),
        "UnsafeMutableRawPointer"
    );
    assert_eq!(swift_handle(Ownership::Owned).to_swift_type(HostLang::Rust, arg), "SwiftType");
    assert_eq!(
        swift_handle(Ownership::Owned).to_swift_type(HostLang::Swift, arg),
        "__private__PointerToSwiftType"
    );
}

#[test]
fn swift_type_of_optionals() {
    let ret = TypePosition::FnReturn;
    let flagged = BridgedType::Optional(boxed(BridgedType::Numeric(Numeric::U8)));
    assert_eq!(flagged.to_swift_type(HostLang::Rust, ret), "Optional<UInt8>");
    assert_eq!(flagged.to_swift_type(HostLang::Swift, ret), "__private__OptionU8");
    let boolean = BridgedType::Optional(boxed(BridgedType::Bool));
    assert_eq!(boolean.to_swift_type(HostLang::Swift, ret), "__private__OptionBool");
    let nullable = BridgedType::Optional(boxed(BridgedType::OwnedString));
    assert_eq!(nullable.to_swift_type(HostLang::Rust, ret), "Optional<RustString>");
    assert_eq!(nullable.to_swift_type(HostLang::Swift, ret), "Optional<UnsafeMutableRawPointer>");
}

#[test]
fn plain_values_cross_unchanged_both_ways() {
    let plain = [
        BridgedType::Void,
        BridgedType::Numeric(Numeric::I64),
        BridgedType::Bool,
        shared(),
    ];
    for ty in plain {
        for host_lang in [HostLang::Rust, HostLang::Swift] {
            for position in [TypePosition::FnArg, TypePosition::FnReturn] {
                let there = ty.convert_swift_expression_to_ffi_compatible(host_lang, position, "x");
                assert_eq!(there, "x");
                assert_eq!(ty.convert_ffi_value_to_swift_value(host_lang, position, &there), "x");
            }
        }
    }
}

#[test]
fn owned_string_and_vector_cross_behind_a_pointer() {
    let ret = TypePosition::FnReturn;
    let arg = TypePosition::FnArg;
    assert_eq!(
        BridgedType::OwnedString.convert_ffi_value_to_swift_value(HostLang::Rust, ret, "héllo()"),
        "RustString(ptr: héllo())"
    );
    assert_eq!(
        BridgedType::OwnedString.convert_swift_expression_to_ffi_compatible(
            HostLang::Rust,
            arg,
            "name"
        ),
        "{ let rustString = name.intoRustString(); rustString.isOwned = false; return rustString.ptr }()"
    );
    let vector = BridgedType::OwnedVector(boxed(BridgedType::Numeric(Numeric::U8)));
    assert_eq!(
        vector.convert_ffi_value_to_swift_value(HostLang::Rust, ret, "call()"),
        "RustVec(ptr: call())"
    );
    assert_eq!(
        vector.convert_swift_expression_to_ffi_compatible(HostLang::Rust, arg, "items"),
        "{ let val = items; val.isOwned = false; return val.ptr }()"
    );
}

#[test]
fn borrowed_string_and_slice_cross_as_pointer_and_length() {
    let ret = TypePosition::FnReturn;
    let arg = TypePosition::FnArg;
    assert_eq!(
        BridgedType::StringRef.convert_swift_expression_to_ffi_compatible(
            HostLang::Rust,
            arg,
            "name"
        ),
        "RustStr(start: UnsafeMutableRawPointer(mutating: namePtr.baseAddress!).assumingMemoryBound(to: UInt8.self), len: UInt(namePtr.count - 1))"
    );
    assert_eq!(
        BridgedType::StringRef.convert_swift_expression_to_ffi_compatible(
            HostLang::Swift,
            ret,
            "name()"
        ),
        "name()"
    );
    assert_eq!(
        BridgedType::StringRef.convert_ffi_value_to_swift_value(HostLang::Rust, ret, "call()"),
        "call()"
    );
    let bytes = BridgedType::SliceRef(boxed(BridgedType::Numeric(Numeric::U8)));
    assert_eq!(
        bytes.convert_swift_expression_to_ffi_compatible(HostLang::Swift, ret, "foo()"),
        "foo().toFfiSlice()"
    );
    assert_eq!(
        bytes.convert_ffi_value_to_swift_value(HostLang::Rust, ret, "call()"),
        "let slice = call(); return UnsafeBufferPointer(start: slice.start.assumingMemoryBound(to: UInt8.self), count: Int(slice.len));"
    );
    assert_eq!(bytes.convert_ffi_value_to_swift_value(HostLang::Swift, arg, "bytes"), "bytes");
}

#[test]
fn optional_with_presence_flag() {
    let flagged = BridgedType::Optional(boxed(BridgedType::Numeric(Numeric::U32)));
    assert_eq!(
        flagged.convert_ffi_value_to_swift_value(HostLang::Rust, TypePosition::FnReturn, "call()"),
        "{ let val = call(); if val.is_some { return val.val } else { return nil } }()"
    );
    assert_eq!(
        flagged.convert_swift_expression_to_ffi_compatible(
            HostLang::Rust,
            TypePosition::FnArg,
            "arg"
        ),
        "{ let val = arg; return __private__OptionU32(val: val ?? 0, is_some: val != nil); }()"
    );
    let boolean = BridgedType::Optional(boxed(BridgedType::Bool));
    assert_eq!(
        boolean.convert_swift_expression_to_ffi_compatible(
            HostLang::Rust,
            TypePosition::FnArg,
            "arg"
        ),
        "{ let val = arg; return __private__OptionBool(val: val ?? false, is_some: val != nil); }()"
    );
}

#[test]
fn optional_with_null_for_absence() {
    let nullable = BridgedType::Optional(boxed(BridgedType::OwnedString));
    assert_eq!(
        nullable.convert_ffi_value_to_swift_value(HostLang::Rust, TypePosition::FnReturn, "call()"),
        "{ let val = call(); if val != nil { return RustString(ptr: val!) } else { return nil } }()"
    );
    assert_eq!(
        nullable.convert_swift_expression_to_ffi_compatible(
            HostLang::Rust,
            TypePosition::FnArg,
            "arg"
        ),
        "{ if let val = arg { return { let rustString = val.intoRustString(); rustString.isOwned = false; return rustString.ptr }() } else { return nil } }()"
    );
    assert!(BridgedType::OwnedString.has_null_sentinel());
    assert!(rust_handle(Ownership::Owned).has_null_sentinel());
    assert!(!swift_handle(Ownership::Owned).has_null_sentinel());
    assert!(!BridgedType::Bool.has_null_sentinel());
    assert!(BridgedType::Bool.fits_in_optional());
    assert!(!shared().fits_in_optional());
}

#[test]
fn const_pointers_are_cast_on_the_way_to_and_from_rust() {
    let void = BridgedType::RawPointer { mutable: false, pointee: None };
    assert_eq!(
        void.convert_swift_expression_to_ffi_compatible(HostLang::Rust, TypePosition::FnArg, "p"),
        "UnsafeMutableRawPointer(mutating: p)"
    );
    assert_eq!(
        void.convert_ffi_value_to_swift_value(HostLang::Rust, TypePosition::FnReturn, "call()"),
        "UnsafeRawPointer(call()!)"
    );
    assert_eq!(
        void.convert_ffi_value_to_swift_value(HostLang::Swift, TypePosition::FnArg, "p"),
        "p"
    );
    let typed = BridgedType::RawPointer {
        mutable: false,
        pointee: Some(boxed(BridgedType::Numeric(Numeric::U8))),
    };
    assert_eq!(
        typed.convert_swift_expression_to_ffi_compatible(HostLang::Rust, TypePosition::FnArg, "p"),
        "UnsafeMutablePointer(mutating: p)"
    );
    assert_eq!(
        typed.convert_ffi_value_to_swift_value(HostLang::Rust, TypePosition::FnReturn, "call()"),
        "UnsafePointer(call()!)"
    );
    let mutable = BridgedType::RawPointer { mutable: true, pointee: None };
    assert_eq!(
        mutable.convert_swift_expression_to_ffi_compatible(
            HostLang::Rust,
            TypePosition::FnArg,
            "p"
        ),
        "p"
    );
    assert_eq!(
        mutable.convert_ffi_value_to_swift_value(HostLang::Rust, TypePosition::FnReturn, "call()"),
        "call()"
    );
}

#[test]
fn owned_rust_handle_gives_up_the_value_when_handed_to_rust() {
    assert_eq!(
        rust_handle(Ownership::Owned).convert_swift_expression_to_ffi_compatible(
            HostLang::Rust,
            TypePosition::FnArg,
            "arg"
        ),
        "{ let val = arg; val.isOwned = false; return val.ptr }()"
    );
    assert_eq!(
        rust_handle(Ownership::Ref).convert_swift_expression_to_ffi_compatible(
            HostLang::Rust,
            TypePosition::FnArg,
            "arg"
        ),
        "arg.ptr"
    );
    assert_eq!(
        rust_handle(Ownership::RefMut).convert_swift_expression_to_ffi_compatible(
            HostLang::Rust,
            TypePosition::FnArg,
            "arg"
        ),
        "arg.ptr"
    );
}

#[test]
fn rust_handle_arrives_owned_or_borrowed() {
    assert_eq!(
        rust_handle(Ownership::Owned).convert_ffi_value_to_swift_value(
            HostLang::Rust,
            TypePosition::FnReturn,
            "call()"
        ),
        "RustType(ptr: call(), isOwned: true)"
    );
    assert_eq!(
        rust_handle(Ownership::Ref).convert_ffi_value_to_swift_value(
            HostLang::Rust,
            TypePosition::FnReturn,
            "call()"
        ),
        "RustType(ptr: call(), isOwned: false)"
    );
}

#[test]
fn swift_handle_is_retained_only_when_owned() {
    assert_eq!(
        swift_handle(Ownership::Owned).convert_swift_expression_to_ffi_compatible(
            HostLang::Rust,
            TypePosition::FnArg,
            "arg"
        ),
        "__private__PointerToSwiftType(ptr: Unmanaged.passRetained(arg).toOpaque())"
    );
    assert_eq!(
        swift_handle(Ownership::Ref).convert_swift_expression_to_ffi_compatible(
            HostLang::Rust,
            TypePosition::FnArg,
            "arg"
        ),
        "__private__PointerToSwiftType(ptr: Unmanaged.passUnretained(arg).toOpaque())"
    );
    assert_eq!(
        swift_handle(Ownership::Owned).convert_ffi_value_to_swift_value(
            HostLang::Rust,
            TypePosition::FnReturn,
            "call()"
        ),
        "Unmanaged<SwiftType>.fromOpaque(call().ptr).takeRetainedValue()"
    );
    assert_eq!(
        swift_handle(Ownership::RefMut).convert_ffi_value_to_swift_value(
            HostLang::Rust,
            TypePosition::FnReturn,
            "call()"
        ),
        "Unmanaged<SwiftType>.fromOpaque(call().ptr).takeUnretainedValue()"
    );
}

#[test]
fn clone_keeps_the_type() {
    let ty = BridgedType::Optional(boxed(BridgedType::OwnedVector(boxed(rust_handle(
        Ownership::Owned,
    )))));
    assert_eq!(ty.clone(), ty);
    let pointer = BridgedType::RawPointer { mutable: true, pointee: Some(boxed(shared())) };
    assert_eq!(pointer.clone(), pointer);
}

#[test]
fn type_expressions_compare_by_what_they_write() {
    assert!(path_at("u8", 1) == path_at("u8", 2));
    assert!(path("u8") != path("u16"));
    assert!(generic("Vec", path("u8"), 1) == generic("Vec", path_at("u8", 3), 2));
    assert!(generic("Vec", path("u8"), 1) != path("Vec"));
    assert!(reference(false, path("Foo"), 1) != reference(true, path("Foo"), 1));
    assert!(pointer(false, path("u8")) != pointer(true, path("u8")));
    assert!(slice(path("u8"), 1) == slice(path("u8"), 8));
    assert!(TypeExpr::Unit { span: at(1) } != TypeExpr::Unsupported { span: at(1) });
    let nested = reference(true, slice(generic("Option", path("u8"), 1), 1), 1);
    assert!(nested.clone() == nested);
    assert_eq!(nested.clone().span(), at(1));
}

#[test]
fn error_messages() {
    assert_eq!(
        CodegenErrorKind::UnclassifiableType.message(),
        "type is not supported across the boundary"
    );
    assert_eq!(
        CodegenErrorKind::UnknownAssociatedType.message(),
        "associated type is not declared in this module"
    );
    assert_eq!(
        CodegenErrorKind::UnsupportedAssociatedType.message(),
        "functions associated to this type are not yet supported"
    );
    assert_eq!(
        CodegenErrorKind::UnsupportedStructRepr.message(),
        "class representation of shared structs is not yet supported"
    );
}

#[test]
fn error_report_names_the_place() {
    let error = CodegenError {
        kind: CodegenErrorKind::UnclassifiableType,
        span: SourceSpan { line: 12, column: 0 },
    };
    assert_eq!(error.report(), "12:0: type is not supported across the boundary");
    let error = CodegenError {
        kind: CodegenErrorKind::UnsupportedStructRepr,
        span: SourceSpan { line: 3, column: 47 },
    };
    assert_eq!(
        error.report(),
        "3:47: class representation of shared structs is not yet supported"
    );
}

#[test]
fn c_type_of_every_variant() {
    let prefix = "__swift_bridge__";
    let cases = [
        (Numeric::U8, "uint8_t"),
        (Numeric::I8, "int8_t"),
        (Numeric::U16, "uint16_t"),
        (Numeric::I16, "int16_t"),
        (Numeric::U32, "uint32_t"),
        (Numeric::I32, "int32_t"),
        (Numeric::U64, "uint64_t"),
        (Numeric::I64, "int64_t"),
        (Numeric::Usize, "uintptr_t"),
        (Numeric::Isize, "intptr_t"),
        (Numeric::F32, "float"),
        (Numeric::F64, "double"),
    ];
    for (numeric, c) in cases {
        assert_eq!(BridgedType::Numeric(numeric).to_c_type(prefix), c);
    }
    assert_eq!(BridgedType::Void.to_c_type(prefix), "void");
    assert_eq!(BridgedType::Bool.to_c_type(prefix), "bool");
    assert_eq!(BridgedType::OwnedString.to_c_type(prefix), "void*");
    assert_eq!(BridgedType::StringRef.to_c_type(prefix), "struct RustStr");
    assert_eq!(
        BridgedType::SliceRef(boxed(BridgedType::Bool)).to_c_type(prefix),
        "struct __private__FfiSlice"
    );
    assert_eq!(BridgedType::OwnedVector(boxed(BridgedType::Bool)).to_c_type(prefix), "void*");
    assert_eq!(rust_handle(Ownership::Owned).to_c_type(prefix), "void*");
    assert_eq!(rust_handle(Ownership::Ref).to_c_type(prefix), "void*");
    assert_eq!(
        swift_handle(Ownership::Owned).to_c_type(prefix),
        "struct __private__PointerToSwiftType"
    );
    assert_eq!(shared().to_c_type(prefix), "struct __swift_bridge__$Shared");
    assert_eq!(shared().to_c_type("p"), "struct p$Shared");
}

#[test]
fn c_type_of_pointers_and_optionals() {
    let prefix = "__swift_bridge__";
    assert_eq!(
        BridgedType::RawPointer { mutable: false, pointee: None }.to_c_type(prefix),
        "void const*"
    );
    assert_eq!(BridgedType::RawPointer { mutable: true, pointee: None }.to_c_type(prefix), "void*");
    assert_eq!(
        BridgedType::RawPointer {
            mutable: true,
            pointee: Some(boxed(BridgedType::Numeric(Numeric::U8))),
        }
        .to_c_type(prefix),
        "uint8_t*"
    );
    assert_eq!(
        BridgedType::Optional(boxed(BridgedType::Numeric(Numeric::I16))).to_c_type(prefix),
        "struct __private__OptionI16"
    );
    assert_eq!(
        BridgedType::Optional(boxed(BridgedType::Bool)).to_c_type(prefix),
        "struct __private__OptionBool"
    );
    assert_eq!(BridgedType::Optional(boxed(BridgedType::OwnedString)).to_c_type(prefix), "void*");
}
