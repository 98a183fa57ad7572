//! The types that can cross the boundary, how a type expression is classified
//! as one of them, and how each is written and converted on the Swift side.

use crate::errors::{CodegenError, CodegenErrorKind};
use crate::parse::{
    lemma_lookup_some, lookup, HostLang, SharedTypeDeclaration, TypeDeclaration, TypeDeclarations,
};
use crate::text::str_eq;
use crate::type_expr::TypeExpr;
use vstd::prelude::*;
use vstd::string::StringExecFns;

pub mod shared_struct;

verus! {

/// The numeric primitives.
#[derive(Clone, Copy, Debug, PartialEq, Eq, Structural)]
pub enum Numeric {
    U8,
    I8,
    U16,
    I16,
    U32,
    I32,
    U64,
    I64,
    Usize,
    Isize,
    F32,
    F64,
}

/// Who is responsible for a value behind a handle.
#[derive(Clone, Copy, Debug, PartialEq, Eq, Structural)]
pub enum Ownership {
    /// The receiver becomes responsible for disposing of the value.
    Owned,
    /// The value is lent for reading.
    Ref,
    /// The value is lent for reading and writing.
    RefMut,
}

/// Where in a signature a type stands.
#[derive(Clone, Copy, Debug, PartialEq, Eq, Structural)]
pub enum TypePosition {
    FnArg,
    FnReturn,
}

/// A type that can cross the boundary.
#[derive(Debug, PartialEq, Eq)]
pub enum BridgedType {
    /// `()`, also the type of a function without a return type.
    Void,
    Numeric(Numeric),
    Bool,
    /// `String`
    OwnedString,
    /// `&str`
    StringRef,
    /// `&[T]`
    SliceRef(Box<BridgedType>),
    /// `Vec<T>`
    OwnedVector(Box<BridgedType>),
    /// `Option<T>`
    Optional(Box<BridgedType>),
    /// `*const T` or `*mut T`; without a pointee where `T` is no bridged type.
    RawPointer { mutable: bool, pointee: Option<Box<BridgedType>> },
    /// A declared opaque type, owned or borrowed.
    OpaqueHandle { name: String, host_lang: HostLang, ownership: Ownership },
    /// A declared shared struct.
    SharedValue { name: String, swift_name: String },
}

impl Clone for BridgedType {
    fn clone(&self) -> (copy: Self)
        ensures
            copy == *self,
        decreases self,
    {
        match self {
            BridgedType::Void => BridgedType::Void,
            BridgedType::Numeric(numeric) => BridgedType::Numeric(*numeric),
            BridgedType::Bool => BridgedType::Bool,
            BridgedType::OwnedString => BridgedType::OwnedString,
            BridgedType::StringRef => BridgedType::StringRef,
            BridgedType::SliceRef(elem) => BridgedType::SliceRef(Box::new((&**elem).clone())),
            BridgedType::OwnedVector(elem) => BridgedType::OwnedVector(
                Box::new((&**elem).clone()),
            ),
            BridgedType::Optional(inner) => BridgedType::Optional(Box::new((&**inner).clone())),
            BridgedType::RawPointer { mutable, pointee } => BridgedType::RawPointer {
                mutable: *mutable,
                pointee: match pointee {
                    Some(inner) => Some(Box::new((&**inner).clone())),
                    None => None,
                },
            },
            BridgedType::OpaqueHandle { name, host_lang, ownership } => BridgedType::OpaqueHandle {
                name: name.clone(),
                host_lang: *host_lang,
                ownership: *ownership,
            },
            BridgedType::SharedValue { name, swift_name } => BridgedType::SharedValue {
                name: name.clone(),
                swift_name: swift_name.clone(),
            },
        }
    }
}

impl Numeric {
    /// The numeric primitive that Rust writes as `ident`.
    pub open spec fn spec_named(ident: Seq<char>) -> Option<Numeric> {
        if ident == "u8"@ {
            Some(Numeric::U8)
        } else if ident == "i8"@ {
            Some(Numeric::I8)
        } else if ident == "u16"@ {
            Some(Numeric::U16)
        } else if ident == "i16"@ {
            Some(Numeric::I16)
        } else if ident == "u32"@ {
            Some(Numeric::U32)
        } else if ident == "i32"@ {
            Some(Numeric::I32)
        } else if ident == "u64"@ {
            Some(Numeric::U64)
        } else if ident == "i64"@ {
            Some(Numeric::I64)
        } else if ident == "usize"@ {
            Some(Numeric::Usize)
        } else if ident == "isize"@ {
            Some(Numeric::Isize)
        } else if ident == "f32"@ {
            Some(Numeric::F32)
        } else if ident == "f64"@ {
            Some(Numeric::F64)
        } else {
            None
        }
    }

    /// The numeric primitive that Rust writes as `ident`.
    pub fn named(ident: &str) -> (found: Option<Numeric>)
        ensures
            found == Numeric::spec_named(ident@),
    {
        if str_eq(ident, "u8") {
            Some(Numeric::U8)
        } else if str_eq(ident, "i8") {
            Some(Numeric::I8)
        } else if str_eq(ident, "u16") {
            Some(Numeric::U16)
        } else if str_eq(ident, "i16") {
            Some(Numeric::I16)
        } else if str_eq(ident, "u32") {
            Some(Numeric::U32)
        } else if str_eq(ident, "i32") {
            Some(Numeric::I32)
        } else if str_eq(ident, "u64") {
            Some(Numeric::U64)
        } else if str_eq(ident, "i64") {
            Some(Numeric::I64)
        } else if str_eq(ident, "usize") {
            Some(Numeric::Usize)
        } else if str_eq(ident, "isize") {
            Some(Numeric::Isize)
        } else if str_eq(ident, "f32") {
            Some(Numeric::F32)
        } else if str_eq(ident, "f64") {
            Some(Numeric::F64)
        } else {
            None
        }
    }

    /// The Swift spelling of the type.
    pub open spec fn spec_swift_name(&self) -> Seq<char> {
        match self {
            Numeric::U8 => "UInt8"@,
            Numeric::I8 => "Int8"@,
            Numeric::U16 => "UInt16"@,
            Numeric::I16 => "Int16"@,
            Numeric::U32 => "UInt32"@,
            Numeric::I32 => "Int32"@,
            Numeric::U64 => "UInt64"@,
            Numeric::I64 => "Int64"@,
            Numeric::Usize => "UInt"@,
            Numeric::Isize => "Int"@,
            Numeric::F32 => "Float"@,
            Numeric::F64 => "Double"@,
        }
    }

    /// The Swift spelling of the type.
    pub fn swift_name(&self) -> (name: &'static str)
        ensures
            name@ == self.spec_swift_name(),
    {
        match self {
            Numeric::U8 => "UInt8",
            Numeric::I8 => "Int8",
            Numeric::U16 => "UInt16",
            Numeric::I16 => "Int16",
            Numeric::U32 => "UInt32",
            Numeric::I32 => "Int32",
            Numeric::U64 => "UInt64",
            Numeric::I64 => "Int64",
            Numeric::Usize => "UInt",
            Numeric::Isize => "Int",
            Numeric::F32 => "Float",
            Numeric::F64 => "Double",
        }
    }

    /// The C spelling of the type.
    pub open spec fn spec_c_name(&self) -> Seq<char> {
        match self {
            Numeric::U8 => "uint8_t"@,
            Numeric::I8 => "int8_t"@,
            Numeric::U16 => "uint16_t"@,
            Numeric::I16 => "int16_t"@,
            Numeric::U32 => "uint32_t"@,
            Numeric::I32 => "int32_t"@,
            Numeric::U64 => "uint64_t"@,
            Numeric::I64 => "int64_t"@,
            Numeric::Usize => "uintptr_t"@,
            Numeric::Isize => "intptr_t"@,
            Numeric::F32 => "float"@,
            Numeric::F64 => "double"@,
        }
    }

    /// The C spelling of the type.
    pub fn c_name(&self) -> (name: &'static str)
        ensures
            name@ == self.spec_c_name(),
    {
        match self {
            Numeric::U8 => "uint8_t",
            Numeric::I8 => "int8_t",
            Numeric::U16 => "uint16_t",
            Numeric::I16 => "int16_t",
            Numeric::U32 => "uint32_t",
            Numeric::I32 => "int32_t",
            Numeric::U64 => "uint64_t",
            Numeric::I64 => "int64_t",
            Numeric::Usize => "uintptr_t",
            Numeric::Isize => "intptr_t",
            Numeric::F32 => "float",
            Numeric::F64 => "double",
        }
    }

    /// The boundary struct that carries an optional value of the type
    /// together with its presence flag.
    pub open spec fn spec_option_ffi_name(&self) -> Seq<char> {
        match self {
            Numeric::U8 => "__private__OptionU8"@,
            Numeric::I8 => "__private__OptionI8"@,
            Numeric::U16 => "__private__OptionU16"@,
            Numeric::I16 => "__private__OptionI16"@,
            Numeric::U32 => "__private__OptionU32"@,
            Numeric::I32 => "__private__OptionI32"@,
            Numeric::U64 => "__private__OptionU64"@,
            Numeric::I64 => "__private__OptionI64"@,
            Numeric::Usize => "__private__OptionUsize"@,
            Numeric::Isize => "__private__OptionIsize"@,
            Numeric::F32 => "__private__OptionF32"@,
            Numeric::F64 => "__private__OptionF64"@,
        }
    }

    /// The boundary struct that carries an optional value of the type
    /// together with its presence flag.
    pub fn option_ffi_name(&self) -> (name: &'static str)
        ensures
            name@ == self.spec_option_ffi_name(),
    {
        match self {
            Numeric::U8 => "__private__OptionU8",
            Numeric::I8 => "__private__OptionI8",
            Numeric::U16 => "__private__OptionU16",
            Numeric::I16 => "__private__OptionI16",
            Numeric::U32 => "__private__OptionU32",
            Numeric::I32 => "__private__OptionI32",
            Numeric::U64 => "__private__OptionU64",
            Numeric::I64 => "__private__OptionI64",
            Numeric::Usize => "__private__OptionUsize",
            Numeric::Isize => "__private__OptionIsize",
            Numeric::F32 => "__private__OptionF32",
            Numeric::F64 => "__private__OptionF64",
        }
    }
}

impl Ownership {
    /// What the Swift class of this tier adds to the type's name.
    pub open spec fn spec_class_suffix(&self) -> Seq<char> {
        match self {
            Ownership::Owned => ""@,
            Ownership::Ref => "Ref"@,
            Ownership::RefMut => "RefMut"@,
        }
    }

    /// What the Swift class of this tier adds to the type's name.
    pub fn class_suffix(&self) -> (suffix: &'static str)
        ensures
            suffix@ == self.spec_class_suffix(),
    {
        match self {
            Ownership::Owned => "",
            Ownership::Ref => "Ref",
            Ownership::RefMut => "RefMut",
        }
    }

    /// The ownership under which a reference lends a value.
    pub open spec fn spec_of_reference(mutable: bool) -> Ownership {
        if mutable {
            Ownership::RefMut
        } else {
            Ownership::Ref
        }
    }
}


/// The bridged type that a declaration stands for when it is named by value.
pub open spec fn spec_declared(declaration: TypeDeclaration) -> BridgedType {
    match declaration {
        TypeDeclaration::Shared(SharedTypeDeclaration::Struct(shared)) => BridgedType::SharedValue {
            name: shared.name,
            swift_name: shared.spec_swift_name(),
        },
        TypeDeclaration::Opaque(opaque) => BridgedType::OpaqueHandle {
            name: opaque.ident,
            host_lang: opaque.host_lang,
            ownership: Ownership::Owned,
        },
    }
}

/// What `&T` or `&mut T` stands for, given what `T` stands for: a handle by
/// value becomes a borrowed handle, an owned string a string reference, an
/// owned vector a slice reference. Nothing else can be borrowed.
pub open spec fn spec_borrowed(inner: BridgedType, mutable: bool) -> Option<BridgedType> {
    match inner {
        BridgedType::OpaqueHandle { name, host_lang, ownership: Ownership::Owned } => Some(
            BridgedType::OpaqueHandle {
                name,
                host_lang,
                ownership: Ownership::spec_of_reference(mutable),
            },
        ),
        BridgedType::OwnedString => Some(BridgedType::StringRef),
        BridgedType::OwnedVector(elem) => Some(BridgedType::SliceRef(elem)),
        _ => None,
    }
}

/// The failure to classify the type expression that starts at `ty`'s place.
pub open spec fn unclassifiable(ty: TypeExpr) -> CodegenError {
    CodegenError { kind: CodegenErrorKind::UnclassifiableType, span: ty.spec_span() }
}

/// The bridged type that a type expression stands for under a type table, or
/// the innermost expression that stands for none.
pub open spec fn classify(ty: TypeExpr, types: Seq<TypeDeclaration>) -> Result<
    BridgedType,
    CodegenError,
>
    decreases ty,
{
    match ty {
        TypeExpr::Unit { .. } => Ok(BridgedType::Void),
        TypeExpr::Path { ident, argument: None, .. } => {
            if Numeric::spec_named(ident@) is Some {
                Ok(BridgedType::Numeric(Numeric::spec_named(ident@)->0))
            } else if ident@ == "bool"@ {
                Ok(BridgedType::Bool)
            } else if ident@ == "String"@ {
                Ok(BridgedType::OwnedString)
            } else {
                match lookup(types, ident@) {
                    Some(declaration) => Ok(spec_declared(declaration)),
                    None => Err(unclassifiable(ty)),
                }
            }
        },
        TypeExpr::Path { ident, argument: Some(inner), .. } => {
            if ident@ == "Vec"@ {
                match classify(*inner, types) {
                    Ok(elem) => Ok(BridgedType::OwnedVector(Box::new(elem))),
                    Err(error) => Err(error),
                }
            } else if ident@ == "Option"@ {
                match classify(*inner, types) {
                    Ok(elem) => if elem.spec_fits_in_optional() {
                        Ok(BridgedType::Optional(Box::new(elem)))
                    } else {
                        Err(unclassifiable(ty))
                    },
                    Err(error) => Err(error),
                }
            } else {
                Err(unclassifiable(ty))
            }
        },
        TypeExpr::Reference { mutable, elem, .. } => {
            match *elem {
                TypeExpr::Slice { elem: item, .. } => match classify(*item, types) {
                    Ok(item) => Ok(BridgedType::SliceRef(Box::new(item))),
                    Err(error) => Err(error),
                },
                _ => if spec_is_str(*elem) {
                    Ok(BridgedType::StringRef)
                } else {
                    match classify(*elem, types) {
                        Ok(inner) => match spec_borrowed(inner, mutable) {
                            Some(borrowed) => Ok(borrowed),
                            None => Err(unclassifiable(ty)),
                        },
                        Err(error) => Err(error),
                    }
                },
            }
        },
        TypeExpr::Slice { .. } => Err(unclassifiable(ty)),
        TypeExpr::Pointer { mutable, pointee, .. } => Ok(
            BridgedType::RawPointer {
                mutable,
                pointee: match classify(*pointee, types) {
                    Ok(inner) => Some(Box::new(inner)),
                    Err(_) => None,
                },
            },
        ),
        TypeExpr::Unsupported { .. } => Err(unclassifiable(ty)),
    }
}

/// Whether the expression is the bare identifier `str`.
pub open spec fn spec_is_str(ty: TypeExpr) -> bool {
    ty matches TypeExpr::Path { ident, argument: None, .. } && ident@ == "str"@
}

/// The bridged type of a return type, which may be left out.
pub open spec fn classify_return(ty: Option<TypeExpr>, types: Seq<TypeDeclaration>) -> Result<
    BridgedType,
    CodegenError,
> {
    match ty {
        Some(ty) => classify(ty, types),
        None => Ok(BridgedType::Void),
    }
}

fn is_str(ty: &TypeExpr) -> (yes: bool)
    ensures
        yes == spec_is_str(*ty),
{
    match ty {
        TypeExpr::Path { ident, argument: None, .. } => str_eq(ident.as_str(), "str"),
        _ => false,
    }
}

fn declared(declaration: &TypeDeclaration) -> (ty: BridgedType)
    ensures
        ty == spec_declared(*declaration),
{
    match declaration {
        TypeDeclaration::Shared(SharedTypeDeclaration::Struct(shared)) => BridgedType::SharedValue {
            name: shared.name.clone(),
            swift_name: shared.swift_name(),
        },
        TypeDeclaration::Opaque(opaque) => BridgedType::OpaqueHandle {
            name: opaque.ident.clone(),
            host_lang: opaque.host_lang,
            ownership: Ownership::Owned,
        },
    }
}

fn borrowed(inner: BridgedType, mutable: bool) -> (ty: Option<BridgedType>)
    ensures
        ty == spec_borrowed(inner, mutable),
{
    match inner {
        BridgedType::OpaqueHandle { name, host_lang, ownership: Ownership::Owned } => Some(
            BridgedType::OpaqueHandle {
                name,
                host_lang,
                ownership: if mutable {
                    Ownership::RefMut
                } else {
                    Ownership::Ref
                },
            },
        ),
        BridgedType::OwnedString => Some(BridgedType::StringRef),
        BridgedType::OwnedVector(elem) => Some(BridgedType::SliceRef(elem)),
        _ => None,
    }
}

impl BridgedType {
    /// Whether absence of a value of this type can be told by a null pointer.
    pub open spec fn spec_has_null_sentinel(&self) -> bool {
        match self {
            BridgedType::OwnedString => true,
            BridgedType::OwnedVector(_) => true,
            BridgedType::RawPointer { .. } => true,
            BridgedType::OpaqueHandle { host_lang, .. } => host_lang.spec_is_rust(),
            _ => false,
        }
    }

    /// Whether an optional value of this type can cross the boundary: with a
    /// presence flag beside it, or with the null pointer for absence.
    pub open spec fn spec_fits_in_optional(&self) -> bool {
        self is Numeric || self is Bool || self.spec_has_null_sentinel()
    }

    /// Whether absence of a value of this type can be told by a null pointer.
    pub fn has_null_sentinel(&self) -> (yes: bool)
        ensures
            yes == self.spec_has_null_sentinel(),
    {
        match self {
            BridgedType::OwnedString => true,
            BridgedType::OwnedVector(_) => true,
            BridgedType::RawPointer { .. } => true,
            BridgedType::OpaqueHandle { host_lang, .. } => host_lang.is_rust(),
            _ => false,
        }
    }

    /// Whether an optional value of this type can cross the boundary.
    pub fn fits_in_optional(&self) -> (yes: bool)
        ensures
            yes == self.spec_fits_in_optional(),
    {
        match self {
            BridgedType::Numeric(_) => true,
            BridgedType::Bool => true,
            _ => self.has_null_sentinel(),
        }
    }

    /// Whether this is the type of a function that returns nothing.
    pub fn is_void(&self) -> (yes: bool)
        ensures
            yes == (self is Void),
    {
        match self {
            BridgedType::Void => true,
            _ => false,
        }
    }

    /// Whether this is a string reference.
    pub fn is_string_ref(&self) -> (yes: bool)
        ensures
            yes == (self is StringRef),
    {
        match self {
            BridgedType::StringRef => true,
            _ => false,
        }
    }

    /// Classifies a type expression: `Ok` with the bridged type it stands for,
    /// `Err` with the place of the innermost expression that stands for none.
    pub fn new_with_type(ty: &TypeExpr, types: &TypeDeclarations) -> (out: Result<
        BridgedType,
        CodegenError,
    >)
        ensures
            out == classify(*ty, types@),
        decreases ty,
    {
        let failed = CodegenError { kind: CodegenErrorKind::UnclassifiableType, span: ty.span() };
        match ty {
            TypeExpr::Unit { .. } => Ok(BridgedType::Void),
            TypeExpr::Path { ident, argument: None, .. } => {
                match Numeric::named(ident.as_str()) {
                    Some(numeric) => Ok(BridgedType::Numeric(numeric)),
                    None => {
                        if str_eq(ident.as_str(), "bool") {
                            Ok(BridgedType::Bool)
                        } else if str_eq(ident.as_str(), "String") {
                            Ok(BridgedType::OwnedString)
                        } else {
                            match types.get(ident.as_str()) {
                                Some(declaration) => Ok(declared(declaration)),
                                None => Err(failed),
                            }
                        }
                    },
                }
            },
            TypeExpr::Path { ident, argument: Some(inner), .. } => {
                if str_eq(ident.as_str(), "Vec") {
                    match BridgedType::new_with_type(&**inner, types) {
                        Ok(elem) => Ok(BridgedType::OwnedVector(Box::new(elem))),
                        Err(error) => Err(error),
                    }
                } else if str_eq(ident.as_str(), "Option") {
                    match BridgedType::new_with_type(&**inner, types) {
                        Ok(elem) => if elem.fits_in_optional() {
                            Ok(BridgedType::Optional(Box::new(elem)))
                        } else {
                            Err(failed)
                        },
                        Err(error) => Err(error),
                    }
                } else {
                    Err(failed)
                }
            },
            TypeExpr::Reference { mutable, elem, .. } => {
                match &**elem {
                    TypeExpr::Slice { elem: item, .. } => match BridgedType::new_with_type(
                        &**item,
                        types,
                    ) {
                        Ok(item) => Ok(BridgedType::SliceRef(Box::new(item))),
                        Err(error) => Err(error),
                    },
                    _ => if is_str(&**elem) {
                        Ok(BridgedType::StringRef)
                    } else {
                        match BridgedType::new_with_type(&**elem, types) {
                            Ok(inner) => match borrowed(inner, *mutable) {
                                Some(borrowed) => Ok(borrowed),
                                None => Err(failed),
                            },
                            Err(error) => Err(error),
                        }
                    },
                }
            },
            TypeExpr::Slice { .. } => Err(failed),
            TypeExpr::Pointer { mutable, pointee, .. } => Ok(
                BridgedType::RawPointer {
                    mutable: *mutable,
                    pointee: match BridgedType::new_with_type(&**pointee, types) {
                        Ok(inner) => Some(Box::new(inner)),
                        Err(_) => None,
                    },
                },
            ),
            TypeExpr::Unsupported { .. } => Err(failed),
        }
    }

    /// Classifies a return type; a function without one returns `Void`.
    pub fn new_with_return_type(ty: &Option<TypeExpr>, types: &TypeDeclarations) -> (out: Result<
        BridgedType,
        CodegenError,
    >)
        ensures
            out == classify_return(*ty, types@),
    {
        match ty {
            Some(ty) => BridgedType::new_with_type(ty, types),
            None => Ok(BridgedType::Void),
        }
    }
}


impl BridgedType {
    /// How the type is written in the Swift text of a function that
    /// `host_lang` implements: on a Swift function that calls into Rust, the
    /// type that Swift callers see; on a Swift function exposed to Rust, the
    /// type that crosses the boundary.
    pub open spec fn spec_to_swift_type(&self, host_lang: HostLang, position: TypePosition) -> Seq<
        char,
    >
        decreases self,
    {
        match self {
            BridgedType::Void => "()"@,
            BridgedType::Numeric(numeric) => numeric.spec_swift_name(),
            BridgedType::Bool => "Bool"@,
            BridgedType::OwnedString => if host_lang.spec_is_rust() {
                "RustString"@
            } else {
                "UnsafeMutableRawPointer"@
            },
            BridgedType::StringRef => if host_lang.spec_is_rust() && position == TypePosition::FnArg {
                "String"@
            } else {
                "RustStr"@
            },
            BridgedType::SliceRef(elem) => if host_lang.spec_is_rust() {
                "UnsafeBufferPointer<"@ + elem.spec_to_swift_type(host_lang, position) + ">"@
            } else {
                "__private__FfiSlice"@
            },
            BridgedType::OwnedVector(elem) => if host_lang.spec_is_rust() {
                "RustVec<"@ + elem.spec_to_swift_type(host_lang, position) + ">"@
            } else {
                "UnsafeMutableRawPointer"@
            },
            BridgedType::Optional(inner) => if host_lang.spec_is_rust()
                || inner.spec_has_null_sentinel() {
                "Optional<"@ + inner.spec_to_swift_type(host_lang, position) + ">"@
            } else {
                inner.spec_option_ffi_name()
            },
            BridgedType::RawPointer { mutable, pointee } => match pointee {
                Some(inner) => spec_pointer_prefix(*mutable) + "Pointer<"@
                    + inner.spec_to_swift_type(host_lang, position) + ">"@,
                None => spec_pointer_prefix(*mutable) + "RawPointer"@,
            },
            BridgedType::OpaqueHandle { name, host_lang: declared_by, ownership } => {
                if declared_by.spec_is_rust() {
                    if host_lang.spec_is_rust() {
                        name@ + ownership.spec_class_suffix()
                    } else {
                        "UnsafeMutableRawPointer"@
                    }
                } else {
                    if host_lang.spec_is_rust() {
                        name@
                    } else {
                        "__private__PointerToSwiftType"@
                    }
                }
            },
            BridgedType::SharedValue { swift_name, .. } => swift_name@,
        }
    }

    /// The form in which a value of the type crosses the boundary, as the
    /// shared C declarations name it. Owned strings, vectors and values of
    /// opaque Rust types cross behind a pointer, borrowed strings and slices
    /// as pointer and length, an optional value with a presence flag unless
    /// the null pointer can stand for absence.
    pub open spec fn spec_to_c_type(&self, prefix: Seq<char>) -> Seq<char>
        decreases self,
    {
        match self {
            BridgedType::Void => "void"@,
            BridgedType::Numeric(numeric) => numeric.spec_c_name(),
            BridgedType::Bool => "bool"@,
            BridgedType::OwnedString => "void*"@,
            BridgedType::StringRef => "struct RustStr"@,
            BridgedType::SliceRef(_) => "struct __private__FfiSlice"@,
            BridgedType::OwnedVector(_) => "void*"@,
            BridgedType::Optional(inner) => if inner.spec_has_null_sentinel() {
                inner.spec_to_c_type(prefix)
            } else {
                "struct "@ + inner.spec_option_ffi_name()
            },
            BridgedType::RawPointer { mutable, pointee } => (match pointee {
                Some(inner) => inner.spec_to_c_type(prefix),
                None => "void"@,
            }) + (if *mutable {
                "*"@
            } else {
                " const*"@
            }),
            BridgedType::OpaqueHandle { host_lang: declared_by, .. } => {
                if declared_by.spec_is_rust() {
                    "void*"@
                } else {
                    "struct __private__PointerToSwiftType"@
                }
            },
            BridgedType::SharedValue { name, .. } => "struct "@ + prefix + "$"@ + name@,
        }
    }

    /// The form in which a value of the type crosses the boundary, as the
    /// shared C declarations name it.
    pub fn to_c_type(&self, prefix: &str) -> (out: String)
        ensures
            out@ == self.spec_to_c_type(prefix@),
        decreases self,
    {
        match self {
            BridgedType::Void => "void".to_owned(),
            BridgedType::Numeric(numeric) => numeric.c_name().to_owned(),
            BridgedType::Bool => "bool".to_owned(),
            BridgedType::OwnedString => "void*".to_owned(),
            BridgedType::StringRef => "struct RustStr".to_owned(),
            BridgedType::SliceRef(_) => "struct __private__FfiSlice".to_owned(),
            BridgedType::OwnedVector(_) => "void*".to_owned(),
            BridgedType::Optional(inner) => if inner.has_null_sentinel() {
                inner.to_c_type(prefix)
            } else {
                let mut out = "struct ".to_owned();
                out.append(inner.option_ffi_name());
                out
            },
            BridgedType::RawPointer { mutable, pointee } => {
                let mut out = match pointee {
                    Some(inner) => inner.to_c_type(prefix),
                    None => "void".to_owned(),
                };
                out.append(
                    if *mutable {
                        "*"
                    } else {
                        " const*"
                    },
                );
                out
            },
            BridgedType::OpaqueHandle { host_lang: declared_by, .. } => {
                if declared_by.is_rust() {
                    "void*".to_owned()
                } else {
                    "struct __private__PointerToSwiftType".to_owned()
                }
            },
            BridgedType::SharedValue { name, .. } => {
                let mut out = "struct ".to_owned();
                out.append(prefix);
                out.append("$");
                out.append(name.as_str());
                out
            },
        }
    }

    /// The boundary struct that carries an optional value of this type with
    /// its presence flag.
    pub open spec fn spec_option_ffi_name(&self) -> Seq<char> {
        match self {
            BridgedType::Numeric(numeric) => numeric.spec_option_ffi_name(),
            BridgedType::Bool => "__private__OptionBool"@,
            _ => "__private__Option"@,
        }
    }

    /// The value that fills the boundary struct of an absent optional.
    pub open spec fn spec_option_default(&self) -> Seq<char> {
        match self {
            BridgedType::Bool => "false"@,
            _ => "0"@,
        }
    }

    /// The Swift expression that turns `value`, as it crossed the boundary,
    /// into a value of the type that `spec_to_swift_type` names on a Swift
    /// function that calls into Rust.
    pub open spec fn spec_convert_ffi_value_to_swift_value(
        &self,
        host_lang: HostLang,
        position: TypePosition,
        value: Seq<char>,
    ) -> Seq<char>
        decreases self,
    {
        match self {
            BridgedType::Void => value,
            BridgedType::Numeric(_) => value,
            BridgedType::Bool => value,
            BridgedType::OwnedString => "RustString(ptr: "@ + value + ")"@,
            BridgedType::StringRef => value,
            BridgedType::SliceRef(elem) => if host_lang.spec_is_rust() {
                "let slice = "@ + value
                    + "; return UnsafeBufferPointer(start: slice.start.assumingMemoryBound(to: "@
                    + elem.spec_to_swift_type(host_lang, position)
                    + ".self), count: Int(slice.len));"@
            } else {
                value
            },
            BridgedType::OwnedVector(_) => "RustVec(ptr: "@ + value + ")"@,
            BridgedType::Optional(inner) => if inner.spec_has_null_sentinel() {
                "{ let val = "@ + value + "; if val != nil { return "@
                    + inner.spec_convert_ffi_value_to_swift_value(host_lang, position, "val!"@)
                    + " } else { return nil } }()"@
            } else {
                "{ let val = "@ + value
                    + "; if val.is_some { return val.val } else { return nil } }()"@
            },
            BridgedType::RawPointer { mutable, pointee } => if !*mutable && host_lang.spec_is_rust()
                && position == TypePosition::FnReturn {
                match pointee {
                    Some(_) => "UnsafePointer("@ + value + "!)"@,
                    None => "UnsafeRawPointer("@ + value + "!)"@,
                }
            } else {
                value
            },
            BridgedType::OpaqueHandle { name, host_lang: declared_by, ownership } => {
                if declared_by.spec_is_rust() {
                    name@ + "(ptr: "@ + value + ", isOwned: "@ + (if *ownership
                        == Ownership::Owned {
                        "true"@
                    } else {
                        "false"@
                    }) + ")"@
                } else {
                    "Unmanaged<"@ + name@ + ">.fromOpaque("@ + value + ".ptr)."@ + (if *ownership
                        == Ownership::Owned {
                        "takeRetainedValue()"@
                    } else {
                        "takeUnretainedValue()"@
                    })
                }
            },
            BridgedType::SharedValue { .. } => value,
        }
    }

    /// The Swift expression that turns `value`, a Swift value of this type,
    /// into what crosses the boundary.
    pub open spec fn spec_convert_swift_expression_to_ffi_compatible(
        &self,
        host_lang: HostLang,
        position: TypePosition,
        value: Seq<char>,
    ) -> Seq<char>
        decreases self,
    {
        match self {
            BridgedType::Void => value,
            BridgedType::Numeric(_) => value,
            BridgedType::Bool => value,
            BridgedType::OwnedString => "{ let rustString = "@ + value
                + ".intoRustString(); rustString.isOwned = false; return rustString.ptr }()"@,
            BridgedType::StringRef => if host_lang.spec_is_rust() {
                "RustStr(start: UnsafeMutableRawPointer(mutating: "@ + value
                    + "Ptr.baseAddress!).assumingMemoryBound(to: UInt8.self), len: UInt("@ + value
                    + "Ptr.count - 1))"@
            } else {
                value
            },
            BridgedType::SliceRef(_) => value + ".toFfiSlice()"@,
            BridgedType::OwnedVector(_) => "{ let val = "@ + value
                + "; val.isOwned = false; return val.ptr }()"@,
            BridgedType::Optional(inner) => if inner.spec_has_null_sentinel() {
                "{ if let val = "@ + value + " { return "@
                    + inner.spec_convert_swift_expression_to_ffi_compatible(
                    host_lang,
                    position,
                    "val"@,
                ) + " } else { return nil } }()"@
            } else {
                "{ let val = "@ + value + "; return "@ + inner.spec_option_ffi_name()
                    + "(val: val ?? "@ + inner.spec_option_default()
                    + ", is_some: val != nil); }()"@
            },
            BridgedType::RawPointer { mutable, pointee } => if !*mutable && host_lang.spec_is_rust()
                && position == TypePosition::FnArg {
                match pointee {
                    Some(_) => "UnsafeMutablePointer(mutating: "@ + value + ")"@,
                    None => "UnsafeMutableRawPointer(mutating: "@ + value + ")"@,
                }
            } else {
                value
            },
            BridgedType::OpaqueHandle { name, host_lang: declared_by, ownership } => {
                if declared_by.spec_is_rust() {
                    if *ownership == Ownership::Owned {
                        "{ let val = "@ + value + "; val.isOwned = false; return val.ptr }()"@
                    } else {
                        value + ".ptr"@
                    }
                } else {
                    "__private__PointerToSwiftType(ptr: Unmanaged."@ + (if *ownership
                        == Ownership::Owned {
                        "passRetained("@
                    } else {
                        "passUnretained("@
                    }) + value + ").toOpaque())"@
                }
            },
            BridgedType::SharedValue { .. } => value,
        }
    }

    /// How the type is written in the Swift text of a function that
    /// `host_lang` implements.
    pub fn to_swift_type(&self, host_lang: HostLang, position: TypePosition) -> (out: String)
        ensures
            out@ == self.spec_to_swift_type(host_lang, position),
        decreases self,
    {
        match self {
            BridgedType::Void => "()".to_owned(),
            BridgedType::Numeric(numeric) => numeric.swift_name().to_owned(),
            BridgedType::Bool => "Bool".to_owned(),
            BridgedType::OwnedString => if host_lang.is_rust() {
                "RustString".to_owned()
            } else {
                "UnsafeMutableRawPointer".to_owned()
            },
            BridgedType::StringRef => {
                let as_argument = match position {
                    TypePosition::FnArg => true,
                    TypePosition::FnReturn => false,
                };
                if host_lang.is_rust() && as_argument {
                    "String".to_owned()
                } else {
                    "RustStr".to_owned()
                }
            },
            BridgedType::SliceRef(elem) => if host_lang.is_rust() {
                let mut out = "UnsafeBufferPointer<".to_owned();
                out.append(elem.to_swift_type(host_lang, position).as_str());
                out.append(">");
                out
            } else {
                "__private__FfiSlice".to_owned()
            },
            BridgedType::OwnedVector(elem) => if host_lang.is_rust() {
                let mut out = "RustVec<".to_owned();
                out.append(elem.to_swift_type(host_lang, position).as_str());
                out.append(">");
                out
            } else {
                "UnsafeMutableRawPointer".to_owned()
            },
            BridgedType::Optional(inner) => if host_lang.is_rust() || inner.has_null_sentinel() {
                let mut out = "Optional<".to_owned();
                out.append(inner.to_swift_type(host_lang, position).as_str());
                out.append(">");
                out
            } else {
                inner.option_ffi_name().to_owned()
            },
            BridgedType::RawPointer { mutable, pointee } => {
                let mut out = pointer_prefix(*mutable).to_owned();
                match pointee {
                    Some(inner) => {
                        out.append("Pointer<");
                        out.append(inner.to_swift_type(host_lang, position).as_str());
                        out.append(">");
                    },
                    None => {
                        out.append("RawPointer");
                    },
                }
                out
            },
            BridgedType::OpaqueHandle { name, host_lang: declared_by, ownership } => {
                if declared_by.is_rust() {
                    if host_lang.is_rust() {
                        let mut out = name.clone();
                        out.append(ownership.class_suffix());
                        out
                    } else {
                        "UnsafeMutableRawPointer".to_owned()
                    }
                } else {
                    if host_lang.is_rust() {
                        name.clone()
                    } else {
                        "__private__PointerToSwiftType".to_owned()
                    }
                }
            },
            BridgedType::SharedValue { swift_name, .. } => swift_name.clone(),
        }
    }

    /// The boundary struct that carries an optional value of this type with
    /// its presence flag.
    pub fn option_ffi_name(&self) -> (name: &'static str)
        ensures
            name@ == self.spec_option_ffi_name(),
    {
        match self {
            BridgedType::Numeric(numeric) => numeric.option_ffi_name(),
            BridgedType::Bool => "__private__OptionBool",
            _ => "__private__Option",
        }
    }

    /// The value that fills the boundary struct of an absent optional.
    pub fn option_default(&self) -> (value: &'static str)
        ensures
            value@ == self.spec_option_default(),
    {
        match self {
            BridgedType::Bool => "false",
            _ => "0",
        }
    }

    /// The Swift expression that turns `value`, as it crossed the boundary,
    /// into a Swift value of this type.
    pub fn convert_ffi_value_to_swift_value(
        &self,
        host_lang: HostLang,
        position: TypePosition,
        value: &str,
    ) -> (out: String)
        ensures
            out@ == self.spec_convert_ffi_value_to_swift_value(host_lang, position, value@),
        decreases self,
    {
        match self {
            BridgedType::Void => value.to_owned(),
            BridgedType::Numeric(_) => value.to_owned(),
            BridgedType::Bool => value.to_owned(),
            BridgedType::OwnedString => {
                let mut out = "RustString(ptr: ".to_owned();
                out.append(value);
                out.append(")");
                out
            },
            BridgedType::StringRef => value.to_owned(),
            BridgedType::SliceRef(elem) => if host_lang.is_rust() {
                let mut out = "let slice = ".to_owned();
                out.append(value);
                out.append(
                    "; return UnsafeBufferPointer(start: slice.start.assumingMemoryBound(to: ",
                );
                out.append(elem.to_swift_type(host_lang, position).as_str());
                out.append(".self), count: Int(slice.len));");
                out
            } else {
                value.to_owned()
            },
            BridgedType::OwnedVector(_) => {
                let mut out = "RustVec(ptr: ".to_owned();
                out.append(value);
                out.append(")");
                out
            },
            BridgedType::Optional(inner) => if inner.has_null_sentinel() {
                let mut out = "{ let val = ".to_owned();
                out.append(value);
                out.append("; if val != nil { return ");
                out.append(
                    inner.convert_ffi_value_to_swift_value(host_lang, position, "val!").as_str(),
                );
                out.append(" } else { return nil } }()");
                out
            } else {
                let mut out = "{ let val = ".to_owned();
                out.append(value);
                out.append("; if val.is_some { return val.val } else { return nil } }()");
                out
            },
            BridgedType::RawPointer { mutable, pointee } => {
                let as_return = match position {
                    TypePosition::FnArg => false,
                    TypePosition::FnReturn => true,
                };
                if !*mutable && host_lang.is_rust() && as_return {
                    let mut out = match pointee {
                        Some(_) => "UnsafePointer(".to_owned(),
                        None => "UnsafeRawPointer(".to_owned(),
                    };
                    out.append(value);
                    out.append("!)");
                    out
                } else {
                    value.to_owned()
                }
            },
            BridgedType::OpaqueHandle { name, host_lang: declared_by, ownership } => {
                let owned = match ownership {
                    Ownership::Owned => true,
                    _ => false,
                };
                if declared_by.is_rust() {
                    let mut out = name.clone();
                    out.append("(ptr: ");
                    out.append(value);
                    out.append(", isOwned: ");
                    out.append(
                        if owned {
                            "true"
                        } else {
                            "false"
                        },
                    );
                    out.append(")");
                    out
                } else {
                    let mut out = "Unmanaged<".to_owned();
                    out.append(name.as_str());
                    out.append(">.fromOpaque(");
                    out.append(value);
                    out.append(".ptr).");
                    out.append(
                        if owned {
                            "takeRetainedValue()"
                        } else {
                            "takeUnretainedValue()"
                        },
                    );
                    out
                }
            },
            BridgedType::SharedValue { .. } => value.to_owned(),
        }
    }

    /// The Swift expression that turns `value`, a Swift value of this type,
    /// into what crosses the boundary.
    pub fn convert_swift_expression_to_ffi_compatible(
        &self,
        host_lang: HostLang,
        position: TypePosition,
        value: &str,
    ) -> (out: String)
        ensures
            out@ == self.spec_convert_swift_expression_to_ffi_compatible(
                host_lang,
                position,
                value@,
            ),
        decreases self,
    {
        match self {
            BridgedType::Void => value.to_owned(),
            BridgedType::Numeric(_) => value.to_owned(),
            BridgedType::Bool => value.to_owned(),
            BridgedType::OwnedString => {
                let mut out = "{ let rustString = ".to_owned();
                out.append(value);
                out.append(
                    ".intoRustString(); rustString.isOwned = false; return rustString.ptr }()",
                );
                out
            },
            BridgedType::StringRef => if host_lang.is_rust() {
                let mut out = "RustStr(start: UnsafeMutableRawPointer(mutating: ".to_owned();
                out.append(value);
                out.append("Ptr.baseAddress!).assumingMemoryBound(to: UInt8.self), len: UInt(");
                out.append(value);
                out.append("Ptr.count - 1))");
                out
            } else {
                value.to_owned()
            },
            BridgedType::SliceRef(_) => {
                let mut out = value.to_owned();
                out.append(".toFfiSlice()");
                out
            },
            BridgedType::OwnedVector(_) => {
                let mut out = "{ let val = ".to_owned();
                out.append(value);
                out.append("; val.isOwned = false; return val.ptr }()");
                out
            },
            BridgedType::Optional(inner) => if inner.has_null_sentinel() {
                let mut out = "{ if let val = ".to_owned();
                out.append(value);
                out.append(" { return ");
                out.append(
                    inner.convert_swift_expression_to_ffi_compatible(
                        host_lang,
                        position,
                        "val",
                    ).as_str(),
                );
                out.append(" } else { return nil } }()");
                out
            } else {
                let mut out = "{ let val = ".to_owned();
                out.append(value);
                out.append("; return ");
                out.append(inner.option_ffi_name());
                out.append("(val: val ?? ");
                out.append(inner.option_default());
                out.append(", is_some: val != nil); }()");
                out
            },
            BridgedType::RawPointer { mutable, pointee } => {
                let as_argument = match position {
                    TypePosition::FnArg => true,
                    TypePosition::FnReturn => false,
                };
                if !*mutable && host_lang.is_rust() && as_argument {
                    let mut out = match pointee {
                        Some(_) => "UnsafeMutablePointer(mutating: ".to_owned(),
                        None => "UnsafeMutableRawPointer(mutating: ".to_owned(),
                    };
                    out.append(value);
                    out.append(")");
                    out
                } else {
                    value.to_owned()
                }
            },
            BridgedType::OpaqueHandle { name, host_lang: declared_by, ownership } => {
                let owned = match ownership {
                    Ownership::Owned => true,
                    _ => false,
                };
                if declared_by.is_rust() {
                    if owned {
                        let mut out = "{ let val = ".to_owned();
                        out.append(value);
                        out.append("; val.isOwned = false; return val.ptr }()");
                        out
                    } else {
                        let mut out = value.to_owned();
                        out.append(".ptr");
                        out
                    }
                } else {
                    let mut out = "__private__PointerToSwiftType(ptr: Unmanaged.".to_owned();
                    out.append(
                        if owned {
                            "passRetained("
                        } else {
                            "passUnretained("
                        },
                    );
                    out.append(value);
                    out.append(").toOpaque())");
                    out
                }
            },
            BridgedType::SharedValue { .. } => value.to_owned(),
        }
    }
}

/// How Swift's pointer types begin, by mutability of the pointee.
pub open spec fn spec_pointer_prefix(mutable: bool) -> Seq<char> {
    if mutable {
        "UnsafeMutable"@
    } else {
        "Unsafe"@
    }
}

fn pointer_prefix(mutable: bool) -> (prefix: &'static str)
    ensures
        prefix@ == spec_pointer_prefix(mutable),
{
    if mutable {
        "UnsafeMutable"
    } else {
        "Unsafe"
    }
}


/// Numbers, booleans, the empty value and shared structs have one form on
/// both sides of the boundary: converting an expression of such a type in
/// either direction leaves it as it is, and so does the way there and back.
pub proof fn lemma_plain_values_cross_unchanged(
    ty: BridgedType,
    host_lang: HostLang,
    position: TypePosition,
    value: Seq<char>,
)
    requires
        ty is Void || ty is Numeric || ty is Bool || ty is SharedValue,
    ensures
        ty.spec_convert_swift_expression_to_ffi_compatible(host_lang, position, value) == value,
        ty.spec_convert_ffi_value_to_swift_value(host_lang, position, value) == value,
        ty.spec_convert_ffi_value_to_swift_value(
            host_lang,
            position,
            ty.spec_convert_swift_expression_to_ffi_compatible(host_lang, position, value),
        ) == value,
{
}


/// A handle to a value that Rust owns gives up its responsibility for the
/// value in the very expression that hands the pointer to Rust; a borrowed
/// handle hands the pointer over and keeps its flag. Coming from Rust, an
/// owned value arrives with the flag set, a borrowed one with the flag clear.
pub proof fn lemma_owned_handle_hand_over(
    name: String,
    ownership: Ownership,
    host_lang: HostLang,
    position: TypePosition,
    value: Seq<char>,
)
    ensures
        ({
            let handle = BridgedType::OpaqueHandle { name, host_lang: HostLang::Rust, ownership };
            &&& handle.spec_convert_swift_expression_to_ffi_compatible(host_lang, position, value)
                == (if ownership == Ownership::Owned {
                "{ let val = "@ + value + "; val.isOwned = false; return val.ptr }()"@
            } else {
                value + ".ptr"@
            })
            &&& handle.spec_convert_ffi_value_to_swift_value(host_lang, position, value) == name@
                + "(ptr: "@ + value + ", isOwned: "@ + (if ownership == Ownership::Owned {
                "true"@
            } else {
                "false"@
            }) + ")"@
        }),
{
}


/// Classification goes by what a type expression writes, not by where it
/// stands: two expressions that write the same type are classified alike,
/// or both are rejected.
pub proof fn lemma_classification_goes_by_written_type(
    ty: TypeExpr,
    other: TypeExpr,
    types: Seq<TypeDeclaration>,
)
    requires
        ty.spec_same_type(&other),
    ensures
        classify(ty, types) is Ok <==> classify(other, types) is Ok,
        classify(ty, types) is Ok ==> classify(ty, types) == classify(other, types),
    decreases ty,
{
    reveal_with_fuel(TypeExpr::spec_same_type, 2);
    match (ty, other) {
        (
            TypeExpr::Path { argument: Some(inner), .. },
            TypeExpr::Path { argument: Some(other_inner), .. },
        ) => {
            lemma_classification_goes_by_written_type(*inner, *other_inner, types);
        },
        (
            TypeExpr::Reference { elem, .. },
            TypeExpr::Reference { elem: other_elem, .. },
        ) => {
            match (*elem, *other_elem) {
                (TypeExpr::Slice { elem: item, .. }, TypeExpr::Slice { elem: other_item, .. }) => {
                    lemma_classification_goes_by_written_type(*item, *other_item, types);
                },
                _ => {
                    lemma_classification_goes_by_written_type(*elem, *other_elem, types);
                },
            }
        },
        (
            TypeExpr::Pointer { pointee, .. },
            TypeExpr::Pointer { pointee: other_pointee, .. },
        ) => {
            lemma_classification_goes_by_written_type(*pointee, *other_pointee, types);
        },
        _ => {},
    }
}


/// A bare identifier that is classified as a handle or as a shared struct
/// names a type that the table declares under that identifier, and the
/// bridged type carries the identifier and the declaring side.
pub proof fn lemma_declared_type_is_named(ty: TypeExpr, types: Seq<TypeDeclaration>)
    requires
        ty matches TypeExpr::Path { argument: None, .. },
        classify(ty, types) matches Ok(bridged) && (bridged is OpaqueHandle
            || bridged is SharedValue),
    ensures
        lookup(types, ty->Path_ident@) matches Some(declaration) && types.contains(declaration)
            && declaration.spec_name() == ty->Path_ident@ && classify(ty, types) == Ok::<
            BridgedType,
            CodegenError,
        >(spec_declared(declaration)),
        classify(ty, types)->Ok_0 matches BridgedType::OpaqueHandle { name, ownership, .. }
            ==> name@ == ty->Path_ident@ && ownership == Ownership::Owned,
        classify(ty, types)->Ok_0 matches BridgedType::SharedValue { name, .. } ==> name@
            == ty->Path_ident@,
{
    lemma_lookup_some(types, ty->Path_ident@);
}

} // verus!
