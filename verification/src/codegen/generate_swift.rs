//! Generation of the Swift side of a bridge module.

use crate::bridged_type::shared_struct::struct_field::NormalizedStructField;
use crate::bridged_type::shared_struct::{SharedStruct, StructSwiftRepr};
use crate::bridged_type::{classify, BridgedType, Ownership, TypePosition};
use crate::codegen::generate_swift::vec::{
    generate_vectorizable_extension, spec_generate_vectorizable_extension,
};
use crate::errors::{CodegenError, CodegenErrorKind};
use crate::parse::{
    HostLang, OpaqueForeignTypeDeclaration, SharedTypeDeclaration, TypeDeclaration,
    TypeDeclarations,
};
use crate::parsed_extern_fn::{BridgedParam, BridgedSignature, ParsedExternFn, SignatureModel};
use crate::text::{join, join_strings, str_eq, views};
use crate::SwiftBridgeModule;
use vstd::prelude::*;
use vstd::string::StringExecFns;

pub mod vec;

verus! {

/// The text put before every line of a function that stands inside a class.
pub open spec fn spec_indentation(function: ParsedExternFn) -> Seq<char> {
    if function.associated_type is Some {
        "    "@
    } else {
        ""@
    }
}

/// The keyword that makes an associated function without receiver a
/// function of the class and not of its instances.
pub open spec fn spec_static_keyword(function: ParsedExternFn) -> Seq<char> {
    if function.associated_type is Some && !function.spec_is_method()
        && !function.is_initializer {
        "class "@
    } else {
        ""@
    }
}

/// How the Swift declaration names the function.
pub open spec fn spec_declared_name(function: ParsedExternFn) -> Seq<char> {
    if function.is_initializer {
        "init"@
    } else {
        "func "@ + function.name@
    }
}

/// The call across the boundary: the function's boundary symbol applied to
/// the converted arguments.
pub open spec fn spec_boundary_call(
    function: ParsedExternFn,
    params: Seq<BridgedParam>,
    prefix: Seq<char>,
) -> Seq<char> {
    function.spec_link_name(prefix) + "("@ + function.spec_to_swift_call_args(true, false, params)
        + ")"@
}

/// The boundary call, converted to the Swift value that the stub hands back.
/// A constructor hands the raw pointer to its superclass instead.
pub open spec fn spec_returned_value(
    function: ParsedExternFn,
    signature: SignatureModel,
    prefix: Seq<char>,
) -> Seq<char> {
    if function.is_initializer {
        spec_boundary_call(function, signature.params, prefix)
    } else {
        signature.ret.spec_convert_ffi_value_to_swift_value(
            function.host_lang,
            TypePosition::FnReturn,
            spec_boundary_call(function, signature.params, prefix),
        )
    }
}

/// The keyword in front of a closure whose value the stub returns: none
/// where the function returns nothing, and none in a constructor.
pub open spec fn spec_return_keyword(function: ParsedExternFn, ret: BridgedType) -> Seq<char> {
    if ret is Void || function.is_initializer {
        ""@
    } else {
        "return "@
    }
}

/// `call`, wrapped once for every string reference among `params`: each
/// wrapper keeps the UTF-8 buffer of its string alive for exactly the call.
/// The first such parameter is wrapped innermost.
pub open spec fn spec_wrap_string_args(
    params: Seq<BridgedParam>,
    return_keyword: Seq<char>,
    indentation: Seq<char>,
    call: Seq<char>,
) -> Seq<char>
    decreases params.len(),
{
    if params.len() == 0 {
        call
    } else {
        let inner = spec_wrap_string_args(params.drop_last(), return_keyword, indentation, call);
        if params.last().ty is StringRef {
            return_keyword + params.last().name@ + ".utf8CString.withUnsafeBufferPointer({"@
                + params.last().name@ + "Ptr in\n"@ + indentation + "        "@ + inner + "\n"@
                + indentation + "    })"@
        } else {
            inner
        }
    }
}

/// The one statement in the body of a call stub.
pub open spec fn spec_stub_statement(
    function: ParsedExternFn,
    signature: SignatureModel,
    prefix: Seq<char>,
) -> Seq<char> {
    let wrapped = spec_wrap_string_args(
        signature.params,
        spec_return_keyword(function, signature.ret),
        spec_indentation(function),
        spec_returned_value(function, signature, prefix),
    );
    if function.is_initializer {
        "super.init(ptr: "@ + wrapped + ")"@
    } else {
        wrapped
    }
}

/// The return clause of a call stub; a constructor has none.
pub open spec fn spec_stub_return_type(function: ParsedExternFn, ret: BridgedType) -> Seq<char> {
    if function.is_initializer {
        Seq::empty()
    } else {
        function.spec_to_swift_return_type(ret)
    }
}

/// The Swift function through which Swift code calls a function that Rust
/// implements, given the classified signature.
pub open spec fn spec_call_stub(
    function: ParsedExternFn,
    signature: SignatureModel,
    prefix: Seq<char>,
) -> Seq<char> {
    spec_indentation(function) + spec_static_keyword(function) + spec_declared_name(function)
        + "("@ + function.spec_to_swift_param_names_and_types(false, signature.params) + ")"@
        + spec_stub_return_type(function, signature.ret) + " {\n"@ + spec_indentation(function)
        + "    "@ + spec_stub_statement(function, signature, prefix) + "\n"@ + spec_indentation(
        function,
    ) + "}"@
}

/// What generating the call stub of `function` gives: the failure of its
/// association, else the first failure in its signature, else the stub.
pub open spec fn spec_gen_func_swift_calls_rust(
    function: ParsedExternFn,
    types: Seq<TypeDeclaration>,
    prefix: Seq<char>,
) -> Result<Seq<char>, CodegenError> {
    match function.spec_association_error(types) {
        Some(error) => Err(error),
        None => match function.spec_bridged_signature(types) {
            Err(error) => Err(error),
            Ok(signature) => Ok(spec_call_stub(function, signature, prefix)),
        },
    }
}

/// Generates the Swift function through which Swift code calls a function
/// that Rust implements. Every argument is converted to its boundary form,
/// the boundary symbol is called, and the result is converted back.
pub fn gen_func_swift_calls_rust(
    function: &ParsedExternFn,
    types: &TypeDeclarations,
    prefix: &str,
) -> (out: Result<String, CodegenError>)
    ensures
        match out {
            Ok(text) => spec_gen_func_swift_calls_rust(*function, types@, prefix@) == Ok::<
                Seq<char>,
                CodegenError,
            >(text@),
            Err(error) => spec_gen_func_swift_calls_rust(*function, types@, prefix@) == Err::<
                Seq<char>,
                CodegenError,
            >(error),
        },
{
    match function.association_error(types) {
        Some(error) => {
            return Err(error);
        },
        None => {},
    }
    let signature = match function.bridged_signature(types) {
        Ok(signature) => signature,
        Err(error) => {
            return Err(error);
        },
    };
    Ok(call_stub(function, &signature, prefix))
}

/// Writes the call stub of a function whose signature is classified.
pub fn call_stub(function: &ParsedExternFn, signature: &BridgedSignature, prefix: &str) -> (out:
    String)
    ensures
        out@ == spec_call_stub(*function, signature@, prefix@),
{
    let indentation = if function.associated_type.is_some() {
        "    "
    } else {
        ""
    };
    let static_keyword = if function.associated_type.is_some() && !function.is_method()
        && !function.is_initializer {
        "class "
    } else {
        ""
    };
    let declared_name = if function.is_initializer {
        "init".to_owned()
    } else {
        let mut name = "func ".to_owned();
        name.append(function.name.as_str());
        name
    };
    let return_type = if function.is_initializer {
        String::new()
    } else {
        function.to_swift_return_type(signature)
    };
    let statement = stub_statement(function, signature, prefix);

    let mut out = indentation.to_owned();
    out.append(static_keyword);
    out.append(declared_name.as_str());
    out.append("(");
    out.append(function.to_swift_param_names_and_types(false, signature).as_str());
    out.append(")");
    out.append(return_type.as_str());
    out.append(" {\n");
    out.append(indentation);
    out.append("    ");
    out.append(statement.as_str());
    out.append("\n");
    out.append(indentation);
    out.append("}");
    out
}

/// Writes the one statement in the body of a call stub.
pub fn stub_statement(function: &ParsedExternFn, signature: &BridgedSignature, prefix: &str) -> (out:
    String)
    ensures
        out@ == spec_stub_statement(*function, signature@, prefix@),
{
    let indentation = if function.associated_type.is_some() {
        "    "
    } else {
        ""
    };
    let mut call = function.link_name(prefix);
    call.append("(");
    call.append(function.to_swift_call_args(true, false, signature).as_str());
    call.append(")");
    let mut call = if function.is_initializer {
        call
    } else {
        signature.ret.convert_ffi_value_to_swift_value(
            function.host_lang,
            TypePosition::FnReturn,
            call.as_str(),
        )
    };
    let return_keyword = if signature.ret.is_void() || function.is_initializer {
        ""
    } else {
        "return "
    };
    let ghost value = spec_returned_value(*function, signature@, prefix@);
    let mut i: usize = 0;
    assert(signature.params@.take(0) =~= Seq::<BridgedParam>::empty());
    while i < signature.params.len()
        invariant
            i <= signature.params.len(),
            call@ == spec_wrap_string_args(
                signature.params@.take(i as int),
                return_keyword@,
                indentation@,
                value,
            ),
        decreases signature.params.len() - i,
    {
        proof {
            assert(signature.params@.take(i + 1).drop_last() =~= signature.params@.take(i as int));
            assert(signature.params@.take(i + 1).last() == signature.params@[i as int]);
        }
        let param = &signature.params[i];
        if param.ty.is_string_ref() {
            let mut wrapped = return_keyword.to_owned();
            wrapped.append(param.name.as_str());
            wrapped.append(".utf8CString.withUnsafeBufferPointer({");
            wrapped.append(param.name.as_str());
            wrapped.append("Ptr in\n");
            wrapped.append(indentation);
            wrapped.append("        ");
            wrapped.append(call.as_str());
            wrapped.append("\n");
            wrapped.append(indentation);
            wrapped.append("    })");
            call = wrapped;
        }
        i += 1;
    }
    assert(signature.params@.take(signature.params.len() as int) =~= signature.params@);
    if function.is_initializer {
        let mut out = "super.init(ptr: ".to_owned();
        out.append(call.as_str());
        out.append(")");
        out
    } else {
        call
    }
}


/// The expression in the body of a Swift function exposed to Rust: the call
/// of the Swift function, converted to what crosses the boundary, and made
/// on the instance behind `this`, through the constructor, or on the class,
/// where the function belongs to a type.
pub open spec fn spec_exposed_call(function: ParsedExternFn, signature: SignatureModel) -> Seq<
    char,
> {
    let args = function.spec_to_swift_call_args(false, true, signature.params);
    let call = signature.ret.spec_convert_swift_expression_to_ffi_compatible(
        function.host_lang,
        TypePosition::FnReturn,
        function.spec_swift_name() + "("@ + args + ")"@,
    );
    match function.associated_type {
        Some(ty) => if function.spec_is_method() {
            "Unmanaged<"@ + ty@ + ">.fromOpaque(this).takeUnretainedValue()."@ + call
        } else if function.is_initializer {
            "__private__PointerToSwiftType(ptr: Unmanaged.passRetained("@ + ty@ + "("@ + args
                + ")).toOpaque())"@
        } else {
            ty@ + "::"@ + call
        },
        None => call,
    }
}

/// The Swift function that stands behind the boundary symbol of a function
/// that Swift implements, given the classified signature.
pub open spec fn spec_exposed_function(
    function: ParsedExternFn,
    signature: SignatureModel,
    prefix: Seq<char>,
) -> Seq<char> {
    "@_cdecl(\""@ + function.spec_link_name(prefix) + "\")\nfunc "@
        + function.spec_prefixed_fn_name(prefix) + " ("@
        + function.spec_to_swift_param_names_and_types(true, signature.params) + ")"@
        + function.spec_to_swift_return_type(signature.ret) + " {\n    "@ + spec_exposed_call(
        function,
        signature,
    ) + "\n}\n"@
}

/// What exposing `function` to Rust gives: the failure of its association,
/// else the first failure in its signature, else the Swift function.
pub open spec fn spec_gen_function_exposes_swift_to_rust(
    function: ParsedExternFn,
    types: Seq<TypeDeclaration>,
    prefix: Seq<char>,
) -> Result<Seq<char>, CodegenError> {
    match function.spec_association_error(types) {
        Some(error) => Err(error),
        None => match function.spec_bridged_signature(types) {
            Err(error) => Err(error),
            Ok(signature) => Ok(spec_exposed_function(function, signature, prefix)),
        },
    }
}

/// Generates the Swift function that stands behind the boundary symbol of a
/// function that Swift implements: it takes the arguments in their boundary
/// form, calls the Swift function and hands the result back in boundary form.
pub fn gen_function_exposes_swift_to_rust(
    func: &ParsedExternFn,
    types: &TypeDeclarations,
    prefix: &str,
) -> (out: Result<String, CodegenError>)
    ensures
        match out {
            Ok(text) => spec_gen_function_exposes_swift_to_rust(*func, types@, prefix@) == Ok::<
                Seq<char>,
                CodegenError,
            >(text@),
            Err(error) => spec_gen_function_exposes_swift_to_rust(*func, types@, prefix@) == Err::<
                Seq<char>,
                CodegenError,
            >(error),
        },
{
    match func.association_error(types) {
        Some(error) => {
            return Err(error);
        },
        None => {},
    }
    let signature = match func.bridged_signature(types) {
        Ok(signature) => signature,
        Err(error) => {
            return Err(error);
        },
    };
    Ok(exposed_function(func, &signature, prefix))
}

/// Writes the Swift function behind the boundary symbol of a function whose
/// signature is classified.
pub fn exposed_function(func: &ParsedExternFn, signature: &BridgedSignature, prefix: &str) -> (out:
    String)
    ensures
        out@ == spec_exposed_function(*func, signature@, prefix@),
{
    let args = func.to_swift_call_args(false, true, signature);
    let mut call = func.swift_name();
    call.append("(");
    call.append(args.as_str());
    call.append(")");
    let call = signature.ret.convert_swift_expression_to_ffi_compatible(
        func.host_lang,
        TypePosition::FnReturn,
        call.as_str(),
    );
    let call = match &func.associated_type {
        Some(ty) => {
            if func.is_method() {
                let mut on_instance = "Unmanaged<".to_owned();
                on_instance.append(ty.as_str());
                on_instance.append(">.fromOpaque(this).takeUnretainedValue().");
                on_instance.append(call.as_str());
                on_instance
            } else if func.is_initializer {
                let mut constructed = "__private__PointerToSwiftType(ptr: Unmanaged.passRetained(".to_owned();
                constructed.append(ty.as_str());
                constructed.append("(");
                constructed.append(args.as_str());
                constructed.append(")).toOpaque())");
                constructed
            } else {
                let mut on_class = ty.clone();
                on_class.append("::");
                on_class.append(call.as_str());
                on_class
            }
        },
        None => call,
    };
    let mut out = "@_cdecl(\"".to_owned();
    out.append(func.link_name(prefix).as_str());
    out.append("\")\nfunc ");
    out.append(func.prefixed_fn_name(prefix).as_str());
    out.append(" (");
    out.append(func.to_swift_param_names_and_types(true, signature).as_str());
    out.append(")");
    out.append(func.to_swift_return_type(signature).as_str());
    out.append(" {\n    ");
    out.append(call.as_str());
    out.append("\n}\n");
    out
}

/// The Swift function through which Rust gives up its hold on an instance of
/// a class that Swift declares.
pub open spec fn spec_generate_drop_swift_instance_reference_count(
    ty: OpaqueForeignTypeDeclaration,
    prefix: Seq<char>,
) -> Seq<char> {
    "\n@_cdecl(\""@ + ty.spec_free_link_name(prefix) + "\")\nfunc "@ + ty.spec_free_func_name(
        prefix,
    ) + " (ptr: UnsafeMutableRawPointer) {\n    let _ = Unmanaged<"@ + ty.ident@
        + ">.fromOpaque(ptr).takeRetainedValue()\n}\n"@
}

/// Generates the function that drops the reference count of a Swift class
/// instance once Rust lets go of it.
pub fn generate_drop_swift_instance_reference_count(
    ty: &OpaqueForeignTypeDeclaration,
    prefix: &str,
) -> (out: String)
    ensures
        out@ == spec_generate_drop_swift_instance_reference_count(*ty, prefix@),
{
    let mut out = "\n@_cdecl(\"".to_owned();
    out.append(ty.free_link_name(prefix).as_str());
    out.append("\")\nfunc ");
    out.append(ty.free_func_name(prefix).as_str());
    out.append(" (ptr: UnsafeMutableRawPointer) {\n    let _ = Unmanaged<");
    out.append(ty.ty_name_ident().as_str());
    out.append(">.fromOpaque(ptr).takeRetainedValue()\n}\n");
    out
}


/// Where the definition of an associated function stands among the classes
/// of its type.
#[derive(Clone, Copy, Debug, PartialEq, Eq, Structural)]
pub enum Placement {
    /// Among the constructors of the owned class.
    Initializer,
    /// Among the methods of the class of a tier.
    Tier(Ownership),
}

/// The place of an associated function: a constructor among the
/// constructors; a method on the tier of its receiver; a function without
/// receiver on the base tier, as a function of the class.
pub open spec fn spec_placement(function: ParsedExternFn) -> Placement {
    if function.is_initializer {
        Placement::Initializer
    } else {
        match function.receiver {
            Some(tier) => Placement::Tier(tier),
            None => Placement::Tier(Ownership::Ref),
        }
    }
}

/// The place of an associated function among the classes of its type.
pub fn placement(function: &ParsedExternFn) -> (place: Placement)
    ensures
        place == spec_placement(*function),
{
    if function.is_initializer {
        Placement::Initializer
    } else {
        match function.receiver {
            Some(tier) => Placement::Tier(tier),
            None => Placement::Tier(Ownership::Ref),
        }
    }
}

/// Whether Rust implements the function for the opaque type named `ty`.
pub open spec fn spec_belongs_to(function: ParsedExternFn, ty: Seq<char>) -> bool {
    function.host_lang.spec_is_rust() && (function.associated_type matches Some(name) && name@
        == ty)
}

/// Whether Rust implements the function for the opaque type named `ty`.
pub fn belongs_to(function: &ParsedExternFn, ty: &str) -> (yes: bool)
    ensures
        yes == spec_belongs_to(*function, ty@),
{
    match &function.associated_type {
        Some(name) => function.host_lang.is_rust() && str_eq(name.as_str(), ty),
        None => false,
    }
}

/// The call stub of a function, or no text where it cannot be generated.
pub open spec fn spec_stub_text(
    function: ParsedExternFn,
    types: Seq<TypeDeclaration>,
    prefix: Seq<char>,
) -> Seq<char> {
    match spec_gen_func_swift_calls_rust(function, types, prefix) {
        Ok(text) => text,
        Err(_) => Seq::empty(),
    }
}

/// The positions in `functions` of the functions of type `ty` that stand at
/// `place`, in declared order.
pub open spec fn tier_members(functions: Seq<ParsedExternFn>, ty: Seq<char>, place: Placement)
    -> Seq<int>
    decreases functions.len(),
{
    if functions.len() == 0 {
        Seq::empty()
    } else {
        let head = tier_members(functions.drop_last(), ty, place);
        if spec_belongs_to(functions.last(), ty) && spec_placement(functions.last()) == place {
            head.push(functions.len() - 1)
        } else {
            head
        }
    }
}

/// The call stubs of the functions of type `ty` that stand at `place`, in
/// declared order.
pub open spec fn tier_definitions(
    functions: Seq<ParsedExternFn>,
    ty: Seq<char>,
    place: Placement,
    types: Seq<TypeDeclaration>,
    prefix: Seq<char>,
) -> Seq<Seq<char>>
    decreases functions.len(),
{
    if functions.len() == 0 {
        Seq::empty()
    } else {
        let head = tier_definitions(functions.drop_last(), ty, place, types, prefix);
        if spec_belongs_to(functions.last(), ty) && spec_placement(functions.last()) == place {
            head.push(spec_stub_text(functions.last(), types, prefix))
        } else {
            head
        }
    }
}

/// The failures of the functions of type `ty`, in declared order.
pub open spec fn class_errors(
    functions: Seq<ParsedExternFn>,
    ty: Seq<char>,
    types: Seq<TypeDeclaration>,
    prefix: Seq<char>,
) -> Seq<CodegenError>
    decreases functions.len(),
{
    if functions.len() == 0 {
        Seq::empty()
    } else {
        let head = class_errors(functions.drop_last(), ty, types, prefix);
        if spec_belongs_to(functions.last(), ty) {
            match spec_gen_func_swift_calls_rust(functions.last(), types, prefix) {
                Ok(_) => head,
                Err(error) => head.push(error),
            }
        } else {
            head
        }
    }
}

/// The tier whose class the class of `tier` extends: the owned class
/// extends the mutable reference, which extends the shared reference.
pub open spec fn spec_superclass(tier: Ownership) -> Option<Ownership> {
    match tier {
        Ownership::Owned => Some(Ownership::RefMut),
        Ownership::RefMut => Some(Ownership::Ref),
        Ownership::Ref => None,
    }
}

/// The line that opens the class of a tier.
pub open spec fn spec_class_header(ty: Seq<char>, tier: Ownership) -> Seq<char> {
    match spec_superclass(tier) {
        Some(parent) => "public class "@ + ty + tier.spec_class_suffix() + ": "@ + ty
            + parent.spec_class_suffix() + " {\n"@,
        None => "public class "@ + ty + tier.spec_class_suffix() + " {\n"@,
    }
}

/// The constructor of a class for which the module declares none: it stops
/// the program where it is called.
pub open spec fn spec_default_init() -> Seq<char> {
    "    init() {\n        fatalError(\"No #[swift_bridge(constructor)] was defined in the extern Rust module.\")\n    }"@
}

/// The constructors of the owned class.
pub open spec fn spec_initializers_block(definitions: Seq<Seq<char>>) -> Seq<char> {
    if definitions.len() == 0 {
        spec_default_init()
    } else {
        join(definitions, "\n\n"@)
    }
}

/// The methods of a class, behind the members that every class has.
pub open spec fn spec_methods_block(definitions: Seq<Seq<char>>) -> Seq<char> {
    let joined = join(definitions, "\n\n"@);
    if joined.len() == 0 {
        joined
    } else {
        "\n\n"@ + joined
    }
}

/// What the owned class does when an instance goes away: it frees the value
/// through the boundary symbol `free_link_name`, unless the instance has
/// given the value up.
pub open spec fn spec_deinit(free_link_name: Seq<char>) -> Seq<char> {
    "    deinit {\n        if isOwned {\n            "@ + free_link_name
        + "(ptr)\n        }\n    }"@
}

/// The three classes of an opaque Rust type: the owned class, which frees
/// the value when it goes away unless it has given the value up; the
/// mutable reference; the shared reference, which holds the pointer.
pub open spec fn spec_class_text(
    ty: OpaqueForeignTypeDeclaration,
    functions: Seq<ParsedExternFn>,
    types: Seq<TypeDeclaration>,
    prefix: Seq<char>,
) -> Seq<char> {
    "\n"@ + spec_class_header(ty.ident@, Ownership::Owned) + "    var isOwned: Bool = true\n\n"@
        + spec_initializers_block(
        tier_definitions(functions, ty.ident@, Placement::Initializer, types, prefix),
    )
        + "\n\n    override init(ptr: UnsafeMutableRawPointer) {\n        super.init(ptr: ptr)\n    }\n\n"@
        + spec_deinit(ty.spec_free_link_name(prefix)) + spec_methods_block(
        tier_definitions(functions, ty.ident@, Placement::Tier(Ownership::Owned), types, prefix),
    ) + "\n}\n"@ + spec_class_header(ty.ident@, Ownership::RefMut)
        + "    override init(ptr: UnsafeMutableRawPointer) {\n        super.init(ptr: ptr)\n    }"@
        + spec_methods_block(
        tier_definitions(functions, ty.ident@, Placement::Tier(Ownership::RefMut), types, prefix),
    ) + "\n}\n"@ + spec_class_header(ty.ident@, Ownership::Ref)
        + "    var ptr: UnsafeMutableRawPointer\n\n    init(ptr: UnsafeMutableRawPointer) {\n        self.ptr = ptr\n    }"@
        + spec_methods_block(
        tier_definitions(functions, ty.ident@, Placement::Tier(Ownership::Ref), types, prefix),
    ) + "\n}"@
}

/// What generating the classes of an opaque Rust type gives: the failures of
/// its functions if there are any, else the text of the classes.
pub open spec fn spec_generate_swift_class(
    ty: OpaqueForeignTypeDeclaration,
    functions: Seq<ParsedExternFn>,
    types: Seq<TypeDeclaration>,
    prefix: Seq<char>,
) -> Result<Seq<char>, Seq<CodegenError>> {
    let errors = class_errors(functions, ty.ident@, types, prefix);
    if errors.len() == 0 {
        Ok(spec_class_text(ty, functions, types, prefix))
    } else {
        Err(errors)
    }
}

fn class_header(ty: &str, tier: Ownership) -> (out: String)
    ensures
        out@ == spec_class_header(ty@, tier),
{
    let mut out = "public class ".to_owned();
    out.append(ty);
    out.append(tier.class_suffix());
    match tier {
        Ownership::Owned => {
            out.append(": ");
            out.append(ty);
            out.append(Ownership::RefMut.class_suffix());
        },
        Ownership::RefMut => {
            out.append(": ");
            out.append(ty);
            out.append(Ownership::Ref.class_suffix());
        },
        Ownership::Ref => {},
    }
    out.append(" {\n");
    out
}

fn deinit(free_link_name: &str) -> (out: String)
    ensures
        out@ == spec_deinit(free_link_name@),
{
    let mut out = "    deinit {\n        if isOwned {\n            ".to_owned();
    out.append(free_link_name);
    out.append("(ptr)\n        }\n    }");
    out
}

fn initializers_block(definitions: &Vec<String>) -> (out: String)
    ensures
        out@ == spec_initializers_block(views(definitions@)),
{
    if definitions.len() == 0 {
        "    init() {\n        fatalError(\"No #[swift_bridge(constructor)] was defined in the extern Rust module.\")\n    }".to_owned()
    } else {
        join_strings(definitions, "\n\n")
    }
}

fn methods_block(definitions: &Vec<String>) -> (out: String)
    ensures
        out@ == spec_methods_block(views(definitions@)),
{
    let joined = join_strings(definitions, "\n\n");
    if joined.as_str().is_empty() {
        joined
    } else {
        let mut out = "\n\n".to_owned();
        out.append(joined.as_str());
        out
    }
}

/// Generates the three classes of an opaque Rust type from the functions
/// that Rust implements for it. Each function stands on the tier of its
/// receiver; a type without constructor gets one that stops the program.
/// Fails with the failures of all its functions, in declared order.
pub fn generate_swift_class(
    ty: &OpaqueForeignTypeDeclaration,
    functions: &Vec<ParsedExternFn>,
    types: &TypeDeclarations,
    prefix: &str,
) -> (out: Result<String, Vec<CodegenError>>)
    ensures
        match out {
            Ok(text) => spec_generate_swift_class(*ty, functions@, types@, prefix@) == Ok::<
                Seq<char>,
                Seq<CodegenError>,
            >(text@),
            Err(errors) => spec_generate_swift_class(*ty, functions@, types@, prefix@) == Err::<
                Seq<char>,
                Seq<CodegenError>,
            >(errors@),
        },
{
    let class_name = ty.ident.as_str();
    let mut initializers: Vec<String> = Vec::new();
    let mut owned_self_methods: Vec<String> = Vec::new();
    let mut ref_self_methods: Vec<String> = Vec::new();
    let mut ref_mut_self_methods: Vec<String> = Vec::new();
    let mut errors: Vec<CodegenError> = Vec::new();

    let mut i: usize = 0;
    assert(functions@.take(0) =~= Seq::<ParsedExternFn>::empty());
    assert(views(initializers@) =~= Seq::<Seq<char>>::empty());
    assert(views(owned_self_methods@) =~= Seq::<Seq<char>>::empty());
    assert(views(ref_self_methods@) =~= Seq::<Seq<char>>::empty());
    assert(views(ref_mut_self_methods@) =~= Seq::<Seq<char>>::empty());
    while i < functions.len()
        invariant
            i <= functions.len(),
            class_name@ == ty.ident@,
            errors@ == class_errors(functions@.take(i as int), ty.ident@, types@, prefix@),
            views(initializers@) == tier_definitions(
                functions@.take(i as int),
                ty.ident@,
                Placement::Initializer,
                types@,
                prefix@,
            ),
            views(owned_self_methods@) == tier_definitions(
                functions@.take(i as int),
                ty.ident@,
                Placement::Tier(Ownership::Owned),
                types@,
                prefix@,
            ),
            views(ref_mut_self_methods@) == tier_definitions(
                functions@.take(i as int),
                ty.ident@,
                Placement::Tier(Ownership::RefMut),
                types@,
                prefix@,
            ),
            views(ref_self_methods@) == tier_definitions(
                functions@.take(i as int),
                ty.ident@,
                Placement::Tier(Ownership::Ref),
                types@,
                prefix@,
            ),
        decreases functions.len() - i,
    {
        proof {
            assert(functions@.take(i + 1).drop_last() =~= functions@.take(i as int));
            assert(functions@.take(i + 1).last() == functions@[i as int]);
        }
        let type_method = &functions[i];
        if belongs_to(type_method, class_name) {
            let definition = match gen_func_swift_calls_rust(type_method, types, prefix) {
                Ok(definition) => definition,
                Err(error) => {
                    // The classes are not written once a function has failed.
                    errors.push(error);
                    String::new()
                },
            };
            let ghost before_initializers = views(initializers@);
            let ghost before_owned = views(owned_self_methods@);
            let ghost before_ref_mut = views(ref_mut_self_methods@);
            let ghost before_ref = views(ref_self_methods@);
            match placement(type_method) {
                Placement::Initializer => {
                    initializers.push(definition);
                    assert(views(initializers@) =~= before_initializers.push(definition@));
                },
                Placement::Tier(Ownership::Owned) => {
                    owned_self_methods.push(definition);
                    assert(views(owned_self_methods@) =~= before_owned.push(definition@));
                },
                Placement::Tier(Ownership::RefMut) => {
                    ref_mut_self_methods.push(definition);
                    assert(views(ref_mut_self_methods@) =~= before_ref_mut.push(definition@));
                },
                Placement::Tier(Ownership::Ref) => {
                    ref_self_methods.push(definition);
                    assert(views(ref_self_methods@) =~= before_ref.push(definition@));
                },
            }
        }
        i += 1;
    }
    assert(functions@.take(functions.len() as int) =~= functions@);
    if errors.len() > 0 {
        return Err(errors);
    }
    let mut class = "\n".to_owned();
    class.append(class_header(class_name, Ownership::Owned).as_str());
    class.append("    var isOwned: Bool = true\n\n");
    class.append(initializers_block(&initializers).as_str());
    class.append(
        "\n\n    override init(ptr: UnsafeMutableRawPointer) {\n        super.init(ptr: ptr)\n    }\n\n",
    );
    class.append(deinit(ty.free_link_name(prefix).as_str()).as_str());
    class.append(methods_block(&owned_self_methods).as_str());
    class.append("\n}\n");
    class.append(class_header(class_name, Ownership::RefMut).as_str());
    class.append(
        "    override init(ptr: UnsafeMutableRawPointer) {\n        super.init(ptr: ptr)\n    }",
    );
    class.append(methods_block(&ref_mut_self_methods).as_str());
    class.append("\n}\n");
    class.append(class_header(class_name, Ownership::Ref).as_str());
    class.append(
        "    var ptr: UnsafeMutableRawPointer\n\n    init(ptr: UnsafeMutableRawPointer) {\n        self.ptr = ptr\n    }",
    );
    class.append(methods_block(&ref_self_methods).as_str());
    class.append("\n}");
    Ok(class)
}


/// The failure of the first field whose type stands for no bridged type.
pub open spec fn first_unclassifiable(
    fields: Seq<NormalizedStructField>,
    types: Seq<TypeDeclaration>,
) -> Option<CodegenError>
    decreases fields.len(),
{
    if fields.len() == 0 {
        None
    } else {
        match classify(fields[0].ty, types) {
            Err(error) => Some(error),
            Ok(_) => first_unclassifiable(fields.drop_first(), types),
        }
    }
}

/// Why a shared struct cannot cross the boundary, if it cannot: it asks for
/// a class on the Swift side, or one of its fields cannot cross.
pub open spec fn spec_shared_struct_error(shared: SharedStruct, types: Seq<TypeDeclaration>)
    -> Option<CodegenError> {
    if shared.swift_repr == StructSwiftRepr::Class {
        Some(CodegenError { kind: CodegenErrorKind::UnsupportedStructRepr, span: shared.span })
    } else {
        first_unclassifiable(shared.fields.spec_normalized_fields(), types)
    }
}

/// Checks that a shared struct can cross the boundary. No Swift text stands
/// for such a struct: Swift takes its layout from the shared C declaration.
pub fn shared_struct_error(shared: &SharedStruct, types: &TypeDeclarations) -> (out: Option<
    CodegenError,
>)
    ensures
        out == spec_shared_struct_error(*shared, types@),
{
    match shared.swift_repr {
        StructSwiftRepr::Class => Some(
            CodegenError { kind: CodegenErrorKind::UnsupportedStructRepr, span: shared.span },
        ),
        StructSwiftRepr::Structure => {
            let fields = shared.fields.normalized_fields();
            let mut i: usize = 0;
            assert(fields@.skip(0) =~= fields@);
            while i < fields.len()
                invariant
                    i <= fields.len(),
                    fields@ == shared.fields.spec_normalized_fields(),
                    shared.swift_repr != StructSwiftRepr::Class,
                    first_unclassifiable(fields@, types@) == first_unclassifiable(
                        fields@.skip(i as int),
                        types@,
                    ),
                decreases fields.len() - i,
            {
                proof {
                    assert(fields@.skip(i as int).drop_first() =~= fields@.skip(i + 1));
                }
                match BridgedType::new_with_type(&fields[i].ty, types) {
                    Err(error) => {
                        return Some(error);
                    },
                    Ok(_) => {},
                }
                i += 1;
            }
            None
        },
    }
}

/// What a declared function adds to the module's Swift text. A function
/// that Rust implements for a type adds nothing here: it stands in the
/// classes of its type.
pub open spec fn spec_function_outcome(
    function: ParsedExternFn,
    types: Seq<TypeDeclaration>,
    prefix: Seq<char>,
) -> Result<Seq<char>, CodegenError> {
    if function.host_lang.spec_is_rust() {
        if function.associated_type is Some {
            match function.spec_association_error(types) {
                Some(error) => Err(error),
                None => Ok(Seq::empty()),
            }
        } else {
            match spec_gen_func_swift_calls_rust(function, types, prefix) {
                Ok(text) => Ok(text + "\n"@),
                Err(error) => Err(error),
            }
        }
    } else {
        match spec_gen_function_exposes_swift_to_rust(function, types, prefix) {
            Ok(text) => Ok(text + "\n"@),
            Err(error) => Err(error),
        }
    }
}

/// What a declared type adds to the module's Swift text.
pub open spec fn spec_type_outcome(
    declaration: TypeDeclaration,
    functions: Seq<ParsedExternFn>,
    types: Seq<TypeDeclaration>,
    prefix: Seq<char>,
) -> Result<Seq<char>, Seq<CodegenError>> {
    match declaration {
        TypeDeclaration::Shared(SharedTypeDeclaration::Struct(shared)) => {
            match spec_shared_struct_error(shared, types) {
                Some(error) => Err(seq![error]),
                None => Ok(Seq::empty()),
            }
        },
        TypeDeclaration::Opaque(ty) => if ty.host_lang.spec_is_rust() {
            match spec_generate_swift_class(ty, functions, types, prefix) {
                Ok(class) => Ok(
                    class + "\n"@ + spec_generate_vectorizable_extension(ty.ident@, prefix)
                        + "\n"@,
                ),
                Err(errors) => Err(errors),
            }
        } else {
            Ok(spec_generate_drop_swift_instance_reference_count(ty, prefix) + "\n"@)
        },
    }
}

/// The Swift text of the first declared functions, in declared order.
pub open spec fn functions_text(
    functions: Seq<ParsedExternFn>,
    types: Seq<TypeDeclaration>,
    prefix: Seq<char>,
) -> Seq<char>
    decreases functions.len(),
{
    if functions.len() == 0 {
        Seq::empty()
    } else {
        functions_text(functions.drop_last(), types, prefix) + (match spec_function_outcome(
            functions.last(),
            types,
            prefix,
        ) {
            Ok(text) => text,
            Err(_) => Seq::empty(),
        })
    }
}

/// The failures of the declared functions, in declared order.
pub open spec fn functions_errors(
    functions: Seq<ParsedExternFn>,
    types: Seq<TypeDeclaration>,
    prefix: Seq<char>,
) -> Seq<CodegenError>
    decreases functions.len(),
{
    if functions.len() == 0 {
        Seq::empty()
    } else {
        let head = functions_errors(functions.drop_last(), types, prefix);
        match spec_function_outcome(functions.last(), types, prefix) {
            Ok(_) => head,
            Err(error) => head.push(error),
        }
    }
}

/// The Swift text of the declared types `declarations`, in declared order.
pub open spec fn types_text(
    declarations: Seq<TypeDeclaration>,
    functions: Seq<ParsedExternFn>,
    types: Seq<TypeDeclaration>,
    prefix: Seq<char>,
) -> Seq<char>
    decreases declarations.len(),
{
    if declarations.len() == 0 {
        Seq::empty()
    } else {
        types_text(declarations.drop_last(), functions, types, prefix) + (match spec_type_outcome(
            declarations.last(),
            functions,
            types,
            prefix,
        ) {
            Ok(text) => text,
            Err(_) => Seq::empty(),
        })
    }
}

/// The failures of the declared types `declarations`, in declared order.
pub open spec fn types_errors(
    declarations: Seq<TypeDeclaration>,
    functions: Seq<ParsedExternFn>,
    types: Seq<TypeDeclaration>,
    prefix: Seq<char>,
) -> Seq<CodegenError>
    decreases declarations.len(),
{
    if declarations.len() == 0 {
        Seq::empty()
    } else {
        let head = types_errors(declarations.drop_last(), functions, types, prefix);
        match spec_type_outcome(declarations.last(), functions, types, prefix) {
            Ok(_) => head,
            Err(errors) => head + errors,
        }
    }
}

/// Generates what a declared function adds to the module's Swift text.
pub fn function_outcome(function: &ParsedExternFn, types: &TypeDeclarations, prefix: &str) -> (out:
    Result<String, CodegenError>)
    ensures
        match out {
            Ok(text) => spec_function_outcome(*function, types@, prefix@) == Ok::<
                Seq<char>,
                CodegenError,
            >(text@),
            Err(error) => spec_function_outcome(*function, types@, prefix@) == Err::<
                Seq<char>,
                CodegenError,
            >(error),
        },
{
    if function.host_lang.is_rust() && function.associated_type.is_some() {
        return match function.association_error(types) {
            Some(error) => Err(error),
            None => Ok(String::new()),
        };
    }
    let func_definition = match function.host_lang {
        HostLang::Rust => gen_func_swift_calls_rust(function, types, prefix),
        HostLang::Swift => gen_function_exposes_swift_to_rust(function, types, prefix),
    };
    match func_definition {
        Ok(mut text) => {
            text.append("\n");
            Ok(text)
        },
        Err(error) => Err(error),
    }
}

/// Generates what a declared type adds to the module's Swift text.
pub fn type_outcome(
    declaration: &TypeDeclaration,
    functions: &Vec<ParsedExternFn>,
    types: &TypeDeclarations,
    prefix: &str,
) -> (out: Result<String, Vec<CodegenError>>)
    ensures
        match out {
            Ok(text) => spec_type_outcome(*declaration, functions@, types@, prefix@) == Ok::<
                Seq<char>,
                Seq<CodegenError>,
            >(text@),
            Err(errors) => spec_type_outcome(*declaration, functions@, types@, prefix@) == Err::<
                Seq<char>,
                Seq<CodegenError>,
            >(errors@),
        },
{
    match declaration {
        TypeDeclaration::Shared(SharedTypeDeclaration::Struct(shared_struct)) => {
            match shared_struct_error(shared_struct, types) {
                Some(error) => {
                    let mut errors: Vec<CodegenError> = Vec::new();
                    errors.push(error);
                    assert(errors@ =~= seq![error]);
                    Err(errors)
                },
                None => Ok(String::new()),
            }
        },
        TypeDeclaration::Opaque(ty) => match ty.host_lang {
            HostLang::Rust => {
                match generate_swift_class(ty, functions, types, prefix) {
                    Ok(mut text) => {
                        text.append("\n");
                        text.append(
                            generate_vectorizable_extension(ty.ident.as_str(), prefix).as_str(),
                        );
                        text.append("\n");
                        Ok(text)
                    },
                    Err(errors) => Err(errors),
                }
            },
            HostLang::Swift => {
                let mut text = generate_drop_swift_instance_reference_count(ty, prefix);
                text.append("\n");
                Ok(text)
            },
        },
    }
}

impl SwiftBridgeModule {
    /// The Swift text of the module: its functions, then its types.
    pub open spec fn spec_swift_text(&self) -> Seq<char> {
        functions_text(self.functions@, self.types@, self.prefix@) + types_text(
            self.types@,
            self.functions@,
            self.types@,
            self.prefix@,
        )
    }

    /// Every failure in the module: those of its functions, then those of
    /// its types.
    pub open spec fn spec_errors(&self) -> Seq<CodegenError> {
        functions_errors(self.functions@, self.types@, self.prefix@) + types_errors(
            self.types@,
            self.functions@,
            self.types@,
            self.prefix@,
        )
    }

    /// What generating the Swift side of the module gives.
    pub open spec fn spec_generate_swift(&self) -> Result<Seq<char>, Seq<CodegenError>> {
        if self.spec_errors().len() == 0 {
            Ok(self.spec_swift_text())
        } else {
            Err(self.spec_errors())
        }
    }

    /// Generate the corresponding Swift code for the bridging module: a call
    /// stub for every free function that Rust implements, a boundary function
    /// for every function that Swift implements, three classes for every
    /// opaque Rust type and a disposal function for every opaque Swift type.
    /// A declaration that cannot be generated does not stop the others: the
    /// result is the text if all could be, else every failure in order.
    pub fn generate_swift(&self) -> (out: Result<String, Vec<CodegenError>>)
        ensures
            match out {
                Ok(text) => self.spec_generate_swift() == Ok::<Seq<char>, Seq<CodegenError>>(
                    text@,
                ),
                Err(errors) => self.spec_generate_swift() == Err::<Seq<char>, Seq<CodegenError>>(
                    errors@,
                ),
            },
    {
        let prefix = self.prefix.as_str();
        let mut swift = String::new();
        let mut errors: Vec<CodegenError> = Vec::new();

        let mut i: usize = 0;
        assert(self.functions@.take(0) =~= Seq::<ParsedExternFn>::empty());
        while i < self.functions.len()
            invariant
                i <= self.functions.len(),
                prefix@ == self.prefix@,
                swift@ == functions_text(self.functions@.take(i as int), self.types@, prefix@),
                errors@ == functions_errors(self.functions@.take(i as int), self.types@, prefix@),
            decreases self.functions.len() - i,
        {
            proof {
                assert(self.functions@.take(i + 1).drop_last() =~= self.functions@.take(i as int));
                assert(self.functions@.take(i + 1).last() == self.functions@[i as int]);
            }
            let ghost before = swift@;
            match function_outcome(&self.functions[i], &self.types, prefix) {
                Ok(text) => {
                    swift.append(text.as_str());
                },
                Err(error) => {
                    errors.push(error);
                    assert(swift@ =~= before + Seq::<char>::empty());
                },
            }
            i += 1;
        }
        assert(self.functions@.take(self.functions.len() as int) =~= self.functions@);

        let ghost from_functions = swift@;
        let ghost function_errors = errors@;
        let declarations = self.types.types();
        let mut j: usize = 0;
        assert(declarations@.take(0) =~= Seq::<TypeDeclaration>::empty());
        assert(swift@ =~= from_functions + Seq::<char>::empty());
        assert(errors@ =~= function_errors + Seq::<CodegenError>::empty());
        while j < declarations.len()
            invariant
                j <= declarations.len(),
                prefix@ == self.prefix@,
                declarations@ == self.types@,
                swift@ == from_functions + types_text(
                    declarations@.take(j as int),
                    self.functions@,
                    self.types@,
                    prefix@,
                ),
                errors@ == function_errors + types_errors(
                    declarations@.take(j as int),
                    self.functions@,
                    self.types@,
                    prefix@,
                ),
            decreases declarations.len() - j,
        {
            proof {
                assert(declarations@.take(j + 1).drop_last() =~= declarations@.take(j as int));
                assert(declarations@.take(j + 1).last() == declarations@[j as int]);
            }
            let ghost text_before = types_text(
                declarations@.take(j as int),
                self.functions@,
                self.types@,
                prefix@,
            );
            let ghost errors_before = types_errors(
                declarations@.take(j as int),
                self.functions@,
                self.types@,
                prefix@,
            );
            match type_outcome(&declarations[j], &self.functions, &self.types, prefix) {
                Ok(text) => {
                    swift.append(text.as_str());
                    assert(swift@ =~= from_functions + (text_before + text@));
                },
                Err(mut failures) => {
                    let ghost added = failures@;
                    errors.append(&mut failures);
                    assert(errors@ =~= function_errors + (errors_before + added));
                    assert(swift@ =~= from_functions + (text_before + Seq::<char>::empty()));
                },
            }
            j += 1;
        }
        assert(declarations@.take(declarations.len() as int) =~= declarations@);

        if errors.len() == 0 {
            Ok(swift)
        } else {
            Err(errors)
        }
    }
}


/// Whether the class of `tier` offers the function at position `i`: it holds
/// the function itself, or the class that it extends offers it.
pub open spec fn tier_exposes(
    functions: Seq<ParsedExternFn>,
    ty: Seq<char>,
    tier: Ownership,
    i: int,
) -> bool
    decreases spec_tier_rank(tier),
{
    tier_members(functions, ty, Placement::Tier(tier)).contains(i) || match spec_superclass(tier) {
        Some(parent) => tier_exposes(functions, ty, parent, i),
        None => false,
    }
}

/// How many classes the class of a tier extends, directly or not.
pub open spec fn spec_tier_rank(tier: Ownership) -> nat {
    match tier {
        Ownership::Owned => 2,
        Ownership::RefMut => 1,
        Ownership::Ref => 0,
    }
}

/// A position is among the members of a place exactly if the function there
/// belongs to the type and stands at that place.
pub proof fn lemma_tier_members(
    functions: Seq<ParsedExternFn>,
    ty: Seq<char>,
    place: Placement,
    i: int,
)
    ensures
        tier_members(functions, ty, place).contains(i) <==> (0 <= i < functions.len()
            && spec_belongs_to(functions[i], ty) && spec_placement(functions[i]) == place),
    decreases functions.len(),
{
    if functions.len() > 0 {
        let head = tier_members(functions.drop_last(), ty, place);
        lemma_tier_members(functions.drop_last(), ty, place, i);
        if spec_belongs_to(functions.last(), ty) && spec_placement(functions.last()) == place {
            let last = functions.len() - 1;
            assert(head.push(last)[head.len() as int] == last);
            if head.contains(i) {
                let k = choose|k: int| 0 <= k < head.len() && head[k] == i;
                assert(head.push(last)[k] == i);
            }
        }
    }
}

/// The definitions of a place are the call stubs of its members, in order.
pub proof fn lemma_tier_definitions(
    functions: Seq<ParsedExternFn>,
    ty: Seq<char>,
    place: Placement,
    types: Seq<TypeDeclaration>,
    prefix: Seq<char>,
)
    ensures
        tier_definitions(functions, ty, place, types, prefix).len() == tier_members(
            functions,
            ty,
            place,
        ).len(),
        forall|k: int|
            0 <= k < tier_members(functions, ty, place).len() ==> {
                &&& 0 <= #[trigger] tier_members(functions, ty, place)[k] < functions.len()
                &&& tier_definitions(functions, ty, place, types, prefix)[k] == spec_stub_text(
                    functions[tier_members(functions, ty, place)[k]],
                    types,
                    prefix,
                )
            },
    decreases functions.len(),
{
    if functions.len() > 0 {
        lemma_tier_definitions(functions.drop_last(), ty, place, types, prefix);
        let head = tier_members(functions.drop_last(), ty, place);
        assert forall|k: int| 0 <= k < tier_members(functions, ty, place).len() implies {
            &&& 0 <= #[trigger] tier_members(functions, ty, place)[k] < functions.len()
            &&& tier_definitions(functions, ty, place, types, prefix)[k] == spec_stub_text(
                functions[tier_members(functions, ty, place)[k]],
                types,
                prefix,
            )
        } by {
            if k < head.len() {
                assert(functions.drop_last()[head[k]] == functions[head[k]]);
            }
        }
    }
}

/// Tier placement. A function that Rust implements for an opaque type, and
/// that is no constructor, stands on exactly one tier, and its call stub is
/// among the definitions of that tier. A method on `&self`, like a function
/// without receiver, stands on the shared reference and is offered by all
/// three classes. A method on `&mut self` is not offered by the shared
/// reference, but by the mutable reference and the owned class. A method on
/// `self` is offered by the owned class alone.
pub proof fn lemma_tier_placement(
    functions: Seq<ParsedExternFn>,
    ty: Seq<char>,
    types: Seq<TypeDeclaration>,
    prefix: Seq<char>,
    i: int,
)
    requires
        0 <= i < functions.len(),
        spec_belongs_to(functions[i], ty),
        !functions[i].is_initializer,
    ensures
        tier_definitions(functions, ty, spec_placement(functions[i]), types, prefix).contains(
            spec_stub_text(functions[i], types, prefix),
        ),
        tier_exposes(functions, ty, Ownership::Owned, i),
        tier_exposes(functions, ty, Ownership::RefMut, i) <==> functions[i].receiver != Some(
            Ownership::Owned,
        ),
        tier_exposes(functions, ty, Ownership::Ref, i) <==> (functions[i].receiver is None
            || functions[i].receiver == Some(Ownership::Ref)),
{
    lemma_tier_members(functions, ty, Placement::Tier(Ownership::Owned), i);
    lemma_tier_members(functions, ty, Placement::Tier(Ownership::RefMut), i);
    lemma_tier_members(functions, ty, Placement::Tier(Ownership::Ref), i);
    reveal_with_fuel(tier_exposes, 3);
    let place = spec_placement(functions[i]);
    let members = tier_members(functions, ty, place);
    lemma_tier_definitions(functions, ty, place, types, prefix);
    let k = choose|k: int| 0 <= k < members.len() && members[k] == i;
    assert(tier_definitions(functions, ty, place, types, prefix)[k] == spec_stub_text(
        functions[i],
        types,
        prefix,
    ));
}

/// Symbol agreement. The boundary symbol of a function is the prefix, the
/// associated type if there is one, and the function's name, each behind a
/// `$`. The call stub calls that symbol, and the Swift function exposed to
/// Rust is declared under it.
pub proof fn lemma_symbol_agreement(
    function: ParsedExternFn,
    signature: SignatureModel,
    prefix: Seq<char>,
)
    ensures
        function.associated_type matches Some(ty) ==> function.spec_link_name(prefix) == prefix
            + "$"@ + ty@ + "$"@ + function.name@,
        function.associated_type is None ==> function.spec_link_name(prefix) == prefix + "$"@
            + function.name@,
        function.spec_link_name(prefix).is_prefix_of(
            spec_boundary_call(function, signature.params, prefix),
        ),
        ("@_cdecl(\""@ + function.spec_link_name(prefix) + "\")"@).is_prefix_of(
            spec_exposed_function(function, signature, prefix),
        ),
{
    let link = function.spec_link_name(prefix);
    match function.associated_type {
        Some(ty) => {
            assert(link =~= prefix + "$"@ + ty@ + "$"@ + function.name@);
        },
        None => {
            assert(link =~= prefix + "$"@ + function.name@);
        },
    }
    let call = spec_boundary_call(function, signature.params, prefix);
    assert(call.subrange(0, link.len() as int) =~= link);
    let declared = "@_cdecl(\""@ + link + "\")"@;
    let exposed = spec_exposed_function(function, signature, prefix);
    reveal_strlit("\")");
    reveal_strlit("\")\nfunc ");
    assert(exposed.subrange(0, declared.len() as int) =~= declared);
}

/// Void handling. Where a function returns nothing, neither its call stub
/// nor its boundary function has a return clause, no closure in the stub
/// returns a value, and the boundary call stands unconverted. Without
/// string references among its parameters the one statement of the stub is
/// the boundary call itself.
pub proof fn lemma_void_return(
    function: ParsedExternFn,
    signature: SignatureModel,
    prefix: Seq<char>,
)
    requires
        signature.ret is Void,
    ensures
        function.spec_to_swift_return_type(signature.ret) == Seq::<char>::empty(),
        spec_stub_return_type(function, signature.ret) == Seq::<char>::empty(),
        spec_return_keyword(function, signature.ret) == Seq::<char>::empty(),
        spec_returned_value(function, signature, prefix) == spec_boundary_call(
            function,
            signature.params,
            prefix,
        ),
        !function.is_initializer && (forall|k: int|
            0 <= k < signature.params.len() ==> !((#[trigger] signature.params[k]).ty
                is StringRef)) ==> spec_stub_statement(function, signature, prefix)
            == spec_boundary_call(function, signature.params, prefix),
        spec_exposed_function(function, signature, prefix) == "@_cdecl(\""@
            + function.spec_link_name(prefix) + "\")\nfunc "@ + function.spec_prefixed_fn_name(
            prefix,
        ) + " ("@ + function.spec_to_swift_param_names_and_types(true, signature.params) + ")"@
            + " {\n    "@ + spec_exposed_call(function, signature) + "\n}\n"@,
{
    reveal_strlit("");
    assert(""@ =~= Seq::<char>::empty());
    if forall|k: int|
        0 <= k < signature.params.len() ==> !((#[trigger] signature.params[k]).ty is StringRef) {
        lemma_wrap_without_string_args(
            signature.params,
            spec_return_keyword(function, signature.ret),
            spec_indentation(function),
            spec_returned_value(function, signature, prefix),
        );
    }
    let head = "@_cdecl(\""@ + function.spec_link_name(prefix) + "\")\nfunc "@
        + function.spec_prefixed_fn_name(prefix) + " ("@
        + function.spec_to_swift_param_names_and_types(true, signature.params) + ")"@;
    assert(head + Seq::<char>::empty() =~= head);
}

/// Without string references among the parameters nothing is wrapped round
/// the call.
pub proof fn lemma_wrap_without_string_args(
    params: Seq<BridgedParam>,
    return_keyword: Seq<char>,
    indentation: Seq<char>,
    call: Seq<char>,
)
    requires
        forall|k: int| 0 <= k < params.len() ==> !((#[trigger] params[k]).ty is StringRef),
    ensures
        spec_wrap_string_args(params, return_keyword, indentation, call) == call,
    decreases params.len(),
{
    if params.len() > 0 {
        assert forall|k: int| 0 <= k < params.drop_last().len() implies !((
        #[trigger] params.drop_last()[k]).ty is StringRef) by {
            assert(params.drop_last()[k] == params[k]);
        }
        lemma_wrap_without_string_args(params.drop_last(), return_keyword, indentation, call);
    }
}


/// The classes of an opaque Rust type free a value at one place: in the
/// `deinit` of the owned class, under the test of its `isOwned` flag.
pub proof fn lemma_disposal_is_guarded(
    ty: OpaqueForeignTypeDeclaration,
    functions: Seq<ParsedExternFn>,
    types: Seq<TypeDeclaration>,
    prefix: Seq<char>,
)
    ensures
        exists|before: Seq<char>, after: Seq<char>|
            spec_class_text(ty, functions, types, prefix) == before + spec_deinit(
                ty.spec_free_link_name(prefix),
            ) + after,
{
    let before = "\n"@ + spec_class_header(ty.ident@, Ownership::Owned)
        + "    var isOwned: Bool = true\n\n"@ + spec_initializers_block(
        tier_definitions(functions, ty.ident@, Placement::Initializer, types, prefix),
    )
        + "\n\n    override init(ptr: UnsafeMutableRawPointer) {\n        super.init(ptr: ptr)\n    }\n\n"@;
    let after = spec_methods_block(
        tier_definitions(functions, ty.ident@, Placement::Tier(Ownership::Owned), types, prefix),
    ) + "\n}\n"@ + spec_class_header(ty.ident@, Ownership::RefMut)
        + "    override init(ptr: UnsafeMutableRawPointer) {\n        super.init(ptr: ptr)\n    }"@
        + spec_methods_block(
        tier_definitions(functions, ty.ident@, Placement::Tier(Ownership::RefMut), types, prefix),
    ) + "\n}\n"@ + spec_class_header(ty.ident@, Ownership::Ref)
        + "    var ptr: UnsafeMutableRawPointer\n\n    init(ptr: UnsafeMutableRawPointer) {\n        self.ptr = ptr\n    }"@
        + spec_methods_block(
        tier_definitions(functions, ty.ident@, Placement::Tier(Ownership::Ref), types, prefix),
    ) + "\n}"@;
    assert(spec_class_text(ty, functions, types, prefix) =~= before + spec_deinit(
        ty.spec_free_link_name(prefix),
    ) + after);
}

} // verus!
