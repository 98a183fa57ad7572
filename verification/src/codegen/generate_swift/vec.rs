//! Swift support for vectors of an opaque Rust type.

use vstd::prelude::*;
use vstd::string::StringExecFns;

verus! {

/// The Swift extension that lets values of the opaque Rust type `ty` live in
/// vectors owned by Rust.
pub open spec fn spec_generate_vectorizable_extension(ty: Seq<char>, prefix: Seq<char>) -> Seq<
    char,
> {
    "extension "@ + ty + ": Vectorizable {\n    public static func vecOfSelfNew() -> UnsafeMutableRawPointer {\n        "@
        + prefix + "$Vec_"@ + ty
        + "$new()\n    }\n\n    public static func vecOfSelfFree(vecPtr: UnsafeMutableRawPointer) {\n        "@
        + prefix + "$Vec_"@ + ty
        + "$drop(vecPtr)\n    }\n\n    public static func vecOfSelfPush(vecPtr: UnsafeMutableRawPointer, value: "@
        + ty + ") {\n        "@ + prefix + "$Vec_"@ + ty
        + "$push(vecPtr, {value.isOwned = false; return value.ptr;}())\n    }\n\n    public static func vecOfSelfPop(vecPtr: UnsafeMutableRawPointer) -> Optional<Self> {\n        let pointer = "@
        + prefix + "$Vec_"@ + ty
        + "$pop(vecPtr)\n        if pointer == nil {\n            return nil\n        } else {\n            return ("@
        + ty
        + "(ptr: pointer!) as! Self)\n        }\n    }\n\n    public static func vecOfSelfGet(vecPtr: UnsafeMutableRawPointer, index: UInt) -> Optional<"@
        + ty + "Ref> {\n        let pointer = "@ + prefix + "$Vec_"@ + ty
        + "$get(vecPtr, index)\n        if pointer == nil {\n            return nil\n        } else {\n            return "@
        + ty
        + "Ref(ptr: pointer!)\n        }\n    }\n\n    public static func vecOfSelfGetMut(vecPtr: UnsafeMutableRawPointer, index: UInt) -> Optional<"@
        + ty + "RefMut> {\n        let pointer = "@ + prefix + "$Vec_"@ + ty
        + "$get_mut(vecPtr, index)\n        if pointer == nil {\n            return nil\n        } else {\n            return "@
        + ty
        + "RefMut(ptr: pointer!)\n        }\n    }\n\n    public static func vecOfSelfLen(vecPtr: UnsafeMutableRawPointer) -> UInt {\n        "@
        + prefix + "$Vec_"@ + ty + "$len(vecPtr)\n    }\n}\n"@
}

/// Writes the Swift extension that lets values of the opaque Rust type `ty`
/// live in vectors owned by Rust.
pub fn generate_vectorizable_extension(ty: &str, prefix: &str) -> (out: String)
    ensures
        out@ == spec_generate_vectorizable_extension(ty@, prefix@),
{
    let mut out = "extension ".to_owned();
    out.append(ty);
    out.append(
        ": Vectorizable {\n    public static func vecOfSelfNew() -> UnsafeMutableRawPointer {\n        ",
    );
    out.append(prefix);
    out.append("$Vec_");
    out.append(ty);
    out.append(
        "$new()\n    }\n\n    public static func vecOfSelfFree(vecPtr: UnsafeMutableRawPointer) {\n        ",
    );
    out.append(prefix);
    out.append("$Vec_");
    out.append(ty);
    out.append(
        "$drop(vecPtr)\n    }\n\n    public static func vecOfSelfPush(vecPtr: UnsafeMutableRawPointer, value: ",
    );
    out.append(ty);
    out.append(") {\n        ");
    out.append(prefix);
    out.append("$Vec_");
    out.append(ty);
    out.append(
        "$push(vecPtr, {value.isOwned = false; return value.ptr;}())\n    }\n\n    public static func vecOfSelfPop(vecPtr: UnsafeMutableRawPointer) -> Optional<Self> {\n        let pointer = ",
    );
    out.append(prefix);
    out.append("$Vec_");
    out.append(ty);
    out.append(
        "$pop(vecPtr)\n        if pointer == nil {\n            return nil\n        } else {\n            return (",
    );
    out.append(ty);
    out.append(
        "(ptr: pointer!) as! Self)\n        }\n    }\n\n    public static func vecOfSelfGet(vecPtr: UnsafeMutableRawPointer, index: UInt) -> Optional<",
    );
    out.append(ty);
    out.append("Ref> {\n        let pointer = ");
    out.append(prefix);
    out.append("$Vec_");
    out.append(ty);
    out.append(
        "$get(vecPtr, index)\n        if pointer == nil {\n            return nil\n        } else {\n            return ",
    );
    out.append(ty);
    out.append(
        "Ref(ptr: pointer!)\n        }\n    }\n\n    public static func vecOfSelfGetMut(vecPtr: UnsafeMutableRawPointer, index: UInt) -> Optional<",
    );
    out.append(ty);
    out.append("RefMut> {\n        let pointer = ");
    out.append(prefix);
    out.append("$Vec_");
    out.append(ty);
    out.append(
        "$get_mut(vecPtr, index)\n        if pointer == nil {\n            return nil\n        } else {\n            return ",
    );
    out.append(ty);
    out.append(
        "RefMut(ptr: pointer!)\n        }\n    }\n\n    public static func vecOfSelfLen(vecPtr: UnsafeMutableRawPointer) -> UInt {\n        ",
    );
    out.append(prefix);
    out.append("$Vec_");
    out.append(ty);
    out.append("$len(vecPtr)\n    }\n}\n");
    out
}

} // verus!
