//! Code generation core of a bridge between Rust and Swift: it classifies the
//! types that cross the boundary and emits the Swift side of the bindings.

use crate::parse::TypeDeclarations;
use crate::parsed_extern_fn::ParsedExternFn;
use vstd::prelude::*;

pub mod bridged_type;
pub mod codegen;
pub mod errors;
pub mod parse;
pub mod parsed_extern_fn;
pub mod text;
pub mod token_stream;
pub mod type_expr;

verus! {

/// The prefix of every boundary symbol, unless a module asks for another.
pub const SWIFT_BRIDGE_PREFIX: &'static str = "__swift_bridge__";

/// A bridge module: the types and functions that it declares, in declared
/// order, and the prefix of its boundary symbols.
#[derive(Debug, PartialEq, Clone)]
pub struct SwiftBridgeModule {
    pub name: String,
    pub types: TypeDeclarations,
    pub functions: Vec<ParsedExternFn>,
    pub prefix: String,
}

} // verus!
