//! Structs that cross the boundary by value.

use crate::bridged_type::shared_struct::struct_field::StructFields;
use crate::type_expr::SourceSpan;
use vstd::prelude::*;

pub mod struct_field;

verus! {

/// How Swift sees a shared struct.
#[derive(Clone, Copy, Debug, PartialEq, Eq, Structural)]
pub enum StructSwiftRepr {
    /// A Swift class.
    Class,
    /// A Swift struct with the layout of the shared C declaration.
    Structure,
}

/// A struct declared in the bridge module and laid out alike on both sides.
#[derive(Debug, PartialEq, Clone)]
pub struct SharedStruct {
    pub name: String,
    pub swift_repr: StructSwiftRepr,
    pub fields: StructFields,
    pub swift_name: Option<String>,
    pub span: SourceSpan,
}

impl SharedStruct {
    /// The name of the struct on the Swift side.
    pub open spec fn spec_swift_name(&self) -> String {
        match self.swift_name {
            Some(renamed) => renamed,
            None => self.name,
        }
    }

    /// The name of the struct on the Swift side, as text.
    pub open spec fn spec_swift_name_string(&self) -> Seq<char> {
        self.spec_swift_name()@
    }

    /// The name of the struct on the Swift side: the rename if there is one,
    /// else the Rust name.
    pub fn swift_name(&self) -> (name: String)
        ensures
            name == self.spec_swift_name(),
    {
        match &self.swift_name {
            Some(renamed) => renamed.clone(),
            None => self.name.clone(),
        }
    }

    /// The name of the struct on the Swift side, as text.
    pub fn swift_name_string(&self) -> (name: String)
        ensures
            name@ == self.spec_swift_name_string(),
    {
        self.swift_name()
    }
}

} // verus!
