//! What can stop the generation of one declaration.

use crate::text::{decimal, decimal_string};
use crate::type_expr::SourceSpan;
use vstd::prelude::*;
use vstd::string::StringExecFns;

verus! {

/// Why a declaration could not be generated.
#[derive(Clone, Copy, Debug, PartialEq, Eq, Structural)]
pub enum CodegenErrorKind {
    /// A type of a signature or of a field is none of the bridged types.
    UnclassifiableType,
    /// A function is associated to a type that the module does not declare.
    UnknownAssociatedType,
    /// A function is associated to a type that cannot carry it: a shared
    /// struct, or an opaque type of the other side.
    UnsupportedAssociatedType,
    /// A shared struct asks for a class on the Swift side.
    UnsupportedStructRepr,
}

/// A failure, with the place in the bridge module that caused it.
#[derive(Clone, Copy, Debug, PartialEq, Eq, Structural)]
pub struct CodegenError {
    pub kind: CodegenErrorKind,
    pub span: SourceSpan,
}

impl CodegenErrorKind {
    pub open spec fn spec_message(&self) -> Seq<char> {
        match self {
            CodegenErrorKind::UnclassifiableType => "type is not supported across the boundary"@,
            CodegenErrorKind::UnknownAssociatedType => "associated type is not declared in this module"@,
            CodegenErrorKind::UnsupportedAssociatedType => "functions associated to this type are not yet supported"@,
            CodegenErrorKind::UnsupportedStructRepr => "class representation of shared structs is not yet supported"@,
        }
    }

    /// The diagnostic shown to the user.
    pub fn message(&self) -> (text: String)
        ensures
            text@ == self.spec_message(),
    {
        match self {
            CodegenErrorKind::UnclassifiableType => "type is not supported across the boundary".to_owned(),
            CodegenErrorKind::UnknownAssociatedType => "associated type is not declared in this module".to_owned(),
            CodegenErrorKind::UnsupportedAssociatedType => "functions associated to this type are not yet supported".to_owned(),
            CodegenErrorKind::UnsupportedStructRepr => "class representation of shared structs is not yet supported".to_owned(),
        }
    }
}


impl CodegenError {
    /// The failure as one line: line and column of its cause, then the
    /// diagnostic.
    pub open spec fn spec_report(&self) -> Seq<char> {
        decimal(self.span.line as nat) + ":"@ + decimal(self.span.column as nat) + ": "@
            + self.kind.spec_message()
    }

    /// The failure as one line: line and column of its cause, then the
    /// diagnostic.
    pub fn report(&self) -> (text: String)
        ensures
            text@ == self.spec_report(),
    {
        let mut text = decimal_string(self.span.line);
        text.append(":");
        text.append(decimal_string(self.span.column).as_str());
        text.append(": ");
        text.append(self.kind.message().as_str());
        text
    }
}

} // verus!
