//! Type expressions as they appear in a bridge module's signatures.

use crate::text::str_eq;
use vstd::prelude::*;
use vstd::std_specs::cmp::PartialEqSpecImpl;

verus! {

/// Where an item starts in the bridge module's source text.
#[derive(Clone, Copy, Debug, PartialEq, Eq, Structural)]
pub struct SourceSpan {
    pub line: usize,
    pub column: usize,
}

/// A type as written in a signature or a field.
#[derive(Debug)]
pub enum TypeExpr {
    /// `()`
    Unit { span: SourceSpan },
    /// A single identifier with at most one generic argument: `u8`, `Foo`, `Vec<T>`.
    Path { ident: String, argument: Option<Box<TypeExpr>>, span: SourceSpan },
    /// `&T` or `&mut T`; lifetimes are not kept.
    Reference { mutable: bool, elem: Box<TypeExpr>, span: SourceSpan },
    /// `[T]`
    Slice { elem: Box<TypeExpr>, span: SourceSpan },
    /// `*const T` or `*mut T`
    Pointer { mutable: bool, pointee: Box<TypeExpr>, span: SourceSpan },
    /// Any other form; no such type crosses the boundary.
    Unsupported { span: SourceSpan },
}

impl TypeExpr {
    /// Where the expression starts.
    pub open spec fn spec_span(&self) -> SourceSpan {
        match self {
            TypeExpr::Unit { span } => *span,
            TypeExpr::Path { span, .. } => *span,
            TypeExpr::Reference { span, .. } => *span,
            TypeExpr::Slice { span, .. } => *span,
            TypeExpr::Pointer { span, .. } => *span,
            TypeExpr::Unsupported { span } => *span,
        }
    }

    /// Where the expression starts.
    pub fn span(&self) -> (at: SourceSpan)
        ensures
            at == self.spec_span(),
    {
        match self {
            TypeExpr::Unit { span } => *span,
            TypeExpr::Path { span, .. } => *span,
            TypeExpr::Reference { span, .. } => *span,
            TypeExpr::Slice { span, .. } => *span,
            TypeExpr::Pointer { span, .. } => *span,
            TypeExpr::Unsupported { span } => *span,
        }
    }
}

impl Clone for TypeExpr {
    fn clone(&self) -> (copy: Self)
        ensures
            copy == *self,
        decreases self,
    {
        match self {
            TypeExpr::Unit { span } => TypeExpr::Unit { span: *span },
            TypeExpr::Path { ident, argument, span } => {
                let argument = match argument {
                    Some(inner) => Some(Box::new((&**inner).clone())),
                    None => None,
                };
                TypeExpr::Path { ident: ident.clone(), argument, span: *span }
            },
            TypeExpr::Reference { mutable, elem, span } => TypeExpr::Reference {
                mutable: *mutable,
                elem: Box::new((&**elem).clone()),
                span: *span,
            },
            TypeExpr::Slice { elem, span } => TypeExpr::Slice {
                elem: Box::new((&**elem).clone()),
                span: *span,
            },
            TypeExpr::Pointer { mutable, pointee, span } => TypeExpr::Pointer {
                mutable: *mutable,
                pointee: Box::new((&**pointee).clone()),
                span: *span,
            },
            TypeExpr::Unsupported { span } => TypeExpr::Unsupported { span: *span },
        }
    }
}


impl TypeExpr {
    /// Whether two expressions write the same type, wherever they stand.
    pub open spec fn spec_same_type(&self, other: &TypeExpr) -> bool
        decreases self,
    {
        match (self, other) {
            (TypeExpr::Unit { .. }, TypeExpr::Unit { .. }) => true,
            (
                TypeExpr::Path { ident, argument, .. },
                TypeExpr::Path { ident: other_ident, argument: other_argument, .. },
            ) => ident@ == other_ident@ && match (argument, other_argument) {
                (Some(inner), Some(other_inner)) => inner.spec_same_type(other_inner),
                (None, None) => true,
                _ => false,
            },
            (
                TypeExpr::Reference { mutable, elem, .. },
                TypeExpr::Reference { mutable: other_mutable, elem: other_elem, .. },
            ) => mutable == other_mutable && elem.spec_same_type(other_elem),
            (TypeExpr::Slice { elem, .. }, TypeExpr::Slice { elem: other_elem, .. }) => {
                elem.spec_same_type(other_elem)
            },
            (
                TypeExpr::Pointer { mutable, pointee, .. },
                TypeExpr::Pointer { mutable: other_mutable, pointee: other_pointee, .. },
            ) => mutable == other_mutable && pointee.spec_same_type(other_pointee),
            (TypeExpr::Unsupported { .. }, TypeExpr::Unsupported { .. }) => true,
            _ => false,
        }
    }

    /// Whether two expressions write the same type, wherever they stand.
    pub fn same_type(&self, other: &TypeExpr) -> (same: bool)
        ensures
            same == self.spec_same_type(other),
        decreases self,
    {
        match (self, other) {
            (TypeExpr::Unit { .. }, TypeExpr::Unit { .. }) => true,
            (
                TypeExpr::Path { ident, argument, .. },
                TypeExpr::Path { ident: other_ident, argument: other_argument, .. },
            ) => str_eq(ident.as_str(), other_ident.as_str()) && match (argument, other_argument) {
                (Some(inner), Some(other_inner)) => (&**inner).same_type(&**other_inner),
                (None, None) => true,
                _ => false,
            },
            (
                TypeExpr::Reference { mutable, elem, .. },
                TypeExpr::Reference { mutable: other_mutable, elem: other_elem, .. },
            ) => *mutable == *other_mutable && (&**elem).same_type(&**other_elem),
            (TypeExpr::Slice { elem, .. }, TypeExpr::Slice { elem: other_elem, .. }) => {
                (&**elem).same_type(&**other_elem)
            },
            (
                TypeExpr::Pointer { mutable, pointee, .. },
                TypeExpr::Pointer { mutable: other_mutable, pointee: other_pointee, .. },
            ) => *mutable == *other_mutable && (&**pointee).same_type(&**other_pointee),
            (TypeExpr::Unsupported { .. }, TypeExpr::Unsupported { .. }) => true,
            _ => false,
        }
    }
}

impl PartialEq for TypeExpr {
    fn eq(&self, other: &Self) -> (same: bool) {
        self.same_type(other)
    }
}

impl PartialEqSpecImpl for TypeExpr {
    open spec fn obeys_eq_spec() -> bool {
        true
    }

    open spec fn eq_spec(&self, other: &Self) -> bool {
        self.spec_same_type(other)
    }
}

} // verus!
