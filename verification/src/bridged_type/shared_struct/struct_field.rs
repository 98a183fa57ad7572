//! The fields of a shared struct.

use crate::text::{decimal, decimal_string, str_eq};
use crate::token_stream::{
    append_stream, clone_stream, empty_stream, group_stream, punct_stream, stream_tokens,
    GroupDelimiter,
};
use crate::type_expr::TypeExpr;
use vstd::prelude::*;
use vstd::std_specs::cmp::PartialEqSpecImpl;
use vstd::string::StringExecFns;

verus! {

/// The field layout of a shared struct: all named, all positional, or none.
#[derive(Debug, PartialEq, Clone)]
pub enum StructFields {
    Named(Vec<NamedStructField>),
    Unnamed(Vec<UnnamedStructField>),
    Unit,
}

/// A field of a struct with named fields.
#[derive(Debug, Clone)]
pub struct NamedStructField {
    pub name: String,
    pub ty: TypeExpr,
}

/// A field of a tuple struct.
#[derive(Debug, Clone)]
pub struct UnnamedStructField {
    pub ty: TypeExpr,
    pub idx: usize,
}

/// How a field is reached, whatever the layout it came from.
#[derive(Debug, PartialEq, Clone)]
pub enum NormalizedStructFieldAccessor {
    Named(String),
    Unnamed(usize),
}

/// A field under a layout-independent accessor.
#[derive(Debug, PartialEq, Clone)]
pub struct NormalizedStructField {
    pub accessor: NormalizedStructFieldAccessor,
    pub ty: TypeExpr,
}

impl NamedStructField {
    /// The name of the field on the Swift side.
    pub open spec fn spec_swift_name_string(&self) -> Seq<char> {
        self.name@
    }

    /// The name of the field on the Swift side: the Rust name.
    pub fn swift_name_string(&self) -> (name: String)
        ensures
            name@ == self.spec_swift_name_string(),
    {
        self.name.clone()
    }

    pub open spec fn spec_normalized(&self) -> NormalizedStructField {
        NormalizedStructField {
            accessor: NormalizedStructFieldAccessor::Named(self.name),
            ty: self.ty,
        }
    }
}

impl UnnamedStructField {
    /// The name of the field on the Swift side.
    pub open spec fn spec_swift_name_string(&self) -> Seq<char> {
        "_"@ + decimal(self.idx as nat)
    }

    /// The name of the field on the Swift side: an underscore and the position.
    pub fn swift_name_string(&self) -> (name: String)
        ensures
            name@ == self.spec_swift_name_string(),
    {
        let mut name = "_".to_owned();
        name.append(decimal_string(self.idx).as_str());
        name
    }

    pub open spec fn spec_normalized(&self) -> NormalizedStructField {
        NormalizedStructField {
            accessor: NormalizedStructFieldAccessor::Unnamed(self.idx),
            ty: self.ty,
        }
    }
}

impl NormalizedStructFieldAccessor {
    /// The name under which Swift reaches the field.
    pub open spec fn spec_swift_name_string(&self) -> Seq<char> {
        match self {
            NormalizedStructFieldAccessor::Named(name) => name@,
            NormalizedStructFieldAccessor::Unnamed(idx) => "_"@ + decimal(*idx as nat),
        }
    }

    /// The name under which Swift reaches the field.
    pub fn swift_name_string(&self) -> (name: String)
        ensures
            name@ == self.spec_swift_name_string(),
    {
        match self {
            NormalizedStructFieldAccessor::Named(name) => name.clone(),
            NormalizedStructFieldAccessor::Unnamed(idx) => {
                let mut name = "_".to_owned();
                name.append(decimal_string(*idx).as_str());
                name
            },
        }
    }
}

/// The token texts of `items`, those of neighbours separated by a comma.
pub open spec fn comma_separated(items: Seq<proc_macro2::TokenStream>) -> Seq<Seq<char>>
    decreases items.len(),
{
    if items.len() == 0 {
        Seq::empty()
    } else if items.len() == 1 {
        stream_tokens(items[0])
    } else {
        comma_separated(items.drop_last()) + seq![seq![',']] + stream_tokens(items.last())
    }
}

impl StructFields {
    /// The number of fields.
    pub open spec fn spec_len(&self) -> nat {
        match self {
            StructFields::Named(named) => named@.len(),
            StructFields::Unnamed(unnamed) => unnamed@.len(),
            StructFields::Unit => 0,
        }
    }

    /// Every positional field carries its own position.
    pub open spec fn well_formed(&self) -> bool {
        match self {
            StructFields::Unnamed(unnamed) => forall|i: int|
                0 <= i < unnamed@.len() ==> (#[trigger] unnamed@[i]).idx == i,
            _ => true,
        }
    }

    /// The fields in declared order, each under its accessor.
    pub open spec fn spec_normalized_fields(&self) -> Seq<NormalizedStructField> {
        match self {
            StructFields::Named(named) => Seq::new(
                named@.len(),
                |i: int| named@[i].spec_normalized(),
            ),
            StructFields::Unnamed(unnamed) => Seq::new(
                unnamed@.len(),
                |i: int| unnamed@[i].spec_normalized(),
            ),
            StructFields::Unit => Seq::empty(),
        }
    }

    /// The Swift names of the fields in declared order.
    pub open spec fn spec_swift_names(&self) -> Seq<Seq<char>> {
        match self {
            StructFields::Named(named) => Seq::new(
                named@.len(),
                |i: int| named@[i].spec_swift_name_string(),
            ),
            StructFields::Unnamed(unnamed) => Seq::new(
                unnamed@.len(),
                |i: int| unnamed@[i].spec_swift_name_string(),
            ),
            StructFields::Unit => Seq::empty(),
        }
    }

    /// The tokens that follow a struct's name in its declaration, given the
    /// tokens of each field.
    pub open spec fn spec_wrap_declaration_fields(
        &self,
        struct_fields: Seq<proc_macro2::TokenStream>,
    ) -> Seq<Seq<char>> {
        match self {
            StructFields::Named(_) => seq![GroupDelimiter::Brace.opening()] + comma_separated(
                struct_fields,
            ) + seq![GroupDelimiter::Brace.closing()],
            StructFields::Unnamed(_) => seq![GroupDelimiter::Parenthesis.opening()]
                + comma_separated(struct_fields) + seq![GroupDelimiter::Parenthesis.closing()]
                + seq![seq![';']],
            StructFields::Unit => seq![seq![';']],
        }
    }

    /// The layout of a tuple struct with fields of the given types, each
    /// field numbered by its position.
    pub fn unnamed(types: Vec<TypeExpr>) -> (fields: StructFields)
        ensures
            fields matches StructFields::Unnamed(unnamed) && unnamed@.len() == types@.len()
                && forall|i: int|
                0 <= i < types@.len() ==> (#[trigger] unnamed@[i]).ty == types@[i],
            fields.well_formed(),
    {
        let mut unnamed: Vec<UnnamedStructField> = Vec::new();
        let mut i: usize = 0;
        while i < types.len()
            invariant
                i <= types.len(),
                unnamed@.len() == i,
                forall|k: int|
                    0 <= k < i ==> (#[trigger] unnamed@[k]).ty == types@[k] && unnamed@[k].idx == k,
            decreases types.len() - i,
        {
            unnamed.push(UnnamedStructField { ty: types[i].clone(), idx: i });
            i += 1;
        }
        StructFields::Unnamed(unnamed)
    }

    /// Returns true if the struct does not have any named or unnamed fields.
    pub fn is_empty(&self) -> (empty: bool)
        ensures
            empty == (self.spec_len() == 0),
    {
        match self {
            StructFields::Named(named) => named.len() == 0,
            StructFields::Unnamed(unnamed) => unnamed.len() == 0,
            StructFields::Unit => true,
        }
    }

    /// The fields in declared order, each under a layout-independent accessor.
    pub fn normalized_fields(&self) -> (fields: Vec<NormalizedStructField>)
        ensures
            fields@ == self.spec_normalized_fields(),
    {
        let mut fields: Vec<NormalizedStructField> = Vec::new();
        match self {
            StructFields::Named(named) => {
                let mut i: usize = 0;
                while i < named.len()
                    invariant
                        i <= named.len(),
                        fields@.len() == i,
                        forall|k: int|
                            0 <= k < i ==> fields@[k] == (#[trigger] named@[k]).spec_normalized(),
                    decreases named.len() - i,
                {
                    fields.push(
                        NormalizedStructField {
                            accessor: NormalizedStructFieldAccessor::Named(named[i].name.clone()),
                            ty: named[i].ty.clone(),
                        },
                    );
                    i += 1;
                }
            },
            StructFields::Unnamed(unnamed) => {
                let mut i: usize = 0;
                while i < unnamed.len()
                    invariant
                        i <= unnamed.len(),
                        fields@.len() == i,
                        forall|k: int|
                            0 <= k < i ==> fields@[k] == (
                            #[trigger] unnamed@[k]).spec_normalized(),
                    decreases unnamed.len() - i,
                {
                    fields.push(
                        NormalizedStructField {
                            accessor: NormalizedStructFieldAccessor::Unnamed(unnamed[i].idx),
                            ty: unnamed[i].ty.clone(),
                        },
                    );
                    i += 1;
                }
            },
            StructFields::Unit => {},
        }
        assert(fields@ =~= self.spec_normalized_fields());
        fields
    }

    /// Wraps the tokens of the fields as the declaration of this layout asks:
    /// braces round named fields, parentheses and a semicolon for positional
    /// ones, a lone semicolon for a unit struct.
    pub fn wrap_declaration_fields(&self, struct_fields: &[proc_macro2::TokenStream]) -> (out:
        proc_macro2::TokenStream)
        ensures
            stream_tokens(out) == self.spec_wrap_declaration_fields(struct_fields@),
    {
        match self {
            StructFields::Named(_) => group_stream(
                GroupDelimiter::Brace,
                separate_by_commas(struct_fields),
            ),
            StructFields::Unnamed(_) => {
                let mut out = group_stream(
                    GroupDelimiter::Parenthesis,
                    separate_by_commas(struct_fields),
                );
                append_stream(&mut out, punct_stream(';'));
                out
            },
            StructFields::Unit => punct_stream(';'),
        }
    }
}

/// One stream of the tokens of `items`, those of neighbours separated by a comma.
pub fn separate_by_commas(items: &[proc_macro2::TokenStream]) -> (out: proc_macro2::TokenStream)
    ensures
        stream_tokens(out) == comma_separated(items@),
{
    let mut out = empty_stream();
    let mut i: usize = 0;
    while i < items.len()
        invariant
            i <= items.len(),
            stream_tokens(out) == comma_separated(items@.take(i as int)),
        decreases items.len() - i,
    {
        proof {
            assert(items@.take(i + 1).drop_last() =~= items@.take(i as int));
            assert(items@.take(i + 1).last() == items@[i as int]);
        }
        if i != 0 {
            append_stream(&mut out, punct_stream(','));
        }
        append_stream(&mut out, clone_stream(&items[i]));
        i += 1;
    }
    assert(items@.take(items.len() as int) =~= items@);
    out
}


/// Field naming. The fields of a tuple struct are reached in declared order
/// under an underscore and their position: `_0`, `_1` and so on.
pub proof fn lemma_unnamed_field_names(fields: StructFields, i: int)
    requires
        fields is Unnamed,
        fields.well_formed(),
        0 <= i < fields.spec_len(),
    ensures
        fields.spec_normalized_fields().len() == fields.spec_len(),
        fields.spec_normalized_fields()[i].accessor == NormalizedStructFieldAccessor::Unnamed(
            i as usize,
        ),
        fields.spec_normalized_fields()[i].accessor.spec_swift_name_string() == "_"@ + decimal(
            i as nat,
        ),
        fields.spec_swift_names()[i] == "_"@ + decimal(i as nat),
{
    let unnamed = fields->Unnamed_0;
    assert(unnamed@[i].idx == i);
}


impl PartialEq for NamedStructField {
    fn eq(&self, other: &Self) -> (same: bool) {
        str_eq(self.name.as_str(), other.name.as_str()) && self.ty.same_type(&other.ty)
    }
}

impl PartialEqSpecImpl for NamedStructField {
    open spec fn obeys_eq_spec() -> bool {
        true
    }

    open spec fn eq_spec(&self, other: &Self) -> bool {
        self.name@ == other.name@ && self.ty.spec_same_type(&other.ty)
    }
}

impl PartialEq for UnnamedStructField {
    fn eq(&self, other: &Self) -> (same: bool) {
        self.ty.same_type(&other.ty) && self.idx == other.idx
    }
}

impl PartialEqSpecImpl for UnnamedStructField {
    open spec fn obeys_eq_spec() -> bool {
        true
    }

    open spec fn eq_spec(&self, other: &Self) -> bool {
        self.ty.spec_same_type(&other.ty) && self.idx == other.idx
    }
}

} // verus!
