//! The declarations of a bridge module.

use crate::bridged_type::shared_struct::SharedStruct;
use crate::text::str_eq;
use crate::type_expr::SourceSpan;
use vstd::prelude::*;
use vstd::string::StringExecFns;

verus! {

/// The side that implements a declared item.
#[derive(Clone, Copy, Debug, PartialEq, Eq, Structural)]
pub enum HostLang {
    Rust,
    Swift,
}

impl HostLang {
    pub open spec fn spec_is_rust(&self) -> bool {
        *self == HostLang::Rust
    }

    pub open spec fn spec_is_swift(&self) -> bool {
        *self == HostLang::Swift
    }

    #[verifier::when_used_as_spec(spec_is_rust)]
    pub fn is_rust(&self) -> (yes: bool)
        ensures
            yes == self.spec_is_rust(),
    {
        match self {
            HostLang::Rust => true,
            HostLang::Swift => false,
        }
    }

    #[verifier::when_used_as_spec(spec_is_swift)]
    pub fn is_swift(&self) -> (yes: bool)
        ensures
            yes == self.spec_is_swift(),
    {
        match self {
            HostLang::Rust => false,
            HostLang::Swift => true,
        }
    }
}

/// A type whose values cross the boundary behind a pointer.
#[derive(Debug, PartialEq, Clone)]
pub struct OpaqueForeignTypeDeclaration {
    pub ident: String,
    pub host_lang: HostLang,
    /// A boundary symbol to free values with, in place of the derived one.
    pub free_link_name_override: Option<String>,
    pub span: SourceSpan,
}

/// A type declared by value.
#[derive(Debug, PartialEq, Clone)]
pub enum SharedTypeDeclaration {
    Struct(SharedStruct),
}

/// A type that the bridge module declares.
#[derive(Debug, PartialEq, Clone)]
pub enum TypeDeclaration {
    Shared(SharedTypeDeclaration),
    Opaque(OpaqueForeignTypeDeclaration),
}

impl OpaqueForeignTypeDeclaration {
    /// The boundary symbol of the function that frees a value of this type.
    pub open spec fn spec_free_link_name(&self, prefix: Seq<char>) -> Seq<char> {
        match self.free_link_name_override {
            Some(symbol) => symbol@,
            None => prefix + "$"@ + self.ident@ + "$_free"@,
        }
    }

    /// The Swift name of the function that frees a value of this type.
    pub open spec fn spec_free_func_name(&self, prefix: Seq<char>) -> Seq<char> {
        prefix + self.ident@ + "__free"@
    }

    /// The boundary symbol of the function that frees a value of this type:
    /// the override if there is one, else the prefix, `$`, the type's name
    /// and `$_free`.
    pub fn free_link_name(&self, prefix: &str) -> (symbol: String)
        ensures
            symbol@ == self.spec_free_link_name(prefix@),
    {
        match &self.free_link_name_override {
            Some(symbol) => symbol.clone(),
            None => {
                let mut symbol = prefix.to_owned();
                symbol.append("$");
                symbol.append(self.ident.as_str());
                symbol.append("$_free");
                symbol
            },
        }
    }

    /// The Swift name of the function that frees a value of this type.
    pub fn free_func_name(&self, prefix: &str) -> (name: String)
        ensures
            name@ == self.spec_free_func_name(prefix@),
    {
        let mut name = prefix.to_owned();
        name.append(self.ident.as_str());
        name.append("__free");
        name
    }

    /// The name of the type.
    pub fn ty_name_ident(&self) -> (name: &String)
        ensures
            name == self.ident,
    {
        &self.ident
    }
}

impl TypeDeclaration {
    /// The identifier under which the type is declared.
    pub open spec fn spec_name(&self) -> Seq<char> {
        match self {
            TypeDeclaration::Shared(SharedTypeDeclaration::Struct(shared)) => shared.name@,
            TypeDeclaration::Opaque(opaque) => opaque.ident@,
        }
    }

    /// The identifier under which the type is declared.
    pub fn name(&self) -> (name: &String)
        ensures
            name@ == self.spec_name(),
    {
        match self {
            TypeDeclaration::Shared(SharedTypeDeclaration::Struct(shared)) => &shared.name,
            TypeDeclaration::Opaque(opaque) => &opaque.ident,
        }
    }
}

/// The first declaration of `declarations` under the identifier `name`.
pub open spec fn lookup(declarations: Seq<TypeDeclaration>, name: Seq<char>) -> Option<
    TypeDeclaration,
>
    decreases declarations.len(),
{
    if declarations.len() == 0 {
        None
    } else if declarations[0].spec_name() == name {
        Some(declarations[0])
    } else {
        lookup(declarations.drop_first(), name)
    }
}

/// No two declarations share an identifier.
pub open spec fn distinct_names(declarations: Seq<TypeDeclaration>) -> bool {
    forall|i: int, j: int|
        0 <= i < j < declarations.len() ==> (#[trigger] declarations[i]).spec_name() != (
        #[trigger] declarations[j]).spec_name()
}

/// The type table of a bridge module: its declared types in declared order,
/// each under an identifier of its own.
#[derive(Debug, PartialEq, Clone)]
pub struct TypeDeclarations {
    declarations: Vec<TypeDeclaration>,
}

impl View for TypeDeclarations {
    type V = Seq<TypeDeclaration>;

    closed spec fn view(&self) -> Seq<TypeDeclaration> {
        self.declarations@
    }
}

impl TypeDeclarations {
    /// The table keeps what it promises: no identifier is declared twice.
    pub open spec fn well_formed(&self) -> bool {
        distinct_names(self@)
    }

    /// The declaration under `name`, if there is one.
    pub open spec fn spec_get(&self, name: Seq<char>) -> Option<TypeDeclaration> {
        lookup(self@, name)
    }

    /// A table without declarations.
    pub fn new() -> (table: Self)
        ensures
            table@ == Seq::<TypeDeclaration>::empty(),
            table.well_formed(),
    {
        TypeDeclarations { declarations: Vec::new() }
    }

    /// The number of declared types.
    pub fn len(&self) -> (n: usize)
        ensures
            n == self@.len(),
    {
        self.declarations.len()
    }

    /// The declared types in declared order.
    pub fn types(&self) -> (declarations: &Vec<TypeDeclaration>)
        ensures
            declarations@ == self@,
    {
        &self.declarations
    }

    /// The declaration under `name`, if there is one.
    pub fn get(&self, name: &str) -> (found: Option<&TypeDeclaration>)
        ensures
            match found {
                Some(declaration) => self.spec_get(name@) == Some(*declaration),
                None => self.spec_get(name@) is None,
            },
    {
        let mut i: usize = 0;
        assert(self.declarations@.skip(0) =~= self.declarations@);
        while i < self.declarations.len()
            invariant
                i <= self.declarations.len(),
                lookup(self.declarations@, name@) == lookup(
                    self.declarations@.skip(i as int),
                    name@,
                ),
            decreases self.declarations.len() - i,
        {
            proof {
                assert(self.declarations@.skip(i as int).drop_first() =~= self.declarations@.skip(
                    i + 1,
                ));
            }
            if str_eq(self.declarations[i].name().as_str(), name) {
                return Some(&self.declarations[i]);
            }
            i += 1;
        }
        None
    }

    /// Adds a declaration at the end, unless its identifier is taken; says
    /// whether it was added.
    pub fn insert(&mut self, declaration: TypeDeclaration) -> (inserted: bool)
        ensures
            inserted == (old(self).spec_get(declaration.spec_name()) is None),
            inserted ==> final(self)@ == old(self)@.push(declaration),
            !inserted ==> final(self)@ == old(self)@,
            old(self).well_formed() ==> final(self).well_formed(),
    {
        if self.get(declaration.name().as_str()).is_some() {
            return false;
        }
        proof {
            lemma_lookup_none(self@, declaration.spec_name());
        }
        self.declarations.push(declaration);
        true
    }
}

/// A name that `lookup` does not find is the name of no declaration.
pub proof fn lemma_lookup_none(declarations: Seq<TypeDeclaration>, name: Seq<char>)
    requires
        lookup(declarations, name) is None,
    ensures
        forall|i: int|
            0 <= i < declarations.len() ==> (#[trigger] declarations[i]).spec_name() != name,
    decreases declarations.len(),
{
    if declarations.len() > 0 {
        lemma_lookup_none(declarations.drop_first(), name);
        assert forall|i: int| 0 <= i < declarations.len() implies (
        #[trigger] declarations[i]).spec_name() != name by {
            if i > 0 {
                assert(declarations[i] == declarations.drop_first()[i - 1]);
            }
        }
    }
}

/// In a table without repeated identifiers every declaration is found under
/// its own identifier.
pub proof fn lemma_lookup_finds_each(declarations: Seq<TypeDeclaration>, i: int)
    requires
        distinct_names(declarations),
        0 <= i < declarations.len(),
    ensures
        lookup(declarations, declarations[i].spec_name()) == Some(declarations[i]),
    decreases declarations.len(),
{
    if i > 0 {
        let rest = declarations.drop_first();
        assert(declarations[0].spec_name() != declarations[i].spec_name());
        assert forall|a: int, b: int| 0 <= a < b < rest.len() implies (
        #[trigger] rest[a]).spec_name() != (#[trigger] rest[b]).spec_name() by {
            assert(rest[a] == declarations[a + 1]);
            assert(rest[b] == declarations[b + 1]);
        }
        lemma_lookup_finds_each(rest, i - 1);
        assert(rest[i - 1] == declarations[i]);
    }
}


/// What `lookup` finds under a name is declared in the table under that name.
pub proof fn lemma_lookup_some(declarations: Seq<TypeDeclaration>, name: Seq<char>)
    requires
        lookup(declarations, name) is Some,
    ensures
        lookup(declarations, name)->0.spec_name() == name,
        declarations.contains(lookup(declarations, name)->0),
    decreases declarations.len(),
{
    if declarations[0].spec_name() != name {
        lemma_lookup_some(declarations.drop_first(), name);
        let found = lookup(declarations, name)->0;
        let k = choose|k: int|
            0 <= k < declarations.drop_first().len() && declarations.drop_first()[k] == found;
        assert(declarations[k + 1] == found);
    } else {
        assert(declarations[0] == lookup(declarations, name)->0);
    }
}

} // verus!
