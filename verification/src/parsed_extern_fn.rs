//! A function declared in a bridge module, and the pieces of Swift text that
//! depend on its signature alone.

use crate::bridged_type::{classify, classify_return, BridgedType, Ownership, TypePosition};
use crate::errors::{CodegenError, CodegenErrorKind};
use crate::parse::{lookup, HostLang, TypeDeclaration, TypeDeclarations};
use crate::text::{join, join_strings, views};
use crate::type_expr::{SourceSpan, TypeExpr};
use vstd::prelude::*;
use vstd::string::StringExecFns;

verus! {

/// A parameter other than the receiver.
#[derive(Debug, PartialEq, Clone)]
pub struct FnParam {
    pub name: String,
    pub ty: TypeExpr,
}

/// A function declared in a bridge module.
#[derive(Debug, PartialEq, Clone)]
pub struct ParsedExternFn {
    pub name: String,
    /// The side that implements the function.
    pub host_lang: HostLang,
    /// How the function takes `self`, if it is a method.
    pub receiver: Option<Ownership>,
    /// The parameters after the receiver, in declared order.
    pub params: Vec<FnParam>,
    /// The return type; `None` where the declaration has none.
    pub return_ty: Option<TypeExpr>,
    /// The identifier of the declared type that the function belongs to.
    pub associated_type: Option<String>,
    /// Whether the function is a constructor of its associated type.
    pub is_initializer: bool,
    /// The name of the function on the Swift side, where it differs.
    pub swift_name_override: Option<String>,
    pub span: SourceSpan,
}

/// A parameter with its type classified.
#[derive(Debug, PartialEq, Eq, Clone)]
pub struct BridgedParam {
    pub name: String,
    pub ty: BridgedType,
}

/// A signature with every type classified.
#[derive(Debug, PartialEq, Eq, Clone)]
pub struct BridgedSignature {
    pub params: Vec<BridgedParam>,
    pub ret: BridgedType,
}

/// The mathematical value of a `BridgedSignature`.
pub struct SignatureModel {
    pub params: Seq<BridgedParam>,
    pub ret: BridgedType,
}

impl View for BridgedSignature {
    type V = SignatureModel;

    open spec fn view(&self) -> SignatureModel {
        SignatureModel { params: self.params@, ret: self.ret }
    }
}

/// The parameters with their types classified, or the failure of the first
/// parameter whose type stands for no bridged type.
pub open spec fn classify_params(params: Seq<FnParam>, types: Seq<TypeDeclaration>) -> Result<
    Seq<BridgedParam>,
    CodegenError,
>
    decreases params.len(),
{
    if params.len() == 0 {
        Ok(Seq::empty())
    } else {
        match classify_params(params.drop_last(), types) {
            Err(error) => Err(error),
            Ok(head) => match classify(params.last().ty, types) {
                Ok(ty) => Ok(head.push(BridgedParam { name: params.last().name, ty })),
                Err(error) => Err(error),
            },
        }
    }
}

/// How one parameter is declared in Swift.
pub open spec fn spec_param_declaration(param: BridgedParam, host_lang: HostLang) -> Seq<char> {
    "_ "@ + param.name@ + ": "@ + param.ty.spec_to_swift_type(host_lang, TypePosition::FnArg)
}

/// How one argument is handed on in a call: converted towards the boundary
/// where Rust implements the function, away from it where Swift does.
pub open spec fn spec_call_arg(param: BridgedParam, host_lang: HostLang, include_var_name: bool)
    -> Seq<char> {
    let value = if host_lang.spec_is_rust() {
        param.ty.spec_convert_swift_expression_to_ffi_compatible(
            host_lang,
            TypePosition::FnArg,
            param.name@,
        )
    } else {
        param.ty.spec_convert_ffi_value_to_swift_value(host_lang, TypePosition::FnArg, param.name@)
    };
    if include_var_name {
        param.name@ + ": "@ + value
    } else {
        value
    }
}

/// The declarations of the parameters in declared order. A parameter of
/// the empty type is left out.
pub open spec fn spec_declarations_of(params: Seq<BridgedParam>, host_lang: HostLang) -> Seq<
    Seq<char>,
>
    decreases params.len(),
{
    if params.len() == 0 {
        Seq::empty()
    } else {
        let head = spec_declarations_of(params.drop_last(), host_lang);
        if params.last().ty is Void {
            head
        } else {
            head.push(spec_param_declaration(params.last(), host_lang))
        }
    }
}

/// The arguments of the call in declared order. An argument of the empty
/// type is left out.
pub open spec fn spec_args_of(params: Seq<BridgedParam>, host_lang: HostLang, include_var_name: bool)
    -> Seq<Seq<char>>
    decreases params.len(),
{
    if params.len() == 0 {
        Seq::empty()
    } else {
        let head = spec_args_of(params.drop_last(), host_lang, include_var_name);
        if params.last().ty is Void {
            head
        } else {
            head.push(spec_call_arg(params.last(), host_lang, include_var_name))
        }
    }
}

/// How the handle behind `self` is handed to Rust: an owned receiver gives
/// up its responsibility for the value before the pointer leaves.
pub open spec fn spec_receiver_arg(receiver: Ownership) -> Seq<char> {
    match receiver {
        Ownership::Owned => "{isOwned = false; return ptr;}()"@,
        _ => "ptr"@,
    }
}

impl ParsedExternFn {
    /// Whether the function takes `self`.
    pub open spec fn spec_is_method(&self) -> bool {
        self.receiver is Some
    }

    /// Whether the function takes `self`.
    #[verifier::when_used_as_spec(spec_is_method)]
    pub fn is_method(&self) -> (yes: bool)
        ensures
            yes == self.spec_is_method(),
    {
        self.receiver.is_some()
    }

    /// The part of a boundary symbol that names the associated type.
    pub open spec fn spec_type_segment(&self) -> Seq<char> {
        match self.associated_type {
            Some(ty) => "$"@ + ty@,
            None => Seq::empty(),
        }
    }

    /// The boundary symbol of the function: the prefix, the associated type
    /// if there is one, and the function's name, each behind a `$`.
    pub open spec fn spec_link_name(&self, prefix: Seq<char>) -> Seq<char> {
        prefix + self.spec_type_segment() + "$"@ + self.name@
    }

    /// The name of the Swift function that stands behind the boundary symbol.
    pub open spec fn spec_prefixed_fn_name(&self, prefix: Seq<char>) -> Seq<char> {
        match self.associated_type {
            Some(ty) => prefix + ty@ + "_"@ + self.name@,
            None => prefix + self.name@,
        }
    }

    /// The name under which Swift code knows the function.
    pub open spec fn spec_swift_name(&self) -> Seq<char> {
        match self.swift_name_override {
            Some(name) => name@,
            None => self.name@,
        }
    }

    /// The signature with every type classified, or the first failure:
    /// parameters in declared order, then the return type.
    pub open spec fn spec_bridged_signature(&self, types: Seq<TypeDeclaration>) -> Result<
        SignatureModel,
        CodegenError,
    > {
        match classify_params(self.params@, types) {
            Err(error) => Err(error),
            Ok(params) => match classify_return(self.return_ty, types) {
                Ok(ret) => Ok(SignatureModel { params, ret }),
                Err(error) => Err(error),
            },
        }
    }

    /// The failure that the function's association causes, if any: the
    /// associated type must be an opaque type that the module declares on
    /// the function's own side.
    pub open spec fn spec_association_error(&self, types: Seq<TypeDeclaration>) -> Option<
        CodegenError,
    > {
        match self.associated_type {
            None => None,
            Some(name) => match lookup(types, name@) {
                None => Some(
                    CodegenError { kind: CodegenErrorKind::UnknownAssociatedType, span: self.span },
                ),
                Some(TypeDeclaration::Shared(_)) => Some(
                    CodegenError {
                        kind: CodegenErrorKind::UnsupportedAssociatedType,
                        span: self.span,
                    },
                ),
                Some(TypeDeclaration::Opaque(opaque)) => if opaque.host_lang == self.host_lang {
                    None
                } else {
                    Some(
                        CodegenError {
                            kind: CodegenErrorKind::UnsupportedAssociatedType,
                            span: self.span,
                        },
                    )
                },
            },
        }
    }

    /// The declarations of the parameters, the receiver first where asked
    /// for; a parameter of the empty type has none.
    pub open spec fn spec_param_declarations(
        &self,
        include_receiver_if_present: bool,
        params: Seq<BridgedParam>,
    ) -> Seq<Seq<char>> {
        let rest = spec_declarations_of(params, self.host_lang);
        if include_receiver_if_present && self.receiver is Some {
            seq!["_ this: UnsafeMutableRawPointer"@] + rest
        } else {
            rest
        }
    }

    /// The parameter list of the Swift function, without its parentheses.
    pub open spec fn spec_to_swift_param_names_and_types(
        &self,
        include_receiver_if_present: bool,
        params: Seq<BridgedParam>,
    ) -> Seq<char> {
        join(self.spec_param_declarations(include_receiver_if_present, params), ", "@)
    }

    /// The arguments of the call, the receiver first where asked for; a
    /// parameter of the empty type hands nothing on.
    pub open spec fn spec_call_args(
        &self,
        include_receiver_if_present: bool,
        include_var_name: bool,
        params: Seq<BridgedParam>,
    ) -> Seq<Seq<char>> {
        let rest = spec_args_of(params, self.host_lang, include_var_name);
        if include_receiver_if_present && self.receiver is Some {
            seq![spec_receiver_arg(self.receiver->0)] + rest
        } else {
            rest
        }
    }

    /// The argument list of the call, without its parentheses.
    pub open spec fn spec_to_swift_call_args(
        &self,
        include_receiver_if_present: bool,
        include_var_name: bool,
        params: Seq<BridgedParam>,
    ) -> Seq<char> {
        join(self.spec_call_args(include_receiver_if_present, include_var_name, params), ", "@)
    }

    /// The return clause of the Swift function: nothing for a function that
    /// returns nothing, else an arrow and the type.
    pub open spec fn spec_to_swift_return_type(&self, ret: BridgedType) -> Seq<char> {
        if ret is Void {
            Seq::empty()
        } else {
            " -> "@ + ret.spec_to_swift_type(self.host_lang, TypePosition::FnReturn)
        }
    }

    /// The boundary symbol of the function.
    pub fn link_name(&self, prefix: &str) -> (symbol: String)
        ensures
            symbol@ == self.spec_link_name(prefix@),
    {
        let mut symbol = prefix.to_owned();
        match &self.associated_type {
            Some(ty) => {
                let mut segment = "$".to_owned();
                segment.append(ty.as_str());
                symbol.append(segment.as_str());
            },
            None => {
                assert(symbol@ + Seq::<char>::empty() =~= symbol@);
            },
        }
        symbol.append("$");
        symbol.append(self.name.as_str());
        symbol
    }

    /// The name of the Swift function that stands behind the boundary symbol.
    pub fn prefixed_fn_name(&self, prefix: &str) -> (name: String)
        ensures
            name@ == self.spec_prefixed_fn_name(prefix@),
    {
        let mut name = prefix.to_owned();
        match &self.associated_type {
            Some(ty) => {
                name.append(ty.as_str());
                name.append("_");
            },
            None => {},
        }
        name.append(self.name.as_str());
        name
    }

    /// The name under which Swift code knows the function.
    pub fn swift_name(&self) -> (name: String)
        ensures
            name@ == self.spec_swift_name(),
    {
        match &self.swift_name_override {
            Some(name) => name.clone(),
            None => self.name.clone(),
        }
    }

    /// Classifies every type of the signature. Fails with the first type
    /// that stands for no bridged type: parameters in declared order, then
    /// the return type.
    pub fn bridged_signature(&self, types: &TypeDeclarations) -> (out: Result<
        BridgedSignature,
        CodegenError,
    >)
        ensures
            match out {
                Ok(signature) => self.spec_bridged_signature(types@) == Ok::<
                    SignatureModel,
                    CodegenError,
                >(signature@),
                Err(error) => self.spec_bridged_signature(types@) == Err::<
                    SignatureModel,
                    CodegenError,
                >(error),
            },
    {
        let mut params: Vec<BridgedParam> = Vec::new();
        let mut i: usize = 0;
        while i < self.params.len()
            invariant
                i <= self.params.len(),
                classify_params(self.params@.take(i as int), types@) == Ok::<
                    Seq<BridgedParam>,
                    CodegenError,
                >(params@),
            decreases self.params.len() - i,
        {
            proof {
                assert(self.params@.take(i + 1).drop_last() =~= self.params@.take(i as int));
                assert(self.params@.take(i + 1).last() == self.params@[i as int]);
            }
            match BridgedType::new_with_type(&self.params[i].ty, types) {
                Ok(ty) => {
                    params.push(BridgedParam { name: self.params[i].name.clone(), ty });
                },
                Err(error) => {
                    proof {
                        lemma_classify_params_error(self.params@, i + 1, types@);
                    }
                    return Err(error);
                },
            }
            i += 1;
        }
        assert(self.params@.take(self.params.len() as int) =~= self.params@);
        match BridgedType::new_with_return_type(&self.return_ty, types) {
            Ok(ret) => Ok(BridgedSignature { params, ret }),
            Err(error) => Err(error),
        }
    }

    /// Checks the association of the function: `None` where it has none or
    /// where the associated type is an opaque type declared on the
    /// function's own side, else the failure.
    pub fn association_error(&self, types: &TypeDeclarations) -> (out: Option<CodegenError>)
        ensures
            out == self.spec_association_error(types@),
    {
        match &self.associated_type {
            None => None,
            Some(name) => match types.get(name.as_str()) {
                None => Some(
                    CodegenError { kind: CodegenErrorKind::UnknownAssociatedType, span: self.span },
                ),
                Some(TypeDeclaration::Shared(_)) => Some(
                    CodegenError {
                        kind: CodegenErrorKind::UnsupportedAssociatedType,
                        span: self.span,
                    },
                ),
                Some(TypeDeclaration::Opaque(opaque)) => {
                    let same_side = match (opaque.host_lang, self.host_lang) {
                        (HostLang::Rust, HostLang::Rust) => true,
                        (HostLang::Swift, HostLang::Swift) => true,
                        _ => false,
                    };
                    if same_side {
                        None
                    } else {
                        Some(
                            CodegenError {
                                kind: CodegenErrorKind::UnsupportedAssociatedType,
                                span: self.span,
                            },
                        )
                    }
                },
            },
        }
    }

    /// The parameter list of the Swift function, without its parentheses.
    pub fn to_swift_param_names_and_types(
        &self,
        include_receiver_if_present: bool,
        signature: &BridgedSignature,
    ) -> (out: String)
        ensures
            out@ == self.spec_to_swift_param_names_and_types(
                include_receiver_if_present,
                signature@.params,
            ),
    {
        let mut parts: Vec<String> = Vec::new();
        if include_receiver_if_present && self.receiver.is_some() {
            parts.push("_ this: UnsafeMutableRawPointer".to_owned());
        }
        let ghost lead = views(parts@);
        let mut i: usize = 0;
        assert(signature.params@.take(0) =~= Seq::<BridgedParam>::empty());
        assert(views(parts@) =~= lead + Seq::<Seq<char>>::empty());
        while i < signature.params.len()
            invariant
                i <= signature.params.len(),
                views(parts@) == lead + spec_declarations_of(
                    signature.params@.take(i as int),
                    self.host_lang,
                ),
            decreases signature.params.len() - i,
        {
            proof {
                assert(signature.params@.take(i + 1).drop_last() =~= signature.params@.take(
                    i as int,
                ));
                assert(signature.params@.take(i + 1).last() == signature.params@[i as int]);
            }
            let param = &signature.params[i];
            if !param.ty.is_void() {
                let mut part = "_ ".to_owned();
                part.append(param.name.as_str());
                part.append(": ");
                part.append(param.ty.to_swift_type(self.host_lang, TypePosition::FnArg).as_str());
                let ghost before = views(parts@);
                parts.push(part);
                assert(views(parts@) =~= before.push(part@));
                assert(views(parts@) =~= lead + spec_declarations_of(
                    signature.params@.take(i + 1),
                    self.host_lang,
                ));
            }
            i += 1;
        }
        assert(signature.params@.take(signature.params.len() as int) =~= signature.params@);
        proof {
            if include_receiver_if_present && self.receiver is Some {
                assert(lead =~= seq!["_ this: UnsafeMutableRawPointer"@]);
            } else {
                assert(lead =~= Seq::<Seq<char>>::empty());
                assert(lead + spec_declarations_of(signature.params@, self.host_lang)
                    =~= spec_declarations_of(signature.params@, self.host_lang));
            }
        }
        join_strings(&parts, ", ")
    }

    /// The argument list of the call, without its parentheses.
    pub fn to_swift_call_args(
        &self,
        include_receiver_if_present: bool,
        include_var_name: bool,
        signature: &BridgedSignature,
    ) -> (out: String)
        ensures
            out@ == self.spec_to_swift_call_args(
                include_receiver_if_present,
                include_var_name,
                signature@.params,
            ),
    {
        let mut parts: Vec<String> = Vec::new();
        if include_receiver_if_present {
            match self.receiver {
                Some(Ownership::Owned) => {
                    parts.push("{isOwned = false; return ptr;}()".to_owned());
                },
                Some(_) => {
                    parts.push("ptr".to_owned());
                },
                None => {},
            }
        }
        let ghost lead = views(parts@);
        let mut i: usize = 0;
        assert(signature.params@.take(0) =~= Seq::<BridgedParam>::empty());
        assert(views(parts@) =~= lead + Seq::<Seq<char>>::empty());
        while i < signature.params.len()
            invariant
                i <= signature.params.len(),
                views(parts@) == lead + spec_args_of(
                    signature.params@.take(i as int),
                    self.host_lang,
                    include_var_name,
                ),
            decreases signature.params.len() - i,
        {
            proof {
                assert(signature.params@.take(i + 1).drop_last() =~= signature.params@.take(
                    i as int,
                ));
                assert(signature.params@.take(i + 1).last() == signature.params@[i as int]);
            }
            let param = &signature.params[i];
            if !param.ty.is_void() {
                let value = if self.host_lang.is_rust() {
                    param.ty.convert_swift_expression_to_ffi_compatible(
                        self.host_lang,
                        TypePosition::FnArg,
                        param.name.as_str(),
                    )
                } else {
                    param.ty.convert_ffi_value_to_swift_value(
                        self.host_lang,
                        TypePosition::FnArg,
                        param.name.as_str(),
                    )
                };
                let part = if include_var_name {
                    let mut part = param.name.clone();
                    part.append(": ");
                    part.append(value.as_str());
                    part
                } else {
                    value
                };
                let ghost before = views(parts@);
                parts.push(part);
                assert(views(parts@) =~= before.push(part@));
                assert(views(parts@) =~= lead + spec_args_of(
                    signature.params@.take(i + 1),
                    self.host_lang,
                    include_var_name,
                ));
            }
            i += 1;
        }
        assert(signature.params@.take(signature.params.len() as int) =~= signature.params@);
        proof {
            if include_receiver_if_present && self.receiver is Some {
                assert(lead =~= seq![spec_receiver_arg(self.receiver->0)]);
            } else {
                assert(lead =~= Seq::<Seq<char>>::empty());
                assert(lead + spec_args_of(signature.params@, self.host_lang, include_var_name)
                    =~= spec_args_of(signature.params@, self.host_lang, include_var_name));
            }
        }
        join_strings(&parts, ", ")
    }

    /// The return clause of the Swift function.
    pub fn to_swift_return_type(&self, signature: &BridgedSignature) -> (out: String)
        ensures
            out@ == self.spec_to_swift_return_type(signature@.ret),
    {
        if signature.ret.is_void() {
            String::new()
        } else {
            let mut out = " -> ".to_owned();
            out.append(signature.ret.to_swift_type(self.host_lang, TypePosition::FnReturn).as_str());
            out
        }
    }
}

/// Once the first `n` parameters fail to classify, so does the whole list,
/// and with the same failure.
pub proof fn lemma_classify_params_error(
    params: Seq<FnParam>,
    n: int,
    types: Seq<TypeDeclaration>,
)
    requires
        0 <= n <= params.len(),
        classify_params(params.take(n), types) is Err,
    ensures
        classify_params(params, types) == classify_params(params.take(n), types),
    decreases params.len() - n,
{
    if n < params.len() {
        assert(params.take(n + 1).drop_last() =~= params.take(n));
        lemma_classify_params_error(params, n + 1, types);
    } else {
        assert(params.take(n) =~= params);
    }
}

} // verus!
