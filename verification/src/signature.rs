//! Rewrites the signature of an exported method for the bridge.
//!
//! Every parameter type `T` becomes the source type of the conversion from
//! the foreign side, `<T as FromJavaValue<'env, 'borrow>>::Source`, and the
//! return type `R` the target type of the conversion to it,
//! `<R as IntoJavaValue<'env>>::Target`.  A safe call uses the traits whose
//! conversions may fail, `TryFromJavaValue` and `TryIntoJavaValue`.

use vstd::prelude::*;
use crate::call_type::is_safe;
use crate::call_type::CallType;
use crate::call_type::CallTypeView;
use crate::diagnostics::contains_error;
use crate::diagnostics::has_error;
use crate::diagnostics::lemma_has_error_concat;
use crate::diagnostics::Diagnostic;
use crate::diagnostics::DiagnosticKind;
use crate::diagnostics::DiagnosticView;
use crate::diagnostics::Severity;
use crate::diagnostics::Site;
use crate::freestanding::desugar_diagnostic;
use crate::freestanding::desugared_arg;
use crate::freestanding::FreestandingTransformer;
use crate::lifetimes::synthesis_diagnostics;
use crate::lifetimes::synthesize_lifetimes;
use crate::lifetimes::synthesized_generics;
use crate::lifetimes::SynthesizedGenerics;
use crate::syntax::function::FnArg;
use crate::syntax::function::FnArgView;
use crate::syntax::function::Generics;
use crate::syntax::function::LifetimeDef;
use crate::syntax::function::LifetimeDefView;
use crate::syntax::function::Pat;
use crate::syntax::function::PatType;
use crate::syntax::function::PatTypeView;
use crate::syntax::function::ReturnType;
use crate::syntax::function::ReturnTypeView;
use crate::syntax::function::Signature;
use crate::syntax::function::SignatureView;
use crate::syntax::path::plain_segment;
use crate::syntax::path::path_name;
use crate::syntax::path::GenericArgument;
use crate::syntax::path::GenericArgumentView;
use crate::syntax::path::Path;
use crate::syntax::path::PathArguments;
use crate::syntax::path::PathArgumentsView;
use crate::syntax::path::PathSegment;
use crate::syntax::path::PathSegmentView;
use crate::syntax::path::PathView;
use crate::syntax::ty::is_path_type;
use crate::syntax::ty::unit_type;
use crate::syntax::ty::Type;
use crate::syntax::ty::TypeView;

verus! {

/// The path `::robusta_jni::convert::Trait<'l1, ..>::Assoc` of the
/// associated type `assoc` of the conversion trait `trait_name`.
pub open spec fn conversion_path(
    trait_name: Seq<char>,
    lifetimes: Seq<Seq<char>>,
    assoc: Seq<char>,
) -> PathView {
    PathView {
        leading_colon: true,
        segments: seq![
            plain_segment("robusta_jni"@),
            plain_segment("convert"@),
            PathSegmentView {
                ident: trait_name,
                arguments: PathArgumentsView::AngleBracketed(
                    lifetimes.map_values(|l: Seq<char>| GenericArgumentView::Lifetime(l)),
                ),
            },
            plain_segment(assoc),
        ],
    }
}

/// The name of the trait that converts a value from the foreign side.
pub open spec fn from_trait(safe: bool) -> Seq<char> {
    if safe {
        "TryFromJavaValue"@
    } else {
        "FromJavaValue"@
    }
}

/// The name of the trait that converts a value to the foreign side.
pub open spec fn into_trait(safe: bool) -> Seq<char> {
    if safe {
        "TryIntoJavaValue"@
    } else {
        "IntoJavaValue"@
    }
}

/// The type in which a parameter of type `ty` arrives from the foreign
/// side: `<ty as FromJavaValue<'env, 'borrow>>::Source`.
pub open spec fn source_type(ty: TypeView, safe: bool) -> TypeView {
    TypeView::Qualified {
        ty: Box::new(ty),
        position: 3,
        path: conversion_path(from_trait(safe), seq!["env"@, "borrow"@], "Source"@),
    }
}

/// The type in which a result of type `ty` is handed to the foreign side:
/// `<ty as IntoJavaValue<'env>>::Target`.
pub open spec fn target_type(ty: TypeView, safe: bool) -> TypeView {
    TypeView::Qualified {
        ty: Box::new(ty),
        position: 3,
        path: conversion_path(into_trait(safe), seq!["env"@], "Target"@),
    }
}

/// Whether a value of type `ty` can be returned across the bridge: only
/// paths and references can.
pub open spec fn crosses_bridge(ty: TypeView) -> bool {
    is_path_type(ty) || ty is Reference
}

/// The return type of the generated function, or `None` where the declared
/// one cannot cross the bridge.  No return type stays none, and `()`
/// becomes none.
pub open spec fn folded_return(output: ReturnTypeView, safe: bool) -> Option<ReturnTypeView> {
    match output {
        ReturnTypeView::Omitted => Some(ReturnTypeView::Omitted),
        ReturnTypeView::Declared(ty) => if crosses_bridge(ty) {
            Some(ReturnTypeView::Declared(target_type(ty, safe)))
        } else if ty == unit_type() {
            Some(ReturnTypeView::Omitted)
        } else {
            None
        },
    }
}

/// Whether `arg` is bound by a plain identifier.
pub open spec fn binds_identifier(arg: FnArgView) -> bool {
    arg matches FnArgView::Typed(t) && t.pat is Ident
}

/// The parameter of the generated function that stands for `arg`: `arg`
/// desugared, with its type replaced by the [`source_type`] of that type.
pub open spec fn folded_arg(
    struct_type: PathView,
    fn_name: Seq<char>,
    id: nat,
    safe: bool,
    arg: FnArgView,
) -> FnArgView {
    match desugared_arg(struct_type, fn_name, id, arg) {
        FnArgView::Typed(t) => FnArgView::Typed(
            PatTypeView { attrs: t.attrs, pat: t.pat, ty: source_type(t.ty, safe) },
        ),
        FnArgView::Receiver(r) => arg,
    }
}

fn conversion_path_of(trait_name: &str, with_borrow: bool, assoc: &str) -> (r: Path)
    ensures
        r@ == conversion_path(
            trait_name@,
            if with_borrow {
                seq!["env"@, "borrow"@]
            } else {
                seq!["env"@]
            },
            assoc@,
        ),
{
    let mut lifetimes: Vec<GenericArgument> = Vec::new();
    lifetimes.push(GenericArgument::Lifetime(String::from_str("env")));
    if with_borrow {
        lifetimes.push(GenericArgument::Lifetime(String::from_str("borrow")));
    }
    let ghost names = if with_borrow {
        seq!["env"@, "borrow"@]
    } else {
        seq!["env"@]
    };
    assert(lifetimes.deep_view() =~= names.map_values(
        |l: Seq<char>| GenericArgumentView::Lifetime(l),
    ));
    let mut segments: Vec<PathSegment> = Vec::new();
    segments.push(PathSegment::plain("robusta_jni"));
    segments.push(PathSegment::plain("convert"));
    segments.push(
        PathSegment {
            ident: String::from_str(trait_name),
            arguments: PathArguments::AngleBracketed(lifetimes),
        },
    );
    segments.push(PathSegment::plain(assoc));
    Path { leading_colon: true, segments }
}

/// Wraps `ty` into the source type of the conversion from the foreign side.
pub fn source_type_of(ty: Type, safe: bool) -> (r: Type)
    ensures
        r@ == source_type(ty@, safe),
{
    let path = if safe {
        conversion_path_of("TryFromJavaValue", true, "Source")
    } else {
        conversion_path_of("FromJavaValue", true, "Source")
    };
    Type::Qualified { ty: Box::new(ty), position: 3, path }
}

/// Wraps `ty` into the target type of the conversion to the foreign side.
pub fn target_type_of(ty: Type, safe: bool) -> (r: Type)
    ensures
        r@ == target_type(ty@, safe),
{
    let path = if safe {
        conversion_path_of("TryIntoJavaValue", false, "Target")
    } else {
        conversion_path_of("IntoJavaValue", false, "Target")
    };
    Type::Qualified { ty: Box::new(ty), position: 3, path }
}

/// Rewrites the signature of one method of one type.
#[derive(Debug, PartialEq, Eq)]
pub struct JNISignatureTransformer {
    /// The path of the enclosing type, as written on the `impl` block.
    pub struct_type: Path,
    /// The lifetimes of the `impl` block that the path mentions.
    pub struct_lifetimes: Vec<LifetimeDef>,
    /// The name of the method.
    pub fn_name: String,
    pub call_type: CallType,
    /// The number that makes the receiver's name unique.
    pub id: u64,
    /// The severity of a missing `'env` lifetime.
    pub missing_env_lifetime: Severity,
}

pub struct JNISignatureTransformerView {
    pub struct_type: PathView,
    pub struct_lifetimes: Seq<LifetimeDefView>,
    pub fn_name: Seq<char>,
    pub call_type: CallTypeView,
    pub id: u64,
    pub missing_env_lifetime: Severity,
}

impl DeepView for JNISignatureTransformer {
    type V = JNISignatureTransformerView;

    open spec fn deep_view(&self) -> JNISignatureTransformerView {
        JNISignatureTransformerView {
            struct_type: self.struct_type@,
            struct_lifetimes: self.struct_lifetimes.deep_view(),
            fn_name: self.fn_name@,
            call_type: self.call_type@,
            id: self.id,
            missing_env_lifetime: self.missing_env_lifetime,
        }
    }
}

impl View for JNISignatureTransformer {
    type V = JNISignatureTransformerView;

    open spec fn view(&self) -> JNISignatureTransformerView {
        self.deep_view()
    }
}

/// A parameter after rewriting, with the diagnostic raised on the way.
#[derive(Debug, PartialEq, Eq)]
pub struct FoldedArg {
    pub arg: FnArg,
    pub diagnostic: Option<Diagnostic>,
}

impl JNISignatureTransformer {
    pub fn new(
        struct_type: Path,
        struct_lifetimes: Vec<LifetimeDef>,
        fn_name: String,
        call_type: CallType,
        id: u64,
        missing_env_lifetime: Severity,
    ) -> (r: Self)
        ensures
            r@ == (JNISignatureTransformerView {
                struct_type: struct_type@,
                struct_lifetimes: struct_lifetimes.deep_view(),
                fn_name: fn_name@,
                call_type: call_type@,
                id,
                missing_env_lifetime,
            }),
    {
        JNISignatureTransformer {
            struct_type,
            struct_lifetimes,
            fn_name,
            call_type,
            id,
            missing_env_lifetime,
        }
    }

    /// The generics of the generated function: those of the method, for a
    /// method that takes `self` with the lifetimes of the enclosing type,
    /// and with `'env: 'borrow` and `'borrow` as far as they are missing.
    pub fn transform_generics(&self, generics: &Generics, self_method: bool) -> (r:
        SynthesizedGenerics)
        ensures
            r.generics.deep_view() == synthesized_generics(
                generics@,
                self.struct_lifetimes.deep_view(),
                self_method,
            ),
            r.diagnostics.deep_view() == synthesis_diagnostics(
                generics@,
                self.struct_lifetimes.deep_view(),
                self_method,
                path_name(self.struct_type@),
                self.fn_name@,
            ),
    {
        let struct_name = self.struct_type.name();
        synthesize_lifetimes(
            generics,
            &self.struct_lifetimes,
            self_method,
            &struct_name,
            &self.fn_name,
        )
    }

    /// Rewrites one parameter: the receiver becomes an ordinary parameter,
    /// and the type becomes the source type of its conversion.
    pub fn fold_fn_arg(&self, arg: &FnArg) -> (r: FoldedArg)
        ensures
            r.arg@ == folded_arg(
                self.struct_type@,
                self.fn_name@,
                self.id as nat,
                is_safe(self.call_type@),
                arg@,
            ),
            r.diagnostic.deep_view() == desugar_diagnostic(
                self.struct_type@,
                self.fn_name@,
                self.missing_env_lifetime,
                arg@,
            ),
            r.arg@ is Typed,
    {
        let freestanding = FreestandingTransformer::new(
            self.struct_type.clone(),
            self.fn_name.clone(),
            self.id,
            self.missing_env_lifetime,
        );
        let desugared = freestanding.fold_fn_arg(arg);
        match desugared.arg {
            FnArg::Typed(t) => {
                let ty = source_type_of(t.ty, self.call_type.is_safe());
                FoldedArg {
                    arg: FnArg::Typed(PatType { attrs: t.attrs, pat: t.pat, ty }),
                    diagnostic: desugared.diagnostic,
                }
            },
            FnArg::Receiver(r) => FoldedArg {
                arg: FnArg::Receiver(r),
                diagnostic: desugared.diagnostic,
            },
        }
    }

    /// Rewrites the return type to the target type of its conversion;
    /// `None` where it cannot cross the bridge.
    pub fn fold_return_type(&self, return_type: &ReturnType) -> (r: Option<ReturnType>)
        ensures
            r.deep_view() == folded_return(return_type@, is_safe(self.call_type@)),
    {
        match return_type {
            ReturnType::Omitted => Some(ReturnType::Omitted),
            ReturnType::Declared(ty) => {
                let crosses = match ty {
                    Type::Path(_) => true,
                    Type::Qualified { .. } => true,
                    Type::Reference { .. } => true,
                    _ => false,
                };
                if crosses {
                    Some(ReturnType::Declared(target_type_of(ty.clone(), self.call_type.is_safe())))
                } else if ty.is_unit() {
                    Some(ReturnType::Omitted)
                } else {
                    None
                }
            },
        }
    }
}

/// The error that reports the parameter at `index` as not bound by a
/// plain identifier.
pub open spec fn pattern_diagnostic(t: JNISignatureTransformerView, index: int) -> DiagnosticView {
    DiagnosticView {
        severity: Severity::Error,
        kind: DiagnosticKind::UnsupportedPattern,
        site: Site::Input(index as usize),
        struct_name: path_name(t.struct_type),
        method: Some(t.fn_name),
    }
}

/// The error that reports the return type as unable to cross the bridge.
pub open spec fn return_diagnostic(t: JNISignatureTransformerView) -> DiagnosticView {
    DiagnosticView {
        severity: Severity::Error,
        kind: DiagnosticKind::UnsupportedReturnType,
        site: Site::ReturnType,
        struct_name: path_name(t.struct_type),
        method: Some(t.fn_name),
    }
}

/// The parameter of the generated function that stands for `arg`.
pub open spec fn folded_input(t: JNISignatureTransformerView, arg: FnArgView) -> FnArgView {
    folded_arg(t.struct_type, t.fn_name, t.id as nat, is_safe(t.call_type), arg)
}

/// The diagnostics raised while the parameter `arg` at position `index` is
/// rewritten: that of desugaring, then an error where the parameter is not
/// bound by a plain identifier.
pub open spec fn arg_diagnostics(
    t: JNISignatureTransformerView,
    index: int,
    arg: FnArgView,
) -> Seq<DiagnosticView> {
    let desugaring = match desugar_diagnostic(
        t.struct_type,
        t.fn_name,
        t.missing_env_lifetime,
        arg,
    ) {
        Some(d) => seq![d],
        None => Seq::empty(),
    };
    if binds_identifier(folded_input(t, arg)) {
        desugaring
    } else {
        desugaring.push(pattern_diagnostic(t, index))
    }
}

/// The diagnostics raised while `inputs` are rewritten, in their order.
pub open spec fn inputs_diagnostics(
    t: JNISignatureTransformerView,
    inputs: Seq<FnArgView>,
) -> Seq<DiagnosticView>
    decreases inputs.len(),
{
    if inputs.len() == 0 {
        Seq::empty()
    } else {
        inputs_diagnostics(t, inputs.drop_last()) + arg_diagnostics(
            t,
            inputs.len() - 1,
            inputs.last(),
        )
    }
}

/// The diagnostics raised while the return type is rewritten.
pub open spec fn return_diagnostics(
    t: JNISignatureTransformerView,
    output: ReturnTypeView,
) -> Seq<DiagnosticView> {
    if folded_return(output, is_safe(t.call_type)) is None {
        seq![return_diagnostic(t)]
    } else {
        Seq::empty()
    }
}

/// The diagnostics raised while `sig` is rewritten: those of the generics,
/// of the parameters and of the return type, in this order.
pub open spec fn signature_diagnostics(
    t: JNISignatureTransformerView,
    sig: SignatureView,
    self_method: bool,
) -> Seq<DiagnosticView> {
    synthesis_diagnostics(
        sig.generics,
        t.struct_lifetimes,
        self_method,
        path_name(t.struct_type),
        t.fn_name,
    ) + inputs_diagnostics(t, sig.inputs) + return_diagnostics(t, sig.output)
}

/// The signature of the generated function, or `None` where rewriting
/// raised an error.
pub open spec fn folded_signature(
    t: JNISignatureTransformerView,
    sig: SignatureView,
    self_method: bool,
) -> Option<SignatureView> {
    if has_error(signature_diagnostics(t, sig, self_method)) {
        None
    } else {
        Some(
            SignatureView {
                constness: sig.constness,
                asyncness: sig.asyncness,
                unsafety: sig.unsafety,
                abi: sig.abi,
                ident: sig.ident,
                generics: synthesized_generics(
                    sig.generics,
                    t.struct_lifetimes,
                    self_method,
                ).unwrap(),
                inputs: sig.inputs.map_values(|a: FnArgView| folded_input(t, a)),
                variadic: sig.variadic,
                output: folded_return(sig.output, is_safe(t.call_type)).unwrap(),
            },
        )
    }
}

/// A signature after rewriting, with the diagnostics raised on the way.
#[derive(Debug, PartialEq, Eq)]
pub struct FoldedSignature {
    /// `None` where one of the diagnostics is an error.
    pub signature: Option<Signature>,
    pub diagnostics: Vec<Diagnostic>,
}

impl JNISignatureTransformer {
    /// Rewrites the signature of the method: generics, parameters and
    /// return type.  `self_method` says whether the method takes `self`.
    pub fn fold_signature(&self, node: &Signature, self_method: bool) -> (r: FoldedSignature)
        ensures
            r.signature.deep_view() == folded_signature(self@, node@, self_method),
            r.diagnostics.deep_view() == signature_diagnostics(self@, node@, self_method),
    {
        let synthesis = self.transform_generics(&node.generics, self_method);
        let generics = synthesis.generics;
        let mut diagnostics = synthesis.diagnostics;
        let ghost first = diagnostics.deep_view();
        let mut inputs: Vec<FnArg> = Vec::new();
        let mut i: usize = 0;
        while i < node.inputs.len()
            invariant
                i <= node.inputs.len(),
                inputs.len() == i,
                forall|j: int| 0 <= j < i ==> inputs@[j]@ == folded_input(self@, node@.inputs[j]),
                diagnostics.deep_view() == first + inputs_diagnostics(
                    self@,
                    node@.inputs.take(i as int),
                ),
            decreases node.inputs.len() - i,
        {
            let ghost before = diagnostics.deep_view();
            let ghost arg = node@.inputs[i as int];
            proof {
                assert(node@.inputs.take(i + 1).drop_last() =~= node@.inputs.take(i as int));
            }
            let folded = self.fold_fn_arg(&node.inputs[i]);
            match folded.diagnostic {
                Some(d) => {
                    diagnostics.push(d);
                },
                None => {},
            }
            let bound = match &folded.arg {
                FnArg::Typed(t) => match &t.pat {
                    Pat::Ident(_) => true,
                    Pat::Other(_) => false,
                },
                FnArg::Receiver(_) => false,
            };
            if !bound {
                diagnostics.push(
                    Diagnostic::on_method(
                        Severity::Error,
                        DiagnosticKind::UnsupportedPattern,
                        Site::Input(i),
                        self.struct_type.name(),
                        self.fn_name.clone(),
                    ),
                );
            }
            proof {
                assert(diagnostics.deep_view() =~= before + arg_diagnostics(self@, i as int, arg));
            }
            inputs.push(folded.arg);
            i += 1;
        }
        proof {
            assert(node@.inputs.take(node.inputs.len() as int) =~= node@.inputs);
        }
        let output = self.fold_return_type(&node.output);
        if output.is_none() {
            diagnostics.push(
                Diagnostic::on_method(
                    Severity::Error,
                    DiagnosticKind::UnsupportedReturnType,
                    Site::ReturnType,
                    self.struct_type.name(),
                    self.fn_name.clone(),
                ),
            );
        }
        proof {
            lemma_has_error_concat(
                first + inputs_diagnostics(self@, node@.inputs),
                return_diagnostics(self@, node@.output),
            );
            lemma_has_error_concat(first, inputs_diagnostics(self@, node@.inputs));
        }
        if contains_error(&diagnostics) {
            return FoldedSignature { signature: None, diagnostics };
        }
        match (generics, output) {
            (Some(generics), Some(output)) => {
                let abi = match &node.abi {
                    Some(abi) => Some(abi.clone()),
                    None => None,
                };
                let signature = Signature {
                    constness: node.constness,
                    asyncness: node.asyncness,
                    unsafety: node.unsafety,
                    abi,
                    ident: node.ident.clone(),
                    generics,
                    inputs,
                    variadic: node.variadic,
                    output,
                };
                FoldedSignature { signature: Some(signature), diagnostics }
            },
            _ => {
                proof {
                    if synthesized_generics(
                        node@.generics,
                        self@.struct_lifetimes,
                        self_method,
                    ) is None {
                        assert(first[first.len() - 1].severity == Severity::Error);
                    } else {
                        assert(return_diagnostics(self@, node@.output)[0].severity
                            == Severity::Error);
                    }
                }
                FoldedSignature { signature: None, diagnostics }
            },
        }
    }
}

} // verus!
