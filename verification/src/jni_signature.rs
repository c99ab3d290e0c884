//! The signature of a generated function together with the call that it
//! makes to reach the method.

use vstd::prelude::*;
use crate::call_type::is_safe;
use crate::call_type::CallType;
use crate::call_type::CallTypeView;
use crate::diagnostics::has_error;
use crate::diagnostics::Diagnostic;
use crate::diagnostics::DiagnosticView;
use crate::diagnostics::Severity;
use crate::freestanding::is_self_arg;
use crate::signature::binds_identifier;
use crate::lifetimes::synthesis_diagnostics;
use crate::signature::arg_diagnostics;
use crate::signature::folded_input;
use crate::signature::folded_signature;
use crate::signature::inputs_diagnostics;
use crate::diagnostics::lemma_has_error_concat;
use crate::signature::return_diagnostics;
use crate::syntax::path::path_name;
use crate::signature::signature_diagnostics;
use crate::signature::JNISignatureTransformer;
use crate::signature::JNISignatureTransformerView;
use crate::syntax::function::FnArg;
use crate::syntax::function::FnArgView;
use crate::syntax::function::LifetimeDef;
use crate::syntax::function::Pat;
use crate::syntax::function::PatType;
use crate::syntax::function::Signature;
use crate::syntax::function::SignatureView;
use crate::syntax::path::canonical_path;
use crate::syntax::path::ident_path;
use crate::syntax::path::plain_segment;
use crate::syntax::path::Path;
use crate::syntax::path::PathSegment;
use crate::syntax::path::PathView;
use crate::syntax::shim::ArgExpr;
use crate::syntax::shim::ArgExprView;
use crate::syntax::shim::CallExpr;
use crate::syntax::shim::CallExprView;
use crate::syntax::ty::Type;
use crate::syntax::ty::TypeView;
use crate::text::text_is;

verus! {

/// Whether the method takes `self`: whether its first parameter is a
/// receiver or is named `self`.
pub open spec fn is_self_method(sig: SignatureView) -> bool {
    sig.inputs.len() > 0 && is_self_arg(sig.inputs[0])
}

/// The full path of the type of the environment handle.
pub open spec fn env_handle_path() -> PathView {
    PathView {
        leading_colon: true,
        segments: seq![
            plain_segment("robusta_jni"@),
            plain_segment("jni"@),
            plain_segment("JNIEnv"@),
        ],
    }
}

/// Whether `ty` is a reference to the environment handle, named in full or
/// as `JNIEnv`, whatever its generic arguments.
pub open spec fn is_env_handle(ty: TypeView) -> bool {
    &&& ty matches TypeView::Reference { elem, .. }
    &&& *elem matches TypeView::Path(p)
    &&& (canonical_path(p) == ident_path("JNIEnv"@) || canonical_path(p) == env_handle_path())
}

/// Where the parameter for the environment handle stands, if the method
/// has one: first, or second after `self`.
pub open spec fn env_position(sig: SignatureView) -> int {
    if is_self_method(sig) {
        1
    } else {
        0
    }
}

/// Whether the method has a parameter for the environment handle.
pub open spec fn has_env_arg(sig: SignatureView) -> bool {
    &&& env_position(sig) < sig.inputs.len()
    &&& sig.inputs[env_position(sig)] matches FnArgView::Typed(t)
    &&& is_env_handle(t.ty)
}

/// The parameter for the environment handle, if the method has one.
pub open spec fn env_arg(sig: SignatureView) -> Option<FnArgView> {
    if has_env_arg(sig) {
        Some(sig.inputs[env_position(sig)])
    } else {
        None
    }
}

/// `sig` without the parameter for the environment handle.
pub open spec fn without_env_arg(sig: SignatureView) -> SignatureView {
    if has_env_arg(sig) {
        SignatureView {
            constness: sig.constness,
            asyncness: sig.asyncness,
            unsafety: sig.unsafety,
            abi: sig.abi,
            ident: sig.ident,
            generics: sig.generics,
            inputs: sig.inputs.remove(env_position(sig)),
            variadic: sig.variadic,
            output: sig.output,
        }
    } else {
        sig
    }
}

fn is_self_fn_arg(arg: &FnArg) -> (r: bool)
    ensures
        r == is_self_arg(arg@),
{
    match arg {
        FnArg::Receiver(_) => true,
        FnArg::Typed(t) => match &t.pat {
            Pat::Ident(p) => text_is(&p.ident, "self"),
            Pat::Other(_) => false,
        },
    }
}

/// Whether the method takes `self`.
pub fn self_method(sig: &Signature) -> (r: bool)
    ensures
        r == is_self_method(sig@),
{
    if sig.inputs.len() == 0 {
        false
    } else {
        is_self_fn_arg(&sig.inputs[0])
    }
}

fn env_handle() -> (r: Path)
    ensures
        r@ == env_handle_path(),
{
    let mut segments: Vec<PathSegment> = Vec::new();
    segments.push(PathSegment::plain("robusta_jni"));
    segments.push(PathSegment::plain("jni"));
    segments.push(PathSegment::plain("JNIEnv"));
    Path { leading_colon: true, segments }
}

fn names_env_handle(ty: &Type) -> (r: bool)
    ensures
        r == is_env_handle(ty@),
{
    match ty {
        Type::Reference { elem, .. } => match &**elem {
            Type::Path(p) => {
                assert((**elem)@ == TypeView::Path(p@));
                let canonical = p.canonical();
                canonical.is_ident("JNIEnv") || canonical.matches(&env_handle())
            },
            _ => false,
        },
        _ => false,
    }
}

/// Takes the parameter for the environment handle out of `signature`.
pub fn get_env_arg(signature: Signature) -> (r: (Signature, Option<FnArg>))
    ensures
        r.0@ == without_env_arg(signature@),
        r.1.deep_view() == env_arg(signature@),
{
    let position: usize = if self_method(&signature) {
        1
    } else {
        0
    };
    let found = if position < signature.inputs.len() {
        match &signature.inputs[position] {
            FnArg::Typed(t) => names_env_handle(&t.ty),
            FnArg::Receiver(_) => false,
        }
    } else {
        false
    };
    if found {
        let mut signature = signature;
        let taken = signature.inputs.remove(position);
        (signature, Some(taken))
    } else {
        (signature, None)
    }
}

/// The signature of a generated function, and what is needed to call the
/// method from it.
#[derive(Debug, PartialEq, Eq)]
pub struct JNISignature {
    pub transformed_signature: Signature,
    pub call_type: CallType,
    /// The name of the enclosing type.
    pub struct_name: String,
    /// Whether the method takes `self`.
    pub self_method: bool,
    /// The method's own parameter for the environment handle, if it has one.
    pub env_arg: Option<FnArg>,
}

#[verifier::ext_equal]
pub struct JNISignatureView {
    pub transformed_signature: SignatureView,
    pub call_type: CallTypeView,
    pub struct_name: Seq<char>,
    pub self_method: bool,
    pub env_arg: Option<FnArgView>,
}

impl DeepView for JNISignature {
    type V = JNISignatureView;

    open spec fn deep_view(&self) -> JNISignatureView {
        JNISignatureView {
            transformed_signature: self.transformed_signature@,
            call_type: self.call_type@,
            struct_name: self.struct_name@,
            self_method: self.self_method,
            env_arg: self.env_arg.deep_view(),
        }
    }
}

impl View for JNISignature {
    type V = JNISignatureView;

    open spec fn view(&self) -> JNISignatureView {
        self.deep_view()
    }
}

/// Whether a call can be made from `s`: every parameter is bound by a plain
/// identifier, and there is a parameter to put the environment handle
/// after, where it goes after `self`.
pub open spec fn callable(s: JNISignatureView) -> bool {
    &&& forall|i: int|
        0 <= i < s.transformed_signature.inputs.len() ==> binds_identifier(
            #[trigger] s.transformed_signature.inputs[i],
        )
    &&& s.env_arg is Some && s.self_method ==> s.transformed_signature.inputs.len() >= 1
}

/// The identifier that binds `arg`.
pub open spec fn bound_ident(arg: FnArgView) -> Seq<char> {
    arg->Typed_0.pat->Ident_0.ident
}

/// The argument that converts the parameter `arg`: the conversion that may
/// fail, with its error propagated, for a safe call; the one that cannot
/// fail otherwise.
pub open spec fn conversion_of(arg: FnArgView, safe: bool) -> ArgExprView {
    if safe {
        ArgExprView::TryConvert(bound_ident(arg))
    } else {
        ArgExprView::Convert(bound_ident(arg))
    }
}

/// The arguments of the call: one conversion for each parameter, and the
/// environment handle, where the method takes one, first or after `self`.
pub open spec fn call_args(s: JNISignatureView) -> Seq<ArgExprView> {
    let converted = s.transformed_signature.inputs.map_values(
        |a: FnArgView| conversion_of(a, is_safe(s.call_type)),
    );
    if s.env_arg is Some {
        converted.insert(
            if s.self_method {
                1
            } else {
                0
            },
            ArgExprView::EnvRef,
        )
    } else {
        converted
    }
}

/// The call `struct_name::method(args)` that reaches the method.
pub open spec fn call_of(s: JNISignatureView) -> CallExprView {
    CallExprView {
        struct_name: s.struct_name,
        method: s.transformed_signature.ident,
        args: call_args(s),
    }
}

/// What [`JNISignature::new`] makes of the method with signature `sig`.
pub open spec fn jni_signature(
    t: JNISignatureTransformerView,
    struct_name: Seq<char>,
    sig: SignatureView,
) -> Option<JNISignatureView> {
    match folded_signature(t, without_env_arg(sig), is_self_method(sig)) {
        Some(transformed_signature) => Some(
            JNISignatureView {
                transformed_signature,
                call_type: t.call_type,
                struct_name,
                self_method: is_self_method(sig),
                env_arg: env_arg(sig),
            },
        ),
        None => None,
    }
}

/// The diagnostics that [`JNISignature::new`] raises.
pub open spec fn jni_signature_diagnostics(
    t: JNISignatureTransformerView,
    sig: SignatureView,
) -> Seq<DiagnosticView> {
    signature_diagnostics(t, without_env_arg(sig), is_self_method(sig))
}

/// The outcome of [`JNISignature::new`].
#[derive(Debug, PartialEq, Eq)]
pub struct JNISignatureOutcome {
    /// `None` where one of the diagnostics is an error.
    pub signature: Option<JNISignature>,
    pub diagnostics: Vec<Diagnostic>,
}

/// Where rewriting the parameters raised no error, each of them is bound
/// by a plain identifier afterwards.
pub proof fn lemma_inputs_bound(t: JNISignatureTransformerView, inputs: Seq<FnArgView>)
    requires
        !has_error(inputs_diagnostics(t, inputs)),
    ensures
        forall|i: int| 0 <= i < inputs.len() ==> binds_identifier(folded_input(t, inputs[i])),
    decreases inputs.len(),
{
    if inputs.len() > 0 {
        let rest = inputs.drop_last();
        let last = arg_diagnostics(t, inputs.len() - 1, inputs.last());
        lemma_has_error_concat(inputs_diagnostics(t, rest), last);
        lemma_inputs_bound(t, rest);
        if !binds_identifier(folded_input(t, inputs.last())) {
            assert(last[last.len() - 1].severity == Severity::Error);
        }
        assert forall|i: int| 0 <= i < inputs.len() implies binds_identifier(
            folded_input(t, inputs[i]),
        ) by {
            if i < inputs.len() - 1 {
                assert(inputs[i] == rest[i]);
            }
        }
    }
}

/// A signature that [`jni_signature`] yields can be called from.
pub proof fn lemma_jni_signature_callable(
    t: JNISignatureTransformerView,
    struct_name: Seq<char>,
    sig: SignatureView,
)
    ensures
        jni_signature(t, struct_name, sig) matches Some(s) ==> callable(s),
{
    let split = without_env_arg(sig);
    let self_method = is_self_method(sig);
    if jni_signature(t, struct_name, sig) is Some {
        let generics = synthesis_diagnostics(
            split.generics,
            t.struct_lifetimes,
            self_method,
            path_name(t.struct_type),
            t.fn_name,
        );
        lemma_has_error_concat(
            generics + inputs_diagnostics(t, split.inputs),
            return_diagnostics(t, split.output),
        );
        lemma_has_error_concat(generics, inputs_diagnostics(t, split.inputs));
        lemma_inputs_bound(t, split.inputs);
    }
}

impl JNISignature {
    /// Rewrites the signature of a method of the type at `struct_type`,
    /// named `struct_name`, for the bridge.
    ///
    /// The method's own parameter for the environment handle is set aside
    /// first; the rest is rewritten by a [`JNISignatureTransformer`] for the
    /// method, with `id` to name the receiver.
    pub fn new(
        signature: Signature,
        struct_type: Path,
        struct_name: String,
        struct_lifetimes: Vec<LifetimeDef>,
        call_type: CallType,
        id: u64,
        missing_env_lifetime: Severity,
    ) -> (r: JNISignatureOutcome)
        ensures
            r.signature.deep_view() == jni_signature(
                JNISignatureTransformerView {
                    struct_type: struct_type@,
                    struct_lifetimes: struct_lifetimes.deep_view(),
                    fn_name: signature@.ident,
                    call_type: call_type@,
                    id,
                    missing_env_lifetime,
                },
                struct_name@,
                signature@,
            ),
            r.diagnostics.deep_view() == jni_signature_diagnostics(
                JNISignatureTransformerView {
                    struct_type: struct_type@,
                    struct_lifetimes: struct_lifetimes.deep_view(),
                    fn_name: signature@.ident,
                    call_type: call_type@,
                    id,
                    missing_env_lifetime,
                },
                signature@,
            ),
            r.signature matches Some(s) ==> callable(s@),
    {
        let transformer = JNISignatureTransformer::new(
            struct_type,
            struct_lifetimes,
            signature.ident.clone(),
            call_type.clone(),
            id,
            missing_env_lifetime,
        );
        let ghost original = signature@;
        let takes_self = self_method(&signature);
        let (split, env_arg) = get_env_arg(signature);
        let folded = transformer.fold_signature(&split, takes_self);
        proof {
            lemma_jni_signature_callable(transformer@, struct_name@, original);
        }
        match folded.signature {
            Some(transformed_signature) => JNISignatureOutcome {
                signature: Some(
                    JNISignature {
                        transformed_signature,
                        call_type,
                        struct_name,
                        self_method: takes_self,
                        env_arg,
                    },
                ),
                diagnostics: folded.diagnostics,
            },
            None => JNISignatureOutcome { signature: None, diagnostics: folded.diagnostics },
        }
    }

    /// The parameters of the generated function.
    pub fn args(&self) -> (r: Vec<&PatType>)
        requires
            callable(self@),
        ensures
            r@.len() == self.transformed_signature.inputs@.len(),
            forall|i: int|
                0 <= i < r@.len() ==> self.transformed_signature.inputs@[i] == FnArg::Typed(
                    *#[trigger] r@[i],
                ),
    {
        let inputs = &self.transformed_signature.inputs;
        let mut out: Vec<&PatType> = Vec::new();
        let mut i: usize = 0;
        while i < inputs.len()
            invariant
                i <= inputs.len(),
                out@.len() == i,
                inputs == &self.transformed_signature.inputs,
                callable(self@),
                forall|j: int| 0 <= j < i ==> inputs@[j] == FnArg::Typed(*#[trigger] out@[j]),
            decreases inputs.len() - i,
        {
            assert(self@.transformed_signature.inputs[i as int] == inputs@[i as int]@);
            match &inputs[i] {
                FnArg::Typed(t) => {
                    out.push(t);
                },
                FnArg::Receiver(_) => {},
            }
            i += 1;
        }
        out
    }

    /// The call that reaches the method from the generated function.
    pub fn signature_call(&self) -> (r: CallExpr)
        requires
            callable(self@),
        ensures
            r@ == call_of(self@),
    {
        let safe = self.call_type.is_safe();
        let params = self.args();
        let mut args: Vec<ArgExpr> = Vec::new();
        let mut i: usize = 0;
        while i < params.len()
            invariant
                i <= params.len(),
                args@.len() == i,
                safe == is_safe(self@.call_type),
                callable(self@),
                params@.len() == self.transformed_signature.inputs@.len(),
                forall|j: int|
                    0 <= j < params@.len() ==> self.transformed_signature.inputs@[j]
                        == FnArg::Typed(*#[trigger] params@[j]),
                forall|j: int|
                    0 <= j < i ==> args@[j]@ == conversion_of(
                        self@.transformed_signature.inputs[j],
                        safe,
                    ),
            decreases params.len() - i,
        {
            assert(self@.transformed_signature.inputs[i as int]
                == self.transformed_signature.inputs@[i as int]@);
            match &params[i].pat {
                Pat::Ident(p) => {
                    if safe {
                        args.push(ArgExpr::TryConvert(p.ident.clone()));
                    } else {
                        args.push(ArgExpr::Convert(p.ident.clone()));
                    }
                },
                Pat::Other(_) => {},
            }
            i += 1;
        }
        if self.env_arg.is_some() {
            let position: usize = if self.self_method {
                1
            } else {
                0
            };
            args.insert(position, ArgExpr::EnvRef);
        }
        CallExpr {
            struct_name: self.struct_name.clone(),
            method: self.transformed_signature.ident.clone(),
            args,
        }
    }

    /// The signature of the generated function.
    pub fn transformed_signature(&self) -> (r: &Signature)
        ensures
            r == &self.transformed_signature,
    {
        &self.transformed_signature
    }
}

} // verus!
