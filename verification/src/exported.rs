//! Generates the freestanding function for an exported method.

use vstd::prelude::*;
use crate::call_type::CallTypeView;
use crate::diagnostics::Diagnostic;
use crate::diagnostics::DiagnosticKind;
use crate::diagnostics::DiagnosticView;
use crate::diagnostics::Severity;
use crate::diagnostics::Site;
use crate::jni_signature::call_of;
use crate::jni_signature::jni_signature;
use crate::jni_signature::jni_signature_diagnostics;
use crate::jni_signature::JNISignature;
use crate::signature::JNISignatureTransformerView;
use crate::syntax::function::Attribute;
use crate::syntax::function::AttributeView;
use crate::syntax::function::ImplItemMethod;
use crate::syntax::function::ImplItemMethodView;
use crate::syntax::function::LifetimeDef;
use crate::syntax::function::LifetimeDefView;
use crate::syntax::path::ident_path;
use crate::syntax::path::Path;
use crate::syntax::path::PathView;
use crate::syntax::shim::ExportedFn;
use crate::syntax::shim::ExportedFnView;

verus! {

/// Generates the functions for the exported methods of one `impl` block.
#[derive(Debug, PartialEq, Eq)]
pub struct ExportedMethodTransformer {
    /// The path of the type, as written on the `impl` block.
    pub struct_type: Path,
    /// The name of the type.
    pub struct_name: String,
    /// The lifetimes of the `impl` block that the path mentions.
    pub struct_lifetimes: Vec<LifetimeDef>,
    /// The package of the type.
    pub package: String,
    /// The severity of a missing `'env` lifetime.
    pub missing_env_lifetime: Severity,
}

pub struct ExportedMethodTransformerView {
    pub struct_type: PathView,
    pub struct_name: Seq<char>,
    pub struct_lifetimes: Seq<LifetimeDefView>,
    pub package: Seq<char>,
    pub missing_env_lifetime: Severity,
}

impl DeepView for ExportedMethodTransformer {
    type V = ExportedMethodTransformerView;

    open spec fn deep_view(&self) -> ExportedMethodTransformerView {
        ExportedMethodTransformerView {
            struct_type: self.struct_type@,
            struct_name: self.struct_name@,
            struct_lifetimes: self.struct_lifetimes.deep_view(),
            package: self.package@,
            missing_env_lifetime: self.missing_env_lifetime,
        }
    }
}

impl View for ExportedMethodTransformer {
    type V = ExportedMethodTransformerView;

    open spec fn view(&self) -> ExportedMethodTransformerView {
        self.deep_view()
    }
}

/// The number that names the receiver of the next method, as long as one
/// is left below the greatest.
pub open spec fn receiver_id(next: u64) -> Option<u64> {
    if next < u64::MAX {
        Some(next)
    } else {
        None
    }
}

/// The counter after a number was asked for.
pub open spec fn after_receiver_id(next: u64) -> u64 {
    if next < u64::MAX {
        (next + 1) as u64
    } else {
        next
    }
}

/// The diagnostic of `kind` about the method as a whole.
pub open spec fn method_diagnostic(
    e: ExportedMethodTransformerView,
    method: ImplItemMethodView,
    kind: DiagnosticKind,
) -> DiagnosticView {
    DiagnosticView {
        severity: Severity::Error,
        kind,
        site: Site::Method,
        struct_name: e.struct_name,
        method: Some(method.sig.ident),
    }
}

/// The signature transformer for `method` in the call mode `call_type`.
pub open spec fn transformer_for(
    e: ExportedMethodTransformerView,
    method: ImplItemMethodView,
    call_type: CallTypeView,
    id: u64,
) -> JNISignatureTransformerView {
    JNISignatureTransformerView {
        struct_type: e.struct_type,
        struct_lifetimes: e.struct_lifetimes,
        fn_name: method.sig.ident,
        call_type,
        id,
        missing_env_lifetime: e.missing_env_lifetime,
    }
}

/// The diagnostics raised while the function for `method` is generated.
/// A method without call mode is an error, and so is one for which no
/// number is left; otherwise they are those of rewriting the signature.
pub open spec fn export_diagnostics(
    e: ExportedMethodTransformerView,
    method: ImplItemMethodView,
    id: Option<u64>,
) -> Seq<DiagnosticView> {
    match method.call_type {
        None => seq![method_diagnostic(e, method, DiagnosticKind::MissingCallType)],
        Some(call_type) => match id {
            None => seq![method_diagnostic(e, method, DiagnosticKind::ReceiverNamesExhausted)],
            Some(id) => jni_signature_diagnostics(
                transformer_for(e, method, call_type, id),
                method.sig,
            ),
        },
    }
}

/// Whether `attr` is a `call_type` attribute.
pub open spec fn is_call_type_attribute(attr: AttributeView) -> bool {
    attr.path == ident_path("call_type"@)
}

/// The function generated for `method`, or `None` where generating it
/// raised an error.  It has the attributes of the method but `call_type`,
/// the rewritten signature, and the call that reaches the method.
pub open spec fn exported_fn(
    e: ExportedMethodTransformerView,
    method: ImplItemMethodView,
    id: Option<u64>,
) -> Option<ExportedFnView> {
    match (method.call_type, id) {
        (Some(call_type), Some(id)) => match jni_signature(
            transformer_for(e, method, call_type, id),
            e.struct_name,
            method.sig,
        ) {
            Some(s) => Some(
                ExportedFnView {
                    attrs: method.attrs.filter(|a: AttributeView| !is_call_type_attribute(a)),
                    sig: s.transformed_signature,
                    call: call_of(s),
                    call_type,
                    package: e.package,
                },
            ),
            None => None,
        },
        _ => None,
    }
}

/// The outcome of generating the function for one method.
#[derive(Debug, PartialEq, Eq)]
pub struct ExportOutcome {
    /// `None` where one of the diagnostics is an error.
    pub function: Option<ExportedFn>,
    pub diagnostics: Vec<Diagnostic>,
}

fn without_call_type(attrs: &Vec<Attribute>) -> (r: Vec<Attribute>)
    ensures
        r.deep_view() == attrs.deep_view().filter(|a: AttributeView| !is_call_type_attribute(a)),
{
    let ghost keep = |a: AttributeView| !is_call_type_attribute(a);
    let mut out: Vec<Attribute> = Vec::new();
    let mut i: usize = 0;
    proof {
        reveal(Seq::filter);
    }
    while i < attrs.len()
        invariant
            i <= attrs.len(),
            keep == (|a: AttributeView| !is_call_type_attribute(a)),
            out.deep_view() == attrs.deep_view().take(i as int).filter(keep),
        decreases attrs.len() - i,
    {
        proof {
            let upto = attrs.deep_view().take(i + 1);
            assert(upto.drop_last() =~= attrs.deep_view().take(i as int));
            reveal(Seq::filter);
        }
        let attr = &attrs[i];
        if !attr.path.is_ident("call_type") {
            out.push(attr.clone());
        }
        i += 1;
    }
    proof {
        assert(attrs.deep_view().take(attrs.len() as int) =~= attrs.deep_view());
    }
    out
}

impl ExportedMethodTransformer {
    /// Generates the function for `method`; `id` is the number that names
    /// its receiver, or `None` where none is left.
    pub fn export(&self, method: &ImplItemMethod, id: Option<u64>) -> (r: ExportOutcome)
        ensures
            r.function.deep_view() == exported_fn(self@, method@, id),
            r.diagnostics.deep_view() == export_diagnostics(self@, method@, id),
    {
        let (call_type, id) = match (&method.call_type, id) {
            (None, _) => {
                let mut diagnostics: Vec<Diagnostic> = Vec::new();
                diagnostics.push(
                    Diagnostic::on_method(
                        Severity::Error,
                        DiagnosticKind::MissingCallType,
                        Site::Method,
                        self.struct_name.clone(),
                        method.sig.ident.clone(),
                    ),
                );
                return ExportOutcome { function: None, diagnostics };
            },
            (Some(_), None) => {
                let mut diagnostics: Vec<Diagnostic> = Vec::new();
                diagnostics.push(
                    Diagnostic::on_method(
                        Severity::Error,
                        DiagnosticKind::ReceiverNamesExhausted,
                        Site::Method,
                        self.struct_name.clone(),
                        method.sig.ident.clone(),
                    ),
                );
                return ExportOutcome { function: None, diagnostics };
            },
            (Some(call_type), Some(id)) => (call_type, id),
        };
        let struct_lifetimes = self.struct_lifetimes.clone();
        let outcome = JNISignature::new(
            method.sig.clone(),
            self.struct_type.clone(),
            self.struct_name.clone(),
            struct_lifetimes,
            call_type.clone(),
            id,
            self.missing_env_lifetime,
        );
        match outcome.signature {
            Some(signature) => {
                let call = signature.signature_call();
                let function = ExportedFn {
                    attrs: without_call_type(&method.attrs),
                    sig: signature.transformed_signature,
                    call,
                    call_type: signature.call_type,
                    package: self.package.clone(),
                };
                ExportOutcome { function: Some(function), diagnostics: outcome.diagnostics }
            },
            None => ExportOutcome { function: None, diagnostics: outcome.diagnostics },
        }
    }
}

} // verus!
