//! What holds of the passes on every input.

use vstd::prelude::*;
use crate::call_type::is_safe;
use crate::classify::abi_name;
use crate::classify::cleaned_item;
use crate::classify::item_type;
use crate::classify::method_type;
use crate::classify::survives_cleaning;
use crate::diagnostics::has_error;
use crate::diagnostics::DiagnosticKind;
use crate::diagnostics::DiagnosticView;
use crate::diagnostics::Severity;
use crate::freestanding::desugar_diagnostic;
use crate::freestanding::desugared_arg;
use crate::freestanding::is_self_arg;
use crate::freestanding::receiver_ident;
use crate::freestanding::self_type;
use crate::jni_signature::bound_ident;
use crate::jni_signature::call_args;
use crate::jni_signature::callable;
use crate::jni_signature::JNISignatureView;
use crate::lifetimes::borrow_declaration;
use crate::lifetimes::declares_lifetime;
use crate::lifetimes::env_declaration;
use crate::lifetimes::env_warnings;
use crate::lifetimes::lemma_last_declaration_bounds;
use crate::lifetimes::lemma_reserved_names_differ;
use crate::lifetimes::merged_params;
use crate::lifetimes::names_lifetime;
use crate::lifetimes::synthesis_diagnostics;
use crate::lifetimes::synthesized_generics;
use crate::signature::folded_return;
use crate::signature::folded_signature;
use crate::signature::inputs_diagnostics;
use crate::diagnostics::lemma_has_error_concat;
use crate::signature::return_diagnostics;
use crate::signature::signature_diagnostics;
use crate::signature::JNISignatureTransformerView;
use crate::syntax::function::AttributeView;
use crate::syntax::function::FnArgView;
use crate::syntax::function::GenericParamView;
use crate::syntax::function::GenericsView;
use crate::syntax::function::ImplItemMethodView;
use crate::syntax::function::ImplItemView;
use crate::syntax::function::LifetimeDefView;
use crate::syntax::function::ReturnTypeView;
use crate::syntax::function::SignatureView;
use crate::syntax::path::path_has_lifetime;
use crate::syntax::path::path_name;
use crate::syntax::path::PathView;
use crate::syntax::shim::ArgExprView;
use crate::syntax::ty::unit_type;
use crate::syntax::ty::TypeView;

verus! {

/// On a type whose path carries the lifetime `'env`, the parameter that
/// stands for `self` is desugared without a diagnostic.  It becomes a
/// parameter with its type written out and gets the receiver's name.  A
/// receiver gets the type of the enclosing type: the type itself for
/// `self`, a reference to it with the receiver's lifetime and mutability
/// for `&self`.  A parameter written `self: T` keeps the type `T`.
pub proof fn law_self_is_desugared(
    struct_type: PathView,
    fn_name: Seq<char>,
    id: nat,
    severity: Severity,
    arg: FnArgView,
)
    requires
        path_has_lifetime(struct_type, "env"@),
        is_self_arg(arg),
    ensures
        desugar_diagnostic(struct_type, fn_name, severity, arg) is None,
        desugared_arg(struct_type, fn_name, id, arg) is Typed,
        desugared_arg(struct_type, fn_name, id, arg)->Typed_0.pat is Ident,
        desugared_arg(struct_type, fn_name, id, arg)->Typed_0.pat->Ident_0.ident == receiver_ident(
            struct_type,
            fn_name,
            id,
        ),
        arg matches FnArgView::Receiver(r) ==> desugared_arg(
            struct_type,
            fn_name,
            id,
            arg,
        )->Typed_0.ty == self_type(struct_type, r.reference, r.mutable),
        arg matches FnArgView::Receiver(r) ==> (r.reference matches Some(lifetime)
            ==> desugared_arg(struct_type, fn_name, id, arg)->Typed_0.ty == (TypeView::Reference {
            lifetime,
            mutable: r.mutable,
            elem: Box::new(TypeView::Path(struct_type)),
        })),
        arg matches FnArgView::Receiver(r) ==> (r.reference is None ==> desugared_arg(
            struct_type,
            fn_name,
            id,
            arg,
        )->Typed_0.ty == TypeView::Path(struct_type)),
        arg matches FnArgView::Typed(t) ==> desugared_arg(struct_type, fn_name, id, arg)->Typed_0.ty
            == t.ty,
{
}

/// Where neither `'env` nor `'borrow` is declared, the synthesis succeeds
/// without a diagnostic and declares both at the end: `'env: 'borrow`, then
/// `'borrow`.  Afterwards exactly one parameter declares `'env` and exactly
/// one `'borrow`.
pub proof fn law_missing_lifetimes_are_declared(
    generics: GenericsView,
    struct_lifetimes: Seq<LifetimeDefView>,
    self_method: bool,
    struct_name: Seq<char>,
    fn_name: Seq<char>,
)
    requires
        !declares_lifetime(
            merged_params(generics.params, struct_lifetimes, self_method),
            "env"@,
        ),
        !declares_lifetime(
            merged_params(generics.params, struct_lifetimes, self_method),
            "borrow"@,
        ),
    ensures
        synthesized_generics(generics, struct_lifetimes, self_method) matches Some(g) && {
            let merged = merged_params(generics.params, struct_lifetimes, self_method);
            &&& g.params == merged.push(env_declaration()).push(borrow_declaration())
            &&& g.where_clause == generics.where_clause
            &&& forall|i: int|
                0 <= i < g.params.len() ==> (names_lifetime(#[trigger] g.params[i], "env"@) <==> i
                    == merged.len())
            &&& forall|i: int|
                0 <= i < g.params.len() ==> (names_lifetime(#[trigger] g.params[i], "borrow"@)
                    <==> i == merged.len() + 1)
            &&& g.params[merged.len() as int]->Lifetime_0.bounds == seq!["borrow"@]
        },
        synthesis_diagnostics(generics, struct_lifetimes, self_method, struct_name, fn_name)
            == Seq::<DiagnosticView>::empty(),
{
    let merged = merged_params(generics.params, struct_lifetimes, self_method);
    lemma_last_declaration_bounds(merged, "env"@);
    lemma_last_declaration_bounds(merged, "borrow"@);
    lemma_reserved_names_differ();
    lemma_no_env_no_warning(merged, struct_name, fn_name);
}

/// Parameters that do not declare `'env` raise no warning.
proof fn lemma_no_env_no_warning(
    params: Seq<GenericParamView>,
    struct_name: Seq<char>,
    fn_name: Seq<char>,
)
    requires
        !declares_lifetime(params, "env"@),
    ensures
        env_warnings(params, struct_name, fn_name) == Seq::<DiagnosticView>::empty(),
    decreases params.len(),
{
    if params.len() > 0 {
        lemma_no_env_no_warning(params.drop_last(), struct_name, fn_name);
    }
}

/// Where `'borrow` is declared and `'env` is not, the synthesis fails, and
/// its last diagnostic is the error that says so.  No signature is made
/// for such a method.
pub proof fn law_borrow_needs_env(
    t: JNISignatureTransformerView,
    sig: SignatureView,
    self_method: bool,
    struct_name: Seq<char>,
)
    requires
        declares_lifetime(
            merged_params(sig.generics.params, t.struct_lifetimes, self_method),
            "borrow"@,
        ),
        !declares_lifetime(
            merged_params(sig.generics.params, t.struct_lifetimes, self_method),
            "env"@,
        ),
    ensures
        synthesized_generics(sig.generics, t.struct_lifetimes, self_method) is None,
        ({
            let diagnostics = synthesis_diagnostics(
                sig.generics,
                t.struct_lifetimes,
                self_method,
                struct_name,
                t.fn_name,
            );
            &&& diagnostics.len() > 0
            &&& diagnostics.last().severity == Severity::Error
            &&& diagnostics.last().kind == DiagnosticKind::BorrowWithoutEnv
        }),
        has_error(signature_diagnostics(t, sig, self_method)),
        folded_signature(t, sig, self_method) is None,
{
    let merged = merged_params(sig.generics.params, t.struct_lifetimes, self_method);
    lemma_last_declaration_bounds(merged, "env"@);
    lemma_last_declaration_bounds(merged, "borrow"@);
    let first = synthesis_diagnostics(
        sig.generics,
        t.struct_lifetimes,
        self_method,
        path_name(t.struct_type),
        t.fn_name,
    );
    assert(first[first.len() - 1].severity == Severity::Error);
    lemma_has_error_concat(first, inputs_diagnostics(t, sig.inputs));
    lemma_has_error_concat(
        first + inputs_diagnostics(t, sig.inputs),
        return_diagnostics(t, sig.output),
    );
}

/// A method that returns `()` yields a function without return type, in
/// either call mode: rewriting the return type raises no diagnostic, and a
/// signature that is made has none.
pub proof fn law_unit_return_is_dropped(
    t: JNISignatureTransformerView,
    sig: SignatureView,
    self_method: bool,
)
    requires
        sig.output == ReturnTypeView::Declared(unit_type()),
    ensures
        folded_return(sig.output, true) == Some(ReturnTypeView::Omitted),
        folded_return(sig.output, false) == Some(ReturnTypeView::Omitted),
        return_diagnostics(t, sig.output) == Seq::<DiagnosticView>::empty(),
        folded_signature(t, sig, self_method) matches Some(s) ==> s.output
            == ReturnTypeView::Omitted,
{
}

/// Where the argument for the parameter at `index` stands in the call:
/// one further where the environment handle is put before it.
pub open spec fn argument_position(s: JNISignatureView, index: int) -> int {
    let env: int = if s.self_method {
        1
    } else {
        0
    };
    if s.env_arg is Some && index >= env {
        index + 1
    } else {
        index
    }
}

/// In the unchecked mode the argument for every parameter is the
/// conversion that cannot fail; in the safe mode it is the conversion that
/// may fail, with its error propagated.  Each converts the identifier that
/// binds its parameter, and the only other argument is the environment
/// handle.
pub proof fn law_conversions_follow_call_mode(s: JNISignatureView)
    requires
        callable(s),
    ensures
        call_args(s).len() == s.transformed_signature.inputs.len() + if s.env_arg is Some {
            1int
        } else {
            0int
        },
        forall|i: int|
            0 <= i < s.transformed_signature.inputs.len() ==> #[trigger] call_args(
                s,
            )[argument_position(s, i)] == if is_safe(s.call_type) {
                ArgExprView::TryConvert(bound_ident(s.transformed_signature.inputs[i]))
            } else {
                ArgExprView::Convert(bound_ident(s.transformed_signature.inputs[i]))
            },
        forall|k: int|
            0 <= k < call_args(s).len() ==> {
                let arg = #[trigger] call_args(s)[k];
                if is_safe(s.call_type) {
                    arg is TryConvert || arg is EnvRef
                } else {
                    arg is Convert || arg is EnvRef
                }
            },
{
}

/// The class of a method depends on its calling-convention marker alone.
pub proof fn law_class_depends_on_marker(a: ImplItemMethodView, b: ImplItemMethodView)
    requires
        abi_name(a.sig) == abi_name(b.sig),
    ensures
        method_type(a) == method_type(b),
{
}

/// Cleaning does not change the class of an item, and an item that was
/// cleaned is not changed by cleaning it again.
pub proof fn law_cleaning_keeps_class(item: ImplItemView)
    ensures
        item_type(cleaned_item(item)) == item_type(item),
        cleaned_item(cleaned_item(item)) == cleaned_item(item),
{
    match item {
        ImplItemView::Method(m) => {
            lemma_filter_again(m.attrs, |a: AttributeView| survives_cleaning(a));
        },
        ImplItemView::Other(_) => {},
    }
}

/// Filtering what was filtered changes nothing.
proof fn lemma_filter_again<A>(s: Seq<A>, keep: spec_fn(A) -> bool)
    ensures
        s.filter(keep).filter(keep) == s.filter(keep),
    decreases s.len(),
{
    reveal(Seq::filter);
    if s.len() > 0 {
        let rest = s.drop_last();
        lemma_filter_again(rest, keep);
        if keep(s.last()) {
            let once = rest.filter(keep).push(s.last());
            assert(once.drop_last() =~= rest.filter(keep));
        }
    }
}

} // verus!
