//! The lifetimes `'env` and `'borrow` of a generated function.
//!
//! Every conversion is parametrized by the lifetime of the environment,
//! `'env`, and by that of a borrow of it, `'borrow`, with `'env: 'borrow`.
//! A method may declare them itself; what it leaves out is added.

use vstd::prelude::*;
use crate::diagnostics::Diagnostic;
use crate::diagnostics::DiagnosticKind;
use crate::diagnostics::DiagnosticView;
use crate::diagnostics::Severity;
use crate::diagnostics::Site;
use crate::syntax::function::GenericParam;
use crate::syntax::function::GenericParamView;
use crate::syntax::function::Generics;
use crate::syntax::function::GenericsView;
use crate::syntax::function::LifetimeDef;
use crate::syntax::function::LifetimeDefView;
use crate::syntax::ty::clone_opt_string;
use crate::text::text_is;

verus! {

/// Whether `param` declares the lifetime `name`.
pub open spec fn names_lifetime(param: GenericParamView, name: Seq<char>) -> bool {
    param matches GenericParamView::Lifetime(l) && l.lifetime == name
}

/// Whether some parameter of `params` declares the lifetime `name`.
pub open spec fn declares_lifetime(params: Seq<GenericParamView>, name: Seq<char>) -> bool {
    exists|i: int| 0 <= i < params.len() && names_lifetime(#[trigger] params[i], name)
}

/// The position of the last declaration of the lifetime `name` in `params`,
/// or `-1` where there is none.
pub open spec fn last_declaration(params: Seq<GenericParamView>, name: Seq<char>) -> int
    decreases params.len(),
{
    if params.len() == 0 {
        -1
    } else if names_lifetime(params.last(), name) {
        params.len() - 1
    } else {
        last_declaration(params.drop_last(), name)
    }
}

/// The parameters that the synthesis starts from: those of the method, and
/// after them, for a method that takes `self`, the lifetimes of the
/// enclosing type.
pub open spec fn merged_params(
    params: Seq<GenericParamView>,
    struct_lifetimes: Seq<LifetimeDefView>,
    self_method: bool,
) -> Seq<GenericParamView> {
    if self_method {
        params + struct_lifetimes.map_values(|l: LifetimeDefView| GenericParamView::Lifetime(l))
    } else {
        params
    }
}

/// Whether `param` declares `'env` with a bound other than `'borrow`.
pub open spec fn env_with_other_bound(param: GenericParamView) -> bool {
    param matches GenericParamView::Lifetime(l) && l.lifetime == "env"@ && exists|j: int|
        0 <= j < l.bounds.len() && #[trigger] l.bounds[j] != "borrow"@
}

/// The diagnostic of `kind` about the generic parameter at `index`.
pub open spec fn lifetime_diagnostic(
    severity: Severity,
    kind: DiagnosticKind,
    index: int,
    struct_name: Seq<char>,
    fn_name: Seq<char>,
) -> DiagnosticView {
    DiagnosticView {
        severity,
        kind,
        site: Site::GenericParam(index as usize),
        struct_name,
        method: Some(fn_name),
    }
}

/// One warning for each declaration of `'env` with a bound other than
/// `'borrow`, in the order of the declarations.
pub open spec fn env_warnings(
    params: Seq<GenericParamView>,
    struct_name: Seq<char>,
    fn_name: Seq<char>,
) -> Seq<DiagnosticView>
    decreases params.len(),
{
    if params.len() == 0 {
        Seq::empty()
    } else {
        let before = env_warnings(params.drop_last(), struct_name, fn_name);
        if env_with_other_bound(params.last()) {
            before.push(
                lifetime_diagnostic(
                    Severity::Warning,
                    DiagnosticKind::ReservedEnvBounds,
                    params.len() - 1,
                    struct_name,
                    fn_name,
                ),
            )
        } else {
            before
        }
    }
}

/// The declaration `'env: 'borrow`.
pub open spec fn env_declaration() -> GenericParamView {
    GenericParamView::Lifetime(
        LifetimeDefView { attrs: Seq::empty(), lifetime: "env"@, bounds: seq!["borrow"@] },
    )
}

/// The declaration `'borrow`.
pub open spec fn borrow_declaration() -> GenericParamView {
    GenericParamView::Lifetime(
        LifetimeDefView { attrs: Seq::empty(), lifetime: "borrow"@, bounds: Seq::empty() },
    )
}

/// `param` with `'borrow` added to its bounds, where it declares a lifetime.
pub open spec fn with_borrow_bound(param: GenericParamView) -> GenericParamView {
    match param {
        GenericParamView::Lifetime(l) => GenericParamView::Lifetime(
            LifetimeDefView { attrs: l.attrs, lifetime: l.lifetime, bounds: l.bounds.push("borrow"@) },
        ),
        GenericParamView::Other(t) => param,
    }
}

/// The parameters after synthesis, or `None` where `'borrow` is declared
/// without `'env`.
///
/// With both declared nothing changes.  With `'env` alone, its last
/// declaration gets the bound `'borrow`, and `'borrow` is declared at the
/// end.  With neither, `'env: 'borrow` and `'borrow` are declared at the end.
pub open spec fn synthesized_params(params: Seq<GenericParamView>) -> Option<
    Seq<GenericParamView>,
> {
    let env = last_declaration(params, "env"@);
    let borrow = last_declaration(params, "borrow"@);
    if env >= 0 && borrow >= 0 {
        Some(params)
    } else if env >= 0 {
        Some(params.update(env, with_borrow_bound(params[env])).push(borrow_declaration()))
    } else if borrow >= 0 {
        None
    } else {
        Some(params.push(env_declaration()).push(borrow_declaration()))
    }
}

/// The generics of the generated function, or `None` where the synthesis
/// fails.
pub open spec fn synthesized_generics(
    generics: GenericsView,
    struct_lifetimes: Seq<LifetimeDefView>,
    self_method: bool,
) -> Option<GenericsView> {
    match synthesized_params(merged_params(generics.params, struct_lifetimes, self_method)) {
        Some(params) => Some(GenericsView { params, where_clause: generics.where_clause }),
        None => None,
    }
}

/// The diagnostics of the synthesis: the warnings of [`env_warnings`], and
/// after them, where the synthesis fails, an error at the last declaration
/// of `'borrow`.
pub open spec fn synthesis_diagnostics(
    generics: GenericsView,
    struct_lifetimes: Seq<LifetimeDefView>,
    self_method: bool,
    struct_name: Seq<char>,
    fn_name: Seq<char>,
) -> Seq<DiagnosticView> {
    let params = merged_params(generics.params, struct_lifetimes, self_method);
    let warnings = env_warnings(params, struct_name, fn_name);
    if synthesized_params(params) is None {
        warnings.push(
            lifetime_diagnostic(
                Severity::Error,
                DiagnosticKind::BorrowWithoutEnv,
                last_declaration(params, "borrow"@),
                struct_name,
                fn_name,
            ),
        )
    } else {
        warnings
    }
}

/// Generics after synthesis, with the diagnostics raised on the way.
#[derive(Debug, PartialEq, Eq)]
pub struct SynthesizedGenerics {
    /// `None` where the synthesis failed.
    pub generics: Option<Generics>,
    pub diagnostics: Vec<Diagnostic>,
}

/// The last declaration of a lifetime lies among the parameters and names
/// the lifetime, and there is one exactly when the lifetime is declared.
pub proof fn lemma_last_declaration_bounds(params: Seq<GenericParamView>, name: Seq<char>)
    ensures
        -1 <= last_declaration(params, name) < params.len(),
        last_declaration(params, name) >= 0 ==> names_lifetime(
            params[last_declaration(params, name)],
            name,
        ),
        last_declaration(params, name) >= 0 <==> declares_lifetime(params, name),
    decreases params.len(),
{
    if params.len() > 0 {
        let rest = params.drop_last();
        lemma_last_declaration_bounds(rest, name);
        if !names_lifetime(params.last(), name) && declares_lifetime(params, name) {
            let i = choose|i: int| 0 <= i < params.len() && names_lifetime(params[i], name);
            assert(names_lifetime(rest[i], name));
        }
    }
}

/// The two reserved names are different names.
pub proof fn lemma_reserved_names_differ()
    ensures
        "env"@ != "borrow"@,
{
    reveal_strlit("env");
    reveal_strlit("borrow");
    assert("env"@.len() == 3);
}

fn has_other_bound(def: &LifetimeDef) -> (r: bool)
    ensures
        r == (exists|j: int| 0 <= j < def@.bounds.len() && #[trigger] def@.bounds[j] != "borrow"@),
{
    let mut j: usize = 0;
    while j < def.bounds.len()
        invariant
            j <= def.bounds.len(),
            forall|k: int| 0 <= k < j ==> #[trigger] def@.bounds[k] == "borrow"@,
        decreases def.bounds.len() - j,
    {
        if !text_is(&def.bounds[j], "borrow") {
            assert(def@.bounds[j as int] != "borrow"@);
            return true;
        }
        j += 1;
    }
    false
}

fn borrow_def() -> (r: GenericParam)
    ensures
        r@ == borrow_declaration(),
{
    GenericParam::Lifetime(
        LifetimeDef {
            attrs: Vec::new(),
            lifetime: String::from_str("borrow"),
            bounds: Vec::new(),
        },
    )
}

fn env_def() -> (r: GenericParam)
    ensures
        r@ == env_declaration(),
{
    let mut bounds: Vec<String> = Vec::new();
    bounds.push(String::from_str("borrow"));
    GenericParam::Lifetime(
        LifetimeDef { attrs: Vec::new(), lifetime: String::from_str("env"), bounds },
    )
}

fn bounded_by_borrow(param: &GenericParam) -> (r: GenericParam)
    ensures
        r@ == with_borrow_bound(param@),
{
    match param {
        GenericParam::Lifetime(l) => {
            let attrs = l.attrs.clone();
            let mut bounds = l.bounds.clone();
            assert(bounds.deep_view() =~= l.bounds.deep_view());
            bounds.push(String::from_str("borrow"));
            GenericParam::Lifetime(LifetimeDef { attrs, lifetime: l.lifetime.clone(), bounds })
        },
        GenericParam::Other(_) => param.clone(),
    }
}

fn merge_params(
    generics: &Generics,
    struct_lifetimes: &Vec<LifetimeDef>,
    self_method: bool,
) -> (r: Vec<GenericParam>)
    ensures
        r.deep_view() == merged_params(
            generics@.params,
            struct_lifetimes.deep_view(),
            self_method,
        ),
{
    let mut params = generics.params.clone();
    assert(params.deep_view() =~= generics@.params);
    if self_method {
        let mut i: usize = 0;
        while i < struct_lifetimes.len()
            invariant
                i <= struct_lifetimes.len(),
                params.deep_view() == generics@.params + struct_lifetimes.deep_view().take(
                    i as int,
                ).map_values(|l: LifetimeDefView| GenericParamView::Lifetime(l)),
            decreases struct_lifetimes.len() - i,
        {
            let ghost before = params.deep_view();
            params.push(GenericParam::Lifetime(struct_lifetimes[i].clone()));
            assert(params.deep_view() =~= before.push(
                GenericParamView::Lifetime(struct_lifetimes@[i as int]@),
            ));
            i += 1;
        }
        assert(struct_lifetimes.deep_view().take(struct_lifetimes.len() as int)
            =~= struct_lifetimes.deep_view());
    }
    params
}

/// Adds what is missing of `'env: 'borrow` and `'borrow` to the generics of
/// the method `fn_name` of the type `struct_name`.
pub fn synthesize_lifetimes(
    generics: &Generics,
    struct_lifetimes: &Vec<LifetimeDef>,
    self_method: bool,
    struct_name: &String,
    fn_name: &String,
) -> (r: SynthesizedGenerics)
    ensures
        r.generics.deep_view() == synthesized_generics(
            generics@,
            struct_lifetimes.deep_view(),
            self_method,
        ),
        r.diagnostics.deep_view() == synthesis_diagnostics(
            generics@,
            struct_lifetimes.deep_view(),
            self_method,
            struct_name@,
            fn_name@,
        ),
{
    let mut params = merge_params(generics, struct_lifetimes, self_method);
    let ghost merged = params.deep_view();
    let mut diagnostics: Vec<Diagnostic> = Vec::new();
    let mut env: Option<usize> = None;
    let mut borrow: Option<usize> = None;
    let mut i: usize = 0;
    while i < params.len()
        invariant
            i <= params.len(),
            params.deep_view() == merged,
            diagnostics.deep_view() == env_warnings(merged.take(i as int), struct_name@, fn_name@),
            match env {
                Some(e) => e as int == last_declaration(merged.take(i as int), "env"@),
                None => last_declaration(merged.take(i as int), "env"@) == -1,
            },
            match borrow {
                Some(b) => b as int == last_declaration(merged.take(i as int), "borrow"@),
                None => last_declaration(merged.take(i as int), "borrow"@) == -1,
            },
        decreases params.len() - i,
    {
        proof {
            assert(merged.take(i + 1).drop_last() =~= merged.take(i as int));
        }
        match &params[i] {
            GenericParam::Lifetime(l) => {
                if text_is(&l.lifetime, "env") {
                    if has_other_bound(l) {
                        diagnostics.push(
                            Diagnostic::on_method(
                                Severity::Warning,
                                DiagnosticKind::ReservedEnvBounds,
                                Site::GenericParam(i),
                                struct_name.clone(),
                                fn_name.clone(),
                            ),
                        );
                    }
                    env = Some(i);
                } else if text_is(&l.lifetime, "borrow") {
                    borrow = Some(i);
                }
                proof {
                    lemma_reserved_names_differ();
                }
            },
            GenericParam::Other(_) => {},
        }
        i += 1;
    }
    proof {
        assert(merged.take(params.len() as int) =~= merged);
        lemma_last_declaration_bounds(merged, "env"@);
        lemma_last_declaration_bounds(merged, "borrow"@);
    }
    let where_clause = clone_opt_string(&generics.where_clause);
    match (env, borrow) {
        (Some(_), Some(_)) => SynthesizedGenerics {
            generics: Some(Generics { params, where_clause }),
            diagnostics,
        },
        (Some(e), None) => {
            let bounded = bounded_by_borrow(&params[e]);
            params.set(e, bounded);
            params.push(borrow_def());
            SynthesizedGenerics { generics: Some(Generics { params, where_clause }), diagnostics }
        },
        (None, Some(b)) => {
            diagnostics.push(
                Diagnostic::on_method(
                    Severity::Error,
                    DiagnosticKind::BorrowWithoutEnv,
                    Site::GenericParam(b),
                    struct_name.clone(),
                    fn_name.clone(),
                ),
            );
            SynthesizedGenerics { generics: None, diagnostics }
        },
        (None, None) => {
            params.push(env_def());
            params.push(borrow_def());
            SynthesizedGenerics { generics: Some(Generics { params, where_clause }), diagnostics }
        },
    }
}

} // verus!
