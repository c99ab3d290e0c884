//! Turns the receiver of a method into an ordinary parameter.

use vstd::prelude::*;
use crate::diagnostics::Diagnostic;
use crate::diagnostics::DiagnosticKind;
use crate::diagnostics::DiagnosticView;
use crate::diagnostics::Severity;
use crate::diagnostics::Site;
use crate::syntax::function::FnArg;
use crate::syntax::function::FnArgView;
use crate::syntax::function::Pat;
use crate::syntax::function::PatIdent;
use crate::syntax::function::PatIdentView;
use crate::syntax::function::PatType;
use crate::syntax::function::PatTypeView;
use crate::syntax::function::PatView;
use crate::syntax::path::path_has_lifetime;
use crate::syntax::path::path_idents;
use crate::syntax::path::path_is_parametrized;
use crate::syntax::path::path_name;
use crate::syntax::path::Path;
use crate::syntax::path::PathView;
use crate::syntax::ty::clone_opt_string;
use crate::syntax::ty::Type;
use crate::syntax::ty::TypeView;
use crate::text::decimal;
use crate::text::decimal_string;
use crate::text::join;
use crate::text::joined;
use crate::text::text_is;

verus! {

/// The name given to the receiver of the method `fn_name` of the type at
/// `struct_type`: the word `receiver`, the identifiers of the path, the
/// method's name and the number `id`, with `_` between them.
pub open spec fn receiver_ident(struct_type: PathView, fn_name: Seq<char>, id: nat) -> Seq<char> {
    "receiver_"@ + joined(path_idents(struct_type), "_"@) + "_"@ + fn_name + "_"@ + decimal(id)
}

/// The type of a receiver of the type at `struct_type`: the type itself for
/// `self`, a reference with the receiver's lifetime and mutability for
/// `&self`.
pub open spec fn self_type(
    struct_type: PathView,
    reference: Option<Option<Seq<char>>>,
    mutable: bool,
) -> TypeView {
    match reference {
        Some(lifetime) => TypeView::Reference {
            lifetime,
            mutable,
            elem: Box::new(TypeView::Path(struct_type)),
        },
        None => TypeView::Path(struct_type),
    }
}

/// Whether the path has generic arguments but not the lifetime `'env`.
pub open spec fn needs_env_lifetime(struct_type: PathView) -> bool {
    path_is_parametrized(struct_type) && !path_has_lifetime(struct_type, "env"@)
}

/// Whether `arg` is a parameter named `self` with its type written out.
pub open spec fn is_typed_self(arg: FnArgView) -> bool {
    arg matches FnArgView::Typed(t) && t.pat matches PatView::Ident(p) && p.ident == "self"@
}

/// Whether `arg` stands for the value that the method is called on.
pub open spec fn is_self_arg(arg: FnArgView) -> bool {
    arg is Receiver || is_typed_self(arg)
}

/// `arg` as a parameter of a freestanding function.  A receiver becomes a
/// parameter of the type [`self_type`] named [`receiver_ident`]; a parameter
/// named `self` is renamed so and keeps its type; any other is unchanged.
pub open spec fn desugared_arg(
    struct_type: PathView,
    fn_name: Seq<char>,
    id: nat,
    arg: FnArgView,
) -> FnArgView {
    match arg {
        FnArgView::Receiver(r) => FnArgView::Typed(
            PatTypeView {
                attrs: r.attrs,
                pat: PatView::Ident(
                    PatIdentView {
                        by_ref: false,
                        mutable: false,
                        ident: receiver_ident(struct_type, fn_name, id),
                        subpat: None,
                    },
                ),
                ty: self_type(struct_type, r.reference, r.mutable),
            },
        ),
        FnArgView::Typed(t) => if is_typed_self(arg) {
            FnArgView::Typed(
                PatTypeView {
                    attrs: t.attrs,
                    pat: PatView::Ident(
                        PatIdentView {
                            by_ref: t.pat->Ident_0.by_ref,
                            mutable: t.pat->Ident_0.mutable,
                            ident: receiver_ident(struct_type, fn_name, id),
                            subpat: t.pat->Ident_0.subpat,
                        },
                    ),
                    ty: t.ty,
                },
            )
        } else {
            arg
        },
    }
}

/// The diagnostic raised while `arg` is desugared: a receiver of a type
/// that [`needs_env_lifetime`] is reported with `severity`.
pub open spec fn desugar_diagnostic(
    struct_type: PathView,
    fn_name: Seq<char>,
    severity: Severity,
    arg: FnArgView,
) -> Option<DiagnosticView> {
    if arg is Receiver && needs_env_lifetime(struct_type) {
        Some(
            DiagnosticView {
                severity,
                kind: DiagnosticKind::MissingEnvLifetime,
                site: Site::SelfType,
                struct_name: path_name(struct_type),
                method: Some(fn_name),
            },
        )
    } else {
        None
    }
}

/// A parameter after desugaring, with the diagnostic raised on the way.
#[derive(Debug, PartialEq, Eq)]
pub struct Desugared {
    pub arg: FnArg,
    pub diagnostic: Option<Diagnostic>,
}

/// Rewrites the parameters of one method of one type.
#[derive(Debug, PartialEq, Eq)]
pub struct FreestandingTransformer {
    /// The path of the enclosing type, as written on the `impl` block.
    pub struct_type: Path,
    /// The name of the method.
    pub fn_name: String,
    /// The number that makes the receiver's name unique.
    pub id: u64,
    /// The severity of a missing `'env` lifetime.
    pub missing_env_lifetime: Severity,
}

impl FreestandingTransformer {
    pub fn new(struct_type: Path, fn_name: String, id: u64, missing_env_lifetime: Severity) -> (r:
        Self)
        ensures
            r.struct_type == struct_type,
            r.fn_name == fn_name,
            r.id == id,
            r.missing_env_lifetime == missing_env_lifetime,
    {
        FreestandingTransformer { struct_type, fn_name, id, missing_env_lifetime }
    }

    /// The name for the receiver.
    pub fn receiver_name(&self) -> (r: String)
        ensures
            r@ == receiver_ident(self.struct_type@, self.fn_name@, self.id as nat),
    {
        let idents = self.struct_type.idents();
        let mangled = join(&idents, "_");
        let number = decimal_string(self.id);
        String::from_str("receiver_").concat(mangled.as_str()).concat("_").concat(
            self.fn_name.as_str(),
        ).concat("_").concat(number.as_str())
    }

    /// Whether the enclosing type has generic arguments but not `'env`.
    pub fn needs_env_lifetime(&self) -> (r: bool)
        ensures
            r == needs_env_lifetime(self.struct_type@),
    {
        self.struct_type.is_parametrized() && !self.struct_type.has_lifetime("env")
    }

    /// Desugars one parameter.
    pub fn fold_fn_arg(&self, arg: &FnArg) -> (r: Desugared)
        ensures
            r.arg@ == desugared_arg(self.struct_type@, self.fn_name@, self.id as nat, arg@),
            r.diagnostic.deep_view() == desugar_diagnostic(
                self.struct_type@,
                self.fn_name@,
                self.missing_env_lifetime,
                arg@,
            ),
            !(r.arg@ is Receiver),
    {
        match arg {
            FnArg::Receiver(r) => {
                let diagnostic = if self.needs_env_lifetime() {
                    Some(
                        Diagnostic::on_method(
                            self.missing_env_lifetime,
                            DiagnosticKind::MissingEnvLifetime,
                            Site::SelfType,
                            self.struct_type.name(),
                            self.fn_name.clone(),
                        ),
                    )
                } else {
                    None
                };
                let base = Type::Path(self.struct_type.clone());
                assert(base@ == TypeView::Path(self.struct_type@));
                let ty = match &r.reference {
                    Some(lifetime) => Type::Reference {
                        lifetime: clone_opt_string(lifetime),
                        mutable: r.mutable,
                        elem: Box::new(base),
                    },
                    None => base,
                };
                let attrs = r.attrs.clone();
                let pat = Pat::Ident(
                    PatIdent {
                        by_ref: false,
                        mutable: false,
                        ident: self.receiver_name(),
                        subpat: None,
                    },
                );
                Desugared { arg: FnArg::Typed(PatType { attrs, pat, ty }), diagnostic }
            },
            FnArg::Typed(t) => {
                let renamed = match &t.pat {
                    Pat::Ident(p) => if text_is(&p.ident, "self") {
                        Some(
                            Pat::Ident(
                                PatIdent {
                                    by_ref: p.by_ref,
                                    mutable: p.mutable,
                                    ident: self.receiver_name(),
                                    subpat: clone_opt_string(&p.subpat),
                                },
                            ),
                        )
                    } else {
                        None
                    },
                    Pat::Other(_) => None,
                };
                match renamed {
                    Some(pat) => {
                        let attrs = t.attrs.clone();
                        Desugared {
                            arg: FnArg::Typed(PatType { attrs, pat, ty: t.ty.clone() }),
                            diagnostic: None,
                        }
                    },
                    None => Desugared { arg: arg.clone(), diagnostic: None },
                }
            },
        }
    }
}

} // verus!
