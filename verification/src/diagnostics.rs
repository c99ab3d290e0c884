//! Diagnostics: what went wrong, how badly, and where.
//!
//! The passes return their diagnostics as values; nothing is printed here.
//! An error ends the work on the item it is about, a warning does not.

use vstd::prelude::*;

verus! {

/// How bad a diagnostic is.
#[derive(Clone, Copy, Debug, PartialEq, Eq, Structural)]
pub enum Severity {
    /// Nothing is generated for the item.
    Error,
    /// Generation goes on.
    Warning,
}

/// What a diagnostic reports.
#[derive(Clone, Copy, Debug, PartialEq, Eq, Structural)]
pub enum DiagnosticKind {
    /// The type of an `impl` block has no package.
    MissingPackage,
    /// A method takes `self` on a type whose path has generic arguments but
    /// no lifetime `'env`.
    MissingEnvLifetime,
    /// The lifetime `'env` is declared with a bound other than `'borrow`.
    ReservedEnvBounds,
    /// The lifetime `'borrow` is declared without `'env`.
    BorrowWithoutEnv,
    /// A return type is neither a path, a reference nor `()`.
    UnsupportedReturnType,
    /// A parameter is not bound by a plain identifier.
    UnsupportedPattern,
    /// An exported method has no call mode.
    MissingCallType,
    /// No number is left to name the receiver of another method.
    ReceiverNamesExhausted,
}

/// The part of an item that a diagnostic points at.
#[derive(Clone, Copy, Debug, PartialEq, Eq, Structural)]
pub enum Site {
    /// The type that the `impl` block is for.
    SelfType,
    /// The generic parameter at this position of the method, counted after
    /// the lifetimes of the enclosing type have been added.
    GenericParam(usize),
    /// The parameter at this position of the method.
    Input(usize),
    /// The return type of the method.
    ReturnType,
    /// The method as a whole.
    Method,
}

/// One diagnostic.
#[derive(Debug, PartialEq, Eq)]
pub struct Diagnostic {
    pub severity: Severity,
    pub kind: DiagnosticKind,
    pub site: Site,
    /// The name of the type that the `impl` block is for.
    pub struct_name: String,
    /// The name of the method, where the diagnostic is about one.
    pub method: Option<String>,
}

#[verifier::ext_equal]
pub struct DiagnosticView {
    pub severity: Severity,
    pub kind: DiagnosticKind,
    pub site: Site,
    pub struct_name: Seq<char>,
    pub method: Option<Seq<char>>,
}

impl DeepView for Diagnostic {
    type V = DiagnosticView;

    open spec fn deep_view(&self) -> DiagnosticView {
        DiagnosticView {
            severity: self.severity,
            kind: self.kind,
            site: self.site,
            struct_name: self.struct_name@,
            method: self.method.deep_view(),
        }
    }
}

impl View for Diagnostic {
    type V = DiagnosticView;

    open spec fn view(&self) -> DiagnosticView {
        self.deep_view()
    }
}

impl Clone for Diagnostic {
    fn clone(&self) -> (r: Self)
        ensures
            r@ == self@,
    {
        Diagnostic {
            severity: self.severity,
            kind: self.kind,
            site: self.site,
            struct_name: self.struct_name.clone(),
            method: match &self.method {
                Some(m) => Some(m.clone()),
                None => None,
            },
        }
    }
}

/// The message of a diagnostic of `kind` about the type `struct_name`.
pub open spec fn message_text(kind: DiagnosticKind, struct_name: Seq<char>) -> Seq<char> {
    match kind {
        DiagnosticKind::MissingPackage => "can't find package for struct `"@ + struct_name + "`"@,
        DiagnosticKind::MissingEnvLifetime =>
            "must have one `'env` lifetime in impl to support self methods when using lifetime-parametrized struct"@,
        DiagnosticKind::ReservedEnvBounds =>
            "using JNI-reserved `'env` lifetime with non `'borrow` bounds"@,
        DiagnosticKind::BorrowWithoutEnv =>
            "Can't use JNI-reserved `'borrow` lifetime without accompanying `'env: 'borrow` lifetime"@,
        DiagnosticKind::UnsupportedReturnType =>
            "Only type or type paths are permitted as type ascriptions in function params"@,
        DiagnosticKind::UnsupportedPattern =>
            "Only identifiers are permitted as parameter patterns of exported methods"@,
        DiagnosticKind::MissingCallType => "exported method has no `call_type` attribute"@,
        DiagnosticKind::ReceiverNamesExhausted =>
            "too many exported methods: no receiver name is left"@,
    }
}

/// The advice that goes with a diagnostic of `kind`, if there is any.
pub open spec fn hint_text(kind: DiagnosticKind) -> Option<Seq<char>> {
    match kind {
        DiagnosticKind::ReservedEnvBounds => Some(
            "If you need to access to the lifetime of the `JNIEnv`, please use `'borrow` instead"@,
        ),
        DiagnosticKind::BorrowWithoutEnv => Some("Add `'env: 'borrow` lifetime here"@),
        _ => None,
    }
}

/// Whether one of `diagnostics` is an error.
pub open spec fn has_error(diagnostics: Seq<DiagnosticView>) -> bool {
    exists|i: int|
        0 <= i < diagnostics.len() && (#[trigger] diagnostics[i]).severity == Severity::Error
}

/// An error among the first diagnostics is an error among all, and so is
/// one among the last.
pub proof fn lemma_has_error_concat(a: Seq<DiagnosticView>, b: Seq<DiagnosticView>)
    ensures
        has_error(a + b) == (has_error(a) || has_error(b)),
{
    if has_error(a) {
        let i = choose|i: int| 0 <= i < a.len() && (#[trigger] a[i]).severity == Severity::Error;
        assert((a + b)[i].severity == Severity::Error);
    }
    if has_error(b) {
        let i = choose|i: int| 0 <= i < b.len() && (#[trigger] b[i]).severity == Severity::Error;
        assert((a + b)[a.len() + i].severity == Severity::Error);
    }
}

/// Whether one of `diagnostics` is an error.
pub fn contains_error(diagnostics: &Vec<Diagnostic>) -> (r: bool)
    ensures
        r == has_error(diagnostics.deep_view()),
{
    let mut i: usize = 0;
    while i < diagnostics.len()
        invariant
            i <= diagnostics.len(),
            forall|k: int|
                0 <= k < i ==> (#[trigger] diagnostics.deep_view()[k]).severity
                    != Severity::Error,
        decreases diagnostics.len() - i,
    {
        if diagnostics[i].is_error() {
            assert(diagnostics.deep_view()[i as int].severity == Severity::Error);
            return true;
        }
        i += 1;
    }
    false
}

/// Moves the diagnostics of `more` to the end of `diagnostics`.
pub fn append_diagnostics(diagnostics: &mut Vec<Diagnostic>, more: Vec<Diagnostic>)
    ensures
        final(diagnostics).deep_view() == old(diagnostics).deep_view() + more.deep_view(),
{
    let mut more = more;
    diagnostics.append(&mut more);
}

impl Diagnostic {
    /// A diagnostic about the type `struct_name` as a whole.
    pub fn on_type(severity: Severity, kind: DiagnosticKind, struct_name: String) -> (r: Diagnostic)
        ensures
            r@ == (DiagnosticView {
                severity,
                kind,
                site: Site::SelfType,
                struct_name: struct_name@,
                method: None,
            }),
    {
        Diagnostic { severity, kind, site: Site::SelfType, struct_name, method: None }
    }

    /// A diagnostic about the method `method` of the type `struct_name`.
    pub fn on_method(
        severity: Severity,
        kind: DiagnosticKind,
        site: Site,
        struct_name: String,
        method: String,
    ) -> (r: Diagnostic)
        ensures
            r@ == (DiagnosticView {
                severity,
                kind,
                site,
                struct_name: struct_name@,
                method: Some(method@),
            }),
    {
        Diagnostic { severity, kind, site, struct_name, method: Some(method) }
    }

    /// Whether the diagnostic ends the work on its item.
    pub fn is_error(&self) -> (r: bool)
        ensures
            r == (self@.severity == Severity::Error),
    {
        match self.severity {
            Severity::Error => true,
            Severity::Warning => false,
        }
    }

    /// The message of the diagnostic.
    pub fn message(&self) -> (r: String)
        ensures
            r@ == message_text(self@.kind, self@.struct_name),
    {
        match self.kind {
            DiagnosticKind::MissingPackage => String::from_str(
                "can't find package for struct `",
            ).concat(self.struct_name.as_str()).concat("`"),
            DiagnosticKind::MissingEnvLifetime => String::from_str(
                "must have one `'env` lifetime in impl to support self methods when using lifetime-parametrized struct",
            ),
            DiagnosticKind::ReservedEnvBounds => String::from_str(
                "using JNI-reserved `'env` lifetime with non `'borrow` bounds",
            ),
            DiagnosticKind::BorrowWithoutEnv => String::from_str(
                "Can't use JNI-reserved `'borrow` lifetime without accompanying `'env: 'borrow` lifetime",
            ),
            DiagnosticKind::UnsupportedReturnType => String::from_str(
                "Only type or type paths are permitted as type ascriptions in function params",
            ),
            DiagnosticKind::UnsupportedPattern => String::from_str(
                "Only identifiers are permitted as parameter patterns of exported methods",
            ),
            DiagnosticKind::MissingCallType => String::from_str(
                "exported method has no `call_type` attribute",
            ),
            DiagnosticKind::ReceiverNamesExhausted => String::from_str(
                "too many exported methods: no receiver name is left",
            ),
        }
    }

    /// The advice that goes with the diagnostic, if there is any.
    pub fn hint(&self) -> (r: Option<String>)
        ensures
            r.deep_view() == hint_text(self@.kind),
    {
        match self.kind {
            DiagnosticKind::ReservedEnvBounds => Some(
                String::from_str(
                    "If you need to access to the lifetime of the `JNIEnv`, please use `'borrow` instead",
                ),
            ),
            DiagnosticKind::BorrowWithoutEnv => Some(
                String::from_str("Add `'env: 'borrow` lifetime here"),
            ),
            _ => None,
        }
    }
}

/// How strictly two findings are judged.
///
/// Both are matters of policy rather than of correctness, so the caller
/// chooses.  A type without a package is passed through unchanged either
/// way.  A missing `'env` lifetime reported as an error ends the work on the
/// method; reported as a warning it does not.
#[derive(Clone, Copy, Debug, PartialEq, Eq, Structural)]
pub struct Policy {
    /// The severity of [`DiagnosticKind::MissingPackage`].
    pub missing_package: Severity,
    /// The severity of [`DiagnosticKind::MissingEnvLifetime`].
    pub missing_env_lifetime: Severity,
}

impl Policy {
    /// Every finding is an error.
    pub fn strict() -> (r: Policy)
        ensures
            r == (Policy {
                missing_package: Severity::Error,
                missing_env_lifetime: Severity::Error,
            }),
    {
        Policy { missing_package: Severity::Error, missing_env_lifetime: Severity::Error }
    }

    /// Every finding is a warning.
    pub fn lenient() -> (r: Policy)
        ensures
            r == (Policy {
                missing_package: Severity::Warning,
                missing_env_lifetime: Severity::Warning,
            }),
    {
        Policy { missing_package: Severity::Warning, missing_env_lifetime: Severity::Warning }
    }
}

impl Default for Policy {
    /// A type without a package is an error, a missing `'env` lifetime a
    /// warning.
    fn default() -> (r: Policy)
        ensures
            r == (Policy {
                missing_package: Severity::Error,
                missing_env_lifetime: Severity::Warning,
            }),
    {
        Policy { missing_package: Severity::Error, missing_env_lifetime: Severity::Warning }
    }
}

} // verus!
