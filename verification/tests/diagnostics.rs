use robusta_codegen::diagnostics::append_diagnostics;
use robusta_codegen::diagnostics::contains_error;
use robusta_codegen::diagnostics::Diagnostic;
use robusta_codegen::diagnostics::DiagnosticKind;
use robusta_codegen::diagnostics::Policy;
use robusta_codegen::diagnostics::Severity;
use robusta_codegen::diagnostics::Site;

fn of(kind: DiagnosticKind, severity: Severity) -> Diagnostic {
    Diagnostic::on_method(severity, kind, Site::Method, "Foo".to_string(), "bar".to_string())
}

#[test]
fn a_diagnostic_on_a_type_names_no_method() {
    let d = Diagnostic::on_type(Severity::Error, DiagnosticKind::MissingPackage, "a::Foo".to_string());
    assert_eq!(
        d,
        Diagnostic {
            severity: Severity::Error,
            kind: DiagnosticKind::MissingPackage,
            site: Site::SelfType,
            struct_name: "a::Foo".to_string(),
            method: None,
        }
    );
}

#[test]
fn a_diagnostic_on_a_method_names_it() {
    let d = Diagnostic::on_method(
        Severity::Warning,
        DiagnosticKind::ReservedEnvBounds,
        Site::GenericParam(2),
        "Foo".to_string(),
        "bar".to_string(),
    );
    assert_eq!(d.method, Some("bar".to_string()));
    assert_eq!(d.site, Site::GenericParam(2));
    assert_eq!(d.severity, Severity::Warning);
    assert_eq!(d.struct_name, "Foo");
}

#[test]
fn the_message_of_a_missing_package_names_the_type() {
    let d = Diagnostic::on_type(Severity::Error, DiagnosticKind::MissingPackage, "a::Foo".to_string());
    assert_eq!(d.message(), "can't find package for struct `a::Foo`");
    assert_eq!(d.hint(), None);
}

#[test]
fn the_messages_of_the_other_kinds() {
    assert_eq!(
        of(DiagnosticKind::MissingEnvLifetime, Severity::Warning).message(),
        "must have one `'env` lifetime in impl to support self methods when using lifetime-parametrized struct"
    );
    assert_eq!(
        of(DiagnosticKind::ReservedEnvBounds, Severity::Warning).message(),
        "using JNI-reserved `'env` lifetime with non `'borrow` bounds"
    );
    assert_eq!(
        of(DiagnosticKind::BorrowWithoutEnv, Severity::Error).message(),
        "Can't use JNI-reserved `'borrow` lifetime without accompanying `'env: 'borrow` lifetime"
    );
    assert_eq!(
        of(DiagnosticKind::UnsupportedReturnType, Severity::Error).message(),
        "Only type or type paths are permitted as type ascriptions in function params"
    );
    assert_eq!(
        of(DiagnosticKind::UnsupportedPattern, Severity::Error).message(),
        "Only identifiers are permitted as parameter patterns of exported methods"
    );
    assert_eq!(
        of(DiagnosticKind::MissingCallType, Severity::Error).message(),
        "exported method has no `call_type` attribute"
    );
    assert_eq!(
        of(DiagnosticKind::ReceiverNamesExhausted, Severity::Error).message(),
        "too many exported methods: no receiver name is left"
    );
}

#[test]
fn two_kinds_come_with_a_hint() {
    assert_eq!(
        of(DiagnosticKind::ReservedEnvBounds, Severity::Warning).hint(),
        Some(
            "If you need to access to the lifetime of the `JNIEnv`, please use `'borrow` instead"
                .to_string()
        )
    );
    assert_eq!(
        of(DiagnosticKind::BorrowWithoutEnv, Severity::Error).hint(),
        Some("Add `'env: 'borrow` lifetime here".to_string())
    );
    for kind in [
        DiagnosticKind::MissingPackage,
        DiagnosticKind::MissingEnvLifetime,
        DiagnosticKind::UnsupportedReturnType,
        DiagnosticKind::UnsupportedPattern,
        DiagnosticKind::MissingCallType,
        DiagnosticKind::ReceiverNamesExhausted,
    ] {
        assert_eq!(of(kind, Severity::Error).hint(), None);
    }
}

#[test]
fn only_errors_are_errors() {
    assert!(of(DiagnosticKind::MissingCallType, Severity::Error).is_error());
    assert!(!of(DiagnosticKind::MissingCallType, Severity::Warning).is_error());
}

#[test]
fn contains_error_looks_at_every_diagnostic() {
    let warning = of(DiagnosticKind::ReservedEnvBounds, Severity::Warning);
    let error = of(DiagnosticKind::BorrowWithoutEnv, Severity::Error);
    assert!(!contains_error(&vec![]));
    assert!(!contains_error(&vec![warning.clone(), warning.clone()]));
    assert!(contains_error(&vec![error.clone()]));
    assert!(contains_error(&vec![warning.clone(), warning.clone(), error.clone()]));
    assert!(contains_error(&vec![error, warning]));
}

#[test]
fn appending_keeps_the_order() {
    let a = of(DiagnosticKind::ReservedEnvBounds, Severity::Warning);
    let b = of(DiagnosticKind::BorrowWithoutEnv, Severity::Error);
    let c = of(DiagnosticKind::MissingCallType, Severity::Error);
    let mut all = vec![a.clone()];
    append_diagnostics(&mut all, vec![b.clone(), c.clone()]);
    assert_eq!(all, vec![a.clone(), b, c]);
    append_diagnostics(&mut all, vec![]);
    assert_eq!(all.len(), 3);
    assert_eq!(all[0], a);
}

#[test]
fn the_policies() {
    assert_eq!(
        Policy::default(),
        Policy { missing_package: Severity::Error, missing_env_lifetime: Severity::Warning }
    );
    assert_eq!(
        Policy::strict(),
        Policy { missing_package: Severity::Error, missing_env_lifetime: Severity::Error }
    );
    assert_eq!(
        Policy::lenient(),
        Policy { missing_package: Severity::Warning, missing_env_lifetime: Severity::Warning }
    );
}
