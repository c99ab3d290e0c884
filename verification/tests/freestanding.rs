use robusta_codegen::diagnostics::Diagnostic;
use robusta_codegen::diagnostics::DiagnosticKind;
use robusta_codegen::diagnostics::Severity;
use robusta_codegen::diagnostics::Site;
use robusta_codegen::freestanding::FreestandingTransformer;
use robusta_codegen::syntax::function::Attribute;
use robusta_codegen::syntax::function::FnArg;
use robusta_codegen::syntax::function::Pat;
use robusta_codegen::syntax::function::PatIdent;
use robusta_codegen::syntax::function::PatType;
use robusta_codegen::syntax::function::Receiver;
use robusta_codegen::syntax::path::GenericArgument;
use robusta_codegen::syntax::path::Path;
use robusta_codegen::syntax::path::PathArguments;
use robusta_codegen::syntax::path::PathSegment;
use robusta_codegen::syntax::ty::Type;

fn segment(ident: &str, lifetimes: Option<&[&str]>) -> PathSegment {
    PathSegment {
        ident: ident.to_string(),
        arguments: match lifetimes {
            None => PathArguments::Empty,
            Some(names) => PathArguments::AngleBracketed(
                names.iter().map(|n| GenericArgument::Lifetime(n.to_string())).collect(),
            ),
        },
    }
}

fn foo_env() -> Path {
    Path { leading_colon: false, segments: vec![segment("Foo", Some(&["env"]))] }
}

fn plain_foo() -> Path {
    Path { leading_colon: false, segments: vec![segment("Foo", None)] }
}

fn transformer(struct_type: Path, severity: Severity) -> FreestandingTransformer {
    FreestandingTransformer::new(struct_type, "bar".to_string(), 0, severity)
}

fn receiver(reference: Option<Option<&str>>, mutable: bool) -> FnArg {
    FnArg::Receiver(Receiver {
        attrs: vec![],
        reference: reference.map(|l| l.map(|n| n.to_string())),
        mutable,
    })
}

fn ident_pat(name: &str) -> Pat {
    Pat::Ident(PatIdent { by_ref: false, mutable: false, ident: name.to_string(), subpat: None })
}

fn typed(name: &str, ty: Type) -> FnArg {
    FnArg::Typed(PatType { attrs: vec![], pat: ident_pat(name), ty })
}

fn i32_type() -> Type {
    Type::Path(Path { leading_colon: false, segments: vec![segment("i32", None)] })
}

#[test]
fn the_receiver_name_is_built_from_type_method_and_number() {
    assert_eq!(transformer(plain_foo(), Severity::Warning).receiver_name(), "receiver_Foo_bar_0");
    assert_eq!(transformer(foo_env(), Severity::Warning).receiver_name(), "receiver_Foo_bar_0");
    let numbered =
        FreestandingTransformer::new(plain_foo(), "do_it".to_string(), 42, Severity::Warning);
    assert_eq!(numbered.receiver_name(), "receiver_Foo_do_it_42");
}

#[test]
fn the_receiver_name_joins_the_segments_of_the_path() {
    let nested = Path {
        leading_colon: true,
        segments: vec![segment("a", None), segment("b", None), segment("Foo", Some(&["env"]))],
    };
    let t = FreestandingTransformer::new(nested, "bar".to_string(), 7, Severity::Warning);
    assert_eq!(t.receiver_name(), "receiver_a_b_Foo_bar_7");
}

#[test]
fn a_receiver_by_value_gets_the_type_itself() {
    let r = transformer(foo_env(), Severity::Warning).fold_fn_arg(&receiver(None, false));
    assert_eq!(r.arg, typed("receiver_Foo_bar_0", Type::Path(foo_env())));
    assert_eq!(r.diagnostic, None);
}

#[test]
fn a_mutable_receiver_by_value_is_bound_immutably() {
    let r = transformer(foo_env(), Severity::Warning).fold_fn_arg(&receiver(None, true));
    assert_eq!(r.arg, typed("receiver_Foo_bar_0", Type::Path(foo_env())));
}

#[test]
fn a_receiver_by_reference_gets_a_reference_to_the_type() {
    let r = transformer(foo_env(), Severity::Warning).fold_fn_arg(&receiver(Some(None), false));
    let expected = Type::Reference {
        lifetime: None,
        mutable: false,
        elem: Box::new(Type::Path(foo_env())),
    };
    assert_eq!(r.arg, typed("receiver_Foo_bar_0", expected));
    assert_eq!(r.diagnostic, None);
}

#[test]
fn a_receiver_by_mutable_reference_keeps_lifetime_and_mutability() {
    let r = transformer(foo_env(), Severity::Warning)
        .fold_fn_arg(&receiver(Some(Some("borrow")), true));
    let expected = Type::Reference {
        lifetime: Some("borrow".to_string()),
        mutable: true,
        elem: Box::new(Type::Path(foo_env())),
    };
    assert_eq!(r.arg, typed("receiver_Foo_bar_0", expected));
    assert_eq!(r.diagnostic, None);
}

#[test]
fn the_attributes_of_the_receiver_are_kept() {
    let attr = Attribute {
        inner: false,
        path: Path { leading_colon: false, segments: vec![segment("cfg", None)] },
        tokens: "(test)".to_string(),
    };
    let arg = FnArg::Receiver(Receiver { attrs: vec![attr.clone()], reference: None, mutable: false });
    let r = transformer(plain_foo(), Severity::Warning).fold_fn_arg(&arg);
    match r.arg {
        FnArg::Typed(t) => assert_eq!(t.attrs, vec![attr]),
        other => panic!("unexpected parameter {:?}", other),
    }
}

#[test]
fn a_parameter_named_self_is_renamed_and_keeps_its_type() {
    let boxed = Type::Other("Box<Self>".to_string());
    let arg = FnArg::Typed(PatType {
        attrs: vec![],
        pat: Pat::Ident(PatIdent {
            by_ref: false,
            mutable: true,
            ident: "self".to_string(),
            subpat: None,
        }),
        ty: boxed.clone(),
    });
    let r = transformer(plain_foo(), Severity::Warning).fold_fn_arg(&arg);
    let expected = FnArg::Typed(PatType {
        attrs: vec![],
        pat: Pat::Ident(PatIdent {
            by_ref: false,
            mutable: true,
            ident: "receiver_Foo_bar_0".to_string(),
            subpat: None,
        }),
        ty: boxed,
    });
    assert_eq!(r.arg, expected);
    assert_eq!(r.diagnostic, None);
}

#[test]
fn other_parameters_are_unchanged() {
    let t = transformer(foo_env(), Severity::Warning);
    let plain = typed("x", i32_type());
    assert_eq!(t.fold_fn_arg(&plain).arg, plain);
    let pattern = FnArg::Typed(PatType {
        attrs: vec![],
        pat: Pat::Other("(a, b)".to_string()),
        ty: Type::Tuple(vec![i32_type(), i32_type()]),
    });
    let r = t.fold_fn_arg(&pattern);
    assert_eq!(r.arg, pattern);
    assert_eq!(r.diagnostic, None);
}

#[test]
fn a_path_without_arguments_needs_no_env_lifetime() {
    let t = transformer(plain_foo(), Severity::Error);
    assert!(!t.needs_env_lifetime());
    assert_eq!(t.fold_fn_arg(&receiver(Some(None), false)).diagnostic, None);
}

#[test]
fn a_path_with_the_env_lifetime_raises_nothing() {
    let t = transformer(foo_env(), Severity::Error);
    assert!(!t.needs_env_lifetime());
    let both = Path { leading_colon: false, segments: vec![segment("Foo", Some(&["a", "env"]))] };
    assert!(!transformer(both, Severity::Error).needs_env_lifetime());
}

#[test]
fn the_env_lifetime_may_stand_on_any_segment() {
    let path = Path {
        leading_colon: false,
        segments: vec![segment("outer", Some(&["env"])), segment("Foo", Some(&["a"]))],
    };
    let t = transformer(path, Severity::Error);
    assert!(!t.needs_env_lifetime());
    assert_eq!(t.fold_fn_arg(&receiver(None, false)).diagnostic, None);
}

#[test]
fn a_path_with_other_lifetimes_only_is_reported() {
    let path = Path { leading_colon: false, segments: vec![segment("Foo", Some(&["a"]))] };
    let t = transformer(path.clone(), Severity::Warning);
    assert!(t.needs_env_lifetime());
    let r = t.fold_fn_arg(&receiver(Some(None), false));
    let expected = Diagnostic {
        severity: Severity::Warning,
        kind: DiagnosticKind::MissingEnvLifetime,
        site: Site::SelfType,
        struct_name: "Foo".to_string(),
        method: Some("bar".to_string()),
    };
    assert_eq!(r.diagnostic, Some(expected));
    // The parameter is desugared all the same.
    let ty = Type::Reference { lifetime: None, mutable: false, elem: Box::new(Type::Path(path)) };
    assert_eq!(r.arg, typed("receiver_Foo_bar_0", ty));
}

#[test]
fn a_path_with_type_arguments_only_is_reported() {
    let path = Path {
        leading_colon: false,
        segments: vec![PathSegment {
            ident: "Foo".to_string(),
            arguments: PathArguments::AngleBracketed(vec![GenericArgument::Other("T".to_string())]),
        }],
    };
    assert!(transformer(path, Severity::Warning).needs_env_lifetime());
}

#[test]
fn the_severity_of_the_report_is_the_one_asked_for() {
    let path = Path { leading_colon: false, segments: vec![segment("Foo", Some(&["a"]))] };
    let strict = transformer(path.clone(), Severity::Error).fold_fn_arg(&receiver(None, false));
    assert_eq!(strict.diagnostic.unwrap().severity, Severity::Error);
    let lenient = transformer(path, Severity::Warning).fold_fn_arg(&receiver(None, false));
    assert_eq!(lenient.diagnostic.unwrap().severity, Severity::Warning);
}

#[test]
fn only_a_receiver_is_reported() {
    let path = Path { leading_colon: false, segments: vec![segment("Foo", Some(&["a"]))] };
    let t = transformer(path, Severity::Error);
    assert_eq!(t.fold_fn_arg(&typed("self", Type::Other("Box<Self>".to_string()))).diagnostic, None);
    assert_eq!(t.fold_fn_arg(&typed("x", i32_type())).diagnostic, None);
}
