use robusta_codegen::diagnostics::Diagnostic;
use robusta_codegen::diagnostics::DiagnosticKind;
use robusta_codegen::diagnostics::Severity;
use robusta_codegen::diagnostics::Site;
use robusta_codegen::lifetimes::synthesize_lifetimes;
use robusta_codegen::syntax::function::GenericParam;
use robusta_codegen::syntax::function::Generics;
use robusta_codegen::syntax::function::LifetimeDef;

fn lifetime(name: &str, bounds: &[&str]) -> LifetimeDef {
    LifetimeDef {
        attrs: vec![],
        lifetime: name.to_string(),
        bounds: bounds.iter().map(|b| b.to_string()).collect(),
    }
}

fn param(name: &str, bounds: &[&str]) -> GenericParam {
    GenericParam::Lifetime(lifetime(name, bounds))
}

fn generics(params: Vec<GenericParam>) -> Generics {
    Generics { params, where_clause: None }
}

fn run(
    g: &Generics,
    struct_lifetimes: &Vec<LifetimeDef>,
    self_method: bool,
) -> (Option<Generics>, Vec<Diagnostic>) {
    let r = synthesize_lifetimes(g, struct_lifetimes, self_method, &"Foo".to_string(), &"bar".to_string());
    (r.generics, r.diagnostics)
}

fn diagnostic(severity: Severity, kind: DiagnosticKind, index: usize) -> Diagnostic {
    Diagnostic {
        severity,
        kind,
        site: Site::GenericParam(index),
        struct_name: "Foo".to_string(),
        method: Some("bar".to_string()),
    }
}

#[test]
fn without_either_lifetime_both_are_declared() {
    let (g, d) = run(&generics(vec![]), &vec![], false);
    assert_eq!(g, Some(generics(vec![param("env", &["borrow"]), param("borrow", &[])])));
    assert!(d.is_empty());
}

#[test]
fn the_declarations_go_after_the_parameters_of_the_method() {
    let own = vec![param("a", &[]), GenericParam::Other("T: Clone".to_string())];
    let (g, d) = run(&generics(own.clone()), &vec![], false);
    let mut expected = own;
    expected.push(param("env", &["borrow"]));
    expected.push(param("borrow", &[]));
    assert_eq!(g, Some(generics(expected)));
    assert!(d.is_empty());
}

#[test]
fn after_synthesis_each_lifetime_is_declared_once() {
    let own = vec![param("a", &["b"]), param("b", &[]), GenericParam::Other("env".to_string())];
    let (g, _) = run(&generics(own), &vec![], false);
    let params = g.unwrap().params;
    let named = |name: &str| {
        params
            .iter()
            .filter(|p| matches!(p, GenericParam::Lifetime(l) if l.lifetime == name))
            .count()
    };
    assert_eq!(named("env"), 1);
    assert_eq!(named("borrow"), 1);
    assert_eq!(params.len(), 5);
}

#[test]
fn the_where_clause_is_kept() {
    let g = Generics { params: vec![], where_clause: Some("where T: Copy".to_string()) };
    let (out, _) = run(&g, &vec![], false);
    assert_eq!(out.unwrap().where_clause, Some("where T: Copy".to_string()));
}

#[test]
fn with_both_lifetimes_nothing_changes() {
    let g = generics(vec![param("env", &["borrow"]), param("borrow", &[])]);
    let (out, d) = run(&g, &vec![], false);
    assert_eq!(out, Some(g));
    assert!(d.is_empty());
}

#[test]
fn with_both_lifetimes_in_any_order_nothing_changes() {
    let g = generics(vec![param("borrow", &[]), param("x", &[]), param("env", &[])]);
    let (out, d) = run(&g, &vec![], false);
    assert_eq!(out, Some(g));
    assert!(d.is_empty());
}

#[test]
fn env_with_another_bound_is_a_warning() {
    let g = generics(vec![param("env", &["borrow", "a"]), param("borrow", &[]), param("a", &[])]);
    let (out, d) = run(&g, &vec![], false);
    assert_eq!(out, Some(g));
    assert_eq!(d, vec![diagnostic(Severity::Warning, DiagnosticKind::ReservedEnvBounds, 0)]);
}

#[test]
fn env_alone_gets_the_bound_and_borrow_is_declared() {
    let g = generics(vec![param("a", &[]), param("env", &[])]);
    let (out, d) = run(&g, &vec![], false);
    let expected =
        generics(vec![param("a", &[]), param("env", &["borrow"]), param("borrow", &[])]);
    assert_eq!(out, Some(expected));
    assert!(d.is_empty());
}

#[test]
fn env_alone_keeps_its_bounds_and_is_warned_about_them() {
    let g = generics(vec![param("env", &["a"]), param("a", &[])]);
    let (out, d) = run(&g, &vec![], false);
    let expected =
        generics(vec![param("env", &["a", "borrow"]), param("a", &[]), param("borrow", &[])]);
    assert_eq!(out, Some(expected));
    assert_eq!(d, vec![diagnostic(Severity::Warning, DiagnosticKind::ReservedEnvBounds, 0)]);
}

#[test]
fn borrow_alone_is_an_error() {
    let g = generics(vec![param("a", &[]), param("borrow", &[])]);
    let (out, d) = run(&g, &vec![], false);
    assert_eq!(out, None);
    assert_eq!(d, vec![diagnostic(Severity::Error, DiagnosticKind::BorrowWithoutEnv, 1)]);
}

#[test]
fn a_type_parameter_named_env_declares_no_lifetime() {
    let g = generics(vec![GenericParam::Other("env".to_string()), param("borrow", &[])]);
    let (out, d) = run(&g, &vec![], false);
    assert_eq!(out, None);
    assert_eq!(d.len(), 1);
    assert_eq!(d[0].kind, DiagnosticKind::BorrowWithoutEnv);
}

#[test]
fn the_lifetimes_of_the_type_are_added_for_a_method_that_takes_self() {
    let struct_lifetimes = vec![lifetime("env", &[])];
    let (out, d) = run(&generics(vec![param("a", &[])]), &struct_lifetimes, true);
    let expected =
        generics(vec![param("a", &[]), param("env", &["borrow"]), param("borrow", &[])]);
    assert_eq!(out, Some(expected));
    assert!(d.is_empty());
}

#[test]
fn the_lifetimes_of_the_type_are_left_out_for_other_methods() {
    let struct_lifetimes = vec![lifetime("x", &[])];
    let (out, _) = run(&generics(vec![]), &struct_lifetimes, false);
    assert_eq!(out, Some(generics(vec![param("env", &["borrow"]), param("borrow", &[])])));
    let (with_self, _) = run(&generics(vec![]), &struct_lifetimes, true);
    assert_eq!(
        with_self,
        Some(generics(vec![param("x", &[]), param("env", &["borrow"]), param("borrow", &[])]))
    );
}

#[test]
fn borrow_of_the_method_meets_env_of_the_type() {
    let struct_lifetimes = vec![lifetime("env", &["borrow"])];
    let g = generics(vec![param("borrow", &[])]);
    let (out, d) = run(&g, &struct_lifetimes, true);
    assert_eq!(out, Some(generics(vec![param("borrow", &[]), param("env", &["borrow"])])));
    assert!(d.is_empty());
    // Without `self` the lifetime of the type is not seen.
    let (alone, errors) = run(&g, &struct_lifetimes, false);
    assert_eq!(alone, None);
    assert_eq!(errors, vec![diagnostic(Severity::Error, DiagnosticKind::BorrowWithoutEnv, 0)]);
}

#[test]
fn the_last_declaration_of_env_gets_the_bound() {
    let g = generics(vec![param("env", &["a"]), param("env", &[])]);
    let (out, d) = run(&g, &vec![], false);
    let expected =
        generics(vec![param("env", &["a"]), param("env", &["borrow"]), param("borrow", &[])]);
    assert_eq!(out, Some(expected));
    assert_eq!(d, vec![diagnostic(Severity::Warning, DiagnosticKind::ReservedEnvBounds, 0)]);
}

#[test]
fn warnings_come_before_the_error() {
    let g = generics(vec![param("borrow", &[]), GenericParam::Other("T".to_string())]);
    let struct_lifetimes: Vec<LifetimeDef> = vec![];
    let (out, d) = run(&g, &struct_lifetimes, true);
    assert_eq!(out, None);
    assert_eq!(d, vec![diagnostic(Severity::Error, DiagnosticKind::BorrowWithoutEnv, 0)]);
}
