use robusta_codegen::syntax::path::GenericArgument;
use robusta_codegen::syntax::path::Path;
use robusta_codegen::syntax::path::PathArguments;
use robusta_codegen::syntax::path::PathSegment;
use robusta_codegen::syntax::ty::Type;

fn segment(ident: &str, arguments: PathArguments) -> PathSegment {
    PathSegment { ident: ident.to_string(), arguments }
}

fn lifetimes(names: &[&str]) -> PathArguments {
    PathArguments::AngleBracketed(
        names.iter().map(|n| GenericArgument::Lifetime(n.to_string())).collect(),
    )
}

fn sample() -> Path {
    Path {
        leading_colon: true,
        segments: vec![
            segment("a", PathArguments::Empty),
            segment("b", lifetimes(&["x"])),
            segment(
                "Foo",
                PathArguments::AngleBracketed(vec![
                    GenericArgument::Other("T".to_string()),
                    GenericArgument::Lifetime("env".to_string()),
                ]),
            ),
        ],
    }
}

#[test]
fn the_canonical_path_has_no_arguments() {
    let expected = Path {
        leading_colon: true,
        segments: vec![
            segment("a", PathArguments::Empty),
            segment("b", PathArguments::Empty),
            segment("Foo", PathArguments::Empty),
        ],
    };
    assert_eq!(sample().canonical(), expected);
    assert_eq!(expected.canonical(), expected);
}

#[test]
fn the_name_joins_the_identifiers() {
    assert_eq!(sample().name(), "::a::b::Foo");
    assert_eq!(Path::from_ident("Foo").name(), "Foo");
    let unrooted = Path { leading_colon: false, ..sample() };
    assert_eq!(unrooted.name(), "a::b::Foo");
    assert_eq!(sample().idents(), vec!["a".to_string(), "b".to_string(), "Foo".to_string()]);
}

#[test]
fn a_path_from_an_identifier_is_that_identifier() {
    let p = Path::from_ident("call_type");
    assert_eq!(p, Path { leading_colon: false, segments: vec![segment("call_type", PathArguments::Empty)] });
    assert!(p.is_ident("call_type"));
    assert!(p.is_bare_ident());
    assert!(!p.is_ident("call"));
}

#[test]
fn only_a_single_plain_segment_is_an_identifier() {
    assert!(!sample().is_bare_ident());
    assert!(!sample().is_ident("Foo"));
    let rooted = Path { leading_colon: true, ..Path::from_ident("x") };
    assert!(!rooted.is_bare_ident());
    assert!(!rooted.is_ident("x"));
    let with_arguments =
        Path { leading_colon: false, segments: vec![segment("x", lifetimes(&[]))] };
    assert!(!with_arguments.is_bare_ident());
    assert!(!with_arguments.is_ident("x"));
    let nothing = Path { leading_colon: false, segments: vec![] };
    assert!(!nothing.is_bare_ident());
}

#[test]
fn lifetimes_are_found_on_any_segment() {
    assert!(sample().has_lifetime("x"));
    assert!(sample().has_lifetime("env"));
    assert!(!sample().has_lifetime("T"));
    assert!(!sample().has_lifetime("borrow"));
    assert!(!Path::from_ident("Foo").has_lifetime("env"));
    assert!(sample().segments[1].has_lifetime("x"));
    assert!(!sample().segments[1].has_lifetime("env"));
    assert!(!sample().segments[0].has_lifetime("x"));
}

#[test]
fn a_path_with_angle_brackets_is_parametrized() {
    assert!(sample().is_parametrized());
    assert!(!Path::from_ident("Foo").is_parametrized());
    let parenthesized = Path {
        leading_colon: false,
        segments: vec![segment("Fn", PathArguments::Parenthesized("(u8) -> u8".to_string()))],
    };
    assert!(!parenthesized.is_parametrized());
    let empty_brackets = Path { leading_colon: false, segments: vec![segment("Foo", lifetimes(&[]))] };
    assert!(empty_brackets.is_parametrized());
}

#[test]
fn paths_match_when_every_part_is_equal() {
    assert!(sample().matches(&sample()));
    assert!(sample().matches(&sample().clone()));
    assert!(!sample().matches(&sample().canonical()));
    assert!(!sample().matches(&Path { leading_colon: false, ..sample() }));
    let mut other = sample();
    other.segments[2].arguments = PathArguments::AngleBracketed(vec![
        GenericArgument::Other("T".to_string()),
        GenericArgument::Other("env".to_string()),
    ]);
    assert!(!sample().matches(&other));
    let mut shorter = sample();
    shorter.segments.pop();
    assert!(!sample().matches(&shorter));
    assert!(!shorter.matches(&sample()));
}

#[test]
fn arguments_match_by_kind_and_content() {
    assert!(PathArguments::Empty.matches(&PathArguments::Empty));
    assert!(!PathArguments::Empty.matches(&lifetimes(&[])));
    assert!(lifetimes(&["a", "b"]).matches(&lifetimes(&["a", "b"])));
    assert!(!lifetimes(&["a", "b"]).matches(&lifetimes(&["b", "a"])));
    assert!(!lifetimes(&["a"]).matches(&lifetimes(&["a", "b"])));
    let p = PathArguments::Parenthesized("(u8)".to_string());
    assert!(p.matches(&PathArguments::Parenthesized("(u8)".to_string())));
    assert!(!p.matches(&PathArguments::Parenthesized("(u16)".to_string())));
    assert!(GenericArgument::Lifetime("a".to_string()).matches(&GenericArgument::Lifetime("a".to_string())));
    assert!(!GenericArgument::Lifetime("a".to_string()).matches(&GenericArgument::Other("a".to_string())));
}

#[test]
fn a_clone_of_a_type_is_the_same_type() {
    let nested = Type::Tuple(vec![
        Type::Path(sample()),
        Type::Reference {
            lifetime: Some("a".to_string()),
            mutable: true,
            elem: Box::new(Type::Tuple(vec![Type::Other("!".to_string()), Type::Tuple(vec![])])),
        },
        Type::Qualified { ty: Box::new(Type::Path(sample())), position: 1, path: sample() },
    ]);
    assert_eq!(nested.clone(), nested);
}

#[test]
fn only_the_empty_tuple_is_the_unit_type() {
    assert!(Type::Tuple(vec![]).is_unit());
    assert!(!Type::Tuple(vec![Type::Tuple(vec![])]).is_unit());
    assert!(!Type::Path(sample()).is_unit());
    assert!(!Type::Other("()".to_string()).is_unit());
}
