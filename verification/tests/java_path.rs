use robusta_codegen::call_type::GrammarOutcome;
use robusta_codegen::call_type::JavaPath;
use robusta_codegen::call_type::JavaPathError;
use robusta_codegen::call_type::Lit;

fn text(s: &str) -> Lit {
    Lit::Str(s.to_string())
}

#[test]
fn dotted_identifiers_are_a_path() {
    let path = JavaPath::from_value(&text("java.lang.String")).unwrap();
    assert_eq!(path.as_str(), "java.lang.String");
}

#[test]
fn a_single_identifier_is_a_path() {
    let path = JavaPath::from_value(&text("String")).unwrap();
    assert_eq!(path.as_str(), "String");
}

#[test]
fn a_dash_is_refused_before_the_grammar_is_asked() {
    assert_eq!(JavaPath::from_value(&text("my-package.Class")), Err(JavaPathError::Dashes));
    assert_eq!(JavaPath::from_value(&text("-")), Err(JavaPathError::Dashes));
    // Neither lexes, both hold a dash.
    assert_eq!(JavaPath::from_value(&text("\"-")), Err(JavaPathError::Dashes));
}

#[test]
fn a_literal_that_is_no_string_is_refused() {
    assert_eq!(JavaPath::from_value(&Lit::Other("42".to_string())), Err(JavaPathError::InvalidType));
    assert_eq!(
        JavaPath::from_value(&Lit::Other("java.lang.String".to_string())),
        Err(JavaPathError::InvalidType)
    );
}

#[test]
fn a_text_without_tokens_is_refused() {
    assert_eq!(JavaPath::from_value(&text("\"open")), Err(JavaPathError::Tokens));
    assert_eq!(JavaPath::from_value(&text("(a.b")), Err(JavaPathError::Tokens));
}

#[test]
fn two_dots_in_a_row_are_refused() {
    match JavaPath::from_value(&text("java..String")) {
        Err(JavaPathError::Syntax(_)) => {}
        other => panic!("unexpected result {:?}", other),
    }
}

#[test]
fn a_trailing_dot_is_refused() {
    match JavaPath::from_value(&text("java.lang.")) {
        Err(JavaPathError::Syntax(_)) => {}
        other => panic!("unexpected result {:?}", other),
    }
}

#[test]
fn a_leading_dot_is_refused() {
    match JavaPath::from_value(&text(".lang")) {
        Err(JavaPathError::Syntax(_)) => {}
        other => panic!("unexpected result {:?}", other),
    }
}

#[test]
fn the_empty_text_is_refused() {
    match JavaPath::from_value(&text("")) {
        Err(JavaPathError::Syntax(_)) => {}
        other => panic!("unexpected result {:?}", other),
    }
}

#[test]
fn tokens_after_the_path_are_refused() {
    match JavaPath::from_value(&text("java.lang String")) {
        Err(JavaPathError::Syntax(_)) => {}
        other => panic!("unexpected result {:?}", other),
    }
    match JavaPath::from_value(&text("java/lang")) {
        Err(JavaPathError::Syntax(_)) => {}
        other => panic!("unexpected result {:?}", other),
    }
}

#[test]
fn a_number_is_no_identifier() {
    match JavaPath::from_value(&text("java.1ang")) {
        Err(_) => {}
        other => panic!("unexpected result {:?}", other),
    }
}

#[test]
fn the_syntax_error_carries_the_parser_message() {
    match JavaPath::from_value(&text("java..String")) {
        Err(JavaPathError::Syntax(message)) => {
            assert!(!message.is_empty());
            assert_eq!(
                JavaPathError::Syntax(message.clone()).message(),
                format!("cannot parse java path ({})", message)
            );
        }
        other => panic!("unexpected result {:?}", other),
    }
}

#[test]
fn from_outcome_follows_the_judgement() {
    let value = text("a.b");
    assert_eq!(JavaPath::from_outcome(&value, GrammarOutcome::Accepted).unwrap().as_str(), "a.b");
    assert_eq!(
        JavaPath::from_outcome(&value, GrammarOutcome::Unlexable),
        Err(JavaPathError::Tokens)
    );
    assert_eq!(
        JavaPath::from_outcome(&value, GrammarOutcome::Rejected("no".to_string())),
        Err(JavaPathError::Syntax("no".to_string()))
    );
}

#[test]
fn from_outcome_refuses_dashes_and_other_literals_whatever_the_judgement() {
    assert_eq!(
        JavaPath::from_outcome(&text("a-b"), GrammarOutcome::Accepted),
        Err(JavaPathError::Dashes)
    );
    assert_eq!(
        JavaPath::from_outcome(&Lit::Other("1".to_string()), GrammarOutcome::Accepted),
        Err(JavaPathError::InvalidType)
    );
    assert_eq!(
        JavaPath::from_outcome(&text("a-b"), GrammarOutcome::Rejected("no".to_string())),
        Err(JavaPathError::Dashes)
    );
}

#[test]
fn java_path_error_messages() {
    assert_eq!(JavaPathError::InvalidType.message(), "invalid type");
    assert_eq!(
        JavaPathError::Dashes.message(),
        "invalid path: packages and classes cannot contain dashes"
    );
    assert_eq!(
        JavaPathError::Tokens.message(),
        "cannot create token stream for java path parsing"
    );
    assert_eq!(
        JavaPathError::Syntax("expected identifier".to_string()).message(),
        "cannot parse java path (expected identifier)"
    );
}

#[test]
fn a_clone_is_the_same_path() {
    let path = JavaPath::from_value(&text("a.b.C")).unwrap();
    assert_eq!(path.clone(), path);
    assert_eq!(path.clone().as_str(), "a.b.C");
}
