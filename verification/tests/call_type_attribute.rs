use robusta_codegen::call_type::AttributeError;
use robusta_codegen::call_type::CallType;
use robusta_codegen::call_type::CallTypeAttribute;
use robusta_codegen::call_type::JavaPath;
use robusta_codegen::call_type::Lit;
use robusta_codegen::call_type::MetaReading;
use robusta_codegen::call_type::SafeParams;
use robusta_codegen::syntax::function::Attribute;
use robusta_codegen::syntax::path::Path;
use robusta_codegen::syntax::path::PathArguments;
use robusta_codegen::syntax::path::PathSegment;

fn path(idents: &[&str]) -> Path {
    Path {
        leading_colon: false,
        segments: idents
            .iter()
            .map(|i| PathSegment { ident: i.to_string(), arguments: PathArguments::Empty })
            .collect(),
    }
}

fn attribute(idents: &[&str], tokens: &str) -> Attribute {
    Attribute { inner: false, path: path(idents), tokens: tokens.to_string() }
}

fn options(text: &str, call_type: CallType) -> MetaReading {
    MetaReading::Options { text: text.to_string(), call_type }
}

fn refused(text: &str, reason: &str) -> MetaReading {
    MetaReading::Refused { text: text.to_string(), reason: reason.to_string() }
}

fn params() -> SafeParams {
    SafeParams {
        exception_class: Some(JavaPath::from_value(&Lit::Str("java.lang.Error".to_string())).unwrap()),
        message: Some("boom".to_string()),
    }
}

#[test]
fn no_attribute_is_an_error() {
    let r = CallTypeAttribute::parse(&vec![], options("call_type(unchecked)", CallType::Unchecked));
    assert_eq!(r, Err(AttributeError::NoAttribute));
}

#[test]
fn a_path_that_is_no_identifier_is_an_error() {
    let attrs = vec![attribute(&["robusta", "call_type"], "(safe)")];
    let r = CallTypeAttribute::parse(&attrs, options("call_type(safe)", CallType::Safe(None)));
    assert_eq!(r, Err(AttributeError::ExpectedIdentifier));
    let mut rooted = attribute(&["call_type"], "(safe)");
    rooted.path.leading_colon = true;
    let r = CallTypeAttribute::parse(&vec![rooted], options("call_type(safe)", CallType::Safe(None)));
    assert_eq!(r, Err(AttributeError::ExpectedIdentifier));
}

#[test]
fn another_attribute_is_an_error() {
    let attrs = vec![attribute(&["inline"], ""), attribute(&["call_type"], "(safe)")];
    let r = CallTypeAttribute::parse(&attrs, options("inline", CallType::Unchecked));
    assert_eq!(r, Err(AttributeError::ExpectedCallType));
}

#[test]
fn an_attribute_that_is_no_meta_item_is_an_error() {
    let attrs = vec![attribute(&["call_type"], "{ ? }")];
    let r = CallTypeAttribute::parse(&attrs, MetaReading::Malformed("expected `(`".to_string()));
    assert_eq!(r, Err(AttributeError::Malformed("expected `(`".to_string())));
}

#[test]
fn the_path_is_judged_before_the_reading() {
    let attrs = vec![attribute(&["inline"], "")];
    let r = CallTypeAttribute::parse(&attrs, MetaReading::Malformed("bad".to_string()));
    assert_eq!(r, Err(AttributeError::ExpectedCallType));
}

#[test]
fn plain_safe_selects_the_safe_mode_without_parameters() {
    let attrs = vec![attribute(&["call_type"], "(safe)")];
    let expected = CallTypeAttribute { attr: attrs[0].clone(), call_type: CallType::Safe(None) };
    let r = CallTypeAttribute::parse(&attrs, refused("call_type(safe)", "unexpected word"));
    assert_eq!(r, Ok(expected));
    let expected = CallTypeAttribute { attr: attrs[0].clone(), call_type: CallType::Safe(None) };
    let r = CallTypeAttribute::parse(&attrs, options("call_type(safe)", CallType::Safe(Some(params()))));
    assert_eq!(r, Ok(expected));
}

#[test]
fn otherwise_the_options_select_the_mode() {
    let attrs = vec![attribute(&["call_type"], "(unchecked)")];
    let r = CallTypeAttribute::parse(&attrs, options("call_type(unchecked)", CallType::Unchecked));
    assert_eq!(r, Ok(CallTypeAttribute { attr: attrs[0].clone(), call_type: CallType::Unchecked }));
    let text = "call_type(safe(message = \"boom\"))";
    let attrs = vec![attribute(&["call_type"], "(safe(message = \"boom\"))")];
    let r = CallTypeAttribute::parse(&attrs, options(text, CallType::Safe(Some(params()))));
    assert_eq!(
        r,
        Ok(CallTypeAttribute { attr: attrs[0].clone(), call_type: CallType::Safe(Some(params())) })
    );
}

#[test]
fn the_text_is_compared_letter_by_letter() {
    let attrs = vec![attribute(&["call_type"], "(safe)")];
    let r = CallTypeAttribute::parse(&attrs, refused("call_type (safe)", "unexpected word"));
    assert_eq!(r, Err(AttributeError::InvalidOptions("unexpected word".to_string())));
}

#[test]
fn refused_options_are_an_error() {
    let attrs = vec![attribute(&["call_type"], "(fast)")];
    let r = CallTypeAttribute::parse(&attrs, refused("call_type(fast)", "Unknown field: `fast`"));
    assert_eq!(r, Err(AttributeError::InvalidOptions("Unknown field: `fast`".to_string())));
}

#[test]
fn only_the_first_attribute_is_read() {
    let attrs = vec![attribute(&["call_type"], "(unchecked)"), attribute(&["call_type"], "(safe)")];
    let r = CallTypeAttribute::parse(&attrs, options("call_type(unchecked)", CallType::Unchecked));
    assert_eq!(r.unwrap().attr, attrs[0]);
}

#[test]
fn attribute_error_messages() {
    assert_eq!(AttributeError::NoAttribute.message(), "Invalid parsing of `call_type` attribute ");
    assert_eq!(AttributeError::ExpectedIdentifier.message(), "expected identifier for attribute");
    assert_eq!(
        AttributeError::ExpectedCallType.message(),
        "expected identifier `call_type` for attribute"
    );
    assert_eq!(AttributeError::Malformed("expected `(`".to_string()).message(), "expected `(`");
    assert_eq!(
        AttributeError::InvalidOptions("Unknown field: `fast`".to_string()).message(),
        "invalid `call_type` attribute options (Unknown field: `fast`)"
    );
}

#[test]
fn safe_parameters_default_to_nothing() {
    let p = SafeParams::default();
    assert_eq!(p.exception_class, None);
    assert_eq!(p.message, None);
}

#[test]
fn only_the_safe_mode_is_safe() {
    assert!(CallType::Safe(None).is_safe());
    assert!(CallType::Safe(Some(params())).is_safe());
    assert!(!CallType::Unchecked.is_safe());
}

#[test]
fn a_clone_of_a_call_mode_is_the_same_mode() {
    for mode in [CallType::Unchecked, CallType::Safe(None), CallType::Safe(Some(params()))] {
        assert_eq!(mode.clone(), mode);
    }
}
