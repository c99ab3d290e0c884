//! Call modes, and the attribute that selects one.

use vstd::prelude::*;
use crate::syntax::function::Attribute;
use crate::syntax::function::AttributeView;
use crate::syntax::path::ident_path;
use crate::syntax::ty::clone_opt_string;
use crate::text::contains_char;
use crate::text::text_is;

verus! {

/// A literal as it stands in an attribute.
#[derive(Debug, PartialEq, Eq)]
pub enum Lit {
    /// A string literal, with the text it denotes.
    Str(String),
    /// Any other literal, kept as token text.
    Other(String),
}

#[verifier::ext_equal]
pub enum LitView {
    Str(Seq<char>),
    Other(Seq<char>),
}

impl DeepView for Lit {
    type V = LitView;

    open spec fn deep_view(&self) -> LitView {
        match self {
            Lit::Str(s) => LitView::Str(s@),
            Lit::Other(t) => LitView::Other(t@),
        }
    }
}

impl View for Lit {
    type V = LitView;

    open spec fn view(&self) -> LitView {
        self.deep_view()
    }
}

/// How the grammar of dotted identifiers judged a text.
#[derive(Debug, PartialEq, Eq)]
pub enum GrammarOutcome {
    /// The text is one or more identifiers with a dot between neighbours.
    Accepted,
    /// The text cannot be broken into tokens.
    Unlexable,
    /// The tokens are not of that form; the parser's message says why.
    Rejected(String),
}

#[verifier::ext_equal]
pub enum GrammarOutcomeView {
    Accepted,
    Unlexable,
    Rejected(Seq<char>),
}

impl DeepView for GrammarOutcome {
    type V = GrammarOutcomeView;

    open spec fn deep_view(&self) -> GrammarOutcomeView {
        match self {
            GrammarOutcome::Accepted => GrammarOutcomeView::Accepted,
            GrammarOutcome::Unlexable => GrammarOutcomeView::Unlexable,
            GrammarOutcome::Rejected(m) => GrammarOutcomeView::Rejected(m@),
        }
    }
}

impl View for GrammarOutcome {
    type V = GrammarOutcomeView;

    open spec fn view(&self) -> GrammarOutcomeView {
        self.deep_view()
    }
}

/// Why a literal is no path of a package or class.
#[derive(Debug, PartialEq, Eq)]
pub enum JavaPathError {
    /// The literal is not a string.
    InvalidType,
    /// The text contains a dash.
    Dashes,
    /// The text cannot be broken into tokens.
    Tokens,
    /// The tokens are not identifiers separated by dots.
    Syntax(String),
}

#[verifier::ext_equal]
pub enum JavaPathErrorView {
    InvalidType,
    Dashes,
    Tokens,
    Syntax(Seq<char>),
}

impl DeepView for JavaPathError {
    type V = JavaPathErrorView;

    open spec fn deep_view(&self) -> JavaPathErrorView {
        match self {
            JavaPathError::InvalidType => JavaPathErrorView::InvalidType,
            JavaPathError::Dashes => JavaPathErrorView::Dashes,
            JavaPathError::Tokens => JavaPathErrorView::Tokens,
            JavaPathError::Syntax(m) => JavaPathErrorView::Syntax(m@),
        }
    }
}

impl View for JavaPathError {
    type V = JavaPathErrorView;

    open spec fn view(&self) -> JavaPathErrorView {
        self.deep_view()
    }
}

/// The text that reports `error`.
pub open spec fn java_path_error_text(error: JavaPathErrorView) -> Seq<char> {
    match error {
        JavaPathErrorView::InvalidType => "invalid type"@,
        JavaPathErrorView::Dashes => "invalid path: packages and classes cannot contain dashes"@,
        JavaPathErrorView::Tokens => "cannot create token stream for java path parsing"@,
        JavaPathErrorView::Syntax(m) => "cannot parse java path ("@ + m + ")"@,
    }
}

impl JavaPathError {
    /// The text that reports this error.
    pub fn message(&self) -> (r: String)
        ensures
            r@ == java_path_error_text(self@),
    {
        match self {
            JavaPathError::InvalidType => String::from_str("invalid type"),
            JavaPathError::Dashes => String::from_str(
                "invalid path: packages and classes cannot contain dashes",
            ),
            JavaPathError::Tokens => String::from_str(
                "cannot create token stream for java path parsing",
            ),
            JavaPathError::Syntax(m) => String::from_str("cannot parse java path (").concat(
                m.as_str(),
            ).concat(")"),
        }
    }
}

/// The path of a package or class, as written: `java.lang.String`.
///
/// A value is only made by [`JavaPath::from_value`] and
/// [`JavaPath::from_outcome`], so it never holds a dash.
#[derive(Debug, PartialEq, Eq)]
pub struct JavaPath {
    path: String,
}

#[verifier::ext_equal]
pub struct JavaPathView {
    pub path: Seq<char>,
}

impl DeepView for JavaPath {
    type V = JavaPathView;

    closed spec fn deep_view(&self) -> JavaPathView {
        JavaPathView { path: self.path@ }
    }
}

impl View for JavaPath {
    type V = JavaPathView;

    open spec fn view(&self) -> JavaPathView {
        self.deep_view()
    }
}

impl Clone for JavaPath {
    fn clone(&self) -> (r: Self)
        ensures
            r@ == self@,
    {
        JavaPath { path: self.path.clone() }
    }
}

/// What `value` is as a path, once the grammar has judged its text with
/// `outcome`.  A literal that is no string, or whose text holds a dash, is
/// refused whatever the grammar says.
pub open spec fn java_path_verdict(value: LitView, outcome: GrammarOutcomeView) -> Result<
    JavaPathView,
    JavaPathErrorView,
> {
    match value {
        LitView::Other(_) => Err(JavaPathErrorView::InvalidType),
        LitView::Str(path) => if path.contains('-') {
            Err(JavaPathErrorView::Dashes)
        } else {
            match outcome {
                GrammarOutcomeView::Accepted => Ok(JavaPathView { path }),
                GrammarOutcomeView::Unlexable => Err(JavaPathErrorView::Tokens),
                GrammarOutcomeView::Rejected(m) => Err(JavaPathErrorView::Syntax(m)),
            }
        },
    }
}

/// Whether the result `r` stands for the ghost result `v`.
pub open spec fn java_path_result_is(
    r: Result<JavaPath, JavaPathError>,
    v: Result<JavaPathView, JavaPathErrorView>,
) -> bool {
    match v {
        Ok(p) => r matches Ok(path) && path@ == p,
        Err(e) => r matches Err(error) && error@ == e,
    }
}

/// The token stream of `proc_macro2`.  Nothing is known of a value of it;
/// it is only handed from the lexer to the parser.
#[verifier::external_type_specification]
#[verifier::external_body]
pub struct ExTokenStream(proc_macro2::TokenStream);

/// Breaks `text` into tokens with `proc_macro2`'s
/// `TokenStream::from_str`; `None` where that reports a lexical error.
/// Nothing is claimed of which texts have tokens: inside a procedural macro
/// the compiler's lexer is asked too, so the answer is not a matter of the
/// text alone.
#[verifier::external_body]
fn lex(text: &str) -> (tokens: Option<proc_macro2::TokenStream>) {
    <proc_macro2::TokenStream as std::str::FromStr>::from_str(text).ok()
}

/// Parses `tokens` with syn's `Punctuated::<Ident, Dot>::parse_separated_nonempty`
/// through `Parser::parse2`, which accepts one or more identifiers with a
/// dot between neighbours and nothing after them.  The result is the
/// parser's message where it refuses.  Nothing is claimed of which tokens
/// it accepts.
#[verifier::external_body]
fn parse_dotted_identifiers(tokens: proc_macro2::TokenStream) -> (refusal: Option<String>) {
    let parser = syn::punctuated::Punctuated::<
        syn::Ident,
        syn::token::Dot,
    >::parse_separated_nonempty;
    match syn::parse::Parser::parse2(parser, tokens) {
        Ok(_) => None,
        Err(error) => Some(error.to_string()),
    }
}

/// Puts `text` to the grammar of dotted identifiers.
fn judge(text: &str) -> GrammarOutcome {
    match lex(text) {
        None => GrammarOutcome::Unlexable,
        Some(tokens) => match parse_dotted_identifiers(tokens) {
            None => GrammarOutcome::Accepted,
            Some(message) => GrammarOutcome::Rejected(message),
        },
    }
}

impl JavaPath {
    /// The text of the path.
    pub fn as_str(&self) -> (r: &str)
        ensures
            r@ == self@.path,
    {
        self.path.as_str()
    }

    /// The path that `value` denotes, given the grammar's judgement of its
    /// text.
    pub fn from_outcome(value: &Lit, outcome: GrammarOutcome) -> (r: Result<JavaPath, JavaPathError>)
        ensures
            java_path_result_is(r, java_path_verdict(value@, outcome@)),
    {
        match value {
            Lit::Other(_) => Err(JavaPathError::InvalidType),
            Lit::Str(path) => {
                if contains_char(path.as_str(), '-') {
                    Err(JavaPathError::Dashes)
                } else {
                    match outcome {
                        GrammarOutcome::Accepted => Ok(JavaPath { path: path.clone() }),
                        GrammarOutcome::Unlexable => Err(JavaPathError::Tokens),
                        GrammarOutcome::Rejected(m) => Err(JavaPathError::Syntax(m)),
                    }
                }
            },
        }
    }

    /// Reads `value` as the path of a package or class.
    ///
    /// A literal that is no string and a text with a dash are refused here.
    /// Any other text is put to the grammar of dotted identifiers, and the
    /// result is what [`JavaPath::from_outcome`] makes of its judgement.
    pub fn from_value(value: &Lit) -> (r: Result<JavaPath, JavaPathError>)
        ensures
            value@ is Other ==> java_path_result_is(r, Err(JavaPathErrorView::InvalidType)),
            value@ is Str && value@->Str_0.contains('-') ==> java_path_result_is(
                r,
                Err(JavaPathErrorView::Dashes),
            ),
            exists|outcome: GrammarOutcomeView|
                java_path_result_is(r, #[trigger] java_path_verdict(value@, outcome)),
    {
        match value {
            Lit::Other(_) => Err(JavaPathError::InvalidType),
            Lit::Str(path) => {
                if contains_char(path.as_str(), '-') {
                    Err(JavaPathError::Dashes)
                } else {
                    let outcome = judge(path.as_str());
                    let ghost judged = outcome@;
                    let r = JavaPath::from_outcome(value, outcome);
                    assert(java_path_result_is(r, java_path_verdict(value@, judged)));
                    r
                }
            },
        }
    }
}

/// What a safe call throws when a conversion fails.
#[derive(Debug, PartialEq, Eq)]
pub struct SafeParams {
    /// The class of the exception.
    pub exception_class: Option<JavaPath>,
    /// The message of the exception.
    pub message: Option<String>,
}

#[verifier::ext_equal]
pub struct SafeParamsView {
    pub exception_class: Option<JavaPathView>,
    pub message: Option<Seq<char>>,
}

impl DeepView for SafeParams {
    type V = SafeParamsView;

    open spec fn deep_view(&self) -> SafeParamsView {
        SafeParamsView {
            exception_class: self.exception_class.deep_view(),
            message: self.message.deep_view(),
        }
    }
}

impl View for SafeParams {
    type V = SafeParamsView;

    open spec fn view(&self) -> SafeParamsView {
        self.deep_view()
    }
}

impl Clone for SafeParams {
    fn clone(&self) -> (r: Self)
        ensures
            r@ == self@,
    {
        let exception_class = match &self.exception_class {
            Some(inner) => Some(inner.clone()),
            None => None,
        };
        let message = clone_opt_string(&self.message);
        SafeParams { exception_class, message }
    }
}

/// How the arguments and the result of an exported method are converted.
#[derive(Debug, PartialEq, Eq)]
pub enum CallType {
    /// Conversions may fail; a failure is propagated.
    Safe(Option<SafeParams>),
    /// Conversions cannot fail; the caller answers for the values.
    Unchecked,
}

#[verifier::ext_equal]
pub enum CallTypeView {
    Safe(Option<SafeParamsView>),
    Unchecked,
}

impl DeepView for CallType {
    type V = CallTypeView;

    open spec fn deep_view(&self) -> CallTypeView {
        match self {
            CallType::Safe(x) => CallTypeView::Safe(x.deep_view()),
            CallType::Unchecked => CallTypeView::Unchecked,
        }
    }
}

impl View for CallType {
    type V = CallTypeView;

    open spec fn view(&self) -> CallTypeView {
        self.deep_view()
    }
}

impl Clone for CallType {
    fn clone(&self) -> (r: Self)
        ensures
            r@ == self@,
    {
        match self {
            CallType::Safe(x) => CallType::Safe(
                match x {
                    Some(params) => Some(params.clone()),
                    None => None,
                },
            ),
            CallType::Unchecked => CallType::Unchecked,
        }
    }
}

impl Default for SafeParams {
    fn default() -> (r: Self)
        ensures
            r@ == (SafeParamsView { exception_class: None, message: None }),
    {
        SafeParams { exception_class: None, message: None }
    }
}

/// Whether conversions in this mode may fail.
pub open spec fn is_safe(call_type: CallTypeView) -> bool {
    call_type is Safe
}

impl CallType {
    /// Whether conversions in this mode may fail.
    pub fn is_safe(&self) -> (r: bool)
        ensures
            r == is_safe(self@),
    {
        match self {
            CallType::Safe(_) => true,
            CallType::Unchecked => false,
        }
    }
}

/// A `call_type` attribute and the call mode that it selects.
#[derive(Debug, PartialEq, Eq)]
pub struct CallTypeAttribute {
    pub attr: Attribute,
    pub call_type: CallType,
}

#[verifier::ext_equal]
pub struct CallTypeAttributeView {
    pub attr: AttributeView,
    pub call_type: CallTypeView,
}

impl DeepView for CallTypeAttribute {
    type V = CallTypeAttributeView;

    open spec fn deep_view(&self) -> CallTypeAttributeView {
        CallTypeAttributeView { attr: self.attr@, call_type: self.call_type@ }
    }
}

impl View for CallTypeAttribute {
    type V = CallTypeAttributeView;

    open spec fn view(&self) -> CallTypeAttributeView {
        self.deep_view()
    }
}

/// What was read off the arguments of an attribute.
#[derive(Debug, PartialEq, Eq)]
pub enum MetaReading {
    /// The attribute is no meta item; the message says why.
    Malformed(String),
    /// The attribute is the meta item with the text `text`, and its options
    /// select the call mode `call_type`.
    Options { text: String, call_type: CallType },
    /// The attribute is the meta item with the text `text`, and its options
    /// select no call mode; `reason` says why.
    Refused { text: String, reason: String },
}

#[verifier::ext_equal]
pub enum MetaReadingView {
    Malformed(Seq<char>),
    Options { text: Seq<char>, call_type: CallTypeView },
    Refused { text: Seq<char>, reason: Seq<char> },
}

impl DeepView for MetaReading {
    type V = MetaReadingView;

    open spec fn deep_view(&self) -> MetaReadingView {
        match self {
            MetaReading::Malformed(m) => MetaReadingView::Malformed(m@),
            MetaReading::Options { text, call_type } => MetaReadingView::Options {
                text: text@,
                call_type: call_type@,
            },
            MetaReading::Refused { text, reason } => MetaReadingView::Refused {
                text: text@,
                reason: reason@,
            },
        }
    }
}

impl View for MetaReading {
    type V = MetaReadingView;

    open spec fn view(&self) -> MetaReadingView {
        self.deep_view()
    }
}

/// Why attributes select no call mode.
#[derive(Debug, PartialEq, Eq)]
pub enum AttributeError {
    /// There is no attribute.
    NoAttribute,
    /// The path of the attribute is no identifier.
    ExpectedIdentifier,
    /// The attribute is not named `call_type`.
    ExpectedCallType,
    /// The attribute is no meta item.
    Malformed(String),
    /// The options of the attribute select no call mode.
    InvalidOptions(String),
}

#[verifier::ext_equal]
pub enum AttributeErrorView {
    NoAttribute,
    ExpectedIdentifier,
    ExpectedCallType,
    Malformed(Seq<char>),
    InvalidOptions(Seq<char>),
}

impl DeepView for AttributeError {
    type V = AttributeErrorView;

    open spec fn deep_view(&self) -> AttributeErrorView {
        match self {
            AttributeError::NoAttribute => AttributeErrorView::NoAttribute,
            AttributeError::ExpectedIdentifier => AttributeErrorView::ExpectedIdentifier,
            AttributeError::ExpectedCallType => AttributeErrorView::ExpectedCallType,
            AttributeError::Malformed(m) => AttributeErrorView::Malformed(m@),
            AttributeError::InvalidOptions(m) => AttributeErrorView::InvalidOptions(m@),
        }
    }
}

impl View for AttributeError {
    type V = AttributeErrorView;

    open spec fn view(&self) -> AttributeErrorView {
        self.deep_view()
    }
}

/// The text that reports `error`.
pub open spec fn attribute_error_text(error: AttributeErrorView) -> Seq<char> {
    match error {
        AttributeErrorView::NoAttribute => "Invalid parsing of `call_type` attribute "@,
        AttributeErrorView::ExpectedIdentifier => "expected identifier for attribute"@,
        AttributeErrorView::ExpectedCallType => "expected identifier `call_type` for attribute"@,
        AttributeErrorView::Malformed(m) => m,
        AttributeErrorView::InvalidOptions(m) => "invalid `call_type` attribute options ("@ + m
            + ")"@,
    }
}

impl AttributeError {
    /// The text that reports this error.
    pub fn message(&self) -> (r: String)
        ensures
            r@ == attribute_error_text(self@),
    {
        match self {
            AttributeError::NoAttribute => String::from_str(
                "Invalid parsing of `call_type` attribute ",
            ),
            AttributeError::ExpectedIdentifier => String::from_str(
                "expected identifier for attribute",
            ),
            AttributeError::ExpectedCallType => String::from_str(
                "expected identifier `call_type` for attribute",
            ),
            AttributeError::Malformed(m) => m.clone(),
            AttributeError::InvalidOptions(m) => String::from_str(
                "invalid `call_type` attribute options (",
            ).concat(m.as_str()).concat(")"),
        }
    }
}

/// The call mode that the first of `attributes` selects, where `reading`
/// is what was read off its arguments.
///
/// The attribute must be named `call_type`.  Written as `call_type(safe)`
/// it selects the safe mode without parameters; otherwise it selects what
/// its options say.
pub open spec fn parsed_call_type(
    attributes: Seq<AttributeView>,
    reading: MetaReadingView,
) -> Result<CallTypeAttributeView, AttributeErrorView> {
    if attributes.len() == 0 {
        Err(AttributeErrorView::NoAttribute)
    } else if !exists|name: Seq<char>| attributes[0].path == ident_path(name) {
        Err(AttributeErrorView::ExpectedIdentifier)
    } else if attributes[0].path != ident_path("call_type"@) {
        Err(AttributeErrorView::ExpectedCallType)
    } else {
        match reading {
            MetaReadingView::Malformed(m) => Err(AttributeErrorView::Malformed(m)),
            MetaReadingView::Options { text, call_type } => Ok(
                CallTypeAttributeView {
                    attr: attributes[0],
                    call_type: if text == "call_type(safe)"@ {
                        CallTypeView::Safe(None)
                    } else {
                        call_type
                    },
                },
            ),
            MetaReadingView::Refused { text, reason } => if text == "call_type(safe)"@ {
                Ok(CallTypeAttributeView { attr: attributes[0], call_type: CallTypeView::Safe(None) })
            } else {
                Err(AttributeErrorView::InvalidOptions(reason))
            },
        }
    }
}

/// Whether the result `r` stands for the ghost result `v`.
pub open spec fn call_type_result_is(
    r: Result<CallTypeAttribute, AttributeError>,
    v: Result<CallTypeAttributeView, AttributeErrorView>,
) -> bool {
    match v {
        Ok(a) => r matches Ok(attribute) && attribute@ == a,
        Err(e) => r matches Err(error) && error@ == e,
    }
}

impl CallTypeAttribute {
    /// Reads the call mode off the first of `attributes`, given what was
    /// read off its arguments.
    pub fn parse(attributes: &Vec<Attribute>, reading: MetaReading) -> (r: Result<
        CallTypeAttribute,
        AttributeError,
    >)
        ensures
            call_type_result_is(r, parsed_call_type(attributes.deep_view(), reading@)),
    {
        if attributes.len() == 0 {
            return Err(AttributeError::NoAttribute);
        }
        let first = &attributes[0];
        if !first.path.is_bare_ident() {
            return Err(AttributeError::ExpectedIdentifier);
        }
        if !first.path.is_ident("call_type") {
            return Err(AttributeError::ExpectedCallType);
        }
        match reading {
            MetaReading::Malformed(m) => Err(AttributeError::Malformed(m)),
            MetaReading::Options { text, call_type } => {
                let call_type = if text_is(&text, "call_type(safe)") {
                    CallType::Safe(None)
                } else {
                    call_type
                };
                Ok(CallTypeAttribute { attr: first.clone(), call_type })
            },
            MetaReading::Refused { text, reason } => {
                if text_is(&text, "call_type(safe)") {
                    Ok(CallTypeAttribute { attr: first.clone(), call_type: CallType::Safe(None) })
                } else {
                    Err(AttributeError::InvalidOptions(reason))
                }
            },
        }
    }
}

} // verus!
