//! Functions: attributes, parameters, generics and signatures.

use vstd::prelude::*;
use crate::call_type::CallType;
use crate::call_type::CallTypeView;
use crate::syntax::path::Path;
use crate::syntax::path::PathView;
use crate::syntax::ty::clone_opt_opt_string;
use crate::syntax::ty::clone_opt_string;
use crate::syntax::ty::Type;
use crate::syntax::ty::TypeView;

verus! {

/// An attribute: `#[path tokens]`, or `#![path tokens]` when `inner`.
#[derive(Debug, PartialEq, Eq)]
pub struct Attribute {
    pub inner: bool,
    pub path: Path,
    /// What follows the path, as token text.
    pub tokens: String,
}

#[verifier::ext_equal]
pub struct AttributeView {
    pub inner: bool,
    pub path: PathView,
    pub tokens: Seq<char>,
}

impl DeepView for Attribute {
    type V = AttributeView;

    open spec fn deep_view(&self) -> AttributeView {
        AttributeView {
            inner: self.inner,
            path: self.path@,
            tokens: self.tokens@,
        }
    }
}

impl View for Attribute {
    type V = AttributeView;

    open spec fn view(&self) -> AttributeView {
        self.deep_view()
    }
}

impl Clone for Attribute {
    fn clone(&self) -> (r: Self)
        ensures
            r@ == self@,
    {
        let inner = self.inner;
        let path = self.path.clone();
        let tokens = self.tokens.clone();
        Attribute { inner, path, tokens }
    }
}

/// A binding pattern: `ref mut ident @ subpat`.
#[derive(Debug, PartialEq, Eq)]
pub struct PatIdent {
    pub by_ref: bool,
    pub mutable: bool,
    pub ident: String,
    /// The pattern after `@`, as token text.
    pub subpat: Option<String>,
}

#[verifier::ext_equal]
pub struct PatIdentView {
    pub by_ref: bool,
    pub mutable: bool,
    pub ident: Seq<char>,
    pub subpat: Option<Seq<char>>,
}

impl DeepView for PatIdent {
    type V = PatIdentView;

    open spec fn deep_view(&self) -> PatIdentView {
        PatIdentView {
            by_ref: self.by_ref,
            mutable: self.mutable,
            ident: self.ident@,
            subpat: self.subpat.deep_view(),
        }
    }
}

impl View for PatIdent {
    type V = PatIdentView;

    open spec fn view(&self) -> PatIdentView {
        self.deep_view()
    }
}

impl Clone for PatIdent {
    fn clone(&self) -> (r: Self)
        ensures
            r@ == self@,
    {
        let by_ref = self.by_ref;
        let mutable = self.mutable;
        let ident = self.ident.clone();
        let subpat = clone_opt_string(&self.subpat);
        PatIdent { by_ref, mutable, ident, subpat }
    }
}

/// The pattern of a parameter.
#[derive(Debug, PartialEq, Eq)]
pub enum Pat {
    /// A binding by name.
    Ident(PatIdent),
    /// Any other pattern, kept as token text.
    Other(String),
}

#[verifier::ext_equal]
pub enum PatView {
    Ident(PatIdentView),
    Other(Seq<char>),
}

impl DeepView for Pat {
    type V = PatView;

    open spec fn deep_view(&self) -> PatView {
        match self {
            Pat::Ident(x) => PatView::Ident(x@),
            Pat::Other(x) => PatView::Other(x@),
        }
    }
}

impl View for Pat {
    type V = PatView;

    open spec fn view(&self) -> PatView {
        self.deep_view()
    }
}

impl Clone for Pat {
    fn clone(&self) -> (r: Self)
        ensures
            r@ == self@,
    {
        match self {
            Pat::Ident(x) => Pat::Ident(x.clone()),
            Pat::Other(x) => Pat::Other(x.clone()),
        }
    }
}

/// An implicit receiver: `self`, `&self`, `&'a mut self`.
#[derive(Debug, PartialEq, Eq)]
pub struct Receiver {
    pub attrs: Vec<Attribute>,
    /// `Some` for a receiver taken by reference, with the lifetime written on it.
    pub reference: Option<Option<String>>,
    pub mutable: bool,
}

#[verifier::ext_equal]
pub struct ReceiverView {
    pub attrs: Seq<AttributeView>,
    pub reference: Option<Option<Seq<char>>>,
    pub mutable: bool,
}

impl DeepView for Receiver {
    type V = ReceiverView;

    open spec fn deep_view(&self) -> ReceiverView {
        ReceiverView {
            attrs: self.attrs.deep_view(),
            reference: self.reference.deep_view(),
            mutable: self.mutable,
        }
    }
}

impl View for Receiver {
    type V = ReceiverView;

    open spec fn view(&self) -> ReceiverView {
        self.deep_view()
    }
}

impl Clone for Receiver {
    fn clone(&self) -> (r: Self)
        ensures
            r@ == self@,
    {
        let attrs = self.attrs.clone();
        let reference = clone_opt_opt_string(&self.reference);
        let mutable = self.mutable;
        Receiver { attrs, reference, mutable }
    }
}

/// A parameter with its type written out: `pat: ty`.
#[derive(Debug, PartialEq, Eq)]
pub struct PatType {
    pub attrs: Vec<Attribute>,
    pub pat: Pat,
    pub ty: Type,
}

#[verifier::ext_equal]
pub struct PatTypeView {
    pub attrs: Seq<AttributeView>,
    pub pat: PatView,
    pub ty: TypeView,
}

impl DeepView for PatType {
    type V = PatTypeView;

    open spec fn deep_view(&self) -> PatTypeView {
        PatTypeView {
            attrs: self.attrs.deep_view(),
            pat: self.pat@,
            ty: self.ty@,
        }
    }
}

impl View for PatType {
    type V = PatTypeView;

    open spec fn view(&self) -> PatTypeView {
        self.deep_view()
    }
}

impl Clone for PatType {
    fn clone(&self) -> (r: Self)
        ensures
            r@ == self@,
    {
        let attrs = self.attrs.clone();
        let pat = self.pat.clone();
        let ty = self.ty.clone();
        PatType { attrs, pat, ty }
    }
}

/// One parameter of a function.
#[derive(Debug, PartialEq, Eq)]
pub enum FnArg {
    Receiver(Receiver),
    Typed(PatType),
}

#[verifier::ext_equal]
pub enum FnArgView {
    Receiver(ReceiverView),
    Typed(PatTypeView),
}

impl DeepView for FnArg {
    type V = FnArgView;

    open spec fn deep_view(&self) -> FnArgView {
        match self {
            FnArg::Receiver(x) => FnArgView::Receiver(x@),
            FnArg::Typed(x) => FnArgView::Typed(x@),
        }
    }
}

impl View for FnArg {
    type V = FnArgView;

    open spec fn view(&self) -> FnArgView {
        self.deep_view()
    }
}

impl Clone for FnArg {
    fn clone(&self) -> (r: Self)
        ensures
            r@ == self@,
    {
        match self {
            FnArg::Receiver(x) => FnArg::Receiver(x.clone()),
            FnArg::Typed(x) => FnArg::Typed(x.clone()),
        }
    }
}

/// The declaration of a lifetime parameter: `'lifetime: 'b1 + 'b2`.
/// Lifetimes are named without their apostrophe.
#[derive(Debug, PartialEq, Eq)]
pub struct LifetimeDef {
    pub attrs: Vec<Attribute>,
    pub lifetime: String,
    pub bounds: Vec<String>,
}

#[verifier::ext_equal]
pub struct LifetimeDefView {
    pub attrs: Seq<AttributeView>,
    pub lifetime: Seq<char>,
    pub bounds: Seq<Seq<char>>,
}

impl DeepView for LifetimeDef {
    type V = LifetimeDefView;

    open spec fn deep_view(&self) -> LifetimeDefView {
        LifetimeDefView {
            attrs: self.attrs.deep_view(),
            lifetime: self.lifetime@,
            bounds: self.bounds.deep_view(),
        }
    }
}

impl View for LifetimeDef {
    type V = LifetimeDefView;

    open spec fn view(&self) -> LifetimeDefView {
        self.deep_view()
    }
}

impl Clone for LifetimeDef {
    fn clone(&self) -> (r: Self)
        ensures
            r@ == self@,
    {
        let attrs = self.attrs.clone();
        let lifetime = self.lifetime.clone();
        let bounds = self.bounds.clone();
        LifetimeDef { attrs, lifetime, bounds }
    }
}

/// One generic parameter.
#[derive(Debug, PartialEq, Eq)]
pub enum GenericParam {
    Lifetime(LifetimeDef),
    /// A type or const parameter, kept as token text.
    Other(String),
}

#[verifier::ext_equal]
pub enum GenericParamView {
    Lifetime(LifetimeDefView),
    Other(Seq<char>),
}

impl DeepView for GenericParam {
    type V = GenericParamView;

    open spec fn deep_view(&self) -> GenericParamView {
        match self {
            GenericParam::Lifetime(x) => GenericParamView::Lifetime(x@),
            GenericParam::Other(x) => GenericParamView::Other(x@),
        }
    }
}

impl View for GenericParam {
    type V = GenericParamView;

    open spec fn view(&self) -> GenericParamView {
        self.deep_view()
    }
}

impl Clone for GenericParam {
    fn clone(&self) -> (r: Self)
        ensures
            r@ == self@,
    {
        match self {
            GenericParam::Lifetime(x) => GenericParam::Lifetime(x.clone()),
            GenericParam::Other(x) => GenericParam::Other(x.clone()),
        }
    }
}

/// The generic parameters of an item and its `where` clause.
#[derive(Debug, PartialEq, Eq)]
pub struct Generics {
    pub params: Vec<GenericParam>,
    /// The `where` clause, as token text.
    pub where_clause: Option<String>,
}

#[verifier::ext_equal]
pub struct GenericsView {
    pub params: Seq<GenericParamView>,
    pub where_clause: Option<Seq<char>>,
}

impl DeepView for Generics {
    type V = GenericsView;

    open spec fn deep_view(&self) -> GenericsView {
        GenericsView {
            params: self.params.deep_view(),
            where_clause: self.where_clause.deep_view(),
        }
    }
}

impl View for Generics {
    type V = GenericsView;

    open spec fn view(&self) -> GenericsView {
        self.deep_view()
    }
}

impl Clone for Generics {
    fn clone(&self) -> (r: Self)
        ensures
            r@ == self@,
    {
        let params = self.params.clone();
        let where_clause = clone_opt_string(&self.where_clause);
        Generics { params, where_clause }
    }
}

/// The return type of a function.
#[derive(Debug, PartialEq, Eq)]
pub enum ReturnType {
    /// No return type is written.
    Omitted,
    /// `-> ty`
    Declared(Type),
}

#[verifier::ext_equal]
pub enum ReturnTypeView {
    Omitted,
    Declared(TypeView),
}

impl DeepView for ReturnType {
    type V = ReturnTypeView;

    open spec fn deep_view(&self) -> ReturnTypeView {
        match self {
            ReturnType::Omitted => ReturnTypeView::Omitted,
            ReturnType::Declared(x) => ReturnTypeView::Declared(x@),
        }
    }
}

impl View for ReturnType {
    type V = ReturnTypeView;

    open spec fn view(&self) -> ReturnTypeView {
        self.deep_view()
    }
}

impl Clone for ReturnType {
    fn clone(&self) -> (r: Self)
        ensures
            r@ == self@,
    {
        match self {
            ReturnType::Omitted => ReturnType::Omitted,
            ReturnType::Declared(x) => ReturnType::Declared(x.clone()),
        }
    }
}

/// The calling-convention marker of a function: `extern "name"`.
#[derive(Debug, PartialEq, Eq)]
pub struct Abi {
    pub name: Option<String>,
}

#[verifier::ext_equal]
pub struct AbiView {
    pub name: Option<Seq<char>>,
}

impl DeepView for Abi {
    type V = AbiView;

    open spec fn deep_view(&self) -> AbiView {
        AbiView {
            name: self.name.deep_view(),
        }
    }
}

impl View for Abi {
    type V = AbiView;

    open spec fn view(&self) -> AbiView {
        self.deep_view()
    }
}

impl Clone for Abi {
    fn clone(&self) -> (r: Self)
        ensures
            r@ == self@,
    {
        let name = clone_opt_string(&self.name);
        Abi { name }
    }
}

/// The signature of a function.
#[derive(Debug, PartialEq, Eq)]
pub struct Signature {
    pub constness: bool,
    pub asyncness: bool,
    pub unsafety: bool,
    pub abi: Option<Abi>,
    pub ident: String,
    pub generics: Generics,
    pub inputs: Vec<FnArg>,
    pub variadic: bool,
    pub output: ReturnType,
}

#[verifier::ext_equal]
pub struct SignatureView {
    pub constness: bool,
    pub asyncness: bool,
    pub unsafety: bool,
    pub abi: Option<AbiView>,
    pub ident: Seq<char>,
    pub generics: GenericsView,
    pub inputs: Seq<FnArgView>,
    pub variadic: bool,
    pub output: ReturnTypeView,
}

impl DeepView for Signature {
    type V = SignatureView;

    open spec fn deep_view(&self) -> SignatureView {
        SignatureView {
            constness: self.constness,
            asyncness: self.asyncness,
            unsafety: self.unsafety,
            abi: self.abi.deep_view(),
            ident: self.ident@,
            generics: self.generics@,
            inputs: self.inputs.deep_view(),
            variadic: self.variadic,
            output: self.output@,
        }
    }
}

impl View for Signature {
    type V = SignatureView;

    open spec fn view(&self) -> SignatureView {
        self.deep_view()
    }
}

impl Clone for Signature {
    fn clone(&self) -> (r: Self)
        ensures
            r@ == self@,
    {
        let constness = self.constness;
        let asyncness = self.asyncness;
        let unsafety = self.unsafety;
        let abi = match &self.abi {
            Some(inner) => Some(inner.clone()),
            None => None,
        };
        let ident = self.ident.clone();
        let generics = self.generics.clone();
        let inputs = self.inputs.clone();
        let variadic = self.variadic;
        let output = self.output.clone();
        Signature { constness, asyncness, unsafety, abi, ident, generics, inputs, variadic, output }
    }
}

/// The visibility of an item.
#[derive(Debug, PartialEq, Eq)]
pub enum Visibility {
    Public,
    Crate,
    /// `pub(path)`, with the path as token text.
    Restricted(String),
    Inherited,
}

#[verifier::ext_equal]
pub enum VisibilityView {
    Public,
    Crate,
    Restricted(Seq<char>),
    Inherited,
}

impl DeepView for Visibility {
    type V = VisibilityView;

    open spec fn deep_view(&self) -> VisibilityView {
        match self {
            Visibility::Public => VisibilityView::Public,
            Visibility::Crate => VisibilityView::Crate,
            Visibility::Restricted(x) => VisibilityView::Restricted(x@),
            Visibility::Inherited => VisibilityView::Inherited,
        }
    }
}

impl View for Visibility {
    type V = VisibilityView;

    open spec fn view(&self) -> VisibilityView {
        self.deep_view()
    }
}

impl Clone for Visibility {
    fn clone(&self) -> (r: Self)
        ensures
            r@ == self@,
    {
        match self {
            Visibility::Public => Visibility::Public,
            Visibility::Crate => Visibility::Crate,
            Visibility::Restricted(x) => Visibility::Restricted(x.clone()),
            Visibility::Inherited => Visibility::Inherited,
        }
    }
}

/// A method of an `impl` block.
#[derive(Debug, PartialEq, Eq)]
pub struct ImplItemMethod {
    pub attrs: Vec<Attribute>,
    pub vis: Visibility,
    pub defaultness: bool,
    pub sig: Signature,
    /// The body, as token text.
    pub block: String,
    /// The call mode read from the method's `call_type` attribute, if it has one.
    pub call_type: Option<CallType>,
}

#[verifier::ext_equal]
pub struct ImplItemMethodView {
    pub attrs: Seq<AttributeView>,
    pub vis: VisibilityView,
    pub defaultness: bool,
    pub sig: SignatureView,
    pub block: Seq<char>,
    pub call_type: Option<CallTypeView>,
}

impl DeepView for ImplItemMethod {
    type V = ImplItemMethodView;

    open spec fn deep_view(&self) -> ImplItemMethodView {
        ImplItemMethodView {
            attrs: self.attrs.deep_view(),
            vis: self.vis@,
            defaultness: self.defaultness,
            sig: self.sig@,
            block: self.block@,
            call_type: self.call_type.deep_view(),
        }
    }
}

impl View for ImplItemMethod {
    type V = ImplItemMethodView;

    open spec fn view(&self) -> ImplItemMethodView {
        self.deep_view()
    }
}

impl Clone for ImplItemMethod {
    fn clone(&self) -> (r: Self)
        ensures
            r@ == self@,
    {
        let attrs = self.attrs.clone();
        let vis = self.vis.clone();
        let defaultness = self.defaultness;
        let sig = self.sig.clone();
        let block = self.block.clone();
        let call_type = match &self.call_type {
            Some(inner) => Some(inner.clone()),
            None => None,
        };
        ImplItemMethod { attrs, vis, defaultness, sig, block, call_type }
    }
}

/// One item of an `impl` block.
#[derive(Debug, PartialEq, Eq)]
pub enum ImplItem {
    Method(ImplItemMethod),
    /// Any other item, kept as token text.
    Other(String),
}

#[verifier::ext_equal]
pub enum ImplItemView {
    Method(ImplItemMethodView),
    Other(Seq<char>),
}

impl DeepView for ImplItem {
    type V = ImplItemView;

    open spec fn deep_view(&self) -> ImplItemView {
        match self {
            ImplItem::Method(x) => ImplItemView::Method(x@),
            ImplItem::Other(x) => ImplItemView::Other(x@),
        }
    }
}

impl View for ImplItem {
    type V = ImplItemView;

    open spec fn view(&self) -> ImplItemView {
        self.deep_view()
    }
}

impl Clone for ImplItem {
    fn clone(&self) -> (r: Self)
        ensures
            r@ == self@,
    {
        match self {
            ImplItem::Method(x) => ImplItem::Method(x.clone()),
            ImplItem::Other(x) => ImplItem::Other(x.clone()),
        }
    }
}

} // verus!
