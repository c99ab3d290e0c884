//! What the transformation generates for an exported method.

use vstd::prelude::*;
use crate::call_type::CallType;
use crate::call_type::CallTypeView;
use crate::syntax::function::Attribute;
use crate::syntax::function::AttributeView;
use crate::syntax::function::Signature;
use crate::syntax::function::SignatureView;

verus! {

/// One argument of the call that a generated function makes.
#[derive(Debug, PartialEq, Eq)]
pub enum ArgExpr {
    /// `&env`, the environment handle.
    EnvRef,
    /// `FromJavaValue::from(ident, &env)`
    Convert(String),
    /// `TryFromJavaValue::try_from(ident, &env)?`
    TryConvert(String),
}

#[verifier::ext_equal]
pub enum ArgExprView {
    EnvRef,
    Convert(Seq<char>),
    TryConvert(Seq<char>),
}

impl DeepView for ArgExpr {
    type V = ArgExprView;

    open spec fn deep_view(&self) -> ArgExprView {
        match self {
            ArgExpr::EnvRef => ArgExprView::EnvRef,
            ArgExpr::Convert(x) => ArgExprView::Convert(x@),
            ArgExpr::TryConvert(x) => ArgExprView::TryConvert(x@),
        }
    }
}

impl View for ArgExpr {
    type V = ArgExprView;

    open spec fn view(&self) -> ArgExprView {
        self.deep_view()
    }
}

impl Clone for ArgExpr {
    fn clone(&self) -> (r: Self)
        ensures
            r@ == self@,
    {
        match self {
            ArgExpr::EnvRef => ArgExpr::EnvRef,
            ArgExpr::Convert(x) => ArgExpr::Convert(x.clone()),
            ArgExpr::TryConvert(x) => ArgExpr::TryConvert(x.clone()),
        }
    }
}

/// The call `struct_name::method(args)`.
#[derive(Debug, PartialEq, Eq)]
pub struct CallExpr {
    pub struct_name: String,
    pub method: String,
    pub args: Vec<ArgExpr>,
}

#[verifier::ext_equal]
pub struct CallExprView {
    pub struct_name: Seq<char>,
    pub method: Seq<char>,
    pub args: Seq<ArgExprView>,
}

impl DeepView for CallExpr {
    type V = CallExprView;

    open spec fn deep_view(&self) -> CallExprView {
        CallExprView {
            struct_name: self.struct_name@,
            method: self.method@,
            args: self.args.deep_view(),
        }
    }
}

impl View for CallExpr {
    type V = CallExprView;

    open spec fn view(&self) -> CallExprView {
        self.deep_view()
    }
}

impl Clone for CallExpr {
    fn clone(&self) -> (r: Self)
        ensures
            r@ == self@,
    {
        let struct_name = self.struct_name.clone();
        let method = self.method.clone();
        let args = self.args.clone();
        CallExpr { struct_name, method, args }
    }
}

/// A freestanding function generated for an exported method.
#[derive(Debug, PartialEq, Eq)]
pub struct ExportedFn {
    /// The attributes of the method, without `call_type`.
    pub attrs: Vec<Attribute>,
    /// The signature after conversion.
    pub sig: Signature,
    /// The call that reaches the method.
    pub call: CallExpr,
    pub call_type: CallType,
    /// The package of the enclosing type.
    pub package: String,
}

#[verifier::ext_equal]
pub struct ExportedFnView {
    pub attrs: Seq<AttributeView>,
    pub sig: SignatureView,
    pub call: CallExprView,
    pub call_type: CallTypeView,
    pub package: Seq<char>,
}

impl DeepView for ExportedFn {
    type V = ExportedFnView;

    open spec fn deep_view(&self) -> ExportedFnView {
        ExportedFnView {
            attrs: self.attrs.deep_view(),
            sig: self.sig@,
            call: self.call@,
            call_type: self.call_type@,
            package: self.package@,
        }
    }
}

impl View for ExportedFn {
    type V = ExportedFnView;

    open spec fn view(&self) -> ExportedFnView {
        self.deep_view()
    }
}

impl Clone for ExportedFn {
    fn clone(&self) -> (r: Self)
        ensures
            r@ == self@,
    {
        let attrs = self.attrs.clone();
        let sig = self.sig.clone();
        let call = self.call.clone();
        let call_type = self.call_type.clone();
        let package = self.package.clone();
        ExportedFn { attrs, sig, call, call_type, package }
    }
}

} // verus!
