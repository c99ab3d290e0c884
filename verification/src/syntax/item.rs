//! Items: `impl` blocks, structs, modules.

use vstd::prelude::*;
use crate::syntax::function::Attribute;
use crate::syntax::function::AttributeView;
use crate::syntax::function::Generics;
use crate::syntax::function::GenericsView;
use crate::syntax::function::ImplItem;
use crate::syntax::function::ImplItemView;
use crate::syntax::function::Visibility;
use crate::syntax::function::VisibilityView;
use crate::syntax::shim::ExportedFn;
use crate::syntax::shim::ExportedFnView;
use crate::syntax::ty::clone_opt_string;
use crate::syntax::ty::Type;
use crate::syntax::ty::TypeView;

verus! {

/// An `impl` block.
#[derive(Debug, PartialEq, Eq)]
pub struct ItemImpl {
    pub attrs: Vec<Attribute>,
    pub defaultness: bool,
    pub unsafety: bool,
    pub generics: Generics,
    /// The implemented trait, as token text.
    pub trait_path: Option<String>,
    pub self_ty: Type,
    pub items: Vec<ImplItem>,
}

#[verifier::ext_equal]
pub struct ItemImplView {
    pub attrs: Seq<AttributeView>,
    pub defaultness: bool,
    pub unsafety: bool,
    pub generics: GenericsView,
    pub trait_path: Option<Seq<char>>,
    pub self_ty: TypeView,
    pub items: Seq<ImplItemView>,
}

impl DeepView for ItemImpl {
    type V = ItemImplView;

    open spec fn deep_view(&self) -> ItemImplView {
        ItemImplView {
            attrs: self.attrs.deep_view(),
            defaultness: self.defaultness,
            unsafety: self.unsafety,
            generics: self.generics@,
            trait_path: self.trait_path.deep_view(),
            self_ty: self.self_ty@,
            items: self.items.deep_view(),
        }
    }
}

impl View for ItemImpl {
    type V = ItemImplView;

    open spec fn view(&self) -> ItemImplView {
        self.deep_view()
    }
}

impl Clone for ItemImpl {
    fn clone(&self) -> (r: Self)
        ensures
            r@ == self@,
    {
        let attrs = self.attrs.clone();
        let defaultness = self.defaultness;
        let unsafety = self.unsafety;
        let generics = self.generics.clone();
        let trait_path = clone_opt_string(&self.trait_path);
        let self_ty = self.self_ty.clone();
        let items = self.items.clone();
        ItemImpl { attrs, defaultness, unsafety, generics, trait_path, self_ty, items }
    }
}

/// A struct declaration.
#[derive(Debug, PartialEq, Eq)]
pub struct ItemStruct {
    pub attrs: Vec<Attribute>,
    pub vis: Visibility,
    pub ident: String,
    pub generics: Generics,
    /// The fields, as token text.
    pub fields: String,
    pub semi: bool,
}

#[verifier::ext_equal]
pub struct ItemStructView {
    pub attrs: Seq<AttributeView>,
    pub vis: VisibilityView,
    pub ident: Seq<char>,
    pub generics: GenericsView,
    pub fields: Seq<char>,
    pub semi: bool,
}

impl DeepView for ItemStruct {
    type V = ItemStructView;

    open spec fn deep_view(&self) -> ItemStructView {
        ItemStructView {
            attrs: self.attrs.deep_view(),
            vis: self.vis@,
            ident: self.ident@,
            generics: self.generics@,
            fields: self.fields@,
            semi: self.semi,
        }
    }
}

impl View for ItemStruct {
    type V = ItemStructView;

    open spec fn view(&self) -> ItemStructView {
        self.deep_view()
    }
}

impl Clone for ItemStruct {
    fn clone(&self) -> (r: Self)
        ensures
            r@ == self@,
    {
        let attrs = self.attrs.clone();
        let vis = self.vis.clone();
        let ident = self.ident.clone();
        let generics = self.generics.clone();
        let fields = self.fields.clone();
        let semi = self.semi;
        ItemStruct { attrs, vis, ident, generics, fields, semi }
    }
}

/// What an `impl` block becomes: the block with its methods cleaned, and after it the functions generated for its exported methods.
#[derive(Debug, PartialEq, Eq)]
pub struct Expansion {
    pub preserved: ItemImpl,
    pub generated: Vec<ExportedFn>,
}

#[verifier::ext_equal]
pub struct ExpansionView {
    pub preserved: ItemImplView,
    pub generated: Seq<ExportedFnView>,
}

impl DeepView for Expansion {
    type V = ExpansionView;

    open spec fn deep_view(&self) -> ExpansionView {
        ExpansionView {
            preserved: self.preserved@,
            generated: self.generated.deep_view(),
        }
    }
}

impl View for Expansion {
    type V = ExpansionView;

    open spec fn view(&self) -> ExpansionView {
        self.deep_view()
    }
}

impl Clone for Expansion {
    fn clone(&self) -> (r: Self)
        ensures
            r@ == self@,
    {
        let preserved = self.preserved.clone();
        let generated = self.generated.clone();
        Expansion { preserved, generated }
    }
}

/// A module: `mod ident { content }`, or `mod ident;` without content.
#[derive(Debug, PartialEq, Eq)]
pub struct ItemMod {
    pub attrs: Vec<Attribute>,
    pub vis: Visibility,
    pub ident: String,
    pub content: Option<Vec<Item>>,
    pub semi: bool,
}

/// One item of a module.
#[derive(Debug, PartialEq, Eq)]
pub enum Item {
    Impl(ItemImpl),
    Mod(ItemMod),
    Struct(ItemStruct),
    /// An `impl` block after the transformation.
    Expanded(Expansion),
    /// Any other item, kept as token text.
    Other(String),
}

#[verifier::ext_equal]
pub struct ItemModView {
    pub attrs: Seq<AttributeView>,
    pub vis: VisibilityView,
    pub ident: Seq<char>,
    pub content: Option<Seq<ItemView>>,
    pub semi: bool,
}

#[verifier::ext_equal]
pub enum ItemView {
    Impl(ItemImplView),
    Mod(ItemModView),
    Struct(ItemStructView),
    Expanded(ExpansionView),
    Other(Seq<char>),
}

impl ItemMod {
    /// The ghost twin of this module.
    pub open spec fn model(&self) -> ItemModView
        decreases self,
    {
        ItemModView {
            attrs: self.attrs.deep_view(),
            vis: self.vis@,
            ident: self.ident@,
            content: match self.content {
                Some(items) => Some(
                    Seq::new(
                        items@.len(),
                        |i: int|
                            if 0 <= i < items@.len() {
                                items@[i].model()
                            } else {
                                arbitrary()
                            },
                    ),
                ),
                None => None,
            },
            semi: self.semi,
        }
    }
}

impl Item {
    /// The ghost twin of this item.
    pub open spec fn model(&self) -> ItemView
        decreases self,
    {
        match self {
            Item::Impl(i) => ItemView::Impl(i@),
            Item::Mod(m) => ItemView::Mod(m.model()),
            Item::Struct(s) => ItemView::Struct(s@),
            Item::Expanded(e) => ItemView::Expanded(e@),
            Item::Other(t) => ItemView::Other(t@),
        }
    }
}

impl DeepView for ItemMod {
    type V = ItemModView;

    open spec fn deep_view(&self) -> ItemModView {
        self.model()
    }
}

impl View for ItemMod {
    type V = ItemModView;

    open spec fn view(&self) -> ItemModView {
        self.model()
    }
}

impl DeepView for Item {
    type V = ItemView;

    open spec fn deep_view(&self) -> ItemView {
        self.model()
    }
}

impl View for Item {
    type V = ItemView;

    open spec fn view(&self) -> ItemView {
        self.model()
    }
}

/// The view of a module with content is made of the views of its items.
pub proof fn lemma_mod_view(module: ItemMod)
    ensures
        module@.content == module.content.deep_view(),
        module@.attrs == module.attrs.deep_view(),
        module@.vis == module.vis@,
        module@.ident == module.ident@,
        module@.semi == module.semi,
{
    match module.content {
        Some(items) => {
        },
        None => {},
    }
}

/// The view of an item that is a module is the view of the module.
pub proof fn lemma_item_mod_view(module: ItemMod)
    ensures
        Item::Mod(module)@ == ItemView::Mod(module@),
{
}

impl Clone for ItemMod {
    #[verifier::loop_isolation(false)]
    fn clone(&self) -> (r: Self)
        ensures
            r@ == self@,
        decreases self,
    {
        let attrs = self.attrs.clone();
        let content = match &self.content {
            Some(items) => {
                let mut out: Vec<Item> = Vec::new();
                let mut i: usize = 0;
                while i < items.len()
                    invariant
                        i <= items.len(),
                        out@.len() == i,
                        forall|j: int| 0 <= j < i ==> out@[j]@ == items@[j]@,
                    decreases items.len() - i,
                {
                    out.push(items[i].clone());
                    i += 1;
                }
                assert(out.deep_view() =~= items.deep_view());
                Some(out)
            },
            None => None,
        };
        let r = ItemMod {
            attrs,
            vis: self.vis.clone(),
            ident: self.ident.clone(),
            content,
            semi: self.semi,
        };
        proof {
            lemma_mod_view(r);
            lemma_mod_view(*self);
        }
        r
    }
}

impl Clone for Item {
    fn clone(&self) -> (r: Self)
        ensures
            r@ == self@,
        decreases self,
    {
        match self {
            Item::Impl(i) => Item::Impl(i.clone()),
            Item::Mod(m) => Item::Mod(m.clone()),
            Item::Struct(s) => Item::Struct(s.clone()),
            Item::Expanded(e) => Item::Expanded(e.clone()),
            Item::Other(t) => Item::Other(t.clone()),
        }
    }
}

} // verus!
