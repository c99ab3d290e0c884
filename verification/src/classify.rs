//! Sorts the methods of an `impl` block by their calling convention, and
//! cleans those that are exported.

use vstd::prelude::*;
use crate::syntax::function::Attribute;
use crate::syntax::function::AttributeView;
use crate::syntax::function::ImplItem;
use crate::syntax::function::ImplItemMethod;
use crate::syntax::function::ImplItemMethodView;
use crate::syntax::function::ImplItemView;
use crate::syntax::function::Signature;
use crate::syntax::function::SignatureView;
use crate::syntax::function::Visibility;
use crate::syntax::item::ItemImpl;
use crate::syntax::path::ident_path;
use crate::syntax::path::Path;
use crate::syntax::path::PathView;
use crate::text::text_is;

verus! {

/// What the calling convention of a method makes of it.
#[derive(Clone, Copy, Debug, PartialEq, Eq, Structural)]
pub enum ImplItemType {
    /// Callable from the foreign side: `extern "jni"`.
    Exported,
    /// Provided by the foreign side: `extern "java"`.
    Imported,
    /// Neither.
    Unexported,
}

/// The name of the calling convention that `sig` is marked with.
pub open spec fn abi_name(sig: SignatureView) -> Option<Seq<char>> {
    match sig.abi {
        Some(abi) => abi.name,
        None => None,
    }
}

/// The class of a method marked with the calling convention `marker`.
/// Only `jni` and `java` are known; anything else, and no marker, leaves
/// the method unexported.
pub open spec fn classify_marker(marker: Option<Seq<char>>) -> ImplItemType {
    match marker {
        Some(name) => if name == "jni"@ {
            ImplItemType::Exported
        } else if name == "java"@ {
            ImplItemType::Imported
        } else {
            ImplItemType::Unexported
        },
        None => ImplItemType::Unexported,
    }
}

/// The class of the method `method`.
pub open spec fn method_type(method: ImplItemMethodView) -> ImplItemType {
    classify_marker(abi_name(method.sig))
}

/// The class of an item of an `impl` block; what is no method is
/// unexported.
pub open spec fn item_type(item: ImplItemView) -> ImplItemType {
    match item {
        ImplItemView::Method(m) => method_type(m),
        ImplItemView::Other(_) => ImplItemType::Unexported,
    }
}

/// The name of the calling convention that `sig` is marked with.
pub fn get_abi(sig: &Signature) -> (r: Option<&String>)
    ensures
        r.deep_view() == abi_name(sig@),
{
    match &sig.abi {
        Some(abi) => match &abi.name {
            Some(name) => Some(name),
            None => None,
        },
        None => None,
    }
}

/// The class of a method with the signature `sig`.
pub fn classify(sig: &Signature) -> (r: ImplItemType)
    ensures
        r == classify_marker(abi_name(sig@)),
{
    match get_abi(sig) {
        Some(name) => if text_is(name, "jni") {
            ImplItemType::Exported
        } else if text_is(name, "java") {
            ImplItemType::Imported
        } else {
            ImplItemType::Unexported
        },
        None => ImplItemType::Unexported,
    }
}

/// Collects the items of an `impl` block, each with its class, in the
/// order in which they are visited.
#[derive(Debug, PartialEq, Eq)]
pub struct ImplExportVisitor<'ast> {
    pub items: Vec<(&'ast ImplItem, ImplItemType)>,
}

impl<'ast> Default for ImplExportVisitor<'ast> {
    fn default() -> (r: Self)
        ensures
            r.items@.len() == 0,
    {
        ImplExportVisitor { items: Vec::new() }
    }
}

/// Whether `collected` holds the items of `items`, each with its class.
pub open spec fn classified(
    collected: Seq<(&ImplItem, ImplItemType)>,
    items: Seq<ImplItem>,
) -> bool {
    &&& collected.len() == items.len()
    &&& forall|i: int|
        0 <= i < items.len() ==> (#[trigger] collected[i]).0 == &items[i] && collected[i].1
            == item_type(items[i]@)
}

impl<'ast> ImplExportVisitor<'ast> {
    /// Adds `node` with its class.
    pub fn visit_impl_item(&mut self, node: &'ast ImplItem)
        ensures
            final(self).items@ == old(self).items@.push((node, item_type(node@))),
    {
        match node {
            ImplItem::Method(method) => {
                let class = classify(&method.sig);
                self.items.push((node, class));
            },
            ImplItem::Other(_) => {
                self.items.push((node, ImplItemType::Unexported));
            },
        }
    }

    /// Adds the items of `node`, in their order.
    pub fn visit_item_impl(&mut self, node: &'ast ItemImpl)
        ensures
            final(self).items@.len() == old(self).items@.len() + node.items@.len(),
            final(self).items@.take(old(self).items@.len() as int) == old(self).items@,
            classified(final(self).items@.skip(old(self).items@.len() as int), node.items@),
    {
        let ghost start = self.items@;
        let mut i: usize = 0;
        while i < node.items.len()
            invariant
                i <= node.items.len(),
                self.items@.len() == start.len() + i,
                self.items@.take(start.len() as int) == start,
                classified(self.items@.skip(start.len() as int), node.items@.take(i as int)),
            decreases node.items.len() - i,
        {
            let ghost before = self.items@;
            self.visit_impl_item(&node.items[i]);
            proof {
                let now = self.items@.skip(start.len() as int);
                let then = before.skip(start.len() as int);
                assert forall|k: int| 0 <= k < i + 1 implies (#[trigger] now[k]).0
                    == &node.items@.take(i + 1)[k] && now[k].1 == item_type(
                    node.items@.take(i + 1)[k]@,
                ) by {
                    if k < i {
                        assert(now[k] == then[k]);
                    }
                }
            }
            i += 1;
        }
    }
}

/// Whether the attribute `attr` stays on a cleaned method: its path is a
/// bare identifier other than `call_type`.
pub open spec fn survives_cleaning(attr: AttributeView) -> bool {
    attr.path != ident_path("call_type"@) && exists|name: Seq<char>| attr.path == ident_path(name)
}

/// Whether the method is cleaned: whether it is public and marked `jni`.
pub open spec fn is_cleaned(method: ImplItemMethodView) -> bool {
    method.vis is Public && abi_name(method.sig) == Some("jni"@)
}

/// The method without what only the transformation reads.  A public method
/// marked `jni` loses its call mode and every attribute that does not
/// [survive](survives_cleaning); any other method is unchanged.  The
/// marker stays, so a cleaned method is classified as before.
pub open spec fn cleaned_method(method: ImplItemMethodView) -> ImplItemMethodView {
    if is_cleaned(method) {
        ImplItemMethodView {
            attrs: method.attrs.filter(|a: AttributeView| survives_cleaning(a)),
            vis: method.vis,
            defaultness: method.defaultness,
            sig: method.sig,
            block: method.block,
            call_type: None,
        }
    } else {
        method
    }
}

/// The method as an ordinary method: a public method marked `jni` loses
/// the marker; any other method is unchanged.
pub open spec fn unmarked_method(method: ImplItemMethodView) -> ImplItemMethodView {
    if is_cleaned(method) {
        ImplItemMethodView {
            attrs: method.attrs,
            vis: method.vis,
            defaultness: method.defaultness,
            sig: SignatureView {
                constness: method.sig.constness,
                asyncness: method.sig.asyncness,
                unsafety: method.sig.unsafety,
                abi: None,
                ident: method.sig.ident,
                generics: method.sig.generics,
                inputs: method.sig.inputs,
                variadic: method.sig.variadic,
                output: method.sig.output,
            },
            block: method.block,
            call_type: method.call_type,
        }
    } else {
        method
    }
}

/// The item with its method cleaned, where it is one.
pub open spec fn cleaned_item(item: ImplItemView) -> ImplItemView {
    match item {
        ImplItemView::Method(m) => ImplItemView::Method(cleaned_method(m)),
        ImplItemView::Other(_) => item,
    }
}

/// The item with its method unmarked, where it is one.
pub open spec fn unmarked_item(item: ImplItemView) -> ImplItemView {
    match item {
        ImplItemView::Method(m) => ImplItemView::Method(unmarked_method(m)),
        ImplItemView::Other(_) => item,
    }
}

/// The attributes of `attrs` that survive cleaning, in their order.
pub fn surviving_attributes(attrs: &Vec<Attribute>) -> (r: Vec<Attribute>)
    ensures
        r.deep_view() == attrs.deep_view().filter(|a: AttributeView| survives_cleaning(a)),
{
    let ghost keep = |a: AttributeView| survives_cleaning(a);
    let mut out: Vec<Attribute> = Vec::new();
    let mut i: usize = 0;
    proof {
        reveal(Seq::filter);
    }
    while i < attrs.len()
        invariant
            i <= attrs.len(),
            keep == (|a: AttributeView| survives_cleaning(a)),
            out.deep_view() == attrs.deep_view().take(i as int).filter(keep),
        decreases attrs.len() - i,
    {
        proof {
            let upto = attrs.deep_view().take(i + 1);
            assert(upto.drop_last() =~= attrs.deep_view().take(i as int));
            reveal(Seq::filter);
        }
        let attr = &attrs[i];
        if attr.path.is_bare_ident() && !attr.path.is_ident("call_type") {
            out.push(attr.clone());
        }
        i += 1;
    }
    proof {
        assert(attrs.deep_view().take(attrs.len() as int) =~= attrs.deep_view());
    }
    out
}

/// Cleans the methods that stay in an `impl` block.
#[derive(Clone, Copy, Debug, PartialEq, Eq)]
pub struct ImplCleaner;

fn is_public_jni(node: &ImplItemMethod) -> (r: bool)
    ensures
        r == is_cleaned(node@),
{
    let public = match &node.vis {
        Visibility::Public => true,
        _ => false,
    };
    let exported = match get_abi(&node.sig) {
        Some(name) => text_is(name, "jni"),
        None => false,
    };
    public && exported
}

impl ImplCleaner {
    /// The method without what only the transformation reads.
    pub fn fold_impl_item_method(&self, node: ImplItemMethod) -> (r: ImplItemMethod)
        ensures
            r@ == cleaned_method(node@),
    {
        if is_public_jni(&node) {
            let attrs = surviving_attributes(&node.attrs);
            ImplItemMethod {
                attrs,
                vis: node.vis,
                defaultness: node.defaultness,
                sig: node.sig,
                block: node.block,
                call_type: None,
            }
        } else {
            node
        }
    }

    /// The item with its method cleaned, where it is one.
    pub fn fold_impl_item(&self, node: ImplItem) -> (r: ImplItem)
        ensures
            r@ == cleaned_item(node@),
    {
        match node {
            ImplItem::Method(m) => ImplItem::Method(self.fold_impl_item_method(m)),
            ImplItem::Other(t) => ImplItem::Other(t),
        }
    }

    /// The method as an ordinary method, without the marker `jni`.
    pub fn unmark_method(&self, node: ImplItemMethod) -> (r: ImplItemMethod)
        ensures
            r@ == unmarked_method(node@),
    {
        if is_public_jni(&node) {
            let sig = node.sig;
            ImplItemMethod {
                attrs: node.attrs,
                vis: node.vis,
                defaultness: node.defaultness,
                sig: Signature {
                    constness: sig.constness,
                    asyncness: sig.asyncness,
                    unsafety: sig.unsafety,
                    abi: None,
                    ident: sig.ident,
                    generics: sig.generics,
                    inputs: sig.inputs,
                    variadic: sig.variadic,
                    output: sig.output,
                },
                block: node.block,
                call_type: node.call_type,
            }
        } else {
            node
        }
    }

    /// The item with its method unmarked, where it is one.
    pub fn unmark_item(&self, node: ImplItem) -> (r: ImplItem)
        ensures
            r@ == unmarked_item(node@),
    {
        match node {
            ImplItem::Method(m) => ImplItem::Method(self.unmark_method(m)),
            ImplItem::Other(t) => ImplItem::Other(t),
        }
    }
}

/// Whether `path` is one of `whitelist`.
pub open spec fn listed(whitelist: Seq<PathView>, path: PathView) -> bool {
    whitelist.contains(path)
}

/// Collects the attributes whose path is on a list.
#[derive(Debug, PartialEq, Eq)]
pub struct AttributeFilter<'ast> {
    pub whitelist: Vec<Path>,
    pub filtered_attributes: Vec<&'ast Attribute>,
}

impl<'ast> AttributeFilter<'ast> {
    pub fn with_whitelist(whitelist: Vec<Path>) -> (r: Self)
        ensures
            r.whitelist == whitelist,
            r.filtered_attributes@.len() == 0,
    {
        AttributeFilter { whitelist, filtered_attributes: Vec::new() }
    }

    /// Whether `path` is on the list.
    pub fn allows(&self, path: &Path) -> (r: bool)
        ensures
            r == listed(self.whitelist.deep_view(), path@),
    {
        let mut i: usize = 0;
        while i < self.whitelist.len()
            invariant
                i <= self.whitelist.len(),
                forall|k: int| 0 <= k < i ==> self.whitelist.deep_view()[k] != path@,
            decreases self.whitelist.len() - i,
        {
            if self.whitelist[i].matches(path) {
                assert(self.whitelist.deep_view()[i as int] == path@);
                return true;
            }
            i += 1;
        }
        false
    }

    /// Adds `attribute` to the collection if its path is on the list.
    pub fn visit_attribute(&mut self, attribute: &'ast Attribute)
        ensures
            final(self).whitelist == old(self).whitelist,
            final(self).filtered_attributes@ == if listed(
                old(self).whitelist.deep_view(),
                attribute@.path,
            ) {
                old(self).filtered_attributes@.push(attribute)
            } else {
                old(self).filtered_attributes@
            },
    {
        if self.allows(&attribute.path) {
            self.filtered_attributes.push(attribute);
        }
    }
}

} // verus!
