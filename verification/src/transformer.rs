//! Rewrites a whole module: every `impl` block becomes the block with its
//! methods cleaned, followed by the functions generated for its exported
//! methods.

use vstd::prelude::*;
use crate::classify::cleaned_item;
use crate::classify::item_type;
use crate::classify::unmarked_item;
use crate::classify::ImplCleaner;
use crate::classify::ImplExportVisitor;
use crate::classify::ImplItemType;
use crate::diagnostics::append_diagnostics;
use crate::diagnostics::Diagnostic;
use crate::diagnostics::DiagnosticKind;
use crate::diagnostics::DiagnosticView;
use crate::diagnostics::Policy;
use crate::diagnostics::Severity;
use crate::diagnostics::Site;
use crate::exported::after_receiver_id;
use crate::exported::export_diagnostics;
use crate::exported::exported_fn;
use crate::exported::receiver_id;
use crate::exported::ExportedMethodTransformer;
use crate::exported::ExportedMethodTransformerView;
use crate::packages::package_of;
use crate::packages::PackageTable;
use crate::syntax::function::Attribute;
use crate::syntax::function::AttributeView;
use crate::syntax::function::GenericParam;
use crate::syntax::function::GenericParamView;
use crate::syntax::function::Generics;
use crate::syntax::function::GenericsView;
use crate::syntax::function::ImplItem;
use crate::syntax::function::ImplItemView;
use crate::syntax::function::LifetimeDef;
use crate::syntax::function::LifetimeDefView;
use crate::syntax::item::lemma_item_mod_view;
use crate::syntax::item::lemma_mod_view;
use crate::syntax::item::Expansion;
use crate::syntax::item::ExpansionView;
use crate::syntax::item::Item;
use crate::syntax::item::ItemImpl;
use crate::syntax::item::ItemImplView;
use crate::syntax::item::ItemMod;
use crate::syntax::item::ItemModView;
use crate::syntax::item::ItemStruct;
use crate::syntax::item::ItemStructView;
use crate::syntax::item::ItemView;
use crate::syntax::path::canonical_path;
use crate::syntax::path::ident_path;
use crate::syntax::path::path_has_lifetime;
use crate::syntax::path::path_name;
use crate::syntax::path::Path;
use crate::syntax::path::PathView;
use crate::syntax::shim::ExportedFn;
use crate::syntax::shim::ExportedFnView;
use crate::syntax::ty::clone_opt_string;
use crate::syntax::ty::Type;
use crate::syntax::ty::TypeView;

verus! {

/// What a rewriting step yields: a value, the diagnostics raised on the
/// way, and the counter of receiver names afterwards.
pub struct Folded<T> {
    pub value: T,
    pub diagnostics: Seq<DiagnosticView>,
    pub next: u64,
}

/// What the rewriting is given besides the module.
pub struct FoldContext {
    pub packages: Map<PathView, Option<Seq<char>>>,
    pub policy: Policy,
}

/// The path that names the type of an `impl` block, where the type is
/// written as a path.
pub open spec fn nameable_path(self_ty: TypeView) -> Option<PathView> {
    match self_ty {
        TypeView::Path(p) => Some(p),
        TypeView::Qualified { path, .. } => Some(path),
        _ => None,
    }
}

/// Whether `param` declares a lifetime that `path` mentions.
pub open spec fn is_path_lifetime(param: GenericParamView, path: PathView) -> bool {
    param matches GenericParamView::Lifetime(l) && path_has_lifetime(path, l.lifetime)
}

/// The lifetimes declared by `generics` that `path` mentions, in the order
/// of their declaration.
pub open spec fn path_lifetime_params(generics: GenericsView, path: PathView) -> Seq<
    LifetimeDefView,
> {
    generics.params.filter(|p: GenericParamView| is_path_lifetime(p, path)).map_values(
        |p: GenericParamView| p->Lifetime_0,
    )
}

/// The exporter for the `impl` block `node` of the type at `path`, which
/// has the package `package`.
pub open spec fn exporter_for(
    c: FoldContext,
    node: ItemImplView,
    path: PathView,
    package: Seq<char>,
) -> ExportedMethodTransformerView {
    ExportedMethodTransformerView {
        struct_type: path,
        struct_name: path_name(canonical_path(path)),
        struct_lifetimes: path_lifetime_params(node.generics, path),
        package,
        missing_env_lifetime: c.policy.missing_env_lifetime,
    }
}

/// The functions generated for the exported methods among `items`, in the
/// order of the methods.  Each exported method asks for one receiver name.
pub open spec fn exported_items(
    e: ExportedMethodTransformerView,
    items: Seq<ImplItemView>,
    next: u64,
) -> Folded<Seq<ExportedFnView>>
    decreases items.len(),
{
    if items.len() == 0 {
        Folded { value: Seq::empty(), diagnostics: Seq::empty(), next }
    } else {
        let before = exported_items(e, items.drop_last(), next);
        match items.last() {
            ImplItemView::Method(m) => if item_type(items.last()) == ImplItemType::Exported {
                let id = receiver_id(before.next);
                Folded {
                    value: match exported_fn(e, m, id) {
                        Some(f) => before.value.push(f),
                        None => before.value,
                    },
                    diagnostics: before.diagnostics + export_diagnostics(e, m, id),
                    next: after_receiver_id(before.next),
                }
            } else {
                before
            },
            ImplItemView::Other(_) => before,
        }
    }
}

/// The item as it stays in its `impl` block: an exported method is
/// cleaned and then unmarked, an imported one is cleaned, and anything else
/// is unchanged.
pub open spec fn preserved_item(item: ImplItemView) -> ImplItemView {
    match item_type(item) {
        ImplItemType::Exported => unmarked_item(cleaned_item(item)),
        ImplItemType::Imported => cleaned_item(item),
        ImplItemType::Unexported => item,
    }
}

/// `node` with `items` for its items.
pub open spec fn with_items(node: ItemImplView, items: Seq<ImplItemView>) -> ItemImplView {
    ItemImplView {
        attrs: node.attrs,
        defaultness: node.defaultness,
        unsafety: node.unsafety,
        generics: node.generics,
        trait_path: node.trait_path,
        self_ty: node.self_ty,
        items,
    }
}

/// The diagnostic that reports the type at `path` as having no package.
pub open spec fn missing_package(c: FoldContext, path: PathView) -> DiagnosticView {
    DiagnosticView {
        severity: c.policy.missing_package,
        kind: DiagnosticKind::MissingPackage,
        site: Site::SelfType,
        struct_name: path_name(canonical_path(path)),
        method: None,
    }
}

/// What the `impl` block `node` becomes.
///
/// A block whose type is not written as a path stays as it is.  So does a
/// block whose type has no package, and that is reported.  In any other
/// block every item is [preserved](preserved_item), and the functions for
/// its exported methods are generated.
pub open spec fn transformed_impl(c: FoldContext, node: ItemImplView, next: u64) -> Folded<
    ExpansionView,
> {
    let untouched = ExpansionView { preserved: node, generated: Seq::empty() };
    match nameable_path(node.self_ty) {
        None => Folded { value: untouched, diagnostics: Seq::empty(), next },
        Some(path) => match package_of(c.packages, canonical_path(path)) {
            None => Folded { value: untouched, diagnostics: seq![missing_package(c, path)], next },
            Some(package) => {
                let exported = exported_items(
                    exporter_for(c, node, path, package),
                    node.items,
                    next,
                );
                Folded {
                    value: ExpansionView {
                        preserved: with_items(
                            node,
                            node.items.map_values(|i: ImplItemView| preserved_item(i)),
                        ),
                        generated: exported.value,
                    },
                    diagnostics: exported.diagnostics,
                    next: exported.next,
                }
            },
        },
    }
}

/// Whether `attr` names the package of a struct.
pub open spec fn is_package_attribute(attr: AttributeView) -> bool {
    attr.path == ident_path("package"@)
}

/// The struct declaration as it is emitted: without its `package`
/// attributes.
pub open spec fn folded_struct(node: ItemStructView) -> ItemStructView {
    ItemStructView {
        attrs: node.attrs.filter(|a: AttributeView| !is_package_attribute(a)),
        vis: node.vis,
        ident: node.ident,
        generics: node.generics,
        fields: node.fields,
        semi: node.semi,
    }
}

/// The inner attribute `#![allow(lint)]`.
pub open spec fn allow_attribute(lint: Seq<char>) -> AttributeView {
    AttributeView { inner: true, path: ident_path("allow"@), tokens: "("@ + lint + ")"@ }
}

/// The attributes of a rewritten module: its own, then the two that
/// silence the lints that generated code trips.
pub open spec fn module_attributes(attrs: Seq<AttributeView>) -> Seq<AttributeView> {
    attrs.push(allow_attribute("non_snake_case"@)).push(allow_attribute("unused"@))
}

/// What the item becomes: an `impl` block is expanded, a module rewritten,
/// a struct loses its `package` attributes, anything else stays.
pub open spec fn folded_item(c: FoldContext, item: ItemView, next: u64) -> Folded<ItemView>
    decreases item,
{
    match item {
        ItemView::Impl(node) => {
            let expanded = transformed_impl(c, node, next);
            Folded {
                value: ItemView::Expanded(expanded.value),
                diagnostics: expanded.diagnostics,
                next: expanded.next,
            }
        },
        ItemView::Mod(node) => {
            let module = folded_mod(c, node, next);
            Folded {
                value: ItemView::Mod(module.value),
                diagnostics: module.diagnostics,
                next: module.next,
            }
        },
        ItemView::Struct(node) => Folded {
            value: ItemView::Struct(folded_struct(node)),
            diagnostics: Seq::empty(),
            next,
        },
        _ => Folded { value: item, diagnostics: Seq::empty(), next },
    }
}

/// What the items become, one after the other.
pub open spec fn folded_items(c: FoldContext, items: Seq<ItemView>, next: u64) -> Folded<
    Seq<ItemView>,
>
    decreases items,
{
    if items.len() == 0 {
        Folded { value: Seq::empty(), diagnostics: Seq::empty(), next }
    } else {
        let before = folded_items(c, items.drop_last(), next);
        let last = folded_item(c, items.last(), before.next);
        Folded {
            value: before.value.push(last.value),
            diagnostics: before.diagnostics + last.diagnostics,
            next: last.next,
        }
    }
}

/// What the module becomes: its attributes are extended, its items
/// rewritten.
pub open spec fn folded_mod(c: FoldContext, node: ItemModView, next: u64) -> Folded<ItemModView>
    decreases node,
{
    match node.content {
        Some(items) => {
            let content = folded_items(c, items, next);
            Folded {
                value: ItemModView {
                    attrs: module_attributes(node.attrs),
                    vis: node.vis,
                    ident: node.ident,
                    content: Some(content.value),
                    semi: node.semi,
                },
                diagnostics: content.diagnostics,
                next: content.next,
            }
        },
        None => Folded {
            value: ItemModView {
                attrs: module_attributes(node.attrs),
                vis: node.vis,
                ident: node.ident,
                content: None,
                semi: node.semi,
            },
            diagnostics: Seq::empty(),
            next,
        },
    }
}

/// A module to rewrite, with the package of each of its types.
#[derive(Debug, PartialEq, Eq)]
pub struct JNIBridgeModule {
    pub module_decl: ItemMod,
    pub package_map: PackageTable,
}

/// Rewrites a module.
///
/// The diagnostics of all steps are collected in `diagnostics`, and
/// `next_receiver` counts the receiver names handed out so far.
#[derive(Debug, PartialEq, Eq)]
pub struct ModTransformer {
    pub module: JNIBridgeModule,
    pub policy: Policy,
    pub diagnostics: Vec<Diagnostic>,
    pub next_receiver: u64,
}

fn lint_attribute(lint: &str) -> (r: Attribute)
    ensures
        r@ == allow_attribute(lint@),
{
    Attribute {
        inner: true,
        path: Path::from_ident("allow"),
        tokens: String::from_str("(").concat(lint).concat(")"),
    }
}

fn extended_attributes(attrs: &Vec<Attribute>) -> (r: Vec<Attribute>)
    ensures
        r.deep_view() == module_attributes(attrs.deep_view()),
{
    let mut out = attrs.clone();
    out.push(lint_attribute("non_snake_case"));
    out.push(lint_attribute("unused"));
    out
}

fn without_package(attrs: &Vec<Attribute>) -> (r: Vec<Attribute>)
    ensures
        r.deep_view() == attrs.deep_view().filter(|a: AttributeView| !is_package_attribute(a)),
{
    let ghost keep = |a: AttributeView| !is_package_attribute(a);
    let mut out: Vec<Attribute> = Vec::new();
    let mut i: usize = 0;
    proof {
        reveal(Seq::filter);
    }
    while i < attrs.len()
        invariant
            i <= attrs.len(),
            keep == (|a: AttributeView| !is_package_attribute(a)),
            out.deep_view() == attrs.deep_view().take(i as int).filter(keep),
        decreases attrs.len() - i,
    {
        proof {
            let upto = attrs.deep_view().take(i + 1);
            assert(upto.drop_last() =~= attrs.deep_view().take(i as int));
            reveal(Seq::filter);
        }
        let attr = &attrs[i];
        if !attr.path.is_ident("package") {
            out.push(attr.clone());
        }
        i += 1;
    }
    proof {
        assert(attrs.deep_view().take(attrs.len() as int) =~= attrs.deep_view());
    }
    out
}

fn lifetimes_of_path(generics: &Generics, path: &Path) -> (r: Vec<LifetimeDef>)
    ensures
        r.deep_view() == path_lifetime_params(generics@, path@),
{
    let ghost keep = |p: GenericParamView| is_path_lifetime(p, path@);
    let ghost unwrap = |p: GenericParamView| p->Lifetime_0;
    let ghost params = generics@.params;
    let mut out: Vec<LifetimeDef> = Vec::new();
    let mut i: usize = 0;
    proof {
        reveal(Seq::filter);
    }
    while i < generics.params.len()
        invariant
            i <= generics.params.len(),
            params == generics@.params,
            keep == (|p: GenericParamView| is_path_lifetime(p, path@)),
            unwrap == (|p: GenericParamView| p->Lifetime_0),
            out.deep_view() == params.take(i as int).filter(keep).map_values(unwrap),
        decreases generics.params.len() - i,
    {
        proof {
            let upto = params.take(i + 1);
            assert(upto.drop_last() =~= params.take(i as int));
            reveal(Seq::filter);
        }
        match &generics.params[i] {
            GenericParam::Lifetime(l) => {
                if path.has_lifetime(l.lifetime.as_str()) {
                    out.push(l.clone());
                    proof {
                        let kept = params.take(i as int).filter(keep);
                        assert(kept.push(params[i as int]).map_values(unwrap) =~= kept.map_values(
                            unwrap,
                        ).push(l@));
                    }
                }
            },
            GenericParam::Other(_) => {},
        }
        i += 1;
    }
    proof {
        assert(params.take(generics.params.len() as int) =~= params);
    }
    out
}

impl ModTransformer {
    /// A transformer for `module` with the default policy.
    pub fn new(module: JNIBridgeModule) -> (r: Self)
        ensures
            r.module == module,
            r.policy == (Policy {
                missing_package: Severity::Error,
                missing_env_lifetime: Severity::Warning,
            }),
            r.diagnostics@.len() == 0,
            r.next_receiver == 0,
    {
        ModTransformer {
            module,
            policy: Policy::default(),
            diagnostics: Vec::new(),
            next_receiver: 0,
        }
    }

    /// A transformer for `module` that judges by `policy`.
    pub fn with_policy(module: JNIBridgeModule, policy: Policy) -> (r: Self)
        ensures
            r.module == module,
            r.policy == policy,
            r.diagnostics@.len() == 0,
            r.next_receiver == 0,
    {
        ModTransformer { module, policy, diagnostics: Vec::new(), next_receiver: 0 }
    }

    /// What the rewriting is given besides the module.
    pub open spec fn context(&self) -> FoldContext {
        FoldContext { packages: self.module.package_map@, policy: self.policy }
    }

    /// Whether this transformer went from `before` through a step that
    /// yielded `step`: the diagnostics of the step were added, the counter
    /// moved on, and nothing else changed.
    pub open spec fn advanced<T>(&self, before: &ModTransformer, step: Folded<T>) -> bool {
        &&& self.module == before.module
        &&& self.policy == before.policy
        &&& self.diagnostics.deep_view() == before.diagnostics.deep_view() + step.diagnostics
        &&& self.next_receiver == step.next
    }

    /// Hands out the number for the next receiver name, if one is left.
    fn take_receiver_id(&mut self) -> (r: Option<u64>)
        ensures
            r == receiver_id(old(self).next_receiver),
            final(self).next_receiver == after_receiver_id(old(self).next_receiver),
            final(self).module == old(self).module,
            final(self).policy == old(self).policy,
            final(self).diagnostics == old(self).diagnostics,
    {
        if self.next_receiver < u64::MAX {
            let id = self.next_receiver;
            self.next_receiver = id + 1;
            Some(id)
        } else {
            None
        }
    }

    /// Generates the functions for the exported methods among `items`.
    fn export_items(
        &mut self,
        exporter: &ExportedMethodTransformer,
        items: &Vec<ImplItem>,
    ) -> (r: Vec<ExportedFn>)
        ensures
            r.deep_view() == exported_items(
                exporter@,
                items.deep_view(),
                old(self).next_receiver,
            ).value,
            final(self).advanced(
                old(self),
                exported_items(exporter@, items.deep_view(), old(self).next_receiver),
            ),
    {
        let ghost start = self.next_receiver;
        let ghost reported = self.diagnostics.deep_view();
        let mut generated: Vec<ExportedFn> = Vec::new();
        let mut i: usize = 0;
        while i < items.len()
            invariant
                i <= items.len(),
                self.module == old(self).module,
                self.policy == old(self).policy,
                start == old(self).next_receiver,
                reported == old(self).diagnostics.deep_view(),
                generated.deep_view() == exported_items(
                    exporter@,
                    items.deep_view().take(i as int),
                    start,
                ).value,
                self.diagnostics.deep_view() == reported + exported_items(
                    exporter@,
                    items.deep_view().take(i as int),
                    start,
                ).diagnostics,
                self.next_receiver == exported_items(
                    exporter@,
                    items.deep_view().take(i as int),
                    start,
                ).next,
            decreases items.len() - i,
        {
            proof {
                let upto = items.deep_view().take(i + 1);
                assert(upto.drop_last() =~= items.deep_view().take(i as int));
            }
            match &items[i] {
                ImplItem::Method(method) => {
                    let class = crate::classify::classify(&method.sig);
                    match class {
                        ImplItemType::Exported => {
                            let id = self.take_receiver_id();
                            let outcome = exporter.export(method, id);
                            match outcome.function {
                                Some(f) => {
                                    generated.push(f);
                                },
                                None => {},
                            }
                            append_diagnostics(&mut self.diagnostics, outcome.diagnostics);
                        },
                        _ => {},
                    }
                },
                ImplItem::Other(_) => {},
            }
            i += 1;
        }
        proof {
            assert(items.deep_view().take(items.len() as int) =~= items.deep_view());
        }
        generated
    }

    /// Rewrites an `impl` block: the block stays, with its methods cleaned,
    /// and the functions for its exported methods follow it.
    pub fn transform_item_impl(&mut self, node: &ItemImpl) -> (r: Expansion)
        ensures
            r@ == transformed_impl(old(self).context(), node@, old(self).next_receiver).value,
            final(self).advanced(
                old(self),
                transformed_impl(old(self).context(), node@, old(self).next_receiver),
            ),
    {
        let ghost reported = self.diagnostics.deep_view();
        let path = match &node.self_ty {
            Type::Path(p) => Some(p),
            Type::Qualified { path, .. } => Some(path),
            _ => None,
        };
        let path = match path {
            Some(path) => path,
            None => {
                return Expansion { preserved: node.clone(), generated: Vec::new() };
            },
        };
        let canonical = path.canonical();
        let struct_name = canonical.name();
        let package = match self.module.package_map.get(&canonical) {
            Some(package) => package,
            None => {
                self.diagnostics.push(
                    Diagnostic::on_type(
                        self.policy.missing_package,
                        DiagnosticKind::MissingPackage,
                        struct_name,
                    ),
                );
                assert(self.diagnostics.deep_view() =~= reported + seq![
                    missing_package(old(self).context(), path@),
                ]);
                return Expansion { preserved: node.clone(), generated: Vec::new() };
            },
        };
        let mut visitor = ImplExportVisitor::default();
        visitor.visit_item_impl(node);
        assert(visitor.items@.skip(0) =~= visitor.items@);
        let cleaner = ImplCleaner;
        let mut preserved: Vec<ImplItem> = Vec::new();
        let mut i: usize = 0;
        while i < visitor.items.len()
            invariant
                i <= visitor.items.len(),
                preserved.len() == i,
                crate::classify::classified(visitor.items@, node.items@),
                forall|j: int| 0 <= j < i ==> preserved@[j]@ == preserved_item(node.items@[j]@),
            decreases visitor.items.len() - i,
        {
            let (item, class) = visitor.items[i];
            let kept = match class {
                ImplItemType::Exported => cleaner.unmark_item(
                    cleaner.fold_impl_item(item.clone()),
                ),
                ImplItemType::Imported => cleaner.fold_impl_item(item.clone()),
                ImplItemType::Unexported => item.clone(),
            };
            preserved.push(kept);
            i += 1;
        }
        let exporter = ExportedMethodTransformer {
            struct_type: path.clone(),
            struct_name,
            struct_lifetimes: lifetimes_of_path(&node.generics, path),
            package,
            missing_env_lifetime: self.policy.missing_env_lifetime,
        };
        let generated = self.export_items(&exporter, &node.items);
        let attrs = node.attrs.clone();
        Expansion {
            preserved: ItemImpl {
                attrs,
                defaultness: node.defaultness,
                unsafety: node.unsafety,
                generics: node.generics.clone(),
                trait_path: clone_opt_string(&node.trait_path),
                self_ty: node.self_ty.clone(),
                items: preserved,
            },
            generated,
        }
    }

    /// Rewrites a struct declaration: its `package` attributes are dropped.
    pub fn fold_item_struct(&mut self, node: &ItemStruct) -> (r: ItemStruct)
        ensures
            r@ == folded_struct(node@),
            *final(self) == *old(self),
    {
        ItemStruct {
            attrs: without_package(&node.attrs),
            vis: node.vis.clone(),
            ident: node.ident.clone(),
            generics: node.generics.clone(),
            fields: node.fields.clone(),
            semi: node.semi,
        }
    }

    /// Rewrites one item.
    pub fn fold_item(&mut self, node: &Item) -> (r: Item)
        ensures
            r@ == folded_item(old(self).context(), node@, old(self).next_receiver).value,
            final(self).advanced(
                old(self),
                folded_item(old(self).context(), node@, old(self).next_receiver),
            ),
        decreases node,
    {
        match node {
            Item::Impl(i) => Item::Expanded(self.transform_item_impl(i)),
            Item::Mod(m) => {
                let folded = self.fold_item_mod(m);
                proof {
                    lemma_item_mod_view(folded);
                }
                Item::Mod(folded)
            },
            Item::Struct(s) => {
                Item::Struct(self.fold_item_struct(s))
            },
            _ => {
                node.clone()
            },
        }
    }

    /// Rewrites a module: two attributes that silence lints are added, and
    /// every item is rewritten.
    #[verifier::loop_isolation(false)]
    pub fn fold_item_mod(&mut self, node: &ItemMod) -> (r: ItemMod)
        ensures
            r@ == folded_mod(old(self).context(), node@, old(self).next_receiver).value,
            final(self).advanced(
                old(self),
                folded_mod(old(self).context(), node@, old(self).next_receiver),
            ),
        decreases node,
    {
        let ghost reported = self.diagnostics.deep_view();
        let ghost start = self.next_receiver;
        let ghost c = self.context();
        proof {
            lemma_mod_view(*node);
        }
        let attrs = extended_attributes(&node.attrs);
        let content = match &node.content {
            Some(items) => {
                let mut out: Vec<Item> = Vec::new();
                let mut i: usize = 0;
                while i < items.len()
                    invariant
                        i <= items.len(),
                        self.module == old(self).module,
                        self.policy == old(self).policy,
                        out.deep_view() == folded_items(
                            c,
                            items.deep_view().take(i as int),
                            start,
                        ).value,
                        self.diagnostics.deep_view() == reported + folded_items(
                            c,
                            items.deep_view().take(i as int),
                            start,
                        ).diagnostics,
                        self.next_receiver == folded_items(
                            c,
                            items.deep_view().take(i as int),
                            start,
                        ).next,
                    decreases items.len() - i,
                {
                    proof {
                        let upto = items.deep_view().take(i + 1);
                        assert(upto.drop_last() =~= items.deep_view().take(i as int));
                    }
                    let folded = self.fold_item(&items[i]);
                    out.push(folded);
                    i += 1;
                }
                proof {
                    assert(items.deep_view().take(items.len() as int) =~= items.deep_view());
                }
                Some(out)
            },
            None => None,
        };
        let r = ItemMod {
            attrs,
            vis: node.vis.clone(),
            ident: node.ident.clone(),
            content,
            semi: node.semi,
        };
        proof {
            lemma_mod_view(r);
        }
        r
    }

    /// Rewrites the module that this transformer was made for.
    pub fn transform_module(&mut self) -> (r: ItemMod)
        ensures
            r@ == folded_mod(
                old(self).context(),
                old(self).module.module_decl@,
                old(self).next_receiver,
            ).value,
            final(self).advanced(
                old(self),
                folded_mod(
                    old(self).context(),
                    old(self).module.module_decl@,
                    old(self).next_receiver,
                ),
            ),
    {
        let module_decl = self.module.module_decl.clone();
        self.fold_item_mod(&module_decl)
    }
}

} // verus!
