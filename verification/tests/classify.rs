use robusta_codegen::call_type::CallType;
use robusta_codegen::classify::classify;
use robusta_codegen::classify::get_abi;
use robusta_codegen::classify::surviving_attributes;
use robusta_codegen::classify::AttributeFilter;
use robusta_codegen::classify::ImplCleaner;
use robusta_codegen::classify::ImplExportVisitor;
use robusta_codegen::classify::ImplItemType;
use robusta_codegen::syntax::function::Abi;
use robusta_codegen::syntax::function::Attribute;
use robusta_codegen::syntax::function::Generics;
use robusta_codegen::syntax::function::ImplItem;
use robusta_codegen::syntax::function::ImplItemMethod;
use robusta_codegen::syntax::function::ReturnType;
use robusta_codegen::syntax::function::Signature;
use robusta_codegen::syntax::function::Visibility;
use robusta_codegen::syntax::item::ItemImpl;
use robusta_codegen::syntax::path::Path;
use robusta_codegen::syntax::path::PathArguments;
use robusta_codegen::syntax::path::PathSegment;
use robusta_codegen::syntax::ty::Type;

fn path(idents: &[&str]) -> Path {
    Path {
        leading_colon: false,
        segments: idents
            .iter()
            .map(|i| PathSegment { ident: i.to_string(), arguments: PathArguments::Empty })
            .collect(),
    }
}

fn attribute(idents: &[&str], tokens: &str) -> Attribute {
    Attribute { inner: false, path: path(idents), tokens: tokens.to_string() }
}

fn signature(name: &str, marker: Option<&str>) -> Signature {
    Signature {
        constness: false,
        asyncness: false,
        unsafety: false,
        abi: marker.map(|m| Abi { name: Some(m.to_string()) }),
        ident: name.to_string(),
        generics: Generics { params: vec![], where_clause: None },
        inputs: vec![],
        variadic: false,
        output: ReturnType::Omitted,
    }
}

fn method(name: &str, vis: Visibility, marker: Option<&str>, attrs: Vec<Attribute>) -> ImplItemMethod {
    ImplItemMethod {
        attrs,
        vis,
        defaultness: false,
        sig: signature(name, marker),
        block: "{ }".to_string(),
        call_type: Some(CallType::Unchecked),
    }
}

#[test]
fn marker_jni_is_exported() {
    assert_eq!(classify(&signature("f", Some("jni"))), ImplItemType::Exported);
}

#[test]
fn marker_java_is_imported() {
    assert_eq!(classify(&signature("f", Some("java"))), ImplItemType::Imported);
}

#[test]
fn an_unknown_marker_is_unexported() {
    assert_eq!(classify(&signature("f", Some("C"))), ImplItemType::Unexported);
    assert_eq!(classify(&signature("f", Some("system"))), ImplItemType::Unexported);
    assert_eq!(classify(&signature("f", Some("JNI"))), ImplItemType::Unexported);
    assert_eq!(classify(&signature("f", Some(""))), ImplItemType::Unexported);
}

#[test]
fn no_marker_is_unexported() {
    assert_eq!(classify(&signature("f", None)), ImplItemType::Unexported);
}

#[test]
fn a_marker_without_name_is_unexported() {
    let mut sig = signature("f", None);
    sig.abi = Some(Abi { name: None });
    assert_eq!(get_abi(&sig), None);
    assert_eq!(classify(&sig), ImplItemType::Unexported);
}

#[test]
fn get_abi_reads_the_name_of_the_marker() {
    assert_eq!(get_abi(&signature("f", Some("jni"))), Some(&"jni".to_string()));
    assert_eq!(get_abi(&signature("f", None)), None);
}

#[test]
fn the_visitor_keeps_the_order_of_the_items() {
    let items = vec![
        ImplItem::Method(method("a", Visibility::Public, Some("jni"), vec![])),
        ImplItem::Other("const X: u8 = 1;".to_string()),
        ImplItem::Method(method("b", Visibility::Public, Some("java"), vec![])),
        ImplItem::Method(method("c", Visibility::Inherited, None, vec![])),
        ImplItem::Method(method("d", Visibility::Inherited, Some("jni"), vec![])),
    ];
    let node = ItemImpl {
        attrs: vec![],
        defaultness: false,
        unsafety: false,
        generics: Generics { params: vec![], where_clause: None },
        trait_path: None,
        self_ty: Type::Path(path(&["Foo"])),
        items,
    };
    let mut visitor = ImplExportVisitor::default();
    assert!(visitor.items.is_empty());
    visitor.visit_item_impl(&node);
    let classes: Vec<ImplItemType> = visitor.items.iter().map(|(_, c)| *c).collect();
    assert_eq!(
        classes,
        vec![
            ImplItemType::Exported,
            ImplItemType::Unexported,
            ImplItemType::Imported,
            ImplItemType::Unexported,
            ImplItemType::Exported,
        ]
    );
    for (i, (item, _)) in visitor.items.iter().enumerate() {
        assert_eq!(*item, &node.items[i]);
    }
}

#[test]
fn the_visitor_adds_to_what_it_holds() {
    let first = ImplItem::Method(method("a", Visibility::Public, Some("jni"), vec![]));
    let second = ImplItem::Other("type T = u8;".to_string());
    let mut visitor = ImplExportVisitor::default();
    visitor.visit_impl_item(&first);
    visitor.visit_impl_item(&second);
    assert_eq!(visitor.items.len(), 2);
    assert_eq!(visitor.items[0], (&first, ImplItemType::Exported));
    assert_eq!(visitor.items[1], (&second, ImplItemType::Unexported));
}

#[test]
fn cleaning_drops_call_type_and_keeps_other_plain_attributes() {
    let attrs = vec![
        attribute(&["doc"], "= \"text\""),
        attribute(&["call_type"], "(unchecked)"),
        attribute(&["inline"], ""),
    ];
    let m = method("bar", Visibility::Public, Some("jni"), attrs);
    let cleaned = ImplCleaner.fold_impl_item_method(m);
    assert_eq!(cleaned.attrs, vec![attribute(&["doc"], "= \"text\""), attribute(&["inline"], "")]);
    assert_eq!(cleaned.call_type, None);
    assert_eq!(cleaned.sig, signature("bar", Some("jni")));
    assert_eq!(cleaned.vis, Visibility::Public);
    assert_eq!(cleaned.block, "{ }");
}

#[test]
fn cleaning_drops_attributes_whose_path_is_no_identifier() {
    let mut qualified = attribute(&["doc"], "");
    qualified.path.leading_colon = true;
    let mut with_arguments = attribute(&["doc"], "");
    with_arguments.path.segments[0].arguments = PathArguments::Parenthesized("()".to_string());
    let attrs = vec![
        attribute(&["rustfmt", "skip"], ""),
        qualified,
        with_arguments,
        attribute(&["must_use"], ""),
    ];
    assert_eq!(surviving_attributes(&attrs), vec![attribute(&["must_use"], "")]);
}

#[test]
fn cleaning_leaves_methods_that_are_not_public_or_not_marked_jni() {
    let attrs = vec![attribute(&["call_type"], "(safe)")];
    for (vis, marker) in [
        (Visibility::Inherited, Some("jni")),
        (Visibility::Crate, Some("jni")),
        (Visibility::Restricted("super".to_string()), Some("jni")),
        (Visibility::Public, Some("java")),
        (Visibility::Public, None),
        (Visibility::Public, Some("C")),
    ] {
        let m = method("bar", vis.clone(), marker, attrs.clone());
        assert_eq!(ImplCleaner.fold_impl_item_method(m.clone()), m);
        assert_eq!(ImplCleaner.unmark_method(m.clone()), m);
    }
}

#[test]
fn cleaning_leaves_items_that_are_no_methods() {
    let item = ImplItem::Other("const X: u8 = 1;".to_string());
    assert_eq!(ImplCleaner.fold_impl_item(item.clone()), item);
    assert_eq!(ImplCleaner.unmark_item(item.clone()), item);
}

#[test]
fn a_cleaned_method_is_classified_as_before() {
    for marker in [Some("jni"), Some("java"), Some("C"), None] {
        for vis in [Visibility::Public, Visibility::Inherited] {
            let m = method("bar", vis, marker, vec![attribute(&["call_type"], "(safe)")]);
            let before = classify(&m.sig);
            let cleaned = ImplCleaner.fold_impl_item_method(m);
            assert_eq!(classify(&cleaned.sig), before);
        }
    }
}

#[test]
fn cleaning_twice_is_cleaning_once() {
    let attrs = vec![
        attribute(&["call_type"], "(safe)"),
        attribute(&["a", "b"], ""),
        attribute(&["doc"], ""),
    ];
    let m = method("bar", Visibility::Public, Some("jni"), attrs);
    let once = ImplCleaner.fold_impl_item_method(m);
    let twice = ImplCleaner.fold_impl_item_method(once.clone());
    assert_eq!(twice, once);
}

#[test]
fn unmarking_removes_the_marker_of_a_public_exported_method() {
    let m = method("bar", Visibility::Public, Some("jni"), vec![attribute(&["doc"], "")]);
    let plain = ImplCleaner.unmark_method(m.clone());
    assert_eq!(plain.sig, signature("bar", None));
    assert_eq!(plain.attrs, m.attrs);
    assert_eq!(plain.call_type, m.call_type);
    assert_eq!(classify(&plain.sig), ImplItemType::Unexported);
}

#[test]
fn the_filter_collects_listed_attributes_in_order() {
    let listed = attribute(&["doc"], "= \"a\"");
    let unlisted = attribute(&["inline"], "");
    let qualified = attribute(&["serde", "rename"], "");
    let again = attribute(&["doc"], "= \"b\"");
    let mut filter = AttributeFilter::with_whitelist(vec![path(&["doc"]), path(&["serde", "rename"])]);
    assert!(filter.filtered_attributes.is_empty());
    filter.visit_attribute(&listed);
    filter.visit_attribute(&unlisted);
    filter.visit_attribute(&qualified);
    filter.visit_attribute(&again);
    assert_eq!(filter.filtered_attributes, vec![&listed, &qualified, &again]);
    assert_eq!(filter.whitelist, vec![path(&["doc"]), path(&["serde", "rename"])]);
}

#[test]
fn the_filter_compares_whole_paths() {
    let filter = AttributeFilter::with_whitelist(vec![path(&["a", "b"])]);
    assert!(filter.allows(&path(&["a", "b"])));
    assert!(!filter.allows(&path(&["a"])));
    assert!(!filter.allows(&path(&["b"])));
    assert!(!filter.allows(&path(&["a", "b", "c"])));
    let mut rooted = path(&["a", "b"]);
    rooted.leading_colon = true;
    assert!(!filter.allows(&rooted));
}

#[test]
fn an_empty_list_allows_nothing() {
    let filter = AttributeFilter::with_whitelist(vec![]);
    assert!(!filter.allows(&path(&["doc"])));
}
