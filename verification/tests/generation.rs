use ferrosaur::call::{FunctionLength, FunctionSource, ThisSlot};
use ferrosaur::derive::{
    check_fn, check_outer_visibility, check_type, collect_items, derive_items, trait_where_predicates, DeriveKind, FnItem,
    ItemResult, TypeItem,
};
use ferrosaur::diagnostic::{all_at, Caveat, Diagnostic};
use ferrosaur::generics::{GenericParam, Generics, MergeGenerics, ParamKind};
use ferrosaur::imports::{use_deno, use_prelude, NewtypeMeta};
use ferrosaur::items::{JsItem, JsProperty};
use ferrosaur::iterator::{iter_next, iterator_plan, next_error_contexts, next_item, next_yields, to_v8_bound, NextReply};
use ferrosaur::meta::{FastString, ImportMetaUrl, MetaError, MetaLit, ModuleOptions, NestedMeta, OptionItem, StringLike, Unary};
use ferrosaur::flag::FlagLike;
use ferrosaur::module::{check_unit_struct, struct_module_name, url_error_context, ItemShape, Module, SourceEmbed, StructItem};
use ferrosaur::naming::{ident_mod_name, inner_mod_name, pub_in_super, TokenNode, Visibility};
use ferrosaur::property::PropertyKey;
use ferrosaur::sig::OuterTypeKind;

fn ident(s: &str) -> TokenNode {
    TokenNode::Ident(s.to_string())
}

#[test]
fn hidden_module_names() {
    assert_eq!(ident_mod_name("module", "MainModule"), "__bindgen_module_main_module");
    assert_eq!(struct_module_name(StructItem::GlobalThis, "Global"), "__bindgen_global_this_global");
    assert_eq!(struct_module_name(StructItem::Value, "JsValue"), "__bindgen_value_js_value");
    // `impl<T> Iterable<T> for Foo` style tokens: identifiers, groups looked into
    let tokens = vec![
        ident("Foo"),
        TokenNode::Other,
        TokenNode::Group(vec![ident("BarBaz"), TokenNode::Other, TokenNode::Group(vec![ident("qux")])]),
    ];
    assert_eq!(inner_mod_name("interface", &tokens), "__bindgen_interface_foo_bar_baz_qux");
    assert_eq!(inner_mod_name("x", &vec![]), "__bindgen_x_");
}

#[test]
fn visibility_one_module_further_in() {
    assert!(matches!(pub_in_super(Visibility::Public), Visibility::Public));
    match pub_in_super(Visibility::Inherited) {
        Visibility::Restricted { has_in, path } => {
            assert!(!has_in);
            assert_eq!(path, vec!["super"]);
        }
        _ => panic!("expected pub(super)"),
    }
    match pub_in_super(Visibility::Restricted { has_in: false, path: vec!["super".into()] }) {
        Visibility::Restricted { has_in, path } => {
            assert!(has_in);
            assert_eq!(path, vec!["super", "super"]);
        }
        _ => panic!("expected pub(in super::super)"),
    }
    match pub_in_super(Visibility::Restricted { has_in: false, path: vec!["crate".into()] }) {
        Visibility::Restricted { has_in, path } => {
            assert!(!has_in);
            assert_eq!(path, vec!["crate"]);
        }
        _ => panic!("expected pub(crate)"),
    }
}

#[test]
fn module_plans() {
    let m = Module { import: Unary("lib.js".to_string()), url: ImportMetaUrl::Preserve, side_module: false, fast: None };
    let p = m.plan("Main");
    assert_eq!(p.inner_mod, "__bindgen_module_main");
    assert_eq!(p.import, "lib.js");
    assert!(p.embed == SourceEmbed::IncludeStr);
    assert!(!p.fast_source);
    assert_eq!(p.load_from_code, "load_main_es_module_from_code");
    assert_eq!(p.load_from_loader, "load_main_es_module");
    assert!(matches!(p.url, ImportMetaUrl::Preserve));

    let m = Module { import: Unary("a.js".to_string()), url: ImportMetaUrl::Cwd, side_module: true, fast: Some(FastString::Fast) };
    let p = m.plan("Side");
    assert!(p.embed == SourceEmbed::AsciiInclude);
    assert!(p.fast_source);
    assert_eq!(p.load_from_code, "load_side_es_module_from_code");
    assert_eq!(p.load_from_loader, "load_side_es_module");
    assert!(matches!(p.url, ImportMetaUrl::Cwd));

    let m = Module { import: Unary("b.js".to_string()), url: ImportMetaUrl::Url("https://x/b.js".into()), side_module: false, fast: Some(FastString::FastUnsafeDebug) };
    let p = m.plan("B");
    assert!(p.embed == SourceEmbed::UnsafeFastString);
    assert!(matches!(p.url, ImportMetaUrl::Url(ref u) if u == "https://x/b.js"));
    assert_eq!(url_error_context(), "failed to build module url");
}

fn outer() -> Generics {
    Generics {
        params: vec![
            GenericParam::Type { ident: "T".into(), text: "T: Clone".into() },
            GenericParam::Lifetime { ident: "a".into(), text: "'a".into() },
            GenericParam::Const { ident: "N".into(), text: "const N: usize".into() },
            GenericParam::Type { ident: "Item".into(), text: "Item".into() },
        ],
        where_clause: Some(vec!["T: Send".into()]),
    }
}

fn texts(v: &[(ParamKind, String)]) -> Vec<&str> {
    v.iter().map(|(_, s)| s.as_str()).collect()
}

#[test]
fn merged_generics() {
    let g = outer();
    let m = MergeGenerics { outer: &g, lifetimes: vec!["'_iter".into()], types: vec!["_Inner".into()], bounds: vec!["_Inner: Foo".into()] };
    let params = m.params();
    assert_eq!(texts(&params), vec!["'_iter", "'a", "_Inner", "T: Clone", "Item", "const N: usize"]);
    let kinds: Vec<ParamKind> = params.iter().map(|(k, _)| *k).collect();
    assert!(kinds == vec![ParamKind::Lifetime, ParamKind::Lifetime, ParamKind::Type, ParamKind::Type, ParamKind::Type, ParamKind::Const]);
    let args = m.arguments();
    assert_eq!(texts(&args), vec!["'_iter", "'a", "_Inner", "T", "Item", "N"]);
    assert!(args.iter().map(|(k, _)| *k).collect::<Vec<_>>() == kinds);
    assert_eq!(m.bounds(), vec!["_Inner: Foo", "T: Send"]);
}

#[test]
fn phantom_fields_of_outer_parameters() {
    let g = outer();
    let m = MergeGenerics { outer: &g, lifetimes: vec![], types: vec![], bounds: vec![] };
    let fields = m.phantom_fields();
    let view: Vec<(&str, &str)> = fields.iter().map(|f| (f.name.as_str(), f.param.as_str())).collect();
    assert_eq!(view, vec![("_type_t", "T"), ("_lifetime_a", "'a"), ("_type_item", "Item")]);
    assert!(fields[1].kind == ParamKind::Lifetime);
    assert_eq!(m.phantom_init(), vec!["_type_t", "_lifetime_a", "_type_item"]);
    let none = Generics { params: vec![], where_clause: None };
    let m = MergeGenerics { outer: &none, lifetimes: vec![], types: vec![], bounds: vec![] };
    assert!(m.phantom_fields().is_empty());
    assert!(m.bounds().is_empty());
}

#[test]
fn iterator_plans() {
    let g = outer();
    let p = iterator_plan(OuterTypeKind::Impl, "Numbers", &g);
    assert!(matches!(p.next.source, FunctionSource::Prop(PropertyKey::String(ref s)) if s == "next"));
    assert!(p.next.this == ThisSlot::Object);
    assert!(!p.next.ctor);
    assert!(p.next.length == FunctionLength::Fixed(0));
    assert!(matches!(p.done_key, PropertyKey::String(ref s) if s == "done"));
    assert!(matches!(p.value_key, PropertyKey::String(ref s) if s == "value"));
    assert!(p.public && p.capturing);
    assert_eq!(p.inner_type, "Numbers");
    assert_eq!(p.lifetimes, vec!["'_iter"]);
    assert!(p.types.is_empty() && p.bounds.is_empty());

    let p = iterator_plan(OuterTypeKind::Trait, "Numbers", &g);
    assert!(!p.public && !p.capturing);
    assert_eq!(p.inner_type, "_Inner");
    assert_eq!(p.types, vec!["_Inner"]);
    assert_eq!(p.bounds, vec!["for<'_v8> &'_v8 _Inner: ToV8<'_v8>", "_Inner: Numbers<'a, T, Item, N>"]);

    assert_eq!(to_v8_bound("Foo"), "for<'_v8> &'_v8 Foo: ToV8<'_v8>");
    assert!(next_yields(false, true));
    assert!(next_yields(true, false));
    assert!(!next_yields(true, true));
    let (a, b, c) = next_error_contexts();
    assert_eq!(a, "failed to call `next` on iterator");
    assert_eq!(b, "failed to get `done` from iterator result");
    assert_eq!(c, "failed to get `value` from iterator result");
}

#[test]
fn imported_names() {
    let p = use_prelude.paths();
    assert_eq!(p.len(), 13);
    assert_eq!(p[0], "::core::convert::AsRef");
    assert_eq!(p[12], "_alloc::vec::Vec");
    let d = use_deno.paths();
    assert_eq!(d.len(), 11);
    assert!(d.contains(&"deno_core::JsRuntime"));
    assert!(d.contains(&"deno_core::anyhow::Context"));
}

#[test]
fn option_wrappers_hand_on_their_value() {
    assert_eq!(FlagLike(3u8).into_inner(), 3);
    assert_eq!(Unary("a").into_inner(), "a");
    assert_eq!(StringLike(5i32).into_inner(), 5);
    assert_eq!(Some(Unary(1u8)).into_inner(), Some(1));
    assert_eq!(None::<Unary<u8>>.into_inner(), None);
}

#[test]
fn derive_item_checks() {
    let f = FnItem { ident: "invoke".into(), attr_heads: vec!["js".into(), "doc".into()], defaultness: true, body_statements: Some(1) };
    let e = check_fn(DeriveKind::Function, &f);
    assert_eq!(
        e.iter().map(|d| d.message.as_str()).collect::<Vec<_>>(),
        vec![
            "macro ignores fn body\nchange this to {}",
            "fn cannot be `default` here",
            "expected fn to be named `call`",
            "a #[js(...)] is not required here",
        ]
    );
    let ok = FnItem { ident: "call".into(), attr_heads: vec![], defaultness: false, body_statements: Some(0) };
    assert!(check_fn(DeriveKind::Function, &ok).is_empty());
    assert!(check_fn(DeriveKind::Properties, &f).len() == 2);
    assert_eq!(check_fn(DeriveKind::Iterator, &ok)[0].message, "unexpected item\nmove this item to another impl block");

    let t = TypeItem {
        ident: "Item".into(),
        has_attrs: true,
        defaultness: false,
        has_generics: false,
        has_where_clause: true,
        has_visibility: true,
        has_bounds: false,
        has_default: true,
    };
    assert_eq!(
        check_type(DeriveKind::Iterator, &t, false).iter().map(|d| d.message.as_str()).collect::<Vec<_>>(),
        vec![
            "macro ignores attributes in this location",
            "macro ignores where clause in this location",
            "macro ignores visibility qualifiers in this location",
        ]
    );
    let t2 = TypeItem { has_attrs: false, has_where_clause: false, has_visibility: false, has_default: false, ..t };
    assert_eq!(check_type(DeriveKind::Iterator, &t2, true)[0].message, "a concrete type is required: `type Item = ...`");
    let named = TypeItem { ident: "Output".into(), has_attrs: false, defaultness: false, has_generics: false, has_where_clause: false, has_visibility: false, has_bounds: false, has_default: true };
    assert_eq!(check_type(DeriveKind::Iterator, &named, false)[0].message, "unexpected type name, expected `type Item`");
    assert_eq!(
        check_type(DeriveKind::Properties, &named, false)[0].message,
        "only fn items are supported\nfn should have an empty body\nmove this item to another impl block"
    );
}

#[test]
fn derive_counts_items() {
    let items: Vec<ItemResult<u8>> = vec![ItemResult::Fn(Ok(1)), ItemResult::Fn(Ok(2))];
    let e = collect_items(DeriveKind::Function, items).err().unwrap();
    assert_eq!(e.iter().map(|d| d.message.as_str()).collect::<Vec<_>>(), vec!["expected exactly one fn named `call`"]);

    let items: Vec<ItemResult<u8>> = vec![ItemResult::Fn(Ok(1))];
    let (fns, types) = collect_items(DeriveKind::Function, items).ok().unwrap();
    assert_eq!((fns, types), (vec![1], vec![]));

    let items: Vec<ItemResult<u8>> = vec![ItemResult::Type(Ok(9)), ItemResult::Other];
    let e = collect_items(DeriveKind::Iterator, items).err().unwrap();
    assert_eq!(e.iter().map(|d| d.message.as_str()).collect::<Vec<_>>(), vec!["unexpected item\nmove this item to another impl block"]);

    let items: Vec<ItemResult<u8>> = vec![];
    let e = collect_items(DeriveKind::Iterator, items).err().unwrap();
    assert_eq!(e[0].message, "expected exactly one `type Item = ...`");

    let items: Vec<ItemResult<u8>> = vec![ItemResult::Fn(Err(vec![Diagnostic::custom("a"), Diagnostic::custom("b")])), ItemResult::Fn(Ok(3))];
    let e = collect_items(DeriveKind::Properties, items).err().unwrap();
    assert_eq!(e.iter().map(|d| d.message.as_str()).collect::<Vec<_>>(), vec!["a", "b"]);

    assert!(DeriveKind::Properties.count_items(0, 5).is_ok());
}

#[test]
fn diagnostics_and_locations() {
    let d = Diagnostic::custom("boom").at("#[js(prop)]".into()).at("#[js(interface)]".into());
    assert_eq!(d.message, "boom");
    assert_eq!(d.location, vec!["#[js(interface)]", "#[js(prop)]"]);
    let all = all_at(vec![Diagnostic::custom("x"), Diagnostic::custom("y").at("inner".into())], "outer");
    assert_eq!(all[0].location, vec!["outer"]);
    assert_eq!(all[1].location, vec!["outer", "inner"]);
    assert_eq!(all[1].message, "y");

    let c = Caveat(5u8, vec![]);
    assert!(matches!(c.into_result(), Ok(5)));
    let c = Caveat(5u8, vec![Diagnostic::custom("e")]);
    assert!(matches!(c.into_result(), Err(ref v) if v.len() == 1));
    let mut errors = vec![Diagnostic::custom("first")];
    let v = Caveat(7u8, vec![Diagnostic::custom("second")]).and_recover(&mut errors);
    assert_eq!(v, 7);
    assert_eq!(errors.iter().map(|d| d.message.as_str()).collect::<Vec<_>>(), vec!["first", "second"]);
}

#[test]
fn derive_with_outer_checks() {
    let items: Vec<ItemResult<u8>> = vec![ItemResult::Fn(Ok(1))];
    let (fns, _) = derive_items(DeriveKind::Function, vec![], items).ok().unwrap();
    assert_eq!(fns, vec![1]);
    let items: Vec<ItemResult<u8>> = vec![ItemResult::Other];
    let e = derive_items(DeriveKind::Function, vec![Diagnostic::custom("cannot be a trait impl")], items).err().unwrap();
    assert_eq!(
        e.iter().map(|d| d.message.as_str()).collect::<Vec<_>>(),
        vec!["cannot be a trait impl", "expected exactly one fn named `call`", "expected exactly one fn named `call`"]
    );
    let items: Vec<ItemResult<u8>> = vec![ItemResult::Fn(Ok(1))];
    assert!(derive_items(DeriveKind::Function, vec![Diagnostic::custom("x")], items).is_err());

    assert_eq!(check_outer_visibility(true, true).err().unwrap().message, "unexpected visibility modifier");
    assert!(check_outer_visibility(true, false).is_ok());
    assert!(check_outer_visibility(false, true).is_ok());

    assert_eq!(trait_where_predicates(None), vec!["for<'_v8> &'_v8 Self: ToV8<'_v8>"]);
    assert_eq!(
        trait_where_predicates(Some(vec!["T: Clone".into()])),
        vec!["T: Clone", "for<'_v8> &'_v8 Self: ToV8<'_v8>"]
    );
}

#[test]
fn attribute_variants_by_name() {
    assert!(JsItem::from_name("global_this") == Some(JsItem::GlobalThis));
    assert!(JsItem::from_name("set") == Some(JsItem::Setter));
    assert!(JsItem::from_name("Module").is_none());
    assert!(JsProperty::from_name("new") == Some(JsProperty::New));
    assert!(JsProperty::from_name("module").is_none());
}

#[test]
fn attribute_names_read_back() {
    let all = [
        JsItem::Module,
        JsItem::GlobalThis,
        JsItem::Value,
        JsItem::Interface,
        JsItem::Function,
        JsItem::Iterator,
        JsItem::Prop,
        JsItem::Func,
        JsItem::New,
        JsItem::Get,
        JsItem::Setter,
    ];
    for v in all {
        assert!(JsItem::from_name(v.name()) == Some(v));
    }
    for v in [JsProperty::Prop, JsProperty::Func, JsProperty::New, JsProperty::Get, JsProperty::Setter] {
        assert!(JsProperty::from_name(v.name()) == Some(v));
    }
}

fn read(done: bool, undefined: bool, item: Result<u8, &'static str>) -> NextReply<u8, &'static str> {
    NextReply::Read { done, value_is_undefined: undefined, item }
}

#[test]
fn iterator_next_steps() {
    assert_eq!(next_item(read(false, false, Ok(1))), Ok(Some(1)));
    assert_eq!(next_item(read(false, true, Ok(2))), Ok(Some(2)));
    // a final value given with `done` is still yielded
    assert_eq!(next_item(read(true, false, Ok(3))), Ok(Some(3)));
    assert_eq!(next_item(read(true, true, Ok(4))), Ok(None));
    assert_eq!(next_item(read(true, true, Err("conversion"))), Ok(None));
    assert_eq!(next_item(read(false, false, Err("conversion"))), Err("conversion"));
    assert_eq!(next_item(NextReply::<u8, &str>::CallFailed("call")), Err("call"));
    assert_eq!(next_item(NextReply::<u8, &str>::DoneFailed("done")), Err("done"));
    assert_eq!(next_item(NextReply::<u8, &str>::ValueFailed("value")), Err("value"));
    assert_eq!(iter_next::<u8, &str>(Ok(None)), None);
    assert_eq!(iter_next::<u8, &str>(Ok(Some(5))), Some(Ok(5)));
    assert_eq!(iter_next::<u8, &str>(Err("e")), Some(Err("e")));
}

#[test]
fn iteration_stops_at_done() {
    let replies = vec![read(false, false, Ok(1)), NextReply::CallFailed("x"), read(true, true, Ok(0)), read(false, false, Ok(9))];
    let mut out = vec![];
    for r in replies {
        match iter_next(next_item(r)) {
            Some(x) => out.push(x),
            None => break,
        }
    }
    assert_eq!(out, vec![Ok(1), Err("x")]);
}

fn option(meta: NestedMeta, list: Vec<NestedMeta>) -> OptionItem {
    OptionItem { meta, list }
}

#[test]
fn module_options_read() {
    let o = ModuleOptions::from_list(&vec![]).ok().unwrap();
    assert!(matches!(o.url, ImportMetaUrl::Preserve));
    assert!(!o.side_module);
    assert!(o.fast.is_none());

    let o = ModuleOptions::from_list(&vec![
        option(NestedMeta::List("url".into()), vec![NestedMeta::Path("cwd".into())]),
        option(NestedMeta::Path("side_module".into()), vec![]),
        option(NestedMeta::Path("fast".into()), vec![]),
    ])
    .ok()
    .unwrap();
    assert!(matches!(o.url, ImportMetaUrl::Cwd));
    assert!(o.side_module);
    assert!(o.fast == Some(FastString::Fast));

    let o = ModuleOptions::from_list(&vec![option(
        NestedMeta::List("fast".into()),
        vec![NestedMeta::Path("unsafe_debug".into())],
    )])
    .ok()
    .unwrap();
    assert!(o.fast == Some(FastString::FastUnsafeDebug));

    let twice = vec![option(NestedMeta::Path("side_module".into()), vec![]), option(NestedMeta::Path("side_module".into()), vec![])];
    assert!(matches!(ModuleOptions::from_list(&twice), Err(MetaError::DuplicateField("side_module"))));
    let word = vec![option(NestedMeta::Path("url".into()), vec![])];
    assert!(matches!(ModuleOptions::from_list(&word), Err(MetaError::UnsupportedFormat("word"))));
    let lit = vec![option(NestedMeta::Lit(MetaLit::Str("a".into())), vec![])];
    assert!(matches!(ModuleOptions::from_list(&lit), Err(MetaError::UnsupportedFormat("literal"))));
    let empty_url = vec![option(NestedMeta::List("url".into()), vec![])];
    assert!(matches!(ModuleOptions::from_list(&empty_url), Err(MetaError::TooFewItems(1))));
    match ModuleOptions::from_list(&vec![option(NestedMeta::Path("side".into()), vec![])]) {
        Err(MetaError::UnknownField { name, alternatives }) => {
            assert_eq!(name, "side");
            assert_eq!(alternatives, vec!["url", "side_module", "fast"]);
        }
        _ => panic!("expected an unknown field"),
    }
}

#[test]
fn unit_struct_checks() {
    assert!(check_unit_struct(ItemShape::Unit, false, false).is_ok());
    let e = check_unit_struct(ItemShape::Named, true, false).err().unwrap();
    assert_eq!(
        e.iter().map(|d| d.message.as_str()).collect::<Vec<_>>(),
        vec!["Unsupported shape `named fields`. Expected no fields.", "must not have generics"]
    );
    let e = check_unit_struct(ItemShape::Enum, false, false).err().unwrap();
    assert_eq!(e[0].message, "Unsupported shape `enum`. Expected struct with no fields.");
    let e = check_unit_struct(ItemShape::Unit, false, true).err().unwrap();
    assert_eq!(e[0].message, "must not have a where clause");
}

#[test]
fn derived_items_keep_their_order() {
    let items: Vec<ItemResult<u8>> = vec![ItemResult::Fn(Ok(3)), ItemResult::Fn(Ok(1)), ItemResult::Fn(Ok(2))];
    let (fns, types) = collect_items(DeriveKind::Properties, items).ok().unwrap();
    assert_eq!(fns, vec![3, 1, 2]);
    assert!(types.is_empty());
}
