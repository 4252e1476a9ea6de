use ferrosaur::diagnostic::Diagnostic;
use ferrosaur::flag::{exactly_one, exactly_one_message, flag_location, test_name, FlagAttr, FlagLike};
use ferrosaur::items::{JsItem, JsProperty};
use ferrosaur::meta::{
    inner_type_from_list, inner_type_meta, not_a_key, symbol_from_path, FastString, ImportMetaUrl,
    MetaError, MetaLit, NestedMeta, Positional, StringLike, StringLikeInput, SymbolPath, Unary,
};
use ferrosaur::property::{property_key, resolve_name, PropertyKey};
use ferrosaur::well_known::WellKnown;

const ALL: [WellKnown; 11] = [
    WellKnown::AsyncIterator,
    WellKnown::HasInstance,
    WellKnown::IsConcatSpreadable,
    WellKnown::Iterator,
    WellKnown::Match,
    WellKnown::Replace,
    WellKnown::Search,
    WellKnown::Split,
    WellKnown::ToPrimitive,
    WellKnown::ToStringTag,
    WellKnown::Unscopables,
];

#[test]
fn well_known_names_and_accessors() {
    assert_eq!(WellKnown::AsyncIterator.name(), "asyncIterator");
    assert_eq!(WellKnown::IsConcatSpreadable.name(), "isConcatSpreadable");
    assert_eq!(WellKnown::ToStringTag.name(), "toStringTag");
    assert_eq!(WellKnown::Iterator.accessor(), "get_iterator");
    assert_eq!(WellKnown::IsConcatSpreadable.accessor(), "get_is_concat_spreadable");
    assert_eq!(WellKnown::ToPrimitive.accessor(), "get_to_primitive");
    assert_eq!(WellKnown::Iterator.description(), "[Symbol.iterator]");
    assert_eq!(WellKnown::Unscopables.description(), "[Symbol.unscopables]");
}

#[test]
fn well_known_name_round_trip() {
    for w in ALL {
        assert_eq!(WellKnown::from_name(w.name()), Some(w));
    }
    assert_eq!(WellKnown::from_name("iterator"), Some(WellKnown::Iterator));
    assert_eq!(WellKnown::from_name("Iterator"), None);
    assert_eq!(WellKnown::from_name(""), None);
    assert_eq!(WellKnown::from_name("get_iterator"), None);
}

#[test]
fn well_known_descriptions_are_distinct() {
    for a in ALL {
        for b in ALL {
            assert_eq!(a.description() == b.description(), a == b);
        }
    }
}

#[test]
fn property_key_defaults_to_lower_camel_case() {
    let k = property_key("get_value_of", None);
    assert!(matches!(k, PropertyKey::String(ref s) if s == "getValueOf"));
    let k = property_key("x", Some(PropertyKey::Symbol(WellKnown::Iterator)));
    assert!(matches!(k, PropertyKey::Symbol(WellKnown::Iterator)));
    let k = property_key("snake_case", Some(PropertyKey::from_str("snake_case")));
    assert!(matches!(k, PropertyKey::String(ref s) if s == "snake_case"));
}

#[test]
fn property_key_descriptions() {
    assert_eq!(PropertyKey::from_str("add").description(), "\"add\"");
    assert_eq!(PropertyKey::from_str("a\"b").description(), "\"a\\\"b\"");
    assert_eq!(PropertyKey::Symbol(WellKnown::AsyncIterator).description(), "[Symbol.asyncIterator]");
    assert!(PropertyKey::from_str("plain").is_ascii_string());
    assert!(!PropertyKey::from_str("café").is_ascii_string());
    assert!(!PropertyKey::Symbol(WellKnown::Match).is_ascii_string());
}

#[test]
fn resolve_name_prefers_name_then_symbol() {
    let r = resolve_name("my_func", None, None);
    assert!(matches!(r.0, PropertyKey::String(ref s) if s == "myFunc"));
    assert!(r.1.is_empty());

    let r = resolve_name("my_func", Some("other".to_string()), None);
    assert!(matches!(r.0, PropertyKey::String(ref s) if s == "other"));
    assert!(r.1.is_empty());

    let r = resolve_name("my_func", None, Some(WellKnown::Iterator));
    assert!(matches!(r.0, PropertyKey::Symbol(WellKnown::Iterator)));
    assert!(r.1.is_empty());
}

#[test]
fn resolve_name_refuses_name_and_symbol() {
    let r = resolve_name("f", Some("g".to_string()), Some(WellKnown::Split));
    assert!(matches!(r.0, PropertyKey::String(ref s) if s == "g"));
    assert_eq!(r.1.len(), 1);
    assert_eq!(r.1[0].message, "cannot specify both a name and a symbol");
    assert!(r.1[0].location.is_empty());
}

#[test]
fn js_item_names_and_locations() {
    assert_eq!(JsItem::GlobalThis.name(), "global_this");
    assert_eq!(JsItem::Setter.name(), "set");
    assert_eq!(JsItem::Module.location(), "#[js(module)]");
    assert_eq!(JsItem::Iterator.location(), "#[js(iterator)]");
    assert_eq!(JsProperty::Func.name(), "func");
    assert_eq!(JsProperty::Setter.location(), "#[js(set)]");
}

#[test]
fn js_item_members_refused_at_top_level() {
    for item in [JsItem::Module, JsItem::GlobalThis, JsItem::Value, JsItem::Interface, JsItem::Function, JsItem::Iterator] {
        assert!(matches!(item.as_item(), Ok(i) if i == item));
    }
    for item in [JsItem::Prop, JsItem::Func, JsItem::New, JsItem::Get, JsItem::Setter] {
        let e = item.as_item().err().unwrap();
        assert_eq!(e.message, "should be use within a #[js(interface)] impl or trait");
    }
}

#[test]
fn flag_messages() {
    assert_eq!(flag_location("js", "prop"), "#[js(prop)]");
    assert_eq!(
        exactly_one_message("js", &vec!["module", "global_this", "value", "interface"]),
        "expected exactly one of #[js(module)], #[js(global_this)], #[js(value)], #[js(interface)]"
    );
    assert_eq!(exactly_one_message("js", &vec![]), "expected exactly one of ");
    assert!(test_name("js", "js").is_ok());
    let e = test_name("js", "serde").err().unwrap();
    assert_eq!(e.message, "unexpected name `serde`, expected `js`");
}

fn attr(name: &str, tag: u32, parsed: Result<u32, &str>) -> FlagAttr<u32, u32> {
    FlagAttr { name: name.to_string(), attr: tag, parsed: parsed.map_err(Diagnostic::custom) }
}

#[test]
fn flag_collect_partitions_attributes() {
    let attrs = vec![
        attr("doc", 1, Ok(0)),
        attr("js", 2, Ok(20)),
        attr("js", 3, Err("bad flag")),
        attr("allow", 4, Ok(0)),
        attr("js", 5, Ok(50)),
    ];
    let r = FlagLike::<u32>::collect("js", attrs);
    assert_eq!(r.0 .0, vec![20, 50]);
    assert_eq!(r.0 .1, vec![1, 3, 4]);
    assert_eq!(r.1.len(), 1);
    assert_eq!(r.1[0].message, "bad flag");
    // every attribute is either taken or left
    assert_eq!(r.0 .0.len() + r.0 .1.len(), 5);
}

#[test]
fn flag_exactly_one() {
    let choices = vec!["prop", "func"];
    let r = exactly_one("js", &choices, vec![attr("doc", 1, Ok(0)), attr("js", 2, Ok(7))]);
    let (item, rest) = r.ok().unwrap();
    assert_eq!(item, 7);
    assert_eq!(rest, vec![1]);

    let r = exactly_one("js", &choices, vec![attr("js", 1, Ok(1)), attr("js", 2, Ok(2))]);
    let e = r.err().unwrap();
    assert_eq!(e.len(), 1);
    assert_eq!(e[0].message, "expected exactly one of #[js(prop)], #[js(func)]");

    let r = exactly_one("js", &choices, vec![attr("doc", 1, Ok(1))]);
    assert_eq!(r.err().unwrap()[0].message, "expected exactly one of #[js(prop)], #[js(func)]");

    let r = exactly_one("js", &choices, vec![attr("js", 1, Err("nope")), attr("js", 2, Ok(2))]);
    let e = r.err().unwrap();
    assert_eq!(e.len(), 1);
    assert_eq!(e[0].message, "nope");
}

#[test]
fn import_meta_url_options() {
    let r = ImportMetaUrl::from_list(&vec![NestedMeta::Path("cwd".into())]);
    assert!(matches!(r, Ok(ImportMetaUrl::Cwd)));
    let r = ImportMetaUrl::from_list(&vec![NestedMeta::Path("preserve".into())]);
    assert!(matches!(r, Ok(ImportMetaUrl::Preserve)));
    let r = ImportMetaUrl::from_list(&vec![NestedMeta::Lit(MetaLit::Str("https://x/a.js".into()))]);
    assert!(matches!(r, Ok(ImportMetaUrl::Url(ref u)) if u == "https://x/a.js"));
    assert!(matches!(ImportMetaUrl::from_list(&vec![]), Err(MetaError::TooFewItems(1))));
    let two = vec![NestedMeta::Path("cwd".into()), NestedMeta::Path("cwd".into())];
    assert!(matches!(ImportMetaUrl::from_list(&two), Err(MetaError::TooManyItems(1))));
    let r = ImportMetaUrl::from_list(&vec![NestedMeta::Lit(MetaLit::Char('x'))]);
    assert!(matches!(r, Err(MetaError::UnexpectedLitType)));
    match ImportMetaUrl::from_list(&vec![NestedMeta::Path("here".into())]) {
        Err(MetaError::UnknownField { name, alternatives }) => {
            assert_eq!(name, "here");
            assert_eq!(alternatives, vec!["preserve", "cwd", "a string literal"]);
        }
        _ => panic!("expected an unknown field"),
    }
}

#[test]
fn fast_string_options() {
    assert!(matches!(FastString::from_list(&vec![]), Ok(FastString::Fast)));
    let r = FastString::from_list(&vec![NestedMeta::Path("unsafe_debug".into())]);
    assert!(matches!(r, Ok(FastString::FastUnsafeDebug)));
    let r = FastString::from_list(&vec![NestedMeta::Lit(MetaLit::Str("unsafe_debug".into()))]);
    assert!(matches!(r, Ok(FastString::FastUnsafeDebug)));
    let r = FastString::from_list(&vec![NestedMeta::List("x".into())]);
    assert!(matches!(r, Err(MetaError::UnsupportedFormat("list"))));
    let r = FastString::from_list(&vec![NestedMeta::NameValue("x".into())]);
    assert!(matches!(r, Err(MetaError::UnsupportedFormat("name value"))));
    let r = FastString::from_list(&vec![NestedMeta::Lit(MetaLit::Int("1".into()))]);
    assert!(matches!(r, Err(MetaError::UnexpectedLitType)));
    let two = vec![NestedMeta::Path("a".into()), NestedMeta::Path("b".into())];
    assert!(matches!(FastString::from_list(&two), Err(MetaError::TooManyItems(1))));
    match FastString::from_list(&vec![NestedMeta::Path("safe".into())]) {
        Err(MetaError::UnknownField { name, alternatives }) => {
            assert_eq!(name, "safe");
            assert_eq!(alternatives, vec!["unsafe_debug"]);
        }
        _ => panic!("expected an unknown field"),
    }
}

#[test]
fn unary_requires_one_item() {
    assert!(Unary::<u8>::single(&vec![NestedMeta::Path("a".into())]).is_ok());
    assert!(matches!(Unary::<u8>::single(&vec![]), Err(MetaError::TooFewItems(1))));
    let two = vec![NestedMeta::Path("a".into()), NestedMeta::Path("b".into())];
    assert!(matches!(Unary::<u8>::single(&two), Err(MetaError::TooManyItems(1))));
}

#[test]
fn positional_combines_readings() {
    let ok = |x: u8| -> Result<u8, Diagnostic> { Ok(x) };
    let err = |m: &str| -> Result<u8, Diagnostic> { Err(Diagnostic::custom(m)) };
    // no item: the head and the rest read from nothing
    let p = Positional::combine(0, ok(1), ok(2), err("x"), err("y")).ok().unwrap();
    assert_eq!((p.head, p.rest), (1, 2));
    let e = Positional::combine(0, err("no head"), err("no rest"), ok(3), ok(4)).err().unwrap();
    assert_eq!(e.message, "no head");
    let e = Positional::combine(0, ok(1), err("no rest"), ok(3), ok(4)).err().unwrap();
    assert_eq!(e.message, "no rest");
    // items: the first is the head, the others the rest
    let p = Positional::combine(2, err("a"), err("b"), ok(3), ok(4)).ok().unwrap();
    assert_eq!((p.head, p.rest), (3, 4));
    // the head's error alone when both fail (`module(url(cwd))`)
    let e = Positional::combine(1, ok(1), ok(2), err("head"), err("rest")).err().unwrap();
    assert_eq!(e.message, "head");
    let e = Positional::combine(2, ok(1), ok(2), ok(3), err("rest")).err().unwrap();
    assert_eq!(e.message, "rest");
}

#[test]
fn string_like_inputs() {
    let r = StringLike::<String>::from_path(&vec![("foo".to_string(), false)]);
    assert_eq!(r.ok().unwrap(), "foo");
    let e = StringLike::<String>::from_path(&vec![("a".to_string(), false), ("b".to_string(), false)]);
    assert_eq!(e.err().unwrap().message, "expected an identifier, a string, or a number");
    let e = StringLike::<String>::from_path(&vec![("a".to_string(), true)]);
    assert!(e.is_err());
    assert!(matches!(StringLike::<String>::from_value(&MetaLit::Str("s".into())), StringLikeInput::Text(ref t) if t == "s"));
    assert!(matches!(StringLike::<String>::from_value(&MetaLit::Int("42".into())), StringLikeInput::Text(ref t) if t == "42"));
    assert!(matches!(StringLike::<String>::from_value(&MetaLit::Float("1.5".into())), StringLikeInput::Text(ref t) if t == "1.5"));
    assert!(matches!(StringLike::<String>::from_value(&MetaLit::Char('c')), StringLikeInput::Char('c')));
    assert!(matches!(StringLike::<String>::from_value(&MetaLit::Other), StringLikeInput::Unexpected));
}

#[test]
fn symbol_paths() {
    let seg = |s: &str| (s.to_string(), false);
    assert!(matches!(symbol_from_path(&vec![seg("Symbol"), seg("iterator")]), SymbolPath::Key(WellKnown::Iterator)));
    assert!(matches!(symbol_from_path(&vec![seg("Symbol"), seg("foo")]), SymbolPath::Unknown(ref n) if n == "foo"));
    assert!(matches!(symbol_from_path(&vec![seg("Sym"), seg("iterator")]), SymbolPath::NotAKey));
    assert!(matches!(symbol_from_path(&vec![seg("iterator")]), SymbolPath::NotAKey));
    assert!(matches!(symbol_from_path(&vec![seg("Symbol"), ("iterator".to_string(), true)]), SymbolPath::NotAKey));
    assert_eq!(not_a_key().message, "property key must be a string, a number, or Symbol::*");
}

#[test]
fn inner_type_options() {
    assert!(inner_type_meta(&NestedMeta::Path("v8::Object".into())).is_ok());
    assert_eq!(inner_type_meta(&NestedMeta::List("x".into())).err().unwrap().message, "expected a type path");
    assert!(inner_type_from_list(&vec![NestedMeta::Path("v8::Object".into())]).is_ok());
    let e = inner_type_from_list(&vec![]).err().unwrap();
    assert_eq!(e[0].message, "must specify a type");
    let e = inner_type_from_list(&vec![NestedMeta::Lit(MetaLit::Other)]).err().unwrap();
    assert_eq!(e.iter().map(|d| d.message.as_str()).collect::<Vec<_>>(), vec!["unexpected literal, expected a type path"]);
    let e = inner_type_from_list(&vec![NestedMeta::NameValue("a".into()), NestedMeta::Path("b".into())]).err().unwrap();
    assert_eq!(
        e.iter().map(|d| d.message.as_str()).collect::<Vec<_>>(),
        vec!["must specify exactly 1 type", "unexpected assignment, expected a type path"]
    );
    let e = inner_type_from_list(&vec![NestedMeta::Path("a".into()), NestedMeta::Path("b".into())]).err().unwrap();
    assert_eq!(e.iter().map(|d| d.message.as_str()).collect::<Vec<_>>(), vec!["must specify exactly 1 type"]);
    let e = inner_type_from_list(&vec![NestedMeta::List("a".into())]).err().unwrap();
    assert_eq!(e[0].message, "unexpected nested list, expected a type path");
}
