use ferrosaur::docs::{
    chapter_links, debounce_action, insert_link, entry_target, entry_url, process_chapter, indexing_begin, indexing_end, link_entry, markdown_options,
    preprocessor_name, rewrite_links, rewritten_link, smart_punctuation, BrokenLinks, DebounceAction,
    ExternalDocLinks, ExternalDocs, ItemRequestBatch, Progress, ProgressToken, WorkDone,
};

#[test]
fn preprocessor_names() {
    assert_eq!(preprocessor_name("mdbook-rustdoc-link"), "rustdoc-link");
    assert_eq!(preprocessor_name("rustdoc"), "rustdoc");
    assert_eq!(preprocessor_name("-x"), "x");
    assert_eq!(preprocessor_name("a-"), "");
    assert_eq!(preprocessor_name(""), "");
}

fn requests(b: &ItemRequestBatch) -> Vec<(&str, Option<&str>, usize, usize)> {
    b.request.iter().map(|r| (r.path.as_str(), r.hash.as_deref(), r.line, r.column)).collect()
}

#[test]
fn request_batch_for_item_links() {
    let items = vec![
        "std::vec::Vec".to_string(),
        "Vec#method.push".to_string(),
        "foo()".to_string(),
        "vec![]".to_string(),
        "1 + 2".to_string(),
        "<T as X>::f".to_string(),
        "https://example.com".to_string(),
        "std::vec::Vec".to_string(),
    ];
    let b = ItemRequestBatch::new("fn main() {}", &items);
    assert_eq!(
        requests(&b),
        vec![
            ("std::vec::Vec", None, 2, 10),
            ("Vec", Some("method.push"), 3, 0),
            ("foo()", None, 4, 0),
            ("vec![]", None, 5, 0),
        ]
    );
    assert_eq!(
        b.context,
        "fn main() {}\nfn __6c0db446e2fa428eb93e3c71945e9654() {\nstd::vec::Vec;\nVec;\nfoo();\nvec![];\n}"
    );
    // each request points at its item's identifier in the written source
    let lines: Vec<&str> = b.context.split('\n').collect();
    for r in &b.request {
        let line = lines[r.line];
        assert!(line.starts_with(r.path.as_str()));
    }
}

#[test]
fn request_batch_fragments_and_lines() {
    let items = vec!["a#b#c".to_string(), "x\ny".to_string()];
    let b = ItemRequestBatch::new("", &items);
    assert_eq!(requests(&b), vec![("a", Some("b"), 2, 0)]);
    assert_eq!(b.context, "\nfn __6c0db446e2fa428eb93e3c71945e9654() {\na;\n}");
    let b = ItemRequestBatch::new("", &vec![]);
    assert!(b.request.is_empty());
    assert_eq!(b.context, "\nfn __6c0db446e2fa428eb93e3c71945e9654() {\n}");
}

#[test]
fn link_entries() {
    let (key, links) = link_entry(
        "Vec".into(),
        Some("method.push".into()),
        Some("https://docs.rs/x/struct.Vec.html".into()),
        None,
    )
    .unwrap();
    assert_eq!(key, "Vec#method.push");
    assert_eq!(links.web.as_deref(), Some("https://docs.rs/x/struct.Vec.html#method.push"));
    assert_eq!(links.local, None);

    let (key, links) = link_entry(
        "Vec".into(),
        None,
        Some("https://docs.rs/x/struct.Vec.html".into()),
        Some("file:///doc/x/struct.Vec.html".into()),
    )
    .unwrap();
    assert_eq!(key, "Vec");
    assert_eq!(links.web.as_deref(), Some("https://docs.rs/x/struct.Vec.html"));
    assert_eq!(links.local.as_deref(), Some("file:///doc/x/struct.Vec.html"));

    let (_, links) = link_entry(
        "Vec".into(),
        Some("new".into()),
        Some("https://docs.rs/x/struct.Vec.html#old".into()),
        Some("not a url".into()),
    )
    .unwrap();
    assert_eq!(links.web.as_deref(), Some("https://docs.rs/x/struct.Vec.html#new"));
    assert_eq!(links.local.as_deref(), Some("not a url"));

    assert!(link_entry("Vec".into(), Some("x".into()), None, None).is_none());
}

fn table() -> Vec<(String, ExternalDocLinks)> {
    vec![
        ("Vec".to_string(), ExternalDocLinks { web: Some("https://w/Vec".into()), local: Some("file:///l/Vec".into()) }),
        ("Box".to_string(), ExternalDocLinks { web: None, local: Some("file:///l/Box".into()) }),
    ]
}

#[test]
fn links_rewritten_as_preferred() {
    let t = table();
    assert_eq!(rewritten_link(&t, "Vec", false).as_deref(), Some("https://w/Vec"));
    assert_eq!(rewritten_link(&t, "Vec", true).as_deref(), Some("file:///l/Vec"));
    assert_eq!(rewritten_link(&t, "Box", false), None);
    assert_eq!(rewritten_link(&t, "Rc", true), None);
    let dests = vec!["Vec".to_string(), "Box".to_string(), "https://example.com".to_string()];
    assert_eq!(rewrite_links(&t, &dests, false), vec!["https://w/Vec", "Box", "https://example.com"]);
    assert_eq!(rewrite_links(&t, &dests, true), vec!["file:///l/Vec", "file:///l/Box", "https://example.com"]);
}

#[test]
fn broken_links_take_their_label_as_target() {
    let b = BrokenLinks;
    assert_eq!(b.handle_broken_link("`Vec`", true), Some(("Vec".to_string(), "`Vec`".to_string())));
    assert_eq!(b.handle_broken_link("Vec::new", true), Some(("Vec::new".to_string(), "Vec::new".to_string())));
    assert_eq!(
        b.handle_broken_link("`Vec` and `Box`", true),
        Some(("Vec and Box".to_string(), "`Vec` and `Box`".to_string()))
    );
    assert_eq!(b.handle_broken_link("`Vec`", false), Some(("`Vec`".to_string(), "`Vec`".to_string())));
    assert_eq!(b.handle_broken_link("", true), None);
    assert_eq!(b.handle_broken_link("", false), None);
}

#[test]
fn markdown_extensions() {
    let o = markdown_options(true);
    assert!(o.tables && o.footnotes && o.strikethrough && o.tasklists && o.heading_attributes && o.smart_punctuation);
    assert!(!markdown_options(false).smart_punctuation);
}

#[test]
fn indexing_progress() {
    let p = |token: ProgressToken, value: WorkDone| Progress { token, value };
    let name = || ProgressToken::String("rustAnalyzer/Indexing".into());
    assert!(indexing_begin(&p(name(), WorkDone::Begin)));
    assert!(!indexing_end(&p(name(), WorkDone::Begin)));
    assert!(indexing_end(&p(name(), WorkDone::End)));
    assert!(!indexing_begin(&p(name(), WorkDone::Report)));
    assert!(!indexing_begin(&p(ProgressToken::String("rustAnalyzer/Fetching".into()), WorkDone::Begin)));
    assert!(!indexing_end(&p(ProgressToken::Number(1), WorkDone::End)));
    assert!(debounce_action(true) == DebounceAction::StartTimer);
    assert!(debounce_action(false) == DebounceAction::AbortTimer);
}

#[test]
fn configuration() {
    assert!(smart_punctuation(None));
    assert!(smart_punctuation(Some(None)));
    assert!(!smart_punctuation(Some(Some(false))));
    assert!(smart_punctuation(Some(Some(true))));
    assert_eq!(entry_target(&Some(Some("src/lib.rs".into())), &vec![Some("src/main.rs".into())]), Ok("src/lib.rs".to_string()));
    assert_eq!(entry_target(&Some(None), &vec![None, Some("src/bin/a.rs".into())]), Ok("src/bin/a.rs".to_string()));
    assert_eq!(entry_target(&None, &vec![None]), Err("Cargo.toml does not have a lib or bin target"));
    assert_eq!(ExternalDocs::method(), "experimental/externalDocs");
    assert_eq!(ferrosaur::docs::EXTERNAL_DOCS_METHOD, ExternalDocs::method());
}

#[test]
fn request_batch_from_given_positions() {
    let items = vec![
        "a::B".to_string(),
        "c#frag".to_string(),
        "d".to_string(),
        "a::B".to_string(),
        "e".to_string(),
    ];
    // one position per distinct target: a::B, c#frag, d, e
    let positions = vec![Some((1, 3)), Some((1, 0)), Some((2, 0)), None];
    let b = ItemRequestBatch::from_positions("src", &items, &positions);
    assert_eq!(requests(&b), vec![("a::B", None, 2, 3), ("c", Some("frag"), 3, 0)]);
    assert_eq!(b.context, "src\nfn __6c0db446e2fa428eb93e3c71945e9654() {\na::B;\nc;\n}");
}

#[test]
fn chapter_link_targets_in_order() {
    let text = "See [`Vec`] and [Box](std::boxed::Box), [here](https://example.com) and [`Vec`].";
    assert_eq!(chapter_links(text, true), vec!["Vec", "std::boxed::Box", "https://example.com", "Vec"]);
    assert!(chapter_links("no links here", false).is_empty());
}

#[test]
fn chapter_links_replaced() {
    let t = table();
    let text = "[`Vec`] and [Box](Box) and [x](https://example.com)\n";
    let out = process_chapter(text, false, &t, false).unwrap();
    assert!(out.contains("https://w/Vec"));
    assert!(out.contains("(Box)"));
    assert!(out.contains("https://example.com"));
    let local = process_chapter(text, false, &t, true).unwrap();
    assert!(local.contains("file:///l/Vec"));
    assert!(local.contains("file:///l/Box"));
    // a chapter without a link found is written back with its links as they were
    let same = process_chapter("[a](b)\n", false, &t, false).unwrap();
    assert!(same.contains("[a](b)"));
}

#[test]
fn entry_point_url() {
    let lib = Some(Some("src/lib.rs".to_string()));
    assert_eq!(
        entry_url("file:///work/crate/Cargo.toml", &lib, &vec![]),
        Ok("file:///work/crate/src/lib.rs".to_string())
    );
    assert_eq!(
        entry_url("file:///work/crate/Cargo.toml", &None, &vec![]),
        Err("Cargo.toml does not have a lib or bin target")
    );
    assert_eq!(
        entry_url("not a url", &lib, &vec![]),
        Err("the target path does not join the manifest URL")
    );
}

#[test]
fn link_table_keeps_one_entry_per_key() {
    let mut t: Vec<(String, ExternalDocLinks)> = vec![];
    insert_link(&mut t, "Vec".into(), ExternalDocLinks { web: Some("https://w/a".into()), local: None });
    insert_link(&mut t, "Box".into(), ExternalDocLinks { web: Some("https://w/Box".into()), local: None });
    insert_link(&mut t, "Vec".into(), ExternalDocLinks { web: Some("https://w/b".into()), local: None });
    assert_eq!(t.len(), 2);
    assert_eq!(t[0].0, "Vec");
    assert_eq!(rewritten_link(&t, "Vec", false).as_deref(), Some("https://w/b"));
    assert_eq!(rewritten_link(&t, "Box", false).as_deref(), Some("https://w/Box"));
}
