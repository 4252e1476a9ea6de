//! The items of an `impl` block or trait marked with `#[js(interface)]`,
//! `#[js(function)]` or `#[js(iterator)]`: which items each accepts, the
//! checks made on them, and how many it requires.

use vstd::prelude::*;

use crate::diagnostic::Diagnostic;
use crate::sig::{check, failed_checks, messages, no_default_fn, no_fn_body, unlocated};
use crate::text::str_eq;

verus! {

/// What an attribute derives from an `impl` block or trait.
#[derive(Clone, Copy, PartialEq, Eq, Structural)]
pub enum DeriveKind {
    /// `#[js(interface)]`: methods that read, write or call properties.
    Properties,
    /// `#[js(function)]`: a single method `call` that calls the object.
    Function,
    /// `#[js(iterator)]`: a single `type Item = ...`.
    Iterator,
}

/// The message for an item the attribute does not accept.
pub open spec fn spec_unsupported(kind: DeriveKind) -> Seq<char> {
    match kind {
        DeriveKind::Properties => "only fn items are supported\nfn should have an empty body\nmove this item to another impl block"@,
        DeriveKind::Function => "expected exactly one fn named `call`"@,
        DeriveKind::Iterator => "unexpected item\nmove this item to another impl block"@,
    }
}

/// Whether the derive takes functions (else it takes `type` items).
pub open spec fn takes_fns(kind: DeriveKind) -> bool {
    kind != DeriveKind::Iterator
}

/// The rule on the number of items derived: functions for
/// `#[js(function)]`, types for `#[js(iterator)]`.
pub open spec fn spec_count_error(kind: DeriveKind, fns: nat, types: nat) -> Option<Seq<char>> {
    match kind {
        DeriveKind::Properties => None,
        DeriveKind::Function => if fns == 1 {
            None
        } else {
            Some("expected exactly one fn named `call`"@)
        },
        DeriveKind::Iterator => if types == 1 {
            None
        } else {
            Some("expected exactly one `type Item = ...`"@)
        },
    }
}

impl DeriveKind {
    /// See [`spec_unsupported`].
    pub fn unsupported(self) -> (d: Diagnostic)
        ensures
            d.message@ == spec_unsupported(self),
            d.location@.len() == 0,
    {
        match self {
            DeriveKind::Properties => Diagnostic::custom(
                "only fn items are supported\nfn should have an empty body\nmove this item to another impl block",
            ),
            DeriveKind::Function => Diagnostic::custom("expected exactly one fn named `call`"),
            DeriveKind::Iterator => Diagnostic::custom(
                "unexpected item\nmove this item to another impl block",
            ),
        }
    }

    /// See [`spec_count_error`].
    pub fn count_items(self, fns: usize, types: usize) -> (r: Result<(), Diagnostic>)
        ensures
            spec_count_error(self, fns as nat, types as nat) is None ==> r is Ok,
            spec_count_error(self, fns as nat, types as nat) matches Some(m) ==> (r matches Err(e)
                && e.message@ == m && e.location@.len() == 0),
    {
        match self {
            DeriveKind::Properties => Ok(()),
            DeriveKind::Function => if fns == 1 {
                Ok(())
            } else {
                Err(Diagnostic::custom("expected exactly one fn named `call`"))
            },
            DeriveKind::Iterator => if types == 1 {
                Ok(())
            } else {
                Err(Diagnostic::custom("expected exactly one `type Item = ...`"))
            },
        }
    }
}

/// A method of the `impl` block or trait.
pub struct FnItem {
    pub ident: String,
    /// The first path segment of each attribute.
    pub attr_heads: Vec<String>,
    /// `default fn` (only in an `impl` block).
    pub defaultness: bool,
    /// The number of statements of the body, if it has one.
    pub body_statements: Option<usize>,
}

/// How many of the names are `js`.
pub open spec fn count_js(heads: Seq<String>) -> nat
    decreases heads.len(),
{
    if heads.len() == 0 {
        0
    } else {
        count_js(heads.drop_last()) + if heads.last()@ == "js"@ {
            1nat
        } else {
            0nat
        }
    }
}

/// `n` copies of a message.
pub open spec fn repeat(m: Seq<char>, n: nat) -> Seq<Seq<char>> {
    Seq::new(n, |_i: int| m)
}

/// Every error of a method, in order.
pub open spec fn spec_fn_errors(kind: DeriveKind, f: FnItem) -> Seq<Seq<char>> {
    let body = failed_checks(
        seq![
            (f.body_statements matches Some(n) && n > 0, "macro ignores fn body\nchange this to {}"@),
            (f.defaultness, "fn cannot be `default` here"@),
        ],
    );
    match kind {
        DeriveKind::Properties => body,
        DeriveKind::Function => body + failed_checks(
            seq![(f.ident@ != "call"@, "expected fn to be named `call`"@)],
        ) + repeat("a #[js(...)] is not required here"@, count_js(f.attr_heads@)),
        DeriveKind::Iterator => seq![spec_unsupported(kind)],
    }
}

/// The checks on a method: no body (or an empty one), not `default`; for
/// `#[js(function)]` also named `call` and without `#[js(...)]`; an
/// iterator takes no method.
#[verifier::spinoff_prover]
#[verifier::rlimit(40)]
pub fn check_fn(kind: DeriveKind, f: &FnItem) -> (r: Vec<Diagnostic>)
    ensures
        messages(r@) == spec_fn_errors(kind, *f),
        unlocated(r@),
{
    let mut errors: Vec<Diagnostic> = Vec::new();
    if kind == DeriveKind::Iterator {
        errors.push(kind.unsupported());
        assert(messages(errors@) =~= spec_fn_errors(kind, *f));
        return errors;
    }
    match no_fn_body(f.body_statements) {
        Ok(()) => {},
        Err(e) => errors.push(e),
    }
    match no_default_fn(f.defaultness) {
        Ok(()) => {},
        Err(e) => errors.push(e),
    }
    proof {
        let c = seq![
            (f.body_statements matches Some(n) && n > 0, "macro ignores fn body\nchange this to {}"@),
            (f.defaultness, "fn cannot be `default` here"@),
        ];
        reveal_with_fuel(failed_checks, 3);
        assert(c.drop_last() =~= seq![c[0]]);
        assert(seq![c[0]].drop_last() =~= seq![]);
        assert(messages(errors@) =~= failed_checks(c));
    }
    if kind == DeriveKind::Properties {
        return errors;
    }
    let ghost e0 = errors@;
    let named_call = str_eq(f.ident.as_str(), "call");
    check(&mut errors, !named_call, "expected fn to be named `call`");
    proof {
        let c = seq![(f.ident@ != "call"@, "expected fn to be named `call`"@)];
        reveal_with_fuel(failed_checks, 2);
        assert(c.drop_last() =~= seq![]);
        assert(messages(errors@) =~= messages(e0) + failed_checks(c));
    }
    let ghost e1 = errors@;
    let n = f.attr_heads.len();
    let mut i: usize = 0;
    while i < n
        invariant
            n == f.attr_heads@.len(),
            i <= n,
            messages(errors@) == messages(e1) + repeat(
                "a #[js(...)] is not required here"@,
                count_js(f.attr_heads@.take(i as int)),
            ),
            unlocated(errors@),
        decreases n - i,
    {
        let ghost before = errors@;
        assert(f.attr_heads@.take(i + 1).drop_last() =~= f.attr_heads@.take(i as int));
        let is_js = str_eq(f.attr_heads[i].as_str(), "js");
        check(&mut errors, is_js, "a #[js(...)] is not required here");
        assert(messages(errors@) =~= messages(e1) + repeat(
            "a #[js(...)] is not required here"@,
            count_js(f.attr_heads@.take(i + 1)),
        ));
        i = i + 1;
    }
    assert(f.attr_heads@.take(n as int) =~= f.attr_heads@);
    errors
}

/// A `type` item of the `impl` block or trait.
pub struct TypeItem {
    pub ident: String,
    pub has_attrs: bool,
    /// `default type` (only in an `impl` block).
    pub defaultness: bool,
    pub has_generics: bool,
    pub has_where_clause: bool,
    /// `pub` or `pub(...)` (only in an `impl` block).
    pub has_visibility: bool,
    /// Trait bounds (only in a trait).
    pub has_bounds: bool,
    /// A concrete type `= ...` (always in an `impl` block).
    pub has_default: bool,
}

/// Every error of a `type` item, in order; `in_trait` says where it is.
pub open spec fn spec_type_errors(kind: DeriveKind, t: TypeItem, in_trait: bool) -> Seq<Seq<char>> {
    if kind != DeriveKind::Iterator {
        seq![spec_unsupported(kind)]
    } else if t.ident@ != "Item"@ {
        seq!["unexpected type name, expected `type Item`"@]
    } else if !in_trait {
        failed_checks(
            seq![
                (t.has_attrs, "macro ignores attributes in this location"@),
                (t.defaultness, "macro ignores `default` in this location"@),
                (t.has_generics, "macro ignores type params in this location"@),
                (t.has_where_clause, "macro ignores where clause in this location"@),
                (t.has_visibility, "macro ignores visibility qualifiers in this location"@),
            ],
        )
    } else {
        failed_checks(
            seq![
                (t.has_attrs, "macro ignores attributes in this location"@),
                (t.has_generics, "macro ignores type params in this location"@),
                (t.has_where_clause, "macro ignores where clause in this location"@),
                (t.has_bounds, "macro ignores trait bounds in this location"@),
                (!t.has_default, "a concrete type is required: `type Item = ...`"@),
            ],
        )
    }
}

/// The checks on a `type` item: only an iterator takes one, named `Item`,
/// without attributes, `default`, generics, `where` clause, visibility or
/// bounds, and (in a trait) with a concrete type.
pub fn check_type(kind: DeriveKind, t: &TypeItem, in_trait: bool) -> (r: Vec<Diagnostic>)
    ensures
        messages(r@) == spec_type_errors(kind, *t, in_trait),
        unlocated(r@),
{
    let mut errors: Vec<Diagnostic> = Vec::new();
    if kind != DeriveKind::Iterator {
        errors.push(kind.unsupported());
        assert(messages(errors@) =~= spec_type_errors(kind, *t, in_trait));
        return errors;
    }
    if !str_eq(t.ident.as_str(), "Item") {
        errors.push(Diagnostic::custom("unexpected type name, expected `type Item`"));
        assert(messages(errors@) =~= spec_type_errors(kind, *t, in_trait));
        return errors;
    }
    let checks = if !in_trait {
        vec![
            (t.has_attrs, "macro ignores attributes in this location"),
            (t.defaultness, "macro ignores `default` in this location"),
            (t.has_generics, "macro ignores type params in this location"),
            (t.has_where_clause, "macro ignores where clause in this location"),
            (t.has_visibility, "macro ignores visibility qualifiers in this location"),
        ]
    } else {
        vec![
            (t.has_attrs, "macro ignores attributes in this location"),
            (t.has_generics, "macro ignores type params in this location"),
            (t.has_where_clause, "macro ignores where clause in this location"),
            (t.has_bounds, "macro ignores trait bounds in this location"),
            (!t.has_default, "a concrete type is required: `type Item = ...`"),
        ]
    };
    let errors = crate::sig::check_all(&checks);
    assert(crate::sig::checks_view(checks@) =~= (if !in_trait {
        seq![
            (t.has_attrs, "macro ignores attributes in this location"@),
            (t.defaultness, "macro ignores `default` in this location"@),
            (t.has_generics, "macro ignores type params in this location"@),
            (t.has_where_clause, "macro ignores where clause in this location"@),
            (t.has_visibility, "macro ignores visibility qualifiers in this location"@),
        ]
    } else {
        seq![
            (t.has_attrs, "macro ignores attributes in this location"@),
            (t.has_generics, "macro ignores type params in this location"@),
            (t.has_where_clause, "macro ignores where clause in this location"@),
            (t.has_bounds, "macro ignores trait bounds in this location"@),
            (!t.has_default, "a concrete type is required: `type Item = ...`"@),
        ]
    }));
    errors
}

/// What became of one item of the `impl` block or trait.
pub enum ItemResult<T> {
    /// A method: its code, or the errors of its checks or its derivation.
    Fn(Result<T, Vec<Diagnostic>>),
    /// A `type` item, likewise.
    Type(Result<T, Vec<Diagnostic>>),
    /// Another kind of item (a constant, a macro, ...).
    Other,
}

/// The errors of the items, in order.
pub open spec fn item_errors<T>(kind: DeriveKind, items: Seq<ItemResult<T>>) -> Seq<Seq<char>>
    decreases items.len(),
{
    if items.len() == 0 {
        seq![]
    } else {
        item_errors(kind, items.drop_last()) + match items.last() {
            ItemResult::Fn(Err(e)) => messages(e@),
            ItemResult::Type(Err(e)) => messages(e@),
            ItemResult::Other => seq![spec_unsupported(kind)],
            _ => seq![],
        }
    }
}

/// How many methods, and how many `type` items, were derived.
pub open spec fn derived_counts<T>(items: Seq<ItemResult<T>>) -> (nat, nat)
    decreases items.len(),
{
    if items.len() == 0 {
        (0, 0)
    } else {
        let (f, t) = derived_counts(items.drop_last());
        match items.last() {
            ItemResult::Fn(Ok(_)) => (f + 1, t),
            ItemResult::Type(Ok(_)) => (f, t + 1),
            _ => (f, t),
        }
    }
}

/// The code of the methods derived, in order.
pub open spec fn derived_fns<T>(items: Seq<ItemResult<T>>) -> Seq<T>
    decreases items.len(),
{
    if items.len() == 0 {
        seq![]
    } else {
        derived_fns(items.drop_last()) + match items.last() {
            ItemResult::Fn(Ok(code)) => seq![code],
            _ => seq![],
        }
    }
}

/// The code of the `type` items derived, in order.
pub open spec fn derived_types<T>(items: Seq<ItemResult<T>>) -> Seq<T>
    decreases items.len(),
{
    if items.len() == 0 {
        seq![]
    } else {
        derived_types(items.drop_last()) + match items.last() {
            ItemResult::Type(Ok(code)) => seq![code],
            _ => seq![],
        }
    }
}

/// Every error of a derivation, in order: those of the items, then the rule
/// on their number.
pub open spec fn spec_derive_errors<T>(kind: DeriveKind, items: Seq<ItemResult<T>>) -> Seq<Seq<char>> {
    let (f, t) = derived_counts(items);
    item_errors(kind, items) + match spec_count_error(kind, f, t) {
        Some(m) => seq![m],
        None => seq![],
    }
}

/// Gathers the items derived: the code of the methods and of the `type`
/// items, in order, when no item failed and their number is right; else
/// every error.
#[verifier::spinoff_prover]
#[verifier::rlimit(40)]
pub fn collect_items<T>(kind: DeriveKind, items: Vec<ItemResult<T>>) -> (r: Result<
    (Vec<T>, Vec<T>),
    Vec<Diagnostic>,
>)
    ensures
        r is Ok <==> spec_derive_errors(kind, items@).len() == 0,
        r matches Err(e) ==> messages(e@) == spec_derive_errors(kind, items@),
        r matches Ok((fns, types)) ==> fns@ == derived_fns(items@) && types@ == derived_types(
            items@,
        ),
{
    let ghost all = items@;
    let n = items.len();
    let mut rest = items;
    let mut fns: Vec<T> = Vec::new();
    let mut types: Vec<T> = Vec::new();
    let mut errors: Vec<Diagnostic> = Vec::new();
    let mut k: usize = 0;
    assert(all.take(0) =~= seq![]);
    while k < n
        invariant
            n == all.len(),
            k <= n,
            rest@ == all.subrange(k as int, n as int),
            messages(errors@) == item_errors(kind, all.take(k as int)),
            fns@.len() == derived_counts(all.take(k as int)).0,
            types@.len() == derived_counts(all.take(k as int)).1,
            fns@ == derived_fns(all.take(k as int)),
            types@ == derived_types(all.take(k as int)),
        decreases n - k,
    {
        assert(all.take(k + 1).drop_last() =~= all.take(k as int));
        let ghost e0 = errors@;
        let item = rest.remove(0);
        assert(item == all[k as int]);
        assert(rest@ =~= all.subrange(k + 1, n as int));
        match item {
            ItemResult::Fn(Ok(code)) => fns.push(code),
            ItemResult::Type(Ok(code)) => types.push(code),
            ItemResult::Fn(Err(mut e)) => {
                let ghost ev = e@;
                errors.append(&mut e);
                assert(messages(errors@) =~= messages(e0) + messages(ev));
            },
            ItemResult::Type(Err(mut e)) => {
                let ghost ev = e@;
                errors.append(&mut e);
                assert(messages(errors@) =~= messages(e0) + messages(ev));
            },
            ItemResult::Other => {
                errors.push(kind.unsupported());
                assert(messages(errors@) =~= messages(e0).push(spec_unsupported(kind)));
            },
        }
        assert(messages(errors@) =~= item_errors(kind, all.take(k + 1)));
        k = k + 1;
    }
    assert(all.take(n as int) =~= all);
    let ghost e1 = errors@;
    match kind.count_items(fns.len(), types.len()) {
        Ok(()) => {},
        Err(e) => errors.push(e),
    }
    assert(messages(errors@) =~= spec_derive_errors(kind, all));
    if errors.len() > 0 {
        Err(errors)
    } else {
        Ok((fns, types))
    }
}

/// Derives an `impl` block or trait: the errors of the block itself (see
/// `only_inherent_impl` and `only_regular_trait`) come first, then those
/// of the items and of their number; any error fails it.
pub fn derive_items<T>(kind: DeriveKind, outer_errors: Vec<Diagnostic>, items: Vec<ItemResult<T>>) -> (r:
    Result<(Vec<T>, Vec<T>), Vec<Diagnostic>>)
    ensures
        r is Ok <==> outer_errors@.len() == 0 && spec_derive_errors(kind, items@).len() == 0,
        r matches Err(e) ==> messages(e@) == messages(outer_errors@) + spec_derive_errors(
            kind,
            items@,
        ),
        r matches Ok((fns, types)) ==> fns@ == derived_fns(items@) && types@ == derived_types(
            items@,
        ),
{
    let ghost iv = items@;
    let mut errors = outer_errors;
    let ghost e0 = errors@;
    match collect_items(kind, items) {
        Ok(found) => {
            if errors.len() == 0 {
                Ok(found)
            } else {
                assert(messages(errors@) =~= messages(e0) + spec_derive_errors(kind, iv));
                Err(errors)
            }
        },
        Err(mut more) => {
            let ghost m = more@;
            errors.append(&mut more);
            assert(messages(errors@) =~= messages(e0) + messages(m));
            Err(errors)
        },
    }
}

/// The message when an `impl` block under the attribute has a visibility.
pub open spec fn spec_visibility_error(is_impl: bool, has_visibility: bool) -> Option<Seq<char>> {
    if is_impl && has_visibility {
        Some("unexpected visibility modifier"@)
    } else {
        None
    }
}

/// An `impl` block takes no visibility (a trait keeps its own).
pub fn check_outer_visibility(is_impl: bool, has_visibility: bool) -> (r: Result<(), Diagnostic>)
    ensures
        spec_visibility_error(is_impl, has_visibility) is None ==> r is Ok,
        spec_visibility_error(is_impl, has_visibility) matches Some(m) ==> (r matches Err(e)
            && e.message@ == m && e.location@.len() == 0),
{
    if is_impl && has_visibility {
        Err(Diagnostic::custom("unexpected visibility modifier"))
    } else {
        Ok(())
    }
}

/// The `where` predicates of a derived trait: its own, then the bound that
/// lets `&Self` convert to V8.
pub fn trait_where_predicates(own: Option<Vec<String>>) -> (r: Vec<String>)
    ensures
        r@.map_values(|s: String| s@) == match own {
            Some(w) => w@.map_values(|s: String| s@),
            None => Seq::<Seq<char>>::empty(),
        }.push(crate::iterator::spec_to_v8_bound("Self"@)),
{
    let mut out = match own {
        Some(w) => w,
        None => Vec::new(),
    };
    let ghost before = out@;
    out.push(crate::iterator::to_v8_bound("Self"));
    assert(out@.map_values(|s: String| s@) =~= before.map_values(|s: String| s@).push(
        crate::iterator::spec_to_v8_bound("Self"@),
    ));
    out
}

} // verus!
