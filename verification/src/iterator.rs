//! What `#[js(iterator)]` generates: a `next` method that calls the
//! object's `next()` and reads `done` and `value` from the result, and an
//! `into_iter` adapter whose generics are merged with those of the `impl`
//! block or trait.

use vstd::prelude::*;

use crate::call::{source_view, BindFunction, FunctionLength, FunctionSource, ThisSlot};
use crate::generics::{pieces_view, spec_merged, texts, Generics, MergeGenerics, ParamKind};
use crate::property::{PropertyKey, PropertyKeyView};
use crate::sig::OuterTypeKind;
use crate::text::concat3;

verus! {

/// The bound that lets a reference to `ty` be converted to a V8 value:
/// `for<'_v8> &'_v8 {ty}: ToV8<'_v8>`.
pub open spec fn spec_to_v8_bound(ty: Seq<char>) -> Seq<char> {
    "for<'_v8> &'_v8 "@ + ty + ": ToV8<'_v8>"@
}

/// See [`spec_to_v8_bound`].
pub fn to_v8_bound(ty: &str) -> (r: String)
    ensures
        r@ == spec_to_v8_bound(ty@),
{
    concat3("for<'_v8> &'_v8 ", ty, ": ToV8<'_v8>")
}

/// The pieces joined with `, ` between them.
pub open spec fn join_comma(parts: Seq<Seq<char>>) -> Seq<char>
    decreases parts.len(),
{
    if parts.len() == 0 {
        seq![]
    } else if parts.len() == 1 {
        parts[0]
    } else {
        join_comma(parts.drop_last()) + ", "@ + parts.last()
    }
}

/// The texts of a list of parameters or arguments.
pub open spec fn piece_texts(v: Seq<(ParamKind, Seq<char>)>) -> Seq<Seq<char>> {
    v.map_values(|p: (ParamKind, Seq<char>)| p.1)
}

/// Joins the texts of the pieces with `, `.
pub fn join_pieces(v: &Vec<(ParamKind, String)>) -> (r: String)
    ensures
        r@ == join_comma(piece_texts(pieces_view(v@))),
{
    let n = v.len();
    let mut out = String::new();
    let mut i: usize = 0;
    while i < n
        invariant
            n == v@.len(),
            i <= n,
            out@ == join_comma(piece_texts(pieces_view(v@.take(i as int)))),
        decreases n - i,
    {
        assert(piece_texts(pieces_view(v@.take(i + 1))).drop_last() =~= piece_texts(
            pieces_view(v@.take(i as int)),
        ));
        assert(piece_texts(pieces_view(v@.take(i + 1))).last() == v@[i as int].1@);
        if i > 0 {
            out.append(", ");
        } else {
            assert(out@ =~= seq![]);
        }
        out.append(v[i].1.as_str());
        assert(out@ =~= join_comma(piece_texts(pieces_view(v@.take(i + 1)))));
        i = i + 1;
    }
    assert(v@.take(n as int) =~= v@);
    out
}

/// What the iterator's methods are generated with.
pub struct IteratorPlan {
    /// The call of the object's `next()`.
    pub next: BindFunction,
    pub done_key: PropertyKey,
    pub value_key: PropertyKey,
    /// The methods are `pub` (in an `impl` block; a trait's are not).
    pub public: bool,
    /// `into_iter` captures its lifetime with `+ use<'_iter>`.
    pub capturing: bool,
    /// The type the adapter holds: the type itself in an `impl` block, the
    /// generic `_Inner` in a trait.
    pub inner_type: String,
    /// The adapter's own lifetimes, types and bounds, merged with the outer
    /// generics.
    pub lifetimes: Vec<String>,
    pub types: Vec<String>,
    pub bounds: Vec<String>,
}

/// The bounds of the adapter in a trait `this` with the outer generics:
/// `_Inner` converts to V8, and implements the trait.
pub open spec fn spec_trait_bounds(this: Seq<char>, outer: Generics) -> Seq<Seq<char>> {
    seq![
        spec_to_v8_bound("_Inner"@),
        "_Inner: "@ + this + "<"@ + join_comma(
            piece_texts(spec_merged(seq![], seq![], outer.params@, true)),
        ) + ">"@,
    ]
}

/// The plan of the iterator generated on the `impl` block or trait of the
/// type `this`: `next()` is called on the object with no argument, `done`
/// and `value` are read from its result; in an `impl` block the methods
/// are public and the adapter holds the type itself; in a trait it holds a
/// generic `_Inner` bound to convert to V8 and to implement the trait.
pub fn iterator_plan(kind: OuterTypeKind, this: &str, outer: &Generics) -> (p: IteratorPlan)
    ensures
        source_view(p.next.source) == Some(PropertyKeyView::String("next"@)),
        p.next.this == ThisSlot::Object,
        !p.next.ctor,
        p.next.length == FunctionLength::Fixed(0),
        p.done_key@ == PropertyKeyView::String("done"@),
        p.value_key@ == PropertyKeyView::String("value"@),
        p.public == (kind == OuterTypeKind::Impl),
        p.capturing == (kind == OuterTypeKind::Impl),
        texts(p.lifetimes@) == seq!["'_iter"@],
        kind == OuterTypeKind::Impl ==> p.inner_type@ == this@ && p.types@.len() == 0
            && p.bounds@.len() == 0,
        kind == OuterTypeKind::Trait ==> p.inner_type@ == "_Inner"@ && texts(p.types@) == seq![
            "_Inner"@,
        ] && texts(p.bounds@) == spec_trait_bounds(this@, *outer),
{
    let next = BindFunction {
        source: FunctionSource::Prop(PropertyKey::from_str("next")),
        this: ThisSlot::Object,
        ctor: false,
        length: FunctionLength::Fixed(0),
    };
    let lifetimes = vec![String::from_str("'_iter")];
    assert(texts(lifetimes@) =~= seq!["'_iter"@]);
    let (public, inner_type, types, bounds) = match kind {
        OuterTypeKind::Impl => (true, String::from_str(this), Vec::new(), Vec::new()),
        OuterTypeKind::Trait => {
            let plain = MergeGenerics {
                outer,
                lifetimes: Vec::new(),
                types: Vec::new(),
                bounds: Vec::new(),
            };
            let args = plain.arguments();
            assert(texts(plain.lifetimes@) =~= seq![]);
            assert(texts(plain.types@) =~= seq![]);
            let joined = join_pieces(&args);
            let mut implements = concat3("_Inner: ", this, "<");
            implements.append(joined.as_str());
            implements.append(">");
            let bounds = vec![to_v8_bound("_Inner"), implements];
            assert(texts(bounds@) =~= spec_trait_bounds(this@, *outer));
            let types = vec![String::from_str("_Inner")];
            assert(texts(types@) =~= seq!["_Inner"@]);
            (false, String::from_str("_Inner"), types, bounds)
        },
    };
    IteratorPlan {
        next,
        done_key: PropertyKey::from_str("done"),
        value_key: PropertyKey::from_str("value"),
        public,
        capturing: public,
        inner_type,
        lifetimes,
        types,
        bounds,
    }
}

/// Whether a result of the object's `next()` yields an item: always,
/// except when `done` is true and `value` is `undefined` (a final value
/// returned with `done` is still yielded).
pub fn next_yields(done: bool, value_is_undefined: bool) -> (r: bool)
    ensures
        r == !(done && value_is_undefined),
{
    !(done && value_is_undefined)
}

/// The contexts of the errors of `next`: calling `next()`, reading `done`,
/// reading `value`.
pub fn next_error_contexts() -> (r: (&'static str, &'static str, &'static str))
    ensures
        r.0@ == "failed to call `next` on iterator"@,
        r.1@ == "failed to get `done` from iterator result"@,
        r.2@ == "failed to get `value` from iterator result"@,
{
    (
        "failed to call `next` on iterator",
        "failed to get `done` from iterator result",
        "failed to get `value` from iterator result",
    )
}


/// What the generated `next` meets, step by step, when it calls the
/// object's `next()`.
pub enum NextReply<T, E> {
    /// Finding or calling `next` failed.
    CallFailed(E),
    /// Reading `done` from the result failed.
    DoneFailed(E),
    /// Reading `value` from the result failed.
    ValueFailed(E),
    /// Both were read; `item` is what converting `value` to the item type
    /// gives (only looked at when an item is yielded).
    Read { done: bool, value_is_undefined: bool, item: Result<T, E> },
}

/// What the generated `next` returns: the error of the first step that
/// failed; else nothing when `done` is true and `value` is `undefined`;
/// else the converted value, or the error of converting it.
pub open spec fn spec_next_item<T, E>(reply: NextReply<T, E>) -> Result<Option<T>, E> {
    match reply {
        NextReply::CallFailed(e) => Err(e),
        NextReply::DoneFailed(e) => Err(e),
        NextReply::ValueFailed(e) => Err(e),
        NextReply::Read { done, value_is_undefined, item } => if done && value_is_undefined {
            Ok(None)
        } else {
            match item {
                Ok(v) => Ok(Some(v)),
                Err(e) => Err(e),
            }
        },
    }
}

/// See [`spec_next_item`].
pub fn next_item<T, E>(reply: NextReply<T, E>) -> (r: Result<Option<T>, E>)
    ensures
        r == spec_next_item(reply),
{
    match reply {
        NextReply::CallFailed(e) => Err(e),
        NextReply::DoneFailed(e) => Err(e),
        NextReply::ValueFailed(e) => Err(e),
        NextReply::Read { done, value_is_undefined, item } => if !next_yields(done, value_is_undefined) {
            Ok(None)
        } else {
            match item {
                Ok(v) => Ok(Some(v)),
                Err(e) => Err(e),
            }
        },
    }
}

/// What the `into_iter` adapter's `Iterator::next` gives for a result of
/// `next`: the result transposed.
pub open spec fn spec_iter_next<T, E>(r: Result<Option<T>, E>) -> Option<Result<T, E>> {
    match r {
        Ok(None) => None,
        Ok(Some(v)) => Some(Ok(v)),
        Err(e) => Some(Err(e)),
    }
}

/// See [`spec_iter_next`].
pub fn iter_next<T, E>(r: Result<Option<T>, E>) -> (o: Option<Result<T, E>>)
    ensures
        o == spec_iter_next(r),
{
    match r {
        Ok(None) => None,
        Ok(Some(v)) => Some(Ok(v)),
        Err(e) => Some(Err(e)),
    }
}

/// What a loop over the adapter receives when the object's `next()` meets
/// `replies` in turn: the transposed results, up to the first one that is
/// none.
pub open spec fn spec_iterated<T, E>(replies: Seq<NextReply<T, E>>) -> Seq<Result<T, E>>
    decreases replies.len(),
{
    if replies.len() == 0 {
        seq![]
    } else {
        match spec_iter_next(spec_next_item(replies[0])) {
            None => seq![],
            Some(x) => seq![x] + spec_iterated(replies.subrange(1, replies.len() as int)),
        }
    }
}

/// Iterating the adapter yields, in order, one item or error per result of
/// the object's `next()` (errors included, a final value given with `done`
/// included), and stops at the first result with `done` true and `value`
/// `undefined`; nothing after it is yielded.
pub proof fn lemma_iteration_stops_at_done<T, E>(replies: Seq<NextReply<T, E>>)
    ensures
        spec_iterated(replies).len() <= replies.len(),
        forall|k: int|
            0 <= k < spec_iterated(replies).len() ==> Some(#[trigger] spec_iterated(replies)[k])
                == spec_iter_next(spec_next_item(replies[k])),
        spec_iterated(replies).len() < replies.len() ==> replies[spec_iterated(replies).len() as int] matches NextReply::Read { done: true, value_is_undefined: true, .. },
    decreases replies.len(),
{
    if replies.len() > 0 {
        let rest = replies.subrange(1, replies.len() as int);
        lemma_iteration_stops_at_done(rest);
        match spec_iter_next(spec_next_item(replies[0])) {
            None => {},
            Some(x) => {
                let out = spec_iterated(replies);
                assert(out == seq![x] + spec_iterated(rest));
                assert forall|k: int| 0 <= k < out.len() implies Some(#[trigger] out[k]) == spec_iter_next(spec_next_item(replies[k])) by {
                    if k > 0 {
                        assert(out[k] == spec_iterated(rest)[k - 1]);
                        assert(rest[k - 1] == replies[k]);
                    }
                }
                if out.len() < replies.len() {
                    assert(rest[spec_iterated(rest).len() as int] == replies[out.len() as int]);
                }
            },
        }
    }
}

} // verus!
