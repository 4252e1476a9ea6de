//! The typing rules: how the Rust type written in a signature decides the
//! way a value is converted to and from JavaScript.
//!
//! A type is modelled as a tree whose leaves carry an opaque payload `L`
//! (the syntax the caller wants back when the tree is turned into code).

use vstd::prelude::*;

use crate::diagnostic::{Caveat, Diagnostic};
use crate::text::str_eq;

verus! {

/// Kinds of types that wrap exactly one element type.
#[derive(Clone, Copy, PartialEq, Eq, Structural)]
pub enum WrapKind {
    Array,
    Group,
    Paren,
    Reference,
    Slice,
}

/// A type, or a generic argument, as far as the typing rules look into it.
pub enum TypeNode<L> {
    /// A path type. `plain` is false when it has a `<T as Trait>::` qualifier
    /// or a leading `::`.
    Path { plain: bool, segments: Vec<Segment<L>>, raw: L },
    /// A tuple type.
    Tuple { elems: Vec<TypeNode<L>>, raw: L },
    /// An array, group, parenthesized, reference or slice type.
    Wrapped { kind: WrapKind, elem: Box<TypeNode<L>>, raw: L },
    /// Any other type (function pointer, `impl Trait`, `_`, macro, `!`,
    /// raw pointer, trait object, verbatim tokens).
    Opaque { raw: L },
    /// A generic argument that is not a type (a lifetime, a constant, an
    /// associated-type binding or a constraint).
    NonType { raw: L },
}

/// One segment of a path type.
pub struct Segment<L> {
    pub ident: String,
    pub args: SegmentArgs<L>,
    pub raw: L,
}

/// The arguments of a path segment.
pub enum SegmentArgs<L> {
    Absent,
    /// `<...>` with its arguments.
    Angle { args: Vec<TypeNode<L>>, raw: L },
    /// `(...) -> ...`, as in `Fn(A) -> B`.
    Parenthesized { raw: L },
}

/// Whether a segment's arguments are empty (`syn::PathArguments::is_empty`).
pub open spec fn args_empty<L>(a: SegmentArgs<L>) -> bool {
    match a {
        SegmentArgs::Absent => true,
        SegmentArgs::Angle { args, .. } => args@.len() == 0,
        SegmentArgs::Parenthesized { .. } => false,
    }
}

// ---------------------------------------------------------------------
// The `serde<T>` hint

/// The segment is `serde` alone on a plain path.
pub open spec fn is_serde_path<L>(plain: bool, segments: Seq<Segment<L>>) -> bool {
    plain && segments.len() == 1 && segments[0].ident@ == "serde"@
}

/// Whether the type is, or holds where the rules look, a `serde<T>` hint.
pub open spec fn has_hint<L>(t: TypeNode<L>) -> bool
    decreases t, 1int,
{
    match t {
        TypeNode::Path { plain, segments, raw } => {
            if !plain {
                false
            } else if is_serde_path(plain, segments@) {
                match segments@[0].args {
                    SegmentArgs::Angle { args, .. } => args@.len() == 1 && !(args@[0] is NonType),
                    _ => false,
                }
            } else {
                hint_in_segments(segments@)
            }
        },
        TypeNode::Tuple { elems, .. } => hint_in_list(elems@),
        TypeNode::Wrapped { elem, .. } => has_hint(*elem),
        _ => false,
    }
}

/// Whether any of the types holds a hint.
pub open spec fn hint_in_list<L>(ts: Seq<TypeNode<L>>) -> bool
    decreases ts, 0int,
{
    if ts.len() == 0 {
        false
    } else {
        has_hint(ts[0]) || hint_in_list(ts.subrange(1, ts.len() as int))
    }
}

/// Whether the type arguments of any segment hold a hint.
pub open spec fn hint_in_segments<L>(ss: Seq<Segment<L>>) -> bool
    decreases ss, 0int,
{
    if ss.len() == 0 {
        false
    } else {
        (match ss[0].args {
            SegmentArgs::Angle { args, .. } => hint_in_list(args@),
            _ => false,
        }) || hint_in_segments(ss.subrange(1, ss.len() as int))
    }
}

/// `r` is `t` with its `serde<T>` hints replaced by `T`.
///
/// A plain path `serde<T>` becomes `T` (not looked into further); a
/// `serde<...>` whose single argument is not a type loses its arguments;
/// other `serde` paths are left alone. Other plain paths have the type
/// arguments of their segments rewritten; tuples, arrays, groups,
/// parentheses, references and slices have their element types rewritten.
pub open spec fn folded<L>(t: TypeNode<L>, r: TypeNode<L>) -> bool
    decreases t, 1int,
{
    match t {
        TypeNode::Path { plain, segments, raw } => {
            if !plain {
                r == t
            } else if is_serde_path(plain, segments@) {
                match segments@[0].args {
                    SegmentArgs::Angle { args, raw: araw } => {
                        if args@.len() != 1 {
                            r == t
                        } else if args@[0] is NonType {
                            match r {
                                TypeNode::Path { plain: p2, segments: s2, raw: r2 } => {
                                    &&& p2 == plain
                                    &&& r2 == raw
                                    &&& s2@.len() == 1
                                    &&& s2@[0].ident == segments@[0].ident
                                    &&& s2@[0].raw == segments@[0].raw
                                    &&& match s2@[0].args {
                                        SegmentArgs::Angle { args: a2, raw: ar2 } => a2@.len()
                                            == 0 && ar2 == araw,
                                        _ => false,
                                    }
                                },
                                _ => false,
                            }
                        } else {
                            r == args@[0]
                        }
                    },
                    _ => r == t,
                }
            } else {
                r matches TypeNode::Path { plain: p2, segments: s2, raw: r2 } && p2 == plain && r2
                    == raw && folded_segments(segments@, s2@)
            }
        },
        TypeNode::Tuple { elems, raw } => r matches TypeNode::Tuple { elems: e2, raw: r2 } && r2
            == raw && folded_list(elems@, e2@),
        TypeNode::Wrapped { kind, elem, raw } => r matches TypeNode::Wrapped {
            kind: k2,
            elem: b2,
            raw: r2,
        } && k2 == kind && r2 == raw && folded(*elem, *b2),
        _ => r == t,
    }
}

/// The types of `rs` are those of `ts`, rewritten one by one.
pub open spec fn folded_list<L>(ts: Seq<TypeNode<L>>, rs: Seq<TypeNode<L>>) -> bool
    decreases ts, 0int,
{
    ts.len() == rs.len() && (ts.len() == 0 || (folded(ts[0], rs[0]) && folded_list(
        ts.subrange(1, ts.len() as int),
        rs.subrange(1, rs.len() as int),
    )))
}

/// The segments of `rs` are those of `ts` with their type arguments
/// rewritten.
pub open spec fn folded_segments<L>(ss: Seq<Segment<L>>, rs: Seq<Segment<L>>) -> bool
    decreases ss, 0int,
{
    ss.len() == rs.len() && (ss.len() == 0 || (rs[0].ident == ss[0].ident && rs[0].raw
        == ss[0].raw && (match ss[0].args {
        SegmentArgs::Angle { args, raw } => rs[0].args matches SegmentArgs::Angle {
            args: a2,
            raw: r2,
        } && r2 == raw && folded_list(args@, a2@),
        _ => rs[0].args == ss[0].args,
    }) && folded_segments(ss.subrange(1, ss.len() as int), rs.subrange(1, rs.len() as int))))
}


/// Lists related one by one by `folded` are related by [`folded_list`].
proof fn lemma_folded_list<L>(ts: Seq<TypeNode<L>>, rs: Seq<TypeNode<L>>)
    requires
        ts.len() == rs.len(),
        forall|j: int| 0 <= j < ts.len() ==> #[trigger] folded(ts[j], rs[j]),
    ensures
        folded_list(ts, rs),
    decreases ts.len(),
{
    if ts.len() > 0 {
        let a = ts.subrange(1, ts.len() as int);
        let b = rs.subrange(1, rs.len() as int);
        assert forall|j: int| 0 <= j < a.len() implies #[trigger] folded(a[j], b[j]) by {
            assert(folded(ts[j + 1], rs[j + 1]));
        }
        lemma_folded_list(a, b);
        assert(folded(ts[0], rs[0]));
    }
}

/// One segment is rewritten into another.
pub open spec fn folded_segment<L>(s: Segment<L>, r: Segment<L>) -> bool {
    r.ident == s.ident && r.raw == s.raw && (match s.args {
        SegmentArgs::Angle { args, raw } => r.args matches SegmentArgs::Angle { args: a2, raw: r2 }
            && r2 == raw && folded_list(args@, a2@),
        _ => r.args == s.args,
    })
}

/// Segments related one by one are related by [`folded_segments`].
proof fn lemma_folded_segments<L>(ss: Seq<Segment<L>>, rs: Seq<Segment<L>>)
    requires
        ss.len() == rs.len(),
        forall|j: int| 0 <= j < ss.len() ==> #[trigger] folded_segment(ss[j], rs[j]),
    ensures
        folded_segments(ss, rs),
    decreases ss.len(),
{
    if ss.len() > 0 {
        let a = ss.subrange(1, ss.len() as int);
        let b = rs.subrange(1, rs.len() as int);
        assert forall|j: int| 0 <= j < a.len() implies #[trigger] folded_segment(a[j], b[j]) by {
            assert(folded_segment(ss[j + 1], rs[j + 1]));
        }
        lemma_folded_segments(a, b);
        assert(folded_segment(ss[0], rs[0]));
    }
}

/// Rewrites the `serde<T>` hints of a type (see [`folded`]) and tells
/// whether there was one.
pub fn fold_type_hint<L>(t: TypeNode<L>) -> (r: (TypeNode<L>, bool))
    ensures
        folded(t, r.0),
        r.1 == has_hint(t),
    decreases t, 1int,
{
    match t {
        TypeNode::Path { plain, segments, raw } => {
            if !plain {
                return (TypeNode::Path { plain, segments, raw }, false);
            }
            if segments.len() == 1 && str_eq(segments[0].ident.as_str(), "serde") {
                let single = match &segments[0].args {
                    SegmentArgs::Angle { args, .. } => args.len() == 1,
                    _ => false,
                };
                if !single {
                    return (TypeNode::Path { plain, segments, raw }, false);
                }
                let ghost segs = segments@;
                let mut segments = segments;
                let seg = segments.pop().unwrap();
                assert(seg == segs[0]);
                let Segment { ident, args, raw: sraw } = seg;
                match args {
                    SegmentArgs::Angle { args: a, raw: araw } => {
                        let ghost av = a@;
                        let mut a = a;
                        let inner = a.pop().unwrap();
                        assert(inner == av[0]);
                        match inner {
                            TypeNode::NonType { raw: _ } => {
                                let mut s2: Vec<Segment<L>> = Vec::new();
                                s2.push(
                                    Segment {
                                        ident,
                                        args: SegmentArgs::Angle { args: Vec::new(), raw: araw },
                                        raw: sraw,
                                    },
                                );
                                (TypeNode::Path { plain, segments: s2, raw }, false)
                            },
                            other => (other, true),
                        }
                    },
                    _ => {
                        // ruled out above
                        (TypeNode::Path { plain, segments: Vec::new(), raw }, false)
                    },
                }
            } else {
                let ghost orig = segments;
                let (s2, found) = fold_segments(segments);
                proof {
                    assert(decreases_to!(t => orig));
                }
                (TypeNode::Path { plain, segments: s2, raw }, found)
            }
        },
        TypeNode::Tuple { elems, raw } => {
            let ghost orig = elems;
            proof {
                assert(decreases_to!(t => orig));
            }
            let (e2, found) = fold_type_list(elems);
            (TypeNode::Tuple { elems: e2, raw }, found)
        },
        TypeNode::Wrapped { kind, elem, raw } => {
            let ghost orig = elem;
            proof {
                assert(decreases_to!(t => *orig));
            }
            let (e2, found) = fold_type_hint(*elem);
            (TypeNode::Wrapped { kind, elem: Box::new(e2), raw }, found)
        },
        TypeNode::Opaque { raw } => (TypeNode::Opaque { raw }, false),
        TypeNode::NonType { raw } => (TypeNode::NonType { raw }, false),
    }
}

/// Rewrites the hints of each type of a list.
pub fn fold_type_list<L>(items: Vec<TypeNode<L>>) -> (r: (Vec<TypeNode<L>>, bool))
    ensures
        folded_list(items@, r.0@),
        r.1 == hint_in_list(items@),
    decreases items, 0int,
{
    let ghost orig = items;
    let mut v = items;
    let mut out: Vec<TypeNode<L>> = Vec::new();
    let mut found = false;
    let n = v.len();
    while v.len() > 0
        invariant
            out@.len() + v@.len() == n,
            n == orig@.len(),
            orig == items,
            v@ == orig@.subrange(out@.len() as int, n as int),
            forall|j: int| 0 <= j < out@.len() ==> #[trigger] folded(orig@[j], out@[j]),
            hint_in_list(orig@) == (found || hint_in_list(v@)),
        decreases v@.len(),
    {
        let k = out.len();
        let ghost before = v@;
        let e = v.remove(0);
        assert(e == orig@[k as int]);
        assert(v@ =~= before.subrange(1, before.len() as int));
        proof {
            assert(decreases_to!(orig => orig[k as int]));
        }
        let (f, h) = fold_type_hint(e);
        found = found || h;
        out.push(f);
    }
    proof {
        lemma_folded_list(orig@, out@);
    }
    (out, found)
}

/// Rewrites the hints in the type arguments of each segment.
pub fn fold_segments<L>(segs: Vec<Segment<L>>) -> (r: (Vec<Segment<L>>, bool))
    ensures
        folded_segments(segs@, r.0@),
        r.1 == hint_in_segments(segs@),
    decreases segs, 0int,
{
    let ghost orig = segs;
    let mut v = segs;
    let mut out: Vec<Segment<L>> = Vec::new();
    let mut found = false;
    let n = v.len();
    while v.len() > 0
        invariant
            out@.len() + v@.len() == n,
            n == orig@.len(),
            orig == segs,
            v@ == orig@.subrange(out@.len() as int, n as int),
            forall|j: int| 0 <= j < out@.len() ==> #[trigger] folded_segment(orig@[j], out@[j]),
            hint_in_segments(orig@) == (found || hint_in_segments(v@)),
        decreases v@.len(),
    {
        let k = out.len();
        let ghost before = v@;
        let s = v.remove(0);
        assert(s == orig@[k as int]);
        assert(v@ =~= before.subrange(1, before.len() as int));
        let Segment { ident, args, raw } = s;
        match args {
            SegmentArgs::Angle { args: a, raw: araw } => {
                let ghost ga = a;
                proof {
                    assert(decreases_to!(orig => orig[k as int]));
                    assert(decreases_to!(orig[k as int] => orig[k as int].args));
                    assert(decreases_to!(orig => ga));
                }
                let (a2, h) = fold_type_list(a);
                found = found || h;
                out.push(Segment { ident, args: SegmentArgs::Angle { args: a2, raw: araw }, raw });
            },
            SegmentArgs::Absent => {
                out.push(Segment { ident, args: SegmentArgs::Absent, raw });
            },
            SegmentArgs::Parenthesized { raw: praw } => {
                out.push(Segment { ident, args: SegmentArgs::Parenthesized { raw: praw }, raw });
            },
        }
    }
    proof {
        lemma_folded_segments(orig@, out@);
    }
    (out, found)
}


// ---------------------------------------------------------------------
// `v8::Global<...>` values

/// A plain two-segment path starting with a bare `v8`.
pub open spec fn is_v8_path<L>(plain: bool, segments: Seq<Segment<L>>) -> bool {
    plain && segments.len() == 2 && segments[0].ident@ == "v8"@ && segments[0].args is Absent
}

/// Whether the type is, or holds where the rules look, a `v8::...` path:
/// a path itself, an element of a tuple, or the element of an array,
/// group, parenthesized, reference or slice type.
pub open spec fn mentions_v8<L>(t: TypeNode<L>) -> bool
    decreases t, 1int,
{
    match t {
        TypeNode::Path { plain, segments, .. } => is_v8_path(plain, segments@),
        TypeNode::Tuple { elems, .. } => v8_in_list(elems@),
        TypeNode::Wrapped { elem, .. } => mentions_v8(*elem),
        _ => false,
    }
}

/// Whether any of the types mentions a `v8::...` path.
pub open spec fn v8_in_list<L>(ts: Seq<TypeNode<L>>) -> bool
    decreases ts, 0int,
{
    if ts.len() == 0 {
        false
    } else {
        mentions_v8(ts[0]) || v8_in_list(ts.subrange(1, ts.len() as int))
    }
}

/// Whether the `v8::...` path found is not `v8::Global<...>`: the path
/// itself, or under an array, group, parenthesized, reference or slice type
/// (tuple elements are not checked).
pub open spec fn v8_misused<L>(t: TypeNode<L>) -> bool
    decreases t,
{
    match t {
        TypeNode::Path { plain, segments, .. } => is_v8_path(plain, segments@) && !(segments@[1].ident@
            == "Global"@ && !args_empty(segments@[1].args)),
        TypeNode::Wrapped { elem, .. } => v8_misused(*elem),
        _ => false,
    }
}

/// Tells whether a type mentions a `v8::...` path ([`mentions_v8`]) and
/// whether that path is misused ([`v8_misused`]).
pub fn has_v8_global<L>(t: &TypeNode<L>) -> (r: (bool, bool))
    ensures
        r.0 == mentions_v8(*t),
        r.1 == v8_misused(*t),
    decreases t, 1int,
{
    match t {
        TypeNode::Path { plain, segments, .. } => {
            let is_v8 = *plain && segments.len() == 2 && str_eq(segments[0].ident.as_str(), "v8")
                && match &segments[0].args {
                SegmentArgs::Absent => true,
                _ => false,
            };
            if !is_v8 {
                return (false, false);
            }
            let global = str_eq(segments[1].ident.as_str(), "Global") && match &segments[1].args {
                SegmentArgs::Absent => false,
                SegmentArgs::Angle { args, .. } => args.len() != 0,
                SegmentArgs::Parenthesized { .. } => true,
            };
            (true, !global)
        },
        TypeNode::Tuple { elems, .. } => {
            proof {
                assert(decreases_to!(t => elems));
            }
            (any_v8(elems), false)
        },
        TypeNode::Wrapped { elem, .. } => {
            proof {
                assert(decreases_to!(t => **elem));
            }
            has_v8_global(&**elem)
        },
        _ => (false, false),
    }
}

/// Whether any of the types mentions a `v8::...` path.
pub fn any_v8<L>(items: &Vec<TypeNode<L>>) -> (r: bool)
    ensures
        r == v8_in_list(items@),
    decreases items, 0int,
{
    let n = items.len();
    let mut i: usize = 0;
    assert(items@.subrange(0, n as int) =~= items@);
    while i < n
        invariant
            n == items@.len(),
            i <= n,
            v8_in_list(items@) == v8_in_list(items@.subrange(i as int, n as int)),
        decreases n - i,
    {
        let ghost rest = items@.subrange(i as int, n as int);
        assert(rest.subrange(1, rest.len() as int) =~= items@.subrange(i + 1, n as int));
        proof {
            assert(decreases_to!(items => items[i as int]));
        }
        let (found, _) = has_v8_global(&items[i]);
        if found {
            return true;
        }
        i = i + 1;
    }
    false
}

/// The type is the empty tuple `()` with the given syntax.
pub open spec fn is_unit_tuple<L>(t: TypeNode<L>, unit: L) -> bool {
    match t {
        TypeNode::Tuple { elems, raw } => elems@.len() == 0 && raw == unit,
        _ => false,
    }
}

/// How a value of a Rust type crosses into JavaScript and back.
pub enum V8Conv<L> {
    /// Through the `ToV8` / `FromV8` traits.
    Trait { ty: TypeNode<L> },
    /// As a `v8::Global<...>` handle, cast to the right value type.
    Value { ty: TypeNode<L> },
    /// Through `serde_v8` (the type was written `serde<T>`).
    Serde { ty: TypeNode<L> },
}

impl<L> V8Conv<L> {
    /// The Rust type used in the generated signature.
    pub open spec fn spec_ty(self) -> TypeNode<L> {
        match self {
            V8Conv::Trait { ty } => ty,
            V8Conv::Value { ty } => ty,
            V8Conv::Serde { ty } => ty,
        }
    }

    /// See [`Self::spec_ty`].
    pub fn as_type(&self) -> (r: &TypeNode<L>)
        ensures
            *r == self.spec_ty(),
    {
        match self {
            V8Conv::Trait { ty } => ty,
            V8Conv::Value { ty } => ty,
            V8Conv::Serde { ty } => ty,
        }
    }

    /// Decides the conversion of a type: a type with a `serde<T>` hint goes
    /// through serde; else one that mentions `v8::...` is a v8 value (and
    /// an error when that path is not `v8::Global<...>`); else the
    /// conversion traits are used. The type kept is the rewritten one
    /// ([`folded`]).
    pub fn from_type(t: TypeNode<L>) -> (r: Caveat<V8Conv<L>>)
        ensures
            converts(t, r.0),
            conversion_error(t) ==> (r.1@.len() == 1 && r.1@[0].message@
                == "expected `v8::Global<v8::...>`"@ && r.1@[0].location@.len() == 0),
            !conversion_error(t) ==> r.1@.len() == 0,
    {
        let (ty, hint) = fold_type_hint(t);
        let mut errors: Vec<Diagnostic> = Vec::new();
        if hint {
            return Caveat(V8Conv::Serde { ty }, errors);
        }
        let (v8, misused) = has_v8_global(&ty);
        proof {
            lemma_fold_keeps_v8(t, ty);
        }
        if v8 {
            if misused {
                errors.push(Diagnostic::custom("expected `v8::Global<v8::...>`"));
            }
            Caveat(V8Conv::Value { ty }, errors)
        } else {
            Caveat(V8Conv::Trait { ty }, errors)
        }
    }

    /// The conversion of a function's return type; no return type is the
    /// unit tuple `()`, whose syntax is `unit`.
    pub fn from_output(output: Option<TypeNode<L>>, unit: L) -> (r: Caveat<V8Conv<L>>)
        ensures
            output is None ==> r.0 is Trait && r.1@.len() == 0 && is_unit_tuple(r.0.spec_ty(), unit),
            output matches Some(t) ==> converts(t, r.0) && (conversion_error(t) ==> (r.1@.len() == 1
                && r.1@[0].message@ == "expected `v8::Global<v8::...>`"@ && r.1@[0].location@.len()
                == 0)) && (!conversion_error(t) ==> r.1@.len() == 0),
    {
        match output {
            Some(ty) => V8Conv::from_type(ty),
            None => {
                let empty: Vec<TypeNode<L>> = Vec::new();
                let ghost ev = empty@;
                assert(ev.len() == 0);
                assert(!hint_in_list(ev));
                assert(!v8_in_list(ev));
                let unit_ty = TypeNode::Tuple { elems: empty, raw: unit };
                assert(!has_hint(unit_ty));
                let r = V8Conv::from_type(unit_ty);
                proof {
                    let ty = r.0.spec_ty();
                    assert(folded(unit_ty, ty));
                    assert(ty is Tuple);
                    assert(folded_list(ev, ty->Tuple_elems@));
                    assert(ty->Tuple_elems@.len() == 0);
                    assert(!v8_in_list(ty->Tuple_elems@));
                    assert(!mentions_v8(ty));
                }
                r
            },
        }
    }

    /// The `T` of a `v8::Global<T>` value type: the single type argument
    /// of the second segment of a plain path.
    pub open spec fn spec_inner_type(self) -> Option<TypeNode<L>> {
        match self {
            V8Conv::Value { ty: TypeNode::Path { plain, segments, .. } } => {
                if plain && segments@.len() >= 2 {
                    match segments@[1].args {
                        SegmentArgs::Angle { args, .. } => {
                            if args@.len() == 1 && !(args@[0] is NonType) {
                                Some(args@[0])
                            } else {
                                None
                            }
                        },
                        _ => None,
                    }
                } else {
                    None
                }
            },
            _ => None,
        }
    }

    /// See [`Self::spec_inner_type`].
    pub fn to_inner_type(&self) -> (r: Option<&TypeNode<L>>)
        ensures
            r is Some <==> self.spec_inner_type() is Some,
            r matches Some(inner) ==> self.spec_inner_type() == Some(*inner),
    {
        match self {
            V8Conv::Value { ty } => match ty {
                TypeNode::Path { plain, segments, .. } => {
                    if !*plain || segments.len() < 2 {
                        return None;
                    }
                    match &segments[1].args {
                        SegmentArgs::Angle { args, .. } => {
                            if args.len() != 1 {
                                return None;
                            }
                            match &args[0] {
                                TypeNode::NonType { .. } => None,
                                inner => Some(inner),
                            }
                        },
                        _ => None,
                    }
                },
                _ => None,
            },
            _ => None,
        }
    }
}


/// Rewriting the hints of a type that has none keeps what the rules see of
/// `v8::...` paths.
pub proof fn lemma_fold_keeps_v8<L>(t: TypeNode<L>, r: TypeNode<L>)
    requires
        folded(t, r),
        !has_hint(t),
    ensures
        mentions_v8(r) == mentions_v8(t),
        v8_misused(r) == v8_misused(t),
    decreases t, 1int,
{
    match t {
        TypeNode::Path { plain, segments, raw } => {
            if plain && !is_serde_path(plain, segments@) {
                let s2 = r->Path_segments;
                lemma_fold_segments_keep_shape(segments@, s2@);
            }
        },
        TypeNode::Tuple { elems, raw } => {
            lemma_fold_list_keeps_v8(elems@, r->Tuple_elems@);
        },
        TypeNode::Wrapped { kind, elem, raw } => {
            assert(decreases_to!(t => *elem));
            lemma_fold_keeps_v8(*elem, *r->Wrapped_elem);
        },
        _ => {},
    }
}

/// See [`lemma_fold_keeps_v8`], for lists.
proof fn lemma_fold_list_keeps_v8<L>(ts: Seq<TypeNode<L>>, rs: Seq<TypeNode<L>>)
    requires
        folded_list(ts, rs),
        !hint_in_list(ts),
    ensures
        v8_in_list(rs) == v8_in_list(ts),
    decreases ts, 0int,
{
    if ts.len() > 0 {
        lemma_fold_keeps_v8(ts[0], rs[0]);
        lemma_fold_list_keeps_v8(ts.subrange(1, ts.len() as int), rs.subrange(1, rs.len() as int));
    }
}

/// Rewriting segments keeps their names, their number, and the number of
/// type arguments of each.
pub proof fn lemma_fold_segments_keep_shape<L>(ss: Seq<Segment<L>>, rs: Seq<Segment<L>>)
    requires
        folded_segments(ss, rs),
    ensures
        rs.len() == ss.len(),
        forall|i: int|
            0 <= i < ss.len() ==> (#[trigger] rs[i]).ident == ss[i].ident && (rs[i].args is Absent
                <==> ss[i].args is Absent) && args_empty(rs[i].args) == args_empty(ss[i].args),
    decreases ss.len(),
{
    if ss.len() > 0 {
        let a = ss.subrange(1, ss.len() as int);
        let b = rs.subrange(1, rs.len() as int);
        lemma_fold_segments_keep_shape(a, b);
        assert forall|i: int|
            0 <= i < ss.len() implies (#[trigger] rs[i]).ident == ss[i].ident && (rs[i].args is Absent
                <==> ss[i].args is Absent) && args_empty(rs[i].args) == args_empty(ss[i].args) by {
            if i > 0 {
                assert(rs[i] == b[i - 1]);
                assert(ss[i] == a[i - 1]);
            } else {
                match ss[0].args {
                    SegmentArgs::Angle { args, raw } => {
                        let a2 = rs[0].args->Angle_args;
                        assert(folded_list(args@, a2@));
                    },
                    _ => {},
                }
            }
        }
    }
}

/// What the rules make of a type: `c` is the conversion decided for `t`
/// (see [`V8Conv::from_type`]).
pub open spec fn converts<L>(t: TypeNode<L>, c: V8Conv<L>) -> bool {
    &&& folded(t, c.spec_ty())
    &&& has_hint(t) ==> c is Serde
    &&& !has_hint(t) && mentions_v8(t) ==> c is Value
    &&& !has_hint(t) && !mentions_v8(t) ==> c is Trait
}

/// Whether the conversion of `t` reports that its `v8::...` path is not
/// `v8::Global<...>`.
pub open spec fn conversion_error<L>(t: TypeNode<L>) -> bool {
    !has_hint(t) && mentions_v8(t) && v8_misused(t)
}


/// A list holds a hint exactly when one of its types does.
proof fn lemma_hint_in_list<L>(ts: Seq<TypeNode<L>>)
    ensures
        hint_in_list(ts) <==> exists|i: int| 0 <= i < ts.len() && #[trigger] has_hint(ts[i]),
    decreases ts.len(),
{
    if ts.len() > 0 {
        let rest = ts.subrange(1, ts.len() as int);
        lemma_hint_in_list(rest);
        if hint_in_list(ts) && !has_hint(ts[0]) {
            let j = choose|j: int| 0 <= j < rest.len() && #[trigger] has_hint(rest[j]);
            assert(has_hint(ts[j + 1]));
        }
        if exists|i: int| 0 <= i < ts.len() && #[trigger] has_hint(ts[i]) {
            let i = choose|i: int| 0 <= i < ts.len() && #[trigger] has_hint(ts[i]);
            if i > 0 {
                assert(has_hint(rest[i - 1]));
            }
        }
    }
}

/// Lists related by [`folded_list`] are related one by one.
proof fn lemma_folded_list_at<L>(ts: Seq<TypeNode<L>>, rs: Seq<TypeNode<L>>, i: int)
    requires
        folded_list(ts, rs),
        0 <= i < ts.len(),
    ensures
        rs.len() == ts.len(),
        folded(ts[i], rs[i]),
    decreases i,
{
    if i > 0 {
        lemma_folded_list_at(ts.subrange(1, ts.len() as int), rs.subrange(1, rs.len() as int), i - 1);
    }
}

/// The type is the hint `serde<inner>`: a plain path of the one segment
/// `serde` with the single type argument `inner`.
pub open spec fn is_serde_of<L>(t: TypeNode<L>, inner: TypeNode<L>) -> bool {
    &&& t matches TypeNode::Path { plain: true, segments, .. }
    &&& t->Path_segments@.len() == 1
    &&& t->Path_segments@[0].ident@ == "serde"@
    &&& t->Path_segments@[0].args matches SegmentArgs::Angle { args, .. }
    &&& t->Path_segments@[0].args->Angle_args@ == seq![inner]
    &&& !(inner is NonType)
}

/// A tuple holds a `serde<T>` hint exactly when one of its elements does.
pub proof fn lemma_tuple_hint<L>(elems: Vec<TypeNode<L>>, raw: L)
    ensures
        has_hint(TypeNode::Tuple { elems, raw }) <==> exists|i: int|
            0 <= i < elems@.len() && #[trigger] has_hint(elems@[i]),
{
    lemma_hint_in_list(elems@);
}

/// A tuple with a `serde<T>` element crosses through serde, and that
/// element becomes `T`: the hints inside a tuple are taken off.
pub proof fn lemma_tuple_with_serde_element<L>(
    elems: Vec<TypeNode<L>>,
    raw: L,
    i: int,
    inner: TypeNode<L>,
    c: V8Conv<L>,
)
    requires
        0 <= i < elems@.len(),
        is_serde_of(elems@[i], inner),
        converts(TypeNode::Tuple { elems, raw }, c),
    ensures
        c is Serde,
        c.spec_ty() matches TypeNode::Tuple { elems: e2, raw: r2 } && r2 == raw && e2@.len()
            == elems@.len() && e2@[i] == inner,
{
    let t = elems@[i];
    assert(has_hint(t));
    lemma_tuple_hint(elems, raw);
    let e2 = c.spec_ty()->Tuple_elems;
    lemma_folded_list_at(elems@, e2@, i);
}

/// Looking through an array, group, parenthesized, reference or slice
/// type: when its element type is a v8 value, so is the wrapped type
/// (`&[v8::Global<v8::Value>]` is a v8 value), and the wrapped type's
/// conversion reports an error exactly when its element's does.
pub proof fn lemma_wrapped_v8_value<L>(
    kind: WrapKind,
    elem: TypeNode<L>,
    raw: L,
    c_elem: V8Conv<L>,
    c: V8Conv<L>,
)
    requires
        converts(elem, c_elem),
        converts(TypeNode::Wrapped { kind, elem: Box::new(elem), raw }, c),
    ensures
        c_elem is Value ==> c is Value,
        conversion_error(TypeNode::Wrapped { kind, elem: Box::new(elem), raw }) == conversion_error(
            elem,
        ),
{
}

/// A `v8::Global<T>` path is a v8 value, with no error.
pub proof fn lemma_global_is_value<L>(t: TypeNode<L>, c: V8Conv<L>)
    requires
        t matches TypeNode::Path { plain: true, segments, .. },
        t->Path_segments@.len() == 2,
        t->Path_segments@[0].ident@ == "v8"@,
        t->Path_segments@[0].args is Absent,
        t->Path_segments@[1].ident@ == "Global"@,
        t->Path_segments@[1].args matches SegmentArgs::Angle { args, .. },
        t->Path_segments@[1].args->Angle_args@.len() == 1,
        !(t->Path_segments@[1].args->Angle_args@[0] is NonType),
        !has_hint(t),
        converts(t, c),
    ensures
        c is Value,
        !conversion_error(t),
{
}


/// A list mentions `v8::...` exactly when one of its types does.
proof fn lemma_v8_in_list<L>(ts: Seq<TypeNode<L>>)
    ensures
        v8_in_list(ts) <==> exists|i: int| 0 <= i < ts.len() && #[trigger] mentions_v8(ts[i]),
    decreases ts.len(),
{
    if ts.len() > 0 {
        let rest = ts.subrange(1, ts.len() as int);
        lemma_v8_in_list(rest);
        if v8_in_list(ts) && !mentions_v8(ts[0]) {
            let j = choose|j: int| 0 <= j < rest.len() && #[trigger] mentions_v8(rest[j]);
            assert(mentions_v8(ts[j + 1]));
        }
        if exists|i: int| 0 <= i < ts.len() && #[trigger] mentions_v8(ts[i]) {
            let i = choose|i: int| 0 <= i < ts.len() && #[trigger] mentions_v8(ts[i]);
            if i > 0 {
                assert(mentions_v8(rest[i - 1]));
            }
        }
    }
}

/// A tuple without hints, one of whose elements is a v8 value, is a v8
/// value.
pub proof fn lemma_tuple_with_v8_element<L>(
    elems: Vec<TypeNode<L>>,
    raw: L,
    i: int,
    c_elem: V8Conv<L>,
    c: V8Conv<L>,
)
    requires
        0 <= i < elems@.len(),
        forall|j: int| 0 <= j < elems@.len() ==> !#[trigger] has_hint(elems@[j]),
        converts(elems@[i], c_elem),
        c_elem is Value,
        converts(TypeNode::Tuple { elems, raw }, c),
    ensures
        c is Value,
{
    lemma_tuple_hint(elems, raw);
    lemma_v8_in_list(elems@);
    assert(mentions_v8(elems@[i]));
}

/// A `serde<T>` under an array, group, parenthesized, reference or slice
/// type makes the wrapped type cross through serde, with `T` in its place.
pub proof fn lemma_wrapped_serde_element<L>(
    kind: WrapKind,
    elem: TypeNode<L>,
    raw: L,
    inner: TypeNode<L>,
    c: V8Conv<L>,
)
    requires
        is_serde_of(elem, inner),
        converts(TypeNode::Wrapped { kind, elem: Box::new(elem), raw }, c),
    ensures
        c is Serde,
        c.spec_ty() matches TypeNode::Wrapped { kind: k2, elem: e2, raw: r2 } && k2 == kind && r2
            == raw && *e2 == inner,
{
    assert(elem->Path_segments@[0].args->Angle_args@[0] == inner);
    assert(has_hint(elem));
    let e2 = c.spec_ty()->Wrapped_elem;
    assert(folded(elem, *e2));
}

/// Segments hold a hint exactly when one segment's type arguments do.
proof fn lemma_hint_in_segments<L>(ss: Seq<Segment<L>>, j: int)
    requires
        0 <= j < ss.len(),
        ss[j].args is Angle,
        hint_in_list(ss[j].args->Angle_args@),
    ensures
        hint_in_segments(ss),
    decreases j,
{
    if j > 0 {
        lemma_hint_in_segments(ss.subrange(1, ss.len() as int), j - 1);
    }
}

/// Segments related by [`folded_segments`] are related one by one.
proof fn lemma_folded_segments_at<L>(ss: Seq<Segment<L>>, rs: Seq<Segment<L>>, j: int)
    requires
        folded_segments(ss, rs),
        0 <= j < ss.len(),
    ensures
        rs.len() == ss.len(),
        folded_segment(ss[j], rs[j]),
    decreases j,
{
    if j > 0 {
        lemma_folded_segments_at(ss.subrange(1, ss.len() as int), rs.subrange(1, rs.len() as int), j - 1);
    }
}

/// A `serde<T>` among the type arguments of a path (`Vec<serde<T>>`)
/// makes the path cross through serde, with `T` in its place.
pub proof fn lemma_path_with_serde_argument<L>(t: TypeNode<L>, j: int, q: int, inner: TypeNode<L>, c: V8Conv<L>)
    requires
        t matches TypeNode::Path { plain: true, segments, .. },
        !is_serde_path(true, t->Path_segments@),
        0 <= j < t->Path_segments@.len(),
        t->Path_segments@[j].args is Angle,
        0 <= q < t->Path_segments@[j].args->Angle_args@.len(),
        is_serde_of(t->Path_segments@[j].args->Angle_args@[q], inner),
        converts(t, c),
    ensures
        c is Serde,
        c.spec_ty() is Path,
        c.spec_ty()->Path_segments@.len() == t->Path_segments@.len(),
        c.spec_ty()->Path_segments@[j].args is Angle,
        c.spec_ty()->Path_segments@[j].args->Angle_args@[q] == inner,
{
    let ss = t->Path_segments@;
    let args = ss[j].args->Angle_args@;
    assert(has_hint(args[q]));
    lemma_hint_in_list(args);
    lemma_hint_in_segments(ss, j);
    let s2 = c.spec_ty()->Path_segments@;
    lemma_folded_segments_at(ss, s2, j);
    lemma_folded_list_at(args, s2[j].args->Angle_args@, q);
}

} // verus!
