//! The name of the hidden module that holds the code generated for an item.

use vstd::prelude::*;

use crate::text::{concat2, lowercase_of, snake_case_of, to_lowercase, to_snake_case};

verus! {

/// A token of the item, as far as its name is concerned.
pub enum TokenNode {
    /// An identifier, by its text.
    Ident(String),
    /// A delimited group, with the tokens inside it.
    Group(Vec<TokenNode>),
    /// A punctuation mark or a literal.
    Other,
}

/// The identifiers of a token, in order, looking into groups, each in
/// snake case.
pub open spec fn idents_of(t: TokenNode) -> Seq<Seq<char>>
    decreases t, 1int,
{
    match t {
        TokenNode::Ident(s) => seq![snake_case_of(s@)],
        TokenNode::Group(ts) => idents_in(ts@),
        TokenNode::Other => seq![],
    }
}

/// The identifiers of a token sequence, in order.
pub open spec fn idents_in(ts: Seq<TokenNode>) -> Seq<Seq<char>>
    decreases ts, 0int,
{
    if ts.len() == 0 {
        seq![]
    } else {
        idents_of(ts[0]) + idents_in(ts.subrange(1, ts.len() as int))
    }
}

/// The parts joined with `_` between them.
pub open spec fn join_underscore(parts: Seq<Seq<char>>) -> Seq<char>
    decreases parts.len(),
{
    if parts.len() == 0 {
        seq![]
    } else if parts.len() == 1 {
        parts[0]
    } else {
        join_underscore(parts.drop_last()) + "_"@ + parts.last()
    }
}

/// The name of the hidden module: `__bindgen_{prefix}_{identifiers}`, in
/// lower case.
pub open spec fn spec_inner_mod_name(prefix: Seq<char>, item: Seq<TokenNode>) -> Seq<char> {
    lowercase_of("__bindgen_"@ + prefix + "_"@ + join_underscore(idents_in(item)))
}

/// The name of the hidden module for an item whose only token is the
/// identifier `ident`.
pub open spec fn spec_ident_mod_name(prefix: Seq<char>, ident: Seq<char>) -> Seq<char> {
    lowercase_of("__bindgen_"@ + prefix + "_"@ + snake_case_of(ident))
}

/// The strings viewed as character sequences.
pub open spec fn texts(v: Seq<String>) -> Seq<Seq<char>> {
    v.map_values(|s: String| s@)
}

proof fn lemma_idents_in_split(ts: Seq<TokenNode>, i: int)
    requires
        0 <= i < ts.len(),
    ensures
        idents_in(ts.subrange(i, ts.len() as int)) == idents_of(ts[i]) + idents_in(
            ts.subrange(i + 1, ts.len() as int),
        ),
{
    let s = ts.subrange(i, ts.len() as int);
    assert(s.subrange(1, s.len() as int) =~= ts.subrange(i + 1, ts.len() as int));
}

/// Appends the identifiers of the tokens, each in snake case.
fn collect_idents(ts: &Vec<TokenNode>, out: &mut Vec<String>)
    ensures
        texts(final(out)@) == texts(old(out)@) + idents_in(ts@),
    decreases ts@, 0int,
{
    let n = ts.len();
    let mut i: usize = 0;
    let ghost start = texts(out@);
    assert(ts@.subrange(0, n as int) =~= ts@);
    while i < n
        invariant
            n == ts@.len(),
            i <= n,
            start + idents_in(ts@) == texts(out@) + idents_in(ts@.subrange(i as int, n as int)),
        decreases n - i,
    {
        proof {
            lemma_idents_in_split(ts@, i as int);
        }
        let ghost before = texts(out@);
        match &ts[i] {
            TokenNode::Ident(s) => {
                let snake = to_snake_case(s.as_str());
                out.push(snake);
                assert(texts(out@) =~= before + seq![snake_case_of(s@)]);
            },
            TokenNode::Group(inner) => {
                proof {
                    assert(decreases_to!(ts@ => ts@[i as int]));
                }
                collect_idents(inner, out);
            },
            TokenNode::Other => {
                assert(texts(out@) =~= before + seq![]);
            },
        }
        assert(start + idents_in(ts@) =~= texts(out@) + idents_in(
            ts@.subrange(i + 1, n as int),
        ));
        i = i + 1;
    }
    assert(idents_in(ts@.subrange(n as int, n as int)) =~= seq![]);
    assert(texts(out@) =~= start + idents_in(ts@));
}

/// The parts joined with `_`.
fn join_parts(parts: &Vec<String>) -> (r: String)
    ensures
        r@ == join_underscore(texts(parts@)),
{
    let n = parts.len();
    let mut out = String::new();
    let mut i: usize = 0;
    while i < n
        invariant
            n == parts@.len(),
            i <= n,
            out@ == join_underscore(texts(parts@.take(i as int))),
        decreases n - i,
    {
        assert(texts(parts@.take(i + 1)).drop_last() =~= texts(parts@.take(i as int)));
        assert(texts(parts@.take(i + 1)).last() == parts@[i as int]@);
        if i > 0 {
            out.append("_");
        } else {
            assert(out@ =~= seq![]);
        }
        out.append(parts[i].as_str());
        assert(out@ =~= join_underscore(texts(parts@.take(i + 1))));
        i = i + 1;
    }
    assert(parts@.take(n as int) =~= parts@);
    out
}

/// The name of the hidden module generated for an item: the identifiers of
/// the item's tokens in snake case, joined with `_`, after
/// `__bindgen_{prefix}_`, all in lower case.
pub fn inner_mod_name(prefix: &str, item: &Vec<TokenNode>) -> (r: String)
    ensures
        r@ == spec_inner_mod_name(prefix@, item@),
{
    let mut parts: Vec<String> = Vec::new();
    collect_idents(item, &mut parts);
    assert(texts(parts@) =~= idents_in(item@));
    let joined = join_parts(&parts);
    let mut name = concat2("__bindgen_", prefix);
    name.append("_");
    name.append(joined.as_str());
    to_lowercase(name.as_str())
}

/// The name of the hidden module for an item named `ident`.
pub fn ident_mod_name(prefix: &str, ident: &str) -> (r: String)
    ensures
        r@ == spec_ident_mod_name(prefix@, ident@),
{
    let s = String::from_str(ident);
    let ghost sv = s@;
    let mut tokens: Vec<TokenNode> = Vec::new();
    tokens.push(TokenNode::Ident(s));
    let r = inner_mod_name(prefix, &tokens);
    proof {
        let ts = tokens@;
        assert(ts.subrange(1, ts.len() as int) =~= Seq::<TokenNode>::empty());
        assert(idents_in(Seq::<TokenNode>::empty()) == Seq::<Seq<char>>::empty());
        assert(idents_of(ts[0]) == seq![snake_case_of(sv)]);
        assert(idents_in(ts) =~= seq![snake_case_of(ident@)]);
    }
    r
}

/// The visibility of an item.
pub enum Visibility {
    /// `pub`.
    Public,
    /// `pub(crate)`, `pub(self)`, `pub(super)` or `pub(in path)`: whether
    /// `in` is written, and the path's segments.
    Restricted { has_in: bool, path: Vec<String> },
    /// No visibility written: private.
    Inherited,
}

/// A visibility as values.
pub enum VisibilityView {
    Public,
    Restricted(bool, Seq<Seq<char>>),
    Inherited,
}

impl View for Visibility {
    type V = VisibilityView;

    open spec fn view(&self) -> VisibilityView {
        match self {
            Visibility::Public => VisibilityView::Public,
            Visibility::Restricted { has_in, path } => VisibilityView::Restricted(
                *has_in,
                texts(path@),
            ),
            Visibility::Inherited => VisibilityView::Inherited,
        }
    }
}

/// The visibility an item keeps when it is moved one module further in:
/// `pub` stays; a path from `super` gets one more `super` (and `in`);
/// another restriction stays; a private item becomes `pub(super)`.
pub open spec fn spec_pub_in_super(v: VisibilityView) -> VisibilityView {
    match v {
        VisibilityView::Public => VisibilityView::Public,
        VisibilityView::Restricted(has_in, path) => if path.len() > 0 && path[0] == "super"@ {
            VisibilityView::Restricted(true, seq!["super"@] + path)
        } else {
            VisibilityView::Restricted(has_in, path)
        },
        VisibilityView::Inherited => VisibilityView::Restricted(false, seq!["super"@]),
    }
}

/// See [`spec_pub_in_super`].
pub fn pub_in_super(vis: Visibility) -> (r: Visibility)
    ensures
        r@ == spec_pub_in_super(vis@),
{
    match vis {
        Visibility::Public => Visibility::Public,
        Visibility::Restricted { has_in, path } => {
            let from_super = path.len() > 0 && crate::text::str_eq(path[0].as_str(), "super");
            if from_super {
                let mut longer: Vec<String> = Vec::new();
                longer.push(String::from_str("super"));
                let ghost first = longer@;
                let mut rest = path;
                let ghost rv = rest@;
                longer.append(&mut rest);
                assert(longer@ == first + rv);
                assert(texts(longer@) =~= seq!["super"@] + texts(rv));
                Visibility::Restricted { has_in: true, path: longer }
            } else {
                Visibility::Restricted { has_in, path }
            }
        },
        Visibility::Inherited => {
            let path = vec![String::from_str("super")];
            assert(texts(path@) =~= seq!["super"@]);
            Visibility::Restricted { has_in: false, path }
        },
    }
}

} // verus!
