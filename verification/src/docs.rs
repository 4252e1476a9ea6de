//! The documentation preprocessor: which item links of a chapter are asked
//! of rust-analyzer, the source written to ask for them, and how the links
//! it gives back replace those of the chapter.

use vstd::prelude::*;

use crate::text::{concat2, str_eq};

verus! {

// ---------------------------------------------------------------------
// Small string helpers

/// The index of the first `c` in `s`.
pub open spec fn find_char(s: Seq<char>, c: char) -> Option<nat>
    decreases s.len(),
{
    if s.len() == 0 {
        None
    } else if s[0] == c {
        Some(0)
    } else {
        match find_char(s.subrange(1, s.len() as int), c) {
            Some(i) => Some(i + 1),
            None => None,
        }
    }
}

proof fn lemma_find_char(s: Seq<char>, c: char, i: nat)
    requires
        i <= s.len(),
        forall|j: int| 0 <= j < i ==> s[j] != c,
    ensures
        i < s.len() && s[i as int] == c ==> find_char(s, c) == Some(i),
        i == s.len() ==> find_char(s, c) is None,
    decreases i,
{
    if i > 0 {
        let t = s.subrange(1, s.len() as int);
        lemma_find_char(t, c, (i - 1) as nat);
    }
}

/// Finds the first `c` in `s`.
fn find_char_in(s: &str, c: char) -> (r: Option<usize>)
    ensures
        r matches Some(i) ==> find_char(s@, c) == Some(i as nat),
        r is None ==> find_char(s@, c) is None,
{
    let n = s.unicode_len();
    let mut i: usize = 0;
    while i < n
        invariant
            n == s@.len(),
            i <= n,
            forall|j: int| 0 <= j < i ==> s@[j] != c,
        decreases n - i,
    {
        if s.get_char(i) == c {
            proof {
                lemma_find_char(s@, c, i as nat);
            }
            return Some(i);
        }
        i = i + 1;
    }
    proof {
        lemma_find_char(s@, c, n as nat);
    }
    None
}

/// How many times `c` occurs in `s`.
pub open spec fn count_char(s: Seq<char>, c: char) -> nat
    decreases s.len(),
{
    if s.len() == 0 {
        0
    } else {
        count_char(s.drop_last(), c) + if s.last() == c {
            1nat
        } else {
            0nat
        }
    }
}

fn count_char_in(s: &str, c: char) -> (r: usize)
    ensures
        r == count_char(s@, c),
{
    let n = s.unicode_len();
    let mut i: usize = 0;
    let mut k: usize = 0;
    while i < n
        invariant
            n == s@.len(),
            i <= n,
            k == count_char(s@.take(i as int), c),
            k <= i,
        decreases n - i,
    {
        assert(s@.take(i + 1).drop_last() =~= s@.take(i as int));
        if s.get_char(i) == c {
            k = k + 1;
        }
        i = i + 1;
    }
    assert(s@.take(n as int) =~= s@);
    k
}

// ---------------------------------------------------------------------
// The preprocessor's name

/// The name mdBook knows the preprocessor by: the package name after its
/// first `-`, or the whole name when it has none.
pub open spec fn spec_preprocessor_name(package: Seq<char>) -> Seq<char> {
    match find_char(package, '-') {
        Some(i) => package.subrange(i + 1 as int, package.len() as int),
        None => package,
    }
}

/// See [`spec_preprocessor_name`].
pub fn preprocessor_name(package: &str) -> (r: String)
    ensures
        r@ == spec_preprocessor_name(package@),
{
    match find_char_in(package, '-') {
        Some(i) => {
            proof {
                lemma_find_char_bound(package@, '-');
            }
            let n = package.unicode_len();
            String::from_str(package.substring_char(i + 1, n))
        },
        None => String::from_str(package),
    }
}

proof fn lemma_find_char_bound(s: Seq<char>, c: char)
    ensures
        find_char(s, c) matches Some(i) ==> i < s.len() && s[i as int] == c,
    decreases s.len(),
{
    if s.len() > 0 {
        lemma_find_char_bound(s.subrange(1, s.len() as int), c);
    }
}

// ---------------------------------------------------------------------
// Item names

/// The start of an identifier: line (from 1) and column (from 0).
pub type IdentPos = (usize, usize);

/// The head of a Rust expression, as far as item names care.
#[derive(Clone, Copy)]
pub enum ExprHead {
    /// Not an expression.
    Invalid,
    /// A path: whether it has a `<T as Trait>::` qualifier, and the start
    /// of its last segment's identifier.
    Path(bool, Option<IdentPos>),
    /// A call; its callee's qualifier and identifier when the callee is a
    /// path.
    Call(Option<(bool, Option<IdentPos>)>),
    /// A macro call; the start of the last identifier of its path.
    Macro(Option<IdentPos>),
    /// Another kind of expression.
    Other,
}

/// Parses the text as a `syn::Expr` and gives its head.
///
/// Nothing is stated of the result: where `proc-macro2` places an
/// identifier depends on the process (the compiler's lexer inside a
/// procedural macro, its own lexer elsewhere, line 0 and column 0 on a
/// stable toolchain), so the same text need not give the same head twice.
#[verifier::external_body]
fn expr_head(text: &str) -> (r: ExprHead) {
    let at = |p: &syn::Path| p.segments.last().map(|s| s.ident.span().start()).map(|c| (c.line, c.column));
    match syn::parse_str(text) {
        Err(_) => ExprHead::Invalid,
        Ok(syn::Expr::Path(e)) => ExprHead::Path(e.qself.is_some(), at(&e.path)),
        Ok(syn::Expr::Call(e)) => ExprHead::Call(match *e.func {
            syn::Expr::Path(f) => Some((f.qself.is_some(), at(&f.path))),
            _ => None,
        }),
        Ok(syn::Expr::Macro(e)) => ExprHead::Macro(at(&e.mac.path)),
        Ok(_) => ExprHead::Other,
    }
}

/// The identifier an item name links to, when the name is an unqualified
/// path, a call of one, or a macro call: where it starts.
pub open spec fn item_ident(head: ExprHead) -> Option<IdentPos> {
    match head {
        ExprHead::Path(false, ident) => ident,
        ExprHead::Call(Some((false, ident))) => ident,
        ExprHead::Macro(ident) => ident,
        _ => None,
    }
}

/// See [`item_ident`].
pub fn ident_of_head(head: ExprHead) -> (r: Option<IdentPos>)
    ensures
        r == item_ident(head),
{
    match head {
        ExprHead::Path(false, ident) => ident,
        ExprHead::Call(Some((false, ident))) => ident,
        ExprHead::Macro(ident) => ident,
        _ => None,
    }
}

/// The column of an identifier that starts on the first line.
pub open spec fn first_line_column(pos: Option<IdentPos>) -> Option<usize> {
    match pos {
        Some((line, column)) => if line == 1 {
            Some(column)
        } else {
            None
        },
        None => None,
    }
}

/// See [`first_line_column`].
fn first_line_column_of(pos: Option<IdentPos>) -> (r: Option<usize>)
    ensures
        r == first_line_column(pos),
{
    match pos {
        Some((line, column)) => if line == 1 {
            Some(column)
        } else {
            None
        },
        None => None,
    }
}

// ---------------------------------------------------------------------
// The request batch

/// The link targets, each once, in the order they first occur.
pub open spec fn distinct(items: Seq<Seq<char>>) -> Seq<Seq<char>>
    decreases items.len(),
{
    if items.len() == 0 {
        seq![]
    } else {
        let d = distinct(items.drop_last());
        if d.contains(items.last()) {
            d
        } else {
            d.push(items.last())
        }
    }
}

/// A link target split at its first `#`: the item name, and the text up to
/// the next `#` after it.
pub open spec fn split_hash(name: Seq<char>) -> (Seq<char>, Option<Seq<char>>) {
    match find_char(name, '#') {
        None => (name, None),
        Some(i) => {
            let rest = name.subrange(i + 1 as int, name.len() as int);
            (
                name.subrange(0, i as int),
                Some(
                    match find_char(rest, '#') {
                        Some(j) => rest.subrange(0, j as int),
                        None => rest,
                    },
                ),
            )
        },
    }
}

/// The targets whose item name has an identifier on its first line, in
/// order: item name, fragment, column. `pos` holds, for each target, where
/// the identifier of its item name starts.
pub open spec fn accepted(names: Seq<Seq<char>>, pos: Seq<Option<IdentPos>>) -> Seq<
    (Seq<char>, Option<Seq<char>>, usize),
>
    decreases names.len(),
{
    if names.len() == 0 {
        seq![]
    } else {
        let (path, hash) = split_hash(names.last());
        accepted(names.drop_last(), pos.drop_last()) + match first_line_column(pos.last()) {
            Some(col) => seq![(path, hash, col)],
            None => seq![],
        }
    }
}

/// The line that opens the function the item names are written in.
pub open spec fn spec_opening() -> Seq<char> {
    "\nfn __6c0db446e2fa428eb93e3c71945e9654() {\n"@
}

/// The lines written for the requests: each item name and `;`.
pub open spec fn request_lines(acc: Seq<(Seq<char>, Option<Seq<char>>, usize)>) -> Seq<char>
    decreases acc.len(),
{
    if acc.len() == 0 {
        seq![]
    } else {
        request_lines(acc.drop_last()) + acc.last().0 + ";\n"@
    }
}

/// One item whose documentation link is asked for: where its identifier is
/// in the source written for the batch.
pub struct ItemRequest {
    pub path: String,
    pub hash: Option<String>,
    /// From 0, as the language server counts.
    pub line: usize,
    pub column: usize,
}

/// The source handed to the language server and the items asked about it.
pub struct ItemRequestBatch {
    pub context: String,
    pub request: Vec<ItemRequest>,
}

/// A request viewed as values.
pub open spec fn request_view(r: ItemRequest) -> (Seq<char>, Option<Seq<char>>, nat, nat) {
    (
        r.path@,
        match r.hash {
            Some(h) => Some(h@),
            None => None,
        },
        r.line as nat,
        r.column as nat,
    )
}

/// The requests viewed as values.
pub open spec fn requests_view(v: Seq<ItemRequest>) -> Seq<(Seq<char>, Option<Seq<char>>, nat, nat)> {
    v.map_values(|r: ItemRequest| request_view(r))
}

/// The source of the batch: the entry point's source, a function opened,
/// one line per item name, and the function closed.
pub open spec fn spec_context(
    source: Seq<char>,
    items: Seq<Seq<char>>,
    pos: Seq<Option<IdentPos>>,
) -> Seq<char> {
    source + spec_opening() + request_lines(accepted(distinct(items), pos)) + "}"@
}

/// The items asked about: the accepted targets, the first on the line after
/// the opening, one per line.
pub open spec fn spec_requests(
    source: Seq<char>,
    items: Seq<Seq<char>>,
    pos: Seq<Option<IdentPos>>,
) -> Seq<(Seq<char>, Option<Seq<char>>, nat, nat)> {
    let acc = accepted(distinct(items), pos);
    let line0 = count_char(source + spec_opening(), '\n');
    Seq::new(acc.len(), |k: int| (acc[k].0, acc[k].1, (line0 + k) as nat, acc[k].2 as nat))
}

/// Whether `v` holds `s`.
fn contains_str(v: &Vec<String>, s: &str) -> (r: bool)
    ensures
        r == v@.map_values(|x: String| x@).contains(s@),
{
    let n = v.len();
    let mut i: usize = 0;
    while i < n
        invariant
            n == v@.len(),
            i <= n,
            forall|j: int| 0 <= j < i ==> v@[j]@ != s@,
        decreases n - i,
    {
        if str_eq(v[i].as_str(), s) {
            assert(v@.map_values(|x: String| x@)[i as int] == s@);
            return true;
        }
        i = i + 1;
    }
    proof {
        let mv = v@.map_values(|x: String| x@);
        assert forall|j: int| 0 <= j < mv.len() implies #[trigger] mv[j] != s@ by {
            assert(mv[j] == v@[j]@);
        }
    }
    false
}

/// Splits a target at its first `#`, see [`split_hash`].
fn split_target(name: &str) -> (r: (String, Option<String>))
    ensures
        r.0@ == split_hash(name@).0,
        r.1 matches Some(h) ==> split_hash(name@).1 == Some(h@),
        r.1 is None ==> split_hash(name@).1 is None,
{
    proof {
        lemma_find_char_bound(name@, '#');
    }
    match find_char_in(name, '#') {
        None => (String::from_str(name), None),
        Some(i) => {
            let n = name.unicode_len();
            let path = String::from_str(name.substring_char(0, i));
            let rest = name.substring_char(i + 1, n);
            proof {
                lemma_find_char_bound(rest@, '#');
            }
            let hash = match find_char_in(rest, '#') {
                Some(j) => String::from_str(rest.substring_char(0, j)),
                None => String::from_str(rest),
            };
            (path, Some(hash))
        },
    }
}

/// Every target once, in the order they first occur.
fn distinct_targets(items: &Vec<String>) -> (names: Vec<String>)
    ensures
        names@.map_values(|x: String| x@) == distinct(items@.map_values(|s: String| s@)),
        names@.len() <= items@.len(),
{
    let ghost iv = items@.map_values(|s: String| s@);
    let mut names: Vec<String> = Vec::new();
    let n = items.len();
    let mut i: usize = 0;
    while i < n
        invariant
            n == items@.len(),
            iv == items@.map_values(|s: String| s@),
            i <= n,
            names@.map_values(|x: String| x@) == distinct(iv.take(i as int)),
            names@.len() <= i,
        decreases n - i,
    {
        assert(iv.take(i + 1).drop_last() =~= iv.take(i as int));
        assert(iv.take(i + 1).last() == items@[i as int]@);
        if !contains_str(&names, items[i].as_str()) {
            let ghost before = names@;
            names.push(items[i].clone());
            assert(names@.map_values(|x: String| x@) =~= before.map_values(|x: String| x@).push(
                items@[i as int]@,
            ));
        }
        i = i + 1;
    }
    assert(iv.take(n as int) =~= iv);
    names
}

/// The batch is the one made of the source and the targets with these
/// positions (see [`ItemRequestBatch::from_positions`]).
pub open spec fn batch_made_from(
    b: ItemRequestBatch,
    source: Seq<char>,
    items: Seq<String>,
    pos: Seq<Option<IdentPos>>,
) -> bool {
    let iv = items.map_values(|s: String| s@);
    &&& pos.len() == distinct(iv).len()
    &&& b.context@ == spec_context(source, iv, pos)
    &&& requests_view(b.request@) == spec_requests(source, iv, pos)
}

impl ItemRequestBatch {
    /// Writes the item names of the targets into a function after the
    /// entry point's source, one per line, and asks about the identifier
    /// of each: every distinct target once, split at `#` into the item name
    /// and a fragment. `positions` holds, for each distinct target in the
    /// order they first occur, where the identifier of its item name
    /// starts; a target without one, or whose identifier is not on its
    /// first line, is left out.
#[verifier::spinoff_prover]
#[verifier::rlimit(40)]
    pub fn from_positions(source: &str, items: &Vec<String>, positions: &Vec<Option<IdentPos>>) -> (b:
        ItemRequestBatch)
        requires
            source@.len() + items@.len() + 64 <= usize::MAX,
            positions@.len() == distinct(items@.map_values(|s: String| s@)).len(),
        ensures
            b.context@ == spec_context(source@, items@.map_values(|s: String| s@), positions@),
            requests_view(b.request@) == spec_requests(
                source@,
                items@.map_values(|s: String| s@),
                positions@,
            ),
    {
        let ghost iv = items@.map_values(|s: String| s@);
        let ghost pv = positions@;
        let n = items.len();
        let names = distinct_targets(items);
        let ghost dv = names@.map_values(|x: String| x@);
        // the source and the opening of the function
        let mut context = concat2(source, "\nfn __6c0db446e2fa428eb93e3c71945e9654() {\n");
        proof {
            reveal_strlit("\nfn __6c0db446e2fa428eb93e3c71945e9654() {\n");
        }
        let ghost head = context@;
        let line0 = count_char_in(context.as_str(), '\n');
        proof {
            lemma_count_le(head, '\n');
        }
        let mut request: Vec<ItemRequest> = Vec::new();
        let m = names.len();
        let mut k: usize = 0;
        while k < m
            invariant
                m == names@.len(),
                dv == names@.map_values(|x: String| x@),
                pv == positions@,
                pv.len() == m,
                dv.len() <= n,
                k <= m,
                line0 == count_char(head, '\n'),
                line0 <= source@.len() + 43,
                head == source@ + spec_opening(),
                request@.len() == accepted(dv.take(k as int), pv.take(k as int)).len(),
                request@.len() <= k,
                source@.len() + n + 64 <= usize::MAX,
                context@ == head + request_lines(accepted(dv.take(k as int), pv.take(k as int))),
                requests_view(request@) == Seq::new(
                    accepted(dv.take(k as int), pv.take(k as int)).len(),
                    |j: int|
                        (
                            accepted(dv.take(k as int), pv.take(k as int))[j].0,
                            accepted(dv.take(k as int), pv.take(k as int))[j].1,
                            (line0 + j) as nat,
                            accepted(dv.take(k as int), pv.take(k as int))[j].2 as nat,
                        ),
                ),
            decreases m - k,
        {
            assert(dv.take(k + 1).drop_last() =~= dv.take(k as int));
            assert(dv.take(k + 1).last() == names@[k as int]@);
            assert(pv.take(k + 1).drop_last() =~= pv.take(k as int));
            assert(pv.take(k + 1).last() == pv[k as int]);
            let ghost acc0 = accepted(dv.take(k as int), pv.take(k as int));
            let ghost req0 = request@;
            let (path, hash) = split_target(names[k].as_str());
            match first_line_column_of(positions[k]) {
                Some(column) => {
                    context.append(path.as_str());
                    context.append(";\n");
                    let line = line0 + request.len();
                    let ghost hv = opt_view(hash);
                    request.push(ItemRequest { path, hash, line, column });
                    let ghost acc1 = accepted(dv.take(k + 1), pv.take(k + 1));
                    assert(acc1 =~= acc0.push((split_hash(names@[k as int]@).0, hv, column)));
                    assert(acc1.drop_last() =~= acc0);
                    assert(request_lines(acc1) =~= request_lines(acc0) + path@ + ";\n"@);
                    assert forall|j: int| 0 <= j < req0.len() implies request_view(request@[j])
                        == request_view(req0[j]) by {}
                    assert(context@ =~= head + request_lines(acc1));
                    assert(request_view(request@[req0.len() as int]) == (
                        acc1[req0.len() as int].0,
                        acc1[req0.len() as int].1,
                        (line0 + req0.len()) as nat,
                        acc1[req0.len() as int].2 as nat,
                    ));
                    assert forall|j: int| 0 <= j < acc1.len() implies #[trigger] requests_view(request@)[j] == (acc1[j].0, acc1[j].1, (line0 + j) as nat, acc1[j].2 as nat) by {
                        if j < acc0.len() {
                            assert(requests_view(req0)[j]
                                == request_view(req0[j]));
                            assert(acc1[j] == acc0[j]);
                        }
                    }
                    assert(requests_view(request@) =~= Seq::new(
                        acc1.len(),
                        |j: int| (acc1[j].0, acc1[j].1, (line0 + j) as nat, acc1[j].2 as nat),
                    ));
                },
                None => {
                    assert(accepted(dv.take(k + 1), pv.take(k + 1)) =~= acc0);
                },
            }
            k = k + 1;
        }
        assert(dv.take(m as int) =~= dv);
        assert(pv.take(m as int) =~= pv);
        context.append("}");
        ItemRequestBatch { context, request }
    }

    /// The batch for the targets, with the identifier of each item name
    /// found by parsing it with `syn`. Where an identifier is placed depends
    /// on the process (see [`expr_head`]); whatever comes back, the batch
    /// is the one [`Self::from_positions`] makes of some position for each
    /// distinct target.
    pub fn new(source: &str, items: &Vec<String>) -> (b: ItemRequestBatch)
        requires
            source@.len() + items@.len() + 64 <= usize::MAX,
        ensures
            exists|pos: Seq<Option<IdentPos>>|
                #[trigger] batch_made_from(b, source@, items@, pos),
            exists|heads: Seq<ExprHead>| #[trigger] batch_from_heads(b, source@, items@, heads),
    {
        let names = distinct_targets(items);
        let mut positions: Vec<Option<IdentPos>> = Vec::new();
        let ghost mut heads: Seq<ExprHead> = seq![];
        let m = names.len();
        let mut k: usize = 0;
        while k < m
            invariant
                m == names@.len(),
                k <= m,
                positions@.len() == k,
                heads.len() == k,
                forall|j: int| 0 <= j < k ==> positions@[j] == item_ident(#[trigger] heads[j]),
            decreases m - k,
        {
            let (path, _hash) = split_target(names[k].as_str());
            let head = expr_head(path.as_str());
            positions.push(ident_of_head(head));
            proof {
                heads = heads.push(head);
            }
            k = k + 1;
        }
        let b = Self::from_positions(source, items, &positions);
        assert(batch_made_from(b, source@, items@, positions@));
        assert(positions@ =~= heads_positions(heads));
        assert(batch_from_heads(b, source@, items@, heads));
        b
    }
}

/// The position each parsed item name is asked about at.
pub open spec fn heads_positions(heads: Seq<ExprHead>) -> Seq<Option<IdentPos>> {
    Seq::new(heads.len(), |k: int| item_ident(heads[k]))
}

/// The batch is made of the source and the targets with, for each
/// distinct target, the position [`item_ident`] picks from the head its
/// item name was parsed into.
pub open spec fn batch_from_heads(
    b: ItemRequestBatch,
    source: Seq<char>,
    items: Seq<String>,
    heads: Seq<ExprHead>,
) -> bool {
    batch_made_from(b, source, items, heads_positions(heads))
}

/// An item name is asked about at the identifier of the last segment of
/// its path, whether the name is the path itself, a call of it or a macro
/// call with it (`Vec::new()` is asked about `new`, as `Vec::new` is); a
/// qualified path (`<T as X>::f`) is not asked about.
pub proof fn lemma_item_ident_same_for_all_forms(p: Option<IdentPos>)
    ensures
        item_ident(ExprHead::Path(false, p)) == p,
        item_ident(ExprHead::Call(Some((false, p)))) == p,
        item_ident(ExprHead::Macro(p)) == p,
        item_ident(ExprHead::Path(true, p)) is None,
        item_ident(ExprHead::Call(Some((true, p)))) is None,
{
}

/// A request's column is the column of the position it was given, and it
/// is made only for a position on the first line of its item name.
pub proof fn lemma_request_columns(names: Seq<Seq<char>>, pos: Seq<Option<IdentPos>>, k: int)
    requires
        pos.len() == names.len(),
        0 <= k < accepted(names, pos).len(),
    ensures
        exists|j: int|
            0 <= j < names.len() && #[trigger] pos[j] == Some((1usize, accepted(names, pos)[k].2))
                && accepted(names, pos)[k].0 == split_hash(names[j]).0,
    decreases names.len(),
{
    let acc = accepted(names, pos);
    let n0 = names.drop_last();
    let p0 = pos.drop_last();
    let pre = accepted(n0, p0);
    assert(acc == pre + match first_line_column(pos.last()) {
        Some(col) => seq![(split_hash(names.last()).0, split_hash(names.last()).1, col)],
        None => Seq::<(Seq<char>, Option<Seq<char>>, usize)>::empty(),
    });
    if k < pre.len() {
        lemma_request_columns(n0, p0, k);
        let j = choose|j: int|
            0 <= j < n0.len() && #[trigger] p0[j] == Some((1usize, pre[k].2)) && pre[k].0 == split_hash(
                n0[j],
            ).0;
        assert(acc[k] == pre[k]);
        assert(pos[j] == p0[j]);
        assert(names[j] == n0[j]);
    } else {
        let j = names.len() - 1;
        assert(pos[j] == pos.last());
        assert(names[j] == names.last());
        match pos.last() {
            Some((line, col)) => {
                assert(line == 1);
                assert(acc[k].2 == col);
            },
            None => {},
        }
    }
}

proof fn lemma_count_le(s: Seq<char>, c: char)
    ensures
        count_char(s, c) <= s.len(),
    decreases s.len(),
{
    if s.len() > 0 {
        lemma_count_le(s.drop_last(), c);
    }
}

/// Every target is asked about at most once, and every target is among
/// those considered.
pub proof fn lemma_distinct(items: Seq<Seq<char>>)
    ensures
        forall|i: int, j: int|
            0 <= i < j < distinct(items).len() ==> distinct(items)[i] != distinct(items)[j],
        forall|x: Seq<char>| items.contains(x) <==> distinct(items).contains(x),
    decreases items.len(),
{
    if items.len() > 0 {
        let pre = items.drop_last();
        let last = items.last();
        lemma_distinct(pre);
        let d = distinct(pre);
        let all = distinct(items);
        assert forall|i: int, j: int| 0 <= i < j < all.len() implies all[i] != all[j] by {
            if j >= d.len() {
                if d[i] == last {
                    assert(d.contains(last));
                }
            }
        }
        assert forall|x: Seq<char>| items.contains(x) <==> all.contains(x) by {
            assert(pre.contains(x) == d.contains(x));
            if items.contains(x) {
                let k = choose|k: int| 0 <= k < items.len() && items[k] == x;
                if k < items.len() - 1 {
                    assert(pre[k] == x);
                    assert(d.contains(x));
                    if !d.contains(last) {
                        let m = choose|m: int| 0 <= m < d.len() && d[m] == x;
                        assert(all[m] == x);
                    }
                } else if !d.contains(last) {
                    assert(all[d.len() as int] == x);
                }
            }
            if all.contains(x) {
                let m = choose|m: int| 0 <= m < all.len() && all[m] == x;
                if m < d.len() {
                    assert(d[m] == x);
                    assert(d.contains(x));
                    let k = choose|k: int| 0 <= k < pre.len() && pre[k] == x;
                    assert(items[k] == x);
                } else {
                    assert(items[items.len() - 1] == x);
                }
            }
        }
    }
}

proof fn lemma_count_concat(a: Seq<char>, b: Seq<char>, c: char)
    ensures
        count_char(a + b, c) == count_char(a, c) + count_char(b, c),
    decreases b.len(),
{
    if b.len() == 0 {
        assert(a + b =~= a);
    } else {
        lemma_count_concat(a, b.drop_last(), c);
        assert((a + b).drop_last() =~= a + b.drop_last());
    }
}

/// The lines of the first `j` requests begin those of the first `m`.
proof fn lemma_request_lines_prefix(
    acc: Seq<(Seq<char>, Option<Seq<char>>, usize)>,
    j: int,
    m: int,
)
    requires
        0 <= j <= m <= acc.len(),
    ensures
        request_lines(acc.take(j)).len() <= request_lines(acc.take(m)).len(),
        request_lines(acc.take(m)).take(request_lines(acc.take(j)).len() as int) == request_lines(
            acc.take(j),
        ),
    decreases m - j,
{
    if j == m {
        assert(request_lines(acc.take(m)).take(request_lines(acc.take(j)).len() as int)
            =~= request_lines(acc.take(j)));
    } else {
        lemma_request_lines_prefix(acc, j, m - 1);
        assert(acc.take(m).drop_last() =~= acc.take(m - 1));
        let a = request_lines(acc.take(j));
        let b = request_lines(acc.take(m - 1));
        let c = request_lines(acc.take(m));
        assert(c == b + acc[m - 1].0 + ";\n"@);
        assert(c.take(a.len() as int) =~= b.take(a.len() as int));
    }
}

/// Without newlines in the item names, the first `j` requests take `j`
/// lines.
proof fn lemma_request_lines_count(acc: Seq<(Seq<char>, Option<Seq<char>>, usize)>, j: int)
    requires
        0 <= j <= acc.len(),
        forall|k: int| 0 <= k < acc.len() ==> count_char(#[trigger] acc[k].0, '\n') == 0,
    ensures
        count_char(request_lines(acc.take(j)), '\n') == j,
    decreases j,
{
    reveal_strlit(";\n");
    if j == 0 {
        assert(acc.take(0) =~= Seq::<(Seq<char>, Option<Seq<char>>, usize)>::empty());
    } else {
        lemma_request_lines_count(acc, j - 1);
        assert(acc.take(j).drop_last() =~= acc.take(j - 1));
        let b = request_lines(acc.take(j - 1));
        assert(acc.take(j).last() == acc[j - 1]);
        assert(request_lines(acc.take(j)) == b + acc[j - 1].0 + ";\n"@);
        lemma_count_concat(b, acc[j - 1].0, '\n');
        lemma_count_concat(b + acc[j - 1].0, ";\n"@, '\n');
        let semi = ";\n"@;
        assert(semi.len() == 2);
        assert(semi.drop_last() =~= seq![';']);
        assert(seq![';'].drop_last() =~= Seq::<char>::empty());
        assert(count_char(Seq::<char>::empty(), '\n') == 0);
        assert(count_char(seq![';'], '\n') == 0);
        assert(count_char(semi, '\n') == 1);
    }
}

/// The line starting at `i` of `ctx` is numbered `line` (from 0) and holds
/// `path` and `;`.
pub open spec fn line_holds(ctx: Seq<char>, i: int, path: Seq<char>, line: nat) -> bool {
    &&& 0 < i
    &&& i + path.len() + 2 <= ctx.len()
    &&& ctx[i - 1] == '\n'
    &&& count_char(ctx.take(i), '\n') == line
    &&& ctx.subrange(i, i + path.len() + 2) == path + ";\n"@
}

/// Each request points at its item name: its line of the written source
/// begins with the item name and `;`, so the identifier the language server
/// is asked about is the one of the name. This holds when no item name
/// asked about spans several lines (the later lines would shift).
pub proof fn lemma_requests_point_at_names(
    source: Seq<char>,
    items: Seq<Seq<char>>,
    pos: Seq<Option<IdentPos>>,
)
    requires
        forall|k: int|
            0 <= k < accepted(distinct(items), pos).len() ==> count_char(
                #[trigger] accepted(distinct(items), pos)[k].0,
                '\n',
            ) == 0,
    ensures
        forall|k: int|
            0 <= k < spec_requests(source, items, pos).len() ==> #[trigger] line_holds(
                spec_context(source, items, pos),
                request_offset(source, items, pos, k),
                spec_requests(source, items, pos)[k].0,
                spec_requests(source, items, pos)[k].2,
            ),
{
    assert forall|k: int| 0 <= k < spec_requests(source, items, pos).len() implies #[trigger] line_holds(
        spec_context(source, items, pos),
        request_offset(source, items, pos, k),
        spec_requests(source, items, pos)[k].0,
        spec_requests(source, items, pos)[k].2,
    ) by {
        lemma_request_points_at_name(source, items, pos, k);
    }
}

/// Where the line of request `k` starts in the written source.
pub open spec fn request_offset(
    source: Seq<char>,
    items: Seq<Seq<char>>,
    pos: Seq<Option<IdentPos>>,
    k: int,
) -> int {
    ((source + spec_opening()).len() + request_lines(accepted(distinct(items), pos).take(k)).len()) as int
}

/// The line of request `k` starts at its offset.
proof fn lemma_request_points_at_name(
    source: Seq<char>,
    items: Seq<Seq<char>>,
    pos: Seq<Option<IdentPos>>,
    k: int,
)
    requires
        forall|j: int|
            0 <= j < accepted(distinct(items), pos).len() ==> count_char(
                #[trigger] accepted(distinct(items), pos)[j].0,
                '\n',
            ) == 0,
        0 <= k < spec_requests(source, items, pos).len(),
    ensures
        line_holds(
            spec_context(source, items, pos),
            request_offset(source, items, pos, k),
            spec_requests(source, items, pos)[k].0,
            spec_requests(source, items, pos)[k].2,
        ),
{
    reveal_strlit("\nfn __6c0db446e2fa428eb93e3c71945e9654() {\n");
    reveal_strlit(";\n");
    reveal_strlit("}");
    let acc = accepted(distinct(items), pos);
    let head = source + spec_opening();
    let all = request_lines(acc);
    let ctx = spec_context(source, items, pos);
    assert(acc.take(acc.len() as int) =~= acc);
        let r = spec_requests(source, items, pos)[k];
        let pk = request_lines(acc.take(k));
        let pk1 = request_lines(acc.take(k + 1));
        let i: int = (head.len() + pk.len()) as int;
        lemma_request_lines_prefix(acc, k, k + 1);
        lemma_request_lines_prefix(acc, k + 1, acc.len() as int);
        assert(acc.take(k + 1).drop_last() =~= acc.take(k));
        assert(acc.take(k + 1).last() == acc[k]);
        assert(pk1 == pk + acc[k].0 + ";\n"@);
        assert(r.0 == acc[k].0);
        assert(ctx == head + all + "}"@);
        // the name's line is at `i`
        assert(ctx.subrange(i, i + r.0.len() + 2) =~= r.0 + ";\n"@) by {
            assert forall|t: int| 0 <= t < r.0.len() + 2 implies ctx[i + t] == (r.0 + ";\n"@)[t] by {
                assert(ctx[i + t] == all[pk.len() + t]);
                assert(all[pk.len() + t] == pk1[pk.len() + t]);
            }
        }
        // the line before ends with a newline
        if k == 0 {
            assert(pk =~= Seq::<char>::empty());
            assert(ctx[i - 1] == head[head.len() - 1]);
        } else {
            lemma_request_lines_prefix(acc, k - 1, k);
            assert(acc.take(k).drop_last() =~= acc.take(k - 1));
            assert(pk[pk.len() - 1] == '\n');
            assert(ctx[i - 1] == all[pk.len() - 1]);
            lemma_request_lines_prefix(acc, k, acc.len() as int);
            assert(all[pk.len() - 1] == pk[pk.len() - 1]);
        }
        // and as many lines come before it as its number says
        assert(ctx.take(i) =~= head + pk) by {
            lemma_request_lines_prefix(acc, k, acc.len() as int);
            assert forall|t: int| 0 <= t < i implies ctx.take(i)[t] == (head + pk)[t] by {
                if t >= head.len() {
                    assert(all[t - head.len()] == pk[t - head.len()]);
                }
            }
        }
        lemma_count_concat(head, pk, '\n');
        lemma_request_lines_count(acc, k);
        assert(count_char(ctx.take(i), '\n') == r.2);
        assert(line_holds(ctx, i, r.0, r.2));
}

// ---------------------------------------------------------------------
// The links given back

/// The links rust-analyzer gives for an item: on docs.rs, and in the local
/// documentation.
pub struct ExternalDocLinks {
    pub web: Option<String>,
    pub local: Option<String>,
}

/// The request that asks rust-analyzer for the links. (Only its type is
/// used: Verus takes no enum without variants, so it is a unit struct.)
pub struct ExternalDocs;

/// The method name of the request for an item's documentation links.
pub const EXTERNAL_DOCS_METHOD: &'static str = "experimental/externalDocs";

impl ExternalDocs {
    /// The request's method name.
    pub fn method() -> (r: &'static str)
        ensures
            r@ == "experimental/externalDocs"@,
    {
        "experimental/externalDocs"
    }
}

/// What `Url::set_fragment` makes of a URL, when the text parses as one.
pub uninterp spec fn url_with_fragment_of(url: Seq<char>, fragment: Seq<char>) -> Option<Seq<char>>;

/// An optional string viewed as characters.
pub open spec fn opt_view(o: Option<String>) -> Option<Seq<char>> {
    match o {
        Some(s) => Some(s@),
        None => None,
    }
}

/// Parses the URL (`lsp_types::Url`) and sets its fragment.
#[verifier::external_body]
fn url_with_fragment(url: &str, fragment: &str) -> (r: Option<String>)
    ensures
        opt_view(r) == url_with_fragment_of(url@, fragment@),
{
    let mut u = lsp_types::Url::parse(url).ok()?;
    u.set_fragment(Some(fragment));
    Some(u.to_string())
}

/// A link with the fragment set (left as it is if it does not parse).
pub open spec fn spec_fragmented(url: Option<Seq<char>>, hash: Option<Seq<char>>) -> Option<Seq<char>> {
    match (url, hash) {
        (Some(u), Some(h)) => match url_with_fragment_of(u, h) {
            Some(v) => Some(v),
            None => Some(u),
        },
        _ => url,
    }
}

fn fragmented(url: Option<String>, hash: &Option<String>) -> (r: Option<String>)
    ensures
        opt_view(r) == spec_fragmented(opt_view(url), opt_view(*hash)),
{
    match (url, hash) {
        (Some(u), Some(h)) => match url_with_fragment(u.as_str(), h.as_str()) {
            Some(v) => Some(v),
            None => Some(u),
        },
        (u, _) => u,
    }
}

/// The key a target's links are found under: the item name, and `#` with
/// the fragment when there is one.
pub open spec fn spec_link_key(path: Seq<char>, hash: Option<Seq<char>>) -> Seq<char> {
    match hash {
        Some(h) => path + "#"@ + h,
        None => path,
    }
}

/// The entry for a request answered with `web` and `local`: both links
/// with the fragment set, under the target's key; none when neither link
/// was given.
pub fn link_entry(
    path: String,
    hash: Option<String>,
    web: Option<String>,
    local: Option<String>,
) -> (r: Option<(String, ExternalDocLinks)>)
    ensures
        (web is None && local is None) <==> r is None,
        r matches Some((key, links)) ==> {
            &&& key@ == spec_link_key(path@, opt_view(hash))
            &&& opt_view(links.web) == spec_fragmented(opt_view(web), opt_view(hash))
            &&& opt_view(links.local) == spec_fragmented(opt_view(local), opt_view(hash))
        },
{
    let web = fragmented(web, &hash);
    let local = fragmented(local, &hash);
    if web.is_none() && local.is_none() {
        None
    } else {
        let key = match hash {
            Some(h) => {
                let mut k = concat2(path.as_str(), "#");
                k.append(h.as_str());
                k
            },
            None => path,
        };
        Some((key, ExternalDocLinks { web, local }))
    }
}

/// The first entry under `key`.
pub open spec fn spec_lookup(table: Seq<(String, ExternalDocLinks)>, key: Seq<char>) -> Option<int>
    decreases table.len(),
{
    if table.len() == 0 {
        None
    } else if table[0].0@ == key {
        Some(0)
    } else {
        match spec_lookup(table.subrange(1, table.len() as int), key) {
            Some(i) => Some(i + 1),
            None => None,
        }
    }
}

proof fn lemma_lookup(table: Seq<(String, ExternalDocLinks)>, key: Seq<char>, i: nat)
    requires
        i <= table.len(),
        forall|j: int| 0 <= j < i ==> table[j].0@ != key,
    ensures
        i < table.len() && table[i as int].0@ == key ==> spec_lookup(table, key) == Some(i as int),
        i == table.len() ==> spec_lookup(table, key) is None,
    decreases i,
{
    if i > 0 {
        lemma_lookup(table.subrange(1, table.len() as int), key, (i - 1) as nat);
    }
}

/// No key occurs twice: the links are collected in a map from keys.
pub open spec fn keys_distinct(table: Seq<(String, ExternalDocLinks)>) -> bool {
    forall|i: int, j: int| 0 <= i < j < table.len() ==> table[i].0@ != table[j].0@
}

/// With no key twice, the entry found under a key is the one that has it.
pub proof fn lemma_lookup_finds_the_entry(table: Seq<(String, ExternalDocLinks)>, i: int)
    requires
        keys_distinct(table),
        0 <= i < table.len(),
    ensures
        spec_lookup(table, table[i].0@) == Some(i),
{
    lemma_lookup(table, table[i].0@, i as nat);
}

/// Adds the links found under `key`; an entry already under the key is
/// replaced, as a map's `insert` does.
pub fn insert_link(table: &mut Vec<(String, ExternalDocLinks)>, key: String, links: ExternalDocLinks)
    requires
        keys_distinct(old(table)@),
    ensures
        keys_distinct(final(table)@),
        match spec_lookup(old(table)@, key@) {
            Some(i) => final(table)@ == old(table)@.update(i, (key, links)),
            None => final(table)@ == old(table)@.push((key, links)),
        },
{
    let n = table.len();
    let mut i: usize = 0;
    while i < n
        invariant
            n == table@.len(),
            i <= n,
            table@ == old(table)@,
            keys_distinct(old(table)@),
            forall|j: int| 0 <= j < i ==> table@[j].0@ != key@,
        decreases n - i,
    {
        if str_eq(table[i].0.as_str(), key.as_str()) {
            proof {
                lemma_lookup(table@, key@, i as nat);
            }
            let ghost kv = key@;
            let ghost before = table@;
            table.set(i, (key, links));
            assert(table@[i as int].0@ == kv);
            assert forall|a: int, b: int| 0 <= a < b < table@.len() implies table@[a].0@ != table@[b].0@ by {
                assert(before[a].0@ != before[b].0@);
                if a != i && b != i {
                    assert(table@[a] == before[a] && table@[b] == before[b]);
                } else if a == i {
                    assert(before[a].0@ == kv);
                    assert(table@[b] == before[b]);
                } else {
                    assert(before[b].0@ == kv);
                    assert(table@[a] == before[a]);
                }
            }
            return;
        }
        i = i + 1;
    }
    proof {
        lemma_lookup(table@, key@, n as nat);
    }
    let ghost kv = key@;
    let ghost before = table@;
    table.push((key, links));
    assert forall|a: int, b: int| 0 <= a < b < table@.len() implies table@[a].0@ != table@[b].0@ by {
        if b < n {
            assert(table@[a] == before[a] && table@[b] == before[b]);
        } else {
            assert(table@[b].0@ == kv);
            assert(table@[a] == before[a]);
        }
    }
}

/// The link a target is replaced with: the local or the web link of its
/// entry, as preferred; none when there is no entry or no such link.
pub open spec fn spec_rewritten(
    table: Seq<(String, ExternalDocLinks)>,
    dest: Seq<char>,
    prefer_local: bool,
) -> Option<Seq<char>> {
    match spec_lookup(table, dest) {
        Some(i) => if prefer_local {
            opt_view(table[i].1.local)
        } else {
            opt_view(table[i].1.web)
        },
        None => None,
    }
}

/// See [`spec_rewritten`].
pub fn rewritten_link(table: &Vec<(String, ExternalDocLinks)>, dest: &str, prefer_local: bool) -> (r:
    Option<String>)
    requires
        keys_distinct(table@),
    ensures
        opt_view(r) == spec_rewritten(table@, dest@, prefer_local),
{
    let n = table.len();
    let mut i: usize = 0;
    while i < n
        invariant
            n == table@.len(),
            i <= n,
            forall|j: int| 0 <= j < i ==> table@[j].0@ != dest@,
        decreases n - i,
    {
        if str_eq(table[i].0.as_str(), dest) {
            proof {
                lemma_lookup(table@, dest@, i as nat);
            }
            let links = &table[i].1;
            let url = if prefer_local {
                &links.local
            } else {
                &links.web
            };
            return match url {
                Some(u) => Some(u.clone()),
                None => None,
            };
        }
        i = i + 1;
    }
    proof {
        lemma_lookup(table@, dest@, n as nat);
    }
    None
}

/// Each link target of a chapter after the links are resolved: replaced
/// when there is a link for it, else left as it is.
pub fn rewrite_links(
    table: &Vec<(String, ExternalDocLinks)>,
    dests: &Vec<String>,
    prefer_local: bool,
) -> (r: Vec<String>)
    requires
        keys_distinct(table@),
    ensures
        r@.len() == dests@.len(),
        forall|i: int|
            0 <= i < dests@.len() ==> (#[trigger] r@[i])@ == match spec_rewritten(
                table@,
                dests@[i]@,
                prefer_local,
            ) {
                Some(u) => u,
                None => dests@[i]@,
            },
{
    let n = dests.len();
    let mut out: Vec<String> = Vec::new();
    let mut i: usize = 0;
    while i < n
        invariant
            n == dests@.len(),
            i <= n,
            out@.len() == i,
            keys_distinct(table@),
            forall|j: int|
                0 <= j < i ==> (#[trigger] out@[j])@ == match spec_rewritten(
                    table@,
                    dests@[j]@,
                    prefer_local,
                ) {
                    Some(u) => u,
                    None => dests@[j]@,
                },
        decreases n - i,
    {
        let d = match rewritten_link(table, dests[i].as_str(), prefer_local) {
            Some(u) => u,
            None => dests[i].clone(),
        };
        out.push(d);
        i = i + 1;
    }
    out
}

// ---------------------------------------------------------------------
// Broken links

/// An event of a parsed Markdown text, as far as link labels care.
pub enum MdPiece {
    Text(String),
    Code(String),
    Other,
}

/// An event viewed as values.
pub enum MdPieceView {
    Text(Seq<char>),
    Code(Seq<char>),
    Other,
}

pub open spec fn piece_view(p: MdPiece) -> MdPieceView {
    match p {
        MdPiece::Text(s) => MdPieceView::Text(s@),
        MdPiece::Code(s) => MdPieceView::Code(s@),
        MdPiece::Other => MdPieceView::Other,
    }
}

/// The Markdown extensions the preprocessor parses with.
#[derive(Clone, Copy, PartialEq, Eq, Structural)]
pub struct MarkdownOptions {
    pub tables: bool,
    pub footnotes: bool,
    pub strikethrough: bool,
    pub tasklists: bool,
    pub heading_attributes: bool,
    pub smart_punctuation: bool,
}

/// Tables, footnotes, strikethrough, task lists and heading attributes,
/// and smart punctuation when asked for.
pub fn markdown_options(smart_punctuation: bool) -> (r: MarkdownOptions)
    ensures
        r == (MarkdownOptions {
            tables: true,
            footnotes: true,
            strikethrough: true,
            tasklists: true,
            heading_attributes: true,
            smart_punctuation,
        }),
{
    MarkdownOptions {
        tables: true,
        footnotes: true,
        strikethrough: true,
        tasklists: true,
        heading_attributes: true,
        smart_punctuation,
    }
}

/// The parser options of `pulldown_cmark`.
#[verifier::external_type_specification]
#[verifier::external_body]
pub struct ExParserOptions(pulldown_cmark::Options);

/// `pulldown_cmark::Options::empty()` with each flag of `o` set by
/// `Options::set`. Nothing is stated: the value is only handed on to the
/// parser and the writer.
#[verifier::external_body]
fn parser_options(o: MarkdownOptions) -> pulldown_cmark::Options {
    let mut opts = pulldown_cmark::Options::empty();
    opts.set(pulldown_cmark::Options::ENABLE_TABLES, o.tables);
    opts.set(pulldown_cmark::Options::ENABLE_FOOTNOTES, o.footnotes);
    opts.set(pulldown_cmark::Options::ENABLE_STRIKETHROUGH, o.strikethrough);
    opts.set(pulldown_cmark::Options::ENABLE_TASKLISTS, o.tasklists);
    opts.set(pulldown_cmark::Options::ENABLE_HEADING_ATTRIBUTES, o.heading_attributes);
    opts.set(pulldown_cmark::Options::ENABLE_SMART_PUNCTUATION, o.smart_punctuation);
    opts
}

/// What `pulldown_cmark` parses the text into with the options.
pub uninterp spec fn markdown_pieces_of(text: Seq<char>, options: MarkdownOptions) -> Seq<MdPieceView>;

/// Parses the text with `pulldown_cmark::Parser::new_ext` and keeps each
/// event's text or code. It is used on link labels, which hold no
/// unescaped bracket and so no link: a broken-link callback would never be
/// called, and none is given.
#[verifier::external_body]
fn markdown_pieces(text: &str, o: MarkdownOptions) -> (r: Vec<MdPiece>)
    ensures
        r@.map_values(|p: MdPiece| piece_view(p)) == markdown_pieces_of(text@, o),
{
    pulldown_cmark::Parser::new_ext(text, parser_options(o)).map(|e| match e {
        pulldown_cmark::Event::Text(s) => MdPiece::Text(s.to_string()),
        pulldown_cmark::Event::Code(s) => MdPiece::Code(s.to_string()),
        _ => MdPiece::Other,
    }).collect()
}

/// The text and code of the events, concatenated.
pub open spec fn label_text(pieces: Seq<MdPieceView>) -> Seq<char>
    decreases pieces.len(),
{
    if pieces.len() == 0 {
        seq![]
    } else {
        label_text(pieces.drop_last()) + match pieces.last() {
            MdPieceView::Text(s) => s,
            MdPieceView::Code(s) => s,
            MdPieceView::Other => seq![],
        }
    }
}

/// Resolves the links whose label is not a defined reference, so that
/// `[Vec]` and `` [`Vec`] `` become links to the item.
pub struct BrokenLinks;

/// The target a broken link is given: its label as plain text when the
/// label was taken from the document (its text and code, concatenated),
/// else the label as it is.
pub open spec fn spec_broken_link_target(reference: Seq<char>, borrowed: bool) -> Seq<char> {
    if borrowed {
        label_text(markdown_pieces_of(reference, markdown_options_spec(false)))
    } else {
        reference
    }
}

/// The options as a value.
pub open spec fn markdown_options_spec(smart_punctuation: bool) -> MarkdownOptions {
    MarkdownOptions {
        tables: true,
        footnotes: true,
        strikethrough: true,
        tasklists: true,
        heading_attributes: true,
        smart_punctuation,
    }
}

impl BrokenLinks {
    /// The link made of a broken link whose label is `reference`
    /// (`borrowed`: taken from the document as written): the target is the
    /// label's text (see [`spec_broken_link_target`]), the title is the
    /// label; none when the target is empty.
    pub fn handle_broken_link(&self, reference: &str, borrowed: bool) -> (r: Option<(String, String)>)
        ensures
            spec_broken_link_target(reference@, borrowed).len() == 0 <==> r is None,
            r matches Some((target, title)) ==> target@ == spec_broken_link_target(
                reference@,
                borrowed,
            ) && title@ == reference@,
    {
        let inner = if borrowed {
            let pieces = markdown_pieces(reference, markdown_options(false));
            let n = pieces.len();
            let mut text = String::new();
            let mut i: usize = 0;
            while i < n
                invariant
                    n == pieces@.len(),
                    i <= n,
                    text@ == label_text(pieces@.take(i as int).map_values(|p: MdPiece| piece_view(p))),
                decreases n - i,
            {
                assert(pieces@.take(i + 1).map_values(|p: MdPiece| piece_view(p)).drop_last()
                    =~= pieces@.take(i as int).map_values(|p: MdPiece| piece_view(p)));
                assert(pieces@.take(i + 1).map_values(|p: MdPiece| piece_view(p)).last()
                    == piece_view(pieces@[i as int]));
                match &pieces[i] {
                    MdPiece::Text(s) => text.append(s.as_str()),
                    MdPiece::Code(s) => text.append(s.as_str()),
                    MdPiece::Other => {
                        assert(text@ =~= text@ + Seq::<char>::empty());
                    },
                }
                i = i + 1;
            }
            assert(pieces@.take(n as int) =~= pieces@);
            text
        } else {
            String::from_str(reference)
        };
        if inner.unicode_len() == 0 {
            None
        } else {
            Some((inner, String::from_str(reference)))
        }
    }
}


// ---------------------------------------------------------------------
// A chapter

/// The events `pulldown_cmark` parses a chapter into, with the options and
/// with broken links given their target by
/// [`BrokenLinks::handle_broken_link`]: for each event, the destination of
/// the link it starts, or none when it starts no link.
pub uninterp spec fn chapter_link_events_of(text: Seq<char>, options: MarkdownOptions) -> Seq<
    Option<Seq<char>>,
>;

/// Parses the chapter with `pulldown_cmark::Parser::new_with_broken_link_callback`;
/// the callback hands each broken link to [`BrokenLinks::handle_broken_link`].
#[verifier::external_body]
fn chapter_link_events(text: &str, o: MarkdownOptions) -> (r: Vec<Option<String>>)
    ensures
        r@.map_values(|d: Option<String>| opt_view(d)) == chapter_link_events_of(text@, o),
{
    let labels = |link: pulldown_cmark::BrokenLink| {
        let borrowed = matches!(link.reference, pulldown_cmark::CowStr::Borrowed(_));
        BrokenLinks.handle_broken_link(&link.reference, borrowed).map(|(t, l)| (t.into(), l.into()))
    };
    pulldown_cmark::Parser::new_with_broken_link_callback(text, parser_options(o), Some(labels)).map(|e| match e {
        pulldown_cmark::Event::Start(pulldown_cmark::Tag::Link { dest_url, .. }) => Some(dest_url.to_string()),
        _ => None,
    }).collect()
}

/// The chapter written back by `pulldown_cmark_to_cmark::cmark` from the
/// events `pulldown_cmark` parses it into (as in [`chapter_link_events_of`]),
/// the destination of the link started by event `i` replaced by
/// `dests[i]`; none when writing fails.
pub uninterp spec fn chapter_with_dests_of(
    text: Seq<char>,
    options: MarkdownOptions,
    dests: Seq<Seq<char>>,
) -> Option<Seq<char>>;

/// Parses the chapter as [`chapter_link_events`] does, sets the
/// destination of each link from the entry of `dests` for its event, and
/// writes the events back with `pulldown_cmark_to_cmark::cmark`.
#[verifier::external_body]
fn chapter_with_dests(text: &str, o: MarkdownOptions, dests: &Vec<String>) -> (r: Option<String>)
    ensures
        opt_view(r) == chapter_with_dests_of(text@, o, dests@.map_values(|d: String| d@)),
{
    let labels = |link: pulldown_cmark::BrokenLink| {
        let borrowed = matches!(link.reference, pulldown_cmark::CowStr::Borrowed(_));
        BrokenLinks.handle_broken_link(&link.reference, borrowed).map(|(t, l)| (t.into(), l.into()))
    };
    let events = pulldown_cmark::Parser::new_with_broken_link_callback(text, parser_options(o), Some(labels));
    let events = events.zip(dests.iter()).map(|(mut e, d)| {
        if let pulldown_cmark::Event::Start(pulldown_cmark::Tag::Link { dest_url, .. }) = &mut e {
            *dest_url = d.clone().into();
        }
        e
    });
    let mut out = String::new();
    pulldown_cmark_to_cmark::cmark(events, &mut out, parser_options(o)).ok().map(|_| out)
}

/// The destinations of the links, in order.
pub open spec fn link_dests(events: Seq<Option<Seq<char>>>) -> Seq<Seq<char>>
    decreases events.len(),
{
    if events.len() == 0 {
        seq![]
    } else {
        link_dests(events.drop_last()) + match events.last() {
            Some(d) => seq![d],
            None => seq![],
        }
    }
}

/// The link targets of a chapter, in order: those asked about.
pub fn chapter_links(text: &str, smart_punctuation: bool) -> (r: Vec<String>)
    ensures
        r@.map_values(|d: String| d@) == link_dests(
            chapter_link_events_of(text@, markdown_options_spec(smart_punctuation)),
        ),
{
    let events = chapter_link_events(text, markdown_options(smart_punctuation));
    let ghost ev = events@.map_values(|d: Option<String>| opt_view(d));
    let n = events.len();
    let mut r: Vec<String> = Vec::new();
    let mut i: usize = 0;
    while i < n
        invariant
            n == events@.len(),
            ev == events@.map_values(|d: Option<String>| opt_view(d)),
            i <= n,
            r@.map_values(|d: String| d@) == link_dests(ev.take(i as int)),
        decreases n - i,
    {
        assert(ev.take(i + 1).drop_last() =~= ev.take(i as int));
        assert(ev.take(i + 1).last() == opt_view(events@[i as int]));
        match &events[i] {
            Some(d) => {
                let ghost before = r@.map_values(|x: String| x@);
                r.push(d.clone());
                assert(r@.map_values(|x: String| x@) =~= before.push(d@));
            },
            None => {
                assert(link_dests(ev.take(i + 1)) =~= link_dests(ev.take(i as int)));
            },
        }
        i = i + 1;
    }
    assert(ev.take(n as int) =~= ev);
    r
}

/// The destination each event is given: for a link, the link found for its
/// target, or the target itself when there is none; nothing for another
/// event.
pub open spec fn rewritten_events(
    table: Seq<(String, ExternalDocLinks)>,
    events: Seq<Option<Seq<char>>>,
    prefer_local: bool,
) -> Seq<Seq<char>> {
    Seq::new(
        events.len(),
        |i: int|
            match events[i] {
                Some(d) => match spec_rewritten(table, d, prefer_local) {
                    Some(u) => u,
                    None => d,
                },
                None => seq![],
            },
    )
}

/// The chapter with its links replaced by those found for their targets
/// (see [`spec_rewritten`]), written back as Markdown; none when writing
/// fails.
pub fn process_chapter(
    text: &str,
    smart_punctuation: bool,
    table: &Vec<(String, ExternalDocLinks)>,
    prefer_local: bool,
) -> (r: Option<String>)
    requires
        keys_distinct(table@),
    ensures
        opt_view(r) == chapter_with_dests_of(
            text@,
            markdown_options_spec(smart_punctuation),
            rewritten_events(
                table@,
                chapter_link_events_of(text@, markdown_options_spec(smart_punctuation)),
                prefer_local,
            ),
        ),
{
    let o = markdown_options(smart_punctuation);
    let events = chapter_link_events(text, o);
    let ghost ev = events@.map_values(|d: Option<String>| opt_view(d));
    let n = events.len();
    let mut dests: Vec<String> = Vec::new();
    let mut i: usize = 0;
    while i < n
        invariant
            n == events@.len(),
            ev == events@.map_values(|d: Option<String>| opt_view(d)),
            i <= n,
            dests@.len() == i,
            keys_distinct(table@),
            forall|j: int|
                0 <= j < i ==> (#[trigger] dests@[j])@ == rewritten_events(table@, ev, prefer_local)[j],
        decreases n - i,
    {
        assert(ev[i as int] == opt_view(events@[i as int]));
        let d = match &events[i] {
            Some(target) => match rewritten_link(table, target.as_str(), prefer_local) {
                Some(u) => u,
                None => target.clone(),
            },
            None => String::new(),
        };
        dests.push(d);
        i = i + 1;
    }
    assert(dests@.map_values(|d: String| d@) =~= rewritten_events(table@, ev, prefer_local));
    chapter_with_dests(text, o, &dests)
}

// ---------------------------------------------------------------------
// The language server's progress

/// The token of a progress notification.
pub enum ProgressToken {
    Number(i32),
    String(String),
}

/// The kind of a work-done progress notification.
#[derive(Clone, Copy, PartialEq, Eq, Structural)]
pub enum WorkDone {
    Begin,
    Report,
    End,
}

/// A progress notification of the language server.
pub struct Progress {
    pub token: ProgressToken,
    pub value: WorkDone,
}

/// The notification is from rust-analyzer's indexing.
pub open spec fn is_indexing(p: Progress) -> bool {
    p.token matches ProgressToken::String(t) && t@ == "rustAnalyzer/Indexing"@
}

fn indexing(p: &Progress) -> (r: bool)
    ensures
        r == is_indexing(*p),
{
    match &p.token {
        ProgressToken::String(t) => str_eq(t.as_str(), "rustAnalyzer/Indexing"),
        ProgressToken::Number(_) => false,
    }
}

/// Indexing has begun.
pub fn indexing_begin(p: &Progress) -> (r: bool)
    ensures
        r == (is_indexing(*p) && p.value == WorkDone::Begin),
{
    indexing(p) && p.value == WorkDone::Begin
}

/// Indexing has ended.
pub fn indexing_end(p: &Progress) -> (r: bool)
    ensures
        r == (is_indexing(*p) && p.value == WorkDone::End),
{
    indexing(p) && p.value == WorkDone::End
}

/// What the waiter for a stable index does on a progress event: an end of
/// indexing starts the quiet-period timer, a begin aborts the latest timer
/// and marks the index unstable.
#[derive(Clone, Copy, PartialEq, Eq, Structural)]
pub enum DebounceAction {
    StartTimer,
    AbortTimer,
}

/// See [`DebounceAction`]: `ready` is an end of indexing.
pub fn debounce_action(ready: bool) -> (r: DebounceAction)
    ensures
        r == (if ready {
            DebounceAction::StartTimer
        } else {
            DebounceAction::AbortTimer
        }),
{
    if ready {
        DebounceAction::StartTimer
    } else {
        DebounceAction::AbortTimer
    }
}

// ---------------------------------------------------------------------
// Configuration

/// Smart punctuation is on unless the book's `output.html.smart-punctuation`
/// turns it off; a value that cannot be read counts as absent (`found` is
/// none when reading failed).
pub fn smart_punctuation(found: Option<Option<bool>>) -> (r: bool)
    ensures
        r == (match found {
            Some(Some(b)) => b,
            _ => true,
        }),
{
    match found {
        Some(Some(b)) => b,
        _ => true,
    }
}

/// The file rust-analyzer is asked about: the library target's path when
/// the manifest has one, else the first binary target with a path.
pub open spec fn spec_entry_target(lib: Option<Option<String>>, bins: Seq<Option<String>>) -> Option<
    Seq<char>,
> {
    match lib {
        Some(Some(p)) => Some(p@),
        _ => first_path(bins),
    }
}

/// The first path given.
pub open spec fn first_path(bins: Seq<Option<String>>) -> Option<Seq<char>>
    decreases bins.len(),
{
    if bins.len() == 0 {
        None
    } else {
        match bins[0] {
            Some(p) => Some(p@),
            None => first_path(bins.subrange(1, bins.len() as int)),
        }
    }
}

proof fn lemma_first_path(bins: Seq<Option<String>>, i: nat)
    requires
        i <= bins.len(),
        forall|j: int| 0 <= j < i ==> bins[j] is None,
    ensures
        i < bins.len() && bins[i as int] is Some ==> first_path(bins) == opt_view(bins[i as int]),
        i == bins.len() ==> first_path(bins) is None,
    decreases i,
{
    if i > 0 {
        lemma_first_path(bins.subrange(1, bins.len() as int), (i - 1) as nat);
    }
}

/// See [`spec_entry_target`]; the error when there is neither.
pub fn entry_target(lib: &Option<Option<String>>, bins: &Vec<Option<String>>) -> (r: Result<
    String,
    &'static str,
>)
    ensures
        r matches Ok(p) ==> spec_entry_target(*lib, bins@) == Some(p@),
        r matches Err(e) ==> spec_entry_target(*lib, bins@) is None && e@
            == "Cargo.toml does not have a lib or bin target"@,
{
    match lib {
        Some(Some(p)) => {
            return Ok(p.clone());
        },
        _ => {},
    }
    let n = bins.len();
    let mut i: usize = 0;
    while i < n
        invariant
            n == bins@.len(),
            i <= n,
            forall|j: int| 0 <= j < i ==> bins@[j] is None,
            !(*lib matches Some(Some(_))),
        decreases n - i,
    {
        if let Some(p) = &bins[i] {
            proof {
                lemma_first_path(bins@, i as nat);
            }
            return Ok(p.clone());
        }
        i = i + 1;
    }
    proof {
        lemma_first_path(bins@, n as nat);
    }
    Err("Cargo.toml does not have a lib or bin target")
}

/// What `Url::join` makes of a path relative to a base URL, when the base
/// parses as a URL and the join succeeds.
pub uninterp spec fn url_join_of(base: Seq<char>, input: Seq<char>) -> Option<Seq<char>>;

/// Parses the base URL (`lsp_types::Url`) and joins the input to it.
#[verifier::external_body]
fn url_join(base: &str, input: &str) -> (r: Option<String>)
    ensures
        opt_view(r) == url_join_of(base@, input@),
{
    lsp_types::Url::parse(base).ok()?.join(input).ok().map(|u| u.to_string())
}

/// The error when the target's path cannot be joined to the manifest's URL.
pub open spec fn spec_join_error() -> Seq<char> {
    "the target path does not join the manifest URL"@
}

/// The URL of the file rust-analyzer is asked about: the target chosen by
/// [`spec_entry_target`] joined to the URL of the manifest.
pub fn entry_url(manifest_url: &str, lib: &Option<Option<String>>, bins: &Vec<Option<String>>) -> (r: Result<
    String,
    &'static str,
>)
    ensures
        match spec_entry_target(*lib, bins@) {
            None => r matches Err(e) && e@ == "Cargo.toml does not have a lib or bin target"@,
            Some(t) => match url_join_of(manifest_url@, t) {
                Some(u) => r matches Ok(s) && s@ == u,
                None => r matches Err(e) && e@ == spec_join_error(),
            },
        },
{
    let target = entry_target(lib, bins)?;
    match url_join(manifest_url, target.as_str()) {
        Some(u) => Ok(u),
        None => Err("the target path does not join the manifest URL"),
    }
}

} // verus!
