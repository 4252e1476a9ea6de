//! Merging the generic parameters of an item with those of the `impl` block
//! or trait it is generated inside, and the phantom fields that keep the
//! outer parameters in use.

use vstd::prelude::*;

use crate::text::{concat2, lowercase_of, to_lowercase};

verus! {

/// The three kinds of generic parameter, in the order Rust wants them.
#[derive(Clone, Copy, PartialEq, Eq, Structural)]
pub enum ParamKind {
    Lifetime,
    Type,
    Const,
}

/// The rank of a kind: lifetimes first, then types, then constants.
pub open spec fn rank(k: ParamKind) -> int {
    match k {
        ParamKind::Lifetime => 0,
        ParamKind::Type => 1,
        ParamKind::Const => 2,
    }
}

/// One generic parameter of the outer item, by its name and its full text
/// (with its bounds or default).
pub enum GenericParam {
    /// `'a: 'b`: the name is `a`, without the quote.
    Lifetime { ident: String, text: String },
    /// `T: Bound`.
    Type { ident: String, text: String },
    /// `const N: usize`.
    Const { ident: String, text: String },
}

/// The generics of the outer item.
pub struct Generics {
    pub params: Vec<GenericParam>,
    /// The predicates of the `where` clause, if there is one.
    pub where_clause: Option<Vec<String>>,
}

/// The kind of a parameter.
pub open spec fn kind_of(p: GenericParam) -> ParamKind {
    match p {
        GenericParam::Lifetime { .. } => ParamKind::Lifetime,
        GenericParam::Type { .. } => ParamKind::Type,
        GenericParam::Const { .. } => ParamKind::Const,
    }
}

/// How a parameter is declared: its full text.
pub open spec fn param_text(p: GenericParam) -> Seq<char> {
    match p {
        GenericParam::Lifetime { text, .. } => text@,
        GenericParam::Type { text, .. } => text@,
        GenericParam::Const { text, .. } => text@,
    }
}

/// How a parameter is passed as an argument: `'a`, `T` or `N`.
pub open spec fn param_arg(p: GenericParam) -> Seq<char> {
    match p {
        GenericParam::Lifetime { ident, .. } => "'"@ + ident@,
        GenericParam::Type { ident, .. } => ident@,
        GenericParam::Const { ident, .. } => ident@,
    }
}

/// The parameters of kind `k`, in order, each as its text (`as_arg`
/// false) or as an argument (`as_arg` true).
pub open spec fn of_kind(ps: Seq<GenericParam>, k: ParamKind, as_arg: bool) -> Seq<Seq<char>>
    decreases ps.len(),
{
    if ps.len() == 0 {
        seq![]
    } else {
        of_kind(ps.drop_last(), k, as_arg) + if kind_of(ps.last()) == k {
            seq![
                if as_arg {
                    param_arg(ps.last())
                } else {
                    param_text(ps.last())
                },
            ]
        } else {
            seq![]
        }
    }
}

/// The strings viewed as character sequences.
pub open spec fn texts(v: Seq<String>) -> Seq<Seq<char>> {
    v.map_values(|s: String| s@)
}

/// A list of parameters or arguments: each piece with its kind.
pub open spec fn pieces_view(v: Seq<(ParamKind, String)>) -> Seq<(ParamKind, Seq<char>)> {
    v.map_values(|p: (ParamKind, String)| (p.0, p.1@))
}

/// The pieces of the given kind.
pub open spec fn tagged(k: ParamKind, v: Seq<Seq<char>>) -> Seq<(ParamKind, Seq<char>)> {
    v.map_values(|s: Seq<char>| (k, s))
}

/// The generics of a generated item: its own lifetimes, types and bounds
/// merged with those of the outer item.
pub struct MergeGenerics<'a> {
    pub outer: &'a Generics,
    pub lifetimes: Vec<String>,
    pub types: Vec<String>,
    pub bounds: Vec<String>,
}

/// The merged list: own lifetimes, outer lifetimes, own types, outer types,
/// outer constants; outer parameters by their text or as arguments.
pub open spec fn spec_merged(
    lifetimes: Seq<Seq<char>>,
    types: Seq<Seq<char>>,
    outer: Seq<GenericParam>,
    as_arg: bool,
) -> Seq<(ParamKind, Seq<char>)> {
    tagged(ParamKind::Lifetime, lifetimes) + tagged(
        ParamKind::Lifetime,
        of_kind(outer, ParamKind::Lifetime, as_arg),
    ) + tagged(ParamKind::Type, types) + tagged(ParamKind::Type, of_kind(outer, ParamKind::Type, as_arg))
        + tagged(ParamKind::Const, of_kind(outer, ParamKind::Const, as_arg))
}

/// Appends the outer parameters of kind `k`.
fn push_of_kind(out: &mut Vec<(ParamKind, String)>, ps: &Vec<GenericParam>, k: ParamKind, as_arg: bool)
    ensures
        pieces_view(final(out)@) == pieces_view(old(out)@) + tagged(k, of_kind(ps@, k, as_arg)),
{
    let n = ps.len();
    let mut i: usize = 0;
    let ghost start = pieces_view(out@);
    while i < n
        invariant
            n == ps@.len(),
            i <= n,
            pieces_view(out@) == start + tagged(k, of_kind(ps@.take(i as int), k, as_arg)),
        decreases n - i,
    {
        assert(ps@.take(i + 1).drop_last() =~= ps@.take(i as int));
        let ghost before = out@;
        let p = &ps[i];
        let (pk, piece) = match p {
            GenericParam::Lifetime { ident, text } => (
                ParamKind::Lifetime,
                if as_arg {
                    concat2("'", ident.as_str())
                } else {
                    text.clone()
                },
            ),
            GenericParam::Type { ident, text } => (
                ParamKind::Type,
                if as_arg {
                    ident.clone()
                } else {
                    text.clone()
                },
            ),
            GenericParam::Const { ident, text } => (
                ParamKind::Const,
                if as_arg {
                    ident.clone()
                } else {
                    text.clone()
                },
            ),
        };
        if pk == k {
            out.push((pk, piece));
            assert(pieces_view(out@) =~= pieces_view(before).push((k, piece@)));
        }
        assert(pieces_view(out@) =~= start + tagged(k, of_kind(ps@.take(i + 1), k, as_arg)));
        i = i + 1;
    }
    assert(ps@.take(n as int) =~= ps@);
}

/// Appends the strings, each with the kind `k`.
fn push_own(out: &mut Vec<(ParamKind, String)>, v: &Vec<String>, k: ParamKind)
    ensures
        pieces_view(final(out)@) == pieces_view(old(out)@) + tagged(k, texts(v@)),
{
    let n = v.len();
    let mut i: usize = 0;
    let ghost start = pieces_view(out@);
    while i < n
        invariant
            n == v@.len(),
            i <= n,
            pieces_view(out@) == start + tagged(k, texts(v@.take(i as int))),
        decreases n - i,
    {
        let ghost before = out@;
        out.push((k, v[i].clone()));
        assert(pieces_view(out@) =~= pieces_view(before).push((k, v@[i as int]@)));
        assert(tagged(k, texts(v@.take(i + 1))) =~= tagged(k, texts(v@.take(i as int))).push(
            (k, v@[i as int]@),
        ));
        i = i + 1;
    }
    assert(v@.take(n as int) =~= v@);
}

impl<'a> MergeGenerics<'a> {
    /// The parameters of the generated item, each with its kind: own
    /// lifetimes, the outer lifetimes, own types, the outer types, the outer
    /// constants.
    pub fn params(&self) -> (r: Vec<(ParamKind, String)>)
        ensures
            pieces_view(r@) == spec_merged(
                texts(self.lifetimes@),
                texts(self.types@),
                self.outer.params@,
                false,
            ),
    {
        self.merged(false)
    }

    /// The arguments that name those parameters, in the same order: the
    /// outer parameters by name (`'a`, `T`, `N`).
    pub fn arguments(&self) -> (r: Vec<(ParamKind, String)>)
        ensures
            pieces_view(r@) == spec_merged(
                texts(self.lifetimes@),
                texts(self.types@),
                self.outer.params@,
                true,
            ),
    {
        self.merged(true)
    }

    fn merged(&self, as_arg: bool) -> (r: Vec<(ParamKind, String)>)
        ensures
            pieces_view(r@) == spec_merged(
                texts(self.lifetimes@),
                texts(self.types@),
                self.outer.params@,
                as_arg,
            ),
    {
        let mut out: Vec<(ParamKind, String)> = Vec::new();
        assert(pieces_view(out@) =~= seq![]);
        push_own(&mut out, &self.lifetimes, ParamKind::Lifetime);
        push_of_kind(&mut out, &self.outer.params, ParamKind::Lifetime, as_arg);
        push_own(&mut out, &self.types, ParamKind::Type);
        push_of_kind(&mut out, &self.outer.params, ParamKind::Type, as_arg);
        push_of_kind(&mut out, &self.outer.params, ParamKind::Const, as_arg);
        assert(pieces_view(out@) =~= spec_merged(
            texts(self.lifetimes@),
            texts(self.types@),
            self.outer.params@,
            as_arg,
        ));
        out
    }

    /// The `where` predicates: own bounds, then those of the outer item.
    pub fn bounds(&self) -> (r: Vec<String>)
        ensures
            texts(r@) == texts(self.bounds@) + match self.outer.where_clause {
                Some(w) => texts(w@),
                None => seq![],
            },
    {
        let mut out: Vec<String> = Vec::new();
        let n = self.bounds.len();
        let mut i: usize = 0;
        while i < n
            invariant
                n == self.bounds@.len(),
                i <= n,
                texts(out@) == texts(self.bounds@.take(i as int)),
            decreases n - i,
        {
            let ghost before = out@;
            out.push(self.bounds[i].clone());
            assert(texts(out@) =~= texts(before).push(self.bounds@[i as int]@));
            assert(texts(self.bounds@.take(i + 1)) =~= texts(self.bounds@.take(i as int)).push(
                self.bounds@[i as int]@,
            ));
            i = i + 1;
        }
        assert(self.bounds@.take(n as int) =~= self.bounds@);
        match &self.outer.where_clause {
            Some(w) => {
                let m = w.len();
                let mut j: usize = 0;
                let ghost start = texts(out@);
                while j < m
                    invariant
                        m == w@.len(),
                        j <= m,
                        texts(out@) == start + texts(w@.take(j as int)),
                    decreases m - j,
                {
                    let ghost before = out@;
                    out.push(w[j].clone());
                    assert(texts(out@) =~= texts(before).push(w@[j as int]@));
                    assert(texts(w@.take(j + 1)) =~= texts(w@.take(j as int)).push(w@[j as int]@));
                    j = j + 1;
                }
                assert(w@.take(m as int) =~= w@);
            },
            None => {
                assert(texts(out@) =~= texts(self.bounds@) + seq![]);
            },
        }
        out
    }
}

/// A field that keeps an outer parameter in use: `PhantomData<&'a ()>` for
/// a lifetime, `PhantomData<T>` for a type.
pub struct PhantomField {
    pub name: String,
    pub kind: ParamKind,
    /// `'a` or `T`.
    pub param: String,
}

/// The phantom field of a parameter, as (name, kind, parameter): none for a
/// constant.
pub open spec fn phantom_of(p: GenericParam) -> Option<(Seq<char>, ParamKind, Seq<char>)> {
    match p {
        GenericParam::Lifetime { ident, .. } => Some(
            ("_lifetime_"@ + ident@, ParamKind::Lifetime, "'"@ + ident@),
        ),
        GenericParam::Type { ident, .. } => Some(
            ("_type_"@ + lowercase_of(ident@), ParamKind::Type, ident@),
        ),
        GenericParam::Const { .. } => None,
    }
}

/// The phantom fields of the parameters, in order.
pub open spec fn phantoms(ps: Seq<GenericParam>) -> Seq<(Seq<char>, ParamKind, Seq<char>)>
    decreases ps.len(),
{
    if ps.len() == 0 {
        seq![]
    } else {
        phantoms(ps.drop_last()) + match phantom_of(ps.last()) {
            Some(f) => seq![f],
            None => seq![],
        }
    }
}

/// The fields viewed as (name, kind, parameter).
pub open spec fn fields_view(v: Seq<PhantomField>) -> Seq<(Seq<char>, ParamKind, Seq<char>)> {
    v.map_values(|f: PhantomField| (f.name@, f.kind, f.param@))
}

impl<'a> MergeGenerics<'a> {
    /// The phantom fields of the outer lifetimes and types, in order:
    /// `_lifetime_{name}` and `_type_{lowercase name}`.
    pub fn phantom_fields(&self) -> (r: Vec<PhantomField>)
        ensures
            fields_view(r@) == phantoms(self.outer.params@),
    {
        let ps = &self.outer.params;
        let n = ps.len();
        let mut out: Vec<PhantomField> = Vec::new();
        let mut i: usize = 0;
        while i < n
            invariant
                n == ps@.len(),
                ps == &self.outer.params,
                i <= n,
                fields_view(out@) == phantoms(ps@.take(i as int)),
            decreases n - i,
        {
            assert(ps@.take(i + 1).drop_last() =~= ps@.take(i as int));
            let ghost before = out@;
            match &ps[i] {
                GenericParam::Lifetime { ident, .. } => {
                    out.push(
                        PhantomField {
                            name: concat2("_lifetime_", ident.as_str()),
                            kind: ParamKind::Lifetime,
                            param: concat2("'", ident.as_str()),
                        },
                    );
                },
                GenericParam::Type { ident, .. } => {
                    let lower = to_lowercase(ident.as_str());
                    out.push(
                        PhantomField {
                            name: concat2("_type_", lower.as_str()),
                            kind: ParamKind::Type,
                            param: ident.clone(),
                        },
                    );
                },
                GenericParam::Const { .. } => {},
            }
            assert(fields_view(out@) =~= phantoms(ps@.take(i + 1)));
            i = i + 1;
        }
        assert(ps@.take(n as int) =~= ps@);
        out
    }

    /// The names of the phantom fields, to initialize each with
    /// `PhantomData`.
    pub fn phantom_init(&self) -> (r: Vec<String>)
        ensures
            texts(r@) == phantoms(self.outer.params@).map_values(
                |f: (Seq<char>, ParamKind, Seq<char>)| f.0,
            ),
    {
        let fields = self.phantom_fields();
        let n = fields.len();
        let mut out: Vec<String> = Vec::new();
        let mut i: usize = 0;
        while i < n
            invariant
                n == fields@.len(),
                i <= n,
                fields_view(fields@) == phantoms(self.outer.params@),
                texts(out@) == fields_view(fields@).take(i as int).map_values(
                    |f: (Seq<char>, ParamKind, Seq<char>)| f.0,
                ),
            decreases n - i,
        {
            let ghost before = out@;
            out.push(fields[i].name.clone());
            assert(texts(out@) =~= texts(before).push(fields@[i as int].name@));
            assert(texts(out@) =~= fields_view(fields@).take(i + 1).map_values(
                |f: (Seq<char>, ParamKind, Seq<char>)| f.0,
            ));
            i = i + 1;
        }
        assert(fields_view(fields@).take(n as int) =~= fields_view(fields@));
        out
    }
}

/// The merged parameters are in the order Rust requires: no lifetime comes
/// after a type or a constant, and no type after a constant. The arguments
/// come in the same order, kind for kind, so each parameter is passed in
/// its own place.
pub proof fn lemma_merged_in_order(
    lifetimes: Seq<Seq<char>>,
    types: Seq<Seq<char>>,
    outer: Seq<GenericParam>,
)
    ensures
        forall|i: int, j: int|
            0 <= i <= j < spec_merged(lifetimes, types, outer, false).len() ==> rank(
                #[trigger] spec_merged(lifetimes, types, outer, false)[i].0,
            ) <= rank(#[trigger] spec_merged(lifetimes, types, outer, false)[j].0),
        spec_merged(lifetimes, types, outer, true).len() == spec_merged(
            lifetimes,
            types,
            outer,
            false,
        ).len(),
        forall|i: int|
            0 <= i < spec_merged(lifetimes, types, outer, false).len() ==> (#[trigger] spec_merged(
                lifetimes,
                types,
                outer,
                true,
            )[i]).0 == spec_merged(lifetimes, types, outer, false)[i].0,
{
    lemma_of_kind_len(outer, ParamKind::Lifetime);
    lemma_of_kind_len(outer, ParamKind::Type);
    lemma_of_kind_len(outer, ParamKind::Const);
    let m = spec_merged(lifetimes, types, outer, false);
    let a = spec_merged(lifetimes, types, outer, true);
    let b0 = lifetimes.len();
    let b1 = b0 + of_kind(outer, ParamKind::Lifetime, false).len();
    let b2 = b1 + types.len();
    let b3 = b2 + of_kind(outer, ParamKind::Type, false).len();
    assert forall|i: int| 0 <= i < m.len() implies (#[trigger] m[i]).0 == (if i < b1 {
        ParamKind::Lifetime
    } else if i < b3 {
        ParamKind::Type
    } else {
        ParamKind::Const
    }) && a[i].0 == m[i].0 by {
        if i < b0 {
        } else if i < b1 {
        } else if i < b2 {
        } else if i < b3 {
        } else {
        }
    }
}

/// Taken as text or as arguments, the parameters of a kind are as many.
proof fn lemma_of_kind_len(ps: Seq<GenericParam>, k: ParamKind)
    ensures
        of_kind(ps, k, true).len() == of_kind(ps, k, false).len(),
    decreases ps.len(),
{
    if ps.len() > 0 {
        lemma_of_kind_len(ps.drop_last(), k);
    }
}

/// A lifetime's phantom field never has the name of a type's: the names
/// start with `_lifetime_` and `_type_`. A constant gets no field.
pub proof fn lemma_phantom_names_apart(ps: Seq<GenericParam>)
    ensures
        forall|i: int, j: int|
            0 <= i < phantoms(ps).len() && 0 <= j < phantoms(ps).len() && (#[trigger] phantoms(
                ps,
            )[i]).1 == ParamKind::Lifetime && (#[trigger] phantoms(ps)[j]).1 == ParamKind::Type
                ==> phantoms(ps)[i].0 != phantoms(ps)[j].0,
        forall|i: int|
            0 <= i < phantoms(ps).len() ==> (#[trigger] phantoms(ps)[i]).1 != ParamKind::Const,
{
    assert forall|i: int, j: int|
        0 <= i < phantoms(ps).len() && 0 <= j < phantoms(ps).len() && (#[trigger] phantoms(
            ps,
        )[i]).1 == ParamKind::Lifetime && (#[trigger] phantoms(ps)[j]).1
            == ParamKind::Type implies phantoms(ps)[i].0 != phantoms(ps)[j].0 by {
        lemma_lifetime_name_char(ps, i);
        lemma_type_name_char(ps, j);
    }
    assert forall|i: int| 0 <= i < phantoms(ps).len() implies (#[trigger] phantoms(ps)[i]).1
        != ParamKind::Const by {
        lemma_no_const_field(ps, i);
    }
}

proof fn lemma_no_const_field(ps: Seq<GenericParam>, i: int)
    requires
        0 <= i < phantoms(ps).len(),
    ensures
        phantoms(ps)[i].1 != ParamKind::Const,
    decreases ps.len(),
{
    let prev = phantoms(ps.drop_last());
    if i < prev.len() {
        assert(phantoms(ps)[i] == prev[i]);
        lemma_no_const_field(ps.drop_last(), i);
    }
}

proof fn lemma_lifetime_name_char(ps: Seq<GenericParam>, i: int)
    requires
        0 <= i < phantoms(ps).len(),
        phantoms(ps)[i].1 == ParamKind::Lifetime,
    ensures
        phantoms(ps)[i].0[1] == 'l',
    decreases ps.len(),
{
    reveal_strlit("_lifetime_");
    let prev = phantoms(ps.drop_last());
    if i < prev.len() {
        assert(phantoms(ps)[i] == prev[i]);
        lemma_lifetime_name_char(ps.drop_last(), i);
    } else {
        match ps.last() {
            GenericParam::Lifetime { ident, .. } => {
                assert(("_lifetime_"@ + ident@)[1] == 'l');
            },
            _ => {},
        }
    }
}

proof fn lemma_type_name_char(ps: Seq<GenericParam>, i: int)
    requires
        0 <= i < phantoms(ps).len(),
        phantoms(ps)[i].1 == ParamKind::Type,
    ensures
        phantoms(ps)[i].0[1] == 't',
    decreases ps.len(),
{
    reveal_strlit("_type_");
    let prev = phantoms(ps.drop_last());
    if i < prev.len() {
        assert(phantoms(ps)[i] == prev[i]);
        lemma_type_name_char(ps.drop_last(), i);
    } else {
        match ps.last() {
            GenericParam::Type { ident, .. } => {
                assert(("_type_"@ + lowercase_of(ident@))[1] == 't');
            },
            _ => {},
        }
    }
}

} // verus!
