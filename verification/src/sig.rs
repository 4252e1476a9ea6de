//! Function signatures as the rules see them, and the checks made on the
//! items an attribute is put on.

use vstd::prelude::*;

use crate::diagnostic::Diagnostic;
use crate::text::str_eq;
use crate::types::TypeNode;

verus! {

/// A `self` receiver: whether it is taken by reference, and whether it is
/// `mut` (`&mut self` or `mut self`).
#[derive(Clone, Copy, PartialEq, Eq, Structural)]
pub struct ReceiverKind {
    pub reference: bool,
    pub mutable: bool,
}

/// The end of a `..end` range pattern.
pub enum RangeEnd {
    /// `..` with nothing after it.
    Missing,
    /// A path of one segment without qualifier or leading `::`: `..name`.
    UnitPath(String),
    /// Any other expression.
    OtherExpr,
}

/// The pattern of a typed function argument.
pub enum ArgPattern {
    /// An identifier; `plain` is false when it has `ref`, `mut` or a
    /// sub-pattern.
    Ident { name: String, plain: bool },
    /// A range pattern without a start; `half_open` is false for `..=`.
    RangeTo { half_open: bool, end: RangeEnd },
    /// A range pattern with a start.
    RangeFrom,
    /// Any other pattern.
    Other,
}

/// One function argument.
pub enum FnArgNode<L> {
    Receiver { kind: ReceiverKind, raw: L },
    Typed { pat: ArgPattern, ty: TypeNode<L>, raw: L },
}

/// The qualifiers of a function signature.
#[derive(Clone, Copy, PartialEq, Eq, Structural)]
pub struct SigFlags {
    pub is_async: bool,
    pub is_const: bool,
    pub is_unsafe: bool,
    pub has_abi: bool,
    pub is_variadic: bool,
}

/// A function signature.
pub struct SigNode<L> {
    pub ident: String,
    pub flags: SigFlags,
    pub inputs: Vec<FnArgNode<L>>,
    pub output: Option<TypeNode<L>>,
}

/// What the `&self` check looks at: the first argument, if any.
pub enum ArgHead {
    Receiver(ReceiverKind),
    Typed,
}

/// The first argument of a list.
pub open spec fn spec_head<L>(inputs: Seq<FnArgNode<L>>) -> Option<ArgHead> {
    if inputs.len() == 0 {
        None
    } else {
        match inputs[0] {
            FnArgNode::Receiver { kind, .. } => Some(ArgHead::Receiver(kind)),
            FnArgNode::Typed { .. } => Some(ArgHead::Typed),
        }
    }
}

/// Whether the first argument passes the `&self` check.
pub open spec fn self_arg_passes(head: Option<ArgHead>) -> bool {
    head matches Some(ArgHead::Receiver(kind)) && kind.reference && !kind.mutable
}

/// The message of a failed `&self` check.
pub open spec fn self_arg_message(head: Option<ArgHead>) -> Seq<char> {
    match head {
        None => "missing `&self` as the first argument"@,
        Some(ArgHead::Receiver(_)) => "must be `&self`"@,
        Some(ArgHead::Typed) => "must have `&self` as the first argument"@,
    }
}

/// The result of the `&self` check on a first argument.
pub open spec fn self_arg_ok(head: Option<ArgHead>, r: Result<(), Diagnostic>) -> bool {
    match head {
        None => fails_with(r, "missing `&self` as the first argument"@),
        Some(ArgHead::Receiver(kind)) => if kind.reference && !kind.mutable {
            r is Ok
        } else {
            fails_with(r, "must be `&self`"@)
        },
        Some(ArgHead::Typed) => fails_with(r, "must have `&self` as the first argument"@),
    }
}

/// The `&self` check on a first argument.
pub fn expect_self_head(head: Option<ArgHead>) -> (r: Result<(), Diagnostic>)
    ensures
        self_arg_ok(head, r),
{
    match head {
        None => Err(Diagnostic::custom("missing `&self` as the first argument")),
        Some(ArgHead::Receiver(kind)) => {
            if !kind.reference || kind.mutable {
                Err(Diagnostic::custom("must be `&self`"))
            } else {
                Ok(())
            }
        },
        Some(ArgHead::Typed) => Err(Diagnostic::custom("must have `&self` as the first argument")),
    }
}

/// A one-error result.
pub open spec fn fails_with<T>(r: Result<T, Diagnostic>, message: Seq<char>) -> bool {
    r matches Err(e) && e.message@ == message && e.location@.len() == 0
}

/// The messages of a list of errors.
pub open spec fn messages(errs: Seq<Diagnostic>) -> Seq<Seq<char>> {
    errs.map_values(|d: Diagnostic| d.message@)
}

/// The errors have no location.
pub open spec fn unlocated(errs: Seq<Diagnostic>) -> bool {
    forall|i: int| 0 <= i < errs.len() ==> (#[trigger] errs[i]).location@.len() == 0
}

/// The messages of the checks that failed, in the order they are made.
pub open spec fn failed_checks(checks: Seq<(bool, Seq<char>)>) -> Seq<Seq<char>>
    decreases checks.len(),
{
    if checks.len() == 0 {
        seq![]
    } else {
        let rest = failed_checks(checks.drop_last());
        if checks.last().0 {
            rest.push(checks.last().1)
        } else {
            rest
        }
    }
}

/// Adds an error to `errors` when `failed`.
pub fn check(errors: &mut Vec<Diagnostic>, failed: bool, message: &str)
    ensures
        failed ==> messages(final(errors)@) == messages(old(errors)@).push(message@),
        !failed ==> final(errors)@ == old(errors)@,
        unlocated(old(errors)@) ==> unlocated(final(errors)@),
{
    if failed {
        let ghost before = errors@;
        errors.push(Diagnostic::custom(message));
        assert(messages(errors@) =~= messages(before).push(message@));
    }
}

/// The checks as mathematical values.
pub open spec fn checks_view(checks: Seq<(bool, &str)>) -> Seq<(bool, Seq<char>)> {
    checks.map_values(|c: (bool, &str)| (c.0, c.1@))
}

/// Reports the message of every check that failed, in order.
pub fn check_all(checks: &Vec<(bool, &str)>) -> (r: Vec<Diagnostic>)
    ensures
        messages(r@) == failed_checks(checks_view(checks@)),
        unlocated(r@),
{
    let mut errors: Vec<Diagnostic> = Vec::new();
    let n = checks.len();
    let mut i: usize = 0;
    let ghost cv = checks_view(checks@);
    assert(cv.take(0) =~= seq![]);
    while i < n
        invariant
            n == checks@.len(),
            i <= n,
            cv == checks_view(checks@),
            messages(errors@) == failed_checks(cv.take(i as int)),
            unlocated(errors@),
        decreases n - i,
    {
        assert(cv.take(i + 1).drop_last() =~= cv.take(i as int));
        let (failed, message) = checks[i];
        check(&mut errors, failed, message);
        i = i + 1;
    }
    assert(cv.take(n as int) =~= cv);
    errors
}

/// The first argument must be `&self`.
pub fn expect_self_arg<L>(inputs: &Vec<FnArgNode<L>>) -> (r: Result<(), Diagnostic>)
    ensures
        self_arg_ok(spec_head(inputs@), r),
{
    if inputs.len() == 0 {
        return expect_self_head(None);
    }
    match &inputs[0] {
        FnArgNode::Receiver { kind, .. } => expect_self_head(Some(ArgHead::Receiver(*kind))),
        FnArgNode::Typed { .. } => expect_self_head(Some(ArgHead::Typed)),
    }
}

/// The name of an argument that is a plain identifier.
pub open spec fn spec_pat_ident<L>(arg: FnArgNode<L>) -> Option<Seq<char>> {
    match arg {
        FnArgNode::Typed { pat: ArgPattern::Ident { name, plain }, .. } => if plain {
            Some(name@)
        } else {
            None
        },
        _ => None,
    }
}

/// The argument must be a plain identifier; gives its name.
pub fn only_pat_ident<L>(arg: &FnArgNode<L>) -> (r: Result<String, Diagnostic>)
    ensures
        spec_pat_ident(*arg) matches Some(n) ==> (r matches Ok(s) && s@ == n),
        spec_pat_ident(*arg) is None ==> fails_with(r, "expected an identifier"@),
{
    match arg {
        FnArgNode::Typed { pat: ArgPattern::Ident { name, plain }, .. } => {
            if *plain {
                Ok(name.clone())
            } else {
                Err(Diagnostic::custom("expected an identifier"))
            }
        },
        _ => Err(Diagnostic::custom("expected an identifier")),
    }
}

/// The function must declare its return type.
pub fn only_explicit_return_type<L>(output: &Option<TypeNode<L>>) -> (r: Result<(), Diagnostic>)
    ensures
        output is Some ==> r is Ok,
        output is None ==> fails_with(r, "must have an explicit return type"@),
{
    match output {
        Some(_) => Ok(()),
        None => Err(Diagnostic::custom("must have an explicit return type")),
    }
}

/// The body of a bodiless declaration: none, or a block with `statements`
/// statements. Only an empty block or no body is accepted.
pub fn no_fn_body(statements: Option<usize>) -> (r: Result<(), Diagnostic>)
    ensures
        (statements matches Some(n) && n > 0) ==> fails_with(
            r,
            "macro ignores fn body\nchange this to {}"@,
        ),
        !(statements matches Some(n) && n > 0) ==> r is Ok,
{
    match statements {
        Some(n) => if n > 0 {
            Err(Diagnostic::custom("macro ignores fn body\nchange this to {}"))
        } else {
            Ok(())
        },
        None => Ok(()),
    }
}

/// A function must not be `default`.
pub fn no_default_fn(defaultness: bool) -> (r: Result<(), Diagnostic>)
    ensures
        defaultness ==> fails_with(r, "fn cannot be `default` here"@),
        !defaultness ==> r is Ok,
{
    if defaultness {
        Err(Diagnostic::custom("fn cannot be `default` here"))
    } else {
        Ok(())
    }
}

/// The checks on an `impl` block: not `default`, not `unsafe`, not a trait
/// impl; every failed check is reported, in this order.
pub fn only_inherent_impl(defaultness: bool, unsafety: bool, trait_impl: bool) -> (r: Vec<
    Diagnostic,
>)
    ensures
        messages(r@) == failed_checks(
            seq![
                (defaultness, "impl cannot be `default`"@),
                (unsafety, "impl cannot be `unsafe`"@),
                (trait_impl, "cannot be a trait impl"@),
            ],
        ),
        unlocated(r@),
{
    let mut errors: Vec<Diagnostic> = Vec::new();
    check(&mut errors, defaultness, "impl cannot be `default`");
    check(&mut errors, unsafety, "impl cannot be `unsafe`");
    check(&mut errors, trait_impl, "cannot be a trait impl");
    proof {
        let c = seq![
            (defaultness, "impl cannot be `default`"@),
            (unsafety, "impl cannot be `unsafe`"@),
            (trait_impl, "cannot be a trait impl"@),
        ];
        assert(c.drop_last().drop_last().drop_last() =~= seq![]);
        assert(c.drop_last().drop_last() =~= seq![c[0]]);
        assert(c.drop_last() =~= seq![c[0], c[1]]);
        assert(seq![c[0]].drop_last() =~= seq![]);
        assert(seq![c[0], c[1]].drop_last() =~= seq![c[0]]);
        reveal_with_fuel(failed_checks, 4);
        assert(messages(errors@) =~= failed_checks(c));
    }
    errors
}

/// The checks on a trait: not `unsafe`, not `auto`.
pub fn only_regular_trait(unsafety: bool, auto: bool) -> (r: Vec<Diagnostic>)
    ensures
        messages(r@) == failed_checks(
            seq![(unsafety, "trait cannot be `unsafe`"@), (auto, "trait cannot be `auto`"@)],
        ),
        unlocated(r@),
{
    let mut errors: Vec<Diagnostic> = Vec::new();
    check(&mut errors, unsafety, "trait cannot be `unsafe`");
    check(&mut errors, auto, "trait cannot be `auto`");
    proof {
        let c = seq![(unsafety, "trait cannot be `unsafe`"@), (auto, "trait cannot be `auto`"@)];
        assert(c.drop_last().drop_last() =~= seq![]);
        assert(c.drop_last() =~= seq![c[0]]);
        assert(seq![c[0]].drop_last() =~= seq![]);
        reveal_with_fuel(failed_checks, 4);
        assert(messages(errors@) =~= failed_checks(c));
    }
    errors
}

/// The generics of an item that takes none.
pub struct NoGenerics;

impl NoGenerics {
    /// Accepts an item only without generic parameters and without a
    /// `where` clause; each one present is reported.
    pub fn from_generics(has_params: bool, has_where_clause: bool) -> (r: Result<
        NoGenerics,
        Vec<Diagnostic>,
    >)
        ensures
            !has_params && !has_where_clause ==> r is Ok,
            has_params || has_where_clause ==> (r matches Err(e) && messages(e@) == failed_checks(
                seq![
                    (has_params, "must not have generics"@),
                    (has_where_clause, "must not have a where clause"@),
                ],
            ) && unlocated(e@)),
    {
        let mut errors: Vec<Diagnostic> = Vec::new();
        check(&mut errors, has_params, "must not have generics");
        check(&mut errors, has_where_clause, "must not have a where clause");
        proof {
            let c = seq![
                (has_params, "must not have generics"@),
                (has_where_clause, "must not have a where clause"@),
            ];
            assert(c.drop_last().drop_last() =~= seq![]);
            assert(c.drop_last() =~= seq![c[0]]);
            assert(seq![c[0]].drop_last() =~= seq![]);
            reveal_with_fuel(failed_checks, 4);
        assert(messages(errors@) =~= failed_checks(c));
        }
        if errors.len() == 0 {
            Ok(NoGenerics)
        } else {
            Err(errors)
        }
    }
}

/// An `impl` or `trait` item the attribute is put on.
#[derive(Clone, Copy, PartialEq, Eq, Structural)]
pub enum OuterTypeKind {
    Impl,
    Trait,
}

} // verus!
