//! Flag attributes: `#[js(...)]` markers, how they are picked out of an
//! item's attributes, and the "exactly one" rule.

use vstd::prelude::*;

use crate::diagnostic::{Caveat, Diagnostic};
use crate::text::{concat2, concat3, str_eq};

verus! {

/// A parsed flag, such as the `prop` in `#[js(prop)]`.
pub struct FlagLike<T>(pub T);

/// A type whose values are written as `#[<prefix>(...)]`.
pub trait FlagName {
    spec fn spec_prefix() -> Seq<char>;

    fn prefix() -> (r: &'static str)
        ensures
            r@ == Self::spec_prefix(),
    ;
}

/// A flag type that offers several variants, each written
/// `#[<prefix>(<variant>)]`; the variants named in messages.
pub trait FlagEnum: FlagName {
    spec fn spec_prefixes() -> Seq<Seq<char>>;

    fn prefixes() -> (r: Vec<&'static str>)
        ensures
            r@.len() == Self::spec_prefixes().len(),
            forall|i: int| 0 <= i < r@.len() ==> (#[trigger] r@[i])@ == Self::spec_prefixes()[i],
    ;
}

/// One attribute of an item: its path as written, the attribute itself, and
/// what parsing it as the flag type gives.
pub struct FlagAttr<T, A> {
    pub name: String,
    pub attr: A,
    pub parsed: Result<T, Diagnostic>,
}

/// Whether an attribute is one of ours: its path is the flag's prefix.
pub open spec fn is_flag<T, A>(a: FlagAttr<T, A>, prefix: Seq<char>) -> bool {
    a.name@ == prefix
}

/// The flags parsed from the attributes that carry the prefix, in order.
pub open spec fn flag_items<T, A>(s: Seq<FlagAttr<T, A>>, prefix: Seq<char>) -> Seq<T>
    decreases s.len(),
{
    if s.len() == 0 {
        seq![]
    } else {
        let rest = flag_items(s.drop_first(), prefix);
        if is_flag(s[0], prefix) && s[0].parsed is Ok {
            seq![s[0].parsed->Ok_0] + rest
        } else {
            rest
        }
    }
}

/// The attributes left on the item: those that are not ours, and ours that
/// did not parse, in order.
pub open spec fn flag_rest<T, A>(s: Seq<FlagAttr<T, A>>, prefix: Seq<char>) -> Seq<A>
    decreases s.len(),
{
    if s.len() == 0 {
        seq![]
    } else {
        let rest = flag_rest(s.drop_first(), prefix);
        if is_flag(s[0], prefix) && s[0].parsed is Ok {
            rest
        } else {
            seq![s[0].attr] + rest
        }
    }
}

/// The errors of our attributes that did not parse, in order.
pub open spec fn flag_errors<T, A>(s: Seq<FlagAttr<T, A>>, prefix: Seq<char>) -> Seq<Diagnostic>
    decreases s.len(),
{
    if s.len() == 0 {
        seq![]
    } else {
        let rest = flag_errors(s.drop_first(), prefix);
        if is_flag(s[0], prefix) && s[0].parsed is Err {
            seq![s[0].parsed->Err_0] + rest
        } else {
            rest
        }
    }
}

/// Every attribute is either taken as a flag or left on the item.
pub proof fn lemma_collect_partitions<T, A>(s: Seq<FlagAttr<T, A>>, prefix: Seq<char>)
    ensures
        flag_items(s, prefix).len() + flag_rest(s, prefix).len() == s.len(),
        flag_errors(s, prefix).len() <= flag_rest(s, prefix).len(),
    decreases s.len(),
{
    if s.len() > 0 {
        lemma_collect_partitions(s.drop_first(), prefix);
    }
}

impl<T> FlagLike<T> {
    /// Picks the flags out of `attrs`: an attribute whose path is `prefix` is
    /// taken as a flag when it parses; one that does not parse stays on the
    /// item and its error is reported; other attributes stay on the item.
    pub fn collect<A>(prefix: &str, attrs: Vec<FlagAttr<T, A>>) -> (r: Caveat<(Vec<T>, Vec<A>)>)
        ensures
            r.0.0@ == flag_items(attrs@, prefix@),
            r.0.1@ == flag_rest(attrs@, prefix@),
            r.1@ == flag_errors(attrs@, prefix@),
    {
        let mut attrs = attrs;
        let ghost orig = attrs@;
        let mut items: Vec<T> = Vec::new();
        let mut rest: Vec<A> = Vec::new();
        let mut errors: Vec<Diagnostic> = Vec::new();
        while attrs.len() > 0
            invariant
                items@ + flag_items(attrs@, prefix@) == flag_items(orig, prefix@),
                rest@ + flag_rest(attrs@, prefix@) == flag_rest(orig, prefix@),
                errors@ + flag_errors(attrs@, prefix@) == flag_errors(orig, prefix@),
            decreases attrs@.len(),
        {
            let ghost before = attrs@;
            let a = attrs.remove(0);
            assert(attrs@ == before.drop_first());
            let FlagAttr { name, attr, parsed } = a;
            if str_eq(name.as_str(), prefix) {
                match parsed {
                    Ok(item) => {
                        items.push(item);
                        assert(items@ + flag_items(attrs@, prefix@) =~= flag_items(orig, prefix@));
                    },
                    Err(e) => {
                        rest.push(attr);
                        errors.push(e);
                        assert(rest@ + flag_rest(attrs@, prefix@) =~= flag_rest(orig, prefix@));
                        assert(errors@ + flag_errors(attrs@, prefix@) =~= flag_errors(
                            orig,
                            prefix@,
                        ));
                    },
                }
            } else {
                rest.push(attr);
                assert(rest@ + flag_rest(attrs@, prefix@) =~= flag_rest(orig, prefix@));
            }
        }
        assert(items@ =~= flag_items(orig, prefix@));
        assert(rest@ =~= flag_rest(orig, prefix@));
        assert(errors@ =~= flag_errors(orig, prefix@));
        Caveat((items, rest), errors)
    }
}

/// How one variant is written: `#[<prefix>(<choice>)]`.
pub open spec fn spec_choice(prefix: Seq<char>, choice: Seq<char>) -> Seq<char> {
    "#["@ + prefix + "("@ + choice + ")]"@
}

/// The variants joined by `, `.
pub open spec fn spec_choices(prefix: Seq<char>, choices: Seq<Seq<char>>) -> Seq<char>
    decreases choices.len(),
{
    if choices.len() == 0 {
        seq![]
    } else if choices.len() == 1 {
        spec_choice(prefix, choices[0])
    } else {
        spec_choices(prefix, choices.drop_last()) + ", "@ + spec_choice(prefix, choices.last())
    }
}

/// The message given when an item does not carry exactly one flag.
pub open spec fn spec_exactly_one_message(prefix: Seq<char>, choices: Seq<Seq<char>>) -> Seq<char> {
    "expected exactly one of "@ + spec_choices(prefix, choices)
}

/// See [`spec_choice`].
pub fn flag_location(prefix: &str, choice: &str) -> (r: String)
    ensures
        r@ == spec_choice(prefix@, choice@),
{
    let mut s = concat3("#[", prefix, "(");
    s.append(choice);
    s.append(")]");
    s
}

/// See [`spec_exactly_one_message`].
pub fn exactly_one_message(prefix: &str, choices: &Vec<&str>) -> (r: String)
    ensures
        r@ == spec_exactly_one_message(prefix@, choices@.map_values(|c: &str| c@)),
{
    let ghost cs = choices@.map_values(|c: &str| c@);
    let mut joined = String::new();
    let mut i: usize = 0;
    while i < choices.len()
        invariant
            i <= choices@.len(),
            cs == choices@.map_values(|c: &str| c@),
            joined@ == spec_choices(prefix@, cs.take(i as int)),
        decreases choices@.len() - i,
    {
        let one = flag_location(prefix, choices[i]);
        assert(cs.take(i + 1).drop_last() =~= cs.take(i as int));
        if i > 0 {
            joined.append(", ");
        } else {
            assert(cs.take(1) =~= seq![cs[0]]);
        }
        joined.append(one.as_str());
        i = i + 1;
    }
    assert(cs.take(choices@.len() as int) =~= cs);
    concat2("expected exactly one of ", joined.as_str())
}

/// The message given when an attribute's path is not the expected name.
pub open spec fn spec_unexpected_name(name: Seq<char>, prefix: Seq<char>) -> Seq<char> {
    "unexpected name `"@ + name + "`, expected `"@ + prefix + "`"@
}

/// Checks that an attribute's path is the flag's prefix.
pub fn test_name(prefix: &str, name: &str) -> (r: Result<(), Diagnostic>)
    ensures
        name@ == prefix@ ==> r is Ok,
        name@ != prefix@ ==> (r matches Err(e) && e.message@ == spec_unexpected_name(name@, prefix@)
            && e.location@.len() == 0),
{
    if str_eq(name, prefix) {
        Ok(())
    } else {
        let mut s = concat3("unexpected name `", name, "`, expected `");
        s.append(prefix);
        s.append("`");
        Err(Diagnostic::from_message(s))
    }
}

/// Requires exactly one flag among `attrs`: any parse error is returned as
/// is; otherwise one flag is returned with the attributes left on the item,
/// and none or several are an error naming the accepted variants.
pub fn exactly_one<T, A>(prefix: &str, choices: &Vec<&str>, attrs: Vec<FlagAttr<T, A>>) -> (r:
    Result<(T, Vec<A>), Vec<Diagnostic>>)
    ensures
        flag_errors(attrs@, prefix@).len() > 0 ==> (r matches Err(e) && e@ == flag_errors(
            attrs@,
            prefix@,
        )),
        flag_errors(attrs@, prefix@).len() == 0 && flag_items(attrs@, prefix@).len() == 1 ==> (
        r matches Ok((t, rest)) && t == flag_items(attrs@, prefix@)[0] && rest@ == flag_rest(
            attrs@,
            prefix@,
        )),
        flag_errors(attrs@, prefix@).len() == 0 && flag_items(attrs@, prefix@).len() != 1 ==> (
        r matches Err(e) && e@.len() == 1 && e@[0].message@ == spec_exactly_one_message(
            prefix@,
            choices@.map_values(|c: &str| c@),
        ) && e@[0].location@.len() == 0),
{
    let collected = FlagLike::<T>::collect(prefix, attrs);
    match collected.into_result() {
        Err(e) => Err(e),
        Ok((items, rest)) => {
            if items.len() == 1 {
                let mut items = items;
                let item = items.pop().unwrap();
                Ok((item, rest))
            } else {
                let msg = exactly_one_message(prefix, choices);
                let mut errs: Vec<Diagnostic> = Vec::new();
                errs.push(Diagnostic::from_message(msg));
                Err(errs)
            }
        },
    }
}

} // verus!
