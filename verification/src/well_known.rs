//! The well-known JavaScript symbols a property can be keyed by.

use vstd::prelude::*;

use crate::text::{concat3, str_eq};

verus! {

/// A well-known symbol, `Symbol.<name>` in JavaScript.
#[derive(Clone, Copy, Debug, PartialEq, Eq, Structural)]
pub enum WellKnown {
    AsyncIterator,
    HasInstance,
    IsConcatSpreadable,
    Iterator,
    Match,
    Replace,
    Search,
    Split,
    ToPrimitive,
    ToStringTag,
    Unscopables,
}

/// Every well-known symbol, in declaration order.
pub open spec fn all_well_known() -> Seq<WellKnown> {
    seq![
        WellKnown::AsyncIterator,
        WellKnown::HasInstance,
        WellKnown::IsConcatSpreadable,
        WellKnown::Iterator,
        WellKnown::Match,
        WellKnown::Replace,
        WellKnown::Search,
        WellKnown::Split,
        WellKnown::ToPrimitive,
        WellKnown::ToStringTag,
        WellKnown::Unscopables,
    ]
}

impl WellKnown {
    /// The symbol's property name on the JavaScript `Symbol` object, which is
    /// also the name it is written with in an attribute (`Symbol(iterator)`).
    pub open spec fn spec_name(self) -> Seq<char> {
        match self {
            WellKnown::AsyncIterator => "asyncIterator"@,
            WellKnown::HasInstance => "hasInstance"@,
            WellKnown::IsConcatSpreadable => "isConcatSpreadable"@,
            WellKnown::Iterator => "iterator"@,
            WellKnown::Match => "match"@,
            WellKnown::Replace => "replace"@,
            WellKnown::Search => "search"@,
            WellKnown::Split => "split"@,
            WellKnown::ToPrimitive => "toPrimitive"@,
            WellKnown::ToStringTag => "toStringTag"@,
            WellKnown::Unscopables => "unscopables"@,
        }
    }

    /// The name of the `v8::Symbol` getter that returns this symbol.
    pub open spec fn spec_accessor(self) -> Seq<char> {
        match self {
            WellKnown::AsyncIterator => "get_async_iterator"@,
            WellKnown::HasInstance => "get_has_instance"@,
            WellKnown::IsConcatSpreadable => "get_is_concat_spreadable"@,
            WellKnown::Iterator => "get_iterator"@,
            WellKnown::Match => "get_match"@,
            WellKnown::Replace => "get_replace"@,
            WellKnown::Search => "get_search"@,
            WellKnown::Split => "get_split"@,
            WellKnown::ToPrimitive => "get_to_primitive"@,
            WellKnown::ToStringTag => "get_to_string_tag"@,
            WellKnown::Unscopables => "get_unscopables"@,
        }
    }

    /// How the symbol is shown in messages: `[Symbol.<name>]`.
    pub open spec fn spec_description(self) -> Seq<char> {
        "[Symbol."@ + self.spec_name() + "]"@
    }

    /// See [`Self::spec_name`].
    pub fn name(self) -> (r: &'static str)
        ensures
            r@ == self.spec_name(),
    {
        match self {
            WellKnown::AsyncIterator => "asyncIterator",
            WellKnown::HasInstance => "hasInstance",
            WellKnown::IsConcatSpreadable => "isConcatSpreadable",
            WellKnown::Iterator => "iterator",
            WellKnown::Match => "match",
            WellKnown::Replace => "replace",
            WellKnown::Search => "search",
            WellKnown::Split => "split",
            WellKnown::ToPrimitive => "toPrimitive",
            WellKnown::ToStringTag => "toStringTag",
            WellKnown::Unscopables => "unscopables",
        }
    }

    /// See [`Self::spec_accessor`].
    pub fn accessor(self) -> (r: &'static str)
        ensures
            r@ == self.spec_accessor(),
    {
        match self {
            WellKnown::AsyncIterator => "get_async_iterator",
            WellKnown::HasInstance => "get_has_instance",
            WellKnown::IsConcatSpreadable => "get_is_concat_spreadable",
            WellKnown::Iterator => "get_iterator",
            WellKnown::Match => "get_match",
            WellKnown::Replace => "get_replace",
            WellKnown::Search => "get_search",
            WellKnown::Split => "get_split",
            WellKnown::ToPrimitive => "get_to_primitive",
            WellKnown::ToStringTag => "get_to_string_tag",
            WellKnown::Unscopables => "get_unscopables",
        }
    }

    /// See [`Self::spec_description`].
    pub fn description(self) -> (r: String)
        ensures
            r@ == self.spec_description(),
    {
        concat3("[Symbol.", self.name(), "]")
    }

    /// The symbol written `name` in an attribute, if there is one.
    pub open spec fn spec_from_name(name: Seq<char>) -> Option<WellKnown> {
        if exists|i: int| 0 <= i < 11 && (#[trigger] all_well_known()[i]).spec_name() == name {
            Some(all_well_known()[choose|i: int| 0 <= i < 11 && (#[trigger] all_well_known()[i]).spec_name() == name])
        } else {
            None
        }
    }

    /// Parses a symbol name as written in an attribute (`asyncIterator`, ...).
    pub fn from_name(name: &str) -> (r: Option<WellKnown>)
        ensures
            r == WellKnown::spec_from_name(name@),
    {
        proof {
            lemma_names_distinct();
        }
        let all: [WellKnown; 11] = [
            WellKnown::AsyncIterator,
            WellKnown::HasInstance,
            WellKnown::IsConcatSpreadable,
            WellKnown::Iterator,
            WellKnown::Match,
            WellKnown::Replace,
            WellKnown::Search,
            WellKnown::Split,
            WellKnown::ToPrimitive,
            WellKnown::ToStringTag,
            WellKnown::Unscopables,
        ];
        assert(all@ =~= all_well_known());
        let mut i: usize = 0;
        while i < 11
            invariant
                0 <= i <= 11,
                all@ == all_well_known(),
                forall|j: int| 0 <= j < i ==> (#[trigger] all_well_known()[j]).spec_name() != name@,
                forall|a: int, b: int|
                    0 <= a < 11 && 0 <= b < 11 && a != b ==> (#[trigger] all_well_known()[a]).spec_name()
                        != (#[trigger] all_well_known()[b]).spec_name(),
            decreases 11 - i,
        {
            let w = all[i];
            if str_eq(w.name(), name) {
                return Some(w);
            }
            i = i + 1;
        }
        None
    }
}

/// The names of distinct symbols differ.
proof fn lemma_names_distinct()
    ensures
        forall|a: int, b: int|
            0 <= a < 11 && 0 <= b < 11 && a != b ==> (#[trigger] all_well_known()[a]).spec_name()
                != (#[trigger] all_well_known()[b]).spec_name(),
{
    reveal_strlit("asyncIterator");
    reveal_strlit("hasInstance");
    reveal_strlit("isConcatSpreadable");
    reveal_strlit("iterator");
    reveal_strlit("match");
    reveal_strlit("replace");
    reveal_strlit("search");
    reveal_strlit("split");
    reveal_strlit("toPrimitive");
    reveal_strlit("toStringTag");
    reveal_strlit("unscopables");
    assert forall|a: int, b: int|
        0 <= a < 11 && 0 <= b < 11 && a != b implies (#[trigger] all_well_known()[a]).spec_name()
            != (#[trigger] all_well_known()[b]).spec_name() by {
        let x = all_well_known()[a].spec_name();
        let y = all_well_known()[b].spec_name();
        if x.len() == y.len() {
            assert(x[0] != y[0] || x[1] != y[1] || x[2] != y[2] || x[x.len() - 1] != y[y.len() - 1]);
        }
    }
}

/// Parsing a symbol's own name gives the symbol back.
pub proof fn lemma_name_round_trip(w: WellKnown)
    ensures
        WellKnown::spec_from_name(w.spec_name()) == Some(w),
{
    lemma_names_distinct();
    let k: int = match w {
        WellKnown::AsyncIterator => 0,
        WellKnown::HasInstance => 1,
        WellKnown::IsConcatSpreadable => 2,
        WellKnown::Iterator => 3,
        WellKnown::Match => 4,
        WellKnown::Replace => 5,
        WellKnown::Search => 6,
        WellKnown::Split => 7,
        WellKnown::ToPrimitive => 8,
        WellKnown::ToStringTag => 9,
        WellKnown::Unscopables => 10,
    };
    assert(all_well_known()[k] == w);
}

/// Two symbols are shown alike in messages only if they are the same symbol.
pub proof fn lemma_description_injective(a: WellKnown, b: WellKnown)
    requires
        a.spec_description() == b.spec_description(),
    ensures
        a == b,
{
    lemma_name_round_trip(a);
    lemma_name_round_trip(b);
    assert(a.spec_description().len() == b.spec_description().len());
    assert(a.spec_name() =~= a.spec_description().subrange(8, a.spec_description().len() - 1)) by {
        reveal_strlit("[Symbol.");
        reveal_strlit("]");
    }
    assert(b.spec_name() =~= b.spec_description().subrange(8, b.spec_description().len() - 1)) by {
        reveal_strlit("[Symbol.");
        reveal_strlit("]");
    }
}

} // verus!
