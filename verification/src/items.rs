//! The `#[js(...)]` attribute's variants and where each may be used.

use vstd::prelude::*;

use crate::diagnostic::Diagnostic;
use crate::flag::{spec_choice, FlagEnum, FlagName};

verus! {

/// The variants of `#[js(...)]`.
#[derive(Clone, Copy, PartialEq, Eq, Structural)]
pub enum JsItem {
    Module,
    GlobalThis,
    Value,
    Interface,
    Function,
    Iterator,
    Prop,
    Func,
    New,
    Get,
    Setter,
}

impl JsItem {
    /// How the variant is written inside `#[js(...)]`.
    pub open spec fn spec_name(self) -> Seq<char> {
        match self {
            JsItem::Module => "module"@,
            JsItem::GlobalThis => "global_this"@,
            JsItem::Value => "value"@,
            JsItem::Interface => "interface"@,
            JsItem::Function => "function"@,
            JsItem::Iterator => "iterator"@,
            JsItem::Prop => "prop"@,
            JsItem::Func => "func"@,
            JsItem::New => "new"@,
            JsItem::Get => "get"@,
            JsItem::Setter => "set"@,
        }
    }

    /// See [`Self::spec_name`].
    pub fn name(self) -> (r: &'static str)
        ensures
            r@ == self.spec_name(),
    {
        match self {
            JsItem::Module => "module",
            JsItem::GlobalThis => "global_this",
            JsItem::Value => "value",
            JsItem::Interface => "interface",
            JsItem::Function => "function",
            JsItem::Iterator => "iterator",
            JsItem::Prop => "prop",
            JsItem::Func => "func",
            JsItem::New => "new",
            JsItem::Get => "get",
            JsItem::Setter => "set",
        }
    }

    /// The variant written as `name`, if any.
    pub fn from_name(name: &str) -> (r: Option<JsItem>)
        ensures
            r matches Some(v) ==> v.spec_name() == name@,
            r is None ==> forall|v: JsItem| v.spec_name() != name@,
    {
        let all = [
            JsItem::Module,
            JsItem::GlobalThis,
            JsItem::Value,
            JsItem::Interface,
            JsItem::Function,
            JsItem::Iterator,
            JsItem::Prop,
            JsItem::Func,
            JsItem::New,
            JsItem::Get,
            JsItem::Setter,
        ];
        let mut i: usize = 0;
        while i < 11
            invariant
                i <= 11,
                all@ == seq![
                    JsItem::Module,
                    JsItem::GlobalThis,
                    JsItem::Value,
                    JsItem::Interface,
                    JsItem::Function,
                    JsItem::Iterator,
                    JsItem::Prop,
                    JsItem::Func,
                    JsItem::New,
                    JsItem::Get,
                    JsItem::Setter,
                ],
                forall|j: int| 0 <= j < i ==> all@[j].spec_name() != name@,
            decreases 11 - i,
        {
            if crate::text::str_eq(all[i].name(), name) {
                return Some(all[i]);
            }
            i = i + 1;
        }
        assert forall|v: JsItem| v.spec_name() != name@ by {
            match v {
                JsItem::Module => assert(all@[0] == v),
                JsItem::GlobalThis => assert(all@[1] == v),
                JsItem::Value => assert(all@[2] == v),
                JsItem::Interface => assert(all@[3] == v),
                JsItem::Function => assert(all@[4] == v),
                JsItem::Iterator => assert(all@[5] == v),
                JsItem::Prop => assert(all@[6] == v),
                JsItem::Func => assert(all@[7] == v),
                JsItem::New => assert(all@[8] == v),
                JsItem::Get => assert(all@[9] == v),
                JsItem::Setter => assert(all@[10] == v),
            }
        }
        None
    }

    /// Whether the variant marks an item (rather than a member of an
    /// interface).
    pub open spec fn spec_is_item(self) -> bool {
        match self {
            JsItem::Module | JsItem::GlobalThis | JsItem::Value | JsItem::Interface
            | JsItem::Function | JsItem::Iterator => true,
            _ => false,
        }
    }

    /// Accepts the variants that mark an item; the members of an interface
    /// are refused at the top level.
    pub fn as_item(self) -> (r: Result<JsItem, Diagnostic>)
        ensures
            self.spec_is_item() ==> r == Ok::<JsItem, Diagnostic>(self),
            !self.spec_is_item() ==> (r matches Err(e) && e.message@
                == "should be use within a #[js(interface)] impl or trait"@ && e.location@.len() == 0),
    {
        match self {
            JsItem::Module | JsItem::GlobalThis | JsItem::Value | JsItem::Interface
            | JsItem::Function | JsItem::Iterator => Ok(self),
            _ => Err(Diagnostic::custom("should be use within a #[js(interface)] impl or trait")),
        }
    }

    /// Where errors of this variant are reported: `#[js(<name>)]`.
    pub fn location(self) -> (r: String)
        ensures
            r@ == spec_choice("js"@, self.spec_name()),
    {
        crate::flag::flag_location("js", self.name())
    }
}

impl FlagName for JsItem {
    open spec fn spec_prefix() -> Seq<char> {
        "js"@
    }

    fn prefix() -> (r: &'static str) {
        "js"
    }
}

impl FlagEnum for JsItem {
    open spec fn spec_prefixes() -> Seq<Seq<char>> {
        seq!["module"@, "global_this"@, "value"@, "interface"@]
    }

    fn prefixes() -> (r: Vec<&'static str>) {
        let r = vec!["module", "global_this", "value", "interface"];
        assert(r@.len() == 4);
        r
    }
}

/// The variants of `#[js(...)]` on a member of an interface.
#[derive(Clone, Copy, PartialEq, Eq, Structural)]
pub enum JsProperty {
    Prop,
    Func,
    New,
    Get,
    Setter,
}

impl JsProperty {
    /// How the variant is written inside `#[js(...)]`.
    pub open spec fn spec_name(self) -> Seq<char> {
        match self {
            JsProperty::Prop => "prop"@,
            JsProperty::Func => "func"@,
            JsProperty::New => "new"@,
            JsProperty::Get => "get"@,
            JsProperty::Setter => "set"@,
        }
    }

    /// See [`Self::spec_name`].
    pub fn name(self) -> (r: &'static str)
        ensures
            r@ == self.spec_name(),
    {
        match self {
            JsProperty::Prop => "prop",
            JsProperty::Func => "func",
            JsProperty::New => "new",
            JsProperty::Get => "get",
            JsProperty::Setter => "set",
        }
    }

    /// Where errors of this variant are reported: `#[js(<name>)]`.
    pub fn location(self) -> (r: String)
        ensures
            r@ == spec_choice("js"@, self.spec_name()),
    {
        crate::flag::flag_location("js", self.name())
    }

    /// The member variant written as `name`, if any.
    pub fn from_name(name: &str) -> (r: Option<JsProperty>)
        ensures
            r matches Some(v) ==> v.spec_name() == name@,
            r is None ==> forall|v: JsProperty| v.spec_name() != name@,
    {
        if crate::text::str_eq(name, "prop") {
            Some(JsProperty::Prop)
        } else if crate::text::str_eq(name, "func") {
            Some(JsProperty::Func)
        } else if crate::text::str_eq(name, "new") {
            Some(JsProperty::New)
        } else if crate::text::str_eq(name, "get") {
            Some(JsProperty::Get)
        } else if crate::text::str_eq(name, "set") {
            Some(JsProperty::Setter)
        } else {
            None
        }
    }
}

impl FlagName for JsProperty {
    open spec fn spec_prefix() -> Seq<char> {
        "js"@
    }

    fn prefix() -> (r: &'static str) {
        "js"
    }
}

impl FlagEnum for JsProperty {
    open spec fn spec_prefixes() -> Seq<Seq<char>> {
        seq!["prop"@, "func"@, "new"@]
    }

    fn prefixes() -> (r: Vec<&'static str>) {
        let r = vec!["prop", "func", "new"];
        assert(r@.len() == 3);
        r
    }
}


/// The variant whose name has this length and first character.
spec fn item_by_shape(len: nat, first: char) -> JsItem {
    if len == 6 && first == 'm' {
        JsItem::Module
    } else if len == 11 && first == 'g' {
        JsItem::GlobalThis
    } else if len == 5 && first == 'v' {
        JsItem::Value
    } else if len == 9 && first == 'i' {
        JsItem::Interface
    } else if len == 8 && first == 'f' {
        JsItem::Function
    } else if len == 8 && first == 'i' {
        JsItem::Iterator
    } else if len == 4 && first == 'p' {
        JsItem::Prop
    } else if len == 4 && first == 'f' {
        JsItem::Func
    } else if len == 3 && first == 'n' {
        JsItem::New
    } else if len == 3 && first == 'g' {
        JsItem::Get
    } else {
        JsItem::Setter
    }
}

/// Each variant is written with a name of its own, so the name read from
/// an attribute determines the variant.
pub proof fn lemma_item_names_distinct(a: JsItem, b: JsItem)
    requires
        a.spec_name() == b.spec_name(),
    ensures
        a == b,
{
    assert forall|v: JsItem| #[trigger] item_by_shape(v.spec_name().len(), v.spec_name()[0]) == v by {
        match v {
        JsItem::Module => reveal_strlit("module"),
        JsItem::GlobalThis => reveal_strlit("global_this"),
        JsItem::Value => reveal_strlit("value"),
        JsItem::Interface => reveal_strlit("interface"),
        JsItem::Function => reveal_strlit("function"),
        JsItem::Iterator => reveal_strlit("iterator"),
        JsItem::Prop => reveal_strlit("prop"),
        JsItem::Func => reveal_strlit("func"),
        JsItem::New => reveal_strlit("new"),
        JsItem::Get => reveal_strlit("get"),
        JsItem::Setter => reveal_strlit("set"),
        }
    }
    assert(item_by_shape(a.spec_name().len(), a.spec_name()[0]) == a);
    assert(item_by_shape(b.spec_name().len(), b.spec_name()[0]) == b);
}

/// The variant whose name has this length and first character.
spec fn property_by_shape(len: nat, first: char) -> JsProperty {
    if len == 4 && first == 'p' {
        JsProperty::Prop
    } else if len == 4 && first == 'f' {
        JsProperty::Func
    } else if len == 3 && first == 'n' {
        JsProperty::New
    } else if len == 3 && first == 'g' {
        JsProperty::Get
    } else {
        JsProperty::Setter
    }
}

/// Each member variant is written with a name of its own.
pub proof fn lemma_property_names_distinct(a: JsProperty, b: JsProperty)
    requires
        a.spec_name() == b.spec_name(),
    ensures
        a == b,
{
    assert forall|v: JsProperty| #[trigger] property_by_shape(v.spec_name().len(), v.spec_name()[0]) == v by {
        match v {
        JsProperty::Prop => reveal_strlit("prop"),
        JsProperty::Func => reveal_strlit("func"),
        JsProperty::New => reveal_strlit("new"),
        JsProperty::Get => reveal_strlit("get"),
        JsProperty::Setter => reveal_strlit("set"),
        }
    }
    assert(property_by_shape(a.spec_name().len(), a.spec_name()[0]) == a);
    assert(property_by_shape(b.spec_name().len(), b.spec_name()[0]) == b);
}

} // verus!
