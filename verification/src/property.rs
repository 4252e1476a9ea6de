//! Property keys: the name or symbol under which a Rust item is looked up on
//! a JavaScript object, and the rules that choose it.

use vstd::prelude::*;

use crate::diagnostic::{Caveat, Diagnostic};
use crate::text::{debug_text, debug_text_of, lower_camel_case_of, to_lower_camel_case};
use crate::well_known::WellKnown;

verus! {

/// The key a property is read, written or called under.
#[derive(Debug)]
pub enum PropertyKey {
    String(String),
    Symbol(WellKnown),
}

/// A property key as a mathematical value.
pub enum PropertyKeyView {
    String(Seq<char>),
    Symbol(WellKnown),
}

impl View for PropertyKey {
    type V = PropertyKeyView;

    open spec fn view(&self) -> PropertyKeyView {
        match self {
            PropertyKey::String(s) => PropertyKeyView::String(s@),
            PropertyKey::Symbol(w) => PropertyKeyView::Symbol(*w),
        }
    }
}

/// How a key is shown in messages (its `Debug` form): a quoted string, or
/// `[Symbol.<name>]`.
pub open spec fn spec_key_description(k: PropertyKeyView) -> Seq<char> {
    match k {
        PropertyKeyView::String(s) => debug_text_of(s),
        PropertyKeyView::Symbol(w) => w.spec_description(),
    }
}

impl PropertyKey {
    /// A string key.
    pub fn from_str(s: &str) -> (k: PropertyKey)
        ensures
            k@ == PropertyKeyView::String(s@),
    {
        PropertyKey::String(String::from_str(s))
    }

    /// A copy of the key.
    pub fn duplicate(&self) -> (k: PropertyKey)
        ensures
            k@ == self@,
    {
        match self {
            PropertyKey::String(s) => PropertyKey::String(s.clone()),
            PropertyKey::Symbol(w) => PropertyKey::Symbol(*w),
        }
    }

    /// The key as shown in messages, see [`spec_key_description`].
    pub fn description(&self) -> (r: String)
        ensures
            r@ == spec_key_description(self@),
    {
        match self {
            PropertyKey::String(s) => debug_text(s.as_str()),
            PropertyKey::Symbol(w) => w.description(),
        }
    }

    /// Whether the key is a string made of ASCII characters only; such keys
    /// are created with `ascii_str!`, other strings with `FastString`.
    pub fn is_ascii_string(&self) -> (r: bool)
        ensures
            r == (self@ matches PropertyKeyView::String(s) && vstd::utf8::is_ascii_chars(s)),
    {
        match self {
            PropertyKey::String(s) => s.as_str().is_ascii(),
            PropertyKey::Symbol(_) => false,
        }
    }
}

/// The key a Rust item named `ident` is given when no other key is
/// specified: the name in lowerCamelCase.
pub open spec fn spec_default_key(ident: Seq<char>) -> PropertyKeyView {
    PropertyKeyView::String(lower_camel_case_of(ident))
}

/// The key for a Rust item named `src`: `alt` when it is given, else the
/// item's name in lowerCamelCase.
pub fn property_key(src: &str, alt: Option<PropertyKey>) -> (k: PropertyKey)
    ensures
        k@ == (match alt {
            Some(key) => key@,
            None => spec_default_key(src@),
        }),
{
    match alt {
        Some(key) => key,
        None => PropertyKey::String(to_lower_camel_case(src)),
    }
}

/// The key chosen from an item's name and its optional `name(...)` and
/// `Symbol(...)` options.
pub open spec fn spec_resolve_name(
    ident: Seq<char>,
    name: Option<Seq<char>>,
    symbol: Option<WellKnown>,
) -> PropertyKeyView {
    match (name, symbol) {
        (Some(n), _) => PropertyKeyView::String(n),
        (None, Some(w)) => PropertyKeyView::Symbol(w),
        (None, None) => spec_default_key(ident),
    }
}

/// Chooses the key of a property or function: an explicit `name` wins, else
/// an explicit `Symbol`, else the item's name in lowerCamelCase. Giving both
/// a name and a symbol is an error; the name is used then.
pub fn resolve_name(ident: &str, name: Option<String>, symbol: Option<WellKnown>) -> (r: Caveat<
    PropertyKey,
>)
    ensures
        r.0@ == spec_resolve_name(
            ident@,
            match name {
                Some(n) => Some(n@),
                None => None,
            },
            symbol,
        ),
        (name is Some && symbol is Some) ==> (r.1@.len() == 1 && r.1@[0].message@
            == "cannot specify both a name and a symbol"@ && r.1@[0].location@.len() == 0),
        !(name is Some && symbol is Some) ==> r.1@.len() == 0,
{
    let mut errors: Vec<Diagnostic> = Vec::new();
    let both = name.is_some() && symbol.is_some();
    if both {
        errors.push(Diagnostic::custom("cannot specify both a name and a symbol"));
    }
    let key = match name {
        Some(n) => PropertyKey::String(n),
        None => match symbol {
            Some(w) => PropertyKey::Symbol(w),
            None => PropertyKey::String(to_lower_camel_case(ident)),
        },
    };
    Caveat(key, errors)
}

} // verus!
