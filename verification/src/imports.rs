//! The names the generated code imports, and the option wrappers that hand
//! on their inner value.

use vstd::prelude::*;

use crate::flag::FlagLike;
use crate::meta::{StringLike, Unary};

verus! {

/// The paths `use_prelude` brings into scope, so that the generated code
/// does not depend on the names in scope where it is expanded.
pub open spec fn spec_prelude_paths() -> Seq<Seq<char>> {
    seq![
        "::core::convert::AsRef"@,
        "::core::convert::From"@,
        "::core::convert::Infallible"@,
        "::core::convert::Into"@,
        "::core::default::Default"@,
        "::core::marker::Send"@,
        "::core::marker::Sync"@,
        "::core::option::Option"@,
        "::core::option::Option::None"@,
        "::core::option::Option::Some"@,
        "::core::result::Result::Err"@,
        "::core::result::Result::Ok"@,
        "_alloc::vec::Vec"@,
    ]
}

/// The paths `use_deno` brings into scope from `deno_core`.
pub open spec fn spec_deno_paths() -> Seq<Seq<char>> {
    seq![
        "deno_core::anyhow::anyhow"@,
        "deno_core::anyhow::Context"@,
        "deno_core::anyhow::Result"@,
        "deno_core::ascii_str"@,
        "deno_core::convert::FromV8"@,
        "deno_core::convert::ToV8"@,
        "deno_core::error::JsError"@,
        "deno_core::serde_v8"@,
        "deno_core::v8"@,
        "deno_core::FastString"@,
        "deno_core::JsRuntime"@,
    ]
}

/// The strings viewed as character sequences.
pub open spec fn strs_view(v: Seq<&'static str>) -> Seq<Seq<char>> {
    v.map_values(|s: &'static str| s@)
}

/// The standard names the generated code uses, imported by path (with the
/// `alloc` crate as `_alloc`).
#[allow(non_camel_case_types)]
pub struct use_prelude;

/// The `deno_core` names the generated code uses.
#[allow(non_camel_case_types)]
pub struct use_deno;

impl use_prelude {
    /// See [`spec_prelude_paths`].
    pub fn paths(&self) -> (r: Vec<&'static str>)
        ensures
            strs_view(r@) == spec_prelude_paths(),
    {
        let r = vec![
            "::core::convert::AsRef",
            "::core::convert::From",
            "::core::convert::Infallible",
            "::core::convert::Into",
            "::core::default::Default",
            "::core::marker::Send",
            "::core::marker::Sync",
            "::core::option::Option",
            "::core::option::Option::None",
            "::core::option::Option::Some",
            "::core::result::Result::Err",
            "::core::result::Result::Ok",
            "_alloc::vec::Vec",
        ];
        assert(strs_view(r@) =~= spec_prelude_paths());
        r
    }
}

impl use_deno {
    /// See [`spec_deno_paths`].
    pub fn paths(&self) -> (r: Vec<&'static str>)
        ensures
            strs_view(r@) == spec_deno_paths(),
    {
        let r = vec![
            "deno_core::anyhow::anyhow",
            "deno_core::anyhow::Context",
            "deno_core::anyhow::Result",
            "deno_core::ascii_str",
            "deno_core::convert::FromV8",
            "deno_core::convert::ToV8",
            "deno_core::error::JsError",
            "deno_core::serde_v8",
            "deno_core::v8",
            "deno_core::FastString",
            "deno_core::JsRuntime",
        ];
        assert(strs_view(r@) =~= spec_deno_paths());
        r
    }
}

/// An option wrapper that hands on the value it wraps.
pub trait NewtypeMeta<T>: Sized {
    /// The value handed on.
    spec fn spec_inner(self) -> T;

    fn into_inner(self) -> (r: T)
        ensures
            r == self.spec_inner(),
    ;
}

impl<T> NewtypeMeta<T> for FlagLike<T> {
    open spec fn spec_inner(self) -> T {
        self.0
    }

    fn into_inner(self) -> (r: T) {
        self.0
    }
}

impl<T> NewtypeMeta<T> for Unary<T> {
    open spec fn spec_inner(self) -> T {
        self.0
    }

    fn into_inner(self) -> (r: T) {
        self.0
    }
}

impl<T> NewtypeMeta<T> for StringLike<T> {
    open spec fn spec_inner(self) -> T {
        self.0
    }

    fn into_inner(self) -> (r: T) {
        self.0
    }
}

impl<T: NewtypeMeta<U>, U> NewtypeMeta<Option<U>> for Option<T> {
    open spec fn spec_inner(self) -> Option<U> {
        match self {
            Some(t) => Some(t.spec_inner()),
            None => None,
        }
    }

    fn into_inner(self) -> (r: Option<U>) {
        match self {
            Some(t) => Some(t.into_inner()),
            None => None,
        }
    }
}

} // verus!
