//! What is generated for `#[js(module(...))]`, `#[js(global_this)]` and
//! `#[js(value)]` on a unit struct: the hidden module it goes in, and for a
//! module how its source is embedded, where its URL points and how it is
//! loaded.

use vstd::prelude::*;

use crate::diagnostic::Diagnostic;
use crate::meta::{FastString, ImportMetaUrl, ImportMetaUrlView, Unary};
use crate::sig::{failed_checks, messages, unlocated, NoGenerics};
use crate::naming::{ident_mod_name, spec_ident_mod_name};

verus! {

/// The attribute on a unit struct.
#[derive(Clone, Copy, PartialEq, Eq, Structural)]
pub enum StructItem {
    Module,
    GlobalThis,
    Value,
}

/// The prefix of the hidden module for each attribute.
pub open spec fn spec_struct_prefix(kind: StructItem) -> Seq<char> {
    match kind {
        StructItem::Module => "module"@,
        StructItem::GlobalThis => "global_this"@,
        StructItem::Value => "value"@,
    }
}

/// The name of the hidden module generated for the struct `ident`.
pub fn struct_module_name(kind: StructItem, ident: &str) -> (r: String)
    ensures
        r@ == spec_ident_mod_name(spec_struct_prefix(kind), ident@),
{
    let prefix = match kind {
        StructItem::Module => "module",
        StructItem::GlobalThis => "global_this",
        StructItem::Value => "value",
    };
    ident_mod_name(prefix, ident)
}

/// The options of `#[js(module(...))]`.
pub struct Module {
    /// The path of the JavaScript file, relative to the Rust file.
    pub import: Unary<String>,
    pub url: ImportMetaUrl,
    /// `side_module`: loaded as a side module rather than the main one.
    pub side_module: bool,
    pub fast: Option<FastString>,
}

/// How the module's source is embedded as `MODULE_SRC`.
#[derive(Clone, Copy, PartialEq, Eq, Structural)]
pub enum SourceEmbed {
    /// `include_str!`: a `&str`.
    IncludeStr,
    /// `ascii_str_include!`: a `FastStaticString`, checked to be ASCII at
    /// compile time.
    AsciiInclude,
    /// `unsafe_include_fast_string!`: a `FastStaticString`, unchecked in
    /// debug builds.
    UnsafeFastString,
}

/// What is generated for a module.
pub struct ModulePlan {
    pub inner_mod: String,
    pub import: String,
    pub embed: SourceEmbed,
    /// `MODULE_SRC` (and what `preload` returns) is a `FastStaticString`
    /// rather than a `&str`.
    pub fast_source: bool,
    pub url: ImportMetaUrl,
    /// The `JsRuntime` method that loads the module from its source.
    pub load_from_code: &'static str,
    /// The `JsRuntime` method that loads a module registered beforehand.
    pub load_from_loader: &'static str,
}

/// How the source is embedded for each `fast` option.
pub open spec fn spec_embed(fast: Option<FastString>) -> SourceEmbed {
    match fast {
        None => SourceEmbed::IncludeStr,
        Some(FastString::Fast) => SourceEmbed::AsciiInclude,
        Some(FastString::FastUnsafeDebug) => SourceEmbed::UnsafeFastString,
    }
}

impl Module {
    /// The plan of the module struct `ident`: its hidden module; its source
    /// embedded as a `&str` unless `fast` is given; its URL as given; loaded
    /// with the side-module methods of `JsRuntime` when `side_module` is
    /// given, else with the main-module ones.
    pub fn plan(self, ident: &str) -> (p: ModulePlan)
        ensures
            p.inner_mod@ == spec_ident_mod_name("module"@, ident@),
            p.import@ == self.import.0@,
            p.embed == spec_embed(self.fast),
            p.fast_source == (self.fast is Some),
            p.url.view() == self.url.view(),
            p.load_from_code@ == (if self.side_module {
                "load_side_es_module_from_code"@
            } else {
                "load_main_es_module_from_code"@
            }),
            p.load_from_loader@ == (if self.side_module {
                "load_side_es_module"@
            } else {
                "load_main_es_module"@
            }),
    {
        let inner_mod = struct_module_name(StructItem::Module, ident);
        let embed = match self.fast {
            None => SourceEmbed::IncludeStr,
            Some(FastString::Fast) => SourceEmbed::AsciiInclude,
            Some(FastString::FastUnsafeDebug) => SourceEmbed::UnsafeFastString,
        };
        let fast_source = self.fast.is_some();
        let load_from_code = if self.side_module {
            "load_side_es_module_from_code"
        } else {
            "load_main_es_module_from_code"
        };
        let load_from_loader = if self.side_module {
            "load_side_es_module"
        } else {
            "load_main_es_module"
        };
        let Module { import, url, .. } = self;
        let Unary(import) = import;
        ModulePlan { inner_mod, import, embed, fast_source, url, load_from_code, load_from_loader }
    }
}

/// The context of an error building the module's URL.
pub fn url_error_context() -> (r: &'static str)
    ensures
        r@ == "failed to build module url"@,
{
    "failed to build module url"
}


/// The shape of the item the attribute is put on.
#[derive(Clone, Copy, PartialEq, Eq, Structural)]
pub enum ItemShape {
    /// A struct without fields.
    Unit,
    /// A struct with named fields.
    Named,
    /// A struct with two or more unnamed fields.
    Tuple,
    /// A struct with one unnamed field.
    Newtype,
    Enum,
    Union,
}

/// The message for an item that is not a unit struct.
pub open spec fn spec_shape_error(shape: ItemShape) -> Option<Seq<char>> {
    match shape {
        ItemShape::Unit => None,
        ItemShape::Named => Some("Unsupported shape `named fields`. Expected no fields."@),
        ItemShape::Tuple => Some("Unsupported shape `unnamed fields`. Expected no fields."@),
        ItemShape::Newtype => Some("Unsupported shape `one unnamed field`. Expected no fields."@),
        ItemShape::Enum => Some("Unsupported shape `enum`. Expected struct with no fields."@),
        ItemShape::Union => Some("Unsupported shape `union`. Expected struct with no fields."@),
    }
}

/// The errors of a unit-struct item, in order: its shape, then its
/// generic parameters and `where` clause.
pub open spec fn spec_unit_struct_errors(shape: ItemShape, has_params: bool, has_where_clause: bool) -> Seq<
    Seq<char>,
> {
    (match spec_shape_error(shape) {
        Some(m) => seq![m],
        None => seq![],
    }) + failed_checks(
        seq![
            (has_params, "must not have generics"@),
            (has_where_clause, "must not have a where clause"@),
        ],
    )
}

/// Accepts only a unit struct without generics (`#[js(module)]`,
/// `#[js(global_this)]`, `#[js(value)]`); every error is reported.
pub fn check_unit_struct(shape: ItemShape, has_params: bool, has_where_clause: bool) -> (r: Result<
    (),
    Vec<Diagnostic>,
>)
    ensures
        r is Ok <==> spec_unit_struct_errors(shape, has_params, has_where_clause).len() == 0,
        r matches Err(e) ==> messages(e@) == spec_unit_struct_errors(shape, has_params, has_where_clause)
            && unlocated(e@),
{
    let mut errors: Vec<Diagnostic> = Vec::new();
    let message: Option<&'static str> = match shape {
        ItemShape::Unit => None,
        ItemShape::Named => Some("Unsupported shape `named fields`. Expected no fields."),
        ItemShape::Tuple => Some("Unsupported shape `unnamed fields`. Expected no fields."),
        ItemShape::Newtype => Some("Unsupported shape `one unnamed field`. Expected no fields."),
        ItemShape::Enum => Some("Unsupported shape `enum`. Expected struct with no fields."),
        ItemShape::Union => Some("Unsupported shape `union`. Expected struct with no fields."),
    };
    match message {
        Some(m) => errors.push(Diagnostic::custom(m)),
        None => {},
    }
    let ghost head = errors@;
    assert(messages(head) =~= match spec_shape_error(shape) {
        Some(m) => seq![m],
        None => seq![],
    });
    match NoGenerics::from_generics(has_params, has_where_clause) {
        Ok(_) => {
            proof {
                reveal_with_fuel(failed_checks, 3);
            }
            assert(messages(errors@) =~= spec_unit_struct_errors(shape, has_params, has_where_clause));
        },
        Err(mut more) => {
            let ghost mv = more@;
            errors.append(&mut more);
            assert(messages(errors@) =~= messages(head) + messages(mv));
        },
    }
    if errors.len() == 0 {
        Ok(())
    } else {
        Err(errors)
    }
}

} // verus!
