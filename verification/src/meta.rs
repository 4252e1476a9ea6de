//! The options written inside an attribute, `#[js(module("a.js", url(cwd)))]`,
//! and the rules that read them.

use vstd::prelude::*;

use crate::diagnostic::Diagnostic;
use crate::text::str_eq;
use crate::well_known::WellKnown;

verus! {

/// A literal written in an attribute.
pub enum MetaLit {
    Str(String),
    Char(char),
    /// An integer, by its base-10 digits.
    Int(String),
    /// A float, by its base-10 digits.
    Float(String),
    /// Any other literal (bytes, booleans, ...).
    Other,
}

/// One item of an attribute's list, with the path of a nested item written
/// out (`a::b`).
pub enum NestedMeta {
    /// `name`
    Path(String),
    /// `name(...)`
    List(String),
    /// `name = ...`
    NameValue(String),
    /// A literal.
    Lit(MetaLit),
}

/// Why an attribute's options are refused.
pub enum MetaError {
    /// Fewer items than the number given.
    TooFewItems(usize),
    /// More items than the number given.
    TooManyItems(usize),
    /// An unknown name, with the names accepted there.
    UnknownField { name: String, alternatives: Vec<&'static str> },
    /// A literal of a kind not accepted there.
    UnexpectedLitType,
    /// A form (`list`, `name value`) not accepted there.
    UnsupportedFormat(&'static str),
    /// An option given twice.
    DuplicateField(&'static str),
}

/// An error as values.
pub enum MetaErrorView {
    TooFewItems(usize),
    TooManyItems(usize),
    UnknownField(Seq<char>, Seq<Seq<char>>),
    UnexpectedLitType,
    UnsupportedFormat(Seq<char>),
    DuplicateField(Seq<char>),
}

impl MetaError {
    pub open spec fn view(self) -> MetaErrorView {
        match self {
            MetaError::TooFewItems(n) => MetaErrorView::TooFewItems(n),
            MetaError::TooManyItems(n) => MetaErrorView::TooManyItems(n),
            MetaError::UnknownField { name, alternatives } => MetaErrorView::UnknownField(
                name@,
                alts_view(alternatives@),
            ),
            MetaError::UnexpectedLitType => MetaErrorView::UnexpectedLitType,
            MetaError::UnsupportedFormat(f) => MetaErrorView::UnsupportedFormat(f@),
            MetaError::DuplicateField(f) => MetaErrorView::DuplicateField(f@),
        }
    }
}

/// The path of a nested item.
pub open spec fn meta_path(m: NestedMeta) -> Option<Seq<char>> {
    match m {
        NestedMeta::Path(p) => Some(p@),
        NestedMeta::List(p) => Some(p@),
        NestedMeta::NameValue(p) => Some(p@),
        NestedMeta::Lit(_) => None,
    }
}

/// The names a list of alternatives holds.
pub open spec fn alts_view(v: Seq<&'static str>) -> Seq<Seq<char>> {
    v.map_values(|s: &'static str| s@)
}

/// Where `import.meta.url` of a module points.
pub enum ImportMetaUrl {
    /// The module's own path (the default).
    Preserve,
    /// A file of the current directory named after the module's path.
    Cwd,
    /// A given URL.
    Url(String),
}

/// The `url(...)` option as a mathematical value.
pub enum ImportMetaUrlView {
    Preserve,
    Cwd,
    Url(Seq<char>),
}

impl ImportMetaUrl {
    pub open spec fn view(self) -> ImportMetaUrlView {
        match self {
            ImportMetaUrl::Preserve => ImportMetaUrlView::Preserve,
            ImportMetaUrl::Cwd => ImportMetaUrlView::Cwd,
            ImportMetaUrl::Url(s) => ImportMetaUrlView::Url(s@),
        }
    }

    /// Reads `url(preserve)`, `url(cwd)` or `url("...")`: exactly one item,
    /// a name among `preserve` and `cwd`, or a string.
    pub fn from_list(items: &Vec<NestedMeta>) -> (r: Result<ImportMetaUrl, MetaError>)
        ensures
            match r {
                Ok(u) => spec_url_from_list(items@) == Ok::<ImportMetaUrlView, MetaErrorView>(u.view()),
                Err(e) => spec_url_from_list(items@) == Err::<ImportMetaUrlView, MetaErrorView>(e.view()),
            },
            items@.len() == 0 ==> r matches Err(MetaError::TooFewItems(1)),
            items@.len() > 1 ==> r matches Err(MetaError::TooManyItems(1)),
            items@.len() == 1 ==> match items@[0] {
                NestedMeta::Lit(MetaLit::Str(s)) => r matches Ok(u) && u.view()
                    == ImportMetaUrlView::Url(s@),
                NestedMeta::Lit(_) => r matches Err(MetaError::UnexpectedLitType),
                m => {
                    let p = meta_path(m)->0;
                    if p == "preserve"@ {
                        r matches Ok(ImportMetaUrl::Preserve)
                    } else if p == "cwd"@ {
                        r matches Ok(ImportMetaUrl::Cwd)
                    } else {
                        r matches Err(MetaError::UnknownField { name, alternatives }) && name@ == p
                            && alts_view(alternatives@) == seq![
                            "preserve"@,
                            "cwd"@,
                            "a string literal"@,
                        ]
                    }
                },
            },
    {
        if items.len() == 0 {
            return Err(MetaError::TooFewItems(1));
        }
        if items.len() > 1 {
            return Err(MetaError::TooManyItems(1));
        }
        let path = match &items[0] {
            NestedMeta::Lit(MetaLit::Str(s)) => return Ok(ImportMetaUrl::Url(s.clone())),
            NestedMeta::Lit(_) => return Err(MetaError::UnexpectedLitType),
            NestedMeta::Path(p) => p,
            NestedMeta::List(p) => p,
            NestedMeta::NameValue(p) => p,
        };
        if str_eq(path.as_str(), "preserve") {
            Ok(ImportMetaUrl::Preserve)
        } else if str_eq(path.as_str(), "cwd") {
            Ok(ImportMetaUrl::Cwd)
        } else {
            let alternatives = vec!["preserve", "cwd", "a string literal"];
            assert(alts_view(alternatives@) =~= seq!["preserve"@, "cwd"@, "a string literal"@]);
            Err(MetaError::UnknownField { name: path.clone(), alternatives })
        }
    }
}

/// How a module's source is embedded.
#[derive(Clone, Copy, PartialEq, Eq, Structural)]
pub enum FastString {
    /// As an ASCII `FastStaticString`, checked at compile time.
    Fast,
    /// As a `FastStaticString` built without the check in debug builds.
    FastUnsafeDebug,
}

impl FastString {
    /// Reads `fast` or `fast(unsafe_debug)`: no item, or one name or
    /// string, which must be `unsafe_debug`.
    pub fn from_list(items: &Vec<NestedMeta>) -> (r: Result<FastString, MetaError>)
        ensures
            match r {
                Ok(f) => spec_fast_from_list(items@) == Ok::<FastString, MetaErrorView>(f),
                Err(e) => spec_fast_from_list(items@) == Err::<FastString, MetaErrorView>(e.view()),
            },
            items@.len() == 0 ==> r == Ok::<FastString, MetaError>(FastString::Fast),
            items@.len() > 1 ==> r matches Err(MetaError::TooManyItems(1)),
            items@.len() == 1 ==> match items@[0] {
                NestedMeta::List(_) => r matches Err(MetaError::UnsupportedFormat(f)) && f@
                    == "list"@,
                NestedMeta::NameValue(_) => r matches Err(MetaError::UnsupportedFormat(f)) && f@
                    == "name value"@,
                NestedMeta::Lit(MetaLit::Str(s)) => if s@ == "unsafe_debug"@ {
                    r == Ok::<FastString, MetaError>(FastString::FastUnsafeDebug)
                } else {
                    r matches Err(MetaError::UnknownField { name, alternatives }) && name@ == s@
                        && alts_view(alternatives@) == seq!["unsafe_debug"@]
                },
                NestedMeta::Lit(_) => r matches Err(MetaError::UnexpectedLitType),
                NestedMeta::Path(p) => if p@ == "unsafe_debug"@ {
                    r == Ok::<FastString, MetaError>(FastString::FastUnsafeDebug)
                } else {
                    r matches Err(MetaError::UnknownField { name, alternatives }) && name@ == p@
                        && alts_view(alternatives@) == seq!["unsafe_debug"@]
                },
            },
    {
        if items.len() == 0 {
            return Ok(FastString::Fast);
        }
        if items.len() > 1 {
            return Err(MetaError::TooManyItems(1));
        }
        let path = match &items[0] {
            NestedMeta::Path(p) => p,
            NestedMeta::Lit(MetaLit::Str(s)) => s,
            NestedMeta::List(_) => return Err(MetaError::UnsupportedFormat("list")),
            NestedMeta::NameValue(_) => return Err(MetaError::UnsupportedFormat("name value")),
            NestedMeta::Lit(_) => return Err(MetaError::UnexpectedLitType),
        };
        if str_eq(path.as_str(), "unsafe_debug") {
            Ok(FastString::FastUnsafeDebug)
        } else {
            let alternatives = vec!["unsafe_debug"];
            assert(alts_view(alternatives@) =~= seq!["unsafe_debug"@]);
            Err(MetaError::UnknownField { name: path.clone(), alternatives })
        }
    }
}

/// An option that takes exactly one value: `name(value)`.
pub struct Unary<T>(pub T);

impl<T> Unary<T> {
    /// Requires exactly one item in `name(...)`.
    pub fn single(items: &Vec<NestedMeta>) -> (r: Result<(), MetaError>)
        ensures
            items@.len() == 1 ==> r is Ok,
            items@.len() == 0 ==> r matches Err(MetaError::TooFewItems(1)),
            items@.len() > 1 ==> r matches Err(MetaError::TooManyItems(1)),
    {
        if items.len() == 1 {
            Ok(())
        } else if items.len() == 0 {
            Err(MetaError::TooFewItems(1))
        } else {
            Err(MetaError::TooManyItems(1))
        }
    }
}

/// Options led by one positional item: `module("a.js", url(cwd))`.
pub struct Positional<P, T> {
    pub head: P,
    pub rest: T,
}

impl<P, T> Positional<P, T> {
    /// Combines the readings of a list of `count` items: with no item, the
    /// head and the rest read from nothing; else the first item read as
    /// the head and the others as the rest. The head is read first: its
    /// error is the one given, else that of the rest.
    pub fn combine(
        count: usize,
        empty_as_head: Result<P, Diagnostic>,
        empty_as_rest: Result<T, Diagnostic>,
        first_as_head: Result<P, Diagnostic>,
        others_as_rest: Result<T, Diagnostic>,
    ) -> (r: Result<Positional<P, T>, Diagnostic>)
        ensures
            ({
                let (head, rest) = if count == 0 {
                    (empty_as_head, empty_as_rest)
                } else {
                    (first_as_head, others_as_rest)
                };
                match (head, rest) {
                    (Err(e), _) => r == Err::<Positional<P, T>, Diagnostic>(e),
                    (Ok(_), Err(e)) => r == Err::<Positional<P, T>, Diagnostic>(e),
                    (Ok(h), Ok(t)) => r matches Ok(p) && p.head == h && p.rest == t,
                }
            }),
    {
        let (head, rest) = if count == 0 {
            (empty_as_head, empty_as_rest)
        } else {
            (first_as_head, others_as_rest)
        };
        let head = head?;
        let rest = rest?;
        Ok(Positional { head, rest })
    }
}

/// What a string-like option (`name(foo)`, `name("foo")`, `name(1)`)
/// hands on to be read.
pub enum StringLikeInput {
    Text(String),
    Char(char),
    /// A literal that cannot stand for a string.
    Unexpected,
}

/// An option whose value may be written as an identifier, a string, a
/// character or a number.
pub struct StringLike<T>(pub T);

/// The segments of a path written in an attribute: name, and whether it has
/// generic arguments.
pub open spec fn single_plain_segment(segments: Seq<(String, bool)>) -> Option<Seq<char>> {
    if segments.len() == 1 && !segments[0].1 {
        Some(segments[0].0@)
    } else {
        None
    }
}

impl<T> StringLike<T> {
    /// A name written as a path: one segment without arguments.
    pub fn from_path(segments: &Vec<(String, bool)>) -> (r: Result<String, Diagnostic>)
        ensures
            single_plain_segment(segments@) matches Some(n) ==> (r matches Ok(s) && s@ == n),
            single_plain_segment(segments@) is None ==> (r matches Err(e) && e.message@
                == "expected an identifier, a string, or a number"@ && e.location@.len() == 0),
    {
        if segments.len() == 1 && !segments[0].1 {
            Ok(segments[0].0.clone())
        } else {
            Err(Diagnostic::custom("expected an identifier, a string, or a number"))
        }
    }

    /// A value written as a literal: strings and characters as they are,
    /// numbers by their base-10 digits.
    pub fn from_value(lit: &MetaLit) -> (r: StringLikeInput)
        ensures
            match *lit {
                MetaLit::Str(s) => r matches StringLikeInput::Text(t) && t@ == s@,
                MetaLit::Int(d) => r matches StringLikeInput::Text(t) && t@ == d@,
                MetaLit::Float(d) => r matches StringLikeInput::Text(t) && t@ == d@,
                MetaLit::Char(c) => r == StringLikeInput::Char(c),
                MetaLit::Other => r is Unexpected,
            },
    {
        match lit {
            MetaLit::Str(s) => StringLikeInput::Text(s.clone()),
            MetaLit::Int(d) => StringLikeInput::Text(d.clone()),
            MetaLit::Float(d) => StringLikeInput::Text(d.clone()),
            MetaLit::Char(c) => StringLikeInput::Char(*c),
            MetaLit::Other => StringLikeInput::Unexpected,
        }
    }
}

/// What a path used as a property key names.
pub enum SymbolPath {
    /// `Symbol::<name>` of a well-known symbol.
    Key(WellKnown),
    /// `Symbol::<name>` of no well-known symbol.
    Unknown(String),
    /// Not a `Symbol::<name>` path.
    NotAKey,
}

/// Reads a property key written as a path: `Symbol::<name>`, both segments
/// without arguments.
pub fn symbol_from_path(segments: &Vec<(String, bool)>) -> (r: SymbolPath)
    ensures
        (segments@.len() == 2 && segments@[0].0@ == "Symbol"@ && !segments@[0].1
            && !segments@[1].1) ==> match WellKnown::spec_from_name(segments@[1].0@) {
            Some(w) => r == SymbolPath::Key(w),
            None => r matches SymbolPath::Unknown(n) && n@ == segments@[1].0@,
        },
        !(segments@.len() == 2 && segments@[0].0@ == "Symbol"@ && !segments@[0].1
            && !segments@[1].1) ==> r is NotAKey,
{
    if segments.len() == 2 && str_eq(segments[0].0.as_str(), "Symbol") && !segments[0].1
        && !segments[1].1 {
        match WellKnown::from_name(segments[1].0.as_str()) {
            Some(w) => SymbolPath::Key(w),
            None => SymbolPath::Unknown(segments[1].0.clone()),
        }
    } else {
        SymbolPath::NotAKey
    }
}

/// The message of a path that is not a property key.
pub open spec fn spec_not_a_key() -> Seq<char> {
    "property key must be a string, a number, or Symbol::*"@
}

/// See [`spec_not_a_key`].
pub fn not_a_key() -> (d: Diagnostic)
    ensures
        d.message@ == spec_not_a_key(),
        d.location@.len() == 0,
{
    Diagnostic::custom("property key must be a string, a number, or Symbol::*")
}

/// Reads `of(v8::Type)` of `#[js(value)]`: only a path is a type.
pub fn inner_type_meta(item: &NestedMeta) -> (r: Result<(), Diagnostic>)
    ensures
        item is Path ==> r is Ok,
        !(item is Path) ==> (r matches Err(e) && e.message@ == "expected a type path"@
            && e.location@.len() == 0),
{
    match item {
        NestedMeta::Path(_) => Ok(()),
        _ => Err(Diagnostic::custom("expected a type path")),
    }
}

/// The message for the item of `of(...)` of a newtype that is not a path.
pub open spec fn spec_inner_type_error(m: NestedMeta) -> Option<Seq<char>> {
    match m {
        NestedMeta::Lit(_) => Some("unexpected literal, expected a type path"@),
        NestedMeta::List(_) => Some("unexpected nested list, expected a type path"@),
        NestedMeta::NameValue(_) => Some("unexpected assignment, expected a type path"@),
        NestedMeta::Path(_) => None,
    }
}

/// Reads `of(Type)` of a newtype: exactly one item, a type path. Several
/// items are an error, but the first is still read; none is an error of
/// its own.
pub fn inner_type_from_list(items: &Vec<NestedMeta>) -> (r: Result<(), Vec<Diagnostic>>)
    ensures
        items@.len() == 0 ==> (r matches Err(v) && v@.len() == 1 && v@[0].message@
            == "must specify a type"@),
        items@.len() > 0 ==> {
            let first = spec_inner_type_error(items@[0]);
            let many = items@.len() > 1;
            &&& (!many && first is None) ==> r is Ok
            &&& (many || first is Some) ==> (r matches Err(v) && crate::sig::messages(v@) == (if many {
                seq!["must specify exactly 1 type"@]
            } else {
                seq![]
            }) + (match first {
                Some(m) => seq![m],
                None => seq![],
            }))
        },
{
    if items.len() == 0 {
        return Err(vec![Diagnostic::custom("must specify a type")]);
    }
    let mut errors: Vec<Diagnostic> = Vec::new();
    if items.len() > 1 {
        errors.push(Diagnostic::custom("must specify exactly 1 type"));
    }
    let ghost e0 = errors@;
    match &items[0] {
        NestedMeta::Lit(_) => errors.push(
            Diagnostic::custom("unexpected literal, expected a type path"),
        ),
        NestedMeta::List(_) => errors.push(
            Diagnostic::custom("unexpected nested list, expected a type path"),
        ),
        NestedMeta::NameValue(_) => errors.push(
            Diagnostic::custom("unexpected assignment, expected a type path"),
        ),
        NestedMeta::Path(_) => {},
    }
    assert(crate::sig::messages(errors@) =~= crate::sig::messages(e0) + (match spec_inner_type_error(
        items@[0],
    ) {
        Some(m) => seq![m],
        None => seq![],
    }));
    if errors.len() == 0 {
        Ok(())
    } else {
        Err(errors)
    }
}


/// What `url(...)` reads from its items, see [`ImportMetaUrl::from_list`].
pub open spec fn spec_url_from_list(items: Seq<NestedMeta>) -> Result<ImportMetaUrlView, MetaErrorView> {
    if items.len() == 0 {
        Err(MetaErrorView::TooFewItems(1))
    } else if items.len() > 1 {
        Err(MetaErrorView::TooManyItems(1))
    } else {
        match items[0] {
            NestedMeta::Lit(MetaLit::Str(s)) => Ok(ImportMetaUrlView::Url(s@)),
            NestedMeta::Lit(_) => Err(MetaErrorView::UnexpectedLitType),
            m => {
                let p = meta_path(m)->0;
                if p == "preserve"@ {
                    Ok(ImportMetaUrlView::Preserve)
                } else if p == "cwd"@ {
                    Ok(ImportMetaUrlView::Cwd)
                } else {
                    Err(MetaErrorView::UnknownField(p, seq!["preserve"@, "cwd"@, "a string literal"@]))
                }
            },
        }
    }
}

/// What `fast(...)` reads from its items, see [`FastString::from_list`].
pub open spec fn spec_fast_from_list(items: Seq<NestedMeta>) -> Result<FastString, MetaErrorView> {
    if items.len() == 0 {
        Ok(FastString::Fast)
    } else if items.len() > 1 {
        Err(MetaErrorView::TooManyItems(1))
    } else {
        match items[0] {
            NestedMeta::List(_) => Err(MetaErrorView::UnsupportedFormat("list"@)),
            NestedMeta::NameValue(_) => Err(MetaErrorView::UnsupportedFormat("name value"@)),
            NestedMeta::Lit(MetaLit::Str(s)) => if s@ == "unsafe_debug"@ {
                Ok(FastString::FastUnsafeDebug)
            } else {
                Err(MetaErrorView::UnknownField(s@, seq!["unsafe_debug"@]))
            },
            NestedMeta::Lit(_) => Err(MetaErrorView::UnexpectedLitType),
            NestedMeta::Path(p) => if p@ == "unsafe_debug"@ {
                Ok(FastString::FastUnsafeDebug)
            } else {
                Err(MetaErrorView::UnknownField(p@, seq!["unsafe_debug"@]))
            },
        }
    }
}

/// One option of a list, with the items of its own list (`url(cwd)`: the
/// item `url(...)` and the list `[cwd]`; empty for another form).
pub struct OptionItem {
    pub meta: NestedMeta,
    pub list: Vec<NestedMeta>,
}

/// The options of `#[js(module(...))]` after the path of the file.
pub struct ModuleOptions {
    pub url: ImportMetaUrl,
    pub side_module: bool,
    pub fast: Option<FastString>,
}

/// The options read so far: `url` if given, whether `side_module` was
/// given, and `fast` if given.
pub type OptionsRead = (Option<ImportMetaUrlView>, bool, Option<FastString>);

/// Reads one more option: `url(...)` with its list, `side_module` as a
/// word, `fast` as a word or with its list; an option given twice, a
/// literal, an unknown name, or a form the option does not take is an
/// error.
pub open spec fn read_option(st: OptionsRead, item: OptionItem) -> Result<OptionsRead, MetaErrorView> {
    match item.meta {
        NestedMeta::Lit(_) => Err(MetaErrorView::UnsupportedFormat("literal"@)),
        m => {
            let name = meta_path(m)->0;
            if name == "url"@ {
                if st.0 is Some {
                    Err(MetaErrorView::DuplicateField("url"@))
                } else {
                    match m {
                        NestedMeta::List(_) => match spec_url_from_list(item.list@) {
                            Ok(u) => Ok((Some(u), st.1, st.2)),
                            Err(e) => Err(e),
                        },
                        NestedMeta::Path(_) => Err(MetaErrorView::UnsupportedFormat("word"@)),
                        _ => Err(MetaErrorView::UnsupportedFormat("name value"@)),
                    }
                }
            } else if name == "side_module"@ {
                if st.1 {
                    Err(MetaErrorView::DuplicateField("side_module"@))
                } else {
                    match m {
                        NestedMeta::Path(_) => Ok((st.0, true, st.2)),
                        NestedMeta::List(_) => Err(MetaErrorView::UnsupportedFormat("list"@)),
                        _ => Err(MetaErrorView::UnsupportedFormat("name value"@)),
                    }
                }
            } else if name == "fast"@ {
                if st.2 is Some {
                    Err(MetaErrorView::DuplicateField("fast"@))
                } else {
                    match m {
                        NestedMeta::Path(_) => Ok((st.0, st.1, Some(FastString::Fast))),
                        NestedMeta::List(_) => match spec_fast_from_list(item.list@) {
                            Ok(f) => Ok((st.0, st.1, Some(f))),
                            Err(e) => Err(e),
                        },
                        _ => Err(MetaErrorView::UnsupportedFormat("name value"@)),
                    }
                }
            } else {
                Err(MetaErrorView::UnknownField(name, seq!["url"@, "side_module"@, "fast"@]))
            }
        },
    }
}

/// Reads the options in order; the first error stops the reading.
pub open spec fn read_options(items: Seq<OptionItem>) -> Result<OptionsRead, MetaErrorView>
    decreases items.len(),
{
    if items.len() == 0 {
        Ok((None, false, None))
    } else {
        match read_options(items.drop_last()) {
            Ok(st) => read_option(st, items.last()),
            Err(e) => Err(e),
        }
    }
}

/// The options read so far, as values.
pub open spec fn read_view(url: Option<ImportMetaUrl>, side_module: bool, fast: Option<FastString>) -> OptionsRead {
    (
        match url {
            Some(u) => Some(u.view()),
            None => None,
        },
        side_module,
        fast,
    )
}

/// Reads one option into those read so far, see [`read_option`].
fn read_one(
    item: &OptionItem,
    url: &mut Option<ImportMetaUrl>,
    side_module: &mut bool,
    fast: &mut Option<FastString>,
) -> (r: Result<(), MetaError>)
    ensures
        match r {
            Ok(()) => read_option(read_view(*old(url), *old(side_module), *old(fast)), *item) == Ok::<
                OptionsRead,
                MetaErrorView,
            >(read_view(*final(url), *final(side_module), *final(fast))),
            Err(e) => read_option(read_view(*old(url), *old(side_module), *old(fast)), *item) == Err::<
                OptionsRead,
                MetaErrorView,
            >(e.view()),
        },
{
    let name = match &item.meta {
        NestedMeta::Lit(_) => return Err(MetaError::UnsupportedFormat("literal")),
        NestedMeta::Path(p) => p,
        NestedMeta::List(p) => p,
        NestedMeta::NameValue(p) => p,
    };
    if str_eq(name.as_str(), "url") {
        if url.is_some() {
            return Err(MetaError::DuplicateField("url"));
        }
        match &item.meta {
            NestedMeta::List(_) => match ImportMetaUrl::from_list(&item.list) {
                Ok(u) => {
                    *url = Some(u);
                    Ok(())
                },
                Err(e) => Err(e),
            },
            NestedMeta::Path(_) => Err(MetaError::UnsupportedFormat("word")),
            _ => Err(MetaError::UnsupportedFormat("name value")),
        }
    } else if str_eq(name.as_str(), "side_module") {
        if *side_module {
            return Err(MetaError::DuplicateField("side_module"));
        }
        match &item.meta {
            NestedMeta::Path(_) => {
                *side_module = true;
                Ok(())
            },
            NestedMeta::List(_) => Err(MetaError::UnsupportedFormat("list")),
            _ => Err(MetaError::UnsupportedFormat("name value")),
        }
    } else if str_eq(name.as_str(), "fast") {
        if fast.is_some() {
            return Err(MetaError::DuplicateField("fast"));
        }
        match &item.meta {
            NestedMeta::Path(_) => {
                *fast = Some(FastString::Fast);
                Ok(())
            },
            NestedMeta::List(_) => match FastString::from_list(&item.list) {
                Ok(f) => {
                    *fast = Some(f);
                    Ok(())
                },
                Err(e) => Err(e),
            },
            _ => Err(MetaError::UnsupportedFormat("name value")),
        }
    } else {
        let alternatives = vec!["url", "side_module", "fast"];
        assert(alts_view(alternatives@) =~= seq!["url"@, "side_module"@, "fast"@]);
        Err(MetaError::UnknownField { name: name.clone(), alternatives })
    }
}

/// Once an option fails, the reading of the whole list fails with its
/// error.
proof fn lemma_error_stays(items: Seq<OptionItem>, j: int)
    requires
        0 <= j <= items.len(),
        read_options(items.take(j)) is Err,
    ensures
        read_options(items) == read_options(items.take(j)),
    decreases items.len() - j,
{
    if j == items.len() {
        assert(items.take(j) =~= items);
    } else {
        assert(items.take(j + 1).drop_last() =~= items.take(j));
        lemma_error_stays(items, j + 1);
    }
}

impl ModuleOptions {
    /// Reads `url(...)`, `side_module` and `fast(...)` (see
    /// [`read_options`]); `url` is `preserve` when not given.
    pub fn from_list(items: &Vec<OptionItem>) -> (r: Result<ModuleOptions, MetaError>)
        ensures
            match read_options(items@) {
                Ok((url, side_module, fast)) => r matches Ok(o) && o.url.view() == (match url {
                    Some(u) => u,
                    None => ImportMetaUrlView::Preserve,
                }) && o.side_module == side_module && o.fast == fast,
                Err(e) => r matches Err(x) && x.view() == e,
            },
    {
        let mut url: Option<ImportMetaUrl> = None;
        let mut side_module = false;
        let mut fast: Option<FastString> = None;
        let n = items.len();
        let mut i: usize = 0;
        assert(items@.take(0) =~= Seq::<OptionItem>::empty());
        while i < n
            invariant
                n == items@.len(),
                i <= n,
                read_options(items@.take(i as int)) == Ok::<OptionsRead, MetaErrorView>(
                    read_view(url, side_module, fast),
                ),
            decreases n - i,
        {
            assert(items@.take(i + 1).drop_last() =~= items@.take(i as int));
            assert(items@.take(i + 1).last() == items@[i as int]);
            match read_one(&items[i], &mut url, &mut side_module, &mut fast) {
                Ok(()) => {},
                Err(e) => {
                    proof {
                        lemma_error_stays(items@, i + 1);
                    }
                    return Err(e);
                },
            }
            i = i + 1;
        }
        assert(items@.take(n as int) =~= items@);
        let url = match url {
            Some(u) => u,
            None => ImportMetaUrl::Preserve,
        };
        Ok(ModuleOptions { url, side_module, fast })
    }
}


/// Each option sets only its own field: reading an item leaves `url` as it
/// was unless the item is `url`, `side_module` unless it is
/// `side_module`, and `fast` unless it is `fast`.
pub proof fn lemma_option_sets_own_field(st: OptionsRead, item: OptionItem)
    ensures
        read_option(st, item) matches Ok(next) ==> {
            &&& meta_path(item.meta) != Some("url"@) ==> next.0 == st.0
            &&& meta_path(item.meta) != Some("side_module"@) ==> next.1 == st.1
            &&& meta_path(item.meta) != Some("fast"@) ==> next.2 == st.2
        },
{
}

/// `fast` given as a word, when not given before, reads as `Fast`, and
/// `side_module` as a word sets the flag, whatever else was read.
pub proof fn lemma_option_words(st: OptionsRead, item: OptionItem)
    ensures
        item.meta is Path && item.meta->Path_0@ == "fast"@ && st.2 is None ==> read_option(st, item)
            == Ok::<OptionsRead, MetaErrorView>((st.0, st.1, Some(FastString::Fast))),
        item.meta is Path && item.meta->Path_0@ == "side_module"@ && !st.1 ==> read_option(st, item)
            == Ok::<OptionsRead, MetaErrorView>((st.0, true, st.2)),
{
    reveal_strlit("fast");
    reveal_strlit("url");
    reveal_strlit("side_module");
    assert("fast"@.len() == 4 && "url"@.len() == 3 && "side_module"@.len() == 11);
    assert("fast"@ != "url"@ && "fast"@ != "side_module"@ && "side_module"@ != "url"@);
}

/// Reading a list in order, each field is decided by its own items only:
/// an item of another name that reads without error never changes it.
pub proof fn lemma_options_fields_independent(items: Seq<OptionItem>, item: OptionItem)
    requires
        read_options(items) is Ok,
        read_options(items.push(item)) is Ok,
    ensures
        meta_path(item.meta) != Some("url"@) ==> read_options(items.push(item))->Ok_0.0 == read_options(
            items,
        )->Ok_0.0,
        meta_path(item.meta) != Some("side_module"@) ==> read_options(items.push(item))->Ok_0.1
            == read_options(items)->Ok_0.1,
        meta_path(item.meta) != Some("fast"@) ==> read_options(items.push(item))->Ok_0.2
            == read_options(items)->Ok_0.2,
{
    assert(items.push(item).drop_last() =~= items);
    lemma_option_sets_own_field(read_options(items)->Ok_0, item);
}

} // verus!
