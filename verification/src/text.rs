//! String helpers shared by the naming rules.

use vstd::prelude::*;

verus! {

/// Whether two string slices hold the same characters.
pub fn str_eq(a: &str, b: &str) -> (r: bool)
    ensures
        r == (a@ == b@),
{
    let n = a.unicode_len();
    let m = b.unicode_len();
    if n != m {
        return false;
    }
    let mut i: usize = 0;
    while i < n
        invariant
            n == a@.len(),
            m == b@.len(),
            n == m,
            i <= n,
            forall|j: int| 0 <= j < i ==> a@[j] == b@[j],
        decreases n - i,
    {
        if a.get_char(i) != b.get_char(i) {
            return false;
        }
        i = i + 1;
    }
    assert(a@ =~= b@);
    true
}

/// The concatenation of two string slices as a new `String`.
pub fn concat2(a: &str, b: &str) -> (r: String)
    ensures
        r@ == a@ + b@,
{
    let mut s = String::from_str(a);
    s.append(b);
    s
}

/// The concatenation of three string slices as a new `String`.
pub fn concat3(a: &str, b: &str, c: &str) -> (r: String)
    ensures
        r@ == a@ + b@ + c@,
{
    let mut s = String::from_str(a);
    s.append(b);
    s.append(c);
    s
}

} // verus!

verus! {

/// What `heck`'s lowerCamelCase conversion makes of a string.
pub uninterp spec fn lower_camel_case_of(s: Seq<char>) -> Seq<char>;

/// What `heck`'s snake_case conversion makes of a string.
pub uninterp spec fn snake_case_of(s: Seq<char>) -> Seq<char>;

/// What `str::to_lowercase` makes of a string.
pub uninterp spec fn lowercase_of(s: Seq<char>) -> Seq<char>;

/// `heck::ToLowerCamelCase::to_lower_camel_case`: its result is named, a
/// function of the input characters alone.
#[verifier::external_body]
pub(crate) fn to_lower_camel_case(s: &str) -> (r: String)
    ensures
        r@ == lower_camel_case_of(s@),
{
    heck::ToLowerCamelCase::to_lower_camel_case(s)
}

/// `heck::ToSnakeCase::to_snake_case`: its result is named, a function of
/// the input characters alone.
#[verifier::external_body]
pub(crate) fn to_snake_case(s: &str) -> (r: String)
    ensures
        r@ == snake_case_of(s@),
{
    heck::ToSnakeCase::to_snake_case(s)
}

/// `str::to_lowercase`: its result is named, a function of the input
/// characters alone (Unicode lowercase mapping).
#[verifier::external_body]
pub(crate) fn to_lowercase(s: &str) -> (r: String)
    ensures
        r@ == lowercase_of(s@),
{
    s.to_lowercase()
}

} // verus!

verus! {

/// What `<str as Debug>::fmt` writes for a string: the string quoted, with
/// the characters that need it escaped.
pub uninterp spec fn debug_text_of(s: Seq<char>) -> Seq<char>;

/// `format!("{:?}", s)` for a string slice: its result is named, a function
/// of the input characters alone.
#[verifier::external_body]
pub(crate) fn debug_text(s: &str) -> (r: String)
    ensures
        r@ == debug_text_of(s@),
{
    format!("{:?}", s)
}

} // verus!
