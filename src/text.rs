//! Small string operations on paths, with their specifications.

use vstd::prelude::*;

verus! {

/// A path with every `\` separator written as `/`.
pub open spec fn normalize_separators(s: Seq<char>) -> Seq<char> {
    s.map_values(|c: char| if c == '\\' { '/' } else { c })
}

/// Relies on `str::replace`: each occurrence of the pattern `\` is replaced by `/`.
#[verifier::external_body]
pub(crate) fn replace_backslashes(s: &str) -> (r: String)
    ensures
        r@ == normalize_separators(s@),
{
    s.replace('\\', "/")
}

/// Relies on `str::strip_prefix`: the rest of `s` after `prefix`, if `s` starts with it.
#[verifier::external_body]
pub(crate) fn strip_prefix<'a>(s: &'a str, prefix: &str) -> (r: Option<&'a str>)
    ensures
        prefix@.is_prefix_of(s@) ==> r is Some && r->0@ == s@.skip(prefix@.len() as int),
        !prefix@.is_prefix_of(s@) ==> r is None,
{
    s.strip_prefix(prefix)
}

/// Relies on `str::strip_suffix`: `s` without `suffix`, if `s` ends with it.
#[verifier::external_body]
pub(crate) fn strip_suffix<'a>(s: &'a str, suffix: &str) -> (r: Option<&'a str>)
    ensures
        suffix@.is_suffix_of(s@) ==> r is Some && r->0@ == s@.subrange(
            0,
            s@.len() - suffix@.len(),
        ),
        !suffix@.is_suffix_of(s@) ==> r is None,
{
    s.strip_suffix(suffix)
}

/// Relies on `str::starts_with`: whether `prefix` is a prefix of `s`.
#[verifier::external_body]
pub(crate) fn starts_with(s: &str, prefix: &str) -> (r: bool)
    ensures
        r == prefix@.is_prefix_of(s@),
{
    s.starts_with(prefix)
}

/// Relies on `str`'s `==`: whether the two strings hold the same characters.
#[verifier::external_body]
pub(crate) fn str_eq(a: &str, b: &str) -> (r: bool)
    ensures
        r == (a@ == b@),
{
    a == b
}

/// A string as `Debug` formatting prints it: in double quotes, with quotes,
/// backslashes and control characters escaped.
pub uninterp spec fn debug_quoted(s: Seq<char>) -> Seq<char>;

/// Relies on `str`'s `Debug` formatting: the quoted, escaped form of the text,
/// which depends on its characters alone.
#[verifier::external_body]
pub(crate) fn debug_quote(s: &str) -> (r: String)
    ensures
        r@ == debug_quoted(s@),
{
    format!("{:?}", s)
}

/// An owned copy of a string slice.
pub(crate) fn owned(s: &str) -> (r: String)
    ensures
        r@ == s@,
{
    s.to_string()
}

} // verus!
