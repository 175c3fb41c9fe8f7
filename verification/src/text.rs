//! Debug quoting of strings, as std's `Debug` for `str` prints them.

use vstd::prelude::*;

verus! {

/// What `<str as Debug>::fmt` writes for a string: the string between double
/// quotes, with quotes, backslashes and control characters escaped.
pub uninterp spec fn debug_quoted(s: Seq<char>) -> Seq<char>;

/// Formats `s` with std's `Debug` for `str`. The contract says only that the
/// result is `debug_quoted` of the argument; the escaping rules themselves are
/// not stated.
#[verifier::external_body]
pub(crate) fn debug_quote(s: &str) -> (quoted: String)
    ensures
        quoted@ == debug_quoted(s@),
{
    format!("{:?}", s)
}

} // verus!
