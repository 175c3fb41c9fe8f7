//! The `url` crate, used on URLs held as text.

use vstd::prelude::*;

verus! {

/// What `url::Url::parse` makes of `input`: on success the serialization of
/// the parsed URL (`String::from(url)`), on failure the text of the
/// `url::ParseError` (its `Display`).
pub uninterp spec fn parsed_url(input: Seq<char>) -> Result<Seq<char>, Seq<char>>;

/// The serialization of the URL parsed from `input` after
/// `url::Url::set_path(path)` on it.
pub uninterp spec fn url_with_path(input: Seq<char>, path: Seq<char>) -> Seq<char>;

/// What `<url::Url as Debug>::fmt` writes for the URL parsed from `input`.
pub uninterp spec fn url_debug_text(input: Seq<char>) -> Seq<char>;

/// The view of a result whose both sides are strings.
pub open spec fn text_result(r: Result<String, String>) -> Result<Seq<char>, Seq<char>> {
    match r {
        Ok(t) => Ok(t@),
        Err(e) => Err(e@),
    }
}

/// What the Slack base URL parses to.
pub open spec fn default_parsed() -> Result<Seq<char>, Seq<char>> {
    Ok(crate::client::DEFAULT_BASE_URL_SERIALIZED@)
}

/// The number of bytes of the UTF-8 encoding of `s`.
pub open spec fn utf8_len(s: Seq<char>) -> nat {
    vstd::utf8::encode_utf8(s).len()
}

/// Calls `url::Url::parse` and returns the serialization of the URL, or the
/// text of the parse error. The contract ties both to `parsed_url` of the
/// input, and states the one result the library relies on: the Slack base URL
/// parses, to itself with a trailing slash (as in the crate's documented
/// examples, where a URL without a path gets the path `/`). Which other inputs
/// parse, and to what, is left to `parsed_url`.
#[verifier::external_body]
pub(crate) fn parse_url(input: &str) -> (parsed: Result<String, String>)
    ensures
        text_result(parsed) == parsed_url(input@),
        input@ == crate::client::DEFAULT_BASE_URL@ ==> text_result(parsed) == default_parsed(),
{
    match url::Url::parse(input) {
        Ok(url) => Ok(String::from(url)),
        Err(error) => Err(error.to_string()),
    }
}

/// Parses `input` with `url::Url::parse` (which succeeds, by the `requires`),
/// calls `url::Url::set_path(path)` on the URL and returns its serialization,
/// which the contract names `url_with_path(input, path)`.
///
/// `set_path` panics when the new serialization exceeds `u32::MAX` bytes; the
/// path is percent-encoded, at most 3 bytes per byte of a character, and each
/// character takes at most 4 bytes, so the second `requires` rules that out.
#[verifier::external_body]
pub(crate) fn set_url_path(input: &str, path: &str) -> (url: String)
    requires
        parsed_url(input@) is Ok,
        utf8_len(parsed_url(input@)->Ok_0) + 12 * path@.len() + 1 <= u32::MAX,
    ensures
        url@ == url_with_path(input@, path@),
{
    let mut url = url::Url::parse(input).unwrap();
    url.set_path(path);
    String::from(url)
}

/// Parses `input` with `url::Url::parse` (which succeeds, by the `requires`)
/// and formats the URL with its `Debug` impl; the contract names the text
/// `url_debug_text(input)` and says nothing of its shape.
#[verifier::external_body]
pub(crate) fn url_debug(input: &str) -> (text: String)
    requires
        parsed_url(input@) is Ok,
    ensures
        text@ == url_debug_text(input@),
{
    format!("{:?}", url::Url::parse(input).unwrap())
}

} // verus!
