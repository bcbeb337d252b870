//! Parsing of media types and URLs at the read boundary.
//!
//! The outside parsers decide what is well formed; their results are named
//! here and the read model's contracts are stated over those names. Both
//! parsers are pure: the outcome depends on the input text alone.

use vstd::prelude::*;

verus! {

/// The result of URL parsing on the given text: `None` when the text is
/// not an absolute URL, otherwise the parsed URL rendered back to text in
/// its canonical (normalized) form.
pub uninterp spec fn parsed_url(s: Seq<char>) -> Option<Seq<char>>;

/// The result of media-type parsing on the given text: `None` when the
/// text is not a well-formed media type, otherwise its canonical text.
pub uninterp spec fn parsed_media_type(s: Seq<char>) -> Option<Seq<char>>;

/// Relies on url::Url::parse and its Display impl: success and the
/// serialized form depend on the input text alone.
#[verifier::external_body]
pub fn parse_url(s: &str) -> (r: Option<String>)
    ensures
        r is Some <==> parsed_url(s@) is Some,
        r matches Some(u) ==> parsed_url(s@) matches Some(n) && u@ == n,
{
    match url::Url::parse(s) {
        Ok(u) => Some(u.to_string()),
        Err(_) => None,
    }
}

/// Relies on mime::Mime's FromStr and Display impls: success and the
/// canonical text depend on the input text alone.
#[verifier::external_body]
pub fn parse_media_type(s: &str) -> (r: Option<String>)
    ensures
        r is Some <==> parsed_media_type(s@) is Some,
        r matches Some(m) ==> parsed_media_type(s@) matches Some(n) && m@ == n,
{
    match s.parse::<mime::Mime>() {
        Ok(m) => Some(m.to_string()),
        Err(_) => None,
    }
}

} // verus!
