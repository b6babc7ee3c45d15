//! The path of a URL, as the `url` crate parses it.
//!
//! What the `url` crate makes of a text is given a name; the statements on
//! its two functions below are believed, not proved.

use vstd::prelude::*;

verus! {

/// `url::Url`, a parsed URL.
#[verifier::external_type_specification]
#[verifier::external_body]
pub struct ExUrl(url::Url);

/// `url::ParseError`, the reason why a text is no URL.
#[verifier::external_type_specification]
#[verifier::external_body]
pub struct ExParseError(url::ParseError);

/// The segments of a parsed URL's path as `url::Url::path_segments` hands
/// them out, in order, each percent-encoded; `None` for a URL that cannot be
/// a base (one whose path does not start with `/`).
pub uninterp spec fn url_path_segments(location: url::Url) -> Option<Seq<Seq<char>>>;

/// What `url::Url::parse` makes of a text, seen through the path segments
/// of its result: the path segments of the URL that the text parses to, or
/// the reason why the text is no absolute URL.
pub uninterp spec fn parsed_path_segments(text: Seq<char>) -> Result<
    Option<Seq<Seq<char>>>,
    url::ParseError,
>;

/// `url::Url::parse`: the URL that the text parses to, or the reason why it
/// is none.
#[verifier::external_body]
pub(crate) fn parse_url(text: &str) -> (out: Result<url::Url, url::ParseError>)
    ensures
        match out {
            Ok(location) => parsed_path_segments(text@) matches Ok(segments) && segments
                == url_path_segments(location),
            Err(e) => parsed_path_segments(text@) matches Err(reason) && reason == e,
        },
{
    url::Url::parse(text)
}

/// `url::Url::path_segments`, with each segment copied into a `String`.
#[verifier::external_body]
pub(crate) fn path_segments(location: &url::Url) -> (out: Option<Vec<String>>)
    ensures
        match out {
            Some(segments) => url_path_segments(*location) == Some(segments.deep_view()),
            None => url_path_segments(*location) is None,
        },
{
    location.path_segments().map(|segments| segments.map(|s| s.to_owned()).collect())
}

} // verus!
