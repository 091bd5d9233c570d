//! Parsing the address of a video.

use url::Url;
use vstd::prelude::*;

verus! {

/// What the URL parser makes of a text: the URL in its normal written form,
/// or the parser's description of why the text is no URL.
pub uninterp spec fn url_parse_outcome(text: Seq<char>) -> Result<Seq<char>, Seq<char>>;

/// A parse result with its texts as sequences of characters.
pub open spec fn outcome_view(outcome: Result<String, String>) -> Result<Seq<char>, Seq<char>> {
    match outcome {
        Ok(address) => Ok(address@),
        Err(reason) => Err(reason@),
    }
}

/// Calls `url::Url::parse` on `text`.
///
/// Trusted: the parser is a function of the text alone, so its result is
/// `url_parse_outcome` of the text, with a parsed URL taken in its serialized
/// form and an error by its displayed description.  The one fact stated of
/// the parser itself is that it rejects the empty text: the empty text has no
/// first letter and so no scheme, and without a base URL that is an error.
#[verifier::external_body]
pub(crate) fn parse_url(text: &str) -> (outcome: Result<String, String>)
    ensures
        outcome_view(outcome) == url_parse_outcome(text@),
        text@.len() == 0 ==> outcome is Err,
{
    match Url::parse(text) {
        Ok(url) => Ok(String::from(url)),
        Err(error) => Err(error.to_string()),
    }
}

} // verus!
