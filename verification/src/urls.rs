//! Web addresses, parsed with the `url` crate before a webview navigates to them.

use vstd::prelude::*;

verus! {

#[verifier::external_type_specification]
#[verifier::external_body]
pub struct ExUrl(url::Url);

/// What `url::Url::parse` makes of `input`: the URL it parses, or the message
/// (`Display`) of the `url::ParseError` it returns. `Url::parse` depends on its
/// input alone.
pub uninterp spec fn url_parse_result(input: Seq<char>) -> Result<url::Url, Seq<char>>;

/// Calls `url::Url::parse` (through `str::parse`) and writes a failure as the
/// message of its `url::ParseError`: the result is `url_parse_result` of the
/// input, the URL on success and that message on failure.
#[verifier::external_body]
fn parse_url(input: &str) -> (r: Result<url::Url, String>)
    ensures
        match r {
            Ok(u) => url_parse_result(input@) == Ok::<url::Url, Seq<char>>(u),
            Err(m) => url_parse_result(input@) == Err::<url::Url, Seq<char>>(m@),
        },
{
    match input.parse::<url::Url>() {
        Ok(u) => Ok(u),
        Err(e) => Err(e.to_string()),
    }
}

/// The absolute URL written in `input`, or the message of why it is not one.
pub fn parse_navigation_url(input: &str) -> (r: Result<url::Url, String>)
    ensures
        match r {
            Ok(u) => url_parse_result(input@) == Ok::<url::Url, Seq<char>>(u),
            Err(m) => url_parse_result(input@) == Err::<url::Url, Seq<char>>(m@),
        },
{
    parse_url(input)
}

} // verus!
