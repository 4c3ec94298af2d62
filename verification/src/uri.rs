//! Checking that a URL is one that the transport can send a request to.

use crate::error::TransportError;
use http_req::uri::Uri;
use vstd::prelude::*;
use vstd::utf8::is_ascii_chars;

verus! {

/// `http_req::uri::Uri`, a URI taken apart. Nothing is known of what one
/// holds.
#[verifier::external_type_specification]
#[verifier::external_body]
pub struct ExUri<'a>(http_req::uri::Uri<'a>);

/// `http_req::error::Error`, what `http_req` fails with. Nothing is known
/// of what one holds.
#[verifier::external_type_specification]
#[verifier::external_body]
pub struct ExUriError(http_req::error::Error);

/// Whether `http_req` takes the characters of `url` apart into a URI.
pub uninterp spec fn uri_parses(url: Seq<char>) -> bool;

/// `http_req::uri::Uri::try_from` on a string slice: the slice taken apart
/// into scheme, authority, path, query and fragment, or the parse error.
///
/// The contract names the outcome and says nothing else of it. The parser
/// works on byte offsets that it computes without looking for character
/// boundaries, so only ASCII text is handed to it: there every offset is a
/// boundary and every range that it cuts lies within the slice.
#[verifier::external_body]
fn parse_uri<'a>(url: &'a str) -> (parsed: Result<Uri<'a>, http_req::error::Error>)
    requires
        is_ascii_chars(url@),
    ensures
        parsed is Ok <==> uri_parses(url@),
{
    Uri::try_from(url)
}

/// Whether a request can be sent to `url`: it is ASCII text that the
/// transport's parser accepts.
pub open spec fn well_formed_url(url: Seq<char>) -> bool {
    is_ascii_chars(url) && uri_parses(url)
}

/// The verdict on a URL: sending to one that is not well formed is a
/// transport error.
pub open spec fn verdict_of(well_formed: bool) -> Result<(), TransportError> {
    if well_formed {
        Ok(())
    } else {
        Err(TransportError::MalformedUrl)
    }
}

/// What a parse of the URL means for the request.
pub fn url_verdict<'a>(
    parsed: Result<Uri<'a>, http_req::error::Error>,
) -> (verdict: Result<(), TransportError>)
    ensures
        verdict == verdict_of(parsed is Ok),
{
    match parsed {
        Ok(_) => Ok(()),
        Err(_) => Err(TransportError::MalformedUrl),
    }
}

/// Checks that a request can be sent to `url`.
pub fn check_url(url: &str) -> (verdict: Result<(), TransportError>)
    ensures
        verdict == verdict_of(well_formed_url(url@)),
{
    if url.is_ascii() {
        url_verdict(parse_uri(url))
    } else {
        Err(TransportError::MalformedUrl)
    }
}

} // verus!
