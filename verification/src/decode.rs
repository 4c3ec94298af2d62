//! Turning the bytes of a response into what the caller asked for.

use crate::error::{DecodeError, RequestError, TransportError};
use vstd::prelude::*;
use vstd::string::StringExecFns;
use vstd::string::StringSliceAdditionalSpecFns;
use vstd::utf8::{decode_utf8, valid_utf8};

verus! {

/// `std::str::Utf8Error`, what a failed reading of bytes as text comes
/// with. Nothing is known of what one holds.
#[verifier::external_type_specification]
#[verifier::external_body]
pub struct ExUtf8Error(std::str::Utf8Error);

/// `std::str::from_utf8`: the bytes as a string slice if they are valid
/// UTF-8, and an error if they are not. The slice is made of the very bytes
/// that were handed in.
#[verifier::external_body]
fn text_of_bytes<'a>(bytes: &'a [u8]) -> (text: Result<&'a str, std::str::Utf8Error>)
    ensures
        text is Ok <==> valid_utf8(bytes@),
        text matches Ok(s) ==> s.spec_bytes() == bytes@,
{
    std::str::from_utf8(bytes)
}

/// How the body of a response is written.
#[derive(Clone, Copy, Debug, PartialEq, Eq, Structural)]
pub enum Format {
    /// A JSON document.
    Json,
    /// Plain UTF-8 text.
    Text,
}

/// The body of a response, checked as far as its format allows.
#[derive(Clone, Debug)]
pub enum Body {
    /// The bytes of a JSON document, for the caller to read into the record
    /// that the endpoint returns.
    Json(Vec<u8>),
    /// The text of the body.
    Text(String),
}

/// What a body holds, as plain values.
pub enum BodyView {
    Json(Seq<u8>),
    Text(Seq<char>),
}

impl View for Body {
    type V = BodyView;

    open spec fn view(&self) -> BodyView {
        match self {
            Body::Json(bytes) => BodyView::Json(bytes@),
            Body::Text(text) => BodyView::Text(text@),
        }
    }
}

/// What a call ends in, as plain values.
pub open spec fn outcome_of(
    outcome: Result<Body, RequestError>,
) -> Result<BodyView, RequestError> {
    match outcome {
        Ok(body) => Ok(body@),
        Err(error) => Err(error),
    }
}

/// The text that `bytes` encode, or the error for bytes that are not valid
/// UTF-8.
pub open spec fn utf8_text(bytes: Seq<u8>) -> Result<Seq<char>, DecodeError> {
    if valid_utf8(bytes) {
        Ok(decode_utf8(bytes))
    } else {
        Err(DecodeError::InvalidUtf8)
    }
}

/// What a call ends in once the transport has answered: the transport's
/// error if it failed; else the body, decoded as far as its format allows.
pub open spec fn settled(
    format: Format,
    fetched: Result<Seq<u8>, TransportError>,
) -> Result<BodyView, RequestError> {
    match fetched {
        Err(error) => Err(RequestError::Transport(error)),
        Ok(bytes) => match format {
            Format::Json => Ok(BodyView::Json(bytes)),
            Format::Text => match utf8_text(bytes) {
                Ok(text) => Ok(BodyView::Text(text)),
                Err(error) => Err(RequestError::Decode(error)),
            },
        },
    }
}

/// The characters of a decoded text.
pub open spec fn decoded_of(
    decoded: Result<String, DecodeError>,
) -> Result<Seq<char>, DecodeError> {
    match decoded {
        Ok(text) => Ok(text@),
        Err(error) => Err(error),
    }
}

/// The bytes that a transport handed back.
pub open spec fn fetched_of(
    fetched: Result<Vec<u8>, TransportError>,
) -> Result<Seq<u8>, TransportError> {
    match fetched {
        Ok(bytes) => Ok(bytes@),
        Err(error) => Err(error),
    }
}

/// Decodes the body of a text endpoint.
pub fn decode_utf8_text(bytes: &[u8]) -> (decoded: Result<String, DecodeError>)
    ensures
        decoded_of(decoded) == utf8_text(bytes@),
{
    match text_of_bytes(bytes) {
        Ok(text) => {
            proof {
                vstd::utf8::encode_utf8_decode_utf8(text@);
            }
            Ok(String::from_str(text))
        },
        Err(_) => Err(DecodeError::InvalidUtf8),
    }
}

/// Ends a call once the transport has answered: hands on the transport's
/// error, or decodes the body as far as its format allows.
pub fn settle(
    format: Format,
    fetched: Result<Vec<u8>, TransportError>,
) -> (outcome: Result<Body, RequestError>)
    ensures
        outcome_of(outcome) == settled(format, fetched_of(fetched)),
{
    match fetched {
        Err(error) => Err(RequestError::Transport(error)),
        Ok(bytes) => match format {
            Format::Json => Ok(Body::Json(bytes)),
            Format::Text => match decode_utf8_text(bytes.as_slice()) {
                Ok(text) => Ok(Body::Text(text)),
                Err(error) => Err(RequestError::Decode(error)),
            },
        },
    }
}

} // verus!
