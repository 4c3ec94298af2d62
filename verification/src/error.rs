//! The errors that a request can end in.

use vstd::prelude::*;

verus! {

/// The request never produced a response.
#[derive(Clone, Copy, Debug, PartialEq, Eq, Structural)]
pub enum TransportError {
    /// The URL is not one that a request can be sent to.
    MalformedUrl,
    /// The connection could not be made, or broke.
    Io,
    /// What came back could not be read as a response.
    Protocol,
    /// The transport gave up waiting.
    Timeout,
    /// The secure channel could not be set up.
    Tls,
    /// The transport failed in a way of its own.
    Other,
}

/// The response body is not what the endpoint promises.
#[derive(Clone, Copy, Debug, PartialEq, Eq, Structural)]
pub enum DecodeError {
    /// The body of a text endpoint is not valid UTF-8.
    InvalidUtf8,
    /// The body is not a JSON document of the expected shape.
    InvalidJson,
}

/// Why a call did not return what was asked for.
#[derive(Clone, Copy, Debug, PartialEq, Eq, Structural)]
pub enum RequestError {
    /// A category was asked for, and the query names none.
    MissingCategory,
    /// A keyword was asked for, and the query names none.
    MissingKeyword,
    /// The rate limiter denied a non-blocking request. The caller may try
    /// again later.
    WouldBlock,
    /// The transport failed. The request is not sent again.
    Transport(TransportError),
    /// The response could not be decoded. The request is not sent again.
    Decode(DecodeError),
}

impl RequestError {
    /// A description of the error for the user.
    pub open spec fn text(self) -> Seq<char> {
        match self {
            RequestError::MissingCategory => {
                "didn't provide either a string or category argument with query"@
            },
            RequestError::MissingKeyword => {
                "didn't provide either a string or keyword argument with query"@
            },
            RequestError::WouldBlock => "Would block"@,
            RequestError::Transport(TransportError::MalformedUrl) => "malformed url"@,
            RequestError::Transport(TransportError::Io) => "connection failed"@,
            RequestError::Transport(TransportError::Protocol) => "malformed response"@,
            RequestError::Transport(TransportError::Timeout) => "request timed out"@,
            RequestError::Transport(TransportError::Tls) => "secure channel failed"@,
            RequestError::Transport(TransportError::Other) => "transport failed"@,
            RequestError::Decode(DecodeError::InvalidUtf8) => "response is not valid UTF-8"@,
            RequestError::Decode(DecodeError::InvalidJson) => {
                "response is not of the expected shape"@
            },
        }
    }

    /// A description of the error for the user.
    pub fn message(&self) -> (message: &'static str)
        ensures
            message@ == self.text(),
    {
        match self {
            RequestError::MissingCategory => {
                "didn't provide either a string or category argument with query"
            },
            RequestError::MissingKeyword => {
                "didn't provide either a string or keyword argument with query"
            },
            RequestError::WouldBlock => "Would block",
            RequestError::Transport(TransportError::MalformedUrl) => "malformed url",
            RequestError::Transport(TransportError::Io) => "connection failed",
            RequestError::Transport(TransportError::Protocol) => "malformed response",
            RequestError::Transport(TransportError::Timeout) => "request timed out",
            RequestError::Transport(TransportError::Tls) => "secure channel failed",
            RequestError::Transport(TransportError::Other) => "transport failed",
            RequestError::Decode(DecodeError::InvalidUtf8) => "response is not valid UTF-8",
            RequestError::Decode(DecodeError::InvalidJson) => {
                "response is not of the expected shape"
            },
        }
    }
}

} // verus!
