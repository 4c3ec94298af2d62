use consecrates::error::{DecodeError, RequestError, TransportError};

#[test]
fn messages() {
    assert_eq!(
        RequestError::MissingCategory.message(),
        "didn't provide either a string or category argument with query"
    );
    assert_eq!(
        RequestError::MissingKeyword.message(),
        "didn't provide either a string or keyword argument with query"
    );
    assert_eq!(RequestError::WouldBlock.message(), "Would block");
    assert_eq!(RequestError::Transport(TransportError::MalformedUrl).message(), "malformed url");
    assert_eq!(RequestError::Transport(TransportError::Io).message(), "connection failed");
    assert_eq!(RequestError::Transport(TransportError::Protocol).message(), "malformed response");
    assert_eq!(RequestError::Transport(TransportError::Timeout).message(), "request timed out");
    assert_eq!(RequestError::Transport(TransportError::Tls).message(), "secure channel failed");
    assert_eq!(RequestError::Transport(TransportError::Other).message(), "transport failed");
    assert_eq!(
        RequestError::Decode(DecodeError::InvalidUtf8).message(),
        "response is not valid UTF-8"
    );
    assert_eq!(
        RequestError::Decode(DecodeError::InvalidJson).message(),
        "response is not of the expected shape"
    );
}
