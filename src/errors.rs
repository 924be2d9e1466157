use vstd::prelude::*;

verus! {

#[verifier::external_type_specification]
#[verifier::external_body]
pub struct ExUrlParseError(url::ParseError);

#[verifier::external_type_specification]
#[verifier::external_body]
pub struct ExTransportError(tokio_tungstenite::tungstenite::Error);

/// An error that the venue reported in a response body.
#[derive(Clone, Debug)]
pub struct BinanceContentError {
    pub code: i16,
    pub msg: String,
}

/// What the remote side said when it closed the stream.
#[derive(Clone, Debug)]
pub struct CloseReason {
    pub code: u16,
    pub reason: String,
}

/// Why a text frame did not decode to an event.
#[derive(Debug)]
pub enum DecodeError {
    /// The frame is not JSON text.
    Syntax(serde_json::Error),
    /// The frame is JSON, but no alternative of the dialect fits it.
    Unmatched,
}

/// Why an operation of the streaming client failed.
#[derive(Debug)]
pub enum ClientError {
    /// An error reported by the venue.
    BinanceError(BinanceContentError),
    /// The connection target is not a URL.
    UrlParser(url::ParseError),
    /// A text frame did not decode; carries the error of the first attempt.
    Decode(DecodeError),
    /// The transport failed to connect, read or write.
    WebSocket(tokio_tungstenite::tungstenite::Error),
    /// The remote side sent a close frame.
    RemoteClosed(Option<CloseReason>),
    /// The stream ended without a close frame.
    StreamEnded,
    /// No connection is held.
    NotConnected,
    /// A failure described in words, as handlers report them.
    Custom(String),
}

} // verus!
