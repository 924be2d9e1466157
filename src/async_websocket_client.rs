use vstd::prelude::*;

use crate::dialect::{allows, bare, decode_bare, first_fit, Dialect};
use crate::errors::{ClientError, CloseReason, DecodeError};
use crate::event::{EventKind, RawEvent, Variant};
use crate::json::{json_of, lemma_member_absent, parse_json, JsonValue};

verus! {

/// Which of the decoding attempts produced the event.
#[derive(Clone, Copy, Debug, PartialEq, Eq, Structural)]
pub enum Attempt {
    /// The payload itself is the event.
    Bare,
    /// The event is the `data` member of a `{"data": ...}` envelope.
    Data,
    /// The event is the `data` member of a `{"stream": ..., "data": ...}` envelope.
    StreamData,
}

/// What decoding a parsed payload gives: first the payload as a bare event; failing that, its
/// `data` member (attempt 2 without a `stream` member, attempt 3 with one); failing all, the
/// error of the first attempt.
pub open spec fn unwrapped<D: Dialect>(j: JsonValue) -> Result<(RawEvent, Attempt), DecodeError> {
    match bare::<D>(j) {
        Some(raw) => Ok((raw, Attempt::Bare)),
        None => match j.member("data"@) {
            Some(inner) => match bare::<D>(inner) {
                Some(raw) => Ok(
                    (
                        raw,
                        if j.member("stream"@) is Some {
                            Attempt::StreamData
                        } else {
                            Attempt::Data
                        },
                    ),
                ),
                None => Err(DecodeError::Unmatched),
            },
            None => Err(DecodeError::Unmatched),
        },
    }
}

/// What decoding a payload gives, from the outcome of parsing it as JSON.
pub open spec fn envelope<D: Dialect>(parsed: Result<JsonValue, serde_json::Error>) -> Result<
    (RawEvent, Attempt),
    DecodeError,
> {
    match parsed {
        Ok(j) => unwrapped::<D>(j),
        Err(e) => Err(DecodeError::Syntax(e)),
    }
}

/// What the first attempt alone gives: the payload decoded as a bare event.
pub open spec fn first_attempt<D: Dialect>(parsed: Result<JsonValue, serde_json::Error>) -> Result<
    RawEvent,
    DecodeError,
> {
    match parsed {
        Ok(j) => match bare::<D>(j) {
            Some(raw) => Ok(raw),
            None => Err(DecodeError::Unmatched),
        },
        Err(e) => Err(DecodeError::Syntax(e)),
    }
}

/// An object whose keys are only `stream` and `data` has the shape of no event kind.
pub proof fn lemma_envelope_fits_no_kind(w: JsonValue, k: EventKind)
    requires
        w.keys_within("stream"@, "data"@),
    ensures
        !k.fits(w),
{
    reveal(JsonValue::holds);
    reveal_strlit("stream");
    reveal_strlit("data");
    reveal_strlit("e");
    reveal_strlit("u");
    reveal_strlit("lastUpdateId");
    assert("e"@.len() != "stream"@.len() && "e"@.len() != "data"@.len());
    assert("u"@.len() != "stream"@.len() && "u"@.len() != "data"@.len());
    assert("lastUpdateId"@.len() != "stream"@.len() && "lastUpdateId"@.len() != "data"@.len());
    if let JsonValue::Object(entries) = w {
        lemma_member_absent(entries@, "e"@, "stream"@, "data"@, 0);
        lemma_member_absent(entries@, "u"@, "stream"@, "data"@, 0);
        lemma_member_absent(entries@, "lastUpdateId"@, "stream"@, "data"@, 0);
    }
}

/// An object whose keys are only `stream` and `data` is no bare event of any dialect.
pub proof fn lemma_envelope_not_bare<D: Dialect>(w: JsonValue, i: int)
    requires
        0 <= i,
        w.keys_within("stream"@, "data"@),
    ensures
        first_fit::<D>(w, i) is None,
    decreases D::count() - i,
{
    if i < D::count() {
        match D::variant_at(i) {
            Variant::Single(k) => lemma_envelope_fits_no_kind(w, k),
            Variant::Batch(_) => {},
        }
        lemma_envelope_not_bare::<D>(w, i + 1);
    }
}

/// A well-formed bare event decodes at the first attempt, and no other attempt is made.
pub proof fn law_bare_event_decodes_first<D: Dialect>(j: JsonValue)
    requires
        bare::<D>(j) is Some,
    ensures
        envelope::<D>(Ok(j)) == Ok::<(RawEvent, Attempt), DecodeError>(
            (bare::<D>(j)->Some_0, Attempt::Bare),
        ),
{
}

/// A payload `{"data": e}` without a `stream` member fails the first attempt, and the second
/// attempt gives the event that `e` is on its own.
pub proof fn law_data_envelope<D: Dialect>(w: JsonValue, e: JsonValue)
    requires
        w.keys_within("data"@, "data"@),
        w.member("data"@) == Some(e),
        bare::<D>(e) is Some,
    ensures
        first_attempt::<D>(Ok(w)) is Err,
        envelope::<D>(Ok(w)) == Ok::<(RawEvent, Attempt), DecodeError>(
            (bare::<D>(e)->Some_0, Attempt::Data),
        ),
{
    reveal_strlit("stream");
    reveal_strlit("data");
    assert("stream"@.len() != "data"@.len());
    lemma_envelope_not_bare::<D>(w, 0);
    if let JsonValue::Object(entries) = w {
        lemma_member_absent(entries@, "stream"@, "data"@, "data"@, 0);
    }
}

/// A payload `{"stream": name, "data": e}` decodes to what `e` decodes to on its own, whatever
/// the name.
pub proof fn law_stream_envelope<D: Dialect>(w: JsonValue, e: JsonValue, name: String)
    requires
        w.keys_within("stream"@, "data"@),
        w.member("data"@) == Some(e),
        w.member("stream"@) == Some(JsonValue::Text(name)),
    ensures
        envelope::<D>(Ok(w)) == match bare::<D>(e) {
            Some(raw) => Ok::<(RawEvent, Attempt), DecodeError>((raw, Attempt::StreamData)),
            None => Err(DecodeError::Unmatched),
        },
{
    lemma_envelope_not_bare::<D>(w, 0);
}

/// When decoding fails, the error reported is the error of the first attempt; for text that
/// is not JSON, that is the parse error itself.
pub proof fn law_failure_reports_first_attempt<D: Dialect>(
    parsed: Result<JsonValue, serde_json::Error>,
)
    ensures
        envelope::<D>(parsed) matches Err(err) ==> first_attempt::<D>(parsed) == Err::<
            RawEvent,
            DecodeError,
        >(err),
        parsed matches Err(e) ==> envelope::<D>(parsed) == Err::<(RawEvent, Attempt), DecodeError>(
            DecodeError::Syntax(e),
        ),
{
}

/// Decodes a parsed text payload into one raw event of the dialect.
pub fn decode_envelope<D: Dialect>(parsed: Result<JsonValue, serde_json::Error>) -> (r: Result<
    (RawEvent, Attempt),
    DecodeError,
>)
    ensures
        r == envelope::<D>(parsed),
        r matches Ok((raw, _)) ==> allows::<D>(raw.variant()),
{
    match parsed {
        Err(e) => Err(DecodeError::Syntax(e)),
        Ok(j) => match decode_bare::<D>(j) {
            Ok(raw) => Ok((raw, Attempt::Bare)),
            Err(j) => {
                let combined = j.get("stream").is_some();
                match j.into_member("data") {
                    None => Err(DecodeError::Unmatched),
                    Some(inner) => match decode_bare::<D>(inner) {
                        Ok(raw) => {
                            let attempt = if combined {
                                Attempt::StreamData
                            } else {
                                Attempt::Data
                            };
                            Ok((raw, attempt))
                        },
                        Err(_) => Err(DecodeError::Unmatched),
                    },
                }
            },
        },
    }
}

/// Parses one text payload and decodes it into one raw event of the dialect.
pub fn decode_text<D: Dialect>(text: &str) -> (r: Result<(RawEvent, Attempt), DecodeError>)
    ensures
        match json_of(text@) {
            Some(j) => r == unwrapped::<D>(j),
            None => r matches Err(DecodeError::Syntax(_)),
        },
        r matches Ok((raw, _)) ==> allows::<D>(raw.variant()),
{
    let parsed = parse_json(text);
    decode_envelope::<D>(parsed)
}

/// One frame as the transport delivers it.
#[derive(Debug)]
pub enum Frame {
    Text(String),
    Binary(Vec<u8>),
    Ping(Vec<u8>),
    Pong(Vec<u8>),
    Close(Option<CloseReason>),
    /// A low-level frame that the transport manages itself.
    Raw,
}

/// The state that the event loop is in after a step.
#[derive(Clone, Copy, Debug, PartialEq, Eq, Structural)]
pub enum Phase {
    /// No connection is held; the loop waits for one.
    Idle,
    /// The loop awaits the next frame.
    Reading,
    /// The handler is running on an event.
    Dispatching,
    /// The loop returned success.
    Stopped,
    /// The loop returned an error.
    Failed,
}

/// What the event loop does next.
#[derive(Debug)]
pub enum Step<E> {
    /// Sleep briefly, then look again at the top of the loop.
    Wait,
    /// Read the next frame from the connection.
    Read,
    /// Send a pong frame with this payload.
    Reply(Vec<u8>),
    /// Release the connection, then hand this event to the handler.
    Dispatch(E),
    /// Go back to the top of the loop.
    Continue,
    /// Return this outcome to the loop's caller.
    Finish(Result<(), ClientError>),
}

impl<E> Step<E> {
    pub open spec fn next_phase(&self) -> Phase {
        match self {
            Step::Wait => Phase::Idle,
            Step::Read => Phase::Reading,
            Step::Reply(_) => Phase::Reading,
            Step::Dispatch(_) => Phase::Dispatching,
            Step::Continue => Phase::Reading,
            Step::Finish(Ok(())) => Phase::Stopped,
            Step::Finish(Err(_)) => Phase::Failed,
        }
    }

    /// The state that the loop is in once this step is taken.
    pub fn phase(&self) -> (r: Phase)
        ensures
            r == self.next_phase(),
    {
        match self {
            Step::Wait => Phase::Idle,
            Step::Read => Phase::Reading,
            Step::Reply(_) => Phase::Reading,
            Step::Dispatch(_) => Phase::Dispatching,
            Step::Continue => Phase::Reading,
            Step::Finish(Ok(())) => Phase::Stopped,
            Step::Finish(Err(_)) => Phase::Failed,
        }
    }
}

/// The step at the top of an iteration: stop when the run signal is clear, wait while no
/// connection is held, read otherwise.
pub open spec fn top_step<E>(running: bool, connected: bool) -> Step<E> {
    if !running {
        Step::Finish(Ok(()))
    } else if !connected {
        Step::Wait
    } else {
        Step::Read
    }
}

/// The step for a decoded text payload: dispatch its event, or fail with the decode error.
pub open spec fn text_step<D: Dialect>(parsed: Result<JsonValue, serde_json::Error>) -> Step<
    D::Event,
> {
    match envelope::<D>(parsed) {
        Ok((raw, _)) => Step::Dispatch(D::adapted(raw)),
        Err(e) => Step::Finish(Err(ClientError::Decode(e))),
    }
}

/// The step for a frame other than text.
pub open spec fn control_step<E>(frame: Frame) -> Step<E> {
    match frame {
        Frame::Ping(payload) => Step::Reply(payload),
        Frame::Close(reason) => Step::Finish(Err(ClientError::RemoteClosed(reason))),
        _ => Step::Continue,
    }
}

/// A ping frame is answered by a pong with the same payload, and no event reaches the handler.
pub proof fn law_ping_answered_with_pong<E>(payload: Vec<u8>)
    ensures
        control_step::<E>(Frame::Ping(payload)) == Step::<E>::Reply(payload),
        !(control_step::<E>(Frame::Ping(payload)) is Dispatch),
{
}

/// A close frame ends the loop with a remote-close error that carries the reason given; the
/// step is a return, not a disconnect.
pub proof fn law_close_ends_loop<E>(reason: Option<CloseReason>)
    ensures
        control_step::<E>(Frame::Close(reason)) == Step::<E>::Finish(
            Err(ClientError::RemoteClosed(reason)),
        ),
        control_step::<E>(Frame::Close(reason)).next_phase() == Phase::Failed,
{
}

/// With the run signal clear, the loop returns success at the top of its first iteration,
/// before it reads a frame or invokes the handler.
pub proof fn law_clear_signal_stops<E>(connected: bool)
    ensures
        top_step::<E>(false, connected) == Step::<E>::Finish(Ok(())),
        top_step::<E>(false, connected).next_phase() == Phase::Stopped,
{
}

/// Decides the step at the top of an iteration.
pub fn on_top<E>(running: bool, connected: bool) -> (r: Step<E>)
    ensures
        r == top_step::<E>(running, connected),
{
    if !running {
        Step::Finish(Ok(()))
    } else if !connected {
        Step::Wait
    } else {
        Step::Read
    }
}

/// Decides the step for a parsed text payload.
pub fn on_parsed<D: Dialect>(parsed: Result<JsonValue, serde_json::Error>) -> (r: Step<D::Event>)
    ensures
        r == text_step::<D>(parsed),
{
    match decode_envelope::<D>(parsed) {
        Ok((raw, _)) => Step::Dispatch(D::adapt(raw)),
        Err(e) => Step::Finish(Err(ClientError::Decode(e))),
    }
}

/// Decides the step for one frame read from the connection.
pub fn on_frame<D: Dialect>(frame: Frame) -> (r: Step<D::Event>)
    ensures
        match frame {
            Frame::Text(text) => match json_of(text@) {
                Some(j) => r == text_step::<D>(Ok(j)),
                None => r matches Step::Finish(Err(ClientError::Decode(DecodeError::Syntax(_)))),
            },
            _ => r == control_step::<D::Event>(frame),
        },
{
    match frame {
        Frame::Text(text) => {
            let parsed = parse_json(text.as_str());
            on_parsed::<D>(parsed)
        },
        Frame::Ping(payload) => Step::Reply(payload),
        Frame::Close(reason) => Step::Finish(Err(ClientError::RemoteClosed(reason))),
        Frame::Binary(_) => Step::Continue,
        Frame::Pong(_) => Step::Continue,
        Frame::Raw => Step::Continue,
    }
}

/// Decides the step for what reading the next frame gave: a frame, a transport error, or the
/// end of the stream.
pub fn on_read<D: Dialect>(next: Option<Result<Frame, tokio_tungstenite::tungstenite::Error>>) -> (r:
    Step<D::Event>)
    ensures
        match next {
            None => r matches Step::Finish(Err(ClientError::StreamEnded)),
            Some(Err(e)) => r == Step::<D::Event>::Finish(Err(ClientError::WebSocket(e))),
            Some(Ok(Frame::Text(text))) => match json_of(text@) {
                Some(j) => r == text_step::<D>(Ok(j)),
                None => r matches Step::Finish(Err(ClientError::Decode(DecodeError::Syntax(_)))),
            },
            Some(Ok(frame)) => r == control_step::<D::Event>(frame),
        },
{
    match next {
        None => Step::Finish(Err(ClientError::StreamEnded)),
        Some(Err(e)) => Step::Finish(Err(ClientError::WebSocket(e))),
        Some(Ok(frame)) => on_frame::<D>(frame),
    }
}

/// Decides the step after a pong was sent, or failed to be.
pub fn on_reply_sent<E>(sent: Result<(), tokio_tungstenite::tungstenite::Error>) -> (r: Step<E>)
    ensures
        match sent {
            Ok(()) => r is Continue,
            Err(e) => r == Step::<E>::Finish(Err(ClientError::WebSocket(e))),
        },
{
    match sent {
        Ok(()) => Step::Continue,
        Err(e) => Step::Finish(Err(ClientError::WebSocket(e))),
    }
}

/// Decides the step after the handler returned: go on, or fail with its error unchanged.
pub fn on_handled<E>(outcome: Result<(), ClientError>) -> (r: Step<E>)
    ensures
        match outcome {
            Ok(()) => r is Continue,
            Err(e) => r == Step::<E>::Finish(Err(e)),
        },
{
    match outcome {
        Ok(()) => Step::Continue,
        Err(e) => Step::Finish(Err(e)),
    }
}

/// The serialization of `s` when it parses as an absolute URL.
pub uninterp spec fn url_serialization(s: Seq<char>) -> Option<Seq<char>>;

/// Relies on url::Url::parse, and on `From<Url> for String` for the URL's serialization.
#[verifier::external_body]
fn parse_url(s: &str) -> (r: Result<String, url::ParseError>)
    ensures
        match r {
            Ok(u) => url_serialization(s@) == Some(u@),
            Err(_) => url_serialization(s@) is None,
        },
{
    url::Url::parse(s).map(String::from)
}

/// The URL to open a connection to, checked: fails when `url` is not an absolute URL.
pub fn connect_target(url: &str) -> (r: Result<String, ClientError>)
    ensures
        match url_serialization(url@) {
            Some(u) => r matches Ok(t) && t@ == u,
            None => r matches Err(ClientError::UrlParser(_)),
        },
{
    match parse_url(url) {
        Ok(u) => Ok(u),
        Err(e) => Err(ClientError::UrlParser(e)),
    }
}

/// The connection handle: holds at most one live connection of type `C`.
pub struct AsyncWebsocketClient<C> {
    socket: Option<C>,
}

impl<C> AsyncWebsocketClient<C> {
    /// The connection held, if any.
    pub closed spec fn connection(&self) -> Option<C> {
        self.socket
    }

    pub fn new() -> (r: Self)
        ensures
            r.connection() is None,
    {
        AsyncWebsocketClient { socket: None }
    }

    pub fn is_connected(&self) -> (r: bool)
        ensures
            r == self.connection() is Some,
    {
        self.socket.is_some()
    }

    /// Holds `stream` from now on, and hands back the connection held before, so that the
    /// caller can close it.
    pub fn connect(&mut self, stream: C) -> (prior: Option<C>)
        ensures
            final(self).connection() == Some(stream),
            prior == old(self).connection(),
    {
        let prior = self.socket.take();
        self.socket = Some(stream);
        prior
    }

    /// Gives up the connection held, for the caller to close; fails when none is held.
    pub fn disconnect(&mut self) -> (r: Result<C, ClientError>)
        ensures
            final(self).connection() is None,
            match old(self).connection() {
                Some(c) => r == Ok::<C, ClientError>(c),
                None => r matches Err(ClientError::NotConnected),
            },
    {
        match self.socket.take() {
            Some(c) => Ok(c),
            None => Err(ClientError::NotConnected),
        }
    }

    /// The connection held, for reading and writing in place.
    pub fn connection_mut(&mut self) -> (r: Option<&mut C>)
        ensures
            match old(self).connection() {
                None => r is None && final(self).connection() is None,
                Some(c) => r matches Some(s) && *s == c && final(self).connection() == Some(
                    *final(s),
                ),
            },
    {
        self.socket.as_mut()
    }
}

} // verus!
