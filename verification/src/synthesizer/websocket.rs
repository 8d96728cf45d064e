//! One synthesis call over an open websocket: the messages to send, in
//! their order, and what each inbound frame does to the call.
//!
//! The socket is the caller's. The call tells the caller what to do next
//! ([`Action`]), and the caller tells the call what happened ([`Event`]).

use vstd::prelude::*;
use vstd::string::*;
use crate::audio::AudioFormat;
use crate::errors::{ConnectError, ConnectErrorView};
use crate::msg::{
    decode, is_plain_line, text_frame, CloseFrameView, Frame, FrameView, MessageView, ParseError,
    ParseErrorView, WebSocketMessage,
};
use crate::ssml::{SsmlError, SsmlErrorView};
use crate::text::{decimal, join, push_decimal};

verus! {

/// What lies behind a [`WebsocketSynthesizerError`].
#[derive(Debug)]
pub enum WebsocketErrorSource {
    /// A failure of the transport, or of building the request, as text.
    Transport(String),
    Connect(ConnectError),
    Message(ParseError),
    Ssml(SsmlError),
}

/// Why a websocket synthesis failed.
#[derive(Debug)]
#[non_exhaustive]
pub struct WebsocketSynthesizerError {
    pub kind: WebsocketSynthesizerErrorKind,
    pub source: Option<WebsocketErrorSource>,
}

#[derive(Debug, PartialEq, Clone)]
#[non_exhaustive]
pub enum WebsocketSynthesizerErrorKind {
    /// The connection to the service could not be made.
    Connect,
    /// The service closed the connection while a request was outstanding.
    WebsocketConnectionClosed { code: String, reason: String },
    /// The transport failed.
    Websocket,
    /// The request could not be built: a bad URL, a bad header value.
    InvalidRequest,
    /// An inbound frame could not be decoded.
    InvalidMessage,
    /// The speech markup could not be rendered.
    Ssml,
}

/// The mathematical value of a [`WebsocketErrorSource`].
#[verifier::ext_equal]
pub ghost enum WebsocketErrorSourceView {
    Transport(Seq<char>),
    Connect(ConnectErrorView),
    Message(ParseErrorView),
    Ssml(SsmlErrorView),
}

/// The mathematical value of a [`WebsocketSynthesizerErrorKind`].
#[verifier::ext_equal]
pub ghost enum WebsocketSynthesizerErrorKindView {
    Connect,
    WebsocketConnectionClosed { code: Seq<char>, reason: Seq<char> },
    Websocket,
    InvalidRequest,
    InvalidMessage,
    Ssml,
}

/// The mathematical value of a [`WebsocketSynthesizerError`].
#[verifier::ext_equal]
pub ghost struct WebsocketSynthesizerErrorView {
    pub kind: WebsocketSynthesizerErrorKindView,
    pub source: Option<WebsocketErrorSourceView>,
}

impl View for WebsocketErrorSource {
    type V = WebsocketErrorSourceView;

    open spec fn view(&self) -> WebsocketErrorSourceView {
        match self {
            WebsocketErrorSource::Transport(cause) => WebsocketErrorSourceView::Transport(cause@),
            WebsocketErrorSource::Connect(error) => WebsocketErrorSourceView::Connect(error@),
            WebsocketErrorSource::Message(error) => WebsocketErrorSourceView::Message(error@),
            WebsocketErrorSource::Ssml(error) => WebsocketErrorSourceView::Ssml(error@),
        }
    }
}

impl View for WebsocketSynthesizerErrorKind {
    type V = WebsocketSynthesizerErrorKindView;

    open spec fn view(&self) -> WebsocketSynthesizerErrorKindView {
        match self {
            WebsocketSynthesizerErrorKind::Connect => WebsocketSynthesizerErrorKindView::Connect,
            WebsocketSynthesizerErrorKind::WebsocketConnectionClosed { code, reason } => {
                WebsocketSynthesizerErrorKindView::WebsocketConnectionClosed {
                    code: code@,
                    reason: reason@,
                }
            },
            WebsocketSynthesizerErrorKind::Websocket => WebsocketSynthesizerErrorKindView::Websocket,
            WebsocketSynthesizerErrorKind::InvalidRequest => {
                WebsocketSynthesizerErrorKindView::InvalidRequest
            },
            WebsocketSynthesizerErrorKind::InvalidMessage => {
                WebsocketSynthesizerErrorKindView::InvalidMessage
            },
            WebsocketSynthesizerErrorKind::Ssml => WebsocketSynthesizerErrorKindView::Ssml,
        }
    }
}

impl View for WebsocketSynthesizerError {
    type V = WebsocketSynthesizerErrorView;

    open spec fn view(&self) -> WebsocketSynthesizerErrorView {
        WebsocketSynthesizerErrorView {
            kind: self.kind@,
            source: match self.source {
                Some(source) => Some(source@),
                None => None,
            },
        }
    }
}

impl WebsocketSynthesizerErrorKindView {
    /// The kind's name in words.
    pub open spec fn name(self) -> Seq<char> {
        match self {
            WebsocketSynthesizerErrorKindView::Connect => "Connect"@,
            WebsocketSynthesizerErrorKindView::WebsocketConnectionClosed { .. } => {
                "Websocket Connection Closed"@
            },
            WebsocketSynthesizerErrorKindView::Websocket => "Websocket"@,
            WebsocketSynthesizerErrorKindView::InvalidRequest => "Invalid Request"@,
            WebsocketSynthesizerErrorKindView::InvalidMessage => "Invalid Message"@,
            WebsocketSynthesizerErrorKindView::Ssml => "Ssml"@,
        }
    }

    /// The error of this kind as one line of text.
    pub open spec fn message(self) -> Seq<char> {
        "ws synthesizer error: "@ + match self {
            WebsocketSynthesizerErrorKindView::WebsocketConnectionClosed { code, reason } => {
                "the websocket connection was closed with code "@ + code + " and reason "@ + reason
            },
            WebsocketSynthesizerErrorKindView::InvalidMessage => {
                "aspeak cannot handle this message. Please report this bug to https://github.com/kxxt/aspeak/issues."@
            },
            _ => self.name() + " error"@,
        }
    }
}

/// The error for a connection that the service closed.
pub open spec fn closed_error(code: Seq<char>, reason: Seq<char>) -> WebsocketSynthesizerErrorView {
    WebsocketSynthesizerErrorView {
        kind: WebsocketSynthesizerErrorKindView::WebsocketConnectionClosed { code, reason },
        source: None,
    }
}

/// The error for a close frame: its code in decimal and its reason, or
/// `Unknown` and a stock reason where the frame carried neither.
pub open spec fn close_frame_error(close: Option<CloseFrameView>) -> WebsocketSynthesizerErrorView {
    match close {
        Some(frame) => closed_error(decimal(frame.code as nat), frame.reason),
        None => closed_error("Unknown"@, "The server closed the connection without a reason"@),
    }
}

/// The error for a stream that ended before the turn did.
pub open spec fn stream_ended_error() -> WebsocketSynthesizerErrorView {
    closed_error("Unknown"@, "The connection ended before the turn was complete"@)
}

/// The error for a frame that could not be decoded.
pub open spec fn invalid_message_error(error: ParseErrorView) -> WebsocketSynthesizerErrorView {
    WebsocketSynthesizerErrorView {
        kind: WebsocketSynthesizerErrorKindView::InvalidMessage,
        source: Some(WebsocketErrorSourceView::Message(error)),
    }
}

/// The error for a transport that failed.
pub open spec fn transport_error(cause: Seq<char>) -> WebsocketSynthesizerErrorView {
    WebsocketSynthesizerErrorView {
        kind: WebsocketSynthesizerErrorKindView::Websocket,
        source: Some(WebsocketErrorSourceView::Transport(cause)),
    }
}

/// The error for an event that the call did not ask for.
pub open spec fn out_of_order_error() -> WebsocketSynthesizerErrorView {
    transport_error("the call was given an event that it did not ask for"@)
}

impl WebsocketSynthesizerErrorKind {
    /// The kind's name in words.
    pub fn as_str(&self) -> (name: &'static str)
        ensures
            name@ == self@.name(),
    {
        match self {
            WebsocketSynthesizerErrorKind::Connect => "Connect",
            WebsocketSynthesizerErrorKind::WebsocketConnectionClosed { .. } => {
                "Websocket Connection Closed"
            },
            WebsocketSynthesizerErrorKind::Websocket => "Websocket",
            WebsocketSynthesizerErrorKind::InvalidRequest => "Invalid Request",
            WebsocketSynthesizerErrorKind::InvalidMessage => "Invalid Message",
            WebsocketSynthesizerErrorKind::Ssml => "Ssml",
        }
    }
}

impl WebsocketSynthesizerError {
    /// An error of the given kind with nothing behind it.
    pub fn new(kind: WebsocketSynthesizerErrorKind) -> (error: Self)
        ensures
            error@ == (WebsocketSynthesizerErrorView { kind: kind@, source: None }),
    {
        WebsocketSynthesizerError { kind, source: None }
    }

    /// The error for a connection that the service closed.
    pub fn connection_closed(code: String, reason: String) -> (error: Self)
        ensures
            error@ == closed_error(code@, reason@),
    {
        WebsocketSynthesizerError {
            kind: WebsocketSynthesizerErrorKind::WebsocketConnectionClosed { code, reason },
            source: None,
        }
    }

    /// The error for a transport that failed, with the cause as text.
    pub fn websocket(cause: String) -> (error: Self)
        ensures
            error@ == transport_error(cause@),
    {
        WebsocketSynthesizerError {
            kind: WebsocketSynthesizerErrorKind::Websocket,
            source: Some(WebsocketErrorSource::Transport(cause)),
        }
    }

    /// The error for a request that could not be built, with the cause as
    /// text.
    pub fn invalid_request(cause: String) -> (error: Self)
        ensures
            error@ == (WebsocketSynthesizerErrorView {
                kind: WebsocketSynthesizerErrorKindView::InvalidRequest,
                source: Some(WebsocketErrorSourceView::Transport(cause@)),
            }),
    {
        WebsocketSynthesizerError {
            kind: WebsocketSynthesizerErrorKind::InvalidRequest,
            source: Some(WebsocketErrorSource::Transport(cause)),
        }
    }

    /// The error as one line of text.
    pub fn message(&self) -> (line: String)
        ensures
            line@ == self@.kind.message(),
    {
        let mut line = String::from_str("ws synthesizer error: ");
        match &self.kind {
            WebsocketSynthesizerErrorKind::WebsocketConnectionClosed { code, reason } => {
                line.append("the websocket connection was closed with code ");
                line.append(code.as_str());
                line.append(" and reason ");
                line.append(reason.as_str());
                assert(line@ =~= self@.kind.message());
            },
            WebsocketSynthesizerErrorKind::InvalidMessage => {
                line.append(
                    "aspeak cannot handle this message. Please report this bug to https://github.com/kxxt/aspeak/issues.",
                );
            },
            kind => {
                line.append(kind.as_str());
                line.append(" error");
                assert(line@ =~= self@.kind.message());
            },
        }
        line
    }
}

impl From<ConnectError> for WebsocketSynthesizerError {
    fn from(error: ConnectError) -> (converted: Self) {
        WebsocketSynthesizerError {
            kind: WebsocketSynthesizerErrorKind::Connect,
            source: Some(WebsocketErrorSource::Connect(error)),
        }
    }
}

impl vstd::std_specs::convert::FromSpecImpl<ConnectError> for WebsocketSynthesizerError {
    open spec fn obeys_from_spec() -> bool {
        true
    }

    open spec fn from_spec(error: ConnectError) -> Self {
        WebsocketSynthesizerError {
            kind: WebsocketSynthesizerErrorKind::Connect,
            source: Some(WebsocketErrorSource::Connect(error)),
        }
    }
}

impl From<ParseError> for WebsocketSynthesizerError {
    fn from(error: ParseError) -> (converted: Self) {
        WebsocketSynthesizerError {
            kind: WebsocketSynthesizerErrorKind::InvalidMessage,
            source: Some(WebsocketErrorSource::Message(error)),
        }
    }
}

impl vstd::std_specs::convert::FromSpecImpl<ParseError> for WebsocketSynthesizerError {
    open spec fn obeys_from_spec() -> bool {
        true
    }

    open spec fn from_spec(error: ParseError) -> Self {
        WebsocketSynthesizerError {
            kind: WebsocketSynthesizerErrorKind::InvalidMessage,
            source: Some(WebsocketErrorSource::Message(error)),
        }
    }
}

impl From<SsmlError> for WebsocketSynthesizerError {
    fn from(error: SsmlError) -> (converted: Self) {
        WebsocketSynthesizerError {
            kind: WebsocketSynthesizerErrorKind::Ssml,
            source: Some(WebsocketErrorSource::Ssml(error)),
        }
    }
}

impl vstd::std_specs::convert::FromSpecImpl<SsmlError> for WebsocketSynthesizerError {
    open spec fn obeys_from_spec() -> bool {
        true
    }

    open spec fn from_spec(error: SsmlError) -> Self {
        WebsocketSynthesizerError {
            kind: WebsocketSynthesizerErrorKind::Ssml,
            source: Some(WebsocketErrorSource::Ssml(error)),
        }
    }
}

/// The client description that the service asks for when a session opens.
pub const CLIENT_INFO_PAYLOAD: &'static str =
    "{\"context\":{\"system\":{\"version\":\"1.25.0\",\"name\":\"SpeechSDK\",\"build\":\"Windows-x64\"},\"os\":{\"platform\":\"Windows\",\"name\":\"Client\",\"version\":\"10\"}}}";

/// The size of the smallest header of an audio file, by which the audio
/// buffer of a call is first sized.
pub const HEADER_SIZE: usize = 44;

/// The message that opens a session. No line break stands between the
/// timestamp and `Content-Type`: the service expects it so.
pub open spec fn speech_config_message(request_id: Seq<char>, timestamp: Seq<char>) -> Seq<char> {
    "Path: speech.config\r\nX-RequestId: "@ + request_id + "\r\nX-Timestamp: "@ + timestamp
        + "Content-Type: application/json\r\n\r\n"@ + CLIENT_INFO_PAYLOAD@
}

/// The synthesis context: the output format, with the boundary and session
/// end metadata switched off.
pub open spec fn synthesis_context(format: AudioFormat) -> Seq<char> {
    "{\"synthesis\":{\"audio\":{\"metadataOptions\":{\"sentenceBoundaryEnabled\":false,\"wordBoundaryEnabled\":false,\"sessionEndEnabled\":false},\"outputFormat\":\""@
        + format.token() + "\"}}}"@
}

/// The first message of a call. No line break stands between the timestamp
/// and `Content-Type`: the service expects it so.
pub open spec fn synthesis_context_message(
    request_id: Seq<char>,
    timestamp: Seq<char>,
    format: AudioFormat,
) -> Seq<char> {
    "Path: synthesis.context\r\nX-RequestId: "@ + request_id + "\r\nX-Timestamp: "@ + timestamp
        + "Content-Type: application/json\r\n\r\n"@ + synthesis_context(format)
}

/// The second message of a call, which carries the markup.
pub open spec fn ssml_message(request_id: Seq<char>, timestamp: Seq<char>, ssml: Seq<char>) -> Seq<
    char,
> {
    "Path: ssml\r\nX-RequestId: "@ + request_id + "\r\nX-Timestamp: "@ + timestamp
        + "\r\nContent-Type: application/ssml+xml\r\n\r\n"@ + ssml
}

/// The text holds no carriage return and no line feed.
pub open spec fn is_unbroken(text: Seq<char>) -> bool {
    forall|i: int| 0 <= i < text.len() ==> text[i] != '\r' && text[i] != '\n'
}

/// The header lines of a message with a JSON body. The timestamp and the
/// content type stand on one line.
pub open spec fn json_header_lines(
    path: Seq<char>,
    request_id: Seq<char>,
    timestamp: Seq<char>,
) -> Seq<Seq<char>> {
    seq![
        "Path: "@ + path,
        "X-RequestId: "@ + request_id,
        "X-Timestamp: "@ + timestamp + "Content-Type: application/json"@,
    ]
}

/// The header lines of the message that carries the markup.
pub open spec fn ssml_header_lines(request_id: Seq<char>, timestamp: Seq<char>) -> Seq<Seq<char>> {
    seq![
        "Path: ssml"@,
        "X-RequestId: "@ + request_id,
        "X-Timestamp: "@ + timestamp,
        "Content-Type: application/ssml+xml"@,
    ]
}

/// Builds the message that opens a session.
pub fn build_speech_config_message(request_id: &str, timestamp: &str) -> (message: String)
    ensures
        message@ == speech_config_message(request_id@, timestamp@),
{
    let mut message = String::from_str("Path: speech.config\r\nX-RequestId: ");
    message.append(request_id);
    message.append("\r\nX-Timestamp: ");
    message.append(timestamp);
    message.append("Content-Type: application/json\r\n\r\n");
    message.append(CLIENT_INFO_PAYLOAD);
    message
}

/// Builds the first message of a call.
pub fn build_synthesis_context_message(request_id: &str, timestamp: &str, format: AudioFormat) -> (message:
    String)
    ensures
        message@ == synthesis_context_message(request_id@, timestamp@, format),
{
    let mut message = String::from_str("Path: synthesis.context\r\nX-RequestId: ");
    message.append(request_id);
    message.append("\r\nX-Timestamp: ");
    message.append(timestamp);
    message.append("Content-Type: application/json\r\n\r\n");
    let ghost head = message@;
    message.append(
        "{\"synthesis\":{\"audio\":{\"metadataOptions\":{\"sentenceBoundaryEnabled\":false,\"wordBoundaryEnabled\":false,\"sessionEndEnabled\":false},\"outputFormat\":\"",
    );
    message.append(format.as_str());
    message.append("\"}}}");
    assert(message@ =~= head + synthesis_context(format));
    message
}

/// Builds the second message of a call.
pub fn build_ssml_message(request_id: &str, timestamp: &str, ssml: &str) -> (message: String)
    ensures
        message@ == ssml_message(request_id@, timestamp@, ssml@),
{
    let mut message = String::from_str("Path: ssml\r\nX-RequestId: ");
    message.append(request_id);
    message.append("\r\nX-Timestamp: ");
    message.append(timestamp);
    message.append("\r\nContent-Type: application/ssml+xml\r\n\r\n");
    message.append(ssml);
    message
}

/// Where a synthesis call stands.
#[derive(Debug, Clone, Copy, PartialEq, Eq, Structural)]
pub enum CallState {
    /// Nothing was sent yet.
    Idle,
    /// The synthesis context was sent.
    ContextSent,
    /// The markup was sent; no frame has come in yet.
    SsmlSent,
    /// Frames are coming in.
    Receiving { turn_started: bool },
    /// The turn ended; the audio was handed out.
    Done,
    /// The call failed.
    Failed,
}

/// What happened since the call last said what to do.
pub enum Event<'a> {
    /// The message was sent.
    Sent,
    /// A frame came in.
    Frame(&'a Frame),
    /// The stream ended: no more frames will come.
    StreamEnded,
    /// Sending or receiving failed, with the cause as text.
    TransportFailed(String),
}

/// What the caller is to do next.
#[derive(Debug)]
pub enum Action {
    /// Send this text frame, then report [`Event::Sent`].
    Send(String),
    /// Wait for the next frame, then report it.
    Receive,
    /// The call is over: here is the audio, or the reason there is none.
    Finish(Result<Vec<u8>, WebsocketSynthesizerError>),
}

/// A synthesis call in progress.
///
/// A call that a session began borrows the session for as long as it
/// lives, so that a session has one call at a time.
pub struct SynthesisCall<'a> {
    state: CallState,
    /// The markup message, until it is sent.
    pending: String,
    /// The audio received so far.
    buffer: Vec<u8>,
    /// The borrow of the session.
    session: core::marker::PhantomData<&'a mut ()>,
}

/// The mathematical value of a [`SynthesisCall`].
#[verifier::ext_equal]
pub ghost struct CallView {
    pub state: CallState,
    pub pending: Seq<char>,
    pub buffer: Seq<u8>,
}

/// The mathematical value of an [`Event`].
#[verifier::ext_equal]
pub ghost enum EventView {
    Sent,
    Frame(FrameView),
    StreamEnded,
    TransportFailed(Seq<char>),
}

/// The mathematical value of an [`Action`].
#[verifier::ext_equal]
pub ghost enum ActionView {
    Send(Seq<char>),
    Receive,
    Finish(Result<Seq<u8>, WebsocketSynthesizerErrorView>),
}

impl<'a> View for SynthesisCall<'a> {
    type V = CallView;

    closed spec fn view(&self) -> CallView {
        CallView { state: self.state, pending: self.pending@, buffer: self.buffer@ }
    }
}

impl<'a> View for Event<'a> {
    type V = EventView;

    open spec fn view(&self) -> EventView {
        match self {
            Event::Sent => EventView::Sent,
            Event::Frame(frame) => EventView::Frame(frame@),
            Event::StreamEnded => EventView::StreamEnded,
            Event::TransportFailed(cause) => EventView::TransportFailed(cause@),
        }
    }
}

impl View for Action {
    type V = ActionView;

    open spec fn view(&self) -> ActionView {
        match self {
            Action::Send(message) => ActionView::Send(message@),
            Action::Receive => ActionView::Receive,
            Action::Finish(Ok(audio)) => ActionView::Finish(Ok(audio@)),
            Action::Finish(Err(error)) => ActionView::Finish(Err(error@)),
        }
    }
}

/// The call is over.
pub open spec fn is_over(state: CallState) -> bool {
    state is Done || state is Failed
}

/// The call waits for a frame.
pub open spec fn is_receiving(state: CallState) -> bool {
    state is SsmlSent || state is Receiving
}

/// Whether the turn has started, as far as the call has seen.
pub open spec fn turn_started(state: CallState) -> bool {
    state matches CallState::Receiving { turn_started } && turn_started
}

/// The call after it failed: nothing pending, the audio dropped.
pub open spec fn failed(error: WebsocketSynthesizerErrorView) -> (CallView, ActionView) {
    (
        CallView { state: CallState::Failed, pending: Seq::empty(), buffer: Seq::empty() },
        ActionView::Finish(Err(error)),
    )
}

/// What a decoded message does to a call that waits for a frame.
pub open spec fn on_message(call: CallView, message: MessageView) -> (CallView, ActionView) {
    let started = turn_started(call.state);
    match message {
        MessageView::TurnStart => (
            CallView { state: CallState::Receiving { turn_started: true }, ..call },
            ActionView::Receive,
        ),
        MessageView::Response { .. } | MessageView::Ping | MessageView::Pong => (
            CallView { state: CallState::Receiving { turn_started: started }, ..call },
            ActionView::Receive,
        ),
        MessageView::Audio { data } => (
            CallView {
                state: CallState::Receiving { turn_started: started },
                buffer: call.buffer + data,
                ..call
            },
            ActionView::Receive,
        ),
        MessageView::TurnEnd => (
            CallView { state: CallState::Done, pending: call.pending, buffer: Seq::empty() },
            ActionView::Finish(Ok(call.buffer)),
        ),
        MessageView::Close(close) => failed(close_frame_error(close)),
    }
}

/// One step of a call: the call after the event, and what to do next.
///
/// The context is sent first, the markup second, and only then are frames
/// awaited. Audio is appended in the order of arrival; the end of the turn
/// hands the audio out; a close frame, a frame that cannot be decoded, the
/// end of the stream and a failure of the transport fail the call, and so
/// does any event that the call did not ask for.
pub open spec fn transition(call: CallView, event: EventView) -> (CallView, ActionView) {
    match (call.state, event) {
        (CallState::Idle, EventView::Sent) => (
            CallView { state: CallState::ContextSent, pending: Seq::empty(), ..call },
            ActionView::Send(call.pending),
        ),
        (CallState::ContextSent, EventView::Sent) => (
            CallView { state: CallState::SsmlSent, ..call },
            ActionView::Receive,
        ),
        (CallState::SsmlSent, EventView::Frame(frame)) | (
            CallState::Receiving { .. },
            EventView::Frame(frame),
        ) => match decode(frame) {
            Ok(message) => on_message(call, message),
            Err(error) => failed(invalid_message_error(error)),
        },
        (CallState::SsmlSent, EventView::StreamEnded) | (
            CallState::Receiving { .. },
            EventView::StreamEnded,
        ) => failed(stream_ended_error()),
        (CallState::Done, _) | (CallState::Failed, _) => failed(out_of_order_error()),
        (_, EventView::TransportFailed(cause)) => failed(transport_error(cause)),
        _ => failed(out_of_order_error()),
    }
}

impl<'a> SynthesisCall<'a> {
    /// Where the call stands.
    pub fn state(&self) -> (state: CallState)
        ensures
            state == self@.state,
    {
        self.state
    }

    /// Begins a call: the first message is to be sent, the markup message
    /// waits, and no audio has come in.
    pub fn start(format: AudioFormat, request_id: &str, timestamp: &str, ssml: &str) -> (begun: (
        SynthesisCall<'a>,
        Action,
    ))
        ensures
            begun.0@ == (CallView {
                state: CallState::Idle,
                pending: ssml_message(request_id@, timestamp@, ssml@),
                buffer: Seq::empty(),
            }),
            begun.1@ == ActionView::Send(
                synthesis_context_message(request_id@, timestamp@, format),
            ),
    {
        let call = SynthesisCall {
            state: CallState::Idle,
            pending: build_ssml_message(request_id, timestamp, ssml),
            buffer: Vec::with_capacity(HEADER_SIZE),
            session: core::marker::PhantomData,
        };
        (call, Action::Send(build_synthesis_context_message(request_id, timestamp, format)))
    }

    fn fail(&mut self, error: WebsocketSynthesizerError) -> (action: Action)
        ensures
            (final(self)@, action@) == failed(error@),
    {
        self.state = CallState::Failed;
        self.pending = String::new();
        self.buffer = Vec::new();
        Action::Finish(Err(error))
    }

    fn receive(&mut self, frame: &Frame) -> (action: Action)
        requires
            is_receiving(old(self)@.state),
        ensures
            (final(self)@, action@) == transition(old(self)@, EventView::Frame(frame@)),
    {
        let started = match self.state {
            CallState::Receiving { turn_started } => turn_started,
            _ => false,
        };
        match WebSocketMessage::try_from(frame) {
            Ok(WebSocketMessage::TurnStart) => {
                self.state = CallState::Receiving { turn_started: true };
                Action::Receive
            },
            Ok(WebSocketMessage::Response { .. }) | Ok(WebSocketMessage::Ping) | Ok(
                WebSocketMessage::Pong,
            ) => {
                self.state = CallState::Receiving { turn_started: started };
                Action::Receive
            },
            Ok(WebSocketMessage::Audio { data }) => {
                self.state = CallState::Receiving { turn_started: started };
                self.buffer.extend_from_slice(data);
                Action::Receive
            },
            Ok(WebSocketMessage::TurnEnd) => {
                self.state = CallState::Done;
                let mut audio: Vec<u8> = Vec::new();
                std::mem::swap(&mut audio, &mut self.buffer);
                Action::Finish(Ok(audio))
            },
            Ok(WebSocketMessage::Close(close)) => {
                let error = match close {
                    Some(frame) => {
                        let mut code = String::new();
                        push_decimal(&mut code, frame.code as u64);
                        assert(code@ =~= decimal(frame.code as nat));
                        WebsocketSynthesizerError::connection_closed(code, frame.reason.clone())
                    },
                    None => WebsocketSynthesizerError::connection_closed(
                        String::from_str("Unknown"),
                        String::from_str("The server closed the connection without a reason"),
                    ),
                };
                self.fail(error)
            },
            Err(error) => self.fail(
                WebsocketSynthesizerError {
                    kind: WebsocketSynthesizerErrorKind::InvalidMessage,
                    source: Some(WebsocketErrorSource::Message(error)),
                },
            ),
        }
    }

    /// Takes one event and says what to do next.
    pub fn step(&mut self, event: Event<'_>) -> (action: Action)
        ensures
            (final(self)@, action@) == transition(old(self)@, event@),
    {
        match (self.state, event) {
            (CallState::Idle, Event::Sent) => {
                self.state = CallState::ContextSent;
                let mut message = String::new();
                std::mem::swap(&mut message, &mut self.pending);
                Action::Send(message)
            },
            (CallState::ContextSent, Event::Sent) => {
                self.state = CallState::SsmlSent;
                Action::Receive
            },
            (CallState::SsmlSent, Event::Frame(frame)) => self.receive(frame),
            (CallState::Receiving { .. }, Event::Frame(frame)) => self.receive(frame),
            (CallState::SsmlSent, Event::StreamEnded) | (
                CallState::Receiving { .. },
                Event::StreamEnded,
            ) => self.fail(
                WebsocketSynthesizerError::connection_closed(
                    String::from_str("Unknown"),
                    String::from_str("The connection ended before the turn was complete"),
                ),
            ),
            (CallState::Done, _) | (CallState::Failed, _) => self.fail(
                WebsocketSynthesizerError::websocket(
                    String::from_str("the call was given an event that it did not ask for"),
                ),
            ),
            (_, Event::TransportFailed(cause)) => self.fail(
                WebsocketSynthesizerError::websocket(cause),
            ),
            _ => self.fail(
                WebsocketSynthesizerError::websocket(
                    String::from_str("the call was given an event that it did not ask for"),
                ),
            ),
        }
    }
}

/// The views of a list of frames.
pub open spec fn frame_views(frames: Seq<Frame>) -> Seq<FrameView> {
    Seq::new(frames.len(), |i: int| frames[i]@)
}

/// The mathematical value of what a call hands out when it is over.
pub open spec fn outcome_view(outcome: Option<Result<Vec<u8>, WebsocketSynthesizerError>>) -> Option<
    Result<Seq<u8>, WebsocketSynthesizerErrorView>,
> {
    match outcome {
        Some(Ok(audio)) => Some(Ok(audio@)),
        Some(Err(error)) => Some(Err(error@)),
        None => None,
    }
}

/// A call after the frames came in, one by one, and what it handed out if
/// one of them ended it. Frames after that one are not looked at.
pub open spec fn run(call: CallView, frames: Seq<FrameView>) -> (
    CallView,
    Option<Result<Seq<u8>, WebsocketSynthesizerErrorView>>,
)
    decreases frames.len(),
{
    if frames.len() == 0 {
        (call, None)
    } else {
        let (next, action) = transition(call, EventView::Frame(frames[0]));
        match action {
            ActionView::Finish(result) => (next, Some(result)),
            _ => run(next, frames.drop_first()),
        }
    }
}

/// The frame decodes, and to a message that neither ends nor fails a call.
pub open spec fn continues(frame: FrameView) -> bool {
    decode(frame) matches Ok(message) && !(message is TurnEnd) && !(message is Close)
}

/// The audio that a frame carries: the payload of an audio message, and
/// nothing for any other frame.
pub open spec fn audio_in(frame: FrameView) -> Seq<u8> {
    match decode(frame) {
        Ok(MessageView::Audio { data }) => data,
        _ => Seq::empty(),
    }
}

/// The audio that the frames carry, in their order.
pub open spec fn audio_of(frames: Seq<FrameView>) -> Seq<u8>
    decreases frames.len(),
{
    if frames.len() == 0 {
        Seq::empty()
    } else {
        audio_in(frames[0]) + audio_of(frames.drop_first())
    }
}

impl<'a> SynthesisCall<'a> {
    /// Takes the frames in their order, up to the one that ends the call.
    /// Answers what the call handed out, or nothing if it still waits.
    pub fn feed(&mut self, frames: &[Frame]) -> (outcome: Option<
        Result<Vec<u8>, WebsocketSynthesizerError>,
    >)
        ensures
            (final(self)@, outcome_view(outcome)) == run(old(self)@, frame_views(frames@)),
    {
        let ghost all = frame_views(frames@);
        let mut i: usize = 0;
        assert(all.skip(0) =~= all);
        while i < frames.len()
            invariant
                i <= frames@.len(),
                all == frame_views(frames@),
                run(old(self)@, all) == run(self@, all.skip(i as int)),
            decreases frames@.len() - i,
        {
            proof {
                assert(all.skip(i as int)[0] == frames@[i as int]@);
                assert(all.skip(i as int).drop_first() =~= all.skip(i + 1));
            }
            match self.step(Event::Frame(&frames[i])) {
                Action::Finish(result) => {
                    return Some(result);
                },
                _ => {},
            }
            i += 1;
        }
        None
    }
}

/// Audio accumulates in the order of arrival. Where a call waits for frames
/// and none of `frames` ends or fails it, the frame that ends the turn
/// hands out what the call held before, then the audio of `frames` in
/// their order. Nothing of what comes after that frame is included.
pub proof fn lemma_audio_in_arrival_order(
    call: CallView,
    frames: Seq<FrameView>,
    end: FrameView,
    rest: Seq<FrameView>,
)
    requires
        is_receiving(call.state),
        forall|i: int| 0 <= i < frames.len() ==> continues(#[trigger] frames[i]),
        decode(end) == Ok::<MessageView, ParseErrorView>(MessageView::TurnEnd),
    ensures
        run(call, frames + seq![end] + rest).1 == Some(
            Ok::<Seq<u8>, WebsocketSynthesizerErrorView>(call.buffer + audio_of(frames)),
        ),
        run(call, frames + seq![end] + rest).0.state == CallState::Done,
    decreases frames.len(),
{
    let all = frames + seq![end] + rest;
    if frames.len() == 0 {
        assert(all[0] == end);
        assert(call.buffer + audio_of(frames) =~= call.buffer);
    } else {
        assert(all[0] == frames[0]);
        assert(continues(frames[0]));
        let (next, action) = transition(call, EventView::Frame(frames[0]));
        assert(all.drop_first() =~= frames.drop_first() + seq![end] + rest);
        assert forall|i: int| 0 <= i < frames.drop_first().len() implies continues(
            #[trigger] frames.drop_first()[i],
        ) by {
            assert(frames.drop_first()[i] == frames[i + 1]);
        }
        lemma_audio_in_arrival_order(next, frames.drop_first(), end, rest);
        assert(next.buffer =~= call.buffer + audio_in(frames[0]));
        assert(next.buffer + audio_of(frames.drop_first()) =~= call.buffer + audio_of(frames));
    }
}

/// A close frame fails the call. Where a call waits for frames and none of
/// `frames` ends or fails it, a close frame after them makes the call hand
/// out the connection-closed error with the frame's code and reason; the
/// audio received so far is dropped, not handed out.
pub proof fn lemma_close_fails_the_call(
    call: CallView,
    frames: Seq<FrameView>,
    close: Option<CloseFrameView>,
    rest: Seq<FrameView>,
)
    requires
        is_receiving(call.state),
        forall|i: int| 0 <= i < frames.len() ==> continues(#[trigger] frames[i]),
    ensures
        run(call, frames + seq![FrameView::Close(close)] + rest).1 == Some(
            Err::<Seq<u8>, WebsocketSynthesizerErrorView>(close_frame_error(close)),
        ),
        run(call, frames + seq![FrameView::Close(close)] + rest).0.state == CallState::Failed,
        run(call, frames + seq![FrameView::Close(close)] + rest).0.buffer == Seq::<u8>::empty(),
    decreases frames.len(),
{
    let closing = FrameView::Close(close);
    let all = frames + seq![closing] + rest;
    if frames.len() == 0 {
        assert(all[0] == closing);
    } else {
        assert(all[0] == frames[0]);
        assert(continues(frames[0]));
        let (next, action) = transition(call, EventView::Frame(frames[0]));
        assert(all.drop_first() =~= frames.drop_first() + seq![closing] + rest);
        assert forall|i: int| 0 <= i < frames.drop_first().len() implies continues(
            #[trigger] frames.drop_first()[i],
        ) by {
            assert(frames.drop_first()[i] == frames[i + 1]);
        }
        lemma_close_fails_the_call(next, frames.drop_first(), close, rest);
    }
}

proof fn lemma_json_message_is_a_frame(
    head: Seq<char>,
    path: Seq<char>,
    request_id: Seq<char>,
    timestamp: Seq<char>,
    body: Seq<char>,
)
    requires
        head == "Path: "@ + path + "\r\nX-RequestId: "@,
        is_unbroken(path),
        is_unbroken(request_id),
        is_unbroken(timestamp),
    ensures
        head + request_id + "\r\nX-Timestamp: "@ + timestamp
            + "Content-Type: application/json\r\n\r\n"@ + body == text_frame(
            json_header_lines(path, request_id, timestamp),
            body,
        ),
        forall|i: int|
            0 <= i < 3 ==> is_plain_line(#[trigger] json_header_lines(path, request_id, timestamp)[i]),
{
    reveal_strlit("Path: ");
    reveal_strlit("\r\nX-RequestId: ");
    reveal_strlit("X-RequestId: ");
    reveal_strlit("\r\nX-Timestamp: ");
    reveal_strlit("X-Timestamp: ");
    reveal_strlit("Content-Type: application/json\r\n\r\n");
    reveal_strlit("Content-Type: application/json");
    reveal_strlit("\r\n\r\n");
    reveal_strlit("\r\n");
    reveal_with_fuel(join, 4);
    let lines = json_header_lines(path, request_id, timestamp);
    assert("\r\nX-RequestId: "@ =~= "\r\n"@ + "X-RequestId: "@);
    assert("\r\nX-Timestamp: "@ =~= "\r\n"@ + "X-Timestamp: "@);
    assert("Content-Type: application/json\r\n\r\n"@ =~= "Content-Type: application/json"@
        + "\r\n\r\n"@);
    let rest = lines.drop_first();
    assert(rest.len() == 2 && rest[0] == lines[1] && rest[1] == lines[2]);
    assert(rest.drop_first().len() == 1 && rest.drop_first()[0] == lines[2]);
    assert(join(lines, "\r\n"@) =~= lines[0] + "\r\n"@ + (lines[1] + "\r\n"@ + lines[2]));
    assert(head + request_id + "\r\nX-Timestamp: "@ + timestamp
        + "Content-Type: application/json\r\n\r\n"@ + body =~= text_frame(lines, body));
    assert(is_plain_line(lines[0]));
    assert(is_plain_line(lines[1]));
    assert(is_plain_line(lines[2]));
}

/// The messages that a session sends are frames: header lines with CRLF
/// between them, a blank line, and the body. Where the request id and the
/// timestamp hold no line break, the body of each message is what stands
/// after its first blank line: the client description, the synthesis
/// context, and the markup, whatever the markup holds.
pub proof fn lemma_messages_are_frames(
    request_id: Seq<char>,
    timestamp: Seq<char>,
    format: AudioFormat,
    ssml: Seq<char>,
)
    requires
        is_unbroken(request_id),
        is_unbroken(timestamp),
    ensures
        speech_config_message(request_id, timestamp) == text_frame(
            json_header_lines("speech.config"@, request_id, timestamp),
            CLIENT_INFO_PAYLOAD@,
        ),
        synthesis_context_message(request_id, timestamp, format) == text_frame(
            json_header_lines("synthesis.context"@, request_id, timestamp),
            synthesis_context(format),
        ),
        ssml_message(request_id, timestamp, ssml) == text_frame(
            ssml_header_lines(request_id, timestamp),
            ssml,
        ),
        forall|i: int|
            0 <= i < 3 ==> is_plain_line(
                #[trigger] json_header_lines("speech.config"@, request_id, timestamp)[i],
            ),
        forall|i: int|
            0 <= i < 3 ==> is_plain_line(
                #[trigger] json_header_lines("synthesis.context"@, request_id, timestamp)[i],
            ),
        forall|i: int|
            0 <= i < 4 ==> is_plain_line(#[trigger] ssml_header_lines(request_id, timestamp)[i]),
{
    reveal_strlit("Path: speech.config\r\nX-RequestId: ");
    reveal_strlit("Path: synthesis.context\r\nX-RequestId: ");
    reveal_strlit("Path: ");
    reveal_strlit("speech.config");
    reveal_strlit("synthesis.context");
    reveal_strlit("\r\nX-RequestId: ");
    assert("Path: speech.config\r\nX-RequestId: "@ =~= "Path: "@ + "speech.config"@
        + "\r\nX-RequestId: "@);
    assert("Path: synthesis.context\r\nX-RequestId: "@ =~= "Path: "@ + "synthesis.context"@
        + "\r\nX-RequestId: "@);
    lemma_json_message_is_a_frame(
        "Path: speech.config\r\nX-RequestId: "@,
        "speech.config"@,
        request_id,
        timestamp,
        CLIENT_INFO_PAYLOAD@,
    );
    lemma_json_message_is_a_frame(
        "Path: synthesis.context\r\nX-RequestId: "@,
        "synthesis.context"@,
        request_id,
        timestamp,
        synthesis_context(format),
    );
    reveal_strlit("Path: ssml\r\nX-RequestId: ");
    reveal_strlit("Path: ssml");
    reveal_strlit("X-RequestId: ");
    reveal_strlit("\r\nX-Timestamp: ");
    reveal_strlit("X-Timestamp: ");
    reveal_strlit("\r\nContent-Type: application/ssml+xml\r\n\r\n");
    reveal_strlit("Content-Type: application/ssml+xml");
    reveal_strlit("\r\n\r\n");
    reveal_strlit("\r\n");
    reveal_with_fuel(join, 5);
    let lines = ssml_header_lines(request_id, timestamp);
    assert("Path: ssml\r\nX-RequestId: "@ =~= "Path: ssml"@ + "\r\n"@ + "X-RequestId: "@);
    assert("\r\nX-Timestamp: "@ =~= "\r\n"@ + "X-Timestamp: "@);
    assert("\r\nContent-Type: application/ssml+xml\r\n\r\n"@ =~= "\r\n"@
        + "Content-Type: application/ssml+xml"@ + "\r\n\r\n"@);
    let rest = lines.drop_first();
    assert(rest.len() == 3 && rest[0] == lines[1] && rest[1] == lines[2] && rest[2] == lines[3]);
    let last_two = rest.drop_first();
    assert(last_two.len() == 2 && last_two[0] == lines[2] && last_two[1] == lines[3]);
    assert(last_two.drop_first().len() == 1 && last_two.drop_first()[0] == lines[3]);
    assert(join(lines, "\r\n"@) =~= lines[0] + "\r\n"@ + (lines[1] + "\r\n"@ + (lines[2] + "\r\n"@
        + lines[3])));
    assert(ssml_message(request_id, timestamp, ssml) =~= text_frame(lines, ssml));
    assert(is_plain_line(lines[0]));
    assert(is_plain_line(lines[1]));
    assert(is_plain_line(lines[2]));
    assert(is_plain_line(lines[3]));
}

/// The messages of a call go out in their order: the first thing a call
/// asks for is to send the synthesis context; once that is sent, to send
/// the markup; once that is sent, to receive. No frame is awaited before.
pub proof fn lemma_send_order(call: CallView)
    requires
        call.state == CallState::Idle,
    ensures
        transition(call, EventView::Sent).1 == ActionView::Send(call.pending),
        transition(call, EventView::Sent).0.state == CallState::ContextSent,
        transition(transition(call, EventView::Sent).0, EventView::Sent).1 == ActionView::Receive,
        transition(transition(call, EventView::Sent).0, EventView::Sent).0.state
            == CallState::SsmlSent,
        forall|frame: FrameView|
            (#[trigger] transition(call, EventView::Frame(frame))).1 == ActionView::Finish(
                Err(out_of_order_error()),
            ),
        forall|frame: FrameView|
            (#[trigger] transition(
                transition(call, EventView::Sent).0,
                EventView::Frame(frame),
            )).1 == ActionView::Finish(Err(out_of_order_error())),
{
}

/// A call that is over stays over: whatever happens next, it fails as out
/// of order and hands out no audio.
pub proof fn lemma_over_is_final(call: CallView, event: EventView)
    requires
        is_over(call.state),
    ensures
        transition(call, event) == failed(out_of_order_error()),
{
}

/// While a call goes on, the audio it holds only grows: what it held before
/// an event is the beginning of what it holds after it.
pub proof fn lemma_audio_only_grows(call: CallView, event: EventView)
    requires
        !(transition(call, event).1 is Finish),
    ensures
        call.buffer.is_prefix_of(transition(call, event).0.buffer),
{
    let next = transition(call, event).0;
    if next.buffer != call.buffer {
        assert(next.buffer.subrange(0, call.buffer.len() as int) =~= call.buffer);
    }
}

/// Keep-alive frames change nothing that a call holds.
pub proof fn lemma_ping_pong_pass_through(call: CallView, payload: Seq<u8>)
    requires
        is_receiving(call.state),
    ensures
        transition(call, EventView::Frame(FrameView::Ping(payload))).1 == ActionView::Receive,
        transition(call, EventView::Frame(FrameView::Pong(payload))).1 == ActionView::Receive,
        transition(call, EventView::Frame(FrameView::Ping(payload))).0.buffer == call.buffer,
        transition(call, EventView::Frame(FrameView::Pong(payload))).0.buffer == call.buffer,
{
}

} // verus!
