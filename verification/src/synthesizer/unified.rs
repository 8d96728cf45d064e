//! The error that both synthesizers share.

use vstd::prelude::*;
use vstd::string::*;
use crate::ssml::SsmlError;
use crate::synthesizer::rest::{RestSynthesizerError, RestSynthesizerErrorKind};
use crate::synthesizer::websocket::{WebsocketSynthesizerError, WebsocketSynthesizerErrorKind};

verus! {

/// What lies behind a [`UnifiedSynthesizerError`].
#[derive(Debug)]
pub enum UnifiedErrorSource {
    Rest(RestSynthesizerError),
    Websocket(WebsocketSynthesizerError),
    Ssml(SsmlError),
}

/// Why a synthesis failed, whichever synthesizer made it.
#[derive(Debug)]
#[non_exhaustive]
pub struct UnifiedSynthesizerError {
    pub kind: UnifiedSynthesizerErrorKind,
    pub source: Option<UnifiedErrorSource>,
}

#[derive(Debug, PartialEq, Eq, Clone, Copy, Structural)]
#[non_exhaustive]
pub enum UnifiedSynthesizerErrorKind {
    Connect,
    InvalidRequest,
    Http,
    Connection,
    InvalidMessage,
    Ssml,
}

/// The kind that stands for a kind of the REST synthesizer.
pub open spec fn kind_of_rest(kind: RestSynthesizerErrorKind) -> UnifiedSynthesizerErrorKind {
    match kind {
        RestSynthesizerErrorKind::Connect => UnifiedSynthesizerErrorKind::Connect,
        RestSynthesizerErrorKind::InvalidRequest => UnifiedSynthesizerErrorKind::InvalidRequest,
        RestSynthesizerErrorKind::Unauthorized
        | RestSynthesizerErrorKind::TooManyRequests
        | RestSynthesizerErrorKind::UnsupportedMediaType
        | RestSynthesizerErrorKind::OtherHttp => UnifiedSynthesizerErrorKind::Http,
        RestSynthesizerErrorKind::Connection => UnifiedSynthesizerErrorKind::Connection,
        RestSynthesizerErrorKind::Ssml => UnifiedSynthesizerErrorKind::Ssml,
    }
}

/// The kind that stands for a kind of the websocket synthesizer.
pub open spec fn kind_of_websocket(
    kind: WebsocketSynthesizerErrorKind,
) -> UnifiedSynthesizerErrorKind {
    match kind {
        WebsocketSynthesizerErrorKind::Connect => UnifiedSynthesizerErrorKind::Connect,
        WebsocketSynthesizerErrorKind::WebsocketConnectionClosed { .. } => {
            UnifiedSynthesizerErrorKind::Connection
        },
        WebsocketSynthesizerErrorKind::Websocket => UnifiedSynthesizerErrorKind::Connection,
        WebsocketSynthesizerErrorKind::InvalidRequest => UnifiedSynthesizerErrorKind::InvalidRequest,
        WebsocketSynthesizerErrorKind::InvalidMessage => UnifiedSynthesizerErrorKind::InvalidMessage,
        WebsocketSynthesizerErrorKind::Ssml => UnifiedSynthesizerErrorKind::Ssml,
    }
}

impl UnifiedSynthesizerErrorKind {
    /// The kind's name in words.
    pub open spec fn name(self) -> Seq<char> {
        match self {
            UnifiedSynthesizerErrorKind::Connect => "Connect"@,
            UnifiedSynthesizerErrorKind::InvalidRequest => "Invalid Request"@,
            UnifiedSynthesizerErrorKind::Http => "Http"@,
            UnifiedSynthesizerErrorKind::Connection => "Connection"@,
            UnifiedSynthesizerErrorKind::InvalidMessage => "Invalid Message"@,
            UnifiedSynthesizerErrorKind::Ssml => "Ssml"@,
        }
    }

    /// The error of this kind as one line of text.
    pub open spec fn message(self) -> Seq<char> {
        "unified synthesizer error: "@ + match self {
            UnifiedSynthesizerErrorKind::Connect => "error while connecting to the server"@,
            UnifiedSynthesizerErrorKind::InvalidRequest => {
                "an invalid request is constructed or 400 status reported by the server"@
            },
            _ => self.name() + " error"@,
        }
    }

    /// The kind's name in words.
    pub fn as_str(&self) -> (name: &'static str)
        ensures
            name@ == self.name(),
    {
        match self {
            UnifiedSynthesizerErrorKind::Connect => "Connect",
            UnifiedSynthesizerErrorKind::InvalidRequest => "Invalid Request",
            UnifiedSynthesizerErrorKind::Http => "Http",
            UnifiedSynthesizerErrorKind::Connection => "Connection",
            UnifiedSynthesizerErrorKind::InvalidMessage => "Invalid Message",
            UnifiedSynthesizerErrorKind::Ssml => "Ssml",
        }
    }
}

impl UnifiedSynthesizerError {
    /// An error of the given kind with nothing behind it.
    pub fn new(kind: UnifiedSynthesizerErrorKind) -> (error: Self)
        ensures
            error.kind == kind,
            error.source is None,
    {
        UnifiedSynthesizerError { kind, source: None }
    }

    /// The error as one line of text.
    pub fn message(&self) -> (line: String)
        ensures
            line@ == self.kind.message(),
    {
        let mut line = String::from_str("unified synthesizer error: ");
        match self.kind {
            UnifiedSynthesizerErrorKind::Connect => {
                line.append("error while connecting to the server");
            },
            UnifiedSynthesizerErrorKind::InvalidRequest => {
                line.append(
                    "an invalid request is constructed or 400 status reported by the server",
                );
            },
            kind => {
                line.append(kind.as_str());
                line.append(" error");
                assert(line@ =~= self.kind.message());
            },
        }
        line
    }
}

impl From<SsmlError> for UnifiedSynthesizerError {
    fn from(error: SsmlError) -> (converted: Self) {
        UnifiedSynthesizerError {
            kind: UnifiedSynthesizerErrorKind::Ssml,
            source: Some(UnifiedErrorSource::Ssml(error)),
        }
    }
}

impl vstd::std_specs::convert::FromSpecImpl<SsmlError> for UnifiedSynthesizerError {
    open spec fn obeys_from_spec() -> bool {
        true
    }

    open spec fn from_spec(error: SsmlError) -> Self {
        UnifiedSynthesizerError {
            kind: UnifiedSynthesizerErrorKind::Ssml,
            source: Some(UnifiedErrorSource::Ssml(error)),
        }
    }
}

impl From<RestSynthesizerError> for UnifiedSynthesizerError {
    fn from(value: RestSynthesizerError) -> (converted: Self) {
        let kind = match value.kind {
            RestSynthesizerErrorKind::Connect => UnifiedSynthesizerErrorKind::Connect,
            RestSynthesizerErrorKind::InvalidRequest => UnifiedSynthesizerErrorKind::InvalidRequest,
            RestSynthesizerErrorKind::Unauthorized
            | RestSynthesizerErrorKind::TooManyRequests
            | RestSynthesizerErrorKind::UnsupportedMediaType
            | RestSynthesizerErrorKind::OtherHttp => UnifiedSynthesizerErrorKind::Http,
            RestSynthesizerErrorKind::Connection => UnifiedSynthesizerErrorKind::Connection,
            RestSynthesizerErrorKind::Ssml => UnifiedSynthesizerErrorKind::Ssml,
        };
        UnifiedSynthesizerError { kind, source: Some(UnifiedErrorSource::Rest(value)) }
    }
}

impl vstd::std_specs::convert::FromSpecImpl<RestSynthesizerError> for UnifiedSynthesizerError {
    open spec fn obeys_from_spec() -> bool {
        true
    }

    open spec fn from_spec(value: RestSynthesizerError) -> Self {
        UnifiedSynthesizerError {
            kind: kind_of_rest(value.kind),
            source: Some(UnifiedErrorSource::Rest(value)),
        }
    }
}

impl From<WebsocketSynthesizerError> for UnifiedSynthesizerError {
    fn from(value: WebsocketSynthesizerError) -> (converted: Self) {
        let kind = match &value.kind {
            WebsocketSynthesizerErrorKind::Connect => UnifiedSynthesizerErrorKind::Connect,
            WebsocketSynthesizerErrorKind::WebsocketConnectionClosed { .. } => {
                UnifiedSynthesizerErrorKind::Connection
            },
            WebsocketSynthesizerErrorKind::Websocket => UnifiedSynthesizerErrorKind::Connection,
            WebsocketSynthesizerErrorKind::InvalidRequest => {
                UnifiedSynthesizerErrorKind::InvalidRequest
            },
            WebsocketSynthesizerErrorKind::InvalidMessage => {
                UnifiedSynthesizerErrorKind::InvalidMessage
            },
            WebsocketSynthesizerErrorKind::Ssml => UnifiedSynthesizerErrorKind::Ssml,
        };
        UnifiedSynthesizerError { kind, source: Some(UnifiedErrorSource::Websocket(value)) }
    }
}

impl vstd::std_specs::convert::FromSpecImpl<WebsocketSynthesizerError> for UnifiedSynthesizerError {
    open spec fn obeys_from_spec() -> bool {
        true
    }

    open spec fn from_spec(value: WebsocketSynthesizerError) -> Self {
        UnifiedSynthesizerError {
            kind: kind_of_websocket(value.kind),
            source: Some(UnifiedErrorSource::Websocket(value)),
        }
    }
}

/// Every failure of a synthesizer keeps its meaning in the shared error: a
/// refused request stays a refused request, a frame that could not be
/// decoded stays one, and what closed or broke the connection is a failure
/// of the connection.
pub proof fn lemma_kinds_carry_over(
    rest: RestSynthesizerErrorKind,
    websocket: WebsocketSynthesizerErrorKind,
)
    ensures
        kind_of_rest(rest) is InvalidRequest <==> rest is InvalidRequest,
        kind_of_rest(rest) is Ssml <==> rest is Ssml,
        kind_of_rest(rest) is Connect <==> rest is Connect,
        kind_of_rest(rest) != UnifiedSynthesizerErrorKind::InvalidMessage,
        kind_of_websocket(websocket) is InvalidRequest <==> websocket is InvalidRequest,
        kind_of_websocket(websocket) is InvalidMessage <==> websocket is InvalidMessage,
        kind_of_websocket(websocket) is Ssml <==> websocket is Ssml,
        kind_of_websocket(websocket) is Connect <==> websocket is Connect,
        kind_of_websocket(websocket) is Connection <==> (websocket is WebsocketConnectionClosed
            || websocket is Websocket),
        kind_of_websocket(websocket) != UnifiedSynthesizerErrorKind::Http,
{
}

} // verus!
