//! The errors of connecting to the service.

use vstd::prelude::*;
use vstd::string::*;
use crate::text::opt_chars;

verus! {

/// What went wrong while connecting to the service: a request that could
/// not be built, a proxy that refused, or the network.
#[derive(Debug)]
#[non_exhaustive]
pub struct ConnectError {
    pub kind: ConnectErrorKind,
    /// The underlying cause, as text.
    pub source: Option<String>,
}

#[derive(Debug, PartialEq, Clone)]
#[non_exhaustive]
pub enum ConnectErrorKind {
    BadUrl(String),
    UnsupportedScheme(Option<String>),
    RequestConstruction,
    BadResponse,
    Connection,
}

/// The mathematical value of a [`ConnectErrorKind`].
#[verifier::ext_equal]
pub ghost enum ConnectErrorKindView {
    BadUrl(Seq<char>),
    UnsupportedScheme(Option<Seq<char>>),
    RequestConstruction,
    BadResponse,
    Connection,
}

/// The mathematical value of a [`ConnectError`].
#[verifier::ext_equal]
pub ghost struct ConnectErrorView {
    pub kind: ConnectErrorKindView,
    pub source: Option<Seq<char>>,
}

impl View for ConnectErrorKind {
    type V = ConnectErrorKindView;

    open spec fn view(&self) -> ConnectErrorKindView {
        match self {
            ConnectErrorKind::BadUrl(url) => ConnectErrorKindView::BadUrl(url@),
            ConnectErrorKind::UnsupportedScheme(scheme) => ConnectErrorKindView::UnsupportedScheme(
                opt_chars(*scheme),
            ),
            ConnectErrorKind::RequestConstruction => ConnectErrorKindView::RequestConstruction,
            ConnectErrorKind::BadResponse => ConnectErrorKindView::BadResponse,
            ConnectErrorKind::Connection => ConnectErrorKindView::Connection,
        }
    }
}

impl View for ConnectError {
    type V = ConnectErrorView;

    open spec fn view(&self) -> ConnectErrorView {
        ConnectErrorView { kind: self.kind@, source: opt_chars(self.source) }
    }
}

impl ConnectErrorKindView {
    /// The kind's name in words.
    pub open spec fn name(self) -> Seq<char> {
        match self {
            ConnectErrorKindView::BadUrl(_) => "Bad Url"@,
            ConnectErrorKindView::UnsupportedScheme(_) => "Unsupported Scheme"@,
            ConnectErrorKindView::RequestConstruction => "Request Construction"@,
            ConnectErrorKindView::BadResponse => "Bad Response"@,
            ConnectErrorKindView::Connection => "Connection"@,
        }
    }

    /// The error of this kind as one line of text.
    pub open spec fn message(self) -> Seq<char> {
        "connect error: "@ + match self {
            ConnectErrorKindView::UnsupportedScheme(Some(scheme)) => "unsupported proxy scheme: "@
                + scheme,
            ConnectErrorKindView::UnsupportedScheme(None) => "no proxy scheme found in url"@,
            ConnectErrorKindView::BadUrl(url) => "bad url: "@ + url,
            _ => self.name() + " error while connecting to proxy or azure API"@,
        }
    }
}

impl ConnectErrorKind {
    /// The kind's name in words.
    pub fn as_str(&self) -> (name: &'static str)
        ensures
            name@ == self@.name(),
    {
        match self {
            ConnectErrorKind::BadUrl(_) => "Bad Url",
            ConnectErrorKind::UnsupportedScheme(_) => "Unsupported Scheme",
            ConnectErrorKind::RequestConstruction => "Request Construction",
            ConnectErrorKind::BadResponse => "Bad Response",
            ConnectErrorKind::Connection => "Connection",
        }
    }
}

impl ConnectError {
    /// An error of the given kind with no further cause.
    pub fn new(kind: ConnectErrorKind) -> (error: Self)
        ensures
            error@ == (ConnectErrorView { kind: kind@, source: None }),
    {
        ConnectError { kind, source: None }
    }

    /// A failure of the network, of TLS, of the SOCKS5 or of the websocket
    /// handshake, with the cause as text.
    pub fn connection(cause: String) -> (error: Self)
        ensures
            error@ == (ConnectErrorView {
                kind: ConnectErrorKindView::Connection,
                source: Some(cause@),
            }),
    {
        ConnectError { kind: ConnectErrorKind::Connection, source: Some(cause) }
    }

    /// A request that could not be built, with the cause as text.
    pub fn request_construction(cause: String) -> (error: Self)
        ensures
            error@ == (ConnectErrorView {
                kind: ConnectErrorKindView::RequestConstruction,
                source: Some(cause@),
            }),
    {
        ConnectError { kind: ConnectErrorKind::RequestConstruction, source: Some(cause) }
    }

    /// The error as one line of text.
    pub fn message(&self) -> (line: String)
        ensures
            line@ == self@.kind.message(),
    {
        let mut line = String::from_str("connect error: ");
        match &self.kind {
            ConnectErrorKind::UnsupportedScheme(Some(scheme)) => {
                line.append("unsupported proxy scheme: ");
                line.append(scheme.as_str());
                assert(line@ =~= self@.kind.message());
            },
            ConnectErrorKind::UnsupportedScheme(None) => {
                line.append("no proxy scheme found in url");
            },
            ConnectErrorKind::BadUrl(url) => {
                line.append("bad url: ");
                line.append(url.as_str());
                assert(line@ =~= self@.kind.message());
            },
            kind => {
                line.append(kind.as_str());
                line.append(" error while connecting to proxy or azure API");
                assert(line@ =~= self@.kind.message());
            },
        }
        line
    }
}

} // verus!
