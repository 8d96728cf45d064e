//! The REST synthesizer: its headers and its errors. The HTTP client is the
//! caller's.

use vstd::prelude::*;
use vstd::string::*;
use crate::audio::AudioFormat;
use crate::auth::{header_pairs, AuthOptions, AuthOptionsView};
use crate::headers::{accepts_header_value, is_header_value};
use crate::ssml::{SsmlError, SsmlErrorView};
use crate::synthesizer::clone_headers;
use crate::text::opt_chars;
use crate::utils::transpose_tuple_option_result;

verus! {

/// The synthesizer that uses the RESTful API: where to post the markup,
/// and with which headers.
#[derive(Debug, Clone)]
pub struct RestSynthesizer {
    pub endpoint: String,
    /// The headers of every request, each a name and a value.
    pub headers: Vec<(String, String)>,
    /// The proxy for every request, if there is one.
    pub proxy: Option<String>,
}

/// What lies behind a [`RestSynthesizerError`].
#[derive(Debug)]
pub enum RestErrorSource {
    /// A failure of the HTTP client, as text.
    Http(String),
    Ssml(SsmlError),
}

/// Why a REST synthesis failed.
#[derive(Debug)]
#[non_exhaustive]
pub struct RestSynthesizerError {
    pub kind: RestSynthesizerErrorKind,
    pub source: Option<RestErrorSource>,
}

#[derive(Debug, PartialEq, Eq, Clone, Copy, Structural)]
#[non_exhaustive]
pub enum RestSynthesizerErrorKind {
    /// Failed to connect to the endpoint.
    Connect,
    /// The request was invalid, either caught early by us or indicated by a BadRequest response from the server.
    InvalidRequest,
    /// You are unauthorized. Did you set up the correct auth key/token?
    Unauthorized,
    /// The server returned a 415 Unsupported Media Type response.
    UnsupportedMediaType,
    /// The server returned a 429 Too Many Requests response.
    TooManyRequests,
    /// Other HTTP errors.
    OtherHttp,
    /// Connection errors.
    Connection,
    /// Errors when interpolating SSML.
    Ssml,
}

/// The mathematical value of a [`RestErrorSource`].
#[verifier::ext_equal]
pub ghost enum RestErrorSourceView {
    Http(Seq<char>),
    Ssml(SsmlErrorView),
}

/// The mathematical value of a [`RestSynthesizerError`].
#[verifier::ext_equal]
pub ghost struct RestSynthesizerErrorView {
    pub kind: RestSynthesizerErrorKind,
    pub source: Option<RestErrorSourceView>,
}

impl View for RestErrorSource {
    type V = RestErrorSourceView;

    open spec fn view(&self) -> RestErrorSourceView {
        match self {
            RestErrorSource::Http(cause) => RestErrorSourceView::Http(cause@),
            RestErrorSource::Ssml(error) => RestErrorSourceView::Ssml(error@),
        }
    }
}

impl View for RestSynthesizerError {
    type V = RestSynthesizerErrorView;

    open spec fn view(&self) -> RestSynthesizerErrorView {
        RestSynthesizerErrorView {
            kind: self.kind,
            source: match self.source {
                Some(source) => Some(source@),
                None => None,
            },
        }
    }
}

/// The kind of error that a response status stands for: 429, 401, 400 and
/// 415 have kinds of their own; any other status, and no status at all, is
/// another HTTP error.
pub open spec fn kind_of_status(status: Option<u16>) -> RestSynthesizerErrorKind {
    match status {
        Some(429u16) => RestSynthesizerErrorKind::TooManyRequests,
        Some(401u16) => RestSynthesizerErrorKind::Unauthorized,
        Some(400u16) => RestSynthesizerErrorKind::InvalidRequest,
        Some(415u16) => RestSynthesizerErrorKind::UnsupportedMediaType,
        _ => RestSynthesizerErrorKind::OtherHttp,
    }
}

impl RestSynthesizerErrorKind {
    /// The kind's name in words.
    pub open spec fn name(self) -> Seq<char> {
        match self {
            RestSynthesizerErrorKind::Connect => "Connect"@,
            RestSynthesizerErrorKind::InvalidRequest => "Invalid Request"@,
            RestSynthesizerErrorKind::Unauthorized => "Unauthorized"@,
            RestSynthesizerErrorKind::UnsupportedMediaType => "Unsupported Media Type"@,
            RestSynthesizerErrorKind::TooManyRequests => "Too Many Requests"@,
            RestSynthesizerErrorKind::OtherHttp => "Other Http"@,
            RestSynthesizerErrorKind::Connection => "Connection"@,
            RestSynthesizerErrorKind::Ssml => "Ssml"@,
        }
    }

    /// The error of this kind as one line of text.
    pub open spec fn message(self) -> Seq<char> {
        "rest synthesizer error: "@ + match self {
            RestSynthesizerErrorKind::Connect => "error while connecting to the server"@,
            RestSynthesizerErrorKind::InvalidRequest => {
                "an invalid request is constructed or 400 status reported by the server"@
            },
            RestSynthesizerErrorKind::Unauthorized => {
                "you are unauthorized. Did you set up the auth key/token?"@
            },
            _ => self.name() + " error"@,
        }
    }

    /// The kind's name in words.
    pub fn as_str(&self) -> (name: &'static str)
        ensures
            name@ == self.name(),
    {
        match self {
            RestSynthesizerErrorKind::Connect => "Connect",
            RestSynthesizerErrorKind::InvalidRequest => "Invalid Request",
            RestSynthesizerErrorKind::Unauthorized => "Unauthorized",
            RestSynthesizerErrorKind::UnsupportedMediaType => "Unsupported Media Type",
            RestSynthesizerErrorKind::TooManyRequests => "Too Many Requests",
            RestSynthesizerErrorKind::OtherHttp => "Other Http",
            RestSynthesizerErrorKind::Connection => "Connection",
            RestSynthesizerErrorKind::Ssml => "Ssml",
        }
    }

    /// The kind of error that a response status stands for.
    pub fn from_status(status: Option<u16>) -> (kind: RestSynthesizerErrorKind)
        ensures
            kind == kind_of_status(status),
    {
        match status {
            Some(429) => RestSynthesizerErrorKind::TooManyRequests,
            Some(401) => RestSynthesizerErrorKind::Unauthorized,
            Some(400) => RestSynthesizerErrorKind::InvalidRequest,
            Some(415) => RestSynthesizerErrorKind::UnsupportedMediaType,
            _ => RestSynthesizerErrorKind::OtherHttp,
        }
    }
}

impl RestSynthesizerError {
    /// An error of the given kind, with the failure of the HTTP client as
    /// text.
    pub fn new(kind: RestSynthesizerErrorKind, cause: String) -> (error: Self)
        ensures
            error@ == (RestSynthesizerErrorView {
                kind,
                source: Some(RestErrorSourceView::Http(cause@)),
            }),
    {
        RestSynthesizerError { kind, source: Some(RestErrorSource::Http(cause)) }
    }

    /// The error for a response that reports a failure, with the failure as
    /// text.
    pub fn from_status(status: Option<u16>, cause: String) -> (error: Self)
        ensures
            error@ == (RestSynthesizerErrorView {
                kind: kind_of_status(status),
                source: Some(RestErrorSourceView::Http(cause@)),
            }),
    {
        RestSynthesizerError {
            kind: RestSynthesizerErrorKind::from_status(status),
            source: Some(RestErrorSource::Http(cause)),
        }
    }

    /// The error as one line of text.
    pub fn message(&self) -> (line: String)
        ensures
            line@ == self.kind.message(),
    {
        let mut line = String::from_str("rest synthesizer error: ");
        match self.kind {
            RestSynthesizerErrorKind::Connect => {
                line.append("error while connecting to the server");
            },
            RestSynthesizerErrorKind::InvalidRequest => {
                line.append(
                    "an invalid request is constructed or 400 status reported by the server",
                );
            },
            RestSynthesizerErrorKind::Unauthorized => {
                line.append("you are unauthorized. Did you set up the auth key/token?");
            },
            kind => {
                line.append(kind.as_str());
                line.append(" error");
                assert(line@ =~= self.kind.message());
            },
        }
        line
    }
}

impl From<SsmlError> for RestSynthesizerError {
    fn from(error: SsmlError) -> (converted: Self) {
        RestSynthesizerError {
            kind: RestSynthesizerErrorKind::Ssml,
            source: Some(RestErrorSource::Ssml(error)),
        }
    }
}

impl vstd::std_specs::convert::FromSpecImpl<SsmlError> for RestSynthesizerError {
    open spec fn obeys_from_spec() -> bool {
        true
    }

    open spec fn from_spec(error: SsmlError) -> Self {
        RestSynthesizerError {
            kind: RestSynthesizerErrorKind::Ssml,
            source: Some(RestErrorSource::Ssml(error)),
        }
    }
}

/// The mathematical value of a [`RestSynthesizer`].
#[verifier::ext_equal]
pub ghost struct RestSynthesizerView {
    pub endpoint: Seq<char>,
    pub headers: Seq<(Seq<char>, Seq<char>)>,
    pub proxy: Option<Seq<char>>,
}

impl View for RestSynthesizer {
    type V = RestSynthesizerView;

    open spec fn view(&self) -> RestSynthesizerView {
        RestSynthesizerView {
            endpoint: self.endpoint@,
            headers: header_pairs(self.headers@),
            proxy: opt_chars(self.proxy),
        }
    }
}

/// The header of a secret, if there is one.
pub open spec fn secret_header(name: Seq<char>, secret: Option<Seq<char>>) -> Seq<
    (Seq<char>, Seq<char>),
> {
    match secret {
        Some(value) => seq![(name, value)],
        None => Seq::empty(),
    }
}

/// The headers of every request of a REST synthesizer: the content type
/// of the markup, the output format, the subscription key and the token
/// where they are given, and the extra headers.
pub open spec fn rest_headers(auth: AuthOptionsView, format: AudioFormat) -> Seq<
    (Seq<char>, Seq<char>),
> {
    seq![
        ("content-type"@, "application/ssml+xml"@),
        ("X-Microsoft-OutputFormat"@, format.token()),
    ] + secret_header("Ocp-Apim-Subscription-Key"@, auth.key) + secret_header(
        "Authorization"@,
        auth.token,
    ) + auth.headers
}

/// The REST synthesizer of the options, if key and token can stand as
/// header values.
pub open spec fn rest_synthesizer_of(auth: AuthOptionsView, format: AudioFormat) -> Option<
    RestSynthesizerView,
> {
    if (auth.key is Some && !is_header_value(auth.key.unwrap())) || (auth.token is Some
        && !is_header_value(auth.token.unwrap())) {
        None
    } else {
        Some(
            RestSynthesizerView {
                endpoint: auth.endpoint,
                headers: rest_headers(auth, format),
                proxy: auth.proxy,
            },
        )
    }
}

fn secret(name: &'static str, value: Option<&str>) -> (header: Option<
    (&'static str, Result<String, RestSynthesizerError>),
>)
    ensures
        match (value, header) {
            (None, None) => true,
            (Some(v), Some((n, Ok(text)))) => n@ == name@ && text@ == v@ && is_header_value(v@),
            (Some(v), Some((n, Err(error)))) => n@ == name@ && !is_header_value(v@) && error.kind
                == RestSynthesizerErrorKind::InvalidRequest,
            _ => false,
        },
{
    match value {
        None => None,
        Some(v) => if accepts_header_value(v) {
            Some((name, Ok(String::from_str(v))))
        } else {
            Some(
                (
                    name,
                    Err(
                        RestSynthesizerError::new(
                            RestSynthesizerErrorKind::InvalidRequest,
                            String::from_str("failed to parse header value"),
                        ),
                    ),
                ),
            )
        },
    }
}

impl RestSynthesizer {
    /// The REST synthesizer of the options.
    ///
    /// A key or a token that cannot stand as a header value is an invalid
    /// request.
    pub fn new(auth: &AuthOptions, format: AudioFormat) -> (synthesizer: Result<
        RestSynthesizer,
        RestSynthesizerError,
    >)
        ensures
            match synthesizer {
                Ok(made) => rest_synthesizer_of(auth@, format) == Some(made@),
                Err(error) => rest_synthesizer_of(auth@, format) is None && error.kind
                    == RestSynthesizerErrorKind::InvalidRequest,
            },
    {
        let mut headers: Vec<(String, String)> = Vec::new();
        headers.push((String::from_str("content-type"), String::from_str("application/ssml+xml")));
        headers.push((String::from_str("X-Microsoft-OutputFormat"), String::from_str(format.as_str())));
        let ghost fixed = header_pairs(headers@);
        assert(fixed =~= seq![
            ("content-type"@, "application/ssml+xml"@),
            ("X-Microsoft-OutputFormat"@, format.token()),
        ]);
        let key = match transpose_tuple_option_result(
            secret("Ocp-Apim-Subscription-Key", auth.key()),
        ) {
            Ok(key) => key,
            Err(error) => {
                return Err(error);
            },
        };
        let token = match transpose_tuple_option_result(secret("Authorization", auth.token())) {
            Ok(token) => token,
            Err(error) => {
                return Err(error);
            },
        };
        if let Some((name, value)) = key {
            headers.push((String::from_str(name), value));
        }
        let ghost with_key = header_pairs(headers@);
        assert(with_key =~= fixed + secret_header("Ocp-Apim-Subscription-Key"@, auth@.key));
        if let Some((name, value)) = token {
            headers.push((String::from_str(name), value));
        }
        let ghost with_token = header_pairs(headers@);
        assert(with_token =~= with_key + secret_header("Authorization"@, auth@.token));
        let mut extra = clone_headers(auth.headers());
        let ghost copied = header_pairs(extra@);
        headers.append(&mut extra);
        assert(header_pairs(headers@) =~= with_token + copied);
        Ok(
            RestSynthesizer {
                endpoint: String::from_str(auth.endpoint()),
                headers,
                proxy: crate::auth::to_owned_opt(auth.proxy()),
            },
        )
    }
}

} // verus!
