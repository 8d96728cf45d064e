//! The configuration of a synthesizer, and what it makes of it: the upgrade
//! request, the route to the service and the message that opens a session.

use vstd::prelude::*;
use vstd::string::*;
use crate::audio::AudioFormat;
use crate::auth::{header_pairs, AuthOptions, AuthOptionsView};
use crate::errors::ConnectErrorView;
use crate::headers::{accepts_header_value, is_header_value};
use crate::net::{
    connect_plan, plan_connection, resolve_proxy, uri_location, url_location, ConnectPlan,
    ConnectPlanView, Location, MAX_URL_LEN,
};
use crate::ssml::{document, interpolate_ssml, markup, xml_error};
use crate::synthesizer::rest::{
    rest_synthesizer_of, RestSynthesizer, RestSynthesizerError, RestSynthesizerErrorKind,
};
use crate::synthesizer::websocket::{
    build_speech_config_message, is_unbroken, speech_config_message, ssml_message,
    synthesis_context_message, Action, ActionView, CallState, CallView, SynthesisCall,
    WebsocketErrorSource, WebsocketErrorSourceView, WebsocketSynthesizerError,
    WebsocketSynthesizerErrorKind, WebsocketSynthesizerErrorKindView,
    WebsocketSynthesizerErrorView,
};
use crate::text::str_eq;
use crate::types::TextOptions;
use crate::{DEFAULT_ENDPOINT, ORIGIN};
use tokio_tungstenite::tungstenite::client::IntoClientRequest;

pub mod rest;
pub mod unified;
pub mod websocket;

verus! {

/// Initialize a new synthesizer by creating a new [`SynthesizerConfig`] and
/// calling [`SynthesizerConfig::connect_websocket`].
#[derive(Debug, Clone)]
pub struct SynthesizerConfig {
    /// The authentication options.
    pub(crate) auth: AuthOptions,
    /// The audio format of the output audio.
    pub(crate) audio_format: AudioFormat,
}

/// The request that asks the service to upgrade a connection to a
/// websocket: its URI and its headers, each a name and a value.
#[derive(Debug, Clone)]
pub struct ClientRequest {
    pub uri: String,
    pub headers: Vec<(String, String)>,
}

/// The mathematical value of a [`ClientRequest`].
#[verifier::ext_equal]
pub ghost struct ClientRequestView {
    pub uri: Seq<char>,
    pub headers: Seq<(Seq<char>, Seq<char>)>,
}

impl View for ClientRequest {
    type V = ClientRequestView;

    open spec fn view(&self) -> ClientRequestView {
        ClientRequestView { uri: self.uri@, headers: header_pairs(self.headers@) }
    }
}

/// What the `url` crate makes of a URL after one more pair was added to its
/// query: nothing where the text is no absolute URL, else the serialization
/// of the URL with the pair appended.
pub uninterp spec fn url_with_query_pair(url: Seq<char>, name: Seq<char>, value: Seq<char>) -> Option<
    Seq<char>,
>;

/// A URL with one more pair in its query. Texts longer than
/// [`MAX_URL_LEN`] are not taken.
pub open spec fn query_appended(url: Seq<char>, name: Seq<char>, value: Seq<char>) -> Option<
    Seq<char>,
> {
    if url.len() <= MAX_URL_LEN && name.len() <= MAX_URL_LEN && value.len() <= MAX_URL_LEN {
        url_with_query_pair(url, name, value)
    } else {
        None
    }
}

/// The URI of the upgrade request: the endpoint with the connection id in
/// its query as `X-ConnectionId`, and after it the token as `Authorization`
/// where there is a token. The token travels in the query, not in a header.
pub open spec fn request_uri(auth: AuthOptionsView, connection_id: Seq<char>) -> Option<Seq<char>> {
    match query_appended(auth.endpoint, "X-ConnectionId"@, connection_id) {
        Some(uri) => match auth.token {
            Some(token) => query_appended(uri, "Authorization"@, token),
            None => Some(uri),
        },
        None => None,
    }
}

/// The headers that the options add to the upgrade request, if the
/// subscription key can stand as a header value. The key comes first, as
/// `Ocp-Apim-Subscription-Key`. Then come the extra headers, all of them;
/// where there are none and the endpoint is the trial endpoint, `Origin`
/// comes instead.
pub open spec fn auth_headers(auth: AuthOptionsView) -> Option<Seq<(Seq<char>, Seq<char>)>> {
    let key_part = match auth.key {
        Some(key) => seq![("Ocp-Apim-Subscription-Key"@, key)],
        None => Seq::empty(),
    };
    let rest = if auth.headers.len() > 0 {
        auth.headers
    } else if auth.endpoint == DEFAULT_ENDPOINT@ {
        seq![("Origin"@, ORIGIN@)]
    } else {
        Seq::empty()
    };
    if auth.key is Some && !is_header_value(auth.key.unwrap()) {
        None
    } else {
        Some(key_part + rest)
    }
}

/// A header of the websocket opening handshake.
pub open spec fn is_handshake_header(name: Seq<char>) -> bool {
    name == "host"@ || name == "connection"@ || name == "upgrade"@ || name
        == "sec-websocket-version"@ || name == "sec-websocket-key"@
}

/// A request correlation id: 32 hexadecimal digits in lower case.
pub open spec fn is_request_id(id: Seq<char>) -> bool {
    id.len() == 32 && forall|i: int|
        0 <= i < id.len() ==> ('0' <= #[trigger] id[i] <= '9' || 'a' <= id[i] <= 'f')
}

/// A character of a timestamp: a digit, a sign, a colon, a point, `T` or
/// `Z`.
pub open spec fn is_timestamp_char(c: char) -> bool {
    '0' <= c <= '9' || c == '-' || c == '+' || c == ':' || c == '.' || c == 'T' || c == 'Z'
}

/// A timestamp as the messages carry it: a date, `T`, a time of day and
/// `Z`, as far as its characters go.
pub open spec fn is_timestamp(text: Seq<char>) -> bool {
    forall|i: int| 0 <= i < text.len() ==> is_timestamp_char(#[trigger] text[i])
}

/// The text is a URI that names a host.
pub open spec fn names_host(uri: Seq<char>) -> bool {
    uri_location(uri) matches Some(at) && at.host is Some
}

/// The request URI for the id is a URI that names a host.
pub open spec fn reaches_host(auth: AuthOptionsView, id: Seq<char>) -> bool {
    request_uri(auth, id) matches Some(uri) && names_host(uri)
}

/// Why no upgrade request can be built for a request id, if none can: the
/// endpoint is no URL, or the request URI names no host, or the
/// subscription key cannot stand as a header value, in this order.
pub open spec fn request_refusal(auth: AuthOptionsView, id: Seq<char>) -> Option<
    WebsocketSynthesizerErrorView,
> {
    if request_uri(auth, id) is None {
        Some(invalid_request("the endpoint is not a URL"@))
    } else if !reaches_host(auth, id) {
        Some(invalid_request("the endpoint names no host"@))
    } else if auth_headers(auth) is None {
        Some(invalid_request("failed to parse header value"@))
    } else {
        None
    }
}

/// The request is an upgrade request of the options: its URI is the
/// request URI for some request id and names a host, and its headers are
/// headers of the opening handshake followed by the headers of the options.
pub open spec fn is_upgrade_request(auth: AuthOptionsView, request: ClientRequestView) -> bool {
    &&& names_host(request.uri)
    &&& auth_headers(auth) is Some
    &&& exists|id: Seq<char>, handshake: Seq<(Seq<char>, Seq<char>)>|
        #![trigger request_uri(auth, id), handshake.len()]
        {
            &&& is_request_id(id)
            &&& request_uri(auth, id) == Some(request.uri)
            &&& forall|i: int|
                0 <= i < handshake.len() ==> is_handshake_header((#[trigger] handshake[i]).0)
            &&& request.headers == handshake + auth_headers(auth).unwrap()
        }
}

/// The error for a request that could not be built.
pub open spec fn invalid_request(cause: Seq<char>) -> WebsocketSynthesizerErrorView {
    WebsocketSynthesizerErrorView {
        kind: WebsocketSynthesizerErrorKindView::InvalidRequest,
        source: Some(WebsocketErrorSourceView::Transport(cause)),
    }
}

/// The error for a connection that could not be planned.
pub open spec fn connect_failed(error: ConnectErrorView) -> WebsocketSynthesizerErrorView {
    WebsocketSynthesizerErrorView {
        kind: WebsocketSynthesizerErrorKindView::Connect,
        source: Some(WebsocketErrorSourceView::Connect(error)),
    }
}

/// The route of a configuration's connection: the proxy setting is read as
/// a URL, the request's URI as a URI, and the route is chosen for them.
pub open spec fn planned_route(uri: Seq<char>, proxy: Option<Seq<char>>) -> Result<
    ConnectPlanView,
    ConnectErrorView,
> {
    let proxy_location = match proxy {
        Some(text) => if text.len() <= MAX_URL_LEN {
            url_location(text)
        } else {
            None
        },
        None => None,
    };
    if proxy is Some && proxy_location is None {
        Err(crate::net::bare(crate::errors::ConnectErrorKindView::BadUrl(proxy.unwrap())))
    } else {
        match uri_location(uri) {
            None => Err(crate::net::bare(crate::errors::ConnectErrorKindView::BadUrl(uri))),
            Some(target) => connect_plan(target, proxy_location),
        }
    }
}

/// Parses `url` with `url::Url::parse`, adds the pair to its query with
/// `query_pairs_mut().append_pair`, and gives the URL's serialization. The
/// result is a function of the three texts alone.
#[verifier::external_body]
fn append_query_pair(url: &str, name: &str, value: &str) -> (appended: Option<String>)
    requires
        url@.len() <= MAX_URL_LEN,
        name@.len() <= MAX_URL_LEN,
        value@.len() <= MAX_URL_LEN,
    ensures
        match appended {
            Some(text) => url_with_query_pair(url@, name@, value@) == Some(text@),
            None => url_with_query_pair(url@, name@, value@) is None,
        },
{
    let mut parsed = url::Url::parse(url).ok()?;
    parsed.query_pairs_mut().append_pair(name, value);
    Some(String::from(parsed))
}

/// `uuid::Uuid::new_v4`, in its simple form: 32 hexadecimal digits in lower
/// case, without dashes. Each call gives another id.
#[verifier::external_body]
fn new_request_id() -> (id: String)
    ensures
        is_request_id(id@),
{
    uuid::Uuid::new_v4().as_simple().to_string()
}

/// `chrono::Utc::now`, in its debug form: the date as digits with `-`
/// between year, month and day (and a sign before a year beyond four
/// digits), `T`, the time as digits with `:` between them and a `.` before
/// the fraction, and `Z`. Each call gives another text.
#[verifier::external_body]
fn timestamp_now() -> (timestamp: String)
    ensures
        is_timestamp(timestamp@),
{
    format!("{:?}", chrono::Utc::now())
}

/// The headers of the opening handshake that `tungstenite` makes for a URI
/// with `IntoClientRequest`, among them a fresh random key. There are some
/// exactly where the text is a URI with an authority, which is where
/// `hyper::Uri` gives it a host; the key never decides that. Each header
/// is one of the five of the handshake, its name in lower case.
#[verifier::external_body]
fn handshake_headers(uri: &str) -> (headers: Option<Vec<(String, String)>>)
    ensures
        headers is Some <==> names_host(uri@),
        headers matches Some(list) ==> forall|i: int|
            0 <= i < list@.len() ==> is_handshake_header((#[trigger] list@[i]).0@),
{
    let request = uri.into_client_request().ok()?;
    let mut headers = Vec::new();
    for (name, value) in request.headers() {
        let value = String::from_utf8_lossy(value.as_bytes()).into_owned();
        headers.push((name.as_str().to_string(), value));
    }
    Some(headers)
}

/// A URL with one more pair in its query.
pub fn append_query(url: &str, name: &str, value: &str) -> (appended: Option<String>)
    ensures
        match appended {
            Some(text) => query_appended(url@, name@, value@) == Some(text@),
            None => query_appended(url@, name@, value@) is None,
        },
{
    if url.unicode_len() > MAX_URL_LEN || name.unicode_len() > MAX_URL_LEN || value.unicode_len()
        > MAX_URL_LEN {
        return None;
    }
    append_query_pair(url, name, value)
}

/// A copy of a list of headers.
pub fn clone_headers(headers: &[(String, String)]) -> (copy: Vec<(String, String)>)
    ensures
        header_pairs(copy@) == header_pairs(headers@),
{
    let mut copy: Vec<(String, String)> = Vec::new();
    let mut i: usize = 0;
    while i < headers.len()
        invariant
            i <= headers@.len(),
            copy@.len() == i,
            forall|k: int|
                0 <= k < i ==> (#[trigger] copy@[k]).0@ == headers@[k].0@ && copy@[k].1@
                    == headers@[k].1@,
        decreases headers@.len() - i,
    {
        let header = &headers[i];
        copy.push((header.0.clone(), header.1.clone()));
        i += 1;
    }
    assert(header_pairs(copy@) =~= header_pairs(headers@));
    copy
}

impl SynthesizerConfig {
    /// Create a new [`SynthesizerConfig`] with the given [`AuthOptions`] and [`AudioFormat`].
    pub fn new(auth: AuthOptions, audio_format: AudioFormat) -> (config: Self)
        ensures
            config.auth_view() == auth@,
            config.format() == audio_format,
    {
        SynthesizerConfig { auth, audio_format }
    }

    /// The authentication options.
    pub closed spec fn auth_view(&self) -> AuthOptionsView {
        self.auth@
    }

    /// The audio format of the output audio.
    pub closed spec fn format(&self) -> AudioFormat {
        self.audio_format
    }

    /// The authentication options.
    pub fn auth(&self) -> (auth: &AuthOptions)
        ensures
            auth@ == self.auth_view(),
    {
        &self.auth
    }

    /// The audio format of the output audio.
    pub fn audio_format(&self) -> (format: AudioFormat)
        ensures
            format == self.format(),
    {
        self.audio_format
    }

    /// The URI of the upgrade request for a connection id, if the endpoint
    /// is a URL.
    pub fn request_uri(&self, connection_id: &str) -> (uri: Result<
        String,
        WebsocketSynthesizerError,
    >)
        ensures
            match uri {
                Ok(text) => request_uri(self.auth_view(), connection_id@) == Some(text@),
                Err(error) => request_uri(self.auth_view(), connection_id@) is None && error@
                    == invalid_request("the endpoint is not a URL"@),
            },
    {
        let with_id = match append_query(self.auth.endpoint(), "X-ConnectionId", connection_id) {
            Some(uri) => uri,
            None => {
                return Err(
                    WebsocketSynthesizerError::invalid_request(
                        String::from_str("the endpoint is not a URL"),
                    ),
                );
            },
        };
        match self.auth.token() {
            Some(token) => match append_query(with_id.as_str(), "Authorization", token) {
                Some(uri) => Ok(uri),
                None => Err(
                    WebsocketSynthesizerError::invalid_request(
                        String::from_str("the endpoint is not a URL"),
                    ),
                ),
            },
            None => Ok(with_id),
        }
    }

    /// The headers that the options add to the upgrade request, if the
    /// subscription key can stand as a header value.
    pub fn auth_headers(&self) -> (headers: Result<Vec<(String, String)>, WebsocketSynthesizerError>)
        ensures
            match headers {
                Ok(list) => auth_headers(self.auth_view()) == Some(header_pairs(list@)),
                Err(error) => auth_headers(self.auth_view()) is None && error@
                    == invalid_request("failed to parse header value"@),
            },
    {
        let mut headers: Vec<(String, String)> = Vec::new();
        if let Some(key) = self.auth.key() {
            if !accepts_header_value(key) {
                return Err(
                    WebsocketSynthesizerError::invalid_request(
                        String::from_str("failed to parse header value"),
                    ),
                );
            }
            headers.push((String::from_str("Ocp-Apim-Subscription-Key"), key.to_owned()));
        }
        let ghost key_part = header_pairs(headers@);
        assert(key_part =~= match self.auth_view().key {
            Some(key) => seq![("Ocp-Apim-Subscription-Key"@, key)],
            None => Seq::empty(),
        });
        let extra = self.auth.headers();
        if extra.len() > 0 {
            let mut copy = clone_headers(extra);
            let ghost copied = header_pairs(copy@);
            headers.append(&mut copy);
            assert(header_pairs(headers@) =~= key_part + copied);
        } else if str_eq(self.auth.endpoint(), DEFAULT_ENDPOINT) {
            headers.push((String::from_str("Origin"), String::from_str(ORIGIN)));
            assert(header_pairs(headers@) =~= key_part + seq![("Origin"@, ORIGIN@)]);
        } else {
            assert(header_pairs(headers@) =~= key_part + Seq::empty());
        }
        Ok(headers)
    }

    /// Puts the upgrade request together from the headers of the opening
    /// handshake and the options: the handshake's headers come first, then
    /// those of the options.
    pub fn assemble_request(&self, uri: String, handshake: Vec<(String, String)>) -> (request: Result<
        ClientRequest,
        WebsocketSynthesizerError,
    >)
        ensures
            match request {
                Ok(built) => auth_headers(self.auth_view()) is Some && built@ == (ClientRequestView {
                    uri: uri@,
                    headers: header_pairs(handshake@) + auth_headers(self.auth_view()).unwrap(),
                }),
                Err(error) => auth_headers(self.auth_view()) is None && error@
                    == invalid_request("failed to parse header value"@),
            },
    {
        let mut own = match self.auth_headers() {
            Ok(own) => own,
            Err(error) => {
                return Err(error);
            },
        };
        let mut headers = handshake;
        let ghost first = header_pairs(headers@);
        let ghost second = header_pairs(own@);
        headers.append(&mut own);
        assert(header_pairs(headers@) =~= first + second);
        Ok(ClientRequest { uri, headers })
    }

    /// Builds the upgrade request, with a fresh connection id.
    ///
    /// The request is refused as invalid where the endpoint is no URL, where
    /// the request URI names no host, and where the subscription key cannot
    /// stand as a header value. It is built wherever none of these holds,
    /// whatever the fresh id is.
    pub fn generate_client_request(&self) -> (request: Result<
        ClientRequest,
        WebsocketSynthesizerError,
    >)
        ensures
            match request {
                Ok(built) => is_upgrade_request(self.auth_view(), built@),
                Err(error) => exists|id: Seq<char>|
                    is_request_id(id) && (auth_headers(self.auth_view()) is None || !(
                    #[trigger] reaches_host(self.auth_view(), id))) && request_refusal(
                        self.auth_view(),
                        id,
                    ) == Some(error@),
            },
            auth_headers(self.auth_view()) is None ==> request is Err,
            (auth_headers(self.auth_view()) is Some && forall|id: Seq<char>|
                is_request_id(id) ==> #[trigger] reaches_host(self.auth_view(), id)) ==> request is Ok,
    {
        let connection_id = new_request_id();
        let ghost id = connection_id@;
        let uri = match self.request_uri(connection_id.as_str()) {
            Ok(uri) => uri,
            Err(error) => {
                assert(!reaches_host(self.auth_view(), id));
                assert(request_refusal(self.auth_view(), id) == Some(error@));
                return Err(error);
            },
        };
        let handshake = match handshake_headers(uri.as_str()) {
            Some(handshake) => handshake,
            None => {
                let error = WebsocketSynthesizerError::invalid_request(
                    String::from_str("the endpoint names no host"),
                );
                assert(!reaches_host(self.auth_view(), id));
                assert(request_refusal(self.auth_view(), id) == Some(error@));
                return Err(error);
            },
        };
        let ghost shaken = header_pairs(handshake@);
        assert(reaches_host(self.auth_view(), id));
        match self.assemble_request(uri, handshake) {
            Ok(built) => {
                proof {
                    assert forall|i: int| 0 <= i < shaken.len() implies is_handshake_header(
                        (#[trigger] shaken[i]).0,
                    ) by {}
                    assert(request_uri(self.auth_view(), id) == Some(built@.uri) && shaken.len()
                        >= 0);
                }
                Ok(built)
            },
            Err(error) => {
                assert(request_refusal(self.auth_view(), id) == Some(error@));
                Err(error)
            },
        }
    }

    /// Chooses the route for a request: direct, or through the proxy of the
    /// options. A proxy setting that is no URL is a bad URL; a proxy of an
    /// unsupported scheme is refused here, before anything is opened.
    pub fn plan_connection(&self, request: &ClientRequest) -> (plan: Result<
        ConnectPlan,
        WebsocketSynthesizerError,
    >)
        ensures
            match plan {
                Ok(route) => planned_route(request@.uri, self.auth_view().proxy) == Ok::<
                    ConnectPlanView,
                    ConnectErrorView,
                >(route@),
                Err(error) => planned_route(request@.uri, self.auth_view().proxy) is Err
                    && error@ == connect_failed(
                    planned_route(request@.uri, self.auth_view().proxy)->Err_0,
                ),
            },
    {
        let proxy = match resolve_proxy(self.auth.proxy()) {
            Ok(proxy) => proxy,
            Err(error) => {
                return Err(
                    WebsocketSynthesizerError {
                        kind: WebsocketSynthesizerErrorKind::Connect,
                        source: Some(WebsocketErrorSource::Connect(error)),
                    },
                );
            },
        };
        let target = match Location::from_uri(request.uri.as_str()) {
            Ok(target) => target,
            Err(error) => {
                return Err(
                    WebsocketSynthesizerError {
                        kind: WebsocketSynthesizerErrorKind::Connect,
                        source: Some(WebsocketErrorSource::Connect(error)),
                    },
                );
            },
        };
        match plan_connection(&target, proxy.as_ref()) {
            Ok(route) => Ok(route),
            Err(error) => Err(
                WebsocketSynthesizerError {
                    kind: WebsocketSynthesizerErrorKind::Connect,
                    source: Some(WebsocketErrorSource::Connect(error)),
                },
            ),
        }
    }

    /// The REST synthesizer of the configuration.
    pub fn rest_synthesizer(&self) -> (synthesizer: Result<RestSynthesizer, RestSynthesizerError>)
        ensures
            match synthesizer {
                Ok(made) => rest_synthesizer_of(self.auth_view(), self.format()) == Some(made@),
                Err(error) => rest_synthesizer_of(self.auth_view(), self.format()) is None
                    && error.kind == RestSynthesizerErrorKind::InvalidRequest,
            },
    {
        RestSynthesizer::new(&self.auth, self.audio_format)
    }

    /// What it takes to open a session: the upgrade request, the route to
    /// the service, the message that opens the session once the websocket
    /// stands, and the synthesizer for the calls after it.
    ///
    /// The session opens wherever the request can be built and a route can
    /// be planned for it. Where the request cannot be built, its refusal is
    /// handed on; where no route can be planned, the connector's error is
    /// handed on behind an error of kind `Connect`. Nothing is opened or
    /// sent here.
    pub fn connect_websocket(self) -> (opening: Result<SessionOpening, WebsocketSynthesizerError>)
        ensures
            match opening {
                Ok(session) => {
                    &&& is_upgrade_request(self.auth_view(), session.request@)
                    &&& planned_route(session.request@.uri, self.auth_view().proxy) == Ok::<
                        ConnectPlanView,
                        ConnectErrorView,
                    >(session.plan@)
                    &&& exists|id: Seq<char>, timestamp: Seq<char>|
                        is_request_id(id) && is_timestamp(timestamp)
                            && #[trigger] speech_config_message(id, timestamp)
                            == session.bootstrap@
                    &&& session.synthesizer.format() == self.format()
                },
                Err(error) => {
                    ||| exists|id: Seq<char>|
                        is_request_id(id) && (auth_headers(self.auth_view()) is None || !(
                        #[trigger] reaches_host(self.auth_view(), id))) && request_refusal(
                            self.auth_view(),
                            id,
                        ) == Some(error@)
                    ||| exists|request: ClientRequestView| #[trigger]
                        is_upgrade_request(self.auth_view(), request) && planned_route(
                            request.uri,
                            self.auth_view().proxy,
                        ) is Err && error@ == connect_failed(
                            planned_route(request.uri, self.auth_view().proxy)->Err_0,
                        )
                },
            },
            auth_headers(self.auth_view()) is None ==> opening is Err,
            (auth_headers(self.auth_view()) is Some && (forall|id: Seq<char>|
                is_request_id(id) ==> #[trigger] reaches_host(self.auth_view(), id)) && (forall|
                request: ClientRequestView,
            | #[trigger]
                is_upgrade_request(self.auth_view(), request) ==> planned_route(
                    request.uri,
                    self.auth_view().proxy,
                ) is Ok)) ==> opening is Ok,
    {
        let request = match self.generate_client_request() {
            Ok(request) => request,
            Err(error) => {
                return Err(error);
            },
        };
        assert(is_upgrade_request(self.auth_view(), request@));
        let plan = match self.plan_connection(&request) {
            Ok(plan) => plan,
            Err(error) => {
                return Err(error);
            },
        };
        let request_id = new_request_id();
        let timestamp = timestamp_now();
        let bootstrap = build_speech_config_message(request_id.as_str(), timestamp.as_str());
        Ok(
            SessionOpening {
                request,
                plan,
                bootstrap,
                synthesizer: WebsocketSynthesizer { audio_format: self.audio_format },
            },
        )
    }
}

/// What it takes to open a session.
#[derive(Debug)]
pub struct SessionOpening {
    /// The upgrade request.
    pub request: ClientRequest,
    /// The route to the service.
    pub plan: ConnectPlan,
    /// The text frame to send as soon as the websocket stands. No answer to
    /// it is awaited.
    pub bootstrap: String,
    /// The synthesizer for the calls of the session.
    pub synthesizer: WebsocketSynthesizer,
}

/// The protocol side of an open session. Each synthesis is a call of its
/// own, with an id of its own; the calls of a session follow one another.
#[derive(Debug)]
pub struct WebsocketSynthesizer {
    pub(crate) audio_format: AudioFormat,
}

impl WebsocketSynthesizer {
    /// The audio format of the session.
    pub closed spec fn format(&self) -> AudioFormat {
        self.audio_format
    }

    /// Begins the synthesis of `ssml`, with a fresh request id and the
    /// current time. The call borrows the session until it is dropped.
    pub fn synthesize_ssml<'a>(&'a mut self, ssml: &str) -> (begun: (SynthesisCall<'a>, Action))
        ensures
            final(self).format() == old(self).format(),
            exists|id: Seq<char>, timestamp: Seq<char>|
                {
                    &&& is_request_id(id)
                    &&& is_timestamp(timestamp)
                    &&& begun.0@ == (CallView {
                        state: CallState::Idle,
                        pending: #[trigger] ssml_message(id, timestamp, ssml@),
                        buffer: Seq::empty(),
                    })
                    &&& begun.1@ == ActionView::Send(
                        synthesis_context_message(id, timestamp, old(self).format()),
                    )
                },
    {
        let request_id = new_request_id();
        let timestamp = timestamp_now();
        let begun = SynthesisCall::start(
            self.audio_format,
            request_id.as_str(),
            timestamp.as_str(),
            ssml,
        );
        assert(begun.0@.pending == ssml_message(request_id@, timestamp@, ssml@));
        begun
    }

    /// Begins the synthesis of a text with its options: the text is
    /// rendered as markup, and the synthesis of the markup begins. Where the
    /// rendering fails, no call begins and the failure is handed on.
    pub fn synthesize_text<'a>(&'a mut self, text: &str, options: &TextOptions) -> (begun: Result<
        (SynthesisCall<'a>, Action),
        WebsocketSynthesizerError,
    >)
        ensures
            final(self).format() == old(self).format(),
            match begun {
                Ok(call) => document(markup(text@, options@)) is Ok && exists|
                    id: Seq<char>,
                    timestamp: Seq<char>,
                |
                    {
                        &&& is_request_id(id)
                        &&& is_timestamp(timestamp)
                        &&& call.0@ == (CallView {
                            state: CallState::Idle,
                            pending: #[trigger] ssml_message(
                                id,
                                timestamp,
                                document(markup(text@, options@))->Ok_0,
                            ),
                            buffer: Seq::empty(),
                        })
                        &&& call.1@ == ActionView::Send(
                            synthesis_context_message(id, timestamp, old(self).format()),
                        )
                    },
                Err(error) => document(markup(text@, options@)) is Err && error@ == (
                WebsocketSynthesizerErrorView {
                    kind: WebsocketSynthesizerErrorKindView::Ssml,
                    source: Some(
                        WebsocketErrorSourceView::Ssml(
                            xml_error(document(markup(text@, options@))->Err_0),
                        ),
                    ),
                }),
            },
    {
        match interpolate_ssml(text, options) {
            Ok(ssml) => {
                let ghost format = self.format();
                let begun = self.synthesize_ssml(ssml.as_str());
                proof {
                    assert(format == old(self).format());
                    assert(document(markup(text@, options@)) == Ok::<Seq<char>, Seq<char>>(ssml@));
                    let (id, timestamp) = choose|id: Seq<char>, timestamp: Seq<char>|
                        {
                            &&& is_request_id(id)
                            &&& is_timestamp(timestamp)
                            &&& begun.0@ == (CallView {
                                state: CallState::Idle,
                                pending: #[trigger] ssml_message(id, timestamp, ssml@),
                                buffer: Seq::empty(),
                            })
                            &&& begun.1@ == ActionView::Send(
                                synthesis_context_message(id, timestamp, format),
                            )
                        };
                    assert(begun.0@.pending == ssml_message(
                        id,
                        timestamp,
                        document(markup(text@, options@))->Ok_0,
                    ));
                }
                Ok(begun)
            },
            Err(failure) => Err(
                WebsocketSynthesizerError {
                    kind: WebsocketSynthesizerErrorKind::Ssml,
                    source: Some(WebsocketErrorSource::Ssml(failure)),
                },
            ),
        }
    }
}

/// Request ids and timestamps hold no line break, so that the messages
/// that carry them are frames whose body begins after the first blank line.
pub proof fn lemma_fresh_values_are_unbroken(id: Seq<char>, timestamp: Seq<char>)
    requires
        is_request_id(id),
        is_timestamp(timestamp),
    ensures
        is_unbroken(id),
        is_unbroken(timestamp),
{
    assert forall|i: int| 0 <= i < id.len() implies id[i] != '\r' && id[i] != '\n' by {
        assert('0' <= id[i] <= '9' || 'a' <= id[i] <= 'f');
    }
    assert forall|i: int| 0 <= i < timestamp.len() implies timestamp[i] != '\r' && timestamp[i]
        != '\n' by {
        assert(is_timestamp_char(timestamp[i]));
    }
}

/// The token travels in the query. With a token the request's URI is the
/// endpoint with `X-ConnectionId` and then `Authorization` appended to its
/// query; without one only `X-ConnectionId` is appended. Either way the
/// options add no `Authorization` header: what they add is the subscription
/// key, the extra headers, and `Origin`.
pub proof fn lemma_token_travels_in_query(auth: AuthOptionsView, connection_id: Seq<char>)
    ensures
        auth.token is None ==> request_uri(auth, connection_id) == query_appended(
            auth.endpoint,
            "X-ConnectionId"@,
            connection_id,
        ),
        auth.token is Some && request_uri(auth, connection_id) is Some ==> {
            &&& query_appended(auth.endpoint, "X-ConnectionId"@, connection_id) is Some
            &&& request_uri(auth, connection_id) == query_appended(
                query_appended(auth.endpoint, "X-ConnectionId"@, connection_id).unwrap(),
                "Authorization"@,
                auth.token.unwrap(),
            )
        },
        auth.headers.len() == 0 && auth_headers(auth) is Some ==> forall|i: int|
            0 <= i < auth_headers(auth).unwrap().len() ==> (#[trigger] auth_headers(
                auth,
            ).unwrap()[i]).0 != "Authorization"@,
{
    reveal_strlit("Authorization");
    reveal_strlit("Ocp-Apim-Subscription-Key");
    reveal_strlit("Origin");
    assert("Authorization"@.len() == 13 && "Ocp-Apim-Subscription-Key"@.len() == 25 && "Origin"@.len()
        == 6);
}

} // verus!
