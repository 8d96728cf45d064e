//! The transport connector's decisions: which host and port a URL stands
//! for, which route leads to the service, and whether a proxy agreed to
//! tunnel. The sockets themselves belong to the caller.

use vstd::prelude::*;
use vstd::string::*;
use crate::errors::{ConnectError, ConnectErrorKind, ConnectErrorKindView, ConnectErrorView};
use crate::text::{decimal, opt_chars, push_decimal, str_eq};

verus! {

/// What the connector reads of a URL or URI: its scheme, host and port as
/// far as the text names them, and the text itself.
#[derive(Debug, Clone)]
pub struct Location {
    pub scheme: Option<String>,
    pub host: Option<String>,
    pub port: Option<u16>,
    pub text: String,
}

/// The mathematical value of a [`Location`].
#[verifier::ext_equal]
pub ghost struct LocationView {
    pub scheme: Option<Seq<char>>,
    pub host: Option<Seq<char>>,
    pub port: Option<u16>,
    pub text: Seq<char>,
}

impl View for Location {
    type V = LocationView;

    open spec fn view(&self) -> LocationView {
        LocationView {
            scheme: opt_chars(self.scheme),
            host: opt_chars(self.host),
            port: self.port,
            text: self.text@,
        }
    }
}

/// How to reach the service.
#[derive(Debug, Clone, PartialEq)]
pub enum ConnectPlan {
    /// Connect a TCP socket to `addr`, a `host:port`.
    Direct { addr: String },
    /// Ask the SOCKS5 proxy for a stream to the target.
    Socks5 { proxy_host: String, proxy_port: u16, target_host: String, target_port: u16 },
    /// Connect to `proxy_addr` and send it an HTTP `CONNECT` for `authority`.
    HttpProxy { proxy_addr: String, authority: String },
}

/// The mathematical value of a [`ConnectPlan`].
#[verifier::ext_equal]
pub ghost enum ConnectPlanView {
    Direct { addr: Seq<char> },
    Socks5 {
        proxy_host: Seq<char>,
        proxy_port: u16,
        target_host: Seq<char>,
        target_port: u16,
    },
    HttpProxy { proxy_addr: Seq<char>, authority: Seq<char> },
}

impl View for ConnectPlan {
    type V = ConnectPlanView;

    open spec fn view(&self) -> ConnectPlanView {
        match self {
            ConnectPlan::Direct { addr } => ConnectPlanView::Direct { addr: addr@ },
            ConnectPlan::Socks5 {
                proxy_host,
                proxy_port,
                target_host,
                target_port,
            } => ConnectPlanView::Socks5 {
                proxy_host: proxy_host@,
                proxy_port: *proxy_port,
                target_host: target_host@,
                target_port: *target_port,
            },
            ConnectPlan::HttpProxy { proxy_addr, authority } => ConnectPlanView::HttpProxy {
                proxy_addr: proxy_addr@,
                authority: authority@,
            },
        }
    }
}

/// The port that a scheme stands for where the URL names none: 443 for `wss`
/// and `https`, 80 for `ws` and `http`.
pub open spec fn default_port(scheme: Option<Seq<char>>) -> Option<u16> {
    match scheme {
        Some(s) => if s == "wss"@ || s == "https"@ {
            Some(443u16)
        } else if s == "ws"@ || s == "http"@ {
            Some(80u16)
        } else {
            None
        },
        None => None,
    }
}

/// The error with this kind and no further cause.
pub open spec fn bare(kind: ConnectErrorKindView) -> ConnectErrorView {
    ConnectErrorView { kind, source: None }
}

/// The host and port of a location. The port is the one it names, else the
/// default of its scheme; without either the scheme is unsupported. A
/// location without a host is a bad URL.
pub open spec fn host_and_port(at: LocationView) -> Result<(Seq<char>, u16), ConnectErrorView> {
    let port = match at.port {
        Some(port) => Some(port),
        None => default_port(at.scheme),
    };
    match (port, at.host) {
        (None, _) => Err(bare(ConnectErrorKindView::UnsupportedScheme(at.scheme))),
        (Some(_), None) => Err(bare(ConnectErrorKindView::BadUrl(at.text))),
        (Some(port), Some(host)) => Ok((host, port)),
    }
}

/// `host:port`.
pub open spec fn colon_joined(host: Seq<char>, port: u16) -> Seq<char> {
    host + ":"@ + decimal(port as nat)
}

/// The `host:port` of a location.
pub open spec fn host_colon_port(at: LocationView) -> Result<Seq<char>, ConnectErrorView> {
    match host_and_port(at) {
        Ok((host, port)) => Ok(colon_joined(host, port)),
        Err(error) => Err(error),
    }
}

/// The route to `target`: direct where there is no proxy, else by the
/// proxy's scheme, `socks5`, `http` or `https`. A proxy of any other scheme
/// is refused.
pub open spec fn connect_plan(target: LocationView, proxy: Option<LocationView>) -> Result<
    ConnectPlanView,
    ConnectErrorView,
> {
    match proxy {
        None => match host_colon_port(target) {
            Ok(addr) => Ok(ConnectPlanView::Direct { addr }),
            Err(error) => Err(error),
        },
        Some(proxy) => if proxy.scheme == Some("socks5"@) {
            match (host_and_port(proxy), host_and_port(target)) {
                (Err(error), _) => Err(error),
                (Ok(_), Err(error)) => Err(error),
                (Ok((proxy_host, proxy_port)), Ok((target_host, target_port))) => Ok(
                    ConnectPlanView::Socks5 { proxy_host, proxy_port, target_host, target_port },
                ),
            }
        } else if proxy.scheme == Some("http"@) || proxy.scheme == Some("https"@) {
            match (host_colon_port(target), host_colon_port(proxy)) {
                (Err(error), _) => Err(error),
                (Ok(_), Err(error)) => Err(error),
                (Ok(authority), Ok(proxy_addr)) => Ok(
                    ConnectPlanView::HttpProxy { proxy_addr, authority },
                ),
            }
        } else {
            Err(bare(ConnectErrorKindView::UnsupportedScheme(proxy.scheme)))
        },
    }
}

/// A proxy answered `CONNECT` with a status from 200 to 299.
pub open spec fn is_success(status: u16) -> bool {
    200 <= status < 300
}

/// The cause that is kept of a proxy that refused to tunnel.
pub open spec fn refusal_text(status: u16, body: Seq<char>) -> Seq<char> {
    "The proxy server returned an error response: status code: "@ + decimal(status as nat)
        + ", body: "@ + body
}

/// What `url::Url::parse` makes of a text: nothing where it is no absolute
/// URL, else the scheme, host, port and serialization of the parsed URL.
pub uninterp spec fn url_location(text: Seq<char>) -> Option<LocationView>;

/// What parsing a text as a `hyper::Uri` gives: nothing where it is no URI,
/// else the scheme, host and port of the URI, and the text.
pub uninterp spec fn uri_location(text: Seq<char>) -> Option<LocationView>;

/// The longest text that is handed to a URL parser.
pub const MAX_URL_LEN: usize = 0x10_0000;

/// Parses `text` with `url::Url::parse` and reads the parsed URL's
/// `scheme()`, `host_str()`, `port()` and `as_str()`. The result is a
/// function of the text alone.
#[verifier::external_body]
fn parse_url(text: &str) -> (parsed: Option<Location>)
    requires
        text@.len() <= MAX_URL_LEN,
    ensures
        match parsed {
            Some(location) => url_location(text@) == Some(location@),
            None => url_location(text@) is None,
        },
{
    match url::Url::parse(text) {
        Ok(url) => Some(
            Location {
                scheme: Some(url.scheme().to_string()),
                host: url.host_str().map(String::from),
                port: url.port(),
                text: url.as_str().to_string(),
            },
        ),
        Err(_) => None,
    }
}

/// Parses `text` as a `hyper::Uri` and reads the URI's `scheme_str()`,
/// `host()` and `port_u16()`. The result is a function of the text alone.
#[verifier::external_body]
fn parse_uri(text: &str) -> (parsed: Option<Location>)
    ensures
        match parsed {
            Some(location) => uri_location(text@) == Some(location@),
            None => uri_location(text@) is None,
        },
{
    match text.parse::<hyper::Uri>() {
        Ok(uri) => Some(
            Location {
                scheme: uri.scheme_str().map(String::from),
                host: uri.host().map(String::from),
                port: uri.port_u16(),
                text: text.to_string(),
            },
        ),
        Err(_) => None,
    }
}

impl Location {
    /// Reads `text` as a URL. A text that is no absolute URL, or that is
    /// longer than [`MAX_URL_LEN`] characters, is a bad URL.
    pub fn from_url(text: &str) -> (parsed: Result<Location, ConnectError>)
        ensures
            match parsed {
                Ok(location) => text@.len() <= MAX_URL_LEN && url_location(text@) == Some(
                    location@,
                ),
                Err(error) => (text@.len() > MAX_URL_LEN || url_location(text@) is None)
                    && error@ == bare(ConnectErrorKindView::BadUrl(text@)),
            },
    {
        if text.unicode_len() > MAX_URL_LEN {
            return Err(ConnectError::new(ConnectErrorKind::BadUrl(text.to_owned())));
        }
        match parse_url(text) {
            Some(location) => Ok(location),
            None => Err(ConnectError::new(ConnectErrorKind::BadUrl(text.to_owned()))),
        }
    }

    /// Reads `text` as a URI. A text that is no URI is a bad URL.
    pub fn from_uri(text: &str) -> (parsed: Result<Location, ConnectError>)
        ensures
            match parsed {
                Ok(location) => uri_location(text@) == Some(location@),
                Err(error) => uri_location(text@) is None && error@ == bare(
                    ConnectErrorKindView::BadUrl(text@),
                ),
            },
    {
        match parse_uri(text) {
            Some(location) => Ok(location),
            None => Err(ConnectError::new(ConnectErrorKind::BadUrl(text.to_owned()))),
        }
    }

    /// The host and the port to connect to.
    pub fn host_and_port(&self) -> (resolved: Result<(&str, u16), ConnectError>)
        ensures
            match resolved {
                Ok((host, port)) => host_and_port(self@) == Ok::<
                    (Seq<char>, u16),
                    ConnectErrorView,
                >((host@, port)),
                Err(error) => host_and_port(self@) == Err::<(Seq<char>, u16), ConnectErrorView>(
                    error@,
                ),
            },
    {
        let port = match self.port {
            Some(port) => port,
            None => {
                let by_scheme = match &self.scheme {
                    Some(scheme) => {
                        let scheme = scheme.as_str();
                        if str_eq(scheme, "wss") || str_eq(scheme, "https") {
                            Some(443u16)
                        } else if str_eq(scheme, "ws") || str_eq(scheme, "http") {
                            Some(80u16)
                        } else {
                            None
                        }
                    },
                    None => None,
                };
                match by_scheme {
                    Some(port) => port,
                    None => {
                        return Err(
                            ConnectError::new(
                                ConnectErrorKind::UnsupportedScheme(self.scheme.clone()),
                            ),
                        );
                    },
                }
            },
        };
        match &self.host {
            Some(host) => Ok((host.as_str(), port)),
            None => Err(ConnectError::new(ConnectErrorKind::BadUrl(self.text.clone()))),
        }
    }

    /// The `host:port` to connect to.
    pub fn host_colon_port(&self) -> (resolved: Result<String, ConnectError>)
        ensures
            match resolved {
                Ok(addr) => host_colon_port(self@) == Ok::<Seq<char>, ConnectErrorView>(addr@),
                Err(error) => host_colon_port(self@) == Err::<Seq<char>, ConnectErrorView>(
                    error@,
                ),
            },
    {
        match self.host_and_port() {
            Ok((host, port)) => {
                let mut addr = String::from_str(host);
                addr.append(":");
                push_decimal(&mut addr, port as u64);
                Ok(addr)
            },
            Err(error) => Err(error),
        }
    }
}

/// Chooses the route to `target`, through `proxy` where there is one.
/// Nothing is sent or opened here: a proxy of an unsupported scheme is
/// refused before any socket exists.
pub fn plan_connection(target: &Location, proxy: Option<&Location>) -> (plan: Result<
    ConnectPlan,
    ConnectError,
>)
    ensures
        match plan {
            Ok(route) => connect_plan(
                target@,
                match proxy {
                    Some(p) => Some(p@),
                    None => None,
                },
            ) == Ok::<ConnectPlanView, ConnectErrorView>(route@),
            Err(error) => connect_plan(
                target@,
                match proxy {
                    Some(p) => Some(p@),
                    None => None,
                },
            ) == Err::<ConnectPlanView, ConnectErrorView>(error@),
        },
{
    let proxy = match proxy {
        Some(proxy) => proxy,
        None => {
            return match target.host_colon_port() {
                Ok(addr) => Ok(ConnectPlan::Direct { addr }),
                Err(error) => Err(error),
            };
        },
    };
    let scheme: &str = match &proxy.scheme {
        Some(scheme) => scheme.as_str(),
        None => {
            return Err(ConnectError::new(ConnectErrorKind::UnsupportedScheme(None)));
        },
    };
    if str_eq(scheme, "socks5") {
        let (proxy_host, proxy_port) = match proxy.host_and_port() {
            Ok(pair) => pair,
            Err(error) => {
                return Err(error);
            },
        };
        let (target_host, target_port) = match target.host_and_port() {
            Ok(pair) => pair,
            Err(error) => {
                return Err(error);
            },
        };
        Ok(
            ConnectPlan::Socks5 {
                proxy_host: proxy_host.to_owned(),
                proxy_port,
                target_host: target_host.to_owned(),
                target_port,
            },
        )
    } else if str_eq(scheme, "http") || str_eq(scheme, "https") {
        let authority = match target.host_colon_port() {
            Ok(authority) => authority,
            Err(error) => {
                return Err(error);
            },
        };
        let proxy_addr = match proxy.host_colon_port() {
            Ok(addr) => addr,
            Err(error) => {
                return Err(error);
            },
        };
        Ok(ConnectPlan::HttpProxy { proxy_addr, authority })
    } else {
        Err(ConnectError::new(ConnectErrorKind::UnsupportedScheme(proxy.scheme.clone())))
    }
}

/// Reads the proxy setting, if there is one, as a URL.
pub fn resolve_proxy(proxy: Option<&str>) -> (resolved: Result<Option<Location>, ConnectError>)
    ensures
        match (proxy, resolved) {
            (None, Ok(None)) => true,
            (Some(text), Ok(Some(location))) => text@.len() <= MAX_URL_LEN && url_location(text@)
                == Some(location@),
            (Some(text), Err(error)) => (text@.len() > MAX_URL_LEN || url_location(text@) is None)
                && error@ == bare(ConnectErrorKindView::BadUrl(text@)),
            _ => false,
        },
{
    match proxy {
        None => Ok(None),
        Some(text) => match Location::from_url(text) {
            Ok(location) => Ok(Some(location)),
            Err(error) => Err(error),
        },
    }
}

/// Judges the answer of an HTTP proxy to `CONNECT`: a status from 200 to 299
/// opens the tunnel, any other is a bad response, kept with the status and
/// the body.
pub fn check_proxy_response(status: u16, body: &str) -> (outcome: Result<(), ConnectError>)
    ensures
        is_success(status) ==> outcome is Ok,
        !is_success(status) ==> outcome is Err && outcome->Err_0@ == (ConnectErrorView {
            kind: ConnectErrorKindView::BadResponse,
            source: Some(refusal_text(status, body@)),
        }),
{
    if 200 <= status && status < 300 {
        Ok(())
    } else {
        let mut cause = String::from_str(
            "The proxy server returned an error response: status code: ",
        );
        push_decimal(&mut cause, status as u64);
        cause.append(", body: ");
        cause.append(body);
        Err(ConnectError { kind: ConnectErrorKind::BadResponse, source: Some(cause) })
    }
}

/// A location that names its port is reached at that port, whatever its
/// scheme. One that names none is reached at 443 where its scheme is `wss`
/// or `https` and at 80 where it is `ws` or `http`; with any other scheme, or
/// with none, the scheme is unsupported.
pub proof fn lemma_port_resolution(at: LocationView)
    ensures
        at.port is Some && at.host is Some ==> host_and_port(at) == Ok::<
            (Seq<char>, u16),
            ConnectErrorView,
        >((at.host.unwrap(), at.port.unwrap())),
        at.port is None && at.host is Some && (at.scheme == Some("wss"@) || at.scheme == Some(
            "https"@,
        )) ==> host_and_port(at) == Ok::<(Seq<char>, u16), ConnectErrorView>(
            (at.host.unwrap(), 443u16),
        ),
        at.port is None && at.host is Some && (at.scheme == Some("ws"@) || at.scheme == Some(
            "http"@,
        )) ==> host_and_port(at) == Ok::<(Seq<char>, u16), ConnectErrorView>(
            (at.host.unwrap(), 80u16),
        ),
        at.port is None && at.scheme != Some("wss"@) && at.scheme != Some("https"@) && at.scheme
            != Some("ws"@) && at.scheme != Some("http"@) ==> host_and_port(at) == Err::<
            (Seq<char>, u16),
            ConnectErrorView,
        >(bare(ConnectErrorKindView::UnsupportedScheme(at.scheme))),
{
    reveal_strlit("wss");
    reveal_strlit("https");
    reveal_strlit("ws");
    reveal_strlit("http");
    assert("ws"@.len() == 2 && "wss"@.len() == 3 && "http"@.len() == 4 && "https"@.len() == 5);
    assert("wss"@[0] != "https"@[0] && "ws"@[0] != "http"@[0]);
}

/// The route follows the proxy: none gives a direct connection, `socks5` a
/// SOCKS5 tunnel, `http` and `https` an HTTP `CONNECT` tunnel, and a proxy of
/// any other scheme is refused as unsupported, whatever the target is.
pub proof fn lemma_proxy_dispatch(target: LocationView, proxy: Option<LocationView>)
    ensures
        match connect_plan(target, proxy) {
            Ok(ConnectPlanView::Direct { .. }) => proxy is None,
            Ok(ConnectPlanView::Socks5 { .. }) => proxy is Some && proxy.unwrap().scheme == Some(
                "socks5"@,
            ),
            Ok(ConnectPlanView::HttpProxy { .. }) => proxy is Some && (proxy.unwrap().scheme
                == Some("http"@) || proxy.unwrap().scheme == Some("https"@)),
            Err(_) => true,
        },
        proxy is Some && proxy.unwrap().scheme != Some("socks5"@) && proxy.unwrap().scheme
            != Some("http"@) && proxy.unwrap().scheme != Some("https"@) ==> connect_plan(
            target,
            proxy,
        ) == Err::<ConnectPlanView, ConnectErrorView>(
            bare(ConnectErrorKindView::UnsupportedScheme(proxy.unwrap().scheme)),
        ),
{
}

} // verus!
