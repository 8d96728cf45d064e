use aspeak::errors::{ConnectError, ConnectErrorKind};
use aspeak::net::{
    check_proxy_response, plan_connection, resolve_proxy, ConnectPlan, Location,
};

fn location(scheme: Option<&str>, host: Option<&str>, port: Option<u16>) -> Location {
    Location {
        scheme: scheme.map(String::from),
        host: host.map(String::from),
        port,
        text: "the-text".to_string(),
    }
}

fn kind_of<T: std::fmt::Debug>(result: Result<T, ConnectError>) -> ConnectErrorKind {
    result.unwrap_err().kind
}

#[test]
fn wss_and_https_default_to_443() {
    let wss = location(Some("wss"), Some("example.com"), None);
    assert_eq!(wss.host_and_port().unwrap(), ("example.com", 443));
    let https = location(Some("https"), Some("example.com"), None);
    assert_eq!(https.host_and_port().unwrap(), ("example.com", 443));
    assert_eq!(https.host_colon_port().unwrap(), "example.com:443");
}

#[test]
fn ws_and_http_default_to_80() {
    let ws = location(Some("ws"), Some("example.com"), None);
    assert_eq!(ws.host_and_port().unwrap(), ("example.com", 80));
    let http = location(Some("http"), Some("example.com"), None);
    assert_eq!(http.host_colon_port().unwrap(), "example.com:80");
}

#[test]
fn explicit_port_wins_over_the_scheme() {
    let at = location(Some("wss"), Some("example.com"), Some(8443));
    assert_eq!(at.host_and_port().unwrap(), ("example.com", 8443));
    let odd = location(Some("gopher"), Some("example.com"), Some(70));
    assert_eq!(odd.host_colon_port().unwrap(), "example.com:70");
    let none = location(None, Some("example.com"), Some(65535));
    assert_eq!(none.host_colon_port().unwrap(), "example.com:65535");
}

#[test]
fn unknown_scheme_without_port_is_unsupported() {
    let at = location(Some("ftp"), Some("example.com"), None);
    assert_eq!(
        kind_of(at.host_and_port()),
        ConnectErrorKind::UnsupportedScheme(Some("ftp".to_string()))
    );
    let at = location(None, Some("example.com"), None);
    assert_eq!(kind_of(at.host_colon_port()), ConnectErrorKind::UnsupportedScheme(None));
    let at = location(Some("WSS"), Some("example.com"), None);
    assert_eq!(
        kind_of(at.host_and_port()),
        ConnectErrorKind::UnsupportedScheme(Some("WSS".to_string()))
    );
}

#[test]
fn missing_host_is_a_bad_url() {
    let at = location(Some("wss"), None, None);
    assert_eq!(kind_of(at.host_and_port()), ConnectErrorKind::BadUrl("the-text".to_string()));
    let at = location(Some("ftp"), None, None);
    assert_eq!(
        kind_of(at.host_and_port()),
        ConnectErrorKind::UnsupportedScheme(Some("ftp".to_string()))
    );
}

#[test]
fn no_proxy_connects_directly() {
    let target = location(Some("wss"), Some("speech.example"), None);
    assert_eq!(
        plan_connection(&target, None).unwrap(),
        ConnectPlan::Direct { addr: "speech.example:443".to_string() }
    );
}

#[test]
fn socks5_proxy_tunnels_through_socks5() {
    let target = location(Some("wss"), Some("speech.example"), None);
    let proxy = location(Some("socks5"), Some("127.0.0.1"), Some(1080));
    assert_eq!(
        plan_connection(&target, Some(&proxy)).unwrap(),
        ConnectPlan::Socks5 {
            proxy_host: "127.0.0.1".to_string(),
            proxy_port: 1080,
            target_host: "speech.example".to_string(),
            target_port: 443,
        }
    );
}

#[test]
fn socks5_target_port_follows_the_target_scheme() {
    let target = location(Some("ws"), Some("speech.example"), None);
    let proxy = location(Some("socks5"), Some("127.0.0.1"), Some(1080));
    match plan_connection(&target, Some(&proxy)).unwrap() {
        ConnectPlan::Socks5 { target_port, .. } => assert_eq!(target_port, 80),
        other => panic!("unexpected plan {:?}", other),
    }
}

#[test]
fn socks5_proxy_needs_an_explicit_port() {
    let target = location(Some("wss"), Some("speech.example"), None);
    let proxy = location(Some("socks5"), Some("127.0.0.1"), None);
    assert_eq!(
        kind_of(plan_connection(&target, Some(&proxy))),
        ConnectErrorKind::UnsupportedScheme(Some("socks5".to_string()))
    );
}

#[test]
fn http_and_https_proxies_tunnel_through_connect() {
    let target = location(Some("wss"), Some("speech.example"), None);
    let proxy = location(Some("http"), Some("proxy.example"), Some(3128));
    assert_eq!(
        plan_connection(&target, Some(&proxy)).unwrap(),
        ConnectPlan::HttpProxy {
            proxy_addr: "proxy.example:3128".to_string(),
            authority: "speech.example:443".to_string(),
        }
    );
    let proxy = location(Some("https"), Some("proxy.example"), None);
    assert_eq!(
        plan_connection(&target, Some(&proxy)).unwrap(),
        ConnectPlan::HttpProxy {
            proxy_addr: "proxy.example:443".to_string(),
            authority: "speech.example:443".to_string(),
        }
    );
}

#[test]
fn other_proxy_schemes_are_refused() {
    let target = location(Some("wss"), Some("speech.example"), None);
    for scheme in ["socks4", "ftp", "SOCKS5", "socks5h", ""] {
        let proxy = location(Some(scheme), Some("proxy.example"), Some(1));
        assert_eq!(
            kind_of(plan_connection(&target, Some(&proxy))),
            ConnectErrorKind::UnsupportedScheme(Some(scheme.to_string()))
        );
    }
    let proxy = location(None, Some("proxy.example"), Some(1));
    assert_eq!(
        kind_of(plan_connection(&target, Some(&proxy))),
        ConnectErrorKind::UnsupportedScheme(None)
    );
}

#[test]
fn other_proxy_schemes_are_refused_whatever_the_target() {
    let target = location(None, None, None);
    let proxy = location(Some("ftp"), Some("proxy.example"), Some(21));
    assert_eq!(
        kind_of(plan_connection(&target, Some(&proxy))),
        ConnectErrorKind::UnsupportedScheme(Some("ftp".to_string()))
    );
}

#[test]
fn http_proxy_reports_the_target_error_first() {
    let target = location(Some("wss"), None, None);
    let proxy = location(Some("http"), None, None);
    assert_eq!(
        kind_of(plan_connection(&target, Some(&proxy))),
        ConnectErrorKind::BadUrl("the-text".to_string())
    );
    let target = location(Some("gopher"), Some("a"), None);
    assert_eq!(
        kind_of(plan_connection(&target, Some(&proxy))),
        ConnectErrorKind::UnsupportedScheme(Some("gopher".to_string()))
    );
}

#[test]
fn urls_are_read_by_the_url_parser() {
    let at = Location::from_url("HTTP://Proxy.Example:3128/x?y#z").unwrap();
    assert_eq!(at.scheme.as_deref(), Some("http"));
    assert_eq!(at.host.as_deref(), Some("proxy.example"));
    assert_eq!(at.port, Some(3128));
    assert_eq!(at.text, "http://proxy.example:3128/x?y#z");
    let at = Location::from_url("https://example.com:443/").unwrap();
    assert_eq!(at.port, None);
    assert_eq!(at.host_and_port().unwrap(), ("example.com", 443));
    let at = Location::from_url("socks5://127.0.0.1:1080").unwrap();
    assert_eq!(at.scheme.as_deref(), Some("socks5"));
    assert_eq!(at.host_and_port().unwrap(), ("127.0.0.1", 1080));
}

#[test]
fn texts_that_are_no_urls_are_bad_urls() {
    for text in ["", "not a url", "//example.com", "http://exa mple.com"] {
        assert_eq!(
            kind_of(Location::from_url(text)),
            ConnectErrorKind::BadUrl(text.to_string())
        );
    }
    let long = format!("http://example.com/{}", "a".repeat(0x10_0000));
    assert_eq!(kind_of(Location::from_url(&long)), ConnectErrorKind::BadUrl(long.clone()));
}

#[test]
fn uris_are_read_by_the_uri_parser() {
    let at = Location::from_uri("wss://speech.example/v1?X-ConnectionId=1").unwrap();
    assert_eq!(at.scheme.as_deref(), Some("wss"));
    assert_eq!(at.host.as_deref(), Some("speech.example"));
    assert_eq!(at.port, None);
    assert_eq!(at.host_colon_port().unwrap(), "speech.example:443");
    let at = Location::from_uri("ws://speech.example:8080/v1").unwrap();
    assert_eq!(at.host_and_port().unwrap(), ("speech.example", 8080));
    let at = Location::from_uri("/relative/path").unwrap();
    assert_eq!(at.scheme, None);
    assert_eq!(at.host, None);
    assert_eq!(kind_of(at.host_and_port()), ConnectErrorKind::UnsupportedScheme(None));
    assert_eq!(
        kind_of(Location::from_uri("not a uri")),
        ConnectErrorKind::BadUrl("not a uri".to_string())
    );
}

#[test]
fn proxy_setting_is_resolved_as_a_url() {
    assert!(resolve_proxy(None).unwrap().is_none());
    let proxy = resolve_proxy(Some("socks5://localhost:9050")).unwrap().unwrap();
    assert_eq!(proxy.scheme.as_deref(), Some("socks5"));
    assert_eq!(proxy.host.as_deref(), Some("localhost"));
    assert_eq!(proxy.port, Some(9050));
    assert_eq!(
        kind_of(resolve_proxy(Some("localhost"))),
        ConnectErrorKind::BadUrl("localhost".to_string())
    );
}

#[test]
fn proxy_answers_from_200_to_299_open_the_tunnel() {
    assert!(check_proxy_response(200, "").is_ok());
    assert!(check_proxy_response(204, "ignored").is_ok());
    assert!(check_proxy_response(299, "").is_ok());
}

#[test]
fn other_proxy_answers_are_bad_responses() {
    for status in [0u16, 100, 199, 300, 407, 502, 65535] {
        let error = check_proxy_response(status, "denied").unwrap_err();
        assert_eq!(error.kind, ConnectErrorKind::BadResponse);
        assert_eq!(
            error.source,
            Some(format!(
                "The proxy server returned an error response: status code: {}, body: denied",
                status
            ))
        );
    }
}

#[test]
fn connect_error_messages() {
    let message = |kind: ConnectErrorKind| ConnectError::new(kind).message();
    assert_eq!(
        message(ConnectErrorKind::UnsupportedScheme(Some("ftp".to_string()))),
        "connect error: unsupported proxy scheme: ftp"
    );
    assert_eq!(
        message(ConnectErrorKind::UnsupportedScheme(None)),
        "connect error: no proxy scheme found in url"
    );
    assert_eq!(message(ConnectErrorKind::BadUrl("x y".to_string())), "connect error: bad url: x y");
    assert_eq!(
        message(ConnectErrorKind::RequestConstruction),
        "connect error: Request Construction error while connecting to proxy or azure API"
    );
    assert_eq!(
        message(ConnectErrorKind::BadResponse),
        "connect error: Bad Response error while connecting to proxy or azure API"
    );
    assert_eq!(
        ConnectError::connection("refused".to_string()).message(),
        "connect error: Connection error while connecting to proxy or azure API"
    );
    let error = ConnectError::request_construction("bad".to_string());
    assert_eq!(error.kind, ConnectErrorKind::RequestConstruction);
    assert_eq!(error.source.as_deref(), Some("bad"));
}
