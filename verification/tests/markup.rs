use aspeak::audio::AudioFormat;
use aspeak::auth::AuthOptions;
use aspeak::ssml::{
    interpolate_ssml, markup_events, render, Element, MarkupEvent, SsmlError, SsmlErrorKind,
};
use aspeak::synthesizer::rest::{
    RestErrorSource, RestSynthesizer, RestSynthesizerError, RestSynthesizerErrorKind,
};
use aspeak::synthesizer::unified::{
    UnifiedErrorSource, UnifiedSynthesizerError, UnifiedSynthesizerErrorKind,
};
use aspeak::synthesizer::websocket::{
    WebsocketErrorSource, WebsocketSynthesizerError, WebsocketSynthesizerErrorKind,
};
use aspeak::synthesizer::SynthesizerConfig;
use aspeak::errors::{ConnectError, ConnectErrorKind};
use aspeak::msg::ParseError;
use aspeak::types::{RichSsmlOptions, Role, TextOptions};

fn own(name: &str, value: &str) -> (String, String) {
    (name.to_string(), value.to_string())
}

fn start(name: &str, namespaces: Vec<(String, String)>, attributes: Vec<(String, String)>) -> MarkupEvent {
    MarkupEvent::Start(Element { name: name.to_string(), namespaces, attributes })
}

#[test]
fn plain_markup() {
    let options = TextOptions::builder().voice("en-US-JennyNeural").build();
    let events = markup_events("Hello <world> & co", &options);
    let expected = vec![
        start(
            "speak",
            vec![
                own("", "http://www.w3.org/2001/10/synthesis"),
                own("emo", "http://www.w3.org/2009/10/emotionml"),
            ],
            vec![own("version", "1.0"), own("xml:lang", "en-US")],
        ),
        start("voice", vec![], vec![own("name", "en-US-JennyNeural")]),
        start("prosody", vec![], vec![own("pitch", "0%"), own("rate", "0%")]),
        MarkupEvent::Text("Hello <world> & co".to_string()),
        MarkupEvent::End,
        MarkupEvent::End,
        MarkupEvent::End,
    ];
    assert_eq!(events, expected);
}

#[test]
fn rich_markup() {
    let rich = RichSsmlOptions::builder().style("cheerful").role(Role::Girl).style_degree("1.5").build();
    let options = TextOptions::builder()
        .voice("zh-CN-XiaoxiaoNeural")
        .pitch("+2st")
        .rate("-10%")
        .rich_ssml_options(rich)
        .build();
    let events = markup_events("hi", &options);
    let expected = vec![
        start(
            "speak",
            vec![
                own("", "http://www.w3.org/2001/10/synthesis"),
                own("mstts", "http://www.w3.org/2001/mstts"),
                own("emo", "http://www.w3.org/2009/10/emotionml"),
            ],
            vec![own("version", "1.0"), own("xml:lang", "en-US")],
        ),
        start("voice", vec![], vec![own("name", "zh-CN-XiaoxiaoNeural")]),
        start(
            "mstts:express-as",
            vec![],
            vec![own("role", "Girl"), own("styledegree", "1.5"), own("style", "cheerful")],
        ),
        start("prosody", vec![], vec![own("pitch", "+2st"), own("rate", "-10%")]),
        MarkupEvent::Text("hi".to_string()),
        MarkupEvent::End,
        MarkupEvent::End,
        MarkupEvent::End,
        MarkupEvent::End,
    ];
    assert_eq!(events, expected);
}

#[test]
fn rich_markup_defaults_to_the_general_style() {
    let options =
        TextOptions::builder().rich_ssml_options(RichSsmlOptions::builder().build()).build();
    let events = markup_events("", &options);
    assert_eq!(events.len(), 9);
    assert_eq!(events[2], start("mstts:express-as", vec![], vec![own("style", "general")]));
    assert_eq!(events[4], MarkupEvent::Text(String::new()));
}

#[test]
fn markup_is_balanced() {
    for rich in [false, true] {
        let mut builder = TextOptions::builder();
        if rich {
            builder = builder.rich_ssml_options(RichSsmlOptions::builder().role(Role::Boy).build());
        }
        let events = markup_events("text", &builder.build());
        let opened = events.iter().filter(|e| matches!(e, MarkupEvent::Start(_))).count();
        let closed = events.iter().filter(|e| matches!(e, MarkupEvent::End)).count();
        assert_eq!(opened, closed);
        assert_eq!(opened, if rich { 4 } else { 3 });
    }
}

#[test]
fn ssml_error() {
    let error = SsmlError::xml("unexpected".to_string());
    assert_eq!(error.kind, SsmlErrorKind::Xml);
    assert_eq!(error.source.as_deref(), Some("unexpected"));
    assert_eq!(error.message(), "ssml Xml error");
}

#[test]
fn rest_synthesizer_headers() {
    let auth = AuthOptions::builder("https://westus.tts.speech.microsoft.com/cognitiveservices/v1")
        .key("k")
        .token("Bearer t")
        .headers(vec![own("X-A", "1")])
        .proxy("http://p:1")
        .build();
    let rest = SynthesizerConfig::new(auth, AudioFormat::Audio24Khz48KBitRateMonoMp3)
        .rest_synthesizer()
        .unwrap();
    assert_eq!(rest.endpoint, "https://westus.tts.speech.microsoft.com/cognitiveservices/v1");
    assert_eq!(
        rest.headers,
        vec![
            own("content-type", "application/ssml+xml"),
            own("X-Microsoft-OutputFormat", "audio-24khz-48kbitrate-mono-mp3"),
            own("Ocp-Apim-Subscription-Key", "k"),
            own("Authorization", "Bearer t"),
            own("X-A", "1"),
        ]
    );
    assert_eq!(rest.proxy.as_deref(), Some("http://p:1"));
}

#[test]
fn rest_synthesizer_without_secrets() {
    let auth = AuthOptions::builder("https://e").build();
    let rest = RestSynthesizer::new(&auth, AudioFormat::Riff24Khz16BitMonoPcm).unwrap();
    assert_eq!(
        rest.headers,
        vec![
            own("content-type", "application/ssml+xml"),
            own("X-Microsoft-OutputFormat", "riff-24khz-16bit-mono-pcm"),
        ]
    );
    assert_eq!(rest.proxy, None);
}

#[test]
fn rest_synthesizer_refuses_secrets_that_are_no_header_values() {
    let auth = AuthOptions::builder("https://e").key("a\nb").build();
    let error = RestSynthesizer::new(&auth, AudioFormat::Riff24Khz16BitMonoPcm).unwrap_err();
    assert_eq!(error.kind, RestSynthesizerErrorKind::InvalidRequest);
    let auth = AuthOptions::builder("https://e").key("fine").token("\u{7f}").build();
    let error = RestSynthesizer::new(&auth, AudioFormat::Riff24Khz16BitMonoPcm).unwrap_err();
    assert_eq!(error.kind, RestSynthesizerErrorKind::InvalidRequest);
}

#[test]
fn rest_error_kind_of_status() {
    let kind = RestSynthesizerErrorKind::from_status;
    assert_eq!(kind(Some(429)), RestSynthesizerErrorKind::TooManyRequests);
    assert_eq!(kind(Some(401)), RestSynthesizerErrorKind::Unauthorized);
    assert_eq!(kind(Some(400)), RestSynthesizerErrorKind::InvalidRequest);
    assert_eq!(kind(Some(415)), RestSynthesizerErrorKind::UnsupportedMediaType);
    assert_eq!(kind(Some(403)), RestSynthesizerErrorKind::OtherHttp);
    assert_eq!(kind(Some(500)), RestSynthesizerErrorKind::OtherHttp);
    assert_eq!(kind(Some(200)), RestSynthesizerErrorKind::OtherHttp);
    assert_eq!(kind(None), RestSynthesizerErrorKind::OtherHttp);
    let error = RestSynthesizerError::from_status(Some(401), "denied".to_string());
    assert_eq!(error.kind, RestSynthesizerErrorKind::Unauthorized);
    assert!(matches!(error.source, Some(RestErrorSource::Http(cause)) if cause == "denied"));
}

#[test]
fn rest_error_messages() {
    let message = |kind| RestSynthesizerError::new(kind, String::new()).message();
    assert_eq!(
        message(RestSynthesizerErrorKind::Connect),
        "rest synthesizer error: error while connecting to the server"
    );
    assert_eq!(
        message(RestSynthesizerErrorKind::InvalidRequest),
        "rest synthesizer error: an invalid request is constructed or 400 status reported by the server"
    );
    assert_eq!(
        message(RestSynthesizerErrorKind::Unauthorized),
        "rest synthesizer error: you are unauthorized. Did you set up the auth key/token?"
    );
    assert_eq!(
        message(RestSynthesizerErrorKind::UnsupportedMediaType),
        "rest synthesizer error: Unsupported Media Type error"
    );
    assert_eq!(
        message(RestSynthesizerErrorKind::TooManyRequests),
        "rest synthesizer error: Too Many Requests error"
    );
    assert_eq!(message(RestSynthesizerErrorKind::OtherHttp), "rest synthesizer error: Other Http error");
    assert_eq!(message(RestSynthesizerErrorKind::Connection), "rest synthesizer error: Connection error");
    assert_eq!(message(RestSynthesizerErrorKind::Ssml), "rest synthesizer error: Ssml error");
}

#[test]
fn websocket_error_messages() {
    let message = |kind| WebsocketSynthesizerError::new(kind).message();
    assert_eq!(message(WebsocketSynthesizerErrorKind::Connect), "ws synthesizer error: Connect error");
    assert_eq!(
        message(WebsocketSynthesizerErrorKind::Websocket),
        "ws synthesizer error: Websocket error"
    );
    assert_eq!(
        message(WebsocketSynthesizerErrorKind::InvalidRequest),
        "ws synthesizer error: Invalid Request error"
    );
    assert_eq!(message(WebsocketSynthesizerErrorKind::Ssml), "ws synthesizer error: Ssml error");
    assert_eq!(
        message(WebsocketSynthesizerErrorKind::InvalidMessage),
        "ws synthesizer error: aspeak cannot handle this message. Please report this bug to https://github.com/kxxt/aspeak/issues."
    );
    assert_eq!(
        WebsocketSynthesizerError::connection_closed("1000".to_string(), "bye".to_string()).message(),
        "ws synthesizer error: the websocket connection was closed with code 1000 and reason bye"
    );
}

#[test]
fn websocket_error_from_its_causes() {
    let error: WebsocketSynthesizerError =
        ConnectError::new(ConnectErrorKind::BadUrl("x".to_string())).into();
    assert_eq!(error.kind, WebsocketSynthesizerErrorKind::Connect);
    assert!(matches!(
        error.source,
        Some(WebsocketErrorSource::Connect(cause)) if cause.kind == ConnectErrorKind::BadUrl("x".to_string())
    ));
    let error = WebsocketSynthesizerError::from(ParseError::new_bare("frame".to_string()));
    assert_eq!(error.kind, WebsocketSynthesizerErrorKind::InvalidMessage);
    assert!(matches!(error.source, Some(WebsocketErrorSource::Message(cause)) if cause.msg == "frame"));
    let error = WebsocketSynthesizerError::from(SsmlError::xml("x".to_string()));
    assert_eq!(error.kind, WebsocketSynthesizerErrorKind::Ssml);
    let error = WebsocketSynthesizerError::websocket("reset".to_string());
    assert_eq!(error.kind, WebsocketSynthesizerErrorKind::Websocket);
    let error = WebsocketSynthesizerError::invalid_request("bad".to_string());
    assert_eq!(error.kind, WebsocketSynthesizerErrorKind::InvalidRequest);
    assert!(matches!(error.source, Some(WebsocketErrorSource::Transport(cause)) if cause == "bad"));
}

#[test]
fn unified_error_from_rest() {
    let cases = [
        (RestSynthesizerErrorKind::Connect, UnifiedSynthesizerErrorKind::Connect),
        (RestSynthesizerErrorKind::InvalidRequest, UnifiedSynthesizerErrorKind::InvalidRequest),
        (RestSynthesizerErrorKind::Unauthorized, UnifiedSynthesizerErrorKind::Http),
        (RestSynthesizerErrorKind::TooManyRequests, UnifiedSynthesizerErrorKind::Http),
        (RestSynthesizerErrorKind::UnsupportedMediaType, UnifiedSynthesizerErrorKind::Http),
        (RestSynthesizerErrorKind::OtherHttp, UnifiedSynthesizerErrorKind::Http),
        (RestSynthesizerErrorKind::Connection, UnifiedSynthesizerErrorKind::Connection),
        (RestSynthesizerErrorKind::Ssml, UnifiedSynthesizerErrorKind::Ssml),
    ];
    for (rest, unified) in cases {
        let error = UnifiedSynthesizerError::from(RestSynthesizerError::new(rest, "c".to_string()));
        assert_eq!(error.kind, unified);
        assert!(matches!(error.source, Some(UnifiedErrorSource::Rest(cause)) if cause.kind == rest));
    }
    let error: RestSynthesizerError = SsmlError::xml("x".to_string()).into();
    assert_eq!(error.kind, RestSynthesizerErrorKind::Ssml);
    assert!(matches!(error.source, Some(RestErrorSource::Ssml(_))));
}

#[test]
fn unified_error_from_websocket() {
    let cases = [
        (WebsocketSynthesizerErrorKind::Connect, UnifiedSynthesizerErrorKind::Connect),
        (
            WebsocketSynthesizerErrorKind::WebsocketConnectionClosed {
                code: "1006".to_string(),
                reason: "r".to_string(),
            },
            UnifiedSynthesizerErrorKind::Connection,
        ),
        (WebsocketSynthesizerErrorKind::Websocket, UnifiedSynthesizerErrorKind::Connection),
        (WebsocketSynthesizerErrorKind::InvalidRequest, UnifiedSynthesizerErrorKind::InvalidRequest),
        (WebsocketSynthesizerErrorKind::InvalidMessage, UnifiedSynthesizerErrorKind::InvalidMessage),
        (WebsocketSynthesizerErrorKind::Ssml, UnifiedSynthesizerErrorKind::Ssml),
    ];
    for (websocket, unified) in cases {
        let cause = WebsocketSynthesizerError::new(websocket.clone());
        let error = UnifiedSynthesizerError::from(cause);
        assert_eq!(error.kind, unified);
        assert!(matches!(
            error.source,
            Some(UnifiedErrorSource::Websocket(cause)) if cause.kind == websocket
        ));
    }
    let error = UnifiedSynthesizerError::from(SsmlError::xml("x".to_string()));
    assert_eq!(error.kind, UnifiedSynthesizerErrorKind::Ssml);
    assert!(matches!(error.source, Some(UnifiedErrorSource::Ssml(_))));
}

#[test]
fn unified_error_messages() {
    let message = |kind| UnifiedSynthesizerError::new(kind).message();
    assert_eq!(
        message(UnifiedSynthesizerErrorKind::Connect),
        "unified synthesizer error: error while connecting to the server"
    );
    assert_eq!(
        message(UnifiedSynthesizerErrorKind::InvalidRequest),
        "unified synthesizer error: an invalid request is constructed or 400 status reported by the server"
    );
    assert_eq!(message(UnifiedSynthesizerErrorKind::Http), "unified synthesizer error: Http error");
    assert_eq!(
        message(UnifiedSynthesizerErrorKind::Connection),
        "unified synthesizer error: Connection error"
    );
    assert_eq!(
        message(UnifiedSynthesizerErrorKind::InvalidMessage),
        "unified synthesizer error: Invalid Message error"
    );
    assert_eq!(message(UnifiedSynthesizerErrorKind::Ssml), "unified synthesizer error: Ssml error");
}

#[test]
fn plain_document() {
    let options = TextOptions::builder().voice("en-US-JennyNeural").build();
    assert_eq!(
        interpolate_ssml("Hello", &options).unwrap(),
        "<speak xmlns=\"http://www.w3.org/2001/10/synthesis\" xmlns:emo=\"http://www.w3.org/2009/10/emotionml\" version=\"1.0\" xml:lang=\"en-US\"><voice name=\"en-US-JennyNeural\"><prosody pitch=\"0%\" rate=\"0%\">Hello</prosody></voice></speak>"
    );
}

#[test]
fn rich_document() {
    let rich = RichSsmlOptions::builder().style("cheerful").role(Role::Girl).style_degree("1.5").build();
    let options = TextOptions::builder()
        .voice("zh-CN-XiaoxiaoNeural")
        .pitch("+2st")
        .rate("-10%")
        .rich_ssml_options(rich)
        .build();
    assert_eq!(
        interpolate_ssml("hi", &options).unwrap(),
        "<speak xmlns=\"http://www.w3.org/2001/10/synthesis\" xmlns:emo=\"http://www.w3.org/2009/10/emotionml\" xmlns:mstts=\"http://www.w3.org/2001/mstts\" version=\"1.0\" xml:lang=\"en-US\"><voice name=\"zh-CN-XiaoxiaoNeural\"><mstts:express-as role=\"Girl\" styledegree=\"1.5\" style=\"cheerful\"><prosody pitch=\"+2st\" rate=\"-10%\">hi</prosody></mstts:express-as></voice></speak>"
    );
}

#[test]
fn document_escapes_text_and_attributes() {
    let options = TextOptions::builder()
        .voice("a\"b<c")
        .rich_ssml_options(RichSsmlOptions::builder().style("x&y").build())
        .build();
    let document = interpolate_ssml("1 < 2 & \"3\" > 'é'", &options).unwrap();
    assert!(document.contains("<voice name=\"a&quot;b&lt;c\">"));
    assert!(document.contains("<mstts:express-as style=\"x&amp;y\">"));
    assert!(document.contains(">1 &lt; 2 &amp; \"3\" &gt; 'é'</prosody>"));
}

#[test]
fn document_of_an_empty_text() {
    let options = TextOptions::default();
    let document = interpolate_ssml("", &options).unwrap();
    assert!(document.ends_with("<prosody pitch=\"0%\" rate=\"0%\"></prosody></voice></speak>"));
}

#[test]
fn rendering_writes_the_events_in_their_order() {
    let events = vec![
        start("a", vec![], vec![own("k", "v")]),
        start("b", vec![], vec![]),
        MarkupEvent::End,
        MarkupEvent::Text("t".to_string()),
        MarkupEvent::End,
    ];
    assert_eq!(render(&events).unwrap(), "<a k=\"v\"><b />t</a>");
    assert_eq!(render(&[]).unwrap(), "");
}

#[test]
fn rendering_fails_where_the_writer_refuses_an_event() {
    let error = render(&[MarkupEvent::End]).unwrap_err();
    assert_eq!(error.kind, SsmlErrorKind::Xml);
    assert_eq!(error.source.as_deref(), Some("emitter error: last element name is not available"));
    let events = vec![start("a", vec![], vec![]), MarkupEvent::End, MarkupEvent::End];
    assert!(render(&events).is_err());
}
