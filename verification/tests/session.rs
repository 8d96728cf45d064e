use aspeak::audio::AudioFormat;
use aspeak::msg::{CloseFrame, Frame};
use aspeak::ssml::interpolate_ssml;
use aspeak::types::TextOptions;
use aspeak::synthesizer::websocket::{
    build_speech_config_message, build_ssml_message, build_synthesis_context_message, Action,
    CallState, Event, SynthesisCall, WebsocketErrorSource, WebsocketSynthesizerError,
    WebsocketSynthesizerErrorKind, CLIENT_INFO_PAYLOAD,
};
use aspeak::synthesizer::WebsocketSynthesizer;
use aspeak::auth::AuthOptions;
use aspeak::synthesizer::SynthesizerConfig;

fn audio(payload: &[u8]) -> Frame {
    let header = "X-RequestId:1\r\nContent-Type:audio/x-wav\r\nPath:audio\r\n";
    let mut bytes = Vec::new();
    bytes.extend_from_slice(&(header.len() as u16).to_be_bytes());
    bytes.extend_from_slice(header.as_bytes());
    bytes.extend_from_slice(payload);
    Frame::Binary(bytes)
}

fn text(path: &str) -> Frame {
    Frame::Text(format!("X-RequestId:1\r\nPath:{}\r\n\r\n{{}}", path))
}

/// A call whose two messages have been sent, so that it waits for frames.
fn receiving() -> SynthesisCall<'static> {
    let (mut call, first) =
        SynthesisCall::start(AudioFormat::Riff24Khz16BitMonoPcm, "id", "now", "<speak/>");
    assert!(matches!(first, Action::Send(_)));
    assert!(matches!(call.step(Event::Sent), Action::Send(_)));
    assert!(matches!(call.step(Event::Sent), Action::Receive));
    call
}

fn finished(action: Action) -> Result<Vec<u8>, WebsocketSynthesizerError> {
    match action {
        Action::Finish(result) => result,
        other => panic!("the call should be over, not {:?}", other),
    }
}

/// Plays a session against frames that a service would send.
fn synthesize(ssml: &str, replies: &[Frame]) -> Result<Vec<u8>, WebsocketSynthesizerError> {
    let auth = AuthOptions::builder("wss://speech.example/v1").build();
    let config = SynthesizerConfig::new(auth, AudioFormat::Riff24Khz16BitMonoPcm);
    let opening = config.connect_websocket().unwrap();
    let mut synthesizer: WebsocketSynthesizer = opening.synthesizer;
    let mut sent = vec![opening.bootstrap];
    let (mut call, mut action) = synthesizer.synthesize_ssml(ssml);
    let mut replies = replies.iter();
    loop {
        action = match action {
            Action::Send(message) => {
                sent.push(message);
                call.step(Event::Sent)
            }
            Action::Receive => match replies.next() {
                Some(frame) => call.step(Event::Frame(frame)),
                None => call.step(Event::StreamEnded),
            },
            Action::Finish(result) => {
                assert_eq!(sent.len(), 3);
                assert!(sent[0].starts_with("Path: speech.config\r\n"));
                assert!(sent[1].starts_with("Path: synthesis.context\r\n"));
                assert!(sent[1].contains("\"outputFormat\":\"riff-24khz-16bit-mono-pcm\""));
                assert!(sent[2].starts_with("Path: ssml\r\n"));
                assert!(sent[2].ends_with(ssml));
                return result;
            }
        }
    }
}

#[test]
fn end_to_end_against_a_mock_session() {
    let replies = [
        text("turn.start"),
        audio(&[0x52, 0x49, 0x46, 0x46]),
        audio(&[0x00, 0x00]),
        text("turn.end"),
    ];
    let audio = synthesize("<speak version=\"1.0\">Hello</speak>", &replies).unwrap();
    assert_eq!(audio, vec![0x52, 0x49, 0x46, 0x46, 0x00, 0x00]);
}

#[test]
fn audio_accumulates_in_arrival_order() {
    let mut call = receiving();
    assert!(matches!(call.step(Event::Frame(&text("turn.start"))), Action::Receive));
    assert!(matches!(call.step(Event::Frame(&audio(b"a1a2"))), Action::Receive));
    assert!(matches!(call.step(Event::Frame(&audio(b"b"))), Action::Receive));
    let result = finished(call.step(Event::Frame(&text("turn.end"))));
    assert_eq!(result.unwrap(), b"a1a2b");
    assert_eq!(call.state(), CallState::Done);
}

#[test]
fn nothing_after_turn_end_is_included() {
    let frames = vec![
        text("turn.start"),
        audio(b"a"),
        audio(b"b"),
        text("turn.end"),
        audio(b"late"),
        text("turn.end"),
    ];
    let mut call = receiving();
    assert_eq!(call.feed(&frames).unwrap().unwrap(), b"ab");
    let late = finished(call.step(Event::Frame(&frames[4])));
    assert_eq!(late.unwrap_err().kind, WebsocketSynthesizerErrorKind::Websocket);
}

#[test]
fn feed_waits_when_the_turn_is_not_over() {
    let frames = vec![text("turn.start"), audio(b"a")];
    let mut call = receiving();
    assert!(call.feed(&frames).is_none());
    assert_eq!(call.state(), CallState::Receiving { turn_started: true });
    assert_eq!(call.feed(&[audio(b"b"), text("turn.end")]).unwrap().unwrap(), b"ab");
    let mut call = receiving();
    assert!(call.feed(&[]).is_none());
    assert_eq!(call.state(), CallState::SsmlSent);
}

#[test]
fn turn_end_without_audio_gives_an_empty_buffer() {
    let mut call = receiving();
    let result = finished(call.step(Event::Frame(&text("turn.end"))));
    assert!(result.unwrap().is_empty());
}

#[test]
fn response_ping_and_pong_pass_through() {
    let mut call = receiving();
    assert!(matches!(call.step(Event::Frame(&Frame::Ping(vec![1]))), Action::Receive));
    assert_eq!(call.state(), CallState::Receiving { turn_started: false });
    assert!(matches!(call.step(Event::Frame(&audio(b"x"))), Action::Receive));
    assert!(matches!(call.step(Event::Frame(&text("response"))), Action::Receive));
    assert!(matches!(call.step(Event::Frame(&Frame::Pong(vec![]))), Action::Receive));
    assert_eq!(call.state(), CallState::Receiving { turn_started: false });
    assert!(matches!(call.step(Event::Frame(&text("turn.start"))), Action::Receive));
    assert!(matches!(call.step(Event::Frame(&Frame::Ping(vec![]))), Action::Receive));
    assert_eq!(call.state(), CallState::Receiving { turn_started: true });
    let result = finished(call.step(Event::Frame(&text("turn.end"))));
    assert_eq!(result.unwrap(), b"x");
}

#[test]
fn close_before_turn_end_fails_with_code_and_reason() {
    let close = Frame::Close(Some(CloseFrame { code: 1006, reason: "abnormal".to_string() }));
    let mut call = receiving();
    assert!(matches!(call.step(Event::Frame(&text("turn.start"))), Action::Receive));
    assert!(matches!(call.step(Event::Frame(&audio(b"partial"))), Action::Receive));
    let error = finished(call.step(Event::Frame(&close))).unwrap_err();
    assert_eq!(
        error.kind,
        WebsocketSynthesizerErrorKind::WebsocketConnectionClosed {
            code: "1006".to_string(),
            reason: "abnormal".to_string(),
        }
    );
    assert!(error.source.is_none());
    assert_eq!(call.state(), CallState::Failed);
    assert_eq!(
        error.message(),
        "ws synthesizer error: the websocket connection was closed with code 1006 and reason abnormal"
    );
}

#[test]
fn close_fails_the_mock_session_and_drops_the_audio() {
    let replies = [
        text("turn.start"),
        audio(&[1, 2, 3]),
        Frame::Close(Some(CloseFrame { code: 1006, reason: "...".to_string() })),
        text("turn.end"),
    ];
    let error = synthesize("<speak/>", &replies).unwrap_err();
    assert_eq!(
        error.kind,
        WebsocketSynthesizerErrorKind::WebsocketConnectionClosed {
            code: "1006".to_string(),
            reason: "...".to_string(),
        }
    );
}

#[test]
fn close_without_payload_has_stock_code_and_reason() {
    let mut call = receiving();
    let error = finished(call.step(Event::Frame(&Frame::Close(None)))).unwrap_err();
    assert_eq!(
        error.kind,
        WebsocketSynthesizerErrorKind::WebsocketConnectionClosed {
            code: "Unknown".to_string(),
            reason: "The server closed the connection without a reason".to_string(),
        }
    );
}

#[test]
fn undecodable_frame_fails_as_invalid_message() {
    let mut call = receiving();
    assert!(matches!(call.step(Event::Frame(&audio(b"partial"))), Action::Receive));
    let error = finished(call.step(Event::Frame(&text("bogus")))).unwrap_err();
    assert_eq!(error.kind, WebsocketSynthesizerErrorKind::InvalidMessage);
    match error.source {
        Some(WebsocketErrorSource::Message(cause)) => {
            assert_eq!(cause.reason, "unknown");
            assert_eq!(cause.msg, "X-RequestId:1\r\nPath:bogus\r\n\r\n{}");
        }
        other => panic!("unexpected source {:?}", other),
    }
    assert_eq!(call.state(), CallState::Failed);
    let other = finished(receiving().step(Event::Frame(&Frame::Other("raw".to_string()))));
    assert_eq!(other.unwrap_err().kind, WebsocketSynthesizerErrorKind::InvalidMessage);
}

#[test]
fn stream_end_before_turn_end_is_an_unexpected_close() {
    let mut call = receiving();
    assert!(matches!(call.step(Event::Frame(&audio(b"partial"))), Action::Receive));
    let error = finished(call.step(Event::StreamEnded)).unwrap_err();
    assert_eq!(
        error.kind,
        WebsocketSynthesizerErrorKind::WebsocketConnectionClosed {
            code: "Unknown".to_string(),
            reason: "The connection ended before the turn was complete".to_string(),
        }
    );
    let error = synthesize("<speak/>", &[text("turn.start"), audio(&[1])]).unwrap_err();
    assert!(matches!(
        error.kind,
        WebsocketSynthesizerErrorKind::WebsocketConnectionClosed { .. }
    ));
}

#[test]
fn transport_failure_fails_the_call_in_every_live_state() {
    let start = || SynthesisCall::start(AudioFormat::Riff24Khz16BitMonoPcm, "id", "now", "x").0;
    let fail = |mut call: SynthesisCall<'static>| {
        let error = finished(call.step(Event::TransportFailed("reset".to_string()))).unwrap_err();
        assert_eq!(error.kind, WebsocketSynthesizerErrorKind::Websocket);
        match error.source {
            Some(WebsocketErrorSource::Transport(cause)) => assert_eq!(cause, "reset"),
            other => panic!("unexpected source {:?}", other),
        }
        assert_eq!(call.state(), CallState::Failed);
    };
    fail(start());
    let mut call = start();
    call.step(Event::Sent);
    fail(call);
    fail(receiving());
    let mut call = receiving();
    call.step(Event::Frame(&audio(b"a")));
    fail(call);
}

#[test]
fn messages_go_out_in_order_before_any_frame_is_awaited() {
    let (mut call, first) =
        SynthesisCall::start(AudioFormat::Audio24Khz48KBitRateMonoMp3, "abc", "T", "<speak/>");
    assert_eq!(call.state(), CallState::Idle);
    match first {
        Action::Send(message) => assert_eq!(
            message,
            build_synthesis_context_message("abc", "T", AudioFormat::Audio24Khz48KBitRateMonoMp3)
        ),
        other => panic!("unexpected action {:?}", other),
    }
    match call.step(Event::Sent) {
        Action::Send(message) => assert_eq!(message, build_ssml_message("abc", "T", "<speak/>")),
        other => panic!("unexpected action {:?}", other),
    }
    assert_eq!(call.state(), CallState::ContextSent);
    assert!(matches!(call.step(Event::Sent), Action::Receive));
    assert_eq!(call.state(), CallState::SsmlSent);
}

#[test]
fn events_out_of_order_fail_the_call() {
    let start = || SynthesisCall::start(AudioFormat::Riff24Khz16BitMonoPcm, "id", "now", "x").0;
    let out_of_order = |mut call: SynthesisCall<'static>, event: Event<'_>| {
        let error = finished(call.step(event)).unwrap_err();
        assert_eq!(error.kind, WebsocketSynthesizerErrorKind::Websocket);
        assert_eq!(call.state(), CallState::Failed);
    };
    let frame = audio(b"early");
    out_of_order(start(), Event::Frame(&frame));
    out_of_order(start(), Event::StreamEnded);
    let mut call = start();
    call.step(Event::Sent);
    out_of_order(call, Event::Frame(&frame));
    out_of_order(receiving(), Event::Sent);
    let mut done = receiving();
    done.step(Event::Frame(&text("turn.end")));
    out_of_order(done, Event::Sent);
    let mut failed = receiving();
    failed.step(Event::StreamEnded);
    out_of_order(failed, Event::TransportFailed("again".to_string()));
}

#[test]
fn speech_config_message_is_exact() {
    assert_eq!(
        build_speech_config_message("0123456789abcdef0123456789abcdef", "2023-01-01T00:00:00Z"),
        "Path: speech.config\r\nX-RequestId: 0123456789abcdef0123456789abcdef\r\nX-Timestamp: 2023-01-01T00:00:00ZContent-Type: application/json\r\n\r\n{\"context\":{\"system\":{\"version\":\"1.25.0\",\"name\":\"SpeechSDK\",\"build\":\"Windows-x64\"},\"os\":{\"platform\":\"Windows\",\"name\":\"Client\",\"version\":\"10\"}}}"
    );
    assert_eq!(
        CLIENT_INFO_PAYLOAD,
        r#"{"context":{"system":{"version":"1.25.0","name":"SpeechSDK","build":"Windows-x64"},"os":{"platform":"Windows","name":"Client","version":"10"}}}"#
    );
}

#[test]
fn synthesis_context_message_is_exact() {
    assert_eq!(
        build_synthesis_context_message("id1", "T1", AudioFormat::Riff24Khz16BitMonoPcm),
        "Path: synthesis.context\r\nX-RequestId: id1\r\nX-Timestamp: T1Content-Type: application/json\r\n\r\n{\"synthesis\":{\"audio\":{\"metadataOptions\":{\"sentenceBoundaryEnabled\":false,\"wordBoundaryEnabled\":false,\"sessionEndEnabled\":false},\"outputFormat\":\"riff-24khz-16bit-mono-pcm\"}}}"
    );
}

#[test]
fn ssml_message_is_exact() {
    assert_eq!(
        build_ssml_message("id1", "T1", "<speak>Hi</speak>"),
        "Path: ssml\r\nX-RequestId: id1\r\nX-Timestamp: T1\r\nContent-Type: application/ssml+xml\r\n\r\n<speak>Hi</speak>"
    );
}

fn header_value<'a>(message: &'a str, name: &str) -> &'a str {
    let start = message.find(name).unwrap() + name.len();
    let rest = &message[start..];
    let end = rest.find("\r\n").unwrap_or(rest.len());
    &rest[..end]
}

#[test]
fn each_call_has_a_fresh_request_id() {
    let mut synthesizer = SynthesizerConfig::new(
        AuthOptions::builder("wss://speech.example/v1").build(),
        AudioFormat::Riff24Khz16BitMonoPcm,
    )
    .connect_websocket()
    .unwrap()
    .synthesizer;
    let mut ids = Vec::new();
    for _ in 0..3 {
        let (mut call, first) = synthesizer.synthesize_ssml("<speak/>");
        let context = match first {
            Action::Send(message) => message,
            other => panic!("unexpected action {:?}", other),
        };
        let ssml = match call.step(Event::Sent) {
            Action::Send(message) => message,
            other => panic!("unexpected action {:?}", other),
        };
        let id = header_value(&context, "X-RequestId: ").to_string();
        assert_eq!(id.len(), 32);
        assert!(id.chars().all(|c| c.is_ascii_digit() || ('a'..='f').contains(&c)));
        assert_eq!(header_value(&ssml, "X-RequestId: "), id);
        let stamp = header_value(&ssml, "X-Timestamp: ");
        assert!(stamp.ends_with('Z') && stamp.contains('T'));
        assert!(stamp.chars().all(|c| c.is_ascii_digit() || "-+:.TZ".contains(c)));
        assert!(context.contains(&format!("X-Timestamp: {}Content-Type", stamp)));
        assert!(!ids.contains(&id));
        ids.push(id);
    }
}

#[test]
fn synthesis_of_text_sends_the_rendered_markup() {
    let mut synthesizer = SynthesizerConfig::new(
        AuthOptions::builder("wss://speech.example/v1").build(),
        AudioFormat::Riff24Khz16BitMonoPcm,
    )
    .connect_websocket()
    .unwrap()
    .synthesizer;
    let options = TextOptions::builder().voice("en-US-JennyNeural").build();
    let begun = synthesizer.synthesize_text("Hello & goodbye", &options);
    let (mut call, first) = match begun {
        Ok(begun) => begun,
        Err(_) => panic!("a call should begin"),
    };
    assert!(matches!(first, Action::Send(_)));
    match call.step(Event::Sent) {
        Action::Send(message) => {
            let body = &message[message.find("\r\n\r\n").unwrap() + 4..];
            assert_eq!(body, interpolate_ssml("Hello & goodbye", &options).unwrap());
            assert!(body.starts_with("<speak "));
            assert!(body.contains(">Hello &amp; goodbye</prosody>"));
        }
        other => panic!("unexpected action {:?}", other),
    }
}
