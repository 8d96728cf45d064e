use aspeak::audio::AudioFormat;
use aspeak::voice::{
    Voice, VoiceListAPIAuth, VoiceListAPIEndpoint, VoiceListAPIError, VoiceListAPIErrorKind,
    VoiceListAPIResponseStatusError, TRIAL_VOICE_LIST_URL,
};

fn jenny() -> Voice {
    Voice {
        display_name: Some("Jenny".to_string()),
        friendly_name: Some("Microsoft Jenny Online (Natural) - English (United States)".to_string()),
        gender: "Female".to_string(),
        local_name: Some("Jenny".to_string()),
        locale: "en-US".to_string(),
        locale_name: Some("English (United States)".to_string()),
        name: "Microsoft Server Speech Text to Speech Voice (en-US, JennyNeural)".to_string(),
        sample_rate_hertz: Some("24000".to_string()),
        suggested_codec: Some(AudioFormat::Audio24Khz48KBitRateMonoMp3),
        short_name: "en-US-JennyNeural".to_string(),
        status: "GA".to_string(),
        voice_type: Some("Neural".to_string()),
        words_per_minute: Some("152".to_string()),
        style_list: Some(vec!["chat".to_string(), "say \"hi\"".to_string()]),
        role_play_list: Some(vec![]),
    }
}

fn bare() -> Voice {
    Voice {
        display_name: None,
        friendly_name: None,
        gender: "Male".to_string(),
        local_name: None,
        locale: "de-DE".to_string(),
        locale_name: None,
        name: "Conrad".to_string(),
        sample_rate_hertz: None,
        suggested_codec: None,
        short_name: "de-DE-ConradNeural".to_string(),
        status: "Preview".to_string(),
        voice_type: None,
        words_per_minute: None,
        style_list: None,
        role_play_list: None,
    }
}

#[test]
fn voice_getters_give_the_fields() {
    let voice = jenny();
    assert_eq!(voice.display_name(), Some("Jenny"));
    assert_eq!(
        voice.friendly_name(),
        Some("Microsoft Jenny Online (Natural) - English (United States)")
    );
    assert_eq!(voice.gender(), "Female");
    assert_eq!(voice.local_name(), Some("Jenny"));
    assert_eq!(voice.locale(), "en-US");
    assert_eq!(voice.locale_name(), Some("English (United States)"));
    assert_eq!(voice.name(), "Microsoft Server Speech Text to Speech Voice (en-US, JennyNeural)");
    assert_eq!(voice.sample_rate_hertz(), Some("24000"));
    assert_eq!(voice.suggested_codec(), Some(AudioFormat::Audio24Khz48KBitRateMonoMp3));
    assert_eq!(voice.short_name(), "en-US-JennyNeural");
    assert_eq!(voice.status(), "GA");
    assert_eq!(voice.voice_type(), Some("Neural"));
    assert_eq!(voice.words_per_minute(), Some("152"));
    assert_eq!(voice.style_list().unwrap().len(), 2);
    assert_eq!(voice.style_list().unwrap()[0], "chat");
    assert!(voice.role_play_list().unwrap().is_empty());
}

#[test]
fn voice_getters_of_a_bare_voice() {
    let voice = bare();
    assert_eq!(voice.display_name(), None);
    assert_eq!(voice.friendly_name(), None);
    assert_eq!(voice.local_name(), None);
    assert_eq!(voice.locale_name(), None);
    assert_eq!(voice.sample_rate_hertz(), None);
    assert_eq!(voice.suggested_codec(), None);
    assert_eq!(voice.voice_type(), None);
    assert_eq!(voice.words_per_minute(), None);
    assert!(voice.style_list().is_none());
    assert!(voice.role_play_list().is_none());
    assert_eq!(voice.gender(), "Male");
    assert_eq!(voice.locale(), "de-DE");
    assert_eq!(voice.name(), "Conrad");
    assert_eq!(voice.short_name(), "de-DE-ConradNeural");
    assert_eq!(voice.status(), "Preview");
}

#[test]
fn voice_description_lists_what_is_known() {
    let expected = "JENNY\n\
Friendly name: Microsoft Jenny Online (Natural) - English (United States)\n\
Display name: Jenny\n\
Local name: Jenny\n\
Locale name: English (United States)\n\
Locale: en-US\n\
Gender: Female\n\
Short name: en-US-JennyNeural\n\
Voice type: Neural\n\
Status: GA\n\
Suggested codec: audio-24khz-48kbitrate-mono-mp3\n\
Sample rate: 24000Hz\n\
Words per minute: 152\n\
Styles: [\"chat\", \"say \\\"hi\\\"\"]\n\
Roles: []\n";
    assert_eq!(jenny().describe("JENNY"), expected);
}

#[test]
fn voice_description_of_a_bare_voice() {
    let expected = "Conrad\n\
Locale: de-DE\n\
Gender: Male\n\
Short name: de-DE-ConradNeural\n\
Status: Preview\n\
Words per minute: N/A\n";
    let voice = bare();
    assert_eq!(voice.describe(voice.name()), expected);
}

#[test]
fn voice_list_endpoint_url() {
    assert_eq!(
        VoiceListAPIEndpoint::Region("westus").get_endpoint_url(),
        "https://westus.tts.speech.microsoft.com/cognitiveservices/voices/list"
    );
    assert_eq!(VoiceListAPIEndpoint::Url("https://x/list").get_endpoint_url(), "https://x/list");
}

fn own(name: &str, value: &str) -> (String, String) {
    (name.to_string(), value.to_string())
}

#[test]
fn voice_list_request_authenticates_by_key_or_token() {
    let headers =
        Voice::request_headers("https://x", Some(VoiceListAPIAuth::SubscriptionKey("k")), None);
    assert_eq!(headers.unwrap(), vec![own("Ocp-Apim-Subscription-Key", "k")]);
    let headers = Voice::request_headers("https://x", Some(VoiceListAPIAuth::AuthToken("t")), None);
    assert_eq!(headers.unwrap(), vec![own("Authorization", "t")]);
    assert!(Voice::request_headers("https://x", None, None).unwrap().is_empty());
}

#[test]
fn voice_list_request_takes_additional_headers_or_origin() {
    let more = vec![own("X-A", "1")];
    let headers = Voice::request_headers(
        TRIAL_VOICE_LIST_URL,
        Some(VoiceListAPIAuth::AuthToken("t")),
        Some(&more),
    );
    assert_eq!(headers.unwrap(), vec![own("Authorization", "t"), own("X-A", "1")]);
    let headers = Voice::request_headers(TRIAL_VOICE_LIST_URL, None, None);
    assert_eq!(headers.unwrap(), vec![own("Origin", "https://azure.microsoft.com")]);
    let headers = Voice::request_headers(TRIAL_VOICE_LIST_URL, None, Some(&[]));
    assert!(headers.unwrap().is_empty());
}

#[test]
fn voice_list_request_refuses_secrets_that_are_no_header_values() {
    let error =
        Voice::request_headers("https://x", Some(VoiceListAPIAuth::SubscriptionKey("a\nb")), None)
            .unwrap_err();
    assert_eq!(error.kind, VoiceListAPIErrorKind::RequestError);
    let error = Voice::request_headers("https://x", Some(VoiceListAPIAuth::AuthToken("\u{0}")), None)
        .unwrap_err();
    assert_eq!(error.kind, VoiceListAPIErrorKind::RequestError);
}

#[test]
fn voice_list_error_messages() {
    let error = VoiceListAPIError::new(VoiceListAPIErrorKind::ProxyError, "bad".to_string());
    assert_eq!(error.message(), "error while retrieving voice list: ProxyError");
    assert_eq!(error.source.as_deref(), Some("bad"));
    for (kind, name) in [
        (VoiceListAPIErrorKind::RequestError, "RequestError"),
        (VoiceListAPIErrorKind::ParseError, "ParseError"),
        (VoiceListAPIErrorKind::ResponseError, "ResponseError"),
    ] {
        assert_eq!(kind.as_str(), name);
    }
    let status =
        |status: u16| VoiceListAPIResponseStatusError::new(status, "cause".to_string()).message();
    assert_eq!(
        status(401),
        "failed to retrieve voice list because of client side error: status 401"
    );
    assert_eq!(
        status(499),
        "failed to retrieve voice list because of client side error: status 499"
    );
    assert_eq!(
        status(500),
        "failed to retrieve voice list because of server side error: status 500"
    );
}
