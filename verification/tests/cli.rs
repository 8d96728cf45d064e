use aspeak::audio::{AudioFormat, AudioFormatParseErrorKind};
use aspeak::cli::args::{
    checked_headers, AuthArgs, ContainerFormat, InputArgs, OutputArgs, ProfileArgs, ProfileChoice,
    SynthesizerMode, TextArgs,
};
use aspeak::cli::config::{
    AuthConfig, Config, EndpointConfig, InitAction, OutputConfig, ProfileValue, TextConfig,
    VoiceConfig,
};
use aspeak::cli::{
    get_log_level, get_synthesizer_mode, log_level_by_verbosity, process_output,
    process_text_options, CliError, LogLevel, OutputAction,
};
use aspeak::types::Role;

fn no_args() -> AuthArgs {
    AuthArgs { endpoint: None, region: None, token: None, key: None, headers: vec![], proxy: None }
}

fn no_config() -> AuthConfig {
    AuthConfig {
        endpoint_config: None,
        key: None,
        token: None,
        headers: None,
        proxy: None,
        voice_list_api: None,
        mode: None,
    }
}

fn own(name: &str, value: &str) -> (String, String) {
    (name.to_string(), value.to_string())
}

fn some(text: &str) -> Option<String> {
    Some(text.to_string())
}

#[test]
fn endpoint_argument_wins() {
    let args = AuthArgs { endpoint: some("wss://arg"), region: some("westus"), ..no_args() };
    let config = AuthConfig {
        endpoint_config: Some(EndpointConfig::Endpoint { endpoint: "wss://profile".to_string() }),
        ..no_config()
    };
    let auth = args
        .to_auth_options(Some(&config), SynthesizerMode::Websocket, None, Some("wss://default"))
        .unwrap();
    assert_eq!(auth.endpoint(), "wss://arg");
}

#[test]
fn region_argument_gives_the_endpoint_of_the_mode() {
    let args = AuthArgs { region: some("westus"), ..no_args() };
    let auth = args.to_auth_options(None, SynthesizerMode::Websocket, None, None).unwrap();
    assert_eq!(
        auth.endpoint(),
        "wss://westus.tts.speech.microsoft.com/cognitiveservices/websocket/v1"
    );
    let auth = args.to_auth_options(None, SynthesizerMode::Rest, None, None).unwrap();
    assert_eq!(auth.endpoint(), "https://westus.tts.speech.microsoft.com/cognitiveservices/v1");
}

#[test]
fn profile_endpoint_comes_after_the_arguments() {
    let config = AuthConfig {
        endpoint_config: Some(EndpointConfig::Region { region: "eastasia".to_string() }),
        ..no_config()
    };
    let auth = no_args()
        .to_auth_options(Some(&config), SynthesizerMode::Rest, None, Some("wss://default"))
        .unwrap();
    assert_eq!(auth.endpoint(), "https://eastasia.tts.speech.microsoft.com/cognitiveservices/v1");
}

#[test]
fn default_endpoint_comes_last_and_none_is_an_error() {
    let auth = no_args()
        .to_auth_options(Some(&no_config()), SynthesizerMode::Rest, None, Some("wss://default"))
        .unwrap();
    assert_eq!(auth.endpoint(), "wss://default");
    let error =
        no_args().to_auth_options(Some(&no_config()), SynthesizerMode::Rest, None, None).unwrap_err();
    assert!(matches!(error, CliError::NoEndpoint));
    assert_eq!(error.message(), "No endpoint is specified!");
    assert!(matches!(
        no_args().to_auth_options(None, SynthesizerMode::Websocket, Some("http://p"), None),
        Err(CliError::NoEndpoint)
    ));
}

#[test]
fn proxy_argument_wins_over_environment_and_profile() {
    let config = AuthConfig { proxy: some("http://profile:1"), ..no_config() };
    let with = |arg: Option<&str>, env: Option<&str>, profile: bool| {
        let args = AuthArgs {
            endpoint: some("wss://e"),
            proxy: arg.map(String::from),
            ..no_args()
        };
        let config = if profile { Some(&config) } else { None };
        let auth = args.to_auth_options(config, SynthesizerMode::Websocket, env, None).unwrap();
        auth.proxy().map(String::from)
    };
    assert_eq!(with(Some("socks5://arg:1"), Some("http://env:1"), true), some("socks5://arg:1"));
    assert_eq!(with(Some("socks5://arg:1"), None, false), some("socks5://arg:1"));
    assert_eq!(with(None, Some("http://env:1"), true), some("http://env:1"));
    assert_eq!(with(None, Some("http://env:1"), false), some("http://env:1"));
    assert_eq!(with(None, None, true), some("http://profile:1"));
    assert_eq!(with(None, None, false), None);
}

#[test]
fn token_and_key_arguments_win_over_the_profile() {
    let config = AuthConfig { token: some("profile-t"), key: some("profile-k"), ..no_config() };
    let args = AuthArgs { endpoint: some("wss://e"), token: some("arg-t"), ..no_args() };
    let auth = args.to_auth_options(Some(&config), SynthesizerMode::Rest, None, None).unwrap();
    assert_eq!(auth.token(), Some("arg-t"));
    assert_eq!(auth.key(), Some("profile-k"));
    let auth = args.to_auth_options(None, SynthesizerMode::Rest, None, None).unwrap();
    assert_eq!(auth.token(), Some("arg-t"));
    assert_eq!(auth.key(), None);
}

#[test]
fn profile_headers_come_before_those_of_the_arguments() {
    let config = AuthConfig {
        headers: Some(vec![own("X-Profile", "1"), own("X-Both", "p")]),
        ..no_config()
    };
    let args = AuthArgs {
        endpoint: some("wss://e"),
        headers: vec![own("X-Both", "a"), own("X-Arg", "2")],
        ..no_args()
    };
    let auth = args.to_auth_options(Some(&config), SynthesizerMode::Rest, None, None).unwrap();
    assert_eq!(
        auth.headers(),
        &[own("X-Profile", "1"), own("X-Both", "p"), own("X-Both", "a"), own("X-Arg", "2")][..]
    );
    let auth = args.to_auth_options(Some(&no_config()), SynthesizerMode::Rest, None, None).unwrap();
    assert_eq!(auth.headers(), &[own("X-Both", "a"), own("X-Arg", "2")][..]);
}

#[test]
fn profile_headers_must_be_headers() {
    let args = AuthArgs { endpoint: some("wss://e"), ..no_args() };
    let config = AuthConfig {
        headers: Some(vec![own("X-Fine", "1"), own("bad name", "v\n"), own("X", "\n")]),
        ..no_config()
    };
    match args.to_auth_options(Some(&config), SynthesizerMode::Rest, None, None) {
        Err(CliError::InvalidHeaderName(name)) => assert_eq!(name, "bad name"),
        other => panic!("unexpected {:?}", other),
    }
    let config = AuthConfig { headers: Some(vec![own("X", "a\nb")]), ..no_config() };
    let error = args.to_auth_options(Some(&config), SynthesizerMode::Rest, None, None).unwrap_err();
    assert_eq!(error.message(), "failed to parse header value: a\nb");
    assert!(checked_headers(&[]).unwrap().is_empty());
    assert!(matches!(
        checked_headers(&[own("", "v")]),
        Err(CliError::InvalidHeaderName(name)) if name.is_empty()
    ));
}

fn output(
    format: Option<AudioFormat>,
    container: Option<ContainerFormat>,
    quality: Option<i32>,
) -> OutputArgs {
    OutputArgs { output: None, quality, container_format: container, format, overwrite: false }
}

fn profile(
    format: Option<AudioFormat>,
    container: Option<ContainerFormat>,
    quality: Option<i32>,
) -> OutputConfig {
    OutputConfig { format, container, quality }
}

#[test]
fn format_argument_wins() {
    let args = output(Some(AudioFormat::AmrWb16000Hz), Some(ContainerFormat::Mp3), Some(99));
    let config = profile(Some(AudioFormat::Raw8Khz8BitMonoALaw), None, None);
    assert_eq!(args.get_audio_format(Some(&config)).unwrap(), AudioFormat::AmrWb16000Hz);
}

#[test]
fn container_and_quality_arguments_choose_exactly() {
    let args = output(None, Some(ContainerFormat::Mp3), Some(3));
    assert_eq!(args.get_audio_format(None).unwrap(), AudioFormat::Audio48Khz192KBitRateMonoMp3);
    let args = output(None, Some(ContainerFormat::Mp3), Some(4));
    assert_eq!(
        args.get_audio_format(None).unwrap_err().kind,
        AudioFormatParseErrorKind::InvalidQuality { container: "mp3".to_string(), quality: 4 }
    );
}

#[test]
fn container_argument_takes_the_quality_of_the_profile_by_the_closest() {
    let args = output(None, Some(ContainerFormat::Ogg), None);
    assert_eq!(args.get_audio_format(None).unwrap(), AudioFormat::Ogg24Khz16BitMonoOpus);
    let config = profile(Some(AudioFormat::AmrWb16000Hz), Some(ContainerFormat::Mp3), Some(5));
    assert_eq!(args.get_audio_format(Some(&config)).unwrap(), AudioFormat::Ogg48Khz16BitMonoOpus);
}

#[test]
fn quality_argument_takes_the_container_of_the_profile() {
    let args = output(None, None, Some(-2));
    assert_eq!(args.get_audio_format(None).unwrap(), AudioFormat::Riff8Khz16BitMonoPcm);
    let config = profile(Some(AudioFormat::AmrWb16000Hz), Some(ContainerFormat::Mp3), Some(3));
    assert_eq!(
        args.get_audio_format(Some(&config)).unwrap(),
        AudioFormat::Audio16Khz128KBitRateMonoMp3
    );
    let config = profile(None, Some(ContainerFormat::Webm), None);
    assert_eq!(
        args.get_audio_format(Some(&config)).unwrap_err().kind,
        AudioFormatParseErrorKind::InvalidQuality { container: "webm".to_string(), quality: -2 }
    );
}

#[test]
fn without_arguments_the_profile_decides() {
    let args = output(None, None, None);
    assert_eq!(args.get_audio_format(None).unwrap(), AudioFormat::Riff24Khz16BitMonoPcm);
    let config = profile(Some(AudioFormat::AmrWb16000Hz), Some(ContainerFormat::Mp3), Some(3));
    assert_eq!(args.get_audio_format(Some(&config)).unwrap(), AudioFormat::AmrWb16000Hz);
    let config = profile(None, Some(ContainerFormat::Mp3), Some(100));
    assert_eq!(
        args.get_audio_format(Some(&config)).unwrap(),
        AudioFormat::Audio48Khz192KBitRateMonoMp3
    );
    let config = profile(None, None, Some(-100));
    assert_eq!(args.get_audio_format(Some(&config)).unwrap(), AudioFormat::Riff8Khz16BitMonoPcm);
}

#[test]
fn quality_keeps_its_low_eight_bits() {
    let args = output(None, Some(ContainerFormat::Wav), Some(256));
    assert_eq!(args.get_audio_format(None).unwrap(), AudioFormat::Riff24Khz16BitMonoPcm);
    let args = output(None, Some(ContainerFormat::Wav), Some(255));
    assert_eq!(args.get_audio_format(None).unwrap(), AudioFormat::Riff16Khz16BitMonoPcm);
    let args = output(None, Some(ContainerFormat::Wav), Some(128));
    assert_eq!(
        args.get_audio_format(None).unwrap_err().kind,
        AudioFormatParseErrorKind::InvalidQuality { container: "wav".to_string(), quality: -128 }
    );
}

#[test]
fn container_names_and_defaults() {
    assert_eq!(ContainerFormat::Mp3.as_str(), "mp3");
    assert_eq!(ContainerFormat::Ogg.as_str(), "ogg");
    assert_eq!(ContainerFormat::Webm.as_str(), "webm");
    assert_eq!(ContainerFormat::Wav.as_str(), "wav");
    assert_eq!(ContainerFormat::default(), ContainerFormat::Wav);
    assert_eq!(SynthesizerMode::default(), SynthesizerMode::Rest);
}

fn text_args() -> TextArgs {
    TextArgs {
        text: None,
        pitch: None,
        rate: None,
        style: None,
        role: None,
        style_degree: None,
        voice: None,
        locale: None,
        no_rich_ssml: false,
    }
}

fn text_config() -> TextConfig {
    TextConfig {
        voice: None,
        rate: ProfileValue::Missing,
        pitch: ProfileValue::Missing,
        style_degree: None,
        role: None,
        style: None,
    }
}

#[test]
fn voice_argument_wins_then_locale_then_profile_then_default() {
    let config = TextConfig {
        voice: Some(VoiceConfig::Voice { voice: "profile-voice".to_string() }),
        ..text_config()
    };
    let args = TextArgs { voice: some("arg-voice"), locale: some("xx-XX"), ..text_args() };
    assert_eq!(process_text_options(&args, Some(&config)).unwrap().voice(), "arg-voice");
    let args = TextArgs { locale: some("ja-JP"), ..text_args() };
    assert_eq!(process_text_options(&args, Some(&config)).unwrap().voice(), "ja-JP-NanamiNeural");
    assert_eq!(process_text_options(&text_args(), Some(&config)).unwrap().voice(), "profile-voice");
    let config = TextConfig {
        voice: Some(VoiceConfig::Locale { locale: "fr-FR".to_string() }),
        ..text_config()
    };
    assert_eq!(
        process_text_options(&text_args(), Some(&config)).unwrap().voice(),
        "fr-FR-DeniseNeural"
    );
    assert_eq!(
        process_text_options(&text_args(), Some(&text_config())).unwrap().voice(),
        "en-US-JennyNeural"
    );
    assert_eq!(process_text_options(&text_args(), None).unwrap().voice(), "en-US-JennyNeural");
}

#[test]
fn locale_without_default_voice_is_an_error() {
    let args = TextArgs { locale: some("xx-XX"), ..text_args() };
    let error = process_text_options(&args, None).unwrap_err();
    assert!(matches!(&error, CliError::NoDefaultVoice(locale) if locale == "xx-XX"));
    assert_eq!(error.message(), "No default voice found for locale xx-XX");
    let config = TextConfig {
        voice: Some(VoiceConfig::Locale { locale: "yy-YY".to_string() }),
        ..text_config()
    };
    assert!(matches!(
        process_text_options(&text_args(), Some(&config)),
        Err(CliError::NoDefaultVoice(locale)) if locale == "yy-YY"
    ));
}

#[test]
fn pitch_and_rate_arguments_win_over_the_profile() {
    let config = TextConfig {
        pitch: ProfileValue::Valid("10.00%".to_string()),
        rate: ProfileValue::Invalid("Got invalid rate from profile".to_string()),
        ..text_config()
    };
    let args = TextArgs { pitch: some("high"), rate: some("fast"), ..text_args() };
    let options = process_text_options(&args, Some(&config)).unwrap();
    assert_eq!(options.pitch(), Some("high"));
    assert_eq!(options.rate(), Some("fast"));
    let args = TextArgs { rate: some("fast"), ..text_args() };
    let options = process_text_options(&args, Some(&config)).unwrap();
    assert_eq!(options.pitch(), Some("10.00%"));
    assert_eq!(options.rate(), Some("fast"));
    let error = process_text_options(&text_args(), Some(&config)).unwrap_err();
    assert!(matches!(&error, CliError::InvalidProfile(_)));
    assert_eq!(error.message(), "Got invalid rate from profile");
    let options = process_text_options(&text_args(), None).unwrap();
    assert_eq!((options.pitch(), options.rate()), (None, None));
}

#[test]
fn rich_options_take_arguments_then_profile() {
    let config = TextConfig {
        style: some("sad"),
        role: Some(Role::Boy),
        style_degree: some("1.5"),
        ..text_config()
    };
    let args = TextArgs { style: some("cheerful"), ..text_args() };
    let options = process_text_options(&args, Some(&config)).unwrap();
    let rich = options.rich_ssml_options().as_ref().unwrap();
    assert_eq!(rich.style(), Some("cheerful"));
    assert_eq!(rich.role(), Some(Role::Boy));
    assert_eq!(rich.style_degree(), Some("1.5"));
    let options = process_text_options(&text_args(), Some(&text_config())).unwrap();
    assert!(options.rich_ssml_options().is_none());
    let args = TextArgs { role: Some(Role::Girl), ..text_args() };
    let options = process_text_options(&args, None).unwrap();
    let rich = options.rich_ssml_options().as_ref().unwrap();
    assert_eq!((rich.style(), rich.role(), rich.style_degree()), (None, Some(Role::Girl), None));
}

#[test]
fn switching_rich_markup_off_ignores_the_profile() {
    let config = TextConfig {
        style: some("sad"),
        role: Some(Role::Boy),
        style_degree: some("1.5"),
        pitch: ProfileValue::Valid("low".to_string()),
        ..text_config()
    };
    let args = TextArgs { no_rich_ssml: true, ..text_args() };
    let options = process_text_options(&args, Some(&config)).unwrap();
    assert!(options.rich_ssml_options().is_none());
    assert_eq!(options.pitch(), Some("low"));
}

#[test]
fn synthesizer_mode_takes_argument_then_profile_then_rest() {
    let input = |mode| InputArgs { file: None, encoding: None, mode };
    let config = |mode| {
        Some(Config {
            auth: Some(AuthConfig { mode, ..no_config() }),
            text: None,
            output: None,
            verbosity: None,
        })
    };
    let websocket = Some(SynthesizerMode::Websocket);
    let rest = Some(SynthesizerMode::Rest);
    assert_eq!(get_synthesizer_mode(&input(websocket), &config(rest)), SynthesizerMode::Websocket);
    assert_eq!(get_synthesizer_mode(&input(rest), &config(websocket)), SynthesizerMode::Rest);
    assert_eq!(get_synthesizer_mode(&input(None), &config(websocket)), SynthesizerMode::Websocket);
    assert_eq!(get_synthesizer_mode(&input(None), &config(None)), SynthesizerMode::Rest);
    assert_eq!(get_synthesizer_mode(&input(None), &None), SynthesizerMode::Rest);
    let no_auth = Some(Config { auth: None, text: None, output: None, verbosity: Some(3) });
    assert_eq!(get_synthesizer_mode(&input(None), &no_auth), SynthesizerMode::Rest);
}

#[test]
fn log_level_follows_the_verbosity() {
    assert_eq!(log_level_by_verbosity(0), LogLevel::Warn);
    assert_eq!(log_level_by_verbosity(1), LogLevel::Info);
    assert_eq!(log_level_by_verbosity(2), LogLevel::Debug);
    assert_eq!(log_level_by_verbosity(3), LogLevel::Trace);
    assert_eq!(log_level_by_verbosity(255), LogLevel::Trace);
    assert_eq!(get_log_level(0, None), LogLevel::Warn);
    assert_eq!(get_log_level(0, Some(2)), LogLevel::Debug);
    assert_eq!(get_log_level(0, Some(0)), LogLevel::Warn);
    assert_eq!(get_log_level(1, Some(3)), LogLevel::Info);
    assert_eq!(get_log_level(4, None), LogLevel::Trace);
}

#[test]
fn profile_choice() {
    let args = ProfileArgs { no_profile: true, profile: some("p.toml") };
    assert_eq!(args.load_profile(), ProfileChoice::NoProfile);
    let args = ProfileArgs { no_profile: false, profile: some("p.toml") };
    assert_eq!(args.load_profile(), ProfileChoice::Path("p.toml"));
    let args = ProfileArgs { no_profile: false, profile: None };
    assert_eq!(args.load_profile(), ProfileChoice::Default);
}

#[test]
fn endpoint_config_as_url() {
    let endpoint = EndpointConfig::Endpoint { endpoint: "wss://x".to_string() };
    assert_eq!(endpoint.to_cow_str(SynthesizerMode::Rest), "wss://x");
    assert_eq!(endpoint.region(), None);
    let region = EndpointConfig::Region { region: "westus".to_string() };
    assert_eq!(
        region.to_cow_str(SynthesizerMode::Rest),
        "https://westus.tts.speech.microsoft.com/cognitiveservices/v1"
    );
    assert_eq!(
        region.to_cow_str(SynthesizerMode::Websocket),
        "wss://westus.tts.speech.microsoft.com/cognitiveservices/websocket/v1"
    );
    assert_eq!(region.region(), Some("westus"));
}

#[test]
fn voice_config_as_voice() {
    let voice = VoiceConfig::Voice { voice: "v".to_string() };
    assert_eq!(voice.try_as_str().unwrap(), "v");
    let locale = VoiceConfig::Locale { locale: "ko-KR".to_string() };
    assert_eq!(locale.try_as_str().unwrap(), "ko-KR-SunHiNeural");
    let unknown = VoiceConfig::Locale { locale: "??".to_string() };
    assert!(matches!(unknown.try_as_str(), Err(CliError::NoDefaultVoice(locale)) if locale == "??"));
}

#[test]
fn profile_values() {
    assert_eq!(ProfileValue::Missing.get().unwrap(), None);
    assert_eq!(ProfileValue::Valid("1%".to_string()).get().unwrap(), Some("1%"));
    assert!(matches!(
        ProfileValue::Invalid("why".to_string()).get(),
        Err(CliError::InvalidProfile(reason)) if reason == "why"
    ));
    let config = TextConfig { rate: ProfileValue::Valid("fast".to_string()), ..text_config() };
    assert_eq!(config.rate().unwrap(), Some("fast"));
    assert_eq!(config.pitch().unwrap(), None);
}

#[test]
fn files_are_written_only_when_new_or_asked_for() {
    assert_eq!(Config::initialize(false, false), Some(InitAction::Create));
    assert_eq!(Config::initialize(false, true), Some(InitAction::Create));
    assert_eq!(Config::initialize(true, true), Some(InitAction::Overwrite));
    assert_eq!(Config::initialize(true, false), None);
    assert_eq!(process_output(false, false), Some(OutputAction::CreateNew));
    assert_eq!(process_output(false, true), Some(OutputAction::Create));
    assert_eq!(process_output(true, true), Some(OutputAction::Create));
    assert_eq!(process_output(true, false), None);
}
