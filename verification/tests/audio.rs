use aspeak::audio::{
    is_empty_audio, AudioError, AudioErrorKind, AudioFormat, AudioFormatParseError,
    AudioFormatParseErrorKind,
};

fn kind(result: Result<AudioFormat, AudioFormatParseError>) -> AudioFormatParseErrorKind {
    result.unwrap_err().kind
}

#[test]
fn every_format_has_its_token() {
    let formats = AudioFormat::variants();
    assert_eq!(formats.len(), 36);
    assert_eq!(formats[0], AudioFormat::AmrWb16000Hz);
    assert_eq!(formats[0].as_str(), "amr-wb-16000hz");
    assert_eq!(formats[35].as_str(), "webm-24khz-16bit-mono-opus");
    assert_eq!(AudioFormat::Riff24Khz16BitMonoPcm.as_str(), "riff-24khz-16bit-mono-pcm");
    assert_eq!(AudioFormat::Audio24Khz48KBitRateMonoMp3.as_str(), "audio-24khz-48kbitrate-mono-mp3");
    assert_eq!(AudioFormat::Raw8Khz8BitMonoMULaw.as_str(), "raw-8khz-8bit-mono-mulaw");
    assert_eq!(AudioFormat::Ogg48Khz16BitMonoOpus.as_str(), "ogg-48khz-16bit-mono-opus");
    let mut tokens: Vec<&str> = formats.iter().map(|f| f.as_str()).collect();
    let sorted = {
        let mut sorted = tokens.clone();
        sorted.sort();
        sorted
    };
    assert_eq!(tokens, sorted);
    tokens.dedup();
    assert_eq!(tokens.len(), 36);
}

#[test]
fn tokens_name_their_formats() {
    for format in AudioFormat::variants() {
        assert_eq!(AudioFormat::from_token(format.as_str()), Some(format));
    }
    assert_eq!(AudioFormat::from_token("riff-24khz-16bit-mono-pcm "), None);
    assert_eq!(AudioFormat::from_token("Riff24Khz16BitMonoPcm"), None);
    assert_eq!(AudioFormat::from_token(""), None);
}

#[test]
fn default_format_is_riff_24khz() {
    assert_eq!(AudioFormat::default(), AudioFormat::Riff24Khz16BitMonoPcm);
}

#[test]
fn container_and_quality_choose_the_format() {
    let exact = |container: &str, quality: i8| {
        AudioFormat::from_container_and_quality(container, quality, false).unwrap()
    };
    assert_eq!(exact("wav", -2), AudioFormat::Riff8Khz16BitMonoPcm);
    assert_eq!(exact("wav", -1), AudioFormat::Riff16Khz16BitMonoPcm);
    assert_eq!(exact("wav", 0), AudioFormat::Riff24Khz16BitMonoPcm);
    assert_eq!(exact("wav", 1), AudioFormat::Riff24Khz16BitMonoPcm);
    assert_eq!(exact("mp3", -4), AudioFormat::Audio16Khz32KBitRateMonoMp3);
    assert_eq!(exact("mp3", -3), AudioFormat::Audio16Khz64KBitRateMonoMp3);
    assert_eq!(exact("mp3", -2), AudioFormat::Audio16Khz128KBitRateMonoMp3);
    assert_eq!(exact("mp3", -1), AudioFormat::Audio24Khz48KBitRateMonoMp3);
    assert_eq!(exact("mp3", 0), AudioFormat::Audio24Khz96KBitRateMonoMp3);
    assert_eq!(exact("mp3", 1), AudioFormat::Audio24Khz160KBitRateMonoMp3);
    assert_eq!(exact("mp3", 2), AudioFormat::Audio48Khz96KBitRateMonoMp3);
    assert_eq!(exact("mp3", 3), AudioFormat::Audio48Khz192KBitRateMonoMp3);
    assert_eq!(exact("ogg", -1), AudioFormat::Ogg16Khz16BitMonoOpus);
    assert_eq!(exact("ogg", 0), AudioFormat::Ogg24Khz16BitMonoOpus);
    assert_eq!(exact("ogg", 1), AudioFormat::Ogg48Khz16BitMonoOpus);
    assert_eq!(exact("webm", -1), AudioFormat::Webm16Khz16BitMonoOpus);
    assert_eq!(exact("webm", 0), AudioFormat::Webm24Khz16BitMonoOpus);
    assert_eq!(exact("webm", 1), AudioFormat::Webm24Khz16Bit24KbpsMonoOpus);
}

#[test]
fn quality_outside_the_range_is_refused_or_clamped() {
    assert_eq!(
        kind(AudioFormat::from_container_and_quality("wav", 2, false)),
        AudioFormatParseErrorKind::InvalidQuality { container: "wav".to_string(), quality: 2 }
    );
    assert_eq!(
        kind(AudioFormat::from_container_and_quality("mp3", -5, false)),
        AudioFormatParseErrorKind::InvalidQuality { container: "mp3".to_string(), quality: -5 }
    );
    let closest = |container: &str, quality: i8| {
        AudioFormat::from_container_and_quality(container, quality, true).unwrap()
    };
    assert_eq!(closest("wav", 2), AudioFormat::Riff24Khz16BitMonoPcm);
    assert_eq!(closest("wav", 127), AudioFormat::Riff24Khz16BitMonoPcm);
    assert_eq!(closest("wav", -3), AudioFormat::Riff8Khz16BitMonoPcm);
    assert_eq!(closest("wav", -128), AudioFormat::Riff8Khz16BitMonoPcm);
    assert_eq!(closest("mp3", 4), AudioFormat::Audio48Khz192KBitRateMonoMp3);
    assert_eq!(closest("mp3", -5), AudioFormat::Audio16Khz32KBitRateMonoMp3);
    assert_eq!(closest("ogg", 9), AudioFormat::Ogg48Khz16BitMonoOpus);
    assert_eq!(closest("webm", -9), AudioFormat::Webm16Khz16BitMonoOpus);
    assert_eq!(closest("webm", 0), AudioFormat::Webm24Khz16BitMonoOpus);
}

#[test]
fn unknown_container_is_refused() {
    for container in ["flac", "WAV", "", "mp4"] {
        for use_closest in [false, true] {
            assert_eq!(
                kind(AudioFormat::from_container_and_quality(container, 0, use_closest)),
                AudioFormatParseErrorKind::InvalidContainer(container.to_string())
            );
        }
    }
}

#[test]
fn audio_format_error_messages() {
    let error = AudioFormat::from_container_and_quality("flac", 0, false).unwrap_err();
    assert_eq!(error.message(), "audio format parse error: invalid container format: flac");
    let error = AudioFormat::from_container_and_quality("ogg", -7, false).unwrap_err();
    assert_eq!(error.message(), "audio format parse error: invalid quality -7 for container ogg");
    let error = AudioFormat::from_container_and_quality("ogg", 100, false).unwrap_err();
    assert_eq!(error.message(), "audio format parse error: invalid quality 100 for container ogg");
}

#[test]
fn audio_error_messages() {
    let message = |kind: AudioErrorKind| AudioError::new(kind, "cause".to_string()).message();
    assert_eq!(message(AudioErrorKind::Decoder), "audio Decoder error");
    assert_eq!(message(AudioErrorKind::Stream), "audio Stream error");
    assert_eq!(message(AudioErrorKind::Play), "audio Play error");
    let error = AudioError::new(AudioErrorKind::Stream, "no device".to_string());
    assert_eq!(error.kind, AudioErrorKind::Stream);
    assert_eq!(error.source.as_deref(), Some("no device"));
}

fn wav_header(sample_rate: u32) -> Vec<u8> {
    let mut header = Vec::new();
    header.extend_from_slice(b"RIFF");
    header.extend_from_slice(&36u32.to_le_bytes());
    header.extend_from_slice(b"WAVEfmt ");
    header.extend_from_slice(&16u32.to_le_bytes());
    header.extend_from_slice(&1u16.to_le_bytes());
    header.extend_from_slice(&1u16.to_le_bytes());
    header.extend_from_slice(&sample_rate.to_le_bytes());
    header.extend_from_slice(&(sample_rate * 2).to_le_bytes());
    header.extend_from_slice(&2u16.to_le_bytes());
    header.extend_from_slice(&16u16.to_le_bytes());
    header.extend_from_slice(b"data");
    header.extend_from_slice(&0u32.to_le_bytes());
    header
}

#[test]
fn audio_without_samples_is_empty() {
    assert!(is_empty_audio(&[]));
    let silent = wav_header(0);
    assert_eq!(silent.len(), 44);
    assert!(is_empty_audio(&silent));
    let mut longer = silent.clone();
    longer.extend_from_slice(&[1, 2, 3]);
    assert!(is_empty_audio(&longer));
}

#[test]
fn audio_with_a_sample_rate_is_not_empty() {
    assert!(!is_empty_audio(&wav_header(24000)));
    assert!(!is_empty_audio(&wav_header(0)[..43]));
    assert!(!is_empty_audio(&[0]));
    let mut other = wav_header(0);
    other[0] = b'r';
    assert!(!is_empty_audio(&other));
    let mut other = wav_header(0);
    other[15] = b'_';
    assert!(!is_empty_audio(&other));
    let mut other = wav_header(0);
    other[27] = 1;
    assert!(!is_empty_audio(&other));
}
