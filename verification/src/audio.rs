//! The audio formats of the service, and how a container and a quality
//! level choose one.

use vstd::prelude::*;
use vstd::string::*;
use crate::text::{push_signed_decimal, signed_decimal, str_eq};

verus! {

/// All possible audio formats.
///
/// Some endpoints only support a subset of these formats.
#[derive(Debug, Clone, Copy, PartialEq, Eq, Structural)]
#[non_exhaustive]
pub enum AudioFormat {
    AmrWb16000Hz,
    Audio16Khz128KBitRateMonoMp3,
    Audio16Khz16Bit32KbpsMonoOpus,
    Audio16Khz32KBitRateMonoMp3,
    Audio16Khz64KBitRateMonoMp3,
    Audio24Khz160KBitRateMonoMp3,
    Audio24Khz16Bit24KbpsMonoOpus,
    Audio24Khz16Bit48KbpsMonoOpus,
    Audio24Khz48KBitRateMonoMp3,
    Audio24Khz96KBitRateMonoMp3,
    Audio48Khz192KBitRateMonoMp3,
    Audio48Khz96KBitRateMonoMp3,
    Ogg16Khz16BitMonoOpus,
    Ogg24Khz16BitMonoOpus,
    Ogg48Khz16BitMonoOpus,
    Raw16Khz16BitMonoPcm,
    Raw16Khz16BitMonoTrueSilk,
    Raw22050Hz16BitMonoPcm,
    Raw24Khz16BitMonoPcm,
    Raw24Khz16BitMonoTrueSilk,
    Raw44100Hz16BitMonoPcm,
    Raw48Khz16BitMonoPcm,
    Raw8Khz16BitMonoPcm,
    Raw8Khz8BitMonoALaw,
    Raw8Khz8BitMonoMULaw,
    Riff16Khz16BitMonoPcm,
    Riff22050Hz16BitMonoPcm,
    Riff24Khz16BitMonoPcm,
    Riff44100Hz16BitMonoPcm,
    Riff48Khz16BitMonoPcm,
    Riff8Khz16BitMonoPcm,
    Riff8Khz8BitMonoALaw,
    Riff8Khz8BitMonoMULaw,
    Webm16Khz16BitMonoOpus,
    Webm24Khz16Bit24KbpsMonoOpus,
    Webm24Khz16BitMonoOpus,
}

/// What can go wrong while playing audio: the decoder refused the data, or
/// the audio stream failed.
#[derive(Debug)]
#[non_exhaustive]
pub struct AudioError {
    pub kind: AudioErrorKind,
    /// The underlying cause, as text.
    pub source: Option<String>,
}

#[derive(Debug, PartialEq, Clone)]
#[non_exhaustive]
pub enum AudioErrorKind {
    Decoder,
    Stream,
    Play,
}

/// An error of [`AudioFormat::from_container_and_quality`].
#[derive(Debug)]
#[non_exhaustive]
pub struct AudioFormatParseError {
    pub kind: AudioFormatParseErrorKind,
}

#[derive(Debug, PartialEq, Clone)]
#[non_exhaustive]
pub enum AudioFormatParseErrorKind {
    InvalidContainer(String),
    InvalidQuality { container: String, quality: i8 },
}

/// The mathematical value of an [`AudioFormatParseErrorKind`].
#[verifier::ext_equal]
pub ghost enum AudioFormatParseErrorView {
    InvalidContainer(Seq<char>),
    InvalidQuality { container: Seq<char>, quality: i8 },
}

impl View for AudioFormatParseErrorKind {
    type V = AudioFormatParseErrorView;

    open spec fn view(&self) -> AudioFormatParseErrorView {
        match self {
            AudioFormatParseErrorKind::InvalidContainer(container) => {
                AudioFormatParseErrorView::InvalidContainer(container@)
            },
            AudioFormatParseErrorKind::InvalidQuality { container, quality } => {
                AudioFormatParseErrorView::InvalidQuality {
                    container: container@,
                    quality: *quality,
                }
            },
        }
    }
}

impl View for AudioFormatParseError {
    type V = AudioFormatParseErrorView;

    open spec fn view(&self) -> AudioFormatParseErrorView {
        self.kind@
    }
}

/// The quality levels that a container offers, lowest and highest, if it is
/// a container that the service knows.
pub open spec fn quality_range(container: Seq<char>) -> Option<(i8, i8)> {
    if container == "wav"@ {
        Some((-2i8, 1i8))
    } else if container == "mp3"@ {
        Some((-4i8, 3i8))
    } else if container == "ogg"@ {
        Some((-1i8, 1i8))
    } else if container == "webm"@ {
        Some((-1i8, 1i8))
    } else {
        None
    }
}

/// The format that a quality level of a container stands for.
pub open spec fn quality_format(container: Seq<char>, quality: i8) -> Option<AudioFormat> {
    if container == "wav"@ {
        if quality == -2 {
            Some(AudioFormat::Riff8Khz16BitMonoPcm)
        } else if quality == -1 {
            Some(AudioFormat::Riff16Khz16BitMonoPcm)
        } else if quality == 0 {
            Some(AudioFormat::Riff24Khz16BitMonoPcm)
        } else if quality == 1 {
            Some(AudioFormat::Riff24Khz16BitMonoPcm)
        } else {
            None
        }
    } else if container == "mp3"@ {
        if quality == -4 {
            Some(AudioFormat::Audio16Khz32KBitRateMonoMp3)
        } else if quality == -3 {
            Some(AudioFormat::Audio16Khz64KBitRateMonoMp3)
        } else if quality == -2 {
            Some(AudioFormat::Audio16Khz128KBitRateMonoMp3)
        } else if quality == -1 {
            Some(AudioFormat::Audio24Khz48KBitRateMonoMp3)
        } else if quality == 0 {
            Some(AudioFormat::Audio24Khz96KBitRateMonoMp3)
        } else if quality == 1 {
            Some(AudioFormat::Audio24Khz160KBitRateMonoMp3)
        } else if quality == 2 {
            Some(AudioFormat::Audio48Khz96KBitRateMonoMp3)
        } else if quality == 3 {
            Some(AudioFormat::Audio48Khz192KBitRateMonoMp3)
        } else {
            None
        }
    } else if container == "ogg"@ {
        if quality == -1 {
            Some(AudioFormat::Ogg16Khz16BitMonoOpus)
        } else if quality == 0 {
            Some(AudioFormat::Ogg24Khz16BitMonoOpus)
        } else if quality == 1 {
            Some(AudioFormat::Ogg48Khz16BitMonoOpus)
        } else {
            None
        }
    } else if container == "webm"@ {
        if quality == -1 {
            Some(AudioFormat::Webm16Khz16BitMonoOpus)
        } else if quality == 0 {
            Some(AudioFormat::Webm24Khz16BitMonoOpus)
        } else if quality == 1 {
            Some(AudioFormat::Webm24Khz16Bit24KbpsMonoOpus)
        } else {
            None
        }
    } else {
        None
    }
}

/// The quality level of the range that is closest to `quality`.
pub open spec fn closest_quality(range: (i8, i8), quality: i8) -> i8 {
    if quality < range.0 {
        range.0
    } else if quality > range.1 {
        range.1
    } else {
        quality
    }
}

/// The format of a container at a quality level. A level outside the
/// container's range stands for the closest level of the range where
/// `use_closest` is set, and is refused where it is not.
pub open spec fn format_for(container: Seq<char>, quality: i8, use_closest: bool) -> Result<
    AudioFormat,
    AudioFormatParseErrorView,
> {
    match quality_range(container) {
        None => Err(AudioFormatParseErrorView::InvalidContainer(container)),
        Some(range) => match quality_format(container, quality) {
            Some(format) => Ok(format),
            None => if use_closest {
                Ok(quality_format(container, closest_quality(range, quality)).unwrap())
            } else {
                Err(AudioFormatParseErrorView::InvalidQuality { container, quality })
            },
        },
    }
}

fn lookup_quality(container: &str, quality: i8) -> (format: Option<AudioFormat>)
    ensures
        format == quality_format(container@, quality),
{
    if str_eq(container, "wav") {
        match quality {
            -2 => Some(AudioFormat::Riff8Khz16BitMonoPcm),
            -1 => Some(AudioFormat::Riff16Khz16BitMonoPcm),
            0 => Some(AudioFormat::Riff24Khz16BitMonoPcm),
            1 => Some(AudioFormat::Riff24Khz16BitMonoPcm),
            _ => None,
        }
    } else if str_eq(container, "mp3") {
        match quality {
            -4 => Some(AudioFormat::Audio16Khz32KBitRateMonoMp3),
            -3 => Some(AudioFormat::Audio16Khz64KBitRateMonoMp3),
            -2 => Some(AudioFormat::Audio16Khz128KBitRateMonoMp3),
            -1 => Some(AudioFormat::Audio24Khz48KBitRateMonoMp3),
            0 => Some(AudioFormat::Audio24Khz96KBitRateMonoMp3),
            1 => Some(AudioFormat::Audio24Khz160KBitRateMonoMp3),
            2 => Some(AudioFormat::Audio48Khz96KBitRateMonoMp3),
            3 => Some(AudioFormat::Audio48Khz192KBitRateMonoMp3),
            _ => None,
        }
    } else if str_eq(container, "ogg") {
        match quality {
            -1 => Some(AudioFormat::Ogg16Khz16BitMonoOpus),
            0 => Some(AudioFormat::Ogg24Khz16BitMonoOpus),
            1 => Some(AudioFormat::Ogg48Khz16BitMonoOpus),
            _ => None,
        }
    } else if str_eq(container, "webm") {
        match quality {
            -1 => Some(AudioFormat::Webm16Khz16BitMonoOpus),
            0 => Some(AudioFormat::Webm24Khz16BitMonoOpus),
            1 => Some(AudioFormat::Webm24Khz16Bit24KbpsMonoOpus),
            _ => None,
        }
    } else {
        None
    }
}

fn lookup_range(container: &str) -> (range: Option<(i8, i8)>)
    ensures
        range == quality_range(container@),
{
    if str_eq(container, "wav") {
        Some((-2i8, 1i8))
    } else if str_eq(container, "mp3") {
        Some((-4i8, 3i8))
    } else if str_eq(container, "ogg") {
        Some((-1i8, 1i8))
    } else if str_eq(container, "webm") {
        Some((-1i8, 1i8))
    } else {
        None
    }
}

impl AudioFormat {
    /// The name by which the service knows the format.
    pub open spec fn token(self) -> Seq<char> {
        match self {
            AudioFormat::AmrWb16000Hz => "amr-wb-16000hz"@,
            AudioFormat::Audio16Khz128KBitRateMonoMp3 => "audio-16khz-128kbitrate-mono-mp3"@,
            AudioFormat::Audio16Khz16Bit32KbpsMonoOpus => "audio-16khz-16bit-32kbps-mono-opus"@,
            AudioFormat::Audio16Khz32KBitRateMonoMp3 => "audio-16khz-32kbitrate-mono-mp3"@,
            AudioFormat::Audio16Khz64KBitRateMonoMp3 => "audio-16khz-64kbitrate-mono-mp3"@,
            AudioFormat::Audio24Khz160KBitRateMonoMp3 => "audio-24khz-160kbitrate-mono-mp3"@,
            AudioFormat::Audio24Khz16Bit24KbpsMonoOpus => "audio-24khz-16bit-24kbps-mono-opus"@,
            AudioFormat::Audio24Khz16Bit48KbpsMonoOpus => "audio-24khz-16bit-48kbps-mono-opus"@,
            AudioFormat::Audio24Khz48KBitRateMonoMp3 => "audio-24khz-48kbitrate-mono-mp3"@,
            AudioFormat::Audio24Khz96KBitRateMonoMp3 => "audio-24khz-96kbitrate-mono-mp3"@,
            AudioFormat::Audio48Khz192KBitRateMonoMp3 => "audio-48khz-192kbitrate-mono-mp3"@,
            AudioFormat::Audio48Khz96KBitRateMonoMp3 => "audio-48khz-96kbitrate-mono-mp3"@,
            AudioFormat::Ogg16Khz16BitMonoOpus => "ogg-16khz-16bit-mono-opus"@,
            AudioFormat::Ogg24Khz16BitMonoOpus => "ogg-24khz-16bit-mono-opus"@,
            AudioFormat::Ogg48Khz16BitMonoOpus => "ogg-48khz-16bit-mono-opus"@,
            AudioFormat::Raw16Khz16BitMonoPcm => "raw-16khz-16bit-mono-pcm"@,
            AudioFormat::Raw16Khz16BitMonoTrueSilk => "raw-16khz-16bit-mono-truesilk"@,
            AudioFormat::Raw22050Hz16BitMonoPcm => "raw-22050hz-16bit-mono-pcm"@,
            AudioFormat::Raw24Khz16BitMonoPcm => "raw-24khz-16bit-mono-pcm"@,
            AudioFormat::Raw24Khz16BitMonoTrueSilk => "raw-24khz-16bit-mono-truesilk"@,
            AudioFormat::Raw44100Hz16BitMonoPcm => "raw-44100hz-16bit-mono-pcm"@,
            AudioFormat::Raw48Khz16BitMonoPcm => "raw-48khz-16bit-mono-pcm"@,
            AudioFormat::Raw8Khz16BitMonoPcm => "raw-8khz-16bit-mono-pcm"@,
            AudioFormat::Raw8Khz8BitMonoALaw => "raw-8khz-8bit-mono-alaw"@,
            AudioFormat::Raw8Khz8BitMonoMULaw => "raw-8khz-8bit-mono-mulaw"@,
            AudioFormat::Riff16Khz16BitMonoPcm => "riff-16khz-16bit-mono-pcm"@,
            AudioFormat::Riff22050Hz16BitMonoPcm => "riff-22050hz-16bit-mono-pcm"@,
            AudioFormat::Riff24Khz16BitMonoPcm => "riff-24khz-16bit-mono-pcm"@,
            AudioFormat::Riff44100Hz16BitMonoPcm => "riff-44100hz-16bit-mono-pcm"@,
            AudioFormat::Riff48Khz16BitMonoPcm => "riff-48khz-16bit-mono-pcm"@,
            AudioFormat::Riff8Khz16BitMonoPcm => "riff-8khz-16bit-mono-pcm"@,
            AudioFormat::Riff8Khz8BitMonoALaw => "riff-8khz-8bit-mono-alaw"@,
            AudioFormat::Riff8Khz8BitMonoMULaw => "riff-8khz-8bit-mono-mulaw"@,
            AudioFormat::Webm16Khz16BitMonoOpus => "webm-16khz-16bit-mono-opus"@,
            AudioFormat::Webm24Khz16Bit24KbpsMonoOpus => "webm-24khz-16bit-24kbps-mono-opus"@,
            AudioFormat::Webm24Khz16BitMonoOpus => "webm-24khz-16bit-mono-opus"@,
        }
    }

    /// Every format, in the order of their names.
    pub open spec fn all() -> Seq<AudioFormat> {
        seq![
            AudioFormat::AmrWb16000Hz,
            AudioFormat::Audio16Khz128KBitRateMonoMp3,
            AudioFormat::Audio16Khz16Bit32KbpsMonoOpus,
            AudioFormat::Audio16Khz32KBitRateMonoMp3,
            AudioFormat::Audio16Khz64KBitRateMonoMp3,
            AudioFormat::Audio24Khz160KBitRateMonoMp3,
            AudioFormat::Audio24Khz16Bit24KbpsMonoOpus,
            AudioFormat::Audio24Khz16Bit48KbpsMonoOpus,
            AudioFormat::Audio24Khz48KBitRateMonoMp3,
            AudioFormat::Audio24Khz96KBitRateMonoMp3,
            AudioFormat::Audio48Khz192KBitRateMonoMp3,
            AudioFormat::Audio48Khz96KBitRateMonoMp3,
            AudioFormat::Ogg16Khz16BitMonoOpus,
            AudioFormat::Ogg24Khz16BitMonoOpus,
            AudioFormat::Ogg48Khz16BitMonoOpus,
            AudioFormat::Raw16Khz16BitMonoPcm,
            AudioFormat::Raw16Khz16BitMonoTrueSilk,
            AudioFormat::Raw22050Hz16BitMonoPcm,
            AudioFormat::Raw24Khz16BitMonoPcm,
            AudioFormat::Raw24Khz16BitMonoTrueSilk,
            AudioFormat::Raw44100Hz16BitMonoPcm,
            AudioFormat::Raw48Khz16BitMonoPcm,
            AudioFormat::Raw8Khz16BitMonoPcm,
            AudioFormat::Raw8Khz8BitMonoALaw,
            AudioFormat::Raw8Khz8BitMonoMULaw,
            AudioFormat::Riff16Khz16BitMonoPcm,
            AudioFormat::Riff22050Hz16BitMonoPcm,
            AudioFormat::Riff24Khz16BitMonoPcm,
            AudioFormat::Riff44100Hz16BitMonoPcm,
            AudioFormat::Riff48Khz16BitMonoPcm,
            AudioFormat::Riff8Khz16BitMonoPcm,
            AudioFormat::Riff8Khz8BitMonoALaw,
            AudioFormat::Riff8Khz8BitMonoMULaw,
            AudioFormat::Webm16Khz16BitMonoOpus,
            AudioFormat::Webm24Khz16Bit24KbpsMonoOpus,
            AudioFormat::Webm24Khz16BitMonoOpus,
        ]
    }

    /// The name by which the service knows the format.
    pub fn as_str(&self) -> (token: &'static str)
        ensures
            token@ == self.token(),
    {
        match self {
            AudioFormat::AmrWb16000Hz => "amr-wb-16000hz",
            AudioFormat::Audio16Khz128KBitRateMonoMp3 => "audio-16khz-128kbitrate-mono-mp3",
            AudioFormat::Audio16Khz16Bit32KbpsMonoOpus => "audio-16khz-16bit-32kbps-mono-opus",
            AudioFormat::Audio16Khz32KBitRateMonoMp3 => "audio-16khz-32kbitrate-mono-mp3",
            AudioFormat::Audio16Khz64KBitRateMonoMp3 => "audio-16khz-64kbitrate-mono-mp3",
            AudioFormat::Audio24Khz160KBitRateMonoMp3 => "audio-24khz-160kbitrate-mono-mp3",
            AudioFormat::Audio24Khz16Bit24KbpsMonoOpus => "audio-24khz-16bit-24kbps-mono-opus",
            AudioFormat::Audio24Khz16Bit48KbpsMonoOpus => "audio-24khz-16bit-48kbps-mono-opus",
            AudioFormat::Audio24Khz48KBitRateMonoMp3 => "audio-24khz-48kbitrate-mono-mp3",
            AudioFormat::Audio24Khz96KBitRateMonoMp3 => "audio-24khz-96kbitrate-mono-mp3",
            AudioFormat::Audio48Khz192KBitRateMonoMp3 => "audio-48khz-192kbitrate-mono-mp3",
            AudioFormat::Audio48Khz96KBitRateMonoMp3 => "audio-48khz-96kbitrate-mono-mp3",
            AudioFormat::Ogg16Khz16BitMonoOpus => "ogg-16khz-16bit-mono-opus",
            AudioFormat::Ogg24Khz16BitMonoOpus => "ogg-24khz-16bit-mono-opus",
            AudioFormat::Ogg48Khz16BitMonoOpus => "ogg-48khz-16bit-mono-opus",
            AudioFormat::Raw16Khz16BitMonoPcm => "raw-16khz-16bit-mono-pcm",
            AudioFormat::Raw16Khz16BitMonoTrueSilk => "raw-16khz-16bit-mono-truesilk",
            AudioFormat::Raw22050Hz16BitMonoPcm => "raw-22050hz-16bit-mono-pcm",
            AudioFormat::Raw24Khz16BitMonoPcm => "raw-24khz-16bit-mono-pcm",
            AudioFormat::Raw24Khz16BitMonoTrueSilk => "raw-24khz-16bit-mono-truesilk",
            AudioFormat::Raw44100Hz16BitMonoPcm => "raw-44100hz-16bit-mono-pcm",
            AudioFormat::Raw48Khz16BitMonoPcm => "raw-48khz-16bit-mono-pcm",
            AudioFormat::Raw8Khz16BitMonoPcm => "raw-8khz-16bit-mono-pcm",
            AudioFormat::Raw8Khz8BitMonoALaw => "raw-8khz-8bit-mono-alaw",
            AudioFormat::Raw8Khz8BitMonoMULaw => "raw-8khz-8bit-mono-mulaw",
            AudioFormat::Riff16Khz16BitMonoPcm => "riff-16khz-16bit-mono-pcm",
            AudioFormat::Riff22050Hz16BitMonoPcm => "riff-22050hz-16bit-mono-pcm",
            AudioFormat::Riff24Khz16BitMonoPcm => "riff-24khz-16bit-mono-pcm",
            AudioFormat::Riff44100Hz16BitMonoPcm => "riff-44100hz-16bit-mono-pcm",
            AudioFormat::Riff48Khz16BitMonoPcm => "riff-48khz-16bit-mono-pcm",
            AudioFormat::Riff8Khz16BitMonoPcm => "riff-8khz-16bit-mono-pcm",
            AudioFormat::Riff8Khz8BitMonoALaw => "riff-8khz-8bit-mono-alaw",
            AudioFormat::Riff8Khz8BitMonoMULaw => "riff-8khz-8bit-mono-mulaw",
            AudioFormat::Webm16Khz16BitMonoOpus => "webm-16khz-16bit-mono-opus",
            AudioFormat::Webm24Khz16Bit24KbpsMonoOpus => "webm-24khz-16bit-24kbps-mono-opus",
            AudioFormat::Webm24Khz16BitMonoOpus => "webm-24khz-16bit-mono-opus",
        }
    }

    /// The format that the service knows by `token`, if there is one.
    pub fn from_token(token: &str) -> (format: Option<AudioFormat>)
        ensures
            match format {
                Some(f) => f.token() == token@,
                None => forall|f: AudioFormat| f.token() != token@,
            },
    {
        if str_eq(token, "amr-wb-16000hz") {
            Some(AudioFormat::AmrWb16000Hz)
        } else if str_eq(token, "audio-16khz-128kbitrate-mono-mp3") {
            Some(AudioFormat::Audio16Khz128KBitRateMonoMp3)
        } else if str_eq(token, "audio-16khz-16bit-32kbps-mono-opus") {
            Some(AudioFormat::Audio16Khz16Bit32KbpsMonoOpus)
        } else if str_eq(token, "audio-16khz-32kbitrate-mono-mp3") {
            Some(AudioFormat::Audio16Khz32KBitRateMonoMp3)
        } else if str_eq(token, "audio-16khz-64kbitrate-mono-mp3") {
            Some(AudioFormat::Audio16Khz64KBitRateMonoMp3)
        } else if str_eq(token, "audio-24khz-160kbitrate-mono-mp3") {
            Some(AudioFormat::Audio24Khz160KBitRateMonoMp3)
        } else if str_eq(token, "audio-24khz-16bit-24kbps-mono-opus") {
            Some(AudioFormat::Audio24Khz16Bit24KbpsMonoOpus)
        } else if str_eq(token, "audio-24khz-16bit-48kbps-mono-opus") {
            Some(AudioFormat::Audio24Khz16Bit48KbpsMonoOpus)
        } else if str_eq(token, "audio-24khz-48kbitrate-mono-mp3") {
            Some(AudioFormat::Audio24Khz48KBitRateMonoMp3)
        } else if str_eq(token, "audio-24khz-96kbitrate-mono-mp3") {
            Some(AudioFormat::Audio24Khz96KBitRateMonoMp3)
        } else if str_eq(token, "audio-48khz-192kbitrate-mono-mp3") {
            Some(AudioFormat::Audio48Khz192KBitRateMonoMp3)
        } else if str_eq(token, "audio-48khz-96kbitrate-mono-mp3") {
            Some(AudioFormat::Audio48Khz96KBitRateMonoMp3)
        } else if str_eq(token, "ogg-16khz-16bit-mono-opus") {
            Some(AudioFormat::Ogg16Khz16BitMonoOpus)
        } else if str_eq(token, "ogg-24khz-16bit-mono-opus") {
            Some(AudioFormat::Ogg24Khz16BitMonoOpus)
        } else if str_eq(token, "ogg-48khz-16bit-mono-opus") {
            Some(AudioFormat::Ogg48Khz16BitMonoOpus)
        } else if str_eq(token, "raw-16khz-16bit-mono-pcm") {
            Some(AudioFormat::Raw16Khz16BitMonoPcm)
        } else if str_eq(token, "raw-16khz-16bit-mono-truesilk") {
            Some(AudioFormat::Raw16Khz16BitMonoTrueSilk)
        } else if str_eq(token, "raw-22050hz-16bit-mono-pcm") {
            Some(AudioFormat::Raw22050Hz16BitMonoPcm)
        } else if str_eq(token, "raw-24khz-16bit-mono-pcm") {
            Some(AudioFormat::Raw24Khz16BitMonoPcm)
        } else if str_eq(token, "raw-24khz-16bit-mono-truesilk") {
            Some(AudioFormat::Raw24Khz16BitMonoTrueSilk)
        } else if str_eq(token, "raw-44100hz-16bit-mono-pcm") {
            Some(AudioFormat::Raw44100Hz16BitMonoPcm)
        } else if str_eq(token, "raw-48khz-16bit-mono-pcm") {
            Some(AudioFormat::Raw48Khz16BitMonoPcm)
        } else if str_eq(token, "raw-8khz-16bit-mono-pcm") {
            Some(AudioFormat::Raw8Khz16BitMonoPcm)
        } else if str_eq(token, "raw-8khz-8bit-mono-alaw") {
            Some(AudioFormat::Raw8Khz8BitMonoALaw)
        } else if str_eq(token, "raw-8khz-8bit-mono-mulaw") {
            Some(AudioFormat::Raw8Khz8BitMonoMULaw)
        } else if str_eq(token, "riff-16khz-16bit-mono-pcm") {
            Some(AudioFormat::Riff16Khz16BitMonoPcm)
        } else if str_eq(token, "riff-22050hz-16bit-mono-pcm") {
            Some(AudioFormat::Riff22050Hz16BitMonoPcm)
        } else if str_eq(token, "riff-24khz-16bit-mono-pcm") {
            Some(AudioFormat::Riff24Khz16BitMonoPcm)
        } else if str_eq(token, "riff-44100hz-16bit-mono-pcm") {
            Some(AudioFormat::Riff44100Hz16BitMonoPcm)
        } else if str_eq(token, "riff-48khz-16bit-mono-pcm") {
            Some(AudioFormat::Riff48Khz16BitMonoPcm)
        } else if str_eq(token, "riff-8khz-16bit-mono-pcm") {
            Some(AudioFormat::Riff8Khz16BitMonoPcm)
        } else if str_eq(token, "riff-8khz-8bit-mono-alaw") {
            Some(AudioFormat::Riff8Khz8BitMonoALaw)
        } else if str_eq(token, "riff-8khz-8bit-mono-mulaw") {
            Some(AudioFormat::Riff8Khz8BitMonoMULaw)
        } else if str_eq(token, "webm-16khz-16bit-mono-opus") {
            Some(AudioFormat::Webm16Khz16BitMonoOpus)
        } else if str_eq(token, "webm-24khz-16bit-24kbps-mono-opus") {
            Some(AudioFormat::Webm24Khz16Bit24KbpsMonoOpus)
        } else if str_eq(token, "webm-24khz-16bit-mono-opus") {
            Some(AudioFormat::Webm24Khz16BitMonoOpus)
        } else {
            None
        }
    }

    /// Every format, in the order of their names.
    pub fn variants() -> (formats: Vec<AudioFormat>)
        ensures
            formats@ == AudioFormat::all(),
    {
        let mut formats: Vec<AudioFormat> = Vec::new();
        formats.push(AudioFormat::AmrWb16000Hz);
        formats.push(AudioFormat::Audio16Khz128KBitRateMonoMp3);
        formats.push(AudioFormat::Audio16Khz16Bit32KbpsMonoOpus);
        formats.push(AudioFormat::Audio16Khz32KBitRateMonoMp3);
        formats.push(AudioFormat::Audio16Khz64KBitRateMonoMp3);
        formats.push(AudioFormat::Audio24Khz160KBitRateMonoMp3);
        formats.push(AudioFormat::Audio24Khz16Bit24KbpsMonoOpus);
        formats.push(AudioFormat::Audio24Khz16Bit48KbpsMonoOpus);
        formats.push(AudioFormat::Audio24Khz48KBitRateMonoMp3);
        formats.push(AudioFormat::Audio24Khz96KBitRateMonoMp3);
        formats.push(AudioFormat::Audio48Khz192KBitRateMonoMp3);
        formats.push(AudioFormat::Audio48Khz96KBitRateMonoMp3);
        formats.push(AudioFormat::Ogg16Khz16BitMonoOpus);
        formats.push(AudioFormat::Ogg24Khz16BitMonoOpus);
        formats.push(AudioFormat::Ogg48Khz16BitMonoOpus);
        formats.push(AudioFormat::Raw16Khz16BitMonoPcm);
        formats.push(AudioFormat::Raw16Khz16BitMonoTrueSilk);
        formats.push(AudioFormat::Raw22050Hz16BitMonoPcm);
        formats.push(AudioFormat::Raw24Khz16BitMonoPcm);
        formats.push(AudioFormat::Raw24Khz16BitMonoTrueSilk);
        formats.push(AudioFormat::Raw44100Hz16BitMonoPcm);
        formats.push(AudioFormat::Raw48Khz16BitMonoPcm);
        formats.push(AudioFormat::Raw8Khz16BitMonoPcm);
        formats.push(AudioFormat::Raw8Khz8BitMonoALaw);
        formats.push(AudioFormat::Raw8Khz8BitMonoMULaw);
        formats.push(AudioFormat::Riff16Khz16BitMonoPcm);
        formats.push(AudioFormat::Riff22050Hz16BitMonoPcm);
        formats.push(AudioFormat::Riff24Khz16BitMonoPcm);
        formats.push(AudioFormat::Riff44100Hz16BitMonoPcm);
        formats.push(AudioFormat::Riff48Khz16BitMonoPcm);
        formats.push(AudioFormat::Riff8Khz16BitMonoPcm);
        formats.push(AudioFormat::Riff8Khz8BitMonoALaw);
        formats.push(AudioFormat::Riff8Khz8BitMonoMULaw);
        formats.push(AudioFormat::Webm16Khz16BitMonoOpus);
        formats.push(AudioFormat::Webm24Khz16Bit24KbpsMonoOpus);
        formats.push(AudioFormat::Webm24Khz16BitMonoOpus);
        assert(formats@ =~= AudioFormat::all());
        formats
    }

    /// Convert a container format and quality level into an [`AudioFormat`].
    ///
    /// If `use_closest` is `true`, then if the quality level is not supported
    /// by the container, the closest supported quality level will be used.
    pub fn from_container_and_quality(container: &str, quality: i8, use_closest: bool) -> (format:
        Result<AudioFormat, AudioFormatParseError>)
        ensures
            match format {
                Ok(chosen) => format_for(container@, quality, use_closest) == Ok::<
                    AudioFormat,
                    AudioFormatParseErrorView,
                >(chosen),
                Err(error) => format_for(container@, quality, use_closest) == Err::<
                    AudioFormat,
                    AudioFormatParseErrorView,
                >(error@),
            },
    {
        proof {
            reveal_strlit("wav");
            reveal_strlit("mp3");
            reveal_strlit("ogg");
            reveal_strlit("webm");
        }
        let range = match lookup_range(container) {
            Some(range) => range,
            None => {
                return Err(
                    AudioFormatParseError {
                        kind: AudioFormatParseErrorKind::InvalidContainer(container.to_owned()),
                    },
                );
            },
        };
        if let Some(format) = lookup_quality(container, quality) {
            Ok(format)
        } else if use_closest {
            let closest = if quality < range.0 {
                range.0
            } else {
                range.1
            };
            Ok(lookup_quality(container, closest).unwrap())
        } else {
            Err(
                AudioFormatParseError {
                    kind: AudioFormatParseErrorKind::InvalidQuality {
                        container: container.to_owned(),
                        quality,
                    },
                },
            )
        }
    }
}

impl Default for AudioFormat {
    fn default() -> (format: AudioFormat)
        ensures
            format == AudioFormat::Riff24Khz16BitMonoPcm,
    {
        AudioFormat::Riff24Khz16BitMonoPcm
    }
}

impl AudioFormatParseErrorView {
    /// The error as one line of text.
    pub open spec fn message(self) -> Seq<char> {
        "audio format parse error: "@ + match self {
            AudioFormatParseErrorView::InvalidContainer(container) => "invalid container format: "@
                + container,
            AudioFormatParseErrorView::InvalidQuality { container, quality } => "invalid quality "@
                + signed_decimal(quality as int) + " for container "@ + container,
        }
    }
}

impl AudioFormatParseError {
    /// The error as one line of text.
    pub fn message(&self) -> (line: String)
        ensures
            line@ == self@.message(),
    {
        let mut line = String::from_str("audio format parse error: ");
        match &self.kind {
            AudioFormatParseErrorKind::InvalidContainer(container) => {
                line.append("invalid container format: ");
                line.append(container.as_str());
                assert(line@ =~= self@.message());
            },
            AudioFormatParseErrorKind::InvalidQuality { container, quality } => {
                line.append("invalid quality ");
                push_signed_decimal(&mut line, *quality as i32);
                line.append(" for container ");
                line.append(container.as_str());
                assert(line@ =~= self@.message());
            },
        }
        line
    }
}

impl AudioErrorKind {
    /// The kind's name.
    pub open spec fn name(self) -> Seq<char> {
        match self {
            AudioErrorKind::Decoder => "Decoder"@,
            AudioErrorKind::Stream => "Stream"@,
            AudioErrorKind::Play => "Play"@,
        }
    }

    /// The kind's name.
    pub fn as_str(&self) -> (name: &'static str)
        ensures
            name@ == self.name(),
    {
        match self {
            AudioErrorKind::Decoder => "Decoder",
            AudioErrorKind::Stream => "Stream",
            AudioErrorKind::Play => "Play",
        }
    }
}

impl AudioError {
    /// An error of the given kind, with the cause as text.
    pub fn new(kind: AudioErrorKind, cause: String) -> (error: Self)
        ensures
            error.kind == kind,
            error.source matches Some(text) && text@ == cause@,
    {
        AudioError { kind, source: Some(cause) }
    }

    /// The error as one line of text.
    pub fn message(&self) -> (line: String)
        ensures
            line@ == "audio "@ + self.kind.name() + " error"@,
    {
        let mut line = String::from_str("audio ");
        line.append(self.kind.as_str());
        line.append(" error");
        line
    }
}

/// Whether `buffer` holds nothing to play: no bytes at all, or a RIFF/WAVE
/// header of at least 44 bytes whose sample rate is zero.
pub open spec fn is_silent(buffer: Seq<u8>) -> bool {
    buffer.len() == 0 || (buffer.len() >= 44 && buffer.subrange(0, 4) == seq![
        0x52u8,
        0x49u8,
        0x46u8,
        0x46u8,
    ] && buffer.subrange(8, 16) == seq![
        0x57u8,
        0x41u8,
        0x56u8,
        0x45u8,
        0x66u8,
        0x6du8,
        0x74u8,
        0x20u8,
    ] && buffer.subrange(24, 28) == seq![0u8, 0u8, 0u8, 0u8])
}

/// Whether `buffer` holds nothing to play.
pub fn is_empty_audio(buffer: &[u8]) -> (silent: bool)
    ensures
        silent == is_silent(buffer@),
{
    if buffer.len() == 0 {
        return true;
    }
    if buffer.len() < 44 {
        return false;
    }
    let riff = buffer[0] == 0x52 && buffer[1] == 0x49 && buffer[2] == 0x46 && buffer[3] == 0x46;
    let wave = buffer[8] == 0x57 && buffer[9] == 0x41 && buffer[10] == 0x56 && buffer[11] == 0x45
        && buffer[12] == 0x66 && buffer[13] == 0x6d && buffer[14] == 0x74 && buffer[15] == 0x20;
    let no_rate = buffer[24] == 0 && buffer[25] == 0 && buffer[26] == 0 && buffer[27] == 0;
    proof {
        let head = buffer@.subrange(0, 4);
        let form = buffer@.subrange(8, 16);
        let rate = buffer@.subrange(24, 28);
        assert(riff <==> head =~= seq![0x52u8, 0x49u8, 0x46u8, 0x46u8]) by {
            assert(head[0] == buffer@[0] && head[1] == buffer@[1] && head[2] == buffer@[2]
                && head[3] == buffer@[3]);
        }
        assert(wave <==> form =~= seq![
            0x57u8,
            0x41u8,
            0x56u8,
            0x45u8,
            0x66u8,
            0x6du8,
            0x74u8,
            0x20u8,
        ]) by {
            assert(form[0] == buffer@[8] && form[1] == buffer@[9] && form[2] == buffer@[10]
                && form[3] == buffer@[11] && form[4] == buffer@[12] && form[5] == buffer@[13]
                && form[6] == buffer@[14] && form[7] == buffer@[15]);
        }
        assert(no_rate <==> rate =~= seq![0u8, 0u8, 0u8, 0u8]) by {
            assert(rate[0] == buffer@[24] && rate[1] == buffer@[25] && rate[2] == buffer@[26]
                && rate[3] == buffer@[27]);
        }
    }
    riff && wave && no_rate
}

/// A quality level that a container offers chooses its format whether or
/// not the closest level is asked for; a level below the container's range
/// chooses with `use_closest` what the lowest level chooses, and a level above
/// it what the highest level chooses.
pub proof fn lemma_closest_quality(container: Seq<char>, quality: i8)
    requires
        quality_range(container) is Some,
    ensures
        quality_format(container, quality) is Some ==> format_for(container, quality, true)
            == format_for(container, quality, false),
        quality_format(container, quality) is Some <==> quality_range(container).unwrap().0
            <= quality <= quality_range(container).unwrap().1,
        quality < quality_range(container).unwrap().0 ==> format_for(container, quality, true)
            == format_for(container, quality_range(container).unwrap().0, false),
        quality > quality_range(container).unwrap().1 ==> format_for(container, quality, true)
            == format_for(container, quality_range(container).unwrap().1, false),
        format_for(container, quality, true) is Ok,
{
    reveal_strlit("wav");
    reveal_strlit("mp3");
    reveal_strlit("ogg");
    reveal_strlit("webm");
}

} // verus!
