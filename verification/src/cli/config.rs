//! What a profile holds, once it is read.

use vstd::prelude::*;
use vstd::string::*;
use crate::audio::AudioFormat;
use crate::cli::args::{ContainerFormat, SynthesizerMode};
use crate::cli::{CliError, CliErrorView};
use crate::types::{default_voice, get_default_voice_by_locale, Role};
use crate::{
    get_rest_endpoint_by_region, get_websocket_endpoint_by_region, rest_endpoint_of,
    websocket_endpoint_of,
};

verus! {

/// The name of the profile in the home directory.
pub const DEFAULT_PROFILE_NAME: &'static str = ".aspeak.toml";

/// A profile.
#[derive(Debug)]
pub struct Config {
    pub auth: Option<AuthConfig>,
    pub text: Option<TextConfig>,
    pub output: Option<OutputConfig>,
    pub verbosity: Option<u8>,
}

/// The authentication section of a profile.
#[derive(Debug)]
pub struct AuthConfig {
    pub endpoint_config: Option<EndpointConfig>,
    pub key: Option<String>,
    pub token: Option<String>,
    pub headers: Option<Vec<(String, String)>>,
    pub proxy: Option<String>,
    pub voice_list_api: Option<String>,
    pub mode: Option<SynthesizerMode>,
}

/// The endpoint of a profile: a URL, or a region of the service.
#[derive(Debug)]
pub enum EndpointConfig {
    Endpoint { endpoint: String },
    Region { region: String },
}

/// A pitch or rate of a profile.
#[derive(Debug)]
pub enum ProfileValue {
    /// The profile names none.
    Missing,
    /// The value, as it is written into the markup.
    Valid(String),
    /// The profile names one that is no pitch or rate, with the reason.
    Invalid(String),
}

/// The text section of a profile.
#[derive(Debug)]
pub struct TextConfig {
    pub voice: Option<VoiceConfig>,
    pub rate: ProfileValue,
    pub pitch: ProfileValue,
    /// The style degree, as it is written into the markup.
    pub style_degree: Option<String>,
    pub role: Option<Role>,
    pub style: Option<String>,
}

/// The voice of a profile: a voice, or a locale whose default voice is meant.
#[derive(Debug)]
pub enum VoiceConfig {
    Voice { voice: String },
    Locale { locale: String },
}

/// The output section of a profile.
#[derive(Debug)]
pub struct OutputConfig {
    pub format: Option<AudioFormat>,
    pub container: Option<ContainerFormat>,
    pub quality: Option<i32>,
}

/// What to do with the file of a new profile.
#[derive(Debug, Clone, Copy, PartialEq, Eq, Structural)]
pub enum InitAction {
    /// Write it: no such file exists.
    Create,
    /// Write over the file that exists.
    Overwrite,
}

impl EndpointConfig {
    /// The endpoint as a URL: the URL itself, or the URL of the region for
    /// the synthesizer that is used.
    pub open spec fn url(self, mode: SynthesizerMode) -> Seq<char> {
        match self {
            EndpointConfig::Endpoint { endpoint } => endpoint@,
            EndpointConfig::Region { region } => match mode {
                SynthesizerMode::Websocket => websocket_endpoint_of(region@),
                SynthesizerMode::Rest => rest_endpoint_of(region@),
            },
        }
    }

    pub fn to_cow_str(&self, mode: SynthesizerMode) -> (url: String)
        ensures
            url@ == self.url(mode),
    {
        match self {
            EndpointConfig::Endpoint { endpoint } => endpoint.clone(),
            EndpointConfig::Region { region } => match mode {
                SynthesizerMode::Websocket => get_websocket_endpoint_by_region(region.as_str()),
                SynthesizerMode::Rest => get_rest_endpoint_by_region(region.as_str()),
            },
        }
    }

    /// The region, where the endpoint is given as one.
    pub fn region(&self) -> (region: Option<&str>)
        ensures
            match (self, region) {
                (EndpointConfig::Region { region: named }, Some(r)) => r@ == named@,
                (EndpointConfig::Endpoint { .. }, None) => true,
                _ => false,
            },
    {
        match self {
            EndpointConfig::Region { region } => Some(region.as_str()),
            EndpointConfig::Endpoint { .. } => None,
        }
    }
}

impl VoiceConfig {
    /// The voice that is meant: the voice itself, or the default voice of
    /// the locale.
    pub open spec fn voice(self) -> Result<Seq<char>, CliErrorView> {
        match self {
            VoiceConfig::Voice { voice } => Ok(voice@),
            VoiceConfig::Locale { locale } => match default_voice(locale@) {
                Some(voice) => Ok(voice),
                None => Err(CliErrorView::NoDefaultVoice(locale@)),
            },
        }
    }

    pub fn try_as_str(&self) -> (voice: Result<&str, CliError>)
        ensures
            match voice {
                Ok(name) => self.voice() == Ok::<Seq<char>, CliErrorView>(name@),
                Err(error) => self.voice() == Err::<Seq<char>, CliErrorView>(error@),
            },
    {
        match self {
            VoiceConfig::Voice { voice } => Ok(voice.as_str()),
            VoiceConfig::Locale { locale } => match get_default_voice_by_locale(locale.as_str()) {
                Some(voice) => Ok(voice),
                None => Err(CliError::NoDefaultVoice(locale.clone())),
            },
        }
    }
}

impl ProfileValue {
    /// The value, nothing where the profile names none, or the reason why
    /// what it names is no value.
    pub open spec fn value(self) -> Result<Option<Seq<char>>, CliErrorView> {
        match self {
            ProfileValue::Missing => Ok(None),
            ProfileValue::Valid(value) => Ok(Some(value@)),
            ProfileValue::Invalid(reason) => Err(CliErrorView::InvalidProfile(reason@)),
        }
    }

    /// The value, nothing where the profile names none, or the reason why
    /// what it names is no value.
    pub fn get(&self) -> (value: Result<Option<&str>, CliError>)
        ensures
            match value {
                Ok(Some(v)) => self.value() == Ok::<Option<Seq<char>>, CliErrorView>(Some(v@)),
                Ok(None) => self.value() == Ok::<Option<Seq<char>>, CliErrorView>(None),
                Err(error) => self.value() == Err::<Option<Seq<char>>, CliErrorView>(error@),
            },
    {
        match self {
            ProfileValue::Missing => Ok(None),
            ProfileValue::Valid(value) => Ok(Some(value.as_str())),
            ProfileValue::Invalid(reason) => Err(CliError::InvalidProfile(reason.clone())),
        }
    }
}

impl TextConfig {
    /// The rate of the profile.
    pub fn rate(&self) -> (rate: Result<Option<&str>, CliError>)
        ensures
            match rate {
                Ok(Some(v)) => self.rate.value() == Ok::<Option<Seq<char>>, CliErrorView>(
                    Some(v@),
                ),
                Ok(None) => self.rate.value() == Ok::<Option<Seq<char>>, CliErrorView>(None),
                Err(error) => self.rate.value() == Err::<Option<Seq<char>>, CliErrorView>(error@),
            },
    {
        self.rate.get()
    }

    /// The pitch of the profile.
    pub fn pitch(&self) -> (pitch: Result<Option<&str>, CliError>)
        ensures
            match pitch {
                Ok(Some(v)) => self.pitch.value() == Ok::<Option<Seq<char>>, CliErrorView>(
                    Some(v@),
                ),
                Ok(None) => self.pitch.value() == Ok::<Option<Seq<char>>, CliErrorView>(None),
                Err(error) => self.pitch.value() == Err::<Option<Seq<char>>, CliErrorView>(error@),
            },
    {
        self.pitch.get()
    }
}

/// What to do with the file of a new profile: write it where no such file
/// exists, write over it where that is asked for, and refuse otherwise.
pub open spec fn init_action(exists: bool, overwrite: bool) -> Option<InitAction> {
    if !exists {
        Some(InitAction::Create)
    } else if overwrite {
        Some(InitAction::Overwrite)
    } else {
        None
    }
}

impl Config {
    /// What to do with the file of a new profile.
    pub fn initialize(exists: bool, overwrite: bool) -> (action: Option<InitAction>)
        ensures
            action == init_action(exists, overwrite),
    {
        if !exists {
            Some(InitAction::Create)
        } else if overwrite {
            Some(InitAction::Overwrite)
        } else {
            None
        }
    }
}

} // verus!
