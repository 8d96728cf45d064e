//! The arguments of the command line, and what they and the profile
//! together ask for.

use vstd::prelude::*;
use vstd::string::*;
use crate::audio::{format_for, AudioFormat, AudioFormatParseError, AudioFormatParseErrorView};
use crate::auth::{as_deref, header_pairs, AuthOptions, AuthOptionsView};
use crate::cli::config::{AuthConfig, OutputConfig};
use crate::cli::{CliError, CliErrorView};
use crate::headers::{accepts_header_name, accepts_header_value, is_header_name, is_header_value};
use crate::synthesizer::clone_headers;
use crate::text::opt_chars;
use crate::types::{borrowed_chars, Role};
use crate::{
    get_rest_endpoint_by_region, get_websocket_endpoint_by_region, rest_endpoint_of,
    websocket_endpoint_of,
};

verus! {

/// Which synthesizer is used.
#[derive(Debug, Clone, Copy, PartialEq, Eq, Structural)]
pub enum SynthesizerMode {
    Rest,
    Websocket,
}

/// The container of the audio.
#[derive(Debug, Clone, Copy, PartialEq, Eq, Structural)]
pub enum ContainerFormat {
    Mp3,
    Ogg,
    Webm,
    Wav,
}

impl ContainerFormat {
    /// The container's name.
    pub open spec fn name(self) -> Seq<char> {
        match self {
            ContainerFormat::Mp3 => "mp3"@,
            ContainerFormat::Ogg => "ogg"@,
            ContainerFormat::Webm => "webm"@,
            ContainerFormat::Wav => "wav"@,
        }
    }

    /// The container's name.
    pub fn as_str(&self) -> (name: &'static str)
        ensures
            name@ == self.name(),
    {
        match self {
            ContainerFormat::Mp3 => "mp3",
            ContainerFormat::Ogg => "ogg",
            ContainerFormat::Webm => "webm",
            ContainerFormat::Wav => "wav",
        }
    }
}

impl Default for ContainerFormat {
    fn default() -> (container: ContainerFormat)
        ensures
            container == ContainerFormat::Wav,
    {
        ContainerFormat::Wav
    }
}

impl Default for SynthesizerMode {
    fn default() -> (mode: SynthesizerMode)
        ensures
            mode == SynthesizerMode::Rest,
    {
        SynthesizerMode::Rest
    }
}

/// Which profile to use.
#[derive(Debug)]
pub struct ProfileArgs {
    pub no_profile: bool,
    pub profile: Option<String>,
}

/// Which profile is to be loaded.
#[derive(Debug, PartialEq, Eq)]
pub enum ProfileChoice<'a> {
    /// None at all.
    NoProfile,
    /// The profile in the home directory, if there is one.
    Default,
    /// The profile at this path.
    Path(&'a str),
}

impl ProfileArgs {
    /// Which profile is to be loaded: none where no profile is asked for,
    /// else the one that is named, else the one in the home directory.
    pub fn load_profile(&self) -> (choice: ProfileChoice<'_>)
        ensures
            match choice {
                ProfileChoice::NoProfile => self.no_profile,
                ProfileChoice::Default => !self.no_profile && self.profile is None,
                ProfileChoice::Path(path) => !self.no_profile && opt_chars(self.profile) == Some(
                    path@,
                ),
            },
    {
        if self.no_profile {
            ProfileChoice::NoProfile
        } else {
            match &self.profile {
                Some(path) => ProfileChoice::Path(path.as_str()),
                None => ProfileChoice::Default,
            }
        }
    }
}

/// How to authenticate, as the command line says it.
#[derive(Debug, Clone)]
pub struct AuthArgs {
    pub endpoint: Option<String>,
    pub region: Option<String>,
    pub token: Option<String>,
    pub key: Option<String>,
    pub headers: Vec<(String, String)>,
    pub proxy: Option<String>,
}

/// Where the input comes from.
#[derive(Debug)]
pub struct InputArgs {
    pub file: Option<String>,
    pub encoding: Option<String>,
    pub mode: Option<SynthesizerMode>,
}

/// Where the output goes, and in which format.
#[derive(Debug)]
pub struct OutputArgs {
    pub output: Option<String>,
    pub quality: Option<i32>,
    pub container_format: Option<ContainerFormat>,
    pub format: Option<AudioFormat>,
    pub overwrite: bool,
}

/// What to say, and how.
#[derive(Debug)]
pub struct TextArgs {
    pub text: Option<String>,
    pub pitch: Option<String>,
    pub rate: Option<String>,
    pub style: Option<String>,
    pub role: Option<Role>,
    /// The style degree, as it is written into the markup.
    pub style_degree: Option<String>,
    pub voice: Option<String>,
    pub locale: Option<String>,
    pub no_rich_ssml: bool,
}

/// The first of two optional texts that is there.
pub open spec fn first_of(first: Option<Seq<char>>, second: Option<Seq<char>>) -> Option<Seq<char>> {
    match first {
        Some(text) => Some(text),
        None => second,
    }
}

/// The endpoint of a region for a synthesizer.
pub open spec fn region_endpoint(region: Seq<char>, mode: SynthesizerMode) -> Seq<char> {
    match mode {
        SynthesizerMode::Websocket => websocket_endpoint_of(region),
        SynthesizerMode::Rest => rest_endpoint_of(region),
    }
}

/// The endpoint that arguments and profile ask for: the endpoint argument,
/// else the endpoint of the region argument, else the endpoint of the
/// profile, else the default endpoint, if there is one.
pub open spec fn resolved_endpoint(
    args: AuthArgs,
    config: Option<AuthConfig>,
    mode: SynthesizerMode,
    default_endpoint: Option<Seq<char>>,
) -> Option<Seq<char>> {
    match (args.endpoint, args.region, config) {
        (Some(endpoint), _, _) => Some(endpoint@),
        (None, Some(region), _) => Some(region_endpoint(region@, mode)),
        (None, None, Some(AuthConfig { endpoint_config: Some(endpoint), .. })) => Some(
            endpoint.url(mode),
        ),
        _ => default_endpoint,
    }
}

/// The index of the first header whose name or value cannot stand as one.
pub open spec fn first_invalid_header(headers: Seq<(Seq<char>, Seq<char>)>) -> Option<int>
    decreases headers.len(),
{
    if headers.len() == 0 {
        None
    } else if !is_header_name(headers[0].0) || !is_header_value(headers[0].1) {
        Some(0)
    } else {
        match first_invalid_header(headers.drop_first()) {
            Some(i) => Some(i + 1),
            None => None,
        }
    }
}

/// The error for a header that cannot stand: its name, where the name
/// cannot, else its value.
pub open spec fn invalid_header_error(header: (Seq<char>, Seq<char>)) -> CliErrorView {
    if !is_header_name(header.0) {
        CliErrorView::InvalidHeaderName(header.0)
    } else {
        CliErrorView::InvalidHeaderValue(header.1)
    }
}

/// The headers of the profile, if it has some.
pub open spec fn profile_headers(config: Option<AuthConfig>) -> Option<Seq<(Seq<char>, Seq<char>)>> {
    match config {
        Some(AuthConfig { headers: Some(headers), .. }) => Some(header_pairs(headers@)),
        _ => None,
    }
}

/// The proxy of the profile, if it has one.
pub open spec fn profile_proxy(config: Option<AuthConfig>) -> Option<Seq<char>> {
    match config {
        Some(c) => opt_chars(c.proxy),
        None => None,
    }
}

/// The token of the profile, if it has one.
pub open spec fn profile_token(config: Option<AuthConfig>) -> Option<Seq<char>> {
    match config {
        Some(c) => opt_chars(c.token),
        None => None,
    }
}

/// The key of the profile, if it has one.
pub open spec fn profile_key(config: Option<AuthConfig>) -> Option<Seq<char>> {
    match config {
        Some(c) => opt_chars(c.key),
        None => None,
    }
}

/// The options that arguments, environment and profile ask for.
///
/// An argument wins over the profile. The proxy of the arguments wins over
/// that of the environment, which wins over that of the profile. The
/// headers of the profile come before those of the arguments, and each of
/// them must be able to stand as a header.
pub open spec fn resolved_auth(
    args: AuthArgs,
    config: Option<AuthConfig>,
    mode: SynthesizerMode,
    env_proxy: Option<Seq<char>>,
    default_endpoint: Option<Seq<char>>,
) -> Result<AuthOptionsView, CliErrorView> {
    match resolved_endpoint(args, config, mode, default_endpoint) {
        None => Err(CliErrorView::NoEndpoint),
        Some(endpoint) => match profile_headers(config) {
            Some(headers) if first_invalid_header(headers) is Some => Err(
                invalid_header_error(headers[first_invalid_header(headers).unwrap()]),
            ),
            from_profile => Ok(
                AuthOptionsView {
                    endpoint,
                    token: first_of(opt_chars(args.token), profile_token(config)),
                    key: first_of(opt_chars(args.key), profile_key(config)),
                    headers: match from_profile {
                        Some(headers) => headers + header_pairs(args.headers@),
                        None => header_pairs(args.headers@),
                    },
                    proxy: first_of(
                        opt_chars(args.proxy),
                        first_of(env_proxy, profile_proxy(config)),
                    ),
                },
            ),
        },
    }
}

/// The headers, if each of them can stand as a header.
pub fn checked_headers(headers: &[(String, String)]) -> (checked: Result<
    Vec<(String, String)>,
    CliError,
>)
    ensures
        match checked {
            Ok(copy) => first_invalid_header(header_pairs(headers@)) is None && header_pairs(copy@)
                == header_pairs(headers@),
            Err(error) => first_invalid_header(header_pairs(headers@)) is Some && error@
                == invalid_header_error(
                header_pairs(headers@)[first_invalid_header(header_pairs(headers@)).unwrap()],
            ),
        },
{
    let ghost all = header_pairs(headers@);
    let mut i: usize = 0;
    assert(all.skip(0) =~= all);
    while i < headers.len()
        invariant
            i <= headers@.len(),
            all == header_pairs(headers@),
            first_invalid_header(all) == match first_invalid_header(all.skip(i as int)) {
                Some(k) => Some(k + i),
                None => None,
            },
        decreases headers@.len() - i,
    {
        proof {
            assert(all.skip(i as int)[0] == all[i as int]);
            assert(all.skip(i as int).drop_first() =~= all.skip(i + 1));
        }
        let header = &headers[i];
        if !accepts_header_name(header.0.as_str()) {
            return Err(CliError::InvalidHeaderName(header.0.clone()));
        }
        if !accepts_header_value(header.1.as_str()) {
            return Err(CliError::InvalidHeaderValue(header.1.clone()));
        }
        i += 1;
    }
    Ok(clone_headers(headers))
}

impl AuthArgs {
    /// The options that the arguments ask for, together with the profile,
    /// the proxy of the environment and the default endpoint.
    pub fn to_auth_options(
        &self,
        auth_config: Option<&AuthConfig>,
        mode: SynthesizerMode,
        env_proxy: Option<&str>,
        default_endpoint: Option<&str>,
    ) -> (options: Result<AuthOptions, CliError>)
        ensures
            match options {
                Ok(auth) => resolved_auth(
                    *self,
                    match auth_config {
                        Some(c) => Some(*c),
                        None => None,
                    },
                    mode,
                    borrowed_chars(env_proxy),
                    borrowed_chars(default_endpoint),
                ) == Ok::<AuthOptionsView, CliErrorView>(auth@),
                Err(error) => resolved_auth(
                    *self,
                    match auth_config {
                        Some(c) => Some(*c),
                        None => None,
                    },
                    mode,
                    borrowed_chars(env_proxy),
                    borrowed_chars(default_endpoint),
                ) == Err::<AuthOptionsView, CliErrorView>(error@),
            },
    {
        let endpoint: String = match (&self.endpoint, &self.region, auth_config) {
            (Some(endpoint), _, _) => endpoint.clone(),
            (None, Some(region), _) => match mode {
                SynthesizerMode::Websocket => get_websocket_endpoint_by_region(region.as_str()),
                SynthesizerMode::Rest => get_rest_endpoint_by_region(region.as_str()),
            },
            (None, None, Some(AuthConfig { endpoint_config: Some(endpoint), .. })) => {
                endpoint.to_cow_str(mode)
            },
            _ => match default_endpoint {
                Some(endpoint) => String::from_str(endpoint),
                None => {
                    return Err(CliError::NoEndpoint);
                },
            },
        };
        let headers: Vec<(String, String)> = match auth_config {
            Some(AuthConfig { headers: Some(headers), .. }) => {
                let mut all = match checked_headers(headers.as_slice()) {
                    Ok(all) => all,
                    Err(error) => {
                        return Err(error);
                    },
                };
                let mut own = clone_headers(self.headers.as_slice());
                let ghost first = header_pairs(all@);
                let ghost second = header_pairs(own@);
                all.append(&mut own);
                assert(header_pairs(all@) =~= first + second);
                all
            },
            _ => clone_headers(self.headers.as_slice()),
        };
        let token: Option<&str> = match (as_deref(&self.token), auth_config) {
            (Some(token), _) => Some(token),
            (None, Some(config)) => as_deref(&config.token),
            (None, None) => None,
        };
        let key: Option<&str> = match (as_deref(&self.key), auth_config) {
            (Some(key), _) => Some(key),
            (None, Some(config)) => as_deref(&config.key),
            (None, None) => None,
        };
        let proxy: Option<&str> = match (as_deref(&self.proxy), env_proxy, auth_config) {
            (Some(proxy), _, _) => Some(proxy),
            (None, Some(proxy), _) => Some(proxy),
            (None, None, Some(config)) => as_deref(&config.proxy),
            (None, None, None) => None,
        };
        Ok(
            AuthOptions::builder(endpoint.as_str()).headers(headers).optional_token(
                token,
            ).optional_key(key).optional_proxy(proxy).build(),
        )
    }
}

/// The quality of a profile or an argument as a quality level: its low
/// eight bits.
pub open spec fn quality_level(quality: i32) -> i8 {
    quality as i8
}

/// The container that is meant where one may be named.
pub open spec fn container_or_default(container: Option<ContainerFormat>) -> ContainerFormat {
    match container {
        Some(c) => c,
        None => ContainerFormat::Wav,
    }
}

/// The quality that is meant where one may be named.
pub open spec fn quality_or_default(quality: Option<i32>) -> i32 {
    match quality {
        Some(q) => q,
        None => 0i32,
    }
}

/// The format that arguments and profile ask for.
///
/// A format argument wins. Else container and quality arguments choose the
/// format, exactly where both are given and the quality is given, and by
/// the closest quality where only the container is given, with the quality
/// of the profile. Without any of the three arguments the profile decides:
/// its format, else its container and quality, by the closest quality.
pub open spec fn resolved_format(args: OutputArgs, config: Option<OutputConfig>) -> Result<
    AudioFormat,
    AudioFormatParseErrorView,
> {
    let (profile_format, profile_container, profile_quality) = match config {
        Some(c) => (c.format, c.container, c.quality),
        None => (None, None, None),
    };
    match (args.format, args.container_format, args.quality) {
        (Some(format), _, _) => Ok(format),
        (None, Some(container), Some(quality)) => format_for(
            container.name(),
            quality_level(quality),
            false,
        ),
        (None, Some(container), None) => format_for(
            container.name(),
            quality_level(quality_or_default(profile_quality)),
            true,
        ),
        (None, None, Some(quality)) => format_for(
            container_or_default(profile_container).name(),
            quality_level(quality),
            false,
        ),
        (None, None, None) => match profile_format {
            Some(format) => Ok(format),
            None => format_for(
                container_or_default(profile_container).name(),
                quality_level(quality_or_default(profile_quality)),
                true,
            ),
        },
    }
}

impl OutputArgs {
    /// The format that the arguments ask for, together with the profile.
    pub fn get_audio_format(&self, config: Option<&OutputConfig>) -> (format: Result<
        AudioFormat,
        AudioFormatParseError,
    >)
        ensures
            match format {
                Ok(chosen) => resolved_format(
                    *self,
                    match config {
                        Some(c) => Some(*c),
                        None => None,
                    },
                ) == Ok::<AudioFormat, AudioFormatParseErrorView>(chosen),
                Err(error) => resolved_format(
                    *self,
                    match config {
                        Some(c) => Some(*c),
                        None => None,
                    },
                ) == Err::<AudioFormat, AudioFormatParseErrorView>(error@),
            },
    {
        let (profile_format, profile_container, profile_quality) = match config {
            Some(c) => (c.format, c.container, c.quality),
            None => (None, None, None),
        };
        let profile_container = match profile_container {
            Some(c) => c,
            None => ContainerFormat::Wav,
        };
        let profile_quality = match profile_quality {
            Some(q) => q,
            None => 0,
        };
        match (self.format, self.container_format, self.quality) {
            (Some(format), _, _) => Ok(format),
            (None, Some(container), Some(quality)) => AudioFormat::from_container_and_quality(
                container.as_str(),
                #[verifier::truncate]
                (quality as i8),
                false,
            ),
            (None, Some(container), None) => AudioFormat::from_container_and_quality(
                container.as_str(),
                #[verifier::truncate]
                (profile_quality as i8),
                true,
            ),
            (None, None, Some(quality)) => AudioFormat::from_container_and_quality(
                profile_container.as_str(),
                #[verifier::truncate]
                (quality as i8),
                false,
            ),
            (None, None, None) => match profile_format {
                Some(format) => Ok(format),
                None => AudioFormat::from_container_and_quality(
                    profile_container.as_str(),
                    #[verifier::truncate]
                    (profile_quality as i8),
                    true,
                ),
            },
        }
    }
}

} // verus!
