//! The decisions of the command line: which synthesizer, which voice, which
//! format, how loud the log. Reading arguments, files and the environment
//! is the caller's part.

use vstd::prelude::*;
use vstd::string::*;
use crate::auth::as_deref;
use crate::cli::args::{InputArgs, SynthesizerMode, TextArgs};
use crate::cli::config::{Config, TextConfig};
use crate::text::opt_chars;
use crate::types::{
    default_voice, get_default_voice_by_locale, RichSsmlOptions, RichSsmlOptionsView, Role,
    TextOptions, TextOptionsView,
};

pub mod args;
pub mod config;

verus! {

/// Why the arguments and the profile cannot be followed.
#[derive(Debug)]
pub enum CliError {
    /// Neither arguments nor profile name an endpoint.
    NoEndpoint,
    /// A header of the profile has a name that cannot be one.
    InvalidHeaderName(String),
    /// A header of the profile has a value that cannot be one.
    InvalidHeaderValue(String),
    /// The locale has no default voice.
    NoDefaultVoice(String),
    /// The profile holds a value that cannot be used, with the reason.
    InvalidProfile(String),
}

/// The mathematical value of a [`CliError`].
#[verifier::ext_equal]
pub ghost enum CliErrorView {
    NoEndpoint,
    InvalidHeaderName(Seq<char>),
    InvalidHeaderValue(Seq<char>),
    NoDefaultVoice(Seq<char>),
    InvalidProfile(Seq<char>),
}

impl View for CliError {
    type V = CliErrorView;

    open spec fn view(&self) -> CliErrorView {
        match self {
            CliError::NoEndpoint => CliErrorView::NoEndpoint,
            CliError::InvalidHeaderName(name) => CliErrorView::InvalidHeaderName(name@),
            CliError::InvalidHeaderValue(value) => CliErrorView::InvalidHeaderValue(value@),
            CliError::NoDefaultVoice(locale) => CliErrorView::NoDefaultVoice(locale@),
            CliError::InvalidProfile(reason) => CliErrorView::InvalidProfile(reason@),
        }
    }
}

impl CliErrorView {
    /// The error as one line of text.
    pub open spec fn message(self) -> Seq<char> {
        match self {
            CliErrorView::NoEndpoint => "No endpoint is specified!"@,
            CliErrorView::InvalidHeaderName(name) => "invalid HTTP header name: "@ + name,
            CliErrorView::InvalidHeaderValue(value) => "failed to parse header value: "@ + value,
            CliErrorView::NoDefaultVoice(locale) => "No default voice found for locale "@ + locale,
            CliErrorView::InvalidProfile(reason) => reason,
        }
    }
}

impl CliError {
    /// The error as one line of text.
    pub fn message(&self) -> (line: String)
        ensures
            line@ == self@.message(),
    {
        match self {
            CliError::NoEndpoint => String::from_str("No endpoint is specified!"),
            CliError::InvalidHeaderName(name) => {
                let mut line = String::from_str("invalid HTTP header name: ");
                line.append(name.as_str());
                line
            },
            CliError::InvalidHeaderValue(value) => {
                let mut line = String::from_str("failed to parse header value: ");
                line.append(value.as_str());
                line
            },
            CliError::NoDefaultVoice(locale) => {
                let mut line = String::from_str("No default voice found for locale ");
                line.append(locale.as_str());
                line
            },
            CliError::InvalidProfile(reason) => reason.clone(),
        }
    }
}

/// How much the log says.
#[derive(Debug, Clone, Copy, PartialEq, Eq, Structural)]
pub enum LogLevel {
    Warn,
    Info,
    Debug,
    Trace,
}

/// The level of a verbosity: warnings at 0, information at 1, debugging at
/// 2, and everything from 3 on.
pub open spec fn level_of(verbosity: u8) -> LogLevel {
    if verbosity == 0 {
        LogLevel::Warn
    } else if verbosity == 1 {
        LogLevel::Info
    } else if verbosity == 2 {
        LogLevel::Debug
    } else {
        LogLevel::Trace
    }
}

/// The level that arguments and profile ask for: that of the arguments
/// where they ask for any, else that of the profile, else warnings.
pub open spec fn resolved_level(verbose: u8, profile: Option<u8>) -> LogLevel {
    if verbose > 0 {
        level_of(verbose)
    } else {
        match profile {
            Some(verbosity) => level_of(verbosity),
            None => LogLevel::Warn,
        }
    }
}

/// The synthesizer that arguments and profile ask for: that of the
/// arguments, else that of the profile, else REST.
pub open spec fn resolved_mode(input: InputArgs, config: Option<Config>) -> SynthesizerMode {
    match (input.mode, config) {
        (Some(mode), _) => mode,
        (None, Some(Config { auth: Some(auth), .. })) => match auth.mode {
            Some(mode) => mode,
            None => SynthesizerMode::Rest,
        },
        _ => SynthesizerMode::Rest,
    }
}

/// The voice that arguments and profile ask for: the voice argument, else
/// the default voice of the locale argument, else the voice of the profile,
/// else the default voice of `en-US`.
pub open spec fn resolved_voice(args: TextArgs, config: Option<TextConfig>) -> Result<
    Seq<char>,
    CliErrorView,
> {
    match (args.voice, args.locale, config) {
        (Some(voice), _, _) => Ok(voice@),
        (None, Some(locale), _) => match default_voice(locale@) {
            Some(voice) => Ok(voice),
            None => Err(CliErrorView::NoDefaultVoice(locale@)),
        },
        (None, None, Some(TextConfig { voice: Some(voice), .. })) => voice.voice(),
        _ => Ok("en-US-JennyNeural"@),
    }
}

/// A pitch or rate that arguments and profile ask for: the argument, else
/// what the profile holds.
pub open spec fn resolved_value(
    argument: Option<String>,
    profile: Option<crate::cli::config::ProfileValue>,
) -> Result<Option<Seq<char>>, CliErrorView> {
    match (argument, profile) {
        (Some(value), _) => Ok(Some(value@)),
        (None, Some(held)) => held.value(),
        (None, None) => Ok(None),
    }
}

/// The rich options that arguments and profile ask for. The profile counts
/// only where rich markup is not switched off. Where neither style, role
/// nor style degree is asked for, there are no rich options.
pub open spec fn resolved_rich(args: TextArgs, config: Option<TextConfig>) -> Option<
    RichSsmlOptionsView,
> {
    let effective = if args.no_rich_ssml {
        None
    } else {
        config
    };
    let style = match (args.style, effective) {
        (Some(style), _) => Some(style@),
        (None, Some(c)) => opt_chars(c.style),
        (None, None) => None,
    };
    let role = match (args.role, effective) {
        (Some(role), _) => Some(role),
        (None, Some(c)) => c.role,
        (None, None) => None,
    };
    let style_degree = match (args.style_degree, effective) {
        (Some(degree), _) => Some(degree@),
        (None, Some(c)) => opt_chars(c.style_degree),
        (None, None) => None,
    };
    if style is Some || role is Some || style_degree is Some {
        Some(RichSsmlOptionsView { style, role, style_degree })
    } else {
        None
    }
}

/// The text options that arguments and profile ask for. The voice is
/// settled first, then the pitch, then the rate.
pub open spec fn resolved_text_options(args: TextArgs, config: Option<TextConfig>) -> Result<
    TextOptionsView,
    CliErrorView,
> {
    match resolved_voice(args, config) {
        Err(error) => Err(error),
        Ok(voice) => match resolved_value(
            args.pitch,
            match config {
                Some(c) => Some(c.pitch),
                None => None,
            },
        ) {
            Err(error) => Err(error),
            Ok(pitch) => match resolved_value(
                args.rate,
                match config {
                    Some(c) => Some(c.rate),
                    None => None,
                },
            ) {
                Err(error) => Err(error),
                Ok(rate) => Ok(
                    TextOptionsView {
                        voice,
                        pitch,
                        rate,
                        rich_ssml_options: resolved_rich(args, config),
                    },
                ),
            },
        },
    }
}

/// The level of a verbosity.
pub fn log_level_by_verbosity(verbosity: u8) -> (level: LogLevel)
    ensures
        level == level_of(verbosity),
{
    match verbosity {
        0 => LogLevel::Warn,
        1 => LogLevel::Info,
        2 => LogLevel::Debug,
        _ => LogLevel::Trace,
    }
}

/// The level that arguments and profile ask for.
pub fn get_log_level(verbose: u8, verbosity_config: Option<u8>) -> (level: LogLevel)
    ensures
        level == resolved_level(verbose, verbosity_config),
{
    match verbose {
        0 => match verbosity_config {
            Some(verbosity) => log_level_by_verbosity(verbosity),
            None => LogLevel::Warn,
        },
        v => log_level_by_verbosity(v),
    }
}

/// The synthesizer that arguments and profile ask for.
pub fn get_synthesizer_mode(input_args: &InputArgs, config: &Option<Config>) -> (mode:
    SynthesizerMode)
    ensures
        mode == resolved_mode(*input_args, *config),
{
    match (input_args.mode, config) {
        (Some(mode), _) => mode,
        (None, Some(Config { auth: Some(auth), .. })) => match auth.mode {
            Some(mode) => mode,
            None => SynthesizerMode::Rest,
        },
        _ => SynthesizerMode::Rest,
    }
}

/// The text options that arguments and profile ask for.
pub fn process_text_options(args: &TextArgs, config: Option<&TextConfig>) -> (options: Result<
    TextOptions,
    CliError,
>)
    ensures
        match options {
            Ok(chosen) => resolved_text_options(
                *args,
                match config {
                    Some(c) => Some(*c),
                    None => None,
                },
            ) == Ok::<TextOptionsView, CliErrorView>(chosen@),
            Err(error) => resolved_text_options(
                *args,
                match config {
                    Some(c) => Some(*c),
                    None => None,
                },
            ) == Err::<TextOptionsView, CliErrorView>(error@),
        },
{
    let voice: &str = match (&args.voice, &args.locale, config) {
        (Some(voice), _, _) => voice.as_str(),
        (None, Some(locale), _) => match get_default_voice_by_locale(locale.as_str()) {
            Some(voice) => voice,
            None => {
                return Err(CliError::NoDefaultVoice(locale.clone()));
            },
        },
        (None, None, Some(TextConfig { voice: Some(voice), .. })) => match voice.try_as_str() {
            Ok(voice) => voice,
            Err(error) => {
                return Err(error);
            },
        },
        _ => "en-US-JennyNeural",
    };
    let pitch: Option<&str> = match (&args.pitch, config) {
        (Some(pitch), _) => Some(pitch.as_str()),
        (None, Some(c)) => match c.pitch() {
            Ok(pitch) => pitch,
            Err(error) => {
                return Err(error);
            },
        },
        (None, None) => None,
    };
    let rate: Option<&str> = match (&args.rate, config) {
        (Some(rate), _) => Some(rate.as_str()),
        (None, Some(c)) => match c.rate() {
            Ok(rate) => rate,
            Err(error) => {
                return Err(error);
            },
        },
        (None, None) => None,
    };
    let effective: Option<&TextConfig> = if args.no_rich_ssml {
        None
    } else {
        config
    };
    let style: Option<&str> = match (&args.style, effective) {
        (Some(style), _) => Some(style.as_str()),
        (None, Some(c)) => as_deref(&c.style),
        (None, None) => None,
    };
    let role: Option<Role> = match (args.role, effective) {
        (Some(role), _) => Some(role),
        (None, Some(c)) => c.role,
        (None, None) => None,
    };
    let style_degree: Option<&str> = match (&args.style_degree, effective) {
        (Some(degree), _) => Some(degree.as_str()),
        (None, Some(c)) => as_deref(&c.style_degree),
        (None, None) => None,
    };
    let rich = if style.is_some() || role.is_some() || style_degree.is_some() {
        Some(
            RichSsmlOptions::builder().optional_role(role).optional_style(
                style,
            ).optional_style_degree(style_degree).build(),
        )
    } else {
        None
    };
    Ok(
        TextOptions::builder().voice(voice).optional_pitch(pitch).optional_rate(
            rate,
        ).optional_rich_ssml_options(rich).build(),
    )
}

/// What to do with the file that the audio goes to.
#[derive(Debug, Clone, Copy, PartialEq, Eq, Structural)]
pub enum OutputAction {
    /// Create the file, or empty the one that exists.
    Create,
    /// Create the file; it must not exist by then.
    CreateNew,
}

/// What to do with the file that the audio goes to: write over it where
/// that is asked for, create it where it does not exist, and refuse
/// otherwise.
pub open spec fn output_action(exists: bool, overwrite: bool) -> Option<OutputAction> {
    if overwrite {
        Some(OutputAction::Create)
    } else if !exists {
        Some(OutputAction::CreateNew)
    } else {
        None
    }
}

/// What to do with the file that the audio goes to.
pub fn process_output(exists: bool, overwrite: bool) -> (action: Option<OutputAction>)
    ensures
        action == output_action(exists, overwrite),
{
    match (exists, overwrite) {
        (_, true) => Some(OutputAction::Create),
        (false, false) => Some(OutputAction::CreateNew),
        (true, false) => None,
    }
}

} // verus!
