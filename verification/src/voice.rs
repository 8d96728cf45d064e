//! The voices of the service, and how the list of them is asked for.

use vstd::prelude::*;
use vstd::string::*;
use crate::audio::AudioFormat;
use crate::auth::{as_deref, header_pairs};
use crate::headers::{accepts_header_value, is_header_value};
use crate::synthesizer::clone_headers;
use crate::text::{decimal, opt_chars, push_decimal, str_eq};
use crate::types::borrowed_chars;
use crate::ORIGIN;

verus! {

/// The voice list of the trial service.
pub const TRIAL_VOICE_LIST_URL: &'static str =
    "https://eastus.api.speech.microsoft.com/cognitiveservices/voices/list";

/// Voice information
#[derive(Debug, Clone)]
pub struct Voice {
    pub display_name: Option<String>,
    pub friendly_name: Option<String>,
    pub gender: String,
    pub local_name: Option<String>,
    pub locale: String,
    pub locale_name: Option<String>,
    pub name: String,
    pub sample_rate_hertz: Option<String>,
    pub suggested_codec: Option<AudioFormat>,
    pub short_name: String,
    pub status: String,
    pub voice_type: Option<String>,
    pub words_per_minute: Option<String>,
    pub style_list: Option<Vec<String>>,
    pub role_play_list: Option<Vec<String>>,
}

/// Where the list of voices is asked for.
#[non_exhaustive]
pub enum VoiceListAPIEndpoint<'a> {
    Region(&'a str),
    Url(&'a str),
}

/// How the request for the list of voices authenticates.
#[non_exhaustive]
pub enum VoiceListAPIAuth<'a> {
    SubscriptionKey(&'a str),
    AuthToken(&'a str),
}

/// The service answered the request for the list of voices with a status
/// that reports a failure.
#[derive(Debug)]
#[non_exhaustive]
pub struct VoiceListAPIResponseStatusError {
    pub status: u16,
    /// The underlying cause, as text.
    pub source: Option<String>,
}

/// Why the list of voices could not be had.
#[derive(Debug)]
#[non_exhaustive]
pub struct VoiceListAPIError {
    pub kind: VoiceListAPIErrorKind,
    /// The underlying cause, as text.
    pub source: Option<String>,
}

#[derive(Debug, Clone, Copy, PartialEq, Eq, Structural)]
pub enum VoiceListAPIErrorKind {
    ProxyError,
    RequestError,
    ParseError,
    ResponseError,
}

/// The texts of a list of strings.
pub open spec fn texts(list: Seq<String>) -> Seq<Seq<char>> {
    Seq::new(list.len(), |i: int| list[i]@)
}

/// The texts of an optional list of strings.
pub open spec fn opt_texts(list: Option<Vec<String>>) -> Option<Seq<Seq<char>>> {
    match list {
        Some(items) => Some(texts(items@)),
        None => None,
    }
}

/// How `std` writes a list of strings for debugging: in square brackets,
/// each string quoted and escaped.
pub uninterp spec fn debug_list_text(list: Seq<Seq<char>>) -> Seq<char>;

/// The debug form of a list of strings, as `format!("{:?}", list)` gives
/// it. It is a function of the strings alone.
#[verifier::external_body]
fn debug_list(list: &Vec<String>) -> (text: String)
    ensures
        text@ == debug_list_text(texts(list@)),
{
    format!("{:?}", list)
}

/// The URL of the voice list of a region.
pub open spec fn voice_list_url(region: Seq<char>) -> Seq<char> {
    "https://"@ + region + ".tts.speech.microsoft.com/cognitiveservices/voices/list"@
}

impl<'a> VoiceListAPIEndpoint<'a> {
    /// The URL of the endpoint: the URL itself, or the URL of the region's
    /// voice list.
    pub open spec fn url(self) -> Seq<char> {
        match self {
            VoiceListAPIEndpoint::Url(url) => url@,
            VoiceListAPIEndpoint::Region(region) => voice_list_url(region@),
        }
    }

    pub fn get_endpoint_url(&self) -> (url: String)
        ensures
            url@ == self.url(),
    {
        match self {
            VoiceListAPIEndpoint::Url(url) => String::from_str(url),
            VoiceListAPIEndpoint::Region(region) => {
                let mut url = String::from_str("https://");
                url.append(region);
                url.append(".tts.speech.microsoft.com/cognitiveservices/voices/list");
                url
            },
        }
    }
}

/// The header by which a request for the list of voices authenticates: the
/// subscription key as `Ocp-Apim-Subscription-Key`, the token as
/// `Authorization`.
pub open spec fn auth_header(auth: VoiceListAPIAuth<'_>) -> (Seq<char>, Seq<char>) {
    match auth {
        VoiceListAPIAuth::SubscriptionKey(key) => ("Ocp-Apim-Subscription-Key"@, key@),
        VoiceListAPIAuth::AuthToken(token) => ("Authorization"@, token@),
    }
}

/// The headers of a request for the list of voices, if the key or token
/// can stand as a header value: the header that authenticates, then the
/// additional headers where some are given, else `Origin` where the URL is
/// that of the trial service.
pub open spec fn voice_list_headers(
    url: Seq<char>,
    auth: Option<VoiceListAPIAuth<'_>>,
    additional: Option<Seq<(Seq<char>, Seq<char>)>>,
) -> Option<Seq<(Seq<char>, Seq<char>)>> {
    let first = match auth {
        Some(auth) => seq![auth_header(auth)],
        None => Seq::empty(),
    };
    let rest = match additional {
        Some(headers) => headers,
        None => if url == TRIAL_VOICE_LIST_URL@ {
            seq![("Origin"@, ORIGIN@)]
        } else {
            Seq::empty()
        },
    };
    if auth is Some && !is_header_value(auth_header(auth.unwrap()).1) {
        None
    } else {
        Some(first + rest)
    }
}

/// The name of the side that a failure status blames: the server from 500
/// on, else the client.
pub open spec fn blamed_side(status: u16) -> Seq<char> {
    if status >= 500 {
        "server"@
    } else {
        "client"@
    }
}

impl VoiceListAPIResponseStatusError {
    /// The error for a status, with the cause as text.
    pub fn new(status: u16, cause: String) -> (error: Self)
        ensures
            error.status == status,
            opt_chars(error.source) == Some(cause@),
    {
        VoiceListAPIResponseStatusError { status, source: Some(cause) }
    }

    /// The error as one line of text.
    pub open spec fn spec_message(self) -> Seq<char> {
        "failed to retrieve voice list because of "@ + blamed_side(self.status)
            + " side error: status "@ + decimal(self.status as nat)
    }

    /// The error as one line of text.
    pub fn message(&self) -> (line: String)
        ensures
            line@ == self.spec_message(),
    {
        let mut line = String::from_str("failed to retrieve voice list because of ");
        if self.status >= 500 {
            line.append("server");
        } else {
            line.append("client");
        }
        line.append(" side error: status ");
        push_decimal(&mut line, self.status as u64);
        line
    }
}

impl VoiceListAPIErrorKind {
    /// The kind's name.
    pub open spec fn name(self) -> Seq<char> {
        match self {
            VoiceListAPIErrorKind::ProxyError => "ProxyError"@,
            VoiceListAPIErrorKind::RequestError => "RequestError"@,
            VoiceListAPIErrorKind::ParseError => "ParseError"@,
            VoiceListAPIErrorKind::ResponseError => "ResponseError"@,
        }
    }

    /// The kind's name.
    pub fn as_str(&self) -> (name: &'static str)
        ensures
            name@ == self.name(),
    {
        match self {
            VoiceListAPIErrorKind::ProxyError => "ProxyError",
            VoiceListAPIErrorKind::RequestError => "RequestError",
            VoiceListAPIErrorKind::ParseError => "ParseError",
            VoiceListAPIErrorKind::ResponseError => "ResponseError",
        }
    }
}

impl VoiceListAPIError {
    /// An error of the given kind, with the cause as text.
    pub fn new(kind: VoiceListAPIErrorKind, cause: String) -> (error: Self)
        ensures
            error.kind == kind,
            opt_chars(error.source) == Some(cause@),
    {
        VoiceListAPIError { kind, source: Some(cause) }
    }

    /// The error as one line of text.
    pub fn message(&self) -> (line: String)
        ensures
            line@ == "error while retrieving voice list: "@ + self.kind.name(),
    {
        let mut line = String::from_str("error while retrieving voice list: ");
        line.append(self.kind.as_str());
        line
    }
}

/// One line of a voice's description: a label, a colon and the value.
pub open spec fn labelled(label: Seq<char>, value: Seq<char>) -> Seq<char> {
    label + ": "@ + value + "\n"@
}

/// The line of a value that may be missing: nothing where it is.
pub open spec fn labelled_opt(label: Seq<char>, value: Option<Seq<char>>) -> Seq<char> {
    match value {
        Some(v) => labelled(label, v),
        None => Seq::empty(),
    }
}

/// The name of the codec that a voice suggests.
pub open spec fn codec_token(codec: Option<AudioFormat>) -> Option<Seq<char>> {
    match codec {
        Some(format) => Some(format.token()),
        None => None,
    }
}

fn push_labelled(out: &mut String, label: &str, value: &str)
    ensures
        final(out)@ == old(out)@ + labelled(label@, value@),
{
    out.append(label);
    out.append(": ");
    out.append(value);
    out.append("\n");
    assert(final(out)@ =~= old(out)@ + labelled(label@, value@));
}

fn push_labelled_opt(out: &mut String, label: &str, value: Option<&str>)
    ensures
        final(out)@ == old(out)@ + labelled_opt(label@, borrowed_chars(value)),
{
    if let Some(value) = value {
        push_labelled(out, label, value);
    } else {
        assert(old(out)@ + Seq::<char>::empty() =~= old(out)@);
    }
}

impl Voice {
    /// The voice's description, line by line, under a heading.
    pub open spec fn description(self, heading: Seq<char>) -> Seq<char> {
        heading + "\n"@ + labelled_opt("Friendly name"@, opt_chars(self.friendly_name))
            + labelled_opt("Display name"@, opt_chars(self.display_name)) + labelled_opt(
            "Local name"@,
            opt_chars(self.local_name),
        ) + labelled_opt("Locale name"@, opt_chars(self.locale_name)) + labelled(
            "Locale"@,
            self.locale@,
        ) + labelled("Gender"@, self.gender@) + labelled("Short name"@, self.short_name@)
            + labelled_opt("Voice type"@, opt_chars(self.voice_type)) + labelled(
            "Status"@,
            self.status@,
        ) + labelled_opt("Suggested codec"@, codec_token(self.suggested_codec)) + (
        match self.sample_rate_hertz {
            Some(hz) => labelled("Sample rate"@, hz@ + "Hz"@),
            None => Seq::empty(),
        }) + labelled(
            "Words per minute"@,
            match self.words_per_minute {
                Some(wpm) => wpm@,
                None => "N/A"@,
            },
        ) + (match self.style_list {
            Some(styles) => labelled("Styles"@, debug_list_text(texts(styles@))),
            None => Seq::empty(),
        }) + (match self.role_play_list {
            Some(roles) => labelled("Roles"@, debug_list_text(texts(roles@))),
            None => Seq::empty(),
        })
    }

    /// The voice's description under a heading, which is the voice's name
    /// as the caller wants it shown.
    pub fn describe(&self, heading: &str) -> (text: String)
        ensures
            text@ == self.description(heading@),
    {
        let mut text = String::from_str(heading);
        text.append("\n");
        push_labelled_opt(&mut text, "Friendly name", self.friendly_name());
        push_labelled_opt(&mut text, "Display name", self.display_name());
        push_labelled_opt(&mut text, "Local name", self.local_name());
        push_labelled_opt(&mut text, "Locale name", self.locale_name());
        push_labelled(&mut text, "Locale", self.locale.as_str());
        push_labelled(&mut text, "Gender", self.gender.as_str());
        push_labelled(&mut text, "Short name", self.short_name.as_str());
        push_labelled_opt(&mut text, "Voice type", self.voice_type());
        push_labelled(&mut text, "Status", self.status.as_str());
        let codec: Option<&str> = match self.suggested_codec {
            Some(format) => Some(format.as_str()),
            None => None,
        };
        push_labelled_opt(&mut text, "Suggested codec", codec);
        let ghost before_rate = text@;
        if let Some(hz) = self.sample_rate_hertz() {
            let mut rate = String::from_str(hz);
            rate.append("Hz");
            push_labelled(&mut text, "Sample rate", rate.as_str());
        } else {
            assert(before_rate + Seq::<char>::empty() =~= before_rate);
        }
        let words: &str = match self.words_per_minute() {
            Some(wpm) => wpm,
            None => "N/A",
        };
        push_labelled(&mut text, "Words per minute", words);
        let ghost before_styles = text@;
        if let Some(styles) = &self.style_list {
            let listed = debug_list(styles);
            push_labelled(&mut text, "Styles", listed.as_str());
        } else {
            assert(before_styles + Seq::<char>::empty() =~= before_styles);
        }
        let ghost before_roles = text@;
        if let Some(roles) = &self.role_play_list {
            let listed = debug_list(roles);
            push_labelled(&mut text, "Roles", listed.as_str());
        } else {
            assert(before_roles + Seq::<char>::empty() =~= before_roles);
        }
        text
    }

    /// The headers of a request for the list of voices.
    ///
    /// A key or token that cannot stand as a header value is a request
    /// error.
    pub fn request_headers(
        url: &str,
        auth: Option<VoiceListAPIAuth<'_>>,
        additional: Option<&[(String, String)]>,
    ) -> (headers: Result<Vec<(String, String)>, VoiceListAPIError>)
        ensures
            match headers {
                Ok(list) => voice_list_headers(
                    url@,
                    auth,
                    match additional {
                        Some(more) => Some(header_pairs(more@)),
                        None => None,
                    },
                ) == Some(header_pairs(list@)),
                Err(error) => error.kind == VoiceListAPIErrorKind::RequestError
                    && voice_list_headers(
                    url@,
                    auth,
                    match additional {
                        Some(more) => Some(header_pairs(more@)),
                        None => None,
                    },
                ) is None,
            },
    {
        let mut headers: Vec<(String, String)> = Vec::new();
        match auth {
            Some(VoiceListAPIAuth::SubscriptionKey(key)) => {
                if !accepts_header_value(key) {
                    return Err(
                        VoiceListAPIError::new(
                            VoiceListAPIErrorKind::RequestError,
                            String::from_str("failed to parse header value"),
                        ),
                    );
                }
                headers.push((String::from_str("Ocp-Apim-Subscription-Key"), key.to_owned()));
            },
            Some(VoiceListAPIAuth::AuthToken(token)) => {
                if !accepts_header_value(token) {
                    return Err(
                        VoiceListAPIError::new(
                            VoiceListAPIErrorKind::RequestError,
                            String::from_str("failed to parse header value"),
                        ),
                    );
                }
                headers.push((String::from_str("Authorization"), token.to_owned()));
            },
            None => {},
        }
        let ghost first = header_pairs(headers@);
        assert(first =~= match auth {
            Some(auth) => seq![auth_header(auth)],
            None => Seq::empty(),
        });
        match additional {
            Some(more) => {
                let mut copy = clone_headers(more);
                let ghost copied = header_pairs(copy@);
                headers.append(&mut copy);
                assert(header_pairs(headers@) =~= first + copied);
            },
            None => {
                if str_eq(url, TRIAL_VOICE_LIST_URL) {
                    headers.push((String::from_str("Origin"), String::from_str(ORIGIN)));
                    assert(header_pairs(headers@) =~= first + seq![("Origin"@, ORIGIN@)]);
                } else {
                    assert(header_pairs(headers@) =~= first + Seq::empty());
                }
            },
        }
        Ok(headers)
    }

    pub fn display_name(&self) -> (display_name: Option<&str>)
        ensures
            borrowed_chars(display_name) == opt_chars(self.display_name),
    {
        as_deref(&self.display_name)
    }

    pub fn gender(&self) -> (gender: &str)
        ensures
            gender@ == self.gender@,
    {
        self.gender.as_str()
    }

    pub fn local_name(&self) -> (local_name: Option<&str>)
        ensures
            borrowed_chars(local_name) == opt_chars(self.local_name),
    {
        as_deref(&self.local_name)
    }

    pub fn locale(&self) -> (locale: &str)
        ensures
            locale@ == self.locale@,
    {
        self.locale.as_str()
    }

    pub fn locale_name(&self) -> (locale_name: Option<&str>)
        ensures
            borrowed_chars(locale_name) == opt_chars(self.locale_name),
    {
        as_deref(&self.locale_name)
    }

    pub fn name(&self) -> (name: &str)
        ensures
            name@ == self.name@,
    {
        self.name.as_str()
    }

    pub fn sample_rate_hertz(&self) -> (sample_rate_hertz: Option<&str>)
        ensures
            borrowed_chars(sample_rate_hertz) == opt_chars(self.sample_rate_hertz),
    {
        as_deref(&self.sample_rate_hertz)
    }

    pub fn short_name(&self) -> (short_name: &str)
        ensures
            short_name@ == self.short_name@,
    {
        self.short_name.as_str()
    }

    pub fn status(&self) -> (status: &str)
        ensures
            status@ == self.status@,
    {
        self.status.as_str()
    }

    pub fn voice_type(&self) -> (voice_type: Option<&str>)
        ensures
            borrowed_chars(voice_type) == opt_chars(self.voice_type),
    {
        as_deref(&self.voice_type)
    }

    pub fn words_per_minute(&self) -> (words_per_minute: Option<&str>)
        ensures
            borrowed_chars(words_per_minute) == opt_chars(self.words_per_minute),
    {
        as_deref(&self.words_per_minute)
    }

    pub fn style_list(&self) -> (style_list: Option<&[String]>)
        ensures
            match style_list {
                Some(styles) => opt_texts(self.style_list) == Some(texts(styles@)),
                None => self.style_list is None,
            },
    {
        match &self.style_list {
            Some(styles) => Some(styles.as_slice()),
            None => None,
        }
    }

    pub fn role_play_list(&self) -> (role_play_list: Option<&[String]>)
        ensures
            match role_play_list {
                Some(roles) => opt_texts(self.role_play_list) == Some(texts(roles@)),
                None => self.role_play_list is None,
            },
    {
        match &self.role_play_list {
            Some(roles) => Some(roles.as_slice()),
            None => None,
        }
    }

    pub fn friendly_name(&self) -> (friendly_name: Option<&str>)
        ensures
            borrowed_chars(friendly_name) == opt_chars(self.friendly_name),
    {
        as_deref(&self.friendly_name)
    }

    pub fn suggested_codec(&self) -> (suggested_codec: Option<AudioFormat>)
        ensures
            suggested_codec == self.suggested_codec,
    {
        self.suggested_codec
    }
}

} // verus!
