//! Client-side protocol logic for a cloud text-to-speech service: the frame
//! codec, the connection plan, the synthesis session and its configuration.

use vstd::prelude::*;
use vstd::string::*;

pub mod audio;
pub mod auth;
pub mod cli;
pub mod errors;
pub mod headers;
pub mod msg;
pub mod net;
pub mod parse;
pub mod ssml;
pub mod synthesizer;
pub mod text;
pub mod types;
pub mod utils;
pub mod voice;

verus! {

/// The `Origin` header value that the trial endpoint expects.
pub const ORIGIN: &'static str = "https://azure.microsoft.com";

/// The trial endpoint.
pub const DEFAULT_ENDPOINT: &'static str =
    "wss://eastus.api.speech.microsoft.com/cognitiveservices/websocket/v1";

/// The websocket endpoint of `region`:
/// `wss://<region>.tts.speech.microsoft.com/cognitiveservices/websocket/v1`.
pub open spec fn websocket_endpoint_of(region: Seq<char>) -> Seq<char> {
    "wss://"@ + region + ".tts.speech.microsoft.com/cognitiveservices/websocket/v1"@
}

/// The REST endpoint of `region`:
/// `https://<region>.tts.speech.microsoft.com/cognitiveservices/v1`.
pub open spec fn rest_endpoint_of(region: Seq<char>) -> Seq<char> {
    "https://"@ + region + ".tts.speech.microsoft.com/cognitiveservices/v1"@
}

/// The websocket endpoint of a region.
pub fn get_endpoint_by_region(region: &str) -> (endpoint: String)
    ensures
        endpoint@ == websocket_endpoint_of(region@),
{
    get_websocket_endpoint_by_region(region)
}

/// The websocket endpoint of a region.
pub fn get_websocket_endpoint_by_region(region: &str) -> (endpoint: String)
    ensures
        endpoint@ == websocket_endpoint_of(region@),
{
    let mut endpoint = String::from_str("wss://");
    endpoint.append(region);
    endpoint.append(".tts.speech.microsoft.com/cognitiveservices/websocket/v1");
    endpoint
}

/// The REST endpoint of a region.
pub fn get_rest_endpoint_by_region(region: &str) -> (endpoint: String)
    ensures
        endpoint@ == rest_endpoint_of(region@),
{
    let mut endpoint = String::from_str("https://");
    endpoint.append(region);
    endpoint.append(".tts.speech.microsoft.com/cognitiveservices/v1");
    endpoint
}

} // verus!
