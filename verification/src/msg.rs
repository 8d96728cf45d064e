//! The frame codec: one inbound websocket frame becomes one protocol message,
//! or a parse error.
//!
//! A binary frame is `[u16 header length, big endian][header][audio]`; its
//! header is UTF-8 text in lines that end in CRLF. A text frame is a block of
//! `key: value` lines, a blank line, and a body.

use vstd::prelude::*;
use vstd::slice::*;
use vstd::string::*;
use vstd::utf8::*;
use crate::text::{
    chars_eq, ends_with, find, find_from, free_of, has_prefix, has_suffix, join, lemma_find_at,
    lemma_find_is_leftmost, lemma_split_join, lemma_trim_is_identity, occurs_at, split, split_on,
    starts_with, to_chars, trim, trim_bounds,
};

verus! {

/// What a close frame carries.
pub struct CloseFrame {
    pub code: u16,
    pub reason: String,
}

/// One inbound frame as the transport hands it over, tagged by its kind.
pub enum Frame {
    Text(String),
    Binary(Vec<u8>),
    Close(Option<CloseFrame>),
    Ping(Vec<u8>),
    Pong(Vec<u8>),
    /// A frame of any other kind, with a description of it for diagnostics.
    Other(String),
}

/// A decoded protocol message. It borrows from the frame it was decoded from.
#[derive(Clone, Copy)]
pub enum WebSocketMessage<'a> {
    TurnStart,
    TurnEnd,
    Response { body: &'a str },
    Audio { data: &'a [u8] },
    Close(Option<&'a CloseFrame>),
    Ping,
    Pong,
}

/// Why a frame could not be decoded.
#[derive(Debug)]
#[non_exhaustive]
pub struct ParseError {
    pub reason: &'static str,
    pub msg: String,
}

/// The mathematical value of a [`CloseFrame`].
#[verifier::ext_equal]
pub ghost struct CloseFrameView {
    pub code: u16,
    pub reason: Seq<char>,
}

/// The mathematical value of a [`Frame`].
#[verifier::ext_equal]
pub ghost enum FrameView {
    Text(Seq<char>),
    Binary(Seq<u8>),
    Close(Option<CloseFrameView>),
    Ping(Seq<u8>),
    Pong(Seq<u8>),
    Other(Seq<char>),
}

/// The mathematical value of a [`WebSocketMessage`].
#[verifier::ext_equal]
pub ghost enum MessageView {
    TurnStart,
    TurnEnd,
    Response { body: Seq<char> },
    Audio { data: Seq<u8> },
    Close(Option<CloseFrameView>),
    Ping,
    Pong,
}

/// The mathematical value of a [`ParseError`].
#[verifier::ext_equal]
pub ghost struct ParseErrorView {
    pub reason: Seq<char>,
    pub msg: Seq<char>,
}

impl View for CloseFrame {
    type V = CloseFrameView;

    open spec fn view(&self) -> CloseFrameView {
        CloseFrameView { code: self.code, reason: self.reason@ }
    }
}

impl View for Frame {
    type V = FrameView;

    open spec fn view(&self) -> FrameView {
        match self {
            Frame::Text(text) => FrameView::Text(text@),
            Frame::Binary(data) => FrameView::Binary(data@),
            Frame::Close(Some(close)) => FrameView::Close(Some(close@)),
            Frame::Close(None) => FrameView::Close(None),
            Frame::Ping(data) => FrameView::Ping(data@),
            Frame::Pong(data) => FrameView::Pong(data@),
            Frame::Other(description) => FrameView::Other(description@),
        }
    }
}

impl<'a> View for WebSocketMessage<'a> {
    type V = MessageView;

    open spec fn view(&self) -> MessageView {
        match self {
            WebSocketMessage::TurnStart => MessageView::TurnStart,
            WebSocketMessage::TurnEnd => MessageView::TurnEnd,
            WebSocketMessage::Response { body } => MessageView::Response { body: body@ },
            WebSocketMessage::Audio { data } => MessageView::Audio { data: data@ },
            WebSocketMessage::Close(Some(close)) => MessageView::Close(Some(close@)),
            WebSocketMessage::Close(None) => MessageView::Close(None),
            WebSocketMessage::Ping => MessageView::Ping,
            WebSocketMessage::Pong => MessageView::Pong,
        }
    }
}

impl View for ParseError {
    type V = ParseErrorView;

    open spec fn view(&self) -> ParseErrorView {
        ParseErrorView { reason: self.reason@, msg: self.msg@ }
    }
}

/// The error for a frame whose contents the protocol does not know.
pub open spec fn unknown_message(msg: Seq<char>) -> ParseErrorView {
    ParseErrorView { reason: "unknown"@, msg }
}

/// The error for a binary frame that ends before its header does.
pub open spec fn truncated_frame() -> ParseErrorView {
    ParseErrorView { reason: "binary frame is shorter than its header"@, msg: Seq::empty() }
}

/// The error for a binary frame whose header is not UTF-8.
pub open spec fn undecodable_header() -> ParseErrorView {
    ParseErrorView { reason: "binary frame header is not UTF-8"@, msg: Seq::empty() }
}

/// The error for a frame that is neither text, binary, close, ping nor pong.
pub open spec fn unsupported_frame(description: Seq<char>) -> ParseErrorView {
    ParseErrorView { reason: "Neither binary nor text"@, msg: description }
}

/// The header length that the first two bytes of a binary frame announce.
pub open spec fn announced_header_len(data: Seq<u8>) -> int {
    data[0] as int * 256 + data[1] as int
}

/// The frame holds the two length bytes and the whole header they announce.
pub open spec fn holds_header(data: Seq<u8>) -> bool {
    2 <= data.len() && 2 + announced_header_len(data) <= data.len()
}

/// The header section of a binary frame.
pub open spec fn header_section(data: Seq<u8>) -> Seq<u8> {
    data.subrange(2, 2 + announced_header_len(data))
}

/// What follows the header section of a binary frame.
pub open spec fn payload_section(data: Seq<u8>) -> Seq<u8> {
    data.skip(2 + announced_header_len(data))
}

/// A header line that begins with `Path` and ends with `audio`.
pub open spec fn is_audio_path_line(line: Seq<char>) -> bool {
    starts_with(line, "Path"@) && ends_with(line, "audio"@)
}

/// Some line of the header is an audio path line.
pub open spec fn announces_audio(header: Seq<char>) -> bool {
    exists|k: int|
        0 <= k < split(header, "\r\n"@).len() && is_audio_path_line(
            #[trigger] split(header, "\r\n"@)[k],
        )
}

/// What a binary frame decodes to.
pub open spec fn decode_binary(data: Seq<u8>) -> Result<MessageView, ParseErrorView> {
    if !holds_header(data) {
        Err(truncated_frame())
    } else if !valid_utf8(header_section(data)) {
        Err(undecodable_header())
    } else if announces_audio(decode_utf8(header_section(data))) {
        Ok(MessageView::Audio { data: payload_section(data) })
    } else {
        Err(unknown_message(decode_utf8(header_section(data))))
    }
}

/// The line has a colon, and so a key and a value.
pub open spec fn is_header_line(line: Seq<char>) -> bool {
    find(line, ":"@) is Some
}

/// What stands before the first colon of a header line.
pub open spec fn header_key(line: Seq<char>) -> Seq<char> {
    line.take(find(line, ":"@).unwrap())
}

/// What stands after the first colon of a header line.
pub open spec fn header_value(line: Seq<char>) -> Seq<char> {
    line.skip(find(line, ":"@).unwrap() + 1)
}

/// A header line whose key is `Path`.
pub open spec fn is_path_line(line: Seq<char>) -> bool {
    is_header_line(line) && header_key(line) == "Path"@
}

/// The message that a `Path` value stands for, if it is one of the three
/// that the protocol knows. White space around the value does not count.
pub open spec fn path_message(value: Seq<char>, body: Seq<char>) -> Option<MessageView> {
    if trim(value) == "turn.end"@ {
        Some(MessageView::TurnEnd)
    } else if trim(value) == "turn.start"@ {
        Some(MessageView::TurnStart)
    } else if trim(value) == "response"@ {
        Some(MessageView::Response { body })
    } else {
        None
    }
}

/// The line is a `key: value` line, and if its key is `Path`, its value is
/// one that the protocol knows.
pub open spec fn is_known_line(line: Seq<char>) -> bool {
    is_header_line(line) && (is_path_line(line) ==> path_message(
        header_value(line),
        Seq::empty(),
    ) is Some)
}

/// The index of the last `Path` line among `lines`.
pub open spec fn last_path_line(lines: Seq<Seq<char>>) -> Option<int>
    decreases lines.len(),
{
    if lines.len() == 0 {
        None
    } else if is_path_line(lines.last()) {
        Some(lines.len() - 1)
    } else {
        last_path_line(lines.drop_last())
    }
}

/// What a header block and a body decode to: every line must be known, and
/// the last `Path` line decides.
pub open spec fn decode_headers(lines: Seq<Seq<char>>, body: Seq<char>) -> Option<MessageView> {
    if forall|k: int| 0 <= k < lines.len() ==> is_known_line(#[trigger] lines[k]) {
        match last_path_line(lines) {
            Some(k) => path_message(header_value(lines[k]), body),
            None => None,
        }
    } else {
        None
    }
}

/// What a text frame decodes to. The header block ends at the first blank
/// line; the body is what follows it.
pub open spec fn decode_text(text: Seq<char>) -> Result<MessageView, ParseErrorView> {
    match find(text, "\r\n\r\n"@) {
        Some(at) => match decode_headers(split(text.take(at), "\r\n"@), text.skip(at + 4)) {
            Some(message) => Ok(message),
            None => Err(unknown_message(text)),
        },
        None => Err(unknown_message(text)),
    }
}

/// What a frame decodes to.
pub open spec fn decode(frame: FrameView) -> Result<MessageView, ParseErrorView> {
    match frame {
        FrameView::Text(text) => decode_text(text),
        FrameView::Binary(data) => decode_binary(data),
        FrameView::Close(close) => Ok(MessageView::Close(close)),
        FrameView::Ping(_) => Ok(MessageView::Ping),
        FrameView::Pong(_) => Ok(MessageView::Pong),
        FrameView::Other(description) => Err(unsupported_frame(description)),
    }
}

/// The bytes of a binary frame with the given header text and payload.
pub open spec fn binary_frame(header: Seq<char>, payload: Seq<u8>) -> Seq<u8> {
    let bytes = encode_utf8(header);
    seq![(bytes.len() / 256) as u8, (bytes.len() % 256) as u8] + bytes + payload
}

/// `std::str::from_utf8`: the text that `bytes` encode, where they are
/// UTF-8, and nothing where they are not.
#[verifier::external_body]
fn utf8_text(bytes: &[u8]) -> (text: Option<&str>)
    ensures
        text is Some <==> valid_utf8(bytes@),
        text matches Some(t) ==> t@ == decode_utf8(bytes@),
{
    std::str::from_utf8(bytes).ok()
}

impl ParseError {
    /// The error for a frame whose contents the protocol does not know.
    pub fn new_bare(msg: String) -> (error: Self)
        ensures
            error@ == unknown_message(msg@),
    {
        ParseError { reason: "unknown", msg }
    }

    /// The error as one line of text.
    pub open spec fn spec_message(self) -> Seq<char> {
        "msg parse error: reason "@ + self.reason@ + ", msg is "@ + self.msg@
    }

    /// The error as one line of text.
    pub fn message(&self) -> (line: String)
        ensures
            line@ == self.spec_message(),
    {
        let mut line = String::from_str("msg parse error: reason ");
        line.append(self.reason);
        line.append(", msg is ");
        line.append(self.msg.as_str());
        line
    }
}

/// Whether some line of `header` begins with `Path` and ends with `audio`.
pub fn header_announces_audio(header: &str) -> (found: bool)
    ensures
        found == announces_audio(header@),
{
    proof {
        reveal_strlit("\r\n");
    }
    let chars = to_chars(header);
    let crlf = to_chars("\r\n");
    let path = to_chars("Path");
    let audio = to_chars("audio");
    let lines = split_on(chars.as_slice(), crlf.as_slice());
    let mut i: usize = 0;
    while i < lines.len()
        invariant
            i <= lines@.len(),
            path@ == "Path"@,
            audio@ == "audio"@,
            lines@.len() == split(header@, "\r\n"@).len(),
            forall|k: int|
                0 <= k < lines@.len() ==> (#[trigger] lines@[k])@ == split(header@, "\r\n"@)[k],
            forall|k: int|
                0 <= k < i ==> !is_audio_path_line(#[trigger] split(header@, "\r\n"@)[k]),
        decreases lines@.len() - i,
    {
        let line = lines[i].as_slice();
        if has_prefix(line, path.as_slice()) && has_suffix(line, audio.as_slice()) {
            assert(is_audio_path_line(split(header@, "\r\n"@)[i as int]));
            return true;
        }
        i += 1;
    }
    false
}

/// Decodes a binary frame.
pub fn parse_binary<'a>(data: &'a [u8]) -> (parsed: Result<WebSocketMessage<'a>, ParseError>)
    ensures
        match parsed {
            Ok(message) => decode_binary(data@) == Ok::<MessageView, ParseErrorView>(message@),
            Err(error) => decode_binary(data@) == Err::<MessageView, ParseErrorView>(error@),
        },
{
    if data.len() < 2 {
        return Err(
            ParseError { reason: "binary frame is shorter than its header", msg: String::new() },
        );
    }
    let header_len: usize = (data[0] as usize) * 256 + (data[1] as usize);
    if data.len() - 2 < header_len {
        return Err(
            ParseError { reason: "binary frame is shorter than its header", msg: String::new() },
        );
    }
    let header = match utf8_text(slice_subrange(data, 2, 2 + header_len)) {
        Some(header) => header,
        None => {
            return Err(
                ParseError { reason: "binary frame header is not UTF-8", msg: String::new() },
            );
        },
    };
    if header_announces_audio(header) {
        let payload = slice_subrange(data, 2 + header_len, data.len());
        assert(payload@ =~= payload_section(data@));
        Ok(WebSocketMessage::Audio { data: payload })
    } else {
        Err(ParseError::new_bare(header.to_owned()))
    }
}

/// The message that the value of a `Path` header stands for.
fn message_for_path<'a>(value: &[char], body: &'a str) -> (message: Option<WebSocketMessage<'a>>)
    ensures
        match message {
            Some(m) => path_message(value@, body@) == Some(m@),
            None => path_message(value@, body@) is None,
        },
        message is Some <==> path_message(value@, Seq::empty()) is Some,
{
    let bounds = trim_bounds(value);
    let trimmed = slice_subrange(value, bounds.0, bounds.1);
    if chars_eq(trimmed, to_chars("turn.end").as_slice()) {
        Some(WebSocketMessage::TurnEnd)
    } else if chars_eq(trimmed, to_chars("turn.start").as_slice()) {
        Some(WebSocketMessage::TurnStart)
    } else if chars_eq(trimmed, to_chars("response").as_slice()) {
        Some(WebSocketMessage::Response { body })
    } else {
        None
    }
}

/// Decodes a text frame.
pub fn parse_text<'a>(text: &'a str) -> (parsed: Result<WebSocketMessage<'a>, ParseError>)
    ensures
        match parsed {
            Ok(message) => decode_text(text@) == Ok::<MessageView, ParseErrorView>(message@),
            Err(error) => decode_text(text@) == Err::<MessageView, ParseErrorView>(error@),
        },
{
    proof {
        reveal_strlit("\r\n");
        reveal_strlit("\r\n\r\n");
        reveal_strlit(":");
    }
    let chars = to_chars(text);
    let blank_line = to_chars("\r\n\r\n");
    assert(blank_line@.len() == 4);
    assert(chars@.skip(0) =~= chars@);
    let at = match find_from(chars.as_slice(), 0, blank_line.as_slice()) {
        Some(at) => at,
        None => {
            return Err(ParseError::new_bare(text.to_owned()));
        },
    };
    let len = chars.len();
    let body = text.substring_char(at + 4, len);
    let crlf = to_chars("\r\n");
    let colon = to_chars(":");
    let path = to_chars("Path");
    let header = slice_subrange(chars.as_slice(), 0, at);
    assert(header@ =~= text@.take(at as int));
    assert(body@ =~= text@.skip(at + 4));
    let lines = split_on(header, crlf.as_slice());
    let ghost spec_lines = split(text@.take(at as int), "\r\n"@);
    let mut found: Option<WebSocketMessage<'a>> = None;
    let mut i: usize = 0;
    assert(spec_lines.take(0) =~= Seq::<Seq<char>>::empty());
    while i < lines.len()
        invariant
            i <= lines@.len(),
            colon@ == ":"@,
            colon@.len() == 1,
            path@ == "Path"@,
            find(text@, "\r\n\r\n"@) == Some(at as int),
            spec_lines == split(text@.take(at as int), "\r\n"@),
            body@ == text@.skip(at + 4),
            lines@.len() == spec_lines.len(),
            forall|k: int| 0 <= k < lines@.len() ==> (#[trigger] lines@[k])@ == spec_lines[k],
            forall|k: int| 0 <= k < i ==> is_known_line(#[trigger] spec_lines[k]),
            match last_path_line(spec_lines.take(i as int)) {
                Some(k) => found is Some && 0 <= k < i && path_message(
                    header_value(spec_lines[k]),
                    body@,
                ) == Some(found.unwrap()@),
                None => found is None,
            },
        decreases lines@.len() - i,
    {
        let line = lines[i].as_slice();
        let ghost spec_line = spec_lines[i as int];
        assert(line@ == spec_line);
        assert(line@.skip(0) =~= line@);
        proof {
            assert(spec_lines.take(i + 1).drop_last() =~= spec_lines.take(i as int));
            assert(spec_lines.take(i + 1).last() == spec_line);
        }
        match find_from(line, 0, colon.as_slice()) {
            None => {
                assert(!is_known_line(spec_lines[i as int]));
                return Err(ParseError::new_bare(text.to_owned()));
            },
            Some(c) => {
                let key = slice_subrange(line, 0, c);
                assert(key@ =~= header_key(spec_line));
                if chars_eq(key, path.as_slice()) {
                    let line_len = line.len();
                    let value = slice_subrange(line, c + 1, line_len);
                    assert(value@ =~= header_value(spec_line));
                    match message_for_path(value, body) {
                        Some(message) => {
                            found = Some(message);
                        },
                        None => {
                            assert(!is_known_line(spec_lines[i as int]));
                            return Err(ParseError::new_bare(text.to_owned()));
                        },
                    }
                }
            },
        }
        i += 1;
    }
    assert(spec_lines.take(i as int) =~= spec_lines);
    match found {
        Some(message) => Ok(message),
        None => Err(ParseError::new_bare(text.to_owned())),
    }
}

impl<'a> WebSocketMessage<'a> {
    /// Decodes one frame.
    pub fn try_from(frame: &'a Frame) -> (parsed: Result<WebSocketMessage<'a>, ParseError>)
        ensures
            match parsed {
                Ok(message) => decode(frame@) == Ok::<MessageView, ParseErrorView>(message@),
                Err(error) => decode(frame@) == Err::<MessageView, ParseErrorView>(error@),
            },
    {
        match frame {
            Frame::Binary(data) => parse_binary(data.as_slice()),
            Frame::Text(text) => parse_text(text.as_str()),
            Frame::Close(close) => Ok(WebSocketMessage::Close(close.as_ref())),
            Frame::Ping(_) => Ok(WebSocketMessage::Ping),
            Frame::Pong(_) => Ok(WebSocketMessage::Pong),
            Frame::Other(description) => Err(
                ParseError { reason: "Neither binary nor text", msg: description.clone() },
            ),
        }
    }
}

/// A binary frame built from a header that announces audio, and a payload,
/// decodes to that payload as audio, byte for byte.
pub proof fn lemma_binary_frame_round_trip(header: Seq<char>, payload: Seq<u8>)
    requires
        encode_utf8(header).len() <= 0xffff,
        announces_audio(header),
    ensures
        decode_binary(binary_frame(header, payload)) == Ok::<MessageView, ParseErrorView>(
            MessageView::Audio { data: payload },
        ),
{
    let bytes = encode_utf8(header);
    let frame = binary_frame(header, payload);
    encode_utf8_valid_utf8(header);
    encode_utf8_decode_utf8(header);
    assert(announced_header_len(frame) == bytes.len());
    assert(header_section(frame) =~= bytes);
    assert(payload_section(frame) =~= payload);
}

/// A binary frame decodes to audio only where its header section announces
/// audio, and then to exactly what follows that section. Every other binary
/// frame is a parse error.
pub proof fn lemma_binary_is_audio_or_error(data: Seq<u8>)
    ensures
        match decode_binary(data) {
            Ok(message) => holds_header(data) && valid_utf8(header_section(data))
                && announces_audio(decode_utf8(header_section(data))) && message
                == (MessageView::Audio { data: payload_section(data) }),
            Err(_) => !(holds_header(data) && valid_utf8(header_section(data)) && announces_audio(
                decode_utf8(header_section(data)),
            )),
        },
{
}

/// A header that is built from lines announces audio exactly where one of
/// the lines begins with `Path` and ends with `audio`.
pub proof fn lemma_announces_audio_by_lines(lines: Seq<Seq<char>>)
    requires
        lines.len() > 0,
        forall|i: int| 0 <= i < lines.len() ==> free_of(#[trigger] lines[i], "\r\n"@),
    ensures
        announces_audio(join(lines, "\r\n"@)) <==> exists|k: int|
            0 <= k < lines.len() && is_audio_path_line(#[trigger] lines[k]),
{
    reveal_strlit("\r\n");
    lemma_split_join(lines, "\r\n"@);
}

/// The three `Path` values that the protocol knows, each with its message.
pub proof fn lemma_known_paths(body: Seq<char>)
    ensures
        path_message("turn.start"@, body) == Some(MessageView::TurnStart),
        path_message("turn.end"@, body) == Some(MessageView::TurnEnd),
        path_message("response"@, body) == Some(MessageView::Response { body }),
{
    reveal_strlit("turn.start");
    reveal_strlit("turn.end");
    reveal_strlit("response");
    lemma_trim_is_identity("turn.start"@);
    lemma_trim_is_identity("turn.end"@);
    lemma_trim_is_identity("response"@);
    assert("turn.start"@ != "turn.end"@);
    assert("response"@ != "turn.end"@);
    assert("response"@ != "turn.start"@);
}

/// A header line as a frame is built from it: some characters, none of
/// them a carriage return or a line feed.
pub open spec fn is_plain_line(line: Seq<char>) -> bool {
    line.len() > 0 && forall|i: int| 0 <= i < line.len() ==> line[i] != '\r' && line[i] != '\n'
}

/// The text frame with the given header lines and body: the lines with CRLF
/// between them, a blank line, and the body.
pub open spec fn text_frame(lines: Seq<Seq<char>>, body: Seq<char>) -> Seq<char> {
    join(lines, "\r\n"@) + "\r\n\r\n"@ + body
}

proof fn lemma_join_starts_with_first_line(lines: Seq<Seq<char>>)
    requires
        lines.len() > 0,
        lines[0].len() > 0,
    ensures
        join(lines, "\r\n"@).len() > 0,
        join(lines, "\r\n"@)[0] == lines[0][0],
{
}

proof fn lemma_blank_line_ends_the_header(lines: Seq<Seq<char>>, body: Seq<char>)
    requires
        lines.len() > 0,
        forall|i: int| 0 <= i < lines.len() ==> is_plain_line(#[trigger] lines[i]),
    ensures
        find(text_frame(lines, body), "\r\n\r\n"@) == Some(join(lines, "\r\n"@).len() as int),
    decreases lines.len(),
{
    reveal_strlit("\r\n\r\n");
    reveal_strlit("\r\n");
    let blank = "\r\n\r\n"@;
    let first = lines[0];
    let joined = join(lines, "\r\n"@);
    let text = text_frame(lines, body);
    let at = joined.len() as int;
    assert(is_plain_line(first));
    assert(occurs_at(text, blank, at)) by {
        assert(text.subrange(at, at + 4) =~= blank);
    }
    if lines.len() == 1 {
        assert forall|j: int| 0 <= j < at implies !occurs_at(text, blank, j) by {
            if occurs_at(text, blank, j) {
                assert(text.subrange(j, j + 4)[0] == '\r');
                assert(text[j] == first[j]);
            }
        }
    } else {
        let rest = lines.drop_first();
        let inner = text_frame(rest, body);
        let offset = first.len() + 2;
        assert forall|i: int| 0 <= i < rest.len() implies is_plain_line(#[trigger] rest[i]) by {
            assert(rest[i] == lines[i + 1]);
        }
        lemma_blank_line_ends_the_header(rest, body);
        lemma_find_is_leftmost(inner, blank);
        lemma_join_starts_with_first_line(rest);
        assert(is_plain_line(rest[0]));
        assert(text =~= first + "\r\n"@ + inner);
        assert forall|j: int| 0 <= j < at implies !occurs_at(text, blank, j) by {
            if occurs_at(text, blank, j) {
                let found = text.subrange(j, j + 4);
                assert(found[0] == '\r' && found[1] == '\n' && found[2] == '\r');
                if j < first.len() {
                    assert(text[j] == first[j]);
                } else if j == first.len() {
                    assert(text[j + 2] == inner[0]);
                    assert(inner[0] == join(rest, "\r\n"@)[0]);
                } else if j == first.len() + 1 {
                    assert(text[j] == '\n');
                } else {
                    assert(inner.subrange(j - offset, j - offset + 4) =~= found);
                    assert(occurs_at(inner, blank, j - offset));
                }
            }
        }
    }
    lemma_find_at(text, blank, at);
}

/// A text frame that is built from header lines and a body decodes by its
/// lines: to the message of its last `Path` line, with the body, where every
/// line is a `key: value` line and every `Path` value is known; to a parse
/// error that carries the frame otherwise.
pub proof fn lemma_text_frame_dispatch(lines: Seq<Seq<char>>, body: Seq<char>)
    requires
        lines.len() > 0,
        forall|i: int| 0 <= i < lines.len() ==> is_plain_line(#[trigger] lines[i]),
    ensures
        decode_text(text_frame(lines, body)) == match decode_headers(lines, body) {
            Some(message) => Ok::<MessageView, ParseErrorView>(message),
            None => Err(unknown_message(text_frame(lines, body))),
        },
{
    reveal_strlit("\r\n");
    reveal_strlit("\r\n\r\n");
    let joined = join(lines, "\r\n"@);
    let text = text_frame(lines, body);
    lemma_blank_line_ends_the_header(lines, body);
    assert forall|i: int| 0 <= i < lines.len() implies free_of(#[trigger] lines[i], "\r\n"@) by {
        assert(is_plain_line(lines[i]));
    }
    lemma_split_join(lines, "\r\n"@);
    assert(text.take(joined.len() as int) =~= joined);
    assert(text.skip(joined.len() as int + 4) =~= body);
}

/// A text frame that is built from header lines and a body comes apart
/// again: its first blank line stands right after the lines, the lines are
/// the pieces of what stands before it, and the body is what stands after it.
pub proof fn lemma_text_frame_parts(lines: Seq<Seq<char>>, body: Seq<char>)
    requires
        lines.len() > 0,
        forall|i: int| 0 <= i < lines.len() ==> is_plain_line(#[trigger] lines[i]),
    ensures
        find(text_frame(lines, body), "\r\n\r\n"@) == Some(join(lines, "\r\n"@).len() as int),
        split(text_frame(lines, body).take(join(lines, "\r\n"@).len() as int), "\r\n"@) == lines,
        text_frame(lines, body).skip(join(lines, "\r\n"@).len() as int + 4) == body,
{
    reveal_strlit("\r\n");
    reveal_strlit("\r\n\r\n");
    let joined = join(lines, "\r\n"@);
    let text = text_frame(lines, body);
    lemma_blank_line_ends_the_header(lines, body);
    assert forall|i: int| 0 <= i < lines.len() implies free_of(#[trigger] lines[i], "\r\n"@) by {
        assert(is_plain_line(lines[i]));
    }
    lemma_split_join(lines, "\r\n"@);
    assert(text.take(joined.len() as int) =~= joined);
    assert(text.skip(joined.len() as int + 4) =~= body);
}

/// The header line `Path:<value>`.
pub open spec fn path_line(value: Seq<char>) -> Seq<char> {
    "Path:"@ + value
}

/// The header line `Path:<value>` is a `Path` line with that value.
pub proof fn lemma_path_line(value: Seq<char>)
    ensures
        is_path_line(path_line(value)),
        header_value(path_line(value)) == value,
{
    reveal_strlit("Path:");
    reveal_strlit("Path");
    reveal_strlit(":");
    let line = path_line(value);
    assert(occurs_at(line, ":"@, 4)) by {
        assert(line.subrange(4, 5) =~= ":"@);
    }
    assert forall|j: int| 0 <= j < 4 implies !occurs_at(line, ":"@, j) by {
        if occurs_at(line, ":"@, j) {
            assert(line.subrange(j, j + 1)[0] == ':');
        }
    }
    lemma_find_at(line, ":"@, 4);
    assert(header_key(line) =~= "Path"@);
    assert(header_value(line) =~= value);
}

proof fn lemma_last_path_line(before: Seq<Seq<char>>, line: Seq<char>, after: Seq<Seq<char>>)
    requires
        is_path_line(line),
        forall|i: int| 0 <= i < after.len() ==> !is_path_line(#[trigger] after[i]),
    ensures
        last_path_line(before + seq![line] + after) == Some(before.len() as int),
    decreases after.len(),
{
    let lines = before + seq![line] + after;
    if after.len() == 0 {
        assert(lines.last() == line);
    } else {
        assert(lines.last() == after.last());
        assert(lines.drop_last() =~= before + seq![line] + after.drop_last());
        assert forall|i: int| 0 <= i < after.drop_last().len() implies !is_path_line(
            #[trigger] after.drop_last()[i],
        ) by {
            assert(after.drop_last()[i] == after[i]);
        }
        lemma_last_path_line(before, line, after.drop_last());
    }
}

/// A text frame with one `Path` header among other headers decodes to the
/// message that the value stands for, `turn.start`, `turn.end` or `response`,
/// with the frame's body; with any other value it is a parse error that
/// carries the frame.
pub proof fn lemma_path_header_dispatch(
    before: Seq<Seq<char>>,
    value: Seq<char>,
    after: Seq<Seq<char>>,
    body: Seq<char>,
)
    requires
        forall|i: int|
            0 <= i < before.len() ==> is_plain_line(#[trigger] before[i]) && is_header_line(
                before[i],
            ) && !is_path_line(before[i]),
        forall|i: int|
            0 <= i < after.len() ==> is_plain_line(#[trigger] after[i]) && is_header_line(after[i])
                && !is_path_line(after[i]),
        forall|i: int| 0 <= i < value.len() ==> value[i] != '\r' && value[i] != '\n',
    ensures
        decode_text(text_frame(before + seq![path_line(value)] + after, body)) == match path_message(
            value,
            body,
        ) {
            Some(message) => Ok::<MessageView, ParseErrorView>(message),
            None => Err(unknown_message(text_frame(before + seq![path_line(value)] + after, body))),
        },
{
    reveal_strlit("Path:");
    let line = path_line(value);
    let lines = before + seq![line] + after;
    let at = before.len() as int;
    lemma_path_line(value);
    lemma_last_path_line(before, line, after);
    assert(lines[at] == line);
    assert forall|k: int| 0 <= k < lines.len() implies is_plain_line(#[trigger] lines[k]) by {
        if k < at {
            assert(lines[k] == before[k]);
        } else if k > at {
            assert(lines[k] == after[k - at - 1]);
        }
    }
    assert forall|k: int| 0 <= k < lines.len() && k != at implies is_known_line(
        #[trigger] lines[k],
    ) by {
        if k < at {
            assert(lines[k] == before[k]);
        } else {
            assert(lines[k] == after[k - at - 1]);
        }
    }
    assert(is_known_line(lines[at]) <==> path_message(value, body) is Some);
    lemma_text_frame_dispatch(lines, body);
}

/// A text frame without a blank line is a parse error that carries the frame.
pub proof fn lemma_text_without_blank_line(text: Seq<char>)
    requires
        find(text, "\r\n\r\n"@) is None,
    ensures
        decode_text(text) == Err::<MessageView, ParseErrorView>(unknown_message(text)),
{
}

/// A text frame is a parse error wherever one of its header lines has no
/// colon, or is a `Path` line with a value that the protocol does not know.
pub proof fn lemma_unknown_line_is_rejected(text: Seq<char>, k: int)
    requires
        find(text, "\r\n\r\n"@) is Some,
        0 <= k < split(text.take(find(text, "\r\n\r\n"@).unwrap()), "\r\n"@).len(),
        !is_known_line(split(text.take(find(text, "\r\n\r\n"@).unwrap()), "\r\n"@)[k]),
    ensures
        decode_text(text) == Err::<MessageView, ParseErrorView>(unknown_message(text)),
{
}

/// Ping, pong and close frames decode to their own messages, a close frame
/// with what it carries; a frame of any other kind is a parse error.
pub proof fn lemma_control_frames(frame: FrameView)
    ensures
        frame is Ping ==> decode(frame) == Ok::<MessageView, ParseErrorView>(MessageView::Ping),
        frame is Pong ==> decode(frame) == Ok::<MessageView, ParseErrorView>(MessageView::Pong),
        frame matches FrameView::Close(close) ==> decode(frame) == Ok::<
            MessageView,
            ParseErrorView,
        >(MessageView::Close(close)),
        frame is Other ==> decode(frame) is Err,
{
}

} // verus!
