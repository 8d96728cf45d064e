//! Speech markup: which elements and attributes a text and its options
//! become, the document that the XML writer makes of them, and the errors
//! of rendering them.

use vstd::prelude::*;
use vstd::string::*;
use crate::auth::header_pairs;
use crate::text::opt_chars;
use crate::types::{RichSsmlOptions, RichSsmlOptionsView, TextOptions, TextOptionsView};

verus! {

/// What went wrong while rendering speech markup.
#[derive(Debug)]
#[non_exhaustive]
pub struct SsmlError {
    pub kind: SsmlErrorKind,
    /// The underlying cause, as text.
    pub source: Option<String>,
}

#[derive(Debug, Clone, Copy, PartialEq, Eq, Structural)]
#[non_exhaustive]
pub enum SsmlErrorKind {
    Xml,
}

/// The mathematical value of an [`SsmlError`].
#[verifier::ext_equal]
pub ghost struct SsmlErrorView {
    pub kind: SsmlErrorKind,
    pub source: Option<Seq<char>>,
}

impl View for SsmlError {
    type V = SsmlErrorView;

    open spec fn view(&self) -> SsmlErrorView {
        SsmlErrorView { kind: self.kind, source: opt_chars(self.source) }
    }
}

impl SsmlError {
    /// The failure of the XML writer, with the cause as text.
    pub fn xml(cause: String) -> (error: Self)
        ensures
            error@ == (SsmlErrorView { kind: SsmlErrorKind::Xml, source: Some(cause@) }),
    {
        SsmlError { kind: SsmlErrorKind::Xml, source: Some(cause) }
    }

    /// The error as one line of text.
    pub fn message(&self) -> (line: String)
        ensures
            line@ == "ssml Xml error"@,
    {
        match self.kind {
            SsmlErrorKind::Xml => String::from_str("ssml Xml error"),
        }
    }
}

/// An element as it opens: its name, the namespaces it declares, each a
/// prefix and a URI, and its attributes, each a name and a value. The empty
/// prefix declares the default namespace.
#[derive(Debug, Clone, PartialEq, Eq)]
pub struct Element {
    pub name: String,
    pub namespaces: Vec<(String, String)>,
    pub attributes: Vec<(String, String)>,
}

/// One step of writing a document.
#[derive(Debug, Clone, PartialEq, Eq)]
pub enum MarkupEvent {
    /// An element opens.
    Start(Element),
    /// Character data, not yet escaped.
    Text(String),
    /// The innermost open element closes.
    End,
}

/// The mathematical value of an [`Element`].
#[verifier::ext_equal]
pub ghost struct ElementView {
    pub name: Seq<char>,
    pub namespaces: Seq<(Seq<char>, Seq<char>)>,
    pub attributes: Seq<(Seq<char>, Seq<char>)>,
}

/// The mathematical value of a [`MarkupEvent`].
#[verifier::ext_equal]
pub ghost enum MarkupEventView {
    Start(ElementView),
    Text(Seq<char>),
    End,
}

impl View for Element {
    type V = ElementView;

    open spec fn view(&self) -> ElementView {
        ElementView {
            name: self.name@,
            namespaces: header_pairs(self.namespaces@),
            attributes: header_pairs(self.attributes@),
        }
    }
}

impl View for MarkupEvent {
    type V = MarkupEventView;

    open spec fn view(&self) -> MarkupEventView {
        match self {
            MarkupEvent::Start(element) => MarkupEventView::Start(element@),
            MarkupEvent::Text(text) => MarkupEventView::Text(text@),
            MarkupEvent::End => MarkupEventView::End,
        }
    }
}

/// The views of a list of events.
pub open spec fn event_views(events: Seq<MarkupEvent>) -> Seq<MarkupEventView> {
    Seq::new(events.len(), |i: int| events[i]@)
}

/// The pitch and the rate where none is chosen.
pub const DEFAULT_PITCH_RATE_STR: &'static str = "0%";

/// The root element. It declares the namespace of the rich markup only
/// where rich options are given.
pub open spec fn speak_element(rich: bool) -> ElementView {
    ElementView {
        name: "speak"@,
        namespaces: seq![(""@, "http://www.w3.org/2001/10/synthesis"@)] + (if rich {
            seq![("mstts"@, "http://www.w3.org/2001/mstts"@)]
        } else {
            Seq::empty()
        }) + seq![("emo"@, "http://www.w3.org/2009/10/emotionml"@)],
        attributes: seq![("version"@, "1.0"@), ("xml:lang"@, "en-US"@)],
    }
}

/// The element that names the voice.
pub open spec fn voice_element(voice: Seq<char>) -> ElementView {
    ElementView { name: "voice"@, namespaces: Seq::empty(), attributes: seq![("name"@, voice)] }
}

/// The element of the rich options: the role and the style degree where
/// they are given, and the style, which is `general` where none is given.
pub open spec fn express_as_element(rich: RichSsmlOptionsView) -> ElementView {
    ElementView {
        name: "mstts:express-as"@,
        namespaces: Seq::empty(),
        attributes: (match rich.role {
            Some(role) => seq![("role"@, role.name())],
            None => Seq::empty(),
        }) + (match rich.style_degree {
            Some(degree) => seq![("styledegree"@, degree)],
            None => Seq::empty(),
        }) + seq![
            (
                "style"@,
                match rich.style {
                    Some(style) => style,
                    None => "general"@,
                },
            ),
        ],
    }
}

/// The element of pitch and rate, each `0%` where none is chosen.
pub open spec fn prosody_element(pitch: Option<Seq<char>>, rate: Option<Seq<char>>) -> ElementView {
    ElementView {
        name: "prosody"@,
        namespaces: Seq::empty(),
        attributes: seq![
            (
                "pitch"@,
                match pitch {
                    Some(p) => p,
                    None => DEFAULT_PITCH_RATE_STR@,
                },
            ),
            (
                "rate"@,
                match rate {
                    Some(r) => r,
                    None => DEFAULT_PITCH_RATE_STR@,
                },
            ),
        ],
    }
}

/// The markup of a text with its options, as the events of writing it:
/// `speak`, in it `voice`, in it the element of the rich options where there
/// are some, in it `prosody`, in it the text; then every element closes.
pub open spec fn markup(text: Seq<char>, options: TextOptionsView) -> Seq<MarkupEventView> {
    let rich = options.rich_ssml_options;
    seq![
        MarkupEventView::Start(speak_element(rich is Some)),
        MarkupEventView::Start(voice_element(options.voice)),
    ] + (match rich {
        Some(r) => seq![MarkupEventView::Start(express_as_element(r))],
        None => Seq::empty(),
    }) + seq![
        MarkupEventView::Start(prosody_element(options.pitch, options.rate)),
        MarkupEventView::Text(text),
        MarkupEventView::End,
    ] + (match rich {
        Some(_) => seq![MarkupEventView::End],
        None => Seq::empty(),
    }) + seq![MarkupEventView::End, MarkupEventView::End]
}

fn pair(name: &str, value: &str) -> (made: (String, String))
    ensures
        made.0@ == name@,
        made.1@ == value@,
{
    (String::from_str(name), String::from_str(value))
}

fn speak(rich: bool) -> (element: Element)
    ensures
        element@ == speak_element(rich),
{
    let mut namespaces: Vec<(String, String)> = Vec::new();
    namespaces.push(pair("", "http://www.w3.org/2001/10/synthesis"));
    if rich {
        namespaces.push(pair("mstts", "http://www.w3.org/2001/mstts"));
    }
    namespaces.push(pair("emo", "http://www.w3.org/2009/10/emotionml"));
    let mut attributes: Vec<(String, String)> = Vec::new();
    attributes.push(pair("version", "1.0"));
    attributes.push(pair("xml:lang", "en-US"));
    let element = Element { name: String::from_str("speak"), namespaces, attributes };
    assert(element@.namespaces =~= speak_element(rich).namespaces);
    assert(element@.attributes =~= speak_element(rich).attributes);
    element
}

fn express_as(rich: &RichSsmlOptions) -> (element: Element)
    ensures
        element@ == express_as_element(rich@),
{
    let mut attributes: Vec<(String, String)> = Vec::new();
    if let Some(role) = rich.role() {
        attributes.push(pair("role", role.as_str()));
    }
    if let Some(degree) = rich.style_degree() {
        attributes.push(pair("styledegree", degree));
    }
    let style: &str = match rich.style() {
        Some(style) => style,
        None => "general",
    };
    attributes.push(pair("style", style));
    let element = Element {
        name: String::from_str("mstts:express-as"),
        namespaces: Vec::new(),
        attributes,
    };
    assert(element@.namespaces =~= express_as_element(rich@).namespaces);
    assert(element@.attributes =~= express_as_element(rich@).attributes);
    element
}

fn prosody(pitch: Option<&str>, rate: Option<&str>) -> (element: Element)
    ensures
        element@ == prosody_element(
            crate::types::borrowed_chars(pitch),
            crate::types::borrowed_chars(rate),
        ),
{
    let pitch: &str = match pitch {
        Some(p) => p,
        None => DEFAULT_PITCH_RATE_STR,
    };
    let rate: &str = match rate {
        Some(r) => r,
        None => DEFAULT_PITCH_RATE_STR,
    };
    let mut attributes: Vec<(String, String)> = Vec::new();
    attributes.push(pair("pitch", pitch));
    attributes.push(pair("rate", rate));
    let element = Element { name: String::from_str("prosody"), namespaces: Vec::new(), attributes };
    assert(element@.namespaces =~= Seq::empty());
    assert(element@.attributes.len() == 2);
    element
}

/// The markup of a text with its options, as the events of writing it.
pub fn markup_events(text: &str, options: &TextOptions) -> (events: Vec<MarkupEvent>)
    ensures
        event_views(events@) == markup(text@, options@),
{
    let rich = options.rich_ssml_options();
    let mut events: Vec<MarkupEvent> = Vec::new();
    events.push(MarkupEvent::Start(speak(rich.is_some())));
    let voice = Element {
        name: String::from_str("voice"),
        namespaces: Vec::new(),
        attributes: vec![pair("name", options.voice())],
    };
    assert(voice@.namespaces =~= Seq::empty());
    assert(voice@.attributes =~= seq![("name"@, options@.voice)]);
    events.push(MarkupEvent::Start(voice));
    if let Some(rich) = rich {
        events.push(MarkupEvent::Start(express_as(rich)));
    }
    events.push(MarkupEvent::Start(prosody(options.pitch(), options.rate())));
    events.push(MarkupEvent::Text(String::from_str(text)));
    events.push(MarkupEvent::End);
    if rich.is_some() {
        events.push(MarkupEvent::End);
    }
    events.push(MarkupEvent::End);
    events.push(MarkupEvent::End);
    assert(event_views(events@) =~= markup(text@, options@));
    events
}

/// Every element that the markup opens, it closes: the markup holds as many
/// events that close as events that open, one text between them, and it
/// holds the element of the rich options exactly where there are some.
pub proof fn lemma_markup_is_balanced(text: Seq<char>, options: TextOptionsView)
    ensures
        markup(text, options).len() == if options.rich_ssml_options is Some {
            9int
        } else {
            7int
        },
        forall|i: int|
            0 <= i < markup(text, options).len() ==> ((#[trigger] markup(text, options)[i]) is Start
                <==> i < (markup(text, options).len() - 1) / 2),
        markup(text, options)[(markup(text, options).len() - 1) / 2] == MarkupEventView::Text(text),
        forall|i: int|
            0 <= i < markup(text, options).len() ==> ((#[trigger] markup(text, options)[i]) is End
                <==> i > (markup(text, options).len() - 1) / 2),
{
}

/// The XML writer of the `xml` crate, over a buffer of bytes.
#[verifier::external_type_specification]
#[verifier::external_body]
#[verifier::reject_recursive_types(W)]
pub struct ExEventWriter<W>(xml::EventWriter<W>);

/// The events that a writer has taken so far, in their order.
pub uninterp spec fn written(writer: xml::EventWriter<Vec<u8>>) -> Seq<MarkupEventView>;

/// What `xml::EventWriter::write` answers to an event, after the events
/// that the writer has taken: nothing where it takes the event, else its
/// refusal as text.
pub uninterp spec fn write_refusal(taken: Seq<MarkupEventView>, event: MarkupEventView) -> Option<
    Seq<char>,
>;

/// What the writer has put into its buffer for the events that it has
/// taken, as text; nothing where the bytes are no UTF-8.
pub uninterp spec fn document_text(taken: Seq<MarkupEventView>) -> Option<Seq<char>>;

/// What a writer answers to a list of events, one after the other, after
/// the events that it has taken: the first refusal, if there is one.
pub open spec fn first_refusal(taken: Seq<MarkupEventView>, events: Seq<MarkupEventView>) -> Option<
    Seq<char>,
>
    decreases events.len(),
{
    if events.len() == 0 {
        None
    } else {
        match write_refusal(taken, events[0]) {
            Some(refusal) => Some(refusal),
            None => first_refusal(taken.push(events[0]), events.drop_first()),
        }
    }
}

/// The reason that is given for a document that is no text.
pub open spec fn not_text() -> Seq<char> {
    "the document is not UTF-8"@
}

/// The document that the writer makes of the events, or why it makes none:
/// the first refusal of an event, or that what it wrote is no text.
pub open spec fn document(events: Seq<MarkupEventView>) -> Result<Seq<char>, Seq<char>> {
    match first_refusal(Seq::empty(), events) {
        Some(refusal) => Err(refusal),
        None => match document_text(events) {
            Some(text) => Ok(text),
            None => Err(not_text()),
        },
    }
}

/// The error for a document that could not be written.
pub open spec fn xml_error(cause: Seq<char>) -> SsmlErrorView {
    SsmlErrorView { kind: SsmlErrorKind::Xml, source: Some(cause) }
}

/// `xml::EventWriter::new_with_config` over an empty buffer, with the
/// document declaration switched off. The writer has taken no event.
#[verifier::external_body]
fn new_writer() -> (writer: xml::EventWriter<Vec<u8>>)
    ensures
        written(writer) == Seq::<MarkupEventView>::empty(),
{
    xml::EventWriter::new_with_config(
        Vec::new(),
        xml::EmitterConfig::new().write_document_declaration(false),
    )
}

/// `xml::EventWriter::write` of a start element, built with
/// `XmlEvent::start_element`, `ns` and `attr`. What it answers is a function
/// of the events taken before and of the element; where it takes the
/// element, the element is the last event that the writer has taken.
#[verifier::external_body]
fn write_start(writer: &mut xml::EventWriter<Vec<u8>>, element: &Element) -> (refusal: Option<String>)
    ensures
        match refusal {
            None => write_refusal(written(*old(writer)), MarkupEventView::Start(element@)) is None
                && written(*final(writer)) == written(*old(writer)).push(
                MarkupEventView::Start(element@),
            ),
            Some(cause) => write_refusal(written(*old(writer)), MarkupEventView::Start(element@))
                == Some(cause@),
        },
{
    let mut start = xml::writer::XmlEvent::start_element(element.name.as_str());
    for (prefix, uri) in &element.namespaces {
        start = start.ns(prefix.as_str(), uri.as_str());
    }
    for (name, value) in &element.attributes {
        start = start.attr(name.as_str(), value.as_str());
    }
    writer.write(start).err().map(|e| e.to_string())
}

/// `xml::EventWriter::write` of character data, built with
/// `XmlEvent::characters`. What it answers is a function of the events
/// taken before and of the text; where it takes the text, the text is the
/// last event that the writer has taken.
#[verifier::external_body]
fn write_text(writer: &mut xml::EventWriter<Vec<u8>>, text: &str) -> (refusal: Option<String>)
    ensures
        match refusal {
            None => write_refusal(written(*old(writer)), MarkupEventView::Text(text@)) is None
                && written(*final(writer)) == written(*old(writer)).push(
                MarkupEventView::Text(text@),
            ),
            Some(cause) => write_refusal(written(*old(writer)), MarkupEventView::Text(text@))
                == Some(cause@),
        },
{
    writer.write(xml::writer::XmlEvent::characters(text)).err().map(|e| e.to_string())
}

/// `xml::EventWriter::write` of an end element, built with
/// `XmlEvent::end_element`. What it answers is a function of the events
/// taken before; where it takes the end, the end is the last event that the
/// writer has taken.
#[verifier::external_body]
fn write_end(writer: &mut xml::EventWriter<Vec<u8>>) -> (refusal: Option<String>)
    ensures
        match refusal {
            None => write_refusal(written(*old(writer)), MarkupEventView::End) is None && written(
                *final(writer),
            ) == written(*old(writer)).push(MarkupEventView::End),
            Some(cause) => write_refusal(written(*old(writer)), MarkupEventView::End) == Some(
                cause@,
            ),
        },
{
    writer.write(xml::writer::XmlEvent::end_element()).err().map(|e| e.to_string())
}

/// `xml::EventWriter::into_inner`, read as text with `String::from_utf8`:
/// what the writer has put into its buffer for the events that it has taken.
#[verifier::external_body]
fn into_document(writer: xml::EventWriter<Vec<u8>>) -> (text: Option<String>)
    ensures
        match text {
            Some(t) => document_text(written(writer)) == Some(t@),
            None => document_text(written(writer)) is None,
        },
{
    String::from_utf8(writer.into_inner()).ok()
}

/// Writes the events as one document.
pub fn render(events: &[MarkupEvent]) -> (rendered: Result<String, SsmlError>)
    ensures
        match rendered {
            Ok(text) => document(event_views(events@)) == Ok::<Seq<char>, Seq<char>>(text@),
            Err(error) => document(event_views(events@)) is Err && error@ == xml_error(
                document(event_views(events@))->Err_0,
            ),
        },
{
    let ghost all = event_views(events@);
    let mut writer = new_writer();
    let mut i: usize = 0;
    assert(all.take(0) =~= Seq::<MarkupEventView>::empty());
    assert(all.skip(0) =~= all);
    while i < events.len()
        invariant
            i <= events@.len(),
            all == event_views(events@),
            written(writer) == all.take(i as int),
            first_refusal(Seq::empty(), all) == first_refusal(all.take(i as int), all.skip(i as int)),
        decreases events@.len() - i,
    {
        proof {
            assert(all.skip(i as int)[0] == events@[i as int]@);
            assert(all.skip(i as int).drop_first() =~= all.skip(i + 1));
            assert(all.take(i as int).push(events@[i as int]@) =~= all.take(i + 1));
        }
        let refusal = match &events[i] {
            MarkupEvent::Start(element) => write_start(&mut writer, element),
            MarkupEvent::Text(text) => write_text(&mut writer, text.as_str()),
            MarkupEvent::End => write_end(&mut writer),
        };
        if let Some(cause) = refusal {
            return Err(SsmlError::xml(cause));
        }
        i += 1;
    }
    assert(all.take(i as int) =~= all);
    match into_document(writer) {
        Some(text) => Ok(text),
        None => Err(SsmlError::xml(String::from_str("the document is not UTF-8"))),
    }
}

/// Interpolate SSML from text and options: the document that the writer
/// makes of the markup of the text.
pub fn interpolate_ssml(text: &str, options: &TextOptions) -> (rendered: Result<String, SsmlError>)
    ensures
        match rendered {
            Ok(ssml) => document(markup(text@, options@)) == Ok::<Seq<char>, Seq<char>>(ssml@),
            Err(error) => document(markup(text@, options@)) is Err && error@ == xml_error(
                document(markup(text@, options@))->Err_0,
            ),
        },
{
    let events = markup_events(text, options);
    render(events.as_slice())
}

} // verus!
