//! The XML events that the parser works on, and the calls into `quick_xml`
//! that produce them.

use vstd::prelude::*;
use quick_xml::Reader;
use quick_xml::events::{Event, BytesStart, BytesEnd, BytesText};
use crate::serialiser::escape;

verus! {

/// An XML attribute as read from a tag: its qualified name, and its value
/// after unescaping and decoding (`None` where the value could not be decoded).
pub struct XmlAttribute {
    pub key: String,
    pub value: Option<String>,
}

/// A tag: the namespace its prefix resolves to (if any), its local name, and its attributes
/// (none for an end tag).
pub struct XmlTag {
    pub namespace: Option<String>,
    pub name: String,
    pub attributes: Vec<XmlAttribute>,
}

/// An event of an XML reader.
pub enum XmlEvent {
    ///A start tag (`<tag>`)
    Start(XmlTag),
    ///An empty tag (`<tag/>`)
    Empty(XmlTag),
    ///An end tag (`</tag>`)
    End(XmlTag),
    ///Text, unescaped and decoded
    Text(String),
    ///Text that could not be unescaped or decoded, with the error that says why
    BadText(quick_xml::Error),
    ///A CDATA section, decoded
    CData(String),
    ///A comment, decoded
    Comment(String),
    ///Anything else (declarations, processing instructions, doctype)
    Other,
    ///The end of the input
    Eof,
}

/// A `quick_xml::Reader` over a string of XML, used only through the functions below.
#[verifier::external_body]
pub struct XmlReader<'a> {
    reader: Reader<&'a [u8]>,
}

/// `quick_xml::events::BytesStart`, converted into an [`XmlTag`].
#[verifier::external_type_specification]
#[verifier::external_body]
pub struct ExBytesStart<'a>(BytesStart<'a>);

/// `quick_xml::events::Event`, converted into an [`XmlEvent`].
#[verifier::external_type_specification]
#[verifier::external_body]
pub struct ExEvent<'a>(Event<'a>);

/// `quick_xml::events::BytesEnd`, converted into an [`XmlTag`].
#[verifier::external_type_specification]
#[verifier::external_body]
pub struct ExBytesEnd<'a>(BytesEnd<'a>);

/// A reader over a string of XML (`quick_xml::Reader::from_str`); it does not trim text.
#[verifier::external_body]
pub(crate) fn reader_from_str(data: &str) -> XmlReader<'_> {
    XmlReader { reader: Reader::from_str(data) }
}

/// The namespace that a tag's prefix resolved to, decoded (`quick_xml::Reader::decode`).
#[verifier::external_body]
fn decode_namespace(xml: &XmlReader, ns: Option<&[u8]>) -> Result<Option<String>, quick_xml::Error> {
    match ns {
        Some(bytes) => Ok(Some(decode_raw(xml, bytes)?)),
        None => Ok(None),
    }
}

/// A start or empty tag as an [`XmlTag`] (`BytesStart::local_name`, `BytesStart::attributes`,
/// `Attribute::unescape_and_decode_value`); an attribute that quick_xml cannot read is an error.
#[verifier::external_body]
fn start_tag(xml: &XmlReader, ns: Option<&[u8]>, e: &BytesStart) -> Result<XmlTag, quick_xml::Error> {
    let mut attributes = Vec::new();
    for a in e.attributes() {
        let a = a?;
        let key = decode_raw(xml, a.key)?;
        attributes.push(XmlAttribute { key, value: a.unescape_and_decode_value(&xml.reader).ok() });
    }
    let name = decode_raw(xml, e.local_name())?;
    Ok(XmlTag { namespace: decode_namespace(xml, ns)?, name, attributes })
}

/// An end tag as an [`XmlTag`] (`BytesEnd::local_name`).
#[verifier::external_body]
fn end_tag(xml: &XmlReader, ns: Option<&[u8]>, e: &BytesEnd) -> Result<XmlTag, quick_xml::Error> {
    let name = decode_raw(xml, e.local_name())?;
    Ok(XmlTag { namespace: decode_namespace(xml, ns)?, name, attributes: Vec::new() })
}

/// Raw bytes of the input, decoded (`quick_xml::Reader::decode`).
#[verifier::external_body]
fn decode_raw(xml: &XmlReader, bytes: &[u8]) -> Result<String, quick_xml::Error> {
    Ok(xml.reader.decode(bytes)?.to_owned())
}

/// The next event of the reader (`quick_xml::Reader::read_namespaced_event`), converted. Text is
/// unescaped and decoded (or handed on with the error that stopped that), CDATA and comments are
/// decoded. What comes back depends on the
/// reader's position in its input, which is not stated.
#[verifier::external_body]
pub(crate) fn read_event(xml: &mut XmlReader, buf: &mut Vec<u8>, nsbuf: &mut Vec<u8>) -> Result<XmlEvent, quick_xml::Error> {
    let (ns, event) = xml.reader.read_namespaced_event(buf, nsbuf)?;
    match event {
        Event::Start(e) => Ok(XmlEvent::Start(start_tag(xml, ns, &e)?)),
        Event::Empty(e) => Ok(XmlEvent::Empty(start_tag(xml, ns, &e)?)),
        Event::End(e) => Ok(XmlEvent::End(end_tag(xml, ns, &e)?)),
        other => other_event(xml, other),
    }
}

/// What quick-xml reads from a string of XML, event by event (see ``read_event``): the events
/// up to and with the end of the input, or up to the first error; and whether it stopped on an
/// error. It depends on the string alone.
pub uninterp spec fn xml_events(data: Seq<char>) -> (Seq<XmlEvent>, bool);

/// Reads all events of a string of XML with quick-xml (``read_event`` on a reader from
/// ``reader_from_str``), until the end of the input or the first error, which is returned too.
/// The contract names the result: the events and whether an error stopped the reading are
/// ``xml_events`` of the string; without an error the events end with the end of the input.
#[verifier::external_body]
pub(crate) fn read_events(data: &str) -> (r: (Vec<XmlEvent>, Option<quick_xml::Error>))
    ensures
        r.0@ == xml_events(data@).0,
        (r.1 is Some) == xml_events(data@).1,
        r.1 is None ==> r.0@.len() > 0 && r.0@.last() is Eof,
{
    let (mut xml, mut buf, mut nsbuf, mut events) = (reader_from_str(data), Vec::new(), Vec::new(), Vec::new());
    loop {
        match read_event(&mut xml, &mut buf, &mut nsbuf) {
            Ok(XmlEvent::Eof) => {
                events.push(XmlEvent::Eof);
                return (events, None);
            },
            Ok(event) => events.push(event),
            Err(e) => return (events, Some(e)),
        }
    }
}

/// A text in the escaped form that quick-xml writes (`BytesText::from_plain_str`, which calls
/// `quick_xml::escape::escape`): each `<`, `>`, `'`, `&` and `"` replaced by `&lt;`, `&gt;`,
/// `&apos;`, `&amp;` and `&quot;`, every other character kept. The escaping works on the UTF-8
/// bytes of the text; these five characters are single bytes that no other character contains,
/// so the bytes that come back are valid UTF-8 again.
#[verifier::external_body]
pub(crate) fn escaped_text(text: &str) -> (r: String)
    ensures
        r@ == escape(text@),
{
    String::from_utf8_lossy(BytesText::from_plain_str(text).escaped()).into_owned()
}

/// An event other than a tag, converted (`BytesText::unescape_and_decode` for text,
/// `quick_xml::Reader::decode` for CDATA and comments). Text that cannot be unescaped is no
/// error of the reading: it comes back with its error, for the parser to fail on where it reads
/// the text.
#[verifier::external_body]
fn other_event(xml: &XmlReader, event: Event) -> Result<XmlEvent, quick_xml::Error> {
    match event {
        Event::Text(e) => match e.unescape_and_decode(&xml.reader) {
            Ok(text) => Ok(XmlEvent::Text(text)),
            Err(err) => Ok(XmlEvent::BadText(err)),
        },
        Event::CData(e) => Ok(XmlEvent::CData(decode_raw(xml, &e)?)),
        Event::Comment(e) => Ok(XmlEvent::Comment(decode_raw(xml, &e)?)),
        Event::Eof => Ok(XmlEvent::Eof),
        _ => Ok(XmlEvent::Other),
    }
}

} // verus!
