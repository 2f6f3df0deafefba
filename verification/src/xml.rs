//! Plain XML events for the manifest loader.  quick_xml does the scanning;
//! its events are converted to plain values behind the trusted items below,
//! and everything downstream works on the named event stream.

use vstd::prelude::*;

verus! {

/// One event of an XML scan, as plain values.
#[derive(Debug, Clone)]
pub enum XmlEvent {
    /// A start or empty element: its tag name and its attributes in document
    /// order; `attrs` is `None` when an attribute is malformed or repeated.
    Elem { name: String, attrs: Option<Vec<(String, String)>> },
    /// Character data; `content` is `None` when unescaping it fails.
    Text { content: Option<String> },
    /// An end tag.
    End,
    /// Anything else the scanner reports: comments, declarations, processing
    /// instructions, CDATA sections, document type declarations.
    Other,
}

/// The mathematical image of one event.
#[verifier::ext_equal]
pub ghost enum XmlEventV {
    Elem { name: Seq<char>, attrs: Option<Seq<(Seq<char>, Seq<char>)>> },
    Text { content: Option<Seq<char>> },
    End,
    Other,
}

impl DeepView for XmlEvent {
    type V = XmlEventV;

    open spec fn deep_view(&self) -> XmlEventV {
        match self {
            XmlEvent::Elem { name, attrs } => XmlEventV::Elem {
                name: name.deep_view(),
                attrs: attrs.deep_view(),
            },
            XmlEvent::Text { content } => XmlEventV::Text { content: content.deep_view() },
            XmlEvent::End => XmlEventV::End,
            XmlEvent::Other => XmlEventV::Other,
        }
    }
}

/// The event sequence an XML scan of the given bytes yields, or `None` when
/// the document is malformed.  The scan is deterministic, so this is a
/// function of the bytes alone; nothing more is assumed of its value.
pub uninterp spec fn xml_events_of(input: Seq<u8>) -> Option<Seq<XmlEventV>>;

#[verifier::external_type_specification]
#[verifier::external_body]
pub struct ExBytesStart<'a>(quick_xml::events::BytesStart<'a>);

/// Relies on quick_xml::events::BytesStart: converts one element's tag name
/// and attributes to plain strings; a malformed or repeated attribute turns
/// the attribute list into `None`.
#[verifier::external_body]
fn elem_event(e: &quick_xml::events::BytesStart) -> XmlEvent {
    let name = String::from_utf8_lossy(e.name().as_ref()).into_owned();
    let mut attrs: Vec<(String, String)> = Vec::new();
    for a in e.attributes() {
        match a {
            Ok(a) => match a.unescape_value() {
                Ok(v) => attrs.push((
                    String::from_utf8_lossy(a.key.as_ref()).into_owned(),
                    v.into_owned(),
                )),
                Err(_) => return XmlEvent::Elem { name, attrs: None },
            },
            Err(_) => return XmlEvent::Elem { name, attrs: None },
        }
    }
    XmlEvent::Elem { name, attrs: Some(attrs) }
}

/// Relies on quick_xml::Reader::read_event over a byte slice: the scan of
/// one whole document, as the plain events named by [`xml_events_of`];
/// `None` stands for malformed XML.
#[verifier::external_body]
pub(crate) fn read_xml_events(input: &[u8]) -> (r: Option<Vec<XmlEvent>>)
    ensures
        r.deep_view() == xml_events_of(input@),
{
    let mut reader = quick_xml::Reader::from_reader(input);
    let mut out: Vec<XmlEvent> = Vec::new();
    loop {
        match reader.read_event() {
            Ok(quick_xml::events::Event::Start(e)) => out.push(elem_event(&e)),
            Ok(quick_xml::events::Event::Empty(e)) => out.push(elem_event(&e)),
            Ok(quick_xml::events::Event::Text(t)) => out.push(XmlEvent::Text {
                content: t.unescape().ok().map(|c| c.into_owned()),
            }),
            Ok(quick_xml::events::Event::End(_)) => out.push(XmlEvent::End),
            Ok(quick_xml::events::Event::Eof) => return Some(out),
            Ok(_) => out.push(XmlEvent::Other),
            Err(_) => return None,
        }
    }
}

} // verus!
