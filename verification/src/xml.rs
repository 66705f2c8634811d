//! XML documents as event sequences, written out by quick-xml.
use vstd::prelude::*;
use quick_xml::events::{BytesCData, BytesEnd, BytesStart, BytesText, Event};

verus! {

/// An XML writing event.
pub enum XmlEv {
    /// An opening tag with its attributes (name, unescaped value).
    Start(Seq<char>, Seq<(Seq<char>, Seq<char>)>),
    /// A closing tag.
    End(Seq<char>),
    /// A self-closing tag without attributes.
    Empty(Seq<char>),
    /// Character data, escaped when written.
    Text(Seq<char>),
    /// A CDATA section, written verbatim.
    CData(Seq<char>),
}

/// An XML writing event.
#[derive(Clone, Debug)]
pub enum XmlEvent {
    Start(String, Vec<(String, String)>),
    End(String),
    Empty(String),
    Text(String),
    CData(String),
}

/// The (name, value) pairs of a list of attributes.
pub open spec fn attr_pairs(attrs: Seq<(String, String)>) -> Seq<(Seq<char>, Seq<char>)> {
    attrs.map_values(|a: (String, String)| (a.0@, a.1@))
}

impl View for XmlEvent {
    type V = XmlEv;

    open spec fn view(&self) -> XmlEv {
        match self {
            XmlEvent::Start(n, a) => XmlEv::Start(n@, attr_pairs(a@)),
            XmlEvent::End(n) => XmlEv::End(n@),
            XmlEvent::Empty(n) => XmlEv::Empty(n@),
            XmlEvent::Text(t) => XmlEv::Text(t@),
            XmlEvent::CData(t) => XmlEv::CData(t@),
        }
    }
}

/// The events of a list, as values.
pub open spec fn ev_views(v: Seq<XmlEvent>) -> Seq<XmlEv> {
    v.map_values(|e: XmlEvent| e@)
}

// ---------------------------------------------------------------------------
// Element shapes
// ---------------------------------------------------------------------------

/// `<name>text</name>`.
pub open spec fn text_el(name: Seq<char>, text: Seq<char>) -> Seq<XmlEv> {
    seq![XmlEv::Start(name, seq![]), XmlEv::Text(text), XmlEv::End(name)]
}

/// `<name a="v" ...>text</name>`.
pub open spec fn attr_text_el(name: Seq<char>, attrs: Seq<(Seq<char>, Seq<char>)>, text: Seq<char>) -> Seq<
    XmlEv,
> {
    seq![XmlEv::Start(name, attrs), XmlEv::Text(text), XmlEv::End(name)]
}

/// `<name><![CDATA[text]]></name>`.
pub open spec fn cdata_el(name: Seq<char>, text: Seq<char>) -> Seq<XmlEv> {
    seq![XmlEv::Start(name, seq![]), XmlEv::CData(text), XmlEv::End(name)]
}

/// `<name/>`.
pub open spec fn empty_el(name: Seq<char>) -> Seq<XmlEv> {
    seq![XmlEv::Empty(name)]
}

/// `<name>text</name>` when there is a text, nothing otherwise.
pub open spec fn opt_text_el(name: Seq<char>, text: Option<Seq<char>>) -> Seq<XmlEv> {
    match text {
        Some(t) => text_el(name, t),
        None => seq![],
    }
}

// ---------------------------------------------------------------------------
// Building
// ---------------------------------------------------------------------------

/// A growing list of XML events.
pub struct XmlEvents {
    pub events: Vec<XmlEvent>,
}

impl View for XmlEvents {
    type V = Seq<XmlEv>;

    open spec fn view(&self) -> Seq<XmlEv> {
        ev_views(self.events@)
    }
}

impl XmlEvents {
    /// No events.
    pub fn new() -> (r: Self)
        ensures
            r@ == Seq::<XmlEv>::empty(),
    {
        let r = XmlEvents { events: Vec::new() };
        assert(r@ =~= Seq::<XmlEv>::empty());
        r
    }

    /// Appends one event.
    pub fn push(&mut self, e: XmlEvent)
        ensures
            final(self)@ == old(self)@.push(e@),
    {
        self.events.push(e);
        assert(self@ =~= old(self)@.push(e@));
    }

    /// Opens an element without attributes.
    pub fn start(&mut self, name: &str)
        ensures
            final(self)@ == old(self)@.push(XmlEv::Start(name@, seq![])),
    {
        let attrs: Vec<(String, String)> = Vec::new();
        assert(attr_pairs(attrs@) =~= seq![]);
        self.push(XmlEvent::Start(name.to_owned(), attrs));
    }

    /// Closes an element.
    pub fn end(&mut self, name: &str)
        ensures
            final(self)@ == old(self)@.push(XmlEv::End(name@)),
    {
        self.push(XmlEvent::End(name.to_owned()));
    }

    /// Writes `<name>text</name>`.
    pub fn text_element(&mut self, name: &str, text: &str)
        ensures
            final(self)@ == old(self)@ + text_el(name@, text@),
    {
        self.start(name);
        self.push(XmlEvent::Text(text.to_owned()));
        self.end(name);
        assert(final(self)@ =~= old(self)@ + text_el(name@, text@));
    }

    /// Writes `<name a="v" ...>text</name>`.
    pub fn attr_text_element(&mut self, name: &str, attrs: Vec<(String, String)>, text: &str)
        ensures
            final(self)@ == old(self)@ + attr_text_el(name@, attr_pairs(attrs@), text@),
    {
        let ghost a = attr_pairs(attrs@);
        self.push(XmlEvent::Start(name.to_owned(), attrs));
        self.push(XmlEvent::Text(text.to_owned()));
        self.end(name);
        assert(final(self)@ =~= old(self)@ + attr_text_el(name@, a, text@));
    }

    /// Writes `<name><![CDATA[text]]></name>`.
    pub fn cdata_element(&mut self, name: &str, text: &str)
        ensures
            final(self)@ == old(self)@ + cdata_el(name@, text@),
    {
        self.start(name);
        self.push(XmlEvent::CData(text.to_owned()));
        self.end(name);
        assert(final(self)@ =~= old(self)@ + cdata_el(name@, text@));
    }

    /// Writes `<name/>`.
    pub fn empty_element(&mut self, name: &str)
        ensures
            final(self)@ == old(self)@ + empty_el(name@),
    {
        self.push(XmlEvent::Empty(name.to_owned()));
        assert(final(self)@ =~= old(self)@ + empty_el(name@));
    }

    /// Writes `<name>text</name>` when there is a text.
    pub fn opt_text_element(&mut self, name: &str, text: &Option<String>)
        ensures
            final(self)@ == old(self)@ + opt_text_el(
                name@,
                match text {
                    Some(t) => Some(t@),
                    None => None,
                },
            ),
    {
        match text {
            Some(t) => self.text_element(name, t.as_str()),
            None => {
                assert(old(self)@ + seq![] =~= old(self)@);
            },
        }
    }
}

// ---------------------------------------------------------------------------
// Writing
// ---------------------------------------------------------------------------

#[verifier::external_type_specification]
#[verifier::external_body]
#[verifier::reject_recursive_types(W)]
pub struct ExXmlWriter<W>(quick_xml::Writer<W>);

#[verifier::external_type_specification]
#[verifier::external_body]
pub struct ExIoError(std::io::Error);

/// How a quick-xml writer over a byte vector stands: the indentation
/// character and width it was made with, and the events written to it so far
/// (the writer itself keeps only the bytes and its indentation; this is the
/// record of what produced them).
pub uninterp spec fn xml_writer_state(w: quick_xml::Writer<Vec<u8>>) -> (u8, nat, Seq<XmlEv>);

/// The bytes that a quick-xml writer made by `Writer::new_with_indent(Vec::new(),
/// indent_char, indent_size)` holds after the events were written to it.
pub uninterp spec fn xml_indented(indent_char: u8, indent_size: nat, events: Seq<XmlEv>) -> Seq<u8>;

/// quick-xml: `Writer::new_with_indent(Vec::new(), indent_char, indent_size)`.
/// Its state is the indentation it was made with and no events.
#[verifier::external_body]
fn xml_writer_new(indent_char: u8, indent_size: usize) -> (w: quick_xml::Writer<Vec<u8>>)
    ensures
        xml_writer_state(w) == (indent_char, indent_size as nat, Seq::<XmlEv>::empty()),
{
    quick_xml::Writer::new_with_indent(Vec::new(), indent_char, indent_size)
}

/// quick-xml: `Writer::write_event` with the event converted one for one
/// (`BytesStart::new(..).with_attributes(..)`, `BytesEnd::new`,
/// `BytesStart::new` as `Event::Empty`, `BytesText::new`, `BytesCData::new`).
/// Every error that `write_event` returns comes from `write_all` on the
/// inner writer, and writing into a `Vec<u8>` appends to it, so the call
/// succeeds and the event is added to the writer's state.
/// The writer keeps its indentation as a string of the indentation character
/// and cuts it at a byte count, which panics inside a character that takes
/// more than one byte: the indentation character is ASCII here.  The
/// indentation at a depth is the depth times the width; with a width of at
/// most four it fits in a `usize`, since every open element already took two
/// bytes ('<' and '>') of the vector.
#[verifier::external_body]
fn xml_writer_write(w: &mut quick_xml::Writer<Vec<u8>>, e: &XmlEvent) -> (r: Result<(), std::io::Error>)
    requires
        xml_writer_state(*old(w)).0 < 128,
        xml_writer_state(*old(w)).1 <= 4,
    ensures
        r is Ok,
        xml_writer_state(*final(w)) == (
            xml_writer_state(*old(w)).0,
            xml_writer_state(*old(w)).1,
            xml_writer_state(*old(w)).2.push(e@),
        ),
{
    match e {
        XmlEvent::Start(name, attrs) => w.write_event(Event::Start(
            BytesStart::new(name.as_str()).with_attributes(
                attrs.iter().map(|a| (a.0.as_str(), a.1.as_str())),
            ),
        )),
        XmlEvent::End(name) => w.write_event(Event::End(BytesEnd::new(name.as_str()))),
        XmlEvent::Empty(name) => w.write_event(Event::Empty(BytesStart::new(name.as_str()))),
        XmlEvent::Text(t) => w.write_event(Event::Text(BytesText::new(t.as_str()))),
        XmlEvent::CData(t) => w.write_event(Event::CData(BytesCData::new(t.as_str()))),
    }
}

/// quick-xml: `Writer::into_inner`.  The bytes are those of the writer's
/// state.  Everything the writer puts into the vector is the bytes of a
/// `str` (names, escaped texts and attribute values, CDATA, markup) or of the
/// indentation string made of the indentation character, so with an ASCII
/// indentation character the bytes are UTF-8.
#[verifier::external_body]
fn xml_writer_into_bytes(w: quick_xml::Writer<Vec<u8>>) -> (b: Vec<u8>)
    ensures
        b@ == xml_indented(xml_writer_state(w).0, xml_writer_state(w).1, xml_writer_state(w).2),
        xml_writer_state(w).0 < 128 ==> vstd::utf8::valid_utf8(b@),
{
    w.into_inner()
}

/// Indentation character of written documents.
pub const INDENT_CHAR: u8 = 32;

/// Indentation width of written documents.
pub const INDENT_SIZE: usize = 4;

/// The bytes of `events` written with four-space indentation, which are
/// UTF-8.  Writing into memory does not fail, so there are always bytes.
pub fn render_events(events: &Vec<XmlEvent>) -> (r: Option<Vec<u8>>)
    ensures
        r matches Some(b) && b@ == xml_indented(INDENT_CHAR, INDENT_SIZE as nat, ev_views(events@))
            && vstd::utf8::valid_utf8(b@),
{
    let mut w = xml_writer_new(INDENT_CHAR, INDENT_SIZE);
    let mut i: usize = 0;
    while i < events.len()
        invariant
            i <= events@.len(),
            xml_writer_state(w) == (INDENT_CHAR, INDENT_SIZE as nat, ev_views(events@.take(i as int))),
        decreases events@.len() - i,
    {
        match xml_writer_write(&mut w, &events[i]) {
            Ok(()) => {},
            Err(_) => {
                return None;
            },
        }
        assert(ev_views(events@.take(i + 1)) =~= ev_views(events@.take(i as int)).push(events@[i as int]@));
        i = i + 1;
    }
    assert(events@.take(events@.len() as int) =~= events@);
    Some(xml_writer_into_bytes(w))
}

} // verus!
