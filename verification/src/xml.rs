//! Writing XML documents: the events a document is made of, and a writer that
//! renders them with quick-xml (two-space indentation, UTF-8 declaration).
use vstd::prelude::*;
use crate::decimal::{display_prec_spec, normalize, normalize_spec, to_fixed_string, Dec};
use crate::model::error::RechnungError;
use crate::text::{push_str, string_of};

verus! {

#[verifier::external_type_specification]
#[verifier::external_body]
#[verifier::reject_recursive_types(W)]
pub struct ExXmlWriter<W>(quick_xml::Writer<W>);

#[verifier::external_type_specification]
#[verifier::external_body]
#[verifier::reject_recursive_types(T)]
pub struct ExCursor<T>(std::io::Cursor<T>);

/// One item of an XML document, as written.
pub enum XmlEv {
    /// `<?xml version="1.0" encoding="UTF-8"?>`.
    Decl,
    /// A start tag with its attributes.
    Start(Seq<char>, Seq<(Seq<char>, Seq<char>)>),
    /// An end tag.
    End(Seq<char>),
    /// Character data (escaped on output).
    Text(Seq<char>),
    /// An empty element `<name/>`.
    Empty(Seq<char>),
    /// Text written as it is, past the writer's indentation.
    Raw(Seq<char>),
}

/// The items written so far by a quick-xml writer over an in-memory buffer.
pub uninterp spec fn xml_written(w: quick_xml::Writer<std::io::Cursor<Vec<u8>>>) -> Seq<XmlEv>;

/// The text quick-xml renders for a sequence of items (two-space indent).
pub uninterp spec fn xml_rendering(events: Seq<XmlEv>) -> Seq<char>;

pub open spec fn attrs_view(a: Seq<(&str, &str)>) -> Seq<(Seq<char>, Seq<char>)> {
    a.map_values(|p: (&str, &str)| (p.0@, p.1@))
}

/// Calls `quick_xml::Writer::new_with_indent` over an empty `Cursor<Vec<u8>>`
/// with two spaces per level; nothing has been written yet.
#[verifier::external_body]
fn sink_new() -> (w: quick_xml::Writer<std::io::Cursor<Vec<u8>>>)
    ensures
        xml_written(w) == Seq::<XmlEv>::empty(),
{
    quick_xml::Writer::new_with_indent(std::io::Cursor::new(Vec::new()), b' ', 2)
}

/// Calls `Writer::write_event` with an XML declaration (version 1.0, UTF-8),
/// which becomes the last item written. Writing into an in-memory
/// `Cursor<Vec<u8>>` does not fail, and `write_event` fails only where the
/// inner writer does; the same holds of every `sink_*` below.
#[verifier::external_body]
fn sink_decl(w: &mut quick_xml::Writer<std::io::Cursor<Vec<u8>>>) -> (r: Result<(), String>)
    ensures
        r is Ok,
        xml_written(*final(w)) == xml_written(*old(w)).push(XmlEv::Decl),
{
    w.write_event(quick_xml::events::Event::Decl(
        quick_xml::events::BytesDecl::new("1.0", Some("UTF-8"), None),
    )).map_err(|e| e.to_string())
}

/// Calls `Writer::write_event` with a start tag carrying `attrs` in order.
#[verifier::external_body]
fn sink_start(
    w: &mut quick_xml::Writer<std::io::Cursor<Vec<u8>>>,
    name: &str,
    attrs: &[(&str, &str)],
) -> (r: Result<(), String>)
    ensures
        r is Ok,
        xml_written(*final(w)) == xml_written(*old(w)).push(
            XmlEv::Start(name@, attrs_view(attrs@)),
        ),
{
    let e = quick_xml::events::BytesStart::new(name).with_attributes(attrs.iter().copied());
    w.write_event(quick_xml::events::Event::Start(e)).map_err(|e| e.to_string())
}

/// Calls `Writer::write_event` with an end tag.
#[verifier::external_body]
fn sink_end(w: &mut quick_xml::Writer<std::io::Cursor<Vec<u8>>>, name: &str) -> (r: Result<
    (),
    String,
>)
    ensures
        r is Ok,
        xml_written(*final(w)) == xml_written(*old(w)).push(XmlEv::End(name@)),
{
    w.write_event(quick_xml::events::Event::End(quick_xml::events::BytesEnd::new(name))).map_err(
        |e| e.to_string(),
    )
}

/// Calls `Writer::write_event` with character data (`BytesText::new`, which
/// escapes it).
#[verifier::external_body]
fn sink_text(w: &mut quick_xml::Writer<std::io::Cursor<Vec<u8>>>, text: &str) -> (r: Result<
    (),
    String,
>)
    ensures
        r is Ok,
        xml_written(*final(w)) == xml_written(*old(w)).push(XmlEv::Text(text@)),
{
    w.write_event(quick_xml::events::Event::Text(quick_xml::events::BytesText::new(text))).map_err(
        |e| e.to_string(),
    )
}

/// Calls `Writer::write_event` with an empty element.
#[verifier::external_body]
fn sink_empty(w: &mut quick_xml::Writer<std::io::Cursor<Vec<u8>>>, name: &str) -> (r: Result<
    (),
    String,
>)
    ensures
        r is Ok,
        xml_written(*final(w)) == xml_written(*old(w)).push(XmlEv::Empty(name@)),
{
    w.write_event(quick_xml::events::Event::Empty(quick_xml::events::BytesStart::new(name)))
        .map_err(|e| e.to_string())
}

/// Calls `Write::write_all` on the writer's buffer (`Writer::get_mut`) with the
/// bytes of `text`, bypassing the writer's indentation.
#[verifier::external_body]
fn sink_raw(w: &mut quick_xml::Writer<std::io::Cursor<Vec<u8>>>, text: &str) -> (r: Result<
    (),
    String,
>)
    ensures
        r is Ok,
        xml_written(*final(w)) == xml_written(*old(w)).push(XmlEv::Raw(text@)),
{
    std::io::Write::write_all(w.get_mut(), text.as_bytes()).map_err(|e| e.to_string())
}

/// Calls `Writer::into_inner`, `Cursor::into_inner` and `String::from_utf8`:
/// the text is the rendering of what was written. Everything written came
/// from `&str` values (escaped or raw), so the bytes are UTF-8.
#[verifier::external_body]
fn sink_finish(w: quick_xml::Writer<std::io::Cursor<Vec<u8>>>) -> (r: Result<String, String>)
    ensures
        r is Ok,
        r matches Ok(s) ==> s@ == xml_rendering(xml_written(w)),
{
    String::from_utf8(w.into_inner().into_inner()).map_err(|e| e.to_string())
}

/// An XML document being written.
pub struct XmlWriter {
    writer: quick_xml::Writer<std::io::Cursor<Vec<u8>>>,
}

impl View for XmlWriter {
    type V = Seq<XmlEv>;

    closed spec fn view(&self) -> Seq<XmlEv> {
        xml_written(self.writer)
    }
}

/// `<name>text</name>`.
pub open spec fn text_el(name: Seq<char>, text: Seq<char>) -> Seq<XmlEv> {
    seq![XmlEv::Start(name, seq![]), XmlEv::Text(text), XmlEv::End(name)]
}

/// `<name attrs>text</name>`.
pub open spec fn text_el_attrs(
    name: Seq<char>,
    text: Seq<char>,
    attrs: Seq<(Seq<char>, Seq<char>)>,
) -> Seq<XmlEv> {
    seq![XmlEv::Start(name, attrs), XmlEv::Text(text), XmlEv::End(name)]
}

/// An element with the given content.
pub open spec fn el(name: Seq<char>, content: Seq<XmlEv>) -> Seq<XmlEv> {
    seq![XmlEv::Start(name, seq![])] + content + seq![XmlEv::End(name)]
}

impl XmlWriter {
    /// A new document that starts with the XML declaration.
    pub fn new() -> (r: Result<XmlWriter, RechnungError>)
        ensures
            match r {
                Ok(w) => w@ == seq![XmlEv::Decl],
                Err(_) => false,
            },
    {
        let mut writer = sink_new();
        match sink_decl(&mut writer) {
            Ok(()) => {
                proof {
                    assert(xml_written(writer) =~= seq![XmlEv::Decl]);
                }
                Ok(XmlWriter { writer })
            },
            Err(m) => Err(RechnungError::Builder(m)),
        }
    }

    /// The rendered document.
    pub fn into_string(self) -> (r: Result<String, RechnungError>)
        ensures
            match r {
                Ok(s) => s@ == xml_rendering(self@),
                Err(_) => false,
            },
    {
        match sink_finish(self.writer) {
            Ok(s) => Ok(s),
            Err(m) => {
                let mut t = string_of("XML UTF-8 error: ");
                push_str(&mut t, m.as_str());
                Err(RechnungError::Builder(t))
            },
        }
    }

    /// Writes a start tag.
    pub fn start_element(&mut self, name: &str) -> (r: Result<(), RechnungError>)
        ensures
            match r {
                Ok(()) => final(self)@ == old(self)@.push(XmlEv::Start(name@, seq![])),
                Err(_) => false,
            },
    {
        let attrs: [(&str, &str); 0] = [];
        match sink_start(&mut self.writer, name, &attrs) {
            Ok(()) => {
                proof {
                    assert(attrs_view(attrs@) =~= Seq::<(Seq<char>, Seq<char>)>::empty());
                }
                Ok(())
            },
            Err(m) => Err(RechnungError::Builder(m)),
        }
    }

    /// Writes a start tag with attributes.
    pub fn start_element_with_attrs(&mut self, name: &str, attrs: &[(&str, &str)]) -> (r: Result<
        (),
        RechnungError,
    >)
        ensures
            match r {
                Ok(()) => final(self)@ == old(self)@.push(XmlEv::Start(name@, attrs_view(attrs@))),
                Err(_) => false,
            },
    {
        match sink_start(&mut self.writer, name, attrs) {
            Ok(()) => Ok(()),
            Err(m) => Err(RechnungError::Builder(m)),
        }
    }

    /// Writes an end tag.
    pub fn end_element(&mut self, name: &str) -> (r: Result<(), RechnungError>)
        ensures
            match r {
                Ok(()) => final(self)@ == old(self)@.push(XmlEv::End(name@)),
                Err(_) => false,
            },
    {
        match sink_end(&mut self.writer, name) {
            Ok(()) => Ok(()),
            Err(m) => Err(RechnungError::Builder(m)),
        }
    }

    /// Writes character data.
    pub fn text(&mut self, text: &str) -> (r: Result<(), RechnungError>)
        ensures
            match r {
                Ok(()) => final(self)@ == old(self)@.push(XmlEv::Text(text@)),
                Err(_) => false,
            },
    {
        match sink_text(&mut self.writer, text) {
            Ok(()) => Ok(()),
            Err(m) => Err(RechnungError::Builder(m)),
        }
    }

    /// Writes an empty element.
    pub fn empty_element(&mut self, name: &str) -> (r: Result<(), RechnungError>)
        ensures
            match r {
                Ok(()) => final(self)@ == old(self)@.push(XmlEv::Empty(name@)),
                Err(_) => false,
            },
    {
        match sink_empty(&mut self.writer, name) {
            Ok(()) => Ok(()),
            Err(m) => Err(RechnungError::Builder(m)),
        }
    }

    /// Writes text as it is, without escaping or indentation.
    pub fn raw(&mut self, text: &str) -> (r: Result<(), RechnungError>)
        ensures
            match r {
                Ok(()) => final(self)@ == old(self)@.push(XmlEv::Raw(text@)),
                Err(_) => false,
            },
    {
        match sink_raw(&mut self.writer, text) {
            Ok(()) => Ok(()),
            Err(m) => Err(RechnungError::Builder(m)),
        }
    }

    /// Writes `<name>text</name>`.
    pub fn text_element(&mut self, name: &str, text: &str) -> (r: Result<(), RechnungError>)
        ensures
            match r {
                Ok(()) => final(self)@ == old(self)@ + text_el(name@, text@),
                Err(_) => false,
            },
    {
        self.start_element(name)?;
        self.text(text)?;
        self.end_element(name)?;
        proof {
            assert(self@ =~= old(self)@ + text_el(name@, text@));
        }
        Ok(())
    }

    /// Writes `<name attrs>text</name>`.
    pub fn text_element_with_attrs(&mut self, name: &str, text: &str, attrs: &[(&str, &str)]) -> (r:
        Result<(), RechnungError>)
        ensures
            match r {
                Ok(()) => final(self)@ == old(self)@ + text_el_attrs(
                    name@,
                    text@,
                    attrs_view(attrs@),
                ),
                Err(_) => false,
            },
    {
        self.start_element_with_attrs(name, attrs)?;
        self.text(text)?;
        self.end_element(name)?;
        proof {
            assert(self@ =~= old(self)@ + text_el_attrs(name@, text@, attrs_view(attrs@)));
        }
        Ok(())
    }

    /// Writes a decimal amount with its `currencyID` attribute.
    pub fn amount_element(&mut self, name: &str, amount: Dec, currency: &str) -> (r: Result<
        (),
        RechnungError,
    >)
        ensures
            match r {
                Ok(()) => final(self)@ == old(self)@ + text_el_attrs(
                    name@,
                    decimal_text(amount@),
                    seq![("currencyID"@, currency@)],
                ),
                Err(_) => false,
            },
    {
        let t = format_decimal(amount);
        let attrs = [("currencyID", currency)];
        let r = self.text_element_with_attrs(name, t.as_str(), &attrs);
        proof {
            assert(attrs_view(attrs@) =~= seq![("currencyID"@, currency@)]);
        }
        r
    }

    /// Writes a quantity with its `unitCode` attribute.
    pub fn quantity_element(&mut self, name: &str, qty: Dec, unit: &str) -> (r: Result<
        (),
        RechnungError,
    >)
        ensures
            match r {
                Ok(()) => final(self)@ == old(self)@ + text_el_attrs(
                    name@,
                    decimal_text(qty@),
                    seq![("unitCode"@, unit@)],
                ),
                Err(_) => false,
            },
    {
        let t = format_decimal(qty);
        let attrs = [("unitCode", unit)];
        let r = self.text_element_with_attrs(name, t.as_str(), &attrs);
        proof {
            assert(attrs_view(attrs@) =~= seq![("unitCode"@, unit@)]);
        }
        r
    }
}

/// A decimal as written in XML: trailing zeros dropped, but at least two
/// decimal places.
pub open spec fn decimal_text(d: (i128, u32)) -> Seq<char> {
    let n = normalize_spec(d);
    display_prec_spec(n, if n.1 < 2 { 2 } else { n.1 as nat })
}

/// Format a decimal for XML output: at least 2 decimal places, trailing zeros
/// beyond that stripped.
pub fn format_decimal(d: Dec) -> (r: String)
    ensures
        r@ == decimal_text(d@),
{
    let n = normalize(d);
    let p: usize = if n.scale() < 2 {
        2
    } else {
        n.scale() as usize
    };
    to_fixed_string(&n, p)
}

/// The items of each part, one part after the other.
pub open spec fn xml_concat(s: Seq<Seq<XmlEv>>) -> Seq<XmlEv>
    decreases s.len(),
{
    if s.len() == 0 {
        seq![]
    } else {
        xml_concat(s.drop_last()) + s.last()
    }
}

pub proof fn lemma_xml_concat_push(s: Seq<Seq<XmlEv>>, x: Seq<XmlEv>)
    ensures
        xml_concat(s.push(x)) == xml_concat(s) + x,
{
    assert(s.push(x).drop_last() =~= s);
}

/// The items of two lists of parts are those of the first, then those of
/// the second.
pub proof fn lemma_xml_concat_append(a: Seq<Seq<XmlEv>>, b: Seq<Seq<XmlEv>>)
    ensures
        xml_concat(a + b) == xml_concat(a) + xml_concat(b),
    decreases b.len(),
{
    if b.len() == 0 {
        assert(a + b =~= a);
        assert(xml_concat(b) =~= Seq::<XmlEv>::empty());
        assert(xml_concat(a) + xml_concat(b) =~= xml_concat(a));
    } else {
        let c = b.drop_last();
        lemma_xml_concat_append(a, c);
        assert((a + b).drop_last() =~= a + c);
        assert((a + b).last() == b.last());
        assert(xml_concat(a + b) =~= xml_concat(a) + xml_concat(b));
    }
}

/// `<name>text</name>` where the text is given, nothing otherwise.
pub open spec fn opt_text_el(name: Seq<char>, o: Option<String>) -> Seq<XmlEv> {
    match o {
        Some(s) => text_el(name, s@),
        None => seq![],
    }
}

impl XmlWriter {
    /// Writes `<name>text</name>` where the text is given.
    pub fn opt_text_element(&mut self, name: &str, o: &Option<String>) -> (r: Result<
        (),
        RechnungError,
    >)
        ensures
            match r {
                Ok(()) => final(self)@ == old(self)@ + opt_text_el(name@, *o),
                Err(_) => false,
            },
    {
        match o {
            Some(s) => self.text_element(name, s.as_str()),
            None => {
                proof {
                    assert(self@ =~= old(self)@ + opt_text_el(name@, *o));
                }
                Ok(())
            },
        }
    }
}

} // verus!
