//! Factur-X/ZUGFeRD XML inside PDF files: embedding the invoice as
//! `factur-x.xml` and finding it again. The PDF object graph is lopdf's;
//! each step on it is one call, and the walk, the choice of the file and the
//! errors are this module's.
use vstd::prelude::*;
use crate::model::error::RechnungError;
use crate::text::{is_ascii_seq, occurs_at, push_str, string_of};
use crate::xrechnung::ubl_invoice::starts_with;
use crate::zugferd::xmp::{build_xmp, xmp_packet};
use crate::zugferd::profile::{
    af_relationship_spec, facturx_entry, facturx_name, lowered, is_facturx_filename, is_first_named_entry, ZugferdProfile, FACTURX_FILENAME,
};

verus! {

#[verifier::external_type_specification]
#[verifier::external_body]
pub struct ExPdfDocument(lopdf::Document);

#[verifier::external_type_specification]
#[verifier::external_body]
pub struct ExPdfObject(lopdf::Object);

#[verifier::external_type_specification]
#[verifier::external_body]
pub struct ExPdfDictionary(lopdf::Dictionary);

#[verifier::external_type_specification]
#[verifier::external_body]
pub struct ExPdfStream(lopdf::Stream);

// ---------------------------------------------------------------- the object model

/// A PDF object as plain values; of a real number only its kind is kept.
pub enum PdfObj {
    Null,
    Boolean(bool),
    Integer(int),
    Real,
    Name(Seq<u8>),
    Str(Seq<u8>),
    Array(Seq<PdfObj>),
    Dict(Map<Seq<u8>, PdfObj>),
    Stream(Map<Seq<u8>, PdfObj>, Seq<u8>),
    Reference(u32, u16),
}

/// What a loaded PDF holds: its objects by number, its trailer and the
/// highest object number in use.
pub struct PdfFile {
    pub objects: Map<(u32, u16), PdfObj>,
    pub trailer: Map<Seq<u8>, PdfObj>,
    pub max_id: u32,
}

/// The UTF-8 encoding of one character.
pub open spec fn utf8_char(c: char) -> Seq<u8> {
    let n = c as int;
    if n < 0x80 {
        seq![n as u8]
    } else if n < 0x800 {
        seq![(0xC0 + n / 64) as u8, (0x80 + n % 64) as u8]
    } else if n < 0x10000 {
        seq![(0xE0 + n / 4096) as u8, (0x80 + (n / 64) % 64) as u8, (0x80 + n % 64) as u8]
    } else {
        seq![
            (0xF0 + n / 262144) as u8,
            (0x80 + (n / 4096) % 64) as u8,
            (0x80 + (n / 64) % 64) as u8,
            (0x80 + n % 64) as u8,
        ]
    }
}

/// The UTF-8 encoding of a text.
pub open spec fn utf8_encode(s: Seq<char>) -> Seq<u8>
    decreases s.len(),
{
    if s.len() == 0 {
        Seq::empty()
    } else {
        utf8_encode(s.drop_last()) + utf8_char(s.last())
    }
}

/// The text whose UTF-8 encoding the bytes are, if there is one.
pub open spec fn utf8_decode(b: Seq<u8>) -> Option<Seq<char>> {
    if exists|s: Seq<char>| utf8_encode(s) == b {
        Some(choose|s: Seq<char>| utf8_encode(s) == b)
    } else {
        None
    }
}

/// The empty dictionary.
pub open spec fn no_entries() -> Map<Seq<u8>, PdfObj> {
    Map::empty()
}

/// A dictionary key given as text.
pub open spec fn key(k: Seq<char>) -> Seq<u8> {
    utf8_encode(k)
}

/// The objects of a lopdf object, dictionary, stream and document.
pub uninterp spec fn obj_model(o: lopdf::Object) -> PdfObj;

pub uninterp spec fn dict_model(d: lopdf::Dictionary) -> Map<Seq<u8>, PdfObj>;

pub uninterp spec fn stream_model(s: lopdf::Stream) -> (Map<Seq<u8>, PdfObj>, Seq<u8>);

pub uninterp spec fn doc_objects(d: lopdf::Document) -> Map<(u32, u16), PdfObj>;

pub uninterp spec fn doc_trailer(d: lopdf::Document) -> Map<Seq<u8>, PdfObj>;

pub uninterp spec fn doc_max_id(d: lopdf::Document) -> u32;

/// What `Document::load_mem` reads from the bytes, if it reads them.
pub uninterp spec fn pdf_loaded(bytes: Seq<u8>) -> Option<PdfFile>;

/// What `Stream::decompressed_content` gives for a stream dictionary and
/// content, if it decodes them.
pub uninterp spec fn stream_decoded(dict: Map<Seq<u8>, PdfObj>, content: Seq<u8>) -> Option<Seq<u8>>;

/// The document's contents as a `PdfFile`.
pub open spec fn doc_file(d: lopdf::Document) -> PdfFile {
    PdfFile { objects: doc_objects(d), trailer: doc_trailer(d), max_id: doc_max_id(d) }
}

/// Following references from an object, at most `fuel` of them, as
/// `Document::dereference` does (it gives up after 128): the object reached
/// and the number of the last reference followed.
pub open spec fn deref(objs: Map<(u32, u16), PdfObj>, o: PdfObj, last: Option<(u32, u16)>, fuel: nat) -> Option<(Option<(u32, u16)>, PdfObj)>
    decreases fuel,
{
    match o {
        PdfObj::Reference(n, g) => if !objs.contains_key((n, g)) || fuel == 0 {
            None
        } else {
            deref(objs, objs[(n, g)], Some((n, g)), (fuel - 1) as nat)
        },
        _ => Some((last, o)),
    }
}

/// `Document::get_object`: the object with that number, references followed.
pub open spec fn get_obj(objs: Map<(u32, u16), PdfObj>, id: (u32, u16)) -> Option<PdfObj> {
    if objs.contains_key(id) {
        match deref(objs, objs[id], None, 128) {
            Some((_, o)) => Some(o),
            None => None,
        }
    } else {
        None
    }
}

/// `Document::get_dictionary`.
pub open spec fn get_dict(objs: Map<(u32, u16), PdfObj>, id: (u32, u16)) -> Option<Map<Seq<u8>, PdfObj>> {
    match get_obj(objs, id) {
        Some(PdfObj::Dict(m)) => Some(m),
        _ => None,
    }
}

/// The number of the trailer's `Root` reference.
pub open spec fn root_id(f: PdfFile) -> Option<(u32, u16)> {
    if f.trailer.contains_key(key("Root"@)) {
        match f.trailer[key("Root"@)] {
            PdfObj::Reference(n, g) => Some((n, g)),
            _ => None,
        }
    } else {
        None
    }
}

/// `Document::catalog`.
pub open spec fn catalog_of(f: PdfFile) -> Option<Map<Seq<u8>, PdfObj>> {
    match root_id(f) {
        Some(id) => get_dict(f.objects, id),
        None => None,
    }
}

/// Where `Document::catalog_mut` finds the catalog: the last number of the
/// reference chain from `Root`.
pub open spec fn catalog_loc(f: PdfFile) -> Option<(u32, u16)> {
    match root_id(f) {
        Some(id) => if f.objects.contains_key(id) {
            match deref(f.objects, f.objects[id], None, 128) {
                Some((last, PdfObj::Dict(_))) => Some(match last {
                    Some(l) => l,
                    None => id,
                }),
                _ => None,
            }
        } else {
            None
        },
        None => None,
    }
}

// ---------------------------------------------------------------- lopdf calls

/// Calls `Document::load_mem`: the document holds what the name
/// `pdf_loaded` says the bytes hold, and its highest object number is at
/// least that of every object loaded (lopdf raises it to the highest one);
/// the error is lopdf's message.
#[verifier::external_body]
fn pdf_load(bytes: &[u8]) -> (r: Result<lopdf::Document, String>)
    ensures
        r is Ok <==> pdf_loaded(bytes@) is Some,
        r matches Ok(d) ==> pdf_loaded(bytes@) == Some(doc_file(d)),
        r matches Ok(d) ==> forall|id: (u32, u16)| doc_objects(d).contains_key(id) ==> id.0 <= doc_max_id(d),
{
    lopdf::Document::load_mem(bytes).map_err(|e| e.to_string())
}

/// Calls `Document::catalog`: the dictionary the trailer's `Root`
/// reference leads to.
#[verifier::external_body]
fn pdf_catalog<'a>(doc: &'a lopdf::Document) -> (r: Result<&'a lopdf::Dictionary, String>)
    ensures
        r is Ok <==> catalog_of(doc_file(*doc)) is Some,
        r matches Ok(c) ==> catalog_of(doc_file(*doc)) == Some(dict_model(*c)),
{
    doc.catalog().map_err(|e| e.to_string())
}

/// Calls `Dictionary::get` with the key's bytes.
#[verifier::external_body]
fn dict_get<'a>(d: &'a lopdf::Dictionary, k: &str) -> (r: Result<&'a lopdf::Object, String>)
    ensures
        r is Ok <==> dict_model(*d).contains_key(key(k@)),
        r matches Ok(o) ==> obj_model(*o) == dict_model(*d)[key(k@)],
{
    d.get(k.as_bytes()).map_err(|e| e.to_string())
}

/// Calls `Object::as_array`.
#[verifier::external_body]
fn obj_as_array<'a>(o: &'a lopdf::Object) -> (r: Result<&'a Vec<lopdf::Object>, String>)
    ensures
        r is Ok <==> obj_model(*o) is Array,
        r matches Ok(v) ==> obj_model(*o) == PdfObj::Array(v@.map_values(|x: lopdf::Object| obj_model(x))),
{
    o.as_array().map_err(|e| e.to_string())
}

/// Calls `Object::as_reference`.
#[verifier::external_body]
fn obj_as_reference(o: &lopdf::Object) -> (r: Result<(u32, u16), String>)
    ensures
        r is Ok <==> obj_model(*o) is Reference,
        r matches Ok(id) ==> obj_model(*o) == PdfObj::Reference(id.0, id.1),
{
    o.as_reference().map_err(|e| e.to_string())
}

/// Calls `Object::as_dict`.
#[verifier::external_body]
fn obj_as_dict<'a>(o: &'a lopdf::Object) -> (r: Result<&'a lopdf::Dictionary, String>)
    ensures
        r is Ok <==> obj_model(*o) is Dict,
        r matches Ok(d) ==> obj_model(*o) == PdfObj::Dict(dict_model(*d)),
{
    o.as_dict().map_err(|e| e.to_string())
}

/// Calls `Object::as_stream`.
#[verifier::external_body]
fn obj_as_stream<'a>(o: &'a lopdf::Object) -> (r: Result<&'a lopdf::Stream, String>)
    ensures
        r is Ok <==> obj_model(*o) is Stream,
        r matches Ok(s) ==> obj_model(*o) == PdfObj::Stream(stream_model(*s).0, stream_model(*s).1),
{
    o.as_stream().map_err(|e| e.to_string())
}

/// Calls `Object::as_str`: the bytes of a string object.
#[verifier::external_body]
fn obj_as_str(o: &lopdf::Object) -> (r: Result<Vec<u8>, String>)
    ensures
        r is Ok <==> obj_model(*o) is Str,
        r matches Ok(b) ==> obj_model(*o) == PdfObj::Str(b@),
{
    o.as_str().map(|b| b.to_vec()).map_err(|e| e.to_string())
}

/// Calls `Document::get_dictionary`.
#[verifier::external_body]
fn pdf_get_dictionary<'a>(doc: &'a lopdf::Document, id: (u32, u16)) -> (r: Result<&'a lopdf::Dictionary, String>)
    ensures
        r is Ok <==> get_dict(doc_objects(*doc), id) is Some,
        r matches Ok(d) ==> get_dict(doc_objects(*doc), id) == Some(dict_model(*d)),
{
    doc.get_dictionary(id).map_err(|e| e.to_string())
}

/// Calls `Document::get_object`.
#[verifier::external_body]
fn pdf_get_object<'a>(doc: &'a lopdf::Document, id: (u32, u16)) -> (r: Result<&'a lopdf::Object, String>)
    ensures
        r is Ok <==> get_obj(doc_objects(*doc), id) is Some,
        r matches Ok(o) ==> get_obj(doc_objects(*doc), id) == Some(obj_model(*o)),
{
    doc.get_object(id).map_err(|e| e.to_string())
}

/// Calls `Stream::decompressed_content`; the result depends on the stream's
/// dictionary and content alone.
#[verifier::external_body]
fn stream_decompressed(s: &lopdf::Stream) -> (r: Result<Vec<u8>, String>)
    ensures
        r is Ok <==> stream_decoded(stream_model(*s).0, stream_model(*s).1) is Some,
        r matches Ok(b) ==> stream_decoded(stream_model(*s).0, stream_model(*s).1) == Some(b@),
        r is Ok || stream_model(*s).0.contains_key(key("Filter"@)),
        r matches Ok(b) ==> (!stream_model(*s).0.contains_key(key("Filter"@)) ==> b@ == stream_model(*s).1),
{
    s.decompressed_content().map_err(|e| e.to_string())
}

/// The stream's raw content (its `content` field).
#[verifier::external_body]
fn stream_content(s: &lopdf::Stream) -> (r: Vec<u8>)
    ensures
        r@ == stream_model(*s).1,
{
    s.content.clone()
}

/// Calls `String::from_utf8`: it succeeds exactly on the encodings of texts,
/// and the text it gives is the one encoded (there is only one); the error
/// is its message.
#[verifier::external_body]
fn utf8_text(bytes: Vec<u8>) -> (r: Result<String, String>)
    ensures
        r is Ok <==> exists|s: Seq<char>| utf8_encode(s) == bytes@,
        r matches Ok(t) ==> utf8_encode(t@) == bytes@ && forall|s: Seq<char>|
            utf8_encode(s) == bytes@ ==> s == t@,
{
    String::from_utf8(bytes).map_err(|e| e.to_string())
}

/// Calls `Dictionary::new`.
#[verifier::external_body]
fn dict_new() -> (r: lopdf::Dictionary)
    ensures
        dict_model(r) == no_entries(),
{
    lopdf::Dictionary::new()
}

/// Calls `Dictionary::set` with the key's bytes.
#[verifier::external_body]
fn dict_set(d: &mut lopdf::Dictionary, k: &str, value: lopdf::Object)
    ensures
        dict_model(*final(d)) == dict_model(*old(d)).insert(key(k@), obj_model(value)),
{
    d.set(k, value)
}

/// An `Object::Name` of the text's bytes.
#[verifier::external_body]
fn obj_name(name: &str) -> (r: lopdf::Object)
    ensures
        obj_model(r) == PdfObj::Name(key(name@)),
{
    lopdf::Object::Name(name.as_bytes().to_vec())
}

/// An `Object::Integer`.
#[verifier::external_body]
fn obj_int(n: i64) -> (r: lopdf::Object)
    ensures
        obj_model(r) == PdfObj::Integer(n as int),
{
    lopdf::Object::Integer(n)
}

/// An `Object::Reference`.
#[verifier::external_body]
fn obj_ref(id: (u32, u16)) -> (r: lopdf::Object)
    ensures
        obj_model(r) == PdfObj::Reference(id.0, id.1),
{
    lopdf::Object::Reference(id)
}

/// An `Object::Array`.
#[verifier::external_body]
fn obj_array(items: Vec<lopdf::Object>) -> (r: lopdf::Object)
    ensures
        obj_model(r) == PdfObj::Array(items@.map_values(|x: lopdf::Object| obj_model(x))),
{
    lopdf::Object::Array(items)
}

/// An `Object::Boolean`.
#[verifier::external_body]
fn obj_bool(b: bool) -> (r: lopdf::Object)
    ensures
        obj_model(r) == PdfObj::Boolean(b),
{
    lopdf::Object::Boolean(b)
}

/// An `Object::Dictionary`.
#[verifier::external_body]
fn obj_dict(d: lopdf::Dictionary) -> (r: lopdf::Object)
    ensures
        obj_model(r) == PdfObj::Dict(dict_model(d)),
{
    lopdf::Object::Dictionary(d)
}

/// Calls `Object::string_literal`: a string object of the text's bytes.
#[verifier::external_body]
fn obj_text(s: &str) -> (r: lopdf::Object)
    ensures
        obj_model(r) == PdfObj::Str(utf8_encode(s@)),
{
    lopdf::Object::string_literal(s)
}

/// Calls `Stream::new`, which also sets the dictionary's `Length` to the
/// content's length.
#[verifier::external_body]
fn stream_new(d: lopdf::Dictionary, content: Vec<u8>) -> (r: lopdf::Stream)
    ensures
        stream_model(r) == (
            dict_model(d).insert(key("Length"@), PdfObj::Integer(content@.len() as int)),
            content@,
        ),
{
    lopdf::Stream::new(d, content)
}

/// Calls `Stream::with_compression(false)`: the stream is never compressed.
#[verifier::external_body]
fn stream_uncompressed(s: lopdf::Stream) -> (r: lopdf::Stream)
    ensures
        stream_model(r) == stream_model(s),
{
    s.with_compression(false)
}

/// Calls `Document::try_add_object` with a stream: under the next object
/// number, if there is one; the error is lopdf's message.
#[verifier::external_body]
fn pdf_add_stream(doc: &mut lopdf::Document, s: lopdf::Stream) -> (r: Result<(u32, u16), String>)
    ensures
        r is Ok <==> doc_max_id(*old(doc)) < u32::MAX,
        r matches Ok(id) ==> id == ((doc_max_id(*old(doc)) + 1) as u32, 0u16) && doc_file(*final(doc)) == (PdfFile {
            objects: doc_objects(*old(doc)).insert(id, PdfObj::Stream(stream_model(s).0, stream_model(s).1)),
            trailer: doc_trailer(*old(doc)),
            max_id: id.0,
        }),
        r is Err ==> doc_file(*final(doc)) == doc_file(*old(doc)),
{
    doc.try_add_object(s).map_err(|e| e.to_string())
}

/// Calls `Document::try_add_object` with a dictionary: under the next
/// object number, if there is one; the error is lopdf's message.
#[verifier::external_body]
fn pdf_add_dict(doc: &mut lopdf::Document, d: lopdf::Dictionary) -> (r: Result<(u32, u16), String>)
    ensures
        r is Ok <==> doc_max_id(*old(doc)) < u32::MAX,
        r matches Ok(id) ==> id == ((doc_max_id(*old(doc)) + 1) as u32, 0u16) && doc_file(*final(doc)) == (PdfFile {
            objects: doc_objects(*old(doc)).insert(id, PdfObj::Dict(dict_model(d))),
            trailer: doc_trailer(*old(doc)),
            max_id: id.0,
        }),
        r is Err ==> doc_file(*final(doc)) == doc_file(*old(doc)),
{
    doc.try_add_object(d).map_err(|e| e.to_string())
}

/// Calls `Document::catalog_mut`: the catalog dictionary in place, at the
/// end of the `Root` reference chain.
#[verifier::external_body]
fn pdf_catalog_mut<'a>(doc: &'a mut lopdf::Document) -> (r: Result<&'a mut lopdf::Dictionary, String>)
    ensures
        r is Ok <==> catalog_loc(doc_file(*old(doc))) is Some,
        r matches Ok(c) ==> {
            &&& catalog_of(doc_file(*old(doc))) == Some(dict_model(*c))
            &&& doc_file(*final(doc)) == (PdfFile {
                objects: doc_objects(*old(doc)).insert(
                    catalog_loc(doc_file(*old(doc)))->0,
                    PdfObj::Dict(dict_model(*final(c))),
                ),
                trailer: doc_trailer(*old(doc)),
                max_id: doc_max_id(*old(doc)),
            })
        },
        r is Err ==> doc_file(*final(doc)) == doc_file(*old(doc)),
{
    doc.catalog_mut().map_err(|e| e.to_string())
}

/// What `Document::save_to` writes for a document: the bytes are a
/// function of the document (its objects are walked in the order of their
/// numbers, each dictionary in the order of its keys).
pub uninterp spec fn pdf_saved(d: lopdf::Document) -> Seq<u8>;

/// Calls `Document::save_to` into a new buffer: the bytes written are those
/// the name `pdf_saved` gives the document as it was before the call.
#[verifier::external_body]
fn pdf_save(doc: &mut lopdf::Document) -> (r: Result<Vec<u8>, String>)
    ensures
        r matches Ok(b) ==> b@ == pdf_saved(*old(doc)),
{
    let mut out = Vec::new();
    doc.save_to(&mut out).map(|_| out).map_err(|e| e.to_string())
}



// ---------------------------------------------------------------- UTF-8 is one-to-one

proof fn lemma_utf8_char_shape(c: char)
    ensures
        1 <= utf8_char(c).len() <= 4,
        utf8_char(c).len() == 1 ==> utf8_char(c)[0] < 0x80,
        utf8_char(c).len() >= 2 ==> 0xC0 <= utf8_char(c)[0],
        forall|i: int| 1 <= i < utf8_char(c).len() ==> 0x80 <= #[trigger] utf8_char(c)[i] < 0xC0,
{
    let n = c as int;
    assert(0 <= n <= 0x10FFFF);
    if n < 0x80 {
    } else if n < 0x800 {
        assert(n / 64 < 32);
        assert(0 <= n % 64 < 64);
    } else if n < 0x10000 {
        assert(n / 4096 < 16);
        assert(0 <= (n / 64) % 64 < 64);
        assert(0 <= n % 64 < 64);
    } else {
        assert(n / 262144 < 5);
        assert(0 <= (n / 4096) % 64 < 64);
        assert(0 <= (n / 64) % 64 < 64);
        assert(0 <= n % 64 < 64);
    }
}

proof fn lemma_utf8_char_inj(x: char, y: char)
    requires
        utf8_char(x) == utf8_char(y),
    ensures
        x == y,
{
    let a = x as int;
    let b = y as int;
    assert(0 <= a <= 0x10FFFF && 0 <= b <= 0x10FFFF);
    lemma_utf8_char_shape(x);
    lemma_utf8_char_shape(y);
    let ex = utf8_char(x);
    let ey = utf8_char(y);
    assert(ex.len() == ey.len());
    if a < 0x80 {
        assert(ex[0] == a as u8);
        assert(b < 0x80);
        assert(ey[0] == b as u8);
    } else if a < 0x800 {
        assert(0x800 > b >= 0x80) by {
            if b < 0x80 {
                assert(ey.len() == 1);
            }
            if b >= 0x800 {
                assert(ey.len() >= 3);
            }
        }
        assert(a / 64 == b / 64 && a % 64 == b % 64) by {
            assert(ex[0] == ey[0] && ex[1] == ey[1]);
        }
        assert(a == 64 * (a / 64) + a % 64);
        assert(b == 64 * (b / 64) + b % 64);
    } else if a < 0x10000 {
        assert(0x10000 > b >= 0x800) by {
            if b < 0x800 {
                assert(ey.len() <= 2);
            }
            if b >= 0x10000 {
                assert(ey.len() == 4);
            }
        }
        assert(a / 4096 == b / 4096 && (a / 64) % 64 == (b / 64) % 64 && a % 64 == b % 64) by {
            assert(ex[0] == ey[0] && ex[1] == ey[1] && ex[2] == ey[2]);
        }
        assert(a / 64 == 64 * (a / 4096) + (a / 64) % 64);
        assert(b / 64 == 64 * (b / 4096) + (b / 64) % 64);
        assert(a == 64 * (a / 64) + a % 64);
        assert(b == 64 * (b / 64) + b % 64);
    } else {
        assert(b >= 0x10000) by {
            if b < 0x10000 {
                assert(ey.len() <= 3);
            }
        }
        assert(a / 262144 == b / 262144 && (a / 4096) % 64 == (b / 4096) % 64 && (a / 64) % 64 == (b / 64) % 64
            && a % 64 == b % 64) by {
            assert(ex[0] == ey[0] && ex[1] == ey[1] && ex[2] == ey[2] && ex[3] == ey[3]);
        }
        assert(a / 4096 == 64 * (a / 262144) + (a / 4096) % 64);
        assert(b / 4096 == 64 * (b / 262144) + (b / 4096) % 64);
        assert(a / 64 == 64 * (a / 4096) + (a / 64) % 64);
        assert(b / 64 == 64 * (b / 4096) + (b / 64) % 64);
        assert(a == 64 * (a / 64) + a % 64);
        assert(b == 64 * (b / 64) + b % 64);
    }
}

/// Two texts with the same UTF-8 encoding are the same text.
pub proof fn lemma_utf8_encode_inj(a: Seq<char>, b: Seq<char>)
    requires
        utf8_encode(a) == utf8_encode(b),
    ensures
        a == b,
    decreases a.len(),
{
    if a.len() == 0 {
        if b.len() > 0 {
            lemma_utf8_char_shape(b.last());
        }
        assert(a =~= b);
    } else {
        if b.len() == 0 {
            lemma_utf8_char_shape(a.last());
            assert(utf8_encode(a) == utf8_encode(a.drop_last()) + utf8_char(a.last()));
            assert(utf8_encode(b).len() == 0);
            assert(false);
        }
        let ea = utf8_encode(a.drop_last());
        let eb = utf8_encode(b.drop_last());
        let ca = utf8_char(a.last());
        let cb = utf8_char(b.last());
        lemma_utf8_char_shape(a.last());
        lemma_utf8_char_shape(b.last());
        let whole = ea + ca;
        assert(whole == eb + cb);
        let total = whole.len();
        if ca.len() < cb.len() {
            let p = total - ca.len();
            assert(whole[p] == ca[0]);
            assert((eb + cb)[p] == cb[cb.len() - ca.len()]);
            assert(false);
        }
        if cb.len() < ca.len() {
            let p = total - cb.len();
            assert((eb + cb)[p] == cb[0]);
            assert(whole[p] == ca[ca.len() - cb.len()]);
            assert(false);
        }
        assert(ca =~= whole.subrange(total - ca.len(), total as int));
        assert(cb =~= (eb + cb).subrange(total - cb.len(), total as int));
        assert(ea =~= whole.subrange(0, total - ca.len()));
        assert(eb =~= (eb + cb).subrange(0, total - cb.len()));
        lemma_utf8_char_inj(a.last(), b.last());
        lemma_utf8_encode_inj(a.drop_last(), b.drop_last());
        assert(a =~= a.drop_last().push(a.last()));
        assert(b =~= b.drop_last().push(b.last()));
    }
}

/// Decoding gives back the encoded text.
pub proof fn lemma_utf8_roundtrip(t: Seq<char>)
    ensures
        utf8_decode(utf8_encode(t)) == Some(t),
{
    assert forall|s: Seq<char>| utf8_encode(s) == utf8_encode(t) implies s == t by {
        lemma_utf8_encode_inj(s, t);
    }
}

// ---------------------------------------------------------------- what extraction finds

/// A dictionary's entry under a key given as text.
pub open spec fn entry(m: Map<Seq<u8>, PdfObj>, k: Seq<char>) -> Option<PdfObj> {
    if m.contains_key(key(k)) {
        Some(m[key(k)])
    } else {
        None
    }
}

/// A dictionary, or the dictionary a reference leads to.
pub open spec fn resolve_dict_spec(objs: Map<(u32, u16), PdfObj>, o: PdfObj) -> Option<Map<Seq<u8>, PdfObj>> {
    match o {
        PdfObj::Reference(n, g) => get_dict(objs, (n, g)),
        PdfObj::Dict(m) => Some(m),
        _ => None,
    }
}

/// An object, or the object a reference leads to.
pub open spec fn resolve_obj_spec(objs: Map<(u32, u16), PdfObj>, o: PdfObj) -> Option<PdfObj> {
    match o {
        PdfObj::Reference(n, g) => get_obj(objs, (n, g)),
        _ => Some(o),
    }
}

/// The text of a string object whose bytes are UTF-8.
pub open spec fn obj_text_spec(o: PdfObj) -> Option<Seq<char>> {
    match o {
        PdfObj::Str(b) => utf8_decode(b),
        _ => None,
    }
}

/// The bytes of a stream as extraction reads them: decoded where it has a
/// filter that decodes, else raw.
pub open spec fn stream_bytes(d: Map<Seq<u8>, PdfObj>, c: Seq<u8>) -> Seq<u8> {
    if !d.contains_key(key("Filter"@)) {
        c
    } else {
        match stream_decoded(d, c) {
            Some(x) => x,
            None => c,
        }
    }
}

/// The XML of a file specification: the UTF-8 text of its `EF`/`F` stream.
pub open spec fn filespec_xml(objs: Map<(u32, u16), PdfObj>, fs: Map<Seq<u8>, PdfObj>) -> Option<Seq<char>> {
    match entry(fs, "EF"@) {
        Some(ef_obj) => match resolve_dict_spec(objs, ef_obj) {
            Some(ef) => match entry(ef, "F"@) {
                Some(f) => match resolve_obj_spec(objs, f) {
                    Some(PdfObj::Stream(d, c)) => utf8_decode(stream_bytes(d, c)),
                    _ => None,
                },
                None => None,
            },
            None => None,
        },
        None => None,
    }
}

/// `k` is the first pair `[name, file]` of a name array whose name is a
/// Factur-X file name.
pub open spec fn is_first_named(texts: Seq<Option<Seq<char>>>, k: int) -> bool {
    &&& 0 <= k && 2 * k + 1 < texts.len()
    &&& texts[2 * k] matches Some(n) && facturx_name(n)
    &&& forall|j: int| 0 <= j < k ==> !(#[trigger] texts[2 * j] matches Some(n) && facturx_name(n))
}

/// The file of the first Factur-X pair of an `EmbeddedFiles` name array.
pub open spec fn named_file(objs: Map<(u32, u16), PdfObj>, items: Seq<PdfObj>) -> Option<Seq<char>> {
    let texts = items.map_values(|o: PdfObj| obj_text_spec(o));
    if exists|k: int| is_first_named(texts, k) {
        let k = choose|k: int| is_first_named(texts, k);
        match items[2 * k + 1] {
            PdfObj::Reference(n, g) => match get_dict(objs, (n, g)) {
                Some(fs) => filespec_xml(objs, fs),
                None => None,
            },
            _ => None,
        }
    } else {
        None
    }
}

/// The invoice through the catalog's `Names`/`EmbeddedFiles` name tree.
pub open spec fn via_names_spec(f: PdfFile) -> Option<Seq<char>> {
    match catalog_of(f) {
        Some(cat) => match entry(cat, "Names"@) {
            Some(no) => match resolve_dict_spec(f.objects, no) {
                Some(nd) => match entry(nd, "EmbeddedFiles"@) {
                    Some(eo) => match resolve_dict_spec(f.objects, eo) {
                        Some(ed) => match entry(ed, "Names"@) {
                            Some(PdfObj::Array(items)) => named_file(f.objects, items),
                            _ => None,
                        },
                        None => None,
                    },
                    None => None,
                },
                None => None,
            },
            None => None,
        },
        None => None,
    }
}

/// The name of a file specification: its `UF` entry, else its `F` entry,
/// where that is UTF-8 text; empty otherwise.
pub open spec fn filespec_name_spec(fs: Map<Seq<u8>, PdfObj>) -> Seq<char> {
    let e = if fs.contains_key(key("UF"@)) {
        Some(fs[key("UF"@)])
    } else {
        entry(fs, "F"@)
    };
    match e {
        Some(o) => match obj_text_spec(o) {
            Some(t) => t,
            None => Seq::empty(),
        },
        None => Seq::empty(),
    }
}

/// Scanning an `AF` array from position `i`: each entry must lead to a file
/// specification; the first with a Factur-X name gives the XML.
pub open spec fn af_scan(objs: Map<(u32, u16), PdfObj>, items: Seq<PdfObj>, i: int) -> Option<Seq<char>>
    decreases items.len() - i,
{
    if i < 0 || i >= items.len() {
        None
    } else {
        match items[i] {
            PdfObj::Reference(n, g) => match get_dict(objs, (n, g)) {
                Some(fs) => if facturx_name(filespec_name_spec(fs)) {
                    filespec_xml(objs, fs)
                } else {
                    af_scan(objs, items, i + 1)
                },
                None => None,
            },
            _ => None,
        }
    }
}

/// The invoice through the catalog's `AF` array.
pub open spec fn via_af_spec(f: PdfFile) -> Option<Seq<char>> {
    match catalog_of(f) {
        Some(cat) => match entry(cat, "AF"@) {
            Some(PdfObj::Array(items)) => af_scan(f.objects, items, 0),
            _ => None,
        },
        None => None,
    }
}

/// The XML found in a PDF's contents: through the name tree, else through
/// `AF`.
pub open spec fn extracted_from(f: PdfFile) -> Option<Seq<char>> {
    match via_names_spec(f) {
        Some(x) => Some(x),
        None => via_af_spec(f),
    }
}

/// The XML found in PDF bytes, if they load and hold one.
pub open spec fn extracted(bytes: Seq<u8>) -> Option<Seq<char>> {
    match pdf_loaded(bytes) {
        Some(f) => extracted_from(f),
        None => None,
    }
}

proof fn lemma_utf8_decode(bytes: Seq<u8>, t: Seq<char>)
    requires
        utf8_encode(t) == bytes,
        forall|s: Seq<char>| utf8_encode(s) == bytes ==> s == t,
    ensures
        utf8_decode(bytes) == Some(t),
{
}


// ---------------------------------------------------------------- what embedding adds

/// The object number `k` places after the highest one in use.
pub open spec fn new_id(f: PdfFile, k: int) -> (u32, u16) {
    ((f.max_id + k) as u32, 0u16)
}

/// A name object of a text.
pub open spec fn name_obj(t: Seq<char>) -> PdfObj {
    PdfObj::Name(key(t))
}

/// A string object of a text.
pub open spec fn text_obj(t: Seq<char>) -> PdfObj {
    PdfObj::Str(utf8_encode(t))
}

/// The `Size` parameter of an embedded file of `n` bytes.
pub open spec fn size_param(n: int) -> int {
    if n <= i64::MAX {
        n
    } else {
        i64::MAX as int
    }
}

/// The embedded file stream of the XML bytes.
pub open spec fn ef_stream(xml: Seq<u8>) -> PdfObj {
    PdfObj::Stream(
        no_entries().insert(key("Type"@), name_obj("EmbeddedFile"@)).insert(key("Subtype"@), name_obj("text#2Fxml"@)).insert(
            key("Params"@),
            PdfObj::Dict(no_entries().insert(key("Size"@), PdfObj::Integer(size_param(xml.len() as int)))),
        ).insert(key("Length"@), PdfObj::Integer(xml.len() as int)),
        xml,
    )
}

/// The file specification of `factur-x.xml`, its stream at `ef`.
pub open spec fn filespec_obj(ef: (u32, u16), profile: ZugferdProfile) -> PdfObj {
    PdfObj::Dict(
        no_entries().insert(key("Type"@), name_obj("Filespec"@)).insert(key("F"@), text_obj(FACTURX_FILENAME@)).insert(
            key("UF"@),
            text_obj(FACTURX_FILENAME@),
        ).insert(key("Desc"@), text_obj("Factur-X XML invoice"@)).insert(
            key("AFRelationship"@),
            name_obj(af_relationship_spec(profile)),
        ).insert(
            key("EF"@),
            PdfObj::Dict(
                no_entries().insert(key("F"@), PdfObj::Reference(ef.0, ef.1)).insert(
                    key("UF"@),
                    PdfObj::Reference(ef.0, ef.1),
                ),
            ),
        ),
    )
}

/// The `EmbeddedFiles` name tree with the one pair `factur-x.xml` → `fs`.
pub open spec fn name_tree_obj(fs: (u32, u16)) -> PdfObj {
    PdfObj::Dict(
        no_entries().insert(
            key("Names"@),
            PdfObj::Array(seq![text_obj(FACTURX_FILENAME@), PdfObj::Reference(fs.0, fs.1)]),
        ),
    )
}

/// The `Names` dictionary pointing to the name tree at `tree`.
pub open spec fn names_obj(tree: (u32, u16)) -> PdfObj {
    PdfObj::Dict(no_entries().insert(key("EmbeddedFiles"@), PdfObj::Reference(tree.0, tree.1)))
}

/// The uncompressed XMP metadata stream of the profile.
pub open spec fn metadata_obj(profile: ZugferdProfile) -> PdfObj {
    PdfObj::Stream(
        no_entries().insert(key("Type"@), name_obj("Metadata"@)).insert(key("Subtype"@), name_obj("XML"@)).insert(
            key("Length"@),
            PdfObj::Integer(utf8_encode(xmp_packet(profile)).len() as int),
        ),
        utf8_encode(xmp_packet(profile)),
    )
}

/// The contents with the five new objects added under the next numbers:
/// the file stream, the file specification, the name tree, the `Names`
/// dictionary and the metadata stream.
pub open spec fn with_new_objects(f: PdfFile, xml: Seq<u8>, profile: ZugferdProfile) -> PdfFile {
    PdfFile {
        objects: f.objects.insert(new_id(f, 1), ef_stream(xml)).insert(
            new_id(f, 2),
            filespec_obj(new_id(f, 1), profile),
        ).insert(new_id(f, 3), name_tree_obj(new_id(f, 2))).insert(new_id(f, 4), names_obj(new_id(f, 3))).insert(
            new_id(f, 5),
            metadata_obj(profile),
        ),
        trailer: f.trailer,
        max_id: (f.max_id + 5) as u32,
    }
}

/// The catalog with `AF`, `Names`, `Metadata` and `MarkInfo` set.
pub open spec fn marked_catalog(cat: Map<Seq<u8>, PdfObj>, f: PdfFile) -> Map<Seq<u8>, PdfObj> {
    cat.insert(key("AF"@), PdfObj::Array(seq![PdfObj::Reference(new_id(f, 2).0, new_id(f, 2).1)])).insert(
        key("Names"@),
        PdfObj::Reference(new_id(f, 4).0, new_id(f, 4).1),
    ).insert(key("Metadata"@), PdfObj::Reference(new_id(f, 5).0, new_id(f, 5).1)).insert(
        key("MarkInfo"@),
        PdfObj::Dict(no_entries().insert(key("Marked"@), PdfObj::Boolean(true))),
    )
}

/// Whether the XML can be embedded: five object numbers are left and the
/// catalog is found once the new objects are in.
pub open spec fn embeddable(f: PdfFile, xml: Seq<u8>, profile: ZugferdProfile) -> bool {
    f.max_id + 5 <= u32::MAX && catalog_loc(with_new_objects(f, xml, profile)) is Some
}

/// The contents after embedding the XML bytes.
pub open spec fn embedded(f: PdfFile, xml: Seq<u8>, profile: ZugferdProfile) -> PdfFile {
    let g = with_new_objects(f, xml, profile);
    PdfFile {
        objects: g.objects.insert(
            catalog_loc(g)->0,
            PdfObj::Dict(marked_catalog(catalog_of(g)->0, f)),
        ),
        trailer: g.trailer,
        max_id: g.max_id,
    }
}


// ---------------------------------------------------------------- extraction finds what embedding adds

/// The object a chain of references ends at.
pub open spec fn end_obj(r: Option<(Option<(u32, u16)>, PdfObj)>) -> PdfObj {
    match r {
        Some((_, o)) => o,
        None => PdfObj::Null,
    }
}

/// The last number a chain of references followed.
pub open spec fn end_last(r: Option<(Option<(u32, u16)>, PdfObj)>) -> Option<(u32, u16)> {
    match r {
        Some((l, _)) => l,
        None => None,
    }
}

proof fn lemma_ascii_key(s: Seq<char>)
    requires
        forall|i: int| 0 <= i < s.len() ==> (#[trigger] s[i] as int) < 128,
    ensures
        key(s).len() == s.len(),
        forall|i: int| 0 <= i < s.len() ==> #[trigger] key(s)[i] == (s[i] as int) as u8,
    decreases s.len(),
{
    if s.len() > 0 {
        let t = s.drop_last();
        assert forall|i: int| 0 <= i < t.len() implies (#[trigger] t[i] as int) < 128 by {
            assert(t[i] == s[i]);
        }
        lemma_ascii_key(t);
        let c = s.last();
        assert((s[s.len() - 1] as int) < 128);
        assert(utf8_char(c) == seq![(c as int) as u8]);
        assert(key(s) == utf8_encode(s));
        assert(utf8_encode(s) == utf8_encode(t) + utf8_char(c));
        assert forall|i: int| 0 <= i < s.len() implies #[trigger] key(s)[i] == (s[i] as int) as u8 by {
            if i < t.len() {
                assert(t[i] == s[i]);
                assert(key(t)[i] == (t[i] as int) as u8);
            }
        }
    }
}

/// The keys that embedding writes next to each other are different.
proof fn lemma_keys_differ()
    ensures
        key("Names"@) != key("Metadata"@),
        key("Names"@) != key("MarkInfo"@),
        key("F"@) != key("UF"@),
        key("Filter"@) != key("Type"@),
        key("Filter"@) != key("Subtype"@),
        key("Filter"@) != key("Params"@),
        key("Filter"@) != key("Length"@),
{
    reveal_strlit("Names");
    reveal_strlit("Metadata");
    reveal_strlit("MarkInfo");
    reveal_strlit("F");
    reveal_strlit("UF");
    reveal_strlit("Filter");
    reveal_strlit("Type");
    reveal_strlit("Subtype");
    reveal_strlit("Params");
    reveal_strlit("Length");
    lemma_ascii_key("Names"@);
    lemma_ascii_key("Metadata"@);
    lemma_ascii_key("MarkInfo"@);
    lemma_ascii_key("F"@);
    lemma_ascii_key("UF"@);
    lemma_ascii_key("Filter"@);
    lemma_ascii_key("Type"@);
    lemma_ascii_key("Subtype"@);
    lemma_ascii_key("Params"@);
    lemma_ascii_key("Length"@);
    assert(key("Filter"@)[0] != key("Params"@)[0]);
    assert(key("Filter"@)[0] != key("Length"@)[0]);
}

/// Where following references ends: a non-reference, which is the object
/// stored under the last number followed.
proof fn lemma_deref_end(objs: Map<(u32, u16), PdfObj>, o: PdfObj, last: Option<(u32, u16)>, fuel: nat)
    requires
        deref(objs, o, last, fuel) is Some,
        last matches Some(l) ==> objs.contains_key(l) && objs[l] == o,
    ensures
        end_obj(deref(objs, o, last, fuel)) !is Reference,
        end_last(deref(objs, o, last, fuel)) matches Some(l) ==> objs.contains_key(l) && objs[l] == end_obj(
            deref(objs, o, last, fuel),
        ),
    decreases fuel,
{
    if let PdfObj::Reference(n, g) = o {
        lemma_deref_end(objs, objs[(n, g)], Some((n, g)), (fuel - 1) as nat);
    }
}

/// Adding an object under a number not in use does not change where a
/// chain of references that ends ends.
proof fn lemma_deref_fresh(objs: Map<(u32, u16), PdfObj>, o: PdfObj, last: Option<(u32, u16)>, fuel: nat, k: (u32, u16), v: PdfObj)
    requires
        deref(objs, o, last, fuel) is Some,
        !objs.contains_key(k),
    ensures
        deref(objs.insert(k, v), o, last, fuel) == deref(objs, o, last, fuel),
    decreases fuel,
{
    if let PdfObj::Reference(n, g) = o {
        lemma_deref_fresh(objs, objs[(n, g)], Some((n, g)), (fuel - 1) as nat, k, v);
    }
}

/// Replacing the dictionary a chain of references ends at: the chain now
/// ends at the new dictionary.
proof fn lemma_deref_replace(
    objs: Map<(u32, u16), PdfObj>,
    o: PdfObj,
    last: Option<(u32, u16)>,
    fuel: nat,
    loc: (u32, u16),
    c: Map<Seq<u8>, PdfObj>,
    c2: Map<Seq<u8>, PdfObj>,
)
    requires
        o is Reference,
        deref(objs, o, last, fuel) == Some((Some(loc), PdfObj::Dict(c))),
    ensures
        deref(objs.insert(loc, PdfObj::Dict(c2)), o, last, fuel) == Some((Some(loc), PdfObj::Dict(c2))),
    decreases fuel,
{
    if let PdfObj::Reference(n, g) = o {
        let next = objs[(n, g)];
        lemma_deref_end(objs, next, Some((n, g)), (fuel - 1) as nat);
        let objs2 = objs.insert(loc, PdfObj::Dict(c2));
        if (n, g) != loc {
            assert(next is Reference);
            assert(objs2[(n, g)] == next);
            lemma_deref_replace(objs, next, Some((n, g)), (fuel - 1) as nat, loc, c, c2);
        } else {
            assert(objs2[(n, g)] == PdfObj::Dict(c2));
            assert(deref(objs2, PdfObj::Dict(c2), Some(loc), (fuel - 1) as nat) == Some((Some(loc), PdfObj::Dict(c2))));
        }
    }
}

/// Where a chain of references in the original contents ends, it ends the
/// same once the five new objects are in.
proof fn lemma_deref_with_new(f: PdfFile, xml: Seq<u8>, profile: ZugferdProfile, o: PdfObj, last: Option<(u32, u16)>)
    requires
        f.max_id + 5 <= u32::MAX,
        forall|id: (u32, u16)| f.objects.contains_key(id) ==> id.0 <= f.max_id,
        deref(f.objects, o, last, 128) is Some,
    ensures
        deref(with_new_objects(f, xml, profile).objects, o, last, 128) == deref(f.objects, o, last, 128),
{
    let o0 = f.objects;
    let o1 = o0.insert(new_id(f, 1), ef_stream(xml));
    let o2 = o1.insert(new_id(f, 2), filespec_obj(new_id(f, 1), profile));
    let o3 = o2.insert(new_id(f, 3), name_tree_obj(new_id(f, 2)));
    let o4 = o3.insert(new_id(f, 4), names_obj(new_id(f, 3)));
    lemma_deref_fresh(o0, o, last, 128, new_id(f, 1), ef_stream(xml));
    lemma_deref_fresh(o1, o, last, 128, new_id(f, 2), filespec_obj(new_id(f, 1), profile));
    lemma_deref_fresh(o2, o, last, 128, new_id(f, 3), name_tree_obj(new_id(f, 2)));
    lemma_deref_fresh(o3, o, last, 128, new_id(f, 4), names_obj(new_id(f, 3)));
    lemma_deref_fresh(o4, o, last, 128, new_id(f, 5), metadata_obj(profile));
}

/// Extracting from the contents that embedding gives finds the embedded
/// XML, for contents whose catalog is found and whose object numbers are
/// all at most the highest one in use (as lopdf loads them), with five
/// numbers left.
pub proof fn lemma_embed_then_extract(f: PdfFile, xml: Seq<char>, profile: ZugferdProfile)
    requires
        f.max_id + 5 <= u32::MAX,
        forall|id: (u32, u16)| f.objects.contains_key(id) ==> id.0 <= f.max_id,
        catalog_loc(f) is Some,
    ensures
        embeddable(f, utf8_encode(xml), profile),
        extracted_from(embedded(f, utf8_encode(xml), profile)) == Some(xml),
{
    let xb = utf8_encode(xml);
    let g = with_new_objects(f, xb, profile);
    let e = embedded(f, xb, profile);
    let root = root_id(f)->0;
    assert(root_id(g) == root_id(f));
    assert(root_id(e) == root_id(f));
    let d0 = deref(f.objects, f.objects[root], None, 128);
    lemma_deref_end(f.objects, f.objects[root], None, 128);
    lemma_deref_with_new(f, xb, profile, f.objects[root], None);
    assert(g.objects.contains_key(root) && g.objects[root] == f.objects[root]);
    let loc = catalog_loc(g)->0;
    assert(catalog_loc(g) == catalog_loc(f));
    assert(f.objects.contains_key(loc));
    assert(loc.0 <= f.max_id);
    let cat = catalog_of(g)->0;
    let newcat = marked_catalog(cat, f);
    assert(embeddable(f, xb, profile));
    // the catalog of the embedded contents is the marked one
    assert(catalog_of(e) == Some(newcat)) by {
        if end_last(d0) is None {
            assert(loc == root);
        } else {
            assert(f.objects[root] is Reference);
            assert(root != loc);
            lemma_deref_replace(g.objects, g.objects[root], None, 128, loc, cat, newcat);
        }
    }
    lemma_keys_differ();
    let id1 = new_id(f, 1);
    let id2 = new_id(f, 2);
    let id3 = new_id(f, 3);
    let id4 = new_id(f, 4);
    assert(e.objects[id4] == names_obj(id3));
    assert(e.objects[id3] == name_tree_obj(id2));
    assert(e.objects[id2] == filespec_obj(id1, profile));
    assert(e.objects[id1] == ef_stream(xb));
    assert(entry(newcat, "Names"@) == Some(PdfObj::Reference(id4.0, id4.1)));
    assert(get_dict(e.objects, id4) == Some(no_entries().insert(key("EmbeddedFiles"@), PdfObj::Reference(id3.0, id3.1))));
    let items = seq![text_obj(FACTURX_FILENAME@), PdfObj::Reference(id2.0, id2.1)];
    assert(get_dict(e.objects, id3) == Some(no_entries().insert(key("Names"@), PdfObj::Array(items))));
    let texts = items.map_values(|o: PdfObj| obj_text_spec(o));
    lemma_utf8_roundtrip(FACTURX_FILENAME@);
    assert(texts[0] == Some(FACTURX_FILENAME@));
    assert(facturx_name(FACTURX_FILENAME@)) by {
        reveal_strlit("factur-x.xml");
        reveal_strlit("factur-x");
        let low = lowered(FACTURX_FILENAME@);
        assert(low =~= FACTURX_FILENAME@);
        assert(low.subrange(0, 8) =~= "factur-x"@);
        assert(occurs_at(low, "factur-x"@, 0));
    }
    assert(is_first_named(texts, 0));
    assert forall|k: int| is_first_named(texts, k) implies k == 0 by {}
    let fs = get_dict(e.objects, id2)->0;
    assert(get_dict(e.objects, id1) is None);
    assert(get_obj(e.objects, id1) == Some(ef_stream(xb)));
    lemma_utf8_roundtrip(xml);
    assert(filespec_xml(e.objects, fs) == Some(xml));
    assert(named_file(e.objects, items) == Some(xml));
    assert(via_names_spec(e) == Some(xml));
}

// ---------------------------------------------------------------- messages

/// A message made of a fixed prefix and a reason.
fn prefixed(prefix: &str, why: &str) -> (r: String)
    ensures
        r@ == prefix@ + why@,
{
    let mut m = string_of(prefix);
    push_str(&mut m, why);
    m
}

/// The errors of reading or writing a PDF: a message with one of the
/// prefixes of the steps that can fail.
pub open spec fn pdf_error(e: RechnungError, prefixes: Seq<Seq<char>>) -> bool {
    e matches RechnungError::Builder(m) && exists|i: int|
        0 <= i < prefixes.len() && starts_with(m@, #[trigger] prefixes[i])
}

/// For contents whose catalog is found and with five object numbers left,
/// the XML can be embedded and extraction finds it in what embedding gives.
pub open spec fn embed_finds(f: PdfFile, xml: Seq<char>, profile: ZugferdProfile) -> bool {
    catalog_loc(f) is Some && f.max_id + 5 <= u32::MAX ==> {
        &&& embeddable(f, utf8_encode(xml), profile)
        &&& extracted_from(embedded(f, utf8_encode(xml), profile)) == Some(xml)
    }
}

/// The error of a document that lopdf does not save.
pub open spec fn save_error(e: RechnungError) -> bool {
    e matches RechnungError::Builder(m) && starts_with(m@, "failed to save PDF: "@)
}

/// The error of bytes that do not load as a PDF.
pub open spec fn load_error(e: RechnungError) -> bool {
    e matches RechnungError::Builder(m) && starts_with(m@, "failed to load PDF: "@)
}

fn builder_error(prefix: &str, why: &str) -> (e: RechnungError)
    ensures
        e matches RechnungError::Builder(m) && starts_with(m@, prefix@),
{
    let m = prefixed(prefix, why);
    proof {
        assert(m@.subrange(0, prefix@.len() as int) =~= prefix@);
    }
    RechnungError::Builder(m)
}

// ---------------------------------------------------------------- extraction

/// An object that is a dictionary, or a reference to one.
fn resolve_dict<'a>(doc: &'a lopdf::Document, obj: &'a lopdf::Object) -> (r: Result<&'a lopdf::Dictionary, String>)
    ensures
        r is Ok <==> resolve_dict_spec(doc_objects(*doc), obj_model(*obj)) is Some,
        r matches Ok(d) ==> resolve_dict_spec(doc_objects(*doc), obj_model(*obj)) == Some(dict_model(*d)),
{
    match obj_as_reference(obj) {
        Ok(id) => pdf_get_dictionary(doc, id),
        Err(_) => match obj_as_dict(obj) {
            Ok(d) => Ok(d),
            Err(_) => Err(string_of("expected dictionary or reference")),
        },
    }
}

/// An object, or the object a reference points to.
fn resolve_obj<'a>(doc: &'a lopdf::Document, obj: &'a lopdf::Object) -> (r: Result<&'a lopdf::Object, String>)
    ensures
        r is Ok <==> resolve_obj_spec(doc_objects(*doc), obj_model(*obj)) is Some,
        r matches Ok(o) ==> resolve_obj_spec(doc_objects(*doc), obj_model(*obj)) == Some(obj_model(*o)),
{
    match obj_as_reference(obj) {
        Ok(id) => pdf_get_object(doc, id),
        Err(_) => Ok(obj),
    }
}

/// The UTF-8 text of some bytes.
fn decode_utf8(bytes: Vec<u8>) -> (r: Result<String, String>)
    ensures
        r is Ok <==> utf8_decode(bytes@) is Some,
        r matches Ok(t) ==> utf8_decode(bytes@) == Some(t@),
{
    let ghost b = bytes@;
    let r = utf8_text(bytes);
    proof {
        if r is Ok {
            lemma_utf8_decode(b, r->Ok_0@);
        }
    }
    r
}

/// The text of a string object, if it is one and is UTF-8.
fn obj_to_string(obj: &lopdf::Object) -> (r: Option<String>)
    ensures
        r is Some <==> obj_text_spec(obj_model(*obj)) is Some,
        r matches Some(t) ==> obj_text_spec(obj_model(*obj)) == Some(t@),
{
    match obj_as_str(obj) {
        Ok(bytes) => match decode_utf8(bytes) {
            Ok(s) => Some(s),
            Err(_) => None,
        },
        Err(_) => None,
    }
}

/// The XML of a file specification: its `EF`/`F` stream, decompressed where
/// it has a filter (else its raw content), as UTF-8 text.
fn extract_xml_from_filespec_dict(doc: &lopdf::Document, fs_dict: &lopdf::Dictionary) -> (r: Result<String, String>)
    ensures
        r is Ok <==> filespec_xml(doc_objects(*doc), dict_model(*fs_dict)) is Some,
        r matches Ok(t) ==> filespec_xml(doc_objects(*doc), dict_model(*fs_dict)) == Some(t@),
{
    let ef_obj = dict_get(fs_dict, "EF")?;
    let ef_dict = resolve_dict(doc, ef_obj)?;
    let f_obj = dict_get(ef_dict, "F")?;
    let stream_obj = resolve_obj(doc, f_obj)?;
    let stream = obj_as_stream(stream_obj)?;
    let content = match stream_decompressed(stream) {
        Ok(c) => c,
        Err(_) => stream_content(stream),
    };
    decode_utf8(content)
}

/// The invoice through the catalog's `Names`/`EmbeddedFiles` name tree: the
/// file of the first pair whose name is a Factur-X file name.
fn extract_via_names(doc: &lopdf::Document) -> (r: Result<String, String>)
    ensures
        r is Ok <==> via_names_spec(doc_file(*doc)) is Some,
        r matches Ok(t) ==> via_names_spec(doc_file(*doc)) == Some(t@),
{
    let ghost objs = doc_objects(*doc);
    let catalog = pdf_catalog(doc)?;
    let names_obj = dict_get(catalog, "Names")?;
    let names_dict = resolve_dict(doc, names_obj)?;
    let ef_obj = dict_get(names_dict, "EmbeddedFiles")?;
    let ef_dict = resolve_dict(doc, ef_obj)?;
    let array_obj = dict_get(ef_dict, "Names")?;
    let names_array = obj_as_array(array_obj)?;
    let ghost items = names_array@.map_values(|x: lopdf::Object| obj_model(x));
    let ghost texts = items.map_values(|o: PdfObj| obj_text_spec(o));
    let mut names: Vec<Option<String>> = Vec::new();
    let mut i: usize = 0;
    while i < names_array.len()
        invariant
            i <= names_array@.len(),
            names@.len() == i,
            items == names_array@.map_values(|x: lopdf::Object| obj_model(x)),
            texts == items.map_values(|o: PdfObj| obj_text_spec(o)),
            forall|j: int| 0 <= j < i ==> (#[trigger] names@[j] matches Some(t) ==> texts[j] == Some(t@))
                && (names@[j] is None ==> texts[j] is None),
        decreases names_array.len() - i,
    {
        names.push(obj_to_string(&names_array[i]));
        i = i + 1;
    }
    proof {
        assert forall|k: int| #[trigger] is_first_named(texts, k) <==> is_first_named_entry(names@, k) by {
            if 0 <= k && 2 * k + 1 < texts.len() {
                assert(names@[2 * k] matches Some(t) ==> texts[2 * k] == Some(t@));
                assert forall|j: int| 0 <= j < k implies ((#[trigger] texts[2 * j] matches Some(n) && facturx_name(n))
                    <==> (names@[2 * j] matches Some(n) && facturx_name(n@))) by {
                    assert(names@[2 * j] matches Some(t) ==> texts[2 * j] == Some(t@));
                }
            }
        }
    }
    match facturx_entry(&names) {
        Some(k) => {
            proof {
                let kk = (k / 2) as int;
                assert(is_first_named(texts, kk));
                assert forall|m: int| is_first_named(texts, m) implies m == kk by {
                    if m < kk {
                        assert(texts[2 * m] matches Some(n) && facturx_name(n));
                    } else if m > kk {
                        assert(texts[2 * kk] matches Some(n) && facturx_name(n));
                    }
                }
                assert(2 * kk + 1 == k);
            }
            extract_xml_from_filespec(doc, &names_array[k])
        },
        None => Err(string_of("factur-x.xml not found in EmbeddedFiles name tree")),
    }
}

fn extract_xml_from_filespec(doc: &lopdf::Document, obj: &lopdf::Object) -> (r: Result<String, String>)
    ensures
        r is Ok <==> (match obj_model(*obj) {
            PdfObj::Reference(n, g) => match get_dict(doc_objects(*doc), (n, g)) {
                Some(fs) => filespec_xml(doc_objects(*doc), fs),
                None => None,
            },
            _ => None,
        }) is Some,
        r matches Ok(t) ==> (match obj_model(*obj) {
            PdfObj::Reference(n, g) => match get_dict(doc_objects(*doc), (n, g)) {
                Some(fs) => filespec_xml(doc_objects(*doc), fs),
                None => None,
            },
            _ => None,
        }) == Some(t@),
{
    let fs_id = obj_as_reference(obj)?;
    let fs_dict = pdf_get_dictionary(doc, fs_id)?;
    extract_xml_from_filespec_dict(doc, fs_dict)
}

/// The file name of a file specification: its `UF` entry, else its `F`
/// entry, where that is a UTF-8 string; empty otherwise.
fn filespec_name(fs_dict: &lopdf::Dictionary) -> (r: String)
    ensures
        r@ == filespec_name_spec(dict_model(*fs_dict)),
{
    let entry = match dict_get(fs_dict, "UF") {
        Ok(o) => Ok(o),
        Err(_) => dict_get(fs_dict, "F"),
    };
    match entry {
        Ok(o) => match obj_to_string(o) {
            Some(s) => s,
            None => String::new(),
        },
        Err(_) => String::new(),
    }
}

/// The invoice through the catalog's `AF` array: the first file
/// specification whose name is a Factur-X file name.
fn extract_via_af(doc: &lopdf::Document) -> (r: Result<String, String>)
    ensures
        r is Ok <==> via_af_spec(doc_file(*doc)) is Some,
        r matches Ok(t) ==> via_af_spec(doc_file(*doc)) == Some(t@),
{
    let ghost objs = doc_objects(*doc);
    let catalog = pdf_catalog(doc)?;
    let af_obj = dict_get(catalog, "AF")?;
    let af_array = obj_as_array(af_obj)?;
    let ghost items = af_array@.map_values(|x: lopdf::Object| obj_model(x));
    let mut i: usize = 0;
    while i < af_array.len()
        invariant
            i <= af_array@.len(),
            objs == doc_objects(*doc),
            items == af_array@.map_values(|x: lopdf::Object| obj_model(x)),
            via_af_spec(doc_file(*doc)) == af_scan(objs, items, i as int),
        decreases af_array.len() - i,
    {
        let fs_id = obj_as_reference(&af_array[i])?;
        let fs_dict = pdf_get_dictionary(doc, fs_id)?;
        let name = filespec_name(fs_dict);
        if is_facturx_filename(name.as_str()) {
            return extract_xml_from_filespec_dict(doc, fs_dict);
        }
        i = i + 1;
    }
    Err(string_of("factur-x.xml not found in AF array"))
}

/// Extract the Factur-X/ZUGFeRD XML from a PDF: through the `EmbeddedFiles`
/// name tree first, then through the `AF` array.
pub fn extract_from_pdf(pdf_bytes: &[u8]) -> (r: Result<String, RechnungError>)
    ensures
        r is Ok <==> extracted(pdf_bytes@) is Some,
        r matches Ok(t) ==> extracted(pdf_bytes@) == Some(t@),
        pdf_loaded(pdf_bytes@) is None ==> (r matches Err(e) && load_error(e)),
        r matches Err(e) ==> pdf_error(
            e,
            seq!["failed to load PDF: "@, "no ZUGFeRD/Factur-X XML found in PDF: "@],
        ),
{
    let doc = match pdf_load(pdf_bytes) {
        Ok(d) => d,
        Err(why) => {
            let e = builder_error("failed to load PDF: ", why.as_str());
            proof {
                reveal_strlit("failed to load PDF: ");
                assert(seq!["failed to load PDF: "@, "no ZUGFeRD/Factur-X XML found in PDF: "@][0]
                    == "failed to load PDF: "@);
            }
            return Err(e);
        },
    };
    match extract_via_names(&doc) {
        Ok(s) => Ok(s),
        Err(_) => match extract_via_af(&doc) {
            Ok(s) => Ok(s),
            Err(why) => {
                let e = builder_error("no ZUGFeRD/Factur-X XML found in PDF: ", why.as_str());
                proof {
                    assert(seq!["failed to load PDF: "@, "no ZUGFeRD/Factur-X XML found in PDF: "@][1]
                        == "no ZUGFeRD/Factur-X XML found in PDF: "@);
                }
                Err(e)
            },
        },
    }
}

// ---------------------------------------------------------------- embedding

/// The error of adding an object when lopdf has no object number left.
fn add_error(why: String) -> (e: RechnungError)
    ensures
        e matches RechnungError::Builder(m) && starts_with(m@, "failed to add PDF object: "@),
{
    builder_error("failed to add PDF object: ", why.as_str())
}

/// Adds the XML as an embedded file (`factur-x.xml`, with the profile's
/// relationship) and the uncompressed XMP metadata stream, and makes the
/// catalog point to them through `AF`, the `EmbeddedFiles` name tree and
/// `Metadata`; the catalog is marked.
fn embed_xml_into_document(doc: &mut lopdf::Document, xml_bytes: Vec<u8>, profile: ZugferdProfile) -> (r: Result<
    (),
    RechnungError,
>)
    ensures
        r is Ok <==> embeddable(doc_file(*old(doc)), xml_bytes@, profile),
        r is Ok ==> doc_file(*final(doc)) == embedded(doc_file(*old(doc)), xml_bytes@, profile),
        r matches Err(e) ==> e matches RechnungError::Builder(m) && (starts_with(m@, "failed to get catalog: "@)
            || starts_with(m@, "failed to add PDF object: "@)),
{
    let ghost f0 = doc_file(*doc);
    let ghost xb = xml_bytes@;
    let ghost g = with_new_objects(f0, xb, profile);
    let n = xml_bytes.len();
    let mut params = dict_new();
    let size: i64 = if n as u64 <= 9223372036854775807u64 {
        n as i64
    } else {
        i64::MAX
    };
    dict_set(&mut params, "Size", obj_int(size));
    let mut ef_dict = dict_new();
    dict_set(&mut ef_dict, "Type", obj_name("EmbeddedFile"));
    dict_set(&mut ef_dict, "Subtype", obj_name("text#2Fxml"));
    dict_set(&mut ef_dict, "Params", obj_dict(params));
    let file = stream_new(ef_dict, xml_bytes);
    assert(PdfObj::Stream(stream_model(file).0, stream_model(file).1) == ef_stream(xb));
    let ef_stream_id = match pdf_add_stream(doc, file) {
        Ok(id) => id,
        Err(why) => return Err(add_error(why)),
    };
    let ghost f1 = doc_file(*doc);
    assert(f1.objects == f0.objects.insert(new_id(f0, 1), ef_stream(xb)));

    let mut ef = dict_new();
    dict_set(&mut ef, "F", obj_ref(ef_stream_id));
    dict_set(&mut ef, "UF", obj_ref(ef_stream_id));
    let mut filespec = dict_new();
    dict_set(&mut filespec, "Type", obj_name("Filespec"));
    dict_set(&mut filespec, "F", obj_text(FACTURX_FILENAME));
    dict_set(&mut filespec, "UF", obj_text(FACTURX_FILENAME));
    dict_set(&mut filespec, "Desc", obj_text("Factur-X XML invoice"));
    dict_set(&mut filespec, "AFRelationship", obj_name(profile.af_relationship()));
    dict_set(&mut filespec, "EF", obj_dict(ef));
    assert(PdfObj::Dict(dict_model(filespec)) == filespec_obj(new_id(f0, 1), profile));
    let filespec_id = match pdf_add_dict(doc, filespec) {
        Ok(id) => id,
        Err(why) => return Err(add_error(why)),
    };
    let ghost f2 = doc_file(*doc);
    assert(f2.objects == f1.objects.insert(new_id(f0, 2), filespec_obj(new_id(f0, 1), profile)));

    let mut tree_items: Vec<lopdf::Object> = Vec::new();
    tree_items.push(obj_text(FACTURX_FILENAME));
    tree_items.push(obj_ref(filespec_id));
    assert(tree_items@.map_values(|x: lopdf::Object| obj_model(x)) =~= seq![
        text_obj(FACTURX_FILENAME@),
        PdfObj::Reference(new_id(f0, 2).0, new_id(f0, 2).1),
    ]);
    let mut name_tree = dict_new();
    dict_set(&mut name_tree, "Names", obj_array(tree_items));
    assert(PdfObj::Dict(dict_model(name_tree)) == name_tree_obj(new_id(f0, 2)));
    let name_tree_id = match pdf_add_dict(doc, name_tree) {
        Ok(id) => id,
        Err(why) => return Err(add_error(why)),
    };
    let ghost f3 = doc_file(*doc);
    assert(f3.objects == f2.objects.insert(new_id(f0, 3), name_tree_obj(new_id(f0, 2))));

    let mut names = dict_new();
    dict_set(&mut names, "EmbeddedFiles", obj_ref(name_tree_id));
    let names_id = match pdf_add_dict(doc, names) {
        Ok(id) => id,
        Err(why) => return Err(add_error(why)),
    };
    let ghost f4 = doc_file(*doc);
    assert(f4.objects == f3.objects.insert(new_id(f0, 4), names_obj(new_id(f0, 3))));

    let mut meta_dict = dict_new();
    dict_set(&mut meta_dict, "Type", obj_name("Metadata"));
    dict_set(&mut meta_dict, "Subtype", obj_name("XML"));
    let xmp = build_xmp(profile);
    let metadata = stream_uncompressed(stream_new(meta_dict, str_bytes(xmp.as_str())));
    assert(PdfObj::Stream(stream_model(metadata).0, stream_model(metadata).1) == metadata_obj(profile));
    let metadata_id = match pdf_add_stream(doc, metadata) {
        Ok(id) => id,
        Err(why) => return Err(add_error(why)),
    };
    assert(doc_file(*doc) == g);

    let catalog = match pdf_catalog_mut(doc) {
        Ok(c) => c,
        Err(why) => {
            proof {
                reveal_strlit("failed to get catalog: ");
            }
            return Err(builder_error("failed to get catalog: ", why.as_str()));
        },
    };
    let mut af_items: Vec<lopdf::Object> = Vec::new();
    af_items.push(obj_ref(filespec_id));
    assert(af_items@.map_values(|x: lopdf::Object| obj_model(x)) =~= seq![
        PdfObj::Reference(new_id(f0, 2).0, new_id(f0, 2).1),
    ]);
    dict_set(catalog, "AF", obj_array(af_items));
    dict_set(catalog, "Names", obj_ref(names_id));
    dict_set(catalog, "Metadata", obj_ref(metadata_id));
    let mut mark = dict_new();
    dict_set(&mut mark, "Marked", obj_bool(true));
    dict_set(catalog, "MarkInfo", obj_dict(mark));
    Ok(())
}

/// The bytes are what lopdf saves for a document loaded from `pdf` whose
/// contents are those `embedded` gives for the XML.
pub open spec fn saved_embedding(out: Seq<u8>, pdf: Seq<u8>, xml: Seq<char>, profile: ZugferdProfile) -> bool {
    match pdf_loaded(pdf) {
        Some(f) => exists|d: lopdf::Document|
            doc_file(d) == embedded(f, utf8_encode(xml), profile) && out == #[trigger] pdf_saved(d),
        None => false,
    }
}

/// Embed a Factur-X/ZUGFeRD XML into a PDF as `factur-x.xml` and return the
/// new PDF bytes: the loaded document with the contents `embedded` gives,
/// saved by lopdf.
pub fn embed_in_pdf(pdf_bytes: &[u8], xml: &str, profile: ZugferdProfile) -> (r: Result<
    Vec<u8>,
    RechnungError,
>)
    ensures
        pdf_loaded(pdf_bytes@) is None ==> (r matches Err(e) && load_error(e)),
        pdf_loaded(pdf_bytes@) matches Some(f) && !embeddable(f, utf8_encode(xml@), profile) ==> r is Err,
        r matches Ok(b) ==> saved_embedding(b@, pdf_bytes@, xml@, profile),
        pdf_loaded(pdf_bytes@) matches Some(f) && embeddable(f, utf8_encode(xml@), profile) ==> (r is Ok || (
        r matches Err(e) && save_error(e))),
        pdf_loaded(pdf_bytes@) matches Some(f) ==> embed_finds(f, xml@, profile),
        r matches Err(e) ==> pdf_error(
            e,
            seq![
                "failed to load PDF: "@,
                "failed to get catalog: "@,
                "failed to save PDF: "@,
                "failed to add PDF object: "@,
            ],
        ),
{
    let ghost ps = seq![
        "failed to load PDF: "@,
        "failed to get catalog: "@,
        "failed to save PDF: "@,
        "failed to add PDF object: "@,
    ];
    let mut doc = match pdf_load(pdf_bytes) {
        Ok(d) => d,
        Err(why) => {
            let e = builder_error("failed to load PDF: ", why.as_str());
            proof {
                assert(ps[0] == "failed to load PDF: "@);
            }
            return Err(e);
        },
    };
    proof {
        let f = doc_file(doc);
        if catalog_loc(f) is Some && f.max_id + 5 <= u32::MAX {
            lemma_embed_then_extract(f, xml@, profile);
        }
    }
    match embed_xml_into_document(&mut doc, str_bytes(xml), profile) {
        Ok(()) => {},
        Err(e) => {
            proof {
                assert(ps[1] == "failed to get catalog: "@);
                assert(ps[3] == "failed to add PDF object: "@);
            }
            return Err(e);
        },
    }
    let ghost before_save = doc;
    match pdf_save(&mut doc) {
        Ok(out) => {
            assert(out@ == pdf_saved(before_save));
            Ok(out)
        },
        Err(why) => {
            let e = builder_error("failed to save PDF: ", why.as_str());
            proof {
                assert(ps[2] == "failed to save PDF: "@);
            }
            Err(e)
        },
    }
}

/// The UTF-8 bytes of a text (`str::as_bytes`).
#[verifier::external_body]
fn str_bytes(s: &str) -> (r: Vec<u8>)
    ensures
        r@ == utf8_encode(s@),
{
    s.as_bytes().to_vec()
}

} // verus!
