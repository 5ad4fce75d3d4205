use faktura::zugferd::pdf::{embed_in_pdf, extract_from_pdf};
use faktura::zugferd::profile::ZugferdProfile;
use faktura::zugferd::xmp::build_xmp;
use faktura::model::error::RechnungError;
use lopdf::{Dictionary, Document, Object};

fn blank_pdf() -> Vec<u8> {
    let mut doc = Document::with_version("1.7");
    let pages_id = doc.new_object_id();
    let mut pages = Dictionary::new();
    pages.set("Type", Object::Name(b"Pages".to_vec()));
    pages.set("Kids", Object::Array(vec![]));
    pages.set("Count", Object::Integer(0));
    doc.objects.insert(pages_id, Object::Dictionary(pages));
    let mut catalog = Dictionary::new();
    catalog.set("Type", Object::Name(b"Catalog".to_vec()));
    catalog.set("Pages", Object::Reference(pages_id));
    let catalog_id = doc.add_object(catalog);
    doc.trailer.set("Root", Object::Reference(catalog_id));
    let mut out = Vec::new();
    doc.save_to(&mut out).unwrap();
    out
}

#[test]
fn embed_then_extract_gives_the_xml() {
    let xml = "<rsm:CrossIndustryInvoice>Grüße</rsm:CrossIndustryInvoice>";
    let pdf = embed_in_pdf(&blank_pdf(), xml, ZugferdProfile::EN16931).unwrap();
    assert_eq!(extract_from_pdf(&pdf).unwrap(), xml);
}

#[test]
fn extract_from_garbage_fails_to_load() {
    match extract_from_pdf(b"not a pdf") {
        Err(RechnungError::Builder(m)) => assert!(m.starts_with("failed to load PDF: ")),
        _ => panic!("expected a load error"),
    }
}

#[test]
fn extract_without_attachment_is_not_found() {
    match extract_from_pdf(&blank_pdf()) {
        Err(RechnungError::Builder(m)) => assert!(m.starts_with("no ZUGFeRD/Factur-X XML found in PDF: ")),
        _ => panic!("expected a not-found error"),
    }
}

#[test]
fn embedded_pdf_has_uncompressed_xmp_metadata() {
    let xml = "<rsm:CrossIndustryInvoice/>";
    let pdf = embed_in_pdf(&blank_pdf(), xml, ZugferdProfile::EN16931).unwrap();
    let doc = Document::load_mem(&pdf).unwrap();
    let catalog = doc.catalog().unwrap();
    let meta_id = catalog.get(b"Metadata").unwrap().as_reference().unwrap();
    let stream = doc.get_object(meta_id).unwrap().as_stream().unwrap();
    assert!(stream.dict.get(b"Filter").is_err());
    let text = String::from_utf8(stream.content.clone()).unwrap();
    assert!(text.starts_with("<?xpacket begin="));
    assert!(text.contains("<pdfaid:part>3</pdfaid:part>"));
    assert!(text.contains("<fx:ConformanceLevel>EN 16931</fx:ConformanceLevel>"));
    assert!(catalog.get(b"AF").is_ok());
    assert!(catalog.get(b"Names").is_ok());
}

#[test]
fn embed_into_pdf_without_catalog_fails() {
    let mut doc = Document::with_version("1.7");
    let id = doc.add_object(Dictionary::new());
    doc.trailer.set("Info", Object::Reference(id));
    let mut bytes = Vec::new();
    doc.save_to(&mut bytes).unwrap();
    match embed_in_pdf(&bytes, "<x/>", ZugferdProfile::Basic) {
        Err(RechnungError::Builder(m)) => assert!(m.starts_with("failed to get catalog: ")),
        _ => panic!("expected a catalog error"),
    }
}

#[test]
fn xmp_names_the_profile() {
    let x = build_xmp(ZugferdProfile::Basic);
    assert!(x.contains("<fx:ConformanceLevel>BASIC</fx:ConformanceLevel>"));
    assert!(x.contains("<fx:DocumentFileName>factur-x.xml</fx:DocumentFileName>"));
    assert!(x.ends_with("<?xpacket end=\"w\"?>"));
}
