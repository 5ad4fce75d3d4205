//! The XMP metadata packet of a Factur-X PDF/A-3 file: PDF/A-3B
//! identification, the Factur-X extension schema, and the invoice's
//! document type, file name, version and conformance level.
use vstd::prelude::*;
use crate::text::{push_str, string_of};
use crate::zugferd::profile::{conformance_spec, ZugferdProfile};

verus! {

/// Everything before the conformance level.
pub open spec fn xmp_head() -> Seq<char> {
    "<?xpacket begin=\"\u{feff}\" id=\"W5M0MpCehiHzreSzNTczkc9d\"?>\n<x:xmpmeta xmlns:x=\"adobe:ns:meta/\">\n<rdf:RDF xmlns:rdf=\"http://www.w3.org/1999/02/22-rdf-syntax-ns#\">\n<rdf:Description rdf:about=\"\" xmlns:pdfaid=\"http://www.aiim.org/pdfa/ns/id/\">\n<pdfaid:part>3</pdfaid:part>\n<pdfaid:conformance>B</pdfaid:conformance>\n</rdf:Description>\n<rdf:Description rdf:about=\"\" xmlns:fx=\"urn:factur-x:pdfa:CrossIndustryDocument:invoice:1p0#\">\n<fx:DocumentType>INVOICE</fx:DocumentType>\n<fx:DocumentFileName>factur-x.xml</fx:DocumentFileName>\n<fx:Version>1.0</fx:Version>\n<fx:ConformanceLevel>"@
}

/// Everything after the conformance level: the PDF/A extension schema that
/// declares the `fx` properties, and the packet's end.
pub open spec fn xmp_tail() -> Seq<char> {
    "</fx:ConformanceLevel>\n</rdf:Description>\n<rdf:Description rdf:about=\"\" xmlns:pdfaExtension=\"http://www.aiim.org/pdfa/ns/extension/\" xmlns:pdfaSchema=\"http://www.aiim.org/pdfa/ns/schema#\" xmlns:pdfaProperty=\"http://www.aiim.org/pdfa/ns/property#\">\n<pdfaExtension:schemas>\n<rdf:Bag>\n<rdf:li rdf:parseType=\"Resource\">\n<pdfaSchema:schema>Factur-X PDFA Extension Schema</pdfaSchema:schema>\n<pdfaSchema:namespaceURI>urn:factur-x:pdfa:CrossIndustryDocument:invoice:1p0#</pdfaSchema:namespaceURI>\n<pdfaSchema:prefix>fx</pdfaSchema:prefix>\n<pdfaSchema:property>\n<rdf:Seq>\n<rdf:li rdf:parseType=\"Resource\">\n<pdfaProperty:name>DocumentFileName</pdfaProperty:name>\n<pdfaProperty:valueType>Text</pdfaProperty:valueType>\n<pdfaProperty:category>external</pdfaProperty:category>\n<pdfaProperty:description>name of the embedded XML invoice file</pdfaProperty:description>\n</rdf:li>\n<rdf:li rdf:parseType=\"Resource\">\n<pdfaProperty:name>DocumentType</pdfaProperty:name>\n<pdfaProperty:valueType>Text</pdfaProperty:valueType>\n<pdfaProperty:category>external</pdfaProperty:category>\n<pdfaProperty:description>INVOICE</pdfaProperty:description>\n</rdf:li>\n<rdf:li rdf:parseType=\"Resource\">\n<pdfaProperty:name>Version</pdfaProperty:name>\n<pdfaProperty:valueType>Text</pdfaProperty:valueType>\n<pdfaProperty:category>external</pdfaProperty:category>\n<pdfaProperty:description>The actual version of the Factur-X XML schema</pdfaProperty:description>\n</rdf:li>\n<rdf:li rdf:parseType=\"Resource\">\n<pdfaProperty:name>ConformanceLevel</pdfaProperty:name>\n<pdfaProperty:valueType>Text</pdfaProperty:valueType>\n<pdfaProperty:category>external</pdfaProperty:category>\n<pdfaProperty:description>The conformance level of the embedded Factur-X data</pdfaProperty:description>\n</rdf:li>\n</rdf:Seq>\n</pdfaSchema:property>\n</rdf:li>\n</rdf:Bag>\n</pdfaExtension:schemas>\n</rdf:Description>\n</rdf:RDF>\n</x:xmpmeta>\n<?xpacket end=\"w\"?>"@
}

/// The XMP packet for a profile.
pub open spec fn xmp_packet(profile: ZugferdProfile) -> Seq<char> {
    xmp_head() + conformance_spec(profile) + xmp_tail()
}

/// The XMP metadata packet that marks a PDF as PDF/A-3B with Factur-X data
/// of the given profile.
pub fn build_xmp(profile: ZugferdProfile) -> (r: String)
    ensures
        r@ == xmp_packet(profile),
{
    let mut s = string_of("<?xpacket begin=\"\u{feff}\" id=\"W5M0MpCehiHzreSzNTczkc9d\"?>\n<x:xmpmeta xmlns:x=\"adobe:ns:meta/\">\n<rdf:RDF xmlns:rdf=\"http://www.w3.org/1999/02/22-rdf-syntax-ns#\">\n<rdf:Description rdf:about=\"\" xmlns:pdfaid=\"http://www.aiim.org/pdfa/ns/id/\">\n<pdfaid:part>3</pdfaid:part>\n<pdfaid:conformance>B</pdfaid:conformance>\n</rdf:Description>\n<rdf:Description rdf:about=\"\" xmlns:fx=\"urn:factur-x:pdfa:CrossIndustryDocument:invoice:1p0#\">\n<fx:DocumentType>INVOICE</fx:DocumentType>\n<fx:DocumentFileName>factur-x.xml</fx:DocumentFileName>\n<fx:Version>1.0</fx:Version>\n<fx:ConformanceLevel>");
    push_str(&mut s, profile.conformance_level());
    push_str(&mut s, "</fx:ConformanceLevel>\n</rdf:Description>\n<rdf:Description rdf:about=\"\" xmlns:pdfaExtension=\"http://www.aiim.org/pdfa/ns/extension/\" xmlns:pdfaSchema=\"http://www.aiim.org/pdfa/ns/schema#\" xmlns:pdfaProperty=\"http://www.aiim.org/pdfa/ns/property#\">\n<pdfaExtension:schemas>\n<rdf:Bag>\n<rdf:li rdf:parseType=\"Resource\">\n<pdfaSchema:schema>Factur-X PDFA Extension Schema</pdfaSchema:schema>\n<pdfaSchema:namespaceURI>urn:factur-x:pdfa:CrossIndustryDocument:invoice:1p0#</pdfaSchema:namespaceURI>\n<pdfaSchema:prefix>fx</pdfaSchema:prefix>\n<pdfaSchema:property>\n<rdf:Seq>\n<rdf:li rdf:parseType=\"Resource\">\n<pdfaProperty:name>DocumentFileName</pdfaProperty:name>\n<pdfaProperty:valueType>Text</pdfaProperty:valueType>\n<pdfaProperty:category>external</pdfaProperty:category>\n<pdfaProperty:description>name of the embedded XML invoice file</pdfaProperty:description>\n</rdf:li>\n<rdf:li rdf:parseType=\"Resource\">\n<pdfaProperty:name>DocumentType</pdfaProperty:name>\n<pdfaProperty:valueType>Text</pdfaProperty:valueType>\n<pdfaProperty:category>external</pdfaProperty:category>\n<pdfaProperty:description>INVOICE</pdfaProperty:description>\n</rdf:li>\n<rdf:li rdf:parseType=\"Resource\">\n<pdfaProperty:name>Version</pdfaProperty:name>\n<pdfaProperty:valueType>Text</pdfaProperty:valueType>\n<pdfaProperty:category>external</pdfaProperty:category>\n<pdfaProperty:description>The actual version of the Factur-X XML schema</pdfaProperty:description>\n</rdf:li>\n<rdf:li rdf:parseType=\"Resource\">\n<pdfaProperty:name>ConformanceLevel</pdfaProperty:name>\n<pdfaProperty:valueType>Text</pdfaProperty:valueType>\n<pdfaProperty:category>external</pdfaProperty:category>\n<pdfaProperty:description>The conformance level of the embedded Factur-X data</pdfaProperty:description>\n</rdf:li>\n</rdf:Seq>\n</pdfaSchema:property>\n</rdf:li>\n</rdf:Bag>\n</pdfaExtension:schemas>\n</rdf:Description>\n</rdf:RDF>\n</x:xmpmeta>\n<?xpacket end=\"w\"?>");
    s
}

} // verus!
