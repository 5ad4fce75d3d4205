//! ZUGFeRD / Factur-X conformance profiles.
use vstd::prelude::*;
use crate::model::error::RechnungError;
use crate::model::types::Invoice;
use crate::text::{
    ascii_lower, contains, is_ascii_seq, replace_all, replace_str, seq_contains, to_lowercase, unicode_lower,
};
use crate::xml::xml_rendering;
use crate::xrechnung::cii::{cii_document, to_cii_xml};
use crate::xrechnung::ubl::{generation_failure, is_totals_missing, lines_overflow};
use crate::xrechnung::XRECHNUNG_CUSTOMIZATION_ID;

verus! {

/// The embedded XML filename per Factur-X 1.0+ specification.
pub const FACTURX_FILENAME: &'static str = "factur-x.xml";

/// ZUGFeRD / Factur-X conformance profile.
#[derive(Debug, Clone, Copy, PartialEq, Eq, Structural)]
pub enum ZugferdProfile {
    /// Minimal machine-readable data (no line items).
    Minimum,
    /// Basic data without line items.
    BasicWl,
    /// Basic with line items.
    Basic,
    /// Full EN 16931 European norm (recommended for most use cases).
    EN16931,
    /// Extended profile (beyond EN 16931).
    Extended,
    /// XRechnung profile (German public sector).
    XRechnung,
}

pub open spec fn urn_spec(p: ZugferdProfile) -> Seq<char> {
    match p {
        ZugferdProfile::Minimum => "urn:factur-x.eu:1p0:minimum"@,
        ZugferdProfile::BasicWl => "urn:factur-x.eu:1p0:basicwl"@,
        ZugferdProfile::Basic => "urn:cen.eu:en16931:2017#compliant#urn:factur-x.eu:1p0:basic"@,
        ZugferdProfile::EN16931 => "urn:cen.eu:en16931:2017"@,
        ZugferdProfile::Extended => "urn:cen.eu:en16931:2017#conformant#urn:factur-x.eu:1p0:extended"@,
        ZugferdProfile::XRechnung => "urn:cen.eu:en16931:2017#compliant#urn:xeinkauf.de:kosit:xrechnung_3.0"@,
    }
}

pub open spec fn conformance_spec(p: ZugferdProfile) -> Seq<char> {
    match p {
        ZugferdProfile::Minimum => "MINIMUM"@,
        ZugferdProfile::BasicWl => "BASIC WL"@,
        ZugferdProfile::Basic => "BASIC"@,
        ZugferdProfile::EN16931 => "EN 16931"@,
        ZugferdProfile::Extended => "EXTENDED"@,
        ZugferdProfile::XRechnung => "XRECHNUNG"@,
    }
}

pub open spec fn af_relationship_spec(p: ZugferdProfile) -> Seq<char> {
    match p {
        ZugferdProfile::Minimum | ZugferdProfile::BasicWl => "Data"@,
        _ => "Alternative"@,
    }
}

impl ZugferdProfile {
    /// The URN identifier used in the CII XML `GuidelineSpecifiedDocumentContextParameter`.
    pub fn urn(&self) -> (r: &'static str)
        ensures
            r@ == urn_spec(*self),
    {
        match self {
            ZugferdProfile::Minimum => "urn:factur-x.eu:1p0:minimum",
            ZugferdProfile::BasicWl => "urn:factur-x.eu:1p0:basicwl",
            ZugferdProfile::Basic => "urn:cen.eu:en16931:2017#compliant#urn:factur-x.eu:1p0:basic",
            ZugferdProfile::EN16931 => "urn:cen.eu:en16931:2017",
            ZugferdProfile::Extended => "urn:cen.eu:en16931:2017#conformant#urn:factur-x.eu:1p0:extended",
            ZugferdProfile::XRechnung => "urn:cen.eu:en16931:2017#compliant#urn:xeinkauf.de:kosit:xrechnung_3.0",
        }
    }

    /// The XMP ConformanceLevel value.
    pub fn conformance_level(&self) -> (r: &'static str)
        ensures
            r@ == conformance_spec(*self),
    {
        match self {
            ZugferdProfile::Minimum => "MINIMUM",
            ZugferdProfile::BasicWl => "BASIC WL",
            ZugferdProfile::Basic => "BASIC",
            ZugferdProfile::EN16931 => "EN 16931",
            ZugferdProfile::Extended => "EXTENDED",
            ZugferdProfile::XRechnung => "XRECHNUNG",
        }
    }

    /// The AFRelationship value for the PDF FileSpec.
    pub fn af_relationship(&self) -> (r: &'static str)
        ensures
            r@ == af_relationship_spec(*self),
    {
        match self {
            ZugferdProfile::Minimum | ZugferdProfile::BasicWl => "Data",
            _ => "Alternative",
        }
    }
}

/// Each profile's guideline identifier is its Factur-X 1.0 / XRechnung URN,
/// and no two profiles share one.
pub proof fn lemma_profile_urns(a: ZugferdProfile, b: ZugferdProfile)
    ensures
        urn_spec(ZugferdProfile::Minimum) == "urn:factur-x.eu:1p0:minimum"@,
        urn_spec(ZugferdProfile::BasicWl) == "urn:factur-x.eu:1p0:basicwl"@,
        urn_spec(ZugferdProfile::Basic) == "urn:cen.eu:en16931:2017#compliant#urn:factur-x.eu:1p0:basic"@,
        urn_spec(ZugferdProfile::EN16931) == "urn:cen.eu:en16931:2017"@,
        urn_spec(ZugferdProfile::Extended) == "urn:cen.eu:en16931:2017#conformant#urn:factur-x.eu:1p0:extended"@,
        urn_spec(ZugferdProfile::XRechnung) == "urn:cen.eu:en16931:2017#compliant#urn:xeinkauf.de:kosit:xrechnung_3.0"@,
        urn_spec(a) == urn_spec(b) ==> a == b,
{
    reveal_strlit("urn:factur-x.eu:1p0:minimum");
    reveal_strlit("urn:factur-x.eu:1p0:basicwl");
    reveal_strlit("urn:cen.eu:en16931:2017#compliant#urn:factur-x.eu:1p0:basic");
    reveal_strlit("urn:cen.eu:en16931:2017");
    reveal_strlit("urn:cen.eu:en16931:2017#conformant#urn:factur-x.eu:1p0:extended");
    reveal_strlit("urn:cen.eu:en16931:2017#compliant#urn:xeinkauf.de:kosit:xrechnung_3.0");
    if urn_spec(a) == urn_spec(b) && a != b {
        let x = urn_spec(a);
        let y = urn_spec(b);
        assert(x.len() == y.len());
        assert(x[20] == y[20]);
        assert(x[24] == y[24]);
        assert(x[35] == y[35]);
        assert(x[40] == y[40]);
    }
}

/// A file name that names a Factur-X or ZUGFeRD attachment.
pub open spec fn facturx_name(name: Seq<char>) -> bool {
    seq_contains(lowered(name), "factur-x"@) || seq_contains(lowered(name), "zugferd"@)
}

/// A text in lower case as `str::to_lowercase` gives it: on ASCII text only
/// `A`-`Z` change.
pub open spec fn lowered(name: Seq<char>) -> Seq<char> {
    if is_ascii_seq(name) {
        name.map_values(|c: char| ascii_lower(c))
    } else {
        unicode_lower(name)
    }
}

/// Whether an embedded file's name (lower-cased) mentions `factur-x` or `zugferd`.
pub fn is_facturx_filename(name: &str) -> (r: bool)
    ensures
        r == facturx_name(name@),
{
    let lower = to_lowercase(name);
    contains(lower.as_str(), "factur-x") || contains(lower.as_str(), "zugferd")
}

/// The first pair `[name, file]` of an EmbeddedFiles name array whose name
/// (where it is a text) is a Factur-X file name.
pub open spec fn is_first_named_entry(names: Seq<Option<String>>, k: int) -> bool {
    &&& 0 <= k && 2 * k + 1 < names.len()
    &&& names[2 * k] matches Some(n) && facturx_name(n@)
    &&& forall|j: int| 0 <= j < k ==> !(#[trigger] names[2 * j] matches Some(n) && facturx_name(n@))
}

/// The position of the file reference that belongs to the first Factur-X name
/// in an EmbeddedFiles name array given as `[name, file, name, file, ...]`,
/// the names as text where they are strings.
pub fn facturx_entry(names: &Vec<Option<String>>) -> (r: Option<usize>)
    ensures
        match r {
            Some(i) => i % 2 == 1 && is_first_named_entry(names@, (i / 2) as int),
            None => forall|k: int| !is_first_named_entry(names@, k),
        },
{
    let mut k: usize = 0;
    while k < names.len() / 2
        invariant
            k <= names@.len() / 2,
            forall|j: int| 0 <= j < k ==> !(#[trigger] names@[2 * j] matches Some(n) && facturx_name(n@)),
        decreases names.len() / 2 - k,
    {
        let hit = match &names[2 * k] {
            Some(n) => is_facturx_filename(n.as_str()),
            None => false,
        };
        if hit {
            return Some(2 * k + 1);
        }
        k = k + 1;
    }
    proof {
        assert forall|m: int| !is_first_named_entry(names@, m) by {
            if is_first_named_entry(names@, m) {
                assert(m < k as int);
                assert(!(names@[2 * m] matches Some(n) && facturx_name(n@)));
            }
        }
    }
    None
}

/// Generate ZUGFeRD/Factur-X CII XML for the given profile: the XRechnung CII
/// document with every occurrence of the XRechnung customization identifier
/// replaced by the profile's URN.
pub fn to_xml(invoice: &Invoice, profile: ZugferdProfile) -> (r: Result<String, RechnungError>)
    ensures
        invoice.totals is None ==> (r matches Err(e) && is_totals_missing(e)),
        invoice.totals is Some && !lines_overflow(invoice.lines@) ==> r is Ok,
        match r {
            Ok(s) => invoice.totals matches Some(t) && !lines_overflow(invoice.lines@) && s@
                == replace_all(
                xml_rendering(cii_document(*invoice, t)),
                XRECHNUNG_CUSTOMIZATION_ID@,
                urn_spec(profile),
            ),
            Err(e) => invoice.totals is None || generation_failure(e, invoice.lines@),
        },
{
    let xml = to_cii_xml(invoice)?;
    proof {
        reveal_strlit("urn:cen.eu:en16931:2017#compliant#urn:xeinkauf.de:kosit:xrechnung_3.0");
    }
    Ok(replace_str(xml.as_str(), XRECHNUNG_CUSTOMIZATION_ID, profile.urn()))
}

} // verus!
