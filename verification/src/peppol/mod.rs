//! Peppol BIS Billing 3.0 identifiers, EAS schemes and validation rules.

pub mod eas;
pub mod validate;

use vstd::prelude::*;
use crate::model::error::RechnungError;
use crate::model::types::Invoice;
use crate::peppol::validate::PEPPOL_CUSTOMIZATION_ID;
use crate::text::{replace_all, replace_str};
use crate::xml::xml_rendering;
use crate::xrechnung::ubl::{generation_failure, is_totals_missing, lines_overflow, ubl_document};
use crate::xrechnung::ubl_invoice::ubl_result;
use crate::xrechnung::XRECHNUNG_CUSTOMIZATION_ID;

verus! {

/// Generate a Peppol BIS 3.0 compliant UBL 2.1 Invoice XML: the XRechnung UBL
/// document with every occurrence of the XRechnung customization identifier
/// replaced by the Peppol one.
pub fn to_ubl_xml(invoice: &Invoice) -> (r: Result<String, RechnungError>)
    ensures
        invoice.totals is None ==> (r matches Err(e) && is_totals_missing(e)),
        invoice.totals is Some && !lines_overflow(invoice.lines@) ==> r is Ok,
        match r {
            Ok(s) => invoice.totals matches Some(t) && !lines_overflow(invoice.lines@) && s@
                == replace_all(
                xml_rendering(ubl_document(*invoice, t)),
                XRECHNUNG_CUSTOMIZATION_ID@,
                PEPPOL_CUSTOMIZATION_ID@,
            ),
            Err(e) => invoice.totals is None || generation_failure(e, invoice.lines@),
        },
{
    let xml = crate::xrechnung::ubl::to_ubl_xml(invoice)?;
    proof {
        reveal_strlit("urn:cen.eu:en16931:2017#compliant#urn:xeinkauf.de:kosit:xrechnung_3.0");
    }
    Ok(replace_str(xml.as_str(), XRECHNUNG_CUSTOMIZATION_ID, PEPPOL_CUSTOMIZATION_ID))
}

/// Parse a Peppol BIS 3.0 UBL invoice: the structure is that of XRechnung
/// UBL, and so is the reading.
pub fn from_ubl_xml(xml: &str) -> (r: Result<Invoice, RechnungError>)
    ensures
        ubl_result(xml@, r),
{
    crate::xrechnung::ubl_invoice::from_ubl_xml(xml)
}

} // verus!
