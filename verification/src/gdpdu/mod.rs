//! GDPdU/IDEA tax audit export: `index.xml` with the CSV data files it
//! describes (`kunden.csv`, `rechnungsausgang.csv`).
use vstd::prelude::*;
use crate::model::error::RechnungError;
use crate::model::types::Invoice;
use crate::text::string_of;
use crate::xml::xml_rendering;
use crate::gdpdu::csv_export::{customer_order, export_error, exportable, generate_csvs, kunden_text, rechnungen_text};
use crate::gdpdu::index_xml::{generate_index_xml, index_doc, period_from, period_to};

pub mod csv_export;
pub mod index_xml;

verus! {

/// Configuration for GDPdU export.
#[derive(Debug, Clone)]
pub struct GdpduConfig {
    /// Company name (DataSupplier Name).
    pub company_name: String,
    /// Company location / country.
    pub location: String,
    /// Export comment / description.
    pub comment: String,
}

impl Default for GdpduConfig {
    fn default() -> (r: Self)
        ensures
            r.company_name@ == Seq::<char>::empty(),
            r.location@ == "Deutschland"@,
            r.comment@ == "GDPdU-Export Ausgangsrechnungen"@,
    {
        GdpduConfig {
            company_name: String::new(),
            location: string_of("Deutschland"),
            comment: string_of("GDPdU-Export Ausgangsrechnungen"),
        }
    }
}

/// Result of a GDPdU export.
#[derive(Debug, Clone)]
pub struct GdpduExport {
    /// The `index.xml` content.
    pub index_xml: String,
    /// Data files: (filename, content) pairs.
    pub files: Vec<(String, String)>,
}

/// The error for an empty export.
pub open spec fn is_empty_export_error(e: RechnungError) -> bool {
    e matches RechnungError::Builder(m) && m@ == "no invoices to export"@
}

/// Generate a GDPdU export (index.xml + CSV files) from a set of invoices.
pub fn to_gdpdu(invoices: &[Invoice], config: &GdpduConfig) -> (r: Result<GdpduExport, RechnungError>)
    ensures
        invoices@.len() == 0 ==> (r matches Err(e) && is_empty_export_error(e)),
        (invoices@.len() > 0 && forall|i: int| 0 <= i < invoices@.len() ==> exportable(#[trigger] invoices@[i]))
            <==> r is Ok,
        match r {
            Ok(x) => {
                &&& x.index_xml@ == xml_rendering(
                    index_doc(*config, period_from(invoices@), period_to(invoices@)),
                )
                &&& x.files@.len() == 2
                &&& x.files@[0].0@ == "kunden.csv"@
                &&& x.files@[1].0@ == "rechnungsausgang.csv"@
                &&& exists|idx: Seq<usize>|
                    customer_order(invoices@, idx) && x.files@[0].1@ == kunden_text(invoices@, idx)
                        && x.files@[1].1@ == rechnungen_text(invoices@, idx, invoices@.len() as int)
            },
            Err(e) => invoices@.len() == 0 || export_error(invoices@, e),
        },
{
    if invoices.len() == 0 {
        return Err(RechnungError::Builder(string_of("no invoices to export")));
    }
    let (kunden_csv, invoice_csv) = generate_csvs(invoices)?;
    let index_xml = generate_index_xml(invoices, config)?;
    let mut files: Vec<(String, String)> = Vec::new();
    files.push((string_of("kunden.csv"), kunden_csv));
    files.push((string_of("rechnungsausgang.csv"), invoice_csv));
    Ok(GdpduExport { index_xml, files })
}

} // verus!
