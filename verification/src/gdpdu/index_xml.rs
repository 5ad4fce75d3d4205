//! The `index.xml` of the GDPdU export: the data supplier and the two
//! tables with their columns.
use vstd::prelude::*;
use crate::date::{format_ymd, ymd_compact};
use crate::datev::extf::{date_range, earliest, issue_dates, latest};
use crate::gdpdu::GdpduConfig;
use crate::model::error::RechnungError;
use crate::model::types::Invoice;
use crate::xml::{el, text_el, xml_rendering, XmlEv, XmlWriter};

verus! {

/// The type of a column.
#[derive(Clone, Copy, Debug, PartialEq, Eq, Structural)]
pub enum ColType {
    /// Text.
    AlphaNumeric,
    /// A number with two decimals.
    Numeric2,
    /// A date `DD.MM.YYYY`.
    Date,
}

pub open spec fn col_type_el(t: ColType) -> Seq<XmlEv> {
    match t {
        ColType::AlphaNumeric => seq![XmlEv::Empty("AlphaNumeric"@)],
        ColType::Numeric2 => el("Numeric"@, text_el("Accuracy"@, "2"@)),
        ColType::Date => el("Date"@, text_el("Format"@, "DD.MM.YYYY"@)),
    }
}

/// A column (or primary key) with its name, description and type.
pub open spec fn column_el(tag: Seq<char>, name: Seq<char>, desc: Option<Seq<char>>, t: ColType) -> Seq<XmlEv> {
    el(
        tag,
        text_el("Name"@, name) + match desc {
            Some(d) => text_el("Description"@, d),
            None => seq![],
        } + col_type_el(t),
    )
}

pub open spec fn opt_str_view(o: Option<&str>) -> Option<Seq<char>> {
    match o {
        Some(s) => Some(s@),
        None => None,
    }
}

fn write_col_type(w: &mut XmlWriter, t: ColType) -> (r: Result<(), RechnungError>)
    ensures
        match r {
            Ok(()) => final(w)@ == old(w)@ + col_type_el(t),
            Err(_) => false,
        },
{
    match t {
        ColType::AlphaNumeric => {
            w.empty_element("AlphaNumeric")?;
        },
        ColType::Numeric2 => {
            w.start_element("Numeric")?;
            w.text_element("Accuracy", "2")?;
            w.end_element("Numeric")?;
        },
        ColType::Date => {
            w.start_element("Date")?;
            w.text_element("Format", "DD.MM.YYYY")?;
            w.end_element("Date")?;
        },
    }
    proof {
        assert(w@ =~= old(w)@ + col_type_el(t));
    }
    Ok(())
}

fn write_column(w: &mut XmlWriter, tag: &str, name: &str, desc: Option<&str>, t: ColType) -> (r:
    Result<(), RechnungError>)
    ensures
        match r {
            Ok(()) => final(w)@ == old(w)@ + column_el(tag@, name@, opt_str_view(desc), t),
            Err(_) => false,
        },
{
    w.start_element(tag)?;
    w.text_element("Name", name)?;
    match desc {
        Some(d) => w.text_element("Description", d)?,
        None => {},
    }
    let ghost s1 = w@;
    write_col_type(w, t)?;
    w.end_element(tag)?;
    proof {
        assert(w@ =~= old(w)@ + column_el(tag@, name@, opt_str_view(desc), t));
    }
    Ok(())
}

pub open spec fn col(name: Seq<char>, t: ColType) -> Seq<XmlEv> {
    column_el("VariableColumn"@, name, None, t)
}

pub open spec fn col_d(name: Seq<char>, desc: Seq<char>, t: ColType) -> Seq<XmlEv> {
    column_el("VariableColumn"@, name, Some(desc), t)
}

/// UTF-8, decimal comma, grouping point.
#[verifier::opaque]
pub open spec fn encoding_el() -> Seq<XmlEv> {
    seq![XmlEv::Empty("UTF8"@)] + text_el("DecimalSymbol"@, ","@) + text_el(
        "DigitGroupingSymbol"@,
        "."@,
    )
}

/// `;` between columns, `"` around text.
#[verifier::opaque]
pub open spec fn delimiters_el() -> Seq<XmlEv> {
    text_el("ColumnDelimiter"@, ";"@) + text_el("TextEncapsulator"@, "\""@)
}

fn write_encoding(w: &mut XmlWriter) -> (r: Result<(), RechnungError>)
    ensures
        match r {
            Ok(()) => final(w)@ == old(w)@ + encoding_el(),
            Err(_) => false,
        },
{
    proof {
        reveal(encoding_el);
    }
    w.empty_element("UTF8")?;
    w.text_element("DecimalSymbol", ",")?;
    w.text_element("DigitGroupingSymbol", ".")?;
    proof {
        assert(w@ =~= old(w)@ + encoding_el());
    }
    Ok(())
}

fn write_delimiters(w: &mut XmlWriter) -> (r: Result<(), RechnungError>)
    ensures
        match r {
            Ok(()) => final(w)@ == old(w)@ + delimiters_el(),
            Err(_) => false,
        },
{
    proof {
        reveal(delimiters_el);
    }
    w.text_element("ColumnDelimiter", ";")?;
    w.text_element("TextEncapsulator", "\"")?;
    proof {
        assert(w@ =~= old(w)@ + delimiters_el());
    }
    Ok(())
}

// ---------------------------------------------------------------- Kunden

#[verifier::opaque]
pub open spec fn kunden_columns_el() -> Seq<XmlEv> {
    column_el("VariablePrimaryKey"@, "Kundenkontonummer"@, None, ColType::AlphaNumeric) + col(
        "Kundenname"@,
        ColType::AlphaNumeric,
    ) + col("Strasse"@, ColType::AlphaNumeric) + col("PLZ"@, ColType::AlphaNumeric) + col(
        "Ort"@,
        ColType::AlphaNumeric,
    ) + col("Land"@, ColType::AlphaNumeric) + col("UStIdNr"@, ColType::AlphaNumeric)
}

/// The customer table.
#[verifier::opaque]
pub open spec fn kunden_table_el() -> Seq<XmlEv> {
    el(
        "Table"@,
        text_el("URL"@, "kunden.csv"@) + text_el("Name"@, "Kunden"@) + text_el(
            "Description"@,
            "Kundenstammdaten"@,
        ) + encoding_el() + el("VariableLength"@, delimiters_el() + kunden_columns_el()),
    )
}

fn write_kunden_columns(w: &mut XmlWriter) -> (r: Result<(), RechnungError>)
    ensures
        match r {
            Ok(()) => final(w)@ == old(w)@ + kunden_columns_el(),
            Err(_) => false,
        },
{
    proof {
        reveal(kunden_columns_el);
    }
    write_column(w, "VariablePrimaryKey", "Kundenkontonummer", None, ColType::AlphaNumeric)?;
    write_column(w, "VariableColumn", "Kundenname", None, ColType::AlphaNumeric)?;
    write_column(w, "VariableColumn", "Strasse", None, ColType::AlphaNumeric)?;
    write_column(w, "VariableColumn", "PLZ", None, ColType::AlphaNumeric)?;
    write_column(w, "VariableColumn", "Ort", None, ColType::AlphaNumeric)?;
    write_column(w, "VariableColumn", "Land", None, ColType::AlphaNumeric)?;
    write_column(w, "VariableColumn", "UStIdNr", None, ColType::AlphaNumeric)?;
    proof {
        assert(w@ =~= old(w)@ + kunden_columns_el());
    }
    Ok(())
}

fn write_kunden_table(w: &mut XmlWriter) -> (r: Result<(), RechnungError>)
    ensures
        match r {
            Ok(()) => final(w)@ == old(w)@ + kunden_table_el(),
            Err(_) => false,
        },
{
    proof {
        reveal(kunden_table_el);
    }
    w.start_element("Table")?;
    w.text_element("URL", "kunden.csv")?;
    w.text_element("Name", "Kunden")?;
    w.text_element("Description", "Kundenstammdaten")?;
    write_encoding(w)?;
    w.start_element("VariableLength")?;
    write_delimiters(w)?;
    write_kunden_columns(w)?;
    w.end_element("VariableLength")?;
    w.end_element("Table")?;
    proof {
        assert(w@ =~= old(w)@ + kunden_table_el());
    }
    Ok(())
}

// ---------------------------------------------------------------- Rechnungsausgang

#[verifier::opaque]
pub open spec fn rechnung_columns_a() -> Seq<XmlEv> {
    column_el(
        "VariablePrimaryKey"@,
        "Belegnummer"@,
        Some("Rechnungsnummer"@),
        ColType::AlphaNumeric,
    ) + col_d("Belegdatum"@, "Rechnungsdatum"@, ColType::Date) + col(
        "Faelligkeitsdatum"@,
        ColType::Date,
    ) + col_d("Leistungsdatum"@, "Liefer-/Leistungsdatum"@, ColType::Date) + col_d(
        "Kundenkontonummer"@,
        "Debitorennummer"@,
        ColType::AlphaNumeric,
    )
}

#[verifier::opaque]
pub open spec fn rechnung_columns_b() -> Seq<XmlEv> {
    col("Kundenname"@, ColType::AlphaNumeric) + col_d(
        "Buchungstext"@,
        "Rechnungsbetreff"@,
        ColType::AlphaNumeric,
    ) + col("Nettobetrag"@, ColType::Numeric2) + col_d(
        "Steuersatz"@,
        "USt-Satz in Prozent"@,
        ColType::Numeric2,
    ) + col("Steuerbetrag"@, ColType::Numeric2)
}

#[verifier::opaque]
pub open spec fn rechnung_columns_c() -> Seq<XmlEv> {
    col("Bruttobetrag"@, ColType::Numeric2) + col("Waehrung"@, ColType::AlphaNumeric) + col_d(
        "Belegtyp"@,
        "UNTDID 1001 Belegtyp"@,
        ColType::AlphaNumeric,
    ) + el(
        "ForeignKey"@,
        text_el("Name"@, "Kundenkontonummer"@) + text_el("References"@, "Kunden"@),
    )
}

/// The validity period of the invoice table.
#[verifier::opaque]
pub open spec fn validity_el(from: Seq<char>, to: Seq<char>) -> Seq<XmlEv> {
    el(
        "Validity"@,
        el("Range"@, text_el("From"@, from) + text_el("To"@, to)) + text_el(
            "Format"@,
            "YYYYMMDD"@,
        ),
    )
}

/// The outgoing invoice table.
#[verifier::opaque]
pub open spec fn rechnung_table_el(from: Seq<char>, to: Seq<char>) -> Seq<XmlEv> {
    el(
        "Table"@,
        text_el("URL"@, "rechnungsausgang.csv"@) + text_el("Name"@, "Rechnungsausgang"@) + text_el(
            "Description"@,
            "Ausgangsrechnungen"@,
        ) + validity_el(from, to) + encoding_el() + el(
            "VariableLength"@,
            delimiters_el() + rechnung_columns_a() + rechnung_columns_b() + rechnung_columns_c(),
        ),
    )
}

fn write_rechnung_columns_a(w: &mut XmlWriter) -> (r: Result<(), RechnungError>)
    ensures
        match r {
            Ok(()) => final(w)@ == old(w)@ + rechnung_columns_a(),
            Err(_) => false,
        },
{
    proof {
        reveal(rechnung_columns_a);
    }
    write_column(
        w,
        "VariablePrimaryKey",
        "Belegnummer",
        Some("Rechnungsnummer"),
        ColType::AlphaNumeric,
    )?;
    write_column(w, "VariableColumn", "Belegdatum", Some("Rechnungsdatum"), ColType::Date)?;
    write_column(w, "VariableColumn", "Faelligkeitsdatum", None, ColType::Date)?;
    write_column(
        w,
        "VariableColumn",
        "Leistungsdatum",
        Some("Liefer-/Leistungsdatum"),
        ColType::Date,
    )?;
    write_column(
        w,
        "VariableColumn",
        "Kundenkontonummer",
        Some("Debitorennummer"),
        ColType::AlphaNumeric,
    )?;
    proof {
        assert(w@ =~= old(w)@ + rechnung_columns_a());
    }
    Ok(())
}

fn write_rechnung_columns_b(w: &mut XmlWriter) -> (r: Result<(), RechnungError>)
    ensures
        match r {
            Ok(()) => final(w)@ == old(w)@ + rechnung_columns_b(),
            Err(_) => false,
        },
{
    proof {
        reveal(rechnung_columns_b);
    }
    write_column(w, "VariableColumn", "Kundenname", None, ColType::AlphaNumeric)?;
    write_column(
        w,
        "VariableColumn",
        "Buchungstext",
        Some("Rechnungsbetreff"),
        ColType::AlphaNumeric,
    )?;
    write_column(w, "VariableColumn", "Nettobetrag", None, ColType::Numeric2)?;
    write_column(
        w,
        "VariableColumn",
        "Steuersatz",
        Some("USt-Satz in Prozent"),
        ColType::Numeric2,
    )?;
    write_column(w, "VariableColumn", "Steuerbetrag", None, ColType::Numeric2)?;
    proof {
        assert(w@ =~= old(w)@ + rechnung_columns_b());
    }
    Ok(())
}

fn write_rechnung_columns_c(w: &mut XmlWriter) -> (r: Result<(), RechnungError>)
    ensures
        match r {
            Ok(()) => final(w)@ == old(w)@ + rechnung_columns_c(),
            Err(_) => false,
        },
{
    proof {
        reveal(rechnung_columns_c);
    }
    write_column(w, "VariableColumn", "Bruttobetrag", None, ColType::Numeric2)?;
    write_column(w, "VariableColumn", "Waehrung", None, ColType::AlphaNumeric)?;
    write_column(
        w,
        "VariableColumn",
        "Belegtyp",
        Some("UNTDID 1001 Belegtyp"),
        ColType::AlphaNumeric,
    )?;
    w.start_element("ForeignKey")?;
    w.text_element("Name", "Kundenkontonummer")?;
    w.text_element("References", "Kunden")?;
    w.end_element("ForeignKey")?;
    proof {
        assert(w@ =~= old(w)@ + rechnung_columns_c());
    }
    Ok(())
}

fn write_validity(w: &mut XmlWriter, from: &str, to: &str) -> (r: Result<(), RechnungError>)
    ensures
        match r {
            Ok(()) => final(w)@ == old(w)@ + validity_el(from@, to@),
            Err(_) => false,
        },
{
    proof {
        reveal(validity_el);
    }
    w.start_element("Validity")?;
    w.start_element("Range")?;
    w.text_element("From", from)?;
    w.text_element("To", to)?;
    w.end_element("Range")?;
    w.text_element("Format", "YYYYMMDD")?;
    w.end_element("Validity")?;
    proof {
        assert(w@ =~= old(w)@ + validity_el(from@, to@));
    }
    Ok(())
}

fn write_rechnung_table(w: &mut XmlWriter, from: &str, to: &str) -> (r: Result<(), RechnungError>)
    ensures
        match r {
            Ok(()) => final(w)@ == old(w)@ + rechnung_table_el(from@, to@),
            Err(_) => false,
        },
{
    proof {
        reveal(rechnung_table_el);
    }
    w.start_element("Table")?;
    w.text_element("URL", "rechnungsausgang.csv")?;
    w.text_element("Name", "Rechnungsausgang")?;
    w.text_element("Description", "Ausgangsrechnungen")?;
    write_validity(w, from, to)?;
    write_encoding(w)?;
    w.start_element("VariableLength")?;
    write_delimiters(w)?;
    write_rechnung_columns_a(w)?;
    write_rechnung_columns_b(w)?;
    write_rechnung_columns_c(w)?;
    w.end_element("VariableLength")?;
    w.end_element("Table")?;
    proof {
        assert(w@ =~= old(w)@ + rechnung_table_el(from@, to@));
    }
    Ok(())
}

// ---------------------------------------------------------------- the index

/// The document type declaration, written as it is.
pub open spec fn doctype_text() -> Seq<char> {
    "\n<!DOCTYPE DataSet SYSTEM \"gdpdu-01-08-2002.dtd\">\n"@
}

/// The data supplier, where a company name is given.
#[verifier::opaque]
pub open spec fn supplier_el(c: GdpduConfig) -> Seq<XmlEv> {
    if c.company_name@.len() == 0 {
        seq![]
    } else {
        el(
            "DataSupplier"@,
            text_el("Name"@, c.company_name@) + text_el("Location"@, c.location@) + text_el(
                "Comment"@,
                c.comment@,
            ),
        )
    }
}

/// The index document for a validity period `from`..`to` (`YYYYMMDD`).
pub open spec fn index_doc(c: GdpduConfig, from: Seq<char>, to: Seq<char>) -> Seq<XmlEv> {
    seq![XmlEv::Decl, XmlEv::Raw(doctype_text())] + el(
        "DataSet"@,
        text_el("Version"@, "1.0"@) + supplier_el(c) + el(
            "Media"@,
            text_el("Name"@, "Datenexport"@) + kunden_table_el() + rechnung_table_el(from, to),
        ),
    )
}

/// The validity period of a non-empty list of invoices: earliest and latest
/// issue date.
pub open spec fn period_from(invs: Seq<Invoice>) -> Seq<char> {
    ymd_compact(earliest(issue_dates(invs)))
}

pub open spec fn period_to(invs: Seq<Invoice>) -> Seq<char> {
    ymd_compact(latest(issue_dates(invs)))
}

fn write_supplier(w: &mut XmlWriter, c: &GdpduConfig) -> (r: Result<(), RechnungError>)
    ensures
        match r {
            Ok(()) => final(w)@ == old(w)@ + supplier_el(*c),
            Err(_) => false,
        },
{
    proof {
        reveal(supplier_el);
    }
    if c.company_name.as_str().unicode_len() != 0 {
        w.start_element("DataSupplier")?;
        w.text_element("Name", c.company_name.as_str())?;
        w.text_element("Location", c.location.as_str())?;
        w.text_element("Comment", c.comment.as_str())?;
        w.end_element("DataSupplier")?;
    }
    proof {
        assert(w@ =~= old(w)@ + supplier_el(*c));
    }
    Ok(())
}

/// Generate the index.xml content for the GDPdU export.
pub fn generate_index_xml(invoices: &[Invoice], config: &GdpduConfig) -> (r: Result<
    String,
    RechnungError,
>)
    requires
        invoices@.len() > 0,
    ensures
        r matches Ok(s) && s@ == xml_rendering(
            index_doc(*config, period_from(invoices@), period_to(invoices@)),
        ),
{
    let mut w = XmlWriter::new()?;
    w.raw("\n<!DOCTYPE DataSet SYSTEM \"gdpdu-01-08-2002.dtd\">\n")?;
    w.start_element("DataSet")?;
    w.text_element("Version", "1.0")?;
    write_supplier(&mut w, config)?;
    let (min, max) = date_range(invoices);
    let from = format_ymd(&min);
    let to = format_ymd(&max);
    w.start_element("Media")?;
    w.text_element("Name", "Datenexport")?;
    write_kunden_table(&mut w)?;
    write_rechnung_table(&mut w, from.as_str(), to.as_str())?;
    w.end_element("Media")?;
    w.end_element("DataSet")?;
    proof {
        assert(w@ =~= index_doc(*config, period_from(invoices@), period_to(invoices@)));
    }
    w.into_string()
}

} // verus!
