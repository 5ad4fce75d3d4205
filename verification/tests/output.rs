use faktura::datev::extf::{extf_document, DatevConfig};
use faktura::date::Date;
use faktura::decimal::{eq, Dec};
use faktura::gdpdu::csv_export::{generate_csvs, generate_kunden_csv, generate_rechnungsausgang_csv};
use faktura::gdpdu::index_xml::generate_index_xml;
use faktura::gdpdu::{to_gdpdu, GdpduConfig};
use faktura::model::builder::{AddressBuilder, LineItemBuilder, PartyBuilder};
use faktura::model::invoice_builder::InvoiceBuilder;
use faktura::model::totals::{calculate_totals, validate_arithmetic};
use faktura::model::types::{Invoice, InvoiceTypeCode, TaxCategory};
use faktura::text::replace_str;
use faktura::xml::format_decimal;
use faktura::xrechnung::cii::to_cii_xml;
use faktura::xrechnung::ubl::to_ubl_xml;
use faktura::zugferd::profile::{to_xml, ZugferdProfile};

fn dec(n: i64, scale: u32) -> Dec {
    Dec::new(n, scale)
}

fn date(y: i32, m: u32, d: u32) -> Date {
    Date::from_ymd_opt(y, m, d).unwrap()
}

fn invoice(number: &str, buyer: &str, day: u32) -> Invoice {
    InvoiceBuilder::new(number, date(2024, 6, day))
        .tax_point_date(date(2024, 6, 15))
        .note("A & B")
        .seller(
            PartyBuilder::new("Seller GmbH", AddressBuilder::new("Berlin", "10115", "DE").build())
                .vat_id("DE123456789")
                .build(),
        )
        .buyer(
            PartyBuilder::new(buyer, AddressBuilder::new("München", "80331", "DE").build())
                .build(),
        )
        .add_line(
            LineItemBuilder::new("1", "Beratung", dec(10, 0), "HUR", dec(150, 0))
                .tax(TaxCategory::StandardRate, dec(19, 0))
                .build(),
        )
        .build()
        .unwrap()
}

#[test]
fn format_decimal_cases() {
    assert_eq!(format_decimal(dec(100, 0)), "100.00");
    assert_eq!(format_decimal(dec(15000, 1)), "1500.00");
    assert_eq!(format_decimal(dec(4990, 2)), "49.90");
    assert_eq!(format_decimal(dec(183348, 2)), "1833.48");
    assert_eq!(format_decimal(dec(5, 3)), "0.005");
    assert_eq!(format_decimal(dec(19, 0)), "19.00");
}

#[test]
fn replace_str_replaces_every_occurrence() {
    assert_eq!(replace_str("a-b-c", "-", "+"), "a+b+c");
    assert_eq!(replace_str("aaa", "aa", "b"), "ba");
    assert_eq!(replace_str("xyz", "q", "r"), "xyz");
}

#[test]
fn calculated_totals_are_consistent() {
    let mut inv = invoice("R-1", "Kunde AG", 15);
    calculate_totals(&mut inv, dec(100, 0)).unwrap();
    assert!(validate_arithmetic(&inv).is_empty());
    let t = inv.totals.unwrap();
    assert!(eq(&t.amount_due, &dec(1685, 0)));
    assert!(eq(&t.prepaid, &dec(100, 0)));
}

#[test]
fn ubl_document_content() {
    let inv = invoice("R-1", "Kunde AG", 15);
    let xml = to_ubl_xml(&inv).unwrap();
    assert!(xml.starts_with("<?xml version=\"1.0\" encoding=\"UTF-8\"?>"));
    assert!(xml.contains(
        "<ubl:Invoice xmlns:ubl=\"urn:oasis:names:specification:ubl:schema:xsd:Invoice-2\""
    ));
    assert!(xml.contains("<cbc:ID>R-1</cbc:ID>"));
    assert!(xml.contains("<cbc:IssueDate>2024-06-15</cbc:IssueDate>"));
    assert!(xml.contains("<cbc:InvoiceTypeCode>380</cbc:InvoiceTypeCode>"));
    assert!(xml.contains("<cbc:Note>A &amp; B</cbc:Note>"));
    assert!(xml.contains("<cbc:InvoicedQuantity unitCode=\"HUR\">10.00</cbc:InvoicedQuantity>"));
    assert!(xml.contains("<cbc:PayableAmount currencyID=\"EUR\">1785.00</cbc:PayableAmount>"));
    assert!(xml.contains("<cbc:TaxAmount currencyID=\"EUR\">285.00</cbc:TaxAmount>"));
    assert!(xml.contains("<cbc:ActualDeliveryDate>2024-06-15</cbc:ActualDeliveryDate>"));
    assert!(!xml.contains("AllowanceTotalAmount"));
}

#[test]
fn ubl_credit_note_root() {
    let mut inv = invoice("CN-1", "Kunde AG", 15);
    inv.type_code = InvoiceTypeCode::CreditNote;
    let xml = to_ubl_xml(&inv).unwrap();
    assert!(xml.contains("<ubl:CreditNote xmlns:ubl=\"urn:oasis:names:specification:ubl:schema:xsd:CreditNote-2\""));
    assert!(xml.contains("</ubl:CreditNote>"));
}

#[test]
fn ubl_price_discount() {
    let mut inv = invoice("R-2", "Kunde AG", 15);
    inv.lines[0].gross_price = Some(dec(200, 0));
    let xml = to_ubl_xml(&inv).unwrap();
    assert!(xml.contains("<cbc:Amount currencyID=\"EUR\">50.00</cbc:Amount>"));
    assert!(xml.contains("<cbc:BaseAmount currencyID=\"EUR\">200.00</cbc:BaseAmount>"));
}

#[test]
fn ubl_needs_totals() {
    let mut inv = invoice("R-3", "Kunde AG", 15);
    inv.totals = None;
    assert_eq!(
        to_ubl_xml(&inv).unwrap_err().display(),
        "builder error: totals must be calculated before XML generation"
    );
}

#[test]
fn cii_document_content() {
    let inv = invoice("R-1", "Kunde AG", 15);
    let xml = to_cii_xml(&inv).unwrap();
    assert!(xml.contains("<rsm:CrossIndustryInvoice xmlns:rsm=\"urn:un:unece:uncefact:data:standard:CrossIndustryInvoice:100\""));
    assert!(xml.contains("<udt:DateTimeString format=\"102\">20240615</udt:DateTimeString>"));
    assert!(xml.contains("<ram:DuePayableAmount>1785.00</ram:DuePayableAmount>"));
    assert!(xml.contains("<ram:TaxTotalAmount currencyID=\"EUR\">285.00</ram:TaxTotalAmount>"));
    assert!(xml.contains("<ram:BilledQuantity unitCode=\"HUR\">10.00</ram:BilledQuantity>"));
    assert!(xml.contains("<ram:Content>A &amp; B</ram:Content>"));
    assert!(xml.contains("xrechnung_3.0"));
}

#[test]
fn cii_needs_totals() {
    let mut inv = invoice("R-3", "Kunde AG", 15);
    inv.totals = None;
    assert!(to_cii_xml(&inv).is_err());
}

#[test]
fn zugferd_profile_urn_replaces_guideline() {
    let inv = invoice("R-1", "Kunde AG", 15);
    let xml = to_xml(&inv, ZugferdProfile::EN16931).unwrap();
    assert!(xml.contains("<ram:ID>urn:cen.eu:en16931:2017</ram:ID>"));
    assert!(!xml.contains("xrechnung_3.0"));
    let same = to_xml(&inv, ZugferdProfile::XRechnung).unwrap();
    assert_eq!(same, to_cii_xml(&inv).unwrap());
}

#[test]
fn gdpdu_csv_rows() {
    let invoices = vec![invoice("R-1", "Zeta AG", 15), invoice("R-2", "Alpha GmbH", 16)];
    let kunden = generate_kunden_csv(&invoices);
    assert_eq!(
        kunden,
        "\"K-0001\";\"Alpha GmbH\";\"\";\"80331\";\"München\";\"DE\";\"\"\r\n\
         \"K-0002\";\"Zeta AG\";\"\";\"80331\";\"München\";\"DE\";\"\"\r\n"
    );
    let rechnungen = generate_rechnungsausgang_csv(&invoices).unwrap();
    assert_eq!(
        rechnungen,
        "\"R-1\";15.06.2024;;15.06.2024;\"K-0002\";\"Zeta AG\";\"Beratung\";1500,00;19,00;285,00;1785,00;\"EUR\";\"380\"\r\n\
         \"R-2\";16.06.2024;;15.06.2024;\"K-0001\";\"Alpha GmbH\";\"Beratung\";1500,00;19,00;285,00;1785,00;\"EUR\";\"380\"\r\n"
    );
}

#[test]
fn gdpdu_quotes_are_doubled() {
    let invoices = vec![invoice("R-\"9\"", "Say \"Hi\" AG", 15)];
    let kunden = generate_kunden_csv(&invoices);
    assert!(kunden.contains("\"Say \"\"Hi\"\" AG\""));
}

#[test]
fn gdpdu_missing_totals() {
    let mut inv = invoice("R-7", "Kunde AG", 15);
    inv.totals = None;
    let err = generate_csvs(&[inv]).unwrap_err();
    assert_eq!(
        err.display(),
        "builder error: invoice R-7 has no calculated totals \u{2014} call calculate_totals() first"
    );
}

#[test]
fn gdpdu_export() {
    let invoices = vec![invoice("R-1", "Zeta AG", 15), invoice("R-2", "Alpha GmbH", 20)];
    let config = GdpduConfig { company_name: "ACME GmbH".into(), ..GdpduConfig::default() };
    let export = to_gdpdu(&invoices, &config).unwrap();
    assert_eq!(export.files.len(), 2);
    assert_eq!(export.files[0].0, "kunden.csv");
    assert_eq!(export.files[1].0, "rechnungsausgang.csv");
    assert!(export.index_xml.contains("<!DOCTYPE DataSet SYSTEM \"gdpdu-01-08-2002.dtd\">"));
    assert!(export.index_xml.contains("<From>20240615</From>"));
    assert!(export.index_xml.contains("<To>20240620</To>"));
    assert!(export.index_xml.contains("<Name>ACME GmbH</Name>"));
    assert!(export.index_xml.contains("<Location>Deutschland</Location>"));
    assert!(to_gdpdu(&[], &config).is_err());
}

#[test]
fn gdpdu_index_without_company() {
    let invoices = vec![invoice("R-1", "Zeta AG", 15)];
    let xml = generate_index_xml(&invoices, &GdpduConfig::default()).unwrap();
    assert!(!xml.contains("DataSupplier"));
    assert!(xml.contains("<URL>kunden.csv</URL>"));
}

#[test]
fn extf_rows() {
    let invoices = vec![invoice("R-1", "Kunde AG", 15)];
    let out = extf_document(&invoices, &DatevConfig::default(), "20240701120000000").unwrap();
    assert!(out.starts_with("\"EXTF\";700;21;\"Buchungsstapel\";13;20240701120000000;"));
    assert!(out.contains("\r\n1785,00;\"S\";;;;;10000;8400;;1506;\"R-1\";;;\"R-1 Beratung\""), "{}", out);
}

#[test]
fn extf_data_line_has_120_fields() {
    let invoices = vec![invoice("R-1", "Kunde AG", 15)];
    let out = extf_document(&invoices, &DatevConfig::default(), "20240701120000000").unwrap();
    let lines: Vec<&str> = out.split("\r\n").collect();
    let header_fields = lines[1].matches(';').count() + 1;
    let data_fields = lines[2].matches(';').count() + 1;
    assert_eq!(header_fields, 120);
    assert_eq!(data_fields, 120);
}

#[test]
fn gdpdu_one_customer_numbering() {
    let invoices = vec![invoice("R-1", "Zeta AG", 15), invoice("R-2", "Alpha GmbH", 16)];
    let (kunden, rechnungen) = generate_csvs(&invoices).unwrap();
    assert!(kunden.contains("\"K-0002\";\"Zeta AG\""));
    assert!(rechnungen.contains("\"K-0002\";\"Zeta AG\""));
    assert!(kunden.contains("\"K-0001\";\"Alpha GmbH\""));
    assert!(rechnungen.contains("\"K-0001\";\"Alpha GmbH\""));
}
