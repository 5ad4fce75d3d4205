use faktura::date::Date;
use faktura::decimal::{eq, Dec};
use faktura::model::builder::{AddressBuilder, LineItemBuilder, PartyBuilder};
use faktura::model::error::RechnungError;
use faktura::model::invoice_builder::InvoiceBuilder;
use faktura::model::totals::calculate_totals;
use faktura::model::types::{Invoice, InvoiceTypeCode, TaxCategory};
use faktura::xrechnung::cii::to_cii_xml;
use faktura::xrechnung::cii_invoice::from_cii_xml;
use faktura::xrechnung::read::{parse_u16, IntTextError};
use faktura::xrechnung::{detect_syntax, from_xml, local_name, XmlSyntax};
use faktura::xrechnung::ubl::to_ubl_xml;
use faktura::xrechnung::ubl_invoice::from_ubl_xml;

fn dec(n: i64, scale: u32) -> Dec {
    Dec::new(n, scale)
}

fn date(y: i32, m: u32, d: u32) -> Date {
    Date::from_ymd_opt(y, m, d).unwrap()
}

fn invoice() -> Invoice {
    let mut inv = InvoiceBuilder::new("R-2024-001", date(2024, 6, 15))
        .tax_point_date(date(2024, 6, 10))
        .note("A & B")
        .buyer_reference("04011000-12345-03")
        .seller(
            PartyBuilder::new("Seller GmbH", AddressBuilder::new("Berlin", "10115", "DE").build())
                .vat_id("DE123456789")
                .build(),
        )
        .buyer(
            PartyBuilder::new("Kunde AG", AddressBuilder::new("München", "80331", "DE").build())
                .build(),
        )
        .add_line(
            LineItemBuilder::new("1", "Beratung", dec(10, 0), "HUR", dec(150, 0))
                .tax(TaxCategory::StandardRate, dec(19, 0))
                .build(),
        )
        .add_line(
            LineItemBuilder::new("2", "Reise", dec(1, 0), "C62", dec(4990, 2))
                .tax(TaxCategory::StandardRate, dec(19, 0))
                .build(),
        )
        .build()
        .unwrap();
    calculate_totals(&mut inv, dec(0, 0)).unwrap();
    inv
}

#[test]
fn ubl_roundtrip_keeps_the_invoice() {
    let inv = invoice();
    let xml = to_ubl_xml(&inv).unwrap();
    let back = from_ubl_xml(&xml).unwrap();
    assert_eq!(back.number, "R-2024-001");
    assert_eq!(back.issue_date.year(), 2024);
    assert_eq!(back.issue_date.month(), 6);
    assert_eq!(back.issue_date.day(), 15);
    assert_eq!(back.type_code.code(), 380);
    assert_eq!(back.currency_code, "EUR");
    assert_eq!(back.notes, vec!["A & B".to_string()]);
    assert_eq!(back.buyer_reference.as_deref(), Some("04011000-12345-03"));
    assert_eq!(back.seller.name, "Seller GmbH");
    assert_eq!(back.seller.vat_id.as_deref(), Some("DE123456789"));
    assert_eq!(back.seller.address.city, "Berlin");
    assert_eq!(back.buyer.name, "Kunde AG");
    assert_eq!(back.buyer.address.city, "München");
    assert_eq!(back.lines.len(), 2);
    assert_eq!(back.lines[0].item_name, "Beratung");
    assert_eq!(back.lines[0].unit, "HUR");
    assert!(eq(&back.lines[0].quantity, &dec(10, 0)));
    assert!(eq(&back.lines[0].unit_price, &dec(150, 0)));
    assert!(eq(&back.lines[1].unit_price, &dec(4990, 2)));
    assert_eq!(back.lines[1].tax_category, TaxCategory::StandardRate);
    assert!(eq(&back.lines[1].tax_rate, &dec(19, 0)));
    let t = back.totals.unwrap();
    let t0 = inv.totals.unwrap();
    assert!(eq(&t.net_total, &t0.net_total));
    assert!(eq(&t.vat_total, &t0.vat_total));
    assert!(eq(&t.gross_total, &t0.gross_total));
    assert!(eq(&t.amount_due, &t0.amount_due));
    assert_eq!(t.vat_breakdown.len(), 1);
    assert!(eq(&t.vat_breakdown[0].tax_amount, &t0.vat_breakdown[0].tax_amount));
    let tp = back.tax_point_date.unwrap();
    assert_eq!((tp.year(), tp.month(), tp.day()), (2024, 6, 10));
}

#[test]
fn ubl_credit_note_roundtrip() {
    let mut inv = invoice();
    inv.type_code = InvoiceTypeCode::CreditNote;
    let xml = to_ubl_xml(&inv).unwrap();
    let back = from_ubl_xml(&xml).unwrap();
    assert_eq!(back.type_code, InvoiceTypeCode::CreditNote);
    assert_eq!(back.lines.len(), 2);
}

#[test]
fn ubl_missing_issue_date() {
    let xml = "<Invoice><cbc:ID>X</cbc:ID></Invoice>";
    match from_ubl_xml(xml) {
        Err(RechnungError::Builder(m)) => assert_eq!(m, "missing issue date"),
        _ => panic!("expected a builder error"),
    }
}

#[test]
fn ubl_invalid_issue_date() {
    let xml = "<Invoice><cbc:IssueDate>2024-13-01</cbc:IssueDate></Invoice>";
    match from_ubl_xml(xml) {
        Err(RechnungError::Builder(m)) => assert!(m.starts_with("invalid date '2024-13-01': ")),
        _ => panic!("expected a builder error"),
    }
}

#[test]
fn ubl_invalid_type_code() {
    let xml = "<Invoice><cbc:IssueDate>2024-01-01</cbc:IssueDate><cbc:InvoiceTypeCode>X1</cbc:InvoiceTypeCode></Invoice>";
    match from_ubl_xml(xml) {
        Err(RechnungError::Builder(m)) => assert_eq!(m, "invalid type code: invalid digit found in string"),
        _ => panic!("expected a builder error"),
    }
}

#[test]
fn ubl_invalid_amount() {
    let xml = "<Invoice><cbc:IssueDate>2024-01-01</cbc:IssueDate><cac:LegalMonetaryTotal><cbc:PayableAmount>abc</cbc:PayableAmount></cac:LegalMonetaryTotal></Invoice>";
    match from_ubl_xml(xml) {
        Err(RechnungError::Builder(m)) => assert!(m.starts_with("invalid decimal 'abc': ")),
        _ => panic!("expected a builder error"),
    }
}

#[test]
fn ubl_syntax_error() {
    let xml = "<Invoice><cbc:ID>X</cbc:Other></Invoice>";
    match from_ubl_xml(xml) {
        Err(RechnungError::Builder(m)) => assert!(m.starts_with("XML parse error: ")),
        _ => panic!("expected a builder error"),
    }
}

#[test]
fn ubl_minimal_defaults() {
    let xml = "<Invoice><cbc:IssueDate>2024-01-01</cbc:IssueDate></Invoice>";
    let inv = from_ubl_xml(xml).unwrap();
    assert_eq!(inv.number, "");
    assert_eq!(inv.currency_code, "EUR");
    assert_eq!(inv.type_code, InvoiceTypeCode::Invoice);
    assert!(inv.lines.is_empty());
    assert!(inv.payment.is_none());
    assert!(inv.totals.is_some());
}

#[test]
fn parse_u16_like_std() {
    assert_eq!(parse_u16("380"), Ok(380));
    assert_eq!(parse_u16("+58"), Ok(58));
    assert_eq!(parse_u16(""), Err(IntTextError::Empty));
    assert_eq!(parse_u16("+"), Err(IntTextError::InvalidDigit));
    assert_eq!(parse_u16("-1"), Err(IntTextError::InvalidDigit));
    assert_eq!(parse_u16("65535"), Ok(65535));
    assert_eq!(parse_u16("65536"), Err(IntTextError::PosOverflow));
    assert_eq!(parse_u16("70000x"), Err(IntTextError::PosOverflow));
    assert_eq!(parse_u16("7x"), Err(IntTextError::InvalidDigit));
}

#[test]
fn cii_roundtrip_keeps_the_invoice() {
    let inv = invoice();
    let xml = to_cii_xml(&inv).unwrap();
    let back = from_cii_xml(&xml).unwrap();
    assert_eq!(back.number, "R-2024-001");
    assert_eq!((back.issue_date.year(), back.issue_date.month(), back.issue_date.day()), (2024, 6, 15));
    assert_eq!(back.type_code.code(), 380);
    assert_eq!(back.currency_code, "EUR");
    assert_eq!(back.notes, vec!["A & B".to_string()]);
    assert_eq!(back.buyer_reference.as_deref(), Some("04011000-12345-03"));
    assert_eq!(back.seller.name, "Seller GmbH");
    assert_eq!(back.seller.vat_id.as_deref(), Some("DE123456789"));
    assert_eq!(back.buyer.name, "Kunde AG");
    assert_eq!(back.buyer.address.city, "München");
    assert_eq!(back.lines.len(), 2);
    assert_eq!(back.lines[0].item_name, "Beratung");
    assert_eq!(back.lines[0].unit, "HUR");
    assert!(eq(&back.lines[0].quantity, &dec(10, 0)));
    assert!(eq(&back.lines[1].unit_price, &dec(4990, 2)));
    let t = back.totals.unwrap();
    let t0 = inv.totals.unwrap();
    assert!(eq(&t.net_total, &t0.net_total));
    assert!(eq(&t.vat_total, &t0.vat_total));
    assert!(eq(&t.gross_total, &t0.gross_total));
    assert!(eq(&t.amount_due, &t0.amount_due));
    assert_eq!(t.vat_breakdown.len(), 1);
}

#[test]
fn cii_missing_issue_date() {
    let xml = "<rsm:CrossIndustryInvoice><rsm:ExchangedDocument><ram:ID>X</ram:ID></rsm:ExchangedDocument></rsm:CrossIndustryInvoice>";
    match from_cii_xml(xml) {
        Err(RechnungError::Builder(m)) => assert_eq!(m, "missing issue date"),
        _ => panic!("expected a builder error"),
    }
}

#[test]
fn cii_invalid_issue_date() {
    let xml = "<rsm:CrossIndustryInvoice><ram:IssueDateTime><udt:DateTimeString>2024-01-01</udt:DateTimeString></ram:IssueDateTime></rsm:CrossIndustryInvoice>";
    match from_cii_xml(xml) {
        Err(RechnungError::Builder(m)) => assert!(m.starts_with("invalid CII date '2024-01-01': ")),
        _ => panic!("expected a builder error"),
    }
}

#[test]
fn syntax_detection() {
    assert_eq!(detect_syntax("<ubl:Invoice xmlns:ubl=\"x\"></ubl:Invoice>"), Some(XmlSyntax::Ubl));
    assert_eq!(detect_syntax("<?xml version=\"1.0\"?><CreditNote/>"), Some(XmlSyntax::Ubl));
    assert_eq!(detect_syntax("<rsm:CrossIndustryInvoice></rsm:CrossIndustryInvoice>"), Some(XmlSyntax::Cii));
    assert_eq!(detect_syntax("<Order></Order>"), None);
    assert_eq!(detect_syntax(""), None);
    assert_eq!(local_name("a:b:c"), "b:c");
    assert_eq!(local_name("abc"), "abc");
}

#[test]
fn from_xml_dispatches() {
    let inv = invoice();
    let (a, s1) = from_xml(&to_ubl_xml(&inv).unwrap()).unwrap();
    assert_eq!(s1, XmlSyntax::Ubl);
    assert_eq!(a.number, "R-2024-001");
    let (b, s2) = from_xml(&to_cii_xml(&inv).unwrap()).unwrap();
    assert_eq!(s2, XmlSyntax::Cii);
    assert_eq!(b.number, "R-2024-001");
    match from_xml("<Order/>") {
        Err(RechnungError::Xml(m)) => assert!(m.starts_with("cannot detect XML syntax")),
        _ => panic!("expected an XML error"),
    }
}

#[test]
fn ubl_payment_and_attachment() {
    let xml = "<Invoice><cbc:IssueDate>2024-01-01</cbc:IssueDate><cac:AdditionalDocumentReference><cbc:ID>A-1</cbc:ID><cac:Attachment><cbc:EmbeddedDocumentBinaryObject mimeCode=\"application/pdf\" filename=\"a.pdf\">QUJD</cbc:EmbeddedDocumentBinaryObject></cac:Attachment></cac:AdditionalDocumentReference><cac:PaymentMeans><cbc:PaymentMeansCode name=\"Transfer\">30</cbc:PaymentMeansCode><cac:PayeeFinancialAccount><cbc:ID>DE02120300000000202051</cbc:ID><cbc:Name>Seller</cbc:Name></cac:PayeeFinancialAccount></cac:PaymentMeans></Invoice>";
    let inv = from_ubl_xml(xml).unwrap();
    let p = inv.payment.unwrap();
    assert_eq!(p.means_code.code(), 30);
    assert_eq!(p.means_text.as_deref(), Some("Transfer"));
    let ct = p.credit_transfer.unwrap();
    assert_eq!(ct.iban, "DE02120300000000202051");
    assert_eq!(ct.account_name.as_deref(), Some("Seller"));
    assert!(p.card_payment.is_none());
    assert_eq!(inv.attachments.len(), 1);
    assert_eq!(inv.attachments[0].id.as_deref(), Some("A-1"));
    let e = inv.attachments[0].embedded_document.as_ref().unwrap();
    assert_eq!(e.content, "QUJD");
    assert_eq!(e.mime_type, "application/pdf");
    assert_eq!(e.filename, "a.pdf");
}

#[test]
fn cii_payment_and_tax_representative() {
    let xml = "<rsm:CrossIndustryInvoice><rsm:ExchangedDocument><ram:ID>C-7</ram:ID><ram:TypeCode>381</ram:TypeCode><ram:IssueDateTime><udt:DateTimeString format=\"102\">20240301</udt:DateTimeString></ram:IssueDateTime></rsm:ExchangedDocument><rsm:SupplyChainTradeTransaction><ram:ApplicableHeaderTradeAgreement><ram:SellerTaxRepresentativeTradeParty><ram:Name>Rep GmbH</ram:Name></ram:SellerTaxRepresentativeTradeParty></ram:ApplicableHeaderTradeAgreement><ram:ApplicableHeaderTradeSettlement><ram:SpecifiedTradeSettlementPaymentMeans><ram:TypeCode>58</ram:TypeCode><ram:PayeePartyCreditorFinancialAccount><ram:IBANID>DE02120300000000202051</ram:IBANID></ram:PayeePartyCreditorFinancialAccount></ram:SpecifiedTradeSettlementPaymentMeans><ram:SpecifiedTradePaymentTerms><ram:DueDateDateTime><udt:DateTimeString format=\"102\">20240331</udt:DateTimeString></ram:DueDateDateTime></ram:SpecifiedTradePaymentTerms></ram:ApplicableHeaderTradeSettlement></rsm:SupplyChainTradeTransaction></rsm:CrossIndustryInvoice>";
    let inv = from_cii_xml(xml).unwrap();
    assert_eq!(inv.number, "C-7");
    assert_eq!(inv.type_code, InvoiceTypeCode::CreditNote);
    let due = inv.due_date.unwrap();
    assert_eq!((due.year(), due.month(), due.day()), (2024, 3, 31));
    let p = inv.payment.unwrap();
    assert_eq!(p.means_code.code(), 58);
    assert_eq!(p.credit_transfer.unwrap().iban, "DE02120300000000202051");
    let rep = inv.tax_representative.unwrap();
    assert_eq!(rep.name, "Rep GmbH");
    assert_eq!(rep.vat_id, "");
}

#[test]
fn ubl_seller_with_vat_id_and_tax_number() {
    let mut inv = invoice();
    inv.seller.tax_number = Some("12/345/67890".to_string());
    let xml = to_ubl_xml(&inv).unwrap();
    let back = from_ubl_xml(&xml).unwrap();
    assert_eq!(back.seller.vat_id.as_deref(), Some("DE123456789"));
    assert_eq!(back.seller.tax_number.as_deref(), Some("12/345/67890"));
}

#[test]
fn ubl_buyer_with_vat_id_and_tax_number() {
    let mut inv = invoice();
    inv.buyer.vat_id = Some("DE987654321".to_string());
    inv.buyer.tax_number = Some("99/888/77777".to_string());
    let xml = to_ubl_xml(&inv).unwrap();
    let back = from_ubl_xml(&xml).unwrap();
    assert_eq!(back.buyer.vat_id.as_deref(), Some("DE987654321"));
    assert_eq!(back.buyer.tax_number.as_deref(), Some("99/888/77777"));
}

#[test]
fn cii_buyer_with_vat_id_and_tax_number() {
    let mut inv = invoice();
    inv.buyer.vat_id = Some("DE987654321".to_string());
    inv.buyer.tax_number = Some("99/888/77777".to_string());
    let xml = to_cii_xml(&inv).unwrap();
    let back = from_cii_xml(&xml).unwrap();
    assert_eq!(back.buyer.vat_id.as_deref(), Some("DE987654321"));
    assert_eq!(back.buyer.tax_number.as_deref(), Some("99/888/77777"));
}

#[test]
fn empty_ubl_text_is_an_error() {
    assert!(from_ubl_xml("").is_err());
}

fn corrupt_first(xml: &str, tag: &str) -> (String, String) {
    let start = xml.find(tag).unwrap();
    let gt = start + xml[start..].find('>').unwrap() + 1;
    let lt = gt + xml[gt..].find('<').unwrap();
    let bad = format!("x{}", &xml[gt..lt]);
    let mut out = String::new();
    out.push_str(&xml[..gt]);
    out.push_str(&bad);
    out.push_str(&xml[lt..]);
    (out, bad)
}

#[test]
fn ubl_reports_the_first_bad_amount() {
    let xml = to_ubl_xml(&invoice()).unwrap();
    let (xml, _) = corrupt_first(&xml, "<cbc:PayableAmount");
    let (xml, bad_qty) = corrupt_first(&xml, "<cbc:InvoicedQuantity");
    match from_ubl_xml(&xml) {
        Err(RechnungError::Builder(m)) => {
            assert!(m.starts_with(&format!("invalid decimal '{}': ", bad_qty)))
        }
        _ => panic!("expected a decimal error"),
    }
}

#[test]
fn ubl_reports_a_bad_total_when_the_lines_read() {
    let xml = to_ubl_xml(&invoice()).unwrap();
    let (xml, bad) = corrupt_first(&xml, "<cbc:PayableAmount");
    match from_ubl_xml(&xml) {
        Err(RechnungError::Builder(m)) => assert!(m.starts_with(&format!("invalid decimal '{}': ", bad))),
        _ => panic!("expected a decimal error"),
    }
}
