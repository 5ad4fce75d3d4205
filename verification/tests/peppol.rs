use faktura::date::Date;
use faktura::decimal::Dec;
use faktura::model::builder::{AddressBuilder, LineItemBuilder, PartyBuilder};
use faktura::model::invoice_builder::InvoiceBuilder;
use faktura::model::types::{Invoice, InvoiceTypeCode, TaxCategory};
use faktura::peppol::eas::{eas_scheme_for_country, EasScheme};
use faktura::peppol::to_ubl_xml;
use faktura::peppol::validate::{validate_peppol, validate_peppol_full, PEPPOL_CUSTOMIZATION_ID};

fn date(y: i32, m: u32, d: u32) -> Date {
    Date::from_ymd_opt(y, m, d).unwrap()
}

fn dec(n: i64, scale: u32) -> Dec {
    Dec::new(n, scale)
}

fn valid_peppol_invoice() -> Invoice {
    InvoiceBuilder::new("PEPPOL-001", date(2024, 6, 15))
        .buyer_reference("BR-123")
        .tax_point_date(date(2024, 6, 15))
        .seller(
            PartyBuilder::new("Seller GmbH", AddressBuilder::new("Berlin", "10115", "DE").build())
                .vat_id("DE123456789")
                .electronic_address("EM", "seller@example.com")
                .build(),
        )
        .buyer(
            PartyBuilder::new("Buyer AG", AddressBuilder::new("München", "80331", "DE").build())
                .electronic_address("EM", "buyer@example.com")
                .build(),
        )
        .add_line(
            LineItemBuilder::new("1", "Consulting", dec(10, 0), "HUR", dec(100, 0))
                .tax(TaxCategory::StandardRate, dec(19, 0))
                .build(),
        )
        .build()
        .unwrap()
}

#[test]
fn de_default_is_leitweg() {
    let s = eas_scheme_for_country("DE").unwrap();
    assert_eq!(s.code, "0204");
}

#[test]
fn at_default_is_vat() {
    let s = eas_scheme_for_country("AT").unwrap();
    assert_eq!(s.code, "9914");
}

#[test]
fn unknown_country_returns_none() {
    assert!(eas_scheme_for_country("XX").is_none());
}

#[test]
fn case_insensitive() {
    assert!(eas_scheme_for_country("de").is_some());
}

#[test]
fn scheme_constants() {
    assert_eq!(EasScheme::GLN().code, "0088");
    assert_eq!(EasScheme::DE_VAT().code, "9930");
    assert_eq!(EasScheme::LEITWEG_ID().code, "0204");
}

#[test]
fn valid_invoice_passes() {
    let errors = validate_peppol(&valid_peppol_invoice());
    assert!(errors.is_empty(), "expected no errors, got: {:?}", errors);
}

#[test]
fn missing_buyer_reference_and_order_ref() {
    let mut inv = valid_peppol_invoice();
    inv.buyer_reference = None;
    inv.order_reference = None;
    let errors = validate_peppol(&inv);
    assert!(errors.iter().any(|e| e.rule.as_deref() == Some("PEPPOL-EN16931-R003")));
}

#[test]
fn order_reference_satisfies_r003() {
    let mut inv = valid_peppol_invoice();
    inv.buyer_reference = None;
    inv.order_reference = Some("PO-123".into());
    let errors = validate_peppol(&inv);
    assert!(!errors.iter().any(|e| e.rule.as_deref() == Some("PEPPOL-EN16931-R003")));
}

#[test]
fn missing_seller_endpoint() {
    let mut inv = valid_peppol_invoice();
    inv.seller.electronic_address = None;
    let errors = validate_peppol(&inv);
    assert!(errors.iter().any(|e| e.rule.as_deref() == Some("PEPPOL-EN16931-R020")));
}

#[test]
fn missing_buyer_endpoint() {
    let mut inv = valid_peppol_invoice();
    inv.buyer.electronic_address = None;
    let errors = validate_peppol(&inv);
    assert!(errors.iter().any(|e| e.rule.as_deref() == Some("PEPPOL-EN16931-R010")));
}

#[test]
fn partial_invoice_non_german_rejected() {
    let mut inv = valid_peppol_invoice();
    inv.type_code = InvoiceTypeCode::Partial;
    inv.buyer.address.country_code = "FR".into();
    let errors = validate_peppol(&inv);
    assert!(errors.iter().any(|e| e.rule.as_deref() == Some("PEPPOL-EN16931-P0112")));
}

#[test]
fn partial_invoice_both_german_ok() {
    let mut inv = valid_peppol_invoice();
    inv.type_code = InvoiceTypeCode::Partial;
    let errors = validate_peppol(&inv);
    assert!(!errors.iter().any(|e| e.rule.as_deref() == Some("PEPPOL-EN16931-P0112")));
}

#[test]
fn full_validation_of_valid_invoice_is_empty() {
    let errors = validate_peppol_full(&valid_peppol_invoice());
    assert!(errors.is_empty(), "expected no errors, got: {:?}", errors);
}

#[test]
fn peppol_xml_carries_peppol_customization_id() {
    let xml = to_ubl_xml(&valid_peppol_invoice()).unwrap();
    assert!(xml.contains(&format!(
        "<cbc:CustomizationID>{}</cbc:CustomizationID>",
        PEPPOL_CUSTOMIZATION_ID
    )));
    assert!(!xml.contains("xrechnung_3.0"));
    assert!(xml.contains("<cbc:ID>PEPPOL-001</cbc:ID>"));
}

#[test]
fn peppol_xml_needs_totals() {
    let mut inv = valid_peppol_invoice();
    inv.totals = None;
    let err = to_ubl_xml(&inv).unwrap_err();
    assert_eq!(err.display(), "builder error: totals must be calculated before XML generation");
}
