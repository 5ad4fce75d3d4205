use faktura::date::Date;
use faktura::decimal::Dec;
use faktura::model::builder::{AddressBuilder, LineItemBuilder, PartyBuilder};
use faktura::model::invoice_builder::InvoiceBuilder;
use faktura::model::types::{Invoice, TaxCategory, VatScenario};
use faktura::vat::format::{validate_steuernummer, validate_vat_format};
use faktura::vat::kleinunternehmer::check_kleinunternehmer;
use faktura::vat::scenario::determine_scenario;
use faktura::vat::vies::{
    check_http_status, http_status_error, vies_outcome, without_placeholder, ViesApiResponse, ViesError,
    ViesErrorWrapper, ViesResult, VIES_URL,
};

fn dec(n: i64, scale: u32) -> Dec {
    Dec::new(n, scale)
}

fn date(y: i32, m: u32, d: u32) -> Date {
    Date::from_ymd_opt(y, m, d).unwrap()
}

// ---------------------------------------------------------------- VAT format

#[test]
fn valid_de_vat() {
    let (cc, num) = validate_vat_format("DE123456789").unwrap();
    assert_eq!(cc, "DE");
    assert_eq!(num, "123456789");
}

#[test]
fn valid_at_vat() {
    assert!(validate_vat_format("ATU12345678").is_ok());
}

#[test]
fn valid_fr_vat() {
    assert!(validate_vat_format("FR12345678901").is_ok());
}

#[test]
fn valid_nl_vat() {
    assert!(validate_vat_format("NL123456789B01").is_ok());
}

#[test]
fn valid_it_vat() {
    assert!(validate_vat_format("IT12345678901").is_ok());
}

#[test]
fn valid_es_vat() {
    assert!(validate_vat_format("ESX1234567X").is_ok());
}

#[test]
fn valid_pl_vat() {
    assert!(validate_vat_format("PL1234567890").is_ok());
}

#[test]
fn de_vat_leading_zero_rejected() {
    assert!(validate_vat_format("DE012345678").is_err());
}

#[test]
fn de_vat_too_short() {
    assert!(validate_vat_format("DE12345678").is_err());
}

#[test]
fn de_vat_too_long() {
    assert!(validate_vat_format("DE1234567890").is_err());
}

#[test]
fn unknown_country() {
    assert!(validate_vat_format("XX12345678").is_err());
}

#[test]
fn too_short_input() {
    assert!(validate_vat_format("DE").is_err());
}

#[test]
fn whitespace_trimmed() {
    assert!(validate_vat_format("  DE123456789  ").is_ok());
}

#[test]
fn vat_error_messages() {
    let e = validate_vat_format("DE").unwrap_err();
    assert!(!e.display().is_empty());
    let e2 = validate_vat_format("XX12345678").unwrap_err();
    assert!(e2.display().contains("XX"));
}

// ---------------------------------------------------------------- Steuernummer

#[test]
fn valid_13digit_berlin() {
    let r = validate_steuernummer("1121081508155").unwrap();
    assert_eq!(r.len(), 13);
}

#[test]
fn valid_13digit_nrw() {
    let r = validate_steuernummer("5133081508159").unwrap();
    assert_eq!(r.len(), 13);
}

#[test]
fn valid_with_slashes() {
    let r = validate_steuernummer("11/210/81508").unwrap();
    assert_eq!(r, "1121081508");
}

#[test]
fn invalid_prefix() {
    assert!(validate_steuernummer("9900000000000").is_err());
}

#[test]
fn too_few_digits() {
    assert!(validate_steuernummer("123456").is_err());
}

// ---------------------------------------------------------------- Kleinunternehmer

#[test]
fn eligible_below_both_limits() {
    let s = check_kleinunternehmer(dec(20_000, 0), dec(80_000, 0));
    assert!(s.eligible);
    assert!(s.reason.is_none());
}

#[test]
fn eligible_at_exact_limits() {
    let s = check_kleinunternehmer(dec(25_000, 0), dec(100_000, 0));
    assert!(s.eligible);
}

#[test]
fn ineligible_prev_year_over() {
    let s = check_kleinunternehmer(dec(25_001, 0), dec(50_000, 0));
    assert!(!s.eligible);
    assert!(s.reason.as_ref().unwrap().contains("previous year"));
}

#[test]
fn ineligible_curr_year_over() {
    let s = check_kleinunternehmer(dec(20_000, 0), dec(100_001, 0));
    assert!(!s.eligible);
    assert!(s.reason.as_ref().unwrap().contains("current year"));
}

#[test]
fn zero_revenue_eligible() {
    let s = check_kleinunternehmer(dec(0, 0), dec(0, 0));
    assert!(s.eligible);
}

#[test]
fn first_year_no_previous() {
    let s = check_kleinunternehmer(dec(0, 0), dec(90_000, 0));
    assert!(s.eligible);
}

#[test]
fn kleinunternehmer_reason_text() {
    let s = check_kleinunternehmer(dec(2500001, 2), dec(0, 0));
    assert_eq!(
        s.reason.unwrap(),
        "previous year net revenue 25000.01 exceeds limit of 25000"
    );
}

// ---------------------------------------------------------------- scenario

fn domestic_invoice() -> Invoice {
    InvoiceBuilder::new("TEST-001", date(2024, 6, 15))
        .tax_point_date(date(2024, 6, 15))
        .seller(
            PartyBuilder::new("Seller GmbH", AddressBuilder::new("Berlin", "10115", "DE").build())
                .vat_id("DE123456789")
                .build(),
        )
        .buyer(
            PartyBuilder::new("Buyer AG", AddressBuilder::new("München", "80331", "DE").build())
                .build(),
        )
        .add_line(
            LineItemBuilder::new("1", "Service", dec(10, 0), "HUR", dec(100, 0))
                .tax(TaxCategory::StandardRate, dec(19, 0))
                .build(),
        )
        .build()
        .unwrap()
}

#[test]
fn domestic_detected() {
    let inv = domestic_invoice();
    assert_eq!(determine_scenario(&inv), VatScenario::Domestic);
}

#[test]
fn export_detected() {
    let mut inv = domestic_invoice();
    inv.buyer.address.country_code = "US".into();
    assert_eq!(determine_scenario(&inv), VatScenario::Export);
}

#[test]
fn intra_community_with_vat_id() {
    let mut inv = domestic_invoice();
    inv.buyer.address.country_code = "FR".into();
    inv.buyer.vat_id = Some("FR12345678901".into());
    assert_eq!(determine_scenario(&inv), VatScenario::IntraCommunitySupply);
}

#[test]
fn intra_community_without_vat_id_falls_to_domestic() {
    let mut inv = domestic_invoice();
    inv.buyer.address.country_code = "FR".into();
    inv.buyer.vat_id = None;
    assert_eq!(determine_scenario(&inv), VatScenario::Domestic);
}

#[test]
fn reverse_charge_detected() {
    let mut inv = domestic_invoice();
    inv.lines[0].tax_category = TaxCategory::ReverseCharge;
    assert_eq!(determine_scenario(&inv), VatScenario::ReverseCharge);
}

#[test]
fn kleinunternehmer_detected() {
    let mut inv = domestic_invoice();
    inv.lines[0].tax_category = TaxCategory::Exempt;
    inv.lines[0].tax_rate = dec(0, 0);
    assert_eq!(determine_scenario(&inv), VatScenario::Kleinunternehmer);
}

#[test]
fn small_invoice_detected() {
    let inv = InvoiceBuilder::new("SMALL-001", date(2024, 6, 15))
        .tax_point_date(date(2024, 6, 15))
        .seller(
            PartyBuilder::new("Seller", AddressBuilder::new("Berlin", "10115", "DE").build())
                .vat_id("DE123456789")
                .build(),
        )
        .buyer(PartyBuilder::new("Buyer", AddressBuilder::new("Berlin", "10115", "DE").build()).build())
        .add_line(
            LineItemBuilder::new("1", "Coffee", dec(2, 0), "C62", dec(450, 2))
                .tax(TaxCategory::StandardRate, dec(19, 0))
                .build(),
        )
        .build()
        .unwrap();
    assert_eq!(determine_scenario(&inv), VatScenario::SmallInvoice);
}

#[test]
fn mixed_rates_detected() {
    let inv = InvoiceBuilder::new("MIX-001", date(2024, 6, 15))
        .tax_point_date(date(2024, 6, 15))
        .seller(
            PartyBuilder::new("Seller", AddressBuilder::new("Berlin", "10115", "DE").build())
                .vat_id("DE123456789")
                .build(),
        )
        .buyer(PartyBuilder::new("Buyer", AddressBuilder::new("Berlin", "10115", "DE").build()).build())
        .add_line(
            LineItemBuilder::new("1", "Service", dec(10, 0), "HUR", dec(100, 0))
                .tax(TaxCategory::StandardRate, dec(19, 0))
                .build(),
        )
        .add_line(
            LineItemBuilder::new("2", "Food", dec(5, 0), "C62", dec(10, 0))
                .tax(TaxCategory::StandardRate, dec(7, 0))
                .build(),
        )
        .build()
        .unwrap();
    assert_eq!(determine_scenario(&inv), VatScenario::Mixed);
}

// ---------------------------------------------------------------- VIES

#[test]
fn vies_url_is_https() {
    assert!(VIES_URL.starts_with("https://"));
}

#[test]
fn vies_result_filters_dashes() {
    let result = ViesResult {
        valid: true,
        request_date: Some("2024-01-15".into()),
        name: Some("---".into()),
        address: Some("---".into()),
    };
    let filtered_name = without_placeholder(result.name);
    assert!(filtered_name.is_none());
    assert!(without_placeholder(Some(String::new())).is_none());
    assert_eq!(without_placeholder(Some("ACME".into())), Some("ACME".to_string()));
}

#[test]
fn vies_outcome_reads_reply() {
    let resp = ViesApiResponse {
        valid: Some(true),
        request_date: Some("2024-01-15".into()),
        name: Some("ACME GMBH".into()),
        address: Some("---".into()),
        error_wrappers: None,
    };
    let r = vies_outcome(resp).unwrap();
    assert!(r.valid);
    assert_eq!(r.request_date.as_deref(), Some("2024-01-15"));
    assert_eq!(r.name.as_deref(), Some("ACME GMBH"));
    assert!(r.address.is_none());
}

#[test]
fn vies_outcome_reports_first_error() {
    let resp = ViesApiResponse {
        valid: None,
        request_date: None,
        name: None,
        address: None,
        error_wrappers: Some(vec![
            ViesErrorWrapper { error: Some("MS_UNAVAILABLE".into()), message: None },
            ViesErrorWrapper { error: None, message: Some("second".into()) },
        ]),
    };
    match vies_outcome(resp) {
        Err(ViesError::ApiError(m)) => assert_eq!(m, "MS_UNAVAILABLE"),
        _ => panic!("expected an API error"),
    }
}

#[test]
fn vies_http_error_text() {
    let e = http_status_error("503 Service Unavailable", "down");
    assert_eq!(e.display(), "VIES API error: HTTP 503 Service Unavailable: down");
}

#[test]
fn equal_rates_at_other_scale_are_not_mixed() {
    let mut inv = domestic_invoice();
    let mut second = inv.lines[0].clone();
    second.id = "2".into();
    second.tax_rate = dec(1900, 2);
    inv.lines.push(second);
    assert_eq!(determine_scenario(&inv), VatScenario::Domestic);
}

#[test]
fn zero_gross_is_small_invoice() {
    let mut inv = domestic_invoice();
    inv.totals.as_mut().unwrap().gross_total = dec(0, 0);
    assert_eq!(determine_scenario(&inv), VatScenario::SmallInvoice);
}

#[test]
fn http_status_outside_success_is_an_api_error() {
    assert!(check_http_status(200, "200 OK", "{}").is_ok());
    assert!(check_http_status(299, "299", "").is_ok());
    match check_http_status(404, "404 Not Found", "nope") {
        Err(ViesError::ApiError(m)) => assert_eq!(m, "HTTP 404 Not Found: nope"),
        _ => panic!("expected an API error"),
    }
    assert!(check_http_status(199, "199", "").is_err());
}
