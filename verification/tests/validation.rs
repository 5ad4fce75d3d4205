use faktura::date::Date;
use faktura::decimal::{eq, Dec};
use faktura::model::builder::{AddressBuilder, LineItemBuilder, PartyBuilder};
use faktura::model::en16931::validate_en16931;
use faktura::model::invoice_builder::InvoiceBuilder;
use faktura::model::types::{Address, LineItem, Party, TaxCategory, TaxRepresentative, VatScenario};

fn dec(n: i64, scale: u32) -> Dec {
    Dec::new(n, scale)
}

fn test_date() -> Date {
    Date::from_ymd_opt(2024, 6, 15).unwrap()
}

fn test_address(country: &str) -> Address {
    AddressBuilder::new("Berlin", "10115", country).build()
}

fn test_seller() -> Party {
    PartyBuilder::new("Test GmbH", test_address("DE")).vat_id("DE123456789").build()
}

fn test_buyer() -> Party {
    PartyBuilder::new("Kunde AG", test_address("DE")).build()
}

fn test_line() -> LineItem {
    LineItemBuilder::new("1", "Beratung", dec(10, 0), "HUR", dec(150, 0))
        .tax(TaxCategory::StandardRate, dec(19, 0))
        .build()
}

#[test]
fn valid_domestic_invoice() {
    let result = InvoiceBuilder::new("RE-001", test_date())
        .seller(test_seller())
        .buyer(test_buyer())
        .add_line(test_line())
        .tax_point_date(test_date())
        .build();

    assert!(result.is_ok());
    let inv = result.unwrap();
    let totals = inv.totals.unwrap();
    assert!(eq(&totals.line_net_total, &dec(1500, 0)));
    assert!(eq(&totals.vat_total, &dec(285, 0)));
    assert!(eq(&totals.gross_total, &dec(1785, 0)));
}

#[test]
fn missing_seller_vat_id_and_tax_number() {
    let seller = PartyBuilder::new("Test GmbH", test_address("DE")).build();

    let result = InvoiceBuilder::new("RE-001", test_date())
        .seller(seller)
        .buyer(test_buyer())
        .add_line(test_line())
        .tax_point_date(test_date())
        .build();

    assert!(result.is_err());
    let err = result.unwrap_err().display();
    assert!(err.contains("VAT ID") || err.contains("tax number"));
}

#[test]
fn missing_delivery_date() {
    let result = InvoiceBuilder::new("RE-001", test_date())
        .seller(test_seller())
        .buyer(test_buyer())
        .add_line(test_line())
        .build();

    let err = result.unwrap_err().display();
    assert!(err.contains("delivery date") || err.contains("Leistungsdatum"));
}

#[test]
fn invoicing_period_satisfies_delivery_date() {
    let result = InvoiceBuilder::new("RE-001", test_date())
        .seller(test_seller())
        .buyer(test_buyer())
        .add_line(test_line())
        .invoicing_period(test_date(), test_date())
        .build();

    assert!(result.is_ok());
}

#[test]
fn small_invoice_allows_missing_buyer() {
    let buyer = PartyBuilder::new("", test_address("DE")).build();

    let line = LineItemBuilder::new("1", "Kaffee", dec(2, 0), "C62", dec(350, 2))
        .tax(TaxCategory::StandardRate, dec(19, 0))
        .build();

    let result = InvoiceBuilder::new("KB-001", test_date())
        .vat_scenario(VatScenario::SmallInvoice)
        .seller(test_seller())
        .buyer(buyer)
        .add_line(line)
        .build();

    assert!(result.is_ok());
}

#[test]
fn small_invoice_rejects_over_250() {
    let line = LineItemBuilder::new("1", "Teuer", dec(1, 0), "C62", dec(300, 0))
        .tax(TaxCategory::StandardRate, dec(19, 0))
        .build();

    let result = InvoiceBuilder::new("KB-001", test_date())
        .vat_scenario(VatScenario::SmallInvoice)
        .seller(test_seller())
        .buyer(test_buyer())
        .add_line(line)
        .tax_point_date(test_date())
        .build();

    assert!(result.is_err());
    assert!(result.unwrap_err().display().contains("250"));
}

#[test]
fn reverse_charge_requires_buyer_vat_id() {
    let line = LineItemBuilder::new("1", "Service", dec(1, 0), "C62", dec(1000, 0))
        .tax(TaxCategory::ReverseCharge, dec(0, 0))
        .build();

    let result = InvoiceBuilder::new("RE-001", test_date())
        .vat_scenario(VatScenario::ReverseCharge)
        .note("Steuerschuldnerschaft des Leistungsempfängers §13b UStG")
        .seller(test_seller())
        .buyer(test_buyer())
        .add_line(line)
        .tax_point_date(test_date())
        .build();

    assert!(result.is_err());
    assert!(result.unwrap_err().display().contains("VAT ID"));
}

#[test]
fn kleinunternehmer_requires_note() {
    let line = LineItemBuilder::new("1", "Design", dec(1, 0), "C62", dec(500, 0))
        .tax(TaxCategory::NotSubjectToVat, dec(0, 0))
        .build();

    let result = InvoiceBuilder::new("RE-001", test_date())
        .vat_scenario(VatScenario::Kleinunternehmer)
        .seller(test_seller())
        .buyer(test_buyer())
        .add_line(line.clone())
        .tax_point_date(test_date())
        .build();

    assert!(result.is_err());
    assert!(result.unwrap_err().display().contains("§19"));

    let result = InvoiceBuilder::new("RE-001", test_date())
        .vat_scenario(VatScenario::Kleinunternehmer)
        .note("Kein Ausweis von Umsatzsteuer, da Kleinunternehmer gemäß §19 UStG")
        .seller(test_seller())
        .buyer(test_buyer())
        .add_line(line)
        .tax_point_date(test_date())
        .build();

    assert!(result.is_ok());
    let inv = result.unwrap();
    assert!(eq(&inv.totals.unwrap().vat_total, &dec(0, 0)));
}

#[test]
fn tax_representative_exempts_seller_tax_id() {
    let seller = PartyBuilder::new("Foreign Co", test_address("FR")).build();

    let result = InvoiceBuilder::new("TR-001", test_date())
        .seller(seller)
        .buyer(test_buyer())
        .add_line(test_line())
        .tax_point_date(test_date())
        .tax_representative(TaxRepresentative {
            name: "Steuerberater GmbH".into(),
            vat_id: "DE987654321".into(),
            address: test_address("DE"),
        })
        .build();

    assert!(
        result.is_ok(),
        "tax representative should exempt seller VAT/tax number requirement"
    );
}

#[test]
fn duplicate_line_ids_detected() {
    let inv = InvoiceBuilder::new("DUP-001", test_date())
        .seller(test_seller())
        .buyer(test_buyer())
        .add_line(
            LineItemBuilder::new("1", "Item A", dec(1, 0), "C62", dec(100, 0))
                .tax(TaxCategory::StandardRate, dec(19, 0))
                .build(),
        )
        .add_line(
            LineItemBuilder::new("1", "Item B", dec(2, 0), "C62", dec(200, 0))
                .tax(TaxCategory::StandardRate, dec(19, 0))
                .build(),
        )
        .tax_point_date(test_date())
        .build()
        .unwrap();

    let errors = validate_en16931(&inv);
    assert!(
        errors.iter().any(|e| e.rule.as_deref() == Some("BR-CO-04")),
        "expected BR-CO-04 for duplicate line IDs"
    );
}

#[test]
fn en16931_standard_rate_must_be_nonzero() {
    let inv = InvoiceBuilder::new("EN-001", test_date())
        .seller(test_seller())
        .buyer(test_buyer())
        .add_line(test_line())
        .tax_point_date(test_date())
        .build()
        .unwrap();

    let errors = validate_en16931(&inv);
    assert!(errors.is_empty(), "expected no errors, got: {:?}", errors);
}

#[test]
fn en16931_exempt_needs_reason() {
    let line = LineItemBuilder::new("1", "Tax-free", dec(1, 0), "C62", dec(100, 0))
        .tax(TaxCategory::Exempt, dec(0, 0))
        .build();

    let mut inv = InvoiceBuilder::new("EN-002", test_date())
        .seller(test_seller())
        .buyer(test_buyer())
        .add_line(line)
        .tax_point_date(test_date())
        .vat_scenario(VatScenario::Mixed)
        .build()
        .unwrap();

    if let Some(ref mut totals) = inv.totals {
        for vb in &mut totals.vat_breakdown {
            vb.exemption_reason = None;
            vb.exemption_reason_code = None;
        }
    }

    let errors = validate_en16931(&inv);
    assert!(
        errors.iter().any(|e| e.rule.as_deref() == Some("BR-E-10")),
        "expected BR-E-10 for exempt without reason"
    );
}

#[test]
fn vat_breakdown_one_entry_per_key_in_key_order() {
    let line = |id: &str, price: i64, cat: TaxCategory, rate: Dec| {
        LineItemBuilder::new(id, "Posten", dec(1, 0), "C62", dec(price, 0)).tax(cat, rate).build()
    };
    let inv = InvoiceBuilder::new("RE-002", test_date())
        .seller(test_seller())
        .buyer(test_buyer())
        .add_line(line("1", 1500, TaxCategory::StandardRate, dec(19, 0)))
        .add_line(line("2", 100, TaxCategory::StandardRate, dec(7, 0)))
        .add_line(line("3", 200, TaxCategory::StandardRate, dec(1900, 2)))
        .add_line(line("4", 50, TaxCategory::ZeroRated, dec(0, 0)))
        .tax_point_date(test_date())
        .build()
        .unwrap();
    let t = inv.totals.unwrap();
    assert_eq!(t.vat_breakdown.len(), 3);
    assert_eq!(t.vat_breakdown[0].category, TaxCategory::StandardRate);
    assert!(eq(&t.vat_breakdown[0].rate, &dec(7, 0)));
    assert!(eq(&t.vat_breakdown[0].taxable_amount, &dec(100, 0)));
    assert_eq!(t.vat_breakdown[1].category, TaxCategory::StandardRate);
    assert!(eq(&t.vat_breakdown[1].rate, &dec(19, 0)));
    assert!(eq(&t.vat_breakdown[1].taxable_amount, &dec(1700, 0)));
    assert_eq!(t.vat_breakdown[2].category, TaxCategory::ZeroRated);
    assert!(eq(&t.vat_breakdown[2].taxable_amount, &dec(50, 0)));
    assert!(eq(&t.net_total, &dec(1850, 0)));
}
