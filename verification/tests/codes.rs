use faktura::model::codes::{
    is_known_allowance_reason, is_known_charge_reason, is_known_country_code,
    is_known_currency_code, is_known_unit_code, known_allowance_reasons, known_charge_reasons,
    known_country_codes, known_currency_codes, known_unit_codes,
};

#[test]
fn known_countries() {
    assert!(is_known_country_code("DE"));
    assert!(is_known_country_code("AT"));
    assert!(is_known_country_code("CH"));
    assert!(is_known_country_code("FR"));
    assert!(is_known_country_code("US"));
    assert!(is_known_country_code("GB"));
    assert!(is_known_country_code("JP"));
}

#[test]
fn unknown_countries() {
    assert!(!is_known_country_code("XX"));
    assert!(!is_known_country_code(""));
    assert!(!is_known_country_code("DEU"));
    assert!(!is_known_country_code("de"));
}

#[test]
fn countries_list_is_sorted() {
    let codes = known_country_codes();
    for window in codes.windows(2) {
        assert!(
            window[0] < window[1],
            "country codes not sorted: {} >= {}",
            window[0],
            window[1]
        );
    }
}

#[test]
fn list_count() {
    assert_eq!(known_country_codes().len(), 249);
}

#[test]
fn known_currencies() {
    assert!(is_known_currency_code("EUR"));
    assert!(is_known_currency_code("USD"));
    assert!(is_known_currency_code("GBP"));
    assert!(is_known_currency_code("CHF"));
    assert!(is_known_currency_code("JPY"));
    assert!(is_known_currency_code("SEK"));
}

#[test]
fn unknown_currencies() {
    assert!(!is_known_currency_code("XYZ"));
    assert!(!is_known_currency_code(""));
    assert!(!is_known_currency_code("EURO"));
    assert!(!is_known_currency_code("eu"));
}

#[test]
fn currencies_list_is_sorted() {
    let codes = known_currency_codes();
    for window in codes.windows(2) {
        assert!(
            window[0] < window[1],
            "currency codes not sorted: {} >= {}",
            window[0],
            window[1]
        );
    }
}

#[test]
fn known_codes() {
    assert!(is_known_unit_code("C62"));
    assert!(is_known_unit_code("HUR"));
    assert!(is_known_unit_code("KGM"));
    assert!(is_known_unit_code("LTR"));
    assert!(is_known_unit_code("MTR"));
    assert!(is_known_unit_code("DAY"));
    assert!(is_known_unit_code("MON"));
    assert!(is_known_unit_code("SET"));
}

#[test]
fn unknown_codes() {
    assert!(!is_known_unit_code("XYZ"));
    assert!(!is_known_unit_code(""));
    assert!(!is_known_unit_code("PIECE"));
}

#[test]
fn units_list_is_sorted() {
    let codes = known_unit_codes();
    for window in codes.windows(2) {
        assert!(
            window[0] < window[1],
            "unit codes not sorted: {} >= {}",
            window[0],
            window[1]
        );
    }
}

#[test]
fn known_allowance_codes() {
    assert!(is_known_allowance_reason("95"));
    assert!(is_known_allowance_reason("41"));
    assert!(is_known_allowance_reason("100"));
    assert!(is_known_allowance_reason("42"));
}

#[test]
fn unknown_allowance_codes() {
    assert!(!is_known_allowance_reason("99"));
    assert!(!is_known_allowance_reason(""));
    assert!(!is_known_allowance_reason("DISCOUNT"));
}

#[test]
fn known_charge_codes() {
    assert!(is_known_charge_reason("FC"));
    assert!(is_known_charge_reason("PC"));
    assert!(is_known_charge_reason("AA"));
    assert!(is_known_charge_reason("ABK"));
}

#[test]
fn unknown_charge_codes() {
    assert!(!is_known_charge_reason("ZZ"));
    assert!(!is_known_charge_reason(""));
    assert!(!is_known_charge_reason("FREIGHT"));
}

#[test]
fn allowance_list_is_sorted() {
    let codes = known_allowance_reasons();
    for window in codes.windows(2) {
        assert!(
            window[0] < window[1],
            "allowance codes not sorted: {} >= {}",
            window[0],
            window[1]
        );
    }
}

#[test]
fn charge_list_is_sorted() {
    let codes = known_charge_reasons();
    for window in codes.windows(2) {
        assert!(
            window[0] < window[1],
            "charge codes not sorted: {} >= {}",
            window[0],
            window[1]
        );
    }
}
