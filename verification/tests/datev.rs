use faktura::datev::accounts::{account_by_name, account_by_number, revenue_account, ChartOfAccounts};
use faktura::datev::bu_key::{bu_schluessel, BuSchluessel};
use faktura::datev::extf::{format_amount, truncate};
use faktura::decimal::Dec;
use faktura::model::types::{TaxCategory, VatScenario};

fn dec(n: i64, scale: u32) -> Dec {
    Dec::new(n, scale)
}

#[test]
fn skr03_standard_19() {
    let m = revenue_account(
        ChartOfAccounts::SKR03,
        VatScenario::Domestic,
        TaxCategory::StandardRate,
        dec(19, 0),
    );
    assert_eq!(m.revenue_account, 8400);
    assert!(m.is_automatik);
}

#[test]
fn skr04_standard_19() {
    let m = revenue_account(
        ChartOfAccounts::SKR04,
        VatScenario::Domestic,
        TaxCategory::StandardRate,
        dec(19, 0),
    );
    assert_eq!(m.revenue_account, 4400);
    assert!(m.is_automatik);
}

#[test]
fn skr03_reduced_7() {
    let m = revenue_account(
        ChartOfAccounts::SKR03,
        VatScenario::Domestic,
        TaxCategory::StandardRate,
        dec(7, 0),
    );
    assert_eq!(m.revenue_account, 8300);
    assert!(m.is_automatik);
}

#[test]
fn skr03_export() {
    let m = revenue_account(
        ChartOfAccounts::SKR03,
        VatScenario::Export,
        TaxCategory::Export,
        dec(0, 0),
    );
    assert_eq!(m.revenue_account, 8120);
    assert!(m.is_automatik);
}

#[test]
fn revenue_account_by_value_not_scale() {
    let m = revenue_account(
        ChartOfAccounts::SKR04,
        VatScenario::Domestic,
        TaxCategory::StandardRate,
        dec(1900, 2),
    );
    assert_eq!(m.revenue_account, 4400);
    let other = revenue_account(
        ChartOfAccounts::SKR03,
        VatScenario::Domestic,
        TaxCategory::StandardRate,
        dec(16, 0),
    );
    assert_eq!(other.revenue_account, 8000);
    assert!(!other.is_automatik);
}

#[test]
fn lookup_by_name_exact() {
    let results = account_by_name(ChartOfAccounts::SKR03, "Erlöse 19% USt");
    assert_eq!(results.len(), 1);
    assert_eq!(results[0].number, 8400);
}

#[test]
fn lookup_by_name_partial() {
    let results = account_by_name(ChartOfAccounts::SKR03, "Erlöse");
    assert!(results.len() >= 5);
}

#[test]
fn lookup_by_name_case_insensitive() {
    let results = account_by_name(ChartOfAccounts::SKR03, "erlöse 19%");
    assert_eq!(results[0].number, 8400);
}

#[test]
fn lookup_by_name_skr04() {
    let results = account_by_name(ChartOfAccounts::SKR04, "Erlöse 19% USt");
    assert_eq!(results[0].number, 4400);
}

#[test]
fn lookup_by_name_no_match() {
    let results = account_by_name(ChartOfAccounts::SKR03, "nonexistent");
    assert!(results.is_empty());
}

#[test]
fn lookup_by_number() {
    let acc = account_by_number(ChartOfAccounts::SKR03, 8400).unwrap();
    assert_eq!(acc.name, "Erlöse 19% USt");
    assert!(acc.is_automatik);
}

#[test]
fn lookup_by_number_not_found() {
    assert!(account_by_number(ChartOfAccounts::SKR03, 9999).is_none());
}

#[test]
fn standard_19_returns_bu3() {
    assert_eq!(
        bu_schluessel(TaxCategory::StandardRate, dec(19, 0)),
        Some(BuSchluessel::UST_19())
    );
    assert_eq!(BuSchluessel::UST_19().0, 3);
}

#[test]
fn standard_7_returns_bu2() {
    assert_eq!(
        bu_schluessel(TaxCategory::StandardRate, dec(7, 0)),
        Some(BuSchluessel::UST_7())
    );
    assert_eq!(BuSchluessel::UST_7().0, 2);
}

#[test]
fn exempt_returns_none() {
    assert_eq!(bu_schluessel(TaxCategory::Exempt, dec(0, 0)), None);
}

#[test]
fn eu_delivery_returns_bu10() {
    assert_eq!(
        bu_schluessel(TaxCategory::IntraCommunitySupply, dec(0, 0)),
        Some(BuSchluessel::EU_DELIVERY())
    );
}

#[test]
fn reverse_charge_returns_bu44() {
    assert_eq!(
        bu_schluessel(TaxCategory::ReverseCharge, dec(19, 0)),
        Some(BuSchluessel::REVERSE_CHARGE_19())
    );
}

#[test]
fn format_amount_basic() {
    assert_eq!(format_amount(Dec::new(119000, 2)), "1190,00");
    assert_eq!(format_amount(Dec::new(2495, 2)), "24,95");
    assert_eq!(format_amount(Dec::new(100, 0)), "100,00");
}

#[test]
fn format_amount_rounds() {
    assert_eq!(format_amount(Dec::new(123456, 3)), "123,46");
}

#[test]
fn truncate_short() {
    assert_eq!(truncate("abc", 5), "abc");
}

#[test]
fn truncate_long() {
    assert_eq!(truncate("abcdef", 3), "abc");
}

#[test]
fn truncate_counts_characters() {
    assert_eq!(truncate("Erlöse", 4), "Erlö");
    assert_eq!(truncate("äbc", 2), "äb");
}
