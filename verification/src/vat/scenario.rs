//! Auto-detect the VAT scenario from invoice parties and tax categories.
use vstd::prelude::*;
use crate::decimal::{eq, le, lemma_value_eq_trans, value_eq, value_le, Dec};
use crate::model::codes::list_contains;
use crate::model::types::{Invoice, TaxCategory, VatScenario};
use crate::text::{ascii_upper, is_ascii_seq, str_eq, to_uppercase, unicode_upper};

verus! {

/// EU member state country codes (ISO 3166-1 alpha-2).
pub open spec fn eu_country_list() -> Seq<Seq<char>> {
    seq![
        "AT"@, "BE"@, "BG"@, "CY"@, "CZ"@, "DE"@, "DK"@, "EE"@, "ES"@, "FI"@, "FR"@, "GR"@,
        "HR"@, "HU"@, "IE"@, "IT"@, "LT"@, "LU"@, "LV"@, "MT"@, "NL"@, "PL"@, "PT"@, "RO"@,
        "SE"@, "SI"@, "SK"@,
    ]
}

fn eu_countries() -> (r: Vec<&'static str>)
    ensures
        r@.len() == eu_country_list().len(),
        forall|i: int| 0 <= i < r@.len() ==> #[trigger] r@[i]@ == eu_country_list()[i],
{
    vec![
        "AT", "BE", "BG", "CY", "CZ", "DE", "DK", "EE", "ES", "FI", "FR", "GR", "HR", "HU", "IE",
        "IT", "LT", "LU", "LV", "MT", "NL", "PL", "PT", "RO", "SE", "SI", "SK",
    ]
}

/// The 27 EU member states by their ISO 3166-1 alpha-2 codes (Greece as
/// `GR`).
pub open spec fn eu_member_state(c: Seq<char>) -> bool {
    ||| c == "AT"@
    ||| c == "BE"@
    ||| c == "BG"@
    ||| c == "CY"@
    ||| c == "CZ"@
    ||| c == "DE"@
    ||| c == "DK"@
    ||| c == "EE"@
    ||| c == "ES"@
    ||| c == "FI"@
    ||| c == "FR"@
    ||| c == "GR"@
    ||| c == "HR"@
    ||| c == "HU"@
    ||| c == "IE"@
    ||| c == "IT"@
    ||| c == "LT"@
    ||| c == "LU"@
    ||| c == "LV"@
    ||| c == "MT"@
    ||| c == "NL"@
    ||| c == "PL"@
    ||| c == "PT"@
    ||| c == "RO"@
    ||| c == "SE"@
    ||| c == "SI"@
    ||| c == "SK"@
}

/// The member-state list holds exactly the 27 EU member states.
pub proof fn lemma_eu_country_list(c: Seq<char>)
    ensures
        eu_country_list().len() == 27,
        eu_country_list().contains(c) <==> eu_member_state(c),
{
    let l = eu_country_list();
    assert(l[0] == "AT"@);
    assert(l[1] == "BE"@);
    assert(l[2] == "BG"@);
    assert(l[3] == "CY"@);
    assert(l[4] == "CZ"@);
    assert(l[5] == "DE"@);
    assert(l[6] == "DK"@);
    assert(l[7] == "EE"@);
    assert(l[8] == "ES"@);
    assert(l[9] == "FI"@);
    assert(l[10] == "FR"@);
    assert(l[11] == "GR"@);
    assert(l[12] == "HR"@);
    assert(l[13] == "HU"@);
    assert(l[14] == "IE"@);
    assert(l[15] == "IT"@);
    assert(l[16] == "LT"@);
    assert(l[17] == "LU"@);
    assert(l[18] == "LV"@);
    assert(l[19] == "MT"@);
    assert(l[20] == "NL"@);
    assert(l[21] == "PL"@);
    assert(l[22] == "PT"@);
    assert(l[23] == "RO"@);
    assert(l[24] == "SE"@);
    assert(l[25] == "SI"@);
    assert(l[26] == "SK"@);
    if eu_member_state(c) {
        if c == "AT"@ {
            assert(l[0] == c);
        }
        if c == "BE"@ {
            assert(l[1] == c);
        }
        if c == "BG"@ {
            assert(l[2] == c);
        }
        if c == "CY"@ {
            assert(l[3] == c);
        }
        if c == "CZ"@ {
            assert(l[4] == c);
        }
        if c == "DE"@ {
            assert(l[5] == c);
        }
        if c == "DK"@ {
            assert(l[6] == c);
        }
        if c == "EE"@ {
            assert(l[7] == c);
        }
        if c == "ES"@ {
            assert(l[8] == c);
        }
        if c == "FI"@ {
            assert(l[9] == c);
        }
        if c == "FR"@ {
            assert(l[10] == c);
        }
        if c == "GR"@ {
            assert(l[11] == c);
        }
        if c == "HR"@ {
            assert(l[12] == c);
        }
        if c == "HU"@ {
            assert(l[13] == c);
        }
        if c == "IE"@ {
            assert(l[14] == c);
        }
        if c == "IT"@ {
            assert(l[15] == c);
        }
        if c == "LT"@ {
            assert(l[16] == c);
        }
        if c == "LU"@ {
            assert(l[17] == c);
        }
        if c == "LV"@ {
            assert(l[18] == c);
        }
        if c == "MT"@ {
            assert(l[19] == c);
        }
        if c == "NL"@ {
            assert(l[20] == c);
        }
        if c == "PL"@ {
            assert(l[21] == c);
        }
        if c == "PT"@ {
            assert(l[22] == c);
        }
        if c == "RO"@ {
            assert(l[23] == c);
        }
        if c == "SE"@ {
            assert(l[24] == c);
        }
        if c == "SI"@ {
            assert(l[25] == c);
        }
        if c == "SK"@ {
            assert(l[26] == c);
        }
    }
}

/// The country, upper-cased, is an EU member state.
pub open spec fn is_eu_spec(country: Seq<char>) -> bool {
    eu_country_list().contains(unicode_upper(country))
}

/// Whether `country` (upper-cased) is an EU member state.
pub fn is_eu(country: &str) -> (r: bool)
    ensures
        r == is_eu_spec(country@),
        is_ascii_seq(country@) ==> (r <==> eu_member_state(country@.map_values(|c: char| ascii_upper(c)))),
{
    let upper = to_uppercase(country);
    proof {
        lemma_eu_country_list(upper@);
    }
    let list = eu_countries();
    let r = list_contains(&list, upper.as_str());
    proof {
        if r {
            let i = choose|i: int| 0 <= i < list@.len() && #[trigger] list@[i]@ == upper@;
            assert(eu_country_list()[i] == upper@);
        }
        if eu_country_list().contains(upper@) {
            let i = choose|i: int| 0 <= i < eu_country_list().len() && eu_country_list()[i] == upper@;
            assert(list@[i]@ == upper@);
        }
    }
    r
}

/// Some line uses category `c`.
pub open spec fn some_line_has(inv: Invoice, c: TaxCategory) -> bool {
    exists|i: int| 0 <= i < inv.lines@.len() && #[trigger] inv.lines@[i].tax_category == c
}

/// Every line is exempt or not subject to VAT.
pub open spec fn all_lines_exempt(inv: Invoice) -> bool {
    forall|i: int|
        0 <= i < inv.lines@.len() ==> (#[trigger] inv.lines@[i].tax_category
            == TaxCategory::Exempt || inv.lines@[i].tax_category == TaxCategory::NotSubjectToVat)
}

/// Two lines have numerically different tax rates.
pub open spec fn distinct_rates(inv: Invoice) -> bool {
    exists|i: int, j: int|
        0 <= i < inv.lines@.len() && 0 <= j < inv.lines@.len() && !value_eq(
            #[trigger] inv.lines@[i].tax_rate@,
            #[trigger] inv.lines@[j].tax_rate@,
        )
}

/// The scenario `determine_scenario` chooses.
pub open spec fn scenario_spec(inv: Invoice) -> VatScenario {
    let sc = unicode_upper(inv.seller.address.country_code@);
    let bc = unicode_upper(inv.buyer.address.country_code@);
    let seller_eu = is_eu_spec(sc);
    let buyer_eu = is_eu_spec(bc);
    if inv.totals matches Some(t) && value_le(t.gross_total@, (250i128, 0u32)) {
        VatScenario::SmallInvoice
    } else if some_line_has(inv, TaxCategory::ReverseCharge) {
        VatScenario::ReverseCharge
    } else if seller_eu && !buyer_eu {
        VatScenario::Export
    } else if seller_eu && buyer_eu && sc != bc && inv.buyer.vat_id is Some {
        VatScenario::IntraCommunitySupply
    } else if inv.lines@.len() > 0 && all_lines_exempt(inv) {
        VatScenario::Kleinunternehmer
    } else if distinct_rates(inv) {
        VatScenario::Mixed
    } else {
        VatScenario::Domestic
    }
}

fn has_category(inv: &Invoice, c: TaxCategory) -> (r: bool)
    ensures
        r == some_line_has(*inv, c),
{
    let mut i: usize = 0;
    while i < inv.lines.len()
        invariant
            i <= inv.lines@.len(),
            forall|k: int| 0 <= k < i ==> #[trigger] inv.lines@[k].tax_category != c,
        decreases inv.lines.len() - i,
    {
        if inv.lines[i].tax_category == c {
            return true;
        }
        i = i + 1;
    }
    false
}

fn all_exempt(inv: &Invoice) -> (r: bool)
    ensures
        r == all_lines_exempt(*inv),
{
    let mut i: usize = 0;
    while i < inv.lines.len()
        invariant
            i <= inv.lines@.len(),
            forall|k: int|
                0 <= k < i ==> (#[trigger] inv.lines@[k].tax_category == TaxCategory::Exempt
                    || inv.lines@[k].tax_category == TaxCategory::NotSubjectToVat),
        decreases inv.lines.len() - i,
    {
        let c = inv.lines[i].tax_category;
        if !(c == TaxCategory::Exempt || c == TaxCategory::NotSubjectToVat) {
            return false;
        }
        i = i + 1;
    }
    true
}

fn has_distinct_rates(inv: &Invoice) -> (r: bool)
    ensures
        r == distinct_rates(*inv),
{
    let n = inv.lines.len();
    if n == 0 {
        return false;
    }
    let mut i: usize = 1;
    while i < n
        invariant
            n == inv.lines@.len(),
            1 <= i <= n,
            forall|k: int|
                0 <= k < i ==> value_eq(#[trigger] inv.lines@[k].tax_rate@, inv.lines@[0].tax_rate@),
        decreases n - i,
    {
        if !eq(&inv.lines[i].tax_rate, &inv.lines[0].tax_rate) {
            return true;
        }
        i = i + 1;
    }
    proof {
        if distinct_rates(*inv) {
            let (a, b) = choose|a: int, b: int|
                0 <= a < inv.lines@.len() && 0 <= b < inv.lines@.len() && !value_eq(
                    #[trigger] inv.lines@[a].tax_rate@,
                    #[trigger] inv.lines@[b].tax_rate@,
                );
            let r0 = inv.lines@[0].tax_rate@;
            assert(value_eq(inv.lines@[a].tax_rate@, r0));
            assert(value_eq(inv.lines@[b].tax_rate@, r0));
            lemma_value_eq_trans(inv.lines@[b].tax_rate@, r0, r0);
            lemma_value_eq_trans(inv.lines@[a].tax_rate@, r0, inv.lines@[b].tax_rate@);
        }
    }
    false
}

/// Determine the VAT scenario for an invoice based on seller/buyer country
/// codes, VAT IDs, tax categories, and gross total.
///
/// This is a best-effort heuristic; the caller can always override the result
/// by setting `invoice.vat_scenario`. In order: a gross total of at most 250 is a
/// small invoice; a reverse-charge line makes reverse charge; an EU seller with
/// a non-EU buyer is an export; EU parties in different countries with a buyer
/// VAT ID are an intra-community supply; all lines exempt or not subject to VAT
/// is Kleinunternehmer; more than one distinct tax rate is mixed; otherwise
/// domestic.
pub fn determine_scenario(invoice: &Invoice) -> (r: VatScenario)
    ensures
        r == scenario_spec(*invoice),
{
    let seller_country = to_uppercase(invoice.seller.address.country_code.as_str());
    let buyer_country = to_uppercase(invoice.buyer.address.country_code.as_str());
    let seller_eu = is_eu(seller_country.as_str());
    let buyer_eu = is_eu(buyer_country.as_str());
    match &invoice.totals {
        Some(t) => {
            if le(&t.gross_total, &Dec::new(250, 0)) {
                return VatScenario::SmallInvoice;
            }
        },
        None => {},
    }
    if has_category(invoice, TaxCategory::ReverseCharge) {
        return VatScenario::ReverseCharge;
    }
    if seller_eu && !buyer_eu {
        return VatScenario::Export;
    }
    if seller_eu && buyer_eu && !str_eq(seller_country.as_str(), buyer_country.as_str())
        && invoice.buyer.vat_id.is_some() {
        return VatScenario::IntraCommunitySupply;
    }
    if invoice.lines.len() > 0 && all_exempt(invoice) {
        return VatScenario::Kleinunternehmer;
    }
    if has_distinct_rates(invoice) {
        return VatScenario::Mixed;
    }
    VatScenario::Domestic
}

} // verus!
