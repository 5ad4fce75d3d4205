//! Code lists: countries, currencies, units of measure, allowance and charge reasons.
use vstd::prelude::*;
use crate::text::str_eq;

verus! {

/// Whether `code` is one of `list`, compared by characters.
pub fn list_contains(list: &Vec<&'static str>, code: &str) -> (r: bool)
    ensures
        r == exists|i: int| 0 <= i < list@.len() && #[trigger] list@[i]@ == code@,
{
    let mut i: usize = 0;
    while i < list.len()
        invariant
            i <= list.len(),
            forall|j: int| 0 <= j < i ==> #[trigger] list@[j]@ != code@,
        decreases list.len() - i,
    {
        if str_eq(list[i], code) {
            return true;
        }
        i = i + 1;
    }
    false
}

/// The ISO 3166-1 alpha-2 country codes (sorted, 249 entries).
pub open spec fn country_code_list() -> Seq<Seq<char>> {
    seq!["AD"@, "AE"@, "AF"@, "AG"@, "AI"@, "AL"@, "AM"@, "AO"@, "AQ"@, "AR"@, "AS"@, "AT"@, "AU"@, "AW"@, "AX"@, "AZ"@, "BA"@, "BB"@, "BD"@, "BE"@, "BF"@, "BG"@, "BH"@, "BI"@, "BJ"@, "BL"@, "BM"@, "BN"@, "BO"@, "BQ"@, "BR"@, "BS"@, "BT"@, "BV"@, "BW"@, "BY"@, "BZ"@, "CA"@, "CC"@, "CD"@, "CF"@, "CG"@, "CH"@, "CI"@, "CK"@, "CL"@, "CM"@, "CN"@, "CO"@, "CR"@, "CU"@, "CV"@, "CW"@, "CX"@, "CY"@, "CZ"@, "DE"@, "DJ"@, "DK"@, "DM"@, "DO"@, "DZ"@, "EC"@, "EE"@, "EG"@, "EH"@, "ER"@, "ES"@, "ET"@, "FI"@, "FJ"@, "FK"@, "FM"@, "FO"@, "FR"@, "GA"@, "GB"@, "GD"@, "GE"@, "GF"@, "GG"@, "GH"@, "GI"@, "GL"@, "GM"@, "GN"@, "GP"@, "GQ"@, "GR"@, "GS"@, "GT"@, "GU"@, "GW"@, "GY"@, "HK"@, "HM"@, "HN"@, "HR"@, "HT"@, "HU"@, "ID"@, "IE"@, "IL"@, "IM"@, "IN"@, "IO"@, "IQ"@, "IR"@, "IS"@, "IT"@, "JE"@, "JM"@, "JO"@, "JP"@, "KE"@, "KG"@, "KH"@, "KI"@, "KM"@, "KN"@, "KP"@, "KR"@, "KW"@, "KY"@, "KZ"@, "LA"@, "LB"@, "LC"@, "LI"@, "LK"@, "LR"@, "LS"@, "LT"@, "LU"@, "LV"@, "LY"@, "MA"@, "MC"@, "MD"@, "ME"@, "MF"@, "MG"@, "MH"@, "MK"@, "ML"@, "MM"@, "MN"@, "MO"@, "MP"@, "MQ"@, "MR"@, "MS"@, "MT"@, "MU"@, "MV"@, "MW"@, "MX"@, "MY"@, "MZ"@, "NA"@, "NC"@, "NE"@, "NF"@, "NG"@, "NI"@, "NL"@, "NO"@, "NP"@, "NR"@, "NU"@, "NZ"@, "OM"@, "PA"@, "PE"@, "PF"@, "PG"@, "PH"@, "PK"@, "PL"@, "PM"@, "PN"@, "PR"@, "PS"@, "PT"@, "PW"@, "PY"@, "QA"@, "RE"@, "RO"@, "RS"@, "RU"@, "RW"@, "SA"@, "SB"@, "SC"@, "SD"@, "SE"@, "SG"@, "SH"@, "SI"@, "SJ"@, "SK"@, "SL"@, "SM"@, "SN"@, "SO"@, "SR"@, "SS"@, "ST"@, "SV"@, "SX"@, "SY"@, "SZ"@, "TC"@, "TD"@, "TF"@, "TG"@, "TH"@, "TJ"@, "TK"@, "TL"@, "TM"@, "TN"@, "TO"@, "TR"@, "TT"@, "TV"@, "TW"@, "TZ"@, "UA"@, "UG"@, "UM"@, "US"@, "UY"@, "UZ"@, "VA"@, "VC"@, "VE"@, "VG"@, "VI"@, "VN"@, "VU"@, "WF"@, "WS"@, "YE"@, "YT"@, "ZA"@, "ZM"@, "ZW"@]
}

/// The ISO 3166-1 alpha-2 country codes, in sorted order.
pub fn known_country_codes() -> (r: Vec<&'static str>)
    ensures
        r@.len() == country_code_list().len(),
        forall|i: int| 0 <= i < r@.len() ==> #[trigger] r@[i]@ == country_code_list()[i],
{
    let r: Vec<&'static str> = vec!["AD", "AE", "AF", "AG", "AI", "AL", "AM", "AO", "AQ", "AR", "AS", "AT", "AU", "AW", "AX", "AZ", "BA", "BB", "BD", "BE", "BF", "BG", "BH", "BI", "BJ", "BL", "BM", "BN", "BO", "BQ", "BR", "BS", "BT", "BV", "BW", "BY", "BZ", "CA", "CC", "CD", "CF", "CG", "CH", "CI", "CK", "CL", "CM", "CN", "CO", "CR", "CU", "CV", "CW", "CX", "CY", "CZ", "DE", "DJ", "DK", "DM", "DO", "DZ", "EC", "EE", "EG", "EH", "ER", "ES", "ET", "FI", "FJ", "FK", "FM", "FO", "FR", "GA", "GB", "GD", "GE", "GF", "GG", "GH", "GI", "GL", "GM", "GN", "GP", "GQ", "GR", "GS", "GT", "GU", "GW", "GY", "HK", "HM", "HN", "HR", "HT", "HU", "ID", "IE", "IL", "IM", "IN", "IO", "IQ", "IR", "IS", "IT", "JE", "JM", "JO", "JP", "KE", "KG", "KH", "KI", "KM", "KN", "KP", "KR", "KW", "KY", "KZ", "LA", "LB", "LC", "LI", "LK", "LR", "LS", "LT", "LU", "LV", "LY", "MA", "MC", "MD", "ME", "MF", "MG", "MH", "MK", "ML", "MM", "MN", "MO", "MP", "MQ", "MR", "MS", "MT", "MU", "MV", "MW", "MX", "MY", "MZ", "NA", "NC", "NE", "NF", "NG", "NI", "NL", "NO", "NP", "NR", "NU", "NZ", "OM", "PA", "PE", "PF", "PG", "PH", "PK", "PL", "PM", "PN", "PR", "PS", "PT", "PW", "PY", "QA", "RE", "RO", "RS", "RU", "RW", "SA", "SB", "SC", "SD", "SE", "SG", "SH", "SI", "SJ", "SK", "SL", "SM", "SN", "SO", "SR", "SS", "ST", "SV", "SX", "SY", "SZ", "TC", "TD", "TF", "TG", "TH", "TJ", "TK", "TL", "TM", "TN", "TO", "TR", "TT", "TV", "TW", "TZ", "UA", "UG", "UM", "US", "UY", "UZ", "VA", "VC", "VE", "VG", "VI", "VN", "VU", "WF", "WS", "YE", "YT", "ZA", "ZM", "ZW"];
    r
}

/// Whether `code` is one of the ISO 3166-1 alpha-2 country codes.
pub fn is_known_country_code(code: &str) -> (r: bool)
    ensures
        r == country_code_list().contains(code@),
{
    let list = known_country_codes();
    let r = list_contains(&list, code);
    proof {
        if r {
            let i = choose|i: int| 0 <= i < list@.len() && #[trigger] list@[i]@ == code@;
            assert(country_code_list()[i] == code@);
        }
        if country_code_list().contains(code@) {
            let i = choose|i: int| 0 <= i < country_code_list().len() && country_code_list()[i] == code@;
            assert(list@[i]@ == code@);
        }
    }
    r
}

/// The common ISO 4217 currency codes (sorted, 44 entries).
pub open spec fn currency_code_list() -> Seq<Seq<char>> {
    seq!["AED"@, "AMD"@, "AUD"@, "BGN"@, "BRL"@, "CAD"@, "CHF"@, "CNY"@, "CZK"@, "DKK"@, "EGP"@, "EUR"@, "GBP"@, "GEL"@, "HKD"@, "HRK"@, "HUF"@, "IDR"@, "ILS"@, "INR"@, "ISK"@, "JPY"@, "KES"@, "KRW"@, "KZT"@, "MXN"@, "MYR"@, "NGN"@, "NOK"@, "NZD"@, "PHP"@, "PLN"@, "RON"@, "RUB"@, "SAR"@, "SEK"@, "SGD"@, "THB"@, "TRY"@, "TWD"@, "UAH"@, "USD"@, "VND"@, "ZAR"@]
}

/// The common ISO 4217 currency codes, in sorted order.
pub fn known_currency_codes() -> (r: Vec<&'static str>)
    ensures
        r@.len() == currency_code_list().len(),
        forall|i: int| 0 <= i < r@.len() ==> #[trigger] r@[i]@ == currency_code_list()[i],
{
    let r: Vec<&'static str> = vec!["AED", "AMD", "AUD", "BGN", "BRL", "CAD", "CHF", "CNY", "CZK", "DKK", "EGP", "EUR", "GBP", "GEL", "HKD", "HRK", "HUF", "IDR", "ILS", "INR", "ISK", "JPY", "KES", "KRW", "KZT", "MXN", "MYR", "NGN", "NOK", "NZD", "PHP", "PLN", "RON", "RUB", "SAR", "SEK", "SGD", "THB", "TRY", "TWD", "UAH", "USD", "VND", "ZAR"];
    r
}

/// Whether `code` is one of the common ISO 4217 currency codes.
pub fn is_known_currency_code(code: &str) -> (r: bool)
    ensures
        r == currency_code_list().contains(code@),
{
    let list = known_currency_codes();
    let r = list_contains(&list, code);
    proof {
        if r {
            let i = choose|i: int| 0 <= i < list@.len() && #[trigger] list@[i]@ == code@;
            assert(currency_code_list()[i] == code@);
        }
        if currency_code_list().contains(code@) {
            let i = choose|i: int| 0 <= i < currency_code_list().len() && currency_code_list()[i] == code@;
            assert(list@[i]@ == code@);
        }
    }
    r
}

/// The common UN/CEFACT Recommendation 20 unit codes (sorted, 87 entries).
pub open spec fn unit_code_list() -> Seq<Seq<char>> {
    seq!["2N"@, "4K"@, "ANN"@, "BAR"@, "BLL"@, "BX"@, "C62"@, "CCM"@, "CLT"@, "CMK"@, "CMT"@, "CS"@, "CT"@, "DAY"@, "DMQ"@, "DMT"@, "DZN"@, "EA"@, "FOT"@, "GLL"@, "GM"@, "GRM"@, "GRO"@, "GWH"@, "HAR"@, "HLT"@, "HUR"@, "INH"@, "JOU"@, "KGM"@, "KGS"@, "KHZ"@, "KMH"@, "KMT"@, "KTM"@, "KVA"@, "KVT"@, "KWH"@, "KWT"@, "LBR"@, "LE"@, "LM"@, "LPA"@, "LS"@, "LTR"@, "MAW"@, "MBR"@, "MGM"@, "MHZ"@, "MIN"@, "MLT"@, "MMK"@, "MMT"@, "MON"@, "MQH"@, "MTK"@, "MTQ"@, "MTR"@, "MTS"@, "MWH"@, "NAR"@, "NPR"@, "P1"@, "PA"@, "PK"@, "PR"@, "QTI"@, "RO"@, "SA"@, "SEC"@, "SET"@, "SMI"@, "ST"@, "STN"@, "TNE"@, "WEE"@, "XBD"@, "XBG"@, "XBX"@, "XCT"@, "XPA"@, "XPK"@, "XPX"@, "XRO"@, "XSA"@, "XST"@, "YRD"@]
}

/// The common UN/CEFACT Recommendation 20 unit codes, in sorted order.
pub fn known_unit_codes() -> (r: Vec<&'static str>)
    ensures
        r@.len() == unit_code_list().len(),
        forall|i: int| 0 <= i < r@.len() ==> #[trigger] r@[i]@ == unit_code_list()[i],
{
    let r: Vec<&'static str> = vec!["2N", "4K", "ANN", "BAR", "BLL", "BX", "C62", "CCM", "CLT", "CMK", "CMT", "CS", "CT", "DAY", "DMQ", "DMT", "DZN", "EA", "FOT", "GLL", "GM", "GRM", "GRO", "GWH", "HAR", "HLT", "HUR", "INH", "JOU", "KGM", "KGS", "KHZ", "KMH", "KMT", "KTM", "KVA", "KVT", "KWH", "KWT", "LBR", "LE", "LM", "LPA", "LS", "LTR", "MAW", "MBR", "MGM", "MHZ", "MIN", "MLT", "MMK", "MMT", "MON", "MQH", "MTK", "MTQ", "MTR", "MTS", "MWH", "NAR", "NPR", "P1", "PA", "PK", "PR", "QTI", "RO", "SA", "SEC", "SET", "SMI", "ST", "STN", "TNE", "WEE", "XBD", "XBG", "XBX", "XCT", "XPA", "XPK", "XPX", "XRO", "XSA", "XST", "YRD"];
    r
}

/// Whether `code` is one of the common UN/CEFACT Recommendation 20 unit codes.
pub fn is_known_unit_code(code: &str) -> (r: bool)
    ensures
        r == unit_code_list().contains(code@),
{
    let list = known_unit_codes();
    let r = list_contains(&list, code);
    proof {
        if r {
            let i = choose|i: int| 0 <= i < list@.len() && #[trigger] list@[i]@ == code@;
            assert(unit_code_list()[i] == code@);
        }
        if unit_code_list().contains(code@) {
            let i = choose|i: int| 0 <= i < unit_code_list().len() && unit_code_list()[i] == code@;
            assert(list@[i]@ == code@);
        }
    }
    r
}

/// The UNTDID 5189 allowance reason codes (sorted, 19 entries).
pub open spec fn allowance_reason_code_list() -> Seq<Seq<char>> {
    seq!["100"@, "102"@, "103"@, "104"@, "105"@, "41"@, "42"@, "60"@, "62"@, "63"@, "64"@, "65"@, "66"@, "67"@, "68"@, "70"@, "71"@, "88"@, "95"@]
}

/// The UNTDID 5189 allowance reason codes, in sorted order.
pub fn known_allowance_reasons() -> (r: Vec<&'static str>)
    ensures
        r@.len() == allowance_reason_code_list().len(),
        forall|i: int| 0 <= i < r@.len() ==> #[trigger] r@[i]@ == allowance_reason_code_list()[i],
{
    let r: Vec<&'static str> = vec!["100", "102", "103", "104", "105", "41", "42", "60", "62", "63", "64", "65", "66", "67", "68", "70", "71", "88", "95"];
    r
}

/// Whether `code` is one of the UNTDID 5189 allowance reason codes.
pub fn is_known_allowance_reason(code: &str) -> (r: bool)
    ensures
        r == allowance_reason_code_list().contains(code@),
{
    let list = known_allowance_reasons();
    let r = list_contains(&list, code);
    proof {
        if r {
            let i = choose|i: int| 0 <= i < list@.len() && #[trigger] list@[i]@ == code@;
            assert(allowance_reason_code_list()[i] == code@);
        }
        if allowance_reason_code_list().contains(code@) {
            let i = choose|i: int| 0 <= i < allowance_reason_code_list().len() && allowance_reason_code_list()[i] == code@;
            assert(list@[i]@ == code@);
        }
    }
    r
}

/// The UNTDID 7161 charge reason codes (sorted, 17 entries).
pub open spec fn charge_reason_code_list() -> Seq<Seq<char>> {
    seq!["AA"@, "AAA"@, "AAC"@, "AAD"@, "AAE"@, "AAF"@, "ABK"@, "ABL"@, "ADR"@, "ADT"@, "AEW"@, "FC"@, "FI"@, "FL"@, "LA"@, "PC"@, "TS"@]
}

/// The UNTDID 7161 charge reason codes, in sorted order.
pub fn known_charge_reasons() -> (r: Vec<&'static str>)
    ensures
        r@.len() == charge_reason_code_list().len(),
        forall|i: int| 0 <= i < r@.len() ==> #[trigger] r@[i]@ == charge_reason_code_list()[i],
{
    let r: Vec<&'static str> = vec!["AA", "AAA", "AAC", "AAD", "AAE", "AAF", "ABK", "ABL", "ADR", "ADT", "AEW", "FC", "FI", "FL", "LA", "PC", "TS"];
    r
}

/// Whether `code` is one of the UNTDID 7161 charge reason codes.
pub fn is_known_charge_reason(code: &str) -> (r: bool)
    ensures
        r == charge_reason_code_list().contains(code@),
{
    let list = known_charge_reasons();
    let r = list_contains(&list, code);
    proof {
        if r {
            let i = choose|i: int| 0 <= i < list@.len() && #[trigger] list@[i]@ == code@;
            assert(charge_reason_code_list()[i] == code@);
        }
        if charge_reason_code_list().contains(code@) {
            let i = choose|i: int| 0 <= i < charge_reason_code_list().len() && charge_reason_code_list()[i] == code@;
            assert(list@[i]@ == code@);
        }
    }
    r
}

} // verus!
