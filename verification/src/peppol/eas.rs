//! Electronic Address Scheme (EAS) codes for Peppol EndpointID.
use vstd::prelude::*;
use crate::text::{str_eq, to_uppercase, unicode_upper};

verus! {

/// Common EAS (Electronic Address Scheme) codes for Peppol participant identification.
#[derive(Debug, Clone, Copy, PartialEq, Eq)]
pub struct EasScheme {
    /// The numeric scheme code (e.g. "0088", "9930").
    pub code: &'static str,
    /// Human-readable description.
    pub description: &'static str,
}

#[allow(non_snake_case)]
impl EasScheme {
    /// GS1 GLN (Global Location Number) — international.
    pub fn GLN() -> (r: EasScheme)
        ensures
            r.code@ == "0088"@,
            r.description@ == "GS1 GLN"@,
    {
        EasScheme { code: "0088", description: "GS1 GLN" }
    }

    /// German Leitweg-ID (public sector routing).
    pub fn LEITWEG_ID() -> (r: EasScheme)
        ensures
            r.code@ == "0204"@,
            r.description@ == "Leitweg-ID"@,
    {
        EasScheme { code: "0204", description: "Leitweg-ID" }
    }

    /// Belgian enterprise number.
    pub fn BE_EN() -> (r: EasScheme)
        ensures
            r.code@ == "0208"@,
            r.description@ == "Belgian enterprise number"@,
    {
        EasScheme { code: "0208", description: "Belgian enterprise number" }
    }

    /// DIGSTORG (Denmark).
    pub fn DK_DIGST() -> (r: EasScheme)
        ensures
            r.code@ == "0184"@,
            r.description@ == "DIGSTORG"@,
    {
        EasScheme { code: "0184", description: "DIGSTORG" }
    }

    /// Dutch OIN.
    pub fn NL_OIN() -> (r: EasScheme)
        ensures
            r.code@ == "0190"@,
            r.description@ == "Dutch OIN"@,
    {
        EasScheme { code: "0190", description: "Dutch OIN" }
    }

    /// Dutch KvK.
    pub fn NL_KVK() -> (r: EasScheme)
        ensures
            r.code@ == "0106"@,
            r.description@ == "Dutch KvK"@,
    {
        EasScheme { code: "0106", description: "Dutch KvK" }
    }

    /// Italian Codice Fiscale.
    pub fn IT_CF() -> (r: EasScheme)
        ensures
            r.code@ == "0210"@,
            r.description@ == "Italian Codice Fiscale"@,
    {
        EasScheme { code: "0210", description: "Italian Codice Fiscale" }
    }

    /// Italian Partita IVA.
    pub fn IT_IVA() -> (r: EasScheme)
        ensures
            r.code@ == "0211"@,
            r.description@ == "Italian Partita IVA"@,
    {
        EasScheme { code: "0211", description: "Italian Partita IVA" }
    }

    /// German VAT number (DE + 9 digits).
    pub fn DE_VAT() -> (r: EasScheme)
        ensures
            r.code@ == "9930"@,
            r.description@ == "German VAT number"@,
    {
        EasScheme { code: "9930", description: "German VAT number" }
    }

    /// Austrian VAT number.
    pub fn AT_VAT() -> (r: EasScheme)
        ensures
            r.code@ == "9914"@,
            r.description@ == "Austrian VAT number"@,
    {
        EasScheme { code: "9914", description: "Austrian VAT number" }
    }

    /// Belgian VAT number.
    pub fn BE_VAT() -> (r: EasScheme)
        ensures
            r.code@ == "9925"@,
            r.description@ == "Belgian VAT number"@,
    {
        EasScheme { code: "9925", description: "Belgian VAT number" }
    }

    /// French VAT number.
    pub fn FR_VAT() -> (r: EasScheme)
        ensures
            r.code@ == "9957"@,
            r.description@ == "French VAT number"@,
    {
        EasScheme { code: "9957", description: "French VAT number" }
    }

    /// Italian VAT number.
    pub fn IT_VAT() -> (r: EasScheme)
        ensures
            r.code@ == "9906"@,
            r.description@ == "Italian VAT number"@,
    {
        EasScheme { code: "9906", description: "Italian VAT number" }
    }

    /// Dutch VAT number.
    pub fn NL_VAT() -> (r: EasScheme)
        ensures
            r.code@ == "9944"@,
            r.description@ == "Dutch VAT number"@,
    {
        EasScheme { code: "9944", description: "Dutch VAT number" }
    }

    /// Finnish OVT.
    pub fn FI_OVT() -> (r: EasScheme)
        ensures
            r.code@ == "0037"@,
            r.description@ == "Finnish OVT"@,
    {
        EasScheme { code: "0037", description: "Finnish OVT" }
    }

    /// Swedish Org number.
    pub fn SE_ORG() -> (r: EasScheme)
        ensures
            r.code@ == "0007"@,
            r.description@ == "Swedish Org number"@,
    {
        EasScheme { code: "0007", description: "Swedish Org number" }
    }

    /// Norwegian Org number.
    pub fn NO_ORG() -> (r: EasScheme)
        ensures
            r.code@ == "0192"@,
            r.description@ == "Norwegian Org number"@,
    {
        EasScheme { code: "0192", description: "Norwegian Org number" }
    }
}

/// Code and description of the default scheme of a country (upper-cased).
pub open spec fn eas_spec(country_code: Seq<char>) -> Option<(Seq<char>, Seq<char>)> {
    let u = unicode_upper(country_code);
    if u == "DE"@ {
        Some(("0204"@, "Leitweg-ID"@))
    } else if u == "AT"@ {
        Some(("9914"@, "Austrian VAT number"@))
    } else if u == "BE"@ {
        Some(("0208"@, "Belgian enterprise number"@))
    } else if u == "DK"@ {
        Some(("0184"@, "DIGSTORG"@))
    } else if u == "FI"@ {
        Some(("0037"@, "Finnish OVT"@))
    } else if u == "FR"@ {
        Some(("9957"@, "French VAT number"@))
    } else if u == "IT"@ {
        Some(("0210"@, "Italian Codice Fiscale"@))
    } else if u == "NL"@ {
        Some(("0190"@, "Dutch OIN"@))
    } else if u == "NO"@ {
        Some(("0192"@, "Norwegian Org number"@))
    } else if u == "SE"@ {
        Some(("0007"@, "Swedish Org number"@))
    } else {
        None
    }
}

/// Return the default EAS scheme for a given country code.
///
/// For Germany this is the Leitweg-ID scheme used by the public sector;
/// use `EasScheme::DE_VAT` for B2B.
pub fn eas_scheme_for_country(country_code: &str) -> (r: Option<EasScheme>)
    ensures
        match (r, eas_spec(country_code@)) {
            (Some(s), Some((c, d))) => s.code@ == c && s.description@ == d,
            (None, None) => true,
            _ => false,
        },
{
    let u = to_uppercase(country_code);
    if str_eq(u.as_str(), "DE") {
        Some(EasScheme::LEITWEG_ID())
    } else if str_eq(u.as_str(), "AT") {
        Some(EasScheme::AT_VAT())
    } else if str_eq(u.as_str(), "BE") {
        Some(EasScheme::BE_EN())
    } else if str_eq(u.as_str(), "DK") {
        Some(EasScheme::DK_DIGST())
    } else if str_eq(u.as_str(), "FI") {
        Some(EasScheme::FI_OVT())
    } else if str_eq(u.as_str(), "FR") {
        Some(EasScheme::FR_VAT())
    } else if str_eq(u.as_str(), "IT") {
        Some(EasScheme::IT_CF())
    } else if str_eq(u.as_str(), "NL") {
        Some(EasScheme::NL_OIN())
    } else if str_eq(u.as_str(), "NO") {
        Some(EasScheme::NO_ORG())
    } else if str_eq(u.as_str(), "SE") {
        Some(EasScheme::SE_ORG())
    } else {
        None
    }
}

} // verus!
