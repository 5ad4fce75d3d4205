//! BU-Schlüssel (Buchungsschlüssel / tax posting keys) for DATEV.
use vstd::prelude::*;
use crate::decimal::{eq, value_eq, Dec};
use crate::model::types::TaxCategory;

verus! {

/// DATEV BU-Schlüssel (tax posting key).
///
/// Used in field 9 of the Buchungsstapel to indicate the tax treatment.
/// When using Automatikkonten, the BU key can be omitted.
#[derive(Debug, Clone, Copy, PartialEq, Eq, Structural)]
pub struct BuSchluessel(pub u8);

#[allow(non_snake_case)]
impl BuSchluessel {
    /// USt 19% (output tax, standard rate).
    pub fn UST_19() -> (r: BuSchluessel)
        ensures
            r.0 == 3,
    {
        BuSchluessel(3)
    }

    /// USt 7% (output tax, reduced rate).
    pub fn UST_7() -> (r: BuSchluessel)
        ensures
            r.0 == 2,
    {
        BuSchluessel(2)
    }

    /// VSt 19% (input tax, standard rate).
    pub fn VST_19() -> (r: BuSchluessel)
        ensures
            r.0 == 9,
    {
        BuSchluessel(9)
    }

    /// VSt 7% (input tax, reduced rate).
    pub fn VST_7() -> (r: BuSchluessel)
        ensures
            r.0 == 8,
    {
        BuSchluessel(8)
    }

    /// Tax-free intra-community delivery.
    pub fn EU_DELIVERY() -> (r: BuSchluessel)
        ensures
            r.0 == 10,
    {
        BuSchluessel(10)
    }

    /// Intra-community acquisition 19%.
    pub fn EU_ACQUISITION_19() -> (r: BuSchluessel)
        ensures
            r.0 == 12,
    {
        BuSchluessel(12)
    }

    /// Intra-community acquisition 7%.
    pub fn EU_ACQUISITION_7() -> (r: BuSchluessel)
        ensures
            r.0 == 13,
    {
        BuSchluessel(13)
    }

    /// Reverse charge §13b 19%.
    pub fn REVERSE_CHARGE_19() -> (r: BuSchluessel)
        ensures
            r.0 == 44,
    {
        BuSchluessel(44)
    }
}

/// The key for an output tax posting, `None` where none is needed.
pub open spec fn bu_spec(category: TaxCategory, rate: (i128, u32)) -> Option<u8> {
    match category {
        TaxCategory::StandardRate => if value_eq(rate, (19i128, 0u32)) {
            Some(3u8)
        } else if value_eq(rate, (7i128, 0u32)) {
            Some(2u8)
        } else {
            None
        },
        TaxCategory::IntraCommunitySupply => Some(10u8),
        TaxCategory::ReverseCharge => Some(44u8),
        _ => None,
    }
}

/// Determine the BU-Schlüssel for an output tax (sales) posting.
///
/// Returns `None` for tax-free, exempt, export and not-taxable postings, and
/// for a standard-rate posting at a rate other than 19 % or 7 %.
pub fn bu_schluessel(category: TaxCategory, rate: Dec) -> (r: Option<BuSchluessel>)
    ensures
        match (r, bu_spec(category, rate@)) {
            (Some(k), Some(code)) => k.0 == code,
            (None, None) => true,
            _ => false,
        },
{
    match category {
        TaxCategory::StandardRate => {
            if eq(&rate, &Dec::new(19, 0)) {
                Some(BuSchluessel::UST_19())
            } else if eq(&rate, &Dec::new(7, 0)) {
                Some(BuSchluessel::UST_7())
            } else {
                None
            }
        },
        TaxCategory::IntraCommunitySupply => Some(BuSchluessel::EU_DELIVERY()),
        TaxCategory::ReverseCharge => Some(BuSchluessel::REVERSE_CHARGE_19()),
        _ => None,
    }
}

} // verus!
