//! §19 UStG Kleinunternehmerregelung threshold checks.
//!
//! As of 2025 (Jahressteuergesetz 2024):
//! - Previous year revenue (net): ≤ 25,000 EUR
//! - Current year forecast (net): ≤ 100,000 EUR
//! - Exceeding 100k mid-year loses status immediately
use vstd::prelude::*;
use crate::decimal::{display_spec, lt, push_display, value_lt, Dec};
use crate::text::{push_str, string_of};

verus! {

/// Previous year net revenue threshold in whole euros (§19 UStG, from 2025).
pub const KU_PREV_YEAR_LIMIT: i64 = 25000;

/// Current year net revenue threshold in whole euros (§19 UStG, from 2025).
pub const KU_CURR_YEAR_LIMIT: i64 = 100000;

/// Result of a Kleinunternehmer eligibility check.
#[derive(Debug, Clone)]
pub struct KleinunternehmerStatus {
    /// Whether the business is eligible for Kleinunternehmer status.
    pub eligible: bool,
    /// Previous year net revenue used in the check.
    pub prev_year_revenue: Dec,
    /// Current year net revenue (or forecast) used in the check.
    pub curr_year_revenue: Dec,
    /// If not eligible, the reason why.
    pub reason: Option<String>,
}

/// The reason `check_kleinunternehmer` gives, `None` when eligible.
pub open spec fn kleinunternehmer_reason(prev: (i128, u32), curr: (i128, u32)) -> Option<
    Seq<char>,
> {
    if value_lt((KU_PREV_YEAR_LIMIT as i128, 0u32), prev) {
        Some(
            "previous year net revenue "@ + display_spec(prev) + " exceeds limit of "@
                + display_spec((KU_PREV_YEAR_LIMIT as i128, 0u32)),
        )
    } else if value_lt((KU_CURR_YEAR_LIMIT as i128, 0u32), curr) {
        Some(
            "current year net revenue "@ + display_spec(curr) + " exceeds limit of "@
                + display_spec((KU_CURR_YEAR_LIMIT as i128, 0u32)),
        )
    } else {
        None
    }
}

/// Check Kleinunternehmer eligibility under §19 UStG (2025+ rules).
///
/// Both amounts must be **net** revenue (without VAT): the previous calendar
/// year's actual revenue and the current year's revenue (actual or forecast).
pub fn check_kleinunternehmer(prev_year_revenue: Dec, curr_year_revenue: Dec) -> (r:
    KleinunternehmerStatus)
    ensures
        r.prev_year_revenue == prev_year_revenue,
        r.curr_year_revenue == curr_year_revenue,
        r.eligible == kleinunternehmer_reason(prev_year_revenue@, curr_year_revenue@) is None,
        match (r.reason, kleinunternehmer_reason(prev_year_revenue@, curr_year_revenue@)) {
            (Some(m), Some(t)) => m@ == t,
            (None, None) => true,
            _ => false,
        },
{
    let prev_limit = Dec::new(KU_PREV_YEAR_LIMIT, 0);
    let curr_limit = Dec::new(KU_CURR_YEAR_LIMIT, 0);
    if lt(&prev_limit, &prev_year_revenue) {
        let mut m = string_of("previous year net revenue ");
        push_display(&mut m, &prev_year_revenue);
        push_str(&mut m, " exceeds limit of ");
        push_display(&mut m, &prev_limit);
        return KleinunternehmerStatus {
            eligible: false,
            prev_year_revenue,
            curr_year_revenue,
            reason: Some(m),
        };
    }
    if lt(&curr_limit, &curr_year_revenue) {
        let mut m = string_of("current year net revenue ");
        push_display(&mut m, &curr_year_revenue);
        push_str(&mut m, " exceeds limit of ");
        push_display(&mut m, &curr_limit);
        return KleinunternehmerStatus {
            eligible: false,
            prev_year_revenue,
            curr_year_revenue,
            reason: Some(m),
        };
    }
    KleinunternehmerStatus { eligible: true, prev_year_revenue, curr_year_revenue, reason: None }
}

} // verus!
