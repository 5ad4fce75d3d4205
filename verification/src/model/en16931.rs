//! EN 16931 business rules not covered by the §14 UStG checks.
use vstd::prelude::*;
use crate::decimal::{
    checked_sub, display_spec, eq, lt, opt_view, push_display, round_dp, round_dp_spec,
    value_eq, value_lt, abs_spec, decimal_checked_sub, Dec,
};
use crate::model::codes::{
    allowance_reason_code_list, charge_reason_code_list, country_code_list, is_known_allowance_reason,
    is_known_charge_reason, is_known_country_code, is_known_unit_code, unit_code_list,
};
use crate::model::error::{errors_view, ErrorView, ValidationError};
use crate::model::totals::{expected_text, group_tax, tax_for};
use crate::model::types::{AllowanceCharge, Invoice, LineItem, TaxCategory, Totals, VatBreakdown};
use crate::model::validation::{
    add_error, error_if, flatten_errors, indexed, indexed_path, lemma_flatten_push, rule_error,
};
use crate::text::{byte_len, is_blank, is_blank_seq, push_str, str_eq, string_of, utf8_len};

verus! {

// ---------------------------------------------------------------- BR-CO-04

/// Line `i` repeats the identifier of an earlier line.
pub open spec fn is_duplicate_id(lines: Seq<LineItem>, i: int) -> bool {
    exists|j: int| 0 <= j < i && #[trigger] lines[j].id@ == lines[i].id@
}

pub open spec fn duplicate_error(lines: Seq<LineItem>, i: int) -> Seq<ErrorView> {
    error_if(
        is_duplicate_id(lines, i),
        rule_error(
            indexed("lines"@, i as nat, ".id"@),
            "duplicate line identifier '"@ + lines[i].id@ + "'"@,
            "BR-CO-04"@,
        ),
    )
}

pub open spec fn duplicate_errors(lines: Seq<LineItem>) -> Seq<ErrorView> {
    flatten_errors(Seq::new(lines.len(), |i: int| duplicate_error(lines, i)))
}

fn seen_before(lines: &Vec<LineItem>, i: usize) -> (r: bool)
    requires
        i < lines.len(),
    ensures
        r == is_duplicate_id(lines@, i as int),
{
    let mut j: usize = 0;
    while j < i
        invariant
            i < lines.len(),
            j <= i,
            forall|k: int| 0 <= k < j ==> #[trigger] lines@[k].id@ != lines@[i as int].id@,
        decreases i - j,
    {
        if str_eq(lines[j].id.as_str(), lines[i].id.as_str()) {
            return true;
        }
        j = j + 1;
    }
    false
}

fn check_duplicate_ids(lines: &Vec<LineItem>, errors: &mut Vec<ValidationError>)
    ensures
        errors_view(final(errors)@) == errors_view(old(errors)@) + duplicate_errors(lines@),
{
    let ghost start = errors_view(errors@);
    let mut i: usize = 0;
    while i < lines.len()
        invariant
            i <= lines.len(),
            errors_view(errors@) == start + flatten_errors(
                Seq::new(i as nat, |k: int| duplicate_error(lines@, k)),
            ),
        decreases lines.len() - i,
    {
        let ghost before = errors_view(errors@);
        if seen_before(lines, i) {
            let mut m = string_of("duplicate line identifier '");
            push_str(&mut m, lines[i].id.as_str());
            push_str(&mut m, "'");
            add_error(errors, indexed_path("lines", i, ".id"), m, "BR-CO-04");
        }
        proof {
            let f = |k: int| duplicate_error(lines@, k);
            assert(errors_view(errors@) =~= before + f(i as int));
            assert(Seq::new((i + 1) as nat, f) =~= Seq::new(i as nat, f).push(f(i as int)));
            lemma_flatten_push(Seq::new(i as nat, f), f(i as int));
        }
        i = i + 1;
    }
}

// ---------------------------------------------------------------- addresses

/// BR-11, BR-12 and BR-57.
pub open spec fn address_rule_errors(inv: Invoice) -> Seq<ErrorView> {
    error_if(
        is_blank_seq(inv.seller.address.country_code@),
        rule_error(
            "seller.address.country_code"@,
            "seller postal address must have a country code"@,
            "BR-11"@,
        ),
    ) + error_if(
        is_blank_seq(inv.buyer.address.country_code@),
        rule_error(
            "buyer.address.country_code"@,
            "buyer postal address must have a country code"@,
            "BR-12"@,
        ),
    ) + match inv.delivery {
        Some(d) => match d.delivery_address {
            Some(a) => error_if(
                a.country_code@.len() > 0 && utf8_len(a.country_code@) == 2
                    && !country_code_list().contains(a.country_code@),
                rule_error(
                    "delivery.delivery_address.country_code"@,
                    "delivery country code '"@ + a.country_code@
                        + "' is not a known ISO 3166-1 alpha-2 code"@,
                    "BR-57"@,
                ),
            ),
            None => seq![],
        },
        None => seq![],
    }
}

fn check_addresses(invoice: &Invoice, errors: &mut Vec<ValidationError>)
    ensures
        errors_view(final(errors)@) == errors_view(old(errors)@) + address_rule_errors(*invoice),
{
    let ghost start = errors_view(errors@);
    if is_blank(invoice.seller.address.country_code.as_str()) {
        add_error(
            errors,
            string_of("seller.address.country_code"),
            string_of("seller postal address must have a country code"),
            "BR-11",
        );
    }
    if is_blank(invoice.buyer.address.country_code.as_str()) {
        add_error(
            errors,
            string_of("buyer.address.country_code"),
            string_of("buyer postal address must have a country code"),
            "BR-12",
        );
    }
    match &invoice.delivery {
        Some(d) => match &d.delivery_address {
            Some(a) => {
                let cc = a.country_code.as_str();
                if cc.unicode_len() > 0 && byte_len(cc) == 2 && !is_known_country_code(cc) {
                    let mut m = string_of("delivery country code '");
                    push_str(&mut m, cc);
                    push_str(&mut m, "' is not a known ISO 3166-1 alpha-2 code");
                    add_error(
                        errors,
                        string_of("delivery.delivery_address.country_code"),
                        m,
                        "BR-57",
                    );
                }
            },
            None => {},
        },
        None => {},
    }
    proof {
        assert(errors_view(errors@) =~= start + address_rule_errors(*invoice));
    }
}

// ---------------------------------------------------------------- reason codes

/// BR-CO-21 / BR-CO-22 for the allowance or charge at `i`.
pub open spec fn reason_code_error(acs: Seq<AllowanceCharge>, i: int, charges: bool) -> Seq<
    ErrorView,
> {
    match acs[i].reason_code {
        Some(c) => if charges {
            error_if(
                !charge_reason_code_list().contains(c@),
                rule_error(
                    indexed("charges"@, i as nat, ".reason_code"@),
                    "charge reason code '"@ + c@ + "' is not a known UNTDID 7161 code"@,
                    "BR-CO-22"@,
                ),
            )
        } else {
            error_if(
                !allowance_reason_code_list().contains(c@),
                rule_error(
                    indexed("allowances"@, i as nat, ".reason_code"@),
                    "allowance reason code '"@ + c@ + "' is not a known UNTDID 5189 code"@,
                    "BR-CO-21"@,
                ),
            )
        },
        None => seq![],
    }
}

pub open spec fn reason_code_errors(acs: Seq<AllowanceCharge>, charges: bool) -> Seq<ErrorView> {
    flatten_errors(Seq::new(acs.len(), |i: int| reason_code_error(acs, i, charges)))
}

fn check_reason_codes(acs: &Vec<AllowanceCharge>, charges: bool, errors: &mut Vec<ValidationError>)
    ensures
        errors_view(final(errors)@) == errors_view(old(errors)@) + reason_code_errors(
            acs@,
            charges,
        ),
{
    let ghost start = errors_view(errors@);
    let mut i: usize = 0;
    while i < acs.len()
        invariant
            i <= acs.len(),
            errors_view(errors@) == start + flatten_errors(
                Seq::new(i as nat, |k: int| reason_code_error(acs@, k, charges)),
            ),
        decreases acs.len() - i,
    {
        let ghost before = errors_view(errors@);
        match &acs[i].reason_code {
            Some(c) => {
                if charges {
                    if !is_known_charge_reason(c.as_str()) {
                        let mut m = string_of("charge reason code '");
                        push_str(&mut m, c.as_str());
                        push_str(&mut m, "' is not a known UNTDID 7161 code");
                        add_error(errors, indexed_path("charges", i, ".reason_code"), m, "BR-CO-22");
                    }
                } else {
                    if !is_known_allowance_reason(c.as_str()) {
                        let mut m = string_of("allowance reason code '");
                        push_str(&mut m, c.as_str());
                        push_str(&mut m, "' is not a known UNTDID 5189 code");
                        add_error(
                            errors,
                            indexed_path("allowances", i, ".reason_code"),
                            m,
                            "BR-CO-21",
                        );
                    }
                }
            },
            None => {},
        }
        proof {
            let f = |k: int| reason_code_error(acs@, k, charges);
            assert(errors_view(errors@) =~= before + f(i as int));
            assert(Seq::new((i + 1) as nat, f) =~= Seq::new(i as nat, f).push(f(i as int)));
            lemma_flatten_push(Seq::new(i as nat, f), f(i as int));
        }
        i = i + 1;
    }
}

// ---------------------------------------------------------------- BR-31, BR-CO-18

/// BR-31 for the line at `i`.
pub open spec fn net_price_error(lines: Seq<LineItem>, i: int) -> Seq<ErrorView> {
    error_if(
        lines[i].unit_price@.0 < 0,
        rule_error(
            indexed("lines"@, i as nat, ".unit_price"@),
            "item net price must not be negative"@,
            "BR-31"@,
        ),
    )
}

pub open spec fn net_price_errors(lines: Seq<LineItem>) -> Seq<ErrorView> {
    flatten_errors(Seq::new(lines.len(), |i: int| net_price_error(lines, i)))
}

fn check_net_prices(lines: &Vec<LineItem>, errors: &mut Vec<ValidationError>)
    ensures
        errors_view(final(errors)@) == errors_view(old(errors)@) + net_price_errors(lines@),
{
    let ghost start = errors_view(errors@);
    let mut i: usize = 0;
    while i < lines.len()
        invariant
            i <= lines.len(),
            errors_view(errors@) == start + flatten_errors(
                Seq::new(i as nat, |k: int| net_price_error(lines@, k)),
            ),
        decreases lines.len() - i,
    {
        let ghost before = errors_view(errors@);
        if lines[i].unit_price.is_sign_negative() {
            add_error(
                errors,
                indexed_path("lines", i, ".unit_price"),
                string_of("item net price must not be negative"),
                "BR-31",
            );
        }
        proof {
            let f = |k: int| net_price_error(lines@, k);
            assert(errors_view(errors@) =~= before + f(i as int));
            assert(Seq::new((i + 1) as nat, f) =~= Seq::new(i as nat, f).push(f(i as int)));
            lemma_flatten_push(Seq::new(i as nat, f), f(i as int));
        }
        i = i + 1;
    }
}

/// BR-CO-18 for the allowance or charge at `i`.
pub open spec fn negative_amount_error(acs: Seq<AllowanceCharge>, i: int, charges: bool) -> Seq<
    ErrorView,
> {
    error_if(
        acs[i].amount@.0 < 0,
        if charges {
            rule_error(
                indexed("charges"@, i as nat, ".amount"@),
                "charge amount must not be negative"@,
                "BR-CO-18"@,
            )
        } else {
            rule_error(
                indexed("allowances"@, i as nat, ".amount"@),
                "allowance amount must not be negative"@,
                "BR-CO-18"@,
            )
        },
    )
}

pub open spec fn negative_amount_errors(acs: Seq<AllowanceCharge>, charges: bool) -> Seq<
    ErrorView,
> {
    flatten_errors(Seq::new(acs.len(), |i: int| negative_amount_error(acs, i, charges)))
}

fn check_negative_amounts(
    acs: &Vec<AllowanceCharge>,
    charges: bool,
    errors: &mut Vec<ValidationError>,
)
    ensures
        errors_view(final(errors)@) == errors_view(old(errors)@) + negative_amount_errors(
            acs@,
            charges,
        ),
{
    let ghost start = errors_view(errors@);
    let mut i: usize = 0;
    while i < acs.len()
        invariant
            i <= acs.len(),
            errors_view(errors@) == start + flatten_errors(
                Seq::new(i as nat, |k: int| negative_amount_error(acs@, k, charges)),
            ),
        decreases acs.len() - i,
    {
        let ghost before = errors_view(errors@);
        if acs[i].amount.is_sign_negative() {
            if charges {
                add_error(
                    errors,
                    indexed_path("charges", i, ".amount"),
                    string_of("charge amount must not be negative"),
                    "BR-CO-18",
                );
            } else {
                add_error(
                    errors,
                    indexed_path("allowances", i, ".amount"),
                    string_of("allowance amount must not be negative"),
                    "BR-CO-18",
                );
            }
        }
        proof {
            let f = |k: int| negative_amount_error(acs@, k, charges);
            assert(errors_view(errors@) =~= before + f(i as int));
            assert(Seq::new((i + 1) as nat, f) =~= Seq::new(i as nat, f).push(f(i as int)));
            lemma_flatten_push(Seq::new(i as nat, f), f(i as int));
        }
        i = i + 1;
    }
}

// ---------------------------------------------------------------- VAT breakdown

/// The VAT the rate gives a breakdown's taxable amount.
pub open spec fn breakdown_expected(b: VatBreakdown) -> Option<(i128, u32)> {
    group_tax((b.category, b.rate@, b.taxable_amount@))
}

/// The stated VAT of a breakdown is within 0.02 of the computed one.
pub open spec fn within_tolerance(b: VatBreakdown) -> bool {
    match breakdown_expected(b) {
        Some(e) => match decimal_checked_sub(b.tax_amount@, e) {
            Some(d) => !value_lt((2i128, 2u32), abs_spec(d)),
            None => false,
        },
        None => false,
    }
}

/// BR-CO-17 for the breakdown at `i`.
pub open spec fn tax_amount_error(bs: Seq<VatBreakdown>, i: int) -> Seq<ErrorView> {
    let b = bs[i];
    error_if(
        !within_tolerance(b),
        rule_error(
            indexed("totals.vat_breakdown"@, i as nat, ".tax_amount"@),
            "VAT amount "@ + display_spec(b.tax_amount@) + " does not match taxable "@
                + display_spec(b.taxable_amount@) + " × rate "@ + display_spec(b.rate@) + "% = "@
                + expected_text(breakdown_expected(b)) + " (tolerance ±0.02)"@,
            "BR-CO-17"@,
        ),
    )
}

pub open spec fn tax_amount_errors(t: Option<Totals>) -> Seq<ErrorView> {
    match t {
        Some(t) => flatten_errors(
            Seq::new(t.vat_breakdown@.len(), |i: int| tax_amount_error(t.vat_breakdown@, i)),
        ),
        None => seq![],
    }
}

fn check_tax_amounts(t: &Option<Totals>, errors: &mut Vec<ValidationError>)
    ensures
        errors_view(final(errors)@) == errors_view(old(errors)@) + tax_amount_errors(*t),
{
    let ghost start = errors_view(errors@);
    let totals = match t {
        Some(t) => t,
        None => {
            proof {
                assert(errors_view(errors@) =~= start + tax_amount_errors(*t));
            }
            return ;
        },
    };
    let bs = &totals.vat_breakdown;
    let mut i: usize = 0;
    while i < bs.len()
        invariant
            i <= bs.len(),
            errors_view(errors@) == start + flatten_errors(
                Seq::new(i as nat, |k: int| tax_amount_error(bs@, k)),
            ),
        decreases bs.len() - i,
    {
        let ghost before = errors_view(errors@);
        let b = &bs[i];
        let expected = tax_for(b.category, &b.rate, &b.taxable_amount);
        let ok = match expected {
            Some(e) => match checked_sub(b.tax_amount, e) {
                Some(d) => !lt(&Dec::new(2, 2), &d.abs()),
                None => false,
            },
            None => false,
        };
        if !ok {
            let mut m = string_of("VAT amount ");
            push_display(&mut m, &b.tax_amount);
            push_str(&mut m, " does not match taxable ");
            push_display(&mut m, &b.taxable_amount);
            push_str(&mut m, " × rate ");
            push_display(&mut m, &b.rate);
            push_str(&mut m, "% = ");
            match &expected {
                Some(e) => push_display(&mut m, e),
                None => push_str(&mut m, "(out of decimal range)"),
            }
            push_str(&mut m, " (tolerance ±0.02)");
            add_error(errors, indexed_path("totals.vat_breakdown", i, ".tax_amount"), m, "BR-CO-17");
        }
        proof {
            let f = |k: int| tax_amount_error(bs@, k);
            assert(errors_view(errors@) =~= before + f(i as int));
            assert(Seq::new((i + 1) as nat, f) =~= Seq::new(i as nat, f).push(f(i as int)));
            lemma_flatten_push(Seq::new(i as nat, f), f(i as int));
        }
        i = i + 1;
    }
    proof {
        assert(errors_view(errors@) =~= start + tax_amount_errors(*t));
    }
}

/// The rate rule and the exemption-reason rule of a category.
pub open spec fn category_rule_error(bs: Seq<VatBreakdown>, i: int) -> Seq<ErrorView> {
    let b = bs[i];
    let zero = b.rate@.0 == 0;
    let rate_path = indexed("totals.vat_breakdown"@, i as nat, ".rate"@);
    let path = indexed("totals.vat_breakdown"@, i as nat, ""@);
    let no_reason = b.exemption_reason is None && b.exemption_reason_code is None;
    match b.category {
        TaxCategory::StandardRate => error_if(
            zero,
            rule_error(rate_path, "standard rate category must have a non-zero rate"@, "BR-S-05"@),
        ),
        TaxCategory::ZeroRated => error_if(
            !zero,
            rule_error(rate_path, "zero-rated category must have rate 0"@, "BR-Z-05"@),
        ),
        TaxCategory::Exempt => error_if(
            !zero,
            rule_error(rate_path, "exempt category must have rate 0"@, "BR-E-05"@),
        ) + error_if(
            no_reason,
            rule_error(
                path,
                "exempt category requires an exemption reason or reason code"@,
                "BR-E-10"@,
            ),
        ),
        TaxCategory::ReverseCharge => error_if(
            !zero,
            rule_error(rate_path, "reverse charge category must have rate 0"@, "BR-AE-05"@),
        ) + error_if(
            no_reason,
            rule_error(
                path,
                "reverse charge category requires an exemption reason or reason code"@,
                "BR-AE-10"@,
            ),
        ),
        TaxCategory::IntraCommunitySupply => error_if(
            !zero,
            rule_error(
                rate_path,
                "intra-community supply category must have rate 0"@,
                "BR-IC-05"@,
            ),
        ) + error_if(
            no_reason,
            rule_error(
                path,
                "intra-community supply requires an exemption reason or reason code"@,
                "BR-IC-10"@,
            ),
        ),
        TaxCategory::Export => error_if(
            !zero,
            rule_error(rate_path, "export category must have rate 0"@, "BR-G-05"@),
        ) + error_if(
            no_reason,
            rule_error(
                path,
                "export category requires an exemption reason or reason code"@,
                "BR-G-10"@,
            ),
        ),
        TaxCategory::NotSubjectToVat => error_if(
            !zero,
            rule_error(rate_path, "not-subject-to-VAT category must have rate 0"@, "BR-O-05"@),
        ) + error_if(
            no_reason,
            rule_error(
                path,
                "not-subject-to-VAT requires an exemption reason or reason code"@,
                "BR-O-10"@,
            ),
        ),
    }
}

pub open spec fn category_rule_errors(t: Option<Totals>) -> Seq<ErrorView> {
    match t {
        Some(t) => flatten_errors(
            Seq::new(t.vat_breakdown@.len(), |i: int| category_rule_error(t.vat_breakdown@, i)),
        ),
        None => seq![],
    }
}

fn rate_error(
    errors: &mut Vec<ValidationError>,
    wrong: bool,
    i: usize,
    message: &str,
    rule: &str,
)
    ensures
        errors_view(final(errors)@) == errors_view(old(errors)@) + error_if(
            wrong,
            rule_error(indexed("totals.vat_breakdown"@, i as nat, ".rate"@), message@, rule@),
        ),
{
    if wrong {
        add_error(errors, indexed_path("totals.vat_breakdown", i, ".rate"), string_of(message), rule);
    } else {
        proof {
            assert(errors_view(final(errors)@) =~= errors_view(old(errors)@));
        }
    }
}

fn reason_error(
    errors: &mut Vec<ValidationError>,
    missing: bool,
    i: usize,
    message: &str,
    rule: &str,
)
    ensures
        errors_view(final(errors)@) == errors_view(old(errors)@) + error_if(
            missing,
            rule_error(indexed("totals.vat_breakdown"@, i as nat, ""@), message@, rule@),
        ),
{
    if missing {
        add_error(errors, indexed_path("totals.vat_breakdown", i, ""), string_of(message), rule);
    } else {
        proof {
            assert(errors_view(final(errors)@) =~= errors_view(old(errors)@));
        }
    }
}

fn check_category_rule(b: &VatBreakdown, i: usize, errors: &mut Vec<ValidationError>)
    ensures
        forall|bs: Seq<VatBreakdown>|
            0 <= i < bs.len() && bs[i as int] == *b ==> errors_view(final(errors)@) == errors_view(
                old(errors)@,
            ) + #[trigger] category_rule_error(bs, i as int),
{
    let ghost start = errors_view(errors@);
    let zero = b.rate.is_zero();
    let no_reason = b.exemption_reason.is_none() && b.exemption_reason_code.is_none();
    match b.category {
        TaxCategory::StandardRate => {
            rate_error(
                errors,
                zero,
                i,
                "standard rate category must have a non-zero rate",
                "BR-S-05",
            );
        },
        TaxCategory::ZeroRated => {
            rate_error(errors, !zero, i, "zero-rated category must have rate 0", "BR-Z-05");
        },
        TaxCategory::Exempt => {
            rate_error(errors, !zero, i, "exempt category must have rate 0", "BR-E-05");
            reason_error(
                errors,
                no_reason,
                i,
                "exempt category requires an exemption reason or reason code",
                "BR-E-10",
            );
        },
        TaxCategory::ReverseCharge => {
            rate_error(errors, !zero, i, "reverse charge category must have rate 0", "BR-AE-05");
            reason_error(
                errors,
                no_reason,
                i,
                "reverse charge category requires an exemption reason or reason code",
                "BR-AE-10",
            );
        },
        TaxCategory::IntraCommunitySupply => {
            rate_error(
                errors,
                !zero,
                i,
                "intra-community supply category must have rate 0",
                "BR-IC-05",
            );
            reason_error(
                errors,
                no_reason,
                i,
                "intra-community supply requires an exemption reason or reason code",
                "BR-IC-10",
            );
        },
        TaxCategory::Export => {
            rate_error(errors, !zero, i, "export category must have rate 0", "BR-G-05");
            reason_error(
                errors,
                no_reason,
                i,
                "export category requires an exemption reason or reason code",
                "BR-G-10",
            );
        },
        TaxCategory::NotSubjectToVat => {
            rate_error(
                errors,
                !zero,
                i,
                "not-subject-to-VAT category must have rate 0",
                "BR-O-05",
            );
            reason_error(
                errors,
                no_reason,
                i,
                "not-subject-to-VAT requires an exemption reason or reason code",
                "BR-O-10",
            );
        },
    }
    proof {
        assert forall|bs: Seq<VatBreakdown>|
            0 <= i < bs.len() && bs[i as int] == *b implies errors_view(errors@) == start
            + #[trigger] category_rule_error(bs, i as int) by {
            assert(errors_view(errors@) =~= start + category_rule_error(bs, i as int));
        }
    }
}

fn check_category_rules(t: &Option<Totals>, errors: &mut Vec<ValidationError>)
    ensures
        errors_view(final(errors)@) == errors_view(old(errors)@) + category_rule_errors(*t),
{
    let ghost start = errors_view(errors@);
    let totals = match t {
        Some(t) => t,
        None => {
            proof {
                assert(errors_view(errors@) =~= start + category_rule_errors(*t));
            }
            return ;
        },
    };
    let bs = &totals.vat_breakdown;
    let mut i: usize = 0;
    while i < bs.len()
        invariant
            i <= bs.len(),
            errors_view(errors@) == start + flatten_errors(
                Seq::new(i as nat, |k: int| category_rule_error(bs@, k)),
            ),
        decreases bs.len() - i,
    {
        let ghost before = errors_view(errors@);
        check_category_rule(&bs[i], i, errors);
        proof {
            let f = |k: int| category_rule_error(bs@, k);
            assert(errors_view(errors@) == before + category_rule_error(bs@, i as int));
            assert(Seq::new((i + 1) as nat, f) =~= Seq::new(i as nat, f).push(f(i as int)));
            lemma_flatten_push(Seq::new(i as nat, f), f(i as int));
        }
        i = i + 1;
    }
    proof {
        assert(errors_view(errors@) =~= start + category_rule_errors(*t));
    }
}

// ---------------------------------------------------------------- BR-26, BR-DEC-01

/// BR-26 for the line at `i`.
pub open spec fn unit_error(lines: Seq<LineItem>, i: int) -> Seq<ErrorView> {
    let u = lines[i].unit@;
    if is_blank_seq(u) {
        seq![
            rule_error(
                indexed("lines"@, i as nat, ".unit"@),
                "line quantity unit of measure must not be empty"@,
                "BR-26"@,
            ),
        ]
    } else if !unit_code_list().contains(u) {
        seq![
            rule_error(
                indexed("lines"@, i as nat, ".unit"@),
                "unit code '"@ + u + "' is not a known UN/CEFACT Rec 20 code (BT-130)"@,
                "BR-26"@,
            ),
        ]
    } else {
        seq![]
    }
}

pub open spec fn unit_errors(lines: Seq<LineItem>) -> Seq<ErrorView> {
    flatten_errors(Seq::new(lines.len(), |i: int| unit_error(lines, i)))
}

fn check_units(lines: &Vec<LineItem>, errors: &mut Vec<ValidationError>)
    ensures
        errors_view(final(errors)@) == errors_view(old(errors)@) + unit_errors(lines@),
{
    let ghost start = errors_view(errors@);
    let mut i: usize = 0;
    while i < lines.len()
        invariant
            i <= lines.len(),
            errors_view(errors@) == start + flatten_errors(
                Seq::new(i as nat, |k: int| unit_error(lines@, k)),
            ),
        decreases lines.len() - i,
    {
        let ghost before = errors_view(errors@);
        let u = lines[i].unit.as_str();
        if is_blank(u) {
            add_error(
                errors,
                indexed_path("lines", i, ".unit"),
                string_of("line quantity unit of measure must not be empty"),
                "BR-26",
            );
        } else if !is_known_unit_code(u) {
            let mut m = string_of("unit code '");
            push_str(&mut m, u);
            push_str(&mut m, "' is not a known UN/CEFACT Rec 20 code (BT-130)");
            add_error(errors, indexed_path("lines", i, ".unit"), m, "BR-26");
        }
        proof {
            let f = |k: int| unit_error(lines@, k);
            assert(errors_view(errors@) =~= before + f(i as int));
            assert(Seq::new((i + 1) as nat, f) =~= Seq::new(i as nat, f).push(f(i as int)));
            lemma_flatten_push(Seq::new(i as nat, f), f(i as int));
        }
        i = i + 1;
    }
}

/// BR-DEC-01 for one amount: at most two decimal places.
pub open spec fn decimal_places_error(d: (i128, u32), field: Seq<char>) -> Seq<ErrorView> {
    error_if(
        !value_eq(d, round_dp_spec(d, 2)),
        rule_error(
            field,
            "amount "@ + display_spec(d) + " has more than 2 decimal places"@,
            "BR-DEC-01"@,
        ),
    )
}

fn check_decimal_places(value: &Dec, field: &str, errors: &mut Vec<ValidationError>)
    ensures
        errors_view(final(errors)@) == errors_view(old(errors)@) + decimal_places_error(
            value@,
            field@,
        ),
{
    let rounded = round_dp(*value, 2);
    if !eq(value, &rounded) {
        let mut m = string_of("amount ");
        push_display(&mut m, value);
        push_str(&mut m, " has more than 2 decimal places");
        add_error(errors, string_of(field), m, "BR-DEC-01");
    } else {
        proof {
            assert(errors_view(final(errors)@) =~= errors_view(old(errors)@));
        }
    }
}

pub open spec fn decimal_places_errors(t: Option<Totals>) -> Seq<ErrorView> {
    match t {
        Some(t) => decimal_places_error(t.net_total@, "totals.net_total"@) + decimal_places_error(
            t.vat_total@,
            "totals.vat_total"@,
        ) + decimal_places_error(t.gross_total@, "totals.gross_total"@) + decimal_places_error(
            t.amount_due@,
            "totals.amount_due"@,
        ),
        None => seq![],
    }
}

fn check_totals_decimal_places(t: &Option<Totals>, errors: &mut Vec<ValidationError>)
    ensures
        errors_view(final(errors)@) == errors_view(old(errors)@) + decimal_places_errors(*t),
{
    let ghost start = errors_view(errors@);
    match t {
        Some(totals) => {
            check_decimal_places(&totals.net_total, "totals.net_total", errors);
            check_decimal_places(&totals.vat_total, "totals.vat_total", errors);
            check_decimal_places(&totals.gross_total, "totals.gross_total", errors);
            check_decimal_places(&totals.amount_due, "totals.amount_due", errors);
        },
        None => {},
    }
    proof {
        assert(errors_view(errors@) =~= start + decimal_places_errors(*t));
    }
}

// ---------------------------------------------------------------- all rules

/// The errors `validate_en16931` reports, in order.
pub open spec fn en16931_errors(inv: Invoice) -> Seq<ErrorView> {
    duplicate_errors(inv.lines@) + address_rule_errors(inv) + reason_code_errors(
        inv.allowances@,
        false,
    ) + reason_code_errors(inv.charges@, true) + net_price_errors(inv.lines@) + tax_amount_errors(
        inv.totals,
    ) + negative_amount_errors(inv.allowances@, false) + negative_amount_errors(
        inv.charges@,
        true,
    ) + category_rule_errors(inv.totals) + unit_errors(inv.lines@) + decimal_places_errors(
        inv.totals,
    )
}

/// Validate an invoice against EN 16931 business rules.
///
/// This covers rules not already checked by `validate_14_ustg`, focusing on
/// structural completeness and VAT breakdown consistency required by the
/// European standard.
pub fn validate_en16931(invoice: &Invoice) -> (r: Vec<ValidationError>)
    ensures
        errors_view(r@) == en16931_errors(*invoice),
{
    let mut errors: Vec<ValidationError> = Vec::new();
    check_duplicate_ids(&invoice.lines, &mut errors);
    check_addresses(invoice, &mut errors);
    check_reason_codes(&invoice.allowances, false, &mut errors);
    check_reason_codes(&invoice.charges, true, &mut errors);
    check_net_prices(&invoice.lines, &mut errors);
    check_tax_amounts(&invoice.totals, &mut errors);
    check_negative_amounts(&invoice.allowances, false, &mut errors);
    check_negative_amounts(&invoice.charges, true, &mut errors);
    check_category_rules(&invoice.totals, &mut errors);
    check_units(&invoice.lines, &mut errors);
    check_totals_decimal_places(&invoice.totals, &mut errors);
    proof {
        assert(errors_view(errors@) =~= en16931_errors(*invoice));
    }
    errors
}

} // verus!
