//! Peppol BIS Billing 3.0 validation rules (PEPPOL-EN16931-Rxxx), stricter
//! than base EN 16931 and XRechnung.
use vstd::prelude::*;
use crate::decimal::{le, value_le, Dec};
use crate::model::en16931::{en16931_errors, validate_en16931};
use crate::model::error::{errors_view, ErrorView, ValidationError};
use crate::model::types::{
    type_code_spec, AllowanceCharge, Invoice, InvoiceTypeCode, LineItem, PaymentMeansCode,
};
use crate::model::validation::{
    add_error, add_error_if, error_if, flatten_errors, indexed, indexed_path, lemma_flatten_push,
    party_vat_ids_sliceable, rule_error, ustg_errors, validate_14_ustg,
};
use crate::text::{nat_str, push_str, str_eq, string_of, u64_to_string};

verus! {

/// Peppol BIS Billing 3.0 customization identifier (BT-24).
pub const PEPPOL_CUSTOMIZATION_ID: &'static str =
    "urn:cen.eu:en16931:2017#compliant#urn:fdc:peppol.eu:2017:poacc:billing:3.0";

/// Peppol BIS Billing 3.0 profile identifier (BT-23).
pub const PEPPOL_PROFILE_ID: &'static str = "urn:fdc:peppol.eu:2017:poacc:billing:01:1.0";

/// Peppol document type identifier for invoices (used in SMP routing).
pub const PEPPOL_INVOICE_DOCTYPE: &'static str =
    "urn:oasis:names:specification:ubl:schema:xsd:Invoice-2::Invoice##urn:cen.eu:en16931:2017#compliant#urn:fdc:peppol.eu:2017:poacc:billing:3.0::2.1";

/// Peppol document type identifier for credit notes (used in SMP routing).
pub const PEPPOL_CREDIT_NOTE_DOCTYPE: &'static str =
    "urn:oasis:names:specification:ubl:schema:xsd:CreditNote-2::CreditNote##urn:cen.eu:en16931:2017#compliant#urn:fdc:peppol.eu:2017:poacc:billing:3.0::2.1";

/// R003, R020, R010 and R008: references, endpoints and required names.
pub open spec fn peppol_header_errors(inv: Invoice) -> Seq<ErrorView> {
    error_if(
        inv.buyer_reference is None && inv.order_reference is None,
        rule_error(
            "buyer_reference"@,
            "buyer reference or order reference is required"@,
            "PEPPOL-EN16931-R003"@,
        ),
    ) + error_if(
        inv.seller.electronic_address is None,
        rule_error(
            "seller.electronic_address"@,
            "seller electronic address (EndpointID) is required"@,
            "PEPPOL-EN16931-R020"@,
        ),
    ) + error_if(
        inv.buyer.electronic_address is None,
        rule_error(
            "buyer.electronic_address"@,
            "buyer electronic address (EndpointID) is required"@,
            "PEPPOL-EN16931-R010"@,
        ),
    ) + error_if(
        inv.number@.len() == 0,
        rule_error("number"@, "invoice number must not be empty"@, "PEPPOL-EN16931-R008"@),
    ) + error_if(
        inv.seller.name@.len() == 0,
        rule_error("seller.name"@, "seller name must not be empty"@, "PEPPOL-EN16931-R008"@),
    ) + error_if(
        inv.buyer.name@.len() == 0,
        rule_error("buyer.name"@, "buyer name must not be empty"@, "PEPPOL-EN16931-R008"@),
    )
}

/// P0112, R061 and R053: type code, mandate reference, tax subtotals.
pub open spec fn peppol_document_errors(inv: Invoice) -> Seq<ErrorView> {
    error_if(
        (inv.type_code == InvoiceTypeCode::Partial || inv.type_code == InvoiceTypeCode::Corrected)
            && !(inv.seller.address.country_code@ == "DE"@ && inv.buyer.address.country_code@
            == "DE"@),
        rule_error(
            "type_code"@,
            "invoice type code "@ + nat_str(type_code_spec(inv.type_code) as nat)
                + " is only allowed when both seller and buyer are in Germany"@,
            "PEPPOL-EN16931-P0112"@,
        ),
    ) + error_if(
        inv.payment matches Some(p) && (p.means_code == PaymentMeansCode::DirectDebit
            || p.means_code == PaymentMeansCode::SepaDirectDebit) && p.remittance_info is None,
        rule_error(
            "payment.remittance_info"@,
            "mandate reference is required for direct debit payments"@,
            "PEPPOL-EN16931-R061"@,
        ),
    ) + error_if(
        inv.totals matches Some(t) && t.vat_breakdown@.len() == 0,
        rule_error(
            "totals.vat_breakdown"@,
            "at least one tax subtotal is required"@,
            "PEPPOL-EN16931-R053"@,
        ),
    )
}

/// R121 for the line at `i`.
pub open spec fn quantity_error(lines: Seq<LineItem>, i: int) -> Seq<ErrorView> {
    error_if(
        value_le(lines[i].quantity@, (0i128, 0u32)),
        rule_error(
            indexed("lines"@, i as nat, ".quantity"@),
            "invoiced quantity must be positive"@,
            "PEPPOL-EN16931-R121"@,
        ),
    )
}

/// R044 for charge `j` of line `i`.
pub open spec fn line_charge_error(lines: Seq<LineItem>, i: int, j: int) -> Seq<ErrorView> {
    error_if(
        lines[i].charges@[j].is_charge,
        rule_error(
            indexed("lines"@, i as nat, ""@) + indexed(".charges"@, j as nat, ""@),
            "charges at line price level are not allowed in Peppol"@,
            "PEPPOL-EN16931-R044"@,
        ),
    )
}

pub open spec fn line_charges_errors(lines: Seq<LineItem>, i: int) -> Seq<ErrorView> {
    flatten_errors(Seq::new(lines[i].charges@.len(), |j: int| line_charge_error(lines, i, j)))
}

/// R041 and R042 for one allowance or charge.
pub open spec fn pairing_error(a: AllowanceCharge) -> Seq<ErrorView> {
    error_if(
        a.percentage is Some && a.base_amount is None,
        rule_error(
            "allowances/charges"@,
            "base amount is required when percentage is provided"@,
            "PEPPOL-EN16931-R041"@,
        ),
    ) + error_if(
        a.base_amount is Some && a.percentage is None,
        rule_error(
            "allowances/charges"@,
            "percentage is required when base amount is provided"@,
            "PEPPOL-EN16931-R042"@,
        ),
    )
}

pub open spec fn pairing_errors(acs: Seq<AllowanceCharge>) -> Seq<ErrorView> {
    flatten_errors(Seq::new(acs.len(), |i: int| pairing_error(acs[i])))
}

/// The errors `validate_peppol` reports, in order.
pub open spec fn peppol_errors(inv: Invoice) -> Seq<ErrorView> {
    let lines = inv.lines@;
    peppol_header_errors(inv) + peppol_document_errors(inv) + flatten_errors(
        Seq::new(lines.len(), |i: int| quantity_error(lines, i)),
    ) + flatten_errors(Seq::new(lines.len(), |i: int| line_charges_errors(lines, i)))
        + pairing_errors(inv.allowances@) + pairing_errors(inv.charges@)
}

fn check_header(invoice: &Invoice, errors: &mut Vec<ValidationError>)
    ensures
        errors_view(final(errors)@) == errors_view(old(errors)@) + peppol_header_errors(*invoice),
{
    let ghost start = errors_view(errors@);
    add_error_if(
        errors,
        invoice.buyer_reference.is_none() && invoice.order_reference.is_none(),
        "buyer_reference",
        "buyer reference or order reference is required",
        "PEPPOL-EN16931-R003",
    );
    add_error_if(
        errors,
        invoice.seller.electronic_address.is_none(),
        "seller.electronic_address",
        "seller electronic address (EndpointID) is required",
        "PEPPOL-EN16931-R020",
    );
    add_error_if(
        errors,
        invoice.buyer.electronic_address.is_none(),
        "buyer.electronic_address",
        "buyer electronic address (EndpointID) is required",
        "PEPPOL-EN16931-R010",
    );
    add_error_if(
        errors,
        invoice.number.as_str().unicode_len() == 0,
        "number",
        "invoice number must not be empty",
        "PEPPOL-EN16931-R008",
    );
    add_error_if(
        errors,
        invoice.seller.name.as_str().unicode_len() == 0,
        "seller.name",
        "seller name must not be empty",
        "PEPPOL-EN16931-R008",
    );
    add_error_if(
        errors,
        invoice.buyer.name.as_str().unicode_len() == 0,
        "buyer.name",
        "buyer name must not be empty",
        "PEPPOL-EN16931-R008",
    );
    proof {
        assert(errors_view(errors@) =~= start + peppol_header_errors(*invoice));
    }
}

fn check_document(invoice: &Invoice, errors: &mut Vec<ValidationError>)
    ensures
        errors_view(final(errors)@) == errors_view(old(errors)@) + peppol_document_errors(*invoice),
{
    let ghost start = errors_view(errors@);
    let t = invoice.type_code;
    let both_de = str_eq(invoice.seller.address.country_code.as_str(), "DE") && str_eq(
        invoice.buyer.address.country_code.as_str(),
        "DE",
    );
    if (t == InvoiceTypeCode::Partial || t == InvoiceTypeCode::Corrected) && !both_de {
        let mut m = string_of("invoice type code ");
        let c = u64_to_string(t.code() as u64);
        push_str(&mut m, c.as_str());
        push_str(&mut m, " is only allowed when both seller and buyer are in Germany");
        add_error(errors, string_of("type_code"), m, "PEPPOL-EN16931-P0112");
    }
    let direct_debit_without_mandate = match &invoice.payment {
        Some(p) => (p.means_code == PaymentMeansCode::DirectDebit || p.means_code
            == PaymentMeansCode::SepaDirectDebit) && p.remittance_info.is_none(),
        None => false,
    };
    add_error_if(
        errors,
        direct_debit_without_mandate,
        "payment.remittance_info",
        "mandate reference is required for direct debit payments",
        "PEPPOL-EN16931-R061",
    );
    let no_subtotals = match &invoice.totals {
        Some(t) => t.vat_breakdown.len() == 0,
        None => false,
    };
    add_error_if(
        errors,
        no_subtotals,
        "totals.vat_breakdown",
        "at least one tax subtotal is required",
        "PEPPOL-EN16931-R053",
    );
    proof {
        assert(errors_view(errors@) =~= start + peppol_document_errors(*invoice));
    }
}

fn check_quantities(lines: &Vec<LineItem>, errors: &mut Vec<ValidationError>)
    ensures
        errors_view(final(errors)@) == errors_view(old(errors)@) + flatten_errors(
            Seq::new(lines@.len(), |i: int| quantity_error(lines@, i)),
        ),
{
    let ghost start = errors_view(errors@);
    let mut i: usize = 0;
    while i < lines.len()
        invariant
            i <= lines.len(),
            errors_view(errors@) == start + flatten_errors(
                Seq::new(i as nat, |k: int| quantity_error(lines@, k)),
            ),
        decreases lines.len() - i,
    {
        let ghost before = errors_view(errors@);
        if le(&lines[i].quantity, &Dec::zero()) {
            add_error(
                errors,
                indexed_path("lines", i, ".quantity"),
                string_of("invoiced quantity must be positive"),
                "PEPPOL-EN16931-R121",
            );
        }
        proof {
            let f = |k: int| quantity_error(lines@, k);
            assert(errors_view(errors@) =~= before + f(i as int));
            assert(Seq::new((i + 1) as nat, f) =~= Seq::new(i as nat, f).push(f(i as int)));
            lemma_flatten_push(Seq::new(i as nat, f), f(i as int));
        }
        i = i + 1;
    }
}

fn check_line_charges_of(lines: &Vec<LineItem>, i: usize, errors: &mut Vec<ValidationError>)
    requires
        i < lines@.len(),
    ensures
        errors_view(final(errors)@) == errors_view(old(errors)@) + line_charges_errors(
            lines@,
            i as int,
        ),
{
    let ghost start = errors_view(errors@);
    let charges = &lines[i].charges;
    let mut j: usize = 0;
    while j < charges.len()
        invariant
            i < lines@.len(),
            *charges == lines@[i as int].charges,
            j <= charges@.len(),
            errors_view(errors@) == start + flatten_errors(
                Seq::new(j as nat, |k: int| line_charge_error(lines@, i as int, k)),
            ),
        decreases charges.len() - j,
    {
        let ghost before = errors_view(errors@);
        if charges[j].is_charge {
            let mut field = indexed_path("lines", i, "");
            let rest = indexed_path(".charges", j, "");
            push_str(&mut field, rest.as_str());
            add_error(
                errors,
                field,
                string_of("charges at line price level are not allowed in Peppol"),
                "PEPPOL-EN16931-R044",
            );
        }
        proof {
            let f = |k: int| line_charge_error(lines@, i as int, k);
            assert(errors_view(errors@) =~= before + f(j as int));
            assert(Seq::new((j + 1) as nat, f) =~= Seq::new(j as nat, f).push(f(j as int)));
            lemma_flatten_push(Seq::new(j as nat, f), f(j as int));
        }
        j = j + 1;
    }
}

fn check_line_charges(lines: &Vec<LineItem>, errors: &mut Vec<ValidationError>)
    ensures
        errors_view(final(errors)@) == errors_view(old(errors)@) + flatten_errors(
            Seq::new(lines@.len(), |i: int| line_charges_errors(lines@, i)),
        ),
{
    let ghost start = errors_view(errors@);
    let mut i: usize = 0;
    while i < lines.len()
        invariant
            i <= lines.len(),
            errors_view(errors@) == start + flatten_errors(
                Seq::new(i as nat, |k: int| line_charges_errors(lines@, k)),
            ),
        decreases lines.len() - i,
    {
        check_line_charges_of(lines, i, errors);
        proof {
            let f = |k: int| line_charges_errors(lines@, k);
            assert(Seq::new((i + 1) as nat, f) =~= Seq::new(i as nat, f).push(f(i as int)));
            lemma_flatten_push(Seq::new(i as nat, f), f(i as int));
        }
        i = i + 1;
    }
}

fn check_pairing(acs: &Vec<AllowanceCharge>, errors: &mut Vec<ValidationError>)
    ensures
        errors_view(final(errors)@) == errors_view(old(errors)@) + pairing_errors(acs@),
{
    let ghost start = errors_view(errors@);
    let mut i: usize = 0;
    while i < acs.len()
        invariant
            i <= acs.len(),
            errors_view(errors@) == start + flatten_errors(
                Seq::new(i as nat, |k: int| pairing_error(acs@[k])),
            ),
        decreases acs.len() - i,
    {
        let ghost before = errors_view(errors@);
        let a = &acs[i];
        add_error_if(
            errors,
            a.percentage.is_some() && a.base_amount.is_none(),
            "allowances/charges",
            "base amount is required when percentage is provided",
            "PEPPOL-EN16931-R041",
        );
        add_error_if(
            errors,
            a.base_amount.is_some() && a.percentage.is_none(),
            "allowances/charges",
            "percentage is required when base amount is provided",
            "PEPPOL-EN16931-R042",
        );
        proof {
            let f = |k: int| pairing_error(acs@[k]);
            assert(errors_view(errors@) =~= before + f(i as int));
            assert(Seq::new((i + 1) as nat, f) =~= Seq::new(i as nat, f).push(f(i as int)));
            lemma_flatten_push(Seq::new(i as nat, f), f(i as int));
        }
        i = i + 1;
    }
}

/// Validate an invoice against Peppol BIS Billing 3.0 rules.
///
/// Returns a list of validation errors. An empty list means the invoice
/// passes all Peppol-specific checks.
pub fn validate_peppol(invoice: &Invoice) -> (r: Vec<ValidationError>)
    ensures
        errors_view(r@) == peppol_errors(*invoice),
{
    let mut errors: Vec<ValidationError> = Vec::new();
    check_header(invoice, &mut errors);
    check_document(invoice, &mut errors);
    check_quantities(&invoice.lines, &mut errors);
    check_line_charges(&invoice.lines, &mut errors);
    check_pairing(&invoice.allowances, &mut errors);
    check_pairing(&invoice.charges, &mut errors);
    proof {
        assert(errors_view(errors@) =~= peppol_errors(*invoice));
    }
    errors
}

/// Run all validation layers for Peppol BIS 3.0 compliance in one call:
/// §14 UStG, EN 16931 and the Peppol rules, in that order.
pub fn validate_peppol_full(invoice: &Invoice) -> (r: Vec<ValidationError>)
    requires
        party_vat_ids_sliceable(*invoice),
    ensures
        errors_view(r@) == ustg_errors(*invoice) + en16931_errors(*invoice) + peppol_errors(
            *invoice,
        ),
{
    let mut errors = validate_14_ustg(invoice);
    let mut more = validate_en16931(invoice);
    let ghost a = errors_view(errors@);
    let ghost b = errors_view(more@);
    errors.append(&mut more);
    let mut last = validate_peppol(invoice);
    let ghost c = errors_view(last@);
    let ghost ab = errors@;
    errors.append(&mut last);
    proof {
        assert(errors_view(ab) =~= a + b);
        assert(errors_view(errors@) =~= a + b + c);
    }
    errors
}

} // verus!
