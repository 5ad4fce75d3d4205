//! Building an invoice from the fields of a CII document as read.
use vstd::prelude::*;
use crate::model::error::RechnungError;
use crate::model::types::{
    means_from_code_spec, type_from_code_spec, CardPayment, CreditTransfer, DirectDebit, Invoice,
    InvoiceTypeCode, PaymentInstructions, PaymentMeansCode, TaxRepresentative, VatScenario,
};
use crate::text::{push_str, string_of};
use crate::xrechnung::cii_read::{cii_run, read_cii};
use crate::xrechnung::read::{int_error_text, parse_date, parse_u16, parsed_date, parsed_u16, xml_reads};
use crate::xrechnung::ubl_invoice::{
    ac_ok, acs_split, address_from, address_of, attachment_from, attachments_of, breakdown_from,
    breakdown_ok, buyer_from, buyer_of, convert_acs, convert_breakdowns, convert_lines, copy_text,
    bad_acs, bad_breakdowns, bad_lines, bad_totals, copy_texts, date_opt, date_view, decimal_error,
    decimal_error_at, first_of, lemma_bad_acs_none, lemma_bad_breakdowns_none, lemma_bad_lines_none,
    delivery_from, delivery_of, invalid_message,
    line_from, line_ok, means_number, opt_date, payee_from, payee_of, period_from, period_of,
    preceding_from, preceding_of, seller_from, seller_of, starts_with, text_or, text_or_default,
    text_ref, totals_from, totals_of, totals_ok, type_of,
};
use crate::xrechnung::ubl_read::{empty_doc, or_empty, DocFields, ParsedDoc, ParsedDocV, ParsedLine};

verus! {

/// The date format of CII's `102` dates.
pub open spec fn cii_format() -> Seq<char> {
    "%Y%m%d"@
}

/// Payment instructions where a means code or an IBAN was read; a card
/// where its number was, a direct debit where its mandate, account or
/// creditor was.
pub open spec fn cii_payment_from(f: DocFields, p: Option<PaymentInstructions>) -> bool {
    if f.payment_means_code is Some || f.payment_iban is Some {
        p matches Some(pi) && {
            &&& pi.means_code == means_from_code_spec(means_number(f.payment_means_code))
            &&& pi.means_text == f.payment_means_text
            &&& pi.remittance_info == f.payment_remittance_info
            &&& pi.credit_transfer == (match f.payment_iban {
                Some(iban) => Some(
                    CreditTransfer { iban, bic: f.payment_bic, account_name: f.payment_account_name },
                ),
                None => None,
            })
            &&& pi.card_payment == (match f.card_account_number {
                Some(n) => Some(CardPayment { account_number: n, holder_name: f.card_holder_name }),
                None => None,
            })
            &&& pi.direct_debit == (if f.direct_debit_mandate_id is Some || f.direct_debit_account_id is Some
                || f.direct_debit_creditor_id is Some {
                Some(
                    DirectDebit {
                        mandate_id: f.direct_debit_mandate_id,
                        creditor_id: f.direct_debit_creditor_id,
                        debited_account_id: f.direct_debit_account_id,
                    },
                )
            } else {
                None
            })
        }
    } else {
        p is None
    }
}

fn cii_payment_of(f: &DocFields) -> (r: Option<PaymentInstructions>)
    ensures
        cii_payment_from(*f, r),
{
    if !(f.payment_means_code.is_some() || f.payment_iban.is_some()) {
        return None;
    }
    let code: u16 = match parse_u16(text_ref(&f.payment_means_code, "58")) {
        Ok(c) => c,
        Err(_) => 58,
    };
    let credit_transfer = match &f.payment_iban {
        Some(iban) => Some(
            CreditTransfer {
                iban: iban.clone(),
                bic: copy_text(&f.payment_bic),
                account_name: copy_text(&f.payment_account_name),
            },
        ),
        None => None,
    };
    let card_payment = match &f.card_account_number {
        Some(n) => Some(CardPayment { account_number: n.clone(), holder_name: copy_text(&f.card_holder_name) }),
        None => None,
    };
    let direct_debit = if f.direct_debit_mandate_id.is_some() || f.direct_debit_account_id.is_some()
        || f.direct_debit_creditor_id.is_some() {
        Some(
            DirectDebit {
                mandate_id: copy_text(&f.direct_debit_mandate_id),
                creditor_id: copy_text(&f.direct_debit_creditor_id),
                debited_account_id: copy_text(&f.direct_debit_account_id),
            },
        )
    } else {
        None
    };
    Some(
        PaymentInstructions {
            means_code: PaymentMeansCode::from_code(code),
            means_text: copy_text(&f.payment_means_text),
            remittance_info: copy_text(&f.payment_remittance_info),
            credit_transfer,
            card_payment,
            direct_debit,
        },
    )
}

/// A tax representative where its name was read; an empty VAT identifier
/// where none was.
pub open spec fn cii_tax_rep_from(f: DocFields, t: Option<TaxRepresentative>) -> bool {
    match f.tax_rep_name {
        Some(n) => t matches Some(r) && r.name == n && r.vat_id@ == or_empty(f.tax_rep_vat_id)
            && address_from(
            f.tax_rep_street,
            f.tax_rep_additional,
            f.tax_rep_city,
            f.tax_rep_postal,
            f.tax_rep_country,
            f.tax_rep_subdivision,
            r.address,
        ),
        None => t is None,
    }
}

fn cii_tax_rep_of(f: &DocFields) -> (r: Option<TaxRepresentative>)
    ensures
        cii_tax_rep_from(*f, r),
{
    match &f.tax_rep_name {
        Some(n) => {
            let r = TaxRepresentative {
                name: n.clone(),
                vat_id: text_or_default(&f.tax_rep_vat_id, ""),
                address: address_of(
                    &f.tax_rep_street,
                    &f.tax_rep_additional,
                    &f.tax_rep_city,
                    &f.tax_rep_postal,
                    &f.tax_rep_country,
                    &f.tax_rep_subdivision,
                ),
            };
            proof {
                reveal_strlit("");
                assert(""@ =~= Seq::<char>::empty());
            }
            Some(r)
        },
        None => None,
    }
}

/// An invoice can be built from the CII document read: it has an issue
/// date that reads, a type code that reads, and every amount that is needed
/// reads (a line's net amount is not needed).
pub open spec fn cii_readable(s: ParsedDocV) -> bool {
    &&& opt_date(s.f.issue_date, cii_format()) is Some
    &&& parsed_u16(text_or(s.f.type_code, "380"@)) is Ok
    &&& forall|i: int| 0 <= i < s.lines.len() ==> line_ok(#[trigger] s.lines[i], false)
    &&& forall|i: int| 0 <= i < s.breakdowns.len() ==> breakdown_ok(#[trigger] s.breakdowns[i])
    &&& totals_ok(s.f)
    &&& forall|i: int| 0 <= i < s.doc_acs.len() ==> ac_ok(#[trigger] s.doc_acs[i])
}

/// The first amount of a CII document that does not read: in the lines
/// (their net amounts are not needed), then the VAT breakdown, the
/// document's allowances and charges, and the document totals.
pub open spec fn bad_cii_amount(s: ParsedDocV) -> Option<Seq<char>> {
    first_of(
        bad_lines(s.lines, false),
        first_of(bad_breakdowns(s.breakdowns), first_of(bad_acs(s.doc_acs), bad_totals(s.f))),
    )
}

/// The error of a CII document from which no invoice can be built: a
/// missing issue date, an issue date or a type code that does not read,
/// else the first amount that does not read.
pub open spec fn cii_read_error(s: ParsedDocV, e: RechnungError) -> bool {
    match s.f.issue_date {
        None => e matches RechnungError::Builder(m) && m@ == "missing issue date"@,
        Some(t) => if parsed_date(t@, cii_format()) is None {
            e matches RechnungError::Builder(m) && starts_with(m@, "invalid CII date '"@ + t@ + "': "@)
        } else {
            match parsed_u16(text_or(s.f.type_code, "380"@)) {
                Err(k) => e matches RechnungError::Builder(m) && m@ == "invalid type code: "@
                    + int_error_text(k),
                Ok(_) => decimal_error(e) && decimal_error_at(e, bad_cii_amount(s)),
            }
        },
    }
}

/// The invoice built from a CII document read.
pub open spec fn cii_invoice(s: ParsedDocV, inv: Invoice) -> bool {
    &&& inv.number@ == or_empty(s.f.number)
    &&& opt_date(s.f.issue_date, cii_format()) == Some(inv.issue_date@)
    &&& date_view(inv.due_date) == opt_date(s.f.due_date, cii_format())
    &&& inv.type_code == type_of(s.f.type_code)
    &&& inv.currency_code@ == text_or(s.f.currency_code, "EUR"@)
    &&& inv.tax_currency_code == s.f.tax_currency_code
    &&& inv.notes@ == s.notes
    &&& inv.buyer_reference == s.f.buyer_reference
    &&& inv.project_reference is None
    &&& inv.contract_reference is None
    &&& inv.order_reference == s.f.order_reference
    &&& inv.sales_order_reference is None
    &&& inv.buyer_accounting_reference is None
    &&& seller_from(s.f, inv.seller)
    &&& buyer_from(s.f, inv.buyer)
    &&& inv.lines@.len() == s.lines.len()
    &&& forall|i: int| 0 <= i < s.lines.len() ==> line_from(s.lines[i], cii_format(), #[trigger] inv.lines@[i])
    &&& inv.vat_scenario == VatScenario::Domestic
    &&& acs_split(s.doc_acs, inv.allowances@, inv.charges@)
    &&& inv.totals matches Some(t) && {
        &&& totals_from(s.f, t.vat_breakdown@, t)
        &&& t.vat_breakdown@.len() == s.breakdowns.len()
        &&& forall|i: int|
            0 <= i < s.breakdowns.len() ==> breakdown_from(s.breakdowns[i], #[trigger] t.vat_breakdown@[i])
    }
    &&& inv.payment_terms == s.f.payment_terms
    &&& cii_payment_from(s.f, inv.payment)
    &&& date_view(inv.tax_point_date) == opt_date(s.f.tax_point_date, cii_format())
    &&& period_from(s.f.invoicing_period_start, s.f.invoicing_period_end, cii_format(), inv.invoicing_period)
    &&& payee_from(s.f, inv.payee)
    &&& cii_tax_rep_from(s.f, inv.tax_representative)
    &&& preceding_from(s.preceding, cii_format(), inv.preceding_invoices@)
    &&& inv.attachments@.len() == s.attachments.len()
    &&& forall|i: int|
        0 <= i < s.attachments.len() ==> attachment_from(s.attachments[i], #[trigger] inv.attachments@[i])
    &&& delivery_from(s.f, cii_format(), inv.delivery)
}

impl ParsedDoc {
    /// The invoice the CII document read describes.
    pub fn into_invoice_cii(&self) -> (r: Result<Invoice, RechnungError>)
        ensures
            r is Ok <==> cii_readable(self@),
            r matches Ok(inv) ==> cii_invoice(self@, inv),
            r matches Err(e) ==> cii_read_error(self@, e),
    {
        let f = &self.f;
        let issue_text = match &f.issue_date {
            Some(t) => t,
            None => {
                return Err(RechnungError::Builder(string_of("missing issue date")));
            },
        };
        let issue_date = match parse_date(issue_text.as_str(), "%Y%m%d") {
            Ok(d) => d,
            Err(why) => {
                let m = invalid_message("invalid CII date", issue_text.as_str(), why.as_str());
                proof {
                    reveal_strlit("invalid CII date");
                    reveal_strlit(" '");
                    reveal_strlit("invalid CII date '");
                    reveal_strlit("': ");
                    assert(m@.subrange(0, (18 + issue_text@.len() + 3) as int) =~= "invalid CII date '"@
                        + issue_text@ + "': "@);
                }
                return Err(RechnungError::Builder(m));
            },
        };
        let type_num = match parse_u16(text_ref(&f.type_code, "380")) {
            Ok(n) => n,
            Err(k) => {
                let mut m = string_of("invalid type code: ");
                push_str(&mut m, k.message());
                return Err(RechnungError::Builder(m));
            },
        };
        let seller = seller_of(f);
        let buyer = buyer_of(f);
        proof {
            assert(self.lines@.map_values(|l: ParsedLine| l@) =~= self@.lines);
        }
        let lines = match convert_lines(&self.lines, "%Y%m%d", false) {
            Ok(v) => v,
            Err(e) => {
                proof {
                    let j = choose|j: int| 0 <= j < self.lines@.len() && !line_ok(self.lines@[j]@, false);
                    assert(self@.lines[j] == self.lines@[j]@);
                    assert(!line_ok(self@.lines[j], false));
                }
                return Err(e);
            },
        };
        proof {
            assert forall|i: int| 0 <= i < self@.lines.len() implies line_ok(#[trigger] self@.lines[i], false) by {
                assert(self@.lines[i] == self.lines@[i]@);
            }
            lemma_bad_lines_none(self@.lines, false);
        }
        let vat_breakdown = match convert_breakdowns(&self.breakdowns) {
            Ok(v) => v,
            Err(e) => {
                proof {
                    let j = choose|j: int| 0 <= j < self.breakdowns@.len() && !breakdown_ok(self.breakdowns@[j]);
                    assert(!breakdown_ok(self@.breakdowns[j]));
                }
                return Err(e);
            },
        };
        proof {
            lemma_bad_breakdowns_none(self@.breakdowns);
        }
        let payment = cii_payment_of(f);
        let preceding_invoices = preceding_of(&self.preceding, "%Y%m%d");
        let attachments = attachments_of(&self.attachments);
        let invoicing_period = period_of(&f.invoicing_period_start, &f.invoicing_period_end, "%Y%m%d");
        let (allowances, charges) = match convert_acs(&self.doc_acs) {
            Ok(x) => x,
            Err(e) => {
                proof {
                    let j = choose|j: int| 0 <= j < self.doc_acs@.len() && !ac_ok(self.doc_acs@[j]);
                    assert(!ac_ok(self@.doc_acs[j]));
                }
                return Err(e);
            },
        };
        proof {
            lemma_bad_acs_none(self@.doc_acs);
        }
        let delivery = delivery_of(f, "%Y%m%d");
        let payee = payee_of(f);
        let tax_representative = cii_tax_rep_of(f);
        let totals = match totals_of(f, vat_breakdown) {
            Ok(t) => t,
            Err(e) => return Err(e),
        };
        let type_code = match InvoiceTypeCode::from_code(type_num) {
            Some(t) => t,
            None => InvoiceTypeCode::Invoice,
        };
        let inv = Invoice {
            number: text_or_default(&f.number, ""),
            issue_date,
            due_date: date_opt(&f.due_date, "%Y%m%d"),
            type_code,
            currency_code: text_or_default(&f.currency_code, "EUR"),
            tax_currency_code: copy_text(&f.tax_currency_code),
            notes: copy_texts(&self.notes),
            buyer_reference: copy_text(&f.buyer_reference),
            project_reference: None,
            contract_reference: None,
            order_reference: copy_text(&f.order_reference),
            sales_order_reference: None,
            buyer_accounting_reference: None,
            seller,
            buyer,
            lines,
            vat_scenario: VatScenario::Domestic,
            allowances,
            charges,
            totals: Some(totals),
            payment_terms: copy_text(&f.payment_terms),
            payment,
            tax_point_date: date_opt(&f.tax_point_date, "%Y%m%d"),
            invoicing_period,
            payee,
            tax_representative,
            preceding_invoices,
            attachments,
            delivery,
        };
        proof {
            reveal_strlit("");
            assert(""@ =~= Seq::<char>::empty());
            assert forall|i: int| 0 <= i < self.lines@.len() implies self@.lines[i] == self.lines@[i]@ by {}
        }
        Ok(inv)
    }
}

/// What parsing a CII text gives: the message of its first syntax error,
/// else the invoice built from the document read, or why none can be.
pub open spec fn cii_result(xml: Seq<char>, r: Result<Invoice, RechnungError>) -> bool {
    match cii_run(empty_doc(), seq![], xml_reads(xml)) {
        Err(m) => r matches Err(RechnungError::Builder(e)) && e@ == "XML parse error: "@ + m,
        Ok(s) => {
            &&& r is Ok <==> cii_readable(s)
            &&& r matches Ok(inv) ==> cii_invoice(s, inv)
            &&& r matches Err(e) ==> cii_read_error(s, e)
        },
    }
}

/// Parses a CII (Cross Industry Invoice) document.
pub fn from_cii_xml(xml: &str) -> (r: Result<Invoice, RechnungError>)
    ensures
        cii_result(xml@, r),
{
    match read_cii(xml) {
        Ok(p) => p.into_invoice_cii(),
        Err(m) => {
            let mut e = string_of("XML parse error: ");
            push_str(&mut e, m.as_str());
            Err(RechnungError::Builder(e))
        },
    }
}

} // verus!
