//! The invoice builder: collects an invoice's parts, then computes the totals
//! and checks the rules.
use vstd::prelude::*;
use crate::date::Date;
use crate::decimal::Dec;
use crate::model::en16931::{en16931_errors, validate_en16931};
use crate::model::error::{
    errors_view, validation_error_text, ErrorView, RechnungError, ValidationError,
};
use crate::model::totals::{calculate_totals, lines_with_amounts, totals_computable, totals_of};
use crate::model::types::{
    AllowanceCharge, DeliveryInformation, DocumentAttachment, Invoice, InvoiceTypeCode, LineItem,
    Party, Payee, PaymentInstructions, Period, PrecedingInvoiceReference, TaxRepresentative,
    Totals, VatScenario,
};
use crate::model::validation::{
    party_vat_ids_sliceable, ustg_errors, validate_14_ustg, vat_id_sliceable,
};
use crate::text::{byte_len, push_str, string_of, utf8_len};

verus! {

/// What an invoice builder has collected so far.
pub struct InvoiceDraft {
    /// The invoice number (BT-1).
    pub number: String,
    /// The issue date (BT-2).
    pub issue_date: Date,
    /// The payment due date (BT-9).
    pub due_date: Option<Date>,
    /// The invoice type code (BT-3).
    pub type_code: InvoiceTypeCode,
    /// The currency code (BT-5).
    pub currency_code: String,
    /// The VAT accounting currency code (BT-6).
    pub tax_currency_code: Option<String>,
    /// The VAT total in the VAT accounting currency (BT-111).
    pub vat_total_in_tax_currency: Option<Dec>,
    /// Free-text notes (BT-22).
    pub notes: Vec<String>,
    /// Buyer reference (BT-10).
    pub buyer_reference: Option<String>,
    /// Project reference (BT-11).
    pub project_reference: Option<String>,
    /// Contract reference (BT-12).
    pub contract_reference: Option<String>,
    /// Purchase order reference (BT-13).
    pub order_reference: Option<String>,
    /// Sales order reference (BT-14).
    pub sales_order_reference: Option<String>,
    /// Buyer accounting reference (BT-19).
    pub buyer_accounting_reference: Option<String>,
    /// The seller (BG-4), required.
    pub seller: Option<Party>,
    /// The buyer (BG-7), required.
    pub buyer: Option<Party>,
    /// Invoice lines (BG-25).
    pub lines: Vec<LineItem>,
    /// The German VAT scenario.
    pub vat_scenario: VatScenario,
    /// Document-level allowances (BG-20).
    pub allowances: Vec<AllowanceCharge>,
    /// Document-level charges (BG-21).
    pub charges: Vec<AllowanceCharge>,
    /// Payment terms (BT-20).
    pub payment_terms: Option<String>,
    /// Payment instructions (BG-16).
    pub payment: Option<PaymentInstructions>,
    /// Delivery date (BT-7).
    pub tax_point_date: Option<Date>,
    /// Invoicing period (BG-14).
    pub invoicing_period: Option<Period>,
    /// Delivery information (BG-13).
    pub delivery: Option<DeliveryInformation>,
    /// Prepaid amount (BT-113).
    pub prepaid: Dec,
    /// Preceding invoice references (BG-3).
    pub preceding_invoices: Vec<PrecedingInvoiceReference>,
    /// Supporting documents (BG-24).
    pub attachments: Vec<DocumentAttachment>,
    /// Payee (BG-10).
    pub payee: Option<Payee>,
    /// Seller tax representative (BG-11).
    pub tax_representative: Option<TaxRepresentative>,
}

/// Builder for constructing valid invoices.
pub struct InvoiceBuilder {
    draft: InvoiceDraft,
}

impl View for InvoiceBuilder {
    type V = InvoiceDraft;

    closed spec fn view(&self) -> InvoiceDraft {
        self.draft
    }
}

pub open spec fn opt_str_is(o: Option<String>, s: Seq<char>) -> bool {
    o matches Some(v) && v@ == s
}

/// The builder's error for a draft, if any: missing parties or lines, or a
/// limit exceeded.
pub open spec fn draft_error(d: InvoiceDraft) -> Option<Seq<char>> {
    if d.seller is None {
        Some("seller is required"@)
    } else if d.buyer is None {
        Some("buyer is required"@)
    } else if d.lines@.len() == 0 {
        Some("at least one line item is required"@)
    } else if d.lines@.len() > 10000 {
        Some("invoice cannot have more than 10,000 line items"@)
    } else if utf8_len(d.number@) > 200 {
        Some("invoice number cannot exceed 200 characters"@)
    } else if d.notes@.len() > 100 {
        Some("invoice cannot have more than 100 notes"@)
    } else if d.attachments@.len() > 100 {
        Some("invoice cannot have more than 100 attachments"@)
    } else {
        None
    }
}

/// The invoice a complete draft describes, before its totals are computed.
pub open spec fn draft_invoice(d: InvoiceDraft) -> Invoice {
    Invoice {
        number: d.number,
        issue_date: d.issue_date,
        due_date: d.due_date,
        type_code: d.type_code,
        currency_code: d.currency_code,
        tax_currency_code: d.tax_currency_code,
        notes: d.notes,
        buyer_reference: d.buyer_reference,
        project_reference: d.project_reference,
        contract_reference: d.contract_reference,
        order_reference: d.order_reference,
        sales_order_reference: d.sales_order_reference,
        buyer_accounting_reference: d.buyer_accounting_reference,
        seller: d.seller->0,
        buyer: d.buyer->0,
        lines: d.lines,
        vat_scenario: d.vat_scenario,
        allowances: d.allowances,
        charges: d.charges,
        payment_terms: d.payment_terms,
        payment: d.payment,
        tax_point_date: d.tax_point_date,
        invoicing_period: d.invoicing_period,
        delivery: d.delivery,
        preceding_invoices: d.preceding_invoices,
        attachments: d.attachments,
        payee: d.payee,
        tax_representative: d.tax_representative,
        totals: None,
    }
}

/// `inv` is what building `d` gives: the draft's invoice with its line amounts
/// and totals computed, and the VAT total in the VAT accounting currency set.
pub open spec fn built_from(inv: Invoice, d: InvoiceDraft) -> bool {
    let base = draft_invoice(d);
    &&& inv == (Invoice { lines: inv.lines, totals: inv.totals, ..base })
    &&& lines_with_amounts(base.lines@, inv.lines@)
    &&& inv.totals matches Some(t) && totals_of(
        Totals { vat_total_in_tax_currency: None, ..t },
        base,
        d.prepaid@,
    ) && t.vat_total_in_tax_currency == d.vat_total_in_tax_currency
}

/// The VAT identifiers of the draft's parties can be checked.
pub open spec fn draft_vat_ids_sliceable(d: InvoiceDraft) -> bool {
    &&& d.seller matches Some(p) ==> (p.vat_id matches Some(v) ==> vat_id_sliceable(v@))
    &&& d.buyer matches Some(p) ==> (p.vat_id matches Some(v) ==> vat_id_sliceable(v@))
}

/// The error texts of `es` joined by `"; "`.
pub open spec fn joined_errors(es: Seq<ErrorView>) -> Seq<char>
    decreases es.len(),
{
    if es.len() == 0 {
        seq![]
    } else if es.len() == 1 {
        validation_error_text(es[0])
    } else {
        joined_errors(es.drop_last()) + "; "@ + validation_error_text(es.last())
    }
}

/// A `Validation` error whose message lists all `errors`.
pub fn errors_to_validation_error(errors: &Vec<ValidationError>) -> (r: RechnungError)
    ensures
        r matches RechnungError::Validation(m) && m@ == joined_errors(errors_view(errors@)),
{
    let mut msg = String::new();
    let mut i: usize = 0;
    proof {
        assert(errors_view(errors@.subrange(0, 0)) =~= Seq::<ErrorView>::empty());
    }
    while i < errors.len()
        invariant
            i <= errors.len(),
            msg@ == joined_errors(errors_view(errors@.subrange(0, i as int))),
        decreases errors.len() - i,
    {
        if i > 0 {
            push_str(&mut msg, "; ");
        }
        let t = errors[i].display();
        push_str(&mut msg, t.as_str());
        proof {
            let pre = errors_view(errors@.subrange(0, i + 1));
            assert(pre.drop_last() =~= errors_view(errors@.subrange(0, i as int)));
            assert(pre.last() == crate::model::error::error_view(errors@[i as int]));
            if i == 0 {
                assert(pre.len() == 1);
            }
        }
        i = i + 1;
    }
    proof {
        assert(errors@.subrange(0, errors.len() as int) =~= errors@);
    }
    RechnungError::Validation(msg)
}

impl InvoiceBuilder {
    /// Create a new invoice builder with the required invoice number and issue date.
    pub fn new(number: &str, issue_date: Date) -> (r: InvoiceBuilder)
        ensures
            r@.number@ == number@,
            r@.issue_date == issue_date,
            r@.due_date is None,
            r@.type_code == InvoiceTypeCode::Invoice,
            r@.currency_code@ == "EUR"@,
            r@.tax_currency_code is None,
            r@.vat_total_in_tax_currency is None,
            r@.notes@.len() == 0,
            r@.buyer_reference is None,
            r@.project_reference is None,
            r@.contract_reference is None,
            r@.order_reference is None,
            r@.sales_order_reference is None,
            r@.buyer_accounting_reference is None,
            r@.seller is None,
            r@.buyer is None,
            r@.lines@.len() == 0,
            r@.vat_scenario == VatScenario::Domestic,
            r@.allowances@.len() == 0,
            r@.charges@.len() == 0,
            r@.payment_terms is None,
            r@.payment is None,
            r@.tax_point_date is None,
            r@.invoicing_period is None,
            r@.delivery is None,
            r@.prepaid@ == (0i128, 0u32),
            r@.preceding_invoices@.len() == 0,
            r@.attachments@.len() == 0,
            r@.payee is None,
            r@.tax_representative is None,
    {
        InvoiceBuilder {
            draft: InvoiceDraft {
                number: string_of(number),
                issue_date,
                due_date: None,
                type_code: InvoiceTypeCode::Invoice,
                currency_code: string_of("EUR"),
                tax_currency_code: None,
                vat_total_in_tax_currency: None,
                notes: Vec::new(),
                buyer_reference: None,
                project_reference: None,
                contract_reference: None,
                order_reference: None,
                sales_order_reference: None,
                buyer_accounting_reference: None,
                seller: None,
                buyer: None,
                lines: Vec::new(),
                vat_scenario: VatScenario::Domestic,
                allowances: Vec::new(),
                charges: Vec::new(),
                payment_terms: None,
                payment: None,
                tax_point_date: None,
                invoicing_period: None,
                delivery: None,
                prepaid: Dec::zero(),
                preceding_invoices: Vec::new(),
                attachments: Vec::new(),
                payee: None,
                tax_representative: None,
            },
        }
    }


    /// Set the payment due date (BT-9).
    pub fn due_date(self, date: Date) -> (r: InvoiceBuilder)
        ensures
            r@ == (InvoiceDraft { due_date: r@.due_date, ..self@ }),
            r@.due_date == Some(date),
    {
        InvoiceBuilder { draft: InvoiceDraft { due_date: Some(date), ..self.draft } }
    }

    /// Set the invoice type code (BT-3). Defaults to `Invoice` (380).
    pub fn type_code(self, code: InvoiceTypeCode) -> (r: InvoiceBuilder)
        ensures
            r@ == (InvoiceDraft { type_code: r@.type_code, ..self@ }),
            r@.type_code == code,
    {
        InvoiceBuilder { draft: InvoiceDraft { type_code: code, ..self.draft } }
    }

    /// Set the currency code (BT-5). Defaults to `"EUR"`.
    pub fn currency(self, code: &str) -> (r: InvoiceBuilder)
        ensures
            r@ == (InvoiceDraft { currency_code: r@.currency_code, ..self@ }),
            r@.currency_code@ == code@,
    {
        InvoiceBuilder { draft: InvoiceDraft { currency_code: string_of(code), ..self.draft } }
    }

    /// Set the buyer reference (BT-10). Required for XRechnung (Leitweg-ID).
    pub fn buyer_reference(self, reference: &str) -> (r: InvoiceBuilder)
        ensures
            r@ == (InvoiceDraft { buyer_reference: r@.buyer_reference, ..self@ }),
            opt_str_is(r@.buyer_reference, reference@),
    {
        InvoiceBuilder { draft: InvoiceDraft { buyer_reference: Some(string_of(reference)), ..self.draft } }
    }

    /// Set the project reference (BT-11).
    pub fn project_reference(self, reference: &str) -> (r: InvoiceBuilder)
        ensures
            r@ == (InvoiceDraft { project_reference: r@.project_reference, ..self@ }),
            opt_str_is(r@.project_reference, reference@),
    {
        InvoiceBuilder { draft: InvoiceDraft { project_reference: Some(string_of(reference)), ..self.draft } }
    }

    /// Set the contract reference (BT-12).
    pub fn contract_reference(self, reference: &str) -> (r: InvoiceBuilder)
        ensures
            r@ == (InvoiceDraft { contract_reference: r@.contract_reference, ..self@ }),
            opt_str_is(r@.contract_reference, reference@),
    {
        InvoiceBuilder { draft: InvoiceDraft { contract_reference: Some(string_of(reference)), ..self.draft } }
    }

    /// Set the purchase order reference (BT-13).
    pub fn order_reference(self, reference: &str) -> (r: InvoiceBuilder)
        ensures
            r@ == (InvoiceDraft { order_reference: r@.order_reference, ..self@ }),
            opt_str_is(r@.order_reference, reference@),
    {
        InvoiceBuilder { draft: InvoiceDraft { order_reference: Some(string_of(reference)), ..self.draft } }
    }

    /// Set the sales order reference (BT-14).
    pub fn sales_order_reference(self, reference: &str) -> (r: InvoiceBuilder)
        ensures
            r@ == (InvoiceDraft { sales_order_reference: r@.sales_order_reference, ..self@ }),
            opt_str_is(r@.sales_order_reference, reference@),
    {
        InvoiceBuilder { draft: InvoiceDraft { sales_order_reference: Some(string_of(reference)), ..self.draft } }
    }

    /// Set the buyer accounting reference (BT-19).
    pub fn buyer_accounting_reference(self, reference: &str) -> (r: InvoiceBuilder)
        ensures
            r@ == (InvoiceDraft { buyer_accounting_reference: r@.buyer_accounting_reference, ..self@ }),
            opt_str_is(r@.buyer_accounting_reference, reference@),
    {
        InvoiceBuilder { draft: InvoiceDraft { buyer_accounting_reference: Some(string_of(reference)), ..self.draft } }
    }

    /// Set the payment terms description (BT-20), e.g. "Net 30 days".
    pub fn payment_terms(self, terms: &str) -> (r: InvoiceBuilder)
        ensures
            r@ == (InvoiceDraft { payment_terms: r@.payment_terms, ..self@ }),
            opt_str_is(r@.payment_terms, terms@),
    {
        InvoiceBuilder { draft: InvoiceDraft { payment_terms: Some(string_of(terms)), ..self.draft } }
    }

    /// Set the seller party (BG-4). Required.
    pub fn seller(self, party: Party) -> (r: InvoiceBuilder)
        ensures
            r@ == (InvoiceDraft { seller: r@.seller, ..self@ }),
            r@.seller == Some(party),
    {
        InvoiceBuilder { draft: InvoiceDraft { seller: Some(party), ..self.draft } }
    }

    /// Set the buyer party (BG-7). Required.
    pub fn buyer(self, party: Party) -> (r: InvoiceBuilder)
        ensures
            r@ == (InvoiceDraft { buyer: r@.buyer, ..self@ }),
            r@.buyer == Some(party),
    {
        InvoiceBuilder { draft: InvoiceDraft { buyer: Some(party), ..self.draft } }
    }

    /// Set the VAT scenario. Defaults to `Domestic`.
    pub fn vat_scenario(self, scenario: VatScenario) -> (r: InvoiceBuilder)
        ensures
            r@ == (InvoiceDraft { vat_scenario: r@.vat_scenario, ..self@ }),
            r@.vat_scenario == scenario,
    {
        InvoiceBuilder { draft: InvoiceDraft { vat_scenario: scenario, ..self.draft } }
    }

    /// Set the payment instructions (BG-16).
    pub fn payment(self, payment: PaymentInstructions) -> (r: InvoiceBuilder)
        ensures
            r@ == (InvoiceDraft { payment: r@.payment, ..self@ }),
            r@.payment == Some(payment),
    {
        InvoiceBuilder { draft: InvoiceDraft { payment: Some(payment), ..self.draft } }
    }

    /// Set the delivery date / tax point date (BT-7, §14 Abs. 4 Nr. 6 UStG).
    pub fn tax_point_date(self, date: Date) -> (r: InvoiceBuilder)
        ensures
            r@ == (InvoiceDraft { tax_point_date: r@.tax_point_date, ..self@ }),
            r@.tax_point_date == Some(date),
    {
        InvoiceBuilder { draft: InvoiceDraft { tax_point_date: Some(date), ..self.draft } }
    }

    /// Set the prepaid amount to deduct from the grand total.
    pub fn prepaid(self, amount: Dec) -> (r: InvoiceBuilder)
        ensures
            r@ == (InvoiceDraft { prepaid: r@.prepaid, ..self@ }),
            r@.prepaid == amount,
    {
        InvoiceBuilder { draft: InvoiceDraft { prepaid: amount, ..self.draft } }
    }

    /// Set delivery information (BG-13).
    pub fn delivery(self, delivery: DeliveryInformation) -> (r: InvoiceBuilder)
        ensures
            r@ == (InvoiceDraft { delivery: r@.delivery, ..self@ }),
            r@.delivery == Some(delivery),
    {
        InvoiceBuilder { draft: InvoiceDraft { delivery: Some(delivery), ..self.draft } }
    }

    /// Set the payee party (BG-10), when different from the seller.
    pub fn payee(self, payee: Payee) -> (r: InvoiceBuilder)
        ensures
            r@ == (InvoiceDraft { payee: r@.payee, ..self@ }),
            r@.payee == Some(payee),
    {
        InvoiceBuilder { draft: InvoiceDraft { payee: Some(payee), ..self.draft } }
    }

    /// Set the seller tax representative party (BG-11).
    pub fn tax_representative(self, tax_rep: TaxRepresentative) -> (r: InvoiceBuilder)
        ensures
            r@ == (InvoiceDraft { tax_representative: r@.tax_representative, ..self@ }),
            r@.tax_representative == Some(tax_rep),
    {
        InvoiceBuilder { draft: InvoiceDraft { tax_representative: Some(tax_rep), ..self.draft } }
    }

    /// Add a free-text note to the invoice (BT-22).
    pub fn note(self, note: &str) -> (r: InvoiceBuilder)
        ensures
            r@ == (InvoiceDraft { notes: r@.notes, ..self@ }),
            r@.notes@.len() == self@.notes@.len() + 1 && r@.notes@.drop_last() == self@.notes@ && r@.notes@.last()@ == note@,
    {
        let mut d = self.draft;
        d.notes.push(string_of(note));
        InvoiceBuilder { draft: d }
    }

    /// Add a line item (BG-25). At least one is required.
    pub fn add_line(self, line: LineItem) -> (r: InvoiceBuilder)
        ensures
            r@ == (InvoiceDraft { lines: r@.lines, ..self@ }),
            r@.lines@ == self@.lines@.push(line),
    {
        let mut d = self.draft;
        d.lines.push(line);
        InvoiceBuilder { draft: d }
    }

    /// Add a document-level allowance (BG-20).
    pub fn add_allowance(self, allowance: AllowanceCharge) -> (r: InvoiceBuilder)
        ensures
            r@ == (InvoiceDraft { allowances: r@.allowances, ..self@ }),
            r@.allowances@ == self@.allowances@.push(AllowanceCharge { is_charge: false, ..allowance }),
    {
        let mut d = self.draft;
        d.allowances.push(AllowanceCharge { is_charge: false, ..allowance });
        InvoiceBuilder { draft: d }
    }

    /// Add a document-level charge (BG-21).
    pub fn add_charge(self, charge: AllowanceCharge) -> (r: InvoiceBuilder)
        ensures
            r@ == (InvoiceDraft { charges: r@.charges, ..self@ }),
            r@.charges@ == self@.charges@.push(AllowanceCharge { is_charge: true, ..charge }),
    {
        let mut d = self.draft;
        d.charges.push(AllowanceCharge { is_charge: true, ..charge });
        InvoiceBuilder { draft: d }
    }

    /// Add a document attachment (BG-24). Maximum 100 attachments.
    pub fn add_attachment(self, attachment: DocumentAttachment) -> (r: InvoiceBuilder)
        ensures
            r@ == (InvoiceDraft { attachments: r@.attachments, ..self@ }),
            r@.attachments@ == self@.attachments@.push(attachment),
    {
        let mut d = self.draft;
        d.attachments.push(attachment);
        InvoiceBuilder { draft: d }
    }

    /// Set the invoicing period (BG-14) as an alternative to `tax_point_date`.
    pub fn invoicing_period(self, start: Date, end: Date) -> (r: InvoiceBuilder)
        ensures
            r@ == (InvoiceDraft { invoicing_period: Some(Period { start, end }), ..self@ }),
    {
        InvoiceBuilder { draft: InvoiceDraft { invoicing_period: Some(Period { start, end }), ..self.draft } }
    }

    /// Add a preceding invoice reference (BG-3, BT-25/BT-26).
    pub fn add_preceding_invoice(self, number: &str, issue_date: Option<Date>) -> (r: InvoiceBuilder)
        ensures
            r@ == (InvoiceDraft { preceding_invoices: r@.preceding_invoices, ..self@ }),
            r@.preceding_invoices@.len() == self@.preceding_invoices@.len() + 1,
            r@.preceding_invoices@.drop_last() == self@.preceding_invoices@,
            r@.preceding_invoices@.last().number@ == number@,
            r@.preceding_invoices@.last().issue_date == issue_date,
    {
        let mut d = self.draft;
        d.preceding_invoices.push(PrecedingInvoiceReference { number: string_of(number), issue_date });
        InvoiceBuilder { draft: d }
    }

    /// Set the tax currency code (BT-6) and VAT total in that currency (BT-111).
    pub fn tax_currency(self, code: &str, tax_total: Dec) -> (r: InvoiceBuilder)
        ensures
            r@ == (InvoiceDraft {
                tax_currency_code: r@.tax_currency_code,
                vat_total_in_tax_currency: Some(tax_total),
                ..self@
            }),
            opt_str_is(r@.tax_currency_code, code@),
    {
        InvoiceBuilder {
            draft: InvoiceDraft {
                tax_currency_code: Some(string_of(code)),
                vat_total_in_tax_currency: Some(tax_total),
                ..self.draft
            },
        }
    }

    /// Shared invoice construction: checks the draft, computes the totals.
    fn build_inner(self) -> (r: Result<Invoice, RechnungError>)
        ensures
            match r {
                Ok(inv) => draft_error(self@) is None && totals_computable(
                    draft_invoice(self@),
                    self@.prepaid@,
                ) && built_from(inv, self@),
                Err(RechnungError::Builder(m)) => draft_error(self@) == Some(m@),
                Err(RechnungError::Arithmetic(_)) => draft_error(self@) is None
                    && !totals_computable(draft_invoice(self@), self@.prepaid@),
                _ => false,
            },
    {
        let ghost d = self@;
        let InvoiceDraft {
            number,
            issue_date,
            due_date,
            type_code,
            currency_code,
            tax_currency_code,
            vat_total_in_tax_currency,
            notes,
            buyer_reference,
            project_reference,
            contract_reference,
            order_reference,
            sales_order_reference,
            buyer_accounting_reference,
            seller,
            buyer,
            lines,
            vat_scenario,
            allowances,
            charges,
            payment_terms,
            payment,
            tax_point_date,
            invoicing_period,
            delivery,
            prepaid,
            preceding_invoices,
            attachments,
            payee,
            tax_representative,
        } = self.draft;
        let seller = match seller {
            Some(p) => p,
            None => {
                return Err(RechnungError::Builder(string_of("seller is required")));
            },
        };
        let buyer = match buyer {
            Some(p) => p,
            None => {
                return Err(RechnungError::Builder(string_of("buyer is required")));
            },
        };
        if lines.len() == 0 {
            return Err(RechnungError::Builder(string_of("at least one line item is required")));
        }
        if lines.len() > 10000 {
            return Err(
                RechnungError::Builder(string_of("invoice cannot have more than 10,000 line items")),
            );
        }
        if byte_len(number.as_str()) > 200 {
            return Err(
                RechnungError::Builder(string_of("invoice number cannot exceed 200 characters")),
            );
        }
        if notes.len() > 100 {
            return Err(
                RechnungError::Builder(string_of("invoice cannot have more than 100 notes")),
            );
        }
        if attachments.len() > 100 {
            return Err(
                RechnungError::Builder(string_of("invoice cannot have more than 100 attachments")),
            );
        }
        let mut invoice = Invoice {
            number,
            issue_date,
            due_date,
            type_code,
            currency_code,
            tax_currency_code,
            notes,
            buyer_reference,
            project_reference,
            contract_reference,
            order_reference,
            sales_order_reference,
            buyer_accounting_reference,
            seller,
            buyer,
            lines,
            vat_scenario,
            allowances,
            charges,
            totals: None,
            payment_terms,
            payment,
            tax_point_date,
            invoicing_period,
            payee,
            tax_representative,
            preceding_invoices,
            attachments,
            delivery,
        };
        proof {
            assert(invoice == draft_invoice(d));
        }
        match calculate_totals(&mut invoice, prepaid) {
            Ok(()) => {},
            Err(e) => {
                return Err(e);
            },
        }
        let ghost computed = invoice;
        let totals = invoice.totals;
        invoice.totals = match totals {
            Some(t) => Some(Totals { vat_total_in_tax_currency, ..t }),
            None => None,
        };
        proof {
            let t = computed.totals->0;
            assert(Totals { vat_total_in_tax_currency: None, ..invoice.totals->0 } == t);
        }
        Ok(invoice)
    }

    /// Build without validation — useful for testing or importing external data.
    pub fn build_unchecked(self) -> (r: Result<Invoice, RechnungError>)
        ensures
            match r {
                Ok(inv) => draft_error(self@) is None && totals_computable(
                    draft_invoice(self@),
                    self@.prepaid@,
                ) && built_from(inv, self@),
                Err(RechnungError::Builder(m)) => draft_error(self@) == Some(m@),
                Err(RechnungError::Arithmetic(_)) => draft_error(self@) is None
                    && !totals_computable(draft_invoice(self@), self@.prepaid@),
                _ => false,
            },
    {
        self.build_inner()
    }

    /// Build the invoice, calculating totals and running §14 UStG validation.
    /// Returns all validation errors (not just the first).
    pub fn build(self) -> (r: Result<Invoice, RechnungError>)
        requires
            draft_vat_ids_sliceable(self@),
        ensures
            match r {
                Ok(inv) => draft_error(self@) is None && totals_computable(
                    draft_invoice(self@),
                    self@.prepaid@,
                ) && built_from(inv, self@) && ustg_errors(inv).len() == 0,
                Err(RechnungError::Builder(m)) => draft_error(self@) == Some(m@),
                Err(RechnungError::Arithmetic(_)) => draft_error(self@) is None
                    && !totals_computable(draft_invoice(self@), self@.prepaid@),
                Err(RechnungError::Validation(m)) => draft_error(self@) is None
                    && totals_computable(draft_invoice(self@), self@.prepaid@) && exists|
                    inv: Invoice,
                |
                    built_from(inv, self@) && ustg_errors(inv).len() > 0 && m@ == joined_errors(
                        #[trigger] ustg_errors(inv),
                    ),
                _ => false,
            },
    {
        let ghost d = self@;
        let invoice = match self.build_inner() {
            Ok(inv) => inv,
            Err(e) => {
                return Err(e);
            },
        };
        let errors = validate_14_ustg(&invoice);
        if errors.len() > 0 {
            let e = errors_to_validation_error(&errors);
            proof {
                assert(built_from(invoice, d) && ustg_errors(invoice).len() > 0);
            }
            return Err(e);
        }
        Ok(invoice)
    }

    /// Build with full EN 16931 validation (§14 UStG + EN 16931 rules).
    ///
    /// Stricter than `build` — also checks duplicate line IDs, VAT breakdown
    /// consistency, decimal precision, and other EN 16931 business rules.
    pub fn build_strict(self) -> (r: Result<Invoice, RechnungError>)
        requires
            draft_vat_ids_sliceable(self@),
        ensures
            match r {
                Ok(inv) => draft_error(self@) is None && totals_computable(
                    draft_invoice(self@),
                    self@.prepaid@,
                ) && built_from(inv, self@) && ustg_errors(inv).len() == 0 && en16931_errors(
                    inv,
                ).len() == 0,
                Err(RechnungError::Builder(m)) => draft_error(self@) == Some(m@),
                Err(RechnungError::Arithmetic(_)) => draft_error(self@) is None
                    && !totals_computable(draft_invoice(self@), self@.prepaid@),
                Err(RechnungError::Validation(m)) => draft_error(self@) is None
                    && totals_computable(draft_invoice(self@), self@.prepaid@) && exists|
                    inv: Invoice,
                |
                    built_from(inv, self@) && (ustg_errors(inv) + en16931_errors(inv)).len() > 0
                        && m@ == joined_errors(#[trigger] ustg_errors(inv) + en16931_errors(inv)),
                _ => false,
            },
    {
        let ghost d = self@;
        let invoice = match self.build_inner() {
            Ok(inv) => inv,
            Err(e) => {
                return Err(e);
            },
        };
        let mut errors = validate_14_ustg(&invoice);
        let mut more = validate_en16931(&invoice);
        let ghost e1 = errors_view(errors@);
        let ghost e2 = errors_view(more@);
        errors.append(&mut more);
        proof {
            assert(errors_view(errors@) =~= e1 + e2);
        }
        if errors.len() > 0 {
            let e = errors_to_validation_error(&errors);
            proof {
                assert(built_from(invoice, d) && (ustg_errors(invoice) + en16931_errors(
                    invoice,
                )).len() > 0);
            }
            return Err(e);
        }
        Ok(invoice)
    }
}

} // verus!
