//! Reading UBL 2.1 invoices: the text of each element, by its path, into
//! the fields of a parsed document, then the invoice built from them.
use vstd::prelude::*;
use crate::xrechnung::read::{
    back, back_name, is_final, name_is, next_read, on_path, path_has, reader_for, reads_left, reads_wf,
    xml_reads, XmlRead,
};

verus! {

/// Text fields of a UBL document as read, with the attribute values seen last.
pub struct DocFields {
    pub number: Option<String>,
    pub issue_date: Option<String>,
    pub due_date: Option<String>,
    pub type_code: Option<String>,
    pub currency_code: Option<String>,
    pub tax_currency_code: Option<String>,
    pub buyer_reference: Option<String>,
    pub order_reference: Option<String>,
    pub tax_point_date: Option<String>,
    pub invoicing_period_start: Option<String>,
    pub invoicing_period_end: Option<String>,
    pub seller_name: Option<String>,
    pub seller_trading_name: Option<String>,
    pub seller_vat_id: Option<String>,
    pub seller_tax_number: Option<String>,
    pub seller_reg_id: Option<String>,
    pub seller_street: Option<String>,
    pub seller_additional: Option<String>,
    pub seller_city: Option<String>,
    pub seller_postal: Option<String>,
    pub seller_country: Option<String>,
    pub seller_subdivision: Option<String>,
    pub seller_contact_name: Option<String>,
    pub seller_contact_phone: Option<String>,
    pub seller_contact_email: Option<String>,
    pub seller_endpoint_scheme: Option<String>,
    pub seller_endpoint_value: Option<String>,
    pub buyer_name: Option<String>,
    pub buyer_trading_name: Option<String>,
    pub buyer_vat_id: Option<String>,
    pub buyer_tax_number: Option<String>,
    pub buyer_reg_id: Option<String>,
    pub buyer_street: Option<String>,
    pub buyer_additional: Option<String>,
    pub buyer_city: Option<String>,
    pub buyer_postal: Option<String>,
    pub buyer_country: Option<String>,
    pub buyer_subdivision: Option<String>,
    pub buyer_contact_name: Option<String>,
    pub buyer_contact_phone: Option<String>,
    pub buyer_contact_email: Option<String>,
    pub buyer_endpoint_scheme: Option<String>,
    pub buyer_endpoint_value: Option<String>,
    pub payee_name: Option<String>,
    pub payee_identifier: Option<String>,
    pub payee_legal_reg_id: Option<String>,
    pub tax_rep_name: Option<String>,
    pub tax_rep_vat_id: Option<String>,
    pub tax_rep_street: Option<String>,
    pub tax_rep_additional: Option<String>,
    pub tax_rep_city: Option<String>,
    pub tax_rep_postal: Option<String>,
    pub tax_rep_country: Option<String>,
    pub tax_rep_subdivision: Option<String>,
    pub payment_means_code: Option<String>,
    pub payment_means_text: Option<String>,
    pub payment_remittance_info: Option<String>,
    pub card_account_number: Option<String>,
    pub card_holder_name: Option<String>,
    pub direct_debit_mandate_id: Option<String>,
    pub direct_debit_account_id: Option<String>,
    pub direct_debit_creditor_id: Option<String>,
    pub payment_iban: Option<String>,
    pub payment_bic: Option<String>,
    pub payment_account_name: Option<String>,
    pub payment_terms: Option<String>,
    pub line_extension_amount: Option<String>,
    pub tax_exclusive_amount: Option<String>,
    pub tax_inclusive_amount: Option<String>,
    pub payable_amount: Option<String>,
    pub prepaid_amount: Option<String>,
    pub allowance_total_amount: Option<String>,
    pub charge_total_amount: Option<String>,
    pub tax_amount: Option<String>,
    pub tax_total_in_tax_currency: Option<String>,
    pub delivery_actual_date: Option<String>,
    pub delivery_party_name: Option<String>,
    pub delivery_party_location_id: Option<String>,
    pub delivery_street: Option<String>,
    pub delivery_additional: Option<String>,
    pub delivery_city: Option<String>,
    pub delivery_postal: Option<String>,
    pub delivery_country: Option<String>,
    pub delivery_subdivision: Option<String>,
    pub current_scheme_id: Option<String>,
    pub current_unit_code: Option<String>,
    pub current_currency_id: Option<String>,
    pub seller_prev_vat_id: Option<String>,
    pub seller_id_pending: bool,
    pub buyer_prev_vat_id: Option<String>,
    pub buyer_id_pending: bool,
}

/// A VAT breakdown entry as read.
pub struct ParsedBreakdown {
    pub taxable_amount: Option<String>,
    pub tax_amount: Option<String>,
    pub category_id: Option<String>,
    pub percent: Option<String>,
    pub exemption_reason: Option<String>,
    pub exemption_reason_code: Option<String>,
}

/// An allowance or charge as read.
pub struct ParsedAc {
    pub is_charge: Option<String>,
    pub amount: Option<String>,
    pub base_amount: Option<String>,
    pub reason: Option<String>,
    pub reason_code: Option<String>,
    pub tax_category: Option<String>,
    pub tax_rate: Option<String>,
    pub percentage: Option<String>,
}

/// A preceding invoice reference as read.
pub struct ParsedPreceding {
    pub number: Option<String>,
    pub issue_date: Option<String>,
}

/// A supporting document as read.
pub struct ParsedAttachment {
    pub id: Option<String>,
    pub description: Option<String>,
    pub content: Option<String>,
    pub mime_type: Option<String>,
    pub filename: Option<String>,
    pub external_uri: Option<String>,
}

/// Text fields of an invoice line as read.
pub struct LineFields {
    pub id: Option<String>,
    pub note: Option<String>,
    pub quantity: Option<String>,
    pub unit: Option<String>,
    pub line_amount: Option<String>,
    pub item_name: Option<String>,
    pub description: Option<String>,
    pub seller_item_id: Option<String>,
    pub buyer_item_id: Option<String>,
    pub standard_item_id: Option<String>,
    pub standard_item_scheme: Option<String>,
    pub unit_price: Option<String>,
    pub gross_price: Option<String>,
    pub base_quantity: Option<String>,
    pub base_quantity_unit: Option<String>,
    pub tax_category: Option<String>,
    pub tax_rate: Option<String>,
    pub origin_country: Option<String>,
    pub current_attr_name: Option<String>,
    pub invoicing_period_start: Option<String>,
    pub invoicing_period_end: Option<String>,
}

/// An invoice line as read.
pub struct ParsedLine {
    pub f: LineFields,
    pub attributes: Vec<(String, String)>,
    pub acs: Vec<ParsedAc>,
    pub current_ac: Option<ParsedAc>,
}

/// What a line holds.
pub struct ParsedLineV {
    pub f: LineFields,
    pub attributes: Seq<(Seq<char>, Seq<char>)>,
    pub acs: Seq<ParsedAc>,
    pub current_ac: Option<ParsedAc>,
}

impl View for ParsedLine {
    type V = ParsedLineV;

    open spec fn view(&self) -> ParsedLineV {
        ParsedLineV {
            f: self.f,
            attributes: self.attributes@.map_values(|a: (String, String)| (a.0@, a.1@)),
            acs: self.acs@,
            current_ac: self.current_ac,
        }
    }
}

/// A UBL document as read so far.
pub struct ParsedDoc {
    pub f: DocFields,
    pub notes: Vec<String>,
    pub preceding: Vec<ParsedPreceding>,
    pub current_preceding: Option<ParsedPreceding>,
    pub attachments: Vec<ParsedAttachment>,
    pub current_attachment: Option<ParsedAttachment>,
    pub breakdowns: Vec<ParsedBreakdown>,
    pub current_breakdown: Option<ParsedBreakdown>,
    pub lines: Vec<ParsedLine>,
    pub current_line: Option<ParsedLine>,
    pub doc_acs: Vec<ParsedAc>,
    pub current_doc_ac: Option<ParsedAc>,
}

/// What a parsed document holds.
pub struct ParsedDocV {
    pub f: DocFields,
    pub notes: Seq<String>,
    pub preceding: Seq<ParsedPreceding>,
    pub current_preceding: Option<ParsedPreceding>,
    pub attachments: Seq<ParsedAttachment>,
    pub current_attachment: Option<ParsedAttachment>,
    pub breakdowns: Seq<ParsedBreakdown>,
    pub current_breakdown: Option<ParsedBreakdown>,
    pub lines: Seq<ParsedLineV>,
    pub current_line: Option<ParsedLineV>,
    pub doc_acs: Seq<ParsedAc>,
    pub current_doc_ac: Option<ParsedAc>,
}

pub open spec fn opt_line_view(o: Option<ParsedLine>) -> Option<ParsedLineV> {
    match o {
        Some(l) => Some(l@),
        None => None,
    }
}

impl View for ParsedDoc {
    type V = ParsedDocV;

    open spec fn view(&self) -> ParsedDocV {
        ParsedDocV {
            f: self.f,
            notes: self.notes@,
            preceding: self.preceding@,
            current_preceding: self.current_preceding,
            attachments: self.attachments@,
            current_attachment: self.current_attachment,
            breakdowns: self.breakdowns@,
            current_breakdown: self.current_breakdown,
            lines: self.lines@.map_values(|l: ParsedLine| l@),
            current_line: opt_line_view(self.current_line),
            doc_acs: self.doc_acs@,
            current_doc_ac: self.current_doc_ac,
        }
    }
}

// ---------------------------------------------------------------- where a text stands

pub open spec fn lf(p: Seq<String>) -> Seq<char> {
    back_name(p, 1)
}

pub open spec fn pa(p: Seq<String>) -> Seq<char> {
    back_name(p, 2)
}

pub open spec fn gp(p: Seq<String>) -> Seq<char> {
    back_name(p, 3)
}

pub open spec fn ggp(p: Seq<String>) -> Seq<char> {
    back_name(p, 4)
}

pub open spec fn in_seller(p: Seq<String>) -> bool {
    on_path(p, "cac:AccountingSupplierParty"@)
}

pub open spec fn in_buyer(p: Seq<String>) -> bool {
    on_path(p, "cac:AccountingCustomerParty"@)
}

pub open spec fn in_line(p: Seq<String>) -> bool {
    on_path(p, "cac:InvoiceLine"@) || on_path(p, "cac:CreditNoteLine"@)
}

pub open spec fn in_tax_total(p: Seq<String>) -> bool {
    on_path(p, "cac:TaxTotal"@) && !in_line(p)
}

pub open spec fn in_billing(p: Seq<String>) -> bool {
    on_path(p, "cac:BillingReference"@)
}

pub open spec fn in_adr(p: Seq<String>) -> bool {
    on_path(p, "cac:AdditionalDocumentReference"@) && !in_line(p)
}

/// The document root, with or without the `ubl:` prefix.
pub open spec fn is_ubl_root(n: Seq<char>) -> bool {
    n == "ubl:Invoice"@ || n == "ubl:CreditNote"@ || n == "Invoice"@ || n == "CreditNote"@
}

pub open spec fn with_f(s: ParsedDocV, f: DocFields) -> ParsedDocV {
    ParsedDocV { f, ..s }
}

/// What the path says of a text, computed once per text.
pub struct UblCtx<'a> {
    pub path: &'a Vec<String>,
    pub leaf: &'a str,
    pub parent: &'a str,
    pub grand: &'a str,
    pub great: &'a str,
    pub in_seller: bool,
    pub in_buyer: bool,
    pub in_line: bool,
}

pub open spec fn ctx_ok(c: UblCtx) -> bool {
    &&& c.leaf@ == lf(c.path@)
    &&& c.parent@ == pa(c.path@)
    &&& c.grand@ == gp(c.path@)
    &&& c.great@ == ggp(c.path@)
    &&& c.in_seller == in_seller(c.path@)
    &&& c.in_buyer == in_buyer(c.path@)
    &&& c.in_line == in_line(c.path@)
}

fn ubl_root(n: &str) -> (r: bool)
    ensures
        r == is_ubl_root(n@),
{
    name_is(n, "ubl:Invoice") || name_is(n, "ubl:CreditNote") || name_is(n, "Invoice") || name_is(n, "CreditNote")
}

// ---------------------------------------------------------------- document level

/// Invoice-level fields: outside parties, lines, tax totals, references.
pub open spec fn doc_block(s: ParsedDocV, p: Seq<String>, t: String) -> ParsedDocV {
    let l = lf(p);
    let pr = pa(p);
    let f = s.f;
    if in_seller(p) || in_buyer(p) || in_line(p) || in_tax_total(p) || in_billing(p) || in_adr(p) {
        s
    } else if l == "cbc:ID"@ && is_ubl_root(pr) {
        with_f(s, DocFields { number: Some(t), ..f })
    } else if l == "cbc:IssueDate"@ && is_ubl_root(pr) {
        with_f(s, DocFields { issue_date: Some(t), ..f })
    } else if l == "cbc:DueDate"@ {
        with_f(s, DocFields { due_date: Some(t), ..f })
    } else if l == "cbc:InvoiceTypeCode"@ || l == "cbc:CreditNoteTypeCode"@ {
        with_f(s, DocFields { type_code: Some(t), ..f })
    } else if l == "cbc:DocumentCurrencyCode"@ {
        with_f(s, DocFields { currency_code: Some(t), ..f })
    } else if l == "cbc:TaxCurrencyCode"@ {
        with_f(s, DocFields { tax_currency_code: Some(t), ..f })
    } else if l == "cbc:BuyerReference"@ {
        with_f(s, DocFields { buyer_reference: Some(t), ..f })
    } else if l == "cbc:Note"@ && is_ubl_root(pr) {
        ParsedDocV { notes: s.notes.push(t), ..s }
    } else if l == "cbc:TaxPointDate"@ {
        with_f(s, DocFields { tax_point_date: Some(t), ..f })
    } else if l == "cbc:ID"@ && pr == "cac:OrderReference"@ {
        with_f(s, DocFields { order_reference: Some(t), ..f })
    } else if l == "cbc:StartDate"@ && pr == "cac:InvoicePeriod"@ {
        with_f(s, DocFields { invoicing_period_start: Some(t), ..f })
    } else if l == "cbc:EndDate"@ && pr == "cac:InvoicePeriod"@ {
        with_f(s, DocFields { invoicing_period_end: Some(t), ..f })
    } else {
        s
    }
}

impl ParsedDoc {
    fn doc_block(&mut self, c: &UblCtx, t: &String)
        requires
            ctx_ok(*c),
        ensures
            final(self)@ == doc_block(old(self)@, c.path@, *t),
    {
        let p = c.path;
        if c.in_seller || c.in_buyer || c.in_line || (path_has(p, "cac:TaxTotal") && !c.in_line) || path_has(
            p,
            "cac:BillingReference",
        ) || (path_has(p, "cac:AdditionalDocumentReference") && !c.in_line) {
            return ;
        }
        let l = c.leaf;
        let pr = c.parent;
        if name_is(l, "cbc:ID") && ubl_root(pr) {
            self.f.number = Some(t.clone());
        } else if name_is(l, "cbc:IssueDate") && ubl_root(pr) {
            self.f.issue_date = Some(t.clone());
        } else if name_is(l, "cbc:DueDate") {
            self.f.due_date = Some(t.clone());
        } else if name_is(l, "cbc:InvoiceTypeCode") || name_is(l, "cbc:CreditNoteTypeCode") {
            self.f.type_code = Some(t.clone());
        } else if name_is(l, "cbc:DocumentCurrencyCode") {
            self.f.currency_code = Some(t.clone());
        } else if name_is(l, "cbc:TaxCurrencyCode") {
            self.f.tax_currency_code = Some(t.clone());
        } else if name_is(l, "cbc:BuyerReference") {
            self.f.buyer_reference = Some(t.clone());
        } else if name_is(l, "cbc:Note") && ubl_root(pr) {
            self.notes.push(t.clone());
        } else if name_is(l, "cbc:TaxPointDate") {
            self.f.tax_point_date = Some(t.clone());
        } else if name_is(l, "cbc:ID") && name_is(pr, "cac:OrderReference") {
            self.f.order_reference = Some(t.clone());
        } else if name_is(l, "cbc:StartDate") && name_is(pr, "cac:InvoicePeriod") {
            self.f.invoicing_period_start = Some(t.clone());
        } else if name_is(l, "cbc:EndDate") && name_is(pr, "cac:InvoicePeriod") {
            self.f.invoicing_period_end = Some(t.clone());
        }
    }
}

// ---------------------------------------------------------------- empty records

pub open spec fn empty_preceding() -> ParsedPreceding {
    ParsedPreceding { number: None, issue_date: None }
}

pub open spec fn empty_attachment() -> ParsedAttachment {
    ParsedAttachment {
        id: None,
        description: None,
        content: None,
        mime_type: None,
        filename: None,
        external_uri: None,
    }
}

pub open spec fn empty_breakdown() -> ParsedBreakdown {
    ParsedBreakdown {
        taxable_amount: None,
        tax_amount: None,
        category_id: None,
        percent: None,
        exemption_reason: None,
        exemption_reason_code: None,
    }
}

pub open spec fn empty_ac() -> ParsedAc {
    ParsedAc {
        is_charge: None,
        amount: None,
        base_amount: None,
        reason: None,
        reason_code: None,
        tax_category: None,
        tax_rate: None,
        percentage: None,
    }
}

pub open spec fn empty_line_fields() -> LineFields {
    LineFields {
        id: None,
        note: None,
        quantity: None,
        unit: None,
        line_amount: None,
        item_name: None,
        description: None,
        seller_item_id: None,
        buyer_item_id: None,
        standard_item_id: None,
        standard_item_scheme: None,
        unit_price: None,
        gross_price: None,
        base_quantity: None,
        base_quantity_unit: None,
        tax_category: None,
        tax_rate: None,
        origin_country: None,
        current_attr_name: None,
        invoicing_period_start: None,
        invoicing_period_end: None,
    }
}

pub open spec fn empty_line() -> ParsedLineV {
    ParsedLineV { f: empty_line_fields(), attributes: seq![], acs: seq![], current_ac: None }
}

impl ParsedPreceding {
    pub fn empty() -> (r: ParsedPreceding)
        ensures
            r == empty_preceding(),
    {
        ParsedPreceding { number: None, issue_date: None }
    }
}

impl ParsedAttachment {
    pub fn empty() -> (r: ParsedAttachment)
        ensures
            r == empty_attachment(),
    {
        ParsedAttachment {
            id: None,
            description: None,
            content: None,
            mime_type: None,
            filename: None,
            external_uri: None,
        }
    }
}

impl ParsedBreakdown {
    pub fn empty() -> (r: ParsedBreakdown)
        ensures
            r == empty_breakdown(),
    {
        ParsedBreakdown {
            taxable_amount: None,
            tax_amount: None,
            category_id: None,
            percent: None,
            exemption_reason: None,
            exemption_reason_code: None,
        }
    }
}

impl ParsedAc {
    pub fn empty() -> (r: ParsedAc)
        ensures
            r == empty_ac(),
    {
        ParsedAc {
            is_charge: None,
            amount: None,
            base_amount: None,
            reason: None,
            reason_code: None,
            tax_category: None,
            tax_rate: None,
            percentage: None,
        }
    }
}

impl ParsedLine {
    pub fn empty() -> (r: ParsedLine)
        ensures
            r@ == empty_line(),
    {
        let r = ParsedLine {
            f: LineFields {
                id: None,
                note: None,
                quantity: None,
                unit: None,
                line_amount: None,
                item_name: None,
                description: None,
                seller_item_id: None,
                buyer_item_id: None,
                standard_item_id: None,
                standard_item_scheme: None,
                unit_price: None,
                gross_price: None,
                base_quantity: None,
                base_quantity_unit: None,
                tax_category: None,
                tax_rate: None,
                origin_country: None,
                current_attr_name: None,
                invoicing_period_start: None,
                invoicing_period_end: None,
            },
            attributes: Vec::new(),
            acs: Vec::new(),
            current_ac: None,
        };
        proof {
            assert(r@.attributes =~= seq![]);
            assert(r@.acs =~= seq![]);
        }
        r
    }
}

// ---------------------------------------------------------------- references

/// BG-3: a preceding invoice reference.
pub open spec fn billing_block(s: ParsedDocV, p: Seq<String>, t: String) -> ParsedDocV {
    if !in_billing(p) {
        s
    } else {
        let pi = match s.current_preceding {
            Some(x) => x,
            None => empty_preceding(),
        };
        let l = lf(p);
        let pr = pa(p);
        let pi2 = if l == "cbc:ID"@ && pr == "cac:InvoiceDocumentReference"@ {
            ParsedPreceding { number: Some(t), ..pi }
        } else if l == "cbc:IssueDate"@ && pr == "cac:InvoiceDocumentReference"@ {
            ParsedPreceding { issue_date: Some(t), ..pi }
        } else {
            pi
        };
        ParsedDocV { current_preceding: Some(pi2), ..s }
    }
}

/// BG-24: a supporting document.
pub open spec fn attachment_block(s: ParsedDocV, p: Seq<String>, t: String) -> ParsedDocV {
    if !in_adr(p) {
        s
    } else {
        let a = match s.current_attachment {
            Some(x) => x,
            None => empty_attachment(),
        };
        let l = lf(p);
        let pr = pa(p);
        let a2 = if l == "cbc:ID"@ && pr == "cac:AdditionalDocumentReference"@ {
            ParsedAttachment { id: Some(t), ..a }
        } else if l == "cbc:DocumentDescription"@ {
            ParsedAttachment { description: Some(t), ..a }
        } else if l == "cbc:EmbeddedDocumentBinaryObject"@ {
            ParsedAttachment { content: Some(t), ..a }
        } else if l == "cbc:URI"@ && pr == "cac:Attachment"@ {
            ParsedAttachment { external_uri: Some(t), ..a }
        } else {
            a
        };
        ParsedDocV { current_attachment: Some(a2), ..s }
    }
}

/// BG-16 to BG-19 and BT-20: payment means, card, mandate, account, terms.
pub open spec fn payment_block(s: ParsedDocV, p: Seq<String>, t: String) -> ParsedDocV {
    let l = lf(p);
    let pr = pa(p);
    let f = s.f;
    if in_line(p) {
        s
    } else if pr == "cac:PaymentMeans"@ && l == "cbc:PaymentMeansCode"@ {
        with_f(s, DocFields { payment_means_code: Some(t), ..f })
    } else if pr == "cac:PaymentMeans"@ && l == "cbc:PaymentID"@ {
        with_f(s, DocFields { payment_remittance_info: Some(t), ..f })
    } else if l == "cbc:PrimaryAccountNumberID"@ && pr == "cac:CardAccount"@ {
        with_f(s, DocFields { card_account_number: Some(t), ..f })
    } else if l == "cbc:HolderName"@ && pr == "cac:CardAccount"@ {
        with_f(s, DocFields { card_holder_name: Some(t), ..f })
    } else if l == "cbc:ID"@ && pr == "cac:PaymentMandate"@ {
        with_f(s, DocFields { direct_debit_mandate_id: Some(t), ..f })
    } else if l == "cbc:ID"@ && pr == "cac:PayerFinancialAccount"@ && on_path(
        p,
        "cac:PaymentMandate"@,
    ) {
        with_f(s, DocFields { direct_debit_account_id: Some(t), ..f })
    } else if l == "cbc:ID"@ && pr == "cac:PayeeFinancialAccount"@ {
        with_f(s, DocFields { payment_iban: Some(t), ..f })
    } else if l == "cbc:Name"@ && pr == "cac:PayeeFinancialAccount"@ {
        with_f(s, DocFields { payment_account_name: Some(t), ..f })
    } else if l == "cbc:ID"@ && pr == "cac:FinancialInstitutionBranch"@ {
        with_f(s, DocFields { payment_bic: Some(t), ..f })
    } else if l == "cbc:Note"@ && pr == "cac:PaymentTerms"@ {
        with_f(s, DocFields { payment_terms: Some(t), ..f })
    } else {
        s
    }
}

/// BG-13 to BG-15: delivery date, deliver-to party and address.
pub open spec fn delivery_block(s: ParsedDocV, p: Seq<String>, t: String) -> ParsedDocV {
    let l = lf(p);
    let pr = pa(p);
    let g = gp(p);
    let f = s.f;
    if !on_path(p, "cac:Delivery"@) || in_line(p) {
        s
    } else if l == "cbc:ActualDeliveryDate"@ {
        with_f(s, DocFields { delivery_actual_date: Some(t), ..f })
    } else if l == "cbc:Name"@ && pr == "cac:PartyName"@ && g == "cac:DeliveryParty"@ {
        with_f(s, DocFields { delivery_party_name: Some(t), ..f })
    } else if l == "cbc:ID"@ && pr == "cac:PartyIdentification"@ && g == "cac:DeliveryParty"@ {
        with_f(s, DocFields { delivery_party_location_id: Some(t), ..f })
    } else if l == "cbc:StreetName"@ && pr == "cac:Address"@ {
        with_f(s, DocFields { delivery_street: Some(t), ..f })
    } else if l == "cbc:AdditionalStreetName"@ && pr == "cac:Address"@ {
        with_f(s, DocFields { delivery_additional: Some(t), ..f })
    } else if l == "cbc:CityName"@ && pr == "cac:Address"@ {
        with_f(s, DocFields { delivery_city: Some(t), ..f })
    } else if l == "cbc:PostalZone"@ && pr == "cac:Address"@ {
        with_f(s, DocFields { delivery_postal: Some(t), ..f })
    } else if l == "cbc:CountrySubentity"@ && pr == "cac:Address"@ {
        with_f(s, DocFields { delivery_subdivision: Some(t), ..f })
    } else if l == "cbc:IdentificationCode"@ && pr == "cac:Country"@ && g == "cac:Address"@ {
        with_f(s, DocFields { delivery_country: Some(t), ..f })
    } else {
        s
    }
}

/// BG-22: the document totals.
pub open spec fn totals_block(s: ParsedDocV, p: Seq<String>, t: String) -> ParsedDocV {
    let l = lf(p);
    let f = s.f;
    if pa(p) != "cac:LegalMonetaryTotal"@ {
        s
    } else if l == "cbc:LineExtensionAmount"@ {
        with_f(s, DocFields { line_extension_amount: Some(t), ..f })
    } else if l == "cbc:TaxExclusiveAmount"@ {
        with_f(s, DocFields { tax_exclusive_amount: Some(t), ..f })
    } else if l == "cbc:TaxInclusiveAmount"@ {
        with_f(s, DocFields { tax_inclusive_amount: Some(t), ..f })
    } else if l == "cbc:PayableAmount"@ {
        with_f(s, DocFields { payable_amount: Some(t), ..f })
    } else if l == "cbc:PrepaidAmount"@ {
        with_f(s, DocFields { prepaid_amount: Some(t), ..f })
    } else if l == "cbc:AllowanceTotalAmount"@ {
        with_f(s, DocFields { allowance_total_amount: Some(t), ..f })
    } else if l == "cbc:ChargeTotalAmount"@ {
        with_f(s, DocFields { charge_total_amount: Some(t), ..f })
    } else {
        s
    }
}

impl ParsedDoc {
    fn billing_block(&mut self, c: &UblCtx, t: &String)
        requires
            ctx_ok(*c),
        ensures
            final(self)@ == billing_block(old(self)@, c.path@, *t),
    {
        if !path_has(c.path, "cac:BillingReference") {
            return ;
        }
        let mut pi = match self.current_preceding.take() {
            Some(x) => x,
            None => ParsedPreceding::empty(),
        };
        if name_is(c.leaf, "cbc:ID") && name_is(c.parent, "cac:InvoiceDocumentReference") {
            pi.number = Some(t.clone());
        } else if name_is(c.leaf, "cbc:IssueDate") && name_is(c.parent, "cac:InvoiceDocumentReference") {
            pi.issue_date = Some(t.clone());
        }
        self.current_preceding = Some(pi);
    }

    fn attachment_block(&mut self, c: &UblCtx, t: &String)
        requires
            ctx_ok(*c),
        ensures
            final(self)@ == attachment_block(old(self)@, c.path@, *t),
    {
        if !(path_has(c.path, "cac:AdditionalDocumentReference") && !c.in_line) {
            return ;
        }
        let mut a = match self.current_attachment.take() {
            Some(x) => x,
            None => ParsedAttachment::empty(),
        };
        let l = c.leaf;
        if name_is(l, "cbc:ID") && name_is(c.parent, "cac:AdditionalDocumentReference") {
            a.id = Some(t.clone());
        } else if name_is(l, "cbc:DocumentDescription") {
            a.description = Some(t.clone());
        } else if name_is(l, "cbc:EmbeddedDocumentBinaryObject") {
            a.content = Some(t.clone());
        } else if name_is(l, "cbc:URI") && name_is(c.parent, "cac:Attachment") {
            a.external_uri = Some(t.clone());
        }
        self.current_attachment = Some(a);
    }

    fn payment_block(&mut self, c: &UblCtx, t: &String)
        requires
            ctx_ok(*c),
        ensures
            final(self)@ == payment_block(old(self)@, c.path@, *t),
    {
        let l = c.leaf;
        let pr = c.parent;
        if c.in_line {
        } else if name_is(pr, "cac:PaymentMeans") && name_is(l, "cbc:PaymentMeansCode") {
            self.f.payment_means_code = Some(t.clone());
        } else if name_is(pr, "cac:PaymentMeans") && name_is(l, "cbc:PaymentID") {
            self.f.payment_remittance_info = Some(t.clone());
        } else if name_is(l, "cbc:PrimaryAccountNumberID") && name_is(pr, "cac:CardAccount") {
            self.f.card_account_number = Some(t.clone());
        } else if name_is(l, "cbc:HolderName") && name_is(pr, "cac:CardAccount") {
            self.f.card_holder_name = Some(t.clone());
        } else if name_is(l, "cbc:ID") && name_is(pr, "cac:PaymentMandate") {
            self.f.direct_debit_mandate_id = Some(t.clone());
        } else if name_is(l, "cbc:ID") && name_is(pr, "cac:PayerFinancialAccount") && path_has(
            c.path,
            "cac:PaymentMandate",
        ) {
            self.f.direct_debit_account_id = Some(t.clone());
        } else if name_is(l, "cbc:ID") && name_is(pr, "cac:PayeeFinancialAccount") {
            self.f.payment_iban = Some(t.clone());
        } else if name_is(l, "cbc:Name") && name_is(pr, "cac:PayeeFinancialAccount") {
            self.f.payment_account_name = Some(t.clone());
        } else if name_is(l, "cbc:ID") && name_is(pr, "cac:FinancialInstitutionBranch") {
            self.f.payment_bic = Some(t.clone());
        } else if name_is(l, "cbc:Note") && name_is(pr, "cac:PaymentTerms") {
            self.f.payment_terms = Some(t.clone());
        }
    }

    fn delivery_block(&mut self, c: &UblCtx, t: &String)
        requires
            ctx_ok(*c),
        ensures
            final(self)@ == delivery_block(old(self)@, c.path@, *t),
    {
        let l = c.leaf;
        let pr = c.parent;
        let g = c.grand;
        if !path_has(c.path, "cac:Delivery") || c.in_line {
        } else if name_is(l, "cbc:ActualDeliveryDate") {
            self.f.delivery_actual_date = Some(t.clone());
        } else if name_is(l, "cbc:Name") && name_is(pr, "cac:PartyName") && name_is(g, "cac:DeliveryParty") {
            self.f.delivery_party_name = Some(t.clone());
        } else if name_is(l, "cbc:ID") && name_is(pr, "cac:PartyIdentification") && name_is(g, "cac:DeliveryParty") {
            self.f.delivery_party_location_id = Some(t.clone());
        } else if name_is(l, "cbc:StreetName") && name_is(pr, "cac:Address") {
            self.f.delivery_street = Some(t.clone());
        } else if name_is(l, "cbc:AdditionalStreetName") && name_is(pr, "cac:Address") {
            self.f.delivery_additional = Some(t.clone());
        } else if name_is(l, "cbc:CityName") && name_is(pr, "cac:Address") {
            self.f.delivery_city = Some(t.clone());
        } else if name_is(l, "cbc:PostalZone") && name_is(pr, "cac:Address") {
            self.f.delivery_postal = Some(t.clone());
        } else if name_is(l, "cbc:CountrySubentity") && name_is(pr, "cac:Address") {
            self.f.delivery_subdivision = Some(t.clone());
        } else if name_is(l, "cbc:IdentificationCode") && name_is(pr, "cac:Country") && name_is(g, "cac:Address") {
            self.f.delivery_country = Some(t.clone());
        }
    }

    fn totals_block(&mut self, c: &UblCtx, t: &String)
        requires
            ctx_ok(*c),
        ensures
            final(self)@ == totals_block(old(self)@, c.path@, *t),
    {
        let l = c.leaf;
        if !name_is(c.parent, "cac:LegalMonetaryTotal") {
        } else if name_is(l, "cbc:LineExtensionAmount") {
            self.f.line_extension_amount = Some(t.clone());
        } else if name_is(l, "cbc:TaxExclusiveAmount") {
            self.f.tax_exclusive_amount = Some(t.clone());
        } else if name_is(l, "cbc:TaxInclusiveAmount") {
            self.f.tax_inclusive_amount = Some(t.clone());
        } else if name_is(l, "cbc:PayableAmount") {
            self.f.payable_amount = Some(t.clone());
        } else if name_is(l, "cbc:PrepaidAmount") {
            self.f.prepaid_amount = Some(t.clone());
        } else if name_is(l, "cbc:AllowanceTotalAmount") {
            self.f.allowance_total_amount = Some(t.clone());
        } else if name_is(l, "cbc:ChargeTotalAmount") {
            self.f.charge_total_amount = Some(t.clone());
        }
    }
}

// ---------------------------------------------------------------- tax totals

pub open spec fn or_empty(o: Option<String>) -> Seq<char> {
    match o {
        Some(x) => x@,
        None => seq![],
    }
}

/// Two optional texts are the same.
pub open spec fn same_text(a: Option<String>, b: Option<String>) -> bool {
    match (a, b) {
        (Some(x), Some(y)) => x@ == y@,
        (None, None) => true,
        _ => false,
    }
}

/// The amount just read is in the tax currency: the currency attribute seen
/// last is not the document currency, but is the given tax currency.
pub open spec fn is_tax_currency(f: DocFields) -> bool {
    &&& !(f.current_currency_id matches Some(c) && c@ == or_empty(f.currency_code))
    &&& f.tax_currency_code is Some
    &&& same_text(f.current_currency_id, f.tax_currency_code)
}

/// BG-23 and BT-111: the tax total amounts and the VAT breakdown.
pub open spec fn tax_block(s: ParsedDocV, p: Seq<String>, t: String) -> ParsedDocV {
    if !in_tax_total(p) {
        s
    } else {
        let l = lf(p);
        let pr = pa(p);
        let s1 = if l == "cbc:TaxAmount"@ && pr == "cac:TaxTotal"@ {
            let f = s.f;
            let f1 = if is_tax_currency(f) {
                DocFields { tax_total_in_tax_currency: Some(t), ..f }
            } else {
                DocFields { tax_amount: Some(t), ..f }
            };
            with_f(s, DocFields { current_currency_id: None, ..f1 })
        } else {
            s
        };
        if !on_path(p, "cac:TaxSubtotal"@) {
            s1
        } else {
            let b = match s1.current_breakdown {
                Some(x) => x,
                None => empty_breakdown(),
            };
            let b2 = if l == "cbc:TaxableAmount"@ && pr == "cac:TaxSubtotal"@ {
                ParsedBreakdown { taxable_amount: Some(t), ..b }
            } else if l == "cbc:TaxAmount"@ && pr == "cac:TaxSubtotal"@ {
                ParsedBreakdown { tax_amount: Some(t), ..b }
            } else if l == "cbc:ID"@ && pr == "cac:TaxCategory"@ {
                ParsedBreakdown { category_id: Some(t), ..b }
            } else if l == "cbc:Percent"@ && pr == "cac:TaxCategory"@ {
                ParsedBreakdown { percent: Some(t), ..b }
            } else if l == "cbc:TaxExemptionReason"@ {
                ParsedBreakdown { exemption_reason: Some(t), ..b }
            } else if l == "cbc:TaxExemptionReasonCode"@ {
                ParsedBreakdown { exemption_reason_code: Some(t), ..b }
            } else {
                b
            };
            ParsedDocV { current_breakdown: Some(b2), ..s1 }
        }
    }
}

pub fn same_opt_text(a: &Option<String>, b: &Option<String>) -> (r: bool)
    ensures
        r == same_text(*a, *b),
{
    match (a, b) {
        (Some(x), Some(y)) => name_is(x.as_str(), y.as_str()),
        (None, None) => true,
        _ => false,
    }
}

fn tax_currency_now(f: &DocFields) -> (r: bool)
    ensures
        r == is_tax_currency(*f),
{
    let cc: &str = match &f.currency_code {
        Some(c) => c.as_str(),
        None => "",
    };
    proof {
        reveal_strlit("");
        assert(cc@ == or_empty(f.currency_code));
    }
    let is_doc = match &f.current_currency_id {
        Some(c) => name_is(c.as_str(), cc),
        None => false,
    };
    !is_doc && f.tax_currency_code.is_some() && same_opt_text(
        &f.current_currency_id,
        &f.tax_currency_code,
    )
}

impl ParsedDoc {
    fn tax_block(&mut self, c: &UblCtx, t: &String)
        requires
            ctx_ok(*c),
        ensures
            final(self)@ == tax_block(old(self)@, c.path@, *t),
    {
        if !(path_has(c.path, "cac:TaxTotal") && !c.in_line) {
            return ;
        }
        let l = c.leaf;
        let pr = c.parent;
        if name_is(l, "cbc:TaxAmount") && name_is(pr, "cac:TaxTotal") {
            if tax_currency_now(&self.f) {
                self.f.tax_total_in_tax_currency = Some(t.clone());
            } else {
                self.f.tax_amount = Some(t.clone());
            }
            self.f.current_currency_id = None;
        }
        if path_has(c.path, "cac:TaxSubtotal") {
            let mut b = match self.current_breakdown.take() {
                Some(x) => x,
                None => ParsedBreakdown::empty(),
            };
            if name_is(l, "cbc:TaxableAmount") && name_is(pr, "cac:TaxSubtotal") {
                b.taxable_amount = Some(t.clone());
            } else if name_is(l, "cbc:TaxAmount") && name_is(pr, "cac:TaxSubtotal") {
                b.tax_amount = Some(t.clone());
            } else if name_is(l, "cbc:ID") && name_is(pr, "cac:TaxCategory") {
                b.category_id = Some(t.clone());
            } else if name_is(l, "cbc:Percent") && name_is(pr, "cac:TaxCategory") {
                b.percent = Some(t.clone());
            } else if name_is(l, "cbc:TaxExemptionReason") {
                b.exemption_reason = Some(t.clone());
            } else if name_is(l, "cbc:TaxExemptionReasonCode") {
                b.exemption_reason_code = Some(t.clone());
            }
            self.current_breakdown = Some(b);
        }
    }
}

// ---------------------------------------------------------------- parties

/// BG-4: the seller. Each tax identifier (`PartyTaxScheme/CompanyID`) is
/// classified by its own `TaxScheme/ID`: it is read as the VAT identifier,
/// and an `FC` scheme that follows turns it into the tax number and gives
/// back the VAT identifier read before it.
pub open spec fn seller_block(s: ParsedDocV, p: Seq<String>, t: String) -> ParsedDocV {
    let l = lf(p);
    let pr = pa(p);
    let g = gp(p);
    let f = s.f;
    if !in_seller(p) || in_line(p) {
        s
    } else if l == "cbc:EndpointID"@ {
        with_f(
            s,
            DocFields {
                seller_endpoint_value: Some(t),
                seller_endpoint_scheme: f.current_scheme_id,
                current_scheme_id: None,
                ..f
            },
        )
    } else if l == "cbc:RegistrationName"@ && pr == "cac:PartyLegalEntity"@ {
        with_f(s, DocFields { seller_name: Some(t), ..f })
    } else if l == "cbc:Name"@ && pr == "cac:PartyName"@ {
        with_f(s, DocFields { seller_trading_name: Some(t), ..f })
    } else if l == "cbc:CompanyID"@ && pr == "cac:PartyLegalEntity"@ {
        with_f(s, DocFields { seller_reg_id: Some(t), ..f })
    } else if l == "cbc:CompanyID"@ && pr == "cac:PartyTaxScheme"@ {
        with_f(
            s,
            DocFields {
                seller_prev_vat_id: f.seller_vat_id,
                seller_vat_id: Some(t),
                seller_id_pending: true,
                ..f
            },
        )
    } else if l == "cbc:ID"@ && pr == "cac:TaxScheme"@ && g == "cac:PartyTaxScheme"@ {
        if f.seller_id_pending && t@ == "FC"@ {
            with_f(
                s,
                DocFields {
                    seller_tax_number: f.seller_vat_id,
                    seller_vat_id: f.seller_prev_vat_id,
                    seller_prev_vat_id: None,
                    seller_id_pending: false,
                    ..f
                },
            )
        } else {
            with_f(s, DocFields { seller_id_pending: false, ..f })
        }
    } else if l == "cbc:StreetName"@ && (g == "cac:Party"@ || ggp(p) == "cac:Party"@) {
        with_f(s, DocFields { seller_street: Some(t), ..f })
    } else if l == "cbc:AdditionalStreetName"@ {
        with_f(s, DocFields { seller_additional: Some(t), ..f })
    } else if l == "cbc:CityName"@ {
        with_f(s, DocFields { seller_city: Some(t), ..f })
    } else if l == "cbc:PostalZone"@ {
        with_f(s, DocFields { seller_postal: Some(t), ..f })
    } else if l == "cbc:IdentificationCode"@ && pr == "cac:Country"@ {
        with_f(s, DocFields { seller_country: Some(t), ..f })
    } else if l == "cbc:CountrySubentity"@ {
        with_f(s, DocFields { seller_subdivision: Some(t), ..f })
    } else if l == "cbc:Name"@ && pr == "cac:Contact"@ {
        with_f(s, DocFields { seller_contact_name: Some(t), ..f })
    } else if l == "cbc:Telephone"@ {
        with_f(s, DocFields { seller_contact_phone: Some(t), ..f })
    } else if l == "cbc:ElectronicMail"@ {
        with_f(s, DocFields { seller_contact_email: Some(t), ..f })
    } else {
        s
    }
}

/// BG-7: the buyer. Its tax identifiers are classified by their own
/// `TaxScheme/ID` as the seller's are.
pub open spec fn buyer_block(s: ParsedDocV, p: Seq<String>, t: String) -> ParsedDocV {
    let l = lf(p);
    let pr = pa(p);
    let g = gp(p);
    let f = s.f;
    if !in_buyer(p) || in_line(p) {
        s
    } else if l == "cbc:EndpointID"@ {
        with_f(
            s,
            DocFields {
                buyer_endpoint_value: Some(t),
                buyer_endpoint_scheme: f.current_scheme_id,
                current_scheme_id: None,
                ..f
            },
        )
    } else if l == "cbc:RegistrationName"@ && pr == "cac:PartyLegalEntity"@ {
        with_f(s, DocFields { buyer_name: Some(t), ..f })
    } else if l == "cbc:CompanyID"@ && pr == "cac:PartyLegalEntity"@ {
        with_f(s, DocFields { buyer_reg_id: Some(t), ..f })
    } else if l == "cbc:Name"@ && pr == "cac:PartyName"@ {
        with_f(s, DocFields { buyer_trading_name: Some(t), ..f })
    } else if l == "cbc:CompanyID"@ && pr == "cac:PartyTaxScheme"@ {
        with_f(
            s,
            DocFields {
                buyer_prev_vat_id: f.buyer_vat_id,
                buyer_vat_id: Some(t),
                buyer_id_pending: true,
                ..f
            },
        )
    } else if l == "cbc:ID"@ && pr == "cac:TaxScheme"@ && g == "cac:PartyTaxScheme"@ {
        if f.buyer_id_pending && t@ == "FC"@ {
            with_f(
                s,
                DocFields {
                    buyer_tax_number: f.buyer_vat_id,
                    buyer_vat_id: f.buyer_prev_vat_id,
                    buyer_prev_vat_id: None,
                    buyer_id_pending: false,
                    ..f
                },
            )
        } else {
            with_f(s, DocFields { buyer_id_pending: false, ..f })
        }
    } else if l == "cbc:StreetName"@ {
        with_f(s, DocFields { buyer_street: Some(t), ..f })
    } else if l == "cbc:AdditionalStreetName"@ {
        with_f(s, DocFields { buyer_additional: Some(t), ..f })
    } else if l == "cbc:CityName"@ {
        with_f(s, DocFields { buyer_city: Some(t), ..f })
    } else if l == "cbc:PostalZone"@ {
        with_f(s, DocFields { buyer_postal: Some(t), ..f })
    } else if l == "cbc:IdentificationCode"@ && pr == "cac:Country"@ {
        with_f(s, DocFields { buyer_country: Some(t), ..f })
    } else if l == "cbc:CountrySubentity"@ {
        with_f(s, DocFields { buyer_subdivision: Some(t), ..f })
    } else if l == "cbc:Name"@ && pr == "cac:Contact"@ {
        with_f(s, DocFields { buyer_contact_name: Some(t), ..f })
    } else if l == "cbc:Telephone"@ {
        with_f(s, DocFields { buyer_contact_phone: Some(t), ..f })
    } else if l == "cbc:ElectronicMail"@ {
        with_f(s, DocFields { buyer_contact_email: Some(t), ..f })
    } else {
        s
    }
}

/// BG-10 and BG-11: the payee and the seller's tax representative.
pub open spec fn payee_block(s: ParsedDocV, p: Seq<String>, t: String) -> ParsedDocV {
    let l = lf(p);
    let pr = pa(p);
    let f = s.f;
    let outside = !in_seller(p) && !in_buyer(p) && !in_line(p);
    let s1 = if on_path(p, "cac:PayeeParty"@) && outside {
        if l == "cbc:Name"@ && pr == "cac:PartyName"@ {
            with_f(s, DocFields { payee_name: Some(t), ..f })
        } else if l == "cbc:ID"@ && pr == "cac:PartyIdentification"@ {
            with_f(s, DocFields { payee_identifier: Some(t), ..f })
        } else if l == "cbc:CompanyID"@ && pr == "cac:PartyLegalEntity"@ {
            with_f(s, DocFields { payee_legal_reg_id: Some(t), ..f })
        } else {
            s
        }
    } else {
        s
    };
    let f1 = s1.f;
    if on_path(p, "cac:TaxRepresentativeParty"@) && outside {
        if l == "cbc:Name"@ && pr == "cac:PartyName"@ {
            with_f(s1, DocFields { tax_rep_name: Some(t), ..f1 })
        } else if l == "cbc:CompanyID"@ && pr == "cac:PartyTaxScheme"@ {
            with_f(s1, DocFields { tax_rep_vat_id: Some(t), ..f1 })
        } else if l == "cbc:StreetName"@ {
            with_f(s1, DocFields { tax_rep_street: Some(t), ..f1 })
        } else if l == "cbc:AdditionalStreetName"@ {
            with_f(s1, DocFields { tax_rep_additional: Some(t), ..f1 })
        } else if l == "cbc:CityName"@ {
            with_f(s1, DocFields { tax_rep_city: Some(t), ..f1 })
        } else if l == "cbc:PostalZone"@ {
            with_f(s1, DocFields { tax_rep_postal: Some(t), ..f1 })
        } else if l == "cbc:IdentificationCode"@ && pr == "cac:Country"@ {
            with_f(s1, DocFields { tax_rep_country: Some(t), ..f1 })
        } else if l == "cbc:CountrySubentity"@ {
            with_f(s1, DocFields { tax_rep_subdivision: Some(t), ..f1 })
        } else {
            s1
        }
    } else {
        s1
    }
}

impl ParsedDoc {
    fn seller_block(&mut self, c: &UblCtx, t: &String)
        requires
            ctx_ok(*c),
        ensures
            final(self)@ == seller_block(old(self)@, c.path@, *t),
    {
        let l = c.leaf;
        let pr = c.parent;
        let g = c.grand;
        if !c.in_seller || c.in_line {
        } else if name_is(l, "cbc:EndpointID") {
            self.f.seller_endpoint_value = Some(t.clone());
            self.f.seller_endpoint_scheme = self.f.current_scheme_id.take();
        } else if name_is(l, "cbc:RegistrationName") && name_is(pr, "cac:PartyLegalEntity") {
            self.f.seller_name = Some(t.clone());
        } else if name_is(l, "cbc:Name") && name_is(pr, "cac:PartyName") {
            self.f.seller_trading_name = Some(t.clone());
        } else if name_is(l, "cbc:CompanyID") && name_is(pr, "cac:PartyLegalEntity") {
            self.f.seller_reg_id = Some(t.clone());
        } else if name_is(l, "cbc:CompanyID") && name_is(pr, "cac:PartyTaxScheme") {
            self.f.seller_prev_vat_id = self.f.seller_vat_id.take();
            self.f.seller_vat_id = Some(t.clone());
            self.f.seller_id_pending = true;
        } else if name_is(l, "cbc:ID") && name_is(pr, "cac:TaxScheme") && name_is(g, "cac:PartyTaxScheme") {
            if self.f.seller_id_pending && name_is(t.as_str(), "FC") {
                self.f.seller_tax_number = self.f.seller_vat_id.take();
                self.f.seller_vat_id = self.f.seller_prev_vat_id.take();
            }
            self.f.seller_id_pending = false;
        } else if name_is(l, "cbc:StreetName") && (name_is(g, "cac:Party") || name_is(c.great, "cac:Party")) {
            self.f.seller_street = Some(t.clone());
        } else if name_is(l, "cbc:AdditionalStreetName") {
            self.f.seller_additional = Some(t.clone());
        } else if name_is(l, "cbc:CityName") {
            self.f.seller_city = Some(t.clone());
        } else if name_is(l, "cbc:PostalZone") {
            self.f.seller_postal = Some(t.clone());
        } else if name_is(l, "cbc:IdentificationCode") && name_is(pr, "cac:Country") {
            self.f.seller_country = Some(t.clone());
        } else if name_is(l, "cbc:CountrySubentity") {
            self.f.seller_subdivision = Some(t.clone());
        } else if name_is(l, "cbc:Name") && name_is(pr, "cac:Contact") {
            self.f.seller_contact_name = Some(t.clone());
        } else if name_is(l, "cbc:Telephone") {
            self.f.seller_contact_phone = Some(t.clone());
        } else if name_is(l, "cbc:ElectronicMail") {
            self.f.seller_contact_email = Some(t.clone());
        }
    }

    fn buyer_block(&mut self, c: &UblCtx, t: &String)
        requires
            ctx_ok(*c),
        ensures
            final(self)@ == buyer_block(old(self)@, c.path@, *t),
    {
        let l = c.leaf;
        let pr = c.parent;
        if !c.in_buyer || c.in_line {
        } else if name_is(l, "cbc:EndpointID") {
            self.f.buyer_endpoint_value = Some(t.clone());
            self.f.buyer_endpoint_scheme = self.f.current_scheme_id.take();
        } else if name_is(l, "cbc:RegistrationName") && name_is(pr, "cac:PartyLegalEntity") {
            self.f.buyer_name = Some(t.clone());
        } else if name_is(l, "cbc:CompanyID") && name_is(pr, "cac:PartyLegalEntity") {
            self.f.buyer_reg_id = Some(t.clone());
        } else if name_is(l, "cbc:Name") && name_is(pr, "cac:PartyName") {
            self.f.buyer_trading_name = Some(t.clone());
        } else if name_is(l, "cbc:CompanyID") && name_is(pr, "cac:PartyTaxScheme") {
            self.f.buyer_prev_vat_id = self.f.buyer_vat_id.take();
            self.f.buyer_vat_id = Some(t.clone());
            self.f.buyer_id_pending = true;
        } else if name_is(l, "cbc:ID") && name_is(pr, "cac:TaxScheme") && name_is(c.grand, "cac:PartyTaxScheme") {
            if self.f.buyer_id_pending && name_is(t.as_str(), "FC") {
                self.f.buyer_tax_number = self.f.buyer_vat_id.take();
                self.f.buyer_vat_id = self.f.buyer_prev_vat_id.take();
            }
            self.f.buyer_id_pending = false;
        } else if name_is(l, "cbc:StreetName") {
            self.f.buyer_street = Some(t.clone());
        } else if name_is(l, "cbc:AdditionalStreetName") {
            self.f.buyer_additional = Some(t.clone());
        } else if name_is(l, "cbc:CityName") {
            self.f.buyer_city = Some(t.clone());
        } else if name_is(l, "cbc:PostalZone") {
            self.f.buyer_postal = Some(t.clone());
        } else if name_is(l, "cbc:IdentificationCode") && name_is(pr, "cac:Country") {
            self.f.buyer_country = Some(t.clone());
        } else if name_is(l, "cbc:CountrySubentity") {
            self.f.buyer_subdivision = Some(t.clone());
        } else if name_is(l, "cbc:Name") && name_is(pr, "cac:Contact") {
            self.f.buyer_contact_name = Some(t.clone());
        } else if name_is(l, "cbc:Telephone") {
            self.f.buyer_contact_phone = Some(t.clone());
        } else if name_is(l, "cbc:ElectronicMail") {
            self.f.buyer_contact_email = Some(t.clone());
        }
    }

    fn payee_block(&mut self, c: &UblCtx, t: &String)
        requires
            ctx_ok(*c),
        ensures
            final(self)@ == payee_block(old(self)@, c.path@, *t),
    {
        let l = c.leaf;
        let pr = c.parent;
        let outside = !c.in_seller && !c.in_buyer && !c.in_line;
        if path_has(c.path, "cac:PayeeParty") && outside {
            if name_is(l, "cbc:Name") && name_is(pr, "cac:PartyName") {
                self.f.payee_name = Some(t.clone());
            } else if name_is(l, "cbc:ID") && name_is(pr, "cac:PartyIdentification") {
                self.f.payee_identifier = Some(t.clone());
            } else if name_is(l, "cbc:CompanyID") && name_is(pr, "cac:PartyLegalEntity") {
                self.f.payee_legal_reg_id = Some(t.clone());
            }
        }
        if path_has(c.path, "cac:TaxRepresentativeParty") && outside {
            if name_is(l, "cbc:Name") && name_is(pr, "cac:PartyName") {
                self.f.tax_rep_name = Some(t.clone());
            } else if name_is(l, "cbc:CompanyID") && name_is(pr, "cac:PartyTaxScheme") {
                self.f.tax_rep_vat_id = Some(t.clone());
            } else if name_is(l, "cbc:StreetName") {
                self.f.tax_rep_street = Some(t.clone());
            } else if name_is(l, "cbc:AdditionalStreetName") {
                self.f.tax_rep_additional = Some(t.clone());
            } else if name_is(l, "cbc:CityName") {
                self.f.tax_rep_city = Some(t.clone());
            } else if name_is(l, "cbc:PostalZone") {
                self.f.tax_rep_postal = Some(t.clone());
            } else if name_is(l, "cbc:IdentificationCode") && name_is(pr, "cac:Country") {
                self.f.tax_rep_country = Some(t.clone());
            } else if name_is(l, "cbc:CountrySubentity") {
                self.f.tax_rep_subdivision = Some(t.clone());
            }
        }
    }
}

// ---------------------------------------------------------------- lines and allowances

/// An allowance or charge field by its element.
pub open spec fn ac_step(a: ParsedAc, l: Seq<char>, pr: Seq<char>, t: String) -> ParsedAc {
    if l == "cbc:ChargeIndicator"@ {
        ParsedAc { is_charge: Some(t), ..a }
    } else if l == "cbc:Amount"@ && pr == "cac:AllowanceCharge"@ {
        ParsedAc { amount: Some(t), ..a }
    } else if l == "cbc:BaseAmount"@ {
        ParsedAc { base_amount: Some(t), ..a }
    } else if l == "cbc:AllowanceChargeReason"@ {
        ParsedAc { reason: Some(t), ..a }
    } else if l == "cbc:AllowanceChargeReasonCode"@ {
        ParsedAc { reason_code: Some(t), ..a }
    } else if l == "cbc:MultiplierFactorNumeric"@ {
        ParsedAc { percentage: Some(t), ..a }
    } else if l == "cbc:ID"@ && pr == "cac:TaxCategory"@ {
        ParsedAc { tax_category: Some(t), ..a }
    } else if l == "cbc:Percent"@ && pr == "cac:TaxCategory"@ {
        ParsedAc { tax_rate: Some(t), ..a }
    } else {
        a
    }
}

fn apply_ac_text(a: &mut ParsedAc, l: &str, pr: &str, t: &String)
    ensures
        *final(a) == ac_step(*old(a), l@, pr@, *t),
{
    if name_is(l, "cbc:ChargeIndicator") {
        a.is_charge = Some(t.clone());
    } else if name_is(l, "cbc:Amount") && name_is(pr, "cac:AllowanceCharge") {
        a.amount = Some(t.clone());
    } else if name_is(l, "cbc:BaseAmount") {
        a.base_amount = Some(t.clone());
    } else if name_is(l, "cbc:AllowanceChargeReason") {
        a.reason = Some(t.clone());
    } else if name_is(l, "cbc:AllowanceChargeReasonCode") {
        a.reason_code = Some(t.clone());
    } else if name_is(l, "cbc:MultiplierFactorNumeric") {
        a.percentage = Some(t.clone());
    } else if name_is(l, "cbc:ID") && name_is(pr, "cac:TaxCategory") {
        a.tax_category = Some(t.clone());
    } else if name_is(l, "cbc:Percent") && name_is(pr, "cac:TaxCategory") {
        a.tax_rate = Some(t.clone());
    }
}

pub open spec fn is_line_element(n: Seq<char>) -> bool {
    n == "cac:InvoiceLine"@ || n == "cac:CreditNoteLine"@
}

/// The fields of an invoice line by element; quantities take the unit
/// attribute seen last.
pub open spec fn line_step(line: ParsedLineV, f: DocFields, p: Seq<String>, t: String) -> (
    ParsedLineV,
    DocFields,
) {
    let l = lf(p);
    let pr = pa(p);
    let lf0 = line.f;
    if l == "cbc:ID"@ && is_line_element(pr) {
        (ParsedLineV { f: LineFields { id: Some(t), ..lf0 }, ..line }, f)
    } else if l == "cbc:Note"@ && is_line_element(pr) {
        (ParsedLineV { f: LineFields { note: Some(t), ..lf0 }, ..line }, f)
    } else if l == "cbc:InvoicedQuantity"@ || l == "cbc:CreditedQuantity"@ {
        (
            ParsedLineV { f: LineFields { quantity: Some(t), unit: f.current_unit_code, ..lf0 }, ..line },
            DocFields { current_unit_code: None, ..f },
        )
    } else if l == "cbc:LineExtensionAmount"@ && is_line_element(pr) {
        (ParsedLineV { f: LineFields { line_amount: Some(t), ..lf0 }, ..line }, f)
    } else if l == "cbc:Name"@ && pr == "cac:Item"@ {
        (ParsedLineV { f: LineFields { item_name: Some(t), ..lf0 }, ..line }, f)
    } else if l == "cbc:Description"@ && pr == "cac:Item"@ {
        (ParsedLineV { f: LineFields { description: Some(t), ..lf0 }, ..line }, f)
    } else if l == "cbc:ID"@ && pr == "cac:SellersItemIdentification"@ {
        (ParsedLineV { f: LineFields { seller_item_id: Some(t), ..lf0 }, ..line }, f)
    } else if l == "cbc:ID"@ && pr == "cac:BuyersItemIdentification"@ {
        (ParsedLineV { f: LineFields { buyer_item_id: Some(t), ..lf0 }, ..line }, f)
    } else if l == "cbc:ID"@ && pr == "cac:StandardItemIdentification"@ {
        (ParsedLineV { f: LineFields { standard_item_id: Some(t), ..lf0 }, ..line }, f)
    } else if l == "cbc:IdentificationCode"@ && pr == "cac:OriginCountry"@ {
        (ParsedLineV { f: LineFields { origin_country: Some(t), ..lf0 }, ..line }, f)
    } else if l == "cbc:PriceAmount"@ {
        (ParsedLineV { f: LineFields { unit_price: Some(t), ..lf0 }, ..line }, f)
    } else if l == "cbc:BaseQuantity"@ && on_path(p, "cac:Price"@) {
        (
            ParsedLineV {
                f: LineFields { base_quantity: Some(t), base_quantity_unit: f.current_unit_code, ..lf0 },
                ..line
            },
            DocFields { current_unit_code: None, ..f },
        )
    } else if l == "cbc:BaseAmount"@ && on_path(p, "cac:Price"@) && pr == "cac:AllowanceCharge"@ {
        (ParsedLineV { f: LineFields { gross_price: Some(t), ..lf0 }, ..line }, f)
    } else if l == "cbc:ID"@ && pr == "cac:ClassifiedTaxCategory"@ {
        (ParsedLineV { f: LineFields { tax_category: Some(t), ..lf0 }, ..line }, f)
    } else if l == "cbc:Percent"@ && pr == "cac:ClassifiedTaxCategory"@ {
        (ParsedLineV { f: LineFields { tax_rate: Some(t), ..lf0 }, ..line }, f)
    } else if l == "cbc:Name"@ && pr == "cac:AdditionalItemProperty"@ {
        (ParsedLineV { f: LineFields { current_attr_name: Some(t), ..lf0 }, ..line }, f)
    } else if l == "cbc:Value"@ && pr == "cac:AdditionalItemProperty"@ {
        (
            ParsedLineV {
                f: LineFields { current_attr_name: None, ..lf0 },
                attributes: line.attributes.push((or_empty(lf0.current_attr_name), t@)),
                ..line
            },
            f,
        )
    } else if l == "cbc:StartDate"@ && pr == "cac:InvoicePeriod"@ {
        (ParsedLineV { f: LineFields { invoicing_period_start: Some(t), ..lf0 }, ..line }, f)
    } else if l == "cbc:EndDate"@ && pr == "cac:InvoicePeriod"@ {
        (ParsedLineV { f: LineFields { invoicing_period_end: Some(t), ..lf0 }, ..line }, f)
    } else {
        (line, f)
    }
}

/// BG-25 to BG-31: the current line, and its allowance or charge outside the price.
pub open spec fn line_block(s: ParsedDocV, p: Seq<String>, t: String) -> ParsedDocV {
    if !in_line(p) {
        s
    } else {
        let line0 = match s.current_line {
            Some(x) => x,
            None => empty_line(),
        };
        let (line1, f1) = line_step(line0, s.f, p, t);
        let line2 = if on_path(p, "cac:AllowanceCharge"@) && !on_path(p, "cac:Price"@) {
            let a = match line1.current_ac {
                Some(x) => x,
                None => empty_ac(),
            };
            ParsedLineV { current_ac: Some(ac_step(a, lf(p), pa(p), t)), ..line1 }
        } else {
            line1
        };
        ParsedDocV { f: f1, current_line: Some(line2), ..s }
    }
}

/// BG-20/21: a document-level allowance or charge.
pub open spec fn doc_ac_block(s: ParsedDocV, p: Seq<String>, t: String) -> ParsedDocV {
    if in_seller(p) || in_buyer(p) || in_line(p) || in_billing(p) || in_adr(p) || !on_path(
        p,
        "cac:AllowanceCharge"@,
    ) {
        s
    } else {
        let a = match s.current_doc_ac {
            Some(x) => x,
            None => empty_ac(),
        };
        ParsedDocV { current_doc_ac: Some(ac_step(a, lf(p), pa(p), t)), ..s }
    }
}

fn line_is(n: &str) -> (r: bool)
    ensures
        r == is_line_element(n@),
{
    name_is(n, "cac:InvoiceLine") || name_is(n, "cac:CreditNoteLine")
}

fn apply_line_text(line: &mut ParsedLine, f: &mut DocFields, c: &UblCtx, t: &String)
    requires
        ctx_ok(*c),
    ensures
        (final(line)@, *final(f)) == line_step(old(line)@, *old(f), c.path@, *t),
{
    let l = c.leaf;
    let pr = c.parent;
    if name_is(l, "cbc:ID") && line_is(pr) {
        line.f.id = Some(t.clone());
    } else if name_is(l, "cbc:Note") && line_is(pr) {
        line.f.note = Some(t.clone());
    } else if name_is(l, "cbc:InvoicedQuantity") || name_is(l, "cbc:CreditedQuantity") {
        line.f.quantity = Some(t.clone());
        line.f.unit = f.current_unit_code.take();
    } else if name_is(l, "cbc:LineExtensionAmount") && line_is(pr) {
        line.f.line_amount = Some(t.clone());
    } else if name_is(l, "cbc:Name") && name_is(pr, "cac:Item") {
        line.f.item_name = Some(t.clone());
    } else if name_is(l, "cbc:Description") && name_is(pr, "cac:Item") {
        line.f.description = Some(t.clone());
    } else if name_is(l, "cbc:ID") && name_is(pr, "cac:SellersItemIdentification") {
        line.f.seller_item_id = Some(t.clone());
    } else if name_is(l, "cbc:ID") && name_is(pr, "cac:BuyersItemIdentification") {
        line.f.buyer_item_id = Some(t.clone());
    } else if name_is(l, "cbc:ID") && name_is(pr, "cac:StandardItemIdentification") {
        line.f.standard_item_id = Some(t.clone());
    } else if name_is(l, "cbc:IdentificationCode") && name_is(pr, "cac:OriginCountry") {
        line.f.origin_country = Some(t.clone());
    } else if name_is(l, "cbc:PriceAmount") {
        line.f.unit_price = Some(t.clone());
    } else if name_is(l, "cbc:BaseQuantity") && path_has(c.path, "cac:Price") {
        line.f.base_quantity = Some(t.clone());
        line.f.base_quantity_unit = f.current_unit_code.take();
    } else if name_is(l, "cbc:BaseAmount") && path_has(c.path, "cac:Price") && name_is(
        pr,
        "cac:AllowanceCharge",
    ) {
        line.f.gross_price = Some(t.clone());
    } else if name_is(l, "cbc:ID") && name_is(pr, "cac:ClassifiedTaxCategory") {
        line.f.tax_category = Some(t.clone());
    } else if name_is(l, "cbc:Percent") && name_is(pr, "cac:ClassifiedTaxCategory") {
        line.f.tax_rate = Some(t.clone());
    } else if name_is(l, "cbc:Name") && name_is(pr, "cac:AdditionalItemProperty") {
        line.f.current_attr_name = Some(t.clone());
    } else if name_is(l, "cbc:Value") && name_is(pr, "cac:AdditionalItemProperty") {
        let name = match line.f.current_attr_name.take() {
            Some(n) => n,
            None => String::new(),
        };
        let ghost before = line.attributes@;
        line.attributes.push((name, t.clone()));
        proof {
            assert(line@.attributes =~= old(line)@.attributes.push(
                (or_empty(old(line)@.f.current_attr_name), t@),
            ));
        }
    } else if name_is(l, "cbc:StartDate") && name_is(pr, "cac:InvoicePeriod") {
        line.f.invoicing_period_start = Some(t.clone());
    } else if name_is(l, "cbc:EndDate") && name_is(pr, "cac:InvoicePeriod") {
        line.f.invoicing_period_end = Some(t.clone());
    }
}

impl ParsedDoc {
    fn line_block(&mut self, c: &UblCtx, t: &String)
        requires
            ctx_ok(*c),
        ensures
            final(self)@ == line_block(old(self)@, c.path@, *t),
    {
        if !c.in_line {
            return ;
        }
        let mut line = match self.current_line.take() {
            Some(x) => x,
            None => ParsedLine::empty(),
        };
        apply_line_text(&mut line, &mut self.f, c, t);
        if path_has(c.path, "cac:AllowanceCharge") && !path_has(c.path, "cac:Price") {
            let mut a = match line.current_ac.take() {
                Some(x) => x,
                None => ParsedAc::empty(),
            };
            apply_ac_text(&mut a, c.leaf, c.parent, t);
            line.current_ac = Some(a);
        }
        self.current_line = Some(line);
    }

    fn doc_ac_block(&mut self, c: &UblCtx, t: &String)
        requires
            ctx_ok(*c),
        ensures
            final(self)@ == doc_ac_block(old(self)@, c.path@, *t),
    {
        let p = c.path;
        if c.in_seller || c.in_buyer || c.in_line || path_has(p, "cac:BillingReference") || (
        path_has(p, "cac:AdditionalDocumentReference") && !c.in_line) || !path_has(
            p,
            "cac:AllowanceCharge",
        ) {
            return ;
        }
        let mut a = match self.current_doc_ac.take() {
            Some(x) => x,
            None => ParsedAc::empty(),
        };
        apply_ac_text(&mut a, c.leaf, c.parent, t);
        self.current_doc_ac = Some(a);
    }
}

// ---------------------------------------------------------------- a text

/// What a text does to the document read so far: each group of fields in
/// turn.
pub open spec fn ubl_text(s: ParsedDocV, p: Seq<String>, t: String) -> ParsedDocV {
    doc_ac_block(
        line_block(
            payee_block(
                buyer_block(
                    seller_block(
                        tax_block(
                            totals_block(
                                delivery_block(
                                    payment_block(
                                        attachment_block(billing_block(doc_block(s, p, t), p, t), p, t),
                                        p,
                                        t,
                                    ),
                                    p,
                                    t,
                                ),
                                p,
                                t,
                            ),
                            p,
                            t,
                        ),
                        p,
                        t,
                    ),
                    p,
                    t,
                ),
                p,
                t,
            ),
            p,
            t,
        ),
        p,
        t,
    )
}

impl ParsedDoc {
    /// Takes a text at the given element path.
    pub fn handle_ubl_text(&mut self, path: &Vec<String>, t: &String)
        ensures
            final(self)@ == ubl_text(old(self)@, path@, *t),
    {
        let c = UblCtx {
            path,
            leaf: back(path, 1),
            parent: back(path, 2),
            grand: back(path, 3),
            great: back(path, 4),
            in_seller: path_has(path, "cac:AccountingSupplierParty"),
            in_buyer: path_has(path, "cac:AccountingCustomerParty"),
            in_line: path_has(path, "cac:InvoiceLine") || path_has(path, "cac:CreditNoteLine"),
        };
        self.doc_block(&c, t);
        self.billing_block(&c, t);
        self.attachment_block(&c, t);
        self.payment_block(&c, t);
        self.delivery_block(&c, t);
        self.totals_block(&c, t);
        self.tax_block(&c, t);
        self.seller_block(&c, t);
        self.buyer_block(&c, t);
        self.payee_block(&c, t);
        self.line_block(&c, t);
        self.doc_ac_block(&c, t);
    }
}

// ---------------------------------------------------------------- tags

/// Elements whose attributes are read.
pub open spec fn reads_attributes(n: Seq<char>) -> bool {
    n == "cbc:EndpointID"@ || n == "cbc:InvoicedQuantity"@ || n == "cbc:CreditedQuantity"@ || n
        == "cbc:TaxAmount"@ || n == "cbc:EmbeddedDocumentBinaryObject"@ || n
        == "cbc:PaymentMeansCode"@ || n == "cbc:BaseQuantity"@
}

/// One attribute of such an element: identifiers, units and currencies are
/// kept for the text that follows; a means text and the attachment's type
/// and file name are stored.
pub open spec fn attr_step(s: ParsedDocV, name: Seq<char>, a: (String, String)) -> ParsedDocV {
    let k = a.0@;
    let v = a.1;
    let f = s.f;
    if k == "schemeID"@ {
        with_f(s, DocFields { current_scheme_id: Some(v), ..f })
    } else if k == "unitCode"@ {
        with_f(s, DocFields { current_unit_code: Some(v), ..f })
    } else if k == "currencyID"@ {
        with_f(s, DocFields { current_currency_id: Some(v), ..f })
    } else if k == "name"@ && name == "cbc:PaymentMeansCode"@ {
        with_f(s, DocFields { payment_means_text: Some(v), ..f })
    } else if k == "mimeCode"@ {
        match s.current_attachment {
            Some(att) => ParsedDocV {
                current_attachment: Some(ParsedAttachment { mime_type: Some(v), ..att }),
                ..s
            },
            None => s,
        }
    } else if k == "filename"@ {
        match s.current_attachment {
            Some(att) => ParsedDocV {
                current_attachment: Some(ParsedAttachment { filename: Some(v), ..att }),
                ..s
            },
            None => s,
        }
    } else {
        s
    }
}

pub open spec fn attrs_fold(s: ParsedDocV, name: Seq<char>, attrs: Seq<(String, String)>) -> ParsedDocV
    decreases attrs.len(),
{
    if attrs.len() == 0 {
        s
    } else {
        attr_step(attrs_fold(s, name, attrs.drop_last()), name, attrs.last())
    }
}

/// A start tag.
pub open spec fn ubl_start(s: ParsedDocV, name: Seq<char>, attrs: Seq<(String, String)>) -> ParsedDocV {
    if reads_attributes(name) {
        attrs_fold(s, name, attrs)
    } else {
        s
    }
}

/// An end tag closing `ended`, `p` the path left: a closed line, VAT
/// subtotal, reference, supporting document or allowance/charge is kept.
pub open spec fn ubl_end(s: ParsedDocV, ended: Seq<char>, p: Seq<String>) -> ParsedDocV {
    if is_line_element(ended) {
        match s.current_line {
            Some(l) => ParsedDocV { lines: s.lines.push(l), current_line: None, ..s },
            None => s,
        }
    } else if ended == "cac:TaxSubtotal"@ {
        match s.current_breakdown {
            Some(b) => ParsedDocV { breakdowns: s.breakdowns.push(b), current_breakdown: None, ..s },
            None => s,
        }
    } else if ended == "cac:BillingReference"@ {
        match s.current_preceding {
            Some(x) => ParsedDocV { preceding: s.preceding.push(x), current_preceding: None, ..s },
            None => s,
        }
    } else if ended == "cac:AdditionalDocumentReference"@ {
        match s.current_attachment {
            Some(x) => ParsedDocV { attachments: s.attachments.push(x), current_attachment: None, ..s },
            None => s,
        }
    } else if ended == "cac:AllowanceCharge"@ {
        if in_line(p) && !on_path(p, "cac:Price"@) {
            match s.current_line {
                Some(l) => match l.current_ac {
                    Some(a) => ParsedDocV {
                        current_line: Some(ParsedLineV { acs: l.acs.push(a), current_ac: None, ..l }),
                        ..s
                    },
                    None => s,
                },
                None => s,
            }
        } else if !in_line(p) {
            match s.current_doc_ac {
                Some(a) => ParsedDocV { doc_acs: s.doc_acs.push(a), current_doc_ac: None, ..s },
                None => s,
            }
        } else {
            s
        }
    } else if ended == "cac:AdditionalItemProperty"@ {
        match s.current_line {
            Some(l) => ParsedDocV {
                current_line: Some(ParsedLineV { f: LineFields { current_attr_name: None, ..l.f }, ..l }),
                ..s
            },
            None => s,
        }
    } else {
        s
    }
}

/// Reading the events `evs` from the document `s` at path `p`: the document
/// at the end, or the message of the first syntax error.
pub open spec fn ubl_run(s: ParsedDocV, p: Seq<String>, evs: Seq<XmlRead>) -> Result<ParsedDocV, Seq<char>>
    decreases evs.len(),
{
    if evs.len() == 0 {
        Ok(s)
    } else {
        match evs[0] {
            XmlRead::Eof => Ok(s),
            XmlRead::Failed(m) => Err(m@),
            XmlRead::Start(name, attrs) => ubl_run(ubl_start(s, name@, attrs@), p.push(name), evs.skip(1)),
            XmlRead::Text(t) => ubl_run(
                if t@.len() > 0 {
                    ubl_text(s, p, t)
                } else {
                    s
                },
                p,
                evs.skip(1),
            ),
            XmlRead::End => {
                let ended = if p.len() > 0 {
                    p.last()@
                } else {
                    seq![]
                };
                let p2 = if p.len() > 0 {
                    p.drop_last()
                } else {
                    p
                };
                ubl_run(ubl_end(s, ended, p2), p2, evs.skip(1))
            },
            XmlRead::Empty(_) => ubl_run(s, p, evs.skip(1)),
            XmlRead::Other => ubl_run(s, p, evs.skip(1)),
        }
    }
}

impl ParsedDoc {
    pub fn attr(&mut self, name: &str, a: &(String, String))
        ensures
            final(self)@ == attr_step(old(self)@, name@, *a),
    {
        let k = a.0.as_str();
        if name_is(k, "schemeID") {
            self.f.current_scheme_id = Some(a.1.clone());
        } else if name_is(k, "unitCode") {
            self.f.current_unit_code = Some(a.1.clone());
        } else if name_is(k, "currencyID") {
            self.f.current_currency_id = Some(a.1.clone());
        } else if name_is(k, "name") && name_is(name, "cbc:PaymentMeansCode") {
            self.f.payment_means_text = Some(a.1.clone());
        } else if name_is(k, "mimeCode") {
            match self.current_attachment.take() {
                Some(mut att) => {
                    att.mime_type = Some(a.1.clone());
                    self.current_attachment = Some(att);
                },
                None => {},
            }
        } else if name_is(k, "filename") {
            match self.current_attachment.take() {
                Some(mut att) => {
                    att.filename = Some(a.1.clone());
                    self.current_attachment = Some(att);
                },
                None => {},
            }
        }
    }

    fn start(&mut self, name: &String, attrs: &Vec<(String, String)>)
        ensures
            final(self)@ == ubl_start(old(self)@, name@, attrs@),
    {
        let n = name.as_str();
        if !(name_is(n, "cbc:EndpointID") || name_is(n, "cbc:InvoicedQuantity") || name_is(
            n,
            "cbc:CreditedQuantity",
        ) || name_is(n, "cbc:TaxAmount") || name_is(n, "cbc:EmbeddedDocumentBinaryObject")
            || name_is(n, "cbc:PaymentMeansCode") || name_is(n, "cbc:BaseQuantity")) {
            return ;
        }
        let ghost s0 = self@;
        let mut i: usize = 0;
        while i < attrs.len()
            invariant
                i <= attrs@.len(),
                self@ == attrs_fold(s0, n@, attrs@.take(i as int)),
            decreases attrs.len() - i,
        {
            proof {
                assert(attrs@.take(i + 1).drop_last() =~= attrs@.take(i as int));
                assert(attrs@.take(i + 1).last() == attrs@[i as int]);
            }
            self.attr(n, &attrs[i]);
            i = i + 1;
        }
        proof {
            assert(attrs@.take(attrs@.len() as int) =~= attrs@);
        }
    }

    fn end(&mut self, ended: &String, path: &Vec<String>)
        ensures
            final(self)@ == ubl_end(old(self)@, ended@, path@),
    {
        let e = ended.as_str();
        if line_is(e) {
            match self.current_line.take() {
                Some(l) => {
                    self.lines.push(l);
                    proof {
                        assert(self@.lines =~= old(self)@.lines.push(l@));
                    }
                },
                None => {},
            }
        } else if name_is(e, "cac:TaxSubtotal") {
            match self.current_breakdown.take() {
                Some(b) => self.breakdowns.push(b),
                None => {},
            }
        } else if name_is(e, "cac:BillingReference") {
            match self.current_preceding.take() {
                Some(x) => self.preceding.push(x),
                None => {},
            }
        } else if name_is(e, "cac:AdditionalDocumentReference") {
            match self.current_attachment.take() {
                Some(x) => self.attachments.push(x),
                None => {},
            }
        } else if name_is(e, "cac:AllowanceCharge") {
            let in_line_ctx = path_has(path, "cac:InvoiceLine") || path_has(path, "cac:CreditNoteLine");
            if in_line_ctx && !path_has(path, "cac:Price") {
                match self.current_line.take() {
                    Some(mut l) => {
                        match l.current_ac.take() {
                            Some(a) => l.acs.push(a),
                            None => {},
                        }
                        self.current_line = Some(l);
                    },
                    None => {},
                }
            } else if !in_line_ctx {
                match self.current_doc_ac.take() {
                    Some(a) => self.doc_acs.push(a),
                    None => {},
                }
            }
        } else if name_is(e, "cac:AdditionalItemProperty") {
            match self.current_line.take() {
                Some(mut l) => {
                    l.f.current_attr_name = None;
                    self.current_line = Some(l);
                },
                None => {},
            }
        }
    }
}

/// Fields before anything is read.
pub open spec fn empty_fields() -> DocFields {
    DocFields {
        number: None,
        issue_date: None,
        due_date: None,
        type_code: None,
        currency_code: None,
        tax_currency_code: None,
        buyer_reference: None,
        order_reference: None,
        tax_point_date: None,
        invoicing_period_start: None,
        invoicing_period_end: None,
        seller_name: None,
        seller_trading_name: None,
        seller_vat_id: None,
        seller_tax_number: None,
        seller_reg_id: None,
        seller_street: None,
        seller_additional: None,
        seller_city: None,
        seller_postal: None,
        seller_country: None,
        seller_subdivision: None,
        seller_contact_name: None,
        seller_contact_phone: None,
        seller_contact_email: None,
        seller_endpoint_scheme: None,
        seller_endpoint_value: None,
        buyer_name: None,
        buyer_trading_name: None,
        buyer_vat_id: None,
        buyer_tax_number: None,
        buyer_reg_id: None,
        buyer_street: None,
        buyer_additional: None,
        buyer_city: None,
        buyer_postal: None,
        buyer_country: None,
        buyer_subdivision: None,
        buyer_contact_name: None,
        buyer_contact_phone: None,
        buyer_contact_email: None,
        buyer_endpoint_scheme: None,
        buyer_endpoint_value: None,
        payee_name: None,
        payee_identifier: None,
        payee_legal_reg_id: None,
        tax_rep_name: None,
        tax_rep_vat_id: None,
        tax_rep_street: None,
        tax_rep_additional: None,
        tax_rep_city: None,
        tax_rep_postal: None,
        tax_rep_country: None,
        tax_rep_subdivision: None,
        payment_means_code: None,
        payment_means_text: None,
        payment_remittance_info: None,
        card_account_number: None,
        card_holder_name: None,
        direct_debit_mandate_id: None,
        direct_debit_account_id: None,
        direct_debit_creditor_id: None,
        payment_iban: None,
        payment_bic: None,
        payment_account_name: None,
        payment_terms: None,
        line_extension_amount: None,
        tax_exclusive_amount: None,
        tax_inclusive_amount: None,
        payable_amount: None,
        prepaid_amount: None,
        allowance_total_amount: None,
        charge_total_amount: None,
        tax_amount: None,
        tax_total_in_tax_currency: None,
        delivery_actual_date: None,
        delivery_party_name: None,
        delivery_party_location_id: None,
        delivery_street: None,
        delivery_additional: None,
        delivery_city: None,
        delivery_postal: None,
        delivery_country: None,
        delivery_subdivision: None,
        current_scheme_id: None,
        current_unit_code: None,
        current_currency_id: None,
        seller_prev_vat_id: None,
        seller_id_pending: false,
        buyer_prev_vat_id: None,
        buyer_id_pending: false,
    }
}

/// A document before anything is read.
pub open spec fn empty_doc() -> ParsedDocV {
    ParsedDocV {
        f: empty_fields(),
        notes: seq![],
        preceding: seq![],
        current_preceding: None,
        attachments: seq![],
        current_attachment: None,
        breakdowns: seq![],
        current_breakdown: None,
        lines: seq![],
        current_line: None,
        doc_acs: seq![],
        current_doc_ac: None,
    }
}

impl DocFields {
    /// No field read.
    pub fn empty() -> (r: DocFields)
        ensures
            r == empty_fields(),
    {
        DocFields {
            number: None,
            issue_date: None,
            due_date: None,
            type_code: None,
            currency_code: None,
            tax_currency_code: None,
            buyer_reference: None,
            order_reference: None,
            tax_point_date: None,
            invoicing_period_start: None,
            invoicing_period_end: None,
            seller_name: None,
            seller_trading_name: None,
            seller_vat_id: None,
            seller_tax_number: None,
            seller_reg_id: None,
            seller_street: None,
            seller_additional: None,
            seller_city: None,
            seller_postal: None,
            seller_country: None,
            seller_subdivision: None,
            seller_contact_name: None,
            seller_contact_phone: None,
            seller_contact_email: None,
            seller_endpoint_scheme: None,
            seller_endpoint_value: None,
            buyer_name: None,
            buyer_trading_name: None,
            buyer_vat_id: None,
            buyer_tax_number: None,
            buyer_reg_id: None,
            buyer_street: None,
            buyer_additional: None,
            buyer_city: None,
            buyer_postal: None,
            buyer_country: None,
            buyer_subdivision: None,
            buyer_contact_name: None,
            buyer_contact_phone: None,
            buyer_contact_email: None,
            buyer_endpoint_scheme: None,
            buyer_endpoint_value: None,
            payee_name: None,
            payee_identifier: None,
            payee_legal_reg_id: None,
            tax_rep_name: None,
            tax_rep_vat_id: None,
            tax_rep_street: None,
            tax_rep_additional: None,
            tax_rep_city: None,
            tax_rep_postal: None,
            tax_rep_country: None,
            tax_rep_subdivision: None,
            payment_means_code: None,
            payment_means_text: None,
            payment_remittance_info: None,
            card_account_number: None,
            card_holder_name: None,
            direct_debit_mandate_id: None,
            direct_debit_account_id: None,
            direct_debit_creditor_id: None,
            payment_iban: None,
            payment_bic: None,
            payment_account_name: None,
            payment_terms: None,
            line_extension_amount: None,
            tax_exclusive_amount: None,
            tax_inclusive_amount: None,
            payable_amount: None,
            prepaid_amount: None,
            allowance_total_amount: None,
            charge_total_amount: None,
            tax_amount: None,
            tax_total_in_tax_currency: None,
            delivery_actual_date: None,
            delivery_party_name: None,
            delivery_party_location_id: None,
            delivery_street: None,
            delivery_additional: None,
            delivery_city: None,
            delivery_postal: None,
            delivery_country: None,
            delivery_subdivision: None,
            current_scheme_id: None,
            current_unit_code: None,
            current_currency_id: None,
            seller_prev_vat_id: None,
            seller_id_pending: false,
            buyer_prev_vat_id: None,
            buyer_id_pending: false,
        }
    }
}

impl ParsedDoc {
    /// A document before anything is read.
    pub fn new() -> (r: ParsedDoc)
        ensures
            r@ == empty_doc(),
    {
        let r = ParsedDoc {
            f: DocFields::empty(),
            notes: Vec::new(),
            preceding: Vec::new(),
            current_preceding: None,
            attachments: Vec::new(),
            current_attachment: None,
            breakdowns: Vec::new(),
            current_breakdown: None,
            lines: Vec::new(),
            current_line: None,
            doc_acs: Vec::new(),
            current_doc_ac: None,
        };
        proof {
            assert(r@.lines =~= Seq::<ParsedLineV>::empty());
        }
        r
    }
}

// ---------------------------------------------------------------- a document

/// Reads a UBL document: the fields and groups it holds, or the message of
/// the first XML syntax error.
pub fn read_ubl(xml: &str) -> (r: Result<ParsedDoc, String>)
    ensures
        match ubl_run(empty_doc(), seq![], xml_reads(xml@)) {
            Ok(s) => r matches Ok(p) && p@ == s,
            Err(m) => r matches Err(e) && e@ == m,
        },
{
    let mut reader = reader_for(xml);
    let mut st = ParsedDoc::new();
    let mut path: Vec<String> = Vec::new();
    loop
        invariant
            reads_wf(reads_left(reader)),
            ubl_run(st@, path@, reads_left(reader)) == ubl_run(empty_doc(), seq![], xml_reads(xml@)),
        decreases reads_left(reader).len(),
    {
        let ghost before = reads_left(reader);
        let e = next_read(&mut reader);
        proof {
            assert(e == before[0]);
            if !is_final(e) {
                assert(before.len() > 1);
                assert forall|i: int| 0 <= i < reads_left(reader).len() - 1 implies !is_final(
                    #[trigger] reads_left(reader)[i],
                ) by {
                    assert(reads_left(reader)[i] == before[i + 1]);
                }
            }
        }
        match e {
            XmlRead::Start(name, attrs) => {
                st.start(&name, &attrs);
                path.push(name);
            },
            XmlRead::Text(t) => {
                if t.as_str().unicode_len() > 0 {
                    st.handle_ubl_text(&path, &t);
                }
            },
            XmlRead::End => {
                let ended = match path.pop() {
                    Some(x) => x,
                    None => String::new(),
                };
                st.end(&ended, &path);
            },
            XmlRead::Eof => {
                return Ok(st);
            },
            XmlRead::Failed(m) => {
                return Err(m);
            },
            XmlRead::Empty(_) => {},
            XmlRead::Other => {},
        }
    }
}

} // verus!
