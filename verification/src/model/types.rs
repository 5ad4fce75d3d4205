//! The EN 16931 invoice model.
use vstd::prelude::*;
use crate::date::Date;
use crate::decimal::Dec;
use crate::text::str_eq;

verus! {

/// BG-0: Invoice — the top-level document.
#[derive(Clone, Debug)]
pub struct Invoice {
    /// BT-1: Invoice number.
    pub number: String,
    /// BT-2: Invoice issue date.
    pub issue_date: Date,
    /// BT-9: Payment due date.
    pub due_date: Option<Date>,
    /// BT-3: Invoice type code (UNTDID 1001).
    pub type_code: InvoiceTypeCode,
    /// BT-5: Invoice currency code (ISO 4217).
    pub currency_code: String,
    /// BT-6: VAT accounting currency code.
    pub tax_currency_code: Option<String>,
    /// BT-22: Notes.
    pub notes: Vec<String>,
    /// BT-10: Buyer reference (Leitweg-ID for XRechnung).
    pub buyer_reference: Option<String>,
    /// BT-11: Project reference.
    pub project_reference: Option<String>,
    /// BT-12: Contract reference.
    pub contract_reference: Option<String>,
    /// BT-13: Purchase order reference.
    pub order_reference: Option<String>,
    /// BT-14: Sales order reference.
    pub sales_order_reference: Option<String>,
    /// BT-19: Buyer accounting reference.
    pub buyer_accounting_reference: Option<String>,
    /// BG-4: Seller.
    pub seller: Party,
    /// BG-7: Buyer.
    pub buyer: Party,
    /// BG-25: Invoice lines.
    pub lines: Vec<LineItem>,
    /// German VAT scenario determining validation rules.
    pub vat_scenario: VatScenario,
    /// BG-20: Document-level allowances.
    pub allowances: Vec<AllowanceCharge>,
    /// BG-21: Document-level charges.
    pub charges: Vec<AllowanceCharge>,
    /// BG-22: Calculated totals.
    pub totals: Option<Totals>,
    /// BT-20: Payment terms.
    pub payment_terms: Option<String>,
    /// BG-16: Payment instructions.
    pub payment: Option<PaymentInstructions>,
    /// BT-7: Tax point date (Leistungsdatum).
    pub tax_point_date: Option<Date>,
    /// BG-14: Invoicing period.
    pub invoicing_period: Option<Period>,
    /// BG-10: Payee.
    pub payee: Option<Payee>,
    /// BG-11: Seller tax representative.
    pub tax_representative: Option<TaxRepresentative>,
    /// BG-3: Preceding invoice references.
    pub preceding_invoices: Vec<PrecedingInvoiceReference>,
    /// BG-24: Additional supporting documents.
    pub attachments: Vec<DocumentAttachment>,
    /// BG-13: Delivery information.
    pub delivery: Option<DeliveryInformation>,
}

/// BG-4 / BG-7: Party (seller or buyer).
#[derive(Clone, Debug)]
pub struct Party {
    /// BT-27 / BT-44: Name.
    pub name: String,
    /// BT-31 / BT-48: VAT identifier.
    pub vat_id: Option<String>,
    /// BT-32: Tax registration number (Steuernummer).
    pub tax_number: Option<String>,
    /// BT-30 / BT-47: Legal registration identifier.
    pub registration_id: Option<String>,
    /// BT-28 / BT-45: Trading name.
    pub trading_name: Option<String>,
    /// BG-5 / BG-8: Postal address.
    pub address: Address,
    /// BG-6 / BG-9: Contact information.
    pub contact: Option<Contact>,
    /// BT-34 / BT-49: Electronic address.
    pub electronic_address: Option<ElectronicAddress>,
}

/// BG-5 / BG-8: Postal address.
#[derive(Clone, Debug)]
pub struct Address {
    /// BT-35 / BT-50: Street.
    pub street: Option<String>,
    /// BT-36 / BT-51: Additional address line.
    pub additional: Option<String>,
    /// BT-37 / BT-52: City.
    pub city: String,
    /// BT-38 / BT-53: Postal code.
    pub postal_code: String,
    /// BT-40 / BT-55: Country code (ISO 3166-1 alpha-2).
    pub country_code: String,
    /// BT-39 / BT-54: Country subdivision.
    pub subdivision: Option<String>,
}

/// BG-6 / BG-9: Contact information.
#[derive(Clone, Debug)]
pub struct Contact {
    /// BT-41 / BT-56: Contact point name.
    pub name: Option<String>,
    /// BT-42 / BT-57: Telephone.
    pub phone: Option<String>,
    /// BT-43 / BT-58: Email.
    pub email: Option<String>,
}

/// Electronic address with scheme identifier.
#[derive(Clone, Debug)]
pub struct ElectronicAddress {
    /// Scheme identifier (e.g. "EM" for email, "0088" for EAN).
    pub scheme: String,
    /// Address value.
    pub value: String,
}

/// BG-25: Invoice line item.
#[derive(Clone, Debug)]
pub struct LineItem {
    /// BT-126: Line identifier.
    pub id: String,
    /// BT-129: Invoiced quantity.
    pub quantity: Dec,
    /// BT-130: Unit of measure (UNECE Rec 20).
    pub unit: String,
    /// BT-146: Item net price.
    pub unit_price: Dec,
    /// BT-148: Item gross price.
    pub gross_price: Option<Dec>,
    /// BG-27: Line allowances.
    pub allowances: Vec<AllowanceCharge>,
    /// BG-28: Line charges.
    pub charges: Vec<AllowanceCharge>,
    /// BT-151: Tax category.
    pub tax_category: TaxCategory,
    /// BT-152: Tax rate percentage.
    pub tax_rate: Dec,
    /// BT-153: Item name.
    pub item_name: String,
    /// BT-154: Item description.
    pub description: Option<String>,
    /// BT-155: Seller's item identifier.
    pub seller_item_id: Option<String>,
    /// BT-156: Buyer's item identifier.
    pub buyer_item_id: Option<String>,
    /// BT-157: Item standard identifier.
    pub standard_item_id: Option<String>,
    /// Line extension amount, set by `calculate_totals`.
    pub line_amount: Option<Dec>,
    /// BT-127: Line note.
    pub note: Option<String>,
    /// BT-149: Item price base quantity.
    pub base_quantity: Option<Dec>,
    /// BT-150: Base quantity unit.
    pub base_quantity_unit: Option<String>,
    /// BT-159: Item country of origin.
    pub origin_country: Option<String>,
    /// BG-32: Item attributes.
    pub attributes: Vec<ItemAttribute>,
    /// BG-26: Line invoicing period.
    pub invoicing_period: Option<Period>,
}

/// BG-32: Item attribute.
#[derive(Clone, Debug)]
pub struct ItemAttribute {
    /// BT-160: Attribute name.
    pub name: String,
    /// BT-161: Attribute value.
    pub value: String,
}

/// UNTDID 5305 — Tax category codes.
#[derive(Clone, Copy, Debug, PartialEq, Eq, Structural, Hash)]
pub enum TaxCategory {
    /// S — Standard rate.
    StandardRate,
    /// Z — Zero rated.
    ZeroRated,
    /// E — Exempt from tax.
    Exempt,
    /// AE — Reverse charge.
    ReverseCharge,
    /// K — Intra-community supply.
    IntraCommunitySupply,
    /// G — Export (outside EU).
    Export,
    /// O — Not subject to VAT.
    NotSubjectToVat,
}

pub open spec fn tax_code_spec(c: TaxCategory) -> Seq<char> {
    match c {
        TaxCategory::StandardRate => "S"@,
        TaxCategory::ZeroRated => "Z"@,
        TaxCategory::Exempt => "E"@,
        TaxCategory::ReverseCharge => "AE"@,
        TaxCategory::IntraCommunitySupply => "K"@,
        TaxCategory::Export => "G"@,
        TaxCategory::NotSubjectToVat => "O"@,
    }
}

pub open spec fn tax_from_code_spec(code: Seq<char>) -> Option<TaxCategory> {
    if code == "S"@ {
        Some(TaxCategory::StandardRate)
    } else if code == "Z"@ {
        Some(TaxCategory::ZeroRated)
    } else if code == "E"@ {
        Some(TaxCategory::Exempt)
    } else if code == "AE"@ {
        Some(TaxCategory::ReverseCharge)
    } else if code == "K"@ {
        Some(TaxCategory::IntraCommunitySupply)
    } else if code == "G"@ {
        Some(TaxCategory::Export)
    } else if code == "O"@ {
        Some(TaxCategory::NotSubjectToVat)
    } else {
        None
    }
}

impl TaxCategory {
    /// UNTDID 5305 code letter.
    pub fn code(&self) -> (r: &'static str)
        ensures
            r@ == tax_code_spec(*self),
    {
        match self {
            TaxCategory::StandardRate => "S",
            TaxCategory::ZeroRated => "Z",
            TaxCategory::Exempt => "E",
            TaxCategory::ReverseCharge => "AE",
            TaxCategory::IntraCommunitySupply => "K",
            TaxCategory::Export => "G",
            TaxCategory::NotSubjectToVat => "O",
        }
    }

    /// Parse from UNTDID 5305 code string.
    pub fn from_code(code: &str) -> (r: Option<TaxCategory>)
        ensures
            r == tax_from_code_spec(code@),
    {
        if str_eq(code, "S") {
            Some(TaxCategory::StandardRate)
        } else if str_eq(code, "Z") {
            Some(TaxCategory::ZeroRated)
        } else if str_eq(code, "E") {
            Some(TaxCategory::Exempt)
        } else if str_eq(code, "AE") {
            Some(TaxCategory::ReverseCharge)
        } else if str_eq(code, "K") {
            Some(TaxCategory::IntraCommunitySupply)
        } else if str_eq(code, "G") {
            Some(TaxCategory::Export)
        } else if str_eq(code, "O") {
            Some(TaxCategory::NotSubjectToVat)
        } else {
            None
        }
    }
}

/// Reading back the code of a tax category gives the category.
pub proof fn lemma_tax_code_roundtrip(c: TaxCategory)
    ensures
        tax_from_code_spec(tax_code_spec(c)) == Some(c),
{
    reveal_strlit("S");
    reveal_strlit("Z");
    reveal_strlit("E");
    reveal_strlit("AE");
    reveal_strlit("K");
    reveal_strlit("G");
    reveal_strlit("O");
    assert("S"@[0] == 'S');
    assert("Z"@[0] == 'Z');
    assert("E"@[0] == 'E');
    assert("AE"@[0] == 'A');
    assert("K"@[0] == 'K');
    assert("G"@[0] == 'G');
    assert("O"@[0] == 'O');
}

/// The UNTDID 5305 code of each tax category: S standard rate, Z zero
/// rated, E exempt, AE reverse charge, K intra-community supply, G export,
/// O not subject to VAT; no two categories share a code, and reading a code
/// back gives its category.
pub proof fn lemma_tax_codes_are_untdid_5305(c: TaxCategory, d: TaxCategory)
    ensures
        tax_code_spec(TaxCategory::StandardRate) == "S"@,
        tax_code_spec(TaxCategory::ZeroRated) == "Z"@,
        tax_code_spec(TaxCategory::Exempt) == "E"@,
        tax_code_spec(TaxCategory::ReverseCharge) == "AE"@,
        tax_code_spec(TaxCategory::IntraCommunitySupply) == "K"@,
        tax_code_spec(TaxCategory::Export) == "G"@,
        tax_code_spec(TaxCategory::NotSubjectToVat) == "O"@,
        tax_from_code_spec("K"@) == Some(TaxCategory::IntraCommunitySupply),
        tax_from_code_spec("G"@) == Some(TaxCategory::Export),
        tax_code_spec(c) == tax_code_spec(d) ==> c == d,
        tax_from_code_spec(tax_code_spec(c)) == Some(c),
{
    lemma_tax_code_roundtrip(c);
    lemma_tax_code_roundtrip(d);
    lemma_tax_code_roundtrip(TaxCategory::IntraCommunitySupply);
    lemma_tax_code_roundtrip(TaxCategory::Export);
    reveal_strlit("S");
    reveal_strlit("Z");
    reveal_strlit("E");
    reveal_strlit("AE");
    reveal_strlit("K");
    reveal_strlit("G");
    reveal_strlit("O");
}

/// German-specific VAT scenario.
#[derive(Clone, Copy, Debug, PartialEq, Eq, Structural)]
pub enum VatScenario {
    /// Standard domestic invoice with German VAT.
    Domestic,
    /// §19 UStG Kleinunternehmerregelung.
    Kleinunternehmer,
    /// §13b UStG reverse charge.
    ReverseCharge,
    /// §4 Nr. 1b UStG intra-community supply.
    IntraCommunitySupply,
    /// §4 Nr. 1a UStG export.
    Export,
    /// §33 UStDV simplified invoice up to €250.
    SmallInvoice,
    /// Several scenarios on one invoice.
    Mixed,
}

/// UNTDID 1001 — Invoice type codes.
#[derive(Clone, Copy, Debug, PartialEq, Eq, Structural)]
pub enum InvoiceTypeCode {
    /// 380 — Commercial invoice.
    Invoice,
    /// 381 — Credit note.
    CreditNote,
    /// 384 — Corrected invoice.
    Corrected,
    /// 386 — Prepayment invoice.
    Prepayment,
    /// 326 — Partial invoice.
    Partial,
}

pub open spec fn type_code_spec(c: InvoiceTypeCode) -> u16 {
    match c {
        InvoiceTypeCode::Invoice => 380,
        InvoiceTypeCode::CreditNote => 381,
        InvoiceTypeCode::Corrected => 384,
        InvoiceTypeCode::Prepayment => 386,
        InvoiceTypeCode::Partial => 326,
    }
}

pub open spec fn type_from_code_spec(code: u16) -> Option<InvoiceTypeCode> {
    if code == 380 {
        Some(InvoiceTypeCode::Invoice)
    } else if code == 381 {
        Some(InvoiceTypeCode::CreditNote)
    } else if code == 384 {
        Some(InvoiceTypeCode::Corrected)
    } else if code == 386 {
        Some(InvoiceTypeCode::Prepayment)
    } else if code == 326 {
        Some(InvoiceTypeCode::Partial)
    } else {
        None
    }
}

impl InvoiceTypeCode {
    /// UNTDID 1001 numeric code.
    pub fn code(&self) -> (r: u16)
        ensures
            r == type_code_spec(*self),
    {
        match self {
            InvoiceTypeCode::Invoice => 380,
            InvoiceTypeCode::CreditNote => 381,
            InvoiceTypeCode::Corrected => 384,
            InvoiceTypeCode::Prepayment => 386,
            InvoiceTypeCode::Partial => 326,
        }
    }

    /// Parse from UNTDID 1001 numeric code.
    pub fn from_code(code: u16) -> (r: Option<InvoiceTypeCode>)
        ensures
            r == type_from_code_spec(code),
    {
        if code == 380 {
            Some(InvoiceTypeCode::Invoice)
        } else if code == 381 {
            Some(InvoiceTypeCode::CreditNote)
        } else if code == 384 {
            Some(InvoiceTypeCode::Corrected)
        } else if code == 386 {
            Some(InvoiceTypeCode::Prepayment)
        } else if code == 326 {
            Some(InvoiceTypeCode::Partial)
        } else {
            None
        }
    }
}

/// Reading back the code of an invoice type gives the type, and a code
/// that is read back is the code of what it was read as.
pub proof fn lemma_type_code_roundtrip(c: InvoiceTypeCode, code: u16)
    ensures
        type_from_code_spec(type_code_spec(c)) == Some(c),
        type_from_code_spec(code) matches Some(t) ==> type_code_spec(t) == code,
{
}

/// Document-level or line-level allowance/charge.
#[derive(Clone, Debug)]
pub struct AllowanceCharge {
    /// True = charge, false = allowance.
    pub is_charge: bool,
    /// Amount.
    pub amount: Dec,
    /// Percentage (if percentage-based).
    pub percentage: Option<Dec>,
    /// Base amount for percentage calculation.
    pub base_amount: Option<Dec>,
    /// Tax category.
    pub tax_category: TaxCategory,
    /// Tax rate.
    pub tax_rate: Dec,
    /// Reason text.
    pub reason: Option<String>,
    /// Reason code (UNTDID 5189 for allowances, 7161 for charges).
    pub reason_code: Option<String>,
}

/// BG-22: Document totals.
#[derive(Clone, Debug)]
pub struct Totals {
    /// BT-106: Sum of all line net amounts.
    pub line_net_total: Dec,
    /// BT-107: Sum of document-level allowances.
    pub allowances_total: Dec,
    /// BT-108: Sum of document-level charges.
    pub charges_total: Dec,
    /// BT-109: Invoice total without VAT.
    pub net_total: Dec,
    /// BT-110: Total VAT amount.
    pub vat_total: Dec,
    /// BT-111: Total VAT amount in the VAT accounting currency.
    pub vat_total_in_tax_currency: Option<Dec>,
    /// BT-112: Invoice total with VAT.
    pub gross_total: Dec,
    /// BT-113: Paid amount.
    pub prepaid: Dec,
    /// BT-115: Amount due.
    pub amount_due: Dec,
    /// BG-23: VAT breakdown by category.
    pub vat_breakdown: Vec<VatBreakdown>,
}

/// BG-23: VAT breakdown per category/rate combination.
#[derive(Clone, Debug)]
pub struct VatBreakdown {
    /// BT-118: Tax category.
    pub category: TaxCategory,
    /// BT-119: Tax rate percentage.
    pub rate: Dec,
    /// BT-116: Taxable amount.
    pub taxable_amount: Dec,
    /// BT-117: Tax amount.
    pub tax_amount: Dec,
    /// BT-120: Exemption reason text.
    pub exemption_reason: Option<String>,
    /// BT-121: Exemption reason code (VATEX).
    pub exemption_reason_code: Option<String>,
}

/// BG-16: Payment instructions.
#[derive(Clone, Debug)]
pub struct PaymentInstructions {
    /// BT-81: Payment means type code (UNTDID 4461).
    pub means_code: PaymentMeansCode,
    /// BT-82: Payment means text.
    pub means_text: Option<String>,
    /// BT-83: Remittance information.
    pub remittance_info: Option<String>,
    /// BG-17: Credit transfer.
    pub credit_transfer: Option<CreditTransfer>,
    /// BG-18: Payment card information.
    pub card_payment: Option<CardPayment>,
    /// BG-19: Direct debit.
    pub direct_debit: Option<DirectDebit>,
}

/// BG-17: Credit transfer / bank account.
#[derive(Clone, Debug)]
pub struct CreditTransfer {
    /// BT-84: IBAN.
    pub iban: String,
    /// BT-86: BIC.
    pub bic: Option<String>,
    /// BT-85: Account name.
    pub account_name: Option<String>,
}

/// BG-18: Payment card information.
#[derive(Clone, Debug)]
pub struct CardPayment {
    /// BT-87: Card account number.
    pub account_number: String,
    /// BT-88: Card holder name.
    pub holder_name: Option<String>,
}

/// BG-19: Direct debit.
#[derive(Clone, Debug)]
pub struct DirectDebit {
    /// BT-89: Mandate reference.
    pub mandate_id: Option<String>,
    /// BT-90: Bank assigned creditor identifier.
    pub creditor_id: Option<String>,
    /// BT-91: Debited account identifier.
    pub debited_account_id: Option<String>,
}

/// Common payment means codes (UNTDID 4461).
#[derive(Clone, Copy, Debug, PartialEq, Eq, Structural)]
pub enum PaymentMeansCode {
    /// 10 — Cash.
    Cash,
    /// 30 — Credit transfer.
    CreditTransfer,
    /// 42 — Payment to bank account.
    PaymentToBankAccount,
    /// 48 — Bank card.
    BankCard,
    /// 49 — Direct debit.
    DirectDebit,
    /// 57 — Standing agreement.
    StandingAgreement,
    /// 58 — SEPA credit transfer.
    SepaCreditTransfer,
    /// 59 — SEPA direct debit.
    SepaDirectDebit,
    /// Other code value.
    Other(u16),
}

pub open spec fn means_code_spec(c: PaymentMeansCode) -> u16 {
    match c {
        PaymentMeansCode::Cash => 10,
        PaymentMeansCode::CreditTransfer => 30,
        PaymentMeansCode::PaymentToBankAccount => 42,
        PaymentMeansCode::BankCard => 48,
        PaymentMeansCode::DirectDebit => 49,
        PaymentMeansCode::StandingAgreement => 57,
        PaymentMeansCode::SepaCreditTransfer => 58,
        PaymentMeansCode::SepaDirectDebit => 59,
        PaymentMeansCode::Other(c) => c,
    }
}

pub open spec fn means_from_code_spec(code: u16) -> PaymentMeansCode {
    if code == 10 {
        PaymentMeansCode::Cash
    } else if code == 30 {
        PaymentMeansCode::CreditTransfer
    } else if code == 42 {
        PaymentMeansCode::PaymentToBankAccount
    } else if code == 48 {
        PaymentMeansCode::BankCard
    } else if code == 49 {
        PaymentMeansCode::DirectDebit
    } else if code == 57 {
        PaymentMeansCode::StandingAgreement
    } else if code == 58 {
        PaymentMeansCode::SepaCreditTransfer
    } else if code == 59 {
        PaymentMeansCode::SepaDirectDebit
    } else {
        PaymentMeansCode::Other(code)
    }
}

impl PaymentMeansCode {
    /// UNTDID 4461 numeric code.
    pub fn code(&self) -> (r: u16)
        ensures
            r == means_code_spec(*self),
    {
        match self {
            PaymentMeansCode::Cash => 10,
            PaymentMeansCode::CreditTransfer => 30,
            PaymentMeansCode::PaymentToBankAccount => 42,
            PaymentMeansCode::BankCard => 48,
            PaymentMeansCode::DirectDebit => 49,
            PaymentMeansCode::StandingAgreement => 57,
            PaymentMeansCode::SepaCreditTransfer => 58,
            PaymentMeansCode::SepaDirectDebit => 59,
            PaymentMeansCode::Other(c) => *c,
        }
    }

    /// Parse from UNTDID 4461 numeric code.
    pub fn from_code(code: u16) -> (r: PaymentMeansCode)
        ensures
            r == means_from_code_spec(code),
    {
        if code == 10 {
            PaymentMeansCode::Cash
        } else if code == 30 {
            PaymentMeansCode::CreditTransfer
        } else if code == 42 {
            PaymentMeansCode::PaymentToBankAccount
        } else if code == 48 {
            PaymentMeansCode::BankCard
        } else if code == 49 {
            PaymentMeansCode::DirectDebit
        } else if code == 57 {
            PaymentMeansCode::StandingAgreement
        } else if code == 58 {
            PaymentMeansCode::SepaCreditTransfer
        } else if code == 59 {
            PaymentMeansCode::SepaDirectDebit
        } else {
            PaymentMeansCode::Other(code)
        }
    }
}

/// Every code reads back as a payment means with that code.
pub proof fn lemma_means_code_roundtrip(code: u16)
    ensures
        means_code_spec(means_from_code_spec(code)) == code,
{
}

/// Invoicing period.
#[derive(Clone, Copy, Debug)]
pub struct Period {
    /// BT-73: Start date.
    pub start: Date,
    /// BT-74: End date.
    pub end: Date,
}

/// BG-10: Payee.
#[derive(Clone, Debug)]
pub struct Payee {
    /// BT-59: Payee name.
    pub name: String,
    /// BT-60: Payee identifier.
    pub identifier: Option<String>,
    /// BT-61: Payee legal registration identifier.
    pub legal_registration_id: Option<String>,
}

/// BG-11: Seller tax representative party.
#[derive(Clone, Debug)]
pub struct TaxRepresentative {
    /// BT-62: Name.
    pub name: String,
    /// BT-63: VAT identifier.
    pub vat_id: String,
    /// BG-12: Postal address.
    pub address: Address,
}

/// BG-3: Preceding invoice reference.
#[derive(Clone, Debug)]
pub struct PrecedingInvoiceReference {
    /// BT-25: Preceding invoice number.
    pub number: String,
    /// BT-26: Preceding invoice issue date.
    pub issue_date: Option<Date>,
}

/// BG-24: Additional supporting document.
#[derive(Clone, Debug)]
pub struct DocumentAttachment {
    /// BT-122: Supporting document reference.
    pub id: Option<String>,
    /// BT-123: Supporting document description.
    pub description: Option<String>,
    /// BT-124: External document location.
    pub external_uri: Option<String>,
    /// BT-125: Attached document.
    pub embedded_document: Option<EmbeddedDocument>,
}

/// BT-125: Attached document content (base64) with its metadata.
#[derive(Clone, Debug)]
pub struct EmbeddedDocument {
    /// Base64 content.
    pub content: String,
    /// MIME code.
    pub mime_type: String,
    /// File name.
    pub filename: String,
}

/// BG-13: Delivery information.
#[derive(Clone, Debug)]
pub struct DeliveryInformation {
    /// BT-72: Actual delivery date.
    pub actual_delivery_date: Option<Date>,
    /// BG-13 party: deliver-to name and location.
    pub delivery_party: Option<DeliveryParty>,
    /// BG-15: Deliver-to address.
    pub delivery_address: Option<DeliveryAddress>,
}

/// Deliver-to party.
#[derive(Clone, Debug)]
pub struct DeliveryParty {
    /// BT-70: Deliver-to party name.
    pub name: String,
    /// BT-71: Deliver-to location identifier.
    pub location_id: Option<String>,
}

/// BG-15: Deliver-to address.
#[derive(Clone, Debug)]
pub struct DeliveryAddress {
    /// BT-75: Street.
    pub street: Option<String>,
    /// BT-76: Additional line.
    pub additional: Option<String>,
    /// BT-77: City.
    pub city: String,
    /// BT-78: Postal code.
    pub postal_code: String,
    /// BT-79: Country subdivision.
    pub subdivision: Option<String>,
    /// BT-80: Country code.
    pub country_code: String,
}

} // verus!
