//! XRechnung CII (UN/CEFACT Cross Industry Invoice) generation.
use vstd::prelude::*;
use crate::date::{format_ymd, ymd_compact, Date};
use crate::decimal::{checked_sub, decimal_checked_sub, lt, Dec};
use crate::model::error::RechnungError;
use crate::model::types::{
    tax_code_spec, type_code_spec, means_code_spec, Address, AllowanceCharge, CardPayment,
    Contact, CreditTransfer, DeliveryAddress, DeliveryInformation, DirectDebit,
    DocumentAttachment, ElectronicAddress, Invoice, InvoiceTypeCode, ItemAttribute, LineItem,
    Party, Payee, PaymentInstructions, Period, PrecedingInvoiceReference, TaxRepresentative,
    Totals, VatBreakdown,
};
use crate::text::string_of;
use crate::xml::{
    attrs_view, decimal_text, el, format_decimal, lemma_xml_concat_push,
    opt_text_el, text_el, text_el_attrs, xml_concat, lemma_xml_concat_append, xml_rendering,
    XmlEv, XmlWriter,
};
use crate::xrechnung::ubl::{
    attachment_id, bool_text, code_element, code_text, discount_overflows, el_attrs,
    generation_failure, is_pos, is_totals_missing, line_failure, lines_overflow,
    opt_wrapped_el, opt_wrapped_element, totals_missing, write_bool_element,
};
use crate::xrechnung::{cii_ns, PEPPOL_PROFILE_ID, XRECHNUNG_CUSTOMIZATION_ID};

verus! {

/// A decimal as written in CII (no currency attribute).
pub open spec fn dt(d: Dec) -> Seq<char> {
    decimal_text(d@)
}

/// `<name><udt:DateTimeString format="102">YYYYMMDD</udt:DateTimeString></name>`.
pub open spec fn cii_date_el(name: Seq<char>, d: Date) -> Seq<XmlEv> {
    el(
        name,
        text_el_attrs("udt:DateTimeString"@, ymd_compact(d@), seq![("format"@, "102"@)]),
    )
}

pub open spec fn opt_cii_date_el(name: Seq<char>, o: Option<Date>) -> Seq<XmlEv> {
    match o {
        Some(d) => cii_date_el(name, d),
        None => seq![],
    }
}

/// `<name>decimal</name>`.
pub open spec fn dec_el(name: Seq<char>, d: Dec) -> Seq<XmlEv> {
    text_el(name, dt(d))
}

fn write_cii_date(w: &mut XmlWriter, name: &str, d: &Date) -> (r: Result<(), RechnungError>)
    ensures
        match r {
            Ok(()) => final(w)@ == old(w)@ + cii_date_el(name@, *d),
            Err(_) => false,
        },
{
    w.start_element(name)?;
    let t = format_ymd(d);
    let attrs = [("format", "102")];
    w.text_element_with_attrs("udt:DateTimeString", t.as_str(), &attrs)?;
    w.end_element(name)?;
    proof {
        assert(attrs_view(attrs@) =~= seq![("format"@, "102"@)]);
        assert(w@ =~= old(w)@ + cii_date_el(name@, *d));
    }
    Ok(())
}

fn write_opt_cii_date(w: &mut XmlWriter, name: &str, o: &Option<Date>) -> (r: Result<
    (),
    RechnungError,
>)
    ensures
        match r {
            Ok(()) => final(w)@ == old(w)@ + opt_cii_date_el(name@, *o),
            Err(_) => false,
        },
{
    match o {
        Some(d) => write_cii_date(w, name, d)?,
        None => {},
    }
    proof {
        assert(w@ =~= old(w)@ + opt_cii_date_el(name@, *o));
    }
    Ok(())
}

fn dec_element(w: &mut XmlWriter, name: &str, d: Dec) -> (r: Result<(), RechnungError>)
    ensures
        match r {
            Ok(()) => final(w)@ == old(w)@ + dec_el(name@, d),
            Err(_) => false,
        },
{
    let t = format_decimal(d);
    w.text_element(name, t.as_str())
}

/// `<name schemeID="scheme">id</name>`.
pub open spec fn scheme_el(name: Seq<char>, id: Seq<char>, scheme: Seq<char>) -> Seq<XmlEv> {
    text_el_attrs(name, id, seq![("schemeID"@, scheme)])
}

fn scheme_element(w: &mut XmlWriter, name: &str, id: &str, scheme: &str) -> (r: Result<
    (),
    RechnungError,
>)
    ensures
        match r {
            Ok(()) => final(w)@ == old(w)@ + scheme_el(name@, id@, scheme@),
            Err(_) => false,
        },
{
    let attrs = [("schemeID", scheme)];
    let r = w.text_element_with_attrs(name, id, &attrs);
    proof {
        assert(attrs_view(attrs@) =~= seq![("schemeID"@, scheme@)]);
    }
    r
}

/// `<name unitCode="unit">decimal</name>`.
pub open spec fn unit_el(name: Seq<char>, d: Dec, unit: Seq<char>) -> Seq<XmlEv> {
    text_el_attrs(name, dt(d), seq![("unitCode"@, unit)])
}

fn unit_element(w: &mut XmlWriter, name: &str, d: Dec, unit: &str) -> (r: Result<
    (),
    RechnungError,
>)
    ensures
        match r {
            Ok(()) => final(w)@ == old(w)@ + unit_el(name@, d, unit@),
            Err(_) => false,
        },
{
    let t = format_decimal(d);
    let attrs = [("unitCode", unit)];
    let r = w.text_element_with_attrs(name, t.as_str(), &attrs);
    proof {
        assert(attrs_view(attrs@) =~= seq![("unitCode"@, unit@)]);
    }
    r
}

/// `<name currencyID="cur">decimal</name>`.
pub open spec fn currency_el(name: Seq<char>, d: Dec, cur: Seq<char>) -> Seq<XmlEv> {
    text_el_attrs(name, dt(d), seq![("currencyID"@, cur)])
}

// ---------------------------------------------------------------- parties

/// A party's address: postcode, lines, city, country, subdivision.
pub open spec fn cii_party_address(a: Address) -> Seq<XmlEv> {
    el(
        "ram:PostalTradeAddress"@,
        text_el("ram:PostcodeCode"@, a.postal_code@) + opt_text_el("ram:LineOne"@, a.street)
            + opt_text_el("ram:LineTwo"@, a.additional) + text_el("ram:CityName"@, a.city@)
            + text_el("ram:CountryID"@, a.country_code@) + opt_text_el(
            "ram:CountrySubDivisionName"@,
            a.subdivision,
        ),
    )
}

fn write_party_address(w: &mut XmlWriter, a: &Address) -> (r: Result<(), RechnungError>)
    ensures
        match r {
            Ok(()) => final(w)@ == old(w)@ + cii_party_address(*a),
            Err(_) => false,
        },
{
    w.start_element("ram:PostalTradeAddress")?;
    w.text_element("ram:PostcodeCode", a.postal_code.as_str())?;
    w.opt_text_element("ram:LineOne", &a.street)?;
    w.opt_text_element("ram:LineTwo", &a.additional)?;
    w.text_element("ram:CityName", a.city.as_str())?;
    w.text_element("ram:CountryID", a.country_code.as_str())?;
    w.opt_text_element("ram:CountrySubDivisionName", &a.subdivision)?;
    w.end_element("ram:PostalTradeAddress")?;
    proof {
        assert(w@ =~= old(w)@ + cii_party_address(*a));
    }
    Ok(())
}

/// The legal organization: registration id and trading name where given.
pub open spec fn legal_org_el(p: Party) -> Seq<XmlEv> {
    match p.registration_id {
        Some(r) => el(
            "ram:SpecifiedLegalOrganization"@,
            text_el("ram:ID"@, r@) + opt_text_el("ram:TradingBusinessName"@, p.trading_name),
        ),
        None => opt_wrapped_el(
            "ram:SpecifiedLegalOrganization"@,
            "ram:TradingBusinessName"@,
            p.trading_name,
        ),
    }
}

pub open spec fn cii_contact_el(o: Option<Contact>) -> Seq<XmlEv> {
    match o {
        Some(c) => el(
            "ram:DefinedTradeContact"@,
            opt_text_el("ram:PersonName"@, c.name) + opt_wrapped_el(
                "ram:TelephoneUniversalCommunication"@,
                "ram:CompleteNumber"@,
                c.phone,
            ) + opt_wrapped_el("ram:EmailURIUniversalCommunication"@, "ram:URIID"@, c.email),
        ),
        None => seq![],
    }
}

pub open spec fn uri_el(o: Option<ElectronicAddress>) -> Seq<XmlEv> {
    match o {
        Some(ea) => el(
            "ram:URIUniversalCommunication"@,
            scheme_el("ram:URIID"@, ea.value@, ea.scheme@),
        ),
        None => seq![],
    }
}

/// A tax registration with its scheme (`VA` or `FC`).
pub open spec fn tax_reg_el(id: Seq<char>, scheme: Seq<char>) -> Seq<XmlEv> {
    el("ram:SpecifiedTaxRegistration"@, scheme_el("ram:ID"@, id, scheme))
}

pub open spec fn opt_tax_reg_el(o: Option<String>, scheme: Seq<char>) -> Seq<XmlEv> {
    match o {
        Some(id) => tax_reg_el(id@, scheme),
        None => seq![],
    }
}

/// A trade party, in the element order the CII schema requires.
#[verifier::opaque]
pub open spec fn cii_party(p: Party, element: Seq<char>) -> Seq<XmlEv> {
    el(
        element,
        text_el("ram:Name"@, p.name@) + legal_org_el(p) + cii_contact_el(p.contact)
            + cii_party_address(p.address) + uri_el(p.electronic_address) + opt_tax_reg_el(
            p.vat_id,
            "VA"@,
        ) + opt_tax_reg_el(p.tax_number, "FC"@),
    )
}

fn write_legal_org(w: &mut XmlWriter, p: &Party) -> (r: Result<(), RechnungError>)
    ensures
        match r {
            Ok(()) => final(w)@ == old(w)@ + legal_org_el(*p),
            Err(_) => false,
        },
{
    match &p.registration_id {
        Some(reg) => {
            w.start_element("ram:SpecifiedLegalOrganization")?;
            w.text_element("ram:ID", reg.as_str())?;
            w.opt_text_element("ram:TradingBusinessName", &p.trading_name)?;
            w.end_element("ram:SpecifiedLegalOrganization")?;
            proof {
                assert(w@ =~= old(w)@ + legal_org_el(*p));
            }
            Ok(())
        },
        None => opt_wrapped_element(
            w,
            "ram:SpecifiedLegalOrganization",
            "ram:TradingBusinessName",
            &p.trading_name,
        ),
    }
}

fn write_cii_contact(w: &mut XmlWriter, o: &Option<Contact>) -> (r: Result<(), RechnungError>)
    ensures
        match r {
            Ok(()) => final(w)@ == old(w)@ + cii_contact_el(*o),
            Err(_) => false,
        },
{
    match o {
        Some(c) => {
            w.start_element("ram:DefinedTradeContact")?;
            w.opt_text_element("ram:PersonName", &c.name)?;
            opt_wrapped_element(
                w,
                "ram:TelephoneUniversalCommunication",
                "ram:CompleteNumber",
                &c.phone,
            )?;
            opt_wrapped_element(w, "ram:EmailURIUniversalCommunication", "ram:URIID", &c.email)?;
            w.end_element("ram:DefinedTradeContact")?;
        },
        None => {},
    }
    proof {
        assert(w@ =~= old(w)@ + cii_contact_el(*o));
    }
    Ok(())
}

fn write_uri(w: &mut XmlWriter, o: &Option<ElectronicAddress>) -> (r: Result<(), RechnungError>)
    ensures
        match r {
            Ok(()) => final(w)@ == old(w)@ + uri_el(*o),
            Err(_) => false,
        },
{
    match o {
        Some(ea) => {
            w.start_element("ram:URIUniversalCommunication")?;
            scheme_element(w, "ram:URIID", ea.value.as_str(), ea.scheme.as_str())?;
            w.end_element("ram:URIUniversalCommunication")?;
        },
        None => {},
    }
    proof {
        assert(w@ =~= old(w)@ + uri_el(*o));
    }
    Ok(())
}

fn write_tax_reg(w: &mut XmlWriter, id: &str, scheme: &str) -> (r: Result<(), RechnungError>)
    ensures
        match r {
            Ok(()) => final(w)@ == old(w)@ + tax_reg_el(id@, scheme@),
            Err(_) => false,
        },
{
    w.start_element("ram:SpecifiedTaxRegistration")?;
    scheme_element(w, "ram:ID", id, scheme)?;
    w.end_element("ram:SpecifiedTaxRegistration")?;
    proof {
        assert(w@ =~= old(w)@ + tax_reg_el(id@, scheme@));
    }
    Ok(())
}

fn write_opt_tax_reg(w: &mut XmlWriter, o: &Option<String>, scheme: &str) -> (r: Result<
    (),
    RechnungError,
>)
    ensures
        match r {
            Ok(()) => final(w)@ == old(w)@ + opt_tax_reg_el(*o, scheme@),
            Err(_) => false,
        },
{
    match o {
        Some(id) => write_tax_reg(w, id.as_str(), scheme)?,
        None => {},
    }
    proof {
        assert(w@ =~= old(w)@ + opt_tax_reg_el(*o, scheme@));
    }
    Ok(())
}

fn write_cii_party(w: &mut XmlWriter, p: &Party, element: &str) -> (r: Result<(), RechnungError>)
    ensures
        match r {
            Ok(()) => final(w)@ == old(w)@ + cii_party(*p, element@),
            Err(_) => false,
        },
{
    proof {
        reveal(cii_party);
    }
    w.start_element(element)?;
    w.text_element("ram:Name", p.name.as_str())?;
    write_legal_org(w, p)?;
    write_cii_contact(w, &p.contact)?;
    write_party_address(w, &p.address)?;
    write_uri(w, &p.electronic_address)?;
    write_opt_tax_reg(w, &p.vat_id, "VA")?;
    write_opt_tax_reg(w, &p.tax_number, "FC")?;
    w.end_element(element)?;
    proof {
        assert(w@ =~= old(w)@ + cii_party(*p, element@));
    }
    Ok(())
}

// ---------------------------------------------------------------- document context and header

/// The business process and guideline parameters.
pub open spec fn cii_context_el() -> Seq<XmlEv> {
    el(
        "rsm:ExchangedDocumentContext"@,
        el(
            "ram:BusinessProcessSpecifiedDocumentContextParameter"@,
            text_el("ram:ID"@, PEPPOL_PROFILE_ID@),
        ) + el(
            "ram:GuidelineSpecifiedDocumentContextParameter"@,
            text_el("ram:ID"@, XRECHNUNG_CUSTOMIZATION_ID@),
        ),
    )
}

fn write_context(w: &mut XmlWriter) -> (r: Result<(), RechnungError>)
    ensures
        match r {
            Ok(()) => final(w)@ == old(w)@ + cii_context_el(),
            Err(_) => false,
        },
{
    w.start_element("rsm:ExchangedDocumentContext")?;
    w.start_element("ram:BusinessProcessSpecifiedDocumentContextParameter")?;
    w.text_element("ram:ID", PEPPOL_PROFILE_ID)?;
    w.end_element("ram:BusinessProcessSpecifiedDocumentContextParameter")?;
    w.start_element("ram:GuidelineSpecifiedDocumentContextParameter")?;
    w.text_element("ram:ID", XRECHNUNG_CUSTOMIZATION_ID)?;
    w.end_element("ram:GuidelineSpecifiedDocumentContextParameter")?;
    w.end_element("rsm:ExchangedDocumentContext")?;
    proof {
        assert(w@ =~= old(w)@ + cii_context_el());
    }
    Ok(())
}

/// One `<outer><inner>text</inner></outer>` per string, in order.
pub open spec fn wrapped_texts_el(outer: Seq<char>, inner: Seq<char>, s: Seq<String>) -> Seq<
    XmlEv,
> {
    xml_concat(Seq::new(s.len(), |i: int| el(outer, text_el(inner, s[i]@))))
}

fn write_wrapped_texts(w: &mut XmlWriter, outer: &str, inner: &str, s: &Vec<String>) -> (r:
    Result<(), RechnungError>)
    ensures
        match r {
            Ok(()) => final(w)@ == old(w)@ + wrapped_texts_el(outer@, inner@, s@),
            Err(_) => false,
        },
{
    let ghost start = w@;
    let mut i: usize = 0;
    while i < s.len()
        invariant
            i <= s@.len(),
            w@ == start + xml_concat(
                Seq::new(i as nat, |k: int| el(outer@, text_el(inner@, s@[k]@))),
            ),
        decreases s.len() - i,
    {
        w.start_element(outer)?;
        w.text_element(inner, s[i].as_str())?;
        w.end_element(outer)?;
        proof {
            let f = |k: int| el(outer@, text_el(inner@, s@[k]@));
            assert(Seq::new((i + 1) as nat, f) =~= Seq::new(i as nat, f).push(f(i as int)));
            lemma_xml_concat_push(Seq::new(i as nat, f), f(i as int));
        }
        i = i + 1;
    }
    Ok(())
}

/// The exchanged document: number, type code, issue date and notes.
pub open spec fn cii_header_el(inv: Invoice) -> Seq<XmlEv> {
    el(
        "rsm:ExchangedDocument"@,
        text_el("ram:ID"@, inv.number@) + text_el(
            "ram:TypeCode"@,
            code_text(type_code_spec(inv.type_code)),
        ) + cii_date_el("ram:IssueDateTime"@, inv.issue_date) + wrapped_texts_el(
            "ram:IncludedNote"@,
            "ram:Content"@,
            inv.notes@,
        ),
    )
}

fn write_header(w: &mut XmlWriter, inv: &Invoice) -> (r: Result<(), RechnungError>)
    ensures
        match r {
            Ok(()) => final(w)@ == old(w)@ + cii_header_el(*inv),
            Err(_) => false,
        },
{
    w.start_element("rsm:ExchangedDocument")?;
    w.text_element("ram:ID", inv.number.as_str())?;
    code_element(w, "ram:TypeCode", inv.type_code.code())?;
    write_cii_date(w, "ram:IssueDateTime", &inv.issue_date)?;
    write_wrapped_texts(w, "ram:IncludedNote", "ram:Content", &inv.notes)?;
    w.end_element("rsm:ExchangedDocument")?;
    proof {
        assert(w@ =~= old(w)@ + cii_header_el(*inv));
    }
    Ok(())
}

// ---------------------------------------------------------------- lines

/// The line document: line id and note.
#[verifier::opaque]
pub open spec fn line_doc_el(l: LineItem) -> Seq<XmlEv> {
    el(
        "ram:AssociatedDocumentLineDocument"@,
        text_el("ram:LineID"@, l.id@) + opt_wrapped_el(
            "ram:IncludedNote"@,
            "ram:Content"@,
            l.note,
        ),
    )
}

pub open spec fn global_id_el(o: Option<String>) -> Seq<XmlEv> {
    match o {
        Some(s) => scheme_el("ram:GlobalID"@, s@, "0160"@),
        None => seq![],
    }
}

pub open spec fn characteristic_el(a: ItemAttribute) -> Seq<XmlEv> {
    el(
        "ram:ApplicableProductCharacteristic"@,
        text_el("ram:Description"@, a.name@) + text_el("ram:Value"@, a.value@),
    )
}

pub open spec fn characteristics_el(s: Seq<ItemAttribute>) -> Seq<XmlEv> {
    xml_concat(Seq::new(s.len(), |i: int| characteristic_el(s[i])))
}

/// The traded product.
#[verifier::opaque]
pub open spec fn product_el(l: LineItem) -> Seq<XmlEv> {
    el(
        "ram:SpecifiedTradeProduct"@,
        global_id_el(l.standard_item_id) + opt_text_el("ram:SellerAssignedID"@, l.seller_item_id)
            + opt_text_el("ram:BuyerAssignedID"@, l.buyer_item_id) + text_el(
            "ram:Name"@,
            l.item_name@,
        ) + opt_text_el("ram:Description"@, l.description) + opt_wrapped_el(
            "ram:OriginTradeCountry"@,
            "ram:ID"@,
            l.origin_country,
        ) + characteristics_el(l.attributes@),
    )
}

/// The gross price with its discount, where a gross price is given.
#[verifier::opaque]
pub open spec fn gross_price_el(l: LineItem) -> Seq<XmlEv> {
    match l.gross_price {
        Some(gp) => el(
            "ram:GrossPriceProductTradePrice"@,
            dec_el("ram:ChargeAmount"@, gp) + match decimal_checked_sub(gp@, l.unit_price@) {
                Some(d) => if is_pos(d) {
                    el(
                        "ram:AppliedTradeAllowanceCharge"@,
                        text_el("ram:ChargeIndicator"@, "false"@) + text_el(
                            "ram:ActualAmount"@,
                            decimal_text(d),
                        ),
                    )
                } else {
                    seq![]
                },
                None => seq![],
            },
        ),
        None => seq![],
    }
}

/// The net price with its base quantity.
#[verifier::opaque]
pub open spec fn net_price_el(l: LineItem) -> Seq<XmlEv> {
    el(
        "ram:NetPriceProductTradePrice"@,
        dec_el("ram:ChargeAmount"@, l.unit_price) + match l.base_quantity {
            Some(bq) => unit_el(
                "ram:BasisQuantity"@,
                bq,
                match l.base_quantity_unit {
                    Some(u) => u@,
                    None => l.unit@,
                },
            ),
            None => seq![],
        },
    )
}

/// A line allowance or charge.
pub open spec fn line_ac_el(ac: AllowanceCharge) -> Seq<XmlEv> {
    el(
        "ram:SpecifiedTradeAllowanceCharge"@,
        text_el("ram:ChargeIndicator"@, bool_text(ac.is_charge)) + dec_el(
            "ram:ActualAmount"@,
            ac.amount,
        ) + opt_text_el("ram:Reason"@, ac.reason) + opt_text_el("ram:ReasonCode"@, ac.reason_code),
    )
}

pub open spec fn line_acs_el(s: Seq<AllowanceCharge>) -> Seq<XmlEv> {
    xml_concat(Seq::new(s.len(), |i: int| line_ac_el(s[i])))
}

/// A billing period.
pub open spec fn cii_period_el(o: Option<Period>) -> Seq<XmlEv> {
    match o {
        Some(p) => el(
            "ram:BillingSpecifiedPeriod"@,
            cii_date_el("ram:StartDateTime"@, p.start) + cii_date_el("ram:EndDateTime"@, p.end),
        ),
        None => seq![],
    }
}

/// A category, type code and rate.
pub open spec fn trade_tax_content(l_code: Seq<char>, rate: Dec) -> Seq<XmlEv> {
    text_el("ram:TypeCode"@, "VAT"@) + text_el("ram:CategoryCode"@, l_code) + dec_el(
        "ram:RateApplicablePercent"@,
        rate,
    )
}

/// The line settlement: period, allowances then charges, tax and total.
#[verifier::opaque]
pub open spec fn line_settlement_el(l: LineItem) -> Seq<XmlEv> {
    el(
        "ram:SpecifiedLineTradeSettlement"@,
        cii_period_el(l.invoicing_period) + line_acs_el(l.allowances@ + l.charges@)
            + line_tax_total_el(l),
    )
}

/// An invoice line.
pub open spec fn cii_line(l: LineItem) -> Seq<XmlEv> {
    el(
        "ram:IncludedSupplyChainTradeLineItem"@,
        line_doc_el(l) + product_el(l) + el(
            "ram:SpecifiedLineTradeAgreement"@,
            gross_price_el(l) + net_price_el(l),
        ) + el(
            "ram:SpecifiedLineTradeDelivery"@,
            unit_el("ram:BilledQuantity"@, l.quantity, l.unit@),
        ) + line_settlement_el(l),
    )
}

#[verifier::opaque]
pub open spec fn cii_lines(s: Seq<LineItem>) -> Seq<XmlEv> {
    xml_concat(Seq::new(s.len(), |i: int| cii_line(s[i])))
}

fn write_line_doc(w: &mut XmlWriter, l: &LineItem) -> (r: Result<(), RechnungError>)
    ensures
        match r {
            Ok(()) => final(w)@ == old(w)@ + line_doc_el(*l),
            Err(_) => false,
        },
{
    proof {
        reveal(line_doc_el);
    }
    w.start_element("ram:AssociatedDocumentLineDocument")?;
    w.text_element("ram:LineID", l.id.as_str())?;
    opt_wrapped_element(w, "ram:IncludedNote", "ram:Content", &l.note)?;
    w.end_element("ram:AssociatedDocumentLineDocument")?;
    proof {
        assert(w@ =~= old(w)@ + line_doc_el(*l));
    }
    Ok(())
}

fn write_characteristics(w: &mut XmlWriter, s: &Vec<ItemAttribute>) -> (r: Result<
    (),
    RechnungError,
>)
    ensures
        match r {
            Ok(()) => final(w)@ == old(w)@ + characteristics_el(s@),
            Err(_) => false,
        },
{
    let ghost start = w@;
    let mut i: usize = 0;
    while i < s.len()
        invariant
            i <= s@.len(),
            w@ == start + xml_concat(Seq::new(i as nat, |k: int| characteristic_el(s@[k]))),
        decreases s.len() - i,
    {
        let a = &s[i];
        w.start_element("ram:ApplicableProductCharacteristic")?;
        w.text_element("ram:Description", a.name.as_str())?;
        w.text_element("ram:Value", a.value.as_str())?;
        w.end_element("ram:ApplicableProductCharacteristic")?;
        proof {
            let f = |k: int| characteristic_el(s@[k]);
            assert(Seq::new((i + 1) as nat, f) =~= Seq::new(i as nat, f).push(f(i as int)));
            lemma_xml_concat_push(Seq::new(i as nat, f), f(i as int));
        }
        i = i + 1;
    }
    Ok(())
}

fn write_global_id(w: &mut XmlWriter, o: &Option<String>) -> (r: Result<(), RechnungError>)
    ensures
        match r {
            Ok(()) => final(w)@ == old(w)@ + global_id_el(*o),
            Err(_) => false,
        },
{
    match o {
        Some(s) => scheme_element(w, "ram:GlobalID", s.as_str(), "0160")?,
        None => {},
    }
    proof {
        assert(w@ =~= old(w)@ + global_id_el(*o));
    }
    Ok(())
}

fn write_product(w: &mut XmlWriter, l: &LineItem) -> (r: Result<(), RechnungError>)
    ensures
        match r {
            Ok(()) => final(w)@ == old(w)@ + product_el(*l),
            Err(_) => false,
        },
{
    proof {
        reveal(product_el);
    }
    w.start_element("ram:SpecifiedTradeProduct")?;
    write_global_id(w, &l.standard_item_id)?;
    w.opt_text_element("ram:SellerAssignedID", &l.seller_item_id)?;
    w.opt_text_element("ram:BuyerAssignedID", &l.buyer_item_id)?;
    w.text_element("ram:Name", l.item_name.as_str())?;
    w.opt_text_element("ram:Description", &l.description)?;
    opt_wrapped_element(w, "ram:OriginTradeCountry", "ram:ID", &l.origin_country)?;
    write_characteristics(w, &l.attributes)?;
    w.end_element("ram:SpecifiedTradeProduct")?;
    proof {
        assert(w@ =~= old(w)@ + product_el(*l));
    }
    Ok(())
}

fn write_gross_price(w: &mut XmlWriter, l: &LineItem) -> (r: Result<(), RechnungError>)
    ensures
        match r {
            Ok(()) => final(w)@ == old(w)@ + gross_price_el(*l) && !discount_overflows(*l),
            Err(e) => line_failure(e, discount_overflows(*l)),
        },
{
    proof {
        reveal(gross_price_el);
    }
    match l.gross_price {
        Some(gp) => {
            w.start_element("ram:GrossPriceProductTradePrice")?;
            dec_element(w, "ram:ChargeAmount", gp)?;
            let ghost s1 = w@;
            match checked_sub(gp, l.unit_price) {
                Some(d) => {
                    if lt(&Dec::zero(), &d) {
                        w.start_element("ram:AppliedTradeAllowanceCharge")?;
                        proof {
                            reveal_strlit("false");
                        }
                        w.text_element("ram:ChargeIndicator", "false")?;
                        dec_element(w, "ram:ActualAmount", d)?;
                        w.end_element("ram:AppliedTradeAllowanceCharge")?;
                    }
                },
                None => {
                    return Err(
                        RechnungError::Arithmetic(
                            string_of("price discount (gross price - net price) out of range"),
                        ),
                    );
                },
            }
            w.end_element("ram:GrossPriceProductTradePrice")?;
        },
        None => {},
    }
    proof {
        assert(w@ =~= old(w)@ + gross_price_el(*l));
    }
    Ok(())
}

fn write_net_price(w: &mut XmlWriter, l: &LineItem) -> (r: Result<(), RechnungError>)
    ensures
        match r {
            Ok(()) => final(w)@ == old(w)@ + net_price_el(*l),
            Err(_) => false,
        },
{
    proof {
        reveal(net_price_el);
    }
    w.start_element("ram:NetPriceProductTradePrice")?;
    dec_element(w, "ram:ChargeAmount", l.unit_price)?;
    let ghost s1 = w@;
    match l.base_quantity {
        Some(bq) => {
            let unit = match &l.base_quantity_unit {
                Some(u) => u.as_str(),
                None => l.unit.as_str(),
            };
            unit_element(w, "ram:BasisQuantity", bq, unit)?;
        },
        None => {},
    }
    w.end_element("ram:NetPriceProductTradePrice")?;
    proof {
        assert(w@ =~= old(w)@ + net_price_el(*l));
    }
    Ok(())
}

fn write_line_ac(w: &mut XmlWriter, ac: &AllowanceCharge) -> (r: Result<(), RechnungError>)
    ensures
        match r {
            Ok(()) => final(w)@ == old(w)@ + line_ac_el(*ac),
            Err(_) => false,
        },
{
    w.start_element("ram:SpecifiedTradeAllowanceCharge")?;
    write_bool_element(w, "ram:ChargeIndicator", ac.is_charge)?;
    dec_element(w, "ram:ActualAmount", ac.amount)?;
    w.opt_text_element("ram:Reason", &ac.reason)?;
    w.opt_text_element("ram:ReasonCode", &ac.reason_code)?;
    w.end_element("ram:SpecifiedTradeAllowanceCharge")?;
    proof {
        assert(w@ =~= old(w)@ + line_ac_el(*ac));
    }
    Ok(())
}

/// Line allowances or charges, in order.
fn write_line_acs(w: &mut XmlWriter, s: &Vec<AllowanceCharge>) -> (r: Result<(), RechnungError>)
    ensures
        match r {
            Ok(()) => final(w)@ == old(w)@ + line_acs_el(s@),
            Err(_) => false,
        },
{
    let ghost start = w@;
    let mut i: usize = 0;
    while i < s.len()
        invariant
            i <= s@.len(),
            w@ == start + xml_concat(Seq::new(i as nat, |k: int| line_ac_el(s@[k]))),
        decreases s.len() - i,
    {
        write_line_ac(w, &s[i])?;
        proof {
            let f = |k: int| line_ac_el(s@[k]);
            assert(Seq::new((i + 1) as nat, f) =~= Seq::new(i as nat, f).push(f(i as int)));
            lemma_xml_concat_push(Seq::new(i as nat, f), f(i as int));
        }
        i = i + 1;
    }
    Ok(())
}

/// The allowances or charges of two lists are those of the first, then those
/// of the second.
pub proof fn lemma_line_acs_append(a: Seq<AllowanceCharge>, b: Seq<AllowanceCharge>)
    ensures
        line_acs_el(a + b) == line_acs_el(a) + line_acs_el(b),
{
    let fa = |i: int| line_ac_el(a[i]);
    let fb = |i: int| line_ac_el(b[i]);
    assert(Seq::new((a + b).len(), |i: int| line_ac_el((a + b)[i])) =~= Seq::new(a.len(), fa)
        + Seq::new(b.len(), fb));
    lemma_xml_concat_append(Seq::new(a.len(), fa), Seq::new(b.len(), fb));
}

fn write_cii_period(w: &mut XmlWriter, o: &Option<Period>) -> (r: Result<(), RechnungError>)
    ensures
        match r {
            Ok(()) => final(w)@ == old(w)@ + cii_period_el(*o),
            Err(_) => false,
        },
{
    match o {
        Some(p) => {
            w.start_element("ram:BillingSpecifiedPeriod")?;
            write_cii_date(w, "ram:StartDateTime", &p.start)?;
            write_cii_date(w, "ram:EndDateTime", &p.end)?;
            w.end_element("ram:BillingSpecifiedPeriod")?;
        },
        None => {},
    }
    proof {
        assert(w@ =~= old(w)@ + cii_period_el(*o));
    }
    Ok(())
}

fn write_trade_tax_content(w: &mut XmlWriter, code: &str, rate: Dec) -> (r: Result<
    (),
    RechnungError,
>)
    ensures
        match r {
            Ok(()) => final(w)@ == old(w)@ + trade_tax_content(code@, rate),
            Err(_) => false,
        },
{
    w.text_element("ram:TypeCode", "VAT")?;
    w.text_element("ram:CategoryCode", code)?;
    dec_element(w, "ram:RateApplicablePercent", rate)?;
    proof {
        assert(w@ =~= old(w)@ + trade_tax_content(code@, rate));
    }
    Ok(())
}

fn write_line_settlement(w: &mut XmlWriter, l: &LineItem) -> (r: Result<(), RechnungError>)
    ensures
        match r {
            Ok(()) => final(w)@ == old(w)@ + line_settlement_el(*l),
            Err(_) => false,
        },
{
    proof {
        reveal(line_settlement_el);
    }
    w.start_element("ram:SpecifiedLineTradeSettlement")?;
    write_cii_period(w, &l.invoicing_period)?;
    write_line_acs(w, &l.allowances)?;
    write_line_acs(w, &l.charges)?;
    write_line_tax_total(w, l)?;
    w.end_element("ram:SpecifiedLineTradeSettlement")?;
    proof {
        lemma_line_acs_append(l.allowances@, l.charges@);
        assert(w@ =~= old(w)@ + line_settlement_el(*l));
    }
    Ok(())
}

/// The line's tax and its total amount.
pub open spec fn line_tax_total_el(l: LineItem) -> Seq<XmlEv> {
    el(
        "ram:ApplicableTradeTax"@,
        trade_tax_content(tax_code_spec(l.tax_category), l.tax_rate),
    ) + el(
        "ram:SpecifiedTradeSettlementLineMonetarySummation"@,
        match l.line_amount {
            Some(a) => dec_el("ram:LineTotalAmount"@, a),
            None => seq![],
        },
    )
}

fn write_line_tax_total(w: &mut XmlWriter, l: &LineItem) -> (r: Result<(), RechnungError>)
    ensures
        match r {
            Ok(()) => final(w)@ == old(w)@ + line_tax_total_el(*l),
            Err(_) => false,
        },
{
    w.start_element("ram:ApplicableTradeTax")?;
    write_trade_tax_content(w, l.tax_category.code(), l.tax_rate)?;
    w.end_element("ram:ApplicableTradeTax")?;
    w.start_element("ram:SpecifiedTradeSettlementLineMonetarySummation")?;
    match l.line_amount {
        Some(a) => dec_element(w, "ram:LineTotalAmount", a)?,
        None => {},
    }
    w.end_element("ram:SpecifiedTradeSettlementLineMonetarySummation")?;
    proof {
        assert(w@ =~= old(w)@ + line_tax_total_el(*l));
    }
    Ok(())
}

#[verifier::spinoff_prover]
fn write_cii_line(w: &mut XmlWriter, l: &LineItem) -> (r: Result<(), RechnungError>)
    ensures
        match r {
            Ok(()) => final(w)@ == old(w)@ + cii_line(*l) && !discount_overflows(*l),
            Err(e) => line_failure(e, discount_overflows(*l)),
        },
{
    w.start_element("ram:IncludedSupplyChainTradeLineItem")?;
    write_line_doc(w, l)?;
    write_product(w, l)?;
    w.start_element("ram:SpecifiedLineTradeAgreement")?;
    write_gross_price(w, l)?;
    write_net_price(w, l)?;
    w.end_element("ram:SpecifiedLineTradeAgreement")?;
    w.start_element("ram:SpecifiedLineTradeDelivery")?;
    unit_element(w, "ram:BilledQuantity", l.quantity, l.unit.as_str())?;
    w.end_element("ram:SpecifiedLineTradeDelivery")?;
    write_line_settlement(w, l)?;
    w.end_element("ram:IncludedSupplyChainTradeLineItem")?;
    proof {
        assert(w@ =~= old(w)@ + cii_line(*l));
    }
    Ok(())
}

fn write_cii_lines(w: &mut XmlWriter, s: &Vec<LineItem>) -> (r: Result<(), RechnungError>)
    ensures
        match r {
            Ok(()) => final(w)@ == old(w)@ + cii_lines(s@) && !lines_overflow(s@),
            Err(e) => line_failure(e, lines_overflow(s@)),
        },
{
    proof {
        reveal(cii_lines);
    }
    let ghost start = w@;
    let mut i: usize = 0;
    while i < s.len()
        invariant
            i <= s@.len(),
            w@ == start + xml_concat(Seq::new(i as nat, |k: int| cii_line(s@[k]))),
            forall|k: int| 0 <= k < i ==> !discount_overflows(#[trigger] s@[k]),
        decreases s.len() - i,
    {
        let r = write_cii_line(w, &s[i]);
        match r {
            Ok(()) => {},
            Err(e) => {
                proof {
                    if discount_overflows(s@[i as int]) {
                        assert(lines_overflow(s@));
                    }
                }
                return Err(e);
            },
        }
        proof {
            let f = |k: int| cii_line(s@[k]);
            assert(Seq::new((i + 1) as nat, f) =~= Seq::new(i as nat, f).push(f(i as int)));
            lemma_xml_concat_push(Seq::new(i as nat, f), f(i as int));
        }
        i = i + 1;
    }
    Ok(())
}

// ---------------------------------------------------------------- header agreement

#[verifier::opaque]
pub open spec fn cii_tax_rep_el(o: Option<TaxRepresentative>) -> Seq<XmlEv> {
    match o {
        Some(t) => el(
            "ram:SellerTaxRepresentativeTradeParty"@,
            text_el("ram:Name"@, t.name@) + cii_party_address(t.address) + tax_reg_el(
                t.vat_id@,
                "VA"@,
            ),
        ),
        None => seq![],
    }
}

pub open spec fn invoice_ref_el(pi: PrecedingInvoiceReference) -> Seq<XmlEv> {
    el(
        "ram:InvoiceReferencedDocument"@,
        text_el("ram:IssuerAssignedID"@, pi.number@) + opt_cii_date_el(
            "ram:FormattedIssueDateTime"@,
            pi.issue_date,
        ),
    )
}

#[verifier::opaque]
pub open spec fn invoice_refs_el(s: Seq<PrecedingInvoiceReference>) -> Seq<XmlEv> {
    xml_concat(Seq::new(s.len(), |i: int| invoice_ref_el(s[i])))
}

/// A supporting document (type code 916).
pub open spec fn additional_ref_el(att: DocumentAttachment) -> Seq<XmlEv> {
    el(
        "ram:AdditionalReferencedDocument"@,
        text_el("ram:IssuerAssignedID"@, attachment_id(att)) + text_el("ram:TypeCode"@, "916"@)
            + opt_text_el("ram:Name"@, att.description) + match att.embedded_document {
            Some(emb) => text_el_attrs(
                "ram:AttachmentBinaryObject"@,
                emb.content@,
                seq![("mimeCode"@, emb.mime_type@), ("filename"@, emb.filename@)],
            ),
            None => opt_text_el("ram:URIID"@, att.external_uri),
        },
    )
}

#[verifier::opaque]
pub open spec fn additional_refs_el(s: Seq<DocumentAttachment>) -> Seq<XmlEv> {
    xml_concat(Seq::new(s.len(), |i: int| additional_ref_el(s[i])))
}

/// The header trade agreement: buyer reference, parties and references.
#[verifier::opaque]
pub open spec fn cii_agreement(inv: Invoice) -> Seq<XmlEv> {
    el(
        "ram:ApplicableHeaderTradeAgreement"@,
        opt_text_el("ram:BuyerReference"@, inv.buyer_reference) + cii_party(
            inv.seller,
            "ram:SellerTradeParty"@,
        ) + cii_party(inv.buyer, "ram:BuyerTradeParty"@) + cii_tax_rep_el(inv.tax_representative)
            + opt_wrapped_el(
            "ram:BuyerOrderReferencedDocument"@,
            "ram:IssuerAssignedID"@,
            inv.order_reference,
        ) + invoice_refs_el(inv.preceding_invoices@) + additional_refs_el(inv.attachments@),
    )
}

fn write_cii_tax_rep(w: &mut XmlWriter, o: &Option<TaxRepresentative>) -> (r: Result<
    (),
    RechnungError,
>)
    ensures
        match r {
            Ok(()) => final(w)@ == old(w)@ + cii_tax_rep_el(*o),
            Err(_) => false,
        },
{
    proof {
        reveal(cii_tax_rep_el);
    }
    match o {
        Some(t) => {
            w.start_element("ram:SellerTaxRepresentativeTradeParty")?;
            w.text_element("ram:Name", t.name.as_str())?;
            write_party_address(w, &t.address)?;
            write_tax_reg(w, t.vat_id.as_str(), "VA")?;
            w.end_element("ram:SellerTaxRepresentativeTradeParty")?;
        },
        None => {},
    }
    proof {
        assert(w@ =~= old(w)@ + cii_tax_rep_el(*o));
    }
    Ok(())
}

fn write_invoice_refs(w: &mut XmlWriter, s: &Vec<PrecedingInvoiceReference>) -> (r: Result<
    (),
    RechnungError,
>)
    ensures
        match r {
            Ok(()) => final(w)@ == old(w)@ + invoice_refs_el(s@),
            Err(_) => false,
        },
{
    proof {
        reveal(invoice_refs_el);
    }
    let ghost start = w@;
    let mut i: usize = 0;
    while i < s.len()
        invariant
            i <= s@.len(),
            w@ == start + xml_concat(Seq::new(i as nat, |k: int| invoice_ref_el(s@[k]))),
        decreases s.len() - i,
    {
        let pi = &s[i];
        w.start_element("ram:InvoiceReferencedDocument")?;
        w.text_element("ram:IssuerAssignedID", pi.number.as_str())?;
        write_opt_cii_date(w, "ram:FormattedIssueDateTime", &pi.issue_date)?;
        w.end_element("ram:InvoiceReferencedDocument")?;
        proof {
            let f = |k: int| invoice_ref_el(s@[k]);
            assert(Seq::new((i + 1) as nat, f) =~= Seq::new(i as nat, f).push(f(i as int)));
            lemma_xml_concat_push(Seq::new(i as nat, f), f(i as int));
        }
        i = i + 1;
    }
    Ok(())
}

fn write_additional_ref(w: &mut XmlWriter, att: &DocumentAttachment) -> (r: Result<
    (),
    RechnungError,
>)
    ensures
        match r {
            Ok(()) => final(w)@ == old(w)@ + additional_ref_el(*att),
            Err(_) => false,
        },
{
    w.start_element("ram:AdditionalReferencedDocument")?;
    proof {
        reveal_strlit("n/a");
        reveal_strlit("916");
    }
    match &att.id {
        Some(id) => w.text_element("ram:IssuerAssignedID", id.as_str())?,
        None => w.text_element("ram:IssuerAssignedID", "n/a")?,
    }
    w.text_element("ram:TypeCode", "916")?;
    w.opt_text_element("ram:Name", &att.description)?;
    let ghost s1 = w@;
    match &att.embedded_document {
        Some(emb) => {
            let attrs = [("mimeCode", emb.mime_type.as_str()), ("filename", emb.filename.as_str())];
            w.text_element_with_attrs("ram:AttachmentBinaryObject", emb.content.as_str(), &attrs)?;
            proof {
                assert(attrs_view(attrs@) =~= seq![
                    ("mimeCode"@, emb.mime_type@),
                    ("filename"@, emb.filename@),
                ]);
            }
        },
        None => w.opt_text_element("ram:URIID", &att.external_uri)?,
    }
    w.end_element("ram:AdditionalReferencedDocument")?;
    proof {
        assert(w@ =~= old(w)@ + additional_ref_el(*att));
    }
    Ok(())
}

fn write_additional_refs(w: &mut XmlWriter, s: &Vec<DocumentAttachment>) -> (r: Result<
    (),
    RechnungError,
>)
    ensures
        match r {
            Ok(()) => final(w)@ == old(w)@ + additional_refs_el(s@),
            Err(_) => false,
        },
{
    proof {
        reveal(additional_refs_el);
    }
    let ghost start = w@;
    let mut i: usize = 0;
    while i < s.len()
        invariant
            i <= s@.len(),
            w@ == start + xml_concat(Seq::new(i as nat, |k: int| additional_ref_el(s@[k]))),
        decreases s.len() - i,
    {
        write_additional_ref(w, &s[i])?;
        proof {
            let f = |k: int| additional_ref_el(s@[k]);
            assert(Seq::new((i + 1) as nat, f) =~= Seq::new(i as nat, f).push(f(i as int)));
            lemma_xml_concat_push(Seq::new(i as nat, f), f(i as int));
        }
        i = i + 1;
    }
    Ok(())
}

#[verifier::spinoff_prover]
fn write_agreement(w: &mut XmlWriter, inv: &Invoice) -> (r: Result<(), RechnungError>)
    ensures
        match r {
            Ok(()) => final(w)@ == old(w)@ + cii_agreement(*inv),
            Err(_) => false,
        },
{
    proof {
        reveal(cii_agreement);
    }
    w.start_element("ram:ApplicableHeaderTradeAgreement")?;
    w.opt_text_element("ram:BuyerReference", &inv.buyer_reference)?;
    write_cii_party(w, &inv.seller, "ram:SellerTradeParty")?;
    write_cii_party(w, &inv.buyer, "ram:BuyerTradeParty")?;
    write_cii_tax_rep(w, &inv.tax_representative)?;
    opt_wrapped_element(
        w,
        "ram:BuyerOrderReferencedDocument",
        "ram:IssuerAssignedID",
        &inv.order_reference,
    )?;
    write_invoice_refs(w, &inv.preceding_invoices)?;
    write_additional_refs(w, &inv.attachments)?;
    w.end_element("ram:ApplicableHeaderTradeAgreement")?;
    proof {
        assert(w@ =~= old(w)@ + cii_agreement(*inv));
    }
    Ok(())
}

// ---------------------------------------------------------------- header delivery

/// The deliver-to address: lines, city, postcode, subdivision, country.
pub open spec fn cii_delivery_address(a: DeliveryAddress) -> Seq<XmlEv> {
    el(
        "ram:PostalTradeAddress"@,
        opt_text_el("ram:LineOne"@, a.street) + opt_text_el("ram:LineTwo"@, a.additional)
            + text_el("ram:CityName"@, a.city@) + text_el("ram:PostcodeCode"@, a.postal_code@)
            + opt_text_el("ram:CountrySubDivisionName"@, a.subdivision) + text_el(
            "ram:CountryID"@,
            a.country_code@,
        ),
    )
}

/// The ship-to party with its address; the address is written only inside a
/// deliver-to party.
pub open spec fn ship_to_el(d: DeliveryInformation) -> Seq<XmlEv> {
    match d.delivery_party {
        Some(p) => el(
            "ram:ShipToTradeParty"@,
            text_el("ram:Name"@, p.name@) + opt_text_el("ram:ID"@, p.location_id) + match d.delivery_address {
                Some(a) => cii_delivery_address(a),
                None => seq![],
            },
        ),
        None => seq![],
    }
}

/// The actual delivery date (without a format attribute).
pub open spec fn actual_delivery_el(o: Option<Date>) -> Seq<XmlEv> {
    match o {
        Some(a) => el(
            "ram:ActualDeliverySupplyChainEvent"@,
            el("ram:OccurrenceDateTime"@, text_el("udt:DateTimeString"@, ymd_compact(a@))),
        ),
        None => seq![],
    }
}

/// The header trade delivery. Without delivery details the tax point date
/// stands as the delivery date.
#[verifier::opaque]
pub open spec fn cii_delivery(inv: Invoice) -> Seq<XmlEv> {
    el(
        "ram:ApplicableHeaderTradeDelivery"@,
        (match inv.delivery {
            Some(d) => actual_delivery_el(d.actual_delivery_date) + ship_to_el(d),
            None => match inv.tax_point_date {
                Some(t) => el(
                    "ram:ActualDeliverySupplyChainEvent"@,
                    cii_date_el("ram:OccurrenceDateTime"@, t),
                ),
                None => seq![],
            },
        }) + cii_period_el(inv.invoicing_period),
    )
}

fn write_delivery_address(w: &mut XmlWriter, a: &DeliveryAddress) -> (r: Result<
    (),
    RechnungError,
>)
    ensures
        match r {
            Ok(()) => final(w)@ == old(w)@ + cii_delivery_address(*a),
            Err(_) => false,
        },
{
    w.start_element("ram:PostalTradeAddress")?;
    w.opt_text_element("ram:LineOne", &a.street)?;
    w.opt_text_element("ram:LineTwo", &a.additional)?;
    w.text_element("ram:CityName", a.city.as_str())?;
    w.text_element("ram:PostcodeCode", a.postal_code.as_str())?;
    w.opt_text_element("ram:CountrySubDivisionName", &a.subdivision)?;
    w.text_element("ram:CountryID", a.country_code.as_str())?;
    w.end_element("ram:PostalTradeAddress")?;
    proof {
        assert(w@ =~= old(w)@ + cii_delivery_address(*a));
    }
    Ok(())
}

fn write_ship_to(w: &mut XmlWriter, d: &DeliveryInformation) -> (r: Result<(), RechnungError>)
    ensures
        match r {
            Ok(()) => final(w)@ == old(w)@ + ship_to_el(*d),
            Err(_) => false,
        },
{
    match &d.delivery_party {
        Some(p) => {
            w.start_element("ram:ShipToTradeParty")?;
            w.text_element("ram:Name", p.name.as_str())?;
            w.opt_text_element("ram:ID", &p.location_id)?;
            let ghost s1 = w@;
            match &d.delivery_address {
                Some(a) => write_delivery_address(w, a)?,
                None => {},
            }
            w.end_element("ram:ShipToTradeParty")?;
        },
        None => {},
    }
    proof {
        assert(w@ =~= old(w)@ + ship_to_el(*d));
    }
    Ok(())
}

fn write_actual_delivery(w: &mut XmlWriter, o: &Option<Date>) -> (r: Result<(), RechnungError>)
    ensures
        match r {
            Ok(()) => final(w)@ == old(w)@ + actual_delivery_el(*o),
            Err(_) => false,
        },
{
    match o {
        Some(a) => {
            w.start_element("ram:ActualDeliverySupplyChainEvent")?;
            w.start_element("ram:OccurrenceDateTime")?;
            let t = format_ymd(a);
            w.text_element("udt:DateTimeString", t.as_str())?;
            w.end_element("ram:OccurrenceDateTime")?;
            w.end_element("ram:ActualDeliverySupplyChainEvent")?;
        },
        None => {},
    }
    proof {
        assert(w@ =~= old(w)@ + actual_delivery_el(*o));
    }
    Ok(())
}

fn write_cii_delivery(w: &mut XmlWriter, inv: &Invoice) -> (r: Result<(), RechnungError>)
    ensures
        match r {
            Ok(()) => final(w)@ == old(w)@ + cii_delivery(*inv),
            Err(_) => false,
        },
{
    proof {
        reveal(cii_delivery);
    }
    w.start_element("ram:ApplicableHeaderTradeDelivery")?;
    match &inv.delivery {
        Some(d) => {
            write_actual_delivery(w, &d.actual_delivery_date)?;
            write_ship_to(w, d)?;
        },
        None => match &inv.tax_point_date {
            Some(t) => {
                w.start_element("ram:ActualDeliverySupplyChainEvent")?;
                write_cii_date(w, "ram:OccurrenceDateTime", t)?;
                w.end_element("ram:ActualDeliverySupplyChainEvent")?;
            },
            None => {},
        },
    }
    let ghost s1 = w@;
    write_cii_period(w, &inv.invoicing_period)?;
    w.end_element("ram:ApplicableHeaderTradeDelivery")?;
    proof {
        assert(w@ =~= old(w)@ + cii_delivery(*inv));
    }
    Ok(())
}

// ---------------------------------------------------------------- header settlement

/// Payment reference, tax currency and invoice currency.
#[verifier::opaque]
pub open spec fn settle_head_el(inv: Invoice) -> Seq<XmlEv> {
    (match inv.payment {
        Some(p) => opt_text_el("ram:PaymentReference"@, p.remittance_info),
        None => seq![],
    }) + opt_text_el("ram:TaxCurrencyCode"@, inv.tax_currency_code) + text_el(
        "ram:InvoiceCurrencyCode"@,
        inv.currency_code@,
    )
}

#[verifier::opaque]
pub open spec fn cii_payee_el(o: Option<Payee>) -> Seq<XmlEv> {
    match o {
        Some(p) => el(
            "ram:PayeeTradeParty"@,
            opt_text_el("ram:ID"@, p.identifier) + text_el("ram:Name"@, p.name@) + opt_wrapped_el(
                "ram:SpecifiedLegalOrganization"@,
                "ram:ID"@,
                p.legal_registration_id,
            ),
        ),
        None => seq![],
    }
}

pub open spec fn cii_card_el(o: Option<CardPayment>) -> Seq<XmlEv> {
    match o {
        Some(c) => el(
            "ram:ApplicableTradeSettlementFinancialCard"@,
            text_el("ram:ID"@, c.account_number@) + opt_text_el("ram:CardholderName"@, c.holder_name),
        ),
        None => seq![],
    }
}

pub open spec fn cii_debtor_el(o: Option<DirectDebit>) -> Seq<XmlEv> {
    match o {
        Some(d) => opt_wrapped_el(
            "ram:PayerPartyDebtorFinancialAccount"@,
            "ram:IBANID"@,
            d.debited_account_id,
        ),
        None => seq![],
    }
}

pub open spec fn cii_creditor_el(o: Option<CreditTransfer>) -> Seq<XmlEv> {
    match o {
        Some(c) => el(
            "ram:PayeePartyCreditorFinancialAccount"@,
            text_el("ram:IBANID"@, c.iban@) + opt_text_el("ram:AccountName"@, c.account_name),
        ) + opt_wrapped_el(
            "ram:PayeeSpecifiedCreditorFinancialInstitution"@,
            "ram:BICID"@,
            c.bic,
        ),
        None => seq![],
    }
}

/// The payment means.
#[verifier::opaque]
pub open spec fn cii_means_el(o: Option<PaymentInstructions>) -> Seq<XmlEv> {
    match o {
        Some(p) => el(
            "ram:SpecifiedTradeSettlementPaymentMeans"@,
            text_el("ram:TypeCode"@, code_text(means_code_spec(p.means_code))) + opt_text_el(
                "ram:Information"@,
                p.means_text,
            ) + cii_card_el(p.card_payment) + cii_debtor_el(p.direct_debit) + cii_creditor_el(
                p.credit_transfer,
            ),
        ),
        None => seq![],
    }
}

/// A VAT breakdown entry.
pub open spec fn trade_tax_el(b: VatBreakdown) -> Seq<XmlEv> {
    el(
        "ram:ApplicableTradeTax"@,
        dec_el("ram:CalculatedAmount"@, b.tax_amount) + text_el("ram:TypeCode"@, "VAT"@)
            + opt_text_el("ram:ExemptionReason"@, b.exemption_reason) + dec_el(
            "ram:BasisAmount"@,
            b.taxable_amount,
        ) + text_el("ram:CategoryCode"@, tax_code_spec(b.category)) + opt_text_el(
            "ram:ExemptionReasonCode"@,
            b.exemption_reason_code,
        ) + dec_el("ram:RateApplicablePercent"@, b.rate),
    )
}

pub open spec fn trade_taxes_el(s: Seq<VatBreakdown>) -> Seq<XmlEv> {
    xml_concat(Seq::new(s.len(), |i: int| trade_tax_el(s[i])))
}

/// The direct debit mandate and creditor reference.
#[verifier::opaque]
pub open spec fn dd_refs_el(inv: Invoice) -> Seq<XmlEv> {
    match inv.payment {
        Some(p) => match p.direct_debit {
            Some(d) => opt_text_el("ram:DirectDebitMandateID"@, d.mandate_id) + opt_text_el(
                "ram:CreditorReferenceID"@,
                d.creditor_id,
            ),
            None => seq![],
        },
        None => seq![],
    }
}

/// The payment terms, with the due date inside them.
#[verifier::opaque]
pub open spec fn terms_el(inv: Invoice) -> Seq<XmlEv> {
    match inv.payment_terms {
        Some(t) => el(
            "ram:SpecifiedTradePaymentTerms"@,
            text_el("ram:Description"@, t@) + opt_cii_date_el("ram:DueDateDateTime"@, inv.due_date),
        ),
        None => seq![],
    }
}

/// A document-level allowance or charge.
pub open spec fn doc_ac_el(ac: AllowanceCharge) -> Seq<XmlEv> {
    el(
        "ram:SpecifiedTradeAllowanceCharge"@,
        text_el("ram:ChargeIndicator"@, bool_text(ac.is_charge)) + dec_el(
            "ram:ActualAmount"@,
            ac.amount,
        ) + opt_text_el("ram:Reason"@, ac.reason) + opt_text_el("ram:ReasonCode"@, ac.reason_code)
            + el(
            "ram:CategoryTradeTax"@,
            trade_tax_content(tax_code_spec(ac.tax_category), ac.tax_rate),
        ),
    )
}

pub open spec fn doc_acs_el(s: Seq<AllowanceCharge>) -> Seq<XmlEv> {
    xml_concat(Seq::new(s.len(), |i: int| doc_ac_el(s[i])))
}

pub proof fn lemma_doc_acs_append(a: Seq<AllowanceCharge>, b: Seq<AllowanceCharge>)
    ensures
        doc_acs_el(a + b) == doc_acs_el(a) + doc_acs_el(b),
{
    let fa = |i: int| doc_ac_el(a[i]);
    let fb = |i: int| doc_ac_el(b[i]);
    assert(Seq::new((a + b).len(), |i: int| doc_ac_el((a + b)[i])) =~= Seq::new(a.len(), fa)
        + Seq::new(b.len(), fb));
    lemma_xml_concat_append(Seq::new(a.len(), fa), Seq::new(b.len(), fb));
}

/// A decimal element written only for a value above zero.
pub open spec fn pos_dec_el(name: Seq<char>, d: Dec) -> Seq<XmlEv> {
    if is_pos(d@) {
        dec_el(name, d)
    } else {
        seq![]
    }
}

/// The monetary summation.
#[verifier::opaque]
pub open spec fn summation_el(inv: Invoice, t: Totals) -> Seq<XmlEv> {
    el(
        "ram:SpecifiedTradeSettlementHeaderMonetarySummation"@,
        dec_el("ram:LineTotalAmount"@, t.line_net_total) + pos_dec_el(
            "ram:ChargeTotalAmount"@,
            t.charges_total,
        ) + pos_dec_el("ram:AllowanceTotalAmount"@, t.allowances_total) + dec_el(
            "ram:TaxBasisTotalAmount"@,
            t.net_total,
        ) + currency_el("ram:TaxTotalAmount"@, t.vat_total, inv.currency_code@) + (match (
            inv.tax_currency_code,
            t.vat_total_in_tax_currency,
        ) {
            (Some(c), Some(v)) => currency_el("ram:TaxTotalAmount"@, v, c@),
            _ => seq![],
        }) + dec_el("ram:GrandTotalAmount"@, t.gross_total) + pos_dec_el(
            "ram:TotalPrepaidAmount"@,
            t.prepaid,
        ) + dec_el("ram:DuePayableAmount"@, t.amount_due),
    )
}

/// The header trade settlement.
#[verifier::opaque]
pub open spec fn cii_settlement(inv: Invoice, t: Totals) -> Seq<XmlEv> {
    el(
        "ram:ApplicableHeaderTradeSettlement"@,
        settle_head_el(inv) + cii_payee_el(inv.payee) + cii_means_el(inv.payment) + trade_taxes_el(
            t.vat_breakdown@,
        ) + dd_refs_el(inv) + terms_el(inv) + doc_acs_el(inv.allowances@ + inv.charges@)
            + summation_el(inv, t),
    )
}

fn write_settle_head(w: &mut XmlWriter, inv: &Invoice) -> (r: Result<(), RechnungError>)
    ensures
        match r {
            Ok(()) => final(w)@ == old(w)@ + settle_head_el(*inv),
            Err(_) => false,
        },
{
    proof {
        reveal(settle_head_el);
    }
    match &inv.payment {
        Some(p) => w.opt_text_element("ram:PaymentReference", &p.remittance_info)?,
        None => {},
    }
    let ghost s1 = w@;
    w.opt_text_element("ram:TaxCurrencyCode", &inv.tax_currency_code)?;
    w.text_element("ram:InvoiceCurrencyCode", inv.currency_code.as_str())?;
    proof {
        assert(w@ =~= old(w)@ + settle_head_el(*inv));
    }
    Ok(())
}

fn write_cii_payee(w: &mut XmlWriter, o: &Option<Payee>) -> (r: Result<(), RechnungError>)
    ensures
        match r {
            Ok(()) => final(w)@ == old(w)@ + cii_payee_el(*o),
            Err(_) => false,
        },
{
    proof {
        reveal(cii_payee_el);
    }
    match o {
        Some(p) => {
            w.start_element("ram:PayeeTradeParty")?;
            w.opt_text_element("ram:ID", &p.identifier)?;
            w.text_element("ram:Name", p.name.as_str())?;
            opt_wrapped_element(w, "ram:SpecifiedLegalOrganization", "ram:ID", &p.legal_registration_id)?;
            w.end_element("ram:PayeeTradeParty")?;
        },
        None => {},
    }
    proof {
        assert(w@ =~= old(w)@ + cii_payee_el(*o));
    }
    Ok(())
}

fn write_cii_card(w: &mut XmlWriter, o: &Option<CardPayment>) -> (r: Result<(), RechnungError>)
    ensures
        match r {
            Ok(()) => final(w)@ == old(w)@ + cii_card_el(*o),
            Err(_) => false,
        },
{
    match o {
        Some(c) => {
            w.start_element("ram:ApplicableTradeSettlementFinancialCard")?;
            w.text_element("ram:ID", c.account_number.as_str())?;
            w.opt_text_element("ram:CardholderName", &c.holder_name)?;
            w.end_element("ram:ApplicableTradeSettlementFinancialCard")?;
        },
        None => {},
    }
    proof {
        assert(w@ =~= old(w)@ + cii_card_el(*o));
    }
    Ok(())
}

fn write_cii_creditor(w: &mut XmlWriter, o: &Option<CreditTransfer>) -> (r: Result<
    (),
    RechnungError,
>)
    ensures
        match r {
            Ok(()) => final(w)@ == old(w)@ + cii_creditor_el(*o),
            Err(_) => false,
        },
{
    match o {
        Some(c) => {
            w.start_element("ram:PayeePartyCreditorFinancialAccount")?;
            w.text_element("ram:IBANID", c.iban.as_str())?;
            w.opt_text_element("ram:AccountName", &c.account_name)?;
            w.end_element("ram:PayeePartyCreditorFinancialAccount")?;
            opt_wrapped_element(w, "ram:PayeeSpecifiedCreditorFinancialInstitution", "ram:BICID", &c.bic)?;
        },
        None => {},
    }
    proof {
        assert(w@ =~= old(w)@ + cii_creditor_el(*o));
    }
    Ok(())
}

fn write_cii_means(w: &mut XmlWriter, o: &Option<PaymentInstructions>) -> (r: Result<
    (),
    RechnungError,
>)
    ensures
        match r {
            Ok(()) => final(w)@ == old(w)@ + cii_means_el(*o),
            Err(_) => false,
        },
{
    proof {
        reveal(cii_means_el);
    }
    match o {
        Some(p) => {
            w.start_element("ram:SpecifiedTradeSettlementPaymentMeans")?;
            code_element(w, "ram:TypeCode", p.means_code.code())?;
            w.opt_text_element("ram:Information", &p.means_text)?;
            write_cii_card(w, &p.card_payment)?;
            let ghost s1 = w@;
            match &p.direct_debit {
                Some(d) => opt_wrapped_element(
                    w,
                    "ram:PayerPartyDebtorFinancialAccount",
                    "ram:IBANID",
                    &d.debited_account_id,
                )?,
                None => {},
            }
            let ghost s2 = w@;
            write_cii_creditor(w, &p.credit_transfer)?;
            w.end_element("ram:SpecifiedTradeSettlementPaymentMeans")?;
            proof {
                assert(s2 =~= s1 + cii_debtor_el(p.direct_debit));
            }
        },
        None => {},
    }
    proof {
        assert(w@ =~= old(w)@ + cii_means_el(*o));
    }
    Ok(())
}

fn write_trade_tax(w: &mut XmlWriter, b: &VatBreakdown) -> (r: Result<(), RechnungError>)
    ensures
        match r {
            Ok(()) => final(w)@ == old(w)@ + trade_tax_el(*b),
            Err(_) => false,
        },
{
    w.start_element("ram:ApplicableTradeTax")?;
    dec_element(w, "ram:CalculatedAmount", b.tax_amount)?;
    w.text_element("ram:TypeCode", "VAT")?;
    w.opt_text_element("ram:ExemptionReason", &b.exemption_reason)?;
    dec_element(w, "ram:BasisAmount", b.taxable_amount)?;
    w.text_element("ram:CategoryCode", b.category.code())?;
    w.opt_text_element("ram:ExemptionReasonCode", &b.exemption_reason_code)?;
    dec_element(w, "ram:RateApplicablePercent", b.rate)?;
    w.end_element("ram:ApplicableTradeTax")?;
    proof {
        assert(w@ =~= old(w)@ + trade_tax_el(*b));
    }
    Ok(())
}

fn write_trade_taxes(w: &mut XmlWriter, s: &Vec<VatBreakdown>) -> (r: Result<(), RechnungError>)
    ensures
        match r {
            Ok(()) => final(w)@ == old(w)@ + trade_taxes_el(s@),
            Err(_) => false,
        },
{
    let ghost start = w@;
    let mut i: usize = 0;
    while i < s.len()
        invariant
            i <= s@.len(),
            w@ == start + xml_concat(Seq::new(i as nat, |k: int| trade_tax_el(s@[k]))),
        decreases s.len() - i,
    {
        write_trade_tax(w, &s[i])?;
        proof {
            let f = |k: int| trade_tax_el(s@[k]);
            assert(Seq::new((i + 1) as nat, f) =~= Seq::new(i as nat, f).push(f(i as int)));
            lemma_xml_concat_push(Seq::new(i as nat, f), f(i as int));
        }
        i = i + 1;
    }
    Ok(())
}

fn write_dd_refs(w: &mut XmlWriter, inv: &Invoice) -> (r: Result<(), RechnungError>)
    ensures
        match r {
            Ok(()) => final(w)@ == old(w)@ + dd_refs_el(*inv),
            Err(_) => false,
        },
{
    proof {
        reveal(dd_refs_el);
    }
    match &inv.payment {
        Some(p) => match &p.direct_debit {
            Some(d) => {
                w.opt_text_element("ram:DirectDebitMandateID", &d.mandate_id)?;
                w.opt_text_element("ram:CreditorReferenceID", &d.creditor_id)?;
            },
            None => {},
        },
        None => {},
    }
    proof {
        assert(w@ =~= old(w)@ + dd_refs_el(*inv));
    }
    Ok(())
}

fn write_terms(w: &mut XmlWriter, inv: &Invoice) -> (r: Result<(), RechnungError>)
    ensures
        match r {
            Ok(()) => final(w)@ == old(w)@ + terms_el(*inv),
            Err(_) => false,
        },
{
    proof {
        reveal(terms_el);
    }
    match &inv.payment_terms {
        Some(t) => {
            w.start_element("ram:SpecifiedTradePaymentTerms")?;
            w.text_element("ram:Description", t.as_str())?;
            write_opt_cii_date(w, "ram:DueDateDateTime", &inv.due_date)?;
            w.end_element("ram:SpecifiedTradePaymentTerms")?;
        },
        None => {},
    }
    proof {
        assert(w@ =~= old(w)@ + terms_el(*inv));
    }
    Ok(())
}

fn write_doc_ac(w: &mut XmlWriter, ac: &AllowanceCharge) -> (r: Result<(), RechnungError>)
    ensures
        match r {
            Ok(()) => final(w)@ == old(w)@ + doc_ac_el(*ac),
            Err(_) => false,
        },
{
    w.start_element("ram:SpecifiedTradeAllowanceCharge")?;
    write_bool_element(w, "ram:ChargeIndicator", ac.is_charge)?;
    dec_element(w, "ram:ActualAmount", ac.amount)?;
    w.opt_text_element("ram:Reason", &ac.reason)?;
    w.opt_text_element("ram:ReasonCode", &ac.reason_code)?;
    w.start_element("ram:CategoryTradeTax")?;
    write_trade_tax_content(w, ac.tax_category.code(), ac.tax_rate)?;
    w.end_element("ram:CategoryTradeTax")?;
    w.end_element("ram:SpecifiedTradeAllowanceCharge")?;
    proof {
        assert(w@ =~= old(w)@ + doc_ac_el(*ac));
    }
    Ok(())
}

fn write_doc_acs(w: &mut XmlWriter, s: &Vec<AllowanceCharge>) -> (r: Result<(), RechnungError>)
    ensures
        match r {
            Ok(()) => final(w)@ == old(w)@ + doc_acs_el(s@),
            Err(_) => false,
        },
{
    let ghost start = w@;
    let mut i: usize = 0;
    while i < s.len()
        invariant
            i <= s@.len(),
            w@ == start + xml_concat(Seq::new(i as nat, |k: int| doc_ac_el(s@[k]))),
        decreases s.len() - i,
    {
        write_doc_ac(w, &s[i])?;
        proof {
            let f = |k: int| doc_ac_el(s@[k]);
            assert(Seq::new((i + 1) as nat, f) =~= Seq::new(i as nat, f).push(f(i as int)));
            lemma_xml_concat_push(Seq::new(i as nat, f), f(i as int));
        }
        i = i + 1;
    }
    Ok(())
}

fn pos_dec_element(w: &mut XmlWriter, name: &str, d: Dec) -> (r: Result<(), RechnungError>)
    ensures
        match r {
            Ok(()) => final(w)@ == old(w)@ + pos_dec_el(name@, d),
            Err(_) => false,
        },
{
    if lt(&Dec::zero(), &d) {
        dec_element(w, name, d)?;
    }
    proof {
        assert(w@ =~= old(w)@ + pos_dec_el(name@, d));
    }
    Ok(())
}

fn currency_element(w: &mut XmlWriter, name: &str, d: Dec, cur: &str) -> (r: Result<
    (),
    RechnungError,
>)
    ensures
        match r {
            Ok(()) => final(w)@ == old(w)@ + currency_el(name@, d, cur@),
            Err(_) => false,
        },
{
    let t = format_decimal(d);
    let attrs = [("currencyID", cur)];
    let r = w.text_element_with_attrs(name, t.as_str(), &attrs);
    proof {
        assert(attrs_view(attrs@) =~= seq![("currencyID"@, cur@)]);
    }
    r
}

#[verifier::spinoff_prover]
fn write_summation(w: &mut XmlWriter, inv: &Invoice, t: &Totals) -> (r: Result<(), RechnungError>)
    ensures
        match r {
            Ok(()) => final(w)@ == old(w)@ + summation_el(*inv, *t),
            Err(_) => false,
        },
{
    proof {
        reveal(summation_el);
    }
    w.start_element("ram:SpecifiedTradeSettlementHeaderMonetarySummation")?;
    dec_element(w, "ram:LineTotalAmount", t.line_net_total)?;
    pos_dec_element(w, "ram:ChargeTotalAmount", t.charges_total)?;
    pos_dec_element(w, "ram:AllowanceTotalAmount", t.allowances_total)?;
    dec_element(w, "ram:TaxBasisTotalAmount", t.net_total)?;
    currency_element(w, "ram:TaxTotalAmount", t.vat_total, inv.currency_code.as_str())?;
    let ghost s1 = w@;
    match (&inv.tax_currency_code, t.vat_total_in_tax_currency) {
        (Some(c), Some(v)) => currency_element(w, "ram:TaxTotalAmount", v, c.as_str())?,
        _ => {},
    }
    let ghost s2 = w@;
    dec_element(w, "ram:GrandTotalAmount", t.gross_total)?;
    pos_dec_element(w, "ram:TotalPrepaidAmount", t.prepaid)?;
    dec_element(w, "ram:DuePayableAmount", t.amount_due)?;
    w.end_element("ram:SpecifiedTradeSettlementHeaderMonetarySummation")?;
    proof {
        assert(s2 =~= s1 + match (inv.tax_currency_code, t.vat_total_in_tax_currency) {
            (Some(c), Some(v)) => currency_el("ram:TaxTotalAmount"@, v, c@),
            _ => seq![],
        });
        assert(w@ =~= old(w)@ + summation_el(*inv, *t));
    }
    Ok(())
}

#[verifier::spinoff_prover]
#[verifier::rlimit(50)]
fn write_settlement(w: &mut XmlWriter, inv: &Invoice, t: &Totals) -> (r: Result<(), RechnungError>)
    ensures
        match r {
            Ok(()) => final(w)@ == old(w)@ + cii_settlement(*inv, *t),
            Err(_) => false,
        },
{
    proof {
        reveal(cii_settlement);
    }
    w.start_element("ram:ApplicableHeaderTradeSettlement")?;
    write_settle_head(w, inv)?;
    write_cii_payee(w, &inv.payee)?;
    write_cii_means(w, &inv.payment)?;
    write_trade_taxes(w, &t.vat_breakdown)?;
    write_dd_refs(w, inv)?;
    write_terms(w, inv)?;
    write_doc_acs(w, &inv.allowances)?;
    write_doc_acs(w, &inv.charges)?;
    write_summation(w, inv, t)?;
    w.end_element("ram:ApplicableHeaderTradeSettlement")?;
    proof {
        lemma_doc_acs_append(inv.allowances@, inv.charges@);
        assert(w@ =~= old(w)@ + cii_settlement(*inv, *t));
    }
    Ok(())
}

// ---------------------------------------------------------------- the document

pub open spec fn cii_root_attrs() -> Seq<(Seq<char>, Seq<char>)> {
    seq![
        ("xmlns:rsm"@, cii_ns::RSM@),
        ("xmlns:ram"@, cii_ns::RAM@),
        ("xmlns:qdt"@, cii_ns::QDT@),
        ("xmlns:udt"@, cii_ns::UDT@),
    ]
}

/// The trade transaction: lines, agreement, delivery and settlement.
pub open spec fn cii_transaction(inv: Invoice, t: Totals) -> Seq<XmlEv> {
    el(
        "rsm:SupplyChainTradeTransaction"@,
        cii_lines(inv.lines@) + cii_agreement(inv) + cii_delivery(inv) + cii_settlement(inv, t),
    )
}

/// The CII document of an invoice with the given totals.
pub open spec fn cii_document(inv: Invoice, t: Totals) -> Seq<XmlEv> {
    seq![XmlEv::Decl] + el_attrs(
        "rsm:CrossIndustryInvoice"@,
        cii_root_attrs(),
        cii_context_el() + cii_header_el(inv) + cii_transaction(inv, t),
    )
}

fn write_transaction(w: &mut XmlWriter, inv: &Invoice, t: &Totals) -> (r: Result<
    (),
    RechnungError,
>)
    ensures
        match r {
            Ok(()) => final(w)@ == old(w)@ + cii_transaction(*inv, *t) && !lines_overflow(
                inv.lines@,
            ),
            Err(e) => line_failure(e, lines_overflow(inv.lines@)),
        },
{
    w.start_element("rsm:SupplyChainTradeTransaction")?;
    write_cii_lines(w, &inv.lines)?;
    write_agreement(w, inv)?;
    write_cii_delivery(w, inv)?;
    write_settlement(w, inv, t)?;
    w.end_element("rsm:SupplyChainTradeTransaction")?;
    proof {
        assert(w@ =~= old(w)@ + cii_transaction(*inv, *t));
    }
    Ok(())
}

/// Generate XRechnung-compliant CII (Cross Industry Invoice) XML.
///
/// The invoice's totals must have been calculated. The text is the rendering
/// of `cii_document`.
pub fn to_cii_xml(invoice: &Invoice) -> (r: Result<String, RechnungError>)
    ensures
        invoice.totals is None ==> (r matches Err(e) && is_totals_missing(e)),
        invoice.totals is Some && !lines_overflow(invoice.lines@) ==> r is Ok,
        match r {
            Ok(s) => invoice.totals matches Some(t) && !lines_overflow(invoice.lines@) && s@
                == xml_rendering(cii_document(*invoice, t)),
            Err(e) => invoice.totals is None || generation_failure(e, invoice.lines@),
        },
{
    let totals = match &invoice.totals {
        Some(t) => t,
        None => {
            return Err(totals_missing());
        },
    };
    let mut w = XmlWriter::new()?;
    let attrs = [
        ("xmlns:rsm", cii_ns::RSM),
        ("xmlns:ram", cii_ns::RAM),
        ("xmlns:qdt", cii_ns::QDT),
        ("xmlns:udt", cii_ns::UDT),
    ];
    w.start_element_with_attrs("rsm:CrossIndustryInvoice", &attrs)?;
    proof {
        assert(attrs_view(attrs@) =~= cii_root_attrs());
    }
    write_context(&mut w)?;
    write_header(&mut w, invoice)?;
    write_transaction(&mut w, invoice, totals)?;
    w.end_element("rsm:CrossIndustryInvoice")?;
    proof {
        assert(w@ =~= cii_document(*invoice, *totals));
    }
    w.into_string()
}

} // verus!
