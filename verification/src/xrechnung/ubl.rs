//! XRechnung UBL 2.1 invoice generation.
use vstd::prelude::*;
use crate::date::{format_iso, iso_str, Date};
use crate::decimal::{checked_sub, decimal_checked_sub, lt, value_lt, Dec};
use crate::model::error::RechnungError;
use crate::model::types::{
    tax_code_spec, type_code_spec, means_code_spec, Address, AllowanceCharge, Contact,
    CardPayment, CreditTransfer, DeliveryAddress, DeliveryInformation, DeliveryParty, DirectDebit,
    DocumentAttachment, ElectronicAddress, Invoice, Payee, PaymentInstructions,
    ItemAttribute, PrecedingInvoiceReference, TaxRepresentative,
    InvoiceTypeCode, LineItem, Party, Period, Totals, VatBreakdown,
};
use crate::text::{nat_str, string_of, u64_to_string};
use crate::xml::{
    attrs_view, decimal_text, el, format_decimal, lemma_xml_concat_push,
    opt_text_el, text_el, text_el_attrs, xml_concat, xml_rendering, XmlEv, XmlWriter,
};
use crate::xrechnung::{ubl_ns, PEPPOL_PROFILE_ID, XRECHNUNG_CUSTOMIZATION_ID};

verus! {

/// A date as written in XML (`%Y-%m-%d`).
pub open spec fn iso(d: Date) -> Seq<char> {
    iso_str(d@)
}

/// `<name>date</name>` where the date is given.
pub open spec fn opt_date_el(name: Seq<char>, d: Option<Date>) -> Seq<XmlEv> {
    match d {
        Some(x) => text_el(name, iso(x)),
        None => seq![],
    }
}

/// An amount with its currency.
pub open spec fn amount_el(name: Seq<char>, d: (i128, u32), cur: Seq<char>) -> Seq<XmlEv> {
    text_el_attrs(name, decimal_text(d), seq![("currencyID"@, cur)])
}

/// A quantity with its unit.
pub open spec fn quantity_el(name: Seq<char>, d: (i128, u32), unit: Seq<char>) -> Seq<XmlEv> {
    text_el_attrs(name, decimal_text(d), seq![("unitCode"@, unit)])
}

/// `<cac:TaxScheme><cbc:ID>id</cbc:ID></cac:TaxScheme>`.
pub open spec fn tax_scheme_el(id: Seq<char>) -> Seq<XmlEv> {
    el("cac:TaxScheme"@, text_el("cbc:ID"@, id))
}

pub(crate) fn date_element(w: &mut XmlWriter, name: &str, d: &Date) -> (r: Result<(), RechnungError>)
    ensures
        match r {
            Ok(()) => final(w)@ == old(w)@ + text_el(name@, iso(*d)),
            Err(_) => false,
        },
{
    let t = format_iso(d);
    w.text_element(name, t.as_str())
}

pub(crate) fn opt_date_element(w: &mut XmlWriter, name: &str, d: &Option<Date>) -> (r: Result<
    (),
    RechnungError,
>)
    ensures
        match r {
            Ok(()) => final(w)@ == old(w)@ + opt_date_el(name@, *d),
            Err(_) => false,
        },
{
    match d {
        Some(x) => date_element(w, name, x),
        None => {
            proof {
                assert(w@ =~= old(w)@ + opt_date_el(name@, *d));
            }
            Ok(())
        },
    }
}

pub(crate) fn tax_scheme(w: &mut XmlWriter, id: &str) -> (r: Result<(), RechnungError>)
    ensures
        match r {
            Ok(()) => final(w)@ == old(w)@ + tax_scheme_el(id@),
            Err(_) => false,
        },
{
    w.start_element("cac:TaxScheme")?;
    w.text_element("cbc:ID", id)?;
    w.end_element("cac:TaxScheme")?;
    proof {
        assert(w@ =~= old(w)@ + tax_scheme_el(id@));
    }
    Ok(())
}

/// `<outer><inner>text</inner></outer>` where the text is given.
pub open spec fn opt_wrapped_el(outer: Seq<char>, inner: Seq<char>, o: Option<String>) -> Seq<
    XmlEv,
> {
    match o {
        Some(s) => el(outer, text_el(inner, s@)),
        None => seq![],
    }
}

/// An amount element where the amount is given.
pub open spec fn opt_amount_el(name: Seq<char>, o: Option<Dec>, cur: Seq<char>) -> Seq<XmlEv> {
    match o {
        Some(d) => amount_el(name, d@, cur),
        None => seq![],
    }
}

/// A period: start and end date inside the given element.
pub open spec fn period_el(name: Seq<char>, p: Period) -> Seq<XmlEv> {
    el(name, text_el("cbc:StartDate"@, iso(p.start)) + text_el("cbc:EndDate"@, iso(p.end)))
}

pub open spec fn opt_period_el(name: Seq<char>, o: Option<Period>) -> Seq<XmlEv> {
    match o {
        Some(p) => period_el(name, p),
        None => seq![],
    }
}

/// One text element per string, in order.
pub open spec fn texts_el(name: Seq<char>, s: Seq<String>) -> Seq<XmlEv> {
    xml_concat(Seq::new(s.len(), |i: int| text_el(name, s[i]@)))
}

/// An element with attributes and the given content.
pub open spec fn el_attrs(
    name: Seq<char>,
    attrs: Seq<(Seq<char>, Seq<char>)>,
    content: Seq<XmlEv>,
) -> Seq<XmlEv> {
    seq![XmlEv::Start(name, attrs)] + content + seq![XmlEv::End(name)]
}

pub(crate) fn opt_wrapped_element(w: &mut XmlWriter, outer: &str, inner: &str, o: &Option<String>) -> (r:
    Result<(), RechnungError>)
    ensures
        match r {
            Ok(()) => final(w)@ == old(w)@ + opt_wrapped_el(outer@, inner@, *o),
            Err(_) => false,
        },
{
    match o {
        Some(s) => {
            w.start_element(outer)?;
            w.text_element(inner, s.as_str())?;
            w.end_element(outer)?;
        },
        None => {},
    }
    proof {
        assert(w@ =~= old(w)@ + opt_wrapped_el(outer@, inner@, *o));
    }
    Ok(())
}

pub(crate) fn opt_amount_element(w: &mut XmlWriter, name: &str, o: Option<Dec>, cur: &str) -> (r:
    Result<(), RechnungError>)
    ensures
        match r {
            Ok(()) => final(w)@ == old(w)@ + opt_amount_el(name@, o, cur@),
            Err(_) => false,
        },
{
    match o {
        Some(d) => w.amount_element(name, d, cur)?,
        None => {},
    }
    proof {
        assert(w@ =~= old(w)@ + opt_amount_el(name@, o, cur@));
    }
    Ok(())
}

pub(crate) fn write_period(w: &mut XmlWriter, name: &str, p: &Period) -> (r: Result<(), RechnungError>)
    ensures
        match r {
            Ok(()) => final(w)@ == old(w)@ + period_el(name@, *p),
            Err(_) => false,
        },
{
    w.start_element(name)?;
    date_element(w, "cbc:StartDate", &p.start)?;
    date_element(w, "cbc:EndDate", &p.end)?;
    w.end_element(name)?;
    proof {
        assert(w@ =~= old(w)@ + period_el(name@, *p));
    }
    Ok(())
}

pub(crate) fn write_opt_period(w: &mut XmlWriter, name: &str, o: &Option<Period>) -> (r: Result<
    (),
    RechnungError,
>)
    ensures
        match r {
            Ok(()) => final(w)@ == old(w)@ + opt_period_el(name@, *o),
            Err(_) => false,
        },
{
    match o {
        Some(p) => write_period(w, name, p)?,
        None => {},
    }
    proof {
        assert(w@ =~= old(w)@ + opt_period_el(name@, *o));
    }
    Ok(())
}

pub(crate) fn write_texts(w: &mut XmlWriter, name: &str, s: &Vec<String>) -> (r: Result<(), RechnungError>)
    ensures
        match r {
            Ok(()) => final(w)@ == old(w)@ + texts_el(name@, s@),
            Err(_) => false,
        },
{
    let ghost start = w@;
    let mut i: usize = 0;
    while i < s.len()
        invariant
            i <= s@.len(),
            w@ == start + xml_concat(Seq::new(i as nat, |k: int| text_el(name@, s@[k]@))),
        decreases s.len() - i,
    {
        w.text_element(name, s[i].as_str())?;
        proof {
            let f = |k: int| text_el(name@, s@[k]@);
            assert(Seq::new((i + 1) as nat, f) =~= Seq::new(i as nat, f).push(f(i as int)));
            lemma_xml_concat_push(Seq::new(i as nat, f), f(i as int));
        }
        i = i + 1;
    }
    Ok(())
}

// ---------------------------------------------------------------- parties

/// The lines of an address: street, additional line, city, postal code,
/// subdivision and country.
pub open spec fn address_lines(
    street: Option<String>,
    additional: Option<String>,
    city: Seq<char>,
    postal: Seq<char>,
    subdivision: Option<String>,
    country: Seq<char>,
) -> Seq<XmlEv> {
    opt_text_el("cbc:StreetName"@, street) + opt_text_el("cbc:AdditionalStreetName"@, additional)
        + text_el("cbc:CityName"@, city) + text_el("cbc:PostalZone"@, postal) + opt_text_el(
        "cbc:CountrySubentity"@,
        subdivision,
    ) + el("cac:Country"@, text_el("cbc:IdentificationCode"@, country))
}

/// BG-5/8: a postal address.
pub open spec fn ubl_address(a: Address) -> Seq<XmlEv> {
    el(
        "cac:PostalAddress"@,
        address_lines(a.street, a.additional, a.city@, a.postal_code@, a.subdivision, a.country_code@),
    )
}

fn write_address_lines(
    w: &mut XmlWriter,
    street: &Option<String>,
    additional: &Option<String>,
    city: &str,
    postal: &str,
    subdivision: &Option<String>,
    country: &str,
) -> (r: Result<(), RechnungError>)
    ensures
        match r {
            Ok(()) => final(w)@ == old(w)@ + address_lines(
                *street,
                *additional,
                city@,
                postal@,
                *subdivision,
                country@,
            ),
            Err(_) => false,
        },
{
    w.opt_text_element("cbc:StreetName", street)?;
    w.opt_text_element("cbc:AdditionalStreetName", additional)?;
    w.text_element("cbc:CityName", city)?;
    w.text_element("cbc:PostalZone", postal)?;
    w.opt_text_element("cbc:CountrySubentity", subdivision)?;
    w.start_element("cac:Country")?;
    w.text_element("cbc:IdentificationCode", country)?;
    w.end_element("cac:Country")?;
    proof {
        assert(w@ =~= old(w)@ + address_lines(
            *street,
            *additional,
            city@,
            postal@,
            *subdivision,
            country@,
        ));
    }
    Ok(())
}

fn write_address(w: &mut XmlWriter, a: &Address) -> (r: Result<(), RechnungError>)
    ensures
        match r {
            Ok(()) => final(w)@ == old(w)@ + ubl_address(*a),
            Err(_) => false,
        },
{
    w.start_element("cac:PostalAddress")?;
    write_address_lines(
        w,
        &a.street,
        &a.additional,
        a.city.as_str(),
        a.postal_code.as_str(),
        &a.subdivision,
        a.country_code.as_str(),
    )?;
    w.end_element("cac:PostalAddress")?;
    proof {
        assert(w@ =~= old(w)@ + ubl_address(*a));
    }
    Ok(())
}

/// A tax scheme entry of a party: the identifier and its scheme.
pub open spec fn party_tax_scheme_el(id: Seq<char>, scheme: Seq<char>) -> Seq<XmlEv> {
    el("cac:PartyTaxScheme"@, text_el("cbc:CompanyID"@, id) + tax_scheme_el(scheme))
}

pub open spec fn opt_party_tax_scheme_el(o: Option<String>, scheme: Seq<char>) -> Seq<XmlEv> {
    match o {
        Some(v) => party_tax_scheme_el(v@, scheme),
        None => seq![],
    }
}

/// BT-34/49: the electronic address with its scheme.
pub open spec fn endpoint_el(o: Option<ElectronicAddress>) -> Seq<XmlEv> {
    match o {
        Some(ea) => text_el_attrs("cbc:EndpointID"@, ea.value@, seq![("schemeID"@, ea.scheme@)]),
        None => seq![],
    }
}

/// The identifying head of a party: endpoint, trading name, address, tax ids.
pub open spec fn ubl_party_head(p: Party) -> Seq<XmlEv> {
    endpoint_el(p.electronic_address) + opt_wrapped_el("cac:PartyName"@, "cbc:Name"@, p.trading_name)
        + ubl_address(p.address) + opt_party_tax_scheme_el(p.vat_id, "VAT"@)
        + opt_party_tax_scheme_el(p.tax_number, "FC"@)
}

/// The contact of a party.
pub open spec fn contact_el(o: Option<Contact>) -> Seq<XmlEv> {
    match o {
        Some(c) => el(
            "cac:Contact"@,
            opt_text_el("cbc:Name"@, c.name) + opt_text_el("cbc:Telephone"@, c.phone) + opt_text_el(
                "cbc:ElectronicMail"@,
                c.email,
            ),
        ),
        None => seq![],
    }
}

/// The legal entity and contact of a party.
pub open spec fn ubl_party_tail(p: Party) -> Seq<XmlEv> {
    el(
        "cac:PartyLegalEntity"@,
        text_el("cbc:RegistrationName"@, p.name@) + opt_text_el("cbc:CompanyID"@, p.registration_id),
    ) + contact_el(p.contact)
}

/// BG-4/7: a party inside the given wrapper element.
pub open spec fn ubl_party(p: Party, wrapper: Seq<char>) -> Seq<XmlEv> {
    el(wrapper, el("cac:Party"@, ubl_party_head(p) + ubl_party_tail(p)))
}

fn write_party_tax_scheme(w: &mut XmlWriter, o: &Option<String>, scheme: &str) -> (r: Result<
    (),
    RechnungError,
>)
    ensures
        match r {
            Ok(()) => final(w)@ == old(w)@ + opt_party_tax_scheme_el(*o, scheme@),
            Err(_) => false,
        },
{
    match o {
        Some(id) => {
            w.start_element("cac:PartyTaxScheme")?;
            w.text_element("cbc:CompanyID", id.as_str())?;
            tax_scheme(w, scheme)?;
            w.end_element("cac:PartyTaxScheme")?;
        },
        None => {},
    }
    proof {
        assert(w@ =~= old(w)@ + opt_party_tax_scheme_el(*o, scheme@));
    }
    Ok(())
}

fn write_endpoint(w: &mut XmlWriter, o: &Option<ElectronicAddress>) -> (r: Result<
    (),
    RechnungError,
>)
    ensures
        match r {
            Ok(()) => final(w)@ == old(w)@ + endpoint_el(*o),
            Err(_) => false,
        },
{
    match o {
        Some(ea) => {
            let attrs = [("schemeID", ea.scheme.as_str())];
            w.text_element_with_attrs("cbc:EndpointID", ea.value.as_str(), &attrs)?;
            proof {
                assert(attrs_view(attrs@) =~= seq![("schemeID"@, ea.scheme@)]);
            }
        },
        None => {},
    }
    proof {
        assert(w@ =~= old(w)@ + endpoint_el(*o));
    }
    Ok(())
}

fn write_party_head(w: &mut XmlWriter, p: &Party) -> (r: Result<(), RechnungError>)
    ensures
        match r {
            Ok(()) => final(w)@ == old(w)@ + ubl_party_head(*p),
            Err(_) => false,
        },
{
    write_endpoint(w, &p.electronic_address)?;
    opt_wrapped_element(w, "cac:PartyName", "cbc:Name", &p.trading_name)?;
    write_address(w, &p.address)?;
    write_party_tax_scheme(w, &p.vat_id, "VAT")?;
    write_party_tax_scheme(w, &p.tax_number, "FC")?;
    proof {
        assert(w@ =~= old(w)@ + ubl_party_head(*p));
    }
    Ok(())
}

fn write_contact(w: &mut XmlWriter, o: &Option<Contact>) -> (r: Result<(), RechnungError>)
    ensures
        match r {
            Ok(()) => final(w)@ == old(w)@ + contact_el(*o),
            Err(_) => false,
        },
{
    match o {
        Some(c) => {
            w.start_element("cac:Contact")?;
            w.opt_text_element("cbc:Name", &c.name)?;
            w.opt_text_element("cbc:Telephone", &c.phone)?;
            w.opt_text_element("cbc:ElectronicMail", &c.email)?;
            w.end_element("cac:Contact")?;
        },
        None => {},
    }
    proof {
        assert(w@ =~= old(w)@ + contact_el(*o));
    }
    Ok(())
}

fn write_party_tail(w: &mut XmlWriter, p: &Party) -> (r: Result<(), RechnungError>)
    ensures
        match r {
            Ok(()) => final(w)@ == old(w)@ + ubl_party_tail(*p),
            Err(_) => false,
        },
{
    w.start_element("cac:PartyLegalEntity")?;
    w.text_element("cbc:RegistrationName", p.name.as_str())?;
    w.opt_text_element("cbc:CompanyID", &p.registration_id)?;
    w.end_element("cac:PartyLegalEntity")?;
    write_contact(w, &p.contact)?;
    proof {
        assert(w@ =~= old(w)@ + ubl_party_tail(*p));
    }
    Ok(())
}

fn write_party(w: &mut XmlWriter, p: &Party, wrapper: &str) -> (r: Result<(), RechnungError>)
    ensures
        match r {
            Ok(()) => final(w)@ == old(w)@ + ubl_party(*p, wrapper@),
            Err(_) => false,
        },
{
    w.start_element(wrapper)?;
    w.start_element("cac:Party")?;
    write_party_head(w, p)?;
    write_party_tail(w, p)?;
    w.end_element("cac:Party")?;
    w.end_element(wrapper)?;
    proof {
        assert(w@ =~= old(w)@ + ubl_party(*p, wrapper@));
    }
    Ok(())
}

// ---------------------------------------------------------------- allowances and charges

/// A category with its rate: `<cbc:ID>`, `<cbc:Percent>` and the VAT scheme.
pub open spec fn category_content(code: Seq<char>, rate: (i128, u32)) -> Seq<XmlEv> {
    text_el("cbc:ID"@, code) + text_el("cbc:Percent"@, decimal_text(rate)) + tax_scheme_el("VAT"@)
}

/// `"true"` or `"false"`.
pub open spec fn bool_text(b: bool) -> Seq<char> {
    if b {
        "true"@
    } else {
        "false"@
    }
}

/// BG-20/21/27/28: an allowance or charge.
pub open spec fn ubl_allowance_charge(ac: AllowanceCharge, cur: Seq<char>) -> Seq<XmlEv> {
    el(
        "cac:AllowanceCharge"@,
        text_el("cbc:ChargeIndicator"@, bool_text(ac.is_charge)) + opt_text_el(
            "cbc:AllowanceChargeReasonCode"@,
            ac.reason_code,
        ) + opt_text_el("cbc:AllowanceChargeReason"@, ac.reason) + amount_el(
            "cbc:Amount"@,
            ac.amount@,
            cur,
        ) + opt_amount_el("cbc:BaseAmount"@, ac.base_amount, cur) + el(
            "cac:TaxCategory"@,
            category_content(tax_code_spec(ac.tax_category), ac.tax_rate@),
        ),
    )
}

fn write_category_content(w: &mut XmlWriter, code: &str, rate: Dec) -> (r: Result<
    (),
    RechnungError,
>)
    ensures
        match r {
            Ok(()) => final(w)@ == old(w)@ + category_content(code@, rate@),
            Err(_) => false,
        },
{
    w.text_element("cbc:ID", code)?;
    let p = format_decimal(rate);
    w.text_element("cbc:Percent", p.as_str())?;
    tax_scheme(w, "VAT")?;
    proof {
        assert(w@ =~= old(w)@ + category_content(code@, rate@));
    }
    Ok(())
}

pub(crate) fn write_bool_element(w: &mut XmlWriter, name: &str, b: bool) -> (r: Result<(), RechnungError>)
    ensures
        match r {
            Ok(()) => final(w)@ == old(w)@ + text_el(name@, bool_text(b)),
            Err(_) => false,
        },
{
    proof {
        reveal_strlit("true");
        reveal_strlit("false");
    }
    if b {
        w.text_element(name, "true")
    } else {
        w.text_element(name, "false")
    }
}

#[verifier::spinoff_prover]
#[verifier::rlimit(40)]
fn write_allowance_charge(w: &mut XmlWriter, ac: &AllowanceCharge, currency: &str) -> (r: Result<
    (),
    RechnungError,
>)
    ensures
        match r {
            Ok(()) => final(w)@ == old(w)@ + ubl_allowance_charge(*ac, currency@),
            Err(_) => false,
        },
{
    w.start_element("cac:AllowanceCharge")?;
    write_bool_element(w, "cbc:ChargeIndicator", ac.is_charge)?;
    w.opt_text_element("cbc:AllowanceChargeReasonCode", &ac.reason_code)?;
    w.opt_text_element("cbc:AllowanceChargeReason", &ac.reason)?;
    w.amount_element("cbc:Amount", ac.amount, currency)?;
    opt_amount_element(w, "cbc:BaseAmount", ac.base_amount, currency)?;
    w.start_element("cac:TaxCategory")?;
    write_category_content(w, ac.tax_category.code(), ac.tax_rate)?;
    w.end_element("cac:TaxCategory")?;
    w.end_element("cac:AllowanceCharge")?;
    proof {
        assert(w@ =~= old(w)@ + ubl_allowance_charge(*ac, currency@));
    }
    Ok(())
}

/// A list of allowances or charges.
pub open spec fn ubl_allowance_charges(acs: Seq<AllowanceCharge>, cur: Seq<char>) -> Seq<XmlEv> {
    xml_concat(Seq::new(acs.len(), |i: int| ubl_allowance_charge(acs[i], cur)))
}

fn write_allowance_charges(
    w: &mut XmlWriter,
    acs: &Vec<AllowanceCharge>,
    currency: &str,
) -> (r: Result<(), RechnungError>)
    ensures
        match r {
            Ok(()) => final(w)@ == old(w)@ + ubl_allowance_charges(acs@, currency@),
            Err(_) => false,
        },
{
    let ghost start = w@;
    let mut i: usize = 0;
    while i < acs.len()
        invariant
            i <= acs@.len(),
            w@ == start + xml_concat(
                Seq::new(i as nat, |k: int| ubl_allowance_charge(acs@[k], currency@)),
            ),
        decreases acs.len() - i,
    {
        write_allowance_charge(w, &acs[i], currency)?;
        proof {
            let f = |k: int| ubl_allowance_charge(acs@[k], currency@);
            assert(Seq::new((i + 1) as nat, f) =~= Seq::new(i as nat, f).push(f(i as int)));
            lemma_xml_concat_push(Seq::new(i as nat, f), f(i as int));
        }
        i = i + 1;
    }
    Ok(())
}

// ---------------------------------------------------------------- document head

/// The number of a code as text.
pub open spec fn code_text(c: u16) -> Seq<char> {
    nat_str(c as nat)
}

pub(crate) fn code_element(w: &mut XmlWriter, name: &str, c: u16) -> (r: Result<(), RechnungError>)
    ensures
        match r {
            Ok(()) => final(w)@ == old(w)@ + text_el(name@, code_text(c)),
            Err(_) => false,
        },
{
    let t = u64_to_string(c as u64);
    w.text_element(name, t.as_str())
}

/// BT-24, BT-23, BT-1, BT-2, BT-9 and BT-3.
#[verifier::opaque]
pub open spec fn ubl_head_ids(inv: Invoice) -> Seq<XmlEv> {
    text_el("cbc:CustomizationID"@, XRECHNUNG_CUSTOMIZATION_ID@) + text_el(
        "cbc:ProfileID"@,
        PEPPOL_PROFILE_ID@,
    ) + text_el("cbc:ID"@, inv.number@) + text_el("cbc:IssueDate"@, iso(inv.issue_date))
        + opt_date_el("cbc:DueDate"@, inv.due_date) + text_el(
        "cbc:InvoiceTypeCode"@,
        code_text(type_code_spec(inv.type_code)),
    )
}

/// BT-22, BT-7, BT-5, BT-6 and BT-10.
#[verifier::opaque]
pub open spec fn ubl_head_texts(inv: Invoice) -> Seq<XmlEv> {
    texts_el("cbc:Note"@, inv.notes@) + opt_date_el("cbc:TaxPointDate"@, inv.tax_point_date)
        + text_el("cbc:DocumentCurrencyCode"@, inv.currency_code@) + opt_text_el(
        "cbc:TaxCurrencyCode"@,
        inv.tax_currency_code,
    ) + opt_text_el("cbc:BuyerReference"@, inv.buyer_reference)
}

fn write_head_ids(w: &mut XmlWriter, inv: &Invoice) -> (r: Result<(), RechnungError>)
    ensures
        match r {
            Ok(()) => final(w)@ == old(w)@ + ubl_head_ids(*inv),
            Err(_) => false,
        },
{
    proof {
        reveal(ubl_head_ids);
    }
    w.text_element("cbc:CustomizationID", XRECHNUNG_CUSTOMIZATION_ID)?;
    w.text_element("cbc:ProfileID", PEPPOL_PROFILE_ID)?;
    w.text_element("cbc:ID", inv.number.as_str())?;
    date_element(w, "cbc:IssueDate", &inv.issue_date)?;
    opt_date_element(w, "cbc:DueDate", &inv.due_date)?;
    code_element(w, "cbc:InvoiceTypeCode", inv.type_code.code())?;
    proof {
        assert(w@ =~= old(w)@ + ubl_head_ids(*inv));
    }
    Ok(())
}

fn write_head_texts(w: &mut XmlWriter, inv: &Invoice) -> (r: Result<(), RechnungError>)
    ensures
        match r {
            Ok(()) => final(w)@ == old(w)@ + ubl_head_texts(*inv),
            Err(_) => false,
        },
{
    proof {
        reveal(ubl_head_texts);
    }
    write_texts(w, "cbc:Note", &inv.notes)?;
    opt_date_element(w, "cbc:TaxPointDate", &inv.tax_point_date)?;
    w.text_element("cbc:DocumentCurrencyCode", inv.currency_code.as_str())?;
    w.opt_text_element("cbc:TaxCurrencyCode", &inv.tax_currency_code)?;
    w.opt_text_element("cbc:BuyerReference", &inv.buyer_reference)?;
    proof {
        assert(w@ =~= old(w)@ + ubl_head_texts(*inv));
    }
    Ok(())
}

// ---------------------------------------------------------------- references

/// BG-3: a preceding invoice.
pub open spec fn billing_ref_el(pi: PrecedingInvoiceReference) -> Seq<XmlEv> {
    el(
        "cac:BillingReference"@,
        el(
            "cac:InvoiceDocumentReference"@,
            text_el("cbc:ID"@, pi.number@) + opt_date_el("cbc:IssueDate"@, pi.issue_date),
        ),
    )
}

pub open spec fn billing_refs_el(s: Seq<PrecedingInvoiceReference>) -> Seq<XmlEv> {
    xml_concat(Seq::new(s.len(), |i: int| billing_ref_el(s[i])))
}

fn write_billing_ref(w: &mut XmlWriter, pi: &PrecedingInvoiceReference) -> (r: Result<
    (),
    RechnungError,
>)
    ensures
        match r {
            Ok(()) => final(w)@ == old(w)@ + billing_ref_el(*pi),
            Err(_) => false,
        },
{
    w.start_element("cac:BillingReference")?;
    w.start_element("cac:InvoiceDocumentReference")?;
    w.text_element("cbc:ID", pi.number.as_str())?;
    opt_date_element(w, "cbc:IssueDate", &pi.issue_date)?;
    w.end_element("cac:InvoiceDocumentReference")?;
    w.end_element("cac:BillingReference")?;
    proof {
        assert(w@ =~= old(w)@ + billing_ref_el(*pi));
    }
    Ok(())
}

fn write_billing_refs(w: &mut XmlWriter, s: &Vec<PrecedingInvoiceReference>) -> (r: Result<
    (),
    RechnungError,
>)
    ensures
        match r {
            Ok(()) => final(w)@ == old(w)@ + billing_refs_el(s@),
            Err(_) => false,
        },
{
    let ghost start = w@;
    let mut i: usize = 0;
    while i < s.len()
        invariant
            i <= s@.len(),
            w@ == start + xml_concat(Seq::new(i as nat, |k: int| billing_ref_el(s@[k]))),
        decreases s.len() - i,
    {
        write_billing_ref(w, &s[i])?;
        proof {
            let f = |k: int| billing_ref_el(s@[k]);
            assert(Seq::new((i + 1) as nat, f) =~= Seq::new(i as nat, f).push(f(i as int)));
            lemma_xml_concat_push(Seq::new(i as nat, f), f(i as int));
        }
        i = i + 1;
    }
    Ok(())
}

/// The identifier of an attachment, `n/a` where it has none.
pub open spec fn attachment_id(att: DocumentAttachment) -> Seq<char> {
    match att.id {
        Some(s) => s@,
        None => "n/a"@,
    }
}

/// The attached document itself: embedded content, else an external URI.
pub open spec fn attachment_body_el(att: DocumentAttachment) -> Seq<XmlEv> {
    match att.embedded_document {
        Some(emb) => el(
            "cac:Attachment"@,
            text_el_attrs(
                "cbc:EmbeddedDocumentBinaryObject"@,
                emb.content@,
                seq![("mimeCode"@, emb.mime_type@), ("filename"@, emb.filename@)],
            ),
        ),
        None => opt_wrapped_el("cac:Attachment"@, "cbc:URI"@, att.external_uri),
    }
}

/// BG-24: a supporting document.
pub open spec fn attachment_el(att: DocumentAttachment) -> Seq<XmlEv> {
    el(
        "cac:AdditionalDocumentReference"@,
        text_el("cbc:ID"@, attachment_id(att)) + opt_text_el(
            "cbc:DocumentDescription"@,
            att.description,
        ) + attachment_body_el(att),
    )
}

pub open spec fn attachments_el(s: Seq<DocumentAttachment>) -> Seq<XmlEv> {
    xml_concat(Seq::new(s.len(), |i: int| attachment_el(s[i])))
}

fn write_attachment_body(w: &mut XmlWriter, att: &DocumentAttachment) -> (r: Result<
    (),
    RechnungError,
>)
    ensures
        match r {
            Ok(()) => final(w)@ == old(w)@ + attachment_body_el(*att),
            Err(_) => false,
        },
{
    match &att.embedded_document {
        Some(emb) => {
            w.start_element("cac:Attachment")?;
            let attrs = [("mimeCode", emb.mime_type.as_str()), ("filename", emb.filename.as_str())];
            w.text_element_with_attrs(
                "cbc:EmbeddedDocumentBinaryObject",
                emb.content.as_str(),
                &attrs,
            )?;
            w.end_element("cac:Attachment")?;
            proof {
                assert(attrs_view(attrs@) =~= seq![
                    ("mimeCode"@, emb.mime_type@),
                    ("filename"@, emb.filename@),
                ]);
                assert(w@ =~= old(w)@ + attachment_body_el(*att));
            }
            Ok(())
        },
        None => opt_wrapped_element(w, "cac:Attachment", "cbc:URI", &att.external_uri),
    }
}

fn write_attachment(w: &mut XmlWriter, att: &DocumentAttachment) -> (r: Result<
    (),
    RechnungError,
>)
    ensures
        match r {
            Ok(()) => final(w)@ == old(w)@ + attachment_el(*att),
            Err(_) => false,
        },
{
    w.start_element("cac:AdditionalDocumentReference")?;
    match &att.id {
        Some(id) => w.text_element("cbc:ID", id.as_str())?,
        None => {
            proof {
                reveal_strlit("n/a");
            }
            w.text_element("cbc:ID", "n/a")?
        },
    }
    w.opt_text_element("cbc:DocumentDescription", &att.description)?;
    write_attachment_body(w, att)?;
    w.end_element("cac:AdditionalDocumentReference")?;
    proof {
        assert(w@ =~= old(w)@ + attachment_el(*att));
    }
    Ok(())
}

fn write_attachments(w: &mut XmlWriter, s: &Vec<DocumentAttachment>) -> (r: Result<
    (),
    RechnungError,
>)
    ensures
        match r {
            Ok(()) => final(w)@ == old(w)@ + attachments_el(s@),
            Err(_) => false,
        },
{
    let ghost start = w@;
    let mut i: usize = 0;
    while i < s.len()
        invariant
            i <= s@.len(),
            w@ == start + xml_concat(Seq::new(i as nat, |k: int| attachment_el(s@[k]))),
        decreases s.len() - i,
    {
        write_attachment(w, &s[i])?;
        proof {
            let f = |k: int| attachment_el(s@[k]);
            assert(Seq::new((i + 1) as nat, f) =~= Seq::new(i as nat, f).push(f(i as int)));
            lemma_xml_concat_push(Seq::new(i as nat, f), f(i as int));
        }
        i = i + 1;
    }
    Ok(())
}

/// BT-13, BG-3, BG-24 and BG-14.
#[verifier::opaque]
pub open spec fn ubl_references(inv: Invoice) -> Seq<XmlEv> {
    opt_wrapped_el("cac:OrderReference"@, "cbc:ID"@, inv.order_reference) + billing_refs_el(
        inv.preceding_invoices@,
    ) + attachments_el(inv.attachments@) + opt_period_el(
        "cac:InvoicePeriod"@,
        inv.invoicing_period,
    )
}

fn write_references(w: &mut XmlWriter, inv: &Invoice) -> (r: Result<(), RechnungError>)
    ensures
        match r {
            Ok(()) => final(w)@ == old(w)@ + ubl_references(*inv),
            Err(_) => false,
        },
{
    proof {
        reveal(ubl_references);
    }
    opt_wrapped_element(w, "cac:OrderReference", "cbc:ID", &inv.order_reference)?;
    write_billing_refs(w, &inv.preceding_invoices)?;
    write_attachments(w, &inv.attachments)?;
    write_opt_period(w, "cac:InvoicePeriod", &inv.invoicing_period)?;
    proof {
        assert(w@ =~= old(w)@ + ubl_references(*inv));
    }
    Ok(())
}

// ---------------------------------------------------------------- payee, tax representative

/// `<wrapper><cbc:Name>name</cbc:Name></wrapper>`.
pub open spec fn name_el(wrapper: Seq<char>, name: Seq<char>) -> Seq<XmlEv> {
    el(wrapper, text_el("cbc:Name"@, name))
}

/// BG-10: the payee.
pub open spec fn payee_el(p: Payee) -> Seq<XmlEv> {
    el(
        "cac:PayeeParty"@,
        name_el("cac:PartyName"@, p.name@) + opt_wrapped_el(
            "cac:PartyIdentification"@,
            "cbc:ID"@,
            p.identifier,
        ) + opt_wrapped_el("cac:PartyLegalEntity"@, "cbc:CompanyID"@, p.legal_registration_id),
    )
}

/// BG-11: the seller's tax representative.
pub open spec fn tax_rep_el(t: TaxRepresentative) -> Seq<XmlEv> {
    el(
        "cac:TaxRepresentativeParty"@,
        name_el("cac:PartyName"@, t.name@) + ubl_address(t.address) + party_tax_scheme_el(
            t.vat_id@,
            "VAT"@,
        ),
    )
}

/// BG-4, BG-7, BG-10 and BG-11.
#[verifier::opaque]
pub open spec fn ubl_parties(inv: Invoice) -> Seq<XmlEv> {
    ubl_party(inv.seller, "cac:AccountingSupplierParty"@) + ubl_party(
        inv.buyer,
        "cac:AccountingCustomerParty"@,
    ) + (match inv.payee {
        Some(p) => payee_el(p),
        None => seq![],
    }) + (match inv.tax_representative {
        Some(t) => tax_rep_el(t),
        None => seq![],
    })
}

pub(crate) fn write_name(w: &mut XmlWriter, wrapper: &str, name: &str) -> (r: Result<(), RechnungError>)
    ensures
        match r {
            Ok(()) => final(w)@ == old(w)@ + name_el(wrapper@, name@),
            Err(_) => false,
        },
{
    w.start_element(wrapper)?;
    w.text_element("cbc:Name", name)?;
    w.end_element(wrapper)?;
    proof {
        assert(w@ =~= old(w)@ + name_el(wrapper@, name@));
    }
    Ok(())
}

fn write_payee(w: &mut XmlWriter, p: &Payee) -> (r: Result<(), RechnungError>)
    ensures
        match r {
            Ok(()) => final(w)@ == old(w)@ + payee_el(*p),
            Err(_) => false,
        },
{
    w.start_element("cac:PayeeParty")?;
    write_name(w, "cac:PartyName", p.name.as_str())?;
    opt_wrapped_element(w, "cac:PartyIdentification", "cbc:ID", &p.identifier)?;
    opt_wrapped_element(w, "cac:PartyLegalEntity", "cbc:CompanyID", &p.legal_registration_id)?;
    w.end_element("cac:PayeeParty")?;
    proof {
        assert(w@ =~= old(w)@ + payee_el(*p));
    }
    Ok(())
}

fn write_tax_rep(w: &mut XmlWriter, t: &TaxRepresentative) -> (r: Result<(), RechnungError>)
    ensures
        match r {
            Ok(()) => final(w)@ == old(w)@ + tax_rep_el(*t),
            Err(_) => false,
        },
{
    w.start_element("cac:TaxRepresentativeParty")?;
    write_name(w, "cac:PartyName", t.name.as_str())?;
    write_address(w, &t.address)?;
    w.start_element("cac:PartyTaxScheme")?;
    w.text_element("cbc:CompanyID", t.vat_id.as_str())?;
    tax_scheme(w, "VAT")?;
    w.end_element("cac:PartyTaxScheme")?;
    w.end_element("cac:TaxRepresentativeParty")?;
    proof {
        assert(w@ =~= old(w)@ + tax_rep_el(*t));
    }
    Ok(())
}

fn write_parties(w: &mut XmlWriter, inv: &Invoice) -> (r: Result<(), RechnungError>)
    ensures
        match r {
            Ok(()) => final(w)@ == old(w)@ + ubl_parties(*inv),
            Err(_) => false,
        },
{
    proof {
        reveal(ubl_parties);
    }
    write_party(w, &inv.seller, "cac:AccountingSupplierParty")?;
    write_party(w, &inv.buyer, "cac:AccountingCustomerParty")?;
    let ghost s2 = w@;
    match &inv.payee {
        Some(p) => write_payee(w, p)?,
        None => {},
    }
    let ghost s3 = w@;
    match &inv.tax_representative {
        Some(t) => write_tax_rep(w, t)?,
        None => {},
    }
    proof {
        assert(s3 =~= s2 + match inv.payee {
            Some(p) => payee_el(p),
            None => seq![],
        });
        assert(w@ =~= old(w)@ + ubl_parties(*inv));
    }
    Ok(())
}

// ---------------------------------------------------------------- delivery

/// BG-13 party: the deliver-to party.
pub open spec fn delivery_party_el(o: Option<DeliveryParty>) -> Seq<XmlEv> {
    match o {
        Some(p) => el(
            "cac:DeliveryParty"@,
            name_el("cac:PartyName"@, p.name@) + opt_wrapped_el(
                "cac:PartyIdentification"@,
                "cbc:ID"@,
                p.location_id,
            ),
        ),
        None => seq![],
    }
}

/// BG-15: the deliver-to address.
pub open spec fn delivery_location_el(o: Option<DeliveryAddress>) -> Seq<XmlEv> {
    match o {
        Some(a) => el(
            "cac:DeliveryLocation"@,
            el(
                "cac:Address"@,
                address_lines(
                    a.street,
                    a.additional,
                    a.city@,
                    a.postal_code@,
                    a.subdivision,
                    a.country_code@,
                ),
            ),
        ),
        None => seq![],
    }
}

/// BG-13: delivery information, written where delivery details, a tax point
/// date or an invoicing period are given. Without delivery details the tax
/// point date stands as the actual delivery date.
#[verifier::opaque]
pub open spec fn ubl_delivery(inv: Invoice) -> Seq<XmlEv> {
    if inv.delivery is Some || inv.tax_point_date is Some || inv.invoicing_period is Some {
        el(
            "cac:Delivery"@,
            match inv.delivery {
                Some(d) => opt_date_el("cbc:ActualDeliveryDate"@, d.actual_delivery_date)
                    + delivery_party_el(d.delivery_party) + delivery_location_el(
                    d.delivery_address,
                ),
                None => opt_date_el("cbc:ActualDeliveryDate"@, inv.tax_point_date),
            },
        )
    } else {
        seq![]
    }
}

fn write_delivery_party(w: &mut XmlWriter, o: &Option<DeliveryParty>) -> (r: Result<
    (),
    RechnungError,
>)
    ensures
        match r {
            Ok(()) => final(w)@ == old(w)@ + delivery_party_el(*o),
            Err(_) => false,
        },
{
    match o {
        Some(p) => {
            w.start_element("cac:DeliveryParty")?;
            write_name(w, "cac:PartyName", p.name.as_str())?;
            opt_wrapped_element(w, "cac:PartyIdentification", "cbc:ID", &p.location_id)?;
            w.end_element("cac:DeliveryParty")?;
        },
        None => {},
    }
    proof {
        assert(w@ =~= old(w)@ + delivery_party_el(*o));
    }
    Ok(())
}

fn write_delivery_location(w: &mut XmlWriter, o: &Option<DeliveryAddress>) -> (r: Result<
    (),
    RechnungError,
>)
    ensures
        match r {
            Ok(()) => final(w)@ == old(w)@ + delivery_location_el(*o),
            Err(_) => false,
        },
{
    match o {
        Some(a) => {
            w.start_element("cac:DeliveryLocation")?;
            w.start_element("cac:Address")?;
            write_address_lines(
                w,
                &a.street,
                &a.additional,
                a.city.as_str(),
                a.postal_code.as_str(),
                &a.subdivision,
                a.country_code.as_str(),
            )?;
            w.end_element("cac:Address")?;
            w.end_element("cac:DeliveryLocation")?;
        },
        None => {},
    }
    proof {
        assert(w@ =~= old(w)@ + delivery_location_el(*o));
    }
    Ok(())
}

fn write_delivery_details(w: &mut XmlWriter, d: &DeliveryInformation) -> (r: Result<
    (),
    RechnungError,
>)
    ensures
        match r {
            Ok(()) => final(w)@ == old(w)@ + opt_date_el(
                "cbc:ActualDeliveryDate"@,
                d.actual_delivery_date,
            ) + delivery_party_el(d.delivery_party) + delivery_location_el(d.delivery_address),
            Err(_) => false,
        },
{
    opt_date_element(w, "cbc:ActualDeliveryDate", &d.actual_delivery_date)?;
    write_delivery_party(w, &d.delivery_party)?;
    write_delivery_location(w, &d.delivery_address)?;
    proof {
        assert(w@ =~= old(w)@ + opt_date_el("cbc:ActualDeliveryDate"@, d.actual_delivery_date)
            + delivery_party_el(d.delivery_party) + delivery_location_el(d.delivery_address));
    }
    Ok(())
}

fn write_delivery(w: &mut XmlWriter, inv: &Invoice) -> (r: Result<(), RechnungError>)
    ensures
        match r {
            Ok(()) => final(w)@ == old(w)@ + ubl_delivery(*inv),
            Err(_) => false,
        },
{
    proof {
        reveal(ubl_delivery);
    }
    if inv.delivery.is_some() || inv.tax_point_date.is_some() || inv.invoicing_period.is_some() {
        w.start_element("cac:Delivery")?;
        match &inv.delivery {
            Some(d) => write_delivery_details(w, d)?,
            None => opt_date_element(w, "cbc:ActualDeliveryDate", &inv.tax_point_date)?,
        }
        w.end_element("cac:Delivery")?;
    }
    proof {
        assert(w@ =~= old(w)@ + ubl_delivery(*inv));
    }
    Ok(())
}

// ---------------------------------------------------------------- payment

/// BT-81/82: the payment means code, with its text as `name` where given.
pub open spec fn means_code_el(p: PaymentInstructions) -> Seq<XmlEv> {
    match p.means_text {
        Some(t) => text_el_attrs(
            "cbc:PaymentMeansCode"@,
            code_text(means_code_spec(p.means_code)),
            seq![("name"@, t@)],
        ),
        None => text_el("cbc:PaymentMeansCode"@, code_text(means_code_spec(p.means_code))),
    }
}

/// BG-18: card payment.
pub open spec fn card_el(o: Option<CardPayment>) -> Seq<XmlEv> {
    match o {
        Some(c) => el(
            "cac:CardAccount"@,
            text_el("cbc:PrimaryAccountNumberID"@, c.account_number@) + opt_text_el(
                "cbc:HolderName"@,
                c.holder_name,
            ),
        ),
        None => seq![],
    }
}

/// BG-19: direct debit.
pub open spec fn mandate_el(o: Option<DirectDebit>) -> Seq<XmlEv> {
    match o {
        Some(d) => el(
            "cac:PaymentMandate"@,
            opt_text_el("cbc:ID"@, d.mandate_id) + opt_wrapped_el(
                "cac:PayerFinancialAccount"@,
                "cbc:ID"@,
                d.debited_account_id,
            ),
        ),
        None => seq![],
    }
}

/// BG-17: credit transfer.
pub open spec fn payee_account_el(o: Option<CreditTransfer>) -> Seq<XmlEv> {
    match o {
        Some(c) => el(
            "cac:PayeeFinancialAccount"@,
            text_el("cbc:ID"@, c.iban@) + opt_text_el("cbc:Name"@, c.account_name) + opt_wrapped_el(
                "cac:FinancialInstitutionBranch"@,
                "cbc:ID"@,
                c.bic,
            ),
        ),
        None => seq![],
    }
}

/// BG-16: payment instructions.
pub open spec fn payment_means_el(p: PaymentInstructions) -> Seq<XmlEv> {
    el(
        "cac:PaymentMeans"@,
        means_code_el(p) + opt_text_el("cbc:PaymentID"@, p.remittance_info) + card_el(
            p.card_payment,
        ) + mandate_el(p.direct_debit) + payee_account_el(p.credit_transfer),
    )
}

/// BG-16 and BT-20.
#[verifier::opaque]
pub open spec fn ubl_payment(inv: Invoice) -> Seq<XmlEv> {
    (match inv.payment {
        Some(p) => payment_means_el(p),
        None => seq![],
    }) + opt_wrapped_el("cac:PaymentTerms"@, "cbc:Note"@, inv.payment_terms)
}

fn write_means_code(w: &mut XmlWriter, p: &PaymentInstructions) -> (r: Result<(), RechnungError>)
    ensures
        match r {
            Ok(()) => final(w)@ == old(w)@ + means_code_el(*p),
            Err(_) => false,
        },
{
    let code = u64_to_string(p.means_code.code() as u64);
    match &p.means_text {
        Some(t) => {
            let attrs = [("name", t.as_str())];
            w.text_element_with_attrs("cbc:PaymentMeansCode", code.as_str(), &attrs)?;
            proof {
                assert(attrs_view(attrs@) =~= seq![("name"@, t@)]);
            }
        },
        None => w.text_element("cbc:PaymentMeansCode", code.as_str())?,
    }
    Ok(())
}

fn write_card(w: &mut XmlWriter, o: &Option<CardPayment>) -> (r: Result<(), RechnungError>)
    ensures
        match r {
            Ok(()) => final(w)@ == old(w)@ + card_el(*o),
            Err(_) => false,
        },
{
    match o {
        Some(c) => {
            w.start_element("cac:CardAccount")?;
            w.text_element("cbc:PrimaryAccountNumberID", c.account_number.as_str())?;
            w.opt_text_element("cbc:HolderName", &c.holder_name)?;
            w.end_element("cac:CardAccount")?;
        },
        None => {},
    }
    proof {
        assert(w@ =~= old(w)@ + card_el(*o));
    }
    Ok(())
}

fn write_mandate(w: &mut XmlWriter, o: &Option<DirectDebit>) -> (r: Result<(), RechnungError>)
    ensures
        match r {
            Ok(()) => final(w)@ == old(w)@ + mandate_el(*o),
            Err(_) => false,
        },
{
    match o {
        Some(d) => {
            w.start_element("cac:PaymentMandate")?;
            w.opt_text_element("cbc:ID", &d.mandate_id)?;
            opt_wrapped_element(w, "cac:PayerFinancialAccount", "cbc:ID", &d.debited_account_id)?;
            w.end_element("cac:PaymentMandate")?;
        },
        None => {},
    }
    proof {
        assert(w@ =~= old(w)@ + mandate_el(*o));
    }
    Ok(())
}

fn write_payee_account(w: &mut XmlWriter, o: &Option<CreditTransfer>) -> (r: Result<
    (),
    RechnungError,
>)
    ensures
        match r {
            Ok(()) => final(w)@ == old(w)@ + payee_account_el(*o),
            Err(_) => false,
        },
{
    match o {
        Some(c) => {
            w.start_element("cac:PayeeFinancialAccount")?;
            w.text_element("cbc:ID", c.iban.as_str())?;
            w.opt_text_element("cbc:Name", &c.account_name)?;
            opt_wrapped_element(w, "cac:FinancialInstitutionBranch", "cbc:ID", &c.bic)?;
            w.end_element("cac:PayeeFinancialAccount")?;
        },
        None => {},
    }
    proof {
        assert(w@ =~= old(w)@ + payee_account_el(*o));
    }
    Ok(())
}

fn write_payment_means(w: &mut XmlWriter, p: &PaymentInstructions) -> (r: Result<
    (),
    RechnungError,
>)
    ensures
        match r {
            Ok(()) => final(w)@ == old(w)@ + payment_means_el(*p),
            Err(_) => false,
        },
{
    w.start_element("cac:PaymentMeans")?;
    write_means_code(w, p)?;
    w.opt_text_element("cbc:PaymentID", &p.remittance_info)?;
    write_card(w, &p.card_payment)?;
    write_mandate(w, &p.direct_debit)?;
    write_payee_account(w, &p.credit_transfer)?;
    w.end_element("cac:PaymentMeans")?;
    proof {
        assert(w@ =~= old(w)@ + payment_means_el(*p));
    }
    Ok(())
}

fn write_payment(w: &mut XmlWriter, inv: &Invoice) -> (r: Result<(), RechnungError>)
    ensures
        match r {
            Ok(()) => final(w)@ == old(w)@ + ubl_payment(*inv),
            Err(_) => false,
        },
{
    proof {
        reveal(ubl_payment);
    }
    match &inv.payment {
        Some(p) => write_payment_means(w, p)?,
        None => {},
    }
    let ghost s1 = w@;
    opt_wrapped_element(w, "cac:PaymentTerms", "cbc:Note", &inv.payment_terms)?;
    proof {
        assert(w@ =~= old(w)@ + ubl_payment(*inv));
    }
    Ok(())
}

// ---------------------------------------------------------------- totals

/// A value above zero.
pub open spec fn is_pos(d: (i128, u32)) -> bool {
    value_lt((0i128, 0u32), d)
}

/// BG-23 subtotal: one VAT breakdown entry.
pub open spec fn subtotal_el(b: VatBreakdown, cur: Seq<char>) -> Seq<XmlEv> {
    el(
        "cac:TaxSubtotal"@,
        amount_el("cbc:TaxableAmount"@, b.taxable_amount@, cur) + amount_el(
            "cbc:TaxAmount"@,
            b.tax_amount@,
            cur,
        ) + el(
            "cac:TaxCategory"@,
            text_el("cbc:ID"@, tax_code_spec(b.category)) + text_el(
                "cbc:Percent"@,
                decimal_text(b.rate@),
            ) + opt_text_el("cbc:TaxExemptionReason"@, b.exemption_reason) + opt_text_el(
                "cbc:TaxExemptionReasonCode"@,
                b.exemption_reason_code,
            ) + tax_scheme_el("VAT"@),
        ),
    )
}

pub open spec fn subtotals_el(s: Seq<VatBreakdown>, cur: Seq<char>) -> Seq<XmlEv> {
    xml_concat(Seq::new(s.len(), |i: int| subtotal_el(s[i], cur)))
}

/// BG-23 and BT-111: the tax total, and the tax total in the tax currency
/// where both that currency and the amount are given.
#[verifier::opaque]
pub open spec fn ubl_tax_totals(inv: Invoice, t: Totals) -> Seq<XmlEv> {
    el(
        "cac:TaxTotal"@,
        amount_el("cbc:TaxAmount"@, t.vat_total@, inv.currency_code@) + subtotals_el(
            t.vat_breakdown@,
            inv.currency_code@,
        ),
    ) + match (inv.tax_currency_code, t.vat_total_in_tax_currency) {
        (Some(tcc), Some(v)) => el("cac:TaxTotal"@, amount_el("cbc:TaxAmount"@, v@, tcc@)),
        _ => seq![],
    }
}

/// An amount element written only for an amount above zero.
pub open spec fn pos_amount_el(name: Seq<char>, d: Dec, cur: Seq<char>) -> Seq<XmlEv> {
    if is_pos(d@) {
        amount_el(name, d@, cur)
    } else {
        seq![]
    }
}

/// BG-22: the document totals.
#[verifier::opaque]
pub open spec fn ubl_monetary_total(t: Totals, cur: Seq<char>) -> Seq<XmlEv> {
    el(
        "cac:LegalMonetaryTotal"@,
        amount_el("cbc:LineExtensionAmount"@, t.line_net_total@, cur) + amount_el(
            "cbc:TaxExclusiveAmount"@,
            t.net_total@,
            cur,
        ) + amount_el("cbc:TaxInclusiveAmount"@, t.gross_total@, cur) + pos_amount_el(
            "cbc:AllowanceTotalAmount"@,
            t.allowances_total,
            cur,
        ) + pos_amount_el("cbc:ChargeTotalAmount"@, t.charges_total, cur) + pos_amount_el(
            "cbc:PrepaidAmount"@,
            t.prepaid,
            cur,
        ) + amount_el("cbc:PayableAmount"@, t.amount_due@, cur),
    )
}

fn write_subtotal(w: &mut XmlWriter, b: &VatBreakdown, cur: &str) -> (r: Result<
    (),
    RechnungError,
>)
    ensures
        match r {
            Ok(()) => final(w)@ == old(w)@ + subtotal_el(*b, cur@),
            Err(_) => false,
        },
{
    w.start_element("cac:TaxSubtotal")?;
    w.amount_element("cbc:TaxableAmount", b.taxable_amount, cur)?;
    w.amount_element("cbc:TaxAmount", b.tax_amount, cur)?;
    w.start_element("cac:TaxCategory")?;
    w.text_element("cbc:ID", b.category.code())?;
    let p = format_decimal(b.rate);
    w.text_element("cbc:Percent", p.as_str())?;
    w.opt_text_element("cbc:TaxExemptionReason", &b.exemption_reason)?;
    w.opt_text_element("cbc:TaxExemptionReasonCode", &b.exemption_reason_code)?;
    tax_scheme(w, "VAT")?;
    w.end_element("cac:TaxCategory")?;
    w.end_element("cac:TaxSubtotal")?;
    proof {
        assert(w@ =~= old(w)@ + subtotal_el(*b, cur@));
    }
    Ok(())
}

fn write_subtotals(w: &mut XmlWriter, s: &Vec<VatBreakdown>, cur: &str) -> (r: Result<
    (),
    RechnungError,
>)
    ensures
        match r {
            Ok(()) => final(w)@ == old(w)@ + subtotals_el(s@, cur@),
            Err(_) => false,
        },
{
    let ghost start = w@;
    let mut i: usize = 0;
    while i < s.len()
        invariant
            i <= s@.len(),
            w@ == start + xml_concat(Seq::new(i as nat, |k: int| subtotal_el(s@[k], cur@))),
        decreases s.len() - i,
    {
        write_subtotal(w, &s[i], cur)?;
        proof {
            let f = |k: int| subtotal_el(s@[k], cur@);
            assert(Seq::new((i + 1) as nat, f) =~= Seq::new(i as nat, f).push(f(i as int)));
            lemma_xml_concat_push(Seq::new(i as nat, f), f(i as int));
        }
        i = i + 1;
    }
    Ok(())
}

fn write_tax_totals(w: &mut XmlWriter, inv: &Invoice, t: &Totals) -> (r: Result<
    (),
    RechnungError,
>)
    ensures
        match r {
            Ok(()) => final(w)@ == old(w)@ + ubl_tax_totals(*inv, *t),
            Err(_) => false,
        },
{
    proof {
        reveal(ubl_tax_totals);
    }
    let cur = inv.currency_code.as_str();
    w.start_element("cac:TaxTotal")?;
    w.amount_element("cbc:TaxAmount", t.vat_total, cur)?;
    write_subtotals(w, &t.vat_breakdown, cur)?;
    w.end_element("cac:TaxTotal")?;
    let ghost s1 = w@;
    match (&inv.tax_currency_code, t.vat_total_in_tax_currency) {
        (Some(tcc), Some(v)) => {
            w.start_element("cac:TaxTotal")?;
            w.amount_element("cbc:TaxAmount", v, tcc.as_str())?;
            w.end_element("cac:TaxTotal")?;
        },
        _ => {},
    }
    proof {
        assert(w@ =~= old(w)@ + ubl_tax_totals(*inv, *t));
    }
    Ok(())
}

fn pos_amount_element(w: &mut XmlWriter, name: &str, d: Dec, cur: &str) -> (r: Result<
    (),
    RechnungError,
>)
    ensures
        match r {
            Ok(()) => final(w)@ == old(w)@ + pos_amount_el(name@, d, cur@),
            Err(_) => false,
        },
{
    if lt(&Dec::zero(), &d) {
        w.amount_element(name, d, cur)?;
    }
    proof {
        assert(w@ =~= old(w)@ + pos_amount_el(name@, d, cur@));
    }
    Ok(())
}

fn write_monetary_total(w: &mut XmlWriter, t: &Totals, cur: &str) -> (r: Result<
    (),
    RechnungError,
>)
    ensures
        match r {
            Ok(()) => final(w)@ == old(w)@ + ubl_monetary_total(*t, cur@),
            Err(_) => false,
        },
{
    proof {
        reveal(ubl_monetary_total);
    }
    w.start_element("cac:LegalMonetaryTotal")?;
    w.amount_element("cbc:LineExtensionAmount", t.line_net_total, cur)?;
    w.amount_element("cbc:TaxExclusiveAmount", t.net_total, cur)?;
    w.amount_element("cbc:TaxInclusiveAmount", t.gross_total, cur)?;
    pos_amount_element(w, "cbc:AllowanceTotalAmount", t.allowances_total, cur)?;
    pos_amount_element(w, "cbc:ChargeTotalAmount", t.charges_total, cur)?;
    pos_amount_element(w, "cbc:PrepaidAmount", t.prepaid, cur)?;
    w.amount_element("cbc:PayableAmount", t.amount_due, cur)?;
    w.end_element("cac:LegalMonetaryTotal")?;
    proof {
        assert(w@ =~= old(w)@ + ubl_monetary_total(*t, cur@));
    }
    Ok(())
}

// ---------------------------------------------------------------- lines

/// BT-126/127/129/130/131 and BG-26.
pub open spec fn line_head_el(l: LineItem, cur: Seq<char>) -> Seq<XmlEv> {
    text_el("cbc:ID"@, l.id@) + opt_text_el("cbc:Note"@, l.note) + quantity_el(
        "cbc:InvoicedQuantity"@,
        l.quantity@,
        l.unit@,
    ) + opt_amount_el("cbc:LineExtensionAmount"@, l.line_amount, cur) + opt_period_el(
        "cac:InvoicePeriod"@,
        l.invoicing_period,
    )
}

/// BT-157: the standard item identifier (scheme 0160, GTIN).
pub open spec fn std_id_el(o: Option<String>) -> Seq<XmlEv> {
    match o {
        Some(s) => el(
            "cac:StandardItemIdentification"@,
            text_el_attrs("cbc:ID"@, s@, seq![("schemeID"@, "0160"@)]),
        ),
        None => seq![],
    }
}

/// BT-160/161: an item attribute.
pub open spec fn item_attr_el(a: ItemAttribute) -> Seq<XmlEv> {
    el(
        "cac:AdditionalItemProperty"@,
        text_el("cbc:Name"@, a.name@) + text_el("cbc:Value"@, a.value@),
    )
}

pub open spec fn item_attrs_el(s: Seq<ItemAttribute>) -> Seq<XmlEv> {
    xml_concat(Seq::new(s.len(), |i: int| item_attr_el(s[i])))
}

/// BG-31: the item.
pub open spec fn item_el(l: LineItem) -> Seq<XmlEv> {
    el(
        "cac:Item"@,
        opt_text_el("cbc:Description"@, l.description) + text_el("cbc:Name"@, l.item_name@)
            + opt_wrapped_el("cac:SellersItemIdentification"@, "cbc:ID"@, l.seller_item_id)
            + opt_wrapped_el("cac:BuyersItemIdentification"@, "cbc:ID"@, l.buyer_item_id)
            + std_id_el(l.standard_item_id) + opt_wrapped_el(
            "cac:OriginCountry"@,
            "cbc:IdentificationCode"@,
            l.origin_country,
        ) + el(
            "cac:ClassifiedTaxCategory"@,
            category_content(tax_code_spec(l.tax_category), l.tax_rate@),
        ) + item_attrs_el(l.attributes@),
    )
}

/// BT-149/150: the base quantity, in the line's unit unless another is given.
pub open spec fn base_quantity_el(l: LineItem) -> Seq<XmlEv> {
    match l.base_quantity {
        Some(bq) => quantity_el(
            "cbc:BaseQuantity"@,
            bq@,
            match l.base_quantity_unit {
                Some(u) => u@,
                None => l.unit@,
            },
        ),
        None => seq![],
    }
}

/// The gross price minus the net price cannot be computed.
pub open spec fn discount_overflows(l: LineItem) -> bool {
    l.gross_price matches Some(gp) && decimal_checked_sub(gp@, l.unit_price@) is None
}

/// Some line's price discount cannot be computed.
pub open spec fn lines_overflow(s: Seq<LineItem>) -> bool {
    exists|i: int| 0 <= i < s.len() && discount_overflows(#[trigger] s[i])
}

/// BT-147/148: the price discount, written where the gross price exceeds the
/// net price.
pub open spec fn price_discount_el(l: LineItem, cur: Seq<char>) -> Seq<XmlEv> {
    match l.gross_price {
        Some(gp) => match decimal_checked_sub(gp@, l.unit_price@) {
            Some(d) => if is_pos(d) {
                el(
                    "cac:AllowanceCharge"@,
                    text_el("cbc:ChargeIndicator"@, "false"@) + amount_el("cbc:Amount"@, d, cur)
                        + amount_el("cbc:BaseAmount"@, gp@, cur),
                )
            } else {
                seq![]
            },
            None => seq![],
        },
        None => seq![],
    }
}

/// BG-29: the price.
pub open spec fn price_el(l: LineItem, cur: Seq<char>) -> Seq<XmlEv> {
    el(
        "cac:Price"@,
        amount_el("cbc:PriceAmount"@, l.unit_price@, cur) + base_quantity_el(l)
            + price_discount_el(l, cur),
    )
}

/// BG-25: an invoice line.
pub open spec fn ubl_line(l: LineItem, cur: Seq<char>) -> Seq<XmlEv> {
    el(
        "cac:InvoiceLine"@,
        line_head_el(l, cur) + ubl_allowance_charges(l.allowances@, cur) + ubl_allowance_charges(
            l.charges@,
            cur,
        ) + item_el(l) + price_el(l, cur),
    )
}

#[verifier::opaque]
pub open spec fn ubl_lines(s: Seq<LineItem>, cur: Seq<char>) -> Seq<XmlEv> {
    xml_concat(Seq::new(s.len(), |i: int| ubl_line(s[i], cur)))
}

/// The arithmetic error of a price discount out of range.
pub open spec fn line_failure(e: RechnungError, overflow: bool) -> bool {
    overflow && e matches RechnungError::Arithmetic(_)
}

fn write_line_head(w: &mut XmlWriter, l: &LineItem, cur: &str) -> (r: Result<(), RechnungError>)
    ensures
        match r {
            Ok(()) => final(w)@ == old(w)@ + line_head_el(*l, cur@),
            Err(_) => false,
        },
{
    w.text_element("cbc:ID", l.id.as_str())?;
    w.opt_text_element("cbc:Note", &l.note)?;
    w.quantity_element("cbc:InvoicedQuantity", l.quantity, l.unit.as_str())?;
    opt_amount_element(w, "cbc:LineExtensionAmount", l.line_amount, cur)?;
    write_opt_period(w, "cac:InvoicePeriod", &l.invoicing_period)?;
    proof {
        assert(w@ =~= old(w)@ + line_head_el(*l, cur@));
    }
    Ok(())
}

fn write_std_id(w: &mut XmlWriter, o: &Option<String>) -> (r: Result<(), RechnungError>)
    ensures
        match r {
            Ok(()) => final(w)@ == old(w)@ + std_id_el(*o),
            Err(_) => false,
        },
{
    match o {
        Some(s) => {
            w.start_element("cac:StandardItemIdentification")?;
            let attrs = [("schemeID", "0160")];
            w.text_element_with_attrs("cbc:ID", s.as_str(), &attrs)?;
            w.end_element("cac:StandardItemIdentification")?;
            proof {
                assert(attrs_view(attrs@) =~= seq![("schemeID"@, "0160"@)]);
            }
        },
        None => {},
    }
    proof {
        assert(w@ =~= old(w)@ + std_id_el(*o));
    }
    Ok(())
}

fn write_item_attrs(w: &mut XmlWriter, s: &Vec<ItemAttribute>) -> (r: Result<(), RechnungError>)
    ensures
        match r {
            Ok(()) => final(w)@ == old(w)@ + item_attrs_el(s@),
            Err(_) => false,
        },
{
    let ghost start = w@;
    let mut i: usize = 0;
    while i < s.len()
        invariant
            i <= s@.len(),
            w@ == start + xml_concat(Seq::new(i as nat, |k: int| item_attr_el(s@[k]))),
        decreases s.len() - i,
    {
        let a = &s[i];
        w.start_element("cac:AdditionalItemProperty")?;
        w.text_element("cbc:Name", a.name.as_str())?;
        w.text_element("cbc:Value", a.value.as_str())?;
        w.end_element("cac:AdditionalItemProperty")?;
        proof {
            let f = |k: int| item_attr_el(s@[k]);
            assert(Seq::new((i + 1) as nat, f) =~= Seq::new(i as nat, f).push(f(i as int)));
            lemma_xml_concat_push(Seq::new(i as nat, f), f(i as int));
        }
        i = i + 1;
    }
    Ok(())
}

#[verifier::spinoff_prover]
#[verifier::rlimit(40)]
fn write_item(w: &mut XmlWriter, l: &LineItem) -> (r: Result<(), RechnungError>)
    ensures
        match r {
            Ok(()) => final(w)@ == old(w)@ + item_el(*l),
            Err(_) => false,
        },
{
    w.start_element("cac:Item")?;
    w.opt_text_element("cbc:Description", &l.description)?;
    w.text_element("cbc:Name", l.item_name.as_str())?;
    opt_wrapped_element(w, "cac:SellersItemIdentification", "cbc:ID", &l.seller_item_id)?;
    opt_wrapped_element(w, "cac:BuyersItemIdentification", "cbc:ID", &l.buyer_item_id)?;
    write_std_id(w, &l.standard_item_id)?;
    opt_wrapped_element(w, "cac:OriginCountry", "cbc:IdentificationCode", &l.origin_country)?;
    w.start_element("cac:ClassifiedTaxCategory")?;
    write_category_content(w, l.tax_category.code(), l.tax_rate)?;
    w.end_element("cac:ClassifiedTaxCategory")?;
    write_item_attrs(w, &l.attributes)?;
    w.end_element("cac:Item")?;
    proof {
        assert(w@ =~= old(w)@ + item_el(*l));
    }
    Ok(())
}

fn write_base_quantity(w: &mut XmlWriter, l: &LineItem) -> (r: Result<(), RechnungError>)
    ensures
        match r {
            Ok(()) => final(w)@ == old(w)@ + base_quantity_el(*l),
            Err(_) => false,
        },
{
    match l.base_quantity {
        Some(bq) => {
            let unit = match &l.base_quantity_unit {
                Some(u) => u.as_str(),
                None => l.unit.as_str(),
            };
            w.quantity_element("cbc:BaseQuantity", bq, unit)?;
        },
        None => {},
    }
    proof {
        assert(w@ =~= old(w)@ + base_quantity_el(*l));
    }
    Ok(())
}

fn write_price_discount(w: &mut XmlWriter, l: &LineItem, cur: &str) -> (r: Result<
    (),
    RechnungError,
>)
    ensures
        match r {
            Ok(()) => final(w)@ == old(w)@ + price_discount_el(*l, cur@) && !discount_overflows(*l),
            Err(e) => line_failure(e, discount_overflows(*l)),
        },
{
    match l.gross_price {
        Some(gp) => match checked_sub(gp, l.unit_price) {
            Some(d) => {
                if lt(&Dec::zero(), &d) {
                    w.start_element("cac:AllowanceCharge")?;
                    proof {
                        reveal_strlit("false");
                    }
                    w.text_element("cbc:ChargeIndicator", "false")?;
                    w.amount_element("cbc:Amount", d, cur)?;
                    w.amount_element("cbc:BaseAmount", gp, cur)?;
                    w.end_element("cac:AllowanceCharge")?;
                }
            },
            None => {
                return Err(
                    RechnungError::Arithmetic(
                        string_of("price discount (gross price - net price) out of range"),
                    ),
                );
            },
        },
        None => {},
    }
    proof {
        assert(w@ =~= old(w)@ + price_discount_el(*l, cur@));
    }
    Ok(())
}

fn write_price(w: &mut XmlWriter, l: &LineItem, cur: &str) -> (r: Result<(), RechnungError>)
    ensures
        match r {
            Ok(()) => final(w)@ == old(w)@ + price_el(*l, cur@) && !discount_overflows(*l),
            Err(e) => line_failure(e, discount_overflows(*l)),
        },
{
    w.start_element("cac:Price")?;
    w.amount_element("cbc:PriceAmount", l.unit_price, cur)?;
    write_base_quantity(w, l)?;
    write_price_discount(w, l, cur)?;
    w.end_element("cac:Price")?;
    proof {
        assert(w@ =~= old(w)@ + price_el(*l, cur@));
    }
    Ok(())
}

#[verifier::spinoff_prover]
#[verifier::rlimit(40)]
fn write_line(w: &mut XmlWriter, l: &LineItem, cur: &str) -> (r: Result<(), RechnungError>)
    ensures
        match r {
            Ok(()) => final(w)@ == old(w)@ + ubl_line(*l, cur@) && !discount_overflows(*l),
            Err(e) => line_failure(e, discount_overflows(*l)),
        },
{
    w.start_element("cac:InvoiceLine")?;
    write_line_head(w, l, cur)?;
    write_allowance_charges(w, &l.allowances, cur)?;
    write_allowance_charges(w, &l.charges, cur)?;
    write_item(w, l)?;
    write_price(w, l, cur)?;
    w.end_element("cac:InvoiceLine")?;
    proof {
        assert(w@ =~= old(w)@ + ubl_line(*l, cur@));
    }
    Ok(())
}

fn write_lines(w: &mut XmlWriter, s: &Vec<LineItem>, cur: &str) -> (r: Result<(), RechnungError>)
    ensures
        match r {
            Ok(()) => final(w)@ == old(w)@ + ubl_lines(s@, cur@) && !lines_overflow(s@),
            Err(e) => line_failure(e, lines_overflow(s@)),
        },
{
    proof {
        reveal(ubl_lines);
    }
    let ghost start = w@;
    let mut i: usize = 0;
    while i < s.len()
        invariant
            i <= s@.len(),
            w@ == start + xml_concat(Seq::new(i as nat, |k: int| ubl_line(s@[k], cur@))),
            forall|k: int| 0 <= k < i ==> !discount_overflows(#[trigger] s@[k]),
        decreases s.len() - i,
    {
        let r = write_line(w, &s[i], cur);
        match r {
            Ok(()) => {},
            Err(e) => {
                proof {
                    if discount_overflows(s@[i as int]) {
                        assert(lines_overflow(s@));
                    }
                }
                return Err(e);
            },
        }
        proof {
            let f = |k: int| ubl_line(s@[k], cur@);
            assert(Seq::new((i + 1) as nat, f) =~= Seq::new(i as nat, f).push(f(i as int)));
            lemma_xml_concat_push(Seq::new(i as nat, f), f(i as int));
        }
        i = i + 1;
    }
    Ok(())
}

// ---------------------------------------------------------------- the document

/// A credit note is written as `ubl:CreditNote`, everything else as `ubl:Invoice`.
pub open spec fn ubl_root_tag(inv: Invoice) -> Seq<char> {
    if inv.type_code == InvoiceTypeCode::CreditNote {
        "ubl:CreditNote"@
    } else {
        "ubl:Invoice"@
    }
}

pub open spec fn ubl_root_attrs(inv: Invoice) -> Seq<(Seq<char>, Seq<char>)> {
    seq![
        ("xmlns:ubl"@, if inv.type_code == InvoiceTypeCode::CreditNote {
            ubl_ns::CREDIT_NOTE@
        } else {
            ubl_ns::INVOICE@
        }),
        ("xmlns:cac"@, ubl_ns::CAC@),
        ("xmlns:cbc"@, ubl_ns::CBC@),
    ]
}

/// The content of the root element, section by section.
pub open spec fn ubl_body(inv: Invoice, t: Totals) -> Seq<XmlEv> {
    ubl_head_ids(inv) + ubl_head_texts(inv) + ubl_references(inv) + ubl_parties(inv)
        + ubl_delivery(inv) + ubl_payment(inv) + ubl_allowance_charges(
        inv.allowances@,
        inv.currency_code@,
    ) + ubl_allowance_charges(inv.charges@, inv.currency_code@) + ubl_tax_totals(inv, t)
        + ubl_monetary_total(t, inv.currency_code@) + ubl_lines(inv.lines@, inv.currency_code@)
}

/// The UBL document of an invoice with the given totals.
pub open spec fn ubl_document(inv: Invoice, t: Totals) -> Seq<XmlEv> {
    seq![XmlEv::Decl] + el_attrs(ubl_root_tag(inv), ubl_root_attrs(inv), ubl_body(inv, t))
}

/// The error for an invoice whose totals were not calculated.
pub open spec fn is_totals_missing(e: RechnungError) -> bool {
    e matches RechnungError::Builder(m) && m@ == "totals must be calculated before XML generation"@
}

pub(crate) fn totals_missing() -> (e: RechnungError)
    ensures
        is_totals_missing(e),
{
    RechnungError::Builder(string_of("totals must be calculated before XML generation"))
}

/// What a generator fails with on an invoice with totals: the arithmetic
/// error of a price discount out of range.
pub open spec fn generation_failure(e: RechnungError, lines: Seq<LineItem>) -> bool {
    lines_overflow(lines) && e matches RechnungError::Arithmetic(_)
}

#[verifier::spinoff_prover]
#[verifier::rlimit(40)]
fn write_ubl_body(w: &mut XmlWriter, inv: &Invoice, t: &Totals) -> (r: Result<(), RechnungError>)
    ensures
        match r {
            Ok(()) => final(w)@ == old(w)@ + ubl_body(*inv, *t) && !lines_overflow(inv.lines@),
            Err(e) => line_failure(e, lines_overflow(inv.lines@)),
        },
{
    let cur = inv.currency_code.as_str();
    write_head_ids(w, inv)?;
    write_head_texts(w, inv)?;
    write_references(w, inv)?;
    write_parties(w, inv)?;
    write_delivery(w, inv)?;
    write_payment(w, inv)?;
    write_allowance_charges(w, &inv.allowances, cur)?;
    write_allowance_charges(w, &inv.charges, cur)?;
    write_tax_totals(w, inv, t)?;
    write_monetary_total(w, t, cur)?;
    write_lines(w, &inv.lines, cur)?;
    proof {
        assert(w@ =~= old(w)@ + ubl_body(*inv, *t));
    }
    Ok(())
}

/// Generate XRechnung-compliant UBL 2.1 Invoice XML from an Invoice.
///
/// The invoice's totals must have been calculated. The text is the rendering
/// of `ubl_document`; a credit note becomes a `CreditNote` document.
#[verifier::spinoff_prover]
#[verifier::rlimit(40)]
pub fn to_ubl_xml(invoice: &Invoice) -> (r: Result<String, RechnungError>)
    ensures
        invoice.totals is None ==> (r matches Err(e) && is_totals_missing(e)),
        invoice.totals is Some && !lines_overflow(invoice.lines@) ==> r is Ok,
        match r {
            Ok(s) => invoice.totals matches Some(t) && !lines_overflow(invoice.lines@) && s@
                == xml_rendering(ubl_document(*invoice, t)),
            Err(e) => invoice.totals is None || generation_failure(e, invoice.lines@),
        },
{
    let totals = match &invoice.totals {
        Some(t) => t,
        None => {
            return Err(totals_missing());
        },
    };
    let is_credit_note = invoice.type_code == InvoiceTypeCode::CreditNote;
    let root_tag = if is_credit_note {
        "ubl:CreditNote"
    } else {
        "ubl:Invoice"
    };
    let root_ns = if is_credit_note {
        ubl_ns::CREDIT_NOTE
    } else {
        ubl_ns::INVOICE
    };
    let mut w = XmlWriter::new()?;
    let attrs = [("xmlns:ubl", root_ns), ("xmlns:cac", ubl_ns::CAC), ("xmlns:cbc", ubl_ns::CBC)];
    w.start_element_with_attrs(root_tag, &attrs)?;
    proof {
        reveal_strlit("ubl:CreditNote");
        reveal_strlit("ubl:Invoice");
        assert(attrs_view(attrs@) =~= ubl_root_attrs(*invoice));
    }
    write_ubl_body(&mut w, invoice, totals)?;
    w.end_element(root_tag)?;
    proof {
        assert(w@ =~= ubl_document(*invoice, *totals));
    }
    w.into_string()
}

} // verus!
