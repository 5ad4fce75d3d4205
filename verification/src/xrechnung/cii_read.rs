//! Reading UN/CEFACT CII invoices: the text of each element, by its path,
//! into the fields of a parsed document.
use vstd::prelude::*;
use crate::xrechnung::read::{
    back, is_final, name_is, next_read, on_path, path_has, reader_for, reads_left, reads_wf,
    xml_reads, XmlRead,
};
use crate::xrechnung::ubl_read::{
    attrs_fold, empty_ac, empty_attachment, empty_breakdown, empty_doc, empty_line, empty_preceding, lf, or_empty,
    pa, same_opt_text, same_text, with_f, DocFields, LineFields, ParsedAc, ParsedAttachment,
    ParsedBreakdown, ParsedDoc, ParsedDocV, ParsedLine, ParsedLineV, ParsedPreceding,
};

verus! {

// ---------------------------------------------------------------- where a text stands

pub open spec fn cii_in_line(p: Seq<String>) -> bool {
    on_path(p, "ram:IncludedSupplyChainTradeLineItem"@)
}

pub open spec fn cii_in_settlement(p: Seq<String>) -> bool {
    on_path(p, "ram:ApplicableHeaderTradeSettlement"@)
}

/// What the path says of a text, computed once per text.
pub struct CiiCtx<'a> {
    pub path: &'a Vec<String>,
    pub leaf: &'a str,
    pub parent: &'a str,
    pub in_line: bool,
    pub in_settlement: bool,
}

pub open spec fn cii_ctx_ok(c: CiiCtx) -> bool {
    &&& c.leaf@ == lf(c.path@)
    &&& c.parent@ == pa(c.path@)
    &&& c.in_line == cii_in_line(c.path@)
    &&& c.in_settlement == cii_in_settlement(c.path@)
}

// ---------------------------------------------------------------- header

/// Document-level texts: number, type, dates, notes, references,
/// currencies, and the delivery (date, deliver-to party and address,
/// invoicing period).
pub open spec fn cii_header_block(s: ParsedDocV, p: Seq<String>, t: String) -> ParsedDocV {
    let l = lf(p);
    let pr = pa(p);
    let f = s.f;
    let in_delivery = on_path(p, "ram:ApplicableHeaderTradeDelivery"@) && !cii_in_line(p);
    if l == "ram:ID"@ && pr == "rsm:ExchangedDocument"@ {
        with_f(s, DocFields { number: Some(t), ..f })
    } else if l == "ram:TypeCode"@ && pr == "rsm:ExchangedDocument"@ {
        with_f(s, DocFields { type_code: Some(t), ..f })
    } else if l == "udt:DateTimeString"@ && pr == "ram:IssueDateTime"@ {
        with_f(s, DocFields { issue_date: Some(t), ..f })
    } else if l == "ram:Content"@ && pr == "ram:IncludedNote"@ {
        ParsedDocV { notes: s.notes.push(t), ..s }
    } else if l == "ram:BuyerReference"@ {
        with_f(s, DocFields { buyer_reference: Some(t), ..f })
    } else if l == "ram:IssuerAssignedID"@ && pr == "ram:BuyerOrderReferencedDocument"@ {
        with_f(s, DocFields { order_reference: Some(t), ..f })
    } else if l == "ram:InvoiceCurrencyCode"@ {
        with_f(s, DocFields { currency_code: Some(t), ..f })
    } else if l == "ram:TaxCurrencyCode"@ {
        with_f(s, DocFields { tax_currency_code: Some(t), ..f })
    } else if l == "udt:DateTimeString"@ && pr == "ram:OccurrenceDateTime"@ && on_path(
        p,
        "ram:ActualDeliverySupplyChainEvent"@,
    ) {
        with_f(s, DocFields { delivery_actual_date: Some(t), ..f })
    } else if in_delivery && on_path(p, "ram:ShipToTradeParty"@) && pr == "ram:ShipToTradeParty"@ && l
        == "ram:Name"@ {
        with_f(s, DocFields { delivery_party_name: Some(t), ..f })
    } else if in_delivery && on_path(p, "ram:ShipToTradeParty"@) && pr == "ram:ShipToTradeParty"@ && l
        == "ram:ID"@ {
        with_f(s, DocFields { delivery_party_location_id: Some(t), ..f })
    } else if in_delivery && on_path(p, "ram:PostalTradeAddress"@) && l == "ram:LineOne"@ {
        with_f(s, DocFields { delivery_street: Some(t), ..f })
    } else if in_delivery && on_path(p, "ram:PostalTradeAddress"@) && l == "ram:LineTwo"@ {
        with_f(s, DocFields { delivery_additional: Some(t), ..f })
    } else if in_delivery && on_path(p, "ram:PostalTradeAddress"@) && l == "ram:CityName"@ {
        with_f(s, DocFields { delivery_city: Some(t), ..f })
    } else if in_delivery && on_path(p, "ram:PostalTradeAddress"@) && l == "ram:PostcodeCode"@ {
        with_f(s, DocFields { delivery_postal: Some(t), ..f })
    } else if in_delivery && on_path(p, "ram:PostalTradeAddress"@) && l == "ram:CountrySubDivisionName"@ {
        with_f(s, DocFields { delivery_subdivision: Some(t), ..f })
    } else if in_delivery && on_path(p, "ram:PostalTradeAddress"@) && l == "ram:CountryID"@ {
        with_f(s, DocFields { delivery_country: Some(t), ..f })
    } else if in_delivery && on_path(p, "ram:BillingSpecifiedPeriod"@) && l == "udt:DateTimeString"@ && pr
        == "ram:StartDateTime"@ {
        with_f(s, DocFields { invoicing_period_start: Some(t), ..f })
    } else if in_delivery && on_path(p, "ram:BillingSpecifiedPeriod"@) && l == "udt:DateTimeString"@ && pr
        == "ram:EndDateTime"@ {
        with_f(s, DocFields { invoicing_period_end: Some(t), ..f })
    } else {
        s
    }
}

impl ParsedDoc {
    fn cii_header(&mut self, c: &CiiCtx, t: &String)
        requires
            cii_ctx_ok(*c),
        ensures
            final(self)@ == cii_header_block(old(self)@, c.path@, *t),
    {
        let p = c.path;
        let l = c.leaf;
        let pr = c.parent;
        let in_delivery = path_has(p, "ram:ApplicableHeaderTradeDelivery") && !c.in_line;
        if name_is(l, "ram:ID") && name_is(pr, "rsm:ExchangedDocument") {
            self.f.number = Some(t.clone());
        } else if name_is(l, "ram:TypeCode") && name_is(pr, "rsm:ExchangedDocument") {
            self.f.type_code = Some(t.clone());
        } else if name_is(l, "udt:DateTimeString") && name_is(pr, "ram:IssueDateTime") {
            self.f.issue_date = Some(t.clone());
        } else if name_is(l, "ram:Content") && name_is(pr, "ram:IncludedNote") {
            self.notes.push(t.clone());
        } else if name_is(l, "ram:BuyerReference") {
            self.f.buyer_reference = Some(t.clone());
        } else if name_is(l, "ram:IssuerAssignedID") && name_is(pr, "ram:BuyerOrderReferencedDocument") {
            self.f.order_reference = Some(t.clone());
        } else if name_is(l, "ram:InvoiceCurrencyCode") {
            self.f.currency_code = Some(t.clone());
        } else if name_is(l, "ram:TaxCurrencyCode") {
            self.f.tax_currency_code = Some(t.clone());
        } else if name_is(l, "udt:DateTimeString") && name_is(pr, "ram:OccurrenceDateTime") && path_has(
            p,
            "ram:ActualDeliverySupplyChainEvent",
        ) {
            self.f.delivery_actual_date = Some(t.clone());
        } else if in_delivery && path_has(p, "ram:ShipToTradeParty") && name_is(pr, "ram:ShipToTradeParty")
            && name_is(l, "ram:Name") {
            self.f.delivery_party_name = Some(t.clone());
        } else if in_delivery && path_has(p, "ram:ShipToTradeParty") && name_is(pr, "ram:ShipToTradeParty")
            && name_is(l, "ram:ID") {
            self.f.delivery_party_location_id = Some(t.clone());
        } else if in_delivery && path_has(p, "ram:PostalTradeAddress") && name_is(l, "ram:LineOne") {
            self.f.delivery_street = Some(t.clone());
        } else if in_delivery && path_has(p, "ram:PostalTradeAddress") && name_is(l, "ram:LineTwo") {
            self.f.delivery_additional = Some(t.clone());
        } else if in_delivery && path_has(p, "ram:PostalTradeAddress") && name_is(l, "ram:CityName") {
            self.f.delivery_city = Some(t.clone());
        } else if in_delivery && path_has(p, "ram:PostalTradeAddress") && name_is(l, "ram:PostcodeCode") {
            self.f.delivery_postal = Some(t.clone());
        } else if in_delivery && path_has(p, "ram:PostalTradeAddress") && name_is(
            l,
            "ram:CountrySubDivisionName",
        ) {
            self.f.delivery_subdivision = Some(t.clone());
        } else if in_delivery && path_has(p, "ram:PostalTradeAddress") && name_is(l, "ram:CountryID") {
            self.f.delivery_country = Some(t.clone());
        } else if in_delivery && path_has(p, "ram:BillingSpecifiedPeriod") && name_is(l, "udt:DateTimeString")
            && name_is(pr, "ram:StartDateTime") {
            self.f.invoicing_period_start = Some(t.clone());
        } else if in_delivery && path_has(p, "ram:BillingSpecifiedPeriod") && name_is(l, "udt:DateTimeString")
            && name_is(pr, "ram:EndDateTime") {
            self.f.invoicing_period_end = Some(t.clone());
        }
    }
}

// ---------------------------------------------------------------- references and documents

/// BG-3: inside an invoice reference, the reference being read (begun if
/// there is none) takes the number and the issue date.
pub open spec fn cii_preceding_block(s: ParsedDocV, p: Seq<String>, t: String) -> ParsedDocV {
    if !on_path(p, "ram:InvoiceReferencedDocument"@) {
        s
    } else {
        let l = lf(p);
        let x = match s.current_preceding {
            Some(x) => x,
            None => empty_preceding(),
        };
        let x1 = if l == "ram:IssuerAssignedID"@ {
            ParsedPreceding { number: Some(t), ..x }
        } else {
            x
        };
        let x2 = if l == "udt:DateTimeString"@ && pa(p) == "ram:FormattedIssueDateTime"@ {
            ParsedPreceding { issue_date: Some(t), ..x1 }
        } else {
            x1
        };
        ParsedDocV { current_preceding: Some(x2), ..s }
    }
}

/// BG-24: inside a supporting document outside the lines, the document
/// being read (begun if there is none) takes its reference, description,
/// content and location.
pub open spec fn cii_attachment_block(s: ParsedDocV, p: Seq<String>, t: String) -> ParsedDocV {
    if !on_path(p, "ram:AdditionalReferencedDocument"@) || cii_in_line(p) {
        s
    } else {
        let l = lf(p);
        let pr = pa(p);
        let a = match s.current_attachment {
            Some(x) => x,
            None => empty_attachment(),
        };
        let a1 = if l == "ram:IssuerAssignedID"@ && pr == "ram:AdditionalReferencedDocument"@ {
            ParsedAttachment { id: Some(t), ..a }
        } else {
            a
        };
        let a2 = if l == "ram:Name"@ && pr == "ram:AdditionalReferencedDocument"@ {
            ParsedAttachment { description: Some(t), ..a1 }
        } else {
            a1
        };
        let a3 = if l == "ram:AttachmentBinaryObject"@ {
            ParsedAttachment { content: Some(t), ..a2 }
        } else {
            a2
        };
        let a4 = if l == "ram:URIID"@ && pr == "ram:AdditionalReferencedDocument"@ {
            ParsedAttachment { external_uri: Some(t), ..a3 }
        } else {
            a3
        };
        ParsedDocV { current_attachment: Some(a4), ..s }
    }
}

impl ParsedDoc {
    fn cii_preceding(&mut self, c: &CiiCtx, t: &String)
        requires
            cii_ctx_ok(*c),
        ensures
            final(self)@ == cii_preceding_block(old(self)@, c.path@, *t),
    {
        if !path_has(c.path, "ram:InvoiceReferencedDocument") {
            return ;
        }
        let mut x = match self.current_preceding.take() {
            Some(x) => x,
            None => ParsedPreceding::empty(),
        };
        if name_is(c.leaf, "ram:IssuerAssignedID") {
            x.number = Some(t.clone());
        }
        if name_is(c.leaf, "udt:DateTimeString") && name_is(c.parent, "ram:FormattedIssueDateTime") {
            x.issue_date = Some(t.clone());
        }
        self.current_preceding = Some(x);
    }

    fn cii_attachment(&mut self, c: &CiiCtx, t: &String)
        requires
            cii_ctx_ok(*c),
        ensures
            final(self)@ == cii_attachment_block(old(self)@, c.path@, *t),
    {
        if !path_has(c.path, "ram:AdditionalReferencedDocument") || c.in_line {
            return ;
        }
        let l = c.leaf;
        let pr = c.parent;
        let mut a = match self.current_attachment.take() {
            Some(x) => x,
            None => ParsedAttachment::empty(),
        };
        if name_is(l, "ram:IssuerAssignedID") && name_is(pr, "ram:AdditionalReferencedDocument") {
            a.id = Some(t.clone());
        }
        if name_is(l, "ram:Name") && name_is(pr, "ram:AdditionalReferencedDocument") {
            a.description = Some(t.clone());
        }
        if name_is(l, "ram:AttachmentBinaryObject") {
            a.content = Some(t.clone());
        }
        if name_is(l, "ram:URIID") && name_is(pr, "ram:AdditionalReferencedDocument") {
            a.external_uri = Some(t.clone());
        }
        self.current_attachment = Some(a);
    }
}


// ---------------------------------------------------------------- parties

/// The scheme seen last names a VAT registration.
pub open spec fn scheme_is(f: DocFields, code: Seq<char>) -> bool {
    or_empty(f.current_scheme_id) == code
}

fn scheme_now(f: &DocFields, code: &str) -> (r: bool)
    ensures
        r == scheme_is(*f, code@),
{
    match &f.current_scheme_id {
        Some(x) => name_is(x.as_str(), code),
        None => {
            proof {
                reveal_strlit("");
                assert(""@ =~= Seq::<char>::empty());
            }
            name_is("", code)
        },
    }
}

/// BG-4: the seller, outside the lines. A tax registration identifier is
/// the VAT identifier or the tax number by the scheme seen last.
pub open spec fn cii_seller_block(s: ParsedDocV, p: Seq<String>, t: String) -> ParsedDocV {
    let l = lf(p);
    let pr = pa(p);
    let f = s.f;
    if !on_path(p, "ram:SellerTradeParty"@) || cii_in_line(p) {
        s
    } else if l == "ram:Name"@ && pr == "ram:SellerTradeParty"@ {
        with_f(s, DocFields { seller_name: Some(t), ..f })
    } else if l == "ram:ID"@ && pr == "ram:SpecifiedTaxRegistration"@ {
        let f1 = DocFields { current_scheme_id: None, ..f };
        if scheme_is(f, "VA"@) {
            with_f(s, DocFields { seller_vat_id: Some(t), ..f1 })
        } else if scheme_is(f, "FC"@) {
            with_f(s, DocFields { seller_tax_number: Some(t), ..f1 })
        } else {
            with_f(s, f1)
        }
    } else if l == "ram:ID"@ && pr == "ram:SpecifiedLegalOrganization"@ {
        with_f(s, DocFields { seller_reg_id: Some(t), ..f })
    } else if l == "ram:TradingBusinessName"@ {
        with_f(s, DocFields { seller_trading_name: Some(t), ..f })
    } else if l == "ram:PersonName"@ {
        with_f(s, DocFields { seller_contact_name: Some(t), ..f })
    } else if l == "ram:CompleteNumber"@ {
        with_f(s, DocFields { seller_contact_phone: Some(t), ..f })
    } else if l == "ram:URIID"@ && pr == "ram:EmailURIUniversalCommunication"@ {
        with_f(s, DocFields { seller_contact_email: Some(t), ..f })
    } else if l == "ram:URIID"@ && pr == "ram:URIUniversalCommunication"@ {
        with_f(
            s,
            DocFields {
                seller_endpoint_value: Some(t),
                seller_endpoint_scheme: f.current_scheme_id,
                current_scheme_id: None,
                ..f
            },
        )
    } else if l == "ram:LineOne"@ {
        with_f(s, DocFields { seller_street: Some(t), ..f })
    } else if l == "ram:LineTwo"@ {
        with_f(s, DocFields { seller_additional: Some(t), ..f })
    } else if l == "ram:CityName"@ {
        with_f(s, DocFields { seller_city: Some(t), ..f })
    } else if l == "ram:PostcodeCode"@ {
        with_f(s, DocFields { seller_postal: Some(t), ..f })
    } else if l == "ram:CountryID"@ {
        with_f(s, DocFields { seller_country: Some(t), ..f })
    } else if l == "ram:CountrySubDivisionName"@ {
        with_f(s, DocFields { seller_subdivision: Some(t), ..f })
    } else {
        s
    }
}

/// BG-11: the seller's tax representative, outside the lines.
pub open spec fn cii_tax_rep_block(s: ParsedDocV, p: Seq<String>, t: String) -> ParsedDocV {
    let l = lf(p);
    let pr = pa(p);
    let f = s.f;
    if !on_path(p, "ram:SellerTaxRepresentativeTradeParty"@) || cii_in_line(p) {
        s
    } else if l == "ram:Name"@ && pr == "ram:SellerTaxRepresentativeTradeParty"@ {
        with_f(s, DocFields { tax_rep_name: Some(t), ..f })
    } else if l == "ram:ID"@ && pr == "ram:SpecifiedTaxRegistration"@ {
        let f1 = DocFields { current_scheme_id: None, ..f };
        if scheme_is(f, "VA"@) {
            with_f(s, DocFields { tax_rep_vat_id: Some(t), ..f1 })
        } else {
            with_f(s, f1)
        }
    } else if l == "ram:LineOne"@ {
        with_f(s, DocFields { tax_rep_street: Some(t), ..f })
    } else if l == "ram:LineTwo"@ {
        with_f(s, DocFields { tax_rep_additional: Some(t), ..f })
    } else if l == "ram:CityName"@ {
        with_f(s, DocFields { tax_rep_city: Some(t), ..f })
    } else if l == "ram:PostcodeCode"@ {
        with_f(s, DocFields { tax_rep_postal: Some(t), ..f })
    } else if l == "ram:CountryID"@ {
        with_f(s, DocFields { tax_rep_country: Some(t), ..f })
    } else if l == "ram:CountrySubDivisionName"@ {
        with_f(s, DocFields { tax_rep_subdivision: Some(t), ..f })
    } else {
        s
    }
}

/// BG-7: the buyer, outside the lines. A tax registration identifier is
/// the VAT identifier or the tax number by the scheme seen last.
pub open spec fn cii_buyer_block(s: ParsedDocV, p: Seq<String>, t: String) -> ParsedDocV {
    let l = lf(p);
    let pr = pa(p);
    let f = s.f;
    if !on_path(p, "ram:BuyerTradeParty"@) || cii_in_line(p) {
        s
    } else if l == "ram:Name"@ && pr == "ram:BuyerTradeParty"@ {
        with_f(s, DocFields { buyer_name: Some(t), ..f })
    } else if l == "ram:ID"@ && pr == "ram:SpecifiedTaxRegistration"@ {
        let f1 = DocFields { current_scheme_id: None, ..f };
        if scheme_is(f, "VA"@) {
            with_f(s, DocFields { buyer_vat_id: Some(t), ..f1 })
        } else if scheme_is(f, "FC"@) {
            with_f(s, DocFields { buyer_tax_number: Some(t), ..f1 })
        } else {
            with_f(s, f1)
        }
    } else if l == "ram:ID"@ && pr == "ram:SpecifiedLegalOrganization"@ {
        with_f(s, DocFields { buyer_reg_id: Some(t), ..f })
    } else if l == "ram:TradingBusinessName"@ {
        with_f(s, DocFields { buyer_trading_name: Some(t), ..f })
    } else if l == "ram:PersonName"@ {
        with_f(s, DocFields { buyer_contact_name: Some(t), ..f })
    } else if l == "ram:CompleteNumber"@ {
        with_f(s, DocFields { buyer_contact_phone: Some(t), ..f })
    } else if l == "ram:URIID"@ && pr == "ram:EmailURIUniversalCommunication"@ {
        with_f(s, DocFields { buyer_contact_email: Some(t), ..f })
    } else if l == "ram:URIID"@ && pr == "ram:URIUniversalCommunication"@ {
        with_f(
            s,
            DocFields {
                buyer_endpoint_value: Some(t),
                buyer_endpoint_scheme: f.current_scheme_id,
                current_scheme_id: None,
                ..f
            },
        )
    } else if l == "ram:LineOne"@ {
        with_f(s, DocFields { buyer_street: Some(t), ..f })
    } else if l == "ram:LineTwo"@ {
        with_f(s, DocFields { buyer_additional: Some(t), ..f })
    } else if l == "ram:CityName"@ {
        with_f(s, DocFields { buyer_city: Some(t), ..f })
    } else if l == "ram:PostcodeCode"@ {
        with_f(s, DocFields { buyer_postal: Some(t), ..f })
    } else if l == "ram:CountryID"@ {
        with_f(s, DocFields { buyer_country: Some(t), ..f })
    } else if l == "ram:CountrySubDivisionName"@ {
        with_f(s, DocFields { buyer_subdivision: Some(t), ..f })
    } else {
        s
    }
}

/// BG-10: the payee, outside the lines.
pub open spec fn cii_payee_block(s: ParsedDocV, p: Seq<String>, t: String) -> ParsedDocV {
    let l = lf(p);
    let pr = pa(p);
    let f = s.f;
    if !on_path(p, "ram:PayeeTradeParty"@) || cii_in_line(p) {
        s
    } else if l == "ram:Name"@ && pr == "ram:PayeeTradeParty"@ {
        with_f(s, DocFields { payee_name: Some(t), ..f })
    } else if l == "ram:ID"@ && pr == "ram:PayeeTradeParty"@ {
        with_f(s, DocFields { payee_identifier: Some(t), ..f })
    } else if l == "ram:ID"@ && pr == "ram:SpecifiedLegalOrganization"@ {
        with_f(s, DocFields { payee_legal_reg_id: Some(t), ..f })
    } else {
        s
    }
}

impl ParsedDoc {
    fn cii_seller(&mut self, c: &CiiCtx, t: &String)
        requires
            cii_ctx_ok(*c),
        ensures
            final(self)@ == cii_seller_block(old(self)@, c.path@, *t),
    {
        let l = c.leaf;
        let pr = c.parent;
        if !path_has(c.path, "ram:SellerTradeParty") || c.in_line {
        } else if name_is(l, "ram:Name") && name_is(pr, "ram:SellerTradeParty") {
            self.f.seller_name = Some(t.clone());
        } else if name_is(l, "ram:ID") && name_is(pr, "ram:SpecifiedTaxRegistration") {
            let va = scheme_now(&self.f, "VA");
            let fc = scheme_now(&self.f, "FC");
            self.f.current_scheme_id = None;
            if va {
                self.f.seller_vat_id = Some(t.clone());
            } else if fc {
                self.f.seller_tax_number = Some(t.clone());
            }
        } else if name_is(l, "ram:ID") && name_is(pr, "ram:SpecifiedLegalOrganization") {
            self.f.seller_reg_id = Some(t.clone());
        } else if name_is(l, "ram:TradingBusinessName") {
            self.f.seller_trading_name = Some(t.clone());
        } else if name_is(l, "ram:PersonName") {
            self.f.seller_contact_name = Some(t.clone());
        } else if name_is(l, "ram:CompleteNumber") {
            self.f.seller_contact_phone = Some(t.clone());
        } else if name_is(l, "ram:URIID") && name_is(pr, "ram:EmailURIUniversalCommunication") {
            self.f.seller_contact_email = Some(t.clone());
        } else if name_is(l, "ram:URIID") && name_is(pr, "ram:URIUniversalCommunication") {
            self.f.seller_endpoint_value = Some(t.clone());
            self.f.seller_endpoint_scheme = self.f.current_scheme_id.take();
        } else if name_is(l, "ram:LineOne") {
            self.f.seller_street = Some(t.clone());
        } else if name_is(l, "ram:LineTwo") {
            self.f.seller_additional = Some(t.clone());
        } else if name_is(l, "ram:CityName") {
            self.f.seller_city = Some(t.clone());
        } else if name_is(l, "ram:PostcodeCode") {
            self.f.seller_postal = Some(t.clone());
        } else if name_is(l, "ram:CountryID") {
            self.f.seller_country = Some(t.clone());
        } else if name_is(l, "ram:CountrySubDivisionName") {
            self.f.seller_subdivision = Some(t.clone());
        }
    }

    fn cii_tax_rep(&mut self, c: &CiiCtx, t: &String)
        requires
            cii_ctx_ok(*c),
        ensures
            final(self)@ == cii_tax_rep_block(old(self)@, c.path@, *t),
    {
        let l = c.leaf;
        let pr = c.parent;
        if !path_has(c.path, "ram:SellerTaxRepresentativeTradeParty") || c.in_line {
        } else if name_is(l, "ram:Name") && name_is(pr, "ram:SellerTaxRepresentativeTradeParty") {
            self.f.tax_rep_name = Some(t.clone());
        } else if name_is(l, "ram:ID") && name_is(pr, "ram:SpecifiedTaxRegistration") {
            let va = scheme_now(&self.f, "VA");
            self.f.current_scheme_id = None;
            if va {
                self.f.tax_rep_vat_id = Some(t.clone());
            }
        } else if name_is(l, "ram:LineOne") {
            self.f.tax_rep_street = Some(t.clone());
        } else if name_is(l, "ram:LineTwo") {
            self.f.tax_rep_additional = Some(t.clone());
        } else if name_is(l, "ram:CityName") {
            self.f.tax_rep_city = Some(t.clone());
        } else if name_is(l, "ram:PostcodeCode") {
            self.f.tax_rep_postal = Some(t.clone());
        } else if name_is(l, "ram:CountryID") {
            self.f.tax_rep_country = Some(t.clone());
        } else if name_is(l, "ram:CountrySubDivisionName") {
            self.f.tax_rep_subdivision = Some(t.clone());
        }
    }

    fn cii_buyer(&mut self, c: &CiiCtx, t: &String)
        requires
            cii_ctx_ok(*c),
        ensures
            final(self)@ == cii_buyer_block(old(self)@, c.path@, *t),
    {
        let l = c.leaf;
        let pr = c.parent;
        if !path_has(c.path, "ram:BuyerTradeParty") || c.in_line {
        } else if name_is(l, "ram:Name") && name_is(pr, "ram:BuyerTradeParty") {
            self.f.buyer_name = Some(t.clone());
        } else if name_is(l, "ram:ID") && name_is(pr, "ram:SpecifiedTaxRegistration") {
            let va = scheme_now(&self.f, "VA");
            let fc = scheme_now(&self.f, "FC");
            self.f.current_scheme_id = None;
            if va {
                self.f.buyer_vat_id = Some(t.clone());
            } else if fc {
                self.f.buyer_tax_number = Some(t.clone());
            }
        } else if name_is(l, "ram:ID") && name_is(pr, "ram:SpecifiedLegalOrganization") {
            self.f.buyer_reg_id = Some(t.clone());
        } else if name_is(l, "ram:TradingBusinessName") {
            self.f.buyer_trading_name = Some(t.clone());
        } else if name_is(l, "ram:PersonName") {
            self.f.buyer_contact_name = Some(t.clone());
        } else if name_is(l, "ram:CompleteNumber") {
            self.f.buyer_contact_phone = Some(t.clone());
        } else if name_is(l, "ram:URIID") && name_is(pr, "ram:EmailURIUniversalCommunication") {
            self.f.buyer_contact_email = Some(t.clone());
        } else if name_is(l, "ram:URIID") && name_is(pr, "ram:URIUniversalCommunication") {
            self.f.buyer_endpoint_value = Some(t.clone());
            self.f.buyer_endpoint_scheme = self.f.current_scheme_id.take();
        } else if name_is(l, "ram:LineOne") {
            self.f.buyer_street = Some(t.clone());
        } else if name_is(l, "ram:LineTwo") {
            self.f.buyer_additional = Some(t.clone());
        } else if name_is(l, "ram:CityName") {
            self.f.buyer_city = Some(t.clone());
        } else if name_is(l, "ram:PostcodeCode") {
            self.f.buyer_postal = Some(t.clone());
        } else if name_is(l, "ram:CountryID") {
            self.f.buyer_country = Some(t.clone());
        } else if name_is(l, "ram:CountrySubDivisionName") {
            self.f.buyer_subdivision = Some(t.clone());
        }
    }

    fn cii_payee(&mut self, c: &CiiCtx, t: &String)
        requires
            cii_ctx_ok(*c),
        ensures
            final(self)@ == cii_payee_block(old(self)@, c.path@, *t),
    {
        let l = c.leaf;
        let pr = c.parent;
        if !path_has(c.path, "ram:PayeeTradeParty") || c.in_line {
        } else if name_is(l, "ram:Name") && name_is(pr, "ram:PayeeTradeParty") {
            self.f.payee_name = Some(t.clone());
        } else if name_is(l, "ram:ID") && name_is(pr, "ram:PayeeTradeParty") {
            self.f.payee_identifier = Some(t.clone());
        } else if name_is(l, "ram:ID") && name_is(pr, "ram:SpecifiedLegalOrganization") {
            self.f.payee_legal_reg_id = Some(t.clone());
        }
    }
}


// ---------------------------------------------------------------- settlement

/// BG-16 to BG-19 and the due date, in the header settlement outside the
/// lines.
pub open spec fn cii_payment_block(s: ParsedDocV, p: Seq<String>, t: String) -> ParsedDocV {
    let l = lf(p);
    let pr = pa(p);
    let f = s.f;
    let in_card = on_path(p, "ram:ApplicableTradeSettlementFinancialCard"@);
    if !cii_in_settlement(p) || cii_in_line(p) {
        s
    } else if l == "ram:TypeCode"@ && pr == "ram:SpecifiedTradeSettlementPaymentMeans"@ {
        with_f(s, DocFields { payment_means_code: Some(t), ..f })
    } else if l == "ram:Information"@ && pr == "ram:SpecifiedTradeSettlementPaymentMeans"@ {
        with_f(s, DocFields { payment_means_text: Some(t), ..f })
    } else if l == "ram:PaymentReference"@ {
        with_f(s, DocFields { payment_remittance_info: Some(t), ..f })
    } else if l == "ram:ID"@ && in_card {
        with_f(s, DocFields { card_account_number: Some(t), ..f })
    } else if l == "ram:CardholderName"@ && in_card {
        with_f(s, DocFields { card_holder_name: Some(t), ..f })
    } else if l == "ram:DirectDebitMandateID"@ {
        with_f(s, DocFields { direct_debit_mandate_id: Some(t), ..f })
    } else if l == "ram:CreditorReferenceID"@ {
        with_f(s, DocFields { direct_debit_creditor_id: Some(t), ..f })
    } else if l == "ram:IBANID"@ {
        if on_path(p, "ram:PayerPartyDebtorFinancialAccount"@) {
            with_f(s, DocFields { direct_debit_account_id: Some(t), ..f })
        } else {
            with_f(s, DocFields { payment_iban: Some(t), ..f })
        }
    } else if l == "ram:BICID"@ {
        with_f(s, DocFields { payment_bic: Some(t), ..f })
    } else if l == "ram:AccountName"@ && pr == "ram:PayeePartyCreditorFinancialAccount"@ {
        with_f(s, DocFields { payment_account_name: Some(t), ..f })
    } else if l == "ram:Description"@ && pr == "ram:SpecifiedTradePaymentTerms"@ {
        with_f(s, DocFields { payment_terms: Some(t), ..f })
    } else if l == "udt:DateTimeString"@ && pr == "ram:DueDateDateTime"@ {
        with_f(s, DocFields { due_date: Some(t), ..f })
    } else {
        s
    }
}

/// BG-20/BG-21: in a header-level allowance or charge, the one being read
/// (begun if there is none) takes its indicator, amount, reason and, under
/// its tax category, the category and rate.
pub open spec fn cii_doc_ac_block(s: ParsedDocV, p: Seq<String>, t: String) -> ParsedDocV {
    if !on_path(p, "ram:SpecifiedTradeAllowanceCharge"@) || !cii_in_settlement(p) || cii_in_line(p) {
        s
    } else {
        let l = lf(p);
        let a = match s.current_doc_ac {
            Some(x) => x,
            None => empty_ac(),
        };
        let in_cat = on_path(p, "ram:CategoryTradeTax"@);
        let a1 = if l == "ram:ChargeIndicator"@ {
            ParsedAc { is_charge: Some(t), ..a }
        } else if l == "ram:ActualAmount"@ {
            ParsedAc { amount: Some(t), ..a }
        } else if l == "ram:Reason"@ {
            ParsedAc { reason: Some(t), ..a }
        } else if l == "ram:ReasonCode"@ {
            ParsedAc { reason_code: Some(t), ..a }
        } else if l == "ram:CategoryCode"@ && in_cat {
            ParsedAc { tax_category: Some(t), ..a }
        } else if l == "ram:RateApplicablePercent"@ && in_cat {
            ParsedAc { tax_rate: Some(t), ..a }
        } else {
            a
        };
        ParsedDocV { current_doc_ac: Some(a1), ..s }
    }
}

/// BG-23: in a header tax, the breakdown being read (begun if there is
/// none) takes its amounts, category, rate and exemption.
pub open spec fn cii_breakdown_block(s: ParsedDocV, p: Seq<String>, t: String) -> ParsedDocV {
    if !on_path(p, "ram:ApplicableTradeTax"@) || !cii_in_settlement(p) || cii_in_line(p) {
        s
    } else {
        let l = lf(p);
        let b = match s.current_breakdown {
            Some(x) => x,
            None => empty_breakdown(),
        };
        let b1 = if l == "ram:CalculatedAmount"@ {
            ParsedBreakdown { tax_amount: Some(t), ..b }
        } else if l == "ram:BasisAmount"@ {
            ParsedBreakdown { taxable_amount: Some(t), ..b }
        } else if l == "ram:CategoryCode"@ {
            ParsedBreakdown { category_id: Some(t), ..b }
        } else if l == "ram:RateApplicablePercent"@ {
            ParsedBreakdown { percent: Some(t), ..b }
        } else if l == "ram:ExemptionReason"@ {
            ParsedBreakdown { exemption_reason: Some(t), ..b }
        } else if l == "ram:ExemptionReasonCode"@ {
            ParsedBreakdown { exemption_reason_code: Some(t), ..b }
        } else {
            b
        };
        ParsedDocV { current_breakdown: Some(b1), ..s }
    }
}

/// The tax total just read is in the tax currency: the currency seen last
/// is not the document currency, but is the given tax currency.
pub open spec fn cii_tax_currency(f: DocFields) -> bool {
    &&& !same_text(f.current_currency_id, f.currency_code)
    &&& f.tax_currency_code is Some
    &&& same_text(f.current_currency_id, f.tax_currency_code)
}

/// BG-22: the monetary summation.
pub open spec fn cii_totals_block(s: ParsedDocV, p: Seq<String>, t: String) -> ParsedDocV {
    let l = lf(p);
    let f = s.f;
    if !on_path(p, "ram:SpecifiedTradeSettlementHeaderMonetarySummation"@) {
        s
    } else if l == "ram:LineTotalAmount"@ {
        with_f(s, DocFields { line_extension_amount: Some(t), ..f })
    } else if l == "ram:TaxBasisTotalAmount"@ {
        with_f(s, DocFields { tax_exclusive_amount: Some(t), ..f })
    } else if l == "ram:TaxTotalAmount"@ {
        let f1 = if cii_tax_currency(f) {
            DocFields { tax_total_in_tax_currency: Some(t), ..f }
        } else {
            DocFields { tax_amount: Some(t), ..f }
        };
        with_f(s, DocFields { current_currency_id: None, ..f1 })
    } else if l == "ram:GrandTotalAmount"@ {
        with_f(s, DocFields { tax_inclusive_amount: Some(t), ..f })
    } else if l == "ram:DuePayableAmount"@ {
        with_f(s, DocFields { payable_amount: Some(t), ..f })
    } else if l == "ram:TotalPrepaidAmount"@ {
        with_f(s, DocFields { prepaid_amount: Some(t), ..f })
    } else if l == "ram:AllowanceTotalAmount"@ {
        with_f(s, DocFields { allowance_total_amount: Some(t), ..f })
    } else if l == "ram:ChargeTotalAmount"@ {
        with_f(s, DocFields { charge_total_amount: Some(t), ..f })
    } else {
        s
    }
}

impl ParsedDoc {
    fn cii_payment(&mut self, c: &CiiCtx, t: &String)
        requires
            cii_ctx_ok(*c),
        ensures
            final(self)@ == cii_payment_block(old(self)@, c.path@, *t),
    {
        let p = c.path;
        let l = c.leaf;
        let pr = c.parent;
        let in_card = path_has(p, "ram:ApplicableTradeSettlementFinancialCard");
        if !c.in_settlement || c.in_line {
        } else if name_is(l, "ram:TypeCode") && name_is(pr, "ram:SpecifiedTradeSettlementPaymentMeans") {
            self.f.payment_means_code = Some(t.clone());
        } else if name_is(l, "ram:Information") && name_is(pr, "ram:SpecifiedTradeSettlementPaymentMeans") {
            self.f.payment_means_text = Some(t.clone());
        } else if name_is(l, "ram:PaymentReference") {
            self.f.payment_remittance_info = Some(t.clone());
        } else if name_is(l, "ram:ID") && in_card {
            self.f.card_account_number = Some(t.clone());
        } else if name_is(l, "ram:CardholderName") && in_card {
            self.f.card_holder_name = Some(t.clone());
        } else if name_is(l, "ram:DirectDebitMandateID") {
            self.f.direct_debit_mandate_id = Some(t.clone());
        } else if name_is(l, "ram:CreditorReferenceID") {
            self.f.direct_debit_creditor_id = Some(t.clone());
        } else if name_is(l, "ram:IBANID") {
            if path_has(p, "ram:PayerPartyDebtorFinancialAccount") {
                self.f.direct_debit_account_id = Some(t.clone());
            } else {
                self.f.payment_iban = Some(t.clone());
            }
        } else if name_is(l, "ram:BICID") {
            self.f.payment_bic = Some(t.clone());
        } else if name_is(l, "ram:AccountName") && name_is(pr, "ram:PayeePartyCreditorFinancialAccount") {
            self.f.payment_account_name = Some(t.clone());
        } else if name_is(l, "ram:Description") && name_is(pr, "ram:SpecifiedTradePaymentTerms") {
            self.f.payment_terms = Some(t.clone());
        } else if name_is(l, "udt:DateTimeString") && name_is(pr, "ram:DueDateDateTime") {
            self.f.due_date = Some(t.clone());
        }
    }

    fn cii_doc_ac(&mut self, c: &CiiCtx, t: &String)
        requires
            cii_ctx_ok(*c),
        ensures
            final(self)@ == cii_doc_ac_block(old(self)@, c.path@, *t),
    {
        let p = c.path;
        if !path_has(p, "ram:SpecifiedTradeAllowanceCharge") || !c.in_settlement || c.in_line {
            return ;
        }
        let l = c.leaf;
        let mut a = match self.current_doc_ac.take() {
            Some(x) => x,
            None => ParsedAc::empty(),
        };
        let in_cat = path_has(p, "ram:CategoryTradeTax");
        if name_is(l, "ram:ChargeIndicator") {
            a.is_charge = Some(t.clone());
        } else if name_is(l, "ram:ActualAmount") {
            a.amount = Some(t.clone());
        } else if name_is(l, "ram:Reason") {
            a.reason = Some(t.clone());
        } else if name_is(l, "ram:ReasonCode") {
            a.reason_code = Some(t.clone());
        } else if name_is(l, "ram:CategoryCode") && in_cat {
            a.tax_category = Some(t.clone());
        } else if name_is(l, "ram:RateApplicablePercent") && in_cat {
            a.tax_rate = Some(t.clone());
        }
        self.current_doc_ac = Some(a);
    }

    fn cii_breakdown(&mut self, c: &CiiCtx, t: &String)
        requires
            cii_ctx_ok(*c),
        ensures
            final(self)@ == cii_breakdown_block(old(self)@, c.path@, *t),
    {
        if !path_has(c.path, "ram:ApplicableTradeTax") || !c.in_settlement || c.in_line {
            return ;
        }
        let l = c.leaf;
        let mut b = match self.current_breakdown.take() {
            Some(x) => x,
            None => ParsedBreakdown::empty(),
        };
        if name_is(l, "ram:CalculatedAmount") {
            b.tax_amount = Some(t.clone());
        } else if name_is(l, "ram:BasisAmount") {
            b.taxable_amount = Some(t.clone());
        } else if name_is(l, "ram:CategoryCode") {
            b.category_id = Some(t.clone());
        } else if name_is(l, "ram:RateApplicablePercent") {
            b.percent = Some(t.clone());
        } else if name_is(l, "ram:ExemptionReason") {
            b.exemption_reason = Some(t.clone());
        } else if name_is(l, "ram:ExemptionReasonCode") {
            b.exemption_reason_code = Some(t.clone());
        }
        self.current_breakdown = Some(b);
    }

    fn cii_totals(&mut self, c: &CiiCtx, t: &String)
        requires
            cii_ctx_ok(*c),
        ensures
            final(self)@ == cii_totals_block(old(self)@, c.path@, *t),
    {
        let l = c.leaf;
        if !path_has(c.path, "ram:SpecifiedTradeSettlementHeaderMonetarySummation") {
        } else if name_is(l, "ram:LineTotalAmount") {
            self.f.line_extension_amount = Some(t.clone());
        } else if name_is(l, "ram:TaxBasisTotalAmount") {
            self.f.tax_exclusive_amount = Some(t.clone());
        } else if name_is(l, "ram:TaxTotalAmount") {
            let in_tax_currency = !same_opt_text(&self.f.current_currency_id, &self.f.currency_code)
                && self.f.tax_currency_code.is_some() && same_opt_text(
                &self.f.current_currency_id,
                &self.f.tax_currency_code,
            );
            if in_tax_currency {
                self.f.tax_total_in_tax_currency = Some(t.clone());
            } else {
                self.f.tax_amount = Some(t.clone());
            }
            self.f.current_currency_id = None;
        } else if name_is(l, "ram:GrandTotalAmount") {
            self.f.tax_inclusive_amount = Some(t.clone());
        } else if name_is(l, "ram:DuePayableAmount") {
            self.f.payable_amount = Some(t.clone());
        } else if name_is(l, "ram:TotalPrepaidAmount") {
            self.f.prepaid_amount = Some(t.clone());
        } else if name_is(l, "ram:AllowanceTotalAmount") {
            self.f.allowance_total_amount = Some(t.clone());
        } else if name_is(l, "ram:ChargeTotalAmount") {
            self.f.charge_total_amount = Some(t.clone());
        }
    }
}


// ---------------------------------------------------------------- lines

/// A text inside a line: an item attribute, the line's period, a line
/// allowance or charge, or a field of the line. The quantities take the
/// unit, and the standard identifier the scheme, seen last.
pub open spec fn cii_line_step(line: ParsedLineV, f: DocFields, p: Seq<String>, t: String) -> (
    ParsedLineV,
    DocFields,
) {
    let l = lf(p);
    let pr = pa(p);
    let lfd = line.f;
    if on_path(p, "ram:ApplicableProductCharacteristic"@) {
        if l == "ram:Description"@ && pr == "ram:ApplicableProductCharacteristic"@ {
            (ParsedLineV { f: LineFields { current_attr_name: Some(t), ..lfd }, ..line }, f)
        } else if l == "ram:Value"@ && pr == "ram:ApplicableProductCharacteristic"@ {
            (
                ParsedLineV {
                    f: LineFields { current_attr_name: None, ..lfd },
                    attributes: line.attributes.push((or_empty(lfd.current_attr_name), t@)),
                    ..line
                },
                f,
            )
        } else {
            (line, f)
        }
    } else if on_path(p, "ram:BillingSpecifiedPeriod"@) {
        if l == "udt:DateTimeString"@ && pr == "ram:StartDateTime"@ {
            (ParsedLineV { f: LineFields { invoicing_period_start: Some(t), ..lfd }, ..line }, f)
        } else if l == "udt:DateTimeString"@ && pr == "ram:EndDateTime"@ {
            (ParsedLineV { f: LineFields { invoicing_period_end: Some(t), ..lfd }, ..line }, f)
        } else {
            (line, f)
        }
    } else if on_path(p, "ram:SpecifiedTradeAllowanceCharge"@) {
        let a = match line.current_ac {
            Some(x) => x,
            None => empty_ac(),
        };
        let a1 = if l == "ram:ChargeIndicator"@ {
            ParsedAc { is_charge: Some(t), ..a }
        } else if l == "ram:ActualAmount"@ {
            ParsedAc { amount: Some(t), ..a }
        } else if l == "ram:Reason"@ {
            ParsedAc { reason: Some(t), ..a }
        } else if l == "ram:ReasonCode"@ {
            ParsedAc { reason_code: Some(t), ..a }
        } else if l == "ram:CategoryCode"@ {
            ParsedAc { tax_category: Some(t), ..a }
        } else if l == "ram:RateApplicablePercent"@ {
            ParsedAc { tax_rate: Some(t), ..a }
        } else {
            a
        };
        (ParsedLineV { current_ac: Some(a1), ..line }, f)
    } else if l == "ram:LineID"@ {
        (ParsedLineV { f: LineFields { id: Some(t), ..lfd }, ..line }, f)
    } else if l == "ram:Content"@ && pr == "ram:IncludedNote"@ && on_path(
        p,
        "ram:AssociatedDocumentLineDocument"@,
    ) {
        (ParsedLineV { f: LineFields { note: Some(t), ..lfd }, ..line }, f)
    } else if l == "ram:Name"@ && pr == "ram:SpecifiedTradeProduct"@ {
        (ParsedLineV { f: LineFields { item_name: Some(t), ..lfd }, ..line }, f)
    } else if l == "ram:Description"@ && pr == "ram:SpecifiedTradeProduct"@ {
        (ParsedLineV { f: LineFields { description: Some(t), ..lfd }, ..line }, f)
    } else if l == "ram:SellerAssignedID"@ {
        (ParsedLineV { f: LineFields { seller_item_id: Some(t), ..lfd }, ..line }, f)
    } else if l == "ram:BuyerAssignedID"@ {
        (ParsedLineV { f: LineFields { buyer_item_id: Some(t), ..lfd }, ..line }, f)
    } else if l == "ram:GlobalID"@ {
        (
            ParsedLineV {
                f: LineFields {
                    standard_item_id: Some(t),
                    standard_item_scheme: f.current_scheme_id,
                    ..lfd
                },
                ..line
            },
            DocFields { current_scheme_id: None, ..f },
        )
    } else if l == "ram:BilledQuantity"@ {
        (
            ParsedLineV { f: LineFields { quantity: Some(t), unit: f.current_unit_code, ..lfd }, ..line },
            DocFields { current_unit_code: None, ..f },
        )
    } else if l == "ram:BasisQuantity"@ {
        (
            ParsedLineV {
                f: LineFields { base_quantity: Some(t), base_quantity_unit: f.current_unit_code, ..lfd },
                ..line
            },
            DocFields { current_unit_code: None, ..f },
        )
    } else if l == "ram:ChargeAmount"@ && pr == "ram:NetPriceProductTradePrice"@ {
        (ParsedLineV { f: LineFields { unit_price: Some(t), ..lfd }, ..line }, f)
    } else if l == "ram:ChargeAmount"@ && pr == "ram:GrossPriceProductTradePrice"@ {
        (ParsedLineV { f: LineFields { gross_price: Some(t), ..lfd }, ..line }, f)
    } else if l == "ram:LineTotalAmount"@ {
        (ParsedLineV { f: LineFields { line_amount: Some(t), ..lfd }, ..line }, f)
    } else if l == "ram:CategoryCode"@ && on_path(p, "ram:ApplicableTradeTax"@) {
        (ParsedLineV { f: LineFields { tax_category: Some(t), ..lfd }, ..line }, f)
    } else if l == "ram:RateApplicablePercent"@ && on_path(p, "ram:ApplicableTradeTax"@) {
        (ParsedLineV { f: LineFields { tax_rate: Some(t), ..lfd }, ..line }, f)
    } else if l == "ram:ID"@ && pr == "ram:OriginTradeCountry"@ {
        (ParsedLineV { f: LineFields { origin_country: Some(t), ..lfd }, ..line }, f)
    } else {
        (line, f)
    }
}

/// BG-25: inside a line, the line being read (begun if there is none) takes
/// the text.
pub open spec fn cii_line_block(s: ParsedDocV, p: Seq<String>, t: String) -> ParsedDocV {
    if !cii_in_line(p) {
        s
    } else {
        let line = match s.current_line {
            Some(x) => x,
            None => empty_line(),
        };
        let r = cii_line_step(line, s.f, p, t);
        ParsedDocV { current_line: Some(r.0), f: r.1, ..s }
    }
}

fn apply_cii_line_ac(a: &mut ParsedAc, l: &str, t: &String)
    ensures
        *final(a) == (if l@ == "ram:ChargeIndicator"@ {
            ParsedAc { is_charge: Some(*t), ..*old(a) }
        } else if l@ == "ram:ActualAmount"@ {
            ParsedAc { amount: Some(*t), ..*old(a) }
        } else if l@ == "ram:Reason"@ {
            ParsedAc { reason: Some(*t), ..*old(a) }
        } else if l@ == "ram:ReasonCode"@ {
            ParsedAc { reason_code: Some(*t), ..*old(a) }
        } else if l@ == "ram:CategoryCode"@ {
            ParsedAc { tax_category: Some(*t), ..*old(a) }
        } else if l@ == "ram:RateApplicablePercent"@ {
            ParsedAc { tax_rate: Some(*t), ..*old(a) }
        } else {
            *old(a)
        }),
{
    if name_is(l, "ram:ChargeIndicator") {
        a.is_charge = Some(t.clone());
    } else if name_is(l, "ram:ActualAmount") {
        a.amount = Some(t.clone());
    } else if name_is(l, "ram:Reason") {
        a.reason = Some(t.clone());
    } else if name_is(l, "ram:ReasonCode") {
        a.reason_code = Some(t.clone());
    } else if name_is(l, "ram:CategoryCode") {
        a.tax_category = Some(t.clone());
    } else if name_is(l, "ram:RateApplicablePercent") {
        a.tax_rate = Some(t.clone());
    }
}

fn apply_cii_line_text(line: &mut ParsedLine, f: &mut DocFields, c: &CiiCtx, t: &String)
    requires
        cii_ctx_ok(*c),
    ensures
        (final(line)@, *final(f)) == cii_line_step(old(line)@, *old(f), c.path@, *t),
{
    let p = c.path;
    let l = c.leaf;
    let pr = c.parent;
    if path_has(p, "ram:ApplicableProductCharacteristic") {
        if name_is(l, "ram:Description") && name_is(pr, "ram:ApplicableProductCharacteristic") {
            line.f.current_attr_name = Some(t.clone());
        } else if name_is(l, "ram:Value") && name_is(pr, "ram:ApplicableProductCharacteristic") {
            let name = match line.f.current_attr_name.take() {
                Some(n) => n,
                None => String::new(),
            };
            line.attributes.push((name, t.clone()));
            proof {
                assert(line@.attributes =~= old(line)@.attributes.push(
                    (or_empty(old(line)@.f.current_attr_name), t@),
                ));
            }
        }
    } else if path_has(p, "ram:BillingSpecifiedPeriod") {
        if name_is(l, "udt:DateTimeString") && name_is(pr, "ram:StartDateTime") {
            line.f.invoicing_period_start = Some(t.clone());
        } else if name_is(l, "udt:DateTimeString") && name_is(pr, "ram:EndDateTime") {
            line.f.invoicing_period_end = Some(t.clone());
        }
    } else if path_has(p, "ram:SpecifiedTradeAllowanceCharge") {
        let mut a = match line.current_ac.take() {
            Some(x) => x,
            None => ParsedAc::empty(),
        };
        apply_cii_line_ac(&mut a, l, t);
        line.current_ac = Some(a);
    } else if name_is(l, "ram:LineID") {
        line.f.id = Some(t.clone());
    } else if name_is(l, "ram:Content") && name_is(pr, "ram:IncludedNote") && path_has(
        p,
        "ram:AssociatedDocumentLineDocument",
    ) {
        line.f.note = Some(t.clone());
    } else if name_is(l, "ram:Name") && name_is(pr, "ram:SpecifiedTradeProduct") {
        line.f.item_name = Some(t.clone());
    } else if name_is(l, "ram:Description") && name_is(pr, "ram:SpecifiedTradeProduct") {
        line.f.description = Some(t.clone());
    } else if name_is(l, "ram:SellerAssignedID") {
        line.f.seller_item_id = Some(t.clone());
    } else if name_is(l, "ram:BuyerAssignedID") {
        line.f.buyer_item_id = Some(t.clone());
    } else if name_is(l, "ram:GlobalID") {
        line.f.standard_item_id = Some(t.clone());
        line.f.standard_item_scheme = f.current_scheme_id.take();
    } else if name_is(l, "ram:BilledQuantity") {
        line.f.quantity = Some(t.clone());
        line.f.unit = f.current_unit_code.take();
    } else if name_is(l, "ram:BasisQuantity") {
        line.f.base_quantity = Some(t.clone());
        line.f.base_quantity_unit = f.current_unit_code.take();
    } else if name_is(l, "ram:ChargeAmount") && name_is(pr, "ram:NetPriceProductTradePrice") {
        line.f.unit_price = Some(t.clone());
    } else if name_is(l, "ram:ChargeAmount") && name_is(pr, "ram:GrossPriceProductTradePrice") {
        line.f.gross_price = Some(t.clone());
    } else if name_is(l, "ram:LineTotalAmount") {
        line.f.line_amount = Some(t.clone());
    } else if name_is(l, "ram:CategoryCode") && path_has(p, "ram:ApplicableTradeTax") {
        line.f.tax_category = Some(t.clone());
    } else if name_is(l, "ram:RateApplicablePercent") && path_has(p, "ram:ApplicableTradeTax") {
        line.f.tax_rate = Some(t.clone());
    } else if name_is(l, "ram:ID") && name_is(pr, "ram:OriginTradeCountry") {
        line.f.origin_country = Some(t.clone());
    }
}

impl ParsedDoc {
    fn cii_line(&mut self, c: &CiiCtx, t: &String)
        requires
            cii_ctx_ok(*c),
        ensures
            final(self)@ == cii_line_block(old(self)@, c.path@, *t),
    {
        if !c.in_line {
            return ;
        }
        let mut line = match self.current_line.take() {
            Some(x) => x,
            None => ParsedLine::empty(),
        };
        apply_cii_line_text(&mut line, &mut self.f, c, t);
        self.current_line = Some(line);
    }
}

// ---------------------------------------------------------------- a text

/// What a text does to the document read so far: each group of fields in
/// turn.
pub open spec fn cii_text(s: ParsedDocV, p: Seq<String>, t: String) -> ParsedDocV {
    let s1 = cii_header_block(s, p, t);
    let s2 = cii_preceding_block(s1, p, t);
    let s3 = cii_attachment_block(s2, p, t);
    let s4 = cii_seller_block(s3, p, t);
    let s5 = cii_tax_rep_block(s4, p, t);
    let s6 = cii_buyer_block(s5, p, t);
    let s7 = cii_payee_block(s6, p, t);
    let s8 = cii_payment_block(s7, p, t);
    let s9 = cii_doc_ac_block(s8, p, t);
    let s10 = cii_breakdown_block(s9, p, t);
    let s11 = cii_totals_block(s10, p, t);
    cii_line_block(s11, p, t)
}

impl ParsedDoc {
    /// Takes a text of a CII document at the given element path.
    pub fn handle_cii_text(&mut self, path: &Vec<String>, t: &String)
        ensures
            final(self)@ == cii_text(old(self)@, path@, *t),
    {
        let c = CiiCtx {
            path,
            leaf: back(path, 1),
            parent: back(path, 2),
            in_line: path_has(path, "ram:IncludedSupplyChainTradeLineItem"),
            in_settlement: path_has(path, "ram:ApplicableHeaderTradeSettlement"),
        };
        self.cii_header(&c, t);
        self.cii_preceding(&c, t);
        self.cii_attachment(&c, t);
        self.cii_seller(&c, t);
        self.cii_tax_rep(&c, t);
        self.cii_buyer(&c, t);
        self.cii_payee(&c, t);
        self.cii_payment(&c, t);
        self.cii_doc_ac(&c, t);
        self.cii_breakdown(&c, t);
        self.cii_totals(&c, t);
        self.cii_line(&c, t);
    }
}


// ---------------------------------------------------------------- tags

/// Elements whose attributes are read.
pub open spec fn cii_reads_attributes(n: Seq<char>) -> bool {
    n == "ram:URIID"@ || n == "ram:ID"@ || n == "ram:BilledQuantity"@ || n == "ram:BasisQuantity"@ || n
        == "ram:GlobalID"@ || n == "udt:DateTimeString"@ || n == "ram:TaxTotalAmount"@ || n
        == "ram:AttachmentBinaryObject"@
}

/// A start tag: the identifiers, units and currencies of its attributes are
/// kept for the text that follows, a document's type and file name stored.
pub open spec fn cii_start(s: ParsedDocV, name: Seq<char>, attrs: Seq<(String, String)>) -> ParsedDocV {
    if cii_reads_attributes(name) {
        attrs_fold(s, name, attrs)
    } else {
        s
    }
}

/// An end tag closing `ended`, `p` the path left: a closed line, header
/// tax, invoice reference, supporting document or allowance/charge is kept.
pub open spec fn cii_end(s: ParsedDocV, ended: Seq<char>, p: Seq<String>) -> ParsedDocV {
    if ended == "ram:IncludedSupplyChainTradeLineItem"@ {
        match s.current_line {
            Some(l) => ParsedDocV { lines: s.lines.push(l), current_line: None, ..s },
            None => s,
        }
    } else if ended == "ram:ApplicableTradeTax"@ {
        if !cii_in_line(p) && !on_path(p, "ram:SpecifiedTradeAllowanceCharge"@) {
            match s.current_breakdown {
                Some(b) => ParsedDocV { breakdowns: s.breakdowns.push(b), current_breakdown: None, ..s },
                None => s,
            }
        } else {
            s
        }
    } else if ended == "ram:InvoiceReferencedDocument"@ {
        match s.current_preceding {
            Some(x) => ParsedDocV { preceding: s.preceding.push(x), current_preceding: None, ..s },
            None => s,
        }
    } else if ended == "ram:AdditionalReferencedDocument"@ {
        match s.current_attachment {
            Some(x) => ParsedDocV { attachments: s.attachments.push(x), current_attachment: None, ..s },
            None => s,
        }
    } else if ended == "ram:SpecifiedTradeAllowanceCharge"@ {
        if cii_in_line(p) {
            match s.current_line {
                Some(l) => match l.current_ac {
                    Some(a) => ParsedDocV {
                        current_line: Some(ParsedLineV { acs: l.acs.push(a), current_ac: None, ..l }),
                        ..s
                    },
                    None => s,
                },
                None => s,
            }
        } else {
            match s.current_doc_ac {
                Some(a) => ParsedDocV { doc_acs: s.doc_acs.push(a), current_doc_ac: None, ..s },
                None => s,
            }
        }
    } else {
        s
    }
}

/// Reading the events `evs` of a CII document from the document `s` at
/// path `p`: the document at the end, or the message of the first syntax
/// error.
pub open spec fn cii_run(s: ParsedDocV, p: Seq<String>, evs: Seq<XmlRead>) -> Result<ParsedDocV, Seq<char>>
    decreases evs.len(),
{
    if evs.len() == 0 {
        Ok(s)
    } else {
        match evs[0] {
            XmlRead::Eof => Ok(s),
            XmlRead::Failed(m) => Err(m@),
            XmlRead::Start(name, attrs) => cii_run(cii_start(s, name@, attrs@), p.push(name), evs.skip(1)),
            XmlRead::Text(t) => cii_run(
                if t@.len() > 0 {
                    cii_text(s, p, t)
                } else {
                    s
                },
                p,
                evs.skip(1),
            ),
            XmlRead::End => {
                let ended = if p.len() > 0 {
                    p.last()@
                } else {
                    seq![]
                };
                let p2 = if p.len() > 0 {
                    p.drop_last()
                } else {
                    p
                };
                cii_run(cii_end(s, ended, p2), p2, evs.skip(1))
            },
            XmlRead::Empty(_) => cii_run(s, p, evs.skip(1)),
            XmlRead::Other => cii_run(s, p, evs.skip(1)),
        }
    }
}

impl ParsedDoc {
    fn cii_start_tag(&mut self, name: &String, attrs: &Vec<(String, String)>)
        ensures
            final(self)@ == cii_start(old(self)@, name@, attrs@),
    {
        let n = name.as_str();
        if !(name_is(n, "ram:URIID") || name_is(n, "ram:ID") || name_is(n, "ram:BilledQuantity") || name_is(
            n,
            "ram:BasisQuantity",
        ) || name_is(n, "ram:GlobalID") || name_is(n, "udt:DateTimeString") || name_is(
            n,
            "ram:TaxTotalAmount",
        ) || name_is(n, "ram:AttachmentBinaryObject")) {
            return ;
        }
        let ghost s0 = self@;
        let mut i: usize = 0;
        while i < attrs.len()
            invariant
                i <= attrs@.len(),
                self@ == attrs_fold(s0, n@, attrs@.take(i as int)),
            decreases attrs.len() - i,
        {
            proof {
                assert(attrs@.take(i + 1).drop_last() =~= attrs@.take(i as int));
                assert(attrs@.take(i + 1).last() == attrs@[i as int]);
            }
            self.attr(n, &attrs[i]);
            i = i + 1;
        }
        proof {
            assert(attrs@.take(attrs@.len() as int) =~= attrs@);
        }
    }

    fn cii_end_tag(&mut self, ended: &String, path: &Vec<String>)
        ensures
            final(self)@ == cii_end(old(self)@, ended@, path@),
    {
        let e = ended.as_str();
        if name_is(e, "ram:IncludedSupplyChainTradeLineItem") {
            match self.current_line.take() {
                Some(l) => {
                    self.lines.push(l);
                    proof {
                        assert(self@.lines =~= old(self)@.lines.push(l@));
                    }
                },
                None => {},
            }
        } else if name_is(e, "ram:ApplicableTradeTax") {
            if !path_has(path, "ram:IncludedSupplyChainTradeLineItem") && !path_has(
                path,
                "ram:SpecifiedTradeAllowanceCharge",
            ) {
                match self.current_breakdown.take() {
                    Some(b) => self.breakdowns.push(b),
                    None => {},
                }
            }
        } else if name_is(e, "ram:InvoiceReferencedDocument") {
            match self.current_preceding.take() {
                Some(x) => self.preceding.push(x),
                None => {},
            }
        } else if name_is(e, "ram:AdditionalReferencedDocument") {
            match self.current_attachment.take() {
                Some(x) => self.attachments.push(x),
                None => {},
            }
        } else if name_is(e, "ram:SpecifiedTradeAllowanceCharge") {
            if path_has(path, "ram:IncludedSupplyChainTradeLineItem") {
                match self.current_line.take() {
                    Some(mut l) => {
                        match l.current_ac.take() {
                            Some(a) => l.acs.push(a),
                            None => {},
                        }
                        self.current_line = Some(l);
                    },
                    None => {},
                }
            } else {
                match self.current_doc_ac.take() {
                    Some(a) => self.doc_acs.push(a),
                    None => {},
                }
            }
        }
    }
}

// ---------------------------------------------------------------- a document

/// Reads a CII document: the fields and groups it holds, or the message of
/// the first XML syntax error.
pub fn read_cii(xml: &str) -> (r: Result<ParsedDoc, String>)
    ensures
        match cii_run(empty_doc(), seq![], xml_reads(xml@)) {
            Ok(s) => r matches Ok(p) && p@ == s,
            Err(m) => r matches Err(e) && e@ == m,
        },
{
    let mut reader = reader_for(xml);
    let mut st = ParsedDoc::new();
    let mut path: Vec<String> = Vec::new();
    loop
        invariant
            reads_wf(reads_left(reader)),
            cii_run(st@, path@, reads_left(reader)) == cii_run(empty_doc(), seq![], xml_reads(xml@)),
        decreases reads_left(reader).len(),
    {
        let ghost before = reads_left(reader);
        let e = next_read(&mut reader);
        proof {
            assert(e == before[0]);
            if !is_final(e) {
                assert(before.len() > 1);
                assert forall|i: int| 0 <= i < reads_left(reader).len() - 1 implies !is_final(
                    #[trigger] reads_left(reader)[i],
                ) by {
                    assert(reads_left(reader)[i] == before[i + 1]);
                }
            }
        }
        match e {
            XmlRead::Start(name, attrs) => {
                st.cii_start_tag(&name, &attrs);
                path.push(name);
            },
            XmlRead::Text(t) => {
                if t.as_str().unicode_len() > 0 {
                    st.handle_cii_text(&path, &t);
                }
            },
            XmlRead::End => {
                let ended = match path.pop() {
                    Some(x) => x,
                    None => String::new(),
                };
                st.cii_end_tag(&ended, &path);
            },
            XmlRead::Eof => {
                return Ok(st);
            },
            XmlRead::Failed(m) => {
                return Err(m);
            },
            XmlRead::Empty(_) => {},
            XmlRead::Other => {},
        }
    }
}

} // verus!
