//! Building an invoice from the fields of a UBL document as read.
use vstd::prelude::*;
use crate::date::Date;
use crate::decimal::{opt_view, Dec};
use crate::model::error::RechnungError;
use crate::model::types::{
    means_from_code_spec, tax_from_code_spec, type_from_code_spec, Address, AllowanceCharge,
    CardPayment, Contact, CreditTransfer, DeliveryAddress, DeliveryInformation, DeliveryParty,
    DirectDebit, DocumentAttachment, ElectronicAddress, EmbeddedDocument, Invoice, InvoiceTypeCode,
    ItemAttribute, LineItem, Party, Payee, PaymentInstructions, PaymentMeansCode, Period,
    PrecedingInvoiceReference, TaxCategory, TaxRepresentative, Totals, VatBreakdown, VatScenario,
};
use crate::text::{push_str, string_of};
use crate::xrechnung::read::{
    int_error_text, parse_date, parse_decimal, parse_u16, parsed_date, parsed_decimal, parsed_u16,
};
use crate::xrechnung::read::xml_reads;
use crate::xrechnung::ubl_read::{
    empty_doc, read_ubl, ubl_run, or_empty, ParsedAc, ParsedAttachment, ParsedBreakdown, ParsedLine, ParsedLineV, ParsedPreceding,
    ParsedDoc, ParsedDocV, DocFields,
};

verus! {

// ---------------------------------------------------------------- values of texts

/// The text read, or the default where there is none.
pub open spec fn text_or(o: Option<String>, d: Seq<char>) -> Seq<char> {
    match o {
        Some(t) => t@,
        None => d,
    }
}

/// The date format of UBL and of CII's `102` dates.
pub open spec fn iso_format() -> Seq<char> {
    "%Y-%m-%d"@
}

/// The decimal read from the text (or the default) is there.
pub open spec fn dec_ok(o: Option<String>, d: Seq<char>) -> bool {
    parsed_decimal(text_or(o, d)) is Some
}

/// The decimal read from the text (or the default).
pub open spec fn dec_of(o: Option<String>, d: Seq<char>) -> (i128, u32) {
    match parsed_decimal(text_or(o, d)) {
        Some(v) => v,
        None => (0, 0),
    }
}

/// An optional decimal: absent where there is no text or it does not read.
pub open spec fn opt_dec(o: Option<String>) -> Option<(i128, u32)> {
    match o {
        Some(t) => parsed_decimal(t@),
        None => None,
    }
}

/// An optional date in the given format: absent where there is no text or
/// it does not read.
pub open spec fn opt_date(o: Option<String>, fmt: Seq<char>) -> Option<(i32, u32, u32)> {
    match o {
        Some(t) => parsed_date(t@, fmt),
        None => None,
    }
}

pub open spec fn date_view(o: Option<Date>) -> Option<(i32, u32, u32)> {
    match o {
        Some(d) => Some(d@),
        None => None,
    }
}

/// The tax category of a code, standard rate where the code is unknown or
/// absent.
pub open spec fn cat_of(o: Option<String>) -> TaxCategory {
    match tax_from_code_spec(text_or(o, "S"@)) {
        Some(c) => c,
        None => TaxCategory::StandardRate,
    }
}

/// A period where both dates read.
pub open spec fn period_from(s: Option<String>, e: Option<String>, fmt: Seq<char>, p: Option<Period>) -> bool {
    match (opt_date(s, fmt), opt_date(e, fmt)) {
        (Some(a), Some(b)) => p matches Some(x) && x.start@ == a && x.end@ == b,
        _ => p is None,
    }
}

/// `m` starts with `prefix`.
pub open spec fn starts_with(m: Seq<char>, prefix: Seq<char>) -> bool {
    m.len() >= prefix.len() && m.subrange(0, prefix.len() as int) == prefix
}

/// The error of a decimal that does not read.
pub open spec fn decimal_error(e: RechnungError) -> bool {
    e matches RechnungError::Builder(m) && starts_with(m@, "invalid decimal '"@)
}

/// The error of the decimal text `t` that does not read: its message names
/// the text, then gives `rust_decimal`'s reason.
pub open spec fn decimal_error_for(e: RechnungError, t: Seq<char>) -> bool {
    e matches RechnungError::Builder(m) && starts_with(m@, "invalid decimal '"@ + t + "': "@)
}

/// The error of the first decimal text that does not read, if there is one.
pub open spec fn decimal_error_at(e: RechnungError, bad: Option<Seq<char>>) -> bool {
    match bad {
        Some(t) => decimal_error_for(e, t),
        None => false,
    }
}

/// The first of two findings.
pub open spec fn first_of(a: Option<Seq<char>>, b: Option<Seq<char>>) -> Option<Seq<char>> {
    match a {
        Some(x) => Some(x),
        None => b,
    }
}

/// The text of a decimal (or its default) that does not read, if it does not.
pub open spec fn bad_dec(o: Option<String>, d: Seq<char>) -> Option<Seq<char>> {
    if dec_ok(o, d) {
        None
    } else {
        Some(text_or(o, d))
    }
}

pub fn copy_text(o: &Option<String>) -> (r: Option<String>)
    ensures
        r == *o,
{
    match o {
        Some(t) => Some(t.clone()),
        None => None,
    }
}

pub fn text_or_default(o: &Option<String>, d: &str) -> (r: String)
    ensures
        r@ == text_or(*o, d@),
{
    match o {
        Some(t) => t.clone(),
        None => string_of(d),
    }
}

pub fn text_ref<'a>(o: &'a Option<String>, d: &'a str) -> (r: &'a str)
    ensures
        r@ == text_or(*o, d@),
{
    match o {
        Some(t) => t.as_str(),
        None => d,
    }
}

/// The message of an unreadable value: what, the text in quotes, and why.
pub fn invalid_message(what: &str, text: &str, why: &str) -> (r: String)
    ensures
        r@ == what@ + " '"@ + text@ + "': "@ + why@,
{
    let mut m = string_of(what);
    push_str(&mut m, " '");
    push_str(&mut m, text);
    push_str(&mut m, "': ");
    push_str(&mut m, why);
    proof {
        assert(m@ =~= what@ + " '"@ + text@ + "': "@ + why@);
    }
    m
}

/// The decimal of a text (or of the default).
pub fn decimal_or(o: &Option<String>, d: &str) -> (r: Result<Dec, RechnungError>)
    ensures
        match parsed_decimal(text_or(*o, d@)) {
            Some(v) => r matches Ok(x) && x@ == v,
            None => r matches Err(e) && decimal_error(e),
        },
        r matches Err(e) ==> decimal_error_at(e, bad_dec(*o, d@)),
{
    let t = text_ref(o, d);
    match parse_decimal(t) {
        Ok(v) => Ok(v),
        Err(why) => {
            let m = invalid_message("invalid decimal", t, why.as_str());
            proof {
                reveal_strlit("invalid decimal");
                reveal_strlit(" '");
                reveal_strlit("invalid decimal '");
                reveal_strlit("': ");
                assert(m@.subrange(0, 17) =~= "invalid decimal '"@);
                assert(m@.subrange(0, (17 + t@.len() + 3) as int) =~= "invalid decimal '"@ + t@ + "': "@);
            }
            Err(RechnungError::Builder(m))
        },
    }
}

/// The decimal of a text, if it reads.
pub fn decimal_opt(o: &Option<String>) -> (r: Option<Dec>)
    ensures
        opt_view(r) == opt_dec(*o),
{
    match o {
        Some(t) => match parse_decimal(t.as_str()) {
            Ok(v) => Some(v),
            Err(_) => None,
        },
        None => None,
    }
}

/// The date of a text in the given format, if it reads.
pub fn date_opt(o: &Option<String>, fmt: &str) -> (r: Option<Date>)
    ensures
        date_view(r) == opt_date(*o, fmt@),
{
    match o {
        Some(t) => match parse_date(t.as_str(), fmt) {
            Ok(v) => Some(v),
            Err(_) => None,
        },
        None => None,
    }
}

pub fn period_of(s: &Option<String>, e: &Option<String>, fmt: &str) -> (r: Option<Period>)
    ensures
        period_from(*s, *e, fmt@, r),
{
    match (date_opt(s, fmt), date_opt(e, fmt)) {
        (Some(a), Some(b)) => Some(Period { start: a, end: b }),
        _ => None,
    }
}

pub fn category_of(o: &Option<String>) -> (r: TaxCategory)
    ensures
        r == cat_of(*o),
{
    match TaxCategory::from_code(text_ref(o, "S")) {
        Some(c) => c,
        None => TaxCategory::StandardRate,
    }
}


// ---------------------------------------------------------------- allowances and charges

/// The indicator text says "charge".
pub open spec fn is_charge_text(o: Option<String>) -> bool {
    o matches Some(t) && t@ == "true"@
}

/// The amount and rate of an allowance or charge read.
pub open spec fn ac_ok(p: ParsedAc) -> bool {
    dec_ok(p.amount, "0"@) && dec_ok(p.tax_rate, "0"@)
}

/// The first amount of an allowance or charge that does not read.
pub open spec fn bad_ac(p: ParsedAc) -> Option<Seq<char>> {
    first_of(bad_dec(p.amount, "0"@), bad_dec(p.tax_rate, "0"@))
}

/// The first amount of a list of allowances and charges that does not read.
pub open spec fn bad_acs(ps: Seq<ParsedAc>) -> Option<Seq<char>>
    decreases ps.len(),
{
    if ps.len() == 0 {
        None
    } else {
        first_of(bad_acs(ps.drop_last()), bad_ac(ps.last()))
    }
}

pub(crate) proof fn lemma_bad_acs_prefix(ps: Seq<ParsedAc>, k: int)
    requires
        0 <= k <= ps.len(),
        bad_acs(ps.take(k)) is Some,
    ensures
        bad_acs(ps) == bad_acs(ps.take(k)),
    decreases ps.len(),
{
    if k == ps.len() {
        assert(ps.take(k) =~= ps);
    } else {
        assert(ps.drop_last().take(k) =~= ps.take(k));
        lemma_bad_acs_prefix(ps.drop_last(), k);
    }
}

pub(crate) proof fn lemma_bad_acs_none(ps: Seq<ParsedAc>)
    requires
        forall|i: int| 0 <= i < ps.len() ==> ac_ok(#[trigger] ps[i]),
    ensures
        bad_acs(ps) is None,
    decreases ps.len(),
{
    if ps.len() > 0 {
        assert(ac_ok(ps[ps.len() - 1]));
        lemma_bad_acs_none(ps.drop_last());
    }
}

/// The allowance or charge built from one as read.
pub open spec fn ac_from(p: ParsedAc, a: AllowanceCharge) -> bool {
    &&& a.is_charge == is_charge_text(p.is_charge)
    &&& a.amount@ == dec_of(p.amount, "0"@)
    &&& opt_view(a.percentage) == opt_dec(p.percentage)
    &&& opt_view(a.base_amount) == opt_dec(p.base_amount)
    &&& a.tax_category == cat_of(p.tax_category)
    &&& a.tax_rate@ == dec_of(p.tax_rate, "0"@)
    &&& a.reason == p.reason
    &&& a.reason_code == p.reason_code
}

/// The allowances and the charges built, in order, from those read.
pub open spec fn acs_split(ps: Seq<ParsedAc>, al: Seq<AllowanceCharge>, ch: Seq<AllowanceCharge>) -> bool
    decreases ps.len(),
{
    if ps.len() == 0 {
        al.len() == 0 && ch.len() == 0
    } else if is_charge_text(ps.last().is_charge) {
        ch.len() > 0 && ac_from(ps.last(), ch.last()) && acs_split(ps.drop_last(), al, ch.drop_last())
    } else {
        al.len() > 0 && ac_from(ps.last(), al.last()) && acs_split(ps.drop_last(), al.drop_last(), ch)
    }
}

fn charge_flag(o: &Option<String>) -> (r: bool)
    ensures
        r == is_charge_text(*o),
{
    match o {
        Some(t) => crate::text::str_eq(t.as_str(), "true"),
        None => false,
    }
}

fn convert_ac(p: &ParsedAc) -> (r: Result<AllowanceCharge, RechnungError>)
    ensures
        r is Ok <==> ac_ok(*p),
        r matches Ok(a) ==> ac_from(*p, a),
        r matches Err(e) ==> decimal_error(e) && decimal_error_at(e, bad_ac(*p)),
{
    let is_charge = charge_flag(&p.is_charge);
    let amount = match decimal_or(&p.amount, "0") {
        Ok(v) => v,
        Err(e) => return Err(e),
    };
    let percentage = decimal_opt(&p.percentage);
    let base_amount = decimal_opt(&p.base_amount);
    let tax_category = category_of(&p.tax_category);
    let tax_rate = match decimal_or(&p.tax_rate, "0") {
        Ok(v) => v,
        Err(e) => return Err(e),
    };
    Ok(AllowanceCharge {
        is_charge,
        amount,
        percentage,
        base_amount,
        tax_category,
        tax_rate,
        reason: copy_text(&p.reason),
        reason_code: copy_text(&p.reason_code),
    })
}

/// Allowances and charges as read, split into allowances and charges.
pub fn convert_acs(ps: &Vec<ParsedAc>) -> (r: Result<(Vec<AllowanceCharge>, Vec<AllowanceCharge>), RechnungError>)
    ensures
        r is Ok <==> forall|i: int| 0 <= i < ps@.len() ==> ac_ok(#[trigger] ps@[i]),
        r matches Ok((al, ch)) ==> acs_split(ps@, al@, ch@),
        r matches Err(e) ==> decimal_error(e) && decimal_error_at(e, bad_acs(ps@)),
{
    let mut al: Vec<AllowanceCharge> = Vec::new();
    let mut ch: Vec<AllowanceCharge> = Vec::new();
    let mut i: usize = 0;
    while i < ps.len()
        invariant
            i <= ps@.len(),
            forall|j: int| 0 <= j < i ==> ac_ok(#[trigger] ps@[j]),
            acs_split(ps@.take(i as int), al@, ch@),
        decreases ps.len() - i,
    {
        let a = match convert_ac(&ps[i]) {
            Ok(a) => a,
            Err(e) => {
                proof {
                    let t = ps@.take(i as int);
                    assert forall|j: int| 0 <= j < t.len() implies ac_ok(#[trigger] t[j]) by {
                        assert(t[j] == ps@[j]);
                    }
                    lemma_bad_acs_none(t);
                    assert(ps@.take(i + 1).drop_last() =~= t);
                    assert(ps@.take(i + 1).last() == ps@[i as int]);
                    lemma_bad_acs_prefix(ps@, i + 1);
                }
                return Err(e);
            },
        };
        let ghost al0 = al@;
        let ghost ch0 = ch@;
        proof {
            assert(ps@.take(i + 1).drop_last() =~= ps@.take(i as int));
            assert(ps@.take(i + 1).last() == ps@[i as int]);
        }
        if a.is_charge {
            ch.push(a);
            proof {
                assert(ch@.drop_last() =~= ch0);
            }
        } else {
            al.push(a);
            proof {
                assert(al@.drop_last() =~= al0);
            }
        }
        i = i + 1;
    }
    proof {
        assert(ps@.take(ps@.len() as int) =~= ps@);
    }
    Ok((al, ch))
}

// ---------------------------------------------------------------- lines

/// The amounts of a line read (its net amount too where `strict`).
pub open spec fn line_ok(l: ParsedLineV, strict: bool) -> bool {
    &&& dec_ok(l.f.quantity, "1"@)
    &&& dec_ok(l.f.unit_price, "0"@)
    &&& dec_ok(l.f.tax_rate, "0"@)
    &&& (strict && l.f.line_amount is Some ==> opt_dec(l.f.line_amount) is Some)
    &&& forall|i: int| 0 <= i < l.acs.len() ==> ac_ok(#[trigger] l.acs[i])
}

/// The first amount of a line that does not read: quantity, unit price,
/// VAT rate, the net amount where `strict`, then its allowances and charges.
pub open spec fn bad_line(l: ParsedLineV, strict: bool) -> Option<Seq<char>> {
    first_of(
        bad_dec(l.f.quantity, "1"@),
        first_of(
            bad_dec(l.f.unit_price, "0"@),
            first_of(
                bad_dec(l.f.tax_rate, "0"@),
                first_of(
                    match l.f.line_amount {
                        Some(t) => if strict && opt_dec(l.f.line_amount) is None {
                            Some(t@)
                        } else {
                            None
                        },
                        None => None,
                    },
                    bad_acs(l.acs),
                ),
            ),
        ),
    )
}

/// The first amount of a list of lines that does not read.
pub open spec fn bad_lines(ls: Seq<ParsedLineV>, strict: bool) -> Option<Seq<char>>
    decreases ls.len(),
{
    if ls.len() == 0 {
        None
    } else {
        first_of(bad_lines(ls.drop_last(), strict), bad_line(ls.last(), strict))
    }
}

pub(crate) proof fn lemma_bad_lines_prefix(ls: Seq<ParsedLineV>, strict: bool, k: int)
    requires
        0 <= k <= ls.len(),
        bad_lines(ls.take(k), strict) is Some,
    ensures
        bad_lines(ls, strict) == bad_lines(ls.take(k), strict),
    decreases ls.len(),
{
    if k == ls.len() {
        assert(ls.take(k) =~= ls);
    } else {
        assert(ls.drop_last().take(k) =~= ls.take(k));
        lemma_bad_lines_prefix(ls.drop_last(), strict, k);
    }
}

pub(crate) proof fn lemma_bad_lines_none(ls: Seq<ParsedLineV>, strict: bool)
    requires
        forall|i: int| 0 <= i < ls.len() ==> line_ok(#[trigger] ls[i], strict),
    ensures
        bad_lines(ls, strict) is None,
    decreases ls.len(),
{
    if ls.len() > 0 {
        assert(line_ok(ls[ls.len() - 1], strict));
        lemma_bad_acs_none(ls.last().acs);
        lemma_bad_lines_none(ls.drop_last(), strict);
    }
}

/// The line built from one as read, its dates in the given format.
pub open spec fn line_from(l: ParsedLineV, fmt: Seq<char>, li: LineItem) -> bool {
    &&& li.id@ == or_empty(l.f.id)
    &&& li.quantity@ == dec_of(l.f.quantity, "1"@)
    &&& li.unit@ == text_or(l.f.unit, "C62"@)
    &&& li.unit_price@ == dec_of(l.f.unit_price, "0"@)
    &&& opt_view(li.gross_price) == opt_dec(l.f.gross_price)
    &&& acs_split(l.acs, li.allowances@, li.charges@)
    &&& li.tax_category == cat_of(l.f.tax_category)
    &&& li.tax_rate@ == dec_of(l.f.tax_rate, "0"@)
    &&& li.item_name@ == or_empty(l.f.item_name)
    &&& li.description == l.f.description
    &&& li.seller_item_id == l.f.seller_item_id
    &&& li.buyer_item_id == l.f.buyer_item_id
    &&& li.standard_item_id == l.f.standard_item_id
    &&& opt_view(li.line_amount) == opt_dec(l.f.line_amount)
    &&& li.note == l.f.note
    &&& opt_view(li.base_quantity) == opt_dec(l.f.base_quantity)
    &&& li.base_quantity_unit == l.f.base_quantity_unit
    &&& li.origin_country == l.f.origin_country
    &&& li.attributes@.len() == l.attributes.len()
    &&& forall|i: int|
        0 <= i < l.attributes.len() ==> (#[trigger] li.attributes@[i]).name@ == l.attributes[i].0
            && li.attributes@[i].value@ == l.attributes[i].1
    &&& period_from(l.f.invoicing_period_start, l.f.invoicing_period_end, fmt, li.invoicing_period)
}

fn convert_attributes(v: &Vec<(String, String)>) -> (r: Vec<ItemAttribute>)
    ensures
        r@.len() == v@.len(),
        forall|i: int|
            0 <= i < v@.len() ==> (#[trigger] r@[i]).name@ == v@[i].0@ && r@[i].value@ == v@[i].1@,
{
    let mut r: Vec<ItemAttribute> = Vec::new();
    let mut i: usize = 0;
    while i < v.len()
        invariant
            i <= v@.len(),
            r@.len() == i,
            forall|j: int|
                0 <= j < i ==> (#[trigger] r@[j]).name@ == v@[j].0@ && r@[j].value@ == v@[j].1@,
        decreases v.len() - i,
    {
        r.push(ItemAttribute { name: v[i].0.clone(), value: v[i].1.clone() });
        i = i + 1;
    }
    r
}

fn convert_line(l: &ParsedLine, fmt: &str, strict: bool) -> (r: Result<LineItem, RechnungError>)
    ensures
        r is Ok <==> line_ok(l@, strict),
        r matches Ok(li) ==> line_from(l@, fmt@, li),
        r matches Err(e) ==> decimal_error(e) && decimal_error_at(e, bad_line(l@, strict)),
{
    let f = &l.f;
    let quantity = match decimal_or(&f.quantity, "1") {
        Ok(v) => v,
        Err(e) => return Err(e),
    };
    let unit_price = match decimal_or(&f.unit_price, "0") {
        Ok(v) => v,
        Err(e) => return Err(e),
    };
    let tax_category = category_of(&f.tax_category);
    let tax_rate = match decimal_or(&f.tax_rate, "0") {
        Ok(v) => v,
        Err(e) => return Err(e),
    };
    let line_amount = match &f.line_amount {
        Some(t) => match parse_decimal(t.as_str()) {
            Ok(v) => Some(v),
            Err(_) if !strict => None,
            Err(why) => {
                let m = invalid_message("invalid decimal", t.as_str(), why.as_str());
                proof {
                    reveal_strlit("invalid decimal");
                    reveal_strlit(" '");
                    reveal_strlit("invalid decimal '");
                    reveal_strlit("': ");
                    assert(m@.subrange(0, 17) =~= "invalid decimal '"@);
                    assert(m@.subrange(0, (17 + t@.len() + 3) as int) =~= "invalid decimal '"@ + t@ + "': "@);
                }
                return Err(RechnungError::Builder(m));
            },
        },
        None => None,
    };
    let attributes = convert_attributes(&l.attributes);
    let invoicing_period = period_of(&f.invoicing_period_start, &f.invoicing_period_end, fmt);
    let gross_price = decimal_opt(&f.gross_price);
    let (allowances, charges) = match convert_acs(&l.acs) {
        Ok(x) => x,
        Err(e) => {
            proof {
                assert(l@.acs == l.acs@);
                assert(opt_dec(l@.f.line_amount) is Some || !strict || l@.f.line_amount is None);
            }
            return Err(e);
        },
    };
    let base_quantity = decimal_opt(&f.base_quantity);
    let li = LineItem {
        id: text_or_default(&f.id, ""),
        quantity,
        unit: text_or_default(&f.unit, "C62"),
        unit_price,
        gross_price,
        allowances,
        charges,
        tax_category,
        tax_rate,
        item_name: text_or_default(&f.item_name, ""),
        description: copy_text(&f.description),
        seller_item_id: copy_text(&f.seller_item_id),
        buyer_item_id: copy_text(&f.buyer_item_id),
        standard_item_id: copy_text(&f.standard_item_id),
        line_amount,
        note: copy_text(&f.note),
        base_quantity,
        base_quantity_unit: copy_text(&f.base_quantity_unit),
        origin_country: copy_text(&f.origin_country),
        attributes,
        invoicing_period,
    };
    proof {
        reveal_strlit("");
        assert(""@ =~= Seq::<char>::empty());
        assert(li.attributes@.len() == l@.attributes.len());
        assert forall|i: int| 0 <= i < l@.attributes.len() implies (#[trigger] li.attributes@[i]).name@
            == l@.attributes[i].0 && li.attributes@[i].value@ == l@.attributes[i].1 by {
            assert(l@.attributes[i] == (l.attributes@[i].0@, l.attributes@[i].1@));
        }
        assert(l@.acs == l.acs@);
    }
    Ok(li)
}

pub fn convert_lines(ls: &Vec<ParsedLine>, fmt: &str, strict: bool) -> (r: Result<Vec<LineItem>, RechnungError>)
    ensures
        r is Ok <==> forall|i: int| 0 <= i < ls@.len() ==> line_ok(#[trigger] ls@[i]@, strict),
        r matches Ok(v) ==> v@.len() == ls@.len() && forall|i: int|
            0 <= i < ls@.len() ==> line_from(ls@[i]@, fmt@, #[trigger] v@[i]),
        r matches Err(e) ==> decimal_error(e) && decimal_error_at(
            e,
            bad_lines(ls@.map_values(|l: ParsedLine| l@), strict),
        ),
{
    let mut out: Vec<LineItem> = Vec::new();
    let mut i: usize = 0;
    while i < ls.len()
        invariant
            i <= ls@.len(),
            out@.len() == i,
            forall|j: int| 0 <= j < i ==> line_ok(#[trigger] ls@[j]@, strict),
            forall|j: int| 0 <= j < i ==> line_from(ls@[j]@, fmt@, #[trigger] out@[j]),
        decreases ls.len() - i,
    {
        match convert_line(&ls[i], fmt, strict) {
            Ok(li) => out.push(li),
            Err(e) => {
                proof {
                    let all = ls@.map_values(|l: ParsedLine| l@);
                    let t = all.take(i as int);
                    assert forall|j: int| 0 <= j < t.len() implies line_ok(#[trigger] t[j], strict) by {
                        assert(t[j] == ls@[j]@);
                    }
                    lemma_bad_lines_none(t, strict);
                    assert(all.take(i + 1).drop_last() =~= t);
                    assert(all.take(i + 1).last() == ls@[i as int]@);
                    lemma_bad_lines_prefix(all, strict, i + 1);
                }
                return Err(e);
            },
        }
        i = i + 1;
    }
    Ok(out)
}

// ---------------------------------------------------------------- VAT breakdown

pub open spec fn breakdown_ok(b: ParsedBreakdown) -> bool {
    dec_ok(b.percent, "0"@) && dec_ok(b.taxable_amount, "0"@) && dec_ok(b.tax_amount, "0"@)
}

/// The first amount of a VAT breakdown entry that does not read: rate,
/// taxable amount, tax amount.
pub open spec fn bad_breakdown(b: ParsedBreakdown) -> Option<Seq<char>> {
    first_of(bad_dec(b.percent, "0"@), first_of(bad_dec(b.taxable_amount, "0"@), bad_dec(b.tax_amount, "0"@)))
}

pub open spec fn bad_breakdowns(bs: Seq<ParsedBreakdown>) -> Option<Seq<char>>
    decreases bs.len(),
{
    if bs.len() == 0 {
        None
    } else {
        first_of(bad_breakdowns(bs.drop_last()), bad_breakdown(bs.last()))
    }
}

pub(crate) proof fn lemma_bad_breakdowns_prefix(bs: Seq<ParsedBreakdown>, k: int)
    requires
        0 <= k <= bs.len(),
        bad_breakdowns(bs.take(k)) is Some,
    ensures
        bad_breakdowns(bs) == bad_breakdowns(bs.take(k)),
    decreases bs.len(),
{
    if k == bs.len() {
        assert(bs.take(k) =~= bs);
    } else {
        assert(bs.drop_last().take(k) =~= bs.take(k));
        lemma_bad_breakdowns_prefix(bs.drop_last(), k);
    }
}

pub(crate) proof fn lemma_bad_breakdowns_none(bs: Seq<ParsedBreakdown>)
    requires
        forall|i: int| 0 <= i < bs.len() ==> breakdown_ok(#[trigger] bs[i]),
    ensures
        bad_breakdowns(bs) is None,
    decreases bs.len(),
{
    if bs.len() > 0 {
        assert(breakdown_ok(bs[bs.len() - 1]));
        lemma_bad_breakdowns_none(bs.drop_last());
    }
}

proof fn lemma_first_bad_breakdown(bs: Seq<ParsedBreakdown>, i: int)
    requires
        0 <= i < bs.len(),
        forall|j: int| 0 <= j < i ==> breakdown_ok(#[trigger] bs[j]),
        bad_breakdown(bs[i]) is Some,
    ensures
        bad_breakdowns(bs) == bad_breakdown(bs[i]),
{
    let t = bs.take(i);
    assert forall|j: int| 0 <= j < t.len() implies breakdown_ok(#[trigger] t[j]) by {
        assert(t[j] == bs[j]);
    }
    lemma_bad_breakdowns_none(t);
    assert(bs.take(i + 1).drop_last() =~= t);
    assert(bs.take(i + 1).last() == bs[i]);
    lemma_bad_breakdowns_prefix(bs, i + 1);
}

pub open spec fn breakdown_from(b: ParsedBreakdown, v: VatBreakdown) -> bool {
    &&& v.category == cat_of(b.category_id)
    &&& v.rate@ == dec_of(b.percent, "0"@)
    &&& v.taxable_amount@ == dec_of(b.taxable_amount, "0"@)
    &&& v.tax_amount@ == dec_of(b.tax_amount, "0"@)
    &&& v.exemption_reason == b.exemption_reason
    &&& v.exemption_reason_code == b.exemption_reason_code
}

pub fn convert_breakdowns(bs: &Vec<ParsedBreakdown>) -> (r: Result<Vec<VatBreakdown>, RechnungError>)
    ensures
        r is Ok <==> forall|i: int| 0 <= i < bs@.len() ==> breakdown_ok(#[trigger] bs@[i]),
        r matches Ok(v) ==> v@.len() == bs@.len() && forall|i: int|
            0 <= i < bs@.len() ==> breakdown_from(bs@[i], #[trigger] v@[i]),
        r matches Err(e) ==> decimal_error(e) && decimal_error_at(e, bad_breakdowns(bs@)),
{
    let mut out: Vec<VatBreakdown> = Vec::new();
    let mut i: usize = 0;
    while i < bs.len()
        invariant
            i <= bs@.len(),
            out@.len() == i,
            forall|j: int| 0 <= j < i ==> breakdown_ok(#[trigger] bs@[j]),
            forall|j: int| 0 <= j < i ==> breakdown_from(bs@[j], #[trigger] out@[j]),
        decreases bs.len() - i,
    {
        let b = &bs[i];
        let category = category_of(&b.category_id);
        let rate = match decimal_or(&b.percent, "0") {
            Ok(v) => v,
            Err(e) => {
                proof {
                    lemma_first_bad_breakdown(bs@, i as int);
                }
                return Err(e);
            },
        };
        let taxable_amount = match decimal_or(&b.taxable_amount, "0") {
            Ok(v) => v,
            Err(e) => {
                proof {
                    lemma_first_bad_breakdown(bs@, i as int);
                }
                return Err(e);
            },
        };
        let tax_amount = match decimal_or(&b.tax_amount, "0") {
            Ok(v) => v,
            Err(e) => {
                proof {
                    lemma_first_bad_breakdown(bs@, i as int);
                }
                return Err(e);
            },
        };
        out.push(
            VatBreakdown {
                category,
                rate,
                taxable_amount,
                tax_amount,
                exemption_reason: copy_text(&b.exemption_reason),
                exemption_reason_code: copy_text(&b.exemption_reason_code),
            },
        );
        i = i + 1;
    }
    Ok(out)
}


// ---------------------------------------------------------------- parties

/// A contact where any of its parts was read.
pub open spec fn contact_from(
    name: Option<String>,
    phone: Option<String>,
    email: Option<String>,
    c: Option<Contact>,
) -> bool {
    if name is Some || phone is Some || email is Some {
        c == Some(Contact { name, phone, email })
    } else {
        c is None
    }
}

/// An electronic address where its value was read; its scheme is `EM`
/// where none was.
pub open spec fn endpoint_from(scheme: Option<String>, value: Option<String>, e: Option<ElectronicAddress>) -> bool {
    match (scheme, value) {
        (Some(sc), Some(v)) => e == Some(ElectronicAddress { scheme: sc, value: v }),
        (None, Some(v)) => e matches Some(a) && a.scheme@ == "EM"@ && a.value == v,
        _ => e is None,
    }
}

/// An address with empty texts for the city, postal code and country not read.
pub open spec fn address_from(
    street: Option<String>,
    additional: Option<String>,
    city: Option<String>,
    postal: Option<String>,
    country: Option<String>,
    subdivision: Option<String>,
    a: Address,
) -> bool {
    &&& a.street == street
    &&& a.additional == additional
    &&& a.city@ == or_empty(city)
    &&& a.postal_code@ == or_empty(postal)
    &&& a.country_code@ == or_empty(country)
    &&& a.subdivision == subdivision
}

pub open spec fn seller_from(f: DocFields, p: Party) -> bool {
    &&& p.name@ == or_empty(f.seller_name)
    &&& p.vat_id == f.seller_vat_id
    &&& p.tax_number == f.seller_tax_number
    &&& p.registration_id == f.seller_reg_id
    &&& p.trading_name == f.seller_trading_name
    &&& address_from(
        f.seller_street,
        f.seller_additional,
        f.seller_city,
        f.seller_postal,
        f.seller_country,
        f.seller_subdivision,
        p.address,
    )
    &&& contact_from(f.seller_contact_name, f.seller_contact_phone, f.seller_contact_email, p.contact)
    &&& endpoint_from(f.seller_endpoint_scheme, f.seller_endpoint_value, p.electronic_address)
}

pub open spec fn buyer_from(f: DocFields, p: Party) -> bool {
    &&& p.name@ == or_empty(f.buyer_name)
    &&& p.vat_id == f.buyer_vat_id
    &&& p.tax_number == f.buyer_tax_number
    &&& p.registration_id == f.buyer_reg_id
    &&& p.trading_name == f.buyer_trading_name
    &&& address_from(
        f.buyer_street,
        f.buyer_additional,
        f.buyer_city,
        f.buyer_postal,
        f.buyer_country,
        f.buyer_subdivision,
        p.address,
    )
    &&& contact_from(f.buyer_contact_name, f.buyer_contact_phone, f.buyer_contact_email, p.contact)
    &&& endpoint_from(f.buyer_endpoint_scheme, f.buyer_endpoint_value, p.electronic_address)
}

pub fn contact_of(name: &Option<String>, phone: &Option<String>, email: &Option<String>) -> (r: Option<Contact>)
    ensures
        contact_from(*name, *phone, *email, r),
{
    if name.is_some() || phone.is_some() || email.is_some() {
        Some(Contact { name: copy_text(name), phone: copy_text(phone), email: copy_text(email) })
    } else {
        None
    }
}

pub fn endpoint_of(scheme: &Option<String>, value: &Option<String>) -> (r: Option<ElectronicAddress>)
    ensures
        endpoint_from(*scheme, *value, r),
{
    match (scheme, value) {
        (Some(sc), Some(v)) => Some(ElectronicAddress { scheme: sc.clone(), value: v.clone() }),
        (None, Some(v)) => {
            let r = ElectronicAddress { scheme: string_of("EM"), value: v.clone() };
            Some(r)
        },
        _ => None,
    }
}

pub fn address_of(
    street: &Option<String>,
    additional: &Option<String>,
    city: &Option<String>,
    postal: &Option<String>,
    country: &Option<String>,
    subdivision: &Option<String>,
) -> (r: Address)
    ensures
        address_from(*street, *additional, *city, *postal, *country, *subdivision, r),
{
    let r = Address {
        street: copy_text(street),
        additional: copy_text(additional),
        city: text_or_default(city, ""),
        postal_code: text_or_default(postal, ""),
        country_code: text_or_default(country, ""),
        subdivision: copy_text(subdivision),
    };
    proof {
        reveal_strlit("");
        assert(""@ =~= Seq::<char>::empty());
    }
    r
}

pub fn seller_of(f: &DocFields) -> (r: Party)
    ensures
        seller_from(*f, r),
{
    let r = Party {
        name: text_or_default(&f.seller_name, ""),
        vat_id: copy_text(&f.seller_vat_id),
        tax_number: copy_text(&f.seller_tax_number),
        registration_id: copy_text(&f.seller_reg_id),
        trading_name: copy_text(&f.seller_trading_name),
        address: address_of(
            &f.seller_street,
            &f.seller_additional,
            &f.seller_city,
            &f.seller_postal,
            &f.seller_country,
            &f.seller_subdivision,
        ),
        contact: contact_of(&f.seller_contact_name, &f.seller_contact_phone, &f.seller_contact_email),
        electronic_address: endpoint_of(&f.seller_endpoint_scheme, &f.seller_endpoint_value),
    };
    proof {
        reveal_strlit("");
        assert(""@ =~= Seq::<char>::empty());
    }
    r
}

pub fn buyer_of(f: &DocFields) -> (r: Party)
    ensures
        buyer_from(*f, r),
{
    let r = Party {
        name: text_or_default(&f.buyer_name, ""),
        vat_id: copy_text(&f.buyer_vat_id),
        tax_number: copy_text(&f.buyer_tax_number),
        registration_id: copy_text(&f.buyer_reg_id),
        trading_name: copy_text(&f.buyer_trading_name),
        address: address_of(
            &f.buyer_street,
            &f.buyer_additional,
            &f.buyer_city,
            &f.buyer_postal,
            &f.buyer_country,
            &f.buyer_subdivision,
        ),
        contact: contact_of(&f.buyer_contact_name, &f.buyer_contact_phone, &f.buyer_contact_email),
        electronic_address: endpoint_of(&f.buyer_endpoint_scheme, &f.buyer_endpoint_value),
    };
    proof {
        reveal_strlit("");
        assert(""@ =~= Seq::<char>::empty());
    }
    r
}

// ---------------------------------------------------------------- payment

/// The payment means code read, 58 where there is none or it does not read.
pub open spec fn means_number(o: Option<String>) -> u16 {
    match parsed_u16(text_or(o, "58"@)) {
        Ok(c) => c,
        Err(_) => 58,
    }
}

/// Payment instructions where a means code, an IBAN, a card or a mandate
/// was read.
pub open spec fn payment_from(f: DocFields, p: Option<PaymentInstructions>) -> bool {
    if f.payment_means_code is Some || f.payment_iban is Some || f.card_account_number is Some
        || f.direct_debit_mandate_id is Some {
        p matches Some(pi) && {
            &&& pi.means_code == means_from_code_spec(means_number(f.payment_means_code))
            &&& pi.means_text == f.payment_means_text
            &&& pi.remittance_info == f.payment_remittance_info
            &&& pi.credit_transfer == (match f.payment_iban {
                Some(iban) => Some(
                    CreditTransfer { iban, bic: f.payment_bic, account_name: f.payment_account_name },
                ),
                None => None,
            })
            &&& pi.card_payment == (match f.card_account_number {
                Some(n) => Some(CardPayment { account_number: n, holder_name: f.card_holder_name }),
                None => None,
            })
            &&& pi.direct_debit == (if f.direct_debit_mandate_id is Some || f.direct_debit_account_id is Some {
                Some(
                    DirectDebit {
                        mandate_id: f.direct_debit_mandate_id,
                        creditor_id: None,
                        debited_account_id: f.direct_debit_account_id,
                    },
                )
            } else {
                None
            })
        }
    } else {
        p is None
    }
}

fn payment_of(f: &DocFields) -> (r: Option<PaymentInstructions>)
    ensures
        payment_from(*f, r),
{
    if !(f.payment_means_code.is_some() || f.payment_iban.is_some() || f.card_account_number.is_some()
        || f.direct_debit_mandate_id.is_some()) {
        return None;
    }
    let code: u16 = match parse_u16(text_ref(&f.payment_means_code, "58")) {
        Ok(c) => c,
        Err(_) => 58,
    };
    let credit_transfer = match &f.payment_iban {
        Some(iban) => Some(
            CreditTransfer {
                iban: iban.clone(),
                bic: copy_text(&f.payment_bic),
                account_name: copy_text(&f.payment_account_name),
            },
        ),
        None => None,
    };
    let card_payment = match &f.card_account_number {
        Some(n) => Some(CardPayment { account_number: n.clone(), holder_name: copy_text(&f.card_holder_name) }),
        None => None,
    };
    let direct_debit = if f.direct_debit_mandate_id.is_some() || f.direct_debit_account_id.is_some() {
        Some(
            DirectDebit {
                mandate_id: copy_text(&f.direct_debit_mandate_id),
                creditor_id: None,
                debited_account_id: copy_text(&f.direct_debit_account_id),
            },
        )
    } else {
        None
    };
    Some(
        PaymentInstructions {
            means_code: PaymentMeansCode::from_code(code),
            means_text: copy_text(&f.payment_means_text),
            remittance_info: copy_text(&f.payment_remittance_info),
            credit_transfer,
            card_payment,
            direct_debit,
        },
    )
}

// ---------------------------------------------------------------- totals

/// The amounts of the monetary totals read.
pub open spec fn totals_ok(f: DocFields) -> bool {
    &&& dec_ok(f.line_extension_amount, "0"@)
    &&& dec_ok(f.allowance_total_amount, "0"@)
    &&& dec_ok(f.charge_total_amount, "0"@)
    &&& dec_ok(f.tax_exclusive_amount, "0"@)
    &&& dec_ok(f.tax_amount, "0"@)
    &&& dec_ok(f.tax_inclusive_amount, "0"@)
    &&& dec_ok(f.prepaid_amount, "0"@)
    &&& dec_ok(f.payable_amount, "0"@)
}

pub open spec fn totals_from(f: DocFields, bds: Seq<VatBreakdown>, t: Totals) -> bool {
    &&& t.line_net_total@ == dec_of(f.line_extension_amount, "0"@)
    &&& t.allowances_total@ == dec_of(f.allowance_total_amount, "0"@)
    &&& t.charges_total@ == dec_of(f.charge_total_amount, "0"@)
    &&& t.net_total@ == dec_of(f.tax_exclusive_amount, "0"@)
    &&& t.vat_total@ == dec_of(f.tax_amount, "0"@)
    &&& opt_view(t.vat_total_in_tax_currency) == opt_dec(f.tax_total_in_tax_currency)
    &&& t.gross_total@ == dec_of(f.tax_inclusive_amount, "0"@)
    &&& t.prepaid@ == dec_of(f.prepaid_amount, "0"@)
    &&& t.amount_due@ == dec_of(f.payable_amount, "0"@)
    &&& t.vat_breakdown@ == bds
}

/// The first document total that does not read, in the order line total,
/// allowances, charges, net, VAT, gross, prepaid, amount due.
pub open spec fn bad_totals(f: DocFields) -> Option<Seq<char>> {
    first_of(
        bad_dec(f.line_extension_amount, "0"@),
        first_of(
            bad_dec(f.allowance_total_amount, "0"@),
            first_of(
                bad_dec(f.charge_total_amount, "0"@),
                first_of(
                    bad_dec(f.tax_exclusive_amount, "0"@),
                    first_of(
                        bad_dec(f.tax_amount, "0"@),
                        first_of(
                            bad_dec(f.tax_inclusive_amount, "0"@),
                            first_of(bad_dec(f.prepaid_amount, "0"@), bad_dec(f.payable_amount, "0"@)),
                        ),
                    ),
                ),
            ),
        ),
    )
}

pub fn totals_of(f: &DocFields, vat_breakdown: Vec<VatBreakdown>) -> (r: Result<Totals, RechnungError>)
    ensures
        r is Ok <==> totals_ok(*f),
        r matches Ok(t) ==> totals_from(*f, vat_breakdown@, t),
        r matches Err(e) ==> decimal_error(e) && decimal_error_at(e, bad_totals(*f)),
{
    let vat_total_in_tax_currency = decimal_opt(&f.tax_total_in_tax_currency);
    let line_net_total = match decimal_or(&f.line_extension_amount, "0") {
        Ok(v) => v,
        Err(e) => return Err(e),
    };
    let allowances_total = match decimal_or(&f.allowance_total_amount, "0") {
        Ok(v) => v,
        Err(e) => return Err(e),
    };
    let charges_total = match decimal_or(&f.charge_total_amount, "0") {
        Ok(v) => v,
        Err(e) => return Err(e),
    };
    let net_total = match decimal_or(&f.tax_exclusive_amount, "0") {
        Ok(v) => v,
        Err(e) => return Err(e),
    };
    let vat_total = match decimal_or(&f.tax_amount, "0") {
        Ok(v) => v,
        Err(e) => return Err(e),
    };
    let gross_total = match decimal_or(&f.tax_inclusive_amount, "0") {
        Ok(v) => v,
        Err(e) => return Err(e),
    };
    let prepaid = match decimal_or(&f.prepaid_amount, "0") {
        Ok(v) => v,
        Err(e) => return Err(e),
    };
    let amount_due = match decimal_or(&f.payable_amount, "0") {
        Ok(v) => v,
        Err(e) => return Err(e),
    };
    Ok(
        Totals {
            line_net_total,
            allowances_total,
            charges_total,
            net_total,
            vat_total,
            vat_total_in_tax_currency,
            gross_total,
            prepaid,
            amount_due,
            vat_breakdown,
        },
    )
}


// ---------------------------------------------------------------- references and documents

/// The references built, in order, from those read that have a number.
pub open spec fn preceding_from(ps: Seq<ParsedPreceding>, fmt: Seq<char>, out: Seq<PrecedingInvoiceReference>) -> bool
    decreases ps.len(),
{
    if ps.len() == 0 {
        out.len() == 0
    } else {
        match ps.last().number {
            Some(n) => out.len() > 0 && out.last().number == n && date_view(out.last().issue_date)
                == opt_date(ps.last().issue_date, fmt) && preceding_from(ps.drop_last(), fmt, out.drop_last()),
            None => preceding_from(ps.drop_last(), fmt, out),
        }
    }
}

pub fn preceding_of(ps: &Vec<ParsedPreceding>, fmt: &str) -> (r: Vec<PrecedingInvoiceReference>)
    ensures
        preceding_from(ps@, fmt@, r@),
{
    let mut out: Vec<PrecedingInvoiceReference> = Vec::new();
    let mut i: usize = 0;
    while i < ps.len()
        invariant
            i <= ps@.len(),
            preceding_from(ps@.take(i as int), fmt@, out@),
        decreases ps.len() - i,
    {
        let ghost o0 = out@;
        proof {
            assert(ps@.take(i + 1).drop_last() =~= ps@.take(i as int));
            assert(ps@.take(i + 1).last() == ps@[i as int]);
        }
        match &ps[i].number {
            Some(n) => {
                out.push(
                    PrecedingInvoiceReference { number: n.clone(), issue_date: date_opt(&ps[i].issue_date, fmt) },
                );
                proof {
                    assert(out@.drop_last() =~= o0);
                }
            },
            None => {},
        }
        i = i + 1;
    }
    proof {
        assert(ps@.take(ps@.len() as int) =~= ps@);
    }
    out
}

/// The supporting document built from one as read: its content embedded
/// where there is one, with empty type and file name where none was read.
pub open spec fn attachment_from(a: ParsedAttachment, d: DocumentAttachment) -> bool {
    &&& d.id == a.id
    &&& d.description == a.description
    &&& d.external_uri == a.external_uri
    &&& match a.content {
        Some(c) => d.embedded_document matches Some(e) && e.content == c && e.mime_type@ == or_empty(
            a.mime_type,
        ) && e.filename@ == or_empty(a.filename),
        None => d.embedded_document is None,
    }
}

pub fn attachments_of(v: &Vec<ParsedAttachment>) -> (r: Vec<DocumentAttachment>)
    ensures
        r@.len() == v@.len(),
        forall|i: int| 0 <= i < v@.len() ==> attachment_from(v@[i], #[trigger] r@[i]),
{
    let mut out: Vec<DocumentAttachment> = Vec::new();
    let mut i: usize = 0;
    while i < v.len()
        invariant
            i <= v@.len(),
            out@.len() == i,
            forall|j: int| 0 <= j < i ==> attachment_from(v@[j], #[trigger] out@[j]),
        decreases v.len() - i,
    {
        let a = &v[i];
        let embedded_document = match &a.content {
            Some(c) => Some(
                EmbeddedDocument {
                    content: c.clone(),
                    mime_type: text_or_default(&a.mime_type, ""),
                    filename: text_or_default(&a.filename, ""),
                },
            ),
            None => None,
        };
        proof {
            reveal_strlit("");
            assert(""@ =~= Seq::<char>::empty());
        }
        out.push(
            DocumentAttachment {
                id: copy_text(&a.id),
                description: copy_text(&a.description),
                external_uri: copy_text(&a.external_uri),
                embedded_document,
            },
        );
        i = i + 1;
    }
    out
}

// ---------------------------------------------------------------- delivery, payee, representative

/// Delivery information where a delivery date reads, a deliver-to name was
/// read, or a city and country were read.
pub open spec fn delivery_from(f: DocFields, fmt: Seq<char>, d: Option<DeliveryInformation>) -> bool {
    let date = opt_date(f.delivery_actual_date, fmt);
    let has_address = f.delivery_city is Some && f.delivery_country is Some;
    if date is Some || f.delivery_party_name is Some || has_address {
        d matches Some(di) && {
            &&& date_view(di.actual_delivery_date) == date
            &&& di.delivery_party == (match f.delivery_party_name {
                Some(n) => Some(DeliveryParty { name: n, location_id: f.delivery_party_location_id }),
                None => None,
            })
            &&& match (f.delivery_city, f.delivery_country) {
                (Some(c), Some(k)) => di.delivery_address matches Some(a) && {
                    &&& a.street == f.delivery_street
                    &&& a.additional == f.delivery_additional
                    &&& a.city == c
                    &&& a.postal_code@ == or_empty(f.delivery_postal)
                    &&& a.subdivision == f.delivery_subdivision
                    &&& a.country_code == k
                },
                _ => di.delivery_address is None,
            }
        }
    } else {
        d is None
    }
}

pub fn delivery_of(f: &DocFields, fmt: &str) -> (r: Option<DeliveryInformation>)
    ensures
        delivery_from(*f, fmt@, r),
{
    let actual_delivery_date = date_opt(&f.delivery_actual_date, fmt);
    let delivery_party = match &f.delivery_party_name {
        Some(n) => Some(DeliveryParty { name: n.clone(), location_id: copy_text(&f.delivery_party_location_id) }),
        None => None,
    };
    let delivery_address = match (&f.delivery_city, &f.delivery_country) {
        (Some(c), Some(k)) => Some(
            DeliveryAddress {
                street: copy_text(&f.delivery_street),
                additional: copy_text(&f.delivery_additional),
                city: c.clone(),
                postal_code: text_or_default(&f.delivery_postal, ""),
                subdivision: copy_text(&f.delivery_subdivision),
                country_code: k.clone(),
            },
        ),
        _ => None,
    };
    proof {
        reveal_strlit("");
        assert(""@ =~= Seq::<char>::empty());
    }
    if actual_delivery_date.is_some() || delivery_party.is_some() || delivery_address.is_some() {
        Some(DeliveryInformation { actual_delivery_date, delivery_party, delivery_address })
    } else {
        None
    }
}

pub open spec fn payee_from(f: DocFields, p: Option<Payee>) -> bool {
    p == (match f.payee_name {
        Some(name) => Some(
            Payee { name, identifier: f.payee_identifier, legal_registration_id: f.payee_legal_reg_id },
        ),
        None => None,
    })
}

pub fn payee_of(f: &DocFields) -> (r: Option<Payee>)
    ensures
        payee_from(*f, r),
{
    match &f.payee_name {
        Some(name) => Some(
            Payee {
                name: name.clone(),
                identifier: copy_text(&f.payee_identifier),
                legal_registration_id: copy_text(&f.payee_legal_reg_id),
            },
        ),
        None => None,
    }
}

/// A tax representative where its name and VAT identifier were read.
pub open spec fn tax_rep_from(f: DocFields, t: Option<TaxRepresentative>) -> bool {
    match (f.tax_rep_name, f.tax_rep_vat_id) {
        (Some(n), Some(v)) => t matches Some(r) && r.name == n && r.vat_id == v && address_from(
            f.tax_rep_street,
            f.tax_rep_additional,
            f.tax_rep_city,
            f.tax_rep_postal,
            f.tax_rep_country,
            f.tax_rep_subdivision,
            r.address,
        ),
        _ => t is None,
    }
}

fn tax_rep_of(f: &DocFields) -> (r: Option<TaxRepresentative>)
    ensures
        tax_rep_from(*f, r),
{
    match (&f.tax_rep_name, &f.tax_rep_vat_id) {
        (Some(n), Some(v)) => Some(
            TaxRepresentative {
                name: n.clone(),
                vat_id: v.clone(),
                address: address_of(
                    &f.tax_rep_street,
                    &f.tax_rep_additional,
                    &f.tax_rep_city,
                    &f.tax_rep_postal,
                    &f.tax_rep_country,
                    &f.tax_rep_subdivision,
                ),
            },
        ),
        _ => None,
    }
}


// ---------------------------------------------------------------- the invoice

/// The invoice type read, a commercial invoice where the code is unknown.
pub open spec fn type_of(o: Option<String>) -> InvoiceTypeCode {
    match parsed_u16(text_or(o, "380"@)) {
        Ok(c) => match type_from_code_spec(c) {
            Some(t) => t,
            None => InvoiceTypeCode::Invoice,
        },
        Err(_) => InvoiceTypeCode::Invoice,
    }
}

/// An invoice can be built from the document read: it has an issue date
/// that reads, a type code that reads, and every amount that is needed reads.
pub open spec fn ubl_readable(s: ParsedDocV) -> bool {
    &&& opt_date(s.f.issue_date, iso_format()) is Some
    &&& parsed_u16(text_or(s.f.type_code, "380"@)) is Ok
    &&& forall|i: int| 0 <= i < s.lines.len() ==> line_ok(#[trigger] s.lines[i], true)
    &&& forall|i: int| 0 <= i < s.breakdowns.len() ==> breakdown_ok(#[trigger] s.breakdowns[i])
    &&& totals_ok(s.f)
    &&& forall|i: int| 0 <= i < s.doc_acs.len() ==> ac_ok(#[trigger] s.doc_acs[i])
}

/// The first amount of a UBL document that does not read: in the lines,
/// then the VAT breakdown, the document totals, and the document's
/// allowances and charges.
pub open spec fn bad_ubl_amount(s: ParsedDocV) -> Option<Seq<char>> {
    first_of(
        bad_lines(s.lines, true),
        first_of(bad_breakdowns(s.breakdowns), first_of(bad_totals(s.f), bad_acs(s.doc_acs))),
    )
}

/// The error of a document from which no invoice can be built: a missing
/// issue date, an issue date or a type code that does not read, else the
/// first amount that does not read.
pub open spec fn ubl_read_error(s: ParsedDocV, e: RechnungError) -> bool {
    match s.f.issue_date {
        None => e matches RechnungError::Builder(m) && m@ == "missing issue date"@,
        Some(t) => if parsed_date(t@, iso_format()) is None {
            e matches RechnungError::Builder(m) && starts_with(m@, "invalid date '"@ + t@ + "': "@)
        } else {
            match parsed_u16(text_or(s.f.type_code, "380"@)) {
                Err(k) => e matches RechnungError::Builder(m) && m@ == "invalid type code: "@
                    + int_error_text(k),
                Ok(_) => decimal_error(e) && decimal_error_at(e, bad_ubl_amount(s)),
            }
        },
    }
}

/// The invoice built from a document read.
pub open spec fn ubl_invoice(s: ParsedDocV, inv: Invoice) -> bool {
    &&& inv.number@ == or_empty(s.f.number)
    &&& opt_date(s.f.issue_date, iso_format()) == Some(inv.issue_date@)
    &&& date_view(inv.due_date) == opt_date(s.f.due_date, iso_format())
    &&& inv.type_code == type_of(s.f.type_code)
    &&& inv.currency_code@ == text_or(s.f.currency_code, "EUR"@)
    &&& inv.tax_currency_code == s.f.tax_currency_code
    &&& inv.notes@ == s.notes
    &&& inv.buyer_reference == s.f.buyer_reference
    &&& inv.project_reference is None
    &&& inv.contract_reference is None
    &&& inv.order_reference == s.f.order_reference
    &&& inv.sales_order_reference is None
    &&& inv.buyer_accounting_reference is None
    &&& seller_from(s.f, inv.seller)
    &&& buyer_from(s.f, inv.buyer)
    &&& inv.lines@.len() == s.lines.len()
    &&& forall|i: int| 0 <= i < s.lines.len() ==> line_from(s.lines[i], iso_format(), #[trigger] inv.lines@[i])
    &&& inv.vat_scenario == VatScenario::Domestic
    &&& acs_split(s.doc_acs, inv.allowances@, inv.charges@)
    &&& inv.totals matches Some(t) && {
        &&& totals_from(s.f, t.vat_breakdown@, t)
        &&& t.vat_breakdown@.len() == s.breakdowns.len()
        &&& forall|i: int|
            0 <= i < s.breakdowns.len() ==> breakdown_from(s.breakdowns[i], #[trigger] t.vat_breakdown@[i])
    }
    &&& inv.payment_terms == s.f.payment_terms
    &&& payment_from(s.f, inv.payment)
    &&& date_view(inv.tax_point_date) == opt_date(s.f.tax_point_date, iso_format())
    &&& period_from(s.f.invoicing_period_start, s.f.invoicing_period_end, iso_format(), inv.invoicing_period)
    &&& payee_from(s.f, inv.payee)
    &&& tax_rep_from(s.f, inv.tax_representative)
    &&& preceding_from(s.preceding, iso_format(), inv.preceding_invoices@)
    &&& inv.attachments@.len() == s.attachments.len()
    &&& forall|i: int|
        0 <= i < s.attachments.len() ==> attachment_from(s.attachments[i], #[trigger] inv.attachments@[i])
    &&& delivery_from(s.f, iso_format(), inv.delivery)
}

pub fn copy_texts(v: &Vec<String>) -> (r: Vec<String>)
    ensures
        r@ == v@,
{
    let mut r: Vec<String> = Vec::new();
    let mut i: usize = 0;
    while i < v.len()
        invariant
            i <= v@.len(),
            r@ == v@.take(i as int),
        decreases v.len() - i,
    {
        r.push(v[i].clone());
        i = i + 1;
        proof {
            assert(r@ =~= v@.take(i as int));
        }
    }
    proof {
        assert(v@.take(v@.len() as int) =~= v@);
    }
    r
}

impl ParsedDoc {
    /// The invoice the document read describes.
    pub fn into_invoice(&self) -> (r: Result<Invoice, RechnungError>)
        ensures
            r is Ok <==> ubl_readable(self@),
            r matches Ok(inv) ==> ubl_invoice(self@, inv),
            r matches Err(e) ==> ubl_read_error(self@, e),
    {
        let f = &self.f;
        let issue_text = match &f.issue_date {
            Some(t) => t,
            None => {
                return Err(RechnungError::Builder(string_of("missing issue date")));
            },
        };
        let issue_date = match parse_date(issue_text.as_str(), "%Y-%m-%d") {
            Ok(d) => d,
            Err(why) => {
                let m = invalid_message("invalid date", issue_text.as_str(), why.as_str());
                proof {
                    reveal_strlit("invalid date");
                    reveal_strlit(" '");
                    reveal_strlit("invalid date '");
                    reveal_strlit("': ");
                    assert(m@.subrange(0, (14 + issue_text@.len() + 3) as int) =~= "invalid date '"@ + issue_text@
                        + "': "@);
                }
                return Err(RechnungError::Builder(m));
            },
        };
        let type_num = match parse_u16(text_ref(&f.type_code, "380")) {
            Ok(n) => n,
            Err(k) => {
                let mut m = string_of("invalid type code: ");
                push_str(&mut m, k.message());
                return Err(RechnungError::Builder(m));
            },
        };
        let seller = seller_of(f);
        let buyer = buyer_of(f);
        proof {
            assert(self.lines@.map_values(|l: ParsedLine| l@) =~= self@.lines);
        }
        let lines = match convert_lines(&self.lines, "%Y-%m-%d", true) {
            Ok(v) => v,
            Err(e) => {
                proof {
                    let j = choose|j: int| 0 <= j < self.lines@.len() && !line_ok(self.lines@[j]@, true);
                    assert(self@.lines[j] == self.lines@[j]@);
                    assert(!line_ok(self@.lines[j], true));
                }
                return Err(e);
            },
        };
        proof {
            assert forall|i: int| 0 <= i < self@.lines.len() implies line_ok(#[trigger] self@.lines[i], true) by {
                assert(self@.lines[i] == self.lines@[i]@);
            }
            lemma_bad_lines_none(self@.lines, true);
        }
        let vat_breakdown = match convert_breakdowns(&self.breakdowns) {
            Ok(v) => v,
            Err(e) => {
                proof {
                    let j = choose|j: int| 0 <= j < self.breakdowns@.len() && !breakdown_ok(self.breakdowns@[j]);
                    assert(!breakdown_ok(self@.breakdowns[j]));
                }
                return Err(e);
            },
        };
        proof {
            lemma_bad_breakdowns_none(self@.breakdowns);
        }
        let ghost bds = vat_breakdown@;
        let payment = payment_of(f);
        let totals = match totals_of(f, vat_breakdown) {
            Ok(t) => t,
            Err(e) => return Err(e),
        };
        let preceding_invoices = preceding_of(&self.preceding, "%Y-%m-%d");
        let attachments = attachments_of(&self.attachments);
        let invoicing_period = period_of(&f.invoicing_period_start, &f.invoicing_period_end, "%Y-%m-%d");
        let (allowances, charges) = match convert_acs(&self.doc_acs) {
            Ok(x) => x,
            Err(e) => {
                proof {
                    let j = choose|j: int| 0 <= j < self.doc_acs@.len() && !ac_ok(self.doc_acs@[j]);
                    assert(!ac_ok(self@.doc_acs[j]));
                }
                return Err(e);
            },
        };
        let delivery = delivery_of(f, "%Y-%m-%d");
        let payee = payee_of(f);
        let tax_representative = tax_rep_of(f);
        let type_code = match InvoiceTypeCode::from_code(type_num) {
            Some(t) => t,
            None => InvoiceTypeCode::Invoice,
        };
        let inv = Invoice {
            number: text_or_default(&f.number, ""),
            issue_date,
            due_date: date_opt(&f.due_date, "%Y-%m-%d"),
            type_code,
            currency_code: text_or_default(&f.currency_code, "EUR"),
            tax_currency_code: copy_text(&f.tax_currency_code),
            notes: copy_texts(&self.notes),
            buyer_reference: copy_text(&f.buyer_reference),
            project_reference: None,
            contract_reference: None,
            order_reference: copy_text(&f.order_reference),
            sales_order_reference: None,
            buyer_accounting_reference: None,
            seller,
            buyer,
            lines,
            vat_scenario: VatScenario::Domestic,
            allowances,
            charges,
            totals: Some(totals),
            payment_terms: copy_text(&f.payment_terms),
            payment,
            tax_point_date: date_opt(&f.tax_point_date, "%Y-%m-%d"),
            invoicing_period,
            payee,
            tax_representative,
            preceding_invoices,
            attachments,
            delivery,
        };
        proof {
            reveal_strlit("");
            assert(""@ =~= Seq::<char>::empty());
            assert forall|i: int| 0 <= i < self.lines@.len() implies self@.lines[i] == self.lines@[i]@ by {}
        }
        Ok(inv)
    }
}

/// What parsing a UBL text gives: the message of its first syntax error,
/// else the invoice built from the document read, or why none can be.
pub open spec fn ubl_result(xml: Seq<char>, r: Result<Invoice, RechnungError>) -> bool {
    match ubl_run(empty_doc(), seq![], xml_reads(xml)) {
        Err(m) => r matches Err(RechnungError::Builder(e)) && e@ == "XML parse error: "@ + m,
        Ok(s) => {
            &&& r is Ok <==> ubl_readable(s)
            &&& r matches Ok(inv) ==> ubl_invoice(s, inv)
            &&& r matches Err(e) ==> ubl_read_error(s, e)
        },
    }
}

/// Parses a UBL invoice or credit note.
pub fn from_ubl_xml(xml: &str) -> (r: Result<Invoice, RechnungError>)
    ensures
        ubl_result(xml@, r),
{
    match read_ubl(xml) {
        Ok(p) => p.into_invoice(),
        Err(m) => {
            let mut e = string_of("XML parse error: ");
            push_str(&mut e, m.as_str());
            Err(RechnungError::Builder(e))
        },
    }
}

} // verus!
