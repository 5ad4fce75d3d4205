//! Validation against §14 UStG and EN 16931.
use vstd::prelude::*;
use crate::decimal::{display_spec, lt, push_display, value_lt, Dec};
use crate::model::codes::{
    country_code_list, currency_code_list, is_known_country_code, is_known_currency_code,
};
use crate::model::error::{errors_view, verror, ErrorView, ValidationError};
use crate::model::totals::{arithmetic_errors, validate_arithmetic};
use crate::model::types::{
    tax_code_spec, Address, Invoice, LineItem, Party, TaxCategory, VatScenario,
};
use crate::text::{
    all_digits, all_upper, byte_len, chars_of, concat, contains, is_blank, is_blank_seq, nat_str,
    push_str, range_all_upper, seq_contains, str_eq, string_from_chars, string_of, strip_ws,
    strip_ws_from, u64_to_string, utf8_len, utf8_width,
};

verus! {

/// An error with a rule identifier.
pub open spec fn rule_error(field: Seq<char>, message: Seq<char>, rule: Seq<char>) -> ErrorView {
    (field, message, Some(rule))
}

/// One error where `c` holds, none otherwise.
pub open spec fn error_if(c: bool, e: ErrorView) -> Seq<ErrorView> {
    if c {
        seq![e]
    } else {
        seq![]
    }
}

/// The errors of each item, one item after the other.
pub open spec fn flatten_errors(s: Seq<Seq<ErrorView>>) -> Seq<ErrorView>
    decreases s.len(),
{
    if s.len() == 0 {
        seq![]
    } else {
        flatten_errors(s.drop_last()) + s.last()
    }
}

pub proof fn lemma_flatten_push(s: Seq<Seq<ErrorView>>, x: Seq<ErrorView>)
    ensures
        flatten_errors(s.push(x)) == flatten_errors(s) + x,
{
    assert(s.push(x).drop_last() =~= s);
}

/// Appends an error with a rule to `errors`.
pub fn add_error(errors: &mut Vec<ValidationError>, field: String, message: String, rule: &str)
    ensures
        errors_view(final(errors)@) == errors_view(old(errors)@).push(
            rule_error(field@, message@, rule@),
        ),
{
    let ghost f = field@;
    let ghost m = message@;
    errors.push(verror(field, message, rule));
    proof {
        assert(errors_view(errors@) =~= errors_view(old(errors)@).push(rule_error(f, m, rule@)));
    }
}

/// Appends an error with a rule where `cond` holds.
pub fn add_error_if(
    errors: &mut Vec<ValidationError>,
    cond: bool,
    field: &str,
    message: &str,
    rule: &str,
)
    ensures
        errors_view(final(errors)@) == errors_view(old(errors)@) + error_if(
            cond,
            rule_error(field@, message@, rule@),
        ),
{
    if cond {
        add_error(errors, string_of(field), string_of(message), rule);
    } else {
        proof {
            assert(errors_view(final(errors)@) =~= errors_view(old(errors)@));
        }
    }
}

/// `prefix[i]suffix`.
pub open spec fn indexed(prefix: Seq<char>, i: nat, suffix: Seq<char>) -> Seq<char> {
    prefix + "["@ + nat_str(i) + "]"@ + suffix
}

/// The text `format!("{prefix}[{i}]{suffix}")` gives.
pub fn indexed_path(prefix: &str, i: usize, suffix: &str) -> (r: String)
    ensures
        r@ == indexed(prefix@, i as nat, suffix@),
{
    let mut r = string_of(prefix);
    push_str(&mut r, "[");
    let n = u64_to_string(i as u64);
    push_str(&mut r, n.as_str());
    push_str(&mut r, "]");
    push_str(&mut r, suffix);
    proof {
        assert(r@ =~= indexed(prefix@, i as nat, suffix@));
    }
    r
}

// ---------------------------------------------------------------- parties

/// Errors of a postal address whose fields are reported under `prefix`.
pub open spec fn address_errors(a: Address, prefix: Seq<char>) -> Seq<ErrorView> {
    let cc = a.country_code@;
    error_if(
        is_blank_seq(a.city@),
        rule_error(prefix + ".city"@, "city must not be empty"@, "BR-09"@),
    ) + error_if(
        is_blank_seq(a.postal_code@),
        rule_error(
            prefix + ".postal_code"@,
            "postal code (BT-38/BT-53) must not be empty"@,
            "BR-09"@,
        ),
    ) + if is_blank_seq(cc) {
        seq![rule_error(prefix + ".country_code"@, "country code must not be empty"@, "BR-09"@)]
    } else if utf8_len(cc) != 2 {
        seq![
            rule_error(
                prefix + ".country_code"@,
                "country code (BT-40/BT-55) must be 2 characters (ISO 3166-1 alpha-2)"@,
                "BR-09"@,
            ),
        ]
    } else if !country_code_list().contains(cc) {
        seq![
            rule_error(
                prefix + ".country_code"@,
                "country code '"@ + cc + "' is not a known ISO 3166-1 alpha-2 code"@,
                "BR-09"@,
            ),
        ]
    } else {
        seq![]
    }
}

fn validate_address(address: &Address, prefix: &str, errors: &mut Vec<ValidationError>)
    ensures
        errors_view(final(errors)@) == errors_view(old(errors)@) + address_errors(
            *address,
            prefix@,
        ),
{
    let ghost start = errors_view(errors@);
    if is_blank(address.city.as_str()) {
        add_error(errors, concat(prefix, ".city"), string_of("city must not be empty"), "BR-09");
    }
    if is_blank(address.postal_code.as_str()) {
        add_error(
            errors,
            concat(prefix, ".postal_code"),
            string_of("postal code (BT-38/BT-53) must not be empty"),
            "BR-09",
        );
    }
    let cc = address.country_code.as_str();
    if is_blank(cc) {
        add_error(
            errors,
            concat(prefix, ".country_code"),
            string_of("country code must not be empty"),
            "BR-09",
        );
    } else if byte_len(cc) != 2 {
        add_error(
            errors,
            concat(prefix, ".country_code"),
            string_of("country code (BT-40/BT-55) must be 2 characters (ISO 3166-1 alpha-2)"),
            "BR-09",
        );
    } else if !is_known_country_code(cc) {
        let mut m = string_of("country code '");
        push_str(&mut m, cc);
        push_str(&mut m, "' is not a known ISO 3166-1 alpha-2 code");
        add_error(errors, concat(prefix, ".country_code"), m, "BR-09");
    }
    proof {
        assert(errors_view(errors@) =~= start + address_errors(*address, prefix@));
    }
}

/// Errors of the seller party.
pub open spec fn party_errors(p: Party, prefix: Seq<char>) -> Seq<ErrorView> {
    error_if(
        is_blank_seq(p.name@),
        rule_error(prefix + ".name"@, "name must not be empty"@, "BR-06"@),
    ) + address_errors(p.address, prefix + ".address"@)
}

fn validate_party(party: &Party, prefix: &str, errors: &mut Vec<ValidationError>)
    ensures
        errors_view(final(errors)@) == errors_view(old(errors)@) + party_errors(*party, prefix@),
{
    let ghost start = errors_view(errors@);
    if is_blank(party.name.as_str()) {
        add_error(errors, concat(prefix, ".name"), string_of("name must not be empty"), "BR-06");
    }
    let p = concat(prefix, ".address");
    validate_address(&party.address, p.as_str(), errors);
    proof {
        assert(errors_view(errors@) =~= start + party_errors(*party, prefix@));
    }
}

/// Errors of the buyer party; a small invoice (§33 UStDV) needs no buyer details.
pub open spec fn buyer_errors(p: Party, prefix: Seq<char>, scenario: VatScenario) -> Seq<
    ErrorView,
> {
    if scenario == VatScenario::SmallInvoice {
        seq![]
    } else {
        error_if(
            is_blank_seq(p.name@),
            rule_error(prefix + ".name"@, "buyer name must not be empty"@, "BR-07"@),
        ) + address_errors(p.address, prefix + ".address"@)
    }
}

fn validate_party_buyer(
    party: &Party,
    prefix: &str,
    scenario: VatScenario,
    errors: &mut Vec<ValidationError>,
)
    ensures
        errors_view(final(errors)@) == errors_view(old(errors)@) + buyer_errors(
            *party,
            prefix@,
            scenario,
        ),
{
    let ghost start = errors_view(errors@);
    if scenario == VatScenario::SmallInvoice {
        proof {
            assert(errors_view(errors@) =~= start + buyer_errors(*party, prefix@, scenario));
        }
        return ;
    }
    if is_blank(party.name.as_str()) {
        add_error(
            errors,
            concat(prefix, ".name"),
            string_of("buyer name must not be empty"),
            "BR-07",
        );
    }
    let p = concat(prefix, ".address");
    validate_address(&party.address, p.as_str(), errors);
    proof {
        assert(errors_view(errors@) =~= start + buyer_errors(*party, prefix@, scenario));
    }
}

// ---------------------------------------------------------------- VAT IDs

/// Number of characters that make up the first two bytes of `s`.
pub open spec fn two_byte_prefix_chars(s: Seq<char>) -> int {
    if utf8_width(s[0]) == 2 {
        1
    } else {
        2
    }
}

/// Whether byte 2 of a VAT identifier of at least 4 bytes falls between two
/// characters, so that its 2-byte prefix can be taken.
pub open spec fn vat_id_sliceable(s: Seq<char>) -> bool {
    utf8_len(s) >= 4 ==> (utf8_width(s[0]) == 2 || (utf8_width(s[0]) == 1 && utf8_width(s[1])
        == 1))
}

/// Errors of the format of a VAT identifier reported under `field`.
pub open spec fn vat_id_errors(v: Seq<char>, field: Seq<char>) -> Seq<ErrorView> {
    if utf8_len(v) < 4 {
        seq![
            rule_error(
                field,
                "VAT ID (BT-31/BT-48) '"@ + v
                    + "' too short — expected 2-letter country code + identifier"@,
                "BR-CO-09"@,
            ),
        ]
    } else {
        let p = v.take(two_byte_prefix_chars(v));
        let digits = strip_ws(v.skip(2));
        error_if(
            !all_upper(p),
            rule_error(
                field,
                "VAT ID (BT-31/BT-48) must start with a 2-letter country code (e.g. DE, AT, FR), got: '"@
                    + p + "'"@,
                "BR-CO-09"@,
            ),
        ) + error_if(
            p == "DE"@ && !(digits.len() == 9 && all_digits(digits)),
            rule_error(
                field,
                "German VAT ID must be DE followed by exactly 9 digits (e.g. DE123456789), got: '"@
                    + v + "'"@,
                "BR-CO-09"@,
            ),
        )
    }
}

pub proof fn lemma_utf8_len_bounds(s: Seq<char>)
    ensures
        s.len() <= utf8_len(s) <= 4 * s.len(),
        s.len() > 0 ==> utf8_len(s) >= utf8_width(s[0]),
        s.len() == 1 ==> utf8_len(s) == utf8_width(s[0]),
        s.len() > 1 ==> utf8_len(s) >= utf8_width(s[0]) + utf8_width(s[1]),
    decreases s.len(),
{
    if s.len() > 0 {
        lemma_utf8_len_bounds(s.drop_last());
        if s.len() > 1 {
            assert(s.drop_last()[0] == s[0]);
        }
        if s.len() > 2 {
            assert(s.drop_last()[1] == s[1]);
        }
    }
}

fn validate_vat_id_format(vat_id: &str, field: &str, errors: &mut Vec<ValidationError>)
    requires
        vat_id_sliceable(vat_id@),
    ensures
        errors_view(final(errors)@) == errors_view(old(errors)@) + vat_id_errors(vat_id@, field@),
{
    let ghost start = errors_view(errors@);
    let ghost v = vat_id@;
    if byte_len(vat_id) < 4 {
        let mut m = string_of("VAT ID (BT-31/BT-48) '");
        push_str(&mut m, vat_id);
        push_str(&mut m, "' too short — expected 2-letter country code + identifier");
        add_error(errors, string_of(field), m, "BR-CO-09");
        proof {
            assert(errors_view(errors@) =~= start + vat_id_errors(vat_id@, field@));
        }
        return ;
    }
    let chars = chars_of(vat_id);
    proof {
        lemma_utf8_len_bounds(v);
        assert(chars@.len() >= 2);
    }
    let first_width = crate::text::char_width(chars[0]);
    let pn: usize = if first_width == 2 {
        1
    } else {
        2
    };
    let prefix_ok = range_all_upper(&chars, 0, pn);
    let mut prefix: Vec<char> = Vec::new();
    prefix.push(chars[0]);
    if pn == 2 {
        prefix.push(chars[1]);
    }
    proof {
        assert(prefix@ =~= v.take(two_byte_prefix_chars(v)));
        assert(chars@.subrange(0, pn as int) =~= v.take(two_byte_prefix_chars(v)));
    }
    if !prefix_ok {
        let mut m = string_of(
            "VAT ID (BT-31/BT-48) must start with a 2-letter country code (e.g. DE, AT, FR), got: '",
        );
        let ps = string_from_chars(&prefix);
        push_str(&mut m, ps.as_str());
        push_str(&mut m, "'");
        add_error(errors, string_of(field), m, "BR-CO-09");
    }
    let ghost mid = errors_view(errors@);
    let is_de = pn == 2 && chars[0] == 'D' && chars[1] == 'E';
    proof {
        reveal_strlit("DE");
        if pn == 2 {
            assert(is_de == (v.take(2) == "DE"@)) by {
                if v.take(2) == "DE"@ {
                    assert(v.take(2)[0] == 'D');
                    assert(v.take(2)[1] == 'E');
                }
                if is_de {
                    assert(v.take(2) =~= "DE"@);
                }
            }
        } else {
            assert(v.take(1) != "DE"@) by {
                assert(v.take(1).len() == 1);
            }
        }
    }
    if is_de {
        let digits = strip_ws_from(&chars, 2);
        let ok = digits.len() == 9 && crate::text::range_all_digits(&digits, 0, digits.len());
        proof {
            assert(digits@.subrange(0, digits@.len() as int) =~= digits@);
            assert(chars@.subrange(2, chars@.len() as int) =~= v.skip(2));
        }
        if !ok {
            let mut m = string_of(
                "German VAT ID must be DE followed by exactly 9 digits (e.g. DE123456789), got: '",
            );
            push_str(&mut m, vat_id);
            push_str(&mut m, "'");
            add_error(errors, string_of(field), m, "BR-CO-09");
        }
    }
    proof {
        assert(errors_view(errors@) =~= start + vat_id_errors(vat_id@, field@));
    }
}

// ---------------------------------------------------------------- lines

/// The English name of a tax category.
pub open spec fn category_name_spec(c: TaxCategory) -> Seq<char> {
    match c {
        TaxCategory::StandardRate => "Standard Rate"@,
        TaxCategory::ZeroRated => "Zero Rated"@,
        TaxCategory::Exempt => "Exempt"@,
        TaxCategory::ReverseCharge => "Reverse Charge"@,
        TaxCategory::IntraCommunitySupply => "Intra-Community Supply"@,
        TaxCategory::Export => "Export"@,
        TaxCategory::NotSubjectToVat => "Not Subject to VAT"@,
    }
}

/// The English name of a tax category.
pub fn category_name(c: TaxCategory) -> (r: &'static str)
    ensures
        r@ == category_name_spec(c),
{
    match c {
        TaxCategory::StandardRate => "Standard Rate",
        TaxCategory::ZeroRated => "Zero Rated",
        TaxCategory::Exempt => "Exempt",
        TaxCategory::ReverseCharge => "Reverse Charge",
        TaxCategory::IntraCommunitySupply => "Intra-Community Supply",
        TaxCategory::Export => "Export",
        TaxCategory::NotSubjectToVat => "Not Subject to VAT",
    }
}

/// Errors of one invoice line at position `i`.
pub open spec fn line_errors(l: LineItem, i: nat) -> Seq<ErrorView> {
    let rate_zero = l.tax_rate@.0 == 0;
    error_if(
        is_blank_seq(l.id@),
        rule_error(indexed("lines"@, i, ".id"@), "line identifier must not be empty"@, "BR-21"@),
    ) + error_if(
        l.quantity@.0 == 0,
        rule_error(
            indexed("lines"@, i, ".quantity"@),
            "invoiced quantity (BT-129) must not be zero"@,
            "BR-22"@,
        ),
    ) + error_if(
        l.unit_price@.0 < 0,
        rule_error(
            indexed("lines"@, i, ".unit_price"@),
            "item net price (BT-146) must not be negative"@,
            "BR-27"@,
        ),
    ) + error_if(
        is_blank_seq(l.item_name@),
        rule_error(indexed("lines"@, i, ".item_name"@), "item name must not be empty"@, "BR-25"@),
    ) + error_if(
        l.tax_rate@.0 < 0,
        rule_error(
            indexed("lines"@, i, ".tax_rate"@),
            "line VAT rate (BT-152) must not be negative"@,
            "BR-27"@,
        ),
    ) + if l.tax_category == TaxCategory::StandardRate {
        error_if(
            rate_zero,
            rule_error(
                indexed("lines"@, i, ".tax_rate"@),
                "standard rate (S) category (BT-151) must have a non-zero VAT rate (BT-152)"@,
                "BR-S-05"@,
            ),
        )
    } else {
        error_if(
            !rate_zero,
            rule_error(
                indexed("lines"@, i, ".tax_rate"@),
                "tax rate must be 0 for category "@ + tax_code_spec(l.tax_category) + " ("@
                    + category_name_spec(l.tax_category) + ")"@,
                "BR-AE-05"@,
            ),
        )
    }
}

#[verifier::rlimit(60)]
#[verifier::spinoff_prover]
fn validate_line(line: &LineItem, index: usize, errors: &mut Vec<ValidationError>)
    ensures
        errors_view(final(errors)@) == errors_view(old(errors)@) + line_errors(*line, index as nat),
{
    let ghost start = errors_view(errors@);
    if is_blank(line.id.as_str()) {
        add_error(
            errors,
            indexed_path("lines", index, ".id"),
            string_of("line identifier must not be empty"),
            "BR-21",
        );
    }
    if line.quantity.is_zero() {
        add_error(
            errors,
            indexed_path("lines", index, ".quantity"),
            string_of("invoiced quantity (BT-129) must not be zero"),
            "BR-22",
        );
    }
    if line.unit_price.is_sign_negative() {
        add_error(
            errors,
            indexed_path("lines", index, ".unit_price"),
            string_of("item net price (BT-146) must not be negative"),
            "BR-27",
        );
    }
    if is_blank(line.item_name.as_str()) {
        add_error(
            errors,
            indexed_path("lines", index, ".item_name"),
            string_of("item name must not be empty"),
            "BR-25",
        );
    }
    if line.tax_rate.is_sign_negative() {
        add_error(
            errors,
            indexed_path("lines", index, ".tax_rate"),
            string_of("line VAT rate (BT-152) must not be negative"),
            "BR-27",
        );
    }
    match line.tax_category {
        TaxCategory::StandardRate => {
            if line.tax_rate.is_zero() {
                add_error(
                    errors,
                    indexed_path("lines", index, ".tax_rate"),
                    string_of(
                        "standard rate (S) category (BT-151) must have a non-zero VAT rate (BT-152)",
                    ),
                    "BR-S-05",
                );
            }
        },
        _ => {
            if !line.tax_rate.is_zero() {
                let mut m = string_of("tax rate must be 0 for category ");
                push_str(&mut m, line.tax_category.code());
                push_str(&mut m, " (");
                push_str(&mut m, category_name(line.tax_category));
                push_str(&mut m, ")");
                add_error(errors, indexed_path("lines", index, ".tax_rate"), m, "BR-AE-05");
            }
        },
    }
    proof {
        assert(errors_view(errors@) =~= start + line_errors(*line, index as nat));
    }
}

/// The errors of each line, in order.
pub open spec fn all_line_errors(lines: Seq<LineItem>) -> Seq<ErrorView> {
    flatten_errors(Seq::new(lines.len(), |i: int| line_errors(lines[i], i as nat)))
}

fn validate_lines(lines: &Vec<LineItem>, errors: &mut Vec<ValidationError>)
    ensures
        errors_view(final(errors)@) == errors_view(old(errors)@) + all_line_errors(lines@),
{
    let ghost start = errors_view(errors@);
    let mut i: usize = 0;
    while i < lines.len()
        invariant
            i <= lines.len(),
            errors_view(errors@) == start + flatten_errors(
                Seq::new(i as nat, |k: int| line_errors(lines@[k], k as nat)),
            ),
        decreases lines.len() - i,
    {
        validate_line(&lines[i], i, errors);
        proof {
            let f = |k: int| line_errors(lines@[k], k as nat);
            assert(Seq::new((i + 1) as nat, f) =~= Seq::new(i as nat, f).push(f(i as int)));
            lemma_flatten_push(Seq::new(i as nat, f), f(i as int));
        }
        i = i + 1;
    }
}

// ---------------------------------------------------------------- scenarios

/// Some note contains both `a` and `b`.
pub open spec fn has_note(notes: Seq<String>, a: Seq<char>, b: Seq<char>) -> bool {
    exists|k: int| 0 <= k < notes.len() && seq_contains(#[trigger] notes[k]@, a) && seq_contains(notes[k]@, b)
}

fn has_note_exec(notes: &Vec<String>, a: &str, b: &str) -> (r: bool)
    ensures
        r == has_note(notes@, a@, b@),
{
    let mut i: usize = 0;
    while i < notes.len()
        invariant
            i <= notes.len(),
            forall|k: int| 0 <= k < i ==> !(seq_contains(#[trigger] notes@[k]@, a@) && seq_contains(notes@[k]@, b@)),
        decreases notes.len() - i,
    {
        if contains(notes[i].as_str(), a) && contains(notes[i].as_str(), b) {
            return true;
        }
        i = i + 1;
    }
    false
}

/// An error for each line whose category is not `want`.
pub open spec fn category_errors(
    lines: Seq<LineItem>,
    want: TaxCategory,
    message: Seq<char>,
    rule: Seq<char>,
) -> Seq<ErrorView> {
    flatten_errors(
        Seq::new(
            lines.len(),
            |i: int|
                error_if(
                    lines[i].tax_category != want,
                    rule_error(indexed("lines"@, i as nat, ".tax_category"@), message, rule),
                ),
        ),
    )
}

fn check_categories(
    lines: &Vec<LineItem>,
    want: TaxCategory,
    message: &str,
    rule: &str,
    errors: &mut Vec<ValidationError>,
)
    ensures
        errors_view(final(errors)@) == errors_view(old(errors)@) + category_errors(
            lines@,
            want,
            message@,
            rule@,
        ),
{
    let ghost start = errors_view(errors@);
    let ghost f = |k: int|
        error_if(
            lines@[k].tax_category != want,
            rule_error(indexed("lines"@, k as nat, ".tax_category"@), message@, rule@),
        );
    let mut i: usize = 0;
    while i < lines.len()
        invariant
            i <= lines.len(),
            f == (|k: int|
                error_if(
                    lines@[k].tax_category != want,
                    rule_error(indexed("lines"@, k as nat, ".tax_category"@), message@, rule@),
                )),
            errors_view(errors@) == start + flatten_errors(Seq::new(i as nat, f)),
        decreases lines.len() - i,
    {
        let ghost before = errors_view(errors@);
        if lines[i].tax_category != want {
            add_error(errors, indexed_path("lines", i, ".tax_category"), string_of(message), rule);
        }
        proof {
            assert(errors_view(errors@) =~= before + f(i as int));
            assert(Seq::new((i + 1) as nat, f) =~= Seq::new(i as nat, f).push(f(i as int)));
            lemma_flatten_push(Seq::new(i as nat, f), f(i as int));
        }
        i = i + 1;
    }
}

/// Errors of the rules of the invoice's VAT scenario.
pub open spec fn scenario_errors(inv: Invoice) -> Seq<ErrorView> {
    let lines = inv.lines@;
    match inv.vat_scenario {
        VatScenario::Kleinunternehmer => error_if(
            !has_note(inv.notes@, "19"@, "UStG"@),
            rule_error(
                "notes"@,
                "Kleinunternehmer invoice must contain a note (BT-22) referencing §19 UStG"@,
                "BR-O-10"@,
            ),
        ) + category_errors(
            lines,
            TaxCategory::NotSubjectToVat,
            "Kleinunternehmer lines must use NotSubjectToVat (O) category (BT-151), got: {}"@,
            "BR-O-01"@,
        ),
        VatScenario::ReverseCharge => error_if(
            inv.buyer.vat_id is None,
            rule_error(
                "buyer.vat_id"@,
                "reverse charge: buyer must have a VAT ID (BT-48)"@,
                "BR-AE-02"@,
            ),
        ) + error_if(
            !has_note(inv.notes@, "13b"@, "UStG"@),
            rule_error(
                "notes"@,
                "reverse charge invoice must contain a note (BT-22) referencing §13b UStG"@,
                "BR-AE-10"@,
            ),
        ) + category_errors(
            lines,
            TaxCategory::ReverseCharge,
            "reverse charge lines must use ReverseCharge (AE) category (BT-151)"@,
            "BR-AE-01"@,
        ),
        VatScenario::IntraCommunitySupply => error_if(
            inv.seller.vat_id is None,
            rule_error(
                "seller.vat_id"@,
                "intra-community supply: seller must have a VAT ID (BT-31)"@,
                "BR-IC-02"@,
            ),
        ) + error_if(
            inv.buyer.vat_id is None,
            rule_error(
                "buyer.vat_id"@,
                "intra-community supply: buyer must have a VAT ID (BT-48)"@,
                "BR-IC-03"@,
            ),
        ) + error_if(
            inv.seller.address.country_code@ == inv.buyer.address.country_code@,
            rule_error(
                "buyer.address.country_code"@,
                "intra-community supply: buyer country (BT-55) must differ from seller country (BT-40)"@,
                "BR-IC-04"@,
            ),
        ) + category_errors(
            lines,
            TaxCategory::IntraCommunitySupply,
            "intra-community supply lines must use IntraCommunitySupply (K) category (BT-151)"@,
            "BR-IC-01"@,
        ),
        VatScenario::Export => category_errors(
            lines,
            TaxCategory::Export,
            "export lines must use Export (G) category (BT-151)"@,
            "BR-G-01"@,
        ),
        VatScenario::SmallInvoice => match inv.totals {
            Some(t) => error_if(
                value_lt((250i128, 0u32), t.gross_total@),
                rule_error(
                    "totals.gross_total"@,
                    "Kleinbetragsrechnung (§33 UStDV) gross total (BT-112) must not exceed €250, got: "@
                        + display_spec(t.gross_total@),
                    "BR-DE-17"@,
                ),
            ),
            None => seq![],
        },
        VatScenario::Domestic => seq![],
        VatScenario::Mixed => seq![],
    }
}

fn validate_scenario(invoice: &Invoice, errors: &mut Vec<ValidationError>)
    ensures
        errors_view(final(errors)@) == errors_view(old(errors)@) + scenario_errors(*invoice),
{
    let ghost start = errors_view(errors@);
    match invoice.vat_scenario {
        VatScenario::Kleinunternehmer => {
            if !has_note_exec(&invoice.notes, "19", "UStG") {
                add_error(
                    errors,
                    string_of("notes"),
                    string_of(
                        "Kleinunternehmer invoice must contain a note (BT-22) referencing §19 UStG",
                    ),
                    "BR-O-10",
                );
            }
            check_categories(
                &invoice.lines,
                TaxCategory::NotSubjectToVat,
                "Kleinunternehmer lines must use NotSubjectToVat (O) category (BT-151), got: {}",
                "BR-O-01",
                errors,
            );
        },
        VatScenario::ReverseCharge => {
            if invoice.buyer.vat_id.is_none() {
                add_error(
                    errors,
                    string_of("buyer.vat_id"),
                    string_of("reverse charge: buyer must have a VAT ID (BT-48)"),
                    "BR-AE-02",
                );
            }
            if !has_note_exec(&invoice.notes, "13b", "UStG") {
                add_error(
                    errors,
                    string_of("notes"),
                    string_of(
                        "reverse charge invoice must contain a note (BT-22) referencing §13b UStG",
                    ),
                    "BR-AE-10",
                );
            }
            check_categories(
                &invoice.lines,
                TaxCategory::ReverseCharge,
                "reverse charge lines must use ReverseCharge (AE) category (BT-151)",
                "BR-AE-01",
                errors,
            );
        },
        VatScenario::IntraCommunitySupply => {
            if invoice.seller.vat_id.is_none() {
                add_error(
                    errors,
                    string_of("seller.vat_id"),
                    string_of("intra-community supply: seller must have a VAT ID (BT-31)"),
                    "BR-IC-02",
                );
            }
            if invoice.buyer.vat_id.is_none() {
                add_error(
                    errors,
                    string_of("buyer.vat_id"),
                    string_of("intra-community supply: buyer must have a VAT ID (BT-48)"),
                    "BR-IC-03",
                );
            }
            if str_eq(
                invoice.seller.address.country_code.as_str(),
                invoice.buyer.address.country_code.as_str(),
            ) {
                add_error(
                    errors,
                    string_of("buyer.address.country_code"),
                    string_of(
                        "intra-community supply: buyer country (BT-55) must differ from seller country (BT-40)",
                    ),
                    "BR-IC-04",
                );
            }
            check_categories(
                &invoice.lines,
                TaxCategory::IntraCommunitySupply,
                "intra-community supply lines must use IntraCommunitySupply (K) category (BT-151)",
                "BR-IC-01",
                errors,
            );
        },
        VatScenario::Export => {
            check_categories(
                &invoice.lines,
                TaxCategory::Export,
                "export lines must use Export (G) category (BT-151)",
                "BR-G-01",
                errors,
            );
        },
        VatScenario::SmallInvoice => {
            match &invoice.totals {
                Some(t) => {
                    if lt(&Dec::new(250, 0), &t.gross_total) {
                        let mut m = string_of(
                            "Kleinbetragsrechnung (§33 UStDV) gross total (BT-112) must not exceed €250, got: ",
                        );
                        push_display(&mut m, &t.gross_total);
                        add_error(errors, string_of("totals.gross_total"), m, "BR-DE-17");
                    }
                },
                None => {},
            }
        },
        VatScenario::Domestic => {},
        VatScenario::Mixed => {},
    }
    proof {
        assert(errors_view(errors@) =~= start + scenario_errors(*invoice));
    }
}

// ---------------------------------------------------------------- §14 UStG

/// The VAT identifiers of both parties can be checked without slicing inside
/// a character.
pub open spec fn party_vat_ids_sliceable(inv: Invoice) -> bool {
    &&& inv.seller.vat_id matches Some(v) ==> vat_id_sliceable(v@)
    &&& inv.buyer.vat_id matches Some(v) ==> vat_id_sliceable(v@)
}

/// Errors of the invoice currency code (BR-05).
pub open spec fn currency_errors(c: Seq<char>) -> Seq<ErrorView> {
    if is_blank_seq(c) {
        seq![rule_error("currency_code"@, "currency code must not be empty"@, "BR-05"@)]
    } else if utf8_len(c) != 3 {
        seq![
            rule_error(
                "currency_code"@,
                "currency code must be 3 characters (ISO 4217)"@,
                "BR-05"@,
            ),
        ]
    } else if !currency_code_list().contains(c) {
        seq![
            rule_error(
                "currency_code"@,
                "currency code '"@ + c + "' is not a known ISO 4217 code"@,
                "BR-05"@,
            ),
        ]
    } else {
        seq![]
    }
}

/// Format errors of an optional VAT identifier.
pub open spec fn opt_vat_id_errors(v: Option<String>, field: Seq<char>) -> Seq<ErrorView> {
    match v {
        Some(s) => vat_id_errors(s@, field),
        None => seq![],
    }
}

/// BR-02 and BR-05: invoice number and currency code.
pub open spec fn header_errors(inv: Invoice) -> Seq<ErrorView> {
    error_if(
        is_blank_seq(inv.number@),
        rule_error("number"@, "invoice number must not be empty"@, "BR-02"@),
    ) + currency_errors(inv.currency_code@)
}

/// Seller and buyer details, and the seller's tax identifier (BR-CO-09).
pub open spec fn party_section_errors(inv: Invoice) -> Seq<ErrorView> {
    party_errors(inv.seller, "seller"@) + buyer_errors(inv.buyer, "buyer"@, inv.vat_scenario)
        + error_if(
        inv.vat_scenario != VatScenario::SmallInvoice && inv.tax_representative is None
            && inv.seller.vat_id is None && inv.seller.tax_number is None,
        rule_error(
            "seller"@,
            "seller must have either a VAT ID (USt-IdNr.) or tax number (Steuernummer)"@,
            "BR-CO-09"@,
        ),
    )
}

/// Formats of the parties' VAT identifiers.
pub open spec fn vat_id_section_errors(inv: Invoice) -> Seq<ErrorView> {
    opt_vat_id_errors(inv.seller.vat_id, "seller.vat_id"@) + opt_vat_id_errors(
        inv.buyer.vat_id,
        "buyer.vat_id"@,
    )
}

/// Delivery date (BR-CO-03), presence of lines (BR-16) and each line.
pub open spec fn line_section_errors(inv: Invoice) -> Seq<ErrorView> {
    error_if(
        inv.vat_scenario != VatScenario::SmallInvoice && inv.tax_point_date is None
            && inv.invoicing_period is None,
        rule_error(
            "tax_point_date"@,
            "invoice must have a delivery date (Leistungsdatum) or invoicing period (§14 Abs. 4 Nr. 6 UStG)"@,
            "BR-CO-03"@,
        ),
    ) + error_if(
        inv.lines@.len() == 0,
        rule_error("lines"@, "invoice must have at least one line item"@, "BR-16"@),
    ) + all_line_errors(inv.lines@)
}

/// The errors `validate_14_ustg` reports, in order.
pub open spec fn ustg_errors(inv: Invoice) -> Seq<ErrorView> {
    header_errors(inv) + party_section_errors(inv) + vat_id_section_errors(inv)
        + line_section_errors(inv) + scenario_errors(inv) + arithmetic_errors(inv)
}

/// `validate_14_ustg` reports an error on `field` under `rule` for `inv`.
pub open spec fn ustg_reports(inv: Invoice, field: Seq<char>, rule: Seq<char>) -> bool {
    exists|i: int|
        0 <= i < ustg_errors(inv).len() && (#[trigger] ustg_errors(inv)[i]).0 == field && ustg_errors(inv)[i].2
            == Some(rule)
}

/// The party rules of the VAT scenarios: an intra-community supply needs a
/// seller VAT identifier (BR-IC-02) and a buyer in another country
/// (BR-IC-04); a reverse-charge invoice needs a buyer VAT identifier
/// (BR-AE-02).
pub proof fn lemma_scenario_party_rules(inv: Invoice)
    ensures
        inv.vat_scenario == VatScenario::IntraCommunitySupply && inv.seller.vat_id is None ==> ustg_reports(
            inv,
            "seller.vat_id"@,
            "BR-IC-02"@,
        ),
        inv.vat_scenario == VatScenario::IntraCommunitySupply && inv.seller.address.country_code@
            == inv.buyer.address.country_code@ ==> ustg_reports(inv, "buyer.address.country_code"@, "BR-IC-04"@),
        inv.vat_scenario == VatScenario::ReverseCharge && inv.buyer.vat_id is None ==> ustg_reports(
            inv,
            "buyer.vat_id"@,
            "BR-AE-02"@,
        ),
{
    let pre = header_errors(inv) + party_section_errors(inv) + vat_id_section_errors(inv)
        + line_section_errors(inv);
    let sc = scenario_errors(inv);
    assert(ustg_errors(inv) == pre + sc + arithmetic_errors(inv));
    let n = pre.len() as int;
    if inv.vat_scenario == VatScenario::IntraCommunitySupply {
        let e1 = error_if(
            inv.seller.vat_id is None,
            rule_error("seller.vat_id"@, "intra-community supply: seller must have a VAT ID (BT-31)"@, "BR-IC-02"@),
        );
        let e2 = error_if(
            inv.buyer.vat_id is None,
            rule_error("buyer.vat_id"@, "intra-community supply: buyer must have a VAT ID (BT-48)"@, "BR-IC-03"@),
        );
        if inv.seller.vat_id is None {
            assert(ustg_errors(inv)[n] == sc[0]);
        }
        if inv.seller.address.country_code@ == inv.buyer.address.country_code@ {
            let k = (e1.len() + e2.len()) as int;
            assert(ustg_errors(inv)[n + k] == sc[k]);
        }
    }
    if inv.vat_scenario == VatScenario::ReverseCharge && inv.buyer.vat_id is None {
        assert(ustg_errors(inv)[n] == sc[0]);
    }
}

/// An intra-community supply to a buyer without a VAT identifier is refused:
/// the errors `validate_14_ustg` reports include one on `buyer.vat_id` under
/// rule BR-IC-03.
pub proof fn lemma_intra_community_needs_buyer_vat_id(inv: Invoice)
    requires
        inv.vat_scenario == VatScenario::IntraCommunitySupply,
        inv.buyer.vat_id is None,
    ensures
        exists|i: int|
            0 <= i < ustg_errors(inv).len() && (#[trigger] ustg_errors(inv)[i]).0 == "buyer.vat_id"@
                && ustg_errors(inv)[i].2 == Some("BR-IC-03"@),
{
    let pre = header_errors(inv) + party_section_errors(inv) + vat_id_section_errors(inv)
        + line_section_errors(inv);
    let sc = scenario_errors(inv);
    let first = error_if(
        inv.seller.vat_id is None,
        rule_error(
            "seller.vat_id"@,
            "intra-community supply: seller must have a VAT ID (BT-31)"@,
            "BR-IC-02"@,
        ),
    );
    let k = first.len() as int;
    assert(sc[k] == rule_error(
        "buyer.vat_id"@,
        "intra-community supply: buyer must have a VAT ID (BT-48)"@,
        "BR-IC-03"@,
    ));
    let i = pre.len() + k;
    assert(ustg_errors(inv) == pre + sc + arithmetic_errors(inv));
    assert(ustg_errors(inv)[i] == sc[k]);
}

fn validate_header(invoice: &Invoice, errors: &mut Vec<ValidationError>)
    ensures
        errors_view(final(errors)@) == errors_view(old(errors)@) + header_errors(*invoice),
{
    let ghost start = errors_view(errors@);
    if is_blank(invoice.number.as_str()) {
        add_error(
            errors,
            string_of("number"),
            string_of("invoice number must not be empty"),
            "BR-02",
        );
    }
    let cc = invoice.currency_code.as_str();
    if is_blank(cc) {
        add_error(
            errors,
            string_of("currency_code"),
            string_of("currency code must not be empty"),
            "BR-05",
        );
    } else if byte_len(cc) != 3 {
        add_error(
            errors,
            string_of("currency_code"),
            string_of("currency code must be 3 characters (ISO 4217)"),
            "BR-05",
        );
    } else if !is_known_currency_code(cc) {
        let mut m = string_of("currency code '");
        push_str(&mut m, cc);
        push_str(&mut m, "' is not a known ISO 4217 code");
        add_error(errors, string_of("currency_code"), m, "BR-05");
    }
    proof {
        assert(errors_view(errors@) =~= start + header_errors(*invoice));
    }
}

fn validate_party_section(invoice: &Invoice, errors: &mut Vec<ValidationError>)
    ensures
        errors_view(final(errors)@) == errors_view(old(errors)@) + party_section_errors(*invoice),
{
    let ghost start = errors_view(errors@);
    validate_party(&invoice.seller, "seller", errors);
    validate_party_buyer(&invoice.buyer, "buyer", invoice.vat_scenario, errors);
    if invoice.vat_scenario != VatScenario::SmallInvoice && invoice.tax_representative.is_none()
        && invoice.seller.vat_id.is_none() && invoice.seller.tax_number.is_none() {
        add_error(
            errors,
            string_of("seller"),
            string_of("seller must have either a VAT ID (USt-IdNr.) or tax number (Steuernummer)"),
            "BR-CO-09",
        );
    }
    proof {
        assert(errors_view(errors@) =~= start + party_section_errors(*invoice));
    }
}

fn validate_vat_id_section(invoice: &Invoice, errors: &mut Vec<ValidationError>)
    requires
        party_vat_ids_sliceable(*invoice),
    ensures
        errors_view(final(errors)@) == errors_view(old(errors)@) + vat_id_section_errors(*invoice),
{
    let ghost start = errors_view(errors@);
    match &invoice.seller.vat_id {
        Some(v) => validate_vat_id_format(v.as_str(), "seller.vat_id", errors),
        None => {},
    }
    match &invoice.buyer.vat_id {
        Some(v) => validate_vat_id_format(v.as_str(), "buyer.vat_id", errors),
        None => {},
    }
    proof {
        assert(errors_view(errors@) =~= start + vat_id_section_errors(*invoice));
    }
}

fn validate_line_section(invoice: &Invoice, errors: &mut Vec<ValidationError>)
    ensures
        errors_view(final(errors)@) == errors_view(old(errors)@) + line_section_errors(*invoice),
{
    let ghost start = errors_view(errors@);
    if invoice.vat_scenario != VatScenario::SmallInvoice && invoice.tax_point_date.is_none()
        && invoice.invoicing_period.is_none() {
        add_error(
            errors,
            string_of("tax_point_date"),
            string_of(
                "invoice must have a delivery date (Leistungsdatum) or invoicing period (§14 Abs. 4 Nr. 6 UStG)",
            ),
            "BR-CO-03",
        );
    }
    if invoice.lines.len() == 0 {
        add_error(
            errors,
            string_of("lines"),
            string_of("invoice must have at least one line item"),
            "BR-16",
        );
    }
    validate_lines(&invoice.lines, errors);
    proof {
        assert(errors_view(errors@) =~= start + line_section_errors(*invoice));
    }
}

/// Validate an invoice against §14 UStG requirements.
/// Returns all validation errors found (not just the first).
pub fn validate_14_ustg(invoice: &Invoice) -> (r: Vec<ValidationError>)
    requires
        party_vat_ids_sliceable(*invoice),
    ensures
        errors_view(r@) == ustg_errors(*invoice),
{
    let mut errors: Vec<ValidationError> = Vec::new();
    validate_header(invoice, &mut errors);
    validate_party_section(invoice, &mut errors);
    validate_vat_id_section(invoice, &mut errors);
    validate_line_section(invoice, &mut errors);
    validate_scenario(invoice, &mut errors);
    let ghost e4 = errors_view(errors@);
    let mut arith = validate_arithmetic(invoice);
    let ghost e5 = errors_view(arith@);
    errors.append(&mut arith);
    proof {
        assert(errors_view(errors@) =~= e4 + e5);
        assert(errors_view(errors@) =~= ustg_errors(*invoice));
    }
    errors
}

} // verus!
