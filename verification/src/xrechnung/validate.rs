//! XRechnung-specific rules (BR-DE-*), checked in addition to §14 UStG.
use vstd::prelude::*;
use crate::model::error::{errors_view, ErrorView, ValidationError};
use crate::model::types::{
    means_code_spec, type_code_spec, Contact, DocumentAttachment, Invoice, PaymentInstructions,
    VatBreakdown,
};
use crate::model::validation::{
    add_error, add_error_if, error_if, flatten_errors, indexed, indexed_path, lemma_flatten_push,
    rule_error,
};
use crate::text::{
    all_alnum, chars_of, char_is_alnum, char_is_digit, char_is_upper, contains, count_char,
    count_digits, is_blank, is_blank_seq, is_digit, is_upper, nat_str, push_str, seq_contains,
    str_eq, string_of, trim_seq, trim_str, u64_to_string,
};

verus! {

/// Absent, or only whitespace.
pub open spec fn blank_or_none(o: Option<String>) -> bool {
    match o {
        Some(s) => is_blank_seq(s@),
        None => true,
    }
}

fn blank_or_none_exec(o: &Option<String>) -> (r: bool)
    ensures
        r == blank_or_none(*o),
{
    match o {
        Some(s) => is_blank(s.as_str()),
        None => true,
    }
}

/// Exactly one `@`, with non-blank text before and after it.
pub open spec fn email_shape_ok(e: Seq<char>) -> bool {
    count_char(e, '@') == 1 && exists|k: int|
        0 <= k < e.len() && #[trigger] e[k] == '@' && !is_blank_seq(e.take(k)) && !is_blank_seq(
            e.skip(k + 1),
        )
}

pub proof fn lemma_count_char_take(s: Seq<char>, c: char, k: int)
    requires
        0 <= k < s.len(),
    ensures
        count_char(s.take(k + 1), c) == count_char(s.take(k), c) + if s[k] == c {
            1nat
        } else {
            0nat
        },
{
    assert(s.take(k + 1).drop_last() =~= s.take(k));
}

/// The number of occurrences of `c` in `s`, and the position of the first.
fn count_and_first(v: &Vec<char>, c: char) -> (r: (usize, usize))
    ensures
        r.0 as nat == count_char(v@, c),
        r.1 <= v@.len(),
        r.1 < v@.len() ==> v@[r.1 as int] == c,
        forall|j: int| 0 <= j < r.1 ==> v@[j] != c,
{
    let mut n: usize = 0;
    let mut first: usize = v.len();
    let mut i: usize = 0;
    while i < v.len()
        invariant
            i <= v@.len(),
            n as nat == count_char(v@.take(i as int), c),
            n <= i,
            first <= v@.len(),
            first < i ==> v@[first as int] == c,
            first >= i ==> first == v@.len(),
            forall|j: int| 0 <= j < i && j < first ==> v@[j] != c,
        decreases v.len() - i,
    {
        proof {
            lemma_count_char_take(v@, c, i as int);
        }
        if v[i] == c {
            n = n + 1;
            if first == v.len() {
                first = i;
            }
        }
        i = i + 1;
    }
    proof {
        assert(v@.take(v@.len() as int) =~= v@);
    }
    (n, first)
}

fn email_shape_ok_exec(e: &str) -> (r: bool)
    ensures
        r == email_shape_ok(e@),
{
    let v = chars_of(e);
    let (n, k) = count_and_first(&v, '@');
    if n != 1 {
        return false;
    }
    proof {
        if k == v@.len() {
            assert(count_char(v@, '@') == 0) by {
                lemma_no_char_no_count(v@, '@');
            }
        }
    }
    let before = e.substring_char(0, k);
    let after = e.substring_char(k + 1, v.len());
    let r = !is_blank(before) && !is_blank(after);
    proof {
        assert(before@ =~= e@.take(k as int));
        assert(after@ =~= e@.skip(k + 1));
        if email_shape_ok(e@) {
            let j = choose|j: int|
                0 <= j < e@.len() && #[trigger] e@[j] == '@' && !is_blank_seq(e@.take(j))
                    && !is_blank_seq(e@.skip(j + 1));
            if j != k {
                lemma_two_chars_count(e@, '@', k as int, j);
            }
        }
    }
    r
}

pub proof fn lemma_no_char_no_count(s: Seq<char>, c: char)
    requires
        forall|j: int| 0 <= j < s.len() ==> s[j] != c,
    ensures
        count_char(s, c) == 0,
    decreases s.len(),
{
    if s.len() > 0 {
        lemma_no_char_no_count(s.drop_last(), c);
    }
}

/// Two distinct positions holding `c` make at least two occurrences.
pub proof fn lemma_two_chars_count(s: Seq<char>, c: char, a: int, b: int)
    requires
        0 <= a < s.len(),
        0 <= b < s.len(),
        a != b,
        s[a] == c,
        s[b] == c,
    ensures
        count_char(s, c) >= 2,
    decreases s.len(),
{
    let l = s.len() - 1;
    if a == l || b == l {
        let other = if a == l {
            b
        } else {
            a
        };
        lemma_one_char_count(s.drop_last(), c, other);
    } else {
        lemma_two_chars_count(s.drop_last(), c, a, b);
    }
}

pub proof fn lemma_one_char_count(s: Seq<char>, c: char, a: int)
    requires
        0 <= a < s.len(),
        s[a] == c,
    ensures
        count_char(s, c) >= 1,
    decreases s.len(),
{
    if a < s.len() - 1 {
        lemma_one_char_count(s.drop_last(), c, a);
    }
}

/// BR-DE-2 and, when a contact is given, BR-DE-5, -6, -7, -27 and -28.
pub open spec fn contact_errors(contact: Option<Contact>) -> Seq<ErrorView> {
    match contact {
        None => seq![
            rule_error(
                "seller.contact"@,
                "XRechnung requires seller contact information (BG-6)"@,
                "BR-DE-2"@,
            ),
        ],
        Some(c) => error_if(
            blank_or_none(c.name),
            rule_error(
                "seller.contact.name"@,
                "XRechnung requires seller contact name (BT-41)"@,
                "BR-DE-5"@,
            ),
        ) + error_if(
            blank_or_none(c.phone),
            rule_error(
                "seller.contact.phone"@,
                "XRechnung requires seller contact telephone (BT-42)"@,
                "BR-DE-6"@,
            ),
        ) + error_if(
            blank_or_none(c.email),
            rule_error(
                "seller.contact.email"@,
                "XRechnung requires seller contact email (BT-43)"@,
                "BR-DE-7"@,
            ),
        ) + error_if(
            c.phone matches Some(p) && count_digits(p@) < 3 && !is_blank_seq(p@),
            rule_error(
                "seller.contact.phone"@,
                "Telephone number (BT-42) must contain at least 3 digits"@,
                "BR-DE-27"@,
            ),
        ) + error_if(
            c.email matches Some(e) && !is_blank_seq(e@) && !email_shape_ok(e@),
            rule_error(
                "seller.contact.email"@,
                "Email address (BT-43) must contain exactly one @ with non-empty local and domain parts"@,
                "BR-DE-28"@,
            ),
        ),
    }
}

fn digit_count(s: &str) -> (r: usize)
    ensures
        r as nat == count_digits(s@),
{
    let v = chars_of(s);
    let mut n: usize = 0;
    let mut i: usize = 0;
    while i < v.len()
        invariant
            v@ == s@,
            i <= v@.len(),
            n as nat == count_digits(v@.take(i as int)),
            n <= i,
        decreases v.len() - i,
    {
        proof {
            assert(v@.take(i + 1).drop_last() =~= v@.take(i as int));
        }
        if char_is_digit(v[i]) {
            n = n + 1;
        }
        i = i + 1;
    }
    proof {
        assert(v@.take(v@.len() as int) =~= v@);
    }
    n
}

fn check_contact(contact: &Option<Contact>, errors: &mut Vec<ValidationError>)
    ensures
        errors_view(final(errors)@) == errors_view(old(errors)@) + contact_errors(*contact),
{
    let ghost start = errors_view(errors@);
    match contact {
        None => {
            add_error(
                errors,
                string_of("seller.contact"),
                string_of("XRechnung requires seller contact information (BG-6)"),
                "BR-DE-2",
            );
        },
        Some(c) => {
            add_error_if(
                errors,
                blank_or_none_exec(&c.name),
                "seller.contact.name",
                "XRechnung requires seller contact name (BT-41)",
                "BR-DE-5",
            );
            add_error_if(
                errors,
                blank_or_none_exec(&c.phone),
                "seller.contact.phone",
                "XRechnung requires seller contact telephone (BT-42)",
                "BR-DE-6",
            );
            add_error_if(
                errors,
                blank_or_none_exec(&c.email),
                "seller.contact.email",
                "XRechnung requires seller contact email (BT-43)",
                "BR-DE-7",
            );
            let few_digits = match &c.phone {
                Some(p) => digit_count(p.as_str()) < 3 && !is_blank(p.as_str()),
                None => false,
            };
            add_error_if(
                errors,
                few_digits,
                "seller.contact.phone",
                "Telephone number (BT-42) must contain at least 3 digits",
                "BR-DE-27",
            );
            let bad_email = match &c.email {
                Some(e) => !is_blank(e.as_str()) && !email_shape_ok_exec(e.as_str()),
                None => false,
            };
            add_error_if(
                errors,
                bad_email,
                "seller.contact.email",
                "Email address (BT-43) must contain exactly one @ with non-empty local and domain parts",
                "BR-DE-28",
            );
        },
    }
    proof {
        assert(errors_view(errors@) =~= start + contact_errors(*contact));
    }
}

/// BR-DE-14 for the group at `i`.
pub open spec fn negative_rate_error(bs: Seq<VatBreakdown>, i: int) -> Seq<ErrorView> {
    error_if(
        bs[i].rate@.0 < 0,
        rule_error(
            indexed("totals.vat_breakdown"@, i as nat, ".rate"@),
            "VAT category rate (BT-119) must be provided and non-negative"@,
            "BR-DE-14"@,
        ),
    )
}

pub open spec fn negative_rate_errors(inv: Invoice) -> Seq<ErrorView> {
    match inv.totals {
        Some(t) => flatten_errors(
            Seq::new(t.vat_breakdown@.len(), |i: int| negative_rate_error(t.vat_breakdown@, i)),
        ),
        None => seq![],
    }
}

fn check_rates(invoice: &Invoice, errors: &mut Vec<ValidationError>)
    ensures
        errors_view(final(errors)@) == errors_view(old(errors)@) + negative_rate_errors(*invoice),
{
    let ghost start = errors_view(errors@);
    match &invoice.totals {
        Some(t) => {
            let bs = &t.vat_breakdown;
            let mut i: usize = 0;
            while i < bs.len()
                invariant
                    i <= bs@.len(),
                    errors_view(errors@) == start + flatten_errors(
                        Seq::new(i as nat, |k: int| negative_rate_error(bs@, k)),
                    ),
                decreases bs.len() - i,
            {
                let ghost before = errors_view(errors@);
                if bs[i].rate.is_sign_negative() {
                    add_error(
                        errors,
                        indexed_path("totals.vat_breakdown", i, ".rate"),
                        string_of("VAT category rate (BT-119) must be provided and non-negative"),
                        "BR-DE-14",
                    );
                }
                proof {
                    let f = |k: int| negative_rate_error(bs@, k);
                    assert(errors_view(errors@) =~= before + f(i as int));
                    assert(Seq::new((i + 1) as nat, f) =~= Seq::new(i as nat, f).push(f(i as int)));
                    lemma_flatten_push(Seq::new(i as nat, f), f(i as int));
                }
                i = i + 1;
            }
        },
        None => {},
    }
    proof {
        assert(errors_view(errors@) =~= start + negative_rate_errors(*invoice));
    }
}

// ---------------------------------------------------------------- formats

/// Basic IBAN format: with spaces removed, 5 to 34 characters: two
/// upper-case letters, two digits, then letters and digits.
pub open spec fn iban_format_ok(iban: Seq<char>) -> bool {
    let s = iban.filter(|c: char| c != ' ');
    &&& 5 <= s.len() <= 34
    &&& is_upper(s[0]) && is_upper(s[1])
    &&& is_digit(s[2]) && is_digit(s[3])
    &&& all_alnum(s.skip(4))
}

/// Basic IBAN format check: 2 uppercase letters + 2 digits + up to 30
/// alphanumeric characters, spaces ignored.
pub fn is_valid_iban_format(iban: &str) -> (r: bool)
    ensures
        r == iban_format_ok(iban@),
{
    let v = chars_of(iban);
    let mut s: Vec<char> = Vec::new();
    let mut i: usize = 0;
    while i < v.len()
        invariant
            v@ == iban@,
            i <= v@.len(),
            s@ == v@.take(i as int).filter(|c: char| c != ' '),
        decreases v.len() - i,
    {
        proof {
            assert(v@.take(i + 1) =~= v@.take(i as int).push(v@[i as int]));
            v@.take(i as int).lemma_filter_push(v@[i as int], |c: char| c != ' ');
        }
        if v[i] != ' ' {
            s.push(v[i]);
        }
        i = i + 1;
    }
    proof {
        assert(v@.take(v@.len() as int) =~= v@);
    }
    if s.len() < 5 || s.len() > 34 {
        return false;
    }
    let head = char_is_upper(s[0]) && char_is_upper(s[1]) && char_is_digit(s[2]) && char_is_digit(
        s[3],
    );
    if !head {
        return false;
    }
    let tail = crate::text::range_all_alnum(&s, 4, s.len());
    proof {
        assert(s@.subrange(4, s@.len() as int) =~= s@.skip(4));
    }
    tail
}

/// `t` starts with `p`.
pub open spec fn starts_with(t: Seq<char>, p: Seq<char>) -> bool {
    t.len() >= p.len() && t.take(p.len() as int) == p
}

/// A trimmed payment-terms line that starts with `#SKONTO#` names the days
/// and the percentage and ends with `#`.
pub open spec fn skonto_line_ok(t: Seq<char>) -> bool {
    starts_with(t, "#SKONTO#"@) ==> seq_contains(t, "TAGE="@) && seq_contains(t, "PROZENT="@)
        && t.len() > 0 && t.last() == '#'
}

/// `s[a..b]` is one line of `s` (lines end at `\n`).
pub open spec fn is_line(s: Seq<char>, a: int, b: int) -> bool {
    &&& 0 <= a <= b <= s.len()
    &&& (a == 0 || s[a - 1] == '\n')
    &&& (b == s.len() || s[b] == '\n')
    &&& forall|k: int| a <= k < b ==> s[k] != '\n'
}

/// Every `#SKONTO#` line of the payment terms has the XRechnung form.
pub open spec fn skonto_format_ok(s: Seq<char>) -> bool {
    forall|a: int, b: int| #[trigger] is_line(s, a, b) ==> skonto_line_ok(trim_seq(s.subrange(a, b)))
}

fn ends_with_hash(t: &str) -> (r: bool)
    ensures
        r == (t@.len() > 0 && t@.last() == '#'),
{
    let n = t.unicode_len();
    n > 0 && t.get_char(n - 1) == '#'
}

fn starts_with_skonto(t: &str) -> (r: bool)
    ensures
        r == starts_with(t@, "#SKONTO#"@),
{
    proof {
        reveal_strlit("#SKONTO#");
    }
    let n = t.unicode_len();
    if n < 8 {
        return false;
    }
    let p = t.substring_char(0, 8);
    str_eq(p, "#SKONTO#")
}

fn skonto_line_ok_exec(t: &str) -> (r: bool)
    ensures
        r == skonto_line_ok(t@),
{
    if starts_with_skonto(t) {
        contains(t, "TAGE=") && contains(t, "PROZENT=") && ends_with_hash(t)
    } else {
        true
    }
}

/// Validate the Skonto format: lines starting with `#SKONTO#` must name
/// `TAGE=` and `PROZENT=` and end with `#`.
pub fn is_valid_skonto_format(terms: &str) -> (r: bool)
    ensures
        r == skonto_format_ok(terms@),
{
    let v = chars_of(terms);
    let n = v.len();
    let mut a: usize = 0;
    let mut b: usize = 0;
    // every line ending before `a` is fine
    while b < n
        invariant
            v@ == terms@,
            n == v@.len(),
            a <= b <= n,
            a == 0 || v@[a - 1] == '\n',
            forall|k: int| a <= k < b ==> v@[k] != '\n',
            forall|x: int, y: int| #[trigger] is_line(terms@, x, y) && y < a ==> skonto_line_ok(trim_seq(terms@.subrange(x, y))),
        decreases n - b,
    {
        if v[b] == '\n' {
            let line = terms.substring_char(a, b);
            let t = trim_str(line);
            if !skonto_line_ok_exec(t) {
                proof {
                    assert(is_line(terms@, a as int, b as int));
                }
                return false;
            }
            proof {
                assert forall|x: int, y: int| #[trigger] is_line(terms@, x, y) && y < b + 1 implies skonto_line_ok(trim_seq(terms@.subrange(x, y))) by {
                    if y >= a {
                        lemma_line_unique(terms@, x, y, a as int, b as int);
                    }
                }
            }
            a = b + 1;
        }
        b = b + 1;
    }
    let line = terms.substring_char(a, n);
    let t = trim_str(line);
    let last_ok = skonto_line_ok_exec(t);
    proof {
        assert(is_line(terms@, a as int, n as int));
        if last_ok {
            assert forall|x: int, y: int| #[trigger] is_line(terms@, x, y) implies skonto_line_ok(trim_seq(terms@.subrange(x, y))) by {
                if y >= a {
                    lemma_line_unique(terms@, x, y, a as int, n as int);
                }
            }
        }
    }
    last_ok
}

/// A line that ends within another line is that line.
pub proof fn lemma_line_unique(s: Seq<char>, x: int, y: int, a: int, b: int)
    requires
        is_line(s, x, y),
        is_line(s, a, b),
        a <= y <= b,
    ensures
        x == a && y == b,
{
    if x < a {
        assert(s[a - 1] == '\n');
        assert(x <= a - 1 < y);
    }
    if x > a {
        assert(s[x - 1] == '\n');
    }
    if y < b {
        assert(s[y] == '\n');
    }
    if y > b {
        assert(s[b] == '\n');
    }
}

// ---------------------------------------------------------------- document rules

/// The type codes XRechnung allows.
pub open spec fn allowed_type_code(c: u16) -> bool {
    c == 326 || c == 380 || c == 381 || c == 384 || c == 389 || c == 875 || c == 876 || c == 877
}

/// BR-DE-15, -16, -17 and -18.
pub open spec fn reference_errors(inv: Invoice) -> Seq<ErrorView> {
    let code = type_code_spec(inv.type_code);
    error_if(
        blank_or_none(inv.buyer_reference),
        rule_error(
            "buyer_reference"@,
            "XRechnung requires buyer reference / Leitweg-ID (BT-10)"@,
            "BR-DE-15"@,
        ),
    ) + error_if(
        inv.seller.vat_id is None && inv.seller.tax_number is None,
        rule_error(
            "seller"@,
            "XRechnung requires seller VAT ID (BT-31) or tax number (BT-32)"@,
            "BR-DE-16"@,
        ),
    ) + error_if(
        !allowed_type_code(code),
        rule_error(
            "type_code"@,
            "XRechnung invoice type code "@ + nat_str(code as nat)
                + " is not in the allowed set [326, 380, 381, 384, 389, 875, 876, 877]"@,
            "BR-DE-17"@,
        ),
    ) + error_if(
        inv.payment_terms matches Some(t) && seq_contains(t@, "#SKONTO#"@) && !skonto_format_ok(
            t@,
        ),
        rule_error(
            "payment_terms"@,
            "Payment terms containing #SKONTO# must follow XRechnung format: #SKONTO#TAGE=N#PROZENT=N.NN#"@,
            "BR-DE-18"@,
        ),
    )
}

fn check_references(invoice: &Invoice, errors: &mut Vec<ValidationError>)
    ensures
        errors_view(final(errors)@) == errors_view(old(errors)@) + reference_errors(*invoice),
{
    let ghost start = errors_view(errors@);
    add_error_if(
        errors,
        blank_or_none_exec(&invoice.buyer_reference),
        "buyer_reference",
        "XRechnung requires buyer reference / Leitweg-ID (BT-10)",
        "BR-DE-15",
    );
    add_error_if(
        errors,
        invoice.seller.vat_id.is_none() && invoice.seller.tax_number.is_none(),
        "seller",
        "XRechnung requires seller VAT ID (BT-31) or tax number (BT-32)",
        "BR-DE-16",
    );
    let code = invoice.type_code.code();
    if !(code == 326 || code == 380 || code == 381 || code == 384 || code == 389 || code == 875
        || code == 876 || code == 877) {
        let mut m = string_of("XRechnung invoice type code ");
        let c = u64_to_string(code as u64);
        push_str(&mut m, c.as_str());
        push_str(&mut m, " is not in the allowed set [326, 380, 381, 384, 389, 875, 876, 877]");
        add_error(errors, string_of("type_code"), m, "BR-DE-17");
    }
    let bad_skonto = match &invoice.payment_terms {
        Some(t) => contains(t.as_str(), "#SKONTO#") && !is_valid_skonto_format(t.as_str()),
        None => false,
    };
    add_error_if(
        errors,
        bad_skonto,
        "payment_terms",
        "Payment terms containing #SKONTO# must follow XRechnung format: #SKONTO#TAGE=N#PROZENT=N.NN#",
        "BR-DE-18",
    );
    proof {
        assert(errors_view(errors@) =~= start + reference_errors(*invoice));
    }
}

/// Attachment `i` embeds a file whose name an earlier embedded file has.
pub open spec fn duplicate_filename(atts: Seq<DocumentAttachment>, i: int) -> bool {
    atts[i].embedded_document matches Some(e) && exists|j: int|
        0 <= j < i && (#[trigger] atts[j].embedded_document matches Some(f) && f.filename@
            == e.filename@)
}

/// BR-DE-22 for the attachment at `i`.
pub open spec fn filename_error(atts: Seq<DocumentAttachment>, i: int) -> Seq<ErrorView> {
    error_if(
        duplicate_filename(atts, i),
        rule_error(
            indexed("attachments"@, i as nat, ".embedded_document.filename"@),
            "Embedded document filenames must be unique; duplicate: '"@
                + atts[i].embedded_document->0.filename@ + "'"@,
            "BR-DE-22"@,
        ),
    )
}

pub open spec fn filename_errors(atts: Seq<DocumentAttachment>) -> Seq<ErrorView> {
    if atts.len() > 1 {
        flatten_errors(Seq::new(atts.len(), |i: int| filename_error(atts, i)))
    } else {
        seq![]
    }
}

fn filename_seen_before(atts: &Vec<DocumentAttachment>, i: usize, name: &str) -> (r: bool)
    requires
        i < atts@.len(),
    ensures
        r == exists|j: int|
            0 <= j < i && (#[trigger] atts@[j].embedded_document matches Some(f) && f.filename@
                == name@),
{
    let mut j: usize = 0;
    while j < i
        invariant
            i < atts@.len(),
            j <= i,
            forall|k: int|
                0 <= k < j ==> !(#[trigger] atts@[k].embedded_document matches Some(f)
                    && f.filename@ == name@),
        decreases i - j,
    {
        match &atts[j].embedded_document {
            Some(f) => {
                if str_eq(f.filename.as_str(), name) {
                    return true;
                }
            },
            None => {},
        }
        j = j + 1;
    }
    false
}

fn check_filenames(atts: &Vec<DocumentAttachment>, errors: &mut Vec<ValidationError>)
    ensures
        errors_view(final(errors)@) == errors_view(old(errors)@) + filename_errors(atts@),
{
    let ghost start = errors_view(errors@);
    if atts.len() <= 1 {
        proof {
            assert(errors_view(errors@) =~= start + filename_errors(atts@));
        }
        return ;
    }
    let mut i: usize = 0;
    while i < atts.len()
        invariant
            atts@.len() > 1,
            i <= atts@.len(),
            errors_view(errors@) == start + flatten_errors(
                Seq::new(i as nat, |k: int| filename_error(atts@, k)),
            ),
        decreases atts.len() - i,
    {
        let ghost before = errors_view(errors@);
        match &atts[i].embedded_document {
            Some(e) => {
                if filename_seen_before(atts, i, e.filename.as_str()) {
                    let mut m = string_of("Embedded document filenames must be unique; duplicate: '");
                    push_str(&mut m, e.filename.as_str());
                    push_str(&mut m, "'");
                    add_error(
                        errors,
                        indexed_path("attachments", i, ".embedded_document.filename"),
                        m,
                        "BR-DE-22",
                    );
                }
            },
            None => {},
        }
        proof {
            let f = |k: int| filename_error(atts@, k);
            assert(errors_view(errors@) =~= before + f(i as int));
            assert(Seq::new((i + 1) as nat, f) =~= Seq::new(i as nat, f).push(f(i as int)));
            lemma_flatten_push(Seq::new(i as nat, f), f(i as int));
        }
        i = i + 1;
    }
}

/// The means codes XRechnung allows.
pub open spec fn allowed_means_code(c: u16) -> bool {
    c == 30 || c == 48 || c == 54 || c == 55 || c == 58 || c == 59
}

/// The payment rules BR-DE-23, -24, -25 (means code and instruments).
pub open spec fn means_errors(p: PaymentInstructions) -> Seq<ErrorView> {
    let code = means_code_spec(p.means_code);
    let transfer = code == 30 || code == 58;
    let card = code == 48 || code == 54 || code == 55;
    let debit = code == 59;
    error_if(
        !allowed_means_code(code),
        rule_error(
            "payment.means_code"@,
            "XRechnung payment means code "@ + nat_str(code as nat)
                + " is not in the allowed set [30, 48, 54, 55, 58, 59]"@,
            "BR-DE-23"@,
        ),
    ) + error_if(
        transfer && p.credit_transfer is None,
        rule_error(
            "payment.credit_transfer"@,
            "Credit transfer codes (30, 58) require credit transfer information (BG-17)"@,
            "BR-DE-23"@,
        ),
    ) + error_if(
        transfer && (p.card_payment is Some || p.direct_debit is Some),
        rule_error(
            "payment"@,
            "Credit transfer codes (30, 58) must not include card payment (BG-18) or direct debit (BG-19)"@,
            "BR-DE-23"@,
        ),
    ) + error_if(
        card && p.card_payment is None,
        rule_error(
            "payment.card_payment"@,
            "Card payment codes (48, 54, 55) require card payment information (BG-18)"@,
            "BR-DE-24"@,
        ),
    ) + error_if(
        card && (p.credit_transfer is Some || p.direct_debit is Some),
        rule_error(
            "payment"@,
            "Card payment codes (48, 54, 55) must not include credit transfer (BG-17) or direct debit (BG-19)"@,
            "BR-DE-24"@,
        ),
    ) + error_if(
        debit && p.direct_debit is None,
        rule_error(
            "payment.direct_debit"@,
            "Direct debit code (59) requires direct debit information (BG-19)"@,
            "BR-DE-25"@,
        ),
    ) + error_if(
        debit && (p.credit_transfer is Some || p.card_payment is Some),
        rule_error(
            "payment"@,
            "Direct debit code (59) must not include credit transfer (BG-17) or card payment (BG-18)"@,
            "BR-DE-25"@,
        ),
    )
}

/// The account rules BR-DE-19, -20, -30 and -31.
pub open spec fn account_errors(p: PaymentInstructions) -> Seq<ErrorView> {
    let code = means_code_spec(p.means_code);
    error_if(
        (code == 30 || code == 58) && (p.credit_transfer matches Some(ct) && !is_blank_seq(
            ct.iban@,
        ) && !iban_format_ok(ct.iban@)),
        rule_error(
            "payment.credit_transfer.iban"@,
            "IBAN (BT-84) must start with 2 uppercase letters followed by digits"@,
            "BR-DE-19"@,
        ),
    ) + error_if(
        code == 59 && (p.direct_debit matches Some(dd) && (dd.debited_account_id matches Some(iban)
            && !is_blank_seq(iban@) && !iban_format_ok(iban@))),
        rule_error(
            "payment.direct_debit.debited_account_id"@,
            "Debited account IBAN (BT-91) must start with 2 uppercase letters followed by digits"@,
            "BR-DE-20"@,
        ),
    ) + match p.direct_debit {
        Some(dd) => error_if(
            blank_or_none(dd.creditor_id),
            rule_error(
                "payment.direct_debit.creditor_id"@,
                "Direct debit requires bank assigned creditor identifier (BT-90)"@,
                "BR-DE-30"@,
            ),
        ) + error_if(
            blank_or_none(dd.debited_account_id),
            rule_error(
                "payment.direct_debit.debited_account_id"@,
                "Direct debit requires debited account identifier (BT-91)"@,
                "BR-DE-31"@,
            ),
        ),
        None => seq![],
    }
}

fn check_means(p: &PaymentInstructions, errors: &mut Vec<ValidationError>)
    ensures
        errors_view(final(errors)@) == errors_view(old(errors)@) + means_errors(*p),
{
    let ghost start = errors_view(errors@);
    let code = p.means_code.code();
    if !(code == 30 || code == 48 || code == 54 || code == 55 || code == 58 || code == 59) {
        let mut m = string_of("XRechnung payment means code ");
        let c = u64_to_string(code as u64);
        push_str(&mut m, c.as_str());
        push_str(&mut m, " is not in the allowed set [30, 48, 54, 55, 58, 59]");
        add_error(errors, string_of("payment.means_code"), m, "BR-DE-23");
    }
    let transfer = code == 30 || code == 58;
    let card = code == 48 || code == 54 || code == 55;
    let debit = code == 59;
    add_error_if(
        errors,
        transfer && p.credit_transfer.is_none(),
        "payment.credit_transfer",
        "Credit transfer codes (30, 58) require credit transfer information (BG-17)",
        "BR-DE-23",
    );
    add_error_if(
        errors,
        transfer && (p.card_payment.is_some() || p.direct_debit.is_some()),
        "payment",
        "Credit transfer codes (30, 58) must not include card payment (BG-18) or direct debit (BG-19)",
        "BR-DE-23",
    );
    add_error_if(
        errors,
        card && p.card_payment.is_none(),
        "payment.card_payment",
        "Card payment codes (48, 54, 55) require card payment information (BG-18)",
        "BR-DE-24",
    );
    add_error_if(
        errors,
        card && (p.credit_transfer.is_some() || p.direct_debit.is_some()),
        "payment",
        "Card payment codes (48, 54, 55) must not include credit transfer (BG-17) or direct debit (BG-19)",
        "BR-DE-24",
    );
    add_error_if(
        errors,
        debit && p.direct_debit.is_none(),
        "payment.direct_debit",
        "Direct debit code (59) requires direct debit information (BG-19)",
        "BR-DE-25",
    );
    add_error_if(
        errors,
        debit && (p.credit_transfer.is_some() || p.card_payment.is_some()),
        "payment",
        "Direct debit code (59) must not include credit transfer (BG-17) or card payment (BG-18)",
        "BR-DE-25",
    );
    proof {
        assert(errors_view(errors@) =~= start + means_errors(*p));
    }
}

fn check_accounts(p: &PaymentInstructions, errors: &mut Vec<ValidationError>)
    ensures
        errors_view(final(errors)@) == errors_view(old(errors)@) + account_errors(*p),
{
    let ghost start = errors_view(errors@);
    let code = p.means_code.code();
    let bad_iban = (code == 30 || code == 58) && match &p.credit_transfer {
        Some(ct) => !is_blank(ct.iban.as_str()) && !is_valid_iban_format(ct.iban.as_str()),
        None => false,
    };
    add_error_if(
        errors,
        bad_iban,
        "payment.credit_transfer.iban",
        "IBAN (BT-84) must start with 2 uppercase letters followed by digits",
        "BR-DE-19",
    );
    let bad_debit_iban = code == 59 && match &p.direct_debit {
        Some(dd) => match &dd.debited_account_id {
            Some(iban) => !is_blank(iban.as_str()) && !is_valid_iban_format(iban.as_str()),
            None => false,
        },
        None => false,
    };
    add_error_if(
        errors,
        bad_debit_iban,
        "payment.direct_debit.debited_account_id",
        "Debited account IBAN (BT-91) must start with 2 uppercase letters followed by digits",
        "BR-DE-20",
    );
    match &p.direct_debit {
        Some(dd) => {
            add_error_if(
                errors,
                blank_or_none_exec(&dd.creditor_id),
                "payment.direct_debit.creditor_id",
                "Direct debit requires bank assigned creditor identifier (BT-90)",
                "BR-DE-30",
            );
            add_error_if(
                errors,
                blank_or_none_exec(&dd.debited_account_id),
                "payment.direct_debit.debited_account_id",
                "Direct debit requires debited account identifier (BT-91)",
                "BR-DE-31",
            );
        },
        None => {},
    }
    proof {
        assert(errors_view(errors@) =~= start + account_errors(*p));
    }
}

/// All payment rules; none without payment instructions.
pub open spec fn payment_errors(inv: Invoice) -> Seq<ErrorView> {
    match inv.payment {
        Some(p) => means_errors(p) + account_errors(p),
        None => seq![],
    }
}

/// BR-DE-1, the contact rules and BR-DE-14.
pub open spec fn xr_head_errors(inv: Invoice) -> Seq<ErrorView> {
    error_if(
        inv.payment is None,
        rule_error(
            "payment"@,
            "XRechnung requires payment instructions (BG-16)"@,
            "BR-DE-1"@,
        ),
    ) + contact_errors(inv.seller.contact) + negative_rate_errors(inv)
}

/// References, embedded file names and the corrected-invoice rule.
pub open spec fn xr_document_errors(inv: Invoice) -> Seq<ErrorView> {
    reference_errors(inv) + filename_errors(inv.attachments@) + error_if(
        type_code_spec(inv.type_code) == 384 && inv.preceding_invoices@.len() == 0,
        rule_error(
            "preceding_invoices"@,
            "Corrected invoice (type 384) should reference the preceding invoice (BG-3)"@,
            "BR-DE-26"@,
        ),
    )
}

/// The electronic addresses of seller and buyer.
pub open spec fn xr_address_errors(inv: Invoice) -> Seq<ErrorView> {
    error_if(
        inv.seller.electronic_address is None,
        rule_error(
            "seller.electronic_address"@,
            "XRechnung requires seller electronic address (BT-34)"@,
            "BR-DE-26"@,
        ),
    ) + error_if(
        inv.buyer.electronic_address is None,
        rule_error(
            "buyer.electronic_address"@,
            "XRechnung requires buyer electronic address (BT-49)"@,
            "BR-DE-28"@,
        ),
    )
}

/// The errors `validate_xrechnung` reports, in order.
pub open spec fn xrechnung_errors(inv: Invoice) -> Seq<ErrorView> {
    xr_head_errors(inv) + xr_document_errors(inv) + payment_errors(inv) + xr_address_errors(inv)
}

fn check_head(invoice: &Invoice, errors: &mut Vec<ValidationError>)
    ensures
        errors_view(final(errors)@) == errors_view(old(errors)@) + xr_head_errors(*invoice),
{
    let ghost start = errors_view(errors@);
    add_error_if(
        errors,
        invoice.payment.is_none(),
        "payment",
        "XRechnung requires payment instructions (BG-16)",
        "BR-DE-1",
    );
    check_contact(&invoice.seller.contact, errors);
    check_rates(invoice, errors);
    proof {
        assert(errors_view(errors@) =~= start + xr_head_errors(*invoice));
    }
}

fn check_document(invoice: &Invoice, errors: &mut Vec<ValidationError>)
    ensures
        errors_view(final(errors)@) == errors_view(old(errors)@) + xr_document_errors(*invoice),
{
    let ghost start = errors_view(errors@);
    check_references(invoice, errors);
    check_filenames(&invoice.attachments, errors);
    add_error_if(
        errors,
        invoice.type_code.code() == 384 && invoice.preceding_invoices.len() == 0,
        "preceding_invoices",
        "Corrected invoice (type 384) should reference the preceding invoice (BG-3)",
        "BR-DE-26",
    );
    proof {
        assert(errors_view(errors@) =~= start + xr_document_errors(*invoice));
    }
}

fn check_payment(invoice: &Invoice, errors: &mut Vec<ValidationError>)
    ensures
        errors_view(final(errors)@) == errors_view(old(errors)@) + payment_errors(*invoice),
{
    let ghost start = errors_view(errors@);
    match &invoice.payment {
        Some(p) => {
            check_means(p, errors);
            check_accounts(p, errors);
        },
        None => {},
    }
    proof {
        assert(errors_view(errors@) =~= start + payment_errors(*invoice));
    }
}

fn check_addresses(invoice: &Invoice, errors: &mut Vec<ValidationError>)
    ensures
        errors_view(final(errors)@) == errors_view(old(errors)@) + xr_address_errors(*invoice),
{
    let ghost start = errors_view(errors@);
    add_error_if(
        errors,
        invoice.seller.electronic_address.is_none(),
        "seller.electronic_address",
        "XRechnung requires seller electronic address (BT-34)",
        "BR-DE-26",
    );
    add_error_if(
        errors,
        invoice.buyer.electronic_address.is_none(),
        "buyer.electronic_address",
        "XRechnung requires buyer electronic address (BT-49)",
        "BR-DE-28",
    );
    proof {
        assert(errors_view(errors@) =~= start + xr_address_errors(*invoice));
    }
}

/// Validate an invoice against XRechnung-specific rules (BR-DE-*).
///
/// This is additional to `validate_14_ustg`; call both for full XRechnung
/// compliance. Returns all errors found.
pub fn validate_xrechnung(invoice: &Invoice) -> (r: Vec<ValidationError>)
    ensures
        errors_view(r@) == xrechnung_errors(*invoice),
{
    let mut errors: Vec<ValidationError> = Vec::new();
    check_head(invoice, &mut errors);
    check_document(invoice, &mut errors);
    check_payment(invoice, &mut errors);
    check_addresses(invoice, &mut errors);
    proof {
        assert(errors_view(errors@) =~= xrechnung_errors(*invoice));
    }
    errors
}

} // verus!
