//! CSV data files of the GDPdU export: headerless, `;`-separated, text in
//! double quotes, German decimal comma.
use vstd::prelude::*;
use crate::date::{dmy_dots, format_dmy_dots, Date};
use crate::decimal::{
    checked_add, decimal_checked_add, display_prec_spec, round_dp, round_dp_spec, to_fixed_string,
    Dec,
};
use crate::model::error::RechnungError;
use crate::model::types::{type_code_spec, Invoice, Party, VatBreakdown};
use crate::text::{
    chars_of, nat_str, pad_zeros, push_char, push_str, str_eq, string_of, u64_to_string, zero_pad,
};
use crate::xrechnung::ubl::code_text;

verus! {

// ---------------------------------------------------------------- string order

/// The order of `String`: lexicographic by character (the UTF-8 byte order).
pub open spec fn str_lt(a: Seq<char>, b: Seq<char>) -> bool
    decreases a.len(),
{
    if a.len() == 0 {
        b.len() > 0
    } else if b.len() == 0 {
        false
    } else if a[0] != b[0] {
        (a[0] as int) < (b[0] as int)
    } else {
        str_lt(a.skip(1), b.skip(1))
    }
}

pub proof fn lemma_str_lt_irreflexive(a: Seq<char>)
    ensures
        !str_lt(a, a),
    decreases a.len(),
{
    if a.len() > 0 {
        lemma_str_lt_irreflexive(a.skip(1));
    }
}

pub proof fn lemma_str_lt_transitive(a: Seq<char>, b: Seq<char>, c: Seq<char>)
    requires
        str_lt(a, b),
        str_lt(b, c),
    ensures
        str_lt(a, c),
    decreases a.len(),
{
    if a.len() > 0 && b.len() > 0 && c.len() > 0 && a[0] == b[0] && b[0] == c[0] {
        lemma_str_lt_transitive(a.skip(1), b.skip(1), c.skip(1));
    }
}

/// Two different strings are ordered one way or the other.
pub proof fn lemma_str_lt_total(a: Seq<char>, b: Seq<char>)
    ensures
        a == b || str_lt(a, b) || str_lt(b, a),
    decreases a.len(),
{
    if a.len() > 0 && b.len() > 0 && a[0] == b[0] {
        lemma_str_lt_total(a.skip(1), b.skip(1));
        if a.skip(1) == b.skip(1) {
            assert(a =~= seq![a[0]] + a.skip(1));
            assert(b =~= seq![b[0]] + b.skip(1));
        }
    } else if a.len() == 0 && b.len() == 0 {
        assert(a =~= b);
    } else if a.len() > 0 && b.len() > 0 {
        assert((a[0] as int) != (b[0] as int));
    }
}

/// `a < b` for `String`s.
pub fn str_less(a: &str, b: &str) -> (r: bool)
    ensures
        r == str_lt(a@, b@),
{
    let x = chars_of(a);
    let y = chars_of(b);
    let mut i: usize = 0;
    proof {
        assert(a@.skip(0) =~= a@);
        assert(b@.skip(0) =~= b@);
    }
    while i < x.len() && i < y.len()
        invariant
            x@ == a@,
            y@ == b@,
            i <= x.len(),
            i <= y.len(),
            str_lt(a@, b@) == str_lt(a@.skip(i as int), b@.skip(i as int)),
        decreases x.len() - i,
    {
        if x[i] != y[i] {
            proof {
                assert(a@.skip(i as int)[0] == x@[i as int]);
                assert(b@.skip(i as int)[0] == y@[i as int]);
            }
            return x[i] < y[i];
        }
        proof {
            assert(a@.skip(i as int).skip(1) =~= a@.skip(i + 1));
            assert(b@.skip(i as int).skip(1) =~= b@.skip(i + 1));
        }
        i = i + 1;
    }
    proof {
        assert(a@.skip(i as int).len() == a@.len() - i);
        assert(b@.skip(i as int).len() == b@.len() - i);
    }
    i < y.len()
}

// ---------------------------------------------------------------- fields

/// Doubled double quotes.
pub open spec fn escape_quotes(s: Seq<char>) -> Seq<char>
    decreases s.len(),
{
    if s.len() == 0 {
        seq![]
    } else {
        escape_quotes(s.drop_last()) + if s.last() == '"' {
            seq!['"', '"']
        } else {
            seq![s.last()]
        }
    }
}

/// A text field: in double quotes, inner quotes doubled.
#[verifier::opaque]
pub open spec fn csv_str(s: Seq<char>) -> Seq<char> {
    seq!['"'] + escape_quotes(s) + seq!['"']
}

/// A decimal field: rounded to two places (banker's rounding), written with
/// two decimals and a decimal comma.
pub open spec fn csv_dec(d: (i128, u32)) -> Seq<char> {
    display_prec_spec(round_dp_spec(d, 2), 2).map_values(
        |c: char|
            if c == '.' {
                ','
            } else {
                c
            },
    )
}

fn csv_field_str(out: &mut String, value: &str)
    ensures
        final(out)@ == old(out)@ + csv_str(value@),
{
    proof {
        reveal(csv_str);
    }
    let v = chars_of(value);
    push_char(out, '"');
    let ghost start = out@;
    let mut i: usize = 0;
    while i < v.len()
        invariant
            v@ == value@,
            i <= v.len(),
            out@ == start + escape_quotes(v@.take(i as int)),
        decreases v.len() - i,
    {
        proof {
            assert(v@.take(i + 1).drop_last() =~= v@.take(i as int));
            assert(v@.take(i + 1).last() == v@[i as int]);
        }
        if v[i] == '"' {
            push_char(out, '"');
            push_char(out, '"');
        } else {
            push_char(out, v[i]);
        }
        proof {
            assert(out@ =~= start + escape_quotes(v@.take(i + 1)));
        }
        i = i + 1;
    }
    push_char(out, '"');
    proof {
        assert(v@.take(v@.len() as int) =~= v@);
        assert(out@ =~= old(out)@ + csv_str(value@));
    }
}

fn csv_field_decimal(out: &mut String, d: Dec)
    ensures
        final(out)@ == old(out)@ + csv_dec(d@),
{
    let scaled = round_dp(d, 2);
    let s = to_fixed_string(&scaled, 2);
    let v = chars_of(s.as_str());
    let ghost start = out@;
    let ghost f = |c: char|
        if c == '.' {
            ','
        } else {
            c
        };
    let mut i: usize = 0;
    while i < v.len()
        invariant
            v@ == s@,
            i <= v.len(),
            f == (|c: char|
                if c == '.' {
                    ','
                } else {
                    c
                }),
            out@ == start + v@.take(i as int).map_values(f),
        decreases v.len() - i,
    {
        if v[i] == '.' {
            push_char(out, ',');
        } else {
            push_char(out, v[i]);
        }
        proof {
            assert(out@ =~= start + v@.take(i + 1).map_values(f));
        }
        i = i + 1;
    }
    proof {
        assert(v@.take(v@.len() as int) =~= v@);
    }
}

/// `K-0001`, `K-0002`, ...: a customer account number.
pub open spec fn customer_id(n: nat) -> Seq<char> {
    "K-"@ + zero_pad(nat_str(n), 4)
}

fn customer_id_string(n: usize) -> (r: String)
    requires
        n <= u64::MAX,
    ensures
        r@ == customer_id(n as nat),
{
    proof {
        reveal_strlit("K-");
    }
    let digits = u64_to_string(n as u64);
    let mut r = string_of("K-");
    push_str(&mut r, pad_zeros(&digits, 4).as_str());
    r
}

// ---------------------------------------------------------------- kunden.csv

/// The buyer name of invoice `i`.
pub open spec fn buyer_name(invs: Seq<Invoice>, i: int) -> Seq<char> {
    invs[i].buyer.name@
}

/// Invoice `i` is the first with its buyer's name.
pub open spec fn is_first_buyer(invs: Seq<Invoice>, i: int) -> bool {
    0 <= i < invs.len() && forall|j: int| 0 <= j < i ==> buyer_name(invs, j) != buyer_name(invs, i)
}

/// `idx` names, for each buyer name, the first invoice with it, in the
/// order of the names.
pub open spec fn customer_order(invs: Seq<Invoice>, idx: Seq<usize>) -> bool {
    &&& forall|k: int| 0 <= k < idx.len() ==> is_first_buyer(invs, #[trigger] idx[k] as int)
    &&& forall|k1: int, k2: int|
        0 <= k1 < k2 < idx.len() ==> str_lt(
            buyer_name(invs, #[trigger] idx[k1] as int),
            buyer_name(invs, #[trigger] idx[k2] as int),
        )
    &&& forall|i: int| 0 <= i < invs.len() ==> #[trigger] lists_buyer(invs, idx, i)
}

/// Some entry of `idx` has the buyer name of invoice `i`.
pub open spec fn lists_buyer(invs: Seq<Invoice>, idx: Seq<usize>, i: int) -> bool {
    exists|k: int| 0 <= k < idx.len() && buyer_name(invs, #[trigger] idx[k] as int) == buyer_name(invs, i)
}

/// The text, or nothing.
pub open spec fn or_empty(o: Option<String>) -> Seq<char> {
    match o {
        Some(s) => s@,
        None => seq![],
    }
}

/// A text field followed by the column delimiter.
pub open spec fn csv_col(s: Seq<char>) -> Seq<char> {
    csv_str(s) + seq![';']
}

/// A customer row: account number, name, street, postcode, city, country, VAT id.
pub open spec fn kunden_row(n: nat, p: Party) -> Seq<char> {
    csv_col(customer_id(n)) + csv_col(p.name@) + csv_col(or_empty(p.address.street)) + csv_col(
        p.address.postal_code@,
    ) + csv_col(p.address.city@) + csv_col(p.address.country_code@) + csv_str(
        or_empty(p.vat_id),
    ) + seq!['\r', '\n']
}

fn csv_col_str(out: &mut String, value: &str)
    ensures
        final(out)@ == old(out)@ + csv_col(value@),
{
    csv_field_str(out, value);
    push_char(out, ';');
    proof {
        assert(final(out)@ =~= old(out)@ + csv_col(value@));
    }
}

fn csv_opt_str(out: &mut String, value: &Option<String>)
    ensures
        final(out)@ == old(out)@ + csv_str(or_empty(*value)),
{
    proof {
        reveal_strlit("");
    }
    let t: &str = match value {
        Some(v) => v.as_str(),
        None => "",
    };
    proof {
        match value {
            Some(v) => assert(t@ == or_empty(*value)),
            None => assert(t@ =~= or_empty(*value)),
        }
    }
    csv_field_str(out, t);
}

/// The rows of the customers in `idx`, numbered from 1.
pub open spec fn kunden_text(invs: Seq<Invoice>, idx: Seq<usize>) -> Seq<char>
    decreases idx.len(),
{
    if idx.len() == 0 {
        seq![]
    } else {
        kunden_text(invs, idx.drop_last()) + kunden_row(
            idx.len(),
            invs[idx.last() as int].buyer,
        )
    }
}

/// One invoice per buyer name, the first with it, ordered by name.
fn customer_index(invoices: &[Invoice]) -> (idx: Vec<usize>)
    ensures
        customer_order(invoices@, idx@),
{
    let ghost invs = invoices@;
    let mut idx: Vec<usize> = Vec::new();
    let mut i: usize = 0;
    while i < invoices.len()
        invariant
            invs == invoices@,
            i <= invs.len(),
            forall|k: int| 0 <= k < idx@.len() ==> #[trigger] idx@[k] < i,
            forall|k: int| 0 <= k < idx@.len() ==> is_first_buyer(invs, #[trigger] idx@[k] as int),
            forall|k1: int, k2: int|
                0 <= k1 < k2 < idx@.len() ==> str_lt(
                    buyer_name(invs, #[trigger] idx@[k1] as int),
                    buyer_name(invs, #[trigger] idx@[k2] as int),
                ),
            forall|j: int| 0 <= j < i ==> #[trigger] lists_buyer(invs, idx@, j),
        decreases invoices.len() - i,
    {
        let name = invoices[i].buyer.name.as_str();
        let mut p: usize = 0;
        while p < idx.len() && str_less(invoices[idx[p]].buyer.name.as_str(), name)
            invariant
                invs == invoices@,
                i < invs.len(),
                name@ == buyer_name(invs, i as int),
                p <= idx@.len(),
                forall|k: int| 0 <= k < idx@.len() ==> #[trigger] idx@[k] < i,
                forall|k: int|
                    0 <= k < p ==> str_lt(buyer_name(invs, #[trigger] idx@[k] as int), name@),
            decreases idx.len() - p,
        {
            p = p + 1;
        }
        let found = p < idx.len() && str_eq(invoices[idx[p]].buyer.name.as_str(), name);
        if !found {
            proof {
                let ni = buyer_name(invs, i as int);
                if p < idx@.len() {
                    lemma_str_lt_total(buyer_name(invs, idx@[p as int] as int), ni);
                }
                assert forall|j: int| 0 <= j < i implies buyer_name(invs, j) != ni by {
                    if buyer_name(invs, j) == ni {
                        assert(lists_buyer(invs, idx@, j));
                        let k = choose|k: int|
                            0 <= k < idx@.len() && buyer_name(invs, #[trigger] idx@[k] as int)
                                == buyer_name(invs, j);
                        if k < p {
                            lemma_str_lt_irreflexive(ni);
                        } else if k == p {
                        } else {
                            assert(str_lt(
                                buyer_name(invs, idx@[p as int] as int),
                                buyer_name(invs, idx@[k] as int),
                            ));
                        }
                    }
                }
                assert forall|k: int| p <= k < idx@.len() implies str_lt(
                    ni,
                    buyer_name(invs, #[trigger] idx@[k] as int),
                ) by {
                    if k > p {
                        assert(str_lt(
                            buyer_name(invs, idx@[p as int] as int),
                            buyer_name(invs, idx@[k] as int),
                        ));
                        lemma_str_lt_transitive(
                            ni,
                            buyer_name(invs, idx@[p as int] as int),
                            buyer_name(invs, idx@[k] as int),
                        );
                    }
                }
            }
            let ghost old_idx = idx@;
            idx.insert(p, i);
            proof {
                assert(idx@ == old_idx.insert(p as int, i));
                assert forall|k: int| 0 <= k < idx@.len() implies is_first_buyer(
                    invs,
                    #[trigger] idx@[k] as int,
                ) by {
                    if k < p {
                        assert(idx@[k] == old_idx[k]);
                    } else if k > p {
                        assert(idx@[k] == old_idx[k - 1]);
                    }
                }
                assert forall|k1: int, k2: int| 0 <= k1 < k2 < idx@.len() implies str_lt(
                    buyer_name(invs, #[trigger] idx@[k1] as int),
                    buyer_name(invs, #[trigger] idx@[k2] as int),
                ) by {
                    if k2 < p {
                        assert(idx@[k1] == old_idx[k1] && idx@[k2] == old_idx[k2]);
                    } else if k2 == p {
                        assert(idx@[k1] == old_idx[k1]);
                    } else if k1 < p {
                        assert(idx@[k1] == old_idx[k1] && idx@[k2] == old_idx[k2 - 1]);
                        lemma_str_lt_transitive(
                            buyer_name(invs, old_idx[k1] as int),
                            buyer_name(invs, i as int),
                            buyer_name(invs, old_idx[k2 - 1] as int),
                        );
                    } else if k1 == p {
                        assert(idx@[k2] == old_idx[k2 - 1]);
                    } else {
                        assert(idx@[k1] == old_idx[k1 - 1] && idx@[k2] == old_idx[k2 - 1]);
                    }
                }
                assert forall|j: int| 0 <= j < i + 1 implies #[trigger] lists_buyer(invs, idx@, j) by {
                    if j == i {
                        assert(idx@[p as int] == i);
                    } else {
                        assert(lists_buyer(invs, old_idx, j));
                        let k = choose|k: int|
                            0 <= k < old_idx.len() && buyer_name(invs, #[trigger] old_idx[k] as int)
                                == buyer_name(invs, j);
                        if k < p {
                            assert(idx@[k] == old_idx[k]);
                        } else {
                            assert(idx@[k + 1] == old_idx[k]);
                        }
                    }
                }
            }
        } else {
            proof {
                assert(buyer_name(invs, idx@[p as int] as int) == buyer_name(invs, i as int));
                assert(lists_buyer(invs, idx@, i as int));
            }
        }
        i = i + 1;
    }
    idx
}

fn write_kunden_row(out: &mut String, n: usize, p: &Party)
    requires
        n <= u64::MAX,
    ensures
        final(out)@ == old(out)@ + kunden_row(n as nat, *p),
{
    let id = customer_id_string(n);
    csv_col_str(out, id.as_str());
    csv_col_str(out, p.name.as_str());
    csv_opt_str(out, &p.address.street);
    push_char(out, ';');
    proof {
        assert(csv_str(or_empty(p.address.street)) + seq![';'] == csv_col(or_empty(p.address.street)));
    }
    csv_col_str(out, p.address.postal_code.as_str());
    csv_col_str(out, p.address.city.as_str());
    csv_col_str(out, p.address.country_code.as_str());
    csv_opt_str(out, &p.vat_id);
    push_char(out, '\r');
    push_char(out, '\n');
    proof {
        assert(final(out)@ =~= old(out)@ + kunden_row(n as nat, *p));
    }
}

/// kunden.csv: one row per buyer name, in the order of the names, numbered
/// `K-0001`, `K-0002`, ... in that order; each row holds the buyer of the
/// first invoice with that name.
pub fn generate_kunden_csv(invoices: &[Invoice]) -> (r: String)
    ensures
        exists|idx: Seq<usize>| customer_order(invoices@, idx) && r@ == kunden_text(invoices@, idx),
{
    let idx = customer_index(invoices);
    kunden_from(invoices, &idx)
}

fn kunden_from(invoices: &[Invoice], idx: &Vec<usize>) -> (r: String)
    requires
        customer_order(invoices@, idx@),
    ensures
        r@ == kunden_text(invoices@, idx@),
{
    let mut out = String::new();
    let mut k: usize = 0;
    while k < idx.len()
        invariant
            customer_order(invoices@, idx@),
            k <= idx@.len(),
            out@ == kunden_text(invoices@, idx@.take(k as int)),
        decreases idx.len() - k,
    {
        proof {
            assert(idx@.take(k + 1).drop_last() =~= idx@.take(k as int));
            assert(is_first_buyer(invoices@, idx@[k as int] as int));
        }
        write_kunden_row(&mut out, k + 1, &invoices[idx[k]].buyer);
        proof {
            assert(idx@.take(k + 1).last() == idx@[k as int]);
        }
        k = k + 1;
    }
    proof {
        assert(idx@.take(idx@.len() as int) =~= idx@);
    }
    out
}

// ---------------------------------------------------------------- rechnungsausgang.csv

/// The position in `ids` of the last entry with the given buyer name, -1 if none.
pub open spec fn name_pos(invs: Seq<Invoice>, ids: Seq<usize>, name: Seq<char>) -> int
    decreases ids.len(),
{
    if ids.len() == 0 {
        -1
    } else if buyer_name(invs, ids.last() as int) == name {
        ids.len() - 1
    } else {
        name_pos(invs, ids.drop_last(), name)
    }
}

/// The account number of the buyer of invoice `i`: its buyer's position
/// among the buyers in `ids` (the order of kunden.csv), from 1.
pub open spec fn account_of(invs: Seq<Invoice>, ids: Seq<usize>, i: int) -> Seq<char> {
    customer_id((name_pos(invs, ids, buyer_name(invs, i)) + 1) as nat)
}

/// The posting text: the item name of a single-line invoice, else the number.
pub open spec fn posting_text(inv: Invoice) -> Seq<char> {
    if inv.lines@.len() == 1 {
        inv.lines@[0].item_name@
    } else {
        inv.number@
    }
}

/// A date as `DD.MM.YYYY`, or nothing.
pub open spec fn opt_dmy(o: Option<Date>) -> Seq<char> {
    match o {
        Some(d) => dmy_dots(d@),
        None => seq![],
    }
}

/// The gross amount of a VAT group (`taxable + tax`).
pub open spec fn group_gross(b: VatBreakdown) -> Option<(i128, u32)> {
    decimal_checked_add(b.taxable_amount@, b.tax_amount@)
}

/// The head of an invoice row: number, dates, account, name and posting text.
pub open spec fn row_head(inv: Invoice, account: Seq<char>) -> Seq<char> {
    csv_col(inv.number@) + dmy_dots(inv.issue_date@) + seq![';'] + opt_dmy(inv.due_date) + seq![';']
        + opt_dmy(inv.tax_point_date) + seq![';'] + csv_col(account) + csv_col(inv.buyer.name@)
        + csv_col(posting_text(inv))
}

/// A decimal field followed by the column delimiter.
pub open spec fn dec_col(d: (i128, u32)) -> Seq<char> {
    csv_dec(d) + seq![';']
}

/// The amounts, currency and document type of an invoice row.
pub open spec fn row_tail(inv: Invoice, b: VatBreakdown, gross: (i128, u32)) -> Seq<char> {
    dec_col(b.taxable_amount@) + dec_col(b.rate@) + dec_col(b.tax_amount@) + dec_col(gross)
        + csv_col(inv.currency_code@) + csv_str(code_text(type_code_spec(inv.type_code))) + seq![
        '\r',
        '\n',
    ]
}

/// The row of one VAT group; groups with zero gross and zero net give none.
pub open spec fn group_row(inv: Invoice, account: Seq<char>, b: VatBreakdown) -> Seq<char> {
    match group_gross(b) {
        Some(g) => if g.0 == 0 && b.taxable_amount@.0 == 0 {
            seq![]
        } else {
            row_head(inv, account) + row_tail(inv, b, g)
        },
        None => seq![],
    }
}

pub open spec fn group_rows(inv: Invoice, account: Seq<char>, bs: Seq<VatBreakdown>) -> Seq<char>
    decreases bs.len(),
{
    if bs.len() == 0 {
        seq![]
    } else {
        group_rows(inv, account, bs.drop_last()) + group_row(inv, account, bs.last())
    }
}

/// The rows of the first `n` invoices.
pub open spec fn rechnungen_text(invs: Seq<Invoice>, ids: Seq<usize>, n: int) -> Seq<char>
    decreases n,
{
    if n <= 0 {
        seq![]
    } else {
        rechnungen_text(invs, ids, n - 1) + match invs[n - 1].totals {
            Some(t) => group_rows(invs[n - 1], account_of(invs, ids, n - 1), t.vat_breakdown@),
            None => seq![],
        }
    }
}

/// An invoice whose rows can be written: its totals are calculated and no
/// group's gross amount overflows.
pub open spec fn exportable(inv: Invoice) -> bool {
    inv.totals matches Some(t) && forall|k: int|
        0 <= k < t.vat_breakdown@.len() ==> (#[trigger] group_gross(t.vat_breakdown@[k])) is Some
}

/// The error text for an invoice without totals.
pub open spec fn no_totals_message(number: Seq<char>) -> Seq<char> {
    "invoice "@ + number + " has no calculated totals \u{2014} call calculate_totals() first"@
}

/// Entries of a customer index carry different buyer names.
/// One customer numbering for both files: the account number written for
/// invoice `i` in rechnungsausgang.csv is `K-` and the position, from 1, of
/// the one kunden.csv row (the `k`-th entry of the customer order, written
/// as `kunden_row(k + 1, ...)`) whose buyer has invoice `i`'s buyer name.
pub proof fn lemma_one_customer_numbering(invs: Seq<Invoice>, idx: Seq<usize>, i: int)
    requires
        customer_order(invs, idx),
        0 <= i < invs.len(),
    ensures
        0 <= name_pos(invs, idx, buyer_name(invs, i)) < idx.len(),
        buyer_name(invs, idx[name_pos(invs, idx, buyer_name(invs, i))] as int) == buyer_name(invs, i),
        account_of(invs, idx, i) == customer_id((name_pos(invs, idx, buyer_name(invs, i)) + 1) as nat),
        forall|k: int|
            0 <= k < idx.len() && buyer_name(invs, #[trigger] idx[k] as int) == buyer_name(invs, i) ==> k
                == name_pos(invs, idx, buyer_name(invs, i)),
{
    let name = buyer_name(invs, i);
    assert(lists_buyer(invs, idx, i));
    let k0 = choose|k: int| 0 <= k < idx.len() && buyer_name(invs, #[trigger] idx[k] as int) == name;
    assert forall|j: int| 0 <= j < idx.len() && j != k0 implies buyer_name(invs, #[trigger] idx[j] as int) != name by {
        lemma_customer_order_distinct(invs, idx, j, k0);
    }
    lemma_name_pos(invs, idx, name, k0);
}

proof fn lemma_customer_order_distinct(invs: Seq<Invoice>, ids: Seq<usize>, k1: int, k2: int)
    requires
        customer_order(invs, ids),
        0 <= k1 < ids.len(),
        0 <= k2 < ids.len(),
        k1 != k2,
    ensures
        buyer_name(invs, ids[k1] as int) != buyer_name(invs, ids[k2] as int),
{
    if k1 < k2 {
        assert(str_lt(buyer_name(invs, ids[k1] as int), buyer_name(invs, ids[k2] as int)));
        lemma_str_lt_irreflexive(buyer_name(invs, ids[k1] as int));
    } else {
        assert(str_lt(buyer_name(invs, ids[k2] as int), buyer_name(invs, ids[k1] as int)));
        lemma_str_lt_irreflexive(buyer_name(invs, ids[k2] as int));
    }
}

/// Where exactly one entry carries the name, `name_pos` finds it.
proof fn lemma_name_pos(invs: Seq<Invoice>, ids: Seq<usize>, name: Seq<char>, k: int)
    requires
        0 <= k < ids.len(),
        buyer_name(invs, ids[k] as int) == name,
        forall|j: int| 0 <= j < ids.len() && j != k ==> buyer_name(invs, #[trigger] ids[j] as int) != name,
    ensures
        name_pos(invs, ids, name) == k,
    decreases ids.len(),
{
    if k < ids.len() - 1 {
        let d = ids.drop_last();
        assert forall|j: int| 0 <= j < d.len() && j != k implies buyer_name(invs, #[trigger] d[j] as int) != name by {
            assert(d[j] == ids[j]);
        }
        assert(buyer_name(invs, ids.last() as int) != name) by {
            assert(ids.last() == ids[ids.len() - 1]);
        }
        lemma_name_pos(invs, d, name, k);
    }
}

/// The position of invoice `i`'s buyer name among `ids`.
fn account_number(invoices: &[Invoice], ids: &Vec<usize>, i: usize) -> (r: String)
    requires
        customer_order(invoices@, ids@),
        i < invoices@.len(),
    ensures
        r@ == account_of(invoices@, ids@, i as int),
{
    let ghost invs = invoices@;
    let name = invoices[i].buyer.name.as_str();
    proof {
        assert(lists_buyer(invs, ids@, i as int));
    }
    let mut p: usize = 0;
    while p < ids.len() && !str_eq(invoices[ids[p]].buyer.name.as_str(), name)
        invariant
            invs == invoices@,
            customer_order(invs, ids@),
            i < invs.len(),
            lists_buyer(invs, ids@, i as int),
            name@ == buyer_name(invs, i as int),
            p <= ids@.len(),
            forall|k: int| 0 <= k < p ==> buyer_name(invs, #[trigger] ids@[k] as int) != name@,
            forall|k: int| 0 <= k < ids@.len() ==> #[trigger] ids@[k] < invs.len(),
        decreases ids.len() - p,
    {
        p = p + 1;
    }
    proof {
        let k = choose|k: int|
            0 <= k < ids@.len() && buyer_name(invs, #[trigger] ids@[k] as int) == buyer_name(
                invs,
                i as int,
            );
        assert(p < ids@.len());
        assert forall|j: int| 0 <= j < ids@.len() && j != p implies buyer_name(invs, #[trigger] ids@[j] as int) != name@ by {
            lemma_customer_order_distinct(invs, ids@, j, p as int);
        }
        lemma_name_pos(invs, ids@, name@, p as int);
    }
    customer_id_string(p + 1)
}

fn write_opt_dmy(out: &mut String, o: &Option<Date>)
    ensures
        final(out)@ == old(out)@ + opt_dmy(*o),
{
    match o {
        Some(d) => {
            let t = format_dmy_dots(d);
            push_str(out, t.as_str());
        },
        None => {},
    }
    proof {
        assert(final(out)@ =~= old(out)@ + opt_dmy(*o));
    }
}

fn write_row_head(out: &mut String, inv: &Invoice, account: &str)
    ensures
        final(out)@ == old(out)@ + row_head(*inv, account@),
{
    csv_col_str(out, inv.number.as_str());
    let d = format_dmy_dots(&inv.issue_date);
    push_str(out, d.as_str());
    push_char(out, ';');
    write_opt_dmy(out, &inv.due_date);
    push_char(out, ';');
    write_opt_dmy(out, &inv.tax_point_date);
    push_char(out, ';');
    csv_col_str(out, account);
    csv_col_str(out, inv.buyer.name.as_str());
    if inv.lines.len() == 1 {
        csv_col_str(out, inv.lines[0].item_name.as_str());
    } else {
        csv_col_str(out, inv.number.as_str());
    }
    proof {
        assert(final(out)@ =~= old(out)@ + row_head(*inv, account@));
    }
}

fn dec_col_str(out: &mut String, d: Dec)
    ensures
        final(out)@ == old(out)@ + dec_col(d@),
{
    csv_field_decimal(out, d);
    push_char(out, ';');
    proof {
        assert(final(out)@ =~= old(out)@ + dec_col(d@));
    }
}

fn write_row_tail(out: &mut String, inv: &Invoice, b: &VatBreakdown, gross: Dec)
    ensures
        final(out)@ == old(out)@ + row_tail(*inv, *b, gross@),
{
    dec_col_str(out, b.taxable_amount);
    dec_col_str(out, b.rate);
    dec_col_str(out, b.tax_amount);
    dec_col_str(out, gross);
    csv_col_str(out, inv.currency_code.as_str());
    let code = u64_to_string(inv.type_code.code() as u64);
    csv_field_str(out, code.as_str());
    push_char(out, '\r');
    push_char(out, '\n');
    proof {
        assert(final(out)@ =~= old(out)@ + row_tail(*inv, *b, gross@));
    }
}

/// The rows of one invoice's VAT groups; `Err` where a gross amount overflows.
fn write_group_rows(out: &mut String, inv: &Invoice, account: &str, bs: &Vec<VatBreakdown>) -> (r:
    Result<(), RechnungError>)
    ensures
        match r {
            Ok(()) => final(out)@ == old(out)@ + group_rows(*inv, account@, bs@) && forall|k: int|
                0 <= k < bs@.len() ==> (#[trigger] group_gross(bs@[k])) is Some,
            Err(e) => e matches RechnungError::Arithmetic(_) && exists|k: int|
                0 <= k < bs@.len() && (#[trigger] group_gross(bs@[k])) is None,
        },
{
    let ghost start = out@;
    let mut i: usize = 0;
    while i < bs.len()
        invariant
            i <= bs@.len(),
            out@ == start + group_rows(*inv, account@, bs@.take(i as int)),
            forall|k: int| 0 <= k < i ==> (#[trigger] group_gross(bs@[k])) is Some,
        decreases bs.len() - i,
    {
        let b = &bs[i];
        proof {
            assert(bs@.take(i + 1).drop_last() =~= bs@.take(i as int));
            assert(bs@.take(i + 1).last() == bs@[i as int]);
        }
        let gross = match checked_add(b.taxable_amount, b.tax_amount) {
            Some(g) => g,
            None => {
                proof {
                    assert(group_gross(bs@[i as int]) is None);
                }
                return Err(
                    RechnungError::Arithmetic(string_of("VAT group gross amount out of range")),
                );
            },
        };
        if !(gross.is_zero() && b.taxable_amount.is_zero()) {
            write_row_head(out, inv, account);
            write_row_tail(out, inv, b, gross);
        }
        proof {
            assert(out@ =~= start + group_rows(*inv, account@, bs@.take(i + 1)));
        }
        i = i + 1;
    }
    proof {
        assert(bs@.take(bs@.len() as int) =~= bs@);
    }
    Ok(())
}

fn no_totals_error(number: &str) -> (e: RechnungError)
    ensures
        e matches RechnungError::Builder(m) && m@ == no_totals_message(number@),
{
    let mut m = string_of("invoice ");
    push_str(&mut m, number);
    push_str(&mut m, " has no calculated totals \u{2014} call calculate_totals() first");
    RechnungError::Builder(m)
}

/// rechnungsausgang.csv: one row per VAT group of each invoice, in order
/// (groups with zero gross and net amount left out). Account numbers are
/// those of kunden.csv: the buyers counted in the order of their names.
pub fn generate_rechnungsausgang_csv(invoices: &[Invoice]) -> (r: Result<String, RechnungError>)
    ensures
        (forall|i: int| 0 <= i < invoices@.len() ==> exportable(#[trigger] invoices@[i])) <==> r is Ok,
        match r {
            Ok(s) => exists|idx: Seq<usize>|
                customer_order(invoices@, idx) && s@ == rechnungen_text(
                    invoices@,
                    idx,
                    invoices@.len() as int,
                ),
            Err(e) => export_error(invoices@, e),
        },
{
    let idx = customer_index(invoices);
    rechnungen_from(invoices, &idx)
}

/// The error of an export: the first invoice that cannot be written has no
/// totals (with its message) or a group whose gross amount overflows.
pub open spec fn export_error(invs: Seq<Invoice>, e: RechnungError) -> bool {
    exists|i: int|
        0 <= i < invs.len() && !exportable(#[trigger] invs[i]) && match e {
            RechnungError::Builder(m) => invs[i].totals is None && m@ == no_totals_message(invs[i].number@),
            RechnungError::Arithmetic(_) => invs[i].totals is Some,
            _ => false,
        }
}

fn rechnungen_from(invoices: &[Invoice], ids: &Vec<usize>) -> (r: Result<String, RechnungError>)
    requires
        customer_order(invoices@, ids@),
    ensures
        (forall|i: int| 0 <= i < invoices@.len() ==> exportable(#[trigger] invoices@[i])) <==> r is Ok,
        match r {
            Ok(s) => s@ == rechnungen_text(invoices@, ids@, invoices@.len() as int),
            Err(e) => export_error(invoices@, e),
        },
{
    let mut out = String::new();
    let mut i: usize = 0;
    while i < invoices.len()
        invariant
            customer_order(invoices@, ids@),
            i <= invoices@.len(),
            out@ == rechnungen_text(invoices@, ids@, i as int),
            forall|k: int| 0 <= k < i ==> exportable(#[trigger] invoices@[k]),
        decreases invoices.len() - i,
    {
        let inv = &invoices[i];
        let totals = match &inv.totals {
            Some(t) => t,
            None => {
                proof {
                    assert(!exportable(invoices@[i as int]));
                }
                return Err(no_totals_error(inv.number.as_str()));
            },
        };
        let account = account_number(invoices, ids, i);
        match write_group_rows(&mut out, inv, account.as_str(), &totals.vat_breakdown) {
            Ok(()) => {},
            Err(e) => {
                proof {
                    assert(!exportable(invoices@[i as int]));
                }
                return Err(e);
            },
        }
        i = i + 1;
    }
    Ok(out)
}

/// The kunden.csv and rechnungsausgang.csv contents, with one numbering of
/// the customers for both files.
pub fn generate_csvs(invoices: &[Invoice]) -> (r: Result<(String, String), RechnungError>)
    ensures
        (forall|i: int| 0 <= i < invoices@.len() ==> exportable(#[trigger] invoices@[i])) <==> r is Ok,
        match r {
            Ok((k, s)) => exists|idx: Seq<usize>|
                customer_order(invoices@, idx) && k@ == kunden_text(invoices@, idx) && s@
                    == rechnungen_text(invoices@, idx, invoices@.len() as int),
            Err(e) => export_error(invoices@, e),
        },
{
    let idx = customer_index(invoices);
    let kunden = kunden_from(invoices, &idx);
    let rechnungen = rechnungen_from(invoices, &idx)?;
    Ok((kunden, rechnungen))
}

} // verus!
