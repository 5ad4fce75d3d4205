//! Invoice totals (BG-22), the VAT breakdown (BG-23) and the arithmetic checks
//! that tie them together.
use vstd::prelude::*;
use crate::decimal::{
    checked_add, checked_div, checked_mul, checked_sub, compare, decimal_checked_add,
    decimal_checked_div, decimal_checked_mul, decimal_checked_sub, display_spec, eq, opt_view,
    lemma_pow10_pos, lemma_value_eq_refl, lemma_value_eq_trans, pow10, push_display, round_half_up,
    round_half_up_spec, value_eq, value_lt, Dec,
};
use crate::model::error::{errors_view, verror, ErrorView, RechnungError, ValidationError};
use crate::model::types::{
    AllowanceCharge, Invoice, LineItem, TaxCategory, Totals, VatBreakdown, VatScenario,
};
use crate::text::{push_str, string_of};

verus! {

/// A decimal as its representation `(mantissa, scale)`.
pub type D = (i128, u32);

pub open spec fn lift_add(a: Option<D>, b: Option<D>) -> Option<D> {
    match (a, b) {
        (Some(x), Some(y)) => decimal_checked_add(x, y),
        _ => None,
    }
}

pub open spec fn lift_sub(a: Option<D>, b: Option<D>) -> Option<D> {
    match (a, b) {
        (Some(x), Some(y)) => decimal_checked_sub(x, y),
        _ => None,
    }
}

pub open spec fn lift_div(a: Option<D>, b: Option<D>) -> Option<D> {
    match (a, b) {
        (Some(x), Some(y)) => decimal_checked_div(x, y),
        _ => None,
    }
}

/// `iter().sum()` of decimals: `ZERO` plus each element in turn.
pub open spec fn sum_seq(s: Seq<D>) -> Option<D>
    decreases s.len(),
{
    if s.len() == 0 {
        Some((0i128, 0u32))
    } else {
        lift_add(sum_seq(s.drop_last()), Some(s.last()))
    }
}

pub open spec fn ac_amounts(s: Seq<AllowanceCharge>) -> Seq<D> {
    s.map_values(|a: AllowanceCharge| a.amount@)
}

pub open spec fn dec_views(s: Seq<Dec>) -> Seq<D> {
    s.map_values(|d: Dec| d@)
}

/// Line net amount: quantity × price − line allowances + line charges.
pub open spec fn line_amount_spec(l: LineItem) -> Option<D> {
    lift_add(
        lift_sub(
            decimal_checked_mul(l.quantity@, l.unit_price@),
            sum_seq(ac_amounts(l.allowances@)),
        ),
        sum_seq(ac_amounts(l.charges@)),
    )
}

/// Every line amount can be computed.
pub open spec fn line_amounts_ok(lines: Seq<LineItem>) -> bool {
    forall|i: int| 0 <= i < lines.len() ==> (#[trigger] line_amount_spec(lines[i])) is Some
}

pub open spec fn line_amounts(lines: Seq<LineItem>) -> Seq<D> {
    lines.map_values(|l: LineItem| line_amount_spec(l)->0)
}

/// The amounts of the lines that carry one (`filter_map(|l| l.line_amount)`).
pub open spec fn present_line_amounts(lines: Seq<LineItem>) -> Seq<D>
    decreases lines.len(),
{
    if lines.len() == 0 {
        seq![]
    } else {
        match lines.last().line_amount {
            Some(a) => present_line_amounts(lines.drop_last()).push(a@),
            None => present_line_amounts(lines.drop_last()),
        }
    }
}

/// One contribution to a VAT group: category, rate, amount and whether it is
/// taken off the group's taxable amount (document allowances) or added.
pub type VatItem = (TaxCategory, D, D, bool);

/// A VAT group: category, rate and taxable amount.
pub type VatGroup = (TaxCategory, D, D);

/// Position of a category in the order of its UNTDID 5305 code strings
/// (AE < E < G < K < O < S < Z).
pub open spec fn cat_rank(c: TaxCategory) -> int {
    match c {
        TaxCategory::ReverseCharge => 0,
        TaxCategory::Exempt => 1,
        TaxCategory::Export => 2,
        TaxCategory::IntraCommunitySupply => 3,
        TaxCategory::NotSubjectToVat => 4,
        TaxCategory::StandardRate => 5,
        TaxCategory::ZeroRated => 6,
    }
}

/// Same group key: same category, rates of the same value.
#[verifier::opaque]
pub open spec fn key_eq(c1: TaxCategory, r1: D, c2: TaxCategory, r2: D) -> bool {
    c1 == c2 && value_eq(r1, r2)
}

/// Key order: by category code, then by rate value.
#[verifier::opaque]
pub open spec fn key_lt(c1: TaxCategory, r1: D, c2: TaxCategory, r2: D) -> bool {
    cat_rank(c1) < cat_rank(c2) || (cat_rank(c1) == cat_rank(c2) && value_lt(r1, r2))
}

pub open spec fn is_first_match(gs: Seq<VatGroup>, c: TaxCategory, r: D, i: int) -> bool {
    &&& 0 <= i < gs.len()
    &&& key_eq(gs[i].0, gs[i].1, c, r)
    &&& forall|j: int| 0 <= j < i ==> !key_eq(#[trigger] gs[j].0, gs[j].1, c, r)
}

/// Index of the group with the key `(c, r)`, or -1.
pub open spec fn find_group(gs: Seq<VatGroup>, c: TaxCategory, r: D) -> int {
    if exists|i: int| is_first_match(gs, c, r, i) {
        choose|i: int| is_first_match(gs, c, r, i)
    } else {
        -1
    }
}

pub open spec fn is_insert_pos(gs: Seq<VatGroup>, c: TaxCategory, r: D, p: int) -> bool {
    &&& 0 <= p <= gs.len()
    &&& (p < gs.len() ==> key_lt(c, r, gs[p].0, gs[p].1))
    &&& forall|j: int| 0 <= j < p ==> !key_lt(c, r, #[trigger] gs[j].0, gs[j].1)
}

/// Where a new key goes so the groups stay ordered: before the first larger key.
pub open spec fn insert_pos(gs: Seq<VatGroup>, c: TaxCategory, r: D) -> int {
    choose|p: int| is_insert_pos(gs, c, r, p)
}

/// `taxable ± amount` for one contribution.
pub open spec fn apply_item(taxable: D, it: VatItem) -> Option<D> {
    if it.3 {
        decimal_checked_sub(taxable, it.2)
    } else {
        decimal_checked_add(taxable, it.2)
    }
}

/// Adds one contribution to its group (`entry(key).or_insert(ZERO) ±= amount`),
/// keeping the groups ordered by key.
pub open spec fn add_item(gs: Seq<VatGroup>, it: VatItem) -> Option<Seq<VatGroup>> {
    let i = find_group(gs, it.0, it.1);
    if i >= 0 {
        match apply_item(gs[i].2, it) {
            Some(t) => Some(gs.update(i, (gs[i].0, gs[i].1, t))),
            None => None,
        }
    } else {
        match apply_item((0i128, 0u32), it) {
            Some(t) => Some(gs.insert(insert_pos(gs, it.0, it.1), (it.0, it.1, t))),
            None => None,
        }
    }
}

/// The VAT groups of a list of contributions, ordered by key.
pub open spec fn groups_of(items: Seq<VatItem>) -> Option<Seq<VatGroup>>
    decreases items.len(),
{
    if items.len() == 0 {
        Some(seq![])
    } else {
        match groups_of(items.drop_last()) {
            Some(gs) => add_item(gs, items.last()),
            None => None,
        }
    }
}

/// Contributions of an invoice: each line with its amount, each document
/// allowance (taken off) and each document charge (added), in that order.
pub open spec fn vat_items(inv: Invoice, amounts: Seq<D>) -> Seq<VatItem> {
    Seq::new(inv.lines@.len(), |i: int| (inv.lines@[i].tax_category, inv.lines@[i].tax_rate@, amounts[i], false))
        + inv.allowances@.map_values(|a: AllowanceCharge| (a.tax_category, a.tax_rate@, a.amount@, true))
        + inv.charges@.map_values(|a: AllowanceCharge| (a.tax_category, a.tax_rate@, a.amount@, false))
}

/// The hundred used to turn a percentage into a factor.
pub open spec fn hundred() -> D {
    (100i128, 0u32)
}

/// VAT of a group: `taxable × rate / 100`, rounded half-up to cents.
pub open spec fn group_tax(g: VatGroup) -> Option<D> {
    match lift_div(decimal_checked_mul(g.2, g.1), Some(hundred())) {
        Some(x) => Some(round_half_up_spec(x, 2)),
        None => None,
    }
}

pub open spec fn taxes_ok(gs: Seq<VatGroup>) -> bool {
    forall|i: int| 0 <= i < gs.len() ==> (#[trigger] group_tax(gs[i])) is Some
}

pub open spec fn group_taxes(gs: Seq<VatGroup>) -> Seq<D> {
    gs.map_values(|g: VatGroup| group_tax(g)->0)
}

/// BT-120 text for a category under a scenario.
pub open spec fn exemption_reason_spec(c: TaxCategory, s: VatScenario) -> Option<Seq<char>> {
    if c == TaxCategory::NotSubjectToVat && s == VatScenario::Kleinunternehmer {
        Some("Kein Ausweis von Umsatzsteuer, da Kleinunternehmer gemäß §19 UStG"@)
    } else if c == TaxCategory::ReverseCharge {
        Some("Steuerschuldnerschaft des Leistungsempfängers gemäß §13b UStG"@)
    } else if c == TaxCategory::IntraCommunitySupply {
        Some("Steuerfreie innergemeinschaftliche Lieferung gemäß §4 Nr. 1b UStG"@)
    } else if c == TaxCategory::Export {
        Some("Steuerfreie Ausfuhrlieferung gemäß §4 Nr. 1a UStG"@)
    } else if c == TaxCategory::Exempt {
        Some("Umsatzsteuerbefreit"@)
    } else {
        None
    }
}

/// BT-121 VATEX code for a category.
pub open spec fn exemption_code_spec(c: TaxCategory) -> Option<Seq<char>> {
    match c {
        TaxCategory::NotSubjectToVat => Some("vatex-eu-o"@),
        TaxCategory::ReverseCharge => Some("vatex-eu-ae"@),
        TaxCategory::IntraCommunitySupply => Some("vatex-eu-ic"@),
        TaxCategory::Export => Some("vatex-eu-g"@),
        TaxCategory::Exempt => Some("vatex-eu-e"@),
        _ => None,
    }
}

pub open spec fn opt_str_view(o: Option<String>) -> Option<Seq<char>> {
    match o {
        Some(s) => Some(s@),
        None => None,
    }
}

/// Whether `calculate_totals` can compute every amount of `inv` with `prepaid`
/// (no decimal operation overflows).
pub open spec fn totals_computable(inv: Invoice, prepaid: D) -> bool {
    let am = line_amounts(inv.lines@);
    let line_net = sum_seq(am);
    let allow = sum_seq(ac_amounts(inv.allowances@));
    let charge = sum_seq(ac_amounts(inv.charges@));
    let net = lift_add(lift_sub(line_net, allow), charge);
    let groups = groups_of(vat_items(inv, am));
    &&& line_amounts_ok(inv.lines@)
    &&& net is Some
    &&& groups is Some
    &&& taxes_ok(groups->0)
    &&& lift_sub(lift_add(net, sum_seq(group_taxes(groups->0))), Some(prepaid)) is Some
}

/// The totals `calculate_totals` gives `inv` (with its line amounts) for `prepaid`.
pub open spec fn totals_of(t: Totals, inv: Invoice, prepaid: D) -> bool {
    let am = line_amounts(inv.lines@);
    let line_net = sum_seq(am);
    let allow = sum_seq(ac_amounts(inv.allowances@));
    let charge = sum_seq(ac_amounts(inv.charges@));
    let net = lift_add(lift_sub(line_net, allow), charge);
    let gs = groups_of(vat_items(inv, am))->0;
    let taxes = group_taxes(gs);
    let vat = sum_seq(taxes);
    let gross = lift_add(net, vat);
    &&& Some(t.line_net_total@) == line_net
    &&& Some(t.allowances_total@) == allow
    &&& Some(t.charges_total@) == charge
    &&& Some(t.net_total@) == net
    &&& Some(t.vat_total@) == vat
    &&& t.vat_total_in_tax_currency is None
    &&& Some(t.gross_total@) == gross
    &&& t.prepaid@ == prepaid
    &&& Some(t.amount_due@) == lift_sub(gross, Some(prepaid))
    &&& t.vat_breakdown@.len() == gs.len()
    &&& forall|i: int|
        0 <= i < gs.len() ==> {
            let b = #[trigger] t.vat_breakdown@[i];
            &&& b.category == gs[i].0
            &&& b.rate@ == gs[i].1
            &&& b.taxable_amount@ == gs[i].2
            &&& b.tax_amount@ == taxes[i]
            &&& opt_str_view(b.exemption_reason) == exemption_reason_spec(
                gs[i].0,
                inv.vat_scenario,
            )
            &&& opt_str_view(b.exemption_reason_code) == exemption_code_spec(gs[i].0)
        }
}

/// Sum of decimals by `checked_add`, starting from zero.
pub fn sum_decs(v: &Vec<Dec>) -> (r: Option<Dec>)
    ensures
        opt_view(r) == sum_seq(dec_views(v@)),
{
    let mut acc = Dec::zero();
    let mut i: usize = 0;
    while i < v.len()
        invariant
            i <= v.len(),
            sum_seq(dec_views(v@.subrange(0, i as int))) == Some(acc@),
        decreases v.len() - i,
    {
        proof {
            assert(dec_views(v@.subrange(0, i + 1)).drop_last() =~= dec_views(
                v@.subrange(0, i as int),
            ));
        }
        match checked_add(acc, v[i]) {
            Some(a) => {
                acc = a;
            },
            None => {
                proof {
                    let pre = dec_views(v@.subrange(0, i + 1));
                    assert(pre.last() == v@[i as int]@);
                    assert(sum_seq(pre) is None);
                    assert(pre =~= dec_views(v@).subrange(0, i + 1));
                    lemma_sum_none_prefix(dec_views(v@), (i + 1) as int);
                }
                return None;
            },
        }
        i = i + 1;
    }
    proof {
        assert(v@.subrange(0, v.len() as int) =~= v@);
    }
    Some(acc)
}

/// Once a prefix sum overflows, the whole sum does.
pub proof fn lemma_sum_none_prefix(s: Seq<D>, k: int)
    requires
        0 <= k <= s.len(),
        sum_seq(s.subrange(0, k)) is None,
    ensures
        sum_seq(s) is None,
    decreases s.len() - k,
{
    if k < s.len() {
        assert(s.subrange(0, k + 1).drop_last() =~= s.subrange(0, k));
        lemma_sum_none_prefix(s, k + 1);
    } else {
        assert(s.subrange(0, k) =~= s);
    }
}

/// Sum of the amounts of allowances or charges.
pub fn sum_amounts(v: &Vec<AllowanceCharge>) -> (r: Option<Dec>)
    ensures
        opt_view(r) == sum_seq(ac_amounts(v@)),
{
    let mut ds: Vec<Dec> = Vec::new();
    let mut i: usize = 0;
    while i < v.len()
        invariant
            i <= v.len(),
            ds@.len() == i,
            dec_views(ds@) == ac_amounts(v@.subrange(0, i as int)),
        decreases v.len() - i,
    {
        let ghost old_ds = ds@;
        ds.push(v[i].amount);
        i = i + 1;
        proof {
            assert(ds@.last() == v@[i - 1].amount);
            assert forall|k: int| 0 <= k < i implies #[trigger] dec_views(ds@)[k] == ac_amounts(
                v@.subrange(0, i as int),
            )[k] by {
                if k < i - 1 {
                    assert(ds@[k] == old_ds[k]);
                    assert(dec_views(old_ds)[k] == ac_amounts(v@.subrange(0, i - 1))[k]);
                }
            }
            assert(dec_views(ds@) =~= ac_amounts(v@.subrange(0, i as int)));
        }
    }
    proof {
        assert(v@.subrange(0, v.len() as int) =~= v@);
    }
    sum_decs(&ds)
}

fn opt_add(a: Option<Dec>, b: Option<Dec>) -> (r: Option<Dec>)
    ensures
        opt_view(r) == lift_add(opt_view(a), opt_view(b)),
{
    match (a, b) {
        (Some(x), Some(y)) => checked_add(x, y),
        _ => None,
    }
}

fn opt_sub(a: Option<Dec>, b: Option<Dec>) -> (r: Option<Dec>)
    ensures
        opt_view(r) == lift_sub(opt_view(a), opt_view(b)),
{
    match (a, b) {
        (Some(x), Some(y)) => checked_sub(x, y),
        _ => None,
    }
}

/// The line net amount of `l`.
pub fn line_amount(l: &LineItem) -> (r: Option<Dec>)
    ensures
        opt_view(r) == line_amount_spec(*l),
{
    let base = checked_mul(l.quantity, l.unit_price);
    let allowances = sum_amounts(&l.allowances);
    let charges = sum_amounts(&l.charges);
    opt_add(opt_sub(base, allowances), charges)
}

/// The VAT of a taxable amount at a rate: `taxable × rate / 100`, rounded
/// half-up to cents, if it can be computed.
pub fn tax_for(category: TaxCategory, rate: &Dec, taxable: &Dec) -> (r: Option<Dec>)
    ensures
        opt_view(r) == group_tax((category, rate@, taxable@)),
{
    match checked_mul(*taxable, *rate) {
        Some(p) => match checked_div(p, Dec::new(100, 0)) {
            Some(q) => Some(round_half_up(q, 2)),
            None => None,
        },
        None => None,
    }
}

fn group_tax_exec(g: &Accum) -> (r: Option<Dec>)
    ensures
        opt_view(r) == group_tax(accum_view(*g)),
{
    tax_for(g.cat, &g.rate, &g.taxable)
}

#[derive(Clone, Copy)]
struct Accum {
    cat: TaxCategory,
    rate: Dec,
    taxable: Dec,
}

spec fn accum_view(a: Accum) -> VatGroup {
    (a.cat, a.rate@, a.taxable@)
}

spec fn accum_views(v: Seq<Accum>) -> Seq<VatGroup> {
    v.map_values(|a: Accum| accum_view(a))
}

pub open spec fn item_view(it: (TaxCategory, Dec, Dec, bool)) -> VatItem {
    (it.0, it.1@, it.2@, it.3)
}

pub open spec fn item_views(v: Seq<(TaxCategory, Dec, Dec, bool)>) -> Seq<VatItem> {
    v.map_values(|it: (TaxCategory, Dec, Dec, bool)| item_view(it))
}

fn cat_rank_exec(c: TaxCategory) -> (r: u8)
    ensures
        r as int == cat_rank(c),
{
    match c {
        TaxCategory::ReverseCharge => 0,
        TaxCategory::Exempt => 1,
        TaxCategory::Export => 2,
        TaxCategory::IntraCommunitySupply => 3,
        TaxCategory::NotSubjectToVat => 4,
        TaxCategory::StandardRate => 5,
        TaxCategory::ZeroRated => 6,
    }
}

fn key_eq_exec(c1: TaxCategory, r1: &Dec, c2: TaxCategory, r2: &Dec) -> (r: bool)
    ensures
        r == key_eq(c1, r1@, c2, r2@),
{
    reveal(key_eq);
    c1 == c2 && compare(r1, r2) == 0
}

fn key_lt_exec(c1: TaxCategory, r1: &Dec, c2: TaxCategory, r2: &Dec) -> (r: bool)
    ensures
        r == key_lt(c1, r1@, c2, r2@),
{
    reveal(key_lt);
    let a = cat_rank_exec(c1);
    let b = cat_rank_exec(c2);
    a < b || (a == b && compare(r1, r2) == -1)
}

fn find_group_exec(gs: &Vec<Accum>, c: TaxCategory, r: &Dec) -> (res: Option<usize>)
    ensures
        res matches Some(i) ==> find_group(accum_views(gs@), c, r@) == i,
        res is None ==> find_group(accum_views(gs@), c, r@) == -1,
{
    let ghost gv = accum_views(gs@);
    let mut i: usize = 0;
    while i < gs.len()
        invariant
            gv == accum_views(gs@),
            i <= gs.len(),
            forall|j: int| 0 <= j < i ==> !key_eq(#[trigger] gv[j].0, gv[j].1, c, r@),
        decreases gs.len() - i,
    {
        if key_eq_exec(gs[i].cat, &gs[i].rate, c, r) {
            proof {
                assert(is_first_match(gv, c, r@, i as int));
                let k = choose|k: int| is_first_match(gv, c, r@, k);
                if k < i {
                    assert(!key_eq(gv[k].0, gv[k].1, c, r@));
                }
                if k > i {
                    assert(!key_eq(gv[i as int].0, gv[i as int].1, c, r@));
                }
            }
            return Some(i);
        }
        i = i + 1;
    }
    proof {
        assert(!exists|k: int| is_first_match(gv, c, r@, k)) by {
            if exists|k: int| is_first_match(gv, c, r@, k) {
                let k = choose|k: int| is_first_match(gv, c, r@, k);
                assert(!key_eq(gv[k].0, gv[k].1, c, r@));
            }
        }
    }
    None
}

fn insert_pos_exec(gs: &Vec<Accum>, c: TaxCategory, r: &Dec) -> (p: usize)
    ensures
        p == insert_pos(accum_views(gs@), c, r@),
        p <= gs.len(),
{
    let ghost gv = accum_views(gs@);
    let mut i: usize = 0;
    while i < gs.len()
        invariant
            gv == accum_views(gs@),
            i <= gs.len(),
            forall|j: int| 0 <= j < i ==> !key_lt(c, r@, #[trigger] gv[j].0, gv[j].1),
        ensures
            i <= gs.len(),
            i < gs.len() ==> key_lt(c, r@, gv[i as int].0, gv[i as int].1),
            forall|j: int| 0 <= j < i ==> !key_lt(c, r@, #[trigger] gv[j].0, gv[j].1),
        decreases gs.len() - i,
    {
        if key_lt_exec(c, r, gs[i].cat, &gs[i].rate) {
            break;
        }
        i = i + 1;
    }
    proof {
        assert(is_insert_pos(gv, c, r@, i as int));
        let k = choose|k: int| is_insert_pos(gv, c, r@, k);
        if k < i {
            assert(!key_lt(c, r@, gv[k].0, gv[k].1));
        }
        if k > i {
            assert(!key_lt(c, r@, gv[i as int].0, gv[i as int].1));
        }
    }
    i
}

fn apply_exec(taxable: Dec, it: &(TaxCategory, Dec, Dec, bool)) -> (r: Option<Dec>)
    ensures
        opt_view(r) == apply_item(taxable@, item_view(*it)),
{
    if it.3 {
        checked_sub(taxable, it.2)
    } else {
        checked_add(taxable, it.2)
    }
}

fn add_item_exec(gs: &mut Vec<Accum>, it: &(TaxCategory, Dec, Dec, bool)) -> (ok: bool)
    ensures
        ok ==> add_item(accum_views(old(gs)@), item_view(*it)) == Some(accum_views(final(gs)@)),
        !ok ==> add_item(accum_views(old(gs)@), item_view(*it)) is None,
{
    let ghost gv = accum_views(gs@);
    match find_group_exec(gs, it.0, &it.1) {
        Some(i) => {
            let g = gs[i];
            match apply_exec(g.taxable, it) {
                Some(t) => {
                    gs.set(i, Accum { cat: g.cat, rate: g.rate, taxable: t });
                    proof {
                        assert(accum_views(gs@) =~= gv.update(i as int, (gv[i as int].0, gv[i as int].1, t@)));
                    }
                    true
                },
                None => false,
            }
        },
        None => {
            match apply_exec(Dec::zero(), it) {
                Some(t) => {
                    let p = insert_pos_exec(gs, it.0, &it.1);
                    gs.insert(p, Accum { cat: it.0, rate: it.1, taxable: t });
                    proof {
                        assert(accum_views(gs@) =~= gv.insert(p as int, (it.0, it.1@, t@)));
                    }
                    true
                },
                None => false,
            }
        },
    }
}

fn groups_exec(items: &Vec<(TaxCategory, Dec, Dec, bool)>) -> (r: Option<Vec<Accum>>)
    ensures
        r matches Some(g) ==> groups_of(item_views(items@)) == Some(accum_views(g@)),
        r is None ==> groups_of(item_views(items@)) is None,
{
    let mut gs: Vec<Accum> = Vec::new();
    let mut i: usize = 0;
    proof {
        assert(item_views(items@.subrange(0, 0)) =~= Seq::<VatItem>::empty());
        assert(accum_views(gs@) =~= Seq::<VatGroup>::empty());
    }
    while i < items.len()
        invariant
            i <= items.len(),
            groups_of(item_views(items@.subrange(0, i as int))) == Some(accum_views(gs@)),
        decreases items.len() - i,
    {
        proof {
            assert(item_views(items@.subrange(0, i + 1)).drop_last() =~= item_views(
                items@.subrange(0, i as int),
            ));
            assert(item_views(items@.subrange(0, i + 1)).last() == item_view(items@[i as int]));
        }
        let ok = add_item_exec(&mut gs, &items[i]);
        if !ok {
            proof {
                assert(groups_of(item_views(items@.subrange(0, i + 1))) is None);
                assert(item_views(items@.subrange(0, i + 1)) =~= item_views(items@).subrange(0, i + 1));
                lemma_groups_none_prefix(item_views(items@), (i + 1) as int);
            }
            return None;
        }
        i = i + 1;
    }
    proof {
        assert(items@.subrange(0, items.len() as int) =~= items@);
    }
    Some(gs)
}

/// Once the groups of a prefix overflow, the groups of the whole list do.
pub proof fn lemma_groups_none_prefix(s: Seq<VatItem>, k: int)
    requires
        0 <= k <= s.len(),
        groups_of(s.subrange(0, k)) is None,
    ensures
        groups_of(s) is None,
    decreases s.len() - k,
{
    if k < s.len() {
        assert(s.subrange(0, k + 1).drop_last() =~= s.subrange(0, k));
        lemma_groups_none_prefix(s, k + 1);
    } else {
        assert(s.subrange(0, k) =~= s);
    }
}

/// The BT-120 exemption reason for a category under a scenario.
pub fn exemption_reason_for(category: TaxCategory, scenario: VatScenario) -> (r: Option<String>)
    ensures
        opt_str_view(r) == exemption_reason_spec(category, scenario),
{
    match (category, scenario) {
        (TaxCategory::NotSubjectToVat, VatScenario::Kleinunternehmer) => Some(
            string_of("Kein Ausweis von Umsatzsteuer, da Kleinunternehmer gemäß §19 UStG"),
        ),
        (TaxCategory::ReverseCharge, _) => Some(
            string_of("Steuerschuldnerschaft des Leistungsempfängers gemäß §13b UStG"),
        ),
        (TaxCategory::IntraCommunitySupply, _) => Some(
            string_of("Steuerfreie innergemeinschaftliche Lieferung gemäß §4 Nr. 1b UStG"),
        ),
        (TaxCategory::Export, _) => Some(
            string_of("Steuerfreie Ausfuhrlieferung gemäß §4 Nr. 1a UStG"),
        ),
        (TaxCategory::Exempt, _) => Some(string_of("Umsatzsteuerbefreit")),
        _ => None,
    }
}

/// The BT-121 VATEX code for a category.
pub fn exemption_reason_code_for(category: TaxCategory) -> (r: Option<String>)
    ensures
        opt_str_view(r) == exemption_code_spec(category),
{
    match category {
        TaxCategory::NotSubjectToVat => Some(string_of("vatex-eu-o")),
        TaxCategory::ReverseCharge => Some(string_of("vatex-eu-ae")),
        TaxCategory::IntraCommunitySupply => Some(string_of("vatex-eu-ic")),
        TaxCategory::Export => Some(string_of("vatex-eu-g")),
        TaxCategory::Exempt => Some(string_of("vatex-eu-e")),
        _ => None,
    }
}

/// The contributions of an invoice, element by element.
pub proof fn lemma_vat_items(inv: Invoice, am: Seq<D>)
    ensures
        vat_items(inv, am).len() == inv.lines@.len() + inv.allowances@.len() + inv.charges@.len(),
        forall|k: int|
            0 <= k < inv.lines@.len() ==> #[trigger] vat_items(inv, am)[k] == (
                inv.lines@[k].tax_category,
                inv.lines@[k].tax_rate@,
                am[k],
                false,
            ),
        forall|k: int|
            0 <= k < inv.allowances@.len() ==> #[trigger] vat_items(inv, am)[inv.lines@.len() + k]
                == (inv.allowances@[k].tax_category, inv.allowances@[k].tax_rate@, inv.allowances@[k].amount@, true),
        forall|k: int|
            0 <= k < inv.charges@.len() ==> #[trigger] vat_items(inv, am)[inv.lines@.len()
                + inv.allowances@.len() + k] == (
                inv.charges@[k].tax_category,
                inv.charges@[k].tax_rate@,
                inv.charges@[k].amount@,
                false,
            ),
{
}

/// `l` with its line amount set to `a`.
pub open spec fn with_line_amount(l: LineItem, a: Option<Dec>) -> LineItem {
    LineItem { line_amount: a, ..l }
}

/// `new` are the lines `old` with each line amount set to its computed value.
pub open spec fn lines_with_amounts(old: Seq<LineItem>, new: Seq<LineItem>) -> bool {
    &&& new.len() == old.len()
    &&& forall|i: int|
        0 <= i < old.len() ==> {
            &&& (#[trigger] new[i]) == with_line_amount(old[i], new[i].line_amount)
            &&& new[i].line_amount matches Some(a) && Some(a@) == line_amount_spec(old[i])
        }
}

/// Computes the line amounts, the VAT breakdown and the document totals.
///
/// On success every line carries its net amount and `totals` holds the sums;
/// nothing else changes. Where an amount leaves the decimal range the invoice
/// is left as it was and an arithmetic error is returned.
pub fn calculate_totals(invoice: &mut Invoice, prepaid: Dec) -> (r: Result<(), RechnungError>)
    ensures
        r is Ok <==> totals_computable(*old(invoice), prepaid@),
        r is Err ==> *final(invoice) == *old(invoice) && r matches Err(RechnungError::Arithmetic(_)),
        r is Ok ==> {
            &&& lines_with_amounts(old(invoice).lines@, final(invoice).lines@)
            &&& final(invoice).totals matches Some(t) && totals_of(t, *old(invoice), prepaid@)
            &&& *final(invoice) == (Invoice {
                lines: final(invoice).lines,
                totals: final(invoice).totals,
                ..*old(invoice)
            })
            &&& arithmetic_errors(*final(invoice)) == Seq::<ErrorView>::empty()
        },
{
    let ghost inv0 = *invoice;
    let n = invoice.lines.len();
    // line amounts
    let mut amounts: Vec<Dec> = Vec::new();
    let mut i: usize = 0;
    while i < n
        invariant
            n == invoice.lines@.len(),
            *invoice == inv0,
            i <= n,
            amounts@.len() == i,
            forall|k: int| 0 <= k < i ==> Some(#[trigger] amounts@[k]@) == line_amount_spec(invoice.lines@[k]),
        decreases n - i,
    {
        match line_amount(&invoice.lines[i]) {
            Some(a) => {
                amounts.push(a);
            },
            None => {
                proof {
                    assert(line_amount_spec(inv0.lines@[i as int]) is None);
                    assert(!line_amounts_ok(inv0.lines@));
                }
                return Err(RechnungError::Arithmetic(string_of("amount out of decimal range")));
            },
        }
        i = i + 1;
    }
    let ghost am = line_amounts(inv0.lines@);
    proof {
        assert forall|k: int| 0 <= k < n implies (#[trigger] line_amount_spec(inv0.lines@[k])) is Some by {
            assert(Some(amounts@[k]@) == line_amount_spec(invoice.lines@[k]));
        }
        assert(line_amounts_ok(inv0.lines@));
        assert(dec_views(amounts@) =~= am);
        lemma_vat_items(inv0, am);
    }
    let line_net_total = sum_decs(&amounts);
    let allowances_total = sum_amounts(&invoice.allowances);
    let charges_total = sum_amounts(&invoice.charges);
    let net_total = opt_add(opt_sub(line_net_total, allowances_total), charges_total);
    // VAT contributions
    let mut items: Vec<(TaxCategory, Dec, Dec, bool)> = Vec::new();
    let ghost all_items = vat_items(inv0, am);
    let mut k: usize = 0;
    while k < n
        invariant
            n == invoice.lines@.len(),
            *invoice == inv0,
            amounts@.len() == n,
            dec_views(amounts@) == am,
            all_items == vat_items(inv0, am),
            k <= n,
            item_views(items@) =~= all_items.subrange(0, k as int),
        decreases n - k,
    {
        let ghost before = items@;
        items.push((invoice.lines[k].tax_category, invoice.lines[k].tax_rate, amounts[k], false));
        proof {
            assert(dec_views(amounts@)[k as int] == amounts@[k as int]@);
            assert(item_views(items@) =~= item_views(before).push(item_view(items@.last())));
            assert(all_items.subrange(0, k + 1) =~= all_items.subrange(0, k as int).push(all_items[k as int]));
        }
        k = k + 1;
    }
    let na = invoice.allowances.len();
    let mut k: usize = 0;
    while k < na
        invariant
            n == invoice.lines@.len(),
            na == invoice.allowances@.len(),
            *invoice == inv0,
            all_items == vat_items(inv0, am),
            k <= na,
            item_views(items@) =~= all_items.subrange(0, n + k),
        decreases na - k,
    {
        let a = &invoice.allowances[k];
        let ghost before = items@;
        items.push((a.tax_category, a.tax_rate, a.amount, true));
        proof {
            assert(item_views(items@) =~= item_views(before).push(item_view(items@.last())));
            assert(all_items.subrange(0, n + k + 1) =~= all_items.subrange(0, n + k).push(all_items[n + k]));
        }
        k = k + 1;
    }
    let nc = invoice.charges.len();
    let mut k: usize = 0;
    while k < nc
        invariant
            n == invoice.lines@.len(),
            na == invoice.allowances@.len(),
            nc == invoice.charges@.len(),
            *invoice == inv0,
            all_items == vat_items(inv0, am),
            k <= nc,
            item_views(items@) =~= all_items.subrange(0, n + na + k),
        decreases nc - k,
    {
        let a = &invoice.charges[k];
        let ghost before = items@;
        items.push((a.tax_category, a.tax_rate, a.amount, false));
        proof {
            assert(item_views(items@) =~= item_views(before).push(item_view(items@.last())));
            assert(all_items.subrange(0, n + na + k + 1) =~= all_items.subrange(0, n + na + k).push(
                all_items[n + na + k],
            ));
        }
        k = k + 1;
    }
    proof {
        assert(all_items.subrange(0, n + na + nc) =~= all_items);
    }
    let groups = match groups_exec(&items) {
        Some(g) => g,
        None => {
            return Err(RechnungError::Arithmetic(string_of("amount out of decimal range")));
        },
    };
    let ghost gs = accum_views(groups@);
    proof {
        assert(item_views(items@) == vat_items(inv0, am));
        assert(groups_of(vat_items(inv0, am)) == Some(gs));
    }
    // VAT per group
    let mut taxes: Vec<Dec> = Vec::new();
    let mut breakdown: Vec<VatBreakdown> = Vec::new();
    let ng = groups.len();
    let mut g: usize = 0;
    while g < ng
        invariant
            *invoice == inv0,
            am == line_amounts(inv0.lines@),
            groups_of(vat_items(inv0, am)) == Some(gs),
            ng == groups@.len(),
            gs == accum_views(groups@),
            g <= ng,
            taxes@.len() == g,
            breakdown@.len() == g,
            forall|j: int| 0 <= j < g ==> Some(#[trigger] taxes@[j]@) == group_tax(gs[j]),
            forall|j: int|
                0 <= j < g ==> {
                    let b = #[trigger] breakdown@[j];
                    &&& b.category == gs[j].0
                    &&& b.rate@ == gs[j].1
                    &&& b.taxable_amount@ == gs[j].2
                    &&& b.tax_amount == taxes@[j]
                    &&& opt_str_view(b.exemption_reason) == exemption_reason_spec(
                        gs[j].0,
                        inv0.vat_scenario,
                    )
                    &&& opt_str_view(b.exemption_reason_code) == exemption_code_spec(gs[j].0)
                },
        decreases ng - g,
    {
        let grp = groups[g];
        let tax = match group_tax_exec(&grp) {
            Some(t) => t,
            None => {
                proof {
                    assert(accum_view(grp) == gs[g as int]);
                    assert(!taxes_ok(gs));
                }
                return Err(RechnungError::Arithmetic(string_of("amount out of decimal range")));
            },
        };
        taxes.push(tax);
        breakdown.push(
            VatBreakdown {
                category: grp.cat,
                rate: grp.rate,
                taxable_amount: grp.taxable,
                tax_amount: tax,
                exemption_reason: exemption_reason_for(grp.cat, invoice.vat_scenario),
                exemption_reason_code: exemption_reason_code_for(grp.cat),
            },
        );
        g = g + 1;
    }
    proof {
        assert forall|j: int| 0 <= j < ng implies (#[trigger] group_tax(gs[j])) is Some by {
            assert(Some(taxes@[j]@) == group_tax(gs[j]));
        }
        assert(taxes_ok(gs));
        assert(dec_views(taxes@) =~= group_taxes(gs));
    }
    let vat_total = sum_decs(&taxes);
    let gross_total = opt_add(net_total, vat_total);
    let amount_due = opt_sub(gross_total, Some(prepaid));
    let (line_net_total, allowances_total, charges_total, net_total, vat_total, gross_total, amount_due) =
        match (line_net_total, allowances_total, charges_total, net_total, vat_total, gross_total, amount_due) {
        (Some(a), Some(b), Some(c), Some(d), Some(e), Some(f), Some(h)) => (a, b, c, d, e, f, h),
        _ => {
            return Err(RechnungError::Arithmetic(string_of("amount out of decimal range")));
        },
    };
    // set the line amounts
    let mut old_lines: Vec<LineItem> = Vec::new();
    std::mem::swap(&mut old_lines, &mut invoice.lines);
    let mut new_lines: Vec<LineItem> = Vec::new();
    let mut j: usize = 0;
    while j < n
        invariant
            n == inv0.lines@.len(),
            amounts@.len() == n,
            dec_views(amounts@) == am,
            am == line_amounts(inv0.lines@),
            line_amounts_ok(inv0.lines@),
            j <= n,
            old_lines@ =~= inv0.lines@.subrange(j as int, n as int),
            new_lines@.len() == j,
            forall|k: int|
                0 <= k < j ==> {
                    &&& (#[trigger] new_lines@[k]) == with_line_amount(inv0.lines@[k], Some(amounts@[k]))
                },
        decreases n - j,
    {
        let mut l = old_lines.remove(0);
        l.line_amount = Some(amounts[j]);
        new_lines.push(l);
        j = j + 1;
    }
    proof {
        assert forall|k: int| 0 <= k < n implies (#[trigger] new_lines@[k]).line_amount matches Some(a) && Some(a@)
            == line_amount_spec(inv0.lines@[k]) by {
            assert(dec_views(amounts@)[k] == amounts@[k]@);
            assert(line_amount_spec(inv0.lines@[k]) is Some);
        }
    }
    invoice.lines = new_lines;
    invoice.totals = Some(
        Totals {
            line_net_total,
            allowances_total,
            charges_total,
            net_total,
            vat_total,
            vat_total_in_tax_currency: None,
            gross_total,
            prepaid,
            amount_due,
            vat_breakdown: breakdown,
        },
    );
    proof {
        assert(totals_computable(inv0, prepaid@));
        lemma_calculated_totals_consistent(inv0, *invoice, prepaid@);
    }
    Ok(())
}

/// The tax amounts of a VAT breakdown.
pub open spec fn breakdown_taxes(bs: Seq<VatBreakdown>) -> Seq<D> {
    bs.map_values(|b: VatBreakdown| b.tax_amount@)
}

/// An expected amount as the messages show it.
pub open spec fn expected_text(e: Option<D>) -> Seq<char> {
    match e {
        Some(x) => display_spec(x),
        None => "(out of decimal range)"@,
    }
}

/// No error where `ok`, else one error with `field`, `message` and `rule`.
pub open spec fn check_result(ok: bool, field: Seq<char>, message: Seq<char>, rule: Seq<char>) -> Seq<
    ErrorView,
> {
    if ok {
        seq![]
    } else {
        seq![(field, message, Some(rule))]
    }
}

/// An actual amount agrees with an expected one that could be computed.
pub open spec fn agrees(actual: D, expected: Option<D>) -> bool {
    expected matches Some(e) && value_eq(actual, e)
}

/// The errors `validate_arithmetic` reports for totals `t` of lines `lines`.
pub open spec fn totals_errors(lines: Seq<LineItem>, t: Totals) -> Seq<ErrorView> {
    let e_line = sum_seq(present_line_amounts(lines));
    let e_net = lift_add(
        lift_sub(Some(t.line_net_total@), Some(t.allowances_total@)),
        Some(t.charges_total@),
    );
    let e_gross = lift_add(Some(t.net_total@), Some(t.vat_total@));
    let e_due = lift_sub(Some(t.gross_total@), Some(t.prepaid@));
    let e_vat = sum_seq(breakdown_taxes(t.vat_breakdown@));
    check_result(
        agrees(t.line_net_total@, e_line),
        "totals.line_net_total"@,
        "line net total "@ + display_spec(t.line_net_total@) + " does not match sum of line amounts "@
            + expected_text(e_line),
        "BR-CO-10"@,
    ) + check_result(
        agrees(t.net_total@, e_net),
        "totals.net_total"@,
        "net total "@ + display_spec(t.net_total@) + " does not match calculation "@ + expected_text(
            e_net,
        ),
        "BR-CO-11"@,
    ) + check_result(
        agrees(t.gross_total@, e_gross),
        "totals.gross_total"@,
        "gross total "@ + display_spec(t.gross_total@) + " does not match net "@ + display_spec(
            t.net_total@,
        ) + " + vat "@ + display_spec(t.vat_total@),
        "BR-CO-15"@,
    ) + check_result(
        agrees(t.amount_due@, e_due),
        "totals.amount_due"@,
        "amount due "@ + display_spec(t.amount_due@) + " does not match gross "@ + display_spec(
            t.gross_total@,
        ) + " - prepaid "@ + display_spec(t.prepaid@),
        "BR-CO-16"@,
    ) + check_result(
        agrees(t.vat_total@, e_vat),
        "totals.vat_total"@,
        "VAT total "@ + display_spec(t.vat_total@) + " does not match sum of breakdown amounts "@
            + expected_text(e_vat),
        "BR-CO-14"@,
    )
}

/// The errors `validate_arithmetic` reports for an invoice.
pub open spec fn arithmetic_errors(inv: Invoice) -> Seq<ErrorView> {
    match inv.totals {
        None => seq![
            (
                "totals"@,
                "totals must be calculated before validation (call calculate_totals first)"@,
                Some("BR-CO-10"@),
            ),
        ],
        Some(t) => totals_errors(inv.lines@, t),
    }
}

fn push_expected(s: &mut String, e: &Option<Dec>)
    ensures
        final(s)@ == old(s)@ + expected_text(opt_view(*e)),
{
    match e {
        Some(x) => push_display(s, x),
        None => push_str(s, "(out of decimal range)"),
    }
}

fn agrees_exec(actual: &Dec, expected: &Option<Dec>) -> (r: bool)
    ensures
        r == agrees(actual@, opt_view(*expected)),
{
    match expected {
        Some(e) => eq(actual, e),
        None => false,
    }
}

/// The amounts of the lines that carry one.
fn present_amounts(lines: &Vec<LineItem>) -> (r: Vec<Dec>)
    ensures
        dec_views(r@) == present_line_amounts(lines@),
{
    let mut ds: Vec<Dec> = Vec::new();
    let mut i: usize = 0;
    while i < lines.len()
        invariant
            i <= lines.len(),
            dec_views(ds@) == present_line_amounts(lines@.subrange(0, i as int)),
        decreases lines.len() - i,
    {
        let ghost before = ds@;
        proof {
            assert(lines@.subrange(0, i + 1).drop_last() =~= lines@.subrange(0, i as int));
        }
        match &lines[i].line_amount {
            Some(a) => {
                ds.push(*a);
                proof {
                    assert(dec_views(ds@) =~= dec_views(before).push(a@));
                }
            },
            None => {},
        }
        i = i + 1;
    }
    proof {
        assert(lines@.subrange(0, lines.len() as int) =~= lines@);
    }
    ds
}

/// Checks the document totals against the lines, the VAT breakdown and each
/// other (BR-CO-10, -11, -14, -15, -16). A sum that leaves the decimal range
/// counts as a mismatch.
pub fn validate_arithmetic(invoice: &Invoice) -> (r: Vec<ValidationError>)
    ensures
        errors_view(r@) == arithmetic_errors(*invoice),
{
    let mut errors: Vec<ValidationError> = Vec::new();
    let totals = match &invoice.totals {
        None => {
            errors.push(
                ValidationError::with_rule(
                    "totals",
                    "totals must be calculated before validation (call calculate_totals first)",
                    "BR-CO-10",
                ),
            );
            proof {
                assert(errors_view(errors@) =~= arithmetic_errors(*invoice));
            }
            return errors;
        },
        Some(t) => t,
    };
    let ghost t = *totals;
    let ghost expected = totals_errors(invoice.lines@, t);
    // BR-CO-10
    let e_line = sum_decs(&present_amounts(&invoice.lines));
    if !agrees_exec(&totals.line_net_total, &e_line) {
        let mut m = string_of("line net total ");
        push_display(&mut m, &totals.line_net_total);
        push_str(&mut m, " does not match sum of line amounts ");
        push_expected(&mut m, &e_line);
        errors.push(verror(string_of("totals.line_net_total"), m, "BR-CO-10"));
    }
    let ghost after1 = errors_view(errors@);
    // BR-CO-11
    let e_net = opt_add(
        opt_sub(Some(totals.line_net_total), Some(totals.allowances_total)),
        Some(totals.charges_total),
    );
    if !agrees_exec(&totals.net_total, &e_net) {
        let mut m = string_of("net total ");
        push_display(&mut m, &totals.net_total);
        push_str(&mut m, " does not match calculation ");
        push_expected(&mut m, &e_net);
        errors.push(verror(string_of("totals.net_total"), m, "BR-CO-11"));
    }
    let ghost after2 = errors_view(errors@);
    // BR-CO-15
    let e_gross = opt_add(Some(totals.net_total), Some(totals.vat_total));
    if !agrees_exec(&totals.gross_total, &e_gross) {
        let mut m = string_of("gross total ");
        push_display(&mut m, &totals.gross_total);
        push_str(&mut m, " does not match net ");
        push_display(&mut m, &totals.net_total);
        push_str(&mut m, " + vat ");
        push_display(&mut m, &totals.vat_total);
        errors.push(verror(string_of("totals.gross_total"), m, "BR-CO-15"));
    }
    let ghost after3 = errors_view(errors@);
    // BR-CO-16
    let e_due = opt_sub(Some(totals.gross_total), Some(totals.prepaid));
    if !agrees_exec(&totals.amount_due, &e_due) {
        let mut m = string_of("amount due ");
        push_display(&mut m, &totals.amount_due);
        push_str(&mut m, " does not match gross ");
        push_display(&mut m, &totals.gross_total);
        push_str(&mut m, " - prepaid ");
        push_display(&mut m, &totals.prepaid);
        errors.push(verror(string_of("totals.amount_due"), m, "BR-CO-16"));
    }
    let ghost after4 = errors_view(errors@);
    // BR-CO-14
    let mut taxes: Vec<Dec> = Vec::new();
    let mut i: usize = 0;
    while i < totals.vat_breakdown.len()
        invariant
            i <= totals.vat_breakdown@.len(),
            dec_views(taxes@) == breakdown_taxes(totals.vat_breakdown@.subrange(0, i as int)),
        decreases totals.vat_breakdown.len() - i,
    {
        let ghost before = taxes@;
        taxes.push(totals.vat_breakdown[i].tax_amount);
        i = i + 1;
        proof {
            assert(totals.vat_breakdown@.subrange(0, i as int) =~= totals.vat_breakdown@.subrange(
                0,
                i - 1,
            ).push(totals.vat_breakdown@[i - 1]));
            assert(dec_views(taxes@) =~= dec_views(before).push(taxes@.last()@));
            assert(dec_views(taxes@) =~= breakdown_taxes(totals.vat_breakdown@.subrange(0, i as int)));
        }
    }
    proof {
        assert(totals.vat_breakdown@.subrange(0, i as int) =~= totals.vat_breakdown@);
    }
    let e_vat = sum_decs(&taxes);
    if !agrees_exec(&totals.vat_total, &e_vat) {
        let mut m = string_of("VAT total ");
        push_display(&mut m, &totals.vat_total);
        push_str(&mut m, " does not match sum of breakdown amounts ");
        push_expected(&mut m, &e_vat);
        errors.push(verror(string_of("totals.vat_total"), m, "BR-CO-14"));
    }
    proof {
        assert(errors_view(errors@) =~= expected);
    }
    errors
}

/// Once every line carries its computed amount, the amounts that lines carry
/// are the computed ones.
pub proof fn lemma_present_amounts(old: Seq<LineItem>, new: Seq<LineItem>)
    requires
        lines_with_amounts(old, new),
    ensures
        present_line_amounts(new) == line_amounts(old),
    decreases old.len(),
{
    if old.len() > 0 {
        let (o, n) = (old.drop_last(), new.drop_last());
        assert forall|i: int| 0 <= i < o.len() implies {
            &&& (#[trigger] n[i]) == with_line_amount(o[i], n[i].line_amount)
            &&& n[i].line_amount matches Some(a) && Some(a@) == line_amount_spec(o[i])
        } by {
            assert(n[i] == new[i]);
            assert(o[i] == old[i]);
        }
        lemma_present_amounts(o, n);
        let last = (old.len() - 1) as int;
        assert(new[last].line_amount matches Some(a) && Some(a@) == line_amount_spec(old[last]));
        assert(line_amounts(old) =~= line_amounts(o).push(line_amount_spec(old.last())->0));
    } else {
        assert(line_amounts(old) =~= Seq::<D>::empty());
    }
}

/// Totals computed by `calculate_totals` pass every arithmetic check:
/// `validate_arithmetic` reports nothing for the invoice it leaves.
pub proof fn lemma_calculated_totals_consistent(before: Invoice, after: Invoice, prepaid: D)
    requires
        totals_computable(before, prepaid),
        lines_with_amounts(before.lines@, after.lines@),
        after.totals matches Some(t) && totals_of(t, before, prepaid),
    ensures
        arithmetic_errors(after) == Seq::<ErrorView>::empty(),
{
    let t = after.totals->0;
    lemma_present_amounts(before.lines@, after.lines@);
    let am = line_amounts(before.lines@);
    let gs = groups_of(vat_items(before, am))->0;
    assert(breakdown_taxes(t.vat_breakdown@) =~= group_taxes(gs));
    lemma_value_eq_refl(t.line_net_total@);
    lemma_value_eq_refl(t.net_total@);
    lemma_value_eq_refl(t.gross_total@);
    lemma_value_eq_refl(t.amount_due@);
    lemma_value_eq_refl(t.vat_total@);
    assert(totals_errors(after.lines@, t) =~= Seq::<ErrorView>::empty());
}


// ---------------------------------------------------------------- the order of the VAT groups

/// The groups are strictly ascending by key (category code, then rate).
pub open spec fn groups_sorted(gs: Seq<VatGroup>) -> bool {
    forall|i: int, j: int|
        0 <= i < j < gs.len() ==> key_lt(#[trigger] gs[i].0, gs[i].1, #[trigger] gs[j].0, gs[j].1)
}

/// Every contribution's key has its group.
#[verifier::opaque]
pub open spec fn groups_cover(gs: Seq<VatGroup>, items: Seq<VatItem>) -> bool {
    forall|k: int|
        0 <= k < items.len() ==> exists|i: int|
            0 <= i < gs.len() && key_eq(#[trigger] gs[i].0, gs[i].1, (#[trigger] items[k]).0, items[k].1)
}

/// Every group is the key of some contribution.
#[verifier::opaque]
pub open spec fn groups_from(gs: Seq<VatGroup>, items: Seq<VatItem>) -> bool {
    forall|i: int|
        0 <= i < gs.len() ==> exists|k: int|
            0 <= k < items.len() && key_eq(#[trigger] gs[i].0, gs[i].1, (#[trigger] items[k]).0, items[k].1)
}

proof fn lemma_value_lt_trans(a: D, b: D, c: D)
    requires
        value_lt(a, b),
        value_lt(b, c),
    ensures
        value_lt(a, c),
{
    let pa = pow10(a.1 as nat);
    let pb = pow10(b.1 as nat);
    let pc = pow10(c.1 as nat);
    lemma_pow10_pos(a.1 as nat);
    lemma_pow10_pos(b.1 as nat);
    lemma_pow10_pos(c.1 as nat);
    let (x, y, z) = (a.0 as int, b.0 as int, c.0 as int);
    assert(x * pb * pc < z * pb * pa) by (nonlinear_arith)
        requires
            x * pb < y * pa,
            y * pc < z * pb,
            pa >= 1,
            pc >= 1,
    {
        assert(x * pb * pc < y * pa * pc);
        assert(y * pc * pa < z * pb * pa);
    }
    assert(x * pc < z * pa) by (nonlinear_arith)
        requires
            x * pb * pc < z * pb * pa,
            pb >= 1,
    ;
}

proof fn lemma_key_facts(c1: TaxCategory, r1: D, c2: TaxCategory, r2: D)
    ensures
        key_lt(c1, r1, c2, r2) ==> !key_eq(c1, r1, c2, r2) && !key_lt(c2, r2, c1, r1),
        !key_eq(c1, r1, c2, r2) && !key_lt(c1, r1, c2, r2) ==> key_lt(c2, r2, c1, r1),
        key_eq(c1, r1, c2, r2) ==> key_eq(c2, r2, c1, r1),
        key_eq(c1, r1, c1, r1),
{
    reveal(key_eq);
    reveal(key_lt);
    if value_eq(r1, r2) {
        lemma_value_eq_trans(r1, r2, r2);
    }
}

proof fn lemma_key_lt_trans(c1: TaxCategory, r1: D, c2: TaxCategory, r2: D, c3: TaxCategory, r3: D)
    requires
        key_lt(c1, r1, c2, r2),
        key_lt(c2, r2, c3, r3),
    ensures
        key_lt(c1, r1, c3, r3),
{
    reveal(key_lt);
    if cat_rank(c1) == cat_rank(c2) && cat_rank(c2) == cat_rank(c3) {
        lemma_value_lt_trans(r1, r2, r3);
    }
}

proof fn lemma_first_match_exists(gs: Seq<VatGroup>, c: TaxCategory, r: D, j: int)
    requires
        0 <= j < gs.len(),
        key_eq(gs[j].0, gs[j].1, c, r),
    ensures
        exists|i: int| is_first_match(gs, c, r, i),
    decreases j,
{
    if exists|k: int| 0 <= k < j && key_eq(#[trigger] gs[k].0, gs[k].1, c, r) {
        let k = choose|k: int| 0 <= k < j && key_eq(#[trigger] gs[k].0, gs[k].1, c, r);
        lemma_first_match_exists(gs, c, r, k);
    } else {
        assert(is_first_match(gs, c, r, j));
    }
}

proof fn lemma_insert_pos_exists(gs: Seq<VatGroup>, c: TaxCategory, r: D, p: int)
    requires
        0 <= p <= gs.len(),
        forall|j: int| 0 <= j < p ==> !key_lt(c, r, #[trigger] gs[j].0, gs[j].1),
    ensures
        exists|q: int| is_insert_pos(gs, c, r, q),
    decreases gs.len() - p,
{
    if p == gs.len() || key_lt(c, r, gs[p].0, gs[p].1) {
        assert(is_insert_pos(gs, c, r, p));
    } else {
        lemma_insert_pos_exists(gs, c, r, p + 1);
    }
}

proof fn lemma_cover_at(gs: Seq<VatGroup>, items: Seq<VatItem>, k: int) -> (g: int)
    requires
        groups_cover(gs, items),
        0 <= k < items.len(),
    ensures
        0 <= g < gs.len(),
        key_eq(gs[g].0, gs[g].1, items[k].0, items[k].1),
{
    reveal(groups_cover);
    choose|g: int| 0 <= g < gs.len() && key_eq(#[trigger] gs[g].0, gs[g].1, items[k].0, items[k].1)
}

proof fn lemma_from_at(gs: Seq<VatGroup>, items: Seq<VatItem>, g: int) -> (k: int)
    requires
        groups_from(gs, items),
        0 <= g < gs.len(),
    ensures
        0 <= k < items.len(),
        key_eq(gs[g].0, gs[g].1, items[k].0, items[k].1),
{
    reveal(groups_from);
    choose|k: int| 0 <= k < items.len() && key_eq(gs[g].0, gs[g].1, (#[trigger] items[k]).0, items[k].1)
}

/// Adding to an existing group changes no key.
#[verifier::rlimit(50)]
proof fn lemma_update_keeps(gs: Seq<VatGroup>, items: Seq<VatItem>, it: VatItem, i: int, t: D)
    requires
        groups_sorted(gs),
        groups_cover(gs, items),
        groups_from(gs, items),
        0 <= i < gs.len(),
        key_eq(gs[i].0, gs[i].1, it.0, it.1),
    ensures
        groups_sorted(gs.update(i, (gs[i].0, gs[i].1, t))),
        groups_cover(gs.update(i, (gs[i].0, gs[i].1, t)), items.push(it)),
        groups_from(gs.update(i, (gs[i].0, gs[i].1, t)), items.push(it)),
{
    let n = gs.update(i, (gs[i].0, gs[i].1, t));
    let items2 = items.push(it);
    assert(items2[items.len() as int] == it);
    assert forall|j: int| 0 <= j < n.len() implies (#[trigger] n[j]).0 == gs[j].0 && n[j].1 == gs[j].1 by {
        if j != i {
            assert(n[j] == gs[j]);
        }
    }
    assert forall|a: int, b: int| 0 <= a < b < n.len() implies key_lt(
        #[trigger] n[a].0,
        n[a].1,
        #[trigger] n[b].0,
        n[b].1,
    ) by {
        assert(n[a].0 == gs[a].0 && n[a].1 == gs[a].1);
        assert(n[b].0 == gs[b].0 && n[b].1 == gs[b].1);
        assert(key_lt(gs[a].0, gs[a].1, gs[b].0, gs[b].1));
    }
    assert(groups_cover(n, items2)) by {
        reveal(groups_cover);
        assert forall|k: int| 0 <= k < items2.len() implies exists|g: int|
            0 <= g < n.len() && key_eq(#[trigger] n[g].0, n[g].1, (#[trigger] items2[k]).0, items2[k].1) by {
            if k < items.len() {
                assert(items2[k] == items[k]);
                let g = lemma_cover_at(gs, items, k);
                assert(n[g].0 == gs[g].0 && n[g].1 == gs[g].1);
                assert(key_eq(n[g].0, n[g].1, items2[k].0, items2[k].1));
            } else {
                assert(n[i].0 == gs[i].0 && n[i].1 == gs[i].1);
                assert(key_eq(n[i].0, n[i].1, items2[k].0, items2[k].1));
            }
        }
    }
    assert(groups_from(n, items2)) by {
        reveal(groups_from);
        assert forall|g: int| 0 <= g < n.len() implies exists|k: int|
            0 <= k < items2.len() && key_eq(#[trigger] n[g].0, n[g].1, (#[trigger] items2[k]).0, items2[k].1) by {
            let k = lemma_from_at(gs, items, g);
            assert(items2[k] == items[k]);
            assert(n[g].0 == gs[g].0 && n[g].1 == gs[g].1);
            assert(key_eq(n[g].0, n[g].1, items2[k].0, items2[k].1));
        }
    }
}

#[verifier::rlimit(30)]
proof fn lemma_insert_sorted(gs: Seq<VatGroup>, p: int, g0: VatGroup)
    requires
        groups_sorted(gs),
        0 <= p <= gs.len(),
        forall|j: int| 0 <= j < p ==> key_lt(#[trigger] gs[j].0, gs[j].1, g0.0, g0.1),
        forall|j: int| p <= j < gs.len() ==> key_lt(g0.0, g0.1, #[trigger] gs[j].0, gs[j].1),
    ensures
        groups_sorted(gs.insert(p, g0)),
{
    let n = gs.insert(p, g0);
    gs.insert_ensures(p, g0);
    assert forall|a: int, b: int| 0 <= a < b < n.len() implies key_lt(
        #[trigger] n[a].0,
        n[a].1,
        #[trigger] n[b].0,
        n[b].1,
    ) by {
        if b < p {
            assert(key_lt(gs[a].0, gs[a].1, gs[b].0, gs[b].1));
        } else if b == p {
            assert(n[a] == gs[a]);
        } else if a < p {
            assert(n[b] == gs[b - 1]);
            assert(n[a] == gs[a]);
            lemma_key_lt_trans(gs[a].0, gs[a].1, g0.0, g0.1, gs[b - 1].0, gs[b - 1].1);
        } else if a == p {
            assert(n[b] == gs[b - 1]);
        } else {
            assert(n[b] == gs[b - 1]);
            assert(n[a] == gs[a - 1]);
            assert(key_lt(gs[a - 1].0, gs[a - 1].1, gs[b - 1].0, gs[b - 1].1));
        }
    }
}

#[verifier::rlimit(30)]
proof fn lemma_insert_cover(gs: Seq<VatGroup>, items: Seq<VatItem>, it: VatItem, p: int, g0: VatGroup)
    requires
        groups_cover(gs, items),
        groups_from(gs, items),
        0 <= p <= gs.len(),
        g0.0 == it.0 && g0.1 == it.1,
    ensures
        groups_cover(gs.insert(p, g0), items.push(it)),
        groups_from(gs.insert(p, g0), items.push(it)),
{
    let n = gs.insert(p, g0);
    let items2 = items.push(it);
    gs.insert_ensures(p, g0);
    lemma_key_facts(it.0, it.1, it.0, it.1);
    assert(items2[items.len() as int] == it);
    assert(groups_cover(n, items2)) by {
        reveal(groups_cover);
        assert forall|k: int| 0 <= k < items2.len() implies exists|g: int|
            0 <= g < n.len() && key_eq(#[trigger] n[g].0, n[g].1, (#[trigger] items2[k]).0, items2[k].1) by {
            if k < items.len() {
                assert(items2[k] == items[k]);
                let g = choose|g: int|
                    0 <= g < gs.len() && key_eq(#[trigger] gs[g].0, gs[g].1, items[k].0, items[k].1);
                if g < p {
                    assert(n[g] == gs[g]);
                } else {
                    assert(n[g + 1] == gs[g]);
                }
            } else {
                assert(n[p] == g0);
            }
        }
    }
    assert(groups_from(n, items2)) by {
        reveal(groups_from);
        assert forall|g: int| 0 <= g < n.len() implies exists|k: int|
            0 <= k < items2.len() && key_eq(#[trigger] n[g].0, n[g].1, (#[trigger] items2[k]).0, items2[k].1) by {
            if g == p {
                assert(n[p] == g0);
                assert(key_eq(n[g].0, n[g].1, items2[items.len() as int].0, items2[items.len() as int].1));
            } else {
                let og = if g < p {
                    g
                } else {
                    g - 1
                };
                assert(n[g] == gs[og]);
                let k = choose|k: int|
                    0 <= k < items.len() && key_eq(#[trigger] gs[og].0, gs[og].1, (#[trigger] items[k]).0, items[k].1);
                assert(items2[k] == items[k]);
            }
        }
    }
}

#[verifier::rlimit(50)]
proof fn lemma_add_item_ordered(gs: Seq<VatGroup>, items: Seq<VatItem>, it: VatItem)
    requires
        groups_sorted(gs),
        groups_cover(gs, items),
        groups_from(gs, items),
        add_item(gs, it) is Some,
    ensures
        groups_sorted(add_item(gs, it)->0),
        groups_cover(add_item(gs, it)->0, items.push(it)),
        groups_from(add_item(gs, it)->0, items.push(it)),
{
    let n = add_item(gs, it)->0;
    let i = find_group(gs, it.0, it.1);
    if i >= 0 {
        assert(is_first_match(gs, it.0, it.1, i));
        let t = apply_item(gs[i].2, it)->0;
        assert(n == gs.update(i, (gs[i].0, gs[i].1, t)));
        lemma_update_keeps(gs, items, it, i, t);
    } else {
        assert forall|j: int| 0 <= j < gs.len() implies !key_eq(#[trigger] gs[j].0, gs[j].1, it.0, it.1) by {
            if key_eq(gs[j].0, gs[j].1, it.0, it.1) {
                lemma_first_match_exists(gs, it.0, it.1, j);
            }
        }
        lemma_insert_pos_exists(gs, it.0, it.1, 0);
        let p = insert_pos(gs, it.0, it.1);
        assert(is_insert_pos(gs, it.0, it.1, p));
        let t = apply_item((0i128, 0u32), it)->0;
        let g0: VatGroup = (it.0, it.1, t);
        assert(n == gs.insert(p, g0));
        assert forall|j: int| 0 <= j < p implies key_lt(#[trigger] gs[j].0, gs[j].1, g0.0, g0.1) by {
            lemma_key_facts(it.0, it.1, gs[j].0, gs[j].1);
            lemma_key_facts(gs[j].0, gs[j].1, it.0, it.1);
        }
        assert forall|j: int| p <= j < gs.len() implies key_lt(g0.0, g0.1, #[trigger] gs[j].0, gs[j].1) by {
            if j > p {
                assert(key_lt(gs[p].0, gs[p].1, gs[j].0, gs[j].1));
                lemma_key_lt_trans(it.0, it.1, gs[p].0, gs[p].1, gs[j].0, gs[j].1);
            }
        }
        lemma_insert_sorted(gs, p, g0);
        lemma_insert_cover(gs, items, it, p, g0);
    }
}

/// The VAT breakdown's groups, whenever they can be computed: strictly
/// ascending by (category code, rate), so one per key; every contribution
/// (line, document allowance, document charge) falls into the group of its
/// key, and every group is the key of some contribution.
pub proof fn lemma_groups_ordered(items: Seq<VatItem>)
    requires
        groups_of(items) is Some,
    ensures
        groups_sorted(groups_of(items)->0),
        groups_cover(groups_of(items)->0, items),
        groups_from(groups_of(items)->0, items),
    decreases items.len(),
{
    if items.len() > 0 {
        let rest = items.drop_last();
        lemma_groups_ordered(rest);
        lemma_add_item_ordered(groups_of(rest)->0, rest, items.last());
        assert(rest.push(items.last()) =~= items);
    } else {
        reveal(groups_cover);
        reveal(groups_from);
    }
}

/// A VAT breakdown as groups `(category, rate, taxable amount)`.
pub open spec fn breakdown_groups(bs: Seq<VatBreakdown>) -> Seq<VatGroup> {
    bs.map_values(|b: VatBreakdown| (b.category, b.rate@, b.taxable_amount@))
}

/// The VAT breakdown of computed totals is strictly ascending by (category
/// code, rate), so it holds one entry per key; each line, document allowance
/// and document charge has the entry of its key, and each entry is the key
/// of one of them.
pub proof fn lemma_breakdown_ordered(t: Totals, inv: Invoice, prepaid: D)
    requires
        totals_computable(inv, prepaid),
        totals_of(t, inv, prepaid),
    ensures
        groups_sorted(breakdown_groups(t.vat_breakdown@)),
        groups_cover(breakdown_groups(t.vat_breakdown@), vat_items(inv, line_amounts(inv.lines@))),
        groups_from(breakdown_groups(t.vat_breakdown@), vat_items(inv, line_amounts(inv.lines@))),
{
    let items = vat_items(inv, line_amounts(inv.lines@));
    lemma_groups_ordered(items);
    assert(breakdown_groups(t.vat_breakdown@) =~= groups_of(items)->0);
}

} // verus!
