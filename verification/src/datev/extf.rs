//! DATEV EXTF Buchungsstapel CSV generation.
use vstd::prelude::*;
use crate::date::{
    date_before, dm_compact, dmy_compact, format_dm, format_dmy, format_ymd, ymd_compact, Date,
};
use crate::decimal::{
    abs_spec, checked_add, decimal_checked_add, display_prec_spec, round_dp, round_dp_spec,
    to_fixed_string, Dec,
};
use crate::datev::accounts::{chart_code_spec, revenue_account, revenue_spec, ChartOfAccounts};
use crate::datev::bu_key::{bu_schluessel, bu_spec};
use crate::model::error::RechnungError;
use crate::model::totals::opt_str_view;
use crate::model::types::{Invoice, InvoiceTypeCode, TaxCategory, VatBreakdown};
use crate::text::{
    chars_of, nat_str, push_char, push_str, string_from_chars, string_of, u64_to_string,
};

verus! {

/// Configuration for DATEV EXTF export.
#[derive(Debug, Clone)]
pub struct DatevConfig {
    /// DATEV consultant number (Beraternummer), min 1001.
    pub consultant_number: u32,
    /// DATEV client number (Mandantennummer).
    pub client_number: u32,
    /// Start of fiscal year (Wirtschaftsjahr-Beginn).
    pub fiscal_year_start: Date,
    /// G/L account length (Sachkontenlänge), typically 4.
    pub account_length: u8,
    /// Chart of accounts (SKR03 or SKR04).
    pub chart: ChartOfAccounts,
    /// Default debitor account number for customers without a specific one.
    pub default_debitor: u32,
    /// Source identifier for the header (Herkunft), max 2 chars.
    pub source: String,
    /// Name of the exporting system (Exportiert von), max 25 chars.
    pub exported_by: String,
    /// Batch description (Bezeichnung), max 30 chars.
    pub description: String,
    /// Lock postings on import (Festschreibung).
    pub lock_postings: bool,
}

/// The defaults: consultant 1001, client 1, fiscal year from 2024-01-01,
/// account length 4, SKR03, debitor 10000, source `RE`, no exporter name,
/// description `Buchungsstapel`, postings not locked.
pub open spec fn is_default_config(c: DatevConfig) -> bool {
    &&& c.consultant_number == 1001
    &&& c.client_number == 1
    &&& c.fiscal_year_start@ == (2024i32, 1u32, 1u32)
    &&& c.account_length == 4
    &&& c.chart == ChartOfAccounts::SKR03
    &&& c.default_debitor == 10000
    &&& c.source@ == "RE"@
    &&& c.exported_by@ == Seq::<char>::empty()
    &&& c.description@ == "Buchungsstapel"@
    &&& !c.lock_postings
}

impl Default for DatevConfig {
    fn default() -> (r: DatevConfig)
        ensures
            is_default_config(r),
    {
        let start = match Date::from_ymd_opt(2024, 1, 1) {
            Some(d) => d,
            None => {
                proof {
                    assert(false);
                }
                Date::from_ymd_opt(2024, 1, 1).unwrap()
            },
        };
        DatevConfig {
            consultant_number: 1001,
            client_number: 1,
            fiscal_year_start: start,
            account_length: 4,
            chart: ChartOfAccounts::SKR03,
            default_debitor: 10000,
            source: string_of("RE"),
            exported_by: String::new(),
            description: string_of("Buchungsstapel"),
            lock_postings: false,
        }
    }
}

/// Builder for `DatevConfig`.
pub struct DatevConfigBuilder {
    config: DatevConfig,
}

impl View for DatevConfigBuilder {
    type V = DatevConfig;

    closed spec fn view(&self) -> DatevConfig {
        self.config
    }
}

impl DatevConfigBuilder {
    /// Create a new builder with required consultant and client numbers; the
    /// rest are the defaults.
    pub fn new(consultant_number: u32, client_number: u32) -> (r: DatevConfigBuilder)
        ensures
            is_default_config(
                DatevConfig { consultant_number: 1001, client_number: 1, ..r@ },
            ),
            r@.consultant_number == consultant_number,
            r@.client_number == client_number,
    {
        DatevConfigBuilder {
            config: DatevConfig { consultant_number, client_number, ..DatevConfig::default() },
        }
    }

    /// Set the fiscal year start date.
    pub fn fiscal_year_start(self, date: Date) -> (r: DatevConfigBuilder)
        ensures
            r@ == (DatevConfig { fiscal_year_start: date, ..self@ }),
    {
        DatevConfigBuilder { config: DatevConfig { fiscal_year_start: date, ..self.config } }
    }

    /// Set the G/L account length (typically 4).
    pub fn account_length(self, len: u8) -> (r: DatevConfigBuilder)
        ensures
            r@ == (DatevConfig { account_length: len, ..self@ }),
    {
        DatevConfigBuilder { config: DatevConfig { account_length: len, ..self.config } }
    }

    /// Set the chart of accounts.
    pub fn chart(self, chart: ChartOfAccounts) -> (r: DatevConfigBuilder)
        ensures
            r@ == (DatevConfig { chart, ..self@ }),
    {
        DatevConfigBuilder { config: DatevConfig { chart, ..self.config } }
    }

    /// Set the default debitor account.
    pub fn default_debitor(self, account: u32) -> (r: DatevConfigBuilder)
        ensures
            r@ == (DatevConfig { default_debitor: account, ..self@ }),
    {
        DatevConfigBuilder { config: DatevConfig { default_debitor: account, ..self.config } }
    }

    /// Set the source identifier (max 2 chars).
    pub fn source(self, source: &str) -> (r: DatevConfigBuilder)
        ensures
            r@ == (DatevConfig { source: r@.source, ..self@ }),
            r@.source@ == source@,
    {
        DatevConfigBuilder { config: DatevConfig { source: string_of(source), ..self.config } }
    }

    /// Set the "exported by" label (max 25 chars).
    pub fn exported_by(self, name: &str) -> (r: DatevConfigBuilder)
        ensures
            r@ == (DatevConfig { exported_by: r@.exported_by, ..self@ }),
            r@.exported_by@ == name@,
    {
        DatevConfigBuilder { config: DatevConfig { exported_by: string_of(name), ..self.config } }
    }

    /// Set the batch description (max 30 chars).
    pub fn description(self, desc: &str) -> (r: DatevConfigBuilder)
        ensures
            r@ == (DatevConfig { description: r@.description, ..self@ }),
            r@.description@ == desc@,
    {
        DatevConfigBuilder { config: DatevConfig { description: string_of(desc), ..self.config } }
    }

    /// Enable posting lock on import.
    pub fn lock_postings(self, lock: bool) -> (r: DatevConfigBuilder)
        ensures
            r@ == (DatevConfig { lock_postings: lock, ..self@ }),
    {
        DatevConfigBuilder { config: DatevConfig { lock_postings: lock, ..self.config } }
    }

    /// Build the configuration.
    pub fn build(self) -> (r: DatevConfig)
        ensures
            r == self@,
    {
        self.config
    }
}

/// A single DATEV Buchungsstapel row (intermediate representation).
#[derive(Debug, Clone)]
pub struct DatevRow {
    /// Gross amount (always positive).
    pub amount: Dec,
    /// S = Soll (debit), H = Haben (credit).
    pub debit_credit: DebitCredit,
    /// Account number (Konto).
    pub account: u32,
    /// Contra account (Gegenkonto).
    pub contra_account: u32,
    /// BU-Schlüssel (tax key), empty if Automatikkonto.
    pub bu_key: Option<u8>,
    /// Document date.
    pub date: Date,
    /// Document number (Belegfeld 1).
    pub document_number: String,
    /// Posting text (Buchungstext), max 60 chars.
    pub posting_text: String,
    /// Service date (Leistungsdatum).
    pub service_date: Option<Date>,
    /// Due date (Fälligkeit).
    pub due_date: Option<Date>,
    /// EU country + VAT ID (for EU transactions).
    pub eu_vat_id: Option<String>,
    /// Generalumkehr flag (for storno bookings).
    pub general_reversal: bool,
}

/// Debit/Credit indicator.
#[derive(Debug, Clone, Copy, PartialEq, Eq, Structural)]
pub enum DebitCredit {
    /// Soll (debit).
    Soll,
    /// Haben (credit).
    Haben,
}

pub open spec fn debit_credit_code(d: DebitCredit) -> Seq<char> {
    match d {
        DebitCredit::Soll => "S"@,
        DebitCredit::Haben => "H"@,
    }
}

impl DebitCredit {
    /// `S` for Soll, `H` for Haben.
    pub fn code(&self) -> (r: &'static str)
        ensures
            r@ == debit_credit_code(*self),
    {
        match self {
            DebitCredit::Soll => "S",
            DebitCredit::Haben => "H",
        }
    }
}

// ---------------------------------------------------------------- text pieces

/// `s` with every `.` replaced by `,`.
pub open spec fn comma_decimal(s: Seq<char>) -> Seq<char> {
    s.map_values(|c: char| if c == '.' { ',' } else { c })
}

/// A German amount: rounded to cents, two decimals, decimal comma.
pub open spec fn amount_text(d: (i128, u32)) -> Seq<char> {
    comma_decimal(display_prec_spec(round_dp_spec(d, 2), 2))
}

/// Format a decimal as a German number: comma separator, 2 decimal places.
pub fn format_amount(d: Dec) -> (r: String)
    ensures
        r@ == amount_text(d@),
{
    let s = to_fixed_string(&round_dp(d, 2), 2);
    let v = chars_of(s.as_str());
    let mut out: Vec<char> = Vec::new();
    let mut i: usize = 0;
    while i < v.len()
        invariant
            i <= v.len(),
            out@ == comma_decimal(v@.subrange(0, i as int)),
        decreases v.len() - i,
    {
        if v[i] == '.' {
            out.push(',');
        } else {
            out.push(v[i]);
        }
        i = i + 1;
        proof {
            assert(out@ =~= comma_decimal(v@.subrange(0, i as int)));
        }
    }
    proof {
        assert(v@.subrange(0, v.len() as int) =~= v@);
    }
    string_from_chars(&out)
}

/// The first `max` characters of `s` (all of `s` if it is shorter).
pub open spec fn truncated(s: Seq<char>, max: nat) -> Seq<char> {
    if s.len() <= max {
        s
    } else {
        s.take(max as int)
    }
}

/// The first `max` characters of `s`, as a new string.
pub fn truncate(s: &str, max: usize) -> (r: String)
    ensures
        r@ == truncated(s@, max as nat),
{
    let v = chars_of(s);
    if v.len() <= max {
        return string_of(s);
    }
    let mut r = String::new();
    let mut i: usize = 0;
    while i < max
        invariant
            v@ == s@,
            max < v@.len(),
            i <= max,
            r@ == s@.take(i as int),
        decreases max - i,
    {
        push_char(&mut r, v[i]);
        i = i + 1;
        proof {
            assert(r@ =~= s@.take(i as int));
        }
    }
    r
}

// ---------------------------------------------------------------- rows

pub open spec fn quoted(s: Seq<char>) -> Seq<char> {
    seq!['"'] + s + seq!['"']
}

/// `n` semicolons.
pub open spec fn semis(n: nat) -> Seq<char> {
    Seq::new(n, |i: int| ';')
}

pub open spec fn opt_dmy(d: Option<Date>) -> Seq<char> {
    match d {
        Some(x) => dmy_compact(x@),
        None => seq![],
    }
}

/// The CSV line of a Buchungsstapel row.
#[verifier::opaque]
pub open spec fn row_text(
    amount: (i128, u32),
    dc: DebitCredit,
    account: u32,
    contra: u32,
    bu: Option<u8>,
    date: (i32, u32, u32),
    doc: Seq<char>,
    text: Seq<char>,
    service: Option<Date>,
    due: Option<Date>,
    eu: Option<Seq<char>>,
    reversal: bool,
) -> Seq<char> {
    amount_text(amount) + ";"@ + quoted(debit_credit_code(dc)) + ";"@ + ";;;;"@ + nat_str(
        account as nat,
    ) + ";"@ + nat_str(contra as nat) + ";"@ + (match bu {
        Some(k) => nat_str(k as nat),
        None => seq![],
    }) + ";"@ + dm_compact(date) + ";"@ + quoted(doc) + ";"@ + ";"@ + ";"@ + quoted(text) + semis(
        26,
    ) + (match eu {
        Some(v) => quoted(v),
        None => seq![],
    }) + ";"@ + semis(74) + opt_dmy(service) + ";"@ + ";"@ + opt_dmy(due) + ";"@ + (if reversal {
        "1"@
    } else {
        seq![]
    }) + ";;"@ + "\r\n"@
}

/// The CSV line of a row value.
pub open spec fn datev_row_text(r: DatevRow) -> Seq<char> {
    row_text(
        r.amount@,
        r.debit_credit,
        r.account,
        r.contra_account,
        r.bu_key,
        r.date@,
        r.document_number@,
        r.posting_text@,
        r.service_date,
        r.due_date,
        opt_str_view(r.eu_vat_id),
        r.general_reversal,
    )
}

pub open spec fn rows_text(rows: Seq<DatevRow>) -> Seq<char>
    decreases rows.len(),
{
    if rows.len() == 0 {
        seq![]
    } else {
        rows_text(rows.drop_last()) + datev_row_text(rows.last())
    }
}

/// The posting text: invoice number, and the item name for a single line.
pub open spec fn posting_text_spec(inv: Invoice) -> Seq<char> {
    if inv.lines@.len() == 1 {
        inv.number@ + " "@ + inv.lines@[0].item_name@
    } else {
        inv.number@
    }
}

/// The line a VAT group of `inv` with gross amount `gross` is booked as.
pub open spec fn expected_row_text(
    inv: Invoice,
    config: DatevConfig,
    b: VatBreakdown,
    gross: (i128, u32),
) -> Seq<char> {
    let m = revenue_spec(config.chart, b.category, b.rate@);
    let bu = if m.1 {
        None
    } else {
        bu_spec(b.category, b.rate@)
    };
    let dc = if inv.type_code == InvoiceTypeCode::CreditNote {
        DebitCredit::Haben
    } else {
        DebitCredit::Soll
    };
    let eu = match b.category {
        TaxCategory::IntraCommunitySupply | TaxCategory::ReverseCharge => opt_str_view(
            inv.buyer.vat_id,
        ),
        _ => None,
    };
    row_text(
        abs_spec(gross),
        dc,
        config.default_debitor,
        m.0,
        bu,
        inv.issue_date@,
        truncated(inv.number@, 36),
        truncated(posting_text_spec(inv), 60),
        inv.tax_point_date,
        inv.due_date,
        eu,
        false,
    )
}

/// The lines of the VAT groups `bs` of `inv`; a group whose gross amount is
/// zero is left out.
pub open spec fn breakdown_rows_text(inv: Invoice, config: DatevConfig, bs: Seq<VatBreakdown>) -> Seq<
    char,
>
    decreases bs.len(),
{
    if bs.len() == 0 {
        seq![]
    } else {
        let prev = breakdown_rows_text(inv, config, bs.drop_last());
        let b = bs.last();
        match decimal_checked_add(b.taxable_amount@, b.tax_amount@) {
            Some(g) => if g.0 == 0 {
                prev
            } else {
                prev + expected_row_text(inv, config, b, g)
            },
            None => prev,
        }
    }
}

/// Every gross amount (taxable + tax) of the groups can be computed.
pub open spec fn gross_computable(bs: Seq<VatBreakdown>) -> bool {
    forall|i: int|
        0 <= i < bs.len() ==> (#[trigger] decimal_checked_add(
            bs[i].taxable_amount@,
            bs[i].tax_amount@,
        )) is Some
}

/// Some group of the invoice is booked.
pub open spec fn emits_rows(inv: Invoice) -> bool {
    inv.totals matches Some(t) && exists|i: int|
        0 <= i < t.vat_breakdown@.len() && ((#[trigger] decimal_checked_add(
            t.vat_breakdown@[i].taxable_amount@,
            t.vat_breakdown@[i].tax_amount@,
        )) matches Some(g) && g.0 != 0)
}

fn posting_text(inv: &Invoice) -> (r: String)
    ensures
        r@ == posting_text_spec(*inv),
{
    if inv.lines.len() == 1 {
        let mut r = string_of(inv.number.as_str());
        push_str(&mut r, " ");
        push_str(&mut r, inv.lines[0].item_name.as_str());
        r
    } else {
        string_of(inv.number.as_str())
    }
}

/// Convert a single invoice into DATEV rows: one per VAT group with a
/// non-zero gross amount.
pub fn invoice_to_rows(inv: &Invoice, config: &DatevConfig) -> (r: Result<
    Vec<DatevRow>,
    RechnungError,
>)
    ensures
        match r {
            Ok(rows) => inv.totals matches Some(t) && gross_computable(t.vat_breakdown@) && rows_text(
                rows@,
            ) == breakdown_rows_text(*inv, *config, t.vat_breakdown@),
            Err(RechnungError::Builder(m)) => inv.totals is None && m@ == "invoice "@ + inv.number@
                + " has no calculated totals — call calculate_totals() first"@,
            Err(RechnungError::Arithmetic(_)) => inv.totals matches Some(t) && !gross_computable(
                t.vat_breakdown@,
            ),
            _ => false,
        },
{
    let totals = match &inv.totals {
        Some(t) => t,
        None => {
            let mut m = string_of("invoice ");
            push_str(&mut m, inv.number.as_str());
            push_str(&mut m, " has no calculated totals — call calculate_totals() first");
            return Err(RechnungError::Builder(m));
        },
    };
    let bs = &totals.vat_breakdown;
    proof {
        assert(inv.totals == Some(*totals));
        assert(inv.totals->0.vat_breakdown@ == bs@);
    }
    let is_credit_note = inv.type_code == InvoiceTypeCode::CreditNote;
    let mut rows: Vec<DatevRow> = Vec::new();
    let mut i: usize = 0;
    while i < bs.len()
        invariant
            inv.totals == Some(*totals),
            *bs == totals.vat_breakdown,
            i <= bs@.len(),
            is_credit_note == (inv.type_code == InvoiceTypeCode::CreditNote),
            gross_computable(bs@.subrange(0, i as int)),
            rows_text(rows@) == breakdown_rows_text(*inv, *config, bs@.subrange(0, i as int)),
        decreases bs.len() - i,
    {
        let b = &bs[i];
        let ghost before = rows@;
        proof {
            assert(bs@.subrange(0, i + 1).drop_last() =~= bs@.subrange(0, i as int));
            assert(bs@.subrange(0, i + 1).last() == *b);
        }
        let gross = match checked_add(b.taxable_amount, b.tax_amount) {
            Some(g) => g,
            None => {
                proof {
                    let bsv = bs@;
                    assert(bsv[i as int] == *b);
                    assert(decimal_checked_add(bsv[i as int].taxable_amount@, bsv[i as int].tax_amount@) is None);
                    assert(!gross_computable(bsv));
                    assert(inv.totals->0.vat_breakdown@ == bsv);
                }
                return Err(RechnungError::Arithmetic(string_of("amount out of decimal range")));
            },
        };
        if !gross.is_zero() {
            proof {
                let bsv = bs@;
                assert(inv.totals->0.vat_breakdown@ == bsv);
                assert(bsv[i as int] == *b);
                assert(decimal_checked_add(bsv[i as int].taxable_amount@, bsv[i as int].tax_amount@) == Some(gross@));
                assert(emits_rows(*inv));
            }
            let mapping = revenue_account(config.chart, inv.vat_scenario, b.category, b.rate);
            let bu_key = if mapping.is_automatik {
                None
            } else {
                match bu_schluessel(b.category, b.rate) {
                    Some(k) => Some(k.0),
                    None => None,
                }
            };
            let text = posting_text(inv);
            let debit_credit = if is_credit_note {
                DebitCredit::Haben
            } else {
                DebitCredit::Soll
            };
            let eu_vat_id = match b.category {
                TaxCategory::IntraCommunitySupply | TaxCategory::ReverseCharge => match &inv.buyer.vat_id {
                    Some(v) => Some(string_of(v.as_str())),
                    None => None,
                },
                _ => None,
            };
            let row = DatevRow {
                amount: gross.abs(),
                debit_credit,
                account: config.default_debitor,
                contra_account: mapping.revenue_account,
                bu_key,
                date: inv.issue_date,
                document_number: truncate(inv.number.as_str(), 36),
                posting_text: truncate(text.as_str(), 60),
                service_date: inv.tax_point_date,
                due_date: inv.due_date,
                eu_vat_id,
                general_reversal: false,
            };
            proof {
                assert(datev_row_text(row) == expected_row_text(*inv, *config, *b, gross@));
            }
            rows.push(row);
            proof {
                assert(rows@.drop_last() =~= before);
            }
        }
        i = i + 1;
        proof {
            assert forall|k: int| 0 <= k < i implies (#[trigger] decimal_checked_add(
                bs@.subrange(0, i as int)[k].taxable_amount@,
                bs@.subrange(0, i as int)[k].tax_amount@,
            )) is Some by {
                if k < i - 1 {
                    assert(bs@.subrange(0, i as int)[k] == bs@.subrange(0, i - 1)[k]);
                }
            }
        }
    }
    proof {
        assert(bs@.subrange(0, bs.len() as int) =~= bs@);
    }
    Ok(rows)
}

// ---------------------------------------------------------------- writing

fn push_semis(out: &mut String, n: usize)
    ensures
        final(out)@ == old(out)@ + semis(n as nat),
{
    let mut i: usize = 0;
    while i < n
        invariant
            i <= n,
            out@ == old(out)@ + semis(i as nat),
        decreases n - i,
    {
        push_char(out, ';');
        i = i + 1;
        proof {
            assert(out@ =~= old(out)@ + semis(i as nat));
        }
    }
}

fn push_u32(out: &mut String, n: u32)
    ensures
        final(out)@ == old(out)@ + nat_str(n as nat),
{
    let t = u64_to_string(n as u64);
    push_str(out, t.as_str());
}

fn push_quoted(out: &mut String, s: &str)
    ensures
        final(out)@ == old(out)@ + quoted(s@),
{
    push_char(out, '"');
    push_str(out, s);
    push_char(out, '"');
    proof {
        assert(final(out)@ =~= old(out)@ + quoted(s@));
    }
}

/// Appends the CSV line of a row.
fn write_data_row(out: &mut String, row: &DatevRow)
    ensures
        final(out)@ == old(out)@ + datev_row_text(*row),
{
    let mut t = format_amount(row.amount);
    push_str(&mut t, ";");
    push_quoted(&mut t, row.debit_credit.code());
    push_str(&mut t, ";");
    push_str(&mut t, ";;;;");
    push_u32(&mut t, row.account);
    push_str(&mut t, ";");
    push_u32(&mut t, row.contra_account);
    push_str(&mut t, ";");
    let bu = match row.bu_key {
        Some(k) => u64_to_string(k as u64),
        None => String::new(),
    };
    push_str(&mut t, bu.as_str());
    push_str(&mut t, ";");
    let dm = format_dm(&row.date);
    push_str(&mut t, dm.as_str());
    push_str(&mut t, ";");
    push_quoted(&mut t, row.document_number.as_str());
    push_str(&mut t, ";");
    push_str(&mut t, ";");
    push_str(&mut t, ";");
    push_quoted(&mut t, row.posting_text.as_str());
    push_semis(&mut t, 26);
    let eu = match &row.eu_vat_id {
        Some(v) => {
            let mut q = String::new();
            push_quoted(&mut q, v.as_str());
            q
        },
        None => String::new(),
    };
    proof {
        if row.eu_vat_id is Some {
            assert(eu@ =~= quoted(row.eu_vat_id->0@));
        }
    }
    push_str(&mut t, eu.as_str());
    push_str(&mut t, ";");
    push_semis(&mut t, 74);
    let sd = match &row.service_date {
        Some(d) => format_dmy(d),
        None => String::new(),
    };
    push_str(&mut t, sd.as_str());
    push_str(&mut t, ";");
    push_str(&mut t, ";");
    let dd = match &row.due_date {
        Some(d) => format_dmy(d),
        None => String::new(),
    };
    push_str(&mut t, dd.as_str());
    push_str(&mut t, ";");
    let rev = if row.general_reversal {
        string_of("1")
    } else {
        String::new()
    };
    push_str(&mut t, rev.as_str());
    push_str(&mut t, ";;");
    push_str(&mut t, "\r\n");
    proof {
        reveal(row_text);
        assert(t@ == datev_row_text(*row));
    }
    push_str(out, t.as_str());
}

/// The EXTF header line.
pub open spec fn header_text(
    c: DatevConfig,
    ps: (i32, u32, u32),
    pe: (i32, u32, u32),
    now: Seq<char>,
) -> Seq<char> {
    "\"EXTF\";700;21;\"Buchungsstapel\";13;"@ + now + ";;"@ + quoted(truncated(c.source@, 2))
        + ";"@ + quoted(truncated(c.exported_by@, 25)) + ";\"\";"@ + nat_str(
        c.consultant_number as nat,
    ) + ";"@ + nat_str(c.client_number as nat) + ";"@ + ymd_compact(c.fiscal_year_start@) + ";"@
        + nat_str(c.account_length as nat) + ";"@ + ymd_compact(ps) + ";"@ + ymd_compact(pe) + ";"@
        + quoted(truncated(c.description@, 30)) + ";\"\";1;0;"@ + (if c.lock_postings {
        "1"@
    } else {
        "0"@
    }) + ";\"EUR\";;\"\";;;"@ + quoted(chart_code_spec(c.chart)) + ";;;\"\""@ + "\r\n"@
}

fn write_header(out: &mut String, config: &DatevConfig, ps: &Date, pe: &Date, now: &str)
    ensures
        final(out)@ == old(out)@ + header_text(*config, ps@, pe@, now@),
{
    let mut t = string_of("\"EXTF\";700;21;\"Buchungsstapel\";13;");
    push_str(&mut t, now);
    push_str(&mut t, ";;");
    let src = truncate(config.source.as_str(), 2);
    push_quoted(&mut t, src.as_str());
    push_str(&mut t, ";");
    let exp = truncate(config.exported_by.as_str(), 25);
    push_quoted(&mut t, exp.as_str());
    push_str(&mut t, ";\"\";");
    push_u32(&mut t, config.consultant_number);
    push_str(&mut t, ";");
    push_u32(&mut t, config.client_number);
    push_str(&mut t, ";");
    let fy = format_ymd(&config.fiscal_year_start);
    push_str(&mut t, fy.as_str());
    push_str(&mut t, ";");
    push_u32(&mut t, config.account_length as u32);
    push_str(&mut t, ";");
    let a = format_ymd(ps);
    push_str(&mut t, a.as_str());
    push_str(&mut t, ";");
    let b = format_ymd(pe);
    push_str(&mut t, b.as_str());
    push_str(&mut t, ";");
    let desc = truncate(config.description.as_str(), 30);
    push_quoted(&mut t, desc.as_str());
    push_str(&mut t, ";\"\";1;0;");
    if config.lock_postings {
        push_str(&mut t, "1");
    } else {
        push_str(&mut t, "0");
    }
    push_str(&mut t, ";\"EUR\";;\"\";;;");
    push_quoted(&mut t, config.chart.code());
    push_str(&mut t, ";;;\"\"");
    push_str(&mut t, "\r\n");
    proof {
        assert(t@ == header_text(*config, ps@, pe@, now@));
    }
    push_str(out, t.as_str());
}

/// The named column headers, joined by `;`, padded to 120 fields.
pub open spec fn column_header_text() -> Seq<char> {
    "Umsatz (ohne Soll/Haben-Kz);Soll/Haben-Kennzeichen;WKZ Umsatz;Kurs;Basisumsatz;WKZ Basisumsatz;Konto;Gegenkonto (ohne BU-Schlüssel);BU-Schlüssel;Belegdatum;Belegfeld 1;Belegfeld 2;Skonto;Buchungstext"@
        + semis(106) + "\r\n"@
}

fn write_column_headers(out: &mut String)
    ensures
        final(out)@ == old(out)@ + column_header_text(),
{
    let ghost start = out@;
    push_str(
        out,
        "Umsatz (ohne Soll/Haben-Kz);Soll/Haben-Kennzeichen;WKZ Umsatz;Kurs;Basisumsatz;WKZ Basisumsatz;Konto;Gegenkonto (ohne BU-Schlüssel);BU-Schlüssel;Belegdatum;Belegfeld 1;Belegfeld 2;Skonto;Buchungstext",
    );
    push_semis(out, 106);
    push_str(out, "\r\n");
    proof {
        assert(out@ =~= start + column_header_text());
    }
}

// ---------------------------------------------------------------- the document

/// The issue dates of the invoices.
pub open spec fn issue_dates(invs: Seq<Invoice>) -> Seq<(i32, u32, u32)> {
    invs.map_values(|i: Invoice| i.issue_date@)
}

/// The earliest date of a non-empty list.
pub open spec fn earliest(ds: Seq<(i32, u32, u32)>) -> (i32, u32, u32)
    decreases ds.len(),
{
    if ds.len() <= 1 {
        ds[0]
    } else {
        let m = earliest(ds.drop_last());
        if date_before(ds.last(), m) {
            ds.last()
        } else {
            m
        }
    }
}

/// The latest date of a non-empty list.
pub open spec fn latest(ds: Seq<(i32, u32, u32)>) -> (i32, u32, u32)
    decreases ds.len(),
{
    if ds.len() <= 1 {
        ds[0]
    } else {
        let m = latest(ds.drop_last());
        if date_before(m, ds.last()) {
            ds.last()
        } else {
            m
        }
    }
}

pub(crate) fn date_range(invoices: &[Invoice]) -> (r: (Date, Date))
    requires
        invoices@.len() > 0,
    ensures
        r.0@ == earliest(issue_dates(invoices@)),
        r.1@ == latest(issue_dates(invoices@)),
{
    let ghost ds = issue_dates(invoices@);
    let mut min = invoices[0].issue_date;
    let mut max = invoices[0].issue_date;
    let mut i: usize = 1;
    proof {
        assert(ds.take(1).len() == 1);
    }
    while i < invoices.len()
        invariant
            ds == issue_dates(invoices@),
            1 <= i <= invoices@.len(),
            min@ == earliest(ds.take(i as int)),
            max@ == latest(ds.take(i as int)),
        decreases invoices.len() - i,
    {
        proof {
            assert(ds.take(i + 1).drop_last() =~= ds.take(i as int));
            assert(ds.take(i + 1).last() == invoices@[i as int].issue_date@);
        }
        if invoices[i].issue_date.before(&min) {
            min = invoices[i].issue_date;
        }
        if max.before(&invoices[i].issue_date) {
            max = invoices[i].issue_date;
        }
        i = i + 1;
    }
    proof {
        assert(ds.take(invoices@.len() as int) =~= ds);
    }
    (min, max)
}

/// Why an invoice cannot be exported: `(true, m)` for a builder error with
/// message `m`, `(false, _)` for an amount out of range.
pub open spec fn invoice_problem(inv: Invoice) -> Option<(bool, Seq<char>)> {
    match inv.totals {
        None => Some(
            (
                true,
                "invoice "@ + inv.number@ + " has no calculated totals — call calculate_totals() first"@,
            ),
        ),
        Some(t) => if gross_computable(t.vat_breakdown@) {
            None
        } else {
            Some((false, "amount out of decimal range"@))
        },
    }
}

/// The problem of the first invoice that has one.
pub open spec fn first_problem(invs: Seq<Invoice>) -> Option<(bool, Seq<char>)>
    decreases invs.len(),
{
    if invs.len() == 0 {
        None
    } else {
        match first_problem(invs.drop_last()) {
            Some(p) => Some(p),
            None => invoice_problem(invs.last()),
        }
    }
}

/// The booking lines of all invoices, one invoice after the other.
pub open spec fn all_rows_text(invs: Seq<Invoice>, c: DatevConfig) -> Seq<char>
    decreases invs.len(),
{
    if invs.len() == 0 {
        seq![]
    } else {
        all_rows_text(invs.drop_last(), c) + breakdown_rows_text(
            invs.last(),
            c,
            invs.last().totals->0.vat_breakdown@,
        )
    }
}

/// The whole EXTF document for invoices, configuration and creation time.
pub open spec fn extf_text(invs: Seq<Invoice>, c: DatevConfig, now: Seq<char>) -> Seq<char> {
    let ds = issue_dates(invs);
    header_text(c, earliest(ds), latest(ds), now) + column_header_text() + all_rows_text(invs, c)
}

pub proof fn lemma_rows_text_append(a: Seq<DatevRow>, b: Seq<DatevRow>)
    ensures
        rows_text(a + b) == rows_text(a) + rows_text(b),
    decreases b.len(),
{
    if b.len() == 0 {
        assert(a + b =~= a);
    } else {
        lemma_rows_text_append(a, b.drop_last());
        assert((a + b).drop_last() =~= a + b.drop_last());
    }
}

fn write_rows(out: &mut String, rows: &Vec<DatevRow>)
    ensures
        final(out)@ == old(out)@ + rows_text(rows@),
{
    let mut i: usize = 0;
    while i < rows.len()
        invariant
            i <= rows@.len(),
            out@ == old(out)@ + rows_text(rows@.take(i as int)),
        decreases rows.len() - i,
    {
        write_data_row(out, &rows[i]);
        proof {
            assert(rows@.take(i + 1).drop_last() =~= rows@.take(i as int));
        }
        i = i + 1;
    }
    proof {
        assert(rows@.take(rows.len() as int) =~= rows@);
    }
}

/// What `extf_document` returns: an error for the first invoice that cannot
/// be exported, else the document.
pub open spec fn extf_result_ok(
    r: Result<String, RechnungError>,
    invs: Seq<Invoice>,
    c: DatevConfig,
    now: Seq<char>,
) -> bool {
    if invs.len() == 0 {
        r matches Err(RechnungError::Builder(m)) && m@ == "no invoices to export"@
    } else {
        match first_problem(invs) {
            Some((true, msg)) => r matches Err(RechnungError::Builder(m)) && m@ == msg,
            Some((false, _)) => r matches Err(RechnungError::Arithmetic(_)),
            None => r matches Ok(s) && s@ == extf_text(invs, c, now),
        }
    }
}

/// The EXTF Buchungsstapel of `invoices`, with `now` as the creation time of
/// the header (`%Y%m%d%H%M%S000`).
pub fn extf_document(invoices: &[Invoice], config: &DatevConfig, now: &str) -> (r: Result<
    String,
    RechnungError,
>)
    ensures
        extf_result_ok(r, invoices@, *config, now@),
{
    if invoices.len() == 0 {
        return Err(RechnungError::Builder(string_of("no invoices to export")));
    }
    let (period_start, period_end) = date_range(invoices);
    let mut rows: Vec<DatevRow> = Vec::new();
    let mut i: usize = 0;
    while i < invoices.len()
        invariant
            i <= invoices@.len(),
            first_problem(invoices@.take(i as int)) is None,
            rows_text(rows@) == all_rows_text(invoices@.take(i as int), *config),
        decreases invoices.len() - i,
    {
        proof {
            assert(invoices@.take(i + 1).drop_last() =~= invoices@.take(i as int));
            assert(invoices@.take(i + 1).last() == invoices@[i as int]);
        }
        let mut more = match invoice_to_rows(&invoices[i], config) {
            Ok(r) => r,
            Err(e) => {
                proof {
                    lemma_first_problem_prefix(invoices@, i + 1);
                    assert(invoices@.take(invoices@.len() as int) =~= invoices@);
                }
                return Err(e);
            },
        };
        let ghost a = rows@;
        let ghost b = more@;
        rows.append(&mut more);
        proof {
            lemma_rows_text_append(a, b);
        }
        i = i + 1;
    }
    proof {
        assert(invoices@.take(invoices@.len() as int) =~= invoices@);
    }
    let mut out = String::new();
    write_header(&mut out, config, &period_start, &period_end, now);
    write_column_headers(&mut out);
    write_rows(&mut out, &rows);
    proof {
        assert(out@ =~= extf_text(invoices@, *config, now@));
    }
    Ok(out)
}

/// A problem of an invoice in a prefix is the first problem of the whole list.
pub proof fn lemma_first_problem_prefix(invs: Seq<Invoice>, k: int)
    requires
        0 < k <= invs.len(),
        first_problem(invs.take(k - 1)) is None,
        invoice_problem(invs[k - 1]) is Some,
    ensures
        first_problem(invs) == invoice_problem(invs[k - 1]),
    decreases invs.len() - k,
{
    assert(invs.take(k).drop_last() =~= invs.take(k - 1));
    if k < invs.len() {
        lemma_first_problem_stable(invs, k);
    } else {
        assert(invs.take(k) =~= invs);
    }
}

/// Once a prefix has a problem, every longer prefix has the same first problem.
pub proof fn lemma_first_problem_stable(invs: Seq<Invoice>, k: int)
    requires
        0 <= k <= invs.len(),
        first_problem(invs.take(k)) is Some,
    ensures
        first_problem(invs) == first_problem(invs.take(k)),
    decreases invs.len() - k,
{
    if k < invs.len() {
        assert(invs.take(k + 1).drop_last() =~= invs.take(k));
        lemma_first_problem_stable(invs, k + 1);
    } else {
        assert(invs.take(k) =~= invs);
    }
}

/// The header's creation time: year, month, day, hours, minutes, seconds
/// and three zero milliseconds, in chrono's `strftime` notation.
pub const EXTF_TIMESTAMP_FORMAT: &'static str = "%Y%m%d%H%M%S000";

/// Calls `chrono::Local::now()` and formats it with `format`, which must be a
/// format chrono accepts (else `to_string` would panic): the one the header
/// uses. The text depends on the clock and the time zone: nothing is
/// promised of it.
#[verifier::external_body]
fn local_timestamp(format: &str) -> String
    requires
        format@ == EXTF_TIMESTAMP_FORMAT@,
{
    chrono::Local::now().format(format).to_string()
}

/// Generate a DATEV EXTF Buchungsstapel CSV from a set of invoices.
///
/// Returns the CSV as a string (ISO-8859-1 compatible content, using CRLF line
/// endings); the header carries the current local time.
pub fn to_extf(invoices: &[Invoice], config: &DatevConfig) -> (r: Result<String, RechnungError>)
    ensures
        exists|now: Seq<char>| extf_result_ok(r, invoices@, *config, now),
{
    let now = local_timestamp(EXTF_TIMESTAMP_FORMAT);
    extf_document(invoices, config, now.as_str())
}

} // verus!
