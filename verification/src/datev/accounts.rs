//! SKR03 / SKR04 account mappings.
use vstd::prelude::*;
use crate::decimal::{eq, value_eq, Dec};
use crate::model::types::{TaxCategory, VatScenario};
use crate::text::{contains, seq_contains, to_lowercase, unicode_lower};

verus! {

/// Standard German chart of accounts.
#[derive(Debug, Clone, Copy, PartialEq, Eq, Structural)]
#[non_exhaustive]
pub enum ChartOfAccounts {
    /// Standardkontenrahmen 03 (most common for SMBs).
    SKR03,
    /// Standardkontenrahmen 04 (used by larger companies, Bilanzrecht).
    SKR04,
}

pub open spec fn chart_code_spec(c: ChartOfAccounts) -> Seq<char> {
    match c {
        ChartOfAccounts::SKR03 => "03"@,
        ChartOfAccounts::SKR04 => "04"@,
    }
}

impl ChartOfAccounts {
    /// SKR identifier for the EXTF header.
    pub fn code(&self) -> (r: &'static str)
        ensures
            r@ == chart_code_spec(*self),
    {
        match self {
            ChartOfAccounts::SKR03 => "03",
            ChartOfAccounts::SKR04 => "04",
        }
    }
}

/// Account mapping for a specific booking.
#[derive(Debug, Clone, Copy)]
pub struct AccountMapping {
    /// Revenue / expense account (Erlöskonto / Aufwandskonto).
    pub revenue_account: u32,
    /// Whether the revenue account is an Automatikkonto
    /// (auto-applies tax, so BU-Schlüssel can be omitted).
    pub is_automatik: bool,
}

/// The revenue account and its Automatik flag for a chart, category and rate.
pub open spec fn revenue_spec(chart: ChartOfAccounts, category: TaxCategory, rate: (i128, u32)) -> (
    u32,
    bool,
) {
    let skr03 = chart == ChartOfAccounts::SKR03;
    match category {
        TaxCategory::StandardRate => if value_eq(rate, (19i128, 0u32)) {
            (if skr03 { 8400u32 } else { 4400u32 }, true)
        } else if value_eq(rate, (7i128, 0u32)) {
            (if skr03 { 8300u32 } else { 4300u32 }, true)
        } else {
            (if skr03 { 8000u32 } else { 4000u32 }, false)
        },
        TaxCategory::ZeroRated | TaxCategory::Exempt | TaxCategory::NotSubjectToVat => (
            if skr03 { 8200u32 } else { 4200u32 },
            false,
        ),
        TaxCategory::ReverseCharge => (if skr03 { 8337u32 } else { 4337u32 }, false),
        TaxCategory::IntraCommunitySupply => (if skr03 { 8125u32 } else { 4125u32 }, true),
        TaxCategory::Export => (if skr03 { 8120u32 } else { 4120u32 }, true),
    }
}

/// Determine the revenue account for a given tax scenario, category, and rate.
/// The scenario does not influence the choice.
pub fn revenue_account(
    chart: ChartOfAccounts,
    scenario: VatScenario,
    category: TaxCategory,
    rate: Dec,
) -> (r: AccountMapping)
    ensures
        (r.revenue_account, r.is_automatik) == revenue_spec(chart, category, rate@),
{
    let skr03 = chart == ChartOfAccounts::SKR03;
    match category {
        TaxCategory::StandardRate => {
            if eq(&rate, &Dec::new(19, 0)) {
                AccountMapping {
                    revenue_account: if skr03 {
                        8400
                    } else {
                        4400
                    },
                    is_automatik: true,
                }
            } else if eq(&rate, &Dec::new(7, 0)) {
                AccountMapping {
                    revenue_account: if skr03 {
                        8300
                    } else {
                        4300
                    },
                    is_automatik: true,
                }
            } else {
                AccountMapping {
                    revenue_account: if skr03 {
                        8000
                    } else {
                        4000
                    },
                    is_automatik: false,
                }
            }
        },
        TaxCategory::ZeroRated | TaxCategory::Exempt | TaxCategory::NotSubjectToVat => {
            AccountMapping {
                revenue_account: if skr03 {
                    8200
                } else {
                    4200
                },
                is_automatik: false,
            }
        },
        TaxCategory::ReverseCharge => AccountMapping {
            revenue_account: if skr03 {
                8337
            } else {
                4337
            },
            is_automatik: false,
        },
        TaxCategory::IntraCommunitySupply => AccountMapping {
            revenue_account: if skr03 {
                8125
            } else {
                4125
            },
            is_automatik: true,
        },
        TaxCategory::Export => AccountMapping {
            revenue_account: if skr03 {
                8120
            } else {
                4120
            },
            is_automatik: true,
        },
    }
}

/// Named account entry for SKR lookup by German name.
#[derive(Debug, Clone, Copy)]
pub struct NamedAccount {
    /// Account number.
    pub number: u32,
    /// German account name (e.g. "Erlöse 19% USt").
    pub name: &'static str,
    /// Whether this is an Automatikkonto.
    pub is_automatik: bool,
}

/// An account as number, name and Automatik flag.
pub type AccountView = (u32, Seq<char>, bool);

pub open spec fn account_view(a: NamedAccount) -> AccountView {
    (a.number, a.name@, a.is_automatik)
}

pub open spec fn account_views(s: Seq<NamedAccount>) -> Seq<AccountView> {
    s.map_values(|a: NamedAccount| account_view(a))
}

/// Common SKR03 revenue/expense accounts.
pub open spec fn skr03_accounts() -> Seq<AccountView> {
    seq![
        (8400u32, "Erlöse 19% USt"@, true),
        (8300u32, "Erlöse 7% USt"@, true),
        (8200u32, "Erlöse steuerfrei"@, false),
        (8000u32, "Erlöse"@, false),
        (8120u32, "Steuerfreie Ausfuhrlieferungen"@, true),
        (8125u32, "Steuerfreie innergem. Lieferungen §4 Nr. 1b"@, true),
        (8337u32, "Erlöse §13b UStG"@, false),
        (8150u32, "Sonstige steuerfreie Umsätze"@, false),
        (8190u32, "Erlöse Kleinunternehmer §19"@, false),
        (8500u32, "Provisionserlöse"@, true),
        (8700u32, "Erlöse aus Vermietung"@, true),
        (8800u32, "Erlöse Anlageverkäufe 19%"@, true),
        (4400u32, "Betriebsbedarf"@, false),
        (4600u32, "Werbekosten"@, false),
        (4900u32, "Sonstige betriebliche Aufwendungen"@, false),
        (4500u32, "Fahrzeugkosten"@, false),
        (4210u32, "Miete"@, false),
        (4830u32, "Reisekosten Arbeitnehmer"@, false),
        (4120u32, "Gehälter"@, false),
        (4100u32, "Löhne"@, false),
    ]
}

/// Common SKR04 revenue/expense accounts.
pub open spec fn skr04_accounts() -> Seq<AccountView> {
    seq![
        (4400u32, "Erlöse 19% USt"@, true),
        (4300u32, "Erlöse 7% USt"@, true),
        (4200u32, "Erlöse steuerfrei"@, false),
        (4000u32, "Erlöse"@, false),
        (4120u32, "Steuerfreie Ausfuhrlieferungen"@, true),
        (4125u32, "Steuerfreie innergem. Lieferungen §4 Nr. 1b"@, true),
        (4337u32, "Erlöse §13b UStG"@, false),
        (4150u32, "Sonstige steuerfreie Umsätze"@, false),
        (4190u32, "Erlöse Kleinunternehmer §19"@, false),
        (4500u32, "Provisionserlöse"@, true),
        (4700u32, "Erlöse aus Vermietung"@, true),
        (4800u32, "Erlöse Anlageverkäufe 19%"@, true),
        (6300u32, "Betriebsbedarf"@, false),
        (6600u32, "Werbekosten"@, false),
        (6800u32, "Sonstige betriebliche Aufwendungen"@, false),
        (6500u32, "Fahrzeugkosten"@, false),
        (6310u32, "Miete"@, false),
        (6650u32, "Reisekosten Arbeitnehmer"@, false),
        (6020u32, "Gehälter"@, false),
        (6000u32, "Löhne"@, false),
    ]
}

pub open spec fn chart_accounts(chart: ChartOfAccounts) -> Seq<AccountView> {
    match chart {
        ChartOfAccounts::SKR03 => skr03_accounts(),
        ChartOfAccounts::SKR04 => skr04_accounts(),
    }
}

/// The accounts of a chart, in their listed order.
pub fn accounts_of(chart: ChartOfAccounts) -> (r: Vec<NamedAccount>)
    ensures
        account_views(r@) == chart_accounts(chart),
{
    let r = match chart {
        ChartOfAccounts::SKR03 => vec![
                NamedAccount { number: 8400, name: "Erlöse 19% USt", is_automatik: true },
                NamedAccount { number: 8300, name: "Erlöse 7% USt", is_automatik: true },
                NamedAccount { number: 8200, name: "Erlöse steuerfrei", is_automatik: false },
                NamedAccount { number: 8000, name: "Erlöse", is_automatik: false },
                NamedAccount { number: 8120, name: "Steuerfreie Ausfuhrlieferungen", is_automatik: true },
                NamedAccount { number: 8125, name: "Steuerfreie innergem. Lieferungen §4 Nr. 1b", is_automatik: true },
                NamedAccount { number: 8337, name: "Erlöse §13b UStG", is_automatik: false },
                NamedAccount { number: 8150, name: "Sonstige steuerfreie Umsätze", is_automatik: false },
                NamedAccount { number: 8190, name: "Erlöse Kleinunternehmer §19", is_automatik: false },
                NamedAccount { number: 8500, name: "Provisionserlöse", is_automatik: true },
                NamedAccount { number: 8700, name: "Erlöse aus Vermietung", is_automatik: true },
                NamedAccount { number: 8800, name: "Erlöse Anlageverkäufe 19%", is_automatik: true },
                NamedAccount { number: 4400, name: "Betriebsbedarf", is_automatik: false },
                NamedAccount { number: 4600, name: "Werbekosten", is_automatik: false },
                NamedAccount { number: 4900, name: "Sonstige betriebliche Aufwendungen", is_automatik: false },
                NamedAccount { number: 4500, name: "Fahrzeugkosten", is_automatik: false },
                NamedAccount { number: 4210, name: "Miete", is_automatik: false },
                NamedAccount { number: 4830, name: "Reisekosten Arbeitnehmer", is_automatik: false },
                NamedAccount { number: 4120, name: "Gehälter", is_automatik: false },
                NamedAccount { number: 4100, name: "Löhne", is_automatik: false },
            ],
        ChartOfAccounts::SKR04 => vec![
                NamedAccount { number: 4400, name: "Erlöse 19% USt", is_automatik: true },
                NamedAccount { number: 4300, name: "Erlöse 7% USt", is_automatik: true },
                NamedAccount { number: 4200, name: "Erlöse steuerfrei", is_automatik: false },
                NamedAccount { number: 4000, name: "Erlöse", is_automatik: false },
                NamedAccount { number: 4120, name: "Steuerfreie Ausfuhrlieferungen", is_automatik: true },
                NamedAccount { number: 4125, name: "Steuerfreie innergem. Lieferungen §4 Nr. 1b", is_automatik: true },
                NamedAccount { number: 4337, name: "Erlöse §13b UStG", is_automatik: false },
                NamedAccount { number: 4150, name: "Sonstige steuerfreie Umsätze", is_automatik: false },
                NamedAccount { number: 4190, name: "Erlöse Kleinunternehmer §19", is_automatik: false },
                NamedAccount { number: 4500, name: "Provisionserlöse", is_automatik: true },
                NamedAccount { number: 4700, name: "Erlöse aus Vermietung", is_automatik: true },
                NamedAccount { number: 4800, name: "Erlöse Anlageverkäufe 19%", is_automatik: true },
                NamedAccount { number: 6300, name: "Betriebsbedarf", is_automatik: false },
                NamedAccount { number: 6600, name: "Werbekosten", is_automatik: false },
                NamedAccount { number: 6800, name: "Sonstige betriebliche Aufwendungen", is_automatik: false },
                NamedAccount { number: 6500, name: "Fahrzeugkosten", is_automatik: false },
                NamedAccount { number: 6310, name: "Miete", is_automatik: false },
                NamedAccount { number: 6650, name: "Reisekosten Arbeitnehmer", is_automatik: false },
                NamedAccount { number: 6020, name: "Gehälter", is_automatik: false },
                NamedAccount { number: 6000, name: "Löhne", is_automatik: false },
            ],
    };
    proof {
        assert(account_views(r@) =~= chart_accounts(chart));
    }
    r
}

/// The accounts of `s` whose lower-cased name contains `q`, in order.
pub open spec fn matching_accounts(s: Seq<AccountView>, q: Seq<char>) -> Seq<AccountView>
    decreases s.len(),
{
    if s.len() == 0 {
        seq![]
    } else {
        let rest = matching_accounts(s.drop_last(), q);
        if seq_contains(unicode_lower(s.last().1), q) {
            rest.push(s.last())
        } else {
            rest
        }
    }
}

/// Look up accounts by German name (case-insensitive substring match).
///
/// Returns all accounts whose name contains the search string.
pub fn account_by_name(chart: ChartOfAccounts, search: &str) -> (r: Vec<NamedAccount>)
    ensures
        account_views(r@) == matching_accounts(chart_accounts(chart), unicode_lower(search@)),
{
    let q = to_lowercase(search);
    let all = accounts_of(chart);
    let mut r: Vec<NamedAccount> = Vec::new();
    let mut i: usize = 0;
    while i < all.len()
        invariant
            i <= all@.len(),
            account_views(all@) == chart_accounts(chart),
            q@ == unicode_lower(search@),
            account_views(r@) == matching_accounts(account_views(all@).subrange(0, i as int), q@),
        decreases all.len() - i,
    {
        let a = all[i];
        let name = to_lowercase(a.name);
        let ghost before = r@;
        proof {
            assert(account_views(all@).subrange(0, i + 1).drop_last() =~= account_views(
                all@,
            ).subrange(0, i as int));
            assert(account_views(all@).subrange(0, i + 1).last() == account_view(a));
        }
        if contains(name.as_str(), q.as_str()) {
            r.push(a);
            proof {
                assert(account_views(r@) =~= account_views(before).push(account_view(a)));
            }
        }
        i = i + 1;
    }
    proof {
        assert(account_views(all@).subrange(0, all.len() as int) =~= account_views(all@));
    }
    r
}

/// The first account of `s` with number `n`.
pub open spec fn first_with_number(s: Seq<AccountView>, n: u32) -> Option<AccountView> {
    if exists|i: int| 0 <= i < s.len() && #[trigger] s[i].0 == n {
        let i = choose|i: int|
            0 <= i < s.len() && #[trigger] s[i].0 == n && forall|j: int| 0 <= j < i ==> s[j].0 != n;
        Some(s[i])
    } else {
        None
    }
}

/// The name a chart's table gives an account number, if it lists it.
pub open spec fn account_name(chart: ChartOfAccounts, n: u32) -> Option<Seq<char>> {
    match first_with_number(chart_accounts(chart), n) {
        Some(a) => Some(a.1),
        None => None,
    }
}

/// A standard-rate booking at 19 % goes to the chart's account named
/// "Erlöse 19% USt", at 7 % to the one named "Erlöse 7% USt" (SKR03 8400 and
/// 8300, SKR04 4400 and 4300), both Automatikkonten; the two rates never
/// share an account.
pub proof fn lemma_standard_rate_accounts(chart: ChartOfAccounts, r19: (i128, u32), r7: (i128, u32))
    requires
        value_eq(r19, (19i128, 0u32)),
        value_eq(r7, (7i128, 0u32)),
    ensures
        account_name(chart, revenue_spec(chart, TaxCategory::StandardRate, r19).0) == Some("Erlöse 19% USt"@),
        account_name(chart, revenue_spec(chart, TaxCategory::StandardRate, r7).0) == Some("Erlöse 7% USt"@),
        revenue_spec(chart, TaxCategory::StandardRate, r19).1,
        revenue_spec(chart, TaxCategory::StandardRate, r7).1,
        revenue_spec(chart, TaxCategory::StandardRate, r19).0 != revenue_spec(chart, TaxCategory::StandardRate, r7).0,
        revenue_spec(ChartOfAccounts::SKR04, TaxCategory::StandardRate, r7).0 == 4300,
        revenue_spec(ChartOfAccounts::SKR04, TaxCategory::StandardRate, r19).0 == 4400,
        revenue_spec(ChartOfAccounts::SKR03, TaxCategory::StandardRate, r7).0 == 8300,
        revenue_spec(ChartOfAccounts::SKR03, TaxCategory::StandardRate, r19).0 == 8400,
{
    reveal_strlit("Erlöse 19% USt");
    reveal_strlit("Erlöse 7% USt");
    assert(!value_eq(r7, (19i128, 0u32))) by {
        if value_eq(r7, (19i128, 0u32)) {
            crate::decimal::lemma_value_eq_trans((7i128, 0u32), r7, (19i128, 0u32));
            assert(crate::decimal::pow10(0) == 1);
        }
    }
    let s = chart_accounts(chart);
    assert(s[0].0 != s[1].0);
    assert(first_with_number(s, s[0].0) == Some(s[0]));
    assert(first_with_number(s, s[1].0) == Some(s[1]));
}

/// Every category's revenue account is the chart's account of that kind:
/// exports on "Steuerfreie Ausfuhrlieferungen", intra-community supplies on
/// "Steuerfreie innergem. Lieferungen §4 Nr. 1b", reverse charge on
/// "Erlöse §13b UStG", zero-rated, exempt and non-taxable sales on
/// "Erlöse steuerfrei", and standard-rate sales at a rate other than 7 % or
/// 19 % on "Erlöse".
pub proof fn lemma_revenue_account_kinds(chart: ChartOfAccounts, r: (i128, u32))
    ensures
        account_name(chart, revenue_spec(chart, TaxCategory::Export, r).0) == Some("Steuerfreie Ausfuhrlieferungen"@),
        account_name(chart, revenue_spec(chart, TaxCategory::IntraCommunitySupply, r).0) == Some(
            "Steuerfreie innergem. Lieferungen §4 Nr. 1b"@,
        ),
        account_name(chart, revenue_spec(chart, TaxCategory::ReverseCharge, r).0) == Some("Erlöse §13b UStG"@),
        account_name(chart, revenue_spec(chart, TaxCategory::ZeroRated, r).0) == Some("Erlöse steuerfrei"@),
        account_name(chart, revenue_spec(chart, TaxCategory::Exempt, r).0) == Some("Erlöse steuerfrei"@),
        account_name(chart, revenue_spec(chart, TaxCategory::NotSubjectToVat, r).0) == Some("Erlöse steuerfrei"@),
        !value_eq(r, (19i128, 0u32)) && !value_eq(r, (7i128, 0u32)) ==> account_name(
            chart,
            revenue_spec(chart, TaxCategory::StandardRate, r).0,
        ) == Some("Erlöse"@),
{
    let s = chart_accounts(chart);
    assert(first_with_number(s, s[2].0) == Some(s[2])) by {
        assert(s[0].0 != s[2].0 && s[1].0 != s[2].0);
    }
    assert(first_with_number(s, s[3].0) == Some(s[3])) by {
        assert(s[0].0 != s[3].0 && s[1].0 != s[3].0 && s[2].0 != s[3].0);
    }
    assert(first_with_number(s, s[4].0) == Some(s[4])) by {
        assert(s[0].0 != s[4].0 && s[1].0 != s[4].0 && s[2].0 != s[4].0 && s[3].0 != s[4].0);
    }
    assert(first_with_number(s, s[5].0) == Some(s[5])) by {
        assert(forall|j: int| 0 <= j < 5 ==> (#[trigger] s[j]).0 != s[5].0);
    }
    assert(first_with_number(s, s[6].0) == Some(s[6])) by {
        assert(forall|j: int| 0 <= j < 6 ==> (#[trigger] s[j]).0 != s[6].0);
    }
}

/// Look up an account by number (the first one listed with it).
pub fn account_by_number(chart: ChartOfAccounts, number: u32) -> (r: Option<NamedAccount>)
    ensures
        match (r, first_with_number(chart_accounts(chart), number)) {
            (Some(a), Some(v)) => account_view(a) == v,
            (None, None) => true,
            _ => false,
        },
{
    let all = accounts_of(chart);
    let ghost s = account_views(all@);
    let mut i: usize = 0;
    while i < all.len()
        invariant
            i <= all@.len(),
            s == account_views(all@),
            s == chart_accounts(chart),
            forall|j: int| 0 <= j < i ==> #[trigger] s[j].0 != number,
        decreases all.len() - i,
    {
        if all[i].number == number {
            proof {
                assert(s[i as int].0 == number);
                let k = choose|k: int|
                    0 <= k < s.len() && #[trigger] s[k].0 == number && forall|j: int|
                        0 <= j < k ==> s[j].0 != number;
                if k < i {
                    assert(s[k].0 != number);
                }
                if k > i {
                    assert(s[i as int].0 != number);
                }
            }
            return Some(all[i]);
        }
        i = i + 1;
    }
    proof {
        if exists|k: int| 0 <= k < s.len() && #[trigger] s[k].0 == number {
            let k = choose|k: int| 0 <= k < s.len() && #[trigger] s[k].0 == number;
            assert(s[k].0 != number);
        }
    }
    None
}

} // verus!
