//! Calendar dates (the proleptic Gregorian dates `chrono::NaiveDate` holds)
//! and their `strftime`-style renderings used by the exports.
use vstd::prelude::*;
use crate::text::{nat_str, pad_zeros, push_char, push_str, u64_to_string, zero_pad};

verus! {

pub open spec fn is_leap(y: int) -> bool {
    (y % 4 == 0 && y % 100 != 0) || y % 400 == 0
}

pub open spec fn days_in_month(y: int, m: int) -> int {
    if m == 2 {
        if is_leap(y) {
            29
        } else {
            28
        }
    } else if m == 4 || m == 6 || m == 9 || m == 11 {
        30
    } else {
        31
    }
}

/// A date `chrono::NaiveDate::from_ymd_opt` accepts.
pub open spec fn valid_ymd(y: int, m: int, d: int) -> bool {
    &&& -262143 <= y <= 262142
    &&& 1 <= m <= 12
    &&& 1 <= d <= days_in_month(y, m)
}

/// A calendar date; its type invariant is that it exists in the calendar.
#[derive(Clone, Copy, Debug)]
pub struct Date {
    year: i32,
    month: u32,
    day: u32,
}

impl View for Date {
    type V = (i32, u32, u32);

    closed spec fn view(&self) -> (i32, u32, u32) {
        (self.year, self.month, self.day)
    }
}

/// `a` is strictly before `b`.
pub open spec fn date_before(a: (i32, u32, u32), b: (i32, u32, u32)) -> bool {
    a.0 < b.0 || (a.0 == b.0 && (a.1 < b.1 || (a.1 == b.1 && a.2 < b.2)))
}

fn is_leap_exec(y: i32) -> (r: bool)
    ensures
        r == is_leap(y as int),
{
    (y % 4 == 0 && y % 100 != 0) || y % 400 == 0
}

impl Date {
    #[verifier::type_invariant]
    spec fn inv(self) -> bool {
        valid_ymd(self.year as int, self.month as int, self.day as int)
    }

    /// `NaiveDate::from_ymd_opt`: the date, if it exists.
    pub fn from_ymd_opt(year: i32, month: u32, day: u32) -> (r: Option<Date>)
        ensures
            r is Some <==> valid_ymd(year as int, month as int, day as int),
            r matches Some(d) ==> d@ == (year, month, day),
    {
        if year < -262143 || year > 262142 || month < 1 || month > 12 || day < 1 {
            return None;
        }
        let dim: u32 = if month == 2 {
            if is_leap_exec(year) {
                29
            } else {
                28
            }
        } else if month == 4 || month == 6 || month == 9 || month == 11 {
            30
        } else {
            31
        };
        if day > dim {
            None
        } else {
            Some(Date { year, month, day })
        }
    }

    pub fn year(&self) -> (r: i32)
        ensures
            r == self@.0,
    {
        self.year
    }

    pub fn month(&self) -> (r: u32)
        ensures
            r == self@.1,
    {
        self.month
    }

    pub fn day(&self) -> (r: u32)
        ensures
            r == self@.2,
    {
        self.day
    }

    /// `self < other`.
    pub fn before(&self, other: &Date) -> (r: bool)
        ensures
            r == date_before(self@, other@),
    {
        self.year < other.year || (self.year == other.year && (self.month < other.month || (
        self.month == other.month && self.day < other.day)))
    }

    /// Month and day are in their calendar ranges.
    pub fn valid(&self) -> (r: bool)
        ensures
            r,
            1 <= self@.1 <= 12,
            1 <= self@.2 <= 31,
            -262143 <= self@.0 <= 262142,
    {
        proof {
            use_type_invariant(self);
        }
        true
    }
}

/// `%Y`: four digits for years 0..=9999, otherwise a sign and at least four digits.
pub open spec fn year_str(y: int) -> Seq<char> {
    if 0 <= y <= 9999 {
        zero_pad(nat_str(y as nat), 4)
    } else if y < 0 {
        seq!['-'] + zero_pad(nat_str((-y) as nat), 4)
    } else {
        seq!['+'] + zero_pad(nat_str(y as nat), 4)
    }
}

/// `%m` or `%d`: two digits.
pub open spec fn two_str(n: nat) -> Seq<char> {
    zero_pad(nat_str(n), 2)
}

/// `%Y%m%d`.
pub open spec fn ymd_compact(d: (i32, u32, u32)) -> Seq<char> {
    year_str(d.0 as int) + two_str(d.1 as nat) + two_str(d.2 as nat)
}

/// `%Y-%m-%d` (the `Display` of a date).
pub open spec fn iso_str(d: (i32, u32, u32)) -> Seq<char> {
    year_str(d.0 as int) + seq!['-'] + two_str(d.1 as nat) + seq!['-'] + two_str(d.2 as nat)
}

/// `%d%m`.
pub open spec fn dm_compact(d: (i32, u32, u32)) -> Seq<char> {
    two_str(d.2 as nat) + two_str(d.1 as nat)
}

/// `%d%m%Y`.
pub open spec fn dmy_compact(d: (i32, u32, u32)) -> Seq<char> {
    two_str(d.2 as nat) + two_str(d.1 as nat) + year_str(d.0 as int)
}

/// `%d.%m.%Y`.
pub open spec fn dmy_dots(d: (i32, u32, u32)) -> Seq<char> {
    two_str(d.2 as nat) + seq!['.'] + two_str(d.1 as nat) + seq!['.'] + year_str(d.0 as int)
}

fn year_string(y: i32) -> (r: String)
    requires
        -262143 <= y <= 262142,
    ensures
        r@ == year_str(y as int),
{
    if 0 <= y && y <= 9999 {
        pad_zeros(&u64_to_string(y as u64), 4)
    } else if y < 0 {
        let mut r = String::new();
        push_char(&mut r, '-');
        let body = pad_zeros(&u64_to_string((-(y as i64)) as u64), 4);
        push_str(&mut r, body.as_str());
        proof {
            assert(r@ =~= seq!['-'] + zero_pad(nat_str((-y) as nat), 4));
        }
        r
    } else {
        let mut r = String::new();
        push_char(&mut r, '+');
        let body = pad_zeros(&u64_to_string(y as u64), 4);
        push_str(&mut r, body.as_str());
        proof {
            assert(r@ =~= seq!['+'] + zero_pad(nat_str(y as nat), 4));
        }
        r
    }
}

fn two_string(n: u32) -> (r: String)
    ensures
        r@ == two_str(n as nat),
{
    pad_zeros(&u64_to_string(n as u64), 2)
}

/// `date.format("%Y%m%d").to_string()`.
pub fn format_ymd(d: &Date) -> (r: String)
    ensures
        r@ == ymd_compact(d@),
{
    d.valid();
    let mut r = year_string(d.year());
    push_str(&mut r, two_string(d.month()).as_str());
    push_str(&mut r, two_string(d.day()).as_str());
    r
}

/// `date.to_string()` (`%Y-%m-%d`).
pub fn format_iso(d: &Date) -> (r: String)
    ensures
        r@ == iso_str(d@),
{
    d.valid();
    let mut r = year_string(d.year());
    push_char(&mut r, '-');
    push_str(&mut r, two_string(d.month()).as_str());
    push_char(&mut r, '-');
    push_str(&mut r, two_string(d.day()).as_str());
    r
}

/// `date.format("%d%m").to_string()`.
pub fn format_dm(d: &Date) -> (r: String)
    ensures
        r@ == dm_compact(d@),
{
    let mut r = two_string(d.day());
    push_str(&mut r, two_string(d.month()).as_str());
    r
}

/// `date.format("%d%m%Y").to_string()`.
pub fn format_dmy(d: &Date) -> (r: String)
    ensures
        r@ == dmy_compact(d@),
{
    d.valid();
    let mut r = two_string(d.day());
    push_str(&mut r, two_string(d.month()).as_str());
    push_str(&mut r, year_string(d.year()).as_str());
    r
}

/// `date.format("%d.%m.%Y").to_string()`.
pub fn format_dmy_dots(d: &Date) -> (r: String)
    ensures
        r@ == dmy_dots(d@),
{
    d.valid();
    let mut r = two_string(d.day());
    push_char(&mut r, '.');
    push_str(&mut r, two_string(d.month()).as_str());
    push_char(&mut r, '.');
    push_str(&mut r, year_string(d.year()).as_str());
    r
}

} // verus!
