//! Reading XML documents as a sequence of events (quick-xml), and the
//! element path helpers the invoice parsers share.
use vstd::prelude::*;
use quick_xml::events::Event;
use crate::date::{valid_ymd, Date};
use crate::decimal::{dec_wf, Dec};
use crate::text::{chars_of, is_digit, str_eq};

verus! {

#[verifier::external_type_specification]
#[verifier::external_body]
#[verifier::reject_recursive_types(R)]
pub struct ExXmlReader<R>(quick_xml::Reader<R>);

/// One event of an XML document as the parsers see it.
pub enum XmlRead {
    /// A start tag: its name and its attributes (key, raw value) in order.
    Start(String, Vec<(String, String)>),
    /// Character data, trimmed and unescaped (empty where it cannot be unescaped).
    Text(String),
    /// An empty element (`<a/>`): its name.
    Empty(String),
    /// An end tag.
    End,
    /// The end of the document.
    Eof,
    /// A syntax error, with its message.
    Failed(String),
    /// Anything else (declarations, comments, ...).
    Other,
}

/// The events quick-xml reads from `xml` with text trimmed, up to and
/// including the first end of document or error.
pub uninterp spec fn xml_reads(xml: Seq<char>) -> Seq<XmlRead>;

/// The events a reader has still to deliver.
pub uninterp spec fn reads_left(r: quick_xml::Reader<&[u8]>) -> Seq<XmlRead>;

/// An event that ends reading.
pub open spec fn is_final(e: XmlRead) -> bool {
    e is Eof || e is Failed
}

/// A finite list of events that ends with its first final event.
pub open spec fn reads_wf(s: Seq<XmlRead>) -> bool {
    &&& s.len() > 0
    &&& is_final(s.last())
    &&& forall|i: int| 0 <= i < s.len() - 1 ==> !is_final(#[trigger] s[i])
}

/// Calls `Reader::from_str` and `config_mut().trim_text(true)`. The events
/// still to be read are those of `xml`, which end with an end of document or
/// an error (the input is finite).
#[verifier::external_body]
pub(crate) fn reader_for<'a>(xml: &'a str) -> (r: quick_xml::Reader<&'a [u8]>)
    ensures
        reads_left(r) == xml_reads(xml@),
        reads_wf(reads_left(r)),
{
    let mut r = quick_xml::Reader::from_str(xml);
    r.config_mut().trim_text(true);
    r
}

/// Calls `Reader::read_event` and converts the event: names and attribute
/// keys and raw values as text (they are slices of the `&str` read, cut at
/// ASCII delimiters, so always UTF-8), text unescaped (empty where it cannot
/// be), errors by their display. The event is the next one still to be read.
#[verifier::external_body]
pub(crate) fn next_read<'a>(r: &mut quick_xml::Reader<&'a [u8]>) -> (e: XmlRead)
    ensures
        reads_left(*old(r)).len() > 0 ==> e == reads_left(*old(r))[0] && reads_left(*final(r))
            == reads_left(*old(r)).skip(1),
{
    let u = |b: &[u8]| String::from_utf8_lossy(b).into_owned();
    match r.read_event() {
        Ok(Event::Start(s)) => XmlRead::Start(
            u(s.name().0),
            s.attributes().flatten().map(|a| (u(a.key.0), u(&a.value))).collect(),
        ),
        Ok(Event::Text(t)) => XmlRead::Text(t.unescape().unwrap_or_default().to_string()),
        Ok(Event::Empty(s)) => XmlRead::Empty(u(s.name().0)),
        Ok(Event::End(_)) => XmlRead::End,
        Ok(Event::Eof) => XmlRead::Eof,
        Err(e) => XmlRead::Failed(e.to_string()),
        _ => XmlRead::Other,
    }
}

// ---------------------------------------------------------------- element paths

/// The name `k` places from the end of the path (1: the current element),
/// empty where the path is shorter.
pub open spec fn back_name(p: Seq<String>, k: int) -> Seq<char> {
    if p.len() >= k && k >= 1 {
        p[p.len() - k]@
    } else {
        seq![]
    }
}

/// Some element on the path has the name.
pub open spec fn on_path(p: Seq<String>, name: Seq<char>) -> bool {
    exists|i: int| 0 <= i < p.len() && (#[trigger] p[i])@ == name
}

/// The name `k` places from the end of the path.
pub fn back<'b>(path: &'b Vec<String>, k: usize) -> (r: &'b str)
    requires
        k >= 1,
    ensures
        r@ == back_name(path@, k as int),
{
    if path.len() >= k {
        path[path.len() - k].as_str()
    } else {
        proof {
            reveal_strlit("");
        }
        ""
    }
}

/// Whether some element on the path has the name.
pub fn path_has(path: &Vec<String>, name: &str) -> (r: bool)
    ensures
        r == on_path(path@, name@),
{
    let mut i: usize = 0;
    while i < path.len()
        invariant
            i <= path@.len(),
            forall|j: int| 0 <= j < i ==> (#[trigger] path@[j])@ != name@,
        decreases path.len() - i,
    {
        if str_eq(path[i].as_str(), name) {
            return true;
        }
        i = i + 1;
    }
    false
}

/// Equality of a name with a literal.
pub fn name_is(a: &str, b: &str) -> (r: bool)
    ensures
        r == (a@ == b@),
{
    str_eq(a, b)
}

// ---------------------------------------------------------------- values

/// The date `chrono::NaiveDate::parse_from_str` reads from a text with the
/// given format, if it reads one.
pub uninterp spec fn parsed_date(text: Seq<char>, format: Seq<char>) -> Option<(i32, u32, u32)>;

/// The decimal `rust_decimal::Decimal::from_str` reads from a text, if any.
pub uninterp spec fn parsed_decimal(text: Seq<char>) -> Option<(i128, u32)>;

/// Calls `NaiveDate::parse_from_str` and gives the year, month and day of
/// the date read (a `NaiveDate` always exists in the calendar); the error is
/// chrono's message.
#[verifier::external_body]
fn chrono_parse_date(text: &str, format: &str) -> (r: Result<(i32, u32, u32), String>)
    ensures
        match r {
            Ok(d) => parsed_date(text@, format@) == Some(d) && valid_ymd(d.0 as int, d.1 as int, d.2 as int),
            Err(_) => parsed_date(text@, format@) is None,
        },
{
    match chrono::NaiveDate::parse_from_str(text, format) {
        Ok(d) => Ok((chrono::Datelike::year(&d), chrono::Datelike::month(&d), chrono::Datelike::day(&d))),
        Err(e) => Err(e.to_string()),
    }
}

/// Calls `Decimal::from_str` and gives the mantissa and scale of the value
/// read (always representable); the error is rust_decimal's message.
#[verifier::external_body]
fn decimal_from_str(text: &str) -> (r: Result<(i128, u32), String>)
    ensures
        match r {
            Ok(d) => parsed_decimal(text@) == Some(d) && dec_wf(d),
            Err(_) => parsed_decimal(text@) is None,
        },
{
    match <rust_decimal::Decimal as std::str::FromStr>::from_str(text) {
        Ok(d) => Ok((d.mantissa(), d.scale())),
        Err(e) => Err(e.to_string()),
    }
}

/// The date a text holds in the given format.
pub fn parse_date(text: &str, format: &str) -> (r: Result<Date, String>)
    ensures
        match r {
            Ok(d) => parsed_date(text@, format@) == Some(d@),
            Err(_) => parsed_date(text@, format@) is None,
        },
{
    match chrono_parse_date(text, format) {
        Ok((y, m, d)) => match Date::from_ymd_opt(y, m, d) {
            Some(date) => Ok(date),
            None => Err(String::new()),
        },
        Err(e) => Err(e),
    }
}

/// The decimal a text holds.
pub fn parse_decimal(text: &str) -> (r: Result<Dec, String>)
    ensures
        match r {
            Ok(d) => parsed_decimal(text@) == Some(d@),
            Err(_) => parsed_decimal(text@) is None,
        },
{
    match decimal_from_str(text) {
        Ok((m, sc)) => Ok(Dec::from_i128_with_scale(m, sc)),
        Err(e) => Err(e),
    }
}


// ---------------------------------------------------------------- integers

/// Why a text is not a `u16` (the kinds of `std::num::ParseIntError` that
/// an unsigned parse gives).
#[derive(Clone, Copy, Debug, PartialEq, Eq, Structural)]
pub enum IntTextError {
    Empty,
    InvalidDigit,
    PosOverflow,
}

/// The message `ParseIntError` displays for each kind.
pub open spec fn int_error_text(e: IntTextError) -> Seq<char> {
    match e {
        IntTextError::Empty => "cannot parse integer from empty string"@,
        IntTextError::InvalidDigit => "invalid digit found in string"@,
        IntTextError::PosOverflow => "number too large to fit in target type"@,
    }
}

impl IntTextError {
    /// The message of this kind of fault.
    pub fn message(&self) -> (r: &'static str)
        ensures
            r@ == int_error_text(*self),
    {
        proof {
            reveal_strlit("cannot parse integer from empty string");
            reveal_strlit("invalid digit found in string");
            reveal_strlit("number too large to fit in target type");
        }
        match self {
            IntTextError::Empty => "cannot parse integer from empty string",
            IntTextError::InvalidDigit => "invalid digit found in string",
            IntTextError::PosOverflow => "number too large to fit in target type",
        }
    }
}

/// Digits read left to right: the value so far, or the first fault.
pub open spec fn u16_scan(d: Seq<char>) -> Result<int, IntTextError>
    decreases d.len(),
{
    if d.len() == 0 {
        Ok(0)
    } else {
        match u16_scan(d.drop_last()) {
            Err(k) => Err(k),
            Ok(v) => if !is_digit(d.last()) {
                Err(IntTextError::InvalidDigit)
            } else if v * 10 + (d.last() as int - '0' as int) > 65535 {
                Err(IntTextError::PosOverflow)
            } else {
                Ok(v * 10 + (d.last() as int - '0' as int))
            },
        }
    }
}

/// What `str::parse::<u16>` gives: an optional `+` and decimal digits whose
/// value fits.
pub open spec fn parsed_u16(s: Seq<char>) -> Result<u16, IntTextError> {
    if s.len() == 0 {
        Err(IntTextError::Empty)
    } else if s.len() == 1 && (s[0] == '+' || s[0] == '-') {
        Err(IntTextError::InvalidDigit)
    } else {
        let d = if s[0] == '+' {
            s.skip(1)
        } else {
            s
        };
        match u16_scan(d) {
            Ok(v) => Ok(v as u16),
            Err(k) => Err(k),
        }
    }
}

proof fn lemma_u16_scan_bound(d: Seq<char>)
    ensures
        u16_scan(d) matches Ok(v) ==> 0 <= v <= 65535,
    decreases d.len(),
{
    if d.len() > 0 {
        lemma_u16_scan_bound(d.drop_last());
    }
}

/// The `u16` a text holds, read as `str::parse` reads it.
pub fn parse_u16(s: &str) -> (r: Result<u16, IntTextError>)
    ensures
        r == parsed_u16(s@),
{
    let cs = chars_of(s);
    let n = cs.len();
    if n == 0 {
        return Err(IntTextError::Empty);
    }
    if n == 1 && (cs[0] == '+' || cs[0] == '-') {
        return Err(IntTextError::InvalidDigit);
    }
    let start: usize = if cs[0] == '+' {
        1
    } else {
        0
    };
    let ghost d = if cs@[0] == '+' {
        s@.skip(1)
    } else {
        s@
    };
    proof {
        assert(cs@.skip(0) =~= cs@);
    }
    let mut acc: u32 = 0;
    let mut i: usize = start;
    while i < n
        invariant
            cs@ == s@,
            n == cs@.len(),
            start <= i <= n,
            start <= 1,
            d == cs@.skip(start as int),
            n > 0,
            !(n == 1 && (s@[0] == '+' || s@[0] == '-')),
            d == (if s@[0] == '+' {
                s@.skip(1)
            } else {
                s@
            }),
            u16_scan(d.take(i - start)) == Ok::<int, IntTextError>(acc as int),
        decreases n - i,
    {
        let c = cs[i];
        proof {
            assert(d.take(i - start + 1).drop_last() =~= d.take(i - start));
            assert(d.take(i - start + 1).last() == c);
            lemma_u16_scan_bound(d.take(i - start));
        }
        if !('0' <= c && c <= '9') {
            proof {
                assert(u16_scan(d.take(i - start + 1)) == Err::<int, IntTextError>(
                    IntTextError::InvalidDigit,
                ));
                lemma_u16_scan_prefix_err(d, (i - start + 1) as int);
            }
            return Err(IntTextError::InvalidDigit);
        }
        let v = acc * 10 + (c as u32 - '0' as u32);
        if v > 65535 {
            proof {
                assert(u16_scan(d.take(i - start + 1)) == Err::<int, IntTextError>(
                    IntTextError::PosOverflow,
                ));
                lemma_u16_scan_prefix_err(d, (i - start + 1) as int);
            }
            return Err(IntTextError::PosOverflow);
        }
        acc = v;
        i = i + 1;
    }
    proof {
        assert(d.take(n - start) =~= d);
    }
    Ok(acc as u16)
}

/// A fault in a prefix is the fault of the whole.
proof fn lemma_u16_scan_prefix_err(d: Seq<char>, k: int)
    requires
        0 <= k <= d.len(),
        u16_scan(d.take(k)) is Err,
    ensures
        u16_scan(d) == u16_scan(d.take(k)),
    decreases d.len() - k,
{
    if k < d.len() {
        assert(d.take(k + 1).drop_last() =~= d.take(k));
        lemma_u16_scan_prefix_err(d, k + 1);
    } else {
        assert(d.take(k) =~= d);
    }
}

} // verus!
