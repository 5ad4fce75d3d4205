//! Gapless invoice number sequences (`{prefix}{year}-{counter}`).
use vstd::prelude::*;
use crate::date::Date;
use crate::model::error::RechnungError;
use crate::text::{digit_char, digits_of, nat_str, pad_zeros, push_char, push_str, string_of, u64_to_string, zero_pad};

verus! {

/// The decimal rendering of a signed year (`i32` `Display`).
pub open spec fn int_str(y: int) -> Seq<char> {
    if y < 0 {
        seq!['-'] + nat_str((-y) as nat)
    } else {
        nat_str(y as nat)
    }
}

/// The invoice number `{prefix}{year}-{counter:0>width}`.
pub open spec fn number_text(prefix: Seq<char>, year: i32, counter: u64, width: usize) -> Seq<char> {
    prefix + int_str(year as int) + seq!['-'] + zero_pad(nat_str(counter as nat), width as nat)
}

/// Gapless invoice number sequence generator.
///
/// German tax law (§14 UStG, GoBD) requires gapless, sequential numbering.
/// This struct tracks the next number to issue.
#[derive(Debug)]
pub struct InvoiceNumberSequence {
    prefix: String,
    year: i32,
    next_number: u64,
    zero_pad: usize,
}

/// The state of a sequence: prefix, year, next counter, padding width.
pub type SequenceView = (Seq<char>, i32, u64, usize);

impl View for InvoiceNumberSequence {
    type V = SequenceView;

    closed spec fn view(&self) -> SequenceView {
        (self.prefix@, self.year, self.next_number, self.zero_pad)
    }
}

pub open spec fn next_text(s: SequenceView) -> Seq<char> {
    number_text(s.0, s.1, s.2, s.3)
}

fn int_to_string(y: i32) -> (r: String)
    ensures
        r@ == int_str(y as int),
{
    if y < 0 {
        let mut r = String::new();
        push_char(&mut r, '-');
        let digits = u64_to_string((-(y as i64)) as u64);
        push_str(&mut r, digits.as_str());
        proof {
            assert(r@ =~= seq!['-'] + nat_str((-y) as nat));
        }
        r
    } else {
        u64_to_string(y as u64)
    }
}

impl InvoiceNumberSequence {
    /// Create a new sequence starting at 1.
    pub fn new(prefix: &str, year: i32) -> (r: InvoiceNumberSequence)
        ensures
            r@ == (prefix@, year, 1u64, 3usize),
    {
        InvoiceNumberSequence { prefix: string_of(prefix), year, next_number: 1, zero_pad: 3 }
    }

    /// Create a sequence continuing from a given number.
    pub fn starting_at(prefix: &str, year: i32, next_number: u64) -> (r: InvoiceNumberSequence)
        ensures
            r@ == (prefix@, year, next_number, 3usize),
    {
        InvoiceNumberSequence { prefix: string_of(prefix), year, next_number, zero_pad: 3 }
    }

    /// Set zero-padding width (default: 3, so "001").
    pub fn with_padding(self, width: usize) -> (r: InvoiceNumberSequence)
        ensures
            r@ == (self@.0, self@.1, self@.2, width),
    {
        InvoiceNumberSequence { zero_pad: width, ..self }
    }

    fn format_number(&self, num: u64) -> (r: String)
        ensures
            r@ == number_text(self@.0, self@.1, num, self@.3),
    {
        let mut r = self.prefix.clone();
        push_str(&mut r, int_to_string(self.year).as_str());
        push_char(&mut r, '-');
        push_str(&mut r, pad_zeros(&u64_to_string(num), self.zero_pad).as_str());
        r
    }

    /// Generate the next invoice number and move the counter on by one.
    pub fn next_number(&mut self) -> (r: String)
        requires
            old(self)@.2 < u64::MAX,
        ensures
            r@ == next_text(old(self)@),
            final(self)@ == (old(self)@.0, old(self)@.1, (old(self)@.2 + 1) as u64, old(self)@.3),
    {
        let num = self.next_number;
        self.next_number = self.next_number + 1;
        let r = self.format_number(num);
        r
    }

    /// Preview the next number without consuming it.
    pub fn peek(&self) -> (r: String)
        ensures
            r@ == next_text(self@),
    {
        self.format_number(self.next_number)
    }

    /// The current year of the sequence.
    pub fn year(&self) -> (r: i32)
        ensures
            r == self@.1,
    {
        self.year
    }

    /// The next counter value that will be issued.
    pub fn next_raw(&self) -> (r: u64)
        ensures
            r == self@.2,
    {
        self.next_number
    }

    /// Advance to a new year, resetting the counter to 1.
    pub fn advance_year(&mut self, new_year: i32) -> (r: Result<(), RechnungError>)
        ensures
            r is Err <==> new_year <= old(self)@.1,
            r is Err ==> final(self)@ == old(self)@,
            r is Ok ==> final(self)@ == (old(self)@.0, new_year, 1u64, old(self)@.3),
            r matches Err(e) ==> e matches RechnungError::Numbering(m) && m@ == "new year "@
                + int_str(new_year as int) + " must be greater than current year "@ + int_str(
                old(self)@.1 as int,
            ),
    {
        if new_year <= self.year {
            let mut m = string_of("new year ");
            push_str(&mut m, int_to_string(new_year).as_str());
            push_str(&mut m, " must be greater than current year ");
            push_str(&mut m, int_to_string(self.year).as_str());
            return Err(RechnungError::Numbering(m));
        }
        self.year = new_year;
        self.next_number = 1;
        Ok(())
    }

    /// Auto-advance the year if `date` lies in a later year; returns whether it did.
    pub fn auto_advance(&mut self, date: Date) -> (r: bool)
        ensures
            r == (date@.0 > old(self)@.1),
            r ==> final(self)@ == (old(self)@.0, date@.0, 1u64, old(self)@.3),
            !r ==> final(self)@ == old(self)@,
    {
        let date_year = date.year();
        if date_year > self.year {
            self.year = date_year;
            self.next_number = 1;
            true
        } else {
            false
        }
    }
}

/// The number a string of decimal digits denotes.
pub open spec fn digits_value(s: Seq<char>) -> int
    decreases s.len(),
{
    if s.len() == 0 {
        0
    } else {
        digits_value(s.drop_last()) * 10 + (s.last() as int - '0' as int)
    }
}

proof fn lemma_digits_of(n: nat)
    ensures
        digits_value(digits_of(n)) == n,
        n > 0 ==> digits_of(n).len() > 0 && digits_of(n)[0] != '0',
    decreases n,
{
    if n > 0 {
        lemma_digits_of(n / 10);
        let d = digits_of(n);
        assert(d.drop_last() =~= digits_of(n / 10));
        assert(digit_char((n % 10) as nat) as int == '0' as int + n % 10);
        if n / 10 == 0 {
            assert(d.len() == 1);
            assert(d[0] == digit_char((n % 10) as nat));
        } else {
            assert(d[0] == digits_of(n / 10)[0]);
        }
    }
}

/// The rendering of a counter: its value, no leading zero but for `0` itself.
proof fn lemma_nat_str(n: nat)
    ensures
        digits_value(nat_str(n)) == n,
        nat_str(n).len() > 0,
        nat_str(n).len() > 1 ==> nat_str(n)[0] != '0',
{
    lemma_digits_of(n);
    if n == 0 {
        assert(digits_value(seq!['0']) == 0) by {
            assert(seq!['0'].drop_last() =~= Seq::<char>::empty());
        }
    }
}

/// Padded renderings of different counters differ.
pub proof fn lemma_padded_counter_injective(a: nat, b: nat, w: nat)
    requires
        a != b,
    ensures
        zero_pad(nat_str(a), w) != zero_pad(nat_str(b), w),
{
    lemma_nat_str(a);
    lemma_nat_str(b);
    let x = nat_str(a);
    let y = nat_str(b);
    let px = zero_pad(x, w);
    let py = zero_pad(y, w);
    if px == py {
        if x.len() == y.len() {
            if x.len() < w {
                assert(x =~= px.skip(w - x.len()));
                assert(y =~= py.skip(w - y.len()));
            }
            assert(x == y);
        } else if x.len() < y.len() {
            // y is x with leading zeros, so y starts with '0' and is longer than one digit
            assert(py.len() >= y.len());
            if y.len() >= w {
                assert(py == y);
                assert(px[0] == '0');
            } else {
                assert(px[0] == '0');
                assert(py[(w - y.len()) as int] == y[0]);
                assert(px[(w - y.len()) as int] == '0');
            }
        } else {
            if x.len() >= w {
                assert(px == x);
                assert(py[0] == '0');
            } else {
                assert(py[(w - x.len()) as int] == '0');
                assert(px[(w - x.len()) as int] == x[0]);
            }
        }
    }
}

/// Numbers are never issued twice: within a sequence's prefix, year and
/// padding, different counters give different invoice numbers.
pub proof fn lemma_numbers_distinct(prefix: Seq<char>, year: i32, w: usize, a: u64, b: u64)
    requires
        a != b,
    ensures
        number_text(prefix, year, a, w) != number_text(prefix, year, b, w),
{
    let head = prefix + int_str(year as int) + seq!['-'];
    lemma_padded_counter_injective(a as nat, b as nat, w as nat);
    let pa = zero_pad(nat_str(a as nat), w as nat);
    let pb = zero_pad(nat_str(b as nat), w as nat);
    if number_text(prefix, year, a, w) == number_text(prefix, year, b, w) {
        assert(number_text(prefix, year, a, w) =~= head + pa);
        assert(number_text(prefix, year, b, w) =~= head + pb);
        assert(pa =~= (head + pa).skip(head.len() as int));
        assert(pb =~= (head + pb).skip(head.len() as int));
    }
}

} // verus!
