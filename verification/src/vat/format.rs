//! VAT ID and Steuernummer format validation.
use vstd::prelude::*;
use vstd::utf8::{
    decode_utf8, encode_utf8, encode_utf8_decode_utf8, encode_utf8_valid_utf8,
    is_char_boundary_iff_not_is_continuation_byte, is_continuation_byte,
};
use vstd::string::StringSliceAdditionalSpecFns;
use crate::text::{
    all_digits, digit_char, is_digit, keep_digits, nat_str, push_char, push_str, string_of,
    trim_seq, trim_str, u64_to_string,
};

verus! {

/// Error returned when a VAT ID or Steuernummer fails format validation.
#[derive(Debug, Clone)]
pub struct VatFormatError {
    /// The invalid input value.
    pub value: String,
    /// Why the value failed validation.
    pub reason: String,
}

impl VatFormatError {
    /// The error's display text: `invalid VAT ID '{value}': {reason}`.
    pub fn display(&self) -> (r: String)
        ensures
            r@ == "invalid VAT ID '"@ + self.value@ + "': "@ + self.reason@,
    {
        let mut r = string_of("invalid VAT ID '");
        push_str(&mut r, self.value.as_str());
        push_str(&mut r, "': ");
        push_str(&mut r, self.reason.as_str());
        r
    }
}

pub open spec fn is_ascii_digit_b(b: u8) -> bool {
    48 <= b <= 57
}

pub open spec fn is_ascii_alpha_b(b: u8) -> bool {
    (65 <= b <= 90) || (97 <= b <= 122)
}

/// Every byte is an ASCII digit.
pub open spec fn digits_b(n: Seq<u8>) -> bool {
    forall|i: int| 0 <= i < n.len() ==> is_ascii_digit_b(#[trigger] n[i])
}

/// Every byte is an ASCII letter or digit.
pub open spec fn alnum_b(n: Seq<u8>) -> bool {
    forall|i: int| 0 <= i < n.len() ==> is_ascii_digit_b(#[trigger] n[i]) || is_ascii_alpha_b(n[i])
}

/// ASCII upper-casing of a byte.
pub open spec fn upper_byte(b: u8) -> u8 {
    if 97 <= b <= 122 {
        (b - 32) as u8
    } else {
        b
    }
}

/// A two-letter country key as bytes.
pub open spec fn key(a: char, b: char) -> (u8, u8) {
    (a as u8, b as u8)
}

/// The key a 2-byte country prefix is looked up by: its bytes upper-cased.
pub open spec fn country_key(c: Seq<u8>) -> (u8, u8) {
    (upper_byte(c[0]), upper_byte(c[1]))
}

/// Whether the number part `n` has the format of the country with key `k`;
/// `None` for a country that has no known format.
pub open spec fn number_rule(k: (u8, u8), n: Seq<u8>) -> Option<bool> {
    let len = n.len() as int;
    if k == key('A', 'T') {
        Some(len == 9 && n[0] == 85u8 && digits_b(n.subrange(1, len)))
    } else if k == key('B', 'E') {
        Some(len == 10 && digits_b(n))
    } else if k == key('B', 'G') {
        Some((len == 9 || len == 10) && digits_b(n))
    } else if k == key('C', 'Y') {
        Some(len == 9 && digits_b(n.subrange(0, 8)) && is_ascii_alpha_b(n[8]))
    } else if k == key('C', 'Z') {
        Some(8 <= len <= 10 && digits_b(n))
    } else if k == key('D', 'E') {
        Some(len == 9 && digits_b(n) && n[0] != 48u8)
    } else if k == key('D', 'K') {
        Some(len == 8 && digits_b(n))
    } else if k == key('E', 'E') {
        Some(len == 9 && digits_b(n))
    } else if k == key('E', 'L') {
        Some(len == 9 && digits_b(n))
    } else if k == key('E', 'S') {
        Some(len == 9 && alnum_b(n))
    } else if k == key('F', 'I') {
        Some(len == 8 && digits_b(n))
    } else if k == key('F', 'R') {
        Some(len == 11 && alnum_b(n.subrange(0, 2)) && digits_b(n.subrange(2, len)))
    } else if k == key('H', 'R') {
        Some(len == 11 && digits_b(n))
    } else if k == key('H', 'U') {
        Some(len == 8 && digits_b(n))
    } else if k == key('I', 'E') {
        Some((len == 8 || len == 9) && alnum_b(n))
    } else if k == key('I', 'T') {
        Some(len == 11 && digits_b(n))
    } else if k == key('L', 'T') {
        Some((len == 9 || len == 12) && digits_b(n))
    } else if k == key('L', 'U') {
        Some(len == 8 && digits_b(n))
    } else if k == key('L', 'V') {
        Some(len == 11 && digits_b(n))
    } else if k == key('M', 'T') {
        Some(len == 8 && digits_b(n))
    } else if k == key('N', 'L') {
        Some(len == 12 && digits_b(n.subrange(0, 9)) && n[9] == 66u8 && digits_b(n.subrange(10, len)))
    } else if k == key('P', 'L') {
        Some(len == 10 && digits_b(n))
    } else if k == key('P', 'T') {
        Some(len == 9 && digits_b(n))
    } else if k == key('R', 'O') {
        Some(2 <= len <= 10 && digits_b(n))
    } else if k == key('S', 'E') {
        Some(len == 12 && digits_b(n))
    } else if k == key('S', 'I') {
        Some(len == 8 && digits_b(n))
    } else if k == key('S', 'K') {
        Some(len == 10 && digits_b(n))
    } else if k == key('X', 'I') {
        Some(len == 9 && digits_b(n))
    } else {
        None
    }
}

/// The UTF-8 bytes of the trimmed identifier.
pub open spec fn trimmed_bytes(s: Seq<char>) -> Seq<u8> {
    encode_utf8(trim_seq(s))
}

/// Whether every byte offset at which the check slices the identifier lies
/// between two characters (elsewhere the slicing would panic).
pub open spec fn vat_format_sliceable(s: Seq<char>) -> bool {
    let b = trimmed_bytes(s);
    let n = b.subrange(2, b.len() as int);
    let k = country_key(b);
    b.len() >= 4 ==> {
        &&& !is_continuation_byte(b[2])
        &&& (k == key('C', 'Y') && n.len() == 9 ==> !is_continuation_byte(n[8]))
        &&& (k == key('F', 'R') && n.len() == 11 ==> !is_continuation_byte(n[2]))
        &&& (k == key('N', 'L') && n.len() == 12 ==> !is_continuation_byte(n[9]))
    }
}

/// The text of a two-letter key.
pub open spec fn key_text(k: (u8, u8)) -> Seq<char> {
    seq![k.0 as char, k.1 as char]
}

/// What `validate_vat_format` decides for an identifier: the split into
/// country and number bytes, or the reason it is refused.
pub open spec fn vat_format_outcome(s: Seq<char>) -> Result<(Seq<u8>, Seq<u8>), Seq<char>> {
    let b = trimmed_bytes(s);
    if b.len() < 4 {
        Err("too short — must be at least 4 characters"@)
    } else {
        let c = b.subrange(0, 2);
        let n = b.subrange(2, b.len() as int);
        match number_rule(country_key(c), n) {
            Some(true) => Ok((c, n)),
            Some(false) => Err("invalid format for country "@ + key_text(country_key(c))),
            None => Err("unknown country code '"@ + decode_utf8(c) + "'"@),
        }
    }
}

fn is_digit_byte(b: u8) -> (r: bool)
    ensures
        r == is_ascii_digit_b(b),
{
    48 <= b && b <= 57
}

fn is_alpha_byte(b: u8) -> (r: bool)
    ensures
        r == is_ascii_alpha_b(b),
{
    (65 <= b && b <= 90) || (97 <= b && b <= 122)
}

fn upper_byte_exec(b: u8) -> (r: u8)
    ensures
        r == upper_byte(b),
{
    if 97 <= b && b <= 122 {
        b - 32
    } else {
        b
    }
}

fn all_digits_b(n: &[u8], from: usize, to: usize) -> (r: bool)
    requires
        from <= to <= n@.len(),
    ensures
        r == digits_b(n@.subrange(from as int, to as int)),
{
    let mut i = from;
    while i < to
        invariant
            from <= i <= to <= n@.len(),
            forall|k: int| from <= k < i ==> is_ascii_digit_b(#[trigger] n@[k]),
        decreases to - i,
    {
        if !is_digit_byte(n[i]) {
            proof {
                assert(n@.subrange(from as int, to as int)[i - from] == n@[i as int]);
            }
            return false;
        }
        i = i + 1;
    }
    proof {
        assert forall|k: int| 0 <= k < to - from implies is_ascii_digit_b(
            #[trigger] n@.subrange(from as int, to as int)[k],
        ) by {
            assert(n@.subrange(from as int, to as int)[k] == n@[from + k]);
        }
    }
    true
}

fn all_alnum_b(n: &[u8], from: usize, to: usize) -> (r: bool)
    requires
        from <= to <= n@.len(),
    ensures
        r == alnum_b(n@.subrange(from as int, to as int)),
{
    let mut i = from;
    while i < to
        invariant
            from <= i <= to <= n@.len(),
            forall|k: int|
                from <= k < i ==> is_ascii_digit_b(#[trigger] n@[k]) || is_ascii_alpha_b(n@[k]),
        decreases to - i,
    {
        if !(is_digit_byte(n[i]) || is_alpha_byte(n[i])) {
            proof {
                assert(n@.subrange(from as int, to as int)[i - from] == n@[i as int]);
            }
            return false;
        }
        i = i + 1;
    }
    proof {
        assert forall|k: int| 0 <= k < to - from implies is_ascii_digit_b(
            #[trigger] n@.subrange(from as int, to as int)[k],
        ) || is_ascii_alpha_b(n@.subrange(from as int, to as int)[k]) by {
            assert(n@.subrange(from as int, to as int)[k] == n@[from + k]);
        }
    }
    true
}

fn number_rule_exec(k0: u8, k1: u8, n: &[u8]) -> (r: Option<bool>)
    ensures
        r == number_rule((k0, k1), n@),
{
    proof {
        assert(n@.subrange(0, n@.len() as int) =~= n@);
    }
    if k0 == 65u8 && k1 == 84u8 {
        Some(n.len() == 9 && n[0] == 85u8 && all_digits_b(n, 1, n.len()))
    } else if k0 == 66u8 && k1 == 69u8 {
        Some(n.len() == 10 && all_digits_b(n, 0, n.len()))
    } else if k0 == 66u8 && k1 == 71u8 {
        Some((n.len() == 9 || n.len() == 10) && all_digits_b(n, 0, n.len()))
    } else if k0 == 67u8 && k1 == 89u8 {
        Some(n.len() == 9 && all_digits_b(n, 0, 8) && is_alpha_byte(n[8]))
    } else if k0 == 67u8 && k1 == 90u8 {
        Some(8 <= n.len() && n.len() <= 10 && all_digits_b(n, 0, n.len()))
    } else if k0 == 68u8 && k1 == 69u8 {
        Some(n.len() == 9 && all_digits_b(n, 0, n.len()) && n[0] != 48u8)
    } else if k0 == 68u8 && k1 == 75u8 {
        Some(n.len() == 8 && all_digits_b(n, 0, n.len()))
    } else if k0 == 69u8 && k1 == 69u8 {
        Some(n.len() == 9 && all_digits_b(n, 0, n.len()))
    } else if k0 == 69u8 && k1 == 76u8 {
        Some(n.len() == 9 && all_digits_b(n, 0, n.len()))
    } else if k0 == 69u8 && k1 == 83u8 {
        Some(n.len() == 9 && all_alnum_b(n, 0, n.len()))
    } else if k0 == 70u8 && k1 == 73u8 {
        Some(n.len() == 8 && all_digits_b(n, 0, n.len()))
    } else if k0 == 70u8 && k1 == 82u8 {
        Some(n.len() == 11 && all_alnum_b(n, 0, 2) && all_digits_b(n, 2, n.len()))
    } else if k0 == 72u8 && k1 == 82u8 {
        Some(n.len() == 11 && all_digits_b(n, 0, n.len()))
    } else if k0 == 72u8 && k1 == 85u8 {
        Some(n.len() == 8 && all_digits_b(n, 0, n.len()))
    } else if k0 == 73u8 && k1 == 69u8 {
        Some((n.len() == 8 || n.len() == 9) && all_alnum_b(n, 0, n.len()))
    } else if k0 == 73u8 && k1 == 84u8 {
        Some(n.len() == 11 && all_digits_b(n, 0, n.len()))
    } else if k0 == 76u8 && k1 == 84u8 {
        Some((n.len() == 9 || n.len() == 12) && all_digits_b(n, 0, n.len()))
    } else if k0 == 76u8 && k1 == 85u8 {
        Some(n.len() == 8 && all_digits_b(n, 0, n.len()))
    } else if k0 == 76u8 && k1 == 86u8 {
        Some(n.len() == 11 && all_digits_b(n, 0, n.len()))
    } else if k0 == 77u8 && k1 == 84u8 {
        Some(n.len() == 8 && all_digits_b(n, 0, n.len()))
    } else if k0 == 78u8 && k1 == 76u8 {
        Some(n.len() == 12 && all_digits_b(n, 0, 9) && n[9] == 66u8 && all_digits_b(n, 10, n.len()))
    } else if k0 == 80u8 && k1 == 76u8 {
        Some(n.len() == 10 && all_digits_b(n, 0, n.len()))
    } else if k0 == 80u8 && k1 == 84u8 {
        Some(n.len() == 9 && all_digits_b(n, 0, n.len()))
    } else if k0 == 82u8 && k1 == 79u8 {
        Some(2 <= n.len() && n.len() <= 10 && all_digits_b(n, 0, n.len()))
    } else if k0 == 83u8 && k1 == 69u8 {
        Some(n.len() == 12 && all_digits_b(n, 0, n.len()))
    } else if k0 == 83u8 && k1 == 73u8 {
        Some(n.len() == 8 && all_digits_b(n, 0, n.len()))
    } else if k0 == 83u8 && k1 == 75u8 {
        Some(n.len() == 10 && all_digits_b(n, 0, n.len()))
    } else if k0 == 88u8 && k1 == 73u8 {
        Some(n.len() == 9 && all_digits_b(n, 0, n.len()))
    } else {
        None
    }
}

/// Validate a EU VAT ID by format (no network call).
///
/// The input must include the 2-letter country prefix (e.g. "DE123456789").
/// Returns the (country_code, number) split on success.
pub fn validate_vat_format(vat_id: &str) -> (r: Result<(&str, &str), VatFormatError>)
    requires
        vat_format_sliceable(vat_id@),
    ensures
        match (r, vat_format_outcome(vat_id@)) {
            (Ok((c, n)), Ok((cb, nb))) => c.spec_bytes() == cb && n.spec_bytes() == nb,
            (Err(e), Err(reason)) => e.value@ == trim_seq(vat_id@) && e.reason@ == reason,
            _ => false,
        },
{
    let t = trim_str(vat_id);
    let bytes = t.as_bytes();
    proof {
        encode_utf8_valid_utf8(t@);
    }
    if bytes.len() < 4 {
        return Err(
            VatFormatError {
                value: string_of(t),
                reason: string_of("too short — must be at least 4 characters"),
            },
        );
    }
    proof {
        is_char_boundary_iff_not_is_continuation_byte(bytes@, 2);
    }
    let (country, number) = t.split_at(2);
    let nb = number.as_bytes();
    let cb = country.as_bytes();
    let k0 = upper_byte_exec(bytes[0]);
    let k1 = upper_byte_exec(bytes[1]);
    proof {
        assert(cb@ =~= bytes@.subrange(0, 2));
        assert(nb@ =~= bytes@.subrange(2, bytes@.len() as int));
    }
    match number_rule_exec(k0, k1, nb) {
        Some(true) => Ok((country, number)),
        Some(false) => {
            let mut reason = string_of("invalid format for country ");
            push_char(&mut reason, k0 as char);
            push_char(&mut reason, k1 as char);
            proof {
                assert(reason@ =~= "invalid format for country "@ + key_text((k0, k1)));
            }
            Err(VatFormatError { value: string_of(t), reason })
        },
        None => {
            let mut reason = string_of("unknown country code '");
            push_str(&mut reason, country);
            push_str(&mut reason, "'");
            proof {
                encode_utf8_decode_utf8(country@);
            }
            Err(VatFormatError { value: string_of(t), reason })
        },
    }
}

/// The value of an ASCII digit.
pub open spec fn digit_value(c: char) -> int {
    c as int - '0' as int
}

/// The two-digit prefixes of the Bundesländer in the unified 13-digit format.
pub open spec fn known_tax_office_prefix(p: int) -> bool {
    p == 10 || p == 11 || p == 21 || p == 22 || p == 23 || p == 24 || p == 26 || p == 27 || p
        == 28 || p == 30 || p == 31 || p == 32 || p == 40 || p == 41 || (50 <= p <= 60)
}

/// What `validate_steuernummer` decides: the cleaned digits, or the reason
/// the number is refused.
pub open spec fn steuernummer_outcome(s: Seq<char>) -> Result<Seq<char>, Seq<char>> {
    let d = keep_digits(s);
    if d.len() == 13 {
        if known_tax_office_prefix(digit_value(d[0]) * 10 + digit_value(d[1])) {
            Ok(d)
        } else {
            Err("unknown Bundesland prefix '"@ + d.subrange(0, 2) + "'"@)
        }
    } else if 10 <= d.len() <= 11 {
        Ok(d)
    } else {
        Err("expected 13 digits (ELSTER) or 10-11 digits (legacy), got "@ + nat_str(d.len()))
    }
}

/// The ASCII digits of `s`, in order.
pub fn digits_of_str(s: &str) -> (r: Vec<char>)
    ensures
        r@ == keep_digits(s@),
{
    let v = crate::text::chars_of(s);
    let mut r: Vec<char> = Vec::new();
    let mut i: usize = 0;
    while i < v.len()
        invariant
            v@ == s@,
            i <= v.len(),
            r@ == keep_digits(v@.subrange(0, i as int)),
        decreases v.len() - i,
    {
        proof {
            assert(v@.subrange(0, i + 1).drop_last() =~= v@.subrange(0, i as int));
        }
        if crate::text::char_is_digit(v[i]) {
            r.push(v[i]);
        }
        i = i + 1;
    }
    proof {
        assert(v@.subrange(0, v.len() as int) =~= v@);
    }
    r
}

/// Every character kept by `keep_digits` is a digit.
pub proof fn lemma_keep_digits_digits(s: Seq<char>)
    ensures
        all_digits(keep_digits(s)),
    decreases s.len(),
{
    if s.len() > 0 {
        lemma_keep_digits_digits(s.drop_last());
    }
}

/// Validate a German Steuernummer (tax number) format.
///
/// Accepts both the unified 13-digit ELSTER format and common display formats
/// with slashes (e.g. "12/345/67890"). Returns the cleaned digits on success.
pub fn validate_steuernummer(stnr: &str) -> (r: Result<String, VatFormatError>)
    ensures
        match (r, steuernummer_outcome(stnr@)) {
            (Ok(d), Ok(ds)) => d@ == ds,
            (Err(e), Err(reason)) => e.value@ == stnr@ && e.reason@ == reason,
            _ => false,
        },
{
    let d = digits_of_str(stnr);
    proof {
        lemma_keep_digits_digits(stnr@);
    }
    let n = d.len();
    if n == 13 {
        let p = (d[0] as u32 - 48) * 10 + (d[1] as u32 - 48);
        proof {
            assert(is_digit(d@[0]) && is_digit(d@[1]));
        }
        if p == 10 || p == 11 || p == 21 || p == 22 || p == 23 || p == 24 || p == 26 || p == 27
            || p == 28 || p == 30 || p == 31 || p == 32 || p == 40 || p == 41 || (50 <= p && p
            <= 60) {
            return Ok(crate::text::string_from_chars(&d));
        }
        let mut reason = string_of("unknown Bundesland prefix '");
        push_char(&mut reason, d[0]);
        push_char(&mut reason, d[1]);
        push_str(&mut reason, "'");
        proof {
            assert(reason@ =~= "unknown Bundesland prefix '"@ + d@.subrange(0, 2) + "'"@);
        }
        return Err(VatFormatError { value: string_of(stnr), reason });
    }
    if 10 <= n && n <= 11 {
        return Ok(crate::text::string_from_chars(&d));
    }
    let mut reason = string_of("expected 13 digits (ELSTER) or 10-11 digits (legacy), got ");
    let count = u64_to_string(n as u64);
    push_str(&mut reason, count.as_str());
    Err(VatFormatError { value: string_of(stnr), reason })
}

} // verus!
