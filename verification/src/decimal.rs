//! Exact decimal numbers for money, quantities and rates.
//!
//! A [`Dec`] holds what a `rust_decimal::Decimal` holds: a signed mantissa
//! below 2^96 in magnitude and a scale of at most 28; its value is
//! `mantissa / 10^scale`. Addition, subtraction, multiplication, division and
//! comparison are computed by `rust_decimal`; rounding, normalisation and
//! rendering are written and proved here against their few-line definitions.
use vstd::prelude::*;
use crate::text::{digit_char, digits_of, push_str, string_from_chars, zero_pad};

verus! {

/// Largest mantissa magnitude a decimal can hold (2^96 - 1).
pub open spec fn max_mantissa() -> int {
    79228162514264337593543950335
}

pub open spec fn pow10(n: nat) -> int
    decreases n,
{
    if n == 0 {
        1
    } else {
        10 * pow10((n - 1) as nat)
    }
}

pub open spec fn abs_int(x: int) -> nat {
    if x < 0 {
        (-x) as nat
    } else {
        x as nat
    }
}

/// A decimal number `mantissa / 10^scale`, always representable by
/// `rust_decimal::Decimal` (its type invariant).
#[derive(Clone, Copy, Debug)]
pub struct Dec {
    mantissa: i128,
    scale: u32,
}

impl View for Dec {
    type V = (i128, u32);

    closed spec fn view(&self) -> (i128, u32) {
        (self.mantissa, self.scale)
    }
}

/// What a `rust_decimal::Decimal` can represent.
pub open spec fn dec_wf(d: (i128, u32)) -> bool {
    d.1 <= 28 && -max_mantissa() <= d.0 <= max_mantissa()
}

impl Dec {
    #[verifier::type_invariant]
    spec fn inv(self) -> bool {
        dec_wf((self.mantissa, self.scale))
    }

    /// `Decimal::new(num, scale)`.
    pub fn new(num: i64, scale: u32) -> (r: Dec)
        requires
            scale <= 28,
        ensures
            r@ == (num as i128, scale),
    {
        Dec { mantissa: num as i128, scale }
    }

    /// `Decimal::from_i128_with_scale(num, scale)`.
    pub fn from_i128_with_scale(num: i128, scale: u32) -> (r: Dec)
        requires
            dec_wf((num, scale)),
        ensures
            r@ == (num, scale),
    {
        Dec { mantissa: num, scale }
    }

    /// `Decimal::try_from_i128_with_scale(num, scale).ok()`.
    pub fn try_from_i128_with_scale(num: i128, scale: u32) -> (r: Option<Dec>)
        ensures
            r matches Some(d) ==> d@ == (num, scale),
            r is Some <==> dec_wf((num, scale)),
    {
        if scale <= 28 && -79228162514264337593543950335 <= num && num
            <= 79228162514264337593543950335 {
            Some(Dec { mantissa: num, scale })
        } else {
            None
        }
    }

    /// `Decimal::mantissa`.
    pub fn mantissa(&self) -> (r: i128)
        ensures
            r == self@.0,
    {
        self.mantissa
    }

    /// `Decimal::scale`.
    pub fn scale(&self) -> (r: u32)
        ensures
            r == self@.1,
    {
        self.scale
    }

    /// `Decimal::ZERO`.
    pub fn zero() -> (r: Dec)
        ensures
            r@ == (0i128, 0u32),
    {
        Dec { mantissa: 0, scale: 0 }
    }

    /// `Decimal::is_zero`.
    pub fn is_zero(&self) -> (r: bool)
        ensures
            r == (self@.0 == 0),
    {
        self.mantissa == 0
    }

    /// `Decimal::is_sign_negative` (a zero is never negative here).
    pub fn is_sign_negative(&self) -> (r: bool)
        ensures
            r == (self@.0 < 0),
    {
        self.mantissa < 0
    }

    /// `Decimal::abs`.
    pub fn abs(&self) -> (r: Dec)
        ensures
            r@ == abs_spec(self@),
    {
        proof {
            use_type_invariant(self);
        }
        if self.mantissa < 0 {
            Dec { mantissa: -self.mantissa, scale: self.scale }
        } else {
            *self
        }
    }
}

pub open spec fn abs_spec(d: (i128, u32)) -> (i128, u32) {
    (abs_int(d.0 as int) as i128, d.1)
}

/// The order of the values `a` and `b`: -1, 0 or 1.
pub open spec fn order_spec(a: (i128, u32), b: (i128, u32)) -> int {
    let l = a.0 as int * pow10(b.1 as nat);
    let r = b.0 as int * pow10(a.1 as nat);
    if l < r {
        -1
    } else if l == r {
        0
    } else {
        1
    }
}

/// `a` and `b` denote the same number (`Decimal` equality).
pub open spec fn value_eq(a: (i128, u32), b: (i128, u32)) -> bool {
    order_spec(a, b) == 0
}

pub open spec fn value_lt(a: (i128, u32), b: (i128, u32)) -> bool {
    order_spec(a, b) == -1
}

pub open spec fn value_le(a: (i128, u32), b: (i128, u32)) -> bool {
    order_spec(a, b) <= 0
}

pub proof fn lemma_pow10_pos(n: nat)
    ensures
        pow10(n) >= 1,
    decreases n,
{
    if n > 0 {
        lemma_pow10_pos((n - 1) as nat);
    }
}

/// Comparison is reflexive: every decimal equals itself.
pub proof fn lemma_value_eq_refl(a: (i128, u32))
    ensures
        value_eq(a, a),
{
}

/// Value equality is symmetric and transitive.
pub proof fn lemma_value_eq_trans(a: (i128, u32), b: (i128, u32), c: (i128, u32))
    requires
        value_eq(a, b),
        value_eq(b, c),
    ensures
        value_eq(a, c),
        value_eq(b, a),
{
    let pa = pow10(a.1 as nat);
    let pb = pow10(b.1 as nat);
    let pc = pow10(c.1 as nat);
    lemma_pow10_pos(a.1 as nat);
    lemma_pow10_pos(b.1 as nat);
    lemma_pow10_pos(c.1 as nat);
    let (x, y, z) = (a.0 as int, b.0 as int, c.0 as int);
    assert((x * pc - z * pa) * pb == 0) by (nonlinear_arith)
        requires
            x * pb == y * pa,
            y * pc == z * pb,
    {
        assert(x * pc * pb == y * pa * pc);
        assert(z * pa * pb == y * pc * pa);
    }
    assert(x * pc == z * pa) by (nonlinear_arith)
        requires
            (x * pc - z * pa) * pb == 0,
            pb >= 1,
    ;
}

/// Compares two decimals by value (`Ord::cmp` of `rust_decimal::Decimal`).
/// The contract claims the result is the sign of `a - b` as rational numbers.
#[verifier::external_body]
pub(crate) fn compare(a: &Dec, b: &Dec) -> (r: i8)
    ensures
        r == order_spec(a@, b@),
{
    let x = rust_decimal::Decimal::from_i128_with_scale(a.mantissa, a.scale);
    let y = rust_decimal::Decimal::from_i128_with_scale(b.mantissa, b.scale);
    match x.cmp(&y) {
        core::cmp::Ordering::Less => -1,
        core::cmp::Ordering::Equal => 0,
        core::cmp::Ordering::Greater => 1,
    }
}

/// Value equality (`==` of `rust_decimal::Decimal`).
pub fn eq(a: &Dec, b: &Dec) -> (r: bool)
    ensures
        r == value_eq(a@, b@),
{
    compare(a, b) == 0
}

/// `a < b` by value.
pub fn lt(a: &Dec, b: &Dec) -> (r: bool)
    ensures
        r == value_lt(a@, b@),
{
    compare(a, b) == -1
}

/// `a <= b` by value.
pub fn le(a: &Dec, b: &Dec) -> (r: bool)
    ensures
        r == value_le(a@, b@),
{
    compare(a, b) <= 0
}

/// The result of `rust_decimal::Decimal::checked_add` on the given representations.
pub uninterp spec fn decimal_checked_add(a: (i128, u32), b: (i128, u32)) -> Option<(i128, u32)>;

/// The result of `rust_decimal::Decimal::checked_sub` on the given representations.
pub uninterp spec fn decimal_checked_sub(a: (i128, u32), b: (i128, u32)) -> Option<(i128, u32)>;

/// The result of `rust_decimal::Decimal::checked_mul` on the given representations.
pub uninterp spec fn decimal_checked_mul(a: (i128, u32), b: (i128, u32)) -> Option<(i128, u32)>;

/// The result of `rust_decimal::Decimal::checked_div` on the given representations.
pub uninterp spec fn decimal_checked_div(a: (i128, u32), b: (i128, u32)) -> Option<(i128, u32)>;

/// `z` denotes the number `m / 10^s`.
pub open spec fn denotes(z: (i128, u32), m: int, s: nat) -> bool {
    z.0 as int * pow10(s) == m * pow10(z.1 as nat)
}

/// 2^96: the mantissas of `rust_decimal` lie below it.
pub open spec fn mantissa_bound() -> int {
    0x1_0000_0000_0000_0000_0000_0000
}

/// The larger of two scales.
pub open spec fn max_scale(a: (i128, u32), b: (i128, u32)) -> nat {
    if a.1 >= b.1 {
        a.1 as nat
    } else {
        b.1 as nat
    }
}

/// A mantissa brought to a larger scale.
pub open spec fn aligned(a: (i128, u32), s: nat) -> int {
    a.0 as int * pow10((s - a.1) as nat)
}

/// Both operands, brought to the larger scale, and `m`, fit in 96 bits.
pub open spec fn fits_aligned(a: (i128, u32), b: (i128, u32), m: int) -> bool {
    let s = max_scale(a, b);
    &&& abs_int(aligned(a, s)) < mantissa_bound()
    &&& abs_int(aligned(b, s)) < mantissa_bound()
    &&& abs_int(m) < mantissa_bound()
}

pub open spec fn opt_view(o: Option<Dec>) -> Option<(i128, u32)> {
    match o {
        Some(d) => Some(d@),
        None => None,
    }
}

/// Sum by `rust_decimal::Decimal::checked_add`; `None` on overflow. The result
/// is a function of the two representations; where both operands at the
/// larger scale and their sum fit in 96 bits, the sum is exact. Rounding on
/// loss of precision is left unsaid.
#[verifier::external_body]
pub(crate) fn checked_add(a: Dec, b: Dec) -> (r: Option<Dec>)
    ensures
        opt_view(r) == decimal_checked_add(a@, b@),
        r is Some || !fits_aligned(a@, b@, aligned(a@, max_scale(a@, b@)) + aligned(b@, max_scale(a@, b@))),
        r matches Some(z) ==> (fits_aligned(a@, b@, aligned(a@, max_scale(a@, b@)) + aligned(b@, max_scale(a@, b@)))
            ==> denotes(z@, aligned(a@, max_scale(a@, b@)) + aligned(b@, max_scale(a@, b@)), max_scale(a@, b@))),
{
    let x = rust_decimal::Decimal::from_i128_with_scale(a.mantissa, a.scale);
    let y = rust_decimal::Decimal::from_i128_with_scale(b.mantissa, b.scale);
    match x.checked_add(y) {
        Some(z) => Some(Dec { mantissa: z.mantissa(), scale: z.scale() }),
        None => None,
    }
}

/// Difference by `rust_decimal::Decimal::checked_sub`; `None` on overflow. The
/// result is a function of the two representations; where both operands at
/// the larger scale and their difference fit in 96 bits, it is exact.
#[verifier::external_body]
pub(crate) fn checked_sub(a: Dec, b: Dec) -> (r: Option<Dec>)
    ensures
        opt_view(r) == decimal_checked_sub(a@, b@),
        r is Some || !fits_aligned(a@, b@, aligned(a@, max_scale(a@, b@)) - aligned(b@, max_scale(a@, b@))),
        r matches Some(z) ==> (fits_aligned(a@, b@, aligned(a@, max_scale(a@, b@)) - aligned(b@, max_scale(a@, b@)))
            ==> denotes(z@, aligned(a@, max_scale(a@, b@)) - aligned(b@, max_scale(a@, b@)), max_scale(a@, b@))),
{
    let x = rust_decimal::Decimal::from_i128_with_scale(a.mantissa, a.scale);
    let y = rust_decimal::Decimal::from_i128_with_scale(b.mantissa, b.scale);
    match x.checked_sub(y) {
        Some(z) => Some(Dec { mantissa: z.mantissa(), scale: z.scale() }),
        None => None,
    }
}

/// Product by `rust_decimal::Decimal::checked_mul`; `None` on overflow. The
/// result is a function of the two representations; where the scales add up
/// to at most 28 and the product of the mantissas fits in 96 bits, it is
/// exact.
#[verifier::external_body]
pub(crate) fn checked_mul(a: Dec, b: Dec) -> (r: Option<Dec>)
    ensures
        opt_view(r) == decimal_checked_mul(a@, b@),
        r is Some || !(a@.1 + b@.1 <= 28 && abs_int(a@.0 * b@.0) < mantissa_bound()),
        r matches Some(z) ==> (a@.1 + b@.1 <= 28 && abs_int(a@.0 * b@.0) < mantissa_bound() ==> denotes(
            z@,
            a@.0 * b@.0,
            (a@.1 + b@.1) as nat,
        )),
{
    let x = rust_decimal::Decimal::from_i128_with_scale(a.mantissa, a.scale);
    let y = rust_decimal::Decimal::from_i128_with_scale(b.mantissa, b.scale);
    match x.checked_mul(y) {
        Some(z) => Some(Dec { mantissa: z.mantissa(), scale: z.scale() }),
        None => None,
    }
}

/// Quotient by `rust_decimal::Decimal::checked_div`; `None` on overflow or a zero
/// divisor. The contract claims only that the result is a function of the two
/// representations and is itself representable.
#[verifier::external_body]
pub(crate) fn checked_div(a: Dec, b: Dec) -> (r: Option<Dec>)
    ensures
        opt_view(r) == decimal_checked_div(a@, b@),
{
    let x = rust_decimal::Decimal::from_i128_with_scale(a.mantissa, a.scale);
    let y = rust_decimal::Decimal::from_i128_with_scale(b.mantissa, b.scale);
    match x.checked_div(y) {
        Some(z) => Some(Dec { mantissa: z.mantissa(), scale: z.scale() }),
        None => None,
    }
}

/// Rounds a magnitude to `k` fewer decimal places: up when the dropped part is
/// more than half, and at exactly half either away from zero (`away`) or to
/// the even neighbour.
pub open spec fn round_mag(mag: nat, k: nat, away: bool) -> nat {
    let p = pow10(k);
    let q = (mag as int) / p;
    let r = (mag as int) % p;
    if 2 * r > p || (2 * r == p && (away || q % 2 == 1)) {
        (q + 1) as nat
    } else {
        q as nat
    }
}

/// `round_dp_with_strategy(dp, s)` for `MidpointAwayFromZero` (`away`) or
/// `MidpointNearestEven` (`!away`).
pub open spec fn round_spec(d: (i128, u32), dp: u32, away: bool) -> (i128, u32) {
    if d.1 <= dp {
        d
    } else {
        let q = round_mag(abs_int(d.0 as int), (d.1 - dp) as nat, away);
        ((if d.0 < 0 {
            -(q as int)
        } else {
            q as int
        }) as i128, dp)
    }
}

/// `round_dp(dp)`: banker's rounding.
pub open spec fn round_dp_spec(d: (i128, u32), dp: u32) -> (i128, u32) {
    round_spec(d, dp, false)
}

/// Half-up (commercial) rounding: `MidpointAwayFromZero`.
pub open spec fn round_half_up_spec(d: (i128, u32), dp: u32) -> (i128, u32) {
    round_spec(d, dp, true)
}

pub proof fn lemma_pow10_mono(a: nat, b: nat)
    requires
        a <= b,
    ensures
        pow10(a) <= pow10(b),
    decreases b,
{
    if a < b {
        lemma_pow10_mono(a, (b - 1) as nat);
        lemma_pow10_pos((b - 1) as nat);
    }
}

pub proof fn lemma_pow10_28()
    ensures
        pow10(28) == 10000000000000000000000000000,
{
    reveal_with_fuel(pow10, 30);
}

/// `10^k` as an exact integer.
pub fn pow10_exec(k: u32) -> (r: i128)
    requires
        k <= 28,
    ensures
        r == pow10(k as nat),
        r >= 1,
        r <= 10000000000000000000000000000,
{
    let mut r: i128 = 1;
    let mut i: u32 = 0;
    while i < k
        invariant
            i <= k <= 28,
            r == pow10(i as nat),
        decreases k - i,
    {
        proof {
            lemma_pow10_mono((i + 1) as nat, 28);
            lemma_pow10_28();
            assert(pow10((i + 1) as nat) == 10 * pow10(i as nat));
            assert(r * 10 <= 10000000000000000000000000000);
            lemma_pow10_pos(i as nat);
        }
        r = r * 10;
        i = i + 1;
    }
    proof {
        lemma_pow10_pos(k as nat);
        lemma_pow10_mono(k as nat, 28);
        lemma_pow10_28();
    }
    r
}

/// Rounds to `dp` decimal places: `MidpointAwayFromZero` when `away`,
/// otherwise `MidpointNearestEven`.
pub fn round_with(d: Dec, dp: u32, away: bool) -> (r: Dec)
    ensures
        r@ == round_spec(d@, dp, away),
{
    proof {
        use_type_invariant(&d);
    }
    if d.scale <= dp {
        return d;
    }
    let k = d.scale - dp;
    let p = pow10_exec(k);
    let neg = d.mantissa < 0;
    let mag: i128 = if neg {
        -d.mantissa
    } else {
        d.mantissa
    };
    let q = mag / p;
    let rem = mag % p;
    let up = 2 * rem > p || (2 * rem == p && (away || q % 2 == 1));
    proof {
        lemma_pow10_mono(1, k as nat);
        assert(pow10(1) == 10 * pow10(0));
        assert(q <= mag / 10) by (nonlinear_arith)
            requires
                q == mag / p,
                p >= 10,
                mag >= 0,
        ;
        assert(rem < p);
    }
    let q2: i128 = if up {
        q + 1
    } else {
        q
    };
    Dec { mantissa: if neg { -q2 } else { q2 }, scale: dp }
}

/// `round_dp(dp)` (banker's rounding).
pub fn round_dp(d: Dec, dp: u32) -> (r: Dec)
    ensures
        r@ == round_dp_spec(d@, dp),
{
    round_with(d, dp, false)
}

/// Commercial rounding to `dp` places (`MidpointAwayFromZero`).
pub fn round_half_up(d: Dec, dp: u32) -> (r: Dec)
    ensures
        r@ == round_half_up_spec(d@, dp),
{
    round_with(d, dp, true)
}

/// `normalize`: trailing zeros of the fraction removed, zero at scale 0.
pub open spec fn normalize_spec(d: (i128, u32)) -> (i128, u32)
    decreases d.1,
{
    if d.0 == 0 {
        (0i128, 0u32)
    } else if d.1 == 0 || d.0 % 10 != 0 {
        d
    } else {
        normalize_spec(((d.0 / 10) as i128, (d.1 - 1) as u32))
    }
}

pub fn normalize(d: Dec) -> (r: Dec)
    ensures
        r@ == normalize_spec(d@),
{
    proof {
        use_type_invariant(&d);
    }
    if d.mantissa == 0 {
        return Dec { mantissa: 0, scale: 0 };
    }
    let mut m = d.mantissa;
    let mut s = d.scale;
    while s > 0 && m % 10 == 0
        invariant
            m != 0,
            s <= d.scale,
            dec_wf((m, s)),
            normalize_spec((m, s)) == normalize_spec(d@),
        decreases s,
    {
        proof {
            assert((m as int) % 10 == 0);
        }
        m = m / 10;
        s = s - 1;
    }
    proof {
        if s > 0 {
            assert((m as int) % 10 != 0);
        }
    }
    Dec { mantissa: m, scale: s }
}

/// `Display` of a `rust_decimal::Decimal` without precision: the digits of the
/// mantissa with a point before the last `scale` of them, a leading `0` when no
/// whole digit remains, and `-` for a negative value.
pub open spec fn display_spec(d: (i128, u32)) -> Seq<char> {
    let padded = zero_pad(digits_of(abs_int(d.0 as int)), d.1 as nat);
    let wl = padded.len() - d.1;
    let whole = padded.subrange(0, wl);
    let frac = padded.subrange(wl, padded.len() as int);
    (if d.0 < 0 {
        seq!['-']
    } else {
        seq![]
    }) + (if wl == 0 {
        seq!['0']
    } else {
        whole
    }) + (if d.1 > 0 {
        seq!['.'] + frac
    } else {
        seq![]
    })
}

/// `format!("{:.p$}", d)` for a `rust_decimal::Decimal`: the whole part as in
/// [`display_spec`], then exactly `p` fraction digits, cut or filled with `0`.
pub open spec fn display_prec_spec(d: (i128, u32), p: nat) -> Seq<char> {
    let padded = zero_pad(digits_of(abs_int(d.0 as int)), d.1 as nat);
    let wl = padded.len() - d.1;
    let whole = padded.subrange(0, wl);
    let frac = Seq::new(p, |j: int| if wl + j < padded.len() { padded[wl + j] } else { '0' });
    (if d.0 < 0 {
        seq!['-']
    } else {
        seq![]
    }) + (if wl == 0 {
        seq!['0']
    } else {
        whole
    }) + (if p > 0 {
        seq!['.'] + frac
    } else {
        seq![]
    })
}

/// The digits of `n` (no leading zeros, empty for 0).
pub fn digits_u128(n: u128) -> (r: Vec<char>)
    ensures
        r@ == digits_of(n as nat),
{
    let mut acc: Vec<char> = Vec::new();
    let mut rem: u128 = n;
    while rem > 0
        invariant
            digits_of(rem as nat) + acc@ == digits_of(n as nat),
        decreases rem,
    {
        let d = rem % 10;
        let c = ((48 + d) as u8) as char;
        proof {
            assert(c == digit_char(d as nat));
            assert(digits_of(rem as nat) == digits_of((rem / 10) as nat).push(c));
            assert(digits_of((rem / 10) as nat) + seq![c].add(acc@) =~= digits_of(
                (rem / 10) as nat,
            ).push(c) + acc@);
        }
        acc.insert(0, c);
        rem = rem / 10;
    }
    proof {
        assert(digits_of(0) =~= Seq::<char>::empty());
        assert(acc@ =~= digits_of(n as nat));
    }
    acc
}

/// `v` left-padded with `'0'` to at least `width` characters.
pub fn pad_vec(v: Vec<char>, width: usize) -> (r: Vec<char>)
    ensures
        r@ == zero_pad(v@, width as nat),
{
    if v.len() >= width {
        return v;
    }
    let mut r: Vec<char> = Vec::new();
    let mut i: usize = 0;
    let k = width - v.len();
    while i < k
        invariant
            k == width - v@.len(),
            i <= k,
            r@ == Seq::new(i as nat, |j: int| '0'),
        decreases k - i,
    {
        r.push('0');
        i = i + 1;
        proof {
            assert(r@ =~= Seq::new(i as nat, |j: int| '0'));
        }
    }
    let mut j: usize = 0;
    while j < v.len()
        invariant
            k == width - v@.len(),
            j <= v.len(),
            r@ == Seq::new(k as nat, |t: int| '0') + v@.subrange(0, j as int),
        decreases v.len() - j,
    {
        r.push(v[j]);
        j = j + 1;
        proof {
            assert(r@ =~= Seq::new(k as nat, |t: int| '0') + v@.subrange(0, j as int));
        }
    }
    proof {
        assert(v@.subrange(0, v.len() as int) =~= v@);
    }
    r
}

fn magnitude(d: &Dec) -> (r: u128)
    ensures
        r as nat == abs_int(d.mantissa as int),
{
    proof {
        use_type_invariant(d);
    }
    if d.mantissa < 0 {
        (-d.mantissa) as u128
    } else {
        d.mantissa as u128
    }
}

/// The rendering of `d` by `Display` (`d.to_string()`).
pub fn to_display_string(d: &Dec) -> (r: String)
    ensures
        r@ == display_spec(d@),
{
    proof {
        use_type_invariant(d);
    }
    let digits = digits_u128(magnitude(d));
    let padded = pad_vec(digits, d.scale as usize);
    let s = d.scale as usize;
    let wl = padded.len() - s;
    let mut out: Vec<char> = Vec::new();
    if d.mantissa < 0 {
        out.push('-');
    }
    let ghost sign = out@;
    if wl == 0 {
        out.push('0');
    } else {
        let mut i: usize = 0;
        while i < wl
            invariant
                wl <= padded.len(),
                i <= wl,
                out@ == sign + padded@.subrange(0, i as int),
            decreases wl - i,
        {
            out.push(padded[i]);
            i = i + 1;
            proof {
                assert(out@ =~= sign + padded@.subrange(0, i as int));
            }
        }
    }
    let ghost head = out@;
    if s > 0 {
        out.push('.');
        let mut i: usize = wl;
        while i < padded.len()
            invariant
                wl <= i <= padded.len(),
                out@ == head + seq!['.'] + padded@.subrange(wl as int, i as int),
            decreases padded.len() - i,
        {
            out.push(padded[i]);
            i = i + 1;
            proof {
                assert(out@ =~= head + seq!['.'] + padded@.subrange(wl as int, i as int));
            }
        }
    }
    proof {
        let ps = padded@;
        assert(out@ =~= display_spec(d@));
    }
    string_from_chars(&out)
}

/// The rendering of `d` by `format!("{:.p$}", d)`.
pub fn to_fixed_string(d: &Dec, p: usize) -> (r: String)
    ensures
        r@ == display_prec_spec(d@, p as nat),
{
    proof {
        use_type_invariant(d);
    }
    let digits = digits_u128(magnitude(d));
    let padded = pad_vec(digits, d.scale as usize);
    let s = d.scale as usize;
    let wl = padded.len() - s;
    let mut out: Vec<char> = Vec::new();
    if d.mantissa < 0 {
        out.push('-');
    }
    let ghost sign = out@;
    if wl == 0 {
        out.push('0');
    } else {
        let mut i: usize = 0;
        while i < wl
            invariant
                wl <= padded.len(),
                i <= wl,
                out@ == sign + padded@.subrange(0, i as int),
            decreases wl - i,
        {
            out.push(padded[i]);
            i = i + 1;
            proof {
                assert(out@ =~= sign + padded@.subrange(0, i as int));
            }
        }
    }
    let ghost head = out@;
    let ghost frac = Seq::new(
        p as nat,
        |j: int| if wl + j < padded@.len() { padded@[wl + j] } else { '0' },
    );
    if p > 0 {
        out.push('.');
        let mut j: usize = 0;
        while j < p
            invariant
                wl <= padded.len(),
                j <= p,
                frac.len() == p,
                frac == Seq::new(
                    p as nat,
                    |t: int| if wl + t < padded@.len() { padded@[wl + t] } else { '0' },
                ),
                out@ == head + seq!['.'] + frac.subrange(0, j as int),
            decreases p - j,
        {
            if wl < padded.len() && j < padded.len() - wl {
                out.push(padded[wl + j]);
            } else {
                out.push('0');
            }
            j = j + 1;
            proof {
                assert(out@ =~= head + seq!['.'] + frac.subrange(0, j as int));
            }
        }
        proof {
            assert(frac.subrange(0, p as int) =~= frac);
        }
    }
    proof {
        assert(out@ =~= display_prec_spec(d@, p as nat));
    }
    string_from_chars(&out)
}

/// Appends the rendering of `d` to `s`.
pub fn push_display(s: &mut String, d: &Dec)
    ensures
        final(s)@ == old(s)@ + display_spec(d@),
{
    let t = to_display_string(d);
    push_str(s, t.as_str());
}

} // verus!
