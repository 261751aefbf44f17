//! Decimal amounts (prices, costs, weights, tax rates).
//!
//! An `Amount` holds what a `rust_decimal::Decimal` is made of: a signed
//! mantissa of at most 96 bits and a scale of at most 28 decimal places; its
//! value is `mantissa / 10^scale`. Arithmetic, parsing and printing are done
//! by `rust_decimal`.

use rust_decimal::Decimal;
use std::str::FromStr;
use vstd::arithmetic::power::pow;
use vstd::prelude::*;

verus! {

/// The largest mantissa magnitude a decimal holds (`2^96 - 1`).
pub const MAX_MANTISSA: i128 = 0xFFFF_FFFF_FFFF_FFFF_FFFF_FFFF;

/// The largest scale a decimal holds.
pub const MAX_SCALE: u32 = 28;

/// A decimal number `mantissa / 10^scale`.
#[derive(Clone, Copy, Debug)]
pub struct Amount {
    pub mantissa: i128,
    pub scale: u32,
}

impl Amount {
    /// The representable range of `rust_decimal`.
    pub open spec fn wf(self) -> bool {
        -MAX_MANTISSA <= self.mantissa <= MAX_MANTISSA && self.scale <= MAX_SCALE
    }

    /// The amount as the plain pair of its parts.
    pub open spec fn parts(self) -> (i128, u32) {
        (self.mantissa, self.scale)
    }

    /// The amount with the given parts.
    pub open spec fn from_parts(p: (i128, u32)) -> Amount {
        Amount { mantissa: p.0, scale: p.1 }
    }

    /// `Decimal::new(mantissa, scale)` for small mantissas.
    pub fn new(mantissa: i64, scale: u32) -> (r: Amount)
        requires
            scale <= MAX_SCALE,
        ensures
            r.mantissa == mantissa,
            r.scale == scale,
            r.wf(),
    {
        Amount { mantissa: mantissa as i128, scale }
    }

    /// Whether the amount lies in the decimal range.
    pub fn is_wf(&self) -> (r: bool)
        ensures
            r == self.wf(),
    {
        -MAX_MANTISSA <= self.mantissa && self.mantissa <= MAX_MANTISSA && self.scale <= MAX_SCALE
    }

    /// Zero (`Decimal::ZERO`).
    pub fn zero() -> (r: Amount)
        ensures
            r.mantissa == 0 && r.scale == 0,
    {
        Amount { mantissa: 0, scale: 0 }
    }
}

/// `10^e`.
pub open spec fn ten_pow(e: u32) -> int {
    pow(10, e as nat)
}

/// Compares two amounts by value: negative, zero or positive as `a` is
/// less than, equal to or greater than `b`.
pub open spec fn spec_compare(a: Amount, b: Amount) -> int {
    let l = a.mantissa * ten_pow(b.scale);
    let r = b.mantissa * ten_pow(a.scale);
    if l < r {
        -1
    } else if l > r {
        1
    } else {
        0
    }
}

pub open spec fn spec_lt(a: Amount, b: Amount) -> bool {
    spec_compare(a, b) < 0
}

pub open spec fn spec_le(a: Amount, b: Amount) -> bool {
    spec_compare(a, b) <= 0
}

pub open spec fn spec_num_eq(a: Amount, b: Amount) -> bool {
    spec_compare(a, b) == 0
}

/// What `Decimal::from_str` gives for a text: the parts of the decimal it
/// reads, or the text of the error it reports.
pub uninterp spec fn spec_decimal_from_str(s: Seq<char>) -> Result<(i128, u32), Seq<char>>;

/// The parts of the decimal a text denotes, if it is a decimal.
pub open spec fn spec_decimal_parse(s: Seq<char>) -> Option<(i128, u32)> {
    match spec_decimal_from_str(s) {
        Ok(p) => Some(p),
        Err(_) => None,
    }
}

/// The digits of a mantissa's magnitude as `Decimal`'s `Display` collects
/// them: none for zero.
pub open spec fn spec_magnitude_digits(n: nat) -> Seq<char> {
    if n == 0 {
        Seq::empty()
    } else {
        crate::text::spec_nat_text(n)
    }
}

/// Digits padded with leading zeros to at least `width` of them.
pub open spec fn spec_pad_digits(d: Seq<char>, width: nat) -> Seq<char> {
    if d.len() < width {
        Seq::new((width - d.len()) as nat, |i: int| '0') + d
    } else {
        d
    }
}

/// The text `Decimal`'s `Display` writes for the decimal with these parts:
/// a `-` for a negative mantissa, then the digits of its magnitude padded
/// with zeros to at least `scale` digits, the last `scale` of them after a
/// decimal point (a `0` stands for an empty whole part; zero at scale 0 is
/// `0`).
#[verifier::opaque]
pub open spec fn spec_decimal_text(mantissa: i128, scale: u32) -> Seq<char> {
    let mag: nat = if mantissa < 0 {
        (-mantissa) as nat
    } else {
        mantissa as nat
    };
    let d = spec_pad_digits(spec_magnitude_digits(mag), scale as nat);
    let whole = d.take(d.len() - scale);
    let body = if scale == 0 {
        if d.len() == 0 {
            seq!['0']
        } else {
            d
        }
    } else {
        (if whole.len() == 0 {
            seq!['0']
        } else {
            whole
        }) + seq!['.'] + d.skip(d.len() - scale)
    };
    (if mantissa < 0 {
        seq!['-']
    } else {
        Seq::empty()
    }) + body
}

/// The text `format!("{:.2}", d)` writes for the decimal with these parts.
pub uninterp spec fn spec_decimal_text_2dp(mantissa: i128, scale: u32) -> Seq<char>;

/// `Decimal::checked_add` on the decimals with these parts, as parts.
pub uninterp spec fn spec_decimal_add(m1: i128, s1: u32, m2: i128, s2: u32) -> Option<(i128, u32)>;

/// `Decimal::checked_sub` on the decimals with these parts, as parts.
pub uninterp spec fn spec_decimal_sub(m1: i128, s1: u32, m2: i128, s2: u32) -> Option<(i128, u32)>;

/// `Decimal::checked_mul` on the decimals with these parts, as parts.
pub uninterp spec fn spec_decimal_mul(m1: i128, s1: u32, m2: i128, s2: u32) -> Option<(i128, u32)>;

/// The larger of the two scales.
pub open spec fn spec_max_scale(a: Amount, b: Amount) -> u32 {
    if a.scale >= b.scale {
        a.scale
    } else {
        b.scale
    }
}

/// The mantissa of an amount written at a scale not below its own.
pub open spec fn spec_aligned(a: Amount, scale: u32) -> int {
    a.mantissa * ten_pow((scale - a.scale) as u32)
}

/// Whether both amounts, written at the larger scale, and the combination
/// `c` of those mantissas lie within the decimal range.
pub open spec fn spec_aligned_fit(a: Amount, b: Amount, c: int) -> bool {
    let s = spec_max_scale(a, b);
    &&& -MAX_MANTISSA <= spec_aligned(a, s) <= MAX_MANTISSA
    &&& -MAX_MANTISSA <= spec_aligned(b, s) <= MAX_MANTISSA
    &&& -MAX_MANTISSA <= c <= MAX_MANTISSA
}

/// Both amounts and their sum, written at the larger scale, lie within the
/// decimal range.
pub open spec fn spec_sum_fits(a: Amount, b: Amount) -> bool {
    spec_aligned_fit(a, b, spec_aligned(a, spec_max_scale(a, b)) + spec_aligned(b, spec_max_scale(a, b)))
}

/// Both amounts and their difference, written at the larger scale, lie
/// within the decimal range.
pub open spec fn spec_difference_fits(a: Amount, b: Amount) -> bool {
    spec_aligned_fit(a, b, spec_aligned(a, spec_max_scale(a, b)) - spec_aligned(b, spec_max_scale(a, b)))
}

/// The exact sum of two amounts, written at the larger scale (its mantissa
/// as an `i128` where it fits).
pub open spec fn spec_exact_sum(a: Amount, b: Amount) -> Amount {
    let s = spec_max_scale(a, b);
    Amount { mantissa: (spec_aligned(a, s) + spec_aligned(b, s)) as i128, scale: s }
}

/// The exact difference of two amounts, written at the larger scale.
pub open spec fn spec_exact_difference(a: Amount, b: Amount) -> Amount {
    let s = spec_max_scale(a, b);
    Amount { mantissa: (spec_aligned(a, s) - spec_aligned(b, s)) as i128, scale: s }
}

/// The option of parts as an option of amounts.
pub open spec fn spec_amount_opt(p: Option<(i128, u32)>) -> Option<Amount> {
    match p {
        Some(q) => Some(Amount::from_parts(q)),
        None => None,
    }
}

/// The sum of two amounts as `Decimal`'s checked addition gives it.
pub open spec fn spec_add(a: Amount, b: Amount) -> Option<Amount> {
    spec_amount_opt(spec_decimal_add(a.mantissa, a.scale, b.mantissa, b.scale))
}

/// The difference of two amounts as `Decimal`'s checked subtraction gives it.
pub open spec fn spec_sub(a: Amount, b: Amount) -> Option<Amount> {
    spec_amount_opt(spec_decimal_sub(a.mantissa, a.scale, b.mantissa, b.scale))
}

/// The product of two amounts as `Decimal`'s checked multiplication gives it.
pub open spec fn spec_mul(a: Amount, b: Amount) -> Option<Amount> {
    spec_amount_opt(spec_decimal_mul(a.mantissa, a.scale, b.mantissa, b.scale))
}

/// The text of an amount.
pub open spec fn spec_text(a: Amount) -> Seq<char> {
    spec_decimal_text(a.mantissa, a.scale)
}

/// The text of an amount with two decimal places.
pub open spec fn spec_text_2dp(a: Amount) -> Seq<char> {
    spec_decimal_text_2dp(a.mantissa, a.scale)
}

/// The amount a text denotes, if it is a decimal.
pub open spec fn spec_parse(s: Seq<char>) -> Option<Amount> {
    spec_amount_opt(spec_decimal_parse(s))
}

fn to_decimal(a: &Amount) -> Decimal
    requires
        a.wf(),
{
    decimal_from_parts(a.mantissa, a.scale)
}

/// `Decimal::from_i128_with_scale`, which panics outside the decimal range.
#[verifier::external_body]
fn decimal_from_parts(mantissa: i128, scale: u32) -> Decimal
    requires
        -MAX_MANTISSA <= mantissa <= MAX_MANTISSA,
        scale <= MAX_SCALE,
{
    Decimal::from_i128_with_scale(mantissa, scale)
}

/// The parts (`Decimal::mantissa`, `Decimal::scale`) of a decimal; every
/// decimal lies in the representable range.
#[verifier::external_body]
fn decimal_parts(d: Decimal) -> (r: Amount)
    ensures
        r.wf(),
{
    Amount { mantissa: d.mantissa(), scale: d.scale() }
}

#[verifier::external_type_specification]
#[verifier::external_body]
pub struct ExDecimal(rust_decimal::Decimal);

/// Reads a decimal with `Decimal::from_str`; the outcome (the parts read,
/// or the text of the error) is named by `spec_decimal_from_str`, and every
/// decimal read lies in the decimal range.
#[verifier::external_body]
pub(crate) fn decimal_parse_result(s: &str) -> (r: Result<Amount, String>)
    ensures
        match r {
            Ok(a) => spec_decimal_from_str(s@) == Ok::<(i128, u32), Seq<char>>(a.parts()) && a.wf(),
            Err(e) => spec_decimal_from_str(s@) == Err::<(i128, u32), Seq<char>>(e@),
        },
{
    match Decimal::from_str(s) {
        Ok(d) => Ok(Amount { mantissa: d.mantissa(), scale: d.scale() }),
        Err(e) => Err(e.to_string()),
    }
}

/// Reads a decimal from a text (`str::parse::<Decimal>`).
pub fn parse_amount(s: &str) -> (r: Option<Amount>)
    ensures
        r == spec_parse(s@),
        r matches Some(a) ==> a.wf(),
{
    match decimal_parse_result(s) {
        Ok(a) => Some(a),
        Err(_) => None,
    }
}

/// Writes a decimal with its `Display` (`Decimal::to_string`); the text is
/// the one `spec_decimal_text` describes.
#[verifier::external_body]
fn decimal_to_string(a: Amount) -> (r: String)
    requires
        a.wf(),
    ensures
        r@ == spec_decimal_text(a.mantissa, a.scale),
{
    Decimal::from_i128_with_scale(a.mantissa, a.scale).to_string()
}

/// The text of an amount (`Decimal::to_string`).
pub fn amount_text(a: Amount) -> (r: String)
    requires
        a.wf(),
    ensures
        r@ == spec_text(a),
{
    decimal_to_string(a)
}

/// Writes a decimal with `format!("{:.2}", d)`; the text is named by
/// `spec_decimal_text_2dp`.
#[verifier::external_body]
fn decimal_to_string_2dp(a: Amount) -> (r: String)
    requires
        a.wf(),
    ensures
        r@ == spec_decimal_text_2dp(a.mantissa, a.scale),
{
    format!("{:.2}", Decimal::from_i128_with_scale(a.mantissa, a.scale))
}

/// The text of an amount with two decimal places (`format!("{:.2}", d)`).
pub fn amount_text_2dp(a: Amount) -> (r: String)
    requires
        a.wf(),
    ensures
        r@ == spec_text_2dp(a),
{
    decimal_to_string_2dp(a)
}

/// Orders two decimals with `Decimal`'s `Ord`, which orders them by value:
/// the result is negative, zero or positive as `a` is below, equal to or
/// above `b`.
#[verifier::external_body]
fn decimal_order(a: Amount, b: Amount) -> (r: i8)
    requires
        a.wf(),
        b.wf(),
    ensures
        r == spec_compare(a, b),
{
    let x = Decimal::from_i128_with_scale(a.mantissa, a.scale);
    let y = Decimal::from_i128_with_scale(b.mantissa, b.scale);
    match x.cmp(&y) {
        std::cmp::Ordering::Less => -1,
        std::cmp::Ordering::Equal => 0,
        std::cmp::Ordering::Greater => 1,
    }
}

/// Compares two amounts by value.
pub fn compare(a: Amount, b: Amount) -> (r: i8)
    requires
        a.wf(),
        b.wf(),
    ensures
        r == spec_compare(a, b),
{
    decimal_order(a, b)
}

/// `a < b` by value.
pub fn lt(a: Amount, b: Amount) -> (r: bool)
    requires
        a.wf(),
        b.wf(),
    ensures
        r == spec_lt(a, b),
{
    compare(a, b) < 0
}

/// `a <= b` by value.
pub fn le(a: Amount, b: Amount) -> (r: bool)
    requires
        a.wf(),
        b.wf(),
    ensures
        r == spec_le(a, b),
{
    compare(a, b) <= 0
}

/// `a == b` by value (`Decimal`'s `PartialEq`).
pub fn num_eq(a: Amount, b: Amount) -> (r: bool)
    requires
        a.wf(),
        b.wf(),
    ensures
        r == spec_num_eq(a, b),
{
    compare(a, b) == 0
}

/// `Decimal::checked_add`; the result is named by `spec_decimal_add`
/// (`None` where `a + b` overflows and panics). Where both amounts and their
/// sum, written at the larger scale, lie in the decimal range, the sum is
/// computed without overflow and has exactly that value.
#[verifier::external_body]
fn decimal_checked_add(a: Amount, b: Amount) -> (r: Option<Amount>)
    requires
        a.wf(),
        b.wf(),
    ensures
        r == spec_amount_opt(spec_decimal_add(a.mantissa, a.scale, b.mantissa, b.scale)),
        r matches Some(c) ==> c.wf(),
        spec_sum_fits(a, b) ==> r is Some,
        spec_sum_fits(a, b) ==> spec_num_eq(r->0, spec_exact_sum(a, b)),
{
    match to_decimal(&a).checked_add(to_decimal(&b)) {
        Some(d) => Some(decimal_parts(d)),
        None => None,
    }
}

/// The sum of two amounts, `None` where `Decimal` addition overflows.
pub fn checked_add(a: Amount, b: Amount) -> (r: Option<Amount>)
    requires
        a.wf(),
        b.wf(),
    ensures
        r == spec_add(a, b),
        r matches Some(c) ==> c.wf(),
        spec_sum_fits(a, b) ==> r is Some,
        spec_sum_fits(a, b) ==> spec_num_eq(r->0, spec_exact_sum(a, b)),
{
    decimal_checked_add(a, b)
}

/// `Decimal::checked_sub`; the result is named by `spec_decimal_sub`
/// (`None` where `a - b` overflows and panics). Where both amounts and their
/// difference, written at the larger scale, lie in the decimal range, the
/// difference is computed without overflow and has exactly that value.
#[verifier::external_body]
fn decimal_checked_sub(a: Amount, b: Amount) -> (r: Option<Amount>)
    requires
        a.wf(),
        b.wf(),
    ensures
        r == spec_amount_opt(spec_decimal_sub(a.mantissa, a.scale, b.mantissa, b.scale)),
        r matches Some(c) ==> c.wf(),
        spec_difference_fits(a, b) ==> r is Some,
        spec_difference_fits(a, b) ==> spec_num_eq(r->0, spec_exact_difference(a, b)),
{
    match to_decimal(&a).checked_sub(to_decimal(&b)) {
        Some(d) => Some(decimal_parts(d)),
        None => None,
    }
}

/// The difference of two amounts, `None` where `Decimal` subtraction overflows.
pub fn checked_sub(a: Amount, b: Amount) -> (r: Option<Amount>)
    requires
        a.wf(),
        b.wf(),
    ensures
        r == spec_sub(a, b),
        r matches Some(c) ==> c.wf(),
        spec_difference_fits(a, b) ==> r is Some,
        spec_difference_fits(a, b) ==> spec_num_eq(r->0, spec_exact_difference(a, b)),
{
    decimal_checked_sub(a, b)
}

/// `Decimal::checked_mul`; the result is named by `spec_decimal_mul`. A
/// product whose mantissa `m1 * m2` lies within the decimal range does not
/// overflow (a scale above 28 is rounded down to 28); when moreover
/// `s1 + s2 <= 28` and neither factor is zero, the product is returned with
/// exactly those parts.
#[verifier::external_body]
fn decimal_checked_mul(a: Amount, b: Amount) -> (r: Option<Amount>)
    requires
        a.wf(),
        b.wf(),
    ensures
        r == spec_amount_opt(spec_decimal_mul(a.mantissa, a.scale, b.mantissa, b.scale)),
        r matches Some(c) ==> c.wf(),
        -MAX_MANTISSA <= a.mantissa * b.mantissa <= MAX_MANTISSA ==> r is Some,
        (-MAX_MANTISSA <= a.mantissa * b.mantissa <= MAX_MANTISSA && a.scale + b.scale
            <= MAX_SCALE && a.mantissa != 0 && b.mantissa != 0) ==> r == Some(
            Amount { mantissa: (a.mantissa * b.mantissa) as i128, scale: (a.scale + b.scale) as u32 },
        ),
{
    match to_decimal(&a).checked_mul(to_decimal(&b)) {
        Some(d) => Some(decimal_parts(d)),
        None => None,
    }
}

/// The product of two amounts, `None` where `Decimal` multiplication overflows.
pub fn checked_mul(a: Amount, b: Amount) -> (r: Option<Amount>)
    requires
        a.wf(),
        b.wf(),
    ensures
        r == spec_amount_opt(spec_decimal_mul(a.mantissa, a.scale, b.mantissa, b.scale)),
        r matches Some(c) ==> c.wf(),
        -MAX_MANTISSA <= a.mantissa * b.mantissa <= MAX_MANTISSA ==> r is Some,
        (-MAX_MANTISSA <= a.mantissa * b.mantissa <= MAX_MANTISSA && a.scale + b.scale
            <= MAX_SCALE && a.mantissa != 0 && b.mantissa != 0) ==> r == Some(
            Amount { mantissa: (a.mantissa * b.mantissa) as i128, scale: (a.scale + b.scale) as u32 },
        ),
{
    decimal_checked_mul(a, b)
}

/// The absolute value (`Decimal::abs`).
pub fn abs(a: Amount) -> (r: Amount)
    requires
        a.wf(),
    ensures
        r.wf(),
        r.scale == a.scale,
        r.mantissa == (if a.mantissa < 0 { -a.mantissa } else { a.mantissa as int }),
{
    if a.mantissa < 0 {
        Amount { mantissa: -a.mantissa, scale: a.scale }
    } else {
        a
    }
}

} // verus!
