//! The fixed-point scalar and its checked arithmetic.
//!
//! A [`WrappedI80F48`] stores the two's-complement encoding of a number with 80
//! integer bits and 48 fractional bits: the number it denotes is its encoding
//! divided by 2^48. The arithmetic itself is done by the `fixed` crate; this
//! module states, over the encodings, what each of its operations returns.

use fixed::types::I80F48;
use vstd::prelude::*;

verus! {

/// The encoding of the number one: 2^48.
pub open spec fn unit() -> int {
    0x1_0000_0000_0000
}

/// Whether an encoding fits the 128-bit signed representation.
pub open spec fn representable(bits: int) -> bool {
    i128::MIN <= bits <= i128::MAX
}

/// An encoding if it is representable, and no result otherwise.
pub open spec fn checked(bits: int) -> Option<int> {
    if representable(bits) {
        Some(bits)
    } else {
        None
    }
}

/// The integer quotient of `n` by `d`, rounded toward zero.
pub open spec fn quotient_toward_zero(n: int, d: int) -> int
    recommends
        d != 0,
{
    if n >= 0 && d > 0 {
        n / d
    } else if n >= 0 {
        -(n / (-d))
    } else if d > 0 {
        -((-n) / d)
    } else {
        (-n) / (-d)
    }
}

/// Checked sum of two encodings; no result as soon as one operand has none.
pub open spec fn plus(a: Option<int>, b: Option<int>) -> Option<int> {
    match (a, b) {
        (Some(x), Some(y)) => checked(x + y),
        _ => None,
    }
}

/// Checked difference of two encodings.
pub open spec fn minus(a: Option<int>, b: Option<int>) -> Option<int> {
    match (a, b) {
        (Some(x), Some(y)) => checked(x - y),
        _ => None,
    }
}

/// Checked fixed-point product: the exact product of the encodings divided by
/// 2^48 and rounded toward negative infinity.
pub open spec fn times(a: Option<int>, b: Option<int>) -> Option<int> {
    match (a, b) {
        (Some(x), Some(y)) => checked((x * y) / unit()),
        _ => None,
    }
}

/// Checked fixed-point quotient: the dividend's encoding times 2^48, divided by
/// the divisor's encoding and rounded toward zero. A zero divisor gives no
/// result.
pub open spec fn over(a: Option<int>, b: Option<int>) -> Option<int> {
    match (a, b) {
        (Some(x), Some(y)) => if y == 0 {
            None
        } else {
            checked(quotient_toward_zero(x * unit(), y))
        },
        _ => None,
    }
}

/// The whole part of a number, rounded toward negative infinity, as an
/// unsigned 64-bit integer; nothing when it is negative or too large.
pub open spec fn whole_units(bits: int) -> Option<u64> {
    if 0 <= bits / unit() <= u64::MAX {
        Some((bits / unit()) as u64)
    } else {
        None
    }
}

/// A fixed-point number, held as its 128-bit encoding.
#[derive(Clone, Copy, Debug, PartialEq, Eq, Structural)]
pub struct WrappedI80F48 {
    pub value: i128,
}

impl View for WrappedI80F48 {
    type V = int;

    /// The encoding as a mathematical integer.
    open spec fn view(&self) -> int {
        self.value as int
    }
}

/// The encoding held by an optional scalar.
pub open spec fn encoding(r: Option<WrappedI80F48>) -> Option<int> {
    match r {
        Some(w) => Some(w@),
        None => None,
    }
}

impl Default for WrappedI80F48 {
    fn default() -> (r: Self)
        ensures
            r@ == 0,
    {
        WrappedI80F48 { value: 0 }
    }
}

impl WrappedI80F48 {
    /// The number zero.
    pub fn zero() -> (r: Self)
        ensures
            r@ == 0,
    {
        WrappedI80F48 { value: 0 }
    }

    /// The number one.
    pub fn one() -> (r: Self)
        ensures
            r@ == unit(),
    {
        WrappedI80F48 { value: 0x1_0000_0000_0000 }
    }

    /// Whether the number is strictly greater than zero.
    pub fn is_positive(self) -> (r: bool)
        ensures
            r == (self@ > 0),
    {
        self.value > 0
    }
}

/// `I80F48::checked_add`: the sum of the encodings, or nothing when the sum
/// leaves the 128-bit range.
#[verifier::external_body]
pub(crate) fn fixed_add(a: WrappedI80F48, b: WrappedI80F48) -> (r: Option<WrappedI80F48>)
    ensures
        encoding(r) == plus(Some(a@), Some(b@)),
{
    match I80F48::from_bits(a.value).checked_add(I80F48::from_bits(b.value)) {
        Some(s) => Some(WrappedI80F48 { value: s.to_bits() }),
        None => None,
    }
}

/// `I80F48::checked_sub`: the difference of the encodings, or nothing when it
/// leaves the 128-bit range.
#[verifier::external_body]
pub(crate) fn fixed_sub(a: WrappedI80F48, b: WrappedI80F48) -> (r: Option<WrappedI80F48>)
    ensures
        encoding(r) == minus(Some(a@), Some(b@)),
{
    match I80F48::from_bits(a.value).checked_sub(I80F48::from_bits(b.value)) {
        Some(d) => Some(WrappedI80F48 { value: d.to_bits() }),
        None => None,
    }
}

/// `I80F48::checked_mul`: the crate forms the exact 256-bit product of the
/// encodings and shifts it right arithmetically by 48 bits, so the result is
/// the floor of the exact product; nothing when that does not fit 128 bits.
#[verifier::external_body]
pub(crate) fn fixed_mul(a: WrappedI80F48, b: WrappedI80F48) -> (r: Option<WrappedI80F48>)
    ensures
        encoding(r) == times(Some(a@), Some(b@)),
{
    match I80F48::from_bits(a.value).checked_mul(I80F48::from_bits(b.value)) {
        Some(p) => Some(WrappedI80F48 { value: p.to_bits() }),
        None => None,
    }
}

/// `I80F48::checked_div`: nothing for a zero divisor; otherwise the crate
/// widens the dividend's encoding by 48 bits, divides the magnitudes and
/// restores the sign, so the quotient is rounded toward zero; nothing when it
/// does not fit 128 bits.
#[verifier::external_body]
pub(crate) fn fixed_div(a: WrappedI80F48, b: WrappedI80F48) -> (r: Option<WrappedI80F48>)
    ensures
        encoding(r) == over(Some(a@), Some(b@)),
{
    match I80F48::from_bits(a.value).checked_div(I80F48::from_bits(b.value)) {
        Some(q) => Some(WrappedI80F48 { value: q.to_bits() }),
        None => None,
    }
}

/// `I80F48::from(u64)`: the lossless conversion of an unsigned integer, whose
/// encoding is the integer times 2^48.
#[verifier::external_body]
pub(crate) fn fixed_from_u64(n: u64) -> (r: WrappedI80F48)
    ensures
        r@ == n * unit(),
{
    WrappedI80F48 { value: I80F48::from(n).to_bits() }
}

/// `I80F48::checked_to_num::<u64>`: the number with its fractional bits
/// discarded, which rounds toward negative infinity, or nothing when that
/// integer is negative or exceeds 64 bits.
#[verifier::external_body]
pub(crate) fn fixed_to_u64(a: WrappedI80F48) -> (r: Option<u64>)
    ensures
        r == whole_units(a@),
{
    I80F48::from_bits(a.value).checked_to_num::<u64>()
}

/// The product of two non-negative numbers is not negative.
pub proof fn lemma_times_non_negative(x: int, y: int)
    requires
        x >= 0,
        y >= 0,
    ensures
        (x * y) / unit() >= 0,
        times(Some(x), Some(y)) matches Some(p) ==> p >= 0,
{
    assert(x * y >= 0) by (nonlinear_arith)
        requires
            x >= 0,
            y >= 0,
    ;
}

/// The quotient of a non-negative number by a positive one is not negative.
pub proof fn lemma_over_non_negative(x: int, y: int)
    requires
        x >= 0,
        y > 0,
    ensures
        over(Some(x), Some(y)) matches Some(q) ==> q >= 0,
{
    let n = x * unit();
    assert(n / y >= 0) by (nonlinear_arith)
        requires
            n >= 0,
            y > 0,
    ;
}

/// Multiplying by a whole number is exact: the product of a number and `n`
/// whole units has the number's encoding times `n`.
pub proof fn lemma_times_whole(x: int, n: int)
    ensures
        times(Some(x), Some(n * unit())) == checked(x * n),
{
    let m = x * n;
    assert(x * (n * unit()) == m * unit()) by (nonlinear_arith)
        requires
            m == x * n,
    ;
    assert((m * unit()) / unit() == m);
}

} // verus!
