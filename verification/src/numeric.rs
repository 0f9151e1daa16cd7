//! Fixed-point numbers with 80 integer bits and 48 fractional bits.
//!
//! The arithmetic itself is done by `steel::Numeric` (backed by `fixed::types::I80F48`);
//! the library holds the raw two's-complement bits and states what each operation
//! computes on them.
use vstd::prelude::*;

verus! {

/// The number of fractional bits.
pub const FRAC_BITS: u32 = 48;

/// `2^48`, the value of one unit in raw bits.
pub open spec fn scale() -> int {
    0x1_0000_0000_0000int
}

/// Whether an integer fits in the raw `i128` representation.
pub open spec fn fits_i128(x: int) -> bool {
    i128::MIN <= x <= i128::MAX
}

/// Raw bits of the product: the exact product divided by `2^48`, rounded towards negative infinity.
pub open spec fn mul_bits(a: int, b: int) -> int {
    (a * b) / scale()
}

/// Raw bits of the quotient: `a * 2^48 / b`, rounded towards zero.
pub open spec fn div_bits(a: int, b: int) -> int
    recommends
        b != 0,
{
    let n = a * scale();
    let q = abs(n) / abs(b);
    if (n < 0) == (b < 0) {
        q
    } else {
        -q
    }
}

pub open spec fn abs(x: int) -> int {
    if x < 0 {
        -x
    } else {
        x
    }
}

/// A fixed-point number; its value is `bits / 2^48`.
#[derive(Clone, Copy, Debug, PartialEq, Eq, Structural)]
pub struct Numeric {
    pub bits: i128,
}

impl Numeric {
    /// The value as a rational number, scaled by `2^48`.
    pub open spec fn raw(self) -> int {
        self.bits as int
    }

    /// Zero.
    pub fn zero() -> (r: Numeric)
        ensures
            r.bits == 0,
    {
        Numeric { bits: 0 }
    }

    /// Converts an unsigned integer.
    pub fn from_u64(value: u64) -> (r: Numeric)
        ensures
            r.bits == value * scale(),
    {
        steel_from_u64(value)
    }

    /// The fraction `numerator / denominator`.
    pub fn from_fraction(numerator: u64, denominator: u64) -> (r: Numeric)
        requires
            denominator > 0,
        ensures
            r.bits == (numerator * scale()) / (denominator as int),
    {
        steel_from_fraction(numerator, denominator)
    }

    /// The integer part of a non-negative number, as `u64`.
    pub fn to_u64(self) -> (r: u64)
        requires
            self.bits >= 0,
            (self.bits as int) / scale() <= u64::MAX,
        ensures
            r == (self.bits as int) / scale(),
    {
        steel_to_u64(self)
    }

    /// The sum.
    pub fn add(self, other: Numeric) -> (r: Numeric)
        requires
            fits_i128(self.bits + other.bits),
        ensures
            r.bits == self.bits + other.bits,
    {
        steel_add(self, other)
    }

    /// The difference.
    pub fn sub(self, other: Numeric) -> (r: Numeric)
        requires
            fits_i128(self.bits - other.bits),
        ensures
            r.bits == self.bits - other.bits,
    {
        steel_sub(self, other)
    }

    /// The product, rounded towards negative infinity.
    pub fn mul(self, other: Numeric) -> (r: Numeric)
        requires
            fits_i128(mul_bits(self.bits as int, other.bits as int)),
        ensures
            r.bits == mul_bits(self.bits as int, other.bits as int),
    {
        steel_mul(self, other)
    }

    /// The quotient, rounded towards zero.
    pub fn div(self, other: Numeric) -> (r: Numeric)
        requires
            other.bits != 0,
            fits_i128(div_bits(self.bits as int, other.bits as int)),
        ensures
            r.bits == div_bits(self.bits as int, other.bits as int),
    {
        steel_div(self, other)
    }

    /// Strictly less than.
    pub fn lt(self, other: Numeric) -> (r: bool)
        ensures
            r == (self.bits < other.bits),
    {
        self.bits < other.bits
    }

    /// Strictly greater than.
    pub fn gt(self, other: Numeric) -> (r: bool)
        ensures
            r == (self.bits > other.bits),
    {
        self.bits > other.bits
    }
}

/// Calls `steel::Numeric::from_u64`, which converts with `I80F48::from_num`:
/// the raw bits are the value shifted left by 48 (always representable).
#[verifier::external_body]
fn steel_from_u64(value: u64) -> (r: Numeric)
    ensures
        r.bits == value * scale(),
{
    Numeric { bits: steel::Numeric::from_u64(value).to_i80f48().to_bits() }
}

/// Calls `steel::Numeric::from_fraction`, which divides `I80F48::from_num(numerator)` by
/// `I80F48::from_num(denominator)`; the division rounds towards zero, so for a positive
/// denominator the raw bits are `numerator * 2^48 / denominator` rounded down.
/// A zero denominator panics there and is excluded.
#[verifier::external_body]
fn steel_from_fraction(numerator: u64, denominator: u64) -> (r: Numeric)
    requires
        denominator > 0,
    ensures
        r.bits == (numerator * scale()) / (denominator as int),
{
    Numeric { bits: steel::Numeric::from_fraction(numerator, denominator).to_i80f48().to_bits() }
}

/// Calls `steel::Numeric::to_u64`, which takes the floor and converts with `to_num::<u64>`.
/// Values that do not fit in `u64` (negative or too large) are excluded: that conversion
/// panics on them when debug assertions are on.
#[verifier::external_body]
fn steel_to_u64(a: Numeric) -> (r: u64)
    requires
        a.bits >= 0,
        (a.bits as int) / scale() <= u64::MAX,
    ensures
        r == (a.bits as int) / scale(),
{
    steel::Numeric::from_i80f48(fixed::types::I80F48::from_bits(a.bits)).to_u64()
}

/// Calls `<steel::Numeric as Add>::add`, which adds the raw `I80F48` bits.
#[verifier::external_body]
fn steel_add(a: Numeric, b: Numeric) -> (r: Numeric)
    requires
        fits_i128(a.bits + b.bits),
    ensures
        r.bits == a.bits + b.bits,
{
    Numeric { bits: (steel::Numeric::from_i80f48(fixed::types::I80F48::from_bits(a.bits)) + steel::Numeric::from_i80f48(fixed::types::I80F48::from_bits(b.bits))).to_i80f48().to_bits() }
}

/// Calls `<steel::Numeric as Sub>::sub`, which subtracts the raw `I80F48` bits.
#[verifier::external_body]
fn steel_sub(a: Numeric, b: Numeric) -> (r: Numeric)
    requires
        fits_i128(a.bits - b.bits),
    ensures
        r.bits == a.bits - b.bits,
{
    Numeric { bits: (steel::Numeric::from_i80f48(fixed::types::I80F48::from_bits(a.bits)) - steel::Numeric::from_i80f48(fixed::types::I80F48::from_bits(b.bits))).to_i80f48().to_bits() }
}

/// Calls `<steel::Numeric as Mul>::mul`; `I80F48` multiplication forms the 256-bit product
/// of the raw bits and shifts it right (arithmetically) by 48. Overflowing results are excluded.
#[verifier::external_body]
fn steel_mul(a: Numeric, b: Numeric) -> (r: Numeric)
    requires
        fits_i128(mul_bits(a.bits as int, b.bits as int)),
    ensures
        r.bits == mul_bits(a.bits as int, b.bits as int),
{
    Numeric { bits: (steel::Numeric::from_i80f48(fixed::types::I80F48::from_bits(a.bits)) * steel::Numeric::from_i80f48(fixed::types::I80F48::from_bits(b.bits))).to_i80f48().to_bits() }
}

/// Calls `<steel::Numeric as Div>::div`; `I80F48` division shifts the dividend's raw bits left
/// by 48 and divides by the divisor's raw bits, rounding towards zero. Division by zero and
/// overflowing results are excluded.
#[verifier::external_body]
fn steel_div(a: Numeric, b: Numeric) -> (r: Numeric)
    requires
        b.bits != 0,
        fits_i128(div_bits(a.bits as int, b.bits as int)),
    ensures
        r.bits == div_bits(a.bits as int, b.bits as int),
{
    Numeric { bits: (steel::Numeric::from_i80f48(fixed::types::I80F48::from_bits(a.bits)) / steel::Numeric::from_i80f48(fixed::types::I80F48::from_bits(b.bits))).to_i80f48().to_bits() }
}

} // verus!

