//! Signed 64-bit fixed-point numbers of the `fixed` crate, carried through the
//! library as their raw bits: `I32F32` (32 fractional bits) and `I16F48` (48
//! fractional bits). Each operation is performed by the `fixed` crate; the
//! contracts below state what its source computes on the bits.
use vstd::prelude::*;
use fixed::types::{I16F16, I16F48, I1F15, I32F32, I3F29};

verus! {

/// `2^32`, the scale of an `I32F32` value.
pub const ONE_BITS: i64 = 4294967296;

/// The bits of the `I32F32` product of two values: the exact product of the
/// bits divided by `2^32`, rounded toward negative infinity.
pub open spec fn fx_mul(a: int, b: int) -> int {
    (a * b) / (ONE_BITS as int)
}

/// The integer part of an `I32F32` value, rounded toward negative infinity.
pub open spec fn fx_floor(bits: int) -> int {
    bits / (ONE_BITS as int)
}

/// Integer division rounded toward zero, as Rust's `/` does.
pub open spec fn trunc_div(a: int, d: int) -> int {
    let q = abs(a) / abs(d);
    if (a >= 0) == (d > 0) {
        q
    } else {
        -q
    }
}

pub open spec fn abs(x: int) -> int {
    if x >= 0 {
        x
    } else {
        -x
    }
}

/// `I32F32::from(x)` for an `i32`: exact, the bits are `x · 2^32`.
#[verifier::external_body]
pub(crate) fn fx_from_i32(x: i32) -> (r: i64)
    ensures
        r == x * ONE_BITS,
{
    I32F32::from(x).to_bits()
}

/// `I32F32::saturating_neg`: the negated bits, with `i64::MIN` going to `i64::MAX`.
#[verifier::external_body]
pub(crate) fn fx_saturating_neg(a: i64) -> (r: i64)
    ensures
        r == (if a == i64::MIN { i64::MAX as int } else { -a }),
{
    I32F32::from_bits(a).saturating_neg().to_bits()
}

/// `I32F32` negation (`-x`): the negated bits; it overflows, and panics in
/// debug builds, for `i64::MIN`, which is excluded.
#[verifier::external_body]
pub(crate) fn fx_neg(a: i64) -> (r: i64)
    requires
        a != i64::MIN,
    ensures
        r == -a,
{
    (-I32F32::from_bits(a)).to_bits()
}

/// `I32F32 / i64`: the bits divided by the integer, rounded toward zero.
/// Division by zero and `i64::MIN / -1` panic and are excluded.
#[verifier::external_body]
pub(crate) fn fx_div_int(a: i64, d: i64) -> (r: i64)
    requires
        d != 0,
        !(a == i64::MIN && d == -1),
    ensures
        r == trunc_div(a as int, d as int),
{
    (I32F32::from_bits(a) / d).to_bits()
}

/// `I32F32 * I32F32`: the bits of the wide product shifted right by 32, i.e.
/// divided by `2^32` rounding toward negative infinity. The wide product is
/// computed in 128 bits after a shift by 32 and must not overflow there (an
/// overflow panics in debug builds).
#[verifier::external_body]
pub(crate) fn fx_mul_bits(a: i64, b: i64) -> (r: i64)
    requires
        -0x8000_0000_0000_0000_0000_0000 <= a * b < 0x8000_0000_0000_0000_0000_0000,
    ensures
        r == fx_mul(a as int, b as int),
{
    (I32F32::from_bits(a) * I32F32::from_bits(b)).to_bits()
}

/// `I32F32 + I32F32`: the sum of the bits, which must not overflow.
#[verifier::external_body]
pub(crate) fn fx_add(a: i64, b: i64) -> (r: i64)
    requires
        i64::MIN <= a + b <= i64::MAX,
    ensures
        r == a + b,
{
    (I32F32::from_bits(a) + I32F32::from_bits(b)).to_bits()
}

/// `I32F32 - I32F32`: the difference of the bits, which must not overflow.
#[verifier::external_body]
pub(crate) fn fx_sub(a: i64, b: i64) -> (r: i64)
    requires
        i64::MIN <= a - b <= i64::MAX,
    ensures
        r == a - b,
{
    (I32F32::from_bits(a) - I32F32::from_bits(b)).to_bits()
}

/// `I32F32::to_num::<i32>()`: the integer part rounded toward negative
/// infinity; a value that does not fit panics in debug builds and is excluded.
#[verifier::external_body]
pub(crate) fn fx_to_i32(a: i64) -> (r: i32)
    requires
        i32::MIN <= fx_floor(a as int) <= i32::MAX,
    ensures
        r == fx_floor(a as int),
{
    I32F32::from_bits(a).to_num::<i32>()
}

/// `2^48`, the scale of an `I16F48` value.
pub const ONE48_BITS: i64 = 281474976710656;

/// `2^33`: an `I16F48` value keeps 33 more fractional bits than an `I1F15`.
pub const I16F48_TO_I1F15_SHIFT: i64 = 8589934592;

/// The bits of the `I16F48` product of two values: the exact product of the
/// bits divided by `2^48`, rounded toward negative infinity.
pub open spec fn fx48_mul(a: int, b: int) -> int {
    (a * b) / (ONE48_BITS as int)
}

/// The bits of the `I16F48` quotient of two values: the first bits scaled by
/// `2^48` and divided by the second, rounded toward zero.
pub open spec fn fx48_div(a: int, b: int) -> int {
    trunc_div(a * ONE48_BITS, b)
}

/// `r` is the `I16F48` square root of the value with bits `a`, rounded down:
/// `r/2^48 <= sqrt(a/2^48) < (r+1)/2^48`.
pub open spec fn is_fx48_sqrt(a: int, r: int) -> bool {
    &&& 0 <= r
    &&& r * r <= a * ONE48_BITS
    &&& a * ONE48_BITS < (r + 1) * (r + 1)
}

/// The bits of the `I16F48` square root of a non-negative value.
pub open spec fn fx48_sqrt(a: int) -> int {
    choose|r: int| is_fx48_sqrt(a, r)
}

/// At most one value is a rounded-down square root.
pub(crate) proof fn lemma_fx48_sqrt_unique(a: int, r: int)
    requires
        is_fx48_sqrt(a, r),
    ensures
        fx48_sqrt(a) == r,
{
    let s = fx48_sqrt(a);
    assert(is_fx48_sqrt(a, s));
    if s < r {
        assert((s + 1) * (s + 1) <= r * r) by (nonlinear_arith)
            requires
                0 <= s,
                s + 1 <= r,
        ;
    } else if r < s {
        assert((r + 1) * (r + 1) <= s * s) by (nonlinear_arith)
            requires
                0 <= r,
                r + 1 <= s,
        ;
    }
}

/// `I16F48::from_num(x)` for an `i16`: exact, the bits are `x · 2^48`.
#[verifier::external_body]
pub(crate) fn fx48_from_i16(x: i16) -> (r: i64)
    ensures
        r == x * ONE48_BITS,
{
    I16F48::from_num(x).to_bits()
}

/// `I16F48::from_num(x)` for a `usize`: exact, the bits are `x · 2^48`; a
/// value of `2^15` or more does not fit and panics in debug builds.
#[verifier::external_body]
pub(crate) fn fx48_from_usize(x: usize) -> (r: i64)
    requires
        x <= 32767,
    ensures
        r == x * ONE48_BITS,
{
    I16F48::from_num(x).to_bits()
}

/// `I16F48 + I16F48`: the sum of the bits, which must not overflow.
#[verifier::external_body]
pub(crate) fn fx48_add(a: i64, b: i64) -> (r: i64)
    requires
        i64::MIN <= a + b <= i64::MAX,
    ensures
        r == a + b,
{
    (I16F48::from_bits(a) + I16F48::from_bits(b)).to_bits()
}

/// `I16F48 * I16F48`: the wide product shifted right by 48. The product is
/// formed in 128 bits after a shift by 16 and must not overflow there (an
/// overflow panics in debug builds).
#[verifier::external_body]
pub(crate) fn fx48_mul_bits(a: i64, b: i64) -> (r: i64)
    requires
        -0x8000_0000_0000_0000_0000_0000_0000 <= a * b < 0x8000_0000_0000_0000_0000_0000_0000,
    ensures
        r == fx48_mul(a as int, b as int),
{
    (I16F48::from_bits(a) * I16F48::from_bits(b)).to_bits()
}

/// `I16F48 / I16F48`: the dividend's bits shifted left by 48 in 128 bits and
/// divided by the divisor's bits, rounded toward zero. Division by zero
/// panics, and so does, in debug builds, a quotient outside `i64`; both are
/// excluded.
#[verifier::external_body]
pub(crate) fn fx48_div_bits(a: i64, b: i64) -> (r: i64)
    requires
        b != 0,
        i64::MIN <= fx48_div(a as int, b as int) <= i64::MAX,
    ensures
        r == fx48_div(a as int, b as int),
{
    (I16F48::from_bits(a) / I16F48::from_bits(b)).to_bits()
}

/// `I16F48::sqrt`: the square root rounded down, so that
/// `result <= sqrt(x) < result + DELTA`. It panics for a negative value,
/// which is excluded; with 16 integer bits it cannot overflow.
#[verifier::external_body]
pub(crate) fn fx48_sqrt_bits(a: i64) -> (r: i64)
    requires
        a >= 0,
    ensures
        is_fx48_sqrt(a as int, r as int),
{
    I16F48::from_bits(a).sqrt().to_bits()
}

/// `I16F48::to_num::<I1F15>()`: the 33 surplus fractional bits are discarded,
/// rounding toward negative infinity; a value outside `[-1, 1)` does not fit
/// and panics in debug builds, so it is excluded.
#[verifier::external_body]
pub(crate) fn fx48_to_i1f15_bits(a: i64) -> (r: i16)
    requires
        i16::MIN <= (a as int) / (I16F48_TO_I1F15_SHIFT as int) <= i16::MAX,
    ensures
        r == (a as int) / (I16F48_TO_I1F15_SHIFT as int),
{
    I16F48::from_bits(a).to_num::<I1F15>().to_bits()
}

/// `2^16`, the scale of an `I16F16` value.
pub const ONE16_BITS: i32 = 65536;

/// `I16F16::from_num(x)` for an `i16`: exact, the bits are `x · 2^16`.
#[verifier::external_body]
pub(crate) fn fx16_from_i16(x: i16) -> (r: i32)
    ensures
        r == x * ONE16_BITS,
{
    I16F16::from_num(x).to_bits()
}

/// `x` clamped to the `i32` range.
pub open spec fn clamp_i32(x: int) -> int {
    if x < i32::MIN {
        i32::MIN as int
    } else if x > i32::MAX {
        i32::MAX as int
    } else {
        x
    }
}

/// `x` clamped to the `i16` range.
pub open spec fn clamp_i16(x: int) -> int {
    if x < i16::MIN {
        i16::MIN as int
    } else if x > i16::MAX {
        i16::MAX as int
    } else {
        x
    }
}

/// `I16F16::saturating_mul`: the product of the bits formed in 64 bits and
/// shifted right by 16 (rounding toward negative infinity); where that
/// overflows, `MIN` for operands of different signs and `MAX` otherwise,
/// which is the exact result clamped to the `I16F16` range.
#[verifier::external_body]
pub(crate) fn fx16_saturating_mul(a: i32, b: i32) -> (r: i32)
    ensures
        r == clamp_i32((a * b) / (ONE16_BITS as int)),
{
    I16F16::from_bits(a).saturating_mul(I16F16::from_bits(b)).to_bits()
}

/// `I16F16::saturating_add`: the sum of the bits, saturating at the bounds.
#[verifier::external_body]
pub(crate) fn fx16_saturating_add(a: i32, b: i32) -> (r: i32)
    ensures
        r == clamp_i32(a + b),
{
    I16F16::from_bits(a).saturating_add(I16F16::from_bits(b)).to_bits()
}

/// `I16F16::saturating_sub`: the difference of the bits, saturating at the
/// bounds.
#[verifier::external_body]
pub(crate) fn fx16_saturating_sub(a: i32, b: i32) -> (r: i32)
    ensures
        r == clamp_i32(a - b),
{
    I16F16::from_bits(a).saturating_sub(I16F16::from_bits(b)).to_bits()
}

/// `I16F16::saturating_to_num::<i16>()`: the integer part rounded toward
/// negative infinity, saturating at the bounds of `i16`.
#[verifier::external_body]
pub(crate) fn fx16_saturating_to_i16(a: i32) -> (r: i16)
    ensures
        r == clamp_i16((a as int) / (ONE16_BITS as int)),
{
    I16F16::from_bits(a).saturating_to_num::<i16>()
}

/// `fixed::consts::PI.to_num::<I3F29>()`: π with the bits beyond 29
/// fractional bits discarded, `⌊π · 2^29⌋`.
#[verifier::external_body]
pub(crate) fn i3f29_pi() -> (r: i32)
    ensures
        r == 1686629713,
{
    fixed::consts::PI.to_num::<I3F29>().to_bits()
}

/// `I3F29 + I3F29`: the sum of the bits, which must not overflow (an overflow
/// panics in debug builds).
#[verifier::external_body]
pub(crate) fn i3f29_add(a: i32, b: i32) -> (r: i32)
    requires
        i32::MIN <= a + b <= i32::MAX,
    ensures
        r == a + b,
{
    (I3F29::from_bits(a) + I3F29::from_bits(b)).to_bits()
}

} // verus!
