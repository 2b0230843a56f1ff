//! Floating-point values held as their bit patterns.
//!
//! Verified code never computes with floating point directly: a binary16,
//! bfloat16, binary32 or binary64 value is carried as its IEEE-754 bit
//! pattern in an unsigned integer. Classification (NaN, infinity, sign) and
//! ordering of such values are decided here by verified integer code over
//! the bit fields. Rounding conversions and arithmetic, which depend on the
//! hardware's float unit, sit behind trusted wrappers whose results are
//! named by uninterpreted spec functions.

use vstd::prelude::*;

verus! {

/// A binary16 (half precision) value held as its bit pattern.
#[derive(Clone, Copy, PartialEq, Eq, Structural, Debug)]
pub struct F16(pub u16);

/// A bfloat16 value held as its bit pattern.
#[derive(Clone, Copy, PartialEq, Eq, Structural, Debug)]
pub struct BF16(pub u16);

/// A binary32 (single precision) value held as its bit pattern.
#[derive(Clone, Copy, PartialEq, Eq, Structural, Debug)]
pub struct F32(pub u32);

/// A binary64 (double precision) value held as its bit pattern.
#[derive(Clone, Copy, PartialEq, Eq, Structural, Debug)]
pub struct F64(pub u64);

/// Bit pattern of binary64 `1.0`.
pub const F64_ONE_BITS: u64 = 0x3FF0_0000_0000_0000;

/// Bit pattern of binary64 `10.0`.
pub const F64_TEN_BITS: u64 = 0x4024_0000_0000_0000;

// --- classification and ordering, decided on the bit fields -----------------

pub open spec fn f32_is_nan_spec(b: u32) -> bool {
    (b >> 23) & 0xFF == 0xFF && b & 0x007F_FFFF != 0
}

pub open spec fn f32_is_neg_spec(b: u32) -> bool {
    b >> 31 == 1
}

/// Magnitude bits: everything but the sign.
pub open spec fn f32_mag_spec(b: u32) -> u32 {
    b & 0x7FFF_FFFF
}

/// IEEE-754 `<` on two binary32 bit patterns: false when either is NaN, the
/// two zeros are equal, otherwise the sign and then the magnitude decide
/// (the encoding is monotone in the magnitude bits for a fixed sign).
pub open spec fn f32_lt_spec(a: u32, b: u32) -> bool {
    if f32_is_nan_spec(a) || f32_is_nan_spec(b) {
        false
    } else if f32_mag_spec(a) == 0 && f32_mag_spec(b) == 0 {
        false
    } else if f32_is_neg_spec(a) && f32_is_neg_spec(b) {
        f32_mag_spec(b) < f32_mag_spec(a)
    } else if f32_is_neg_spec(a) {
        true
    } else if f32_is_neg_spec(b) {
        false
    } else {
        f32_mag_spec(a) < f32_mag_spec(b)
    }
}

/// IEEE-754 `>=` on two binary32 bit patterns: false when either is NaN.
pub open spec fn f32_ge_spec(a: u32, b: u32) -> bool {
    !f32_is_nan_spec(a) && !f32_is_nan_spec(b) && !f32_lt_spec(a, b)
}

pub fn f32_is_nan(b: u32) -> (r: bool)
    ensures
        r == f32_is_nan_spec(b),
{
    (b >> 23) & 0xFF == 0xFF && b & 0x007F_FFFF != 0
}

pub fn f32_lt(a: u32, b: u32) -> (r: bool)
    ensures
        r == f32_lt_spec(a, b),
{
    if f32_is_nan(a) || f32_is_nan(b) {
        false
    } else if a & 0x7FFF_FFFF == 0 && b & 0x7FFF_FFFF == 0 {
        false
    } else if a >> 31 == 1 && b >> 31 == 1 {
        b & 0x7FFF_FFFF < a & 0x7FFF_FFFF
    } else if a >> 31 == 1 {
        true
    } else if b >> 31 == 1 {
        false
    } else {
        a & 0x7FFF_FFFF < b & 0x7FFF_FFFF
    }
}

pub fn f32_ge(a: u32, b: u32) -> (r: bool)
    ensures
        r == f32_ge_spec(a, b),
{
    !f32_is_nan(a) && !f32_is_nan(b) && !f32_lt(a, b)
}

pub open spec fn f64_is_nan_spec(b: u64) -> bool {
    (b >> 52) & 0x7FF == 0x7FF && b & 0x000F_FFFF_FFFF_FFFF != 0
}

pub open spec fn f64_is_inf_spec(b: u64) -> bool {
    (b >> 52) & 0x7FF == 0x7FF && b & 0x000F_FFFF_FFFF_FFFF == 0
}

pub open spec fn f64_is_neg_spec(b: u64) -> bool {
    b >> 63 == 1
}

/// Magnitude bits: everything but the sign.
pub open spec fn f64_mag_spec(b: u64) -> u64 {
    b & 0x7FFF_FFFF_FFFF_FFFF
}

/// IEEE-754 `<` on two binary64 bit patterns, as for binary32.
pub open spec fn f64_lt_spec(a: u64, b: u64) -> bool {
    if f64_is_nan_spec(a) || f64_is_nan_spec(b) {
        false
    } else if f64_mag_spec(a) == 0 && f64_mag_spec(b) == 0 {
        false
    } else if f64_is_neg_spec(a) && f64_is_neg_spec(b) {
        f64_mag_spec(b) < f64_mag_spec(a)
    } else if f64_is_neg_spec(a) {
        true
    } else if f64_is_neg_spec(b) {
        false
    } else {
        f64_mag_spec(a) < f64_mag_spec(b)
    }
}

/// IEEE-754 `>` on two binary64 bit patterns: false when either is NaN.
pub open spec fn f64_gt_spec(a: u64, b: u64) -> bool {
    f64_lt_spec(b, a)
}

pub fn f64_is_nan(b: u64) -> (r: bool)
    ensures
        r == f64_is_nan_spec(b),
{
    (b >> 52) & 0x7FF == 0x7FF && b & 0x000F_FFFF_FFFF_FFFF != 0
}

pub fn f64_is_inf(b: u64) -> (r: bool)
    ensures
        r == f64_is_inf_spec(b),
{
    (b >> 52) & 0x7FF == 0x7FF && b & 0x000F_FFFF_FFFF_FFFF == 0
}

pub fn f64_is_neg(b: u64) -> (r: bool)
    ensures
        r == f64_is_neg_spec(b),
{
    b >> 63 == 1
}

pub fn f64_lt(a: u64, b: u64) -> (r: bool)
    ensures
        r == f64_lt_spec(a, b),
{
    if f64_is_nan(a) || f64_is_nan(b) {
        false
    } else if a & 0x7FFF_FFFF_FFFF_FFFF == 0 && b & 0x7FFF_FFFF_FFFF_FFFF == 0 {
        false
    } else if a >> 63 == 1 && b >> 63 == 1 {
        b & 0x7FFF_FFFF_FFFF_FFFF < a & 0x7FFF_FFFF_FFFF_FFFF
    } else if a >> 63 == 1 {
        true
    } else if b >> 63 == 1 {
        false
    } else {
        a & 0x7FFF_FFFF_FFFF_FFFF < b & 0x7FFF_FFFF_FFFF_FFFF
    }
}

pub fn f64_gt(a: u64, b: u64) -> (r: bool)
    ensures
        r == f64_gt_spec(a, b),
{
    f64_lt(b, a)
}

// --- named results of the hardware's rounding conversions --------------------

/// Bit pattern of the binary64 value nearest to the signed integer `x`.
pub uninterp spec fn f64_of_i64(x: i64) -> u64;

/// Bit pattern of the binary64 value nearest to the unsigned integer `x`.
pub uninterp spec fn f64_of_u64(x: u64) -> u64;

/// The binary64 value `b`, truncated toward zero to a signed integer; `None`
/// when `b` is NaN or out of the signed 64-bit range.
pub uninterp spec fn i64_of_f64(b: u64) -> Option<i64>;

/// The binary32 value `b` widened exactly to binary64, as a bit pattern.
pub uninterp spec fn f64_of_f32(b: u32) -> u64;

/// The binary64 value `b` narrowed to binary32 (round to nearest, saturating
/// to infinity), as a bit pattern.
pub uninterp spec fn f32_of_f64(b: u64) -> u32;

// --- named results of binary64 arithmetic ------------------------------------

/// Bit pattern of the binary64 difference of the values of `a` and `b`.
pub uninterp spec fn f64_sub_spec(a: u64, b: u64) -> u64;

/// Bit pattern of the binary64 product of the values of `a` and `b`.
pub uninterp spec fn f64_mul_spec(a: u64, b: u64) -> u64;

/// Bit pattern of the binary64 quotient of the values of `a` and `b`.
pub uninterp spec fn f64_div_spec(a: u64, b: u64) -> u64;

/// Bit pattern of the binary64 square root of the value of `a`.
pub uninterp spec fn f64_sqrt_spec(a: u64) -> u64;

/// Bit pattern of the value of `a` rounded to the nearest integral binary64
/// value, ties away from zero.
pub uninterp spec fn f64_round_spec(a: u64) -> u64;

// --- trusted wrappers ---------------------------------------------------------
//
// Verified code holds binary64 values as `u64` bit patterns, so each body
// below moves between a pattern and the value with `bytemuck::cast`, which
// reinterprets the bits of any plain 8-byte value. Where nothing else pins
// the value's type, a first binding through `num_traits::ToPrimitive::to_f64`
// fixes it, and the value is then replaced through the cast.

/// Relies on num_traits::ToPrimitive::to_f64 for i64, which converts with
/// the primitive `as` cast (round to nearest) and never returns `None`.
#[verifier::external_body]
pub fn f64_from_i64(x: i64) -> (r: u64)
    ensures
        r == f64_of_i64(x),
{
    bytemuck::cast(num_traits::ToPrimitive::to_f64(&x).unwrap())
}

/// Relies on num_traits::ToPrimitive::to_f64 for u64, which converts with
/// the primitive `as` cast (round to nearest) and never returns `None`.
#[verifier::external_body]
pub fn f64_from_u64(x: u64) -> (r: u64)
    ensures
        r == f64_of_u64(x),
{
    bytemuck::cast(num_traits::ToPrimitive::to_f64(&x).unwrap())
}

/// Relies on num_traits::ToPrimitive::to_i64 for the double-precision float
/// type: truncation toward zero, `None` for NaN or out-of-range values.
#[verifier::external_body]
pub fn i64_from_f64(b: u64) -> (r: Option<i64>)
    ensures
        r == i64_of_f64(b),
{
    let mut v = num_traits::ToPrimitive::to_f64(&0u8).unwrap();
    v = bytemuck::cast(b);
    num_traits::ToPrimitive::to_i64(&v)
}

/// Relies on num_traits::ToPrimitive::to_f64 for the single-precision float
/// type: an exact widening, never `None`.
#[verifier::external_body]
pub fn f64_from_f32(b: u32) -> (r: u64)
    ensures
        r == f64_of_f32(b),
{
    let mut v = num_traits::ToPrimitive::to_f32(&0u8).unwrap();
    v = bytemuck::cast(b);
    bytemuck::cast(num_traits::ToPrimitive::to_f64(&v).unwrap())
}

/// Relies on num_traits::ToPrimitive::to_f32 for the double-precision float
/// type: the primitive narrowing `as` cast, never `None`.
#[verifier::external_body]
pub fn f32_from_f64(b: u64) -> (r: u32)
    ensures
        r == f32_of_f64(b),
{
    let mut v = num_traits::ToPrimitive::to_f64(&0u8).unwrap();
    v = bytemuck::cast(b);
    bytemuck::cast(num_traits::ToPrimitive::to_f32(&v).unwrap())
}

/// Relies on the primitive subtraction of two double-precision values.
#[verifier::external_body]
pub fn f64_sub(a: u64, b: u64) -> (r: u64)
    ensures
        r == f64_sub_spec(a, b),
{
    let mut x = num_traits::ToPrimitive::to_f64(&0u8).unwrap();
    x = bytemuck::cast(a);
    let mut y = num_traits::ToPrimitive::to_f64(&0u8).unwrap();
    y = bytemuck::cast(b);
    bytemuck::cast(x - y)
}

/// Relies on the primitive multiplication of two double-precision values.
#[verifier::external_body]
pub fn f64_mul(a: u64, b: u64) -> (r: u64)
    ensures
        r == f64_mul_spec(a, b),
{
    let mut x = num_traits::ToPrimitive::to_f64(&0u8).unwrap();
    x = bytemuck::cast(a);
    let mut y = num_traits::ToPrimitive::to_f64(&0u8).unwrap();
    y = bytemuck::cast(b);
    bytemuck::cast(x * y)
}

/// Relies on the primitive division of two double-precision values, which
/// yields an infinity or NaN (never a fault) for a zero divisor.
#[verifier::external_body]
pub fn f64_div(a: u64, b: u64) -> (r: u64)
    ensures
        r == f64_div_spec(a, b),
{
    let mut x = num_traits::ToPrimitive::to_f64(&0u8).unwrap();
    x = bytemuck::cast(a);
    let mut y = num_traits::ToPrimitive::to_f64(&0u8).unwrap();
    y = bytemuck::cast(b);
    bytemuck::cast(x / y)
}

/// Relies on the square root of a double-precision value (NaN for a negative
/// argument).
#[verifier::external_body]
pub fn f64_sqrt(a: u64) -> (r: u64)
    ensures
        r == f64_sqrt_spec(a),
{
    let mut x = num_traits::ToPrimitive::to_f64(&0u8).unwrap();
    x = bytemuck::cast(a);
    bytemuck::cast(x.sqrt())
}

/// Relies on rounding a double-precision value to the nearest integral
/// value, ties away from zero.
#[verifier::external_body]
pub fn f64_round(a: u64) -> (r: u64)
    ensures
        r == f64_round_spec(a),
{
    let mut x = num_traits::ToPrimitive::to_f64(&0u8).unwrap();
    x = bytemuck::cast(a);
    bytemuck::cast(x.round())
}

// --- binary16 and bfloat16, converted by verified bit algebra ----------------
//
// A 16-bit float is small enough that its widening to binary64 is exact: a
// finite binary16 value is an integer of at most 11 bits times a power of
// two, and such a product is computed exactly by binary64 multiplication.
// Narrowing rounds to nearest, ties to even, directly on the bit fields of
// the binary32 form of the value.

/// Bit pattern of the binary64 value `2^k`.
pub open spec fn f64_pow2_bits(k: int) -> u64
    recommends
        -1022 <= k < 1024,
{
    ((1023 + k) as u64) << 52
}

pub fn f64_pow2(k: i64) -> (r: u64)
    requires
        -1022 <= k < 1024,
    ensures
        r == f64_pow2_bits(k as int),
{
    ((1023 + k) as u64) << 52
}

/// The binary16 value `b` widened exactly to binary64, as a bit pattern.
pub open spec fn f64_of_f16_spec(b: u16) -> u64 {
    let s = (b >> 15) as u64;
    let e = ((b >> 10) & 0x1F) as u64;
    let m = (b & 0x3FF) as u64;
    if e == 0x1F {
        if m == 0 {
            (s << 63) | 0x7FF0_0000_0000_0000u64
        } else {
            (s << 63) | 0x7FF8_0000_0000_0000u64 | (m << 42)
        }
    } else if e == 0 {
        if m == 0 {
            s << 63
        } else {
            (s << 63) | f64_mul_spec(f64_of_i64(m as i64), f64_pow2_bits(-24))
        }
    } else {
        (s << 63) | f64_mul_spec(f64_of_i64((0x400 + m) as i64), f64_pow2_bits(e as int - 25))
    }
}

pub fn f16_widen(b: u16) -> (r: u64)
    ensures
        r == f64_of_f16_spec(b),
{
    let s: u64 = (b >> 15) as u64;
    let e: u64 = ((b >> 10) & 0x1F) as u64;
    let m: u64 = (b & 0x3FF) as u64;
    proof {
        assert((b >> 10) & 0x1F <= 0x1F && (b & 0x3FF) <= 0x3FF) by (bit_vector);
    }
    if e == 0x1F {
        if m == 0 {
            (s << 63) | 0x7FF0_0000_0000_0000u64
        } else {
            (s << 63) | 0x7FF8_0000_0000_0000u64 | (m << 42)
        }
    } else if e == 0 {
        if m == 0 {
            s << 63
        } else {
            (s << 63) | f64_mul(f64_from_i64(m as i64), f64_pow2(-24))
        }
    } else {
        (s << 63) | f64_mul(f64_from_i64((0x400 + m) as i64), f64_pow2(e as i64 - 25))
    }
}

/// The binary32 bit pattern `x` narrowed to binary16: round to nearest,
/// ties to even; values too large become infinity, NaN stays NaN (made
/// quiet), values too small to round to the least subnormal become a
/// signed zero.
pub open spec fn f16_of_f32_bits_spec(x: u32) -> u16 {
    let s = ((x >> 16) & 0x8000) as u16;
    let e = (x >> 23) & 0xFF;
    let m = x & 0x7F_FFFF;
    if e == 0xFF {
        if m == 0 {
            s | 0x7C00
        } else {
            s | 0x7E00 | (((m >> 13) & 0x1FF) as u16)
        }
    } else if e >= 113 {
        let v = (((e - 112) as u32) << 10) | (m >> 13);
        let round = m & 0x1FFF;
        let v2: u32 = if round > 0x1000 || (round == 0x1000 && v & 1 == 1) {
            (v + 1) as u32
        } else {
            v
        };
        if v2 >= 0x7C00 {
            s | 0x7C00
        } else {
            s | (v2 as u16)
        }
    } else if e >= 102 {
        let full = 0x80_0000u32 | m;
        let shift = (126 - e) as u32;
        let v = full >> shift;
        let rem = full & (((1u32 << shift) - 1) as u32);
        let halfway = 1u32 << ((shift - 1) as u32);
        let v2: u32 = if rem > halfway || (rem == halfway && v & 1 == 1) {
            (v + 1) as u32
        } else {
            v
        };
        s | (v2 as u16)
    } else {
        s
    }
}

pub fn f16_from_f32_bits(x: u32) -> (r: u16)
    ensures
        r == f16_of_f32_bits_spec(x),
{
    let s: u16 = ((x >> 16) & 0x8000) as u16;
    let e: u32 = (x >> 23) & 0xFF;
    let m: u32 = x & 0x7F_FFFF;
    proof {
        assert((x >> 23) & 0xFF <= 0xFF && (x & 0x7F_FFFF) <= 0x7F_FFFF) by (bit_vector);
    }
    if e == 0xFF {
        if m == 0 {
            s | 0x7C00
        } else {
            s | 0x7E00 | (((m >> 13) & 0x1FF) as u16)
        }
    } else if e >= 113 {
        let v: u32 = ((e - 112) << 10) | (m >> 13);
        proof {
            let e0 = e;
            let m0 = m;
            assert((((e0 - 112) as u32) << 10) | (m0 >> 13) <= 0x40000 && (m0 & 0x1FFF) <= 0x1FFF)
                by (bit_vector)
                requires e0 <= 0xFF && 113 <= e0 && m0 <= 0x7F_FFFF;
        }
        let round: u32 = m & 0x1FFF;
        let v2: u32 = if round > 0x1000 || (round == 0x1000 && v & 1 == 1) { v + 1 } else { v };
        if v2 >= 0x7C00 {
            s | 0x7C00
        } else {
            s | (v2 as u16)
        }
    } else if e >= 102 {
        let full: u32 = 0x80_0000u32 | m;
        let shift: u32 = 126 - e;
        let shm1: u32 = shift - 1;
        proof {
            let m0 = m;
            let sh = shift;
            let s1 = shm1;
            assert((0x80_0000u32 | m0) >> sh <= 0x400 && 1u32 << s1 >= 1 && (1u32 << sh) >= 1)
                by (bit_vector)
                requires 14 <= sh && sh <= 24 && 13 <= s1 && s1 <= 23 && m0 <= 0x7F_FFFF;
        }
        let v: u32 = full >> shift;
        let rem: u32 = full & ((1u32 << shift) - 1);
        let halfway: u32 = 1u32 << shm1;
        let v2: u32 = if rem > halfway || (rem == halfway && v & 1 == 1) { v + 1 } else { v };
        s | (v2 as u16)
    } else {
        s
    }
}

/// The binary64 value `b` narrowed to binary16, through binary32.
pub open spec fn f16_of_f64_spec(b: u64) -> u16 {
    f16_of_f32_bits_spec(f32_of_f64(b))
}

pub fn f16_narrow(b: u64) -> (r: u16)
    ensures
        r == f16_of_f64_spec(b),
{
    f16_from_f32_bits(f32_from_f64(b))
}

/// The bfloat16 value `b` widened exactly to binary64: a bfloat16 bit
/// pattern is the upper half of a binary32 one.
pub open spec fn f64_of_bf16_spec(b: u16) -> u64 {
    f64_of_f32((b as u32) << 16)
}

pub fn bf16_widen(b: u16) -> (r: u64)
    ensures
        r == f64_of_bf16_spec(b),
{
    f64_from_f32((b as u32) << 16)
}

/// The binary32 bit pattern `x` narrowed to bfloat16: round to nearest,
/// ties to even, on the low 16 bits; NaN stays NaN (made quiet).
pub open spec fn bf16_of_f32_bits_spec(x: u32) -> u16 {
    if f32_is_nan_spec(x) {
        ((x >> 16) as u16) | 0x0040
    } else {
        let upper = x >> 16;
        let lower = x & 0xFFFF;
        let v: u32 = if lower > 0x8000 || (lower == 0x8000 && upper & 1 == 1) {
            (upper + 1) as u32
        } else {
            upper
        };
        v as u16
    }
}

pub fn bf16_from_f32_bits(x: u32) -> (r: u16)
    ensures
        r == bf16_of_f32_bits_spec(x),
{
    if f32_is_nan(x) {
        ((x >> 16) as u16) | 0x0040
    } else {
        let upper: u32 = x >> 16;
        let lower: u32 = x & 0xFFFF;
        proof {
            assert(x >> 16 <= 0xFFFF) by (bit_vector);
        }
        let v: u32 = if lower > 0x8000 || (lower == 0x8000 && upper & 1 == 1) {
            upper + 1
        } else {
            upper
        };
        v as u16
    }
}

/// The binary64 value `b` narrowed to bfloat16, through binary32.
pub open spec fn bf16_of_f64_spec(b: u64) -> u16 {
    bf16_of_f32_bits_spec(f32_of_f64(b))
}

pub fn bf16_narrow(b: u64) -> (r: u16)
    ensures
        r == bf16_of_f64_spec(b),
{
    bf16_from_f32_bits(f32_from_f64(b))
}

} // verus!
