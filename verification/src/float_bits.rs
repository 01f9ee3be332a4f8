//! IEEE-754 bit-pattern logic for the two float widths.
//!
//! A 32-bit float is 1 sign bit, 8 exponent bits and 23 mantissa bits; a
//! 64-bit float is 1, 11 and 52. The spec functions below read those
//! fields and classify a pattern: an all-ones exponent with a non-zero
//! mantissa is a NaN (with a zero mantissa it is an infinity); an all-zero
//! exponent with a non-zero mantissa is a subnormal (with a zero mantissa
//! it is a signed zero); anything in between is a normal number.
//!
//! The `from_parts` functions assemble a pattern of a wanted category from
//! its fields, and the cover lemmas show that every pattern of the
//! category is assembled from its own fields — so a generator drawing the
//! fields uniformly can eventually reach every legal pattern.

use vstd::prelude::*;

verus! {

/// Sign bit of a 32-bit float pattern: 0 or 1.
pub open spec fn f32_sign(bits: u32) -> u32 {
    bits >> 31
}

/// Exponent field of a 32-bit float pattern: 8 bits.
pub open spec fn f32_exponent(bits: u32) -> u32 {
    (bits >> 23) & 0xff
}

/// Mantissa field of a 32-bit float pattern: 23 bits.
pub open spec fn f32_mantissa(bits: u32) -> u32 {
    bits & 0x007f_ffff
}

/// Assembles a 32-bit float pattern from its three fields.
pub open spec fn f32_from_fields(sign: u32, exponent: u32, mantissa: u32) -> u32 {
    (sign << 31) | (exponent << 23) | mantissa
}

/// The pattern is a NaN: exponent all ones, mantissa non-zero.
pub open spec fn f32_is_nan(bits: u32) -> bool {
    f32_exponent(bits) == 0xff && f32_mantissa(bits) != 0
}

/// The pattern is a subnormal: exponent all zeros, mantissa non-zero.
pub open spec fn f32_is_subnormal(bits: u32) -> bool {
    f32_exponent(bits) == 0 && f32_mantissa(bits) != 0
}

/// The pattern is a normal number: exponent neither all zeros nor all ones.
pub open spec fn f32_is_normal(bits: u32) -> bool {
    f32_exponent(bits) != 0 && f32_exponent(bits) != 0xff
}

/// The pattern is a signaling NaN: a NaN whose topmost mantissa bit is
/// clear.
pub open spec fn f32_is_signaling_nan(bits: u32) -> bool {
    f32_is_nan(bits) && bits & 0x0040_0000 == 0
}

/// Sign bit of a 64-bit float pattern: 0 or 1.
pub open spec fn f64_sign(bits: u64) -> u64 {
    bits >> 63
}

/// Exponent field of a 64-bit float pattern: 11 bits.
pub open spec fn f64_exponent(bits: u64) -> u64 {
    (bits >> 52) & 0x7ff
}

/// Mantissa field of a 64-bit float pattern: 52 bits.
pub open spec fn f64_mantissa(bits: u64) -> u64 {
    bits & 0x000f_ffff_ffff_ffff
}

/// Assembles a 64-bit float pattern from its three fields.
pub open spec fn f64_from_fields(sign: u64, exponent: u64, mantissa: u64) -> u64 {
    (sign << 63) | (exponent << 52) | mantissa
}

/// The pattern is a NaN: exponent all ones, mantissa non-zero.
pub open spec fn f64_is_nan(bits: u64) -> bool {
    f64_exponent(bits) == 0x7ff && f64_mantissa(bits) != 0
}

/// The pattern is a subnormal: exponent all zeros, mantissa non-zero.
pub open spec fn f64_is_subnormal(bits: u64) -> bool {
    f64_exponent(bits) == 0 && f64_mantissa(bits) != 0
}

/// The pattern is a normal number: exponent neither all zeros nor all ones.
pub open spec fn f64_is_normal(bits: u64) -> bool {
    f64_exponent(bits) != 0 && f64_exponent(bits) != 0x7ff
}

/// The pattern is a signaling NaN: a NaN whose topmost mantissa bit is
/// clear.
pub open spec fn f64_is_signaling_nan(bits: u64) -> bool {
    f64_is_nan(bits) && bits & 0x0008_0000_0000_0000 == 0
}

/// Builds a NaN pattern from a sign bit and a non-zero mantissa.
pub fn nan_f32_from_parts(sign: u32, mantissa: u32) -> (bits: u32)
    requires
        sign < 2,
        1 <= mantissa < 0x0080_0000,
    ensures
        bits == f32_from_fields(sign, 0xff, mantissa),
        f32_is_nan(bits),
        f32_sign(bits) == sign,
        f32_mantissa(bits) == mantissa,
{
    let bits = (sign << 31) | (0xffu32 << 23) | mantissa;
    proof {
        assert(f32_is_nan(bits) && f32_sign(bits) == sign && f32_mantissa(bits) == mantissa)
            by (bit_vector)
            requires
                sign < 2,
                1 <= mantissa < 0x0080_0000,
                bits == (sign << 31) | (0xffu32 << 23) | mantissa,
        ;
    }
    bits
}

/// Builds a subnormal pattern from a sign bit and a non-zero mantissa.
pub fn subnormal_f32_from_parts(sign: u32, mantissa: u32) -> (bits: u32)
    requires
        sign < 2,
        1 <= mantissa < 0x0080_0000,
    ensures
        bits == f32_from_fields(sign, 0, mantissa),
        f32_is_subnormal(bits),
        f32_sign(bits) == sign,
        f32_mantissa(bits) == mantissa,
{
    let bits = (sign << 31) | mantissa;
    proof {
        assert(bits == f32_from_fields(sign, 0, mantissa) && f32_is_subnormal(bits)
            && f32_sign(bits) == sign && f32_mantissa(bits) == mantissa)
            by (bit_vector)
            requires
                sign < 2,
                1 <= mantissa < 0x0080_0000,
                bits == (sign << 31) | mantissa,
        ;
    }
    bits
}

/// Builds a normal pattern from a sign bit, an exponent strictly between
/// all zeros and all ones, and a mantissa.
pub fn normal_f32_from_parts(sign: u32, exponent: u32, mantissa: u32) -> (bits: u32)
    requires
        sign < 2,
        1 <= exponent < 0xff,
        mantissa < 0x0080_0000,
    ensures
        bits == f32_from_fields(sign, exponent, mantissa),
        f32_is_normal(bits),
        f32_sign(bits) == sign,
        f32_exponent(bits) == exponent,
        f32_mantissa(bits) == mantissa,
{
    let bits = (sign << 31) | (exponent << 23) | mantissa;
    proof {
        assert(f32_is_normal(bits) && f32_sign(bits) == sign && f32_exponent(bits) == exponent
            && f32_mantissa(bits) == mantissa)
            by (bit_vector)
            requires
                sign < 2,
                1 <= exponent < 0xff,
                mantissa < 0x0080_0000,
                bits == (sign << 31) | (exponent << 23) | mantissa,
        ;
    }
    bits
}

/// Every NaN pattern is assembled from its own sign and mantissa fields,
/// which lie in the ranges that [`nan_f32_from_parts`] accepts: a draw
/// over those ranges can reach every NaN.
pub proof fn lemma_nan_f32_cover(bits: u32)
    requires
        f32_is_nan(bits),
    ensures
        f32_sign(bits) < 2,
        1 <= f32_mantissa(bits) < 0x0080_0000,
        f32_from_fields(f32_sign(bits), 0xff, f32_mantissa(bits)) == bits,
{
    assert(f32_sign(bits) < 2 && 1 <= f32_mantissa(bits) < 0x0080_0000
        && f32_from_fields(f32_sign(bits), 0xff, f32_mantissa(bits)) == bits)
        by (bit_vector)
        requires
            f32_is_nan(bits),
    ;
}

/// Every subnormal pattern is assembled from its own sign and mantissa
/// fields, which lie in the ranges that [`subnormal_f32_from_parts`]
/// accepts.
pub proof fn lemma_subnormal_f32_cover(bits: u32)
    requires
        f32_is_subnormal(bits),
    ensures
        f32_sign(bits) < 2,
        1 <= f32_mantissa(bits) < 0x0080_0000,
        f32_from_fields(f32_sign(bits), 0, f32_mantissa(bits)) == bits,
{
    assert(f32_sign(bits) < 2 && 1 <= f32_mantissa(bits) < 0x0080_0000
        && f32_from_fields(f32_sign(bits), 0, f32_mantissa(bits)) == bits)
        by (bit_vector)
        requires
            f32_is_subnormal(bits),
    ;
}

/// Every normal pattern is assembled from its own three fields, which lie
/// in the ranges that [`normal_f32_from_parts`] accepts.
pub proof fn lemma_normal_f32_cover(bits: u32)
    requires
        f32_is_normal(bits),
    ensures
        f32_sign(bits) < 2,
        1 <= f32_exponent(bits) < 0xff,
        f32_mantissa(bits) < 0x0080_0000,
        f32_from_fields(f32_sign(bits), f32_exponent(bits), f32_mantissa(bits)) == bits,
{
    assert(f32_sign(bits) < 2 && 1 <= f32_exponent(bits) < 0xff
        && f32_mantissa(bits) < 0x0080_0000
        && f32_from_fields(f32_sign(bits), f32_exponent(bits), f32_mantissa(bits)) == bits)
        by (bit_vector)
        requires
            f32_is_normal(bits),
    ;
}

/// Builds a NaN pattern from a sign bit and a non-zero mantissa.
pub fn nan_f64_from_parts(sign: u64, mantissa: u64) -> (bits: u64)
    requires
        sign < 2,
        1 <= mantissa < 0x0010_0000_0000_0000,
    ensures
        bits == f64_from_fields(sign, 0x7ff, mantissa),
        f64_is_nan(bits),
        f64_sign(bits) == sign,
        f64_mantissa(bits) == mantissa,
{
    let bits = (sign << 63) | (0x7ffu64 << 52) | mantissa;
    proof {
        assert(f64_is_nan(bits) && f64_sign(bits) == sign && f64_mantissa(bits) == mantissa)
            by (bit_vector)
            requires
                sign < 2,
                1 <= mantissa < 0x0010_0000_0000_0000,
                bits == (sign << 63) | (0x7ffu64 << 52) | mantissa,
        ;
    }
    bits
}

/// Builds a subnormal pattern from a sign bit and a non-zero mantissa.
pub fn subnormal_f64_from_parts(sign: u64, mantissa: u64) -> (bits: u64)
    requires
        sign < 2,
        1 <= mantissa < 0x0010_0000_0000_0000,
    ensures
        bits == f64_from_fields(sign, 0, mantissa),
        f64_is_subnormal(bits),
        f64_sign(bits) == sign,
        f64_mantissa(bits) == mantissa,
{
    let bits = (sign << 63) | mantissa;
    proof {
        assert(bits == f64_from_fields(sign, 0, mantissa) && f64_is_subnormal(bits)
            && f64_sign(bits) == sign && f64_mantissa(bits) == mantissa)
            by (bit_vector)
            requires
                sign < 2,
                1 <= mantissa < 0x0010_0000_0000_0000,
                bits == (sign << 63) | mantissa,
        ;
    }
    bits
}

/// Builds a normal pattern from a sign bit, an exponent strictly between
/// all zeros and all ones, and a mantissa.
pub fn normal_f64_from_parts(sign: u64, exponent: u64, mantissa: u64) -> (bits: u64)
    requires
        sign < 2,
        1 <= exponent < 0x7ff,
        mantissa < 0x0010_0000_0000_0000,
    ensures
        bits == f64_from_fields(sign, exponent, mantissa),
        f64_is_normal(bits),
        f64_sign(bits) == sign,
        f64_exponent(bits) == exponent,
        f64_mantissa(bits) == mantissa,
{
    let bits = (sign << 63) | (exponent << 52) | mantissa;
    proof {
        assert(f64_is_normal(bits) && f64_sign(bits) == sign && f64_exponent(bits) == exponent
            && f64_mantissa(bits) == mantissa)
            by (bit_vector)
            requires
                sign < 2,
                1 <= exponent < 0x7ff,
                mantissa < 0x0010_0000_0000_0000,
                bits == (sign << 63) | (exponent << 52) | mantissa,
        ;
    }
    bits
}

/// Every NaN pattern is assembled from its own sign and mantissa fields,
/// which lie in the ranges that [`nan_f64_from_parts`] accepts.
pub proof fn lemma_nan_f64_cover(bits: u64)
    requires
        f64_is_nan(bits),
    ensures
        f64_sign(bits) < 2,
        1 <= f64_mantissa(bits) < 0x0010_0000_0000_0000,
        f64_from_fields(f64_sign(bits), 0x7ff, f64_mantissa(bits)) == bits,
{
    assert(f64_sign(bits) < 2 && 1 <= f64_mantissa(bits) < 0x0010_0000_0000_0000
        && f64_from_fields(f64_sign(bits), 0x7ff, f64_mantissa(bits)) == bits)
        by (bit_vector)
        requires
            f64_is_nan(bits),
    ;
}

/// Every subnormal pattern is assembled from its own sign and mantissa
/// fields, which lie in the ranges that [`subnormal_f64_from_parts`]
/// accepts.
pub proof fn lemma_subnormal_f64_cover(bits: u64)
    requires
        f64_is_subnormal(bits),
    ensures
        f64_sign(bits) < 2,
        1 <= f64_mantissa(bits) < 0x0010_0000_0000_0000,
        f64_from_fields(f64_sign(bits), 0, f64_mantissa(bits)) == bits,
{
    assert(f64_sign(bits) < 2 && 1 <= f64_mantissa(bits) < 0x0010_0000_0000_0000
        && f64_from_fields(f64_sign(bits), 0, f64_mantissa(bits)) == bits)
        by (bit_vector)
        requires
            f64_is_subnormal(bits),
    ;
}

/// Every normal pattern is assembled from its own three fields, which lie
/// in the ranges that [`normal_f64_from_parts`] accepts.
pub proof fn lemma_normal_f64_cover(bits: u64)
    requires
        f64_is_normal(bits),
    ensures
        f64_sign(bits) < 2,
        1 <= f64_exponent(bits) < 0x7ff,
        f64_mantissa(bits) < 0x0010_0000_0000_0000,
        f64_from_fields(f64_sign(bits), f64_exponent(bits), f64_mantissa(bits)) == bits,
{
    assert(f64_sign(bits) < 2 && 1 <= f64_exponent(bits) < 0x7ff
        && f64_mantissa(bits) < 0x0010_0000_0000_0000
        && f64_from_fields(f64_sign(bits), f64_exponent(bits), f64_mantissa(bits)) == bits)
        by (bit_vector)
        requires
            f64_is_normal(bits),
    ;
}

} // verus!
