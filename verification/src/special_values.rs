//! The enumerated "special" float values, as IEEE-754 bit patterns.
//!
//! For each float width the set holds both zeros, both infinities, one and
//! its negation, the type minimum and maximum, the smallest positive
//! normal and its negation, and the machine epsilon and its negation:
//! twelve values that uniform sampling would almost never hit. The
//! `*_value` functions map a small index to one of them, so that a uniform
//! draw over the indices reaches each value; the cover lemmas show that
//! every special value is the image of some index.

use vstd::prelude::*;

use crate::float_bits::f32_is_nan;
use crate::float_bits::f32_is_normal;
use crate::float_bits::f32_is_subnormal;
use crate::float_bits::f64_is_nan;
use crate::float_bits::f64_is_normal;
use crate::float_bits::f64_is_subnormal;

verus! {

pub const F32_ZERO_BITS: u32 = 0x0000_0000;

pub const F32_NEG_ZERO_BITS: u32 = 0x8000_0000;

pub const F32_INFINITY_BITS: u32 = 0x7f80_0000;

pub const F32_NEG_INFINITY_BITS: u32 = 0xff80_0000;

pub const F32_ONE_BITS: u32 = 0x3f80_0000;

pub const F32_NEG_ONE_BITS: u32 = 0xbf80_0000;

pub const F32_MIN_BITS: u32 = 0xff7f_ffff;

pub const F32_MAX_BITS: u32 = 0x7f7f_ffff;

pub const F32_MIN_POSITIVE_BITS: u32 = 0x0080_0000;

pub const F32_NEG_MIN_POSITIVE_BITS: u32 = 0x8080_0000;

pub const F32_EPSILON_BITS: u32 = 0x3400_0000;

pub const F32_NEG_EPSILON_BITS: u32 = 0xb400_0000;

pub const F64_ZERO_BITS: u64 = 0x0000_0000_0000_0000;

pub const F64_NEG_ZERO_BITS: u64 = 0x8000_0000_0000_0000;

pub const F64_INFINITY_BITS: u64 = 0x7ff0_0000_0000_0000;

pub const F64_NEG_INFINITY_BITS: u64 = 0xfff0_0000_0000_0000;

pub const F64_ONE_BITS: u64 = 0x3ff0_0000_0000_0000;

pub const F64_NEG_ONE_BITS: u64 = 0xbff0_0000_0000_0000;

pub const F64_MIN_BITS: u64 = 0xffef_ffff_ffff_ffff;

pub const F64_MAX_BITS: u64 = 0x7fef_ffff_ffff_ffff;

pub const F64_MIN_POSITIVE_BITS: u64 = 0x0010_0000_0000_0000;

pub const F64_NEG_MIN_POSITIVE_BITS: u64 = 0x8010_0000_0000_0000;

pub const F64_EPSILON_BITS: u64 = 0x3cb0_0000_0000_0000;

pub const F64_NEG_EPSILON_BITS: u64 = 0xbcb0_0000_0000_0000;

/// The pattern is one of the twelve special 32-bit values.
pub open spec fn f32_is_special(bits: u32) -> bool {
    ||| bits == F32_ZERO_BITS
    ||| bits == F32_NEG_ZERO_BITS
    ||| bits == F32_INFINITY_BITS
    ||| bits == F32_NEG_INFINITY_BITS
    ||| bits == F32_ONE_BITS
    ||| bits == F32_NEG_ONE_BITS
    ||| bits == F32_MIN_BITS
    ||| bits == F32_MAX_BITS
    ||| bits == F32_MIN_POSITIVE_BITS
    ||| bits == F32_NEG_MIN_POSITIVE_BITS
    ||| bits == F32_EPSILON_BITS
    ||| bits == F32_NEG_EPSILON_BITS
}

/// The special 32-bit value at the given index.
pub open spec fn f32_special_spec(k: int) -> u32 {
    if k == 0 {
        F32_ZERO_BITS
    } else if k == 1 {
        F32_NEG_ZERO_BITS
    } else if k == 2 {
        F32_INFINITY_BITS
    } else if k == 3 {
        F32_NEG_INFINITY_BITS
    } else if k == 4 {
        F32_ONE_BITS
    } else if k == 5 {
        F32_NEG_ONE_BITS
    } else if k == 6 {
        F32_MIN_BITS
    } else if k == 7 {
        F32_MAX_BITS
    } else if k == 8 {
        F32_MIN_POSITIVE_BITS
    } else if k == 9 {
        F32_NEG_MIN_POSITIVE_BITS
    } else if k == 10 {
        F32_EPSILON_BITS
    } else {
        F32_NEG_EPSILON_BITS
    }
}

/// Maps an index to the special 32-bit value it selects.
pub fn f32_special_value(k: u8) -> (bits: u32)
    requires
        k < 12,
    ensures
        bits == f32_special_spec(k as int),
        f32_is_special(bits),
{
    match k {
        0 => F32_ZERO_BITS,
        1 => F32_NEG_ZERO_BITS,
        2 => F32_INFINITY_BITS,
        3 => F32_NEG_INFINITY_BITS,
        4 => F32_ONE_BITS,
        5 => F32_NEG_ONE_BITS,
        6 => F32_MIN_BITS,
        7 => F32_MAX_BITS,
        8 => F32_MIN_POSITIVE_BITS,
        9 => F32_NEG_MIN_POSITIVE_BITS,
        10 => F32_EPSILON_BITS,
        _ => F32_NEG_EPSILON_BITS,
    }
}

/// Every special 32-bit value is selected by some index below twelve: a
/// uniform draw over the indices can reach each of them.
pub proof fn lemma_special_f32_cover(bits: u32)
    requires
        f32_is_special(bits),
    ensures
        exists|k: int| 0 <= k < 12 && f32_special_spec(k) == bits,
{
    if bits == F32_ZERO_BITS {
        assert(f32_special_spec(0) == bits);
    } else if bits == F32_NEG_ZERO_BITS {
        assert(f32_special_spec(1) == bits);
    } else if bits == F32_INFINITY_BITS {
        assert(f32_special_spec(2) == bits);
    } else if bits == F32_NEG_INFINITY_BITS {
        assert(f32_special_spec(3) == bits);
    } else if bits == F32_ONE_BITS {
        assert(f32_special_spec(4) == bits);
    } else if bits == F32_NEG_ONE_BITS {
        assert(f32_special_spec(5) == bits);
    } else if bits == F32_MIN_BITS {
        assert(f32_special_spec(6) == bits);
    } else if bits == F32_MAX_BITS {
        assert(f32_special_spec(7) == bits);
    } else if bits == F32_MIN_POSITIVE_BITS {
        assert(f32_special_spec(8) == bits);
    } else if bits == F32_NEG_MIN_POSITIVE_BITS {
        assert(f32_special_spec(9) == bits);
    } else if bits == F32_EPSILON_BITS {
        assert(f32_special_spec(10) == bits);
    } else {
        assert(f32_special_spec(11) == bits);
    }
}

/// The pattern is one of the twelve special 64-bit values.
pub open spec fn f64_is_special(bits: u64) -> bool {
    ||| bits == F64_ZERO_BITS
    ||| bits == F64_NEG_ZERO_BITS
    ||| bits == F64_INFINITY_BITS
    ||| bits == F64_NEG_INFINITY_BITS
    ||| bits == F64_ONE_BITS
    ||| bits == F64_NEG_ONE_BITS
    ||| bits == F64_MIN_BITS
    ||| bits == F64_MAX_BITS
    ||| bits == F64_MIN_POSITIVE_BITS
    ||| bits == F64_NEG_MIN_POSITIVE_BITS
    ||| bits == F64_EPSILON_BITS
    ||| bits == F64_NEG_EPSILON_BITS
}

/// The special 64-bit value at the given index.
pub open spec fn f64_special_spec(k: int) -> u64 {
    if k == 0 {
        F64_ZERO_BITS
    } else if k == 1 {
        F64_NEG_ZERO_BITS
    } else if k == 2 {
        F64_INFINITY_BITS
    } else if k == 3 {
        F64_NEG_INFINITY_BITS
    } else if k == 4 {
        F64_ONE_BITS
    } else if k == 5 {
        F64_NEG_ONE_BITS
    } else if k == 6 {
        F64_MIN_BITS
    } else if k == 7 {
        F64_MAX_BITS
    } else if k == 8 {
        F64_MIN_POSITIVE_BITS
    } else if k == 9 {
        F64_NEG_MIN_POSITIVE_BITS
    } else if k == 10 {
        F64_EPSILON_BITS
    } else {
        F64_NEG_EPSILON_BITS
    }
}

/// Maps an index to the special 64-bit value it selects.
pub fn f64_special_value(k: u8) -> (bits: u64)
    requires
        k < 12,
    ensures
        bits == f64_special_spec(k as int),
        f64_is_special(bits),
{
    match k {
        0 => F64_ZERO_BITS,
        1 => F64_NEG_ZERO_BITS,
        2 => F64_INFINITY_BITS,
        3 => F64_NEG_INFINITY_BITS,
        4 => F64_ONE_BITS,
        5 => F64_NEG_ONE_BITS,
        6 => F64_MIN_BITS,
        7 => F64_MAX_BITS,
        8 => F64_MIN_POSITIVE_BITS,
        9 => F64_NEG_MIN_POSITIVE_BITS,
        10 => F64_EPSILON_BITS,
        _ => F64_NEG_EPSILON_BITS,
    }
}

/// Every special 64-bit value is selected by some index below twelve.
pub proof fn lemma_special_f64_cover(bits: u64)
    requires
        f64_is_special(bits),
    ensures
        exists|k: int| 0 <= k < 12 && f64_special_spec(k) == bits,
{
    if bits == F64_ZERO_BITS {
        assert(f64_special_spec(0) == bits);
    } else if bits == F64_NEG_ZERO_BITS {
        assert(f64_special_spec(1) == bits);
    } else if bits == F64_INFINITY_BITS {
        assert(f64_special_spec(2) == bits);
    } else if bits == F64_NEG_INFINITY_BITS {
        assert(f64_special_spec(3) == bits);
    } else if bits == F64_ONE_BITS {
        assert(f64_special_spec(4) == bits);
    } else if bits == F64_NEG_ONE_BITS {
        assert(f64_special_spec(5) == bits);
    } else if bits == F64_MIN_BITS {
        assert(f64_special_spec(6) == bits);
    } else if bits == F64_MAX_BITS {
        assert(f64_special_spec(7) == bits);
    } else if bits == F64_MIN_POSITIVE_BITS {
        assert(f64_special_spec(8) == bits);
    } else if bits == F64_NEG_MIN_POSITIVE_BITS {
        assert(f64_special_spec(9) == bits);
    } else if bits == F64_EPSILON_BITS {
        assert(f64_special_spec(10) == bits);
    } else {
        assert(f64_special_spec(11) == bits);
    }
}

/// Distinct indices select distinct special 32-bit values: the table
/// really enumerates twelve different patterns.
pub proof fn lemma_special_f32_distinct(j: int, k: int)
    requires
        0 <= j < 12,
        0 <= k < 12,
        j != k,
    ensures
        f32_special_spec(j) != f32_special_spec(k),
{
}

/// Distinct indices select distinct special 64-bit values: the table
/// really enumerates twelve different patterns.
pub proof fn lemma_special_f64_distinct(j: int, k: int)
    requires
        0 <= j < 12,
        0 <= k < 12,
        j != k,
    ensures
        f64_special_spec(j) != f64_special_spec(k),
{
}

/// Every 32-bit pattern falls in at least one category — NaN, subnormal,
/// normal or special — and the three field-determined categories are
/// pairwise disjoint. The exponent field decides: all ones gives a NaN or
/// an infinity, all zeros a subnormal or a signed zero, anything else a
/// normal number; infinities and signed zeros are special values.
pub proof fn lemma_f32_categories(bits: u32)
    ensures
        f32_is_nan(bits) || f32_is_subnormal(bits) || f32_is_normal(bits) || f32_is_special(bits),
        !(f32_is_nan(bits) && f32_is_subnormal(bits)),
        !(f32_is_nan(bits) && f32_is_normal(bits)),
        !(f32_is_subnormal(bits) && f32_is_normal(bits)),
{
    assert((f32_is_nan(bits) || f32_is_subnormal(bits) || f32_is_normal(bits) || f32_is_special(
        bits,
    )) && !(f32_is_nan(bits) && f32_is_subnormal(bits)) && !(f32_is_nan(bits) && f32_is_normal(
        bits,
    )) && !(f32_is_subnormal(bits) && f32_is_normal(bits))) by (bit_vector);
}

/// Every 64-bit pattern falls in at least one category — NaN, subnormal,
/// normal or special — and the three field-determined categories are
/// pairwise disjoint.
pub proof fn lemma_f64_categories(bits: u64)
    ensures
        f64_is_nan(bits) || f64_is_subnormal(bits) || f64_is_normal(bits) || f64_is_special(bits),
        !(f64_is_nan(bits) && f64_is_subnormal(bits)),
        !(f64_is_nan(bits) && f64_is_normal(bits)),
        !(f64_is_subnormal(bits) && f64_is_normal(bits)),
{
    assert((f64_is_nan(bits) || f64_is_subnormal(bits) || f64_is_normal(bits) || f64_is_special(
        bits,
    )) && !(f64_is_nan(bits) && f64_is_subnormal(bits)) && !(f64_is_nan(bits) && f64_is_normal(
        bits,
    )) && !(f64_is_subnormal(bits) && f64_is_normal(bits))) by (bit_vector);
}

/// A NaN pattern is never an infinity: the non-zero mantissa separates
/// them.
pub proof fn lemma_nan_f32_not_infinity(bits: u32)
    requires
        f32_is_nan(bits),
    ensures
        bits != F32_INFINITY_BITS,
        bits != F32_NEG_INFINITY_BITS,
{
    assert(f32_is_nan(bits) ==> bits != F32_INFINITY_BITS && bits != F32_NEG_INFINITY_BITS)
        by (bit_vector);
}

/// A NaN pattern is never an infinity: the non-zero mantissa separates
/// them.
pub proof fn lemma_nan_f64_not_infinity(bits: u64)
    requires
        f64_is_nan(bits),
    ensures
        bits != F64_INFINITY_BITS,
        bits != F64_NEG_INFINITY_BITS,
{
    assert(f64_is_nan(bits) ==> bits != F64_INFINITY_BITS && bits != F64_NEG_INFINITY_BITS)
        by (bit_vector);
}

/// A subnormal pattern is never a signed zero: the non-zero mantissa
/// separates them.
pub proof fn lemma_subnormal_f32_not_zero(bits: u32)
    requires
        f32_is_subnormal(bits),
    ensures
        bits != F32_ZERO_BITS,
        bits != F32_NEG_ZERO_BITS,
{
    assert(f32_is_subnormal(bits) ==> bits != F32_ZERO_BITS && bits != F32_NEG_ZERO_BITS)
        by (bit_vector);
}

/// A subnormal pattern is never a signed zero: the non-zero mantissa
/// separates them.
pub proof fn lemma_subnormal_f64_not_zero(bits: u64)
    requires
        f64_is_subnormal(bits),
    ensures
        bits != F64_ZERO_BITS,
        bits != F64_NEG_ZERO_BITS,
{
    assert(f64_is_subnormal(bits) ==> bits != F64_ZERO_BITS && bits != F64_NEG_ZERO_BITS)
        by (bit_vector);
}

} // verus!
