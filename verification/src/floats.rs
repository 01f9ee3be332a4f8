//! The float generators on [`Wdg`], producing IEEE-754 bit patterns.
//!
//! Each category constructor draws the fields its category leaves free
//! uniformly from their legal ranges and assembles the pattern, so over
//! repeated calls every legal pattern of the category can appear (the
//! cover lemmas in [`crate::float_bits`] and [`crate::special_values`]
//! state that the ranges drawn from reach them all). Each method's
//! `*_spec` twin computes, from the generator's abstract state alone,
//! both the pattern and the successor state, and the method's contract
//! says the call returns exactly that: outputs are pure functions of the
//! state, so equal states give equal sequences. Callers turn a pattern
//! into the float itself with `f32::from_bits`/`f64::from_bits`.

use vstd::prelude::*;

use crate::Wdg;
use crate::float_bits::f32_from_fields;
use crate::float_bits::f32_is_nan;
use crate::float_bits::f32_is_normal;
use crate::float_bits::f32_is_signaling_nan;
use crate::float_bits::f32_is_subnormal;
use crate::float_bits::f64_from_fields;
use crate::float_bits::f64_is_nan;
use crate::float_bits::f64_is_normal;
use crate::float_bits::f64_is_signaling_nan;
use crate::float_bits::f64_is_subnormal;
use crate::float_bits::nan_f32_from_parts;
use crate::float_bits::nan_f64_from_parts;
use crate::float_bits::normal_f32_from_parts;
use crate::float_bits::normal_f64_from_parts;
use crate::float_bits::subnormal_f32_from_parts;
use crate::float_bits::subnormal_f64_from_parts;
use crate::rng::rng_u32;
use crate::rng::rng_u64;
use crate::rng::rng_u8;
use crate::rng::u32_draw;
use crate::rng::u32_next;
use crate::rng::u64_draw;
use crate::rng::u64_next;
use crate::rng::u8_draw;
use crate::rng::u8_next;
use crate::special_values::f32_is_special;
use crate::special_values::f32_special_spec;
use crate::special_values::f32_special_value;
use crate::special_values::f64_is_special;
use crate::special_values::f64_special_spec;
use crate::special_values::f64_special_value;

verus! {

/// The NaN pattern drawn from the given state, and the successor state.
pub open spec fn nan_f32_spec(state: u64) -> (u32, u64) {
    let sign = u32_draw(state, 0, 2);
    let s1 = u32_next(state, 0, 2);
    let mantissa = u32_draw(s1, 1, 0x0080_0000);
    let s2 = u32_next(s1, 1, 0x0080_0000);
    (f32_from_fields(sign, 0xff, mantissa), s2)
}

/// The subnormal pattern drawn from the given state, and the successor
/// state.
pub open spec fn subnormal_f32_spec(state: u64) -> (u32, u64) {
    let sign = u32_draw(state, 0, 2);
    let s1 = u32_next(state, 0, 2);
    let mantissa = u32_draw(s1, 1, 0x0080_0000);
    let s2 = u32_next(s1, 1, 0x0080_0000);
    (f32_from_fields(sign, 0, mantissa), s2)
}

/// The normal pattern drawn from the given state, and the successor
/// state.
pub open spec fn normal_f32_spec(state: u64) -> (u32, u64) {
    let sign = u32_draw(state, 0, 2);
    let s1 = u32_next(state, 0, 2);
    let exponent = u32_draw(s1, 1, 0xff);
    let s2 = u32_next(s1, 1, 0xff);
    let mantissa = u32_draw(s2, 0, 0x0080_0000);
    let s3 = u32_next(s2, 0, 0x0080_0000);
    (f32_from_fields(sign, exponent, mantissa), s3)
}

/// The special pattern selected from the given state, and the successor
/// state.
pub open spec fn special_f32_spec(state: u64) -> (u32, u64) {
    (f32_special_spec(u8_draw(state, 0, 12) as int), u8_next(state, 0, 12))
}

/// The pattern that the four-way category dispatch yields from the given
/// state, and the successor state.
pub open spec fn f32_bits_spec(state: u64) -> (u32, u64) {
    let k = u8_draw(state, 0, 4);
    let s1 = u8_next(state, 0, 4);
    if k == 0 {
        normal_f32_spec(s1)
    } else if k == 1 {
        subnormal_f32_spec(s1)
    } else if k == 2 {
        nan_f32_spec(s1)
    } else {
        special_f32_spec(s1)
    }
}

/// The NaN pattern drawn from the given state, and the successor state.
pub open spec fn nan_f64_spec(state: u64) -> (u64, u64) {
    let sign = u64_draw(state, 0, 2);
    let s1 = u64_next(state, 0, 2);
    let mantissa = u64_draw(s1, 1, 0x0010_0000_0000_0000);
    let s2 = u64_next(s1, 1, 0x0010_0000_0000_0000);
    (f64_from_fields(sign, 0x7ff, mantissa), s2)
}

/// The subnormal pattern drawn from the given state, and the successor
/// state.
pub open spec fn subnormal_f64_spec(state: u64) -> (u64, u64) {
    let sign = u64_draw(state, 0, 2);
    let s1 = u64_next(state, 0, 2);
    let mantissa = u64_draw(s1, 1, 0x0010_0000_0000_0000);
    let s2 = u64_next(s1, 1, 0x0010_0000_0000_0000);
    (f64_from_fields(sign, 0, mantissa), s2)
}

/// The normal pattern drawn from the given state, and the successor
/// state.
pub open spec fn normal_f64_spec(state: u64) -> (u64, u64) {
    let sign = u64_draw(state, 0, 2);
    let s1 = u64_next(state, 0, 2);
    let exponent = u64_draw(s1, 1, 0x7ff);
    let s2 = u64_next(s1, 1, 0x7ff);
    let mantissa = u64_draw(s2, 0, 0x0010_0000_0000_0000);
    let s3 = u64_next(s2, 0, 0x0010_0000_0000_0000);
    (f64_from_fields(sign, exponent, mantissa), s3)
}

/// The special pattern selected from the given state, and the successor
/// state.
pub open spec fn special_f64_spec(state: u64) -> (u64, u64) {
    (f64_special_spec(u8_draw(state, 0, 12) as int), u8_next(state, 0, 12))
}

/// The pattern that the four-way category dispatch yields from the given
/// state, and the successor state.
pub open spec fn f64_bits_spec(state: u64) -> (u64, u64) {
    let k = u8_draw(state, 0, 4);
    let s1 = u8_next(state, 0, 4);
    if k == 0 {
        normal_f64_spec(s1)
    } else if k == 1 {
        subnormal_f64_spec(s1)
    } else if k == 2 {
        nan_f64_spec(s1)
    } else {
        special_f64_spec(s1)
    }
}

impl Wdg {
    /// Generates a random 32-bit NaN pattern.
    ///
    /// There are many bit patterns that are a NaN. Over repeated calls
    /// this covers all of them — every sign and every non-zero mantissa,
    /// quiet and signaling — even ones that ordinary float arithmetic
    /// would never produce. An all-zero mantissa would be an infinity,
    /// so the mantissa is drawn from one upward.
    pub fn nan_f32(&mut self) -> (bits: u32)
        ensures
            f32_is_nan(bits),
            bits == nan_f32_spec(old(self).state()).0,
            final(self).state() == nan_f32_spec(old(self).state()).1,
    {
        let sign = rng_u32(&mut self.rng, 0, 2);
        let mantissa = rng_u32(&mut self.rng, 1, 0x0080_0000);
        nan_f32_from_parts(sign, mantissa)
    }

    /// Generates a random 64-bit NaN pattern.
    ///
    /// There are many bit patterns that are a NaN. Over repeated calls
    /// this covers all of them — every sign and every non-zero mantissa,
    /// quiet and signaling. An all-zero mantissa would be an infinity,
    /// so the mantissa is drawn from one upward.
    pub fn nan_f64(&mut self) -> (bits: u64)
        ensures
            f64_is_nan(bits),
            bits == nan_f64_spec(old(self).state()).0,
            final(self).state() == nan_f64_spec(old(self).state()).1,
    {
        let sign = rng_u64(&mut self.rng, 0, 2);
        let mantissa = rng_u64(&mut self.rng, 1, 0x0010_0000_0000_0000);
        nan_f64_from_parts(sign, mantissa)
    }

    /// Generates a random 32-bit subnormal pattern, covering every sign
    /// and every non-zero mantissa over repeated calls. An all-zero
    /// mantissa would be a signed zero, so the mantissa is drawn from one
    /// upward.
    pub fn subnormal_f32(&mut self) -> (bits: u32)
        ensures
            f32_is_subnormal(bits),
            bits == subnormal_f32_spec(old(self).state()).0,
            final(self).state() == subnormal_f32_spec(old(self).state()).1,
    {
        let sign = rng_u32(&mut self.rng, 0, 2);
        let mantissa = rng_u32(&mut self.rng, 1, 0x0080_0000);
        subnormal_f32_from_parts(sign, mantissa)
    }

    /// Generates a random 64-bit subnormal pattern, covering every sign
    /// and every non-zero mantissa over repeated calls. An all-zero
    /// mantissa would be a signed zero, so the mantissa is drawn from one
    /// upward.
    pub fn subnormal_f64(&mut self) -> (bits: u64)
        ensures
            f64_is_subnormal(bits),
            bits == subnormal_f64_spec(old(self).state()).0,
            final(self).state() == subnormal_f64_spec(old(self).state()).1,
    {
        let sign = rng_u64(&mut self.rng, 0, 2);
        let mantissa = rng_u64(&mut self.rng, 1, 0x0010_0000_0000_0000);
        subnormal_f64_from_parts(sign, mantissa)
    }

    /// Generates a random 32-bit normal pattern. The exponent is drawn
    /// from the open interval between all zeros (subnormals and zeros)
    /// and all ones (NaNs and infinities); the mantissa over its full
    /// range.
    pub fn normal_f32(&mut self) -> (bits: u32)
        ensures
            f32_is_normal(bits),
            bits == normal_f32_spec(old(self).state()).0,
            final(self).state() == normal_f32_spec(old(self).state()).1,
    {
        let sign = rng_u32(&mut self.rng, 0, 2);
        let exponent = rng_u32(&mut self.rng, 1, 0xff);
        let mantissa = rng_u32(&mut self.rng, 0, 0x0080_0000);
        normal_f32_from_parts(sign, exponent, mantissa)
    }

    /// Generates a random 64-bit normal pattern. The exponent is drawn
    /// from the open interval between all zeros (subnormals and zeros)
    /// and all ones (NaNs and infinities); the mantissa over its full
    /// range.
    pub fn normal_f64(&mut self) -> (bits: u64)
        ensures
            f64_is_normal(bits),
            bits == normal_f64_spec(old(self).state()).0,
            final(self).state() == normal_f64_spec(old(self).state()).1,
    {
        let sign = rng_u64(&mut self.rng, 0, 2);
        let exponent = rng_u64(&mut self.rng, 1, 0x7ff);
        let mantissa = rng_u64(&mut self.rng, 0, 0x0010_0000_0000_0000);
        normal_f64_from_parts(sign, exponent, mantissa)
    }

    /// Picks one of the twelve special 32-bit values uniformly by index.
    pub fn special_f32(&mut self) -> (bits: u32)
        ensures
            f32_is_special(bits),
            bits == special_f32_spec(old(self).state()).0,
            final(self).state() == special_f32_spec(old(self).state()).1,
    {
        let k = rng_u8(&mut self.rng, 0, 12);
        f32_special_value(k)
    }

    /// Picks one of the twelve special 64-bit values uniformly by index.
    pub fn special_f64(&mut self) -> (bits: u64)
        ensures
            f64_is_special(bits),
            bits == special_f64_spec(old(self).state()).0,
            final(self).state() == special_f64_spec(old(self).state()).1,
    {
        let k = rng_u8(&mut self.rng, 0, 12);
        f64_special_value(k)
    }

    /// Generates a random 32-bit float pattern such that problematic
    /// values are far more common than under uniform sampling: a quarter
    /// each of normal, subnormal, NaN and special values per draw.
    ///
    /// The distribution is not statistically meaningful; it only gives
    /// every edge case a fair chance of being generated.
    pub fn f32_bits(&mut self) -> (bits: u32)
        ensures
            f32_is_normal(bits) || f32_is_subnormal(bits) || f32_is_nan(bits) || f32_is_special(
                bits,
            ),
            bits == f32_bits_spec(old(self).state()).0,
            final(self).state() == f32_bits_spec(old(self).state()).1,
    {
        match rng_u8(&mut self.rng, 0, 4) {
            0 => self.normal_f32(),
            1 => self.subnormal_f32(),
            2 => self.nan_f32(),
            _ => self.special_f32(),
        }
    }

    /// Generates a random 64-bit float pattern such that problematic
    /// values are far more common than under uniform sampling: a quarter
    /// each of normal, subnormal, NaN and special values per draw.
    ///
    /// The distribution is not statistically meaningful; it only gives
    /// every edge case a fair chance of being generated.
    pub fn f64_bits(&mut self) -> (bits: u64)
        ensures
            f64_is_normal(bits) || f64_is_subnormal(bits) || f64_is_nan(bits) || f64_is_special(
                bits,
            ),
            bits == f64_bits_spec(old(self).state()).0,
            final(self).state() == f64_bits_spec(old(self).state()).1,
    {
        match rng_u8(&mut self.rng, 0, 4) {
            0 => self.normal_f64(),
            1 => self.subnormal_f64(),
            2 => self.nan_f64(),
            _ => self.special_f64(),
        }
    }
}

/// Tells whether a 32-bit pattern is a signaling NaN: a NaN whose
/// topmost mantissa bit is clear.
pub fn is_signaling_nan_f32(bits: u32) -> (r: bool)
    ensures
        r == f32_is_signaling_nan(bits),
{
    (bits >> 23) & 0xff == 0xff && bits & 0x007f_ffff != 0 && bits & 0x0040_0000 == 0
}

/// Tells whether a 64-bit pattern is a signaling NaN: a NaN whose
/// topmost mantissa bit is clear.
pub fn is_signaling_nan_f64(bits: u64) -> (r: bool)
    ensures
        r == f64_is_signaling_nan(bits),
{
    (bits >> 52) & 0x7ff == 0x7ff && bits & 0x000f_ffff_ffff_ffff != 0 && bits
        & 0x0008_0000_0000_0000 == 0
}

} // verus!

