//! The integer generators on [`Wdg`], one set per width and signedness.
//!
//! Every integer type has a fixed set of special values — zero, one and
//! the type maximum, plus minus one and the type minimum when signed —
//! that uniform sampling would almost never hit. The `special_*` methods
//! pick one of those uniformly by index. The top-level method for each
//! type draws half special values and half "general" values: a uniform
//! draw over `[2, MAX)` (and, for signed types, over `[MIN + 1, -1)` half
//! of the time), whose bounds keep every special sentinel out of the
//! general range by construction. Each method's `*_spec` twin computes
//! result and successor state from the generator's abstract state alone,
//! and the method's contract says the call returns exactly that: outputs
//! are pure functions of the state.

use vstd::prelude::*;

use crate::Wdg;
use crate::rng::i128_draw;
use crate::rng::i128_next;
use crate::rng::i16_draw;
use crate::rng::i16_next;
use crate::rng::i32_draw;
use crate::rng::i32_next;
use crate::rng::i64_draw;
use crate::rng::i64_next;
use crate::rng::i8_draw;
use crate::rng::i8_next;
use crate::rng::isize_draw;
use crate::rng::isize_next;
use crate::rng::rng_i128;
use crate::rng::rng_i16;
use crate::rng::rng_i32;
use crate::rng::rng_i64;
use crate::rng::rng_i8;
use crate::rng::rng_isize;
use crate::rng::rng_u128;
use crate::rng::rng_u16;
use crate::rng::rng_u32;
use crate::rng::rng_u64;
use crate::rng::rng_u8;
use crate::rng::rng_usize;
use crate::rng::u128_draw;
use crate::rng::u128_next;
use crate::rng::u16_draw;
use crate::rng::u16_next;
use crate::rng::u32_draw;
use crate::rng::u32_next;
use crate::rng::u64_draw;
use crate::rng::u64_next;
use crate::rng::u8_draw;
use crate::rng::u8_next;
use crate::rng::usize_draw;
use crate::rng::usize_next;

verus! {

/// The value is one of the three special unsigned values.
pub open spec fn u8_is_special(v: u8) -> bool {
    v == 0 || v == 1 || v == u8::MAX
}

/// The value lies in the general range, which excludes every special
/// value.
pub open spec fn u8_is_general(v: u8) -> bool {
    2 <= v < u8::MAX
}

/// The special value at the given index.
pub open spec fn u8_special_spec(k: int) -> u8 {
    if k == 0 {
        0u8
    } else if k == 1 {
        1u8
    } else {
        u8::MAX
    }
}

/// The special value selected from the given state, and the successor
/// state.
pub open spec fn special_u8_spec(state: u64) -> (u8, u64) {
    (u8_special_spec(u8_draw(state, 0, 3) as int), u8_next(state, 0, 3))
}

/// The value that the half-special, half-general dispatch yields from
/// the given state, and the successor state.
pub open spec fn u8_spec(state: u64) -> (u8, u64) {
    let c = u8_draw(state, 0, 2);
    let s1 = u8_next(state, 0, 2);
    if c == 0 {
        special_u8_spec(s1)
    } else {
        (u8_draw(s1, 2, u8::MAX), u8_next(s1, 2, u8::MAX))
    }
}

/// Maps an index to the special value it selects.
pub fn u8_special_value(k: u8) -> (v: u8)
    requires
        k < 3,
    ensures
        v == u8_special_spec(k as int),
        u8_is_special(v),
{
    match k {
        0 => 0,
        1 => 1,
        _ => u8::MAX,
    }
}

/// The value is one of the three special unsigned values.
pub open spec fn u16_is_special(v: u16) -> bool {
    v == 0 || v == 1 || v == u16::MAX
}

/// The value lies in the general range, which excludes every special
/// value.
pub open spec fn u16_is_general(v: u16) -> bool {
    2 <= v < u16::MAX
}

/// The special value at the given index.
pub open spec fn u16_special_spec(k: int) -> u16 {
    if k == 0 {
        0u16
    } else if k == 1 {
        1u16
    } else {
        u16::MAX
    }
}

/// The special value selected from the given state, and the successor
/// state.
pub open spec fn special_u16_spec(state: u64) -> (u16, u64) {
    (u16_special_spec(u8_draw(state, 0, 3) as int), u8_next(state, 0, 3))
}

/// The value that the half-special, half-general dispatch yields from
/// the given state, and the successor state.
pub open spec fn u16_spec(state: u64) -> (u16, u64) {
    let c = u8_draw(state, 0, 2);
    let s1 = u8_next(state, 0, 2);
    if c == 0 {
        special_u16_spec(s1)
    } else {
        (u16_draw(s1, 2, u16::MAX), u16_next(s1, 2, u16::MAX))
    }
}

/// Maps an index to the special value it selects.
pub fn u16_special_value(k: u8) -> (v: u16)
    requires
        k < 3,
    ensures
        v == u16_special_spec(k as int),
        u16_is_special(v),
{
    match k {
        0 => 0,
        1 => 1,
        _ => u16::MAX,
    }
}

/// The value is one of the three special unsigned values.
pub open spec fn u32_is_special(v: u32) -> bool {
    v == 0 || v == 1 || v == u32::MAX
}

/// The value lies in the general range, which excludes every special
/// value.
pub open spec fn u32_is_general(v: u32) -> bool {
    2 <= v < u32::MAX
}

/// The special value at the given index.
pub open spec fn u32_special_spec(k: int) -> u32 {
    if k == 0 {
        0u32
    } else if k == 1 {
        1u32
    } else {
        u32::MAX
    }
}

/// The special value selected from the given state, and the successor
/// state.
pub open spec fn special_u32_spec(state: u64) -> (u32, u64) {
    (u32_special_spec(u8_draw(state, 0, 3) as int), u8_next(state, 0, 3))
}

/// The value that the half-special, half-general dispatch yields from
/// the given state, and the successor state.
pub open spec fn u32_spec(state: u64) -> (u32, u64) {
    let c = u8_draw(state, 0, 2);
    let s1 = u8_next(state, 0, 2);
    if c == 0 {
        special_u32_spec(s1)
    } else {
        (u32_draw(s1, 2, u32::MAX), u32_next(s1, 2, u32::MAX))
    }
}

/// Maps an index to the special value it selects.
pub fn u32_special_value(k: u8) -> (v: u32)
    requires
        k < 3,
    ensures
        v == u32_special_spec(k as int),
        u32_is_special(v),
{
    match k {
        0 => 0,
        1 => 1,
        _ => u32::MAX,
    }
}

/// The value is one of the three special unsigned values.
pub open spec fn u64_is_special(v: u64) -> bool {
    v == 0 || v == 1 || v == u64::MAX
}

/// The value lies in the general range, which excludes every special
/// value.
pub open spec fn u64_is_general(v: u64) -> bool {
    2 <= v < u64::MAX
}

/// The special value at the given index.
pub open spec fn u64_special_spec(k: int) -> u64 {
    if k == 0 {
        0u64
    } else if k == 1 {
        1u64
    } else {
        u64::MAX
    }
}

/// The special value selected from the given state, and the successor
/// state.
pub open spec fn special_u64_spec(state: u64) -> (u64, u64) {
    (u64_special_spec(u8_draw(state, 0, 3) as int), u8_next(state, 0, 3))
}

/// The value that the half-special, half-general dispatch yields from
/// the given state, and the successor state.
pub open spec fn u64_spec(state: u64) -> (u64, u64) {
    let c = u8_draw(state, 0, 2);
    let s1 = u8_next(state, 0, 2);
    if c == 0 {
        special_u64_spec(s1)
    } else {
        (u64_draw(s1, 2, u64::MAX), u64_next(s1, 2, u64::MAX))
    }
}

/// Maps an index to the special value it selects.
pub fn u64_special_value(k: u8) -> (v: u64)
    requires
        k < 3,
    ensures
        v == u64_special_spec(k as int),
        u64_is_special(v),
{
    match k {
        0 => 0,
        1 => 1,
        _ => u64::MAX,
    }
}

/// The value is one of the three special unsigned values.
pub open spec fn u128_is_special(v: u128) -> bool {
    v == 0 || v == 1 || v == u128::MAX
}

/// The value lies in the general range, which excludes every special
/// value.
pub open spec fn u128_is_general(v: u128) -> bool {
    2 <= v < u128::MAX
}

/// The special value at the given index.
pub open spec fn u128_special_spec(k: int) -> u128 {
    if k == 0 {
        0u128
    } else if k == 1 {
        1u128
    } else {
        u128::MAX
    }
}

/// The special value selected from the given state, and the successor
/// state.
pub open spec fn special_u128_spec(state: u64) -> (u128, u64) {
    (u128_special_spec(u8_draw(state, 0, 3) as int), u8_next(state, 0, 3))
}

/// The value that the half-special, half-general dispatch yields from
/// the given state, and the successor state.
pub open spec fn u128_spec(state: u64) -> (u128, u64) {
    let c = u8_draw(state, 0, 2);
    let s1 = u8_next(state, 0, 2);
    if c == 0 {
        special_u128_spec(s1)
    } else {
        (u128_draw(s1, 2, u128::MAX), u128_next(s1, 2, u128::MAX))
    }
}

/// Maps an index to the special value it selects.
pub fn u128_special_value(k: u8) -> (v: u128)
    requires
        k < 3,
    ensures
        v == u128_special_spec(k as int),
        u128_is_special(v),
{
    match k {
        0 => 0,
        1 => 1,
        _ => u128::MAX,
    }
}

/// The value is one of the three special unsigned values.
pub open spec fn usize_is_special(v: usize) -> bool {
    v == 0 || v == 1 || v == usize::MAX
}

/// The value lies in the general range, which excludes every special
/// value.
pub open spec fn usize_is_general(v: usize) -> bool {
    2 <= v < usize::MAX
}

/// The special value at the given index.
pub open spec fn usize_special_spec(k: int) -> usize {
    if k == 0 {
        0usize
    } else if k == 1 {
        1usize
    } else {
        usize::MAX
    }
}

/// The special value selected from the given state, and the successor
/// state.
pub open spec fn special_usize_spec(state: u64) -> (usize, u64) {
    (usize_special_spec(u8_draw(state, 0, 3) as int), u8_next(state, 0, 3))
}

/// The value that the half-special, half-general dispatch yields from
/// the given state, and the successor state.
pub open spec fn usize_spec(state: u64) -> (usize, u64) {
    let c = u8_draw(state, 0, 2);
    let s1 = u8_next(state, 0, 2);
    if c == 0 {
        special_usize_spec(s1)
    } else {
        (usize_draw(s1, 2, usize::MAX), usize_next(s1, 2, usize::MAX))
    }
}

/// Maps an index to the special value it selects.
pub fn usize_special_value(k: u8) -> (v: usize)
    requires
        k < 3,
    ensures
        v == usize_special_spec(k as int),
        usize_is_special(v),
{
    match k {
        0 => 0,
        1 => 1,
        _ => usize::MAX,
    }
}

/// The value is one of the five special signed values.
pub open spec fn i8_is_special(v: i8) -> bool {
    v == 0 || v == 1 || v == i8::MAX || v == -1 || v == i8::MIN
}

/// The value lies in one of the two general sub-ranges, whose bounds
/// keep every special value out: 0, 1, -1 and both type extremes.
pub open spec fn i8_is_general(v: i8) -> bool {
    (2 <= v < i8::MAX) || (i8::MIN < v < -1)
}

/// The special value at the given index.
pub open spec fn i8_special_spec(k: int) -> i8 {
    if k == 0 {
        0i8
    } else if k == 1 {
        1i8
    } else if k == 2 {
        i8::MAX
    } else if k == 3 {
        -1i8
    } else {
        i8::MIN
    }
}

/// The special value selected from the given state, and the successor
/// state.
pub open spec fn special_i8_spec(state: u64) -> (i8, u64) {
    (i8_special_spec(u8_draw(state, 0, 5) as int), u8_next(state, 0, 5))
}

/// The general value drawn from the given state — uniform over one of
/// the two sub-ranges — and the successor state.
pub open spec fn general_i8_spec(state: u64) -> (i8, u64) {
    let c = u8_draw(state, 0, 2);
    let s1 = u8_next(state, 0, 2);
    if c == 0 {
        (i8_draw(s1, 2, i8::MAX), i8_next(s1, 2, i8::MAX))
    } else {
        (
            i8_draw(s1, (i8::MIN + 1) as i8, -1i8),
            i8_next(s1, (i8::MIN + 1) as i8, -1i8),
        )
    }
}

/// The value that the half-special, half-general dispatch yields from
/// the given state, and the successor state.
pub open spec fn i8_spec(state: u64) -> (i8, u64) {
    let c = u8_draw(state, 0, 2);
    let s1 = u8_next(state, 0, 2);
    if c == 0 {
        special_i8_spec(s1)
    } else {
        general_i8_spec(s1)
    }
}

/// Maps an index to the special value it selects.
pub fn i8_special_value(k: u8) -> (v: i8)
    requires
        k < 5,
    ensures
        v == i8_special_spec(k as int),
        i8_is_special(v),
{
    match k {
        0 => 0,
        1 => 1,
        2 => i8::MAX,
        3 => -1,
        _ => i8::MIN,
    }
}

/// A value from the general range of `i8` is never 0, 1, -1, the type
/// minimum nor the type maximum: those belong to the special set alone.
pub proof fn lemma_general_i8_avoids_special(v: i8)
    requires
        i8_is_general(v),
    ensures
        v != 0,
        v != 1,
        v != -1,
        v != i8::MIN,
        v != i8::MAX,
{
}

/// The value is one of the five special signed values.
pub open spec fn i16_is_special(v: i16) -> bool {
    v == 0 || v == 1 || v == i16::MAX || v == -1 || v == i16::MIN
}

/// The value lies in one of the two general sub-ranges, whose bounds
/// keep every special value out: 0, 1, -1 and both type extremes.
pub open spec fn i16_is_general(v: i16) -> bool {
    (2 <= v < i16::MAX) || (i16::MIN < v < -1)
}

/// The special value at the given index.
pub open spec fn i16_special_spec(k: int) -> i16 {
    if k == 0 {
        0i16
    } else if k == 1 {
        1i16
    } else if k == 2 {
        i16::MAX
    } else if k == 3 {
        -1i16
    } else {
        i16::MIN
    }
}

/// The special value selected from the given state, and the successor
/// state.
pub open spec fn special_i16_spec(state: u64) -> (i16, u64) {
    (i16_special_spec(u8_draw(state, 0, 5) as int), u8_next(state, 0, 5))
}

/// The general value drawn from the given state — uniform over one of
/// the two sub-ranges — and the successor state.
pub open spec fn general_i16_spec(state: u64) -> (i16, u64) {
    let c = u8_draw(state, 0, 2);
    let s1 = u8_next(state, 0, 2);
    if c == 0 {
        (i16_draw(s1, 2, i16::MAX), i16_next(s1, 2, i16::MAX))
    } else {
        (
            i16_draw(s1, (i16::MIN + 1) as i16, -1i16),
            i16_next(s1, (i16::MIN + 1) as i16, -1i16),
        )
    }
}

/// The value that the half-special, half-general dispatch yields from
/// the given state, and the successor state.
pub open spec fn i16_spec(state: u64) -> (i16, u64) {
    let c = u8_draw(state, 0, 2);
    let s1 = u8_next(state, 0, 2);
    if c == 0 {
        special_i16_spec(s1)
    } else {
        general_i16_spec(s1)
    }
}

/// Maps an index to the special value it selects.
pub fn i16_special_value(k: u8) -> (v: i16)
    requires
        k < 5,
    ensures
        v == i16_special_spec(k as int),
        i16_is_special(v),
{
    match k {
        0 => 0,
        1 => 1,
        2 => i16::MAX,
        3 => -1,
        _ => i16::MIN,
    }
}

/// A value from the general range of `i16` is never 0, 1, -1, the type
/// minimum nor the type maximum: those belong to the special set alone.
pub proof fn lemma_general_i16_avoids_special(v: i16)
    requires
        i16_is_general(v),
    ensures
        v != 0,
        v != 1,
        v != -1,
        v != i16::MIN,
        v != i16::MAX,
{
}

/// The value is one of the five special signed values.
pub open spec fn i32_is_special(v: i32) -> bool {
    v == 0 || v == 1 || v == i32::MAX || v == -1 || v == i32::MIN
}

/// The value lies in one of the two general sub-ranges, whose bounds
/// keep every special value out: 0, 1, -1 and both type extremes.
pub open spec fn i32_is_general(v: i32) -> bool {
    (2 <= v < i32::MAX) || (i32::MIN < v < -1)
}

/// The special value at the given index.
pub open spec fn i32_special_spec(k: int) -> i32 {
    if k == 0 {
        0i32
    } else if k == 1 {
        1i32
    } else if k == 2 {
        i32::MAX
    } else if k == 3 {
        -1i32
    } else {
        i32::MIN
    }
}

/// The special value selected from the given state, and the successor
/// state.
pub open spec fn special_i32_spec(state: u64) -> (i32, u64) {
    (i32_special_spec(u8_draw(state, 0, 5) as int), u8_next(state, 0, 5))
}

/// The general value drawn from the given state — uniform over one of
/// the two sub-ranges — and the successor state.
pub open spec fn general_i32_spec(state: u64) -> (i32, u64) {
    let c = u8_draw(state, 0, 2);
    let s1 = u8_next(state, 0, 2);
    if c == 0 {
        (i32_draw(s1, 2, i32::MAX), i32_next(s1, 2, i32::MAX))
    } else {
        (
            i32_draw(s1, (i32::MIN + 1) as i32, -1i32),
            i32_next(s1, (i32::MIN + 1) as i32, -1i32),
        )
    }
}

/// The value that the half-special, half-general dispatch yields from
/// the given state, and the successor state.
pub open spec fn i32_spec(state: u64) -> (i32, u64) {
    let c = u8_draw(state, 0, 2);
    let s1 = u8_next(state, 0, 2);
    if c == 0 {
        special_i32_spec(s1)
    } else {
        general_i32_spec(s1)
    }
}

/// Maps an index to the special value it selects.
pub fn i32_special_value(k: u8) -> (v: i32)
    requires
        k < 5,
    ensures
        v == i32_special_spec(k as int),
        i32_is_special(v),
{
    match k {
        0 => 0,
        1 => 1,
        2 => i32::MAX,
        3 => -1,
        _ => i32::MIN,
    }
}

/// A value from the general range of `i32` is never 0, 1, -1, the type
/// minimum nor the type maximum: those belong to the special set alone.
pub proof fn lemma_general_i32_avoids_special(v: i32)
    requires
        i32_is_general(v),
    ensures
        v != 0,
        v != 1,
        v != -1,
        v != i32::MIN,
        v != i32::MAX,
{
}

/// The value is one of the five special signed values.
pub open spec fn i64_is_special(v: i64) -> bool {
    v == 0 || v == 1 || v == i64::MAX || v == -1 || v == i64::MIN
}

/// The value lies in one of the two general sub-ranges, whose bounds
/// keep every special value out: 0, 1, -1 and both type extremes.
pub open spec fn i64_is_general(v: i64) -> bool {
    (2 <= v < i64::MAX) || (i64::MIN < v < -1)
}

/// The special value at the given index.
pub open spec fn i64_special_spec(k: int) -> i64 {
    if k == 0 {
        0i64
    } else if k == 1 {
        1i64
    } else if k == 2 {
        i64::MAX
    } else if k == 3 {
        -1i64
    } else {
        i64::MIN
    }
}

/// The special value selected from the given state, and the successor
/// state.
pub open spec fn special_i64_spec(state: u64) -> (i64, u64) {
    (i64_special_spec(u8_draw(state, 0, 5) as int), u8_next(state, 0, 5))
}

/// The general value drawn from the given state — uniform over one of
/// the two sub-ranges — and the successor state.
pub open spec fn general_i64_spec(state: u64) -> (i64, u64) {
    let c = u8_draw(state, 0, 2);
    let s1 = u8_next(state, 0, 2);
    if c == 0 {
        (i64_draw(s1, 2, i64::MAX), i64_next(s1, 2, i64::MAX))
    } else {
        (
            i64_draw(s1, (i64::MIN + 1) as i64, -1i64),
            i64_next(s1, (i64::MIN + 1) as i64, -1i64),
        )
    }
}

/// The value that the half-special, half-general dispatch yields from
/// the given state, and the successor state.
pub open spec fn i64_spec(state: u64) -> (i64, u64) {
    let c = u8_draw(state, 0, 2);
    let s1 = u8_next(state, 0, 2);
    if c == 0 {
        special_i64_spec(s1)
    } else {
        general_i64_spec(s1)
    }
}

/// Maps an index to the special value it selects.
pub fn i64_special_value(k: u8) -> (v: i64)
    requires
        k < 5,
    ensures
        v == i64_special_spec(k as int),
        i64_is_special(v),
{
    match k {
        0 => 0,
        1 => 1,
        2 => i64::MAX,
        3 => -1,
        _ => i64::MIN,
    }
}

/// A value from the general range of `i64` is never 0, 1, -1, the type
/// minimum nor the type maximum: those belong to the special set alone.
pub proof fn lemma_general_i64_avoids_special(v: i64)
    requires
        i64_is_general(v),
    ensures
        v != 0,
        v != 1,
        v != -1,
        v != i64::MIN,
        v != i64::MAX,
{
}

/// The value is one of the five special signed values.
pub open spec fn i128_is_special(v: i128) -> bool {
    v == 0 || v == 1 || v == i128::MAX || v == -1 || v == i128::MIN
}

/// The value lies in one of the two general sub-ranges, whose bounds
/// keep every special value out: 0, 1, -1 and both type extremes.
pub open spec fn i128_is_general(v: i128) -> bool {
    (2 <= v < i128::MAX) || (i128::MIN < v < -1)
}

/// The special value at the given index.
pub open spec fn i128_special_spec(k: int) -> i128 {
    if k == 0 {
        0i128
    } else if k == 1 {
        1i128
    } else if k == 2 {
        i128::MAX
    } else if k == 3 {
        -1i128
    } else {
        i128::MIN
    }
}

/// The special value selected from the given state, and the successor
/// state.
pub open spec fn special_i128_spec(state: u64) -> (i128, u64) {
    (i128_special_spec(u8_draw(state, 0, 5) as int), u8_next(state, 0, 5))
}

/// The general value drawn from the given state — uniform over one of
/// the two sub-ranges — and the successor state.
pub open spec fn general_i128_spec(state: u64) -> (i128, u64) {
    let c = u8_draw(state, 0, 2);
    let s1 = u8_next(state, 0, 2);
    if c == 0 {
        (i128_draw(s1, 2, i128::MAX), i128_next(s1, 2, i128::MAX))
    } else {
        (
            i128_draw(s1, (i128::MIN + 1) as i128, -1i128),
            i128_next(s1, (i128::MIN + 1) as i128, -1i128),
        )
    }
}

/// The value that the half-special, half-general dispatch yields from
/// the given state, and the successor state.
pub open spec fn i128_spec(state: u64) -> (i128, u64) {
    let c = u8_draw(state, 0, 2);
    let s1 = u8_next(state, 0, 2);
    if c == 0 {
        special_i128_spec(s1)
    } else {
        general_i128_spec(s1)
    }
}

/// Maps an index to the special value it selects.
pub fn i128_special_value(k: u8) -> (v: i128)
    requires
        k < 5,
    ensures
        v == i128_special_spec(k as int),
        i128_is_special(v),
{
    match k {
        0 => 0,
        1 => 1,
        2 => i128::MAX,
        3 => -1,
        _ => i128::MIN,
    }
}

/// A value from the general range of `i128` is never 0, 1, -1, the type
/// minimum nor the type maximum: those belong to the special set alone.
pub proof fn lemma_general_i128_avoids_special(v: i128)
    requires
        i128_is_general(v),
    ensures
        v != 0,
        v != 1,
        v != -1,
        v != i128::MIN,
        v != i128::MAX,
{
}

/// The value is one of the five special signed values.
pub open spec fn isize_is_special(v: isize) -> bool {
    v == 0 || v == 1 || v == isize::MAX || v == -1 || v == isize::MIN
}

/// The value lies in one of the two general sub-ranges, whose bounds
/// keep every special value out: 0, 1, -1 and both type extremes.
pub open spec fn isize_is_general(v: isize) -> bool {
    (2 <= v < isize::MAX) || (isize::MIN < v < -1)
}

/// The special value at the given index.
pub open spec fn isize_special_spec(k: int) -> isize {
    if k == 0 {
        0isize
    } else if k == 1 {
        1isize
    } else if k == 2 {
        isize::MAX
    } else if k == 3 {
        -1isize
    } else {
        isize::MIN
    }
}

/// The special value selected from the given state, and the successor
/// state.
pub open spec fn special_isize_spec(state: u64) -> (isize, u64) {
    (isize_special_spec(u8_draw(state, 0, 5) as int), u8_next(state, 0, 5))
}

/// The general value drawn from the given state — uniform over one of
/// the two sub-ranges — and the successor state.
pub open spec fn general_isize_spec(state: u64) -> (isize, u64) {
    let c = u8_draw(state, 0, 2);
    let s1 = u8_next(state, 0, 2);
    if c == 0 {
        (isize_draw(s1, 2, isize::MAX), isize_next(s1, 2, isize::MAX))
    } else {
        (
            isize_draw(s1, (isize::MIN + 1) as isize, -1isize),
            isize_next(s1, (isize::MIN + 1) as isize, -1isize),
        )
    }
}

/// The value that the half-special, half-general dispatch yields from
/// the given state, and the successor state.
pub open spec fn isize_spec(state: u64) -> (isize, u64) {
    let c = u8_draw(state, 0, 2);
    let s1 = u8_next(state, 0, 2);
    if c == 0 {
        special_isize_spec(s1)
    } else {
        general_isize_spec(s1)
    }
}

/// Maps an index to the special value it selects.
pub fn isize_special_value(k: u8) -> (v: isize)
    requires
        k < 5,
    ensures
        v == isize_special_spec(k as int),
        isize_is_special(v),
{
    match k {
        0 => 0,
        1 => 1,
        2 => isize::MAX,
        3 => -1,
        _ => isize::MIN,
    }
}

/// A value from the general range of `isize` is never 0, 1, -1, the type
/// minimum nor the type maximum: those belong to the special set alone.
pub proof fn lemma_general_isize_avoids_special(v: isize)
    requires
        isize_is_general(v),
    ensures
        v != 0,
        v != 1,
        v != -1,
        v != isize::MIN,
        v != isize::MAX,
{
}

impl Wdg {
    /// Picks one of the special `u8` values — 0, 1 or the maximum —
    /// uniformly by index.
    pub fn special_u8(&mut self) -> (v: u8)
        ensures
            u8_is_special(v),
            v == special_u8_spec(old(self).state()).0,
            final(self).state() == special_u8_spec(old(self).state()).1,
    {
        let k = rng_u8(&mut self.rng, 0, 3);
        u8_special_value(k)
    }

    /// Generates a random `u8` biased toward edge cases: half special
    /// values, half a uniform draw over the general range.
    pub fn u8(&mut self) -> (v: u8)
        ensures
            u8_is_special(v) || u8_is_general(v),
            v == u8_spec(old(self).state()).0,
            final(self).state() == u8_spec(old(self).state()).1,
    {
        if rng_u8(&mut self.rng, 0, 2) == 0 {
            self.special_u8()
        } else {
            rng_u8(&mut self.rng, 2, u8::MAX)
        }
    }

    /// Picks one of the special `u16` values — 0, 1 or the maximum —
    /// uniformly by index.
    pub fn special_u16(&mut self) -> (v: u16)
        ensures
            u16_is_special(v),
            v == special_u16_spec(old(self).state()).0,
            final(self).state() == special_u16_spec(old(self).state()).1,
    {
        let k = rng_u8(&mut self.rng, 0, 3);
        u16_special_value(k)
    }

    /// Generates a random `u16` biased toward edge cases: half special
    /// values, half a uniform draw over the general range.
    pub fn u16(&mut self) -> (v: u16)
        ensures
            u16_is_special(v) || u16_is_general(v),
            v == u16_spec(old(self).state()).0,
            final(self).state() == u16_spec(old(self).state()).1,
    {
        if rng_u8(&mut self.rng, 0, 2) == 0 {
            self.special_u16()
        } else {
            rng_u16(&mut self.rng, 2, u16::MAX)
        }
    }

    /// Picks one of the special `u32` values — 0, 1 or the maximum —
    /// uniformly by index.
    pub fn special_u32(&mut self) -> (v: u32)
        ensures
            u32_is_special(v),
            v == special_u32_spec(old(self).state()).0,
            final(self).state() == special_u32_spec(old(self).state()).1,
    {
        let k = rng_u8(&mut self.rng, 0, 3);
        u32_special_value(k)
    }

    /// Generates a random `u32` biased toward edge cases: half special
    /// values, half a uniform draw over the general range.
    pub fn u32(&mut self) -> (v: u32)
        ensures
            u32_is_special(v) || u32_is_general(v),
            v == u32_spec(old(self).state()).0,
            final(self).state() == u32_spec(old(self).state()).1,
    {
        if rng_u8(&mut self.rng, 0, 2) == 0 {
            self.special_u32()
        } else {
            rng_u32(&mut self.rng, 2, u32::MAX)
        }
    }

    /// Picks one of the special `u64` values — 0, 1 or the maximum —
    /// uniformly by index.
    pub fn special_u64(&mut self) -> (v: u64)
        ensures
            u64_is_special(v),
            v == special_u64_spec(old(self).state()).0,
            final(self).state() == special_u64_spec(old(self).state()).1,
    {
        let k = rng_u8(&mut self.rng, 0, 3);
        u64_special_value(k)
    }

    /// Generates a random `u64` biased toward edge cases: half special
    /// values, half a uniform draw over the general range.
    pub fn u64(&mut self) -> (v: u64)
        ensures
            u64_is_special(v) || u64_is_general(v),
            v == u64_spec(old(self).state()).0,
            final(self).state() == u64_spec(old(self).state()).1,
    {
        if rng_u8(&mut self.rng, 0, 2) == 0 {
            self.special_u64()
        } else {
            rng_u64(&mut self.rng, 2, u64::MAX)
        }
    }

    /// Picks one of the special `u128` values — 0, 1 or the maximum —
    /// uniformly by index.
    pub fn special_u128(&mut self) -> (v: u128)
        ensures
            u128_is_special(v),
            v == special_u128_spec(old(self).state()).0,
            final(self).state() == special_u128_spec(old(self).state()).1,
    {
        let k = rng_u8(&mut self.rng, 0, 3);
        u128_special_value(k)
    }

    /// Generates a random `u128` biased toward edge cases: half special
    /// values, half a uniform draw over the general range.
    pub fn u128(&mut self) -> (v: u128)
        ensures
            u128_is_special(v) || u128_is_general(v),
            v == u128_spec(old(self).state()).0,
            final(self).state() == u128_spec(old(self).state()).1,
    {
        if rng_u8(&mut self.rng, 0, 2) == 0 {
            self.special_u128()
        } else {
            rng_u128(&mut self.rng, 2, u128::MAX)
        }
    }

    /// Picks one of the special `usize` values — 0, 1 or the maximum —
    /// uniformly by index.
    pub fn special_usize(&mut self) -> (v: usize)
        ensures
            usize_is_special(v),
            v == special_usize_spec(old(self).state()).0,
            final(self).state() == special_usize_spec(old(self).state()).1,
    {
        let k = rng_u8(&mut self.rng, 0, 3);
        usize_special_value(k)
    }

    /// Generates a random `usize` biased toward edge cases: half special
    /// values, half a uniform draw over the general range.
    pub fn usize(&mut self) -> (v: usize)
        ensures
            usize_is_special(v) || usize_is_general(v),
            v == usize_spec(old(self).state()).0,
            final(self).state() == usize_spec(old(self).state()).1,
    {
        if rng_u8(&mut self.rng, 0, 2) == 0 {
            self.special_usize()
        } else {
            rng_usize(&mut self.rng, 2, usize::MAX)
        }
    }

    /// Picks one of the special `i8` values — 0, 1, the maximum, -1 or
    /// the minimum — uniformly by index.
    pub fn special_i8(&mut self) -> (v: i8)
        ensures
            i8_is_special(v),
            v == special_i8_spec(old(self).state()).0,
            final(self).state() == special_i8_spec(old(self).state()).1,
    {
        let k = rng_u8(&mut self.rng, 0, 5);
        i8_special_value(k)
    }

    /// Generates a random `i8` from the general range: uniform over
    /// `[2, MAX)` half of the time and over `[MIN + 1, -1)` the other
    /// half. The bounds keep every special sentinel out, the minimum
    /// included.
    pub fn general_i8(&mut self) -> (v: i8)
        ensures
            i8_is_general(v),
            v == general_i8_spec(old(self).state()).0,
            final(self).state() == general_i8_spec(old(self).state()).1,
    {
        if rng_u8(&mut self.rng, 0, 2) == 0 {
            rng_i8(&mut self.rng, 2, i8::MAX)
        } else {
            rng_i8(&mut self.rng, i8::MIN + 1, -1)
        }
    }

    /// Generates a random `i8` biased toward edge cases: half special
    /// values, half a draw from the general range.
    pub fn i8(&mut self) -> (v: i8)
        ensures
            i8_is_special(v) || i8_is_general(v),
            v == i8_spec(old(self).state()).0,
            final(self).state() == i8_spec(old(self).state()).1,
    {
        if rng_u8(&mut self.rng, 0, 2) == 0 {
            self.special_i8()
        } else {
            self.general_i8()
        }
    }

    /// Picks one of the special `i16` values — 0, 1, the maximum, -1 or
    /// the minimum — uniformly by index.
    pub fn special_i16(&mut self) -> (v: i16)
        ensures
            i16_is_special(v),
            v == special_i16_spec(old(self).state()).0,
            final(self).state() == special_i16_spec(old(self).state()).1,
    {
        let k = rng_u8(&mut self.rng, 0, 5);
        i16_special_value(k)
    }

    /// Generates a random `i16` from the general range: uniform over
    /// `[2, MAX)` half of the time and over `[MIN + 1, -1)` the other
    /// half. The bounds keep every special sentinel out, the minimum
    /// included.
    pub fn general_i16(&mut self) -> (v: i16)
        ensures
            i16_is_general(v),
            v == general_i16_spec(old(self).state()).0,
            final(self).state() == general_i16_spec(old(self).state()).1,
    {
        if rng_u8(&mut self.rng, 0, 2) == 0 {
            rng_i16(&mut self.rng, 2, i16::MAX)
        } else {
            rng_i16(&mut self.rng, i16::MIN + 1, -1)
        }
    }

    /// Generates a random `i16` biased toward edge cases: half special
    /// values, half a draw from the general range.
    pub fn i16(&mut self) -> (v: i16)
        ensures
            i16_is_special(v) || i16_is_general(v),
            v == i16_spec(old(self).state()).0,
            final(self).state() == i16_spec(old(self).state()).1,
    {
        if rng_u8(&mut self.rng, 0, 2) == 0 {
            self.special_i16()
        } else {
            self.general_i16()
        }
    }

    /// Picks one of the special `i32` values — 0, 1, the maximum, -1 or
    /// the minimum — uniformly by index.
    pub fn special_i32(&mut self) -> (v: i32)
        ensures
            i32_is_special(v),
            v == special_i32_spec(old(self).state()).0,
            final(self).state() == special_i32_spec(old(self).state()).1,
    {
        let k = rng_u8(&mut self.rng, 0, 5);
        i32_special_value(k)
    }

    /// Generates a random `i32` from the general range: uniform over
    /// `[2, MAX)` half of the time and over `[MIN + 1, -1)` the other
    /// half. The bounds keep every special sentinel out, the minimum
    /// included.
    pub fn general_i32(&mut self) -> (v: i32)
        ensures
            i32_is_general(v),
            v == general_i32_spec(old(self).state()).0,
            final(self).state() == general_i32_spec(old(self).state()).1,
    {
        if rng_u8(&mut self.rng, 0, 2) == 0 {
            rng_i32(&mut self.rng, 2, i32::MAX)
        } else {
            rng_i32(&mut self.rng, i32::MIN + 1, -1)
        }
    }

    /// Generates a random `i32` biased toward edge cases: half special
    /// values, half a draw from the general range.
    pub fn i32(&mut self) -> (v: i32)
        ensures
            i32_is_special(v) || i32_is_general(v),
            v == i32_spec(old(self).state()).0,
            final(self).state() == i32_spec(old(self).state()).1,
    {
        if rng_u8(&mut self.rng, 0, 2) == 0 {
            self.special_i32()
        } else {
            self.general_i32()
        }
    }

    /// Picks one of the special `i64` values — 0, 1, the maximum, -1 or
    /// the minimum — uniformly by index.
    pub fn special_i64(&mut self) -> (v: i64)
        ensures
            i64_is_special(v),
            v == special_i64_spec(old(self).state()).0,
            final(self).state() == special_i64_spec(old(self).state()).1,
    {
        let k = rng_u8(&mut self.rng, 0, 5);
        i64_special_value(k)
    }

    /// Generates a random `i64` from the general range: uniform over
    /// `[2, MAX)` half of the time and over `[MIN + 1, -1)` the other
    /// half. The bounds keep every special sentinel out, the minimum
    /// included.
    pub fn general_i64(&mut self) -> (v: i64)
        ensures
            i64_is_general(v),
            v == general_i64_spec(old(self).state()).0,
            final(self).state() == general_i64_spec(old(self).state()).1,
    {
        if rng_u8(&mut self.rng, 0, 2) == 0 {
            rng_i64(&mut self.rng, 2, i64::MAX)
        } else {
            rng_i64(&mut self.rng, i64::MIN + 1, -1)
        }
    }

    /// Generates a random `i64` biased toward edge cases: half special
    /// values, half a draw from the general range.
    pub fn i64(&mut self) -> (v: i64)
        ensures
            i64_is_special(v) || i64_is_general(v),
            v == i64_spec(old(self).state()).0,
            final(self).state() == i64_spec(old(self).state()).1,
    {
        if rng_u8(&mut self.rng, 0, 2) == 0 {
            self.special_i64()
        } else {
            self.general_i64()
        }
    }

    /// Picks one of the special `i128` values — 0, 1, the maximum, -1 or
    /// the minimum — uniformly by index.
    pub fn special_i128(&mut self) -> (v: i128)
        ensures
            i128_is_special(v),
            v == special_i128_spec(old(self).state()).0,
            final(self).state() == special_i128_spec(old(self).state()).1,
    {
        let k = rng_u8(&mut self.rng, 0, 5);
        i128_special_value(k)
    }

    /// Generates a random `i128` from the general range: uniform over
    /// `[2, MAX)` half of the time and over `[MIN + 1, -1)` the other
    /// half. The bounds keep every special sentinel out, the minimum
    /// included.
    pub fn general_i128(&mut self) -> (v: i128)
        ensures
            i128_is_general(v),
            v == general_i128_spec(old(self).state()).0,
            final(self).state() == general_i128_spec(old(self).state()).1,
    {
        if rng_u8(&mut self.rng, 0, 2) == 0 {
            rng_i128(&mut self.rng, 2, i128::MAX)
        } else {
            rng_i128(&mut self.rng, i128::MIN + 1, -1)
        }
    }

    /// Generates a random `i128` biased toward edge cases: half special
    /// values, half a draw from the general range.
    pub fn i128(&mut self) -> (v: i128)
        ensures
            i128_is_special(v) || i128_is_general(v),
            v == i128_spec(old(self).state()).0,
            final(self).state() == i128_spec(old(self).state()).1,
    {
        if rng_u8(&mut self.rng, 0, 2) == 0 {
            self.special_i128()
        } else {
            self.general_i128()
        }
    }

    /// Picks one of the special `isize` values — 0, 1, the maximum, -1 or
    /// the minimum — uniformly by index.
    pub fn special_isize(&mut self) -> (v: isize)
        ensures
            isize_is_special(v),
            v == special_isize_spec(old(self).state()).0,
            final(self).state() == special_isize_spec(old(self).state()).1,
    {
        let k = rng_u8(&mut self.rng, 0, 5);
        isize_special_value(k)
    }

    /// Generates a random `isize` from the general range: uniform over
    /// `[2, MAX)` half of the time and over `[MIN + 1, -1)` the other
    /// half. The bounds keep every special sentinel out, the minimum
    /// included.
    pub fn general_isize(&mut self) -> (v: isize)
        ensures
            isize_is_general(v),
            v == general_isize_spec(old(self).state()).0,
            final(self).state() == general_isize_spec(old(self).state()).1,
    {
        if rng_u8(&mut self.rng, 0, 2) == 0 {
            rng_isize(&mut self.rng, 2, isize::MAX)
        } else {
            rng_isize(&mut self.rng, isize::MIN + 1, -1)
        }
    }

    /// Generates a random `isize` biased toward edge cases: half special
    /// values, half a draw from the general range.
    pub fn isize(&mut self) -> (v: isize)
        ensures
            isize_is_special(v) || isize_is_general(v),
            v == isize_spec(old(self).state()).0,
            final(self).state() == isize_spec(old(self).state()).1,
    {
        if rng_u8(&mut self.rng, 0, 2) == 0 {
            self.special_isize()
        } else {
            self.general_isize()
        }
    }
}

} // verus!
