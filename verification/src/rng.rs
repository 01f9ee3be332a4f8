//! The trusted boundary to the `fastrand` crate, with its abstract state
//! model.
//!
//! Everything random in this library flows through the wrappers below;
//! each makes exactly one `fastrand` call, and its contract states only
//! what that crate's source plainly shows. `fastrand`'s generator is a
//! pure function of one 64-bit state: construction stores the seed
//! verbatim, `get_seed` reads it back, and every draw computes its result
//! and its successor state from the current state and the range alone.
//! [`rng_state`] names that state, and the `*_draw`/`*_next` functions
//! name each draw's result and successor state, so that contracts built
//! on them pin every output to the state it came from: two generators
//! with equal states provably produce equal outputs. The ranged draws
//! promise a result inside the half-open range they were given and are
//! never called on an empty range, so they never panic.

use vstd::prelude::*;

verus! {

#[verifier::external_type_specification]
#[verifier::external_body]
pub struct ExRng(fastrand::Rng);

/// The 64-bit stream state of a `fastrand` generator: the seed it was
/// built from, as later draws advance it.
pub uninterp spec fn rng_state(rng: fastrand::Rng) -> u64;

/// The state of the child generator that forking derives from the given
/// parent state.
pub uninterp spec fn fork_child(state: u64) -> u64;

/// The parent's state after forking from the given state.
pub uninterp spec fn fork_next(state: u64) -> u64;

/// Relies on `fastrand::Rng::clone`: the clone is built from the source's
/// current seed, so it equals the source and continues the same sequence.
pub assume_specification[ <fastrand::Rng as Clone>::clone ](rng: &fastrand::Rng) -> (r:
    fastrand::Rng)
    ensures
        r == *rng,
;

/// Relies on `fastrand::Rng::with_seed`: builds a generator whose state
/// is the seed, stored verbatim.
#[verifier::external_body]
pub(crate) fn rng_with_seed(seed: u64) -> (r: fastrand::Rng)
    ensures
        rng_state(r) == seed,
{
    fastrand::Rng::with_seed(seed)
}

/// Relies on `fastrand::Rng::fork`: derives a child generator from the
/// current state and advances the parent. The parent's new state is its
/// old state plus an odd non-zero constant, so it always changes.
#[verifier::external_body]
pub(crate) fn rng_fork(rng: &mut fastrand::Rng) -> (r: fastrand::Rng)
    ensures
        rng_state(r) == fork_child(rng_state(*old(rng))),
        rng_state(*final(rng)) == fork_next(rng_state(*old(rng))),
        rng_state(*final(rng)) != rng_state(*old(rng)),
{
    rng.fork()
}

/// Relies on `fastrand::Rng::seed`: stores the given seed as the new
/// state, discarding the old one.
#[verifier::external_body]
pub(crate) fn rng_seed(rng: &mut fastrand::Rng, seed: u64)
    ensures
        rng_state(*final(rng)) == seed,
{
    rng.seed(seed);
}

/// Relies on `fastrand::Rng::get_seed`: reads back the current state
/// without touching it.
#[verifier::external_body]
pub(crate) fn rng_get_seed(rng: &fastrand::Rng) -> (v: u64)
    ensures
        v == rng_state(*rng),
{
    rng.get_seed()
}

/// What the `fastrand` ranged `u8` draw returns: a function of the
/// stream state and the range alone.
pub uninterp spec fn u8_draw(state: u64, lo: u8, hi: u8) -> u8;

/// The stream state after the ranged `u8` draw.
pub uninterp spec fn u8_next(state: u64, lo: u8, hi: u8) -> u64;

/// Relies on `fastrand::Rng::u8`: a uniform draw from a non-empty
/// range, deterministic in the state and the range.
#[verifier::external_body]
pub(crate) fn rng_u8(rng: &mut fastrand::Rng, lo: u8, hi: u8) -> (v: u8)
    requires
        lo < hi,
    ensures
        lo <= v < hi,
        v == u8_draw(rng_state(*old(rng)), lo, hi),
        rng_state(*final(rng)) == u8_next(rng_state(*old(rng)), lo, hi),
{
    rng.u8(lo..hi)
}

/// What the `fastrand` ranged `u16` draw returns: a function of the
/// stream state and the range alone.
pub uninterp spec fn u16_draw(state: u64, lo: u16, hi: u16) -> u16;

/// The stream state after the ranged `u16` draw.
pub uninterp spec fn u16_next(state: u64, lo: u16, hi: u16) -> u64;

/// Relies on `fastrand::Rng::u16`: a uniform draw from a non-empty
/// range, deterministic in the state and the range.
#[verifier::external_body]
pub(crate) fn rng_u16(rng: &mut fastrand::Rng, lo: u16, hi: u16) -> (v: u16)
    requires
        lo < hi,
    ensures
        lo <= v < hi,
        v == u16_draw(rng_state(*old(rng)), lo, hi),
        rng_state(*final(rng)) == u16_next(rng_state(*old(rng)), lo, hi),
{
    rng.u16(lo..hi)
}

/// What the `fastrand` ranged `u32` draw returns: a function of the
/// stream state and the range alone.
pub uninterp spec fn u32_draw(state: u64, lo: u32, hi: u32) -> u32;

/// The stream state after the ranged `u32` draw.
pub uninterp spec fn u32_next(state: u64, lo: u32, hi: u32) -> u64;

/// Relies on `fastrand::Rng::u32`: a uniform draw from a non-empty
/// range, deterministic in the state and the range.
#[verifier::external_body]
pub(crate) fn rng_u32(rng: &mut fastrand::Rng, lo: u32, hi: u32) -> (v: u32)
    requires
        lo < hi,
    ensures
        lo <= v < hi,
        v == u32_draw(rng_state(*old(rng)), lo, hi),
        rng_state(*final(rng)) == u32_next(rng_state(*old(rng)), lo, hi),
{
    rng.u32(lo..hi)
}

/// What the `fastrand` ranged `u64` draw returns: a function of the
/// stream state and the range alone.
pub uninterp spec fn u64_draw(state: u64, lo: u64, hi: u64) -> u64;

/// The stream state after the ranged `u64` draw.
pub uninterp spec fn u64_next(state: u64, lo: u64, hi: u64) -> u64;

/// Relies on `fastrand::Rng::u64`: a uniform draw from a non-empty
/// range, deterministic in the state and the range.
#[verifier::external_body]
pub(crate) fn rng_u64(rng: &mut fastrand::Rng, lo: u64, hi: u64) -> (v: u64)
    requires
        lo < hi,
    ensures
        lo <= v < hi,
        v == u64_draw(rng_state(*old(rng)), lo, hi),
        rng_state(*final(rng)) == u64_next(rng_state(*old(rng)), lo, hi),
{
    rng.u64(lo..hi)
}

/// What the `fastrand` ranged `u128` draw returns: a function of the
/// stream state and the range alone.
pub uninterp spec fn u128_draw(state: u64, lo: u128, hi: u128) -> u128;

/// The stream state after the ranged `u128` draw.
pub uninterp spec fn u128_next(state: u64, lo: u128, hi: u128) -> u64;

/// Relies on `fastrand::Rng::u128`: a uniform draw from a non-empty
/// range, deterministic in the state and the range.
#[verifier::external_body]
pub(crate) fn rng_u128(rng: &mut fastrand::Rng, lo: u128, hi: u128) -> (v: u128)
    requires
        lo < hi,
    ensures
        lo <= v < hi,
        v == u128_draw(rng_state(*old(rng)), lo, hi),
        rng_state(*final(rng)) == u128_next(rng_state(*old(rng)), lo, hi),
{
    rng.u128(lo..hi)
}

/// What the `fastrand` ranged `usize` draw returns: a function of the
/// stream state and the range alone, for this
/// platform's pointer width.
pub uninterp spec fn usize_draw(state: u64, lo: usize, hi: usize) -> usize;

/// The stream state after the ranged `usize` draw.
pub uninterp spec fn usize_next(state: u64, lo: usize, hi: usize) -> u64;

/// Relies on `fastrand::Rng::usize`: a uniform draw from a non-empty
/// range, deterministic in the state and the range.
#[verifier::external_body]
pub(crate) fn rng_usize(rng: &mut fastrand::Rng, lo: usize, hi: usize) -> (v: usize)
    requires
        lo < hi,
    ensures
        lo <= v < hi,
        v == usize_draw(rng_state(*old(rng)), lo, hi),
        rng_state(*final(rng)) == usize_next(rng_state(*old(rng)), lo, hi),
{
    rng.usize(lo..hi)
}

/// What the `fastrand` ranged `i8` draw returns: a function of the
/// stream state and the range alone.
pub uninterp spec fn i8_draw(state: u64, lo: i8, hi: i8) -> i8;

/// The stream state after the ranged `i8` draw.
pub uninterp spec fn i8_next(state: u64, lo: i8, hi: i8) -> u64;

/// Relies on `fastrand::Rng::i8`: a uniform draw from a non-empty
/// range, deterministic in the state and the range.
#[verifier::external_body]
pub(crate) fn rng_i8(rng: &mut fastrand::Rng, lo: i8, hi: i8) -> (v: i8)
    requires
        lo < hi,
    ensures
        lo <= v < hi,
        v == i8_draw(rng_state(*old(rng)), lo, hi),
        rng_state(*final(rng)) == i8_next(rng_state(*old(rng)), lo, hi),
{
    rng.i8(lo..hi)
}

/// What the `fastrand` ranged `i16` draw returns: a function of the
/// stream state and the range alone.
pub uninterp spec fn i16_draw(state: u64, lo: i16, hi: i16) -> i16;

/// The stream state after the ranged `i16` draw.
pub uninterp spec fn i16_next(state: u64, lo: i16, hi: i16) -> u64;

/// Relies on `fastrand::Rng::i16`: a uniform draw from a non-empty
/// range, deterministic in the state and the range.
#[verifier::external_body]
pub(crate) fn rng_i16(rng: &mut fastrand::Rng, lo: i16, hi: i16) -> (v: i16)
    requires
        lo < hi,
    ensures
        lo <= v < hi,
        v == i16_draw(rng_state(*old(rng)), lo, hi),
        rng_state(*final(rng)) == i16_next(rng_state(*old(rng)), lo, hi),
{
    rng.i16(lo..hi)
}

/// What the `fastrand` ranged `i32` draw returns: a function of the
/// stream state and the range alone.
pub uninterp spec fn i32_draw(state: u64, lo: i32, hi: i32) -> i32;

/// The stream state after the ranged `i32` draw.
pub uninterp spec fn i32_next(state: u64, lo: i32, hi: i32) -> u64;

/// Relies on `fastrand::Rng::i32`: a uniform draw from a non-empty
/// range, deterministic in the state and the range.
#[verifier::external_body]
pub(crate) fn rng_i32(rng: &mut fastrand::Rng, lo: i32, hi: i32) -> (v: i32)
    requires
        lo < hi,
    ensures
        lo <= v < hi,
        v == i32_draw(rng_state(*old(rng)), lo, hi),
        rng_state(*final(rng)) == i32_next(rng_state(*old(rng)), lo, hi),
{
    rng.i32(lo..hi)
}

/// What the `fastrand` ranged `i64` draw returns: a function of the
/// stream state and the range alone.
pub uninterp spec fn i64_draw(state: u64, lo: i64, hi: i64) -> i64;

/// The stream state after the ranged `i64` draw.
pub uninterp spec fn i64_next(state: u64, lo: i64, hi: i64) -> u64;

/// Relies on `fastrand::Rng::i64`: a uniform draw from a non-empty
/// range, deterministic in the state and the range.
#[verifier::external_body]
pub(crate) fn rng_i64(rng: &mut fastrand::Rng, lo: i64, hi: i64) -> (v: i64)
    requires
        lo < hi,
    ensures
        lo <= v < hi,
        v == i64_draw(rng_state(*old(rng)), lo, hi),
        rng_state(*final(rng)) == i64_next(rng_state(*old(rng)), lo, hi),
{
    rng.i64(lo..hi)
}

/// What the `fastrand` ranged `i128` draw returns: a function of the
/// stream state and the range alone.
pub uninterp spec fn i128_draw(state: u64, lo: i128, hi: i128) -> i128;

/// The stream state after the ranged `i128` draw.
pub uninterp spec fn i128_next(state: u64, lo: i128, hi: i128) -> u64;

/// Relies on `fastrand::Rng::i128`: a uniform draw from a non-empty
/// range, deterministic in the state and the range.
#[verifier::external_body]
pub(crate) fn rng_i128(rng: &mut fastrand::Rng, lo: i128, hi: i128) -> (v: i128)
    requires
        lo < hi,
    ensures
        lo <= v < hi,
        v == i128_draw(rng_state(*old(rng)), lo, hi),
        rng_state(*final(rng)) == i128_next(rng_state(*old(rng)), lo, hi),
{
    rng.i128(lo..hi)
}

/// What the `fastrand` ranged `isize` draw returns: a function of the
/// stream state and the range alone, for this
/// platform's pointer width.
pub uninterp spec fn isize_draw(state: u64, lo: isize, hi: isize) -> isize;

/// The stream state after the ranged `isize` draw.
pub uninterp spec fn isize_next(state: u64, lo: isize, hi: isize) -> u64;

/// Relies on `fastrand::Rng::isize`: a uniform draw from a non-empty
/// range, deterministic in the state and the range.
#[verifier::external_body]
pub(crate) fn rng_isize(rng: &mut fastrand::Rng, lo: isize, hi: isize) -> (v: isize)
    requires
        lo < hi,
    ensures
        lo <= v < hi,
        v == isize_draw(rng_state(*old(rng)), lo, hi),
        rng_state(*final(rng)) == isize_next(rng_state(*old(rng)), lo, hi),
{
    rng.isize(lo..hi)
}

} // verus!
