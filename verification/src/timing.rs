//! From protocol durations to sample counts.
//!
//! Every duration of the protocol is a whole number of microseconds, so the
//! number of samples that a segment lasts at a given sampling rate is the
//! floor of an exact quotient.

use vstd::arithmetic::div_mod::lemma_div_is_ordered;
use vstd::arithmetic::mul::lemma_mul_inequality;
use vstd::prelude::*;

verus! {

/// How long the horizontal sync pulse lasts.
pub const HORIZONTAL_SYNC_MICROS: u64 = 9_000;

/// How long the porch after a sync pulse lasts.
pub const SYNC_PORCH_MICROS: u64 = 3_000;

/// How long the porch before a chroma scan lasts.
pub const PORCH_MICROS: u64 = 1_500;

/// How long the separator between a luma scan and a chroma scan lasts.
pub const SEPARATOR_MICROS: u64 = 4_500;

/// How long the luma scan of one row lasts.
pub const Y_MICROS: u64 = 88_000;

/// How long the chroma scan of one row lasts.
pub const UV_MICROS: u64 = 44_000;

/// The number of whole samples in `micros` microseconds at `rate` samples
/// per second: the floor of `rate * micros / 1000000`.
pub open spec fn ticks_of(rate: int, micros: int) -> int {
    rate * micros / 1_000_000
}

/// The count that fits in 64 bits: `ticks_of`, held at the largest value.
pub open spec fn held_ticks(rate: int, micros: int) -> int {
    if ticks_of(rate, micros) <= u64::MAX {
        ticks_of(rate, micros)
    } else {
        u64::MAX as int
    }
}

/// A count of samples never decreases when the sampling rate goes up.
pub proof fn ticks_monotonic(slower: int, faster: int, micros: int)
    requires
        slower <= faster,
        0 <= micros,
    ensures
        ticks_of(slower, micros) <= ticks_of(faster, micros),
        held_ticks(slower, micros) <= held_ticks(faster, micros),
{
    lemma_mul_inequality(slower, faster, micros);
    lemma_div_is_ordered(slower * micros, faster * micros, 1_000_000);
}

/// A segment of at most one second lasts no more samples than the rate.
pub proof fn ticks_within_rate(rate: int, micros: int)
    requires
        0 <= rate,
        0 <= micros <= 1_000_000,
    ensures
        0 <= ticks_of(rate, micros) <= rate,
{
    assert(0 <= rate * micros <= rate * 1_000_000) by (nonlinear_arith)
        requires
            0 <= rate,
            0 <= micros <= 1_000_000,
    ;
    lemma_div_is_ordered(rate * micros, rate * 1_000_000, 1_000_000);
    lemma_div_is_ordered(0, rate * micros, 1_000_000);
}

/// Counts the whole samples in `micros` microseconds at `rate` samples per
/// second. A count too large for 64 bits is held at the largest value.
pub fn ticks(rate: u64, micros: u64) -> (count: u64)
    ensures
        count == held_ticks(rate as int, micros as int),
{
    assert(rate * micros <= 0xffff_ffff_ffff_ffff * 0xffff_ffff_ffff_ffff) by (nonlinear_arith)
        requires
            0 <= rate <= 0xffff_ffff_ffff_ffff,
            0 <= micros <= 0xffff_ffff_ffff_ffff,
    ;
    let samples: u128 = (rate as u128) * (micros as u128) / 1_000_000;
    if samples > u64::MAX as u128 {
        u64::MAX
    } else {
        samples as u64
    }
}

} // verus!
