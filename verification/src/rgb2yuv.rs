//! The colour transform from 8-bit RGB to 8-bit YUV.
//!
//! The coefficients are decimal fractions, so every intermediate value is a
//! whole number of billionths. The transform is evaluated exactly in that
//! unit and only the final clamp discards the fraction.

use vstd::prelude::*;

verus! {

/// How many fixed-point units make up one: values are carried in billionths.
pub const UNITS_PER_ONE: i64 = 1_000_000_000;

/// The value `offset + 0.003906 * (cr * r + cg * g + cb * b) / 1000`, in
/// billionths. The three coefficients are given in thousandths.
pub open spec fn weighted(offset: int, cr: int, cg: int, cb: int, r: u8, g: u8, b: u8) -> int {
    offset * 1_000_000_000 + 3906 * (cr * r + cg * g + cb * b)
}

/// Clamps a value in billionths to the range 0 to 255 and drops its fraction.
pub open spec fn clamp(x: int) -> int {
    let floored: int = if x < 0 { 0int } else { x };
    let capped: int = if floored > 255_000_000_000int { 255_000_000_000int } else { floored };
    capped / 1_000_000_000
}

/// Luma: `clamp(16 + 0.003906 * (65.738 r + 129.057 g + 25.064 b))`.
pub open spec fn luma(r: u8, g: u8, b: u8) -> int {
    clamp(weighted(16, 65_738, 129_057, 25_064, r, g, b))
}

/// Red-difference chroma: `clamp(128 + 0.003906 * (112.439 r - 94.154 g - 18.285 b))`.
pub open spec fn chroma_v(r: u8, g: u8, b: u8) -> int {
    clamp(weighted(128, 112_439, -94_154, -18_285, r, g, b))
}

/// Blue-difference chroma: `clamp(128 + 0.003906 * (-37.945 r - 74.494 g + 112.439 b))`.
pub open spec fn chroma_u(r: u8, g: u8, b: u8) -> int {
    clamp(weighted(128, -37_945, -74_494, 112_439, r, g, b))
}

/// Every clamped value is a valid 8-bit channel value.
pub proof fn clamp_in_range(x: int)
    ensures
        0 <= clamp(x) <= 255,
{
}

/// The transform never leaves the nominal video range: luma stays within
/// 16 to 235 and both chroma channels within 16 to 240, so the clamp never
/// has to cut a value off.
pub proof fn transform_in_video_range(r: u8, g: u8, b: u8)
    ensures
        16 <= luma(r, g, b) <= 235,
        16 <= chroma_v(r, g, b) <= 240,
        16 <= chroma_u(r, g, b) <= 240,
        luma(r, g, b) == weighted(16, 65_738, 129_057, 25_064, r, g, b) / 1_000_000_000,
        chroma_v(r, g, b) == weighted(128, 112_439, -94_154, -18_285, r, g, b) / 1_000_000_000,
        chroma_u(r, g, b) == weighted(128, -37_945, -74_494, 112_439, r, g, b) / 1_000_000_000,
{
}

/// The transform is a function of the triple alone: the same red, green and
/// blue always give the same luma and the same chroma.
pub proof fn transform_deterministic(first: (u8, u8, u8), second: (u8, u8, u8))
    requires
        first == second,
    ensures
        luma(first.0, first.1, first.2) == luma(second.0, second.1, second.2),
        chroma_u(first.0, first.1, first.2) == chroma_u(second.0, second.1, second.2),
        chroma_v(first.0, first.1, first.2) == chroma_v(second.0, second.1, second.2),
{
}

fn yuv_clamp(x: i64) -> (c: u8)
    ensures
        c == clamp(x as int),
{
    let floored: i64 = if x < 0 { 0 } else { x };
    let capped: i64 = if floored > 255 * UNITS_PER_ONE { 255 * UNITS_PER_ONE } else { floored };
    (capped / UNITS_PER_ONE) as u8
}

/// Computes the luma channel of an RGB triple.
pub fn y_rgb(r: u8, g: u8, b: u8) -> (y: u8)
    ensures
        y == luma(r, g, b),
        16 <= y <= 235,
{
    proof {
        transform_in_video_range(r, g, b);
    }
    yuv_clamp(16 * UNITS_PER_ONE + 3906 * (65_738 * (r as i64) + 129_057 * (g as i64) + 25_064 * (b as i64)))
}

/// Computes the red-difference chroma channel of an RGB triple.
pub fn v_rgb(r: u8, g: u8, b: u8) -> (v: u8)
    ensures
        v == chroma_v(r, g, b),
        16 <= v <= 240,
{
    proof {
        transform_in_video_range(r, g, b);
    }
    yuv_clamp(128 * UNITS_PER_ONE + 3906 * (112_439 * (r as i64) - 94_154 * (g as i64) - 18_285 * (b as i64)))
}

/// Computes the blue-difference chroma channel of an RGB triple.
pub fn u_rgb(r: u8, g: u8, b: u8) -> (u: u8)
    ensures
        u == chroma_u(r, g, b),
        16 <= u <= 240,
{
    proof {
        transform_in_video_range(r, g, b);
    }
    yuv_clamp(128 * UNITS_PER_ONE + 3906 * (112_439 * (b as i64) - 37_945 * (r as i64) - 74_494 * (g as i64)))
}

} // verus!
