//! Colors are vectors: one channel per component, with 1.0 as full
//! intensity. This module maps an accumulated pixel sum to an output
//! RGB triple: average over the samples, gamma-correct by square root,
//! clamp, and truncate to a byte.

use vstd::prelude::*;
use crate::fx::{SCALE, tdiv, sqrt_s, clamp_s, fx_sqrt, clamp};
use crate::vector::{Vec3, V3};

verus! {

/// A color: red, green and blue channels in `[0, 1]`.
pub type Color = Vec3;

/// Channels within `[0, 1]`.
pub open spec fn color_wf(c: V3) -> bool {
    0 <= c.x <= SCALE as int && 0 <= c.y <= SCALE as int && 0 <= c.z <= SCALE as int
}

/// Pure black: the color of an exhausted or absorbed ray.
pub open spec fn black_s() -> V3 {
    V3 { x: 0, y: 0, z: 0 }
}

/// Report whether every channel lies in `[0, 1]`.
pub fn check_color(c: &Color) -> (r: bool)
    ensures
        r == color_wf(c@),
{
    0 <= c.x && c.x <= SCALE && 0 <= c.y && c.y <= SCALE && 0 <= c.z && c.z <= SCALE
}

/// A zero color, to accumulate samples into.
pub fn new() -> (r: Color)
    ensures
        r@ == black_s(),
{
    Vec3 { x: 0, y: 0, z: 0 }
}

/// One output channel: average the accumulated sum over the samples,
/// gamma-correct with a square root, clamp to `[0, 0.999]` and scale by
/// 256, truncating to an integer.
pub open spec fn channel_s(sum: int, samples: int) -> int
    recommends
        samples > 0,
{
    tdiv(clamp_s(sqrt_s(tdiv(sum, samples)), 0, 999_000) * 256, SCALE as int)
}

/// The RGB triple a pixel sum produces.
pub open spec fn to_rgb_s(sum: V3, samples: int) -> (u8, u8, u8)
    recommends
        samples > 0,
{
    (channel_s(sum.x, samples) as u8, channel_s(sum.y, samples) as u8, channel_s(
        sum.z,
        samples,
    ) as u8)
}

fn channel(sum: i64, samples: i64) -> (r: u8)
    requires
        0 < samples <= 1_000_000,
        0 <= sum <= samples * (SCALE as int),
    ensures
        r == channel_s(sum as int, samples as int),
{
    proof {
        assert(sum / samples <= SCALE) by (nonlinear_arith)
            requires
                0 < samples,
                0 <= sum <= samples * (SCALE as int),
        ;
        assert(sum / samples >= 0) by (nonlinear_arith)
            requires
                0 < samples,
                sum >= 0,
        ;
    }
    let avg = (sum as u64) / (samples as u64);
    let g = fx_sqrt(avg as i64);
    let c = clamp(g, 0, 999_000);
    ((c as u64) * 256 / (SCALE as u64)) as u8
}

/// The RGB triple of an accumulated pixel color: the per-channel average
/// over `samples_per_pixel` samples, gamma-corrected, clamped and
/// truncated. The caller divides nothing: this takes the raw sum.
pub fn to_rgb(sum: &Color, samples_per_pixel: usize) -> (r: (u8, u8, u8))
    requires
        0 < samples_per_pixel <= 1_000_000,
        0 <= sum@.x <= samples_per_pixel * (SCALE as int),
        0 <= sum@.y <= samples_per_pixel * (SCALE as int),
        0 <= sum@.z <= samples_per_pixel * (SCALE as int),
    ensures
        r == to_rgb_s(sum@, samples_per_pixel as int),
{
    let n = samples_per_pixel as i64;
    (channel(sum.x, n), channel(sum.y, n), channel(sum.z, n))
}

} // verus!
