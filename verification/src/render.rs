//! The pixel accumulator: drive the camera across the image in raster
//! order (top row first, left to right), gather many jittered samples
//! per pixel through the radiance integrator, and map each accumulated
//! sum to an output RGB triple.

use vstd::prelude::*;
use vstd::arithmetic::div_mod::lemma_fundamental_div_mod_converse;
use crate::fx::{SCALE, div_s, fx_div};
use crate::vector::V3;
use crate::ray::{ray_color_s, scene_wf};
use crate::sphere::Sphere;
use crate::camera::{Camera, CamS, cam_wf, get_ray_s};
use crate::color::{black_s, to_rgb_s, to_rgb};
use crate::rng::{RandomSource, source_wf, deterministic, next_val, next_src};

verus! {

/// A jittered viewport coordinate: the pixel index plus one draw, over
/// the image extent less one.
pub open spec fn jitter_s(idx: int, extent: int, d: int) -> int
    recommends
        extent >= 2,
{
    div_s(idx * (SCALE as int) + d, (extent - 1) * (SCALE as int))
}

/// One sample of pixel `(i, j)`: jitter `u` and `v` with one draw each,
/// build the camera ray, and gather its radiance.
pub open spec fn one_sample_s(
    cam: CamS,
    objects: Seq<Sphere>,
    i: int,
    j: int,
    w: int,
    h: int,
    depth: nat,
    rs: RandomSource,
) -> (V3, RandomSource) {
    let u = jitter_s(i, w, next_val(rs));
    let rs1 = next_src(rs);
    let v = jitter_s(j, h, next_val(rs1));
    let rs2 = next_src(rs1);
    ray_color_s(get_ray_s(cam, u, v), objects, depth, rs2)
}

/// The sum of the first `k` samples of pixel `(i, j)`.
pub open spec fn sample_sum_s(
    cam: CamS,
    objects: Seq<Sphere>,
    i: int,
    j: int,
    w: int,
    h: int,
    depth: nat,
    k: nat,
    rs: RandomSource,
) -> (V3, RandomSource)
    decreases k,
{
    if k == 0 {
        (black_s(), rs)
    } else {
        let prev = sample_sum_s(cam, objects, i, j, w, h, depth, (k - 1) as nat, rs);
        let c = one_sample_s(cam, objects, i, j, w, h, depth, prev.1);
        (V3 { x: prev.0.x + c.0.x, y: prev.0.y + c.0.y, z: prev.0.z + c.0.z }, c.1)
    }
}

/// The first `count` pixels of the image in raster order: pixel number
/// `idx` sits at row `h - 1 - idx / w`, column `idx % w`.
pub open spec fn render_prefix_s(
    cam: CamS,
    objects: Seq<Sphere>,
    w: int,
    h: int,
    samples: nat,
    depth: nat,
    count: nat,
    rs: RandomSource,
) -> (Seq<(u8, u8, u8)>, RandomSource)
    decreases count,
{
    if count == 0 {
        (Seq::empty(), rs)
    } else {
        let pre = render_prefix_s(cam, objects, w, h, samples, depth, (count - 1) as nat, rs);
        let idx = count - 1;
        let sum = sample_sum_s(
            cam,
            objects,
            idx % w,
            h - 1 - idx / w,
            w,
            h,
            depth,
            samples,
            pre.1,
        );
        (pre.0.push(to_rgb_s(sum.0, samples as int)), sum.1)
    }
}

/// The whole image: every pixel in raster order.
pub open spec fn render_s(
    cam: CamS,
    objects: Seq<Sphere>,
    w: int,
    h: int,
    samples: nat,
    depth: nat,
    rs: RandomSource,
) -> (Seq<(u8, u8, u8)>, RandomSource) {
    render_prefix_s(cam, objects, w, h, samples, depth, (w * h) as nat, rs)
}

/// Re-running the whole pipeline on the same camera, scene,
/// configuration and random stream yields the identical output sequence:
/// the render is a function of its inputs and nothing else.
pub proof fn lemma_render_idempotent(
    out1: Seq<(u8, u8, u8)>,
    out2: Seq<(u8, u8, u8)>,
    cam: CamS,
    objects: Seq<Sphere>,
    w: int,
    h: int,
    samples: nat,
    depth: nat,
    rs: RandomSource,
)
    requires
        out1 == render_s(cam, objects, w, h, samples, depth, rs).0,
        out2 == render_s(cam, objects, w, h, samples, depth, rs).0,
    ensures
        out1 == out2,
{
}

/// One jittered viewport coordinate: the pixel index plus a fresh draw,
/// normalized by the image extent.
fn jitter(idx: usize, extent: usize, rng: &mut RandomSource) -> (u: i64)
    requires
        source_wf(*old(rng)),
        2 <= extent <= 10_000,
        idx < extent,
    ensures
        source_wf(*final(rng)),
        deterministic(*final(rng)) == deterministic(*old(rng)),
        *final(rng) == next_src(*old(rng)),
        0 <= u <= 2 * SCALE,
        deterministic(*old(rng)) ==> u == jitter_s(idx as int, extent as int, next_val(*old(rng))),
{
    let d = rng.next_unit();
    let num = (idx as i64) * SCALE + d;
    let den = (extent as i64 - 1) * SCALE;
    let u = fx_div(num, den);
    proof {
        let n = num as int;
        let dn = den as int;
        assert(n <= 2 * dn);
        assert(n * (SCALE as int) <= (2 * (SCALE as int)) * dn) by (nonlinear_arith)
            requires
                0 <= n <= 2 * dn,
                dn > 0,
        ;
        crate::fx::lemma_tdiv_le_mul(n * (SCALE as int), dn, 2 * (SCALE as int));
    }
    u
}

/// Render the scene: for each pixel, average `samples_per_pixel` jittered
/// radiance samples, gamma-correct and quantize, and emit the triples in
/// raster order.
pub fn render(
    camera: &Camera,
    objects: &Vec<Sphere>,
    image_width: usize,
    image_height: usize,
    samples_per_pixel: usize,
    max_bounces: usize,
    rng: &mut RandomSource,
) -> (out: Vec<(u8, u8, u8)>)
    requires
        cam_wf(camera@),
        scene_wf(objects@),
        source_wf(*old(rng)),
        2 <= image_width <= 10_000,
        2 <= image_height <= 10_000,
        1 <= samples_per_pixel <= 1_000_000,
    ensures
        source_wf(*final(rng)),
        out@.len() == image_width * image_height,
        deterministic(*old(rng)) ==> (out@, *final(rng)) == render_s(
            camera@,
            objects@,
            image_width as int,
            image_height as int,
            samples_per_pixel as nat,
            max_bounces as nat,
            *old(rng),
        ),
        !deterministic(*old(rng)) ==> *final(rng) == *old(rng),
{
    let ghost rs0 = *old(rng);
    let ghost w = image_width as int;
    let ghost h = image_height as int;
    let ghost samples = samples_per_pixel as nat;
    let ghost depth = max_bounces as nat;
    let mut out: Vec<(u8, u8, u8)> = Vec::new();
    let mut j: usize = image_height;
    while j > 0
        invariant
            rs0 == *old(rng),
            cam_wf(camera@),
            scene_wf(objects@),
            source_wf(*rng),
            2 <= image_width <= 10_000,
            2 <= image_height <= 10_000,
            1 <= samples_per_pixel <= 1_000_000,
            w == image_width as int,
            h == image_height as int,
            samples == samples_per_pixel as nat,
            depth == max_bounces as nat,
            j <= image_height,
            out@.len() == (h - j) * w,
            deterministic(rs0) ==> deterministic(*rng) && (out@, *rng) == render_prefix_s(
                camera@,
                objects@,
                w,
                h,
                samples,
                depth,
                ((h - j) * w) as nat,
                rs0,
            ),
            !deterministic(rs0) ==> *rng == rs0,
        decreases j,
    {
        let jj = j - 1;
        let mut i: usize = 0;
        proof {
            assert((h - j) * w + w == (h - jj) * w) by (nonlinear_arith)
                requires
                    jj == j - 1,
            ;
        }
        while i < image_width
            invariant
                rs0 == *old(rng),
                cam_wf(camera@),
                scene_wf(objects@),
                source_wf(*rng),
                2 <= image_width <= 10_000,
                2 <= image_height <= 10_000,
                1 <= samples_per_pixel <= 1_000_000,
                w == image_width as int,
                h == image_height as int,
                samples == samples_per_pixel as nat,
                depth == max_bounces as nat,
                1 <= j <= image_height,
                jj == j - 1,
                i <= image_width,
                out@.len() == (h - j) * w + i,
                deterministic(rs0) ==> deterministic(*rng) && (out@, *rng) == render_prefix_s(
                    camera@,
                    objects@,
                    w,
                    h,
                    samples,
                    depth,
                    ((h - j) * w + i) as nat,
                    rs0,
                ),
                !deterministic(rs0) ==> *rng == rs0,
            decreases image_width - i,
        {
            let ghost rs_px = *rng;
            let mut pixel_color = crate::color::new();
            let mut s: usize = 0;
            while s < samples_per_pixel
                invariant
                    rs0 == *old(rng),
                    cam_wf(camera@),
                    scene_wf(objects@),
                    source_wf(*rng),
                    2 <= image_width <= 10_000,
                    2 <= image_height <= 10_000,
                    1 <= samples_per_pixel <= 1_000_000,
                    w == image_width as int,
                    h == image_height as int,
                    samples == samples_per_pixel as nat,
                    depth == max_bounces as nat,
                    1 <= j <= image_height,
                    jj == j - 1,
                    i < image_width,
                    s <= samples_per_pixel,
                    0 <= pixel_color@.x <= s * (SCALE as int),
                    0 <= pixel_color@.y <= s * (SCALE as int),
                    0 <= pixel_color@.z <= s * (SCALE as int),
                    deterministic(rs0) ==> deterministic(*rng) && (pixel_color@, *rng)
                        == sample_sum_s(
                        camera@,
                        objects@,
                        i as int,
                        jj as int,
                        w,
                        h,
                        depth,
                        s as nat,
                        rs_px,
                    ),
                    !deterministic(rs0) ==> *rng == rs0 && rs_px == rs0,
                decreases samples_per_pixel - s,
            {
                let u = jitter(i, image_width, rng);
                let v = jitter(jj, image_height, rng);
                let r = camera.get_ray(u, v);
                let c = r.ray_color(rng, objects, max_bounces);
                pixel_color.add_assign(&c);
                s = s + 1;
            }
            let px = to_rgb(&pixel_color, samples_per_pixel);
            proof {
                let idx = (h - j) * w + i;
                assert(0 <= i < w);
                assert(idx == (h - j) * w + i);
                lemma_fundamental_div_mod_converse(idx, w, h - j, i as int);
                assert(idx / w == h - j && idx % w == i as int);
                assert(h - 1 - idx / w == jj as int);
            }
            out.push(px);
            i = i + 1;
        }
        j = jj;
    }
    proof {
        assert(h * w == w * h) by (nonlinear_arith);
    }
    out
}

} // verus!
