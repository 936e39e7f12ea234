//! Rays: a half-line from an origin along a direction, evaluated by
//! `origin + t * direction`.

use vstd::prelude::*;
use crate::fx::{
    SCALE, mul_s, clamp_s, fx_mul, clamp, lemma_mul_s_bound, lemma_mul_s_nonneg, lemma_mul_s_one,
    lemma_mul_s_le_one, lemma_mul_s_zero,
};
use crate::vector::{
    Vec3, V3, bounded, add_s, sub_s, smul_s, cmul_s, len_s, unit_axis_s, GEOM_MAX, DIR_MAX,
};
use crate::hittable::{Hittable, HitRecord, HitS, hit_zero_s, hit_wf};
use crate::sphere::{Sphere, sphere_wf, sphere_hit_s, lemma_sphere_hit_wf};
use crate::material::scatter_s;
use crate::color::{Color, color_wf, black_s};
use crate::rng::{RandomSource, source_wf, deterministic};

verus! {

/// Largest ray parameter the intersection pipeline accepts; it stands in
/// for an unbounded upper range and lies far beyond any representable
/// scene.
pub const T_MAX: i64 = 2_000_000_000_000;

/// Lower bound on accepted intersection parameters: a small positive
/// value rather than zero, so that a scattered ray cannot re-hit the
/// surface it just left (shadow acne).
pub const T_MIN: i64 = 1_000;

/// The mathematical value of a ray.
pub struct RayS {
    pub orig: V3,
    pub dir: V3,
}

/// A ray: origin plus direction. The direction need not be unit length;
/// consumers that require unit length normalize explicitly.
#[derive(Clone, Copy, Debug, PartialEq, Eq, Structural)]
pub struct Ray {
    pub origin: Vec3,
    pub direction: Vec3,
}

impl View for Ray {
    type V = RayS;

    open spec fn view(&self) -> RayS {
        RayS { orig: self.origin@, dir: self.direction@ }
    }
}

/// A ray whose origin is a scene point and whose direction the pipeline
/// can intersect without overflowing.
pub open spec fn ray_wf(r: RayS) -> bool {
    bounded(r.orig, GEOM_MAX as int) && bounded(r.dir, DIR_MAX as int)
}

/// The point a ray reaches at parameter `t`.
pub open spec fn at_s(r: RayS, t: int) -> V3 {
    add_s(r.orig, smul_s(r.dir, t))
}

impl Ray {
    /// The point the ray reaches at parameter `t`.
    pub fn at(&self, t: i64) -> (r: Vec3)
        requires
            ray_wf(self@),
            0 <= t <= T_MAX,
        ensures
            r@ == at_s(self@, t as int),
    {
        let d = self.direction.scale(t);
        proof {
            lemma_mul_s_bound(self@.dir.x, t as int, DIR_MAX as int, T_MAX as int);
            lemma_mul_s_bound(self@.dir.y, t as int, DIR_MAX as int, T_MAX as int);
            lemma_mul_s_bound(self@.dir.z, t as int, DIR_MAX as int, T_MAX as int);
        }
        self.origin.add(&d)
    }
}

/// A ray at parameter zero sits at its origin; at parameter one it has
/// advanced by exactly its direction.
pub proof fn lemma_at_endpoints(r: RayS)
    ensures
        at_s(r, 0) == r.orig,
        at_s(r, SCALE as int) == add_s(r.orig, r.dir),
{
    lemma_mul_s_zero(r.dir.x);
    lemma_mul_s_zero(r.dir.y);
    lemma_mul_s_zero(r.dir.z);
    lemma_mul_s_one(r.dir.x);
    lemma_mul_s_one(r.dir.y);
    lemma_mul_s_one(r.dir.z);
}

/// Every object of a scene is a well-formed sphere.
pub open spec fn scene_wf(objects: Seq<Sphere>) -> bool {
    forall|i: int| 0 <= i < objects.len() ==> sphere_wf(#[trigger] objects[i])
}

/// The linear scan over a scene from object `i` on, holding the nearest
/// hit found so far and the range it tightened.
pub open spec fn scene_hit_loop(
    objects: Seq<Sphere>,
    i: int,
    ray: RayS,
    t_min: int,
    closest: int,
    best: Option<HitS>,
) -> Option<HitS>
    decreases objects.len() - i,
{
    if i < 0 || i >= objects.len() {
        best
    } else {
        match sphere_hit_s(objects[i], ray, t_min, closest) {
            Some(h) => scene_hit_loop(objects, i + 1, ray, t_min, h.t, Some(h)),
            None => scene_hit_loop(objects, i + 1, ray, t_min, closest, best),
        }
    }
}

/// The nearest intersection of a ray with any object of the scene inside
/// `[t_min, t_max]`: a linear scan that keeps tightening the upper range
/// to the nearest hit found, so a later object only replaces the result
/// if it is strictly closer.
pub open spec fn scene_hit_s(objects: Seq<Sphere>, ray: RayS, t_min: int, t_max: int) -> Option<
    HitS,
> {
    scene_hit_loop(objects, 0, ray, t_min, t_max, None)
}

/// Whatever a well-formed scene reports is a well-formed hit inside the
/// queried range.
pub proof fn lemma_scene_hit_loop_wf(
    objects: Seq<Sphere>,
    i: int,
    ray: RayS,
    t_min: int,
    closest: int,
    best: Option<HitS>,
    t_max: int,
)
    requires
        scene_wf(objects),
        0 <= t_min,
        closest <= t_max,
        best matches Some(b) ==> hit_wf(b) && t_min <= b.t <= t_max,
        scene_hit_loop(objects, i, ray, t_min, closest, best) is Some,
    ensures
        hit_wf(scene_hit_loop(objects, i, ray, t_min, closest, best)->Some_0),
        t_min <= scene_hit_loop(objects, i, ray, t_min, closest, best)->Some_0.t <= t_max,
    decreases objects.len() - i,
{
    if 0 <= i < objects.len() {
        match sphere_hit_s(objects[i], ray, t_min, closest) {
            Some(h) => {
                lemma_sphere_hit_wf(objects[i], ray, t_min, closest);
                lemma_scene_hit_loop_wf(objects, i + 1, ray, t_min, h.t, Some(h), t_max);
            },
            None => {
                lemma_scene_hit_loop_wf(objects, i + 1, ray, t_min, closest, best, t_max);
            },
        }
    }
}

/// The background: a vertical gradient from white at the horizon's foot
/// to sky blue at its top, driven by the unit direction's height. A ray
/// too short to carry a direction contributes nothing.
pub open spec fn background_s(r: RayS) -> V3 {
    if len_s(r.dir) == 0 {
        black_s()
    } else {
        let u = unit_axis_s(r.dir);
        let t = mul_s(500_000, clamp_s(u.y, -(SCALE as int), SCALE as int) + SCALE as int);
        add_s(
            smul_s(V3 { x: SCALE as int, y: SCALE as int, z: SCALE as int }, SCALE as int - t),
            smul_s(V3 { x: 500_000, y: 700_000, z: SCALE as int }, t),
        )
    }
}

/// The radiance a ray gathers: nothing once the bounce budget is spent;
/// otherwise the nearest surface's scatter, attenuated and followed one
/// bounce deeper, black if the surface absorbed the ray, and the
/// background gradient if nothing was struck.
pub open spec fn ray_color_s(
    ray: RayS,
    objects: Seq<Sphere>,
    depth: nat,
    rs: RandomSource,
) -> (V3, RandomSource)
    decreases depth,
{
    if depth == 0 {
        (black_s(), rs)
    } else {
        match scene_hit_s(objects, ray, T_MIN as int, T_MAX as int) {
            Some(h) => {
                let sc = scatter_s(h.material, ray, h, rs);
                if !sc.2 {
                    (black_s(), sc.3)
                } else {
                    let rec = ray_color_s(sc.1, objects, (depth - 1) as nat, sc.3);
                    (cmul_s(sc.0, rec.0), rec.1)
                }
            },
            None => (background_s(ray), rs),
        }
    }
}

/// A ray that strikes nothing gathers exactly the background gradient,
/// whatever the scene, budget and random source.
pub proof fn lemma_miss_gives_background(
    ray: RayS,
    objects: Seq<Sphere>,
    depth: nat,
    rs: RandomSource,
)
    requires
        depth > 0,
        scene_hit_s(objects, ray, T_MIN as int, T_MAX as int) is None,
    ensures
        ray_color_s(ray, objects, depth, rs) == (background_s(ray), rs),
{
}

impl Ray {
    /// The nearest intersection with any object in `[t_min, t_max]`,
    /// scanning every object and keeping the closest.
    pub fn hits_any_object(&self, objects: &Vec<Sphere>, t_min: i64, t_max: i64) -> (r: (
        bool,
        HitRecord,
    ))
        requires
            ray_wf(self@),
            scene_wf(objects@),
            0 <= t_min,
            t_max <= T_MAX,
        ensures
            match scene_hit_s(objects@, self@, t_min as int, t_max as int) {
                Some(h) => r.0 && r.1@ == h,
                None => !r.0 && r.1@ == hit_zero_s(),
            },
    {
        let mut result_record = HitRecord::new();
        let mut hit_anything = false;
        let mut closest_so_far = t_max;
        let mut i: usize = 0;
        while i < objects.len()
            invariant
                ray_wf(self@),
                scene_wf(objects@),
                0 <= t_min,
                t_max <= T_MAX,
                0 <= i <= objects.len(),
                closest_so_far <= t_max,
                hit_anything ==> result_record@.t == closest_so_far as int,
                !hit_anything ==> result_record@ == hit_zero_s() && closest_so_far == t_max,
                scene_hit_loop(
                    objects@,
                    i as int,
                    self@,
                    t_min as int,
                    closest_so_far as int,
                    if hit_anything {
                        Some(result_record@)
                    } else {
                        None
                    },
                ) == scene_hit_s(objects@, self@, t_min as int, t_max as int),
            decreases objects.len() - i,
        {
            let object = &objects[i];
            let (hits, temp_record) = object.hit(self, t_min, closest_so_far);
            if hits {
                proof {
                    lemma_sphere_hit_wf(
                        objects@[i as int],
                        self@,
                        t_min as int,
                        closest_so_far as int,
                    );
                }
                hit_anything = true;
                closest_so_far = temp_record.t;
                result_record = temp_record;
            }
            i = i + 1;
        }
        (hit_anything, result_record)
    }

    /// The radiance gathered along this ray, with at most
    /// `allowed_bounces_remaining` further path segments. An exhausted
    /// budget gathers pure black; a miss gathers the background
    /// gradient.
    pub fn ray_color(
        &self,
        rng: &mut RandomSource,
        objects: &Vec<Sphere>,
        allowed_bounces_remaining: usize,
    ) -> (r: Color)
        requires
            ray_wf(self@),
            scene_wf(objects@),
            source_wf(*old(rng)),
        ensures
            source_wf(*final(rng)),
            deterministic(*final(rng)) == deterministic(*old(rng)),
            color_wf(r@),
            allowed_bounces_remaining == 0 ==> r@ == black_s(),
            deterministic(*old(rng)) ==> (r@, *final(rng)) == ray_color_s(
                self@,
                objects@,
                allowed_bounces_remaining as nat,
                *old(rng),
            ),
            !deterministic(*old(rng)) ==> *final(rng) == *old(rng),
        decreases allowed_bounces_remaining,
    {
        if allowed_bounces_remaining == 0 {
            return crate::color::new();
        }
        let (hits, hit_record) = self.hits_any_object(objects, T_MIN, T_MAX);
        if hits {
            proof {
                lemma_scene_hit_loop_wf(
                    objects@,
                    0,
                    self@,
                    T_MIN as int,
                    T_MAX as int,
                    None,
                    T_MAX as int,
                );
            }
            let (attenuation, scattered, did_scatter) = hit_record.material.scatter(
                rng,
                self,
                &hit_record,
            );
            if !did_scatter {
                return crate::color::new();
            }
            let rec = scattered.ray_color(rng, objects, allowed_bounces_remaining - 1);
            proof {
                lemma_mul_s_le_one(attenuation@.x, rec@.x);
                lemma_mul_s_le_one(attenuation@.y, rec@.y);
                lemma_mul_s_le_one(attenuation@.z, rec@.z);
            }
            return attenuation.mul(&rec);
        }
        // Blend white and blue by the height of the unit direction: the
        // sky gradient a missing ray gathers.
        let u = self.direction.unit_direction();
        let l = self.direction.length();
        if l == 0 {
            return crate::color::new();
        }
        let t = fx_mul(500_000, clamp(u.y, -SCALE, SCALE) + SCALE);
        proof {
            lemma_mul_s_bound(500_000, clamp_s(u@.y, -(SCALE as int), SCALE as int) + SCALE as int,
                500_000, 2_000_000);
            lemma_mul_s_nonneg(500_000, clamp_s(u@.y, -(SCALE as int), SCALE as int)
                + SCALE as int);
            lemma_mul_s_one(SCALE as int - t as int);
            lemma_mul_s_le_one(500_000, t as int);
            lemma_mul_s_le_one(700_000, t as int);
            lemma_mul_s_one(t as int);
        }
        let white = Vec3 { x: SCALE, y: SCALE, z: SCALE };
        let blue = Vec3 { x: 500_000, y: 700_000, z: SCALE };
        white.scale(SCALE - t).add(&blue.scale(t))
    }
}

} // verus!
