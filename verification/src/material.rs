//! Material scattering: how a surface answers an incoming ray with an
//! attenuation color and an outgoing ray, or absorbs it. The variant set
//! is closed: diffuse (Lambertian) and reflective (Metallic) surfaces.

use vstd::prelude::*;
use crate::fx::{SCALE, mul_s, lemma_mul_s_bound, lemma_mul_s_zero};
use crate::vector::{
    Vec3, V3, bounded, add_s, smul_s, dot_s, near_zero_s, unit_axis_s, reflect_s,
    random_unit_vector_s, random_in_unit_sphere_s, REJECT_CAP, DIR_MAX,
};
use crate::ray::{Ray, RayS};
use crate::hittable::{HitRecord, HitS, hit_wf};
use crate::color::{Color, color_wf};
use crate::rng::{RandomSource, source_wf, deterministic};

verus! {

/// A diffuse surface: scatters about the surface normal, always.
#[derive(Clone, Copy, Debug, PartialEq, Eq, Structural)]
pub struct Lambertian {
    pub albedo: Color,
}

/// A reflective surface: mirrors the incoming direction, perturbed
/// within a sphere of radius `fuzz` (a fraction of one), and absorbs
/// rays the perturbation pushes below the surface.
#[derive(Clone, Copy, Debug, PartialEq, Eq, Structural)]
pub struct Metallic {
    pub albedo: Color,
    pub fuzz: i64,
}

/// The closed set of material variants a surface can carry.
#[derive(Clone, Copy, Debug, PartialEq, Eq, Structural)]
pub enum Material {
    Lambertian(Lambertian),
    Metallic(Metallic),
}

/// Albedo channels in `[0, 1]`; a metallic fuzz radius in `[0, 1]`.
pub open spec fn material_wf(m: Material) -> bool {
    match m {
        Material::Lambertian(l) => color_wf(l.albedo@),
        Material::Metallic(mt) => color_wf(mt.albedo@) && 0 <= mt.fuzz <= SCALE,
    }
}

/// The fraction of incoming light the material reflects, per channel.
pub open spec fn albedo_of(m: Material) -> V3 {
    match m {
        Material::Lambertian(l) => l.albedo@,
        Material::Metallic(mt) => mt.albedo@,
    }
}

/// What a diffuse scatter produces: the outgoing ray aims at the normal
/// plus a random unit vector, falling back to the bare normal when the
/// sum degenerates to zero; the ray always scatters and the attenuation
/// is the albedo.
pub open spec fn lambertian_scatter_s(l: Lambertian, hit: HitS, rs: RandomSource) -> (
    V3,
    RayS,
    bool,
    RandomSource,
) {
    let (ru, rs1) = random_unit_vector_s(rs);
    let d0 = add_s(hit.normal, ru);
    let dir = if near_zero_s(d0) {
        hit.normal
    } else {
        d0
    };
    (l.albedo@, RayS { orig: hit.p, dir }, true, rs1)
}

/// What a metallic scatter produces: the unit incoming direction is
/// mirrored about the normal and perturbed by `fuzz` times a random
/// point in the unit sphere; the ray scatters only while the result
/// still leaves the surface, and the attenuation is the albedo.
pub open spec fn metallic_scatter_s(mt: Metallic, ray_in: RayS, hit: HitS, rs: RandomSource) -> (
    V3,
    RayS,
    bool,
    RandomSource,
) {
    let reflected = reflect_s(unit_axis_s(ray_in.dir), hit.normal);
    let (fz, rs1) = random_in_unit_sphere_s(rs, REJECT_CAP as nat);
    let dir = add_s(reflected, smul_s(fz, mt.fuzz as int));
    (mt.albedo@, RayS { orig: hit.p, dir }, dot_s(dir, hit.normal) > 0, rs1)
}

/// What scattering produces: attenuation, outgoing ray, whether the ray
/// scattered at all, and the advanced random source, dispatched over the
/// material variants.
pub open spec fn scatter_s(m: Material, ray_in: RayS, hit: HitS, rs: RandomSource) -> (
    V3,
    RayS,
    bool,
    RandomSource,
) {
    match m {
        Material::Lambertian(l) => lambertian_scatter_s(l, hit, rs),
        Material::Metallic(mt) => metallic_scatter_s(mt, ray_in, hit, rs),
    }
}

impl Lambertian {
    /// Scatter an incoming ray diffusely: the attenuation is always the
    /// albedo and the ray always scatters.
    pub fn scatter(&self, rng: &mut RandomSource, ray_in: &Ray, hit_record: &HitRecord) -> (r: (
        Color,
        Ray,
        bool,
    ))
        requires
            color_wf(self.albedo@),
            source_wf(*old(rng)),
            hit_wf(hit_record@),
            bounded(ray_in@.dir, DIR_MAX as int),
        ensures
            source_wf(*final(rng)),
            deterministic(*final(rng)) == deterministic(*old(rng)),
            r.0@ == self.albedo@,
            r.1@.orig == hit_record@.p,
            bounded(r.1@.dir, 200_000_000),
            r.2 == true,
            deterministic(*old(rng)) ==> {
                let s = lambertian_scatter_s(*self, hit_record@, *old(rng));
                r.0@ == s.0 && r.1@ == s.1 && r.2 == s.2 && *final(rng) == s.3
            },
            !deterministic(*old(rng)) ==> *final(rng) == *old(rng),
    {
        let ru = Vec3::random_unit_vector(rng);
        let d0 = hit_record.normal.add(&ru);
        let dir = if d0.near_zero() {
            hit_record.normal
        } else {
            d0
        };
        let scattered = Ray { origin: hit_record.p, direction: dir };
        (self.albedo, scattered, true)
    }
}

impl Metallic {
    /// Scatter an incoming ray off a reflective surface: the attenuation
    /// is always the albedo, and with no fuzz the scattered direction is
    /// exactly the mirror reflection of the unit incoming direction.
    pub fn scatter(&self, rng: &mut RandomSource, ray_in: &Ray, hit_record: &HitRecord) -> (r: (
        Color,
        Ray,
        bool,
    ))
        requires
            color_wf(self.albedo@),
            0 <= self.fuzz <= SCALE,
            source_wf(*old(rng)),
            hit_wf(hit_record@),
            bounded(ray_in@.dir, DIR_MAX as int),
        ensures
            source_wf(*final(rng)),
            deterministic(*final(rng)) == deterministic(*old(rng)),
            r.0@ == self.albedo@,
            r.1@.orig == hit_record@.p,
            bounded(r.1@.dir, 200_000_000),
            self.fuzz == 0 ==> r.1@.dir == reflect_s(
                unit_axis_s(ray_in@.dir),
                hit_record@.normal,
            ),
            deterministic(*old(rng)) ==> {
                let s = metallic_scatter_s(*self, ray_in@, hit_record@, *old(rng));
                r.0@ == s.0 && r.1@ == s.1 && r.2 == s.2 && *final(rng) == s.3
            },
            !deterministic(*old(rng)) ==> *final(rng) == *old(rng),
    {
        let u = ray_in.direction.unit_direction();
        let reflected = u.reflect(&hit_record.normal);
        let fz = Vec3::random_vector_in_unit_sphere(rng);
        let perturbation = fz.scale(self.fuzz);
        proof {
            lemma_mul_s_bound(fz@.x, self.fuzz as int, 2_000_000, SCALE as int);
            lemma_mul_s_bound(fz@.y, self.fuzz as int, 2_000_000, SCALE as int);
            lemma_mul_s_bound(fz@.z, self.fuzz as int, 2_000_000, SCALE as int);
            if self.fuzz == 0 {
                lemma_mul_s_zero(fz@.x);
                lemma_mul_s_zero(fz@.y);
                lemma_mul_s_zero(fz@.z);
            }
        }
        let dir = reflected.add(&perturbation);
        let scattered = Ray { origin: hit_record.p, direction: dir };
        let did = dir.dot(&hit_record.normal) > 0;
        (self.albedo, scattered, did)
    }
}

/// Report whether a material's parameters are in range.
pub fn check_material(m: &Material) -> (r: bool)
    ensures
        r == material_wf(*m),
{
    match m {
        Material::Lambertian(l) => crate::color::check_color(&l.albedo),
        Material::Metallic(mt) => crate::color::check_color(&mt.albedo) && 0 <= mt.fuzz
            && mt.fuzz <= SCALE,
    }
}

impl Material {
    /// Scatter an incoming ray at a hit point: the attenuation color, the
    /// outgoing ray, and whether the ray scattered rather than being
    /// absorbed. The attenuation always equals the material's albedo, a
    /// Lambertian surface always scatters, and a metallic surface with no
    /// fuzz returns exactly the mirror reflection of the unit incoming
    /// direction.
    pub fn scatter(&self, rng: &mut RandomSource, ray_in: &Ray, hit_record: &HitRecord) -> (r: (
        Color,
        Ray,
        bool,
    ))
        requires
            material_wf(*self),
            source_wf(*old(rng)),
            hit_wf(hit_record@),
            bounded(ray_in@.dir, DIR_MAX as int),
        ensures
            source_wf(*final(rng)),
            deterministic(*final(rng)) == deterministic(*old(rng)),
            r.0@ == albedo_of(*self),
            color_wf(r.0@),
            r.1@.orig == hit_record@.p,
            bounded(r.1@.dir, 200_000_000),
            self is Lambertian ==> r.2 == true,
            self matches Material::Metallic(mt) ==> (mt.fuzz == 0 ==> r.1@.dir == reflect_s(
                unit_axis_s(ray_in@.dir),
                hit_record@.normal,
            )),
            deterministic(*old(rng)) ==> {
                let s = scatter_s(*self, ray_in@, hit_record@, *old(rng));
                r.0@ == s.0 && r.1@ == s.1 && r.2 == s.2 && *final(rng) == s.3
            },
            !deterministic(*old(rng)) ==> *final(rng) == *old(rng),
    {
        match self {
            Material::Lambertian(l) => l.scatter(rng, ray_in, hit_record),
            Material::Metallic(mt) => mt.scatter(rng, ray_in, hit_record),
        }
    }
}

} // verus!
