//! Spheres: the one geometric primitive, with quadratic ray
//! intersection.

use vstd::prelude::*;
use crate::fx::{
    SCALE, iabs, mul_s, div_s, sqrt_s, fx_mul, fx_div, fx_sqrt, lemma_mul_s_bound,
    lemma_mul_s_square_nonneg,
};
use crate::vector::{Vec3, V3, bounded, sub_s, lsq_s, dot_s, sdiv_s, check_bounded, GEOM_MAX};
use crate::ray::{Ray, RayS, ray_wf, at_s, T_MAX};
use crate::hittable::{Hittable, HitRecord, HitS, hit_zero_s, hit_wf, set_face_normal_s};
use crate::material::{Material, material_wf, check_material};

verus! {

/// Largest squared direction length the intersection quadratic accepts;
/// longer directions report no intersection rather than overflow.
pub const A_MAX: i64 = 100_000_000_000;

/// Largest half-b coefficient the quadratic accepts.
pub const HB_MAX: i64 = 2_000_000_000_000;

/// Largest constant coefficient the quadratic accepts.
pub const C_MAX: i64 = 20_000_000_000_000;

/// A sphere: center, positive radius, and the material of its surface.
/// Materials are plain immutable values, so spheres sharing one material
/// share its definition.
#[derive(Clone, Copy, Debug, PartialEq, Eq, Structural)]
pub struct Sphere {
    pub center: Vec3,
    pub radius: i64,
    pub material: Material,
}

/// What went wrong assembling a scene.
#[derive(Clone, Copy, Debug, PartialEq, Eq, Structural)]
pub enum SceneError {
    /// A sphere was given a radius of zero or below.
    NonPositiveRadius,
    /// A center component, the radius or a material parameter lies
    /// outside the representable scene range.
    OutOfRange,
}

/// A sphere the pipeline can intersect: its center is a scene point, its
/// radius positive and in range, its material in range.
pub open spec fn sphere_wf(s: Sphere) -> bool {
    bounded(s.center@, GEOM_MAX as int) && 0 < s.radius <= GEOM_MAX && material_wf(s.material)
}

/// The intersection a sphere reports for a ray on `[t_min, t_max]`:
/// solve `a t^2 + 2 half_b t + c = 0`, take the nearer root if it lies in
/// range, else the farther, else report nothing. Degenerate directions
/// and coefficients or points beyond the representable range also report
/// nothing.
pub open spec fn sphere_hit_s(s: Sphere, ray: RayS, t_min: int, t_max: int) -> Option<HitS> {
    let oc = sub_s(ray.orig, s.center@);
    let a = lsq_s(ray.dir);
    let half_b = dot_s(oc, ray.dir);
    let c = lsq_s(oc) - mul_s(s.radius as int, s.radius as int);
    if a <= 0 || a > A_MAX as int || iabs(half_b) > HB_MAX as int || iabs(c) > C_MAX as int {
        None
    } else {
        let disc = mul_s(half_b, half_b) - mul_s(a, c);
        if disc < 0 {
            None
        } else {
            let sqrtd = sqrt_s(disc);
            let root1 = div_s(-half_b - sqrtd, a);
            let root = if t_min <= root1 && root1 <= t_max {
                root1
            } else {
                div_s(-half_b + sqrtd, a)
            };
            if !(t_min <= root && root <= t_max) {
                None
            } else {
                let p = at_s(ray, root);
                if !bounded(p, GEOM_MAX as int) {
                    None
                } else {
                    let outward = sdiv_s(sub_s(p, s.center@), s.radius as int);
                    if !bounded(outward, 2_000_000) {
                        None
                    } else {
                        Some(
                            set_face_normal_s(
                                HitS {
                                    p,
                                    normal: V3 { x: 0, y: 0, z: 0 },
                                    t: root,
                                    front_face: false,
                                    material: s.material,
                                },
                                ray,
                                outward,
                            ),
                        )
                    }
                }
            }
        }
    }
}

/// Whatever a well-formed sphere reports is a well-formed hit inside the
/// queried range.
pub proof fn lemma_sphere_hit_wf(s: Sphere, ray: RayS, t_min: int, t_max: int)
    requires
        sphere_wf(s),
        0 <= t_min,
        sphere_hit_s(s, ray, t_min, t_max) is Some,
    ensures
        hit_wf(sphere_hit_s(s, ray, t_min, t_max)->Some_0),
        t_min <= sphere_hit_s(s, ray, t_min, t_max)->Some_0.t <= t_max,
{
}

impl Sphere {
    /// Assemble a sphere, rejecting a non-positive radius and parameters
    /// outside the representable scene range.
    pub fn new(center: Vec3, radius: i64, material: Material) -> (r: Result<Sphere, SceneError>)
        ensures
            radius <= 0 ==> r == Err::<Sphere, SceneError>(SceneError::NonPositiveRadius),
            radius > 0 && !(bounded(center@, GEOM_MAX as int) && radius <= GEOM_MAX
                && material_wf(material)) ==> r == Err::<Sphere, SceneError>(SceneError::OutOfRange),
            radius > 0 && bounded(center@, GEOM_MAX as int) && radius <= GEOM_MAX && material_wf(
                material,
            ) ==> r == Ok::<Sphere, SceneError>(Sphere { center, radius, material }),
            r matches Ok(s) ==> sphere_wf(s),
    {
        if radius <= 0 {
            return Err(SceneError::NonPositiveRadius);
        }
        if !check_bounded(&center, GEOM_MAX) || radius > GEOM_MAX || !check_material(&material) {
            return Err(SceneError::OutOfRange);
        }
        Ok(Sphere { center, radius, material })
    }
}

impl Hittable for Sphere {
    open spec fn hit_req(&self, ray: Ray, t_min: i64, t_max: i64) -> bool {
        sphere_wf(*self) && ray_wf(ray@) && 0 <= t_min && t_max <= T_MAX
    }

    open spec fn hit_spec(&self, ray: Ray, t_min: i64, t_max: i64) -> Option<HitS> {
        sphere_hit_s(*self, ray@, t_min as int, t_max as int)
    }

    fn hit(&self, ray: &Ray, t_min: i64, t_max: i64) -> (r: (bool, HitRecord)) {
        let mut hr = HitRecord::new();
        let oc = ray.origin.sub(&self.center);
        let a = ray.direction.length_squared();
        let half_b = oc.dot(&ray.direction);
        proof {
            lemma_mul_s_bound(oc@.x, oc@.x, 2_000_000_000, 2_000_000_000);
            lemma_mul_s_bound(oc@.y, oc@.y, 2_000_000_000, 2_000_000_000);
            lemma_mul_s_bound(oc@.z, oc@.z, 2_000_000_000, 2_000_000_000);
            lemma_mul_s_square_nonneg(oc@.x);
            lemma_mul_s_square_nonneg(oc@.y);
            lemma_mul_s_square_nonneg(oc@.z);
            lemma_mul_s_bound(self.radius as int, self.radius as int, GEOM_MAX as int,
                GEOM_MAX as int);
            lemma_mul_s_square_nonneg(self.radius as int);
        }
        let c = oc.length_squared() - fx_mul(self.radius, self.radius);
        if a <= 0 || a > A_MAX || half_b < -HB_MAX || half_b > HB_MAX || c < -C_MAX || c > C_MAX {
            return (false, hr);
        }
        proof {
            lemma_mul_s_bound(half_b as int, half_b as int, HB_MAX as int, HB_MAX as int);
            lemma_mul_s_bound(a as int, c as int, A_MAX as int, C_MAX as int);
            assert(iabs(a as int) * iabs(c as int) <= 2_000_000_000_000_000_000_000_000)
                by (nonlinear_arith)
                requires
                    0 <= iabs(a as int) <= A_MAX as int,
                    0 <= iabs(c as int) <= C_MAX as int,
            ;
        }
        let disc = fx_mul(half_b, half_b) - fx_mul(a, c);
        if disc < 0 {
            return (false, hr);
        }
        let sqrtd = fx_sqrt(disc);
        let mut root = fx_div(-half_b - sqrtd, a);
        if root < t_min || t_max < root {
            root = fx_div(-half_b + sqrtd, a);
            if root < t_min || t_max < root {
                return (false, hr);
            }
        }
        let p = ray.at(root);
        if !check_bounded(&p, GEOM_MAX) {
            return (false, hr);
        }
        let outward = p.sub(&self.center).div(self.radius);
        if !check_bounded(&outward, 2_000_000) {
            return (false, hr);
        }
        hr.t = root;
        hr.p = p;
        hr.material = self.material;
        hr.set_face_normal(ray, &outward);
        (true, hr)
    }
}

} // verus!
