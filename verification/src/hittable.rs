//! Surface intersections: the record a hit produces and the capability
//! geometric primitives implement.

use vstd::prelude::*;
use crate::vector::{Vec3, V3, bounded, dot_s, neg_s, GEOM_MAX, DIR_MAX};
use crate::ray::{Ray, RayS};
use crate::material::{Material, Lambertian, material_wf};

verus! {

/// The mathematical value of a hit record.
pub struct HitS {
    pub p: V3,
    pub normal: V3,
    pub t: int,
    pub front_face: bool,
    pub material: Material,
}

/// The result of a ray striking a surface: the point struck, the surface
/// normal oriented against the incoming ray, the ray parameter of the
/// strike, which side of the surface was struck, and the material of the
/// surface, so that the integrator can ask it to scatter.
#[derive(Clone, Copy, Debug, PartialEq, Eq, Structural)]
pub struct HitRecord {
    pub p: Vec3,
    pub normal: Vec3,
    pub t: i64,
    pub front_face: bool,
    pub material: Material,
}

impl View for HitRecord {
    type V = HitS;

    open spec fn view(&self) -> HitS {
        HitS {
            p: self.p@,
            normal: self.normal@,
            t: self.t as int,
            front_face: self.front_face,
            material: self.material,
        }
    }
}

/// The empty record a miss leaves behind.
pub open spec fn hit_zero_s() -> HitS {
    HitS {
        p: V3 { x: 0, y: 0, z: 0 },
        normal: V3 { x: 0, y: 0, z: 0 },
        t: 0,
        front_face: false,
        material: Material::Lambertian(
            Lambertian { albedo: Vec3 { x: 0, y: 0, z: 0 } },
        ),
    }
}

/// A record the intersection pipeline may hand to a material: the point
/// is a scene point and the normal is at unit scale.
pub open spec fn hit_wf(h: HitS) -> bool {
    bounded(h.p, GEOM_MAX as int) && bounded(h.normal, 2_000_000) && 0 <= h.t && material_wf(
        h.material,
    )
}

/// The face-orientation rule: the stored normal always faces the side
/// the ray came from, and `front_face` records whether that was the
/// outside.
pub open spec fn set_face_normal_s(h: HitS, r: RayS, outward: V3) -> HitS {
    let ff = dot_s(r.dir, outward) < 0;
    HitS {
        p: h.p,
        normal: if ff {
            outward
        } else {
            neg_s(outward)
        },
        t: h.t,
        front_face: ff,
        material: h.material,
    }
}

impl HitRecord {
    /// An empty record, filled in by the intersection routine.
    pub fn new() -> (r: HitRecord)
        ensures
            r@ == hit_zero_s(),
    {
        HitRecord {
            p: Vec3 { x: 0, y: 0, z: 0 },
            normal: Vec3 { x: 0, y: 0, z: 0 },
            t: 0,
            front_face: false,
            material: Material::Lambertian(Lambertian { albedo: Vec3 { x: 0, y: 0, z: 0 } }),
        }
    }

    /// Orient `outward` against the incoming ray: the ray is outside the
    /// surface exactly when it runs against the outward normal.
    pub fn set_face_normal(&mut self, ray: &Ray, outward_normal: &Vec3)
        requires
            bounded(ray@.dir, DIR_MAX as int),
            bounded(outward_normal@, DIR_MAX as int),
        ensures
            final(self)@ == set_face_normal_s(old(self)@, ray@, outward_normal@),
    {
        self.front_face = ray.direction.dot(outward_normal) < 0;
        if self.front_face {
            self.normal = *outward_normal;
        } else {
            self.normal = outward_normal.neg();
        }
    }
}

/// The capability of being struck by a ray: report the nearest
/// intersection inside a parametric range, together with its surface
/// data. Each implementor supplies the spec of what it accepts and what
/// it reports.
pub trait Hittable {
    /// What the implementor asks of a query.
    spec fn hit_req(&self, ray: Ray, t_min: i64, t_max: i64) -> bool;

    /// The intersection the implementor reports, if any.
    spec fn hit_spec(&self, ray: Ray, t_min: i64, t_max: i64) -> Option<HitS>;

    /// Report whether the ray strikes within `[t_min, t_max]`, and the
    /// nearest strike when it does.
    fn hit(&self, ray: &Ray, t_min: i64, t_max: i64) -> (r: (bool, HitRecord))
        requires
            self.hit_req(*ray, t_min, t_max),
        ensures
            match self.hit_spec(*ray, t_min, t_max) {
                Some(h) => r.0 && r.1@ == h,
                None => !r.0 && r.1@ == hit_zero_s(),
            },
    ;
}

} // verus!
