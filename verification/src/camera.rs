//! The camera: a fixed eye and projection plane, mapping normalized
//! viewport coordinates to rays.

use vstd::prelude::*;
use crate::fx::{SCALE, mul_s, div_s, fx_mul, fx_div};
use crate::vector::{Vec3, V3, bounded, add_s, sub_s, smul_s, sdiv_s, GEOM_MAX};
use crate::ray::{Ray, RayS, ray_wf};

verus! {

/// The mathematical value of a camera.
pub struct CamS {
    pub origin: V3,
    pub lower_left_corner: V3,
    pub horizontal: V3,
    pub vertical: V3,
}

/// A camera: the eye, the lower-left corner of the projection plane, and
/// the plane's spanning vectors. Derived once; mapping coordinates to
/// rays recomputes nothing.
#[derive(Clone, Copy, Debug, PartialEq, Eq, Structural)]
pub struct Camera {
    pub origin: Vec3,
    pub lower_left_corner: Vec3,
    pub horizontal: Vec3,
    pub vertical: Vec3,
}

impl View for Camera {
    type V = CamS;

    open spec fn view(&self) -> CamS {
        CamS {
            origin: self.origin@,
            lower_left_corner: self.lower_left_corner@,
            horizontal: self.horizontal@,
            vertical: self.vertical@,
        }
    }
}

/// A camera whose fields stay within the scene range.
pub open spec fn cam_wf(c: CamS) -> bool {
    bounded(c.origin, GEOM_MAX as int) && bounded(c.lower_left_corner, GEOM_MAX as int) && bounded(
        c.horizontal,
        GEOM_MAX as int,
    ) && bounded(c.vertical, GEOM_MAX as int)
}

/// The fixed reference camera: a 16:9 viewport of height 2 at focal
/// length 1, the eye at the world origin.
pub open spec fn camera_s() -> CamS {
    let aspect_ratio = div_s(16 * (SCALE as int), 9 * (SCALE as int));
    let viewport_height = 2 * (SCALE as int);
    let viewport_width = mul_s(aspect_ratio, viewport_height);
    let focal_length = SCALE as int;
    let origin = V3 { x: 0, y: 0, z: 0 };
    let horizontal = V3 { x: viewport_width, y: 0, z: 0 };
    let vertical = V3 { x: 0, y: viewport_height, z: 0 };
    let lower_left_corner = sub_s(
        sub_s(
            sub_s(origin, sdiv_s(horizontal, 2 * (SCALE as int))),
            sdiv_s(vertical, 2 * (SCALE as int)),
        ),
        V3 { x: 0, y: 0, z: focal_length },
    );
    CamS { origin, lower_left_corner, horizontal, vertical }
}

/// The ray from the eye through viewport coordinates `(u, v)`.
pub open spec fn get_ray_s(c: CamS, u: int, v: int) -> RayS {
    RayS {
        orig: c.origin,
        dir: sub_s(
            add_s(add_s(c.lower_left_corner, smul_s(c.horizontal, u)), smul_s(c.vertical, v)),
            c.origin,
        ),
    }
}

/// Build the fixed reference camera.
pub fn new() -> (r: Camera)
    ensures
        r@ == camera_s(),
        cam_wf(r@),
{
    let aspect_ratio = fx_div(16 * SCALE, 9 * SCALE);
    let viewport_height = 2 * SCALE;
    let viewport_width = fx_mul(aspect_ratio, viewport_height);
    proof {
        assert(aspect_ratio == 1_777_777);
        assert(viewport_width == 3_555_554);
    }
    let focal_length = SCALE;
    let origin = Vec3 { x: 0, y: 0, z: 0 };
    let horizontal = Vec3 { x: viewport_width, y: 0, z: 0 };
    let vertical = Vec3 { x: 0, y: viewport_height, z: 0 };
    let lower_left_corner = origin.sub(&horizontal.div(2 * SCALE)).sub(
        &vertical.div(2 * SCALE),
    ).sub(&Vec3 { x: 0, y: 0, z: focal_length });
    Camera { origin, lower_left_corner, horizontal, vertical }
}

impl Camera {
    /// The ray from the eye through viewport coordinates `(u, v)`, each a
    /// fixed-point fraction the accumulator has already jittered; the
    /// camera validates nothing beyond the representable range.
    pub fn get_ray(&self, u: i64, v: i64) -> (r: Ray)
        requires
            cam_wf(self@),
            -2 * SCALE <= u <= 2 * SCALE,
            -2 * SCALE <= v <= 2 * SCALE,
        ensures
            r@ == get_ray_s(self@, u as int, v as int),
            ray_wf(r@),
    {
        proof {
            crate::fx::lemma_mul_s_bound(self@.horizontal.x, u as int, GEOM_MAX as int, 2_000_000);
            crate::fx::lemma_mul_s_bound(self@.horizontal.y, u as int, GEOM_MAX as int, 2_000_000);
            crate::fx::lemma_mul_s_bound(self@.horizontal.z, u as int, GEOM_MAX as int, 2_000_000);
            crate::fx::lemma_mul_s_bound(self@.vertical.x, v as int, GEOM_MAX as int, 2_000_000);
            crate::fx::lemma_mul_s_bound(self@.vertical.y, v as int, GEOM_MAX as int, 2_000_000);
            crate::fx::lemma_mul_s_bound(self@.vertical.z, v as int, GEOM_MAX as int, 2_000_000);
        }
        let dir = self.lower_left_corner.add(&self.horizontal.scale(u)).add(
            &self.vertical.scale(v),
        ).sub(&self.origin);
        Ray { origin: self.origin, direction: dir }
    }
}

} // verus!
